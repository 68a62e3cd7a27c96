//! Normalisation of what is sent: images in a container that the protocol
//! does not take are written anew as PNG, and loosely typed textual formats
//! are declared as plain text.

use vstd::prelude::*;
use crate::content_type::{declared_as, declared_type, is_image, is_image_type};

verus! {

/// Error of the image codec.
#[verifier::external_type_specification]
#[verifier::external_body]
pub struct ExImageError(image::ImageError);

/// Container format of an image, as far as the pipeline tells them apart.
#[derive(Clone, Copy, Debug, PartialEq, Eq, Structural)]
pub enum ImageContainer {
    Png,
    Jpeg,
    /// Any other container that the codec recognises.
    Other,
}

/// An image that had to be written anew could not be decoded, or the codec
/// could not write it.
#[derive(Clone, Copy, Debug, PartialEq, Eq, Structural)]
pub struct MediaDecodeError;

/// Content after normalisation, with the type it is declared under.
#[derive(Debug)]
pub struct Normalized {
    pub bytes: Vec<u8>,
    pub content_type: String,
}

/// Mathematical value of a `Normalized`.
pub ghost struct NormalizedView {
    pub bytes: Seq<u8>,
    pub content_type: Seq<char>,
}

impl View for Normalized {
    type V = NormalizedView;

    open spec fn view(&self) -> NormalizedView {
        NormalizedView { bytes: self.bytes@, content_type: self.content_type@ }
    }
}

/// The container that the codec recognises at the start of `bytes`.
pub uninterp spec fn sniffed_container(bytes: Seq<u8>) -> Option<ImageContainer>;

/// The PNG file that the codec writes for the image it decodes from
/// `bytes`; `None` where it cannot decode them or cannot write the image.
pub uninterp spec fn png_reencoding(bytes: Seq<u8>) -> Option<Seq<u8>>;

/// The two containers that the protocol takes as they are.
pub open spec fn natively_supported(format: ImageContainer) -> bool {
    format == ImageContainer::Png || format == ImageContainer::Jpeg
}

/// Content guessed to be an image is written anew when its container is
/// recognised and is not one that the protocol takes.
pub open spec fn needs_reencoding(guessed: Seq<char>, sniffed: Option<ImageContainer>) -> bool {
    is_image(guessed) && sniffed is Some && !natively_supported(sniffed->Some_0)
}

/// Content that goes out unchanged, under its declared type.
pub open spec fn relabelled_as(bytes: Seq<u8>, guessed: Seq<char>) -> NormalizedView {
    NormalizedView { bytes, content_type: declared_as(guessed) }
}

/// Normalisation as a function of the content and its guessed type: `None`
/// where an image would have to be written anew and the codec fails.
pub open spec fn normalized(bytes: Seq<u8>, guessed: Seq<char>) -> Option<NormalizedView> {
    if needs_reencoding(guessed, sniffed_container(bytes)) {
        match png_reencoding(bytes) {
            Some(png) => Some(NormalizedView { bytes: png, content_type: "image/png"@ }),
            None => None,
        }
    } else {
        Some(relabelled_as(bytes, guessed))
    }
}

/// `image::guess_format`: the format whose magic bytes stand at the start of
/// the buffer, `None` where the crate recognises none. The result depends on
/// the bytes alone.
#[verifier::external_body]
fn sniff_container(bytes: &[u8]) -> (r: Option<ImageContainer>)
    ensures
        r == sniffed_container(bytes@),
{
    match image::guess_format(bytes) {
        Ok(image::ImageFormat::Png) => Some(ImageContainer::Png),
        Ok(image::ImageFormat::Jpeg) => Some(ImageContainer::Jpeg),
        Ok(_) => Some(ImageContainer::Other),
        Err(_) => None,
    }
}

/// `image::load_from_memory_with_format` on the format that
/// `image::guess_format` finds, then `DynamicImage::write_to` with
/// `ImageFormat::Png` into a fresh buffer. Decoding and encoding read nothing
/// but the bytes, so the outcome is a function of them; an error of any of
/// the three calls is handed on.
#[verifier::external_body]
fn reencode_as_png(bytes: &[u8]) -> (r: Result<Vec<u8>, image::ImageError>)
    ensures
        r is Ok <==> png_reencoding(bytes@) is Some,
        r is Ok ==> r->Ok_0@ == png_reencoding(bytes@)->Some_0,
{
    let format = image::guess_format(bytes)?;
    let picture = image::load_from_memory_with_format(bytes, format)?;
    let mut out = Vec::new();
    picture.write_to(&mut std::io::Cursor::new(&mut out), image::ImageFormat::Png)?;
    Ok(out)
}

/// Whether content guessed as `guessed`, in the container `sniffed`, has to
/// be written anew.
pub fn requires_reencoding(guessed: &str, sniffed: Option<ImageContainer>) -> (r: bool)
    ensures
        r == needs_reencoding(guessed@, sniffed),
{
    if !is_image_type(guessed) {
        return false;
    }
    match sniffed {
        Some(ImageContainer::Png) => false,
        Some(ImageContainer::Jpeg) => false,
        Some(ImageContainer::Other) => true,
        None => false,
    }
}

/// Content that goes out as it came, under the declared type for `guessed`.
pub fn relabelled(bytes: Vec<u8>, guessed: &str) -> (r: Normalized)
    ensures
        r@ == relabelled_as(bytes@, guessed@),
{
    Normalized { bytes, content_type: declared_type(guessed) }
}

/// What becomes of an attempt to write an image anew: the new bytes,
/// declared as PNG, or a decode error.
pub fn reencoded(outcome: Result<Vec<u8>, image::ImageError>) -> (r: Result<
    Normalized,
    MediaDecodeError,
>)
    ensures
        outcome is Ok ==> r is Ok && r->Ok_0@ == (NormalizedView {
            bytes: outcome->Ok_0@,
            content_type: "image/png"@,
        }),
        outcome is Err ==> r is Err,
{
    match outcome {
        Ok(png) => Ok(Normalized { bytes: png, content_type: "image/png".to_owned() }),
        Err(_) => Err(MediaDecodeError),
    }
}

/// Normalises content for the protocol. An image in a container other than
/// PNG and JPEG is decoded and written as PNG; all other content goes out
/// unchanged, declared as plain text where its guessed type is a loosely
/// typed textual one.
pub fn normalize(bytes: Vec<u8>, guessed: &str) -> (r: Result<Normalized, MediaDecodeError>)
    ensures
        match normalized(bytes@, guessed@) {
            Some(n) => r is Ok && r->Ok_0@ == n,
            None => r is Err,
        },
{
    if is_image_type(guessed) {
        let sniffed = sniff_container(bytes.as_slice());
        if requires_reencoding(guessed, sniffed) {
            return reencoded(reencode_as_png(bytes.as_slice()));
        }
    }
    Ok(relabelled(bytes, guessed))
}

} // verus!
