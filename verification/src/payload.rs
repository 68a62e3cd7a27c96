//! The two forms in which a file reaches a request: embedded as base64
//! text, or as a reference to an uploaded object.

use vstd::prelude::*;
use crate::error::{ConversionError, ErrorView};
use crate::media::{Normalized, NormalizedView};
use crate::remote::{RemoteObjectRef, RemoteObjectView};

verus! {

/// Largest size, in bytes, of a file that is sent inline: 20 MiB.
pub const MAX_INLINE_SIZE: u64 = 20_971_520;

/// Content embedded in a request: its type and its bytes as base64 text.
#[derive(Debug)]
pub struct InlinePayload {
    pub content_type: String,
    pub data: String,
}

/// A successful conversion: exactly one of the two forms.
#[derive(Debug)]
pub enum FileResult {
    /// Inline data, for direct use in a request.
    InlinePart(InlinePayload),
    /// The uploaded object that stands for the file.
    UploadedFile(RemoteObjectRef),
}

/// Mathematical value of a `FileResult`.
pub ghost enum FileResultView {
    InlinePart { content_type: Seq<char>, data: Seq<char> },
    UploadedFile(RemoteObjectView),
}

impl View for FileResult {
    type V = FileResultView;

    open spec fn view(&self) -> FileResultView {
        match self {
            FileResult::InlinePart(p) => FileResultView::InlinePart {
                content_type: p.content_type@,
                data: p.data@,
            },
            FileResult::UploadedFile(o) => FileResultView::UploadedFile(o@),
        }
    }
}

/// View of how a conversion ended.
pub open spec fn outcome_view(outcome: Result<FileResult, ConversionError>) -> Result<
    FileResultView,
    ErrorView,
> {
    match outcome {
        Ok(r) => Ok(r@),
        Err(e) => Err(e@),
    }
}

/// The standard base64 text, with padding, of `bytes`.
pub uninterp spec fn base64_text(bytes: Seq<u8>) -> Seq<char>;

/// Content of `len` bytes can be encoded when the length of the text, four
/// characters for every three bytes begun, still fits the machine word.
pub open spec fn encodable(len: nat) -> bool {
    (len / 3) * 4 + 4 <= usize::MAX
}

/// What inline transmission makes of normalised content: the payload with
/// its base64 text, or the refusal of content too long to encode.
pub open spec fn inlined(content: NormalizedView) -> Result<FileResultView, ErrorView> {
    if encodable(content.bytes.len()) {
        Ok(
            FileResultView::InlinePart {
                content_type: content.content_type,
                data: base64_text(content.bytes),
            },
        )
    } else {
        Err(ErrorView::PayloadTooLarge { size: content.bytes.len() })
    }
}

/// `Engine::encode` of `base64::engine::general_purpose::STANDARD`: the
/// input in the standard alphabet with `=` padding, as a fresh `String`.
/// The crate panics where the length of the text overflows `usize`; the
/// precondition leaves those inputs out.
#[verifier::external_body]
fn encode_base64(bytes: &[u8]) -> (text: String)
    requires
        encodable(bytes@.len()),
    ensures
        text@ == base64_text(bytes@),
{
    base64::Engine::encode(&base64::engine::general_purpose::STANDARD, bytes)
}

/// Whether content of `len` bytes can be encoded.
pub fn can_encode(len: usize) -> (r: bool)
    ensures
        r == encodable(len as nat),
{
    len / 3 <= (usize::MAX - 4) / 4
}

/// The payload that carries `data` as the base64 text of content declared
/// as `content_type`.
pub fn inline_payload(content_type: String, data: String) -> (r: FileResult)
    ensures
        r@ == (FileResultView::InlinePart { content_type: content_type@, data: data@ }),
{
    FileResult::InlinePart(InlinePayload { content_type, data })
}

/// Encodes normalised content for inline transmission.
pub fn inline_part(content: Normalized) -> (r: Result<FileResult, ConversionError>)
    ensures
        outcome_view(r) == inlined(content@),
{
    if can_encode(content.bytes.len()) {
        let data = encode_base64(content.bytes.as_slice());
        Ok(inline_payload(content.content_type, data))
    } else {
        Err(ConversionError::PayloadTooLarge { size: content.bytes.len() as u64 })
    }
}

} // verus!
