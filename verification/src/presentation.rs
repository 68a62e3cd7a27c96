//! What the list of attachments shows for each of them. Nothing here draws:
//! these are the decisions that the drawing code carries out.

use vstd::prelude::*;
use crate::attachment::{Attachment, AttachmentState, StateView};
use crate::text::{has_prefix, joined, same_text};

verus! {

/// How an attachment is framed: one treatment for each state, and one more
/// for a local file that is no longer on disk.
#[derive(Clone, Copy, Debug, PartialEq, Eq, Structural)]
pub enum Treatment {
    Plain,
    Missing,
    Uploading,
    Uploaded,
    Failed,
}

/// The treatment for a state; `exists` says whether the file is on disk
/// now.
pub open spec fn treatment_for(state: StateView, exists: bool) -> Treatment {
    match state {
        StateView::Local => if exists {
            Treatment::Plain
        } else {
            Treatment::Missing
        },
        StateView::Uploading => Treatment::Uploading,
        StateView::Uploaded(_) => Treatment::Uploaded,
        StateView::Failed(_) => Treatment::Failed,
    }
}

/// The colour of the frame for a treatment, as red, green and blue.
pub open spec fn frame_color_of(treatment: Treatment) -> (u8, u8, u8) {
    match treatment {
        Treatment::Plain => (160u8, 160u8, 160u8),
        Treatment::Missing => (201u8, 178u8, 141u8),
        Treatment::Uploading => (141u8, 164u8, 201u8),
        Treatment::Uploaded => (141u8, 189u8, 156u8),
        Treatment::Failed => (201u8, 141u8, 141u8),
    }
}

/// The treatment for an attachment in `state`.
pub fn treatment(state: &AttachmentState, exists: bool) -> (r: Treatment)
    ensures
        r == treatment_for(state@, exists),
{
    match state {
        AttachmentState::Local => if exists {
            Treatment::Plain
        } else {
            Treatment::Missing
        },
        AttachmentState::Uploading => Treatment::Uploading,
        AttachmentState::Uploaded(_) => Treatment::Uploaded,
        AttachmentState::Failed(_) => Treatment::Failed,
    }
}

/// The colour of the frame for a treatment.
pub fn frame_color(treatment: Treatment) -> (r: (u8, u8, u8))
    ensures
        r == frame_color_of(treatment),
{
    match treatment {
        Treatment::Plain => (160, 160, 160),
        Treatment::Missing => (201, 178, 141),
        Treatment::Uploading => (141, 164, 201),
        Treatment::Uploaded => (141, 189, 156),
        Treatment::Failed => (201, 141, 141),
    }
}

/// What stands for the content of an attachment.
#[derive(Clone, Copy, Debug, PartialEq, Eq, Structural)]
pub enum Preview {
    /// The image itself.
    Image,
    /// A warning sign: the file is not on disk.
    Warning,
    /// The sign for a video.
    Video,
    /// The sign for audio.
    Audio,
    /// The sign for any other file.
    Clip,
}

/// Whether the part of `mime` before its first slash, or all of it where it
/// has none, is `category`. The category itself holds no slash.
pub open spec fn in_category(mime: Seq<char>, category: Seq<char>) -> bool {
    mime == category || (category + "/"@).is_prefix_of(mime)
}

/// The preview for a content type: an image is shown only while its file
/// exists, and a file that does not exist is shown by a warning whatever
/// its type.
pub open spec fn preview_for(mime: Seq<char>, exists: bool) -> Preview {
    if !exists {
        Preview::Warning
    } else if in_category(mime, "image"@) {
        Preview::Image
    } else if in_category(mime, "video"@) {
        Preview::Video
    } else if in_category(mime, "audio"@) {
        Preview::Audio
    } else {
        Preview::Clip
    }
}

/// Whether `mime` is of `category`.
pub fn has_category(mime: &str, category: &str) -> (r: bool)
    ensures
        r == in_category(mime@, category@),
{
    if same_text(mime, category) {
        return true;
    }
    let with_slash = joined(category, "/");
    has_prefix(mime, with_slash.as_str())
}

/// The preview for an attachment of type `mime`.
pub fn preview(mime: &str, exists: bool) -> (r: Preview)
    ensures
        r == preview_for(mime@, exists),
{
    if !exists {
        Preview::Warning
    } else if has_category(mime, "image") {
        Preview::Image
    } else if has_category(mime, "video") {
        Preview::Video
    } else if has_category(mime, "audio") {
        Preview::Audio
    } else {
        Preview::Clip
    }
}

/// The line under the preview: the name of the file, marked where the file
/// is not on disk.
pub open spec fn caption_for(file_name: Seq<char>, exists: bool) -> Seq<char> {
    if exists {
        file_name
    } else {
        file_name + " (FILE NOT FOUND)"@
    }
}

/// The line under the preview.
pub fn caption(file_name: &str, exists: bool) -> (r: String)
    ensures
        r@ == caption_for(file_name@, exists),
{
    if exists {
        file_name.to_owned()
    } else {
        joined(file_name, " (FILE NOT FOUND)")
    }
}

/// Takes the attachment at `index` out of the list, as the user asked. The
/// attachments that stay are untouched and keep their order. An index past
/// the end removes nothing.
pub fn remove_attachment(attachments: &mut Vec<Attachment>, index: usize) -> (removed: bool)
    ensures
        removed == (index < old(attachments)@.len()),
        removed ==> final(attachments)@ == old(attachments)@.remove(index as int),
        !removed ==> final(attachments)@ == old(attachments)@,
{
    if index < attachments.len() {
        attachments.remove(index);
        true
    } else {
        false
    }
}

} // verus!
