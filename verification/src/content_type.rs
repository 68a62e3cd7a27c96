//! Content types: the protocol's allow-list, and the conservative label
//! given to loosely typed textual formats.

use vstd::prelude::*;
use crate::error::{ConversionError, ErrorView};
use crate::text::{has_prefix, same_text};

verus! {

/// The content types that the protocol accepts, in the order in which they
/// are shown to the user.
pub open spec fn supported_types() -> Seq<Seq<char>> {
    seq![
        "image/png"@,
        "image/jpeg"@,
        "image/webp"@,
        "image/heic"@,
        "image/heif"@,
        "video/mp4"@,
        "video/mpeg"@,
        "video/quicktime"@,
        "video/avi"@,
        "video/x-flv"@,
        "video/mpg"@,
        "video/webm"@,
        "video/wmv"@,
        "video/3gpp"@,
        "audio/wav"@,
        "audio/mp3"@,
        "audio/aiff"@,
        "audio/aac"@,
        "audio/ogg"@,
        "audio/flac"@,
        "text/plain"@,
        "text/html"@,
        "text/css"@,
        "text/javascript"@,
        "text/typescript"@,
        "application/x-javascript"@,
        "application/json"@,
        "text/xml"@,
        "application/rtf"@,
        "text/rtf"@,
        "application/pdf"@,
    ]
}

/// Membership in the allow-list.
pub open spec fn is_supported(content_type: Seq<char>) -> bool {
    supported_types().contains(content_type)
}

/// The allow-list as values.
pub fn allow_list() -> (list: Vec<&'static str>)
    ensures
        list@.len() == supported_types().len(),
        forall|i: int| 0 <= i < list@.len() ==> (#[trigger] list@[i])@ == supported_types()[i],
{
    let list = vec![
        "image/png",
        "image/jpeg",
        "image/webp",
        "image/heic",
        "image/heif",
        "video/mp4",
        "video/mpeg",
        "video/quicktime",
        "video/avi",
        "video/x-flv",
        "video/mpg",
        "video/webm",
        "video/wmv",
        "video/3gpp",
        "audio/wav",
        "audio/mp3",
        "audio/aiff",
        "audio/aac",
        "audio/ogg",
        "audio/flac",
        "text/plain",
        "text/html",
        "text/css",
        "text/javascript",
        "text/typescript",
        "application/x-javascript",
        "application/json",
        "text/xml",
        "application/rtf",
        "text/rtf",
        "application/pdf",
    ];
    list
}

/// Whether the protocol accepts `content_type`.
pub fn is_supported_type(content_type: &str) -> (r: bool)
    ensures
        r == is_supported(content_type@),
{
    let list = allow_list();
    let mut i: usize = 0;
    while i < list.len()
        invariant
            i <= list@.len(),
            list@.len() == supported_types().len(),
            forall|k: int| 0 <= k < list@.len() ==> (#[trigger] list@[k])@ == supported_types()[k],
            forall|k: int| 0 <= k < i ==> supported_types()[k] != content_type@,
        decreases list@.len() - i,
    {
        if same_text(list[i], content_type) {
            assert(supported_types()[i as int] == content_type@);
            return true;
        }
        i += 1;
    }
    false
}

/// Accepts a content type of the allow-list and rejects every other,
/// naming the one rejected.
pub fn validate(content_type: &str) -> (r: Result<(), ConversionError>)
    ensures
        is_supported(content_type@) ==> r is Ok,
        !is_supported(content_type@) ==> r is Err && r->Err_0@ == (ErrorView::UnsupportedType {
            content_type: content_type@,
        }),
{
    if is_supported_type(content_type) {
        Ok(())
    } else {
        Err(ConversionError::UnsupportedType { content_type: content_type.to_owned() })
    }
}

/// A type of the `application` category.
pub open spec fn is_application(content_type: Seq<char>) -> bool {
    "application/"@.is_prefix_of(content_type)
}

/// A type of the `text` category.
pub open spec fn is_text(content_type: Seq<char>) -> bool {
    "text/"@.is_prefix_of(content_type)
}

/// A type of the `image` category.
pub open spec fn is_image(content_type: Seq<char>) -> bool {
    "image/"@.is_prefix_of(content_type)
}

/// Whether a guessed type is relabelled as plain text: every `application`
/// type but PDF, and every `text` type but plain text itself.
pub open spec fn is_downgraded(guessed: Seq<char>) -> bool {
    (is_application(guessed) && guessed != "application/pdf"@) || (is_text(guessed) && guessed
        != "text/plain"@)
}

/// The type under which content guessed as `guessed` is declared, before
/// any change of the content itself.
pub open spec fn declared_as(guessed: Seq<char>) -> Seq<char> {
    if is_downgraded(guessed) {
        "text/plain"@
    } else {
        guessed
    }
}

/// Whether `content_type` is of the `image` category.
pub fn is_image_type(content_type: &str) -> (r: bool)
    ensures
        r == is_image(content_type@),
{
    has_prefix(content_type, "image/")
}

/// The declared type for a guessed one: plain text for the loosely typed
/// textual formats, the guess itself otherwise.
pub fn declared_type(guessed: &str) -> (r: String)
    ensures
        r@ == declared_as(guessed@),
{
    let application = has_prefix(guessed, "application/") && !same_text(
        guessed,
        "application/pdf",
    );
    let text = has_prefix(guessed, "text/") && !same_text(guessed, "text/plain");
    if application || text {
        "text/plain".to_owned()
    } else {
        guessed.to_owned()
    }
}

/// An item between double quotes.
pub open spec fn quoted(item: Seq<char>) -> Seq<char> {
    "\""@ + item + "\""@
}

/// The items of a list, each between double quotes, with a comma and a
/// space between one and the next.
pub open spec fn listed_items(list: Seq<Seq<char>>) -> Seq<char>
    decreases list.len(),
{
    if list.len() == 0 {
        Seq::empty()
    } else if list.len() == 1 {
        quoted(list[0])
    } else {
        listed_items(list.drop_last()) + ", "@ + quoted(list.last())
    }
}

/// A list as it is shown to the user: its quoted items in square brackets.
pub open spec fn listed(list: Seq<Seq<char>>) -> Seq<char> {
    "["@ + listed_items(list) + "]"@
}

/// The allow-list as it is shown to the user.
pub fn allow_list_text() -> (r: String)
    ensures
        r@ == listed(supported_types()),
{
    let list = allow_list();
    let mut out = "[".to_owned();
    let mut i: usize = 0;
    while i < list.len()
        invariant
            i <= list@.len(),
            list@.len() == supported_types().len(),
            forall|k: int| 0 <= k < list@.len() ==> (#[trigger] list@[k])@ == supported_types()[k],
            out@ == "["@ + listed_items(supported_types().take(i as int)),
        decreases list@.len() - i,
    {
        let ghost before = supported_types().take(i as int);
        let ghost after = supported_types().take(i as int + 1);
        proof {
            assert(after.drop_last() =~= before);
            assert(after.last() == supported_types()[i as int]);
        }
        if i > 0 {
            out.push_str(", ");
        }
        out.push_str("\"");
        out.push_str(list[i]);
        out.push_str("\"");
        proof {
            if i == 0 {
                assert(before.len() == 0);
                assert(after.len() == 1);
                assert(out@ =~= "["@ + listed_items(after));
            } else {
                assert(after.len() > 1);
                assert(out@ =~= "["@ + listed_items(after));
            }
        }
        i += 1;
    }
    proof {
        assert(supported_types().take(i as int) =~= supported_types());
    }
    out.push_str("]");
    out
}

} // verus!
