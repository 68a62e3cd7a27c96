//! A local file path as the pipeline sees it: its text, which identifies the
//! file, and the two parts of it that decide anything.

use vstd::prelude::*;
use crate::remote::{copy_text, text_view};

verus! {

/// A path together with its final component and its extension.
#[derive(Debug)]
pub struct LocalPath {
    /// The whole path; two paths with the same text are the same file.
    pub text: String,
    /// The final component, where the path has one.
    pub file_name: Option<String>,
    /// The extension of the final component, without the dot.
    pub extension: Option<String>,
}

/// Mathematical value of a `LocalPath`.
pub ghost struct LocalPathView {
    pub text: Seq<char>,
    pub file_name: Option<Seq<char>>,
    pub extension: Option<Seq<char>>,
}

impl View for LocalPath {
    type V = LocalPathView;

    open spec fn view(&self) -> LocalPathView {
        LocalPathView {
            text: self.text@,
            file_name: text_view(self.file_name),
            extension: text_view(self.extension),
        }
    }
}

/// The content type that the guesser gives for an extension.
pub uninterp spec fn guessed_by_extension(extension: Seq<char>) -> Seq<char>;

/// The content type guessed for a path: the guesser's answer for its
/// extension, and the generic binary type where it has none.
pub open spec fn guessed_type(extension: Option<Seq<char>>) -> Seq<char> {
    match extension {
        Some(e) => guessed_by_extension(e),
        None => "application/octet-stream"@,
    }
}

/// The name under which a file is shown to the remote service: its final
/// component, or a fixed name where the path has none.
pub open spec fn display_name_of(file_name: Option<Seq<char>>) -> Seq<char> {
    match file_name {
        Some(n) => n,
        None => "uploaded_file"@,
    }
}

/// `std::path::Path::file_name`, as text where it is valid Unicode. What the
/// final component is depends on the platform's separators, so nothing is
/// claimed of the result.
#[verifier::external_body]
fn final_component(text: &str) -> Option<String> {
    match std::path::Path::new(text).file_name() {
        Some(name) => match name.to_str() {
            Some(s) => Some(s.to_owned()),
            None => None,
        },
        None => None,
    }
}

/// `std::path::Path::extension`, as text where it is valid Unicode. Nothing
/// is claimed of the result, for the same reason.
#[verifier::external_body]
fn extension_part(text: &str) -> Option<String> {
    match std::path::Path::new(text).extension() {
        Some(ext) => match ext.to_str() {
            Some(s) => Some(s.to_owned()),
            None => None,
        },
        None => None,
    }
}

/// `mime_guess::from_ext` followed by `first_or_octet_stream`, written out as
/// text: the first content type that the crate's table lists for the
/// extension, looked up without regard to case. For the empty extension
/// `from_ext` returns an empty guess, which `first_or_octet_stream` turns
/// into `application/octet-stream`.
#[verifier::external_body]
fn guess_by_extension(extension: &str) -> (r: String)
    ensures
        r@ == guessed_by_extension(extension@),
        extension@.len() == 0 ==> r@ == "application/octet-stream"@,
{
    mime_guess::from_ext(extension).first_or_octet_stream().to_string()
}

impl LocalPath {
    /// Splits a path given as text by the rules of the platform.
    pub fn from_text(text: String) -> (r: LocalPath)
        ensures
            r@.text == text@,
    {
        let file_name = final_component(text.as_str());
        let extension = extension_part(text.as_str());
        LocalPath { text, file_name, extension }
    }

    /// The content type guessed from the extension.
    pub fn guess_content_type(&self) -> (r: String)
        ensures
            r@ == guessed_type(self@.extension),
    {
        match &self.extension {
            Some(e) => guess_by_extension(e.as_str()),
            None => {
                proof {
                    reveal_strlit("");
                }
                guess_by_extension("")
            },
        }
    }

    /// The name under which the file is uploaded.
    pub fn display_name(&self) -> (r: String)
        ensures
            r@ == display_name_of(self@.file_name),
    {
        match &self.file_name {
            Some(n) => n.clone(),
            None => "uploaded_file".to_owned(),
        }
    }
}

impl Clone for LocalPath {
    fn clone(&self) -> (r: Self)
        ensures
            r@ == self@,
    {
        LocalPath {
            text: self.text.clone(),
            file_name: copy_text(&self.file_name),
            extension: copy_text(&self.extension),
        }
    }
}

} // verus!
