//! Why a conversion ended without a request part.

use vstd::prelude::*;
use crate::content_type::{allow_list_text, listed, supported_types};
use crate::text::{decimal, decimal_text, joined};

verus! {

/// Terminal failure of one conversion. None of them is retried.
#[derive(Debug)]
pub enum ConversionError {
    /// The file could not be examined or read.
    Io { reason: String },
    /// The file is over the inline ceiling and upload was not requested.
    PayloadTooLarge { size: u64 },
    /// The image in the named file could not be decoded, or not be written
    /// in the supported format.
    MediaDecode { file: String },
    /// The final content type is not one the protocol accepts.
    UnsupportedType { content_type: String },
    /// The service refused the upload, or could not be reached for it.
    UploadSubmit { reason: String },
    /// The state of the uploaded object could not be fetched.
    StatusCheck { reason: String },
    /// The service reported that it failed to process the object.
    RemoteProcessingFailed,
    /// The object did not become active within the time allowed.
    UploadTimeout,
}

/// Mathematical value of a `ConversionError`.
pub ghost enum ErrorView {
    Io { reason: Seq<char> },
    PayloadTooLarge { size: nat },
    MediaDecode { file: Seq<char> },
    UnsupportedType { content_type: Seq<char> },
    UploadSubmit { reason: Seq<char> },
    StatusCheck { reason: Seq<char> },
    RemoteProcessingFailed,
    UploadTimeout,
}

impl View for ConversionError {
    type V = ErrorView;

    open spec fn view(&self) -> ErrorView {
        match self {
            ConversionError::Io { reason } => ErrorView::Io { reason: reason@ },
            ConversionError::PayloadTooLarge { size } => ErrorView::PayloadTooLarge {
                size: *size as nat,
            },
            ConversionError::MediaDecode { file } => ErrorView::MediaDecode { file: file@ },
            ConversionError::UnsupportedType { content_type } => ErrorView::UnsupportedType {
                content_type: content_type@,
            },
            ConversionError::UploadSubmit { reason } => ErrorView::UploadSubmit {
                reason: reason@,
            },
            ConversionError::StatusCheck { reason } => ErrorView::StatusCheck { reason: reason@ },
            ConversionError::RemoteProcessingFailed => ErrorView::RemoteProcessingFailed,
            ConversionError::UploadTimeout => ErrorView::UploadTimeout,
        }
    }
}

impl Clone for ConversionError {
    fn clone(&self) -> (r: Self)
        ensures
            r@ == self@,
    {
        match self {
            ConversionError::Io { reason } => ConversionError::Io { reason: reason.clone() },
            ConversionError::PayloadTooLarge { size } => ConversionError::PayloadTooLarge {
                size: *size,
            },
            ConversionError::MediaDecode { file } => ConversionError::MediaDecode {
                file: file.clone(),
            },
            ConversionError::UnsupportedType { content_type } => ConversionError::UnsupportedType {
                content_type: content_type.clone(),
            },
            ConversionError::UploadSubmit { reason } => ConversionError::UploadSubmit {
                reason: reason.clone(),
            },
            ConversionError::StatusCheck { reason } => ConversionError::StatusCheck {
                reason: reason.clone(),
            },
            ConversionError::RemoteProcessingFailed => ConversionError::RemoteProcessingFailed,
            ConversionError::UploadTimeout => ConversionError::UploadTimeout,
        }
    }
}

/// The words in which a failure is shown to the user. A failure that was
/// reported from outside is shown in the words it came with.
pub open spec fn message_of(error: ErrorView) -> Seq<char> {
    match error {
        ErrorView::Io { reason } => reason,
        ErrorView::PayloadTooLarge { size } => "File is too large for inline transmission ("@
            + decimal_text(size)
            + " bytes > 20MB limit). Please enable 'File API' in settings."@,
        ErrorView::MediaDecode { file } => "Failed to decode image: "@ + file,
        ErrorView::UnsupportedType { content_type } => "Unsupported MIME type: "@ + content_type
            + ". Supported types are: "@ + listed(supported_types()),
        ErrorView::UploadSubmit { reason } => reason,
        ErrorView::StatusCheck { reason } => reason,
        ErrorView::RemoteProcessingFailed => "File processing failed on Google server side."@,
        ErrorView::UploadTimeout => "Timeout waiting for file to become ACTIVE"@,
    }
}

impl ConversionError {
    /// The failure in words for the user.
    pub fn message(&self) -> (r: String)
        ensures
            r@ == message_of(self@),
    {
        match self {
            ConversionError::Io { reason } => reason.clone(),
            ConversionError::PayloadTooLarge { size } => {
                let mut out = joined(
                    "File is too large for inline transmission (",
                    decimal(*size).as_str(),
                );
                out.push_str(" bytes > 20MB limit). Please enable 'File API' in settings.");
                out
            },
            ConversionError::MediaDecode { file } => joined(
                "Failed to decode image: ",
                file.as_str(),
            ),
            ConversionError::UnsupportedType { content_type } => {
                let mut out = joined("Unsupported MIME type: ", content_type.as_str());
                out.push_str(". Supported types are: ");
                out.push_str(allow_list_text().as_str());
                out
            },
            ConversionError::UploadSubmit { reason } => reason.clone(),
            ConversionError::StatusCheck { reason } => reason.clone(),
            ConversionError::RemoteProcessingFailed => {
                "File processing failed on Google server side.".to_owned()
            },
            ConversionError::UploadTimeout => "Timeout waiting for file to become ACTIVE".to_owned(),
        }
    }
}

} // verus!
