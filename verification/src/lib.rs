//! Attachment pipeline of a chat client: turns a local file into a request
//! part, either as an inline base64 payload or as a reference to an object
//! uploaded to the remote service.

pub mod attachment;
pub mod cache;
pub mod content_type;
pub mod convert;
pub mod error;
pub mod laws;
pub mod media;
pub mod path;
pub mod payload;
pub mod presentation;
pub mod remote;
pub mod settings;
pub mod text;
pub mod upload;
