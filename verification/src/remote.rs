//! Metadata of an object that the remote service holds.

use vstd::prelude::*;

verus! {

/// Processing state that the remote service reports for an object.
#[derive(Clone, Copy, Debug, PartialEq, Eq, Structural)]
pub enum RemoteState {
    Unspecified,
    Processing,
    Active,
    Failed,
    /// A state this client has no name for.
    Other,
}

/// Reference to an uploaded object: the service's name for it, where it can
/// be addressed, and when it ceases to exist.
#[derive(Debug)]
pub struct RemoteObjectRef {
    pub name: String,
    pub uri: Option<String>,
    pub mime_type: Option<String>,
    /// Expiration as nanoseconds since the Unix epoch; `None` never expires.
    pub expiration: Option<i128>,
    /// `None` when the service reported no state at all.
    pub state: Option<RemoteState>,
}

/// Mathematical value of a `RemoteObjectRef`.
pub ghost struct RemoteObjectView {
    pub name: Seq<char>,
    pub uri: Option<Seq<char>>,
    pub mime_type: Option<Seq<char>>,
    pub expiration: Option<int>,
    pub state: Option<RemoteState>,
}

/// View of an optional text.
pub open spec fn text_view(t: Option<String>) -> Option<Seq<char>> {
    match t {
        Some(s) => Some(s@),
        None => None,
    }
}

/// An object is expired at `now` when it has an expiration that lies
/// strictly before `now`.
pub open spec fn expired_at(expiration: Option<int>, now: int) -> bool {
    match expiration {
        Some(e) => e < now,
        None => false,
    }
}

impl View for RemoteObjectRef {
    type V = RemoteObjectView;

    open spec fn view(&self) -> RemoteObjectView {
        RemoteObjectView {
            name: self.name@,
            uri: text_view(self.uri),
            mime_type: text_view(self.mime_type),
            expiration: match self.expiration {
                Some(e) => Some(e as int),
                None => None,
            },
            state: self.state,
        }
    }
}

/// Copy of an optional text.
pub fn copy_text(t: &Option<String>) -> (r: Option<String>)
    ensures
        text_view(r) == text_view(*t),
{
    match t {
        Some(s) => Some(s.clone()),
        None => None,
    }
}

impl Clone for RemoteObjectRef {
    fn clone(&self) -> (r: Self)
        ensures
            r@ == self@,
    {
        RemoteObjectRef {
            name: self.name.clone(),
            uri: copy_text(&self.uri),
            mime_type: copy_text(&self.mime_type),
            expiration: self.expiration,
            state: self.state,
        }
    }
}

impl RemoteObjectRef {
    /// Whether the object is expired at `now` (nanoseconds since the epoch).
    pub fn is_expired(&self, now: i128) -> (r: bool)
        ensures
            r == expired_at(self@.expiration, now as int),
    {
        match self.expiration {
            Some(e) => e < now,
            None => false,
        }
    }
}

} // verus!
