//! Attachments of a message that is being composed, and the one direction
//! in which their state moves.

use vstd::prelude::*;
use crate::error::{message_of, ConversionError, ErrorView};
use crate::path::{guessed_type, LocalPath, LocalPathView};
use crate::payload::{outcome_view, FileResult, FileResultView};
use crate::remote::{RemoteObjectRef, RemoteObjectView};
use crate::text::same_text;

verus! {

/// Where an attachment stands on its way to the remote service.
#[derive(Debug)]
pub enum AttachmentState {
    /// Not processed yet.
    Local,
    /// Submitted; the remote object is not ready yet.
    Uploading,
    /// The remote object stands for the file.
    Uploaded(RemoteObjectRef),
    /// The conversion failed, for the reason given.
    Failed(String),
}

/// Mathematical value of an `AttachmentState`.
pub ghost enum StateView {
    Local,
    Uploading,
    Uploaded(RemoteObjectView),
    Failed(Seq<char>),
}

impl View for AttachmentState {
    type V = StateView;

    open spec fn view(&self) -> StateView {
        match self {
            AttachmentState::Local => StateView::Local,
            AttachmentState::Uploading => StateView::Uploading,
            AttachmentState::Uploaded(object) => StateView::Uploaded(object@),
            AttachmentState::Failed(reason) => StateView::Failed(reason@),
        }
    }
}

/// How far a state is along the way: `Local`, then `Uploading`, then the
/// two ends `Uploaded` and `Failed`.
pub open spec fn rank(state: StateView) -> nat {
    match state {
        StateView::Local => 0,
        StateView::Uploading => 1,
        StateView::Uploaded(_) => 2,
        StateView::Failed(_) => 2,
    }
}

/// The order that every change of state follows: strictly forward.
pub open spec fn precedes(from: StateView, to: StateView) -> bool {
    rank(from) < rank(to)
}

/// A state that is never left.
pub open spec fn is_terminal(state: StateView) -> bool {
    state is Uploaded || state is Failed
}

/// The state after an attempt to move from `from` to `to`: `to` where that
/// is a move forward, and `from` otherwise.
pub open spec fn advanced(from: StateView, to: StateView) -> StateView {
    if precedes(from, to) {
        to
    } else {
        from
    }
}

impl Default for AttachmentState {
    fn default() -> (state: Self)
        ensures
            state@ == StateView::Local,
    {
        AttachmentState::Local
    }
}

impl Clone for AttachmentState {
    fn clone(&self) -> (r: Self)
        ensures
            r@ == self@,
    {
        match self {
            AttachmentState::Local => AttachmentState::Local,
            AttachmentState::Uploading => AttachmentState::Uploading,
            AttachmentState::Uploaded(object) => AttachmentState::Uploaded(object.clone()),
            AttachmentState::Failed(reason) => AttachmentState::Failed(reason.clone()),
        }
    }
}

impl AttachmentState {
    /// Position of the state along the way.
    pub fn position(&self) -> (r: u8)
        ensures
            r == rank(self@),
    {
        match self {
            AttachmentState::Local => 0,
            AttachmentState::Uploading => 1,
            AttachmentState::Uploaded(_) => 2,
            AttachmentState::Failed(_) => 2,
        }
    }

    /// Moves to `to` if that is a move forward, and reports whether it was.
    /// A state is never moved back, and an end state never changes.
    pub fn advance(&mut self, to: AttachmentState) -> (moved: bool)
        ensures
            moved == precedes(old(self)@, to@),
            final(self)@ == advanced(old(self)@, to@),
    {
        if self.position() < to.position() {
            *self = to;
            true
        } else {
            false
        }
    }
}

/// A file that the user has added to a message.
#[derive(Debug)]
pub struct Attachment {
    /// The path of the file; it identifies the attachment.
    pub path: LocalPath,
    /// The content type guessed when the file was added.
    pub mime: String,
    pub state: AttachmentState,
}

/// Mathematical value of an `Attachment`.
pub ghost struct AttachmentView {
    pub path: LocalPathView,
    pub mime: Seq<char>,
    pub state: StateView,
}

impl View for Attachment {
    type V = AttachmentView;

    open spec fn view(&self) -> AttachmentView {
        AttachmentView { path: self.path@, mime: self.mime@, state: self.state@ }
    }
}

impl Clone for Attachment {
    fn clone(&self) -> (r: Self)
        ensures
            r@ == self@,
    {
        Attachment { path: self.path.clone(), mime: self.mime.clone(), state: self.state.clone() }
    }
}

/// The state that the end of a conversion calls for: the uploaded object,
/// or the failure in words. An inline part is used at once and calls for
/// none.
pub open spec fn called_for(outcome: Result<FileResultView, ErrorView>) -> Option<StateView> {
    match outcome {
        Ok(FileResultView::UploadedFile(object)) => Some(StateView::Uploaded(object)),
        Ok(FileResultView::InlinePart { .. }) => None,
        Err(error) => Some(StateView::Failed(message_of(error))),
    }
}

/// The state of an attachment after its conversion has ended with
/// `outcome`.
pub open spec fn settled(from: StateView, outcome: Result<FileResultView, ErrorView>) -> StateView {
    match called_for(outcome) {
        Some(to) => advanced(from, to),
        None => from,
    }
}

impl Attachment {
    /// The attachment for a file that was just added: not processed yet,
    /// with the content type guessed from its extension.
    pub fn from_path(path: LocalPath) -> (attachment: Self)
        ensures
            attachment@ == (AttachmentView {
                path: path@,
                mime: guessed_type(path@.extension),
                state: StateView::Local,
            }),
    {
        let mime = path.guess_content_type();
        Attachment { path, mime, state: AttachmentState::Local }
    }

    /// Marks the attachment as submitted. Only an attachment that is still
    /// local changes.
    pub fn mark_uploading(&mut self) -> (moved: bool)
        ensures
            moved == (old(self)@.state is Local),
            final(self)@ == (AttachmentView {
                state: advanced(old(self)@.state, StateView::Uploading),
                ..old(self)@
            }),
    {
        self.state.advance(AttachmentState::Uploading)
    }

    /// Records how the conversion of the attachment ended. An attachment
    /// that has reached an end state keeps it.
    pub fn settle(&mut self, outcome: &Result<FileResult, ConversionError>) -> (moved: bool)
        ensures
            final(self)@ == (AttachmentView {
                state: settled(old(self)@.state, outcome_view(*outcome)),
                ..old(self)@
            }),
            moved == (called_for(outcome_view(*outcome)) is Some && !is_terminal(
                old(self)@.state,
            )),
    {
        match outcome {
            Ok(FileResult::UploadedFile(object)) => self.state.advance(
                AttachmentState::Uploaded(object.clone()),
            ),
            Ok(FileResult::InlinePart(_)) => false,
            Err(error) => self.state.advance(AttachmentState::Failed(error.message())),
        }
    }
}

/// Whether position `i` holds the first attachment for `path`.
pub open spec fn is_first_for(list: Seq<Attachment>, i: int, path: Seq<char>) -> bool {
    &&& 0 <= i < list.len()
    &&& list[i]@.path.text == path
    &&& forall|k: int| 0 <= k < i ==> (#[trigger] list[k])@.path.text != path
}

/// Records the end of a conversion with the attachment it belongs to: the
/// first one for `path`. Where the attachment has been removed in the
/// meantime, nothing changes. No attachment is added, removed or moved, and
/// no path or content type changes.
pub fn deliver(
    attachments: &mut Vec<Attachment>,
    path: &str,
    outcome: &Result<FileResult, ConversionError>,
) -> (moved: bool)
    ensures
        final(attachments)@.len() == old(attachments)@.len(),
        forall|i: int|
            0 <= i < old(attachments)@.len() ==> (#[trigger] final(attachments)@[i])@ == (
            if is_first_for(old(attachments)@, i, path@) {
                AttachmentView {
                    state: settled(old(attachments)@[i]@.state, outcome_view(*outcome)),
                    ..old(attachments)@[i]@
                }
            } else {
                old(attachments)@[i]@
            }),
        moved == exists|i: int|
            is_first_for(old(attachments)@, i, path@) && called_for(outcome_view(*outcome))
                is Some && !is_terminal(#[trigger] old(attachments)@[i]@.state),
{
    let mut i: usize = 0;
    while i < attachments.len()
        invariant
            i <= attachments@.len(),
            attachments@ == old(attachments)@,
            forall|k: int| 0 <= k < i ==> (#[trigger] attachments@[k])@.path.text != path@,
        decreases attachments@.len() - i,
    {
        if same_text(attachments[i].path.text.as_str(), path) {
            let mut found = attachments[i].clone();
            let moved = found.settle(outcome);
            attachments.set(i, found);
            proof {
                let before = old(attachments)@;
                assert(is_first_for(before, i as int, path@));
                assert forall|j: int| 0 <= j < before.len() && j != i implies !is_first_for(
                    before,
                    j,
                    path@,
                ) by {
                    if j < i {
                        assert(before[j]@.path.text != path@);
                    } else if is_first_for(before, j, path@) {
                        assert(before[i as int]@.path.text != path@);
                    }
                }
                if moved {
                    assert(is_first_for(before, i as int, path@) && called_for(
                        outcome_view(*outcome),
                    ) is Some && !is_terminal(before[i as int]@.state));
                }
            }
            return moved;
        }
        i += 1;
    }
    proof {
        let before = old(attachments)@;
        assert forall|j: int| 0 <= j < before.len() implies !is_first_for(before, j, path@) by {
            assert(before[j]@.path.text != path@);
        }
    }
    false
}

/// The order of states is strict: no state precedes itself, and what
/// precedes a predecessor precedes the successor too.
pub proof fn law_order_is_strict(a: StateView, b: StateView, c: StateView)
    ensures
        !precedes(a, a),
        precedes(a, b) && precedes(b, c) ==> precedes(a, c),
        !(precedes(a, b) && precedes(b, a)),
{
}

/// The order is `Local`, then `Uploading`, then the two end states: nothing
/// precedes `Local`, nothing follows an end state, and neither end state
/// precedes the other.
pub proof fn law_order_of_states(a: StateView, b: StateView)
    ensures
        precedes(a, b) ==> !(b is Local),
        precedes(a, b) ==> !is_terminal(a),
        a is Local && !(b is Local) ==> precedes(a, b),
        a is Uploading && is_terminal(b) ==> precedes(a, b),
        is_terminal(a) && is_terminal(b) ==> !precedes(a, b),
{
}

/// Every change of state that the library makes follows the order: an
/// attempt to move leaves the state as it is or moves it strictly forward,
/// so it never returns to `Local` and never leaves an end state.
pub proof fn law_changes_follow_the_order(from: StateView, to: StateView)
    ensures
        advanced(from, to) == from || precedes(from, advanced(from, to)),
        advanced(from, to) is Local ==> from is Local,
        is_terminal(from) ==> advanced(from, to) == from,
{
}

/// The end of a conversion changes the state of an attachment along the
/// order too, whatever the outcome.
pub proof fn law_settling_follows_the_order(
    from: StateView,
    outcome: Result<FileResultView, ErrorView>,
)
    ensures
        settled(from, outcome) == from || precedes(from, settled(from, outcome)),
        settled(from, outcome) is Local ==> from is Local,
        is_terminal(from) ==> settled(from, outcome) == from,
{
}

} // verus!
