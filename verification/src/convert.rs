//! The conversion of one file, as a machine that is told what happened and
//! answers with what to do next.
//!
//! The machine never reads a file, asks the cache or talks to the remote
//! service itself. Its owner carries out each `Action` and reports the
//! outcome as the `Event` that the action calls for; every decision of the
//! pipeline is taken here.

use vstd::prelude::*;
use vstd::pervasive::unreached;
use crate::cache::{live_entry, object_view, RemoteObjectCache};
use crate::content_type::{is_supported, validate};
use crate::error::{ConversionError, ErrorView};
use crate::media::{normalize, normalized, MediaDecodeError, Normalized, NormalizedView};
use crate::path::{display_name_of, guessed_type, LocalPath, LocalPathView};
use crate::payload::{
    inline_part, inlined, outcome_view, FileResult, FileResultView, MAX_INLINE_SIZE,
};
use crate::remote::{RemoteObjectRef, RemoteObjectView};
use crate::upload::{poll_verdict, verdict_for, PollVerdict, POLL_INTERVAL_MILLIS};

verus! {

/// Where a conversion stands: what it is waiting to be told.
#[derive(Debug)]
pub enum Phase {
    /// The size of the file.
    AwaitingSize,
    /// What the cache holds for the path.
    AwaitingCache,
    /// The contents of the file.
    AwaitingContents,
    /// Whether the service took the upload.
    AwaitingSubmission,
    /// The state of the uploaded object with this name.
    Polling { name: String },
    /// The end of the pause before the next check of that object.
    Pausing { name: String },
    /// That the cache has been given this object.
    Storing { object: RemoteObjectRef },
    /// Nothing: the result has been delivered.
    Finished,
}

/// Mathematical value of a `Phase`.
pub ghost enum PhaseView {
    AwaitingSize,
    AwaitingCache,
    AwaitingContents,
    AwaitingSubmission,
    Polling { name: Seq<char> },
    Pausing { name: Seq<char> },
    Storing { object: RemoteObjectView },
    Finished,
}

impl View for Phase {
    type V = PhaseView;

    open spec fn view(&self) -> PhaseView {
        match self {
            Phase::AwaitingSize => PhaseView::AwaitingSize,
            Phase::AwaitingCache => PhaseView::AwaitingCache,
            Phase::AwaitingContents => PhaseView::AwaitingContents,
            Phase::AwaitingSubmission => PhaseView::AwaitingSubmission,
            Phase::Polling { name } => PhaseView::Polling { name: name@ },
            Phase::Pausing { name } => PhaseView::Pausing { name: name@ },
            Phase::Storing { object } => PhaseView::Storing { object: object@ },
            Phase::Finished => PhaseView::Finished,
        }
    }
}

/// What the owner of a conversion reports to it.
#[derive(Debug)]
pub enum Event {
    /// The file has this many bytes.
    Size(u64),
    /// The file could not be examined.
    StatFailed(String),
    /// The cache holds this live object for the path, or none. An owner
    /// that cannot reach the cache reports none.
    CacheAnswer(Option<RemoteObjectRef>),
    /// The file holds these bytes.
    Contents(Vec<u8>),
    /// The file could not be read.
    ReadFailed(String),
    /// The service took the upload and names the pending object.
    Submitted(RemoteObjectRef),
    /// The upload was not taken.
    SubmitFailed(String),
    /// The service reports the object so, this long after the upload was
    /// submitted.
    Status { object: RemoteObjectRef, elapsed_nanos: u128 },
    /// The state of the object could not be fetched.
    StatusFailed(String),
    /// The pause is over.
    Paused,
    /// The cache has been given the object, or could not be reached.
    Stored,
}

/// Mathematical value of an `Event`.
pub ghost enum EventView {
    Size(nat),
    StatFailed(Seq<char>),
    CacheAnswer(Option<RemoteObjectView>),
    Contents(Seq<u8>),
    ReadFailed(Seq<char>),
    Submitted(RemoteObjectView),
    SubmitFailed(Seq<char>),
    Status { object: RemoteObjectView, elapsed_nanos: nat },
    StatusFailed(Seq<char>),
    Paused,
    Stored,
}

impl View for Event {
    type V = EventView;

    open spec fn view(&self) -> EventView {
        match self {
            Event::Size(n) => EventView::Size(*n as nat),
            Event::StatFailed(reason) => EventView::StatFailed(reason@),
            Event::CacheAnswer(answer) => EventView::CacheAnswer(object_view(*answer)),
            Event::Contents(bytes) => EventView::Contents(bytes@),
            Event::ReadFailed(reason) => EventView::ReadFailed(reason@),
            Event::Submitted(object) => EventView::Submitted(object@),
            Event::SubmitFailed(reason) => EventView::SubmitFailed(reason@),
            Event::Status { object, elapsed_nanos } => EventView::Status {
                object: object@,
                elapsed_nanos: *elapsed_nanos as nat,
            },
            Event::StatusFailed(reason) => EventView::StatusFailed(reason@),
            Event::Paused => EventView::Paused,
            Event::Stored => EventView::Stored,
        }
    }
}

/// What a conversion asks its owner to do.
#[derive(Debug)]
pub enum Action {
    /// Find out the size of the file.
    Stat,
    /// Ask the cache for a live object remembered for the path.
    Lookup,
    /// Read the whole file.
    Read,
    /// Upload these bytes under this name and content type.
    Submit { bytes: Vec<u8>, display_name: String, content_type: String },
    /// Fetch the current state of the object with this name.
    Fetch { name: String },
    /// Pause for this many milliseconds without spinning.
    Pause { millis: u64 },
    /// Remember this object in the cache for the path.
    Store { object: RemoteObjectRef },
    /// Hand this result to the caller: the conversion is over.
    Deliver(Result<FileResult, ConversionError>),
}

/// Mathematical value of an `Action`.
pub ghost enum ActionView {
    Stat,
    Lookup,
    Read,
    Submit { bytes: Seq<u8>, display_name: Seq<char>, content_type: Seq<char> },
    Fetch { name: Seq<char> },
    Pause { millis: nat },
    Store { object: RemoteObjectView },
    Deliver(Result<FileResultView, ErrorView>),
}

impl View for Action {
    type V = ActionView;

    open spec fn view(&self) -> ActionView {
        match self {
            Action::Stat => ActionView::Stat,
            Action::Lookup => ActionView::Lookup,
            Action::Read => ActionView::Read,
            Action::Submit { bytes, display_name, content_type } => ActionView::Submit {
                bytes: bytes@,
                display_name: display_name@,
                content_type: content_type@,
            },
            Action::Fetch { name } => ActionView::Fetch { name: name@ },
            Action::Pause { millis } => ActionView::Pause { millis: *millis as nat },
            Action::Store { object } => ActionView::Store { object: object@ },
            Action::Deliver(outcome) => ActionView::Deliver(outcome_view(*outcome)),
        }
    }
}

/// The conversion of one file into a request part.
#[derive(Debug)]
pub struct Conversion {
    pub path: LocalPath,
    /// Whether the file is to be uploaded rather than sent inline.
    pub upload: bool,
    pub phase: Phase,
}

/// Mathematical value of a `Conversion`.
pub ghost struct ConversionView {
    pub path: LocalPathView,
    pub upload: bool,
    pub phase: PhaseView,
}

impl View for Conversion {
    type V = ConversionView;

    open spec fn view(&self) -> ConversionView {
        ConversionView { path: self.path@, upload: self.upload, phase: self.phase@ }
    }
}

/// A step of the machine: the phase that follows and the action asked for.
pub ghost struct Step {
    pub phase: PhaseView,
    pub action: ActionView,
}

/// The step that ends a conversion with `outcome`.
pub open spec fn finish(outcome: Result<FileResultView, ErrorView>) -> Step {
    Step { phase: PhaseView::Finished, action: ActionView::Deliver(outcome) }
}

/// Whether `event` is one that a conversion in `phase` waits for.
pub open spec fn expected(phase: PhaseView, event: EventView) -> bool {
    match phase {
        PhaseView::AwaitingSize => event is Size || event is StatFailed,
        PhaseView::AwaitingCache => event is CacheAnswer,
        PhaseView::AwaitingContents => event is Contents || event is ReadFailed,
        PhaseView::AwaitingSubmission => event is Submitted || event is SubmitFailed,
        PhaseView::Polling { .. } => event is Status || event is StatusFailed,
        PhaseView::Pausing { .. } => event is Paused,
        PhaseView::Storing { .. } => event is Stored,
        PhaseView::Finished => false,
    }
}

/// After the size is known: a file over the inline ceiling is refused
/// unread unless it is to be uploaded; an upload asks the cache first; an
/// inline conversion reads the file.
pub open spec fn after_size(upload: bool, size: nat) -> Step {
    if size > MAX_INLINE_SIZE && !upload {
        finish(Err(ErrorView::PayloadTooLarge { size }))
    } else if upload {
        Step { phase: PhaseView::AwaitingCache, action: ActionView::Lookup }
    } else {
        Step { phase: PhaseView::AwaitingContents, action: ActionView::Read }
    }
}

/// After the cache has answered: a live object ends the conversion at once,
/// with no file read and nothing sent; otherwise the file is read.
pub open spec fn after_cache(answer: Option<RemoteObjectView>) -> Step {
    match answer {
        Some(object) => finish(Ok(FileResultView::UploadedFile(object))),
        None => Step { phase: PhaseView::AwaitingContents, action: ActionView::Read },
    }
}

/// After normalisation: a decode failure names the file; content of a type
/// outside the allow-list is refused; the rest is uploaded or encoded inline.
pub open spec fn after_normalization(
    path: LocalPathView,
    upload: bool,
    content: Option<NormalizedView>,
) -> Step {
    match content {
        None => finish(Err(ErrorView::MediaDecode { file: path.text })),
        Some(n) => if !is_supported(n.content_type) {
            finish(Err(ErrorView::UnsupportedType { content_type: n.content_type }))
        } else if upload {
            Step {
                phase: PhaseView::AwaitingSubmission,
                action: ActionView::Submit {
                    bytes: n.bytes,
                    display_name: display_name_of(path.file_name),
                    content_type: n.content_type,
                },
            }
        } else {
            finish(inlined(n))
        },
    }
}

/// After the file has been read: its type is guessed from the extension,
/// the content normalised, and the result dealt with as above.
pub open spec fn after_contents(path: LocalPathView, upload: bool, bytes: Seq<u8>) -> Step {
    after_normalization(path, upload, normalized(bytes, guessed_type(path.extension)))
}

/// After a status check of the object `name`: an active object is handed to
/// the cache, a failed one and a timeout end the conversion, and anything
/// else leads to a pause.
pub open spec fn after_status(name: Seq<char>, object: RemoteObjectView, elapsed: nat) -> Step {
    match verdict_for(object.state, elapsed as int) {
        PollVerdict::Ready => Step {
            phase: PhaseView::Storing { object },
            action: ActionView::Store { object },
        },
        PollVerdict::Failed => finish(Err(ErrorView::RemoteProcessingFailed)),
        PollVerdict::TimedOut => finish(Err(ErrorView::UploadTimeout)),
        PollVerdict::Retry => Step {
            phase: PhaseView::Pausing { name },
            action: ActionView::Pause { millis: POLL_INTERVAL_MILLIS as nat },
        },
    }
}

/// The step that a conversion takes on an event it waits for.
pub open spec fn next(conversion: ConversionView, event: EventView) -> Step
    recommends
        expected(conversion.phase, event),
{
    match event {
        EventView::Size(size) => after_size(conversion.upload, size),
        EventView::StatFailed(reason) => finish(Err(ErrorView::Io { reason })),
        EventView::CacheAnswer(answer) => after_cache(answer),
        EventView::Contents(bytes) => after_contents(conversion.path, conversion.upload, bytes),
        EventView::ReadFailed(reason) => finish(Err(ErrorView::Io { reason })),
        EventView::Submitted(object) => Step {
            phase: PhaseView::Polling { name: object.name },
            action: ActionView::Fetch { name: object.name },
        },
        EventView::SubmitFailed(reason) => finish(Err(ErrorView::UploadSubmit { reason })),
        EventView::Status { object, elapsed_nanos } => after_status(
            conversion.phase->Polling_name,
            object,
            elapsed_nanos,
        ),
        EventView::StatusFailed(reason) => finish(Err(ErrorView::StatusCheck { reason })),
        EventView::Paused => Step {
            phase: PhaseView::Polling { name: conversion.phase->Pausing_name },
            action: ActionView::Fetch { name: conversion.phase->Pausing_name },
        },
        EventView::Stored => finish(
            Ok(FileResultView::UploadedFile(conversion.phase->Storing_object)),
        ),
    }
}

/// The step after the size of the file has been found.
pub fn on_size(upload: bool, size: u64) -> (r: (Phase, Action))
    ensures
        r.0@ == after_size(upload, size as nat).phase,
        r.1@ == after_size(upload, size as nat).action,
{
    if size > MAX_INLINE_SIZE && !upload {
        (Phase::Finished, Action::Deliver(Err(ConversionError::PayloadTooLarge { size })))
    } else if upload {
        (Phase::AwaitingCache, Action::Lookup)
    } else {
        (Phase::AwaitingContents, Action::Read)
    }
}

/// The step after the cache has answered.
pub fn on_cache_answer(answer: Option<RemoteObjectRef>) -> (r: (Phase, Action))
    ensures
        r.0@ == after_cache(object_view(answer)).phase,
        r.1@ == after_cache(object_view(answer)).action,
{
    match answer {
        Some(object) => (Phase::Finished, Action::Deliver(Ok(FileResult::UploadedFile(object)))),
        None => (Phase::AwaitingContents, Action::Read),
    }
}

/// The answer to a `Lookup` at the time `now`, in nanoseconds since the
/// Unix epoch. A cache that cannot be reached, `None`, answers like an empty
/// one: the conversion then goes on to a fresh upload.
pub fn cache_answer_at(
    cache: Option<&RemoteObjectCache>,
    path: &LocalPath,
    now: i128,
) -> (event: Event)
    ensures
        event@ == EventView::CacheAnswer(
            match cache {
                Some(c) => live_entry(c@, path@.text, now as int),
                None => None,
            },
        ),
{
    match cache {
        Some(c) => Event::CacheAnswer(c.lookup(path.text.as_str(), now)),
        None => Event::CacheAnswer(None),
    }
}

/// The answer to a `Lookup` by the system clock.
pub fn cache_answer(cache: Option<&RemoteObjectCache>, path: &LocalPath) -> (event: Event)
    ensures
        match cache {
            Some(c) => exists|now: int|
                event@ == EventView::CacheAnswer(#[trigger] live_entry(c@, path@.text, now)),
            None => event@ == EventView::CacheAnswer(None),
        },
{
    match cache {
        Some(c) => {
            let answer = c.lookup_now(path.text.as_str());
            let event = Event::CacheAnswer(answer);
            proof {
                let now = choose|now: int|
                    object_view(answer) == #[trigger] live_entry(c@, path@.text, now);
                assert(event@ == EventView::CacheAnswer(live_entry(c@, path@.text, now)));
            }
            event
        },
        None => Event::CacheAnswer(None),
    }
}

/// View of the outcome of a normalisation.
pub open spec fn content_view(content: Result<Normalized, MediaDecodeError>) -> Option<
    NormalizedView,
> {
    match content {
        Ok(n) => Some(n@),
        Err(_) => None,
    }
}

/// The step after the content of the file at `path` has been normalised.
pub fn on_normalized(
    path: &LocalPath,
    upload: bool,
    content: Result<Normalized, MediaDecodeError>,
) -> (r: (Phase, Action))
    ensures
        r.0@ == after_normalization(path@, upload, content_view(content)).phase,
        r.1@ == after_normalization(path@, upload, content_view(content)).action,
{
    match content {
        Err(_) => (
            Phase::Finished,
            Action::Deliver(Err(ConversionError::MediaDecode { file: path.text.clone() })),
        ),
        Ok(n) => match validate(n.content_type.as_str()) {
            Err(e) => (Phase::Finished, Action::Deliver(Err(e))),
            Ok(_) => if upload {
                (
                    Phase::AwaitingSubmission,
                    Action::Submit {
                        bytes: n.bytes,
                        display_name: path.display_name(),
                        content_type: n.content_type,
                    },
                )
            } else {
                (Phase::Finished, Action::Deliver(inline_part(n)))
            },
        },
    }
}

/// The step after the file at `path` has been read.
pub fn on_contents(path: &LocalPath, upload: bool, bytes: Vec<u8>) -> (r: (Phase, Action))
    ensures
        r.0@ == after_contents(path@, upload, bytes@).phase,
        r.1@ == after_contents(path@, upload, bytes@).action,
{
    let guessed = path.guess_content_type();
    let content = normalize(bytes, guessed.as_str());
    on_normalized(path, upload, content)
}

/// The step after a status check of the object `name`.
pub fn on_status(name: String, object: RemoteObjectRef, elapsed_nanos: u128) -> (r: (Phase, Action))
    ensures
        r.0@ == after_status(name@, object@, elapsed_nanos as nat).phase,
        r.1@ == after_status(name@, object@, elapsed_nanos as nat).action,
{
    match poll_verdict(object.state, elapsed_nanos) {
        PollVerdict::Ready => {
            let kept = object.clone();
            (Phase::Storing { object: kept }, Action::Store { object })
        },
        PollVerdict::Failed => (
            Phase::Finished,
            Action::Deliver(Err(ConversionError::RemoteProcessingFailed)),
        ),
        PollVerdict::TimedOut => (
            Phase::Finished,
            Action::Deliver(Err(ConversionError::UploadTimeout)),
        ),
        PollVerdict::Retry => (
            Phase::Pausing { name },
            Action::Pause { millis: POLL_INTERVAL_MILLIS },
        ),
    }
}

impl Conversion {
    /// Starts the conversion of the file at `path`: the first thing to do is
    /// to find out its size.
    pub fn begin(path: LocalPath, upload: bool) -> (r: (Conversion, Action))
        ensures
            r.0@ == (ConversionView { path: path@, upload, phase: PhaseView::AwaitingSize }),
            r.1@ == ActionView::Stat,
    {
        (Conversion { path, upload, phase: Phase::AwaitingSize }, Action::Stat)
    }

    /// Whether the conversion has delivered its result.
    pub fn is_finished(&self) -> (r: bool)
        ensures
            r == (self@.phase is Finished),
    {
        match &self.phase {
            Phase::Finished => true,
            _ => false,
        }
    }

    /// Whether `event` is one that the conversion waits for.
    pub fn expects(&self, event: &Event) -> (r: bool)
        ensures
            r == expected(self@.phase, event@),
    {
        match &self.phase {
            Phase::AwaitingSize => match event {
                Event::Size(_) => true,
                Event::StatFailed(_) => true,
                _ => false,
            },
            Phase::AwaitingCache => match event {
                Event::CacheAnswer(_) => true,
                _ => false,
            },
            Phase::AwaitingContents => match event {
                Event::Contents(_) => true,
                Event::ReadFailed(_) => true,
                _ => false,
            },
            Phase::AwaitingSubmission => match event {
                Event::Submitted(_) => true,
                Event::SubmitFailed(_) => true,
                _ => false,
            },
            Phase::Polling { .. } => match event {
                Event::Status { .. } => true,
                Event::StatusFailed(_) => true,
                _ => false,
            },
            Phase::Pausing { .. } => match event {
                Event::Paused => true,
                _ => false,
            },
            Phase::Storing { .. } => match event {
                Event::Stored => true,
                _ => false,
            },
            Phase::Finished => false,
        }
    }

    /// Name of the object that is being polled or paused for.
    fn pending_name(&self) -> (name: String)
        requires
            self@.phase is Polling || self@.phase is Pausing,
        ensures
            self@.phase is Polling ==> name@ == self@.phase->Polling_name,
            self@.phase is Pausing ==> name@ == self@.phase->Pausing_name,
    {
        match &self.phase {
            Phase::Polling { name } => name.clone(),
            Phase::Pausing { name } => name.clone(),
            _ => unreached(),
        }
    }

    /// The object that is being handed to the cache.
    fn stored_object(&self) -> (object: RemoteObjectRef)
        requires
            self@.phase is Storing,
        ensures
            object@ == self@.phase->Storing_object,
    {
        match &self.phase {
            Phase::Storing { object } => object.clone(),
            _ => unreached(),
        }
    }

    /// Takes the step that `event` calls for and returns what to do next.
    /// The path and the mode of the conversion never change.
    pub fn step(&mut self, event: Event) -> (action: Action)
        requires
            expected(old(self)@.phase, event@),
        ensures
            final(self)@.path == old(self)@.path,
            final(self)@.upload == old(self)@.upload,
            final(self)@.phase == next(old(self)@, event@).phase,
            action@ == next(old(self)@, event@).action,
    {
        let (phase, action) = match event {
            Event::Size(size) => on_size(self.upload, size),
            Event::StatFailed(reason) => (
                Phase::Finished,
                Action::Deliver(Err(ConversionError::Io { reason })),
            ),
            Event::CacheAnswer(answer) => on_cache_answer(answer),
            Event::Contents(bytes) => on_contents(&self.path, self.upload, bytes),
            Event::ReadFailed(reason) => (
                Phase::Finished,
                Action::Deliver(Err(ConversionError::Io { reason })),
            ),
            Event::Submitted(object) => (
                Phase::Polling { name: object.name.clone() },
                Action::Fetch { name: object.name },
            ),
            Event::SubmitFailed(reason) => (
                Phase::Finished,
                Action::Deliver(Err(ConversionError::UploadSubmit { reason })),
            ),
            Event::Status { object, elapsed_nanos } => on_status(
                self.pending_name(),
                object,
                elapsed_nanos,
            ),
            Event::StatusFailed(reason) => (
                Phase::Finished,
                Action::Deliver(Err(ConversionError::StatusCheck { reason })),
            ),
            Event::Paused => {
                let name = self.pending_name();
                (Phase::Polling { name: name.clone() }, Action::Fetch { name })
            },
            Event::Stored => (
                Phase::Finished,
                Action::Deliver(Ok(FileResult::UploadedFile(self.stored_object()))),
            ),
        };
        self.phase = phase;
        action
    }
}

} // verus!
