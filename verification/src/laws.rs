//! What holds of the pipeline as a whole, proved from the definitions of
//! its parts.

use vstd::prelude::*;
use crate::cache::live_entry;
use crate::content_type::{
    is_application, is_downgraded, is_image, is_supported, is_text, supported_types,
};
use crate::convert::{
    after_contents, after_normalization, after_size, after_status, finish, next, ActionView,
    ConversionView, EventView, PhaseView, Step,
};
use crate::error::ErrorView;
use crate::media::{needs_reencoding, normalized, png_reencoding, sniffed_container, NormalizedView};
use crate::path::{display_name_of, guessed_type, LocalPathView};
use crate::payload::FileResultView;
use crate::remote::{expired_at, RemoteObjectView, RemoteState};

verus! {

/// An action that reaches the remote service.
pub open spec fn uses_network(action: ActionView) -> bool {
    action is Submit || action is Fetch
}

/// An action that reads the file.
pub open spec fn reads_file(action: ActionView) -> bool {
    action is Read
}

/// A conversion of the file at `path` in the given phase.
pub open spec fn conversion_in(path: LocalPathView, upload: bool, phase: PhaseView) -> ConversionView {
    ConversionView { path, upload, phase }
}

/// An upload that becomes active is remembered, and a later upload of the
/// same path finds it: once the cache holds the object and the object has
/// not expired, the conversion ends with that same object after asking the
/// cache, without reading the file and without reaching the service.
pub proof fn law_cached_upload_is_reused(
    cache: Map<Seq<char>, RemoteObjectView>,
    path: LocalPathView,
    name: Seq<char>,
    object: RemoteObjectView,
    elapsed: nat,
    size: nat,
    now: int,
)
    requires
        object.state == Some(RemoteState::Active),
        !expired_at(object.expiration, now),
    ensures
        ({
            let polled = next(
                conversion_in(path, true, PhaseView::Polling { name }),
                EventView::Status { object, elapsed_nanos: elapsed },
            );
            let first = next(conversion_in(path, true, polled.phase), EventView::Stored);
            let remembered = cache.insert(path.text, object);
            let asked = next(
                conversion_in(path, true, PhaseView::AwaitingSize),
                EventView::Size(size),
            );
            let second = next(
                conversion_in(path, true, asked.phase),
                EventView::CacheAnswer(live_entry(remembered, path.text, now)),
            );
            &&& polled.action == ActionView::Store { object }
            &&& first == finish(Ok(FileResultView::UploadedFile(object)))
            &&& asked.action == ActionView::Lookup
            &&& second == first
            &&& !uses_network(asked.action) && !reads_file(asked.action)
            &&& !uses_network(second.action) && !reads_file(second.action)
        }),
{
}

/// An entry that has expired is never found, and the conversion goes on to
/// read the file for a fresh upload.
pub proof fn law_expired_entry_is_not_reused(
    cache: Map<Seq<char>, RemoteObjectView>,
    path: LocalPathView,
    now: int,
)
    requires
        cache.dom().contains(path.text),
        expired_at(cache[path.text].expiration, now),
    ensures
        live_entry(cache, path.text, now) is None,
        next(
            conversion_in(path, true, PhaseView::AwaitingCache),
            EventView::CacheAnswer(live_entry(cache, path.text, now)),
        ) == (Step { phase: PhaseView::AwaitingContents, action: ActionView::Read }),
{
}

/// Content of a supported type that is to be uploaded is submitted under
/// the display name of the file, whatever the cache said before.
pub proof fn law_fresh_upload_is_submitted(path: LocalPathView, content: NormalizedView)
    requires
        is_supported(content.content_type),
    ensures
        after_normalization(path, true, Some(content)) == (Step {
            phase: PhaseView::AwaitingSubmission,
            action: ActionView::Submit {
                bytes: content.bytes,
                display_name: display_name_of(path.file_name),
                content_type: content.content_type,
            },
        }),
{
}

/// The inline ceiling is inclusive: a file of up to 20 MiB is read for
/// inline transmission, and one that is a single byte larger is refused
/// unread.
pub proof fn law_inline_ceiling(size: nat)
    ensures
        size <= 20 * 1024 * 1024 ==> after_size(false, size) == (Step {
            phase: PhaseView::AwaitingContents,
            action: ActionView::Read,
        }),
        size > 20 * 1024 * 1024 ==> after_size(false, size) == finish(
            Err(ErrorView::PayloadTooLarge { size }),
        ),
        after_size(true, size) == (Step { phase: PhaseView::AwaitingCache, action: ActionView::Lookup }),
{
}

/// The three categories that normalisation tells apart exclude one another.
pub proof fn law_categories_are_disjoint(content_type: Seq<char>)
    ensures
        !(is_image(content_type) && is_application(content_type)),
        !(is_image(content_type) && is_text(content_type)),
        !(is_application(content_type) && is_text(content_type)),
{
    reveal_strlit("image/");
    reveal_strlit("application/");
    reveal_strlit("text/");
    if is_image(content_type) {
        assert(content_type[0] == "image/"@[0]);
    }
    if is_application(content_type) {
        assert(content_type[0] == "application/"@[0]);
    }
    if is_text(content_type) {
        assert(content_type[0] == "text/"@[0]);
    }
}

/// A loosely typed textual format goes out with its bytes untouched and
/// declared as plain text, which the protocol accepts.
pub proof fn law_textual_types_become_plain_text(bytes: Seq<u8>, guessed: Seq<char>)
    requires
        is_downgraded(guessed),
    ensures
        normalized(bytes, guessed) == Some(
            NormalizedView { bytes, content_type: "text/plain"@ },
        ),
        is_supported("text/plain"@),
{
    law_categories_are_disjoint(guessed);
    assert(supported_types()[20] == "text/plain"@);
}

/// Content that is neither an image to be written anew nor a loosely typed
/// textual format goes out exactly as it came.
pub proof fn law_other_content_is_untouched(bytes: Seq<u8>, guessed: Seq<char>)
    requires
        !is_downgraded(guessed),
        !needs_reencoding(guessed, sniffed_container(bytes)),
    ensures
        normalized(bytes, guessed) == Some(NormalizedView { bytes, content_type: guessed }),
{
}

/// An image in a container that the protocol does not take is sent as the
/// PNG that the codec writes for it, under a type that the protocol
/// accepts; where the codec fails, the conversion fails.
pub proof fn law_foreign_images_become_png(path: LocalPathView, upload: bool, bytes: Seq<u8>)
    requires
        needs_reencoding(guessed_type(path.extension), sniffed_container(bytes)),
    ensures
        is_supported("image/png"@),
        match png_reencoding(bytes) {
            Some(png) => normalized(bytes, guessed_type(path.extension)) == Some(
                NormalizedView { bytes: png, content_type: "image/png"@ },
            ),
            None => after_contents(path, upload, bytes) == finish(
                Err(ErrorView::MediaDecode { file: path.text }),
            ),
        },
{
    assert(supported_types()[0] == "image/png"@);
}

/// Content of a type outside the allow-list ends the conversion with that
/// type named, whether or not upload was requested: nothing is submitted.
pub proof fn law_unsupported_type_is_refused(
    path: LocalPathView,
    upload: bool,
    content: NormalizedView,
)
    requires
        !is_supported(content.content_type),
    ensures
        after_normalization(path, upload, Some(content)) == finish(
            Err(ErrorView::UnsupportedType { content_type: content.content_type }),
        ),
        !uses_network(after_normalization(path, upload, Some(content)).action),
{
}

/// While an object is reported neither active nor failed, each status check
/// within the time allowed is followed by a pause of two seconds and then
/// by the next check of the same object; the first check after 300 seconds
/// ends the conversion with a timeout.
pub proof fn law_polling_pauses_until_timeout(
    path: LocalPathView,
    name: Seq<char>,
    object: RemoteObjectView,
    elapsed: nat,
)
    requires
        object.state != Some(RemoteState::Active),
        object.state != Some(RemoteState::Failed),
    ensures
        ({
            let checked = next(
                conversion_in(path, true, PhaseView::Polling { name }),
                EventView::Status { object, elapsed_nanos: elapsed },
            );
            let resumed = next(conversion_in(path, true, checked.phase), EventView::Paused);
            &&& elapsed <= 300_000_000_000 ==> checked == (Step {
                phase: PhaseView::Pausing { name },
                action: ActionView::Pause { millis: 2_000 },
            }) && resumed == (Step {
                phase: PhaseView::Polling { name },
                action: ActionView::Fetch { name },
            })
            &&& elapsed > 300_000_000_000 ==> checked == finish(Err(ErrorView::UploadTimeout))
        }),
{
}

/// A failure that the service reports ends the conversion at once, however
/// little time has passed.
pub proof fn law_remote_failure_is_final(name: Seq<char>, object: RemoteObjectView, elapsed: nat)
    requires
        object.state == Some(RemoteState::Failed),
    ensures
        after_status(name, object, elapsed) == finish(Err(ErrorView::RemoteProcessingFailed)),
{
}

/// A conversion for inline transmission never reaches the remote service
/// and never asks the cache.
pub proof fn law_inline_conversion_stays_local(conversion: ConversionView, event: EventView)
    requires
        !conversion.upload,
        event is Size || event is StatFailed || event is Contents || event is ReadFailed,
    ensures
        !uses_network(next(conversion, event).action),
        !(next(conversion, event).action is Lookup),
        !(next(conversion, event).action is Store),
{
}

/// A conversion that has delivered its result waits for nothing more.
pub proof fn law_delivery_ends_the_conversion(conversion: ConversionView, event: EventView)
    ensures
        next(conversion, event).action is Deliver <==> next(conversion, event).phase is Finished,
{
}

/// Whatever happens, only content of a type that the protocol accepts is
/// ever submitted or embedded, and content is submitted only where upload
/// was requested.
pub proof fn law_only_supported_content_leaves(conversion: ConversionView, event: EventView)
    ensures
        match next(conversion, event).action {
            ActionView::Submit { content_type, .. } => is_supported(content_type)
                && conversion.upload,
            ActionView::Deliver(Ok(FileResultView::InlinePart { content_type, .. })) => is_supported(
                content_type,
            ) && !conversion.upload,
            _ => true,
        },
{
}

/// The cache is written only when the service has reported an object
/// active, and what is written is the object as it was reported.
pub proof fn law_only_active_objects_are_stored(conversion: ConversionView, event: EventView)
    ensures
        match next(conversion, event).action {
            ActionView::Store { object } => event is Status && event->Status_object == object
                && object.state == Some(RemoteState::Active),
            _ => true,
        },
{
}

/// The object that is delivered at the end of an upload is the one that
/// was handed to the cache.
pub proof fn law_stored_object_is_delivered(
    path: LocalPathView,
    name: Seq<char>,
    object: RemoteObjectView,
    elapsed: nat,
)
    requires
        object.state == Some(RemoteState::Active),
    ensures
        ({
            let polled = next(
                conversion_in(path, true, PhaseView::Polling { name }),
                EventView::Status { object, elapsed_nanos: elapsed },
            );
            let ended = next(conversion_in(path, true, polled.phase), EventView::Stored);
            &&& polled.action == ActionView::Store { object }
            &&& ended == finish(Ok(FileResultView::UploadedFile(object)))
        }),
{
}

} // verus!
