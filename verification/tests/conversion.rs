use attachment_pipeline::cache::RemoteObjectCache;
use attachment_pipeline::convert::{
    on_cache_answer, on_contents, on_normalized, on_size, on_status, Action, Conversion, Event, Phase,
};
use attachment_pipeline::error::ConversionError;
use attachment_pipeline::media::{MediaDecodeError, Normalized};
use attachment_pipeline::path::LocalPath;
use attachment_pipeline::payload::{
    can_encode, inline_part, inline_payload, FileResult, MAX_INLINE_SIZE,
};
use attachment_pipeline::remote::{RemoteObjectRef, RemoteState};
use attachment_pipeline::upload::{
    poll_verdict, PollVerdict, POLL_INTERVAL_MILLIS, UPLOAD_TIMEOUT_NANOS,
};

const SECOND: u128 = 1_000_000_000;

fn object(name: &str, state: Option<RemoteState>, expiration: Option<i128>) -> RemoteObjectRef {
    RemoteObjectRef {
        name: name.to_string(),
        uri: Some(format!("https://files.example/{name}")),
        mime_type: None,
        expiration,
        state,
    }
}

fn path(text: &str) -> LocalPath {
    LocalPath::from_text(text.to_string())
}

fn delivered(action: Action) -> Result<FileResult, ConversionError> {
    match action {
        Action::Deliver(outcome) => outcome,
        other => panic!("not delivered: {other:?}"),
    }
}

/// Runs an upload against a service that reports `state` at every check, on
/// a clock that advances by `latency` for each check and by the pause for
/// each pause. Returns the outcome with the numbers of checks and pauses.
fn run_upload(
    conversion: &mut Conversion,
    first: Action,
    state: Option<RemoteState>,
    latency: u128,
) -> (Result<FileResult, ConversionError>, u32, u32) {
    let mut action = first;
    let mut clock: u128 = 0;
    let mut checks = 0;
    let mut pauses = 0;
    loop {
        let event = match action {
            Action::Fetch { name } => {
                checks += 1;
                clock += latency;
                Event::Status { object: object(&name, state, None), elapsed_nanos: clock }
            }
            Action::Pause { millis } => {
                pauses += 1;
                clock += millis as u128 * 1_000_000;
                Event::Paused
            }
            Action::Store { .. } => Event::Stored,
            Action::Deliver(outcome) => return (outcome, checks, pauses),
            other => panic!("unexpected: {other:?}"),
        };
        assert!(conversion.expects(&event));
        action = conversion.step(event);
    }
}

#[test]
fn constants_of_the_contract() {
    assert_eq!(MAX_INLINE_SIZE, 20 * 1024 * 1024);
    assert_eq!(UPLOAD_TIMEOUT_NANOS, 300 * SECOND);
    assert_eq!(POLL_INTERVAL_MILLIS, 2_000);
}

#[test]
fn conversion_begins_by_asking_for_the_size() {
    let (c, action) = Conversion::begin(path("a.txt"), false);
    assert!(matches!(action, Action::Stat));
    assert!(matches!(c.phase, Phase::AwaitingSize));
    assert!(!c.upload);
    assert_eq!(c.path.text, "a.txt");
    assert!(!c.is_finished());
}

#[test]
fn file_of_exactly_the_ceiling_is_sent_inline() {
    let (mut c, _) = Conversion::begin(path("big.txt"), false);
    let action = c.step(Event::Size(MAX_INLINE_SIZE));
    assert!(matches!(action, Action::Read));
    let bytes = vec![b'a'; MAX_INLINE_SIZE as usize];
    match delivered(c.step(Event::Contents(bytes))) {
        Ok(FileResult::InlinePart(p)) => {
            assert_eq!(p.content_type, "text/plain");
            assert_eq!(p.data.len(), 27_962_028);
            assert!(p.data.starts_with("YWFh"));
        }
        other => panic!("unexpected: {other:?}"),
    }
    assert!(c.is_finished());
}

#[test]
fn file_one_byte_over_the_ceiling_is_refused_unread() {
    let (mut c, _) = Conversion::begin(path("big.txt"), false);
    match delivered(c.step(Event::Size(MAX_INLINE_SIZE + 1))) {
        Err(ConversionError::PayloadTooLarge { size }) => assert_eq!(size, 20_971_521),
        other => panic!("unexpected: {other:?}"),
    }
    assert!(c.is_finished());
}

#[test]
fn large_file_is_accepted_for_upload() {
    let (mut c, _) = Conversion::begin(path("big.mp4"), true);
    assert!(matches!(c.step(Event::Size(u64::MAX)), Action::Lookup));
    assert!(matches!(c.phase, Phase::AwaitingCache));
}

#[test]
fn on_size_decides_by_mode_and_ceiling() {
    assert!(matches!(on_size(false, 0), (Phase::AwaitingContents, Action::Read)));
    assert!(matches!(on_size(false, MAX_INLINE_SIZE), (Phase::AwaitingContents, Action::Read)));
    assert!(matches!(
        on_size(false, MAX_INLINE_SIZE + 1),
        (Phase::Finished, Action::Deliver(Err(ConversionError::PayloadTooLarge { size: 20_971_521 })))
    ));
    assert!(matches!(on_size(true, 0), (Phase::AwaitingCache, Action::Lookup)));
    assert!(matches!(on_size(true, MAX_INLINE_SIZE + 1), (Phase::AwaitingCache, Action::Lookup)));
}

#[test]
fn inline_text_is_base64_encoded() {
    let (mut c, _) = Conversion::begin(path("hello.txt"), false);
    assert!(matches!(c.step(Event::Size(5)), Action::Read));
    match delivered(c.step(Event::Contents(b"hello".to_vec()))) {
        Ok(FileResult::InlinePart(p)) => {
            assert_eq!(p.content_type, "text/plain");
            assert_eq!(p.data, "aGVsbG8=");
        }
        other => panic!("unexpected: {other:?}"),
    }
}

#[test]
fn inline_part_encodes_with_padding() {
    let cases: [(&[u8], &str); 5] =
        [(b"", ""), (b"f", "Zg=="), (b"fo", "Zm8="), (b"foo", "Zm9v"), (&[0xfb, 0xff], "+/8=")];
    for (bytes, text) in cases {
        let content = Normalized { bytes: bytes.to_vec(), content_type: "text/plain".to_string() };
        match inline_part(content) {
            Ok(FileResult::InlinePart(p)) => assert_eq!(p.data, text),
            other => panic!("unexpected: {other:?}"),
        }
    }
}

#[test]
fn encodable_lengths() {
    assert!(can_encode(0));
    assert!(can_encode(MAX_INLINE_SIZE as usize));
    assert!(can_encode(usize::MAX / 4 * 3 - 3));
    assert!(!can_encode(usize::MAX / 4 * 3 + 3));
    assert!(!can_encode(usize::MAX));
}

#[test]
fn inline_payload_pairs_type_and_data() {
    match inline_payload("image/png".to_string(), "AAAA".to_string()) {
        FileResult::InlinePart(p) => {
            assert_eq!(p.content_type, "image/png");
            assert_eq!(p.data, "AAAA");
        }
        other => panic!("unexpected: {other:?}"),
    }
}

#[test]
fn xml_config_is_sent_as_plain_text() {
    let (mut c, _) = Conversion::begin(path("web.config"), false);
    c.step(Event::Size(4));
    match delivered(c.step(Event::Contents(b"<a/>".to_vec()))) {
        Ok(FileResult::InlinePart(p)) => {
            assert_eq!(p.content_type, "text/plain");
            assert_eq!(p.data, "PGEvPg==");
        }
        other => panic!("unexpected: {other:?}"),
    }
}

#[test]
fn zip_archive_goes_out_as_plain_text() {
    let (phase, action) = on_contents(&path("a.zip"), false, b"PK".to_vec());
    assert!(matches!(phase, Phase::Finished));
    match delivered(action) {
        Ok(FileResult::InlinePart(p)) => assert_eq!(p.content_type, "text/plain"),
        other => panic!("unexpected: {other:?}"),
    }
}

#[test]
fn unsupported_type_is_refused_before_any_upload() {
    for upload in [false, true] {
        let (phase, action) = on_contents(&path("song.mp3"), upload, vec![1, 2, 3]);
        assert!(matches!(phase, Phase::Finished));
        match delivered(action) {
            Err(ConversionError::UnsupportedType { content_type }) => {
                assert_eq!(content_type, "audio/mpeg")
            }
            other => panic!("unexpected: {other:?}"),
        }
    }
}

#[test]
fn zip_content_type_is_refused_after_normalisation() {
    let content = Normalized { bytes: vec![1], content_type: "application/zip".to_string() };
    let (phase, action) = on_normalized(&path("a.zip"), true, Ok(content));
    assert!(matches!(phase, Phase::Finished));
    assert!(matches!(
        delivered(action),
        Err(ConversionError::UnsupportedType { content_type }) if content_type == "application/zip"
    ));
}

#[test]
fn decode_failure_names_the_file() {
    let (phase, action) = on_normalized(&path("pics/a.bmp"), false, Err(MediaDecodeError));
    assert!(matches!(phase, Phase::Finished));
    assert!(matches!(
        delivered(action),
        Err(ConversionError::MediaDecode { file }) if file == "pics/a.bmp"
    ));
    let (mut c, _) = Conversion::begin(path("pics/broken.bmp"), true);
    c.step(Event::Size(6));
    c.step(Event::CacheAnswer(None));
    assert!(matches!(
        delivered(c.step(Event::Contents(b"BMxxxx".to_vec()))),
        Err(ConversionError::MediaDecode { file }) if file == "pics/broken.bmp"
    ));
}

#[test]
fn stat_and_read_failures_end_the_conversion() {
    let (mut c, _) = Conversion::begin(path("gone.txt"), false);
    assert!(matches!(
        delivered(c.step(Event::StatFailed("No such file".to_string()))),
        Err(ConversionError::Io { reason }) if reason == "No such file"
    ));
    assert!(c.is_finished());
    let (mut d, _) = Conversion::begin(path("locked.txt"), false);
    d.step(Event::Size(1));
    assert!(matches!(
        delivered(d.step(Event::ReadFailed("Permission denied".to_string()))),
        Err(ConversionError::Io { reason }) if reason == "Permission denied"
    ));
    assert!(d.is_finished());
}

#[test]
fn upload_submits_normalised_content_under_the_file_name() {
    let (mut c, _) = Conversion::begin(path("docs/notes.html"), true);
    assert!(matches!(c.step(Event::Size(3)), Action::Lookup));
    assert!(matches!(c.step(Event::CacheAnswer(None)), Action::Read));
    match c.step(Event::Contents(b"<p>".to_vec())) {
        Action::Submit { bytes, display_name, content_type } => {
            assert_eq!(bytes, b"<p>");
            assert_eq!(display_name, "notes.html");
            assert_eq!(content_type, "text/plain");
        }
        other => panic!("unexpected: {other:?}"),
    }
    assert!(matches!(c.phase, Phase::AwaitingSubmission));
    match c.step(Event::Submitted(object("files/abc", Some(RemoteState::Processing), None))) {
        Action::Fetch { name } => assert_eq!(name, "files/abc"),
        other => panic!("unexpected: {other:?}"),
    }
    assert!(matches!(&c.phase, Phase::Polling { name } if name == "files/abc"));
}

#[test]
fn upload_without_a_file_name_uses_the_fixed_name() {
    let nameless = LocalPath { text: "..".to_string(), file_name: None, extension: Some("txt".to_string()) };
    match on_contents(&nameless, true, vec![b'x']).1 {
        Action::Submit { display_name, .. } => assert_eq!(display_name, "uploaded_file"),
        other => panic!("unexpected: {other:?}"),
    }
}

#[test]
fn submit_failure_ends_the_conversion() {
    let (mut c, _) = Conversion::begin(path("a.txt"), true);
    c.step(Event::Size(1));
    c.step(Event::CacheAnswer(None));
    c.step(Event::Contents(vec![b'x']));
    assert!(matches!(
        delivered(c.step(Event::SubmitFailed("quota exceeded".to_string()))),
        Err(ConversionError::UploadSubmit { reason }) if reason == "quota exceeded"
    ));
    assert!(c.is_finished());
}

#[test]
fn active_object_is_stored_and_then_delivered() {
    let (mut c, _) = Conversion::begin(path("a.txt"), true);
    c.step(Event::Size(1));
    c.step(Event::CacheAnswer(None));
    c.step(Event::Contents(vec![b'x']));
    c.step(Event::Submitted(object("files/abc", None, None)));
    let fresh = object("files/abc", Some(RemoteState::Active), Some(77));
    match c.step(Event::Status { object: fresh, elapsed_nanos: 400 * SECOND }) {
        Action::Store { object } => {
            assert_eq!(object.name, "files/abc");
            assert_eq!(object.expiration, Some(77));
            assert_eq!(object.state, Some(RemoteState::Active));
        }
        other => panic!("unexpected: {other:?}"),
    }
    assert!(!c.is_finished());
    match delivered(c.step(Event::Stored)) {
        Ok(FileResult::UploadedFile(object)) => {
            assert_eq!(object.name, "files/abc");
            assert_eq!(object.expiration, Some(77));
            assert_eq!(object.uri.as_deref(), Some("https://files.example/files/abc"));
        }
        other => panic!("unexpected: {other:?}"),
    }
    assert!(c.is_finished());
}

#[test]
fn remote_failure_ends_the_conversion_without_retry() {
    let (mut c, first) = {
        let (mut c, _) = Conversion::begin(path("a.txt"), true);
        c.step(Event::Size(1));
        c.step(Event::CacheAnswer(None));
        c.step(Event::Contents(vec![b'x']));
        let first = c.step(Event::Submitted(object("files/abc", None, None)));
        (c, first)
    };
    let (outcome, checks, pauses) = run_upload(&mut c, first, Some(RemoteState::Failed), 0);
    assert!(matches!(outcome, Err(ConversionError::RemoteProcessingFailed)));
    assert_eq!((checks, pauses), (1, 0));
}

#[test]
fn status_check_failure_is_fatal() {
    let (mut c, _) = Conversion::begin(path("a.txt"), true);
    c.step(Event::Size(1));
    c.step(Event::CacheAnswer(None));
    c.step(Event::Contents(vec![b'x']));
    c.step(Event::Submitted(object("files/abc", None, None)));
    assert!(matches!(
        delivered(c.step(Event::StatusFailed("connection reset".to_string()))),
        Err(ConversionError::StatusCheck { reason }) if reason == "connection reset"
    ));
    assert!(c.is_finished());
}

#[test]
fn object_stuck_in_processing_times_out_after_150_pauses() {
    let (mut c, _) = Conversion::begin(path("a.txt"), true);
    c.step(Event::Size(1));
    c.step(Event::CacheAnswer(None));
    c.step(Event::Contents(vec![b'x']));
    let first = c.step(Event::Submitted(object("files/abc", None, None)));
    let (outcome, checks, pauses) = run_upload(&mut c, first, Some(RemoteState::Processing), 1);
    assert!(matches!(outcome, Err(ConversionError::UploadTimeout)));
    assert_eq!(pauses, 150);
    assert_eq!(checks, 151);
    assert!(c.is_finished());
}

#[test]
fn timeout_is_strictly_after_the_ceiling() {
    let (mut c, _) = Conversion::begin(path("a.txt"), true);
    c.step(Event::Size(1));
    c.step(Event::CacheAnswer(None));
    c.step(Event::Contents(vec![b'x']));
    let first = c.step(Event::Submitted(object("files/abc", None, None)));
    let (outcome, checks, pauses) = run_upload(&mut c, first, None, 0);
    assert!(matches!(outcome, Err(ConversionError::UploadTimeout)));
    assert_eq!(pauses, 151);
    assert_eq!(checks, 152);
}

#[test]
fn every_unfinished_state_is_polled_again() {
    for state in [
        None,
        Some(RemoteState::Unspecified),
        Some(RemoteState::Processing),
        Some(RemoteState::Other),
    ] {
        assert_eq!(poll_verdict(state, 0), PollVerdict::Retry);
        assert_eq!(poll_verdict(state, UPLOAD_TIMEOUT_NANOS), PollVerdict::Retry);
        assert_eq!(poll_verdict(state, UPLOAD_TIMEOUT_NANOS + 1), PollVerdict::TimedOut);
        assert_eq!(poll_verdict(state, u128::MAX), PollVerdict::TimedOut);
    }
    assert_eq!(poll_verdict(Some(RemoteState::Active), u128::MAX), PollVerdict::Ready);
    assert_eq!(poll_verdict(Some(RemoteState::Failed), 0), PollVerdict::Failed);
}

#[test]
fn on_status_pauses_for_two_seconds() {
    let (phase, action) =
        on_status("files/abc".to_string(), object("files/abc", Some(RemoteState::Processing), None), 5);
    assert!(matches!(&phase, Phase::Pausing { name } if name == "files/abc"));
    assert!(matches!(action, Action::Pause { millis: 2_000 }));
    let mut c = Conversion { path: path("a.txt"), upload: true, phase };
    match c.step(Event::Paused) {
        Action::Fetch { name } => assert_eq!(name, "files/abc"),
        other => panic!("unexpected: {other:?}"),
    }
    assert!(matches!(&c.phase, Phase::Polling { name } if name == "files/abc"));
}

#[test]
fn cache_hit_short_circuits_the_pipeline() {
    let (phase, action) = on_cache_answer(Some(object("files/abc", Some(RemoteState::Active), None)));
    assert!(matches!(phase, Phase::Finished));
    match delivered(action) {
        Ok(FileResult::UploadedFile(o)) => assert_eq!(o.name, "files/abc"),
        other => panic!("unexpected: {other:?}"),
    }
    assert!(matches!(on_cache_answer(None), (Phase::AwaitingContents, Action::Read)));
}

#[test]
fn second_upload_of_a_cached_path_needs_no_network() {
    let mut cache = RemoteObjectCache::new();
    let now: i128 = 1_000;

    let (mut first, _) = Conversion::begin(path("docs/a.txt"), true);
    assert!(matches!(first.step(Event::Size(1)), Action::Lookup));
    let answer = cache.lookup(&first.path.text, now);
    assert!(answer.is_none());
    assert!(matches!(first.step(Event::CacheAnswer(answer)), Action::Read));
    assert!(matches!(first.step(Event::Contents(vec![b'x'])), Action::Submit { .. }));
    first.step(Event::Submitted(object("files/abc", Some(RemoteState::Processing), None)));
    let fresh = object("files/abc", Some(RemoteState::Active), Some(2_000));
    match first.step(Event::Status { object: fresh, elapsed_nanos: SECOND }) {
        Action::Store { object } => cache.insert(&first.path.text, object),
        other => panic!("unexpected: {other:?}"),
    }
    let first_result = delivered(first.step(Event::Stored)).unwrap();

    let (mut second, start) = Conversion::begin(path("docs/a.txt"), true);
    let mut actions = vec![start];
    actions.push(second.step(Event::Size(1)));
    let answer = cache.lookup(&second.path.text, now);
    actions.push(second.step(Event::CacheAnswer(answer)));
    assert!(second.is_finished());
    assert!(matches!(actions[0], Action::Stat));
    assert!(matches!(actions[1], Action::Lookup));
    let second_result = delivered(actions.pop().unwrap()).unwrap();
    match (first_result, second_result) {
        (FileResult::UploadedFile(a), FileResult::UploadedFile(b)) => {
            assert_eq!(a.name, b.name);
            assert_eq!(a.uri, b.uri);
            assert_eq!(a.expiration, b.expiration);
            assert_eq!(a.state, b.state);
        }
        other => panic!("unexpected: {other:?}"),
    }
}

#[test]
fn expired_cache_entry_leads_to_a_fresh_upload() {
    let mut cache = RemoteObjectCache::new();
    cache.insert("docs/a.txt", object("files/old", Some(RemoteState::Active), Some(500)));
    let (mut c, _) = Conversion::begin(path("docs/a.txt"), true);
    c.step(Event::Size(1));
    let answer = cache.lookup(&c.path.text, 501);
    assert!(answer.is_none());
    assert!(matches!(c.step(Event::CacheAnswer(answer)), Action::Read));
    assert!(matches!(c.step(Event::Contents(vec![b'x'])), Action::Submit { .. }));
}

#[test]
fn inline_conversion_never_asks_the_cache() {
    let (mut c, _) = Conversion::begin(path("a.txt"), false);
    assert!(matches!(c.step(Event::Size(1)), Action::Read));
    assert!(matches!(c.step(Event::Contents(vec![b'x'])), Action::Deliver(Ok(_))));
}

#[test]
fn expects_tells_the_events_of_each_phase() {
    let (c, _) = Conversion::begin(path("a.txt"), true);
    assert!(c.expects(&Event::Size(0)));
    assert!(c.expects(&Event::StatFailed(String::new())));
    assert!(!c.expects(&Event::Contents(vec![])));
    assert!(!c.expects(&Event::Paused));
    let polling = Conversion { path: path("a.txt"), upload: true, phase: Phase::Polling { name: "n".to_string() } };
    assert!(polling.expects(&Event::StatusFailed(String::new())));
    assert!(polling.expects(&Event::Status { object: object("n", None, None), elapsed_nanos: 0 }));
    assert!(!polling.expects(&Event::Paused));
    assert!(!polling.expects(&Event::Stored));
    let done = Conversion { path: path("a.txt"), upload: true, phase: Phase::Finished };
    assert!(!done.expects(&Event::Size(0)));
    assert!(!done.expects(&Event::Stored));
    assert!(done.is_finished());
}
