use voice_listener::ConsentEvent;
use voice_listener::DictationAction;
use voice_listener::DictationEvent;
use voice_listener::DictationSession;
use voice_listener::FailureReason;
use voice_listener::IntentOutcome;
use voice_listener::KeywordListener;
use voice_listener::ListenerOutcome;
use voice_listener::ListenerState;
use voice_listener::RecordingGuard;
use voice_listener::ResultStore;
use voice_listener::consent_step;
use voice_listener::describe_keyword;
use voice_listener::run_consent_session;
use voice_listener::run_dictation_session;

fn finalized(intent: Option<&str>, understood: bool) -> ConsentEvent {
    ConsentEvent::Finalized {
        inference: Some(IntentOutcome { intent: intent.map(|s| s.to_string()), understood }),
    }
}

#[test]
fn consent_times_out_denied_when_nothing_finalizes() {
    let events = vec![
        ConsentEvent::NotFinalized,
        ConsentEvent::NotFinalized,
        ConsentEvent::ProcessFailed,
        ConsentEvent::NotFinalized,
    ];
    let report = run_consent_session(&events);
    assert_eq!(report.outcome, ListenerOutcome::Denied);
    assert_eq!(report.frames_read, 4);
    assert_eq!(report.device_stops, 1);
}

#[test]
fn consent_allow_on_frame_seven_stops_early() {
    let mut events: Vec<ConsentEvent> = (0..6).map(|_| ConsentEvent::NotFinalized).collect();
    events.push(finalized(Some("allow"), true));
    events.extend((0..5).map(|_| ConsentEvent::NotFinalized));
    let report = run_consent_session(&events);
    assert_eq!(report.outcome, ListenerOutcome::Allowed);
    assert_eq!(report.frames_read, 7);
    assert_eq!(report.device_stops, 1);
}

#[test]
fn consent_non_allow_intent_keeps_listening_to_timeout() {
    let events = vec![
        finalized(Some("deny"), true),
        finalized(Some("allow"), false),
        finalized(None, true),
        ConsentEvent::Finalized { inference: None },
    ];
    let report = run_consent_session(&events);
    assert_eq!(report.outcome, ListenerOutcome::Denied);
    assert_eq!(report.frames_read, 4);
    assert_eq!(report.device_stops, 1);
}

#[test]
fn consent_read_error_on_frame_two_fails_and_still_stops_device() {
    let events = vec![
        ConsentEvent::NotFinalized,
        ConsentEvent::ReadFailed,
        finalized(Some("allow"), true),
    ];
    let report = run_consent_session(&events);
    assert_eq!(report.outcome, ListenerOutcome::Failed(FailureReason::DeviceRead));
    assert_eq!(report.frames_read, 2);
    assert_eq!(report.device_stops, 1);
}

#[test]
fn consent_step_decides_single_events() {
    assert_eq!(consent_step(&finalized(Some("allow"), true)), Some(ListenerOutcome::Allowed));
    assert_eq!(consent_step(&finalized(Some("allow"), false)), None);
    assert_eq!(consent_step(&finalized(Some("deny"), true)), None);
    assert_eq!(consent_step(&finalized(None, true)), None);
    assert_eq!(consent_step(&ConsentEvent::Finalized { inference: None }), None);
    assert_eq!(consent_step(&ConsentEvent::NotFinalized), None);
    assert_eq!(consent_step(&ConsentEvent::ProcessFailed), None);
    assert_eq!(
        consent_step(&ConsentEvent::ReadFailed),
        Some(ListenerOutcome::Failed(FailureReason::DeviceRead))
    );
}

fn chunk(text: &str, is_endpoint: bool) -> DictationEvent {
    DictationEvent::Chunk { text: text.to_string(), is_endpoint }
}

#[test]
fn dictation_concatenates_chunks_and_flushes_at_endpoint() {
    let events = vec![chunk("hel", false), chunk("lo wor", false), chunk("ld", true)];
    let flush = Some("!".to_string());
    let report = run_dictation_session(&events, &flush);
    assert_eq!(report.outcome, ListenerOutcome::Transcript("hello world!".to_string()));
    assert_eq!(report.frames_read, 3);
    assert_eq!(report.device_stops, 1);
}

#[test]
fn dictation_timeout_returns_partial_text() {
    let events = vec![chunk("par", false), chunk("tial", false)];
    let report = run_dictation_session(&events, &None);
    assert_eq!(report.outcome, ListenerOutcome::Transcript("partial".to_string()));
    assert_eq!(report.frames_read, 2);
    assert_eq!(report.device_stops, 1);
}

#[test]
fn dictation_process_error_is_fatal_and_still_stops_device() {
    let events = vec![chunk("hel", false), DictationEvent::ProcessFailed, chunk("lo", true)];
    let report = run_dictation_session(&events, &Some("!".to_string()));
    assert_eq!(report.outcome, ListenerOutcome::Failed(FailureReason::Inference));
    assert_eq!(report.frames_read, 2);
    assert_eq!(report.device_stops, 1);
}

#[test]
fn dictation_ignores_frames_after_endpoint_and_survives_failed_flush() {
    let events = vec![chunk("done", true), chunk("late", false)];
    let report = run_dictation_session(&events, &None);
    assert_eq!(report.outcome, ListenerOutcome::Transcript("done".to_string()));
    assert_eq!(report.frames_read, 1);
    assert_eq!(report.device_stops, 1);
}

#[test]
fn dictation_read_error_fails_and_still_stops_device() {
    let events = vec![chunk("hel", false), DictationEvent::ReadFailed, chunk("lo", false)];
    let report = run_dictation_session(&events, &Some("!".to_string()));
    assert_eq!(report.outcome, ListenerOutcome::Failed(FailureReason::DeviceRead));
    assert_eq!(report.frames_read, 2);
    assert_eq!(report.device_stops, 1);
}

#[test]
fn dictation_session_steps_through_chunks_and_flush() {
    let mut session = DictationSession::new();
    assert_eq!(session.on_event(&chunk("hel", false)), DictationAction::Continue);
    assert_eq!(session.on_event(&chunk("lo wor", false)), DictationAction::Continue);
    assert_eq!(session.on_event(&chunk("ld", true)), DictationAction::Flush);
    let outcome = session.on_flush(&Some("!".to_string()));
    assert_eq!(outcome, ListenerOutcome::Transcript("hello world!".to_string()));
}

#[test]
fn dictation_session_timeout_yields_partial_transcript() {
    let mut session = DictationSession::new();
    assert_eq!(session.on_event(&chunk("par", false)), DictationAction::Continue);
    assert_eq!(session.on_event(&chunk("tial", false)), DictationAction::Continue);
    let outcome = session.on_timeout();
    assert_eq!(outcome, ListenerOutcome::Transcript("partial".to_string()));
}

#[test]
fn dictation_session_aborts_on_read_failure() {
    let mut session = DictationSession::new();
    assert_eq!(session.on_event(&chunk("par", false)), DictationAction::Continue);
    assert_eq!(
        session.on_event(&DictationEvent::ReadFailed),
        DictationAction::Abort(FailureReason::DeviceRead)
    );
    assert_eq!(
        session.into_failure(FailureReason::DeviceRead),
        ListenerOutcome::Failed(FailureReason::DeviceRead)
    );
}

#[test]
fn dictation_session_aborts_on_process_failure() {
    let mut session = DictationSession::new();
    assert_eq!(
        session.on_event(&DictationEvent::ProcessFailed),
        DictationAction::Abort(FailureReason::Inference)
    );
    assert_eq!(
        session.into_failure(FailureReason::Inference),
        ListenerOutcome::Failed(FailureReason::Inference)
    );
}

#[test]
fn result_store_is_most_recent_wins_and_consumed_on_read() {
    let mut store = ResultStore::new();
    store.store(describe_keyword(1));
    store.store(describe_keyword(0));
    assert_eq!(store.take(), Some("Keyword 0 detected".to_string()));
    assert_eq!(store.take(), None);
}

#[test]
fn keyword_listener_detections_overwrite_unread_slot() {
    let mut listener = KeywordListener::new();
    let spawned = listener.start();
    assert!(spawned);
    listener.on_ready();
    listener.on_frame(-1);
    assert_eq!(listener.poll(), None);
    listener.on_frame(1);
    listener.on_frame(0);
    assert_eq!(listener.poll(), Some("Keyword 0 detected".to_string()));
    assert_eq!(listener.poll(), None);
}

#[test]
fn keyword_listener_stop_then_start_keeps_one_thread() {
    let mut listener = KeywordListener::new();
    assert!(listener.start());
    listener.on_ready();
    assert_eq!(listener.active_threads, 1);
    listener.stop();
    assert!(!listener.should_continue());
    assert_eq!(listener.active_threads, 1);
    let spawned = listener.start();
    assert!(!spawned);
    assert!(listener.should_continue());
    assert_eq!(listener.active_threads, 1);
    assert_eq!(listener.state, ListenerState::Listening);
}

#[test]
fn keyword_listener_full_stop_releases_thread_and_allows_restart() {
    let mut listener = KeywordListener::new();
    assert!(listener.start());
    listener.on_ready();
    listener.stop();
    listener.on_thread_exit();
    assert_eq!(listener.state, ListenerState::Stopped);
    assert_eq!(listener.active_threads, 0);
    assert!(listener.start());
    assert_eq!(listener.state, ListenerState::Starting);
    assert_eq!(listener.active_threads, 1);
}

#[test]
fn keyword_listener_start_is_idempotent_while_listening() {
    let mut listener = KeywordListener::new();
    assert!(listener.start());
    listener.on_ready();
    assert!(!listener.start());
    assert_eq!(listener.active_threads, 1);
}

#[test]
fn keyword_listener_init_failure_is_observable_not_fatal() {
    let mut listener = KeywordListener::new();
    assert!(listener.start());
    listener.on_init_failure();
    assert!(listener.failed);
    assert_eq!(listener.state, ListenerState::Stopped);
    assert_eq!(listener.active_threads, 0);
    assert!(listener.start());
    assert!(!listener.failed);
}

#[test]
fn keyword_listener_read_failure_is_observable_not_fatal() {
    let mut listener = KeywordListener::new();
    assert!(listener.start());
    listener.on_ready();
    listener.on_read_failure();
    assert!(listener.failed);
    assert_eq!(listener.state, ListenerState::Stopped);
    assert_eq!(listener.active_threads, 0);
}

#[test]
fn keyword_listener_process_failure_is_observable_and_keeps_unread_detection() {
    let mut listener = KeywordListener::new();
    assert!(listener.start());
    listener.on_ready();
    listener.on_frame(2);
    listener.on_process_failure();
    assert!(listener.failed);
    assert_eq!(listener.state, ListenerState::Stopped);
    assert_eq!(listener.active_threads, 0);
    assert_eq!(listener.poll(), Some("Keyword 2 detected".to_string()));
}

#[test]
fn describe_keyword_renders_exact_descriptions() {
    assert_eq!(describe_keyword(0), "Keyword 0 detected");
    assert_eq!(describe_keyword(7), "Keyword 7 detected");
    assert_eq!(describe_keyword(12), "Keyword 12 detected");
    assert_eq!(describe_keyword(120), "Keyword 120 detected");
    assert_eq!(describe_keyword(i32::MAX), "Keyword 2147483647 detected");
}

#[test]
fn recording_guard_rejects_second_session_until_release() {
    let mut guard = RecordingGuard::new();
    assert!(guard.try_acquire());
    assert!(!guard.try_acquire());
    guard.release();
    assert!(guard.try_acquire());
}
