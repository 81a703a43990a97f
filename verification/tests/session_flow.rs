use rusty_musicbot::search::{
    parse_search_results, select_search_result, SelectionEvent, SelectionOutcome,
    SEARCH_RESULT_COUNT, SELECTION_TIMEOUT_SECS,
};
use rusty_musicbot::session::{
    EnsureAction, JoinOutcome, LeaveProcess, LeaveStep, SessionManager, TrackEndAction,
    LEAVE_RETRY_DELAY_SECS,
};
use rusty_musicbot::track::Track;

fn track(title: &str) -> Track {
    Track {
        title: Some(title.to_string()),
        source: title.to_string(),
        duration_secs: None,
        artist: None,
        source_url: None,
    }
}

#[test]
fn join_is_idempotent_per_room_and_ignores_the_new_channel() {
    let mut mgr = SessionManager::new();
    assert!(!mgr.has_session(7));

    match mgr.ensure_action(7, 100) {
        EnsureAction::Join(channel) => assert_eq!(channel, 100),
        EnsureAction::UseExisting => panic!("an absent room must join"),
    }
    assert!(matches!(mgr.complete_join(7, 100, true), JoinOutcome::Joined));
    assert!(mgr.has_session(7));

    // A later request naming another channel does not move the session.
    assert!(matches!(mgr.ensure_action(7, 999), EnsureAction::UseExisting));

    let session = mgr.take_session(7).expect("the session exists");
    assert_eq!(session.room, 7);
    assert_eq!(session.channel, 100);
    assert!(session.queue.is_empty());
    assert!(session.receive_muted);
    assert!(session.reactor_registered);
    mgr.put_session(session);
    assert!(mgr.has_session(7));
}

#[test]
fn failed_join_leaves_the_room_absent() {
    let mut mgr = SessionManager::new();
    assert!(matches!(
        mgr.complete_join(3, 42, false),
        JoinOutcome::JoinFailed
    ));
    assert!(!mgr.has_session(3));
}

#[test]
fn rooms_do_not_share_sessions() {
    let mut mgr = SessionManager::new();
    mgr.complete_join(1, 10, true);
    mgr.complete_join(2, 20, true);
    let one = mgr.take_session(1).unwrap();
    assert!(mgr.has_session(2));
    assert!(!mgr.has_session(1));
    mgr.put_session(one);
    assert_eq!(mgr.take_session(2).unwrap().channel, 20);
}

#[test]
fn leave_after_two_failures_takes_three_attempts_and_two_warnings() {
    let mut mgr = SessionManager::new();
    mgr.complete_join(9, 90, true);

    let mut leave = LeaveProcess::begin(9);
    match leave.on_disconnect_result(false) {
        LeaveStep::RetryAfterDelay(delay) => assert_eq!(delay, LEAVE_RETRY_DELAY_SECS),
        LeaveStep::Disconnected => panic!("the first attempt failed"),
    }
    assert!(matches!(
        leave.on_disconnect_result(false),
        LeaveStep::RetryAfterDelay(_)
    ));
    assert!(matches!(
        leave.on_disconnect_result(true),
        LeaveStep::Disconnected
    ));
    assert_eq!(leave.attempts, 3);
    assert_eq!(leave.warnings, 2);
    assert!(leave.done);

    // The room ends Absent: the session is dropped wholesale.
    mgr.take_session(9).expect("the session still existed");
    assert!(!mgr.has_session(9));
}

#[test]
fn leave_retry_delay_is_five_seconds() {
    assert_eq!(LEAVE_RETRY_DELAY_SECS, 5);
}

#[test]
fn track_end_leaves_only_a_drained_room() {
    let mut mgr = SessionManager::new();
    assert!(matches!(mgr.on_track_end(5), TrackEndAction::NoAction));

    mgr.complete_join(5, 50, true);
    assert!(matches!(mgr.on_track_end(5), TrackEndAction::Leave));

    let mut session = mgr.take_session(5).unwrap();
    session.queue.enqueue(track("still playing"));
    mgr.put_session(session);
    assert!(matches!(mgr.on_track_end(5), TrackEndAction::NoAction));

    let mut session = mgr.take_session(5).unwrap();
    session.queue.skip();
    mgr.put_session(session);
    assert!(matches!(mgr.on_track_end(5), TrackEndAction::Leave));
}

#[test]
fn search_results_pair_title_and_page_url() {
    let bytes = "{\"title\":\"First\",\"webpage_url\":\"https://w/1\"}\n{\"title\":\"No URL, skipped\"}\n{\"webpage_url\":\"https://w/3\"}\n{\"title\":\"Fourth\",\"webpage_url\":\"https://w/4\"}\n"
    .as_bytes();
    let results = parse_search_results(bytes);
    assert_eq!(results.len(), 2);
    assert_eq!(results[0].title, "First");
    assert_eq!(results[0].url, "https://w/1");
    assert_eq!(results[1].title, "Fourth");
    assert_eq!(results[1].url, "https://w/4");
}

#[test]
fn selection_plays_the_chosen_candidate() {
    let bytes = "{\"title\":\"First\",\"webpage_url\":\"https://w/1\"}\n{\"title\":\"Second\",\"webpage_url\":\"https://w/2\"}\n"
    .as_bytes();
    let results = parse_search_results(bytes);

    match select_search_result(&results, SelectionEvent::Chosen(1)) {
        SelectionOutcome::Play(url) => assert_eq!(url, "https://w/2"),
        _ => panic!("a valid choice plays"),
    }
    assert!(matches!(
        select_search_result(&results, SelectionEvent::Chosen(2)),
        SelectionOutcome::NoSuchChoice
    ));
    assert!(matches!(
        select_search_result(&results, SelectionEvent::TimedOut),
        SelectionOutcome::Abandoned
    ));
}

#[test]
fn search_asks_for_four_candidates_and_waits_a_minute() {
    assert_eq!(SEARCH_RESULT_COUNT, 4);
    assert_eq!(SELECTION_TIMEOUT_SECS, 60);
}
