//! The replay accumulator and the reporting facade.

use slippi_ext::queue::ProcessingEvent;
use slippi_ext::reporter::{GameReporter, StatusDispatch};
use slippi_ext::types::{GameReport, OnlinePlayMode};

fn bare_report(match_id: &str) -> GameReport {
    GameReport {
        match_id: match_id.to_string(),
        players: Vec::new(),
        stage_id: 2,
        online_mode: OnlinePlayMode::Direct,
        attempts: 0,
        replay_data: Vec::new(),
    }
}

#[test]
fn push_appends_and_new_match_marker_resets() {
    let mut reporter = GameReporter::new();
    reporter.push_replay_data(&[0x35, 1, 2]);
    reporter.push_replay_data(&[3, 4]);
    assert_eq!(reporter.replay_data, vec![0x35, 1, 2, 3, 4]);
    // A push whose first byte is the marker discards the buffer first.
    reporter.push_replay_data(&[0x35, 9]);
    assert_eq!(reporter.replay_data, vec![0x35, 9]);
    // A marker byte that is not first does not reset.
    reporter.push_replay_data(&[7, 0x35]);
    assert_eq!(reporter.replay_data, vec![0x35, 9, 7, 0x35]);
    // An empty push changes nothing.
    reporter.push_replay_data(&[]);
    assert_eq!(reporter.replay_data, vec![0x35, 9, 7, 0x35]);
}

#[test]
fn second_report_carries_only_post_reset_bytes() {
    let mut reporter = GameReporter::new();
    // First match streams in and is logged.
    reporter.push_replay_data(&[0x35, 10, 11]);
    reporter.push_replay_data(&[12]);
    let event = reporter.log_report(bare_report("m-1"));
    assert!(matches!(event, ProcessingEvent::ReportAvailable));
    // Second match begins with the marker, then more data, then its report.
    reporter.push_replay_data(&[0x35, 20]);
    reporter.push_replay_data(&[21, 22]);
    let _ = reporter.log_report(bare_report("m-2"));

    let first = &reporter.queue.reports[0];
    let second = &reporter.queue.reports[1];
    assert_eq!(first.match_id, "m-1");
    assert_eq!(first.replay_data, vec![0x35, 10, 11, 12]);
    assert_eq!(second.match_id, "m-2");
    // Only post-reset bytes; nothing of the first match leaks in.
    assert_eq!(second.replay_data, vec![0x35, 20, 21, 22]);
}

#[test]
fn logged_snapshot_is_frozen_against_later_pushes() {
    let mut reporter = GameReporter::new();
    reporter.push_replay_data(&[0x35, 1]);
    let _ = reporter.log_report(bare_report("m-1"));
    reporter.push_replay_data(&[2, 3]);
    // The attached snapshot still holds only what was accumulated when the
    // report was logged.
    assert_eq!(reporter.queue.reports[0].replay_data, vec![0x35, 1]);
    assert_eq!(reporter.replay_data, vec![0x35, 1, 2, 3]);
}

#[test]
fn background_status_ping_is_queued_as_an_event() {
    let reporter = GameReporter::new();
    let dispatch = reporter.report_match_status(
        "uid-1".to_string(),
        "key-1".to_string(),
        "match-1".to_string(),
        "COMPLETED".to_string(),
        true,
    );
    match dispatch {
        StatusDispatch::Queued { event } => match event {
            slippi_ext::status::StatusReportEvent::ReportAvailable {
                uid,
                play_key,
                match_id,
                status,
            } => {
                assert_eq!(uid, "uid-1");
                assert_eq!(play_key, "key-1");
                assert_eq!(match_id, "match-1");
                assert_eq!(status, "COMPLETED");
            },
            other => panic!("expected a ping event, got {other:?}"),
        },
        StatusDispatch::Direct { .. } => panic!("background delivery must be queued"),
    }
}
