//! The report queue's worker behaviour, driven with simulated delivery
//! outcomes.

use slippi_ext::queue::{AttemptOutcome, GameReporterQueue, ProcessingEvent, MAX_REPORT_ATTEMPTS};
use slippi_ext::types::{GameReport, OnlinePlayMode, PlayerReport};

fn sample_report(match_id: &str, mode: OnlinePlayMode) -> GameReport {
    GameReport {
        match_id: match_id.to_string(),
        players: vec![
            PlayerReport { uid: "alice".to_string(), slot: 0, character_id: 2, stocks_remaining: 3 },
            PlayerReport { uid: "bob".to_string(), slot: 1, character_id: 20, stocks_remaining: 0 },
        ],
        stage_id: 31,
        online_mode: mode,
        attempts: 0,
        replay_data: vec![0x35, 1, 2],
    }
}

fn body_text(body: &[u8]) -> String {
    String::from_utf8(body.to_vec()).expect("request bodies are UTF-8")
}

#[test]
fn successful_drain_processes_reports_in_insertion_order() {
    let mut queue = GameReporterQueue::new();
    queue.add_report(sample_report("m-1", OnlinePlayMode::Unranked));
    queue.add_report(sample_report("m-2", OnlinePlayMode::Unranked));
    queue.add_report(sample_report("m-3", OnlinePlayMode::Unranked));

    let mut seen = Vec::new();
    while !queue.reports.is_empty() {
        let body = queue.begin_attempt(ProcessingEvent::ReportAvailable);
        let text = body_text(&body);
        for id in ["m-1", "m-2", "m-3"] {
            if text.contains(&format!("\"matchId\":\"{id}\"")) {
                seen.push(id);
            }
        }
        let outcome = queue.finish_attempt(ProcessingEvent::ReportAvailable, true, None);
        assert!(matches!(outcome, AttemptOutcome::Delivered { upload: None }));
    }
    assert_eq!(seen, vec!["m-1", "m-2", "m-3"]);
}

#[test]
fn always_failing_report_is_attempted_exactly_max_attempts_then_dropped_once() {
    let mut queue = GameReporterQueue::new();
    queue.add_report(sample_report("m-fail", OnlinePlayMode::Unranked));
    queue.add_report(sample_report("m-next", OnlinePlayMode::Unranked));

    let mut attempts = 0;
    let mut drops = 0;
    loop {
        let body = queue.begin_attempt(ProcessingEvent::ReportAvailable);
        if !body_text(&body).contains("\"matchId\":\"m-fail\"") {
            break;
        }
        attempts += 1;
        // The attempt counter travels in the payload.
        assert!(body_text(&body).contains(&format!("\"attempts\":{attempts}")));
        match queue.finish_attempt(ProcessingEvent::ReportAvailable, false, None) {
            AttemptOutcome::Retained { sleep_ms } => {
                // Linear backoff: attempts x 100 ms.
                assert_eq!(sleep_ms, attempts as u64 * 100);
            },
            AttemptOutcome::Dropped { warn } => {
                drops += 1;
                assert!(!warn);
            },
            AttemptOutcome::Delivered { .. } => panic!("delivery was simulated as failing"),
        }
        if drops > 0 {
            break;
        }
    }
    assert_eq!(attempts, MAX_REPORT_ATTEMPTS);
    assert_eq!(drops, 1);
    // The next report is untouched at the front, with no attempts yet.
    assert_eq!(queue.reports.len(), 1);
    let body = queue.begin_attempt(ProcessingEvent::ReportAvailable);
    assert!(body_text(&body).contains("\"matchId\":\"m-next\""));
    assert!(body_text(&body).contains("\"attempts\":1"));
}

#[test]
fn ranked_exhaustion_warns_exactly_once_and_unranked_stays_silent() {
    for (mode, expect_warn) in [(OnlinePlayMode::Ranked, true), (OnlinePlayMode::Unranked, false)] {
        let mut queue = GameReporterQueue::new();
        queue.add_report(sample_report("m-r", mode));
        let mut warnings = 0;
        // Five consecutive simulated network failures.
        for _ in 0..MAX_REPORT_ATTEMPTS {
            let _body = queue.begin_attempt(ProcessingEvent::ReportAvailable);
            match queue.finish_attempt(ProcessingEvent::ReportAvailable, false, None) {
                AttemptOutcome::Dropped { warn } => {
                    if warn {
                        warnings += 1;
                    }
                },
                AttemptOutcome::Retained { .. } => {},
                AttemptOutcome::Delivered { .. } => panic!("delivery was simulated as failing"),
            }
        }
        // The report is dropped and the queue is empty either way.
        assert!(queue.reports.is_empty());
        assert_eq!(warnings, if expect_warn { 1 } else { 0 });
    }
}

#[test]
fn shutdown_pass_attempts_each_report_exactly_once() {
    let mut queue = GameReporterQueue::new();
    queue.add_report(sample_report("m-1", OnlinePlayMode::Unranked));
    queue.add_report(sample_report("m-2", OnlinePlayMode::Unranked));
    queue.add_report(sample_report("m-3", OnlinePlayMode::Unranked));

    let mut seen = Vec::new();
    while !queue.reports.is_empty() {
        let body = queue.begin_attempt(ProcessingEvent::Shutdown);
        let text = body_text(&body);
        for id in ["m-1", "m-2", "m-3"] {
            if text.contains(&format!("\"matchId\":\"{id}\"")) {
                seen.push(id);
            }
        }
        // During shutdown the cap is one, so a failure drops at once.
        assert!(text.contains("\"attempts\":1"));
        match queue.finish_attempt(ProcessingEvent::Shutdown, false, None) {
            AttemptOutcome::Dropped { warn } => assert!(!warn),
            other => panic!("a failed shutdown attempt must drop, got {other:?}"),
        }
    }
    // Each of the three was attempted exactly once, in insertion order, and
    // the worker can now terminate on the empty queue.
    assert_eq!(seen, vec!["m-1", "m-2", "m-3"]);
}

#[test]
fn delivered_report_hands_snapshot_and_url_to_the_uploader() {
    let mut queue = GameReporterQueue::new();
    let report = sample_report("m-up", OnlinePlayMode::Ranked);
    let snapshot = report.replay_data.clone();
    queue.add_report(report);
    let _body = queue.begin_attempt(ProcessingEvent::ReportAvailable);
    let outcome = queue.finish_attempt(
        ProcessingEvent::ReportAvailable,
        true,
        Some("https://upload.example/abc".to_string()),
    );
    match outcome {
        AttemptOutcome::Delivered { upload: Some((bytes, url)) } => {
            assert_eq!(bytes, snapshot);
            assert_eq!(url, "https://upload.example/abc");
        },
        other => panic!("expected a delivery with an upload, got {other:?}"),
    }
    assert!(queue.reports.is_empty());
}

#[test]
fn report_payload_merges_cached_iso_hash_when_available() {
    let mut queue = GameReporterQueue::new();
    queue.add_report(sample_report("m-h", OnlinePlayMode::Unranked));
    let body = queue.begin_attempt(ProcessingEvent::ReportAvailable);
    assert!(body_text(&body).contains("\"isoHash\":null"));
    let _ = queue.finish_attempt(ProcessingEvent::ReportAvailable, false, None);

    queue.set_iso_check_state(slippi_ext::iso_check::IsoMd5CheckState::Complete(
        slippi_ext::iso_check::IsoMd5CheckResult::SafeIso { hash: "cafe".to_string() },
    ));
    let body = queue.begin_attempt(ProcessingEvent::ReportAvailable);
    assert!(body_text(&body).contains("\"isoHash\":\"cafe\""));
}
