//! The FIFO queue of pending game reports and the state machine of the
//! worker that drains it.
//!
//! Any thread may append a report; a single worker pops strictly from the
//! front. One delivery attempt is split in two verified steps around the
//! network exchange, which the caller performs: `begin_attempt` bumps the
//! attempt counter of the front report and renders the exact request body;
//! `finish_attempt` takes the outcome of the exchange and decides whether
//! the report is delivered, retried after a linear backoff, or dropped with
//! an optional user-visible warning.

use vstd::prelude::*;
use vstd::string::StringSliceAdditionalSpecFns;
use std::collections::VecDeque;
use crate::iso_check::{spec_iso_hash, IsoMd5CheckState};
use crate::jsonenc::{build_graphql_request_body, spec_request_body};
use crate::types::{build_report_variables, spec_report_variables, GameReport, OnlinePlayMode};

verus! {

/// How many times a report may be attempted before it is dropped.
pub const MAX_REPORT_ATTEMPTS: u32 = 5;

/// Events dispatched to the report-processing worker.
#[derive(Clone, Copy, Debug, PartialEq, Eq, Structural)]
pub enum ProcessingEvent {
    ReportAvailable,
    Shutdown,
}

/// The attempt cap in force for an event: a shutdown pass grants each
/// remaining report exactly one more attempt.
pub open spec fn spec_max_attempts(event: ProcessingEvent) -> u32 {
    match event {
        ProcessingEvent::Shutdown => 1,
        _ => MAX_REPORT_ATTEMPTS,
    }
}

/// Exec mirror of `spec_max_attempts`.
pub fn max_attempts_for(event: ProcessingEvent) -> (r: u32)
    ensures
        r == spec_max_attempts(event),
{
    match event {
        ProcessingEvent::Shutdown => 1,
        _ => MAX_REPORT_ATTEMPTS,
    }
}

/// `r` after one more delivery attempt has been started.
pub open spec fn spec_bump(r: GameReport) -> GameReport {
    GameReport { attempts: (r.attempts + 1) as u32, ..r }
}

/// `r` with its attempt counter set to `a`.
pub open spec fn spec_with_attempts(r: GameReport, a: u32) -> GameReport {
    GameReport { attempts: a, ..r }
}

/// The GraphQL text of the report mutation.
pub open spec fn spec_report_mutation() -> Seq<u8> {
    ("mutation ($report: OnlineGameReportInput!) { reportOnlineGame (report: $report) { success uploadUrl } }").spec_bytes()
}

/// The full HTTP body of one report delivery attempt.
pub open spec fn spec_report_request(r: GameReport, iso: Option<Seq<char>>) -> Seq<u8> {
    spec_request_body(spec_report_mutation(), Some(spec_report_variables(r, iso)))
}

/// What `finish_attempt` decides for the report at the front of the queue.
#[derive(Clone, Debug)]
pub enum AttemptOutcome {
    /// The report was acknowledged and popped; when the service granted an
    /// upload destination, the frozen replay snapshot and that destination
    /// are handed over for the best-effort upload.
    Delivered { upload: Option<(Vec<u8>, String)> },
    /// The attempt failed but attempts remain: the report stays at the
    /// front, to be retried after the linear backoff below.
    Retained { sleep_ms: u64 },
    /// The attempt failed and the cap is reached: the report was popped, and
    /// `warn` tells the caller to surface the failure to the player.
    Dropped { warn: bool },
}

/// The queue shared between the producer and the worker, together with the
/// cached result of the image integrity check, which is merged into every
/// outgoing payload once it is ready.
#[derive(Clone, Debug)]
pub struct GameReporterQueue {
    pub reports: VecDeque<GameReport>,
    pub iso_check: IsoMd5CheckState,
}

impl GameReporterQueue {
    /// An empty queue whose integrity check has not started.
    pub fn new() -> (r: Self)
        ensures
            r.reports@ == Seq::<GameReport>::empty(),
            r.iso_check is NotStarted,
    {
        GameReporterQueue { reports: VecDeque::new(), iso_check: IsoMd5CheckState::NotStarted }
    }

    /// Appends a new report to the back of the queue; the worker pops from
    /// the front, so insertion order is processing order.
    pub fn add_report(&mut self, report: GameReport)
        ensures
            final(self).reports@ == old(self).reports@.push(report),
            final(self).iso_check == old(self).iso_check,
    {
        self.reports.push_back(report);
    }

    /// Records a new state of the image integrity check.
    pub fn set_iso_check_state(&mut self, state: IsoMd5CheckState)
        ensures
            final(self).reports@ == old(self).reports@,
            final(self).iso_check == state,
    {
        self.iso_check = state;
    }

    /// Starts one delivery attempt for the report at the front: bumps its
    /// attempt counter and renders the exact HTTP body of the metadata
    /// exchange, with the cached image digest merged in when available.
    pub fn begin_attempt(&mut self, event: ProcessingEvent) -> (body: Vec<u8>)
        requires
            old(self).reports@.len() > 0,
            old(self).reports@[0].attempts < u32::MAX,
        ensures
            final(self).reports@ == old(self).reports@.update(
                0,
                spec_bump(old(self).reports@[0]),
            ),
            final(self).iso_check == old(self).iso_check,
            body@ == spec_report_request(
                spec_bump(old(self).reports@[0]),
                spec_iso_hash(old(self).iso_check),
            ),
    {
        let iso = self.iso_check.iso_hash_owned();
        let popped = self.reports.pop_front();
        let mut report = match popped {
            Some(r) => r,
            None => {
                proof {
                    assert(false);
                }
                unreached()
            },
        };
        report.attempts = report.attempts + 1;
        let body = build_graphql_request_body(
            "mutation ($report: OnlineGameReportInput!) { reportOnlineGame (report: $report) { success uploadUrl } }",
            Some(&build_report_variables(&report, iso.as_ref())),
        );
        self.reports.push_front(report);
        proof {
            assert(final(self).reports@ =~= old(self).reports@.update(
                0,
                spec_bump(old(self).reports@[0]),
            ));
        }
        body
    }

    /// Settles one delivery attempt from the outcome of the exchange:
    /// `success` is the acknowledgement of the metadata mutation and
    /// `upload_url` the optional upload destination it granted. Exactly one
    /// of the three outcomes holds:
    /// - acknowledged: the front report is popped, and its replay snapshot
    ///   travels with the granted destination;
    /// - failed below the cap: the queue is unchanged and the caller backs
    ///   off linearly, `attempts * 100` milliseconds;
    /// - failed at the cap: the front report is popped, and the player is
    ///   warned exactly when the match was Ranked.
    pub fn finish_attempt(
        &mut self,
        event: ProcessingEvent,
        success: bool,
        upload_url: Option<String>,
    ) -> (r: AttemptOutcome)
        requires
            old(self).reports@.len() > 0,
        ensures
            final(self).iso_check == old(self).iso_check,
            success ==> final(self).reports@ == old(self).reports@.drop_first(),
            success ==> (r matches AttemptOutcome::Delivered { upload } && (match upload_url {
                Some(u) => upload == Some((old(self).reports@[0].replay_data, u)),
                None => upload is None,
            })),
            (!success && old(self).reports@[0].attempts >= spec_max_attempts(event)) ==> {
                &&& final(self).reports@ == old(self).reports@.drop_first()
                &&& (r matches AttemptOutcome::Dropped { warn } && (warn <==> old(
                    self,
                ).reports@[0].online_mode == OnlinePlayMode::Ranked))
            },
            (!success && old(self).reports@[0].attempts < spec_max_attempts(event)) ==> {
                &&& final(self).reports@ == old(self).reports@
                &&& r == (AttemptOutcome::Retained {
                    sleep_ms: (old(self).reports@[0].attempts * 100) as u64,
                })
            },
    {
        if success {
            let popped = self.reports.pop_front();
            match popped {
                Some(report) => {
                    match upload_url {
                        Some(u) => AttemptOutcome::Delivered {
                            upload: Some((report.replay_data, u)),
                        },
                        None => AttemptOutcome::Delivered { upload: None },
                    }
                },
                None => {
                    proof {
                        assert(false);
                    }
                    unreached()
                },
            }
        } else {
            let max = max_attempts_for(event);
            let attempts = match self.reports.pop_front() {
                Some(report) => {
                    let a = report.attempts;
                    let is_last = a >= max;
                    if is_last {
                        let warn = report.online_mode == OnlinePlayMode::Ranked;
                        return AttemptOutcome::Dropped { warn };
                    }
                    self.reports.push_front(report);
                    proof {
                        assert(final(self).reports@ =~= old(self).reports@);
                    }
                    a
                },
                None => {
                    proof {
                        assert(false);
                    }
                    unreached()
                },
            };
            AttemptOutcome::Retained { sleep_ms: attempts as u64 * 100 }
        }
    }
}

// ---------------------------------------------------------------------------
// The drain laws: what repeated attempts do to the queue as a whole.
// ---------------------------------------------------------------------------
/// One worker iteration in which the attempt fails: the front report's
/// counter is bumped, and the report is dropped exactly when the counter
/// reaches the cap.
pub open spec fn spec_fail_step(s: Seq<GameReport>, max: u32) -> Seq<GameReport>
    recommends
        s.len() > 0,
{
    let b = s.update(0, spec_bump(s[0]));
    if b[0].attempts >= max {
        b.drop_first()
    } else {
        b
    }
}

/// `k` failing worker iterations in a row.
pub open spec fn spec_fail_steps(s: Seq<GameReport>, max: u32, k: nat) -> Seq<GameReport>
    decreases k,
{
    if k == 0 {
        s
    } else {
        spec_fail_step(spec_fail_steps(s, max, (k - 1) as nat), max)
    }
}

/// A report whose delivery always fails is attempted exactly `max` times and
/// then removed from the queue exactly once: before the cap is reached the
/// queue keeps the same reports with only the front counter advanced, and
/// the iteration that reaches the cap pops the front report and nothing
/// else.
pub proof fn lemma_retry_exhaustion(s: Seq<GameReport>, max: u32, k: nat)
    requires
        s.len() > 0,
        s[0].attempts == 0,
        1 <= max,
        k <= max,
    ensures
        k < max ==> spec_fail_steps(s, max, k) == s.update(
            0,
            spec_with_attempts(s[0], k as u32),
        ),
        k == max ==> spec_fail_steps(s, max, k) == s.drop_first(),
    decreases k,
{
    if k == 0 {
        assert(spec_with_attempts(s[0], 0) == s[0]);
        assert(s.update(0, s[0]) =~= s);
    } else {
        lemma_retry_exhaustion(s, max, (k - 1) as nat);
        let prev = spec_fail_steps(s, max, (k - 1) as nat);
        assert(prev == s.update(0, spec_with_attempts(s[0], (k - 1) as u32)));
        assert(spec_bump(prev[0]) == spec_with_attempts(s[0], k as u32));
        let b = prev.update(0, spec_with_attempts(s[0], k as u32));
        assert(b =~= s.update(0, spec_with_attempts(s[0], k as u32)));
        if k == max {
            assert(b[0].attempts >= max);
            assert(spec_fail_steps(s, max, k) == b.drop_first());
            assert(b.drop_first() =~= s.drop_first());
        } else {
            assert(b[0].attempts < max);
            assert(spec_fail_steps(s, max, k) == b);
        }
    }
}

/// Draining under a cap of one attempt — the shutdown pass, and equally a
/// run of first-attempt successes — processes the queue strictly in
/// insertion order: after `k` iterations the queue is exactly the untouched
/// suffix, so each of the first `k` reports was attempted exactly once, and
/// the report attempted next is always the one that was added next.
pub proof fn lemma_drain_in_order(s: Seq<GameReport>, k: nat)
    requires
        k <= s.len(),
        forall|i: int| 0 <= i < s.len() ==> s[i].attempts < u32::MAX,
    ensures
        spec_fail_steps(s, 1, k) == s.skip(k as int),
        k < s.len() ==> spec_fail_steps(s, 1, k)[0] == s[k as int],
    decreases k,
{
    if k == 0 {
        assert(s.skip(0) =~= s);
    } else {
        lemma_drain_in_order(s, (k - 1) as nat);
        let prev = spec_fail_steps(s, 1, (k - 1) as nat);
        assert(prev == s.skip(k - 1));
        assert(prev.len() > 0);
        assert(prev[0] == s[k - 1]);
        let b = prev.update(0, spec_bump(prev[0]));
        assert(b[0].attempts == prev[0].attempts + 1);
        assert(b[0].attempts >= 1);
        assert(spec_fail_step(prev, 1) == b.drop_first());
        assert(b.drop_first() =~= prev.drop_first());
        assert(prev.drop_first() =~= s.skip(k as int));
    }
}


/// One worker iteration in which the attempt is acknowledged: the front
/// report's counter is bumped and the report leaves the queue.
pub open spec fn spec_success_step(s: Seq<GameReport>) -> Seq<GameReport>
    recommends
        s.len() > 0,
{
    s.update(0, spec_bump(s[0])).drop_first()
}

/// However many failed attempts precede a report's delivery, the reports
/// behind it are never touched and never reordered: after `k` failures and
/// one acknowledged attempt, the queue is exactly the untouched remainder.
/// Together with the appending `add_report` this pins the FIFO guarantee:
/// reports are attempted in the order they were added, whatever each
/// attempt's outcome.
pub proof fn lemma_delivery_after_retries_keeps_order(s: Seq<GameReport>, max: u32, k: nat)
    requires
        s.len() > 0,
        s[0].attempts == 0,
        1 <= max,
        k < max,
    ensures
        spec_success_step(spec_fail_steps(s, max, k)) == s.drop_first(),
{
    lemma_retry_exhaustion(s, max, k);
    let prev = spec_fail_steps(s, max, k);
    assert(prev == s.update(0, spec_with_attempts(s[0], k as u32)));
    assert(spec_success_step(prev) =~= s.drop_first());
}

} // verus!
