//! The public entry point of the pipeline. The facade owns the report queue
//! and the live replay accumulator; the caller owns the worker threads and
//! channels, performs each action the facade decides on, and hands events
//! back. The producer-side operations never block: they append, enqueue,
//! and return.

use vstd::prelude::*;
use crate::queue::{GameReporterQueue, ProcessingEvent};
use crate::status::{build_status_report_request, spec_status_request, StatusReportEvent};
use crate::types::GameReport;

verus! {

/// The byte value that opens a new match's replay stream; seeing it first in
/// a push discards the accumulated buffer and starts a fresh one.
pub const NEW_MATCH_MARKER: u8 = 0x35;

/// Whether a push opens a new match: non-empty and led by the marker byte.
pub open spec fn spec_opens_match(data: Seq<u8>) -> bool {
    data.len() > 0 && data[0] == NEW_MATCH_MARKER
}

/// What one push does to the accumulator: an opening push replaces the
/// buffer with its own bytes, every other push appends.
pub open spec fn spec_push_replay(buf: Seq<u8>, data: Seq<u8>) -> Seq<u8> {
    if spec_opens_match(data) {
        data
    } else {
        buf + data
    }
}

/// The accumulator after a sequence of pushes, in order.
pub open spec fn spec_accumulated(buf: Seq<u8>, pushes: Seq<Seq<u8>>) -> Seq<u8>
    decreases pushes.len(),
{
    if pushes.len() == 0 {
        buf
    } else {
        spec_accumulated(spec_push_replay(buf, pushes.first()), pushes.drop_first())
    }
}

/// All the pushes' bytes, concatenated in order.
pub open spec fn spec_concat_pushes(pushes: Seq<Seq<u8>>) -> Seq<u8>
    decreases pushes.len(),
{
    if pushes.len() == 0 {
        Seq::empty()
    } else {
        pushes.first() + spec_concat_pushes(pushes.drop_first())
    }
}

/// Pushes that open no match only ever append.
proof fn lemma_accumulate_appends(buf: Seq<u8>, pushes: Seq<Seq<u8>>)
    requires
        forall|i: int| 0 <= i < pushes.len() ==> !spec_opens_match(#[trigger] pushes[i]),
    ensures
        spec_accumulated(buf, pushes) == buf + spec_concat_pushes(pushes),
    decreases pushes.len(),
{
    if pushes.len() == 0 {
        assert(spec_concat_pushes(pushes) =~= Seq::<u8>::empty());
        assert(buf + Seq::<u8>::empty() =~= buf);
    } else {
        assert(!spec_opens_match(pushes[0]));
        lemma_accumulate_appends(buf + pushes.first(), pushes.drop_first());
        assert(buf + pushes.first() + spec_concat_pushes(pushes.drop_first()) =~= buf
            + spec_concat_pushes(pushes));
    }
}

/// A push that opens a new match isolates what follows: whatever the buffer
/// held before, after the opening push and any run of non-opening pushes
/// the accumulator holds exactly those pushes' bytes, in order — nothing of
/// any earlier match survives, so the snapshot a report then freezes is the
/// new match's bytes alone.
pub proof fn lemma_reset_isolates_snapshot(buf: Seq<u8>, pushes: Seq<Seq<u8>>)
    requires
        pushes.len() > 0,
        spec_opens_match(pushes[0]),
        forall|i: int| 1 <= i < pushes.len() ==> !spec_opens_match(#[trigger] pushes[i]),
    ensures
        spec_accumulated(buf, pushes) == spec_concat_pushes(pushes),
{
    assert(spec_push_replay(buf, pushes[0]) == pushes[0]);
    assert(forall|i: int|
        0 <= i < pushes.drop_first().len() ==> !spec_opens_match(
            #[trigger] pushes.drop_first()[i],
        ));
    lemma_accumulate_appends(pushes.first(), pushes.drop_first());
}

/// How a status ping is to be delivered: directly by the caller, who blocks
/// for the answer, or through the status worker's own queue.
#[derive(Clone, Debug)]
pub enum StatusDispatch {
    /// Synchronous: send this body now and hand the result straight back to
    /// the caller; the report queue and its backoff machinery are not
    /// involved.
    Direct { body: Vec<u8> },
    /// Asynchronous: place this event on the status worker's channel.
    Queued { event: StatusReportEvent },
}

/// The facade over the reporting pipeline: the FIFO report queue (with the
/// cached integrity-check result) and the append-only replay accumulator.
#[derive(Clone, Debug)]
pub struct GameReporter {
    pub queue: GameReporterQueue,
    pub replay_data: Vec<u8>,
}

impl GameReporter {
    /// A reporter with an empty queue and an empty replay buffer.
    pub fn new() -> (r: Self)
        ensures
            r.queue.reports@ == Seq::<GameReport>::empty(),
            r.queue.iso_check is NotStarted,
            r.replay_data@ == Seq::<u8>::empty(),
    {
        GameReporter { queue: GameReporterQueue::new(), replay_data: Vec::new() }
    }

    /// Kept as a hook for callers that mark session boundaries; a new
    /// session needs no preparation.
    pub fn start_new_session(&mut self)
        ensures
            *final(self) == *old(self),
    {
    }

    /// Appends raw replay bytes to the current buffer. If the first byte of
    /// `data` is the new-match marker, the current buffer is discarded first
    /// and a fresh one started; snapshots already attached to reports are
    /// copies and are never touched. Empty pushes change nothing.
    pub fn push_replay_data(&mut self, data: &[u8])
        ensures
            final(self).queue == old(self).queue,
            final(self).replay_data@ == spec_push_replay(old(self).replay_data@, data@),
    {
        if data.len() > 0 && data[0] == NEW_MATCH_MARKER {
            self.replay_data = Vec::new();
        }
        crate::jsonenc::push_bytes(&mut self.replay_data, data);
        proof {
            if data@.len() > 0 && data@[0] == NEW_MATCH_MARKER {
                assert(final(self).replay_data@ =~= data@);
            }
        }
    }

    /// Attaches a frozen copy of the accumulated replay bytes to the report,
    /// appends the report to the back of the queue, and tells the caller to
    /// wake the worker. Later pushes to the accumulator cannot reach the
    /// attached snapshot.
    pub fn log_report(&mut self, report: GameReport) -> (event: ProcessingEvent)
        ensures
            event is ReportAvailable,
            final(self).replay_data@ == old(self).replay_data@,
            final(self).queue.iso_check == old(self).queue.iso_check,
            final(self).queue.reports@.len() == old(self).queue.reports@.len() + 1,
            final(self).queue.reports@.subrange(0, old(self).queue.reports@.len() as int) == old(
                self,
            ).queue.reports@,
            ({
                let attached = final(self).queue.reports@.last();
                &&& attached.match_id@ == report.match_id@
                &&& attached.players@ == report.players@
                &&& attached.stage_id == report.stage_id
                &&& attached.online_mode == report.online_mode
                &&& attached.attempts == report.attempts
                &&& attached.replay_data@ == old(self).replay_data@
            }),
    {
        let mut report = report;
        report.replay_data = self.replay_data.clone();
        self.queue.add_report(report);
        proof {
            assert(final(self).queue.reports@.subrange(
                0,
                old(self).queue.reports@.len() as int,
            ) =~= old(self).queue.reports@);
        }
        ProcessingEvent::ReportAvailable
    }

    /// Routes a status ping. Synchronous delivery hands the caller the exact
    /// request body to send at once — the mutation's result comes straight
    /// back to the caller, never through the report queue or its backoff.
    /// Background delivery wraps the ping in an event for the status
    /// worker's own channel. The identity pair comes from the caller's
    /// identity provider.
    pub fn report_match_status(
        &self,
        uid: String,
        play_key: String,
        match_id: String,
        status: String,
        background: bool,
    ) -> (r: StatusDispatch)
        ensures
            !background ==> (r matches StatusDispatch::Direct { body } && body@
                == spec_status_request(uid@, match_id@, play_key@, status@)),
            background ==> (r matches StatusDispatch::Queued { event } && (
            event matches StatusReportEvent::ReportAvailable {
                uid: u,
                play_key: p,
                match_id: m,
                status: s,
            } && u@ == uid@ && p@ == play_key@ && m@ == match_id@ && s@ == status@)),
    {
        if !background {
            let body = build_status_report_request(
                uid.as_str(),
                match_id.as_str(),
                play_key.as_str(),
                status.as_str(),
            );
            StatusDispatch::Direct { body }
        } else {
            StatusDispatch::Queued {
                event: StatusReportEvent::ReportAvailable { uid, play_key, match_id, status },
            }
        }
    }
}

} // verus!
