//! The data carried by the reporting pipeline: one report per match attempt,
//! with its ordered per-player records, and the exact JSON rendering of the
//! metadata payload sent to the remote service.

use vstd::prelude::*;
use vstd::string::StringSliceAdditionalSpecFns;
use vstd::utf8::encode_utf8;
use crate::jsonenc::{
    push_bytes, push_dec_u64, push_json_str, push_str_bytes, spec_dec, spec_json_str,
};

verus! {

/// The matchmaking category of a match; it decides how loudly a delivery
/// failure is surfaced to the player.
#[derive(Clone, Copy, Debug, PartialEq, Eq, Structural)]
pub enum OnlinePlayMode {
    Ranked,
    Unranked,
    Direct,
    Teams,
}

/// The per-player slice of a game report.
#[derive(Clone, Debug)]
pub struct PlayerReport {
    pub uid: String,
    pub slot: u8,
    pub character_id: u8,
    pub stocks_remaining: u8,
}

/// One report per match attempt: created by the caller at end of match,
/// enqueued once, mutated only by the worker (the `attempts` counter), and
/// destroyed when delivered or when retries are exhausted. The replay bytes
/// are the frozen snapshot attached when the report was logged.
#[derive(Clone, Debug)]
pub struct GameReport {
    pub match_id: String,
    pub players: Vec<PlayerReport>,
    pub stage_id: u16,
    pub online_mode: OnlinePlayMode,
    pub attempts: u32,
    pub replay_data: Vec<u8>,
}

/// The JSON value sent for the online-play mode.
pub open spec fn spec_mode_json(m: OnlinePlayMode) -> Seq<u8> {
    match m {
        OnlinePlayMode::Ranked => ("\"RANKED\"").spec_bytes(),
        OnlinePlayMode::Unranked => ("\"UNRANKED\"").spec_bytes(),
        OnlinePlayMode::Direct => ("\"DIRECT\"").spec_bytes(),
        OnlinePlayMode::Teams => ("\"TEAMS\"").spec_bytes(),
    }
}

/// The JSON object for one player report.
pub open spec fn spec_player_json(p: PlayerReport) -> Seq<u8> {
    ("{\"characterId\":").spec_bytes() + spec_dec(p.character_id as nat) + (
    ",\"slot\":").spec_bytes() + spec_dec(p.slot as nat) + (",\"stocksRemaining\":").spec_bytes()
        + spec_dec(p.stocks_remaining as nat) + (",\"uid\":").spec_bytes() + spec_json_str(
        encode_utf8(p.uid@),
    ) + ("}").spec_bytes()
}

/// The comma-separated JSON objects of a sequence of player reports.
pub open spec fn spec_players_json(ps: Seq<PlayerReport>) -> Seq<u8>
    decreases ps.len(),
{
    if ps.len() == 0 {
        Seq::empty()
    } else if ps.len() == 1 {
        spec_player_json(ps[0])
    } else {
        spec_players_json(ps.drop_last()) + (",").spec_bytes() + spec_player_json(ps.last())
    }
}

/// The GraphQL variables object for the report mutation: the report's
/// metadata, the cached ISO hash when it is available (else `null`), and the
/// ordered player records.
pub open spec fn spec_report_variables(r: GameReport, iso: Option<Seq<char>>) -> Seq<u8> {
    ("{\"report\":{\"attempts\":").spec_bytes() + spec_dec(r.attempts as nat) + (
    ",\"isoHash\":").spec_bytes() + (match iso {
        Some(h) => spec_json_str(encode_utf8(h)),
        None => ("null").spec_bytes(),
    }) + (",\"matchId\":").spec_bytes() + spec_json_str(encode_utf8(r.match_id@)) + (
    ",\"mode\":").spec_bytes() + spec_mode_json(r.online_mode) + (",\"players\":[").spec_bytes()
        + spec_players_json(r.players@) + ("],\"stageId\":").spec_bytes() + spec_dec(
        r.stage_id as nat,
    ) + ("}}").spec_bytes()
}

fn push_mode(out: &mut Vec<u8>, m: OnlinePlayMode)
    ensures
        final(out)@ == old(out)@ + spec_mode_json(m),
{
    match m {
        OnlinePlayMode::Ranked => push_str_bytes(out, "\"RANKED\""),
        OnlinePlayMode::Unranked => push_str_bytes(out, "\"UNRANKED\""),
        OnlinePlayMode::Direct => push_str_bytes(out, "\"DIRECT\""),
        OnlinePlayMode::Teams => push_str_bytes(out, "\"TEAMS\""),
    }
}

fn push_player(out: &mut Vec<u8>, p: &PlayerReport)
    ensures
        final(out)@ == old(out)@ + spec_player_json(*p),
{
    push_str_bytes(out, "{\"characterId\":");
    push_dec_u64(out, p.character_id as u64);
    push_str_bytes(out, ",\"slot\":");
    push_dec_u64(out, p.slot as u64);
    push_str_bytes(out, ",\"stocksRemaining\":");
    push_dec_u64(out, p.stocks_remaining as u64);
    push_str_bytes(out, ",\"uid\":");
    push_json_str(out, p.uid.as_str());
    push_str_bytes(out, "}");
    assert(final(out)@ =~= old(out)@ + spec_player_json(*p));
}

fn push_players(out: &mut Vec<u8>, ps: &Vec<PlayerReport>)
    ensures
        final(out)@ == old(out)@ + spec_players_json(ps@),
{
    let mut i: usize = 0;
    while i < ps.len()
        invariant
            i <= ps@.len(),
            out@ == old(out)@ + spec_players_json(ps@.subrange(0, i as int)),
        decreases ps@.len() - i,
    {
        if i > 0 {
            push_str_bytes(out, ",");
        }
        push_player(out, &ps[i]);
        proof {
            let pre = ps@.subrange(0, i as int);
            let cur = ps@.subrange(0, i + 1 as int);
            assert(cur.drop_last() =~= pre);
            assert(cur.last() == ps@[i as int]);
            if i == 0 {
                assert(spec_players_json(cur) == spec_player_json(ps@[0]));
            }
            assert(out@ =~= old(out)@ + spec_players_json(cur));
        }
        i = i + 1;
    }
    assert(ps@.subrange(0, ps@.len() as int) =~= ps@);
}

/// Renders the GraphQL variables object for one report, merging in the
/// cached ISO hash when one is available.
pub fn build_report_variables(r: &GameReport, iso: Option<&String>) -> (out: Vec<u8>)
    ensures
        out@ == spec_report_variables(
            *r,
            match iso {
                Some(h) => Some(h@),
                None => None,
            },
        ),
{
    let mut out: Vec<u8> = Vec::new();
    push_str_bytes(&mut out, "{\"report\":{\"attempts\":");
    push_dec_u64(&mut out, r.attempts as u64);
    push_str_bytes(&mut out, ",\"isoHash\":");
    match iso {
        Some(h) => push_json_str(&mut out, h.as_str()),
        None => push_str_bytes(&mut out, "null"),
    }
    push_str_bytes(&mut out, ",\"matchId\":");
    push_json_str(&mut out, r.match_id.as_str());
    push_str_bytes(&mut out, ",\"mode\":");
    push_mode(&mut out, r.online_mode);
    push_str_bytes(&mut out, ",\"players\":[");
    push_players(&mut out, &r.players);
    push_str_bytes(&mut out, "],\"stageId\":");
    push_dec_u64(&mut out, r.stage_id as u64);
    push_str_bytes(&mut out, "}}");
    assert(out@ =~= spec_report_variables(
        *r,
        match iso {
            Some(h) => Some(h@),
            None => None,
        },
    ));
    out
}

} // verus!
