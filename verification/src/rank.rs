//! Rank bookkeeping: the ladder that maps a rating to a named rank, and the
//! update applied when a ranked match's personal result comes back. Ratings
//! travel here in hundredths of a rating point, so the ladder's two-decimal
//! thresholds are exact integers.

use vstd::prelude::*;

verus! {

/// Represents current state of a rank fetch flow.
#[derive(Clone, Copy, Debug, PartialEq, Eq, Structural)]
pub enum FetchStatus {
    NotFetched,
    Fetching,
    Fetched,
    Error,
}

impl Default for FetchStatus {
    fn default() -> (r: Self)
        ensures
            r is NotFetched,
    {
        FetchStatus::NotFetched
    }
}

/// The processing state a ranked match's result can be in.
#[derive(Clone, Copy, Debug, PartialEq, Eq, Structural)]
pub enum MatchStatus {
    Assigned,
    Complete,
    Abandoned,
    Orphaned,
    Terminated,
    Error,
    Unhandled,
}

impl Default for MatchStatus {
    /// An absent status is treated as an error.
    fn default() -> (r: Self)
        ensures
            r is Error,
    {
        MatchStatus::Error
    }
}

/// Current state of the background rank fetch.
#[derive(Clone, Copy, Debug, PartialEq, Eq, Structural)]
pub enum RankFetchStatus {
    Fetching,
    Fetched,
    Error,
}

/// Holds the status of the rank fetcher. It starts as `Fetched`: initial
/// rank data is loaded at client sign-in, so generic rank data is assumed to
/// be on hand.
#[derive(Clone, Copy, Debug)]
pub struct RankFetcherStatus {
    status: RankFetchStatus,
}

impl RankFetcherStatus {
    /// The view of the held status.
    pub closed spec fn spec_status(self) -> RankFetchStatus {
        self.status
    }

    /// Creates and returns a new status, defaulting to `Fetched`.
    pub fn new() -> (r: Self)
        ensures
            r.spec_status() is Fetched,
    {
        RankFetcherStatus { status: RankFetchStatus::Fetched }
    }

    /// Sets the underlying status.
    pub fn set(&mut self, status: RankFetchStatus)
        ensures
            final(self).spec_status() == status,
    {
        self.status = status;
    }

    /// Gets the underlying status.
    pub fn get(&self) -> (r: RankFetchStatus)
        ensures
            r == self.spec_status(),
    {
        self.status
    }
}

/// What can go wrong while managing rank updates.
#[derive(Clone, Debug)]
pub enum RankManagerError {
    ThreadSpawn(String),
    ChannelSenderDisconnected,
    Unknown,
}

/// A rank on the ladder.
#[derive(Clone, Copy, Debug, PartialEq, Eq, Structural)]
pub enum SlippiRank {
    Unranked,
    Bronze1,
    Bronze2,
    Bronze3,
    Silver1,
    Silver2,
    Silver3,
    Gold1,
    Gold2,
    Gold3,
    Platinum1,
    Platinum2,
    Platinum3,
    Diamond1,
    Diamond2,
    Diamond3,
    Master1,
    Master2,
    Master3,
    Grandmaster,
}

impl SlippiRank {
    /// The ladder index of a rank, bottom up from unranked at zero.
    pub fn rank_index(&self) -> (r: i8)
        ensures
            r == spec_rank_index(*self),
    {
        match self {
            SlippiRank::Unranked => 0,
            SlippiRank::Bronze1 => 1,
            SlippiRank::Bronze2 => 2,
            SlippiRank::Bronze3 => 3,
            SlippiRank::Silver1 => 4,
            SlippiRank::Silver2 => 5,
            SlippiRank::Silver3 => 6,
            SlippiRank::Gold1 => 7,
            SlippiRank::Gold2 => 8,
            SlippiRank::Gold3 => 9,
            SlippiRank::Platinum1 => 10,
            SlippiRank::Platinum2 => 11,
            SlippiRank::Platinum3 => 12,
            SlippiRank::Diamond1 => 13,
            SlippiRank::Diamond2 => 14,
            SlippiRank::Diamond3 => 15,
            SlippiRank::Master1 => 16,
            SlippiRank::Master2 => 17,
            SlippiRank::Master3 => 18,
            SlippiRank::Grandmaster => 19,
        }
    }
}

/// The ladder index of a rank.
pub open spec fn spec_rank_index(rank: SlippiRank) -> i8 {
    match rank {
        SlippiRank::Unranked => 0,
        SlippiRank::Bronze1 => 1,
        SlippiRank::Bronze2 => 2,
        SlippiRank::Bronze3 => 3,
        SlippiRank::Silver1 => 4,
        SlippiRank::Silver2 => 5,
        SlippiRank::Silver3 => 6,
        SlippiRank::Gold1 => 7,
        SlippiRank::Gold2 => 8,
        SlippiRank::Gold3 => 9,
        SlippiRank::Platinum1 => 10,
        SlippiRank::Platinum2 => 11,
        SlippiRank::Platinum3 => 12,
        SlippiRank::Diamond1 => 13,
        SlippiRank::Diamond2 => 14,
        SlippiRank::Diamond3 => 15,
        SlippiRank::Master1 => 16,
        SlippiRank::Master2 => 17,
        SlippiRank::Master3 => 18,
        SlippiRank::Grandmaster => 19,
    }
}

/// The rank the ladder assigns, with ratings in hundredths of a point.
/// Below five rating updates a player is unranked; grandmaster additionally
/// asks for a daily global and regional placing.
pub open spec fn spec_decide(
    rating_centi: int,
    global_placing: u16,
    regional_placing: u16,
    rating_update_count: u32,
) -> SlippiRank {
    if rating_update_count < 5 {
        SlippiRank::Unranked
    } else if rating_centi > 0 && rating_centi <= 76542 {
        SlippiRank::Bronze1
    } else if rating_centi > 76543 && rating_centi <= 91371 {
        SlippiRank::Bronze2
    } else if rating_centi > 91372 && rating_centi <= 105486 {
        SlippiRank::Bronze3
    } else if rating_centi > 105487 && rating_centi <= 118887 {
        SlippiRank::Silver1
    } else if rating_centi > 118888 && rating_centi <= 131574 {
        SlippiRank::Silver2
    } else if rating_centi > 131575 && rating_centi <= 143547 {
        SlippiRank::Silver3
    } else if rating_centi > 143548 && rating_centi <= 154806 {
        SlippiRank::Gold1
    } else if rating_centi > 154807 && rating_centi <= 165351 {
        SlippiRank::Gold2
    } else if rating_centi > 165352 && rating_centi <= 175182 {
        SlippiRank::Gold3
    } else if rating_centi > 175183 && rating_centi <= 184299 {
        SlippiRank::Platinum1
    } else if rating_centi > 184300 && rating_centi <= 192702 {
        SlippiRank::Platinum2
    } else if rating_centi > 192703 && rating_centi <= 200391 {
        SlippiRank::Platinum3
    } else if rating_centi > 200392 && rating_centi <= 207366 {
        SlippiRank::Diamond1
    } else if rating_centi > 207367 && rating_centi <= 213627 {
        SlippiRank::Diamond2
    } else if rating_centi > 213628 && rating_centi <= 219174 {
        SlippiRank::Diamond3
    } else if rating_centi >= 219175 && global_placing > 0 && regional_placing > 0 {
        SlippiRank::Grandmaster
    } else if rating_centi > 219175 && rating_centi <= 227499 {
        SlippiRank::Master1
    } else if rating_centi > 227500 && rating_centi <= 235000 {
        SlippiRank::Master2
    } else if rating_centi > 235000 {
        SlippiRank::Master3
    } else {
        SlippiRank::Unranked
    }
}

/// Determines the current rank given the provided values; the rating comes
/// in hundredths of a rating point.
pub fn decide(
    rating_centi: i64,
    global_placing: u16,
    regional_placing: u16,
    rating_update_count: u32,
) -> (r: SlippiRank)
    ensures
        r == spec_decide(rating_centi as int, global_placing, regional_placing,
            rating_update_count),
{
    if rating_update_count < 5 {
        return SlippiRank::Unranked;
    }
    if rating_centi > 0 && rating_centi <= 76542 {
        return SlippiRank::Bronze1;
    }
    if rating_centi > 76543 && rating_centi <= 91371 {
        return SlippiRank::Bronze2;
    }
    if rating_centi > 91372 && rating_centi <= 105486 {
        return SlippiRank::Bronze3;
    }
    if rating_centi > 105487 && rating_centi <= 118887 {
        return SlippiRank::Silver1;
    }
    if rating_centi > 118888 && rating_centi <= 131574 {
        return SlippiRank::Silver2;
    }
    if rating_centi > 131575 && rating_centi <= 143547 {
        return SlippiRank::Silver3;
    }
    if rating_centi > 143548 && rating_centi <= 154806 {
        return SlippiRank::Gold1;
    }
    if rating_centi > 154807 && rating_centi <= 165351 {
        return SlippiRank::Gold2;
    }
    if rating_centi > 165352 && rating_centi <= 175182 {
        return SlippiRank::Gold3;
    }
    if rating_centi > 175183 && rating_centi <= 184299 {
        return SlippiRank::Platinum1;
    }
    if rating_centi > 184300 && rating_centi <= 192702 {
        return SlippiRank::Platinum2;
    }
    if rating_centi > 192703 && rating_centi <= 200391 {
        return SlippiRank::Platinum3;
    }
    if rating_centi > 200392 && rating_centi <= 207366 {
        return SlippiRank::Diamond1;
    }
    if rating_centi > 207367 && rating_centi <= 213627 {
        return SlippiRank::Diamond2;
    }
    if rating_centi > 213628 && rating_centi <= 219174 {
        return SlippiRank::Diamond3;
    }
    if rating_centi >= 219175 && global_placing > 0 && regional_placing > 0 {
        return SlippiRank::Grandmaster;
    }
    if rating_centi > 219175 && rating_centi <= 227499 {
        return SlippiRank::Master1;
    }
    if rating_centi > 227500 && rating_centi <= 235000 {
        return SlippiRank::Master2;
    }
    if rating_centi > 235000 {
        return SlippiRank::Master3;
    }
    SlippiRank::Unranked
}

/// A slice of rank information from the service; ratings in hundredths.
#[derive(Clone, Copy, Debug, PartialEq, Eq, Structural)]
pub struct RankInfo {
    pub rank: i8,
    pub rating_ordinal_centi: i64,
    pub global_placing: u16,
    pub regional_placing: u16,
    pub rating_update_count: u32,
    pub rating_change_centi: i64,
    pub rank_change: i32,
}

impl Default for RankInfo {
    fn default() -> (r: Self)
        ensures
            r == (RankInfo {
                rank: 0,
                rating_ordinal_centi: 0,
                global_placing: 0,
                regional_placing: 0,
                rating_update_count: 0,
                rating_change_centi: 0,
                rank_change: 0,
            }),
    {
        RankInfo {
            rank: 0,
            rating_ordinal_centi: 0,
            global_placing: 0,
            regional_placing: 0,
            rating_update_count: 0,
            rating_change_centi: 0,
            rank_change: 0,
        }
    }
}

/// The rank index the ladder assigns to a slice of rank information.
pub fn get_rank_idx_from_info(info: &RankInfo) -> (r: i8)
    ensures
        r == spec_rank_index(
            spec_decide(
                info.rating_ordinal_centi as int,
                info.global_placing,
                info.regional_placing,
                info.rating_update_count,
            ),
        ),
{
    decide(
        info.rating_ordinal_centi,
        info.global_placing,
        info.regional_placing,
        info.rating_update_count,
    ).rank_index()
}

/// Player rank data, together with the state of any network operation.
#[derive(Clone, Copy, Debug)]
pub struct RankData {
    pub fetch_status: FetchStatus,
    pub current_rank: Option<RankInfo>,
    pub previous_rank: Option<RankInfo>,
}

impl Default for RankData {
    fn default() -> (r: Self)
        ensures
            r.fetch_status is NotFetched,
            r.current_rank is None,
            r.previous_rank is None,
    {
        RankData { fetch_status: FetchStatus::NotFetched, current_rank: None, previous_rank: None }
    }
}

/// Helper for setting the fetch status.
pub fn set_status(data: &mut RankData, status: FetchStatus)
    ensures
        *final(data) == (RankData { fetch_status: status, ..*old(data) }),
{
    data.fetch_status = status;
}

/// The participant slice of a ranked match's personal result; absent fields
/// come back as zero.
#[derive(Clone, Copy, Debug)]
pub struct MatchResultParticipant {
    pub pre_match_ordinal_centi: Option<i64>,
    pub pre_match_daily_global_placement: Option<u16>,
    pub pre_match_daily_regional_placement: Option<u16>,
    pub pre_match_rating_update_count: Option<u32>,
    pub post_match_rating_change_centi: Option<i64>,
}

/// A ranked match's personal result.
#[derive(Clone, Copy, Debug)]
pub struct MatchResult {
    pub status: MatchStatus,
    pub participant: MatchResultParticipant,
}

/// The rank information implied by the pre-match participant values alone.
pub open spec fn spec_pre_match_info(p: MatchResultParticipant) -> RankInfo {
    RankInfo {
        rank: 0,
        rating_ordinal_centi: spec_unwrap_or_i64(p.pre_match_ordinal_centi, 0),
        global_placing: spec_unwrap_or_u16(p.pre_match_daily_global_placement, 0),
        regional_placing: spec_unwrap_or_u16(p.pre_match_daily_regional_placement, 0),
        rating_update_count: spec_unwrap_or_u32(p.pre_match_rating_update_count, 0),
        rating_change_centi: spec_unwrap_or_i64(p.post_match_rating_change_centi, 0),
        rank_change: 0,
    }
}

pub open spec fn spec_unwrap_or_i64(v: Option<i64>, d: i64) -> i64 {
    match v {
        Some(x) => x,
        None => d,
    }
}

pub open spec fn spec_unwrap_or_u16(v: Option<u16>, d: u16) -> u16 {
    match v {
        Some(x) => x,
        None => d,
    }
}

pub open spec fn spec_unwrap_or_u32(v: Option<u32>, d: u32) -> u32 {
    match v {
        Some(x) => x,
        None => d,
    }
}

/// Folds a match result into the rank data: the pre-match values, with the
/// rank they imply, are stored as the previous rank; then the rating change
/// is applied, the update count advances by one, and the new rank and the
/// rank change are recorded as the current rank.
pub fn update_rank(rank_data: &mut RankData, response: MatchResult)
    requires
        spec_unwrap_or_i64(response.participant.pre_match_ordinal_centi, 0) + spec_unwrap_or_i64(
            response.participant.post_match_rating_change_centi,
            0,
        ) <= i64::MAX,
        spec_unwrap_or_i64(response.participant.pre_match_ordinal_centi, 0) + spec_unwrap_or_i64(
            response.participant.post_match_rating_change_centi,
            0,
        ) >= i64::MIN,
        spec_unwrap_or_u32(response.participant.pre_match_rating_update_count, 0) < u32::MAX,
    ensures
        final(rank_data).fetch_status == old(rank_data).fetch_status,
        final(rank_data).previous_rank matches Some(prev) && {
            let pre = spec_pre_match_info(response.participant);
            &&& prev.rating_ordinal_centi == pre.rating_ordinal_centi
            &&& prev.global_placing == pre.global_placing
            &&& prev.regional_placing == pre.regional_placing
            &&& prev.rating_update_count == pre.rating_update_count
            &&& prev.rating_change_centi == 0
            &&& prev.rank_change == 0
            &&& prev.rank == spec_rank_index(
                spec_decide(
                    pre.rating_ordinal_centi as int,
                    pre.global_placing,
                    pre.regional_placing,
                    pre.rating_update_count,
                ),
            )
        },
        final(rank_data).current_rank matches Some(info) && {
            let pre = spec_pre_match_info(response.participant);
            let prev_idx = spec_rank_index(
                spec_decide(
                    pre.rating_ordinal_centi as int,
                    pre.global_placing,
                    pre.regional_placing,
                    pre.rating_update_count,
                ),
            );
            let new_ordinal = pre.rating_ordinal_centi + pre.rating_change_centi;
            let new_count = pre.rating_update_count + 1;
            let new_idx = spec_rank_index(
                spec_decide(
                    new_ordinal as int,
                    pre.global_placing,
                    pre.regional_placing,
                    new_count as u32,
                ),
            );
            &&& info.rating_ordinal_centi == new_ordinal
            &&& info.rating_update_count == new_count
            &&& info.rank == new_idx
            &&& info.rank_change == new_idx - prev_idx
            &&& info.global_placing == pre.global_placing
            &&& info.regional_placing == pre.regional_placing
            &&& info.rating_change_centi == pre.rating_change_centi
        },
{
    let mut rank_info = RankInfo {
        rank: 0,
        rating_ordinal_centi: unwrap_or_i64(response.participant.pre_match_ordinal_centi, 0),
        global_placing: unwrap_or_u16(response.participant.pre_match_daily_global_placement, 0),
        regional_placing: unwrap_or_u16(
            response.participant.pre_match_daily_regional_placement,
            0,
        ),
        rating_update_count: unwrap_or_u32(response.participant.pre_match_rating_update_count, 0),
        rating_change_centi: unwrap_or_i64(response.participant.post_match_rating_change_centi, 0),
        rank_change: 0,
    };
    let prev_rank_idx = get_rank_idx_from_info(&rank_info);
    rank_data.previous_rank = Some(
        RankInfo { rank: prev_rank_idx, rating_change_centi: 0, ..rank_info },
    );
    rank_info.rating_ordinal_centi = rank_info.rating_ordinal_centi
        + rank_info.rating_change_centi;
    rank_info.rating_update_count = rank_info.rating_update_count + 1;
    rank_info.rank = get_rank_idx_from_info(&rank_info);
    rank_info.rank_change = (rank_info.rank as i32) - (prev_rank_idx as i32);
    rank_data.current_rank = Some(rank_info);
}

fn unwrap_or_i64(v: Option<i64>, d: i64) -> (r: i64)
    ensures
        r == spec_unwrap_or_i64(v, d),
{
    match v {
        Some(x) => x,
        None => d,
    }
}

fn unwrap_or_u16(v: Option<u16>, d: u16) -> (r: u16)
    ensures
        r == spec_unwrap_or_u16(v, d),
{
    match v {
        Some(x) => x,
        None => d,
    }
}

fn unwrap_or_u32(v: Option<u32>, d: u32) -> (r: u32)
    ensures
        r == spec_unwrap_or_u32(v, d),
{
    match v {
        Some(x) => x,
        None => d,
    }
}


/// What the poll loop does next after one iteration.
#[derive(Clone, Copy, Debug, PartialEq, Eq, Structural)]
pub enum PollAction {
    /// Sleep this many seconds and poll again.
    RetryAfterSecs(u64),
    /// The poll is settled; the loop stops.
    Stop,
}

/// One iteration of the match-result poll. The caller fetches the personal
/// result and hands it in (`None` when the fetch itself failed):
/// - a result still marked assigned is retried twice, two seconds apart,
///   and folded in anyway on the third try;
/// - any settled result is folded into the rank data and the poll stops
///   fetched;
/// - a failed fetch is retried up to three times, a second apart, before
///   the poll stops with the error status.
pub fn match_result_step(
    rank_data: &mut RankData,
    retry_index: &mut u32,
    outcome: Option<MatchResult>,
) -> (r: PollAction)
    requires
        *old(retry_index) < u32::MAX,
        (outcome matches Some(m) ==> {
            let pre = spec_unwrap_or_i64(m.participant.pre_match_ordinal_centi, 0);
            let change = spec_unwrap_or_i64(m.participant.post_match_rating_change_centi, 0);
            &&& i64::MIN <= pre + change <= i64::MAX
            &&& spec_unwrap_or_u32(m.participant.pre_match_rating_update_count, 0) < u32::MAX
        }),
    ensures
        (outcome matches Some(m) && m.status is Assigned && *old(retry_index) + 1 < 3) ==> {
            &&& r == PollAction::RetryAfterSecs(2)
            &&& *final(retry_index) == *old(retry_index) + 1
            &&& final(rank_data).fetch_status is Fetching
            &&& final(rank_data).current_rank == old(rank_data).current_rank
        },
        (outcome matches Some(m) && !(m.status is Assigned && *old(retry_index) + 1 < 3)) ==> {
            &&& r == PollAction::Stop
            &&& final(rank_data).fetch_status is Fetched
            &&& final(rank_data).current_rank is Some
        },
        outcome is None ==> {
            &&& *final(retry_index) == *old(retry_index) + 1
            &&& (*old(retry_index) + 1 >= 3 ==> r == PollAction::Stop
                && (final(rank_data).fetch_status is Error))
            &&& (*old(retry_index) + 1 < 3 ==> r == PollAction::RetryAfterSecs(1)
                && (final(rank_data).fetch_status is Fetching))
        },
{
    set_status(rank_data, FetchStatus::Fetching);
    match outcome {
        Some(response) => {
            if response.status == MatchStatus::Assigned {
                *retry_index = *retry_index + 1;
                if *retry_index < 3 {
                    return PollAction::RetryAfterSecs(2);
                }
            }
            update_rank(rank_data, response);
            set_status(rank_data, FetchStatus::Fetched);
            PollAction::Stop
        },
        None => {
            *retry_index = *retry_index + 1;
            if *retry_index >= 3 {
                set_status(rank_data, FetchStatus::Error);
                return PollAction::Stop;
            }
            PollAction::RetryAfterSecs(1)
        },
    }
}

} // verus!
