//! Plain records the database hands back, and the arithmetic done on its
//! counts.

use vstd::prelude::*;

verus! {

/// Today's progress within one deck.
#[derive(Debug, Clone, Copy, PartialEq, Eq, Structural)]
pub struct ProgressCounts {
    /// Reviewed cards whose due moment has come.
    pub due_count: i64,
    /// New cards that may still be introduced today.
    pub new_remaining: i64,
    /// Cards whose first review happened today.
    pub new_reviewed_today: i64,
    /// Reviews logged today.
    pub reviewed_today: i64,
}

/// Ratings logged on one day.
#[derive(Debug, Clone, Copy, PartialEq, Eq, Structural)]
pub struct DailyReviewStats {
    pub reviews: i64,
    pub again: i64,
    pub hard: i64,
    pub good: i64,
    pub easy: i64,
}

/// The ratings of one calendar day, `YYYY-MM-DD`.
#[derive(Debug, PartialEq, Eq)]
pub struct DailyReviewBucket {
    pub date: String,
    pub stats: DailyReviewStats,
}

/// `i64::saturating_sub`.
pub open spec fn saturating_sub_i64(a: int, b: int) -> int {
    let d = a - b;
    if d > i64::MAX { i64::MAX as int } else if d < i64::MIN { i64::MIN as int } else { d }
}

/// New cards still allowed today: the daily limit less the new cards already
/// reviewed today (saturating), and never more than the new cards left.
pub open spec fn new_remaining_spec(daily_new_limit: int, new_reviewed_today: int, new_count: int) -> int {
    let quota = saturating_sub_i64(daily_new_limit, new_reviewed_today);
    if quota <= new_count { quota } else { new_count }
}

/// Assembles today's progress from the counted rows.
pub fn progress_from_counts(
    due_count: i64,
    new_count: i64,
    new_reviewed_today: i64,
    reviewed_today: i64,
    daily_new_limit: i64,
) -> (p: ProgressCounts)
    ensures
        p.due_count == due_count,
        p.new_remaining == new_remaining_spec(daily_new_limit as int, new_reviewed_today as int, new_count as int),
        p.new_reviewed_today == new_reviewed_today,
        p.reviewed_today == reviewed_today,
{
    let d: i128 = daily_new_limit as i128 - new_reviewed_today as i128;
    let quota: i64 = if d > i64::MAX as i128 {
        i64::MAX
    } else if d < i64::MIN as i128 {
        i64::MIN
    } else {
        d as i64
    };
    let new_remaining = if quota <= new_count { quota } else { new_count };
    ProgressCounts { due_count, new_remaining, new_reviewed_today, reviewed_today }
}

/// The new-card allowance never exceeds the daily limit nor the new cards
/// left, and it is the whole limit when nothing new was reviewed today and
/// enough new cards remain.
pub proof fn lemma_new_remaining_bounded(daily_new_limit: i64, new_reviewed_today: i64, new_count: i64)
    requires
        new_reviewed_today >= 0,
    ensures
        new_remaining_spec(daily_new_limit as int, new_reviewed_today as int, new_count as int) <= daily_new_limit,
        new_remaining_spec(daily_new_limit as int, new_reviewed_today as int, new_count as int) <= new_count,
        new_reviewed_today == 0 && daily_new_limit <= new_count ==>
            new_remaining_spec(daily_new_limit as int, new_reviewed_today as int, new_count as int) == daily_new_limit,
{
}

} // verus!
