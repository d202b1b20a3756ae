use vstd::prelude::*;

verus! {

/// Longest title, in characters.
pub const MAX_TITLE_LENGTH: usize = 50;

/// Longest description, in characters.
pub const MAX_DESCRIPTION_LENGTH: usize = 1000;

/// Smallest goal: one SOL, in lamports.
pub const MIN_GOAL_AMOUNT: u64 = 1_000_000_000;

/// Shortest campaign, in days from its creation to its deadline.
pub const MIN_DEADLINE_DAYS: i64 = 7;

/// Longest campaign, in days from its creation to its deadline.
pub const MAX_DEADLINE_DAYS: i64 = 30;

/// Seconds in a day.
pub const SECONDS_PER_DAY: i64 = 24 * 60 * 60;

/// Shortest campaign, in seconds.
pub const MIN_DURATION: i64 = MIN_DEADLINE_DAYS * SECONDS_PER_DAY;

/// Longest campaign, in seconds.
pub const MAX_DURATION: i64 = MAX_DEADLINE_DAYS * SECONDS_PER_DAY;

/// How long after its deadline a campaign counts as abandoned, in seconds
/// (seven days).
pub const ABANDONMENT_PERIOD: i64 = 7 * SECONDS_PER_DAY;

} // verus!
