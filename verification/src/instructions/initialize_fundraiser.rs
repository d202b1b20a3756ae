use vstd::prelude::*;
use vstd::string::StrSliceExecFns;
use crate::constants::{MAX_DESCRIPTION_LENGTH, MAX_DURATION, MAX_TITLE_LENGTH, MIN_DURATION, MIN_GOAL_AMOUNT};
use crate::errors::ErrorCode;
use crate::state::{valid_description, valid_duration, valid_title, Fundraiser, FundraiserStatus, Pubkey};

verus! {

/// The accounts of the instruction that creates a fundraiser.
#[derive(Clone, Copy, Debug, PartialEq, Eq)]
pub struct InitializeFundraiser {
    /// Who creates the fundraiser and signs for it.
    pub creator: Pubkey,
    /// The new fundraiser account, derived from the creator and an index.
    pub fundraiser: Pubkey,
    /// The account that will hold the donations, derived from the fundraiser.
    pub vault: Pubkey,
    /// The bump seed of the fundraiser's address.
    pub fundraiser_bump: u8,
}

/// The first check that a new fundraiser fails, if any, in the order in which
/// the instruction makes them.
pub open spec fn initialize_error(
    title: Seq<char>,
    description: Seq<char>,
    goal_amount: u64,
    deadline: i64,
    now: i64,
) -> Option<ErrorCode> {
    if !valid_title(title) {
        Some(ErrorCode::TitleTooLong)
    } else if !valid_description(description) {
        Some(ErrorCode::DescriptionTooLong)
    } else if goal_amount < MIN_GOAL_AMOUNT {
        Some(ErrorCode::GoalTooSmall)
    } else if deadline <= now {
        Some(ErrorCode::DeadlineInPast)
    } else if !valid_duration(now as int, deadline as int) {
        Some(ErrorCode::InvalidDeadline)
    } else {
        None
    }
}

/// Creates a fundraiser at time `now` (the clock's Unix timestamp): checks
/// the title, the description, the goal and the deadline, and on success
/// returns the new account's contents, active and with nothing raised yet.
/// The index only tells apart the fundraisers of one creator: it goes into
/// the fundraiser's address, not into its contents.
pub fn initialize_fundraiser(
    accounts: &InitializeFundraiser,
    _fundraiser_index: u8,
    title: String,
    description: String,
    goal_amount: u64,
    deadline: i64,
    now: i64,
) -> (result: Result<Fundraiser, ErrorCode>)
    ensures
        match result {
            Ok(f) => {
                &&& initialize_error(title@, description@, goal_amount, deadline, now) is None
                &&& f.creator == accounts.creator
                &&& f.title == title
                &&& f.description == description
                &&& f.goal_amount == goal_amount
                &&& f.deadline == deadline
                &&& f.raised_amount == 0
                &&& f.status == FundraiserStatus::Active
                &&& f.vault == accounts.vault
                &&& f.bump == accounts.fundraiser_bump
                &&& f.created_at == now
                &&& f.wf()
            },
            Err(e) => initialize_error(title@, description@, goal_amount, deadline, now) == Some(e),
        },
{
    let title_len: usize = title.as_str().unicode_len();
    if title_len == 0 || title_len > MAX_TITLE_LENGTH {
        return Err(ErrorCode::TitleTooLong);
    }
    let description_len: usize = description.as_str().unicode_len();
    if description_len == 0 || description_len > MAX_DESCRIPTION_LENGTH {
        return Err(ErrorCode::DescriptionTooLong);
    }
    if goal_amount < MIN_GOAL_AMOUNT {
        return Err(ErrorCode::GoalTooSmall);
    }
    if deadline <= now {
        return Err(ErrorCode::DeadlineInPast);
    }
    // The deadline is ahead of the clock here, so the duration is positive;
    // it is computed wide enough for any two timestamps.
    let duration: i128 = deadline as i128 - now as i128;
    if duration < MIN_DURATION as i128 || duration > MAX_DURATION as i128 {
        return Err(ErrorCode::InvalidDeadline);
    }
    Ok(Fundraiser {
        creator: accounts.creator,
        title,
        description,
        goal_amount,
        deadline,
        raised_amount: 0,
        status: FundraiserStatus::Active,
        vault: accounts.vault,
        bump: accounts.fundraiser_bump,
        created_at: now,
    })
}


/// A fundraiser is created exactly when its title has 1 to 50 characters,
/// its description 1 to 1000, its goal is at least one SOL, and its deadline
/// lies 7 to 30 days (both included) after the clock.
pub proof fn law_creation_accepted_exactly_when_valid(
    title: Seq<char>,
    description: Seq<char>,
    goal_amount: u64,
    deadline: i64,
    now: i64,
)
    ensures
        initialize_error(title, description, goal_amount, deadline, now) is None <==> {
            &&& 1 <= title.len() <= 50
            &&& 1 <= description.len() <= 1000
            &&& goal_amount >= 1_000_000_000
            &&& 7 * 86_400 <= deadline - now <= 30 * 86_400
        },
{
}

/// Each refusal of a creation names the first rule it breaks, in the order
/// title, description, goal, deadline ahead of the clock, campaign length.
pub proof fn law_creation_refusals(
    title: Seq<char>,
    description: Seq<char>,
    goal_amount: u64,
    deadline: i64,
    now: i64,
)
    ensures
        initialize_error(title, description, goal_amount, deadline, now) == Some(
            ErrorCode::TitleTooLong,
        ) <==> !(1 <= title.len() <= 50),
        initialize_error(title, description, goal_amount, deadline, now) == Some(
            ErrorCode::DescriptionTooLong,
        ) <==> 1 <= title.len() <= 50 && !(1 <= description.len() <= 1000),
        initialize_error(title, description, goal_amount, deadline, now) == Some(
            ErrorCode::GoalTooSmall,
        ) <==> 1 <= title.len() <= 50 && 1 <= description.len() <= 1000 && goal_amount
            < 1_000_000_000,
        initialize_error(title, description, goal_amount, deadline, now) == Some(
            ErrorCode::DeadlineInPast,
        ) <==> 1 <= title.len() <= 50 && 1 <= description.len() <= 1000 && goal_amount
            >= 1_000_000_000 && deadline <= now,
        initialize_error(title, description, goal_amount, deadline, now) == Some(
            ErrorCode::InvalidDeadline,
        ) <==> 1 <= title.len() <= 50 && 1 <= description.len() <= 1000 && goal_amount
            >= 1_000_000_000 && deadline > now && !(7 * 86_400 <= deadline - now <= 30 * 86_400),
{
}

/// A creation accepted with one goal and deadline is accepted with any other
/// goal of at least one SOL and any other deadline 7 to 30 days ahead.
pub proof fn law_creation_accepts_every_valid_goal_and_deadline(
    title: Seq<char>,
    description: Seq<char>,
    goal_amount: u64,
    deadline: i64,
    now: i64,
    other_goal: u64,
    other_deadline: i64,
)
    requires
        initialize_error(title, description, goal_amount, deadline, now) is None,
        other_goal >= 1_000_000_000,
        7 * 86_400 <= other_deadline - now <= 30 * 86_400,
    ensures
        initialize_error(title, description, other_goal, other_deadline, now) is None,
{
}

} // verus!
