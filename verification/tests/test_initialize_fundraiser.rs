use gofundme::errors::{ErrorCode, ProgramError};
use gofundme::instructions::initialize_fundraiser::{initialize_fundraiser, InitializeFundraiser};
use gofundme::state::{Fundraiser, FundraiserStatus, Pubkey};

const DAY: i64 = 24 * 60 * 60;

fn key(n: u8) -> Pubkey {
    Pubkey::new_from_array([n; 32])
}

fn accounts_for(creator: u8, index: u8) -> InitializeFundraiser {
    InitializeFundraiser {
        creator: key(creator),
        fundraiser: key(100 + index),
        vault: key(200 + index),
        fundraiser_bump: 255 - index,
    }
}

fn create_fundraiser(
    creator: u8,
    fundraiser_index: u8,
    title: String,
    description: String,
    goal_amount: u64,
    deadline: i64,
    now: i64,
) -> Result<Fundraiser, ErrorCode> {
    initialize_fundraiser(
        &accounts_for(creator, fundraiser_index),
        fundraiser_index,
        title,
        description,
        goal_amount,
        deadline,
        now,
    )
}

fn code_of(result: &Result<Fundraiser, ErrorCode>) -> u32 {
    match result {
        Ok(_) => panic!("expected a failure"),
        Err(e) => e.code(),
    }
}

#[test]
fn test_initialize_fundraiser_success() {
    let now = 0;
    let goal_amount: u64 = 5_000_000_000;
    let deadline = now + (14 * 24 * 60 * 60);
    let result = create_fundraiser(
        1,
        0,
        "Save the Whales".to_string(),
        "Help us protect whale habitats worldwide.".to_string(),
        goal_amount,
        deadline,
        now,
    );
    let account = result.expect("creation succeeds");
    assert_eq!(account.creator, key(1));
    assert_eq!(account.title, "Save the Whales");
    assert_eq!(account.description, "Help us protect whale habitats worldwide.");
    assert_eq!(account.goal_amount, goal_amount);
    assert_eq!(account.deadline, deadline);
    assert_eq!(account.raised_amount, 0);
    assert_eq!(account.status, FundraiserStatus::Active);
    assert_eq!(account.vault, key(200));
    assert_eq!(account.bump, 255);
    assert_eq!(account.created_at, now);
}

#[test]
fn test_empty_title_fails() {
    let now = 0;
    let deadline = now + (14 * 24 * 60 * 60);
    let result = create_fundraiser(
        1,
        0,
        "".to_string(),
        "Valid description".to_string(),
        5_000_000_000,
        deadline,
        now,
    );
    assert_eq!(code_of(&result), 6000); // TitleTooLong
    assert_eq!(result, Err(ErrorCode::TitleTooLong));
}

#[test]
fn test_title_too_long_fails() {
    let now = 0;
    let deadline = now + (14 * 24 * 60 * 60);
    let result = create_fundraiser(
        1,
        0,
        "A".repeat(51),
        "Valid description".to_string(),
        5_000_000_000,
        deadline,
        now,
    );
    assert_eq!(code_of(&result), 6000); // TitleTooLong
}

#[test]
fn test_empty_description_fails() {
    let now = 0;
    let deadline = now + (14 * 24 * 60 * 60);
    let result = create_fundraiser(
        1,
        0,
        "Valid Title".to_string(),
        "".to_string(),
        5_000_000_000,
        deadline,
        now,
    );
    assert_eq!(code_of(&result), 6001); // DescriptionTooLong
}

#[test]
fn test_goal_too_small_fails() {
    let now = 0;
    let deadline = now + (14 * 24 * 60 * 60);
    let result = create_fundraiser(
        1,
        0,
        "Valid Title".to_string(),
        "Valid description".to_string(),
        999_999_999,
        deadline,
        now,
    );
    assert_eq!(code_of(&result), 6002); // GoalTooSmall
}

#[test]
fn test_deadline_in_past_fails() {
    let now = 0;
    let past_deadline = now - 1;
    let result = create_fundraiser(
        1,
        0,
        "Valid Title".to_string(),
        "Valid description".to_string(),
        5_000_000_000,
        past_deadline,
        now,
    );
    assert_eq!(code_of(&result), 6003); // DeadlineInPast
}

#[test]
fn test_deadline_too_short_fails() {
    let now = 0;
    let short_deadline = now + (3 * 24 * 60 * 60);
    let result = create_fundraiser(
        1,
        0,
        "Valid Title".to_string(),
        "Valid description".to_string(),
        5_000_000_000,
        short_deadline,
        now,
    );
    assert_eq!(code_of(&result), 6004); // InvalidDeadline
}

#[test]
fn test_deadline_too_long_fails() {
    let now = 0;
    let long_deadline = now + (60 * 24 * 60 * 60);
    let result = create_fundraiser(
        1,
        0,
        "Valid Title".to_string(),
        "Valid description".to_string(),
        5_000_000_000,
        long_deadline,
        now,
    );
    assert_eq!(code_of(&result), 6004); // InvalidDeadline
}

#[test]
fn test_multiple_fundraisers_same_creator() {
    let now = 0;
    let deadline = now + (14 * 24 * 60 * 60);
    let result0 = create_fundraiser(
        1,
        0,
        "First Campaign".to_string(),
        "First campaign description".to_string(),
        2_000_000_000,
        deadline,
        now,
    );
    assert!(result0.is_ok());
    let result1 = create_fundraiser(
        1,
        1,
        "Second Campaign".to_string(),
        "Second campaign description".to_string(),
        3_000_000_000,
        deadline,
        now,
    );
    assert!(result1.is_ok());
    assert_ne!(result0.unwrap().vault, result1.unwrap().vault);
}

#[test]
fn test_minimum_valid_deadline() {
    let now = 0;
    let deadline = now + (7 * 24 * 60 * 60);
    let result = create_fundraiser(
        1,
        0,
        "Edge Case".to_string(),
        "Testing minimum deadline boundary".to_string(),
        1_000_000_000,
        deadline,
        now,
    );
    assert!(result.is_ok());
}

#[test]
fn test_maximum_valid_deadline() {
    let now = 0;
    let deadline = now + (30 * 24 * 60 * 60);
    let result = create_fundraiser(
        1,
        0,
        "Edge Case".to_string(),
        "Testing maximum deadline boundary".to_string(),
        1_000_000_000,
        deadline,
        now,
    );
    assert!(result.is_ok());
}

#[test]
fn initialize_just_inside_and_outside_the_duration_bounds() {
    let now = 1_000_000_000;
    let ok_short = create_fundraiser(1, 0, "T".to_string(), "D".to_string(), 1_000_000_000, now + 7 * DAY, now);
    assert!(ok_short.is_ok());
    let too_short = create_fundraiser(1, 0, "T".to_string(), "D".to_string(), 1_000_000_000, now + 7 * DAY - 1, now);
    assert_eq!(too_short, Err(ErrorCode::InvalidDeadline));
    let ok_long = create_fundraiser(1, 0, "T".to_string(), "D".to_string(), 1_000_000_000, now + 30 * DAY, now);
    assert!(ok_long.is_ok());
    let too_long = create_fundraiser(1, 0, "T".to_string(), "D".to_string(), 1_000_000_000, now + 30 * DAY + 1, now);
    assert_eq!(too_long, Err(ErrorCode::InvalidDeadline));
    let at_now = create_fundraiser(1, 0, "T".to_string(), "D".to_string(), 1_000_000_000, now, now);
    assert_eq!(at_now, Err(ErrorCode::DeadlineInPast));
}

#[test]
fn initialize_measures_text_in_characters() {
    let now = 0;
    let deadline = now + 1_209_600;
    // Fifty accented letters are fifty characters (a hundred bytes): the longest title.
    let fits = create_fundraiser(1, 0, "é".repeat(50), "Valid description".to_string(), 5_000_000_000, deadline, now)
        .expect("fifty characters are accepted");
    assert_eq!(fits.title, "é".repeat(50));
    let too_long = create_fundraiser(1, 0, "é".repeat(51), "D".to_string(), 1_000_000_000, deadline, now);
    assert_eq!(too_long, Err(ErrorCode::TitleTooLong));
    let longest_description = create_fundraiser(1, 0, "T".to_string(), "ü".repeat(1000), 1_000_000_000, deadline, now);
    assert!(longest_description.is_ok());
    let description_too_long = create_fundraiser(1, 0, "T".to_string(), "d".repeat(1001), 1_000_000_000, deadline, now);
    assert_eq!(description_too_long, Err(ErrorCode::DescriptionTooLong));
}

#[test]
fn initialize_reports_the_first_failed_check() {
    // Everything is wrong: the title is reported first.
    let result = create_fundraiser(1, 0, "".to_string(), "".to_string(), 0, -1, 0);
    assert_eq!(result, Err(ErrorCode::TitleTooLong));
    let result = create_fundraiser(1, 0, "T".to_string(), "".to_string(), 0, -1, 0);
    assert_eq!(result, Err(ErrorCode::DescriptionTooLong));
    let result = create_fundraiser(1, 0, "T".to_string(), "D".to_string(), 0, -1, 0);
    assert_eq!(result, Err(ErrorCode::GoalTooSmall));
    assert_eq!(ProgramError::Custom(ErrorCode::GoalTooSmall), ProgramError::Custom(ErrorCode::GoalTooSmall));
}

#[test]
fn initialize_takes_any_deadline_without_overflow() {
    let now = 1_000_000_000;
    let result = create_fundraiser(1, 0, "Valid Title".to_string(), "Valid description".to_string(), 5_000_000_000, i64::MIN, now);
    assert_eq!(result, Err(ErrorCode::DeadlineInPast));
    let result = create_fundraiser(1, 0, "Valid Title".to_string(), "Valid description".to_string(), 5_000_000_000, i64::MAX, -now);
    assert_eq!(result, Err(ErrorCode::InvalidDeadline));
    let result = create_fundraiser(1, 0, "".to_string(), "Valid description".to_string(), 5_000_000_000, i64::MAX, i64::MIN);
    assert_eq!(result, Err(ErrorCode::TitleTooLong));
}
