use std::collections::HashMap;

use gofundme::errors::{ErrorCode, ProgramError};
use gofundme::instructions::donate::{donate, record_donation, Donate};
use gofundme::instructions::initialize_fundraiser::{initialize_fundraiser, InitializeFundraiser};
use gofundme::state::{Donation, Fundraiser, FundraiserStatus, Pubkey, Transfer};

const DAY: i64 = 24 * 60 * 60;

fn key(n: u8) -> Pubkey {
    Pubkey::new_from_array([n; 32])
}

/// The balances of the accounts, and the records of each donor.
struct Ledger {
    balances: HashMap<Pubkey, u64>,
    donations: HashMap<Pubkey, Donation>,
}

impl Ledger {
    fn new() -> Ledger {
        Ledger { balances: HashMap::new(), donations: HashMap::new() }
    }

    fn fund(&mut self, account: Pubkey, lamports: u64) {
        *self.balances.entry(account).or_insert(0) += lamports;
    }

    fn balance(&self, account: &Pubkey) -> u64 {
        *self.balances.get(account).unwrap_or(&0)
    }

    fn apply(&mut self, t: &Transfer) {
        let from = self.balance(&t.from);
        assert!(from >= t.lamports, "the payer lacks the lamports");
        self.balances.insert(t.from, from - t.lamports);
        let to = self.balance(&t.to);
        self.balances.insert(t.to, to + t.lamports);
    }
}

fn setup_fundraiser(creator: Pubkey, goal_amount: u64, deadline_offset_days: i64, now: i64) -> Fundraiser {
    let accounts = InitializeFundraiser {
        creator,
        fundraiser: key(100),
        vault: key(200),
        fundraiser_bump: 254,
    };
    initialize_fundraiser(
        &accounts,
        0,
        "Test Campaign".to_string(),
        "Test description".to_string(),
        goal_amount,
        now + deadline_offset_days * DAY,
        now,
    )
    .expect("creation succeeds")
}

fn donate_accounts(donor: Pubkey, vault: Pubkey) -> Donate {
    Donate { donor, fundraiser: key(100), vault, donation: key(150) }
}

/// The whole instruction: the checks, the transfer, then the booking.
fn donate_helper(
    ledger: &mut Ledger,
    fundraiser: &mut Fundraiser,
    donor: Pubkey,
    vault: Pubkey,
    amount: u64,
    now: i64,
) -> Result<(), ProgramError> {
    let accounts = donate_accounts(donor, vault);
    let transfer = donate(&accounts, fundraiser, now, amount)?;
    ledger.apply(&transfer);
    let record = ledger.donations.entry(donor).or_insert_with(Donation::empty);
    record_donation(&accounts, fundraiser, record, now, amount).map_err(ProgramError::Custom)
}

fn custom_code(result: Result<(), ProgramError>) -> u32 {
    match result {
        Err(ProgramError::Custom(e)) => e.code(),
        other => panic!("expected an error of the program, got {:?}", other),
    }
}

#[test]
fn test_donate_success() {
    let now = 1_000_000_000;
    let mut ledger = Ledger::new();
    let creator = key(1);
    let donor = key(2);
    ledger.fund(creator, 10_000_000_000);
    ledger.fund(donor, 20_000_000_000);

    let goal_amount = 5_000_000_000;
    let mut fundraiser = setup_fundraiser(creator, goal_amount, 14, now);
    let vault = fundraiser.vault;

    let donation_amount = 2_000_000_000;
    let initial_donor_balance = ledger.balance(&donor);
    let initial_vault_balance = ledger.balance(&vault);

    donate_helper(&mut ledger, &mut fundraiser, donor, vault, donation_amount, now).expect("donation succeeds");

    let final_donor_balance = ledger.balance(&donor);
    let final_vault_balance = ledger.balance(&vault);
    assert!(final_donor_balance <= initial_donor_balance - donation_amount);
    assert_eq!(final_vault_balance, initial_vault_balance + donation_amount);

    assert_eq!(fundraiser.raised_amount, donation_amount);
    assert!(matches!(fundraiser.status, FundraiserStatus::Active));

    let donation_account = ledger.donations[&donor];
    assert_eq!(donation_account.amount, donation_amount);
    assert_eq!(donation_account.donor, donor);
    assert_eq!(donation_account.fundraiser, key(100));
    assert!(!donation_account.refunded);
    assert!(donation_account.timestamp > 0);
}

#[test]
fn test_donate_goal_met_completes_campaign() {
    let now = 0;
    let mut ledger = Ledger::new();
    let creator = key(1);
    let donor = key(2);
    ledger.fund(creator, 10_000_000_000);
    ledger.fund(donor, 20_000_000_000);

    let goal_amount = 5_000_000_000;
    let mut fundraiser = setup_fundraiser(creator, goal_amount, 14, now);
    let vault = fundraiser.vault;

    let donation_amount = 5_000_000_000;
    donate_helper(&mut ledger, &mut fundraiser, donor, vault, donation_amount, now).expect("donation succeeds");

    assert_eq!(fundraiser.raised_amount, donation_amount);
    assert!(matches!(fundraiser.status, FundraiserStatus::Closed));
}

#[test]
fn test_donate_inactive_campaign_fails() {
    let now = 0;
    let mut ledger = Ledger::new();
    let creator = key(1);
    let donor1 = key(2);
    let donor2 = key(3);
    ledger.fund(creator, 10_000_000_000);
    ledger.fund(donor1, 10_000_000_000);
    ledger.fund(donor2, 10_000_000_000);

    let goal_amount = 5_000_000_000;
    let mut fundraiser = setup_fundraiser(creator, goal_amount, 14, now);
    let vault = fundraiser.vault;

    donate_helper(&mut ledger, &mut fundraiser, donor1, vault, 5_000_000_000, now).expect("first donation succeeds");

    let result = donate_helper(&mut ledger, &mut fundraiser, donor2, vault, 1_000_000_000, now);
    assert_eq!(custom_code(result), 6005); // CampaignNotActive
    assert_eq!(ledger.balance(&donor2), 10_000_000_000);
}

#[test]
fn test_donate_deadline_passed_fails() {
    let now = 0;
    let mut ledger = Ledger::new();
    let creator = key(1);
    let donor = key(2);
    ledger.fund(creator, 10_000_000_000);
    ledger.fund(donor, 10_000_000_000);

    let goal_amount = 5_000_000_000;
    let mut fundraiser = setup_fundraiser(creator, goal_amount, 14, now);
    let vault = fundraiser.vault;

    let later = now + 15 * 24 * 60 * 60;
    let result = donate_helper(&mut ledger, &mut fundraiser, donor, vault, 1_000_000_000, later);
    assert_eq!(custom_code(result), 6006); // DeadlinePassed
}

#[test]
fn test_donate_invalid_amount_fails() {
    let now = 0;
    let mut ledger = Ledger::new();
    let creator = key(1);
    let donor = key(2);
    ledger.fund(creator, 10_000_000_000);
    ledger.fund(donor, 10_000_000_000);

    let goal_amount = 5_000_000_000;
    let mut fundraiser = setup_fundraiser(creator, goal_amount, 14, now);
    let vault = fundraiser.vault;

    let result = donate_helper(&mut ledger, &mut fundraiser, donor, vault, 0, now);
    assert_eq!(custom_code(result), 6007); // InvalidDonationAmount
}

#[test]
fn test_donate_invalid_vault_fails() {
    let now = 0;
    let mut ledger = Ledger::new();
    let creator = key(1);
    let donor = key(2);
    ledger.fund(creator, 10_000_000_000);
    ledger.fund(donor, 10_000_000_000);

    let goal_amount = 5_000_000_000;
    let mut fundraiser = setup_fundraiser(creator, goal_amount, 14, now);

    let malicious_vault = key(66);
    let result = donate_helper(&mut ledger, &mut fundraiser, donor, malicious_vault, 1_000_000_000, now);
    assert_eq!(result, Err(ProgramError::ConstraintAddress));
    assert_eq!(ledger.balance(&malicious_vault), 0);
}

#[test]
fn donations_of_one_donor_add_up() {
    let now = 0;
    let mut ledger = Ledger::new();
    let donor = key(2);
    ledger.fund(donor, 10_000_000_000);
    let mut fundraiser = setup_fundraiser(key(1), 5_000_000_000, 14, now);
    let vault = fundraiser.vault;

    donate_helper(&mut ledger, &mut fundraiser, donor, vault, 1_000_000_000, now + 10).unwrap();
    donate_helper(&mut ledger, &mut fundraiser, donor, vault, 1_500_000_000, now + 20).unwrap();
    let record = ledger.donations[&donor];
    assert_eq!(record.amount, 2_500_000_000);
    assert_eq!(record.timestamp, now + 20);
    assert_eq!(fundraiser.raised_amount, 2_500_000_000);
    assert_eq!(fundraiser.status, FundraiserStatus::Active);
    assert_eq!(ledger.balance(&vault), 2_500_000_000);
}

#[test]
fn donation_at_the_deadline_fails() {
    let now = 0;
    let fundraiser = setup_fundraiser(key(1), 5_000_000_000, 14, now);
    let accounts = donate_accounts(key(2), fundraiser.vault);
    let just_before = donate(&accounts, &fundraiser, fundraiser.deadline - 1, 7);
    assert_eq!(
        just_before,
        Ok(Transfer { from: key(2), to: fundraiser.vault, lamports: 7 })
    );
    let at_deadline = donate(&accounts, &fundraiser, fundraiser.deadline, 7);
    assert_eq!(at_deadline, Err(ProgramError::Custom(ErrorCode::DeadlinePassed)));
}

#[test]
fn overflowing_donation_changes_nothing() {
    let now = 0;
    let mut fundraiser = setup_fundraiser(key(1), 5_000_000_000, 14, now);
    fundraiser.raised_amount = u64::MAX - 1;
    let before = fundraiser.clone();
    let mut record = Donation::empty();
    let accounts = donate_accounts(key(2), fundraiser.vault);
    let result = record_donation(&accounts, &mut fundraiser, &mut record, now, 2);
    assert_eq!(result, Err(ErrorCode::MathOverflow));
    assert_eq!(ErrorCode::MathOverflow.code(), 6008);
    assert_eq!(fundraiser, before);
    assert_eq!(record, Donation::empty());

    let mut fresh = setup_fundraiser(key(1), 5_000_000_000, 14, now);
    let mut full_record = Donation::empty();
    full_record.amount = u64::MAX;
    let result = record_donation(&accounts, &mut fresh, &mut full_record, now, 1);
    assert_eq!(result, Err(ErrorCode::MathOverflow));
    assert_eq!(fresh.raised_amount, 0);
}

#[test]
fn goal_exceeded_closes_campaign() {
    let now = 0;
    let mut fundraiser = setup_fundraiser(key(1), 5_000_000_000, 14, now);
    let mut record = Donation::empty();
    let accounts = donate_accounts(key(2), fundraiser.vault);
    record_donation(&accounts, &mut fundraiser, &mut record, now, 4_999_999_999).unwrap();
    assert_eq!(fundraiser.status, FundraiserStatus::Active);
    record_donation(&accounts, &mut fundraiser, &mut record, now, 2).unwrap();
    assert_eq!(fundraiser.status, FundraiserStatus::Closed);
    assert_eq!(fundraiser.raised_amount, 5_000_000_001);
    assert_eq!(record.amount, 5_000_000_001);
}
