use vstd::prelude::*;
use crate::errors::{ErrorCode, ProgramError};
use crate::state::{Donation, Fundraiser, FundraiserStatus, Pubkey, Transfer};

verus! {

/// The accounts of the instruction that takes a donation.
#[derive(Clone, Copy, Debug, PartialEq, Eq)]
pub struct Donate {
    /// Who gives, and signs for it.
    pub donor: Pubkey,
    /// The fundraiser that receives.
    pub fundraiser: Pubkey,
    /// The account that the lamports go to; it must be the fundraiser's vault.
    pub vault: Pubkey,
    /// The donor's record for this fundraiser, derived from both keys.
    pub donation: Pubkey,
}

/// The first check that a donation of `amount` at time `now` fails, if any,
/// in the order in which the instruction makes them.
pub open spec fn donate_error(accounts: Donate, fundraiser: Fundraiser, now: i64, amount: u64) -> Option<
    ProgramError,
> {
    if accounts.vault != fundraiser.vault {
        Some(ProgramError::ConstraintAddress)
    } else if fundraiser.status != FundraiserStatus::Active {
        Some(ProgramError::Custom(ErrorCode::CampaignNotActive))
    } else if now >= fundraiser.deadline {
        Some(ProgramError::Custom(ErrorCode::DeadlinePassed))
    } else if amount == 0 {
        Some(ProgramError::Custom(ErrorCode::InvalidDonationAmount))
    } else {
        None
    }
}

/// Whether recording a donation of `amount` would overflow the fundraiser's
/// total or the donor's record.
pub open spec fn donation_overflows(fundraiser: Fundraiser, donation: Donation, amount: u64) -> bool {
    fundraiser.raised_amount + amount > u64::MAX || donation.amount + amount > u64::MAX
}

/// The fundraiser after it received `amount` more: the total grows by
/// `amount`, and the campaign closes once the total reaches the goal.
pub open spec fn fundraiser_after_donation(fundraiser: Fundraiser, amount: u64) -> Fundraiser {
    let raised: u64 = (fundraiser.raised_amount + amount) as u64;
    Fundraiser {
        raised_amount: raised,
        status: if raised >= fundraiser.goal_amount {
            FundraiserStatus::Closed
        } else {
            fundraiser.status
        },
        ..fundraiser
    }
}

/// The donor's record after it gave `amount` more at time `now`: it names
/// the fundraiser and the donor, adds `amount` to what was given before, and
/// is no longer refunded.
pub open spec fn donation_after_donation(
    donation: Donation,
    accounts: Donate,
    now: i64,
    amount: u64,
) -> Donation {
    Donation {
        fundraiser: accounts.fundraiser,
        donor: accounts.donor,
        amount: (donation.amount + amount) as u64,
        timestamp: now,
        refunded: false,
    }
}

/// The checks of a donation of `amount` at time `now`, made before any
/// lamports move. On success, returns the transfer of `amount` from the donor
/// to the vault; once the runtime has made it, `record_donation` books it.
pub fn donate(accounts: &Donate, fundraiser: &Fundraiser, now: i64, amount: u64) -> (result: Result<
    Transfer,
    ProgramError,
>)
    ensures
        match result {
            Ok(t) => {
                &&& donate_error(*accounts, *fundraiser, now, amount) is None
                &&& t == (Transfer { from: accounts.donor, to: accounts.vault, lamports: amount })
            },
            Err(e) => donate_error(*accounts, *fundraiser, now, amount) == Some(e),
        },
{
    if !accounts.vault.same_as(&fundraiser.vault) {
        return Err(ProgramError::ConstraintAddress);
    }
    match fundraiser.status {
        FundraiserStatus::Active => {},
        FundraiserStatus::Closed => {
            return Err(ProgramError::Custom(ErrorCode::CampaignNotActive));
        },
    }
    if now >= fundraiser.deadline {
        return Err(ProgramError::Custom(ErrorCode::DeadlinePassed));
    }
    if amount == 0 {
        return Err(ProgramError::Custom(ErrorCode::InvalidDonationAmount));
    }
    Ok(Transfer { from: accounts.donor, to: accounts.vault, lamports: amount })
}

/// Books a donation of `amount` at time `now` once its transfer has been
/// made: adds it to the fundraiser's total, closing the campaign when the
/// goal is reached, and to the donor's record. Fails with `MathOverflow`, and
/// changes nothing, where either sum would not fit in a `u64`.
pub fn record_donation(
    accounts: &Donate,
    fundraiser: &mut Fundraiser,
    donation: &mut Donation,
    now: i64,
    amount: u64,
) -> (result: Result<(), ErrorCode>)
    ensures
        match result {
            Ok(()) => {
                &&& !donation_overflows(*old(fundraiser), *old(donation), amount)
                &&& *final(fundraiser) == fundraiser_after_donation(*old(fundraiser), amount)
                &&& *final(donation) == donation_after_donation(
                    *old(donation),
                    *accounts,
                    now,
                    amount,
                )
            },
            Err(e) => {
                &&& e == ErrorCode::MathOverflow
                &&& donation_overflows(*old(fundraiser), *old(donation), amount)
                &&& *final(fundraiser) == *old(fundraiser)
                &&& *final(donation) == *old(donation)
            },
        },
{
    let raised: u64 = match fundraiser.raised_amount.checked_add(amount) {
        Some(r) => r,
        None => {
            return Err(ErrorCode::MathOverflow);
        },
    };
    let given: u64 = match donation.amount.checked_add(amount) {
        Some(g) => g,
        None => {
            return Err(ErrorCode::MathOverflow);
        },
    };
    fundraiser.raised_amount = raised;
    donation.fundraiser = accounts.fundraiser;
    donation.donor = accounts.donor;
    donation.amount = given;
    donation.timestamp = now;
    donation.refunded = false;
    if fundraiser.raised_amount >= fundraiser.goal_amount {
        fundraiser.status = FundraiserStatus::Closed;
    }
    Ok(())
}


/// A donation is taken exactly when it is sent to the fundraiser's own vault,
/// the campaign is active, its deadline is still ahead and the amount is
/// positive; how much has been raised, and how the amount compares with the
/// goal, play no part.
pub proof fn law_donation_taken_exactly_when_valid(
    accounts: Donate,
    fundraiser: Fundraiser,
    now: i64,
    amount: u64,
)
    ensures
        donate_error(accounts, fundraiser, now, amount) is None <==> {
            &&& accounts.vault == fundraiser.vault
            &&& fundraiser.status == FundraiserStatus::Active
            &&& now < fundraiser.deadline
            &&& amount > 0
        },
{
}

/// Each refusal of a donation names the first rule it breaks: the wrong
/// vault, a closed campaign, a passed deadline, then a zero amount.
pub proof fn law_donation_refusals(accounts: Donate, fundraiser: Fundraiser, now: i64, amount: u64)
    ensures
        donate_error(accounts, fundraiser, now, amount) == Some(ProgramError::ConstraintAddress)
            <==> accounts.vault != fundraiser.vault,
        donate_error(accounts, fundraiser, now, amount) == Some(
            ProgramError::Custom(ErrorCode::CampaignNotActive),
        ) <==> accounts.vault == fundraiser.vault && fundraiser.status == FundraiserStatus::Closed,
        donate_error(accounts, fundraiser, now, amount) == Some(
            ProgramError::Custom(ErrorCode::DeadlinePassed),
        ) <==> accounts.vault == fundraiser.vault && fundraiser.status == FundraiserStatus::Active
            && now >= fundraiser.deadline,
        donate_error(accounts, fundraiser, now, amount) == Some(
            ProgramError::Custom(ErrorCode::InvalidDonationAmount),
        ) <==> accounts.vault == fundraiser.vault && fundraiser.status == FundraiserStatus::Active
            && now < fundraiser.deadline && amount == 0,
{
}

/// Whether a donation is taken does not depend on the goal or on what has
/// been raised: a donation that overshoots the goal is taken like any other.
pub proof fn law_donation_ignores_goal_and_total(
    accounts: Donate,
    fundraiser: Fundraiser,
    now: i64,
    amount: u64,
    goal_amount: u64,
    raised_amount: u64,
)
    ensures
        donate_error(accounts, Fundraiser { goal_amount, raised_amount, ..fundraiser }, now, amount)
            == donate_error(accounts, fundraiser, now, amount),
{
}

/// Booking a donation fails only where a sum would not fit in a `u64`; it
/// adds the amount to the fundraiser's total and to the donor's record,
/// closes the campaign exactly when the new total reaches the goal (or it
/// was closed already), stamps the record with the time and the two keys,
/// clears its refunded mark, and leaves every other field as it was.
pub proof fn law_booking_adds_the_amount(
    accounts: Donate,
    fundraiser: Fundraiser,
    donation: Donation,
    now: i64,
    amount: u64,
)
    ensures
        donation_overflows(fundraiser, donation, amount) <==> (fundraiser.raised_amount + amount
            > 18_446_744_073_709_551_615 || donation.amount + amount > 18_446_744_073_709_551_615),
        !donation_overflows(fundraiser, donation, amount) ==> ({
            let f = fundraiser_after_donation(fundraiser, amount);
            let d = donation_after_donation(donation, accounts, now, amount);
            &&& f.raised_amount == fundraiser.raised_amount + amount
            &&& (f.status == FundraiserStatus::Closed <==> (fundraiser.status
                == FundraiserStatus::Closed || fundraiser.raised_amount + amount
                >= fundraiser.goal_amount))
            &&& f.creator == fundraiser.creator
            &&& f.title == fundraiser.title
            &&& f.description == fundraiser.description
            &&& f.goal_amount == fundraiser.goal_amount
            &&& f.deadline == fundraiser.deadline
            &&& f.vault == fundraiser.vault
            &&& f.bump == fundraiser.bump
            &&& f.created_at == fundraiser.created_at
            &&& d.amount == donation.amount + amount
            &&& d.fundraiser == accounts.fundraiser
            &&& d.donor == accounts.donor
            &&& d.timestamp == now
            &&& !d.refunded
        }),
{
}

} // verus!
