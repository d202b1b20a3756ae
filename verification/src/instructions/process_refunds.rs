use vstd::prelude::*;
use crate::constants::ABANDONMENT_PERIOD;
use crate::errors::{ErrorCode, ProgramError};
use crate::instructions::withdraw::available_balance;
use crate::state::{Donation, Fundraiser, Pubkey, Transfer};

verus! {

/// The accounts of the instruction that refunds a donation.
#[derive(Clone, Copy, Debug, PartialEq, Eq)]
pub struct ProcessRefunds {
    /// The fundraiser that the donation went to.
    pub fundraiser: Pubkey,
    /// The fundraiser's vault, derived from the fundraiser.
    pub vault: Pubkey,
    /// The donation record, derived from the fundraiser and the donor.
    pub donation: Pubkey,
    /// The account that receives the refund; it must be the donor's.
    pub donor_account: Pubkey,
}

/// Whether a campaign with this deadline counts as abandoned at time `now`:
/// more than `ABANDONMENT_PERIOD` seconds have passed since the deadline.
pub open spec fn abandoned(deadline: i64, now: i64) -> bool {
    now > deadline + ABANDONMENT_PERIOD
}

/// Whether the vault can pay `amount`: the vault keeps at least its
/// rent-exempt minimum afterwards, or the vault holds exactly this amount and
/// more than that minimum, so that the last donor of a vault that was never
/// topped up is repaid in full by emptying it.
pub open spec fn refund_fits(vault_lamports: u64, rent_exemption: u64, amount: u64) -> bool {
    available_balance(vault_lamports, rent_exemption) >= amount || (amount == vault_lamports
        && vault_lamports > rent_exemption)
}

/// The first check that a refund fails, if any, in the order in which the
/// instruction makes them.
pub open spec fn refund_error(
    accounts: ProcessRefunds,
    fundraiser: Fundraiser,
    donation: Donation,
    donor: Pubkey,
    now: i64,
    vault_lamports: u64,
    rent_exemption: u64,
) -> Option<ProgramError> {
    if donation.fundraiser != accounts.fundraiser {
        Some(ProgramError::ConstraintHasOne)
    } else if !abandoned(fundraiser.deadline, now) {
        Some(ProgramError::Custom(ErrorCode::NotAbandoned))
    } else if donation.refunded {
        Some(ProgramError::Custom(ErrorCode::AlreadyRefunded))
    } else if !refund_fits(vault_lamports, rent_exemption, donation.amount) {
        Some(ProgramError::Custom(ErrorCode::InsufficientVaultBalance))
    } else if donation.donor != donor || accounts.donor_account != donation.donor {
        Some(ProgramError::Custom(ErrorCode::InvalidDonor))
    } else {
        None
    }
}

/// Gives a donation back once its campaign is abandoned: at time `now`, with
/// the vault holding `vault_lamports` and `rent_exemption` the rent-exempt
/// minimum of an account without data. The vault must keep that minimum
/// unless it holds exactly this donation, more than the minimum, and the
/// refund empties it; and the receiving account must be the donor
/// that the record names. On success marks the donation as refunded and
/// returns the transfer of its amount from the vault to the donor; on failure
/// changes nothing. Anyone may ask for it.
pub fn process_refunds(
    accounts: &ProcessRefunds,
    fundraiser: &Fundraiser,
    donation: &mut Donation,
    donor: Pubkey,
    now: i64,
    vault_lamports: u64,
    rent_exemption: u64,
) -> (result: Result<Transfer, ProgramError>)
    ensures
        match result {
            Ok(t) => {
                &&& refund_error(
                    *accounts,
                    *fundraiser,
                    *old(donation),
                    donor,
                    now,
                    vault_lamports,
                    rent_exemption,
                ) is None
                &&& t == (Transfer {
                    from: accounts.vault,
                    to: accounts.donor_account,
                    lamports: old(donation).amount,
                })
                &&& t.to == old(donation).donor
                &&& t.lamports <= vault_lamports
                &&& t.lamports > 0 ==> (t.lamports == vault_lamports || t.lamports + rent_exemption
                    <= vault_lamports)
                &&& *final(donation) == (Donation { refunded: true, ..*old(donation) })
            },
            Err(e) => {
                &&& refund_error(
                    *accounts,
                    *fundraiser,
                    *old(donation),
                    donor,
                    now,
                    vault_lamports,
                    rent_exemption,
                ) == Some(e)
                &&& *final(donation) == *old(donation)
            },
        },
{
    if !donation.fundraiser.same_as(&accounts.fundraiser) {
        return Err(ProgramError::ConstraintHasOne);
    }
    // A deadline so late that the abandonment time is past the clock's range
    // is never abandoned.
    if fundraiser.deadline > i64::MAX - ABANDONMENT_PERIOD || now <= fundraiser.deadline
        + ABANDONMENT_PERIOD {
        return Err(ProgramError::Custom(ErrorCode::NotAbandoned));
    }
    if donation.refunded {
        return Err(ProgramError::Custom(ErrorCode::AlreadyRefunded));
    }
    let available: u64 = vault_lamports.saturating_sub(rent_exemption);
    if available < donation.amount && !(donation.amount == vault_lamports && vault_lamports
        > rent_exemption) {
        return Err(ProgramError::Custom(ErrorCode::InsufficientVaultBalance));
    }
    if !donation.donor.same_as(&donor) || !accounts.donor_account.same_as(&donation.donor) {
        return Err(ProgramError::Custom(ErrorCode::InvalidDonor));
    }
    donation.refunded = true;
    Ok(Transfer { from: accounts.vault, to: accounts.donor_account, lamports: donation.amount })
}


/// A refund is made exactly when the record belongs to the fundraiser, more
/// than seven days have passed since the deadline, the record is not yet
/// refunded, the vault can pay it (the amount is zero, or the vault keeps its
/// rent-exempt minimum, or it holds exactly this amount and more than the
/// minimum), and both the
/// requested donor and the receiving account are the record's donor.
pub proof fn law_refund_made_exactly_when_due(
    accounts: ProcessRefunds,
    fundraiser: Fundraiser,
    donation: Donation,
    donor: Pubkey,
    now: i64,
    vault_lamports: u64,
    rent_exemption: u64,
)
    ensures
        refund_error(accounts, fundraiser, donation, donor, now, vault_lamports, rent_exemption)
            is None <==> {
            &&& donation.fundraiser == accounts.fundraiser
            &&& now > fundraiser.deadline + 7 * 86_400
            &&& !donation.refunded
            &&& (donation.amount == 0 || donation.amount + rent_exemption <= vault_lamports || (
            donation.amount == vault_lamports && vault_lamports > rent_exemption))
            &&& donation.donor == donor
            &&& accounts.donor_account == donation.donor
        },
{
    assert(ABANDONMENT_PERIOD == 7 * 86_400);
    if vault_lamports >= rent_exemption {
        assert(available_balance(vault_lamports, rent_exemption) == vault_lamports - rent_exemption);
    } else {
        assert(available_balance(vault_lamports, rent_exemption) == 0);
    }
}

/// Each refusal of a refund names the first rule it breaks, in the order
/// record of another fundraiser, not yet abandoned, already refunded, vault
/// short, donor mismatch.
pub proof fn law_refund_refusals(
    accounts: ProcessRefunds,
    fundraiser: Fundraiser,
    donation: Donation,
    donor: Pubkey,
    now: i64,
    vault_lamports: u64,
    rent_exemption: u64,
)
    ensures
        refund_error(accounts, fundraiser, donation, donor, now, vault_lamports, rent_exemption)
            == Some(ProgramError::ConstraintHasOne) <==> donation.fundraiser != accounts.fundraiser,
        refund_error(accounts, fundraiser, donation, donor, now, vault_lamports, rent_exemption)
            == Some(ProgramError::Custom(ErrorCode::NotAbandoned)) <==> donation.fundraiser
            == accounts.fundraiser && now <= fundraiser.deadline + 7 * 86_400,
        refund_error(accounts, fundraiser, donation, donor, now, vault_lamports, rent_exemption)
            == Some(ProgramError::Custom(ErrorCode::AlreadyRefunded)) <==> donation.fundraiser
            == accounts.fundraiser && now > fundraiser.deadline + 7 * 86_400 && donation.refunded,
        refund_error(accounts, fundraiser, donation, donor, now, vault_lamports, rent_exemption)
            == Some(ProgramError::Custom(ErrorCode::InvalidDonor)) ==> donation.donor != donor
            || accounts.donor_account != donation.donor,
{
}

} // verus!
