use vstd::prelude::*;
use crate::errors::{ErrorCode, ProgramError};
use crate::state::{Fundraiser, Pubkey, Transfer};

verus! {

/// The accounts of the instruction that pays the vault out to the creator.
#[derive(Clone, Copy, Debug, PartialEq, Eq)]
pub struct Withdraw {
    /// Who signs; it must be the fundraiser's creator.
    pub creator: Pubkey,
    /// The fundraiser whose vault is paid out.
    pub fundraiser: Pubkey,
    /// The fundraiser's vault, derived from the fundraiser.
    pub vault: Pubkey,
}

/// What the vault holds beyond the balance that keeps it rent-exempt.
pub open spec fn available_balance(vault_lamports: u64, rent_exemption: u64) -> u64 {
    if vault_lamports >= rent_exemption {
        (vault_lamports - rent_exemption) as u64
    } else {
        0
    }
}

/// The first check that a withdrawal fails, if any, in the order in which
/// the instruction makes them.
pub open spec fn withdraw_error(
    accounts: Withdraw,
    fundraiser: Fundraiser,
    vault_lamports: u64,
    rent_exemption: u64,
) -> Option<ProgramError> {
    if fundraiser.creator != accounts.creator {
        Some(ProgramError::Custom(ErrorCode::NotCreator))
    } else if available_balance(vault_lamports, rent_exemption) == 0 {
        Some(ProgramError::Custom(ErrorCode::InsufficientVaultBalance))
    } else {
        None
    }
}

/// Pays out to the creator everything the vault holds beyond its
/// rent-exempt minimum. `vault_lamports` is the vault's balance and
/// `rent_exemption` the rent-exempt minimum of an account without data. The
/// creator may do so at any time; the fundraiser's account is not changed.
pub fn withdraw(
    accounts: &Withdraw,
    fundraiser: &Fundraiser,
    vault_lamports: u64,
    rent_exemption: u64,
) -> (result: Result<Transfer, ProgramError>)
    ensures
        match result {
            Ok(t) => {
                &&& withdraw_error(*accounts, *fundraiser, vault_lamports, rent_exemption) is None
                &&& t == (Transfer {
                    from: accounts.vault,
                    to: accounts.creator,
                    lamports: available_balance(vault_lamports, rent_exemption),
                })
                &&& t.lamports + rent_exemption == vault_lamports
            },
            Err(e) => withdraw_error(*accounts, *fundraiser, vault_lamports, rent_exemption) == Some(
                e,
            ),
        },
{
    if !fundraiser.creator.same_as(&accounts.creator) {
        return Err(ProgramError::Custom(ErrorCode::NotCreator));
    }
    let available: u64 = vault_lamports.saturating_sub(rent_exemption);
    if available == 0 {
        return Err(ProgramError::Custom(ErrorCode::InsufficientVaultBalance));
    }
    Ok(Transfer { from: accounts.vault, to: accounts.creator, lamports: available })
}


/// A withdrawal is allowed exactly when the creator asks for it and the
/// vault holds more than its rent-exempt minimum; it then pays the creator
/// everything above that minimum.
pub proof fn law_withdrawal_allowed_exactly_when_funded(
    accounts: Withdraw,
    fundraiser: Fundraiser,
    vault_lamports: u64,
    rent_exemption: u64,
)
    ensures
        withdraw_error(accounts, fundraiser, vault_lamports, rent_exemption) is None <==> (
        fundraiser.creator == accounts.creator && vault_lamports > rent_exemption),
        withdraw_error(accounts, fundraiser, vault_lamports, rent_exemption) == Some(
            ProgramError::Custom(ErrorCode::NotCreator),
        ) <==> fundraiser.creator != accounts.creator,
        withdraw_error(accounts, fundraiser, vault_lamports, rent_exemption) == Some(
            ProgramError::Custom(ErrorCode::InsufficientVaultBalance),
        ) <==> fundraiser.creator == accounts.creator && vault_lamports <= rent_exemption,
        vault_lamports > rent_exemption ==> available_balance(vault_lamports, rent_exemption)
            == vault_lamports - rent_exemption,
{
}

/// Whether a withdrawal is allowed depends on the fundraiser only through its
/// creator: not on its goal, total, status or deadline.
pub proof fn law_withdrawal_depends_only_on_creator(
    accounts: Withdraw,
    fundraiser: Fundraiser,
    other: Fundraiser,
    vault_lamports: u64,
    rent_exemption: u64,
)
    requires
        other.creator == fundraiser.creator,
    ensures
        withdraw_error(accounts, other, vault_lamports, rent_exemption) == withdraw_error(
            accounts,
            fundraiser,
            vault_lamports,
            rent_exemption,
        ),
{
}

} // verus!
