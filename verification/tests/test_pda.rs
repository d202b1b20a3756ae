use gofundme::pda::{donation_address, fundraiser_address, initialize_fundraiser_accounts, vault_address};
use gofundme::state::Pubkey;

fn key(n: u8) -> Pubkey {
    Pubkey::new_from_array([n; 32])
}

fn runtime_key(key: &Pubkey) -> anchor_lang::prelude::Pubkey {
    anchor_lang::prelude::Pubkey::new_from_array(key.to_bytes())
}

fn program_id() -> Pubkey {
    Pubkey::new_from_array(
        anchor_lang::prelude::Pubkey::from_str_const("DqFsjUeJduCUGx9PiGAdTgReRyU1oRfEX5jMctXcHCC8").to_bytes(),
    )
}

#[test]
fn fundraiser_address_matches_the_runtime_derivation() {
    let creator = key(7);
    for index in [0u8, 1, 255] {
        let (address, bump) = fundraiser_address(&program_id(), &creator, index).expect("an address exists");
        let (expected, expected_bump) = anchor_lang::prelude::Pubkey::find_program_address(
            &[b"fundraiser", runtime_key(&creator).as_ref(), index.to_le_bytes().as_ref()],
            &runtime_key(&program_id()),
        );
        assert_eq!(address.to_bytes(), expected.to_bytes());
        assert_eq!(bump, expected_bump);
        assert_ne!(address, creator);
        assert_ne!(address, program_id());
    }
    let first = fundraiser_address(&program_id(), &creator, 0).unwrap().0;
    let second = fundraiser_address(&program_id(), &creator, 1).unwrap().0;
    assert_ne!(first, second);
}

#[test]
fn vault_and_donation_addresses_match_the_runtime_derivation() {
    let fundraiser = key(9);
    let donor = key(11);
    let (vault, vault_bump) = vault_address(&program_id(), &fundraiser).unwrap();
    let (expected, expected_bump) = anchor_lang::prelude::Pubkey::find_program_address(
        &[b"vault", runtime_key(&fundraiser).as_ref()],
        &runtime_key(&program_id()),
    );
    assert_eq!(vault.to_bytes(), expected.to_bytes());
    assert_eq!(vault_bump, expected_bump);

    let (record, record_bump) = donation_address(&program_id(), &fundraiser, &donor).unwrap();
    let (expected, expected_bump) = anchor_lang::prelude::Pubkey::find_program_address(
        &[b"donation", runtime_key(&fundraiser).as_ref(), runtime_key(&donor).as_ref()],
        &runtime_key(&program_id()),
    );
    assert_eq!(record.to_bytes(), expected.to_bytes());
    assert_eq!(record_bump, expected_bump);
    assert_ne!(record, donor);
}

#[test]
fn initialize_accounts_chain_the_derivations() {
    let creator = key(3);
    let accounts = initialize_fundraiser_accounts(&program_id(), &creator, 4).unwrap();
    let (fundraiser, bump) = fundraiser_address(&program_id(), &creator, 4).unwrap();
    assert_eq!(accounts.creator, creator);
    assert_eq!(accounts.fundraiser, fundraiser);
    assert_eq!(accounts.fundraiser_bump, bump);
    assert_eq!(accounts.vault, vault_address(&program_id(), &fundraiser).unwrap().0);
}
