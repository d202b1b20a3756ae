//! The addresses of the program's accounts, which the runtime derives from
//! seeds and the program's own address.
use vstd::prelude::*;
use vstd::utf8::encode_utf8;
use crate::instructions::initialize_fundraiser::InitializeFundraiser;
use crate::state::Pubkey;

verus! {

/// The address, with its bump seed, that `Pubkey::try_find_program_address`
/// derives from `seeds` for the program at `program_id`; `None` where no bump
/// seed gives an address off the curve, or the seeds are too many or too long.
pub uninterp spec fn program_address(seeds: Seq<Seq<u8>>, program_id: Seq<u8>) -> Option<(Seq<u8>, u8)>;

/// Calls anchor_lang's `Pubkey::try_find_program_address` (of the
/// solana-address crate) on `seeds` and `program_id`. The contract claims
/// only that its result is a function of those arguments alone, by the name
/// `program_address`; what that function is (a hash of the seeds, the
/// program's address and a bump seed, tried from 255 down until it is off the
/// ed25519 curve) is not stated.
#[verifier::external_body]
fn try_find_program_address(seeds: &Vec<Vec<u8>>, program_id: &Pubkey) -> (found: Option<(Pubkey, u8)>)
    ensures
        found.deep_view() == program_address(seeds.deep_view(), program_id@),
{
    let seed_slices: Vec<&[u8]> = seeds.iter().map(|seed| seed.as_slice()).collect();
    let program = anchor_lang::prelude::Pubkey::new_from_array(program_id.bytes);
    match anchor_lang::prelude::Pubkey::try_find_program_address(&seed_slices, &program) {
        Some((address, bump)) => Some((Pubkey { bytes: address.to_bytes() }, bump)),
        None => None,
    }
}

/// The seeds of a fundraiser's address: the word `fundraiser`, its creator's
/// key and its index.
pub open spec fn fundraiser_seeds(creator: Seq<u8>, fundraiser_index: u8) -> Seq<Seq<u8>> {
    seq![encode_utf8("fundraiser"@), creator, seq![fundraiser_index]]
}

/// The seeds of a vault's address: the word `vault` and its fundraiser's key.
pub open spec fn vault_seeds(fundraiser: Seq<u8>) -> Seq<Seq<u8>> {
    seq![encode_utf8("vault"@), fundraiser]
}

/// The seeds of a donation record's address: the word `donation`, its
/// fundraiser's key and its donor's key.
pub open spec fn donation_seeds(fundraiser: Seq<u8>, donor: Seq<u8>) -> Seq<Seq<u8>> {
    seq![encode_utf8("donation"@), fundraiser, donor]
}

/// A vector of bytes is deeply viewed as its bytes.
proof fn lemma_bytes_deep_view(bytes: Vec<u8>)
    ensures
        bytes.deep_view() == bytes@,
{
    assert(bytes.deep_view() =~= bytes@);
}

/// The bytes of a key, as a seed.
fn key_seed(key: &Pubkey) -> (seed: Vec<u8>)
    ensures
        seed@ == key@,
{
    vstd::slice::slice_to_vec(key.bytes.as_slice())
}

/// The bytes of a word, as a seed.
fn word_seed(word: &str) -> (seed: Vec<u8>)
    ensures
        seed@ == encode_utf8(word@),
{
    vstd::slice::slice_to_vec(word.as_bytes())
}

/// The address and bump seed of the fundraiser with this index of `creator`.
pub fn fundraiser_address(program_id: &Pubkey, creator: &Pubkey, fundraiser_index: u8) -> (found: Option<
    (Pubkey, u8),
>)
    ensures
        found.deep_view() == program_address(fundraiser_seeds(creator@, fundraiser_index), program_id@),
{
    let mut seeds: Vec<Vec<u8>> = Vec::new();
    seeds.push(word_seed("fundraiser"));
    seeds.push(key_seed(creator));
    let mut index_seed: Vec<u8> = Vec::new();
    index_seed.push(fundraiser_index);
    seeds.push(index_seed);
    proof {
        lemma_bytes_deep_view(seeds@[0]);
        lemma_bytes_deep_view(seeds@[1]);
        lemma_bytes_deep_view(seeds@[2]);
        assert(seeds.deep_view() =~= fundraiser_seeds(creator@, fundraiser_index));
    }
    try_find_program_address(&seeds, program_id)
}

/// The address and bump seed of the vault of the fundraiser at `fundraiser`.
pub fn vault_address(program_id: &Pubkey, fundraiser: &Pubkey) -> (found: Option<(Pubkey, u8)>)
    ensures
        found.deep_view() == program_address(vault_seeds(fundraiser@), program_id@),
{
    let mut seeds: Vec<Vec<u8>> = Vec::new();
    seeds.push(word_seed("vault"));
    seeds.push(key_seed(fundraiser));
    proof {
        lemma_bytes_deep_view(seeds@[0]);
        lemma_bytes_deep_view(seeds@[1]);
        assert(seeds.deep_view() =~= vault_seeds(fundraiser@));
    }
    try_find_program_address(&seeds, program_id)
}

/// The address and bump seed of the record of `donor`'s gifts to the
/// fundraiser at `fundraiser`.
pub fn donation_address(program_id: &Pubkey, fundraiser: &Pubkey, donor: &Pubkey) -> (found: Option<
    (Pubkey, u8),
>)
    ensures
        found.deep_view() == program_address(donation_seeds(fundraiser@, donor@), program_id@),
{
    let mut seeds: Vec<Vec<u8>> = Vec::new();
    seeds.push(word_seed("donation"));
    seeds.push(key_seed(fundraiser));
    seeds.push(key_seed(donor));
    proof {
        lemma_bytes_deep_view(seeds@[0]);
        lemma_bytes_deep_view(seeds@[1]);
        lemma_bytes_deep_view(seeds@[2]);
        assert(seeds.deep_view() =~= donation_seeds(fundraiser@, donor@));
    }
    try_find_program_address(&seeds, program_id)
}

/// The accounts that creating the fundraiser with this index of `creator`
/// takes: the fundraiser at its derived address with that address's bump
/// seed, and the vault at the address derived from the fundraiser's. `None`
/// where either address cannot be derived.
pub fn initialize_fundraiser_accounts(
    program_id: &Pubkey,
    creator: &Pubkey,
    fundraiser_index: u8,
) -> (accounts: Option<InitializeFundraiser>)
    ensures
        match accounts {
            Some(a) => {
                &&& a.creator == *creator
                &&& program_address(fundraiser_seeds(creator@, fundraiser_index), program_id@)
                    == Some((a.fundraiser@, a.fundraiser_bump))
                &&& program_address(vault_seeds(a.fundraiser@), program_id@) matches Some(v)
                &&& v.0 == a.vault@
            },
            None => match program_address(fundraiser_seeds(creator@, fundraiser_index), program_id@) {
                Some(f) => program_address(vault_seeds(f.0), program_id@) is None,
                None => true,
            },
        },
{
    let (fundraiser, fundraiser_bump): (Pubkey, u8) = match fundraiser_address(program_id, creator, fundraiser_index) {
        Some(found) => found,
        None => {
            return None;
        },
    };
    let (vault, _vault_bump): (Pubkey, u8) = match vault_address(program_id, &fundraiser) {
        Some(found) => found,
        None => {
            return None;
        },
    };
    Some(InitializeFundraiser { creator: *creator, fundraiser, vault, fundraiser_bump })
}


/// The seed words are the ASCII bytes of `fundraiser`, `vault` and
/// `donation`.
pub proof fn law_seed_words_are_ascii_bytes()
    ensures
        encode_utf8("fundraiser"@) == seq![102u8, 117u8, 110u8, 100u8, 114u8, 97u8, 105u8, 115u8, 101u8, 114u8],
        encode_utf8("vault"@) == seq![118u8, 97u8, 117u8, 108u8, 116u8],
        encode_utf8("donation"@) == seq![100u8, 111u8, 110u8, 97u8, 116u8, 105u8, 111u8, 110u8],
{
    reveal_strlit("fundraiser");
    reveal_strlit("vault");
    reveal_strlit("donation");
    let words = seq!["fundraiser"@, "vault"@, "donation"@];
    assert forall|w: int| 0 <= w < 3 implies vstd::utf8::is_ascii_chars(#[trigger] words[w]) by {
        assert forall|i: int| 0 <= i < words[w].len() implies '\0' <= #[trigger] words[w][i]
            <= '\u{7f}' by {}
    }
    vstd::utf8::is_ascii_chars_encode_utf8(words[0]);
    vstd::utf8::is_ascii_chars_encode_utf8(words[1]);
    vstd::utf8::is_ascii_chars_encode_utf8(words[2]);
    assert(encode_utf8("fundraiser"@) =~= seq![102u8, 117u8, 110u8, 100u8, 114u8, 97u8, 105u8, 115u8, 101u8, 114u8]);
    assert(encode_utf8("vault"@) =~= seq![118u8, 97u8, 117u8, 108u8, 116u8]);
    assert(encode_utf8("donation"@) =~= seq![100u8, 111u8, 110u8, 97u8, 116u8, 105u8, 111u8, 110u8]);
}

} // verus!
