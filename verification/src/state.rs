use vstd::prelude::*;
use crate::constants::{MAX_DESCRIPTION_LENGTH, MAX_DURATION, MAX_TITLE_LENGTH, MIN_DURATION, MIN_GOAL_AMOUNT};

verus! {

/// The 32-byte address of an account.
#[derive(Clone, Copy, Debug, PartialEq, Eq, Hash)]
pub struct Pubkey {
    pub bytes: [u8; 32],
}

impl View for Pubkey {
    type V = Seq<u8>;

    open spec fn view(&self) -> Seq<u8> {
        self.bytes@
    }
}

impl DeepView for Pubkey {
    type V = Seq<u8>;

    open spec fn deep_view(&self) -> Seq<u8> {
        self.bytes@
    }
}

impl Pubkey {
    /// The key whose bytes are `bytes`.
    pub fn new_from_array(bytes: [u8; 32]) -> (key: Pubkey)
        ensures
            key.bytes == bytes,
    {
        Pubkey { bytes }
    }

    /// The bytes of the key.
    pub fn to_bytes(&self) -> (bytes: [u8; 32])
        ensures
            bytes == self.bytes,
    {
        self.bytes
    }

    /// Whether two keys are the same address.
    pub fn same_as(&self, other: &Pubkey) -> (same: bool)
        ensures
            same == (*self == *other),
    {
        let mut i: usize = 0;
        while i < 32
            invariant
                0 <= i <= 32,
                forall|j: int| 0 <= j < i ==> self.bytes[j] == other.bytes[j],
            decreases 32 - i,
        {
            if self.bytes[i] != other.bytes[i] {
                return false;
            }
            i = i + 1;
        }
        proof {
            assert(self.bytes@ =~= other.bytes@);
            vstd::array::axiom_array_ext_equal(self.bytes, other.bytes);
        }
        true
    }
}

/// Whether a fundraiser still takes donations.
#[derive(Clone, Copy, Debug, PartialEq, Eq, Structural)]
pub enum FundraiserStatus {
    Active,
    Closed,
}

/// A fundraiser account.
#[derive(Clone, Debug, PartialEq, Eq)]
pub struct Fundraiser {
    pub creator: Pubkey,
    pub title: String,
    pub description: String,
    pub goal_amount: u64,
    pub deadline: i64,
    pub raised_amount: u64,
    pub status: FundraiserStatus,
    pub vault: Pubkey,
    pub bump: u8,
    pub created_at: i64,
}

/// A donor's record of what it gave to one fundraiser.
#[derive(Clone, Copy, Debug, PartialEq, Eq)]
pub struct Donation {
    pub fundraiser: Pubkey,
    pub donor: Pubkey,
    pub amount: u64,
    pub timestamp: i64,
    pub refunded: bool,
}

/// A movement of `lamports` from the account `from` to the account `to`,
/// which an instruction asks the runtime to perform.
#[derive(Clone, Copy, Debug, PartialEq, Eq)]
pub struct Transfer {
    pub from: Pubkey,
    pub to: Pubkey,
    pub lamports: u64,
}

/// A title is not empty and at most `MAX_TITLE_LENGTH` characters long.
pub open spec fn valid_title(title: Seq<char>) -> bool {
    1 <= title.len() <= MAX_TITLE_LENGTH
}

/// A description is not empty and at most `MAX_DESCRIPTION_LENGTH` characters
/// long.
pub open spec fn valid_description(description: Seq<char>) -> bool {
    1 <= description.len() <= MAX_DESCRIPTION_LENGTH
}

/// A campaign from `start` to `deadline` lasts from `MIN_DURATION` to
/// `MAX_DURATION` seconds.
pub open spec fn valid_duration(start: int, deadline: int) -> bool {
    MIN_DURATION <= deadline - start <= MAX_DURATION
}

impl Fundraiser {
    /// What holds of every fundraiser that the program creates, and what every
    /// instruction keeps: the fields fixed at creation passed their checks, and
    /// the campaign is closed exactly when the goal has been reached.
    pub open spec fn wf(self) -> bool {
        &&& valid_title(self.title@)
        &&& valid_description(self.description@)
        &&& self.goal_amount >= MIN_GOAL_AMOUNT
        &&& valid_duration(self.created_at as int, self.deadline as int)
        &&& (self.status == FundraiserStatus::Closed <==> self.raised_amount >= self.goal_amount)
    }
}

impl Donation {
    /// The record of a donor that has not given anything yet: every field
    /// zero, as a freshly created account reads.
    pub fn empty() -> (d: Donation)
        ensures
            d.fundraiser.bytes@ == Seq::new(32, |i: int| 0u8),
            d.donor.bytes@ == Seq::new(32, |i: int| 0u8),
            d.amount == 0,
            d.timestamp == 0,
            !d.refunded,
    {
        let zero = Pubkey { bytes: [0u8; 32] };
        proof {
            assert(zero.bytes@ =~= Seq::new(32, |i: int| 0u8));
        }
        Donation { fundraiser: zero, donor: zero, amount: 0, timestamp: 0, refunded: false }
    }
}

} // verus!
