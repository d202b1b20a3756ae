//! Properties of the program that span its instructions.
use vstd::prelude::*;
use crate::errors::{ErrorCode, ProgramError};
use crate::instructions::donate::{
    donate_error, donation_after_donation, fundraiser_after_donation, Donate,
};
use crate::instructions::donate::donation_overflows;
use crate::instructions::process_refunds::{abandoned, refund_error, ProcessRefunds};
use crate::instructions::withdraw::{available_balance, withdraw_error, Withdraw};
use crate::state::{Donation, Fundraiser, FundraiserStatus, Pubkey};

verus! {

/// The sum of a sequence of amounts.
pub open spec fn sum_of(amounts: Seq<u64>) -> int
    decreases amounts.len(),
{
    if amounts.len() == 0 {
        0
    } else {
        sum_of(amounts.drop_last()) + amounts.last()
    }
}

/// The fundraiser after it has booked each of `amounts` in turn.
pub open spec fn after_donations(fundraiser: Fundraiser, amounts: Seq<u64>) -> Fundraiser
    decreases amounts.len(),
{
    if amounts.len() == 0 {
        fundraiser
    } else {
        fundraiser_after_donation(after_donations(fundraiser, amounts.drop_last()), amounts.last())
    }
}

/// The donor's record after it has booked each of `gifts` in turn, a gift
/// being a time and an amount.
pub open spec fn record_after_donations(
    donation: Donation,
    accounts: Donate,
    gifts: Seq<(i64, u64)>,
) -> Donation
    decreases gifts.len(),
{
    if gifts.len() == 0 {
        donation
    } else {
        donation_after_donation(
            record_after_donations(donation, accounts, gifts.drop_last()),
            accounts,
            gifts.last().0,
            gifts.last().1,
        )
    }
}

/// The amounts of a sequence of gifts.
pub open spec fn gift_amounts(gifts: Seq<(i64, u64)>) -> Seq<u64> {
    gifts.map_values(|g: (i64, u64)| g.1)
}

/// A sum of amounts is at least the sum of any prefix of them.
pub proof fn lemma_sum_of_prefix(amounts: Seq<u64>, n: int)
    requires
        0 <= n <= amounts.len(),
    ensures
        0 <= sum_of(amounts.take(n)) <= sum_of(amounts),
    decreases amounts.len(),
{
    if amounts.len() > 0 {
        if n == amounts.len() {
            assert(amounts.take(n) =~= amounts);
            lemma_sum_of_prefix(amounts.drop_last(), n - 1);
            assert(amounts.drop_last().take(n - 1) =~= amounts.drop_last());
        } else {
            lemma_sum_of_prefix(amounts.drop_last(), n);
            assert(amounts.drop_last().take(n) =~= amounts.take(n));
        }
    }
}

/// Booking a donation keeps a fundraiser well formed: only the total and the
/// status change, the total grows by exactly the amount given, and the
/// campaign is closed exactly when the goal has been reached.
pub proof fn law_donation_keeps_fundraiser_well_formed(fundraiser: Fundraiser, amount: u64)
    requires
        fundraiser.wf(),
        fundraiser.raised_amount + amount <= u64::MAX,
    ensures
        ({
            let after = fundraiser_after_donation(fundraiser, amount);
            &&& after.wf()
            &&& after.raised_amount == fundraiser.raised_amount + amount
            &&& (after.status == FundraiserStatus::Closed <==> after.raised_amount
                >= after.goal_amount)
            &&& after == (Fundraiser {
                raised_amount: after.raised_amount,
                status: after.status,
                ..fundraiser
            })
        }),
{
}

/// After any sequence of booked donations, a well-formed fundraiser stays well
/// formed, its total is what it had plus the sum of the donations, and it is
/// closed exactly when that total has reached the goal.
pub proof fn law_raised_amount_is_sum_of_donations(fundraiser: Fundraiser, amounts: Seq<u64>)
    requires
        fundraiser.wf(),
        fundraiser.raised_amount + sum_of(amounts) <= u64::MAX,
    ensures
        ({
            let after = after_donations(fundraiser, amounts);
            &&& after.wf()
            &&& after.raised_amount == fundraiser.raised_amount + sum_of(amounts)
            &&& (after.status == FundraiserStatus::Closed <==> fundraiser.raised_amount + sum_of(
                amounts,
            ) >= fundraiser.goal_amount)
            &&& after == (Fundraiser {
                raised_amount: after.raised_amount,
                status: after.status,
                ..fundraiser
            })
        }),
    decreases amounts.len(),
{
    if amounts.len() > 0 {
        let prefix = amounts.drop_last();
        lemma_sum_of_prefix(amounts, amounts.len() - 1);
        assert(amounts.take(amounts.len() - 1) =~= prefix);
        law_raised_amount_is_sum_of_donations(fundraiser, prefix);
        law_donation_keeps_fundraiser_well_formed(
            after_donations(fundraiser, prefix),
            amounts.last(),
        );
    }
}

/// A donor's record adds up what the donor gave: after any sequence of booked
/// gifts, its amount is what it held plus the sum of the gifts, it names the
/// fundraiser and the donor, and it is not refunded.
pub proof fn law_donor_record_sums_gifts(
    donation: Donation,
    accounts: Donate,
    gifts: Seq<(i64, u64)>,
)
    requires
        gifts.len() > 0,
        donation.amount + sum_of(gift_amounts(gifts)) <= u64::MAX,
    ensures
        ({
            let after = record_after_donations(donation, accounts, gifts);
            &&& after.amount == donation.amount + sum_of(gift_amounts(gifts))
            &&& after.fundraiser == accounts.fundraiser
            &&& after.donor == accounts.donor
            &&& after.timestamp == gifts.last().0
            &&& !after.refunded
        }),
    decreases gifts.len(),
{
    let prefix = gifts.drop_last();
    assert(gift_amounts(prefix) =~= gift_amounts(gifts).drop_last());
    assert(gift_amounts(gifts).last() == gifts.last().1);
    assert(sum_of(gift_amounts(gifts)) == sum_of(gift_amounts(prefix)) + gifts.last().1);
    lemma_sum_of_prefix(gift_amounts(gifts), gifts.len() - 1);
    assert(gift_amounts(gifts).take(gifts.len() - 1) =~= gift_amounts(gifts).drop_last());
    let before = record_after_donations(donation, accounts, prefix);
    assert(record_after_donations(donation, accounts, gifts) == donation_after_donation(
        before,
        accounts,
        gifts.last().0,
        gifts.last().1,
    ));
    if prefix.len() > 0 {
        law_donor_record_sums_gifts(donation, accounts, prefix);
    } else {
        assert(gift_amounts(prefix) =~= Seq::<u64>::empty());
        assert(sum_of(gift_amounts(prefix)) == 0);
        assert(before == donation);
    }
    assert(before.amount == donation.amount + sum_of(gift_amounts(prefix)));
    assert(before.amount + gifts.last().1 <= u64::MAX);
}

/// Once a donation brings the total to the goal, the campaign takes no
/// further donation: every later attempt at its vault is refused as not
/// active.
pub proof fn law_reaching_goal_ends_donations(
    fundraiser: Fundraiser,
    amount: u64,
    later: Donate,
    now: i64,
    later_amount: u64,
)
    requires
        fundraiser.raised_amount + amount <= u64::MAX,
        fundraiser.raised_amount + amount >= fundraiser.goal_amount,
        later.vault == fundraiser.vault,
    ensures
        donate_error(later, fundraiser_after_donation(fundraiser, amount), now, later_amount)
            == Some(ProgramError::Custom(ErrorCode::CampaignNotActive)),
{
}

/// Donations and refunds never overlap in time: at no moment does a campaign
/// both take donations (its deadline is still ahead) and count as abandoned.
pub proof fn law_donations_end_before_refunds_begin(fundraiser: Fundraiser, now: i64)
    requires
    ensures
        !(now < fundraiser.deadline && abandoned(fundraiser.deadline, now)),
{
}

/// A donation is refunded at most once: after a refund succeeds, any later
/// refund of the same record, on any vault balance, is refused as already
/// refunded.
pub proof fn law_refund_at_most_once(
    accounts: ProcessRefunds,
    fundraiser: Fundraiser,
    donation: Donation,
    donor: Pubkey,
    now: i64,
    vault_lamports: u64,
    rent_exemption: u64,
    later_donor: Pubkey,
    later_now: i64,
    later_vault_lamports: u64,
    later_rent_exemption: u64,
)
    requires
        refund_error(accounts, fundraiser, donation, donor, now, vault_lamports, rent_exemption) is None,
        now <= later_now,
    ensures
        refund_error(
            accounts,
            fundraiser,
            Donation { refunded: true, ..donation },
            later_donor,
            later_now,
            later_vault_lamports,
            later_rent_exemption,
        ) == Some(ProgramError::Custom(ErrorCode::AlreadyRefunded)),
{
}

/// A withdrawal leaves nothing to refund: once the creator has been paid
/// out, the vault holds only its rent-exempt minimum, and a refund of any
/// donation with a positive amount, otherwise due, is refused for want of
/// funds.
pub proof fn law_withdrawal_leaves_nothing_to_refund(
    withdraw_accounts: Withdraw,
    refund_accounts: ProcessRefunds,
    fundraiser: Fundraiser,
    donation: Donation,
    donor: Pubkey,
    now: i64,
    vault_lamports: u64,
    rent_exemption: u64,
)
    requires
        withdraw_error(withdraw_accounts, fundraiser, vault_lamports, rent_exemption) is None,
        donation.fundraiser == refund_accounts.fundraiser,
        abandoned(fundraiser.deadline, now),
        !donation.refunded,
        donation.amount > 0,
    ensures
        ({
            let left: u64 = (vault_lamports - available_balance(vault_lamports, rent_exemption)) as u64;
            &&& left == rent_exemption
            &&& refund_error(refund_accounts, fundraiser, donation, donor, now, left, rent_exemption)
                == Some(ProgramError::Custom(ErrorCode::InsufficientVaultBalance))
        }),
{
}

/// A refund pays the recorded donor: a refund that passes its checks goes to
/// the donor that the record names, for a record of that fundraiser that has
/// not been refunded yet.
pub proof fn law_refund_pays_the_recorded_donor(
    accounts: ProcessRefunds,
    fundraiser: Fundraiser,
    donation: Donation,
    donor: Pubkey,
    now: i64,
    vault_lamports: u64,
    rent_exemption: u64,
)
    requires
        refund_error(accounts, fundraiser, donation, donor, now, vault_lamports, rent_exemption) is None,
    ensures
        accounts.donor_account == donation.donor,
        donor == donation.donor,
        donation.fundraiser == accounts.fundraiser,
        !donation.refunded,
{
}

/// The creator may withdraw at any time: whether a withdrawal is allowed
/// depends neither on the campaign's status, nor on its deadline, nor on what
/// it has raised.
pub proof fn law_withdraw_at_any_time(
    accounts: Withdraw,
    fundraiser: Fundraiser,
    vault_lamports: u64,
    rent_exemption: u64,
    status: FundraiserStatus,
    deadline: i64,
    raised_amount: u64,
)
    ensures
        withdraw_error(
            accounts,
            Fundraiser { status, deadline, raised_amount, ..fundraiser },
            vault_lamports,
            rent_exemption,
        ) == withdraw_error(accounts, fundraiser, vault_lamports, rent_exemption),
{
}

/// Only the creator is paid out: a withdrawal that passes its checks is made
/// by the fundraiser's creator.
pub proof fn law_only_creator_withdraws(
    accounts: Withdraw,
    fundraiser: Fundraiser,
    vault_lamports: u64,
    rent_exemption: u64,
)
    requires
        withdraw_error(accounts, fundraiser, vault_lamports, rent_exemption) is None,
    ensures
        accounts.creator == fundraiser.creator,
{
}

/// Donations go to the fundraiser's vault: a donation that passes its checks
/// is sent to the vault that the fundraiser records.
pub proof fn law_donations_reach_the_vault(
    accounts: Donate,
    fundraiser: Fundraiser,
    now: i64,
    amount: u64,
)
    requires
        donate_error(accounts, fundraiser, now, amount) is None,
    ensures
        accounts.vault == fundraiser.vault,
        amount > 0,
        fundraiser.status == FundraiserStatus::Active,
        now < fundraiser.deadline,
{
}

/// One instruction that touches a donor's record, as seen from that record:
/// a gift booked into it, a withdrawal by the creator (which leaves the
/// record alone), or a request to refund it.
pub enum Step {
    Give { accounts: Donate, now: i64, amount: u64 },
    Withdraw { now: i64 },
    Refund {
        accounts: ProcessRefunds,
        donor: Pubkey,
        now: i64,
        vault_lamports: u64,
        rent_exemption: u64,
    },
}

/// The clock's time at which a step runs.
pub open spec fn step_time(step: Step) -> i64 {
    match step {
        Step::Give { now, .. } => now,
        Step::Withdraw { now } => now,
        Step::Refund { now, .. } => now,
    }
}

/// The fundraiser and the record after a step, and whether the step paid a
/// refund. A step that fails changes nothing.
pub open spec fn apply_step(fundraiser: Fundraiser, donation: Donation, step: Step) -> (
    Fundraiser,
    Donation,
    bool,
) {
    match step {
        Step::Give { accounts, now, amount } => {
            if donate_error(accounts, fundraiser, now, amount) is None && !donation_overflows(
                fundraiser,
                donation,
                amount,
            ) {
                (
                    fundraiser_after_donation(fundraiser, amount),
                    donation_after_donation(donation, accounts, now, amount),
                    false,
                )
            } else {
                (fundraiser, donation, false)
            }
        },
        Step::Withdraw { .. } => (fundraiser, donation, false),
        Step::Refund { accounts, donor, now, vault_lamports, rent_exemption } => {
            if refund_error(
                accounts,
                fundraiser,
                donation,
                donor,
                now,
                vault_lamports,
                rent_exemption,
            ) is None {
                (fundraiser, Donation { refunded: true, ..donation }, true)
            } else {
                (fundraiser, donation, false)
            }
        },
    }
}

/// The fundraiser and the record after a sequence of steps, and how many of
/// them paid a refund.
pub open spec fn run_steps(fundraiser: Fundraiser, donation: Donation, steps: Seq<Step>) -> (
    Fundraiser,
    Donation,
    nat,
)
    decreases steps.len(),
{
    if steps.len() == 0 {
        (fundraiser, donation, 0)
    } else {
        let first = apply_step(fundraiser, donation, steps[0]);
        let rest = run_steps(first.0, first.1, steps.drop_first());
        (rest.0, rest.1, if first.2 {
            rest.2 + 1
        } else {
            rest.2
        })
    }
}

/// The steps run at times that never go back.
pub open spec fn times_never_go_back(steps: Seq<Step>) -> bool {
    forall|i: int, j: int| 0 <= i < j < steps.len() ==> step_time(steps[i]) <= step_time(steps[j])
}

/// Every step runs at `time` or later.
pub open spec fn all_at_or_after(steps: Seq<Step>, time: i64) -> bool {
    forall|i: int| 0 <= i < steps.len() ==> time <= step_time(#[trigger] steps[i])
}

/// Once a record is refunded after the deadline, it stays refunded and no
/// later step pays it again.
proof fn lemma_refunded_record_stays_refunded(
    fundraiser: Fundraiser,
    donation: Donation,
    steps: Seq<Step>,
    time: i64,
)
    requires
        donation.refunded,
        time >= fundraiser.deadline,
        all_at_or_after(steps, time),
    ensures
        run_steps(fundraiser, donation, steps).2 == 0,
        run_steps(fundraiser, donation, steps).1.refunded,
        run_steps(fundraiser, donation, steps).0.deadline == fundraiser.deadline,
    decreases steps.len(),
{
    if steps.len() > 0 {
        let first = apply_step(fundraiser, donation, steps[0]);
        assert(time <= step_time(steps[0]));
        assert(first.1.refunded && !first.2 && first.0.deadline == fundraiser.deadline);
        assert(all_at_or_after(steps.drop_first(), time)) by {
            assert forall|i: int| 0 <= i < steps.drop_first().len() implies time <= step_time(
                #[trigger] steps.drop_first()[i],
            ) by {
                assert(steps.drop_first()[i] == steps[i + 1]);
            }
        }
        lemma_refunded_record_stays_refunded(first.0, first.1, steps.drop_first(), time);
    }
}

/// A donation is refunded at most once over any sequence of gifts,
/// withdrawals and refund requests run at times that never go back: at most
/// one step pays it, and once one has, the record ends refunded.
pub proof fn law_refunded_at_most_once_over_any_run(
    fundraiser: Fundraiser,
    donation: Donation,
    steps: Seq<Step>,
)
    requires
        times_never_go_back(steps),
    ensures
        run_steps(fundraiser, donation, steps).2 <= 1,
        run_steps(fundraiser, donation, steps).2 == 1 ==> run_steps(fundraiser, donation, steps).1.refunded,
    decreases steps.len(),
{
    if steps.len() > 0 {
        let first = apply_step(fundraiser, donation, steps[0]);
        let rest = steps.drop_first();
        assert(first.0.deadline == fundraiser.deadline);
        assert(times_never_go_back(rest)) by {
            assert forall|i: int, j: int| 0 <= i < j < rest.len() implies step_time(rest[i])
                <= step_time(rest[j]) by {
                assert(rest[i] == steps[i + 1] && rest[j] == steps[j + 1]);
            }
        }
        if first.2 {
            let t = step_time(steps[0]);
            assert(all_at_or_after(rest, t)) by {
                assert forall|i: int| 0 <= i < rest.len() implies t <= step_time(
                    #[trigger] rest[i],
                ) by {
                    assert(rest[i] == steps[i + 1]);
                }
            }
            lemma_refunded_record_stays_refunded(first.0, first.1, rest, t);
        } else {
            law_refunded_at_most_once_over_any_run(first.0, first.1, rest);
        }
    }
}

/// What a sequence of records holds in all, a record being its address and
/// its contents.
pub open spec fn total_given(records: Seq<(Pubkey, Donation)>) -> int
    decreases records.len(),
{
    if records.len() == 0 {
        0
    } else {
        records[0].1.amount + total_given(records.drop_first())
    }
}

/// The vault's balance after refunding each record in turn, each refund
/// being asked by and paid to the record's donor; `None` where one of them is
/// refused.
pub open spec fn refund_each(
    fundraiser: Fundraiser,
    fundraiser_key: Pubkey,
    vault: Pubkey,
    records: Seq<(Pubkey, Donation)>,
    now: i64,
    vault_lamports: u64,
    rent_exemption: u64,
) -> Option<u64>
    decreases records.len(),
{
    if records.len() == 0 {
        Some(vault_lamports)
    } else {
        let (address, record) = records[0];
        let accounts = ProcessRefunds {
            fundraiser: fundraiser_key,
            vault,
            donation: address,
            donor_account: record.donor,
        };
        if refund_error(
            accounts,
            fundraiser,
            record,
            record.donor,
            now,
            vault_lamports,
            rent_exemption,
        ) is None {
            refund_each(
                fundraiser,
                fundraiser_key,
                vault,
                records.drop_first(),
                now,
                (vault_lamports - record.amount) as u64,
                rent_exemption,
            )
        } else {
            None
        }
    }
}

/// Whether every record holds more than `minimum`.
pub open spec fn all_above(records: Seq<(Pubkey, Donation)>, minimum: u64) -> bool {
    forall|i: int| 0 <= i < records.len() ==> minimum < (#[trigger] records[i]).1.amount
}

/// Whether every record belongs to the fundraiser and is not refunded.
pub open spec fn all_refundable(records: Seq<(Pubkey, Donation)>, fundraiser_key: Pubkey) -> bool {
    forall|i: int|
        0 <= i < records.len() ==> (#[trigger] records[i]).1.fundraiser == fundraiser_key
            && !records[i].1.refunded
}

/// A sum of records is at least its first record.
proof fn lemma_total_given_bounds(records: Seq<(Pubkey, Donation)>)
    ensures
        total_given(records) >= 0,
        records.len() > 0 ==> total_given(records) >= records[0].1.amount,
    decreases records.len(),
{
    if records.len() > 0 {
        lemma_total_given_bounds(records.drop_first());
    }
}

/// An abandoned campaign repays every donor: when the vault holds what the
/// unrefunded records add up to, on top of its rent-exempt minimum, or holds
/// exactly that total with every record larger than the minimum, each record
/// can be refunded in turn to its donor, and the vault ends with what it held
/// beyond the total.
pub proof fn law_abandoned_vault_repays_every_donor(
    fundraiser: Fundraiser,
    fundraiser_key: Pubkey,
    vault: Pubkey,
    records: Seq<(Pubkey, Donation)>,
    now: i64,
    vault_lamports: u64,
    rent_exemption: u64,
)
    requires
        abandoned(fundraiser.deadline, now),
        all_refundable(records, fundraiser_key),
        vault_lamports >= total_given(records) + rent_exemption || (vault_lamports == total_given(
            records,
        ) && all_above(records, rent_exemption)),
    ensures
        refund_each(fundraiser, fundraiser_key, vault, records, now, vault_lamports, rent_exemption)
            == Some((vault_lamports - total_given(records)) as u64),
    decreases records.len(),
{
    lemma_total_given_bounds(records);
    if records.len() > 0 {
        let rest = records.drop_first();
        let record = records[0].1;
        lemma_total_given_bounds(rest);
        assert(all_refundable(rest, fundraiser_key)) by {
            assert forall|i: int| 0 <= i < rest.len() implies (#[trigger] rest[i]).1.fundraiser
                == fundraiser_key && !rest[i].1.refunded by {
                assert(rest[i] == records[i + 1]);
            }
        }
        assert(all_above(records, rent_exemption) ==> all_above(rest, rent_exemption)) by {
            if all_above(records, rent_exemption) {
                assert forall|i: int| 0 <= i < rest.len() implies rent_exemption < (
                #[trigger] rest[i]).1.amount by {
                    assert(rest[i] == records[i + 1]);
                }
            }
        }
        assert(all_refundable(records, fundraiser_key) ==> records[0].1.fundraiser == fundraiser_key
            && !records[0].1.refunded);
        if rest.len() > 0 && all_above(records, rent_exemption) {
            assert(rent_exemption < records[1].1.amount);
            assert(rest[0] == records[1]);
        }
        law_abandoned_vault_repays_every_donor(
            fundraiser,
            fundraiser_key,
            vault,
            rest,
            now,
            (vault_lamports - record.amount) as u64,
            rent_exemption,
        );
    }
}

} // verus!
