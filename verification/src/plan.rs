use vstd::prelude::*;

use vstd::arithmetic::div_mod::lemma_basic_div;
use vstd::arithmetic::div_mod::lemma_div_pos_is_pos;
use vstd::arithmetic::div_mod::lemma_fundamental_div_mod;
use vstd::arithmetic::div_mod::lemma_mod_bound;

use crate::account::AccountId;
use crate::account::Balance;
use crate::errors::Error;

verus! {

/// One entry of a payout plan: the amount owed to one payee. A plan is
/// produced fresh on every calculation and is never persisted.
#[derive(Clone, Copy, Debug, PartialEq, Eq, Structural)]
pub struct PayoutInfo {
    pub payee: AccountId,
    pub amount: Balance,
}

/// The equal share: the balance divided by the payee count, rounded down.
pub open spec fn spec_share(balance: Balance, num_payees: int) -> int
    recommends
        num_payees >= 1,
{
    balance as int / num_payees
}

/// What is left once every payee is owed the equal share; always smaller
/// than the payee count.
pub open spec fn spec_remainder(balance: Balance, num_payees: int) -> int
    recommends
        num_payees >= 1,
{
    balance as int % num_payees
}

/// The amount owed to the payee at position `i`: the equal share, plus the
/// whole remainder when `i` is the first position. Assigning the entire
/// remainder to the first payee is deliberate, auditable policy.
pub open spec fn spec_amount(balance: Balance, num_payees: int, i: int) -> int
    recommends
        num_payees >= 1,
{
    if i == 0 {
        spec_share(balance, num_payees) + spec_remainder(balance, num_payees)
    } else {
        spec_share(balance, num_payees)
    }
}

/// The payout plan for a balance over an ordered payee list: one entry per
/// payee, in payee order.
pub open spec fn spec_plan(payees: Seq<AccountId>, balance: Balance) -> Seq<PayoutInfo>
    recommends
        payees.len() >= 1,
{
    Seq::new(
        payees.len(),
        |i: int|
            PayoutInfo {
                payee: payees[i],
                amount: spec_amount(balance, payees.len() as int, i) as Balance,
            },
    )
}

/// What the calculator returns on every input: the plan when there is at
/// least one payee and the balance gives each payee at least one unit, and
/// the exact error otherwise.
pub open spec fn spec_calculate(payees: Seq<AccountId>, balance: Balance) -> Result<
    Seq<PayoutInfo>,
    Error,
> {
    if payees.len() == 0 {
        Err(Error::NoPayees)
    } else if balance == 0 {
        Err(Error::ZeroShare)
    } else if spec_share(balance, payees.len() as int) == 0 {
        Err(Error::ZeroShare)
    } else {
        Ok(spec_plan(payees, balance))
    }
}

/// A calculator result with its planned entries viewed as a sequence.
pub open spec fn plan_view(r: Result<Vec<PayoutInfo>, Error>) -> Result<Seq<PayoutInfo>, Error> {
    match r {
        Ok(plan) => Ok(plan@),
        Err(e) => Err(e),
    }
}

/// The total value a plan promises to move.
pub open spec fn sum_amounts(plan: Seq<PayoutInfo>) -> int
    decreases plan.len(),
{
    if plan.len() == 0 {
        0
    } else {
        plan[0].amount + sum_amounts(plan.drop_first())
    }
}

/// The first payee's amount can never overflow the balance width: the
/// equal share plus the remainder is at most the balance itself.
pub proof fn lemma_first_amount_fits(balance: Balance, num_payees: int)
    requires
        num_payees >= 1,
    ensures
        0 <= spec_share(balance, num_payees) + spec_remainder(balance, num_payees) <= balance,
{
    let b = balance as int;
    let q = spec_share(balance, num_payees);
    let rem = spec_remainder(balance, num_payees);
    lemma_div_pos_is_pos(b, num_payees);
    lemma_mod_bound(b, num_payees);
    lemma_fundamental_div_mod(b, num_payees);
    assert(num_payees * q >= q) by (nonlinear_arith)
        requires
            num_payees >= 1,
            q >= 0,
    ;
}

/// A plan whose entries all owe the same amount sums to the entry count
/// times that amount.
proof fn lemma_sum_amounts_all_equal(plan: Seq<PayoutInfo>, amount: int)
    requires
        forall|i: int| 0 <= i < plan.len() ==> plan[i].amount == amount,
    ensures
        sum_amounts(plan) == plan.len() * amount,
    decreases plan.len(),
{
    if plan.len() == 0 {
    } else {
        let rest = plan.drop_first();
        assert forall|i: int| 0 <= i < rest.len() implies rest[i].amount == amount by {
            assert(rest[i] == plan[i + 1]);
        }
        lemma_sum_amounts_all_equal(rest, amount);
        assert((plan.len() - 1) * amount + amount == plan.len() * amount) by (nonlinear_arith);
    }
}

/// The partition law: for a non-empty payee list the plan has one entry
/// per payee in payee order, the first payee is owed the equal share plus
/// the whole remainder, every other payee exactly the equal share, and the
/// amounts sum to the balance — no value is created or destroyed by
/// rounding. When the balance also gives every payee at least one unit,
/// the calculator returns exactly this plan.
pub proof fn lemma_plan_partitions_balance(payees: Seq<AccountId>, balance: Balance)
    requires
        payees.len() >= 1,
    ensures
        spec_plan(payees, balance).len() == payees.len(),
        forall|i: int|
            0 <= i < payees.len() ==> spec_plan(payees, balance)[i].payee == payees[i],
        spec_plan(payees, balance)[0].amount == spec_share(balance, payees.len() as int)
            + spec_remainder(balance, payees.len() as int),
        forall|i: int|
            1 <= i < payees.len() ==> spec_plan(payees, balance)[i].amount == spec_share(
                balance,
                payees.len() as int,
            ),
        sum_amounts(spec_plan(payees, balance)) == balance,
        balance >= 1 && spec_share(balance, payees.len() as int) >= 1 ==> spec_calculate(
            payees,
            balance,
        ) == Ok::<Seq<PayoutInfo>, Error>(spec_plan(payees, balance)),
{
    let n = payees.len() as int;
    let b = balance as int;
    let q = spec_share(balance, n);
    let rem = spec_remainder(balance, n);
    lemma_div_pos_is_pos(b, n);
    lemma_mod_bound(b, n);
    lemma_fundamental_div_mod(b, n);
    lemma_first_amount_fits(balance, n);
    let plan = spec_plan(payees, balance);
    assert(plan[0].amount == q + rem);
    let rest = plan.drop_first();
    assert forall|i: int| 0 <= i < rest.len() implies rest[i].amount == q by {
        assert(rest[i] == plan[i + 1]);
    }
    lemma_sum_amounts_all_equal(rest, q);
    assert((q + rem) + (n - 1) * q == n * q + rem) by (nonlinear_arith);
}

/// On an empty payee list the calculator rejects with `NoPayees`,
/// whatever the balance.
pub proof fn lemma_empty_payees_rejected(payees: Seq<AccountId>, balance: Balance)
    requires
        payees.len() == 0,
    ensures
        spec_calculate(payees, balance) == Err::<Seq<PayoutInfo>, Error>(Error::NoPayees),
{
}

/// On a zero balance the calculator rejects with `ZeroShare` whenever
/// there is at least one payee.
pub proof fn lemma_zero_balance_rejected(payees: Seq<AccountId>, balance: Balance)
    requires
        payees.len() >= 1,
        balance == 0,
    ensures
        spec_calculate(payees, balance) == Err::<Seq<PayoutInfo>, Error>(Error::ZeroShare),
{
}

/// On a balance smaller than the payee count the equal share would be
/// zero, so the calculator rejects with `ZeroShare`.
pub proof fn lemma_small_balance_rejected(payees: Seq<AccountId>, balance: Balance)
    requires
        payees.len() >= 1,
        balance < payees.len(),
    ensures
        spec_calculate(payees, balance) == Err::<Seq<PayoutInfo>, Error>(Error::ZeroShare),
{
    lemma_basic_div(balance as int, payees.len() as int);
}

/// The calculator is deterministic: any two results that satisfy the
/// calculator's contract for one payee list and one balance describe the
/// same plan. Together with the calculator's shared-reference signature —
/// it can touch neither the lock nor any balance — this is what makes
/// repeated read-only planning calls harmless.
pub proof fn lemma_calculate_deterministic(
    payees: Seq<AccountId>,
    balance: Balance,
    r1: Result<Vec<PayoutInfo>, Error>,
    r2: Result<Vec<PayoutInfo>, Error>,
)
    requires
        plan_view(r1) == spec_calculate(payees, balance),
        plan_view(r2) == spec_calculate(payees, balance),
    ensures
        plan_view(r1) == plan_view(r2),
{
}

/// The payout calculator: a pure function from the pool's current balance
/// and its ordered payee list to an exact transfer plan with zero
/// leftover. The indivisible remainder goes entirely to the first payee.
pub fn calculate_plan(payees: &Vec<AccountId>, total_balance: Balance) -> (r: Result<
    Vec<PayoutInfo>,
    Error,
>)
    ensures
        plan_view(r) == spec_calculate(payees@, total_balance),
{
    let num_payees: usize = payees.len();
    if num_payees == 0 {
        return Err(Error::NoPayees);
    }
    if total_balance == 0 {
        return Err(Error::ZeroShare);
    }
    let share: Balance = total_balance / (num_payees as Balance);
    if share == 0 {
        return Err(Error::ZeroShare);
    }
    let remainder: Balance = total_balance % (num_payees as Balance);
    proof {
        lemma_first_amount_fits(total_balance, num_payees as int);
    }
    let first_amount: Balance = share + remainder;
    let mut payout_info: Vec<PayoutInfo> = Vec::new();
    let mut i: usize = 0;
    while i < num_payees
        invariant
            num_payees == payees@.len(),
            1 <= num_payees,
            i <= num_payees,
            share == spec_share(total_balance, num_payees as int),
            remainder == spec_remainder(total_balance, num_payees as int),
            first_amount == spec_amount(total_balance, num_payees as int, 0),
            payout_info@.len() == i as int,
            forall|j: int|
                0 <= j < i as int ==> payout_info@[j] == spec_plan(payees@, total_balance)[j],
        decreases num_payees - i,
    {
        let amount: Balance = if i == 0 {
            first_amount
        } else {
            share
        };
        payout_info.push(PayoutInfo { payee: payees[i], amount });
        i = i + 1;
    }
    assert(payout_info@ =~= spec_plan(payees@, total_balance));
    Ok(payout_info)
}

} // verus!
