use vstd::prelude::*;

use crate::account::AccountId;
use crate::account::Balance;
use crate::errors::Error;
use crate::plan::calculate_plan;
use crate::plan::plan_view;
use crate::plan::spec_calculate;
use crate::plan::PayoutInfo;

verus! {

/// The notification a successful deposit asks the host to emit: who paid
/// in, and how much. Emission is the host's job and fire-and-forget; the
/// library only records what the notification must carry.
#[derive(Clone, Copy, Debug, PartialEq, Eq, Structural)]
pub struct Deposit {
    /// The account that deposited the funds.
    pub from: AccountId,
    /// The amount deposited.
    pub value: Balance,
}

/// The pool's persistent state: an ordered payee list and a designated
/// authority, both fixed at creation, and the reentrancy lock.
///
/// The pooled balance itself lives with the host ledger; every operation
/// that needs it takes the host's current reading as an argument, and
/// every transfer the pool decides on is returned to the host as a plan
/// to perform.
pub struct PaymentSplitter {
    /// The payees who receive funds, in order; the first payee absorbs
    /// the indivisible remainder of every split.
    payees: Vec<AccountId>,
    /// The sole account authorized to trigger a payout.
    designated_payee: AccountId,
    /// The reentrancy guard: true only while a payout is in flight.
    locked: bool,
}

impl PaymentSplitter {
    /// The ordered payee list.
    pub closed spec fn spec_payees(&self) -> Seq<AccountId> {
        self.payees@
    }

    /// The account authorized to trigger payouts.
    pub closed spec fn spec_authority(&self) -> AccountId {
        self.designated_payee
    }

    /// Whether a payout is currently in flight.
    pub closed spec fn spec_locked(&self) -> bool {
        self.locked
    }

    /// One-time setup: fixes the payee list and the designated authority;
    /// the reentrancy guard starts released.
    pub fn new(payees: Vec<AccountId>, designated_payee: AccountId) -> (splitter: Self)
        ensures
            splitter.spec_payees() == payees@,
            splitter.spec_authority() == designated_payee,
            !splitter.spec_locked(),
    {
        PaymentSplitter { payees, designated_payee, locked: false }
    }

    /// Accepts the value the host reports as attached to the current
    /// call. A zero value is rejected; a positive one succeeds, and the
    /// returned notification — carrying exactly the caller and the value —
    /// is handed back for the host to emit. The host ledger has already
    /// credited the pool; nothing here moves funds.
    pub fn deposit(&self, caller: AccountId, transferred_value: Balance) -> (r: Result<
        Deposit,
        Error,
    >)
        ensures
            transferred_value == 0 ==> r == Err::<Deposit, Error>(Error::ZeroShare),
            transferred_value != 0 ==> r == Ok::<Deposit, Error>(
                (Deposit { from: caller, value: transferred_value }),
            ),
    {
        if transferred_value == 0 {
            return Err(Error::ZeroShare);
        }
        Ok(Deposit { from: caller, value: transferred_value })
    }

    /// Read-only planning: checks that the caller is the designated
    /// authority, then runs the payout calculator on the balance the host
    /// reports. Touches neither the lock nor any balance.
    pub fn calculate_payout(&self, caller: AccountId, total_balance: Balance) -> (r: Result<
        Vec<PayoutInfo>,
        Error,
    >)
        ensures
            caller != self.spec_authority() ==> r == Err::<Vec<PayoutInfo>, Error>(
                Error::Unauthorized,
            ),
            caller == self.spec_authority() ==> plan_view(r) == spec_calculate(
                self.spec_payees(),
                total_balance,
            ),
    {
        if let Err(e) = self.ensure_caller_is_designated_payee(caller) {
            return Err(e);
        }
        calculate_plan(&self.payees, total_balance)
    }

    /// Begins a payout: authorization first, then the reentrancy guard,
    /// then the calculator. On success the lock is held, and the returned
    /// plan is what the host must now transfer, entry by entry, in order;
    /// `settle_payout` closes the payout once the host reports back. A
    /// rejected caller or a locked guard leaves all state unchanged, and
    /// a calculator error releases the lock before it is surfaced — the
    /// guard is released on every exit path.
    pub fn trigger_payout(&mut self, caller: AccountId, total_balance: Balance) -> (r: Result<
        Vec<PayoutInfo>,
        Error,
    >)
        ensures
            final(self).spec_payees() == old(self).spec_payees(),
            final(self).spec_authority() == old(self).spec_authority(),
            caller != old(self).spec_authority() ==> r == Err::<Vec<PayoutInfo>, Error>(
                Error::Unauthorized,
            ) && final(self).spec_locked() == old(self).spec_locked(),
            caller == old(self).spec_authority() && old(self).spec_locked() ==> r == Err::<
                Vec<PayoutInfo>,
                Error,
            >(Error::ReentrancyGuardLocked) && final(self).spec_locked(),
            caller == old(self).spec_authority() && !old(self).spec_locked() ==> plan_view(r)
                == spec_calculate(old(self).spec_payees(), total_balance),
            caller == old(self).spec_authority() && !old(self).spec_locked() ==> (final(
                self).spec_locked() <==> r is Ok),
    {
        if let Err(e) = self.ensure_caller_is_designated_payee(caller) {
            return Err(e);
        }
        if let Err(e) = self.ensure_reentrancy_guard_not_locked() {
            return Err(e);
        }
        self.locked = true;
        match calculate_plan(&self.payees, total_balance) {
            Ok(plan) => Ok(plan),
            Err(e) => {
                self.locked = false;
                Err(e)
            },
        }
    }

    /// Closes an in-flight payout once the host has attempted the
    /// planned transfers: success when all of them went through, and
    /// `TransferFailed` when the host aborted on a failing one. Either
    /// way the reentrancy guard is released.
    pub fn settle_payout(&mut self, transfers_ok: bool) -> (r: Result<(), Error>)
        requires
            old(self).spec_locked(),
        ensures
            final(self).spec_payees() == old(self).spec_payees(),
            final(self).spec_authority() == old(self).spec_authority(),
            !final(self).spec_locked(),
            transfers_ok ==> r == Ok::<(), Error>(()),
            !transfers_ok ==> r == Err::<(), Error>(Error::TransferFailed),
    {
        self.locked = false;
        if transfers_ok {
            Ok(())
        } else {
            Err(Error::TransferFailed)
        }
    }

    /// Whether a payout is currently in flight.
    pub fn is_locked(&self) -> (locked: bool)
        ensures
            locked == self.spec_locked(),
    {
        self.locked
    }

    /// The account authorized to trigger payouts.
    pub fn authority(&self) -> (authority: AccountId)
        ensures
            authority == self.spec_authority(),
    {
        self.designated_payee
    }

    /// How many payees the pool distributes to.
    pub fn payee_count(&self) -> (count: usize)
        ensures
            count == self.spec_payees().len(),
    {
        self.payees.len()
    }

    /// The authorization guard: passes only the designated authority
    /// through, and rejects every other caller with `Unauthorized`.
    fn ensure_caller_is_designated_payee(&self, caller: AccountId) -> (r: Result<(), Error>)
        ensures
            caller == self.spec_authority() ==> r == Ok::<(), Error>(()),
            caller != self.spec_authority() ==> r == Err::<(), Error>(Error::Unauthorized),
    {
        if caller != self.designated_payee {
            return Err(Error::Unauthorized);
        }
        Ok(())
    }

    /// The reentrancy guard check: rejects with `ReentrancyGuardLocked`,
    /// touching no other state, while a payout is in flight.
    fn ensure_reentrancy_guard_not_locked(&self) -> (r: Result<(), Error>)
        ensures
            !self.spec_locked() ==> r == Ok::<(), Error>(()),
            self.spec_locked() ==> r == Err::<(), Error>(Error::ReentrancyGuardLocked),
    {
        if self.locked {
            return Err(Error::ReentrancyGuardLocked);
        }
        Ok(())
    }
}

} // verus!
