//! The balances module: a ledger mapping each account to its balance, with a
//! checked, atomic transfer between accounts.
//!
//! An account with no ledger entry holds balance zero; that is a reading of
//! the map, not an error. A transfer either applies completely or fails with
//! an error and changes nothing.

use crate::support::DispatchResult;
use crate::support::ErrorKind;
use crate::types::AccountID;
use crate::types::Balance;
use vstd::hash_map::StringHashMap;
use vstd::prelude::*;

verus! {

/// The balance an account holds in a ledger map: the stored entry, or zero
/// when the account has never been written.
pub open spec fn balance_in(ledger: Map<Seq<char>, Balance>, who: Seq<char>) -> Balance {
    if ledger.contains_key(who) {
        ledger[who]
    } else {
        0
    }
}

/// Whether a transfer of `amount` from `caller` to `to` is allowed on
/// `ledger`: the caller can cover it, and crediting the recipient's
/// pre-transfer balance does not overflow. Both checks read the same
/// pre-transfer snapshot, also when `caller` and `to` coincide.
pub open spec fn transfer_allowed(
    ledger: Map<Seq<char>, Balance>,
    caller: Seq<char>,
    to: Seq<char>,
    amount: Balance,
) -> bool {
    &&& amount <= balance_in(ledger, caller)
    &&& balance_in(ledger, to) + amount <= Balance::MAX
}

/// The ledger after an allowed transfer: the caller's leg is debited first,
/// then the recipient's leg is credited on the ledger as it then stands — so
/// a transfer from an account to itself nets out to no change.
pub open spec fn transfer_applied(
    ledger: Map<Seq<char>, Balance>,
    caller: Seq<char>,
    to: Seq<char>,
    amount: Balance,
) -> Map<Seq<char>, Balance> {
    let debited = ledger.insert(caller, (balance_in(ledger, caller) - amount) as Balance);
    debited.insert(to, (balance_in(debited, to) + amount) as Balance)
}

/// State of the balances module: the account ledger.
pub struct Pallet {
    balances: StringHashMap<Balance>,
}

impl Pallet {
    /// The stored ledger entries, as seen by contracts. An absent account
    /// holds zero; `spec_balance` folds that rule in.
    pub closed spec fn spec_ledger(self) -> Map<Seq<char>, Balance> {
        self.balances@
    }

    /// The balance of `who`: the stored entry, or zero if none exists.
    pub open spec fn spec_balance(self, who: Seq<char>) -> Balance {
        balance_in(self.spec_ledger(), who)
    }

    /// Create the module with an empty ledger: every account holds zero.
    pub fn new() -> (result: Self)
        ensures
            result.spec_ledger() == Map::<Seq<char>, Balance>::empty(),
            forall|a: Seq<char>| result.spec_balance(a) == 0,
    {
        Pallet { balances: StringHashMap::new() }
    }

    /// Overwrite the balance of `who` with `amount`, discarding whatever was
    /// stored before. No other account is touched.
    pub fn set_balance(&mut self, who: &AccountID, amount: Balance)
        ensures
            final(self).spec_ledger() == old(self).spec_ledger().insert(who@, amount),
            final(self).spec_balance(who@) == amount,
            forall|a: Seq<char>|
                a != who@ ==> final(self).spec_balance(a) == old(self).spec_balance(a),
    {
        self.balances.insert(who.clone(), amount);
    }

    /// Read the balance of `who`: zero when the account has never been
    /// written.
    pub fn balance(&self, who: &AccountID) -> (result: Balance)
        ensures
            result == self.spec_balance(who@),
    {
        match self.balances.get(who.as_str()) {
            Some(b) => *b,
            None => 0,
        }
    }

    /// Move `amount` from `caller` to `to`, atomically.
    ///
    /// Both checks read the pre-transfer ledger: the transfer succeeds
    /// exactly when the caller can cover the amount and the recipient's
    /// pre-transfer balance takes it without overflowing. On success the two
    /// balances move in step, so their total is conserved, and a transfer
    /// from an account to itself leaves its balance unchanged. On failure
    /// the ledger is exactly as it was.
    pub fn transfer(
        &mut self,
        caller: &AccountID,
        to: &AccountID,
        amount: Balance,
    ) -> (result: DispatchResult)
        ensures
            result == Ok::<(), ErrorKind>(()) <==> transfer_allowed(
                old(self).spec_ledger(),
                caller@,
                to@,
                amount,
            ),
            result is Ok ==> final(self).spec_ledger() == transfer_applied(
                old(self).spec_ledger(),
                caller@,
                to@,
                amount,
            ),
            old(self).spec_balance(caller@) < amount ==> result == Err::<(), ErrorKind>(
                ErrorKind::InsufficientBalance,
            ),
            amount <= old(self).spec_balance(caller@) && old(self).spec_balance(to@) + amount
                > Balance::MAX ==> result == Err::<(), ErrorKind>(ErrorKind::BalanceOverflow),
            result is Err ==> *final(self) == *old(self),
            result is Ok ==> final(self).spec_balance(caller@) + final(self).spec_balance(to@)
                == old(self).spec_balance(caller@) + old(self).spec_balance(to@),
            caller@ == to@ && transfer_allowed(old(self).spec_ledger(), caller@, to@, amount)
                ==> result is Ok && final(self).spec_balance(caller@) == old(self).spec_balance(
                caller@,
            ),
    {
        let caller_balance = self.balance(caller);
        let to_balance = self.balance(to);

        let new_caller_balance = match caller_balance.checked_sub(amount) {
            Some(v) => v,
            None => {
                return Err(ErrorKind::InsufficientBalance);
            },
        };
        if to_balance.checked_add(amount).is_none() {
            return Err(ErrorKind::BalanceOverflow);
        }

        self.set_balance(caller, new_caller_balance);
        // Credit the recipient's leg on the ledger as it stands after the
        // debit, so the two legs of a self-transfer cancel.
        let credited = self.balance(to);
        self.set_balance(to, credited + amount);

        Ok(())
    }
}

} // verus!
