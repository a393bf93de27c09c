use vstd::prelude::*;
use crate::account::{AccountId, Balance};
use crate::model::{lemma_balance_bounds, lemma_founded, lemma_transfer_balances, LedgerState};
use crate::storage::{entries, map_get, map_insert, map_len, map_new, BalanceMap};

verus! {

/// A fungible-token ledger: a supply fixed at construction, and the balance of
/// each account.
pub struct PolkadotErc20 {
    /// The total supply of tokens.
    total_supply: Balance,
    /// The balance of each account that has one.
    balances: BalanceMap,
}

impl View for PolkadotErc20 {
    type V = LedgerState;

    closed spec fn view(&self) -> LedgerState {
        LedgerState { total_supply: self.total_supply, balances: entries(self.balances) }
    }
}

impl PolkadotErc20 {
    /// The ledger's invariant: the balances add up to the supply.
    pub open spec fn wf(&self) -> bool {
        self@.wf()
    }

    /// A ledger whose whole supply is with `founder`.
    pub fn new(initial_supply: Balance, founder: AccountId) -> (ledger: Self)
        ensures
            ledger@ == LedgerState::founded(initial_supply, founder@),
            ledger.wf(),
    {
        let mut balances = map_new();
        map_insert(&mut balances, founder.to_bytes(), initial_supply);
        let instance = Self { total_supply: initial_supply, balances };
        proof {
            lemma_founded(initial_supply, founder@, founder@);
        }
        instance
    }

    /// The supply that the ledger was made with.
    pub fn total_supply(&self) -> (supply: Balance)
        ensures
            supply == self@.total_supply,
    {
        self.total_supply
    }

    /// The balance of `owner`, 0 for an account that the ledger has not seen.
    /// It is never more than the supply.
    pub fn balance_of(&self, owner: AccountId) -> (balance: Balance)
        ensures
            balance == self@.balance_of(owner@),
            self.wf() ==> 0 <= balance <= self@.total_supply,
    {
        proof {
            if self.wf() {
                lemma_balance_bounds(self@, owner@);
            }
        }
        self.balance_of_or_zero(&owner)
    }

    /// Moves `value` from `caller` to `to`. Returns `false`, and changes
    /// nothing, where `caller` holds less than `value`.
    pub fn transfer(&mut self, caller: AccountId, to: AccountId, value: Balance) -> (ok: bool)
        requires
            old(self).wf(),
            old(self)@.has_room(caller@, to@, value),
        ensures
            ok == old(self)@.accepts(caller@, value),
            final(self)@ == old(self)@.transfer(caller@, to@, value),
            final(self).wf(),
    {
        self.transfer_from_to(caller, to, value)
    }

    /// As `transfer`, whatever the storage holds: `None`, and nothing changed,
    /// where it has no room for the entries that the transfer would write.
    pub fn try_transfer(
        &mut self,
        caller: AccountId,
        to: AccountId,
        value: Balance,
    ) -> (outcome: Option<bool>)
        requires
            old(self).wf(),
        ensures
            outcome.is_some() == old(self)@.has_room(caller@, to@, value),
            outcome.is_some() ==> outcome == Some(old(self)@.accepts(caller@, value)),
            outcome.is_some() ==> final(self)@ == old(self)@.transfer(caller@, to@, value),
            outcome.is_none() ==> final(self)@ == old(self)@,
            final(self).wf(),
    {
        if self.balance_of_or_zero(&caller) >= value {
            let count: u32 = map_len(&self.balances);
            let caller_new = map_get(&self.balances, caller.to_bytes()).is_none();
            let to_new = map_get(&self.balances, to.to_bytes()).is_none() && !caller.same_as(&to);
            let room: u32 = u32::MAX - count;
            let needed: u32 = if caller_new && to_new {
                2
            } else if caller_new || to_new {
                1
            } else {
                0
            };
            if needed > room {
                return None;
            }
        }
        Some(self.transfer_from_to(caller, to, value))
    }

    /// Moves `value` from `from` to `to`, if `from` holds as much.
    fn transfer_from_to(&mut self, from: AccountId, to: AccountId, value: Balance) -> (ok: bool)
        requires
            old(self).wf(),
            old(self)@.has_room(from@, to@, value),
        ensures
            ok == old(self)@.accepts(from@, value),
            final(self)@ == old(self)@.transfer(from@, to@, value),
            final(self).wf(),
    {
        let from_balance = self.balance_of(from);
        if from_balance < value {
            return false;
        }
        proof {
            lemma_transfer_balances(old(self)@, from@, to@, value, to@);
        }
        map_insert(&mut self.balances, from.to_bytes(), from_balance - value);
        let to_balance = self.balance_of(to);
        map_insert(&mut self.balances, to.to_bytes(), to_balance + value);
        true
    }

    /// The balance stored for `owner`, or 0 where none is.
    fn balance_of_or_zero(&self, owner: &AccountId) -> (balance: Balance)
        ensures
            balance == self@.balance_of(owner@),
    {
        match map_get(&self.balances, owner.to_bytes()) {
            Some(balance) => balance,
            None => 0,
        }
    }
}

} // verus!
