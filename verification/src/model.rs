use vstd::prelude::*;
use crate::sum::{balance_in, lemma_balance_within_sum, lemma_sum_insert, sum_of};

verus! {

/// The ledger as a mathematical value: the supply fixed at construction and
/// the balance stored for each account, by the account's bytes. An account
/// without an entry has the balance 0.
pub struct LedgerState {
    pub total_supply: u128,
    pub balances: Map<Seq<u8>, u128>,
}

/// One transfer: `value` units from `from` to `to`.
pub struct Move {
    pub from: Seq<u8>,
    pub to: Seq<u8>,
    pub value: u128,
}

impl LedgerState {
    /// The ledger right after construction: the whole supply with the founder.
    pub open spec fn founded(supply: u128, founder: Seq<u8>) -> LedgerState {
        LedgerState { total_supply: supply, balances: Map::empty().insert(founder, supply) }
    }

    /// The balance of `owner`, 0 where the ledger has no entry for it.
    pub open spec fn balance_of(self, owner: Seq<u8>) -> u128 {
        balance_in(self.balances, owner)
    }

    /// The units that the accounts hold together.
    pub open spec fn allocated(self) -> nat {
        sum_of(self.balances)
    }

    /// The ledger's invariant: finitely many entries, and every unit of the
    /// supply is with some account.
    pub open spec fn wf(self) -> bool {
        &&& self.balances.dom().finite()
        &&& self.allocated() == self.total_supply
    }

    /// Whether `from` holds enough for a transfer of `value`.
    pub open spec fn accepts(self, from: Seq<u8>, value: u128) -> bool {
        self.balance_of(from) >= value
    }

    /// The ledger with `value` taken from `from`.
    pub open spec fn debited(self, from: Seq<u8>, value: u128) -> LedgerState {
        LedgerState {
            total_supply: self.total_supply,
            balances: self.balances.insert(from, (self.balance_of(from) - value) as u128),
        }
    }

    /// The ledger with `value` added to `to`.
    pub open spec fn credited(self, to: Seq<u8>, value: u128) -> LedgerState {
        LedgerState {
            total_supply: self.total_supply,
            balances: self.balances.insert(to, (self.balance_of(to) + value) as u128),
        }
    }

    /// The ledger after a transfer of `value` from `from` to `to`: unchanged
    /// where `from` holds less than `value`, else debited and then credited.
    pub open spec fn transfer(self, from: Seq<u8>, to: Seq<u8>, value: u128) -> LedgerState {
        if self.accepts(from, value) {
            self.debited(from, value).credited(to, value)
        } else {
            self
        }
    }

    /// Whether the storage can take the entries that a transfer writes: a
    /// rejected transfer writes none, an accepted one writes those of `from`
    /// and `to`, and the storage counts its entries in a `u32`.
    pub open spec fn has_room(self, from: Seq<u8>, to: Seq<u8>, value: u128) -> bool {
        self.accepts(from, value) ==> self.balances.dom().insert(from).insert(to).len()
            <= u32::MAX
    }

    /// The ledger after the transfers of `moves`, in their order.
    pub open spec fn after(self, moves: Seq<Move>) -> LedgerState
        decreases moves.len(),
    {
        if moves.len() == 0 {
            self
        } else {
            let last = moves.last();
            self.after(moves.drop_last()).transfer(last.from, last.to, last.value)
        }
    }
}

/// Construction: the supply is the given one, the founder holds all of it,
/// every other account holds 0, and the invariant holds.
pub proof fn lemma_founded(supply: u128, founder: Seq<u8>, other: Seq<u8>)
    ensures
        LedgerState::founded(supply, founder).total_supply == supply,
        LedgerState::founded(supply, founder).balance_of(founder) == supply,
        other != founder ==> LedgerState::founded(supply, founder).balance_of(other) == 0,
        LedgerState::founded(supply, founder).wf(),
{
    lemma_sum_insert(Map::empty(), founder, supply);
}

/// No balance is negative, and none exceeds the supply.
pub proof fn lemma_balance_bounds(state: LedgerState, owner: Seq<u8>)
    requires
        state.wf(),
    ensures
        0 <= state.balance_of(owner) <= state.total_supply,
{
    lemma_balance_within_sum(state.balances, owner);
}

/// What a transfer does to each balance: an accepted one takes `value` from
/// `from` and gives it to `to`, and touches no other account; the supply and
/// the invariant stay.
pub proof fn lemma_transfer_balances(
    state: LedgerState,
    from: Seq<u8>,
    to: Seq<u8>,
    value: u128,
    owner: Seq<u8>,
)
    requires
        state.wf(),
        state.accepts(from, value),
    ensures
        state.transfer(from, to, value).wf(),
        state.transfer(from, to, value).total_supply == state.total_supply,
        from == to ==> state.transfer(from, to, value).balance_of(owner) == state.balance_of(
            owner,
        ),
        from != to && owner == from ==> state.transfer(from, to, value).balance_of(owner)
            == state.balance_of(from) - value,
        from != to && owner == to ==> state.transfer(from, to, value).balance_of(owner)
            == state.balance_of(to) + value,
        owner != from && owner != to ==> state.transfer(from, to, value).balance_of(owner)
            == state.balance_of(owner),
{
    let debited = state.debited(from, value);
    lemma_sum_insert(state.balances, from, (state.balance_of(from) - value) as u128);
    lemma_balance_within_sum(debited.balances, to);
    lemma_sum_insert(debited.balances, to, (debited.balance_of(to) + value) as u128);
}

/// Conservation: a transfer keeps the invariant, so the balances still add up
/// to the supply, whether it is accepted or rejected.
pub proof fn lemma_transfer_conserves(state: LedgerState, from: Seq<u8>, to: Seq<u8>, value: u128)
    requires
        state.wf(),
    ensures
        state.transfer(from, to, value).wf(),
        state.transfer(from, to, value).total_supply == state.total_supply,
        state.transfer(from, to, value).allocated() == state.total_supply,
{
    if state.accepts(from, value) {
        lemma_transfer_balances(state, from, to, value, from);
    }
}

/// Conservation over time: after any sequence of transfers the balances add
/// up to the supply that the ledger was made with.
pub proof fn lemma_conservation(state: LedgerState, moves: Seq<Move>)
    requires
        state.wf(),
    ensures
        state.after(moves).wf(),
        state.after(moves).total_supply == state.total_supply,
        state.after(moves).allocated() == state.total_supply,
    decreases moves.len(),
{
    if moves.len() > 0 {
        let last = moves.last();
        lemma_conservation(state, moves.drop_last());
        lemma_transfer_conserves(state.after(moves.drop_last()), last.from, last.to, last.value);
    }
}

/// A transfer to oneself that the balance covers is accepted and changes no
/// balance.
pub proof fn lemma_self_transfer(state: LedgerState, account: Seq<u8>, value: u128, owner: Seq<u8>)
    requires
        state.balance_of(account) >= value,
    ensures
        state.accepts(account, value),
        state.transfer(account, account, value).balance_of(owner) == state.balance_of(owner),
{
}

/// A transfer of 0 is always accepted and changes no balance.
pub proof fn lemma_zero_transfer(state: LedgerState, from: Seq<u8>, to: Seq<u8>, owner: Seq<u8>)
    ensures
        state.accepts(from, 0),
        state.transfer(from, to, 0).balance_of(owner) == state.balance_of(owner),
{
}

/// A transfer is rejected exactly where `from` holds less than `value`, and a
/// rejected transfer leaves the ledger as it was.
pub proof fn lemma_rejected_transfer(state: LedgerState, from: Seq<u8>, to: Seq<u8>, value: u128)
    requires
        state.balance_of(from) < value,
    ensures
        !state.accepts(from, value),
        state.transfer(from, to, value) == state,
{
}

/// An account without an entry is an account with the balance 0: ledgers
/// that give every account the same balance accept the same transfers, and
/// give every account the same balance after them.
pub proof fn lemma_absent_is_zero(
    state: LedgerState,
    other: LedgerState,
    from: Seq<u8>,
    to: Seq<u8>,
    value: u128,
    owner: Seq<u8>,
)
    requires
        forall|account: Seq<u8>| #[trigger] state.balance_of(account) == other.balance_of(account),
    ensures
        state.accepts(from, value) == other.accepts(from, value),
        state.transfer(from, to, value).balance_of(owner) == other.transfer(
            from,
            to,
            value,
        ).balance_of(owner),
{
    assert(state.balance_of(from) == other.balance_of(from));
    assert(state.balance_of(to) == other.balance_of(to));
    assert(state.balance_of(owner) == other.balance_of(owner));
}

} // verus!
