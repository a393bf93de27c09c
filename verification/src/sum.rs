use vstd::prelude::*;

verus! {

/// The sum of all the balances that a finite map holds.
pub open spec fn sum_of(held: Map<Seq<u8>, u128>) -> nat
    decreases held.dom().len(),
    when held.dom().finite()
{
    if held.dom().len() == 0 {
        0
    } else {
        let key = held.dom().choose();
        held[key] as nat + sum_of(held.remove(key))
    }
}

/// The balance of `key` in `held`: what is stored for it, and 0 where nothing
/// is.
pub open spec fn balance_in(held: Map<Seq<u8>, u128>, key: Seq<u8>) -> u128 {
    if held.dom().contains(key) {
        held[key]
    } else {
        0
    }
}

/// The sum of a map is the balance of any one of its keys plus the sum of the
/// rest.
pub proof fn lemma_sum_remove(held: Map<Seq<u8>, u128>, key: Seq<u8>)
    requires
        held.dom().finite(),
        held.dom().contains(key),
    ensures
        sum_of(held) == held[key] + sum_of(held.remove(key)),
    decreases held.dom().len(),
{
    let chosen = held.dom().choose();
    if chosen != key {
        lemma_sum_remove(held.remove(chosen), key);
        lemma_sum_remove(held.remove(key), chosen);
        assert(held.remove(chosen).remove(key) =~= held.remove(key).remove(chosen));
    }
}

/// Storing a balance under a key changes the sum by the difference between
/// the new balance and the one the key had.
pub proof fn lemma_sum_insert(held: Map<Seq<u8>, u128>, key: Seq<u8>, value: u128)
    requires
        held.dom().finite(),
    ensures
        sum_of(held.insert(key, value)) == sum_of(held) - balance_in(held, key) + value,
{
    lemma_sum_remove(held.insert(key, value), key);
    assert(held.insert(key, value).remove(key) =~= held.remove(key));
    if held.dom().contains(key) {
        lemma_sum_remove(held, key);
    } else {
        assert(held.remove(key) =~= held);
    }
}

/// No balance exceeds the sum of all of them.
pub proof fn lemma_balance_within_sum(held: Map<Seq<u8>, u128>, key: Seq<u8>)
    requires
        held.dom().finite(),
    ensures
        balance_in(held, key) <= sum_of(held),
{
    if held.dom().contains(key) {
        lemma_sum_remove(held, key);
    }
}

} // verus!
