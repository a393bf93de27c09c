use vstd::prelude::*;

verus! {

/// The balances as the storage hash map of `ink_storage` keeps them, keyed by
/// the account identity of `ink_env`. The verifier does not look inside: all it
/// knows of a map is what the functions below say of `entries`, and those
/// statements are taken from the map's source, not proved.
#[verifier::external_body]
pub struct BalanceMap {
    inner: ink_storage::collections::HashMap<ink_env::AccountId, u128>,
}

/// What a balance map holds: the balance stored under the bytes of each
/// account that has an entry.
pub uninterp spec fn entries(balances: BalanceMap) -> Map<Seq<u8>, u128>;

/// The balance map without any entry.
pub open spec fn no_entries() -> Map<Seq<u8>, u128> {
    Map::empty()
}

/// What a lookup of `key` in `held` gives.
pub open spec fn lookup(held: Map<Seq<u8>, u128>, key: Seq<u8>) -> Option<u128> {
    if held.dom().contains(key) {
        Some(held[key])
    } else {
        None
    }
}

/// `ink_storage::collections::HashMap::new`: a map that holds nothing.
#[verifier::external_body]
pub(crate) fn map_new() -> (balances: BalanceMap)
    ensures
        entries(balances) == no_entries(),
{
    BalanceMap { inner: ink_storage::collections::HashMap::new() }
}

/// `ink_storage::collections::HashMap::len`: the number of entries.
#[verifier::external_body]
pub(crate) fn map_len(balances: &BalanceMap) -> (count: u32)
    ensures
        count == entries(*balances).dom().len(),
{
    balances.inner.len()
}

/// `ink_storage::collections::HashMap::get`: the value stored under the key,
/// if the key has an entry.
#[verifier::external_body]
pub(crate) fn map_get(balances: &BalanceMap, key: [u8; 32]) -> (found: Option<u128>)
    ensures
        found == lookup(entries(*balances), key@),
{
    balances.inner.get(&ink_env::AccountId::from(key)).copied()
}

/// `ink_storage::collections::HashMap::insert`: stores the value under the
/// key, in place of the one that was there, and leaves every other entry as
/// it was. A key without an entry takes a new slot, and the map counts its
/// slots in a `u32`: for such a key the map must hold fewer than `u32::MAX`.
#[verifier::external_body]
pub(crate) fn map_insert(balances: &mut BalanceMap, key: [u8; 32], value: u128)
    requires
        entries(*old(balances)).dom().contains(key@) || entries(*old(balances)).dom().len()
            < u32::MAX,
    ensures
        entries(*final(balances)) == entries(*old(balances)).insert(key@, value),
{
    balances.inner.insert(ink_env::AccountId::from(key), value);
}

} // verus!
