//! The host's ordered map, holding the price of every tracked asset.
//!
//! Keys and providers are kept as byte strings of fixed length, prices and times as integers.
//! The host meters what a contract does: where the budget of an invocation runs out, the host
//! aborts the invocation, whichever call it was in. The contracts below speak of calls that
//! the host lets finish.
use soroban_sdk::{BytesN, Env};
use vstd::prelude::*;

verus! {

/// A handle on the host that runs the contract: `soroban_sdk::Env`. Nothing is known of it.
#[verifier::external_type_specification]
#[verifier::external_body]
pub struct ExEnv(soroban_sdk::Env);

/// A byte string of fixed length that the host holds: `soroban_sdk::BytesN`. Nothing is known
/// of it.
#[verifier::external_type_specification]
#[verifier::external_body]
pub struct ExBytesN<const N: usize>(soroban_sdk::BytesN<N>);

/// An ordered map that the host holds: `soroban_sdk::Map`. Nothing is known of it but what the
/// functions of this module say.
#[verifier::external_type_specification]
#[verifier::external_body]
#[verifier::reject_recursive_types(K)]
#[verifier::reject_recursive_types(V)]
pub struct ExMap<K, V>(soroban_sdk::Map<K, V>);

/// A map from the name of an asset to its price, the time and the provider of that price.
pub type PriceMap = soroban_sdk::Map<BytesN<32>, (i128, u64, BytesN<56>)>;

/// The contents of a price map.
pub type PriceEntries = Map<Seq<u8>, (i128, u64, Seq<u8>)>;

/// What a price map holds.
pub uninterp spec fn price_entries(prices: PriceMap) -> PriceEntries;

/// Whether every pair in the map has the types that the map is declared with. The host keeps
/// untyped values, and a map that came from elsewhere may hold others.
pub uninterp spec fn is_typed(prices: PriceMap) -> bool;

/// The most entries that a map can hold.
pub const MAP_LIMIT: u32 = u32::MAX;

/// Whether an entry can be set: it replaces another, or there is room for one more.
pub open spec fn has_room(entries: PriceEntries, asset: Seq<u8>) -> bool {
    entries.contains_key(asset) || entries.len() < MAP_LIMIT
}

/// Whether `a` comes before `b` in the order of byte strings of one length: where they first
/// differ, the byte of `a` is the smaller.
pub open spec fn precedes(a: Seq<u8>, b: Seq<u8>) -> bool {
    exists|i: int| #[trigger] first_difference(a, b, i) && a[i] < b[i]
}

/// Whether `i` is the first place at which `a` and `b` differ.
pub open spec fn first_difference(a: Seq<u8>, b: Seq<u8>, i: int) -> bool {
    &&& 0 <= i < a.len()
    &&& i < b.len()
    &&& a[i] != b[i]
    &&& forall|j: int| 0 <= j < i ==> #[trigger] a[j] == b[j]
}

/// Calls `soroban_sdk::Map::new`, which makes a map without entries.
#[verifier::external_body]
pub(crate) fn new_price_map(env: &Env) -> (prices: PriceMap)
    ensures
        price_entries(prices) == PriceEntries::empty(),
        is_typed(prices),
{
    soroban_sdk::Map::new(env)
}

/// Calls `soroban_sdk::Map::get`, which returns the value that a key has in the map, and
/// nothing where the key is not there. It panics where the value is of another type than the
/// map is declared with.
#[verifier::external_body]
pub(crate) fn get_price_entry(
    prices: &PriceMap,
    asset: &[u8; 32],
) -> (entry: Option<(i128, u64, [u8; 56])>)
    requires
        is_typed(*prices),
    ensures
        entry is Some <==> price_entries(*prices).contains_key(asset@),
        entry matches Some(e) ==> (e.0, e.1, e.2@) == price_entries(*prices)[asset@],
{
    let value = prices.get(BytesN::from_array(prices.env(), asset));
    value.map(|(price, timestamp, provider)| (price, timestamp, provider.to_array()))
}

/// Calls `soroban_sdk::Map::set`, which gives a key a value in place of the one that it had,
/// and leaves all other keys as they are. It panics where the map is full.
#[verifier::external_body]
pub(crate) fn set_price_entry(
    prices: &mut PriceMap,
    asset: &[u8; 32],
    price: i128,
    timestamp: u64,
    provider: &[u8; 56],
)
    requires
        is_typed(*old(prices)),
        has_room(price_entries(*old(prices)), asset@),
    ensures
        price_entries(*final(prices)) == price_entries(*old(prices)).insert(
            asset@,
            (price, timestamp, provider@),
        ),
        is_typed(*final(prices)),
{
    let key = BytesN::from_array(prices.env(), asset);
    let provider = BytesN::from_array(prices.env(), provider);
    prices.set(key, (price, timestamp, provider));
}

/// Calls `soroban_sdk::Map::keys`, which returns every key of the map once, in the order of
/// the keys; byte strings are ordered by the first byte in which they differ.
#[verifier::external_body]
pub(crate) fn price_map_keys(prices: &PriceMap) -> (keys: Vec<[u8; 32]>)
    requires
        is_typed(*prices),
    ensures
        forall|i: int| 0 <= i < keys@.len() ==> price_entries(*prices).contains_key(
            (#[trigger] keys@[i])@,
        ),
        forall|asset: Seq<u8>| #[trigger] price_entries(*prices).contains_key(asset) ==> exists|
            i: int,
        | 0 <= i < keys@.len() && (#[trigger] keys@[i])@ == asset,
        forall|i: int, j: int| 0 <= i < j < keys@.len() ==> precedes(
            (#[trigger] keys@[i])@,
            (#[trigger] keys@[j])@,
        ),
{
    prices.keys().iter().map(|key| key.to_array()).collect()
}

} // verus!
