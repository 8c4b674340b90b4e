//! The Soroban host values that the library reads: the environment, host
//! strings and byte strings, and the host-side `Vec` and `Map` collections.
//!
//! Every item in this file is trusted. Its contract restates what the
//! soroban-sdk source and documentation say of the call, and nothing more.
//! The host may abort any call when the invocation's resource budget runs
//! out; that depends on the metering state of the running host, not on the
//! arguments, and no contract here speaks of it.
use vstd::prelude::*;

verus! {

#[verifier::external_type_specification]
#[verifier::external_body]
pub struct ExEnv(soroban_sdk::Env);

#[verifier::external_type_specification]
#[verifier::external_body]
pub struct ExHostString(soroban_sdk::String);

#[verifier::external_type_specification]
#[verifier::external_body]
pub struct ExBytes(soroban_sdk::Bytes);

#[verifier::external_type_specification]
#[verifier::external_body]
pub struct ExVal(soroban_sdk::Val);

#[verifier::external_type_specification]
#[verifier::external_body]
pub struct ExConversionError(soroban_sdk::ConversionError);

#[verifier::external_type_specification]
#[verifier::external_body]
pub struct ExHostError(soroban_sdk::Error);

#[verifier::external_type_specification]
#[verifier::external_body]
#[verifier::reject_recursive_types(T)]
pub struct ExHostVec<T>(soroban_sdk::Vec<T>);

#[verifier::external_type_specification]
#[verifier::external_body]
#[verifier::reject_recursive_types(K)]
#[verifier::reject_recursive_types(V)]
pub struct ExHostMap<K, V>(soroban_sdk::Map<K, V>);

// ---------------------------------------------------------------------------
// Host strings
// ---------------------------------------------------------------------------

/// `Clone` of `soroban_sdk::String` (derived): copies the environment
/// handle and the handle of the same immutable host string, so the copy is
/// the same string.
#[verifier::external_body]
pub fn host_string_clone(s: &soroban_sdk::String) -> (r: soroban_sdk::String)
    ensures
        r == *s,
{
    s.clone()
}

// ---------------------------------------------------------------------------
// Host vectors of country codes
// ---------------------------------------------------------------------------

/// The items of a host vector of country codes, in order, each read as a
/// `u32`. The host keeps untyped values, so an item need not be a `u32`;
/// where it is not, this reading says nothing of it.
pub uninterp spec fn country_list(v: soroban_sdk::Vec<u32>) -> Seq<u32>;

/// The item at position `i` of the host vector is a `u32` value.
pub uninterp spec fn country_item_converts(v: soroban_sdk::Vec<u32>, i: int) -> bool;

/// Every item of the host vector is a `u32` value.
pub open spec fn country_items_typed(v: soroban_sdk::Vec<u32>) -> bool {
    forall|i: int| 0 <= i < country_list(v).len() ==> #[trigger] country_item_converts(v, i)
}

/// `soroban_sdk::Vec::<u32>::new`: a new host vector holds no item.
#[verifier::external_body]
pub fn new_country_list(env: &soroban_sdk::Env) -> (r: soroban_sdk::Vec<u32>)
    ensures
        country_list(r) == Seq::<u32>::empty(),
{
    soroban_sdk::Vec::new(env)
}

/// `soroban_sdk::Vec::new` on the environment that `v` belongs to (reached
/// through `Vec::env`): an empty host vector.
#[verifier::external_body]
pub fn new_country_list_beside(v: &soroban_sdk::Vec<u32>) -> (r: soroban_sdk::Vec<u32>)
    ensures
        country_list(r) == Seq::<u32>::empty(),
{
    soroban_sdk::Vec::new(v.env())
}

/// `soroban_sdk::Vec::<u32>::len`: the number of items (a host vector's
/// length is a `u32`).
#[verifier::external_body]
pub fn country_list_len(v: &soroban_sdk::Vec<u32>) -> (r: u32)
    ensures
        r == country_list(*v).len(),
{
    v.len()
}

/// `soroban_sdk::Vec::<u32>::try_get`: `Ok(None)` when `i` is out of
/// bounds; else the item at position `i` when it is a `u32`, and the
/// conversion error when it is not.
#[verifier::external_body]
pub fn country_list_try_get(v: &soroban_sdk::Vec<u32>, i: u32)
    -> (r: Result<Option<u32>, soroban_sdk::ConversionError>)
    ensures
        i >= country_list(*v).len() ==> r is Ok && r->Ok_0 is None,
        i < country_list(*v).len() ==> (r is Ok <==> country_item_converts(*v, i as int)),
        i < country_list(*v).len() && r is Ok ==> r->Ok_0 == Some(country_list(*v)[i as int]),
{
    v.try_get(i)
}

/// `soroban_sdk::Vec::<u32>::push_back`: appends `x`, a `u32` value. The
/// host refuses to grow a vector past `u32::MAX` items, so that input is
/// left out.
#[verifier::external_body]
pub fn country_list_push(v: &mut soroban_sdk::Vec<u32>, x: u32)
    requires
        country_list(*old(v)).len() < u32::MAX,
    ensures
        country_list(*final(v)) == country_list(*old(v)).push(x),
        country_items_typed(*old(v)) ==> country_items_typed(*final(v)),
{
    v.push_back(x)
}

/// `Clone` of `soroban_sdk::Vec<u32>` (derived): copies the environment
/// handle and the handle of the same immutable host vector, so the copy is
/// the same vector.
#[verifier::external_body]
pub fn country_list_clone(v: &soroban_sdk::Vec<u32>) -> (r: soroban_sdk::Vec<u32>)
    ensures
        r == *v,
{
    v.clone()
}

// ---------------------------------------------------------------------------
// Host vectors of accounts
// ---------------------------------------------------------------------------

/// The items of a host vector of accounts, in order, each read as a `u64`.
/// The host keeps untyped values, so an item need not be a `u64`; where it
/// is not, this reading says nothing of it.
pub uninterp spec fn account_list(v: soroban_sdk::Vec<u64>) -> Seq<u64>;

/// The item at position `i` of the host vector is a `u64` value.
pub uninterp spec fn account_item_converts(v: soroban_sdk::Vec<u64>, i: int) -> bool;

/// Every item of the host vector is a `u64` value.
pub open spec fn account_items_typed(v: soroban_sdk::Vec<u64>) -> bool {
    forall|i: int| 0 <= i < account_list(v).len() ==> #[trigger] account_item_converts(v, i)
}

/// `soroban_sdk::Vec::<u64>::new`: a new host vector holds no item.
#[verifier::external_body]
pub fn new_account_list(env: &soroban_sdk::Env) -> (r: soroban_sdk::Vec<u64>)
    ensures
        account_list(r) == Seq::<u64>::empty(),
{
    soroban_sdk::Vec::new(env)
}

/// `soroban_sdk::Vec::<u64>::len`: the number of items.
#[verifier::external_body]
pub fn account_list_len(v: &soroban_sdk::Vec<u64>) -> (r: u32)
    ensures
        r == account_list(*v).len(),
{
    v.len()
}

/// `soroban_sdk::Vec::<u64>::try_get`: `Ok(None)` when `i` is out of
/// bounds; else the item at position `i` when it is a `u64`, and the
/// conversion error when it is not.
#[verifier::external_body]
pub fn account_list_try_get(v: &soroban_sdk::Vec<u64>, i: u32)
    -> (r: Result<Option<u64>, soroban_sdk::Error>)
    ensures
        i >= account_list(*v).len() ==> r is Ok && r->Ok_0 is None,
        i < account_list(*v).len() ==> (r is Ok <==> account_item_converts(*v, i as int)),
        i < account_list(*v).len() && r is Ok ==> r->Ok_0 == Some(account_list(*v)[i as int]),
{
    v.try_get(i)
}

/// `soroban_sdk::Vec::<u64>::push_back`: appends `x`, a `u64` value. The
/// host refuses to grow a vector past `u32::MAX` items, so that input is
/// left out.
#[verifier::external_body]
pub fn account_list_push(v: &mut soroban_sdk::Vec<u64>, x: u64)
    requires
        account_list(*old(v)).len() < u32::MAX,
    ensures
        account_list(*final(v)) == account_list(*old(v)).push(x),
        account_items_typed(*old(v)) ==> account_items_typed(*final(v)),
{
    v.push_back(x)
}

/// `Clone` of `soroban_sdk::Vec<u64>` (derived): copies the environment
/// handle and the handle of the same immutable host vector, so the copy is
/// the same vector.
#[verifier::external_body]
pub fn account_list_clone(v: &soroban_sdk::Vec<u64>) -> (r: soroban_sdk::Vec<u64>)
    ensures
        r == *v,
{
    v.clone()
}

// ---------------------------------------------------------------------------
// Host maps from accounts to flags
// ---------------------------------------------------------------------------

/// The entries of a host map from accounts to flags, each value read as a
/// `bool`. The host keeps untyped values; where a value is not a `bool`,
/// this reading says nothing of it.
pub uninterp spec fn agent_flags(m: soroban_sdk::Map<u64, bool>) -> Map<u64, bool>;

/// The value stored for `k` in the host map is a `bool` value.
pub uninterp spec fn agent_flag_converts(m: soroban_sdk::Map<u64, bool>, k: u64) -> bool;

/// Every value of the host map is a `bool` value.
pub open spec fn agent_flags_typed(m: soroban_sdk::Map<u64, bool>) -> bool {
    forall|k: u64| agent_flags(m).contains_key(k) ==> #[trigger] agent_flag_converts(m, k)
}

/// `soroban_sdk::Map::<u64, bool>::new`: a new host map has no entry.
#[verifier::external_body]
pub fn new_agent_flags(env: &soroban_sdk::Env) -> (r: soroban_sdk::Map<u64, bool>)
    ensures
        agent_flags(r).dom().is_empty(),
{
    soroban_sdk::Map::new(env)
}

/// `soroban_sdk::Map::<u64, bool>::set`: the entry of `k` becomes `v`, a
/// `bool` value, replacing any earlier one.
#[verifier::external_body]
pub fn agent_flags_set(m: &mut soroban_sdk::Map<u64, bool>, k: u64, v: bool)
    ensures
        agent_flags(*final(m)) == agent_flags(*old(m)).insert(k, v),
        agent_flags_typed(*old(m)) ==> agent_flags_typed(*final(m)),
{
    m.set(k, v)
}

/// `soroban_sdk::Map::<u64, bool>::remove`: removes the entry of `k`;
/// `Some(())` when there was one, `None` when there was none.
#[verifier::external_body]
pub fn agent_flags_remove(m: &mut soroban_sdk::Map<u64, bool>, k: u64) -> (r: Option<()>)
    ensures
        agent_flags(*final(m)) == agent_flags(*old(m)).remove(k),
        agent_flags_typed(*old(m)) ==> agent_flags_typed(*final(m)),
        r is Some <==> agent_flags(*old(m)).contains_key(k),
{
    m.remove(k)
}

/// `soroban_sdk::Map::<u64, bool>::try_get`: `Ok(None)` when `k` has no
/// entry; else its value when it is a `bool`, and the conversion error when
/// it is not.
#[verifier::external_body]
pub fn agent_flags_try_get(m: &soroban_sdk::Map<u64, bool>, k: u64)
    -> (r: Result<Option<bool>, soroban_sdk::ConversionError>)
    ensures
        !agent_flags(*m).contains_key(k) ==> r is Ok && r->Ok_0 is None,
        agent_flags(*m).contains_key(k) ==> (r is Ok <==> agent_flag_converts(*m, k)),
        agent_flags(*m).contains_key(k) && r is Ok ==> r->Ok_0 == Some(agent_flags(*m)[k]),
{
    m.try_get(k)
}

/// `Clone` of `soroban_sdk::Map<u64, bool>` (derived): copies the
/// environment handle and the handle of the same immutable host map, so the
/// copy is the same map.
#[verifier::external_body]
pub fn agent_flags_clone(m: &soroban_sdk::Map<u64, bool>) -> (r: soroban_sdk::Map<u64, bool>)
    ensures
        r == *m,
{
    m.clone()
}

// ---------------------------------------------------------------------------
// Host byte strings
// ---------------------------------------------------------------------------

/// The bytes held by a host byte string.
pub uninterp spec fn byte_content(b: soroban_sdk::Bytes) -> Seq<u8>;

/// `soroban_sdk::Bytes::from_slice`: a host byte string holding `items`.
#[verifier::external_body]
pub fn bytes_from_slice(env: &soroban_sdk::Env, items: &[u8]) -> (r: soroban_sdk::Bytes)
    ensures
        byte_content(r) == items@,
{
    soroban_sdk::Bytes::from_slice(env, items)
}

/// `PartialEq` of `soroban_sdk::Bytes`: the host compares the two byte
/// strings item by item, so they are equal exactly when they hold the same
/// bytes.
#[verifier::external_body]
pub fn bytes_equal(a: &soroban_sdk::Bytes, b: &soroban_sdk::Bytes) -> (r: bool)
    ensures
        r == (byte_content(*a) == byte_content(*b)),
{
    a == b
}

} // verus!
