//! Ledger entries read with a default, as the contracts read their storage:
//! an amount that was never written is zero, a flag that was never written
//! is `false`.
use std::collections::HashMap;
use vstd::prelude::*;

verus! {

broadcast use vstd::std_specs::hash::group_hash_axioms;

/// The amount stored for `k`, zero when there is none.
pub open spec fn amount_in(m: Map<u64, i128>, k: u64) -> i128 {
    if m.contains_key(k) {
        m[k]
    } else {
        0
    }
}

/// The flag stored for `k`, `false` when there is none.
pub open spec fn flag_in(m: Map<u64, bool>, k: u64) -> bool {
    if m.contains_key(k) {
        m[k]
    } else {
        false
    }
}

/// Reads the amount stored for `k`, zero when there is none.
pub fn read_amount(m: &HashMap<u64, i128>, k: u64) -> (r: i128)
    ensures
        r == amount_in(m@, k),
{
    match m.get(&k) {
        Some(v) => *v,
        None => 0,
    }
}

/// Reads the flag stored for `k`, `false` when there is none.
pub fn read_flag(m: &HashMap<u64, bool>, k: u64) -> (r: bool)
    ensures
        r == flag_in(m@, k),
{
    match m.get(&k) {
        Some(v) => *v,
        None => false,
    }
}

/// Writes the amount stored for `k`.
pub fn write_amount(m: &mut HashMap<u64, i128>, k: u64, v: i128)
    ensures
        final(m)@ == old(m)@.insert(k, v),
{
    m.insert(k, v);
}

/// Writes the flag stored for `k`.
pub fn write_flag(m: &mut HashMap<u64, bool>, k: u64, v: bool)
    ensures
        final(m)@ == old(m)@.insert(k, v),
{
    m.insert(k, v);
}

} // verus!
