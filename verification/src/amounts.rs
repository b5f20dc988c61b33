//! Running amounts kept per account, where an account never credited holds zero.
use vstd::prelude::*;

use std::collections::HashMap;
use std::hash::Hash;

verus! {

broadcast use vstd::std_specs::hash::group_hash_axioms;

/// The amount recorded under `key`, zero when none is.
pub open spec fn amount_in<K>(amounts: Map<K, i128>, key: K) -> int {
    if amounts.contains_key(key) {
        amounts[key] as int
    } else {
        0
    }
}

/// An integer fits in an `i128`.
pub open spec fn fits_i128(x: int) -> bool {
    i128::MIN <= x <= i128::MAX
}

/// Returns the amount recorded under `key`, zero when none is.
pub fn amount_of<K: Hash + Eq>(amounts: &HashMap<K, i128>, key: &K) -> (r: i128)
    requires
        vstd::std_specs::hash::obeys_key_model::<K>(),
    ensures
        r == amount_in(amounts@, *key),
{
    match amounts.get(key) {
        Some(v) => *v,
        None => 0,
    }
}

/// The key under which an amount owed by `user` in `asset` is kept: the two
/// identifiers side by side in one 128-bit number.
pub open spec fn pair_key(user: u64, asset: u64) -> u128 {
    (user as int * 0x1_0000_0000_0000_0000 + asset as int) as u128
}

/// Distinct (user, asset) pairs have distinct keys.
pub proof fn lemma_pair_key_injective(u1: u64, a1: u64, u2: u64, a2: u64)
    ensures
        pair_key(u1, a1) == pair_key(u2, a2) <==> (u1 == u2 && a1 == a2),
{
    assert(u1 as int * 0x1_0000_0000_0000_0000 + a1 as int <= u128::MAX) by (nonlinear_arith)
        requires
            u1 <= u64::MAX,
            a1 <= u64::MAX,
    ;
    assert(u2 as int * 0x1_0000_0000_0000_0000 + a2 as int <= u128::MAX) by (nonlinear_arith)
        requires
            u2 <= u64::MAX,
            a2 <= u64::MAX,
    ;
    if pair_key(u1, a1) == pair_key(u2, a2) {
        assert(u1 == u2 && a1 == a2) by (nonlinear_arith)
            requires
                u1 as int * 0x1_0000_0000_0000_0000 + a1 as int == u2 as int
                    * 0x1_0000_0000_0000_0000 + a2 as int,
                a1 <= u64::MAX,
                a2 <= u64::MAX,
        ;
    }
}

/// Computes `pair_key(user, asset)`.
pub fn make_pair_key(user: u64, asset: u64) -> (r: u128)
    ensures
        r == pair_key(user, asset),
{
    assert(user as int * 0x1_0000_0000_0000_0000 + asset as int <= u128::MAX) by (nonlinear_arith)
        requires
            user <= u64::MAX,
            asset <= u64::MAX,
    ;
    user as u128 * 0x1_0000_0000_0000_0000u128 + asset as u128
}

/// Adds the amount recorded under one key to a running total.
pub open spec fn add_amount<K>(amounts: Map<K, i128>) -> spec_fn(int, K) -> int {
    |acc: int, key: K| acc + amounts[key] as int
}

/// The sum of all the amounts recorded.
pub open spec fn total_of<K>(amounts: Map<K, i128>) -> int {
    amounts.dom().fold(0int, add_amount(amounts))
}

proof fn lemma_add_amount_commutative<K>(amounts: Map<K, i128>)
    ensures
        vstd::set::fold::is_fun_commutative(add_amount(amounts)),
{
}

/// Folding a set with two functions that agree on its members gives the same sum.
proof fn lemma_fold_agrees<K>(s: Set<K>, m1: Map<K, i128>, m2: Map<K, i128>)
    requires
        s.finite(),
        forall|k: K| s.contains(k) ==> m1[k] == m2[k],
    ensures
        s.fold(0int, add_amount(m1)) == s.fold(0int, add_amount(m2)),
    decreases s.len(),
{
    lemma_add_amount_commutative(m1);
    lemma_add_amount_commutative(m2);
    if s.len() == 0 {
        assert(s =~= Set::<K>::empty());
        vstd::set::fold::lemma_fold_empty(0int, add_amount(m1));
        vstd::set::fold::lemma_fold_empty(0int, add_amount(m2));
    } else {
        let k = s.choose();
        let rest = s.remove(k);
        lemma_fold_agrees(rest, m1, m2);
        assert(rest.insert(k) =~= s);
        vstd::set::fold::lemma_fold_insert(rest, 0int, add_amount(m1), k);
        vstd::set::fold::lemma_fold_insert(rest, 0int, add_amount(m2), k);
    }
}

/// The total of no amounts is zero.
pub proof fn lemma_total_of_empty<K>()
    ensures
        total_of(Map::<K, i128>::empty()) == 0,
{
    assert(Map::<K, i128>::empty().dom() =~= Set::<K>::empty());
    vstd::set::fold::lemma_fold_empty(0int, add_amount(Map::<K, i128>::empty()));
}

/// Taking a key out of a finite record lowers its total by the amount under it.
pub proof fn lemma_total_of_remove<K>(amounts: Map<K, i128>, key: K)
    requires
        amounts.dom().finite(),
    ensures
        total_of(amounts.remove(key)) == total_of(amounts) - amount_in(amounts, key),
{
    let rest = amounts.remove(key);
    assert(rest.dom() =~= amounts.dom().remove(key));
    lemma_fold_agrees(rest.dom(), rest, amounts);
    if amounts.contains_key(key) {
        lemma_add_amount_commutative(amounts);
        assert(rest.dom().insert(key) =~= amounts.dom());
        vstd::set::fold::lemma_fold_insert(rest.dom(), 0int, add_amount(amounts), key);
    } else {
        assert(rest.dom() =~= amounts.dom());
    }
}

/// Setting the amount under a key of a finite record changes its total by
/// the difference.
pub proof fn lemma_total_of_insert<K>(amounts: Map<K, i128>, key: K, value: i128)
    requires
        amounts.dom().finite(),
    ensures
        total_of(amounts.insert(key, value)) == total_of(amounts) - amount_in(amounts, key) + value,
{
    let rest = amounts.remove(key);
    let after = amounts.insert(key, value);
    lemma_total_of_remove(amounts, key);
    lemma_total_of_remove(after, key);
    assert(after.remove(key) =~= rest);
}

} // verus!
