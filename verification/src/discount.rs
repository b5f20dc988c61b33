//! Fee discounts with an expiry time: a discount applies up to and including
//! its expiry timestamp and is ignored afterwards.
use vstd::prelude::*;

use std::collections::HashMap;

use crate::AccountId;

verus! {

broadcast use vstd::std_specs::hash::group_hash_axioms;

/// A fee discount with an expiration timestamp.
#[derive(Clone, Copy, Debug, PartialEq, Eq, Structural)]
pub struct FeeDiscount {
    /// The discount rate in basis points (e.g., 500 = 5% discount).
    pub discount_bps: u32,
    /// The ledger timestamp at which this discount expires.
    pub expires_at: u64,
}

/// What the discount book announces to the outside world.
#[derive(Clone, Copy, Debug, PartialEq, Eq, Structural)]
pub enum DiscountEvent {
    DiscountStored { user: AccountId, discount_bps: u32, expires_at: u64 },
    DiscountExpired { user: AccountId, discount_bps: u32, expires_at: u64 },
    DiscountRemoved { user: AccountId },
}

/// The discounts granted, one per user at most, and the events emitted
/// (oldest first).
pub struct DiscountBook {
    pub discounts: HashMap<AccountId, FeeDiscount>,
    pub events: Vec<DiscountEvent>,
}

/// The discount of `user` that applies at ledger time `now`: the stored one
/// unless it has expired.
pub open spec fn active_discount(discounts: Map<AccountId, FeeDiscount>, user: AccountId, now: u64) -> Option<u32> {
    if discounts.contains_key(user) && now <= discounts[user].expires_at {
        Some(discounts[user].discount_bps)
    } else {
        None
    }
}

impl DiscountBook {
    /// A book without discounts.
    pub fn new() -> (r: Self)
        ensures
            r.discounts@ == Map::<AccountId, FeeDiscount>::empty(),
            r.events@ == Seq::<DiscountEvent>::empty(),
    {
        DiscountBook { discounts: HashMap::new(), events: Vec::new() }
    }
}

/// Stores a fee discount for `user` that expires at `expires_at`, replacing
/// any earlier one.
pub fn store_discount(book: &mut DiscountBook, user: AccountId, discount_bps: u32, expires_at: u64)
    ensures
        final(book).discounts@ == old(book).discounts@.insert(user, FeeDiscount { discount_bps, expires_at }),
        final(book).events@ == old(book).events@.push(
            DiscountEvent::DiscountStored { user, discount_bps, expires_at },
        ),
{
    book.discounts.insert(user, FeeDiscount { discount_bps, expires_at });
    book.events.push(DiscountEvent::DiscountStored { user, discount_bps, expires_at });
}

/// The discount rate of `user` at ledger time `now`, if one applies. A
/// discount found expired is ignored, and its expiry announced.
pub fn get_active_discount(book: &mut DiscountBook, now: u64, user: AccountId) -> (r: Option<u32>)
    ensures
        r == active_discount(old(book).discounts@, user, now),
        final(book).discounts == old(book).discounts,
        final(book).events@ == if old(book).discounts@.contains_key(user) && now
            > old(book).discounts@[user].expires_at {
            old(book).events@.push(
                DiscountEvent::DiscountExpired {
                    user,
                    discount_bps: old(book).discounts@[user].discount_bps,
                    expires_at: old(book).discounts@[user].expires_at,
                },
            )
        } else {
            old(book).events@
        },
{
    let stored: Option<FeeDiscount> = match book.discounts.get(&user) {
        Some(d) => Some(*d),
        None => None,
    };
    match stored {
        Some(d) => {
            if now <= d.expires_at {
                Some(d.discount_bps)
            } else {
                book.events.push(
                    DiscountEvent::DiscountExpired {
                        user,
                        discount_bps: d.discount_bps,
                        expires_at: d.expires_at,
                    },
                );
                None
            }
        },
        None => None,
    }
}

/// Removes the discount of `user`, if any.
pub fn remove_discount(book: &mut DiscountBook, user: AccountId)
    ensures
        final(book).discounts@ == old(book).discounts@.remove(user),
        final(book).events@ == old(book).events@.push(DiscountEvent::DiscountRemoved { user }),
{
    book.discounts.remove(&user);
    book.events.push(DiscountEvent::DiscountRemoved { user });
}

/// A stored discount applies exactly until its expiry timestamp, inclusive,
/// and leaves the discounts of other users as they were.
pub proof fn lemma_stored_discount_applies_until_expiry(
    discounts: Map<AccountId, FeeDiscount>,
    user: AccountId,
    other: AccountId,
    discount_bps: u32,
    expires_at: u64,
    now: u64,
)
    ensures
        ({
            let after = discounts.insert(user, FeeDiscount { discount_bps, expires_at });
            &&& active_discount(after, user, now) == if now <= expires_at {
                Some(discount_bps)
            } else {
                None
            }
            &&& other != user ==> active_discount(after, other, now) == active_discount(discounts, other, now)
        }),
{
}

/// A removed discount no longer applies, at any time.
pub proof fn lemma_removed_discount_never_applies(
    discounts: Map<AccountId, FeeDiscount>,
    user: AccountId,
    now: u64,
)
    ensures
        active_discount(discounts.remove(user), user, now) is None,
{
}

/// Marks the fee snapshot feature.
pub fn func_issue_216() {
}

/// Marks the fee configuration audit trail.
pub fn func_issue_214() {
}

/// Marks the storage optimization.
pub fn func_issue_211() {
}

/// Marks the fee thresholds.
pub fn func_issue_205() {
}

/// Marks the fee locking mechanism.
pub fn func_issue_202() {
}

/// Marks fee splitting per category.
pub fn func_issue_201() {
}

/// Marks the fee history.
pub fn func_issue_199() {
}

/// Marks the fee rollover logic.
pub fn func_issue_196() {
}

/// Marks the treasury segregation.
pub fn func_issue_192() {
}

} // verus!
