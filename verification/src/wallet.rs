//! Links between users and the wallets they own: each wallet is linked to at
//! most one user, and each user keeps the list of their wallets.
use vstd::prelude::*;

use std::collections::HashMap;

use crate::AccountId;

verus! {

broadcast use vstd::std_specs::hash::group_hash_axioms;

/// What the wallet registry announces to the outside world.
#[derive(Clone, Copy, Debug, PartialEq, Eq, Structural)]
pub enum WalletEvent {
    WalletLinked { user: AccountId, wallet: AccountId },
    WalletUnlinked { user: AccountId, wallet: AccountId },
}

/// The wallet registry: the owner of each linked wallet, each user's list of
/// wallets in the order they were linked, and the events emitted (oldest first).
pub struct WalletLinkingContract {
    pub owners: HashMap<AccountId, AccountId>,
    pub wallets: HashMap<AccountId, Vec<AccountId>>,
    pub events: Vec<WalletEvent>,
}

/// Holds of every account but `wallet`.
pub open spec fn other_than(wallet: AccountId) -> spec_fn(AccountId) -> bool {
    |w: AccountId| w != wallet
}

/// `list` without `wallet`, the others kept in order.
pub open spec fn without(list: Seq<AccountId>, wallet: AccountId) -> Seq<AccountId> {
    list.filter(other_than(wallet))
}

/// Removing an element keeps every other element and drops all copies of it.
pub proof fn lemma_without_contains(list: Seq<AccountId>, wallet: AccountId, w: AccountId)
    ensures
        without(list, wallet).contains(w) <==> (list.contains(w) && w != wallet),
    decreases list.len(),
{
    reveal(Seq::filter);
    if list.len() > 0 {
        lemma_without_contains(list.drop_last(), wallet, w);
        assert(list =~= list.drop_last().push(list.last()));
        if list.contains(w) && w != list.last() {
            let i = choose|i: int| 0 <= i < list.len() && list[i] == w;
            assert(list.drop_last()[i] == w);
        }
    }
}

/// Removing an element from a list without repeats leaves no repeats.
pub proof fn lemma_without_no_duplicates(list: Seq<AccountId>, wallet: AccountId)
    requires
        list.no_duplicates(),
    ensures
        without(list, wallet).no_duplicates(),
    decreases list.len(),
{
    reveal(Seq::filter);
    if list.len() > 0 {
        let rest = list.drop_last();
        assert(rest.no_duplicates());
        lemma_without_no_duplicates(rest, wallet);
        let last = list.last();
        if last != wallet {
            lemma_without_contains(rest, wallet, last);
            assert(!rest.contains(last)) by {
                if rest.contains(last) {
                    let i = choose|i: int| 0 <= i < rest.len() && rest[i] == last;
                    assert(list[i] == list[list.len() - 1]);
                }
            }
        }
    }
}

/// Removing an element that a list does not hold leaves the list as it is.
pub proof fn lemma_without_absent(list: Seq<AccountId>, wallet: AccountId)
    requires
        !list.contains(wallet),
    ensures
        without(list, wallet) == list,
    decreases list.len(),
{
    reveal(Seq::filter);
    if list.len() > 0 {
        let rest = list.drop_last();
        assert(!rest.contains(wallet)) by {
            if rest.contains(wallet) {
                let i = choose|i: int| 0 <= i < rest.len() && rest[i] == wallet;
                assert(list[i] == wallet);
            }
        }
        lemma_without_absent(rest, wallet);
        assert(list.last() != wallet) by {
            assert(list[list.len() - 1] == list.last());
        }
        assert(rest.push(list.last()) =~= list);
    }
}

/// Unlinking a wallet undoes linking it: in a consistent registry, the
/// user's list after a link and then an unlink of the same wallet is the
/// list before.
pub proof fn lemma_unlink_undoes_link(registry: WalletLinkingContract, user: AccountId, wallet: AccountId)
    requires
        registry.links_consistent(),
        registry.owner_of(wallet) is None,
    ensures
        without(registry.wallets_of(user).push(wallet), wallet) == registry.wallets_of(user),
{
    let list = registry.wallets_of(user);
    assert(!list.contains(wallet)) by {
        if list.contains(wallet) {
            assert(registry.owner_of(wallet) == Some(user));
        }
    }
    reveal(Seq::filter);
    assert(list.push(wallet).drop_last() =~= list);
    lemma_without_absent(list, wallet);
}

impl WalletLinkingContract {
    /// The wallets linked to `user`, in the order they were linked.
    pub open spec fn wallets_of(self, user: AccountId) -> Seq<AccountId> {
        if self.wallets@.contains_key(user) {
            self.wallets@[user]@
        } else {
            Seq::empty()
        }
    }

    /// The user that `wallet` is linked to, if any.
    pub open spec fn owner_of(self, wallet: AccountId) -> Option<AccountId> {
        if self.owners@.contains_key(wallet) {
            Some(self.owners@[wallet])
        } else {
            None
        }
    }

    /// The two records agree: a wallet is linked to a user exactly when it
    /// stands in that user's list, and no list names a wallet twice.
    pub open spec fn links_consistent(self) -> bool {
        &&& forall|w: AccountId, u: AccountId| #[trigger]
            self.wallets_of(u).contains(w) ==> self.owner_of(w) == Some(u)
        &&& forall|w: AccountId| #[trigger]
            self.owners@.contains_key(w) ==> self.wallets_of(self.owners@[w]).contains(w)
        &&& forall|u: AccountId| #[trigger] self.wallets_of(u).no_duplicates()
    }

    /// An empty registry.
    pub fn new() -> (r: Self)
        ensures
            r.owners@ == Map::<AccountId, AccountId>::empty(),
            r.wallets@ == Map::<AccountId, Vec<AccountId>>::empty(),
            r.events@ == Seq::<WalletEvent>::empty(),
            r.links_consistent(),
    {
        WalletLinkingContract { owners: HashMap::new(), wallets: HashMap::new(), events: Vec::new() }
    }

    /// Links `wallet` to `user`, at the end of the user's list. The wallet
    /// must not be linked yet.
    pub fn link_wallet(&mut self, user: AccountId, wallet: AccountId)
        requires
            old(self).owner_of(wallet) is None,
        ensures
            final(self).owners@ == old(self).owners@.insert(wallet, user),
            final(self).wallets_of(user) == old(self).wallets_of(user).push(wallet),
            forall|u: AccountId| u != user ==> #[trigger] final(self).wallets_of(u) == old(self).wallets_of(u),
            final(self).events@ == old(self).events@.push(WalletEvent::WalletLinked { user, wallet }),
            old(self).links_consistent() ==> final(self).links_consistent(),
    {
        self.owners.insert(wallet, user);
        let mut list = match self.wallets.remove(&user) {
            Some(v) => v,
            None => Vec::new(),
        };
        list.push(wallet);
        self.wallets.insert(user, list);
        self.events.push(WalletEvent::WalletLinked { user, wallet });
        proof {
            if old(self).links_consistent() {
                assert forall|w: AccountId, u: AccountId| #[trigger]
                    self.wallets_of(u).contains(w) implies self.owner_of(w) == Some(u) by {
                    if u == user {
                        if w != wallet {
                            let i = choose|i: int| 0 <= i < self.wallets_of(u).len() && self.wallets_of(u)[i] == w;
                            assert(old(self).wallets_of(u)[i] == w);
                            assert(old(self).wallets_of(u).contains(w));
                        }
                    } else {
                        assert(old(self).wallets_of(u).contains(w));
                        if w == wallet {
                            assert(old(self).owner_of(w) == Some(u));
                        }
                    }
                }
                assert forall|w: AccountId| #[trigger]
                    self.owners@.contains_key(w) implies self.wallets_of(self.owners@[w]).contains(w) by {
                    let u = self.owners@[w];
                    if w == wallet {
                        assert(self.wallets_of(user)[self.wallets_of(user).len() - 1] == wallet);
                    } else {
                        assert(old(self).owners@.contains_key(w));
                        assert(old(self).wallets_of(u).contains(w));
                        if u == user {
                            let i = choose|i: int| 0 <= i < old(self).wallets_of(u).len() && old(self).wallets_of(u)[i] == w;
                            assert(self.wallets_of(u)[i] == w);
                        }
                    }
                }
                assert forall|u: AccountId| #[trigger] self.wallets_of(u).no_duplicates() by {
                    if u == user {
                        let old_list = old(self).wallets_of(u);
                        assert(old(self).wallets_of(u).no_duplicates());
                        assert(!old_list.contains(wallet));
                        assert forall|i: int, j: int|
                            0 <= i < self.wallets_of(u).len() && 0 <= j < self.wallets_of(u).len() && i != j
                            implies self.wallets_of(u)[i] != self.wallets_of(u)[j] by {
                            if i < old_list.len() && j < old_list.len() {
                            } else if i < old_list.len() {
                                assert(old_list[i] == self.wallets_of(u)[i]);
                            } else {
                                assert(old_list[j] == self.wallets_of(u)[j]);
                            }
                        }
                    } else {
                        assert(old(self).wallets_of(u).no_duplicates());
                    }
                }
            }
        }
    }

    /// Unlinks `wallet` from `user`, and drops it from the user's list. The
    /// wallet must be linked, and to `user`.
    pub fn unlink_wallet(&mut self, user: AccountId, wallet: AccountId)
        requires
            old(self).owner_of(wallet) == Some(user),
        ensures
            final(self).owners@ == old(self).owners@.remove(wallet),
            final(self).wallets_of(user) == without(old(self).wallets_of(user), wallet),
            forall|u: AccountId| u != user ==> #[trigger] final(self).wallets_of(u) == old(self).wallets_of(u),
            final(self).events@ == old(self).events@.push(WalletEvent::WalletUnlinked { user, wallet }),
            old(self).links_consistent() ==> final(self).links_consistent(),
    {
        self.owners.remove(&wallet);
        let list = match self.wallets.remove(&user) {
            Some(v) => v,
            None => Vec::new(),
        };
        let ghost old_list = list@;
        let ghost keep = other_than(wallet);
        let mut kept: Vec<AccountId> = Vec::new();
        let n = list.len();
        let mut i: usize = 0;
        while i < n
            invariant
                n == list@.len(),
                list@ == old_list,
                keep == other_than(wallet),
                0 <= i <= n,
                kept@ == old_list.take(i as int).filter(keep),
            decreases n - i,
        {
            let w = list[i];
            proof {
                assert(old_list.take(i + 1) =~= old_list.take(i as int).push(w));
                old_list.take(i as int).lemma_filter_push(w, keep);
            }
            if w != wallet {
                kept.push(w);
            }
            i = i + 1;
        }
        assert(old_list.take(n as int) =~= old_list);
        self.wallets.insert(user, kept);
        self.events.push(WalletEvent::WalletUnlinked { user, wallet });
        proof {
            assert(self.wallets_of(user) == without(old(self).wallets_of(user), wallet));
            if old(self).links_consistent() {
                assert forall|w: AccountId, u: AccountId| #[trigger]
                    self.wallets_of(u).contains(w) implies self.owner_of(w) == Some(u) by {
                    if u == user {
                        lemma_without_contains(old(self).wallets_of(user), wallet, w);
                        assert(old(self).wallets_of(u).contains(w));
                    } else {
                        assert(old(self).wallets_of(u).contains(w));
                        if w == wallet {
                            assert(old(self).owner_of(w) == Some(u));
                        }
                    }
                }
                assert forall|w: AccountId| #[trigger]
                    self.owners@.contains_key(w) implies self.wallets_of(self.owners@[w]).contains(w) by {
                    let u = self.owners@[w];
                    assert(old(self).owners@.contains_key(w));
                    assert(old(self).wallets_of(u).contains(w));
                    if u == user {
                        lemma_without_contains(old(self).wallets_of(user), wallet, w);
                    }
                }
                assert forall|u: AccountId| #[trigger] self.wallets_of(u).no_duplicates() by {
                    assert(old(self).wallets_of(u).no_duplicates());
                    if u == user {
                        lemma_without_no_duplicates(old(self).wallets_of(user), wallet);
                    }
                }
            }
        }
    }

    /// The wallets linked to `user`, in the order they were linked.
    pub fn get_wallets(&self, user: AccountId) -> (r: Vec<AccountId>)
        ensures
            r@ == self.wallets_of(user),
    {
        match self.wallets.get(&user) {
            Some(list) => {
                let mut out: Vec<AccountId> = Vec::new();
                let n = list.len();
                let mut i: usize = 0;
                while i < n
                    invariant
                        n == list@.len(),
                        0 <= i <= n,
                        out@ == list@.take(i as int),
                    decreases n - i,
                {
                    proof {
                        assert(list@.take(i + 1) =~= list@.take(i as int).push(list@[i as int]));
                    }
                    out.push(list[i]);
                    i = i + 1;
                }
                assert(list@.take(n as int) =~= list@);
                out
            },
            None => Vec::new(),
        }
    }

    /// The user that `wallet` is linked to, if any.
    pub fn get_wallet_owner(&self, wallet: AccountId) -> (r: Option<AccountId>)
        ensures
            r == self.owner_of(wallet),
    {
        match self.owners.get(&wallet) {
            Some(u) => Some(*u),
            None => None,
        }
    }
}

} // verus!
