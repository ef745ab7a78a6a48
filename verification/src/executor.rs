//! The roster of one route type: which worker serves which account.
//!
//! An account is known by its broker and its name together: the same name
//! under another broker is another account. The roster is built once, at
//! startup, and only read afterwards. Its handles stand in the order of their
//! accounts' keys, no account twice, so that a lookup halves the roster at
//! each step. What a handle carries besides the account is the caller's: the
//! sending end of the worker's request channel.

use crate::error::BaseError;
use crate::keys::{
    compare_pair, lemma_pair_key_injective, lemma_pair_precedes_irreflexive,
    lemma_pair_precedes_transitive, pair_key, pair_precedes, KeyOrder,
};
use vstd::prelude::*;
use vstd::string::StringSliceAdditionalSpecFns;

verus! {

/// The way to one worker: the account it serves, by broker and name, and the
/// sending end of its request channel.
#[derive(Debug, PartialEq, Eq)]
pub struct TraderHandle<T> {
    pub broker_id: String,
    pub account: String,
    pub tx: T,
}

impl<T> TraderHandle<T> {
    /// The account that this handle leads to: its broker and its name.
    pub open spec fn name(&self) -> (Seq<char>, Seq<char>) {
        (self.broker_id@, self.account@)
    }
}

/// The key of an account.
spec fn key_of_name(name: (Seq<char>, Seq<char>)) -> (Seq<u8>, Seq<u8>) {
    pair_key(name.0, name.1)
}

/// The key of the handle at place `i`.
spec fn key_at<T>(handles: Seq<TraderHandle<T>>, i: int) -> (Seq<u8>, Seq<u8>) {
    key_of_name(handles[i].name())
}

/// The handles stand in strictly rising order of their keys.
spec fn sorted<T>(handles: Seq<TraderHandle<T>>) -> bool {
    forall|i: int, j: int|
        0 <= i < j < handles.len() ==> pair_precedes(
            #[trigger] key_at(handles, i),
            #[trigger] key_at(handles, j),
        )
}

/// Some handle is filed under `account`.
spec fn listed<T>(handles: Seq<TraderHandle<T>>, account: (Seq<char>, Seq<char>)) -> bool {
    exists|i: int| 0 <= i < handles.len() && #[trigger] handles[i].name() == account
}

/// A place at which `account` is filed, if it is filed at all.
spec fn place_of<T>(handles: Seq<TraderHandle<T>>, account: (Seq<char>, Seq<char>)) -> int {
    choose|i: int| 0 <= i < handles.len() && #[trigger] handles[i].name() == account
}

/// The roster as a map from account to what its handle carries.
spec fn as_map<T>(handles: Seq<TraderHandle<T>>) -> Map<(Seq<char>, Seq<char>), T> {
    Map::new(
        |account: (Seq<char>, Seq<char>)| listed(handles, account),
        |account: (Seq<char>, Seq<char>)| handles[place_of(handles, account)].tx,
    )
}

/// In a sorted roster an account is filed at one place only.
proof fn lemma_one_place<T>(handles: Seq<TraderHandle<T>>, i: int, j: int)
    requires
        sorted(handles),
        0 <= i < handles.len(),
        0 <= j < handles.len(),
        handles[i].name() == handles[j].name(),
    ensures
        i == j,
{
    lemma_pair_precedes_irreflexive(key_at(handles, i));
    if i < j {
        assert(pair_precedes(key_at(handles, i), key_at(handles, j)));
    } else if j < i {
        assert(pair_precedes(key_at(handles, j), key_at(handles, i)));
    }
}

/// In a sorted roster the map gives, for the account at place `i`, what the
/// handle at `i` carries.
proof fn lemma_map_at<T>(handles: Seq<TraderHandle<T>>, i: int)
    requires
        sorted(handles),
        0 <= i < handles.len(),
    ensures
        as_map(handles).contains_key(handles[i].name()),
        as_map(handles)[handles[i].name()] == handles[i].tx,
{
    let account = handles[i].name();
    assert(listed(handles, account));
    lemma_one_place(handles, i, place_of(handles, account));
}

/// A key that lies strictly between the keys before place `p` and those from
/// `p` on belongs to no handle.
proof fn lemma_gap_is_unlisted<T>(
    handles: Seq<TraderHandle<T>>,
    account: (Seq<char>, Seq<char>),
    p: int,
)
    requires
        0 <= p <= handles.len(),
        forall|i: int|
            0 <= i < p ==> pair_precedes(#[trigger] key_at(handles, i), key_of_name(account)),
        forall|i: int|
            p <= i < handles.len() ==> pair_precedes(
                key_of_name(account),
                #[trigger] key_at(handles, i),
            ),
    ensures
        !listed(handles, account),
{
    lemma_pair_precedes_irreflexive(key_of_name(account));
    assert forall|i: int| 0 <= i < handles.len() implies #[trigger] handles[i].name()
        != account by {
        if handles[i].name() == account {
            assert(key_at(handles, i) == key_of_name(account));
        }
    }
}

/// Filing a new account at the place where its key belongs keeps the roster
/// sorted and adds exactly that account to the map.
proof fn lemma_insert<T>(handles: Seq<TraderHandle<T>>, p: int, handle: TraderHandle<T>)
    requires
        sorted(handles),
        0 <= p <= handles.len(),
        forall|i: int|
            0 <= i < p ==> pair_precedes(
                #[trigger] key_at(handles, i),
                key_of_name(handle.name()),
            ),
        forall|i: int|
            p <= i < handles.len() ==> pair_precedes(
                key_of_name(handle.name()),
                #[trigger] key_at(handles, i),
            ),
    ensures
        sorted(handles.insert(p, handle)),
        as_map(handles.insert(p, handle)) == as_map(handles).insert(handle.name(), handle.tx),
{
    let grown = handles.insert(p, handle);
    let account = handle.name();
    assert forall|i: int, j: int| 0 <= i < j < grown.len() implies pair_precedes(
        #[trigger] key_at(grown, i),
        #[trigger] key_at(grown, j),
    ) by {
        let oi = if i < p {
            i
        } else {
            i - 1
        };
        let oj = if j < p {
            j
        } else {
            j - 1
        };
        if i == p {
            assert(key_at(grown, j) == key_at(handles, oj));
        } else if j == p {
            assert(key_at(grown, i) == key_at(handles, oi));
        } else {
            assert(key_at(grown, i) == key_at(handles, oi));
            assert(key_at(grown, j) == key_at(handles, oj));
        }
    }
    lemma_gap_is_unlisted(handles, account, p);
    let before = as_map(handles).insert(account, handle.tx);
    let after = as_map(grown);
    assert forall|k: (Seq<char>, Seq<char>)| before.contains_key(k) <==> after.contains_key(k) by {
        if before.contains_key(k) {
            if k == account {
                assert(grown[p].name() == k);
            } else {
                let i = place_of(handles, k);
                let ni = if i < p {
                    i
                } else {
                    i + 1
                };
                assert(grown[ni].name() == k);
            }
        }
        if after.contains_key(k) {
            let j = place_of(grown, k);
            if j != p {
                let oj = if j < p {
                    j
                } else {
                    j - 1
                };
                assert(handles[oj].name() == k);
            }
        }
    }
    assert forall|k: (Seq<char>, Seq<char>)| before.contains_key(k) implies before[k] == after[k] by {
        let j = place_of(grown, k);
        assert(after.contains_key(k));
        assert(grown[j].name() == k);
        if k == account {
            lemma_one_place(grown, j, p);
        } else {
            let oj = if j < p {
                j
            } else {
                j - 1
            };
            assert(handles[oj].name() == k);
            lemma_one_place(handles, oj, place_of(handles, k));
        }
    }
    assert(before =~= after);
}

/// The roster of one route type.
pub struct Executor<T> {
    sorted_accounts: Vec<TraderHandle<T>>,
}

impl<T> View for Executor<T> {
    type V = Map<(Seq<char>, Seq<char>), T>;

    /// The accounts that are served, each with what its handle carries.
    closed spec fn view(&self) -> Map<(Seq<char>, Seq<char>), T> {
        as_map(self.sorted_accounts@)
    }
}

impl<T> Executor<T> {
    #[verifier::type_invariant]
    spec fn in_order(&self) -> bool {
        sorted(self.sorted_accounts@)
    }

    /// The empty roster.
    pub fn new() -> (r: Self)
        ensures
            r@ == Map::<(Seq<char>, Seq<char>), T>::empty(),
    {
        let r = Executor { sorted_accounts: Vec::new() };
        assert(as_map(r.sorted_accounts@) =~= Map::<(Seq<char>, Seq<char>), T>::empty());
        r
    }

    /// Finds where an account is filed, or where it would have to be.
    fn locate(&self, broker_id: &str, account: &str) -> (r: (usize, bool))
        ensures
            r.0 <= self.sorted_accounts@.len(),
            forall|i: int|
                0 <= i < r.0 ==> pair_precedes(
                    #[trigger] key_at(self.sorted_accounts@, i),
                    key_of_name((broker_id@, account@)),
                ),
            r.1 ==> r.0 < self.sorted_accounts@.len() && self.sorted_accounts@[r.0 as int].name()
                == (broker_id@, account@),
            !r.1 ==> forall|i: int|
                r.0 <= i < self.sorted_accounts@.len() ==> pair_precedes(
                    key_of_name((broker_id@, account@)),
                    #[trigger] key_at(self.sorted_accounts@, i),
                ),
    {
        proof {
            use_type_invariant(self);
        }
        let broker_key = broker_id.as_bytes();
        let account_key = account.as_bytes();
        let ghost key = key_of_name((broker_id@, account@));
        let mut lo: usize = 0;
        let mut hi: usize = self.sorted_accounts.len();
        while lo < hi
            invariant
                lo <= hi <= self.sorted_accounts@.len(),
                key == key_of_name((broker_id@, account@)),
                key == (broker_key@, account_key@),
                sorted(self.sorted_accounts@),
                forall|i: int|
                    0 <= i < lo ==> pair_precedes(
                        #[trigger] key_at(self.sorted_accounts@, i),
                        key,
                    ),
                forall|i: int|
                    hi <= i < self.sorted_accounts@.len() ==> pair_precedes(
                        key,
                        #[trigger] key_at(self.sorted_accounts@, i),
                    ),
            decreases hi - lo,
        {
            let mid: usize = lo + (hi - lo) / 2;
            let here = &self.sorted_accounts[mid];
            let here_broker = here.broker_id.as_str().as_bytes();
            let here_account = here.account.as_str().as_bytes();
            assert((here_broker@, here_account@) == key_at(self.sorted_accounts@, mid as int));
            match compare_pair(here_broker, here_account, broker_key, account_key) {
                KeyOrder::Before => {
                    proof {
                        assert forall|i: int| 0 <= i < mid + 1 implies pair_precedes(
                            #[trigger] key_at(self.sorted_accounts@, i),
                            key,
                        ) by {
                            if i < mid {
                                lemma_pair_precedes_transitive(
                                    key_at(self.sorted_accounts@, i),
                                    key_at(self.sorted_accounts@, mid as int),
                                    key,
                                );
                            }
                        }
                    }
                    lo = mid + 1;
                },
                KeyOrder::Same => {
                    proof {
                        lemma_pair_key_injective(
                            self.sorted_accounts@[mid as int].broker_id@,
                            self.sorted_accounts@[mid as int].account@,
                            broker_id@,
                            account@,
                        );
                        assert forall|i: int| 0 <= i < mid implies pair_precedes(
                            #[trigger] key_at(self.sorted_accounts@, i),
                            key,
                        ) by {
                            assert(pair_precedes(
                                key_at(self.sorted_accounts@, i),
                                key_at(self.sorted_accounts@, mid as int),
                            ));
                        }
                    }
                    return (mid, true);
                },
                KeyOrder::After => {
                    proof {
                        assert forall|i: int|
                            mid <= i < self.sorted_accounts@.len() implies pair_precedes(
                            key,
                            #[trigger] key_at(self.sorted_accounts@, i),
                        ) by {
                            if mid < i {
                                lemma_pair_precedes_transitive(
                                    key,
                                    key_at(self.sorted_accounts@, mid as int),
                                    key_at(self.sorted_accounts@, i),
                                );
                            }
                        }
                    }
                    hi = mid;
                },
            }
        }
        (lo, false)
    }

    /// Files a worker under its account.
    ///
    /// An account is served by one worker only: if the account of `handle`,
    /// broker and name, is on the roster already, the roster stays as it is
    /// and `handle` comes back.
    pub fn register(&mut self, handle: TraderHandle<T>) -> (r: Option<TraderHandle<T>>)
        ensures
            old(self)@.contains_key(handle.name()) ==> r == Some(handle) && final(self)@ == old(
                self,
            )@,
            !old(self)@.contains_key(handle.name()) ==> r is None && final(self)@ == old(
                self,
            )@.insert(handle.name(), handle.tx),
    {
        proof {
            use_type_invariant(&*self);
        }
        let (place, found) = self.locate(handle.broker_id.as_str(), handle.account.as_str());
        if found {
            proof {
                lemma_map_at(self.sorted_accounts@, place as int);
            }
            Some(handle)
        } else {
            proof {
                lemma_gap_is_unlisted(self.sorted_accounts@, handle.name(), place as int);
                lemma_insert(self.sorted_accounts@, place as int, handle);
            }
            let mut taken = Executor::new();
            core::mem::swap(self, &mut taken);
            let mut handles = taken.sorted_accounts;
            handles.insert(place, handle);
            *self = Executor { sorted_accounts: handles };
            None
        }
    }

    /// Resolves an account, given by broker and name, to what its handle
    /// carries.
    ///
    /// The one way this fails is `AccountNotFound`, for an account that is not
    /// on the roster: a name that is served under another broker only is not
    /// found. Nothing is sent and no worker is touched.
    pub fn resolve(&self, broker_id: &str, account: &str) -> (r: Result<&T, BaseError>)
        ensures
            match r {
                Ok(tx) => self@.contains_key((broker_id@, account@)) && *tx == self@[(
                    broker_id@,
                    account@,
                )],
                Err(e) => !self@.contains_key((broker_id@, account@)) && e
                    == BaseError::AccountNotFound,
            },
    {
        proof {
            use_type_invariant(self);
        }
        let (place, found) = self.locate(broker_id, account);
        if found {
            proof {
                lemma_map_at(self.sorted_accounts@, place as int);
            }
            Ok(&self.sorted_accounts[place].tx)
        } else {
            proof {
                lemma_gap_is_unlisted(self.sorted_accounts@, (broker_id@, account@), place as int);
            }
            Err(BaseError::AccountNotFound)
        }
    }
}

} // verus!
