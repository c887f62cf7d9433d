//! The dense indexed registry.
//!
//! Records are appended at `counter + 1` and removed by swap-compaction:
//! the record at the highest index fills the vacated slot, so the occupied
//! keys always form the contiguous range `[1, counter]`.

use vstd::prelude::*;

use crate::errors::Error;
use crate::events::Event;
use crate::store::KvStore;

verus! {

/// The central invariant of the dense registry: exactly the keys in
/// `[1, counter]` hold a record — no gaps inside the range, nothing
/// outside it.
pub open spec fn dense_inv(members: Map<u32, u64>, counter: u32) -> bool {
    forall|k: u32| #[trigger] members.contains_key(k) <==> 1 <= k <= counter
}

/// A registry whose occupied keys are exactly `[1, counter]`.
pub struct DenseRegistry {
    /// The backing key-value store, keyed by index.
    pub store: KvStore,
    /// The highest assigned index; `0` means the registry is empty.
    pub counter: u32,
    /// Notifications emitted so far, oldest first.
    pub events: Vec<Event>,
}

impl DenseRegistry {
    /// Well-formedness: the dense invariant ties the store to the counter.
    pub open spec fn wf(self) -> bool {
        dense_inv(self.store@, self.counter)
    }

    /// An empty registry.
    pub fn new() -> (r: Self)
        ensures
            r.wf(),
            r.store@ == Map::<u32, u64>::empty(),
            r.counter == 0,
            r.events@ == Seq::<Event>::empty(),
    {
        DenseRegistry { store: KvStore::new(), counter: 0, events: Vec::new() }
    }

    /// Stores `account` at the next index `counter + 1` and returns that
    /// index, or fails with `Overflow` — leaving the registry untouched —
    /// when every index is already assigned.
    pub fn add_member(&mut self, _caller: u64, account: u64) -> (r: Result<u32, Error>)
        ensures
            old(self).wf() ==> final(self).wf(),
            old(self).counter < u32::MAX ==> {
                let next = (old(self).counter + 1) as u32;
                &&& r == Ok::<u32, Error>(next)
                &&& final(self).counter == next
                &&& final(self).store@ == old(self).store@.insert(next, account)
                &&& final(self).events@ == old(self).events@.push(
                    Event::MemberAdded(account, next),
                )
            },
            old(self).counter == u32::MAX ==> r == Err::<u32, Error>(Error::Overflow)
                && *final(self) == *old(self),
    {
        match self.counter.checked_add(1) {
            None => Err(Error::Overflow),
            Some(next) => {
                self.counter = next;
                self.store.insert(next, account);
                self.events.push(Event::MemberAdded(account, next));
                Ok(next)
            },
        }
    }

    /// Removes and returns the record at `index`. When `index` is not the
    /// highest index, the record at the highest index is relocated into the
    /// vacated slot; the counter shrinks by one either way, so density is
    /// preserved. Fails with `NotFound` — leaving the registry untouched —
    /// when no record is stored at `index`.
    pub fn remove_member_bunded(&mut self, _caller: u64, index: u32) -> (r: Result<u64, Error>)
        requires
            old(self).wf(),
        ensures
            final(self).wf(),
            !old(self).store@.contains_key(index) ==> r == Err::<u64, Error>(Error::NotFound)
                && *final(self) == *old(self),
            old(self).store@.contains_key(index) ==> {
                let last = old(self).counter;
                let removed = old(self).store@[index];
                &&& r == Ok::<u64, Error>(removed)
                &&& final(self).counter == (last - 1) as u32
                &&& final(self).store@ == (if index == last {
                    old(self).store@.remove(index)
                } else {
                    old(self).store@.insert(index, old(self).store@[last]).remove(last)
                })
                &&& final(self).events@ == old(self).events@.push(
                    Event::MemberRemoved(removed, index),
                )
            },
    {
        if !self.store.contains(index) {
            return Err(Error::NotFound);
        }
        let largest = self.counter;
        let removed = self.store.take(index);
        if index != largest {
            let relocated = self.store.take(largest);
            self.store.insert(index, relocated);
            proof {
                assert(self.store@ =~= old(self).store@.insert(
                    index,
                    old(self).store@[largest],
                ).remove(largest));
            }
        }
        self.counter = largest - 1;
        self.events.push(Event::MemberRemoved(removed, index));
        Ok(removed)
    }
}

/// The set of keys in the contiguous range `[1, c]`.
pub open spec fn index_range(c: u32) -> Set<u32> {
    Set::new(|k: u32| 1 <= k <= c)
}

/// The range `[1, c]` holds exactly `c` keys.
pub proof fn lemma_index_range_len(c: u32)
    ensures
        index_range(c).finite(),
        index_range(c).len() == c,
    decreases c,
{
    if c == 0 {
        assert(index_range(0) =~= Set::<u32>::empty());
    } else {
        let p = (c - 1) as u32;
        lemma_index_range_len(p);
        assert(!index_range(p).contains(c));
        assert(index_range(c) =~= index_range(p).insert(c));
    }
}

/// Counter accuracy: in a well-formed dense registry the counter equals
/// the number of records stored.
pub proof fn lemma_counter_matches_len(r: DenseRegistry)
    requires
        r.wf(),
    ensures
        r.store@.dom().finite(),
        r.store@.dom().len() == r.counter,
{
    lemma_index_range_len(r.counter);
    assert(r.store@.dom() =~= index_range(r.counter));
}

/// Round trip: adding a record and then removing it at the index the add
/// returned restores the original membership map and counter.
///
/// `mid` relates to `pre` as `add_member`'s contract states for a
/// successful add, and `post` relates to `mid` as `remove_member_bunded`'s
/// contract states for removal at the returned index `pre.counter + 1` —
/// the direct-removal branch, since that index is the highest one.
pub proof fn lemma_add_remove_round_trip(
    pre: DenseRegistry,
    mid: DenseRegistry,
    post: DenseRegistry,
    account: u64,
)
    requires
        pre.wf(),
        pre.counter < u32::MAX,
        mid.counter == pre.counter + 1,
        mid.store@ == pre.store@.insert((pre.counter + 1) as u32, account),
        post.counter == (mid.counter - 1) as u32,
        post.store@ == mid.store@.remove(mid.counter),
    ensures
        post.counter == pre.counter,
        post.store@ == pre.store@,
{
    assert(!pre.store@.contains_key((pre.counter + 1) as u32));
    assert(post.store@ =~= pre.store@);
}

} // verus!
