//! The head-relinking registry.
//!
//! Records are appended at `head + 1` and removed by substituting the
//! record at the head slot into the vacated slot. Only the head key is
//! tracked; the occupied keys need not be contiguous, and the head is
//! deliberately never re-derived from the remaining membership, so after
//! removing the head slot's record the head keeps pointing at an empty
//! slot. Both quirks of that trade-off are deliberate and kept: an add
//! may overwrite a pre-existing non-head slot at `head + 1`, and a removal
//! whose relocation source is an empty head slot relocates nothing.

use vstd::prelude::*;

use crate::errors::Error;
use crate::events::Event;
use crate::store::KvStore;

verus! {

/// A registry that tracks a head key instead of a contiguous range.
pub struct RelinkRegistry {
    /// The backing key-value store, keyed by index.
    pub store: KvStore,
    /// The most recently assigned index; `0` means none was assigned yet.
    pub head: u32,
    /// Notifications emitted so far, oldest first.
    pub events: Vec<Event>,
}

impl RelinkRegistry {
    /// Well-formedness: a registry holding any record has a head.
    pub open spec fn wf(self) -> bool {
        self.head == 0 ==> self.store@ == Map::<u32, u64>::empty()
    }

    /// An empty registry.
    pub fn new() -> (r: Self)
        ensures
            r.wf(),
            r.store@ == Map::<u32, u64>::empty(),
            r.head == 0,
            r.events@ == Seq::<Event>::empty(),
    {
        RelinkRegistry { store: KvStore::new(), head: 0, events: Vec::new() }
    }

    /// Stores `account` at `head + 1` (at `1` when no head was assigned
    /// yet), moves the head there and returns that index. A record already
    /// stored at that index — the sparse key space this registry tolerates
    /// makes that possible — is overwritten, deliberately unguarded.
    pub fn add_member(&mut self, _caller: u64, account: u64) -> (index: u32)
        requires
            old(self).head < u32::MAX,
        ensures
            final(self).wf(),
            index == old(self).head + 1,
            final(self).head == index,
            final(self).store@ == old(self).store@.insert(index, account),
            final(self).events@ == old(self).events@.push(Event::MemberAdded(account, index)),
    {
        let index = self.head + 1;
        self.store.insert(index, account);
        self.head = index;
        self.events.push(Event::MemberAdded(account, index));
        index
    }

    /// Removes and returns the record at `index`. When `index` is not the
    /// head and the head slot holds a record, that record is relocated into
    /// the vacated slot and the head slot is left empty; the head key
    /// itself never moves. Fails with `NotFound` when no record is stored
    /// at `index`, and with `PreconditionFailed` when a record exists but
    /// no head was ever assigned — a state no well-formed registry reaches.
    /// Either failure leaves the registry untouched.
    pub fn remove_member_linked(&mut self, _caller: u64, index: u32) -> (r: Result<u64, Error>)
        ensures
            old(self).wf() ==> final(self).wf(),
            !old(self).store@.contains_key(index) ==> r == Err::<u64, Error>(Error::NotFound)
                && *final(self) == *old(self),
            old(self).store@.contains_key(index) && old(self).head == 0 ==> r == Err::<u64, Error>(
                Error::PreconditionFailed,
            ) && *final(self) == *old(self),
            old(self).store@.contains_key(index) && old(self).head != 0 ==> {
                let head = old(self).head;
                let removed = old(self).store@[index];
                &&& r == Ok::<u64, Error>(removed)
                &&& final(self).head == head
                &&& final(self).store@ == (if index == head {
                    old(self).store@.remove(index)
                } else if old(self).store@.contains_key(head) {
                    old(self).store@.insert(index, old(self).store@[head]).remove(head)
                } else {
                    old(self).store@.remove(index)
                })
                &&& final(self).events@ == old(self).events@.push(
                    Event::MemberRemoved(removed, index),
                )
            },
    {
        if !self.store.contains(index) {
            return Err(Error::NotFound);
        }
        if self.head == 0 {
            return Err(Error::PreconditionFailed);
        }
        let head = self.head;
        let removed = self.store.take(index);
        if index != head {
            if self.store.contains(head) {
                let head_member = self.store.take(head);
                self.store.insert(index, head_member);
                proof {
                    assert(self.store@ =~= old(self).store@.insert(
                        index,
                        old(self).store@[head],
                    ).remove(head));
                }
            }
        }
        self.events.push(Event::MemberRemoved(removed, index));
        Ok(removed)
    }
}

/// Round trip: adding a record and then removing it at the index the add
/// returned restores the membership map, provided the fresh index
/// `head + 1` was unoccupied — an occupied slot there would be overwritten
/// by the add and could not be restored. The head key itself is not
/// restored: it stays on the now-empty slot, as this registry never
/// re-derives its head.
///
/// `mid` relates to `pre` as `add_member`'s contract states, and `post`
/// relates to `mid` as `remove_member_linked`'s contract states for
/// removal at the returned index — the direct branch, since that index is
/// the head.
pub proof fn lemma_add_remove_restores_members(
    pre: RelinkRegistry,
    mid: RelinkRegistry,
    post: RelinkRegistry,
    account: u64,
)
    requires
        pre.head < u32::MAX,
        !pre.store@.contains_key((pre.head + 1) as u32),
        mid.head == pre.head + 1,
        mid.store@ == pre.store@.insert((pre.head + 1) as u32, account),
        post.head == mid.head,
        post.store@ == mid.store@.remove(mid.head),
    ensures
        post.store@ == pre.store@,
{
    assert(post.store@ =~= pre.store@);
}

} // verus!
