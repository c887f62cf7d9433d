//! A flat membership list.
//!
//! Unlike the indexed registries, this component keeps no keys at all:
//! it is a duplicate-free vector of members, grown by the caller joining
//! and shrunk by the caller leaving.

use vstd::prelude::*;

verus! {

/// A notification pushed to the event log after a successful mutation.
#[derive(Clone, Copy, Debug, PartialEq, Eq, Structural)]
pub enum Event {
    /// The member joined the list.
    MemberAdded(u64),
    /// The member left the list.
    MemberRemoved(u64),
}

/// Why a membership change was refused.
#[derive(Clone, Copy, Debug, PartialEq, Eq, Structural)]
pub enum MembershipError {
    /// The caller asked to join but is already a member.
    AlreadyMember,
    /// The caller asked to leave but is not a member.
    NotMember,
}

/// The membership module: a duplicate-free list of members.
pub struct Module {
    /// The members, in joining order.
    pub members: Vec<u64>,
    /// Notifications emitted so far, oldest first.
    pub events: Vec<Event>,
}

impl Module {
    /// Well-formedness: no member appears twice.
    pub open spec fn wf(self) -> bool {
        forall|i: int, j: int|
            0 <= i < j < self.members@.len() ==> self.members@[i] != self.members@[j]
    }

    /// An empty membership list.
    pub fn new() -> (r: Self)
        ensures
            r.wf(),
            r.members@ == Seq::<u64>::empty(),
            r.events@ == Seq::<Event>::empty(),
    {
        Module { members: Vec::new(), events: Vec::new() }
    }

    /// Whether `who` is currently a member.
    pub fn is_member(&self, who: &u64) -> (r: bool)
        ensures
            r == self.members@.contains(*who),
    {
        let mut i: usize = 0;
        while i < self.members.len()
            invariant
                i <= self.members@.len(),
                forall|j: int| 0 <= j < i ==> self.members@[j] != *who,
            decreases self.members@.len() - i,
        {
            if self.members[i] == *who {
                return true;
            }
            i = i + 1;
        }
        false
    }

    /// Adds the caller to the list, or fails with `AlreadyMember` —
    /// leaving the list untouched — when the caller is already in it.
    pub fn add_member(&mut self, caller: u64) -> (r: Result<(), MembershipError>)
        requires
            old(self).wf(),
        ensures
            final(self).wf(),
            old(self).members@.contains(caller) ==> r == Err::<(), MembershipError>(
                MembershipError::AlreadyMember,
            ) && *final(self) == *old(self),
            !old(self).members@.contains(caller) ==> r == Ok::<(), MembershipError>(())
                && final(self).members@ == old(self).members@.push(caller)
                && final(self).events@ == old(self).events@.push(Event::MemberAdded(caller)),
    {
        if self.is_member(&caller) {
            return Err(MembershipError::AlreadyMember);
        }
        self.members.push(caller);
        self.events.push(Event::MemberAdded(caller));
        Ok(())
    }

    /// Removes the caller from the list, or fails with `NotMember` —
    /// leaving the list untouched — when the caller is not in it.
    pub fn remove_member(&mut self, caller: u64) -> (r: Result<(), MembershipError>)
        requires
            old(self).wf(),
        ensures
            final(self).wf(),
            !old(self).members@.contains(caller) ==> r == Err::<(), MembershipError>(
                MembershipError::NotMember,
            ) && *final(self) == *old(self),
            old(self).members@.contains(caller) ==> r == Ok::<(), MembershipError>(())
                && final(self).members@ == old(self).members@.remove_value(caller)
                && final(self).events@ == old(self).events@.push(Event::MemberRemoved(caller)),
    {
        let mut i: usize = 0;
        while i < self.members.len()
            invariant
                old(self).wf(),
                i <= self.members@.len(),
                forall|j: int| 0 <= j < i ==> self.members@[j] != caller,
                *self == *old(self),
            decreases self.members@.len() - i,
        {
            if self.members[i] == caller {
                self.members.remove(i);
                self.events.push(Event::MemberRemoved(caller));
                proof {
                    let olds = old(self).members@;
                    olds.index_of_first_ensures(caller);
                    assert(olds.index_of_first(caller) == Some(i as int));
                    olds.remove_ensures(i as int);
                    assert forall|a: int, b: int|
                        0 <= a < b < self.members@.len() implies self.members@[a]
                        != self.members@[b] by {
                        assert(self.members@ == olds.remove(i as int));
                        assert(self.members@[a] == (if a < i { olds[a] } else { olds[a + 1] }));
                        assert(self.members@[b] == (if b < i { olds[b] } else { olds[b + 1] }));
                    }
                }
                return Ok(());
            }
            i = i + 1;
        }
        Err(MembershipError::NotMember)
    }
}

} // verus!
