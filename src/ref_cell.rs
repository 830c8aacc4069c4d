use vstd::prelude::*;

use crate::cell::Cell;

verus! {

/// The tracked mode of a `RefCell`: no views out, one write view out, or
/// `n >= 1` read views out.
#[derive(Clone, Copy)]
pub enum SharingState {
    Unshared,
    Exclusive,
    Shared(usize),
}

impl SharingState {
    /// The state after a read view is issued from `self`, or `None` where a
    /// write view is outstanding and the request is refused.
    pub open spec fn after_read_request(self) -> Option<SharingState> {
        match self {
            SharingState::Unshared => Some(SharingState::Shared(1)),
            SharingState::Shared(n) => Some(SharingState::Shared((n + 1) as usize)),
            SharingState::Exclusive => None,
        }
    }

    /// The state after a write view is issued from `self`, or `None` where
    /// any view is outstanding and the request is refused.
    pub open spec fn after_write_request(self) -> Option<SharingState> {
        match self {
            SharingState::Unshared => Some(SharingState::Exclusive),
            _ => None,
        }
    }

    /// The number of read views that the state records.
    pub open spec fn share_count(self) -> nat {
        match self {
            SharingState::Shared(n) => n as nat,
            _ => 0,
        }
    }

    /// The state after `k` read requests in a row from `self`, or `None`
    /// where one of them is refused.
    pub open spec fn after_read_requests(self, k: nat) -> Option<SharingState>
        decreases k,
    {
        if k == 0 {
            Some(self)
        } else {
            match self.after_read_request() {
                Some(next) => next.after_read_requests((k - 1) as nat),
                None => None,
            }
        }
    }

    /// The read count can take one more view without overflowing.
    pub open spec fn has_room_for_reader(self) -> bool {
        !(self matches SharingState::Shared(n) && n == usize::MAX)
    }
}

/// A container that hands out either any number of read views or a single
/// write view of its value, checked against its sharing state at each
/// request. Views are never given back: once issued, the state only moves
/// further away from `Unshared`. Requests take `&mut self`: the sharing state
/// they move is part of the cell's value, so each contract says exactly how.
pub struct RefCell<T> {
    value: T,
    sharing_state: Cell<SharingState>,
    /// Read views issued so far.
    readers: Ghost<nat>,
    /// Write views issued so far.
    writers: Ghost<nat>,
}

impl<T> RefCell<T> {
    /// Well-formedness: the sharing state records exactly the views that
    /// were issued, so a write view never coexists with another view.
    pub closed spec fn wf(&self) -> bool {
        match self.sharing_state@ {
            SharingState::Unshared => self.readers@ == 0 && self.writers@ == 0,
            SharingState::Shared(n) => n >= 1 && self.readers@ == n && self.writers@ == 0,
            SharingState::Exclusive => self.readers@ == 0 && self.writers@ == 1,
        }
    }

    /// The value held.
    pub closed spec fn value(&self) -> T {
        self.value
    }

    /// The current sharing state.
    pub closed spec fn state(&self) -> SharingState {
        self.sharing_state@
    }

    /// The number of read views issued.
    pub closed spec fn read_views(&self) -> nat {
        self.readers@
    }

    /// The number of write views issued.
    pub closed spec fn write_views(&self) -> nat {
        self.writers@
    }

    /// Wraps `value`, with no view issued.
    pub fn new(value: T) -> (c: Self)
        ensures
            c.wf(),
            c.value() == value,
            c.state() == SharingState::Unshared,
            c.read_views() == 0,
            c.write_views() == 0,
    {
        Self {
            value,
            sharing_state: Cell::new(SharingState::Unshared),
            readers: Ghost(0),
            writers: Ghost(0),
        }
    }

    /// Issues a read view of the value, unless a write view is out.
    pub fn borrow(&mut self) -> (r: Option<&T>)
        requires
            old(self).wf(),
            old(self).state().has_room_for_reader(),
        ensures
            final(self).wf(),
            final(self).value() == old(self).value(),
            final(self).write_views() == old(self).write_views(),
            old(self).state().after_read_request() matches Some(next) ==> {
                &&& r == Some(&old(self).value())
                &&& final(self).state() == next
                &&& final(self).read_views() == old(self).read_views() + 1
            },
            old(self).state().after_read_request() is None ==> {
                &&& r is None
                &&& final(self).state() == old(self).state()
                &&& final(self).read_views() == old(self).read_views()
            },
    {
        match self.sharing_state.get() {
            SharingState::Exclusive => None,
            SharingState::Unshared => {
                self.sharing_state.set(SharingState::Shared(1));
                self.readers = Ghost(self.readers@ + 1);
                Some(&self.value)
            },
            SharingState::Shared(n) => {
                self.sharing_state.set(SharingState::Shared(n + 1));
                self.readers = Ghost(self.readers@ + 1);
                Some(&self.value)
            },
        }
    }

    /// Issues the write view of the value, unless any view is out. What is
    /// written through the view is what the cell holds afterwards.
    pub fn borrow_mut(&mut self) -> (r: Option<&mut T>)
        requires
            old(self).wf(),
        ensures
            final(self).wf(),
            final(self).read_views() == old(self).read_views(),
            old(self).state().after_write_request() matches Some(next) ==> {
                &&& r matches Some(view) && *view == old(self).value()
                    && final(self).value() == *final(view)
                &&& final(self).state() == next
                &&& final(self).write_views() == old(self).write_views() + 1
            },
            old(self).state().after_write_request() is None ==> {
                &&& r is None
                &&& final(self).value() == old(self).value()
                &&& final(self).state() == old(self).state()
                &&& final(self).write_views() == old(self).write_views()
            },
    {
        match self.sharing_state.get() {
            SharingState::Shared(_) => None,
            SharingState::Exclusive => None,
            SharingState::Unshared => {
                self.sharing_state.set(SharingState::Exclusive);
                self.writers = Ghost(self.writers@ + 1);
                Some(&mut self.value)
            },
        }
    }
}

/// A fresh cell grants its first read request, and the view it hands out
/// holds the value the cell was made with.
pub proof fn lemma_fresh_cell_grants_read<T>(v: T, c: RefCell<T>)
    requires
        call_ensures(RefCell::<T>::new, (v,), c),
    ensures
        c.wf(),
        c.state().has_room_for_reader(),
        c.state().after_read_request() == Some(SharingState::Shared(1)),
        c.value() == v,
{
}

/// A fresh cell grants its first write request.
pub proof fn lemma_fresh_cell_grants_write<T>(v: T, c: RefCell<T>)
    requires
        call_ensures(RefCell::<T>::new, (v,), c),
    ensures
        c.wf(),
        c.state().after_write_request() == Some(SharingState::Exclusive),
{
}

/// Once a write view has been issued, every read request is refused.
pub proof fn lemma_write_view_blocks_reads(before: SharingState, after: SharingState)
    requires
        before.after_write_request() == Some(after),
    ensures
        after.after_read_request() is None,
{
}

/// Once a read view has been issued, every write request is refused.
pub proof fn lemma_read_view_blocks_writes(before: SharingState, after: SharingState)
    requires
        before.after_read_request() == Some(after),
    ensures
        after.after_write_request() is None,
{
}

/// From a state with no write view out, `k` read requests in a row are all
/// granted, each adding one to the share count, and after at least one of
/// them a write request is refused.
pub proof fn lemma_repeated_reads(s: SharingState, k: nat)
    requires
        !(s is Exclusive),
        s.share_count() + k <= usize::MAX,
    ensures
        k == 0 ==> s.after_read_requests(k) == Some(s),
        k >= 1 ==> s.after_read_requests(k) == Some(
            SharingState::Shared((s.share_count() + k) as usize),
        ),
        k >= 1 ==> s.after_read_requests(k)->Some_0.after_write_request() is None,
    decreases k,
{
    if k >= 1 {
        let next = s.after_read_request()->Some_0;
        assert(next == SharingState::Shared((s.share_count() + 1) as usize));
        lemma_repeated_reads(next, (k - 1) as nat);
    }
}

/// In a well-formed cell a write view never coexists with another view, and
/// the share count is the number of read views issued.
pub proof fn lemma_views_never_conflict<T>(c: RefCell<T>)
    requires
        c.wf(),
    ensures
        c.write_views() <= 1,
        c.write_views() == 0 || c.read_views() == 0,
        c.read_views() == c.state().share_count(),
        c.state() is Exclusive <==> c.write_views() == 1,
{
}

} // verus!
