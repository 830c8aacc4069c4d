use vstd::prelude::*;

verus! {

/// A container whose value can be overwritten and, for `Copy` values, read
/// back as an independent copy. It never hands out a reference to its
/// interior, so no alias of the value is ever live across a write.
pub struct Cell<T> {
    value: T,
}

impl<T> View for Cell<T> {
    type V = T;

    /// The value currently stored.
    closed spec fn view(&self) -> T {
        self.value
    }
}

impl<T> Cell<T> {
    /// Wraps `value`.
    pub fn new(value: T) -> (c: Self)
        ensures
            c@ == value,
    {
        Cell { value }
    }

    /// Replaces the stored value; the previous one is dropped.
    pub fn set(&mut self, value: T)
        ensures
            final(self)@ == value,
    {
        self.value = value;
    }

    /// Returns a copy of the stored value.
    pub fn get(&self) -> (r: T)
        where
            T: Copy,
        ensures
            r == self@,
    {
        self.value
    }
}

/// A cell made from `v` reads back `v`.
pub proof fn lemma_get_after_new<T: Copy>(v: T, c: Cell<T>, r: T)
    requires
        call_ensures(Cell::<T>::new, (v,), c),
        call_ensures(Cell::<T>::get, (&c,), r),
    ensures
        r == v,
{
}

/// Whatever a cell was made with, reading it after `set(v2)` gives `v2`:
/// `after` is the cell as `set(v2)` leaves it.
pub proof fn lemma_get_after_set<T: Copy>(v1: T, v2: T, made: Cell<T>, after: Cell<T>, r: T)
    requires
        call_ensures(Cell::<T>::new, (v1,), made),
        after@ == v2,
        call_ensures(Cell::<T>::get, (&after,), r),
    ensures
        r == v2,
{
}

} // verus!
