use vstd::prelude::*;

verus! {

/// A generic function item: each instantiation is a distinct zero-sized item
/// that coerces to `fn()`.
pub fn fn_generic<T>() {
}

/// A function item returning `0usize`.
pub fn fn_none_usize() -> (r: usize)
    ensures
        r == 0,
{
    0
}

/// A function item returning `1u32`: same arity as `fn_none_usize`, but a
/// different pointer type.
pub fn fn_none_u32() -> (r: u32)
    ensures
        r == 1,
{
    1
}

/// A second function item with the signature of `fn_none_usize`: both
/// coerce to the same `fn() -> usize` pointer type, though their item types
/// differ.
pub fn fn_none_usize_2() -> (r: usize)
    ensures
        r == 0,
{
    0
}

} // verus!
