//! Single-thread interior-mutability containers: `Cell`, which holds a value
//! that can be overwritten and copied out, and `RefCell`, which hands out
//! read or write views of its value under a tracked sharing state.

pub mod cell;

pub use cell::Cell;
pub mod ref_cell;

pub use ref_cell::{RefCell, SharingState};
pub mod function_items;

pub use function_items::{fn_generic, fn_none_u32, fn_none_usize, fn_none_usize_2};
