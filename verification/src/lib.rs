//! A shared, lazily evaluated, memoizing value cell.
//!
//! A [`Thunk`] is either a pending zero-argument computation or its
//! already-computed result; once evaluated it never reverts. A [`Lazy`]
//! cell is a handle to a shared slot holding one such thunk: any handle
//! may force the evaluation, every handle sharing the slot observes the
//! one cached result, and the pending computation runs at most once.

pub mod lazy;
pub mod thunk;

pub use crate::lazy::Lazy;
pub use crate::thunk::Thunk;
