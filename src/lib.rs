//! Shared-ownership handles to values on the heap.
//!
//! [`asc::Asc`] counts its handles atomically and may cross threads;
//! [`sc::Sc`] counts them with plain arithmetic and stays on one thread.
//! Each handle is built on the standard library's counted pointer of the
//! same kind, which keeps the allocation header (the count beside the
//! payload) and frees it. [`header`] states the counting discipline that
//! both follow and proves what it guarantees: the block is freed exactly
//! once, by the release that takes the count to zero.

pub mod asc;
pub mod header;
pub mod sc;
