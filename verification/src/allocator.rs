//! The allocator capability: an abstraction over "provide memory for a
//! size/alignment request". An implementation answers each request with
//! success or failure; the growable array in [`crate::vec`] asks it before
//! every growth of its backing storage, and reports a refusal as an
//! [`AllocError`](crate::AllocError) carrying the refused request.

use vstd::prelude::*;

verus! {

use crate::Layout;

/// A source of memory. `allocate` is asked whether it can set aside memory
/// for one request; `true` means the request is satisfied. Implementations
/// decide freely, so nothing is promised about the answer: callers of the
/// operations built on top state what holds for each outcome.
pub trait Allocator {
    /// Attempts to provide memory for a request of `layout.size` bytes at
    /// alignment `layout.align`.
    fn allocate(&self, layout: Layout) -> bool;
}

/// The process-wide default source of memory. It refuses no request itself:
/// memory for the backing storage is taken when the storage grows, and a
/// failure there is still reported as an error.
pub struct Global;

impl Allocator for Global {
    fn allocate(&self, layout: Layout) -> bool {
        true
    }
}

} // verus!
