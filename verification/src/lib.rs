//! Out-of-memory safety as a library: growable-array operations that report
//! allocation failure as a typed, catchable error value instead of letting an
//! exhausted allocator terminate the process.
//!
//! The crate provides
//! - [`AllocError`], the value carried by every reported allocation failure:
//!   the size and alignment of the request that could not be satisfied;
//! - an [`Allocator`](crate::allocator::Allocator) capability that callers may
//!   implement to decide which requests are satisfiable;
//! - [`Vec`](crate::vec::Vec), a growable array whose growing operations
//!   (`try_push`, `try_resize`, `try_extend_from_slice`, ...) reserve headroom
//!   before mutating, so a failed reservation leaves the array exactly as it
//!   was;
//! - [`FaultSlot`](crate::oom::FaultSlot) and
//!   [`resolve_fault`](crate::oom::resolve_fault), the per-thread decision
//!   core for trapping an allocation failure raised on a path with no return
//!   channel and resolving it at a call boundary.

use vstd::prelude::*;

mod allocator;
mod generator;
mod oom;
mod vec;

pub use crate::allocator::Allocator;
pub use crate::allocator::Global;
pub use crate::generator::Counter;
pub use crate::generator::Generator;
pub use crate::generator::gen_after;
pub use crate::generator::gen_seq;
pub use crate::generator::lemma_counter_gen;
pub use crate::generator::lemma_gen_seq_index;
pub use crate::generator::lemma_gen_unfold_right;
pub use crate::generator::lemma_gen_seq_len;
pub use crate::oom::FaultSlot;
pub use crate::oom::FaultVerdict;
pub use crate::oom::resolve_fault;
pub use crate::vec::Vec;
pub use crate::vec::array_layout;

verus! {

use vstd::arithmetic::power2::is_pow2;
use vstd::layout::valid_layout;

/// Decides whether `x` is a power of two, by repeated halving.
fn usize_is_pow2(x: usize) -> (r: bool)
    ensures
        r <==> is_pow2(x as int),
{
    if x == 0 {
        proof {
            reveal(is_pow2);
            assert(!is_pow2(0int));
        }
        return false;
    }
    let mut n: usize = x;
    while n > 1
        invariant
            1 <= n,
            is_pow2(x as int) <==> is_pow2(n as int),
        decreases n,
    {
        if n % 2 == 1 {
            proof {
                reveal(is_pow2);
                assert(!is_pow2(n as int));
            }
            return false;
        }
        proof {
            reveal(is_pow2);
            assert(is_pow2(n as int) <==> is_pow2(n as int / 2));
        }
        n = n / 2;
    }
    proof {
        reveal(is_pow2);
        assert(is_pow2(1int));
    }
    true
}

/// One allocation request, as plain values: `size` in bytes, and `align`,
/// which for a request an allocator can act on is a power of two.
#[derive(Clone, Copy, PartialEq, Eq, Structural, Debug)]
pub struct Layout {
    pub size: usize,
    pub align: usize,
}

impl Layout {
    /// A request an allocator can act on: the alignment is a power of two and
    /// the size, rounded up to a multiple of the alignment, stays within
    /// `isize::MAX`.
    pub open spec fn is_valid(self) -> bool {
        valid_layout(self.size, self.align)
    }

    /// Builds the layout for `size` bytes at alignment `align`; `None` when
    /// the pair is not a request an allocator can act on.
    pub fn from_size_align(size: usize, align: usize) -> (r: Option<Layout>)
        ensures
            r matches Some(l) ==> l == (Layout { size, align }) && l.is_valid(),
            r is None ==> !(Layout { size, align }).is_valid(),
    {
        if !usize_is_pow2(align) {
            return None;
        }
        proof {
            assert(align >= 1) by {
                reveal(is_pow2);
            }
            vstd::arithmetic::div_mod::lemma_mod_decreases(isize::MAX as nat, align as nat);
        }
        let max: usize = isize::MAX as usize;
        if size <= max - max % align {
            Some(Layout { size, align })
        } else {
            None
        }
    }
}

/// The error type for allocation failure: carries the request that the
/// allocator could not satisfy.
#[derive(Clone, Copy, PartialEq, Eq, Structural, Debug)]
pub struct AllocError {
    layout: Layout,
}

impl AllocError {
    /// The layout of the failed request.
    pub closed spec fn spec_layout(self) -> Layout {
        self.layout
    }

    /// Creates a new `AllocError` for a request of the given layout.
    pub fn new(layout: Layout) -> (e: AllocError)
        ensures
            e.spec_layout() == layout,
    {
        AllocError { layout }
    }

    /// Returns the memory layout of the `AllocError`.
    pub fn layout(self) -> (l: Layout)
        ensures
            l == self.spec_layout(),
    {
        self.layout
    }
}

} // verus!
