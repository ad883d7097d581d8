//! A growable array whose growing operations report allocation failure as an
//! [`AllocError`] instead of aborting. Every growth path reserves headroom
//! before mutating visible state, so a failed reservation leaves length and
//! contents exactly as they were.
//!
//! The array tracks the capacity it has successfully reserved; a growing
//! operation first asks the array's [`Allocator`] capability for the layout
//! of the whole required element count, then grows the backing storage, and
//! reports a refusal of either as an `AllocError` carrying that layout.
//!
//! A required element count whose byte size would exceed `isize::MAX` is a
//! capacity overflow: a logic fault, never to be passed off as an allocation
//! failure. The growing operations exclude it by `requires` instead of
//! reporting it.

use vstd::prelude::*;

verus! {

use crate::AllocError;
use crate::Layout;
use crate::allocator::Allocator;
use crate::allocator::Global;
use crate::generator::Generator;
use crate::generator::gen_after;
use crate::generator::gen_seq;
use crate::generator::lemma_gen_unfold_right;
use vstd::arithmetic::div_mod::lemma_fundamental_div_mod;
use vstd::arithmetic::div_mod::lemma_mod_multiples_basic;
use vstd::layout::align_of;
use vstd::layout::layout_for_type_is_valid;
use vstd::layout::size_of;
use vstd::slice::slice_index_get;

/// The layout of the backing storage for `count` elements of type `T`:
/// `count` times the element size, at the element alignment.
pub open spec fn array_layout<T>(count: nat) -> Layout {
    Layout { size: (count * size_of::<T>()) as usize, align: align_of::<T>() as usize }
}

/// Builds the layout for `count` elements of type `T`.
fn layout_for_array<T>(count: usize) -> (l: Layout)
    requires
        count * size_of::<T>() <= isize::MAX,
    ensures
        l == array_layout::<T>(count as nat),
        l.is_valid(),
{
    layout_for_type_is_valid::<T>();
    let size: usize = count * core::mem::size_of::<T>();
    let align: usize = core::mem::align_of::<T>();
    proof {
        let s = size_of::<T>() as int;
        let a = align_of::<T>() as int;
        let c = count as int;
        let m = isize::MAX as int;
        lemma_fundamental_div_mod(s, a);
        assert(c * s == (c * (s / a)) * a) by (nonlinear_arith)
            requires
                s == a * (s / a) + (s % a),
                s % a == 0,
        ;
        lemma_mod_multiples_basic(c * (s / a), a);
        lemma_fundamental_div_mod(m, a);
        lemma_fundamental_div_mod(c * s, a);
        assert((c * s) / a <= m / a) by (nonlinear_arith)
            requires
                a > 0,
                c * s == a * ((c * s) / a) + ((c * s) % a),
                (c * s) % a == 0,
                m == a * (m / a) + (m % a),
                0 <= m % a < a,
                c * s <= m,
        ;
        assert(a * ((c * s) / a) <= a * (m / a)) by (nonlinear_arith)
            requires
                a > 0,
                (c * s) / a <= m / a,
        ;
    }
    Layout { size, align }
}

/// A growable array with fallible growth. `T` is the element type; `A` is
/// the allocator capability asked before each growth of the backing storage.
///
/// The view of the array is the sequence of its elements;
/// [`spec_capacity`](Vec::spec_capacity) is the element count whose
/// reservation has succeeded so far, and the array is well formed
/// ([`wf`](Vec::wf)) when its length never exceeds that.
pub struct Vec<T, A: Allocator> {
    buf: std::vec::Vec<T>,
    cap: usize,
    alloc: A,
}

impl<T, A: Allocator> View for Vec<T, A> {
    type V = Seq<T>;

    closed spec fn view(&self) -> Seq<T> {
        self.buf@
    }
}

impl<T, A: Allocator> Vec<T, A> {
    /// The element count whose reservation has succeeded so far. The backing
    /// storage holds at least this many elements without further allocation.
    pub closed spec fn spec_capacity(self) -> usize {
        self.cap
    }

    /// The allocator capability this array asks before growing.
    pub closed spec fn allocator(self) -> A {
        self.alloc
    }

    /// Well-formedness: the length never exceeds the reserved capacity.
    pub open spec fn wf(self) -> bool {
        self@.len() <= self.spec_capacity()
    }

    /// An empty array using the given allocator. Nothing is reserved yet.
    pub fn new_in(alloc: A) -> (v: Self)
        ensures
            v@ == Seq::<T>::empty(),
            v.spec_capacity() == 0,
            v.allocator() == alloc,
            v.wf(),
    {
        Vec { buf: std::vec::Vec::new(), cap: 0, alloc }
    }

    /// The number of elements in the array.
    pub fn len(&self) -> (r: usize)
        ensures
            r == self@.len(),
    {
        self.buf.len()
    }

    /// The element count the array can hold without further reservation.
    pub fn capacity(&self) -> (r: usize)
        ensures
            r == self.spec_capacity(),
    {
        self.cap
    }

    /// The elements of the array, as a slice.
    pub fn as_slice(&self) -> (r: &[T])
        ensures
            r@ == self@,
    {
        self.buf.as_slice()
    }

    /// Reserves room for at least `additional` elements beyond the current
    /// length. On failure the array is unchanged and the error carries the
    /// layout of the whole required element count; a request within the
    /// already-reserved capacity always succeeds.
    pub fn try_reserve(&mut self, additional: usize) -> (r: Result<(), AllocError>)
        requires
            old(self).wf(),
            old(self)@.len() + additional > old(self).spec_capacity() ==> old(self)@.len()
                + additional <= usize::MAX && (old(self)@.len() + additional) * size_of::<T>()
                <= isize::MAX,
        ensures
            final(self).wf(),
            final(self)@ == old(self)@,
            final(self).allocator() == old(self).allocator(),
            final(self).spec_capacity() >= old(self).spec_capacity(),
            old(self)@.len() + additional <= old(self).spec_capacity() ==> r is Ok,
            r is Ok ==> final(self).spec_capacity() >= old(self)@.len() + additional,
            r is Err ==> final(self).spec_capacity() == old(self).spec_capacity(),
            r matches Err(e) ==> e.spec_layout() == array_layout::<T>(
                (old(self)@.len() + additional) as nat,
            ) && e.spec_layout().is_valid(),
    {
        let len: usize = self.buf.len();
        if additional <= self.cap - len {
            return Ok(());
        }
        let required: usize = len + additional;
        let layout = layout_for_array::<T>(required);
        if !self.alloc.allocate(layout) {
            return Err(AllocError::new(layout));
        }
        match self.buf.try_reserve(additional) {
            Ok(()) => {
                self.cap = required;
                Ok(())
            },
            Err(_) => Err(AllocError::new(layout)),
        }
    }

    /// An empty array using the given allocator, with room reserved for at
    /// least `capacity` elements. Fails with the layout of that reservation.
    pub fn try_with_capacity_in(capacity: usize, alloc: A) -> (r: Result<Self, AllocError>)
        requires
            capacity * size_of::<T>() <= isize::MAX,
        ensures
            r matches Ok(v) ==> v@ == Seq::<T>::empty() && v.spec_capacity() >= capacity
                && v.allocator() == alloc && v.wf(),
            capacity == 0 ==> r is Ok,
            r matches Err(e) ==> e.spec_layout() == array_layout::<T>(capacity as nat)
                && e.spec_layout().is_valid(),
    {
        let mut vec = Self::new_in(alloc);
        match vec.try_reserve(capacity) {
            Ok(()) => Ok(vec),
            Err(e) => Err(e),
        }
    }

    /// Appends one element. If the length has reached the reserved capacity,
    /// room for exactly one more element is reserved first; on failure the
    /// array is unchanged. A push below the reserved capacity always
    /// succeeds.
    pub fn try_push(&mut self, value: T) -> (r: Result<(), AllocError>)
        requires
            old(self).wf(),
            old(self)@.len() == old(self).spec_capacity() ==> old(self)@.len() + 1 <= usize::MAX
                && (old(self)@.len() + 1) * size_of::<T>() <= isize::MAX,
        ensures
            final(self).wf(),
            final(self).allocator() == old(self).allocator(),
            final(self).spec_capacity() >= old(self).spec_capacity(),
            r is Ok ==> final(self)@ == old(self)@.push(value),
            old(self)@.len() < old(self).spec_capacity() ==> r is Ok,
            r is Err ==> final(self)@ == old(self)@ && final(self).spec_capacity() == old(
                self,
            ).spec_capacity(),
            r matches Err(e) ==> e.spec_layout() == array_layout::<T>(
                (old(self)@.len() + 1) as nat,
            ) && e.spec_layout().is_valid(),
    {
        if self.buf.len() == self.cap {
            match self.try_reserve(1) {
                Ok(()) => {},
                Err(e) => {
                    return Err(e);
                },
            }
        }
        self.buf.push(value);
        Ok(())
    }

    /// Removes and returns the last element, or `None` on an empty array.
    /// The reserved capacity is kept.
    pub fn pop(&mut self) -> (r: Option<T>)
        requires
            old(self).wf(),
        ensures
            final(self).wf(),
            final(self).spec_capacity() == old(self).spec_capacity(),
            final(self).allocator() == old(self).allocator(),
            old(self)@.len() > 0 ==> r == Some(old(self)@[old(self)@.len() - 1]) && final(self)@
                == old(self)@.subrange(0, old(self)@.len() - 1),
            old(self)@.len() == 0 ==> r is None && final(self)@ == old(self)@,
    {
        self.buf.pop()
    }

    /// Shortens the array to `len` elements, keeping the first `len`; does
    /// nothing when the array is already no longer than that. The reserved
    /// capacity is kept.
    pub fn truncate(&mut self, len: usize)
        requires
            old(self).wf(),
        ensures
            final(self).wf(),
            final(self).spec_capacity() == old(self).spec_capacity(),
            final(self).allocator() == old(self).allocator(),
            len <= old(self)@.len() ==> final(self)@ == old(self)@.subrange(0, len as int),
            len > old(self)@.len() ==> final(self)@ == old(self)@,
    {
        self.buf.truncate(len);
    }

    /// Removes all elements. The reserved capacity is kept.
    pub fn clear(&mut self)
        requires
            old(self).wf(),
        ensures
            final(self).wf(),
            final(self).spec_capacity() == old(self).spec_capacity(),
            final(self).allocator() == old(self).allocator(),
            final(self)@ == Seq::<T>::empty(),
    {
        self.buf.clear();
    }

    /// Resizes the array to `new_len` elements, filling new slots with
    /// copies of `value`. Shrinking never fails; growing reserves the whole
    /// required count first, so on failure the array is unchanged.
    pub fn try_resize(&mut self, new_len: usize, value: T) -> (r: Result<(), AllocError>) where
        T: Copy,

        requires
            old(self).wf(),
            new_len > old(self).spec_capacity() ==> new_len * size_of::<T>() <= isize::MAX,
        ensures
            final(self).wf(),
            final(self).allocator() == old(self).allocator(),
            final(self).spec_capacity() >= old(self).spec_capacity(),
            new_len <= old(self).spec_capacity() ==> r is Ok,
            new_len <= old(self)@.len() ==> r is Ok && final(self)@ == old(self)@.subrange(
                0,
                new_len as int,
            ) && final(self).spec_capacity() == old(self).spec_capacity(),
            r is Ok && new_len > old(self)@.len() ==> final(self)@ == old(self)@ + Seq::new(
                (new_len - old(self)@.len()) as nat,
                (|i: int| value),
            ),
            r is Err ==> final(self)@ == old(self)@ && final(self).spec_capacity() == old(
                self,
            ).spec_capacity() && new_len > old(self)@.len(),
            r matches Err(e) ==> e.spec_layout() == array_layout::<T>(new_len as nat)
                && e.spec_layout().is_valid(),
    {
        let len: usize = self.buf.len();
        if new_len <= len {
            self.buf.truncate(new_len);
            return Ok(());
        }
        match self.try_reserve(new_len - len) {
            Ok(()) => {},
            Err(e) => {
                return Err(e);
            },
        }
        let mut i: usize = len;
        while i < new_len
            invariant
                len == old(self)@.len(),
                len <= i <= new_len,
                self.buf@.len() == i,
                self.buf@.subrange(0, len as int) == old(self)@,
                forall|j: int| len <= j < i ==> self.buf@[j] == value,
                self.allocator() == old(self).allocator(),
                self.spec_capacity() >= old(self).spec_capacity(),
                self.spec_capacity() >= new_len,
            decreases new_len - i,
        {
            self.buf.push(value);
            i = i + 1;
        }
        proof {
            assert(self.buf@ =~= old(self)@ + Seq::new(
                (new_len - old(self)@.len()) as nat,
                (|i: int| value),
            ));
        }
        Ok(())
    }

    /// Resizes the array to `new_len` elements, asking `f` for one value per
    /// new slot, in increasing slot order. When `new_len` is not above the
    /// current length, `f` is never invoked; growing reserves the whole
    /// required count before the first invocation, so on failure the array
    /// and `f` are unchanged.
    pub fn try_resize_with<G: Generator<T>>(&mut self, new_len: usize, f: &mut G) -> (r: Result<
        (),
        AllocError,
    >)
        requires
            old(self).wf(),
            new_len > old(self).spec_capacity() ==> new_len * size_of::<T>() <= isize::MAX,
        ensures
            final(self).wf(),
            final(self).allocator() == old(self).allocator(),
            final(self).spec_capacity() >= old(self).spec_capacity(),
            new_len <= old(self).spec_capacity() ==> r is Ok,
            new_len <= old(self)@.len() ==> r is Ok && final(self)@ == old(self)@.subrange(
                0,
                new_len as int,
            ) && *final(f) == *old(f) && final(self).spec_capacity() == old(self).spec_capacity(),
            r is Ok && new_len > old(self)@.len() ==> final(self)@ == old(self)@ + gen_seq(
                *old(f),
                (new_len - old(self)@.len()) as nat,
            ) && *final(f) == gen_after(*old(f), (new_len - old(self)@.len()) as nat),
            r is Err ==> final(self)@ == old(self)@ && final(self).spec_capacity() == old(
                self,
            ).spec_capacity() && *final(f) == *old(f) && new_len > old(self)@.len(),
            r matches Err(e) ==> e.spec_layout() == array_layout::<T>(new_len as nat)
                && e.spec_layout().is_valid(),
    {
        let len: usize = self.buf.len();
        if new_len <= len {
            self.buf.truncate(new_len);
            return Ok(());
        }
        match self.try_reserve(new_len - len) {
            Ok(()) => {},
            Err(e) => {
                return Err(e);
            },
        }
        proof {
            assert(old(self)@ + gen_seq(*old(f), 0) =~= old(self)@);
        }
        let mut i: usize = len;
        while i < new_len
            invariant
                len == old(self)@.len(),
                len <= i <= new_len,
                self.buf@.len() == i,
                self.buf@ == old(self)@ + gen_seq(*old(f), (i - len) as nat),
                *f == gen_after(*old(f), (i - len) as nat),
                self.allocator() == old(self).allocator(),
                self.spec_capacity() >= old(self).spec_capacity(),
                self.spec_capacity() >= new_len,
            decreases new_len - i,
        {
            proof {
                lemma_gen_unfold_right(*old(f), (i - len) as nat);
            }
            let value = f.next();
            self.buf.push(value);
            i = i + 1;
            proof {
                assert(self.buf@ =~= old(self)@ + gen_seq(*old(f), (i - len) as nat));
            }
        }
        Ok(())
    }

    /// Appends every element of `other`, in order. The whole additional room
    /// is reserved before anything is appended, so on failure the array is
    /// unchanged: either all of `other` is appended or none of it.
    pub fn try_extend_from_slice(&mut self, other: &[T]) -> (r: Result<(), AllocError>) where
        T: Copy,

        requires
            old(self).wf(),
            old(self)@.len() + other@.len() > old(self).spec_capacity() ==> old(self)@.len()
                + other@.len() <= usize::MAX && (old(self)@.len() + other@.len()) * size_of::<T>()
                <= isize::MAX,
        ensures
            final(self).wf(),
            final(self).allocator() == old(self).allocator(),
            final(self).spec_capacity() >= old(self).spec_capacity(),
            old(self)@.len() + other@.len() <= old(self).spec_capacity() ==> r is Ok,
            r is Ok ==> final(self)@ == old(self)@ + other@,
            r is Err ==> final(self)@ == old(self)@ && final(self).spec_capacity() == old(
                self,
            ).spec_capacity(),
            r matches Err(e) ==> e.spec_layout() == array_layout::<T>(
                (old(self)@.len() + other@.len()) as nat,
            ) && e.spec_layout().is_valid(),
    {
        match self.try_reserve(other.len()) {
            Ok(()) => {},
            Err(e) => {
                return Err(e);
            },
        }
        proof {
            assert(old(self)@ + other@.subrange(0, 0) =~= old(self)@);
        }
        let mut i: usize = 0;
        while i < other.len()
            invariant
                i <= other@.len(),
                self.buf@ == old(self)@ + other@.subrange(0, i as int),
                self.allocator() == old(self).allocator(),
                self.spec_capacity() >= old(self).spec_capacity(),
                self.spec_capacity() >= old(self)@.len() + other@.len(),
            decreases other@.len() - i,
        {
            let value: T = *slice_index_get(other, i);
            self.buf.push(value);
            i = i + 1;
            proof {
                assert(self.buf@ =~= old(self)@ + other@.subrange(0, i as int));
            }
        }
        proof {
            assert(other@.subrange(0, other@.len() as int) =~= other@);
        }
        Ok(())
    }
}

impl<T> Vec<T, Global> {
    /// An empty array using the default allocator, with room reserved for at
    /// least `capacity` elements. Fails with the layout of that reservation.
    pub fn try_with_capacity(capacity: usize) -> (r: Result<Self, AllocError>)
        requires
            capacity * size_of::<T>() <= isize::MAX,
        ensures
            r matches Ok(v) ==> v@ == Seq::<T>::empty() && v.spec_capacity() >= capacity
                && v.wf(),
            capacity == 0 ==> r is Ok,
            r matches Err(e) ==> e.spec_layout() == array_layout::<T>(capacity as nat)
                && e.spec_layout().is_valid(),
    {
        Self::try_with_capacity_in(capacity, Global)
    }
}

} // verus!
