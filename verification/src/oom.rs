//! The decision core of the allocation-failure trap.
//!
//! A growth path deep inside a dynamic array has no return channel for an
//! allocation failure: the runtime raises an unrecoverable fault instead. The
//! trap turns exactly that fault into a value of [`AllocError`]: the
//! allocation-failure handler writes the failing request into a per-thread
//! [`FaultSlot`] and starts the fault; the fault handler lets a fault whose
//! payload is an `AllocError` unwind to the call boundary and aborts on any
//! other; the boundary reads and clears the slot and resolves the invocation.
//!
//! This module holds the state and the decisions of that machine. Installing
//! the process-wide handlers, catching the fault at the boundary and aborting
//! the process are runtime work that stands outside the library; it calls
//! [`FaultSlot::record`] from the allocation-failure handler and
//! [`resolve_fault`] at the boundary.

use vstd::prelude::*;

verus! {

use crate::AllocError;
use crate::Layout;

/// The per-thread captured-fault slot: at most one [`AllocError`], written by
/// the allocation-failure handler during a scoped invocation, read and
/// cleared at the boundary. Each thread owns one slot, so invocations on
/// different threads never interfere.
pub struct FaultSlot {
    fault: Option<AllocError>,
}

/// What the boundary does with an invocation that did not complete normally:
/// hand the captured allocation failure to the caller, or treat the fault as
/// fatal.
#[derive(Clone, Copy, PartialEq, Eq, Structural, Debug)]
pub enum FaultVerdict {
    /// The fault was an allocation failure; the boundary returns this error.
    Recover(AllocError),
    /// No allocation failure was captured: the fault is unrelated, and the
    /// process must abort.
    Fatal,
}

impl FaultSlot {
    /// The captured fault, if one is pending.
    pub closed spec fn captured(self) -> Option<AllocError> {
        self.fault
    }

    /// A fresh, empty slot.
    pub fn new() -> (s: FaultSlot)
        ensures
            s.captured() is None,
    {
        FaultSlot { fault: None }
    }

    /// Called by the allocation-failure handler: stores the failing request,
    /// to be carried by the fault that the handler then starts.
    pub fn record(&mut self, layout: Layout)
        ensures
            final(self).captured() matches Some(e) && e.spec_layout() == layout,
    {
        self.fault = Some(AllocError::new(layout));
    }

    /// Reads and clears the slot in one step: whatever was captured comes
    /// out, and the slot is empty for the next scoped invocation.
    pub fn take(&mut self) -> (r: Option<AllocError>)
        ensures
            r == old(self).captured(),
            final(self).captured() is None,
    {
        let r = self.fault;
        self.fault = None;
        r
    }

    /// True when no fault is pending.
    pub fn is_empty(&self) -> (r: bool)
        ensures
            r <==> self.captured() is None,
    {
        self.fault.is_none()
    }
}

/// The boundary decision for an invocation that ended in a fault: a captured
/// allocation failure is recovered, anything else is fatal. Either way the
/// slot is left empty, so a later scoped invocation starts clean.
pub fn resolve_fault(slot: &mut FaultSlot) -> (r: FaultVerdict)
    ensures
        final(slot).captured() is None,
        old(slot).captured() matches Some(e) ==> r == FaultVerdict::Recover(e),
        old(slot).captured() is None ==> r == FaultVerdict::Fatal,
{
    match slot.take() {
        Some(e) => FaultVerdict::Recover(e),
        None => FaultVerdict::Fatal,
    }
}

} // verus!
