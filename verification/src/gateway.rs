//! The safe call gateway.
//!
//! Every operation exposed across the native boundary is run through this
//! gateway, which guarantees that the caller receives a plain status code
//! and never an uncontrolled fault. Verified work cannot fault, so
//! `safe_call` passes its code through unchanged. Work that runs outside
//! the verified boundary is executed under a fault trap by the surrounding
//! layer, which reports what it observed as a [`CallOutcome`];
//! `resolve_outcome` is the single chokepoint that converts that
//! observation into the status code the caller sees.

use vstd::prelude::*;
use crate::status::STATUS_INTERNAL_FAULT;

verus! {

/// What the fault trap around a unit of work observed: either the work
/// completed and returned a status code, or it was interrupted by an
/// internal fault before it could.
pub enum CallOutcome {
    /// The work ran to completion and returned this code.
    Completed(i32),
    /// The work was interrupted by an internal fault.
    Faulted,
}

/// The status code owed to the caller for an observed outcome: the work's
/// own code when it completed, and the reserved fault sentinel when it was
/// interrupted.
pub open spec fn outcome_code(o: CallOutcome) -> int {
    match o {
        CallOutcome::Completed(c) => c as int,
        CallOutcome::Faulted => STATUS_INTERNAL_FAULT as int,
    }
}

/// Converts an observed outcome into the status code reported across the
/// boundary. A completed unit of work has its own code passed through
/// unchanged; an intercepted fault is collapsed to the fault sentinel.
pub fn resolve_outcome(o: CallOutcome) -> (r: i32)
    ensures
        r as int == outcome_code(o),
{
    match o {
        CallOutcome::Completed(c) => c,
        CallOutcome::Faulted => STATUS_INTERNAL_FAULT,
    }
}

/// Runs a unit of work and returns its status code.
///
/// Verified work is proved free of panics, so within the verified boundary
/// the gateway's fault arm is unreachable and the work's own code is passed
/// through unchanged; the contract says exactly that. The gateway holds no
/// state of its own, so concurrent invocations cannot interfere.
pub fn safe_call<F: FnOnce() -> i32>(work: F) -> (r: i32)
    requires
        call_requires(work, ()),
    ensures
        call_ensures(work, (), r),
{
    work()
}

/// A fault observed by the trap is reported as the fault sentinel, and a
/// completed unit of work keeps its own code: the sentinel is seen exactly
/// when the work faulted or itself chose to return the sentinel.
pub proof fn lemma_fault_collapses_to_sentinel(o: CallOutcome)
    ensures
        o is Faulted ==> outcome_code(o) == STATUS_INTERNAL_FAULT as int,
        o is Completed ==> outcome_code(o) == o->0 as int,
        outcome_code(o) == STATUS_INTERNAL_FAULT as int <==> o is Faulted || o
            == CallOutcome::Completed(STATUS_INTERNAL_FAULT),
{
}

} // verus!
