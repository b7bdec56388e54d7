//! The obligation guard that every pending send or receive step carries.
use vstd::prelude::*;

verus! {

/// Marks one protocol step that is still owed.
///
/// A live guard is always armed: the step it belongs to has not run yet.
/// Running the step consumes the guard through [`PanicOnDrop::disarm`].
/// Splitting a session moves the guard to the new step value; it is never
/// duplicated and never disarmed by a split. Discarding a guard has no
/// effect of its own; [`PanicOnDrop::violated_on_discard`] states when a
/// discard breaks the protocol.
pub struct PanicOnDrop;

impl PanicOnDrop {
    /// Consumes the guard once its step has been carried out.
    pub fn disarm(self) {
        let PanicOnDrop = self;
    }

    /// Whether discarding this (armed) guard is a protocol violation, given
    /// whether the current thread is already unwinding from another failure.
    ///
    /// Discarding an armed guard is a violation exactly when no other failure
    /// is propagating; while unwinding it is suppressed, so that the first
    /// failure stays the one that is observed.
    pub fn violated_on_discard(&self, unwinding: bool) -> (violation: bool)
        ensures
            violation == !unwinding,
    {
        !unwinding
    }
}

} // verus!
