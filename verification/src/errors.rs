use vstd::prelude::*;

verus! {

/// Failure conditions of the reactive core. These are contract violations by
/// the caller or by the shape of the graph, surfaced loudly instead of being
/// silently swallowed.
#[derive(Clone, Copy, Debug, PartialEq, Eq, Structural)]
pub enum Error {
    /// A handle was used whose node no longer exists in the arena.
    Disposed,
    /// A tracked read or node creation was attempted with no current scope.
    OutsideTrackingScope,
    /// A context lookup walked the ownership chain to the root with no match.
    MissingContext,
    /// A stored value did not have the shape an operation demanded.
    TypeMismatch,
    /// Propagation or evaluation exceeded the engine's recursion budget;
    /// this is how unbounded reentrant invalidation (a cyclic dependency)
    /// is rejected rather than silently allowed.
    DepthExceeded,
}

} // verus!
