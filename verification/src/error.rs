//! Failure conditions: heap-integrity faults that must escalate, and
//! closure-table misuse that is reported gracefully to the caller.

use vstd::prelude::*;

verus! {

/// An integrity fault found while sizing, scanning, walking or rendering
/// the heap. Continuing past any of these risks reading outside the heap.
#[derive(Clone, Copy, Debug, PartialEq, Eq, Structural)]
pub enum HeapError {
    /// A header word matched no registered shape.
    UnknownTag,
    /// An object's header or body runs past the end of the heap.
    TruncatedObject,
    /// A size formula produced fewer words than any object occupies.
    BadSize,
    /// Advancing by an object's size overshot the scan limit.
    Overshoot,
    /// An address fell outside the heap, or a heap layout was rejected.
    OutOfHeap,
    /// A word is neither a scalar nor a well-formed skewed pointer.
    BadReference,
    /// A traversal ran out of its step budget.
    OutOfFuel,
}

/// Misuse of a closure-table handle. These do not imply heap damage and
/// leave the table unchanged.
#[derive(Clone, Copy, Debug, PartialEq, Eq, Structural)]
pub enum TableError {
    /// The index never named a slot.
    IndexOutOfRange,
    /// The slot exists but holds no live entry.
    SlotFree,
}

} // verus!
