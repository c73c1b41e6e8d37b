//! The failures that the dispatch core reports to its callers.

use vstd::prelude::*;

verus! {

/// Why an operation on a window could not be carried out.
#[derive(Clone, Copy, PartialEq, Eq, Structural, Debug)]
pub enum Error {
    /// The handle was never bound to a window.
    UnboundHandle,
    /// The handle's window has been closed.
    WindowGone,
    /// A window with the same identity is registered already.
    DuplicateWindow,
    /// A window was to be built without a handler.
    MissingHandler,
}

} // verus!
