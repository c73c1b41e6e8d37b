//! What the dispatch core asks its caller to carry out.
//!
//! The core decides; the caller performs.  Every dispatch function returns a
//! list of effects, and the caller carries them out in the order of the list
//! before it hands the core the next event.

use vstd::prelude::*;
use crate::geometry::{Region, Size};
use crate::registry::WindowId;
use crate::scale::Scale;

verus! {

/// Identifies one request for idle work, chosen by whoever asks for it.
#[derive(Clone, Copy, PartialEq, Eq, Structural, Debug, Hash)]
pub struct IdleToken {
    pub token: usize,
}

impl IdleToken {
    /// The token with the given number.
    pub fn new(token: usize) -> (idle_token: IdleToken)
        ensures
            idle_token == (IdleToken { token }),
    {
        IdleToken { token }
    }
}

/// One call of a window's handler.
#[derive(Debug, PartialEq, Eq)]
pub enum HandlerCall {
    /// The window has a new size.
    Size(Size),
    /// The window has a new scale.
    Scale(Scale),
    /// A paint follows.
    PreparePaint,
    /// Paint the given region.
    Paint(Region),
    /// The user asked to close the window.
    RequestClose,
    /// The idle work that the token stands for is due.
    Idle(IdleToken),
}

/// Who draws a window's decorations.
#[derive(Clone, Copy, PartialEq, Eq, Structural, Debug)]
pub enum DecorationMode {
    /// The application draws them.
    Client,
    /// The compositor draws them.
    Server,
}

/// One request to the protocol transport about a window.
#[derive(Clone, Copy, PartialEq, Eq, Structural, Debug)]
pub enum Request {
    /// Commit the surface's pending state.
    Commit,
    /// Maximize the window.
    SetMaximized,
    /// End the maximized state.
    UnsetMaximized,
    /// Minimize the window.
    SetMinimized,
    /// Ask for decorations of the given kind.
    DecorationMode(DecorationMode),
    /// Ask for a frame callback on the surface.
    Frame,
}

/// One signal to the run loop.
#[derive(Clone, Copy, PartialEq, Eq, Structural, Debug)]
pub enum LoopSignal {
    /// Wake the dispatch thread so that it pumps once more.
    Wakeup,
    /// End the run loop.
    Stop,
}

/// Something that went wrong without stopping the dispatch.
#[derive(Clone, Copy, PartialEq, Eq, Structural, Debug)]
pub enum Diagnostic {
    /// A close was delivered for a window that is closed already.
    ClosedTwice(WindowId),
    /// An idle callback was due for a window that is closed; it was dropped.
    IdleCallbackWindowGone(WindowId),
    /// An idle token was due for a window that is closed; it was dropped.
    IdleTokenWindowGone(WindowId),
    /// A resize was to be applied to a window for which no size was ever
    /// requested.
    ResizeWithoutRequest(WindowId),
}

impl Diagnostic {
    /// True for a diagnostic that no use of the handles can cause: it shows a
    /// fault in the dispatch state itself.
    pub open spec fn violation(self) -> bool {
        self is ResizeWithoutRequest
    }

    /// Tells a broken invariant of the dispatch state from a misuse that the
    /// dispatch recovers from.
    pub fn is_violation(&self) -> (violation: bool)
        ensures
            violation == self.violation(),
    {
        match self {
            Diagnostic::ResizeWithoutRequest(_) => true,
            _ => false,
        }
    }
}

/// One thing for the caller to carry out.  `C` is the type of the callbacks
/// that idle work carries.
#[derive(Debug, PartialEq, Eq)]
pub enum Effect<C> {
    /// Call the handler of the window.
    Handler(WindowId, HandlerCall),
    /// Send the request about the window to the transport.
    Request(WindowId, Request),
    /// Run the callback on the handler of the window.
    RunCallback(WindowId, C),
    /// Run the callback on the application's own handler.
    RunAppCallback(C),
    /// Signal the run loop.
    Signal(LoopSignal),
    /// Record the diagnostic.
    Diagnostic(Diagnostic),
}

} // verus!
