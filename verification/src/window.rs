//! Windows: their properties, the deferred actions on them, and the handles
//! through which an application controls them.

use vstd::prelude::*;
use crate::application::Application;
use crate::dispatch::{Model, WaylandState};
use crate::effect::{DecorationMode, Diagnostic, Effect, HandlerCall, IdleToken, LoopSignal, Request};
use crate::error::Error;
use crate::geometry::{Insets, Point, Size};
use crate::registry::WindowId;
use crate::scale::Scale;

verus! {

/// How a window fills the screen.
#[derive(Clone, Copy, PartialEq, Eq, Structural, Debug)]
pub enum WindowSizeState {
    Maximized,
    Minimized,
    Restored,
}

/// The geometry of a window as its handler last heard of it, and the size
/// that the application has asked for.
///
/// `current_size` and `current_scale` are the values that the handler was
/// last told, never values still on their way.  `requested_size` is what
/// `set_size` was last given; it takes effect when the resize is applied on
/// the dispatch thread.
#[derive(Clone, Copy, Debug)]
pub struct WindowProperties {
    pub requested_size: Option<Size>,
    pub current_size: Size,
    pub current_scale: Scale,
}

/// The registry's entry for one window.  `H` is the application's handler
/// for the window and `W` the protocol resource that keeps the window alive;
/// the entry owns both, and dropping the entry closes the window.
pub struct WindowState<H, W> {
    pub handler: H,
    pub wayland_window: W,
    pub properties: WindowProperties,
    /// True once the compositor has sent the window its first configuration.
    pub configured: bool,
    /// True while a frame callback that was asked for has not fired yet.
    pub frame_pending: bool,
}

/// Where a window stands between being built and being gone.
#[derive(Clone, Copy, PartialEq, Eq, Structural, Debug)]
pub enum WindowPhase {
    /// Registered, and not configured by the compositor yet.
    Unconfigured,
    /// Registered and configured.
    Configured,
    /// Registered, with a close waiting in the action queue.
    Closing,
    /// Not registered: closed, or never built.
    Removed,
}

impl<H, W> WindowState<H, W> {
    /// This entry with `size` as the requested size.
    pub open spec fn with_requested(self, size: Size) -> Self {
        WindowState {
            properties: WindowProperties { requested_size: Some(size), ..self.properties },
            ..self
        }
    }

    /// This entry after a resize to `size` was applied: the size is current
    /// and a frame callback is outstanding.
    pub open spec fn resized(self, size: Size) -> Self {
        WindowState {
            properties: WindowProperties { current_size: size, ..self.properties },
            frame_pending: true,
            ..self
        }
    }

    /// This entry after the surface's scale changed to `scale`: the surface
    /// keeps its device pixels, so its size in display points follows.
    pub open spec fn rescaled(self, scale: Scale) -> Self {
        WindowState {
            properties: WindowProperties {
                current_size: self.properties.current_size.rescaled(
                    self.properties.current_scale,
                    scale,
                ),
                current_scale: scale,
                ..self.properties
            },
            ..self
        }
    }

    /// This entry after its frame callback fired.
    pub open spec fn frame_done(self) -> Self {
        WindowState { frame_pending: false, ..self }
    }

    /// This entry after the compositor configured the window.
    pub open spec fn configure_done(self) -> Self {
        WindowState { configured: true, ..self }
    }

    /// The entry of a window that was just built with the given size.
    pub fn new(handler: H, wayland_window: W, size: Size) -> (state: Self)
        ensures
            state.handler == handler,
            state.wayland_window == wayland_window,
            state.properties.requested_size.is_none(),
            state.properties.current_size == size,
            state.properties.current_scale.x_factor() == 1,
            state.properties.current_scale.y_factor() == 1,
            !state.configured,
            !state.frame_pending,
    {
        WindowState {
            handler,
            wayland_window,
            properties: WindowProperties {
                requested_size: None,
                current_size: size,
                current_scale: Scale::identity(),
            },
            configured: false,
            frame_pending: false,
        }
    }
}

/// A change to a window that is put off until the dispatch thread gets to it.
#[derive(Clone, Copy, PartialEq, Eq, Structural, Debug)]
pub enum WindowAction {
    /// Make the requested size the current one.  A size has to have been
    /// requested before.
    ResizeRequested,
    /// Close the window.
    Close,
}

/// An entry of the action queue: a deferred action and the window it is for.
#[derive(Clone, Copy, PartialEq, Eq, Structural, Debug)]
pub enum ActiveAction {
    Window(WindowId, WindowAction),
}

/// An entry of the idle queue.  The window that an entry names is looked up
/// when the entry is delivered, not when it is queued.
#[derive(Debug, PartialEq, Eq)]
pub enum IdleAction<C> {
    /// Run the callback on the application's own handler.
    AppCallback(C),
    /// Run the callback on the handler of the window.
    Callback(WindowId, C),
    /// Hand the token to the handler of the window.
    Token(WindowId, IdleToken),
}

impl WindowAction {
    /// Carries out this action on the window `window_id` and returns what the
    /// caller has to do about it, in order.
    ///
    /// A resize of a window that is not registered does nothing.  A resize of
    /// a registered window makes the requested size the current one, has the
    /// handler told, and asks for a frame callback unless one is outstanding;
    /// where no size was ever requested it changes nothing and reports the
    /// broken invariant.  A close takes the window out of the registry and
    /// drops its entry, and signals the run loop to stop where that was the
    /// last window; a close of a window that is not registered changes
    /// nothing and reports the second close.
    pub fn run<H, W, C>(self, state: &mut WaylandState<H, W, C>, window_id: WindowId) -> (effects:
        Vec<Effect<C>>)
        ensures
            final(state)@ == old(state)@.after_action(window_id, self),
            effects@ == old(state)@.effects_of_action(window_id, self),
    {
        let mut effects: Vec<Effect<C>> = Vec::new();
        match self {
            WindowAction::ResizeRequested => {
                match state.windows.get_mut(window_id) {
                    None => {},
                    Some(window) => {
                        match window.properties.requested_size {
                            None => {
                                effects.push(
                                    Effect::Diagnostic(Diagnostic::ResizeWithoutRequest(window_id)),
                                );
                            },
                            Some(size) => {
                                window.properties.current_size = size;
                                effects.push(Effect::Handler(window_id, HandlerCall::Size(size)));
                                if !window.frame_pending {
                                    window.frame_pending = true;
                                    effects.push(Effect::Request(window_id, Request::Frame));
                                }
                            },
                        }
                    },
                }
            },
            WindowAction::Close => {
                match state.windows.remove(window_id) {
                    None => {
                        effects.push(Effect::Diagnostic(Diagnostic::ClosedTwice(window_id)));
                    },
                    Some(_window) => {
                        if state.windows.is_empty() {
                            effects.push(Effect::Signal(LoopSignal::Stop));
                        }
                    },
                }
            },
        }
        proof {
            assert(state@.windows =~= old(state)@.after_action(window_id, self).windows);
            assert(effects@ =~= old(state)@.effects_of_action(window_id, self));
        }
        effects
    }
}

impl<H, W, C> Model<H, W, C> {
    /// True where the handle is bound to a window that is registered.
    pub open spec fn resolves(self, handle: WindowHandle) -> bool {
        handle.target() matches Some(id) && self.live(id)
    }

    /// The size that the handle reports: the current size of its window, and
    /// nothing where the handle does not resolve.
    pub open spec fn size_seen(self, handle: WindowHandle) -> Size {
        if self.resolves(handle) {
            self.windows[handle.target().unwrap()].properties.current_size
        } else {
            Size { width: 0, height: 0 }
        }
    }

    /// The state after `set_size(size)` through the handle: the size is
    /// recorded as requested and a resize is queued.  Nothing changes where
    /// the handle does not resolve.
    pub open spec fn after_set_size(self, handle: WindowHandle, size: Size) -> Self {
        if self.resolves(handle) {
            let id = handle.target().unwrap();
            Model {
                windows: self.windows.insert(id, self.windows[id].with_requested(size)),
                actions: self.actions.push(ActiveAction::Window(id, WindowAction::ResizeRequested)),
                ..self
            }
        } else {
            self
        }
    }

    /// The state after `close()` through the handle: a close is queued for
    /// the handle's window, registered or not.  Nothing changes where the
    /// handle is unbound.
    pub open spec fn after_close(self, handle: WindowHandle) -> Self {
        match handle.target() {
            Some(id) => Model {
                actions: self.actions.push(ActiveAction::Window(id, WindowAction::Close)),
                ..self
            },
            None => self,
        }
    }

    /// The one request about the handle's window, or nothing where the
    /// handle does not resolve.
    pub open spec fn request_through(self, handle: WindowHandle, request: Request) -> Seq<
        Effect<C>,
    > {
        if self.resolves(handle) {
            seq![Effect::Request(handle.target().unwrap(), request)]
        } else {
            Seq::empty()
        }
    }

    /// The state with one more entry at the end of the idle queue.
    pub open spec fn with_idle(self, action: IdleAction<C>) -> Self {
        Model { idle: self.idle.push(action), ..self }
    }
}

/// The request that brings a window into the given state.  There is no
/// request that ends the minimized state, so `Restored` only ends the
/// maximized one.
pub open spec fn request_for_state(state: WindowSizeState) -> Request {
    match state {
        WindowSizeState::Maximized => Request::SetMaximized,
        WindowSizeState::Minimized => Request::SetMinimized,
        WindowSizeState::Restored => Request::UnsetMaximized,
    }
}

/// The request for decorations by the compositor where a title bar is to be
/// shown, and by the application where not.
pub open spec fn request_for_titlebar(show_titlebar: bool) -> Request {
    if show_titlebar {
        Request::DecorationMode(DecorationMode::Server)
    } else {
        Request::DecorationMode(DecorationMode::Client)
    }
}

/// The capability to control one window.  Handles are copied freely and may
/// outlive their window; a handle that was never bound to a window, and one
/// whose window is closed, resolve to nothing.
#[derive(Clone, Copy, PartialEq, Eq, Structural, Debug)]
pub struct WindowHandle {
    window: Option<WindowId>,
}

impl Default for WindowHandle {
    /// The handle that is bound to no window.
    fn default() -> (handle: WindowHandle)
        ensures
            handle.target().is_none(),
    {
        WindowHandle { window: None }
    }
}

impl WindowHandle {
    /// The window that the handle is bound to, if any.
    pub closed spec fn target(self) -> Option<WindowId> {
        self.window
    }

    /// The handle on the window of the given identity.
    pub fn bound_to(window: WindowId) -> (handle: WindowHandle)
        ensures
            handle.target() == Some(window),
    {
        WindowHandle { window: Some(window) }
    }

    /// The window that the handle is bound to, if any.
    pub fn id(&self) -> (window: Option<WindowId>)
        ensures
            window == self.target(),
    {
        self.window
    }

    /// Shows the window: its surface is to be committed.  Nothing changes in
    /// the dispatch state, so a second call asks for the same.
    pub fn show<H, W, C>(&self, state: &WaylandState<H, W, C>) -> (effects: Vec<Effect<C>>)
        ensures
            effects@ == state@.request_through(*self, Request::Commit),
    {
        self.request(state, Request::Commit)
    }

    /// Asks for a title bar drawn by the compositor, or for none.
    pub fn show_titlebar<H, W, C>(&self, state: &WaylandState<H, W, C>, show_titlebar: bool) -> (effects:
        Vec<Effect<C>>)
        ensures
            effects@ == state@.request_through(*self, request_for_titlebar(show_titlebar)),
    {
        if show_titlebar {
            self.request(state, Request::DecorationMode(DecorationMode::Server))
        } else {
            self.request(state, Request::DecorationMode(DecorationMode::Client))
        }
    }

    /// Asks for the window to be maximized, minimized or restored.  A
    /// minimized window cannot be restored by request: `Restored` ends the
    /// maximized state and nothing else.
    pub fn set_window_state<H, W, C>(
        &self,
        state: &WaylandState<H, W, C>,
        size_state: WindowSizeState,
    ) -> (effects: Vec<Effect<C>>)
        ensures
            effects@ == state@.request_through(*self, request_for_state(size_state)),
    {
        match size_state {
            WindowSizeState::Maximized => self.request(state, Request::SetMaximized),
            WindowSizeState::Minimized => self.request(state, Request::SetMinimized),
            WindowSizeState::Restored => self.request(state, Request::UnsetMaximized),
        }
    }

    /// The state that the window is taken to be in.  The protocol does not
    /// tell, so this is always `Maximized`.
    pub fn get_window_state(&self) -> (size_state: WindowSizeState)
        ensures
            size_state == WindowSizeState::Maximized,
    {
        WindowSizeState::Maximized
    }

    /// The position of the window, which the protocol does not tell: always
    /// the origin.
    pub fn get_position(&self) -> (position: Point)
        ensures
            position == (Point { x: 0, y: 0 }),
    {
        Point::zero()
    }

    /// The borders between the window's frame and its content: none.
    pub fn content_insets(&self) -> (insets: Insets)
        ensures
            insets == (Insets { x0: 0, y0: 0, x1: 0, y1: 0 }),
    {
        Insets::zero()
    }

    /// Records `size` as the size asked for and queues the resize.  The
    /// current size stays as it is until the dispatch thread applies the
    /// resize.  Nothing happens where the handle does not resolve.
    pub fn set_size<H, W, C>(&self, state: &mut WaylandState<H, W, C>, size: Size)
        ensures
            final(state)@ == old(state)@.after_set_size(*self, size),
            final(state)@.size_seen(*self) == old(state)@.size_seen(*self),
    {
        match self.window {
            None => {},
            Some(id) => {
                match state.windows.get_mut(id) {
                    None => {},
                    Some(window) => {
                        window.properties.requested_size = Some(size);
                        state.actions.push_back(
                            ActiveAction::Window(id, WindowAction::ResizeRequested),
                        );
                    },
                }
            },
        }
        proof {
            assert(state@.windows =~= old(state)@.after_set_size(*self, size).windows);
        }
    }

    /// The current size of the window: the one that its handler was last
    /// told, never a requested one that is not applied yet.  The size of
    /// nothing where the handle does not resolve.
    pub fn get_size<H, W, C>(&self, state: &WaylandState<H, W, C>) -> (size: Size)
        ensures
            size == state@.size_seen(*self),
    {
        match self.window {
            None => Size::zero(),
            Some(id) => {
                match state.windows.get(id) {
                    None => Size::zero(),
                    Some(window) => window.properties.current_size,
                }
            },
        }
    }

    /// The current scale of the window.  Fails where the handle is bound to
    /// no window, and where its window is closed.
    pub fn get_scale<H, W, C>(&self, state: &WaylandState<H, W, C>) -> (scale: Result<Scale, Error>)
        ensures
            self.target().is_none() ==> scale == Err::<Scale, Error>(Error::UnboundHandle),
            self.target().is_some() && !state@.resolves(*self) ==> scale == Err::<Scale, Error>(
                Error::WindowGone,
            ),
            state@.resolves(*self) ==> scale == Ok::<Scale, Error>(
                state@.windows[self.target().unwrap()].properties.current_scale,
            ),
    {
        match self.window {
            None => Err(Error::UnboundHandle),
            Some(id) => {
                match state.windows.get(id) {
                    None => Err(Error::WindowGone),
                    Some(window) => Ok(window.properties.current_scale),
                }
            },
        }
    }

    /// Queues the closing of the window and returns at once.  The close is
    /// queued for a window that is closed already too; its delivery then
    /// reports the second close and does nothing else.
    pub fn close<H, W, C>(&self, state: &mut WaylandState<H, W, C>)
        ensures
            final(state)@ == old(state)@.after_close(*self),
    {
        match self.window {
            None => {},
            Some(id) => {
                state.actions.push_back(ActiveAction::Window(id, WindowAction::Close));
            },
        }
    }

    /// A handle for scheduling idle work for the window; `None` where this
    /// handle does not resolve.
    pub fn get_idle_handle<H, W, C>(&self, state: &WaylandState<H, W, C>) -> (handle: Option<
        IdleHandle,
    >)
        ensures
            handle.is_some() == state@.resolves(*self),
            handle matches Some(idle) ==> Some(idle.window()) == self.target(),
    {
        match self.window {
            None => None,
            Some(id) => {
                if state.windows.contains(id) {
                    Some(IdleHandle { window: id })
                } else {
                    None
                }
            },
        }
    }

    /// The one request about this handle's window, or nothing where the
    /// handle does not resolve.
    fn request<H, W, C>(&self, state: &WaylandState<H, W, C>, request: Request) -> (effects: Vec<
        Effect<C>,
    >)
        ensures
            effects@ == state@.request_through(*self, request),
    {
        let mut effects: Vec<Effect<C>> = Vec::new();
        match self.window {
            None => {},
            Some(id) => {
                if state.windows.contains(id) {
                    effects.push(Effect::Request(id, request));
                }
            },
        }
        proof {
            assert(effects@ =~= state@.request_through(*self, request));
        }
        effects
    }
}

/// The capability to schedule idle work for one window.  The window is
/// looked up when the work is delivered: work for a window that was closed
/// in between is dropped then.
#[derive(Clone, Copy, PartialEq, Eq, Structural, Debug)]
pub struct IdleHandle {
    window: WindowId,
}

impl IdleHandle {
    /// The window that the work is for.
    pub closed spec fn window(self) -> WindowId {
        self.window
    }

    /// Queues a callback to run on the window's handler.
    pub fn add_idle_callback<H, W, C>(&self, state: &mut WaylandState<H, W, C>, callback: C)
        ensures
            final(state)@ == old(state)@.with_idle(IdleAction::Callback(self.window(), callback)),
    {
        state.idle.push_back(IdleAction::Callback(self.window, callback));
    }

    /// Queues a token to be handed to the window's handler.
    pub fn add_idle_token<H, W, C>(&self, state: &mut WaylandState<H, W, C>, token: IdleToken)
        ensures
            final(state)@ == old(state)@.with_idle(IdleAction::Token(self.window(), token)),
    {
        state.idle.push_back(IdleAction::Token(self.window, token));
    }
}

/// A cursor image that an application supplies.
#[derive(Clone, Copy, PartialEq, Eq, Structural, Debug)]
pub struct CustomCursor;

/// A menu of the application.
#[derive(Clone, Copy, PartialEq, Eq, Structural, Debug)]
pub struct Menu;

/// Where a window stands among the windows of its application.
#[derive(Clone, Copy, PartialEq, Eq, Structural, Debug)]
pub enum WindowLevel {
    /// A top-level window.
    AppWindow,
    /// A tooltip of the given window.
    Tooltip(WindowHandle),
    /// A drop-down of the given window.
    DropDown(WindowHandle),
    /// A modal dialog of the given window.
    Modal(WindowHandle),
}

/// Collects what a new window is to be like.  `H` is the type of the
/// window's handler.
pub struct WindowBuilder<H> {
    pub handler: Option<H>,
    pub title: String,
    pub menu: Option<Menu>,
    pub position: Option<Point>,
    pub level: WindowLevel,
    pub state: Option<WindowSizeState>,
    /// The size of the window in display points.
    pub size: Size,
    pub min_size: Option<Size>,
    pub resizable: bool,
    pub show_titlebar: bool,
}

impl<H> WindowBuilder<H> {
    /// A builder for a window of the application: without handler, title,
    /// menu, position, state or least size, of size nothing, a top-level
    /// window that can be resized and has a title bar.
    pub fn new<W, C>(_app: &Application<H, W, C>) -> (builder: WindowBuilder<H>)
        ensures
            builder.handler.is_none(),
            builder.title@ == Seq::<char>::empty(),
            builder.menu.is_none(),
            builder.position.is_none(),
            builder.level == WindowLevel::AppWindow,
            builder.state.is_none(),
            builder.size == (Size { width: 0, height: 0 }),
            builder.min_size.is_none(),
            builder.resizable,
            builder.show_titlebar,
    {
        WindowBuilder {
            handler: None,
            title: String::new(),
            menu: None,
            size: Size::zero(),
            position: None,
            level: WindowLevel::AppWindow,
            state: None,
            min_size: None,
            resizable: true,
            show_titlebar: true,
        }
    }

    /// Sets the handler that the window's events go to.
    pub fn handler(self, handler: H) -> (builder: Self)
        ensures
            builder == (WindowBuilder { handler: Some(handler), ..self }),
    {
        let mut builder = self;
        builder.handler = Some(handler);
        builder
    }

    /// Sets the size of the window, in display points.
    pub fn size(self, size: Size) -> (builder: Self)
        ensures
            builder == (WindowBuilder { size, ..self }),
    {
        let mut builder = self;
        builder.size = size;
        builder
    }

    /// Sets the least size that the window may be given.
    pub fn min_size(self, size: Size) -> (builder: Self)
        ensures
            builder == (WindowBuilder { min_size: Some(size), ..self }),
    {
        let mut builder = self;
        builder.min_size = Some(size);
        builder
    }

    /// Sets whether the user may resize the window.
    pub fn resizable(self, resizable: bool) -> (builder: Self)
        ensures
            builder == (WindowBuilder { resizable, ..self }),
    {
        let mut builder = self;
        builder.resizable = resizable;
        builder
    }

    /// Sets whether the window has a title bar.
    pub fn show_titlebar(self, show_titlebar: bool) -> (builder: Self)
        ensures
            builder == (WindowBuilder { show_titlebar, ..self }),
    {
        let mut builder = self;
        builder.show_titlebar = show_titlebar;
        builder
    }

    /// Windows are transparent wherever they are not painted, whatever is
    /// asked for here: the builder stays as it is.
    pub fn transparent(self, _transparent: bool) -> (builder: Self)
        ensures
            builder == self,
    {
        self
    }

    /// Sets the position of the window.
    pub fn position(self, position: Point) -> (builder: Self)
        ensures
            builder == (WindowBuilder { position: Some(position), ..self }),
    {
        let mut builder = self;
        builder.position = Some(position);
        builder
    }

    /// Sets where the window stands among the windows of its application.
    pub fn level(self, level: WindowLevel) -> (builder: Self)
        ensures
            builder == (WindowBuilder { level, ..self }),
    {
        let mut builder = self;
        builder.level = level;
        builder
    }

    /// Sets the state in which the window first appears.
    pub fn window_state(self, state: WindowSizeState) -> (builder: Self)
        ensures
            builder == (WindowBuilder { state: Some(state), ..self }),
    {
        let mut builder = self;
        builder.state = Some(state);
        builder
    }

    /// Sets the title of the window.
    pub fn title(self, title: String) -> (builder: Self)
        ensures
            builder == (WindowBuilder { title, ..self }),
    {
        let mut builder = self;
        builder.title = title;
        builder
    }

    /// Sets the menu of the window.
    pub fn menu(self, menu: Menu) -> (builder: Self)
        ensures
            builder == (WindowBuilder { menu: Some(menu), ..self }),
    {
        let mut builder = self;
        builder.menu = Some(menu);
        builder
    }

    /// Registers the window under `identity`, with `wayland_window` as the
    /// protocol resource that the caller has created for it, and returns the
    /// handle on it.  The window starts with the builder's size as its
    /// current size, at the scale of one device pixel per display point,
    /// not configured yet, with no size requested and no frame callback
    /// outstanding.
    ///
    /// Fails, and changes nothing, where the builder has no handler and
    /// where a window of this identity is registered already.
    pub fn build<W, C>(
        self,
        state: &mut WaylandState<H, W, C>,
        wayland_window: W,
        identity: WindowId,
    ) -> (handle: Result<WindowHandle, Error>)
        ensures
            self.handler.is_none() ==> handle == Err::<WindowHandle, Error>(Error::MissingHandler)
                && final(state)@ == old(state)@,
            self.handler.is_some() && old(state)@.live(identity) ==> handle == Err::<
                WindowHandle,
                Error,
            >(Error::DuplicateWindow) && final(state)@ == old(state)@,
            self.handler.is_some() && !old(state)@.live(identity) ==> {
                &&& handle matches Ok(bound)
                &&& bound.target() == Some(identity)
                &&& final(state)@.actions == old(state)@.actions
                &&& final(state)@.idle == old(state)@.idle
                &&& final(state)@.live(identity)
                &&& final(state)@.windows == old(state)@.windows.insert(
                    identity,
                    final(state)@.windows[identity],
                )
                &&& final(state)@.windows[identity].handler == self.handler.unwrap()
                &&& final(state)@.windows[identity].wayland_window == wayland_window
                &&& final(state)@.windows[identity].properties.requested_size.is_none()
                &&& final(state)@.windows[identity].properties.current_size == self.size
                &&& final(state)@.windows[identity].properties.current_scale.x_factor() == 1
                &&& final(state)@.windows[identity].properties.current_scale.y_factor() == 1
                &&& !final(state)@.windows[identity].configured
                &&& !final(state)@.windows[identity].frame_pending
            },
    {
        match self.handler {
            None => Err(Error::MissingHandler),
            Some(handler) => {
                let entry = WindowState::new(handler, wayland_window, self.size);
                match state.windows.insert(identity, entry) {
                    Err(error) => Err(error),
                    Ok(()) => Ok(WindowHandle::bound_to(identity)),
                }
            },
        }
    }
}

} // verus!
