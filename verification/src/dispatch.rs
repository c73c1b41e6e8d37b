//! The dispatch state and the entry points for protocol events.

use std::collections::VecDeque;
use vstd::prelude::*;
use crate::effect::{Diagnostic, Effect, HandlerCall, LoopSignal, Request};
use crate::geometry::{Rect, Region, Size};
use crate::registry::{Registry, WindowId};
use crate::scale::Scale;
use crate::window::{ActiveAction, IdleAction, WindowAction, WindowPhase, WindowState};

verus! {

/// Everything that the dispatch thread owns: the registry of live windows and
/// the two queues that feed the thread.  `H` is the type of the windows'
/// handlers, `W` that of their protocol resources and `C` that of the
/// callbacks that idle work carries.
pub struct WaylandState<H, W, C> {
    /// The live windows.
    pub windows: Registry<WindowState<H, W>>,
    /// The deferred window actions, oldest first.
    pub actions: VecDeque<ActiveAction>,
    /// The idle work, oldest first.
    pub idle: VecDeque<IdleAction<C>>,
}

/// The dispatch state as a value: what is registered and what is queued.
#[verifier::ext_equal]
pub struct Model<H, W, C> {
    pub windows: Map<WindowId, WindowState<H, W>>,
    pub actions: Seq<ActiveAction>,
    pub idle: Seq<IdleAction<C>>,
}

impl<H, W, C> View for WaylandState<H, W, C> {
    type V = Model<H, W, C>;

    open spec fn view(&self) -> Model<H, W, C> {
        Model { windows: self.windows@, actions: self.actions@, idle: self.idle@ }
    }
}

impl<H, W, C> Model<H, W, C> {
    /// True where a window of this identity is registered.
    pub open spec fn live(self, id: WindowId) -> bool {
        self.windows.contains_key(id)
    }

    /// The state after the deferred action `action` on window `id` was
    /// carried out.
    pub open spec fn after_action(self, id: WindowId, action: WindowAction) -> Self {
        match action {
            WindowAction::ResizeRequested => {
                if self.live(id) && self.windows[id].properties.requested_size.is_some() {
                    Model {
                        windows: self.windows.insert(
                            id,
                            self.windows[id].resized(
                                self.windows[id].properties.requested_size.unwrap(),
                            ),
                        ),
                        ..self
                    }
                } else {
                    self
                }
            },
            WindowAction::Close => {
                if self.live(id) {
                    Model { windows: self.windows.remove(id), ..self }
                } else {
                    self
                }
            },
        }
    }

    /// What carrying out the deferred action `action` on window `id` asks of
    /// the caller, in order.
    pub open spec fn effects_of_action(self, id: WindowId, action: WindowAction) -> Seq<Effect<C>> {
        match action {
            WindowAction::ResizeRequested => {
                if !self.live(id) {
                    Seq::empty()
                } else if self.windows[id].properties.requested_size.is_none() {
                    seq![Effect::Diagnostic(Diagnostic::ResizeWithoutRequest(id))]
                } else if self.windows[id].frame_pending {
                    seq![
                        Effect::Handler(
                            id,
                            HandlerCall::Size(self.windows[id].properties.requested_size.unwrap()),
                        ),
                    ]
                } else {
                    seq![
                        Effect::Handler(
                            id,
                            HandlerCall::Size(self.windows[id].properties.requested_size.unwrap()),
                        ),
                        Effect::Request(id, Request::Frame),
                    ]
                }
            },
            WindowAction::Close => {
                if !self.live(id) {
                    seq![Effect::Diagnostic(Diagnostic::ClosedTwice(id))]
                } else if self.windows.remove(id).is_empty() {
                    seq![Effect::Signal(LoopSignal::Stop)]
                } else {
                    Seq::empty()
                }
            },
        }
    }
}

impl<H, W, C> Model<H, W, C> {
    /// The state after the scale of the surface of window `id` changed to
    /// `scale`.
    pub open spec fn after_scale_change(self, id: WindowId, scale: Scale) -> Self {
        if self.live(id) {
            Model { windows: self.windows.insert(id, self.windows[id].rescaled(scale)), ..self }
        } else {
            self
        }
    }

    /// What a change of scale asks of the caller: the handler hears of the
    /// scale first and of the size that follows from it second.
    pub open spec fn effects_of_scale_change(self, id: WindowId, scale: Scale) -> Seq<Effect<C>> {
        if self.live(id) {
            seq![
                Effect::Handler(id, HandlerCall::Scale(scale)),
                Effect::Handler(
                    id,
                    HandlerCall::Size(self.windows[id].rescaled(scale).properties.current_size),
                ),
            ]
        } else {
            Seq::empty()
        }
    }

    /// The state after the frame callback of window `id` fired.
    pub open spec fn after_frame(self, id: WindowId) -> Self {
        if self.live(id) {
            Model { windows: self.windows.insert(id, self.windows[id].frame_done()), ..self }
        } else {
            self
        }
    }

    /// The state after the compositor configured window `id`.
    pub open spec fn after_configure(self, id: WindowId) -> Self {
        if self.live(id) {
            Model { windows: self.windows.insert(id, self.windows[id].configure_done()), ..self }
        } else {
            self
        }
    }

    /// True where a close of window `id` waits in the first `n` entries of
    /// the action queue.
    pub open spec fn close_queued_within(self, id: WindowId, n: int) -> bool {
        exists|i: int|
            0 <= i < n && i < self.actions.len() && #[trigger] self.actions[i]
                == ActiveAction::Window(id, WindowAction::Close)
    }

    /// True where a close of window `id` waits in the action queue.
    pub open spec fn close_queued(self, id: WindowId) -> bool {
        self.close_queued_within(id, self.actions.len() as int)
    }

    /// Where window `id` stands between being built and being gone.
    pub open spec fn phase(self, id: WindowId) -> WindowPhase {
        if !self.live(id) {
            WindowPhase::Removed
        } else if self.close_queued(id) {
            WindowPhase::Closing
        } else if self.windows[id].configured {
            WindowPhase::Configured
        } else {
            WindowPhase::Unconfigured
        }
    }

    /// What delivering the idle work `action` asks of the caller.  The
    /// window that the work names is looked up now: work for a window that
    /// is not registered is dropped, and only a diagnostic is left of it.
    pub open spec fn effects_of_idle(self, action: IdleAction<C>) -> Seq<Effect<C>> {
        match action {
            IdleAction::AppCallback(callback) => seq![Effect::RunAppCallback(callback)],
            IdleAction::Callback(id, callback) => {
                if self.live(id) {
                    seq![Effect::RunCallback(id, callback)]
                } else {
                    seq![Effect::Diagnostic(Diagnostic::IdleCallbackWindowGone(id))]
                }
            },
            IdleAction::Token(id, token) => {
                if self.live(id) {
                    seq![Effect::Handler(id, HandlerCall::Idle(token))]
                } else {
                    seq![Effect::Diagnostic(Diagnostic::IdleTokenWindowGone(id))]
                }
            },
        }
    }
}

impl<H, W, C> WaylandState<H, W, C> {
    /// The state without windows and with empty queues.
    pub fn new() -> (state: Self)
        ensures
            state@.windows == Map::<WindowId, WindowState<H, W>>::empty(),
            state@.actions == Seq::<ActiveAction>::empty(),
            state@.idle == Seq::<IdleAction<C>>::empty(),
    {
        WaylandState { windows: Registry::new(), actions: VecDeque::new(), idle: VecDeque::new() }
    }

    /// True where a window of this identity is registered.
    pub fn has_window(&self, id: WindowId) -> (live: bool)
        ensures
            live == self@.live(id),
    {
        self.windows.contains(id)
    }

    /// The scale of a surface changed.  The window keeps its device pixels:
    /// its size goes from display points at the old scale to device pixels
    /// and from there to display points at the new scale.  The handler is to
    /// hear of the scale and then of the size.  An event for a surface
    /// without a registered window changes nothing.
    pub fn scale_factor_changed(&mut self, surface: WindowId, scale: Scale) -> (effects: Vec<
        Effect<C>,
    >)
        ensures
            final(self)@ == old(self)@.after_scale_change(surface, scale),
            effects@ == old(self)@.effects_of_scale_change(surface, scale),
    {
        let mut effects: Vec<Effect<C>> = Vec::new();
        match self.windows.get_mut(surface) {
            None => {},
            Some(window) => {
                let px = window.properties.current_size.to_px(window.properties.current_scale);
                let new_size = px.to_dp(scale);
                window.properties.current_scale = scale;
                window.properties.current_size = new_size;
                effects.push(Effect::Handler(surface, HandlerCall::Scale(scale)));
                effects.push(Effect::Handler(surface, HandlerCall::Size(new_size)));
            },
        }
        proof {
            assert(self@.windows =~= old(self)@.after_scale_change(surface, scale).windows);
            assert(effects@ =~= old(self)@.effects_of_scale_change(surface, scale));
        }
        effects
    }

    /// The frame callback of a surface fired: it is time to draw.  The
    /// handler is to prepare and then to paint the whole surface, which
    /// counts as damaged.  A callback for a surface without a registered
    /// window is ignored.
    pub fn frame(&mut self, surface: WindowId) -> (effects: Vec<Effect<C>>)
        ensures
            final(self)@ == old(self)@.after_frame(surface),
            !old(self)@.live(surface) ==> effects@.len() == 0,
            old(self)@.live(surface) ==> {
                &&& effects@.len() == 2
                &&& effects@[0] == Effect::<C>::Handler(surface, HandlerCall::PreparePaint)
                &&& effects@[1] matches Effect::Handler(id, HandlerCall::Paint(region))
                &&& id == surface
                &&& region@ == seq![
                    Rect::covering(old(self)@.windows[surface].properties.current_size),
                ]
            },
    {
        let mut effects: Vec<Effect<C>> = Vec::new();
        match self.windows.get_mut(surface) {
            None => {},
            Some(window) => {
                window.frame_pending = false;
                let mut region = Region::empty();
                region.add_rect(Rect::from_size(window.properties.current_size));
                effects.push(Effect::Handler(surface, HandlerCall::PreparePaint));
                effects.push(Effect::Handler(surface, HandlerCall::Paint(region)));
            },
        }
        proof {
            assert(self@.windows =~= old(self)@.after_frame(surface).windows);
        }
        effects
    }

    /// The user asked to close a window: its handler is to hear of it.  A
    /// request for a surface without a registered window is ignored.
    pub fn request_close(&self, window: WindowId) -> (effects: Vec<Effect<C>>)
        ensures
            self@.live(window) ==> effects@ == seq![
                Effect::<C>::Handler(window, HandlerCall::RequestClose),
            ],
            !self@.live(window) ==> effects@ == Seq::<Effect<C>>::empty(),
    {
        let mut effects: Vec<Effect<C>> = Vec::new();
        if self.windows.contains(window) {
            effects.push(Effect::Handler(window, HandlerCall::RequestClose));
        }
        effects
    }

    /// The compositor sent a configuration for a window.  The window counts
    /// as configured from now on; the size that the compositor proposes is
    /// not applied.  The result tells whether the window is registered: a
    /// configuration for a surface without a registered window changes
    /// nothing.
    pub fn configure(&mut self, window: WindowId, suggested: Option<Size>, serial: u32) -> (found:
        bool)
        ensures
            found == old(self)@.live(window),
            final(self)@ == old(self)@.after_configure(window),
    {
        let found = match self.windows.get_mut(window) {
            None => false,
            Some(entry) => {
                entry.configured = true;
                true
            },
        };
        proof {
            assert(self@.windows =~= old(self)@.after_configure(window).windows);
        }
        found
    }

    /// Where a window stands between being built and being gone.
    pub fn phase(&self, id: WindowId) -> (phase: WindowPhase)
        ensures
            phase == self@.phase(id),
    {
        match self.windows.get(id) {
            None => WindowPhase::Removed,
            Some(entry) => {
                let close = ActiveAction::Window(id, WindowAction::Close);
                let mut i: usize = 0;
                while i < self.actions.len()
                    invariant
                        i <= self.actions@.len(),
                        self@.live(id),
                        close == ActiveAction::Window(id, WindowAction::Close),
                        !self@.close_queued_within(id, i as int),
                    decreases self.actions@.len() - i,
                {
                    if self.actions[i] == close {
                        assert(self@.close_queued(id));
                        return WindowPhase::Closing;
                    }
                    i += 1;
                }
                if entry.configured {
                    WindowPhase::Configured
                } else {
                    WindowPhase::Unconfigured
                }
            },
        }
    }

    /// Delivers one entry of idle work and returns what the caller has to do
    /// about it.
    pub fn deliver_idle(&self, action: IdleAction<C>) -> (effects: Vec<Effect<C>>)
        ensures
            effects@ == self@.effects_of_idle(action),
    {
        let mut effects: Vec<Effect<C>> = Vec::new();
        match action {
            IdleAction::AppCallback(callback) => {
                effects.push(Effect::RunAppCallback(callback));
            },
            IdleAction::Callback(id, callback) => {
                if self.windows.contains(id) {
                    effects.push(Effect::RunCallback(id, callback));
                } else {
                    effects.push(Effect::Diagnostic(Diagnostic::IdleCallbackWindowGone(id)));
                }
            },
            IdleAction::Token(id, token) => {
                if self.windows.contains(id) {
                    effects.push(Effect::Handler(id, HandlerCall::Idle(token)));
                } else {
                    effects.push(Effect::Diagnostic(Diagnostic::IdleTokenWindowGone(id)));
                }
            },
        }
        proof {
            assert(effects@ =~= self@.effects_of_idle(action));
        }
        effects
    }

    /// Takes the oldest deferred action off its queue and carries it out.
    /// `None` where the queue is empty.
    pub fn run_next_action(&mut self) -> (effects: Option<Vec<Effect<C>>>)
        ensures
            old(self)@.actions.len() == 0 ==> effects.is_none() && final(self)@ == old(self)@,
            old(self)@.actions.len() > 0 ==> {
                let ActiveAction::Window(id, action) = old(self)@.actions[0];
                let taken = Model { actions: old(self)@.actions.drop_first(), ..old(self)@ };
                &&& effects.is_some()
                &&& effects.unwrap()@ == taken.effects_of_action(id, action)
                &&& final(self)@ == taken.after_action(id, action)
            },
    {
        match self.actions.pop_front() {
            None => None,
            Some(ActiveAction::Window(id, action)) => {
                assert(self@.actions =~= old(self)@.actions.drop_first());
                Some(action.run(self, id))
            },
        }
    }

    /// Takes the oldest entry of idle work off its queue and delivers it.
    /// `None` where the queue is empty.
    pub fn run_next_idle(&mut self) -> (effects: Option<Vec<Effect<C>>>)
        ensures
            old(self)@.idle.len() == 0 ==> effects.is_none() && final(self)@ == old(self)@,
            old(self)@.idle.len() > 0 ==> {
                &&& effects.is_some()
                &&& effects.unwrap()@ == old(self)@.effects_of_idle(old(self)@.idle[0])
                &&& final(self)@ == Model { idle: old(self)@.idle.drop_first(), ..old(self)@ }
            },
    {
        match self.idle.pop_front() {
            None => None,
            Some(action) => {
                assert(self@.idle =~= old(self)@.idle.drop_first());
                Some(self.deliver_idle(action))
            },
        }
    }
}

} // verus!
