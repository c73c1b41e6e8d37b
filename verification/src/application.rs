//! The application: the owner of the dispatch state and of the run loop's
//! decisions.

use vstd::prelude::*;
use crate::dispatch::{Model, WaylandState};
use crate::effect::{Effect, LoopSignal};
use crate::window::{ActiveAction, IdleAction};

verus! {

impl<H, W, C> Model<H, W, C> {
    /// True where neither queue holds anything.
    pub open spec fn drained(self) -> bool {
        self.actions.len() == 0 && self.idle.len() == 0
    }

    /// The state after one piece of queued work was taken and carried out:
    /// the oldest deferred action where there is one, else the oldest idle
    /// work.
    pub open spec fn after_pump(self) -> Self {
        if self.actions.len() > 0 {
            let ActiveAction::Window(id, action) = self.actions[0];
            Model { actions: self.actions.drop_first(), ..self }.after_action(id, action)
        } else if self.idle.len() > 0 {
            Model { idle: self.idle.drop_first(), ..self }
        } else {
            self
        }
    }

    /// What one piece of queued work asks of the caller.
    pub open spec fn effects_of_pump(self) -> Seq<Effect<C>> {
        if self.actions.len() > 0 {
            let ActiveAction::Window(id, action) = self.actions[0];
            Model { actions: self.actions.drop_first(), ..self }.effects_of_action(id, action)
        } else if self.idle.len() > 0 {
            self.effects_of_idle(self.idle[0])
        } else {
            Seq::empty()
        }
    }
}

/// The application: it owns the dispatch state.  `H` is the type of the
/// windows' handlers, `W` that of their protocol resources and `C` that of
/// the callbacks that idle work carries.
pub struct Application<H, W, C> {
    pub state: WaylandState<H, W, C>,
}

impl<H, W, C> Application<H, W, C> {
    /// An application without windows and without queued work.
    pub fn new() -> (app: Self)
        ensures
            app.state@.windows.is_empty(),
            app.state@.drained(),
    {
        let app = Application { state: WaylandState::new() };
        assert(app.state@.windows.dom() =~= Set::empty());
        app
    }

    /// Takes one piece of queued work and carries it out: the oldest
    /// deferred action where there is one, else the oldest idle work.
    /// `None` where both queues are empty.  The run loop calls this, after
    /// it has dispatched the protocol events that were waiting, until
    /// nothing is left.
    pub fn pump(&mut self) -> (effects: Option<Vec<Effect<C>>>)
        ensures
            effects.is_some() == !old(self).state@.drained(),
            effects matches Some(list) ==> list@ == old(self).state@.effects_of_pump(),
            final(self).state@ == old(self).state@.after_pump(),
    {
        if self.state.actions.len() > 0 {
            self.state.run_next_action()
        } else {
            self.state.run_next_idle()
        }
    }

    /// The signal that ends the run loop.
    pub fn quit(&self) -> (signal: LoopSignal)
        ensures
            signal == LoopSignal::Stop,
    {
        LoopSignal::Stop
    }

    /// A handle for scheduling work on the dispatch thread.
    pub fn get_handle(&self) -> (handle: Option<AppHandle>)
        ensures
            handle.is_some(),
    {
        Some(AppHandle {  })
    }
}

/// The capability to schedule work on the dispatch thread from anywhere.
#[derive(Clone, Copy, PartialEq, Eq, Structural, Debug)]
pub struct AppHandle {}

impl AppHandle {
    /// Queues a callback to run on the application's own handler and returns
    /// the signal that wakes the dispatch thread.  Queuing alone does not
    /// wake it.
    pub fn run_on_main<H, W, C>(&self, state: &mut WaylandState<H, W, C>, callback: C) -> (signal:
        LoopSignal)
        ensures
            final(state)@ == old(state)@.with_idle(IdleAction::AppCallback(callback)),
            signal == LoopSignal::Wakeup,
    {
        self.run_on_main_inner(state, callback)
    }

    /// Queues a callback to run on the application's own handler and returns
    /// the signal that wakes the dispatch thread.
    pub fn run_on_main_inner<H, W, C>(&self, state: &mut WaylandState<H, W, C>, callback: C) -> (signal:
        LoopSignal)
        ensures
            final(state)@ == old(state)@.with_idle(IdleAction::AppCallback(callback)),
            signal == LoopSignal::Wakeup,
    {
        state.idle.push_back(IdleAction::AppCallback(callback));
        LoopSignal::Wakeup
    }
}

} // verus!
