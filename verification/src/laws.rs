//! What holds of the dispatch core over several steps.
//!
//! Each statement here is about the values that the contracts of the
//! dispatch functions speak of: the model of the dispatch state and the lists
//! of effects.

use vstd::prelude::*;
use crate::dispatch::Model;
use crate::effect::{Diagnostic, Effect, HandlerCall, LoopSignal, Request};
use crate::geometry::{Size, UNITS_PER_POINT};
use crate::registry::WindowId;
use crate::scale::{lemma_rescale_round_trip, Scale};
use crate::window::{ActiveAction, IdleAction, WindowAction, WindowHandle, WindowPhase};

verus! {

/// How many effects of the list fulfil `wanted`.
pub open spec fn count_effects<C>(effects: Seq<Effect<C>>, wanted: spec_fn(Effect<C>) -> bool) -> nat
    decreases effects.len(),
{
    if effects.len() == 0 {
        0
    } else {
        count_effects(effects.drop_last(), wanted) + if wanted(effects.last()) {
            1nat
        } else {
            0nat
        }
    }
}

/// True of the effect that tells the handler of window `id` a size.
pub open spec fn is_size_call<C>(id: WindowId) -> spec_fn(Effect<C>) -> bool {
    |effect: Effect<C>| effect matches Effect::Handler(window, HandlerCall::Size(_)) && window == id
}

/// True of the effect that asks for a frame callback on window `id`.
pub open spec fn is_frame_request<C>(id: WindowId) -> spec_fn(Effect<C>) -> bool {
    |effect: Effect<C>| effect == Effect::<C>::Request(id, Request::Frame)
}

/// True of the effect that signals the run loop to stop.
pub open spec fn is_stop<C>() -> spec_fn(Effect<C>) -> bool {
    |effect: Effect<C>| effect == Effect::<C>::Signal(LoopSignal::Stop)
}

/// True of the effect that runs a callback on the handler of window `id`.
pub open spec fn is_callback_run<C>(id: WindowId) -> spec_fn(Effect<C>) -> bool {
    |effect: Effect<C>| effect matches Effect::RunCallback(window, _) && window == id
}

/// The count over two lists in a row is the sum of the two counts.
pub proof fn lemma_count_concat<C>(
    first: Seq<Effect<C>>,
    second: Seq<Effect<C>>,
    wanted: spec_fn(Effect<C>) -> bool,
)
    ensures
        count_effects(first + second, wanted) == count_effects(first, wanted) + count_effects(
            second,
            wanted,
        ),
    decreases second.len(),
{
    if second.len() == 0 {
        assert(first + second =~= first);
    } else {
        assert((first + second).drop_last() =~= first + second.drop_last());
        assert((first + second).last() == second.last());
        lemma_count_concat(first, second.drop_last(), wanted);
    }
}

impl<H, W, C> Model<H, W, C> {
    /// The state after `set_size` was called through the handle once for
    /// each of `sizes`, in their order.
    pub open spec fn after_set_sizes(self, handle: WindowHandle, sizes: Seq<Size>) -> Self
        decreases sizes.len(),
    {
        if sizes.len() == 0 {
            self
        } else {
            self.after_set_sizes(handle, sizes.drop_last()).after_set_size(handle, sizes.last())
        }
    }

    /// The state after `n` pieces of queued work were taken and carried out.
    pub open spec fn after_pumps(self, n: nat) -> Self
        decreases n,
    {
        if n == 0 {
            self
        } else {
            self.after_pump().after_pumps((n - 1) as nat)
        }
    }

    /// What `n` pieces of queued work ask of the caller, in order.
    pub open spec fn effects_of_pumps(self, n: nat) -> Seq<Effect<C>>
        decreases n,
    {
        if n == 0 {
            Seq::empty()
        } else {
            self.effects_of_pump() + self.after_pump().effects_of_pumps((n - 1) as nat)
        }
    }

    /// How many frame callbacks may still be asked for on the surface of
    /// window `id`: one where the window is registered and none is
    /// outstanding, else none.
    pub open spec fn frame_budget(self, id: WindowId) -> nat {
        if self.live(id) && !self.windows[id].frame_pending {
            1
        } else {
            0
        }
    }
}

/// Deferred apply.  However often `set_size` is called through a handle, the
/// size that the handle reports stays what it was until the dispatch thread
/// runs; where the handle resolves, the last size given is the one recorded
/// as requested, and one resize is queued for each call.
pub proof fn lemma_set_size_is_deferred<H, W, C>(
    model: Model<H, W, C>,
    handle: WindowHandle,
    sizes: Seq<Size>,
)
    ensures
        model.after_set_sizes(handle, sizes).size_seen(handle) == model.size_seen(handle),
        model.after_set_sizes(handle, sizes).resolves(handle) == model.resolves(handle),
        model.after_set_sizes(handle, sizes).idle == model.idle,
        model.resolves(handle) ==> model.after_set_sizes(handle, sizes).actions.len()
            == model.actions.len() + sizes.len(),
        model.resolves(handle) && sizes.len() > 0 ==> model.after_set_sizes(
            handle,
            sizes,
        ).windows[handle.target().unwrap()].properties.requested_size == Some(sizes.last()),
    decreases sizes.len(),
{
    if sizes.len() > 0 {
        lemma_set_size_is_deferred(model, handle, sizes.drop_last());
    }
}

/// Applying a resize.  Where a window is registered and a size was requested
/// for it, applying the resize makes that size the current one and has the
/// handler told of it exactly once; nothing but a request for a frame
/// callback follows.
pub proof fn lemma_resize_applies_requested_size<H, W, C>(
    model: Model<H, W, C>,
    id: WindowId,
    size: Size,
)
    requires
        model.live(id),
        model.windows[id].properties.requested_size == Some(size),
    ensures
        ({
            let after = model.after_action(id, WindowAction::ResizeRequested);
            let effects = model.effects_of_action(id, WindowAction::ResizeRequested);
            &&& after.live(id)
            &&& after.windows[id].properties.current_size == size
            &&& effects.len() >= 1
            &&& effects[0] == Effect::<C>::Handler(id, HandlerCall::Size(size))
            &&& count_effects(effects, is_size_call(id)) == 1
        }),
{
    let effects = model.effects_of_action(id, WindowAction::ResizeRequested);
    let wanted = is_size_call::<C>(id);
    assert(wanted(effects[0]));
    if effects.len() == 1 {
        assert(effects.drop_last() =~= Seq::<Effect<C>>::empty());
        assert(count_effects(effects.drop_last(), wanted) == 0);
    } else {
        assert(effects.len() == 2);
        assert(!wanted(effects[1]));
        assert(effects.drop_last().drop_last() =~= Seq::<Effect<C>>::empty());
        assert(count_effects(effects.drop_last().drop_last(), wanted) == 0);
        assert(effects.drop_last().last() == effects[0]);
        assert(count_effects(effects.drop_last(), wanted) == 1);
    }
}

/// A resize that `set_size` queued.  After `set_size(size)` through a handle
/// that resolves, the resize is the newest entry of the action queue; once it
/// is carried out, the handle reports `size`, and the handler was told of
/// `size` exactly once.
pub proof fn lemma_set_size_then_apply<H, W, C>(
    model: Model<H, W, C>,
    handle: WindowHandle,
    size: Size,
)
    requires
        model.resolves(handle),
    ensures
        ({
            let id = handle.target().unwrap();
            let queued = model.after_set_size(handle, size);
            let after = queued.after_action(id, WindowAction::ResizeRequested);
            let effects = queued.effects_of_action(id, WindowAction::ResizeRequested);
            &&& queued.actions.last() == ActiveAction::Window(id, WindowAction::ResizeRequested)
            &&& queued.size_seen(handle) == model.size_seen(handle)
            &&& after.size_seen(handle) == size
            &&& effects[0] == Effect::<C>::Handler(id, HandlerCall::Size(size))
            &&& count_effects(effects, is_size_call(id)) == 1
        }),
{
    lemma_resize_applies_requested_size(
        model.after_set_size(handle, size),
        handle.target().unwrap(),
        size,
    );
}

/// Where the newest entry of the action queue is a resize of a registered
/// window for which `size` is requested, and no close of that window waits
/// before it, the pump that reaches the entry finds the window registered
/// and applies `size`.
proof fn lemma_last_resize_is_applied<H, W, C>(model: Model<H, W, C>, id: WindowId, size: Size)
    requires
        model.live(id),
        model.windows[id].properties.requested_size == Some(size),
        model.actions.len() >= 1,
        model.actions.last() == ActiveAction::Window(id, WindowAction::ResizeRequested),
        !model.close_queued(id),
    ensures
        ({
            let n = model.actions.len();
            let before = model.after_pumps((n - 1) as nat);
            let effects = before.effects_of_pump();
            &&& effects.len() >= 1
            &&& effects[0] == Effect::<C>::Handler(id, HandlerCall::Size(size))
            &&& count_effects(effects, is_size_call(id)) == 1
            &&& model.after_pumps(n).live(id)
            &&& model.after_pumps(n).windows[id].properties.current_size == size
        }),
    decreases model.actions.len(),
{
    let n = model.actions.len();
    let ActiveAction::Window(first_id, first_action) = model.actions[0];
    let taken = Model { actions: model.actions.drop_first(), ..model };
    reveal_with_fuel(Model::after_pumps, 2);
    if n == 1 {
        assert(model.after_pumps(0) == model);
        lemma_resize_applies_requested_size(taken, id, size);
        assert(model.after_pumps(1) == model.after_pump());
    } else {
        let next = model.after_pump();
        assert(model.actions[0] != ActiveAction::Window(id, WindowAction::Close));
        assert(next.actions =~= model.actions.drop_first());
        assert(next.live(id));
        assert(next.windows[id].properties.requested_size == Some(size));
        assert(!next.close_queued(id)) by {
            if next.close_queued(id) {
                let i = choose|i: int|
                    0 <= i < next.actions.len() && #[trigger] next.actions[i]
                        == ActiveAction::Window(id, WindowAction::Close);
                assert(model.actions[i + 1] == ActiveAction::Window(id, WindowAction::Close));
            }
        }
        lemma_last_resize_is_applied(next, id, size);
        assert(model.after_pumps((n - 1) as nat) == next.after_pumps((n - 2) as nat));
        assert(model.after_pumps(n) == next.after_pumps((n - 1) as nat));
    }
}

/// A pump that processes a resize which `set_size` queued.  `set_size(size)`
/// through a handle that resolves puts a resize behind whatever the action
/// queue holds.  Where no close of the window waits in the queue, the pump
/// that reaches the resize has the handler told of `size` exactly once, and
/// after it the handle reports `size`.
pub proof fn lemma_pumps_apply_set_size<H, W, C>(
    model: Model<H, W, C>,
    handle: WindowHandle,
    size: Size,
)
    requires
        model.resolves(handle),
        !model.close_queued(handle.target().unwrap()),
    ensures
        ({
            let id = handle.target().unwrap();
            let queued = model.after_set_size(handle, size);
            let n = queued.actions.len();
            let effects = queued.after_pumps((n - 1) as nat).effects_of_pump();
            &&& n == model.actions.len() + 1
            &&& effects[0] == Effect::<C>::Handler(id, HandlerCall::Size(size))
            &&& count_effects(effects, is_size_call(id)) == 1
            &&& queued.after_pumps(n).size_seen(handle) == size
        }),
{
    let id = handle.target().unwrap();
    let queued = model.after_set_size(handle, size);
    assert(!queued.close_queued(id)) by {
        if queued.close_queued(id) {
            let i = choose|i: int|
                0 <= i < queued.actions.len() && #[trigger] queued.actions[i]
                    == ActiveAction::Window(id, WindowAction::Close);
            assert(model.actions[i] == ActiveAction::Window(id, WindowAction::Close));
        }
    }
    lemma_last_resize_is_applied(queued, id, size);
}

/// The phases of a window.  A registered window for which `close` is called
/// is closing; once the close is delivered it is removed.  A registered
/// window that the compositor configures is configured, unless it is closing.
pub proof fn lemma_window_phases<H, W, C>(model: Model<H, W, C>, handle: WindowHandle)
    requires
        model.resolves(handle),
    ensures
        ({
            let id = handle.target().unwrap();
            &&& model.phase(id) != WindowPhase::Removed
            &&& model.after_close(handle).phase(id) == WindowPhase::Closing
            &&& model.after_action(id, WindowAction::Close).phase(id) == WindowPhase::Removed
            &&& model.after_configure(id).phase(id) == if model.close_queued(id) {
                WindowPhase::Closing
            } else {
                WindowPhase::Configured
            }
        }),
{
    let id = handle.target().unwrap();
    let closing = model.after_close(handle);
    assert(closing.actions[closing.actions.len() - 1] == ActiveAction::Window(
        id,
        WindowAction::Close,
    ));
    assert(model.after_configure(id).close_queued(id) == model.close_queued(id));
}

/// Closing twice.  Two calls of `close` through a handle queue two closes.
/// The first one delivered to a registered window takes it out of the
/// registry and looks once whether the registry is empty now; the second
/// changes nothing and leaves a diagnostic, and nothing else.  Over both
/// there is at most one signal to stop.
pub proof fn lemma_close_twice<H, W, C>(model: Model<H, W, C>, handle: WindowHandle)
    requires
        model.resolves(handle),
    ensures
        ({
            let id = handle.target().unwrap();
            let close = ActiveAction::Window(id, WindowAction::Close);
            let first = model.after_action(id, WindowAction::Close);
            let first_effects = model.effects_of_action(id, WindowAction::Close);
            let second = first.after_action(id, WindowAction::Close);
            let second_effects = first.effects_of_action(id, WindowAction::Close);
            &&& model.after_close(handle).after_close(handle).actions == model.actions.push(
                close,
            ).push(close)
            &&& model.after_close(handle).after_close(handle).windows == model.windows
            &&& first.windows == model.windows.remove(id)
            &&& !first.live(id)
            &&& first_effects == if first.windows.is_empty() {
                seq![Effect::<C>::Signal(LoopSignal::Stop)]
            } else {
                Seq::<Effect<C>>::empty()
            }
            &&& second == first
            &&& second_effects == seq![Effect::<C>::Diagnostic(Diagnostic::ClosedTwice(id))]
            &&& count_effects(first_effects + second_effects, is_stop()) <= 1
        }),
{
    let id = handle.target().unwrap();
    let first = model.after_action(id, WindowAction::Close);
    let first_effects = model.effects_of_action::<>(id, WindowAction::Close);
    let second_effects = first.effects_of_action(id, WindowAction::Close);
    let wanted = is_stop::<C>();
    lemma_count_concat(first_effects, second_effects, wanted);
    assert(second_effects.drop_last() =~= Seq::<Effect<C>>::empty());
    assert(count_effects(second_effects.drop_last(), wanted) == 0);
    assert(!wanted(second_effects.last()));
    if first_effects.len() > 0 {
        assert(first_effects.drop_last() =~= Seq::<Effect<C>>::empty());
        assert(count_effects(first_effects.drop_last(), wanted) == 0);
    }
}

/// Idle work for a closed window.  Idle work that was queued for a window
/// stays queued when the window is closed.  When it is delivered after that,
/// a callback is not run and a token is not handed over: a diagnostic is all
/// that is left of either.
pub proof fn lemma_idle_after_close<H, W, C>(
    model: Model<H, W, C>,
    id: WindowId,
    work: IdleAction<C>,
)
    requires
        work matches IdleAction::Callback(window, _) ==> window == id,
        work matches IdleAction::Token(window, _) ==> window == id,
        !(work is AppCallback),
    ensures
        ({
            let closed = model.with_idle(work).after_action(id, WindowAction::Close);
            let effects = closed.effects_of_idle(work);
            &&& closed.idle == model.idle.push(work)
            &&& !closed.live(id)
            &&& effects.len() == 1
            &&& effects[0] == Effect::<C>::Diagnostic(
                if work is Callback {
                    Diagnostic::IdleCallbackWindowGone(id)
                } else {
                    Diagnostic::IdleTokenWindowGone(id)
                },
            )
            &&& count_effects(effects, is_callback_run(id)) == 0
        }),
{
    let closed = model.with_idle(work).after_action(id, WindowAction::Close);
    let effects = closed.effects_of_idle(work);
    let wanted = is_callback_run::<C>(id);
    assert(effects.drop_last() =~= Seq::<Effect<C>>::empty());
    assert(count_effects(effects.drop_last(), wanted) == 0);
    assert(!wanted(effects.last()));
}

/// One piece of queued work asks for no more frame callbacks on a surface
/// than the budget allows, and what it asks for is gone from the budget
/// afterwards.
proof fn lemma_pump_spends_frame_budget<H, W, C>(model: Model<H, W, C>, id: WindowId)
    ensures
        count_effects(model.effects_of_pump(), is_frame_request(id)) + model.after_pump().frame_budget(
            id,
        ) <= model.frame_budget(id),
{
    let effects = model.effects_of_pump();
    let wanted = is_frame_request::<C>(id);
    if effects.len() == 0 {
    } else if effects.len() == 1 {
        assert(effects.drop_last() =~= Seq::<Effect<C>>::empty());
        assert(count_effects(effects.drop_last(), wanted) == 0);
        assert(!wanted(effects.last()));
    } else {
        assert(effects.len() == 2);
        assert(effects.drop_last().drop_last() =~= Seq::<Effect<C>>::empty());
        assert(count_effects(effects.drop_last().drop_last(), wanted) == 0);
        assert(effects.drop_last().last() == effects[0]);
        assert(!wanted(effects[0]));
        assert(count_effects(effects.drop_last(), wanted) == 0);
    }
}

/// Frame callbacks are coalesced.  However many pieces of queued work are
/// carried out in a row, among them any number of resizes of one window, they
/// ask for at most one frame callback on a surface, and for none where the
/// surface has one outstanding already.
pub proof fn lemma_frame_requests_coalesce<H, W, C>(model: Model<H, W, C>, n: nat, id: WindowId)
    ensures
        count_effects(model.effects_of_pumps(n), is_frame_request(id)) + model.after_pumps(
            n,
        ).frame_budget(id) <= model.frame_budget(id),
        count_effects(model.effects_of_pumps(n), is_frame_request(id)) <= 1,
        model.live(id) && model.windows[id].frame_pending ==> count_effects(
            model.effects_of_pumps(n),
            is_frame_request(id),
        ) == 0,
    decreases n,
{
    if n > 0 {
        lemma_pump_spends_frame_budget(model, id);
        lemma_frame_requests_coalesce(model.after_pump(), (n - 1) as nat, id);
        lemma_count_concat(
            model.effects_of_pump(),
            model.after_pump().effects_of_pumps((n - 1) as nat),
            is_frame_request(id),
        );
    }
}

/// Scale-change round trip at a window.  A registered window whose scale
/// goes from its current one to `other` and back has a current size that is
/// no larger than before and, in device pixels, less than one device pixel
/// smaller in either direction.  The size before has to have both lengths
/// within the largest length when converted to device pixels.
pub proof fn lemma_scale_change_round_trip<H, W, C>(
    model: Model<H, W, C>,
    id: WindowId,
    other: Scale,
)
    requires
        model.live(id),
        model.windows[id].properties.current_scale.wf(),
        other.wf(),
        model.windows[id].properties.current_size.fits_px(
            model.windows[id].properties.current_scale,
        ),
    ensures
        ({
            let before = model.windows[id].properties;
            let after = model.after_scale_change(id, other).after_scale_change(
                id,
                before.current_scale,
            ).windows[id].properties;
            &&& after.current_scale == before.current_scale
            &&& after.current_size.width <= before.current_size.width
            &&& after.current_size.height <= before.current_size.height
            &&& before.current_size.in_px(before.current_scale).width - after.current_size.in_px(
                before.current_scale,
            ).width < UNITS_PER_POINT
            &&& before.current_size.in_px(before.current_scale).height - after.current_size.in_px(
                before.current_scale,
            ).height < UNITS_PER_POINT
        }),
{
    let before = model.windows[id].properties;
    lemma_rescale_round_trip(before.current_size, before.current_scale, other);
}

} // verus!
