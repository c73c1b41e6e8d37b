use wayland_dispatch::application::{AppHandle, Application};
use wayland_dispatch::dispatch::WaylandState;
use wayland_dispatch::effect::{
    DecorationMode, Diagnostic, Effect, HandlerCall, IdleToken, LoopSignal, Request,
};
use wayland_dispatch::error::Error;
use wayland_dispatch::geometry::{Insets, Point, Rect, Region, Size, UNITS_PER_POINT};
use wayland_dispatch::registry::WindowId;
use wayland_dispatch::scale::Scale;
use wayland_dispatch::window::{
    ActiveAction, CustomCursor, IdleAction, Menu, WindowAction, WindowBuilder, WindowHandle,
    WindowLevel, WindowPhase, WindowSizeState, WindowState,
};

type App = Application<u32, u32, u32>;
type State = WaylandState<u32, u32, u32>;

fn open_window(app: &mut App, surface: u32, size: Size) -> WindowHandle {
    let builder = WindowBuilder::new(&*app).handler(surface + 100).size(size);
    match builder.build(&mut app.state, surface + 200, WindowId::of_surface(surface)) {
        Ok(handle) => handle,
        Err(_) => panic!("the window can be built"),
    }
}

fn no_effects() -> Vec<Effect<u32>> {
    Vec::new()
}

#[test]
fn new_application_has_no_windows_and_no_work() {
    let mut app = App::new();
    assert!(app.state.windows.is_empty());
    assert_eq!(app.state.actions.len(), 0);
    assert_eq!(app.state.idle.len(), 0);
    assert!(app.pump().is_none());
}

#[test]
fn builder_starts_with_its_defaults() {
    let app = App::new();
    let builder: WindowBuilder<u32> = WindowBuilder::new(&app);
    assert!(builder.handler.is_none());
    assert_eq!(builder.title, "");
    assert!(builder.menu.is_none());
    assert!(builder.position.is_none());
    assert_eq!(builder.level, WindowLevel::AppWindow);
    assert!(builder.state.is_none());
    assert_eq!(builder.size, Size::zero());
    assert!(builder.min_size.is_none());
    assert!(builder.resizable);
    assert!(builder.show_titlebar);
}

#[test]
fn builder_setters_set_their_field() {
    let app = App::new();
    let parent = WindowHandle::bound_to(WindowId::of_surface(9));
    let builder: WindowBuilder<u32> = WindowBuilder::new(&app)
        .handler(5)
        .size(Size::from_points(800, 600))
        .min_size(Size::from_points(80, 60))
        .resizable(false)
        .show_titlebar(false)
        .transparent(true)
        .position(Point::new(3, -4))
        .level(WindowLevel::Modal(parent))
        .window_state(WindowSizeState::Minimized)
        .title(String::from("first"))
        .menu(Menu);
    assert_eq!(builder.handler, Some(5));
    assert_eq!(builder.size, Size::new(204_800, 153_600));
    assert_eq!(builder.min_size, Some(Size::new(20_480, 15_360)));
    assert!(!builder.resizable);
    assert!(!builder.show_titlebar);
    assert_eq!(builder.position, Some(Point { x: 3, y: -4 }));
    assert_eq!(builder.level, WindowLevel::Modal(parent));
    assert_eq!(builder.state, Some(WindowSizeState::Minimized));
    assert_eq!(builder.title, "first");
    assert_eq!(builder.menu, Some(Menu));
}

#[test]
fn builder_transparent_changes_nothing() {
    let app = App::new();
    let builder: WindowBuilder<u32> = WindowBuilder::new(&app).transparent(true);
    assert!(builder.handler.is_none());
    assert_eq!(builder.size, Size::zero());
    assert!(builder.resizable);
    assert!(builder.show_titlebar);
}

#[test]
fn build_registers_the_window() {
    let mut app = App::new();
    let id = WindowId::of_surface(1);
    let handle = open_window(&mut app, 1, Size::from_points(800, 600));
    assert_eq!(handle.id(), Some(id));
    assert!(app.state.has_window(id));
    let entry = app.state.windows.get(id).unwrap();
    assert_eq!(entry.handler, 101);
    assert_eq!(entry.wayland_window, 201);
    assert_eq!(entry.properties.requested_size, None);
    assert_eq!(entry.properties.current_size, Size::new(204_800, 153_600));
    assert_eq!(entry.properties.current_scale, Scale::identity());
    assert!(!entry.frame_pending);
    assert_eq!(app.state.actions.len(), 0);
    assert_eq!(app.state.idle.len(), 0);
}

#[test]
fn build_fails_without_a_handler() {
    let mut app = App::new();
    let builder: WindowBuilder<u32> = WindowBuilder::new(&app).size(Size::from_points(1, 1));
    let result = builder.build(&mut app.state, 7, WindowId::of_surface(1));
    assert_eq!(result, Err(Error::MissingHandler));
    assert!(app.state.windows.is_empty());
}

#[test]
fn build_fails_for_a_registered_identity() {
    let mut app = App::new();
    let id = WindowId::of_surface(1);
    let first = open_window(&mut app, 1, Size::from_points(800, 600));
    let builder = WindowBuilder::new(&app).handler(55).size(Size::from_points(1, 1));
    let result = builder.build(&mut app.state, 7, id);
    assert_eq!(result, Err(Error::DuplicateWindow));
    assert_eq!(app.state.windows.get(id).unwrap().handler, 101);
    assert_eq!(first.get_size(&app.state), Size::new(204_800, 153_600));
}

#[test]
fn default_handle_is_inert() {
    let mut app = App::new();
    let live = open_window(&mut app, 1, Size::from_points(800, 600));
    let handle = WindowHandle::default();
    assert_eq!(handle.id(), None);
    assert_eq!(handle.show(&app.state), no_effects());
    assert_eq!(handle.show_titlebar(&app.state, true), no_effects());
    assert_eq!(handle.set_window_state(&app.state, WindowSizeState::Maximized), no_effects());
    assert_eq!(handle.get_size(&app.state), Size::zero());
    assert_eq!(handle.get_scale(&app.state), Err(Error::UnboundHandle));
    assert!(handle.get_idle_handle(&app.state).is_none());
    handle.set_size(&mut app.state, Size::from_points(10, 10));
    handle.close(&mut app.state);
    assert_eq!(app.state.actions.len(), 0);
    assert_eq!(live.get_size(&app.state), Size::new(204_800, 153_600));
    assert_eq!(app.state.windows.get(WindowId::of_surface(1)).unwrap().properties.requested_size, None);
}

#[test]
fn show_commits_the_surface_and_is_idempotent() {
    let mut app = App::new();
    let id = WindowId::of_surface(1);
    let handle = open_window(&mut app, 1, Size::from_points(800, 600));
    let expected = vec![Effect::Request(id, Request::Commit)];
    assert_eq!(handle.show(&app.state), expected);
    assert_eq!(handle.show(&app.state), expected);
    assert_eq!(app.state.actions.len(), 0);
    assert_eq!(handle.get_size(&app.state), Size::new(204_800, 153_600));
}

#[test]
fn show_titlebar_asks_for_the_decoration_mode() {
    let mut app = App::new();
    let id = WindowId::of_surface(1);
    let handle = open_window(&mut app, 1, Size::from_points(800, 600));
    assert_eq!(
        handle.show_titlebar(&app.state, true),
        vec![Effect::Request(id, Request::DecorationMode(DecorationMode::Server))]
    );
    assert_eq!(
        handle.show_titlebar(&app.state, false),
        vec![Effect::Request(id, Request::DecorationMode(DecorationMode::Client))]
    );
}

#[test]
fn set_window_state_maps_to_protocol_requests() {
    let mut app = App::new();
    let id = WindowId::of_surface(1);
    let handle = open_window(&mut app, 1, Size::from_points(800, 600));
    assert_eq!(
        handle.set_window_state(&app.state, WindowSizeState::Maximized),
        vec![Effect::Request(id, Request::SetMaximized)]
    );
    assert_eq!(
        handle.set_window_state(&app.state, WindowSizeState::Minimized),
        vec![Effect::Request(id, Request::SetMinimized)]
    );
    assert_eq!(
        handle.set_window_state(&app.state, WindowSizeState::Restored),
        vec![Effect::Request(id, Request::UnsetMaximized)]
    );
}

#[test]
fn fixed_answers_of_the_handle() {
    let handle = WindowHandle::bound_to(WindowId::of_surface(1));
    assert_eq!(handle.get_window_state(), WindowSizeState::Maximized);
    assert_eq!(handle.get_position(), Point { x: 0, y: 0 });
    assert_eq!(handle.content_insets(), Insets { x0: 0, y0: 0, x1: 0, y1: 0 });
}

#[test]
fn handles_are_equal_where_their_windows_are() {
    let first = WindowHandle::bound_to(WindowId::of_surface(1));
    let copy = first;
    assert_eq!(first, copy);
    assert_ne!(first, WindowHandle::bound_to(WindowId::of_surface(2)));
    assert_ne!(first, WindowHandle::default());
    assert_eq!(WindowHandle::default(), WindowHandle::default());
}

#[test]
fn set_size_is_deferred() {
    let mut app = App::new();
    let id = WindowId::of_surface(1);
    let handle = open_window(&mut app, 1, Size::from_points(800, 600));
    handle.set_size(&mut app.state, Size::from_points(1024, 768));
    assert_eq!(handle.get_size(&app.state), Size::new(204_800, 153_600));
    assert_eq!(
        app.state.windows.get(id).unwrap().properties.requested_size,
        Some(Size::new(262_144, 196_608))
    );
    assert_eq!(app.state.actions.len(), 1);
    assert_eq!(app.state.actions[0], ActiveAction::Window(id, WindowAction::ResizeRequested));
    handle.set_size(&mut app.state, Size::from_points(640, 480));
    assert_eq!(handle.get_size(&app.state), Size::new(204_800, 153_600));
    assert_eq!(app.state.actions.len(), 2);
}

#[test]
fn pump_applies_a_queued_resize() {
    let mut app = App::new();
    let id = WindowId::of_surface(1);
    let handle = open_window(&mut app, 1, Size::from_points(800, 600));
    let size = Size::from_points(1024, 768);
    handle.set_size(&mut app.state, size);
    let effects = app.pump().unwrap();
    assert_eq!(
        effects,
        vec![Effect::Handler(id, HandlerCall::Size(size)), Effect::Request(id, Request::Frame)]
    );
    assert_eq!(handle.get_size(&app.state), size);
    assert!(app.state.windows.get(id).unwrap().frame_pending);
    assert!(app.pump().is_none());
}

#[test]
fn pump_applies_the_most_recently_requested_size() {
    let mut app = App::new();
    let id = WindowId::of_surface(1);
    let handle = open_window(&mut app, 1, Size::from_points(800, 600));
    let last = Size::from_points(640, 480);
    handle.set_size(&mut app.state, Size::from_points(1024, 768));
    handle.set_size(&mut app.state, last);
    let first = app.pump().unwrap();
    assert_eq!(
        first,
        vec![Effect::Handler(id, HandlerCall::Size(last)), Effect::Request(id, Request::Frame)]
    );
    assert_eq!(handle.get_size(&app.state), last);
}

#[test]
fn resize_requests_coalesce_frame_callbacks() {
    let mut app = App::new();
    let id = WindowId::of_surface(1);
    let handle = open_window(&mut app, 1, Size::from_points(800, 600));
    let mut n: u32 = 0;
    while n < 5 {
        handle.set_size(&mut app.state, Size::from_points(100 + n, 100));
        n += 1;
    }
    let mut frames = 0;
    let mut sizes = 0;
    loop {
        match app.pump() {
            None => break,
            Some(effects) => {
                for effect in effects {
                    match effect {
                        Effect::Request(window, Request::Frame) => {
                            assert_eq!(window, id);
                            frames += 1;
                        }
                        Effect::Handler(window, HandlerCall::Size(size)) => {
                            assert_eq!(window, id);
                            assert_eq!(size, Size::from_points(104, 100));
                            sizes += 1;
                        }
                        _ => panic!("a resize asks for nothing else"),
                    }
                }
            }
        }
    }
    assert_eq!(frames, 1);
    assert_eq!(sizes, 5);
    assert_eq!(handle.get_size(&app.state), Size::from_points(104, 100));
}

#[test]
fn frame_event_allows_the_next_frame_request() {
    let mut app = App::new();
    let id = WindowId::of_surface(1);
    let handle = open_window(&mut app, 1, Size::from_points(800, 600));
    handle.set_size(&mut app.state, Size::from_points(10, 10));
    assert_eq!(app.pump().unwrap().len(), 2);
    handle.set_size(&mut app.state, Size::from_points(20, 20));
    assert_eq!(
        app.pump().unwrap(),
        vec![Effect::Handler(id, HandlerCall::Size(Size::from_points(20, 20)))]
    );
    assert_eq!(app.state.frame(id).len(), 2);
    assert!(!app.state.windows.get(id).unwrap().frame_pending);
    handle.set_size(&mut app.state, Size::from_points(30, 30));
    assert_eq!(
        app.pump().unwrap(),
        vec![
            Effect::Handler(id, HandlerCall::Size(Size::from_points(30, 30))),
            Effect::Request(id, Request::Frame)
        ]
    );
}

#[test]
fn resize_of_an_unknown_window_does_nothing() {
    let mut state = State::new();
    let effects = WindowAction::ResizeRequested.run(&mut state, WindowId::of_surface(4));
    assert_eq!(effects, no_effects());
    assert!(state.windows.is_empty());
}

#[test]
fn resize_without_a_requested_size_reports_the_violation() {
    let mut app = App::new();
    let id = WindowId::of_surface(1);
    let handle = open_window(&mut app, 1, Size::from_points(800, 600));
    let effects = WindowAction::ResizeRequested.run(&mut app.state, id);
    assert_eq!(effects, vec![Effect::Diagnostic(Diagnostic::ResizeWithoutRequest(id))]);
    assert_eq!(handle.get_size(&app.state), Size::from_points(800, 600));
    assert!(!app.state.windows.get(id).unwrap().frame_pending);
    assert!(Diagnostic::ResizeWithoutRequest(id).is_violation());
    assert!(!Diagnostic::ClosedTwice(id).is_violation());
    assert!(!Diagnostic::IdleCallbackWindowGone(id).is_violation());
    assert!(!Diagnostic::IdleTokenWindowGone(id).is_violation());
}

#[test]
fn close_twice_removes_once_and_logs_once() {
    let mut app = App::new();
    let id = WindowId::of_surface(1);
    let handle = open_window(&mut app, 1, Size::from_points(800, 600));
    handle.close(&mut app.state);
    handle.close(&mut app.state);
    assert_eq!(app.state.actions.len(), 2);
    assert!(app.state.has_window(id));
    assert_eq!(app.pump().unwrap(), vec![Effect::Signal(LoopSignal::Stop)]);
    assert!(!app.state.has_window(id));
    assert_eq!(app.pump().unwrap(), vec![Effect::Diagnostic(Diagnostic::ClosedTwice(id))]);
    assert!(app.state.windows.is_empty());
    assert!(app.pump().is_none());
}

#[test]
fn close_does_not_stop_while_another_window_is_open() {
    let mut app = App::new();
    let first = open_window(&mut app, 1, Size::from_points(800, 600));
    let second = open_window(&mut app, 2, Size::from_points(80, 60));
    first.close(&mut app.state);
    assert_eq!(app.pump().unwrap(), no_effects());
    assert!(!app.state.has_window(WindowId::of_surface(1)));
    assert!(app.state.has_window(WindowId::of_surface(2)));
    second.close(&mut app.state);
    assert_eq!(app.pump().unwrap(), vec![Effect::Signal(LoopSignal::Stop)]);
    assert!(app.state.windows.is_empty());
}

#[test]
fn handle_of_a_closed_window_resolves_to_nothing() {
    let mut app = App::new();
    let id = WindowId::of_surface(1);
    let handle = open_window(&mut app, 1, Size::from_points(800, 600));
    assert_eq!(handle.get_scale(&app.state), Ok(Scale::identity()));
    assert!(handle.get_idle_handle(&app.state).is_some());
    handle.close(&mut app.state);
    assert_eq!(app.pump().unwrap(), vec![Effect::Signal(LoopSignal::Stop)]);
    assert_eq!(handle.get_scale(&app.state), Err(Error::WindowGone));
    assert!(handle.get_idle_handle(&app.state).is_none());
    assert_eq!(handle.get_size(&app.state), Size::zero());
    assert_eq!(handle.show(&app.state), no_effects());
    handle.set_size(&mut app.state, Size::from_points(1, 1));
    assert_eq!(app.state.actions.len(), 0);
    handle.close(&mut app.state);
    assert_eq!(app.pump().unwrap(), vec![Effect::Diagnostic(Diagnostic::ClosedTwice(id))]);
}

#[test]
fn resize_queued_behind_a_close_is_ignored() {
    let mut app = App::new();
    let handle = open_window(&mut app, 1, Size::from_points(800, 600));
    handle.close(&mut app.state);
    handle.set_size(&mut app.state, Size::from_points(1, 1));
    assert_eq!(app.pump().unwrap(), vec![Effect::Signal(LoopSignal::Stop)]);
    assert_eq!(app.pump().unwrap(), no_effects());
    assert!(app.pump().is_none());
}

#[test]
fn scale_change_tells_scale_then_size() {
    let mut app = App::new();
    let id = WindowId::of_surface(1);
    let handle = open_window(&mut app, 1, Size::from_points(800, 600));
    let scale = Scale::uniform(2).unwrap();
    let effects = app.state.scale_factor_changed(id, scale);
    assert_eq!(
        effects,
        vec![
            Effect::Handler(id, HandlerCall::Scale(scale)),
            Effect::Handler(id, HandlerCall::Size(Size::from_points(400, 300)))
        ]
    );
    assert_eq!(handle.get_size(&app.state), Size::new(102_400, 76_800));
    assert_eq!(handle.get_scale(&app.state), Ok(scale));
}

#[test]
fn scale_change_leaves_the_requested_size_alone() {
    let mut app = App::new();
    let id = WindowId::of_surface(1);
    let handle = open_window(&mut app, 1, Size::from_points(800, 600));
    handle.set_size(&mut app.state, Size::from_points(10, 10));
    let scale = Scale::uniform(2).unwrap();
    assert_eq!(app.state.scale_factor_changed(id, scale).len(), 2);
    assert_eq!(
        app.state.windows.get(id).unwrap().properties.requested_size,
        Some(Size::from_points(10, 10))
    );
    assert_eq!(app.state.actions.len(), 1);
}

#[test]
fn scale_change_for_an_unknown_surface_is_ignored() {
    let mut app = App::new();
    let handle = open_window(&mut app, 1, Size::from_points(800, 600));
    let scale = Scale::uniform(2).unwrap();
    let effects = app.state.scale_factor_changed(WindowId::of_surface(2), scale);
    assert_eq!(effects, no_effects());
    assert_eq!(handle.get_size(&app.state), Size::from_points(800, 600));
    assert_eq!(handle.get_scale(&app.state), Ok(Scale::identity()));
}

#[test]
fn scale_change_round_trip_at_a_window() {
    let mut app = App::new();
    let id = WindowId::of_surface(1);
    let size = Size::from_points(801, 601);
    let handle = open_window(&mut app, 1, size);
    let s1 = Scale::uniform(2).unwrap();
    let s2 = Scale::uniform(3).unwrap();
    assert_eq!(app.state.scale_factor_changed(id, s1).len(), 2);
    let at_s1 = handle.get_size(&app.state);
    assert_eq!(at_s1, Size::new(102_528, 76_928));
    assert_eq!(app.state.scale_factor_changed(id, s2).len(), 2);
    assert_eq!(handle.get_size(&app.state), Size::new(68_352, 51_285));
    assert_eq!(app.state.scale_factor_changed(id, s1).len(), 2);
    let back = handle.get_size(&app.state);
    assert_eq!(back, Size::new(102_528, 76_927));
    assert!(at_s1.to_px(s1).width - back.to_px(s1).width < UNITS_PER_POINT);
    assert!(at_s1.to_px(s1).height - back.to_px(s1).height < UNITS_PER_POINT);
}

#[test]
fn frame_prepares_and_paints_the_whole_surface() {
    let mut app = App::new();
    let id = WindowId::of_surface(1);
    open_window(&mut app, 1, Size::from_points(800, 600));
    let mut region = Region::empty();
    region.add_rect(Rect { x0: 0, y0: 0, x1: 204_800, y1: 153_600 });
    let effects = app.state.frame(id);
    assert_eq!(
        effects,
        vec![
            Effect::Handler(id, HandlerCall::PreparePaint),
            Effect::Handler(id, HandlerCall::Paint(region))
        ]
    );
}

#[test]
fn frame_for_an_unknown_surface_is_ignored() {
    let mut app = App::new();
    open_window(&mut app, 1, Size::from_points(800, 600));
    assert_eq!(app.state.frame(WindowId::of_surface(2)), no_effects());
    assert!(app.state.has_window(WindowId::of_surface(1)));
}

#[test]
fn request_close_goes_to_the_handler() {
    let mut app = App::new();
    let id = WindowId::of_surface(1);
    open_window(&mut app, 1, Size::from_points(800, 600));
    assert_eq!(app.state.request_close(id), vec![Effect::Handler(id, HandlerCall::RequestClose)]);
    assert_eq!(app.state.request_close(WindowId::of_surface(2)), no_effects());
    assert!(app.state.has_window(id));
}

#[test]
fn configure_tells_whether_the_window_is_known() {
    let mut app = App::new();
    let id = WindowId::of_surface(1);
    let handle = open_window(&mut app, 1, Size::from_points(800, 600));
    assert!(!app.state.windows.get(id).unwrap().configured);
    assert!(app.state.configure(id, Some(Size::from_points(1, 1)), 3));
    assert!(app.state.windows.get(id).unwrap().configured);
    assert!(!app.state.configure(WindowId::of_surface(2), None, 4));
    assert!(!app.state.has_window(WindowId::of_surface(2)));
    assert_eq!(handle.get_size(&app.state), Size::from_points(800, 600));
    assert_eq!(app.state.windows.get(id).unwrap().properties.requested_size, None);
}

#[test]
fn window_goes_through_its_phases() {
    let mut app = App::new();
    let id = WindowId::of_surface(1);
    assert_eq!(app.state.phase(id), WindowPhase::Removed);
    let handle = open_window(&mut app, 1, Size::from_points(800, 600));
    assert_eq!(app.state.phase(id), WindowPhase::Unconfigured);
    assert!(app.state.configure(id, None, 1));
    assert_eq!(app.state.phase(id), WindowPhase::Configured);
    handle.set_size(&mut app.state, Size::from_points(10, 10));
    assert_eq!(app.state.phase(id), WindowPhase::Configured);
    handle.close(&mut app.state);
    assert_eq!(app.state.phase(id), WindowPhase::Closing);
    assert_eq!(app.pump().unwrap().len(), 2);
    assert_eq!(app.state.phase(id), WindowPhase::Closing);
    assert_eq!(app.pump().unwrap(), vec![Effect::Signal(LoopSignal::Stop)]);
    assert_eq!(app.state.phase(id), WindowPhase::Removed);
}

#[test]
fn close_of_one_window_leaves_the_phase_of_another() {
    let mut app = App::new();
    let first = open_window(&mut app, 1, Size::from_points(800, 600));
    open_window(&mut app, 2, Size::from_points(800, 600));
    first.close(&mut app.state);
    assert_eq!(app.state.phase(WindowId::of_surface(1)), WindowPhase::Closing);
    assert_eq!(app.state.phase(WindowId::of_surface(2)), WindowPhase::Unconfigured);
}

#[test]
fn custom_cursors_are_all_equal() {
    assert_eq!(CustomCursor, CustomCursor);
}

#[test]
fn idle_callback_runs_on_a_live_window() {
    let mut app = App::new();
    let id = WindowId::of_surface(1);
    let handle = open_window(&mut app, 1, Size::from_points(800, 600));
    let idle = handle.get_idle_handle(&app.state).unwrap();
    idle.add_idle_callback(&mut app.state, 42);
    assert_eq!(app.state.idle.len(), 1);
    assert_eq!(app.pump().unwrap(), vec![Effect::RunCallback(id, 42)]);
    assert!(app.pump().is_none());
}

#[test]
fn idle_callback_for_a_closed_window_is_dropped() {
    let mut app = App::new();
    let id = WindowId::of_surface(1);
    let handle = open_window(&mut app, 1, Size::from_points(800, 600));
    let idle = handle.get_idle_handle(&app.state).unwrap();
    idle.add_idle_callback(&mut app.state, 42);
    handle.close(&mut app.state);
    assert_eq!(app.pump().unwrap(), vec![Effect::Signal(LoopSignal::Stop)]);
    assert_eq!(
        app.pump().unwrap(),
        vec![Effect::Diagnostic(Diagnostic::IdleCallbackWindowGone(id))]
    );
    assert!(app.pump().is_none());
}

#[test]
fn idle_token_goes_to_the_handler() {
    let mut app = App::new();
    let id = WindowId::of_surface(1);
    let handle = open_window(&mut app, 1, Size::from_points(800, 600));
    let idle = handle.get_idle_handle(&app.state).unwrap();
    idle.add_idle_token(&mut app.state, IdleToken::new(9));
    assert_eq!(
        app.pump().unwrap(),
        vec![Effect::Handler(id, HandlerCall::Idle(IdleToken { token: 9 }))]
    );
}

#[test]
fn idle_token_for_a_closed_window_is_dropped() {
    let mut app = App::new();
    let id = WindowId::of_surface(1);
    let handle = open_window(&mut app, 1, Size::from_points(800, 600));
    let idle = handle.get_idle_handle(&app.state).unwrap();
    idle.add_idle_token(&mut app.state, IdleToken::new(9));
    assert_eq!(WindowAction::Close.run(&mut app.state, id), vec![Effect::Signal(LoopSignal::Stop)]);
    assert_eq!(
        app.state.run_next_idle().unwrap(),
        vec![Effect::Diagnostic(Diagnostic::IdleTokenWindowGone(id))]
    );
}

#[test]
fn idle_work_is_delivered_first_in_first_out() {
    let mut app = App::new();
    let id = WindowId::of_surface(1);
    let handle = open_window(&mut app, 1, Size::from_points(800, 600));
    let idle = handle.get_idle_handle(&app.state).unwrap();
    idle.add_idle_callback(&mut app.state, 1);
    idle.add_idle_token(&mut app.state, IdleToken::new(2));
    idle.add_idle_callback(&mut app.state, 3);
    assert_eq!(app.state.run_next_idle().unwrap(), vec![Effect::RunCallback(id, 1)]);
    assert_eq!(
        app.state.run_next_idle().unwrap(),
        vec![Effect::Handler(id, HandlerCall::Idle(IdleToken::new(2)))]
    );
    assert_eq!(app.state.run_next_idle().unwrap(), vec![Effect::RunCallback(id, 3)]);
    assert!(app.state.run_next_idle().is_none());
}

#[test]
fn deliver_idle_looks_the_window_up_when_called() {
    let mut app = App::new();
    let id = WindowId::of_surface(1);
    assert_eq!(
        app.state.deliver_idle(IdleAction::Callback(id, 5)),
        vec![Effect::Diagnostic(Diagnostic::IdleCallbackWindowGone(id))]
    );
    open_window(&mut app, 1, Size::from_points(800, 600));
    assert_eq!(app.state.deliver_idle(IdleAction::Callback(id, 5)), vec![Effect::RunCallback(id, 5)]);
    assert_eq!(app.state.deliver_idle(IdleAction::AppCallback(6)), vec![Effect::RunAppCallback(6)]);
}

#[test]
fn pump_takes_actions_before_idle_work() {
    let mut app = App::new();
    let id = WindowId::of_surface(1);
    let handle = open_window(&mut app, 1, Size::from_points(800, 600));
    let idle = handle.get_idle_handle(&app.state).unwrap();
    idle.add_idle_callback(&mut app.state, 1);
    handle.set_size(&mut app.state, Size::from_points(10, 10));
    assert_eq!(
        app.pump().unwrap(),
        vec![
            Effect::Handler(id, HandlerCall::Size(Size::from_points(10, 10))),
            Effect::Request(id, Request::Frame)
        ]
    );
    assert_eq!(app.pump().unwrap(), vec![Effect::RunCallback(id, 1)]);
    assert!(app.pump().is_none());
}

#[test]
fn run_next_action_is_none_on_an_empty_queue() {
    let mut state = State::new();
    assert!(state.run_next_action().is_none());
    assert!(state.run_next_idle().is_none());
}

#[test]
fn run_on_main_queues_and_asks_for_a_wakeup() {
    let mut app = App::new();
    let handle: AppHandle = app.get_handle().unwrap();
    assert_eq!(handle.run_on_main(&mut app.state, 77), LoopSignal::Wakeup);
    assert_eq!(handle.run_on_main_inner(&mut app.state, 78), LoopSignal::Wakeup);
    assert_eq!(app.state.idle.len(), 2);
    assert_eq!(app.pump().unwrap(), vec![Effect::RunAppCallback(77)]);
    assert_eq!(app.pump().unwrap(), vec![Effect::RunAppCallback(78)]);
    assert!(app.pump().is_none());
}

#[test]
fn quit_gives_the_stop_signal() {
    let app = App::new();
    assert_eq!(app.quit(), LoopSignal::Stop);
}

#[test]
fn window_state_new_starts_unrequested() {
    let entry: WindowState<u32, u32> = WindowState::new(1, 2, Size::from_points(3, 4));
    assert_eq!(entry.handler, 1);
    assert_eq!(entry.wayland_window, 2);
    assert_eq!(entry.properties.requested_size, None);
    assert_eq!(entry.properties.current_size, Size::new(768, 1024));
    assert_eq!(entry.properties.current_scale, Scale::identity());
    assert!(!entry.configured);
    assert!(!entry.frame_pending);
}

#[test]
fn one_window_from_build_to_close() {
    let mut app = App::new();
    let id = WindowId::of_surface(1);
    let builder = WindowBuilder::new(&app).handler(1).size(Size::from_points(800, 600));
    let handle = builder.build(&mut app.state, 2, id).unwrap();
    assert_eq!(handle.show(&app.state), vec![Effect::Request(id, Request::Commit)]);
    let mut whole = Region::empty();
    whole.add_rect(Rect::from_size(Size::from_points(800, 600)));
    let effects = app.state.frame(id);
    let mut paints = 0;
    for effect in &effects {
        if let Effect::Handler(window, HandlerCall::Paint(region)) = effect {
            assert_eq!(*window, id);
            assert_eq!(*region, whole);
            paints += 1;
        }
    }
    assert_eq!(paints, 1);
    assert_eq!(effects.len(), 2);
    handle.close(&mut app.state);
    assert_eq!(app.pump().unwrap(), vec![Effect::Signal(LoopSignal::Stop)]);
    assert!(app.state.windows.is_empty());
    assert!(app.pump().is_none());
}
