use bakawm::actions::DecorationMode;
use bakawm::animation::{Animation, AnimationValue, SpringTimes};
use bakawm::config::{Config, CornerRadius, ShadowConfig};
use bakawm::float::{F32, F64};
use bakawm::geometry::{Point, Rect, Size, Transform};
use bakawm::layout::LayoutWindowState;
use bakawm::render_helpers::SizeF;
use bakawm::render_helpers::texture::TextureBuffer;
use bakawm::shell::closing_window::{drawn_scale, progress, ClosingNumbers, ClosingWindow, PointF};
use bakawm::shell::element::{surface_under, ElementFacts, PointerFocus, WindowPiece};
use bakawm::shell::grabs::{
    attach_to_layout, detach_from_layout, drag_column, dragged_location, ReleaseFacts, ResizeEnd, ResizeGrab,
    anchored_location, dragged_column_width, horizontal_drag, is_grabbing_finger, is_no_older, on_drag_button,
    on_drag_motion, resized, vertical_drag, CursorIcon, DragAxis, GrabStep, ResizeData, ResizeEdge, ResizeState,
    X11ResizeEdge,
};
use bakawm::shell::ssd::{BarAction, BorderState, DecorationEvent, HeaderBar, WindowState};
use bakawm::shell::xdg::{
    is_ssd, ToplevelState,
    after_close_animation, begin_resize, center, grab_popup, handle_toplevel_commit, move_request_xdg, move_start,
    open_animation, popup_target, resize_request, toplevel_destroyed, wants_close_snapshot, zone_area, CommitAction,
    CommitFacts, DestroyStep, GrabDevice, GrabFacts, MoveStart, PopupDevice, PopupGrab, ResizeStart,
};
use bakawm::shortcuts::ModifiersState;
use bakawm::state::{Output, Space, Window};

fn d(x: f64) -> F64 {
    F64::from_bits(x.to_bits())
}

fn s(x: f32) -> F32 {
    F32 { bits: x.to_bits() }
}

fn rect(x: i32, y: i32, w: i32, h: i32) -> Rect {
    Rect::new(Point::new(x, y), Size::new(w, h))
}

#[test]
fn edges_are_counted_as_the_protocol_counts() {
    for n in 0..16u32 {
        let e = ResizeEdge::from_bits(n).unwrap();
        assert_eq!(e.bits(), n);
        let opposed = n & 3 == 3 || n & 12 == 12;
        assert_eq!(ResizeEdge::from_protocol(n).to_protocol(), if opposed { 0 } else { n });
    }
    assert!(ResizeEdge::from_bits(16).is_none());
    let top_left = ResizeEdge::from_x11(X11ResizeEdge::TopLeft);
    assert_eq!(top_left.bits(), 5);
    assert_eq!(top_left.cursor_icon(), CursorIcon::NwResize);
    assert!(top_left.intersects(ResizeEdge::from_bits(4).unwrap()));
    assert!(!top_left.intersects(ResizeEdge::from_bits(8).unwrap()));
    assert!(ResizeEdge::empty().is_empty());
    assert_eq!(horizontal_drag(top_left), DragAxis::Backward);
    assert_eq!(vertical_drag(ResizeEdge::from_bits(2).unwrap()), DragAxis::Forward);
    assert_eq!(vertical_drag(ResizeEdge::empty()), DragAxis::Fixed);
}

#[test]
fn a_resize_runs_its_course() {
    let edges = ResizeEdge::from_bits(5).unwrap();
    let data = ResizeData { edges, initial_window_location: Point::new(10, 20), initial_window_size: Size::new(100, 50) };
    let mut state = begin_resize(edges, Point::new(10, 20), Size::new(100, 50));
    assert_eq!(state, ResizeState::Resizing(data));
    state.release(40);
    assert_eq!(state, ResizeState::WaitingForFinalAck(data, 40));
    state.ack_configure(39, true);
    assert_eq!(state, ResizeState::WaitingForFinalAck(data, 40));
    state.ack_configure(40, true);
    assert_eq!(state, ResizeState::WaitingForCommit(data));
    state.release(41);
    assert_eq!(state, ResizeState::NotResizing);
    let mut x11 = ResizeState::Resizing(data);
    x11.release_x11();
    assert_eq!(x11, ResizeState::WaitingForCommit(data));
    assert!(is_no_older(3, u32::MAX));
    assert!(!is_no_older(u32::MAX, 3));
}

#[test]
fn sizes_keep_to_their_limits() {
    let all = ResizeEdge::from_bits(15).unwrap();
    let initial = Size::new(100, 100);
    let none = Size::new(0, 0);
    assert_eq!(resized(all, initial, Size::new(-5, 300), none, Size::new(0, 200)), Size::new(1, 200));
    assert_eq!(resized(all, initial, Size::new(5, 5), Size::new(20, 30), none), Size::new(20, 30));
    assert_eq!(resized(ResizeEdge::from_bits(1).unwrap(), initial, Size::new(5, 7), none, none), Size::new(100, 7));
    assert_eq!(dragged_column_width(d(3.0)), d(100.0));
    assert_eq!(dragged_column_width(d(5000.0)), d(4000.0));
    assert_eq!(dragged_column_width(d(640.5)), d(640.5));
}

#[test]
fn the_opposite_edge_stays() {
    let data = ResizeData {
        edges: ResizeEdge::from_bits(5).unwrap(),
        initial_window_location: Point::new(10, 20),
        initial_window_size: Size::new(100, 50),
    };
    assert_eq!(anchored_location(&data, Point::new(0, 0), Size::new(80, 60)), Some(Point::new(30, 10)));
    let right = ResizeData { edges: ResizeEdge::from_bits(8).unwrap(), ..data };
    assert_eq!(anchored_location(&right, Point::new(0, 0), Size::new(80, 60)), None);
}

#[test]
fn drags_end_with_their_window_or_button() {
    assert_eq!(on_drag_motion(true), GrabStep::Keep);
    assert_eq!(on_drag_motion(false), GrabStep::Release);
    assert_eq!(on_drag_button(1, true), GrabStep::Keep);
    assert_eq!(on_drag_button(0, true), GrabStep::ReleaseIntoLayout);
    assert_eq!(on_drag_button(0, false), GrabStep::Release);
    assert!(is_grabbing_finger(Some(1), Some(1)));
    assert!(!is_grabbing_finger(Some(1), None));
}

fn facts(needs_center: bool) -> CommitFacts {
    CommitFacts {
        location: Point::new(0, 0),
        geometry: rect(5, 5, 100, 50),
        area: Some(rect(0, 30, 1000, 900)),
        needs_center,
        undrawn: needs_center,
        open_animation: None,
        resize_state: ResizeState::NotResizing,
    }
}

#[test]
fn the_first_commit_centers_a_window() {
    let times = SpringTimes { duration: 1, clamped_duration: None };
    let opening = Animation::ease(d(0.0), d(1.0), 100, bakawm::animation::Curve::Linear, 3);
    let mut first = facts(true);
    first.open_animation = Some(opening);
    let r = handle_toplevel_commit(&first, times, 40);
    assert_eq!(r.action, CommitAction::Center { to: Point::new(445, 450) });
    assert!(!r.needs_center && !r.undrawn);
    assert_eq!(r.open_animation, Some(Animation { start_time: 40, ..opening }));
    // Without an output the wait is over, and the window stays undrawn.
    let nowhere = CommitFacts { area: None, ..first };
    let r = handle_toplevel_commit(&nowhere, times, 40);
    assert_eq!((r.action, r.needs_center, r.undrawn), (CommitAction::Keep, false, true));
    assert_eq!(r.open_animation, Some(opening));
    let mut empty = facts(true);
    empty.geometry = rect(0, 0, 0, 50);
    let r = handle_toplevel_commit(&empty, times, 40);
    assert_eq!((r.action, r.needs_center, r.undrawn), (CommitAction::Keep, true, true));
    assert_eq!(center(rect(0, 0, 10, 10), rect(0, 0, 13, 4)), Point::new(-1, 3));
    let mut dragged = facts(false);
    dragged.resize_state = begin_resize(ResizeEdge::from_bits(4).unwrap(), Point::new(10, 20), Size::new(120, 50));
    assert_eq!(handle_toplevel_commit(&dragged, times, 40).action, CommitAction::Relocate { to: Point::new(30, 0) });
}

#[test]
fn requests_need_the_right_grab() {
    let good = GrabFacts { has_grab: true, window_known: true, same_client: true };
    let bad = GrabFacts { has_grab: true, window_known: true, same_client: false };
    let idle = GrabFacts { has_grab: false, window_known: true, same_client: true };
    let finger = PointF { x: d(7.5), y: d(8.4) };
    let pointer = PointF { x: d(20.5), y: d(-8.9) };
    let at = Point::new(1, 1);
    let start = |device, initial_window_location, configure| {
        Some(MoveStart { device, initial_window_location, configure })
    };
    let mut state = ToplevelState::new(false);
    state.maximized = true;
    assert_eq!(move_request_xdg(Some(bad), good, &mut state, at, finger, pointer), None);
    assert_eq!(move_request_xdg(Some(idle), bad, &mut state, at, finger, pointer), None);
    assert!(state.maximized);
    assert_eq!(
        move_request_xdg(Some(good), idle, &mut state, at, finger, pointer),
        start(GrabDevice::Touch, Point::new(8, 8), true)
    );
    assert!(!state.maximized);
    assert_eq!(
        move_request_xdg(None, good, &mut state, at, finger, pointer),
        start(GrabDevice::Pointer, at, false)
    );
    state.maximized = true;
    assert_eq!(
        move_request_xdg(None, good, &mut state, at, finger, pointer),
        start(GrabDevice::Pointer, Point::new(20, -8), true)
    );
    let mut mods = ModifiersState {
        ctrl: false,
        alt: false,
        logo: false,
        shift: false,
        iso_level3_shift: false,
        iso_level5_shift: false,
    };
    let size = Size::new(30, 40);
    assert_eq!(resize_request("Ctrl", &mods, None, good, 5, at, size), None);
    let edges = ResizeEdge::from_bits(5).unwrap();
    let data = ResizeData { edges, initial_window_location: at, initial_window_size: size };
    let begun = Some(ResizeStart {
        device: GrabDevice::Pointer,
        state: ResizeState::Resizing(data),
        grab: ResizeGrab::new(edges, at, size),
    });
    assert_eq!(resize_request("", &mods, None, good, 5, at, size), begun);
    mods.ctrl = true;
    assert_eq!(resize_request("Ctrl", &mods, None, good, 5, at, size), begun);
    assert_eq!(resize_request("Ctrl", &mods, Some(bad), good, 5, at, size), None);
    assert_eq!(move_start(Point::new(1, 1), true, true, d(7.5), d(8.4)), Point::new(8, 8));
    assert_eq!(move_start(Point::new(1, 1), true, false, d(7.5), d(-8.9)), Point::new(7, -8));
    assert_eq!(move_start(Point::new(1, 1), false, true, d(7.0), d(8.0)), Point::new(1, 1));
}

#[test]
fn popups_and_closing() {
    let free = PopupDevice { is_grabbed: false, grabbed_by_popup: false };
    let taken = PopupDevice { is_grabbed: true, grabbed_by_popup: false };
    assert_eq!(grab_popup(Some(free), Some(free)), PopupGrab::Grab { keyboard: true, pointer: true });
    assert_eq!(grab_popup(Some(taken), Some(free)), PopupGrab::Dismiss);
    assert_eq!(grab_popup(Some(free), Some(taken)), PopupGrab::DismissAfterKeyboard);
    assert_eq!(toplevel_destroyed(false, true, true), DestroyStep::Ignore);
    assert_eq!(toplevel_destroyed(true, true, true), DestroyStep::AnimateSnapshot);
    let config = Config::default();
    assert!(!wants_close_snapshot(false, false, &config.animations));
    assert!(wants_close_snapshot(true, false, &config.animations));
    assert!(!wants_close_snapshot(true, true, &config.animations));
    assert!(open_animation(&config.animations, 5).is_some());
    let mut off = config.animations;
    off.enable = false;
    assert!(open_animation(&off, 5).is_none());
    assert!(after_close_animation(true) != after_close_animation(false));
    assert_eq!(zone_area(rect(100, 50, 800, 600), rect(0, 30, 800, 570)), rect(100, 80, 800, 570));
    assert_eq!(
        popup_target(&vec![rect(0, 0, 100, 100), rect(100, 0, 100, 100)], Point::new(5, 6), Point::new(20, 30)),
        Some(rect(-25, -36, 200, 100))
    );
    assert_eq!(popup_target(&vec![], Point::new(5, 6), Point::new(20, 30)), None);
}

#[test]
fn header_bars_have_zones() {
    let mut bar = HeaderBar::new();
    bar.redraw(200);
    assert_eq!(bar.clicked(), BarAction::Nothing);
    bar.pointer_enter(d(10.0));
    assert_eq!((bar.clicked(), bar.touch_down(), bar.touch_up()), (BarAction::Move, BarAction::Move, BarAction::Nothing));
    bar.pointer_enter(d(136.0));
    assert_eq!((bar.clicked(), bar.touch_down(), bar.touch_up()), (BarAction::Maximize, BarAction::Nothing, BarAction::Maximize));
    bar.pointer_enter(d(168.0));
    assert_eq!((bar.clicked(), bar.touch_down(), bar.touch_up()), (BarAction::Close, BarAction::Nothing, BarAction::Close));
    bar.redraw(200);
    assert!(bar.close_button_hover && bar.maximize_button_hover);
    assert_eq!(bar.close_button.color.r, s(0.75));
    assert_eq!(bar.close_button.color.g, s(0.11));
    assert_eq!(bar.close_button.color.b, s(0.016));
    assert_eq!(bar.maximize_button.color.r, s(0.71));
    assert_eq!(bar.maximize_button.color.g, s(0.624));
    bar.pointer_leave();
    bar.redraw(200);
    assert!(!bar.close_button_hover);
    assert_eq!(bar.close_button.color.g, s(0.66));
    assert_eq!(bar.close_button.color.b, s(0.612));
    assert_eq!(bar.maximize_button.color.g, s(0.965));
    assert_eq!((bar.background.w, bar.background.h), (200, 32));
    assert_eq!(bar.background.color.r, s(0.75));
    assert_eq!(bar.background.color.g, s(0.9));
    assert_eq!(bar.background.color.b, s(0.78));
    let again = bar;
    bar.redraw(200);
    assert_eq!(bar, again);
    bar.redraw(0);
    assert_eq!(bar.width, 0);
}

#[test]
fn borders_are_drawn_when_they_change() {
    let mut b = BorderState::default();
    let black = b.active_color;
    let grey = b.inactive_color;
    b.set_active(true, 100, 50, d(2.9), d(2.9));
    assert_eq!((b.top.w, b.top.h), (104, 2));
    assert_eq!((b.left.w, b.left.h), (2, 50));
    assert_eq!(b.right.color, black);
    let drawn = b;
    b.redraw(100, 50, d(2.9), d(0.0), black);
    assert_eq!(b, drawn);
    b.redraw(100, 50, d(2.9), d(-0.0), grey);
    assert_eq!(b.bottom.color, grey);
    b.set_colors(grey, black);
    b.set_active(false, 100, 50, d(2.9), d(f64::EPSILON));
    assert_eq!(b.top.color, black);
    assert!(!b.is_active);
}

#[test]
fn undecorated_windows_ignore_events() {
    let mut w = WindowState::new();
    assert_eq!(w.shadow, ShadowConfig::default());
    assert_eq!(w.on_event(DecorationEvent::Motion { x: d(3.0) }), BarAction::Nothing);
    assert_eq!(w.header_bar.pointer_loc, None);
    w.is_ssd = true;
    w.header_bar.redraw(100);
    assert_eq!(w.on_event(DecorationEvent::Motion { x: d(3.0) }), BarAction::Nothing);
    assert_eq!(w.on_event(DecorationEvent::Button), BarAction::Move);
    assert_eq!(w.on_event(DecorationEvent::TouchDown { x: d(99.0) }), BarAction::Nothing);
    assert_eq!(w.on_event(DecorationEvent::TouchUp), BarAction::Close);
    assert_eq!(w.on_event(DecorationEvent::Leave), BarAction::Nothing);
    assert_eq!(w.header_bar.pointer_loc, None);
    w.set_ssd(true);
    assert!(!w.is_ssd);
}

fn element() -> ElementFacts {
    ElementFacts {
        border_width: d(0.0),
        corner_radius: CornerRadius::uniform(s(0.0)),
        has_shadow: false,
        is_empty: false,
        clip_shader: true,
        border_shader: true,
        shadow_shader: true,
        clipped: vec![true, false],
        content: Point::new(100, 200),
        border_pixels: d(2.5),
        width_pixels: d(40.0),
        height_pixels: d(30.0),
    }
}

#[test]
fn windows_are_drawn_from_their_pieces() {
    let plain = vec![WindowPiece::Surface { surface: 0 }, WindowPiece::Surface { surface: 1 }];
    assert_eq!(element().render_elements(), plain);
    let mut round = element();
    round.corner_radius = CornerRadius::uniform(s(8.0));
    round.border_width = d(0.5);
    round.has_shadow = true;
    assert_eq!(
        round.render_elements(),
        vec![
            WindowPiece::Shadow,
            WindowPiece::Border,
            WindowPiece::ClippedSurface { surface: 0 },
            WindowPiece::Surface { surface: 1 },
        ]
    );
    let mut bars = element();
    bars.border_width = d(2.5);
    bars.clipped = vec![];
    assert_eq!(
        bars.render_elements(),
        vec![
            WindowPiece::Right { at: Point::new(140, 200) },
            WindowPiece::Left { at: Point::new(98, 200) },
            WindowPiece::Bottom { at: Point::new(98, 230) },
            WindowPiece::Top { at: Point::new(98, 198) },
        ]
    );
    bars.is_empty = true;
    assert!(bars.render_elements().is_empty());
}

#[test]
fn pointers_find_surfaces_or_x11_windows() {
    let at = Point::new(3, 4);
    assert_eq!(surface_under(None, Some((5, at))), Some((PointerFocus::Surface { surface: 5 }, at)));
    assert_eq!(surface_under(Some(9), Some((5, at))), Some((PointerFocus::X11 { window: 9 }, at)));
    assert_eq!(surface_under(Some(9), None), None);
}

#[test]
fn closing_windows_fade_once() {
    let anim = Animation::ease(d(0.0), d(1.0), 100, bakawm::animation::Curve::Linear, 0);
    let pos = PointF { x: d(1.0), y: d(2.0) };
    let buffer = TextureBuffer::from_texture(
        6,
        1,
        4,
        SizeF { w: d(1.0), h: d(1.0) },
        Transform::Normal,
        vec![],
        SizeF { w: d(10.0), h: d(20.0) },
    );
    let w = ClosingWindow::new(buffer, SizeF { w: d(10.0), h: d(20.0) }, pos, PointF { x: d(0.0), y: d(0.0) }, anim, d(0.8));
    assert!(w.is_animating(5));
    assert!(!w.is_animating(100_000_000));
    assert_eq!(w.pos(), pos);
    assert_eq!(w.progress_value(100_000_000), AnimationValue::Exact { value: d(1.0) });
    assert_eq!(progress(d(1.5)), d(1.0));
    assert_eq!(progress(d(-0.5)), d(0.0));
    assert_eq!(drawn_scale(d(-0.25)), d(0.0));
    assert_eq!(drawn_scale(d(0.25)), d(0.25));
    let numbers = ClosingNumbers {
        alpha: F32 { bits: 0.5f32.to_bits() },
        scale: d(-0.1),
        origin: Point::new(5, 10),
        location: Point::new(1, 2),
    };
    let e = w.render(&numbers);
    assert_eq!((e.scale, e.origin, e.location), (d(0.0), Point::new(5, 10), Point::new(1, 2)));
    assert_eq!((e.elem.buffer.texture(), e.elem.alpha), (4, numbers.alpha));
    assert_eq!(e.elem.logical_size(), SizeF { w: d(10.0), h: d(20.0) });
}

#[test]
fn toplevels_enter_and_leave_their_states() {
    let output = |id, x| Output {
        id,
        name: String::new(),
        mode: None,
        transform: Transform::Normal,
        geometry: Some(rect(x, 0, 100, 50)),
        work_area: None,
    };
    let mut window = Window {
        id: 1,
        geometry: None,
        outputs: vec![8],
        needs_center: false,
        hidden: false,
        fade_anim: None,
        layout: LayoutWindowState::default(),
    };
    let space = Space { outputs: vec![output(7, 0), output(8, 100)], windows: vec![] };
    let fresh = ToplevelState::new(true);
    assert!(fresh.tiled && !ToplevelState::new(false).tiled);
    let mut s = fresh;
    assert_eq!(s.maximize_request(&space, &window), Point::new(100, 0));
    assert_eq!((s.maximized, s.size), (true, Some(Size::new(100, 50))));
    assert!(s.leave_maximized());
    assert_eq!(s, fresh);
    assert!(!s.leave_maximized());
    window.outputs = vec![];
    assert_eq!(s.maximize_request(&space, &window), Point::new(0, 0));
    s.unmaximize_request();
    assert_eq!(s.fullscreen_request(None, Some(8), None, &space), None);
    assert_eq!(s, fresh);
    assert_eq!(s.fullscreen_request(Some(rect(0, 0, 9, 9)), None, Some(33), &space), Some(7));
    assert_eq!((s.fullscreen, s.fullscreen_output), (true, Some(33)));
    assert_eq!(s.unfullscreen_request(), Some(33));
    assert_eq!(s, fresh);
    assert!(is_ssd(Some(DecorationMode::ServerSide)) && !is_ssd(Some(DecorationMode::ClientSide)) && !is_ssd(None));
}

#[test]
fn a_resize_grab_ends_with_its_last_size() {
    let edges = ResizeEdge { top: false, bottom: true, left: true, right: false };
    let mut grab = ResizeGrab::new(edges, Point::new(10, 20), Size::new(100, 50));
    let none = Size::new(0, 0);
    assert_eq!(grab.motion(true, Size::new(120, 70), none, Size::new(0, 60)), GrabStep::Keep);
    assert_eq!(grab.last_window_size, Size::new(120, 60));
    assert_eq!(grab.motion(false, Size::new(1, 1), none, none), GrabStep::Release);
    assert_eq!(grab.last_window_size, Size::new(120, 60));
    let facts = ReleaseFacts {
        alive: true,
        x11: false,
        has_surface: true,
        location: Some(Point::new(10, 20)),
        size: Size::new(110, 55),
    };
    let begun = begin_resize(edges, Point::new(10, 20), Size::new(100, 50));
    let mut state = begun;
    assert_eq!(grab.button(1, &facts, &mut state, 7), ResizeEnd { release: false, size: None, to: None });
    assert_eq!(state, begun);
    let end = grab.button(0, &facts, &mut state, 7);
    assert_eq!(end, ResizeEnd { release: true, size: Some(Size::new(120, 60)), to: Some(Point::new(0, 20)) });
    assert_eq!(state, ResizeState::WaitingForFinalAck(grab.data, 7));
    let mut state = begun;
    grab.button(0, &ReleaseFacts { x11: true, ..facts }, &mut state, 7);
    assert_eq!(state, ResizeState::WaitingForCommit(grab.data));
    let mut state = begun;
    let gone = ReleaseFacts { x11: true, location: None, ..facts };
    assert_eq!(grab.button(0, &gone, &mut state, 7), ResizeEnd { release: true, size: None, to: None });
    assert_eq!(state, begun);
    let dead = ReleaseFacts { alive: false, ..facts };
    assert_eq!(grab.button(0, &dead, &mut state, 7).size, None);

    assert_eq!(dragged_location(d(1.5), d(-1.5)), Point::new(2, -2));
    let mut window = Window {
        id: 1,
        geometry: None,
        outputs: vec![],
        needs_center: false,
        hidden: false,
        fade_anim: None,
        layout: LayoutWindowState::default(),
    };
    assert_eq!(drag_column(&mut window, false, d(500.0)), GrabStep::Release);
    assert_eq!(window.layout.width_override, None);
    assert_eq!(drag_column(&mut window, true, d(5.0)), GrabStep::Arrange);
    assert_eq!(window.layout.width_override, Some(d(100.0)));
    window.layout.layout_id = 4;
    detach_from_layout(&mut window);
    assert!(window.layout.is_floating);
    attach_to_layout(&mut window);
    assert!(!window.layout.is_floating);
    assert_eq!((window.layout.layout_id, window.layout.width_override), (4, Some(d(100.0))));
}
