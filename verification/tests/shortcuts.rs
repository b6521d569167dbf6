use std::collections::HashSet;

use bakawm::actions::{
    dispatch_native, dispatch_windowed, next_workspace, output_under, previous_workspace, toggle_decoration,
    ActionEffect, DecorationMode, KeyDispatch, Session,
};
use bakawm::config::{BindAction, BindConfig, Config, LuaConfig};
use bakawm::events::{
    on_pointer_move, on_tablet_tool_proximity, touch_area, BackendEffect, BackendStep, InputEffect, InputKind, InputStep,
    MoveStep, Proximity, ScaleSteps, ToolChanges, ToolReport,
};
use bakawm::float::F64;
use bakawm::geometry::{Point, Rect, Size, Transform};
use bakawm::input::{
    activates, clamp_coords, desktop_extent, detect_resize_edges, exclusive_layer, may_move, on_device_added,
    on_device_removed, on_pointer_button, output_at_position, pointer_hold, surface_under, touch_output,
    update_cursor_for_no_csd, update_keyboard_focus, ButtonAction, DeviceChange, ElementUnder, FocusAction,
    FullscreenUnder, GestureFacts, GestureGrab, Grabs, LayerKeyboard, LayerUnder, OutputUnder, PointerConstraint,
    PointerHold, RelativeDirection, ScrollAxis, Thirds, WindowUnder, LEFT_BUTTON,
};
use bakawm::layout::LayoutWindowState;
use bakawm::shell::grabs::{CursorIcon, ResizeData, ResizeEdge, ResizeGrab, ResizeState};
use bakawm::shortcuts::{
    filter_key, find_named_key, name_key, process_keyboard_shortcut, KeyAction, KeyEvent, KeyFilter, KeyPress,
    ModifiersState, KEY_PRINT, SWITCH_VT_1,
};
use bakawm::state::{Output, OutputMode, Space, Window};

fn d(x: f64) -> F64 {
    F64::from_bits(x.to_bits())
}

fn mods() -> ModifiersState {
    ModifiersState {
        ctrl: false,
        alt: false,
        logo: false,
        shift: false,
        iso_level3_shift: false,
        iso_level5_shift: false,
    }
}

fn press(sym: u32) -> KeyPress {
    KeyPress { modified: sym, raw: Some(sym), modified_name: String::new(), raw_name: None }
}

fn bind(modifiers: &[&str], key: &str, action: BindAction) -> BindConfig {
    BindConfig { modifiers: modifiers.iter().map(|m| m.to_string()).collect(), key: key.to_string(), action }
}

fn rect(x: i32, y: i32, w: i32, h: i32) -> Rect {
    Rect::new(Point::new(x, y), Size::new(w, h))
}

fn output(id: u64, name: &str, geometry: Rect) -> Output {
    Output {
        id,
        name: name.to_string(),
        mode: Some(OutputMode { size: geometry.size, refresh: 60000 }),
        transform: Transform::Normal,
        geometry: Some(geometry),
        work_area: None,
    }
}

fn space() -> Space {
    Space {
        outputs: vec![output(1, "DP-1", rect(0, 0, 100, 80)), output(2, "eDP-1", rect(100, 0, 50, 60))],
        windows: vec![],
    }
}

#[test]
fn character_keys_match_in_either_case() {
    let config = Config::default();
    let mut m = mods();
    m.logo = true;
    assert_eq!(process_keyboard_shortcut(&config.binds, &m, &press(0x71)), Some(KeyAction::Quit));
    let upper = vec![bind(&["Super"], "Q", BindAction::CloseWindow)];
    assert_eq!(process_keyboard_shortcut(&upper, &m, &press(0x71)), Some(KeyAction::CloseWindow));
    assert_eq!(process_keyboard_shortcut(&upper, &m, &press(0x51)), Some(KeyAction::CloseWindow));
    assert_eq!(process_keyboard_shortcut(&upper, &m, &press(0x72)), None);
}

#[test]
fn bindings_want_exactly_their_modifiers() {
    let binds = vec![
        bind(&["Ctrl", "Alt"], "BackSpace", BindAction::Quit),
        bind(&["Logo"], "Return", BindAction::Run("term".to_string())),
        bind(&["Hyper"], "x", BindAction::Quit),
    ];
    let mut m = mods();
    m.ctrl = true;
    assert_eq!(process_keyboard_shortcut(&binds, &m, &press(0xff08)), None);
    m.alt = true;
    assert_eq!(process_keyboard_shortcut(&binds, &m, &press(0xff08)), Some(KeyAction::Quit));
    m.shift = true;
    assert_eq!(process_keyboard_shortcut(&binds, &m, &press(0xff08)), None);
    let mut logo = mods();
    logo.logo = true;
    assert_eq!(process_keyboard_shortcut(&binds, &logo, &press(0xff0d)), Some(KeyAction::Run("term".to_string())));
    assert_eq!(process_keyboard_shortcut(&binds, &mods(), &press(0x78)), None);
}

#[test]
fn the_first_binding_wins() {
    let binds = vec![bind(&[], "F1", BindAction::Screenshot), bind(&[], "F1", BindAction::Quit)];
    assert_eq!(process_keyboard_shortcut(&binds, &mods(), &press(0xffbe)), Some(KeyAction::Screenshot));
}

#[test]
fn keys_are_found_by_name() {
    assert_eq!(find_named_key("Print"), Some(KEY_PRINT));
    assert_eq!(find_named_key("Space"), Some(0x20));
    assert_eq!(find_named_key("F12"), Some(0xffc9));
    assert_eq!(find_named_key("q"), None);
    let binds = vec![bind(&[], "XF86AudioMute", BindAction::ToggleTint)];
    let mut p = press(0x1008_ff12);
    assert_eq!(process_keyboard_shortcut(&binds, &mods(), &p), None);
    p.raw_name = Some("XF86AudioMute".to_string());
    assert_eq!(process_keyboard_shortcut(&binds, &mods(), &p), Some(KeyAction::ToggleTint));
}

#[test]
fn names_belong_to_their_symbols() {
    let name = |sym: u32| format!("key {sym}");
    let p = name_key(7, Some(9), name);
    assert_eq!((p.modified, p.raw), (7, Some(9)));
    assert_eq!((p.modified_name.as_str(), p.raw_name.as_deref()), ("key 7", Some("key 9")));
    assert_eq!(name_key(7, None, name).raw_name, None);
    let binds = vec![bind(&[], "key 9", BindAction::ToggleTint)];
    assert_eq!(process_keyboard_shortcut(&binds, &mods(), &p), Some(KeyAction::ToggleTint));
    assert_eq!(process_keyboard_shortcut(&binds, &mods(), &name_key(8, None, name)), None);
}

fn event(keycode: u32, pressed: bool, sym: u32) -> KeyEvent {
    KeyEvent { keycode, pressed, modifiers: mods(), press: press(sym), inhibited: false }
}

#[test]
fn what_was_kept_back_is_kept_back_again() {
    let binds = vec![bind(&[], "F1", BindAction::Screenshot)];
    let mut held: HashSet<u32> = HashSet::new();
    assert_eq!(filter_key(&mut held, &binds, &event(59, true, 0xffbe)), KeyFilter::Intercept(KeyAction::Screenshot));
    assert_eq!(filter_key(&mut held, &binds, &event(60, true, 0xffbf)), KeyFilter::Forward);
    assert_eq!(filter_key(&mut held, &binds, &event(60, false, 0xffbf)), KeyFilter::Forward);
    assert_eq!(filter_key(&mut held, &binds, &event(59, false, 0xffbe)), KeyFilter::Intercept(KeyAction::Nothing));
    assert_eq!(filter_key(&mut held, &binds, &event(59, false, 0xffbe)), KeyFilter::Forward);
    let mut inhibited = event(59, true, 0xffbe);
    inhibited.inhibited = true;
    assert_eq!(filter_key(&mut held, &binds, &inhibited), KeyFilter::Forward);
    assert_eq!(
        process_keyboard_shortcut(&binds, &mods(), &press(SWITCH_VT_1 + 1)),
        Some(KeyAction::VtSwitch(2))
    );
}

fn session() -> Session {
    Session {
        running: true,
        show_window_preview: false,
        pending_screenshot: false,
        focused_window: Some(7),
        focused_output: Some((3, 0)),
        socket_name: Some("wayland-1".to_string()),
        xdisplay: Some(2),
        lua_config: Some(LuaConfig { callbacks: vec![40, 41] }),
    }
}

#[test]
fn common_actions_have_their_effects() {
    let mut s = session();
    assert_eq!(s.process_common_key_action(KeyAction::CloseWindow), ActionEffect::Close { window: 7 });
    assert_eq!(s.process_common_key_action(KeyAction::Callback(1)), ActionEffect::Call { callback: 41 });
    assert_eq!(s.process_common_key_action(KeyAction::Callback(2)), ActionEffect::Nothing);
    assert_eq!(
        s.process_common_key_action(KeyAction::WorkspacePrev),
        ActionEffect::SwitchWorkspace { output: 3, workspace: 0 }
    );
    assert_eq!(
        s.process_common_key_action(KeyAction::WorkspaceNext),
        ActionEffect::SwitchWorkspace { output: 3, workspace: 1 }
    );
    assert_eq!(s.process_common_key_action(KeyAction::ResizeWidthDown), ActionEffect::ResizeWidth { by: -40 });
    match s.process_common_key_action(KeyAction::Run("foot".to_string())) {
        ActionEffect::Spawn { command, env } => {
            assert_eq!(command, "foot");
            assert_eq!(env.len(), 2);
            assert_eq!((env[0].name.as_str(), env[0].value.as_str()), ("WAYLAND_DISPLAY", "wayland-1"));
            assert_eq!((env[1].name.as_str(), env[1].value.as_str()), ("DISPLAY", ":2"));
        }
        _ => panic!("no command"),
    }
    s.process_common_key_action(KeyAction::TogglePreview);
    s.process_common_key_action(KeyAction::Screenshot);
    s.process_common_key_action(KeyAction::Quit);
    assert!(s.show_window_preview && s.pending_screenshot && !s.running);
    assert_eq!((next_workspace(u32::MAX), previous_workspace(4)), (u32::MAX, 3));
    assert_eq!(toggle_decoration(Some(DecorationMode::ClientSide), true), (Some(DecorationMode::ServerSide), true));
    assert_eq!(toggle_decoration(None, true), (None, false));
}

#[test]
fn actions_go_to_who_can_do_them() {
    assert_eq!(dispatch_native(&KeyAction::VtSwitch(1)), KeyDispatch::Backend);
    assert_eq!(dispatch_native(&KeyAction::Callback(0)), KeyDispatch::Common);
    assert_eq!(dispatch_windowed(&KeyAction::VtSwitch(1)), KeyDispatch::Unsupported);
    assert_eq!(dispatch_windowed(&KeyAction::ScaleUp), KeyDispatch::Backend);
}

#[test]
fn native_events_are_carried_out() {
    let mut s = session();
    let space = space();
    let steps = vec![ScaleSteps { up: d(1.25), down: d(0.75) }, ScaleSteps { up: d(2.25), down: d(1.75) }];
    let at = Point::new(120, 10);
    let mut go = |step: InputStep, p: Point| s.process_input_event(step, &space, p, &steps);
    assert_eq!(
        go(InputStep::Key(KeyAction::Screen(1)), at),
        InputEffect::Backend {
            effect: BackendEffect::WarpPointer { twice_x: 250, twice_y: 60 },
            steps: vec![BackendStep::WarpPointer { twice_x: 250, twice_y: 60 }, BackendStep::PointerFrame],
        }
    );
    assert_eq!(go(InputStep::Key(KeyAction::Screen(5)), at), InputEffect::Backend { effect: BackendEffect::Nothing, steps: vec![] });
    assert_eq!(
        go(InputStep::Key(KeyAction::ScaleUp), at),
        InputEffect::Backend {
            effect: BackendEffect::SetScale { output: 1, scale: d(2.25) },
            steps: vec![
                BackendStep::SetScale { output: 1, scale: d(2.25) },
                BackendStep::RescalePointer { output: 1 },
                BackendStep::FixPositions,
                BackendStep::MovePointer,
                BackendStep::PointerFrame,
                BackendStep::ResetBuffers { output: 1 },
            ],
        }
    );
    assert!(matches!(
        go(InputStep::Key(KeyAction::ScaleDown), Point::new(0, 0)),
        InputEffect::Backend { effect: BackendEffect::SetScale { output: 0, scale }, .. } if scale == d(1.0)
    ));
    assert_eq!(
        go(InputStep::Key(KeyAction::RotateOutput), at),
        InputEffect::Backend {
            effect: BackendEffect::SetTransform { output: 1, transform: Transform::Rot90 },
            steps: vec![
                BackendStep::SetTransform { output: 1, transform: Transform::Rot90 },
                BackendStep::FixPositions,
                BackendStep::ResetBuffers { output: 1 },
            ],
        }
    );
    assert_eq!(go(InputStep::Key(KeyAction::ScaleUp), Point::new(-1, 0)), InputEffect::Backend { effect: BackendEffect::Nothing, steps: vec![] });
    assert_eq!(go(InputStep::Device(InputKind::GestureHoldEnd), at), InputEffect::Handle(InputKind::GestureHoldEnd));
    assert_eq!(go(InputStep::Device(InputKind::Other), at), InputEffect::Ignored);
    assert_eq!(go(InputStep::Key(KeyAction::FocusPrev), at), InputEffect::Common(ActionEffect::CycleFocus { by: -1 }));
}

#[test]
fn windows_handle_fewer_events() {
    let mut s = session();
    let space = space();
    let steps = vec![ScaleSteps { up: d(1.25), down: d(0.75) }, ScaleSteps { up: d(2.25), down: d(1.75) }];
    let mut go = |step: InputStep| s.process_input_event_windowed(step, &space, "eDP-1", &steps);
    assert_eq!(go(InputStep::Key(KeyAction::ToggleTint)), InputEffect::Unsupported);
    assert_eq!(
        go(InputStep::Key(KeyAction::ScaleDown)),
        InputEffect::Backend {
            effect: BackendEffect::SetScale { output: 1, scale: d(1.75) },
            steps: vec![
                BackendStep::SetScale { output: 1, scale: d(1.75) },
                BackendStep::FixPositions,
                BackendStep::ResetBuffers { output: 1 },
            ],
        }
    );
    assert_eq!(go(InputStep::Device(InputKind::PointerMotion)), InputEffect::Ignored);
    assert_eq!(go(InputStep::Device(InputKind::TouchUp)), InputEffect::Handle(InputKind::TouchUp));
}

#[test]
fn rotation_goes_round() {
    let mut t = Transform::Normal;
    for _ in 0..8 {
        t = t.rotated();
    }
    assert_eq!(t, Transform::Normal);
    assert_eq!(Transform::Rot270.rotated(), Transform::Flipped);
}

#[test]
fn constraints_hold_the_pointer() {
    let lock = PointerConstraint { active: true, locks: true, in_region: None };
    let confine = PointerConstraint { active: true, locks: false, in_region: Some(true) };
    let outside = PointerConstraint { active: true, locks: true, in_region: Some(false) };
    let waiting = PointerConstraint { active: false, locks: true, in_region: None };
    assert_eq!(pointer_hold(Some(lock)), PointerHold::Locked);
    assert_eq!(pointer_hold(Some(confine)), PointerHold::Confined);
    assert_eq!(pointer_hold(Some(outside)), PointerHold::Free);
    assert_eq!(pointer_hold(Some(waiting)), PointerHold::Free);
    assert!(activates(Some(waiting)) && !activates(Some(lock)) && !activates(None));
    assert!(may_move(PointerHold::Confined, true, None));
    assert!(!may_move(PointerHold::Confined, true, Some(false)));
    assert_eq!(on_pointer_move(PointerHold::Locked, true, None, None), vec![MoveStep::Relative, MoveStep::Frame]);
    assert_eq!(
        on_pointer_move(PointerHold::Free, false, None, Some(waiting)),
        vec![MoveStep::Relative, MoveStep::Motion, MoveStep::Frame, MoveStep::UpdateCursor, MoveStep::Activate]
    );
}

#[test]
fn pointers_stay_on_the_desktop() {
    let s = space();
    assert_eq!(desktop_extent(&s), Size::new(150, 80));
    assert_eq!(clamp_coords(&s, d(-5.0), d(100.0)), (d(0.0), d(80.0)));
    assert_eq!(clamp_coords(&s, d(120.5), d(100.0)), (d(120.5), d(60.0)));
    assert_eq!(clamp_coords(&s, d(500.0), d(100.0)), (d(150.0), d(100.0)));
    let none = Space { outputs: vec![], windows: vec![] };
    assert_eq!(clamp_coords(&none, d(-5.0), d(7.0)), (d(-5.0), d(7.0)));
    assert_eq!(output_at_position(&s, d(99.6), d(3.0)), Some(1));
    assert_eq!(output_at_position(&s, d(99.4), d(3.0)), Some(0));
    assert_eq!(output_under(&s, Point::new(120, 70)), None);
}

#[test]
fn touch_goes_to_the_panel() {
    let mut s = space();
    assert_eq!(touch_output(&s), Some(1));
    s.outputs[1].transform = Transform::Rot90;
    let area = touch_area(&s).unwrap();
    assert_eq!((area.size, area.loc), (Size::new(60, 50), Point::new(100, 0)));
    s.outputs.remove(1);
    assert_eq!(touch_output(&s), Some(0));
    assert_eq!(touch_area(&s).unwrap().size, Size::new(100, 80));
    s.outputs.clear();
    assert!(touch_area(&s).is_none());
}

#[test]
fn tablets_report_what_changed() {
    let c = ToolChanges { pressure: true, distance: false, tilt: true, slider: false, rotation: false, wheel: true };
    assert_eq!(
        c.on_tablet_tool_axis(true),
        vec![ToolReport::Pressure, ToolReport::Tilt, ToolReport::Wheel, ToolReport::Motion]
    );
    assert!(c.on_tablet_tool_axis(false).is_empty());
    assert_eq!(on_tablet_tool_proximity(true, true, true, true), Proximity::In);
    assert_eq!(on_tablet_tool_proximity(false, true, true, true), Proximity::Out);
    assert_eq!(on_tablet_tool_proximity(false, false, true, true), Proximity::Nothing);
    assert_eq!(on_device_added(true, true, true), DeviceChange { tablet: true, touch: false });
    assert!(on_device_removed(true, 0) && !on_device_removed(true, 1) && !on_device_removed(false, 0));
}

#[test]
fn scrolls_are_reported() {
    let wheel = ScrollAxis { amount: None, from_steps: d(15.0), v120: Some(d(120.0)), direction: RelativeDirection::Inverted };
    let r = wheel.report(false);
    assert_eq!((r.value, r.v120, r.stop), (Some(d(15.0)), Some(120), false));
    assert_eq!(r.direction, Some(RelativeDirection::Inverted));
    let end = ScrollAxis { amount: Some(d(0.0)), from_steps: d(0.0), v120: None, direction: RelativeDirection::Identical };
    assert!(end.report(true).stop && !end.report(false).stop);
    assert_eq!((end.report(true).value, end.report(true).direction), (None, None));
}

fn thirds() -> Thirds {
    Thirds { first_x: d(100.0), second_x: d(200.0), first_y: d(50.0), second_y: d(100.0) }
}

#[test]
fn places_have_edges() {
    let e = detect_resize_edges(d(10.0), d(10.0), &thirds());
    assert!(e.left && e.top && !e.right && !e.bottom);
    assert!(detect_resize_edges(d(150.0), d(70.0), &thirds()).is_empty());
    assert!(detect_resize_edges(d(250.0), d(70.0), &thirds()).right);
}

fn gesture(layout_active: bool, edges: ResizeEdge) -> GestureFacts {
    let mut m = mods();
    m.ctrl = true;
    GestureFacts {
        prefer_no_csd: true,
        resize_modifier: "Ctrl".to_string(),
        modifiers: m,
        layout_active,
        under: Some(WindowUnder { location: Point::new(3, 4), size: Size::new(50, 60), edges, width_override: None }),
    }
}

#[test]
fn a_modifier_turns_the_mouse_into_a_handle() {
    let left = ResizeEdge::from_bits(4).unwrap();
    let none = ResizeEdge::empty();
    let mut w = Window {
        id: 1,
        geometry: None,
        outputs: vec![],
        needs_center: false,
        hidden: false,
        fade_anim: None,
        layout: LayoutWindowState::default(),
    };
    let mut state = Some(ResizeState::NotResizing);
    let mut press = |facts: GestureFacts| on_pointer_button(&facts, LEFT_BUTTON, true, &mut w, &mut state);
    let o = press(gesture(true, left));
    assert_eq!(o.action, ButtonAction::ResizeColumn { initial_width: d(50.0) });
    assert_eq!(o.grab, Some(GestureGrab::Column { initial_width: d(50.0) }));
    assert!(o.update_focus);
    let o = press(gesture(false, none));
    assert_eq!(o.action, ButtonAction::MoveWindow { initial_location: Point::new(3, 4) });
    assert_eq!(o.grab, Some(GestureGrab::Move { initial_location: Point::new(3, 4) }));
    assert!(!w.layout.is_floating);
    assert_eq!(state, Some(ResizeState::NotResizing));
    let mut press = |facts: GestureFacts| on_pointer_button(&facts, LEFT_BUTTON, true, &mut w, &mut state);
    let o = press(gesture(true, none));
    assert_eq!(o.action, ButtonAction::DragWithinLayout { initial_location: Point::new(3, 4) });
    assert_eq!(o.grab, Some(GestureGrab::LayoutMove { initial_location: Point::new(3, 4) }));
    let o = press(gesture(false, left));
    let data = ResizeData { edges: left, initial_window_location: Point::new(3, 4), initial_window_size: Size::new(50, 60) };
    assert_eq!(o.action, ButtonAction::ResizeWindow { data });
    assert_eq!(o.grab, Some(GestureGrab::Resize { grab: ResizeGrab::new(left, Point::new(3, 4), Size::new(50, 60)) }));
    assert!(w.layout.is_floating);
    assert_eq!(state, Some(ResizeState::Resizing(data)));
    let mut none_yet = None;
    on_pointer_button(&gesture(false, left), LEFT_BUTTON, true, &mut w, &mut none_yet);
    assert_eq!(none_yet, None);
    let o = on_pointer_button(&gesture(false, none), LEFT_BUTTON, false, &mut w, &mut state);
    assert_eq!((o.update_focus, o.action, o.grab), (false, ButtonAction::Forward, None));
    let o = on_pointer_button(&gesture(false, none), LEFT_BUTTON + 1, true, &mut w, &mut state);
    assert_eq!((o.update_focus, o.action, o.grab), (true, ButtonAction::Forward, None));
    assert_eq!(update_cursor_for_no_csd(&gesture(true, left)), Some(CursorIcon::WResize));
    assert_eq!(update_cursor_for_no_csd(&gesture(false, none)), Some(CursorIcon::AllScroll));
    let mut idle = gesture(false, none);
    idle.modifiers.ctrl = false;
    assert_eq!(update_cursor_for_no_csd(&idle), None);
}

fn layer(id: u64, focusable: bool) -> Option<LayerUnder> {
    Some(LayerUnder { id, location: Point::new(1, 1), focusable, surface: Some((id * 10, Point::new(2, 2))) })
}

fn under() -> OutputUnder {
    OutputUnder {
        location: Point::new(100, 0),
        fullscreen: None,
        overlay: None,
        top: None,
        bottom: layer(5, true),
        background: None,
    }
}

fn element(hidden: bool) -> Option<ElementUnder> {
    Some(ElementUnder { id: 8, location: Point::new(50, 50), hidden, surface: Some((80, Point::new(3, 3))) })
}

#[test]
fn the_topmost_surface_is_under_the_pointer() {
    assert_eq!(surface_under(None, element(false)), None);
    assert_eq!(surface_under(Some(under()), element(false)), Some((80, Point::new(53, 53))));
    assert_eq!(surface_under(Some(under()), None), Some((50, Point::new(103, 3))));
    let mut top = under();
    top.top = layer(6, false);
    assert_eq!(surface_under(Some(top), element(false)), Some((60, Point::new(103, 3))));
    top.fullscreen = Some(FullscreenUnder { id: 9, surface: (90, Point::new(0, 0)) });
    assert_eq!(surface_under(Some(top), element(false)), Some((90, Point::new(100, 0))));
}

#[test]
fn clicks_move_the_focus() {
    let free = Grabs { pointer: false, keyboard: false, input_method: false, touch: false };
    assert_eq!(update_keyboard_focus(&free, Some(under()), element(false)), FocusAction::Window { window: 8 });
    assert_eq!(update_keyboard_focus(&free, Some(under()), element(true)), FocusAction::Keep);
    assert_eq!(update_keyboard_focus(&free, Some(under()), None), FocusAction::Layer { layer: 5 });
    let mut top = under();
    top.overlay = layer(6, false);
    assert_eq!(update_keyboard_focus(&free, Some(top), element(false)), FocusAction::Window { window: 8 });
    top.fullscreen = Some(FullscreenUnder { id: 9, surface: (90, Point::new(0, 0)) });
    assert_eq!(update_keyboard_focus(&free, Some(top), None), FocusAction::Fullscreen { window: 9 });
    let grabbed = Grabs { keyboard: true, ..free };
    assert_eq!(update_keyboard_focus(&grabbed, Some(top), None), FocusAction::Keep);
    let by_method = Grabs { keyboard: true, input_method: true, ..free };
    assert_eq!(update_keyboard_focus(&by_method, Some(top), None), FocusAction::Fullscreen { window: 9 });
    let layers = vec![
        LayerKeyboard { exclusive: true, above_windows: false, mapped: true },
        LayerKeyboard { exclusive: true, above_windows: true, mapped: true },
    ];
    assert_eq!(exclusive_layer(&layers), Some(1));
}
