use bakawm::animation::{Animation, AnimationValue, Curve, SpringTimes};
use bakawm::config::{Config, LayoutType};
use bakawm::float::F64;
use bakawm::geometry::{Point, Rect, Size, Transform};
use bakawm::layout::{
    grid_cell, grid_shape, sizes_differ, Layout, LayoutEffect, LayoutWindowState, MoveStep, Plan, ResizeSnapshot,
    SlotRequest, TileRequest,
};
use bakawm::render_helpers::SizeF;
use bakawm::screencasting::Screencasting;
use bakawm::shell::closing_window::PointF;
use bakawm::state::{AnvilState, Output, OutputMode, RectF, Space, Window};

fn d(x: f64) -> F64 {
    F64::from_bits(x.to_bits())
}

fn area(x: f64, y: f64, w: f64, h: f64) -> RectF {
    RectF { x: d(x), y: d(y), w: d(w), h: d(h) }
}

fn rect(x: i32, y: i32, w: i32, h: i32) -> Rect {
    Rect::new(Point::new(x, y), Size::new(w, h))
}

fn fresh() -> LayoutWindowState {
    LayoutWindowState {
        layout_id: 0,
        is_floating: false,
        initialized: false,
        target: None,
        move_anim: None,
        resize_snapshot: None,
        width_override: None,
        full_width: false,
    }
}

fn window(id: u64, geometry: Rect) -> Window {
    Window {
        id,
        geometry: Some(geometry),
        outputs: vec![1],
        needs_center: false,
        hidden: false,
        fade_anim: None,
        layout: fresh(),
    }
}

fn output() -> Output {
    Output {
        id: 1,
        name: "eDP-1".to_string(),
        mode: Some(OutputMode { size: Size::new(800, 600), refresh: 60000 }),
        transform: Transform::Normal,
        geometry: Some(rect(0, 0, 800, 600)),
        work_area: Some(area(0.0, 0.0, 800.0, 600.0)),
    }
}

fn state(windows: Vec<Window>, layout: LayoutType) -> AnvilState {
    let mut config = Config::default();
    config.layout.layout = layout;
    AnvilState {
        space: Space { outputs: vec![output()], windows },
        layout: Layout { last_layout_id: 0 },
        config,
        screencasting: Screencasting::new(),
        dbus: false,
    }
}

const NO_TIMES: SpringTimes = SpringTimes { duration: 0, clamped_duration: None };

#[test]
fn grids_are_nearly_square() {
    for n in 1..50usize {
        let (cols, rows) = grid_shape(n);
        assert_eq!(cols, (n as f64).sqrt().ceil() as usize);
        assert_eq!(rows, (n as f64 / cols as f64).ceil() as usize);
        let mut seen = Vec::new();
        for i in 0..n {
            let cell = grid_cell(i, cols);
            assert!(cell.0 < rows && cell.1 < cols);
            assert!(!seen.contains(&cell));
            seen.push(cell);
        }
    }
}

#[test]
fn requests_name_the_tiled_windows() {
    let mut floating = window(11, rect(0, 0, 5, 5));
    floating.layout.is_floating = true;
    let mut hidden = window(12, rect(0, 0, 5, 5));
    hidden.hidden = true;
    let mut wide = window(13, rect(0, 0, 5, 5));
    wide.layout.width_override = Some(d(300.0));
    let mut wrong = window(14, rect(0, 0, 5, 5));
    wrong.layout.width_override = Some(d(-1.0));
    let s = state(vec![window(10, rect(0, 0, 5, 5)), floating, hidden, wide, wrong], LayoutType::Columns);
    let r = Layout::tile_requests(&s.space, &s.config.layout, false);
    assert_eq!(r.len(), 1);
    assert_eq!(r[0].windows, vec![4, 3, 0]);
    assert_eq!(r[0].slots, SlotRequest::Columns { widths: vec![None, Some(d(300.0)), None] });
    let floating = state(vec![window(10, rect(0, 0, 5, 5))], LayoutType::Floating);
    assert!(Layout::tile_requests(&floating.space, &floating.config.layout, false).is_empty());
}

#[test]
fn a_full_width_window_takes_the_area() {
    let mut full = window(2, rect(0, 0, 5, 5));
    full.layout.full_width = true;
    let s = state(vec![window(1, rect(0, 0, 5, 5)), full], LayoutType::Grid);
    let r = Layout::tile_requests(&s.space, &s.config.layout, false);
    assert_eq!(r[0].slots, SlotRequest::Whole { window: 1 });
    let plans = Layout::compute_plans(&r, &vec![vec![]]);
    assert_eq!(plans, vec![Plan { window: 1, target: area(0.0, 0.0, 800.0, 600.0) }]);
}

#[test]
fn every_tiled_window_has_a_plan() {
    let mut floating = window(11, rect(0, 0, 5, 5));
    floating.layout.is_floating = true;
    let windows = vec![window(10, rect(0, 0, 5, 5)), floating, window(12, rect(0, 0, 5, 5))];
    let s = state(windows, LayoutType::MasterStack);
    let r = Layout::tile_requests(&s.space, &s.config.layout, false);
    let slots = vec![vec![Some(area(0.0, 0.0, 400.0, 600.0)), Some(area(400.0, 0.0, 400.0, 600.0))]];
    assert_eq!(
        Layout::compute_plans(&r, &slots),
        vec![
            Plan { window: 2, target: area(0.0, 0.0, 400.0, 600.0) },
            Plan { window: 0, target: area(400.0, 0.0, 400.0, 600.0) },
        ]
    );
    let s = state(s.space.windows, LayoutType::Maximize);
    let r = Layout::tile_requests(&s.space, &s.config.layout, false);
    let whole = area(0.0, 0.0, 800.0, 600.0);
    assert_eq!(
        Layout::compute_plans(&r, &vec![vec![]]),
        vec![Plan { window: 2, target: whole }, Plan { window: 0, target: whole }]
    );
}

#[test]
fn custom_layouts_fall_back_to_columns() {
    let mut s = state(vec![window(1, rect(0, 0, 70, 50))], LayoutType::Custom);
    s.config.layout.custom_fn = Some(4);
    let r = Layout::tile_requests(&s.space, &s.config.layout, true).remove(0);
    match &r.slots {
        SlotRequest::Custom { callback, windows, .. } => {
            assert_eq!(*callback, 4);
            assert_eq!((windows[0].w, windows[0].h), (70, 50));
        }
        _ => panic!("not custom"),
    }
    let negative = vec![Some(area(1.0, 2.0, -5.0, 7.0))];
    let request = vec![TileRequest { output: 0, area: r.area, windows: r.windows.clone(), slots: SlotRequest::Custom { callback: 4, windows: vec![], widths: vec![] } }];
    assert_eq!(Layout::compute_plans(&request, &vec![negative])[0].target, area(1.0, 2.0, 0.0, 7.0));
    assert_eq!(r.fall_back().slots, SlotRequest::Columns { widths: vec![None] });
    let without = Layout::tile_requests(&s.space, &s.config.layout, false).remove(0);
    assert_eq!(without.slots, SlotRequest::Columns { widths: vec![None] });
}

#[test]
fn windows_without_a_slot_stay() {
    let r = vec![TileRequest {
        output: 0,
        area: area(0.0, 0.0, 10.0, 10.0),
        windows: vec![3, 1],
        slots: SlotRequest::MasterStack { count: 2 },
    }];
    let slots = vec![vec![None, Some(area(5.0, 0.0, 5.0, 10.0))]];
    assert_eq!(
        Layout::compute_plans(&r, &slots),
        vec![Plan { window: 1, target: area(5.0, 0.0, 5.0, 10.0) }]
    );
}

#[test]
fn new_windows_jump_and_others_glide() {
    let mut old = window(2, rect(100, 0, 400, 600));
    old.layout.initialized = true;
    old.layout.layout_id = 7;
    let mut s = state(vec![window(1, rect(9, 9, 10, 10)), old], LayoutType::Columns);
    s.layout.last_layout_id = 7;
    let plans = vec![
        Plan { window: 1, target: area(0.0, 0.0, 400.0, 600.0) },
        Plan { window: 0, target: area(400.4, 0.6, 399.9, 600.0) },
    ];
    let effects = s.arrange_layout(&plans, NO_TIMES, 50);
    assert_eq!(
        effects,
        vec![
            LayoutEffect::Relocate { window: 0, to: Point::new(400, 1) },
            LayoutEffect::Configure { window: 0, size: Size::new(399, 600) },
        ]
    );
    assert_eq!(s.space.windows[1].layout.layout_id, 7);
    assert_eq!(s.space.windows[0].layout.layout_id, 8);
    let m = s.space.windows[1].layout.move_anim.unwrap();
    assert_eq!(m.start_x, d(100.0));
    assert_eq!(m.anim, Animation::ease(d(0.0), d(1.0), 250, Curve::EaseOutCubic, 50));
    assert_eq!(s.space.windows[0].geometry, Some(rect(400, 1, 10, 10)));

    let steps = Layout::steps(&s.space, 60);
    assert!(matches!(steps[0], MoveStep::Glide { window: 1, .. }));
    let at = s.space.windows[1].geometry.unwrap().loc;
    let here = PointF { x: F64::from_i32(at.x), y: F64::from_i32(at.y) };
    let there = PointF { x: d(50.0), y: d(0.0) };
    // As long as no window gets anywhere, nothing is drawn anew.
    assert!(!Layout::update(&mut s.space, &vec![here, here], 60));
    assert!(Layout::update(&mut s.space, &vec![there, there], 61));
    assert_eq!(s.space.windows[1].geometry.unwrap().loc, Point::new(50, 0));
    let end = 50 + 250_000_000;
    assert_eq!(Layout::steps(&s.space, end), vec![MoveStep::Arrive { window: 1, to: Point::new(0, 0) }]);
    assert!(Layout::update(&mut s.space, &vec![there, there], end));
    assert_eq!(s.space.windows[1].geometry, Some(rect(0, 0, 400, 600)));
    assert_eq!(Layout::steps(&s.space, end + 1), vec![]);
    assert!(!Layout::update(&mut s.space, &vec![there, there], end + 1));
}

#[test]
fn a_floating_layout_arranges_nothing() {
    let mut s = state(vec![window(1, rect(9, 9, 10, 10))], LayoutType::Floating);
    let plans = vec![Plan { window: 0, target: area(0.0, 0.0, 400.0, 600.0) }];
    assert!(s.arrange_layout(&plans, NO_TIMES, 50).is_empty());
    assert_eq!(s.space.windows[0].layout.layout_id, 0);
}

#[test]
fn without_animations_windows_jump() {
    let mut w = window(1, rect(9, 9, 10, 10));
    w.layout.initialized = true;
    let mut s = state(vec![w], LayoutType::Columns);
    s.config.animations.enable = false;
    let plans = vec![Plan { window: 0, target: area(1.0, 2.0, 3.0, 4.0) }];
    assert_eq!(
        s.arrange_layout(&plans, NO_TIMES, 0),
        vec![
            LayoutEffect::Relocate { window: 0, to: Point::new(1, 2) },
            LayoutEffect::Configure { window: 0, size: Size::new(3, 4) },
        ]
    );
}

#[test]
fn reordering_puts_a_window_into_its_slot() {
    // From the bottom up: the topmost window has the leftmost slot.
    let mut s = state(
        vec![window(3, rect(400, 0, 200, 10)), window(2, rect(200, 0, 200, 10)), window(1, rect(0, 0, 200, 10))],
        LayoutType::Columns,
    );
    s.space.windows[2].geometry = Some(rect(450, 0, 200, 10));
    assert!(s.reorder_layout_window(2));
    let ids: Vec<u64> = s.space.windows.iter().map(|w| w.id).collect();
    assert_eq!(ids, vec![1, 3, 2]);
    assert!(s.reorder_layout_window(0));
    assert_eq!(s.space.windows.len(), 3);
    let mut lonely = state(vec![window(1, rect(0, 0, 1, 1))], LayoutType::Columns);
    lonely.space.windows[0].geometry = None;
    assert!(!lonely.reorder_layout_window(0));
}

#[test]
fn floating_is_toggled_back_and_forth() {
    let mut s = state(vec![window(1, rect(0, 0, 1, 1))], LayoutType::Columns);
    s.toggle_window_floating(0);
    assert!(s.space.windows[0].layout.is_floating);
    s.toggle_window_floating(0);
    assert!(!s.space.windows[0].layout.is_floating);
}

#[test]
fn ids_stay() {
    let mut layout = Layout { last_layout_id: 4 };
    let mut w = fresh();
    layout.assign_layout_id(&mut w);
    assert_eq!((w.layout_id, layout.last_layout_id), (5, 5));
    layout.assign_layout_id(&mut w);
    assert_eq!((w.layout_id, layout.last_layout_id), (5, 5));
}

#[test]
fn sizes_differ_by_more_than_half_a_pixel() {
    let ways: Vec<f64> = vec![
        0.0, -0.0, 0.25, 0.49999999999999994, 0.5, 0.5000000000000001, 1.0, 1.4999999999999998, 1.5, 1.5000000000000002,
        2.5, -0.5, -0.49999999999999994, -1.5, -1.5000000000000002, 399.4, 399.5, 399.6, 400.5, 400.50000000000006,
        -2147483648.5, 2147483647.5, 2147483647.0, 2147483648.0, 1e300, f64::INFINITY, f64::NEG_INFINITY, f64::NAN, 5e-324,
    ];
    for current in [0, 1, -1, 2, 3, 400, 1023, 1024, i32::MAX, i32::MIN] {
        for target in &ways {
            let expected = (current as f64 - target).abs() > 0.5;
            let size = Size::new(current, 7);
            assert_eq!(sizes_differ(size, &area(0.0, 0.0, *target, 7.0)), expected, "{current} {target}");
            let size = Size::new(7, current);
            assert_eq!(sizes_differ(size, &area(0.0, 0.0, 7.0, *target)), expected, "{current} {target}");
        }
    }
}

#[test]
fn snapshots_show_the_contents_until_they_are_done() {
    let anim = Animation::ease(d(0.0), d(1.0), 100, Curve::Linear, 0);
    let snapshot = ResizeSnapshot {
        buffer: 3,
        pos: PointF { x: d(1.0), y: d(2.0) },
        geo_size: SizeF { w: d(30.0), h: d(40.0) },
        buffer_offset: PointF { x: d(5.0), y: d(6.0) },
        anim,
        target_size: SizeF { w: d(60.0), h: d(80.0) },
    };
    let e = snapshot.render(50).unwrap();
    assert_eq!(e.src, area(5.0, 6.0, 30.0, 40.0));
    assert_eq!(e.buffer, 3);
    assert!(matches!(e.progress, AnimationValue::Eased { passed: 50, total: 100_000_000, .. }));
    assert!(snapshot.render(100_000_000).is_none());
    assert_eq!((anim.from(), anim.to(), anim.duration()), (d(0.0), d(1.0), 100_000_000));
}
