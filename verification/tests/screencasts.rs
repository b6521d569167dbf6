use bakawm::config::Config;
use bakawm::geometry::{Point, Rect, Size, Transform};
use bakawm::layout::{Layout, LayoutWindowState};
use bakawm::screencasting::{
    cast_params_for_output, render_for_screen_cast_inner, session_object_path, Cast, CastEffects, CastSessionId, CastStreamId, CastTarget, CursorMode,
    FrameAction, FrameEvent, FrameOutcome, IdCounter, PendingCast, PwToState, ScreenCastToState, Screencasting, SizeCheck,
    StartOutcome, StreamTargetId,
};
use bakawm::state::{AnvilState, Output, OutputMode, Space, Window};

fn output(id: u64, name: &str, transform: Transform) -> Output {
    Output {
        id,
        name: name.to_string(),
        mode: Some(OutputMode { size: Size::new(1920, 1080), refresh: 60000 }),
        transform,
        geometry: Some(Rect::new(Point::new(0, 0), Size::new(1920, 1080))),
        work_area: None,
    }
}

fn window(id: u64, outputs: Vec<u64>) -> Window {
    Window {
        id,
        geometry: None,
        outputs,
        needs_center: false,
        hidden: false,
        fade_anim: None,
        layout: LayoutWindowState {
            layout_id: 0,
            is_floating: false,
            initialized: false,
            target: None,
            move_anim: None,
            resize_snapshot: None,
            width_override: None,
            full_width: false,
        },
    }
}

fn state() -> AnvilState {
    AnvilState {
        space: Space {
            outputs: vec![output(1, "eDP-1", Transform::Normal), output(2, "DP-1", Transform::Rot90)],
            windows: vec![window(8, vec![2]), window(9, vec![])],
        },
        layout: Layout { last_layout_id: 0 },
        config: Config::default(),
        screencasting: Screencasting::new(),
        dbus: true,
    }
}

fn cast(session: u64, stream: u64, target: CastTarget) -> Cast {
    Cast {
        session_id: CastSessionId(session),
        stream_id: CastStreamId(stream),
        target,
        cursor_mode: CursorMode::Embedded,
        active: true,
        dynamic_target: false,
        last_frame_time: 0,
    }
}

fn on_output(id: u64) -> CastTarget {
    CastTarget::Output { output: id, name: String::new() }
}

#[test]
fn ids_count_up_and_go_round() {
    let mut c = IdCounter::new();
    assert_eq!(CastSessionId::next(&mut c).get(), 1);
    assert_eq!(CastSessionId::next(&mut c).text(), "2");
    // Sessions and streams are counted apart.
    assert_eq!(CastStreamId::next(&mut c).get(), 1);
    assert_eq!(CastSessionId::next(&mut c).get(), 3);
    c.next_stream = u64::MAX;
    assert_eq!(CastStreamId::next(&mut c).get(), u64::MAX);
    assert_eq!(CastStreamId::next(&mut c).get(), 0);
    assert_eq!(session_object_path(CastSessionId(12)), "/org/gnome/Mutter/ScreenCast/Session/u12");
}

#[test]
fn ending_a_session_ends_all_its_streams() {
    let mut s = state();
    s.screencasting.casts =
        vec![cast(1, 10, on_output(1)), cast(2, 20, on_output(1)), cast(1, 11, CastTarget::Window { id: 1 })];
    s.screencasting.pending_dynamic_casts = vec![
        PendingCast { session_id: CastSessionId(1), stream_id: CastStreamId(12), cursor_mode: CursorMode::Hidden },
        PendingCast { session_id: CastSessionId(3), stream_id: CastStreamId(30), cursor_mode: CursorMode::Hidden },
    ];
    let mut e = CastEffects::new();
    s.stop_cast(CastSessionId(1), &mut e);
    assert_eq!(s.screencasting.casts.len(), 1);
    assert_eq!(s.screencasting.casts[0].stream_id, CastStreamId(20));
    assert_eq!(s.screencasting.pending_dynamic_casts.len(), 1);
    assert_eq!(e.disconnect, vec![CastStreamId(11), CastStreamId(10)]);
    assert_eq!(e.stop_sessions, vec!["/org/gnome/Mutter/ScreenCast/Session/u1".to_string()]);
    let mut quiet = state();
    quiet.dbus = false;
    let mut e = CastEffects::new();
    quiet.stop_cast(CastSessionId(1), &mut e);
    assert!(e.stop_sessions.is_empty());
}

#[test]
fn casts_of_an_output_end_with_it() {
    let mut s = state();
    s.screencasting.casts =
        vec![cast(1, 10, on_output(1)), cast(2, 20, on_output(2)), cast(1, 11, CastTarget::Nothing)];
    let mut e = CastEffects::new();
    s.stop_casts_for_output(1, &mut e);
    assert_eq!(s.screencasting.casts.len(), 1);
    assert_eq!(s.screencasting.casts[0].session_id, CastSessionId(2));
    assert_eq!(e.disconnect.len(), 2);
}

#[test]
fn messages_of_the_stream_server() {
    let mut s = state();
    s.screencasting.casts = vec![cast(1, 10, on_output(2)), cast(2, 20, CastTarget::Window { id: 1 })];
    let mut e = CastEffects::new();
    s.on_pw_msg(PwToState::Redraw { stream_id: CastStreamId(10) }, &vec![1, 2], &mut e);
    assert_eq!(e.redraw, vec![2]);
    let mut e = CastEffects::new();
    s.on_pw_msg(PwToState::Redraw { stream_id: CastStreamId(20) }, &vec![1, 2], &mut e);
    assert_eq!(e.redraw, vec![1, 2]);
    // An output that is gone is not drawn any more.
    let mut e = CastEffects::new();
    s.on_pw_msg(PwToState::Redraw { stream_id: CastStreamId(10) }, &vec![1], &mut e);
    assert!(e.redraw.is_empty());
    let mut e = CastEffects::new();
    s.on_pw_msg(PwToState::StopCast { session_id: CastSessionId(1) }, &vec![1, 2], &mut e);
    assert_eq!(s.screencasting.casts.len(), 1);
    s.screencasting.pipewire = true;
    s.on_pw_msg(PwToState::FatalError, &vec![1, 2], &mut e);
    assert!(s.screencasting.casts.is_empty());
    assert!(!s.screencasting.pipewire);
}

#[test]
fn casts_are_measured_by_their_target() {
    let mut s = state();
    let mut e = CastEffects::new();
    let start = |target| ScreenCastToState::StartCast {
        session_id: CastSessionId(5),
        stream_id: CastStreamId(6),
        target,
        cursor_mode: CursorMode::Metadata,
    };
    let r = s.on_screen_cast_msg(start(StreamTargetId::Output { name: "DP-1".to_string() }), &mut e).unwrap();
    assert_eq!(r.size, Size::new(1080, 1920));
    assert_eq!(r.refresh, 60000);
    assert_eq!(r.target, CastTarget::output(&s.space.outputs[1]));
    let r = s.on_screen_cast_msg(start(StreamTargetId::Window { id: 1 }), &mut e).unwrap();
    assert_eq!(r.size, Size::new(1080, 1920));
    assert!(s.on_screen_cast_msg(start(StreamTargetId::Window { id: 2 }), &mut e).is_none());
    assert!(s.on_screen_cast_msg(start(StreamTargetId::Output { name: "HDMI".to_string() }), &mut e).is_none());
    assert_eq!(e.stop_sessions.len(), 2);
    assert_eq!(cast_params_for_output(&s.space.outputs[1]), (Size::new(1080, 1920), 60000));
}

#[test]
fn a_started_cast_is_kept() {
    let mut s = state();
    let mut e = CastEffects::new();
    let msg = ScreenCastToState::StartCast {
        session_id: CastSessionId(5),
        stream_id: CastStreamId(6),
        target: StreamTargetId::Output { name: "DP-1".to_string() },
        cursor_mode: CursorMode::Hidden,
    };
    let r = s.on_screen_cast_msg(msg, &mut e).unwrap();
    s.finish_start_cast(r, StartOutcome::Started { active: true }, &mut e);
    assert_eq!(s.screencasting.casts.len(), 1);
    assert_eq!(s.screencasting.casts[0].stream_id, CastStreamId(6));
    assert!(s.screencasting.casts[0].active);
    s.set_dynamic_cast_target(CastStreamId(6), CastTarget::Window { id: 1 });
    let mut e = CastEffects::new();
    s.on_screen_cast_msg(ScreenCastToState::StopCast { session_id: CastSessionId(5) }, &mut e);
    assert!(s.screencasting.casts.is_empty());
    assert_eq!(e.disconnect, vec![CastStreamId(6)]);
}

#[test]
fn pending_casts_start_with_nothing() {
    let mut s = state();
    s.screencasting.pending_dynamic_casts =
        vec![PendingCast { session_id: CastSessionId(3), stream_id: CastStreamId(30), cursor_mode: CursorMode::Hidden }];
    let r = s.start_pending_dynamic_casts();
    assert_eq!(r[0].target, CastTarget::Nothing);
    assert_eq!(r[0].size, Size::new(1920, 1080));
    assert!(s.screencasting.pending_dynamic_casts.is_empty());
    s.space.outputs.clear();
    s.screencasting.pending_dynamic_casts =
        vec![PendingCast { session_id: CastSessionId(3), stream_id: CastStreamId(30), cursor_mode: CursorMode::Hidden }];
    assert_eq!(s.start_pending_dynamic_casts()[0].refresh, 60000);
}

#[test]
fn frames_go_step_by_step() {
    let s = state();
    let c = cast(1, 10, on_output(1));
    assert_eq!(c.render_for_output(1, FrameEvent::Begin), FrameAction::EnsureSize);
    assert_eq!(c.render_for_output(2, FrameEvent::Begin), FrameAction::Skip);
    assert_eq!(c.render_for_output(1, FrameEvent::Sized { check: SizeCheck::Ready }), FrameAction::CheckTime);
    assert_eq!(c.render_for_output(1, FrameEvent::Sized { check: SizeCheck::Pending }), FrameAction::Skip);
    assert_eq!(
        c.render_for_output(1, FrameEvent::Sized { check: SizeCheck::Failed }),
        FrameAction::Stop { session_id: CastSessionId(1) }
    );
    assert_eq!(
        c.render_for_output(1, FrameEvent::Timed { limited: false }),
        FrameAction::Render { embed_cursor: true }
    );
    assert_eq!(c.render_for_output(1, FrameEvent::Offered { rendered: false }), FrameAction::Finish { taken: false, schedule: true });
    assert_eq!(cast(1, 1, CastTarget::Window { id: 7 }).render_for_window(&s.space, FrameEvent::Begin), FrameAction::Clear);
    assert_eq!(cast(1, 1, CastTarget::Window { id: 2 }).render_for_window(&s.space, FrameEvent::Begin), FrameAction::Skip);
    assert_eq!(
        cast(1, 1, CastTarget::Window { id: 1 }).render_for_window(&s.space, FrameEvent::Begin),
        FrameAction::EnsureSize
    );
    assert_eq!(
        cast(1, 1, CastTarget::Window { id: 7 }).render_for_window(&s.space, FrameEvent::Offered { rendered: true }),
        FrameAction::Finish { taken: true, schedule: false }
    );
}

fn outcome(check: SizeCheck, limited: bool, taken: Option<u128>) -> FrameOutcome {
    FrameOutcome { check, limited, taken }
}

#[test]
fn frames_are_noted_and_failures_end_sessions() {
    let mut s = state();
    s.screencasting.casts = vec![
        cast(1, 10, on_output(1)),
        cast(2, 20, on_output(2)),
        cast(3, 30, on_output(1)),
        cast(4, 40, on_output(1)),
    ];
    let outcomes = vec![
        outcome(SizeCheck::Ready, false, Some(77)),
        outcome(SizeCheck::Failed, false, None),
        outcome(SizeCheck::Failed, false, None),
        outcome(SizeCheck::Ready, true, Some(78)),
    ];
    let mut e = CastEffects::new();
    s.render_for_screen_cast(1, &outcomes, &mut e);
    let times: Vec<(u64, u128)> = s.screencasting.casts.iter().map(|c| (c.session_id.get(), c.last_frame_time)).collect();
    assert_eq!(times, vec![(1, 77), (2, 0), (4, 0)]);
    assert_eq!(e.disconnect, vec![CastStreamId(30)]);
    assert_eq!(e.stop_sessions, vec!["/org/gnome/Mutter/ScreenCast/Session/u3".to_string()]);

    let mut casts = Screencasting::new_stub();
    casts.casts = vec![cast(1, 10, on_output(1))];
    let ids = render_for_screen_cast_inner(&mut casts, 1, &vec![outcome(SizeCheck::Failed, false, None)]);
    assert_eq!(ids, vec![CastSessionId(1)]);
    assert_eq!(casts.casts.len(), 1);
}

#[test]
fn lost_windows_are_cleared() {
    let mut s = state();
    s.screencasting.casts = vec![
        cast(1, 10, CastTarget::Window { id: 7 }),
        cast(2, 20, CastTarget::Window { id: 2 }),
        cast(3, 30, CastTarget::Window { id: 1 }),
    ];
    let outcomes = vec![outcome(SizeCheck::Failed, true, Some(5)); 3];
    let mut e = CastEffects::new();
    s.render_windows_for_screen_cast(&outcomes, &mut e);
    let times: Vec<(u64, u128)> = s.screencasting.casts.iter().map(|c| (c.session_id.get(), c.last_frame_time)).collect();
    assert_eq!(times, vec![(1, 5), (2, 0)]);
}

#[test]
fn connections_stay_when_streams_do_not_start() {
    for (result, connected) in [
        (StartOutcome::NotConnected, false),
        (StartOutcome::NoFormats, true),
        (StartOutcome::NotStarted, true),
        (StartOutcome::Started { active: false }, true),
    ] {
        let mut s = state();
        let mut e = CastEffects::new();
        let msg = ScreenCastToState::StartCast {
            session_id: CastSessionId(5),
            stream_id: CastStreamId(6),
            target: StreamTargetId::Output { name: "DP-1".to_string() },
            cursor_mode: CursorMode::Hidden,
        };
        let r = s.on_screen_cast_msg(msg, &mut e).unwrap();
        s.finish_start_cast(r, result, &mut e);
        assert_eq!(s.screencasting.pipewire, connected);
        assert_eq!(e.stop_sessions.is_empty(), matches!(result, StartOutcome::Started { .. }));
    }
}
