//! Requests of xdg-shell clients.
use vstd::prelude::*;
use crate::actions::DecorationMode;
use crate::animation::{Animation, SpringTimes};
use crate::config::AnimationsConfig;
use crate::float::{F64, ONE_BITS};
use crate::geometry::{Point, Rect, Size};
use crate::shell::closing_window::PointF;
use crate::shell::grabs::{
    anchor_fits, anchored, anchored_location, ResizeData, ResizeEdge, ResizeGrab, ResizeState,
};
use crate::shortcuts::ModifiersState;
use crate::state::{Space, Window};

verus! {

/// What is known of a grab that a client refers to.
#[derive(Clone, Copy, Debug, PartialEq, Eq, Structural)]
pub struct GrabFacts {
    /// Whether the device is grabbed under the client's serial.
    pub has_grab: bool,
    /// Whether the client's surface belongs to a window.
    pub window_known: bool,
    /// Whether the grab began on a surface of the same client.
    pub same_client: bool,
}

/// Which device a request takes over.
#[derive(Clone, Copy, Debug, PartialEq, Eq, Structural)]
pub enum GrabDevice {
    /// None: the request is ignored.
    Ignored,
    Touch,
    Pointer,
}

/// The device that a request takes over: the touch screen where that is
/// grabbed, else the pointer; none where the window is gone or the grab began
/// with another client.
pub open spec fn grabbed_device(touch: Option<GrabFacts>, pointer: GrabFacts) -> GrabDevice {
    if touch matches Some(t) && t.has_grab {
        if touch->0.window_known && touch->0.same_client {
            GrabDevice::Touch
        } else {
            GrabDevice::Ignored
        }
    } else if pointer.has_grab && pointer.window_known && pointer.same_client {
        GrabDevice::Pointer
    } else {
        GrabDevice::Ignored
    }
}

fn find_grabbed_device(touch: Option<GrabFacts>, pointer: GrabFacts) -> (d: GrabDevice)
    ensures
        d == grabbed_device(touch, pointer),
{
    match touch {
        Some(t) => {
            if t.has_grab {
                if t.window_known && t.same_client {
                    return GrabDevice::Touch;
                }
                return GrabDevice::Ignored;
            }
        },
        None => {},
    }
    if pointer.has_grab && pointer.window_known && pointer.same_client {
        GrabDevice::Pointer
    } else {
        GrabDevice::Ignored
    }
}

/// How the move of a window begins.
#[derive(Clone, Copy, Debug, PartialEq, Eq, Structural)]
pub struct MoveStart {
    pub device: GrabDevice,
    pub initial_window_location: Point,
    /// Whether the client has to know that it is not maximized any more.
    pub configure: bool,
}

/// A client asks to move its window, which is at `location`. The window leaves
/// the maximized state for that, and starts where the device is then: the finger
/// where it came down, or the pointer.
pub fn move_request_xdg(
    touch: Option<GrabFacts>,
    pointer: GrabFacts,
    state: &mut ToplevelState,
    location: Point,
    finger_at: PointF,
    pointer_at: PointF,
) -> (r: Option<MoveStart>)
    ensures
        ({
            let device = grabbed_device(touch, pointer);
            if device is Ignored {
                r is None && *final(state) == *old(state)
            } else {
                let at = if device is Touch {
                    finger_at
                } else {
                    pointer_at
                };
                &&& *final(state) == (if old(state).maximized {
                    old(state).unmaximized()
                } else {
                    *old(state)
                })
                &&& r == Some(
                    MoveStart {
                        device,
                        initial_window_location: start_of(
                            location,
                            old(state).maximized,
                            device is Touch,
                            at.x,
                            at.y,
                        ),
                        configure: old(state).maximized,
                    },
                )
            }
        }),
{
    let device = find_grabbed_device(touch, pointer);
    let at = match device {
        GrabDevice::Ignored => {
            return None;
        },
        GrabDevice::Touch => finger_at,
        GrabDevice::Pointer => pointer_at,
    };
    let by_touch = device == GrabDevice::Touch;
    let configure = state.leave_maximized();
    Some(
        MoveStart {
            device,
            initial_window_location: move_start(location, configure, by_touch, at.x, at.y),
            configure,
        },
    )
}

/// How the resize of a window begins.
#[derive(Clone, Copy, Debug, PartialEq, Eq, Structural)]
pub struct ResizeStart {
    pub device: GrabDevice,
    pub state: ResizeState,
    pub grab: ResizeGrab,
}

/// A client asks to resize its window, which is at `location` and has this size,
/// by the edges of a protocol value. Where a modifier is configured for it, a
/// client may resize only while that is held.
pub fn resize_request(
    resize_modifier: &str,
    modifiers: &ModifiersState,
    touch: Option<GrabFacts>,
    pointer: GrabFacts,
    edges: u32,
    location: Point,
    size: Size,
) -> (r: Option<ResizeStart>)
    ensures
        r == ({
            let device = grabbed_device(touch, pointer);
            let data = ResizeData {
                edges: ResizeEdge::of_protocol(edges),
                initial_window_location: location,
                initial_window_size: size,
            };
            if device is Ignored || (resize_modifier@.len() > 0 && !modifiers.holds_gesture(
                resize_modifier@,
            )) {
                None
            } else {
                Some(
                    ResizeStart {
                        device,
                        state: ResizeState::Resizing(data),
                        grab: ResizeGrab::begun(data),
                    },
                )
            }
        }),
{
    if !resize_modifier.is_empty() && !modifiers.is_gesture_held(resize_modifier) {
        return None;
    }
    let device = find_grabbed_device(touch, pointer);
    match device {
        GrabDevice::Ignored => None,
        _ => {
            let edges = ResizeEdge::from_protocol(edges);
            Some(
                ResizeStart {
                    device,
                    state: begin_resize(edges, location, size),
                    grab: ResizeGrab::new(edges, location, size),
                },
            )
        },
    }
}

/// Where a moved window starts from: where it is, or, if it has to leave the
/// maximized state for that, where the device is. The place of a finger is
/// rounded, that of the pointer cut.
pub open spec fn start_of(
    location: Point,
    was_maximized: bool,
    by_touch: bool,
    x: F64,
    y: F64,
) -> Point {
    if !was_maximized {
        location
    } else if by_touch {
        Point { x: x.rounded() as i32, y: y.rounded() as i32 }
    } else {
        Point { x: x.truncated() as i32, y: y.truncated() as i32 }
    }
}

/// Where a moved window starts from.
pub fn move_start(location: Point, was_maximized: bool, by_touch: bool, x: F64, y: F64) -> (p: Point)
    ensures
        p == start_of(location, was_maximized, by_touch, x, y),
{
    if !was_maximized {
        location
    } else if by_touch {
        Point { x: x.round_i32(), y: y.round_i32() }
    } else {
        Point { x: x.trunc_i32(), y: y.trunc_i32() }
    }
}

/// The state of a window whose resize begins.
pub fn begin_resize(edges: ResizeEdge, location: Point, size: Size) -> (s: ResizeState)
    ensures
        s == ResizeState::Resizing(
            ResizeData {
                edges,
                initial_window_location: location,
                initial_window_size: size,
            },
        ),
{
    ResizeState::Resizing(
        ResizeData { edges, initial_window_location: location, initial_window_size: size },
    )
}

/// Half of a difference, rounded towards zero.
pub open spec fn half(d: int) -> int {
    if d >= 0 {
        d / 2
    } else {
        -((-d) / 2)
    }
}

/// Where a window goes to be in the middle of an area.
pub open spec fn centered(area: Rect, geometry: Rect) -> (int, int) {
    (
        area.loc.x + half(area.size.w - geometry.size.w) - geometry.loc.x,
        area.loc.y + half(area.size.h - geometry.size.h) - geometry.loc.y,
    )
}

fn halve(d: i64) -> (r: i64)
    requires
        -0x1_0000_0000 <= d <= 0x1_0000_0000,
    ensures
        r == half(d as int),
{
    if d >= 0 {
        d / 2
    } else {
        -((-d) / 2)
    }
}

/// Where a window goes to be in the middle of an area.
pub fn center(area: Rect, geometry: Rect) -> (p: Point)
    requires
        i32::MIN <= centered(area, geometry).0 <= i32::MAX,
        i32::MIN <= centered(area, geometry).1 <= i32::MAX,
    ensures
        (p.x as int, p.y as int) == centered(area, geometry),
{
    let x: i64 = area.loc.x as i64 + halve(area.size.w as i64 - geometry.size.w as i64)
        - geometry.loc.x as i64;
    let y: i64 = area.loc.y as i64 + halve(area.size.h as i64 - geometry.size.h as i64)
        - geometry.loc.y as i64;
    Point { x: x as i32, y: y as i32 }
}

/// A centered window has as much room on either side, to a pixel.
pub proof fn center_is_middle(area: Rect, geometry: Rect)
    ensures
        ({
            let left = centered(area, geometry).0 + geometry.loc.x - area.loc.x;
            let right = area.loc.x + area.size.w - (centered(area, geometry).0 + geometry.loc.x
                + geometry.size.w);
            -1 <= right - left <= 1
        }),
{
}

/// What a commit of a window asks for.
#[derive(Clone, Copy, Debug, PartialEq, Eq, Structural)]
pub enum CommitAction {
    /// Nothing.
    Keep,
    /// Move the window to the middle, show it, and play its opening animation
    /// from the start.
    Center { to: Point },
    /// Move the window, so that the edge opposite to the dragged one stays.
    Relocate { to: Point },
}

/// What is known of a window at a commit.
#[derive(Clone, Copy, Debug, PartialEq, Eq, Structural)]
pub struct CommitFacts {
    pub location: Point,
    /// The window's own geometry.
    pub geometry: Rect,
    /// The part of its output that it may take.
    pub area: Option<Rect>,
    /// Whether the surface still waits for a commit that gives it a size.
    pub needs_center: bool,
    /// Whether the window is kept from being drawn until it is in the middle.
    pub undrawn: bool,
    pub open_animation: Option<Animation>,
    pub resize_state: ResizeState,
}

/// What a commit makes of a window.
#[derive(Clone, Copy, Debug, PartialEq, Eq, Structural)]
pub struct CommitResult {
    pub action: CommitAction,
    /// Whether the surface still waits for a commit that gives it a size.
    pub needs_center: bool,
    /// Whether the window is still kept from being drawn.
    pub undrawn: bool,
    /// The opening animation; it plays from the start once the window is drawn.
    pub open_animation: Option<Animation>,
}

impl CommitFacts {
    /// A window is centered at the first commit that gives it a size.
    pub open spec fn centers(self) -> bool {
        self.needs_center && self.geometry.size.w > 0 && self.geometry.size.h > 0
    }

    pub open spec fn action(self) -> CommitAction {
        if self.centers() && self.area is Some {
            let (x, y) = centered(self.area->0, self.geometry);
            CommitAction::Center { to: Point { x: x as i32, y: y as i32 } }
        } else {
            match self.resize_state {
                ResizeState::Resizing(data) => match anchored(
                    data,
                    self.location,
                    self.geometry.size,
                ) {
                    Some(to) => CommitAction::Relocate { to },
                    None => CommitAction::Keep,
                },
                _ => CommitAction::Keep,
            }
        }
    }

    /// Whether the locations that a commit leads to can be computed.
    pub open spec fn fits(self) -> bool {
        &&& self.area matches Some(area) ==> i32::MIN <= centered(area, self.geometry).0 <= i32::MAX
            && i32::MIN <= centered(area, self.geometry).1 <= i32::MAX
        &&& self.resize_state matches ResizeState::Resizing(data) ==> anchor_fits(
            data,
            self.geometry.size,
        )
    }
}

/// What a commit makes of a toplevel. The first commit that gives it a size ends
/// the wait of its surface; the window is drawn only once it is in the middle of
/// an output, and where there is none it stays undrawn. `times` are those of the
/// spring of the opening animation, if it is one.
pub fn handle_toplevel_commit(facts: &CommitFacts, times: SpringTimes, now: u128) -> (r: CommitResult)
    requires
        facts.fits(),
    ensures
        r.action == facts.action(),
        r.needs_center == (facts.needs_center && !facts.centers()),
        r.undrawn == (facts.undrawn && !(r.action is Center)),
        match facts.open_animation {
            Some(anim) if r.action is Center => r.open_animation matches Some(a) && anim.restarts_as(
                F64 { bits: 0 },
                F64 { bits: ONE_BITS },
                F64 { bits: 0 },
                times,
                now,
                a,
            ),
            _ => r.open_animation == facts.open_animation,
        },
{
    let centers = facts.needs_center && facts.geometry.size.w > 0 && facts.geometry.size.h > 0;
    let needs_center = facts.needs_center && !centers;
    if centers {
        match facts.area {
            Some(area) => {
                let open_animation = match facts.open_animation {
                    Some(anim) => Some(
                        anim.restarted(
                            F64 { bits: 0 },
                            F64 { bits: ONE_BITS },
                            F64 { bits: 0 },
                            times,
                            now,
                        ),
                    ),
                    None => None,
                };
                return CommitResult {
                    action: CommitAction::Center { to: center(area, facts.geometry) },
                    needs_center,
                    undrawn: false,
                    open_animation,
                };
            },
            None => {},
        }
    }
    let action = match facts.resize_state {
        ResizeState::Resizing(data) => match anchored_location(
            &data,
            facts.location,
            facts.geometry.size,
        ) {
            Some(to) => CommitAction::Relocate { to },
            None => CommitAction::Keep,
        },
        _ => CommitAction::Keep,
    };
    CommitResult {
        action,
        needs_center,
        undrawn: facts.undrawn,
        open_animation: facts.open_animation,
    }
}

/// The part of an output that is left by bars and panels, in global coordinates.
pub fn zone_area(output: Rect, zone: Rect) -> (r: Rect)
    ensures
        r == (Rect { loc: output.loc.plus(zone.loc), size: zone.size }),
{
    Rect { loc: output.loc.offset_by(zone.loc), size: zone.size }
}

/// The opening animation of a new window, where animations are on.
pub fn open_animation(config: &AnimationsConfig, now: u128) -> (a: Option<Animation>)
    ensures
        a == (if config.enable && config.window_open.enable {
            Some(
                Animation::eased(
                    F64 { bits: 0 },
                    F64 { bits: ONE_BITS },
                    config.window_open.duration_ms,
                    config.window_open.curve.curve(),
                    now,
                ),
            )
        } else {
            None
        }),
{
    if config.enable && config.window_open.enable {
        Some(
            Animation::ease(
                F64 { bits: 0 },
                F64 { bits: ONE_BITS },
                config.window_open.duration_ms,
                config.window_open.curve.to_curve(),
                now,
            ),
        )
    } else {
        None
    }
}

/// Whether a commit is the moment to keep a picture of a window for its closing
/// animation: its contents go away, there is none yet, and such animations are on.
pub fn wants_close_snapshot(unmapped: bool, has_snapshot: bool, config: &AnimationsConfig) -> (r:
    bool)
    ensures
        r == (unmapped && !has_snapshot && config.enable && config.window_close.enable),
{
    unmapped && !has_snapshot && config.enable && config.window_close.enable
}

/// What becomes of a window whose surface is gone.
#[derive(Clone, Copy, Debug, PartialEq, Eq, Structural)]
pub enum DestroyStep {
    /// The window is not shown; there is nothing to do.
    Ignore,
    /// Animate the picture that was kept.
    AnimateSnapshot,
    /// Try to take a picture now.
    CaptureNow,
    /// Take the window away.
    Unmap,
    /// Take the window away and redraw its output, where the animation runs.
    UnmapAndRedraw,
}

/// What to do first when a toplevel is destroyed.
pub fn toplevel_destroyed(mapped: bool, on_output: bool, has_snapshot: bool) -> (s: DestroyStep)
    ensures
        s == (if !mapped || !on_output {
            DestroyStep::Ignore
        } else if has_snapshot {
            DestroyStep::AnimateSnapshot
        } else {
            DestroyStep::CaptureNow
        }),
{
    if !mapped || !on_output {
        DestroyStep::Ignore
    } else if has_snapshot {
        DestroyStep::AnimateSnapshot
    } else {
        DestroyStep::CaptureNow
    }
}

/// What to do once the closing animation was tried.
pub fn after_close_animation(started: bool) -> (s: DestroyStep)
    ensures
        s == (if started {
            DestroyStep::UnmapAndRedraw
        } else {
            DestroyStep::Unmap
        }),
{
    if started {
        DestroyStep::UnmapAndRedraw
    } else {
        DestroyStep::Unmap
    }
}

/// What is known of a device that a popup wants to grab.
#[derive(Clone, Copy, Debug, PartialEq, Eq, Structural)]
pub struct PopupDevice {
    pub is_grabbed: bool,
    /// Whether the grab is the popup's own or that of the popup before it.
    pub grabbed_by_popup: bool,
}

impl PopupDevice {
    /// Whether someone else holds the device.
    pub open spec fn taken(self) -> bool {
        self.is_grabbed && !self.grabbed_by_popup
    }
}

/// What becomes of a popup's grab.
#[derive(Clone, Copy, Debug, PartialEq, Eq, Structural)]
pub enum PopupGrab {
    /// The keyboard is taken: all popups are dismissed.
    Dismiss,
    /// The keyboard was grabbed, but the pointer is taken: all popups are dismissed.
    DismissAfterKeyboard,
    /// The devices that there are were grabbed.
    Grab { keyboard: bool, pointer: bool },
}

/// What becomes of a popup's grab, the keyboard first.
pub fn grab_popup(keyboard: Option<PopupDevice>, pointer: Option<PopupDevice>) -> (g: PopupGrab)
    ensures
        g == (if keyboard matches Some(k) && k.taken() {
            PopupGrab::Dismiss
        } else if pointer matches Some(p) && p.taken() {
            if keyboard is Some {
                PopupGrab::DismissAfterKeyboard
            } else {
                PopupGrab::Dismiss
            }
        } else {
            PopupGrab::Grab { keyboard: keyboard is Some, pointer: pointer is Some }
        }),
{
    match keyboard {
        Some(k) => {
            if k.is_grabbed && !k.grabbed_by_popup {
                return PopupGrab::Dismiss;
            }
        },
        None => {},
    }
    match pointer {
        Some(p) => {
            if p.is_grabbed && !p.grabbed_by_popup {
                return if keyboard.is_some() {
                    PopupGrab::DismissAfterKeyboard
                } else {
                    PopupGrab::Dismiss
                };
            }
        },
        None => {},
    }
    PopupGrab::Grab { keyboard: keyboard.is_some(), pointer: pointer.is_some() }
}

/// The rectangle around the last of some rectangles and the first `upto` of them.
pub open spec fn union_upto(rects: Seq<Rect>, upto: int) -> Rect
    decreases upto,
{
    if upto <= 0 {
        rects.last()
    } else {
        union_upto(rects, upto - 1).joined(rects[upto - 1])
    }
}

/// The rectangle that a popup has to stay in, relative to its parent: that
/// around all outputs of its window. `None` where there is no output.
pub fn popup_target(outputs: &Vec<Rect>, popup_offset: Point, window: Point) -> (r: Option<Rect>)
    ensures
        r == (if outputs@.len() == 0 {
            None
        } else {
            let all = union_upto(outputs@, outputs@.len() - 1);
            Some(Rect { loc: all.loc.minus(popup_offset).minus(window), size: all.size })
        }),
{
    if outputs.len() == 0 {
        return None;
    }
    let last: usize = outputs.len() - 1;
    let mut all = outputs[last];
    let mut i: usize = 0;
    while i < last
        invariant
            i <= last == outputs@.len() - 1,
            all == union_upto(outputs@, i as int),
        decreases last - i,
    {
        all = all.merge(&outputs[i]);
        i = i + 1;
    }
    Some(Rect { loc: all.loc.relative_to(popup_offset).relative_to(window), size: all.size })
}

/// The position of the output that a window is maximized on: the first that it
/// is on, else the first of all.
pub open spec fn maximize_output(space: Space, window: Window, at: int) -> bool {
    if window.outputs@.len() > 0 {
        space.output_at(window.outputs@[0], at)
    } else {
        at == 0 && space.outputs@.len() > 0
    }
}

/// Where a maximized window goes: it takes the whole of its output.
pub fn maximize_target(space: &Space, window: &Window) -> (r: Option<Rect>)
    ensures
        forall|at: int| #[trigger]
            maximize_output(*space, *window, at) ==> r == space.outputs@[at].geometry,
        (forall|at: int| !#[trigger] maximize_output(*space, *window, at)) ==> r is None,
{
    if window.outputs.len() > 0 {
        match space.find_output(window.outputs[0]) {
            Some(i) => {
                assert(maximize_output(*space, *window, i as int));
                assert(forall|at: int|
                    #[trigger] maximize_output(*space, *window, at) ==> at == i);
                space.outputs[i].geometry
            },
            None => None,
        }
    } else if space.outputs.len() > 0 {
        assert(maximize_output(*space, *window, 0));
        space.outputs[0].geometry
    } else {
        None
    }
}

/// What a toplevel is to become with the next configure.
#[derive(Clone, Copy, Debug, PartialEq, Eq, Structural)]
pub struct ToplevelState {
    pub maximized: bool,
    pub fullscreen: bool,
    /// Whether all four edges count as tiled.
    pub tiled: bool,
    /// The size; the client's own choice where there is none.
    pub size: Option<Size>,
    /// The output that the client sees its window fullscreen on.
    pub fullscreen_output: Option<u64>,
}

impl ToplevelState {
    /// A toplevel that is new. Where clients are not to decorate themselves, its
    /// edges count as tiled.
    pub fn new(prefer_no_csd: bool) -> (s: ToplevelState)
        ensures
            s == (ToplevelState {
                maximized: false,
                fullscreen: false,
                tiled: prefer_no_csd,
                size: None,
                fullscreen_output: None,
            }),
    {
        ToplevelState {
            maximized: false,
            fullscreen: false,
            tiled: prefer_no_csd,
            size: None,
            fullscreen_output: None,
        }
    }

    pub open spec fn maximized_to(self, size: Size) -> ToplevelState {
        ToplevelState { maximized: true, size: Some(size), ..self }
    }

    pub open spec fn unmaximized(self) -> ToplevelState {
        ToplevelState { maximized: false, size: None, ..self }
    }

    pub open spec fn fullscreen_on(self, size: Size, output: Option<u64>) -> ToplevelState {
        ToplevelState { fullscreen: true, size: Some(size), fullscreen_output: output, ..self }
    }

    pub open spec fn unfullscreened(self) -> ToplevelState {
        ToplevelState { fullscreen: false, size: None, fullscreen_output: None, ..self }
    }

    /// Maximizes a window. It goes to the place that is handed back, on top.
    pub fn maximize_request(&mut self, space: &Space, window: &Window) -> (to: Point)
        requires
            exists|at: int| #[trigger]
                maximize_output(*space, *window, at) && space.outputs@[at].geometry is Some,
        ensures
            forall|at: int| #[trigger]
                maximize_output(*space, *window, at) ==> *final(self) == old(self).maximized_to(
                    space.outputs@[at].geometry->0.size,
                ) && to == space.outputs@[at].geometry->0.loc,
    {
        let target = maximize_target(space, window).unwrap();
        self.maximized = true;
        self.size = Some(target.size);
        target.loc
    }

    /// Lets a window leave the maximized state.
    pub fn unmaximize_request(&mut self)
        ensures
            *final(self) == old(self).unmaximized(),
    {
        self.maximized = false;
        self.size = None;
    }

    /// Leaves the maximized state for a move. Tells whether there was anything
    /// to leave, so that the client has to know.
    pub fn leave_maximized(&mut self) -> (changed: bool)
        ensures
            changed == old(self).maximized,
            *final(self) == (if old(self).maximized {
                old(self).unmaximized()
            } else {
                *old(self)
            }),
    {
        let changed = self.maximized;
        if changed {
            self.unmaximize_request();
        }
        changed
    }

    /// Makes a window fullscreen, where there is an output for that: the one
    /// that was asked for, else the first. It is handed back. `client_output` is
    /// what the client knows that output by, if it does.
    pub fn fullscreen_request(
        &mut self,
        geometry: Option<Rect>,
        requested: Option<u64>,
        client_output: Option<u64>,
        space: &Space,
    ) -> (output: Option<u64>)
        requires
            geometry is Some && requested is None ==> space.outputs@.len() > 0,
        ensures
            geometry is None ==> *final(self) == *old(self) && output is None,
            geometry is Some ==> {
                &&& *final(self) == old(self).fullscreen_on(
                    geometry->0.size,
                    if client_output is Some {
                        client_output
                    } else {
                        requested
                    },
                )
                &&& output == Some(
                    if requested is Some {
                        requested->0
                    } else {
                        space.outputs@[0].id
                    },
                )
            },
    {
        let geometry = match geometry {
            Some(geometry) => geometry,
            None => {
                return None;
            },
        };
        let output: u64 = match requested {
            Some(id) => id,
            None => space.outputs[0].id,
        };
        self.fullscreen = true;
        self.size = Some(geometry.size);
        self.fullscreen_output = match client_output {
            Some(id) => Some(id),
            None => requested,
        };
        Some(output)
    }

    /// Lets a window leave the fullscreen state. The output that it was
    /// fullscreen on is handed back: nothing is fullscreen there any more.
    pub fn unfullscreen_request(&mut self) -> (output: Option<u64>)
        ensures
            *final(self) == old(self).unfullscreened(),
            output == old(self).fullscreen_output,
    {
        let output = self.fullscreen_output;
        self.fullscreen = false;
        self.size = None;
        self.fullscreen_output = None;
        output
    }
}

/// A window that is maximized and then not any more is as it was, and so is one
/// that is fullscreen and then not any more.
pub proof fn leaving_undoes_entering(state: ToplevelState, size: Size, output: Option<u64>)
    requires
        state.size is None,
    ensures
        !state.maximized ==> state.maximized_to(size).unmaximized() == state,
        !state.fullscreen && state.fullscreen_output is None ==> state.fullscreen_on(
            size,
            output,
        ).unfullscreened() == state,
{
}

/// Whether a window with this acknowledged mode is decorated here.
pub fn is_ssd(mode: Option<DecorationMode>) -> (r: bool)
    ensures
        r == (mode == Some(DecorationMode::ServerSide)),
{
    match mode {
        Some(DecorationMode::ServerSide) => true,
        _ => false,
    }
}

/// A request is granted to the device that is grabbed for it, by the client that
/// asks and on a window that is known. A finger that holds the grab decides, also
/// against the request.
pub proof fn grabs_are_for_their_client(touch: Option<GrabFacts>, pointer: GrabFacts)
    ensures
        grabbed_device(touch, pointer) is Touch <==> touch is Some && touch->0.has_grab
            && touch->0.window_known && touch->0.same_client,
        touch is Some && touch->0.has_grab ==> !(grabbed_device(touch, pointer) is Pointer),
        touch is None || !touch->0.has_grab ==> (grabbed_device(touch, pointer) is Pointer
            <==> pointer.has_grab && pointer.window_known && pointer.same_client),
        !pointer.has_grab && touch is None ==> grabbed_device(touch, pointer) is Ignored,
        !pointer.same_client && touch is None ==> grabbed_device(touch, pointer) is Ignored,
        !pointer.window_known && touch is None ==> grabbed_device(touch, pointer) is Ignored,
{
}

/// A window that is moved starts from where it is, and a maximized one from what
/// moves it.
pub proof fn moves_start_at_the_window(location: Point, by_touch: bool, x: F64, y: F64)
    ensures
        start_of(location, false, by_touch, x, y) == location,
        start_of(location, true, true, x, y).x == x.rounded() as i32,
        start_of(location, true, true, x, y).y == y.rounded() as i32,
        start_of(location, true, false, x, y).x == x.truncated() as i32,
        start_of(location, true, false, x, y).y == y.truncated() as i32,
{
}

/// A window in the middle has as much room on its left as on its right, and above
/// as below, to within one.
pub proof fn centered_windows_have_equal_room(area: Rect, geometry: Rect)
    ensures
        ({
            let (x, y) = centered(area, geometry);
            let left = x + geometry.loc.x - area.loc.x;
            let right = area.loc.x + area.size.w - (x + geometry.loc.x + geometry.size.w);
            let above = y + geometry.loc.y - area.loc.y;
            let below = area.loc.y + area.size.h - (y + geometry.loc.y + geometry.size.h);
            &&& -1 <= right - left <= 1
            &&& -1 <= below - above <= 1
        }),
{
}

/// A window goes to the middle with the first picture that gives it a size and
/// not again; after that only a drag of its left or top edge moves it.
pub proof fn commits_move_for_a_reason(f: CommitFacts)
    requires
        f.fits(),
    ensures
        f.action() is Center <==> f.needs_center && f.geometry.size.w > 0 && f.geometry.size.h > 0
            && f.area is Some,
        f.action() matches CommitAction::Center { to } ==> (to.x as int, to.y as int) == centered(
            f.area->0,
            f.geometry,
        ),
        f.action() is Relocate ==> f.resize_state is Resizing,
        f.action() is Relocate <==> !(f.action() is Center) && (
        f.resize_state matches ResizeState::Resizing(d) && (d.edges.left || d.edges.top)),
        f.resize_state matches ResizeState::Resizing(d) ==> (f.action() is Relocate ==> (d.edges.left
            ==> (f.action()->Relocate_to).x + f.geometry.size.w == d.initial_window_location.x
            + d.initial_window_size.w) && (d.edges.top ==> (f.action()->Relocate_to).y
            + f.geometry.size.h == d.initial_window_location.y + d.initial_window_size.h) && (
        !d.edges.left ==> (f.action()->Relocate_to).x == f.location.x) && (!d.edges.top
            ==> (f.action()->Relocate_to).y == f.location.y)),
{
}

/// A popup may not take a device that something else has.
pub proof fn devices_are_taken_by_others(d: PopupDevice)
    ensures
        d.taken() ==> d.is_grabbed && !d.grabbed_by_popup,
        d.is_grabbed && d.grabbed_by_popup ==> !d.taken(),
        !d.is_grabbed ==> !d.taken(),
        d.is_grabbed && !d.grabbed_by_popup ==> d.taken(),
{
}

/// A window is maximized on the first output that it is on, and on the first of
/// all where it is on none.
pub proof fn windows_are_maximized_where_they_are(space: Space, window: Window, at: int)
    ensures
        window.outputs@.len() == 0 ==> (maximize_output(space, window, at) <==> at == 0
            && space.outputs@.len() > 0),
        window.outputs@.len() > 0 ==> (maximize_output(space, window, at) <==> space.output_at(
            window.outputs@[0],
            at,
        )),
{
}

/// What a client is told of its window: maximized and fullscreen are apart, both
/// come with a size, and what ends either leaves the size to the client.
pub proof fn states_are_apart(s: ToplevelState, size: Size, output: Option<u64>)
    ensures
        s.maximized_to(size).maximized && s.maximized_to(size).size == Some(size)
            && s.maximized_to(size).fullscreen == s.fullscreen,
        !s.unmaximized().maximized && s.unmaximized().size is None && s.unmaximized().fullscreen
            == s.fullscreen,
        s.fullscreen_on(size, output).fullscreen && s.fullscreen_on(size, output).size == Some(size)
            && s.fullscreen_on(size, output).fullscreen_output == output && s.fullscreen_on(
            size,
            output,
        ).maximized == s.maximized,
        !s.unfullscreened().fullscreen && s.unfullscreened().size is None
            && s.unfullscreened().fullscreen_output is None && s.unfullscreened().maximized
            == s.maximized,
        s.maximized_to(size).tiled == s.tiled && s.unmaximized().tiled == s.tiled
            && s.unfullscreened().tiled == s.tiled && s.fullscreen_on(size, output).tiled == s.tiled,
{
}

/// The area of all outputs grows with each of them.
pub proof fn all_outputs_count(rects: Seq<Rect>, upto: int)
    requires
        0 < upto <= rects.len(),
    ensures
        union_upto(rects, upto) == union_upto(rects, upto - 1).joined(rects[upto - 1]),
        union_upto(rects, 0) == rects[rects.len() - 1],
{
}

} // verus!
