//! Pointer, touch and focus: where input goes.
use vstd::prelude::*;
use crate::actions::{output_holding, output_under};
use crate::float::F64;
use crate::geometry::{greater, Point, Size};
use crate::shell::grabs::{
    detach_from_layout, detached, CursorIcon, ResizeData, ResizeEdge, ResizeGrab, ResizeState,
};
use crate::shortcuts::ModifiersState;
use crate::state::{Output, Space, Window};
use crate::text::{begins_with, starts_with};

verus! {

/// The lines that part a window into thirds, both ways.
#[derive(Clone, Copy, Debug, PartialEq, Eq, Structural)]
pub struct Thirds {
    pub first_x: F64,
    pub second_x: F64,
    pub first_y: F64,
    pub second_y: F64,
}

/// The edges that belong to a place in a window: those of the outer thirds that
/// it is in.
pub open spec fn edges_at(x: F64, y: F64, thirds: Thirds) -> ResizeEdge {
    ResizeEdge {
        left: x.below(thirds.first_x),
        right: !x.below(thirds.first_x) && thirds.second_x.below(x),
        top: y.below(thirds.first_y),
        bottom: !y.below(thirds.first_y) && thirds.second_y.below(y),
    }
}

/// The edges that belong to a place in a window.
pub fn detect_resize_edges(x: F64, y: F64, thirds: &Thirds) -> (e: ResizeEdge)
    ensures
        e == edges_at(x, y, *thirds),
{
    let left = x.lt(thirds.first_x);
    let top = y.lt(thirds.first_y);
    ResizeEdge {
        left,
        right: !left && thirds.second_x.lt(x),
        top,
        bottom: !top && thirds.second_y.lt(y),
    }
}

/// No place belongs to opposite edges, so every place has a cursor of its own.
pub proof fn edges_at_are_sides_or_corners(x: F64, y: F64, thirds: Thirds)
    ensures
        !edges_at(x, y, thirds).opposed(),
        edges_at(x, y, thirds) != ResizeEdge::none() ==> edges_at(x, y, thirds).icon()
            != CursorIcon::Default,
{
}

/// A window under the pointer.
#[derive(Clone, Copy, Debug, PartialEq, Eq, Structural)]
pub struct WindowUnder {
    pub location: Point,
    pub size: Size,
    /// The edges that belong to the place under the pointer.
    pub edges: ResizeEdge,
    pub width_override: Option<F64>,
}

/// When a modifier turns the mouse into a handle for windows.
#[derive(Debug, PartialEq, Eq)]
pub struct GestureFacts {
    /// Whether windows have no frames of their own.
    pub prefer_no_csd: bool,
    /// The modifier to hold, empty for none.
    pub resize_modifier: String,
    pub modifiers: ModifiersState,
    /// Whether a tiling layout is active.
    pub layout_active: bool,
    /// The window under the pointer.
    pub under: Option<WindowUnder>,
}

impl GestureFacts {
    /// Whether the modifier for window gestures is held.
    pub open spec fn ready(self) -> bool {
        self.prefer_no_csd && self.resize_modifier@.len() > 0 && self.modifiers.holds_gesture(
            self.resize_modifier@,
        )
    }

    fn is_ready(&self) -> (r: bool)
        ensures
            r == self.ready(),
    {
        self.prefer_no_csd && !self.resize_modifier.as_str().is_empty()
            && self.modifiers.is_gesture_held(&self.resize_modifier)
    }
}

/// The code of the left mouse button.
pub const LEFT_BUTTON: u32 = 0x110;

/// What a mouse button starts.
#[derive(Clone, Copy, Debug, PartialEq, Eq, Structural)]
pub enum ButtonAction {
    /// The client gets the button.
    Forward,
    /// The width of the window's column is dragged, from this width on.
    ResizeColumn { initial_width: F64 },
    /// The window is dragged to another slot of the layout.
    DragWithinLayout { initial_location: Point },
    /// The window is resized.
    ResizeWindow { data: ResizeData },
    /// The window is moved.
    MoveWindow { initial_location: Point },
}

/// What a gesture on a window starts: in a tiling layout the left and right
/// thirds drag the column's width and the middle drags the window to another
/// slot; else the outer thirds resize and the middle moves.
pub open spec fn gesture(under: WindowUnder, layout_active: bool) -> ButtonAction {
    if layout_active {
        if under.edges.left || under.edges.right {
            ButtonAction::ResizeColumn {
                initial_width: match under.width_override {
                    Some(width) => width,
                    None => F64::of_int(under.size.w as int),
                },
            }
        } else {
            ButtonAction::DragWithinLayout { initial_location: under.location }
        }
    } else if under.edges != ResizeEdge::none() {
        ButtonAction::ResizeWindow {
            data: ResizeData {
                edges: under.edges,
                initial_window_location: under.location,
                initial_window_size: under.size,
            },
        }
    } else {
        ButtonAction::MoveWindow { initial_location: under.location }
    }
}

/// What is grabbed by a gesture.
#[derive(Clone, Copy, Debug, PartialEq, Eq, Structural)]
pub enum GestureGrab {
    /// The width of a column, from this width on.
    Column { initial_width: F64 },
    /// A window, to another slot of the layout.
    LayoutMove { initial_location: Point },
    /// The edges of a window.
    Resize { grab: ResizeGrab },
    /// A window.
    Move { initial_location: Point },
}

/// What a mouse button does.
#[derive(Clone, Copy, Debug, PartialEq, Eq, Structural)]
pub struct ButtonOutcome {
    /// Whether the keyboard focus first goes to what is under the pointer.
    pub update_focus: bool,
    pub action: ButtonAction,
    /// The grab that begins; with none the client gets the button.
    pub grab: Option<GestureGrab>,
}

/// The grab that an action begins.
pub open spec fn grab_of(action: ButtonAction) -> Option<GestureGrab> {
    match action {
        ButtonAction::Forward => None,
        ButtonAction::ResizeColumn { initial_width } => Some(GestureGrab::Column { initial_width }),
        ButtonAction::DragWithinLayout { initial_location } => Some(
            GestureGrab::LayoutMove { initial_location },
        ),
        ButtonAction::ResizeWindow { data } => Some(
            GestureGrab::Resize { grab: ResizeGrab::begun(data) },
        ),
        ButtonAction::MoveWindow { initial_location } => Some(
            GestureGrab::Move { initial_location },
        ),
    }
}

/// The action of a mouse button.
pub open spec fn button_action(facts: GestureFacts, button: u32, pressed: bool) -> ButtonAction {
    if pressed && button == LEFT_BUTTON && facts.ready() && facts.under is Some {
        gesture(facts.under->0, facts.layout_active)
    } else {
        ButtonAction::Forward
    }
}

fn choose_action(facts: &GestureFacts, button: u32, pressed: bool) -> (a: ButtonAction)
    ensures
        a == button_action(*facts, button, pressed),
{
    if !(pressed && button == LEFT_BUTTON && facts.is_ready()) {
        return ButtonAction::Forward;
    }
    let under = match facts.under {
        Some(under) => under,
        None => {
            return ButtonAction::Forward;
        },
    };
    if facts.layout_active {
        if under.edges.left || under.edges.right {
            let initial_width = match under.width_override {
                Some(width) => width,
                None => F64::from_i32(under.size.w),
            };
            ButtonAction::ResizeColumn { initial_width }
        } else {
            ButtonAction::DragWithinLayout { initial_location: under.location }
        }
    } else if !under.edges.is_empty() {
        ButtonAction::ResizeWindow {
            data: ResizeData {
                edges: under.edges,
                initial_window_location: under.location,
                initial_window_size: under.size,
            },
        }
    } else {
        ButtonAction::MoveWindow { initial_location: under.location }
    }
}

/// What a mouse button does. `window` is the one under the pointer, and
/// `resize_state` that of its surface, if it has one; a drag within the layout
/// takes the window out of it, and a resize shows in the state.
pub fn on_pointer_button(
    facts: &GestureFacts,
    button: u32,
    pressed: bool,
    window: &mut Window,
    resize_state: &mut Option<ResizeState>,
) -> (o: ButtonOutcome)
    ensures
        o.update_focus == pressed,
        o.action == button_action(*facts, button, pressed),
        o.grab == grab_of(o.action),
        *final(window) == (if o.action is DragWithinLayout {
            detached(*old(window))
        } else {
            *old(window)
        }),
        *final(resize_state) == (if o.action is ResizeWindow && *old(resize_state) is Some {
            Some(ResizeState::Resizing(o.action->data))
        } else {
            *old(resize_state)
        }),
{
    let action = choose_action(facts, button, pressed);
    let grab = match action {
        ButtonAction::Forward => None,
        ButtonAction::ResizeColumn { initial_width } => Some(GestureGrab::Column { initial_width }),
        ButtonAction::DragWithinLayout { initial_location } => {
            detach_from_layout(window);
            Some(GestureGrab::LayoutMove { initial_location })
        },
        ButtonAction::ResizeWindow { data } => {
            if resize_state.is_some() {
                *resize_state = Some(ResizeState::Resizing(data));
            }
            let grab = ResizeGrab::new(
                data.edges,
                data.initial_window_location,
                data.initial_window_size,
            );
            Some(GestureGrab::Resize { grab })
        },
        ButtonAction::MoveWindow { initial_location } => Some(GestureGrab::Move { initial_location }),
    };
    ButtonOutcome { update_focus: pressed, action, grab }
}

/// The cursor that shows what a gesture on a window would start.
pub open spec fn gesture_cursor(edges: ResizeEdge, layout_active: bool) -> CursorIcon {
    if layout_active {
        if edges.left {
            CursorIcon::WResize
        } else if edges.right {
            CursorIcon::EResize
        } else {
            CursorIcon::AllScroll
        }
    } else if edges != ResizeEdge::none() {
        edges.icon()
    } else {
        CursorIcon::AllScroll
    }
}

/// The cursor to show while the modifier for window gestures is held over a
/// window; `None` where the cursor stays as it is.
pub fn update_cursor_for_no_csd(facts: &GestureFacts) -> (r: Option<CursorIcon>)
    ensures
        r == (if facts.ready() && facts.under is Some {
            Some(gesture_cursor(facts.under->0.edges, facts.layout_active))
        } else {
            None
        }),
{
    if !facts.is_ready() {
        return None;
    }
    match facts.under {
        Some(under) => {
            let edges = under.edges;
            if facts.layout_active {
                if edges.left {
                    Some(CursorIcon::WResize)
                } else if edges.right {
                    Some(CursorIcon::EResize)
                } else {
                    Some(CursorIcon::AllScroll)
                }
            } else if !edges.is_empty() {
                Some(edges.cursor_icon())
            } else {
                Some(CursorIcon::AllScroll)
            }
        },
        None => None,
    }
}

/// A layer surface under a point.
#[derive(Clone, Copy, Debug, PartialEq, Eq)]
pub struct LayerUnder {
    pub id: u64,
    /// Where the layer surface is on its output.
    pub location: Point,
    /// Whether it takes keyboard focus.
    pub focusable: bool,
    /// The surface of it that the point is in, and where that is in the layer.
    pub surface: Option<(u64, Point)>,
}

/// A window under a point.
#[derive(Clone, Copy, Debug, PartialEq, Eq)]
pub struct ElementUnder {
    pub id: u64,
    pub location: Point,
    /// Whether the window is on another workspace.
    pub hidden: bool,
    /// The surface of it that the point is in, and where that is in the window.
    pub surface: Option<(u64, Point)>,
}

/// The fullscreen window of an output, where the point is in it.
#[derive(Clone, Copy, Debug, PartialEq, Eq)]
pub struct FullscreenUnder {
    pub id: u64,
    pub surface: (u64, Point),
}

/// What is under a point on an output.
#[derive(Clone, Copy, Debug, PartialEq, Eq)]
pub struct OutputUnder {
    /// Where the output is.
    pub location: Point,
    pub fullscreen: Option<FullscreenUnder>,
    pub overlay: Option<LayerUnder>,
    pub top: Option<LayerUnder>,
    pub bottom: Option<LayerUnder>,
    pub background: Option<LayerUnder>,
}

/// The upper of two layers that has something under the point.
pub open spec fn upper(first: Option<LayerUnder>, second: Option<LayerUnder>) -> Option<LayerUnder> {
    if first is Some {
        first
    } else {
        second
    }
}

fn upper_layer(first: Option<LayerUnder>, second: Option<LayerUnder>) -> (r: Option<LayerUnder>)
    ensures
        r == upper(first, second),
{
    if first.is_some() {
        first
    } else {
        second
    }
}

/// The surface of a layer under the point, and where it is.
pub open spec fn layer_hit(layer: Option<LayerUnder>, output: Point) -> Option<(u64, Point)> {
    match layer {
        Some(l) => match l.surface {
            Some((id, at)) => Some((id, at.plus(l.location).plus(output))),
            None => None,
        },
        None => None,
    }
}

fn hit_layer(layer: Option<LayerUnder>, output: Point) -> (r: Option<(u64, Point)>)
    ensures
        r == layer_hit(layer, output),
{
    match layer {
        Some(l) => match l.surface {
            Some((id, at)) => Some((id, at.offset_by(l.location).offset_by(output))),
            None => None,
        },
        None => None,
    }
}

/// The surface of a window under the point, and where it is.
pub open spec fn window_hit(window: Option<ElementUnder>) -> Option<(u64, Point)> {
    match window {
        Some(w) => match w.surface {
            Some((id, at)) => Some((id, at.plus(w.location))),
            None => None,
        },
        None => None,
    }
}

/// The surface under a point: that of the fullscreen window, else of the upper
/// layers, else of the window, else of the lower layers.
pub open spec fn surface_of(output: OutputUnder, window: Option<ElementUnder>) -> Option<(u64, Point)> {
    let above = layer_hit(upper(output.overlay, output.top), output.location);
    let below = layer_hit(upper(output.bottom, output.background), output.location);
    if output.fullscreen is Some {
        let (id, at) = output.fullscreen->0.surface;
        Some((id, at.plus(output.location)))
    } else if above is Some {
        above
    } else if window_hit(window) is Some {
        window_hit(window)
    } else {
        below
    }
}

/// The surface under a point, and where it is; nothing where there is no output.
pub fn surface_under(output: Option<OutputUnder>, window: Option<ElementUnder>) -> (r: Option<
    (u64, Point),
>)
    ensures
        r == (match output {
            Some(o) => surface_of(o, window),
            None => None,
        }),
{
    let o = match output {
        Some(o) => o,
        None => {
            return None;
        },
    };
    match o.fullscreen {
        Some(f) => {
            let (id, at) = f.surface;
            return Some((id, at.offset_by(o.location)));
        },
        None => {},
    }
    let above = hit_layer(upper_layer(o.overlay, o.top), o.location);
    if above.is_some() {
        return above;
    }
    match window {
        Some(w) => {
            match w.surface {
                Some((id, at)) => {
                    return Some((id, at.offset_by(w.location)));
                },
                None => {},
            }
        },
        None => {},
    }
    hit_layer(upper_layer(o.bottom, o.background), o.location)
}

/// Whether something holds on to the input devices.
#[derive(Clone, Copy, Debug, PartialEq, Eq, Structural)]
pub struct Grabs {
    pub pointer: bool,
    pub keyboard: bool,
    /// Whether it is an input method that holds the keyboard.
    pub input_method: bool,
    pub touch: bool,
}

/// Where the keyboard focus goes.
#[derive(Clone, Copy, Debug, PartialEq, Eq, Structural)]
pub enum FocusAction {
    /// It stays.
    Keep,
    /// To the fullscreen window.
    Fullscreen { window: u64 },
    /// To a layer surface.
    Layer { layer: u64 },
    /// To a window, which is raised, and the layout arranged anew.
    Window { window: u64 },
}

/// Whether a layer takes the focus of a click.
pub open spec fn takes_focus(layer: Option<LayerUnder>) -> bool {
    layer matches Some(l) && l.focusable && l.surface is Some
}

fn layer_takes_focus(layer: Option<LayerUnder>) -> (r: bool)
    ensures
        r == takes_focus(layer),
{
    match layer {
        Some(l) => l.focusable && l.surface.is_some(),
        None => false,
    }
}

/// Where a click puts the keyboard focus: on the fullscreen window, an upper
/// layer that takes it, the window, or a lower layer that takes it. A window on
/// another workspace takes no focus, and lets none through.
pub open spec fn focus_of(
    grabs: Grabs,
    output: Option<OutputUnder>,
    window: Option<ElementUnder>,
) -> FocusAction {
    if grabs.pointer || (grabs.keyboard && !grabs.input_method) || grabs.touch {
        FocusAction::Keep
    } else if output matches Some(o) && o.fullscreen is Some {
        FocusAction::Fullscreen { window: output->0.fullscreen->0.id }
    } else if output matches Some(o) && takes_focus(upper(o.overlay, o.top)) {
        FocusAction::Layer { layer: upper(output->0.overlay, output->0.top)->0.id }
    } else if window is Some {
        if window->0.hidden {
            FocusAction::Keep
        } else {
            FocusAction::Window { window: window->0.id }
        }
    } else if output matches Some(o) && takes_focus(upper(o.bottom, o.background)) {
        FocusAction::Layer { layer: upper(output->0.bottom, output->0.background)->0.id }
    } else {
        FocusAction::Keep
    }
}

/// Where a click puts the keyboard focus.
pub fn update_keyboard_focus(
    grabs: &Grabs,
    output: Option<OutputUnder>,
    window: Option<ElementUnder>,
) -> (a: FocusAction)
    ensures
        a == focus_of(*grabs, output, window),
{
    if grabs.pointer || (grabs.keyboard && !grabs.input_method) || grabs.touch {
        return FocusAction::Keep;
    }
    match output {
        Some(o) => {
            match o.fullscreen {
                Some(f) => {
                    return FocusAction::Fullscreen { window: f.id };
                },
                None => {},
            }
            let layer = upper_layer(o.overlay, o.top);
            if layer_takes_focus(layer) {
                match layer {
                    Some(l) => {
                        return FocusAction::Layer { layer: l.id };
                    },
                    None => {},
                }
            }
        },
        None => {},
    }
    match window {
        Some(w) => {
            if w.hidden {
                return FocusAction::Keep;
            }
            return FocusAction::Window { window: w.id };
        },
        None => {},
    }
    match output {
        Some(o) => {
            let layer = upper_layer(o.bottom, o.background);
            match layer {
                Some(l) => {
                    if layer_takes_focus(layer) {
                        return FocusAction::Layer { layer: l.id };
                    }
                },
                None => {},
            }
        },
        None => {},
    }
    FocusAction::Keep
}

/// While something holds the pointer, a click moves no focus.
pub proof fn grabs_keep_focus(
    grabs: Grabs,
    output: Option<OutputUnder>,
    window: Option<ElementUnder>,
)
    requires
        grabs.pointer || grabs.touch || (grabs.keyboard && !grabs.input_method),
    ensures
        focus_of(grabs, output, window) == FocusAction::Keep,
{
}

/// A layer surface that may want all keys.
#[derive(Clone, Copy, Debug, PartialEq, Eq, Structural)]
pub struct LayerKeyboard {
    /// Whether it asks for all keys.
    pub exclusive: bool,
    /// Whether it is above all windows.
    pub above_windows: bool,
    /// Whether it is on an output.
    pub mapped: bool,
}

impl LayerKeyboard {
    pub open spec fn takes_keys(self) -> bool {
        self.exclusive && self.above_windows && self.mapped
    }
}

/// The layer surface that gets all keys: the last that asks for them.
pub fn exclusive_layer(layers: &Vec<LayerKeyboard>) -> (r: Option<usize>)
    ensures
        match r {
            Some(i) => {
                &&& i < layers@.len()
                &&& layers@[i as int].takes_keys()
                &&& forall|k: int| i < k < layers@.len() ==> !(#[trigger] layers@[k]).takes_keys()
            },
            None => forall|k: int|
                0 <= k < layers@.len() ==> !(#[trigger] layers@[k]).takes_keys(),
        },
{
    let mut i: usize = layers.len();
    while i > 0
        invariant
            i <= layers@.len(),
            forall|k: int| i <= k < layers@.len() ==> !(#[trigger] layers@[k]).takes_keys(),
        decreases i,
    {
        i = i - 1;
        let l = layers[i];
        if l.exclusive && l.above_windows && l.mapped {
            return Some(i);
        }
    }
    None
}

/// One direction of a scroll.
#[derive(Clone, Copy, Debug, PartialEq, Eq, Structural)]
pub struct ScrollAxis {
    /// The distance, where the device tells one.
    pub amount: Option<F64>,
    /// The distance that the wheel's steps stand for.
    pub from_steps: F64,
    /// The steps in 120ths.
    pub v120: Option<F64>,
    /// Which way the device moved for it.
    pub direction: RelativeDirection,
}

/// Whether a device moved as the contents do, or the other way.
#[derive(Clone, Copy, Debug, PartialEq, Eq, Structural)]
pub enum RelativeDirection {
    Identical,
    Inverted,
}

/// What a client is told of one direction of a scroll.
#[derive(Clone, Copy, Debug, PartialEq, Eq, Structural)]
pub struct AxisReport {
    /// Told only along with a value.
    pub direction: Option<RelativeDirection>,
    pub value: Option<F64>,
    pub v120: Option<i32>,
    pub stop: bool,
}

impl ScrollAxis {
    pub open spec fn distance(self) -> F64 {
        match self.amount {
            Some(amount) => amount,
            None => self.from_steps,
        }
    }

    pub open spec fn reported(self, finger: bool) -> AxisReport {
        let moves = !self.distance().same_number(F64 { bits: 0 });
        AxisReport {
            direction: if moves {
                Some(self.direction)
            } else {
                None
            },
            value: if moves {
                Some(self.distance())
            } else {
                None
            },
            v120: if moves && self.v120 is Some {
                Some(self.v120->0.truncated() as i32)
            } else {
                None
            },
            stop: finger && (self.amount matches Some(amount) && amount.same_number(F64 { bits: 0 })),
        }
    }

    /// What a client is told: a distance that is not zero, with its direction and
    /// its steps; and
    /// the end of a scroll by finger.
    pub fn report(&self, finger: bool) -> (r: AxisReport)
        ensures
            r == self.reported(finger),
    {
        let zero = F64 { bits: 0 };
        let distance = match self.amount {
            Some(amount) => amount,
            None => self.from_steps,
        };
        let stop = finger && (match self.amount {
            Some(amount) => amount.equals(zero),
            None => false,
        });
        if distance.equals(zero) {
            return AxisReport { direction: None, value: None, v120: None, stop };
        }
        AxisReport {
            direction: Some(self.direction),
            value: Some(distance),
            v120: match self.v120 {
                Some(steps) => Some(steps.trunc_i32()),
                None => None,
            },
            stop,
        }
    }
}

/// The position of the first output whose name begins so.
pub open spec fn output_beginning(outputs: Seq<Output>, prefix: Seq<char>, at: int) -> bool {
    &&& 0 <= at < outputs.len()
    &&& begins_with(outputs[at].name@, prefix)
    &&& forall|i: int| 0 <= i < at ==> !begins_with((#[trigger] outputs[i]).name@, prefix)
}

/// The output that a touch screen belongs to: the built-in panel, else the
/// first output.
pub fn touch_output(space: &Space) -> (r: Option<usize>)
    ensures
        match r {
            Some(i) => output_beginning(space.outputs@, "eDP"@, i as int) || (i == 0
                && space.outputs@.len() > 0 && forall|k: int|
                0 <= k < space.outputs@.len() ==> !begins_with(
                    (#[trigger] space.outputs@[k]).name@,
                    "eDP"@,
                )),
            None => space.outputs@.len() == 0,
        },
{
    let mut i: usize = 0;
    while i < space.outputs.len()
        invariant
            i <= space.outputs@.len(),
            forall|k: int|
                0 <= k < i ==> !begins_with((#[trigger] space.outputs@[k]).name@, "eDP"@),
        decreases space.outputs@.len() - i,
    {
        if starts_with(&space.outputs[i].name, "eDP") {
            return Some(i);
        }
        i = i + 1;
    }
    if space.outputs.len() > 0 {
        Some(0)
    } else {
        None
    }
}

/// How a constraint holds the pointer.
#[derive(Clone, Copy, Debug, PartialEq, Eq, Structural)]
pub enum PointerHold {
    Free,
    /// The pointer does not move.
    Locked,
    /// The pointer stays in its surface, and in its region where there is one.
    Confined,
}

/// A constraint on the pointer, of the surface under it.
#[derive(Clone, Copy, Debug, PartialEq, Eq, Structural)]
pub struct PointerConstraint {
    pub active: bool,
    pub locks: bool,
    /// Whether the pointer is in the constraint's region; `None` where it has none.
    pub in_region: Option<bool>,
}

impl PointerConstraint {
    pub open spec fn reaches(self) -> bool {
        self.in_region is None || self.in_region == Some(true)
    }

    fn applies(&self) -> (r: bool)
        ensures
            r == self.reaches(),
    {
        match self.in_region {
            Some(inside) => inside,
            None => true,
        }
    }
}

pub open spec fn hold_of(constraint: Option<PointerConstraint>) -> PointerHold {
    match constraint {
        Some(c) => if c.active && c.reaches() {
            if c.locks {
                PointerHold::Locked
            } else {
                PointerHold::Confined
            }
        } else {
            PointerHold::Free
        },
        None => PointerHold::Free,
    }
}

/// How the constraint under the pointer holds it.
pub fn pointer_hold(constraint: Option<PointerConstraint>) -> (h: PointerHold)
    ensures
        h == hold_of(constraint),
{
    match constraint {
        Some(c) => {
            if c.active && c.applies() {
                if c.locks {
                    PointerHold::Locked
                } else {
                    PointerHold::Confined
                }
            } else {
                PointerHold::Free
            }
        },
        None => PointerHold::Free,
    }
}

/// Whether the pointer may go where it was moved: a locked one may not, a
/// confined one only within its surface and its region.
pub fn may_move(hold: PointerHold, same_surface: bool, in_region: Option<bool>) -> (r: bool)
    ensures
        r == match hold {
            PointerHold::Free => true,
            PointerHold::Locked => false,
            PointerHold::Confined => same_surface && (in_region is None || in_region == Some(true)),
        },
{
    match hold {
        PointerHold::Free => true,
        PointerHold::Locked => false,
        PointerHold::Confined => same_surface && (match in_region {
            Some(inside) => inside,
            None => true,
        }),
    }
}

/// Whether the constraint of the surface that the pointer has come to begins to
/// hold it.
pub fn activates(constraint: Option<PointerConstraint>) -> (r: bool)
    ensures
        r == (constraint matches Some(c) && !c.active && c.reaches()),
{
    match constraint {
        Some(c) => !c.active && c.applies(),
        None => false,
    }
}

/// A constraint that is activated holds the pointer from then on.
pub proof fn activated_constraint_holds(c: PointerConstraint)
    requires
        !c.active,
        c.reaches(),
    ensures
        hold_of(Some(PointerConstraint { active: true, ..c })) != PointerHold::Free,
        hold_of(Some(c)) == PointerHold::Free,
{
}

/// The sum of the widths of the first `upto` outputs.
pub open spec fn total_width(outputs: Seq<Output>, upto: int) -> int
    decreases upto,
{
    if upto <= 0 {
        0
    } else {
        total_width(outputs, upto - 1) + outputs[upto - 1].geometry->0.size.w
    }
}

/// The largest height of the first `upto` outputs, at least 0.
pub open spec fn max_height(outputs: Seq<Output>, upto: int) -> int
    decreases upto,
{
    if upto <= 0 {
        0
    } else {
        greater(max_height(outputs, upto - 1), outputs[upto - 1].geometry->0.size.h as int)
    }
}

/// Whether all outputs are mapped, none has a negative extent, and their widths
/// add up within range.
pub open spec fn outputs_fit(space: Space) -> bool {
    &&& forall|i: int|
        0 <= i < space.outputs@.len() ==> (#[trigger] space.outputs@[i]).geometry is Some
            && space.outputs@[i].geometry->0.size.w >= 0 && space.outputs@[i].geometry->0.size.h
            >= 0
    &&& total_width(space.outputs@, space.outputs@.len() as int) <= i32::MAX
}

proof fn total_width_grows(outputs: Seq<Output>, upto: int, all: int)
    requires
        0 <= upto <= all <= outputs.len(),
        forall|i: int|
            0 <= i < outputs.len() ==> (#[trigger] outputs[i]).geometry is Some
                && outputs[i].geometry->0.size.w >= 0,
    ensures
        0 <= total_width(outputs, upto) <= total_width(outputs, all),
    decreases all,
{
    if upto < all {
        total_width_grows(outputs, upto, all - 1);
    } else if upto > 0 {
        total_width_grows(outputs, upto - 1, all - 1);
    }
}

/// The extent that absolute pointer positions are spread over: the sum of all
/// widths by the largest height.
pub fn desktop_extent(space: &Space) -> (r: Size)
    requires
        outputs_fit(*space),
    ensures
        r.w == total_width(space.outputs@, space.outputs@.len() as int),
        r.h == max_height(space.outputs@, space.outputs@.len() as int),
{
    let mut w: i32 = 0;
    let mut h: i32 = 0;
    let mut i: usize = 0;
    while i < space.outputs.len()
        invariant
            i <= space.outputs@.len(),
            outputs_fit(*space),
            w == total_width(space.outputs@, i as int),
            h == max_height(space.outputs@, i as int),
            w >= 0,
            h >= 0,
        decreases space.outputs@.len() - i,
    {
        assert(space.outputs@[i as int].geometry is Some);
        let g = space.outputs[i].geometry.unwrap();
        proof {
            total_width_grows(space.outputs@, i + 1, space.outputs@.len() as int);
        }
        w = w + g.size.w;
        if g.size.h > h {
            h = g.size.h;
        }
        i = i + 1;
    }
    Size { w, h }
}

/// A pointer position brought onto the desktop: between the left and the right
/// end of all outputs, and, where an output has that column in its first row,
/// between its top and its bottom. Without outputs it stays.
pub open spec fn clamped_position(space: Space, x: F64, y: F64, at: Option<int>) -> (F64, F64) {
    let zero = F64 { bits: 0 };
    if space.outputs@.len() == 0 {
        (x, y)
    } else {
        let cx = x.clamped(
            zero,
            F64::of_int(total_width(space.outputs@, space.outputs@.len() as int)),
        );
        match at {
            Some(i) => (
                cx,
                y.clamped(zero, F64::of_int(space.outputs@[i].geometry->0.size.h as int)),
            ),
            None => (cx, y),
        }
    }
}

/// The point of the first row that decides how far down a pointer may go.
pub open spec fn column_point(space: Space, x: F64) -> Point {
    Point {
        x: x.clamped(
            F64 { bits: 0 },
            F64::of_int(total_width(space.outputs@, space.outputs@.len() as int)),
        ).truncated() as i32,
        y: 0,
    }
}

/// Brings a pointer position onto the desktop.
pub fn clamp_coords(space: &Space, x: F64, y: F64) -> (r: (F64, F64))
    requires
        outputs_fit(*space),
    ensures
        forall|at: int| #[trigger]
            output_holding(*space, column_point(*space, x), at) ==> r == clamped_position(
                *space,
                x,
                y,
                Some(at),
            ),
        (forall|at: int| !#[trigger] output_holding(*space, column_point(*space, x), at)) ==> r
            == clamped_position(*space, x, y, None),
{
    if space.outputs.len() == 0 {
        return (x, y);
    }
    let zero = F64 { bits: 0 };
    let extent = desktop_extent(space);
    proof {
        total_width_grows(space.outputs@, 0, space.outputs@.len() as int);
        F64::of_int_is_exact(extent.w);
        F64::of_int_keeps_order(0, extent.w);
        F64::of_int_keeps_order(extent.w, 0);
        assert(F64::of_int(0) == zero);
    }
    let cx = x.clamp(zero, F64::from_i32(extent.w));
    let column = Point { x: cx.trunc_i32(), y: 0 };
    assert(column == column_point(*space, x));
    match output_under(space, column) {
        Some(i) => {
            assert(output_holding(*space, column_point(*space, x), i as int));
            assert(forall|at: int| #[trigger] output_holding(*space, column, at) ==> at == i);
            let h: i32 = space.outputs[i].geometry.unwrap().size.h;
            proof {
                F64::of_int_is_exact(h);
                F64::of_int_keeps_order(h, 0);
            }
            (cx, y.clamp(zero, F64::from_i32(h)))
        },
        None => (cx, y),
    }
}

/// The output whose area holds a pointer position, rounded to whole pixels.
pub fn output_at_position(space: &Space, x: F64, y: F64) -> (r: Option<usize>)
    ensures
        ({
            let p = Point { x: x.rounded() as i32, y: y.rounded() as i32 };
            match r {
                Some(i) => output_holding(*space, p, i as int),
                None => forall|at: int| !#[trigger] output_holding(*space, p, at),
            }
        }),
{
    output_under(space, Point { x: x.round_i32(), y: y.round_i32() })
}

/// What a new input device brings.
#[derive(Clone, Copy, Debug, PartialEq, Eq, Structural)]
pub struct DeviceChange {
    pub tablet: bool,
    pub touch: bool,
}

/// What the seat gets when a device is plugged in: a tablet, and a touch
/// screen unless it has one.
pub fn on_device_added(tablet: bool, touch: bool, has_touch: bool) -> (r: DeviceChange)
    ensures
        r == (DeviceChange { tablet, touch: touch && !has_touch }),
{
    DeviceChange { tablet, touch: touch && !has_touch }
}

/// Whether the tools of all tablets go when a device is unplugged: it was the
/// last tablet.
pub fn on_device_removed(tablet: bool, tablets_left: usize) -> (clear_tools: bool)
    ensures
        clear_tools == (tablet && tablets_left == 0),
{
    tablet && tablets_left == 0
}

/// Where nothing holds on to the devices, a click focuses what is on top of the
/// point: the fullscreen window before everything; then the layer above all
/// windows, if it takes the focus there, whatever window lies below it; then the
/// window; and where there is none, the layer below all windows. Of two layers
/// on one side of the windows only the upper one counts.
pub proof fn clicks_focus_what_is_on_top(
    grabs: Grabs,
    output: OutputUnder,
    window: Option<ElementUnder>,
)
    requires
        !grabs.pointer,
        !grabs.touch,
        grabs.keyboard ==> grabs.input_method,
    ensures
        ({
            let a = focus_of(grabs, Some(output), window);
            let above_is_passed = match (output.overlay, output.top) {
                (Some(l), _) => !l.focusable || l.surface is None,
                (None, Some(l)) => !l.focusable || l.surface is None,
                (None, None) => true,
            };
            &&& output.fullscreen matches Some(f) ==> a == (FocusAction::Fullscreen { window: f.id })
            &&& output.fullscreen is None ==> {
                &&& output.overlay matches Some(l) ==> l.focusable && l.surface is Some ==> a == (
                FocusAction::Layer { layer: l.id })
                &&& output.overlay is None ==> (output.top matches Some(l) ==> l.focusable
                    && l.surface is Some ==> a == (FocusAction::Layer { layer: l.id }))
                &&& above_is_passed ==> (window matches Some(w) ==> !w.hidden ==> a == (
                FocusAction::Window { window: w.id }))
                &&& above_is_passed ==> (window matches Some(w) ==> w.hidden ==> a is Keep)
                &&& above_is_passed && window is None ==> {
                    &&& output.bottom matches Some(l) ==> a == (if l.focusable && l.surface is Some {
                        FocusAction::Layer { layer: l.id }
                    } else {
                        FocusAction::Keep
                    })
                    &&& output.bottom is None ==> (output.background matches Some(l) ==> a == (
                    if l.focusable && l.surface is Some {
                        FocusAction::Layer { layer: l.id }
                    } else {
                        FocusAction::Keep
                    }))
                    &&& output.bottom is None && output.background is None ==> a is Keep
                }
            }
        }),
{
}

/// Off every output a click focuses the window there, and no layer.
pub proof fn clicks_off_the_outputs_focus_windows(grabs: Grabs, window: Option<ElementUnder>)
    requires
        !grabs.pointer,
        !grabs.touch,
        grabs.keyboard ==> grabs.input_method,
    ensures
        focus_of(grabs, None, window) == match window {
            Some(w) => if w.hidden {
                FocusAction::Keep
            } else {
                FocusAction::Window { window: w.id }
            },
            None => FocusAction::Keep,
        },
{
}

/// The surface under a point is that of the fullscreen window before everything;
/// then that of the layer above all windows, then that of the window, then that
/// of the layer below all windows. Of two layers on one side of the windows only
/// the upper one counts.
pub proof fn points_hit_what_is_on_top(output: OutputUnder, window: Option<ElementUnder>)
    ensures
        ({
            let hit = surface_of(output, window);
            let above_is_passed = match (output.overlay, output.top) {
                (Some(l), _) => l.surface is None,
                (None, Some(l)) => l.surface is None,
                (None, None) => true,
            };
            let window_is_passed = window matches Some(w) ==> w.surface is None;
            &&& output.fullscreen matches Some(f) ==> hit matches Some(h) && h.0 == f.surface.0
            &&& output.fullscreen is None ==> {
                &&& output.overlay matches Some(l) ==> (l.surface matches Some(s) ==> hit matches Some(
                    h,
                ) && h.0 == s.0)
                &&& output.overlay is None ==> (output.top matches Some(l) ==> (l.surface matches Some(
                    s,
                ) ==> hit matches Some(h) && h.0 == s.0))
                &&& above_is_passed ==> (window matches Some(w) ==> (w.surface matches Some(s)
                    ==> hit matches Some(h) && h.0 == s.0))
                &&& above_is_passed && window_is_passed ==> {
                    &&& output.bottom matches Some(l) ==> match (l.surface, hit) {
                        (Some(s), Some(h)) => h.0 == s.0,
                        (None, None) => true,
                        _ => false,
                    }
                    &&& output.bottom is None ==> (output.background matches Some(l) ==> match (
                        l.surface,
                        hit,
                    ) {
                        (Some(s), Some(h)) => h.0 == s.0,
                        (None, None) => true,
                        _ => false,
                    })
                    &&& output.bottom is None && output.background is None ==> hit is None
                }
            }
        }),
{
}

/// Where a surface is on the desktop: its place in its window and that of the
/// window, or its place in its layer, that of the layer on the output and that
/// of the output, added up, each way by itself.
pub proof fn hits_add_up_their_places(
    layer: LayerUnder,
    output: Point,
    window: ElementUnder,
    surface: u64,
    at: Point,
)
    requires
        layer.surface == Some((surface, at)),
        window.surface == Some((surface, at)),
        i32::MIN <= at.x + layer.location.x <= i32::MAX,
        i32::MIN <= at.y + layer.location.y <= i32::MAX,
        i32::MIN <= at.x + layer.location.x + output.x <= i32::MAX,
        i32::MIN <= at.y + layer.location.y + output.y <= i32::MAX,
        i32::MIN <= at.x + window.location.x <= i32::MAX,
        i32::MIN <= at.y + window.location.y <= i32::MAX,
    ensures
        layer_hit(Some(layer), output) matches Some((id, p)) && id == surface && p.x == at.x
            + layer.location.x + output.x && p.y == at.y + layer.location.y + output.y,
        window_hit(Some(window)) matches Some((id, p)) && id == surface && p.x == at.x
            + window.location.x && p.y == at.y + window.location.y,
{
}

/// The surface of a fullscreen window is where it is in the window, seen from
/// the output; what is hit of a window or a layer is where that has it.
pub proof fn hits_are_where_they_belong(
    output: OutputUnder,
    window: Option<ElementUnder>,
    surface: u64,
    at: Point,
)
    requires
        surface_of(output, window) == Some((surface, at)),
    ensures
        ({
            ||| output.fullscreen matches Some(f) && f.surface.0 == surface && at
                == f.surface.1.plus(output.location)
            ||| output.fullscreen is None && window_hit(window) == Some((surface, at))
            ||| output.fullscreen is None && layer_hit(output.overlay, output.location) == Some(
                (surface, at),
            )
            ||| output.fullscreen is None && layer_hit(output.top, output.location) == Some(
                (surface, at),
            )
            ||| output.fullscreen is None && layer_hit(output.bottom, output.location) == Some(
                (surface, at),
            )
            ||| output.fullscreen is None && layer_hit(output.background, output.location) == Some(
                (surface, at),
            )
        }),
{
}

/// A place is on the left or top edge exactly if it is before the first line of
/// that way, and on the right or bottom edge exactly if it is behind the second,
/// where the lines are in order. Both ways go by the same rule.
pub proof fn edges_are_outer_thirds(x: F64, y: F64, thirds: Thirds)
    requires
        thirds.first_x.at_most(thirds.second_x),
        thirds.first_y.at_most(thirds.second_y),
    ensures
        edges_at(x, y, thirds).left <==> x.below(thirds.first_x),
        edges_at(x, y, thirds).right <==> thirds.second_x.below(x),
        edges_at(x, y, thirds).top <==> y.below(thirds.first_y),
        edges_at(x, y, thirds).bottom <==> thirds.second_y.below(y),
        ({
            let turned = Thirds {
                first_x: thirds.first_y,
                second_x: thirds.second_y,
                first_y: thirds.first_x,
                second_y: thirds.second_x,
            };
            edges_at(y, x, turned).top == edges_at(x, y, thirds).left && edges_at(y, x, turned).right
                == edges_at(x, y, thirds).bottom
        }),
{
}

/// A button starts something exactly if it is the left one, is pressed, the
/// modifier is held and there is a window; anything else goes to the client.
pub proof fn only_a_held_modifier_starts_a_gesture(
    facts: GestureFacts,
    button: u32,
    pressed: bool,
)
    ensures
        !(button_action(facts, button, pressed) is Forward) <==> pressed && button == 0x110
            && facts.prefer_no_csd && facts.under is Some && facts.resize_modifier@.len() > 0
            && facts.modifiers.holds_gesture(facts.resize_modifier@),
{
}

/// What a gesture starts goes by the layout and the place: in a tiling layout
/// the left and right thirds drag the width, from the one the column has, and
/// all else drags the window from its place. Without one the outer thirds resize
/// by just these edges from the window's own place and size, and the middle
/// moves it.
pub proof fn gestures_start_from_the_window(
    facts: GestureFacts,
    button: u32,
    pressed: bool,
)
    requires
        !(button_action(facts, button, pressed) is Forward),
    ensures
        ({
            let under = facts.under->0;
            let sideways = under.edges.left || under.edges.right;
            let inner = !sideways && !under.edges.top && !under.edges.bottom;
            match button_action(facts, button, pressed) {
                ButtonAction::Forward => false,
                ButtonAction::ResizeColumn { initial_width } => facts.layout_active && sideways
                    && initial_width == (match under.width_override {
                    Some(width) => width,
                    None => F64::of_int(under.size.w as int),
                }),
                ButtonAction::DragWithinLayout { initial_location } => facts.layout_active
                    && !sideways && initial_location == under.location,
                ButtonAction::ResizeWindow { data } => !facts.layout_active && !inner && data.edges
                    == under.edges && data.initial_window_location == under.location
                    && data.initial_window_size == under.size,
                ButtonAction::MoveWindow { initial_location } => !facts.layout_active && inner
                    && initial_location == under.location,
            }
        }),
{
}

/// A grab does what its action says, from the same start.
pub proof fn grabs_follow_their_actions(action: ButtonAction)
    ensures
        match (action, grab_of(action)) {
            (ButtonAction::Forward, None) => true,
            (
                ButtonAction::ResizeColumn { initial_width },
                Some(GestureGrab::Column { initial_width: w }),
            ) => w == initial_width,
            (
                ButtonAction::DragWithinLayout { initial_location },
                Some(GestureGrab::LayoutMove { initial_location: at }),
            ) => at == initial_location,
            (ButtonAction::ResizeWindow { data }, Some(GestureGrab::Resize { grab })) => grab.data
                == data && grab.last_window_size == data.initial_window_size,
            (
                ButtonAction::MoveWindow { initial_location },
                Some(GestureGrab::Move { initial_location: at }),
            ) => at == initial_location,
            _ => false,
        },
{
}

/// The cursor shows what a press would start: an arrow to the left or right for
/// the width of a column, the arrow of the edges for a resize, and the cross for
/// what moves the window.
pub proof fn cursors_show_the_gesture(under: WindowUnder, layout_active: bool)
    requires
        !under.edges.opposed(),
    ensures
        match gesture(under, layout_active) {
            ButtonAction::Forward => false,
            ButtonAction::ResizeColumn { .. } => gesture_cursor(under.edges, layout_active) == (
            if under.edges.left {
                CursorIcon::WResize
            } else {
                CursorIcon::EResize
            }),
            ButtonAction::ResizeWindow { data } => gesture_cursor(under.edges, layout_active)
                == data.edges.icon(),
            _ => gesture_cursor(under.edges, layout_active) == CursorIcon::AllScroll,
        },
{
}

/// A scroll tells the device's own distance, else that of its steps, unless it
/// is zero; direction and steps come along with a distance only, and a scroll is
/// over only where a finger tells a distance of zero.
pub proof fn scrolls_tell_what_moved(axis: ScrollAxis, finger: bool)
    ensures
        ({
            let r = axis.reported(finger);
            let zero = F64 { bits: 0 };
            let distance = if axis.amount is Some {
                axis.amount->0
            } else {
                axis.from_steps
            };
            &&& r.value == (if distance.same_number(zero) {
                None
            } else {
                Some(distance)
            })
            &&& r.direction is Some <==> r.value is Some
            &&& r.direction is Some ==> r.direction == Some(axis.direction)
            &&& r.v120 is Some <==> r.value is Some && axis.v120 is Some
            &&& r.v120 matches Some(steps) ==> steps == axis.v120->0.truncated()
            &&& r.stop <==> finger && axis.amount is Some && axis.amount->0.same_number(zero)
            &&& r.stop ==> r.value is None
        }),
{
}

/// A constraint holds the pointer exactly if it is active and the pointer is in
/// its region, where it has one; a lock locks, any other one confines.
pub proof fn active_constraints_hold(c: PointerConstraint)
    ensures
        hold_of(None) is Free,
        hold_of(Some(c)) is Free <==> !c.active || (c.in_region matches Some(inside) && !inside),
        hold_of(Some(c)) is Locked ==> c.locks,
        hold_of(Some(c)) is Confined ==> !c.locks,
{
}

/// The desktop is as wide as all outputs side by side, and as high as the
/// highest of them.
pub proof fn desktops_span_their_outputs(outputs: Seq<Output>, upto: int, at: int)
    requires
        0 <= at < upto <= outputs.len(),
        forall|i: int| 0 <= i < outputs.len() ==> (#[trigger] outputs[i]).geometry is Some,
    ensures
        total_width(outputs, 0) == 0,
        total_width(outputs, at + 1) - total_width(outputs, at) == outputs[at].geometry->0.size.w,
        max_height(outputs, upto) >= outputs[at].geometry->0.size.h,
        max_height(outputs, upto) == 0 || exists|i: int|
            0 <= i < upto && (#[trigger] outputs[i]).geometry->0.size.h == max_height(outputs, upto),
    decreases upto,
{
    let before = max_height(outputs, upto - 1);
    if at < upto - 1 {
        desktops_span_their_outputs(outputs, upto - 1, at);
    } else if upto > 1 {
        desktops_span_their_outputs(outputs, upto - 1, upto - 2);
    }
    if max_height(outputs, upto) == outputs[upto - 1].geometry->0.size.h {
        assert(outputs[upto - 1].geometry->0.size.h == max_height(outputs, upto));
    } else if before != 0 {
        let i = choose|i: int|
            0 <= i < upto - 1 && (#[trigger] outputs[i]).geometry->0.size.h == before;
        assert(outputs[i].geometry->0.size.h == max_height(outputs, upto));
    }
}

/// A pointer that is on the desktop stays where it is; any other one is brought
/// to the nearest end, each way by itself.
pub proof fn pointers_stay_on_the_desktop(space: Space, x: F64, y: F64, at: int)
    requires
        space.outputs@.len() > 0,
        0 <= at < space.outputs@.len(),
        space.outputs@[at].geometry is Some,
        !x.nan(),
        !y.nan(),
    ensures
        ({
            let zero = F64 { bits: 0 };
            let right = F64::of_int(total_width(space.outputs@, space.outputs@.len() as int));
            let bottom = F64::of_int(space.outputs@[at].geometry->0.size.h as int);
            let (cx, cy) = clamped_position(space, x, y, Some(at));
            let (dx, dy) = clamped_position(space, x, y, None);
            &&& x.below(zero) ==> cx == zero
            &&& !x.below(zero) && right.below(x) ==> cx == right
            &&& !x.below(zero) && !right.below(x) ==> cx == x
            &&& y.below(zero) ==> cy == zero
            &&& !y.below(zero) && bottom.below(y) ==> cy == bottom
            &&& !y.below(zero) && !bottom.below(y) ==> cy == y
            &&& dx == cx && dy == y
        }),
{
}

/// Where there are no outputs a pointer stays where it is.
pub proof fn pointers_stay_without_outputs(space: Space, x: F64, y: F64, at: Option<int>)
    requires
        space.outputs@.len() == 0,
    ensures
        clamped_position(space, x, y, at) == (x, y),
{
}

/// A layer gets all keys only if it asks for them, is above the windows and is
/// shown.
pub proof fn keys_go_to_layers_that_ask(l: LayerKeyboard)
    ensures
        l.takes_keys() <==> l.exclusive && l.above_windows && l.mapped,
{
}

/// A touch screen belongs to the first output whose name begins as asked.
pub proof fn the_first_output_of_a_name_counts(
    outputs: Seq<Output>,
    prefix: Seq<char>,
    at: int,
    other: int,
)
    requires
        output_beginning(outputs, prefix, at),
    ensures
        0 <= at < outputs.len(),
        outputs[at].name@.len() >= prefix.len(),
        forall|i: int| 0 <= i < prefix.len() ==> outputs[at].name@[i] == prefix[i],
        0 <= other < at ==> !begins_with(outputs[other].name@, prefix),
        output_beginning(outputs, prefix, other) ==> other == at,
{
    assert forall|i: int| 0 <= i < prefix.len() implies outputs[at].name@[i] == prefix[i] by {
        assert(outputs[at].name@.take(prefix.len() as int)[i] == prefix[i]);
    }
}

/// How far down a pointer may go is decided in the first row, at its column
/// within the desktop.
pub proof fn columns_are_decided_in_the_first_row(space: Space, x: F64)
    ensures
        column_point(space, x).y == 0,
        x.below(F64 { bits: 0 }) ==> column_point(space, x).x == (F64 { bits: 0 }).truncated(),
{
}

/// An output whose name begins as asked is found if none before it does.
pub proof fn outputs_that_begin_so_are_found(outputs: Seq<Output>, prefix: Seq<char>, at: int)
    requires
        0 <= at < outputs.len(),
        begins_with(outputs[at].name@, prefix),
        forall|i: int| 0 <= i < at ==> !begins_with((#[trigger] outputs[i]).name@, prefix),
    ensures
        output_beginning(outputs, prefix, at),
{
}

} // verus!
