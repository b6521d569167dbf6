//! What becomes of the events of input devices.
use vstd::prelude::*;
use crate::actions::{
    dispatch_native, dispatch_windowed, is_backend_action, is_effect, output_holding, output_under,
    session_after, ActionEffect, KeyDispatch, Session,
};
use crate::float::{F64, ONE_BITS};
use crate::geometry::{Point, Size, Transform};
use crate::input::{activates, may_move, output_beginning, touch_output, PointerConstraint, PointerHold};
use crate::screencasting::{find_output_named, output_named};
use crate::shortcuts::KeyAction;
use crate::state::{Output, Space};

verus! {

/// The kinds of events that are not of a keyboard.
#[derive(Clone, Copy, Debug, PartialEq, Eq, Structural)]
pub enum InputKind {
    PointerMotion,
    PointerMotionAbsolute,
    PointerButton,
    PointerAxis,
    TabletToolAxis,
    TabletToolProximity,
    TabletToolTip,
    TabletToolButton,
    GestureSwipeBegin,
    GestureSwipeUpdate,
    GestureSwipeEnd,
    GesturePinchBegin,
    GesturePinchUpdate,
    GesturePinchEnd,
    GestureHoldBegin,
    GestureHoldEnd,
    TouchDown,
    TouchUp,
    TouchMotion,
    TouchFrame,
    TouchCancel,
    DeviceAdded,
    DeviceRemoved,
    /// Switches and whatever else a backend may send.
    Other,
}

/// Whether the native backend acts on a kind of event.
pub open spec fn handled_natively(kind: InputKind) -> bool {
    kind != InputKind::Other
}

/// Whether a window of another compositor acts on a kind of event: it has
/// neither relative motion nor tablets nor gestures.
pub open spec fn handled_in_window(kind: InputKind) -> bool {
    match kind {
        InputKind::PointerMotionAbsolute
        | InputKind::PointerButton
        | InputKind::PointerAxis
        | InputKind::TouchDown
        | InputKind::TouchUp
        | InputKind::TouchMotion
        | InputKind::TouchFrame
        | InputKind::TouchCancel
        | InputKind::DeviceAdded
        | InputKind::DeviceRemoved => true,
        _ => false,
    }
}

/// An event: what a key asks for, or anything else.
#[derive(Debug, PartialEq, Eq)]
pub enum InputStep {
    Key(KeyAction),
    Device(InputKind),
}

/// The scales one step up and one step down from an output's own.
#[derive(Clone, Copy, Debug, PartialEq, Eq, Structural)]
pub struct ScaleSteps {
    pub up: F64,
    pub down: F64,
}

/// What a backend does about a key.
#[derive(Clone, Copy, Debug, PartialEq, Eq, Structural)]
pub enum BackendEffect {
    Nothing,
    /// Switch to another terminal.
    SwitchVt { vt: i32 },
    /// Put the pointer at this place, which is given twice as large.
    WarpPointer { twice_x: i64, twice_y: i64 },
    SetScale { output: usize, scale: F64 },
    SetTransform { output: usize, transform: Transform },
    ToggleTint,
}

/// One step of what a backend does about a key.
#[derive(Clone, Copy, Debug, PartialEq, Eq, Structural)]
pub enum BackendStep {
    SwitchVt { vt: i32 },
    /// Tell the surface there that the pointer is at this place, which is given
    /// twice as large.
    WarpPointer { twice_x: i64, twice_y: i64 },
    SetScale { output: usize, scale: F64 },
    SetTransform { output: usize, transform: Transform },
    /// Keep the pointer over what it is over: its way from the output's corner
    /// changes as the old scale is to the new.
    RescalePointer { output: usize },
    /// Put outputs and windows where they belong, by the pointer's place.
    FixPositions,
    /// Tell the surface there that the pointer is at its place.
    MovePointer,
    /// The end of what clients are told of the pointer.
    PointerFrame,
    /// Forget what was drawn on the output.
    ResetBuffers { output: usize },
    ToggleTint,
}

/// The steps of what a backend does about a key, in order. The native backend
/// owns the pointer, and keeps it in its place when the scale changes.
pub open spec fn steps_for(effect: BackendEffect, native: bool) -> Seq<BackendStep> {
    match effect {
        BackendEffect::Nothing => Seq::empty(),
        BackendEffect::SwitchVt { vt } => seq![BackendStep::SwitchVt { vt }],
        BackendEffect::WarpPointer { twice_x, twice_y } => seq![
            BackendStep::WarpPointer { twice_x, twice_y },
            BackendStep::PointerFrame,
        ],
        BackendEffect::SetScale { output, scale } => if native {
            seq![
                BackendStep::SetScale { output, scale },
                BackendStep::RescalePointer { output },
                BackendStep::FixPositions,
                BackendStep::MovePointer,
                BackendStep::PointerFrame,
                BackendStep::ResetBuffers { output },
            ]
        } else {
            seq![
                BackendStep::SetScale { output, scale },
                BackendStep::FixPositions,
                BackendStep::ResetBuffers { output },
            ]
        },
        BackendEffect::SetTransform { output, transform } => seq![
            BackendStep::SetTransform { output, transform },
            BackendStep::FixPositions,
            BackendStep::ResetBuffers { output },
        ],
        BackendEffect::ToggleTint => seq![BackendStep::ToggleTint],
    }
}

fn list_steps(effect: BackendEffect, native: bool) -> (v: Vec<BackendStep>)
    ensures
        v@ == steps_for(effect, native),
{
    let mut v: Vec<BackendStep> = Vec::new();
    match effect {
        BackendEffect::Nothing => {},
        BackendEffect::SwitchVt { vt } => {
            v.push(BackendStep::SwitchVt { vt });
        },
        BackendEffect::WarpPointer { twice_x, twice_y } => {
            v.push(BackendStep::WarpPointer { twice_x, twice_y });
            v.push(BackendStep::PointerFrame);
        },
        BackendEffect::SetScale { output, scale } => {
            v.push(BackendStep::SetScale { output, scale });
            if native {
                v.push(BackendStep::RescalePointer { output });
            }
            v.push(BackendStep::FixPositions);
            if native {
                v.push(BackendStep::MovePointer);
                v.push(BackendStep::PointerFrame);
            }
            v.push(BackendStep::ResetBuffers { output });
        },
        BackendEffect::SetTransform { output, transform } => {
            v.push(BackendStep::SetTransform { output, transform });
            v.push(BackendStep::FixPositions);
            v.push(BackendStep::ResetBuffers { output });
        },
        BackendEffect::ToggleTint => {
            v.push(BackendStep::ToggleTint);
        },
    }
    assert(v@ =~= steps_for(effect, native));
    v
}

/// What is left to do about an event.
#[derive(Debug, PartialEq, Eq)]
pub enum InputEffect {
    Common(ActionEffect),
    /// What the backend does, and its steps in order.
    Backend { effect: BackendEffect, steps: Vec<BackendStep> },
    /// Hand the event to the function for its kind.
    Handle(InputKind),
    /// The backend has nothing that the key could be about.
    Unsupported,
    Ignored,
}

/// What is done to an output by a key.
pub open spec fn output_effect(space: Space, action: KeyAction, at: int, steps: ScaleSteps) -> BackendEffect {
    match action {
        KeyAction::ScaleUp => BackendEffect::SetScale { output: at as usize, scale: steps.up },
        KeyAction::ScaleDown => BackendEffect::SetScale {
            output: at as usize,
            scale: steps.down.raised(F64 { bits: ONE_BITS }),
        },
        KeyAction::RotateOutput => BackendEffect::SetTransform {
            output: at as usize,
            transform: space.outputs@[at].transform.after(),
        },
        _ => BackendEffect::Nothing,
    }
}

fn act_on_output(space: &Space, action: &KeyAction, at: usize, steps: ScaleSteps) -> (e: BackendEffect)
    requires
        at < space.outputs@.len(),
    ensures
        e == output_effect(*space, *action, at as int, steps),
{
    match action {
        KeyAction::ScaleUp => BackendEffect::SetScale { output: at, scale: steps.up },
        KeyAction::ScaleDown => BackendEffect::SetScale {
            output: at,
            scale: steps.down.at_least(F64 { bits: ONE_BITS }),
        },
        KeyAction::RotateOutput => BackendEffect::SetTransform {
            output: at,
            transform: space.outputs[at].transform.rotated(),
        },
        _ => BackendEffect::Nothing,
    }
}

/// Where the pointer goes on a screen: half its width from its left side, half
/// its height down.
pub open spec fn screen_effect(space: Space, num: usize) -> BackendEffect {
    if num < space.outputs@.len() {
        let g = space.outputs@[num as int].geometry->0;
        BackendEffect::WarpPointer {
            twice_x: (2 * g.loc.x + g.size.w) as i64,
            twice_y: g.size.h as i64,
        }
    } else {
        BackendEffect::Nothing
    }
}

/// Whether `e` is what the native backend does about a key, with the pointer at
/// `pointer`.
pub open spec fn is_native_effect(
    space: Space,
    action: KeyAction,
    pointer: Point,
    steps: Seq<ScaleSteps>,
    e: BackendEffect,
) -> bool {
    match action {
        KeyAction::VtSwitch(vt) => e == (BackendEffect::SwitchVt { vt }),
        KeyAction::Screen(num) => e == screen_effect(space, num),
        KeyAction::ToggleTint => e == BackendEffect::ToggleTint,
        _ => {
            &&& forall|at: int| #[trigger]
                output_holding(space, pointer, at) ==> e == output_effect(
                    space,
                    action,
                    at,
                    steps[at],
                )
            &&& (forall|at: int| !#[trigger] output_holding(space, pointer, at)) ==> e
                == BackendEffect::Nothing
        },
    }
}

/// All outputs are mapped, and each has its scales.
pub open spec fn is_mapped(space: Space, steps: Seq<ScaleSteps>) -> bool {
    &&& steps.len() == space.outputs@.len()
    &&& forall|i: int| 0 <= i < space.outputs@.len() ==> (#[trigger] space.outputs@[i]).geometry is Some
}

fn act_natively(space: &Space, action: &KeyAction, pointer: Point, steps: &Vec<ScaleSteps>) -> (e:
    BackendEffect)
    requires
        is_mapped(*space, steps@),
    ensures
        is_native_effect(*space, *action, pointer, steps@, e),
{
    match action {
        KeyAction::VtSwitch(vt) => BackendEffect::SwitchVt { vt: *vt },
        KeyAction::Screen(num) => {
            if *num < space.outputs.len() {
                assert(space.outputs@[*num as int].geometry is Some);
                let g = space.outputs[*num].geometry.unwrap();
                BackendEffect::WarpPointer {
                    twice_x: 2 * g.loc.x as i64 + g.size.w as i64,
                    twice_y: g.size.h as i64,
                }
            } else {
                BackendEffect::Nothing
            }
        },
        KeyAction::ToggleTint => BackendEffect::ToggleTint,
        _ => match output_under(space, pointer) {
            Some(at) => {
                let e = act_on_output(space, action, at, steps[at]);
                assert(forall|k: int| #[trigger] output_holding(*space, pointer, k) ==> k == at);
                e
            },
            None => BackendEffect::Nothing,
        },
    }
}

/// Whether there is an output of a name.
pub open spec fn has_output(outputs: Seq<Output>, name: Seq<char>) -> bool {
    exists|i: int| 0 <= i < outputs.len() && (#[trigger] outputs[i]).name@ == name
}

impl Session {
    /// What the native backend does about an event. `pointer` is where the
    /// pointer is, in whole pixels, and `steps` are the scales next to those of
    /// the outputs.
    pub fn process_input_event(
        &mut self,
        event: InputStep,
        space: &Space,
        pointer: Point,
        steps: &Vec<ScaleSteps>,
    ) -> (e: InputEffect)
        requires
            is_mapped(*space, steps@),
        ensures
            match event {
                InputStep::Device(kind) => {
                    &&& *final(self) == *old(self)
                    &&& e == (if handled_natively(kind) {
                        InputEffect::Handle(kind)
                    } else {
                        InputEffect::Ignored
                    })
                },
                InputStep::Key(action) => if is_backend_action(action) {
                    &&& *final(self) == *old(self)
                    &&& e matches InputEffect::Backend { effect, steps: order }
                    &&& is_native_effect(*space, action, pointer, steps@, effect)
                    &&& order@ == steps_for(effect, true)
                } else {
                    &&& *final(self) == session_after(*old(self), action)
                    &&& e matches InputEffect::Common(c)
                    &&& is_effect(*old(self), action, c)
                },
            },
    {
        match event {
            InputStep::Device(kind) => {
                if kind == InputKind::Other {
                    InputEffect::Ignored
                } else {
                    InputEffect::Handle(kind)
                }
            },
            InputStep::Key(action) => match dispatch_native(&action) {
                KeyDispatch::Backend => {
                    let effect = act_natively(space, &action, pointer, steps);
                    InputEffect::Backend { effect, steps: list_steps(effect, true) }
                },
                _ => InputEffect::Common(self.process_common_key_action(action)),
            },
        }
    }

    /// What a backend does about an event that is a window of another
    /// compositor. Its output is the one of the name.
    pub fn process_input_event_windowed(
        &mut self,
        event: InputStep,
        space: &Space,
        output_name: &str,
        steps: &Vec<ScaleSteps>,
    ) -> (e: InputEffect)
        requires
            has_output(space.outputs@, output_name@),
            steps@.len() == space.outputs@.len(),
        ensures
            match event {
                InputStep::Device(kind) => {
                    &&& *final(self) == *old(self)
                    &&& e == (if handled_in_window(kind) {
                        InputEffect::Handle(kind)
                    } else {
                        InputEffect::Ignored
                    })
                },
                InputStep::Key(action) => if action is ScaleUp || action is ScaleDown
                    || action is RotateOutput {
                    &&& *final(self) == *old(self)
                    &&& e matches InputEffect::Backend { effect, steps: order }
                    &&& order@ == steps_for(effect, false)
                    &&& forall|at: int| #[trigger]
                        output_named(*space, output_name@, at) ==> effect == output_effect(
                            *space,
                            action,
                            at,
                            steps@[at],
                        )
                } else if is_backend_action(action) {
                    *final(self) == *old(self) && e == InputEffect::Unsupported
                } else {
                    &&& *final(self) == session_after(*old(self), action)
                    &&& e matches InputEffect::Common(c)
                    &&& is_effect(*old(self), action, c)
                },
            },
    {
        match event {
            InputStep::Device(kind) => match kind {
                InputKind::PointerMotionAbsolute
                | InputKind::PointerButton
                | InputKind::PointerAxis
                | InputKind::TouchDown
                | InputKind::TouchUp
                | InputKind::TouchMotion
                | InputKind::TouchFrame
                | InputKind::TouchCancel
                | InputKind::DeviceAdded
                | InputKind::DeviceRemoved => InputEffect::Handle(kind),
                _ => InputEffect::Ignored,
            },
            InputStep::Key(action) => match dispatch_windowed(&action) {
                KeyDispatch::Backend => match find_output_named(space, output_name) {
                    Some(at) => {
                        let b = act_on_output(space, &action, at, steps[at]);
                        assert(forall|k: int| #[trigger]
                            output_named(*space, output_name@, k) ==> k == at);
                        InputEffect::Backend { effect: b, steps: list_steps(b, false) }
                    },
                    None => InputEffect::Ignored,
                },
                KeyDispatch::Unsupported => InputEffect::Unsupported,
                KeyDispatch::Common => InputEffect::Common(self.process_common_key_action(action)),
            },
        }
    }
}

/// What a window of another compositor acts on, the native backend acts on too.
pub proof fn windows_handle_no_more(kind: InputKind)
    requires
        handled_in_window(kind),
    ensures
        handled_natively(kind),
{
}

/// However often the scale is stepped down, it never goes below one.
pub proof fn scale_never_below_one(space: Space, at: int, steps: ScaleSteps)
    ensures
        output_effect(space, KeyAction::ScaleDown, at, steps) matches BackendEffect::SetScale {
            scale,
            ..
        } && (F64 { bits: ONE_BITS }).at_most(scale),
{
}

/// What is done when the pointer is moved.
#[derive(Clone, Copy, Debug, PartialEq, Eq, Structural)]
pub enum MoveStep {
    /// Tell the surface that was under the pointer how far it was moved.
    Relative,
    /// Tell it where the pointer is now.
    Motion,
    Frame,
    /// Choose the cursor anew.
    UpdateCursor,
    /// Let the constraint hold that the pointer has come to.
    Activate,
}

/// What is done when the pointer is moved: a pointer that may not go there only
/// reports by how much it was moved.
pub open spec fn move_steps(moves: bool, activates: bool) -> Seq<MoveStep> {
    if !moves {
        seq![MoveStep::Relative, MoveStep::Frame]
    } else if !activates {
        seq![MoveStep::Relative, MoveStep::Motion, MoveStep::Frame, MoveStep::UpdateCursor]
    } else {
        seq![
            MoveStep::Relative,
            MoveStep::Motion,
            MoveStep::Frame,
            MoveStep::UpdateCursor,
            MoveStep::Activate,
        ]
    }
}

/// What is done when the pointer is moved. `hold` is how the surface under it
/// holds it, `same_surface` and `in_region` tell of the place that it is moved
/// to, and `constraint` is that of the surface there.
pub fn on_pointer_move(
    hold: PointerHold,
    same_surface: bool,
    in_region: Option<bool>,
    constraint: Option<PointerConstraint>,
) -> (steps: Vec<MoveStep>)
    ensures
        steps@ == move_steps(
            match hold {
                PointerHold::Free => true,
                PointerHold::Locked => false,
                PointerHold::Confined => same_surface && (in_region is None || in_region == Some(
                    true,
                )),
            },
            constraint matches Some(c) && !c.active && c.reaches(),
        ),
{
    let mut steps: Vec<MoveStep> = Vec::new();
    steps.push(MoveStep::Relative);
    if !may_move(hold, same_surface, in_region) {
        steps.push(MoveStep::Frame);
        assert(steps@ =~= move_steps(false, false));
        return steps;
    }
    steps.push(MoveStep::Motion);
    steps.push(MoveStep::Frame);
    steps.push(MoveStep::UpdateCursor);
    if activates(constraint) {
        steps.push(MoveStep::Activate);
        assert(steps@ =~= move_steps(true, true));
    } else {
        assert(steps@ =~= move_steps(true, false));
    }
    steps
}

/// The area that a touch screen or a tablet spreads over.
#[derive(Clone, Copy, Debug, PartialEq, Eq, Structural)]
pub struct TouchArea {
    /// Its size before the output's transform.
    pub size: Size,
    pub transform: Transform,
    pub loc: Point,
}

pub open spec fn area_of(o: Output) -> Option<TouchArea> {
    match o.geometry {
        Some(g) => Some(
            TouchArea {
                size: o.transform.inverse().sized(g.size),
                transform: o.transform,
                loc: g.loc,
            },
        ),
        None => None,
    }
}

/// The area that a touch screen or a tablet spreads over: the built-in panel,
/// else the first output.
pub fn touch_area(space: &Space) -> (r: Option<TouchArea>)
    ensures
        forall|at: int| #[trigger]
            output_beginning(space.outputs@, "eDP"@, at) ==> r == area_of(space.outputs@[at]),
        (forall|at: int| !#[trigger] output_beginning(space.outputs@, "eDP"@, at)) ==> r == (
        if space.outputs@.len() > 0 {
            area_of(space.outputs@[0])
        } else {
            None
        }),
{
    match touch_output(space) {
        None => None,
        Some(i) => {
            proof {
                assert forall|at: int| #[trigger]
                    output_beginning(space.outputs@, "eDP"@, at) implies at == i by {
                    if output_beginning(space.outputs@, "eDP"@, i as int) {
                    } else {
                        assert(crate::text::begins_with(space.outputs@[at].name@, "eDP"@));
                    }
                }
                if forall|at: int| !#[trigger] output_beginning(space.outputs@, "eDP"@, at) {
                    assert(!output_beginning(space.outputs@, "eDP"@, i as int));
                    assert(i == 0);
                }
            }
            let o = &space.outputs[i];
            match o.geometry {
                Some(g) => Some(
                    TouchArea {
                        size: o.transform.invert().transform_size(g.size),
                        transform: o.transform,
                        loc: g.loc,
                    },
                ),
                None => None,
            }
        },
    }
}

/// What a tablet tool reports.
#[derive(Clone, Copy, Debug, PartialEq, Eq, Structural)]
pub enum ToolReport {
    Pressure,
    Distance,
    Tilt,
    Slider,
    Rotation,
    Wheel,
    Motion,
}

/// What has changed about a tablet tool.
#[derive(Clone, Copy, Debug, PartialEq, Eq, Structural)]
pub struct ToolChanges {
    pub pressure: bool,
    pub distance: bool,
    pub tilt: bool,
    pub slider: bool,
    pub rotation: bool,
    pub wheel: bool,
}

pub open spec fn when(changed: bool, report: ToolReport) -> Seq<ToolReport> {
    if changed {
        seq![report]
    } else {
        Seq::empty()
    }
}

fn report_when(r: &mut Vec<ToolReport>, changed: bool, report: ToolReport)
    ensures
        final(r)@ == old(r)@ + when(changed, report),
{
    let ghost before = r@;
    if changed {
        r.push(report);
    }
    assert(r@ =~= before + when(changed, report));
}

impl ToolChanges {
    /// What is reported: what has changed, and then where the tool is.
    pub open spec fn reports(self) -> Seq<ToolReport> {
        when(self.pressure, ToolReport::Pressure) + when(self.distance, ToolReport::Distance) + when(
            self.tilt,
            ToolReport::Tilt,
        ) + when(self.slider, ToolReport::Slider) + when(self.rotation, ToolReport::Rotation) + when(
            self.wheel,
            ToolReport::Wheel,
        ) + seq![ToolReport::Motion]
    }

    /// What is reported of a tablet tool that was moved; nothing of one that
    /// the seat does not know.
    pub fn on_tablet_tool_axis(&self, known: bool) -> (r: Vec<ToolReport>)
        ensures
            r@ == (if known {
                self.reports()
            } else {
                Seq::empty()
            }),
    {
        let mut r: Vec<ToolReport> = Vec::new();
        if !known {
            assert(r@ =~= Seq::empty());
            return r;
        }
        report_when(&mut r, self.pressure, ToolReport::Pressure);
        assert(r@ =~= when(self.pressure, ToolReport::Pressure));
        report_when(&mut r, self.distance, ToolReport::Distance);
        report_when(&mut r, self.tilt, ToolReport::Tilt);
        report_when(&mut r, self.slider, ToolReport::Slider);
        report_when(&mut r, self.rotation, ToolReport::Rotation);
        report_when(&mut r, self.wheel, ToolReport::Wheel);
        report_when(&mut r, true, ToolReport::Motion);
        r
    }
}

/// What a tablet tool tells a surface that it comes near to or leaves.
#[derive(Clone, Copy, Debug, PartialEq, Eq, Structural)]
pub enum Proximity {
    In,
    Out,
    Nothing,
}

/// What a tablet tool tells the surface under it: nothing, where there is no
/// surface, or the seat knows the tablet or the tool not.
pub fn on_tablet_tool_proximity(near: bool, surface: bool, tablet: bool, tool: bool) -> (p: Proximity)
    ensures
        p == (if !surface || !tablet || !tool {
            Proximity::Nothing
        } else if near {
            Proximity::In
        } else {
            Proximity::Out
        }),
{
    if !surface || !tablet || !tool {
        Proximity::Nothing
    } else if near {
        Proximity::In
    } else {
        Proximity::Out
    }
}

/// On the machine's own screens every device is handled, and what is not known
/// is not; in a window only what a window is told of.
pub proof fn devices_are_handled_by_kind(kind: InputKind)
    ensures
        kind is Other ==> !handled_natively(kind) && !handled_in_window(kind),
        !(kind is Other) ==> handled_natively(kind),
        kind is PointerMotionAbsolute || kind is PointerButton || kind is PointerAxis
            ==> handled_in_window(kind),
        kind is TouchDown || kind is TouchUp || kind is TouchMotion || kind is TouchFrame
            || kind is TouchCancel ==> handled_in_window(kind),
        kind is DeviceAdded || kind is DeviceRemoved ==> handled_in_window(kind),
        kind is PointerMotion ==> !handled_in_window(kind),
        kind is TabletToolAxis || kind is TabletToolProximity || kind is TabletToolTip
            || kind is TabletToolButton ==> !handled_in_window(kind),
        kind is GestureSwipeBegin || kind is GestureSwipeUpdate || kind is GestureSwipeEnd
            || kind is GesturePinchBegin || kind is GesturePinchUpdate || kind is GesturePinchEnd
            || kind is GestureHoldBegin || kind is GestureHoldEnd ==> !handled_in_window(kind),
{
}

/// The pointer goes to the middle of the screen that was asked for: as far from
/// its left edge as from its right, and half its height down. A screen that is
/// not there leaves everything.
pub proof fn screens_get_the_pointer_in_their_middle(space: Space, num: usize)
    ensures
        num >= space.outputs@.len() ==> screen_effect(space, num) is Nothing,
        num < space.outputs@.len() && space.outputs@[num as int].geometry is Some ==> (screen_effect(
            space,
            num,
        ) matches BackendEffect::WarpPointer { twice_x, twice_y } && ({
            let g = space.outputs@[num as int].geometry->0;
            &&& twice_x - 2 * g.loc.x == 2 * (g.loc.x + g.size.w) - twice_x
            &&& twice_y == g.size.h
        })),
{
}

/// Keys that change an output change the one under the pointer: larger by one
/// step, smaller by one but never below one, or turned on by a quarter. All other
/// keys leave it.
pub proof fn output_keys_change_the_output(space: Space, action: KeyAction, at: usize, steps: ScaleSteps)
    ensures
        action is ScaleUp ==> output_effect(space, action, at as int, steps) == (
        BackendEffect::SetScale { output: at, scale: steps.up }),
        action is ScaleDown ==> (output_effect(
            space,
            action,
            at as int,
            steps,
        ) matches BackendEffect::SetScale { output, scale } && output == at && scale
            == steps.down.raised(F64 { bits: 0x3FF0_0000_0000_0000 })),
        action is RotateOutput ==> (output_effect(
            space,
            action,
            at as int,
            steps,
        ) matches BackendEffect::SetTransform { output, transform } && output == at && transform
            == space.outputs@[at as int].transform.after()),
        !(action is ScaleUp || action is ScaleDown || action is RotateOutput) ==> output_effect(
            space,
            action,
            at as int,
            steps,
        ) is Nothing,
{
}

/// What the backend does is what the key asks for, and no more: a terminal key
/// switches to its terminal, a screen key warps the pointer, the tint key toggles
/// the tint, and only these three do so.
pub proof fn backend_keys_do_what_they_ask(
    space: Space,
    action: KeyAction,
    pointer: Point,
    steps: Seq<ScaleSteps>,
    e: BackendEffect,
)
    requires
        is_native_effect(space, action, pointer, steps, e),
    ensures
        action matches KeyAction::VtSwitch(n) ==> (e matches BackendEffect::SwitchVt { vt } && vt == n),
        action is ToggleTint ==> e is ToggleTint,
        e is SwitchVt ==> action is VtSwitch,
        e is ToggleTint ==> action is ToggleTint,
        e is WarpPointer ==> action is Screen,
        action matches KeyAction::Screen(n) ==> (n < space.outputs@.len() <==> e is WarpPointer),
        e matches BackendEffect::SetScale { output, scale } ==> (action is ScaleUp
            || action is ScaleDown) && exists|at: int| #[trigger]
            output_holding(space, pointer, at),
        e matches BackendEffect::SetTransform { output, transform } ==> action is RotateOutput
            && exists|at: int| #[trigger] output_holding(space, pointer, at),
{
}

/// What is done begins with the change itself; after a change of an output
/// everything is put where it belongs before the output is drawn anew, which
/// comes last. Clients are told of the pointer after it has moved, and a frame
/// ends what they are told.
pub proof fn changes_come_before_what_follows(effect: BackendEffect, native: bool)
    ensures
        ({
            let s = steps_for(effect, native);
            &&& effect is Nothing <==> s.len() == 0
            &&& effect matches BackendEffect::SwitchVt { vt } ==> s.len() == 1 && s[0] == (
            BackendStep::SwitchVt { vt })
            &&& effect is ToggleTint ==> s.len() == 1 && s[0] is ToggleTint
            &&& effect matches BackendEffect::WarpPointer { twice_x, twice_y } ==> s.len() == 2
                && s[0] == (BackendStep::WarpPointer { twice_x, twice_y }) && s[1] is PointerFrame
            &&& effect matches BackendEffect::SetScale { output, scale } ==> s[0] == (
            BackendStep::SetScale { output, scale }) && s.last() == (BackendStep::ResetBuffers {
                output,
            }) && s.contains(BackendStep::FixPositions) && (native <==> s.contains(
                BackendStep::RescalePointer { output },
            )) && (native <==> s.contains(BackendStep::MovePointer)) && (native ==> s.len() == 6
                && s[1] is RescalePointer && s[2] is FixPositions && s[3] is MovePointer
                && s[4] is PointerFrame) && (!native ==> s.len() == 3)
            &&& effect matches BackendEffect::SetTransform { output, transform } ==> s.len() == 3
                && s[0] == (BackendStep::SetTransform { output, transform }) && s[1] is FixPositions
                && s[2] == (BackendStep::ResetBuffers { output })
        }),
{
    let s = steps_for(effect, native);
    if let BackendEffect::SetScale { output, scale } = effect {
        if native {
            assert(s[1] == (BackendStep::RescalePointer { output }));
            assert(s[2] == BackendStep::FixPositions);
            assert(s[3] == BackendStep::MovePointer);
        } else {
            assert(s[1] == BackendStep::FixPositions);
        }
    }
}

/// A client is always told how far the pointer was moved, first of all; it is
/// told where the pointer is only if it moves, and a frame follows what it is
/// told. A constraint takes hold last, after the cursor was chosen.
pub proof fn moves_are_told_in_order(moves: bool, activates: bool)
    ensures
        ({
            let s = move_steps(moves, activates);
            &&& s[0] is Relative
            &&& moves <==> s.contains(MoveStep::Motion)
            &&& moves <==> s.contains(MoveStep::UpdateCursor)
            &&& moves && activates <==> s.contains(MoveStep::Activate)
            &&& moves ==> s[1] is Motion && s[2] is Frame && s[3] is UpdateCursor
            &&& moves && activates ==> s.len() == 5 && s[4] is Activate
            &&& moves && !activates ==> s.len() == 4
            &&& !moves ==> s.len() == 2 && s[1] is Frame
        }),
{
    let s = move_steps(moves, activates);
    if moves {
        assert(s[1] == MoveStep::Motion);
        assert(s[3] == MoveStep::UpdateCursor);
        if activates {
            assert(s[4] == MoveStep::Activate);
        }
    }
}

/// A touch screen covers its output as the output lies: at its place, and as
/// large as it is once the output is turned back.
pub proof fn touch_screens_cover_their_output(o: Output)
    ensures
        o.geometry is None <==> area_of(o) is None,
        o.geometry matches Some(g) ==> (area_of(o) matches Some(a) && a.loc == g.loc && a.transform
            == o.transform && (a.size == g.size || (a.size.w == g.size.h && a.size.h == g.size.w))),
{
}

/// A report joins the others exactly if there is something to report.
proof fn reports_join(before: Seq<ToolReport>, changed: bool, report: ToolReport)
    ensures
        forall|r: ToolReport| #[trigger]
            (before + when(changed, report)).contains(r) <==> before.contains(r) || (changed && r
                == report),
{
    let after = before + when(changed, report);
    assert forall|r: ToolReport| #[trigger] after.contains(r) <==> before.contains(r) || (changed
        && r == report) by {
        if before.contains(r) {
            let i = choose|i: int| 0 <= i < before.len() && before[i] == r;
            assert(after[i] == r);
        }
        if changed && r == report {
            assert(after[before.len() as int] == r);
        }
        if after.contains(r) {
            let i = choose|i: int| 0 <= i < after.len() && after[i] == r;
            if i < before.len() {
                assert(before[i] == r);
            }
        }
    }
}

/// A tool reports what has changed and nothing else, and that it moved last of
/// all.
pub proof fn tools_report_what_changed(c: ToolChanges)
    ensures
        c.pressure <==> c.reports().contains(ToolReport::Pressure),
        c.distance <==> c.reports().contains(ToolReport::Distance),
        c.tilt <==> c.reports().contains(ToolReport::Tilt),
        c.slider <==> c.reports().contains(ToolReport::Slider),
        c.rotation <==> c.reports().contains(ToolReport::Rotation),
        c.wheel <==> c.reports().contains(ToolReport::Wheel),
        c.reports().last() is Motion,
{
    let empty = Seq::<ToolReport>::empty();
    let a = when(c.pressure, ToolReport::Pressure);
    let b = a + when(c.distance, ToolReport::Distance);
    let d = b + when(c.tilt, ToolReport::Tilt);
    let e = d + when(c.slider, ToolReport::Slider);
    let f = e + when(c.rotation, ToolReport::Rotation);
    let g = f + when(c.wheel, ToolReport::Wheel);
    reports_join(empty, c.pressure, ToolReport::Pressure);
    assert(empty + a =~= a);
    reports_join(a, c.distance, ToolReport::Distance);
    reports_join(b, c.tilt, ToolReport::Tilt);
    reports_join(d, c.slider, ToolReport::Slider);
    reports_join(e, c.rotation, ToolReport::Rotation);
    reports_join(f, c.wheel, ToolReport::Wheel);
    reports_join(g, true, ToolReport::Motion);
    assert(c.reports() =~= g + when(true, ToolReport::Motion));
    assert(forall|r: ToolReport| !(#[trigger] empty.contains(r)));
}

} // verus!
