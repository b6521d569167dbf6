//! An effect that captures the framebuffer, blurs it and draws it back.
use vstd::prelude::*;
use crate::float::{F32, F64};
use crate::geometry::{Point, Rect, Size, Transform};
use crate::render::BlurOptions;
use crate::render_helpers::shader_element::{counted, zero};
use crate::state::RectF;

verus! {

/// An element that shows, blurred, what lies behind it.
#[derive(Clone, Copy, Debug, PartialEq, Eq)]
pub struct FramebufferEffectElement {
    /// What the element is known by from frame to frame.
    pub id: u64,
    /// Changes with what is drawn.
    pub commit: usize,
    pub geometry: RectF,
    pub scale: F32,
    pub blur_options: Option<BlurOptions>,
}

impl FramebufferEffectElement {
    pub fn new(id: u64, geometry: RectF, scale: F32, blur_options: Option<BlurOptions>) -> (e:
        FramebufferEffectElement)
        ensures
            e == (FramebufferEffectElement { id, commit: 0, geometry, scale, blur_options }),
    {
        FramebufferEffectElement { id, commit: 0, geometry, scale, blur_options }
    }

    /// Has all of the element drawn anew.
    pub fn damage_all(&mut self)
        ensures
            *final(self) == (FramebufferEffectElement {
                commit: counted(old(self).commit),
                ..*old(self)
            }),
    {
        self.commit = self.commit.wrapping_add(1);
    }

    pub fn id(&self) -> (id: u64)
        ensures
            id == self.id,
    {
        self.id
    }

    /// The state of what the element shows.
    pub fn current_commit(&self) -> (commit: usize)
        ensures
            commit == self.commit,
    {
        self.commit
    }

    /// The part that is drawn: all of it, seen from its own corner.
    pub fn src(&self) -> (r: RectF)
        ensures
            r == (RectF { x: zero(), y: zero(), ..self.geometry }),
    {
        RectF {
            x: F64 { bits: 0 },
            y: F64 { bits: 0 },
            w: self.geometry.w,
            h: self.geometry.h,
        }
    }

    /// Such an element reads the framebuffer before it draws.
    pub fn is_framebuffer_effect(&self) -> (r: bool)
        ensures
            r,
    {
        true
    }

    /// A capture for the element: it is blurred where the element has options
    /// for that.
    pub fn begin_capture(&self, can_blur: bool) -> (c: Capture)
        ensures
            c == Capture::fresh(self.blur_options is Some, can_blur),
    {
        Capture::new(self.blur_options.is_some(), can_blur)
    }
}

/// The part of an element that is on the output, with the damage of it.
#[derive(Debug, PartialEq, Eq)]
pub struct EffectDraw {
    pub dst: Rect,
    pub damage: Vec<Rect>,
}

/// The rectangle of an output of this size.
pub open spec fn output_rect(size: Size) -> Rect {
    Rect { loc: Point { x: 0, y: 0 }, size }
}

/// The damage within the first `upto` rectangles that is in a window, seen from
/// there.
pub open spec fn cropped(damage: Seq<Rect>, window: Rect, upto: int) -> Seq<Rect>
    decreases upto,
{
    if upto <= 0 {
        Seq::empty()
    } else {
        let before = cropped(damage, window, upto - 1);
        if damage[upto - 1].meets(window) {
            let part = damage[upto - 1].common(window);
            before.push(Rect { loc: part.loc.minus(window.loc), size: part.size })
        } else {
            before
        }
    }
}

/// The damage of an effect within its visible part: all of it where all of the
/// effect is visible.
pub open spec fn effect_damage(dst: Rect, visible: Rect, damage: Seq<Rect>) -> Seq<Rect> {
    if visible != dst {
        cropped(
            damage,
            Rect { loc: visible.loc.minus(dst.loc), size: visible.size },
            damage.len() as int,
        )
    } else {
        damage
    }
}

/// What to draw of a framebuffer effect: the part that is on the output, where
/// that is damaged. `None` where there is nothing to draw.
pub fn effect_draw(dst: Rect, output: Size, damage: &Vec<Rect>) -> (r: Option<EffectDraw>)
    ensures
        ({
            let visible = dst.common(output_rect(output));
            let left = effect_damage(dst, visible, damage@);
            if dst.meets(output_rect(output)) && left.len() > 0 {
                r matches Some(e) && e.dst == visible && e.damage@ == left
            } else {
                r is None
            }
        }),
{
    let bounds = Rect { loc: Point { x: 0, y: 0 }, size: output };
    let visible = match dst.intersection(&bounds) {
        Some(visible) => visible,
        None => {
            return None;
        },
    };
    let window = Rect { loc: visible.loc.relative_to(dst.loc), size: visible.size };
    let whole = visible == dst;
    let mut left: Vec<Rect> = Vec::new();
    let mut i: usize = 0;
    while i < damage.len()
        invariant
            i <= damage@.len(),
            window == (Rect { loc: visible.loc.minus(dst.loc), size: visible.size }),
            whole ==> left@ == damage@.take(i as int),
            !whole ==> left@ == cropped(damage@, window, i as int),
        decreases damage@.len() - i,
    {
        if whole {
            left.push(damage[i]);
        } else {
            match damage[i].intersection(&window) {
                Some(part) => {
                    left.push(Rect { loc: part.loc.relative_to(window.loc), size: part.size });
                },
                None => {},
            }
        }
        i = i + 1;
        assert(whole ==> left@ =~= damage@.take(i as int));
    }
    assert(damage@.take(i as int) == damage@);
    if left.len() == 0 {
        return None;
    }
    Some(EffectDraw { dst: visible, damage: left })
}

/// The part of the framebuffer that an effect captures, as it lies in the
/// framebuffer. `None` where the effect is off the output.
pub fn capture_region(dst: Rect, output: Size, transform: Transform) -> (r: Option<Rect>)
    requires
        dst.size.w >= 0,
        dst.size.h >= 0,
        output.w >= 0,
        output.h >= 0,
    ensures
        r == (if dst.meets(output_rect(output)) {
            Some(transform.placed(dst.common(output_rect(output)), output))
        } else {
            None
        }),
{
    let bounds = Rect { loc: Point { x: 0, y: 0 }, size: output };
    match dst.intersection(&bounds) {
        Some(visible) => Some(transform.transform_rect_in(visible, output)),
        None => None,
    }
}

/// What an effect shows after the framebuffer was captured.
#[derive(Clone, Copy, Debug, PartialEq, Eq, Structural)]
pub enum CaptureResult {
    /// The captured picture as it is.
    Plain,
    /// The captured picture, blurred.
    Blurred,
    /// Nothing.
    Missing,
}

/// What an effect shows: the plain picture where no blur is wanted, the blurred
/// one where it could be made, else nothing.
pub open spec fn shown_after(wants_blur: bool, can_blur: bool, prepared: bool, rendered: bool) -> CaptureResult {
    if !wants_blur {
        CaptureResult::Plain
    } else if can_blur && prepared && rendered {
        CaptureResult::Blurred
    } else {
        CaptureResult::Missing
    }
}

/// Whether the texture that an effect captures into has to be made anew.
pub fn needs_texture(current: Option<Size>, wanted: Size) -> (r: bool)
    ensures
        r == (current != Some(wanted)),
{
    match current {
        Some(size) => !(size.w == wanted.w && size.h == wanted.h),
        None => true,
    }
}

/// Where a capture stands.
#[derive(Clone, Copy, Debug, PartialEq, Eq, Structural)]
pub enum CaptureStage {
    Begun,
    Measuring,
    Creating,
    Preparing,
    Blitting,
    Blurring,
    Over,
}

/// A capture of the framebuffer on its way.
#[derive(Clone, Copy, Debug, PartialEq, Eq, Structural)]
pub struct Capture {
    pub stage: CaptureStage,
    /// Whether blur is asked for.
    pub wants_blur: bool,
    /// Whether the blur can still be made.
    pub can_blur: bool,
    /// What the effect shows by now.
    pub shown: CaptureResult,
}

/// What is known of a capture now.
#[derive(Clone, Copy, Debug, PartialEq, Eq, Structural)]
pub enum CaptureEvent {
    /// The effect is about to be drawn there.
    Begin { dst: Rect, output: Size, transform: Transform },
    /// The texture is to have this size; the current one has the other.
    Measured { size: Size, current: Option<Size> },
    Created { succeeded: bool },
    Prepared { succeeded: bool },
    Blitted { succeeded: bool },
    Blurred { succeeded: bool },
}

/// What to do next for a capture.
#[derive(Clone, Copy, Debug, PartialEq, Eq, Structural)]
pub enum CaptureAction {
    /// Work out the size of the texture for this part of the framebuffer.
    Measure { region: Rect },
    /// Make a texture.
    Create { size: Size },
    /// Make the textures that the blur needs.
    Prepare,
    /// Copy the part of the framebuffer.
    Blit,
    /// Blur the copy.
    Blur,
    /// All is done.
    Finish,
    /// The capture failed.
    Fail,
}

impl Capture {
    pub open spec fn fresh(wants_blur: bool, can_blur: bool) -> Capture {
        Capture { stage: CaptureStage::Begun, wants_blur, can_blur, shown: CaptureResult::Missing }
    }

    /// A capture that shows nothing yet.
    pub fn new(wants_blur: bool, can_blur: bool) -> (c: Capture)
        ensures
            c == Capture::fresh(wants_blur, can_blur),
    {
        Capture { stage: CaptureStage::Begun, wants_blur, can_blur, shown: CaptureResult::Missing }
    }

    pub open spec fn at(self, stage: CaptureStage) -> Capture {
        Capture { stage, ..self }
    }

    pub open spec fn blurs(self) -> bool {
        self.wants_blur && self.can_blur
    }

    /// What follows once there is a texture.
    pub open spec fn with_texture(self) -> (Capture, CaptureAction) {
        if self.blurs() {
            (self.at(CaptureStage::Preparing), CaptureAction::Prepare)
        } else {
            (self.at(CaptureStage::Blitting), CaptureAction::Blit)
        }
    }

    pub open spec fn over(self, shown: CaptureResult) -> (Capture, CaptureAction) {
        (Capture { stage: CaptureStage::Over, shown, ..self }, CaptureAction::Finish)
    }

    pub open spec fn failed(self) -> (Capture, CaptureAction) {
        (self.at(CaptureStage::Over), CaptureAction::Fail)
    }

    /// The capture after an event, and what to do then. An event that does not
    /// belong to the stage changes nothing.
    pub open spec fn after(self, event: CaptureEvent) -> (Capture, CaptureAction) {
        match (self.stage, event) {
            (CaptureStage::Begun, CaptureEvent::Begin { dst, output, transform }) => if dst.meets(
                output_rect(output),
            ) {
                (
                    self.at(CaptureStage::Measuring),
                    CaptureAction::Measure {
                        region: transform.placed(dst.common(output_rect(output)), output),
                    },
                )
            } else {
                self.over(CaptureResult::Missing)
            },
            (CaptureStage::Measuring, CaptureEvent::Measured { size, current }) => if current
                == Some(size) {
                self.with_texture()
            } else {
                (self.at(CaptureStage::Creating), CaptureAction::Create { size })
            },
            (CaptureStage::Creating, CaptureEvent::Created { succeeded }) => if succeeded {
                self.with_texture()
            } else {
                self.failed()
            },
            (CaptureStage::Preparing, CaptureEvent::Prepared { succeeded }) => (
                Capture { stage: CaptureStage::Blitting, can_blur: succeeded, ..self },
                CaptureAction::Blit,
            ),
            (CaptureStage::Blitting, CaptureEvent::Blitted { succeeded }) => if !succeeded {
                self.failed()
            } else if !self.wants_blur {
                self.over(CaptureResult::Plain)
            } else if self.can_blur {
                (self.at(CaptureStage::Blurring), CaptureAction::Blur)
            } else {
                self.over(CaptureResult::Missing)
            },
            (CaptureStage::Blurring, CaptureEvent::Blurred { succeeded }) => self.over(
                if succeeded {
                    CaptureResult::Blurred
                } else {
                    CaptureResult::Missing
                },
            ),
            _ => (self, CaptureAction::Finish),
        }
    }

    fn use_texture(&mut self) -> (action: CaptureAction)
        ensures
            (*final(self), action) == old(self).with_texture(),
    {
        if self.wants_blur && self.can_blur {
            self.stage = CaptureStage::Preparing;
            CaptureAction::Prepare
        } else {
            self.stage = CaptureStage::Blitting;
            CaptureAction::Blit
        }
    }

    fn finish(&mut self, shown: CaptureResult) -> (action: CaptureAction)
        ensures
            (*final(self), action) == old(self).over(shown),
    {
        self.stage = CaptureStage::Over;
        self.shown = shown;
        CaptureAction::Finish
    }

    /// Takes an event, and tells what to do next.
    pub fn capture_framebuffer(&mut self, event: CaptureEvent) -> (action: CaptureAction)
        requires
            event matches CaptureEvent::Begin { dst, output, .. } ==> dst.size.w >= 0 && dst.size.h
                >= 0 && output.w >= 0 && output.h >= 0,
        ensures
            (*final(self), action) == old(self).after(event),
    {
        match (self.stage, event) {
            (CaptureStage::Begun, CaptureEvent::Begin { dst, output, transform }) => {
                match capture_region(dst, output, transform) {
                    Some(region) => {
                        self.stage = CaptureStage::Measuring;
                        CaptureAction::Measure { region }
                    },
                    None => self.finish(CaptureResult::Missing),
                }
            },
            (CaptureStage::Measuring, CaptureEvent::Measured { size, current }) => {
                if needs_texture(current, size) {
                    self.stage = CaptureStage::Creating;
                    CaptureAction::Create { size }
                } else {
                    self.use_texture()
                }
            },
            (CaptureStage::Creating, CaptureEvent::Created { succeeded }) => {
                if succeeded {
                    self.use_texture()
                } else {
                    self.stage = CaptureStage::Over;
                    CaptureAction::Fail
                }
            },
            (CaptureStage::Preparing, CaptureEvent::Prepared { succeeded }) => {
                self.can_blur = succeeded;
                self.stage = CaptureStage::Blitting;
                CaptureAction::Blit
            },
            (CaptureStage::Blitting, CaptureEvent::Blitted { succeeded }) => {
                if !succeeded {
                    self.stage = CaptureStage::Over;
                    CaptureAction::Fail
                } else if !self.wants_blur {
                    self.finish(CaptureResult::Plain)
                } else if self.can_blur {
                    self.stage = CaptureStage::Blurring;
                    CaptureAction::Blur
                } else {
                    self.finish(CaptureResult::Missing)
                }
            },
            (CaptureStage::Blurring, CaptureEvent::Blurred { succeeded }) => {
                if succeeded {
                    self.finish(CaptureResult::Blurred)
                } else {
                    self.finish(CaptureResult::Missing)
                }
            },
            _ => CaptureAction::Finish,
        }
    }
}

/// The capture after it has a texture, when the framebuffer could be copied.
pub open spec fn run(capture: Capture, prepared: bool, rendered: bool) -> Capture {
    let (c, a) = capture.with_texture();
    let (c, a) = if a is Prepare {
        c.after(CaptureEvent::Prepared { succeeded: prepared })
    } else {
        (c, a)
    };
    let (c, a) = c.after(CaptureEvent::Blitted { succeeded: true });
    if a is Blur {
        c.after(CaptureEvent::Blurred { succeeded: rendered }).0
    } else {
        c
    }
}

/// A capture that has a texture and could copy the framebuffer shows the plain
/// picture where no blur is wanted; where blur is wanted it shows the blurred
/// picture or nothing, never the plain one.
pub proof fn capture_runs_its_course(
    wants_blur: bool,
    can_blur: bool,
    prepared: bool,
    rendered: bool,
)
    ensures
        ({
            let c = run(Capture::fresh(wants_blur, can_blur), prepared, rendered);
            &&& c.stage is Over
            &&& c.shown == shown_after(wants_blur, can_blur, prepared, rendered)
            &&& c.shown is Plain ==> !wants_blur
        }),
{
}

/// A capture that failed shows nothing.
pub proof fn failed_capture_shows_nothing(capture: Capture, event: CaptureEvent)
    requires
        capture.shown is Missing,
    ensures
        capture.after(event).1 is Fail ==> capture.after(event).0.shown is Missing,
{
}

/// The steps of a capture come in order, each after the one before it; what comes
/// at another time changes nothing, and a step that fails ends the capture.
pub proof fn captures_go_step_by_step(c: Capture, event: CaptureEvent)
    ensures
        c.stage is Over ==> c.after(event).0 == c,
        c.after(event).1 is Measure ==> c.stage is Begun && event is Begin,
        c.after(event).1 is Create ==> c.stage is Measuring && (
        event matches CaptureEvent::Measured { size, current } && current != Some(size)
            && c.after(event).1 == (CaptureAction::Create { size })),
        c.after(event).1 is Prepare ==> c.wants_blur && c.can_blur && (c.stage is Measuring
            || c.stage is Creating),
        c.after(event).1 is Blur ==> c.stage is Blitting && c.wants_blur && c.can_blur && event == (
        CaptureEvent::Blitted { succeeded: true }),
        c.after(event).1 is Fail ==> event == (CaptureEvent::Created { succeeded: false }) || event
            == (CaptureEvent::Blitted { succeeded: false }),
        c.stage is Blitting && event == (CaptureEvent::Blitted { succeeded: false }) ==> c.after(
            event,
        ).1 is Fail && c.after(event).0.stage is Over,
        c.stage is Creating && event == (CaptureEvent::Created { succeeded: false }) ==> c.after(
            event,
        ).1 is Fail && c.after(event).0.stage is Over,
        c.stage is Blurring && event == (CaptureEvent::Blurred { succeeded: true }) ==> c.after(
            event,
        ).0.shown is Blurred,
        c.stage is Blurring && event == (CaptureEvent::Blurred { succeeded: false }) ==> c.after(
            event,
        ).0.shown is Missing,
        c.stage is Blitting && !c.wants_blur && event == (CaptureEvent::Blitted { succeeded: true })
            ==> c.after(event).0.shown is Plain,
        c.after(event).0.wants_blur == c.wants_blur,
{
}

/// A blur is shown only where it was asked for and everything went well, a plain
/// picture only where none was asked for.
pub proof fn blurs_are_shown_when_made(wants: bool, can: bool, prepared: bool, rendered: bool)
    ensures
        shown_after(wants, can, prepared, rendered) is Plain <==> !wants,
        shown_after(wants, can, prepared, rendered) is Blurred <==> wants && can && prepared
            && rendered,
{
}

/// An effect that is seen whole is drawn anew as far as it is damaged; of one that
/// is cut off only what is seen counts, from the corner of what is seen.
pub proof fn damage_is_seen_from_the_effect(dst: Rect, visible: Rect, damage: Seq<Rect>)
    ensures
        visible == dst ==> effect_damage(dst, visible, damage) == damage,
        visible != dst && damage.len() == 1 ==> {
            let window = Rect { loc: visible.loc.minus(dst.loc), size: visible.size };
            &&& damage[0].meets(window) ==> effect_damage(dst, visible, damage) == seq![
                Rect {
                    loc: damage[0].common(window).loc.minus(window.loc),
                    size: damage[0].common(window).size,
                },
            ]
            &&& !damage[0].meets(window) ==> effect_damage(dst, visible, damage).len() == 0
        },
{
    if visible != dst && damage.len() == 1 {
        let window = Rect { loc: visible.loc.minus(dst.loc), size: visible.size };
        reveal_with_fuel(cropped, 3);
        if damage[0].meets(window) {
            assert(effect_damage(dst, visible, damage) =~= seq![
                Rect {
                    loc: damage[0].common(window).loc.minus(window.loc),
                    size: damage[0].common(window).size,
                },
            ]);
        }
    }
}

} // verus!
