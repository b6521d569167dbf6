//! Windows that are gone, and still fade from the screen.
use vstd::prelude::*;
use crate::animation::{Animation, AnimationValue};
use crate::float::{F32, F64, ONE_BITS};
use crate::geometry::Point;
use crate::render_helpers::shader_element::Kind;
use crate::render_helpers::texture::{TextureBuffer, TextureRenderElement};
use crate::render_helpers::SizeF;

verus! {

/// A place between pixels.
#[derive(Clone, Copy, Debug, PartialEq, Eq, Structural)]
pub struct PointF {
    pub x: F64,
    pub y: F64,
}

/// A window that is closing with an animation. It is drawn from a snapshot.
#[derive(Debug, PartialEq, Eq)]
pub struct ClosingWindow {
    /// What the window looked like.
    pub buffer: TextureBuffer,
    /// Size of the window, in logical pixels.
    pub geo_size: SizeF,
    /// Where the window was.
    pub pos: PointF,
    /// Offset of the snapshot.
    pub buffer_offset: PointF,
    /// From 0 to 1, where 1 is fully closed.
    pub anim: Animation,
    /// The share of its size that the window shrinks to.
    pub end_scale: F64,
}

impl ClosingWindow {
    pub fn new(
        buffer: TextureBuffer,
        geo_size: SizeF,
        pos: PointF,
        buffer_offset: PointF,
        anim: Animation,
        end_scale: F64,
    ) -> (w: ClosingWindow)
        ensures
            w == (ClosingWindow { buffer, geo_size, pos, buffer_offset, anim, end_scale }),
    {
        ClosingWindow { buffer, geo_size, pos, buffer_offset, anim, end_scale }
    }

    /// Whether the animation goes on.
    pub fn is_animating(&self, now: u128) -> (r: bool)
        ensures
            r == !self.anim.done_at(now),
    {
        !self.anim.is_done(now)
    }

    /// Where the window was.
    pub fn pos(&self) -> (p: PointF)
        ensures
            p == self.pos,
    {
        self.pos
    }

    /// What the progress is to be computed from.
    pub fn progress_value(&self, now: u128) -> (v: AnimationValue)
        ensures
            v == (if self.anim.clamped_done_at(now) {
                AnimationValue::Exact { value: self.anim.to }
            } else {
                self.anim.value_now(now)
            }),
    {
        self.anim.clamped_value(now)
    }

    /// The element that shows the window: the whole snapshot, faded and shrunk
    /// as the numbers say.
    pub fn render(&self, numbers: &ClosingNumbers) -> (e: ClosingWindowRenderElement)
        ensures
            e.elem.buffer.agrees(self.buffer),
            e == (ClosingWindowRenderElement {
                elem: TextureRenderElement {
                    buffer: e.elem.buffer,
                    x: F64 { bits: 0 },
                    y: F64 { bits: 0 },
                    alpha: numbers.alpha,
                    src: None,
                    size: None,
                    kind: Kind::Unspecified,
                },
                origin: numbers.origin,
                scale: numbers.scale.raised(F64 { bits: 0 }),
                location: numbers.location,
            }),
    {
        let elem = TextureRenderElement::from_texture_buffer(
            self.buffer.clone(),
            F64 { bits: 0 },
            F64 { bits: 0 },
            numbers.alpha,
            None,
            None,
            Kind::Unspecified,
        );
        ClosingWindowRenderElement {
            elem,
            origin: numbers.origin,
            scale: drawn_scale(numbers.scale),
            location: numbers.location,
        }
    }
}

/// What the progress of a closing window comes to.
#[derive(Clone, Copy, Debug, PartialEq, Eq, Structural)]
pub struct ClosingNumbers {
    /// From 1 to 0.
    pub alpha: F32,
    /// From 1 to the window's end scale.
    pub scale: F64,
    /// The middle of the window, seen from the snapshot, in pixels.
    pub origin: Point,
    /// Where the snapshot is on the output, in pixels.
    pub location: Point,
}

/// What shows a closing window.
#[derive(Debug, PartialEq, Eq)]
pub struct ClosingWindowRenderElement {
    pub elem: TextureRenderElement,
    /// The point that stays when the element is scaled.
    pub origin: Point,
    pub scale: F64,
    /// How far the element is moved after that.
    pub location: Point,
}

/// How far a window is closed, between 0 and 1, by the value of its animation.
pub fn progress(value: F64) -> (p: F64)
    ensures
        p == value.clamped(F64 { bits: 0 }, F64 { bits: ONE_BITS }),
{
    value.clamp(F64 { bits: 0 }, F64 { bits: ONE_BITS })
}

/// The share of its size that a closing window is drawn with: never negative.
pub fn drawn_scale(scale: F64) -> (s: F64)
    ensures
        s == scale.raised(F64 { bits: 0 }),
{
    scale.at_least(F64 { bits: 0 })
}

/// A window that has faded away stays away.
pub proof fn faded_windows_stay_away(w: ClosingWindow, now: u128, later: u128)
    requires
        now <= later,
        w.anim.done_at(now),
    ensures
        w.anim.done_at(later),
{
}

} // verus!
