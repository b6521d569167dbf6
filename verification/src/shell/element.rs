//! What a window is drawn from.
use vstd::prelude::*;
use crate::config::CornerRadius;
use crate::float::{F32, F64};
use crate::geometry::Point;

verus! {

/// The bits of 0.5.
pub const HALF_BITS: u64 = 0x3FE0_0000_0000_0000;

/// What the elements of a window depend on.
#[derive(Debug, PartialEq, Eq)]
pub struct ElementFacts {
    pub border_width: F64,
    pub corner_radius: CornerRadius,
    pub has_shadow: bool,
    /// Nothing of the window is to be seen.
    pub is_empty: bool,
    /// Which shaders there are.
    pub clip_shader: bool,
    pub border_shader: bool,
    pub shadow_shader: bool,
    /// For each surface of the window, in order, whether it reaches into the
    /// rounded corners.
    pub clipped: Vec<bool>,
    /// Where the contents are, in physical pixels.
    pub content: Point,
    /// The width of the border and the sides of the contents, in physical
    /// pixels.
    pub border_pixels: F64,
    pub width_pixels: F64,
    pub height_pixels: F64,
}

/// An element of a window.
#[derive(Clone, Copy, Debug, PartialEq, Eq, Structural)]
pub enum WindowPiece {
    Shadow,
    /// A border with round corners.
    Border,
    Right { at: Point },
    Left { at: Point },
    Bottom { at: Point },
    Top { at: Point },
    /// The surface with this number, cut to the rounded corners.
    ClippedSurface { surface: usize },
    Surface { surface: usize },
}

pub open spec fn is_round(c: CornerRadius) -> bool {
    let zero = F32 { bits: 0 };
    !(c.top_left.same_number(zero) && c.top_right.same_number(zero) && c.bottom_right.same_number(
        zero,
    ) && c.bottom_left.same_number(zero))
}

fn round(c: CornerRadius) -> (r: bool)
    ensures
        r == is_round(c),
{
    let zero = F32 { bits: 0 };
    !(c.top_left.equals(zero) && c.top_right.equals(zero) && c.bottom_right.equals(zero)
        && c.bottom_left.equals(zero))
}

impl ElementFacts {
    /// A border is drawn that is at least half a pixel wide.
    pub open spec fn has_border(self) -> bool {
        (F64 { bits: HALF_BITS }).at_most(self.border_width) && !self.is_empty
    }

    /// The border has round corners; else it is made of four bars.
    pub open spec fn has_round_border(self) -> bool {
        self.has_border() && is_round(self.corner_radius) && self.border_shader
    }

    pub open spec fn has_bars(self) -> bool {
        self.has_border() && !self.has_round_border()
    }

    pub open spec fn casts_shadow(self) -> bool {
        self.has_shadow && !self.is_empty && self.shadow_shader
    }

    /// The bars can be measured.
    pub open spec fn fits(self) -> bool {
        let b = self.border_pixels.truncated();
        let w = self.width_pixels.truncated();
        let h = self.height_pixels.truncated();
        let x = self.content.x - b;
        let y = self.content.y - b;
        &&& i32::MIN <= b * 2 <= i32::MAX
        &&& i32::MIN <= w + b * 2 <= i32::MAX
        &&& i32::MIN <= h + b * 2 <= i32::MAX
        &&& i32::MIN <= x <= i32::MAX
        &&& i32::MIN <= y <= i32::MAX
        &&& i32::MIN <= y + (h + b * 2) <= i32::MAX
        &&& i32::MIN <= x + (w + b * 2) <= i32::MAX
        &&& i32::MIN <= y + h + b <= i32::MAX
        &&& i32::MIN <= x + w + b <= i32::MAX
    }

    /// The bars of the border, the last drawn first.
    pub open spec fn bars(self) -> Seq<WindowPiece> {
        let b = self.border_pixels.truncated();
        let w = self.width_pixels.truncated();
        let h = self.height_pixels.truncated();
        let x = self.content.x - b;
        let y = self.content.y - b;
        seq![
            WindowPiece::Right { at: Point { x: (x + w + b) as i32, y: (y + b) as i32 } },
            WindowPiece::Left { at: Point { x: x as i32, y: (y + b) as i32 } },
            WindowPiece::Bottom { at: Point { x: x as i32, y: (y + h + b) as i32 } },
            WindowPiece::Top { at: Point { x: x as i32, y: y as i32 } },
        ]
    }

    pub open spec fn surface(self, i: int) -> WindowPiece {
        if is_round(self.corner_radius) && self.clip_shader && self.clipped@[i] {
            WindowPiece::ClippedSurface { surface: i as usize }
        } else {
            WindowPiece::Surface { surface: i as usize }
        }
    }

    /// The surfaces, in their order.
    pub open spec fn surfaces(self) -> Seq<WindowPiece> {
        Seq::new(self.clipped@.len(), |i: int| self.surface(i))
    }

    /// The elements of the window, from the front to the back.
    pub open spec fn pieces(self) -> Seq<WindowPiece> {
        (if self.casts_shadow() {
            seq![WindowPiece::Shadow]
        } else {
            Seq::empty()
        }) + (if self.has_round_border() {
            seq![WindowPiece::Border]
        } else if self.has_border() {
            self.bars()
        } else {
            Seq::empty()
        }) + self.surfaces()
    }

    /// The elements of the window, from the front to the back.
    pub fn render_elements(&self) -> (v: Vec<WindowPiece>)
        requires
            self.has_bars() ==> self.fits(),
        ensures
            v@ == self.pieces(),
    {
        let mut v: Vec<WindowPiece> = Vec::new();
        if self.has_shadow && !self.is_empty && self.shadow_shader {
            v.push(WindowPiece::Shadow);
        }
        let ghost shadow = v@;
        let rounded = round(self.corner_radius);
        let half = F64 { bits: HALF_BITS };
        if half.le(self.border_width) && !self.is_empty {
            if rounded && self.border_shader {
                v.push(WindowPiece::Border);
            } else {
                let b: i32 = self.border_pixels.trunc_i32();
                let w: i32 = self.width_pixels.trunc_i32();
                let h: i32 = self.height_pixels.trunc_i32();
                let full_w: i32 = w + b * 2;
                let full_h: i32 = h + b * 2;
                let x: i32 = self.content.x - b;
                let y: i32 = self.content.y - b;
                v.push(WindowPiece::Right { at: Point { x: x + full_w - b, y: y + b } });
                v.push(WindowPiece::Left { at: Point { x, y: y + b } });
                v.push(WindowPiece::Bottom { at: Point { x, y: y + full_h - b } });
                v.push(WindowPiece::Top { at: Point { x, y } });
            }
        }
        let ghost front = v@;
        assert(shadow =~= (if self.casts_shadow() {
            seq![WindowPiece::Shadow]
        } else {
            Seq::empty()
        }));
        assert(front =~= shadow + (if self.has_round_border() {
            seq![WindowPiece::Border]
        } else if self.has_border() {
            self.bars()
        } else {
            Seq::empty()
        }));
        let mut i: usize = 0;
        assert(front + self.surfaces().take(0) =~= front);
        while i < self.clipped.len()
            invariant
                i <= self.clipped@.len(),
                rounded == is_round(self.corner_radius),
                v@ == front + self.surfaces().take(i as int),
            decreases self.clipped@.len() - i,
        {
            if rounded && self.clip_shader && self.clipped[i] {
                v.push(WindowPiece::ClippedSurface { surface: i });
            } else {
                v.push(WindowPiece::Surface { surface: i });
            }
            i = i + 1;
            assert(v@ =~= front + self.surfaces().take(i as int));
        }
        assert(self.surfaces().take(i as int) =~= self.surfaces());
        v
    }
}

/// A window without a border, a shadow and round corners is drawn as it is, and
/// every surface of a window is drawn once, in its order.
pub proof fn surfaces_are_all_drawn(f: ElementFacts)
    ensures
        f.pieces().len() >= f.clipped@.len(),
        f.pieces().skip(f.pieces().len() - f.clipped@.len()) == f.surfaces(),
        !f.has_border() && !f.casts_shadow() ==> f.pieces() == f.surfaces(),
        !is_round(f.corner_radius) ==> forall|i: int|
            0 <= i < f.clipped@.len() ==> f.surfaces()[i] == (WindowPiece::Surface {
                surface: i as usize,
            }),
{
    assert(f.pieces().skip(f.pieces().len() - f.clipped@.len()) =~= f.surfaces());
    if !f.has_border() && !f.casts_shadow() {
        assert(f.pieces() =~= f.surfaces());
    }
}

/// What the pointer points at: the surface of a Wayland window, or the X11
/// window as a whole.
#[derive(Clone, Copy, Debug, PartialEq, Eq, Structural)]
pub enum PointerFocus {
    Surface { surface: u64 },
    X11 { window: u64 },
}

/// What of a window the pointer points at. `hit` is the surface under it with
/// its place.
pub fn surface_under(x11: Option<u64>, hit: Option<(u64, Point)>) -> (r: Option<(PointerFocus, Point)>)
    ensures
        r == (match hit {
            None => None,
            Some((surface, at)) => Some(
                (
                    match x11 {
                        Some(window) => PointerFocus::X11 { window },
                        None => PointerFocus::Surface { surface },
                    },
                    at,
                ),
            ),
        }),
{
    match hit {
        None => None,
        Some((surface, at)) => match x11 {
            Some(window) => Some((PointerFocus::X11 { window }, at)),
            None => Some((PointerFocus::Surface { surface }, at)),
        },
    }
}

/// A window is drawn from its shadow over its border to its surfaces, which keep
/// their order: the shadow is first, and the last pieces are the surfaces.
pub proof fn windows_are_drawn_in_order(f: ElementFacts)
    ensures
        f.pieces().len() >= f.clipped@.len(),
        f.casts_shadow() ==> f.pieces()[0] is Shadow,
        !f.casts_shadow() ==> forall|i: int|
            0 <= i < f.pieces().len() ==> !((#[trigger] f.pieces()[i]) is Shadow),
        forall|i: int|
            0 <= i < f.clipped@.len() ==> (match #[trigger] f.pieces()[f.pieces().len()
                - f.clipped@.len() + i] {
                WindowPiece::ClippedSurface { surface } => surface == i,
                WindowPiece::Surface { surface } => surface == i,
                _ => false,
            }),
{
    assert(f.clipped.len() == f.clipped@.len());
    let n = f.pieces().len() - f.clipped@.len();
    assert forall|i: int| 0 <= i < f.clipped@.len() implies (match #[trigger] f.pieces()[
        f.pieces().len() - f.clipped@.len() + i
    ] {
        WindowPiece::ClippedSurface { surface } => surface == i,
        WindowPiece::Surface { surface } => surface == i,
        _ => false,
    }) by {
        assert(f.pieces()[n + i] == f.surfaces()[i]);
        assert(f.surfaces()[i] == f.surface(i));
    }
}

/// Nothing is drawn around a window of which nothing is to be seen, and only a
/// border of at least half a pixel is drawn: in one piece with round corners
/// where there is a shader for it, else in four bars.
pub proof fn borders_need_something_to_go_around(f: ElementFacts)
    ensures
        f.is_empty ==> !f.has_border() && !f.has_bars() && !f.has_round_border()
            && !f.casts_shadow(),
        !(F64 { bits: 0x3FE0_0000_0000_0000 }).at_most(f.border_width) ==> !f.has_border(),
        (F64 { bits: 0x3FE0_0000_0000_0000 }).at_most(f.border_width) && !f.is_empty
            ==> f.has_border() && (f.has_round_border() <==> !f.has_bars()),
        f.has_round_border() ==> f.border_shader && is_round(f.corner_radius),
        f.has_border() && f.border_shader && is_round(f.corner_radius) ==> f.has_round_border(),
        f.casts_shadow() <==> f.has_shadow && f.shadow_shader && !f.is_empty,
{
}

/// The bars of a border touch the contents from all four sides: the left and
/// right ones begin beside their top, the upper and lower ones at the border's
/// left end.
pub proof fn bars_touch_the_contents(f: ElementFacts)
    requires
        f.fits(),
    ensures
        ({
            let b = f.border_pixels.truncated();
            let w = f.width_pixels.truncated();
            let h = f.height_pixels.truncated();
            &&& f.bars().len() == 4
            &&& f.bars()[0] matches WindowPiece::Right { at } && at.x == f.content.x + w && at.y
                == f.content.y
            &&& f.bars()[1] matches WindowPiece::Left { at } && at.x + b == f.content.x && at.y
                == f.content.y
            &&& f.bars()[2] matches WindowPiece::Bottom { at } && at.x + b == f.content.x && at.y
                == f.content.y + h
            &&& f.bars()[3] matches WindowPiece::Top { at } && at.x + b == f.content.x && at.y + b
                == f.content.y
        }),
{
}

/// A surface is cut exactly if the corners are round, there is a shader that
/// cuts, and the surface reaches into them.
pub proof fn surfaces_are_cut_at_round_corners(f: ElementFacts, i: int)
    requires
        0 <= i < f.clipped@.len(),
    ensures
        f.surface(i) is ClippedSurface <==> is_round(f.corner_radius) && f.clip_shader
            && f.clipped@[i],
        f.surface(i) is Surface <==> !(f.surface(i) is ClippedSurface),
{
}

/// Corners are round if any of them is, and not if all are zero.
pub proof fn any_round_corner_counts(c: CornerRadius)
    ensures
        !c.top_left.same_number(F32 { bits: 0 }) ==> is_round(c),
        !c.top_right.same_number(F32 { bits: 0 }) ==> is_round(c),
        !c.bottom_right.same_number(F32 { bits: 0 }) ==> is_round(c),
        !c.bottom_left.same_number(F32 { bits: 0 }) ==> is_round(c),
        c.top_left.bits == 0 && c.top_right.bits == 0 && c.bottom_right.bits == 0
            && c.bottom_left.bits == 0 ==> !is_round(c),
{
}

} // verus!
