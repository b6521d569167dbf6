//! The element that a window's border is.
use vstd::prelude::*;
use crate::config::{Color, CornerRadius};
use crate::float::{F32, F64};
use crate::render_helpers::shader_element::{
    counted, mat3_uniform, one, zero, Kind, Matrix, Parameter, ShaderRenderElement, Uniform,
};
use crate::render_helpers::{ProgramType, Shaders, SizeF};
use crate::state::RectF;

verus! {

/// What a border is drawn with.
#[derive(Clone, Copy, Debug, PartialEq, Eq, Structural)]
pub struct BorderParameters {
    pub size: SizeF,
    pub color_from: Color,
    pub color_to: Color,
    pub geometry: RectF,
    pub border_width: F32,
    pub corner_radius: CornerRadius,
    pub scale: F32,
    pub alpha: F32,
}

/// Whether two colors are the same, component by component.
pub open spec fn same_color(a: Color, b: Color) -> bool {
    a.r.same_number(b.r) && a.g.same_number(b.g) && a.b.same_number(b.b) && a.a.same_number(b.a)
}

/// Whether two colors are the same, component by component.
pub fn colors_equal(a: &Color, b: &Color) -> (r: bool)
    ensures
        r == same_color(*a, *b),
{
    a.r.equals(b.r) && a.g.equals(b.g) && a.b.equals(b.b) && a.a.equals(b.a)
}

impl BorderParameters {
    pub open spec fn agrees(self, o: BorderParameters) -> bool {
        &&& self.size.w.same_number(o.size.w) && self.size.h.same_number(o.size.h)
        &&& same_color(self.color_from, o.color_from)
        &&& same_color(self.color_to, o.color_to)
        &&& self.geometry.x.same_number(o.geometry.x) && self.geometry.y.same_number(o.geometry.y)
        &&& self.geometry.w.same_number(o.geometry.w) && self.geometry.h.same_number(o.geometry.h)
        &&& self.border_width.same_number(o.border_width)
        &&& self.corner_radius.top_left.same_number(o.corner_radius.top_left)
        &&& self.corner_radius.top_right.same_number(o.corner_radius.top_right)
        &&& self.corner_radius.bottom_right.same_number(o.corner_radius.bottom_right)
        &&& self.corner_radius.bottom_left.same_number(o.corner_radius.bottom_left)
        &&& self.scale.same_number(o.scale)
        &&& self.alpha.same_number(o.alpha)
    }

    fn same_as(&self, o: &BorderParameters) -> (r: bool)
        ensures
            r == self.agrees(*o),
    {
        self.size.w.equals(o.size.w) && self.size.h.equals(o.size.h) && colors_equal(
            &self.color_from,
            &o.color_from,
        ) && colors_equal(&self.color_to, &o.color_to) && self.geometry.x.equals(o.geometry.x)
            && self.geometry.y.equals(o.geometry.y) && self.geometry.w.equals(o.geometry.w)
            && self.geometry.h.equals(o.geometry.h) && self.border_width.equals(o.border_width)
            && self.corner_radius.top_left.equals(o.corner_radius.top_left)
            && self.corner_radius.top_right.equals(o.corner_radius.top_right)
            && self.corner_radius.bottom_right.equals(o.corner_radius.bottom_right)
            && self.corner_radius.bottom_left.equals(o.corner_radius.bottom_left)
            && self.scale.equals(o.scale) && self.alpha.equals(o.alpha)
    }

    /// Takes over other parameters. Tells whether anything changed, so that the
    /// border is to be drawn anew.
    pub fn update(&mut self, params: BorderParameters) -> (changed: bool)
        ensures
            changed == !old(self).agrees(params),
            *final(self) == (if old(self).agrees(params) {
                *old(self)
            } else {
                params
            }),
    {
        if self.same_as(&params) {
            false
        } else {
            *self = params;
            true
        }
    }
}

/// What a border's program needs beside its parameters: the geometry's place
/// within the element as a matrix, and its size.
#[derive(Clone, Copy, Debug, PartialEq, Eq, Structural)]
pub struct BorderGeometry {
    pub input_to_geo: Matrix,
    pub width: F32,
    pub height: F32,
}

/// A border.
#[derive(Debug, PartialEq, Eq)]
pub struct BorderRenderElement {
    pub inner: ShaderRenderElement,
    pub params: BorderParameters,
}

pub open spec fn color_value(c: Color) -> Parameter {
    Parameter::Vec4 { x: c.r, y: c.g, z: c.b, w: c.a }
}

pub open spec fn radius_value(r: CornerRadius) -> Parameter {
    Parameter::Vec4 { x: r.top_left, y: r.top_right, z: r.bottom_right, w: r.bottom_left }
}

/// Whether these are the parameters of the border program.
pub open spec fn are_border_uniforms(
    u: Seq<Uniform>,
    params: BorderParameters,
    geometry: BorderGeometry,
) -> bool {
    &&& u.len() == 6
    &&& u[0].is("color_from"@, color_value(params.color_from))
    &&& u[1].is("color_to"@, color_value(params.color_to))
    &&& u[2].is("input_to_geo"@, Parameter::Mat3 { matrix: geometry.input_to_geo })
    &&& u[3].is("geo_size"@, Parameter::Vec2 { x: geometry.width, y: geometry.height })
    &&& u[4].is("outer_radius"@, radius_value(params.corner_radius))
    &&& u[5].is("border_width"@, Parameter::Float { x: params.border_width })
}

fn border_uniforms(params: &BorderParameters, geometry: BorderGeometry) -> (u: Vec<Uniform>)
    ensures
        are_border_uniforms(u@, *params, geometry),
{
    let from = params.color_from;
    let to = params.color_to;
    let radius = params.corner_radius;
    let mut u: Vec<Uniform> = Vec::new();
    u.push(Uniform::new("color_from", Parameter::Vec4 { x: from.r, y: from.g, z: from.b, w: from.a }));
    u.push(Uniform::new("color_to", Parameter::Vec4 { x: to.r, y: to.g, z: to.b, w: to.a }));
    u.push(mat3_uniform("input_to_geo", geometry.input_to_geo));
    u.push(Uniform::new("geo_size", Parameter::Vec2 { x: geometry.width, y: geometry.height }));
    u.push(
        Uniform::new(
            "outer_radius",
            Parameter::Vec4 {
                x: radius.top_left,
                y: radius.top_right,
                z: radius.bottom_right,
                w: radius.bottom_left,
            },
        ),
    );
    u.push(Uniform::new("border_width", Parameter::Float { x: params.border_width }));
    u
}

/// Whether an element is drawn as the parameters say.
pub open spec fn draws(
    inner: ShaderRenderElement,
    params: BorderParameters,
    geometry: BorderGeometry,
) -> bool {
    &&& inner.area.w == params.size.w && inner.area.h == params.size.h
    &&& inner.opaque_regions@.len() == 0
    &&& inner.scale == params.scale
    &&& inner.alpha == params.alpha
    &&& are_border_uniforms(inner.additional_uniforms@, params, geometry)
    &&& inner.textures@.len() == 0
}

impl BorderRenderElement {
    /// A border with these parameters at the origin.
    pub fn new(id: u64, params: BorderParameters, geometry: BorderGeometry) -> (b:
        BorderRenderElement)
        ensures
            b.params == params,
            b.inner.id == id,
            draws(b.inner, params, geometry),
            b.inner.program is Border,
            b.inner.kind is Unspecified,
            b.inner.commit_counter == 1,
            b.inner.area.x == zero() && b.inner.area.y == zero(),
    {
        let inner = ShaderRenderElement::empty(id, ProgramType::Border, Kind::Unspecified);
        let mut b = BorderRenderElement { inner, params };
        b.update_inner(geometry);
        b
    }

    /// A border without any size.
    pub fn empty(id: u64) -> (b: BorderRenderElement)
        ensures
            b.inner.is_empty(id, ProgramType::Border, Kind::Unspecified),
            b.params == blank_parameters(),
    {
        let nought = F64 { bits: 0 };
        let clear = Color {
            r: F32 { bits: 0 },
            g: F32 { bits: 0 },
            b: F32 { bits: 0 },
            a: F32 { bits: 0 },
        };
        BorderRenderElement {
            inner: ShaderRenderElement::empty(id, ProgramType::Border, Kind::Unspecified),
            params: BorderParameters {
                size: SizeF { w: nought, h: nought },
                color_from: clear,
                color_to: clear,
                geometry: RectF { x: nought, y: nought, w: nought, h: nought },
                border_width: F32 { bits: 0 },
                corner_radius: CornerRadius {
                    top_left: F32 { bits: 0 },
                    top_right: F32 { bits: 0 },
                    bottom_right: F32 { bits: 0 },
                    bottom_left: F32 { bits: 0 },
                },
                scale: F32 { bits: 0x3F80_0000 },
                alpha: F32 { bits: 0x3F80_0000 },
            },
        }
    }

    /// Has all of the border drawn anew.
    pub fn damage_all(&mut self)
        ensures
            *final(self) == (BorderRenderElement {
                inner: ShaderRenderElement {
                    commit_counter: counted(old(self).inner.commit_counter),
                    ..old(self).inner
                },
                ..*old(self)
            }),
    {
        self.inner.damage_all();
    }

    /// Takes over other parameters. Where none differs, nothing is drawn anew.
    pub fn update(&mut self, params: BorderParameters, geometry: BorderGeometry)
        ensures
            old(self).params.agrees(params) ==> *final(self) == *old(self),
            !old(self).params.agrees(params) ==> {
                &&& final(self).params == params
                &&& draws(final(self).inner, params, geometry)
                &&& final(self).inner.commit_counter == counted(old(self).inner.commit_counter)
                &&& stays(old(self).inner, final(self).inner)
            },
    {
        if self.params.update(params) {
            self.update_inner(geometry);
        }
    }

    fn update_inner(&mut self, geometry: BorderGeometry)
        ensures
            final(self).params == old(self).params,
            draws(final(self).inner, old(self).params, geometry),
            final(self).inner.commit_counter == counted(old(self).inner.commit_counter),
            stays(old(self).inner, final(self).inner),
    {
        let uniforms = border_uniforms(&self.params, geometry);
        self.inner.update(
            self.params.size,
            None,
            self.params.scale,
            self.params.alpha,
            uniforms,
            Vec::new(),
        );
    }

    /// The border at another place.
    pub fn with_location(self, x: F64, y: F64) -> (b: BorderRenderElement)
        ensures
            b.params == self.params,
            b.inner == (ShaderRenderElement {
                area: RectF { x, y, ..self.inner.area },
                ..self.inner
            }),
    {
        BorderRenderElement { inner: self.inner.with_location(x, y), params: self.params }
    }

    /// Whether borders can be drawn.
    pub fn has_shader(shaders: &Shaders) -> (r: bool)
        ensures
            r == shaders.border is Some,
    {
        shaders.program(ProgramType::Border).is_some()
    }
}

/// Whether an element keeps its identity, its place and its kind.
pub open spec fn stays(before: ShaderRenderElement, after: ShaderRenderElement) -> bool {
    &&& after.program == before.program
    &&& after.id == before.id
    &&& after.kind == before.kind
    &&& after.area.x == before.area.x && after.area.y == before.area.y
}

pub open spec fn blank_parameters() -> BorderParameters {
    let nought = F32 { bits: 0 };
    let clear = Color { r: nought, g: nought, b: nought, a: nought };
    BorderParameters {
        size: SizeF { w: zero(), h: zero() },
        color_from: clear,
        color_to: clear,
        geometry: RectF { x: zero(), y: zero(), w: zero(), h: zero() },
        border_width: nought,
        corner_radius: CornerRadius {
            top_left: nought,
            top_right: nought,
            bottom_right: nought,
            bottom_left: nought,
        },
        scale: one(),
        alpha: one(),
    }
}

/// A border is drawn with its own colours, in the order from first to last, with
/// its corners clockwise from the upper left, its width and its geometry.
pub proof fn borders_are_drawn_with_their_values(
    u: Seq<Uniform>,
    params: BorderParameters,
    geometry: BorderGeometry,
)
    requires
        are_border_uniforms(u, params, geometry),
    ensures
        u[0].name@ == "color_from"@ && (u[0].value matches Parameter::Vec4 { x, y, z, w } && x
            == params.color_from.r && y == params.color_from.g && z == params.color_from.b && w
            == params.color_from.a),
        u[1].name@ == "color_to"@ && (u[1].value matches Parameter::Vec4 { x, y, z, w } && x
            == params.color_to.r && y == params.color_to.g && z == params.color_to.b && w
            == params.color_to.a),
        u[3].name@ == "geo_size"@ && (u[3].value matches Parameter::Vec2 { x, y } && x
            == geometry.width && y == geometry.height),
        u[4].name@ == "outer_radius"@ && (u[4].value matches Parameter::Vec4 { x, y, z, w } && x
            == params.corner_radius.top_left && y == params.corner_radius.top_right && z
            == params.corner_radius.bottom_right && w == params.corner_radius.bottom_left),
        u[5].name@ == "border_width"@ && u[5].value == (Parameter::Float { x: params.border_width }),
{
}

/// A border is as it was exactly if each of its values is: a change of any of
/// them shows.
pub proof fn any_change_of_a_border_shows(a: BorderParameters, b: BorderParameters)
    requires
        a.agrees(b),
    ensures
        a.size.w.same_number(b.size.w) && a.size.h.same_number(b.size.h),
        a.color_from.r.same_number(b.color_from.r) && a.color_from.g.same_number(b.color_from.g)
            && a.color_from.b.same_number(b.color_from.b) && a.color_from.a.same_number(
            b.color_from.a,
        ),
        a.color_to.r.same_number(b.color_to.r) && a.color_to.g.same_number(b.color_to.g)
            && a.color_to.b.same_number(b.color_to.b) && a.color_to.a.same_number(b.color_to.a),
        a.geometry.x.same_number(b.geometry.x) && a.geometry.y.same_number(b.geometry.y)
            && a.geometry.w.same_number(b.geometry.w) && a.geometry.h.same_number(b.geometry.h),
        a.border_width.same_number(b.border_width) && a.scale.same_number(b.scale)
            && a.alpha.same_number(b.alpha),
        a.corner_radius.top_left.same_number(b.corner_radius.top_left)
            && a.corner_radius.top_right.same_number(b.corner_radius.top_right)
            && a.corner_radius.bottom_right.same_number(b.corner_radius.bottom_right)
            && a.corner_radius.bottom_left.same_number(b.corner_radius.bottom_left),
{
}

/// A border is drawn as large, as opaque and at the scale that it was asked for,
/// without textures, and hides nothing behind it.
pub proof fn borders_are_drawn_as_asked(
    inner: ShaderRenderElement,
    params: BorderParameters,
    geometry: BorderGeometry,
)
    requires
        draws(inner, params, geometry),
    ensures
        inner.area.w == params.size.w && inner.area.h == params.size.h,
        inner.scale == params.scale && inner.alpha == params.alpha,
        inner.opaque_regions@.len() == 0 && inner.textures@.len() == 0,
        inner.additional_uniforms@.len() == 6,
{
}

/// A border that is drawn anew stays the same element at the same place.
pub proof fn borders_stay_the_same_element(before: ShaderRenderElement, after: ShaderRenderElement)
    requires
        stays(before, after),
    ensures
        after.id == before.id && after.program == before.program && after.kind == before.kind,
        after.area.x == before.area.x && after.area.y == before.area.y,
{
}

} // verus!
