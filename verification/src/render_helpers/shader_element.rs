//! An element that a shader program draws.
use vstd::prelude::*;
use crate::float::{F32, F64};
use crate::geometry::{greater, lesser, max_i32, min_i32, Point, Rect, Size};
use crate::render_helpers::{ProgramType, SizeF};
use crate::state::RectF;
use crate::text::same;

verus! {

/// What an element is, for the outputs.
#[derive(Clone, Copy, Debug, PartialEq, Eq, Structural)]
pub enum Kind {
    Cursor,
    Unspecified,
}

#[derive(Clone, Copy, Debug, PartialEq, Eq, Structural)]
pub struct Column {
    pub x: F32,
    pub y: F32,
    pub z: F32,
}

/// A matrix, by its columns.
#[derive(Clone, Copy, Debug, PartialEq, Eq, Structural)]
pub struct Matrix {
    pub first: Column,
    pub second: Column,
    pub third: Column,
}

/// The value of a parameter of a program.
#[derive(Clone, Copy, Debug, PartialEq, Eq, Structural)]
pub enum Parameter {
    Float { x: F32 },
    Vec2 { x: F32, y: F32 },
    Vec4 { x: F32, y: F32, z: F32, w: F32 },
    Mat3 { matrix: Matrix },
}

/// A parameter of a program.
#[derive(Debug, PartialEq, Eq)]
pub struct Uniform {
    pub name: String,
    pub value: Parameter,
}

impl Uniform {
    pub open spec fn is(self, name: Seq<char>, value: Parameter) -> bool {
        self.name@ == name && self.value == value
    }

    pub fn new(name: &str, value: Parameter) -> (u: Uniform)
        ensures
            u.is(name@, value),
    {
        Uniform { name: name.to_owned(), value }
    }
}

/// A parameter that is a matrix.
pub fn mat3_uniform(name: &str, matrix: Matrix) -> (u: Uniform)
    ensures
        u.is(name@, Parameter::Mat3 { matrix }),
{
    Uniform::new(name, Parameter::Mat3 { matrix })
}

/// A texture of an element, and the name that the program has for it.
#[derive(Debug, PartialEq, Eq)]
pub struct NamedTexture {
    pub name: String,
    pub texture: u64,
}

/// An element that a shader program draws.
#[derive(Debug, PartialEq, Eq)]
pub struct ShaderRenderElement {
    pub program: ProgramType,
    /// What the element is known by from frame to frame.
    pub id: u64,
    /// Changes with what is drawn.
    pub commit_counter: usize,
    pub area: RectF,
    pub opaque_regions: Vec<RectF>,
    pub scale: F32,
    pub alpha: F32,
    pub additional_uniforms: Vec<Uniform>,
    /// The textures; each is bound to the unit of its place.
    pub textures: Vec<NamedTexture>,
    pub kind: Kind,
}

pub open spec fn zero() -> F64 {
    F64 { bits: 0 }
}

pub open spec fn one() -> F32 {
    F32 { bits: 0x3F80_0000 }
}

/// The regions of an element that gives none are none.
pub open spec fn regions(opaque_regions: Option<Vec<RectF>>) -> Seq<RectF> {
    match opaque_regions {
        Some(regions) => regions@,
        None => Seq::empty(),
    }
}

fn or_none(opaque_regions: Option<Vec<RectF>>) -> (v: Vec<RectF>)
    ensures
        v@ == regions(opaque_regions),
{
    match opaque_regions {
        Some(regions) => regions,
        None => Vec::new(),
    }
}

/// The counter after one more change.
pub open spec fn counted(counter: usize) -> usize {
    if counter == usize::MAX {
        0
    } else {
        (counter + 1) as usize
    }
}

/// Every change shows in the counter.
pub proof fn changes_show(counter: usize)
    ensures
        counted(counter) != counter,
{
}

impl ShaderRenderElement {
    /// An element of this size at the origin.
    pub fn new(
        id: u64,
        program: ProgramType,
        size: SizeF,
        opaque_regions: Option<Vec<RectF>>,
        scale: F32,
        alpha: F32,
        additional_uniforms: Vec<Uniform>,
        textures: Vec<NamedTexture>,
        kind: Kind,
    ) -> (e: ShaderRenderElement)
        ensures
            e.opaque_regions@ == regions(opaque_regions),
            e == (ShaderRenderElement {
                program,
                id,
                commit_counter: 0,
                area: RectF { x: zero(), y: zero(), w: size.w, h: size.h },
                opaque_regions: e.opaque_regions,
                scale,
                alpha,
                additional_uniforms,
                textures,
                kind,
            }),
    {
        ShaderRenderElement {
            program,
            id,
            commit_counter: 0,
            area: RectF { x: F64 { bits: 0 }, y: F64 { bits: 0 }, w: size.w, h: size.h },
            opaque_regions: or_none(opaque_regions),
            scale,
            alpha,
            additional_uniforms,
            textures,
            kind,
        }
    }

    pub open spec fn is_empty(self, id: u64, program: ProgramType, kind: Kind) -> bool {
        &&& self.program == program
        &&& self.id == id
        &&& self.kind == kind
        &&& self.commit_counter == 0
        &&& self.area == (RectF { x: zero(), y: zero(), w: zero(), h: zero() })
        &&& self.opaque_regions@.len() == 0
        &&& self.scale == one()
        &&& self.alpha == one()
        &&& self.additional_uniforms@.len() == 0
        &&& self.textures@.len() == 0
    }

    /// An element without any size.
    pub fn empty(id: u64, program: ProgramType, kind: Kind) -> (e: ShaderRenderElement)
        ensures
            e.is_empty(id, program, kind),
    {
        ShaderRenderElement {
            program,
            id,
            commit_counter: 0,
            area: RectF {
                x: F64 { bits: 0 },
                y: F64 { bits: 0 },
                w: F64 { bits: 0 },
                h: F64 { bits: 0 },
            },
            opaque_regions: Vec::new(),
            scale: F32 { bits: 0x3F80_0000 },
            alpha: F32 { bits: 0x3F80_0000 },
            additional_uniforms: Vec::new(),
            textures: Vec::new(),
            kind,
        }
    }

    /// What the element is known by from frame to frame.
    pub fn id(&self) -> (id: u64)
        ensures
            id == self.id,
    {
        self.id
    }

    /// The state of what the element shows.
    pub fn current_commit(&self) -> (commit: usize)
        ensures
            commit == self.commit_counter,
    {
        self.commit_counter
    }

    /// Has all of the element drawn anew.
    pub fn damage_all(&mut self)
        ensures
            *final(self) == (ShaderRenderElement {
                commit_counter: counted(old(self).commit_counter),
                ..*old(self)
            }),
    {
        self.commit_counter = self.commit_counter.wrapping_add(1);
    }

    /// Gives the element another size and other contents, where it is.
    pub fn update(
        &mut self,
        size: SizeF,
        opaque_regions: Option<Vec<RectF>>,
        scale: F32,
        alpha: F32,
        uniforms: Vec<Uniform>,
        textures: Vec<NamedTexture>,
    )
        ensures
            final(self).opaque_regions@ == regions(opaque_regions),
            *final(self) == (ShaderRenderElement {
                program: old(self).program,
                id: old(self).id,
                commit_counter: counted(old(self).commit_counter),
                area: RectF { w: size.w, h: size.h, ..old(self).area },
                opaque_regions: final(self).opaque_regions,
                scale,
                alpha,
                additional_uniforms: uniforms,
                textures,
                kind: old(self).kind,
            }),
    {
        self.area = RectF { x: self.area.x, y: self.area.y, w: size.w, h: size.h };
        self.opaque_regions = or_none(opaque_regions);
        self.scale = scale;
        self.alpha = alpha;
        self.additional_uniforms = uniforms;
        self.textures = textures;
        self.commit_counter = self.commit_counter.wrapping_add(1);
    }

    /// The element at another place.
    pub fn with_location(self, x: F64, y: F64) -> (e: ShaderRenderElement)
        ensures
            e == (ShaderRenderElement { area: RectF { x, y, ..self.area }, ..self }),
    {
        let area = RectF { x, y, w: self.area.w, h: self.area.h };
        ShaderRenderElement { area, ..self }
    }

    /// The element with another opacity.
    pub fn with_alpha(self, alpha: F32) -> (e: ShaderRenderElement)
        ensures
            e == (ShaderRenderElement { alpha, ..self }),
    {
        ShaderRenderElement { alpha, ..self }
    }
}

/// A damaged rectangle brought into an element of this size.
pub open spec fn constrained(rect: Rect, dest: Size) -> Rect {
    let x = lesser(greater(rect.loc.x as int, 0), dest.w as int);
    let y = lesser(greater(rect.loc.y as int, 0), dest.h as int);
    Rect {
        loc: Point { x: x as i32, y: y as i32 },
        size: Size {
            w: lesser(greater(rect.size.w as int, 0), dest.w - x) as i32,
            h: lesser(greater(rect.size.h as int, 0), dest.h - y) as i32,
        },
    }
}

fn constrain(rect: &Rect, dest: Size) -> (r: Rect)
    requires
        dest.w >= 0,
        dest.h >= 0,
    ensures
        r == constrained(*rect, dest),
{
    let x: i32 = min_i32(max_i32(rect.loc.x, 0), dest.w);
    let y: i32 = min_i32(max_i32(rect.loc.y, 0), dest.h);
    Rect {
        loc: Point { x, y },
        size: Size {
            w: min_i32(max_i32(rect.size.w, 0), dest.w - x),
            h: min_i32(max_i32(rect.size.h, 0), dest.h - y),
        },
    }
}

/// What is drawn of an element lies within it.
pub proof fn constrained_is_inside(rect: Rect, dest: Size)
    requires
        dest.w >= 0,
        dest.h >= 0,
    ensures
        ({
            let r = constrained(rect, dest);
            &&& 0 <= r.loc.x && r.size.w >= 0 && r.loc.x + r.size.w <= dest.w
            &&& 0 <= r.loc.y && r.size.h >= 0 && r.loc.y + r.size.h <= dest.h
        }),
{
}

/// How often each damaged rectangle stands in the vertex buffer: once where the
/// renderer can draw instances, else once for each vertex of its two triangles.
pub open spec fn repeats(instancing: bool) -> int {
    if instancing {
        1
    } else {
        6
    }
}

/// Whether these are all damaged rectangles, brought into the element, each as
/// often as it is needed.
pub open spec fn are_vertices(v: Seq<Rect>, damage: Seq<Rect>, dest: Size, instancing: bool) -> bool {
    &&& v.len() == damage.len() * repeats(instancing)
    &&& forall|k: int|
        0 <= k < v.len() ==> #[trigger] v[k] == constrained(damage[k / repeats(instancing)], dest)
}

/// The vertex buffer of an element: each damaged rectangle, brought into the
/// element, as often as it is needed.
pub fn damage_vertices(damage: &Vec<Rect>, dest: Size, instancing: bool) -> (v: Vec<Rect>)
    requires
        dest.w >= 0,
        dest.h >= 0,
        damage@.len() * 6 <= usize::MAX,
    ensures
        are_vertices(v@, damage@, dest, instancing),
{
    let count: usize = if instancing {
        1
    } else {
        6
    };
    let mut v: Vec<Rect> = Vec::new();
    let mut i: usize = 0;
    while i < damage.len()
        invariant
            i <= damage@.len(),
            dest.w >= 0,
            dest.h >= 0,
            count == repeats(instancing),
            v@.len() == i * count,
            forall|k: int|
                0 <= k < v@.len() ==> #[trigger] v@[k] == constrained(
                    damage@[k / repeats(instancing)],
                    dest,
                ),
        decreases damage@.len() - i,
    {
        let rect = constrain(&damage[i], dest);
        let mut j: usize = 0;
        while j < count
            invariant
                j <= count,
                count == repeats(instancing),
                i < damage@.len(),
                rect == constrained(damage@[i as int], dest),
                v@.len() == i * count + j,
                forall|k: int|
                    0 <= k < v@.len() ==> #[trigger] v@[k] == constrained(
                        damage@[k / repeats(instancing)],
                        dest,
                    ),
            decreases count - j,
        {
            proof {
                let k = i * count + j;
                if instancing {
                    assert(k / 1 == i);
                } else {
                    assert(k / 6 == i);
                }
            }
            v.push(rect);
            j = j + 1;
        }
        assert((i + 1) * count == i * count + count) by (nonlinear_arith);
        i = i + 1;
    }
    v
}

/// A call that draws from the vertex buffer.
#[derive(Clone, Copy, Debug, PartialEq, Eq, Structural)]
pub enum DrawCall {
    /// A strip of four vertices for each rectangle.
    Instanced { instances: usize },
    /// Triangles, from this rectangle of the buffer on.
    Triangles { vertices: usize, first_rect: usize },
}

/// The calls that draw an element with this many damaged rectangles.
pub open spec fn draw_calls_of(damage: int, instancing: bool) -> Seq<DrawCall> {
    if instancing {
        seq![DrawCall::Instanced { instances: damage as usize }]
    } else {
        let batches = (damage - 1) / 10;
        Seq::new(
            batches as nat,
            |i: int| DrawCall::Triangles { vertices: 6, first_rect: i as usize },
        ).push(
            DrawCall::Triangles {
                vertices: (((damage - 1) % 10 + 1) * 6) as usize,
                first_rect: batches as usize,
            },
        )
    }
}

/// The calls that draw an element with this many damaged rectangles.
pub fn draw_calls(damage: usize, instancing: bool) -> (calls: Vec<DrawCall>)
    requires
        0 < damage <= i32::MAX,
    ensures
        calls@ == draw_calls_of(damage as int, instancing),
{
    let mut calls: Vec<DrawCall> = Vec::new();
    if instancing {
        calls.push(DrawCall::Instanced { instances: damage });
        return calls;
    }
    let batches: usize = (damage - 1) / 10;
    let mut i: usize = 0;
    while i < batches
        invariant
            i <= batches,
            calls@.len() == i,
            forall|k: int|
                0 <= k < i ==> #[trigger] calls@[k] == (DrawCall::Triangles {
                    vertices: 6,
                    first_rect: k as usize,
                }),
        decreases batches - i,
    {
        calls.push(DrawCall::Triangles { vertices: 6, first_rect: i });
        i = i + 1;
    }
    calls.push(
        DrawCall::Triangles { vertices: ((damage - 1) % 10 + 1) * 6, first_rect: batches },
    );
    assert(calls@ =~= draw_calls_of(damage as int, instancing));
    calls
}

/// Up to ten damaged rectangles are drawn in one call that covers them all.
pub proof fn one_call_covers_ten(damage: int)
    requires
        1 <= damage <= 10,
    ensures
        draw_calls_of(damage, false) == seq![
            DrawCall::Triangles { vertices: (6 * damage) as usize, first_rect: 0 },
        ],
        draw_calls_of(damage, true) == seq![DrawCall::Instanced { instances: damage as usize }],
{
    assert(draw_calls_of(damage, false) =~= seq![
        DrawCall::Triangles { vertices: (6 * damage) as usize, first_rect: 0 },
    ]);
}

/// The names that a program has for its parameters and textures.
#[derive(Debug, PartialEq, Eq)]
pub struct ProgramNames {
    pub uniforms: Vec<String>,
    pub textures: Vec<String>,
}

/// What the renderer is about to draw with.
#[derive(Debug, PartialEq, Eq)]
pub struct DrawFacts {
    /// The element's program, if it compiled.
    pub program: Option<ProgramNames>,
    /// Whether the buffers are there.
    pub resources: bool,
    pub instancing: bool,
    /// Whether any debugging aid is on.
    pub debug: bool,
    /// Whether elements are tinted.
    pub tint: bool,
}

/// A texture in the unit that it is bound to, and the name of the parameter that
/// is given the number of the unit.
#[derive(Debug, PartialEq, Eq)]
pub struct TextureUnit {
    pub unit: usize,
    pub name: String,
    pub texture: u64,
}

/// How an element is drawn.
#[derive(Debug, PartialEq, Eq)]
pub struct ShaderDraw {
    pub vertices: Vec<Rect>,
    pub textures: Vec<TextureUnit>,
    /// The size that the program is given: the one that is drawn at.
    pub size: Size,
    pub scale: F32,
    pub alpha: F32,
    /// The values of the program's further parameters.
    pub uniforms: Vec<Uniform>,
    /// Whether the program is the one for debugging.
    pub debug: bool,
    /// The tint that the program for debugging is given.
    pub tint: Option<bool>,
    pub calls: Vec<DrawCall>,
}

/// Whether each texture is in the unit of its place.
pub open spec fn are_units(units: Seq<TextureUnit>, textures: Seq<NamedTexture>) -> bool {
    &&& units.len() == textures.len()
    &&& forall|i: int|
        0 <= i < units.len() ==> (#[trigger] units[i]).unit == i && units[i].name@
            == textures[i].name@ && units[i].texture == textures[i].texture
}

fn bind_units(textures: &Vec<NamedTexture>) -> (units: Vec<TextureUnit>)
    ensures
        are_units(units@, textures@),
{
    let mut units: Vec<TextureUnit> = Vec::new();
    let mut i: usize = 0;
    while i < textures.len()
        invariant
            i <= textures@.len(),
            units@.len() == i,
            forall|k: int|
                0 <= k < i ==> (#[trigger] units@[k]).unit == k && units@[k].name@
                    == textures@[k].name@ && units@[k].texture == textures@[k].texture,
        decreases textures@.len() - i,
    {
        let name = textures[i].name.clone();
        units.push(TextureUnit { unit: i, name, texture: textures[i].texture });
        i = i + 1;
    }
    units
}

/// Whether these are the first of some parameters, with their values.
pub open spec fn are_values(values: Seq<Uniform>, uniforms: Seq<Uniform>, upto: int) -> bool {
    &&& values.len() == upto
    &&& forall|i: int|
        0 <= i < upto ==> (#[trigger] values[i]).is(uniforms[i].name@, uniforms[i].value)
}

/// A parameter that the program does not have.
#[derive(Debug, PartialEq, Eq)]
pub struct UnknownUniform {
    pub name: String,
}

/// Whether one of the names is this one.
pub open spec fn knows(names: Seq<String>, name: Seq<char>) -> bool {
    exists|i: int| 0 <= i < names.len() && (#[trigger] names[i])@ == name
}

fn find_name(names: &Vec<String>, name: &str) -> (r: bool)
    ensures
        r == knows(names@, name@),
{
    let mut i: usize = 0;
    while i < names.len()
        invariant
            i <= names@.len(),
            forall|k: int| 0 <= k < i ==> (#[trigger] names@[k])@ != name@,
        decreases names@.len() - i,
    {
        if same(&names[i], name) {
            assert(names@[i as int]@ == name@);
            return true;
        }
        i = i + 1;
    }
    false
}

impl ShaderRenderElement {
    /// Whether anything is drawn: there are a program and buffers, and some
    /// damage.
    pub open spec fn is_drawn(self, facts: DrawFacts, damage: Seq<Rect>) -> bool {
        facts.program is Some && facts.resources && damage.len() > 0
    }

    /// Whether the parameter at `at` is the first that the program lacks.
    pub open spec fn first_unknown(self, known: Seq<String>, at: int) -> bool {
        &&& 0 <= at < self.additional_uniforms@.len()
        &&& !knows(known, self.additional_uniforms@[at].name@)
        &&& self.all_known(known, at)
    }

    /// Whether the program has the first `upto` parameters.
    pub open spec fn all_known(self, known: Seq<String>, upto: int) -> bool {
        forall|i: int|
            0 <= i < upto ==> knows(known, (#[trigger] self.additional_uniforms@[i]).name@)
    }

    /// How the element is drawn; not at all where there is nothing to draw. The
    /// program needs to have the element's textures, and not to have one of its
    /// parameters is an error.
    pub fn draw(&self, facts: &DrawFacts, dest: Rect, damage: &Vec<Rect>) -> (r: Result<
        Option<ShaderDraw>,
        UnknownUniform,
    >)
        requires
            dest.size.w >= 0,
            dest.size.h >= 0,
            damage@.len() <= i32::MAX,
            damage@.len() * 6 <= usize::MAX,
            self.is_drawn(*facts, damage@) ==> forall|i: int|
                0 <= i < self.textures@.len() ==> knows(
                    facts.program->0.textures@,
                    (#[trigger] self.textures@[i]).name@,
                ),
        ensures
            match r {
                Ok(None) => !self.is_drawn(*facts, damage@),
                Ok(Some(draw)) => {
                    &&& self.is_drawn(*facts, damage@)
                    &&& self.all_known(
                        facts.program->0.uniforms@,
                        self.additional_uniforms@.len() as int,
                    )
                    &&& are_vertices(draw.vertices@, damage@, dest.size, facts.instancing)
                    &&& are_units(draw.textures@, self.textures@)
                    &&& draw.size == dest.size
                    &&& draw.scale == self.scale
                    &&& draw.alpha == self.alpha
                    &&& are_values(
                        draw.uniforms@,
                        self.additional_uniforms@,
                        self.additional_uniforms@.len() as int,
                    )
                    &&& draw.debug == facts.debug
                    &&& draw.tint == (if facts.debug {
                        Some(facts.tint)
                    } else {
                        None
                    })
                    &&& draw.calls@ == draw_calls_of(damage@.len() as int, facts.instancing)
                },
                Err(e) => {
                    &&& self.is_drawn(*facts, damage@)
                    &&& exists|at: int| #[trigger]
                        self.first_unknown(facts.program->0.uniforms@, at) && e.name
                            == self.additional_uniforms@[at].name
                },
            },
    {
        let names = match &facts.program {
            Some(names) => names,
            None => {
                return Ok(None);
            },
        };
        if !facts.resources || damage.len() == 0 {
            return Ok(None);
        }
        let vertices = damage_vertices(damage, dest.size, facts.instancing);
        let mut uniforms: Vec<Uniform> = Vec::new();
        let mut i: usize = 0;
        while i < self.additional_uniforms.len()
            invariant
                i <= self.additional_uniforms@.len(),
                self.is_drawn(*facts, damage@),
                facts.program == Some(*names),
                self.all_known(names.uniforms@, i as int),
                are_values(uniforms@, self.additional_uniforms@, i as int),
            decreases self.additional_uniforms@.len() - i,
        {
            if !find_name(&names.uniforms, &self.additional_uniforms[i].name) {
                let name = self.additional_uniforms[i].name.clone();
                assert(self.first_unknown(facts.program->0.uniforms@, i as int));
                assert(name == self.additional_uniforms@[i as int].name);
                return Err(UnknownUniform { name });
            }
            uniforms.push(
                Uniform::new(&self.additional_uniforms[i].name, self.additional_uniforms[i].value),
            );
            i = i + 1;
        }
        let tint = if facts.debug {
            Some(facts.tint)
        } else {
            None
        };
        Ok(
            Some(
                ShaderDraw {
                    vertices,
                    textures: bind_units(&self.textures),
                    size: dest.size,
                    scale: self.scale,
                    alpha: self.alpha,
                    uniforms,
                    debug: facts.debug,
                    tint,
                    calls: draw_calls(damage.len(), facts.instancing),
                },
            ),
        )
    }
}

/// Without instances every rectangle has the six corners of its two triangles,
/// which follow each other, and with instances it stands once.
pub proof fn rectangles_follow_each_other(v: Seq<Rect>, damage: Seq<Rect>, dest: Size, i: int, k: int)
    requires
        0 <= i < damage.len(),
        0 <= k < 6,
    ensures
        are_vertices(v, damage, dest, true) ==> v.len() == damage.len() && v[i] == constrained(
            damage[i],
            dest,
        ),
        are_vertices(v, damage, dest, false) ==> v.len() == 6 * damage.len() && v[6 * i + k]
            == constrained(damage[i], dest),
{
    assert((6 * i + k) / 6 == i);
    if are_vertices(v, damage, dest, false) {
        assert(v[6 * i + k] == constrained(damage[(6 * i + k) / 6], dest));
    }
    if are_vertices(v, damage, dest, true) {
        assert(v[i] == constrained(damage[i / 1], dest));
    }
}

/// Textures are bound to units in their order, each under its own name; and what
/// a program is given is given under the names it has.
pub proof fn textures_are_bound_in_order(
    units: Seq<TextureUnit>,
    textures: Seq<NamedTexture>,
    values: Seq<Uniform>,
    uniforms: Seq<Uniform>,
    upto: int,
    i: int,
)
    ensures
        are_units(units, textures) && 0 <= i < textures.len() ==> units.len() == textures.len()
            && units[i].unit == i && units[i].name@ == textures[i].name@ && units[i].texture
            == textures[i].texture,
        are_values(values, uniforms, upto) && 0 <= i < upto ==> values[i].name@ == uniforms[i].name@
            && values[i].value == uniforms[i].value,
{
}

/// An element is drawn exactly if its program is there, its buffers are there and
/// there is something to draw.
pub proof fn elements_need_a_program_to_be_drawn(
    e: ShaderRenderElement,
    facts: DrawFacts,
    damage: Seq<Rect>,
)
    ensures
        facts.program is None ==> !e.is_drawn(facts, damage),
        !facts.resources ==> !e.is_drawn(facts, damage),
        damage.len() == 0 ==> !e.is_drawn(facts, damage),
        facts.program is Some && facts.resources && damage.len() > 0 ==> e.is_drawn(facts, damage),
{
}

/// What counts the changes goes on by one and starts over at its end.
pub proof fn changes_are_counted(counter: usize)
    ensures
        counter < usize::MAX ==> counted(counter) == counter + 1,
        counter == usize::MAX ==> counted(counter) == 0,
{
}

} // verus!
