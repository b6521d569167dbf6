//! The built-in shader programs: their sources, and the parameters that they take.
use vstd::prelude::*;
use crate::config::CornerRadius;
use crate::float::F32;
use crate::render_helpers::border::{are_border_uniforms, radius_value, BorderGeometry, BorderParameters};
use crate::render_helpers::shader_element::{knows, mat3_uniform, Matrix, Parameter, Uniform};
use crate::render_helpers::ProgramType;

verus! {

/// What kind of value a parameter has.
#[derive(Clone, Copy, Debug, PartialEq, Eq, Structural)]
pub enum UniformKind {
    Float,
    Vec2,
    Vec4,
    Mat3,
}

/// A parameter that a program takes.
#[derive(Debug, PartialEq, Eq)]
pub struct UniformName {
    pub name: String,
    pub kind: UniformKind,
}

impl UniformName {
    fn new(name: &str, kind: UniformKind) -> (u: UniformName)
        ensures
            u.name@ == name@,
            u.kind == kind,
    {
        UniformName { name: name.to_owned(), kind }
    }
}

impl Parameter {
    pub open spec fn kind(self) -> UniformKind {
        match self {
            Parameter::Float { .. } => UniformKind::Float,
            Parameter::Vec2 { .. } => UniformKind::Vec2,
            Parameter::Vec4 { .. } => UniformKind::Vec4,
            Parameter::Mat3 { .. } => UniformKind::Mat3,
        }
    }
}

/// Whether `v` lists these parameters.
pub open spec fn are_named(v: Seq<UniformName>, names: Seq<(Seq<char>, UniformKind)>) -> bool {
    &&& v.len() == names.len()
    &&& forall|i: int|
        0 <= i < v.len() ==> (#[trigger] v[i]).name@ == names[i].0 && v[i].kind == names[i].1
}

/// The parameters of a built-in program.
pub open spec fn names_of(program: ProgramType) -> Seq<(Seq<char>, UniformKind)> {
    match program {
        ProgramType::Border => seq![
            ("color_from"@, UniformKind::Vec4),
            ("color_to"@, UniformKind::Vec4),
            ("input_to_geo"@, UniformKind::Mat3),
            ("geo_size"@, UniformKind::Vec2),
            ("outer_radius"@, UniformKind::Vec4),
            ("border_width"@, UniformKind::Float),
        ],
        ProgramType::Shadow => seq![
            ("shadow_color"@, UniformKind::Vec4),
            ("sigma"@, UniformKind::Float),
            ("input_to_geo"@, UniformKind::Mat3),
            ("geo_size"@, UniformKind::Vec2),
            ("corner_radius"@, UniformKind::Vec4),
            ("window_input_to_geo"@, UniformKind::Mat3),
            ("window_geo_size"@, UniformKind::Vec2),
            ("window_corner_radius"@, UniformKind::Vec4),
        ],
    }
}

/// The parameters of a built-in program.
pub fn uniform_names(program: ProgramType) -> (v: Vec<UniformName>)
    ensures
        are_named(v@, names_of(program)),
{
    let mut v: Vec<UniformName> = Vec::new();
    match program {
        ProgramType::Border => {
            v.push(UniformName::new("color_from", UniformKind::Vec4));
            v.push(UniformName::new("color_to", UniformKind::Vec4));
            v.push(UniformName::new("input_to_geo", UniformKind::Mat3));
            v.push(UniformName::new("geo_size", UniformKind::Vec2));
            v.push(UniformName::new("outer_radius", UniformKind::Vec4));
            v.push(UniformName::new("border_width", UniformKind::Float));
        },
        ProgramType::Shadow => {
            v.push(UniformName::new("shadow_color", UniformKind::Vec4));
            v.push(UniformName::new("sigma", UniformKind::Float));
            v.push(UniformName::new("input_to_geo", UniformKind::Mat3));
            v.push(UniformName::new("geo_size", UniformKind::Vec2));
            v.push(UniformName::new("corner_radius", UniformKind::Vec4));
            v.push(UniformName::new("window_input_to_geo", UniformKind::Mat3));
            v.push(UniformName::new("window_geo_size", UniformKind::Vec2));
            v.push(UniformName::new("window_corner_radius", UniformKind::Vec4));
        },
    }
    v
}

/// The parameters of the program that clips surfaces to rounded corners.
pub open spec fn clip_names() -> Seq<(Seq<char>, UniformKind)> {
    seq![
        ("u_scale"@, UniformKind::Float),
        ("geo_size"@, UniformKind::Vec2),
        ("corner_radius"@, UniformKind::Vec4),
        ("input_to_geo"@, UniformKind::Mat3),
    ]
}

/// The parameters of the program that clips surfaces to rounded corners.
pub fn clip_uniform_names() -> (v: Vec<UniformName>)
    ensures
        are_named(v@, clip_names()),
{
    let mut v: Vec<UniformName> = Vec::new();
    v.push(UniformName::new("u_scale", UniformKind::Float));
    v.push(UniformName::new("geo_size", UniformKind::Vec2));
    v.push(UniformName::new("corner_radius", UniformKind::Vec4));
    v.push(UniformName::new("input_to_geo", UniformKind::Mat3));
    v
}

/// Whether these are the values that the clipping program is given.
pub open spec fn are_clip_uniforms(
    u: Seq<Uniform>,
    scale: F32,
    width: F32,
    height: F32,
    radius: CornerRadius,
    input_to_geo: Matrix,
) -> bool {
    &&& u.len() == 4
    &&& u[0].is("u_scale"@, Parameter::Float { x: scale })
    &&& u[1].is("geo_size"@, Parameter::Vec2 { x: width, y: height })
    &&& u[2].is("corner_radius"@, radius_value(radius))
    &&& u[3].is("input_to_geo"@, Parameter::Mat3 { matrix: input_to_geo })
}

/// The values that the clipping program is given.
pub fn compute_uniforms(
    scale: F32,
    width: F32,
    height: F32,
    radius: CornerRadius,
    input_to_geo: Matrix,
) -> (u: Vec<Uniform>)
    ensures
        are_clip_uniforms(u@, scale, width, height, radius, input_to_geo),
{
    let mut u: Vec<Uniform> = Vec::new();
    u.push(Uniform::new("u_scale", Parameter::Float { x: scale }));
    u.push(Uniform::new("geo_size", Parameter::Vec2 { x: width, y: height }));
    u.push(
        Uniform::new(
            "corner_radius",
            Parameter::Vec4 {
                x: radius.top_left,
                y: radius.top_right,
                z: radius.bottom_right,
                w: radius.bottom_left,
            },
        ),
    );
    u.push(mat3_uniform("input_to_geo", input_to_geo));
    u
}

/// Whether values are, one for one, what a program takes.
pub open spec fn fit(u: Seq<Uniform>, names: Seq<(Seq<char>, UniformKind)>) -> bool {
    &&& u.len() == names.len()
    &&& forall|i: int|
        0 <= i < u.len() ==> (#[trigger] u[i]).name@ == names[i].0 && u[i].value.kind()
            == names[i].1
}

/// A border and a clipped surface give their programs exactly what those take,
/// by name and by kind.
pub proof fn elements_fit_their_programs(
    border: Seq<Uniform>,
    params: BorderParameters,
    geometry: BorderGeometry,
    clip: Seq<Uniform>,
    scale: F32,
    width: F32,
    height: F32,
    radius: CornerRadius,
    input_to_geo: Matrix,
)
    requires
        are_border_uniforms(border, params, geometry),
        are_clip_uniforms(clip, scale, width, height, radius, input_to_geo),
    ensures
        fit(border, names_of(ProgramType::Border)),
        fit(clip, clip_names()),
{
}

/// A program that was made with its names knows every value that fits them, so
/// that drawing a border with it cannot fail.
pub proof fn fitting_values_are_known(
    u: Seq<Uniform>,
    names: Seq<(Seq<char>, UniformKind)>,
    known: Seq<String>,
    i: int,
)
    requires
        fit(u, names),
        known.len() == names.len(),
        forall|k: int| 0 <= k < known.len() ==> (#[trigger] known[k])@ == names[k].0,
        0 <= i < u.len(),
    ensures
        knows(known, u[i].name@),
{
    assert(known[i]@ == u[i].name@);
}

/// The two sources of a program, one of them with the debugging aids on.
pub fn program_sources(src: &str) -> (r: (String, String))
    ensures
        r.0@ == "#version 100\n"@ + src@,
        r.1@ == "#version 100\n#define DEBUG_FLAGS\n"@ + src@,
{
    let mut normal = "#version 100\n".to_owned();
    normal.append(src);
    let mut debug = "#version 100\n#define DEBUG_FLAGS\n".to_owned();
    debug.append(src);
    (normal, debug)
}

/// Each program has the parameters that its elements set, under the same names
/// and of the same kinds: a colour and a radius of four numbers, a size of two, a
/// width of one.
pub proof fn programs_have_their_parameters()
    ensures
        names_of(ProgramType::Border).len() == 6,
        names_of(ProgramType::Border)[0] == ("color_from"@, UniformKind::Vec4),
        names_of(ProgramType::Border)[1] == ("color_to"@, UniformKind::Vec4),
        names_of(ProgramType::Border)[2] == ("input_to_geo"@, UniformKind::Mat3),
        names_of(ProgramType::Border)[3] == ("geo_size"@, UniformKind::Vec2),
        names_of(ProgramType::Border)[4] == ("outer_radius"@, UniformKind::Vec4),
        names_of(ProgramType::Border)[5] == ("border_width"@, UniformKind::Float),
        names_of(ProgramType::Shadow).len() == 8,
        names_of(ProgramType::Shadow)[0] == ("shadow_color"@, UniformKind::Vec4),
        names_of(ProgramType::Shadow)[1] == ("sigma"@, UniformKind::Float),
        names_of(ProgramType::Shadow)[4] == ("corner_radius"@, UniformKind::Vec4),
        names_of(ProgramType::Shadow)[7] == ("window_corner_radius"@, UniformKind::Vec4),
        clip_names().len() == 4,
        clip_names()[0] == ("u_scale"@, UniformKind::Float),
        clip_names()[2] == ("corner_radius"@, UniformKind::Vec4),
{
}

/// A value is of the kind that it holds.
pub proof fn values_are_of_their_kind(p: Parameter)
    ensures
        p is Float <==> p.kind() is Float,
        p is Vec2 <==> p.kind() is Vec2,
        p is Vec4 <==> p.kind() is Vec4,
        p is Mat3 <==> p.kind() is Mat3,
{
}

} // verus!
