//! What the renderer's elements compute: damage, draw calls, and shader sources.
use vstd::prelude::*;
use crate::config::{Config, CustomShaderConfig, CustomShaderKind, ShaderUniform};
use crate::float::F64;
use crate::geometry::{are_sized, are_solid, covered, subtract_rects_many, without, Point, Rect, Size, Transform};
use crate::text::same;

pub mod border;
pub mod framebuffer_effect;
pub mod shader_element;
pub mod shaders;
pub mod texture;

verus! {

/// What is rendered for.
#[derive(Clone, Copy, Debug, PartialEq, Eq, Structural)]
pub enum RenderTarget {
    Output,
    Screencast,
    ScreenCapture,
}

/// A renderer, and what it renders for.
pub struct RenderCtx<'a, R> {
    pub renderer: &'a mut R,
    pub target: RenderTarget,
}

impl<'a, R> RenderCtx<'a, R> {
    /// The same context, lent for a while.
    pub fn r<'b>(&'b mut self) -> (c: RenderCtx<'b, R>)
        ensures
            c.target == old(self).target,
            *c.renderer == *old(self).renderer,
            final(self).target == old(self).target,
            *final(self).renderer == *final(c.renderer),
    {
        RenderCtx { renderer: &mut *self.renderer, target: self.target }
    }
}

/// The rectangle around the first `upto` rectangles.
pub open spec fn around(rects: Seq<Rect>, upto: int) -> Rect
    decreases upto,
{
    if upto <= 1 {
        rects[0]
    } else {
        around(rects, upto - 1).joined(rects[upto - 1])
    }
}

/// The rectangle around all elements; an empty one where there is none.
pub fn encompassing_geo(elements: &Vec<Rect>) -> (r: Rect)
    ensures
        r == (if elements@.len() == 0 {
            Rect { loc: Point { x: 0, y: 0 }, size: Size { w: 0, h: 0 } }
        } else {
            around(elements@, elements@.len() as int)
        }),
{
    if elements.len() == 0 {
        return Rect { loc: Point { x: 0, y: 0 }, size: Size { w: 0, h: 0 } };
    }
    let mut all = elements[0];
    let mut i: usize = 1;
    while i < elements.len()
        invariant
            1 <= i <= elements@.len(),
            all == around(elements@, i as int),
        decreases elements@.len() - i,
    {
        all = all.merge(&elements[i]);
        i = i + 1;
    }
    all
}

/// A built-in shader program.
#[derive(Clone, Copy, Debug, PartialEq, Eq, Structural)]
pub enum ProgramType {
    Border,
    Shadow,
}

/// The built-in shaders that compiled, by handle.
#[derive(Clone, Copy, Debug, PartialEq, Eq, Structural)]
pub struct Shaders {
    pub border: Option<u64>,
    pub shadow: Option<u64>,
    pub clipped_surface: Option<u64>,
}

impl Shaders {
    /// The program of a kind, if it compiled.
    pub fn program(&self, program: ProgramType) -> (r: Option<u64>)
        ensures
            r == match program {
                ProgramType::Border => self.border,
                ProgramType::Shadow => self.shadow,
            },
    {
        match program {
            ProgramType::Border => self.border,
            ProgramType::Shadow => self.shadow,
        }
    }
}

/// What comes before a post-processing function: the standard texture pipeline.
pub open spec fn postprocess_header() -> Seq<char> {
    "#version 100\n\n//_DEFINES_\n\n#if defined(EXTERNAL)\n#extension GL_OES_EGL_image_external : require\n#endif\n\nprecision highp float;\n#if defined(EXTERNAL)\nuniform samplerExternalOES tex;\n#else\nuniform sampler2D tex;\n#endif\n\nuniform float alpha;\nvarying vec2 v_coords;\n\nvec4 postprocess(vec4 color);\n"@
}

/// What comes after a post-processing function.
pub open spec fn postprocess_footer() -> Seq<char> {
    "\nvoid main() {\n    vec4 color = texture2D(tex, v_coords);\n    color = color * alpha;\n    color = postprocess(color);\n    gl_FragColor = color;\n}\n"@
}

/// The complete source of a custom shader.
pub open spec fn source_of(kind: CustomShaderKind, fragment: Seq<char>) -> Seq<char> {
    match kind {
        CustomShaderKind::Full => fragment,
        CustomShaderKind::PostProcess => postprocess_header() + fragment + postprocess_footer(),
    }
}

/// The complete source of a custom shader.
pub fn shader_source(shader: &CustomShaderConfig) -> (s: String)
    ensures
        s@ == source_of(shader.kind, shader.fragment@),
{
    match shader.kind {
        CustomShaderKind::Full => shader.fragment.clone(),
        CustomShaderKind::PostProcess => {
            let mut source = "#version 100\n\n//_DEFINES_\n\n#if defined(EXTERNAL)\n#extension GL_OES_EGL_image_external : require\n#endif\n\nprecision highp float;\n#if defined(EXTERNAL)\nuniform samplerExternalOES tex;\n#else\nuniform sampler2D tex;\n#endif\n\nuniform float alpha;\nvarying vec2 v_coords;\n\nvec4 postprocess(vec4 color);\n".to_owned();
            source.append(&shader.fragment);
            source.append(
                "\nvoid main() {\n    vec4 color = texture2D(tex, v_coords);\n    color = color * alpha;\n    color = postprocess(color);\n    gl_FragColor = color;\n}\n",
            );
            source
        },
    }
}

/// A custom shader that compiled.
#[derive(Debug, PartialEq, Eq)]
pub struct CustomShaderProgram {
    pub name: String,
    /// Handle of the program.
    pub program: u64,
    pub uniforms: Vec<ShaderUniform>,
}

/// The custom shaders that compiled, and the generation of the config that they
/// are of.
#[derive(Debug, PartialEq, Eq)]
pub struct CustomShaders {
    pub programs: Vec<CustomShaderProgram>,
    pub generation: u64,
}

/// The position of the last of the first `upto` shaders of this name that compiled.
pub open spec fn last_compiled(
    shaders: Seq<CustomShaderConfig>,
    compiled: Seq<Option<u64>>,
    name: Seq<char>,
    upto: int,
) -> Option<int>
    decreases upto,
{
    if upto <= 0 {
        None
    } else if shaders[upto - 1].name@ == name && compiled[upto - 1] is Some {
        Some(upto - 1)
    } else {
        last_compiled(shaders, compiled, name, upto - 1)
    }
}

/// The programs of the first `upto` shaders that compiled.
pub open spec fn compiled_programs(
    shaders: Seq<CustomShaderConfig>,
    compiled: Seq<Option<u64>>,
    programs: Seq<CustomShaderProgram>,
    upto: int,
    p: int,
) -> bool
    decreases upto,
{
    if upto <= 0 {
        p == 0
    } else if compiled[upto - 1] is Some {
        &&& 1 <= p <= programs.len()
        &&& programs[p - 1].name == shaders[upto - 1].name
        &&& programs[p - 1].program == compiled[upto - 1]->0
        &&& programs[p - 1].uniforms@ == shaders[upto - 1].uniforms@
        &&& compiled_programs(shaders, compiled, programs, upto - 1, p - 1)
    } else {
        compiled_programs(shaders, compiled, programs, upto - 1, p)
    }
}

proof fn compiled_programs_extend(
    shaders: Seq<CustomShaderConfig>,
    compiled: Seq<Option<u64>>,
    programs: Seq<CustomShaderProgram>,
    more: Seq<CustomShaderProgram>,
    upto: int,
    p: int,
)
    requires
        compiled_programs(shaders, compiled, programs, upto, p),
        0 <= p <= programs.len() <= more.len(),
        forall|i: int| 0 <= i < programs.len() ==> more[i] == programs[i],
    ensures
        compiled_programs(shaders, compiled, more, upto, p),
    decreases upto,
{
    if upto > 0 {
        if compiled[upto - 1] is Some {
            compiled_programs_extend(shaders, compiled, programs, more, upto - 1, p - 1);
        } else {
            compiled_programs_extend(shaders, compiled, programs, more, upto - 1, p);
        }
    }
}

impl CustomShaders {
    /// No shaders, of no generation yet.
    pub fn new() -> (c: CustomShaders)
        ensures
            c.programs@.len() == 0,
            c.generation == 0,
    {
        CustomShaders { programs: Vec::new(), generation: 0 }
    }

    /// Whether the shaders are of another config.
    pub fn is_stale(&self, config: &Config) -> (r: bool)
        ensures
            r == (self.generation != config.shader_gen),
    {
        self.generation != config.shader_gen
    }

    /// The shaders of a config, given which of them compiled.
    fn refreshed(config: &Config, compiled: &Vec<Option<u64>>) -> (c: CustomShaders)
        requires
            compiled@.len() == config.custom_shaders@.len(),
        ensures
            c.generation == config.shader_gen,
            compiled_programs(
                config.custom_shaders@,
                compiled@,
                c.programs@,
                compiled@.len() as int,
                c.programs@.len() as int,
            ),
    {
        let mut programs: Vec<CustomShaderProgram> = Vec::new();
        let mut i: usize = 0;
        while i < compiled.len()
            invariant
                i <= compiled@.len() == config.custom_shaders@.len(),
                compiled_programs(
                    config.custom_shaders@,
                    compiled@,
                    programs@,
                    i as int,
                    programs@.len() as int,
                ),
            decreases compiled@.len() - i,
        {
            match compiled[i] {
                Some(program) => {
                    let ghost before = programs@;
                    let shader = &config.custom_shaders[i];
                    let uniforms = shader.uniforms.clone();
                    assert(uniforms@ =~= shader.uniforms@);
                    programs.push(
                        CustomShaderProgram { name: shader.name.clone(), program, uniforms },
                    );
                    proof {
                        compiled_programs_extend(
                            config.custom_shaders@,
                            compiled@,
                            before,
                            programs@,
                            i as int,
                            before.len() as int,
                        );
                    }
                },
                None => {},
            }
            i = i + 1;
        }
        CustomShaders { programs, generation: config.shader_gen }
    }

    /// Takes over the shaders of a config, if that is another one, given which
    /// of them compiled.
    pub fn refresh_if_needed(&mut self, config: &Config, compiled: &Vec<Option<u64>>)
        requires
            old(self).generation != config.shader_gen ==> compiled@.len()
                == config.custom_shaders@.len(),
        ensures
            old(self).generation == config.shader_gen ==> *final(self) == *old(self),
            old(self).generation != config.shader_gen ==> final(self).generation
                == config.shader_gen && compiled_programs(
                config.custom_shaders@,
                compiled@,
                final(self).programs@,
                compiled@.len() as int,
                final(self).programs@.len() as int,
            ),
    {
        if self.is_stale(config) {
            *self = CustomShaders::refreshed(config, compiled);
        }
    }

    /// The position of the last program of this name among the first `upto`.
    pub open spec fn position(self, name: Seq<char>, upto: int) -> Option<int>
        decreases upto,
    {
        if upto <= 0 {
            None
        } else if self.programs@[upto - 1].name@ == name {
            Some(upto - 1)
        } else {
            self.position(name, upto - 1)
        }
    }

    /// The program of this name; of several, the last.
    pub fn get(&self, name: &str) -> (r: Option<&CustomShaderProgram>)
        ensures
            match self.position(name@, self.programs@.len() as int) {
                Some(i) => r == Some(&self.programs@[i]),
                None => r is None,
            },
    {
        let mut i: usize = self.programs.len();
        while i > 0
            invariant
                i <= self.programs@.len(),
                self.position(name@, self.programs@.len() as int) == self.position(name@, i as int),
            decreases i,
        {
            i = i - 1;
            if same(&self.programs[i].name, name) {
                return Some(&self.programs[i]);
            }
        }
        None
    }
}

/// A name finds the last shader of that name that compiled, and nothing else.
pub proof fn last_shader_of_a_name_wins(
    shaders: Seq<CustomShaderConfig>,
    compiled: Seq<Option<u64>>,
    c: CustomShaders,
    name: Seq<char>,
    upto: int,
    p: int,
)
    requires
        0 <= upto <= shaders.len(),
        compiled.len() == shaders.len(),
        0 <= p <= c.programs@.len(),
        compiled_programs(shaders, compiled, c.programs@, upto, p),
    ensures
        match (last_compiled(shaders, compiled, name, upto), c.position(name, p)) {
            (Some(i), Some(k)) => 0 <= i < upto && 0 <= k < p && c.programs@[k].program
                == compiled[i]->0 && c.programs@[k].uniforms@ == shaders[i].uniforms@,
            (None, None) => true,
            _ => false,
        },
    decreases upto,
{
    if upto > 0 {
        if compiled[upto - 1] is Some {
            last_shader_of_a_name_wins(shaders, compiled, c, name, upto - 1, p - 1);
        } else {
            last_shader_of_a_name_wins(shaders, compiled, c, name, upto - 1, p);
        }
    }
}

/// The parts of some rectangles, among the first `upto`, that are in a window.
pub open spec fn clipped(rects: Seq<Rect>, window: Rect, upto: int) -> Seq<Rect>
    decreases upto,
{
    if upto <= 0 {
        Seq::empty()
    } else if rects[upto - 1].meets(window) {
        clipped(rects, window, upto - 1).push(rects[upto - 1].common(window))
    } else {
        clipped(rects, window, upto - 1)
    }
}

/// The damage, or the opaque parts, of a surface that is clipped to a geometry:
/// what of them is in the geometry, seen from the surface.
pub fn clip_to_geometry(rects: &Vec<Rect>, geometry: Rect, surface: Point) -> (r: Vec<Rect>)
    ensures
        r@ == clipped(
            rects@,
            Rect { loc: geometry.loc.minus(surface), size: geometry.size },
            rects@.len() as int,
        ),
{
    let window = Rect { loc: geometry.loc.relative_to(surface), size: geometry.size };
    let mut r: Vec<Rect> = Vec::new();
    let mut i: usize = 0;
    while i < rects.len()
        invariant
            i <= rects@.len(),
            r@ == clipped(rects@, window, i as int),
        decreases rects@.len() - i,
    {
        match rects[i].intersection(&window) {
            Some(part) => {
                r.push(part);
            },
            None => {},
        }
        i = i + 1;
    }
    r
}

/// Clipping adds nothing: every point that is left was in one of the rectangles
/// and is in the window.
pub proof fn clipping_only_removes(rects: Seq<Rect>, window: Rect, upto: int, k: int, x: int, y: int)
    requires
        0 <= upto <= rects.len(),
        window.size.w >= 0,
        window.size.h >= 0,
        forall|i: int|
            0 <= i < rects.len() ==> (#[trigger] rects[i]).size.w >= 0 && rects[i].size.h >= 0,
        0 <= k < clipped(rects, window, upto).len(),
        clipped(rects, window, upto)[k].holds(x, y),
    ensures
        window.holds(x, y),
        exists|i: int| 0 <= i < upto && (#[trigger] rects[i]).holds(x, y),
    decreases upto,
{
    let before = clipped(rects, window, upto - 1);
    if k < before.len() {
        clipping_only_removes(rects, window, upto - 1, k, x, y);
    } else {
        crate::geometry::intersection_is_common_area(rects[upto - 1], window, x, y);
        assert(rects[upto - 1].holds(x, y));
    }
}

/// Whether some point of a surface is cut away: one outside the geometry, or in
/// a corner.
pub open spec fn loses_a_point(elem: Rect, geometry: Rect, corners: Seq<Rect>) -> bool {
    exists|x: int, y: int| #[trigger]
        elem.holds(x, y) && (!geometry.holds(x, y) || covered(corners, x, y))
}

/// Whether clipping to a geometry cuts anything off a surface. With round
/// corners the points in `corners` are cut off too; an empty surface is then cut
/// where it overlaps nothing of what is left of the geometry.
pub fn will_clip(elem: Rect, geometry: Rect, rounded: bool, corners: &Vec<Rect>) -> (r: bool)
    requires
        elem.is_sized(),
        geometry.is_sized(),
        are_sized(corners@),
    ensures
        !rounded ==> r == !geometry.encloses(elem),
        rounded ==> ({
            let kept = without(seq![geometry], corners@);
            r == (without(seq![elem], kept).len() > 0)
        }),
        rounded && elem.is_solid() ==> r == loses_a_point(elem, geometry, corners@),
{
    if !rounded {
        return !geometry.contains_rect(&elem);
    }
    let whole: Vec<Rect> = vec![geometry];
    let surface: Vec<Rect> = vec![elem];
    assert(whole@ =~= seq![geometry]);
    assert(surface@ =~= seq![elem]);
    let kept = subtract_rects_many(&whole, corners);
    let lost = subtract_rects_many(&surface, &kept);
    proof {
        assert forall|x: int, y: int| #[trigger] covered(whole@, x, y) <==> geometry.holds(x, y) by {
            assert(whole@[0].holds(x, y) <==> geometry.holds(x, y));
        }
        assert forall|x: int, y: int| #[trigger] covered(surface@, x, y) <==> elem.holds(x, y) by {
            assert(surface@[0].holds(x, y) <==> elem.holds(x, y));
        }
        if elem.is_solid() {
            if lost@.len() > 0 {
                let p = lost@[0].loc;
                assert(lost@[0].is_solid());
                assert(lost@[0].holds(p.x as int, p.y as int));
                assert(covered(lost@, p.x as int, p.y as int));
                assert(covered(surface@, p.x as int, p.y as int));
                assert(!covered(kept@, p.x as int, p.y as int));
                assert(elem.holds(p.x as int, p.y as int));
            }
            if loses_a_point(elem, geometry, corners@) {
                let (x, y) = choose|x: int, y: int| #[trigger]
                    elem.holds(x, y) && (!geometry.holds(x, y) || covered(corners@, x, y));
                assert(covered(surface@, x, y));
                assert(!covered(kept@, x, y)) by {
                    assert(covered(whole@, x, y) <==> geometry.holds(x, y));
                }
                assert(covered(lost@, x, y));
            }
        }
    }
    lost.len() > 0
}

/// The opaque parts of a surface that is clipped to a geometry: what of them is
/// in the geometry, seen from the surface, and in none of the round corners.
pub fn opaque_regions(
    regions: &Vec<Rect>,
    geometry: Rect,
    surface: Point,
    rounded: bool,
    corners: &Vec<Rect>,
) -> (r: Vec<Rect>)
    requires
        are_sized(regions@),
        geometry.is_sized(),
        are_sized(corners@),
    ensures
        ({
            let window = Rect { loc: geometry.loc.minus(surface), size: geometry.size };
            let inside = clipped(regions@, window, regions@.len() as int);
            &&& !rounded ==> r@ == inside
            &&& rounded ==> r@ == without(inside, corners@)
            &&& rounded ==> forall|x: int, y: int| #[trigger]
                covered(r@, x, y) <==> covered(inside, x, y) && !covered(corners@, x, y)
        }),
{
    let inside = clip_to_geometry(regions, geometry, surface);
    if !rounded {
        return inside;
    }
    proof {
        clipped_are_sized(
            regions@,
            Rect { loc: geometry.loc.minus(surface), size: geometry.size },
            regions@.len() as int,
        );
    }
    subtract_rects_many(&inside, corners)
}

proof fn clipped_are_sized(rects: Seq<Rect>, window: Rect, upto: int)
    requires
        0 <= upto <= rects.len(),
        are_sized(rects),
        window.is_sized(),
    ensures
        are_sized(clipped(rects, window, upto)),
    decreases upto,
{
    if upto > 0 {
        clipped_are_sized(rects, window, upto - 1);
        assert(rects[upto - 1].is_sized());
    }
}

/// How a clipped surface's texture is turned back: quarter turns are swapped.
pub fn clip_transform(transform: Transform) -> (t: Transform)
    ensures
        t == match transform {
            Transform::Rot90 => Transform::Rot270,
            Transform::Rot270 => Transform::Rot90,
            other => other,
        },
{
    match transform {
        Transform::Rot90 => Transform::Rot270,
        Transform::Rot270 => Transform::Rot90,
        Transform::Normal => Transform::Normal,
        Transform::Rot180 => Transform::Rot180,
        Transform::Flipped => Transform::Flipped,
        Transform::Flipped90 => Transform::Flipped90,
        Transform::Flipped180 => Transform::Flipped180,
        Transform::Flipped270 => Transform::Flipped270,
    }
}

/// A size that need not be whole.
#[derive(Clone, Copy, Debug, PartialEq, Eq, Structural)]
pub struct SizeF {
    pub w: F64,
    pub h: F64,
}

/// The area around elements holds the points of each of them.
pub proof fn the_area_around_holds_all(rects: Seq<Rect>, upto: int, i: int, x: int, y: int)
    requires
        0 <= i < upto <= rects.len(),
        are_solid(rects),
        rects[i].holds(x, y),
        forall|k: int|
            0 <= k < rects.len() ==> -0x4000_0000 <= (#[trigger] rects[k]).loc.x <= rects[k].right()
                <= 0x3fff_ffff && -0x4000_0000 <= rects[k].loc.y <= rects[k].bottom() <= 0x3fff_ffff,
    ensures
        around(rects, upto).holds(x, y),
        -0x4000_0000 <= around(rects, upto).loc.x <= around(rects, upto).right() <= 0x3fff_ffff,
        -0x4000_0000 <= around(rects, upto).loc.y <= around(rects, upto).bottom() <= 0x3fff_ffff,
        around(rects, upto).is_solid(),
    decreases upto,
{
    if upto > 1 {
        assert(rects[upto - 1].is_solid());
        assert(rects[upto - 1].loc.x >= -0x4000_0000);
        if i < upto - 1 {
            the_area_around_holds_all(rects, upto - 1, i, x, y);
        } else {
            assert(rects[0].is_solid());
            the_area_around_holds_all(
                rects,
                upto - 1,
                0,
                rects[0].loc.x as int,
                rects[0].loc.y as int,
            );
        }
    } else {
        assert(rects[0].is_solid());
    }
}

/// A shader that works on the picture is put between a beginning and an end, and
/// a full one is left as it is.
pub proof fn only_picture_shaders_are_wrapped(fragment: Seq<char>)
    ensures
        source_of(CustomShaderKind::Full, fragment) == fragment,
        exists|a: Seq<char>, b: Seq<char>|
            source_of(CustomShaderKind::PostProcess, fragment) == #[trigger] (a + fragment + b)
                && a.len() > 0 && b.len() > 0,
{
    reveal_strlit(
        "#version 100\n\n//_DEFINES_\n\n#if defined(EXTERNAL)\n#extension GL_OES_EGL_image_external : require\n#endif\n\nprecision highp float;\n#if defined(EXTERNAL)\nuniform samplerExternalOES tex;\n#else\nuniform sampler2D tex;\n#endif\n\nuniform float alpha;\nvarying vec2 v_coords;\n\nvec4 postprocess(vec4 color);\n",
    );
    reveal_strlit(
        "\nvoid main() {\n    vec4 color = texture2D(tex, v_coords);\n    color = color * alpha;\n    color = postprocess(color);\n    gl_FragColor = color;\n}\n",
    );
    let a = postprocess_header();
    let b = postprocess_footer();
    assert(source_of(CustomShaderKind::PostProcess, fragment) == a + fragment + b);
}

/// The program of a name is the last one that has it.
pub proof fn programs_are_found_by_name(c: CustomShaders, name: Seq<char>, upto: int)
    requires
        0 <= upto <= c.programs@.len(),
    ensures
        c.position(name, upto) matches Some(at) ==> 0 <= at < upto && c.programs@[at].name@ == name
            && forall|i: int| at < i < upto ==> (#[trigger] c.programs@[i]).name@ != name,
        c.position(name, upto) is None ==> forall|i: int|
            0 <= i < upto ==> (#[trigger] c.programs@[i]).name@ != name,
    decreases upto,
{
    if upto > 0 {
        programs_are_found_by_name(c, name, upto - 1);
    }
}

/// What is left of an area is where it was and inside the window.
pub proof fn clipped_areas_are_common(rects: Seq<Rect>, window: Rect, upto: int)
    requires
        0 < upto <= rects.len(),
    ensures
        rects[upto - 1].meets(window) ==> clipped(rects, window, upto).len() == clipped(
            rects,
            window,
            upto - 1,
        ).len() + 1 && clipped(rects, window, upto).last() == rects[upto - 1].common(window),
        !rects[upto - 1].meets(window) ==> clipped(rects, window, upto) == clipped(
            rects,
            window,
            upto - 1,
        ),
{
}

} // verus!
