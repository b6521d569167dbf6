use bakawm::animation::{Animation, Curve};
use bakawm::config::{
    BlurOverride, Color, Config, CornerRadius, CustomShaderConfig, CustomShaderKind, LayerRule, WindowRule,
};
use bakawm::float::{F32, F64};
use bakawm::geometry::{Point, Rect, Size, Transform};
use bakawm::render::{
    output_elements, preview_location, preview_shape, resolve_layer_blur, resolve_window_blur,
    space_preview_elements, BlurOptions, ClearColor, Layer, LayerFacts, OutputFacts, PlanItem, WindowFacts,
};
use bakawm::render_helpers::border::{BorderGeometry, BorderParameters, BorderRenderElement};
use bakawm::render_helpers::framebuffer_effect::{
    capture_region, effect_draw, needs_texture, Capture, CaptureAction, CaptureEvent, CaptureResult,
    FramebufferEffectElement,
};
use bakawm::render_helpers::shader_element::{
    damage_vertices, draw_calls, mat3_uniform, Column, DrawCall, DrawFacts, Kind, Matrix, NamedTexture, Parameter,
    ProgramNames, ShaderRenderElement, TextureUnit, Uniform,
};
use bakawm::render_helpers::shaders::{
    clip_uniform_names, compute_uniforms, program_sources, uniform_names, UniformKind,
};
use bakawm::render_helpers::texture::{TextureBuffer, TextureRenderElement};
use bakawm::render_helpers::{
    clip_to_geometry, clip_transform, encompassing_geo, opaque_regions, shader_source, will_clip, CustomShaders,
    ProgramType, RenderCtx, RenderTarget, Shaders, SizeF,
};
use bakawm::state::RectF;

fn d(x: f64) -> F64 {
    F64::from_bits(x.to_bits())
}

fn s(x: f32) -> F32 {
    F32 { bits: x.to_bits() }
}

fn rect(x: i32, y: i32, w: i32, h: i32) -> Rect {
    Rect::new(Point::new(x, y), Size::new(w, h))
}

fn rule(app_id: &str, blur: Option<BlurOverride>) -> WindowRule {
    WindowRule { app_id: Some(app_id.to_string()), title: None, window: None, blur }
}

fn forced(passes: u8, xray: bool) -> Option<BlurOverride> {
    Some(BlurOverride { enable: true, passes: Some(passes), offset: None, xray: Some(xray) })
}

#[test]
fn rules_without_blur_are_passed_over() {
    let mut config = Config::default();
    config.window_rules = vec![rule("kit", None), rule("kitty", forced(4, false)), rule("kitty", forced(7, false))];
    let r = resolve_window_blur(&config, Some("kitty"), None);
    assert!(r.rule_forces_blur);
    assert_eq!((r.blur.passes, r.blur.offset), (4, config.blur.offset));
    let other = resolve_window_blur(&config, Some("foot"), None);
    assert!(!other.rule_forces_blur);
    assert_eq!(other.blur, config.blur);
    config.layer_rules = vec![LayerRule {
        namespace: Some("way".to_string()),
        blur: Some(BlurOverride { enable: false, passes: None, offset: Some(d(3.0)), xray: None }),
    }];
    let blur = resolve_layer_blur(&config, "waybar");
    assert!(!blur.enable);
    assert_eq!(blur.offset, d(3.0));
    assert_eq!(resolve_layer_blur(&config, "mako"), config.blur);
}

fn window(app_id: &str) -> WindowFacts {
    WindowFacts {
        app_id: Some(app_id.to_string()),
        title: None,
        needs_center: false,
        hidden: false,
        fading: false,
        placed: true,
        has_surface: true,
        has_blur_region: false,
        open_animation: None,
    }
}

fn facts(windows: Vec<WindowFacts>) -> OutputFacts {
    OutputFacts {
        fullscreen: false,
        customs: 1,
        show_window_preview: false,
        mapped: true,
        overlay: vec![],
        top: vec![LayerFacts { namespace: "bar".to_string(), placed: true }],
        bottom: vec![],
        background: vec![LayerFacts { namespace: "wall".to_string(), placed: false }],
        windows,
        closing: 1,
    }
}

#[test]
fn elements_come_from_the_top_down() {
    let mut config = Config::default();
    config.blur.enable = false;
    config.window_rules = vec![rule("glass", forced(3, false)), rule("ray", forced(5, true))];
    let mut opening = window("plain");
    opening.open_animation = Some(Animation::ease(d(0.0), d(1.0), 100, Curve::Linear, 0));
    let mut hidden = window("plain");
    hidden.hidden = true;
    let f = facts(vec![opening, window("glass"), window("ray"), hidden]);
    let (items, clear) = output_elements(&f, &config, 5);
    let options = |passes| BlurOptions { passes, offset: config.blur.offset };
    assert_eq!(
        items,
        vec![
            PlanItem::Custom { index: 0 },
            PlanItem::Surface { layer: Layer::Top, index: 0 },
            PlanItem::Window { index: 2, opening: false },
            PlanItem::Window { index: 1, opening: false },
            PlanItem::WindowBlur { index: 1, options: options(3) },
            PlanItem::Window { index: 0, opening: true },
            PlanItem::WindowBlur { index: 2, options: options(5) },
            PlanItem::Closing { index: 0 },
        ]
    );
    assert_eq!(clear, ClearColor::Desktop);
}

#[test]
fn a_fullscreen_window_hides_the_rest() {
    let mut f = facts(vec![window("a")]);
    f.fullscreen = true;
    let (items, clear) = output_elements(&f, &Config::default(), 0);
    assert_eq!(items, vec![PlanItem::Custom { index: 0 }, PlanItem::Fullscreen]);
    assert_eq!(clear, ClearColor::Fullscreen);
}

#[test]
fn previews_stand_in_rows_of_four() {
    assert_eq!(preview_shape(1), (1, 1));
    assert_eq!(preview_shape(4), (4, 1));
    assert_eq!(preview_shape(9), (4, 3));
    assert_eq!(preview_location(5, 4, Size::new(100, 80)), rect(100, 80, 80, 60));
    assert_eq!(preview_location(0, 4, Size::new(100, 80)), rect(10, 10, 80, 60));
    assert_eq!(
        space_preview_elements(5, Size::new(100, 80)),
        vec![
            rect(10, 10, 80, 60),
            rect(100, 10, 80, 60),
            rect(190, 10, 80, 60),
            rect(280, 10, 80, 60),
            rect(10, 80, 80, 60),
        ]
    );
    assert!(space_preview_elements(0, Size::new(100, 80)).is_empty());
}

#[test]
fn pieces_are_measured() {
    assert_eq!(encompassing_geo(&vec![rect(0, 0, 2, 2), rect(5, 1, 3, 9)]), rect(0, 0, 8, 10));
    assert_eq!(encompassing_geo(&vec![]), rect(0, 0, 0, 0));
    let shaders = Shaders { border: Some(1), shadow: None, clipped_surface: None };
    assert_eq!(shaders.program(ProgramType::Border), Some(1));
    assert_eq!(shaders.program(ProgramType::Shadow), None);
    let mut renderer = 5u32;
    let mut ctx = RenderCtx { renderer: &mut renderer, target: RenderTarget::Screencast };
    assert_eq!(*ctx.r().renderer, 5);
    assert_eq!(ctx.r().target, RenderTarget::Screencast);
    assert!(needs_texture(None, Size::new(1, 1)) && needs_texture(Some(Size::new(1, 2)), Size::new(1, 1)));
    assert!(!needs_texture(Some(Size::new(1, 1)), Size::new(1, 1)));
}

fn shader(name: &str, kind: CustomShaderKind) -> CustomShaderConfig {
    CustomShaderConfig { name: name.to_string(), kind, fragment: "FRAG".to_string(), uniforms: vec![] }
}

#[test]
fn shaders_are_compiled_once_for_each_load() {
    let mut config = Config::default();
    let mut shaders = CustomShaders::new();
    assert!(!shaders.is_stale(&config));
    config.shader_gen = 3;
    assert!(shaders.is_stale(&config));
    config.custom_shaders = vec![
        shader("a", CustomShaderKind::Full),
        shader("b", CustomShaderKind::Full),
        shader("a", CustomShaderKind::PostProcess),
    ];
    shaders.refresh_if_needed(&config, &vec![Some(10), None, Some(12)]);
    shaders.refresh_if_needed(&config, &vec![]);
    assert!(!shaders.is_stale(&config));
    assert_eq!(shaders.get("a").unwrap().program, 12);
    assert!(shaders.get("b").is_none());
    assert_eq!(shader_source(&config.custom_shaders[0]), "FRAG");
    let source = shader_source(&config.custom_shaders[2]);
    assert!(source.starts_with("#version 100\n\n//_DEFINES_\n\n#if defined(EXTERNAL)\n"));
    assert!(source.contains("vec4 postprocess(vec4 color);\nFRAG\nvoid main() {\n    vec4 color"));
    assert!(source.ends_with("    gl_FragColor = color;\n}\n"));
}

#[test]
fn damage_is_brought_into_the_element() {
    let damage = vec![rect(-5, 2, 10, 100), rect(50, 0, 1, 1)];
    let v = damage_vertices(&damage, Size::new(20, 10), true);
    assert_eq!(v, vec![rect(0, 2, 10, 8), rect(20, 0, 0, 1)]);
    assert_eq!(damage_vertices(&damage, Size::new(20, 10), false).len(), 12);
    assert_eq!(draw_calls(7, true), vec![DrawCall::Instanced { instances: 7 }]);
    assert_eq!(draw_calls(7, false), vec![DrawCall::Triangles { vertices: 42, first_rect: 0 }]);
    assert_eq!(
        draw_calls(12, false),
        vec![
            DrawCall::Triangles { vertices: 6, first_rect: 0 },
            DrawCall::Triangles { vertices: 12, first_rect: 1 },
        ]
    );
}

#[test]
fn effects_are_cut_to_the_output() {
    let e = effect_draw(rect(-10, 0, 30, 20), Size::new(100, 100), &vec![rect(0, 0, 15, 20), rect(0, 0, 5, 5)]).unwrap();
    assert_eq!(e.dst, rect(0, 0, 20, 20));
    assert_eq!(e.damage, vec![rect(0, 0, 5, 20)]);
    assert!(effect_draw(rect(200, 0, 30, 20), Size::new(100, 100), &vec![rect(0, 0, 5, 5)]).is_none());
    assert_eq!(capture_region(rect(-10, 0, 30, 20), Size::new(100, 100), Transform::Normal), Some(rect(0, 0, 20, 20)));
}

/// Runs a capture with a texture of the right size; an answer to each action in turn.
fn captured(wants_blur: bool, can_blur: bool, prepared: bool, blitted: bool, blurred: bool) -> (CaptureResult, bool) {
    let mut c = Capture::new(wants_blur, can_blur);
    let mut event = CaptureEvent::Begin {
        dst: rect(-10, 0, 30, 20),
        output: Size::new(100, 100),
        transform: Transform::Normal,
    };
    loop {
        event = match c.capture_framebuffer(event) {
            CaptureAction::Measure { region } => {
                assert_eq!(region, rect(0, 0, 20, 20));
                CaptureEvent::Measured { size: Size::new(20, 20), current: Some(Size::new(20, 20)) }
            }
            CaptureAction::Create { .. } => unreachable!(),
            CaptureAction::Prepare => CaptureEvent::Prepared { succeeded: prepared },
            CaptureAction::Blit => CaptureEvent::Blitted { succeeded: blitted },
            CaptureAction::Blur => CaptureEvent::Blurred { succeeded: blurred },
            CaptureAction::Finish => return (c.shown, true),
            CaptureAction::Fail => return (c.shown, false),
        };
    }
}

#[test]
fn captures_show_blur_or_nothing() {
    assert_eq!(captured(false, true, true, true, true), (CaptureResult::Plain, true));
    assert_eq!(captured(false, false, true, true, true), (CaptureResult::Plain, true));
    assert_eq!(captured(true, true, true, true, true), (CaptureResult::Blurred, true));
    assert_eq!(captured(true, true, false, true, true), (CaptureResult::Missing, true));
    assert_eq!(captured(true, true, true, true, false), (CaptureResult::Missing, true));
    assert_eq!(captured(true, false, true, true, true), (CaptureResult::Missing, true));
    assert_eq!(captured(false, true, true, false, true), (CaptureResult::Missing, false));
    let mut c = Capture::new(true, true);
    let off = CaptureEvent::Begin { dst: rect(200, 0, 5, 5), output: Size::new(100, 100), transform: Transform::Normal };
    assert_eq!(c.capture_framebuffer(off), CaptureAction::Finish);
    let mut c = Capture::new(true, true);
    let on = CaptureEvent::Begin { dst: rect(2, 0, 5, 5), output: Size::new(100, 100), transform: Transform::Normal };
    c.capture_framebuffer(on);
    let size = Size::new(5, 5);
    assert_eq!(
        c.capture_framebuffer(CaptureEvent::Measured { size, current: Some(Size::new(5, 6)) }),
        CaptureAction::Create { size }
    );
    assert_eq!(c.capture_framebuffer(CaptureEvent::Created { succeeded: false }), CaptureAction::Fail);
}

fn draw_facts(instancing: bool) -> DrawFacts {
    DrawFacts {
        program: Some(ProgramNames { uniforms: vec!["color".to_string()], textures: vec!["tex".to_string()] }),
        resources: true,
        instancing,
        debug: false,
        tint: true,
    }
}

#[test]
fn elements_are_drawn_with_what_their_program_knows() {
    let size = SizeF { w: d(20.0), h: d(10.0) };
    let uniforms = vec![Uniform::new("color", Parameter::Float { x: s(0.5) })];
    let textures = vec![NamedTexture { name: "tex".to_string(), texture: 9 }];
    let e = ShaderRenderElement::new(5, ProgramType::Border, size, None, s(1.0), s(0.5), uniforms, textures, Kind::Cursor);
    let damage = vec![rect(-5, 2, 10, 100)];
    let draw = e.draw(&draw_facts(true), rect(3, 3, 20, 10), &damage).unwrap().unwrap();
    assert_eq!(draw.vertices, vec![rect(0, 2, 10, 8)]);
    assert_eq!((draw.debug, draw.tint), (false, None));
    assert_eq!(draw.textures, vec![TextureUnit { unit: 0, name: "tex".to_string(), texture: 9 }]);
    assert_eq!((draw.size, draw.scale, draw.alpha), (Size::new(20, 10), s(1.0), s(0.5)));
    assert_eq!(draw.uniforms, vec![Uniform::new("color", Parameter::Float { x: s(0.5) })]);
    assert_eq!((e.id(), e.current_commit()), (5, 0));
    assert_eq!(draw.calls, vec![DrawCall::Instanced { instances: 1 }]);
    let debugged = DrawFacts { debug: true, ..draw_facts(false) };
    let draw = e.draw(&debugged, rect(3, 3, 20, 10), &damage).unwrap().unwrap();
    assert_eq!((draw.debug, draw.tint, draw.vertices.len()), (true, Some(true), 6));
    assert_eq!(e.draw(&draw_facts(true), rect(3, 3, 20, 10), &vec![]), Ok(None));
    assert_eq!(e.draw(&DrawFacts { program: None, ..draw_facts(true) }, rect(3, 3, 20, 10), &damage), Ok(None));
    assert_eq!(e.draw(&DrawFacts { resources: false, ..draw_facts(true) }, rect(3, 3, 20, 10), &damage), Ok(None));
    let mut other = ShaderRenderElement::empty(6, ProgramType::Shadow, Kind::Unspecified).with_alpha(s(0.25));
    assert_eq!((other.alpha, other.scale), (s(0.25), s(1.0)));
    other.damage_all();
    let unknown = vec![
        Uniform::new("color", Parameter::Float { x: s(0.5) }),
        Uniform::new("colour", Parameter::Float { x: s(0.5) }),
        Uniform::new("hue", Parameter::Float { x: s(0.5) }),
    ];
    other = other.with_location(d(4.0), d(5.0));
    other.update(size, Some(vec![area(0.0, 0.0, 1.0, 1.0)]), s(2.0), s(1.0), unknown, vec![]);
    assert_eq!((other.id(), other.commit_counter), (6, 2));
    assert_eq!(other.area, area(4.0, 5.0, 20.0, 10.0));
    assert_eq!(other.draw(&draw_facts(true), rect(0, 0, 20, 10), &damage).unwrap_err().name, "colour");
}

#[test]
fn borders_are_elements() {
    let black = Color { r: s(0.0), g: s(0.0), b: s(0.0), a: s(1.0) };
    let params = |alpha: f32| BorderParameters {
        size: SizeF { w: d(6.0), h: d(7.0) },
        color_from: black,
        color_to: black,
        geometry: area(0.0, 0.0, 1.0, 1.0),
        border_width: s(2.0),
        corner_radius: CornerRadius::uniform(s(3.0)),
        scale: s(1.0),
        alpha: s(alpha),
    };
    let column = Column { x: s(1.0), y: s(2.0), z: s(3.0) };
    let matrix = Matrix { first: column, second: column, third: column };
    let geometry = BorderGeometry { input_to_geo: matrix, width: s(1.0), height: s(1.0) };
    let mut b = BorderRenderElement::new(4, params(1.0), geometry).with_location(d(8.0), d(9.0));
    assert_eq!(b.inner.area, area(8.0, 9.0, 6.0, 7.0));
    assert_eq!(b.inner.additional_uniforms[2], mat3_uniform("input_to_geo", matrix));
    assert_eq!(b.inner.additional_uniforms[5].name, "border_width");
    b.update(params(1.0), geometry);
    assert_eq!(b.inner.commit_counter, 1);
    b.update(params(0.5), geometry);
    assert_eq!((b.inner.id, b.inner.commit_counter, b.inner.alpha), (4, 2, s(0.5)));
    b.damage_all();
    assert_eq!(b.inner.commit_counter, 3);
    assert_eq!(BorderRenderElement::empty(4).params.alpha, s(1.0));
    let shaders = Shaders { border: None, shadow: None, clipped_surface: None };
    assert!(!BorderRenderElement::has_shader(&shaders));
}

#[test]
fn surfaces_are_clipped_to_their_geometry() {
    let rects = vec![rect(0, 0, 50, 50), rect(90, 90, 50, 50), rect(200, 0, 1, 1)];
    assert_eq!(
        clip_to_geometry(&rects, rect(10, 10, 100, 100), Point::new(5, 5)),
        vec![rect(5, 5, 45, 45), rect(90, 90, 15, 15)]
    );
    let geometry = rect(0, 0, 100, 100);
    let corners = vec![rect(0, 0, 10, 10), rect(90, 0, 10, 10), rect(90, 90, 10, 10), rect(0, 90, 10, 10)];
    assert!(!will_clip(rect(10, 10, 80, 80), geometry, true, &corners));
    assert!(!will_clip(rect(20, 0, 30, 100), geometry, true, &corners));
    assert!(will_clip(rect(5, 5, 20, 20), geometry, true, &corners));
    assert!(will_clip(rect(20, 20, 100, 5), geometry, true, &corners));
    assert!(!will_clip(rect(0, 0, 100, 100), geometry, false, &corners));
    assert!(will_clip(rect(0, 0, 101, 100), geometry, false, &corners));
    // An empty surface is cut unless it overlaps a part of what is left.
    assert!(will_clip(rect(200, 200, 0, 0), geometry, true, &corners));
    assert!(!will_clip(rect(50, 50, 0, 0), geometry, true, &corners));
    let opaque = opaque_regions(&vec![rect(0, 0, 100, 100)], geometry, Point::new(0, 0), true, &corners);
    assert!(!opaque.iter().any(|r| r.contains(Point::new(3, 3)) || r.contains(Point::new(95, 95))));
    assert!(opaque.iter().any(|r| r.contains(Point::new(3, 50))));
    let one = opaque_regions(&vec![rect(0, 0, 100, 100)], geometry, Point::new(0, 0), true, &vec![rect(40, 40, 10, 10)]);
    assert_eq!(one, vec![rect(0, 0, 100, 40), rect(0, 40, 40, 10), rect(50, 40, 50, 10), rect(0, 50, 100, 50)]);
    assert_eq!(clip_transform(Transform::Rot90), Transform::Rot270);
    assert_eq!(clip_transform(Transform::Flipped90), Transform::Flipped90);
}

fn area(x: f64, y: f64, w: f64, h: f64) -> RectF {
    RectF { x: d(x), y: d(y), w: d(w), h: d(h) }
}

#[test]
fn textures_have_a_size() {
    let texture = SizeF { w: d(30.0), h: d(40.0) };
    let buffer =
        TextureBuffer::from_texture(2, 7, 3, SizeF { w: d(1.0), h: d(1.0) }, Transform::Rot90, vec![rect(0, 0, 1, 1)], texture);
    assert_eq!((buffer.texture(), buffer.texture_transform()), (3, Transform::Rot90));
    assert_eq!(buffer.texture_scale(), SizeF { w: d(1.0), h: d(1.0) });
    let view = |src, size| {
        TextureRenderElement::from_texture_buffer(buffer.clone(), d(0.0), d(0.0), s(1.0), src, size, Kind::Unspecified)
    };
    let plain = view(None, None);
    assert_eq!(plain.logical_size(), texture);
    assert_eq!(plain.logical_src(), area(0.0, 0.0, 30.0, 40.0));
    assert_eq!(*plain.buffer(), buffer);
    assert!(plain.is_drawn_by(7) && !plain.is_drawn_by(8));
    assert_eq!((plain.id(), plain.current_commit()), (2, 0));
    assert_eq!(view(Some(area(1.0, 2.0, 3.0, 4.0)), None).id(), plain.id());
    let cut = view(Some(area(1.0, 2.0, 3.0, 4.0)), None);
    assert_eq!(cut.logical_size(), SizeF { w: d(3.0), h: d(4.0) });
    let sized = view(Some(area(1.0, 2.0, 3.0, 4.0)), Some(SizeF { w: d(9.0), h: d(9.0) }));
    assert_eq!(sized.logical_size(), SizeF { w: d(9.0), h: d(9.0) });
}

#[test]
fn borders_change_only_when_they_differ() {
    let black = Color { r: s(0.0), g: s(0.0), b: s(0.0), a: s(1.0) };
    let params = |alpha: f32| BorderParameters {
        size: SizeF { w: d(1.0), h: d(1.0) },
        color_from: black,
        color_to: black,
        geometry: area(0.0, 0.0, 1.0, 1.0),
        border_width: s(2.0),
        corner_radius: CornerRadius::uniform(s(3.0)),
        scale: s(1.0),
        alpha: s(alpha),
    };
    let mut p = params(1.0);
    assert!(!p.update(params(1.0)));
    assert!(p.update(params(0.5)));
    assert_eq!(p, params(0.5));
    let mut zero = params(0.0);
    assert!(!zero.update(params(-0.0)));
    let mut nan = params(f32::NAN);
    assert!(nan.update(params(f32::NAN)));
}

#[test]
fn the_first_rule_that_matches_is_found() {
    let mut config = Config::default();
    let titled = WindowRule { app_id: None, title: Some("log".to_string()), window: None, blur: None };
    let both = WindowRule { app_id: Some("term".to_string()), title: Some("vim".to_string()), window: None, blur: None };
    config.window_rules = vec![both, titled, rule("term", None), rule("", forced(1, true))];
    let found = |app_id, title| config.find_window_rule(app_id, title).map(|r| (r.app_id.clone(), r.title.clone()));
    assert_eq!(found(Some("xterm"), Some("gvim")), Some((Some("term".to_string()), Some("vim".to_string()))));
    assert_eq!(found(Some("xterm"), Some("catalog")), Some((None, Some("log".to_string()))));
    assert_eq!(found(Some("xterm"), None), Some((Some("term".to_string()), None)));
    assert_eq!(found(Some("foot"), None), Some((Some(String::new()), None)));
    assert_eq!(found(None, None), None);
    let radius = CornerRadius { top_left: s(1.0), top_right: s(2.0), bottom_right: s(3.0), bottom_left: s(4.0) };
    assert_eq!(radius.to_array(), [s(1.0), s(2.0), s(3.0), s(4.0)]);
}

#[test]
fn elements_give_their_programs_what_those_take() {
    let nought = Column { x: s(0.0), y: s(0.0), z: s(0.0) };
    let matrix = Matrix { first: nought, second: nought, third: nought };
    let border = BorderRenderElement::new(
        1,
        BorderRenderElement::empty(1).params,
        BorderGeometry { input_to_geo: matrix, width: s(1.0), height: s(1.0) },
    );
    let names: Vec<String> = uniform_names(ProgramType::Border).into_iter().map(|u| u.name).collect();
    let given: Vec<String> = border.inner.additional_uniforms.iter().map(|u| u.name.clone()).collect();
    assert_eq!(names, given);
    let facts = DrawFacts {
        program: Some(ProgramNames { uniforms: names, textures: vec![] }),
        resources: true,
        instancing: true,
        debug: false,
        tint: false,
    };
    assert!(border.inner.draw(&facts, rect(0, 0, 5, 5), &vec![rect(0, 0, 1, 1)]).unwrap().is_some());
    assert_eq!(uniform_names(ProgramType::Shadow).len(), 8);
    assert_eq!(uniform_names(ProgramType::Shadow)[1].kind, UniformKind::Float);
    let clip = compute_uniforms(s(2.0), s(3.0), s(4.0), CornerRadius::uniform(s(5.0)), matrix);
    let names: Vec<String> = clip_uniform_names().into_iter().map(|u| u.name).collect();
    let given: Vec<String> = clip.iter().map(|u| u.name.clone()).collect();
    assert_eq!(names, given);
    assert_eq!(clip[1].value, Parameter::Vec2 { x: s(3.0), y: s(4.0) });
    let (normal, debug) = program_sources("void main() {}");
    assert_eq!(normal, "#version 100\nvoid main() {}");
    assert_eq!(debug, "#version 100\n#define DEBUG_FLAGS\nvoid main() {}");
}

#[test]
fn effects_count_their_changes() {
    let options = Some(BlurOptions { passes: 3, offset: d(1.5) });
    let mut e = FramebufferEffectElement::new(8, area(3.0, 4.0, 50.0, 60.0), s(2.0), options);
    assert_eq!((e.id(), e.current_commit()), (8, 0));
    assert_eq!(e.src(), area(0.0, 0.0, 50.0, 60.0));
    e.damage_all();
    assert_eq!((e.id(), e.current_commit()), (8, 1));
    assert!(e.is_framebuffer_effect());
    assert!(e.begin_capture(true).wants_blur);
    assert!(!FramebufferEffectElement::new(8, e.geometry, e.scale, None).begin_capture(true).wants_blur);
}
