//! What the tables of the configuration script say of windows, animations,
//! layouts and shaders.
use vstd::prelude::*;
use crate::config::lua::{
    gives, the_first_pair_of_a_name_counts, ConfigError, Fault, LuaKind, LuaPair, LuaTable, LuaValue,
};
use crate::config::parse::{
    as_table, double_or, each, each_goes_on, each_starts, lists, lists_are_read_item_by_item,
    need_double, need_single, need_text, needed, or_else, prepend, single_or, POINT_NINE_BITS, POINT_OH_ONE_BITS, POINT_ONE_BITS,
    THREE_HUNDRED_BITS,
};
use crate::config::{
    border_color, inactive_border_color, opaque_black, opaque_grey, AnimConfig, AnimCurve,
    AnimationsConfig, BlurConfig, BlurOverride, BorderConfig, Color, CornerRadius,
    CustomShaderConfig, CustomShaderKind, LayerRule, LayoutAnimConfig, LayoutConfig, LayoutType,
    Margins, PartialWindowConfig, ShaderUniform, ShadowConfig, UniformValue, WindowAnimConfig,
    WindowConfig, WindowRule, F32_ONE_BITS, F32_POINT_FOUR_SEVEN_BITS, POINT_EIGHT_BITS,
};
use crate::config::load::{join_path, joined};
use vstd::utf8::encode_utf8;
use crate::float::{F32, F64, ONE_BITS};
use crate::state::RectF;
use crate::text::{
    begins_with, contains, is_trimmed, occurs, occurs_at, same, starts_with, trim, trimmed_is_unique,
};

verus! {

// ---- colours, borders, shadows ----

/// The colour in a table: red, green and blue are needed, the opacity has a
/// default.
pub open spec fn color_in(c: LuaTable, opacity: u32) -> Result<Color, Fault> {
    match needed(c.single("r"@), "r"@) {
        Err(e) => Err(e),
        Ok(r) => match needed(c.single("g"@), "g"@) {
            Err(e) => Err(e),
            Ok(g) => match needed(c.single("b"@), "b"@) {
                Err(e) => Err(e),
                Ok(b) => Ok(Color { r, g, b, a: or_else(c.single("a"@), F32 { bits: opacity }) }),
            },
        },
    }
}

fn parse_color(c: &LuaTable, opacity: u32) -> (r: Result<Color, ConfigError>)
    ensures
        gives(r, color_in(*c, opacity)),
{
    let r: F32 = match need_single(c, "r") {
        Ok(v) => v,
        Err(e) => {
            return Err(e);
        },
    };
    let g: F32 = match need_single(c, "g") {
        Ok(v) => v,
        Err(e) => {
            return Err(e);
        },
    };
    let b: F32 = match need_single(c, "b") {
        Ok(v) => v,
        Err(e) => {
            return Err(e);
        },
    };
    Ok(Color { r, g, b, a: single_or(c, "a", opacity) })
}

/// The colour under a name, or the one that stands in for it.
pub open spec fn color_at(t: LuaTable, name: Seq<char>, opacity: u32, other: Color) -> Result<
    Color,
    Fault,
> {
    match t.table(name) {
        Some(c) => color_in(c, opacity),
        None => Ok(other),
    }
}

/// What a table says of a border.
pub open spec fn border_of(t: LuaTable) -> Result<BorderConfig, Fault> {
    match color_at(t, "color"@, F32_ONE_BITS, opaque_black()) {
        Err(e) => Err(e),
        Ok(color) => match color_at(t, "inactive_color"@, F32_ONE_BITS, opaque_grey()) {
            Err(e) => Err(e),
            Ok(inactive_color) => Ok(
                BorderConfig {
                    width: or_else(t.double("width"@), F64 { bits: 0 }),
                    color,
                    inactive_color,
                },
            ),
        },
    }
}

/// A border.
pub fn parse_border_config(table: &LuaTable) -> (r: Result<BorderConfig, ConfigError>)
    ensures
        gives(r, border_of(*table)),
{
    let color = match table.get_table("color") {
        Some(c) => match parse_color(c, F32_ONE_BITS) {
            Ok(v) => v,
            Err(e) => {
                return Err(e);
            },
        },
        None => border_color(),
    };
    let inactive_color = match table.get_table("inactive_color") {
        Some(c) => match parse_color(c, F32_ONE_BITS) {
            Ok(v) => v,
            Err(e) => {
                return Err(e);
            },
        },
        None => inactive_border_color(),
    };
    Ok(BorderConfig { width: double_or(table, "width", 0), color, inactive_color })
}

/// What a table says of a shadow.
pub open spec fn shadow_of(t: LuaTable) -> Result<ShadowConfig, Fault> {
    let base = ShadowConfig::standard();
    match color_at(t, "color"@, F32_POINT_FOUR_SEVEN_BITS, base.color) {
        Err(e) => Err(e),
        Ok(color) => Ok(
            ShadowConfig {
                enable: t.flag("enable"@),
                offset_x: or_else(t.double("offset_x"@), base.offset_x),
                offset_y: or_else(t.double("offset_y"@), base.offset_y),
                softness: or_else(t.double("softness"@), base.softness),
                spread: or_else(t.double("spread"@), base.spread),
                color,
            },
        ),
    }
}

/// A shadow.
pub fn parse_shadow_config(table: &LuaTable) -> (r: Result<ShadowConfig, ConfigError>)
    ensures
        gives(r, shadow_of(*table)),
{
    let base = ShadowConfig::default();
    let color = match table.get_table("color") {
        Some(c) => match parse_color(c, F32_POINT_FOUR_SEVEN_BITS) {
            Ok(v) => v,
            Err(e) => {
                return Err(e);
            },
        },
        None => base.color,
    };
    Ok(
        ShadowConfig {
            enable: table.get_flag("enable"),
            offset_x: double_or(table, "offset_x", base.offset_x.bits),
            offset_y: double_or(table, "offset_y", base.offset_y.bits),
            softness: double_or(table, "softness", base.softness.bits),
            spread: double_or(table, "spread", base.spread.bits),
            color,
        },
    )
}

/// The corners that a table says: one radius for all, or a table with one for
/// each, where a missing one is zero.
pub open spec fn corners_of(t: LuaTable) -> Option<CornerRadius> {
    match t.table("corner_radius"@) {
        Some(c) => Some(
            CornerRadius {
                top_left: or_else(c.single("top_left"@), F32 { bits: 0 }),
                top_right: or_else(c.single("top_right"@), F32 { bits: 0 }),
                bottom_right: or_else(c.single("bottom_right"@), F32 { bits: 0 }),
                bottom_left: or_else(c.single("bottom_left"@), F32 { bits: 0 }),
            },
        ),
        None => match t.single("corner_radius"@) {
            Some(r) => Some(CornerRadius::all(r)),
            None => None,
        },
    }
}

fn parse_corners(t: &LuaTable) -> (r: Option<CornerRadius>)
    ensures
        r == corners_of(*t),
{
    match t.get_table("corner_radius") {
        Some(c) => Some(
            CornerRadius {
                top_left: single_or(c, "top_left", 0),
                top_right: single_or(c, "top_right", 0),
                bottom_right: single_or(c, "bottom_right", 0),
                bottom_left: single_or(c, "bottom_left", 0),
            },
        ),
        None => match t.get_single("corner_radius") {
            Some(r) => Some(CornerRadius::uniform(r)),
            None => None,
        },
    }
}

/// The border that a table says, if it says any.
pub open spec fn border_at(t: LuaTable) -> Result<Option<BorderConfig>, Fault> {
    match t.table("border"@) {
        None => Ok(None),
        Some(b) => match border_of(b) {
            Ok(v) => Ok(Some(v)),
            Err(e) => Err(e),
        },
    }
}

fn parse_border(t: &LuaTable) -> (r: Result<Option<BorderConfig>, ConfigError>)
    ensures
        gives(r, border_at(*t)),
{
    match t.get_table("border") {
        None => Ok(None),
        Some(b) => match parse_border_config(b) {
            Ok(v) => Ok(Some(v)),
            Err(e) => Err(e),
        },
    }
}

/// The shadow that a table says, if it says any.
pub open spec fn shadow_at(t: LuaTable) -> Result<Option<ShadowConfig>, Fault> {
    match t.table("shadow"@) {
        None => Ok(None),
        Some(s) => match shadow_of(s) {
            Ok(v) => Ok(Some(v)),
            Err(e) => Err(e),
        },
    }
}

fn parse_shadow(t: &LuaTable) -> (r: Result<Option<ShadowConfig>, ConfigError>)
    ensures
        gives(r, shadow_at(*t)),
{
    match t.get_table("shadow") {
        None => Ok(None),
        Some(s) => match parse_shadow_config(s) {
            Ok(v) => Ok(Some(v)),
            Err(e) => Err(e),
        },
    }
}

// ---- windows ----

/// Whether `w` is what a table says of windows: what it leaves out is standard,
/// but for the flags, which are then off.
pub open spec fn window_says(t: LuaTable, w: WindowConfig) -> bool {
    &&& w.prefer_no_csd == t.flag("prefer_no_csd"@)
    &&& w.floating == t.flag("floating"@)
    &&& border_at(t) matches Ok(b)
    &&& w.border == or_else(b, BorderConfig::standard())
    &&& shadow_at(t) matches Ok(s)
    &&& w.shadow == or_else(s, ShadowConfig::standard())
    &&& w.corner_radius == or_else(corners_of(t), CornerRadius::all(F32 { bits: 0 }))
    &&& match t.text("resize_modifier"@) {
        Some(m) => w.resize_modifier == m,
        None => w.resize_modifier@ == "Ctrl"@,
    }
    &&& w.shader == t.text("shader"@)
}

/// The settings of all windows.
pub fn parse_window(table: &LuaTable) -> (r: Result<WindowConfig, ConfigError>)
    ensures
        match border_at(*table) {
            Err(f) => r matches Err(e) && e@ == f,
            Ok(_) => match shadow_at(*table) {
                Err(f) => r matches Err(e) && e@ == f,
                Ok(_) => r matches Ok(w) && window_says(*table, w),
            },
        },
{
    let border = match parse_border(table) {
        Ok(Some(b)) => b,
        Ok(None) => BorderConfig::default(),
        Err(e) => {
            return Err(e);
        },
    };
    let shadow = match parse_shadow(table) {
        Ok(Some(s)) => s,
        Ok(None) => ShadowConfig::default(),
        Err(e) => {
            return Err(e);
        },
    };
    let corner_radius = match parse_corners(table) {
        Some(c) => c,
        None => CornerRadius::uniform(F32 { bits: 0 }),
    };
    let resize_modifier = match table.get_text("resize_modifier") {
        Some(m) => m,
        None => "Ctrl".to_owned(),
    };
    Ok(
        WindowConfig {
            prefer_no_csd: table.get_flag("prefer_no_csd"),
            border,
            shadow,
            corner_radius,
            resize_modifier,
            floating: table.get_flag("floating"),
            shader: table.get_text("shader"),
        },
    )
}

/// A flag that is set either way.
pub open spec fn flag_at(t: LuaTable, name: Seq<char>) -> Option<bool> {
    if t.present(name) {
        Some(t.flag(name))
    } else {
        None
    }
}

fn parse_flag(t: &LuaTable, name: &str) -> (r: Option<bool>)
    ensures
        r == flag_at(*t, name@),
{
    if t.has(name) {
        Some(t.get_flag(name))
    } else {
        None
    }
}

/// What a table says of the windows of a rule, and nothing that it leaves out.
pub open spec fn partial_window_of(t: LuaTable) -> Result<PartialWindowConfig, Fault> {
    match border_at(t) {
        Err(e) => Err(e),
        Ok(border) => match shadow_at(t) {
            Err(e) => Err(e),
            Ok(shadow) => Ok(
                PartialWindowConfig {
                    prefer_no_csd: flag_at(t, "prefer_no_csd"@),
                    border,
                    shadow,
                    corner_radius: corners_of(t),
                    resize_modifier: t.text("resize_modifier"@),
                    floating: flag_at(t, "floating"@),
                    shader: t.text("shader"@),
                },
            ),
        },
    }
}

/// Window settings of which only those that the table sets are there.
pub fn parse_partial_window(table: &LuaTable) -> (r: Result<PartialWindowConfig, ConfigError>)
    ensures
        gives(r, partial_window_of(*table)),
{
    let border = match parse_border(table) {
        Ok(b) => b,
        Err(e) => {
            return Err(e);
        },
    };
    let shadow = match parse_shadow(table) {
        Ok(s) => s,
        Err(e) => {
            return Err(e);
        },
    };
    Ok(
        PartialWindowConfig {
            prefer_no_csd: parse_flag(table, "prefer_no_csd"),
            border,
            shadow,
            corner_radius: parse_corners(table),
            resize_modifier: table.get_text("resize_modifier"),
            floating: parse_flag(table, "floating"),
            shader: table.get_text("shader"),
        },
    )
}

// ---- blur ----

/// What a table says of blur: numbers that it leaves out are standard, flags
/// that it leaves out are off.
pub fn parse_blur(table: &LuaTable) -> (r: BlurConfig)
    ensures
        r == (BlurConfig {
            enable: table.flag("enable"@),
            passes: or_else(table.byte("passes"@), BlurConfig::standard().passes),
            offset: or_else(table.double("offset"@), BlurConfig::standard().offset),
            xray: table.flag("xray"@),
        }),
{
    let base = BlurConfig::default();
    BlurConfig {
        enable: table.get_flag("enable"),
        passes: match table.get_byte("passes") {
            Some(p) => p,
            None => base.passes,
        },
        offset: match table.get_double("offset") {
            Some(o) => o,
            None => base.offset,
        },
        xray: table.get_flag("xray"),
    }
}

/// What a rule says of blur.
pub open spec fn blur_override_of(t: LuaTable) -> BlurOverride {
    BlurOverride {
        enable: t.flag("enable"@),
        passes: t.byte("passes"@),
        offset: t.double("offset"@),
        xray: Some(t.flag("xray"@)),
    }
}

/// The blur of a rule.
pub fn parse_blur_override(table: &LuaTable) -> (r: BlurOverride)
    ensures
        r == blur_override_of(*table),
{
    BlurOverride {
        enable: table.get_flag("enable"),
        passes: table.get_byte("passes"),
        offset: table.get_double("offset"),
        xray: Some(table.get_flag("xray")),
    }
}

pub open spec fn blur_at(t: LuaTable) -> Option<BlurOverride> {
    match t.table("blur"@) {
        Some(b) => Some(blur_override_of(b)),
        None => None,
    }
}

fn parse_rule_blur(t: &LuaTable) -> (r: Option<BlurOverride>)
    ensures
        r == blur_at(*t),
{
    match t.get_table("blur") {
        Some(b) => Some(parse_blur_override(b)),
        None => None,
    }
}

// ---- rules ----

/// What a table says of the windows that it is about.
pub open spec fn window_rule_of(t: LuaTable) -> Result<WindowRule, Fault> {
    let settings = match t.table("window"@) {
        None => Ok(None),
        Some(w) => match partial_window_of(w) {
            Ok(p) => Ok(Some(p)),
            Err(e) => Err(e),
        },
    };
    match settings {
        Err(e) => Err(e),
        Ok(window) => Ok(
            WindowRule {
                app_id: t.text("app_id"@),
                title: t.text("title"@),
                window,
                blur: blur_at(t),
            },
        ),
    }
}

/// A single rule for windows.
pub fn parse_single_window_rule(t: &LuaTable) -> (r: Result<WindowRule, ConfigError>)
    ensures
        gives(r, window_rule_of(*t)),
{
    let window = match t.get_table("window") {
        None => None,
        Some(w) => match parse_partial_window(w) {
            Ok(p) => Some(p),
            Err(e) => {
                return Err(e);
            },
        },
    };
    Ok(
        WindowRule {
            app_id: t.get_text("app_id"),
            title: t.get_text("title"),
            window,
            blur: parse_rule_blur(t),
        },
    )
}

pub open spec fn window_rule_item(v: LuaValue) -> Result<WindowRule, Fault> {
    match as_table(v) {
        Ok(t) => window_rule_of(t),
        Err(e) => Err(e),
    }
}

/// A list of rules for windows.
pub fn parse_window_rules(table: &LuaTable) -> (r: Result<Vec<WindowRule>, ConfigError>)
    ensures
        lists(r, each(table.items@, |v: LuaValue| window_rule_item(v), 0)),
{
    let ghost f = |v: LuaValue| window_rule_item(v);
    let ghost items = table.items@;
    let mut out: Vec<WindowRule> = Vec::new();
    let mut i: usize = 0;
    proof {
        each_starts(items, f);
    }
    while i < table.items.len()
        invariant
            i <= items.len(),
            items == table.items@,
            f == (|v: LuaValue| window_rule_item(v)),
            each(items, f, 0) == prepend(out@, each(items, f, i as int)),
        decreases items.len() - i,
    {
        let t = match &table.items[i].kind {
            LuaKind::Table(t) => t,
            _ => {
                return Err(ConfigError::wrong("item"));
            },
        };
        let rule = match parse_single_window_rule(t) {
            Ok(rule) => rule,
            Err(e) => {
                return Err(e);
            },
        };
        proof {
            each_goes_on(items, f, out@, i as int, rule);
        }
        out.push(rule);
        i = i + 1;
    }
    assert(out@ + Seq::<WindowRule>::empty() =~= out@);
    Ok(out)
}

pub open spec fn layer_rule_of(t: LuaTable) -> LayerRule {
    LayerRule { namespace: t.text("namespace"@), blur: blur_at(t) }
}

/// A single rule for layer surfaces.
pub fn parse_single_layer_rule(t: &LuaTable) -> (r: LayerRule)
    ensures
        r == layer_rule_of(*t),
{
    LayerRule { namespace: t.get_text("namespace"), blur: parse_rule_blur(t) }
}

pub open spec fn layer_rule_item(v: LuaValue) -> Result<LayerRule, Fault> {
    match as_table(v) {
        Ok(t) => Ok(layer_rule_of(t)),
        Err(e) => Err(e),
    }
}

/// A list of rules for layer surfaces.
pub fn parse_layer_rules(table: &LuaTable) -> (r: Result<Vec<LayerRule>, ConfigError>)
    ensures
        lists(r, each(table.items@, |v: LuaValue| layer_rule_item(v), 0)),
{
    let ghost f = |v: LuaValue| layer_rule_item(v);
    let ghost items = table.items@;
    let mut out: Vec<LayerRule> = Vec::new();
    let mut i: usize = 0;
    proof {
        each_starts(items, f);
    }
    while i < table.items.len()
        invariant
            i <= items.len(),
            items == table.items@,
            f == (|v: LuaValue| layer_rule_item(v)),
            each(items, f, 0) == prepend(out@, each(items, f, i as int)),
        decreases items.len() - i,
    {
        let t = match &table.items[i].kind {
            LuaKind::Table(t) => t,
            _ => {
                return Err(ConfigError::wrong("item"));
            },
        };
        let rule = parse_single_layer_rule(t);
        proof {
            each_goes_on(items, f, out@, i as int, rule);
        }
        out.push(rule);
        i = i + 1;
    }
    assert(out@ + Seq::<LayerRule>::empty() =~= out@);
    Ok(out)
}

// ---- animations ----

/// The easing curves that have a name.
pub open spec fn named_curve(name: Seq<char>) -> Option<AnimCurve> {
    if name == "linear"@ {
        Some(AnimCurve::Linear)
    } else if name == "ease-out-quad"@ {
        Some(AnimCurve::EaseOutQuad)
    } else if name == "ease-out-cubic"@ {
        Some(AnimCurve::EaseOutCubic)
    } else if name == "ease-out-expo"@ {
        Some(AnimCurve::EaseOutExpo)
    } else {
        None
    }
}

/// The number at a position of a curve.
pub open spec fn control(items: Seq<LuaValue>, at: int) -> Option<F64> {
    if 0 <= at < items.len() {
        items[at].double
    } else {
        None
    }
}

/// A curve with parameters: its kind and four numbers.
pub open spec fn listed_curve(items: Seq<LuaValue>) -> Result<AnimCurve, Fault> {
    let kind = if items.len() > 0 {
        items[0].text
    } else {
        None
    };
    match kind {
        None => Err(Fault::Wrong("curve"@)),
        Some(kind) => if kind@ == "cubic-bezier"@ {
            match (control(items, 1), control(items, 2), control(items, 3), control(items, 4)) {
                (Some(x1), Some(y1), Some(x2), Some(y2)) => Ok(AnimCurve::CubicBezier(x1, y1, x2, y2)),
                _ => Err(Fault::Wrong("curve"@)),
            }
        } else {
            Err(Fault::Message("Unknown parametric curve: "@ + kind@))
        },
    }
}

/// What a table says of the easing curve.
pub open spec fn curve_of(t: LuaTable) -> Result<AnimCurve, Fault> {
    match t.at("curve"@) {
        None => Err(Fault::Message("curve must be a string or table"@)),
        Some(v) => match v.kind {
            LuaKind::Text => match v.text {
                None => Err(Fault::Wrong("curve"@)),
                Some(s) => match named_curve(s@) {
                    Some(c) => Ok(c),
                    None => Err(Fault::Message("Unknown animation curve: "@ + s@)),
                },
            },
            LuaKind::Table(c) => listed_curve(c.items@),
            _ => Err(Fault::Message("curve must be a string or table"@)),
        },
    }
}

fn find_curve(name: &str) -> (r: Option<AnimCurve>)
    ensures
        r == named_curve(name@),
{
    if same(name, "linear") {
        Some(AnimCurve::Linear)
    } else if same(name, "ease-out-quad") {
        Some(AnimCurve::EaseOutQuad)
    } else if same(name, "ease-out-cubic") {
        Some(AnimCurve::EaseOutCubic)
    } else if same(name, "ease-out-expo") {
        Some(AnimCurve::EaseOutExpo)
    } else {
        None
    }
}

fn find_control(items: &Vec<LuaValue>, at: usize) -> (r: Option<F64>)
    ensures
        r == control(items@, at as int),
{
    if at < items.len() {
        items[at].double
    } else {
        None
    }
}

fn parse_listed_curve(items: &Vec<LuaValue>) -> (r: Result<AnimCurve, ConfigError>)
    ensures
        gives(r, listed_curve(items@)),
{
    if items.len() == 0 {
        return Err(ConfigError::wrong("curve"));
    }
    match &items[0].text {
        None => Err(ConfigError::wrong("curve")),
        Some(kind) => {
            if !same(kind, "cubic-bezier") {
                return Err(ConfigError::about("Unknown parametric curve: ", kind));
            }
            let x1 = find_control(items, 1);
            let y1 = find_control(items, 2);
            let x2 = find_control(items, 3);
            let y2 = find_control(items, 4);
            match (x1, y1, x2, y2) {
                (Some(x1), Some(y1), Some(x2), Some(y2)) => Ok(AnimCurve::CubicBezier(x1, y1, x2, y2)),
                _ => Err(ConfigError::wrong("curve")),
            }
        },
    }
}

/// The easing curve of an animation: one by name, or a list with a kind and its
/// numbers.
pub fn parse_anim_curve(table: &LuaTable) -> (r: Result<AnimCurve, ConfigError>)
    ensures
        gives(r, curve_of(*table)),
{
    match table.get("curve") {
        None => Err(ConfigError::message("curve must be a string or table")),
        Some(v) => match &v.kind {
            LuaKind::Text => match &v.text {
                None => Err(ConfigError::wrong("curve")),
                Some(s) => match find_curve(s) {
                    Some(c) => Ok(c),
                    None => Err(ConfigError::about("Unknown animation curve: ", s)),
                },
            },
            LuaKind::Table(c) => parse_listed_curve(&c.items),
            _ => Err(ConfigError::message("curve must be a string or table")),
        },
    }
}

/// The curve that a table says, or the standard one where it says none.
pub open spec fn curve_or_standard(t: LuaTable) -> AnimCurve {
    match curve_of(t) {
        Ok(c) => c,
        Err(_) => AnimCurve::EaseOutCubic,
    }
}

fn parse_curve_or_standard(t: &LuaTable) -> (c: AnimCurve)
    ensures
        c == curve_or_standard(*t),
{
    match parse_anim_curve(t) {
        Ok(c) => c,
        Err(_) => AnimCurve::EaseOutCubic,
    }
}

/// What a table says of a window's animation.
pub open spec fn window_anim_of(t: LuaTable) -> WindowAnimConfig {
    WindowAnimConfig {
        enable: t.flag("enable"@),
        duration_ms: or_else(t.word("duration_ms"@), 150),
        curve: curve_or_standard(t),
        scale: match t.double("scale"@) {
            Some(s) => s.clamped(F64 { bits: 0 }, F64 { bits: ONE_BITS }),
            None => F64 { bits: POINT_EIGHT_BITS },
        },
    }
}

/// A window's animation.
pub fn parse_window_anim(table: &LuaTable) -> (r: WindowAnimConfig)
    ensures
        r == window_anim_of(*table),
{
    WindowAnimConfig {
        enable: table.get_flag("enable"),
        duration_ms: match table.get_word("duration_ms") {
            Some(d) => d,
            None => 150,
        },
        curve: parse_curve_or_standard(table),
        scale: match table.get_double("scale") {
            Some(s) => s.clamp(F64 { bits: 0 }, F64 { bits: ONE_BITS }),
            None => F64 { bits: POINT_EIGHT_BITS },
        },
    }
}

pub open spec fn window_anim_at(t: LuaTable, name: Seq<char>, other: WindowAnimConfig) -> WindowAnimConfig {
    match t.table(name) {
        Some(a) => window_anim_of(a),
        None => other,
    }
}

/// The animations of windows and workspaces.
pub fn parse_animations(table: &LuaTable) -> (r: AnimationsConfig)
    ensures
        r == ({
            let base = AnimationsConfig::standard();
            AnimationsConfig {
                enable: table.flag("enable"@),
                window_open: window_anim_at(*table, "window_open"@, base.window_open),
                window_close: window_anim_at(*table, "window_close"@, base.window_close),
                workspace_switch: window_anim_at(*table, "workspace_switch"@, base.workspace_switch),
            }
        }),
{
    let mut a = AnimationsConfig::default();
    a.enable = table.get_flag("enable");
    match table.get_table("window_open") {
        Some(t) => {
            a.window_open = parse_window_anim(t);
        },
        None => {},
    }
    match table.get_table("window_close") {
        Some(t) => {
            a.window_close = parse_window_anim(t);
        },
        None => {},
    }
    match table.get_table("workspace_switch") {
        Some(t) => {
            a.workspace_switch = parse_window_anim(t);
        },
        None => {},
    }
    a
}

/// What a table says of an animation: nothing, a spring, or an easing curve.
pub open spec fn anim_of(t: LuaTable) -> AnimConfig {
    if t.present("off"@) || (t.present("enable"@) && !t.flag("enable"@)) {
        AnimConfig::Off
    } else {
        match t.table("spring"@) {
            Some(s) => AnimConfig::Spring {
                damping_ratio: or_else(s.double("damping_ratio"@), F64 { bits: POINT_EIGHT_BITS }),
                stiffness: or_else(s.double("stiffness"@), F64 { bits: THREE_HUNDRED_BITS }),
                epsilon: or_else(s.double("epsilon"@), F64 { bits: POINT_OH_ONE_BITS }),
            },
            None => AnimConfig::Curve {
                duration_ms: or_else(t.word("duration_ms"@), 250),
                curve: curve_or_standard(t),
            },
        }
    }
}

/// An animation: `{ curve = ..., duration_ms = ... }`,
/// `{ spring = { damping_ratio = ..., stiffness = ..., epsilon = ... } }`, or
/// `{ off = true }` or `{ enable = false }` for none.
pub fn parse_anim_config(table: &LuaTable) -> (r: AnimConfig)
    ensures
        r == anim_of(*table),
{
    if table.has("off") {
        return AnimConfig::Off;
    }
    if table.has("enable") && !table.get_flag("enable") {
        return AnimConfig::Off;
    }
    match table.get_table("spring") {
        Some(s) => AnimConfig::Spring {
            damping_ratio: double_or(s, "damping_ratio", POINT_EIGHT_BITS),
            stiffness: double_or(s, "stiffness", THREE_HUNDRED_BITS),
            epsilon: double_or(s, "epsilon", POINT_OH_ONE_BITS),
        },
        None => AnimConfig::Curve {
            duration_ms: match table.get_word("duration_ms") {
                Some(d) => d,
                None => 250,
            },
            curve: parse_curve_or_standard(table),
        },
    }
}

/// The animation that a value specifies: a table says which, `false` and
/// `"off"` say none, and anything else says nothing.
pub open spec fn specified_anim(v: LuaValue) -> Option<AnimConfig> {
    match v.kind {
        LuaKind::Table(t) => Some(anim_of(t)),
        LuaKind::Boolean(b) => if b {
            None
        } else {
            Some(AnimConfig::Off)
        },
        LuaKind::Text => match v.text {
            Some(s) => if s@ == "off"@ {
                Some(AnimConfig::Off)
            } else {
                None
            },
            None => None,
        },
        _ => None,
    }
}

/// The animation under a name, or the one that stands in for it.
pub open spec fn anim_at(t: LuaTable, name: Seq<char>, other: AnimConfig) -> AnimConfig {
    match t.at(name) {
        Some(v) => or_else(specified_anim(v), other),
        None => other,
    }
}

fn parse_anim_at(t: &LuaTable, name: &str, other: AnimConfig) -> (r: AnimConfig)
    ensures
        r == anim_at(*t, name@, other),
{
    match t.get(name) {
        Some(v) => match &v.kind {
            LuaKind::Table(a) => parse_anim_config(a),
            LuaKind::Boolean(b) => {
                if *b {
                    other
                } else {
                    AnimConfig::Off
                }
            },
            LuaKind::Text => match &v.text {
                Some(s) => {
                    if same(s, "off") {
                        AnimConfig::Off
                    } else {
                        other
                    }
                },
                None => other,
            },
            _ => other,
        },
        None => other,
    }
}

pub open spec fn layout_anim_of(t: LuaTable) -> LayoutAnimConfig {
    let base = LayoutAnimConfig::standard();
    LayoutAnimConfig {
        move_anim: anim_at(t, "move"@, base.move_anim),
        resize_anim: anim_at(t, "resize"@, base.resize_anim),
    }
}

/// The animations of a layout: `{ move = ..., resize = ... }`.
pub fn parse_layout_anim(table: &LuaTable) -> (r: LayoutAnimConfig)
    ensures
        r == layout_anim_of(*table),
{
    let base = LayoutAnimConfig::default();
    LayoutAnimConfig {
        move_anim: parse_anim_at(table, "move", base.move_anim),
        resize_anim: parse_anim_at(table, "resize", base.resize_anim),
    }
}

// ---- layouts ----

pub open spec fn named_layout(name: Seq<char>) -> Option<LayoutType> {
    if name == "floating"@ {
        Some(LayoutType::Floating)
    } else if name == "columns"@ {
        Some(LayoutType::Columns)
    } else if name == "grid"@ {
        Some(LayoutType::Grid)
    } else if name == "master-stack"@ {
        Some(LayoutType::MasterStack)
    } else if name == "maximize"@ {
        Some(LayoutType::Maximize)
    } else if name == "custom"@ {
        Some(LayoutType::Custom)
    } else {
        None
    }
}

pub open spec fn layout_type_of(t: LuaTable) -> Result<LayoutType, Fault> {
    match t.text("type"@) {
        None => Ok(LayoutType::Floating),
        Some(name) => match named_layout(name@) {
            Some(l) => Ok(l),
            None => Err(Fault::Message("Unknown layout type: "@ + name@)),
        },
    }
}

/// The kind of a layout; floating where none is said.
pub fn parse_layout_type(t: &LuaTable) -> (r: Result<LayoutType, ConfigError>)
    ensures
        gives(r, layout_type_of(*t)),
{
    let name = match t.get_text("type") {
        None => {
            return Ok(LayoutType::Floating);
        },
        Some(name) => name,
    };
    if same(&name, "floating") {
        Ok(LayoutType::Floating)
    } else if same(&name, "columns") {
        Ok(LayoutType::Columns)
    } else if same(&name, "grid") {
        Ok(LayoutType::Grid)
    } else if same(&name, "master-stack") {
        Ok(LayoutType::MasterStack)
    } else if same(&name, "maximize") {
        Ok(LayoutType::Maximize)
    } else if same(&name, "custom") {
        Ok(LayoutType::Custom)
    } else {
        Err(ConfigError::about("Unknown layout type: ", &name))
    }
}

pub open spec fn margins_of(t: LuaTable) -> Margins {
    Margins {
        top: or_else(t.double("top"@), F64 { bits: 0 }),
        bottom: or_else(t.double("bottom"@), F64 { bits: 0 }),
        left: or_else(t.double("left"@), F64 { bits: 0 }),
        right: or_else(t.double("right"@), F64 { bits: 0 }),
    }
}

/// The margins of a layout; zero where none is said.
pub fn parse_margins(t: &LuaTable) -> (r: Margins)
    ensures
        r == margins_of(*t),
{
    Margins {
        top: double_or(t, "top", 0),
        bottom: double_or(t, "bottom", 0),
        left: double_or(t, "left", 0),
        right: double_or(t, "right", 0),
    }
}

/// What a table says of a layout of a kind, its function aside.
pub open spec fn layout_but_function(t: LuaTable, layout: LayoutType) -> LayoutConfig {
    let base = LayoutConfig::standard();
    LayoutConfig {
        layout,
        gap: match t.double("gap"@) {
            Some(g) => g.raised(F64 { bits: 0 }),
            None => base.gap,
        },
        margins: match t.table("margins"@) {
            Some(m) => margins_of(m),
            None => base.margins,
        },
        master_ratio: match t.double("master_ratio"@) {
            Some(r) => r.clamped(F64 { bits: POINT_ONE_BITS }, F64 { bits: POINT_NINE_BITS }),
            None => base.master_ratio,
        },
        animation: match t.table("animation"@) {
            Some(a) => layout_anim_of(a),
            None => base.animation,
        },
        custom_fn: None,
    }
}

/// What a table says of the layout, where `count` functions are known already.
pub open spec fn layout_of(t: LuaTable, count: int) -> Result<LayoutConfig, Fault> {
    match layout_type_of(t) {
        Err(e) => Err(e),
        Ok(layout) => {
            let l = layout_but_function(t, layout);
            match t.function("fn"@) {
                None => Ok(l),
                Some(h) => if layout == LayoutType::Custom {
                    Ok(LayoutConfig { custom_fn: Some(count as usize), ..l })
                } else {
                    Err(Fault::Message("layout `fn` is only allowed with type = \"custom\""@))
                },
            }
        },
    }
}

/// The layout. A function is kept for later, and only a custom layout has one.
pub fn parse_layout(t: &LuaTable, callbacks: &mut Vec<u64>) -> (r: Result<LayoutConfig, ConfigError>)
    ensures
        gives(r, layout_of(*t, old(callbacks)@.len() as int)),
        final(callbacks)@ == (match (r, t.function("fn"@)) {
            (Ok(_), Some(h)) => old(callbacks)@.push(h),
            _ => old(callbacks)@,
        }),
{
    let kind = match parse_layout_type(t) {
        Ok(k) => k,
        Err(e) => {
            return Err(e);
        },
    };
    let mut layout = LayoutConfig::default();
    layout.layout = kind;
    match t.get_double("gap") {
        Some(g) => {
            layout.gap = g.at_least(F64 { bits: 0 });
        },
        None => {},
    }
    match t.get_table("margins") {
        Some(m) => {
            layout.margins = parse_margins(m);
        },
        None => {},
    }
    match t.get_double("master_ratio") {
        Some(r) => {
            layout.master_ratio = r.clamp(
                F64 { bits: POINT_ONE_BITS },
                F64 { bits: POINT_NINE_BITS },
            );
        },
        None => {},
    }
    match t.get_table("animation") {
        Some(a) => {
            layout.animation = parse_layout_anim(a);
        },
        None => {},
    }
    match t.get_function("fn") {
        Some(h) => {
            if kind == LayoutType::Custom {
                let at: usize = callbacks.len();
                callbacks.push(h);
                layout.custom_fn = Some(at);
            } else {
                return Err(
                    ConfigError::message("layout `fn` is only allowed with type = \"custom\""),
                );
            }
        },
        None => {},
    }
    Ok(layout)
}

/// The place that a custom layout gave a window: none for nil.
pub open spec fn place_of(v: LuaValue) -> Result<Option<RectF>, Fault> {
    match v.kind {
        LuaKind::Nil => Ok(None),
        LuaKind::Table(t) => match (t.double("x"@), t.double("y"@), t.double("w"@), t.double("h"@)) {
            (Some(x), Some(y), Some(w), Some(h)) => Ok(Some(RectF { x, y, w, h })),
            (None, _, _, _) => Err(Fault::Wrong("x"@)),
            (_, None, _, _) => Err(Fault::Wrong("y"@)),
            (_, _, None, _) => Err(Fault::Wrong("w"@)),
            _ => Err(Fault::Wrong("h"@)),
        },
        _ => Err(Fault::Wrong("item"@)),
    }
}

fn parse_place(v: &LuaValue) -> (r: Result<Option<RectF>, ConfigError>)
    ensures
        gives(r, place_of(*v)),
{
    match &v.kind {
        LuaKind::Nil => Ok(None),
        LuaKind::Table(t) => {
            let x: F64 = match need_double(t, "x") {
                Ok(v) => v,
                Err(e) => {
                    return Err(e);
                },
            };
            let y: F64 = match need_double(t, "y") {
                Ok(v) => v,
                Err(e) => {
                    return Err(e);
                },
            };
            let w: F64 = match need_double(t, "w") {
                Ok(v) => v,
                Err(e) => {
                    return Err(e);
                },
            };
            let h: F64 = match need_double(t, "h") {
                Ok(v) => v,
                Err(e) => {
                    return Err(e);
                },
            };
            Ok(Some(RectF { x, y, w, h }))
        },
        _ => Err(ConfigError::wrong("item")),
    }
}

/// The places that a custom layout gave the windows, in their order. `values`
/// holds what it returned for each.
pub fn parse_layout_result(values: &Vec<LuaValue>) -> (r: Result<Vec<Option<RectF>>, ConfigError>)
    ensures
        lists(r, each(values@, |v: LuaValue| place_of(v), 0)),
{
    let ghost f = |v: LuaValue| place_of(v);
    let mut out: Vec<Option<RectF>> = Vec::new();
    let mut i: usize = 0;
    proof {
        each_starts(values@, f);
    }
    while i < values.len()
        invariant
            i <= values@.len(),
            f == (|v: LuaValue| place_of(v)),
            each(values@, f, 0) == prepend(out@, each(values@, f, i as int)),
        decreases values@.len() - i,
    {
        let place = match parse_place(&values[i]) {
            Ok(p) => p,
            Err(e) => {
                return Err(e);
            },
        };
        proof {
            each_goes_on(values@, f, out@, i as int, place);
        }
        out.push(place);
        i = i + 1;
    }
    assert(out@ + Seq::<Option<RectF>>::empty() =~= out@);
    Ok(out)
}

// ---- shaders ----

/// An element of a uniform array.
pub open spec fn component(v: LuaValue) -> Result<F32, Fault> {
    match (v.kind, v.single) {
        (LuaKind::Integer(_) | LuaKind::Number, Some(f)) => Ok(f),
        _ => Err(Fault::Message("shader uniform arrays must contain numbers"@)),
    }
}

/// The vector of two, three or four numbers.
pub open spec fn vector_of(v: Seq<F32>) -> Result<UniformValue, Fault> {
    if v.len() == 2 {
        Ok(UniformValue::Vec2(v[0], v[1]))
    } else if v.len() == 3 {
        Ok(UniformValue::Vec3(v[0], v[1], v[2]))
    } else if v.len() == 4 {
        Ok(UniformValue::Vec4(v[0], v[1], v[2], v[3]))
    } else {
        Err(Fault::Message("shader uniform arrays must have 2, 3 or 4 elements"@))
    }
}

/// What a value gives a shader: numbers become floats, integers become ints,
/// booleans become 0 or 1, and lists of two, three or four numbers, whole or
/// not, become vectors of floats.
pub open spec fn uniform_of(name: Seq<char>, v: LuaValue) -> Result<UniformValue, Fault> {
    match v.kind {
        LuaKind::Number => match needed(v.single, name) {
            Ok(f) => Ok(UniformValue::Float(f)),
            Err(e) => Err(e),
        },
        LuaKind::Integer(i) => Ok(UniformValue::Int(i as i32)),
        LuaKind::Boolean(b) => Ok(
            UniformValue::Int(
                if b {
                    1
                } else {
                    0
                },
            ),
        ),
        LuaKind::Table(t) => match each(t.items@, |v: LuaValue| component(v), 0) {
            Ok(c) => vector_of(c),
            Err(e) => Err(e),
        },
        _ => Err(Fault::Message("unsupported shader uniform value for `"@ + name + "`"@)),
    }
}

fn parse_components(values: &Vec<LuaValue>) -> (r: Result<Vec<F32>, ConfigError>)
    ensures
        lists(r, each(values@, |v: LuaValue| component(v), 0)),
{
    let ghost f = |v: LuaValue| component(v);
    let mut out: Vec<F32> = Vec::new();
    let mut i: usize = 0;
    proof {
        each_starts(values@, f);
    }
    while i < values.len()
        invariant
            i <= values@.len(),
            f == (|v: LuaValue| component(v)),
            each(values@, f, 0) == prepend(out@, each(values@, f, i as int)),
        decreases values@.len() - i,
    {
        let number: F32 = match (&values[i].kind, values[i].single) {
            (LuaKind::Integer(_) | LuaKind::Number, Some(n)) => n,
            _ => {
                return Err(ConfigError::message("shader uniform arrays must contain numbers"));
            },
        };
        proof {
            each_goes_on(values@, f, out@, i as int, number);
        }
        out.push(number);
        i = i + 1;
    }
    assert(out@ + Seq::<F32>::empty() =~= out@);
    Ok(out)
}

#[verifier::truncate]
fn low_half(i: i64) -> (r: i32)
    ensures
        r == i as i32,
{
    i as i32
}

fn parse_uniform(name: &str, value: &LuaValue) -> (r: Result<UniformValue, ConfigError>)
    ensures
        gives(r, uniform_of(name@, *value)),
{
    match &value.kind {
        LuaKind::Number => match value.single {
            Some(f) => Ok(UniformValue::Float(f)),
            None => Err(ConfigError::wrong(name)),
        },
        LuaKind::Integer(i) => Ok(UniformValue::Int(low_half(*i))),
        LuaKind::Boolean(b) => Ok(
            UniformValue::Int(
                if *b {
                    1
                } else {
                    0
                },
            ),
        ),
        LuaKind::Table(t) => {
            let c = match parse_components(&t.items) {
                Ok(c) => c,
                Err(e) => {
                    return Err(e);
                },
            };
            if c.len() == 2 {
                Ok(UniformValue::Vec2(c[0], c[1]))
            } else if c.len() == 3 {
                Ok(UniformValue::Vec3(c[0], c[1], c[2]))
            } else if c.len() == 4 {
                Ok(UniformValue::Vec4(c[0], c[1], c[2], c[3]))
            } else {
                Err(ConfigError::message("shader uniform arrays must have 2, 3 or 4 elements"))
            }
        },
        _ => {
            let mut text = "unsupported shader uniform value for `".to_owned();
            text.append(name);
            text.append("`");
            Err(ConfigError::Message { text })
        },
    }
}

/// A uniform of a shader.
pub fn parse_shader_uniform_value(name: String, value: &LuaValue) -> (r: Result<
    ShaderUniform,
    ConfigError,
>)
    ensures
        match uniform_of(name@, *value) {
            Ok(v) => r matches Ok(u) && u == (ShaderUniform { name, value: v }),
            Err(f) => r matches Err(e) && e@ == f,
        },
{
    match parse_uniform(&name, value) {
        Ok(v) => Ok(ShaderUniform { name, value: v }),
        Err(e) => Err(e),
    }
}

/// The uniforms of the entries from `from` on.
pub open spec fn uniforms_from(pairs: Seq<LuaPair>, from: int) -> Result<Seq<ShaderUniform>, Fault>
    decreases pairs.len() - from,
{
    if from < 0 || from >= pairs.len() {
        Ok(Seq::empty())
    } else {
        match pairs[from].key {
            None => Err(Fault::Wrong("uniforms"@)),
            Some(name) => match uniform_of(name@, pairs[from].value) {
                Err(e) => Err(e),
                Ok(value) => match uniforms_from(pairs, from + 1) {
                    Err(e) => Err(e),
                    Ok(rest) => Ok(seq![ShaderUniform { name, value }] + rest),
                },
            },
        }
    }
}

pub open spec fn uniforms_of(t: LuaTable) -> Result<Seq<ShaderUniform>, Fault> {
    match t.table("uniforms"@) {
        Some(u) => uniforms_from(u.pairs@, 0),
        None => Ok(Seq::empty()),
    }
}

fn parse_uniforms(t: &LuaTable) -> (r: Result<Vec<ShaderUniform>, ConfigError>)
    ensures
        lists(r, uniforms_of(*t)),
{
    let mut out: Vec<ShaderUniform> = Vec::new();
    let table = match t.get_table("uniforms") {
        Some(u) => u,
        None => {
            assert(out@ =~= Seq::empty());
            return Ok(out);
        },
    };
    let ghost pairs = table.pairs@;
    let mut i: usize = 0;
    proof {
        match uniforms_from(pairs, 0) {
            Ok(s) => {
                assert(out@ + s =~= s);
            },
            Err(e) => {},
        }
    }
    while i < table.pairs.len()
        invariant
            i <= pairs.len(),
            pairs == table.pairs@,
            t.table("uniforms"@) == Some(*table),
            uniforms_from(pairs, 0) == prepend(out@, uniforms_from(pairs, i as int)),
        decreases pairs.len() - i,
    {
        let name = match &table.pairs[i].key {
            Some(n) => n.clone(),
            None => {
                return Err(ConfigError::wrong("uniforms"));
            },
        };
        let u = match parse_shader_uniform_value(name, &table.pairs[i].value) {
            Ok(u) => u,
            Err(e) => {
                return Err(e);
            },
        };
        proof {
            match uniforms_from(pairs, i + 1) {
                Ok(rest) => {
                    assert(out@ + (seq![u] + rest) =~= out@.push(u) + rest);
                },
                Err(e) => {},
            }
        }
        out.push(u);
        i = i + 1;
    }
    assert(out@ + Seq::<ShaderUniform>::empty() =~= out@);
    Ok(out)
}

/// Whether a trimmed fragment reads as a shader and not as the name of a file.
pub open spec fn reads_as_shader(trimmed: Seq<char>) -> bool {
    ||| occurs(trimmed, "void main"@)
    ||| occurs(trimmed, "postprocess"@)
    ||| occurs(trimmed, "precision "@)
    ||| begins_with(trimmed, "#version"@)
    ||| begins_with(trimmed, "#if"@)
    ||| begins_with(trimmed, "uniform "@)
}

/// The file that a fragment names, relative to the configuration directory;
/// none where it is the shader itself.
pub open spec fn fragment_file(fragment: Seq<char>, dir: Seq<u8>) -> Option<Seq<u8>> {
    let trimmed = choose|t: Seq<char>| is_trimmed(fragment, t);
    if reads_as_shader(trimmed) {
        None
    } else {
        Some(joined(dir, encode_utf8(trimmed)))
    }
}

/// Where a fragment comes from: a file under `dir`, or the text itself.
pub fn resolve_fragment_source(fragment: &str, dir: &Vec<u8>) -> (r: Option<Vec<u8>>)
    ensures
        match fragment_file(fragment@, dir@) {
            Some(path) => r matches Some(p) && p@ == path,
            None => r is None,
        },
{
    let trimmed = trim(fragment);
    proof {
        let t = choose|t: Seq<char>| is_trimmed(fragment@, t);
        trimmed_is_unique(fragment@, t, trimmed@);
    }
    if contains(&trimmed, "void main") || contains(&trimmed, "postprocess") || contains(
        &trimmed,
        "precision ",
    ) || starts_with(&trimmed, "#version") || starts_with(&trimmed, "#if") || starts_with(
        &trimmed,
        "uniform ",
    ) {
        None
    } else {
        Some(join_path(dir, &trimmed))
    }
}

/// A shader file that could not be read.
#[derive(Debug, PartialEq, Eq)]
pub struct ReadFailure {
    /// Its path, as messages show it.
    pub path: String,
    pub error: String,
}

pub open spec fn shader_kind_of(t: LuaTable) -> Result<CustomShaderKind, Fault> {
    match t.text("kind"@) {
        None => Ok(CustomShaderKind::PostProcess),
        Some(k) => if k@ == "postprocess"@ {
            Ok(CustomShaderKind::PostProcess)
        } else if k@ == "full"@ {
            Ok(CustomShaderKind::Full)
        } else {
            Err(
                Fault::Message(
                    "Unknown shader kind: "@ + k@ + " (expected \"postprocess\" or \"full\")"@,
                ),
            )
        },
    }
}

fn parse_shader_kind(t: &LuaTable) -> (r: Result<CustomShaderKind, ConfigError>)
    ensures
        gives(r, shader_kind_of(*t)),
{
    match t.get_text("kind") {
        None => Ok(CustomShaderKind::PostProcess),
        Some(k) => {
            if same(&k, "postprocess") {
                Ok(CustomShaderKind::PostProcess)
            } else if same(&k, "full") {
                Ok(CustomShaderKind::Full)
            } else {
                let mut text = "Unknown shader kind: ".to_owned();
                text.append(&k);
                text.append(" (expected \"postprocess\" or \"full\")");
                Err(ConfigError::Message { text })
            }
        },
    }
}

/// The name, kind and fragment that a table says.
pub open spec fn shader_head(t: LuaTable) -> Result<(String, CustomShaderKind, String), Fault> {
    match needed(t.text("name"@), "name"@) {
        Err(e) => Err(e),
        Ok(name) => match shader_kind_of(t) {
            Err(e) => Err(e),
            Ok(kind) => match needed(t.text("fragment"@), "fragment"@) {
                Err(e) => Err(e),
                Ok(fragment) => Ok((name, kind, fragment)),
            },
        },
    }
}

fn parse_shader_head(t: &LuaTable) -> (r: Result<(String, CustomShaderKind, String), ConfigError>)
    ensures
        gives(r, shader_head(*t)),
{
    let name = match need_text(t, "name") {
        Ok(v) => v,
        Err(e) => {
            return Err(e);
        },
    };
    let kind = match parse_shader_kind(t) {
        Ok(v) => v,
        Err(e) => {
            return Err(e);
        },
    };
    match need_text(t, "fragment") {
        Ok(fragment) => Ok((name, kind, fragment)),
        Err(e) => Err(e),
    }
}

/// The file to read before a shader can be taken over.
pub open spec fn file_needed(t: LuaTable, dir: Seq<u8>) -> Option<Seq<u8>> {
    match shader_head(t) {
        Ok((name, kind, fragment)) => fragment_file(fragment@, dir),
        Err(_) => None,
    }
}

/// The file to read before a shader can be taken over, if any.
pub fn shader_file(t: &LuaTable, dir: &Vec<u8>) -> (r: Option<Vec<u8>>)
    ensures
        match file_needed(*t, dir@) {
            Some(path) => r matches Some(p) && p@ == path,
            None => r is None,
        },
{
    match parse_shader_head(t) {
        Ok((_, _, fragment)) => resolve_fragment_source(&fragment, dir),
        Err(_) => None,
    }
}

pub open spec fn read_error(f: ReadFailure) -> Seq<char> {
    "Failed to read shader file "@ + f.path@ + ": "@ + f.error@
}

/// The source of a fragment: what its file holds, or the fragment itself.
pub open spec fn source_of(
    fragment: String,
    dir: Seq<u8>,
    file: Option<Result<String, ReadFailure>>,
) -> Result<String, Fault> {
    match fragment_file(fragment@, dir) {
        None => Ok(fragment),
        Some(_) => match file {
            Some(Ok(text)) => Ok(text),
            Some(Err(f)) => Err(Fault::Message(read_error(f))),
            None => Err(Fault::Wrong("fragment"@)),
        },
    }
}

/// A shader. `file` is what reading the file gave that `shader_file` asks for.
pub fn parse_custom_shader(
    t: &LuaTable,
    dir: &Vec<u8>,
    file: Option<Result<String, ReadFailure>>,
) -> (r: Result<CustomShaderConfig, ConfigError>)
    requires
        file_needed(*t, dir@) is Some ==> file is Some,
    ensures
        match shader_head(*t) {
            Err(f) => r matches Err(e) && e@ == f,
            Ok((name, kind, fragment)) => match source_of(fragment, dir@, file) {
                Err(f) => r matches Err(e) && e@ == f,
                Ok(source) => match uniforms_of(*t) {
                    Err(f) => r matches Err(e) && e@ == f,
                    Ok(uniforms) => {
                        &&& r matches Ok(s)
                        &&& s.name == name
                        &&& s.kind == kind
                        &&& s.fragment == source
                        &&& s.uniforms@ == uniforms
                    },
                },
            },
        },
{
    let (name, kind, fragment) = match parse_shader_head(t) {
        Ok(h) => h,
        Err(e) => {
            return Err(e);
        },
    };
    let source = match resolve_fragment_source(&fragment, dir) {
        None => fragment,
        Some(_) => match file {
            Some(Ok(text)) => text,
            Some(Err(f)) => {
                let mut text = "Failed to read shader file ".to_owned();
                text.append(&f.path);
                text.append(": ");
                text.append(&f.error);
                return Err(ConfigError::Message { text });
            },
            None => {
                return Err(ConfigError::wrong("fragment"));
            },
        },
    };
    match parse_uniforms(t) {
        Ok(uniforms) => Ok(CustomShaderConfig { name, kind, fragment: source, uniforms }),
        Err(e) => Err(e),
    }
}

/// A rule that says nothing of windows changes nothing about them.
pub proof fn silent_table_is_empty(t: LuaTable)
    requires
        t.pairs@.len() == 0,
    ensures
        partial_window_of(t) matches Ok(p) && p.is_empty(),
{
}

/// Whatever the script asks for, the scale of an animation lies between 0 and
/// 1, the share of the master between 0.1 and 0.9, and the gap is not negative.
pub proof fn settings_stay_in_range(t: LuaTable, layout: LayoutType)
    ensures
        !window_anim_of(t).scale.below(F64 { bits: 0 }),
        !(F64 { bits: ONE_BITS }).below(window_anim_of(t).scale),
        !layout_but_function(t, layout).master_ratio.below(F64 { bits: POINT_ONE_BITS }),
        !(F64 { bits: POINT_NINE_BITS }).below(layout_but_function(t, layout).master_ratio),
        !layout_but_function(t, layout).gap.below(F64 { bits: 0 }),
{
}

/// Every animation table without a way to turn it off is on: a spring where it
/// says one, else a curve.
pub proof fn animations_are_on_unless_turned_off(t: LuaTable)
    requires
        !t.present("off"@),
        !t.present("enable"@) || t.flag("enable"@),
    ensures
        anim_of(t) != AnimConfig::Off,
        (anim_of(t) is Spring) == (t.table("spring"@) is Some),
{
}

// ---- laws ----

/// A layout table is of the layout that its type names: each of the six names
/// gives the layout of its own name, a table without a type floats, and any
/// other name is refused with a message that holds it.
pub proof fn layouts_go_by_their_names(t: LuaTable, i: int, name: String)
    requires
        0 <= i < t.pairs@.len(),
        t.pairs@[i].name matches Some(n) && n@ == "type"@,
        forall|j: int|
            0 <= j < i ==> !((#[trigger] t.pairs@[j]).name is Some && t.pairs@[j].name->0@
                == "type"@),
        t.pairs@[i].value.text == Some(name),
    ensures
        name@ == "floating"@ ==> layout_type_of(t) == Ok::<LayoutType, Fault>(LayoutType::Floating),
        name@ == "columns"@ ==> layout_type_of(t) == Ok::<LayoutType, Fault>(LayoutType::Columns),
        name@ == "grid"@ ==> layout_type_of(t) == Ok::<LayoutType, Fault>(LayoutType::Grid),
        name@ == "master-stack"@ ==> layout_type_of(t) == Ok::<LayoutType, Fault>(LayoutType::MasterStack),
        name@ == "maximize"@ ==> layout_type_of(t) == Ok::<LayoutType, Fault>(LayoutType::Maximize),
        name@ == "custom"@ ==> layout_type_of(t) == Ok::<LayoutType, Fault>(LayoutType::Custom),
        name@ != "floating"@ && name@ != "columns"@ && name@ != "grid"@ && name@ != "master-stack"@ && name@ != "maximize"@ && name@ != "custom"@ ==> layout_type_of(t)
            == Err::<LayoutType, Fault>(Fault::Message("Unknown layout type: "@ + name@)),
{
    the_first_pair_of_a_name_counts(t, "type"@, i);
    reveal_strlit("floating");
    reveal_strlit("columns");
    reveal_strlit("grid");
    reveal_strlit("master-stack");
    reveal_strlit("maximize");
    reveal_strlit("custom");
    assert("floating"@.len() == 8);
    assert("columns"@.len() == 7);
    assert("grid"@.len() == 4);
    assert("master-stack"@.len() == 12);
    assert("maximize"@.len() == 8);
    assert("custom"@.len() == 6);
    assert("floating"@[0] != "maximize"@[0]);
}

/// A layout table is of a layout exactly if its type is the name of that
/// layout, or it has no type and the windows float.
pub proof fn layouts_have_their_names(t: LuaTable)
    ensures
        layout_type_of(t) == Ok::<LayoutType, Fault>(LayoutType::Floating) <==> (t.text("type"@) is None
            || t.text("type"@)->0@ == "floating"@),
        layout_type_of(t) == Ok::<LayoutType, Fault>(LayoutType::Columns) <==> (t.text("type"@) is Some
            && t.text("type"@)->0@ == "columns"@),
        layout_type_of(t) == Ok::<LayoutType, Fault>(LayoutType::Grid) <==> (t.text("type"@) is Some
            && t.text("type"@)->0@ == "grid"@),
        layout_type_of(t) == Ok::<LayoutType, Fault>(LayoutType::MasterStack) <==> (t.text("type"@) is Some
            && t.text("type"@)->0@ == "master-stack"@),
        layout_type_of(t) == Ok::<LayoutType, Fault>(LayoutType::Maximize) <==> (t.text("type"@) is Some
            && t.text("type"@)->0@ == "maximize"@),
        layout_type_of(t) == Ok::<LayoutType, Fault>(LayoutType::Custom) <==> (t.text("type"@) is Some
            && t.text("type"@)->0@ == "custom"@),
{
    reveal_strlit("floating");
    reveal_strlit("columns");
    reveal_strlit("grid");
    reveal_strlit("master-stack");
    reveal_strlit("maximize");
    reveal_strlit("custom");
    assert("floating"@.len() == 8);
    assert("columns"@.len() == 7);
    assert("grid"@.len() == 4);
    assert("master-stack"@.len() == 12);
    assert("maximize"@.len() == 8);
    assert("custom"@.len() == 6);
    assert("floating"@[0] != "maximize"@[0]);
}

/// The whole layout is of the layout that its type names, whatever else the
/// table holds: a layout that is not custom takes no function, and a custom one
/// calls the function that was handed over last.
pub proof fn parsed_layouts_have_the_named_layout(t: LuaTable, count: int)
    requires
        0 <= count <= usize::MAX,
    ensures
        (t.text("type"@) is None || t.text("type"@)->0@ == "floating"@) && t.function("fn"@) is None ==> (layout_of(
            t,
            count,
        ) matches Ok(l) && l.layout == LayoutType::Floating && l.custom_fn is None),
        (t.text("type"@) is None || t.text("type"@)->0@ == "floating"@) && t.function("fn"@) is Some ==> layout_of(t, count) is Err,
        t.text("type"@) is Some && t.text("type"@)->0@ == "columns"@ && t.function("fn"@) is None ==> (layout_of(
            t,
            count,
        ) matches Ok(l) && l.layout == LayoutType::Columns && l.custom_fn is None),
        t.text("type"@) is Some && t.text("type"@)->0@ == "columns"@ && t.function("fn"@) is Some ==> layout_of(t, count) is Err,
        t.text("type"@) is Some && t.text("type"@)->0@ == "grid"@ && t.function("fn"@) is None ==> (layout_of(
            t,
            count,
        ) matches Ok(l) && l.layout == LayoutType::Grid && l.custom_fn is None),
        t.text("type"@) is Some && t.text("type"@)->0@ == "grid"@ && t.function("fn"@) is Some ==> layout_of(t, count) is Err,
        t.text("type"@) is Some && t.text("type"@)->0@ == "master-stack"@ && t.function("fn"@) is None ==> (layout_of(
            t,
            count,
        ) matches Ok(l) && l.layout == LayoutType::MasterStack && l.custom_fn is None),
        t.text("type"@) is Some && t.text("type"@)->0@ == "master-stack"@ && t.function("fn"@) is Some ==> layout_of(t, count) is Err,
        t.text("type"@) is Some && t.text("type"@)->0@ == "maximize"@ && t.function("fn"@) is None ==> (layout_of(
            t,
            count,
        ) matches Ok(l) && l.layout == LayoutType::Maximize && l.custom_fn is None),
        t.text("type"@) is Some && t.text("type"@)->0@ == "maximize"@ && t.function("fn"@) is Some ==> layout_of(t, count) is Err,
        t.text("type"@) is Some && t.text("type"@)->0@ == "custom"@ ==> (layout_of(t, count) matches Ok(l) && l.layout == LayoutType::Custom && (
            t.function("fn"@) is None ==> l.custom_fn is None) && (t.function("fn"@) is Some ==> (
            l.custom_fn matches Some(c) && c == count))),
{
    layouts_have_their_names(t);
    reveal_strlit("floating");
    reveal_strlit("columns");
    reveal_strlit("grid");
    reveal_strlit("master-stack");
    reveal_strlit("maximize");
    reveal_strlit("custom");
    assert("floating"@.len() == 8);
    assert("columns"@.len() == 7);
    assert("grid"@.len() == 4);
    assert("master-stack"@.len() == 12);
    assert("maximize"@.len() == 8);
    assert("custom"@.len() == 6);
    assert("floating"@[0] != "maximize"@[0]);
}

/// A curve that is a text is the curve of that name; a name that no curve has is
/// refused, with a message that holds it.
pub proof fn curves_go_by_their_names(t: LuaTable, v: LuaValue, name: String)
    requires
        t.at("curve"@) == Some(v),
        v.kind is Text,
        v.text == Some(name),
    ensures
        name@ == "linear"@ ==> curve_of(t) == Ok::<AnimCurve, Fault>(AnimCurve::Linear),
        name@ == "ease-out-quad"@ ==> curve_of(t) == Ok::<AnimCurve, Fault>(AnimCurve::EaseOutQuad),
        name@ == "ease-out-cubic"@ ==> curve_of(t) == Ok::<AnimCurve, Fault>(AnimCurve::EaseOutCubic),
        name@ == "ease-out-expo"@ ==> curve_of(t) == Ok::<AnimCurve, Fault>(AnimCurve::EaseOutExpo),
        name@ != "linear"@ && name@ != "ease-out-quad"@ && name@ != "ease-out-cubic"@ && name@ != "ease-out-expo"@ ==> curve_of(t) == Err::<AnimCurve, Fault>(
            Fault::Message("Unknown animation curve: "@ + name@),
        ),
{
    reveal_strlit("linear");
    reveal_strlit("ease-out-quad");
    reveal_strlit("ease-out-cubic");
    reveal_strlit("ease-out-expo");
    assert("linear"@.len() == 6);
    assert("ease-out-quad"@.len() == 13);
    assert("ease-out-cubic"@.len() == 14);
    assert("ease-out-expo"@.len() == 13);
    assert("ease-out-quad"@[9] != "ease-out-expo"@[9]);
}

/// A curve that is a list is a Bezier curve, whose four numbers follow its name
/// in their order.
pub proof fn listed_curves_are_in_order(t: LuaTable, v: LuaValue, list: LuaTable)
    requires
        t.at("curve"@) == Some(v),
        v.kind == LuaKind::Table(list),
    ensures
        curve_of(t) matches Ok(c) ==> {
            &&& list.items@.len() >= 5
            &&& list.items@[0].text matches Some(kind) && kind@ == "cubic-bezier"@
            &&& c matches AnimCurve::CubicBezier(x1, y1, x2, y2) && list.items@[1].double == Some(x1)
                && list.items@[2].double == Some(y1) && list.items@[3].double == Some(x2)
                && list.items@[4].double == Some(y2)
        },
        list.items@.len() >= 5 && list.items@[0].text is Some && list.items@[0].text->0@
            == "cubic-bezier"@ && list.items@[1].double is Some && list.items@[2].double is Some
            && list.items@[3].double is Some && list.items@[4].double is Some ==> curve_of(t) is Ok,
{
}

/// A table without a usable curve has none; where a curve may be left out, it is
/// then the cubic one.
pub proof fn curves_are_cubic_unless_told(t: LuaTable)
    ensures
        t.at("curve"@) is None ==> curve_of(t) is Err,
        t.at("curve"@) matches Some(v) ==> (!(v.kind is Text || v.kind is Table) ==> curve_of(
            t,
        ) is Err),
        curve_of(t) is Err ==> curve_or_standard(t) == AnimCurve::EaseOutCubic,
        curve_of(t) matches Ok(c) ==> curve_or_standard(t) == c,
{
}

/// An animation is off if it says so, or says that it is not enabled; else it is
/// a spring if it has one, else a curve, each with what its table says.
pub proof fn animations_are_off_springs_or_curves(t: LuaTable)
    ensures
        t.present("off"@) ==> anim_of(t) is Off,
        t.present("enable"@) && !t.flag("enable"@) ==> anim_of(t) is Off,
        !t.present("off"@) && (t.present("enable"@) ==> t.flag("enable"@)) ==> {
            &&& t.table("spring"@) matches Some(s) ==> (anim_of(t) matches AnimConfig::Spring {
                damping_ratio,
                stiffness,
                epsilon,
            } && (s.double("damping_ratio"@) matches Some(d) ==> damping_ratio == d) && (s.double(
                "damping_ratio"@,
            ) is None ==> damping_ratio.bits == 0x3FE9_9999_9999_999A) && (s.double(
                "stiffness"@,
            ) matches Some(k) ==> stiffness == k) && (s.double("stiffness"@) is None
                ==> stiffness.bits == 0x4072_C000_0000_0000) && (s.double("epsilon"@) matches Some(e)
                ==> epsilon == e) && (s.double("epsilon"@) is None ==> epsilon.bits
                == 0x3F84_7AE1_47AE_147B))
            &&& t.table("spring"@) is None ==> (anim_of(t) matches AnimConfig::Curve {
                duration_ms,
                curve,
            } && (t.word("duration_ms"@) matches Some(d) ==> duration_ms == d) && (t.word(
                "duration_ms"@,
            ) is None ==> duration_ms == 250) && (curve_of(t) matches Ok(c) ==> curve == c) && (
            curve_of(t) is Err ==> curve == AnimCurve::EaseOutCubic))
        },
{
}

/// An animation that is false or the text "off" is off, one that is true keeps
/// the standard, and a table says it all.
pub proof fn animations_may_be_switched_off(t: LuaTable, name: Seq<char>, other: AnimConfig, v: LuaValue)
    requires
        t.at(name) == Some(v),
    ensures
        v.kind == LuaKind::Boolean(false) ==> anim_at(t, name, other) is Off,
        v.kind == LuaKind::Boolean(true) ==> anim_at(t, name, other) == other,
        v.kind is Text && v.text is Some && v.text->0@ == "off"@ ==> anim_at(t, name, other) is Off,
        v.kind is Text && v.text is Some && v.text->0@ != "off"@ ==> anim_at(t, name, other) == other,
        v.kind matches LuaKind::Table(a) ==> anim_at(t, name, other) == anim_of(a),
        v.kind is Nil || v.kind is Integer || v.kind is Number || v.kind is Function
            || v.kind is Other ==> anim_at(t, name, other) == other,
{
}

/// Moving and resizing have the animations of their own names, and the standard
/// ones where the table has none.
pub proof fn layout_animations_have_their_names(t: LuaTable)
    ensures
        t.at("move"@) is None ==> layout_anim_of(t).move_anim == (AnimConfig::Curve {
            duration_ms: 250,
            curve: AnimCurve::EaseOutCubic,
        }),
        t.at("resize"@) is None ==> layout_anim_of(t).resize_anim == (AnimConfig::Curve {
            duration_ms: 200,
            curve: AnimCurve::EaseOutCubic,
        }),
        t.table("move"@) matches Some(a) ==> layout_anim_of(t).move_anim == anim_of(a),
        t.table("resize"@) matches Some(a) ==> layout_anim_of(t).resize_anim == anim_of(a),
{
}

/// The animation of a window is as its table says: enabled only where it says
/// so, the duration, the curve and the scale with their defaults, and the scale
/// between zero and one.
pub proof fn window_animations_are_as_the_table_says(t: LuaTable)
    ensures
        window_anim_of(t).enable <==> t.flag("enable"@),
        t.word("duration_ms"@) matches Some(d) ==> window_anim_of(t).duration_ms == d,
        t.word("duration_ms"@) is None ==> window_anim_of(t).duration_ms == 150,
        curve_of(t) matches Ok(c) ==> window_anim_of(t).curve == c,
        curve_of(t) is Err ==> window_anim_of(t).curve == AnimCurve::EaseOutCubic,
        t.double("scale"@) is None ==> window_anim_of(t).scale.bits == 0x3FE9_9999_9999_999A,
        t.double("scale"@) matches Some(s) ==> window_anim_of(t).scale == s.clamped(
            F64 { bits: 0 },
            F64 { bits: 0x3FF0_0000_0000_0000 },
        ),
{
}

/// Margins, gap and master ratio are those of the table; a gap is not negative,
/// and the ratio leaves at least a tenth to either side.
pub proof fn layout_measures_are_as_the_table_says(t: LuaTable, count: int)
    requires
        layout_of(t, count) is Ok,
    ensures
        t.double("gap"@) is None ==> layout_of(t, count)->Ok_0.gap.bits == 0x4020_0000_0000_0000,
        t.double("gap"@) matches Some(g) ==> layout_of(t, count)->Ok_0.gap == g.raised(
            F64 { bits: 0 },
        ),
        t.double("master_ratio"@) is None ==> layout_of(t, count)->Ok_0.master_ratio.bits
            == 0x3FE0_0000_0000_0000,
        t.double("master_ratio"@) matches Some(r) ==> layout_of(t, count)->Ok_0.master_ratio
            == r.clamped(F64 { bits: 0x3FB9_9999_9999_999A }, F64 { bits: 0x3FEC_CCCC_CCCC_CCCD }),
        t.table("margins"@) is None ==> layout_of(t, count)->Ok_0.margins.top.bits == 0 && layout_of(
            t,
            count,
        )->Ok_0.margins.bottom.bits == 0 && layout_of(t, count)->Ok_0.margins.left.bits == 0
            && layout_of(t, count)->Ok_0.margins.right.bits == 0,
        t.table("margins"@) matches Some(m) ==> {
            let margins = layout_of(t, count)->Ok_0.margins;
            &&& m.double("top"@) matches Some(v) ==> margins.top == v
            &&& m.double("bottom"@) matches Some(v) ==> margins.bottom == v
            &&& m.double("left"@) matches Some(v) ==> margins.left == v
            &&& m.double("right"@) matches Some(v) ==> margins.right == v
            &&& m.double("top"@) is None ==> margins.top.bits == 0
            &&& m.double("bottom"@) is None ==> margins.bottom.bits == 0
            &&& m.double("left"@) is None ==> margins.left.bits == 0
            &&& m.double("right"@) is None ==> margins.right.bits == 0
        },
        t.table("animation"@) matches Some(a) ==> layout_of(t, count)->Ok_0.animation
            == layout_anim_of(a),
{
}

/// A colour has the red, green and blue of its table, all three needed, and its
/// opacity where it has one.
pub proof fn colours_are_as_the_table_says(c: LuaTable, opacity: u32)
    ensures
        color_in(c, opacity) is Ok <==> c.single("r"@) is Some && c.single("g"@) is Some && c.single(
            "b"@,
        ) is Some,
        color_in(c, opacity) matches Ok(k) ==> c.single("r"@) == Some(k.r) && c.single("g"@)
            == Some(k.g) && c.single("b"@) == Some(k.b) && (c.single("a"@) matches Some(a) ==> k.a
            == a) && (c.single("a"@) is None ==> k.a.bits == opacity),
{
}

/// A border has the width of its table and, for windows with and without the
/// focus, the colour of its own name; without them it has no width and is opaque
/// black with the focus and opaque grey without.
pub proof fn borders_are_as_the_table_says(t: LuaTable)
    ensures
        border_of(t) matches Ok(b) ==> {
            &&& t.double("width"@) matches Some(w) ==> b.width == w
            &&& t.double("width"@) is None ==> b.width.bits == 0
            &&& t.table("color"@) matches Some(c) ==> color_in(c, 0x3F80_0000) == Ok::<Color, Fault>(
                b.color,
            )
            &&& t.table("color"@) is None ==> b.color.r.bits == 0 && b.color.g.bits == 0
                && b.color.b.bits == 0 && b.color.a.bits == 0x3F80_0000
            &&& t.table("inactive_color"@) matches Some(c) ==> color_in(c, 0x3F80_0000) == Ok::<
                Color,
                Fault,
            >(b.inactive_color)
            &&& t.table("inactive_color"@) is None ==> b.inactive_color.r.bits == 0x3E99_999A
                && b.inactive_color.g.bits == 0x3E99_999A && b.inactive_color.b.bits == 0x3E99_999A
                && b.inactive_color.a.bits == 0x3F80_0000
        },
        t.table("color"@) is None && t.table("inactive_color"@) is None ==> border_of(t) is Ok,
{
}

/// A shadow is shown only where its table says so, with the measures of their
/// own names and the colour of the table.
pub proof fn shadows_are_as_the_table_says(t: LuaTable)
    ensures
        shadow_of(t) matches Ok(s) ==> {
            &&& s.enable <==> t.flag("enable"@)
            &&& t.double("offset_x"@) matches Some(v) ==> s.offset_x == v
            &&& t.double("offset_y"@) matches Some(v) ==> s.offset_y == v
            &&& t.double("softness"@) matches Some(v) ==> s.softness == v
            &&& t.double("spread"@) matches Some(v) ==> s.spread == v
            &&& t.double("offset_x"@) is None ==> s.offset_x.bits == 0
            &&& t.double("offset_y"@) is None ==> s.offset_y.bits == 0x4014_0000_0000_0000
            &&& t.double("softness"@) is None ==> s.softness.bits == 0x403E_0000_0000_0000
            &&& t.double("spread"@) is None ==> s.spread.bits == 0x4014_0000_0000_0000
            &&& t.table("color"@) matches Some(c) ==> color_in(c, 0x3EF0_A3D7) == Ok::<Color, Fault>(
                s.color,
            )
            &&& t.table("color"@) is None ==> s.color.r.bits == 0 && s.color.g.bits == 0
                && s.color.b.bits == 0 && s.color.a.bits == 0x3EF0_A3D7
        },
        t.table("color"@) is None ==> shadow_of(t) is Ok,
{
}

/// Corners are rounded one by one where the table has a table of them, each by
/// its own name, or all alike where it has a number.
pub proof fn corners_are_as_the_table_says(t: LuaTable)
    ensures
        corners_of(t) is Some <==> t.table("corner_radius"@) is Some || t.single(
            "corner_radius"@,
        ) is Some,
        t.table("corner_radius"@) matches Some(c) ==> {
            let r = corners_of(t)->0;
            &&& c.single("top_left"@) matches Some(v) ==> r.top_left == v
            &&& c.single("top_right"@) matches Some(v) ==> r.top_right == v
            &&& c.single("bottom_right"@) matches Some(v) ==> r.bottom_right == v
            &&& c.single("bottom_left"@) matches Some(v) ==> r.bottom_left == v
            &&& c.single("top_left"@) is None ==> r.top_left.bits == 0
            &&& c.single("top_right"@) is None ==> r.top_right.bits == 0
            &&& c.single("bottom_right"@) is None ==> r.bottom_right.bits == 0
            &&& c.single("bottom_left"@) is None ==> r.bottom_left.bits == 0
        },
        t.table("corner_radius"@) is None && t.single("corner_radius"@) is Some ==> {
            let r = corners_of(t)->0;
            let all = t.single("corner_radius"@)->0;
            r.top_left == all && r.top_right == all && r.bottom_right == all && r.bottom_left == all
        },
{
}

/// A rule changes exactly the settings that its table has, each by its own name.
pub proof fn rules_change_what_they_name(t: LuaTable)
    ensures
        partial_window_of(t) matches Ok(p) ==> {
            &&& p.prefer_no_csd is Some <==> t.present("prefer_no_csd"@)
            &&& p.prefer_no_csd matches Some(b) ==> b == t.flag("prefer_no_csd"@)
            &&& p.floating is Some <==> t.present("floating"@)
            &&& p.floating matches Some(b) ==> b == t.flag("floating"@)
            &&& p.resize_modifier == t.text("resize_modifier"@)
            &&& p.shader == t.text("shader"@)
            &&& p.corner_radius == corners_of(t)
            &&& p.border is Some <==> t.table("border"@) is Some
            &&& p.border matches Some(b) ==> border_of(t.table("border"@)->0) == Ok::<
                BorderConfig,
                Fault,
            >(b)
            &&& p.shadow is Some <==> t.table("shadow"@) is Some
            &&& p.shadow matches Some(s) ==> shadow_of(t.table("shadow"@)->0) == Ok::<
                ShadowConfig,
                Fault,
            >(s)
        },
        t.table("border"@) is None && t.table("shadow"@) is None ==> partial_window_of(t) is Ok,
{
}

/// The settings of windows are as the table says, each by its own name, with the
/// standard ones where it says nothing.
pub proof fn windows_are_as_the_table_says(t: LuaTable, w: WindowConfig)
    requires
        window_says(t, w),
    ensures
        w.prefer_no_csd <==> t.flag("prefer_no_csd"@),
        w.floating <==> t.flag("floating"@),
        w.shader == t.text("shader"@),
        t.text("resize_modifier"@) matches Some(m) ==> w.resize_modifier == m,
        t.text("resize_modifier"@) is None ==> w.resize_modifier@ == "Ctrl"@,
        t.table("border"@) matches Some(b) ==> border_of(b) == Ok::<BorderConfig, Fault>(w.border),
        t.table("border"@) is None ==> w.border.width.bits == 0,
        t.table("shadow"@) matches Some(s) ==> shadow_of(s) == Ok::<ShadowConfig, Fault>(w.shadow),
        t.table("shadow"@) is None ==> !w.shadow.enable,
        corners_of(t) matches Some(c) ==> w.corner_radius == c,
        corners_of(t) is None ==> w.corner_radius.top_left.bits == 0
            && w.corner_radius.top_right.bits == 0 && w.corner_radius.bottom_right.bits == 0
            && w.corner_radius.bottom_left.bits == 0,
{
}

/// A rule for windows and one for layers hold for what their tables name, and
/// change the blur as the table of the blur says.
pub proof fn rules_are_as_the_table_says(t: LuaTable)
    ensures
        window_rule_of(t) matches Ok(r) ==> {
            &&& r.app_id == t.text("app_id"@)
            &&& r.title == t.text("title"@)
            &&& r.window is Some <==> t.table("window"@) is Some
            &&& r.window matches Some(w) ==> partial_window_of(t.table("window"@)->0) == Ok::<
                PartialWindowConfig,
                Fault,
            >(w)
            &&& r.blur is Some <==> t.table("blur"@) is Some
            &&& r.blur == layer_rule_of(t).blur
        },
        t.table("window"@) is None ==> window_rule_of(t) is Ok,
        layer_rule_of(t).namespace == t.text("namespace"@),
        layer_rule_of(t).blur is Some <==> t.table("blur"@) is Some,
        layer_rule_of(t).blur matches Some(b) ==> {
            let blur = t.table("blur"@)->0;
            &&& b.enable <==> blur.flag("enable"@)
            &&& b.passes == blur.byte("passes"@)
            &&& b.offset == blur.double("offset"@)
            &&& b.xray matches Some(x) && x == blur.flag("xray"@)
        },
{
}

/// The place that a layout function returns for a window has the measures of
/// their own names, all four needed; nil leaves the window where it is.
pub proof fn places_are_as_the_table_says(v: LuaValue)
    ensures
        v.kind is Nil <==> place_of(v) == Ok::<Option<RectF>, Fault>(None),
        place_of(v) matches Ok(Some(r)) ==> (v.kind matches LuaKind::Table(t) && t.double("x"@)
            == Some(r.x) && t.double("y"@) == Some(r.y) && t.double("w"@) == Some(r.w) && t.double(
            "h"@,
        ) == Some(r.h)),
        v.kind matches LuaKind::Table(t) ==> (place_of(v) is Ok <==> t.double("x"@) is Some
            && t.double("y"@) is Some && t.double("w"@) is Some && t.double("h"@) is Some),
        !(v.kind is Nil || v.kind is Table) ==> place_of(v) is Err,
{
}

/// The kind of a shader is the one of its name, and without a name it works on
/// the picture.
pub proof fn shader_kinds_go_by_their_names(t: LuaTable)
    ensures
        t.text("kind"@) is None ==> shader_kind_of(t) == Ok::<CustomShaderKind, Fault>(
            CustomShaderKind::PostProcess,
        ),
        t.text("kind"@) matches Some(k) ==> {
            &&& k@ == "postprocess"@ ==> shader_kind_of(t) == Ok::<CustomShaderKind, Fault>(
                CustomShaderKind::PostProcess,
            )
            &&& k@ == "full"@ ==> shader_kind_of(t) == Ok::<CustomShaderKind, Fault>(
                CustomShaderKind::Full,
            )
            &&& k@ != "postprocess"@ && k@ != "full"@ ==> shader_kind_of(t) is Err
        },
        shader_head(t) matches Ok((name, kind, fragment)) ==> t.text("name"@) == Some(name)
            && t.text("fragment"@) == Some(fragment) && shader_kind_of(t) == Ok::<
            CustomShaderKind,
            Fault,
        >(kind),
{
    reveal_strlit("postprocess");
    reveal_strlit("full");
    assert("postprocess"@.len() == 11);
    assert("full"@.len() == 4);
}

/// What a shader is handed is a number or two to four of them in their order;
/// whether something holds is one or zero, and an integer stays an integer.
pub proof fn uniforms_keep_their_numbers(name: Seq<char>, v: LuaValue)
    ensures
        v.kind is Number && v.single is Some ==> uniform_of(name, v) == Ok::<UniformValue, Fault>(
            UniformValue::Float(v.single->0),
        ),
        v.kind matches LuaKind::Integer(i) ==> (i32::MIN <= i <= i32::MAX ==> (uniform_of(
            name,
            v,
        ) matches Ok(UniformValue::Int(n)) && n == i)),
        v.kind == LuaKind::Boolean(true) ==> uniform_of(name, v) == Ok::<UniformValue, Fault>(
            UniformValue::Int(1),
        ),
        v.kind == LuaKind::Boolean(false) ==> uniform_of(name, v) == Ok::<UniformValue, Fault>(
            UniformValue::Int(0),
        ),
        v.kind is Nil || v.kind is Text || v.kind is Function || v.kind is Other ==> uniform_of(
            name,
            v,
        ) is Err,
        v.kind matches LuaKind::Table(t) ==> (uniform_of(name, v) matches Ok(u) ==> 2
            <= t.items@.len() <= 4 && match u {
            UniformValue::Vec2(a, b) => t.items@.len() == 2 && t.items@[0].single == Some(a)
                && t.items@[1].single == Some(b),
            UniformValue::Vec3(a, b, c) => t.items@.len() == 3 && t.items@[0].single == Some(a)
                && t.items@[1].single == Some(b) && t.items@[2].single == Some(c),
            UniformValue::Vec4(a, b, c, d) => t.items@.len() == 4 && t.items@[0].single == Some(a)
                && t.items@[1].single == Some(b) && t.items@[2].single == Some(c)
                && t.items@[3].single == Some(d),
            _ => false,
        }),
{
    if let LuaKind::Table(t) = v.kind {
        let f = |v: LuaValue| component(v);
        lists_are_read_item_by_item(t.items@, f, 0);
        if let Ok(all) = each(t.items@, f, 0) {
            assert forall|i: int| 0 <= i < all.len() implies t.items@[i].single == Some(
                #[trigger] all[i],
            ) by {
                assert(f(t.items@[0 + i]) == Ok::<F32, Fault>(all[i]));
            }
        }
    }
}

/// A shader is handed one value for each pair, in their order and under the
/// pair's name.
pub proof fn uniforms_have_their_names(pairs: Seq<LuaPair>, from: int)
    requires
        0 <= from <= pairs.len(),
    ensures
        uniforms_from(pairs, from) matches Ok(all) ==> all.len() == pairs.len() - from
            && forall|i: int|
            0 <= i < all.len() ==> pairs[from + i].key == Some((#[trigger] all[i]).name)
                && uniform_of(all[i].name@, pairs[from + i].value) == Ok::<UniformValue, Fault>(
                all[i].value,
            ),
    decreases pairs.len() - from,
{
    if from < pairs.len() {
        uniforms_have_their_names(pairs, from + 1);
        if let Ok(all) = uniforms_from(pairs, from) {
            let rest = uniforms_from(pairs, from + 1)->Ok_0;
            assert forall|i: int| 0 <= i < all.len() implies pairs[from + i].key == Some(
                (#[trigger] all[i]).name,
            ) && uniform_of(all[i].name@, pairs[from + i].value) == Ok::<UniformValue, Fault>(
                all[i].value,
            ) by {
                if i > 0 {
                    assert(all[i] == rest[i - 1]);
                }
            }
        }
    }
}

/// Where the fragment names a file, the shader is what the file holds, and a file
/// that could not be read is a fault; else the fragment is the shader itself.
pub proof fn shaders_come_from_where_they_are(
    fragment: String,
    dir: Seq<u8>,
    text: String,
    failure: ReadFailure,
)
    ensures
        fragment_file(fragment@, dir) is None ==> forall|file: Option<Result<String, ReadFailure>>|
            source_of(fragment, dir, file) == Ok::<String, Fault>(fragment),
        fragment_file(fragment@, dir) is Some ==> source_of(fragment, dir, Some(Ok(text))) == Ok::<
            String,
            Fault,
        >(text),
        fragment_file(fragment@, dir) is Some ==> source_of(fragment, dir, Some(Err(failure)))
            == Err::<String, Fault>(
            Fault::Message("Failed to read shader file "@ + failure.path@ + ": "@ + failure.error@),
        ),
{
}

/// A text is a shader itself if it has the marks of one; a text without any of
/// them names a file.
pub proof fn shaders_are_known_by_their_marks(text: Seq<char>, a: Seq<char>, b: Seq<char>)
    ensures
        text == a + "void main"@ + b ==> reads_as_shader(text),
        text == a + "postprocess"@ + b ==> reads_as_shader(text),
        text == a + "precision "@ + b ==> reads_as_shader(text),
        text == "#version"@ + b ==> reads_as_shader(text),
        text == "#if"@ + b ==> reads_as_shader(text),
        text == "uniform "@ + b ==> reads_as_shader(text),
        text.len() == 0 ==> !reads_as_shader(text),
{
    reveal_strlit("void main");
    reveal_strlit("postprocess");
    reveal_strlit("precision ");
    reveal_strlit("#version");
    reveal_strlit("#if");
    reveal_strlit("uniform ");
    if text == a + "void main"@ + b {
        assert(text.subrange(a.len() as int, (a.len() + "void main"@.len()) as int) =~= "void main"@);
        assert(occurs_at(text, "void main"@, a.len() as int));
    }
    if text == a + "postprocess"@ + b {
        assert(text.subrange(a.len() as int, (a.len() + "postprocess"@.len()) as int) =~= "postprocess"@);
        assert(occurs_at(text, "postprocess"@, a.len() as int));
    }
    if text == a + "precision "@ + b {
        assert(text.subrange(a.len() as int, (a.len() + "precision "@.len()) as int) =~= "precision "@);
        assert(occurs_at(text, "precision "@, a.len() as int));
    }
    if text == "#version"@ + b {
        assert(text.take("#version"@.len() as int) =~= "#version"@);
    }
    if text == "#if"@ + b {
        assert(text.take("#if"@.len() as int) =~= "#if"@);
    }
    if text == "uniform "@ + b {
        assert(text.take("uniform "@.len() as int) =~= "uniform "@);
    }
}

} // verus!
