//! What is drawn on an output, and in what order.
//!
//! Elements are listed from the top down: what comes later is drawn first.
use vstd::prelude::*;
use crate::animation::Animation;
use crate::config::{chars, matches_pattern, pattern_matches, BlurConfig, BlurOverride, Config, LayerRule, WindowRule};
use crate::float::F64;
use crate::geometry::{Point, Rect, Size};

verus! {

/// A config with an override applied.
pub open spec fn overridden(base: BlurConfig, over: BlurOverride) -> BlurConfig {
    BlurConfig {
        enable: over.enable,
        passes: match over.passes {
            Some(passes) => passes,
            None => base.passes,
        },
        offset: match over.offset {
            Some(offset) => offset,
            None => base.offset,
        },
        xray: match over.xray {
            Some(xray) => xray,
            None => base.xray,
        },
    }
}

fn apply_override(base: &BlurConfig, over: &BlurOverride) -> (r: BlurConfig)
    ensures
        r == overridden(*base, *over),
{
    BlurConfig {
        enable: over.enable,
        passes: match over.passes {
            Some(passes) => passes,
            None => base.passes,
        },
        offset: match over.offset {
            Some(offset) => offset,
            None => base.offset,
        },
        xray: match over.xray {
            Some(xray) => xray,
            None => base.xray,
        },
    }
}

/// The effective blur of a window.
#[derive(Clone, Copy, Debug, PartialEq, Eq, Structural)]
pub struct ResolvedWindowBlur {
    pub blur: BlurConfig,
    /// Whether a rule forces blur on the window, though it did not ask for it.
    pub rule_forces_blur: bool,
}

/// The blur of a window by the rules from `from` on: the first that is about
/// the window and speaks of blur decides; the global config where none does.
pub open spec fn window_blur(
    rules: Seq<WindowRule>,
    base: BlurConfig,
    app_id: Option<Seq<char>>,
    title: Option<Seq<char>>,
    from: int,
) -> ResolvedWindowBlur
    decreases rules.len() - from,
{
    if from < 0 || from >= rules.len() {
        ResolvedWindowBlur { blur: base, rule_forces_blur: false }
    } else if rules[from].applies(app_id, title) && rules[from].blur is Some {
        ResolvedWindowBlur {
            blur: overridden(base, rules[from].blur->0),
            rule_forces_blur: rules[from].blur->0.enable,
        }
    } else {
        window_blur(rules, base, app_id, title, from + 1)
    }
}

/// The effective blur of a window.
pub fn resolve_window_blur(config: &Config, app_id: Option<&str>, title: Option<&str>) -> (r:
    ResolvedWindowBlur)
    ensures
        r == window_blur(config.window_rules@, config.blur, chars(app_id), chars(title), 0),
{
    let mut i: usize = 0;
    while i < config.window_rules.len()
        invariant
            i <= config.window_rules@.len(),
            window_blur(config.window_rules@, config.blur, chars(app_id), chars(title), 0)
                == window_blur(
                config.window_rules@,
                config.blur,
                chars(app_id),
                chars(title),
                i as int,
            ),
        decreases config.window_rules@.len() - i,
    {
        let rule = &config.window_rules[i];
        if rule.matches(app_id, title) {
            match &rule.blur {
                Some(over) => {
                    return ResolvedWindowBlur {
                        blur: apply_override(&config.blur, over),
                        rule_forces_blur: over.enable,
                    };
                },
                None => {},
            }
        }
        i = i + 1;
    }
    ResolvedWindowBlur { blur: config.blur, rule_forces_blur: false }
}

/// The blur of a layer surface by the rules from `from` on.
pub open spec fn layer_blur(
    rules: Seq<LayerRule>,
    base: BlurConfig,
    namespace: Seq<char>,
    from: int,
) -> BlurConfig
    decreases rules.len() - from,
{
    if from < 0 || from >= rules.len() {
        base
    } else if pattern_matches(rules[from].namespace, Some(namespace)) && rules[from].blur is Some {
        overridden(base, rules[from].blur->0)
    } else {
        layer_blur(rules, base, namespace, from + 1)
    }
}

/// The effective blur of a layer surface.
pub fn resolve_layer_blur(config: &Config, namespace: &str) -> (r: BlurConfig)
    ensures
        r == layer_blur(config.layer_rules@, config.blur, namespace@, 0),
{
    let mut i: usize = 0;
    while i < config.layer_rules.len()
        invariant
            i <= config.layer_rules@.len(),
            layer_blur(config.layer_rules@, config.blur, namespace@, 0) == layer_blur(
                config.layer_rules@,
                config.blur,
                namespace@,
                i as int,
            ),
        decreases config.layer_rules@.len() - i,
    {
        let rule = &config.layer_rules[i];
        if matches_pattern(&rule.namespace, Some(namespace)) {
            match &rule.blur {
                Some(over) => {
                    return apply_override(&config.blur, over);
                },
                None => {},
            }
        }
        i = i + 1;
    }
    config.blur
}

/// Rules that do not speak of blur change no blur.
pub proof fn silent_rules_keep_blur(
    rules: Seq<WindowRule>,
    base: BlurConfig,
    app_id: Option<Seq<char>>,
    title: Option<Seq<char>>,
    from: int,
)
    requires
        0 <= from <= rules.len(),
        forall|i: int| 0 <= i < rules.len() ==> (#[trigger] rules[i]).blur is None,
    ensures
        window_blur(rules, base, app_id, title, from) == (ResolvedWindowBlur {
            blur: base,
            rule_forces_blur: false,
        }),
    decreases rules.len() - from,
{
    if from < rules.len() {
        silent_rules_keep_blur(rules, base, app_id, title, from + 1);
    }
}

/// A layer of the desktop.
#[derive(Clone, Copy, Debug, PartialEq, Eq, Structural)]
pub enum Layer {
    Background,
    Bottom,
    Top,
    Overlay,
}

/// How strongly something is blurred.
#[derive(Clone, Copy, Debug, PartialEq, Eq, Structural)]
pub struct BlurOptions {
    pub passes: u8,
    pub offset: F64,
}

/// What an element of an output shows.
#[derive(Clone, Copy, Debug, PartialEq, Eq, Structural)]
pub enum PlanItem {
    /// An element of the caller's, such as the pointer.
    Custom { index: usize },
    /// The fullscreen window.
    Fullscreen,
    /// The small pictures of all windows.
    Previews,
    /// A layer surface.
    Surface { layer: Layer, index: usize },
    /// The blur behind a layer surface.
    SurfaceBlur { layer: Layer, index: usize, options: BlurOptions },
    /// A window, scaled while it opens.
    Window { index: usize, opening: bool },
    /// The blur behind a window.
    WindowBlur { index: usize, options: BlurOptions },
    /// A window that is closing.
    Closing { index: usize },
}

/// What shows where no element is.
#[derive(Clone, Copy, Debug, PartialEq, Eq, Structural)]
pub enum ClearColor {
    Desktop,
    Fullscreen,
}

/// What is known of a layer surface.
#[derive(Debug, PartialEq, Eq)]
pub struct LayerFacts {
    pub namespace: String,
    /// Whether it has a place on the output.
    pub placed: bool,
}

/// What is known of a window on the output.
#[derive(Debug, PartialEq, Eq)]
pub struct WindowFacts {
    pub app_id: Option<String>,
    pub title: Option<String>,
    /// The window still waits to be centered.
    pub needs_center: bool,
    /// The window is on another workspace.
    pub hidden: bool,
    /// Whether a workspace switch is fading.
    pub fading: bool,
    /// Whether it has a place on the output.
    pub placed: bool,
    /// Whether it has a surface.
    pub has_surface: bool,
    /// Whether its client asked for blur.
    pub has_blur_region: bool,
    pub open_animation: Option<Animation>,
}

/// What there is to show on an output.
#[derive(Debug, PartialEq, Eq)]
pub struct OutputFacts {
    /// Whether a window is fullscreen.
    pub fullscreen: bool,
    /// How many elements the caller has.
    pub customs: usize,
    pub show_window_preview: bool,
    /// Whether the output is mapped.
    pub mapped: bool,
    pub overlay: Vec<LayerFacts>,
    pub top: Vec<LayerFacts>,
    pub bottom: Vec<LayerFacts>,
    pub background: Vec<LayerFacts>,
    /// The windows of the output, from the bottom up.
    pub windows: Vec<WindowFacts>,
    /// How many windows are closing.
    pub closing: usize,
}

pub open spec fn custom_items(count: int) -> Seq<PlanItem> {
    Seq::new(count as nat, |i: int| PlanItem::Custom { index: i as usize })
}

pub open spec fn closing_items(count: int) -> Seq<PlanItem> {
    Seq::new(count as nat, |i: int| PlanItem::Closing { index: i as usize })
}

/// The elements of one layer surface: itself, and below it its blur.
pub open spec fn surface_items(config: Config, layer: Layer, facts: LayerFacts, at: int) -> Seq<PlanItem> {
    let blur = layer_blur(config.layer_rules@, config.blur, facts.namespace@, 0);
    if !facts.placed {
        Seq::empty()
    } else if blur.enable {
        seq![
            PlanItem::Surface { layer, index: at as usize },
            PlanItem::SurfaceBlur {
                layer,
                index: at as usize,
                options: BlurOptions { passes: blur.passes, offset: blur.offset },
            },
        ]
    } else {
        seq![PlanItem::Surface { layer, index: at as usize }]
    }
}

/// The elements of the first `upto` surfaces of a layer.
pub open spec fn layer_items(config: Config, layer: Layer, facts: Seq<LayerFacts>, upto: int) -> Seq<
    PlanItem,
>
    decreases upto,
{
    if upto <= 0 {
        Seq::empty()
    } else {
        layer_items(config, layer, facts, upto - 1) + surface_items(
            config,
            layer,
            facts[upto - 1],
            upto - 1,
        )
    }
}

/// Whether a window is drawn: it has its place, and is on the active workspace
/// or fading out of it.
pub open spec fn is_shown(w: WindowFacts) -> bool {
    !w.needs_center && (!w.hidden || w.fading) && w.placed
}

pub open spec fn text_chars(text: Option<String>) -> Option<Seq<char>> {
    match text {
        Some(t) => Some(t@),
        None => None,
    }
}

pub open spec fn blur_of(config: Config, w: WindowFacts) -> ResolvedWindowBlur {
    window_blur(config.window_rules@, config.blur, text_chars(w.app_id), text_chars(w.title), 0)
}

/// Whether a window is blurred behind: its client asked for it or a rule forces
/// it, and blur is on for the window.
pub open spec fn is_blurred(config: Config, w: WindowFacts) -> bool {
    w.has_surface && (w.has_blur_region || blur_of(config, w).rule_forces_blur) && blur_of(
        config,
        w,
    ).blur.enable
}

pub open spec fn is_opening(w: WindowFacts, now: u128) -> bool {
    w.open_animation matches Some(anim) && !anim.done_at(now)
}

pub open spec fn blur_item(config: Config, w: WindowFacts, at: int) -> PlanItem {
    PlanItem::WindowBlur {
        index: at as usize,
        options: BlurOptions {
            passes: blur_of(config, w).blur.passes,
            offset: blur_of(config, w).blur.offset,
        },
    }
}

/// The elements of one window: itself, and below it its blur, unless that looks
/// through all windows.
pub open spec fn window_items(config: Config, w: WindowFacts, at: int, now: u128) -> Seq<PlanItem> {
    let item = PlanItem::Window { index: at as usize, opening: is_opening(w, now) };
    if !is_shown(w) {
        Seq::empty()
    } else if is_blurred(config, w) && !blur_of(config, w).blur.xray {
        seq![item, blur_item(config, w, at)]
    } else {
        seq![item]
    }
}

/// The blur of one window that looks through all windows.
pub open spec fn xray_items(config: Config, w: WindowFacts, at: int) -> Seq<PlanItem> {
    if is_shown(w) && is_blurred(config, w) && blur_of(config, w).blur.xray {
        seq![blur_item(config, w, at)]
    } else {
        Seq::empty()
    }
}

/// The elements of the first `upto` windows, the topmost first.
pub open spec fn all_window_items(config: Config, w: Seq<WindowFacts>, now: u128, upto: int) -> Seq<
    PlanItem,
>
    decreases upto,
{
    if upto <= 0 {
        Seq::empty()
    } else {
        window_items(config, w[upto - 1], upto - 1, now) + all_window_items(config, w, now, upto - 1)
    }
}

/// The blurs that look through all windows, of the first `upto` windows.
pub open spec fn all_xray_items(config: Config, w: Seq<WindowFacts>, upto: int) -> Seq<PlanItem>
    decreases upto,
{
    if upto <= 0 {
        Seq::empty()
    } else {
        xray_items(config, w[upto - 1], upto - 1) + all_xray_items(config, w, upto - 1)
    }
}

/// The windows of an output and what belongs to them: their elements, then the
/// blurs that look through them, then the windows that are closing.
pub open spec fn middle_items(config: Config, facts: OutputFacts, now: u128) -> Seq<PlanItem> {
    let n = facts.windows@.len() as int;
    if facts.mapped {
        all_window_items(config, facts.windows@, now, n) + all_xray_items(config, facts.windows@, n)
            + closing_items(facts.closing as int)
    } else {
        Seq::empty()
    }
}

pub open spec fn preview_items(facts: OutputFacts) -> Seq<PlanItem> {
    if facts.show_window_preview && facts.windows@.len() > 0 {
        seq![PlanItem::Previews]
    } else {
        Seq::empty()
    }
}

/// The elements of an output, from the top down.
pub open spec fn plan_items(config: Config, facts: OutputFacts, now: u128) -> Seq<PlanItem> {
    if facts.fullscreen {
        custom_items(facts.customs as int).push(PlanItem::Fullscreen)
    } else {
        custom_items(facts.customs as int) + preview_items(facts) + layer_items(
            config,
            Layer::Overlay,
            facts.overlay@,
            facts.overlay@.len() as int,
        ) + layer_items(config, Layer::Top, facts.top@, facts.top@.len() as int) + middle_items(
            config,
            facts,
            now,
        ) + layer_items(config, Layer::Bottom, facts.bottom@, facts.bottom@.len() as int)
            + layer_items(
            config,
            Layer::Background,
            facts.background@,
            facts.background@.len() as int,
        )
    }
}

fn push_layer(items: &mut Vec<PlanItem>, config: &Config, layer: Layer, facts: &Vec<LayerFacts>)
    ensures
        final(items)@ == old(items)@ + layer_items(*config, layer, facts@, facts@.len() as int),
{
    let ghost before = items@;
    let mut i: usize = 0;
    assert(before + Seq::<PlanItem>::empty() == before);
    while i < facts.len()
        invariant
            i <= facts@.len(),
            items@ == before + layer_items(*config, layer, facts@, i as int),
        decreases facts@.len() - i,
    {
        let blur = resolve_layer_blur(config, &facts[i].namespace);
        let ghost now = items@;
        if facts[i].placed {
            items.push(PlanItem::Surface { layer, index: i });
            if blur.enable {
                items.push(
                    PlanItem::SurfaceBlur {
                        layer,
                        index: i,
                        options: BlurOptions { passes: blur.passes, offset: blur.offset },
                    },
                );
            }
        }
        assert(items@ =~= now + surface_items(*config, layer, facts@[i as int], i as int));
        assert(now + surface_items(*config, layer, facts@[i as int], i as int) =~= before + (
        layer_items(*config, layer, facts@, i as int) + surface_items(
            *config,
            layer,
            facts@[i as int],
            i as int,
        )));
        i = i + 1;
    }
}

fn text_ref(text: &Option<String>) -> (r: Option<&str>)
    ensures
        chars(r) == text_chars(*text),
{
    match text {
        Some(t) => Some(t.as_str()),
        None => None,
    }
}

fn push_windows(items: &mut Vec<PlanItem>, config: &Config, windows: &Vec<WindowFacts>, now: u128)
    ensures
        final(items)@ == old(items)@ + all_window_items(*config, windows@, now, windows@.len() as int)
            + all_xray_items(*config, windows@, windows@.len() as int),
{
    let ghost before = items@;
    let ghost n = windows@.len() as int;
    let mut xray: Vec<PlanItem> = Vec::new();
    let mut i: usize = windows.len();
    assert(xray@ + all_xray_items(*config, windows@, n) == all_xray_items(*config, windows@, n));
    while i > 0
        invariant
            i <= windows@.len() == n,
            items@ + all_window_items(*config, windows@, now, i as int) == before
                + all_window_items(*config, windows@, now, n),
            xray@ + all_xray_items(*config, windows@, i as int) == all_xray_items(
                *config,
                windows@,
                n,
            ),
        decreases i,
    {
        i = i - 1;
        let w = &windows[i];
        let ghost items0 = items@;
        let ghost xray0 = xray@;
        if !w.needs_center && (!w.hidden || w.fading) && w.placed {
            let opening = match w.open_animation {
                Some(anim) => !anim.is_done(now),
                None => false,
            };
            items.push(PlanItem::Window { index: i, opening });
            if w.has_surface {
                let resolved = resolve_window_blur(config, text_ref(&w.app_id), text_ref(&w.title));
                if (w.has_blur_region || resolved.rule_forces_blur) && resolved.blur.enable {
                    let item = PlanItem::WindowBlur {
                        index: i,
                        options: BlurOptions {
                            passes: resolved.blur.passes,
                            offset: resolved.blur.offset,
                        },
                    };
                    if resolved.blur.xray {
                        xray.push(item);
                    } else {
                        items.push(item);
                    }
                }
            }
        }
        assert(items@ =~= items0 + window_items(*config, *w, i as int, now));
        assert(xray@ =~= xray0 + xray_items(*config, *w, i as int));
        assert(items@ + all_window_items(*config, windows@, now, i as int) =~= items0 + (
        window_items(*config, *w, i as int, now) + all_window_items(
            *config,
            windows@,
            now,
            i as int,
        )));
        assert(xray@ + all_xray_items(*config, windows@, i as int) =~= xray0 + (xray_items(
            *config,
            *w,
            i as int,
        ) + all_xray_items(*config, windows@, i as int)));
    }
    assert(items@ + Seq::<PlanItem>::empty() == items@);
    assert(xray@ + Seq::<PlanItem>::empty() == xray@);
    items.append(&mut xray);
}

/// The elements of an output, from the top down, and what shows behind them.
/// A fullscreen window hides everything but the caller's elements.
pub fn output_elements(facts: &OutputFacts, config: &Config, now: u128) -> (r: (
    Vec<PlanItem>,
    ClearColor,
))
    ensures
        r.0@ == plan_items(*config, *facts, now),
        r.1 == (if facts.fullscreen {
            ClearColor::Fullscreen
        } else {
            ClearColor::Desktop
        }),
{
    let mut items: Vec<PlanItem> = Vec::new();
    let mut i: usize = 0;
    while i < facts.customs
        invariant
            i <= facts.customs,
            items@ == custom_items(i as int),
        decreases facts.customs - i,
    {
        items.push(PlanItem::Custom { index: i });
        i = i + 1;
        assert(items@ =~= custom_items(i as int));
    }
    if facts.fullscreen {
        items.push(PlanItem::Fullscreen);
        return (items, ClearColor::Fullscreen);
    }
    if facts.show_window_preview && facts.windows.len() > 0 {
        items.push(PlanItem::Previews);
    }
    assert(items@ =~= custom_items(facts.customs as int) + preview_items(*facts));
    push_layer(&mut items, config, Layer::Overlay, &facts.overlay);
    push_layer(&mut items, config, Layer::Top, &facts.top);
    let ghost upper = items@;
    if facts.mapped {
        push_windows(&mut items, config, &facts.windows, now);
        let ghost windows = items@;
        let mut k: usize = 0;
        assert(windows + closing_items(0) =~= windows);
        while k < facts.closing
            invariant
                k <= facts.closing,
                items@ == windows + closing_items(k as int),
            decreases facts.closing - k,
        {
            items.push(PlanItem::Closing { index: k });
            k = k + 1;
            assert(items@ =~= windows + closing_items(k as int));
        }
    }
    assert(items@ =~= upper + middle_items(*config, *facts, now));
    push_layer(&mut items, config, Layer::Bottom, &facts.bottom);
    push_layer(&mut items, config, Layer::Background, &facts.background);
    (items, ClearColor::Desktop)
}

/// A blur that does not look through windows comes directly below its own
/// window, so that it shows all that lies behind that window.
pub proof fn blur_follows_its_window(
    config: Config,
    w: Seq<WindowFacts>,
    now: u128,
    upto: int,
    at: int,
)
    requires
        0 <= upto <= w.len(),
        0 <= at < all_window_items(config, w, now, upto).len(),
        all_window_items(config, w, now, upto)[at] is WindowBlur,
    ensures
        at > 0,
        all_window_items(config, w, now, upto)[at - 1] matches PlanItem::Window { index, .. }
            && index == all_window_items(config, w, now, upto)[at]->WindowBlur_index,
    decreases upto,
{
    let first = window_items(config, w[upto - 1], upto - 1, now);
    let rest = all_window_items(config, w, now, upto - 1);
    let all = all_window_items(config, w, now, upto);
    assert(all == first + rest);
    if at >= first.len() {
        assert(all[at] == rest[at - first.len()]);
        blur_follows_its_window(config, w, now, upto - 1, at - first.len());
        assert(all[at - 1] == rest[at - first.len() - 1]);
    }
}

/// A blur that looks through windows comes below every window, and above the
/// lower layers.
pub proof fn xray_blur_is_below_windows(
    config: Config,
    facts: OutputFacts,
    now: u128,
    k: int,
)
    requires
        facts.mapped,
        0 <= k < all_xray_items(config, facts.windows@, facts.windows@.len() as int).len(),
    ensures
        all_xray_items(config, facts.windows@, facts.windows@.len() as int)[k] is WindowBlur,
        ({
            let n = facts.windows@.len() as int;
            let above = all_window_items(config, facts.windows@, now, n);
            middle_items(config, facts, now)[above.len() + k] == all_xray_items(
                config,
                facts.windows@,
                n,
            )[k]
        }),
{
    xray_items_are_blurs(config, facts.windows@, facts.windows@.len() as int, k);
}

proof fn xray_items_are_blurs(config: Config, w: Seq<WindowFacts>, upto: int, k: int)
    requires
        0 <= upto <= w.len(),
        0 <= k < all_xray_items(config, w, upto).len(),
    ensures
        all_xray_items(config, w, upto)[k] is WindowBlur,
    decreases upto,
{
    let first = xray_items(config, w[upto - 1], upto - 1);
    if k >= first.len() {
        xray_items_are_blurs(config, w, upto - 1, k - first.len());
    }
}

/// Windows of other workspaces, and windows without a place, are not drawn.
pub proof fn hidden_windows_have_no_elements(config: Config, w: WindowFacts, at: int, now: u128)
    requires
        (w.hidden && !w.fading) || w.needs_center || !w.placed,
    ensures
        window_items(config, w, at, now).len() == 0,
        xray_items(config, w, at).len() == 0,
{
}

/// The most window previews in a row.
pub const MAX_PREVIEWS_PER_ROW: usize = 4;

/// The space around a preview.
pub const PREVIEW_PADDING: i32 = 10;

/// Columns and rows of the previews of `n` windows.
pub fn preview_shape(n: usize) -> (r: (usize, usize))
    requires
        n > 0,
    ensures
        r.0 == (if n <= 4 {
            n as int
        } else {
            4
        }),
        (r.1 - 1) * r.0 < n <= r.1 * r.0,
{
    let cols: usize = if n < MAX_PREVIEWS_PER_ROW {
        n
    } else {
        MAX_PREVIEWS_PER_ROW
    };
    let full: usize = n / cols;
    let rows: usize = if n % cols == 0 {
        full
    } else {
        full + 1
    };
    proof {
        let c = cols as int;
        let m = n as int;
        vstd::arithmetic::div_mod::lemma_fundamental_div_mod(m, c);
        let q = m / c;
        let d = m % c;
        assert(c * q == q * c) by (nonlinear_arith);
        assert((q + 1) * c == q * c + c) by (nonlinear_arith);
        assert((q - 1) * c == q * c - c) by (nonlinear_arith);
    }
    (cols, rows)
}

/// The place of a preview: `cell` is the share of the output that each one gets,
/// and the padding is around it.
pub open spec fn preview_rect(i: int, cols: int, cell: Size) -> (int, int, int, int) {
    let w = cell.w - 2 * PREVIEW_PADDING;
    let h = cell.h - 2 * PREVIEW_PADDING;
    (
        PREVIEW_PADDING + (PREVIEW_PADDING + w) * (i % cols),
        PREVIEW_PADDING + (PREVIEW_PADDING + h) * (i / cols),
        w,
        h,
    )
}

/// The place of a preview.
pub fn preview_location(i: usize, cols: usize, cell: Size) -> (r: Rect)
    requires
        cols > 0,
        i32::MIN <= cell.w - 20,
        i32::MIN <= cell.h - 20,
        i as int % cols as int <= i32::MAX,
        i as int / cols as int <= i32::MAX,
        i32::MIN <= preview_rect(i as int, cols as int, cell).0 <= i32::MAX,
        i32::MIN <= preview_rect(i as int, cols as int, cell).1 <= i32::MAX,
    ensures
        (r.loc.x as int, r.loc.y as int, r.size.w as int, r.size.h as int) == preview_rect(
            i as int,
            cols as int,
            cell,
        ),
{
    let column: i64 = (i % cols) as i64;
    let row: i64 = (i / cols) as i64;
    let w: i32 = cell.w - 20;
    let h: i32 = cell.h - 20;
    proof {
        let a = 10 + w as int;
        let b = 10 + h as int;
        assert(-0x8000_0000 * 0x8000_0000 <= a * column <= 0x8000_0000 * 0x8000_0000)
            by (nonlinear_arith)
            requires
                -0x8000_0000 <= a <= 0x8000_0000,
                0 <= column <= 0x7fff_ffff,
        ;
        assert(-0x8000_0000 * 0x8000_0000 <= b * row <= 0x8000_0000 * 0x8000_0000)
            by (nonlinear_arith)
            requires
                -0x8000_0000 <= b <= 0x8000_0000,
                0 <= row <= 0x7fff_ffff,
        ;
    }
    let x: i64 = 10 + (10 + w as i64) * column;
    let y: i64 = 10 + (10 + h as i64) * row;
    Rect { loc: Point { x: x as i32, y: y as i32 }, size: Size { w, h } }
}

/// The columns that `n` windows have their previews in.
pub open spec fn preview_columns(n: int) -> int {
    if n <= 4 {
        n
    } else {
        4
    }
}

/// Whether a rectangle is the preview of the window at `i`.
pub open spec fn is_preview(r: Rect, i: int, n: int, cell: Size) -> bool {
    (r.loc.x as int, r.loc.y as int, r.size.w as int, r.size.h as int) == preview_rect(
        i,
        preview_columns(n),
        cell,
    )
}

/// The places of the previews of `n` windows, row by row.
pub fn space_preview_elements(n: usize, cell: Size) -> (v: Vec<Rect>)
    requires
        n <= i32::MAX,
        i32::MIN <= cell.w - 20,
        i32::MIN <= cell.h - 20,
        forall|i: int|
            0 <= i < n ==> i32::MIN <= (#[trigger] preview_rect(i, preview_columns(n as int), cell)).0
                <= i32::MAX && i32::MIN <= preview_rect(i, preview_columns(n as int), cell).1
                <= i32::MAX,
    ensures
        v@.len() == n,
        forall|i: int| 0 <= i < n ==> is_preview(#[trigger] v@[i], i, n as int, cell),
{
    let mut v: Vec<Rect> = Vec::new();
    if n == 0 {
        return v;
    }
    let (cols, _) = preview_shape(n);
    let mut i: usize = 0;
    while i < n
        invariant
            i <= n <= i32::MAX,
            0 < cols <= 4,
            cols == preview_columns(n as int),
            i32::MIN <= cell.w - 20,
            i32::MIN <= cell.h - 20,
            forall|i: int|
                0 <= i < n ==> i32::MIN <= (#[trigger] preview_rect(
                    i,
                    preview_columns(n as int),
                    cell,
                )).0 <= i32::MAX && i32::MIN <= preview_rect(
                    i,
                    preview_columns(n as int),
                    cell,
                ).1 <= i32::MAX,
            v@.len() == i,
            forall|k: int| 0 <= k < i ==> is_preview(#[trigger] v@[k], k, n as int, cell),
        decreases n - i,
    {
        let ghost r = preview_rect(i as int, preview_columns(n as int), cell);
        assert(i as int / cols as int <= i) by (nonlinear_arith)
            requires
                i >= 0,
                cols > 0,
        ;
        v.push(preview_location(i, cols, cell));
        i = i + 1;
    }
    v
}

/// No two previews share a point.
pub proof fn previews_are_apart(i: int, j: int, n: int, cell: Size, x: int, y: int)
    requires
        0 <= i < n,
        0 <= j < n,
        i != j,
        cell.w >= 20,
        cell.h >= 20,
    ensures
        !({
            let (ix, iy, w, h) = preview_rect(i, preview_columns(n), cell);
            let (jx, jy, _, _) = preview_rect(j, preview_columns(n), cell);
            ix <= x < ix + w && iy <= y < iy + h && jx <= x < jx + w && jy <= y < jy + h
        }),
{
    let cols = preview_columns(n);
    let w = cell.w - 20;
    let h = cell.h - 20;
    vstd::arithmetic::div_mod::lemma_fundamental_div_mod(i, cols);
    vstd::arithmetic::div_mod::lemma_fundamental_div_mod(j, cols);
    let (a, b) = (i % cols, j % cols);
    let (c, d) = (i / cols, j / cols);
    if a == b && c == d {
        assert(false);
    }
    if a != b {
        steps_apart(a, b, 10 + w, w, x);
    } else {
        steps_apart(c, d, 10 + h, h, y);
    }
}

proof fn steps_apart(a: int, b: int, pitch: int, length: int, x: int)
    requires
        a != b,
        0 <= length <= pitch,
    ensures
        !(10 + pitch * a <= x < 10 + pitch * a + length && 10 + pitch * b <= x < 10 + pitch * b
            + length),
{
    if a < b {
        assert(pitch * b >= pitch * a + pitch) by (nonlinear_arith)
            requires
                a < b,
                pitch >= 0,
        ;
    } else {
        assert(pitch * a >= pitch * b + pitch) by (nonlinear_arith)
            requires
                b < a,
                pitch >= 0,
        ;
    }
}

/// Where an element belongs in the stack: what is larger is further down. The
/// second number orders elements of one kind, and an element comes before its
/// own blur.
spec fn place_of(config: Config, facts: OutputFacts, item: PlanItem) -> (int, int, int) {
    match item {
        PlanItem::Custom { index } => (0, index as int, 0),
        PlanItem::Fullscreen => (1, 0, 0),
        PlanItem::Previews => (2, 0, 0),
        PlanItem::Surface { layer, index } => (layer_depth(layer), index as int, 0),
        PlanItem::SurfaceBlur { layer, index, .. } => (layer_depth(layer), index as int, 1),
        PlanItem::Window { index, .. } => (5, -(index as int), 0),
        PlanItem::WindowBlur { index, .. } => if blur_of(
            config,
            facts.windows@[index as int],
        ).blur.xray {
            (6, -(index as int), 0)
        } else {
            (5, -(index as int), 1)
        },
        PlanItem::Closing { index } => (7, index as int, 0),
    }
}

spec fn layer_depth(layer: Layer) -> int {
    match layer {
        Layer::Overlay => 3,
        Layer::Top => 4,
        Layer::Bottom => 8,
        Layer::Background => 9,
    }
}

spec fn comes_before(a: (int, int, int), b: (int, int, int)) -> bool {
    a.0 < b.0 || (a.0 == b.0 && (a.1 < b.1 || (a.1 == b.1 && a.2 < b.2)))
}

spec fn is_stacked(config: Config, facts: OutputFacts, items: Seq<PlanItem>) -> bool {
    forall|i: int, j: int|
        0 <= i < j < items.len() ==> comes_before(
            place_of(config, facts, #[trigger] items[i]),
            place_of(config, facts, #[trigger] items[j]),
        )
}

spec fn lies_within(
    config: Config,
    facts: OutputFacts,
    items: Seq<PlanItem>,
    from: int,
    to: int,
) -> bool {
    forall|i: int|
        0 <= i < items.len() ==> from <= place_of(config, facts, #[trigger] items[i]).0 <= to
}

proof fn stacks_join(
    config: Config,
    facts: OutputFacts,
    a: Seq<PlanItem>,
    b: Seq<PlanItem>,
    from: int,
    mid: int,
    to: int,
)
    requires
        is_stacked(config, facts, a),
        is_stacked(config, facts, b),
        lies_within(config, facts, a, from, mid),
        lies_within(config, facts, b, mid + 1, to),
        from <= mid < to,
    ensures
        is_stacked(config, facts, a + b),
        lies_within(config, facts, a + b, from, to),
{
    let all = a + b;
    assert forall|i: int| 0 <= i < all.len() implies from <= place_of(
        config,
        facts,
        #[trigger] all[i],
    ).0 <= to by {
        if i < a.len() {
            assert(all[i] == a[i]);
        } else {
            assert(all[i] == b[i - a.len()]);
        }
    }
    assert forall|i: int, j: int| 0 <= i < j < all.len() implies comes_before(
        place_of(config, facts, #[trigger] all[i]),
        place_of(config, facts, #[trigger] all[j]),
    ) by {
        if j < a.len() {
            assert(all[i] == a[i] && all[j] == a[j]);
        } else if i >= a.len() {
            assert(all[i] == b[i - a.len()] && all[j] == b[j - a.len()]);
        } else {
            assert(all[i] == a[i] && all[j] == b[j - a.len()]);
        }
    }
}

proof fn layers_are_stacked(
    config: Config,
    facts: OutputFacts,
    layer: Layer,
    surfaces: Seq<LayerFacts>,
    upto: int,
)
    requires
        0 <= upto <= surfaces.len() <= usize::MAX,
    ensures
        ({
            let items = layer_items(config, layer, surfaces, upto);
            &&& is_stacked(config, facts, items)
            &&& lies_within(config, facts, items, layer_depth(layer), layer_depth(layer))
            &&& forall|i: int|
                0 <= i < items.len() ==> place_of(config, facts, #[trigger] items[i]).1 < upto
            &&& forall|item: PlanItem| #[trigger]
                items.contains(item) <==> match item {
                    PlanItem::Surface { layer: l, index } => l == layer && index < upto
                        && surfaces[index as int].placed,
                    PlanItem::SurfaceBlur { layer: l, index, options } => {
                        let blur = layer_blur(
                            config.layer_rules@,
                            config.blur,
                            surfaces[index as int].namespace@,
                            0,
                        );
                        l == layer && index < upto && surfaces[index as int].placed && blur.enable
                            && options == (BlurOptions { passes: blur.passes, offset: blur.offset })
                    },
                    _ => false,
                }
        }),
    decreases upto,
{
    if upto > 0 {
        layers_are_stacked(config, facts, layer, surfaces, upto - 1);
        let before = layer_items(config, layer, surfaces, upto - 1);
        let more = surface_items(config, layer, surfaces[upto - 1], upto - 1);
        let items = layer_items(config, layer, surfaces, upto);
        assert(items == before + more);
        assert forall|i: int, j: int| 0 <= i < j < items.len() implies comes_before(
            place_of(config, facts, #[trigger] items[i]),
            place_of(config, facts, #[trigger] items[j]),
        ) by {
            if j < before.len() {
                assert(items[i] == before[i] && items[j] == before[j]);
            } else if i < before.len() {
                assert(items[i] == before[i] && items[j] == more[j - before.len()]);
            }
        }
        assert forall|i: int| 0 <= i < items.len() implies {
            &&& place_of(config, facts, #[trigger] items[i]).1 < upto
            &&& place_of(config, facts, items[i]).0 == layer_depth(layer)
        } by {
            if i < before.len() {
                assert(items[i] == before[i]);
            }
        }
        assert forall|item: PlanItem| #[trigger] items.contains(item) <==> before.contains(item)
            || more.contains(item) by {
            if before.contains(item) {
                let k = choose|k: int| 0 <= k < before.len() && before[k] == item;
                assert(items[k] == item);
            }
            if more.contains(item) {
                let k = choose|k: int| 0 <= k < more.len() && more[k] == item;
                assert(items[before.len() + k] == item);
            }
            if items.contains(item) {
                let k = choose|k: int| 0 <= k < items.len() && items[k] == item;
                if k < before.len() {
                    assert(before[k] == item);
                } else {
                    assert(more[k - before.len()] == item);
                }
            }
        }
        let surface = PlanItem::Surface { layer, index: (upto - 1) as usize };
        let blur = layer_blur(
            config.layer_rules@,
            config.blur,
            surfaces[upto - 1].namespace@,
            0,
        );
        let blurred = PlanItem::SurfaceBlur {
            layer,
            index: (upto - 1) as usize,
            options: BlurOptions { passes: blur.passes, offset: blur.offset },
        };
        assert forall|item: PlanItem| #[trigger] more.contains(item) <==> surfaces[upto - 1].placed
            && (item == surface || (blur.enable && item == blurred)) by {
            if surfaces[upto - 1].placed {
                assert(more[0] == surface);
                if blur.enable {
                    assert(more[1] == blurred);
                }
            }
        }
    }
}

proof fn windows_are_stacked(config: Config, facts: OutputFacts, now: u128, upto: int)
    requires
        0 <= upto <= facts.windows@.len() <= usize::MAX,
    ensures
        ({
            let items = all_window_items(config, facts.windows@, now, upto);
            &&& is_stacked(config, facts, items)
            &&& lies_within(config, facts, items, 5, 5)
            &&& forall|i: int|
                0 <= i < items.len() ==> place_of(config, facts, #[trigger] items[i]).1 > -upto
            &&& forall|item: PlanItem| #[trigger]
                items.contains(item) <==> match item {
                    PlanItem::Window { index, opening } => index < upto && is_shown(
                        facts.windows@[index as int],
                    ) && opening == is_opening(facts.windows@[index as int], now),
                    PlanItem::WindowBlur { index, .. } => index < upto && is_shown(
                        facts.windows@[index as int],
                    ) && is_blurred(config, facts.windows@[index as int]) && !blur_of(
                        config,
                        facts.windows@[index as int],
                    ).blur.xray && item == blur_item(
                        config,
                        facts.windows@[index as int],
                        index as int,
                    ),
                    _ => false,
                }
        }),
    decreases upto,
{
    if upto > 0 {
        windows_are_stacked(config, facts, now, upto - 1);
        let w = facts.windows@[upto - 1];
        let more = window_items(config, w, upto - 1, now);
        let rest = all_window_items(config, facts.windows@, now, upto - 1);
        let items = all_window_items(config, facts.windows@, now, upto);
        assert(items == more + rest);
        assert forall|i: int, j: int| 0 <= i < j < items.len() implies comes_before(
            place_of(config, facts, #[trigger] items[i]),
            place_of(config, facts, #[trigger] items[j]),
        ) by {
            if i >= more.len() {
                assert(items[i] == rest[i - more.len()] && items[j] == rest[j - more.len()]);
            } else if j >= more.len() {
                assert(items[i] == more[i] && items[j] == rest[j - more.len()]);
            }
        }
        assert forall|i: int| 0 <= i < items.len() implies {
            &&& place_of(config, facts, #[trigger] items[i]).1 > -upto
            &&& place_of(config, facts, items[i]).0 == 5
        } by {
            if i >= more.len() {
                assert(items[i] == rest[i - more.len()]);
            }
        }
        assert forall|item: PlanItem| #[trigger] items.contains(item) <==> rest.contains(item)
            || more.contains(item) by {
            if rest.contains(item) {
                let k = choose|k: int| 0 <= k < rest.len() && rest[k] == item;
                assert(items[more.len() + k] == item);
            }
            if more.contains(item) {
                let k = choose|k: int| 0 <= k < more.len() && more[k] == item;
                assert(items[k] == item);
            }
            if items.contains(item) {
                let k = choose|k: int| 0 <= k < items.len() && items[k] == item;
                if k < more.len() {
                    assert(more[k] == item);
                } else {
                    assert(rest[k - more.len()] == item);
                }
            }
        }
        let window = PlanItem::Window { index: (upto - 1) as usize, opening: is_opening(w, now) };
        let blurred = blur_item(config, w, upto - 1);
        assert forall|item: PlanItem| #[trigger] more.contains(item) <==> is_shown(w) && (item
            == window || (is_blurred(config, w) && !blur_of(config, w).blur.xray && item
            == blurred)) by {
            if is_shown(w) {
                assert(more[0] == window);
                if is_blurred(config, w) && !blur_of(config, w).blur.xray {
                    assert(more[1] == blurred);
                }
            }
        }
    }
}

proof fn xray_blurs_are_stacked(config: Config, facts: OutputFacts, upto: int)
    requires
        0 <= upto <= facts.windows@.len() <= usize::MAX,
    ensures
        ({
            let items = all_xray_items(config, facts.windows@, upto);
            &&& is_stacked(config, facts, items)
            &&& lies_within(config, facts, items, 6, 6)
            &&& forall|i: int|
                0 <= i < items.len() ==> place_of(config, facts, #[trigger] items[i]).1 > -upto
            &&& forall|item: PlanItem| #[trigger]
                items.contains(item) <==> match item {
                    PlanItem::WindowBlur { index, .. } => index < upto && is_shown(
                        facts.windows@[index as int],
                    ) && is_blurred(config, facts.windows@[index as int]) && blur_of(
                        config,
                        facts.windows@[index as int],
                    ).blur.xray && item == blur_item(
                        config,
                        facts.windows@[index as int],
                        index as int,
                    ),
                    _ => false,
                }
        }),
    decreases upto,
{
    if upto > 0 {
        xray_blurs_are_stacked(config, facts, upto - 1);
        let w = facts.windows@[upto - 1];
        let more = xray_items(config, w, upto - 1);
        let rest = all_xray_items(config, facts.windows@, upto - 1);
        let items = all_xray_items(config, facts.windows@, upto);
        assert(items == more + rest);
        assert forall|i: int, j: int| 0 <= i < j < items.len() implies comes_before(
            place_of(config, facts, #[trigger] items[i]),
            place_of(config, facts, #[trigger] items[j]),
        ) by {
            if i >= more.len() {
                assert(items[i] == rest[i - more.len()] && items[j] == rest[j - more.len()]);
            } else {
                assert(items[i] == more[i] && items[j] == rest[j - more.len()]);
            }
        }
        assert forall|i: int| 0 <= i < items.len() implies {
            &&& place_of(config, facts, #[trigger] items[i]).1 > -upto
            &&& place_of(config, facts, items[i]).0 == 6
        } by {
            if i >= more.len() {
                assert(items[i] == rest[i - more.len()]);
            }
        }
        assert forall|item: PlanItem| #[trigger] items.contains(item) <==> rest.contains(item)
            || more.contains(item) by {
            if rest.contains(item) {
                let k = choose|k: int| 0 <= k < rest.len() && rest[k] == item;
                assert(items[more.len() + k] == item);
            }
            if more.contains(item) {
                let k = choose|k: int| 0 <= k < more.len() && more[k] == item;
                assert(items[k] == item);
            }
            if items.contains(item) {
                let k = choose|k: int| 0 <= k < items.len() && items[k] == item;
                if k < more.len() {
                    assert(more[k] == item);
                } else {
                    assert(rest[k - more.len()] == item);
                }
            }
        }
        let blurred = blur_item(config, w, upto - 1);
        assert forall|item: PlanItem| #[trigger] more.contains(item) <==> is_shown(w) && is_blurred(
            config,
            w,
        ) && blur_of(config, w).blur.xray && item == blurred by {
            if is_shown(w) && is_blurred(config, w) && blur_of(config, w).blur.xray {
                assert(more[0] == blurred);
            }
        }
    }
}

proof fn joined_lists_hold_both(a: Seq<PlanItem>, b: Seq<PlanItem>)
    ensures
        forall|item: PlanItem| #[trigger]
            (a + b).contains(item) <==> a.contains(item) || b.contains(item),
{
    assert forall|item: PlanItem| #[trigger] (a + b).contains(item) <==> a.contains(item)
        || b.contains(item) by {
        let all = a + b;
        if a.contains(item) {
            let k = choose|k: int| 0 <= k < a.len() && a[k] == item;
            assert(all[k] == item);
        }
        if b.contains(item) {
            let k = choose|k: int| 0 <= k < b.len() && b[k] == item;
            assert(all[a.len() + k] == item);
        }
        if all.contains(item) {
            let k = choose|k: int| 0 <= k < all.len() && all[k] == item;
            if k < a.len() {
                assert(a[k] == item);
            } else {
                assert(b[k - a.len()] == item);
            }
        }
    }
}

proof fn numbered_items(config: Config, facts: OutputFacts)
    ensures
        ({
            let items = custom_items(facts.customs as int);
            &&& is_stacked(config, facts, items)
            &&& lies_within(config, facts, items, 0, 0)
            &&& forall|item: PlanItem| #[trigger]
                items.contains(item) <==> (item matches PlanItem::Custom { index } && index
                    < facts.customs)
        }),
        ({
            let items = closing_items(facts.closing as int);
            &&& is_stacked(config, facts, items)
            &&& lies_within(config, facts, items, 7, 7)
            &&& forall|item: PlanItem| #[trigger]
                items.contains(item) <==> (item matches PlanItem::Closing { index } && index
                    < facts.closing)
        }),
{
    let customs = custom_items(facts.customs as int);
    assert forall|item: PlanItem| #[trigger] customs.contains(item) <==> (item matches PlanItem::Custom {
        index,
    } && index < facts.customs) by {
        if item matches PlanItem::Custom { index } && index < facts.customs {
            assert(customs[item->Custom_index as int] == item);
        }
    }
    let closing = closing_items(facts.closing as int);
    assert forall|item: PlanItem| #[trigger] closing.contains(item) <==> (item matches PlanItem::Closing {
        index,
    } && index < facts.closing) by {
        if item matches PlanItem::Closing { index } && index < facts.closing {
            assert(closing[item->Closing_index as int] == item);
        }
    }
}

#[verifier::spinoff_prover]
proof fn outputs_are_stacked(config: Config, facts: OutputFacts, now: u128)
    requires
        !facts.fullscreen,
    ensures
        is_stacked(config, facts, plan_items(config, facts, now)),
        forall|item: PlanItem| #[trigger]
            plan_items(config, facts, now).contains(item) <==> {
                ||| custom_items(facts.customs as int).contains(item)
                ||| preview_items(facts).contains(item)
                ||| layer_items(
                    config,
                    Layer::Overlay,
                    facts.overlay@,
                    facts.overlay@.len() as int,
                ).contains(item)
                ||| layer_items(config, Layer::Top, facts.top@, facts.top@.len() as int).contains(item)
                ||| middle_items(config, facts, now).contains(item)
                ||| layer_items(
                    config,
                    Layer::Bottom,
                    facts.bottom@,
                    facts.bottom@.len() as int,
                ).contains(item)
                ||| layer_items(
                    config,
                    Layer::Background,
                    facts.background@,
                    facts.background@.len() as int,
                ).contains(item)
            },
{
    let lengths = (
        facts.overlay.len(),
        facts.top.len(),
        facts.bottom.len(),
        facts.background.len(),
        facts.windows.len(),
    );
    let customs = custom_items(facts.customs as int);
    let previews = preview_items(facts);
    let overlay = layer_items(config, Layer::Overlay, facts.overlay@, facts.overlay@.len() as int);
    let top = layer_items(config, Layer::Top, facts.top@, facts.top@.len() as int);
    let middle = middle_items(config, facts, now);
    let bottom = layer_items(config, Layer::Bottom, facts.bottom@, facts.bottom@.len() as int);
    let background = layer_items(
        config,
        Layer::Background,
        facts.background@,
        facts.background@.len() as int,
    );
    numbered_items(config, facts);
    layers_are_stacked(config, facts, Layer::Overlay, facts.overlay@, facts.overlay@.len() as int);
    layers_are_stacked(config, facts, Layer::Top, facts.top@, facts.top@.len() as int);
    layers_are_stacked(config, facts, Layer::Bottom, facts.bottom@, facts.bottom@.len() as int);
    layers_are_stacked(
        config,
        facts,
        Layer::Background,
        facts.background@,
        facts.background@.len() as int,
    );
    let n = facts.windows@.len() as int;
    windows_are_stacked(config, facts, now, n);
    xray_blurs_are_stacked(config, facts, n);
    assert(is_stacked(config, facts, middle) && lies_within(config, facts, middle, 5, 7)) by {
        if facts.mapped {
            let windows = all_window_items(config, facts.windows@, now, n);
            let xray = all_xray_items(config, facts.windows@, n);
            stacks_join(config, facts, windows, xray, 5, 5, 6);
            stacks_join(
                config,
                facts,
                windows + xray,
                closing_items(facts.closing as int),
                5,
                6,
                7,
            );
        }
    }
    assert(is_stacked(config, facts, previews) && lies_within(config, facts, previews, 1, 2));
    stacks_join(config, facts, customs, previews, 0, 0, 2);
    let s2 = customs + previews;
    stacks_join(config, facts, s2, overlay, 0, 2, 3);
    let s3 = s2 + overlay;
    stacks_join(config, facts, s3, top, 0, 3, 4);
    let s4 = s3 + top;
    stacks_join(config, facts, s4, middle, 0, 4, 7);
    let s5 = s4 + middle;
    stacks_join(config, facts, s5, bottom, 0, 7, 8);
    let s6 = s5 + bottom;
    stacks_join(config, facts, s6, background, 0, 8, 9);
    assert(plan_items(config, facts, now) == s6 + background);
    joined_lists_hold_both(customs, previews);
    joined_lists_hold_both(s2, overlay);
    joined_lists_hold_both(s3, top);
    joined_lists_hold_both(s4, middle);
    joined_lists_hold_both(s5, bottom);
    joined_lists_hold_both(s6, background);
}

/// Without a fullscreen window the elements of an output are stacked from the
/// top down like this: the caller's, the previews, the overlay layer, the top
/// layer, the windows with their blurs, the closing windows, the bottom layer,
/// and below everything the background layer.
pub proof fn layers_enclose_the_windows(
    config: Config,
    facts: OutputFacts,
    now: u128,
    i: int,
    j: int,
)
    requires
        !facts.fullscreen,
        0 <= i < j < plan_items(config, facts, now).len(),
    ensures
        ({
            let depth = |item: PlanItem|
                match item {
                    PlanItem::Custom { .. } => 0int,
                    PlanItem::Previews => 1,
                    PlanItem::Surface { layer: Layer::Overlay, .. } => 2,
                    PlanItem::SurfaceBlur { layer: Layer::Overlay, .. } => 2,
                    PlanItem::Surface { layer: Layer::Top, .. } => 3,
                    PlanItem::SurfaceBlur { layer: Layer::Top, .. } => 3,
                    PlanItem::Window { .. } => 4,
                    PlanItem::WindowBlur { .. } => 4,
                    PlanItem::Closing { .. } => 5,
                    PlanItem::Surface { layer: Layer::Bottom, .. } => 6,
                    PlanItem::SurfaceBlur { layer: Layer::Bottom, .. } => 6,
                    PlanItem::Surface { layer: Layer::Background, .. } => 7,
                    PlanItem::SurfaceBlur { layer: Layer::Background, .. } => 7,
                    PlanItem::Fullscreen => -1,
                };
            let items = plan_items(config, facts, now);
            0 <= depth(items[i]) <= depth(items[j])
        }),
{
    outputs_are_stacked(config, facts, now);
    let items = plan_items(config, facts, now);
    assert(items.contains(items[i]) && items.contains(items[j]));
    elements_are_exact(config, facts, now, items[i]);
    elements_are_exact(config, facts, now, items[j]);
    assert(comes_before(place_of(config, facts, items[i]), place_of(config, facts, items[j])));
}

/// Within one kind, windows are stacked with the last of the list on top, and
/// everything else in the order of its list. No element is drawn twice, and a
/// blur that looks through windows is below all of them.
pub proof fn elements_keep_their_order(
    config: Config,
    facts: OutputFacts,
    now: u128,
    i: int,
    j: int,
)
    requires
        !facts.fullscreen,
        0 <= i < j < plan_items(config, facts, now).len(),
    ensures
        match (plan_items(config, facts, now)[i], plan_items(config, facts, now)[j]) {
            (PlanItem::Window { index: a, .. }, PlanItem::Window { index: b, .. }) => a > b,
            (PlanItem::Custom { index: a }, PlanItem::Custom { index: b }) => a < b,
            (PlanItem::Closing { index: a }, PlanItem::Closing { index: b }) => a < b,
            (
                PlanItem::Surface { layer: k, index: a },
                PlanItem::Surface { layer: l, index: b },
            ) => k == l ==> a < b,
            (PlanItem::WindowBlur { index: a, .. }, PlanItem::Window { .. }) => !blur_of(
                config,
                facts.windows@[a as int],
            ).blur.xray,
            _ => true,
        },
        plan_items(config, facts, now)[i] != plan_items(config, facts, now)[j],
{
    outputs_are_stacked(config, facts, now);
    let items = plan_items(config, facts, now);
    assert(comes_before(place_of(config, facts, items[i]), place_of(config, facts, items[j])));
}

/// A blur comes directly below what it belongs to, unless it looks through
/// windows.
pub proof fn blurs_are_directly_below(config: Config, facts: OutputFacts, now: u128, k: int)
    requires
        !facts.fullscreen,
        0 <= k < plan_items(config, facts, now).len(),
    ensures
        match plan_items(config, facts, now)[k] {
            PlanItem::SurfaceBlur { layer, index, .. } => k > 0 && plan_items(config, facts, now)[k
                - 1] == (PlanItem::Surface { layer, index }),
            PlanItem::WindowBlur { index, .. } => blur_of(
                config,
                facts.windows@[index as int],
            ).blur.xray || (k > 0 && (plan_items(config, facts, now)[k - 1] matches PlanItem::Window {
                index: above,
                ..
            } && above == index)),
            _ => true,
        },
{
    let items = plan_items(config, facts, now);
    let item = items[k];
    assert(is_stacked(config, facts, items)) by {
        outputs_are_stacked(config, facts, now);
    }
    assert(items.contains(item));
    elements_are_exact(config, facts, now, item);
    if item is SurfaceBlur {
        let above = PlanItem::Surface {
            layer: item->SurfaceBlur_layer,
            index: item->SurfaceBlur_index,
        };
        elements_are_exact(config, facts, now, above);
        let at = choose|at: int| 0 <= at < items.len() && items[at] == above;
        neighbours_follow(config, facts, items, at, k);
    }
    if item is WindowBlur && !blur_of(
        config,
        facts.windows@[item->WindowBlur_index as int],
    ).blur.xray {
        let w = facts.windows@[item->WindowBlur_index as int];
        let above = PlanItem::Window {
            index: item->WindowBlur_index,
            opening: is_opening(w, now),
        };
        elements_are_exact(config, facts, now, above);
        let at = choose|at: int| 0 <= at < items.len() && items[at] == above;
        neighbours_follow(config, facts, items, at, k);
    }
}

proof fn neighbours_follow(
    config: Config,
    facts: OutputFacts,
    items: Seq<PlanItem>,
    at: int,
    k: int,
)
    requires
        is_stacked(config, facts, items),
        0 <= at < items.len(),
        0 <= k < items.len(),
        ({
            let a = place_of(config, facts, items[at]);
            let b = place_of(config, facts, items[k]);
            a.0 == b.0 && a.1 == b.1 && a.2 == 0 && b.2 == 1
        }),
    ensures
        at == k - 1,
{
    if at < k - 1 {
        assert(comes_before(
            place_of(config, facts, items[at]),
            place_of(config, facts, items[k - 1]),
        ));
        assert(comes_before(
            place_of(config, facts, items[k - 1]),
            place_of(config, facts, items[k]),
        ));
    } else if at > k {
        assert(comes_before(
            place_of(config, facts, items[k]),
            place_of(config, facts, items[at]),
        ));
    }
}

/// Without a fullscreen window exactly this is drawn: every element of the
/// caller, the previews where they are on, every layer surface that has a place,
/// every window of a mapped output that has its place and is not on another
/// workspace (one that fades out still is), the closing windows; and a blur for
/// each of those that is to have one.
pub proof fn elements_are_exact(config: Config, facts: OutputFacts, now: u128, item: PlanItem)
    requires
        !facts.fullscreen,
    ensures
        plan_items(config, facts, now).contains(item) <==> match item {
            PlanItem::Custom { index } => index < facts.customs,
            PlanItem::Fullscreen => false,
            PlanItem::Previews => facts.show_window_preview && facts.windows@.len() > 0,
            PlanItem::Surface { layer, index } => {
                let surfaces = match layer {
                    Layer::Overlay => facts.overlay@,
                    Layer::Top => facts.top@,
                    Layer::Bottom => facts.bottom@,
                    Layer::Background => facts.background@,
                };
                index < surfaces.len() && surfaces[index as int].placed
            },
            PlanItem::SurfaceBlur { layer, index, options } => {
                let surfaces = match layer {
                    Layer::Overlay => facts.overlay@,
                    Layer::Top => facts.top@,
                    Layer::Bottom => facts.bottom@,
                    Layer::Background => facts.background@,
                };
                let blur = layer_blur(
                    config.layer_rules@,
                    config.blur,
                    surfaces[index as int].namespace@,
                    0,
                );
                index < surfaces.len() && surfaces[index as int].placed && blur.enable
                    && options.passes == blur.passes && options.offset == blur.offset
            },
            PlanItem::Window { index, opening } => {
                let w = facts.windows@[index as int];
                facts.mapped && index < facts.windows@.len() && w.placed && !w.needs_center && (
                !w.hidden || w.fading) && opening == (w.open_animation matches Some(anim)
                    && !anim.done_at(now))
            },
            PlanItem::WindowBlur { index, options } => {
                let w = facts.windows@[index as int];
                let resolved = window_blur(
                    config.window_rules@,
                    config.blur,
                    text_chars(w.app_id),
                    text_chars(w.title),
                    0,
                );
                facts.mapped && index < facts.windows@.len() && w.placed && !w.needs_center && (
                !w.hidden || w.fading) && w.has_surface && resolved.blur.enable && (
                w.has_blur_region || resolved.rule_forces_blur) && options.passes
                    == resolved.blur.passes && options.offset == resolved.blur.offset
            },
            PlanItem::Closing { index } => facts.mapped && index < facts.closing,
        },
{
    let lengths = (
        facts.overlay.len(),
        facts.top.len(),
        facts.bottom.len(),
        facts.background.len(),
        facts.windows.len(),
    );
    outputs_are_stacked(config, facts, now);
    numbered_items(config, facts);
    layers_are_stacked(config, facts, Layer::Overlay, facts.overlay@, facts.overlay@.len() as int);
    layers_are_stacked(config, facts, Layer::Top, facts.top@, facts.top@.len() as int);
    layers_are_stacked(config, facts, Layer::Bottom, facts.bottom@, facts.bottom@.len() as int);
    layers_are_stacked(
        config,
        facts,
        Layer::Background,
        facts.background@,
        facts.background@.len() as int,
    );
    let n = facts.windows@.len() as int;
    windows_are_stacked(config, facts, now, n);
    xray_blurs_are_stacked(config, facts, n);
    let windows = all_window_items(config, facts.windows@, now, n);
    let xray = all_xray_items(config, facts.windows@, n);
    joined_lists_hold_both(windows, xray);
    joined_lists_hold_both(windows + xray, closing_items(facts.closing as int));
    if facts.show_window_preview && facts.windows@.len() > 0 {
        assert(preview_items(facts)[0] == PlanItem::Previews);
    }
}

/// A fullscreen window is drawn below the caller's elements, and nothing else is
/// drawn.
pub proof fn fullscreen_hides_the_rest(config: Config, facts: OutputFacts, now: u128, k: int)
    requires
        facts.fullscreen,
        0 <= k < plan_items(config, facts, now).len(),
    ensures
        plan_items(config, facts, now).len() == facts.customs + 1,
        plan_items(config, facts, now)[k] == (if k < facts.customs {
            PlanItem::Custom { index: k as usize }
        } else {
            PlanItem::Fullscreen
        }),
{
}

/// The first rule that is about a window and speaks of blur decides all of its
/// blur: what the rule says holds, what it leaves out is as for all windows.
pub proof fn the_first_rule_on_blur_decides(
    rules: Seq<WindowRule>,
    base: BlurConfig,
    app_id: Option<Seq<char>>,
    title: Option<Seq<char>>,
    from: int,
    at: int,
)
    requires
        0 <= from <= at < rules.len(),
        rules[at].applies(app_id, title),
        rules[at].blur is Some,
        forall|i: int|
            from <= i < at ==> !((#[trigger] rules[i]).applies(app_id, title) && rules[i].blur
                is Some),
    ensures
        ({
            let over = rules[at].blur->0;
            let r = window_blur(rules, base, app_id, title, from);
            &&& r.blur.enable == over.enable
            &&& r.rule_forces_blur == over.enable
            &&& r.blur.passes == (if over.passes is Some { over.passes->0 } else { base.passes })
            &&& r.blur.offset == (if over.offset is Some { over.offset->0 } else { base.offset })
            &&& r.blur.xray == (if over.xray is Some { over.xray->0 } else { base.xray })
        }),
    decreases at - from,
{
    if from < at {
        the_first_rule_on_blur_decides(rules, base, app_id, title, from + 1, at);
    }
}

/// Where no rule is about a window and speaks of blur, its blur is as for all
/// windows, and not forced.
pub proof fn without_a_rule_blur_is_global(
    rules: Seq<WindowRule>,
    base: BlurConfig,
    app_id: Option<Seq<char>>,
    title: Option<Seq<char>>,
    from: int,
)
    requires
        0 <= from <= rules.len(),
        forall|i: int|
            from <= i < rules.len() ==> !((#[trigger] rules[i]).applies(app_id, title)
                && rules[i].blur is Some),
    ensures
        window_blur(rules, base, app_id, title, from).blur == base,
        !window_blur(rules, base, app_id, title, from).rule_forces_blur,
    decreases rules.len() - from,
{
    if from < rules.len() {
        without_a_rule_blur_is_global(rules, base, app_id, title, from + 1);
    }
}

/// The first rule that is about a layer surface and speaks of blur decides all
/// of its blur.
pub proof fn the_first_layer_rule_on_blur_decides(
    rules: Seq<LayerRule>,
    base: BlurConfig,
    namespace: Seq<char>,
    from: int,
    at: int,
)
    requires
        0 <= from <= at < rules.len(),
        pattern_matches(rules[at].namespace, Some(namespace)),
        rules[at].blur is Some,
        forall|i: int|
            from <= i < at ==> !(pattern_matches(
                (#[trigger] rules[i]).namespace,
                Some(namespace),
            ) && rules[i].blur is Some),
    ensures
        ({
            let over = rules[at].blur->0;
            let r = layer_blur(rules, base, namespace, from);
            &&& r.enable == over.enable
            &&& r.passes == (if over.passes is Some { over.passes->0 } else { base.passes })
            &&& r.offset == (if over.offset is Some { over.offset->0 } else { base.offset })
            &&& r.xray == (if over.xray is Some { over.xray->0 } else { base.xray })
        }),
    decreases at - from,
{
    if from < at {
        the_first_layer_rule_on_blur_decides(rules, base, namespace, from + 1, at);
    }
}

/// Where no rule is about a layer surface and speaks of blur, its blur is as for
/// everything.
pub proof fn without_a_layer_rule_blur_is_global(
    rules: Seq<LayerRule>,
    base: BlurConfig,
    namespace: Seq<char>,
    from: int,
)
    requires
        0 <= from <= rules.len(),
        forall|i: int|
            from <= i < rules.len() ==> !(pattern_matches(
                (#[trigger] rules[i]).namespace,
                Some(namespace),
            ) && rules[i].blur is Some),
    ensures
        layer_blur(rules, base, namespace, from) == base,
    decreases rules.len() - from,
{
    if from < rules.len() {
        without_a_layer_rule_blur_is_global(rules, base, namespace, from + 1);
    }
}

/// Previews fill rows of up to four from the left: the first is in the corner,
/// the next one in the row is its width and the padding to the right, and the
/// one below it its height and the padding further down. All have the share of
/// the output less the padding around it.
pub proof fn previews_fill_rows(i: int, n: int, cell: Size)
    requires
        0 <= i < n,
    ensures
        ({
            let cols = preview_columns(n);
            let (x, y, w, h) = preview_rect(i, cols, cell);
            let (right_x, right_y, _, _) = preview_rect(i + 1, cols, cell);
            let (below_x, below_y, _, _) = preview_rect(i + cols, cols, cell);
            &&& 1 <= cols <= 4 && cols <= n && (n >= 4 ==> cols == 4)
            &&& w == cell.w - 20 && h == cell.h - 20
            &&& i == 0 ==> x == 10 && y == 10
            &&& (i + 1) % cols != 0 ==> right_x == x + w + 10 && right_y == y
            &&& (i + 1) % cols == 0 ==> right_x == 10 && right_y == y + h + 10
            &&& below_x == x && below_y == y + h + 10
        }),
{
    let cols = preview_columns(n);
    let a = 10 + cell.w - 20;
    let b = 10 + cell.h - 20;
    let q = i / cols;
    let r = i % cols;
    if cols == 1 {
        assert((i + 1) / 1 == i / 1 + 1 && (i + 1) % 1 == 0 && i % 1 == 0);
    } else if cols == 2 {
        assert((i + 2) / 2 == i / 2 + 1 && (i + 2) % 2 == i % 2);
        assert(i % 2 == 1 ==> (i + 1) / 2 == i / 2 + 1 && (i + 1) % 2 == 0);
        assert(i % 2 < 1 ==> (i + 1) / 2 == i / 2 && (i + 1) % 2 == i % 2 + 1);
    } else if cols == 3 {
        assert((i + 3) / 3 == i / 3 + 1 && (i + 3) % 3 == i % 3);
        assert(i % 3 == 2 ==> (i + 1) / 3 == i / 3 + 1 && (i + 1) % 3 == 0);
        assert(i % 3 < 2 ==> (i + 1) / 3 == i / 3 && (i + 1) % 3 == i % 3 + 1);
    } else {
        assert((i + 4) / 4 == i / 4 + 1 && (i + 4) % 4 == i % 4);
        assert(i % 4 == 3 ==> (i + 1) / 4 == i / 4 + 1 && (i + 1) % 4 == 0);
        assert(i % 4 < 3 ==> (i + 1) / 4 == i / 4 && (i + 1) % 4 == i % 4 + 1);
    }
    assert(b * (q + 1) == b * q + b) by (nonlinear_arith);
    assert(a * (r + 1) == a * r + a) by (nonlinear_arith);
    assert(a * 0 == 0 && b * 0 == 0) by (nonlinear_arith);
    let (x, y, w, h) = preview_rect(i, cols, cell);
    let (right_x, right_y, _, _) = preview_rect(i + 1, cols, cell);
    let (below_x, below_y, _, _) = preview_rect(i + cols, cols, cell);
    assert(x == 10 + a * r && y == 10 + b * q);
    assert(right_x == 10 + a * ((i + 1) % cols) && right_y == 10 + b * ((i + 1) / cols));
    assert((i + cols) / cols == q + 1 && (i + cols) % cols == r);
    assert(below_x == 10 + a * r && below_y == 10 + b * (q + 1));
    if i == 0 {
        assert(q == 0 && r == 0);
    }
}

/// A surface is drawn exactly if it has a place, above its blur, which is there
/// exactly if it is switched on for the surface.
pub proof fn surfaces_are_above_their_blur(config: Config, layer: Layer, facts: LayerFacts, at: int)
    requires
        0 <= at <= usize::MAX,
    ensures
        !facts.placed ==> surface_items(config, layer, facts, at).len() == 0,
        facts.placed ==> ({
            let items = surface_items(config, layer, facts, at);
            let blur = layer_blur(config.layer_rules@, config.blur, facts.namespace@, 0);
            &&& items[0] == (PlanItem::Surface { layer, index: at as usize })
            &&& blur.enable <==> items.len() == 2
            &&& !blur.enable <==> items.len() == 1
            &&& blur.enable ==> (items[1] matches PlanItem::SurfaceBlur { layer: l, index, options }
                && l == layer && index == at && options.passes == blur.passes && options.offset
                == blur.offset)
        }),
{
}

} // verus!
