//! The configuration: its types, its defaults, and the rules for windows.
use vstd::prelude::*;
use crate::animation::{Animation, AnimationValue, Curve, Spring, SpringParams, SpringTimes};
use crate::float::{F32, F64, ONE_BITS};
use crate::text::{contains, occurs, occurs_at, same};

pub mod api;
pub mod appearance;
pub mod load;
pub mod lua;
pub mod parse;
pub mod script;

verus! {

/// One environment variable for the session.
#[derive(Debug, PartialEq, Eq)]
pub struct EnvVar {
    pub name: String,
    pub value: String,
}

impl Clone for EnvVar {
    fn clone(&self) -> (r: EnvVar)
        ensures
            r == *self,
    {
        EnvVar { name: self.name.clone(), value: self.value.clone() }
    }
}

/// The environment variables of the session, each name once.
#[derive(Debug, PartialEq, Eq)]
pub struct EnvVars {
    pub vars: Vec<EnvVar>,
}

/// The mapping that a list of variables stands for.
pub open spec fn env_map(vars: Seq<EnvVar>) -> Map<Seq<char>, Seq<char>>
    decreases vars.len(),
{
    if vars.len() == 0 {
        Map::empty()
    } else {
        env_map(vars.drop_last()).insert(vars.last().name@, vars.last().value@)
    }
}

impl EnvVars {
    /// No name stands twice.
    pub open spec fn wf(self) -> bool {
        forall|i: int, j: int|
            0 <= i < j < self.vars@.len() ==> self.vars@[i].name@ != self.vars@[j].name@
    }

    pub open spec fn view(self) -> Map<Seq<char>, Seq<char>> {
        env_map(self.vars@)
    }

    pub fn new() -> (e: EnvVars)
        ensures
            e.wf(),
            e.vars@.len() == 0,
            e@ == Map::<Seq<char>, Seq<char>>::empty(),
    {
        EnvVars { vars: Vec::new() }
    }

    pub fn is_empty(&self) -> (r: bool)
        ensures
            r == (self@ == Map::<Seq<char>, Seq<char>>::empty()),
    {
        proof {
            if self.vars@.len() > 0 {
                assert(self@.dom().contains(self.vars@.last().name@));
            }
        }
        self.vars.len() == 0
    }

    /// Where a name stands, if it does.
    fn position(&self, name: &str) -> (r: Option<usize>)
        requires
            self.wf(),
        ensures
            match r {
                Some(i) => i < self.vars@.len() && self.vars@[i as int].name@ == name@,
                None => forall|i: int| 0 <= i < self.vars@.len() ==> self.vars@[i].name@ != name@,
            },
    {
        let mut i: usize = 0;
        while i < self.vars.len()
            invariant
                i <= self.vars@.len(),
                forall|k: int| 0 <= k < i ==> self.vars@[k].name@ != name@,
            decreases self.vars@.len() - i,
        {
            if same(&self.vars[i].name, name) {
                return Some(i);
            }
            i = i + 1;
        }
        None
    }

    /// The value of a variable.
    pub fn get(&self, name: &str) -> (r: Option<&String>)
        requires
            self.wf(),
        ensures
            match r {
                Some(v) => self@.dom().contains(name@) && self@[name@] == v@,
                None => !self@.dom().contains(name@),
            },
    {
        match self.position(name) {
            Some(i) => {
                proof {
                    env_map_at(self.vars@, i as int);
                }
                Some(&self.vars[i].value)
            },
            None => {
                proof {
                    env_map_lacks(self.vars@, name@);
                }
                None
            },
        }
    }

    /// Sets a variable, in place of what it was before.
    pub fn insert(&mut self, name: String, value: String)
        requires
            old(self).wf(),
        ensures
            final(self).wf(),
            final(self)@ == old(self)@.insert(name@, value@),
    {
        let ghost before = self.vars@;
        match self.position(&name) {
            Some(i) => {
                self.vars.set(i, EnvVar { name, value });
                proof {
                    env_map_updated(before, i as int, self.vars@[i as int]);
                }
            },
            None => {
                self.vars.push(EnvVar { name, value });
                proof {
                    assert(self.vars@.drop_last() == before);
                }
            },
        }
    }
}

proof fn env_map_lacks(vars: Seq<EnvVar>, name: Seq<char>)
    requires
        forall|i: int| 0 <= i < vars.len() ==> vars[i].name@ != name,
    ensures
        !env_map(vars).dom().contains(name),
    decreases vars.len(),
{
    if vars.len() > 0 {
        env_map_lacks(vars.drop_last(), name);
    }
}

proof fn env_map_at(vars: Seq<EnvVar>, at: int)
    requires
        0 <= at < vars.len(),
        forall|i: int, j: int| 0 <= i < j < vars.len() ==> vars[i].name@ != vars[j].name@,
    ensures
        env_map(vars).dom().contains(vars[at].name@),
        env_map(vars)[vars[at].name@] == vars[at].value@,
    decreases vars.len(),
{
    if at < vars.len() - 1 {
        env_map_at(vars.drop_last(), at);
    }
}

proof fn env_map_updated(vars: Seq<EnvVar>, at: int, var: EnvVar)
    requires
        0 <= at < vars.len(),
        forall|i: int, j: int| 0 <= i < j < vars.len() ==> vars[i].name@ != vars[j].name@,
        var.name@ == vars[at].name@,
    ensures
        env_map(vars.update(at, var)) == env_map(vars).insert(var.name@, var.value@),
    decreases vars.len(),
{
    let after = vars.update(at, var);
    if at < vars.len() - 1 {
        env_map_updated(vars.drop_last(), at, var);
        assert(after.drop_last() == vars.drop_last().update(at, var));
        assert(env_map(after) =~= env_map(vars).insert(var.name@, var.value@));
    } else {
        assert(after.drop_last() == vars.drop_last());
        assert(env_map(after) =~= env_map(vars).insert(var.name@, var.value@));
    }
}

impl Clone for EnvVars {
    fn clone(&self) -> (r: EnvVars)
        ensures
            r.vars@ == self.vars@,
    {
        EnvVars { vars: self.vars.clone() }
    }
}


#[derive(Clone, Copy, Debug, PartialEq, Eq, Structural)]
pub struct ModeConfig {
    pub width: i32,
    pub height: i32,
    pub refresh: Option<i32>,
}

#[derive(Debug, PartialEq, Eq)]
pub struct OutputConfig {
    pub name: String,
    pub mode: Option<ModeConfig>,
    pub position: Option<(i32, i32)>,
    pub scale: Option<F64>,
    pub transform: Option<String>,
}

fn clone_text(text: &Option<String>) -> (r: Option<String>)
    ensures
        r == *text,
{
    match text {
        Some(t) => Some(t.clone()),
        None => None,
    }
}

impl Clone for OutputConfig {
    fn clone(&self) -> (r: OutputConfig)
        ensures
            r == *self,
    {
        OutputConfig {
            name: self.name.clone(),
            mode: self.mode,
            position: self.position,
            scale: self.scale,
            transform: clone_text(&self.transform),
        }
    }
}

/// What a key binding does.
#[derive(Debug, PartialEq, Eq)]
pub enum BindAction {
    Quit,
    CloseWindow,
    Run(String),
    Screenshot,
    ToggleDecorations,
    TogglePreview,
    ScaleUp,
    ScaleDown,
    RotateOutput,
    ToggleTint,
    ToggleFloating,
    VtSwitch(i32),
    Screen(usize),
    /// Focus the next window in the layout (cycling).
    FocusNext,
    /// Focus the previous window in the layout (cycling).
    FocusPrev,
    /// Switch to the next workspace (creating it if needed).
    WorkspaceNext,
    /// Switch to the previous workspace.
    WorkspacePrev,
    /// Switch to a specific workspace index.
    Workspace(usize),
    /// Grow the focused window's column width.
    ResizeWidthUp,
    /// Shrink the focused window's column width.
    ResizeWidthDown,
    /// Toggle true fullscreen (XDG/X11 fullscreen state).
    ToggleFullscreen,
    /// Toggle windowed fullscreen: the focused window fills the work area.
    ToggleMaximize,
    /// Index into `LuaConfig::callbacks` for a custom Lua function.
    Callback(usize),
}

impl Clone for BindAction {
    fn clone(&self) -> (r: BindAction)
        ensures
            r == *self,
    {
        match self {
            BindAction::Quit => BindAction::Quit,
            BindAction::CloseWindow => BindAction::CloseWindow,
            BindAction::Run(command) => BindAction::Run(command.clone()),
            BindAction::Screenshot => BindAction::Screenshot,
            BindAction::ToggleDecorations => BindAction::ToggleDecorations,
            BindAction::TogglePreview => BindAction::TogglePreview,
            BindAction::ScaleUp => BindAction::ScaleUp,
            BindAction::ScaleDown => BindAction::ScaleDown,
            BindAction::RotateOutput => BindAction::RotateOutput,
            BindAction::ToggleTint => BindAction::ToggleTint,
            BindAction::ToggleFloating => BindAction::ToggleFloating,
            BindAction::VtSwitch(n) => BindAction::VtSwitch(*n),
            BindAction::Screen(n) => BindAction::Screen(*n),
            BindAction::FocusNext => BindAction::FocusNext,
            BindAction::FocusPrev => BindAction::FocusPrev,
            BindAction::WorkspaceNext => BindAction::WorkspaceNext,
            BindAction::WorkspacePrev => BindAction::WorkspacePrev,
            BindAction::Workspace(n) => BindAction::Workspace(*n),
            BindAction::ResizeWidthUp => BindAction::ResizeWidthUp,
            BindAction::ResizeWidthDown => BindAction::ResizeWidthDown,
            BindAction::ToggleFullscreen => BindAction::ToggleFullscreen,
            BindAction::ToggleMaximize => BindAction::ToggleMaximize,
            BindAction::Callback(n) => BindAction::Callback(*n),
        }
    }
}

/// A key with its modifiers, and what pressing them does.
#[derive(Debug, PartialEq, Eq)]
pub struct BindConfig {
    pub modifiers: Vec<String>,
    pub key: String,
    pub action: BindAction,
}

impl Clone for BindConfig {
    fn clone(&self) -> (r: BindConfig)
        ensures
            r.modifiers@ == self.modifiers@,
            r.key == self.key,
            r.action == self.action,
    {
        BindConfig {
            modifiers: self.modifiers.clone(),
            key: self.key.clone(),
            action: self.action.clone(),
        }
    }
}

impl BindConfig {
    /// Whether two bindings say the same.
    pub open spec fn agrees(self, other: BindConfig) -> bool {
        self.modifiers@ == other.modifiers@ && self.key == other.key && self.action == other.action
    }
}

#[derive(Debug, PartialEq, Eq)]
pub struct CursorConfig {
    pub theme: Option<String>,
    pub size: Option<u32>,
}

impl Clone for CursorConfig {
    fn clone(&self) -> (r: CursorConfig)
        ensures
            r == *self,
    {
        CursorConfig { theme: clone_text(&self.theme), size: self.size }
    }
}

/// Red, green, blue and opacity, each from 0 to 1.
#[derive(Clone, Copy, Debug, PartialEq, Eq, Structural)]
pub struct Color {
    pub r: F32,
    pub g: F32,
    pub b: F32,
    pub a: F32,
}

#[derive(Clone, Copy, Debug, PartialEq, Eq, Structural)]
pub struct CornerRadius {
    pub top_left: F32,
    pub top_right: F32,
    pub bottom_right: F32,
    pub bottom_left: F32,
}

impl CornerRadius {
    pub open spec fn all(radius: F32) -> CornerRadius {
        CornerRadius {
            top_left: radius,
            top_right: radius,
            bottom_right: radius,
            bottom_left: radius,
        }
    }

    /// The same radius at every corner.
    pub fn uniform(radius: F32) -> (r: CornerRadius)
        ensures
            r == CornerRadius::all(radius),
    {
        CornerRadius {
            top_left: radius,
            top_right: radius,
            bottom_right: radius,
            bottom_left: radius,
        }
    }

    /// The four radii, clockwise from the top left.
    pub fn to_array(&self) -> (a: [F32; 4])
        ensures
            a@ == seq![self.top_left, self.top_right, self.bottom_right, self.bottom_left],
    {
        [self.top_left, self.top_right, self.bottom_right, self.bottom_left]
    }
}

/// The bits of the single-precision number one.
pub const F32_ONE_BITS: u32 = 0x3F80_0000;

/// The bits of the single-precision number 0.3.
pub const F32_POINT_THREE_BITS: u32 = 0x3E99_999A;

/// The bits of the single-precision number 0.47.
pub const F32_POINT_FOUR_SEVEN_BITS: u32 = 0x3EF0_A3D7;

/// The bits of 0.8.
pub const POINT_EIGHT_BITS: u64 = 0x3FE9_9999_9999_999A;

/// The bits of 0.5.
pub const HALF_BITS: u64 = 0x3FE0_0000_0000_0000;

/// The bits of 5.
pub const FIVE_BITS: u64 = 0x4014_0000_0000_0000;

/// The bits of 8.
pub const EIGHT_BITS: u64 = 0x4020_0000_0000_0000;

/// The bits of 30.
pub const THIRTY_BITS: u64 = 0x403E_0000_0000_0000;

/// Black, fully opaque.
pub open spec fn opaque_black() -> Color {
    Color {
        r: F32 { bits: 0 },
        g: F32 { bits: 0 },
        b: F32 { bits: 0 },
        a: F32 { bits: F32_ONE_BITS },
    }
}

/// Dark grey, fully opaque.
pub open spec fn opaque_grey() -> Color {
    Color {
        r: F32 { bits: F32_POINT_THREE_BITS },
        g: F32 { bits: F32_POINT_THREE_BITS },
        b: F32 { bits: F32_POINT_THREE_BITS },
        a: F32 { bits: F32_ONE_BITS },
    }
}

/// Black, half transparent.
pub open spec fn faint_black() -> Color {
    Color {
        r: F32 { bits: 0 },
        g: F32 { bits: 0 },
        b: F32 { bits: 0 },
        a: F32 { bits: F32_POINT_FOUR_SEVEN_BITS },
    }
}

pub fn border_color() -> (c: Color)
    ensures
        c == opaque_black(),
{
    Color {
        r: F32 { bits: 0 },
        g: F32 { bits: 0 },
        b: F32 { bits: 0 },
        a: F32 { bits: F32_ONE_BITS },
    }
}

pub fn inactive_border_color() -> (c: Color)
    ensures
        c == opaque_grey(),
{
    Color {
        r: F32 { bits: F32_POINT_THREE_BITS },
        g: F32 { bits: F32_POINT_THREE_BITS },
        b: F32 { bits: F32_POINT_THREE_BITS },
        a: F32 { bits: F32_ONE_BITS },
    }
}

pub fn shadow_color() -> (c: Color)
    ensures
        c == faint_black(),
{
    Color {
        r: F32 { bits: 0 },
        g: F32 { bits: 0 },
        b: F32 { bits: 0 },
        a: F32 { bits: F32_POINT_FOUR_SEVEN_BITS },
    }
}

#[derive(Clone, Copy, Debug, PartialEq, Eq, Structural)]
pub struct BorderConfig {
    pub width: F64,
    pub color: Color,
    pub inactive_color: Color,
}

impl BorderConfig {
    pub open spec fn standard() -> BorderConfig {
        BorderConfig {
            width: F64 { bits: 0 },
            color: opaque_black(),
            inactive_color: opaque_grey(),
        }
    }
}

impl Default for BorderConfig {
    fn default() -> (r: BorderConfig)
        ensures
            r == BorderConfig::standard(),
    {
        BorderConfig {
            width: F64 { bits: 0 },
            color: border_color(),
            inactive_color: inactive_border_color(),
        }
    }
}

#[derive(Clone, Copy, Debug, PartialEq, Eq, Structural)]
pub struct ShadowConfig {
    pub enable: bool,
    pub offset_x: F64,
    pub offset_y: F64,
    pub softness: F64,
    pub spread: F64,
    pub color: Color,
}

impl ShadowConfig {
    pub open spec fn standard() -> ShadowConfig {
        ShadowConfig {
            enable: false,
            offset_x: F64 { bits: 0 },
            offset_y: F64 { bits: FIVE_BITS },
            softness: F64 { bits: THIRTY_BITS },
            spread: F64 { bits: FIVE_BITS },
            color: faint_black(),
        }
    }
}

impl Default for ShadowConfig {
    fn default() -> (r: ShadowConfig)
        ensures
            r == ShadowConfig::standard(),
    {
        ShadowConfig {
            enable: false,
            offset_x: F64 { bits: 0 },
            offset_y: F64 { bits: FIVE_BITS },
            softness: F64 { bits: THIRTY_BITS },
            spread: F64 { bits: FIVE_BITS },
            color: shadow_color(),
        }
    }
}

#[derive(Clone, Copy, Debug, PartialEq, Eq, Structural)]
pub struct BlurConfig {
    pub enable: bool,
    pub passes: u8,
    pub offset: F64,
    pub xray: bool,
}

impl BlurConfig {
    pub open spec fn standard() -> BlurConfig {
        BlurConfig { enable: true, passes: 2, offset: F64 { bits: ONE_BITS }, xray: false }
    }
}

impl Default for BlurConfig {
    fn default() -> (r: BlurConfig)
        ensures
            r == BlurConfig::standard(),
    {
        BlurConfig { enable: true, passes: 2, offset: F64 { bits: ONE_BITS }, xray: false }
    }
}

#[derive(Debug, PartialEq, Eq)]
pub struct WindowConfig {
    pub prefer_no_csd: bool,
    pub border: BorderConfig,
    pub shadow: ShadowConfig,
    pub corner_radius: CornerRadius,
    pub resize_modifier: String,
    /// Whether the window floats freely (not managed by the layout engine).
    pub floating: bool,
    /// Name of a custom shader applied to this window.
    pub shader: Option<String>,
}

impl WindowConfig {
    /// The settings that hold where nothing else is said.
    pub open spec fn is_standard(self) -> bool {
        &&& self.prefer_no_csd
        &&& self.border == BorderConfig::standard()
        &&& self.shadow == ShadowConfig::standard()
        &&& self.corner_radius == CornerRadius::all(F32 { bits: 0 })
        &&& self.resize_modifier@ == "Ctrl"@
        &&& !self.floating
        &&& self.shader is None
    }
}

impl Clone for WindowConfig {
    fn clone(&self) -> (r: WindowConfig)
        ensures
            r == *self,
    {
        WindowConfig {
            prefer_no_csd: self.prefer_no_csd,
            border: self.border,
            shadow: self.shadow,
            corner_radius: self.corner_radius,
            resize_modifier: self.resize_modifier.clone(),
            floating: self.floating,
            shader: clone_text(&self.shader),
        }
    }
}

impl Default for WindowConfig {
    fn default() -> (r: WindowConfig)
        ensures
            r.is_standard(),
    {
        WindowConfig {
            prefer_no_csd: true,
            border: BorderConfig::default(),
            shadow: ShadowConfig::default(),
            corner_radius: CornerRadius::uniform(F32 { bits: 0 }),
            resize_modifier: "Ctrl".to_owned(),
            floating: false,
            shader: None,
        }
    }
}

/// Partial window config used in window rules: only fields that are there
/// override the corresponding global values.
#[derive(Debug, PartialEq, Eq)]
pub struct PartialWindowConfig {
    pub prefer_no_csd: Option<bool>,
    pub border: Option<BorderConfig>,
    pub shadow: Option<ShadowConfig>,
    pub corner_radius: Option<CornerRadius>,
    pub resize_modifier: Option<String>,
    pub floating: Option<bool>,
    pub shader: Option<String>,
}

/// What `over` says, or else `base`.
pub open spec fn or_base<T>(over: Option<T>, base: T) -> T {
    match over {
        Some(value) => value,
        None => base,
    }
}

impl PartialWindowConfig {
    pub open spec fn merged(self, base: WindowConfig) -> WindowConfig {
        WindowConfig {
            prefer_no_csd: or_base(self.prefer_no_csd, base.prefer_no_csd),
            border: or_base(self.border, base.border),
            shadow: or_base(self.shadow, base.shadow),
            corner_radius: or_base(self.corner_radius, base.corner_radius),
            resize_modifier: or_base(self.resize_modifier, base.resize_modifier),
            floating: or_base(self.floating, base.floating),
            shader: if self.shader is Some {
                self.shader
            } else {
                base.shader
            },
        }
    }

    /// Applies this partial config on top of a base config.
    pub fn merge_over(&self, base: &WindowConfig) -> (r: WindowConfig)
        ensures
            r == self.merged(*base),
    {
        WindowConfig {
            prefer_no_csd: match self.prefer_no_csd {
                Some(v) => v,
                None => base.prefer_no_csd,
            },
            border: match self.border {
                Some(v) => v,
                None => base.border,
            },
            shadow: match self.shadow {
                Some(v) => v,
                None => base.shadow,
            },
            corner_radius: match self.corner_radius {
                Some(v) => v,
                None => base.corner_radius,
            },
            resize_modifier: match &self.resize_modifier {
                Some(v) => v.clone(),
                None => base.resize_modifier.clone(),
            },
            floating: match self.floating {
                Some(v) => v,
                None => base.floating,
            },
            shader: match &self.shader {
                Some(v) => Some(v.clone()),
                None => clone_text(&base.shader),
            },
        }
    }

    /// A config that overrides nothing.
    pub open spec fn is_empty(self) -> bool {
        &&& self.prefer_no_csd is None
        &&& self.border is None
        &&& self.shadow is None
        &&& self.corner_radius is None
        &&& self.resize_modifier is None
        &&& self.floating is None
        &&& self.shader is None
    }
}

/// A partial config without fields leaves the base as it is, and applying one
/// twice is applying it once.
pub proof fn merge_over_laws(partial: PartialWindowConfig, base: WindowConfig)
    ensures
        partial.is_empty() ==> partial.merged(base) == base,
        partial.merged(partial.merged(base)) == partial.merged(base),
{
}

impl Clone for PartialWindowConfig {
    fn clone(&self) -> (r: PartialWindowConfig)
        ensures
            r == *self,
    {
        PartialWindowConfig {
            prefer_no_csd: self.prefer_no_csd,
            border: self.border,
            shadow: self.shadow,
            corner_radius: self.corner_radius,
            resize_modifier: clone_text(&self.resize_modifier),
            floating: self.floating,
            shader: clone_text(&self.shader),
        }
    }
}

impl Default for PartialWindowConfig {
    fn default() -> (r: PartialWindowConfig)
        ensures
            r.is_empty(),
    {
        PartialWindowConfig {
            prefer_no_csd: None,
            border: None,
            shadow: None,
            corner_radius: None,
            resize_modifier: None,
            floating: None,
            shader: None,
        }
    }
}

/// Blur override within a rule.
#[derive(Clone, Copy, Debug, PartialEq, Eq, Structural)]
pub struct BlurOverride {
    pub enable: bool,
    pub passes: Option<u8>,
    pub offset: Option<F64>,
    pub xray: Option<bool>,
}

/// Rule that matches windows by app id and title and applies overrides.
#[derive(Debug, PartialEq, Eq)]
pub struct WindowRule {
    /// Match by app id (substring match). None means match any.
    pub app_id: Option<String>,
    /// Match by title (substring match). None means match any.
    pub title: Option<String>,
    /// Override window settings.
    pub window: Option<PartialWindowConfig>,
    /// Override blur settings for matching windows.
    pub blur: Option<BlurOverride>,
}

/// Whether a text matches a pattern: no pattern matches anything, a pattern
/// matches the texts that it occurs in.
pub open spec fn pattern_matches(pattern: Option<String>, text: Option<Seq<char>>) -> bool {
    match pattern {
        Some(p) => text is Some && occurs(text->0, p@),
        None => true,
    }
}

/// The characters of a text that may be missing.
pub open spec fn chars(text: Option<&str>) -> Option<Seq<char>> {
    match text {
        Some(t) => Some(t@),
        None => None,
    }
}

/// Whether a text matches a pattern.
pub fn matches_pattern(pattern: &Option<String>, text: Option<&str>) -> (r: bool)
    ensures
        r == pattern_matches(*pattern, chars(text)),
{
    match pattern {
        Some(p) => match text {
            Some(t) => contains(t, p),
            None => false,
        },
        None => true,
    }
}

impl WindowRule {
    pub open spec fn applies(self, app_id: Option<Seq<char>>, title: Option<Seq<char>>) -> bool {
        pattern_matches(self.app_id, app_id) && pattern_matches(self.title, title)
    }

    /// Whether the rule is about a window.
    pub fn matches(&self, app_id: Option<&str>, title: Option<&str>) -> (r: bool)
        ensures
            r == self.applies(chars(app_id), chars(title)),
    {
        matches_pattern(&self.app_id, app_id) && matches_pattern(&self.title, title)
    }
}

impl Clone for WindowRule {
    fn clone(&self) -> (r: WindowRule)
        ensures
            r == *self,
    {
        WindowRule {
            app_id: clone_text(&self.app_id),
            title: clone_text(&self.title),
            window: match &self.window {
                Some(w) => Some(w.clone()),
                None => None,
            },
            blur: self.blur,
        }
    }
}

/// Rule that matches layer-shell surfaces by namespace and applies overrides.
#[derive(Debug, PartialEq, Eq)]
pub struct LayerRule {
    /// Match by namespace (substring match). None means match any.
    pub namespace: Option<String>,
    /// Override blur settings for matching layer surfaces.
    pub blur: Option<BlurOverride>,
}

impl Clone for LayerRule {
    fn clone(&self) -> (r: LayerRule)
        ensures
            r == *self,
    {
        LayerRule { namespace: clone_text(&self.namespace), blur: self.blur }
    }
}

/// Easing curve type for animations.
#[derive(Clone, Copy, Debug, PartialEq, Eq, Structural)]
pub enum AnimCurve {
    Linear,
    EaseOutQuad,
    EaseOutCubic,
    EaseOutExpo,
    CubicBezier(F64, F64, F64, F64),
}

impl AnimCurve {
    pub open spec fn curve(self) -> Curve {
        match self {
            AnimCurve::Linear => Curve::Linear,
            AnimCurve::EaseOutQuad => Curve::EaseOutQuad,
            AnimCurve::EaseOutCubic => Curve::EaseOutCubic,
            AnimCurve::EaseOutExpo => Curve::EaseOutExpo,
            AnimCurve::CubicBezier(x1, y1, x2, y2) => Curve::CubicBezier { x1, y1, x2, y2 },
        }
    }

    /// The curve that an animation runs on.
    pub fn to_curve(self) -> (c: Curve)
        ensures
            c == self.curve(),
    {
        match self {
            AnimCurve::Linear => Curve::Linear,
            AnimCurve::EaseOutQuad => Curve::EaseOutQuad,
            AnimCurve::EaseOutCubic => Curve::EaseOutCubic,
            AnimCurve::EaseOutExpo => Curve::EaseOutExpo,
            AnimCurve::CubicBezier(x1, y1, x2, y2) => Curve::CubicBezier { x1, y1, x2, y2 },
        }
    }
}

/// Per-animation config for window open and close.
#[derive(Clone, Copy, Debug, PartialEq, Eq, Structural)]
pub struct WindowAnimConfig {
    /// Enable this specific animation.
    pub enable: bool,
    /// Duration in milliseconds.
    pub duration_ms: u32,
    /// Easing curve.
    pub curve: AnimCurve,
    /// Scale factor at the start of the animation, for open; at its end, for close.
    pub scale: F64,
}

/// Animation configuration.
#[derive(Clone, Copy, Debug, PartialEq, Eq, Structural)]
pub struct AnimationsConfig {
    /// Globally enable all animations.
    pub enable: bool,
    /// Window open animation config.
    pub window_open: WindowAnimConfig,
    /// Window close animation config.
    pub window_close: WindowAnimConfig,
    /// Workspace-switch fade animation config.
    pub workspace_switch: WindowAnimConfig,
}

impl AnimationsConfig {
    pub open spec fn standard() -> AnimationsConfig {
        AnimationsConfig {
            enable: true,
            window_open: WindowAnimConfig {
                enable: true,
                duration_ms: 250,
                curve: AnimCurve::EaseOutCubic,
                scale: F64 { bits: POINT_EIGHT_BITS },
            },
            window_close: WindowAnimConfig {
                enable: true,
                duration_ms: 250,
                curve: AnimCurve::EaseOutCubic,
                scale: F64 { bits: 0 },
            },
            workspace_switch: WindowAnimConfig {
                enable: true,
                duration_ms: 200,
                curve: AnimCurve::EaseOutCubic,
                scale: F64 { bits: ONE_BITS },
            },
        }
    }
}

impl Default for AnimationsConfig {
    fn default() -> (r: AnimationsConfig)
        ensures
            r == AnimationsConfig::standard(),
    {
        AnimationsConfig {
            enable: true,
            window_open: WindowAnimConfig {
                enable: true,
                duration_ms: 250,
                curve: AnimCurve::EaseOutCubic,
                scale: F64 { bits: POINT_EIGHT_BITS },
            },
            window_close: WindowAnimConfig {
                enable: true,
                duration_ms: 250,
                curve: AnimCurve::EaseOutCubic,
                scale: F64 { bits: 0 },
            },
            workspace_switch: WindowAnimConfig {
                enable: true,
                duration_ms: 200,
                curve: AnimCurve::EaseOutCubic,
                scale: F64 { bits: ONE_BITS },
            },
        }
    }
}

/// A generic animation specifier: off, an easing curve, or a spring.
#[derive(Clone, Copy, Debug, PartialEq, Eq, Structural)]
pub enum AnimConfig {
    /// No animation: values snap instantly.
    Off,
    /// An easing curve with a duration.
    Curve { duration_ms: u32, curve: AnimCurve },
    /// A spring with the given parameters.
    Spring { damping_ratio: F64, stiffness: F64, epsilon: F64 },
}

impl AnimConfig {
    /// The spring between two values that starts at rest.
    pub open spec fn resting_spring(from: F64, to: F64, params: SpringParams) -> Spring {
        Spring { from, to, initial_velocity: F64 { bits: 0 }, params }
    }

    pub open spec fn animation(
        self,
        from: F64,
        to: F64,
        times: SpringTimes,
        now: u128,
    ) -> Animation {
        match self {
            AnimConfig::Off => Animation { from, to, ..Animation::off(now) },
            AnimConfig::Curve { duration_ms, curve } => Animation::eased(
                from,
                to,
                duration_ms,
                curve.curve(),
                now,
            ),
            AnimConfig::Spring { damping_ratio, stiffness, epsilon } => Animation::sprung(
                from,
                to,
                AnimConfig::resting_spring(
                    from,
                    to,
                    SpringParams { damping_ratio, stiffness, epsilon },
                ),
                times,
                now,
            ),
        }
    }

    /// The animation between two values that starts at `now`; one that is off is
    /// at its end at once. `times` are those of the spring, and are read only for
    /// one.
    pub fn to_animation(&self, from: F64, to: F64, times: SpringTimes, now: u128) -> (a: Animation)
        ensures
            a == self.animation(from, to, times, now),
    {
        match *self {
            AnimConfig::Off => Animation { from, to, ..Animation::new_off(now) },
            AnimConfig::Curve { duration_ms, curve } => Animation::ease(
                from,
                to,
                duration_ms,
                curve.to_curve(),
                now,
            ),
            AnimConfig::Spring { damping_ratio, stiffness, epsilon } => {
                let spring = Spring {
                    from,
                    to,
                    initial_velocity: F64 { bits: 0 },
                    params: SpringParams { damping_ratio, stiffness, epsilon },
                };
                Animation::spring(from, to, spring, times, now)
            },
        }
    }
}

/// Every animation runs between the values that it is asked for, and one that is
/// off is over at once, at the end.
pub proof fn animations_run_between(
    config: AnimConfig,
    from: F64,
    to: F64,
    times: SpringTimes,
    now: u128,
)
    ensures
        ({
            let a = config.animation(from, to, times, now);
            &&& a.from == from && a.to == to
            &&& config is Off ==> a.done_at(now) && a.value_now(now) == (AnimationValue::Exact {
                value: to,
            })
        }),
{
}

/// Built-in or user-defined layout engine.
#[derive(Clone, Copy, Debug, PartialEq, Eq, Structural)]
pub enum LayoutType {
    /// No layout: windows float freely.
    Floating,
    /// Vertical columns, one window per column.
    Columns,
    /// Uniform grid, filling rows left to right.
    Grid,
    /// One master window on the left plus a stack of the rest on the right.
    MasterStack,
    /// All windows maximized to the work area.
    Maximize,
    /// A user-defined Lua function (see `LayoutConfig::custom_fn`).
    Custom,
}

/// Output work-area margins.
#[derive(Clone, Copy, Debug, PartialEq, Eq, Structural)]
pub struct Margins {
    pub top: F64,
    pub bottom: F64,
    pub left: F64,
    pub right: F64,
}

impl Margins {
    pub open spec fn none() -> Margins {
        Margins {
            top: F64 { bits: 0 },
            bottom: F64 { bits: 0 },
            left: F64 { bits: 0 },
            right: F64 { bits: 0 },
        }
    }
}

impl Default for Margins {
    fn default() -> (r: Margins)
        ensures
            r == Margins::none(),
    {
        Margins {
            top: F64 { bits: 0 },
            bottom: F64 { bits: 0 },
            left: F64 { bits: 0 },
            right: F64 { bits: 0 },
        }
    }
}

/// Animation configuration for layout adjustments.
#[derive(Clone, Copy, Debug, PartialEq, Eq, Structural)]
pub struct LayoutAnimConfig {
    /// Animation used when windows move to new positions.
    pub move_anim: AnimConfig,
    /// Animation used when windows change size.
    pub resize_anim: AnimConfig,
}

impl LayoutAnimConfig {
    pub open spec fn standard() -> LayoutAnimConfig {
        LayoutAnimConfig {
            move_anim: AnimConfig::Curve { duration_ms: 250, curve: AnimCurve::EaseOutCubic },
            resize_anim: AnimConfig::Curve { duration_ms: 200, curve: AnimCurve::EaseOutCubic },
        }
    }
}

impl Default for LayoutAnimConfig {
    fn default() -> (r: LayoutAnimConfig)
        ensures
            r == LayoutAnimConfig::standard(),
    {
        LayoutAnimConfig {
            move_anim: AnimConfig::Curve { duration_ms: 250, curve: AnimCurve::EaseOutCubic },
            resize_anim: AnimConfig::Curve { duration_ms: 200, curve: AnimCurve::EaseOutCubic },
        }
    }
}

/// The tiling layout configuration.
#[derive(Clone, Copy, Debug, PartialEq, Eq, Structural)]
pub struct LayoutConfig {
    pub layout: LayoutType,
    /// Gap between windows, in logical pixels.
    pub gap: F64,
    /// Margins around the work area.
    pub margins: Margins,
    /// Fraction of the work area taken by the master in `MasterStack`.
    pub master_ratio: F64,
    /// Animation used for layout adjustments.
    pub animation: LayoutAnimConfig,
    /// Index into `LuaConfig::callbacks` for a custom layout function
    /// (used when `layout` is `LayoutType::Custom`).
    pub custom_fn: Option<usize>,
}

impl LayoutConfig {
    pub open spec fn standard() -> LayoutConfig {
        LayoutConfig {
            layout: LayoutType::Floating,
            gap: F64 { bits: EIGHT_BITS },
            margins: Margins::none(),
            master_ratio: F64 { bits: HALF_BITS },
            animation: LayoutAnimConfig::standard(),
            custom_fn: None,
        }
    }
}

impl Default for LayoutConfig {
    fn default() -> (r: LayoutConfig)
        ensures
            r == LayoutConfig::standard(),
    {
        LayoutConfig {
            layout: LayoutType::Floating,
            gap: F64 { bits: EIGHT_BITS },
            margins: Margins::default(),
            master_ratio: F64 { bits: HALF_BITS },
            animation: LayoutAnimConfig::default(),
            custom_fn: None,
        }
    }
}

/// How a custom shader fragment is applied.
#[derive(Clone, Copy, Debug, PartialEq, Eq, Structural)]
pub enum CustomShaderKind {
    /// The fragment is a `vec4 postprocess(vec4 color)` function, wrapped in the
    /// standard texture pipeline.
    PostProcess,
    /// The fragment is a complete shader.
    Full,
}

/// The value of a shader uniform.
#[derive(Clone, Copy, Debug, PartialEq, Eq, Structural)]
pub enum UniformValue {
    Int(i32),
    Float(F32),
    Vec2(F32, F32),
    Vec3(F32, F32, F32),
    Vec4(F32, F32, F32, F32),
}

/// A single shader uniform parameter.
#[derive(Debug, PartialEq, Eq)]
pub struct ShaderUniform {
    pub name: String,
    pub value: UniformValue,
}

impl Clone for ShaderUniform {
    fn clone(&self) -> (r: ShaderUniform)
        ensures
            r == *self,
    {
        ShaderUniform { name: self.name.clone(), value: self.value }
    }
}

/// A user-defined shader.
#[derive(Debug, PartialEq, Eq)]
pub struct CustomShaderConfig {
    pub name: String,
    pub kind: CustomShaderKind,
    /// GLSL fragment source.
    pub fragment: String,
    /// Static uniform parameters to upload with the shader.
    pub uniforms: Vec<ShaderUniform>,
}

impl CustomShaderConfig {
    /// Whether two shaders are the same.
    pub open spec fn agrees(self, other: CustomShaderConfig) -> bool {
        &&& self.name == other.name
        &&& self.kind == other.kind
        &&& self.fragment == other.fragment
        &&& self.uniforms@ == other.uniforms@
    }
}

impl Clone for CustomShaderConfig {
    fn clone(&self) -> (r: CustomShaderConfig)
        ensures
            r.agrees(*self),
    {
        CustomShaderConfig {
            name: self.name.clone(),
            kind: self.kind,
            fragment: self.fragment.clone(),
            uniforms: self.uniforms.clone(),
        }
    }
}

/// The functions that the configuration script left behind, by handle, for
/// `BindAction::Callback` and for custom layouts.
#[derive(Debug, PartialEq, Eq)]
pub struct LuaConfig {
    pub callbacks: Vec<u64>,
}

/// Why a callback cannot be called.
#[derive(Clone, Copy, Debug, PartialEq, Eq, Structural)]
pub struct OutOfBounds {
    pub index: usize,
    pub count: usize,
}

impl LuaConfig {
    /// The handle of the callback with this index.
    pub fn callback(&self, idx: usize) -> (r: Result<u64, OutOfBounds>)
        ensures
            r == (if idx < self.callbacks@.len() {
                Ok::<u64, OutOfBounds>(self.callbacks@[idx as int])
            } else {
                Err(OutOfBounds { index: idx, count: self.callbacks@.len() as usize })
            }),
    {
        if idx < self.callbacks.len() {
            Ok(self.callbacks[idx])
        } else {
            Err(OutOfBounds { index: idx, count: self.callbacks.len() })
        }
    }
}

#[derive(Debug, PartialEq, Eq)]
pub struct Config {
    pub outputs: Vec<OutputConfig>,
    pub binds: Vec<BindConfig>,
    pub env: EnvVars,
    pub cursor: CursorConfig,
    pub window: WindowConfig,
    pub blur: BlurConfig,
    pub animations: AnimationsConfig,
    pub layout: LayoutConfig,
    pub custom_shaders: Vec<CustomShaderConfig>,
    pub window_rules: Vec<WindowRule>,
    pub layer_rules: Vec<LayerRule>,
    pub init_commands: Vec<String>,
    pub init_shell_commands: Vec<String>,
    /// Counter bumped on every config load and reload; compiled custom shaders
    /// of another generation are stale.
    pub shader_gen: u64,
    /// Callbacks of the script. Not cloned: a new config brings its own.
    pub lua_config: Option<LuaConfig>,
}

/// Whether two lists of bindings say the same.
pub open spec fn same_binds(a: Seq<BindConfig>, b: Seq<BindConfig>) -> bool {
    a.len() == b.len() && forall|i: int| 0 <= i < a.len() ==> #[trigger] a[i].agrees(b[i])
}

/// Whether two lists of shaders are the same.
pub open spec fn same_shaders(a: Seq<CustomShaderConfig>, b: Seq<CustomShaderConfig>) -> bool {
    a.len() == b.len() && forall|i: int| 0 <= i < a.len() ==> #[trigger] a[i].agrees(b[i])
}

impl Config {
    /// Whether two configs have the same settings, callbacks aside.
    pub open spec fn same_settings(self, other: Config) -> bool {
        &&& self.outputs@ == other.outputs@
        &&& same_binds(self.binds@, other.binds@)
        &&& self.env.vars@ == other.env.vars@
        &&& self.cursor == other.cursor
        &&& self.window == other.window
        &&& self.blur == other.blur
        &&& self.animations == other.animations
        &&& self.layout == other.layout
        &&& same_shaders(self.custom_shaders@, other.custom_shaders@)
        &&& self.window_rules@ == other.window_rules@
        &&& self.layer_rules@ == other.layer_rules@
        &&& self.init_commands@ == other.init_commands@
        &&& self.init_shell_commands@ == other.init_shell_commands@
        &&& self.shader_gen == other.shader_gen
    }

    /// Everything but the bindings is as it is where nothing is configured.
    pub open spec fn standard_but_binds(self) -> bool {
        &&& self.outputs@.len() == 0
        &&& self.env.vars@.len() == 0
        &&& self.cursor == (CursorConfig { theme: None, size: None })
        &&& self.window.is_standard()
        &&& self.blur == BlurConfig::standard()
        &&& self.animations == AnimationsConfig::standard()
        &&& self.layout == LayoutConfig::standard()
        &&& self.custom_shaders@.len() == 0
        &&& self.window_rules@.len() == 0
        &&& self.layer_rules@.len() == 0
        &&& self.init_commands@.len() == 0
        &&& self.init_shell_commands@.len() == 0
        &&& self.shader_gen == 0
        &&& self.lua_config is None
    }

    /// The built-in bindings.
    pub open spec fn has_standard_binds(self) -> bool {
        let b = self.binds@;
        &&& b.len() == 14
        &&& b[0].on(seq!["Ctrl"@, "Alt"@], "BackSpace"@) && b[0].action is Quit
        &&& b[1].on(seq!["Super"@], "q"@) && b[1].action is Quit
        &&& b[2].on(seq!["Super"@], "c"@) && b[2].action is CloseWindow
        &&& b[3].on(seq!["Super"@], "Return"@)
        &&& b[3].action matches BindAction::Run(command)
        &&& command@ == "weston-terminal"@
        &&& b[4].on(seq!["Super"@, "Shift"@], "s"@) && b[4].action is Screenshot
        &&& b[5].on(seq!["Super"@, "Shift"@], "d"@) && b[5].action is ToggleDecorations
        &&& b[6].on(seq!["Super"@, "Shift"@], "w"@) && b[6].action is TogglePreview
        &&& b[7].on(seq!["Super"@, "Shift"@], "p"@) && b[7].action is ScaleUp
        &&& b[8].on(seq!["Super"@, "Shift"@], "m"@) && b[8].action is ScaleDown
        &&& b[9].on(seq!["Super"@, "Shift"@], "r"@) && b[9].action is RotateOutput
        &&& b[10].on(seq!["Super"@, "Shift"@], "t"@) && b[10].action is ToggleTint
        &&& b[11].on(seq!["Super"@], "1"@) && b[11].action == BindAction::Screen(0)
        &&& b[12].on(seq!["Super"@], "2"@) && b[12].action == BindAction::Screen(1)
        &&& b[13].on(seq!["Super"@], "3"@) && b[13].action == BindAction::Screen(2)
    }

    pub open spec fn is_standard(self) -> bool {
        self.standard_but_binds() && self.has_standard_binds()
    }
}

impl BindConfig {
    /// Whether the binding is on this key with these modifiers.
    pub open spec fn on(self, modifiers: Seq<Seq<char>>, key: Seq<char>) -> bool {
        &&& self.modifiers@.len() == modifiers.len()
        &&& forall|i: int| 0 <= i < modifiers.len() ==> (#[trigger] self.modifiers@[i])@ == modifiers[i]
        &&& self.key@ == key
    }
}

fn bind_one(modifier: &str, key: &str, action: BindAction) -> (b: BindConfig)
    ensures
        b.on(seq![modifier@], key@),
        b.action == action,
{
    BindConfig { modifiers: vec![modifier.to_owned()], key: key.to_owned(), action }
}

fn bind_two(first: &str, second: &str, key: &str, action: BindAction) -> (b: BindConfig)
    ensures
        b.on(seq![first@, second@], key@),
        b.action == action,
{
    BindConfig {
        modifiers: vec![first.to_owned(), second.to_owned()],
        key: key.to_owned(),
        action,
    }
}

impl Default for Config {
    fn default() -> (r: Config)
        ensures
            r.is_standard(),
    {
        Config {
            outputs: Vec::new(),
            binds: vec![
                bind_two("Ctrl", "Alt", "BackSpace", BindAction::Quit),
                bind_one("Super", "q", BindAction::Quit),
                bind_one("Super", "c", BindAction::CloseWindow),
                bind_one("Super", "Return", BindAction::Run("weston-terminal".to_owned())),
                bind_two("Super", "Shift", "s", BindAction::Screenshot),
                bind_two("Super", "Shift", "d", BindAction::ToggleDecorations),
                bind_two("Super", "Shift", "w", BindAction::TogglePreview),
                bind_two("Super", "Shift", "p", BindAction::ScaleUp),
                bind_two("Super", "Shift", "m", BindAction::ScaleDown),
                bind_two("Super", "Shift", "r", BindAction::RotateOutput),
                bind_two("Super", "Shift", "t", BindAction::ToggleTint),
                bind_one("Super", "1", BindAction::Screen(0)),
                bind_one("Super", "2", BindAction::Screen(1)),
                bind_one("Super", "3", BindAction::Screen(2)),
            ],
            env: EnvVars::new(),
            cursor: CursorConfig { theme: None, size: None },
            window: WindowConfig::default(),
            blur: BlurConfig::default(),
            animations: AnimationsConfig::default(),
            layout: LayoutConfig::default(),
            custom_shaders: Vec::new(),
            window_rules: Vec::new(),
            layer_rules: Vec::new(),
            init_commands: Vec::new(),
            init_shell_commands: Vec::new(),
            shader_gen: 0,
            lua_config: None,
        }
    }
}

impl Clone for Config {
    /// The same settings, without the callbacks.
    fn clone(&self) -> (r: Config)
        ensures
            r.same_settings(*self),
            r.lua_config is None,
    {
        Config {
            outputs: self.outputs.clone(),
            binds: self.binds.clone(),
            env: self.env.clone(),
            cursor: self.cursor.clone(),
            window: self.window.clone(),
            blur: self.blur,
            animations: self.animations,
            layout: self.layout,
            custom_shaders: self.custom_shaders.clone(),
            window_rules: self.window_rules.clone(),
            layer_rules: self.layer_rules.clone(),
            init_commands: self.init_commands.clone(),
            init_shell_commands: self.init_shell_commands.clone(),
            shader_gen: self.shader_gen,
            lua_config: None,
        }
    }
}

/// The position of the first rule that is about a window.
pub open spec fn first_rule(
    rules: Seq<WindowRule>,
    app_id: Option<Seq<char>>,
    title: Option<Seq<char>>,
    at: int,
) -> bool {
    &&& 0 <= at < rules.len()
    &&& rules[at].applies(app_id, title)
    &&& forall|i: int| 0 <= i < at ==> !(#[trigger] rules[i]).applies(app_id, title)
}

impl Config {
    /// The first window rule that matches the given app id and title.
    pub fn find_window_rule(&self, app_id: Option<&str>, title: Option<&str>) -> (r: Option<
        &WindowRule,
    >)
        ensures
            match r {
                Some(rule) => exists|at: int|
                    first_rule(self.window_rules@, chars(app_id), chars(title), at)
                        && *rule == self.window_rules@[at],
                None => forall|i: int|
                    0 <= i < self.window_rules@.len() ==> !(#[trigger] self.window_rules@[i]).applies(
                        chars(app_id),
                        chars(title),
                    ),
            },
    {
        let mut i: usize = 0;
        while i < self.window_rules.len()
            invariant
                i <= self.window_rules@.len(),
                forall|k: int|
                    0 <= k < i ==> !(#[trigger] self.window_rules@[k]).applies(
                        chars(app_id),
                        chars(title),
                    ),
            decreases self.window_rules@.len() - i,
        {
            if self.window_rules[i].matches(app_id, title) {
                assert(first_rule(self.window_rules@, chars(app_id), chars(title), i as int));
                return Some(&self.window_rules[i]);
            }
            i = i + 1;
        }
        None
    }
}

// ---- laws ----

/// A pattern holds for a text exactly if the text has it somewhere; no pattern
/// holds for everything, also where there is no text.
pub proof fn patterns_are_parts_of_texts(pattern: Option<String>, text: Option<Seq<char>>)
    ensures
        pattern is None ==> pattern_matches(pattern, text),
        pattern is Some && text is None ==> !pattern_matches(pattern, text),
        pattern is Some && text is Some ==> (pattern_matches(pattern, text) <==> exists|
            a: Seq<char>,
            b: Seq<char>,
        |
            text->0 == #[trigger] (a + pattern->0@ + b)),
{
    if pattern is Some && text is Some {
        let p = pattern->0@;
        let t = text->0;
        if pattern_matches(pattern, text) {
            let at = choose|at: int| occurs_at(t, p, at);
            let a = t.take(at);
            let b = t.skip(at + p.len());
            assert(t =~= a + p + b) by {
                assert forall|i: int| 0 <= i < t.len() implies t[i] == (a + p + b)[i] by {
                    if at <= i < at + p.len() {
                        assert(t.subrange(at, at + p.len())[i - at] == t[i]);
                    }
                }
            }
        }
        if exists|a: Seq<char>, b: Seq<char>| t == #[trigger] (a + p + b) {
            let (a, b) = choose|a: Seq<char>, b: Seq<char>| t == #[trigger] (a + p + b);
            assert(t.subrange(a.len() as int, (a.len() + p.len()) as int) =~= p);
            assert(occurs_at(t, p, a.len() as int));
        }
    }
}

/// A rule is for a window exactly if both its patterns are: the one for the
/// application holds for the application, the one for the title for the title.
pub proof fn rules_need_both_patterns(
    rule: WindowRule,
    app_id: Option<Seq<char>>,
    title: Option<Seq<char>>,
)
    ensures
        rule.app_id is None && rule.title is None ==> rule.applies(app_id, title),
        rule.app_id is Some && app_id is None ==> !rule.applies(app_id, title),
        rule.title is Some && title is None ==> !rule.applies(app_id, title),
        rule.title is None && rule.app_id is Some && app_id is Some ==> (rule.applies(app_id, title)
            <==> exists|a: Seq<char>, b: Seq<char>|
            app_id->0 == #[trigger] (a + rule.app_id->0@ + b)),
        rule.app_id is None && rule.title is Some && title is Some ==> (rule.applies(app_id, title)
            <==> exists|a: Seq<char>, b: Seq<char>| title->0 == #[trigger] (a + rule.title->0@ + b)),
        rule.app_id is Some && app_id is Some && rule.title is Some && title is Some ==> (
        rule.applies(app_id, title) <==> (exists|a: Seq<char>, b: Seq<char>|
            app_id->0 == #[trigger] (a + rule.app_id->0@ + b)) && (exists|a: Seq<char>, b: Seq<char>|
            title->0 == #[trigger] (a + rule.title->0@ + b))),
{
    patterns_are_parts_of_texts(rule.app_id, app_id);
    patterns_are_parts_of_texts(rule.title, title);
}

/// The rule in effect is the first that applies, and there is at most one such.
pub proof fn the_first_rule_that_applies_counts(
    rules: Seq<WindowRule>,
    app_id: Option<Seq<char>>,
    title: Option<Seq<char>>,
    at: int,
    other: int,
)
    requires
        first_rule(rules, app_id, title, at),
    ensures
        0 <= at < rules.len() && rules[at].applies(app_id, title),
        0 <= other < at ==> !rules[other].applies(app_id, title),
        first_rule(rules, app_id, title, other) ==> other == at,
{
}

/// What a rule sets replaces the setting of its own name; what it leaves open
/// stays.
pub proof fn rules_replace_what_they_set(over: PartialWindowConfig, base: WindowConfig)
    ensures
        ({
            let m = over.merged(base);
            &&& over.prefer_no_csd matches Some(v) ==> m.prefer_no_csd == v
            &&& over.border matches Some(v) ==> m.border == v
            &&& over.shadow matches Some(v) ==> m.shadow == v
            &&& over.corner_radius matches Some(v) ==> m.corner_radius == v
            &&& over.resize_modifier matches Some(v) ==> m.resize_modifier == v
            &&& over.floating matches Some(v) ==> m.floating == v
            &&& over.shader matches Some(v) ==> m.shader == Some(v)
            &&& over.prefer_no_csd is None ==> m.prefer_no_csd == base.prefer_no_csd
            &&& over.border is None ==> m.border == base.border
            &&& over.shadow is None ==> m.shadow == base.shadow
            &&& over.corner_radius is None ==> m.corner_radius == base.corner_radius
            &&& over.resize_modifier is None ==> m.resize_modifier == base.resize_modifier
            &&& over.floating is None ==> m.floating == base.floating
            &&& over.shader is None ==> m.shader == base.shader
            &&& over.merged(m) == m
        }),
{
}

/// A curve of the configuration is the curve of the same name, and a Bezier curve
/// keeps its numbers in their order.
pub proof fn curves_keep_their_shape(c: AnimCurve)
    ensures
        c is Linear <==> c.curve() is Linear,
        c is EaseOutQuad <==> c.curve() is EaseOutQuad,
        c is EaseOutCubic <==> c.curve() is EaseOutCubic,
        c is EaseOutExpo <==> c.curve() is EaseOutExpo,
        c matches AnimCurve::CubicBezier(a, b, d, e) ==> c.curve() == (Curve::CubicBezier {
            x1: a,
            y1: b,
            x2: d,
            y2: e,
        }),
{
}

/// Whatever moves goes from its start to its end.
pub proof fn animations_go_from_start_to_end(
    a: AnimConfig,
    from: F64,
    to: F64,
    times: SpringTimes,
    now: u128,
)
    ensures
        a.animation(from, to, times, now).from == from,
        a.animation(from, to, times, now).to == to,
{
}

/// The standard settings: windows float with a gap of eight and no margins, the
/// blur has two passes and is on, shadows are off, and windows draw no
/// decorations of their own.
pub proof fn standard_settings_are_plain(c: Config)
    requires
        c.is_standard(),
    ensures
        c.layout.layout is Floating,
        c.layout.gap.bits == 0x4020_0000_0000_0000,
        c.layout.master_ratio.bits == 0x3FE0_0000_0000_0000,
        c.layout.margins.top.bits == 0 && c.layout.margins.bottom.bits == 0,
        c.layout.margins.left.bits == 0 && c.layout.margins.right.bits == 0,
        c.layout.custom_fn is None,
        c.blur.enable && c.blur.passes == 2 && c.blur.offset.bits == 0x3FF0_0000_0000_0000
            && !c.blur.xray,
        c.window.prefer_no_csd && !c.window.floating && !c.window.shadow.enable
            && c.window.shader is None,
        c.window.border.width.bits == 0,
        c.window.resize_modifier@ == "Ctrl"@,
        c.animations.enable && c.animations.window_open.enable && c.animations.window_close.enable
            && c.animations.workspace_switch.enable,
        c.animations.window_open.duration_ms == 250 && c.animations.window_close.duration_ms == 250
            && c.animations.workspace_switch.duration_ms == 200,
        c.outputs@.len() == 0 && c.window_rules@.len() == 0 && c.layer_rules@.len() == 0,
        c.init_commands@.len() == 0 && c.init_shell_commands@.len() == 0,
        c.cursor.theme is None && c.cursor.size is None,
        c.binds@.len() == 14,
        c.binds@[1].key@ == "q"@ && c.binds@[1].action is Quit,
        c.binds@[2].key@ == "c"@ && c.binds@[2].action is CloseWindow,
        c.binds@[3].key@ == "Return"@ && c.binds@[3].action is Run,
        c.binds@[11].key@ == "1"@ && c.binds@[11].action == BindAction::Screen(0),
        c.binds@[12].key@ == "2"@ && c.binds@[12].action == BindAction::Screen(1),
        c.binds@[13].key@ == "3"@ && c.binds@[13].action == BindAction::Screen(2),
{
}

/// A variable of the environment has the value of its last entry.
pub proof fn variables_have_their_values(vars: Seq<EnvVar>, i: int)
    requires
        0 <= i < vars.len(),
        forall|j: int| i < j < vars.len() ==> (#[trigger] vars[j]).name@ != vars[i].name@,
    ensures
        env_map(vars).contains_key(vars[i].name@),
        env_map(vars)[vars[i].name@] == vars[i].value@,
    decreases vars.len(),
{
    if i < vars.len() - 1 {
        assert(vars.last().name@ != vars[i].name@);
        assert forall|j: int| i < j < vars.drop_last().len() implies (
        #[trigger] vars.drop_last()[j]).name@ != vars.drop_last()[i].name@ by {
            assert(vars[j].name@ != vars[i].name@);
        }
        variables_have_their_values(vars.drop_last(), i);
    }
}

/// A rule that applies is found if none before it does.
pub proof fn rules_that_apply_are_found(
    rules: Seq<WindowRule>,
    app_id: Option<Seq<char>>,
    title: Option<Seq<char>>,
    at: int,
)
    requires
        0 <= at < rules.len(),
        rules[at].applies(app_id, title),
        forall|i: int| 0 <= i < at ==> !(#[trigger] rules[i]).applies(app_id, title),
    ensures
        first_rule(rules, app_id, title, at),
{
}

/// Settings are the same exactly if each of them is: what was set stays set when
/// the configuration is kept.
pub proof fn same_settings_are_the_same(a: Config, b: Config)
    requires
        a.same_settings(b),
    ensures
        a.outputs@ == b.outputs@ && a.cursor == b.cursor && a.window == b.window && a.blur == b.blur
            && a.animations == b.animations && a.layout == b.layout,
        a.window_rules@ == b.window_rules@ && a.layer_rules@ == b.layer_rules@,
        a.init_commands@ == b.init_commands@ && a.init_shell_commands@ == b.init_shell_commands@,
        a.shader_gen == b.shader_gen && a.env.vars@ == b.env.vars@,
        a.binds@.len() == b.binds@.len() && forall|i: int|
            0 <= i < a.binds@.len() ==> (#[trigger] a.binds@[i]).key == b.binds@[i].key
                && a.binds@[i].action == b.binds@[i].action && a.binds@[i].modifiers@
                == b.binds@[i].modifiers@,
        a.custom_shaders@.len() == b.custom_shaders@.len() && forall|i: int|
            0 <= i < a.custom_shaders@.len() ==> (#[trigger] a.custom_shaders@[i]).name
                == b.custom_shaders@[i].name && a.custom_shaders@[i].kind == b.custom_shaders@[i].kind
                && a.custom_shaders@[i].fragment == b.custom_shaders@[i].fragment,
{
    assert forall|i: int| 0 <= i < a.binds@.len() implies (#[trigger] a.binds@[i]).key
        == b.binds@[i].key && a.binds@[i].action == b.binds@[i].action && a.binds@[i].modifiers@
        == b.binds@[i].modifiers@ by {
        assert(a.binds@[i].agrees(b.binds@[i]));
    }
    assert forall|i: int| 0 <= i < a.custom_shaders@.len() implies (
    #[trigger] a.custom_shaders@[i]).name == b.custom_shaders@[i].name && a.custom_shaders@[i].kind
        == b.custom_shaders@[i].kind && a.custom_shaders@[i].fragment
        == b.custom_shaders@[i].fragment by {
        assert(a.custom_shaders@[i].agrees(b.custom_shaders@[i]));
    }
}

} // verus!
