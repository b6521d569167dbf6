//! How a configuration comes about: what the script asks for call by call, what
//! it returns, and what the two make together.
use vstd::prelude::*;
use crate::config::appearance::{
    border_at, fragment_file, layer_rule_item, layer_rule_of, layout_of, parse_animations, parse_blur,
    parse_custom_shader, parse_layer_rules, parse_layout, parse_single_layer_rule,
    parse_single_window_rule, parse_window, parse_window_rules, shader_head, shadow_at, source_of,
    file_needed, uniforms_of, window_anim_at, window_anim_of, window_rule_item, window_rule_of, window_says,
    ReadFailure,
};
use crate::config::lua::{ConfigError, Fault, LuaKind, LuaTable, LuaValue};
use crate::config::parse::{
    action_of, bind_item, each, env_from, lists_are_read_item_by_item, modifiers_of, or_else, output_item, output_of,
    parse_action_value, parse_binds, parse_cursor, parse_env, parse_modifiers_value, parse_outputs,
    parse_single_output, parts_of, with_function, BindParts,
};
use crate::config::{
    AnimationsConfig, BindConfig, BlurConfig, Config, CursorConfig, CustomShaderConfig, EnvVars,
    LayerRule, LayoutConfig, LayoutType, LuaConfig, OutputConfig, WindowConfig, WindowRule,
};
use crate::text::same;

verus! {

/// What the script has asked for so far.
#[derive(Debug, PartialEq, Eq)]
pub struct Collector {
    pub outputs: Vec<OutputConfig>,
    pub binds: Vec<BindConfig>,
    pub env: EnvVars,
    pub cursor: Option<CursorConfig>,
    pub window: Option<WindowConfig>,
    pub blur: Option<BlurConfig>,
    pub animations: Option<AnimationsConfig>,
    pub layout: Option<LayoutConfig>,
    pub custom_shaders: Vec<CustomShaderConfig>,
    pub window_rules: Vec<WindowRule>,
    pub layer_rules: Vec<LayerRule>,
    pub spawn_commands: Vec<String>,
    pub shell_commands: Vec<String>,
    /// The functions that the script handed over, by handle.
    pub callbacks: Vec<u64>,
}

/// The settings that a table says of blur.
pub open spec fn blur_of(t: LuaTable) -> BlurConfig {
    BlurConfig {
        enable: t.flag("enable"@),
        passes: or_else(t.byte("passes"@), BlurConfig::standard().passes),
        offset: or_else(t.double("offset"@), BlurConfig::standard().offset),
        xray: t.flag("xray"@),
    }
}

/// The settings that a table says of animations.
pub open spec fn animations_of(t: LuaTable) -> AnimationsConfig {
    let base = AnimationsConfig::standard();
    AnimationsConfig {
        enable: t.flag("enable"@),
        window_open: window_anim_at(t, "window_open"@, base.window_open),
        window_close: window_anim_at(t, "window_close"@, base.window_close),
        workspace_switch: window_anim_at(t, "workspace_switch"@, base.workspace_switch),
    }
}

/// The settings that a table says of the cursor.
pub open spec fn cursor_of(t: LuaTable) -> CursorConfig {
    CursorConfig { theme: t.text("theme"@), size: t.word("size"@) }
}

/// What is wrong with a table about windows.
pub open spec fn window_fault(t: LuaTable) -> Option<Fault> {
    match border_at(t) {
        Err(f) => Some(f),
        Ok(_) => match shadow_at(t) {
            Err(f) => Some(f),
            Ok(_) => None,
        },
    }
}

/// Whether a shader is what a table and its file say.
pub open spec fn shader_says(
    t: LuaTable,
    dir: Seq<u8>,
    file: Option<Result<String, ReadFailure>>,
    s: CustomShaderConfig,
) -> bool {
    &&& shader_head(t) matches Ok((name, kind, fragment))
    &&& s.name == name
    &&& s.kind == kind
    &&& source_of(fragment, dir, file) == Ok::<String, Fault>(s.fragment)
    &&& uniforms_of(t) == Ok::<Seq<crate::config::ShaderUniform>, Fault>(s.uniforms@)
}

/// What is wrong with a shader.
pub open spec fn shader_fault(
    t: LuaTable,
    dir: Seq<u8>,
    file: Option<Result<String, ReadFailure>>,
) -> Option<Fault> {
    match shader_head(t) {
        Err(f) => Some(f),
        Ok((name, kind, fragment)) => match source_of(fragment, dir, file) {
            Err(f) => Some(f),
            Ok(_) => match uniforms_of(t) {
                Err(f) => Some(f),
                Ok(_) => None,
            },
        },
    }
}

/// What went wrong, if anything did.
pub open spec fn error_in<T>(r: Result<T, ConfigError>) -> Option<Fault> {
    match r {
        Ok(_) => None,
        Err(e) => Some(e@),
    }
}

/// Whether asking for a binding leads from `before` to `after`. A function that
/// is its action is kept, and a binding that is wrong is not.
pub open spec fn binds(
    before: Collector,
    after: Collector,
    fault: Option<Fault>,
    modifiers: LuaValue,
    key: String,
    action: LuaValue,
) -> bool {
    &&& after == (Collector { binds: after.binds, callbacks: after.callbacks, ..before })
    &&& match modifiers_of(modifiers.kind, modifiers.text) {
        Err(f) => fault == Some(f) && after == before,
        Ok(mods) => {
            &&& after.callbacks@ == with_function(before.callbacks@, action.kind)
            &&& match action_of(action, before.callbacks@.len() as int) {
                Err(f) => fault == Some(f) && after.binds == before.binds,
                Ok(a) => fault is None && parts_of(after.binds@) == parts_of(before.binds@).push(
                    (BindParts { modifiers: mods, key, action: a }),
                ),
            }
        },
    }
}

/// Whether asking for an output leads from `before` to `after`.
pub open spec fn adds_output(
    before: Collector,
    after: Collector,
    fault: Option<Fault>,
    t: LuaTable,
) -> bool {
    &&& after == (Collector { outputs: after.outputs, ..before })
    &&& match output_of(t) {
        Ok(o) => fault is None && after.outputs@ == before.outputs@.push(o),
        Err(f) => fault == Some(f) && after == before,
    }
}

/// Whether setting an environment variable leads from `before` to `after`.
pub open spec fn sets_env(
    before: Collector,
    after: Collector,
    name: Seq<char>,
    value: Seq<char>,
) -> bool {
    &&& after == (Collector { env: after.env, ..before })
    &&& after.env.wf()
    &&& after.env@ == before.env@.insert(name, value)
}

/// Whether setting what holds of windows leads from `before` to `after`.
pub open spec fn sets_window(
    before: Collector,
    after: Collector,
    fault: Option<Fault>,
    t: LuaTable,
) -> bool {
    &&& after == (Collector { window: after.window, ..before })
    &&& match window_fault(t) {
        Some(f) => fault == Some(f) && after == before,
        None => fault is None && (after.window matches Some(w) && window_says(t, w)),
    }
}

/// Whether setting the layout leads from `before` to `after`. A function that it
/// names is kept.
pub open spec fn sets_layout(
    before: Collector,
    after: Collector,
    fault: Option<Fault>,
    t: LuaTable,
) -> bool {
    match layout_of(t, before.callbacks@.len() as int) {
        Err(f) => {
            &&& fault == Some(f)
            &&& after.callbacks@ == before.callbacks@
            &&& after == (Collector { callbacks: after.callbacks, ..before })
        },
        Ok(l) => {
            &&& fault is None
            &&& after.callbacks@ == (match t.function("fn"@) {
                Some(h) => before.callbacks@.push(h),
                None => before.callbacks@,
            })
            &&& after == (Collector { layout: Some(l), callbacks: after.callbacks, ..before })
        },
    }
}

/// Whether asking for a shader leads from `before` to `after`.
pub open spec fn adds_shader(
    before: Collector,
    after: Collector,
    fault: Option<Fault>,
    t: LuaTable,
    dir: Seq<u8>,
    file: Option<Result<String, ReadFailure>>,
) -> bool {
    &&& after == (Collector { custom_shaders: after.custom_shaders, ..before })
    &&& match shader_fault(t, dir, file) {
        Some(f) => fault == Some(f) && after == before,
        None => {
            &&& fault is None
            &&& after.custom_shaders@.len() == before.custom_shaders@.len() + 1
            &&& after.custom_shaders@.drop_last() == before.custom_shaders@
            &&& shader_says(t, dir, file, after.custom_shaders@.last())
        },
    }
}

/// Whether asking for a rule for windows leads from `before` to `after`.
pub open spec fn adds_window_rule(
    before: Collector,
    after: Collector,
    fault: Option<Fault>,
    t: LuaTable,
) -> bool {
    &&& after == (Collector { window_rules: after.window_rules, ..before })
    &&& match window_rule_of(t) {
        Ok(rule) => fault is None && after.window_rules@ == before.window_rules@.push(rule),
        Err(f) => fault == Some(f) && after == before,
    }
}

/// Whether asking for a rule for layer surfaces leads from `before` to `after`.
pub open spec fn adds_layer_rule(before: Collector, after: Collector, t: LuaTable) -> bool {
    &&& after == (Collector { layer_rules: after.layer_rules, ..before })
    &&& after.layer_rules@ == before.layer_rules@.push(layer_rule_of(t))
}

/// Whether asking for a program to start leads from `before` to `after`.
pub open spec fn adds_program(before: Collector, after: Collector, cmd: String) -> bool {
    &&& after == (Collector { spawn_commands: after.spawn_commands, ..before })
    &&& after.spawn_commands@ == before.spawn_commands@.push(cmd)
}

/// Whether asking for a shell command leads from `before` to `after`.
pub open spec fn adds_shell_command(before: Collector, after: Collector, code: String) -> bool {
    &&& after == (Collector { shell_commands: after.shell_commands, ..before })
    &&& after.shell_commands@ == before.shell_commands@.push(code)
}

impl Collector {
    /// Nothing was asked for.
    pub open spec fn is_empty(self) -> bool {
        &&& self.outputs@.len() == 0
        &&& self.binds@.len() == 0
        &&& self.env.vars@.len() == 0
        &&& self.cursor is None
        &&& self.window is None
        &&& self.blur is None
        &&& self.animations is None
        &&& self.layout is None
        &&& self.custom_shaders@.len() == 0
        &&& self.window_rules@.len() == 0
        &&& self.layer_rules@.len() == 0
        &&& self.spawn_commands@.len() == 0
        &&& self.shell_commands@.len() == 0
        &&& self.callbacks@.len() == 0
    }

    pub fn new() -> (c: Collector)
        ensures
            c.is_empty(),
            c.env.wf(),
    {
        Collector {
            outputs: Vec::new(),
            binds: Vec::new(),
            env: EnvVars::new(),
            cursor: None,
            window: None,
            blur: None,
            animations: None,
            layout: None,
            custom_shaders: Vec::new(),
            window_rules: Vec::new(),
            layer_rules: Vec::new(),
            spawn_commands: Vec::new(),
            shell_commands: Vec::new(),
            callbacks: Vec::new(),
        }
    }

    /// `bk.bind`: one more binding. A function that is its action is kept.
    pub fn bind(&mut self, modifiers: &LuaValue, key: String, action: &LuaValue) -> (r: Result<
        (),
        ConfigError,
    >)
        ensures
            binds(*old(self), *final(self), error_in(r), *modifiers, key, *action),
    {
        let mods = match parse_modifiers_value(modifiers) {
            Ok(m) => m,
            Err(e) => {
                return Err(e);
            },
        };
        let act = match parse_action_value(&mut self.callbacks, action) {
            Ok(a) => a,
            Err(e) => {
                return Err(e);
            },
        };
        let ghost before = self.binds@;
        let b = BindConfig { modifiers: mods, key, action: act };
        self.binds.push(b);
        assert(parts_of(self.binds@) =~= parts_of(before).push(b.parts()));
        Ok(())
    }

    /// `bk.output`: one more output.
    pub fn output(&mut self, t: &LuaTable) -> (r: Result<(), ConfigError>)
        ensures
            adds_output(*old(self), *final(self), error_in(r), *t),
    {
        match parse_single_output(t) {
            Ok(o) => {
                self.outputs.push(o);
                Ok(())
            },
            Err(e) => Err(e),
        }
    }

    /// `bk.env`: sets an environment variable.
    pub fn env(&mut self, name: String, value: String)
        requires
            old(self).env.wf(),
        ensures
            sets_env(*old(self), *final(self), name@, value@),
    {
        self.env.insert(name, value);
    }

    /// `bk.window`: sets what holds of windows.
    pub fn window(&mut self, t: &LuaTable) -> (r: Result<(), ConfigError>)
        ensures
            sets_window(*old(self), *final(self), error_in(r), *t),
    {
        match parse_window(t) {
            Ok(w) => {
                self.window = Some(w);
                Ok(())
            },
            Err(e) => Err(e),
        }
    }

    /// `bk.animations`: sets the animations.
    pub fn animations(&mut self, t: &LuaTable)
        ensures
            *final(self) == (Collector { animations: Some(animations_of(*t)), ..*old(self) }),
    {
        self.animations = Some(parse_animations(t));
    }

    /// `bk.blur`: sets the blur.
    pub fn blur(&mut self, t: &LuaTable)
        ensures
            *final(self) == (Collector { blur: Some(blur_of(*t)), ..*old(self) }),
    {
        self.blur = Some(parse_blur(t));
    }

    /// `bk.layout`: sets the layout. A function that it names is kept.
    pub fn layout(&mut self, t: &LuaTable) -> (r: Result<(), ConfigError>)
        ensures
            sets_layout(*old(self), *final(self), error_in(r), *t),
    {
        match parse_layout(t, &mut self.callbacks) {
            Ok(l) => {
                self.layout = Some(l);
                Ok(())
            },
            Err(e) => Err(e),
        }
    }

    /// `bk.shader`: one more shader.
    pub fn shader(&mut self, t: &LuaTable, dir: &Vec<u8>, file: Option<Result<String, ReadFailure>>) -> (r:
        Result<(), ConfigError>)
        requires
            file_needed(*t, dir@) is Some ==> file is Some,
        ensures
            adds_shader(*old(self), *final(self), error_in(r), *t, dir@, file),
    {
        match parse_custom_shader(t, dir, file) {
            Ok(s) => {
                let ghost before = self.custom_shaders@;
                self.custom_shaders.push(s);
                assert(self.custom_shaders@.drop_last() =~= before);
                Ok(())
            },
            Err(e) => Err(e),
        }
    }

    /// `bk.cursor`: sets the cursor.
    pub fn cursor(&mut self, t: &LuaTable)
        ensures
            *final(self) == (Collector { cursor: Some(cursor_of(*t)), ..*old(self) }),
    {
        self.cursor = Some(parse_cursor(t));
    }

    /// `bk.window_rule`: one more rule for windows.
    pub fn window_rule(&mut self, t: &LuaTable) -> (r: Result<(), ConfigError>)
        ensures
            adds_window_rule(*old(self), *final(self), error_in(r), *t),
    {
        match parse_single_window_rule(t) {
            Ok(rule) => {
                self.window_rules.push(rule);
                Ok(())
            },
            Err(e) => Err(e),
        }
    }

    /// `bk.layer_rule`: one more rule for layer surfaces.
    pub fn layer_rule(&mut self, t: &LuaTable)
        ensures
            adds_layer_rule(*old(self), *final(self), *t),
    {
        self.layer_rules.push(parse_single_layer_rule(t));
    }

    /// `bk.spawn`: one more program to start.
    pub fn spawn(&mut self, cmd: String)
        ensures
            adds_program(*old(self), *final(self), cmd),
    {
        self.spawn_commands.push(cmd);
    }

    /// `bk.run_sh`: one more shell command to run at the start.
    pub fn run_sh(&mut self, code: String)
        ensures
            adds_shell_command(*old(self), *final(self), code),
    {
        self.shell_commands.push(code);
    }
}

// ---- action descriptors ----

/// The kind of action that a function without arguments describes.
pub open spec fn descriptor_type(function: Seq<char>) -> Option<Seq<char>> {
    if function == "quit"@ {
        Some("Quit"@)
    } else if function == "close_window"@ {
        Some("CloseWindow"@)
    } else if function == "screenshot"@ {
        Some("Screenshot"@)
    } else if function == "toggle_decorations"@ {
        Some("ToggleDecorations"@)
    } else if function == "toggle_preview"@ {
        Some("TogglePreview"@)
    } else if function == "scale_up"@ {
        Some("ScaleUp"@)
    } else if function == "scale_down"@ {
        Some("ScaleDown"@)
    } else if function == "rotate_output"@ {
        Some("RotateOutput"@)
    } else if function == "toggle_tint"@ {
        Some("ToggleTint"@)
    } else if function == "toggle_floating"@ {
        Some("ToggleFloating"@)
    } else if function == "focus_next"@ {
        Some("FocusNext"@)
    } else if function == "focus_prev"@ {
        Some("FocusPrev"@)
    } else if function == "workspace_next"@ {
        Some("WorkspaceNext"@)
    } else if function == "workspace_prev"@ {
        Some("WorkspacePrev"@)
    } else if function == "resize_width_up"@ {
        Some("ResizeWidthUp"@)
    } else if function == "resize_width_down"@ {
        Some("ResizeWidthDown"@)
    } else if function == "toggle_fullscreen"@ {
        Some("ToggleFullscreen"@)
    } else if function == "toggle_maximize"@ {
        Some("ToggleMaximize"@)
    } else {
        None
    }
}

/// The kind of action that a function of `bk` without arguments describes.
pub fn find_descriptor(function: &str) -> (r: Option<String>)
    ensures
        match descriptor_type(function@) {
            Some(kind) => r matches Some(k) && k@ == kind,
            None => r is None,
        },
{
    let kind = if same(function, "quit") {
        "Quit"
    } else if same(function, "close_window") {
        "CloseWindow"
    } else if same(function, "screenshot") {
        "Screenshot"
    } else if same(function, "toggle_decorations") {
        "ToggleDecorations"
    } else if same(function, "toggle_preview") {
        "TogglePreview"
    } else if same(function, "scale_up") {
        "ScaleUp"
    } else if same(function, "scale_down") {
        "ScaleDown"
    } else if same(function, "rotate_output") {
        "RotateOutput"
    } else if same(function, "toggle_tint") {
        "ToggleTint"
    } else if same(function, "toggle_floating") {
        "ToggleFloating"
    } else if same(function, "focus_next") {
        "FocusNext"
    } else if same(function, "focus_prev") {
        "FocusPrev"
    } else if same(function, "workspace_next") {
        "WorkspaceNext"
    } else if same(function, "workspace_prev") {
        "WorkspacePrev"
    } else if same(function, "resize_width_up") {
        "ResizeWidthUp"
    } else if same(function, "resize_width_down") {
        "ResizeWidthDown"
    } else if same(function, "toggle_fullscreen") {
        "ToggleFullscreen"
    } else if same(function, "toggle_maximize") {
        "ToggleMaximize"
    } else {
        return None;
    };
    Some(kind.to_owned())
}

/// The first `upto` texts with a space between each two.
pub open spec fn spaced(words: Seq<String>, upto: int) -> Seq<char>
    decreases upto,
{
    if upto <= 0 {
        Seq::empty()
    } else if upto == 1 {
        words[0]@
    } else {
        spaced(words, upto - 1) + " "@ + words[upto - 1]@
    }
}

/// The command that `bk.exec` describes: its arguments, with spaces between.
pub fn exec_command(args: &Vec<String>) -> (s: String)
    ensures
        s@ == spaced(args@, args@.len() as int),
{
    if args.len() == 0 {
        let empty = String::new();
        assert(empty@ =~= Seq::empty());
        return empty;
    }
    let mut s = args[0].clone();
    let mut i: usize = 1;
    while i < args.len()
        invariant
            1 <= i <= args@.len(),
            s@ == spaced(args@, i as int),
        decreases args@.len() - i,
    {
        s.append(" ");
        s.append(&args[i]);
        i = i + 1;
    }
    s
}

// ---- the returned table ----

/// What a table that the script returned says, section by section.
#[derive(Debug, PartialEq, Eq)]
pub struct Returned {
    pub outputs: Option<Vec<OutputConfig>>,
    pub binds: Option<Vec<BindConfig>>,
    pub env: Option<EnvVars>,
    pub cursor: Option<CursorConfig>,
    pub window: Option<WindowConfig>,
    pub blur: Option<BlurConfig>,
    pub animations: Option<AnimationsConfig>,
    pub window_rules: Option<Vec<WindowRule>>,
    pub layer_rules: Option<Vec<LayerRule>>,
}

pub open spec fn outputs_in(t: LuaTable) -> Result<Option<Seq<OutputConfig>>, Fault> {
    match t.table("outputs"@) {
        None => Ok(None),
        Some(o) => match each(o.items@, |v: LuaValue| output_item(v), 0) {
            Ok(s) => Ok(Some(s)),
            Err(f) => Err(f),
        },
    }
}

pub open spec fn binds_in(t: LuaTable) -> Result<Option<Seq<BindParts>>, Fault> {
    match t.table("binds"@) {
        None => Ok(None),
        Some(b) => match each(b.items@, |v: LuaValue| bind_item(v), 0) {
            Ok(s) => Ok(Some(s)),
            Err(f) => Err(f),
        },
    }
}

pub open spec fn env_in(t: LuaTable) -> Result<Option<Map<Seq<char>, Seq<char>>>, Fault> {
    match t.table("env"@) {
        None => Ok(None),
        Some(e) => match env_from(e.pairs@, 0, Map::empty()) {
            Ok(m) => Ok(Some(m)),
            Err(f) => Err(f),
        },
    }
}

pub open spec fn window_fault_in(t: LuaTable) -> Option<Fault> {
    match t.table("window"@) {
        None => None,
        Some(w) => window_fault(w),
    }
}

pub open spec fn window_rules_in(t: LuaTable) -> Result<Option<Seq<WindowRule>>, Fault> {
    match t.table("window_rules"@) {
        None => Ok(None),
        Some(w) => match each(w.items@, |v: LuaValue| window_rule_item(v), 0) {
            Ok(s) => Ok(Some(s)),
            Err(f) => Err(f),
        },
    }
}

pub open spec fn layer_rules_in(t: LuaTable) -> Result<Option<Seq<LayerRule>>, Fault> {
    match t.table("layer_rules"@) {
        None => Ok(None),
        Some(l) => match each(l.items@, |v: LuaValue| layer_rule_item(v), 0) {
            Ok(s) => Ok(Some(s)),
            Err(f) => Err(f),
        },
    }
}

/// The error of a section, if it has one.
pub open spec fn fault_of<T>(r: Result<T, Fault>) -> Option<Fault> {
    match r {
        Ok(_) => None,
        Err(f) => Some(f),
    }
}

/// The first error of a returned table, section by section.
pub open spec fn returned_fault(t: LuaTable) -> Option<Fault> {
    if outputs_in(t) is Err {
        fault_of(outputs_in(t))
    } else if binds_in(t) is Err {
        fault_of(binds_in(t))
    } else if env_in(t) is Err {
        fault_of(env_in(t))
    } else if window_fault_in(t) is Some {
        window_fault_in(t)
    } else if window_rules_in(t) is Err {
        fault_of(window_rules_in(t))
    } else {
        fault_of(layer_rules_in(t))
    }
}

pub open spec fn list_view<T>(v: Option<Vec<T>>) -> Option<Seq<T>> {
    match v {
        Some(x) => Some(x@),
        None => None,
    }
}

/// Whether `r` is what a returned table says.
pub open spec fn returned_says(t: LuaTable, r: Returned) -> bool {
    &&& outputs_in(t) == Ok::<Option<Seq<OutputConfig>>, Fault>(list_view(r.outputs))
    &&& binds_in(t) == Ok::<Option<Seq<BindParts>>, Fault>(
        match r.binds {
            Some(b) => Some(parts_of(b@)),
            None => None,
        },
    )
    &&& env_in(t) == Ok::<Option<Map<Seq<char>, Seq<char>>>, Fault>(
        match r.env {
            Some(e) => Some(e@),
            None => None,
        },
    )
    &&& r.env matches Some(e) ==> e.wf()
    &&& r.cursor == (match t.table("cursor"@) {
        Some(c) => Some(cursor_of(c)),
        None => None,
    })
    &&& match t.table("window"@) {
        Some(w) => r.window matches Some(x) && window_says(w, x),
        None => r.window is None,
    }
    &&& r.blur == (match t.table("blur"@) {
        Some(b) => Some(blur_of(b)),
        None => None,
    })
    &&& r.animations == (match t.table("animations"@) {
        Some(a) => Some(animations_of(a)),
        None => None,
    })
    &&& window_rules_in(t) == Ok::<Option<Seq<WindowRule>>, Fault>(list_view(r.window_rules))
    &&& layer_rules_in(t) == Ok::<Option<Seq<LayerRule>>, Fault>(list_view(r.layer_rules))
}

/// What a table says that the script returned.
pub fn parse_returned(t: &LuaTable) -> (r: Result<Returned, ConfigError>)
    ensures
        match returned_fault(*t) {
            Some(f) => r matches Err(e) && e@ == f,
            None => r matches Ok(x) && returned_says(*t, x),
        },
{
    let outputs = match t.get_table("outputs") {
        None => None,
        Some(x) => match parse_outputs(x) {
            Ok(v) => Some(v),
            Err(e) => {
                return Err(e);
            },
        },
    };
    let binds = match t.get_table("binds") {
        None => None,
        Some(x) => match parse_binds(x) {
            Ok(v) => Some(v),
            Err(e) => {
                return Err(e);
            },
        },
    };
    let env = match t.get_table("env") {
        None => None,
        Some(x) => match parse_env(x) {
            Ok(v) => Some(v),
            Err(e) => {
                return Err(e);
            },
        },
    };
    let cursor = match t.get_table("cursor") {
        None => None,
        Some(x) => Some(parse_cursor(x)),
    };
    let window = match t.get_table("window") {
        None => None,
        Some(x) => match parse_window(x) {
            Ok(v) => Some(v),
            Err(e) => {
                return Err(e);
            },
        },
    };
    let blur = match t.get_table("blur") {
        None => None,
        Some(x) => Some(parse_blur(x)),
    };
    let animations = match t.get_table("animations") {
        None => None,
        Some(x) => Some(parse_animations(x)),
    };
    let window_rules = match t.get_table("window_rules") {
        None => None,
        Some(x) => match parse_window_rules(x) {
            Ok(v) => Some(v),
            Err(e) => {
                return Err(e);
            },
        },
    };
    let layer_rules = match t.get_table("layer_rules") {
        None => None,
        Some(x) => match parse_layer_rules(x) {
            Ok(v) => Some(v),
            Err(e) => {
                return Err(e);
            },
        },
    };
    Ok(
        Returned {
            outputs,
            binds,
            env,
            cursor,
            window,
            blur,
            animations,
            window_rules,
            layer_rules,
        },
    )
}

/// What came of running the script.
#[derive(Debug, PartialEq, Eq)]
pub enum ScriptValue {
    /// It returned a table.
    Table(LuaTable),
    /// It returned something else, or nothing.
    Other,
    /// It stopped with an error. What it asked for before still counts.
    Failed,
}

/// The function to call before the configuration is built: the one that a
/// returned table names, where nothing in the table is wrong.
pub fn init_to_call(value: &ScriptValue) -> (r: Option<u64>)
    ensures
        r == (match value {
            ScriptValue::Table(t) => if returned_fault(*t) is None {
                t.function("init"@)
            } else {
                None
            },
            _ => None,
        }),
{
    match value {
        ScriptValue::Table(t) => match parse_returned(t) {
            Ok(_) => t.get_function("init"),
            Err(_) => None,
        },
        _ => None,
    }
}

// ---- the configuration ----

/// A list that was asked for, or else a returned one, or else none.
pub open spec fn chosen_list<T>(asked: Seq<T>, returned: Option<Seq<T>>) -> Seq<T> {
    if asked.len() > 0 {
        asked
    } else {
        match returned {
            Some(r) => r,
            None => Seq::empty(),
        }
    }
}

/// A setting that was asked for, or else a returned one, or else the standard.
pub open spec fn chosen<T>(asked: Option<T>, returned: Option<T>, standard: T) -> T {
    match asked {
        Some(a) => a,
        None => or_else(returned, standard),
    }
}

fn choose_list<T>(asked: Vec<T>, returned: Option<Vec<T>>) -> (r: Vec<T>)
    ensures
        r@ == chosen_list(asked@, list_view(returned)),
{
    if asked.len() > 0 {
        asked
    } else {
        match returned {
            Some(v) => v,
            None => {
                let none: Vec<T> = Vec::new();
                assert(none@ =~= Seq::empty());
                none
            },
        }
    }
}

fn choose_setting<T>(asked: Option<T>, returned: Option<T>, standard: T) -> (r: T)
    ensures
        r == chosen(asked, returned, standard),
{
    match asked {
        Some(a) => a,
        None => match returned {
            Some(v) => v,
            None => standard,
        },
    }
}

/// A script that returned nothing of use.
pub open spec fn nothing_returned() -> Returned {
    Returned {
        outputs: None,
        binds: None,
        env: None,
        cursor: None,
        window: None,
        blur: None,
        animations: None,
        window_rules: None,
        layer_rules: None,
    }
}

/// What a script returned: the table, or nothing of use.
pub open spec fn in_effect(returned: Option<Returned>) -> Returned {
    or_else(returned, nothing_returned())
}

/// Whether `c` is the configuration of what a script asked for and returned.
pub open spec fn builds(asked: Collector, returned: Returned, c: Config) -> bool {
    &&& c.outputs@ == chosen_list(asked.outputs@, list_view(returned.outputs))
    &&& c.binds@ == chosen_list(asked.binds@, list_view(returned.binds))
    &&& c.env.wf()
    &&& c.env@ == (if asked.env@ != Map::<Seq<char>, Seq<char>>::empty() {
        asked.env@
    } else {
        match returned.env {
            Some(e) => e@,
            None => Map::empty(),
        }
    })
    &&& c.cursor == chosen(
        asked.cursor,
        returned.cursor,
        (CursorConfig { theme: None, size: None }),
    )
    &&& match (asked.window, returned.window) {
        (Some(w), _) => c.window == w,
        (None, Some(w)) => c.window == w,
        (None, None) => c.window.is_standard(),
    }
    &&& c.blur == chosen(asked.blur, returned.blur, BlurConfig::standard())
    &&& c.animations == chosen(asked.animations, returned.animations, AnimationsConfig::standard())
    &&& c.layout == or_else(asked.layout, LayoutConfig::standard())
    &&& c.custom_shaders@ == asked.custom_shaders@
    &&& c.window_rules@ == chosen_list(asked.window_rules@, list_view(returned.window_rules))
    &&& c.layer_rules@ == chosen_list(asked.layer_rules@, list_view(returned.layer_rules))
    &&& c.init_commands@ == asked.spawn_commands@
    &&& c.init_shell_commands@ == asked.shell_commands@
    &&& c.shader_gen == 0
    &&& c.lua_config matches Some(l) && l.callbacks == asked.callbacks
}

/// The configuration of a script: what it asked for counts first, then what it
/// returned, then the standard. There are no bindings but those of the script.
pub fn build(asked: Collector, returned: Option<Returned>) -> (c: Config)
    requires
        asked.env.wf(),
        returned matches Some(r) ==> (r.env matches Some(e) ==> e.wf()),
    ensures
        builds(asked, in_effect(returned), c),
{
    let r = match returned {
        Some(r) => r,
        None => Returned {
            outputs: None,
            binds: None,
            env: None,
            cursor: None,
            window: None,
            blur: None,
            animations: None,
            window_rules: None,
            layer_rules: None,
        },
    };
    let env = if !asked.env.is_empty() {
        asked.env
    } else {
        match r.env {
            Some(e) => e,
            None => EnvVars::new(),
        }
    };
    Config {
        outputs: choose_list(asked.outputs, r.outputs),
        binds: choose_list(asked.binds, r.binds),
        env,
        cursor: choose_setting(asked.cursor, r.cursor, CursorConfig { theme: None, size: None }),
        window: choose_setting(asked.window, r.window, WindowConfig::default()),
        blur: choose_setting(asked.blur, r.blur, BlurConfig::default()),
        animations: choose_setting(asked.animations, r.animations, AnimationsConfig::default()),
        layout: choose_setting(asked.layout, None, LayoutConfig::default()),
        custom_shaders: asked.custom_shaders,
        window_rules: choose_list(asked.window_rules, r.window_rules),
        layer_rules: choose_list(asked.layer_rules, r.layer_rules),
        init_commands: asked.spawn_commands,
        init_shell_commands: asked.shell_commands,
        shader_gen: 0,
        lua_config: Some(LuaConfig { callbacks: asked.callbacks }),
    }
}

/// The configuration that a script says, by what it asked for and what came of
/// running it.
pub fn parse_lua_config(asked: Collector, value: &ScriptValue) -> (r: Result<Config, ConfigError>)
    requires
        asked.env.wf(),
    ensures
        match value {
            ScriptValue::Table(t) => match returned_fault(*t) {
                Some(f) => r matches Err(e) && e@ == f,
                None => r matches Ok(c) && exists|x: Returned| #[trigger]
                    returned_says(*t, x) && builds(asked, x, c),
            },
            _ => r matches Ok(c) && builds(asked, nothing_returned(), c),
        },
{
    match value {
        ScriptValue::Table(t) => match parse_returned(t) {
            Ok(x) => {
                let ghost said = x;
                let c = build(asked, Some(x));
                assert(returned_says(*t, said) && builds(asked, said, c));
                Ok(c)
            },
            Err(e) => Err(e),
        },
        _ => Ok(build(asked, None)),
    }
}

/// A script that asks for nothing and returns nothing leaves everything
/// standard but the bindings, of which there are none.
pub proof fn silent_script_is_standard(asked: Collector, c: Config)
    requires
        asked.is_empty(),
        builds(asked, nothing_returned(), c),
    ensures
        c.binds@.len() == 0,
        (Config { lua_config: None, ..c }).standard_but_binds(),
{
    assert(asked.env@ =~= Map::empty());
    if c.env.vars@.len() > 0 {
        assert(c.env@.dom().contains(c.env.vars@.last().name@));
        assert(!Map::<Seq<char>, Seq<char>>::empty().dom().contains(c.env.vars@.last().name@));
    }
}

/// What a script asked for holds, whatever it returned besides.
pub proof fn asking_wins(asked: Collector, one: Returned, other: Returned, c: Config, d: Config)
    requires
        builds(asked, one, c),
        builds(asked, other, d),
    ensures
        asked.outputs@.len() > 0 ==> c.outputs@ == d.outputs@,
        asked.binds@.len() > 0 ==> c.binds@ == d.binds@,
        asked.env@ != Map::<Seq<char>, Seq<char>>::empty() ==> c.env@ == d.env@,
        asked.cursor is Some ==> c.cursor == d.cursor,
        asked.window is Some ==> c.window == d.window,
        asked.blur is Some ==> c.blur == d.blur,
        asked.animations is Some ==> c.animations == d.animations,
        asked.window_rules@.len() > 0 ==> c.window_rules@ == d.window_rules@,
        asked.layer_rules@.len() > 0 ==> c.layer_rules@ == d.layer_rules@,
        c.layout == d.layout,
        c.custom_shaders@ == d.custom_shaders@,
        c.init_commands@ == d.init_commands@,
        c.init_shell_commands@ == d.init_shell_commands@,
{
}

/// Every function that a binding or a layout stands for can be called: the
/// index that it was given is one of a function that is kept, and stays so
/// whatever the script asks for later.
pub proof fn callbacks_stay_callable(before: Seq<u64>, value: LuaValue, later: LuaValue)
    requires
        value.kind is Function,
        before.len() < usize::MAX,
    ensures
        action_of(value, before.len() as int) matches Ok(a) && (
        a matches crate::config::BindAction::Callback(at) && {
            let kept = with_function(before, value.kind);
            &&& at < kept.len()
            &&& crate::config::lua::LuaKind::Function(kept[at as int]) == value.kind
            &&& with_function(kept, later.kind).take(kept.len() as int) == kept
        }),
{
    let kept = with_function(before, value.kind);
    assert(with_function(kept, later.kind).take(kept.len() as int) =~= kept);
}

// ---- laws ----

/// A function that describes an action gives the type of its own name.
pub proof fn descriptors_have_their_names(function: Seq<char>)
    ensures
        function == "quit"@ ==> descriptor_type(function) == Some("Quit"@),
        function == "close_window"@ ==> descriptor_type(function) == Some("CloseWindow"@),
        function == "screenshot"@ ==> descriptor_type(function) == Some("Screenshot"@),
        function == "toggle_decorations"@ ==> descriptor_type(function) == Some("ToggleDecorations"@),
        function == "toggle_preview"@ ==> descriptor_type(function) == Some("TogglePreview"@),
        function == "scale_up"@ ==> descriptor_type(function) == Some("ScaleUp"@),
        function == "scale_down"@ ==> descriptor_type(function) == Some("ScaleDown"@),
        function == "rotate_output"@ ==> descriptor_type(function) == Some("RotateOutput"@),
        function == "toggle_tint"@ ==> descriptor_type(function) == Some("ToggleTint"@),
        function == "toggle_floating"@ ==> descriptor_type(function) == Some("ToggleFloating"@),
        function == "focus_next"@ ==> descriptor_type(function) == Some("FocusNext"@),
        function == "focus_prev"@ ==> descriptor_type(function) == Some("FocusPrev"@),
        function == "workspace_next"@ ==> descriptor_type(function) == Some("WorkspaceNext"@),
        function == "workspace_prev"@ ==> descriptor_type(function) == Some("WorkspacePrev"@),
        function == "resize_width_up"@ ==> descriptor_type(function) == Some("ResizeWidthUp"@),
        function == "resize_width_down"@ ==> descriptor_type(function) == Some("ResizeWidthDown"@),
        function == "toggle_fullscreen"@ ==> descriptor_type(function) == Some("ToggleFullscreen"@),
        function == "toggle_maximize"@ ==> descriptor_type(function) == Some("ToggleMaximize"@),
        descriptor_type(function) is Some ==> function == "quit"@ || function == "close_window"@ || function == "screenshot"@ || function == "toggle_decorations"@ || function == "toggle_preview"@ || function == "scale_up"@ || function == "scale_down"@ || function == "rotate_output"@ || function == "toggle_tint"@ || function == "toggle_floating"@ || function == "focus_next"@ || function == "focus_prev"@ || function == "workspace_next"@ || function == "workspace_prev"@ || function == "resize_width_up"@ || function == "resize_width_down"@ || function == "toggle_fullscreen"@ || function == "toggle_maximize"@,
{
    reveal_strlit("quit");
    reveal_strlit("close_window");
    reveal_strlit("screenshot");
    reveal_strlit("toggle_decorations");
    reveal_strlit("toggle_preview");
    reveal_strlit("scale_up");
    reveal_strlit("scale_down");
    reveal_strlit("rotate_output");
    reveal_strlit("toggle_tint");
    reveal_strlit("toggle_floating");
    reveal_strlit("focus_next");
    reveal_strlit("focus_prev");
    reveal_strlit("workspace_next");
    reveal_strlit("workspace_prev");
    reveal_strlit("resize_width_up");
    reveal_strlit("resize_width_down");
    reveal_strlit("toggle_fullscreen");
    reveal_strlit("toggle_maximize");
    assert("quit"@.len() == 4);
    assert("close_window"@.len() == 12);
    assert("screenshot"@.len() == 10);
    assert("toggle_decorations"@.len() == 18);
    assert("toggle_preview"@.len() == 14);
    assert("scale_up"@.len() == 8);
    assert("scale_down"@.len() == 10);
    assert("rotate_output"@.len() == 13);
    assert("toggle_tint"@.len() == 11);
    assert("toggle_floating"@.len() == 15);
    assert("focus_next"@.len() == 10);
    assert("focus_prev"@.len() == 10);
    assert("workspace_next"@.len() == 14);
    assert("workspace_prev"@.len() == 14);
    assert("resize_width_up"@.len() == 15);
    assert("resize_width_down"@.len() == 17);
    assert("toggle_fullscreen"@.len() == 17);
    assert("toggle_maximize"@.len() == 15);
    assert("screenshot"@[2] != "scale_down"@[2]);
    assert("screenshot"@[0] != "focus_next"@[0]);
    assert("screenshot"@[0] != "focus_prev"@[0]);
    assert("toggle_preview"@[0] != "workspace_next"@[0]);
    assert("toggle_preview"@[0] != "workspace_prev"@[0]);
    assert("scale_down"@[0] != "focus_next"@[0]);
    assert("scale_down"@[0] != "focus_prev"@[0]);
    assert("toggle_floating"@[0] != "resize_width_up"@[0]);
    assert("toggle_floating"@[7] != "toggle_maximize"@[7]);
    assert("focus_next"@[6] != "focus_prev"@[6]);
    assert("workspace_next"@[10] != "workspace_prev"@[10]);
    assert("resize_width_up"@[0] != "toggle_maximize"@[0]);
    assert("resize_width_down"@[0] != "toggle_fullscreen"@[0]);
}

/// The words of a command follow each other in order, one space apart.
pub proof fn words_are_one_space_apart(words: Seq<String>, i: int)
    requires
        0 <= i < words.len(),
    ensures
        i == 0 ==> spaced(words, i + 1) == words[i]@,
        i > 0 ==> spaced(words, i + 1) == spaced(words, i).push(' ') + words[i]@,
        spaced(words, 0).len() == 0,
{
    reveal_strlit(" ");
    if i > 0 {
        assert(spaced(words, i + 1) =~= spaced(words, i).push(' ') + words[i]@);
    }
}

/// A binding that is taken is the last one, with the key, the modifiers and the
/// action that were given, and nothing else changes but the functions; one that
/// is refused is not there.
pub proof fn bindings_are_added_last(
    before: Collector,
    after: Collector,
    fault: Option<Fault>,
    modifiers: LuaValue,
    key: String,
    action: LuaValue,
)
    requires
        binds(before, after, fault, modifiers, key, action),
    ensures
        fault is None ==> {
            let old_parts = parts_of(before.binds@);
            let parts = parts_of(after.binds@);
            &&& parts.len() == old_parts.len() + 1
            &&& parts.last().key == key
            &&& modifiers_of(modifiers.kind, modifiers.text) == Ok::<Seq<String>, Fault>(
                parts.last().modifiers,
            )
            &&& action_of(action, before.callbacks@.len() as int) == Ok::<
                crate::config::BindAction,
                Fault,
            >(parts.last().action)
            &&& forall|i: int| 0 <= i < old_parts.len() ==> parts[i] == old_parts[i]
        },
        fault is Some ==> after.binds == before.binds,
        action.kind is Function && modifiers_of(modifiers.kind, modifiers.text) is Ok
            ==> after.callbacks@ == before.callbacks@.push(action.kind->Function_0),
        !(action.kind is Function) ==> after.callbacks@ == before.callbacks@,
        after.outputs == before.outputs && after.env == before.env && after.cursor == before.cursor
            && after.window == before.window && after.blur == before.blur && after.animations
            == before.animations && after.layout == before.layout && after.custom_shaders
            == before.custom_shaders && after.window_rules == before.window_rules
            && after.layer_rules == before.layer_rules && after.spawn_commands
            == before.spawn_commands && after.shell_commands == before.shell_commands,
{
}

/// What is added goes behind what is there: outputs, rules and commands keep the
/// order in which they were asked for, each in its own list.
pub proof fn additions_go_last(before: Collector, after: Collector, t: LuaTable, text: String)
    ensures
        adds_output(before, after, None, t) ==> after.outputs@.len() == before.outputs@.len() + 1
            && after.outputs@.drop_last() == before.outputs@ && output_of(t) == Ok::<
            OutputConfig,
            Fault,
        >(after.outputs@.last()) && after.binds == before.binds && after.window_rules
            == before.window_rules,
        adds_window_rule(before, after, None, t) ==> after.window_rules@.len()
            == before.window_rules@.len() + 1 && after.window_rules@.drop_last()
            == before.window_rules@ && window_rule_of(t) == Ok::<WindowRule, Fault>(
            after.window_rules@.last(),
        ) && after.layer_rules == before.layer_rules && after.outputs == before.outputs,
        adds_layer_rule(before, after, t) ==> after.layer_rules@.len() == before.layer_rules@.len()
            + 1 && after.layer_rules@.drop_last() == before.layer_rules@ && after.layer_rules@.last()
            == layer_rule_of(t) && after.window_rules == before.window_rules,
        adds_program(before, after, text) ==> after.spawn_commands@ == before.spawn_commands@ + seq![
            text,
        ] && after.shell_commands == before.shell_commands,
        adds_shell_command(before, after, text) ==> after.shell_commands@ == before.shell_commands@
            + seq![text] && after.spawn_commands == before.spawn_commands,
{
    if adds_output(before, after, None, t) {
        assert(after.outputs@.drop_last() =~= before.outputs@);
    }
    if adds_window_rule(before, after, None, t) {
        assert(after.window_rules@.drop_last() =~= before.window_rules@);
    }
    if adds_layer_rule(before, after, t) {
        assert(after.layer_rules@.drop_last() =~= before.layer_rules@);
    }
    if adds_program(before, after, text) {
        assert(after.spawn_commands@ =~= before.spawn_commands@ + seq![text]);
    }
    if adds_shell_command(before, after, text) {
        assert(after.shell_commands@ =~= before.shell_commands@ + seq![text]);
    }
}

/// What is refused leaves everything as it was.
pub proof fn refusals_change_nothing(before: Collector, after: Collector, f: Fault, t: LuaTable)
    ensures
        adds_output(before, after, Some(f), t) ==> after == before && output_of(t) == Err::<
            OutputConfig,
            Fault,
        >(f),
        adds_window_rule(before, after, Some(f), t) ==> after == before && window_rule_of(t)
            == Err::<WindowRule, Fault>(f),
        sets_window(before, after, Some(f), t) ==> after == before,
        sets_layout(before, after, Some(f), t) ==> after.layout == before.layout
            && after.callbacks@ == before.callbacks@ && after.binds == before.binds,
{
}

/// A layout that is taken is the one of the table, and its function is the last
/// one: where the layout has a function, it is found at the layout's place.
pub proof fn layouts_call_their_function(before: Collector, after: Collector, t: LuaTable)
    requires
        before.callbacks@.len() < usize::MAX,
        sets_layout(before, after, None, t),
    ensures
        after.layout matches Some(l) && (match t.function("fn"@) {
            Some(h) => l.custom_fn matches Some(place) && after.callbacks@.len()
                == before.callbacks@.len() + 1 && place == before.callbacks@.len()
                && after.callbacks@[place as int] == h && l.layout == LayoutType::Custom,
            None => l.custom_fn is None && after.callbacks@ == before.callbacks@,
        }),
        forall|i: int| 0 <= i < before.callbacks@.len() ==> after.callbacks@[i] == before.callbacks@[i],
{
}

/// A variable that is set has its value, and no other changes.
pub proof fn variables_are_set_one_by_one(
    before: Collector,
    after: Collector,
    name: Seq<char>,
    value: Seq<char>,
    other: Seq<char>,
)
    requires
        sets_env(before, after, name, value),
        other != name,
    ensures
        after.env@.contains_key(name) && after.env@[name] == value,
        after.env@.contains_key(other) <==> before.env@.contains_key(other),
        before.env@.contains_key(other) ==> after.env@[other] == before.env@[other],
        after.binds == before.binds && after.outputs == before.outputs,
{
}

/// The blur, the cursor and the animations are as their tables say, each by its
/// own name, with the standard ones where a table says nothing.
pub proof fn settings_are_as_the_table_says(t: LuaTable)
    ensures
        blur_of(t).enable <==> t.flag("enable"@),
        blur_of(t).xray <==> t.flag("xray"@),
        t.byte("passes"@) matches Some(n) ==> blur_of(t).passes == n,
        t.byte("passes"@) is None ==> blur_of(t).passes == 2,
        t.double("offset"@) matches Some(o) ==> blur_of(t).offset == o,
        t.double("offset"@) is None ==> blur_of(t).offset.bits == 0x3FF0_0000_0000_0000,
        cursor_of(t).theme == t.text("theme"@),
        cursor_of(t).size == t.word("size"@),
        animations_of(t).enable <==> t.flag("enable"@),
        t.table("window_open"@) matches Some(a) ==> animations_of(t).window_open == window_anim_of(a),
        t.table("window_close"@) matches Some(a) ==> animations_of(t).window_close == window_anim_of(
            a,
        ),
        t.table("workspace_switch"@) matches Some(a) ==> animations_of(t).workspace_switch
            == window_anim_of(a),
        t.table("window_open"@) is None ==> animations_of(t).window_open.enable && animations_of(
            t,
        ).window_open.duration_ms == 250 && animations_of(t).window_open.scale.bits
            == 0x3FE9_9999_9999_999A,
        t.table("window_close"@) is None ==> animations_of(t).window_close.enable && animations_of(
            t,
        ).window_close.duration_ms == 250 && animations_of(t).window_close.scale.bits == 0,
        t.table("workspace_switch"@) is None ==> animations_of(t).workspace_switch.enable
            && animations_of(t).workspace_switch.duration_ms == 200,
{
}

/// A shader that is taken has the name, the kind, the source and the values of
/// its table.
pub proof fn shaders_are_as_the_table_says(
    t: LuaTable,
    dir: Seq<u8>,
    file: Option<Result<String, ReadFailure>>,
    s: CustomShaderConfig,
)
    requires
        shader_says(t, dir, file, s),
    ensures
        t.text("name"@) == Some(s.name),
        t.text("fragment"@) is Some,
        fragment_file(t.text("fragment"@)->0@, dir) is None ==> t.text("fragment"@) == Some(
            s.fragment,
        ),
        fragment_file(t.text("fragment"@)->0@, dir) is Some ==> file == Some(
            Ok::<String, ReadFailure>(s.fragment),
        ),
        t.table("uniforms"@) is None ==> s.uniforms@.len() == 0,
        shader_fault(t, dir, file) is None,
{
}

/// Whatever the script asked for counts before what it returned, and that before
/// the standard; layout, shaders, commands and functions can only be asked for.
pub proof fn what_was_asked_for_counts_first(asked: Collector, returned: Returned, c: Config)
    requires
        builds(asked, returned, c),
    ensures
        asked.outputs@.len() > 0 ==> c.outputs@ == asked.outputs@,
        asked.outputs@.len() == 0 && returned.outputs is Some ==> c.outputs@
            == returned.outputs->0@,
        asked.outputs@.len() == 0 && returned.outputs is None ==> c.outputs@.len() == 0,
        asked.binds@.len() > 0 ==> c.binds@ == asked.binds@,
        asked.binds@.len() == 0 && returned.binds is Some ==> c.binds@ == returned.binds->0@,
        asked.binds@.len() == 0 && returned.binds is None ==> c.binds@.len() == 0,
        asked.window_rules@.len() > 0 ==> c.window_rules@ == asked.window_rules@,
        asked.window_rules@.len() == 0 && returned.window_rules is Some ==> c.window_rules@
            == returned.window_rules->0@,
        asked.layer_rules@.len() > 0 ==> c.layer_rules@ == asked.layer_rules@,
        asked.layer_rules@.len() == 0 && returned.layer_rules is Some ==> c.layer_rules@
            == returned.layer_rules->0@,
        asked.cursor matches Some(v) ==> c.cursor == v,
        asked.cursor is None && returned.cursor is Some ==> c.cursor == returned.cursor->0,
        asked.window matches Some(v) ==> c.window == v,
        asked.window is None && returned.window is Some ==> c.window == returned.window->0,
        asked.window is None && returned.window is None ==> c.window.is_standard(),
        asked.blur matches Some(v) ==> c.blur == v,
        asked.blur is None && returned.blur is Some ==> c.blur == returned.blur->0,
        asked.blur is None && returned.blur is None ==> c.blur.enable && c.blur.passes == 2,
        asked.animations matches Some(v) ==> c.animations == v,
        asked.animations is None && returned.animations is Some ==> c.animations
            == returned.animations->0,
        asked.layout matches Some(v) ==> c.layout == v,
        asked.layout is None ==> c.layout.layout is Floating,
        c.custom_shaders@ == asked.custom_shaders@,
        c.init_commands@ == asked.spawn_commands@,
        c.init_shell_commands@ == asked.shell_commands@,
        c.shader_gen == 0,
        c.lua_config is Some && c.lua_config->0.callbacks == asked.callbacks,
        asked.env@ != Map::<Seq<char>, Seq<char>>::empty() ==> c.env@ == asked.env@,
        asked.env@ == Map::<Seq<char>, Seq<char>>::empty() && returned.env is Some ==> c.env@
            == returned.env->0@,
{
}

/// What a script returns is taken by name from its table: a setting is there
/// exactly if its table is.
pub proof fn returned_settings_have_their_names(t: LuaTable, r: Returned)
    requires
        returned_says(t, r),
    ensures
        r.outputs is Some <==> t.table("outputs"@) is Some,
        r.binds is Some <==> t.table("binds"@) is Some,
        r.env is Some <==> t.table("env"@) is Some,
        r.cursor is Some <==> t.table("cursor"@) is Some,
        r.window is Some <==> t.table("window"@) is Some,
        r.blur is Some <==> t.table("blur"@) is Some,
        r.animations is Some <==> t.table("animations"@) is Some,
        r.window_rules is Some <==> t.table("window_rules"@) is Some,
        r.layer_rules is Some <==> t.table("layer_rules"@) is Some,
        r.outputs matches Some(v) ==> v@.len() == t.table("outputs"@)->0.items@.len(),
        r.window_rules matches Some(v) ==> v@.len() == t.table("window_rules"@)->0.items@.len(),
        r.layer_rules matches Some(v) ==> v@.len() == t.table("layer_rules"@)->0.items@.len(),
        r.cursor matches Some(c) ==> c.theme == t.table("cursor"@)->0.text("theme"@) && c.size
            == t.table("cursor"@)->0.word("size"@),
        r.blur matches Some(b) ==> (b.enable <==> t.table("blur"@)->0.flag("enable"@)),
        r.animations matches Some(a) ==> (a.enable <==> t.table("animations"@)->0.flag("enable"@)),
        r.window matches Some(w) ==> window_says(t.table("window"@)->0, w),
{
    if let Some(o) = t.table("outputs"@) {
        lists_are_read_item_by_item(o.items@, |v: LuaValue| output_item(v), 0);
    }
    if let Some(o) = t.table("window_rules"@) {
        lists_are_read_item_by_item(o.items@, |v: LuaValue| window_rule_item(v), 0);
    }
    if let Some(o) = t.table("layer_rules"@) {
        lists_are_read_item_by_item(o.items@, |v: LuaValue| layer_rule_item(v), 0);
    }
}

/// What a script returns is refused for the first thing in it that is wrong, and
/// taken exactly if nothing is.
pub proof fn returned_tables_are_refused_for_the_first_fault(t: LuaTable)
    ensures
        returned_fault(t) is None <==> outputs_in(t) is Ok && binds_in(t) is Ok && env_in(t) is Ok
            && window_fault_in(t) is None && window_rules_in(t) is Ok && layer_rules_in(t) is Ok,
        outputs_in(t) matches Err(f) ==> returned_fault(t) == Some(f),
        outputs_in(t) is Ok && binds_in(t) is Err ==> returned_fault(t) == Some(binds_in(t)->Err_0),
        t.table("outputs"@) is None && t.table("binds"@) is None && t.table("env"@) is None
            && t.table("window"@) is None && t.table("window_rules"@) is None && t.table(
            "layer_rules"@,
        ) is None ==> returned_fault(t) is None,
{
}

/// A shader that is taken is the last one, as its table says; one that is refused
/// is not there.
pub proof fn shaders_are_added_last(
    before: Collector,
    after: Collector,
    fault: Option<Fault>,
    t: LuaTable,
    dir: Seq<u8>,
    file: Option<Result<String, ReadFailure>>,
)
    requires
        adds_shader(before, after, fault, t, dir, file),
    ensures
        fault is Some ==> after == before,
        fault is None ==> after.custom_shaders@.len() == before.custom_shaders@.len() + 1
            && t.text("name"@) == Some(after.custom_shaders@.last().name) && forall|i: int|
            0 <= i < before.custom_shaders@.len() ==> after.custom_shaders@[i]
                == before.custom_shaders@[i],
        after.binds == before.binds && after.outputs == before.outputs && after.window_rules
            == before.window_rules,
{
    if fault is None {
        assert forall|i: int| 0 <= i < before.custom_shaders@.len() implies after.custom_shaders@[i]
            == before.custom_shaders@[i] by {
            assert(after.custom_shaders@.drop_last()[i] == after.custom_shaders@[i]);
        }
    }
}

} // verus!
