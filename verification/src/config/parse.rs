//! What the tables of the configuration script say.
use vstd::prelude::*;
use crate::config::lua::{gives, ConfigError, Fault, LuaKind, LuaPair, LuaTable, LuaValue};
use crate::config::{
    BindAction, BindConfig, CursorConfig, EnvVars, ModeConfig, OutputConfig,
};
use crate::float::{F32, F64};
use crate::text::same;

verus! {

/// The bits of 0.1.
pub const POINT_ONE_BITS: u64 = 0x3FB9_9999_9999_999A;

/// The bits of 0.9.
pub const POINT_NINE_BITS: u64 = 0x3FEC_CCCC_CCCC_CCCD;

/// The bits of 0.01.
pub const POINT_OH_ONE_BITS: u64 = 0x3F84_7AE1_47AE_147B;

/// The bits of 300.
pub const THREE_HUNDRED_BITS: u64 = 0x4072_C000_0000_0000;

/// A value that has to be there.
pub open spec fn needed<T>(value: Option<T>, name: Seq<char>) -> Result<T, Fault> {
    match value {
        Some(v) => Ok(v),
        None => Err(Fault::Wrong(name)),
    }
}

/// A value, or what stands in for it.
pub open spec fn or_else<T>(value: Option<T>, other: T) -> T {
    match value {
        Some(v) => v,
        None => other,
    }
}

pub(crate) fn need_text(t: &LuaTable, name: &str) -> (r: Result<String, ConfigError>)
    ensures
        gives(r, needed(t.text(name@), name@)),
{
    match t.get_text(name) {
        Some(v) => Ok(v),
        None => Err(ConfigError::wrong(name)),
    }
}

pub(crate) fn need_signed(t: &LuaTable, name: &str) -> (r: Result<i32, ConfigError>)
    ensures
        gives(r, needed(t.signed(name@), name@)),
{
    match t.get_signed(name) {
        Some(v) => Ok(v),
        None => Err(ConfigError::wrong(name)),
    }
}

pub(crate) fn need_size(t: &LuaTable, name: &str) -> (r: Result<usize, ConfigError>)
    ensures
        gives(r, needed(t.size(name@), name@)),
{
    match t.get_size(name) {
        Some(v) => Ok(v),
        None => Err(ConfigError::wrong(name)),
    }
}

pub(crate) fn need_single(t: &LuaTable, name: &str) -> (r: Result<F32, ConfigError>)
    ensures
        gives(r, needed(t.single(name@), name@)),
{
    match t.get_single(name) {
        Some(v) => Ok(v),
        None => Err(ConfigError::wrong(name)),
    }
}

pub(crate) fn need_double(t: &LuaTable, name: &str) -> (r: Result<F64, ConfigError>)
    ensures
        gives(r, needed(t.double(name@), name@)),
{
    match t.get_double(name) {
        Some(v) => Ok(v),
        None => Err(ConfigError::wrong(name)),
    }
}

pub(crate) fn single_or(t: &LuaTable, name: &str, bits: u32) -> (r: F32)
    ensures
        r == or_else(t.single(name@), F32 { bits }),
{
    match t.get_single(name) {
        Some(v) => v,
        None => F32 { bits },
    }
}

pub(crate) fn double_or(t: &LuaTable, name: &str, bits: u64) -> (r: F64)
    ensures
        r == or_else(t.double(name@), F64 { bits }),
{
    match t.get_double(name) {
        Some(v) => v,
        None => F64 { bits },
    }
}

// ---- lists ----

/// What `f` makes of the values from `from` on, up to the first that it
/// rejects.
pub open spec fn each<T>(
    items: Seq<LuaValue>,
    f: spec_fn(LuaValue) -> Result<T, Fault>,
    from: int,
) -> Result<Seq<T>, Fault>
    decreases items.len() - from,
{
    if from < 0 || from >= items.len() {
        Ok(Seq::empty())
    } else {
        match f(items[from]) {
            Err(e) => Err(e),
            Ok(v) => match each(items, f, from + 1) {
                Err(e) => Err(e),
                Ok(rest) => Ok(seq![v] + rest),
            },
        }
    }
}

/// A list that goes on as `rest` says.
pub open spec fn prepend<T>(start: Seq<T>, rest: Result<Seq<T>, Fault>) -> Result<Seq<T>, Fault> {
    match rest {
        Ok(s) => Ok(start + s),
        Err(e) => Err(e),
    }
}

/// Whether `r` holds the list that `s` says, or its error.
pub open spec fn lists<T>(r: Result<Vec<T>, ConfigError>, s: Result<Seq<T>, Fault>) -> bool {
    match s {
        Ok(v) => r matches Ok(x) && x@ == v,
        Err(f) => r matches Err(e) && e@ == f,
    }
}

pub proof fn each_starts<T>(items: Seq<LuaValue>, f: spec_fn(LuaValue) -> Result<T, Fault>)
    ensures
        prepend(Seq::empty(), each(items, f, 0)) == each(items, f, 0),
{
    match each(items, f, 0) {
        Ok(s) => {
            assert(Seq::<T>::empty() + s =~= s);
        },
        Err(e) => {},
    }
}

pub proof fn each_goes_on<T>(
    items: Seq<LuaValue>,
    f: spec_fn(LuaValue) -> Result<T, Fault>,
    start: Seq<T>,
    from: int,
    v: T,
)
    requires
        0 <= from < items.len(),
        f(items[from]) == Ok::<T, Fault>(v),
    ensures
        prepend(start, each(items, f, from)) == prepend(start.push(v), each(items, f, from + 1)),
{
    match each(items, f, from + 1) {
        Ok(rest) => {
            assert(start + (seq![v] + rest) =~= start.push(v) + rest);
        },
        Err(e) => {},
    }
}

/// A value that has to be a table.
pub open spec fn as_table(v: LuaValue) -> Result<LuaTable, Fault> {
    match v.kind {
        LuaKind::Table(t) => Ok(t),
        _ => Err(Fault::Wrong("item"@)),
    }
}

// ---- outputs ----

pub open spec fn mode_of(t: LuaTable) -> Result<Option<ModeConfig>, Fault> {
    match t.table("mode"@) {
        None => Ok(None),
        Some(m) => match needed(m.signed("width"@), "width"@) {
            Err(e) => Err(e),
            Ok(width) => match needed(m.signed("height"@), "height"@) {
                Err(e) => Err(e),
                Ok(height) => Ok(Some(ModeConfig { width, height, refresh: m.signed("refresh"@) })),
            },
        },
    }
}

fn parse_mode(t: &LuaTable) -> (r: Result<Option<ModeConfig>, ConfigError>)
    ensures
        gives(r, mode_of(*t)),
{
    match t.get_table("mode") {
        None => Ok(None),
        Some(m) => {
            let width: i32 = match need_signed(m, "width") {
                Ok(v) => v,
                Err(e) => {
                    return Err(e);
                },
            };
            let height: i32 = match need_signed(m, "height") {
                Ok(v) => v,
                Err(e) => {
                    return Err(e);
                },
            };
            Ok(Some(ModeConfig { width, height, refresh: m.get_signed("refresh") }))
        },
    }
}

pub open spec fn position_of(t: LuaTable) -> Result<Option<(i32, i32)>, Fault> {
    match t.table("position"@) {
        None => Ok(None),
        Some(p) => match needed(p.signed("x"@), "x"@) {
            Err(e) => Err(e),
            Ok(x) => match needed(p.signed("y"@), "y"@) {
                Err(e) => Err(e),
                Ok(y) => Ok(Some((x, y))),
            },
        },
    }
}

fn parse_position(t: &LuaTable) -> (r: Result<Option<(i32, i32)>, ConfigError>)
    ensures
        gives(r, position_of(*t)),
{
    match t.get_table("position") {
        None => Ok(None),
        Some(p) => {
            let x: i32 = match need_signed(p, "x") {
                Ok(v) => v,
                Err(e) => {
                    return Err(e);
                },
            };
            let y: i32 = match need_signed(p, "y") {
                Ok(v) => v,
                Err(e) => {
                    return Err(e);
                },
            };
            Ok(Some((x, y)))
        },
    }
}

/// What a table says of an output. Its name is needed, and of a mode both
/// sides, and of a position both coordinates.
pub open spec fn output_of(t: LuaTable) -> Result<OutputConfig, Fault> {
    match needed(t.text("name"@), "name"@) {
        Err(e) => Err(e),
        Ok(name) => match mode_of(t) {
            Err(e) => Err(e),
            Ok(mode) => match position_of(t) {
                Err(e) => Err(e),
                Ok(position) => Ok(
                    OutputConfig {
                        name,
                        mode,
                        position,
                        scale: t.double("scale"@),
                        transform: t.text("transform"@),
                    },
                ),
            },
        },
    }
}

/// A single output.
pub fn parse_single_output(t: &LuaTable) -> (r: Result<OutputConfig, ConfigError>)
    ensures
        gives(r, output_of(*t)),
{
    let name = match need_text(t, "name") {
        Ok(v) => v,
        Err(e) => {
            return Err(e);
        },
    };
    let mode = match parse_mode(t) {
        Ok(v) => v,
        Err(e) => {
            return Err(e);
        },
    };
    let position = match parse_position(t) {
        Ok(v) => v,
        Err(e) => {
            return Err(e);
        },
    };
    Ok(
        OutputConfig {
            name,
            mode,
            position,
            scale: t.get_double("scale"),
            transform: t.get_text("transform"),
        },
    )
}

pub open spec fn output_item(v: LuaValue) -> Result<OutputConfig, Fault> {
    match as_table(v) {
        Ok(t) => output_of(t),
        Err(e) => Err(e),
    }
}

/// A list of outputs.
pub fn parse_outputs(table: &LuaTable) -> (r: Result<Vec<OutputConfig>, ConfigError>)
    ensures
        lists(r, each(table.items@, |v: LuaValue| output_item(v), 0)),
{
    let ghost f = |v: LuaValue| output_item(v);
    let ghost items = table.items@;
    let mut out: Vec<OutputConfig> = Vec::new();
    let mut i: usize = 0;
    proof {
        each_starts(items, f);
    }
    while i < table.items.len()
        invariant
            i <= items.len(),
            items == table.items@,
            f == (|v: LuaValue| output_item(v)),
            each(items, f, 0) == prepend(out@, each(items, f, i as int)),
        decreases items.len() - i,
    {
        let t = match &table.items[i].kind {
            LuaKind::Table(t) => t,
            _ => {
                return Err(ConfigError::wrong("item"));
            },
        };
        let o = match parse_single_output(t) {
            Ok(o) => o,
            Err(e) => {
                return Err(e);
            },
        };
        proof {
            each_goes_on(items, f, out@, i as int, o);
        }
        out.push(o);
        i = i + 1;
    }
    assert(out@ + Seq::<OutputConfig>::empty() =~= out@);
    Ok(out)
}

// ---- bindings ----

pub open spec fn text_item(v: LuaValue) -> Result<String, Fault> {
    needed(v.text, "item"@)
}

/// The modifiers that a value names: those of a list, or the one of a text.
pub open spec fn modifiers_of(kind: LuaKind, text: Option<String>) -> Result<Seq<String>, Fault> {
    match kind {
        LuaKind::Table(t) => each(t.items@, |v: LuaValue| text_item(v), 0),
        LuaKind::Text => match needed(text, "modifiers"@) {
            Ok(s) => Ok(seq![s]),
            Err(e) => Err(e),
        },
        _ => Ok(Seq::empty()),
    }
}

fn parse_texts(table: &LuaTable) -> (r: Result<Vec<String>, ConfigError>)
    ensures
        lists(r, each(table.items@, |v: LuaValue| text_item(v), 0)),
{
    let ghost f = |v: LuaValue| text_item(v);
    let ghost items = table.items@;
    let mut out: Vec<String> = Vec::new();
    let mut i: usize = 0;
    proof {
        each_starts(items, f);
    }
    while i < table.items.len()
        invariant
            i <= items.len(),
            items == table.items@,
            f == (|v: LuaValue| text_item(v)),
            each(items, f, 0) == prepend(out@, each(items, f, i as int)),
        decreases items.len() - i,
    {
        let s = match &table.items[i].text {
            Some(s) => s.clone(),
            None => {
                return Err(ConfigError::wrong("item"));
            },
        };
        proof {
            each_goes_on(items, f, out@, i as int, s);
        }
        out.push(s);
        i = i + 1;
    }
    assert(out@ + Seq::<String>::empty() =~= out@);
    Ok(out)
}

/// The modifiers of a binding: a list of texts, or a single one. Anything else
/// stands for none.
pub fn parse_modifiers_value(value: &LuaValue) -> (r: Result<Vec<String>, ConfigError>)
    ensures
        lists(r, modifiers_of(value.kind, value.text)),
{
    match &value.kind {
        LuaKind::Table(t) => parse_texts(t),
        LuaKind::Text => match &value.text {
            Some(s) => {
                let r: Vec<String> = vec![s.clone()];
                assert(r@ =~= seq![value.text->0]);
                Ok(r)
            },
            None => Err(ConfigError::wrong("modifiers")),
        },
        _ => {
            let r: Vec<String> = Vec::new();
            assert(r@ =~= Seq::empty());
            Ok(r)
        },
    }
}

/// The actions that need nothing but their name in an action descriptor.
pub open spec fn plain_action(kind: Seq<char>) -> Option<BindAction> {
    if kind == "Quit"@ {
        Some(BindAction::Quit)
    } else if kind == "CloseWindow"@ {
        Some(BindAction::CloseWindow)
    } else if kind == "Screenshot"@ {
        Some(BindAction::Screenshot)
    } else if kind == "ToggleDecorations"@ {
        Some(BindAction::ToggleDecorations)
    } else if kind == "TogglePreview"@ {
        Some(BindAction::TogglePreview)
    } else if kind == "ScaleUp"@ {
        Some(BindAction::ScaleUp)
    } else if kind == "ScaleDown"@ {
        Some(BindAction::ScaleDown)
    } else if kind == "RotateOutput"@ {
        Some(BindAction::RotateOutput)
    } else if kind == "ToggleTint"@ {
        Some(BindAction::ToggleTint)
    } else {
        None
    }
}

/// The further actions that an action descriptor of the `bk` functions has.
pub open spec fn later_action(kind: Seq<char>) -> Option<BindAction> {
    if kind == "ToggleFloating"@ {
        Some(BindAction::ToggleFloating)
    } else if kind == "FocusNext"@ {
        Some(BindAction::FocusNext)
    } else if kind == "FocusPrev"@ {
        Some(BindAction::FocusPrev)
    } else if kind == "WorkspaceNext"@ {
        Some(BindAction::WorkspaceNext)
    } else if kind == "WorkspacePrev"@ {
        Some(BindAction::WorkspacePrev)
    } else if kind == "ResizeWidthUp"@ {
        Some(BindAction::ResizeWidthUp)
    } else if kind == "ResizeWidthDown"@ {
        Some(BindAction::ResizeWidthDown)
    } else if kind == "ToggleFullscreen"@ {
        Some(BindAction::ToggleFullscreen)
    } else if kind == "ToggleMaximize"@ {
        Some(BindAction::ToggleMaximize)
    } else {
        None
    }
}

fn find_plain_action(kind: &str) -> (r: Option<BindAction>)
    ensures
        r == plain_action(kind@),
{
    if same(kind, "Quit") {
        Some(BindAction::Quit)
    } else if same(kind, "CloseWindow") {
        Some(BindAction::CloseWindow)
    } else if same(kind, "Screenshot") {
        Some(BindAction::Screenshot)
    } else if same(kind, "ToggleDecorations") {
        Some(BindAction::ToggleDecorations)
    } else if same(kind, "TogglePreview") {
        Some(BindAction::TogglePreview)
    } else if same(kind, "ScaleUp") {
        Some(BindAction::ScaleUp)
    } else if same(kind, "ScaleDown") {
        Some(BindAction::ScaleDown)
    } else if same(kind, "RotateOutput") {
        Some(BindAction::RotateOutput)
    } else if same(kind, "ToggleTint") {
        Some(BindAction::ToggleTint)
    } else {
        None
    }
}

fn find_later_action(kind: &str) -> (r: Option<BindAction>)
    ensures
        r == later_action(kind@),
{
    if same(kind, "ToggleFloating") {
        Some(BindAction::ToggleFloating)
    } else if same(kind, "FocusNext") {
        Some(BindAction::FocusNext)
    } else if same(kind, "FocusPrev") {
        Some(BindAction::FocusPrev)
    } else if same(kind, "WorkspaceNext") {
        Some(BindAction::WorkspaceNext)
    } else if same(kind, "WorkspacePrev") {
        Some(BindAction::WorkspacePrev)
    } else if same(kind, "ResizeWidthUp") {
        Some(BindAction::ResizeWidthUp)
    } else if same(kind, "ResizeWidthDown") {
        Some(BindAction::ResizeWidthDown)
    } else if same(kind, "ToggleFullscreen") {
        Some(BindAction::ToggleFullscreen)
    } else if same(kind, "ToggleMaximize") {
        Some(BindAction::ToggleMaximize)
    } else {
        None
    }
}

/// The actions with a command or a number. Neither an error nor an action where
/// the kind is none of these.
pub open spec fn action_with_value(t: LuaTable, kind: Seq<char>) -> Result<Option<BindAction>, Fault> {
    if kind == "Run"@ {
        match needed(t.text("command"@), "command"@) {
            Ok(command) => Ok(Some(BindAction::Run(command))),
            Err(e) => Err(e),
        }
    } else if kind == "VtSwitch"@ {
        match needed(t.signed("n"@), "n"@) {
            Ok(n) => Ok(Some(BindAction::VtSwitch(n))),
            Err(e) => Err(e),
        }
    } else if kind == "Screen"@ {
        match needed(t.size("n"@), "n"@) {
            Ok(n) => Ok(Some(BindAction::Screen(n))),
            Err(e) => Err(e),
        }
    } else {
        Ok(None)
    }
}

fn find_action_with_value(t: &LuaTable, kind: &str) -> (r: Result<Option<BindAction>, ConfigError>)
    ensures
        gives(r, action_with_value(*t, kind@)),
{
    if same(kind, "Run") {
        match need_text(t, "command") {
            Ok(command) => Ok(Some(BindAction::Run(command))),
            Err(e) => Err(e),
        }
    } else if same(kind, "VtSwitch") {
        match need_signed(t, "n") {
            Ok(n) => Ok(Some(BindAction::VtSwitch(n))),
            Err(e) => Err(e),
        }
    } else if same(kind, "Screen") {
        match need_size(t, "n") {
            Ok(n) => Ok(Some(BindAction::Screen(n))),
            Err(e) => Err(e),
        }
    } else {
        Ok(None)
    }
}

/// What an action descriptor stands for.
pub open spec fn descriptor_action(t: LuaTable) -> Result<BindAction, Fault> {
    match needed(t.text("type"@), "type"@) {
        Err(e) => Err(e),
        Ok(kind) => match plain_action(kind@) {
            Some(a) => Ok(a),
            None => match later_action(kind@) {
                Some(a) => Ok(a),
                None => match action_with_value(t, kind@) {
                    Err(e) => Err(e),
                    Ok(Some(a)) => Ok(a),
                    Ok(None) => if kind@ == "Workspace"@ {
                        match needed(t.size("n"@), "n"@) {
                            Ok(n) => Ok(BindAction::Workspace(n)),
                            Err(e) => Err(e),
                        }
                    } else {
                        Err(Fault::Message("Unknown bind action type: "@ + kind@))
                    },
                },
            },
        },
    }
}

fn parse_descriptor(t: &LuaTable) -> (r: Result<BindAction, ConfigError>)
    ensures
        gives(r, descriptor_action(*t)),
{
    let kind = match need_text(t, "type") {
        Ok(k) => k,
        Err(e) => {
            return Err(e);
        },
    };
    match find_plain_action(&kind) {
        Some(a) => {
            return Ok(a);
        },
        None => {},
    }
    match find_later_action(&kind) {
        Some(a) => {
            return Ok(a);
        },
        None => {},
    }
    match find_action_with_value(t, &kind) {
        Err(e) => {
            return Err(e);
        },
        Ok(Some(a)) => {
            return Ok(a);
        },
        Ok(None) => {},
    }
    if same(&kind, "Workspace") {
        match need_size(t, "n") {
            Ok(n) => Ok(BindAction::Workspace(n)),
            Err(e) => Err(e),
        }
    } else {
        Err(ConfigError::about("Unknown bind action type: ", &kind))
    }
}

/// What the action of a binding stands for, where `count` functions are known
/// already.
pub open spec fn action_of(v: LuaValue, count: int) -> Result<BindAction, Fault> {
    match v.kind {
        LuaKind::Table(t) => descriptor_action(t),
        LuaKind::Function(h) => Ok(BindAction::Callback(count as usize)),
        _ => Err(Fault::Message("bind action must be a table or function, got "@ + v.shown@)),
    }
}

/// The functions known after a value was read: one more, where it is one.
pub open spec fn with_function(callbacks: Seq<u64>, kind: LuaKind) -> Seq<u64> {
    match kind {
        LuaKind::Function(h) => callbacks.push(h),
        _ => callbacks,
    }
}

/// The action of a binding: an action descriptor, or a function, which is kept
/// for later.
pub fn parse_action_value(callbacks: &mut Vec<u64>, value: &LuaValue) -> (r: Result<
    BindAction,
    ConfigError,
>)
    ensures
        gives(r, action_of(*value, old(callbacks)@.len() as int)),
        final(callbacks)@ == with_function(old(callbacks)@, value.kind),
{
    match &value.kind {
        LuaKind::Table(t) => parse_descriptor(t),
        LuaKind::Function(h) => {
            let at: usize = callbacks.len();
            callbacks.push(*h);
            Ok(BindAction::Callback(at))
        },
        _ => Err(ConfigError::about("bind action must be a table or function, got ", &value.shown)),
    }
}

/// What the action of a binding in a list stands for.
pub open spec fn kind_action(t: LuaTable) -> Result<BindAction, Fault> {
    match needed(t.text("kind"@), "kind"@) {
        Err(e) => Err(e),
        Ok(kind) => match plain_action(kind@) {
            Some(a) => Ok(a),
            None => match action_with_value(t, kind@) {
                Err(e) => Err(e),
                Ok(Some(a)) => Ok(a),
                Ok(None) => Err(Fault::Message("Unknown bind action kind: "@ + kind@)),
            },
        },
    }
}

/// The action of a binding in a list.
pub fn parse_bind_action(table: &LuaTable) -> (r: Result<BindAction, ConfigError>)
    ensures
        gives(r, kind_action(*table)),
{
    let kind = match need_text(table, "kind") {
        Ok(k) => k,
        Err(e) => {
            return Err(e);
        },
    };
    match find_plain_action(&kind) {
        Some(a) => {
            return Ok(a);
        },
        None => {},
    }
    match find_action_with_value(table, &kind) {
        Err(e) => Err(e),
        Ok(Some(a)) => Ok(a),
        Ok(None) => Err(ConfigError::about("Unknown bind action kind: ", &kind)),
    }
}

/// A binding, as contracts speak of it.
pub struct BindParts {
    pub modifiers: Seq<String>,
    pub key: String,
    pub action: BindAction,
}

impl BindConfig {
    pub open spec fn parts(self) -> BindParts {
        BindParts { modifiers: self.modifiers@, key: self.key, action: self.action }
    }
}

/// The parts of some bindings.
pub open spec fn parts_of(binds: Seq<BindConfig>) -> Seq<BindParts> {
    binds.map_values(|b: BindConfig| b.parts())
}

/// The modifiers of a binding in a list; none where nothing is said.
pub open spec fn listed_modifiers(t: LuaTable) -> Result<Seq<String>, Fault> {
    match t.at("modifiers"@) {
        Some(v) => modifiers_of(v.kind, v.text),
        None => Ok(Seq::empty()),
    }
}

/// What an entry of a list of bindings says.
pub open spec fn bind_item(v: LuaValue) -> Result<BindParts, Fault> {
    match as_table(v) {
        Err(e) => Err(e),
        Ok(t) => match listed_modifiers(t) {
            Err(e) => Err(e),
            Ok(modifiers) => match needed(t.text("key"@), "key"@) {
                Err(e) => Err(e),
                Ok(key) => match needed(t.table("action"@), "action"@) {
                    Err(e) => Err(e),
                    Ok(a) => match kind_action(a) {
                        Err(e) => Err(e),
                        Ok(action) => Ok(BindParts { modifiers, key, action }),
                    },
                },
            },
        },
    }
}

fn parse_bind(v: &LuaValue) -> (r: Result<BindConfig, ConfigError>)
    ensures
        match bind_item(*v) {
            Ok(b) => r matches Ok(x) && x.parts() == b,
            Err(f) => r matches Err(e) && e@ == f,
        },
{
    let t = match &v.kind {
        LuaKind::Table(t) => t,
        _ => {
            return Err(ConfigError::wrong("item"));
        },
    };
    let modifiers = match t.get("modifiers") {
        Some(m) => match parse_modifiers_value(m) {
            Ok(m) => m,
            Err(e) => {
                return Err(e);
            },
        },
        None => {
            let none: Vec<String> = Vec::new();
            assert(none@ =~= Seq::empty());
            none
        },
    };
    let key = match need_text(t, "key") {
        Ok(k) => k,
        Err(e) => {
            return Err(e);
        },
    };
    let action_table = match t.get_table("action") {
        Some(a) => a,
        None => {
            return Err(ConfigError::wrong("action"));
        },
    };
    match parse_bind_action(action_table) {
        Ok(action) => Ok(BindConfig { modifiers, key, action }),
        Err(e) => Err(e),
    }
}

/// Whether `r` holds the bindings that `s` says, or its error.
pub open spec fn lists_binds(
    r: Result<Vec<BindConfig>, ConfigError>,
    s: Result<Seq<BindParts>, Fault>,
) -> bool {
    match s {
        Ok(v) => r matches Ok(x) && parts_of(x@) == v,
        Err(f) => r matches Err(e) && e@ == f,
    }
}

/// A list of bindings.
pub fn parse_binds(table: &LuaTable) -> (r: Result<Vec<BindConfig>, ConfigError>)
    ensures
        lists_binds(r, each(table.items@, |v: LuaValue| bind_item(v), 0)),
{
    let ghost f = |v: LuaValue| bind_item(v);
    let ghost items = table.items@;
    let mut out: Vec<BindConfig> = Vec::new();
    let mut i: usize = 0;
    proof {
        each_starts(items, f);
        assert(parts_of(out@) =~= Seq::empty());
    }
    while i < table.items.len()
        invariant
            i <= items.len(),
            items == table.items@,
            f == (|v: LuaValue| bind_item(v)),
            each(items, f, 0) == prepend(parts_of(out@), each(items, f, i as int)),
        decreases items.len() - i,
    {
        let b = match parse_bind(&table.items[i]) {
            Ok(b) => b,
            Err(e) => {
                return Err(e);
            },
        };
        proof {
            each_goes_on(items, f, parts_of(out@), i as int, b.parts());
            assert(parts_of(out@.push(b)) =~= parts_of(out@).push(b.parts()));
        }
        out.push(b);
        i = i + 1;
    }
    assert(parts_of(out@) + Seq::<BindParts>::empty() =~= parts_of(out@));
    Ok(out)
}

// ---- environment, cursor ----

/// The variables of the entries from `from` on, set one after the other.
pub open spec fn env_from(
    pairs: Seq<LuaPair>,
    from: int,
    env: Map<Seq<char>, Seq<char>>,
) -> Result<Map<Seq<char>, Seq<char>>, Fault>
    decreases pairs.len() - from,
{
    if from < 0 || from >= pairs.len() {
        Ok(env)
    } else {
        match (pairs[from].key, pairs[from].value.text) {
            (Some(k), Some(v)) => env_from(pairs, from + 1, env.insert(k@, v@)),
            _ => Err(Fault::Wrong("env"@)),
        }
    }
}

/// The environment variables. Names and values have to be texts or numbers.
pub fn parse_env(table: &LuaTable) -> (r: Result<EnvVars, ConfigError>)
    ensures
        match env_from(table.pairs@, 0, Map::empty()) {
            Ok(m) => r matches Ok(env) && env.wf() && env@ == m,
            Err(f) => r matches Err(e) && e@ == f,
        },
{
    let mut env = EnvVars::new();
    let mut i: usize = 0;
    while i < table.pairs.len()
        invariant
            i <= table.pairs@.len(),
            env.wf(),
            env_from(table.pairs@, 0, Map::empty()) == env_from(table.pairs@, i as int, env@),
        decreases table.pairs@.len() - i,
    {
        let pair = &table.pairs[i];
        match (&pair.key, &pair.value.text) {
            (Some(k), Some(v)) => {
                env.insert(k.clone(), v.clone());
            },
            _ => {
                return Err(ConfigError::wrong("env"));
            },
        }
        i = i + 1;
    }
    Ok(env)
}

/// The cursor.
pub fn parse_cursor(table: &LuaTable) -> (r: CursorConfig)
    ensures
        r == (CursorConfig { theme: table.text("theme"@), size: table.word("size"@) }),
{
    CursorConfig { theme: table.get_text("theme"), size: table.get_word("size") }
}

// ---- laws ----

/// The action that a descriptor gives is the one of its type's name, and no
/// other: each name gives the action of its own name, with what the action
/// needs taken from the same table.
pub proof fn actions_have_their_names(t: LuaTable, kind: String)
    requires
        t.text("type"@) == Some(kind),
    ensures
        kind@ == "Quit"@ ==> descriptor_action(t) == Ok::<BindAction, Fault>(BindAction::Quit),
        kind@ == "CloseWindow"@ ==> descriptor_action(t) == Ok::<BindAction, Fault>(BindAction::CloseWindow),
        kind@ == "Screenshot"@ ==> descriptor_action(t) == Ok::<BindAction, Fault>(BindAction::Screenshot),
        kind@ == "ToggleDecorations"@ ==> descriptor_action(t) == Ok::<BindAction, Fault>(BindAction::ToggleDecorations),
        kind@ == "TogglePreview"@ ==> descriptor_action(t) == Ok::<BindAction, Fault>(BindAction::TogglePreview),
        kind@ == "ScaleUp"@ ==> descriptor_action(t) == Ok::<BindAction, Fault>(BindAction::ScaleUp),
        kind@ == "ScaleDown"@ ==> descriptor_action(t) == Ok::<BindAction, Fault>(BindAction::ScaleDown),
        kind@ == "RotateOutput"@ ==> descriptor_action(t) == Ok::<BindAction, Fault>(BindAction::RotateOutput),
        kind@ == "ToggleTint"@ ==> descriptor_action(t) == Ok::<BindAction, Fault>(BindAction::ToggleTint),
        kind@ == "ToggleFloating"@ ==> descriptor_action(t) == Ok::<BindAction, Fault>(BindAction::ToggleFloating),
        kind@ == "FocusNext"@ ==> descriptor_action(t) == Ok::<BindAction, Fault>(BindAction::FocusNext),
        kind@ == "FocusPrev"@ ==> descriptor_action(t) == Ok::<BindAction, Fault>(BindAction::FocusPrev),
        kind@ == "WorkspaceNext"@ ==> descriptor_action(t) == Ok::<BindAction, Fault>(BindAction::WorkspaceNext),
        kind@ == "WorkspacePrev"@ ==> descriptor_action(t) == Ok::<BindAction, Fault>(BindAction::WorkspacePrev),
        kind@ == "ResizeWidthUp"@ ==> descriptor_action(t) == Ok::<BindAction, Fault>(BindAction::ResizeWidthUp),
        kind@ == "ResizeWidthDown"@ ==> descriptor_action(t) == Ok::<BindAction, Fault>(BindAction::ResizeWidthDown),
        kind@ == "ToggleFullscreen"@ ==> descriptor_action(t) == Ok::<BindAction, Fault>(BindAction::ToggleFullscreen),
        kind@ == "ToggleMaximize"@ ==> descriptor_action(t) == Ok::<BindAction, Fault>(BindAction::ToggleMaximize),
        kind@ == "Run"@ ==> (match t.text("command"@) {
            Some(c) => descriptor_action(t) == Ok::<BindAction, Fault>(BindAction::Run(c)),
            None => descriptor_action(t) == Err::<BindAction, Fault>(Fault::Wrong("command"@)),
        }),
        kind@ == "VtSwitch"@ ==> (match t.signed("n"@) {
            Some(n) => descriptor_action(t) == Ok::<BindAction, Fault>(BindAction::VtSwitch(n)),
            None => descriptor_action(t) == Err::<BindAction, Fault>(Fault::Wrong("n"@)),
        }),
        kind@ == "Screen"@ ==> (match t.size("n"@) {
            Some(n) => descriptor_action(t) == Ok::<BindAction, Fault>(BindAction::Screen(n)),
            None => descriptor_action(t) == Err::<BindAction, Fault>(Fault::Wrong("n"@)),
        }),
        kind@ == "Workspace"@ ==> (match t.size("n"@) {
            Some(n) => descriptor_action(t) == Ok::<BindAction, Fault>(BindAction::Workspace(n)),
            None => descriptor_action(t) == Err::<BindAction, Fault>(Fault::Wrong("n"@)),
        }),
{
    reveal_strlit("Quit");
    reveal_strlit("CloseWindow");
    reveal_strlit("Screenshot");
    reveal_strlit("ToggleDecorations");
    reveal_strlit("TogglePreview");
    reveal_strlit("ScaleUp");
    reveal_strlit("ScaleDown");
    reveal_strlit("RotateOutput");
    reveal_strlit("ToggleTint");
    reveal_strlit("ToggleFloating");
    reveal_strlit("FocusNext");
    reveal_strlit("FocusPrev");
    reveal_strlit("WorkspaceNext");
    reveal_strlit("WorkspacePrev");
    reveal_strlit("ResizeWidthUp");
    reveal_strlit("ResizeWidthDown");
    reveal_strlit("ToggleFullscreen");
    reveal_strlit("ToggleMaximize");
    reveal_strlit("Run");
    reveal_strlit("VtSwitch");
    reveal_strlit("Screen");
    reveal_strlit("Workspace");
    assert("Quit"@.len() == 4);
    assert("CloseWindow"@.len() == 11);
    assert("Screenshot"@.len() == 10);
    assert("ToggleDecorations"@.len() == 17);
    assert("TogglePreview"@.len() == 13);
    assert("ScaleUp"@.len() == 7);
    assert("ScaleDown"@.len() == 9);
    assert("RotateOutput"@.len() == 12);
    assert("ToggleTint"@.len() == 10);
    assert("ToggleFloating"@.len() == 14);
    assert("FocusNext"@.len() == 9);
    assert("FocusPrev"@.len() == 9);
    assert("WorkspaceNext"@.len() == 13);
    assert("WorkspacePrev"@.len() == 13);
    assert("ResizeWidthUp"@.len() == 13);
    assert("ResizeWidthDown"@.len() == 15);
    assert("ToggleFullscreen"@.len() == 16);
    assert("ToggleMaximize"@.len() == 14);
    assert("Run"@.len() == 3);
    assert("VtSwitch"@.len() == 8);
    assert("Screen"@.len() == 6);
    assert("Workspace"@.len() == 9);
    assert("Screenshot"@[0] != "ToggleTint"@[0]);
    assert("TogglePreview"@[0] != "WorkspaceNext"@[0]);
    assert("TogglePreview"@[0] != "WorkspacePrev"@[0]);
    assert("TogglePreview"@[0] != "ResizeWidthUp"@[0]);
    assert("ScaleDown"@[0] != "FocusNext"@[0]);
    assert("ScaleDown"@[0] != "FocusPrev"@[0]);
    assert("ScaleDown"@[0] != "Workspace"@[0]);
    assert("ToggleFloating"@[6] != "ToggleMaximize"@[6]);
    assert("FocusNext"@[5] != "FocusPrev"@[5]);
    assert("FocusNext"@[0] != "Workspace"@[0]);
    assert("FocusPrev"@[0] != "Workspace"@[0]);
    assert("WorkspaceNext"@[9] != "WorkspacePrev"@[9]);
    assert("WorkspaceNext"@[0] != "ResizeWidthUp"@[0]);
    assert("WorkspacePrev"@[0] != "ResizeWidthUp"@[0]);
}

/// A name that no action has is refused, with a message that holds it.
pub proof fn unknown_actions_are_refused(t: LuaTable, kind: String)
    requires
        t.text("type"@) == Some(kind),
        kind@ != "Quit"@,
        kind@ != "CloseWindow"@,
        kind@ != "Screenshot"@,
        kind@ != "ToggleDecorations"@,
        kind@ != "TogglePreview"@,
        kind@ != "ScaleUp"@,
        kind@ != "ScaleDown"@,
        kind@ != "RotateOutput"@,
        kind@ != "ToggleTint"@,
        kind@ != "ToggleFloating"@,
        kind@ != "FocusNext"@,
        kind@ != "FocusPrev"@,
        kind@ != "WorkspaceNext"@,
        kind@ != "WorkspacePrev"@,
        kind@ != "ResizeWidthUp"@,
        kind@ != "ResizeWidthDown"@,
        kind@ != "ToggleFullscreen"@,
        kind@ != "ToggleMaximize"@,
        kind@ != "Run"@,
        kind@ != "VtSwitch"@,
        kind@ != "Screen"@,
        kind@ != "Workspace"@,
    ensures
        descriptor_action(t) == Err::<BindAction, Fault>(
            Fault::Message("Unknown bind action type: "@ + kind@),
        ),
{
}

/// A descriptor without a type is refused.
pub proof fn actions_need_a_type(t: LuaTable)
    requires
        t.text("type"@) is None,
    ensures
        descriptor_action(t) == Err::<BindAction, Fault>(Fault::Wrong("type"@)),
{
}

/// In the list of bindings the action goes by its kind: the first actions by
/// name, and no action that came later.
pub proof fn listed_actions_have_their_names(t: LuaTable, kind: String)
    requires
        t.text("kind"@) == Some(kind),
    ensures
        kind@ == "Quit"@ ==> kind_action(t) == Ok::<BindAction, Fault>(BindAction::Quit),
        kind@ == "CloseWindow"@ ==> kind_action(t) == Ok::<BindAction, Fault>(BindAction::CloseWindow),
        kind@ == "Screenshot"@ ==> kind_action(t) == Ok::<BindAction, Fault>(BindAction::Screenshot),
        kind@ == "ToggleDecorations"@ ==> kind_action(t) == Ok::<BindAction, Fault>(BindAction::ToggleDecorations),
        kind@ == "TogglePreview"@ ==> kind_action(t) == Ok::<BindAction, Fault>(BindAction::TogglePreview),
        kind@ == "ScaleUp"@ ==> kind_action(t) == Ok::<BindAction, Fault>(BindAction::ScaleUp),
        kind@ == "ScaleDown"@ ==> kind_action(t) == Ok::<BindAction, Fault>(BindAction::ScaleDown),
        kind@ == "RotateOutput"@ ==> kind_action(t) == Ok::<BindAction, Fault>(BindAction::RotateOutput),
        kind@ == "ToggleTint"@ ==> kind_action(t) == Ok::<BindAction, Fault>(BindAction::ToggleTint),
        kind@ == "Run"@ && t.text("command"@) is Some ==> kind_action(t) == Ok::<
            BindAction,
            Fault,
        >(BindAction::Run(t.text("command"@)->0)),
        kind@ == "Run"@ && t.text("command"@) is None ==> kind_action(t) == Err::<
            BindAction,
            Fault,
        >(Fault::Wrong("command"@)),
        kind@ == "VtSwitch"@ && t.signed("n"@) is Some ==> kind_action(t) == Ok::<BindAction, Fault>(
            BindAction::VtSwitch(t.signed("n"@)->0),
        ),
        kind@ == "VtSwitch"@ && t.signed("n"@) is None ==> kind_action(t) == Err::<
            BindAction,
            Fault,
        >(Fault::Wrong("n"@)),
        kind@ == "Screen"@ && t.size("n"@) is Some ==> kind_action(t) == Ok::<BindAction, Fault>(
            BindAction::Screen(t.size("n"@)->0),
        ),
        kind@ == "Screen"@ && t.size("n"@) is None ==> kind_action(t) == Err::<BindAction, Fault>(
            Fault::Wrong("n"@),
        ),
        kind@ != "Quit"@ && kind@ != "CloseWindow"@ && kind@ != "Screenshot"@ && kind@ != "ToggleDecorations"@ && kind@ != "TogglePreview"@ && kind@ != "ScaleUp"@ && kind@ != "ScaleDown"@ && kind@ != "RotateOutput"@ && kind@ != "ToggleTint"@ && kind@ != "Run"@ && kind@ != "VtSwitch"@ && kind@ != "Screen"@ ==> kind_action(t) == Err::<BindAction, Fault>(
            Fault::Message("Unknown bind action kind: "@ + kind@),
        ),
{
    reveal_strlit("Quit");
    reveal_strlit("CloseWindow");
    reveal_strlit("Screenshot");
    reveal_strlit("ToggleDecorations");
    reveal_strlit("TogglePreview");
    reveal_strlit("ScaleUp");
    reveal_strlit("ScaleDown");
    reveal_strlit("RotateOutput");
    reveal_strlit("ToggleTint");
    reveal_strlit("Run");
    reveal_strlit("VtSwitch");
    reveal_strlit("Screen");
    assert("Quit"@.len() == 4);
    assert("CloseWindow"@.len() == 11);
    assert("Screenshot"@.len() == 10);
    assert("ToggleDecorations"@.len() == 17);
    assert("TogglePreview"@.len() == 13);
    assert("ScaleUp"@.len() == 7);
    assert("ScaleDown"@.len() == 9);
    assert("RotateOutput"@.len() == 12);
    assert("ToggleTint"@.len() == 10);
    assert("Run"@.len() == 3);
    assert("VtSwitch"@.len() == 8);
    assert("Screen"@.len() == 6);
    assert("Screenshot"@[0] != "ToggleTint"@[0]);
}

/// What is bound to a key is a descriptor or a function and nothing else. A
/// function is called by the place that it takes among the functions, which is
/// behind all the earlier ones; a descriptor leaves the functions as they are.
pub proof fn functions_are_bound_by_their_place(callbacks: Seq<u64>, v: LuaValue)
    requires
        callbacks.len() < usize::MAX,
    ensures
        v.kind matches LuaKind::Function(h) ==> ({
            let after = with_function(callbacks, v.kind);
            &&& action_of(v, callbacks.len() as int) matches Ok(BindAction::Callback(place))
            &&& place == callbacks.len()
            &&& after.len() == callbacks.len() + 1
            &&& after[place as int] == h
            &&& forall|i: int| 0 <= i < callbacks.len() ==> after[i] == callbacks[i]
        }),
        !(v.kind is Function) ==> with_function(callbacks, v.kind) == callbacks,
        !(v.kind is Function || v.kind is Table) ==> action_of(v, callbacks.len() as int) == Err::<
            BindAction,
            Fault,
        >(Fault::Message("bind action must be a table or function, got "@ + v.shown@)),
        v.kind matches LuaKind::Table(t) ==> action_of(v, callbacks.len() as int)
            == descriptor_action(t),
{
}

/// A list that is read item by item gives one result for each item, in order,
/// and fails exactly if an item fails, with the fault of the first that does.
pub proof fn lists_are_read_item_by_item<T>(
    items: Seq<LuaValue>,
    f: spec_fn(LuaValue) -> Result<T, Fault>,
    from: int,
)
    requires
        0 <= from <= items.len(),
    ensures
        each(items, f, from) matches Ok(v) ==> v.len() == items.len() - from && forall|i: int|
            0 <= i < v.len() ==> f(items[from + i]) == Ok::<T, Fault>(#[trigger] v[i]),
        each(items, f, from) matches Err(e) ==> exists|i: int|
            from <= i < items.len() && #[trigger] f(items[i]) == Err::<T, Fault>(e) && forall|j: int|
                from <= j < i ==> (#[trigger] f(items[j])) is Ok,
    decreases items.len() - from,
{
    if from < items.len() {
        lists_are_read_item_by_item(items, f, from + 1);
        match f(items[from]) {
            Err(e) => {
                assert(f(items[from]) == Err::<T, Fault>(e));
            },
            Ok(v) => match each(items, f, from + 1) {
                Err(e) => {
                    let i = choose|i: int|
                        from + 1 <= i < items.len() && #[trigger] f(items[i]) == Err::<T, Fault>(e)
                            && forall|j: int|
                            from + 1 <= j < i ==> (#[trigger] f(items[j])) is Ok;
                    assert forall|j: int| from <= j < i implies (#[trigger] f(items[j])) is Ok by {
                        if j == from {
                        }
                    }
                    assert(f(items[i]) == Err::<T, Fault>(e));
                },
                Ok(rest) => {
                    let all = seq![v] + rest;
                    assert forall|i: int| 0 <= i < all.len() implies f(items[from + i]) == Ok::<
                        T,
                        Fault,
                    >(#[trigger] all[i]) by {
                        if i > 0 {
                            assert(all[i] == rest[i - 1]);
                            assert(f(items[from + 1 + (i - 1)]) == Ok::<T, Fault>(rest[i - 1]));
                        }
                    }
                },
            },
        }
    }
}

/// An output has the name, the scale and the transform of its table, and the
/// mode and the position of the tables in it. It needs a name; a mode needs a
/// width and a height, a position an x and a y.
pub proof fn outputs_are_as_the_table_says(t: LuaTable)
    ensures
        output_of(t) matches Ok(o) ==> ({
            &&& t.text("name"@) == Some(o.name)
            &&& o.scale == t.double("scale"@)
            &&& o.transform == t.text("transform"@)
            &&& o.mode is Some <==> t.table("mode"@) is Some
            &&& o.mode matches Some(m) ==> t.table("mode"@)->0.signed("width"@) == Some(m.width)
                && t.table("mode"@)->0.signed("height"@) == Some(m.height)
                && t.table("mode"@)->0.signed("refresh"@) == m.refresh
            &&& o.position is Some <==> t.table("position"@) is Some
            &&& o.position matches Some((x, y)) ==> t.table("position"@)->0.signed("x"@) == Some(x)
                && t.table("position"@)->0.signed("y"@) == Some(y)
        }),
        output_of(t) is Ok <==> {
            &&& t.text("name"@) is Some
            &&& t.table("mode"@) matches Some(m) ==> m.signed("width"@) is Some && m.signed(
                "height"@,
            ) is Some
            &&& t.table("position"@) matches Some(p) ==> p.signed("x"@) is Some && p.signed(
                "y"@,
            ) is Some
        },
        t.text("name"@) is None ==> output_of(t) == Err::<OutputConfig, Fault>(
            Fault::Wrong("name"@),
        ),
{
}

/// Modifiers are a list of texts, or one text; anything else is none of them.
pub proof fn modifiers_are_texts(kind: LuaKind, text: Option<String>)
    ensures
        kind is Text && text is Some ==> modifiers_of(kind, text) == Ok::<Seq<String>, Fault>(
            seq![text->0],
        ),
        !(kind is Text || kind is Table) ==> modifiers_of(kind, text) == Ok::<Seq<String>, Fault>(
            Seq::empty(),
        ),
        kind matches LuaKind::Table(t) ==> (modifiers_of(kind, text) matches Ok(all) ==> all.len()
            == t.items@.len() && forall|i: int|
            0 <= i < all.len() ==> t.items@[i].text == Some(#[trigger] all[i])),
        kind matches LuaKind::Table(t) ==> (modifiers_of(kind, text) is Err <==> exists|i: int|
            0 <= i < t.items@.len() && (#[trigger] t.items@[i]).text is None),
{
    if let LuaKind::Table(t) = kind {
        let f = |v: LuaValue| text_item(v);
        lists_are_read_item_by_item(t.items@, f, 0);
        match each(t.items@, f, 0) {
            Ok(all) => {
                assert forall|i: int| 0 <= i < all.len() implies t.items@[i].text == Some(
                    #[trigger] all[i],
                ) by {
                    assert(f(t.items@[0 + i]) == Ok::<String, Fault>(all[i]));
                }
                assert forall|i: int| 0 <= i < t.items@.len() implies !((
                #[trigger] t.items@[i]).text is None) by {
                    assert(t.items@[i].text == Some(all[i]));
                }
            },
            Err(e) => {
                let i = choose|i: int|
                    0 <= i < t.items@.len() && #[trigger] f(t.items@[i]) == Err::<String, Fault>(e);
                assert(t.items@[i].text is None);
            },
        }
    }
}

/// A binding has the modifiers, the key and the action of its table.
pub proof fn bindings_are_as_the_table_says(v: LuaValue)
    ensures
        bind_item(v) matches Ok(b) ==> (v.kind matches LuaKind::Table(t) && t.text("key"@) == Some(
            b.key,
        ) && t.table("action"@) is Some && kind_action(t.table("action"@)->0) == Ok::<
            BindAction,
            Fault,
        >(b.action) && (t.at("modifiers"@) is None ==> b.modifiers.len() == 0) && (t.at(
            "modifiers"@,
        ) matches Some(m) ==> modifiers_of(m.kind, m.text) == Ok::<Seq<String>, Fault>(
            b.modifiers,
        ))),
        !(v.kind is Table) ==> bind_item(v) is Err,
        v.kind matches LuaKind::Table(t) ==> (t.text("key"@) is None || t.table("action"@) is None
            ==> bind_item(v) is Err),
{
}

/// The environment is read exactly if every pair has a name and a text.
pub proof fn variables_need_names_and_texts(
    pairs: Seq<LuaPair>,
    from: int,
    env: Map<Seq<char>, Seq<char>>,
)
    requires
        0 <= from <= pairs.len(),
    ensures
        env_from(pairs, from, env) is Ok <==> forall|i: int|
            from <= i < pairs.len() ==> (#[trigger] pairs[i]).key is Some
                && pairs[i].value.text is Some,
    decreases pairs.len() - from,
{
    if from < pairs.len() {
        if pairs[from].key is Some && pairs[from].value.text is Some {
            let next = env.insert(pairs[from].key->0@, pairs[from].value.text->0@);
            variables_need_names_and_texts(pairs, from + 1, next);
        } else {
            assert(!(pairs[from].key is Some && pairs[from].value.text is Some));
        }
    }
}

/// A variable that no pair names keeps its value, or stays unset.
pub proof fn unnamed_variables_stay(
    pairs: Seq<LuaPair>,
    from: int,
    env: Map<Seq<char>, Seq<char>>,
    k: Seq<char>,
)
    requires
        0 <= from <= pairs.len(),
        env_from(pairs, from, env) is Ok,
        forall|i: int| from <= i < pairs.len() ==> (#[trigger] pairs[i]).key->0@ != k,
    ensures
        env_from(pairs, from, env)->Ok_0.contains_key(k) <==> env.contains_key(k),
        env.contains_key(k) ==> env_from(pairs, from, env)->Ok_0[k] == env[k],
    decreases pairs.len() - from,
{
    if from < pairs.len() {
        assert(pairs[from].key->0@ != k);
        let next = env.insert(pairs[from].key->0@, pairs[from].value.text->0@);
        unnamed_variables_stay(pairs, from + 1, next, k);
    }
}

/// A variable has the value of the last pair that names it.
pub proof fn variables_have_their_last_value(
    pairs: Seq<LuaPair>,
    from: int,
    env: Map<Seq<char>, Seq<char>>,
    i: int,
)
    requires
        0 <= from <= i < pairs.len(),
        env_from(pairs, from, env) is Ok,
        forall|j: int|
            i < j < pairs.len() ==> (#[trigger] pairs[j]).key->0@ != pairs[i].key->0@,
    ensures
        env_from(pairs, from, env)->Ok_0.contains_key(pairs[i].key->0@),
        env_from(pairs, from, env)->Ok_0[pairs[i].key->0@] == pairs[i].value.text->0@,
    decreases i - from,
{
    let next = env.insert(pairs[from].key->0@, pairs[from].value.text->0@);
    if from < i {
        variables_have_their_last_value(pairs, from + 1, next, i);
    } else {
        unnamed_variables_stay(pairs, from + 1, next, pairs[i].key->0@);
    }
}

} // verus!
