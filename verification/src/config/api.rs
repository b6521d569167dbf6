//! The functions that a configuration script can call.
use vstd::prelude::*;
use crate::config::appearance::{file_needed, layouts_have_their_names, shader_file, ReadFailure};
use crate::config::lua::{ConfigError, Fault, LuaKind, LuaTable, LuaValue};
use crate::config::parse::{descriptor_action, later_action, parts_of, plain_action};
use crate::config::script::{
    adds_layer_rule, adds_output, adds_program, adds_shader, adds_shell_command, adds_window_rule,
    animations_of, binds, blur_of, cursor_of, descriptor_type, descriptors_have_their_names, error_in,
    exec_command, find_descriptor, sets_env, sets_layout, sets_window, spaced,
    words_are_one_space_apart, Collector,
};
use crate::config::BindAction;
use crate::text::same;

verus! {

/// A function of the global table `bk`.
#[derive(Clone, Copy, Debug, PartialEq, Eq, Structural)]
pub enum Api {
    Bind,
    Output,
    Env,
    Window,
    Animations,
    Blur,
    Layout,
    Shader,
    Cursor,
    WindowRule,
    LayerRule,
    OnStart,
    Spawn,
    RunSh,
    Exec,
    VtSwitch,
    Screen,
    Workspace,
    /// A function that describes an action without a value.
    Descriptor,
}

/// The function of this name.
pub open spec fn api_of(name: Seq<char>) -> Option<Api> {
    if name == "bind"@ {
        Some(Api::Bind)
    } else if name == "output"@ {
        Some(Api::Output)
    } else if name == "env"@ {
        Some(Api::Env)
    } else if name == "window"@ {
        Some(Api::Window)
    } else if name == "animations"@ {
        Some(Api::Animations)
    } else if name == "blur"@ {
        Some(Api::Blur)
    } else if name == "layout"@ {
        Some(Api::Layout)
    } else if name == "shader"@ {
        Some(Api::Shader)
    } else if name == "cursor"@ {
        Some(Api::Cursor)
    } else if name == "window_rule"@ {
        Some(Api::WindowRule)
    } else if name == "layer_rule"@ {
        Some(Api::LayerRule)
    } else if name == "on_start"@ {
        Some(Api::OnStart)
    } else if name == "spawn"@ {
        Some(Api::Spawn)
    } else if name == "run_sh"@ {
        Some(Api::RunSh)
    } else if name == "exec"@ {
        Some(Api::Exec)
    } else if name == "vt_switch"@ {
        Some(Api::VtSwitch)
    } else if name == "screen"@ {
        Some(Api::Screen)
    } else if name == "workspace"@ {
        Some(Api::Workspace)
    } else if descriptor_type(name) is Some {
        Some(Api::Descriptor)
    } else {
        None
    }
}

/// The function of this name.
pub fn find_api(name: &str) -> (r: Option<Api>)
    ensures
        r == api_of(name@),
{
    if same(name, "bind") {
        Some(Api::Bind)
    } else if same(name, "output") {
        Some(Api::Output)
    } else if same(name, "env") {
        Some(Api::Env)
    } else if same(name, "window") {
        Some(Api::Window)
    } else if same(name, "animations") {
        Some(Api::Animations)
    } else if same(name, "blur") {
        Some(Api::Blur)
    } else if same(name, "layout") {
        Some(Api::Layout)
    } else if same(name, "shader") {
        Some(Api::Shader)
    } else if same(name, "cursor") {
        Some(Api::Cursor)
    } else if same(name, "window_rule") {
        Some(Api::WindowRule)
    } else if same(name, "layer_rule") {
        Some(Api::LayerRule)
    } else if same(name, "on_start") {
        Some(Api::OnStart)
    } else if same(name, "spawn") {
        Some(Api::Spawn)
    } else if same(name, "run_sh") {
        Some(Api::RunSh)
    } else if same(name, "exec") {
        Some(Api::Exec)
    } else if same(name, "vt_switch") {
        Some(Api::VtSwitch)
    } else if same(name, "screen") {
        Some(Api::Screen)
    } else if same(name, "workspace") {
        Some(Api::Workspace)
    } else if find_descriptor(name).is_some() {
        Some(Api::Descriptor)
    } else {
        None
    }
}

/// The names of all functions.
pub open spec fn names_of_api() -> Seq<Seq<char>> {
    seq![
        "bind"@,
        "output"@,
        "env"@,
        "window"@,
        "animations"@,
        "blur"@,
        "layout"@,
        "shader"@,
        "cursor"@,
        "window_rule"@,
        "layer_rule"@,
        "on_start"@,
        "spawn"@,
        "run_sh"@,
        "exec"@,
        "vt_switch"@,
        "screen"@,
        "workspace"@,
        "quit"@,
        "close_window"@,
        "screenshot"@,
        "toggle_decorations"@,
        "toggle_preview"@,
        "scale_up"@,
        "scale_down"@,
        "rotate_output"@,
        "toggle_tint"@,
        "toggle_floating"@,
        "focus_next"@,
        "focus_prev"@,
        "workspace_next"@,
        "workspace_prev"@,
        "resize_width_up"@,
        "resize_width_down"@,
        "toggle_fullscreen"@,
        "toggle_maximize"@,
    ]
}

/// The names of all functions.
pub fn api_names() -> (v: Vec<String>)
    ensures
        v@.map_values(|s: String| s@) == names_of_api(),
{
    let mut v: Vec<String> = Vec::new();
    v.push("bind".to_owned());
    v.push("output".to_owned());
    v.push("env".to_owned());
    v.push("window".to_owned());
    v.push("animations".to_owned());
    v.push("blur".to_owned());
    v.push("layout".to_owned());
    v.push("shader".to_owned());
    v.push("cursor".to_owned());
    v.push("window_rule".to_owned());
    v.push("layer_rule".to_owned());
    v.push("on_start".to_owned());
    v.push("spawn".to_owned());
    v.push("run_sh".to_owned());
    v.push("exec".to_owned());
    v.push("vt_switch".to_owned());
    v.push("screen".to_owned());
    v.push("workspace".to_owned());
    v.push("quit".to_owned());
    v.push("close_window".to_owned());
    v.push("screenshot".to_owned());
    v.push("toggle_decorations".to_owned());
    v.push("toggle_preview".to_owned());
    v.push("scale_up".to_owned());
    v.push("scale_down".to_owned());
    v.push("rotate_output".to_owned());
    v.push("toggle_tint".to_owned());
    v.push("toggle_floating".to_owned());
    v.push("focus_next".to_owned());
    v.push("focus_prev".to_owned());
    v.push("workspace_next".to_owned());
    v.push("workspace_prev".to_owned());
    v.push("resize_width_up".to_owned());
    v.push("resize_width_down".to_owned());
    v.push("toggle_fullscreen".to_owned());
    v.push("toggle_maximize".to_owned());
    assert(v@.map_values(|s: String| s@) =~= names_of_api());
    v
}

/// The names of the functions that the global table `bakawm` has too.
pub fn alias_names() -> (v: Vec<String>)
    ensures
        v@.map_values(|s: String| s@) == seq!["spawn"@, "run_sh"@],
{
    let mut v: Vec<String> = Vec::new();
    v.push("spawn".to_owned());
    v.push("run_sh".to_owned());
    assert(v@.map_values(|s: String| s@) =~= seq!["spawn"@, "run_sh"@]);
    v
}

/// The names that are listed are those that can be called.
pub proof fn listed_names_can_be_called(name: Seq<char>)
    ensures
        names_of_api().contains(name) <==> api_of(name) is Some,
{
    let all = names_of_api();
    assert(all[0] == "bind"@);
    assert(all[1] == "output"@);
    assert(all[2] == "env"@);
    assert(all[3] == "window"@);
    assert(all[4] == "animations"@);
    assert(all[5] == "blur"@);
    assert(all[6] == "layout"@);
    assert(all[7] == "shader"@);
    assert(all[8] == "cursor"@);
    assert(all[9] == "window_rule"@);
    assert(all[10] == "layer_rule"@);
    assert(all[11] == "on_start"@);
    assert(all[12] == "spawn"@);
    assert(all[13] == "run_sh"@);
    assert(all[14] == "exec"@);
    assert(all[15] == "vt_switch"@);
    assert(all[16] == "screen"@);
    assert(all[17] == "workspace"@);
    assert(all[18] == "quit"@);
    assert(all[19] == "close_window"@);
    assert(all[20] == "screenshot"@);
    assert(all[21] == "toggle_decorations"@);
    assert(all[22] == "toggle_preview"@);
    assert(all[23] == "scale_up"@);
    assert(all[24] == "scale_down"@);
    assert(all[25] == "rotate_output"@);
    assert(all[26] == "toggle_tint"@);
    assert(all[27] == "toggle_floating"@);
    assert(all[28] == "focus_next"@);
    assert(all[29] == "focus_prev"@);
    assert(all[30] == "workspace_next"@);
    assert(all[31] == "workspace_prev"@);
    assert(all[32] == "resize_width_up"@);
    assert(all[33] == "resize_width_down"@);
    assert(all[34] == "toggle_fullscreen"@);
    assert(all[35] == "toggle_maximize"@);
    if api_of(name) is Some {
        assert(exists|i: int| 0 <= i < all.len() && all[i] == name);
    }
}

/// What a function gives the script.
#[derive(Debug, PartialEq, Eq)]
pub enum Reply {
    Nothing,
    /// A call of this function, right away.
    Call { function: u64 },
    /// A table that describes an action: its type, and its command or number.
    Action { kind: String, command: Option<String>, signed: Option<i32>, size: Option<usize> },
}

/// The table that is the argument at `at`.
pub open spec fn table_arg(args: Seq<LuaValue>, at: int) -> Option<LuaTable> {
    if at < args.len() && args[at].kind is Table {
        Some(args[at].kind->Table_0)
    } else {
        None
    }
}

fn get_table_arg(args: &Vec<LuaValue>) -> (r: Option<&LuaTable>)
    ensures
        match r {
            Some(t) => table_arg(args@, 0) == Some(*t),
            None => table_arg(args@, 0) is None,
        },
{
    if args.len() == 0 {
        return None;
    }
    match &args[0].kind {
        LuaKind::Table(t) => Some(t),
        _ => None,
    }
}

/// The argument at `at` as a text.
pub open spec fn text_arg(args: Seq<LuaValue>, at: int) -> Option<String> {
    if at < args.len() {
        args[at].text
    } else {
        None
    }
}

fn get_text_arg(args: &Vec<LuaValue>, at: usize) -> (r: Option<String>)
    ensures
        r == text_arg(args@, at as int),
{
    if at >= args.len() {
        return None;
    }
    match &args[at].text {
        Some(s) => Some(s.clone()),
        None => None,
    }
}

/// Whether all arguments are texts.
pub open spec fn are_texts(args: Seq<LuaValue>) -> bool {
    forall|i: int| 0 <= i < args.len() ==> (#[trigger] args[i]).text is Some
}

/// The arguments as texts.
pub open spec fn texts(args: Seq<LuaValue>) -> Seq<String> {
    args.map_values(|v: LuaValue| v.text->0)
}

fn get_texts(args: &Vec<LuaValue>) -> (r: Option<Vec<String>>)
    ensures
        match r {
            Some(v) => are_texts(args@) && v@ == texts(args@),
            None => !are_texts(args@),
        },
{
    let mut v: Vec<String> = Vec::new();
    let mut i: usize = 0;
    while i < args.len()
        invariant
            i <= args@.len(),
            v@.len() == i,
            forall|k: int|
                0 <= k < i ==> (#[trigger] args@[k]).text is Some && v@[k] == args@[k].text->0,
        decreases args@.len() - i,
    {
        match &args[i].text {
            Some(s) => {
                v.push(s.clone());
            },
            None => {
                assert(!are_texts(args@));
                return None;
            },
        }
        i = i + 1;
    }
    assert(v@ =~= texts(args@));
    Some(v)
}

/// Whether a call is refused: its arguments are not what the function takes.
pub open spec fn refused(
    before: Collector,
    after: Collector,
    r: Result<Reply, ConfigError>,
    name: Seq<char>,
) -> bool {
    after == before && (r matches Err(e) && e@ == Fault::Wrong(name))
}

/// Whether the script gets nothing back, unless an error.
pub open spec fn answers_nothing(r: Result<Reply, ConfigError>) -> bool {
    r matches Ok(reply) ==> reply is Nothing
}

/// Whether the script gets back the description of an action, and nothing else
/// changes.
pub open spec fn describes(
    before: Collector,
    after: Collector,
    r: Result<Reply, ConfigError>,
    kind: Seq<char>,
    command: Option<Seq<char>>,
    signed: Option<i32>,
    size: Option<usize>,
) -> bool {
    &&& after == before
    &&& r matches Ok(Reply::Action { kind: k, command: c, signed: i, size: n }) && k@ == kind && (
    match (c, command) {
        (Some(a), Some(b)) => a@ == b,
        (None, None) => true,
        _ => false,
    }) && i == signed && n == size
}

/// Whether a call of a function leads from `before` to `after` and gives `r`.
/// `file` is the contents of the file that a shader names in `dir`.
pub open spec fn called(
    before: Collector,
    after: Collector,
    r: Result<Reply, ConfigError>,
    name: Seq<char>,
    args: Seq<LuaValue>,
    dir: Seq<u8>,
    file: Option<Result<String, ReadFailure>>,
) -> bool {
    match api_of(name) {
        None => refused(before, after, r, name),
        Some(Api::Bind) => if args.len() >= 3 && args[1].text is Some {
            answers_nothing(r) && binds(
                before,
                after,
                error_in(r),
                args[0],
                args[1].text->0,
                args[2],
            )
        } else {
            refused(before, after, r, name)
        },
        Some(Api::Env) => if text_arg(args, 0) is Some && text_arg(args, 1) is Some {
            r == Ok::<Reply, ConfigError>(Reply::Nothing) && sets_env(
                before,
                after,
                text_arg(args, 0)->0@,
                text_arg(args, 1)->0@,
            )
        } else {
            refused(before, after, r, name)
        },
        Some(Api::OnStart) => if args.len() > 0 && args[0].kind is Function {
            after == before && r == Ok::<Reply, ConfigError>(
                Reply::Call { function: args[0].kind->Function_0 },
            )
        } else {
            refused(before, after, r, name)
        },
        Some(Api::Spawn) => if text_arg(args, 0) is Some {
            r == Ok::<Reply, ConfigError>(Reply::Nothing) && adds_program(
                before,
                after,
                text_arg(args, 0)->0,
            )
        } else {
            refused(before, after, r, name)
        },
        Some(Api::RunSh) => if text_arg(args, 0) is Some {
            r == Ok::<Reply, ConfigError>(Reply::Nothing) && adds_shell_command(
                before,
                after,
                text_arg(args, 0)->0,
            )
        } else {
            refused(before, after, r, name)
        },
        Some(Api::Exec) => if are_texts(args) {
            describes(
                before,
                after,
                r,
                "Run"@,
                Some(spaced(texts(args), args.len() as int)),
                None,
                None,
            )
        } else {
            refused(before, after, r, name)
        },
        Some(Api::VtSwitch) => if args.len() > 0 && args[0].signed is Some {
            describes(before, after, r, "VtSwitch"@, None, args[0].signed, None)
        } else {
            refused(before, after, r, name)
        },
        Some(Api::Screen) => if args.len() > 0 && args[0].size is Some {
            describes(before, after, r, "Screen"@, None, None, args[0].size)
        } else {
            refused(before, after, r, name)
        },
        Some(Api::Workspace) => if args.len() > 0 && args[0].size is Some {
            describes(before, after, r, "Workspace"@, None, None, args[0].size)
        } else {
            refused(before, after, r, name)
        },
        Some(Api::Descriptor) => describes(
            before,
            after,
            r,
            descriptor_type(name)->0,
            None,
            None,
            None,
        ),
        Some(api) => match table_arg(args, 0) {
            None => refused(before, after, r, name),
            Some(t) => answers_nothing(r) && set_by(before, after, error_in(r), api, t, dir, file),
        },
    }
}

/// Whether a call of a function that takes a table leads from `before` to
/// `after`.
pub open spec fn set_by(
    before: Collector,
    after: Collector,
    fault: Option<Fault>,
    api: Api,
    t: LuaTable,
    dir: Seq<u8>,
    file: Option<Result<String, ReadFailure>>,
) -> bool {
    match api {
        Api::Output => adds_output(before, after, fault, t),
        Api::Window => sets_window(before, after, fault, t),
        Api::Animations => fault is None && after == (Collector {
            animations: Some(animations_of(t)),
            ..before
        }),
        Api::Blur => fault is None && after == (Collector { blur: Some(blur_of(t)), ..before }),
        Api::Layout => sets_layout(before, after, fault, t),
        Api::Shader => adds_shader(before, after, fault, t, dir, file),
        Api::Cursor => fault is None && after == (Collector {
            cursor: Some(cursor_of(t)),
            ..before
        }),
        Api::WindowRule => adds_window_rule(before, after, fault, t),
        Api::LayerRule => fault is None && adds_layer_rule(before, after, t),
        _ => false,
    }
}

/// The file to read for a call: the one that a shader names in `dir`.
pub open spec fn needs_file(name: Seq<char>, args: Seq<LuaValue>, dir: Seq<u8>) -> Option<Seq<u8>> {
    if api_of(name) == Some(Api::Shader) && table_arg(args, 0) is Some {
        file_needed(table_arg(args, 0)->0, dir)
    } else {
        None
    }
}

/// The file to read before a call, if it needs one.
pub fn file_for_call(name: &str, args: &Vec<LuaValue>, dir: &Vec<u8>) -> (r: Option<Vec<u8>>)
    ensures
        match r {
            Some(p) => needs_file(name@, args@, dir@) == Some(p@),
            None => needs_file(name@, args@, dir@) is None,
        },
{
    match find_api(name) {
        Some(Api::Shader) => match get_table_arg(args) {
            Some(t) => shader_file(t, dir),
            None => None,
        },
        _ => None,
    }
}

fn action(kind: String) -> (r: Result<Reply, ConfigError>)
    ensures
        r == Ok::<Reply, ConfigError>(
            Reply::Action { kind, command: None, signed: None, size: None },
        ),
{
    Ok(Reply::Action { kind, command: None, signed: None, size: None })
}

fn done(r: Result<(), ConfigError>) -> (reply: Result<Reply, ConfigError>)
    ensures
        answers_nothing(reply),
        error_in(reply) == error_in(r),
{
    match r {
        Ok(()) => Ok(Reply::Nothing),
        Err(e) => Err(e),
    }
}

impl Collector {
    /// The script calls a function of the global table `bk`. `file` is what the
    /// file holds that the call needs, if it needs one.
    pub fn call(
        &mut self,
        name: &str,
        args: &Vec<LuaValue>,
        dir: &Vec<u8>,
        file: Option<Result<String, ReadFailure>>,
    ) -> (r: Result<Reply, ConfigError>)
        requires
            old(self).env.wf(),
            needs_file(name@, args@, dir@) is Some ==> file is Some,
        ensures
            final(self).env.wf(),
            called(*old(self), *final(self), r, name@, args@, dir@, file),
    {
        let api = match find_api(name) {
            Some(api) => api,
            None => {
                return Err(ConfigError::wrong(name));
            },
        };
        match api {
            Api::Bind => {
                if args.len() < 3 {
                    return Err(ConfigError::wrong(name));
                }
                match get_text_arg(args, 1) {
                    Some(key) => done(self.bind(&args[0], key, &args[2])),
                    None => Err(ConfigError::wrong(name)),
                }
            },
            Api::Env => match (get_text_arg(args, 0), get_text_arg(args, 1)) {
                (Some(variable), Some(value)) => {
                    self.env(variable, value);
                    Ok(Reply::Nothing)
                },
                _ => Err(ConfigError::wrong(name)),
            },
            Api::OnStart => {
                if args.len() == 0 {
                    return Err(ConfigError::wrong(name));
                }
                match &args[0].kind {
                    LuaKind::Function(function) => Ok(Reply::Call { function: *function }),
                    _ => Err(ConfigError::wrong(name)),
                }
            },
            Api::Spawn => match get_text_arg(args, 0) {
                Some(cmd) => {
                    self.spawn(cmd);
                    Ok(Reply::Nothing)
                },
                None => Err(ConfigError::wrong(name)),
            },
            Api::RunSh => match get_text_arg(args, 0) {
                Some(code) => {
                    self.run_sh(code);
                    Ok(Reply::Nothing)
                },
                None => Err(ConfigError::wrong(name)),
            },
            Api::Exec => match get_texts(args) {
                Some(words) => Ok(
                    Reply::Action {
                        kind: "Run".to_owned(),
                        command: Some(exec_command(&words)),
                        signed: None,
                        size: None,
                    },
                ),
                None => Err(ConfigError::wrong(name)),
            },
            Api::VtSwitch => {
                if args.len() == 0 || args[0].signed.is_none() {
                    return Err(ConfigError::wrong(name));
                }
                Ok(
                    Reply::Action {
                        kind: "VtSwitch".to_owned(),
                        command: None,
                        signed: args[0].signed,
                        size: None,
                    },
                )
            },
            Api::Screen => {
                if args.len() == 0 || args[0].size.is_none() {
                    return Err(ConfigError::wrong(name));
                }
                Ok(
                    Reply::Action {
                        kind: "Screen".to_owned(),
                        command: None,
                        signed: None,
                        size: args[0].size,
                    },
                )
            },
            Api::Workspace => {
                if args.len() == 0 || args[0].size.is_none() {
                    return Err(ConfigError::wrong(name));
                }
                Ok(
                    Reply::Action {
                        kind: "Workspace".to_owned(),
                        command: None,
                        signed: None,
                        size: args[0].size,
                    },
                )
            },
            Api::Descriptor => match find_descriptor(name) {
                Some(kind) => action(kind),
                None => Err(ConfigError::wrong(name)),
            },
            _ => match get_table_arg(args) {
                Some(t) => self.set(api, t, dir, file),
                None => Err(ConfigError::wrong(name)),
            },
        }
    }

    fn set(
        &mut self,
        api: Api,
        t: &LuaTable,
        dir: &Vec<u8>,
        file: Option<Result<String, ReadFailure>>,
    ) -> (r: Result<Reply, ConfigError>)
        requires
            old(self).env.wf(),
            api is Output || api is Window || api is Animations || api is Blur || api is Layout
                || api is Shader || api is Cursor || api is WindowRule || api is LayerRule,
            api is Shader && file_needed(*t, dir@) is Some ==> file is Some,
        ensures
            final(self).env.wf(),
            answers_nothing(r),
            set_by(*old(self), *final(self), error_in(r), api, *t, dir@, file),
    {
        match api {
            Api::Output => done(self.output(t)),
            Api::Window => done(self.window(t)),
            Api::Animations => {
                self.animations(t);
                Ok(Reply::Nothing)
            },
            Api::Blur => {
                self.blur(t);
                Ok(Reply::Nothing)
            },
            Api::Layout => done(self.layout(t)),
            Api::Shader => done(self.shader(t, dir, file)),
            Api::Cursor => {
                self.cursor(t);
                Ok(Reply::Nothing)
            },
            Api::WindowRule => done(self.window_rule(t)),
            _ => {
                self.layer_rule(t);
                Ok(Reply::Nothing)
            },
        }
    }
}

/// The action that a reply describes.
pub open spec fn described(reply: Reply) -> Option<BindAction> {
    match reply {
        Reply::Action { kind, command, signed, size } => if kind@ == "Run"@ && command is Some {
            Some(BindAction::Run(command->0))
        } else if kind@ == "VtSwitch"@ && signed is Some {
            Some(BindAction::VtSwitch(signed->0))
        } else if kind@ == "Screen"@ && size is Some {
            Some(BindAction::Screen(size->0))
        } else if kind@ == "Workspace"@ && size is Some {
            Some(BindAction::Workspace(size->0))
        } else if plain_action(kind@) is Some {
            plain_action(kind@)
        } else {
            later_action(kind@)
        },
        _ => None,
    }
}

/// Whether a table holds what a reply describes.
pub open spec fn holds_reply(t: LuaTable, reply: Reply) -> bool {
    &&& reply is Action
    &&& t.text("type"@) matches Some(k) && k@ == reply->kind@
    &&& reply->command is Some ==> t.text("command"@) == reply->command
    &&& reply->signed is Some ==> t.signed("n"@) == reply->signed
    &&& reply->size is Some ==> t.size("n"@) == reply->size
}

/// What any function describes, `bk.bind` understands as just that action.
pub proof fn replies_are_understood(
    before: Collector,
    after: Collector,
    r: Result<Reply, ConfigError>,
    name: Seq<char>,
    args: Seq<LuaValue>,
    dir: Seq<u8>,
    file: Option<Result<String, ReadFailure>>,
    t: LuaTable,
)
    requires
        called(before, after, r, name, args, dir, file),
        r is Ok,
        holds_reply(t, r->Ok_0),
    ensures
        after == before,
        described(r->Ok_0) is Some,
        descriptor_action(t) == Ok::<BindAction, Fault>(described(r->Ok_0)->0),
{
    kinds_differ();
}

/// The actions with a value have types that no others have.
proof fn kinds_differ()
    ensures
        plain_action("Run"@) is None && later_action("Run"@) is None,
        plain_action("VtSwitch"@) is None && later_action("VtSwitch"@) is None,
        plain_action("Screen"@) is None && later_action("Screen"@) is None,
        plain_action("Workspace"@) is None && later_action("Workspace"@) is None,
        "Workspace"@ != "Run"@ && "Workspace"@ != "VtSwitch"@ && "Workspace"@ != "Screen"@,
        "Screen"@ != "Run"@ && "Screen"@ != "VtSwitch"@ && "VtSwitch"@ != "Run"@,
{
    reveal_strlit("Run");
    reveal_strlit("VtSwitch");
    reveal_strlit("Screen");
    reveal_strlit("Workspace");
    reveal_strlit("Quit");
    reveal_strlit("CloseWindow");
    reveal_strlit("Screenshot");
    reveal_strlit("ToggleDecorations");
    reveal_strlit("TogglePreview");
    reveal_strlit("ScaleUp");
    reveal_strlit("ScaleDown");
    reveal_strlit("RotateOutput");
    reveal_strlit("ToggleTint");
    reveal_strlit("ToggleFloating");
    reveal_strlit("FocusNext");
    reveal_strlit("FocusPrev");
    reveal_strlit("WorkspaceNext");
    reveal_strlit("WorkspacePrev");
    reveal_strlit("ResizeWidthUp");
    reveal_strlit("ResizeWidthDown");
    reveal_strlit("ToggleFullscreen");
    reveal_strlit("ToggleMaximize");
    assert("Run"@.len() == 3);
    assert("VtSwitch"@.len() == 8 && "VtSwitch"@[0] == 'V');
    assert("Screen"@.len() == 6);
    assert("Workspace"@.len() == 9 && "Workspace"@[0] == 'W');
    assert("ScaleDown"@[0] == 'S');
    assert("FocusNext"@[0] == 'F');
    assert("FocusPrev"@[0] == 'F');
}

// ---- laws ----

/// Each function of the script is found under its own name.
pub proof fn functions_have_their_names(name: Seq<char>)
    ensures
        name == "bind"@ <==> api_of(name) == Some(Api::Bind),
        name == "output"@ <==> api_of(name) == Some(Api::Output),
        name == "env"@ <==> api_of(name) == Some(Api::Env),
        name == "window"@ <==> api_of(name) == Some(Api::Window),
        name == "animations"@ <==> api_of(name) == Some(Api::Animations),
        name == "blur"@ <==> api_of(name) == Some(Api::Blur),
        name == "layout"@ <==> api_of(name) == Some(Api::Layout),
        name == "shader"@ <==> api_of(name) == Some(Api::Shader),
        name == "cursor"@ <==> api_of(name) == Some(Api::Cursor),
        name == "window_rule"@ <==> api_of(name) == Some(Api::WindowRule),
        name == "layer_rule"@ <==> api_of(name) == Some(Api::LayerRule),
        name == "on_start"@ <==> api_of(name) == Some(Api::OnStart),
        name == "spawn"@ <==> api_of(name) == Some(Api::Spawn),
        name == "run_sh"@ <==> api_of(name) == Some(Api::RunSh),
        name == "exec"@ <==> api_of(name) == Some(Api::Exec),
        name == "vt_switch"@ <==> api_of(name) == Some(Api::VtSwitch),
        name == "screen"@ <==> api_of(name) == Some(Api::Screen),
        name == "workspace"@ <==> api_of(name) == Some(Api::Workspace),
        api_of(name) == Some(Api::Descriptor) ==> descriptor_type(name) is Some,
        api_of(name) is None ==> descriptor_type(name) is None,
{
    reveal_strlit("bind");
    reveal_strlit("output");
    reveal_strlit("env");
    reveal_strlit("window");
    reveal_strlit("animations");
    reveal_strlit("blur");
    reveal_strlit("layout");
    reveal_strlit("shader");
    reveal_strlit("cursor");
    reveal_strlit("window_rule");
    reveal_strlit("layer_rule");
    reveal_strlit("on_start");
    reveal_strlit("spawn");
    reveal_strlit("run_sh");
    reveal_strlit("exec");
    reveal_strlit("vt_switch");
    reveal_strlit("screen");
    reveal_strlit("workspace");
    assert("bind"@.len() == 4);
    assert("output"@.len() == 6);
    assert("env"@.len() == 3);
    assert("window"@.len() == 6);
    assert("animations"@.len() == 10);
    assert("blur"@.len() == 4);
    assert("layout"@.len() == 6);
    assert("shader"@.len() == 6);
    assert("cursor"@.len() == 6);
    assert("window_rule"@.len() == 11);
    assert("layer_rule"@.len() == 10);
    assert("on_start"@.len() == 8);
    assert("spawn"@.len() == 5);
    assert("run_sh"@.len() == 6);
    assert("exec"@.len() == 4);
    assert("vt_switch"@.len() == 9);
    assert("screen"@.len() == 6);
    assert("workspace"@.len() == 9);
    assert("bind"@[1] != "blur"@[1]);
    assert("bind"@[0] != "exec"@[0]);
    assert("output"@[0] != "window"@[0]);
    assert("output"@[0] != "layout"@[0]);
    assert("output"@[0] != "shader"@[0]);
    assert("output"@[0] != "cursor"@[0]);
    assert("output"@[0] != "run_sh"@[0]);
    assert("output"@[0] != "screen"@[0]);
    assert("window"@[0] != "layout"@[0]);
    assert("window"@[0] != "shader"@[0]);
    assert("window"@[0] != "cursor"@[0]);
    assert("window"@[0] != "run_sh"@[0]);
    assert("window"@[0] != "screen"@[0]);
    assert("animations"@[0] != "layer_rule"@[0]);
    assert("blur"@[0] != "exec"@[0]);
    assert("layout"@[0] != "shader"@[0]);
    assert("layout"@[0] != "cursor"@[0]);
    assert("layout"@[0] != "run_sh"@[0]);
    assert("layout"@[0] != "screen"@[0]);
    assert("shader"@[0] != "cursor"@[0]);
    assert("shader"@[0] != "run_sh"@[0]);
    assert("shader"@[1] != "screen"@[1]);
    assert("cursor"@[0] != "run_sh"@[0]);
    assert("cursor"@[0] != "screen"@[0]);
    assert("run_sh"@[0] != "screen"@[0]);
    assert("vt_switch"@[0] != "workspace"@[0]);
}

/// A call without arguments that describes an action gives the type of its own
/// name, and changes nothing.
pub proof fn descriptions_have_their_names(
    before: Collector,
    after: Collector,
    r: Result<Reply, ConfigError>,
    name: Seq<char>,
    args: Seq<LuaValue>,
    dir: Seq<u8>,
    file: Option<Result<String, ReadFailure>>,
)
    requires
        called(before, after, r, name, args, dir, file),
    ensures
        name == "quit"@ ==> after == before && (r matches Ok(Reply::Action { kind, .. }) && kind@
            == "Quit"@),
        name == "close_window"@ ==> after == before && (r matches Ok(Reply::Action { kind, .. }) && kind@
            == "CloseWindow"@),
        name == "screenshot"@ ==> after == before && (r matches Ok(Reply::Action { kind, .. }) && kind@
            == "Screenshot"@),
        name == "toggle_decorations"@ ==> after == before && (r matches Ok(Reply::Action { kind, .. }) && kind@
            == "ToggleDecorations"@),
        name == "toggle_preview"@ ==> after == before && (r matches Ok(Reply::Action { kind, .. }) && kind@
            == "TogglePreview"@),
        name == "scale_up"@ ==> after == before && (r matches Ok(Reply::Action { kind, .. }) && kind@
            == "ScaleUp"@),
        name == "scale_down"@ ==> after == before && (r matches Ok(Reply::Action { kind, .. }) && kind@
            == "ScaleDown"@),
        name == "rotate_output"@ ==> after == before && (r matches Ok(Reply::Action { kind, .. }) && kind@
            == "RotateOutput"@),
        name == "toggle_tint"@ ==> after == before && (r matches Ok(Reply::Action { kind, .. }) && kind@
            == "ToggleTint"@),
        name == "toggle_floating"@ ==> after == before && (r matches Ok(Reply::Action { kind, .. }) && kind@
            == "ToggleFloating"@),
        name == "focus_next"@ ==> after == before && (r matches Ok(Reply::Action { kind, .. }) && kind@
            == "FocusNext"@),
        name == "focus_prev"@ ==> after == before && (r matches Ok(Reply::Action { kind, .. }) && kind@
            == "FocusPrev"@),
        name == "workspace_next"@ ==> after == before && (r matches Ok(Reply::Action { kind, .. }) && kind@
            == "WorkspaceNext"@),
        name == "workspace_prev"@ ==> after == before && (r matches Ok(Reply::Action { kind, .. }) && kind@
            == "WorkspacePrev"@),
        name == "resize_width_up"@ ==> after == before && (r matches Ok(Reply::Action { kind, .. }) && kind@
            == "ResizeWidthUp"@),
        name == "resize_width_down"@ ==> after == before && (r matches Ok(Reply::Action { kind, .. }) && kind@
            == "ResizeWidthDown"@),
        name == "toggle_fullscreen"@ ==> after == before && (r matches Ok(Reply::Action { kind, .. }) && kind@
            == "ToggleFullscreen"@),
        name == "toggle_maximize"@ ==> after == before && (r matches Ok(Reply::Action { kind, .. }) && kind@
            == "ToggleMaximize"@),
{
    descriptors_have_their_names(name);
    reveal_strlit("bind");
    reveal_strlit("output");
    reveal_strlit("env");
    reveal_strlit("window");
    reveal_strlit("animations");
    reveal_strlit("blur");
    reveal_strlit("layout");
    reveal_strlit("shader");
    reveal_strlit("cursor");
    reveal_strlit("window_rule");
    reveal_strlit("layer_rule");
    reveal_strlit("on_start");
    reveal_strlit("spawn");
    reveal_strlit("run_sh");
    reveal_strlit("exec");
    reveal_strlit("vt_switch");
    reveal_strlit("screen");
    reveal_strlit("workspace");
    reveal_strlit("quit");
    reveal_strlit("close_window");
    reveal_strlit("screenshot");
    reveal_strlit("toggle_decorations");
    reveal_strlit("toggle_preview");
    reveal_strlit("scale_up");
    reveal_strlit("scale_down");
    reveal_strlit("rotate_output");
    reveal_strlit("toggle_tint");
    reveal_strlit("toggle_floating");
    reveal_strlit("focus_next");
    reveal_strlit("focus_prev");
    reveal_strlit("workspace_next");
    reveal_strlit("workspace_prev");
    reveal_strlit("resize_width_up");
    reveal_strlit("resize_width_down");
    reveal_strlit("toggle_fullscreen");
    reveal_strlit("toggle_maximize");
    assert("bind"@.len() == 4);
    assert("output"@.len() == 6);
    assert("env"@.len() == 3);
    assert("window"@.len() == 6);
    assert("animations"@.len() == 10);
    assert("blur"@.len() == 4);
    assert("layout"@.len() == 6);
    assert("shader"@.len() == 6);
    assert("cursor"@.len() == 6);
    assert("window_rule"@.len() == 11);
    assert("layer_rule"@.len() == 10);
    assert("on_start"@.len() == 8);
    assert("spawn"@.len() == 5);
    assert("run_sh"@.len() == 6);
    assert("exec"@.len() == 4);
    assert("vt_switch"@.len() == 9);
    assert("screen"@.len() == 6);
    assert("workspace"@.len() == 9);
    assert("quit"@.len() == 4);
    assert("close_window"@.len() == 12);
    assert("screenshot"@.len() == 10);
    assert("toggle_decorations"@.len() == 18);
    assert("toggle_preview"@.len() == 14);
    assert("scale_up"@.len() == 8);
    assert("scale_down"@.len() == 10);
    assert("rotate_output"@.len() == 13);
    assert("toggle_tint"@.len() == 11);
    assert("toggle_floating"@.len() == 15);
    assert("focus_next"@.len() == 10);
    assert("focus_prev"@.len() == 10);
    assert("workspace_next"@.len() == 14);
    assert("workspace_prev"@.len() == 14);
    assert("resize_width_up"@.len() == 15);
    assert("resize_width_down"@.len() == 17);
    assert("toggle_fullscreen"@.len() == 17);
    assert("toggle_maximize"@.len() == 15);
    assert("bind"@[1] != "blur"@[1]);
    assert("bind"@[0] != "exec"@[0]);
    assert("bind"@[0] != "quit"@[0]);
    assert("output"@[0] != "window"@[0]);
    assert("output"@[0] != "layout"@[0]);
    assert("output"@[0] != "shader"@[0]);
    assert("output"@[0] != "cursor"@[0]);
    assert("output"@[0] != "run_sh"@[0]);
    assert("output"@[0] != "screen"@[0]);
    assert("window"@[0] != "layout"@[0]);
    assert("window"@[0] != "shader"@[0]);
    assert("window"@[0] != "cursor"@[0]);
    assert("window"@[0] != "run_sh"@[0]);
    assert("window"@[0] != "screen"@[0]);
    assert("animations"@[0] != "layer_rule"@[0]);
    assert("animations"@[0] != "screenshot"@[0]);
    assert("animations"@[0] != "scale_down"@[0]);
    assert("animations"@[0] != "focus_next"@[0]);
    assert("animations"@[0] != "focus_prev"@[0]);
    assert("blur"@[0] != "exec"@[0]);
    assert("blur"@[0] != "quit"@[0]);
    assert("layout"@[0] != "shader"@[0]);
    assert("layout"@[0] != "cursor"@[0]);
    assert("layout"@[0] != "run_sh"@[0]);
    assert("layout"@[0] != "screen"@[0]);
    assert("shader"@[0] != "cursor"@[0]);
    assert("shader"@[0] != "run_sh"@[0]);
    assert("shader"@[1] != "screen"@[1]);
    assert("cursor"@[0] != "run_sh"@[0]);
    assert("cursor"@[0] != "screen"@[0]);
    assert("window_rule"@[0] != "toggle_tint"@[0]);
    assert("layer_rule"@[0] != "screenshot"@[0]);
    assert("layer_rule"@[0] != "scale_down"@[0]);
    assert("layer_rule"@[0] != "focus_next"@[0]);
    assert("layer_rule"@[0] != "focus_prev"@[0]);
    assert("on_start"@[0] != "scale_up"@[0]);
    assert("run_sh"@[0] != "screen"@[0]);
    assert("exec"@[0] != "quit"@[0]);
    assert("vt_switch"@[0] != "workspace"@[0]);
    assert("screenshot"@[2] != "scale_down"@[2]);
    assert("screenshot"@[0] != "focus_next"@[0]);
    assert("screenshot"@[0] != "focus_prev"@[0]);
    assert("toggle_preview"@[0] != "workspace_next"@[0]);
    assert("toggle_preview"@[0] != "workspace_prev"@[0]);
    assert("scale_down"@[0] != "focus_next"@[0]);
    assert("scale_down"@[0] != "focus_prev"@[0]);
    assert("toggle_floating"@[0] != "resize_width_up"@[0]);
    assert("toggle_floating"@[7] != "toggle_maximize"@[7]);
    assert("focus_next"@[6] != "focus_prev"@[6]);
    assert("workspace_next"@[10] != "workspace_prev"@[10]);
    assert("resize_width_up"@[0] != "toggle_maximize"@[0]);
    assert("resize_width_down"@[0] != "toggle_fullscreen"@[0]);
}

/// A call changes what its name says and nothing else: a program goes to the
/// programs, a command to the shell's commands, a variable to the environment.
pub proof fn calls_do_what_their_names_say(
    before: Collector,
    after: Collector,
    r: Result<Reply, ConfigError>,
    name: Seq<char>,
    args: Seq<LuaValue>,
    dir: Seq<u8>,
    file: Option<Result<String, ReadFailure>>,
)
    requires
        called(before, after, r, name, args, dir, file),
        args.len() >= 1,
    ensures
        name == "spawn"@ && args[0].text is Some ==> r is Ok && after.spawn_commands@
            == before.spawn_commands@.push(args[0].text->0) && after == (Collector {
            spawn_commands: after.spawn_commands,
            ..before
        }),
        name == "run_sh"@ && args[0].text is Some ==> r is Ok && after.shell_commands@
            == before.shell_commands@.push(args[0].text->0) && after == (Collector {
            shell_commands: after.shell_commands,
            ..before
        }),
        name == "env"@ && args.len() >= 2 && args[0].text is Some && args[1].text is Some ==> r is Ok
            && after.env@ == before.env@.insert(args[0].text->0@, args[1].text->0@) && after == (
        Collector { env: after.env, ..before }),
        name == "on_start"@ && args[0].kind is Function ==> after == before && (r matches Ok(
            Reply::Call { function },
        ) && args[0].kind == LuaKind::Function(function)),
        name == "vt_switch"@ && args[0].signed is Some ==> after == before && (r matches Ok(
            Reply::Action { kind, signed, .. },
        ) && kind@ == "VtSwitch"@ && signed == args[0].signed),
        name == "screen"@ && args[0].size is Some ==> after == before && (r matches Ok(
            Reply::Action { kind, size, .. },
        ) && kind@ == "Screen"@ && size == args[0].size),
        name == "workspace"@ && args[0].size is Some ==> after == before && (r matches Ok(
            Reply::Action { kind, size, .. },
        ) && kind@ == "Workspace"@ && size == args[0].size),
        name == "exec"@ && args.len() == 1 && args[0].text is Some ==> after == before && (
        r matches Ok(Reply::Action { kind, command, .. }) && kind@ == "Run"@ && (
        command matches Some(c) && c@ == args[0].text->0@)),
        name == "bind"@ && args.len() >= 3 && args[1].text is Some && r is Ok ==> after.binds@.len()
            == before.binds@.len() + 1 && after.binds@.last().key == args[1].text->0,
        name == "bind"@ && (args.len() < 3 || args[1].text is None) ==> r is Err && after == before,
{
    functions_have_their_names(name);
    if name == "bind"@ && args.len() >= 3 && args[1].text is Some && r is Ok {
        let old_parts = parts_of(before.binds@);
        let parts = parts_of(after.binds@);
        assert(parts.len() == old_parts.len() + 1);
        assert(parts.last() == after.binds@.last().parts());
    }
    if name == "exec"@ && args.len() == 1 && args[0].text is Some {
        assert(are_texts(args));
        assert(texts(args)[0] == args[0].text->0);
        words_are_one_space_apart(texts(args), 0);
    }
}

/// A call with a table sets what its name says from that table and nothing else,
/// and a call without one is refused.
pub proof fn tables_set_what_the_name_says(
    before: Collector,
    after: Collector,
    r: Result<Reply, ConfigError>,
    name: Seq<char>,
    args: Seq<LuaValue>,
    dir: Seq<u8>,
    file: Option<Result<String, ReadFailure>>,
    t: LuaTable,
)
    requires
        called(before, after, r, name, args, dir, file),
        args.len() >= 1,
        args[0].kind == LuaKind::Table(t),
    ensures
        name == "cursor"@ ==> r is Ok && after == (Collector { cursor: after.cursor, ..before }) && (
        after.cursor matches Some(c) && c.theme == t.text("theme"@) && c.size == t.word("size"@)),
        name == "blur"@ ==> r is Ok && after == (Collector { blur: after.blur, ..before }) && (
        after.blur matches Some(b) && b.enable == t.flag("enable"@) && b.xray == t.flag("xray"@)),
        name == "animations"@ ==> r is Ok && after == (Collector {
            animations: after.animations,
            ..before
        }) && (after.animations matches Some(a) && a.enable == t.flag("enable"@)),
        name == "window"@ && r is Ok ==> after == (Collector { window: after.window, ..before }) && (
        after.window matches Some(w) && w.prefer_no_csd == t.flag("prefer_no_csd"@) && w.floating
            == t.flag("floating"@) && w.shader == t.text("shader"@)),
        name == "layout"@ && r is Ok ==> after == (Collector {
            layout: after.layout,
            callbacks: after.callbacks,
            ..before
        }) && (after.layout matches Some(l) && ({
            &&& t.text("type"@) is None ==> l.layout is Floating
            &&& t.text("type"@) matches Some(n) ==> {
                &&& n@ == "floating"@ ==> l.layout is Floating
                &&& n@ == "columns"@ ==> l.layout is Columns
                &&& n@ == "grid"@ ==> l.layout is Grid
                &&& n@ == "master-stack"@ ==> l.layout is MasterStack
                &&& n@ == "maximize"@ ==> l.layout is Maximize
                &&& n@ == "custom"@ ==> l.layout is Custom
            }
        })),
        name == "output"@ && r is Ok ==> after == (Collector { outputs: after.outputs, ..before })
            && after.outputs@.len() == before.outputs@.len() + 1 && t.text("name"@) == Some(
            after.outputs@.last().name,
        ),
        name == "window_rule"@ && r is Ok ==> after == (Collector {
            window_rules: after.window_rules,
            ..before
        }) && after.window_rules@.len() == before.window_rules@.len() + 1
            && after.window_rules@.last().app_id == t.text("app_id"@)
            && after.window_rules@.last().title == t.text("title"@),
        name == "layer_rule"@ ==> r is Ok && after == (Collector {
            layer_rules: after.layer_rules,
            ..before
        }) && after.layer_rules@.len() == before.layer_rules@.len() + 1
            && after.layer_rules@.last().namespace == t.text("namespace"@),
        name == "shader"@ && r is Ok ==> after == (Collector {
            custom_shaders: after.custom_shaders,
            ..before
        }) && after.custom_shaders@.len() == before.custom_shaders@.len() + 1 && t.text("name"@)
            == Some(after.custom_shaders@.last().name),
{
    functions_have_their_names(name);
    layouts_have_their_names(t);
}

/// A name that the script's table does not have is refused, and so is a call of a
/// setting without its table; both change nothing.
pub proof fn wrong_calls_change_nothing(
    before: Collector,
    after: Collector,
    r: Result<Reply, ConfigError>,
    name: Seq<char>,
    args: Seq<LuaValue>,
    dir: Seq<u8>,
    file: Option<Result<String, ReadFailure>>,
)
    requires
        called(before, after, r, name, args, dir, file),
        args.len() == 0 || !(args[0].kind is Table),
    ensures
        name == "output"@ || name == "window"@ || name == "animations"@ || name == "blur"@ || name
            == "layout"@ || name == "shader"@ || name == "cursor"@ || name == "window_rule"@ || name
            == "layer_rule"@ || api_of(name) is None ==> after == before && (r matches Err(e) && e@
            == Fault::Wrong(name)),
{
    functions_have_their_names(name);
}

/// The description of an action is the action of that name, with what it was
/// given.
pub proof fn descriptions_are_their_actions(reply: Reply)
    requires
        reply is Action,
    ensures
        reply->kind@ == "Run"@ && reply->command is Some ==> described(reply) == Some(
            BindAction::Run(reply->command->0),
        ),
        reply->kind@ == "VtSwitch"@ && reply->signed is Some ==> described(reply) == Some(
            BindAction::VtSwitch(reply->signed->0),
        ),
        reply->kind@ == "Screen"@ && reply->size is Some ==> described(reply) == Some(
            BindAction::Screen(reply->size->0),
        ),
        reply->kind@ == "Workspace"@ && reply->size is Some ==> described(reply) == Some(
            BindAction::Workspace(reply->size->0),
        ),
        reply->kind@ == "Quit"@ ==> described(reply) == Some(BindAction::Quit),
        reply->kind@ == "CloseWindow"@ ==> described(reply) == Some(BindAction::CloseWindow),
        reply->kind@ == "Screenshot"@ ==> described(reply) == Some(BindAction::Screenshot),
        reply->kind@ == "ToggleDecorations"@ ==> described(reply) == Some(BindAction::ToggleDecorations),
        reply->kind@ == "TogglePreview"@ ==> described(reply) == Some(BindAction::TogglePreview),
        reply->kind@ == "ScaleUp"@ ==> described(reply) == Some(BindAction::ScaleUp),
        reply->kind@ == "ScaleDown"@ ==> described(reply) == Some(BindAction::ScaleDown),
        reply->kind@ == "RotateOutput"@ ==> described(reply) == Some(BindAction::RotateOutput),
        reply->kind@ == "ToggleTint"@ ==> described(reply) == Some(BindAction::ToggleTint),
        reply->kind@ == "ToggleFloating"@ ==> described(reply) == Some(BindAction::ToggleFloating),
        reply->kind@ == "FocusNext"@ ==> described(reply) == Some(BindAction::FocusNext),
        reply->kind@ == "FocusPrev"@ ==> described(reply) == Some(BindAction::FocusPrev),
        reply->kind@ == "WorkspaceNext"@ ==> described(reply) == Some(BindAction::WorkspaceNext),
        reply->kind@ == "WorkspacePrev"@ ==> described(reply) == Some(BindAction::WorkspacePrev),
        reply->kind@ == "ResizeWidthUp"@ ==> described(reply) == Some(BindAction::ResizeWidthUp),
        reply->kind@ == "ResizeWidthDown"@ ==> described(reply) == Some(BindAction::ResizeWidthDown),
        reply->kind@ == "ToggleFullscreen"@ ==> described(reply) == Some(BindAction::ToggleFullscreen),
        reply->kind@ == "ToggleMaximize"@ ==> described(reply) == Some(BindAction::ToggleMaximize),
{
    reveal_strlit("Quit");
    reveal_strlit("CloseWindow");
    reveal_strlit("Screenshot");
    reveal_strlit("ToggleDecorations");
    reveal_strlit("TogglePreview");
    reveal_strlit("ScaleUp");
    reveal_strlit("ScaleDown");
    reveal_strlit("RotateOutput");
    reveal_strlit("ToggleTint");
    reveal_strlit("ToggleFloating");
    reveal_strlit("FocusNext");
    reveal_strlit("FocusPrev");
    reveal_strlit("WorkspaceNext");
    reveal_strlit("WorkspacePrev");
    reveal_strlit("ResizeWidthUp");
    reveal_strlit("ResizeWidthDown");
    reveal_strlit("ToggleFullscreen");
    reveal_strlit("ToggleMaximize");
    reveal_strlit("Run");
    reveal_strlit("VtSwitch");
    reveal_strlit("Screen");
    reveal_strlit("Workspace");
    assert("Quit"@.len() == 4);
    assert("CloseWindow"@.len() == 11);
    assert("Screenshot"@.len() == 10);
    assert("ToggleDecorations"@.len() == 17);
    assert("TogglePreview"@.len() == 13);
    assert("ScaleUp"@.len() == 7);
    assert("ScaleDown"@.len() == 9);
    assert("RotateOutput"@.len() == 12);
    assert("ToggleTint"@.len() == 10);
    assert("ToggleFloating"@.len() == 14);
    assert("FocusNext"@.len() == 9);
    assert("FocusPrev"@.len() == 9);
    assert("WorkspaceNext"@.len() == 13);
    assert("WorkspacePrev"@.len() == 13);
    assert("ResizeWidthUp"@.len() == 13);
    assert("ResizeWidthDown"@.len() == 15);
    assert("ToggleFullscreen"@.len() == 16);
    assert("ToggleMaximize"@.len() == 14);
    assert("Run"@.len() == 3);
    assert("VtSwitch"@.len() == 8);
    assert("Screen"@.len() == 6);
    assert("Workspace"@.len() == 9);
    assert("Screenshot"@[0] != "ToggleTint"@[0]);
    assert("TogglePreview"@[0] != "WorkspaceNext"@[0]);
    assert("TogglePreview"@[0] != "WorkspacePrev"@[0]);
    assert("TogglePreview"@[0] != "ResizeWidthUp"@[0]);
    assert("ScaleDown"@[0] != "FocusNext"@[0]);
    assert("ScaleDown"@[0] != "FocusPrev"@[0]);
    assert("ScaleDown"@[0] != "Workspace"@[0]);
    assert("ToggleFloating"@[6] != "ToggleMaximize"@[6]);
    assert("FocusNext"@[5] != "FocusPrev"@[5]);
    assert("FocusNext"@[0] != "Workspace"@[0]);
    assert("FocusPrev"@[0] != "Workspace"@[0]);
    assert("WorkspaceNext"@[9] != "WorkspacePrev"@[9]);
    assert("WorkspaceNext"@[0] != "ResizeWidthUp"@[0]);
    assert("WorkspacePrev"@[0] != "ResizeWidthUp"@[0]);
}

} // verus!
