use std::cell::RefCell;
use std::rc::Rc;

use bakawm::config::api::{alias_names, api_names, file_for_call, Reply};
use bakawm::config::appearance::parse_anim_config;
use bakawm::config::lua::{ConfigError, LuaKind, LuaPair, LuaTable, LuaValue};
use bakawm::config::script::{
    exec_command, find_descriptor, init_to_call, parse_lua_config, Collector, ScriptValue,
};
use bakawm::config::{AnimConfig, AnimCurve, BindAction, Config, CornerRadius, LayoutType, UniformValue};
use bakawm::float::{F32, F64};
use mlua::{FromLua, Function, Lua, MultiValue, Table, Value, Variadic};

type Functions = Rc<RefCell<Vec<Function>>>;

fn f64_of(x: f64) -> F64 {
    F64 { bits: x.to_bits() }
}

fn f32_of(x: f32) -> F32 {
    F32 { bits: x.to_bits() }
}

fn table_of(lua: &Lua, t: &Table, functions: &Functions) -> LuaTable {
    let mut pairs = Vec::new();
    for pair in t.pairs::<Value, Value>() {
        let (k, v) = pair.unwrap();
        let name = match &k {
            Value::String(s) => s.to_str().ok().map(|s| s.to_string()),
            _ => None,
        };
        let key = String::from_lua(k, lua).ok();
        pairs.push(LuaPair { name, key, value: value_of(lua, &v, functions) });
    }
    let mut items = Vec::new();
    for v in t.sequence_values::<Value>() {
        items.push(value_of(lua, &v.unwrap(), functions));
    }
    LuaTable { pairs, items }
}

fn value_of(lua: &Lua, v: &Value, functions: &Functions) -> LuaValue {
    let kind = match v {
        Value::Nil => LuaKind::Nil,
        Value::Boolean(b) => LuaKind::Boolean(*b),
        Value::Integer(i) => LuaKind::Integer(*i),
        Value::Number(_) => LuaKind::Number,
        Value::String(_) => LuaKind::Text,
        Value::Table(t) => LuaKind::Table(table_of(lua, t, functions)),
        Value::Function(f) => {
            functions.borrow_mut().push(f.clone());
            LuaKind::Function(functions.borrow().len() as u64 - 1)
        }
        _ => LuaKind::Other,
    };
    LuaValue {
        kind,
        text: String::from_lua(v.clone(), lua).ok(),
        signed: i32::from_lua(v.clone(), lua).ok(),
        byte: u8::from_lua(v.clone(), lua).ok(),
        word: u32::from_lua(v.clone(), lua).ok(),
        size: usize::from_lua(v.clone(), lua).ok(),
        double: f64::from_lua(v.clone(), lua).ok().map(f64_of),
        single: f32::from_lua(v.clone(), lua).ok().map(f32_of),
        shown: format!("{:?}", v),
    }
}

fn failure(e: ConfigError) -> mlua::Error {
    mlua::Error::external(e.describe())
}

/// What the script gets for a reply.
fn answer(lua: &Lua, reply: Reply, functions: &Functions) -> mlua::Result<MultiValue> {
    match reply {
        Reply::Nothing => Ok(MultiValue::new()),
        Reply::Call { function } => {
            let f = functions.borrow()[function as usize].clone();
            f.call::<()>(())?;
            Ok(MultiValue::new())
        }
        Reply::Action { kind, command, signed, size } => {
            let t = lua.create_table()?;
            t.set("type", kind)?;
            if let Some(command) = command {
                t.set("command", command)?;
            }
            if let Some(n) = signed {
                t.set("n", n)?;
            }
            if let Some(n) = size {
                t.set("n", n)?;
            }
            Ok(MultiValue::from_vec(vec![Value::Table(t)]))
        }
    }
}

/// Runs a script, and builds the configuration that it says.
fn run(code: &str) -> Result<Config, ConfigError> {
    let lua = Lua::new();
    let functions: Functions = Rc::new(RefCell::new(Vec::new()));
    let collector = Rc::new(RefCell::new(Collector::new()));
    let bk = lua.create_table().unwrap();
    for name in api_names() {
        let (collector, functions, called) = (collector.clone(), functions.clone(), name.clone());
        let f = lua
            .create_function(move |lua, args: Variadic<Value>| {
                let values: Vec<LuaValue> = args.iter().map(|v| value_of(lua, v, &functions)).collect();
                let file = file_for_call(&called, &values, &b"/etc/bakawm".to_vec())
                    .map(|p| Ok(format!("contents of {}", String::from_utf8(p).unwrap())));
                let reply = collector.borrow_mut().call(&called, &values, &b"/etc/bakawm".to_vec(), file).map_err(failure)?;
                answer(lua, reply, &functions)
            })
            .unwrap();
        bk.set(name, f).unwrap();
    }
    let bakawm = lua.create_table().unwrap();
    for name in alias_names() {
        bakawm.set(name.as_str(), bk.get::<Function>(name.as_str()).unwrap()).unwrap();
    }
    lua.globals().set("bk", bk).unwrap();
    lua.globals().set("bakawm", bakawm).unwrap();

    let value = match lua.load(code).eval::<Value>() {
        Ok(Value::Table(t)) => ScriptValue::Table(table_of(&lua, &t, &functions)),
        Ok(_) => ScriptValue::Other,
        Err(_) => ScriptValue::Failed,
    };
    if let Some(handle) = init_to_call(&value) {
        let init = functions.borrow()[handle as usize].clone();
        init.call::<()>(()).unwrap();
    }
    let asked = collector.replace(Collector::new());
    parse_lua_config(asked, &value)
}

fn message(r: Result<Config, ConfigError>) -> String {
    r.err().unwrap().describe()
}

#[test]
fn test_parse_full_config() {
    let config = run(
        r#"
return {
    outputs = {
        {
            name = "eDP-1",
            mode = { width = 1920, height = 1080, refresh = 60 },
            position = { x = 0, y = 0 },
            scale = 1.5,
            transform = "normal",
        },
    },
    binds = {
        { modifiers = { "Super" }, key = "Return", action = { kind = "Run", command = "alacritty" } },
        { modifiers = { "Ctrl", "Alt" }, key = "BackSpace", action = { kind = "Quit" } },
    },
    env = {
        GTK_THEME = "Adwaita:dark",
    },
    cursor = {
        theme = "Adwaita",
        size = 32,
    },
}
"#,
    )
    .unwrap();

    assert_eq!(config.outputs.len(), 1);
    assert_eq!(config.outputs[0].name, "eDP-1");
    assert!(config.outputs[0].mode.is_some());
    let mode = config.outputs[0].mode.as_ref().unwrap();
    assert_eq!(mode.width, 1920);
    assert_eq!(mode.height, 1080);
    assert_eq!(mode.refresh, Some(60));
    assert_eq!(config.outputs[0].position, Some((0, 0)));
    assert_eq!(config.outputs[0].scale, Some(f64_of(1.5)));
    assert_eq!(config.outputs[0].transform, Some("normal".to_string()));

    assert_eq!(config.binds.len(), 2);
    assert_eq!(config.binds[0].modifiers, vec!["Super"]);
    assert_eq!(config.binds[0].key, "Return");
    assert!(matches!(&config.binds[0].action, BindAction::Run(cmd) if cmd == "alacritty"));

    assert_eq!(config.env.get("GTK_THEME").unwrap(), "Adwaita:dark");

    assert_eq!(config.cursor.theme, Some("Adwaita".to_string()));
    assert_eq!(config.cursor.size, Some(32));
}

#[test]
fn test_default_config_has_binds() {
    let config = Config::default();
    assert!(!config.binds.is_empty());
    assert!(config.outputs.is_empty());
    assert!(config.env.is_empty());
    assert!(config.cursor.theme.is_none());
    assert!(config.cursor.size.is_none());
}

#[test]
fn test_spawn_and_run_sh_in_init() {
    let config = run(
        r#"
return {
    binds = {
        { modifiers = { "Super" }, key = "q", action = { kind = "Quit" } },
    },
    init = function()
        bakawm.spawn("weston-terminal")
        bakawm.spawn("waybar")
        bakawm.run_sh("echo hello")
        bakawm.run_sh("sleep 1 && echo world")
    end,
}
"#,
    )
    .unwrap();

    assert_eq!(config.init_commands, vec!["weston-terminal", "waybar"]);
    assert_eq!(config.init_shell_commands, vec!["echo hello", "sleep 1 && echo world"]);
}

#[test]
fn test_spawn_and_run_sh_top_level() {
    let config = run(
        r#"
bakawm.spawn("alacritty")
bakawm.run_sh("notify-send 'Welcome!'")

return {
    binds = {
        { modifiers = { "Super" }, key = "q", action = { kind = "Quit" } },
    },
}
"#,
    )
    .unwrap();

    assert_eq!(config.init_commands, vec!["alacritty"]);
    assert_eq!(config.init_shell_commands, vec!["notify-send 'Welcome!'"]);
}

#[test]
fn test_parse_animations_config() {
    let config = run(
        r#"
return {
    binds = {
        { modifiers = { "Super" }, key = "q", action = { kind = "Quit" } },
    },
    animations = {
        enable = true,
        window_open = {
            enable = true,
            duration_ms = 200,
            curve = "ease-out-expo",
        },
        window_close = {
            enable = false,
            duration_ms = 300,
            curve = "linear",
        },
    },
}
"#,
    )
    .unwrap();

    assert!(config.animations.enable);
    assert!(config.animations.window_open.enable);
    assert_eq!(config.animations.window_open.duration_ms, 200);
    assert_eq!(config.animations.window_open.curve, AnimCurve::EaseOutExpo);
    assert!(!config.animations.window_close.enable);
    assert_eq!(config.animations.window_close.duration_ms, 300);
    assert_eq!(config.animations.window_close.curve, AnimCurve::Linear);
}

#[test]
fn test_parse_cubic_bezier_curve() {
    let config = run(
        r#"
return {
    binds = {
        { modifiers = { "Super" }, key = "q", action = { kind = "Quit" } },
    },
    animations = {
        window_open = {
            curve = { "cubic-bezier", 0.25, 0.1, 0.25, 1.0 },
        },
    },
}
"#,
    )
    .unwrap();

    assert_eq!(
        config.animations.window_open.curve,
        AnimCurve::CubicBezier(f64_of(0.25), f64_of(0.1), f64_of(0.25), f64_of(1.0))
    );
}

#[test]
fn test_imperative_bind_api() {
    let config = run(
        r#"
local mod = "Super"

bk.bind({ "Ctrl", "Alt" }, "BackSpace", bk.quit())
bk.bind({ mod }, "q", bk.close_window())
bk.bind({ mod }, "Return", bk.exec("alacritty"))
bk.bind({ mod, "Shift" }, "s", bk.screenshot())
bk.bind({ mod }, "1", bk.screen(0))
"#,
    )
    .unwrap();

    assert_eq!(config.binds.len(), 5);
    assert_eq!(config.binds[0].modifiers, vec!["Ctrl", "Alt"]);
    assert_eq!(config.binds[0].key, "BackSpace");
    assert!(matches!(config.binds[0].action, BindAction::Quit));

    assert_eq!(config.binds[1].modifiers, vec!["Super"]);
    assert_eq!(config.binds[1].key, "q");
    assert!(matches!(config.binds[1].action, BindAction::CloseWindow));

    assert!(matches!(&config.binds[2].action, BindAction::Run(cmd) if cmd == "alacritty"));
    assert!(matches!(config.binds[3].action, BindAction::Screenshot));
    assert!(matches!(&config.binds[4].action, BindAction::Screen(n) if *n == 0));
}

#[test]
fn test_imperative_config_api() {
    let config = run(
        r#"
bk.env("GTK_THEME", "Adwaita:dark")
bk.env("XCURSOR_SIZE", "24")

bk.cursor({ theme = "Adwaita", size = 32 })

bk.window({
    prefer_no_csd = true,
    corner_radius = 10,
})

bk.blur({ enable = true, passes = 3 })

bk.animations({
    enable = true,
    window_open = { duration_ms = 200, curve = "ease-out-expo" },
    window_close = { enable = false },
})

bk.output({
    name = "eDP-1",
    mode = { width = 1920, height = 1080, refresh = 60 },
    position = { x = 0, y = 0 },
    scale = 1.5,
})

bk.bind({ "Super" }, "q", bk.quit())
"#,
    )
    .unwrap();

    assert_eq!(config.env.get("GTK_THEME").unwrap(), "Adwaita:dark");
    assert_eq!(config.env.get("XCURSOR_SIZE").unwrap(), "24");

    assert_eq!(config.cursor.theme, Some("Adwaita".to_string()));
    assert_eq!(config.cursor.size, Some(32));

    assert!(config.window.prefer_no_csd);
    assert_eq!(config.window.corner_radius, CornerRadius::uniform(f32_of(10.0)));

    assert!(config.blur.enable);
    assert_eq!(config.blur.passes, 3);

    assert!(config.animations.enable);
    assert_eq!(config.animations.window_open.duration_ms, 200);
    assert_eq!(config.animations.window_open.curve, AnimCurve::EaseOutExpo);
    assert!(!config.animations.window_close.enable);

    assert_eq!(config.outputs.len(), 1);
    assert_eq!(config.outputs[0].name, "eDP-1");
    assert_eq!(config.outputs[0].scale, Some(f64_of(1.5)));
}

#[test]
fn test_imperative_for_loop() {
    let config = run(
        r#"
for i = 1, 3 do
    bk.bind({ "Super" }, tostring(i), bk.screen(i - 1))
end
"#,
    )
    .unwrap();

    assert_eq!(config.binds.len(), 3);
    assert!(matches!(&config.binds[0].action, BindAction::Screen(n) if *n == 0));
    assert!(matches!(&config.binds[1].action, BindAction::Screen(n) if *n == 1));
    assert!(matches!(&config.binds[2].action, BindAction::Screen(n) if *n == 2));
}

#[test]
fn test_imperative_callback_bind() {
    let config = run(
        r#"
bk.bind({ "Super" }, "x", function()
    -- Custom Lua function as bind action
    os.execute("notify-send 'Hello'")
end)

bk.bind({ "Super" }, "q", bk.quit())
"#,
    )
    .unwrap();

    assert_eq!(config.binds.len(), 2);
    // First bind should be a Callback
    assert!(matches!(config.binds[0].action, BindAction::Callback(0)));
    // Second bind is a normal action
    assert!(matches!(config.binds[1].action, BindAction::Quit));

    // LuaConfig should have been created with one callback
    assert!(config.lua_config.is_some());
    let lua_config = config.lua_config.as_ref().unwrap();
    assert_eq!(lua_config.callbacks.len(), 1);
}

#[test]
fn test_imperative_on_start() {
    let config = run(
        r#"
bk.on_start(function()
    bk.spawn("waybar")
    bk.spawn("mako")
    bk.run_sh("echo hello")
end)

bk.bind({ "Super" }, "q", bk.quit())
"#,
    )
    .unwrap();

    assert_eq!(config.init_commands, vec!["waybar", "mako"]);
    assert_eq!(config.init_shell_commands, vec!["echo hello"]);
}

#[test]
fn test_imperative_window_and_layer_rules() {
    let config = run(
        r#"
bk.window_rule({
    app_id = "kitty",
    window = { border = { width = 2 }, corner_radius = 10 },
    blur = { enable = true, passes = 2, xray = true },
})

bk.window_rule({
    title = "Visual Studio Code",
    window = { corner_radius = 12 },
})

bk.layer_rule({
    namespace = "waybar",
    blur = { enable = true, passes = 2, xray = true },
})

bk.bind({ "Super" }, "q", bk.quit())
"#,
    )
    .unwrap();

    assert_eq!(config.window_rules.len(), 2);
    assert_eq!(config.window_rules[0].app_id, Some("kitty".to_string()));
    assert_eq!(config.window_rules[1].title, Some("Visual Studio Code".to_string()));

    assert_eq!(config.layer_rules.len(), 1);
    assert_eq!(config.layer_rules[0].namespace, Some("waybar".to_string()));
}

#[test]
fn test_imperative_spawn_and_run_sh_top_level() {
    let config = run(
        r#"
bk.spawn("alacritty")
bk.run_sh("notify-send 'Welcome!'")

bk.bind({ "Super" }, "q", bk.quit())
"#,
    )
    .unwrap();

    assert_eq!(config.init_commands, vec!["alacritty"]);
    assert_eq!(config.init_shell_commands, vec!["notify-send 'Welcome!'"]);
}

#[test]
fn test_backward_compat_return_table() {
    // Old-style return { ... } config should still work
    let config = run(
        r#"
return {
    binds = {
        { modifiers = { "Super" }, key = "q", action = { kind = "Quit" } },
        { modifiers = { "Super" }, key = "Return", action = { kind = "Run", command = "alacritty" } },
    },
    env = {
        GTK_THEME = "Adwaita:dark",
    },
    cursor = {
        theme = "Adwaita",
        size = 32,
    },
}
"#,
    )
    .unwrap();

    assert_eq!(config.binds.len(), 2);
    assert!(matches!(config.binds[0].action, BindAction::Quit));
    assert!(matches!(&config.binds[1].action, BindAction::Run(cmd) if cmd == "alacritty"));
    assert_eq!(config.env.get("GTK_THEME").unwrap(), "Adwaita:dark");
    assert_eq!(config.cursor.theme, Some("Adwaita".to_string()));
    assert_eq!(config.cursor.size, Some(32));
}

#[test]
fn test_exec_variadic_args() {
    let config = run(
        r#"
local term = "alacritty"
bk.bind({ "Super" }, "Return", bk.exec(term, "-e", "bash"))
bk.bind({ "Super" }, "q", bk.exec("kitty"))
"#,
    )
    .unwrap();

    assert_eq!(config.binds.len(), 2);
    assert!(matches!(&config.binds[0].action, BindAction::Run(cmd) if cmd == "alacritty -e bash"));
    assert!(matches!(&config.binds[1].action, BindAction::Run(cmd) if cmd == "kitty"));
}

#[test]
fn parse_anim_config_presence() {
    let lua = Lua::new();
    let functions: Functions = Rc::new(RefCell::new(Vec::new()));
    let parse = |t: &Table| parse_anim_config(&table_of(&lua, t, &functions));

    // A plain easing table with no `off`/`enable` keys must parse as a
    // curve, not `Off` (regression test: the `off` presence check used to
    // return `Some(Value::Nil)` for a missing key, forcing every table to
    // `Off`).
    let t = lua.create_table().unwrap();
    t.set("duration_ms", 250).unwrap();
    t.set("curve", "ease-out-cubic").unwrap();
    assert_eq!(
        parse(&t),
        AnimConfig::Curve { duration_ms: 250, curve: AnimCurve::EaseOutCubic }
    );

    // An explicit `off = true` must still disable the animation.
    let t = lua.create_table().unwrap();
    t.set("off", true).unwrap();
    assert_eq!(parse(&t), AnimConfig::Off);

    // `enable = false` must disable, `enable = true` must not.
    let t = lua.create_table().unwrap();
    t.set("enable", false).unwrap();
    assert_eq!(parse(&t), AnimConfig::Off);
    let t = lua.create_table().unwrap();
    t.set("enable", true).unwrap();
    t.set("duration_ms", 100).unwrap();
    assert_ne!(parse(&t), AnimConfig::Off);

    // Springs must still parse.
    let t = lua.create_table().unwrap();
    let spring = lua.create_table().unwrap();
    spring.set("damping_ratio", 0.8).unwrap();
    spring.set("stiffness", 300.0).unwrap();
    t.set("spring", spring).unwrap();
    assert_eq!(
        parse(&t),
        AnimConfig::Spring {
            damping_ratio: f64_of(0.8),
            stiffness: f64_of(300.0),
            epsilon: f64_of(0.01)
        }
    );
}

#[test]
fn a_silent_script_leaves_the_standard() {
    let config = run("").unwrap();
    let standard = Config::default();
    assert!(config.binds.is_empty());
    assert_eq!(config.window, standard.window);
    assert_eq!(config.blur, standard.blur);
    assert_eq!(config.animations, standard.animations);
    assert_eq!(config.layout, standard.layout);
    assert!(config.lua_config.is_some());
}

#[test]
fn what_was_asked_for_wins_over_what_was_returned() {
    let config = run(
        r#"
bk.bind("Super", "q", bk.quit())
bk.env("A", "1")
bk.env("A", "2")
return {
    binds = { { key = "x", action = { kind = "Screenshot" } } },
    env = { B = "3" },
    cursor = { size = 5 },
}
"#,
    )
    .unwrap();
    assert_eq!(config.binds.len(), 1);
    assert_eq!(config.binds[0].modifiers, vec!["Super"]);
    assert!(matches!(config.binds[0].action, BindAction::Quit));
    assert_eq!(config.env.get("A").unwrap(), "2");
    assert!(config.env.get("B").is_none());
    assert_eq!(config.cursor.size, Some(5));
}

#[test]
fn a_failing_script_keeps_what_it_asked_for() {
    let config = run("bk.bind({}, 'q', bk.quit())\nerror('stop')\nbk.bind({}, 'x', bk.quit())").unwrap();
    assert_eq!(config.binds.len(), 1);
    assert!(config.binds[0].modifiers.is_empty());
}

#[test]
fn rejected_calls_change_nothing() {
    let config = run("pcall(bk.output, { mode = { width = 1 } })\npcall(bk.bind, {}, 'q', 5)").unwrap();
    assert!(config.outputs.is_empty());
    assert!(config.binds.is_empty());
}

#[test]
fn errors_of_a_returned_table() {
    assert_eq!(
        message(run("return { binds = { { key = 'q', action = { kind = 'Dance' } } } }")),
        "Unknown bind action kind: Dance"
    );
    assert_eq!(
        message(run("return { binds = { { key = 'q' } } }")),
        "wrong or missing value for `action`"
    );
    assert_eq!(
        message(run("return { outputs = { { name = 'a', mode = { width = 3 } } } }")),
        "wrong or missing value for `height`"
    );
    assert_eq!(message(run("return { outputs = { 5 } }")), "wrong or missing value for `item`");
    assert_eq!(message(run("return { env = { A = {} } }")), "wrong or missing value for `env`");
    assert_eq!(
        message(run("return { window = { border = { color = { r = 1, g = 1 } } } }")),
        "wrong or missing value for `b`"
    );
}

/// What a call of `bk` fails with.
fn refusal(call: &str) -> String {
    let code = format!("local ok, e = pcall(function() {} end); bk.spawn(tostring(e))", call);
    run(&code).unwrap().init_commands[0].clone()
}

#[test]
fn errors_of_calls() {
    assert!(refusal("bk.bind({}, 'q', { type = 'Dance' })").contains("Unknown bind action type: Dance"));
    assert!(refusal("bk.bind({}, 'q', 5)").contains("bind action must be a table or function, got Integer(5)"));
    assert!(refusal("bk.layout({ type = 'spiral' })").contains("Unknown layout type: spiral"));
    assert!(refusal("bk.layout({ type = 'grid', fn = function() end })")
        .contains("layout `fn` is only allowed with type = \"custom\""));
    assert!(refusal("bk.shader({ name = 'a', kind = 'half', fragment = 'x' })")
        .contains("Unknown shader kind: half (expected \"postprocess\" or \"full\")"));
    assert!(refusal("bk.shader({ name = 'a', fragment = 'void main', uniforms = { a = {1.5} } })")
        .contains("shader uniform arrays must have 2, 3 or 4 elements"));
    assert!(refusal("bk.shader({ name = 'a', fragment = 'void main', uniforms = { a = {1, true} } })")
        .contains("shader uniform arrays must contain numbers"));
    assert!(refusal("bk.shader({ name = 'a', fragment = 'void main', uniforms = { a = 'b' } })")
        .contains("unsupported shader uniform value for `a`"));
}

#[test]
fn layouts_and_their_limits() {
    let config = run(
        r#"
bk.layout({ type = "custom", gap = -3, master_ratio = 2, margins = { top = 4 },
            animation = { move = false, resize = { spring = {} } },
            fn = function() end })
"#,
    )
    .unwrap();
    assert_eq!(config.layout.layout, LayoutType::Custom);
    assert_eq!(config.layout.gap, f64_of(0.0));
    assert_eq!(config.layout.master_ratio, f64_of(0.9));
    assert_eq!(config.layout.margins.top, f64_of(4.0));
    assert_eq!(config.layout.margins.left, f64_of(0.0));
    assert_eq!(config.layout.custom_fn, Some(0));
    assert_eq!(config.layout.animation.move_anim, AnimConfig::Off);
    assert_eq!(
        config.layout.animation.resize_anim,
        AnimConfig::Spring {
            damping_ratio: f64_of(0.8),
            stiffness: f64_of(300.0),
            epsilon: f64_of(0.01)
        }
    );
    let low = run("bk.layout({ master_ratio = 0, animation = { move = 'off' } })").unwrap();
    assert_eq!(low.layout.master_ratio, f64_of(0.1));
    assert_eq!(low.layout.layout, LayoutType::Floating);
    assert_eq!(low.layout.animation.move_anim, AnimConfig::Off);
}

#[test]
fn shaders_from_files_and_from_text() {
    let config = run(
        r#"
bk.shader({ name = "sepia", fragment = "  sepia.frag ", uniforms = { intensity = 0.5 } })
bk.shader({ name = "own", kind = "full", fragment = " void main() {} ", uniforms = { on = true } })
bk.shader({ name = "vec", fragment = "/tmp/x.frag", uniforms = { v = { 0.5, 1.5, 2.5 } } })
bk.shader({ name = "whole", fragment = "void main() {}", uniforms = { v = { 1, 0.5 } } })
"#,
    )
    .unwrap();
    assert_eq!(config.custom_shaders[0].fragment, "contents of /etc/bakawm/sepia.frag");
    assert_eq!(config.custom_shaders[0].uniforms[0].value, UniformValue::Float(f32_of(0.5)));
    assert_eq!(config.custom_shaders[1].fragment, " void main() {} ");
    assert_eq!(config.custom_shaders[1].uniforms[0].value, UniformValue::Int(1));
    assert_eq!(config.custom_shaders[2].fragment, "contents of /tmp/x.frag");
    assert_eq!(
        config.custom_shaders[2].uniforms[0].value,
        UniformValue::Vec3(f32_of(0.5), f32_of(1.5), f32_of(2.5))
    );
    assert_eq!(config.custom_shaders[3].uniforms[0].value, UniformValue::Vec2(f32_of(1.0), f32_of(0.5)));
}

#[test]
fn rules_set_only_what_they_say() {
    let config = run("bk.window_rule({ window = { floating = true, corner_radius = { top_left = 3 } } })").unwrap();
    let w = config.window_rules[0].window.as_ref().unwrap();
    assert_eq!(w.floating, Some(true));
    assert_eq!(w.prefer_no_csd, None);
    assert_eq!(w.border, None);
    let c = w.corner_radius.unwrap();
    assert_eq!(c.top_left, f32_of(3.0));
    assert_eq!(c.bottom_right, f32_of(0.0));
    let merged = w.merge_over(&config.window);
    assert!(merged.floating);
    assert!(merged.prefer_no_csd);
}

#[test]
fn standard_numbers_are_what_they_say() {
    let c = Config::default();
    assert_eq!(c.blur.offset, f64_of(1.0));
    assert_eq!(c.window.shadow.offset_y, f64_of(5.0));
    assert_eq!(c.window.shadow.softness, f64_of(30.0));
    assert_eq!(c.window.shadow.color.a, f32_of(0.47));
    assert_eq!(c.window.border.inactive_color.r, f32_of(0.3));
    assert_eq!(c.window.border.color.a, f32_of(1.0));
    assert_eq!(c.layout.gap, f64_of(8.0));
    assert_eq!(c.layout.master_ratio, f64_of(0.5));
    assert_eq!(c.animations.window_open.scale, f64_of(0.8));
}

#[test]
fn every_descriptor_is_understood() {
    let config = run(
        "bk.bind({}, 'a', bk.toggle_floating())\nbk.bind({}, 'b', bk.workspace_next())\nbk.bind({}, 'c', bk.workspace(3))\nbk.bind({}, 'd', bk.toggle_maximize())",
    )
    .unwrap();
    assert!(matches!(config.binds[0].action, BindAction::ToggleFloating));
    assert!(matches!(config.binds[1].action, BindAction::WorkspaceNext));
    assert!(matches!(config.binds[2].action, BindAction::Workspace(3)));
    assert!(matches!(config.binds[3].action, BindAction::ToggleMaximize));
    assert_eq!(find_descriptor("scale_up"), Some("ScaleUp".to_string()));
    assert_eq!(find_descriptor("dance"), None);
    assert_eq!(exec_command(&vec![]), "");
}

#[test]
fn calls_describe_actions_or_are_refused() {
    let config = run(
        r#"
bk.bind({ "Super" }, "a", bk.exec("foot", "-e", 7))
bk.bind("Super", "b", bk.vt_switch(3))
bk.bind({}, "c", bk.screen(2))
bk.bind({}, "d", bk.workspace(4))
bk.bind({}, "e", bk.resize_width_down())
bk.on_start(function() bk.spawn("waybar") bakawm.run_sh("true") end)
assert(not pcall(bk.bind, {}, "f"))
assert(not pcall(bk.vt_switch, "x"))
assert(not pcall(bk.on_start, 5))
assert(not pcall(bk.spawn))
assert(not pcall(bk.output, 5))
assert(select('#', bk.env("A", "B")) == 0)
bk.spawn("last")
"#,
    )
    .unwrap();
    let actions: Vec<&BindAction> = config.binds.iter().map(|b| &b.action).collect();
    assert_eq!(
        actions,
        vec![
            &BindAction::Run("foot -e 7".to_string()),
            &BindAction::VtSwitch(3),
            &BindAction::Screen(2),
            &BindAction::Workspace(4),
            &BindAction::ResizeWidthDown,
        ]
    );
    assert_eq!(config.binds[1].modifiers, vec!["Super"]);
    assert_eq!(config.init_commands, vec!["waybar", "last"]);
    assert_eq!(config.init_shell_commands, vec!["true"]);
    assert_eq!(config.env.get("A").unwrap(), "B");
    assert_eq!(api_names().len(), 36);
    let mut c = Collector::new();
    assert_eq!(c.call("dance", &vec![], &vec![], None), Err(ConfigError::Wrong { name: "dance".to_string() }));
}
