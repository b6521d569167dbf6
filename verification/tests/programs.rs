use bakawm::config::load::{
    config_dir_under, config_path, config_path_under, finalize_config, is_change, join_path, load_config, load_step,
    reload_config, LoadOutcome, LoadStep, ReloadOutcome, ReloadTimer, WatchEvent,
};
use bakawm::config::Config;
use bakawm::ctl::{
    choose_mode, cmd_outputs, cmd_screenshot, cmd_window, connector_name, describe_number_error, gpu_paths, is_card,
    join_scans, needs_card_scan, or_unknown, parse_command, place_picture, print_human_output, print_lua_output,
    seat_name, truncate, whole_hertz, window_dispatch, window_list, ConnectorInfo, CtlCommand, ModeInfo, PictureTarget,
    ScreenshotCommand, WindowCommand,
};
use bakawm::decimal::{parse_i32_text, NumberError};
use bakawm::float::F64;
use bakawm::ipc::{IpcRequest, IpcResponse, OutputInfo, WindowInfo};
use bakawm::session::{detect_backend, parse_args, setup_session, Backend, Backends, Environment, Startup};

fn texts(words: &[&str]) -> Vec<String> {
    words.iter().map(|w| w.to_string()).collect()
}

#[test]
fn commands_are_told_apart() {
    assert_eq!(parse_command(&texts(&[])), CtlCommand::Usage);
    assert_eq!(parse_command(&texts(&["output"])), CtlCommand::Output { lua: false });
    assert_eq!(parse_command(&texts(&["detect", "x", "-l"])), CtlCommand::Output { lua: true });
    assert_eq!(parse_command(&texts(&["--lua"])), CtlCommand::Output { lua: true });
    assert_eq!(parse_command(&texts(&["outputs"])), CtlCommand::Outputs);
    assert_eq!(parse_command(&texts(&["windows"])), CtlCommand::Window);
    assert_eq!(parse_command(&texts(&["-h"])), CtlCommand::Help);
    assert_eq!(parse_command(&texts(&["dance"])), CtlCommand::Unknown);
}

#[test]
fn window_commands_become_requests() {
    assert_eq!(cmd_window(&texts(&[])), WindowCommand::Usage);
    assert_eq!(cmd_window(&texts(&["list"])), WindowCommand::List);
    assert_eq!(cmd_window(&texts(&["focus", "7"])), WindowCommand::Send(IpcRequest::FocusWindow { id: 7 }));
    assert_eq!(
        cmd_window(&texts(&["move", "7", "-5", "+6"])),
        WindowCommand::Send(IpcRequest::MoveWindow { id: 7, x: -5, y: 6 })
    );
    assert_eq!(cmd_window(&texts(&["close"])), WindowCommand::Fail("missing window id".to_string()));
    assert_eq!(
        cmd_window(&texts(&["close", "x"])),
        WindowCommand::Fail("invalid window id: invalid digit found in string".to_string())
    );
    assert_eq!(cmd_window(&texts(&["resize", "7"])), WindowCommand::Fail("missing width".to_string()));
    assert_eq!(
        cmd_window(&texts(&["resize", "7", "1", "99999999999"])),
        WindowCommand::Fail("invalid height: number too large to fit in target type".to_string())
    );
    assert_eq!(cmd_window(&texts(&["spin"])), WindowCommand::Unknown);
}

#[test]
fn number_errors_read_as_those_of_std() {
    for s in ["", "x", "99999999999", "-99999999999"] {
        let own = parse_i32_text(s).err().unwrap();
        assert_eq!(describe_number_error(own), s.parse::<i32>().err().unwrap().to_string());
    }
    assert_eq!(describe_number_error(NumberError::Empty), "cannot parse integer from empty string");
}

#[test]
fn windows_are_listed_in_columns() {
    assert_eq!(window_list(&Ok(IpcResponse::Windows { windows: vec![] })), Ok(texts(&["No windows."])));
    let windows = vec![
        WindowInfo { id: 3, title: "A".to_string(), app_id: "foot".to_string(), geometry: Some((1, -2, 30, 40)) },
        WindowInfo { id: 4, title: "x".repeat(30), app_id: "é".repeat(24), geometry: None },
    ];
    let lines = window_list(&Ok(IpcResponse::Windows { windows })).unwrap();
    assert_eq!(lines[0], format!("{:<6} {:<24} {:<24} Geometry", "ID", "Title", "App ID"));
    assert_eq!(lines[1], format!("{:<6} {:<24} {:<24} {}", 3, "A", "foot", "1,-2 30x40"));
    assert_eq!(lines[2], format!("{:<6} {:<24} {:<24} {}", 4, format!("{}…", "x".repeat(23)), "é".repeat(24), "—"));
    assert_eq!(
        window_list(&Ok(IpcResponse::Error { message: "no".to_string() })),
        Err("compositor error: no".to_string())
    );
    assert_eq!(window_list(&Ok(IpcResponse::Done)), Err("unexpected response from compositor".to_string()));
    assert_eq!(window_dispatch(&Ok(IpcResponse::Done)), Ok(()));
    assert_eq!(
        window_dispatch(&Ok(IpcResponse::Windows { windows: vec![] })),
        Err("unexpected response from compositor".to_string())
    );
    let lost = || Err("gone".to_string());
    assert_eq!(window_dispatch(&lost()), Err("Failed to send request: gone".to_string()));
    assert_eq!(window_list(&lost()), Err("Failed to query windows: gone".to_string()));
    assert_eq!(truncate("abcdef", 6), "abcdef");
    assert_eq!(truncate("abcdefg", 6), "abcde…");
}

#[test]
fn outputs_are_listed() {
    let info = |name: &str| OutputInfo { name: name.to_string(), width: 10, height: 20, scale: F64::from_i32(1) };
    let r = Ok(IpcResponse::Outputs { outputs: vec![info("a"), info("b")] });
    assert_eq!(
        cmd_outputs(&r, &texts(&["1", "1.5"])).unwrap(),
        texts(&["Output: a", "  Resolution: 10x20", "  Scale: 1", "", "Output: b", "  Resolution: 10x20", "  Scale: 1.5"])
    );
    assert_eq!(
        cmd_outputs(&Ok(IpcResponse::Outputs { outputs: vec![] }), &vec![]).unwrap(),
        texts(&["No outputs available."])
    );
    assert_eq!(cmd_outputs(&Err("gone".to_string()), &vec![]), Err("Failed to query outputs: gone".to_string()));
}

#[test]
fn screenshots_take_options() {
    assert_eq!(cmd_screenshot(&texts(&[])), ScreenshotCommand::Capture { output: None, file: None });
    assert_eq!(
        cmd_screenshot(&texts(&["--output", "a", "--file", "f", "--output", "b"])),
        ScreenshotCommand::Capture { output: Some("b".to_string()), file: Some("f".to_string()) }
    );
    assert_eq!(cmd_screenshot(&texts(&["--output"])), ScreenshotCommand::Fail("--output requires a name".to_string()));
    assert_eq!(cmd_screenshot(&texts(&["--file"])), ScreenshotCommand::Fail("--file requires a path".to_string()));
    assert_eq!(cmd_screenshot(&texts(&["--all"])), ScreenshotCommand::Fail("unknown option: --all".to_string()));
    assert_eq!(cmd_screenshot(&texts(&["-h", "--all"])), ScreenshotCommand::Help);
}

#[test]
fn pictures_do_not_go_to_terminals() {
    let shot = Ok(IpcResponse::Screenshot { png_length: 1, width: 30, height: 40 });
    assert_eq!(
        place_picture(&Err("gone".to_string()), true, &None, false),
        PictureTarget::Fail("Failed to request screenshot: gone".to_string())
    );
    assert_eq!(
        place_picture(&shot, true, &Some("f".to_string()), true),
        PictureTarget::File { path: "f".to_string(), message: "Screenshot (30x40) saved to f".to_string() }
    );
    assert!(matches!(place_picture(&shot, true, &None, true), PictureTarget::Fail(m) if m.starts_with("refusing")));
    assert_eq!(place_picture(&shot, true, &None, false), PictureTarget::Stdout);
    assert_eq!(
        place_picture(&shot, false, &None, false),
        PictureTarget::Fail("unexpected response from compositor".to_string())
    );
}

fn mode(width: u32, mhz: u32, preferred: bool) -> ModeInfo {
    ModeInfo {
        width,
        height: 1080,
        refresh_mhz: mhz,
        refresh_tenths: format!("{:.1}", mhz as f64 / 1000.0),
        preferred,
    }
}

fn connector(name: &str, modes: Vec<ModeInfo>) -> ConnectorInfo {
    ConnectorInfo {
        name: name.to_string(),
        make: "Acme".to_string(),
        model: "M".to_string(),
        modes,
        physical_size: Some((300, 200)),
        connector_type: "DP".to_string(),
    }
}

#[test]
fn scans_are_joined_in_order() {
    let scan = |names: &[&str]| Some(names.iter().map(|n| connector(n, vec![])).collect::<Vec<_>>());
    let all = join_scans(vec![scan(&["a", "b"]), None, scan(&[]), scan(&["c"])]);
    let names: Vec<String> = all.into_iter().map(|c| c.name).collect();
    assert_eq!(names, texts(&["a", "b", "c"]));
    assert!(join_scans(vec![None]).is_empty());
}

#[test]
fn connectors_are_printed_for_people() {
    let lines = print_human_output(&vec![
        connector("DP-1", vec![mode(1920, 59940, true)]),
        ConnectorInfo { physical_size: Some((0, 200)), ..connector("DP-2", vec![]) },
    ]);
    assert_eq!(
        lines,
        texts(&[
            "Output: DP-1",
            "  Type: DP",
            "  Make:  Acme",
            "  Model: M",
            "  Physical size: 300x200 mm",
            "  Modes:",
            "    1920x1080 @ 60 Hz (preferred)",
            "",
            "Output: DP-2",
            "  Type: DP",
            "  Make:  Acme",
            "  Model: M",
            "  Modes:",
            "",
            "Tip: Use --lua or -l flag to output in Lua config format.",
        ])
    );
}

#[test]
fn connectors_are_printed_for_the_configuration() {
    let lines = print_lua_output(&vec![
        connector("DP-1", vec![mode(800, 60000, false), mode(1920, 59940, true)]),
        ConnectorInfo { physical_size: None, ..connector("DP-2", vec![mode(640, 75000, false)]) },
    ]);
    assert_eq!(
        lines,
        texts(&[
            "-- Auto-detected output configuration for bakawm",
            "-- Copy the relevant entries into your config.lua",
            "",
            "outputs = {",
            "    {",
            "        name = \"DP-1\",",
            "        mode = { width = 1920, height = 1080, refresh = 59.9 },",
            "        -- Physical size: 300x200 mm",
            "        -- Make: Acme, Model: M",
            "        -- Available modes:",
            "        --   800x1080 @ 60 Hz",
            "        --   1920x1080 @ 60 Hz (preferred)",
            "    },",
            "    {",
            "        name = \"DP-2\",",
            "        mode = { width = 640, height = 1080, refresh = 75 },",
            "        -- Make: Acme, Model: M",
            "    }",
            "},",
        ])
    );
    assert_eq!(choose_mode(&vec![mode(1, 1, false), mode(2, 1, true), mode(3, 1, true)]), Some(1));
    assert_eq!(choose_mode(&vec![]), None);
}

#[test]
fn refresh_rates_are_rounded_as_std_rounds_them() {
    for mhz in [0u32, 499, 500, 501, 1500, 2500, 2501, 59940, 60000, 119880, 143856, u32::MAX] {
        assert_eq!(whole_hertz(mhz).to_string(), format!("{:.0}", mhz as f64 / 1000.0));
    }
}

#[test]
fn devices_are_looked_at_once() {
    let all = texts(&["/dev/b", "/dev/a", "/dev/b", "/dev/c"]);
    assert_eq!(gpu_paths(&None, &Some("/dev/a".to_string()), &all), texts(&["/dev/a", "/dev/b", "/dev/c"]));
    assert_eq!(gpu_paths(&Some("/dev/x".to_string()), &None, &all), texts(&["/dev/x"]));
    assert!(is_card("card0") && !is_card("renderD128"));
    assert!(needs_card_scan(0) && !needs_card_scan(2));
    assert_eq!(connector_name("HDMI-A", 1), "HDMI-A-1");
    assert_eq!(or_unknown(None), "Unknown");
    assert_eq!(seat_name(None), "seat0");
}

const ALL: Backends = Backends { winit: true, udev: true, x11: true };

#[test]
fn the_command_line_picks_a_backend() {
    assert_eq!(parse_args(&texts(&[]), ALL), Startup::Run { session: false, backend: None });
    assert_eq!(parse_args(&texts(&["--session"]), ALL), Startup::Run { session: true, backend: None });
    assert_eq!(
        parse_args(&texts(&["--session", "--winit"]), ALL),
        Startup::Run { session: true, backend: Some(Backend::Winit) }
    );
    assert_eq!(
        parse_args(&texts(&["--tty-udev", "--session"]), ALL),
        Startup::Run { session: true, backend: Some(Backend::TtyUdev) }
    );
    assert_eq!(parse_args(&texts(&["--x11"]), ALL), Startup::Run { session: false, backend: Some(Backend::X11) });
    assert_eq!(
        parse_args(&texts(&["--x11"]), Backends { x11: false, ..ALL }),
        Startup::Unknown { session: false, option: "--x11".to_string() }
    );
    assert_eq!(parse_args(&texts(&["--dance", "--version", "-h"]), ALL), Startup::Version);
    assert_eq!(parse_args(&texts(&["-h", "--version"]), ALL), Startup::Help);
    assert_eq!(parse_args(&texts(&["word", "-x"]), ALL), Startup::Run { session: false, backend: None });
}

#[test]
fn sessions_clean_their_environment() {
    let env = Environment { wsl: false, display: true, wayland_display: false, wayland_socket: true };
    let s = setup_session(env, true);
    assert!(s.remove_display && !s.remove_wayland_display && s.remove_wayland_socket);
    assert!(s.update_dbus && s.import_systemd);
    let wsl = setup_session(Environment { wsl: true, ..env }, false);
    assert!(!wsl.remove_display && !wsl.remove_wayland_socket && !wsl.update_dbus && !wsl.import_systemd);
    assert_eq!(detect_backend(env, ALL), Some(Backend::Winit));
    let tty = Environment { wsl: false, display: false, wayland_display: false, wayland_socket: false };
    assert_eq!(detect_backend(tty, ALL), Some(Backend::TtyUdev));
    assert_eq!(detect_backend(tty, Backends { udev: false, winit: false, x11: true }), None);
}

#[test]
fn the_configuration_has_its_place() {
    assert_eq!(config_path_under(&Some(b"/home/u/.config".to_vec())), b"/home/u/.config/bakawm/config.lua".to_vec());
    assert_eq!(config_dir_under(&None), b"./bakawm".to_vec());
    assert!(config_path().ends_with(b"/bakawm/config.lua"));
    assert_eq!(join_path(&b"/a/".to_vec(), "b"), b"/a/b".to_vec());
    assert_eq!(join_path(&b"/a".to_vec(), "/b"), b"/b".to_vec());
    // Paths need not be text.
    assert_eq!(join_path(&b"/\xff".to_vec(), "b"), b"/\xff/b".to_vec());
}

#[test]
fn every_load_counts() {
    let mut generation = 4;
    let c = load_config(LoadOutcome::NotParsed, &mut generation);
    assert_eq!((c.shader_gen, generation), (5, 5));
    assert!(!c.binds.is_empty());
    let c = load_config(LoadOutcome::NotCreated, &mut generation);
    assert_eq!((c.shader_gen, generation), (6, 6));
    let mut read = Config::default();
    read.cursor.size = Some(9);
    let current = load_config(LoadOutcome::Parsed(read), &mut generation);
    assert_eq!((current.shader_gen, current.cursor.size), (7, Some(9)));
    let kept = reload_config(&current, ReloadOutcome::Removed, &mut generation);
    assert_eq!((kept.shader_gen, kept.cursor.size, generation), (7, Some(9), 7));
    let kept = reload_config(&current, ReloadOutcome::NotParsed, &mut generation);
    assert_eq!(kept.shader_gen, 7);
    let new = reload_config(&current, ReloadOutcome::Parsed(Config::default()), &mut generation);
    assert_eq!((new.shader_gen, new.cursor.size), (8, None));
    assert_eq!(finalize_config(Config::default(), &mut generation).shader_gen, 9);
    assert_eq!(load_step(true), LoadStep::Parse);
    assert_eq!(load_step(false), LoadStep::CreateThenParse);
}

#[test]
fn a_burst_of_changes_is_one_reload() {
    let mut t = ReloadTimer::new();
    assert!(t.on_change(5));
    assert!(!t.on_change(6));
    assert_eq!(t.pending, Some(5));
    assert!(t.on_timeout());
    assert!(!t.on_timeout());
    assert!(t.on_change(9));
    assert!(is_change(WatchEvent::Remove) && !is_change(WatchEvent::Other));
}
