//! Start of the compositor: its command line, the environment of a session, and
//! the backend to run on.
use vstd::prelude::*;
use crate::text::{begins_with, same, starts_with};

verus! {

/// What the compositor runs on.
#[derive(Clone, Copy, Debug, PartialEq, Eq, Structural)]
pub enum Backend {
    /// A window of another X11 or Wayland session.
    Winit,
    /// A terminal of its own, with udev.
    TtyUdev,
    /// A window of an X11 session.
    X11,
}

/// The backends that are built in.
#[derive(Clone, Copy, Debug, PartialEq, Eq, Structural)]
pub struct Backends {
    pub winit: bool,
    pub udev: bool,
    pub x11: bool,
}

/// What the command line asks for.
#[derive(Debug, PartialEq, Eq)]
pub enum Startup {
    /// Print the version and stop.
    Version,
    /// Print the usage and stop.
    Help,
    /// Run, as a session or not, on this backend. With none given a session
    /// picks one, and without a session the usage is printed.
    Run { session: bool, backend: Option<Backend> },
    /// There is no such option.
    Unknown { session: bool, option: String },
}

/// An option that asks to print something and stop.
pub open spec fn is_query(arg: Seq<char>) -> bool {
    arg == "--version"@ || arg == "--help"@ || arg == "-h"@
}

/// An option that is neither a flag nor a query, and so names a backend.
pub open spec fn names_backend(arg: Seq<char>) -> bool {
    begins_with(arg, "--"@) && arg != "--session"@ && !is_query(arg)
}

/// Whether `at` is the first argument that `f` holds of.
pub open spec fn first_arg(args: Seq<String>, f: spec_fn(Seq<char>) -> bool, at: int) -> bool {
    &&& 0 <= at < args.len()
    &&& f(args[at]@)
    &&& forall|i: int| 0 <= i < at ==> !f((#[trigger] args[i])@)
}

/// Whether `f` holds of some argument.
pub open spec fn any_arg(args: Seq<String>, f: spec_fn(Seq<char>) -> bool) -> bool {
    exists|i: int| 0 <= i < args.len() && f((#[trigger] args[i])@)
}

/// The backend of a name, where it is built in.
pub open spec fn backend_named(name: Seq<char>, built: Backends) -> Option<Backend> {
    if name == "--winit"@ && built.winit {
        Some(Backend::Winit)
    } else if name == "--tty-udev"@ && built.udev {
        Some(Backend::TtyUdev)
    } else if name == "--x11"@ && built.x11 {
        Some(Backend::X11)
    } else {
        None
    }
}

fn find_backend(name: &str, built: Backends) -> (r: Option<Backend>)
    ensures
        r == backend_named(name@, built),
{
    if same(name, "--winit") && built.winit {
        Some(Backend::Winit)
    } else if same(name, "--tty-udev") && built.udev {
        Some(Backend::TtyUdev)
    } else if same(name, "--x11") && built.x11 {
        Some(Backend::X11)
    } else {
        None
    }
}

pub open spec fn is_session_flag(arg: Seq<char>) -> bool {
    arg == "--session"@
}

/// What the arguments after the program's name ask for. The first query wins
/// over everything else; of the options that name a backend the first counts.
pub fn parse_args(args: &Vec<String>, built: Backends) -> (s: Startup)
    ensures
        ({
            let session = any_arg(args@, |a: Seq<char>| is_session_flag(a));
            let queries = |a: Seq<char>| is_query(a);
            let backends = |a: Seq<char>| names_backend(a);
            if any_arg(args@, queries) {
                exists|at: int| #[trigger]
                    first_arg(args@, queries, at) && s == (if args@[at]@ == "--version"@ {
                        Startup::Version
                    } else {
                        Startup::Help
                    })
            } else if any_arg(args@, backends) {
                exists|at: int| #[trigger]
                    first_arg(args@, backends, at) && match backend_named(args@[at]@, built) {
                        Some(b) => s == (Startup::Run { session, backend: Some(b) }),
                        None => s == (Startup::Unknown { session, option: args@[at] }),
                    }
            } else {
                s == (Startup::Run { session, backend: None })
            }
        }),
{
    let ghost queries = |a: Seq<char>| is_query(a);
    let ghost backends = |a: Seq<char>| names_backend(a);
    let mut session = false;
    let mut named: Option<usize> = None;
    let mut i: usize = 0;
    while i < args.len()
        invariant
            i <= args@.len(),
            queries == (|a: Seq<char>| is_query(a)),
            backends == (|a: Seq<char>| names_backend(a)),
            forall|k: int| 0 <= k < i ==> !is_query((#[trigger] args@[k])@),
            session == (exists|k: int| 0 <= k < i && is_session_flag((#[trigger] args@[k])@)),
            match named {
                Some(at) => at < i && first_arg(args@, backends, at as int),
                None => forall|k: int| 0 <= k < i ==> !names_backend((#[trigger] args@[k])@),
            },
        decreases args@.len() - i,
    {
        let arg = &args[i];
        if same(arg, "--version") {
            assert(first_arg(args@, queries, i as int));
            return Startup::Version;
        }
        if same(arg, "--help") || same(arg, "-h") {
            proof {
                reveal_strlit("--version");
                reveal_strlit("--help");
                reveal_strlit("-h");
                assert("--version"@.len() == 9 && "--help"@.len() == 6 && "-h"@.len() == 2);
            }
            assert(first_arg(args@, queries, i as int));
            return Startup::Help;
        }
        if same(arg, "--session") {
            session = true;
        } else if starts_with(arg, "--") && named.is_none() {
            named = Some(i);
            assert(first_arg(args@, backends, i as int));
        }
        i = i + 1;
    }
    match named {
        Some(at) => match find_backend(&args[at], built) {
            Some(b) => Startup::Run { session, backend: Some(b) },
            None => Startup::Unknown { session, option: args[at].clone() },
        },
        None => Startup::Run { session, backend: None },
    }
}

/// Which of the variables that matter at the start are set.
#[derive(Clone, Copy, Debug, PartialEq, Eq, Structural)]
pub struct Environment {
    pub wsl: bool,
    pub display: bool,
    pub wayland_display: bool,
    pub wayland_socket: bool,
}

impl Environment {
    /// Neither an X11 nor a Wayland session is around.
    pub open spec fn on_tty(self) -> bool {
        !self.display && !self.wayland_display && !self.wayland_socket
    }
}

/// What to do to the environment of a session. The desktop and the kind of
/// session are set in any case.
#[derive(Clone, Copy, Debug, PartialEq, Eq, Structural)]
pub struct SessionSetup {
    pub remove_display: bool,
    pub remove_wayland_display: bool,
    pub remove_wayland_socket: bool,
    /// Hand the environment to the services that D-Bus starts.
    pub update_dbus: bool,
    /// Hand it to the service manager.
    pub import_systemd: bool,
}

impl SessionSetup {
    /// The environment after the removals.
    pub open spec fn after(self, env: Environment) -> Environment {
        Environment {
            wsl: env.wsl,
            display: env.display && !self.remove_display,
            wayland_display: env.wayland_display && !self.remove_wayland_display,
            wayland_socket: env.wayland_socket && !self.remove_wayland_socket,
        }
    }
}

/// What to do to the environment of a session. Variables of an outer session
/// are removed, but not under WSL, where that is the only one.
pub open spec fn session_setup(env: Environment, service: bool) -> SessionSetup {
    SessionSetup {
        remove_display: !env.wsl && env.display,
        remove_wayland_display: !env.wsl && env.wayland_display,
        remove_wayland_socket: !env.wsl && env.wayland_socket,
        update_dbus: !env.wsl || (!env.display && !env.wayland_display),
        import_systemd: service,
    }
}

/// What to do to the environment of a session; `service` tells whether the
/// service manager started it.
pub fn setup_session(env: Environment, service: bool) -> (s: SessionSetup)
    ensures
        s == session_setup(env, service),
{
    let mut s = SessionSetup {
        remove_display: false,
        remove_wayland_display: false,
        remove_wayland_socket: false,
        update_dbus: false,
        import_systemd: service,
    };
    let mut display = env.display;
    let mut wayland_display = env.wayland_display;
    if !env.wsl {
        if display {
            s.remove_display = true;
            display = false;
        }
        if wayland_display {
            s.remove_wayland_display = true;
            wayland_display = false;
        }
        if env.wayland_socket {
            s.remove_wayland_socket = true;
        }
    }
    s.update_dbus = !display && !wayland_display;
    s
}

/// The backend of a session that names none: the terminal where there is no
/// other session around, else a window.
pub open spec fn detected(env: Environment, built: Backends) -> Option<Backend> {
    if built.udev && env.on_tty() {
        Some(Backend::TtyUdev)
    } else if built.winit {
        Some(Backend::Winit)
    } else {
        None
    }
}

/// The backend of a session that names none, if one is built in.
pub fn detect_backend(env: Environment, built: Backends) -> (r: Option<Backend>)
    ensures
        r == detected(env, built),
{
    if built.udev && !env.display && !env.wayland_display && !env.wayland_socket {
        return Some(Backend::TtyUdev);
    }
    if built.winit {
        Some(Backend::Winit)
    } else {
        None
    }
}

/// A session outside WSL that names no backend runs on the terminal, whatever
/// the environment held before.
pub proof fn sessions_run_on_the_terminal(env: Environment, service: bool, built: Backends)
    requires
        !env.wsl,
        built.udev,
    ensures
        session_setup(env, service).after(env).on_tty(),
        detected(session_setup(env, service).after(env), built) == Some(Backend::TtyUdev),
{
}

/// The flag for a session never hides the backend beside it.
pub proof fn session_flag_names_no_backend(arg: Seq<char>)
    requires
        is_session_flag(arg),
    ensures
        !names_backend(arg),
{
}

/// A backend is run by its own option, and only if it was built in.
pub proof fn backends_go_by_their_options(name: Seq<char>, built: Backends)
    ensures
        name == "--winit"@ && built.winit <==> backend_named(name, built) == Some(Backend::Winit),
        name == "--tty-udev"@ && built.udev <==> backend_named(name, built) == Some(
            Backend::TtyUdev,
        ),
        name == "--x11"@ && built.x11 <==> backend_named(name, built) == Some(Backend::X11),
        backend_named(name, built) is Some ==> name == "--winit"@ || name == "--tty-udev"@ || name
            == "--x11"@,
{
    reveal_strlit("--winit");
    reveal_strlit("--tty-udev");
    reveal_strlit("--x11");
    assert("--winit"@.len() == 7);
    assert("--tty-udev"@.len() == 10);
    assert("--x11"@.len() == 5);
}

/// Without a display a session runs on the terminal, where it can; within another
/// session it runs in a window, where it can.
pub proof fn backends_go_by_the_environment(env: Environment, built: Backends)
    ensures
        built.udev && !env.display && !env.wayland_display && !env.wayland_socket ==> detected(
            env,
            built,
        ) == Some(Backend::TtyUdev),
        (env.display || env.wayland_display || env.wayland_socket) && built.winit ==> detected(
            env,
            built,
        ) == Some(Backend::Winit),
        (env.display || env.wayland_display || env.wayland_socket) && !built.winit ==> detected(
            env,
            built,
        ) is None,
        !built.udev && built.winit ==> detected(env, built) == Some(Backend::Winit),
        !built.udev && !built.winit ==> detected(env, built) is None,
        detected(env, built) != Some(Backend::X11),
{
}

/// A session takes away what is there of another one, unless the machine is one
/// that only runs within another, and then leaves it all.
pub proof fn sessions_take_away_the_old_display(env: Environment, service: bool)
    ensures
        ({
            let s = session_setup(env, service);
            &&& env.wsl ==> !s.remove_display && !s.remove_wayland_display
                && !s.remove_wayland_socket && s.after(env) == env
            &&& !env.wsl ==> (s.remove_display <==> env.display) && (s.remove_wayland_display
                <==> env.wayland_display) && (s.remove_wayland_socket <==> env.wayland_socket)
                && !s.after(env).display && !s.after(env).wayland_display
                && !s.after(env).wayland_socket
            &&& !env.wsl ==> s.update_dbus
            &&& env.wsl ==> (s.update_dbus <==> !env.display && !env.wayland_display)
            &&& s.import_systemd <==> service
            &&& s.after(env).wsl == env.wsl
        }),
{
}

/// Questions for the version and for help are no backends, nor is what does not
/// begin with two dashes.
pub proof fn questions_name_no_backend(arg: Seq<char>)
    ensures
        arg == "--version"@ || arg == "--help"@ || arg == "-h"@ <==> is_query(arg),
        is_query(arg) ==> !names_backend(arg),
        arg == "--session"@ <==> is_session_flag(arg),
        arg.len() < 2 ==> !names_backend(arg),
        arg.len() >= 2 && (arg[0] != '-' || arg[1] != '-') ==> !names_backend(arg),
{
    reveal_strlit("--");
    if arg.len() >= 2 && begins_with(arg, "--"@) {
        assert(arg.take(2)[0] == arg[0] && arg.take(2)[1] == arg[1]);
    }
}

/// The first argument that asks for something decides.
pub proof fn the_first_argument_decides(
    args: Seq<String>,
    f: spec_fn(Seq<char>) -> bool,
    at: int,
    other: int,
)
    requires
        first_arg(args, f, at),
    ensures
        any_arg(args, f),
        f(args[at]@),
        0 <= other < at ==> !f(args[other]@),
        first_arg(args, f, other) ==> other == at,
{
}

/// An argument that asks for something is found if none before it does.
pub proof fn arguments_are_found(args: Seq<String>, f: spec_fn(Seq<char>) -> bool, at: int)
    requires
        0 <= at < args.len(),
        f(args[at]@),
        forall|i: int| 0 <= i < at ==> !f((#[trigger] args[i])@),
    ensures
        first_arg(args, f, at),
        any_arg(args, f),
{
}

/// An argument is there exactly if one of them asks for it.
pub proof fn arguments_are_looked_through(args: Seq<String>, f: spec_fn(Seq<char>) -> bool)
    ensures
        (forall|i: int| 0 <= i < args.len() ==> !f((#[trigger] args[i])@)) ==> !any_arg(args, f),
        any_arg(args, f) ==> exists|i: int| 0 <= i < args.len() && f((#[trigger] args[i])@),
{
}

} // verus!
