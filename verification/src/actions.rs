//! What the compositor does about a key action.
use vstd::prelude::*;
use crate::config::{EnvVar, LuaConfig};
use crate::decimal::{decimal, unsigned_text};
use crate::geometry::{Point, Transform};
use crate::shortcuts::KeyAction;
use crate::state::Space;

verus! {

/// Who carries out a key action.
#[derive(Clone, Copy, Debug, PartialEq, Eq, Structural)]
pub enum KeyDispatch {
    /// The backend, which owns sessions, outputs and debug flags.
    Backend,
    /// The part that all backends share.
    Common,
    /// Nobody: the backend has no such thing.
    Unsupported,
}

/// Whether an action is about a terminal, a screen, an output or the renderer.
pub open spec fn is_backend_action(action: KeyAction) -> bool {
    action is VtSwitch || action is Screen || action is ScaleUp || action is ScaleDown
        || action is RotateOutput || action is ToggleTint
}

/// Who carries out a key action on the native backend.
pub fn dispatch_native(action: &KeyAction) -> (d: KeyDispatch)
    ensures
        d == (if is_backend_action(*action) {
            KeyDispatch::Backend
        } else {
            KeyDispatch::Common
        }),
{
    match action {
        KeyAction::VtSwitch(_)
        | KeyAction::Screen(_)
        | KeyAction::ScaleUp
        | KeyAction::ScaleDown
        | KeyAction::RotateOutput
        | KeyAction::ToggleTint => KeyDispatch::Backend,
        _ => KeyDispatch::Common,
    }
}

/// Who carries out a key action on a backend that is a window of another
/// compositor: it has outputs, but no terminals, screens or debug flags.
pub fn dispatch_windowed(action: &KeyAction) -> (d: KeyDispatch)
    ensures
        d == (if action is ScaleUp || action is ScaleDown || action is RotateOutput {
            KeyDispatch::Backend
        } else if is_backend_action(*action) {
            KeyDispatch::Unsupported
        } else {
            KeyDispatch::Common
        }),
{
    match action {
        KeyAction::ScaleUp | KeyAction::ScaleDown | KeyAction::RotateOutput => KeyDispatch::Backend,
        KeyAction::VtSwitch(_) | KeyAction::Screen(_) | KeyAction::ToggleTint => {
            KeyDispatch::Unsupported
        },
        _ => KeyDispatch::Common,
    }
}

impl Transform {
    pub open spec fn after(self) -> Transform {
        match self {
            Transform::Normal => Transform::Rot90,
            Transform::Rot90 => Transform::Rot180,
            Transform::Rot180 => Transform::Rot270,
            Transform::Rot270 => Transform::Flipped,
            Transform::Flipped => Transform::Flipped90,
            Transform::Flipped90 => Transform::Flipped180,
            Transform::Flipped180 => Transform::Flipped270,
            Transform::Flipped270 => Transform::Normal,
        }
    }

    /// The next transform, when an output is rotated.
    pub fn rotated(&self) -> (t: Transform)
        ensures
            t == self.after(),
    {
        match self {
            Transform::Normal => Transform::Rot90,
            Transform::Rot90 => Transform::Rot180,
            Transform::Rot180 => Transform::Rot270,
            Transform::Rot270 => Transform::Flipped,
            Transform::Flipped => Transform::Flipped90,
            Transform::Flipped90 => Transform::Flipped180,
            Transform::Flipped180 => Transform::Flipped270,
            Transform::Flipped270 => Transform::Normal,
        }
    }
}

/// Rotating an output goes through all eight transforms and comes back.
pub proof fn rotation_comes_back(t: Transform)
    ensures
        t.after().after().after().after().after().after().after().after() == t,
        t.after() != t,
        t.after().after() != t,
        t.after().after().after().after() != t,
{
}

/// The position of the first output that holds a point.
pub open spec fn output_holding(space: Space, p: Point, at: int) -> bool {
    &&& 0 <= at < space.outputs@.len()
    &&& space.outputs@[at].geometry matches Some(g) && g.holds(p.x as int, p.y as int)
    &&& forall|i: int|
        0 <= i < at ==> !((#[trigger] space.outputs@[i]).geometry matches Some(g) && g.holds(
            p.x as int,
            p.y as int,
        ))
}

/// The position of the output under a point.
pub fn output_under(space: &Space, p: Point) -> (r: Option<usize>)
    ensures
        match r {
            Some(i) => output_holding(*space, p, i as int),
            None => forall|at: int| !#[trigger] output_holding(*space, p, at),
        },
{
    let mut i: usize = 0;
    while i < space.outputs.len()
        invariant
            i <= space.outputs@.len(),
            forall|k: int|
                0 <= k < i ==> !((#[trigger] space.outputs@[k]).geometry matches Some(g) && g.holds(
                    p.x as int,
                    p.y as int,
                )),
        decreases space.outputs@.len() - i,
    {
        match space.outputs[i].geometry {
            Some(g) => {
                if g.contains(p) {
                    return Some(i);
                }
            },
            None => {},
        }
        i = i + 1;
    }
    None
}

/// The workspace after `current`; the last has none.
pub fn next_workspace(current: u32) -> (n: u32)
    ensures
        n == (if current < u32::MAX {
            current + 1
        } else {
            current as int
        }),
{
    if current < u32::MAX {
        current + 1
    } else {
        current
    }
}

/// The workspace before `current`; the first has none.
pub fn previous_workspace(current: u32) -> (n: u32)
    ensures
        n == (if current > 0 {
            current - 1
        } else {
            0
        }),
{
    if current > 0 {
        current - 1
    } else {
        0
    }
}

/// Who draws the frame of a window.
#[derive(Clone, Copy, Debug, PartialEq, Eq, Structural)]
pub enum DecorationMode {
    ClientSide,
    ServerSide,
}

/// The other mode, for a window that has one, and whether its client is to be
/// told at once.
pub fn toggle_decoration(mode: Option<DecorationMode>, configured: bool) -> (r: (
    Option<DecorationMode>,
    bool,
))
    ensures
        r.0 == (match mode {
            Some(DecorationMode::ClientSide) => Some(DecorationMode::ServerSide),
            Some(DecorationMode::ServerSide) => Some(DecorationMode::ClientSide),
            None => None,
        }),
        r.1 == (mode is Some && configured),
{
    match mode {
        Some(DecorationMode::ClientSide) => (Some(DecorationMode::ServerSide), configured),
        Some(DecorationMode::ServerSide) => (Some(DecorationMode::ClientSide), configured),
        None => (None, false),
    }
}

/// What the shared part of the compositor keeps of its session.
#[derive(Debug, PartialEq, Eq)]
pub struct Session {
    pub running: bool,
    pub show_window_preview: bool,
    pub pending_screenshot: bool,
    /// The focused window.
    pub focused_window: Option<u64>,
    /// The focused output, and its active workspace.
    pub focused_output: Option<(u64, u32)>,
    /// Name of the Wayland socket.
    pub socket_name: Option<String>,
    /// Number of the X11 display.
    pub xdisplay: Option<u32>,
    /// The callbacks of the configuration script.
    pub lua_config: Option<LuaConfig>,
}

/// What is left to do after a key action.
#[derive(Debug, PartialEq, Eq)]
pub enum ActionEffect {
    Nothing,
    /// Close this window, after its animation.
    Close { window: u64 },
    /// Take this window out of the layout or put it back.
    ToggleFloating { window: u64 },
    /// Run a command in this environment.
    Spawn { command: String, env: Vec<EnvVar> },
    /// Let the other side draw the frames of all windows.
    ToggleDecorations,
    /// Call a function of the configuration script.
    Call { callback: u64 },
    /// Focus the window this many places further.
    CycleFocus { by: i32 },
    /// Show another workspace.
    SwitchWorkspace { output: u64, workspace: u32 },
    /// Change the focused window's column width by this many pixels.
    ResizeWidth { by: i32 },
    ToggleFullscreen,
    ToggleMaximize,
}

/// Pixels by which a key press changes a column's width.
pub const WIDTH_STEP: i32 = 40;

/// Whether a command's environment names the session's displays, where it has them.
pub open spec fn names_displays(env: Seq<EnvVar>, socket: Option<String>, display: Option<u32>) -> bool {
    let first = if socket is Some {
        1int
    } else {
        0int
    };
    &&& env.len() == first + (if display is Some {
        1int
    } else {
        0int
    })
    &&& socket matches Some(name) ==> env[0].name@ == "WAYLAND_DISPLAY"@ && env[0].value@ == name@
    &&& display matches Some(n) ==> env[first].name@ == "DISPLAY"@ && env[first].value@ == seq![':']
        + decimal(n as int)
}

fn command_env(socket: &Option<String>, display: Option<u32>) -> (env: Vec<EnvVar>)
    ensures
        names_displays(env@, *socket, display),
{
    let mut env: Vec<EnvVar> = Vec::new();
    match socket {
        Some(name) => {
            env.push(EnvVar { name: "WAYLAND_DISPLAY".to_owned(), value: name.clone() });
        },
        None => {},
    }
    match display {
        Some(n) => {
            let mut value = String::new();
            value.push(':');
            value.append(unsigned_text(n as u64).as_str());
            assert(value@ =~= seq![':'] + decimal(n as int));
            env.push(EnvVar { name: "DISPLAY".to_owned(), value });
        },
        None => {},
    }
    env
}

/// The session after a key action.
pub open spec fn session_after(before: Session, action: KeyAction) -> Session {
    match action {
        KeyAction::Quit => Session { running: false, ..before },
        KeyAction::TogglePreview => Session {
            show_window_preview: !before.show_window_preview,
            ..before
        },
        KeyAction::Screenshot => Session { pending_screenshot: true, ..before },
        _ => before,
    }
}

/// Whether `effect` is what is left to do after a key action.
pub open spec fn is_effect(session: Session, action: KeyAction, effect: ActionEffect) -> bool {
    match action {
        KeyAction::CloseWindow => effect == match session.focused_window {
            Some(window) => ActionEffect::Close { window },
            None => ActionEffect::Nothing,
        },
        KeyAction::ToggleFloating => effect == match session.focused_window {
            Some(window) => ActionEffect::ToggleFloating { window },
            None => ActionEffect::Nothing,
        },
        KeyAction::Run(cmd) => effect matches ActionEffect::Spawn { command, env } && command == cmd
            && names_displays(env@, session.socket_name, session.xdisplay),
        KeyAction::ToggleDecorations => effect == ActionEffect::ToggleDecorations,
        KeyAction::Callback(idx) => effect == (if session.lua_config matches Some(lua) && idx
            < lua.callbacks@.len() {
            ActionEffect::Call { callback: session.lua_config->0.callbacks@[idx as int] }
        } else {
            ActionEffect::Nothing
        }),
        KeyAction::FocusNext => effect == ActionEffect::CycleFocus { by: 1 },
        KeyAction::FocusPrev => effect == (ActionEffect::CycleFocus { by: (-1) as i32 }),
        KeyAction::WorkspaceNext => effect == match session.focused_output {
            Some((output, current)) => ActionEffect::SwitchWorkspace {
                output,
                workspace: if current < u32::MAX {
                    (current + 1) as u32
                } else {
                    current
                },
            },
            None => ActionEffect::Nothing,
        },
        KeyAction::WorkspacePrev => effect == match session.focused_output {
            Some((output, current)) => ActionEffect::SwitchWorkspace {
                output,
                workspace: if current > 0 {
                    (current - 1) as u32
                } else {
                    0
                },
            },
            None => ActionEffect::Nothing,
        },
        KeyAction::Workspace(n) => effect == match session.focused_output {
            Some((output, _)) => ActionEffect::SwitchWorkspace { output, workspace: n as u32 },
            None => ActionEffect::Nothing,
        },
        KeyAction::ResizeWidthUp => effect == ActionEffect::ResizeWidth { by: WIDTH_STEP },
        KeyAction::ResizeWidthDown => effect == (ActionEffect::ResizeWidth { by: (-WIDTH_STEP) as i32 }),
        KeyAction::ToggleFullscreen => effect == ActionEffect::ToggleFullscreen,
        KeyAction::ToggleMaximize => effect == ActionEffect::ToggleMaximize,
        _ => effect == ActionEffect::Nothing,
    }
}

impl Session {
    /// Carries out a key action that all backends share.
    pub fn process_common_key_action(&mut self, action: KeyAction) -> (effect: ActionEffect)
        requires
            !is_backend_action(action),
        ensures
            *final(self) == session_after(*old(self), action),
            is_effect(*old(self), action, effect),
    {
        match action {
            KeyAction::Quit => {
                self.running = false;
                ActionEffect::Nothing
            },
            KeyAction::CloseWindow => match self.focused_window {
                Some(window) => ActionEffect::Close { window },
                None => ActionEffect::Nothing,
            },
            KeyAction::ToggleFloating => match self.focused_window {
                Some(window) => ActionEffect::ToggleFloating { window },
                None => ActionEffect::Nothing,
            },
            KeyAction::Run(command) => ActionEffect::Spawn {
                command,
                env: command_env(&self.socket_name, self.xdisplay),
            },
            KeyAction::TogglePreview => {
                self.show_window_preview = !self.show_window_preview;
                ActionEffect::Nothing
            },
            KeyAction::ToggleDecorations => ActionEffect::ToggleDecorations,
            KeyAction::Screenshot => {
                self.pending_screenshot = true;
                ActionEffect::Nothing
            },
            KeyAction::Callback(idx) => match &self.lua_config {
                Some(lua) => match lua.callback(idx) {
                    Ok(callback) => ActionEffect::Call { callback },
                    Err(_) => ActionEffect::Nothing,
                },
                None => ActionEffect::Nothing,
            },
            KeyAction::FocusNext => ActionEffect::CycleFocus { by: 1 },
            KeyAction::FocusPrev => ActionEffect::CycleFocus { by: -1 },
            KeyAction::WorkspaceNext => match self.focused_output {
                Some((output, current)) => ActionEffect::SwitchWorkspace {
                    output,
                    workspace: next_workspace(current),
                },
                None => ActionEffect::Nothing,
            },
            KeyAction::WorkspacePrev => match self.focused_output {
                Some((output, current)) => ActionEffect::SwitchWorkspace {
                    output,
                    workspace: previous_workspace(current),
                },
                None => ActionEffect::Nothing,
            },
            KeyAction::Workspace(n) => match self.focused_output {
                Some((output, _)) => {
                    let workspace: u32 = #[verifier::truncate]
                    (n as u32);
                    ActionEffect::SwitchWorkspace { output, workspace }
                },
                None => ActionEffect::Nothing,
            },
            KeyAction::ResizeWidthUp => ActionEffect::ResizeWidth { by: WIDTH_STEP },
            KeyAction::ResizeWidthDown => ActionEffect::ResizeWidth { by: -WIDTH_STEP },
            KeyAction::ToggleFullscreen => ActionEffect::ToggleFullscreen,
            KeyAction::ToggleMaximize => ActionEffect::ToggleMaximize,
            _ => ActionEffect::Nothing,
        }
    }
}

/// A key that names a workspace shows exactly that one on the focused output,
/// whatever it shows now; the keys for the next and the previous one go by one,
/// and stop at the ends. Without a focused output nothing is switched, and no
/// other key switches anything.
pub proof fn workspace_keys_go_where_they_say(
    session: Session,
    action: KeyAction,
    effect: ActionEffect,
)
    requires
        is_effect(session, action, effect),
    ensures
        effect is SwitchWorkspace <==> session.focused_output is Some && (action is Workspace
            || action is WorkspaceNext || action is WorkspacePrev),
        (action is Workspace || action is WorkspaceNext || action is WorkspacePrev)
            && session.focused_output is None ==> effect is Nothing,
        effect matches ActionEffect::SwitchWorkspace { output, workspace } ==> {
            let (focused, current) = session.focused_output->0;
            &&& output == focused
            &&& action matches KeyAction::Workspace(n) ==> n <= u32::MAX ==> workspace == n
            &&& action is WorkspaceNext ==> workspace == current + 1 || (workspace == current
                && current == u32::MAX)
            &&& action is WorkspacePrev ==> workspace == current - 1 || (workspace == current
                && current == 0)
        },
{
}

/// Going to the next workspace and back is where one was, unless one was at the
/// end already.
pub proof fn next_and_previous_workspace_undo_each_other(
    session: Session,
    there: Session,
    forth: ActionEffect,
    back: ActionEffect,
    output: u64,
    current: u32,
)
    requires
        session.focused_output == Some((output, current)),
        current < u32::MAX,
        is_effect(session, KeyAction::WorkspaceNext, forth),
        forth matches ActionEffect::SwitchWorkspace { output: o, workspace }
            ==> there.focused_output == Some((o, workspace)),
        is_effect(there, KeyAction::WorkspacePrev, back),
    ensures
        back == (ActionEffect::SwitchWorkspace { output, workspace: current }),
{
}

/// What closes or floats is the focused window, and nothing without one.
pub proof fn window_keys_act_on_the_focused_window(
    session: Session,
    action: KeyAction,
    effect: ActionEffect,
)
    requires
        is_effect(session, action, effect),
    ensures
        effect is Close <==> action is CloseWindow && session.focused_window is Some,
        effect is ToggleFloating <==> action is ToggleFloating && session.focused_window is Some,
        effect matches ActionEffect::Close { window } ==> session.focused_window == Some(window),
        effect matches ActionEffect::ToggleFloating { window } ==> session.focused_window == Some(
            window,
        ),
        (action is CloseWindow || action is ToggleFloating) && session.focused_window is None
            ==> effect is Nothing,
        effect is ToggleFullscreen <==> action is ToggleFullscreen,
        effect is ToggleMaximize <==> action is ToggleMaximize,
        effect is ToggleDecorations <==> action is ToggleDecorations,
{
}

/// The focus goes one window on or back, and a column gets wider or narrower by
/// the same step.
pub proof fn opposite_keys_are_opposite(session: Session, action: KeyAction, effect: ActionEffect)
    requires
        is_effect(session, action, effect),
    ensures
        effect is CycleFocus <==> action is FocusNext || action is FocusPrev,
        effect is ResizeWidth <==> action is ResizeWidthUp || action is ResizeWidthDown,
        effect matches ActionEffect::CycleFocus { by } ==> by == (if action is FocusNext {
            1int
        } else {
            -1
        }),
        effect matches ActionEffect::ResizeWidth { by } ==> by == (if action is ResizeWidthUp {
            40int
        } else {
            -40
        }),
{
}

/// A command is run as it was written, and its environment holds the displays
/// of the session and nothing else.
pub proof fn commands_find_the_session(
    session: Session,
    command: String,
    effect: ActionEffect,
    name: Seq<char>,
    value: Seq<char>,
)
    requires
        is_effect(session, KeyAction::Run(command), effect),
    ensures
        effect is Spawn,
        effect->command == command,
        (exists|i: int|
            0 <= i < effect->env@.len() && (#[trigger] effect->env@[i]).name@ == name
                && effect->env@[i].value@ == value) <==> {
            ||| name == "WAYLAND_DISPLAY"@ && (session.socket_name matches Some(socket) && value
                == socket@)
            ||| name == "DISPLAY"@ && (session.xdisplay matches Some(n) && value == seq![':']
                + decimal(n as int))
        },
{
    reveal_strlit("WAYLAND_DISPLAY");
    reveal_strlit("DISPLAY");
    let env = effect->env@;
    if session.socket_name is Some {
        assert(env[0].name@ == "WAYLAND_DISPLAY"@);
    }
    if session.xdisplay is Some {
        let at = if session.socket_name is Some {
            1int
        } else {
            0int
        };
        assert(env[at].name@ == "DISPLAY"@);
    }
}

/// Only a command is run by the key for one, and a function of the script is
/// called by the key for it: the one at the key's index, if there is one.
pub proof fn callbacks_are_called_by_index(session: Session, action: KeyAction, effect: ActionEffect)
    requires
        is_effect(session, action, effect),
    ensures
        effect is Spawn <==> action is Run,
        effect is Call ==> action is Callback && session.lua_config is Some,
        action matches KeyAction::Callback(idx) ==> match session.lua_config {
            Some(lua) if idx < lua.callbacks@.len() => effect == (ActionEffect::Call {
                callback: lua.callbacks@[idx as int],
            }),
            _ => effect is Nothing,
        },
{
}

/// A key action changes of the session at most one switch: quitting ends it, the
/// preview is turned on or off, a screenshot is asked for. All else stays.
pub proof fn sessions_change_by_one_switch(before: Session, action: KeyAction)
    ensures
        ({
            let after = session_after(before, action);
            &&& after.running == (before.running && !(action is Quit))
            &&& (after.show_window_preview != before.show_window_preview) == (action
                is TogglePreview)
            &&& after.pending_screenshot == (before.pending_screenshot || action is Screenshot)
            &&& after.focused_window == before.focused_window
            &&& after.focused_output == before.focused_output
            &&& after.socket_name == before.socket_name
            &&& after.xdisplay == before.xdisplay
            &&& after.lua_config == before.lua_config
        }),
{
}

/// The keys whose effect is a switch of the session leave nothing else to do.
pub proof fn switches_are_all_of_their_effect(
    session: Session,
    action: KeyAction,
    effect: ActionEffect,
)
    requires
        is_effect(session, action, effect),
        action is Quit || action is TogglePreview || action is Screenshot || action is Nothing,
    ensures
        effect is Nothing,
{
}

/// Terminals, screens, outputs and the renderer are the backend's, everything
/// else is not.
pub proof fn backends_own_screens_and_terminals(action: KeyAction)
    ensures
        is_backend_action(action) <==> match action {
            KeyAction::VtSwitch(_) => true,
            KeyAction::Screen(_) => true,
            KeyAction::ScaleUp => true,
            KeyAction::ScaleDown => true,
            KeyAction::RotateOutput => true,
            KeyAction::ToggleTint => true,
            _ => false,
        },
{
}

/// Rotating goes by quarters: first through the four turns as they are, then
/// through the four mirrored ones.
pub proof fn rotation_goes_by_quarters()
    ensures
        Transform::Normal.after() == Transform::Rot90,
        Transform::Rot90.after() == Transform::Rot180,
        Transform::Rot180.after() == Transform::Rot270,
        Transform::Rot270.after() == Transform::Flipped,
        Transform::Flipped.after() == Transform::Flipped90,
        Transform::Flipped90.after() == Transform::Flipped180,
        Transform::Flipped180.after() == Transform::Flipped270,
        Transform::Flipped270.after() == Transform::Normal,
{
}

/// The output under a point holds it, and of several that do it is the first;
/// a point that some output holds is on one.
pub proof fn points_are_on_the_first_output_there(space: Space, p: Point, at: int)
    requires
        output_holding(space, p, at),
    ensures
        0 <= at < space.outputs@.len(),
        space.outputs@[at].geometry matches Some(g) && g.loc.x <= p.x && g.loc.y <= p.y,
        forall|i: int|
            0 <= i < space.outputs@.len() && ((#[trigger] space.outputs@[i]).geometry matches Some(g)
                && g.holds(p.x as int, p.y as int)) ==> at <= i,
        forall|other: int| #[trigger] output_holding(space, p, other) ==> other == at,
{
}

/// An output that a point is on is found if none before it has the point.
pub proof fn outputs_under_a_point_are_found(space: Space, p: Point, at: int)
    requires
        0 <= at < space.outputs@.len(),
        space.outputs@[at].geometry is Some && space.outputs@[at].geometry->0.holds(
            p.x as int,
            p.y as int,
        ),
        forall|i: int|
            0 <= i < at ==> !((#[trigger] space.outputs@[i]).geometry is Some
                && space.outputs@[i].geometry->0.holds(p.x as int, p.y as int)),
    ensures
        output_holding(space, p, at),
{
}

} // verus!
