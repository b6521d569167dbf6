//! Key bindings: from a key press to what it asks for.
use vstd::prelude::*;
use std::collections::HashSet;
use crate::config::{BindAction, BindConfig};
use crate::text::{chars_of, same};

verus! {

/// Which modifier keys are held.
#[derive(Clone, Copy, Debug, PartialEq, Eq, Structural)]
pub struct ModifiersState {
    pub ctrl: bool,
    pub alt: bool,
    pub logo: bool,
    pub shift: bool,
    pub iso_level3_shift: bool,
    pub iso_level5_shift: bool,
}

/// A pressed key: its symbol under the current modifiers, the one without
/// them, and the names of both.
#[derive(Debug, PartialEq, Eq)]
pub struct KeyPress {
    pub modified: u32,
    pub raw: Option<u32>,
    pub modified_name: String,
    pub raw_name: Option<String>,
}

/// What a key press asks for.
#[derive(Debug, PartialEq, Eq)]
pub enum KeyAction {
    /// Quit the compositor.
    Quit,
    /// Close the focused window.
    CloseWindow,
    /// Switch to another virtual terminal.
    VtSwitch(i32),
    /// Run a command.
    Run(String),
    /// Switch to another screen.
    Screen(usize),
    FocusNext,
    FocusPrev,
    WorkspaceNext,
    WorkspacePrev,
    Workspace(usize),
    ResizeWidthUp,
    ResizeWidthDown,
    ToggleFullscreen,
    ToggleMaximize,
    ScaleUp,
    ScaleDown,
    TogglePreview,
    RotateOutput,
    ToggleTint,
    ToggleFloating,
    ToggleDecorations,
    /// Take a screenshot.
    Screenshot,
    /// Call a function of the configuration script.
    Callback(usize),
    /// Do nothing more.
    Nothing,
}

/// The symbols of the keys that switch to the first and the last virtual terminal.
pub const SWITCH_VT_1: u32 = 0x1008_FE01;

pub const SWITCH_VT_12: u32 = 0x1008_FE0C;

/// The symbol of the print-screen key.
pub const KEY_PRINT: u32 = 0xff61;

/// The symbol of a key that bindings call by a name of their own.
pub open spec fn named_key(name: Seq<char>) -> Option<u32> {
    if name == "BackSpace"@ {
        Some(0xff08)
    } else if name == "Return"@ {
        Some(0xff0d)
    } else if name == "Tab"@ {
        Some(0xff09)
    } else if name == "Escape"@ {
        Some(0xff1b)
    } else if name == "Space"@ {
        Some(0x0020)
    } else if name == "Print"@ {
        Some(0xff61)
    } else if name == "Insert"@ {
        Some(0xff63)
    } else if name == "Delete"@ {
        Some(0xffff)
    } else if name == "Home"@ {
        Some(0xff50)
    } else if name == "End"@ {
        Some(0xff57)
    } else if name == "Page_Up"@ {
        Some(0xff55)
    } else if name == "Page_Down"@ {
        Some(0xff56)
    } else if name == "Left"@ {
        Some(0xff51)
    } else if name == "Right"@ {
        Some(0xff53)
    } else if name == "Up"@ {
        Some(0xff52)
    } else if name == "Down"@ {
        Some(0xff54)
    } else if name == "F1"@ {
        Some(0xffbe)
    } else if name == "F2"@ {
        Some(0xffbf)
    } else if name == "F3"@ {
        Some(0xffc0)
    } else if name == "F4"@ {
        Some(0xffc1)
    } else if name == "F5"@ {
        Some(0xffc2)
    } else if name == "F6"@ {
        Some(0xffc3)
    } else if name == "F7"@ {
        Some(0xffc4)
    } else if name == "F8"@ {
        Some(0xffc5)
    } else if name == "F9"@ {
        Some(0xffc6)
    } else if name == "F10"@ {
        Some(0xffc7)
    } else if name == "F11"@ {
        Some(0xffc8)
    } else if name == "F12"@ {
        Some(0xffc9)
    } else {
        None
    }
}

/// The symbol of a key that bindings call by a name of their own.
pub fn find_named_key(name: &str) -> (r: Option<u32>)
    ensures
        r == named_key(name@),
{
    if same(name, "BackSpace") {
        Some(0xff08)
    } else if same(name, "Return") {
        Some(0xff0d)
    } else if same(name, "Tab") {
        Some(0xff09)
    } else if same(name, "Escape") {
        Some(0xff1b)
    } else if same(name, "Space") {
        Some(0x0020)
    } else if same(name, "Print") {
        Some(0xff61)
    } else if same(name, "Insert") {
        Some(0xff63)
    } else if same(name, "Delete") {
        Some(0xffff)
    } else if same(name, "Home") {
        Some(0xff50)
    } else if same(name, "End") {
        Some(0xff57)
    } else if same(name, "Page_Up") {
        Some(0xff55)
    } else if same(name, "Page_Down") {
        Some(0xff56)
    } else if same(name, "Left") {
        Some(0xff51)
    } else if same(name, "Right") {
        Some(0xff53)
    } else if same(name, "Up") {
        Some(0xff52)
    } else if same(name, "Down") {
        Some(0xff54)
    } else if same(name, "F1") {
        Some(0xffbe)
    } else if same(name, "F2") {
        Some(0xffbf)
    } else if same(name, "F3") {
        Some(0xffc0)
    } else if same(name, "F4") {
        Some(0xffc1)
    } else if same(name, "F5") {
        Some(0xffc2)
    } else if same(name, "F6") {
        Some(0xffc3)
    } else if same(name, "F7") {
        Some(0xffc4)
    } else if same(name, "F8") {
        Some(0xffc5)
    } else if same(name, "F9") {
        Some(0xffc6)
    } else if same(name, "F10") {
        Some(0xffc7)
    } else if same(name, "F11") {
        Some(0xffc8)
    } else if same(name, "F12") {
        Some(0xffc9)
    } else {
        None
    }
}

/// The symbol of the key that types a character.
pub uninterp spec fn keysym_of(c: char) -> u32;

/// `xkeysym::Keysym::from_char`: the symbol of the key that types a
/// character. A printable character of Latin-1 is its own symbol; of the others
/// only that the symbol depends on nothing but the character.
#[verifier::external_body]
fn keysym_from_char(c: char) -> (sym: u32)
    ensures
        sym == keysym_of(c),
        ' ' <= c <= '~' ==> sym == c as u32,
        0xa0 <= c as u32 <= 0xff ==> sym == c as u32,
{
    xkeysym::Keysym::from_char(c).raw()
}

/// The symbol of the key that types a character: a printable character of
/// Latin-1 is its own.
pub open spec fn symbol_of(c: char) -> u32 {
    if 0x20 <= c as u32 <= 0x7e || 0xa0 <= c as u32 <= 0xff {
        c as u32
    } else {
        keysym_of(c)
    }
}

fn find_symbol(c: char) -> (sym: u32)
    ensures
        sym == symbol_of(c),
{
    keysym_from_char(c)
}

/// A letter in lower case; any other ASCII character as it is.
pub open spec fn lower(c: char) -> char {
    if 'A' <= c <= 'Z' {
        (c as u32 + 32) as char
    } else {
        c
    }
}

fn to_lower(c: char) -> (r: char)
    ensures
        r == lower(c),
{
    if 'A' <= c && c <= 'Z' {
        let code: u8 = c as u8 + 32;
        code as char
    } else {
        c
    }
}

/// A key press of these symbols, with their names: what `name`, the keyboard
/// library's function for that, calls each of them.
pub fn name_key<F: Fn(u32) -> String>(modified: u32, raw: Option<u32>, name: F) -> (press: KeyPress)
    requires
        forall|sym: u32| #[trigger] call_requires(name, (sym,)),
    ensures
        press.modified == modified,
        press.raw == raw,
        call_ensures(name, (modified,), press.modified_name),
        match (raw, press.raw_name) {
            (Some(sym), Some(text)) => call_ensures(name, (sym,), text),
            (None, None) => true,
            _ => false,
        },
{
    let raw_name = match raw {
        Some(sym) => Some(name(sym)),
        None => None,
    };
    KeyPress { modified, raw, modified_name: name(modified), raw_name }
}

impl KeyPress {
    /// Whether the key is the one with this symbol, modified or not.
    pub open spec fn is_key(self, sym: u32) -> bool {
        self.modified == sym || self.raw == Some(sym)
    }

    fn is(&self, sym: u32) -> (r: bool)
        ensures
            r == self.is_key(sym),
    {
        self.modified == sym || (match self.raw {
            Some(raw) => raw == sym,
            None => false,
        })
    }

    /// Whether the key has this name, modified or not.
    pub open spec fn has_name(self, name: Seq<char>) -> bool {
        self.modified_name@ == name || (self.raw_name matches Some(raw) && raw@ == name)
    }

    fn named(&self, name: &str) -> (r: bool)
        ensures
            r == self.has_name(name@),
    {
        same(&self.modified_name, name) || (match &self.raw_name {
            Some(raw) => same(raw, name),
            None => false,
        })
    }

    /// Whether the key is the one that a binding calls `key`: one of the named
    /// keys, the key of an ASCII character in either case, or else the key of
    /// that name.
    pub open spec fn answers_to(self, key: Seq<char>) -> bool {
        if named_key(key) is Some {
            self.is_key(named_key(key)->0)
        } else if key.len() == 1 && 0x80 > key[0] as u32 {
            self.is_key(symbol_of(lower(key[0]))) || self.is_key(symbol_of(key[0]))
        } else {
            self.has_name(key)
        }
    }

    /// Whether the key is the one that a binding calls `key`.
    pub fn matches_key(&self, key: &str) -> (r: bool)
        ensures
            r == self.answers_to(key@),
            named_key(key@) is None && key@.len() == 1 && ' ' <= key@[0] <= '~' ==> r == (
            self.is_key(key@[0] as u32) || self.is_key(lower(key@[0]) as u32)),
    {
        match find_named_key(key) {
            Some(sym) => {
                return self.is(sym);
            },
            None => {},
        }
        let c = chars_of(key);
        if c.len() == 1 && 0x80 > c[0] as u32 {
            self.is(find_symbol(to_lower(c[0]))) || self.is(find_symbol(c[0]))
        } else {
            self.named(key)
        }
    }
}

impl ModifiersState {
    /// Whether the modifier of this name is held; one of no known name never is.
    pub open spec fn holds(self, name: Seq<char>) -> bool {
        if name == "Ctrl"@ {
            self.ctrl
        } else if name == "Alt"@ {
            self.alt
        } else if name == "Super"@ || name == "Logo"@ {
            self.logo
        } else if name == "Shift"@ {
            self.shift
        } else if name == "IsoLevel3Shift"@ {
            self.iso_level3_shift
        } else if name == "IsoLevel5Shift"@ {
            self.iso_level5_shift
        } else {
            false
        }
    }

    /// Whether the modifier of this name is held.
    pub fn is_held(&self, name: &str) -> (r: bool)
        ensures
            r == self.holds(name@),
    {
        if same(name, "Ctrl") {
            self.ctrl
        } else if same(name, "Alt") {
            self.alt
        } else if same(name, "Super") || same(name, "Logo") {
            self.logo
        } else if same(name, "Shift") {
            self.shift
        } else if same(name, "IsoLevel3Shift") {
            self.iso_level3_shift
        } else if same(name, "IsoLevel5Shift") {
            self.iso_level5_shift
        } else {
            false
        }
    }

    /// Whether the modifier that window gestures need is held; the gestures know
    /// only the four common ones.
    pub open spec fn holds_gesture(self, name: Seq<char>) -> bool {
        (name == "Ctrl"@ || name == "Alt"@ || name == "Super"@ || name == "Logo"@ || name
            == "Shift"@) && self.holds(name)
    }

    /// Whether the modifier that window gestures need is held.
    pub fn is_gesture_held(&self, name: &str) -> (r: bool)
        ensures
            r == self.holds_gesture(name@),
    {
        (same(name, "Ctrl") || same(name, "Alt") || same(name, "Super") || same(name, "Logo")
            || same(name, "Shift")) && self.is_held(name)
    }
}

/// Whether one of the names is `name`.
pub open spec fn lists(names: Seq<String>, name: Seq<char>) -> bool {
    exists|i: int| 0 <= i < names.len() && (#[trigger] names[i])@ == name
}

fn listed(names: &Vec<String>, name: &str) -> (r: bool)
    ensures
        r == lists(names@, name@),
{
    let mut i: usize = 0;
    while i < names.len()
        invariant
            i <= names@.len(),
            forall|k: int| 0 <= k < i ==> (#[trigger] names@[k])@ != name@,
        decreases names@.len() - i,
    {
        if same(&names[i], name) {
            return true;
        }
        i = i + 1;
    }
    false
}

impl BindConfig {
    /// Whether all modifiers of the binding are held, and no other.
    pub open spec fn wants(self, mods: ModifiersState) -> bool {
        let names = self.modifiers@;
        &&& forall|i: int| 0 <= i < names.len() ==> mods.holds((#[trigger] names[i])@)
        &&& mods.ctrl ==> lists(names, "Ctrl"@)
        &&& mods.alt ==> lists(names, "Alt"@)
        &&& mods.logo ==> lists(names, "Super"@) || lists(names, "Logo"@)
        &&& mods.shift ==> lists(names, "Shift"@)
        &&& mods.iso_level3_shift ==> lists(names, "IsoLevel3Shift"@)
        &&& mods.iso_level5_shift ==> lists(names, "IsoLevel5Shift"@)
    }

    /// Whether the binding is for this key press.
    pub open spec fn is_for(self, mods: ModifiersState, press: KeyPress) -> bool {
        self.wants(mods) && press.answers_to(self.key@)
    }

    /// Whether the binding is for this key press.
    pub fn matches(&self, mods: &ModifiersState, press: &KeyPress) -> (r: bool)
        ensures
            r == self.is_for(*mods, *press),
    {
        let mut i: usize = 0;
        while i < self.modifiers.len()
            invariant
                i <= self.modifiers@.len(),
                forall|k: int| 0 <= k < i ==> mods.holds((#[trigger] self.modifiers@[k])@),
            decreases self.modifiers@.len() - i,
        {
            if !mods.is_held(&self.modifiers[i]) {
                return false;
            }
            i = i + 1;
        }
        let names = &self.modifiers;
        let no_extra = (!mods.ctrl || listed(names, "Ctrl")) && (!mods.alt || listed(names, "Alt"))
            && (!mods.logo || listed(names, "Super") || listed(names, "Logo")) && (!mods.shift
            || listed(names, "Shift")) && (!mods.iso_level3_shift || listed(
            names,
            "IsoLevel3Shift",
        )) && (!mods.iso_level5_shift || listed(names, "IsoLevel5Shift"));
        no_extra && press.matches_key(&self.key)
    }
}

/// What a binding asks for.
pub open spec fn action_of(action: BindAction) -> KeyAction {
    match action {
        BindAction::Quit => KeyAction::Quit,
        BindAction::CloseWindow => KeyAction::CloseWindow,
        BindAction::Run(command) => KeyAction::Run(command),
        BindAction::Screenshot => KeyAction::Screenshot,
        BindAction::ToggleDecorations => KeyAction::ToggleDecorations,
        BindAction::TogglePreview => KeyAction::TogglePreview,
        BindAction::ScaleUp => KeyAction::ScaleUp,
        BindAction::ScaleDown => KeyAction::ScaleDown,
        BindAction::RotateOutput => KeyAction::RotateOutput,
        BindAction::ToggleTint => KeyAction::ToggleTint,
        BindAction::ToggleFloating => KeyAction::ToggleFloating,
        BindAction::VtSwitch(n) => KeyAction::VtSwitch(n),
        BindAction::Screen(n) => KeyAction::Screen(n),
        BindAction::FocusNext => KeyAction::FocusNext,
        BindAction::FocusPrev => KeyAction::FocusPrev,
        BindAction::WorkspaceNext => KeyAction::WorkspaceNext,
        BindAction::WorkspacePrev => KeyAction::WorkspacePrev,
        BindAction::Workspace(n) => KeyAction::Workspace(n),
        BindAction::ResizeWidthUp => KeyAction::ResizeWidthUp,
        BindAction::ResizeWidthDown => KeyAction::ResizeWidthDown,
        BindAction::ToggleFullscreen => KeyAction::ToggleFullscreen,
        BindAction::ToggleMaximize => KeyAction::ToggleMaximize,
        BindAction::Callback(n) => KeyAction::Callback(n),
    }
}

fn key_action(action: &BindAction) -> (r: KeyAction)
    ensures
        r == action_of(*action),
{
    match action {
        BindAction::Quit => KeyAction::Quit,
        BindAction::CloseWindow => KeyAction::CloseWindow,
        BindAction::Run(command) => KeyAction::Run(command.clone()),
        BindAction::Screenshot => KeyAction::Screenshot,
        BindAction::ToggleDecorations => KeyAction::ToggleDecorations,
        BindAction::TogglePreview => KeyAction::TogglePreview,
        BindAction::ScaleUp => KeyAction::ScaleUp,
        BindAction::ScaleDown => KeyAction::ScaleDown,
        BindAction::RotateOutput => KeyAction::RotateOutput,
        BindAction::ToggleTint => KeyAction::ToggleTint,
        BindAction::ToggleFloating => KeyAction::ToggleFloating,
        BindAction::VtSwitch(n) => KeyAction::VtSwitch(*n),
        BindAction::Screen(n) => KeyAction::Screen(*n),
        BindAction::FocusNext => KeyAction::FocusNext,
        BindAction::FocusPrev => KeyAction::FocusPrev,
        BindAction::WorkspaceNext => KeyAction::WorkspaceNext,
        BindAction::WorkspacePrev => KeyAction::WorkspacePrev,
        BindAction::Workspace(n) => KeyAction::Workspace(*n),
        BindAction::ResizeWidthUp => KeyAction::ResizeWidthUp,
        BindAction::ResizeWidthDown => KeyAction::ResizeWidthDown,
        BindAction::ToggleFullscreen => KeyAction::ToggleFullscreen,
        BindAction::ToggleMaximize => KeyAction::ToggleMaximize,
        BindAction::Callback(n) => KeyAction::Callback(*n),
    }
}

/// What the first of the bindings from `from` on that is for a key press asks for.
pub open spec fn bound_action(
    binds: Seq<BindConfig>,
    mods: ModifiersState,
    press: KeyPress,
    from: int,
) -> Option<KeyAction>
    decreases binds.len() - from,
{
    if from < 0 || from >= binds.len() {
        None
    } else if binds[from].is_for(mods, press) {
        Some(action_of(binds[from].action))
    } else {
        bound_action(binds, mods, press, from + 1)
    }
}

/// What a key press asks for: the keys for virtual terminals and the
/// print-screen key have a fixed meaning, all others that of the first binding.
pub open spec fn shortcut(
    binds: Seq<BindConfig>,
    mods: ModifiersState,
    press: KeyPress,
) -> Option<KeyAction> {
    if SWITCH_VT_1 <= press.modified <= SWITCH_VT_12 {
        Some(KeyAction::VtSwitch((press.modified - SWITCH_VT_1 + 1) as i32))
    } else if press.is_key(KEY_PRINT) {
        Some(KeyAction::Screenshot)
    } else {
        bound_action(binds, mods, press, 0)
    }
}

/// What a key press asks for, if anything.
pub fn process_keyboard_shortcut(
    binds: &Vec<BindConfig>,
    modifiers: &ModifiersState,
    press: &KeyPress,
) -> (r: Option<KeyAction>)
    ensures
        r == shortcut(binds@, *modifiers, *press),
{
    if SWITCH_VT_1 <= press.modified && press.modified <= SWITCH_VT_12 {
        return Some(KeyAction::VtSwitch((press.modified - SWITCH_VT_1 + 1) as i32));
    }
    if press.is(KEY_PRINT) {
        return Some(KeyAction::Screenshot);
    }
    let mut i: usize = 0;
    while i < binds.len()
        invariant
            i <= binds@.len(),
            shortcut(binds@, *modifiers, *press) == bound_action(
                binds@,
                *modifiers,
                *press,
                i as int,
            ),
        decreases binds@.len() - i,
    {
        if binds[i].matches(modifiers, press) {
            return Some(key_action(&binds[i].action));
        }
        i = i + 1;
    }
    None
}

/// A binding can only be hidden by one before it: what comes after the first
/// that matches has no effect.
pub proof fn first_binding_wins(
    binds: Seq<BindConfig>,
    more: Seq<BindConfig>,
    mods: ModifiersState,
    press: KeyPress,
    from: int,
)
    requires
        0 <= from <= binds.len(),
    ensures
        bound_action(binds, mods, press, from) is Some ==> bound_action(
            binds + more,
            mods,
            press,
            from,
        ) == bound_action(binds, mods, press, from),
        bound_action(binds, mods, press, from) is None ==> bound_action(
            binds + more,
            mods,
            press,
            from,
        ) == bound_action(more, mods, press, 0),
    decreases binds.len() - from,
{
    if from < binds.len() {
        first_binding_wins(binds, more, mods, press, from + 1);
    } else {
        shifted_bindings(binds, more, mods, press, 0);
    }
}

proof fn shifted_bindings(
    binds: Seq<BindConfig>,
    more: Seq<BindConfig>,
    mods: ModifiersState,
    press: KeyPress,
    from: int,
)
    requires
        0 <= from <= more.len(),
    ensures
        bound_action(binds + more, mods, press, binds.len() + from) == bound_action(
            more,
            mods,
            press,
            from,
        ),
    decreases more.len() - from,
{
    if from < more.len() {
        shifted_bindings(binds, more, mods, press, from + 1);
    }
}

/// Where a key event goes.
#[derive(Debug, PartialEq, Eq)]
pub enum KeyFilter {
    /// To the focused client.
    Forward,
    /// Nowhere but to the compositor.
    Intercept(KeyAction),
}

/// A key event.
#[derive(Debug, PartialEq, Eq)]
pub struct KeyEvent {
    pub keycode: u32,
    pub pressed: bool,
    pub modifiers: ModifiersState,
    pub press: KeyPress,
    /// Whether the window under the pointer wants all keys for itself.
    pub inhibited: bool,
}

/// The keys whose release is held back, and where the event goes, after a key
/// event: a press that asks for something is intercepted, and so is the release
/// of that key.
pub open spec fn filtered(
    suppressed: Set<u32>,
    binds: Seq<BindConfig>,
    event: KeyEvent,
) -> (Set<u32>, KeyFilter) {
    if event.pressed {
        match shortcut(binds, event.modifiers, event.press) {
            Some(action) => if event.inhibited {
                (suppressed, KeyFilter::Forward)
            } else {
                (suppressed.insert(event.keycode), KeyFilter::Intercept(action))
            },
            None => (suppressed, KeyFilter::Forward),
        }
    } else if suppressed.contains(event.keycode) {
        (suppressed.remove(event.keycode), KeyFilter::Intercept(KeyAction::Nothing))
    } else {
        (suppressed, KeyFilter::Forward)
    }
}

/// Decides where a key event goes.
pub fn filter_key(
    suppressed: &mut HashSet<u32>,
    binds: &Vec<BindConfig>,
    event: &KeyEvent,
) -> (r: KeyFilter)
    ensures
        (final(suppressed)@, r) == filtered(old(suppressed)@, binds@, *event),
{
    broadcast use vstd::std_specs::hash::group_hash_axioms;

    if !event.pressed && !suppressed.contains(&event.keycode) {
        return KeyFilter::Forward;
    }
    if event.pressed {
        if event.inhibited {
            return KeyFilter::Forward;
        }
        match process_keyboard_shortcut(binds, &event.modifiers, &event.press) {
            Some(action) => {
                suppressed.insert(event.keycode);
                KeyFilter::Intercept(action)
            },
            None => KeyFilter::Forward,
        }
    } else {
        suppressed.remove(&event.keycode);
        KeyFilter::Intercept(KeyAction::Nothing)
    }
}

/// The release of a key reaches the client exactly if its press did: after a
/// press that was intercepted the release is too, and after one that was
/// forwarded it is not, unless an earlier press of the key is still held back.
pub proof fn releases_follow_presses(
    suppressed: Set<u32>,
    binds: Seq<BindConfig>,
    press: KeyEvent,
    release: KeyEvent,
)
    requires
        press.pressed,
        !release.pressed,
        press.keycode == release.keycode,
        !suppressed.contains(press.keycode),
    ensures
        filtered(suppressed, binds, press).1 is Forward <==> filtered(
            filtered(suppressed, binds, press).0,
            binds,
            release,
        ).1 is Forward,
        filtered(filtered(suppressed, binds, press).0, binds, release).0 == suppressed,
{
    assert(suppressed.insert(press.keycode).remove(press.keycode) =~= suppressed);
}

/// What a key is called in a binding is the key with just that symbol: each of
/// the keys with a name of their own, pressed with or without modifiers.
pub proof fn named_keys_are_their_symbols(press: KeyPress)
    ensures
        press.answers_to("BackSpace"@) <==> press.modified == 0xff08 || press.raw == Some(0xff08u32),
        press.answers_to("Return"@) <==> press.modified == 0xff0d || press.raw == Some(0xff0du32),
        press.answers_to("Tab"@) <==> press.modified == 0xff09 || press.raw == Some(0xff09u32),
        press.answers_to("Escape"@) <==> press.modified == 0xff1b || press.raw == Some(0xff1bu32),
        press.answers_to("Space"@) <==> press.modified == 0x0020 || press.raw == Some(0x0020u32),
        press.answers_to("Print"@) <==> press.modified == 0xff61 || press.raw == Some(0xff61u32),
        press.answers_to("Insert"@) <==> press.modified == 0xff63 || press.raw == Some(0xff63u32),
        press.answers_to("Delete"@) <==> press.modified == 0xffff || press.raw == Some(0xffffu32),
        press.answers_to("Home"@) <==> press.modified == 0xff50 || press.raw == Some(0xff50u32),
        press.answers_to("End"@) <==> press.modified == 0xff57 || press.raw == Some(0xff57u32),
        press.answers_to("Page_Up"@) <==> press.modified == 0xff55 || press.raw == Some(0xff55u32),
        press.answers_to("Page_Down"@) <==> press.modified == 0xff56 || press.raw == Some(0xff56u32),
        press.answers_to("Left"@) <==> press.modified == 0xff51 || press.raw == Some(0xff51u32),
        press.answers_to("Right"@) <==> press.modified == 0xff53 || press.raw == Some(0xff53u32),
        press.answers_to("Up"@) <==> press.modified == 0xff52 || press.raw == Some(0xff52u32),
        press.answers_to("Down"@) <==> press.modified == 0xff54 || press.raw == Some(0xff54u32),
        press.answers_to("F1"@) <==> press.modified == 0xffbe || press.raw == Some(0xffbeu32),
        press.answers_to("F2"@) <==> press.modified == 0xffbf || press.raw == Some(0xffbfu32),
        press.answers_to("F3"@) <==> press.modified == 0xffc0 || press.raw == Some(0xffc0u32),
        press.answers_to("F4"@) <==> press.modified == 0xffc1 || press.raw == Some(0xffc1u32),
        press.answers_to("F5"@) <==> press.modified == 0xffc2 || press.raw == Some(0xffc2u32),
        press.answers_to("F6"@) <==> press.modified == 0xffc3 || press.raw == Some(0xffc3u32),
        press.answers_to("F7"@) <==> press.modified == 0xffc4 || press.raw == Some(0xffc4u32),
        press.answers_to("F8"@) <==> press.modified == 0xffc5 || press.raw == Some(0xffc5u32),
        press.answers_to("F9"@) <==> press.modified == 0xffc6 || press.raw == Some(0xffc6u32),
        press.answers_to("F10"@) <==> press.modified == 0xffc7 || press.raw == Some(0xffc7u32),
        press.answers_to("F11"@) <==> press.modified == 0xffc8 || press.raw == Some(0xffc8u32),
        press.answers_to("F12"@) <==> press.modified == 0xffc9 || press.raw == Some(0xffc9u32),
{
    reveal_strlit("BackSpace");
    reveal_strlit("Return");
    reveal_strlit("Tab");
    reveal_strlit("Escape");
    reveal_strlit("Space");
    reveal_strlit("Print");
    reveal_strlit("Insert");
    reveal_strlit("Delete");
    reveal_strlit("Home");
    reveal_strlit("End");
    reveal_strlit("Page_Up");
    reveal_strlit("Page_Down");
    reveal_strlit("Left");
    reveal_strlit("Right");
    reveal_strlit("Up");
    reveal_strlit("Down");
    reveal_strlit("F1");
    reveal_strlit("F2");
    reveal_strlit("F3");
    reveal_strlit("F4");
    reveal_strlit("F5");
    reveal_strlit("F6");
    reveal_strlit("F7");
    reveal_strlit("F8");
    reveal_strlit("F9");
    reveal_strlit("F10");
    reveal_strlit("F11");
    reveal_strlit("F12");
    assert("BackSpace"@.len() == 9);
    assert("Return"@.len() == 6);
    assert("Tab"@.len() == 3);
    assert("Escape"@.len() == 6);
    assert("Space"@.len() == 5);
    assert("Print"@.len() == 5);
    assert("Insert"@.len() == 6);
    assert("Delete"@.len() == 6);
    assert("Home"@.len() == 4);
    assert("End"@.len() == 3);
    assert("Page_Up"@.len() == 7);
    assert("Page_Down"@.len() == 9);
    assert("Left"@.len() == 4);
    assert("Right"@.len() == 5);
    assert("Up"@.len() == 2);
    assert("Down"@.len() == 4);
    assert("F1"@.len() == 2);
    assert("F2"@.len() == 2);
    assert("F3"@.len() == 2);
    assert("F4"@.len() == 2);
    assert("F5"@.len() == 2);
    assert("F6"@.len() == 2);
    assert("F7"@.len() == 2);
    assert("F8"@.len() == 2);
    assert("F9"@.len() == 2);
    assert("F10"@.len() == 3);
    assert("F11"@.len() == 3);
    assert("F12"@.len() == 3);
    assert("BackSpace"@[0] != "Page_Down"@[0]);
    assert("Return"@[0] != "Escape"@[0]);
    assert("Return"@[0] != "Insert"@[0]);
    assert("Return"@[0] != "Delete"@[0]);
    assert("Tab"@[0] != "End"@[0]);
    assert("Tab"@[0] != "F10"@[0]);
    assert("Tab"@[0] != "F11"@[0]);
    assert("Tab"@[0] != "F12"@[0]);
    assert("Escape"@[0] != "Insert"@[0]);
    assert("Escape"@[0] != "Delete"@[0]);
    assert("Space"@[0] != "Print"@[0]);
    assert("Space"@[0] != "Right"@[0]);
    assert("Print"@[0] != "Right"@[0]);
    assert("Insert"@[0] != "Delete"@[0]);
    assert("Home"@[0] != "Left"@[0]);
    assert("Home"@[0] != "Down"@[0]);
    assert("End"@[0] != "F10"@[0]);
    assert("End"@[0] != "F11"@[0]);
    assert("End"@[0] != "F12"@[0]);
    assert("Left"@[0] != "Down"@[0]);
    assert("Up"@[0] != "F1"@[0]);
    assert("Up"@[0] != "F2"@[0]);
    assert("Up"@[0] != "F3"@[0]);
    assert("Up"@[0] != "F4"@[0]);
    assert("Up"@[0] != "F5"@[0]);
    assert("Up"@[0] != "F6"@[0]);
    assert("Up"@[0] != "F7"@[0]);
    assert("Up"@[0] != "F8"@[0]);
    assert("Up"@[0] != "F9"@[0]);
    assert("F1"@[1] != "F2"@[1]);
    assert("F1"@[1] != "F3"@[1]);
    assert("F1"@[1] != "F4"@[1]);
    assert("F1"@[1] != "F5"@[1]);
    assert("F1"@[1] != "F6"@[1]);
    assert("F1"@[1] != "F7"@[1]);
    assert("F1"@[1] != "F8"@[1]);
    assert("F1"@[1] != "F9"@[1]);
    assert("F2"@[1] != "F3"@[1]);
    assert("F2"@[1] != "F4"@[1]);
    assert("F2"@[1] != "F5"@[1]);
    assert("F2"@[1] != "F6"@[1]);
    assert("F2"@[1] != "F7"@[1]);
    assert("F2"@[1] != "F8"@[1]);
    assert("F2"@[1] != "F9"@[1]);
    assert("F3"@[1] != "F4"@[1]);
    assert("F3"@[1] != "F5"@[1]);
    assert("F3"@[1] != "F6"@[1]);
    assert("F3"@[1] != "F7"@[1]);
    assert("F3"@[1] != "F8"@[1]);
    assert("F3"@[1] != "F9"@[1]);
    assert("F4"@[1] != "F5"@[1]);
    assert("F4"@[1] != "F6"@[1]);
    assert("F4"@[1] != "F7"@[1]);
    assert("F4"@[1] != "F8"@[1]);
    assert("F4"@[1] != "F9"@[1]);
    assert("F5"@[1] != "F6"@[1]);
    assert("F5"@[1] != "F7"@[1]);
    assert("F5"@[1] != "F8"@[1]);
    assert("F5"@[1] != "F9"@[1]);
    assert("F6"@[1] != "F7"@[1]);
    assert("F6"@[1] != "F8"@[1]);
    assert("F6"@[1] != "F9"@[1]);
    assert("F7"@[1] != "F8"@[1]);
    assert("F7"@[1] != "F9"@[1]);
    assert("F8"@[1] != "F9"@[1]);
    assert("F10"@[2] != "F11"@[2]);
    assert("F10"@[2] != "F12"@[2]);
    assert("F11"@[2] != "F12"@[2]);
}

/// The names of keys are all longer than a character.
proof fn names_are_longer_than_a_character()
    ensures
        forall|name: Seq<char>| #[trigger] named_key(name) is Some ==> name.len() >= 2,
{
    reveal_strlit("BackSpace");
    reveal_strlit("Return");
    reveal_strlit("Tab");
    reveal_strlit("Escape");
    reveal_strlit("Space");
    reveal_strlit("Print");
    reveal_strlit("Insert");
    reveal_strlit("Delete");
    reveal_strlit("Home");
    reveal_strlit("End");
    reveal_strlit("Page_Up");
    reveal_strlit("Page_Down");
    reveal_strlit("Left");
    reveal_strlit("Right");
    reveal_strlit("Up");
    reveal_strlit("Down");
    reveal_strlit("F1");
    reveal_strlit("F2");
    reveal_strlit("F3");
    reveal_strlit("F4");
    reveal_strlit("F5");
    reveal_strlit("F6");
    reveal_strlit("F7");
    reveal_strlit("F8");
    reveal_strlit("F9");
    reveal_strlit("F10");
    reveal_strlit("F11");
    reveal_strlit("F12");
}

/// A letter in a binding is the key that types it, in either case; any other
/// printable character of ASCII is the key that types just that one.
pub proof fn characters_are_the_keys_that_type_them(press: KeyPress, c: char)
    requires
        ' ' <= c <= '~',
    ensures
        'A' <= c <= 'Z' ==> (press.answers_to(seq![c]) <==> press.modified == c as u32
            || press.modified == c as u32 + 32 || press.raw == Some(c as u32) || (
        press.raw matches Some(raw) && raw == c as u32 + 32)),
        !('A' <= c <= 'Z') ==> (press.answers_to(seq![c]) <==> press.modified == c as u32
            || press.raw == Some(c as u32)),
{
    names_are_longer_than_a_character();
    assert(seq![c].len() == 1 && seq![c][0] == c);
}

/// Any other name in a binding is that of the key, modified or not.
pub proof fn other_names_are_the_keys_own(press: KeyPress, name: Seq<char>)
    requires
        name.len() != 1 || 0x80 <= name[0] as u32,
        named_key(name) is None,
    ensures
        press.answers_to(name) <==> press.modified_name@ == name || (press.raw_name matches Some(raw)
            && raw@ == name),
{
}

/// Each modifier goes by its own name, the logo key by two, and nothing else is
/// a modifier. Window gestures know the first four.
pub proof fn modifiers_go_by_their_names(mods: ModifiersState, name: Seq<char>)
    ensures
        mods.holds("Ctrl"@) == mods.ctrl,
        mods.holds("Alt"@) == mods.alt,
        mods.holds("Super"@) == mods.logo,
        mods.holds("Logo"@) == mods.logo,
        mods.holds("Shift"@) == mods.shift,
        mods.holds("IsoLevel3Shift"@) == mods.iso_level3_shift,
        mods.holds("IsoLevel5Shift"@) == mods.iso_level5_shift,
        name != "Ctrl"@ && name != "Alt"@ && name != "Super"@ && name != "Logo"@ && name != "Shift"@
            && name != "IsoLevel3Shift"@ && name != "IsoLevel5Shift"@ ==> !mods.holds(name),
        mods.holds_gesture("Ctrl"@) == mods.ctrl,
        mods.holds_gesture("Alt"@) == mods.alt,
        mods.holds_gesture("Super"@) == mods.logo,
        mods.holds_gesture("Logo"@) == mods.logo,
        mods.holds_gesture("Shift"@) == mods.shift,
        name != "Ctrl"@ && name != "Alt"@ && name != "Super"@ && name != "Logo"@ && name != "Shift"@
            ==> !mods.holds_gesture(name),
{
    reveal_strlit("Ctrl");
    reveal_strlit("Alt");
    reveal_strlit("Super");
    reveal_strlit("Logo");
    reveal_strlit("Shift");
    reveal_strlit("IsoLevel3Shift");
    reveal_strlit("IsoLevel5Shift");
    assert("Ctrl"@.len() == 4);
    assert("Alt"@.len() == 3);
    assert("Super"@.len() == 5);
    assert("Logo"@.len() == 4);
    assert("Shift"@.len() == 5);
    assert("IsoLevel3Shift"@.len() == 14);
    assert("IsoLevel5Shift"@.len() == 14);
    assert("Ctrl"@[0] != "Logo"@[0]);
    assert("Super"@[1] != "Shift"@[1]);
    assert("IsoLevel3Shift"@[8] != "IsoLevel5Shift"@[8]);
}

/// A binding wants exactly the modifiers that it lists: all of them are held, and
/// every one that is held is listed.
pub proof fn bindings_want_exactly_their_modifiers(bind: BindConfig, mods: ModifiersState)
    ensures
        ({
            let has = |name: Seq<char>|
                exists|i: int|
                    0 <= i < bind.modifiers@.len() && (#[trigger] bind.modifiers@[i])@ == name;
            let known = |name: Seq<char>|
                name == "Ctrl"@ || name == "Alt"@ || name == "Super"@ || name == "Logo"@ || name
                    == "Shift"@ || name == "IsoLevel3Shift"@ || name == "IsoLevel5Shift"@;
            bind.wants(mods) <==> {
                &&& mods.ctrl == has("Ctrl"@)
                &&& mods.alt == has("Alt"@)
                &&& mods.logo == (has("Super"@) || has("Logo"@))
                &&& mods.shift == has("Shift"@)
                &&& mods.iso_level3_shift == has("IsoLevel3Shift"@)
                &&& mods.iso_level5_shift == has("IsoLevel5Shift"@)
                &&& forall|i: int|
                    0 <= i < bind.modifiers@.len() ==> known((#[trigger] bind.modifiers@[i])@)
            }
        }),
{
    reveal_strlit("Ctrl");
    reveal_strlit("Alt");
    reveal_strlit("Super");
    reveal_strlit("Logo");
    reveal_strlit("Shift");
    reveal_strlit("IsoLevel3Shift");
    reveal_strlit("IsoLevel5Shift");
    assert("Ctrl"@.len() == 4);
    assert("Alt"@.len() == 3);
    assert("Super"@.len() == 5);
    assert("Logo"@.len() == 4);
    assert("Shift"@.len() == 5);
    assert("IsoLevel3Shift"@.len() == 14);
    assert("IsoLevel5Shift"@.len() == 14);
    assert("Ctrl"@[0] != "Logo"@[0]);
    assert("Super"@[1] != "Shift"@[1]);
    assert("IsoLevel3Shift"@[8] != "IsoLevel5Shift"@[8]);
}

/// A binding asks for the action of its own name, with its own argument.
pub proof fn bindings_ask_for_their_action(action: BindAction)
    ensures
        match (action, action_of(action)) {
            (BindAction::Quit, KeyAction::Quit) => true,
            (BindAction::CloseWindow, KeyAction::CloseWindow) => true,
            (BindAction::Screenshot, KeyAction::Screenshot) => true,
            (BindAction::ToggleDecorations, KeyAction::ToggleDecorations) => true,
            (BindAction::TogglePreview, KeyAction::TogglePreview) => true,
            (BindAction::ScaleUp, KeyAction::ScaleUp) => true,
            (BindAction::ScaleDown, KeyAction::ScaleDown) => true,
            (BindAction::RotateOutput, KeyAction::RotateOutput) => true,
            (BindAction::ToggleTint, KeyAction::ToggleTint) => true,
            (BindAction::ToggleFloating, KeyAction::ToggleFloating) => true,
            (BindAction::FocusNext, KeyAction::FocusNext) => true,
            (BindAction::FocusPrev, KeyAction::FocusPrev) => true,
            (BindAction::WorkspaceNext, KeyAction::WorkspaceNext) => true,
            (BindAction::WorkspacePrev, KeyAction::WorkspacePrev) => true,
            (BindAction::ResizeWidthUp, KeyAction::ResizeWidthUp) => true,
            (BindAction::ResizeWidthDown, KeyAction::ResizeWidthDown) => true,
            (BindAction::ToggleFullscreen, KeyAction::ToggleFullscreen) => true,
            (BindAction::ToggleMaximize, KeyAction::ToggleMaximize) => true,
            (BindAction::VtSwitch(a), KeyAction::VtSwitch(b)) => a == b,
            (BindAction::Screen(a), KeyAction::Screen(b)) => a == b,
            (BindAction::Workspace(a), KeyAction::Workspace(b)) => a == b,
            (BindAction::Callback(a), KeyAction::Callback(b)) => a == b,
            (BindAction::Run(a), KeyAction::Run(b)) => a == b,
            _ => false,
        },
{
}

/// The twelve keys for terminals switch to the terminal of their number whatever
/// is bound, and the print-screen key takes a screenshot.
pub proof fn some_keys_have_a_fixed_meaning(
    binds: Seq<BindConfig>,
    mods: ModifiersState,
    press: KeyPress,
    n: u32,
)
    requires
        1 <= n <= 12,
    ensures
        press.modified == 0x1008_FE00 + n ==> (shortcut(binds, mods, press) matches Some(
            KeyAction::VtSwitch(vt),
        ) && vt == n),
        (press.modified == 0xff61 || (press.raw == Some(0xff61u32) && (press.modified < 0x1008_FE01
            || press.modified > 0x1008_FE0C))) ==> (shortcut(binds, mods, press) matches Some(action)
            && action is Screenshot),
{
}

/// For any other key the first binding that is for it decides, and without one
/// nothing is done.
pub proof fn the_first_binding_for_a_key_decides(
    binds: Seq<BindConfig>,
    mods: ModifiersState,
    press: KeyPress,
    at: int,
)
    requires
        press.modified < 0x1008_FE01 || press.modified > 0x1008_FE0C,
        press.modified != 0xff61 && press.raw != Some(0xff61u32),
        0 <= at <= binds.len(),
        forall|i: int|
            0 <= i < at ==> !((#[trigger] binds[i]).wants(mods) && press.answers_to(binds[i].key@)),
    ensures
        at == binds.len() ==> shortcut(binds, mods, press) is None,
        at < binds.len() && binds[at].wants(mods) && press.answers_to(binds[at].key@) ==> shortcut(
            binds,
            mods,
            press,
        ) == Some(action_of(binds[at].action)),
{
    skipped_bindings(binds, mods, press, 0, at);
}

proof fn skipped_bindings(
    binds: Seq<BindConfig>,
    mods: ModifiersState,
    press: KeyPress,
    from: int,
    at: int,
)
    requires
        0 <= from <= at <= binds.len(),
        forall|i: int|
            0 <= i < at ==> !((#[trigger] binds[i]).wants(mods) && press.answers_to(binds[i].key@)),
    ensures
        bound_action(binds, mods, press, from) == bound_action(binds, mods, press, at),
    decreases at - from,
{
    if from < at {
        skipped_bindings(binds, mods, press, from + 1, at);
    }
}

/// A press is the compositor's exactly if it asks for something and no window
/// wants all keys; it then goes to nobody else, and its release is held back.
/// Everything else goes to the client.
pub proof fn presses_go_to_one_side(suppressed: Set<u32>, binds: Seq<BindConfig>, event: KeyEvent)
    requires
        event.pressed,
    ensures
        ({
            let (after, filter) = filtered(suppressed, binds, event);
            let asked = shortcut(binds, event.modifiers, event.press);
            &&& asked is Some && !event.inhibited ==> filter == KeyFilter::Intercept(asked->0)
                && after == suppressed.insert(event.keycode)
            &&& asked is None || event.inhibited ==> filter is Forward && after == suppressed
        }),
{
}

/// A release goes to nobody exactly if it is held back, and is then held back no
/// longer; it never asks for anything.
pub proof fn releases_ask_for_nothing(suppressed: Set<u32>, binds: Seq<BindConfig>, event: KeyEvent)
    requires
        !event.pressed,
    ensures
        ({
            let (after, filter) = filtered(suppressed, binds, event);
            &&& suppressed.contains(event.keycode) ==> filter == KeyFilter::Intercept(
                KeyAction::Nothing,
            ) && after == suppressed.remove(event.keycode)
            &&& !suppressed.contains(event.keycode) ==> filter is Forward && after == suppressed
        }),
{
}

/// A printable character of Latin-1 is its own symbol.
pub proof fn latin_characters_are_their_symbols(c: char)
    ensures
        0x20 <= c as u32 <= 0x7e || 0xa0 <= c as u32 <= 0xff ==> symbol_of(c) == c as u32,
{
}

} // verus!
