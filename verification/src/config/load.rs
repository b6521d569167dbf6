//! Where the configuration file is, and what becomes of what it holds. Paths
//! are bytes: a directory need not have a name that is text.
use vstd::prelude::*;
use vstd::utf8::encode_utf8;
use crate::config::Config;

verus! {

/// What parts the names in a path.
pub const SLASH: u8 = 0x2f;

/// Name of the configuration directory.
pub open spec fn dir_name() -> Seq<u8> {
    encode_utf8("bakawm"@)
}

/// Name of the configuration file.
pub open spec fn file_name() -> Seq<u8> {
    encode_utf8("config.lua"@)
}

/// The path of `name` as seen from the directory `base`: an absolute name
/// stands for itself, any other is set behind the directory and a slash.
pub open spec fn joined(base: Seq<u8>, name: Seq<u8>) -> Seq<u8> {
    if name.len() > 0 && name[0] == SLASH {
        name
    } else if base.len() == 0 || base.last() == SLASH {
        base + name
    } else {
        base.push(SLASH) + name
    }
}

/// The path of `name` as seen from the directory `base`.
pub fn join_path(base: &Vec<u8>, name: &str) -> (p: Vec<u8>)
    ensures
        p@ == joined(base@, encode_utf8(name@)),
{
    let bytes = name.as_bytes();
    let mut path: Vec<u8> = Vec::new();
    if !(bytes.len() > 0 && bytes[0] == SLASH) {
        path.extend_from_slice(base.as_slice());
        if base.len() > 0 && base[base.len() - 1] != SLASH {
            path.push(SLASH);
        }
    }
    path.extend_from_slice(bytes);
    assert(path@ =~= joined(base@, encode_utf8(name@)));
    path
}

/// The configuration directory under the user's own (the current one, where
/// the user has none).
pub open spec fn dir_under(base: Option<Seq<u8>>) -> Seq<u8> {
    joined(
        match base {
            Some(b) => b,
            None => encode_utf8("."@),
        },
        dir_name(),
    )
}

/// The path of the configuration file under the user's directory.
pub open spec fn path_under(base: Option<Seq<u8>>) -> Seq<u8> {
    joined(dir_under(base), file_name())
}

pub open spec fn path_view(path: Option<Vec<u8>>) -> Option<Seq<u8>> {
    match path {
        Some(p) => Some(p@),
        None => None,
    }
}

/// `dirs::config_dir`: the user's configuration directory, if the environment
/// names one. Nothing is claimed of the result, which rests on the environment.
#[verifier::external_body]
fn user_config_dir() -> (dir: Option<Vec<u8>>) {
    dirs::config_dir().map(|p| p.into_os_string().into_encoded_bytes())
}

/// The configuration directory under `base`.
pub fn config_dir_under(base: &Option<Vec<u8>>) -> (p: Vec<u8>)
    ensures
        p@ == dir_under(path_view(*base)),
{
    match base {
        Some(b) => join_path(b, "bakawm"),
        None => {
            let mut here: Vec<u8> = Vec::new();
            here.extend_from_slice(".".as_bytes());
            assert(here@ =~= encode_utf8("."@));
            join_path(&here, "bakawm")
        },
    }
}

/// The path of the configuration file under `base`.
pub fn config_path_under(base: &Option<Vec<u8>>) -> (p: Vec<u8>)
    ensures
        p@ == path_under(path_view(*base)),
{
    let dir = config_dir_under(base);
    join_path(&dir, "config.lua")
}

/// The configuration directory of this user.
pub fn config_dir() -> (p: Vec<u8>)
    ensures
        exists|base: Option<Seq<u8>>| p@ == dir_under(base),
{
    let base = user_config_dir();
    config_dir_under(&base)
}

/// The path of this user's configuration file.
pub fn config_path() -> (p: Vec<u8>)
    ensures
        exists|base: Option<Seq<u8>>| p@ == path_under(base),
{
    let base = user_config_dir();
    config_path_under(&base)
}

/// What came of looking for the configuration file at start.
#[derive(Debug)]
pub enum LoadOutcome {
    /// There was none, and the default one could not be created.
    NotCreated,
    /// The file (found, or just created) could not be read as a configuration.
    NotParsed,
    /// The file held this configuration.
    Parsed(Config),
}

/// What came of looking for the configuration file again.
#[derive(Debug)]
pub enum ReloadOutcome {
    /// The file is gone.
    Removed,
    /// The file could not be read as a configuration.
    NotParsed,
    /// The file held this configuration.
    Parsed(Config),
}

/// What to do first to load the configuration.
#[derive(Clone, Copy, Debug, PartialEq, Eq, Structural)]
pub enum LoadStep {
    /// Read the file that is there.
    Parse,
    /// Write the default file, then read it.
    CreateThenParse,
}

/// What to do first, given whether the file exists.
pub fn load_step(exists: bool) -> (step: LoadStep)
    ensures
        step == (if exists {
            LoadStep::Parse
        } else {
            LoadStep::CreateThenParse
        }),
{
    if exists {
        LoadStep::Parse
    } else {
        LoadStep::CreateThenParse
    }
}

/// The generation that a load gives, when the counter stands at `count`.
pub open spec fn next_generation(count: int) -> int {
    count + 1
}

/// Gives a freshly read config the next generation.
pub fn finalize_config(config: Config, generation: &mut u64) -> (r: Config)
    requires
        *old(generation) < u64::MAX,
    ensures
        *final(generation) == next_generation(*old(generation) as int),
        r == (Config { shader_gen: *final(generation), ..config }),
{
    *generation = *generation + 1;
    Config { shader_gen: *generation, ..config }
}

/// The configuration to start with: the one of the file, or the built-in one.
/// Either way it counts as a load.
pub fn load_config(outcome: LoadOutcome, generation: &mut u64) -> (r: Config)
    requires
        *old(generation) < u64::MAX,
    ensures
        *final(generation) == next_generation(*old(generation) as int),
        r.shader_gen == *final(generation),
        match outcome {
            LoadOutcome::Parsed(config) => r == (Config { shader_gen: r.shader_gen, ..config }),
            _ => (Config { shader_gen: 0, ..r }).is_standard(),
        },
{
    match outcome {
        LoadOutcome::Parsed(config) => finalize_config(config, generation),
        _ => finalize_config(Config::default(), generation),
    }
}

/// The generations of `n` loads and reloads, one after the other, when the
/// counter stands at `start`.
pub open spec fn generations(start: int, n: int) -> Seq<int>
    decreases n,
{
    if n <= 0 {
        Seq::empty()
    } else {
        let before = generations(start, n - 1);
        before.push(
            next_generation(
                if before.len() > 0 {
                    before.last()
                } else {
                    start
                },
            ),
        )
    }
}

/// Of any two loads the later has the higher generation, so shaders that were
/// compiled for the earlier one are out of date.
pub proof fn later_loads_have_higher_generations(start: int, n: int, i: int, j: int)
    requires
        0 <= i < j < n,
    ensures
        generations(start, n).len() == n,
        start < generations(start, n)[i] < generations(start, n)[j],
{
    generations_count(start, n);
}

proof fn generations_count(start: int, n: int)
    requires
        n >= 0,
    ensures
        generations(start, n).len() == n,
        forall|k: int| 0 <= k < n ==> #[trigger] generations(start, n)[k] == start + 1 + k,
    decreases n,
{
    if n > 0 {
        generations_count(start, n - 1);
    }
}

/// The configuration after a change of the file: what it now holds, or the
/// current one where it is gone or cannot be read.
pub fn reload_config(current: &Config, outcome: ReloadOutcome, generation: &mut u64) -> (r: Config)
    requires
        outcome is Parsed ==> *old(generation) < u64::MAX,
    ensures
        match outcome {
            ReloadOutcome::Parsed(config) => {
                &&& *final(generation) == next_generation(*old(generation) as int)
                &&& r == (Config { shader_gen: *final(generation), ..config })
            },
            _ => {
                &&& *final(generation) == *old(generation)
                &&& r.same_settings(*current)
                &&& r.lua_config is None
            },
        },
{
    match outcome {
        ReloadOutcome::Removed => current.clone(),
        ReloadOutcome::NotParsed => current.clone(),
        ReloadOutcome::Parsed(config) => finalize_config(config, generation),
    }
}

/// What happened to a watched file.
#[derive(Clone, Copy, Debug, PartialEq, Eq, Structural)]
pub enum WatchEvent {
    Create,
    Modify,
    Remove,
    Other,
}

/// Whether an event on a watched file calls for a reload.
pub fn is_change(event: WatchEvent) -> (r: bool)
    ensures
        r == !(event is Other),
{
    match event {
        WatchEvent::Create | WatchEvent::Modify | WatchEvent::Remove => true,
        WatchEvent::Other => false,
    }
}

/// Milliseconds from a change to the reload that answers it.
pub const RELOAD_DELAY_MS: u64 = 500;

/// Seconds between two looks at the file, where it has to be polled.
pub const POLL_INTERVAL_SECS: u64 = 3;

/// Gathers the changes of a moment into one reload.
#[derive(Clone, Copy, Debug, PartialEq, Eq, Structural)]
pub struct ReloadTimer {
    /// When the change came that a reload is due for.
    pub pending: Option<u128>,
}

impl ReloadTimer {
    pub fn new() -> (t: ReloadTimer)
        ensures
            t.pending is None,
    {
        ReloadTimer { pending: None }
    }

    pub open spec fn changed(self, now: u128) -> ReloadTimer {
        ReloadTimer {
            pending: if self.pending is None {
                Some(now)
            } else {
                self.pending
            },
        }
    }

    /// A change at `now`. Tells whether a timer is to be started.
    pub fn on_change(&mut self, now: u128) -> (start: bool)
        ensures
            start == (old(self).pending is None),
            *final(self) == old(self).changed(now),
    {
        if self.pending.is_none() {
            self.pending = Some(now);
            true
        } else {
            false
        }
    }

    /// The timer ran out. Tells whether to reload.
    pub fn on_timeout(&mut self) -> (reload: bool)
        ensures
            reload == (old(self).pending is Some),
            final(self).pending is None,
    {
        let due = self.pending.is_some();
        self.pending = None;
        due
    }
}

/// However many changes come while a reload is due, the timer stays as the
/// first of them set it, and the next change after the reload starts another.
pub proof fn one_reload_per_burst(timer: ReloadTimer, first: u128, second: u128)
    ensures
        timer.changed(first).changed(second) == timer.changed(first),
        (ReloadTimer { pending: None }).changed(second).pending == Some(second),
{
}

/// A path under a directory: an absolute name stands for itself, any other lies
/// below the directory, with exactly one slash between them.
pub proof fn paths_are_joined_by_one_slash(base: Seq<u8>, name: Seq<u8>)
    ensures
        name.len() > 0 && name[0] == 0x2f ==> joined(base, name) == name,
        (name.len() == 0 || name[0] != 0x2f) && base.len() > 0 && base.last() != 0x2f ==> joined(
            base,
            name,
        ) == base + seq![0x2fu8] + name,
        (name.len() == 0 || name[0] != 0x2f) && base.len() > 0 && base.last() == 0x2f ==> joined(
            base,
            name,
        ) == base + name,
        (name.len() == 0 || name[0] != 0x2f) && base.len() == 0 ==> joined(base, name) == name,
{
    assert(base.push(0x2fu8) =~= base + seq![0x2fu8]);
    if base.len() == 0 {
        assert(base + name =~= name);
    }
}

/// A change is waited for from the first one on: a later change does not put it
/// off.
pub proof fn later_changes_do_not_put_off_a_reload(t: ReloadTimer, first: u128, later: u128)
    ensures
        t.pending is None ==> t.changed(first).pending == Some(first),
        t.pending is Some ==> t.changed(later) == t,
        t.changed(first).changed(later) == t.changed(first),
{
}

/// The configuration lies in its own directory below the user's, and below the
/// current one where the user has none.
pub proof fn the_configuration_is_in_its_own_directory(base: Seq<u8>)
    ensures
        dir_under(Some(base)) == joined(base, encode_utf8("bakawm"@)),
        dir_under(None) == joined(encode_utf8("."@), encode_utf8("bakawm"@)),
        path_under(Some(base)) == joined(
            joined(base, encode_utf8("bakawm"@)),
            encode_utf8("config.lua"@),
        ),
{
}

} // verus!
