//! Splash-screen state: status lines and the first-launch-after-update rule
//! that chooses between the full and the short animation.

use vstd::prelude::*;
use crate::text::{ascii_lowercase, ascii_lower, equals_ascii_lowercase, opt_text};

verus! {

/// How a status line is shown on the splash terminal.
#[derive(Clone, Copy, Debug, PartialEq, Eq, Structural)]
pub enum StatusKind {
    Pending,
    Success,
    Warn,
    Error,
}

/// The `splash://status` event: a phase, a message and its kind.
#[derive(Clone, Debug, PartialEq, Eq)]
pub struct StatusPayload {
    pub phase: String,
    pub message: String,
    pub kind: StatusKind,
}

impl StatusPayload {
    /// The payload of a status line.
    pub fn new(phase: &str, message: &str, kind: StatusKind) -> (p: Self)
        ensures
            p.phase@ == phase@,
            p.message@ == message@,
            p.kind == kind,
    {
        StatusPayload { phase: String::from_str(phase), message: String::from_str(message), kind }
    }
}

/// Shared state: whether this launch is the first after an install or update.
pub struct SplashState {
    pub is_first_run: bool,
}

impl SplashState {
    pub fn new(is_first_run: bool) -> (s: Self)
        ensures
            s.is_first_run == is_first_run,
    {
        SplashState { is_first_run }
    }

    /// The flag the state was created with.
    pub fn first_run(&self) -> (b: bool)
        ensures
            b == self.is_first_run,
    {
        self.is_first_run
    }
}

/// `SPLASH_FORCE_FRESH` asks for the full animation when its value is
/// `1`, `true` or `yes`, in any ASCII case.
pub open spec fn forces_fresh(value: Seq<char>) -> bool {
    let v = ascii_lowercase(value);
    v == "1"@ || v == "true"@ || v == "yes"@
}

/// Whether the value of `SPLASH_FORCE_FRESH` forces the full animation.
pub fn force_fresh_requested(value: &str) -> (b: bool)
    ensures
        b == forces_fresh(value@),
{
    equals_ascii_lowercase(value, "1") || equals_ascii_lowercase(value, "true")
        || equals_ascii_lowercase(value, "yes")
}

/// The directory under which the sentinel lives: `APPDATA` on Windows,
/// `$HOME/.local/share` elsewhere.
pub fn splash_data_dir(windows: bool, appdata: Option<String>, home: Option<String>) -> (dir:
    Option<String>)
    ensures
        windows ==> dir == appdata,
        !windows ==> match home {
            Some(h) => dir matches Some(d) && d@ == h@ + "/.local/share"@,
            None => dir is None,
        },
{
    if windows {
        appdata
    } else {
        match home {
            Some(h) => Some(h.concat("/.local/share")),
            None => None,
        }
    }
}

/// What a launch does before deciding between the full and short animation.
#[derive(Clone, Debug, PartialEq, Eq)]
pub enum LaunchPlan {
    /// Play the full animation without consulting the sentinel.
    FirstRun,
    /// Read the sentinel below this directory and compare versions.
    CheckSentinel(String),
}

/// A forcing `SPLASH_FORCE_FRESH`, or a missing or empty data directory,
/// means a first run; otherwise the sentinel below the directory decides.
pub fn plan_first_launch(force_fresh: Option<String>, data_dir: Option<String>) -> (plan:
    LaunchPlan)
    ensures
        match force_fresh {
            Some(v) if forces_fresh(v@) => plan == LaunchPlan::FirstRun,
            _ => match data_dir {
                Some(d) if d@.len() > 0 => plan == LaunchPlan::CheckSentinel(d),
                _ => plan == LaunchPlan::FirstRun,
            },
        },
{
    if let Some(v) = &force_fresh {
        if force_fresh_requested(v.as_str()) {
            return LaunchPlan::FirstRun;
        }
    }
    match data_dir {
        Some(d) => {
            if d.as_str().unicode_len() > 0 {
                LaunchPlan::CheckSentinel(d)
            } else {
                LaunchPlan::FirstRun
            }
        },
        None => LaunchPlan::FirstRun,
    }
}

/// The sentinel file, as path components: `<data_dir>/<app_name>/splash-seen.json`.
pub fn sentinel_path(data_dir: &str, app_name: &str) -> (parts: Vec<String>)
    ensures
        parts@.map_values(|p: String| p@) == seq![data_dir@, app_name@, "splash-seen.json"@],
{
    let mut parts: Vec<String> = Vec::new();
    parts.push(String::from_str(data_dir));
    parts.push(String::from_str(app_name));
    parts.push(String::from_str("splash-seen.json"));
    assert(parts@.map_values(|p: String| p@) =~= seq![
        data_dir@,
        app_name@,
        "splash-seen.json"@,
    ]);
    parts
}

/// A launch is the first of its version unless the sentinel records exactly
/// that version.
pub open spec fn first_of_version(last_seen: Option<Seq<char>>, current: Seq<char>) -> bool {
    last_seen != Some(current)
}

/// Whether this launch is the first of `current_version`, given the version
/// the sentinel records (`None` when it is absent or unreadable). When it is,
/// the sentinel is to be rewritten with `current_version`.
pub fn is_first_launch(last_seen_version: Option<String>, current_version: &str) -> (b: bool)
    ensures
        b == first_of_version(opt_text(last_seen_version), current_version@),
{
    match last_seen_version {
        Some(s) => {
            let current = String::from_str(current_version);
            !(s == current)
        },
        None => true,
    }
}

/// Once a first launch has written its version to the sentinel, every later
/// launch of that version is a short one, and a launch of any other version
/// is again a first one.
pub proof fn recorded_version_gives_short_launch(recorded: Seq<char>, current: Seq<char>)
    ensures
        !first_of_version(Some(current), current),
        recorded != current ==> first_of_version(Some(recorded), current),
        first_of_version(None, current),
{
}

/// `SPLASH_FORCE_FRESH` forces the full animation exactly for `1`, `true` and
/// `yes`, in any ASCII case: the answer does not change when the value is
/// folded to lowercase, and those three words force it.
pub proof fn force_fresh_ignores_case(value: Seq<char>)
    ensures
        forces_fresh(value) == forces_fresh(ascii_lowercase(value)),
        forces_fresh("1"@),
        forces_fresh("true"@),
        forces_fresh("yes"@),
        forces_fresh(value) ==> ascii_lowercase(value) == "1"@ || ascii_lowercase(value) == "true"@
            || ascii_lowercase(value) == "yes"@,
{
    assert forall|i: int| 0 <= i < value.len() implies ascii_lower(ascii_lower(value[i]))
        == ascii_lower(value[i]) by {
        let c = value[i];
        if 65 <= (c as int) <= 90 {
            assert(((c as int) + 32) as char as int == (c as int) + 32);
        }
    }
    assert(ascii_lowercase(ascii_lowercase(value)) =~= ascii_lowercase(value));
    reveal_strlit("1");
    reveal_strlit("true");
    reveal_strlit("yes");
    assert(ascii_lowercase("1"@) =~= "1"@);
    assert(ascii_lowercase("true"@) =~= "true"@);
    assert(ascii_lowercase("yes"@) =~= "yes"@);
}

} // verus!
