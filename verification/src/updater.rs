//! Shared-drive update check: deciding from `latest.json` whether a newer
//! release is available, the pending-update state, and the command line that
//! hands an update over to the updater shim.

use vstd::prelude::*;
use crate::version::{
    SemVer, VersionParts, semver_parse, semver_greater, zero_parts, core_greater, core_equal,
    parse_version, zero_version, is_newer,
};
use crate::text::path_texts;
use crate::shim::{
    installer_flag, installed_app_exe_flag, version_flag, sidecar_name_flag, is_shim_flag,
    parse_shim_args, arg_after,
};

verus! {

/// Contents of `latest.json` on the shared drive.
#[derive(Clone, Debug, PartialEq, Eq)]
pub struct LatestJson {
    pub version: String,
    pub installer: String,
    pub notes: Option<String>,
    pub mandatory: Option<bool>,
}

/// Result of the update check.
#[derive(Clone, Debug, PartialEq, Eq)]
pub enum UpdateCheckResult {
    /// Shared drive is not reachable (offline / VPN down).
    Offline { path: String },
    /// Installed version matches or exceeds the remote version.
    UpToDate,
    /// A newer version is available on the shared drive.
    UpdateAvailable { latest: LatestJson, update_path: String },
}

/// What reading `latest.json` from the update path gave.
#[derive(Clone, Debug, PartialEq, Eq)]
pub enum ManifestFetch {
    /// The update path does not exist.
    Unreachable,
    /// The path exists but `latest.json` could not be read.
    ReadFailed,
    /// The file was read but is not a valid manifest.
    Malformed,
    /// The manifest as read.
    Parsed(LatestJson),
}

/// The version the running binary counts as installed: its version text as
/// parsed, or `0.0.0` when that text does not parse.
pub open spec fn installed_parts(current: Seq<char>) -> VersionParts {
    match semver_parse(current) {
        Some(p) => p,
        None => zero_parts(),
    }
}

/// Whether a manifest version text names a version newer than `installed`;
/// a text that does not parse never does.
pub open spec fn remote_is_newer(installed: VersionParts, remote: Seq<char>) -> bool {
    match semver_parse(remote) {
        Some(r) => semver_greater(r, installed),
        None => false,
    }
}

/// Whether a binary of version `current` is offered the manifest version `remote`.
pub open spec fn offers_update(current: Seq<char>, remote: Seq<char>) -> bool {
    remote_is_newer(installed_parts(current), remote)
}

/// Parses the running binary's version, falling back to `0.0.0`.
pub fn installed_version(current_version: &str) -> (v: SemVer)
    ensures
        v@ == installed_parts(current_version@),
{
    match parse_version(current_version) {
        Some(v) => v,
        None => zero_version(),
    }
}

/// The result for a manifest, given `None` when its version does not parse,
/// or whether that version is newer than the installed one.
pub fn update_decision(latest: LatestJson, update_path: String, remote_newer: Option<bool>) -> (r:
    UpdateCheckResult)
    ensures
        remote_newer == Some(true) ==> r == (UpdateCheckResult::UpdateAvailable {
            latest,
            update_path,
        }),
        remote_newer != Some(true) ==> r == UpdateCheckResult::UpToDate,
{
    match remote_newer {
        Some(true) => UpdateCheckResult::UpdateAvailable { latest, update_path },
        _ => UpdateCheckResult::UpToDate,
    }
}

/// Decides on a manifest that was read and parsed: an update is available
/// exactly when its version parses and is newer than `installed`.
pub fn evaluate_manifest(installed: &SemVer, latest: LatestJson, update_path: String) -> (r:
    UpdateCheckResult)
    ensures
        remote_is_newer(installed@, latest.version@) ==> r == (UpdateCheckResult::UpdateAvailable {
            latest,
            update_path,
        }),
        !remote_is_newer(installed@, latest.version@) ==> r == UpdateCheckResult::UpToDate,
        semver_parse(latest.version@) matches Some(rv) ==> {
            &&& core_greater(rv, installed@) ==> r is UpdateAvailable
            &&& core_greater(installed@, rv) ==> r is UpToDate
            &&& rv == installed@ ==> r is UpToDate
            &&& core_equal(rv, installed@) && rv.3.len() == 0 && installed@.3.len() > 0
                ==> r is UpdateAvailable
            &&& core_equal(rv, installed@) && rv.3.len() > 0 && installed@.3.len() == 0
                ==> r is UpToDate
        },
{
    let remote_newer = match parse_version(latest.version.as_str()) {
        Some(remote) => Some(is_newer(&remote, installed)),
        None => None,
    };
    update_decision(latest, update_path, remote_newer)
}

/// Checks whether an update is available, given the running binary's version
/// text, the configured update path and what reading `latest.json` there gave.
///
/// An unreachable path or an unreadable file means offline; a malformed
/// manifest, or one whose version does not parse, means up to date; otherwise
/// an update is available exactly when the manifest's version is newer than
/// the installed one (an installed version that does not parse counts as
/// `0.0.0`).
pub fn check_for_update(current_version: &str, update_path: String, manifest: ManifestFetch) -> (r:
    UpdateCheckResult)
    ensures
        match manifest {
            ManifestFetch::Unreachable => r == (UpdateCheckResult::Offline { path: update_path }),
            ManifestFetch::ReadFailed => r == (UpdateCheckResult::Offline { path: update_path }),
            ManifestFetch::Malformed => r == UpdateCheckResult::UpToDate,
            ManifestFetch::Parsed(latest) => if offers_update(current_version@, latest.version@) {
                r == (UpdateCheckResult::UpdateAvailable { latest, update_path })
            } else {
                r == UpdateCheckResult::UpToDate
            },
        },
        // A manifest announcing the installed version itself offers nothing.
        manifest matches ManifestFetch::Parsed(latest) ==> (latest.version@ == current_version@
            ==> r == UpdateCheckResult::UpToDate),
        // A higher (major, minor, patch) is always offered; a lower one never is.
        manifest matches ManifestFetch::Parsed(latest) ==> (semver_parse(latest.version@) matches Some(
            rv,
        ) ==> {
            &&& core_greater(rv, installed_parts(current_version@)) ==> r is UpdateAvailable
            &&& core_greater(installed_parts(current_version@), rv) ==> r is UpToDate
            &&& core_equal(rv, installed_parts(current_version@)) && rv.3.len() == 0
                && installed_parts(current_version@).3.len() > 0 ==> r is UpdateAvailable
        }),
{
    match manifest {
        ManifestFetch::Unreachable => UpdateCheckResult::Offline { path: update_path },
        ManifestFetch::ReadFailed => UpdateCheckResult::Offline { path: update_path },
        ManifestFetch::Malformed => UpdateCheckResult::UpToDate,
        ManifestFetch::Parsed(latest) => {
            let installed = installed_version(current_version);
            evaluate_manifest(&installed, latest, update_path)
        },
    }
}


/// The update path configured by the environment: the variable's value, or
/// the empty path (which never exists, so the check reports offline) when it
/// is unset.
pub fn update_path_from_env(value: Option<String>) -> (path: String)
    ensures
        match value {
            Some(v) => path == v,
            None => path@ == Seq::<char>::empty(),
        },
{
    match value {
        Some(v) => v,
        None => String::new(),
    }
}

/// The pending update, recorded when the startup check finds one and read
/// back when the user confirms the installation.
pub struct UpdateState {
    pub latest: Option<LatestJson>,
    pub update_path: Option<String>,
}

/// The error text when no update is pending.
pub open spec fn no_pending_update_message() -> Seq<char> {
    "No pending update"@
}

impl UpdateState {
    /// The recorded manifest and path, if both are recorded.
    pub open spec fn pending_update(&self) -> Option<(LatestJson, String)> {
        match (self.latest, self.update_path) {
            (Some(l), Some(p)) => Some((l, p)),
            _ => None,
        }
    }

    /// A state with no pending update.
    pub fn new() -> (s: Self)
        ensures
            s.latest is None,
            s.update_path is None,
            s.pending_update() is None,
    {
        UpdateState { latest: None, update_path: None }
    }

    /// Records the manifest and path of an available update.
    pub fn record(&mut self, latest: LatestJson, update_path: String)
        ensures
            final(self).latest == Some(latest),
            final(self).update_path == Some(update_path),
            final(self).pending_update() == Some((latest, update_path)),
    {
        self.latest = Some(latest);
        self.update_path = Some(update_path);
    }

    /// The pending update, or the error `No pending update` when the manifest
    /// or the path has not been recorded.
    pub fn pending(&self) -> (r: Result<(&LatestJson, &String), String>)
        ensures
            r is Ok <==> self.pending_update() is Some,
            r matches Ok((l, p)) ==> self.pending_update() == Some((*l, *p)),
            r matches Err(e) ==> e@ == no_pending_update_message(),
    {
        match (&self.latest, &self.update_path) {
            (Some(l), Some(p)) => Ok((l, p)),
            _ => Err(String::from_str("No pending update")),
        }
    }
}

impl Default for UpdateState {
    fn default() -> (s: Self)
        ensures
            s.latest is None,
            s.update_path is None,
    {
        UpdateState::new()
    }
}

/// The command line handed to the updater shim.
pub open spec fn shim_command(
    installer: Seq<char>,
    installed_app_exe: Seq<char>,
    version: Seq<char>,
    sidecar_name: Seq<char>,
) -> Seq<Seq<char>> {
    seq![
        installer_flag(),
        installer,
        installed_app_exe_flag(),
        installed_app_exe,
        version_flag(),
        version,
        sidecar_name_flag(),
        sidecar_name,
    ]
}

/// The arguments the updater shim is started with: the copied installer, the
/// running application's executable, the new version and the sidecar to stop.
pub fn shim_command_args(
    installer: &str,
    installed_app_exe: &str,
    version: &str,
    sidecar_name: &str,
) -> (args: Vec<String>)
    ensures
        args@.map_values(|a: String| a@) == shim_command(
            installer@,
            installed_app_exe@,
            version@,
            sidecar_name@,
        ),
{
    let mut args: Vec<String> = Vec::new();
    args.push(String::from_str("--installer"));
    args.push(String::from_str(installer));
    args.push(String::from_str("--installed-app-exe"));
    args.push(String::from_str(installed_app_exe));
    args.push(String::from_str("--version"));
    args.push(String::from_str(version));
    args.push(String::from_str("--sidecar-name"));
    args.push(String::from_str(sidecar_name));
    assert(args@.map_values(|a: String| a@) =~= shim_command(
        installer@,
        installed_app_exe@,
        version@,
        sidecar_name@,
    ));
    args
}

/// The name of the updater shim's executable.
pub open spec fn shim_file_name() -> Seq<char> {
    "desktop-toolkit-updater.exe"@
}

/// Where the updater shim is looked for, in order: under `resources/` next to
/// the running executable (where the bundle places it), then, for older
/// installs that put it beside the executable, directly in that directory.
pub open spec fn shim_exe_paths(exe_dir: Seq<char>) -> Seq<Seq<Seq<char>>> {
    seq![seq![exe_dir, "resources"@, shim_file_name()], seq![exe_dir, shim_file_name()]]
}

/// The candidate locations of the updater shim, as path components, in the
/// order they are tried; the first that exists is started.
pub fn shim_exe_candidates(exe_dir: &str) -> (c: Vec<Vec<String>>)
    ensures
        path_texts(c@) == shim_exe_paths(exe_dir@),
{
    let mut bundled: Vec<String> = Vec::new();
    bundled.push(String::from_str(exe_dir));
    bundled.push(String::from_str("resources"));
    bundled.push(String::from_str("desktop-toolkit-updater.exe"));
    assert(bundled@.map_values(|a: String| a@) =~= seq![exe_dir@, "resources"@, shim_file_name()]);
    let mut beside: Vec<String> = Vec::new();
    beside.push(String::from_str(exe_dir));
    beside.push(String::from_str("desktop-toolkit-updater.exe"));
    assert(beside@.map_values(|a: String| a@) =~= seq![exe_dir@, shim_file_name()]);
    let mut c: Vec<Vec<String>> = Vec::new();
    c.push(bundled);
    c.push(beside);
    assert(path_texts(c@) =~= shim_exe_paths(exe_dir@));
    c
}

/// The updater shim reads back exactly the arguments it is started with:
/// after the program name, the command line built for it parses to the same
/// installer, executable, version and sidecar name, provided none of the
/// program name, installer, executable and version is itself one of the
/// shim's flags.
pub proof fn shim_reads_back_command(
    program: Seq<char>,
    installer: Seq<char>,
    installed_app_exe: Seq<char>,
    version: Seq<char>,
    sidecar_name: Seq<char>,
)
    requires
        !is_shim_flag(program),
        !is_shim_flag(installer),
        !is_shim_flag(installed_app_exe),
        !is_shim_flag(version),
    ensures
        parse_shim_args(
            seq![program] + shim_command(installer, installed_app_exe, version, sidecar_name),
        ) == Ok::<_, crate::shim::ShimArgsError>(
            (installer, installed_app_exe, version, Some(sidecar_name)),
        ),
{
    reveal_strlit("--installer");
    reveal_strlit("--installed-app-exe");
    reveal_strlit("--version");
    reveal_strlit("--sidecar-name");
    let args = seq![program] + shim_command(installer, installed_app_exe, version, sidecar_name);
    assert(args.len() == 9);
    assert(args[1] == installer_flag());
    assert(args[3] == installed_app_exe_flag());
    assert(args[5] == version_flag());
    assert(args[7] == sidecar_name_flag());
    assert(args.drop_first().drop_first() =~= args.skip(2));
    assert(args.skip(2).drop_first().drop_first() =~= args.skip(4));
    assert(args.skip(4).drop_first().drop_first() =~= args.skip(6));
    assert(args.skip(6).drop_first().drop_first() =~= args.skip(8));
    reveal_with_fuel(arg_after, 10);
}

/// The updater shim is looked for first under `resources/` beside the running
/// executable, where the bundle installs it, and only then directly beside the
/// executable, where older installs put it.
pub proof fn shim_looked_for_under_resources_first(exe_dir: Seq<char>)
    ensures
        shim_exe_paths(exe_dir).len() == 2,
        shim_exe_paths(exe_dir)[0] == seq![exe_dir, "resources"@, "desktop-toolkit-updater.exe"@],
        shim_exe_paths(exe_dir)[1] == seq![exe_dir, "desktop-toolkit-updater.exe"@],
{
}

/// A manifest whose version does not parse never offers an update; one whose
/// version parses offers it exactly when that version is greater than the
/// installed one, and an installed version that does not parse counts as
/// `0.0.0` with no pre-release or build metadata.
pub proof fn update_offered_only_for_greater_version(current: Seq<char>, remote: Seq<char>)
    ensures
        semver_parse(remote) is None ==> !offers_update(current, remote),
        semver_parse(remote) matches Some(rv) ==> (offers_update(current, remote) == semver_greater(
            rv,
            installed_parts(current),
        )),
        semver_parse(current) matches Some(cv) ==> installed_parts(current) == cv,
        semver_parse(current) is None ==> installed_parts(current) == (
            0u64,
            0u64,
            0u64,
            Seq::<char>::empty(),
            Seq::<char>::empty(),
        ),
{
}

} // verus!
