//! Decisions of the application's startup sequence: debug hold, status lines,
//! how long the splash stays up, and where the backend and Python are looked
//! for.

use vstd::prelude::*;
use crate::text::{decimal, decimal_string, parse_u64, parsed_u64, opt_text, path_texts};
use crate::splash::{StatusKind, StatusPayload};
use crate::updater::UpdateCheckResult;

verus! {

/// Minimum time (ms) the splash stays up on a first launch, so the full
/// animation plays through to the fade-out.
pub const MIN_SPLASH_MS: u64 = 13000;

/// Minimum time (ms) on later launches of the same version: one hammer strike.
pub const MIN_SPLASH_MS_SHORT: u64 = 3200;

/// Extra hold (ms) for the offline error state before the dialog appears.
pub const OFFLINE_EXTRA_MS: u64 = 3000;

/// The debug hold per phase given by `SPLASH_HOLD_MS`: its value when it
/// parses as a `u64`, otherwise (unset or invalid) 0.
pub fn hold_ms_from_env(value: Option<String>) -> (ms: u64)
    ensures
        match value {
            Some(v) => match parsed_u64(v@) {
                Some(n) => ms == n,
                None => ms == 0,
            },
            None => ms == 0,
        },
{
    match value {
        Some(v) => match parse_u64(v.as_str()) {
            Some(n) => n,
            None => 0,
        },
        None => 0,
    }
}

/// The status kind reported on the `updates` line for a check result.
pub open spec fn check_status_kind(result: UpdateCheckResult) -> StatusKind {
    match result {
        UpdateCheckResult::Offline { .. } => StatusKind::Error,
        UpdateCheckResult::UpdateAvailable { .. } => StatusKind::Warn,
        UpdateCheckResult::UpToDate => StatusKind::Success,
    }
}

/// The kind of the `updates` status line after the check: an error when
/// offline, a warning when an update is available, success otherwise.
pub fn update_check_status(result: &UpdateCheckResult) -> (k: StatusKind)
    ensures
        k == check_status_kind(*result),
{
    match result {
        UpdateCheckResult::Offline { .. } => StatusKind::Error,
        UpdateCheckResult::UpdateAvailable { .. } => StatusKind::Warn,
        UpdateCheckResult::UpToDate => StatusKind::Success,
    }
}

/// The message of the final status line for an outcome.
pub open spec fn final_message(result: UpdateCheckResult) -> Seq<char> {
    match result {
        UpdateCheckResult::Offline { .. } => "Cannot reach shared drive"@,
        UpdateCheckResult::UpdateAvailable { .. } => "Update detected, loading updater\u{2026}"@,
        UpdateCheckResult::UpToDate => "Ready"@,
    }
}

/// The final status line (phase `final`) shown before the splash closes.
pub fn final_status(result: &UpdateCheckResult) -> (p: StatusPayload)
    ensures
        p.phase@ == "final"@,
        p.message@ == final_message(*result),
        p.kind == check_status_kind(*result),
{
    match result {
        UpdateCheckResult::Offline { .. } => StatusPayload::new(
            "final",
            "Cannot reach shared drive",
            StatusKind::Error,
        ),
        UpdateCheckResult::UpdateAvailable { .. } => StatusPayload::new(
            "final",
            "Update detected, loading updater\u{2026}",
            StatusKind::Warn,
        ),
        UpdateCheckResult::UpToDate => StatusPayload::new("final", "Ready", StatusKind::Success),
    }
}

/// The hold added after the final status line: the debug hold, plus
/// `OFFLINE_EXTRA_MS` when offline (wrapping on overflow, as release builds do).
pub fn extra_hold_ms(result: &UpdateCheckResult, hold_ms: u64) -> (ms: u64)
    ensures
        result is Offline ==> ms == (OFFLINE_EXTRA_MS as u64).wrapping_add(hold_ms),
        !(result is Offline) ==> ms == hold_ms,
{
    match result {
        UpdateCheckResult::Offline { .. } => OFFLINE_EXTRA_MS.wrapping_add(hold_ms),
        _ => hold_ms,
    }
}

/// How long the splash must have been up before it may close: the minimum for
/// this kind of launch plus the extra hold (wrapping on overflow).
pub open spec fn splash_target_ms(first_run: bool, extra_hold_ms: u64) -> u64 {
    let min: u64 = if first_run { MIN_SPLASH_MS } else { MIN_SPLASH_MS_SHORT };
    min.wrapping_add(extra_hold_ms)
}

/// How much longer to keep the splash up after `elapsed_ms`: the time left
/// until the target, or 0 once it has passed. Waiting that long brings the
/// total to at least the target.
pub fn splash_wait_ms(first_run: bool, extra_hold_ms: u64, elapsed_ms: u64) -> (wait: u64)
    ensures
        elapsed_ms < splash_target_ms(first_run, extra_hold_ms) ==> wait == splash_target_ms(
            first_run,
            extra_hold_ms,
        ) - elapsed_ms,
        elapsed_ms >= splash_target_ms(first_run, extra_hold_ms) ==> wait == 0,
        elapsed_ms + wait >= splash_target_ms(first_run, extra_hold_ms),
{
    let min_ms = if first_run { MIN_SPLASH_MS } else { MIN_SPLASH_MS_SHORT };
    let target = min_ms.wrapping_add(extra_hold_ms);
    if elapsed_ms < target {
        target - elapsed_ms
    } else {
        0
    }
}

/// A phase of the startup sequence that reports progress on the splash.
#[derive(Clone, Copy, Debug, PartialEq, Eq, Structural)]
pub enum StartupPhase {
    /// Starting the backend service.
    Backend,
    /// Reaching the shared drive.
    Mount,
    /// Checking for updates.
    Updates,
}

/// The phase name and message of a phase's status line.
pub open spec fn phase_text(phase: StartupPhase) -> (Seq<char>, Seq<char>) {
    match phase {
        StartupPhase::Backend => ("backend"@, "Starting backend service"@),
        StartupPhase::Mount => ("mount"@, "Mounting shared drive"@),
        StartupPhase::Updates => ("updates"@, "Checking for updates"@),
    }
}

/// The status line of a phase in the given state.
pub fn phase_status(phase: StartupPhase, kind: StatusKind) -> (p: StatusPayload)
    ensures
        p.phase@ == phase_text(phase).0,
        p.message@ == phase_text(phase).1,
        p.kind == kind,
{
    match phase {
        StartupPhase::Backend => StatusPayload::new("backend", "Starting backend service", kind),
        StartupPhase::Mount => StatusPayload::new("mount", "Mounting shared drive", kind),
        StartupPhase::Updates => StatusPayload::new("updates", "Checking for updates", kind),
    }
}

/// One step of the startup sequence, carried out by the runtime in order.
#[derive(Clone, Copy, Debug, PartialEq, Eq, Structural)]
pub enum StartupStep {
    /// Emit the status line of a phase.
    Status(StartupPhase, StatusKind),
    /// Sleep this many milliseconds (nothing for 0).
    Sleep(u64),
    /// Start the backend and store its URL.
    SpawnBackend,
    /// Test whether the update path exists; the next steps depend on it.
    CheckDrive,
    /// Run the update check; the next steps depend on its result.
    CheckForUpdate,
    /// Emit the final status line for the outcome (`final_status`).
    FinalStatus,
    /// Sleep until the splash has been up for `splash_wait_ms` of this
    /// launch kind (first run or not) and extra hold.
    WaitForMinimum(bool, u64),
    /// Close the splash window.
    CloseSplash,
    /// Show the blocking "Connection Required" dialog (`offline_message`).
    ShowOfflineDialog,
    /// Exit the application with this code.
    Exit(i32),
    /// Record the available update in the managed update state.
    RecordUpdate,
    /// Listen for the updater window's `updater_ready` event.
    ListenForUpdaterReady,
    /// On the main thread, show the updater window and close the splash.
    ShowUpdaterWindow,
    /// Wait up to this many milliseconds for `updater_ready`.
    AwaitUpdaterReady(u64),
    /// Emit `update_info` with the new version and its notes.
    EmitUpdateInfo,
    /// Emit `splash://fade-now` so the splash cross-fades out.
    EmitFadeNow,
    /// On the main thread, show the main window and close the splash.
    ShowMainWindow,
}

/// Pause after the splash opens, before the first status line.
pub const FIRST_RENDER_MS: u64 = 200;

/// Pause that lets the "Ready" line render.
pub const READY_BEAT_MS: u64 = 200;

/// How long the updater window gets to report that it is ready.
pub const UPDATER_READY_TIMEOUT_MS: u64 = 2000;

/// Fade hold (800 ms), fade (1000 ms) and a safety margin (400 ms) before the
/// main window is shown even if the splash never reported the fade's end.
pub const FADE_FALLBACK_MS: u64 = 2200;

/// The opening of the sequence: wait for the first render, then start the
/// backend between its two status lines.
pub open spec fn opening_plan(hold_ms: u64) -> Seq<StartupStep> {
    seq![
        StartupStep::Sleep(FIRST_RENDER_MS),
        StartupStep::Status(StartupPhase::Backend, StatusKind::Pending),
        StartupStep::Sleep(hold_ms),
        StartupStep::SpawnBackend,
        StartupStep::Status(StartupPhase::Backend, StatusKind::Success),
        StartupStep::Sleep(hold_ms),
    ]
}

/// Development builds skip the drive and update check and report both as done.
pub open spec fn dev_check_plan(hold_ms: u64) -> Seq<StartupStep> {
    seq![
        StartupStep::Status(StartupPhase::Mount, StatusKind::Pending),
        StartupStep::Sleep(hold_ms),
        StartupStep::Status(StartupPhase::Mount, StatusKind::Success),
        StartupStep::Sleep(hold_ms),
        StartupStep::Status(StartupPhase::Updates, StatusKind::Pending),
        StartupStep::Sleep(hold_ms),
        StartupStep::Status(StartupPhase::Updates, StatusKind::Success),
        StartupStep::Sleep(hold_ms),
    ]
}

/// Release builds first test whether the shared drive is reachable.
pub open spec fn drive_check_plan(hold_ms: u64) -> Seq<StartupStep> {
    seq![
        StartupStep::Status(StartupPhase::Mount, StatusKind::Pending),
        StartupStep::Sleep(hold_ms),
        StartupStep::CheckDrive,
    ]
}

/// After the drive test: an unreachable drive ends the check (offline);
/// otherwise the update check runs.
pub open spec fn after_drive_plan(reachable: bool, hold_ms: u64) -> Seq<StartupStep> {
    if reachable {
        seq![
            StartupStep::Status(StartupPhase::Mount, StatusKind::Success),
            StartupStep::Sleep(hold_ms),
            StartupStep::Status(StartupPhase::Updates, StatusKind::Pending),
            StartupStep::Sleep(hold_ms),
            StartupStep::CheckForUpdate,
        ]
    } else {
        seq![StartupStep::Status(StartupPhase::Mount, StatusKind::Error)]
    }
}

/// After the update check: its status line, then the debug hold unless offline.
pub open spec fn after_update_plan(result: UpdateCheckResult, hold_ms: u64) -> Seq<StartupStep> {
    let line = seq![StartupStep::Status(StartupPhase::Updates, check_status_kind(result))];
    if result is Offline {
        line
    } else {
        line.push(StartupStep::Sleep(hold_ms))
    }
}

/// The end of the sequence: the final status line, the minimum display time,
/// then the transition. Offline: close the splash, show the dialog, exit
/// with 1. Update available: record it, show the updater and hand it the
/// update's details. Up to date: fade the splash into the main window.
pub open spec fn closing_plan(outcome: UpdateCheckResult, first_run: bool, hold_ms: u64) -> Seq<
    StartupStep,
> {
    match outcome {
        UpdateCheckResult::Offline { .. } => seq![
            StartupStep::FinalStatus,
            StartupStep::WaitForMinimum(first_run, (OFFLINE_EXTRA_MS as u64).wrapping_add(hold_ms)),
            StartupStep::CloseSplash,
            StartupStep::ShowOfflineDialog,
            StartupStep::Exit(1),
        ],
        UpdateCheckResult::UpdateAvailable { .. } => seq![
            StartupStep::FinalStatus,
            StartupStep::WaitForMinimum(first_run, hold_ms),
            StartupStep::RecordUpdate,
            StartupStep::ListenForUpdaterReady,
            StartupStep::ShowUpdaterWindow,
            StartupStep::AwaitUpdaterReady(UPDATER_READY_TIMEOUT_MS),
            StartupStep::EmitUpdateInfo,
        ],
        UpdateCheckResult::UpToDate => seq![
            StartupStep::FinalStatus,
            StartupStep::Sleep(READY_BEAT_MS),
            StartupStep::WaitForMinimum(first_run, hold_ms),
            StartupStep::EmitFadeNow,
            StartupStep::Sleep(FADE_FALLBACK_MS),
            StartupStep::ShowMainWindow,
        ],
    }
}

/// The steps that open the startup sequence.
pub fn opening_steps(hold_ms: u64) -> (steps: Vec<StartupStep>)
    ensures
        steps@ == opening_plan(hold_ms),
{
    let mut steps: Vec<StartupStep> = Vec::new();
    steps.push(StartupStep::Sleep(FIRST_RENDER_MS));
    steps.push(StartupStep::Status(StartupPhase::Backend, StatusKind::Pending));
    steps.push(StartupStep::Sleep(hold_ms));
    steps.push(StartupStep::SpawnBackend);
    steps.push(StartupStep::Status(StartupPhase::Backend, StatusKind::Success));
    steps.push(StartupStep::Sleep(hold_ms));
    assert(steps@ =~= opening_plan(hold_ms));
    steps
}

/// The steps of a development build's (skipped) drive and update check.
pub fn dev_check_steps(hold_ms: u64) -> (steps: Vec<StartupStep>)
    ensures
        steps@ == dev_check_plan(hold_ms),
{
    let mut steps: Vec<StartupStep> = Vec::new();
    steps.push(StartupStep::Status(StartupPhase::Mount, StatusKind::Pending));
    steps.push(StartupStep::Sleep(hold_ms));
    steps.push(StartupStep::Status(StartupPhase::Mount, StatusKind::Success));
    steps.push(StartupStep::Sleep(hold_ms));
    steps.push(StartupStep::Status(StartupPhase::Updates, StatusKind::Pending));
    steps.push(StartupStep::Sleep(hold_ms));
    steps.push(StartupStep::Status(StartupPhase::Updates, StatusKind::Success));
    steps.push(StartupStep::Sleep(hold_ms));
    assert(steps@ =~= dev_check_plan(hold_ms));
    steps
}

/// The steps that test whether the shared drive is reachable.
pub fn drive_check_steps(hold_ms: u64) -> (steps: Vec<StartupStep>)
    ensures
        steps@ == drive_check_plan(hold_ms),
{
    let mut steps: Vec<StartupStep> = Vec::new();
    steps.push(StartupStep::Status(StartupPhase::Mount, StatusKind::Pending));
    steps.push(StartupStep::Sleep(hold_ms));
    steps.push(StartupStep::CheckDrive);
    assert(steps@ =~= drive_check_plan(hold_ms));
    steps
}

/// The steps after the drive test.
pub fn after_drive_check(reachable: bool, hold_ms: u64) -> (steps: Vec<StartupStep>)
    ensures
        steps@ == after_drive_plan(reachable, hold_ms),
{
    let mut steps: Vec<StartupStep> = Vec::new();
    if reachable {
        steps.push(StartupStep::Status(StartupPhase::Mount, StatusKind::Success));
        steps.push(StartupStep::Sleep(hold_ms));
        steps.push(StartupStep::Status(StartupPhase::Updates, StatusKind::Pending));
        steps.push(StartupStep::Sleep(hold_ms));
        steps.push(StartupStep::CheckForUpdate);
    } else {
        steps.push(StartupStep::Status(StartupPhase::Mount, StatusKind::Error));
    }
    assert(steps@ =~= after_drive_plan(reachable, hold_ms));
    steps
}

/// The steps after the update check.
pub fn after_update_check(result: &UpdateCheckResult, hold_ms: u64) -> (steps: Vec<StartupStep>)
    ensures
        steps@ == after_update_plan(*result, hold_ms),
{
    let mut steps: Vec<StartupStep> = Vec::new();
    let kind = update_check_status(result);
    steps.push(StartupStep::Status(StartupPhase::Updates, kind));
    match result {
        UpdateCheckResult::Offline { .. } => {},
        _ => steps.push(StartupStep::Sleep(hold_ms)),
    }
    assert(steps@ =~= after_update_plan(*result, hold_ms));
    steps
}

/// The steps that end the startup sequence for an outcome.
pub fn closing_steps(outcome: &UpdateCheckResult, first_run: bool, hold_ms: u64) -> (steps: Vec<
    StartupStep,
>)
    ensures
        steps@ == closing_plan(*outcome, first_run, hold_ms),
{
    let extra = extra_hold_ms(outcome, hold_ms);
    let mut steps: Vec<StartupStep> = Vec::new();
    steps.push(StartupStep::FinalStatus);
    match outcome {
        UpdateCheckResult::Offline { .. } => {
            steps.push(StartupStep::WaitForMinimum(first_run, extra));
            steps.push(StartupStep::CloseSplash);
            steps.push(StartupStep::ShowOfflineDialog);
            steps.push(StartupStep::Exit(1));
        },
        UpdateCheckResult::UpdateAvailable { .. } => {
            steps.push(StartupStep::WaitForMinimum(first_run, extra));
            steps.push(StartupStep::RecordUpdate);
            steps.push(StartupStep::ListenForUpdaterReady);
            steps.push(StartupStep::ShowUpdaterWindow);
            steps.push(StartupStep::AwaitUpdaterReady(UPDATER_READY_TIMEOUT_MS));
            steps.push(StartupStep::EmitUpdateInfo);
        },
        UpdateCheckResult::UpToDate => {
            steps.push(StartupStep::Sleep(READY_BEAT_MS));
            steps.push(StartupStep::WaitForMinimum(first_run, extra));
            steps.push(StartupStep::EmitFadeNow);
            steps.push(StartupStep::Sleep(FADE_FALLBACK_MS));
            steps.push(StartupStep::ShowMainWindow);
        },
    }
    assert(steps@ =~= closing_plan(*outcome, first_run, hold_ms));
    steps
}

/// The text of the dialog shown when the shared drive cannot be reached.
pub open spec fn offline_message_text(path: Seq<char>) -> Seq<char> {
    "Cannot reach shared drive at `"@ + path
        + "`.\nConnect to the network (Drive for Desktop must be running) and try again."@
}

/// The dialog text for an unreachable update path.
pub fn offline_message(path: &str) -> (m: String)
    ensures
        m@ == offline_message_text(path@),
{
    let mut m = String::from_str("Cannot reach shared drive at `");
    m.append(path);
    m.append("`.\nConnect to the network (Drive for Desktop must be running) and try again.");
    m
}

/// The backend's base URL for a sidecar listening on `port`.
pub fn backend_url(port: u16) -> (url: String)
    ensures
        url@ == "http://127.0.0.1:"@ + decimal(port as nat),
{
    let digits = decimal_string(port as u64);
    let mut url = String::from_str("http://127.0.0.1:");
    url.append(digits.as_str());
    url
}


/// The Python executable inside an installation directory `dir`.
pub open spec fn python_in(dir: Seq<Seq<char>>, windows: bool) -> Seq<Seq<char>> {
    if windows {
        dir.push("python.exe"@)
    } else {
        dir.push("bin"@).push("python"@)
    }
}

/// The Miniconda and Anaconda installation directories looked for in the home folder.
pub open spec fn conda_dir_names() -> Seq<Seq<char>> {
    seq!["miniconda3"@, "Miniconda3"@, "anaconda3"@, "Anaconda3"@]
}

/// The Python executables to try, in order: the active conda environment,
/// then each well-known conda installation in the home folder.
pub open spec fn python_candidate_paths(
    conda_prefix: Option<Seq<char>>,
    home: Option<Seq<char>>,
    windows: bool,
) -> Seq<Seq<Seq<char>>> {
    let from_env = match conda_prefix {
        Some(p) => seq![python_in(seq![p], windows)],
        None => Seq::empty(),
    };
    let from_home = match home {
        Some(h) => conda_dir_names().map_values(|d: Seq<char>| python_in(seq![h, d], windows)),
        None => Seq::empty(),
    };
    from_env + from_home
}

/// Appends the Python executable's location inside `dir` to the components.
fn push_python(parts: &mut Vec<String>, windows: bool)
    ensures
        final(parts)@.map_values(|c: String| c@) == python_in(
            old(parts)@.map_values(|c: String| c@),
            windows,
        ),
{
    let ghost before = parts@.map_values(|c: String| c@);
    if windows {
        parts.push(String::from_str("python.exe"));
    } else {
        parts.push(String::from_str("bin"));
        parts.push(String::from_str("python"));
    }
    assert(parts@.map_values(|c: String| c@) =~= python_in(before, windows));
}

/// The candidate Python executables, as path components, in the order they
/// are tried (before the `python` on `PATH`).
pub fn python_candidates(conda_prefix: Option<String>, home: Option<String>, windows: bool) -> (c:
    Vec<Vec<String>>)
    ensures
        path_texts(c@) == python_candidate_paths(opt_text(conda_prefix), opt_text(home), windows),
{
    let ghost conda_view = opt_text(conda_prefix);
    let ghost home_view = opt_text(home);
    let mut c: Vec<Vec<String>> = Vec::new();
    match conda_prefix {
        Some(p) => {
            let mut path: Vec<String> = Vec::new();
            path.push(p);
            assert(path@.map_values(|x: String| x@) =~= seq![conda_view.unwrap()]);
            push_python(&mut path, windows);
            c.push(path);
        },
        None => {},
    }
    let ghost n0 = c@.len();
    assert(path_texts(c@) =~= match conda_view {
        Some(p) => seq![python_in(seq![p], windows)],
        None => Seq::empty(),
    });
    match home {
        Some(h) => {
            let names: [&str; 4] = ["miniconda3", "Miniconda3", "anaconda3", "Anaconda3"];
            let ghost names_view = conda_dir_names();
            assert(names_view == seq![names[0]@, names[1]@, names[2]@, names[3]@]);
            let mut k: usize = 0;
            while k < 4
                invariant
                    k <= 4,
                    names_view == conda_dir_names(),
                    names_view == seq![names[0]@, names[1]@, names[2]@, names[3]@],
                    home_view == Some(h@),
                    c@.len() == n0 + k,
                    path_texts(c@) =~= path_texts(c@).take(n0 as int) + conda_dir_names().take(
                        k as int,
                    ).map_values(|d: Seq<char>| python_in(seq![h@, d], windows)),
                    path_texts(c@).take(n0 as int) == match conda_view {
                        Some(p) => seq![python_in(seq![p], windows)],
                        None => Seq::<Seq<Seq<char>>>::empty(),
                    },
                decreases 4 - k,
            {
                let mut path: Vec<String> = Vec::new();
                path.push(h.clone());
                path.push(String::from_str(names[k]));
                assert(path@.map_values(|x: String| x@) =~= seq![h@, names_view[k as int]]);
                push_python(&mut path, windows);
                let ghost old_texts = path_texts(c@);
                c.push(path);
                assert(path_texts(c@) =~= old_texts.push(python_in(seq![h@, names_view[k as int]], windows)));
                assert(conda_dir_names().take(k + 1) =~= conda_dir_names().take(k as int).push(names_view[k as int]));
                assert(path_texts(c@).take(n0 as int) =~= old_texts.take(n0 as int));
                k = k + 1;
            }
            assert(conda_dir_names().take(4) =~= conda_dir_names());
        },
        None => {},
    }
    assert(path_texts(c@) =~= python_candidate_paths(conda_view, home_view, windows));
    c
}

/// The places the backend's `backend/` directory is looked for, in order:
/// two levels above the crate's manifest directory, then `../backend`,
/// `../../backend` and `./backend` relative to the working directory.
pub open spec fn backend_dir_paths(manifest_dir: Seq<char>) -> Seq<Seq<Seq<char>>> {
    seq![
        seq![manifest_dir, ".."@, ".."@, "backend"@],
        seq!["../backend"@],
        seq!["../../backend"@],
        seq!["./backend"@],
    ]
}

/// One path of a single component.
fn single(text: &str) -> (p: Vec<String>)
    ensures
        p@.map_values(|c: String| c@) == seq![text@],
{
    let mut p: Vec<String> = Vec::new();
    p.push(String::from_str(text));
    assert(p@.map_values(|c: String| c@) =~= seq![text@]);
    p
}

/// The candidate backend directories, as path components, in the order they
/// are tried; the first holding an `app.py` is used.
pub fn backend_dir_candidates(manifest_dir: &str) -> (c: Vec<Vec<String>>)
    ensures
        path_texts(c@) == backend_dir_paths(manifest_dir@),
{
    let mut anchored: Vec<String> = Vec::new();
    anchored.push(String::from_str(manifest_dir));
    anchored.push(String::from_str(".."));
    anchored.push(String::from_str(".."));
    anchored.push(String::from_str("backend"));
    assert(anchored@.map_values(|x: String| x@) =~= seq![
        manifest_dir@,
        ".."@,
        ".."@,
        "backend"@,
    ]);
    let mut c: Vec<Vec<String>> = Vec::new();
    c.push(anchored);
    c.push(single("../backend"));
    c.push(single("../../backend"));
    c.push(single("./backend"));
    assert(path_texts(c@) =~= backend_dir_paths(manifest_dir@));
    c
}

/// The kind of the update-check status line says what the check found: done
/// when up to date, a warning when an update is available, an error when
/// offline (and only then).
pub proof fn check_kind_reports_outcome(r: UpdateCheckResult)
    ensures
        (check_status_kind(r) == StatusKind::Success) == (r is UpToDate),
        (check_status_kind(r) == StatusKind::Warn) == (r is UpdateAvailable),
        (check_status_kind(r) == StatusKind::Error) == (r is Offline),
        check_status_kind(r) != StatusKind::Pending,
{
}

/// After the update check the `updates` line reports the outcome (done,
/// warning or error exactly for up to date, update available or offline);
/// the debug hold follows unless the drive was offline.
pub proof fn update_line_reports_outcome(r: UpdateCheckResult, h: u64)
    ensures
        after_update_plan(r, h).len() >= 1,
        after_update_plan(r, h)[0] is Status,
        after_update_plan(r, h)[0] == StartupStep::Status(StartupPhase::Updates, StatusKind::Success)
            <==> r is UpToDate,
        after_update_plan(r, h)[0] == StartupStep::Status(StartupPhase::Updates, StatusKind::Warn)
            <==> r is UpdateAvailable,
        after_update_plan(r, h)[0] == StartupStep::Status(StartupPhase::Updates, StatusKind::Error)
            <==> r is Offline,
        r is Offline ==> after_update_plan(r, h).len() == 1,
        !(r is Offline) ==> after_update_plan(r, h).len() == 2 && after_update_plan(r, h)[1]
            == StartupStep::Sleep(h),
{
}

/// The `mount` line reports an error exactly when the shared drive is
/// unreachable, and then nothing follows; a reachable drive is reported as
/// mounted and leads, after the `updates` line turns pending, to the update
/// check as the last step.
pub proof fn mount_line_reports_reachability(reachable: bool, h: u64)
    ensures
        after_drive_plan(reachable, h).len() >= 1,
        after_drive_plan(reachable, h)[0] == StartupStep::Status(
            StartupPhase::Mount,
            if reachable {
                StatusKind::Success
            } else {
                StatusKind::Error
            },
        ),
        forall|i: int|
            0 <= i < after_drive_plan(reachable, h).len() && after_drive_plan(reachable, h)[i]
                == StartupStep::Status(StartupPhase::Mount, StatusKind::Error) ==> !reachable,
        !reachable ==> after_drive_plan(reachable, h).len() == 1,
        reachable ==> {
            let p = after_drive_plan(reachable, h);
            &&& p.last() == StartupStep::CheckForUpdate
            &&& exists|i: int|
                0 <= i < p.len() - 1 && p[i] == StartupStep::Status(
                    StartupPhase::Updates,
                    StatusKind::Pending,
                )
            &&& forall|i: int| 0 <= i < p.len() - 1 ==> p[i] != StartupStep::CheckForUpdate
        },
{
    let p = after_drive_plan(reachable, h);
    if reachable {
        assert(p[2] == StartupStep::Status(StartupPhase::Updates, StatusKind::Pending));
    }
}

/// The drive test opens with the `mount` line pending and ends with the test.
pub proof fn drive_check_starts_pending(h: u64)
    ensures
        drive_check_plan(h)[0] == StartupStep::Status(StartupPhase::Mount, StatusKind::Pending),
        drive_check_plan(h).last() == StartupStep::CheckDrive,
        forall|i: int| 0 <= i < drive_check_plan(h).len() - 1 ==> drive_check_plan(h)[i]
            != StartupStep::CheckDrive,
{
}

/// The backend is started once, after its line turns pending and before it
/// is reported done; nothing in the opening reports an error or a warning.
pub proof fn backend_started_between_its_lines(h: u64)
    ensures
        ({
            let p = opening_plan(h);
            exists|a: int, b: int, c: int|
                0 <= a < b < c < p.len() && p[a] == StartupStep::Status(
                    StartupPhase::Backend,
                    StatusKind::Pending,
                ) && p[b] == StartupStep::SpawnBackend && p[c] == StartupStep::Status(
                    StartupPhase::Backend,
                    StatusKind::Success,
                )
        }),
        forall|i: int, j: int|
            0 <= i < opening_plan(h).len() && 0 <= j < opening_plan(h).len() && opening_plan(h)[i]
                == StartupStep::SpawnBackend && opening_plan(h)[j] == StartupStep::SpawnBackend
                ==> i == j,
        forall|i: int, ph: StartupPhase, k: StatusKind|
            0 <= i < opening_plan(h).len() && opening_plan(h)[i] == StartupStep::Status(ph, k) ==> k
                == StatusKind::Pending || k == StatusKind::Success,
{
    let p = opening_plan(h);
    assert(p[1] == StartupStep::Status(StartupPhase::Backend, StatusKind::Pending));
    assert(p[3] == StartupStep::SpawnBackend);
    assert(p[4] == StartupStep::Status(StartupPhase::Backend, StatusKind::Success));
}

/// A development build reports the drive and the update check as pending and
/// then done, never as failed, and runs no real check.
pub proof fn dev_build_reports_checks_done(h: u64)
    ensures
        forall|i: int, ph: StartupPhase, k: StatusKind|
            0 <= i < dev_check_plan(h).len() && dev_check_plan(h)[i] == StartupStep::Status(ph, k)
                ==> k == StatusKind::Pending || k == StatusKind::Success,
        forall|i: int|
            0 <= i < dev_check_plan(h).len() ==> dev_check_plan(h)[i] != StartupStep::CheckDrive
                && dev_check_plan(h)[i] != StartupStep::CheckForUpdate,
        exists|i: int|
            0 <= i < dev_check_plan(h).len() && dev_check_plan(h)[i] == StartupStep::Status(
                StartupPhase::Mount,
                StatusKind::Success,
            ),
        exists|i: int|
            0 <= i < dev_check_plan(h).len() && dev_check_plan(h)[i] == StartupStep::Status(
                StartupPhase::Updates,
                StatusKind::Success,
            ),
{
    let p = dev_check_plan(h);
    assert(p[2] == StartupStep::Status(StartupPhase::Mount, StatusKind::Success));
    assert(p[6] == StartupStep::Status(StartupPhase::Updates, StatusKind::Success));
}

/// The splash minimum is 13 s for the first launch of a version and 3.2 s for
/// later ones, whatever the extra hold; the extra hold is added on top
/// (wrapping only past `u64::MAX`).
pub proof fn splash_minimum_depends_on_launch_kind(first_run: bool, extra: u64)
    ensures
        splash_target_ms(first_run, extra) == (if first_run {
            13000u64
        } else {
            3200u64
        }).wrapping_add(extra),
        (if first_run {
            13000int
        } else {
            3200int
        }) + extra <= u64::MAX ==> splash_target_ms(first_run, extra) == (if first_run {
            13000int
        } else {
            3200int
        }) + extra,
        extra <= u64::MAX - 13000 ==> splash_target_ms(true, extra) == splash_target_ms(false, extra)
            + 9800,
{
}

/// The end of the sequence opens with the final status line and waits for the
/// splash minimum exactly once, with this launch's own first-run flag and the
/// extra hold of the outcome (the debug hold, plus 3 s when offline).
pub proof fn closing_waits_once_for_this_launch(o: UpdateCheckResult, first_run: bool, h: u64)
    ensures
        ({
            let p = closing_plan(o, first_run, h);
            let extra: u64 = if o is Offline {
                3000u64.wrapping_add(h)
            } else {
                h
            };
            &&& p.len() >= 2
            &&& p[0] == StartupStep::FinalStatus
            &&& exists|i: int| 0 <= i < p.len() && p[i] == StartupStep::WaitForMinimum(first_run, extra)
            &&& forall|i: int|
                0 <= i < p.len() && p[i] is WaitForMinimum ==> p[i] == StartupStep::WaitForMinimum(
                    first_run,
                    extra,
                )
            &&& forall|i: int, j: int|
                0 <= i < p.len() && 0 <= j < p.len() && p[i] is WaitForMinimum
                    && p[j] is WaitForMinimum ==> i == j
        }),
{
    let p = closing_plan(o, first_run, h);
    if o is UpToDate {
        assert(p[2] is WaitForMinimum);
    } else {
        assert(p[1] is WaitForMinimum);
    }
}

/// How the sequence ends: offline closes the splash, shows the dialog and
/// exits with 1; an available update is recorded, and the updater window
/// shown, then handed the update's details; up to date fades the splash and
/// shows the main window. Only the offline outcome exits.
pub proof fn closing_transition_per_outcome(o: UpdateCheckResult, first_run: bool, h: u64)
    ensures
        ({
            let p = closing_plan(o, first_run, h);
            &&& o is Offline ==> {
                &&& p.last() == StartupStep::Exit(1)
                &&& exists|i: int, j: int|
                    0 <= i < j < p.len() - 1 && p[i] == StartupStep::CloseSplash && p[j]
                        == StartupStep::ShowOfflineDialog
            }
            &&& !(o is Offline) ==> forall|i: int| 0 <= i < p.len() ==> !(p[i] is Exit)
            &&& o is UpdateAvailable ==> {
                &&& p.last() == StartupStep::EmitUpdateInfo
                &&& exists|a: int, b: int, c: int, d: int|
                    0 <= a < b < c < d < p.len() && p[a] == StartupStep::RecordUpdate && p[b]
                        == StartupStep::ListenForUpdaterReady && p[c]
                        == StartupStep::ShowUpdaterWindow && p[d]
                        == StartupStep::AwaitUpdaterReady(2000)
            }
            &&& o is UpToDate ==> {
                &&& p.last() == StartupStep::ShowMainWindow
                &&& exists|a: int, b: int, c: int|
                    0 <= a < b < c < p.len() && p[a] == StartupStep::Sleep(200)
                        && p[b] is WaitForMinimum && p[c] == StartupStep::EmitFadeNow
                &&& exists|i: int| 0 <= i < p.len() && p[i] == StartupStep::Sleep(2200)
            }
            &&& forall|i: int|
                0 <= i < p.len() ==> (p[i] == StartupStep::ShowOfflineDialog) ==> o is Offline
            &&& forall|i: int|
                0 <= i < p.len() ==> (p[i] == StartupStep::ShowUpdaterWindow) ==> o is UpdateAvailable
            &&& forall|i: int|
                0 <= i < p.len() ==> (p[i] == StartupStep::ShowMainWindow) ==> o is UpToDate
        }),
{
    let p = closing_plan(o, first_run, h);
    if o is Offline {
        assert(p[2] == StartupStep::CloseSplash);
        assert(p[3] == StartupStep::ShowOfflineDialog);
    } else if o is UpdateAvailable {
        assert(p[2] == StartupStep::RecordUpdate);
        assert(p[3] == StartupStep::ListenForUpdaterReady);
        assert(p[4] == StartupStep::ShowUpdaterWindow);
        assert(p[5] == StartupStep::AwaitUpdaterReady(2000));
    } else {
        assert(p[1] == StartupStep::Sleep(200));
        assert(p[2] is WaitForMinimum);
        assert(p[3] == StartupStep::EmitFadeNow);
        assert(p[4] == StartupStep::Sleep(2200));
    }
}

/// The Python interpreters are tried in this order: the one inside the active
/// conda environment first, then the ones inside `miniconda3`, `Miniconda3`,
/// `anaconda3` and `Anaconda3` in the home folder, on every platform. Each
/// is `python.exe` in the directory on Windows and `bin/python` elsewhere.
pub proof fn python_search_order(
    conda_prefix: Option<Seq<char>>,
    home: Option<Seq<char>>,
    windows: bool,
)
    ensures
        ({
            let c = python_candidate_paths(conda_prefix, home, windows);
            let exe: Seq<Seq<char>> = if windows {
                seq!["python.exe"@]
            } else {
                seq!["bin"@, "python"@]
            };
            let names: Seq<Seq<char>> = seq![
                "miniconda3"@,
                "Miniconda3"@,
                "anaconda3"@,
                "Anaconda3"@,
            ];
            let off: int = if conda_prefix is Some {
                1
            } else {
                0
            };
            &&& c.len() == off + if home is Some {
                4int
            } else {
                0int
            }
            &&& conda_prefix matches Some(p) ==> c[0] == seq![p] + exe
            &&& home matches Some(h) ==> forall|k: int|
                0 <= k < 4 ==> #[trigger] c[off + k] == seq![h, names[k]] + exe
        }),
{
    let c = python_candidate_paths(conda_prefix, home, windows);
    let exe: Seq<Seq<char>> = if windows {
        seq!["python.exe"@]
    } else {
        seq!["bin"@, "python"@]
    };
    let off: int = if conda_prefix is Some {
        1
    } else {
        0
    };
    assert forall|d: Seq<Seq<char>>| #[trigger] python_in(d, windows) == d + exe by {
        assert(python_in(d, windows) =~= d + exe);
    }
    if let Some(h) = home {
        let names = conda_dir_names();
        assert forall|k: int| 0 <= k < 4 implies #[trigger] c[off + k] == seq![h, names[k]] + exe by {
            assert(c[off + k] == python_in(seq![h, names[k]], windows));
        }
    }
}

/// The backend directory is looked for first two levels above the crate's
/// manifest directory, then at `../backend`, `../../backend` and `./backend`
/// relative to the working directory.
pub proof fn backend_search_order(manifest_dir: Seq<char>)
    ensures
        backend_dir_paths(manifest_dir).len() == 4,
        backend_dir_paths(manifest_dir)[0] == seq![manifest_dir] + seq![".."@, ".."@, "backend"@],
        backend_dir_paths(manifest_dir)[1] == seq!["../backend"@],
        backend_dir_paths(manifest_dir)[2] == seq!["../../backend"@],
        backend_dir_paths(manifest_dir)[3] == seq!["./backend"@],
{
    assert(backend_dir_paths(manifest_dir)[0] =~= seq![manifest_dir] + seq![
        ".."@,
        ".."@,
        "backend"@,
    ]);
}

/// The status lines name their phase and say what it does.
pub proof fn status_line_texts()
    ensures
        phase_text(StartupPhase::Backend) == ("backend"@, "Starting backend service"@),
        phase_text(StartupPhase::Mount) == ("mount"@, "Mounting shared drive"@),
        phase_text(StartupPhase::Updates) == ("updates"@, "Checking for updates"@),
        forall|r: UpdateCheckResult|
            #![trigger final_message(r)]
            {
                &&& r is UpToDate ==> final_message(r) == "Ready"@
                &&& r is Offline ==> final_message(r) == "Cannot reach shared drive"@
                &&& r is UpdateAvailable ==> final_message(r)
                    == "Update detected, loading updater\u{2026}"@
            },
{
}

} // verus!
