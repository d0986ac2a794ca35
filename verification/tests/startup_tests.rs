use desktop_toolkit::splash::StatusKind;
use desktop_toolkit::startup::{
    backend_dir_candidates, backend_url, extra_hold_ms, final_status, hold_ms_from_env,
    offline_message, python_candidates, splash_wait_ms, update_check_status, MIN_SPLASH_MS,
    MIN_SPLASH_MS_SHORT, OFFLINE_EXTRA_MS,
};
use desktop_toolkit::updater::{LatestJson, UpdateCheckResult};

fn available() -> UpdateCheckResult {
    UpdateCheckResult::UpdateAvailable {
        latest: LatestJson {
            version: "2.0.0".to_string(),
            installer: "setup.exe".to_string(),
            notes: None,
            mandatory: Some(true),
        },
        update_path: "S:\\U".to_string(),
    }
}

fn offline() -> UpdateCheckResult {
    UpdateCheckResult::Offline { path: "S:\\U".to_string() }
}

#[test]
fn hold_from_environment() {
    assert_eq!(hold_ms_from_env(None), 0);
    assert_eq!(hold_ms_from_env(Some("1500".to_string())), 1500);
    assert_eq!(hold_ms_from_env(Some("fast".to_string())), 0);
    assert_eq!(hold_ms_from_env(Some("-5".to_string())), 0);
    assert_eq!(hold_ms_from_env(Some(String::new())), 0);
}

#[test]
fn check_status_kinds() {
    assert_eq!(update_check_status(&offline()), StatusKind::Error);
    assert_eq!(update_check_status(&available()), StatusKind::Warn);
    assert_eq!(update_check_status(&UpdateCheckResult::UpToDate), StatusKind::Success);
}

#[test]
fn final_status_lines() {
    let o = final_status(&offline());
    assert_eq!((o.phase.as_str(), o.message.as_str(), o.kind), ("final", "Cannot reach shared drive", StatusKind::Error));
    let a = final_status(&available());
    assert_eq!(
        (a.phase.as_str(), a.message.as_str(), a.kind),
        ("final", "Update detected, loading updater\u{2026}", StatusKind::Warn)
    );
    let r = final_status(&UpdateCheckResult::UpToDate);
    assert_eq!((r.phase.as_str(), r.message.as_str(), r.kind), ("final", "Ready", StatusKind::Success));
}

#[test]
fn extra_hold_per_outcome() {
    assert_eq!(extra_hold_ms(&offline(), 0), OFFLINE_EXTRA_MS);
    assert_eq!(extra_hold_ms(&offline(), 500), 3500);
    assert_eq!(extra_hold_ms(&available(), 500), 500);
    assert_eq!(extra_hold_ms(&UpdateCheckResult::UpToDate, 0), 0);
    assert_eq!(extra_hold_ms(&offline(), u64::MAX), 2999);
}

#[test]
fn splash_minimum_durations() {
    assert_eq!(splash_wait_ms(true, 0, 0), MIN_SPLASH_MS);
    assert_eq!(splash_wait_ms(false, 0, 0), MIN_SPLASH_MS_SHORT);
    assert_eq!(splash_wait_ms(true, 3000, 1000), 15000);
    assert_eq!(splash_wait_ms(false, 0, 1200), 2000);
    assert_eq!(splash_wait_ms(false, 0, 3200), 0);
    assert_eq!(splash_wait_ms(true, 0, 60000), 0);
}

#[test]
fn splash_wait_reaches_target() {
    for elapsed in [0u64, 1, 3199, 3200, 12999, 13000, 20000] {
        for first in [true, false] {
            let w = splash_wait_ms(first, 250, elapsed);
            let min = if first { MIN_SPLASH_MS } else { MIN_SPLASH_MS_SHORT };
            assert!(elapsed + w >= min + 250);
        }
    }
}

#[test]
fn offline_dialog_text() {
    assert_eq!(
        offline_message("S:\\Tools\\Updates"),
        "Cannot reach shared drive at `S:\\Tools\\Updates`.\nConnect to the network (Drive for Desktop must be running) and try again."
    );
}

#[test]
fn backend_urls() {
    assert_eq!(backend_url(8000), "http://127.0.0.1:8000");
    assert_eq!(backend_url(0), "http://127.0.0.1:0");
    assert_eq!(backend_url(65535), "http://127.0.0.1:65535");
}

#[test]
fn python_candidates_on_windows() {
    let c = python_candidates(Some("C:\\envs\\tool".to_string()), Some("C:\\Users\\me".to_string()), true);
    assert_eq!(
        c,
        vec![
            vec!["C:\\envs\\tool", "python.exe"],
            vec!["C:\\Users\\me", "miniconda3", "python.exe"],
            vec!["C:\\Users\\me", "Miniconda3", "python.exe"],
            vec!["C:\\Users\\me", "anaconda3", "python.exe"],
            vec!["C:\\Users\\me", "Anaconda3", "python.exe"],
        ]
    );
}

#[test]
fn python_candidates_elsewhere() {
    let c = python_candidates(None, Some("/home/me".to_string()), false);
    assert_eq!(
        c,
        vec![
            vec!["/home/me", "miniconda3", "bin", "python"],
            vec!["/home/me", "Miniconda3", "bin", "python"],
            vec!["/home/me", "anaconda3", "bin", "python"],
            vec!["/home/me", "Anaconda3", "bin", "python"],
        ]
    );
    let only_env = python_candidates(Some("/opt/env".to_string()), None, false);
    assert_eq!(only_env, vec![vec!["/opt/env", "bin", "python"]]);
    assert!(python_candidates(None, None, true).is_empty());
}

#[test]
fn backend_directories() {
    assert_eq!(
        backend_dir_candidates("/src/tool/src-tauri"),
        vec![
            vec!["/src/tool/src-tauri", "..", "..", "backend"],
            vec!["../backend"],
            vec!["../../backend"],
            vec!["./backend"],
        ]
    );
}


use desktop_toolkit::startup::{
    after_drive_check, after_update_check, closing_steps, dev_check_steps, drive_check_steps,
    opening_steps, phase_status, StartupPhase, StartupStep,
};

#[test]
fn opening_starts_backend_between_its_status_lines() {
    assert_eq!(
        opening_steps(0),
        vec![
            StartupStep::Sleep(200),
            StartupStep::Status(StartupPhase::Backend, StatusKind::Pending),
            StartupStep::Sleep(0),
            StartupStep::SpawnBackend,
            StartupStep::Status(StartupPhase::Backend, StatusKind::Success),
            StartupStep::Sleep(0),
        ]
    );
}

#[test]
fn dev_build_reports_checks_done() {
    let s = dev_check_steps(50);
    assert_eq!(s.len(), 8);
    assert_eq!(s[2], StartupStep::Status(StartupPhase::Mount, StatusKind::Success));
    assert_eq!(s[6], StartupStep::Status(StartupPhase::Updates, StatusKind::Success));
    assert_eq!(s[7], StartupStep::Sleep(50));
}

#[test]
fn drive_check_then_update_check() {
    assert_eq!(
        drive_check_steps(10),
        vec![
            StartupStep::Status(StartupPhase::Mount, StatusKind::Pending),
            StartupStep::Sleep(10),
            StartupStep::CheckDrive,
        ]
    );
    assert_eq!(
        after_drive_check(false, 10),
        vec![StartupStep::Status(StartupPhase::Mount, StatusKind::Error)]
    );
    assert_eq!(after_drive_check(true, 10).last(), Some(&StartupStep::CheckForUpdate));
}

#[test]
fn update_check_status_then_hold() {
    assert_eq!(
        after_update_check(&offline(), 10),
        vec![StartupStep::Status(StartupPhase::Updates, StatusKind::Error)]
    );
    assert_eq!(
        after_update_check(&available(), 10),
        vec![StartupStep::Status(StartupPhase::Updates, StatusKind::Warn), StartupStep::Sleep(10)]
    );
}

#[test]
fn offline_closes_with_dialog_and_exit_code_one() {
    assert_eq!(
        closing_steps(&offline(), true, 100),
        vec![
            StartupStep::FinalStatus,
            StartupStep::WaitForMinimum(true, 3100),
            StartupStep::CloseSplash,
            StartupStep::ShowOfflineDialog,
            StartupStep::Exit(1),
        ]
    );
}

#[test]
fn available_update_opens_updater() {
    assert_eq!(
        closing_steps(&available(), false, 0),
        vec![
            StartupStep::FinalStatus,
            StartupStep::WaitForMinimum(false, 0),
            StartupStep::RecordUpdate,
            StartupStep::ListenForUpdaterReady,
            StartupStep::ShowUpdaterWindow,
            StartupStep::AwaitUpdaterReady(2000),
            StartupStep::EmitUpdateInfo,
        ]
    );
}

#[test]
fn up_to_date_fades_to_main() {
    assert_eq!(
        closing_steps(&UpdateCheckResult::UpToDate, true, 0),
        vec![
            StartupStep::FinalStatus,
            StartupStep::Sleep(200),
            StartupStep::WaitForMinimum(true, 0),
            StartupStep::EmitFadeNow,
            StartupStep::Sleep(2200),
            StartupStep::ShowMainWindow,
        ]
    );
}

#[test]
fn phase_status_lines() {
    let b = phase_status(StartupPhase::Backend, StatusKind::Pending);
    assert_eq!((b.phase.as_str(), b.message.as_str()), ("backend", "Starting backend service"));
    let m = phase_status(StartupPhase::Mount, StatusKind::Error);
    assert_eq!((m.phase.as_str(), m.message.as_str(), m.kind), ("mount", "Mounting shared drive", StatusKind::Error));
    let u = phase_status(StartupPhase::Updates, StatusKind::Warn);
    assert_eq!((u.phase.as_str(), u.message.as_str()), ("updates", "Checking for updates"));
}
