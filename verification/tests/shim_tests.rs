use desktop_toolkit::shim::{
    get_arg, installer_run_args, relaunch_check, taskkill_args, ShimArgs, ShimArgsError, ShimFailure,
};

fn args(list: &[&str]) -> Vec<String> {
    list.iter().map(|s| s.to_string()).collect()
}

#[test]
fn get_arg_returns_following_value() {
    let a = args(&["shim.exe", "--installer", "C:\\setup.exe", "--version", "1.2.3"]);
    assert_eq!(get_arg(&a, "--installer"), Some("C:\\setup.exe".to_string()));
    assert_eq!(get_arg(&a, "--version"), Some("1.2.3".to_string()));
}

#[test]
fn get_arg_absent_flag_is_none() {
    let a = args(&["shim.exe", "--installer", "x"]);
    assert_eq!(get_arg(&a, "--sidecar-name"), None);
    assert_eq!(get_arg(&[], "--installer"), None);
}

#[test]
fn get_arg_flag_at_end_is_none() {
    let a = args(&["shim.exe", "--installer", "x", "--version"]);
    assert_eq!(get_arg(&a, "--version"), None);
}

#[test]
fn get_arg_first_occurrence_wins() {
    let a = args(&["shim.exe", "--version", "1", "--version", "2"]);
    assert_eq!(get_arg(&a, "--version"), Some("1".to_string()));
    // A flag's value may itself look like a flag.
    let b = args(&["shim.exe", "--installer", "--version", "9"]);
    assert_eq!(get_arg(&b, "--installer"), Some("--version".to_string()));
    assert_eq!(get_arg(&b, "--version"), Some("9".to_string()));
}

#[test]
fn parse_complete_command_line() {
    let a = args(&[
        "shim.exe",
        "--installer",
        "C:\\Temp\\setup.exe",
        "--installed-app-exe",
        "C:\\App\\tool.exe",
        "--version",
        "2.0.0",
        "--sidecar-name",
        "tool-backend",
    ]);
    let p = ShimArgs::parse(&a).unwrap();
    assert_eq!(p.installer, "C:\\Temp\\setup.exe");
    assert_eq!(p.installed_app_exe, "C:\\App\\tool.exe");
    assert_eq!(p.version, "2.0.0");
    assert_eq!(p.sidecar_name, Some("tool-backend".to_string()));
}

#[test]
fn parse_defaults_version_and_sidecar() {
    let a = args(&["shim.exe", "--installed-app-exe", "app.exe", "--installer", "setup.exe"]);
    let p = ShimArgs::parse(&a).unwrap();
    assert_eq!(p.installer, "setup.exe");
    assert_eq!(p.installed_app_exe, "app.exe");
    assert_eq!(p.version, "unknown");
    assert_eq!(p.sidecar_name, None);
}

#[test]
fn parse_missing_installer() {
    let a = args(&["shim.exe", "--installed-app-exe", "app.exe"]);
    assert_eq!(ShimArgs::parse(&a).err(), Some(ShimArgsError::MissingInstaller));
    assert_eq!(ShimArgs::parse(&args(&["shim.exe"])).err(), Some(ShimArgsError::MissingInstaller));
    // A trailing flag with no value counts as missing.
    let b = args(&["shim.exe", "--installed-app-exe", "app.exe", "--installer"]);
    assert_eq!(ShimArgs::parse(&b).err(), Some(ShimArgsError::MissingInstaller));
}

#[test]
fn parse_missing_installed_app_exe() {
    let a = args(&["shim.exe", "--installer", "setup.exe", "--version", "1.0.0"]);
    assert_eq!(ShimArgs::parse(&a).err(), Some(ShimArgsError::MissingInstalledAppExe));
}

#[test]
fn taskkill_targets_sidecar_image() {
    assert_eq!(taskkill_args("tool-backend"), vec!["/F", "/IM", "tool-backend.exe", "/T"]);
}

#[test]
fn installer_runs_silently() {
    assert_eq!(installer_run_args(), vec!["/S", "/NORESTART"]);
}

#[test]
fn relaunch_only_after_success_with_app_present() {
    assert_eq!(relaunch_check(true, true), Ok(()));
    assert_eq!(relaunch_check(false, true), Err(ShimFailure::InstallerFailed));
    assert_eq!(relaunch_check(false, false), Err(ShimFailure::InstallerFailed));
    assert_eq!(relaunch_check(true, false), Err(ShimFailure::InstalledAppMissing));
}
