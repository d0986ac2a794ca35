use desktop_toolkit::splash::{
    force_fresh_requested, is_first_launch, plan_first_launch, sentinel_path, splash_data_dir,
    LaunchPlan, SplashState, StatusKind, StatusPayload,
};

#[test]
fn splash_state_keeps_its_flag() {
    assert!(SplashState::new(true).first_run());
    assert!(!SplashState::new(false).first_run());
}

#[test]
fn status_payload_fields() {
    let p = StatusPayload::new("backend", "Starting backend service", StatusKind::Pending);
    assert_eq!(p.phase, "backend");
    assert_eq!(p.message, "Starting backend service");
    assert_eq!(p.kind, StatusKind::Pending);
}

#[test]
fn force_fresh_values() {
    for v in ["1", "true", "TRUE", "True", "yes", "YES", "yEs"] {
        assert!(force_fresh_requested(v), "{v}");
    }
    for v in ["0", "false", "no", "", "y", "on", " yes", "1 "] {
        assert!(!force_fresh_requested(v), "{v}");
    }
}

#[test]
fn data_dir_per_platform() {
    assert_eq!(
        splash_data_dir(true, Some("C:\\Users\\me\\AppData\\Roaming".to_string()), Some("/home/me".to_string())),
        Some("C:\\Users\\me\\AppData\\Roaming".to_string())
    );
    assert_eq!(splash_data_dir(true, None, Some("/home/me".to_string())), None);
    assert_eq!(
        splash_data_dir(false, Some("X".to_string()), Some("/home/me".to_string())),
        Some("/home/me/.local/share".to_string())
    );
    assert_eq!(splash_data_dir(false, Some("X".to_string()), None), None);
}

#[test]
fn plan_forced_fresh() {
    assert_eq!(
        plan_first_launch(Some("Yes".to_string()), Some("/data".to_string())),
        LaunchPlan::FirstRun
    );
}

#[test]
fn plan_without_usable_directory() {
    assert_eq!(plan_first_launch(None, None), LaunchPlan::FirstRun);
    assert_eq!(plan_first_launch(None, Some(String::new())), LaunchPlan::FirstRun);
    assert_eq!(plan_first_launch(Some("no".to_string()), Some(String::new())), LaunchPlan::FirstRun);
}

#[test]
fn plan_checks_sentinel() {
    assert_eq!(
        plan_first_launch(None, Some("/data".to_string())),
        LaunchPlan::CheckSentinel("/data".to_string())
    );
    assert_eq!(
        plan_first_launch(Some("0".to_string()), Some("/data".to_string())),
        LaunchPlan::CheckSentinel("/data".to_string())
    );
}

#[test]
fn sentinel_location() {
    assert_eq!(
        sentinel_path("/home/me/.local/share", "my-tool"),
        vec!["/home/me/.local/share", "my-tool", "splash-seen.json"]
    );
}

#[test]
fn first_launch_of_a_version() {
    assert!(is_first_launch(None, "2.2.5"));
    assert!(is_first_launch(Some("2.2.4".to_string()), "2.2.5"));
    assert!(!is_first_launch(Some("2.2.5".to_string()), "2.2.5"));
}

#[test]
fn recorded_version_makes_next_launch_short() {
    // First launch: no sentinel, so full animation, and the current version is recorded.
    let current = "3.0.0";
    assert!(is_first_launch(None, current));
    let recorded = Some(current.to_string());
    // Next launch of the same version: short animation.
    assert!(!is_first_launch(recorded.clone(), current));
    // Launch after an update: full animation again.
    assert!(is_first_launch(recorded, "3.0.1"));
}
