use busylib::logger::{
    change_debug, log_path, logger_config, record_passes, LogHandle, Severity,
};

#[test]
fn test_get_log_path() {
    let log_path_default = log_path(None, None, false, "/tmp");
    assert_eq!(log_path_default.as_str(), "/opt/logs/apps/");

    let log_path_from_param = log_path(Some("/a/b/c"), None, false, "/tmp");
    assert_eq!(log_path_from_param.as_str(), "/a/b/c");

    let log_path_from_env = log_path(None, Some("/xx/xx".to_string()), false, "/tmp");
    assert_eq!(log_path_from_env.as_str(), "/xx/xx");
}

#[test]
fn explicit_path_beats_environment_value() {
    let resolved = log_path(Some("/a/b/c"), Some("/xx/xx".to_string()), false, "/tmp");
    assert_eq!(resolved.as_str(), "/a/b/c");
}

#[test]
fn dev_mode_resolves_to_temporary_directory() {
    let resolved = log_path(Some("/a/b/c"), Some("/xx/xx".to_string()), true, "/var/tmp");
    assert_eq!(resolved.as_str(), "/var/tmp");
}

#[test]
fn explicit_path_is_trimmed() {
    let resolved = log_path(Some("  /a/b/c\t"), None, false, "/tmp");
    assert_eq!(resolved.as_str(), "/a/b/c");
}

#[test]
fn threshold_change_admits_debug_records() {
    let targets = vec!["busylib".to_string()];
    let target = "busylib".to_string();
    let mut handle = LogHandle::new(false);

    assert!(!record_passes(&targets, &handle, &target, Severity::Debug));
    assert!(record_passes(&targets, &handle, &target, Severity::Info));

    assert!(change_debug(&mut handle, true));
    assert!(record_passes(&targets, &handle, &target, Severity::Debug));

    assert!(change_debug(&mut handle, false));
    assert!(!record_passes(&targets, &handle, &target, Severity::Debug));
}

#[test]
fn records_with_unmatched_tags_are_dropped() {
    let targets = vec!["busylib".to_string(), "hyper".to_string()];
    let handle = LogHandle::new(true);
    assert!(record_passes(&targets, &handle, &"hyper".to_string(), Severity::Debug));
    assert!(!record_passes(&targets, &handle, &"other".to_string(), Severity::Info));
}

#[test]
fn logger_config_names_file_after_binary() {
    let cfg = logger_config(
        "busylib",
        &vec!["busylib".to_string()],
        false,
        Some("./".to_string()),
        false,
        "/tmp",
    );
    assert_eq!(cfg.file_name.as_str(), "busylib.log");
    assert_eq!(cfg.directory.as_str(), "./");
    assert_eq!(cfg.threshold, Severity::Info);
    assert_eq!(cfg.targets, vec!["busylib".to_string(), "busylib".to_string()]);
}

#[test]
fn logger_config_resolves_directory_when_none_given() {
    let cfg = logger_config("app", &vec![], true, None, false, "/tmp");
    assert_eq!(cfg.directory.as_str(), "/opt/logs/apps/");
    assert_eq!(cfg.file_name.as_str(), "app.log");
    assert_eq!(cfg.threshold, Severity::Debug);
    assert_eq!(cfg.targets, vec!["app".to_string()]);
}
