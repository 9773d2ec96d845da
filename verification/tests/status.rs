use std::str::FromStr;
use tillers::error_recovery::{
    calculate_backoff_delay, classify_error, AttemptOutcome, ErrorRecoveryManager, HealthStatus,
    OperationError, RecoverableError, RecoveryConfig, RetryAction,
};
use tillers::lifecycle::{determine_operation_mode, starts_system_tray, LifecycleConfig, OperationMode};
use tillers::logging::{create_filter_directives, log_target, LogConfig, LogFormat, LogLevel, LogOutput, LogTarget};
use tillers::permissions::{PermissionChecker, PermissionConfig, PermissionStatus, PermissionType};
use tillers::ui::system_tray::{
    determine_tray_status, tray_title, tray_visibility, SystemTrayConfig, SystemTrayManager, TrayStatus,
};
use tillers::TilleRSError;

fn now_millis() -> i64 {
    chrono::Utc::now().timestamp_millis()
}

#[test]
fn test_health_status() {
    let healthy_status = HealthStatus {
        permissions_granted: true,
        active_circuit_breakers: vec![],
        last_permission_check: Some(now_millis()),
    };

    assert!(healthy_status.is_healthy());
    assert!(healthy_status.description().contains("healthy"));

    let unhealthy_status = HealthStatus {
        permissions_granted: false,
        active_circuit_breakers: vec!["window_manager".to_string()],
        last_permission_check: Some(now_millis()),
    };

    assert!(!unhealthy_status.is_healthy());
    assert!(unhealthy_status.description().contains("issues"));
}

#[test]
fn health_description_lists_the_issues() {
    let status = HealthStatus {
        permissions_granted: false,
        active_circuit_breakers: vec!["a".to_string(), "b".to_string()],
        last_permission_check: None,
    };
    assert_eq!(
        status.description(),
        "System issues: Missing required permissions, Circuit breakers active: a, b"
    );
}

#[test]
fn test_backoff_calculation() {
    let config = RecoveryConfig::default();

    let delay1 = calculate_backoff_delay(&config, 0);
    let delay2 = calculate_backoff_delay(&config, 1);
    let delay3 = calculate_backoff_delay(&config, 2);

    assert!(delay2 > delay1);
    assert!(delay3 > delay2);
    assert!(delay3 <= config.max_retry_delay);
}

#[test]
fn backoff_doubles_then_caps() {
    let config = RecoveryConfig::default();
    assert_eq!(calculate_backoff_delay(&config, 0), 100);
    assert_eq!(calculate_backoff_delay(&config, 3), 800);
    assert_eq!(calculate_backoff_delay(&config, 6), 5000);
}

#[test]
fn test_error_classification() {
    let permission_error = TilleRSError::PermissionDenied("Accessibility permission required".to_string());
    let classified = classify_error(&permission_error);

    match classified {
        Some(RecoverableError::PermissionDenied(PermissionType::Accessibility)) => (),
        _ => panic!("Expected accessibility permission error"),
    }
}

#[test]
fn api_errors_are_classified_by_their_message() {
    assert_eq!(
        classify_error(&TilleRSError::MacOSAPIError("request timeout".to_string())),
        Some(RecoverableError::ApiUnavailable)
    );
    assert_eq!(
        classify_error(&TilleRSError::MacOSAPIError("system busy".to_string())),
        Some(RecoverableError::SystemOverloaded)
    );
    assert_eq!(classify_error(&TilleRSError::ValidationError("x".to_string())), None);
}

#[test]
fn test_recovery_manager_creation() {
    let manager = ErrorRecoveryManager::new(RecoveryConfig::default(), PermissionChecker::new(PermissionConfig::default()));
    let health = manager.get_health_status(true);
    assert!(health.active_circuit_breakers.is_empty());
}

#[test]
fn circuit_opens_after_threshold_failures() {
    let mut manager = ErrorRecoveryManager::new(RecoveryConfig::default(), PermissionChecker::new(PermissionConfig::default()));
    let t = 1_000_000;
    for _ in 0..4 {
        manager.record_failure("move", t);
    }
    assert!(!manager.is_circuit_open("move", t));
    manager.record_failure("move", t);
    assert!(manager.is_circuit_open("move", t));
    assert_eq!(manager.active_breakers(), vec!["move".to_string()]);
    manager.reset_circuit_breaker("move");
    assert!(!manager.is_circuit_open("move", t));
}

#[test]
fn retry_run_backs_off_then_succeeds() {
    let mut manager = ErrorRecoveryManager::new(RecoveryConfig::default(), PermissionChecker::new(PermissionConfig::default()));
    let t = 5_000;
    let mut run = manager.recover_and_retry("list", t).unwrap();
    assert!(matches!(manager.resume(&mut run), RetryAction::Attempt));
    let failure = AttemptOutcome::Failed(OperationError::Known(TilleRSError::MacOSAPIError("service unavailable".to_string())));
    match manager.on_outcome(&mut run, failure, t) {
        RetryAction::Sleep { millis } => assert_eq!(millis, 100),
        other => panic!("unexpected: {:?}", other),
    }
    assert_eq!(run.attempt, 1);
    assert!(matches!(manager.resume(&mut run), RetryAction::Attempt));
    assert!(matches!(manager.on_outcome(&mut run, AttemptOutcome::Succeeded, t), RetryAction::Succeed));
}

#[test]
fn test_lifecycle_config() {
    let config = LifecycleConfig::default();
    assert!(config.start_in_background);
    assert!(config.show_system_tray);
    assert_eq!(config.shutdown_timeout_secs, 30);
}

fn args(list: &[&str]) -> Vec<String> {
    list.iter().map(|s| s.to_string()).collect()
}

#[test]
fn test_operation_mode_determination() {
    assert_eq!(determine_operation_mode(&args(&["tillers", "workspace", "list"])), OperationMode::Cli);
    assert_eq!(determine_operation_mode(&args(&["tillers"])), OperationMode::Daemon);
    assert_eq!(determine_operation_mode(&args(&["tillers", "--daemon"])), OperationMode::Daemon);
    assert_eq!(determine_operation_mode(&args(&["tillers", "-d"])), OperationMode::Daemon);
    assert_eq!(determine_operation_mode(&args(&["tillers", "--service"])), OperationMode::Service);
    assert_eq!(determine_operation_mode(&args(&["tillers", "--verbose"])), OperationMode::Cli);
}

#[test]
fn system_tray_starts_outside_cli_mode() {
    let config = LifecycleConfig::default();
    assert!(starts_system_tray(&config, OperationMode::Daemon));
    assert!(!starts_system_tray(&config, OperationMode::Cli));
}

#[test]
fn test_log_level_parsing() {
    assert_eq!(LogLevel::from_str("info").unwrap(), LogLevel::Info);
    assert_eq!(LogLevel::from_str("DEBUG").unwrap(), LogLevel::Debug);
    assert!(LogLevel::from_str("invalid").is_err());
}

#[test]
fn test_log_format_parsing() {
    assert_eq!(LogFormat::from_str("json").unwrap(), LogFormat::Json);
    assert_eq!(LogFormat::from_str("PRETTY").unwrap(), LogFormat::Pretty);
    assert!(LogFormat::from_str("invalid").is_err());
}

#[test]
fn test_config_presets() {
    let dev_config = LogConfig::development();
    assert_eq!(dev_config.level, LogLevel::Debug);
    assert_eq!(dev_config.format, LogFormat::Pretty);
    assert!(dev_config.performance_tracing);

    let prod_config = LogConfig::production();
    assert_eq!(prod_config.level, LogLevel::Warn);
    assert_eq!(prod_config.format, LogFormat::Json);
    assert!(!prod_config.performance_tracing);
}

#[test]
fn test_filter_creation() {
    let config = LogConfig::default();
    assert_eq!(create_filter_directives(&config), "tillers=info");
    let dev = LogConfig::development();
    assert_eq!(
        create_filter_directives(&dev),
        "tillers=debug,tillers::services::workspace_manager=trace,tillers::services::window_manager=trace,tillers::services::tiling_engine=trace"
    );
}

#[test]
fn log_settings_from_the_environment() {
    let config = LogConfig::from_env(Some("ERROR"), Some("bogus"), Some("file"), Some("/tmp/t.log"), Some("True"), None);
    assert_eq!(config.level, LogLevel::Error);
    assert_eq!(config.format, LogFormat::Pretty);
    assert_eq!(config.output, LogOutput::File);
    assert!(config.include_source);
    match log_target(&config) {
        Ok(LogTarget::File(p)) => assert_eq!(p, "/tmp/t.log"),
        other => panic!("unexpected: {:?}", other),
    }
    let no_path = LogConfig { output: LogOutput::File, file_path: None, ..LogConfig::default() };
    assert_eq!(log_target(&no_path).err(), Some("File path required for file output".to_string()));
}

#[test]
fn test_permission_instructions() {
    let config = PermissionConfig::default();
    let checker = PermissionChecker::new(config);

    let instructions = checker.get_permission_instructions(&PermissionType::Accessibility);
    assert!(instructions.contains("Accessibility"));
    assert!(instructions.contains("System Preferences"));
}

#[test]
fn test_permission_summary() {
    let checker = PermissionChecker::new(PermissionConfig::default());
    let statuses = vec![
        (PermissionType::Accessibility, PermissionStatus::Granted),
        (PermissionType::InputMonitoring, PermissionStatus::Denied),
        (PermissionType::ScreenRecording, PermissionStatus::Denied),
    ];
    let summary = checker.get_permission_summary(&statuses);
    assert!(!summary.all_required_granted);
    assert!(!summary.can_function);
    assert_eq!(summary.required_granted, 1);
    assert_eq!(summary.required_total, 2);
    assert_eq!(summary.description(), "Missing permissions (1/2 required granted)");
    assert_eq!(summary.missing_required_permissions(), vec![PermissionType::InputMonitoring]);
}

#[test]
fn test_tray_status_icons() {
    assert_eq!(TrayStatus::Healthy.icon_char(), "✓");
    assert_eq!(TrayStatus::PermissionsRequired.icon_char(), "⚠");
    assert_eq!(TrayStatus::Degraded.icon_char(), "⚡");
    assert_eq!(TrayStatus::Error.icon_char(), "✗");
}

#[test]
fn test_tray_status_descriptions() {
    assert!(TrayStatus::Healthy.description().contains("running normally"));
    assert!(TrayStatus::PermissionsRequired.description().contains("Permissions"));
    assert!(TrayStatus::Degraded.description().contains("limited"));
    assert!(TrayStatus::Error.description().contains("errors"));
}

#[test]
fn test_system_tray_config() {
    let config = SystemTrayConfig::default();
    assert!(config.show_icon);
    assert!(config.show_workspace_count);
    assert_eq!(config.update_interval_secs, 5);
}

#[test]
fn test_system_tray_manager_creation() {
    let tray_manager = SystemTrayManager::new(SystemTrayConfig::default());
    assert_eq!(tray_manager.current_status, TrayStatus::Healthy);
    assert!(!tray_manager.installed);
}

#[test]
fn tray_follows_health() {
    let config = SystemTrayConfig::default();
    let degraded = HealthStatus {
        permissions_granted: true,
        active_circuit_breakers: vec!["x".to_string()],
        last_permission_check: None,
    };
    let status = determine_tray_status(&degraded);
    assert_eq!(status, TrayStatus::Degraded);
    assert_eq!(tray_title(&config, status, 3), "⚡ TilleRS (3)");
    assert_eq!(tray_visibility(&config, status), None);
    let hiding = SystemTrayConfig { auto_hide_when_healthy: true, ..SystemTrayConfig::default() };
    assert_eq!(tray_visibility(&hiding, TrayStatus::Healthy), Some(false));
}

fn failing_run(manager: &mut ErrorRecoveryManager, t: i64) -> usize {
    let mut run = manager.recover_and_retry("op", t).unwrap();
    let mut attempts = 0;
    loop {
        match manager.resume(&mut run) {
            RetryAction::Attempt => {}
            RetryAction::Fail { .. } => return attempts,
            other => panic!("unexpected: {:?}", other),
        }
        attempts += 1;
        let failure = AttemptOutcome::Failed(OperationError::Known(TilleRSError::ValidationError("bad".to_string())));
        match manager.on_outcome(&mut run, failure, t) {
            RetryAction::Sleep { .. } => {}
            RetryAction::Fail { .. } => return attempts,
            other => panic!("unexpected: {:?}", other),
        }
    }
}

#[test]
fn failed_runs_open_the_breaker_for_the_next_run() {
    let mut manager = ErrorRecoveryManager::new(RecoveryConfig::default(), PermissionChecker::new(PermissionConfig::default()));
    let t = 2_000_000;
    assert_eq!(failing_run(&mut manager, t), 4);
    assert_eq!(failing_run(&mut manager, t + 10), 4);
    match manager.recover_and_retry("op", t + 20) {
        Err(e) => assert_eq!(e.message(), "macOS API error: Circuit breaker open for op"),
        Ok(_) => panic!("the breaker should block"),
    }
    assert!(manager.recover_and_retry("op", t + 10 + 60_000).is_ok());
}

#[test]
fn repeated_permissions_are_checked_once() {
    let config = PermissionConfig {
        check_interval: 1000,
        auto_prompt: false,
        required_permissions: vec![PermissionType::Accessibility, PermissionType::Accessibility],
        optional_permissions: vec![PermissionType::ScreenRecording, PermissionType::Accessibility],
    };
    let checker = PermissionChecker::new(config);
    assert_eq!(
        checker.permissions_to_check(),
        vec![PermissionType::Accessibility, PermissionType::ScreenRecording]
    );
}

#[test]
fn missing_required_permissions_are_listed_once() {
    let checker = PermissionChecker::new(PermissionConfig::default());
    let statuses = vec![
        (PermissionType::Accessibility, PermissionStatus::Denied),
        (PermissionType::InputMonitoring, PermissionStatus::NotRequested),
        (PermissionType::ScreenRecording, PermissionStatus::Denied),
    ];
    let summary = checker.get_permission_summary(&statuses);
    assert_eq!(
        summary.missing_required_permissions(),
        vec![PermissionType::Accessibility, PermissionType::InputMonitoring]
    );
}
