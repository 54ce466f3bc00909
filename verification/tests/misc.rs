use pmenu::logging::{crate_trace_directive, log_filter, LogFilter};
use pmenu::plan::{delivery_backends, plan_run};
use pmenu::error::command_error;
use pmenu::{AppAction, AppError, IoFailure, Notifier, ResolvedConfig};

#[test]
fn error_messages() {
    let missing = AppError::CommandMissing("wofi".to_string());
    assert_eq!(missing.message(), "Missing required command: wofi");
    let failed = AppError::CommandFailed {
        command: "pass show x".to_string(),
        code: Some(-2),
        stderr: "  gpg failed \n".to_string(),
    };
    assert_eq!(failed.message(), "Command `pass show x` failed with exit code Some(-2): gpg failed");
    let quiet = AppError::CommandFailed { command: "wtype <value>".to_string(), code: None, stderr: " ".to_string() };
    assert_eq!(quiet.message(), "Command `wtype <value>` failed with exit code None");
    let min = AppError::CommandFailed { command: "x".to_string(), code: Some(i32::MIN), stderr: String::new() };
    assert_eq!(min.message(), "Command `x` failed with exit code Some(-2147483648)");
    assert_eq!(AppError::Config("bad".to_string()).message(), "bad");
    assert_eq!(AppError::InvalidEntry("worse".to_string()).message(), "worse");
    let io = AppError::Io(IoFailure { not_found: false, message: "denied".to_string() });
    assert_eq!(io.message(), "denied");
}

#[test]
fn start_failures_become_missing_commands() {
    let gone = IoFailure { not_found: true, message: "No such file".to_string() };
    assert!(matches!(command_error("wl-copy", gone), AppError::CommandMissing(p) if p == "wl-copy"));
    let denied = IoFailure { not_found: false, message: "denied".to_string() };
    assert!(matches!(command_error("wl-copy", denied), AppError::Io(_)));
}

#[test]
fn notifications() {
    assert_eq!(Notifier::new(false).notification_args("Copied", "password"), None);
    assert_eq!(
        Notifier::new(true).notification_args("Copied", "password").unwrap(),
        vec!["Pmenu", "󰌆 Copied password!", "-t", "2000"]
    );
}

#[test]
fn log_filters() {
    assert_eq!(log_filter(false, false), LogFilter::Off);
    assert_eq!(log_filter(true, false), LogFilter::CrateTrace);
    assert_eq!(log_filter(false, true), LogFilter::FromEnvironment);
    assert_eq!(crate_trace_directive(), "pmenu=trace");
}

#[test]
fn only_the_configured_delivery_backend_is_built() {
    let mut config = ResolvedConfig::default();
    config.autofill_backend = "unknown".to_string();
    let plan = delivery_backends(&config).unwrap();
    assert!(plan.clipboard.is_some() && plan.autofill.is_none());
    config.action = AppAction::Autofill;
    assert!(delivery_backends(&config).is_err());
    config.autofill_backend = "wtype".to_string();
    config.clipboard_backend = "unknown".to_string();
    let plan = delivery_backends(&config).unwrap();
    assert!(plan.clipboard.is_none() && plan.autofill.is_some());
}

#[test]
fn run_plan_reports_the_first_missing_backend() {
    let mut config = ResolvedConfig::default();
    config.menu_backend = "dmenu".to_string();
    config.store_backend = "gopass".to_string();
    match plan_run(&config, Some("/h"), |_| true) {
        Err(AppError::Config(m)) => assert_eq!(m, "Unknown menu backend: dmenu"),
        other => panic!("unexpected result: {other:?}"),
    }
    config.menu_backend = "wofi".to_string();
    match plan_run(&config, Some("/h"), |_| true) {
        Err(AppError::Config(m)) => assert_eq!(m, "Unknown store backend: gopass"),
        other => panic!("unexpected result: {other:?}"),
    }
    config.store_backend = "passage".to_string();
    config.clipboard_backend = "pbcopy".to_string();
    match plan_run(&config, Some("/h"), |_| false) {
        Err(AppError::Config(m)) => assert_eq!(m, "Password store not found: /h/.passage/store"),
        other => panic!("unexpected result: {other:?}"),
    }
    match plan_run(&config, Some("/h"), |_| true) {
        Err(AppError::Config(m)) => assert_eq!(m, "Unknown clipboard backend: pbcopy"),
        other => panic!("unexpected result: {other:?}"),
    }
    config.clipboard_backend = "xclip".to_string();
    let plan = plan_run(&config, Some("/h"), |dir| dir == "/h/.passage/store").unwrap();
    assert_eq!(plan.store.store_dir, "/h/.passage/store");
    assert!(plan.delivery.clipboard.is_some());
}
