use pmenu::config::{
    config_path, default_config_path, expand_tilde, load_file_config, normalize_backend_name,
    ClipboardConfig, ConfigSource, FileConfig, MenuConfig, StoreConfig,
};
use pmenu::{AppAction, AppError, CliAction, CliArgs, IoFailure, ResolvedConfig};

fn no_args() -> CliArgs {
    CliArgs {
        config: None,
        store_backend: None,
        store_path: None,
        store_identities_file: None,
        store_key_file: None,
        menu_backend: None,
        clipboard_backend: None,
        autofill_backend: None,
        clip_time: None,
        field: None,
        action: None,
        no_notify: false,
        trace: false,
    }
}

#[test]
fn cli_values_override_file_values() {
    let file = FileConfig {
        store: Some(StoreConfig {
            backend: Some("pass".to_string()),
            path: Some("~/.password-store".to_string()),
            identities_file: None,
            key_file: None,
            database_path: None,
        }),
        menu: Some(MenuConfig { backend: Some("fuzzel".to_string()) }),
        clipboard: None,
        autofill: None,
        clip_time_secs: None,
        notify: None,
    };

    let config = ResolvedConfig::load(
        CliArgs {
            config: Some("/tmp/pmenu-config.toml".to_string()),
            store_backend: None,
            store_path: None,
            store_identities_file: None,
            store_key_file: None,
            menu_backend: Some("wofi".to_string()),
            clipboard_backend: None,
            autofill_backend: None,
            clip_time: Some(12),
            field: Some("fill".to_string()),
            action: Some(CliAction::Autofill),
            no_notify: true,
            trace: false,
        },
        file,
        Some("/home/demo"),
    )
    .expect("config should load");

    assert_eq!(config.store_backend, "pass");
    assert_eq!(config.menu_backend, "wofi");
    assert_eq!(config.clip_time_secs, 12);
    assert_eq!(config.action, AppAction::Autofill);
    assert_eq!(config.field.as_deref(), Some("fill"));
    assert!(!config.notify);
    assert_eq!(config.store_path.as_deref(), Some("/home/demo/.password-store"));
}

#[test]
fn expands_tilde_paths() {
    let expanded =
        expand_tilde("~/.config/pmenu/config.toml", Some("/home/demo")).expect("path should expand");
    assert!(expanded.starts_with('/'));
    assert_eq!(expanded, "/home/demo/.config/pmenu/config.toml");
}

#[test]
fn parses_keepassxc_store_fields() {
    let file = FileConfig {
        store: Some(StoreConfig {
            backend: Some("keepassxc".to_string()),
            path: None,
            identities_file: None,
            key_file: Some("~/Passwords.keyx".to_string()),
            database_path: Some("~/Passwords.kdbx".to_string()),
        }),
        menu: None,
        clipboard: None,
        autofill: None,
        clip_time_secs: None,
        notify: None,
    };

    let config = ResolvedConfig::load(no_args(), file, Some("/home/demo")).expect("config should load");

    assert_eq!(config.store_backend, "keepassxc");
    assert!(config.store_path.is_some());
    assert!(config.store_key_file.is_some());
    assert_eq!(config.store_path.as_deref(), Some("/home/demo/Passwords.kdbx"));
    assert_eq!(config.store_key_file.as_deref(), Some("/home/demo/Passwords.keyx"));
}

#[test]
fn defaults_without_config() {
    let config = ResolvedConfig::load(no_args(), FileConfig::default(), None).unwrap();
    assert_eq!(config.store_backend, "passage");
    assert_eq!(config.menu_backend, "wofi");
    assert_eq!(config.clipboard_backend, "wl-clipboard");
    assert_eq!(config.autofill_backend, "wtype");
    assert_eq!(config.action, AppAction::Copy);
    assert_eq!(config.clip_time_secs, 45);
    assert!(config.notify);
    assert_eq!(config, ResolvedConfig::default());
}

#[test]
fn file_values_apply_when_the_command_line_is_silent() {
    let file = FileConfig {
        store: Some(StoreConfig {
            backend: Some("  PASS ".to_string()),
            path: Some("/srv/store".to_string()),
            identities_file: None,
            key_file: None,
            database_path: None,
        }),
        menu: None,
        clipboard: Some(ClipboardConfig {
            backend: Some("XClip".to_string()),
            clip_time_secs: Some(10),
        }),
        autofill: None,
        clip_time_secs: Some(30),
        notify: Some(false),
    };
    let config = ResolvedConfig::load(no_args(), file, None).unwrap();
    assert_eq!(config.store_backend, "pass");
    assert_eq!(config.store_path.as_deref(), Some("/srv/store"));
    assert_eq!(config.clipboard_backend, "xclip");
    assert_eq!(config.clip_time_secs, 30);
    assert!(!config.notify);
}

#[test]
fn tilde_without_home_is_refused() {
    let mut args = no_args();
    args.store_path = Some("~/store".to_string());
    match ResolvedConfig::load(args, FileConfig::default(), None) {
        Err(AppError::Config(message)) => assert_eq!(message, "`HOME` is not set."),
        other => panic!("unexpected result: {other:?}"),
    }
}

#[test]
fn path_join_follows_path_rules() {
    assert_eq!(expand_tilde("~", Some("/home/demo")).unwrap(), "/home/demo");
    assert_eq!(expand_tilde("~/", Some("/home/demo")).unwrap(), "/home/demo/");
    assert_eq!(expand_tilde("~/x", Some("/home/demo/")).unwrap(), "/home/demo/x");
    assert_eq!(expand_tilde("~//etc", Some("/home/demo")).unwrap(), "/etc");
    assert_eq!(expand_tilde("~user/x", None).unwrap(), "~user/x");
}

#[test]
fn default_config_path_prefers_xdg() {
    assert_eq!(
        default_config_path(Some("/xdg"), Some("/home/demo")).unwrap(),
        "/xdg/pmenu/config.toml"
    );
    assert_eq!(
        default_config_path(None, Some("/home/demo")).unwrap(),
        "/home/demo/.config/pmenu/config.toml"
    );
    assert!(default_config_path(None, None).is_err());
    assert_eq!(
        config_path(Some("~/my.toml"), Some("/xdg"), Some("/h")).unwrap(),
        "/h/my.toml"
    );
    assert!(config_path(Some("/abs.toml"), None, None).is_err());
}

#[test]
fn missing_config_file_is_an_error_only_when_requested() {
    match load_file_config("/nowhere.toml", true, ConfigSource::Missing) {
        Err(AppError::Config(message)) => {
            assert_eq!(message, "Config file not found: /nowhere.toml")
        }
        other => panic!("unexpected result: {other:?}"),
    }
    let empty = load_file_config("/nowhere.toml", false, ConfigSource::Missing).unwrap();
    assert!(empty.store.is_none() && empty.notify.is_none());
    match load_file_config("/c.toml", false, ConfigSource::Malformed("bad key".to_string())) {
        Err(AppError::Config(message)) => {
            assert_eq!(message, "Failed to parse config file /c.toml: bad key")
        }
        other => panic!("unexpected result: {other:?}"),
    }
    let failure = IoFailure { not_found: false, message: "denied".to_string() };
    assert!(matches!(
        load_file_config("/c.toml", false, ConfigSource::Unreadable(failure)),
        Err(AppError::Io(_))
    ));
}

#[test]
fn backend_names_are_normalized() {
    assert_eq!(normalize_backend_name("  Wl-Clipboard\n"), "wl-clipboard");
}

#[test]
fn database_path_wins_and_missing_sections_keep_defaults() {
    let file = FileConfig {
        store: Some(StoreConfig {
            backend: None,
            path: Some("/srv/store".to_string()),
            identities_file: None,
            key_file: None,
            database_path: Some("~/db.kdbx".to_string()),
        }),
        menu: None,
        clipboard: Some(ClipboardConfig { backend: None, clip_time_secs: Some(12) }),
        autofill: None,
        clip_time_secs: None,
        notify: None,
    };
    let config = ResolvedConfig::load(no_args(), file, Some("/home/me")).unwrap();
    assert_eq!(config.store_path.as_deref(), Some("/home/me/db.kdbx"));
    assert_eq!(config.store_backend, "passage");
    assert_eq!(config.menu_backend, "wofi");
    assert_eq!(config.clipboard_backend, "wl-clipboard");
    assert_eq!(config.clip_time_secs, 12);
    assert!(config.notify);
}

#[test]
fn config_path_and_trace_change_no_setting() {
    let mut args = no_args();
    args.config = Some("/etc/pmenu.toml".to_string());
    args.trace = true;
    let with = ResolvedConfig::load(args, FileConfig::default(), None).unwrap();
    let without = ResolvedConfig::load(no_args(), FileConfig::default(), None).unwrap();
    assert_eq!(with, without);
}
