use pmenu::backends::autofill::{self, powershell_autofill_script, AutofillKind};
use pmenu::backends::clipboard::{
    self, clear_wayland_command, clear_xclip_command, startup_outcome, ClipboardKind,
};
use pmenu::backends::menu::{self, bemenu_args, fuzzel_args, menu_outcome, wofi_args, MenuKind};
use pmenu::backends::powershell::{command_args, escape_single_quoted};
use pmenu::backends::store::{
    self, is_hidden_name, list_entries_with_extension, pass_show_args, passage_show_args,
    require_existing_store_dir, show_outcome, walk_step, StoreFile, StoreKind, WalkStep,
};
use pmenu::backends::ExitReport;
use pmenu::error::command_outcome;
use pmenu::AppError;

#[test]
fn powershell_autofill_script_uses_sendkeys_and_restores_clipboard() {
    let script = powershell_autofill_script();
    assert!(script.contains("SendKeys"));
    assert!(script.contains("Get-Clipboard"));
    assert!(script.contains("Set-Clipboard"));
}

#[test]
fn clear_commands_include_timeout() {
    assert_eq!(clear_wayland_command(12), vec!["sh", "-c", "sleep 12; wl-copy --clear"]);
    assert_eq!(
        clear_xclip_command(12),
        vec!["sh", "-c", "sleep 12; printf '' | xclip -selection clipboard"]
    );
}

#[test]
fn clear_command_writes_the_time_in_decimal() {
    assert_eq!(clear_wayland_command(0)[2], "sleep 0; wl-copy --clear");
    assert_eq!(
        clear_wayland_command(18446744073709551615)[2],
        "sleep 18446744073709551615; wl-copy --clear"
    );
}

#[test]
fn fuzzel_args_include_prompt() {
    let args = fuzzel_args("prompt", None);
    assert!(args.ends_with(&["--prompt".to_string(), "prompt".to_string()]));
}

#[test]
fn bemenu_args_include_prompt() {
    let args = bemenu_args("prompt", None);
    assert!(args.contains(&"prompt".to_string()));
}

#[test]
fn wofi_args_include_dmenu_mode() {
    let args = wofi_args("prompt", Some("example.com"));
    assert!(args.contains(&"--dmenu".to_string()));
    assert!(args.contains(&"prompt".to_string()));
    assert!(args.contains(&"--search".to_string()));
    assert!(args.contains(&"example.com".to_string()));
}

#[test]
fn wofi_skips_an_empty_search() {
    assert_eq!(
        wofi_args("p", Some("")),
        vec!["--dmenu", "--prompt", "p", "--lines", "10", "--insensitive"]
    );
}

#[test]
fn pass_show_args_are_stable() {
    assert_eq!(pass_show_args("mail/account"), vec!["show", "mail/account"]);
}

#[test]
fn passage_show_args_are_stable() {
    assert_eq!(passage_show_args("mail/account"), vec!["show", "mail/account"]);
}

fn file(dirs: &[&str], name: &str) -> StoreFile {
    StoreFile {
        dirs: dirs.iter().map(|d| d.to_string()).collect(),
        name: Some(name.to_string()),
    }
}

#[test]
fn lists_normalized_entries() {
    let files = vec![file(&["nested"], "login.age"), file(&[], "top.age")];
    let mut entries = list_entries_with_extension(&files, ".age");
    entries.sort();
    assert_eq!(entries, vec!["nested/login".to_string(), "top".to_string()]);
}

#[test]
fn skips_hidden_files_and_directories() {
    // A store holding `.hidden/login.age`, `visible/login.age` and
    // `.ignored.age`, walked as a store is walked.
    let tree = vec![
        Node::Dir(".hidden", vec![Node::File("login.age")]),
        Node::Dir("visible", vec![Node::File("login.age")]),
        Node::File(".ignored.age"),
    ];
    let mut files = Vec::new();
    walk(&tree, &[], &mut files);
    assert_eq!(files.len(), 1);
    let entries = list_entries_with_extension(&files, ".age");
    assert_eq!(entries, vec!["visible/login".to_string()]);
}

enum Node {
    Dir(&'static str, Vec<Node>),
    File(&'static str),
}

fn walk(nodes: &[Node], dirs: &[String], files: &mut Vec<StoreFile>) {
    for node in nodes {
        let (name, is_dir) = match node {
            Node::Dir(name, _) => (*name, true),
            Node::File(name) => (*name, false),
        };
        match (walk_step(Some(name), is_dir), node) {
            (WalkStep::Skip, _) => {}
            (WalkStep::Descend, Node::Dir(_, inner)) => {
                let mut path = dirs.to_vec();
                path.push(name.to_string());
                walk(inner, &path, files);
            }
            (WalkStep::Collect, Node::File(_)) => {
                files.push(StoreFile { dirs: dirs.to_vec(), name: Some(name.to_string()) })
            }
            _ => panic!("walk step does not fit the entry {name}"),
        }
    }
}

#[test]
fn walk_steps_follow_names_and_kinds() {
    assert!(is_hidden_name(Some(".hidden")));
    assert!(!is_hidden_name(None));
    assert_eq!(walk_step(Some(".git"), true), WalkStep::Skip);
    assert_eq!(walk_step(Some(".gpg-id"), false), WalkStep::Skip);
    assert_eq!(walk_step(Some("mail"), true), WalkStep::Descend);
    assert_eq!(walk_step(Some("login.gpg"), false), WalkStep::Collect);
    assert_eq!(walk_step(None, true), WalkStep::Descend);
    assert_eq!(walk_step(None, false), WalkStep::Collect);
}

#[test]
fn entries_come_out_sorted_and_filtered() {
    let files = vec![
        file(&["b"], "z.gpg"),
        file(&[], "a.gpg"),
        file(&[], "notes.txt"),
        StoreFile { dirs: Vec::new(), name: None },
        file(&["a", "b"], "c.gpg"),
        file(&["win\\dir"], "x.gpg"),
    ];
    assert_eq!(
        list_entries_with_extension(&files, ".gpg"),
        vec!["a", "a/b/c", "b/z", "win/dir/x"]
    );
}

#[test]
fn backends_are_chosen_by_name() {
    assert_eq!(menu::build("fuzzel").unwrap(), MenuKind::Fuzzel);
    assert_eq!(menu::build("bemenu").unwrap(), MenuKind::Bemenu);
    assert_eq!(menu::build("wofi").unwrap(), MenuKind::Wofi);
    assert_eq!(clipboard::build("xclip", 9).unwrap().kind, ClipboardKind::Xclip);
    assert_eq!(clipboard::build("wl-clipboard", 9).unwrap().clip_time_secs, 9);
    assert_eq!(autofill::build("wtype").unwrap(), AutofillKind::Wtype);
    assert_eq!(autofill::build("powershell-paste").unwrap(), AutofillKind::PowershellPaste);
    match menu::build("dmenu") {
        Err(AppError::Config(m)) => assert_eq!(m, "Unknown menu backend: dmenu"),
        other => panic!("unexpected result: {other:?}"),
    }
    match clipboard::build("pbcopy", 1) {
        Err(AppError::Config(m)) => assert_eq!(m, "Unknown clipboard backend: pbcopy"),
        other => panic!("unexpected result: {other:?}"),
    }
    match autofill::build("ydotool") {
        Err(AppError::Config(m)) => assert_eq!(m, "Unknown autofill backend: ydotool"),
        other => panic!("unexpected result: {other:?}"),
    }
}

#[test]
fn store_build_resolves_directories() {
    let plan = store::build("pass", None, Some("/ids".to_string()), Some("/home/demo")).unwrap();
    assert_eq!(plan.kind, StoreKind::Pass);
    assert_eq!(plan.store_dir, "/home/demo/.password-store");
    assert!(plan.identities_file.is_none());
    let plan =
        store::build("passage", Some("/srv".to_string()), Some("/ids".to_string()), Some("/h"))
            .unwrap();
    assert_eq!(plan.store_dir, "/srv");
    assert_eq!(plan.identities_file.as_deref(), Some("/ids"));
    match store::build("passage", Some("/srv".to_string()), None, None) {
        Err(AppError::Config(m)) => assert_eq!(m, "`HOME` is not set."),
        other => panic!("unexpected result: {other:?}"),
    }
    match store::build("gopass", None, None, Some("/h")) {
        Err(AppError::Config(m)) => assert_eq!(m, "Unknown store backend: gopass"),
        other => panic!("unexpected result: {other:?}"),
    }
    match require_existing_store_dir("/missing".to_string(), false) {
        Err(AppError::Config(m)) => assert_eq!(m, "Password store not found: /missing"),
        other => panic!("unexpected result: {other:?}"),
    }
    assert_eq!(require_existing_store_dir("/ok".to_string(), true).unwrap(), "/ok");
}

#[test]
fn show_failures_name_the_command() {
    let failed = ExitReport { success: false, code: Some(2) };
    match show_outcome(StoreKind::Passage, "mail/x", failed, b"", b"no key") {
        Err(AppError::CommandFailed { command, code, stderr }) => {
            assert_eq!(command, "passage show mail/x");
            assert_eq!(code, Some(2));
            assert_eq!(stderr, "no key");
        }
        other => panic!("unexpected result: {other:?}"),
    }
    let ok = ExitReport { success: true, code: Some(0) };
    let entry = show_outcome(StoreKind::Pass, "x", ok, b"pw\nuser: me\n", b"").unwrap();
    assert_eq!(entry.password, "pw");
}

#[test]
fn menu_runs_are_interpreted() {
    let args = vec!["--dmenu".to_string()];
    let ok = ExitReport { success: true, code: Some(0) };
    assert_eq!(menu_outcome("wofi", &args, ok, b"  choice \n", b"").unwrap().as_deref(), Some("choice"));
    assert_eq!(menu_outcome("wofi", &args, ok, b" \n", b"").unwrap(), None);
    let cancelled = ExitReport { success: false, code: Some(130) };
    assert_eq!(menu_outcome("wofi", &args, cancelled, b"", b"").unwrap(), None);
    let failed = ExitReport { success: false, code: Some(1) };
    match menu_outcome("wofi", &args, failed, b"partial", b"boom") {
        Err(AppError::CommandFailed { command, code, stderr }) => {
            assert_eq!(command, "wofi --dmenu");
            assert_eq!(code, Some(1));
            assert_eq!(stderr, "boom");
        }
        other => panic!("unexpected result: {other:?}"),
    }
}

#[test]
fn program_output_is_read_as_lossy_utf8() {
    let args = vec!["--dmenu".to_string()];
    let ok = ExitReport { success: true, code: Some(0) };
    assert_eq!(
        menu_outcome("fuzzel", &args, ok, b" caf\xc3\xa9 \n", b"").unwrap().as_deref(),
        Some("caf\u{e9}")
    );
    assert_eq!(
        menu_outcome("fuzzel", &args, ok, b"a\xffb\n", b"").unwrap().as_deref(),
        Some("a\u{fffd}b")
    );
    let entry = show_outcome(StoreKind::Pass, "x", ok, b"p\xfe\nurl: x\n", b"").unwrap();
    assert_eq!(entry.password, "p\u{fffd}");
    match command_outcome("wtype".to_string(), false, Some(1), b"bad \xc3") {
        Err(AppError::CommandFailed { command, code, stderr }) => {
            assert_eq!(command, "wtype");
            assert_eq!(code, Some(1));
            assert_eq!(stderr, "bad \u{fffd}");
        }
        other => panic!("unexpected result: {other:?}"),
    }
    assert!(command_outcome("wtype".to_string(), true, Some(0), b"ignored").is_ok());
}

#[test]
fn copy_start_is_interpreted() {
    let args = vec!["-selection".to_string(), "clipboard".to_string()];
    assert!(startup_outcome("xclip", &args, None).is_ok());
    assert!(startup_outcome("xclip", &args, Some(ExitReport { success: true, code: Some(0) })).is_ok());
    match startup_outcome("wl-copy", &[], Some(ExitReport { success: false, code: None })) {
        Err(AppError::CommandFailed { command, code, stderr }) => {
            assert_eq!(command, "wl-copy");
            assert_eq!(code, None);
            assert!(stderr.is_empty());
        }
        other => panic!("unexpected result: {other:?}"),
    }
}

#[test]
fn escaping_can_be_undone() {
    for value in ["", "plain", "it's", "''", "a'''b", "'edge'"] {
        let escaped = escape_single_quoted(value);
        assert_eq!(escaped.replace("''", "'"), value);
        assert_eq!(escaped.len(), value.len() + value.matches('\'').count());
    }
    assert_eq!(escape_single_quoted("a'''b"), "a''''''b");
}

#[test]
fn powershell_helpers() {
    assert_eq!(escape_single_quoted("it's 'x'"), "it''s ''x''");
    assert_eq!(
        command_args("Get-Date"),
        vec!["-NoLogo", "-NoProfile", "-NonInteractive", "-Command", "Get-Date"]
    );
}
