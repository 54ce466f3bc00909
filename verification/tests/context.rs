use std::cell::Cell;

use pmenu::context::{
    clipboard_snapshot_kind, desktop_session, focused_sway_class, host_query, hyprland_class,
    initial_query, qutebrowser_query_with, window_class_of, window_query, ClipboardSnapshot,
    ClipboardSnapshotKind, DesktopSession, JsonValue, WindowQuery,
};

#[test]
fn extracts_host_query_from_url() {
    assert_eq!(host_query("https://www.example.com/login?q=1"), Some("example.com".to_string()));
    assert_eq!(host_query("example.org/path"), Some("example.org".to_string()));
}

#[test]
fn host_query_strips_user_port_and_repeated_www() {
    assert_eq!(host_query("  ftp://me:pw@www.www.host.net:21/x "), Some("host.net".to_string()));
    assert_eq!(host_query("   "), None);
    assert_eq!(host_query("https:///path"), None);
}

fn text(s: &str) -> JsonValue {
    JsonValue::Text(s.to_string())
}

fn object(members: Vec<(&str, JsonValue)>) -> JsonValue {
    JsonValue::Object(members.into_iter().map(|(k, v)| (k.to_string(), v)).collect())
}

fn leaf(focused: bool, class: Option<&str>, app_id: Option<&str>) -> JsonValue {
    let mut members = vec![("focused", JsonValue::Bool(focused))];
    if let Some(class) = class {
        members.push(("window_properties", object(vec![("class", text(class))])));
    }
    if let Some(app_id) = app_id {
        members.push(("app_id", text(app_id)));
    }
    object(members)
}

#[test]
fn finds_focused_sway_window_class() {
    let tree = object(vec![
        ("focused", JsonValue::Bool(false)),
        (
            "nodes",
            JsonValue::Array(vec![object(vec![
                ("focused", JsonValue::Bool(true)),
                ("window_properties", object(vec![("class", text("qutebrowser"))])),
            ])]),
        ),
    ]);

    assert_eq!(focused_sway_class(&tree), Some("qutebrowser".to_string()));
}

#[test]
fn sway_class_falls_back_to_app_id_and_floating_nodes() {
    let tree = object(vec![
        ("focused", JsonValue::Bool(false)),
        (
            "nodes",
            JsonValue::Array(vec![leaf(false, Some("other"), None), leaf(true, None, None)]),
        ),
        ("floating_nodes", JsonValue::Array(vec![leaf(true, None, Some("foot"))])),
    ]);
    assert_eq!(focused_sway_class(&tree), Some("foot".to_string()));
    assert_eq!(focused_sway_class(&leaf(false, Some("x"), None)), None);
}

#[test]
fn sway_class_ignores_children_that_are_not_arrays() {
    let tree = object(vec![
        ("nodes", JsonValue::Number),
        ("floating_nodes", JsonValue::Array(vec![leaf(true, Some("mpv"), Some("ignored"))])),
    ]);
    assert_eq!(focused_sway_class(&tree), Some("mpv".to_string()));
    assert_eq!(focused_sway_class(&JsonValue::Null), None);
}

#[test]
fn hyprland_class_reads_the_class_member() {
    assert_eq!(hyprland_class(&object(vec![("class", text("steam"))])), Some("steam".to_string()));
    assert_eq!(hyprland_class(&object(vec![("class", JsonValue::Number)])), None);
    assert_eq!(hyprland_class(&text("class")), None);
}

#[test]
fn window_class_of_parses_the_desktop_answer() {
    let hypr = br#"{"address":"0x1","class":"discord","pid":42,"floating":false}"#;
    assert_eq!(
        window_class_of(DesktopSession::Hyprland, hypr),
        Some("discord".to_string())
    );
    let sway = br#"{"focused":false,"nodes":[{"focused":false,"nodes":[]},
        {"focused":true,"app_id":null,"window_properties":{"class":"qutebrowser"}}],
        "floating_nodes":[]}"#;
    assert_eq!(window_class_of(DesktopSession::Sway, sway), Some("qutebrowser".to_string()));
    assert_eq!(window_class_of(DesktopSession::Sway, hypr), None);
    assert_eq!(window_class_of(DesktopSession::Hyprland, b"not json"), None);
    assert_eq!(window_class_of(DesktopSession::Hyprland, b"[1, 2]"), None);
}

#[test]
fn detects_empty_wayland_clipboard_snapshot() {
    assert_eq!(clipboard_snapshot_kind(""), Some(ClipboardSnapshotKind::Empty));
}

#[test]
fn detects_text_wayland_clipboard_snapshot() {
    assert_eq!(
        clipboard_snapshot_kind("image/png\ntext/plain;charset=utf-8\n"),
        Some(ClipboardSnapshotKind::Text("text/plain;charset=utf-8".to_string()))
    );
}

#[test]
fn prefers_plain_text_over_other_text_types() {
    assert_eq!(
        clipboard_snapshot_kind("text/html\ntext/plain\n"),
        Some(ClipboardSnapshotKind::Text("text/plain".to_string()))
    );
}

#[test]
fn other_text_types_and_non_text_clipboards() {
    assert_eq!(
        clipboard_snapshot_kind("image/png\n  text/html \n"),
        Some(ClipboardSnapshotKind::Text("text/html".to_string()))
    );
    assert_eq!(clipboard_snapshot_kind("image/png\n"), None);
    assert_eq!(clipboard_snapshot_kind(" \n\n"), Some(ClipboardSnapshotKind::Empty));
}

#[test]
fn qutebrowser_query_skips_probe_when_clipboard_snapshot_fails() {
    let yanked = Cell::new(false);
    let restored = Cell::new(false);

    let result = qutebrowser_query_with(
        || None,
        || {
            yanked.set(true);
            true
        },
        || Some(b"https://example.com".to_vec()),
        |_| {
            restored.set(true);
            true
        },
    );

    assert_eq!(result, None);
    assert!(!yanked.get());
    assert!(!restored.get());
}

#[test]
fn qutebrowser_query_restores_empty_clipboard_before_returning_url() {
    let restored = Cell::new(false);

    let result = qutebrowser_query_with(
        || Some(ClipboardSnapshot::Empty),
        || true,
        || Some(b"https://www.example.com/login".to_vec()),
        |_| {
            restored.set(true);
            true
        },
    );

    assert_eq!(result, Some("example.com".to_string()));
    assert!(restored.get());
}

#[test]
fn qutebrowser_query_restores_text_clipboard_before_returning_url() {
    let restored = Cell::new(false);

    let result = qutebrowser_query_with(
        || {
            Some(ClipboardSnapshot::Text {
                mime_type: "text/plain;charset=utf-8".to_string(),
                contents: b"keep me".to_vec(),
            })
        },
        || true,
        || Some(b"https://example.org/account".to_vec()),
        |_| {
            restored.set(true);
            true
        },
    );

    assert_eq!(result, Some("example.org".to_string()));
    assert!(restored.get());
}

#[test]
fn qutebrowser_query_decodes_bytes_lossily() {
    let result = qutebrowser_query_with(
        || Some(ClipboardSnapshot::Empty),
        || true,
        || Some(b"https://ex\xffample.com/".to_vec()),
        |_| true,
    );
    assert_eq!(result, Some("ex\u{FFFD}ample.com".to_string()));
    let result = qutebrowser_query_with(
        || Some(ClipboardSnapshot::Empty),
        || true,
        || Some("https://bücher.de/x".as_bytes().to_vec()),
        |_| true,
    );
    assert_eq!(result, Some("bücher.de".to_string()));
}

#[test]
fn qutebrowser_query_is_nothing_when_restore_fails() {
    let read = Cell::new(false);
    let result = qutebrowser_query_with(
        || Some(ClipboardSnapshot::Empty),
        || false,
        || {
            read.set(true);
            Some(b"https://example.org".to_vec())
        },
        |_| false,
    );
    assert_eq!(result, None);
    assert!(!read.get());
}

#[test]
fn desktop_and_window_queries() {
    assert_eq!(desktop_session("Hyprland"), Some(DesktopSession::Hyprland));
    assert_eq!(desktop_session("sway:wlroots"), Some(DesktopSession::Sway));
    assert_eq!(desktop_session("GNOME"), None);
    assert_eq!(window_query("Org.Qutebrowser.Qutebrowser"), WindowQuery::Qutebrowser);
    assert_eq!(window_query("Discord"), WindowQuery::Site("discord.com".to_string()));
    assert_eq!(window_query("steam"), WindowQuery::Site("steampowered.com".to_string()));
    assert_eq!(window_query("firefox"), WindowQuery::Unknown);
}

#[test]
fn initial_query_follows_the_focused_window() {
    assert_eq!(
        initial_query(Some("sway"), |_| Some("discord".to_string()), || None),
        Some("discord.com".to_string())
    );
    assert_eq!(
        initial_query(
            Some("Hyprland"),
            |session| {
                assert_eq!(session, DesktopSession::Hyprland);
                Some("qutebrowser".to_string())
            },
            || Some("example.com".to_string())
        ),
        Some("example.com".to_string())
    );
    assert_eq!(initial_query(None, |_| Some("steam".to_string()), || None), None);
    assert_eq!(initial_query(Some("kde"), |_| Some("steam".to_string()), || None), None);
}
