use std::str::FromStr;

use pmenu::{parse_entry_content, AppAction, AppError};

#[test]
fn parses_password_and_fields() {
    let content = parse_entry_content("secret\nusername: demo\nurl: https://example.com\n")
        .expect("entry should parse");

    assert_eq!(content.password, "secret");
    assert_eq!(
        content.fields,
        vec![
            ("username".to_string(), "demo".to_string()),
            ("url".to_string(), "https://example.com".to_string())
        ]
    );
}

#[test]
fn parses_app_action() {
    assert_eq!(AppAction::from_str("copy").expect("copy should parse"), AppAction::Copy);
    assert_eq!(
        AppAction::from_str("autofill").expect("autofill should parse"),
        AppAction::Autofill
    );
}

#[test]
fn app_action_ignores_case_and_surrounding_whitespace() {
    assert_eq!(AppAction::from_str("  CoPy\t").unwrap(), AppAction::Copy);
    assert_eq!(AppAction::from_str("AUTOFILL\n").unwrap(), AppAction::Autofill);
}

#[test]
fn unknown_action_is_refused_with_its_name() {
    assert_eq!(
        AppAction::from_str("paste").unwrap_err(),
        "Unknown action: `paste`".to_string()
    );
}

#[test]
fn past_tense_names_the_action() {
    assert_eq!(AppAction::Copy.past_tense(), "Copied");
    assert_eq!(AppAction::Autofill.past_tense(), "Autofilled");
}

#[test]
fn empty_entry_is_invalid() {
    match parse_entry_content("") {
        Err(AppError::InvalidEntry(message)) => assert_eq!(message, "Password entry is empty."),
        other => panic!("unexpected result: {other:?}"),
    }
}

#[test]
fn entry_lines_follow_str_lines() {
    let content = parse_entry_content("pw\r\n: no name\nnote without colon\n  user : a: b \r\nlast:value\r")
        .unwrap();
    assert_eq!(content.password, "pw");
    assert_eq!(
        content.fields,
        vec![
            ("user".to_string(), "a: b ".to_string()),
            ("last".to_string(), "value\r".to_string())
        ]
    );
}

#[test]
fn blank_first_line_is_an_empty_password() {
    let content = parse_entry_content("\nname: x").unwrap();
    assert_eq!(content.password, "");
    assert_eq!(content.fields, vec![("name".to_string(), "x".to_string())]);
}

#[test]
fn written_entries_read_back() {
    let fields = vec![
        ("user".to_string(), "me".to_string()),
        ("url".to_string(), "https://host:8080/a".to_string()),
        ("note".to_string(), String::new()),
    ];
    let mut text = String::from("hunter2\n");
    for (name, value) in &fields {
        text.push_str(&format!("{name}: {value}\n"));
    }
    let content = parse_entry_content(&text).unwrap();
    assert_eq!(content.password, "hunter2");
    assert_eq!(content.fields, fields);
    let bare = parse_entry_content("\n").unwrap();
    assert_eq!(bare.password, "");
    assert!(bare.fields.is_empty());
}
