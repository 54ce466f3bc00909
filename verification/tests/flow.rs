use std::cell::RefCell;

use pmenu::flow::{field_names, selected_value, FlowEvent, FlowRequest, FlowStage, FlowState};
use pmenu::{
    run_flow, AppAction, AppError, AutofillBackend, ClipboardBackend, EntryContent, MenuBackend,
    PasswordStoreBackend,
};

struct StubMenu {
    selections: RefCell<Vec<Option<String>>>,
}

impl StubMenu {
    fn new(selections: &[Option<&str>]) -> Self {
        Self {
            selections: RefCell::new(
                selections
                    .iter()
                    .rev()
                    .map(|value| value.map(ToString::to_string))
                    .collect(),
            ),
        }
    }
}

impl MenuBackend for StubMenu {
    fn select(&self, _prompt: &str, _items: &[String]) -> Result<Option<String>, AppError> {
        Ok(self.selections.borrow_mut().pop().flatten())
    }
}

struct StubStore;

impl PasswordStoreBackend for StubStore {
    fn list_entries(&self) -> Result<Vec<String>, AppError> {
        Ok(vec!["demo".to_string()])
    }

    fn show_entry(&self, _entry: &str) -> Result<EntryContent, AppError> {
        Ok(EntryContent {
            password: "secret".to_string(),
            fields: vec![("username".to_string(), "demo".to_string())],
        })
    }
}

struct EmptyStore;

impl PasswordStoreBackend for EmptyStore {
    fn list_entries(&self) -> Result<Vec<String>, AppError> {
        Ok(Vec::new())
    }

    fn show_entry(&self, _entry: &str) -> Result<EntryContent, AppError> {
        panic!("an empty store has no entry to show")
    }
}

struct StubClipboard(RefCell<Vec<String>>);

impl ClipboardBackend for StubClipboard {
    fn copy(&self, value: &str) -> Result<(), AppError> {
        self.0.borrow_mut().push(value.to_string());
        Ok(())
    }
}

struct StubAutofill(RefCell<Vec<String>>);

impl AutofillBackend for StubAutofill {
    fn autofill(&self, value: &str) -> Result<(), AppError> {
        self.0.borrow_mut().push(value.to_string());
        Ok(())
    }
}

#[test]
fn copy_flow_uses_clipboard() {
    let menu = StubMenu::new(&[Some("demo"), Some("password")]);
    let store = StubStore;
    let clipboard = StubClipboard(RefCell::new(Vec::new()));

    let outcome = run_flow(&menu, &store, Some(&clipboard), None, AppAction::Copy)
        .expect("flow should succeed")
        .expect("selection should complete");

    assert_eq!(outcome.field_name, "password");
    assert_eq!(clipboard.0.borrow().as_slice(), ["secret"]);
}

#[test]
fn autofill_flow_uses_selected_field() {
    let menu = StubMenu::new(&[Some("demo"), Some("username")]);
    let store = StubStore;
    let autofill = StubAutofill(RefCell::new(Vec::new()));

    let outcome = run_flow(&menu, &store, None, Some(&autofill), AppAction::Autofill)
        .expect("flow should succeed")
        .expect("selection should complete");

    assert_eq!(outcome.field_name, "username");
    assert_eq!(autofill.0.borrow().as_slice(), ["demo"]);
}

#[test]
fn canceled_selection_returns_none() {
    let menu = StubMenu::new(&[None]);
    let store = StubStore;

    let outcome =
        run_flow(&menu, &store, None, None, AppAction::Copy).expect("canceled flow should not error");
    assert!(outcome.is_none());
}

#[test]
fn canceled_field_selection_returns_none() {
    let menu = StubMenu::new(&[Some("demo"), None]);
    let clipboard = StubClipboard(RefCell::new(Vec::new()));
    let outcome = run_flow(&menu, &StubStore, Some(&clipboard), None, AppAction::Copy).unwrap();
    assert!(outcome.is_none());
    assert!(clipboard.0.borrow().is_empty());
}

#[test]
fn empty_store_ends_the_flow() {
    let menu = StubMenu::new(&[]);
    let outcome = run_flow(&menu, &EmptyStore, None, None, AppAction::Copy).unwrap();
    assert!(outcome.is_none());
}

#[test]
fn copy_without_clipboard_is_a_config_error() {
    let menu = StubMenu::new(&[Some("demo"), Some("password")]);
    match run_flow(&menu, &StubStore, None, None, AppAction::Copy) {
        Err(AppError::Config(message)) => {
            assert_eq!(message, "Clipboard backend is required for copy actions.")
        }
        other => panic!("unexpected result: {other:?}"),
    }
}

#[test]
fn autofill_without_backend_is_a_config_error() {
    let menu = StubMenu::new(&[Some("demo"), Some("password")]);
    match run_flow(&menu, &StubStore, None, None, AppAction::Autofill) {
        Err(AppError::Config(message)) => {
            assert_eq!(message, "Autofill backend is required for autofill actions.")
        }
        other => panic!("unexpected result: {other:?}"),
    }
}

#[test]
fn unknown_field_is_an_invalid_entry() {
    let menu = StubMenu::new(&[Some("demo"), Some("pin")]);
    let clipboard = StubClipboard(RefCell::new(Vec::new()));
    match run_flow(&menu, &StubStore, Some(&clipboard), None, AppAction::Copy) {
        Err(AppError::InvalidEntry(message)) => assert_eq!(message, "Field not found: pin"),
        other => panic!("unexpected result: {other:?}"),
    }
}

fn sample_entry() -> EntryContent {
    EntryContent {
        password: "pw".to_string(),
        fields: vec![
            ("user".to_string(), "first".to_string()),
            ("user".to_string(), "second".to_string()),
            ("password".to_string(), "shadow".to_string()),
        ],
    }
}

#[test]
fn offered_names_start_with_password() {
    assert_eq!(field_names(&sample_entry()), vec!["password", "user", "user", "password"]);
}

#[test]
fn every_offered_name_can_be_selected() {
    let entry = sample_entry();
    for name in field_names(&entry) {
        assert!(selected_value(&entry, &name).is_ok());
    }
    assert_eq!(selected_value(&entry, "user").unwrap(), "first");
    assert_eq!(selected_value(&entry, "password").unwrap(), "pw");
}

#[test]
fn flow_requests_follow_the_answers() {
    let (state, request) = FlowState::start(AppAction::Copy, true, false);
    assert!(matches!(request, FlowRequest::ListEntries));
    let (state, request) = state.step(FlowEvent::Entries(vec!["a".to_string()]));
    match request {
        FlowRequest::Select { prompt, items } => {
            assert_eq!(prompt, "󰌆 ");
            assert_eq!(items, vec!["a"]);
        }
        other => panic!("unexpected request: {other:?}"),
    }
    let (state, request) = state.step(FlowEvent::Choice(Some("a".to_string())));
    assert!(matches!(request, FlowRequest::ShowEntry(ref name) if name == "a"));
    let (state, request) = state.step(FlowEvent::Entry(sample_entry()));
    match request {
        FlowRequest::Select { prompt, items } => {
            assert_eq!(prompt, " ");
            assert_eq!(items, vec!["password", "user", "user", "password"]);
        }
        other => panic!("unexpected request: {other:?}"),
    }
    let (state, request) = state.step(FlowEvent::Choice(Some("user".to_string())));
    assert!(matches!(request, FlowRequest::Copy(ref value) if value == "first"));
    let (state, request) = state.step(FlowEvent::Delivered);
    assert!(matches!(state.stage, FlowStage::Finished));
    match request {
        FlowRequest::Finish(Ok(Some(outcome))) => {
            assert_eq!(outcome.field_name, "user");
            assert_eq!(outcome.action, AppAction::Copy);
        }
        other => panic!("unexpected request: {other:?}"),
    }
}
