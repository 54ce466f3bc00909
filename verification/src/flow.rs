//! The picker's flow: list the entries, let the user choose one and a field
//! of it, and hand the field's value to the clipboard or to autofill.
use vstd::prelude::*;

use crate::error::AppError;
use crate::text::{chars_eq, chars_of, owned, push_str, string_of, views};
use crate::types::{field_views, ActionOutcome, AppAction, EntryContent};

verus! {

pub trait MenuBackend {
    fn select(&self, prompt: &str, items: &[String]) -> Result<Option<String>, AppError>;
}

pub trait PasswordStoreBackend {
    fn list_entries(&self) -> Result<Vec<String>, AppError>;

    fn show_entry(&self, entry: &str) -> Result<EntryContent, AppError>;
}

pub trait ClipboardBackend {
    fn copy(&self, value: &str) -> Result<(), AppError>;
}

pub trait AutofillBackend {
    fn autofill(&self, value: &str) -> Result<(), AppError>;
}

/// The prompt under which the entries are offered.
pub open spec fn entry_prompt() -> Seq<char> {
    "󰌆 "@
}

/// The prompt under which the fields of an entry are offered.
pub open spec fn field_prompt() -> Seq<char> {
    " "@
}

/// The names offered for an entry: `password` first, then its fields in order.
pub open spec fn offered_names(e: EntryContent) -> Seq<Seq<char>> {
    seq!["password"@] + field_views(e.fields@).map_values(|f: (Seq<char>, Seq<char>)| f.0)
}

/// The value of the first field with the given name.
pub open spec fn find_field(fields: Seq<(Seq<char>, Seq<char>)>, name: Seq<char>) -> Option<
    Seq<char>,
>
    decreases fields.len(),
{
    if fields.len() == 0 {
        None
    } else if fields[0].0 == name {
        Some(fields[0].1)
    } else {
        find_field(fields.drop_first(), name)
    }
}

/// The value selected under a name: the password for `password`, otherwise
/// the value of the first field of that name.
pub open spec fn selected_field(e: EntryContent, name: Seq<char>) -> Option<Seq<char>> {
    if name == "password"@ {
        Some(e.password@)
    } else {
        find_field(field_views(e.fields@), name)
    }
}

/// The names offered for an entry.
pub fn field_names(entry: &EntryContent) -> (r: Vec<String>)
    ensures
        views(r@) == offered_names(*entry),
{
    let mut r: Vec<String> = Vec::new();
    r.push(owned("password"));
    let mut i: usize = 0;
    while i < entry.fields.len()
        invariant
            i <= entry.fields@.len(),
            r@.len() == i + 1,
            r@[0]@ == "password"@,
            forall|k: int| 0 <= k < i ==> (#[trigger] r@[k + 1])@ == entry.fields@[k].0@,
        decreases entry.fields@.len() - i,
    {
        r.push(entry.fields[i].0.clone());
        i = i + 1;
    }
    assert(views(r@) =~= offered_names(*entry)) by {
        assert forall|k: int| 0 <= k < r@.len() implies views(r@)[k] == offered_names(*entry)[k] by {
            if k > 0 {
                assert(r@[(k - 1) + 1]@ == entry.fields@[k - 1].0@);
            }
        }
    }
    r
}

proof fn lemma_find_field_at(fields: Seq<(Seq<char>, Seq<char>)>, name: Seq<char>, j: int)
    requires
        0 <= j <= fields.len(),
        forall|k: int| 0 <= k < j ==> (#[trigger] fields[k]).0 != name,
    ensures
        j < fields.len() && fields[j].0 == name ==> find_field(fields, name) == Some(fields[j].1),
        j == fields.len() ==> find_field(fields, name) is None,
    decreases j,
{
    if j > 0 {
        assert forall|k: int| 0 <= k < j - 1 implies (#[trigger] fields.drop_first()[k]).0
            != name by {
            assert(fields.drop_first()[k] == fields[k + 1]);
        }
        lemma_find_field_at(fields.drop_first(), name, j - 1);
    }
}

/// The value selected under `field_name`, or `InvalidEntry` when the entry has
/// no such field.
pub fn selected_value<'a>(entry: &'a EntryContent, field_name: &str) -> (r: Result<
    &'a str,
    AppError,
>)
    ensures
        r is Err <==> selected_field(*entry, field_name@) is None,
        r matches Ok(v) ==> selected_field(*entry, field_name@) == Some(v@),
        r matches Err(e) ==> (e matches AppError::InvalidEntry(m) && m@ == "Field not found: "@
            + field_name@),
{
    let name = chars_of(field_name);
    let password = chars_of("password");
    if chars_eq(name.as_slice(), password.as_slice()) {
        return Ok(entry.password.as_str());
    }
    let ghost fv = field_views(entry.fields@);
    let mut i: usize = 0;
    while i < entry.fields.len()
        invariant
            i <= entry.fields@.len(),
            fv == field_views(entry.fields@),
            name@ == field_name@,
            field_name@ != "password"@,
            forall|k: int| 0 <= k < i ==> (#[trigger] fv[k]).0 != name@,
        decreases entry.fields@.len() - i,
    {
        let candidate = chars_of(entry.fields[i].0.as_str());
        assert(fv[i as int].0 == entry.fields@[i as int].0@);
        if chars_eq(candidate.as_slice(), name.as_slice()) {
            assert(fv[i as int] == (entry.fields@[i as int].0@, entry.fields@[i as int].1@));
            proof {
                lemma_find_field_at(fv, name@, i as int);
            }
            return Ok(entry.fields[i].1.as_str());
        }
        i = i + 1;
    }
    proof {
        lemma_find_field_at(fv, name@, i as int);
    }
    let mut m: Vec<char> = Vec::new();
    push_str(&mut m, "Field not found: ");
    push_str(&mut m, field_name);
    Err(AppError::InvalidEntry(string_of(m.as_slice())))
}

proof fn lemma_find_field_some(fields: Seq<(Seq<char>, Seq<char>)>, name: Seq<char>, j: int)
    requires
        0 <= j < fields.len(),
        fields[j].0 == name,
    ensures
        find_field(fields, name) is Some,
    decreases j,
{
    if fields[0].0 != name {
        assert(fields.drop_first()[j - 1] == fields[j]);
        lemma_find_field_some(fields.drop_first(), name, j - 1);
    }
}

/// Every name that is offered for an entry can be selected.
pub proof fn lemma_offered_names_selectable(e: EntryContent, i: int)
    requires
        0 <= i < offered_names(e).len(),
    ensures
        selected_field(e, offered_names(e)[i]) is Some,
{
    let fv = field_views(e.fields@);
    if i > 0 {
        let name = offered_names(e)[i];
        assert(name == fv[i - 1].0);
        if name != "password"@ {
            lemma_find_field_some(fv, name, i - 1);
        }
    }
}

/// Where the flow stands.
#[derive(Debug)]
pub enum FlowStage {
    Listing,
    ChoosingEntry,
    Showing,
    ChoosingField(EntryContent),
    Delivering(String),
    Finished,
}

/// The flow's state: the configured action, which delivery backends exist, and the stage.
#[derive(Debug)]
pub struct FlowState {
    pub action: AppAction,
    pub has_clipboard: bool,
    pub has_autofill: bool,
    pub stage: FlowStage,
}

/// What a backend answered to the last request.
pub enum FlowEvent {
    Entries(Vec<String>),
    Choice(Option<String>),
    Entry(EntryContent),
    Delivered,
}

/// What the flow asks of a backend next, or how it ends.
#[derive(Debug)]
pub enum FlowRequest {
    ListEntries,
    Select { prompt: String, items: Vec<String> },
    ShowEntry(String),
    Copy(String),
    Autofill(String),
    Finish(Result<Option<ActionOutcome>, AppError>),
}

/// Whether an event answers the request that the stage waits on.
pub open spec fn answers(stage: FlowStage, event: FlowEvent) -> bool {
    match (stage, event) {
        (FlowStage::Listing, FlowEvent::Entries(_)) => true,
        (FlowStage::ChoosingEntry, FlowEvent::Choice(_)) => true,
        (FlowStage::Showing, FlowEvent::Entry(_)) => true,
        (FlowStage::ChoosingField(_), FlowEvent::Choice(_)) => true,
        (FlowStage::Delivering(_), FlowEvent::Delivered) => true,
        _ => false,
    }
}

/// How many steps at most remain from a stage.
pub open spec fn remaining_steps(stage: FlowStage) -> nat {
    match stage {
        FlowStage::Listing => 5,
        FlowStage::ChoosingEntry => 4,
        FlowStage::Showing => 3,
        FlowStage::ChoosingField(_) => 2,
        FlowStage::Delivering(_) => 1,
        FlowStage::Finished => 0,
    }
}

pub open spec fn finished_with(next: FlowState, req: FlowRequest, r: Result<
    Option<ActionOutcome>,
    AppError,
>) -> bool {
    next.stage is Finished && req == FlowRequest::Finish(r)
}

/// The transition of the flow on one event.
pub open spec fn step_post(s: FlowState, event: FlowEvent, next: FlowState, req: FlowRequest) -> bool {
    &&& next.action == s.action
    &&& next.has_clipboard == s.has_clipboard
    &&& next.has_autofill == s.has_autofill
    &&& match (s.stage, event) {
        (FlowStage::Listing, FlowEvent::Entries(es)) => if es@.len() == 0 {
            finished_with(next, req, Ok(None))
        } else {
            &&& next.stage is ChoosingEntry
            &&& req matches FlowRequest::Select { prompt, items }
            &&& prompt@ == entry_prompt()
            &&& items == es
        },
        (FlowStage::ChoosingEntry, FlowEvent::Choice(c)) => match c {
            None => finished_with(next, req, Ok(None)),
            Some(name) => next.stage is Showing && req == FlowRequest::ShowEntry(name),
        },
        (FlowStage::Showing, FlowEvent::Entry(e)) => {
            &&& next.stage == FlowStage::ChoosingField(e)
            &&& req matches FlowRequest::Select { prompt, items }
            &&& prompt@ == field_prompt()
            &&& views(items@) == offered_names(e)
        },
        (FlowStage::ChoosingField(e), FlowEvent::Choice(c)) => match c {
            None => finished_with(next, req, Ok(None)),
            Some(f) => match selected_field(e, f@) {
                None => {
                    &&& next.stage is Finished
                    &&& req matches FlowRequest::Finish(Err(AppError::InvalidEntry(m)))
                    &&& m@ == "Field not found: "@ + f@
                },
                Some(v) => match s.action {
                    AppAction::Copy => if s.has_clipboard {
                        &&& next.stage == FlowStage::Delivering(f)
                        &&& req matches FlowRequest::Copy(x)
                        &&& x@ == v
                    } else {
                        &&& next.stage is Finished
                        &&& req matches FlowRequest::Finish(Err(AppError::Config(m)))
                        &&& m@ == "Clipboard backend is required for copy actions."@
                    },
                    AppAction::Autofill => if s.has_autofill {
                        &&& next.stage == FlowStage::Delivering(f)
                        &&& req matches FlowRequest::Autofill(x)
                        &&& x@ == v
                    } else {
                        &&& next.stage is Finished
                        &&& req matches FlowRequest::Finish(Err(AppError::Config(m)))
                        &&& m@ == "Autofill backend is required for autofill actions."@
                    },
                },
            },
        },
        (FlowStage::Delivering(f), FlowEvent::Delivered) => finished_with(
            next,
            req,
            Ok(Some(ActionOutcome { field_name: f, action: s.action })),
        ),
        _ => false,
    }
}

impl FlowState {
    /// The flow's first state; it begins by listing the entries.
    pub fn start(action: AppAction, has_clipboard: bool, has_autofill: bool) -> (r: (
        FlowState,
        FlowRequest,
    ))
        ensures
            r.0 == (FlowState { action, has_clipboard, has_autofill, stage: FlowStage::Listing }),
            r.1 == FlowRequest::ListEntries,
    {
        (FlowState { action, has_clipboard, has_autofill, stage: FlowStage::Listing }, FlowRequest::ListEntries)
    }

    /// The next state and request after a backend's answer.
    pub fn step(self, event: FlowEvent) -> (r: (FlowState, FlowRequest))
        requires
            answers(self.stage, event),
        ensures
            step_post(self, event, r.0, r.1),
            remaining_steps(r.0.stage) < remaining_steps(self.stage),
    {
        let action = self.action;
        let has_clipboard = self.has_clipboard;
        let has_autofill = self.has_autofill;
        let done = |stage: FlowStage| -> (s: FlowState)
            ensures
                s == (FlowState { action, has_clipboard, has_autofill, stage }),
            { FlowState { action, has_clipboard, has_autofill, stage } };
        match (self.stage, event) {
            (FlowStage::Listing, FlowEvent::Entries(es)) => {
                if es.len() == 0 {
                    (done(FlowStage::Finished), FlowRequest::Finish(Ok(None)))
                } else {
                    let prompt = owned("󰌆 ");
                    (done(FlowStage::ChoosingEntry), FlowRequest::Select { prompt, items: es })
                }
            },
            (FlowStage::ChoosingEntry, FlowEvent::Choice(c)) => match c {
                None => (done(FlowStage::Finished), FlowRequest::Finish(Ok(None))),
                Some(name) => (done(FlowStage::Showing), FlowRequest::ShowEntry(name)),
            },
            (FlowStage::Showing, FlowEvent::Entry(e)) => {
                let items = field_names(&e);
                let prompt = owned(" ");
                (done(FlowStage::ChoosingField(e)), FlowRequest::Select { prompt, items })
            },
            (FlowStage::ChoosingField(e), FlowEvent::Choice(c)) => match c {
                None => (done(FlowStage::Finished), FlowRequest::Finish(Ok(None))),
                Some(f) => match selected_value(&e, f.as_str()) {
                    Err(err) => (done(FlowStage::Finished), FlowRequest::Finish(Err(err))),
                    Ok(v) => {
                        let value = owned(v);
                        match action {
                            AppAction::Copy => if has_clipboard {
                                (done(FlowStage::Delivering(f)), FlowRequest::Copy(value))
                            } else {
                                let m = owned("Clipboard backend is required for copy actions.");
                                (
                                    done(FlowStage::Finished),
                                    FlowRequest::Finish(Err(AppError::Config(m))),
                                )
                            },
                            AppAction::Autofill => if has_autofill {
                                (done(FlowStage::Delivering(f)), FlowRequest::Autofill(value))
                            } else {
                                let m = owned(
                                    "Autofill backend is required for autofill actions.",
                                );
                                (
                                    done(FlowStage::Finished),
                                    FlowRequest::Finish(Err(AppError::Config(m))),
                                )
                            },
                        }
                    },
                },
            },
            (FlowStage::Delivering(f), FlowEvent::Delivered) => (
                done(FlowStage::Finished),
                FlowRequest::Finish(Ok(Some(ActionOutcome { field_name: f, action }))),
            ),
            _ => {
                proof {
                    assert(false);
                }
                (done(FlowStage::Finished), FlowRequest::Finish(Ok(None)))
            },
        }
    }
}

/// Whether a pending request is the one the state waits on, with what the
/// flow keeps true of it.
pub open spec fn pending(s: FlowState, req: FlowRequest) -> bool {
    match req {
        FlowRequest::ListEntries => s.stage is Listing,
        FlowRequest::Select { .. } => s.stage is ChoosingEntry || s.stage is ChoosingField,
        FlowRequest::ShowEntry(_) => s.stage is Showing,
        FlowRequest::Copy(_) => s.stage is Delivering && s.action == AppAction::Copy
            && s.has_clipboard,
        FlowRequest::Autofill(_) => s.stage is Delivering && s.action == AppAction::Autofill
            && s.has_autofill,
        FlowRequest::Finish(r) => s.stage is Finished && (r matches Ok(Some(o)) ==> o.action
            == s.action && (s.action == AppAction::Copy ==> s.has_clipboard) && (s.action
            == AppAction::Autofill ==> s.has_autofill)),
    }
}

/// Asks the store for the names of its entries.
pub fn entries_listed<S: PasswordStoreBackend + ?Sized>(store: &S) -> Result<Vec<String>, AppError> {
    store.list_entries()
}

/// Offers items in the menu under a prompt; the user's choice, if any.
pub fn menu_choice<M: MenuBackend + ?Sized>(menu: &M, prompt: &str, items: &[String]) -> Result<
    Option<String>,
    AppError,
> {
    menu.select(prompt, items)
}

/// Asks the store for the content of the entry with the given name.
pub fn entry_shown<S: PasswordStoreBackend + ?Sized>(store: &S, name: &str) -> Result<
    EntryContent,
    AppError,
> {
    store.show_entry(name)
}

/// Puts a value on the clipboard.
pub fn value_copied<C: ClipboardBackend + ?Sized>(clipboard: &C, value: &str) -> Result<
    (),
    AppError,
> {
    clipboard.copy(value)
}

/// Types a value into the focused window.
pub fn value_autofilled<A: AutofillBackend + ?Sized>(autofill: &A, value: &str) -> Result<
    (),
    AppError,
> {
    autofill.autofill(value)
}

/// The end of a run once the value `v` of field `f` is chosen: it goes to
/// the clipboard or to autofill as the action says, and the outcome names the
/// field; a missing backend, or the backend's error, ends the run instead.
pub open spec fn delivery_run<C: ClipboardBackend + ?Sized, A: AutofillBackend + ?Sized>(
    clipboard: Option<&C>,
    autofill: Option<&A>,
    action: AppAction,
    f: String,
    v: Seq<char>,
    r: Result<Option<ActionOutcome>, AppError>,
) -> bool {
    let done = Ok::<Option<ActionOutcome>, AppError>(Some(ActionOutcome { field_name: f, action }));
    match action {
        AppAction::Copy => match clipboard {
            None => r matches Err(AppError::Config(m)) && m@
                == "Clipboard backend is required for copy actions."@,
            Some(c) => exists|x: &str, d: Result<(), AppError>|
                {
                    &&& x@ == v
                    &&& #[trigger] call_ensures(value_copied::<C>, (c, x), d)
                    &&& match d {
                        Ok(_) => r == done,
                        Err(e) => r == Err::<Option<ActionOutcome>, AppError>(e),
                    }
                },
        },
        AppAction::Autofill => match autofill {
            None => r matches Err(AppError::Config(m)) && m@
                == "Autofill backend is required for autofill actions."@,
            Some(a) => exists|x: &str, d: Result<(), AppError>|
                {
                    &&& x@ == v
                    &&& #[trigger] call_ensures(value_autofilled::<A>, (a, x), d)
                    &&& match d {
                        Ok(_) => r == done,
                        Err(e) => r == Err::<Option<ActionOutcome>, AppError>(e),
                    }
                },
        },
    }
}

/// The run from the entry `e` on: its field names are offered, and the value
/// of the chosen one is delivered; an unknown name is refused.
pub open spec fn field_run<
    M: MenuBackend + ?Sized,
    C: ClipboardBackend + ?Sized,
    A: AutofillBackend + ?Sized,
>(
    menu: &M,
    clipboard: Option<&C>,
    autofill: Option<&A>,
    action: AppAction,
    e: EntryContent,
    r: Result<Option<ActionOutcome>, AppError>,
) -> bool {
    exists|p: &str, items: &[String], c: Result<Option<String>, AppError>|
        {
            &&& p@ == field_prompt()
            &&& views(items@) == offered_names(e)
            &&& #[trigger] call_ensures(menu_choice::<M>, (menu, p, items), c)
            &&& match c {
                Err(x) => r == Err::<Option<ActionOutcome>, AppError>(x),
                Ok(None) => r == Ok::<Option<ActionOutcome>, AppError>(None),
                Ok(Some(f)) => match selected_field(e, f@) {
                    None => r matches Err(AppError::InvalidEntry(m)) && m@ == "Field not found: "@
                        + f@,
                    Some(v) => delivery_run(clipboard, autofill, action, f, v, r),
                },
            }
        }
}

/// The run from the chosen entry's name on: the store shows that entry, and
/// the run goes on with its content.
pub open spec fn shown_run<
    M: MenuBackend + ?Sized,
    S: PasswordStoreBackend + ?Sized,
    C: ClipboardBackend + ?Sized,
    A: AutofillBackend + ?Sized,
>(
    menu: &M,
    store: &S,
    clipboard: Option<&C>,
    autofill: Option<&A>,
    action: AppAction,
    name: String,
    r: Result<Option<ActionOutcome>, AppError>,
) -> bool {
    exists|n: &str, sh: Result<EntryContent, AppError>|
        {
            &&& n@ == name@
            &&& #[trigger] call_ensures(entry_shown::<S>, (store, n), sh)
            &&& match sh {
                Err(x) => r == Err::<Option<ActionOutcome>, AppError>(x),
                Ok(e) => field_run(menu, clipboard, autofill, action, e, r),
            }
        }
}

/// A whole run over the backends' answers: the store lists its entries (none
/// ends the run), the menu offers them, the store shows the chosen one, the
/// menu offers its field names, and the chosen field's value is delivered. A
/// cancelled choice ends the run with nothing, and a backend's error ends it
/// with that error.
pub open spec fn flow_run<
    M: MenuBackend + ?Sized,
    S: PasswordStoreBackend + ?Sized,
    C: ClipboardBackend + ?Sized,
    A: AutofillBackend + ?Sized,
>(
    menu: &M,
    store: &S,
    clipboard: Option<&C>,
    autofill: Option<&A>,
    action: AppAction,
    r: Result<Option<ActionOutcome>, AppError>,
) -> bool {
    exists|l: Result<Vec<String>, AppError>|
        {
            &&& #[trigger] call_ensures(entries_listed::<S>, (store,), l)
            &&& match l {
                Err(x) => r == Err::<Option<ActionOutcome>, AppError>(x),
                Ok(es) => if es@.len() == 0 {
                    r == Ok::<Option<ActionOutcome>, AppError>(None)
                } else {
                    exists|p: &str, items: &[String], c: Result<Option<String>, AppError>|
                        {
                            &&& p@ == entry_prompt()
                            &&& items@ == es@
                            &&& #[trigger] call_ensures(menu_choice::<M>, (menu, p, items), c)
                            &&& match c {
                                Err(x) => r == Err::<Option<ActionOutcome>, AppError>(x),
                                Ok(None) => r == Ok::<Option<ActionOutcome>, AppError>(None),
                                Ok(Some(name)) => shown_run(
                                    menu,
                                    store,
                                    clipboard,
                                    autofill,
                                    action,
                                    name,
                                    r,
                                ),
                            }
                        }
                },
            }
        }
}

/// Where a delivered value went: to the clipboard for a copy, typed by
/// autofill otherwise, each backend having accepted it.
pub open spec fn delivered_to<C: ClipboardBackend + ?Sized, A: AutofillBackend + ?Sized>(
    clipboard: Option<&C>,
    autofill: Option<&A>,
    action: AppAction,
    v: Seq<char>,
) -> bool {
    match action {
        AppAction::Copy => clipboard matches Some(c) && exists|x: &str, d: Result<(), AppError>|
            x@ == v && d is Ok && #[trigger] call_ensures(value_copied::<C>, (c, x), d),
        AppAction::Autofill => autofill matches Some(a) && exists|x: &str, d: Result<(), AppError>|
            x@ == v && d is Ok && #[trigger] call_ensures(value_autofilled::<A>, (a, x), d),
    }
}

proof fn lemma_delivery_delivers<C: ClipboardBackend + ?Sized, A: AutofillBackend + ?Sized>(
    clipboard: Option<&C>,
    autofill: Option<&A>,
    action: AppAction,
    f: String,
    v: Seq<char>,
    r: Result<Option<ActionOutcome>, AppError>,
)
    requires
        delivery_run(clipboard, autofill, action, f, v, r),
    ensures
        r matches Ok(Some(o)) ==> o.field_name == f && o.action == action && delivered_to(
            clipboard,
            autofill,
            action,
            v,
        ),
{
    if r matches Ok(Some(o)) {
        match action {
            AppAction::Copy => {
                let c = clipboard->Some_0;
                let (x, d) = choose|x: &str, d: Result<(), AppError>|
                    {
                        &&& x@ == v
                        &&& #[trigger] call_ensures(value_copied::<C>, (c, x), d)
                        &&& match d {
                            Ok(_) => r == Ok::<Option<ActionOutcome>, AppError>(
                                Some(ActionOutcome { field_name: f, action }),
                            ),
                            Err(e) => r == Err::<Option<ActionOutcome>, AppError>(e),
                        }
                    };
            },
            AppAction::Autofill => {
                let a = autofill->Some_0;
                let (x, d) = choose|x: &str, d: Result<(), AppError>|
                    {
                        &&& x@ == v
                        &&& #[trigger] call_ensures(value_autofilled::<A>, (a, x), d)
                        &&& match d {
                            Ok(_) => r == Ok::<Option<ActionOutcome>, AppError>(
                                Some(ActionOutcome { field_name: f, action }),
                            ),
                            Err(e) => r == Err::<Option<ActionOutcome>, AppError>(e),
                        }
                    };
            },
        }
    }
}

proof fn lemma_field_run_delivers<
    M: MenuBackend + ?Sized,
    C: ClipboardBackend + ?Sized,
    A: AutofillBackend + ?Sized,
>(
    menu: &M,
    clipboard: Option<&C>,
    autofill: Option<&A>,
    action: AppAction,
    e: EntryContent,
    r: Result<Option<ActionOutcome>, AppError>,
)
    requires
        field_run(menu, clipboard, autofill, action, e, r),
    ensures
        r matches Ok(Some(o)) ==> {
            &&& o.action == action
            &&& exists|q: &str, fields: &[String]|
                {
                    &&& q@ == field_prompt()
                    &&& views(fields@) == offered_names(e)
                    &&& #[trigger] call_ensures(
                        menu_choice::<M>,
                        (menu, q, fields),
                        Ok::<Option<String>, AppError>(Some(o.field_name)),
                    )
                    &&& selected_field(e, o.field_name@) matches Some(v)
                    &&& delivered_to(clipboard, autofill, action, v)
                }
        },
{
    if r matches Ok(Some(o)) {
        let (p, items, c) = choose|p: &str, items: &[String], c: Result<Option<String>, AppError>|
            {
                &&& p@ == field_prompt()
                &&& views(items@) == offered_names(e)
                &&& #[trigger] call_ensures(menu_choice::<M>, (menu, p, items), c)
                &&& match c {
                    Err(x) => r == Err::<Option<ActionOutcome>, AppError>(x),
                    Ok(None) => r == Ok::<Option<ActionOutcome>, AppError>(None),
                    Ok(Some(f)) => match selected_field(e, f@) {
                        None => r matches Err(AppError::InvalidEntry(m)) && m@
                            == "Field not found: "@ + f@,
                        Some(v) => delivery_run(clipboard, autofill, action, f, v, r),
                    },
                }
            };
        let f = c->Ok_0->Some_0;
        let v = selected_field(e, f@)->Some_0;
        lemma_delivery_delivers(clipboard, autofill, action, f, v, r);

    }
}

proof fn lemma_shown_run_delivers<
    M: MenuBackend + ?Sized,
    S: PasswordStoreBackend + ?Sized,
    C: ClipboardBackend + ?Sized,
    A: AutofillBackend + ?Sized,
>(
    menu: &M,
    store: &S,
    clipboard: Option<&C>,
    autofill: Option<&A>,
    action: AppAction,
    name: String,
    r: Result<Option<ActionOutcome>, AppError>,
)
    requires
        shown_run(menu, store, clipboard, autofill, action, name, r),
    ensures
        r matches Ok(Some(o)) ==> {
            &&& o.action == action
            &&& exists|n: &str, e: EntryContent|
                {
                    &&& n@ == name@
                    &&& #[trigger] call_ensures(
                        entry_shown::<S>,
                        (store, n),
                        Ok::<EntryContent, AppError>(e),
                    )
                    &&& exists|q: &str, fields: &[String]|
                        {
                            &&& q@ == field_prompt()
                            &&& views(fields@) == offered_names(e)
                            &&& #[trigger] call_ensures(
                                menu_choice::<M>,
                                (menu, q, fields),
                                Ok::<Option<String>, AppError>(Some(o.field_name)),
                            )
                            &&& selected_field(e, o.field_name@) matches Some(v)
                            &&& delivered_to(clipboard, autofill, action, v)
                        }
                }
        },
{
    if r matches Ok(Some(o)) {
        let (n, sh) = choose|n: &str, sh: Result<EntryContent, AppError>|
            {
                &&& n@ == name@
                &&& #[trigger] call_ensures(entry_shown::<S>, (store, n), sh)
                &&& match sh {
                    Err(x) => r == Err::<Option<ActionOutcome>, AppError>(x),
                    Ok(e) => field_run(menu, clipboard, autofill, action, e, r),
                }
            };
        lemma_field_run_delivers(menu, clipboard, autofill, action, sh->Ok_0, r);
    }
}

/// A run that ends with an outcome delivered exactly what the user chose: the
/// store listed some entries, the menu offered them and returned a name, the
/// store showed the entry of that very name, the menu offered that entry's
/// field names and returned the outcome's field, and the value of that field
/// of that entry went to the clipboard or to autofill, as the action says.
pub proof fn lemma_run_delivers<
    M: MenuBackend + ?Sized,
    S: PasswordStoreBackend + ?Sized,
    C: ClipboardBackend + ?Sized,
    A: AutofillBackend + ?Sized,
>(
    menu: &M,
    store: &S,
    clipboard: Option<&C>,
    autofill: Option<&A>,
    action: AppAction,
    r: Result<Option<ActionOutcome>, AppError>,
)
    requires
        flow_run(menu, store, clipboard, autofill, action, r),
    ensures
        r matches Ok(Some(o)) ==> {
            &&& o.action == action
            &&& exists|es: Vec<String>|
                {
                    &&& #[trigger] call_ensures(
                        entries_listed::<S>,
                        (store,),
                        Ok::<Vec<String>, AppError>(es),
                    )
                    &&& es@.len() > 0
                    &&& exists|p: &str, items: &[String], name: String|
                        {
                            &&& p@ == entry_prompt()
                            &&& items@ == es@
                            &&& #[trigger] call_ensures(
                                menu_choice::<M>,
                                (menu, p, items),
                                Ok::<Option<String>, AppError>(Some(name)),
                            )
                            &&& exists|n: &str, e: EntryContent|
                                {
                                    &&& n@ == name@
                                    &&& #[trigger] call_ensures(
                                        entry_shown::<S>,
                                        (store, n),
                                        Ok::<EntryContent, AppError>(e),
                                    )
                                    &&& exists|q: &str, fields: &[String]|
                                        {
                                            &&& q@ == field_prompt()
                                            &&& views(fields@) == offered_names(e)
                                            &&& #[trigger] call_ensures(
                                                menu_choice::<M>,
                                                (menu, q, fields),
                                                Ok::<Option<String>, AppError>(
                                                    Some(o.field_name),
                                                ),
                                            )
                                            &&& selected_field(e, o.field_name@) matches Some(v)
                                            &&& delivered_to(clipboard, autofill, action, v)
                                        }
                                }
                        }
                }
        },
{
    if r matches Ok(Some(o)) {
        let l = choose|l: Result<Vec<String>, AppError>|
            {
                &&& #[trigger] call_ensures(entries_listed::<S>, (store,), l)
                &&& match l {
                    Err(x) => r == Err::<Option<ActionOutcome>, AppError>(x),
                    Ok(es) => if es@.len() == 0 {
                        r == Ok::<Option<ActionOutcome>, AppError>(None)
                    } else {
                        exists|p: &str, items: &[String], c: Result<Option<String>, AppError>|
                            {
                                &&& p@ == entry_prompt()
                                &&& items@ == es@
                                &&& #[trigger] call_ensures(menu_choice::<M>, (menu, p, items), c)
                                &&& match c {
                                    Err(x) => r == Err::<Option<ActionOutcome>, AppError>(x),
                                    Ok(None) => r == Ok::<Option<ActionOutcome>, AppError>(None),
                                    Ok(Some(name)) => shown_run(
                                        menu,
                                        store,
                                        clipboard,
                                        autofill,
                                        action,
                                        name,
                                        r,
                                    ),
                                }
                            }
                    },
                }
            };
        let es = l->Ok_0;
        let (p, items, c) = choose|p: &str, items: &[String], c: Result<Option<String>, AppError>|
            {
                &&& p@ == entry_prompt()
                &&& items@ == es@
                &&& #[trigger] call_ensures(menu_choice::<M>, (menu, p, items), c)
                &&& match c {
                    Err(x) => r == Err::<Option<ActionOutcome>, AppError>(x),
                    Ok(None) => r == Ok::<Option<ActionOutcome>, AppError>(None),
                    Ok(Some(name)) => shown_run(menu, store, clipboard, autofill, action, name, r),
                }
            };
        lemma_shown_run_delivers(menu, store, clipboard, autofill, action, c->Ok_0->Some_0, r);
    }
}

/// Delivers the value `value` of the field `field` as the action says.
fn deliver<C: ClipboardBackend + ?Sized, A: AutofillBackend + ?Sized>(
    clipboard: Option<&C>,
    autofill: Option<&A>,
    action: AppAction,
    field: String,
    value: &str,
) -> (r: Result<Option<ActionOutcome>, AppError>)
    ensures
        delivery_run(clipboard, autofill, action, field, value@, r),
{
    match action {
        AppAction::Copy => match clipboard {
            Some(c) => match value_copied(c, value) {
                Ok(_) => Ok(Some(ActionOutcome { field_name: field, action })),
                Err(x) => Err(x),
            },
            None => Err(AppError::Config(owned("Clipboard backend is required for copy actions."))),
        },
        AppAction::Autofill => match autofill {
            Some(a) => match value_autofilled(a, value) {
                Ok(_) => Ok(Some(ActionOutcome { field_name: field, action })),
                Err(x) => Err(x),
            },
            None => Err(
                AppError::Config(owned("Autofill backend is required for autofill actions.")),
            ),
        },
    }
}

/// Offers the field names of `entry` and delivers the chosen field's value.
fn choose_field<M: MenuBackend + ?Sized, C: ClipboardBackend + ?Sized, A: AutofillBackend + ?Sized>(
    menu: &M,
    clipboard: Option<&C>,
    autofill: Option<&A>,
    action: AppAction,
    entry: EntryContent,
) -> (r: Result<Option<ActionOutcome>, AppError>)
    ensures
        field_run(menu, clipboard, autofill, action, entry, r),
{
    let names = field_names(&entry);
    let prompt = " ";
    proof {
        reveal_strlit(" ");
    }
    let offered = names.as_slice();
    let picked = menu_choice(menu, prompt, offered);
    assert(offered@ == names@);
    match picked {
        Ok(Some(field)) => match selected_value(&entry, field.as_str()) {
            Ok(v) => deliver(clipboard, autofill, action, field, v),
            Err(x) => Err(x),
        },
        Ok(None) => Ok(None),
        Err(x) => Err(x),
    }
}

/// Shows the entry named `name` and goes on with its fields.
fn show_chosen<
    M: MenuBackend + ?Sized,
    S: PasswordStoreBackend + ?Sized,
    C: ClipboardBackend + ?Sized,
    A: AutofillBackend + ?Sized,
>(
    menu: &M,
    store: &S,
    clipboard: Option<&C>,
    autofill: Option<&A>,
    action: AppAction,
    name: String,
) -> (r: Result<Option<ActionOutcome>, AppError>)
    ensures
        shown_run(menu, store, clipboard, autofill, action, name, r),
{
    let n = name.as_str();
    match entry_shown(store, n) {
        Ok(e) => choose_field(menu, clipboard, autofill, action, e),
        Err(x) => Err(x),
    }
}

/// Runs the flow against the given backends: the store's entries are offered
/// in the menu, the store shows the chosen entry, its field names are
/// offered, and the chosen field's value goes to the clipboard or to
/// autofill. It ends early with `Ok(None)` when the store is empty or the
/// user cancels a selection; a backend's error ends it with that error.
pub fn run_flow(
    menu: &dyn MenuBackend,
    store: &dyn PasswordStoreBackend,
    clipboard: Option<&dyn ClipboardBackend>,
    autofill: Option<&dyn AutofillBackend>,
    action: AppAction,
) -> (r: Result<Option<ActionOutcome>, AppError>)
    ensures
        flow_run(menu, store, clipboard, autofill, action, r),
        r matches Ok(Some(o)) ==> o.action == action,
        r matches Ok(Some(o)) && action == AppAction::Copy ==> clipboard is Some,
        r matches Ok(Some(o)) && action == AppAction::Autofill ==> autofill is Some,
{
    let entries = match entries_listed(store) {
        Ok(es) => es,
        Err(x) => return Err(x),
    };
    if entries.len() == 0 {
        return Ok(None);
    }
    let prompt = "󰌆 ";
    proof {
        reveal_strlit("󰌆 ");
    }
    let offered = entries.as_slice();
    let chosen = menu_choice(menu, prompt, offered);
    assert(offered@ == entries@);
    let r = match chosen {
        Ok(Some(name)) => show_chosen(menu, store, clipboard, autofill, action, name),
        Ok(None) => Ok(None),
        Err(x) => Err(x),
    };
    proof {
        lemma_run_delivers(menu, store, clipboard, autofill, action, r);
    }
    r
}

} // verus!
