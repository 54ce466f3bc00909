//! The command line's values, as the picker reads them.
use vstd::prelude::*;

use crate::types::AppAction;

verus! {

/// The options of the command line; an absent option is `None` (or `false`).
#[derive(Debug, Clone)]
pub struct CliArgs {
    pub config: Option<String>,
    pub store_backend: Option<String>,
    pub store_path: Option<String>,
    pub store_identities_file: Option<String>,
    pub store_key_file: Option<String>,
    pub menu_backend: Option<String>,
    pub clipboard_backend: Option<String>,
    pub autofill_backend: Option<String>,
    pub clip_time: Option<u64>,
    pub field: Option<String>,
    pub action: Option<CliAction>,
    pub no_notify: bool,
    pub trace: bool,
}

/// The action named on the command line.
#[derive(Debug, Clone, Copy, PartialEq, Eq, Structural)]
pub enum CliAction {
    Copy,
    Autofill,
}

/// The action that a command-line action stands for.
pub open spec fn cli_action(value: CliAction) -> AppAction {
    match value {
        CliAction::Copy => AppAction::Copy,
        CliAction::Autofill => AppAction::Autofill,
    }
}

impl From<CliAction> for AppAction {
    fn from(value: CliAction) -> (r: AppAction) {
        match value {
            CliAction::Copy => AppAction::Copy,
            CliAction::Autofill => AppAction::Autofill,
        }
    }
}

impl vstd::std_specs::convert::FromSpecImpl<CliAction> for AppAction {
    open spec fn obeys_from_spec() -> bool {
        true
    }

    open spec fn from_spec(v: CliAction) -> AppAction {
        cli_action(v)
    }
}

} // verus!
