//! The backends the picker runs with, chosen from the configuration in the
//! order that decides which error is reported first.
use vstd::prelude::*;

use crate::backends::autofill::{self, autofill_named, AutofillKind};
use crate::backends::clipboard::{self, clipboard_named, ClipboardChoice};
use crate::backends::menu::{self, menu_named, MenuKind};
use crate::backends::store::{self, require_existing_store_dir, store_named, store_plan_is, StorePlan};
use crate::config::{is_home_error, ResolvedConfig};
use crate::error::AppError;
use crate::types::AppAction;

verus! {

/// The delivery backends the picker runs with: a clipboard for copying, or
/// an autofill program for autofilling, never both.
#[derive(Debug, Clone, Copy, PartialEq, Eq, Structural)]
pub struct DeliveryPlan {
    pub clipboard: Option<ClipboardChoice>,
    pub autofill: Option<AutofillKind>,
}

/// The delivery backend of the configured action, or the error for its unknown name.
pub open spec fn delivery_result(config: ResolvedConfig, r: Result<DeliveryPlan, AppError>) -> bool {
    match config.action {
        AppAction::Copy => match clipboard_named(config.clipboard_backend@) {
            Some(kind) => r == Ok::<DeliveryPlan, AppError>(
                DeliveryPlan {
                    clipboard: Some(ClipboardChoice { kind, clip_time_secs: config.clip_time_secs }),
                    autofill: None,
                },
            ),
            None => r matches Err(AppError::Config(m)) && m@ == "Unknown clipboard backend: "@
                + config.clipboard_backend@,
        },
        AppAction::Autofill => match autofill_named(config.autofill_backend@) {
            Some(kind) => r == Ok::<DeliveryPlan, AppError>(
                DeliveryPlan { clipboard: None, autofill: Some(kind) },
            ),
            None => r matches Err(AppError::Config(m)) && m@ == "Unknown autofill backend: "@
                + config.autofill_backend@,
        },
    }
}

/// The delivery backend of the configured action; only that one is built,
/// so only its name has to be known.
pub fn delivery_backends(config: &ResolvedConfig) -> (r: Result<DeliveryPlan, AppError>)
    ensures
        delivery_result(*config, r),
{
    match config.action {
        AppAction::Copy => {
            let c = clipboard::build(config.clipboard_backend.as_str(), config.clip_time_secs)?;
            Ok(DeliveryPlan { clipboard: Some(c), autofill: None })
        },
        AppAction::Autofill => {
            let a = autofill::build(config.autofill_backend.as_str())?;
            Ok(DeliveryPlan { clipboard: None, autofill: Some(a) })
        },
    }
}

/// Every backend the picker runs with.
#[derive(Debug, Clone)]
pub struct RunPlan {
    pub menu: MenuKind,
    pub store: StorePlan,
    pub delivery: DeliveryPlan,
}

fn clone_text(o: &Option<String>) -> (r: Option<String>)
    ensures
        r == *o,
{
    match o {
        Some(s) => Some(s.clone()),
        None => None,
    }
}

/// A missing store directory: the directory `dir_exists` denied.
pub open spec fn store_missing<F: FnOnce(&str) -> bool>(dir_exists: F, e: AppError) -> bool {
    exists|d: &str|
        {
            &&& #[trigger] call_ensures(dir_exists, (d,), false)
            &&& e matches AppError::Config(m)
            &&& m@ == "Password store not found: "@ + d@
        }
}

/// The backends of a configuration: the menu, then the store (whose directory
/// must exist, as `dir_exists` tells), then the delivery backend; the first
/// of them that cannot be had gives the error.
pub fn plan_run<F>(config: &ResolvedConfig, home: Option<&str>, dir_exists: F) -> (r: Result<
    RunPlan,
    AppError,
>) where F: FnOnce(&str) -> bool
    requires
        forall|d: &str| call_requires(dir_exists, (d,)),
    ensures
        menu_named(config.menu_backend@) is None ==> (r matches Err(AppError::Config(m)) && m@
            == "Unknown menu backend: "@ + config.menu_backend@),
        menu_named(config.menu_backend@) is Some && store_named(config.store_backend@) is None
            ==> (r matches Err(AppError::Config(m)) && m@ == "Unknown store backend: "@
            + config.store_backend@),
        menu_named(config.menu_backend@) is Some && store_named(config.store_backend@) is Some
            && home is None ==> (r matches Err(e) && is_home_error(e)),
        r matches Ok(p) ==> {
            &&& menu_named(config.menu_backend@) == Some(p.menu)
            &&& store_named(config.store_backend@) matches Some(kind)
            &&& home matches Some(h)
            &&& store_plan_is(
                p.store,
                kind,
                config.store_path,
                config.store_identities_file,
                h@,
            )
            &&& exists|d: &str| d@ == p.store.store_dir@ && #[trigger] call_ensures(
                dir_exists,
                (d,),
                true,
            )
            &&& delivery_result(*config, Ok(p.delivery))
        },
        r matches Err(e) ==> (menu_named(config.menu_backend@) is Some && store_named(
            config.store_backend@,
        ) is Some && home is Some ==> store_missing(dir_exists, e) || delivery_result(
            *config,
            Err(e),
        )),
{
    let menu = menu::build(config.menu_backend.as_str())?;
    let planned = store::build(
        config.store_backend.as_str(),
        clone_text(&config.store_path),
        clone_text(&config.store_identities_file),
        home,
    )?;
    let is_dir = dir_exists(planned.store_dir.as_str());
    let StorePlan { kind, store_dir, identities_file } = planned;
    let store_dir = require_existing_store_dir(store_dir, is_dir)?;
    let store = StorePlan { kind, store_dir, identities_file };
    let delivery = delivery_backends(config)?;
    Ok(RunPlan { menu, store, delivery })
}

} // verus!
