//! A password picker: the entries of a `pass` or `passage` store are offered
//! in a menu, and the chosen field of the chosen entry is copied to the
//! clipboard or typed into the focused window.
pub mod args;
pub mod backends;
pub mod config;
pub mod context;
pub mod error;
pub mod flow;
pub mod logging;
pub mod notify;
pub mod plan;
pub mod text;
pub mod types;

pub use args::{CliAction, CliArgs};
pub use config::ResolvedConfig;
pub use error::{AppError, IoFailure};
pub use flow::{run_flow, AutofillBackend, ClipboardBackend, MenuBackend, PasswordStoreBackend};
pub use notify::Notifier;
pub use types::{parse_entry_content, ActionOutcome, AppAction, EntryContent};
