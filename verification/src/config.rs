//! The runtime configuration: built-in defaults, overridden by the config
//! file, overridden in turn by the command line.
use vstd::prelude::*;

use crate::args::{cli_action, CliArgs};
use crate::error::{AppError, IoFailure};
use crate::text::{
    ascii_lower, ascii_lowercase, chars_eq, chars_of, has_prefix, owned, push_all, push_str,
    slice_of, starts_with, string_of, trim, trim_chars,
};
use crate::types::AppAction;

verus! {

/// The `[store]` table of the config file.
#[derive(Debug, Clone)]
pub struct StoreConfig {
    pub backend: Option<String>,
    pub path: Option<String>,
    pub identities_file: Option<String>,
    pub key_file: Option<String>,
    pub database_path: Option<String>,
}

/// The `[menu]` table of the config file.
#[derive(Debug, Clone)]
pub struct MenuConfig {
    pub backend: Option<String>,
}

/// The `[clipboard]` table of the config file.
#[derive(Debug, Clone)]
pub struct ClipboardConfig {
    pub backend: Option<String>,
    pub clip_time_secs: Option<u64>,
}

/// The `[autofill]` table of the config file.
#[derive(Debug, Clone)]
pub struct AutofillConfig {
    pub backend: Option<String>,
}

/// The contents of the config file; an absent table or key is `None`.
#[derive(Debug, Clone)]
pub struct FileConfig {
    pub store: Option<StoreConfig>,
    pub menu: Option<MenuConfig>,
    pub clipboard: Option<ClipboardConfig>,
    pub autofill: Option<AutofillConfig>,
    pub clip_time_secs: Option<u64>,
    pub notify: Option<bool>,
}

impl Default for FileConfig {
    fn default() -> (r: FileConfig)
        ensures
            r == empty_file_config(),
    {
        FileConfig {
            store: None,
            menu: None,
            clipboard: None,
            autofill: None,
            clip_time_secs: None,
            notify: None,
        }
    }
}

/// A config file that sets nothing.
pub open spec fn empty_file_config() -> FileConfig {
    FileConfig {
        store: None,
        menu: None,
        clipboard: None,
        autofill: None,
        clip_time_secs: None,
        notify: None,
    }
}

/// The configuration the picker runs with.
#[derive(Debug, Clone, PartialEq, Eq)]
pub struct ResolvedConfig {
    pub store_backend: String,
    pub store_path: Option<String>,
    pub store_identities_file: Option<String>,
    pub store_key_file: Option<String>,
    pub menu_backend: String,
    pub clipboard_backend: String,
    pub autofill_backend: String,
    pub clip_time_secs: u64,
    pub action: AppAction,
    pub field: Option<String>,
    pub notify: bool,
}

/// The texts of a resolved configuration.
pub struct ConfigView {
    pub store_backend: Seq<char>,
    pub store_path: Option<Seq<char>>,
    pub store_identities_file: Option<Seq<char>>,
    pub store_key_file: Option<Seq<char>>,
    pub menu_backend: Seq<char>,
    pub clipboard_backend: Seq<char>,
    pub autofill_backend: Seq<char>,
    pub clip_time_secs: u64,
    pub action: AppAction,
    pub field: Option<Seq<char>>,
    pub notify: bool,
}

pub open spec fn opt_view(o: Option<String>) -> Option<Seq<char>> {
    match o {
        Some(s) => Some(s@),
        None => None,
    }
}

pub open spec fn opt_str(o: Option<&str>) -> Option<Seq<char>> {
    match o {
        Some(s) => Some(s@),
        None => None,
    }
}

impl View for ResolvedConfig {
    type V = ConfigView;

    open spec fn view(&self) -> ConfigView {
        ConfigView {
            store_backend: self.store_backend@,
            store_path: opt_view(self.store_path),
            store_identities_file: opt_view(self.store_identities_file),
            store_key_file: opt_view(self.store_key_file),
            menu_backend: self.menu_backend@,
            clipboard_backend: self.clipboard_backend@,
            autofill_backend: self.autofill_backend@,
            clip_time_secs: self.clip_time_secs,
            action: self.action,
            field: opt_view(self.field),
            notify: self.notify,
        }
    }
}

/// How long a copied value stays on the clipboard when nothing else is configured.
pub const DEFAULT_CLIP_TIME_SECS: u64 = 45;

/// The configuration when neither the file nor the command line sets anything.
pub open spec fn default_view() -> ConfigView {
    ConfigView {
        store_backend: "passage"@,
        store_path: None,
        store_identities_file: None,
        store_key_file: None,
        menu_backend: "wofi"@,
        clipboard_backend: "wl-clipboard"@,
        autofill_backend: "wtype"@,
        clip_time_secs: DEFAULT_CLIP_TIME_SECS,
        action: AppAction::Copy,
        field: None,
        notify: true,
    }
}

/// The store backend used when none is configured.
pub fn default_store_backend() -> (r: &'static str)
    ensures
        r@ == "passage"@,
{
    "passage"
}

/// The menu backend used when none is configured.
pub fn default_menu_backend() -> (r: &'static str)
    ensures
        r@ == "wofi"@,
{
    "wofi"
}

/// The clipboard backend used when none is configured.
pub fn default_clipboard_backend() -> (r: &'static str)
    ensures
        r@ == "wl-clipboard"@,
{
    "wl-clipboard"
}

/// The autofill backend used when none is configured.
pub fn default_autofill_backend() -> (r: &'static str)
    ensures
        r@ == "wtype"@,
{
    "wtype"
}

impl Default for ResolvedConfig {
    fn default() -> (r: ResolvedConfig)
        ensures
            r@ == default_view(),
    {
        ResolvedConfig {
            store_backend: owned(default_store_backend()),
            store_path: None,
            store_identities_file: None,
            store_key_file: None,
            menu_backend: owned(default_menu_backend()),
            clipboard_backend: owned(default_clipboard_backend()),
            autofill_backend: owned(default_autofill_backend()),
            clip_time_secs: DEFAULT_CLIP_TIME_SECS,
            action: AppAction::Copy,
            field: None,
            notify: true,
        }
    }
}

/// A backend name as the picker compares it: trimmed and ASCII lower-cased.
pub open spec fn normalized(name: Seq<char>) -> Seq<char> {
    ascii_lower(trim(name))
}

/// Whether a path is written relative to the home directory.
pub open spec fn needs_home(raw: Seq<char>) -> bool {
    raw == "~"@ || starts_with(raw, "~/"@)
}

/// `base` joined with `rel` as `Path::join` does on Unix: an absolute `rel`
/// replaces `base`, and a separator is put between them where needed.
pub open spec fn join_path(base: Seq<char>, rel: Seq<char>) -> Seq<char> {
    if starts_with(rel, "/"@) {
        rel
    } else if base.len() == 0 || base.last() == '/' {
        base + rel
    } else {
        base + "/"@ + rel
    }
}

/// A path with a leading `~` replaced by the home directory.
pub open spec fn expand_with(raw: Seq<char>, home: Seq<char>) -> Seq<char> {
    if raw == "~"@ {
        home
    } else if starts_with(raw, "~/"@) {
        join_path(home, raw.skip(2))
    } else {
        raw
    }
}

/// Whether an optional path can be expanded: it needs no home directory, or one is known.
pub open spec fn expands(raw: Option<String>, home: Option<Seq<char>>) -> bool {
    raw matches Some(r) ==> (needs_home(r@) ==> home is Some)
}

/// An optional path after expansion.
pub open spec fn expanded(raw: Option<String>, home: Option<Seq<char>>) -> Option<Seq<char>> {
    match raw {
        Some(r) => Some(
            match home {
                Some(h) => expand_with(r@, h),
                None => r@,
            },
        ),
        None => None,
    }
}

/// A name setting: the new value, normalized, when there is one, else the old value.
pub open spec fn set_name(old: Seq<char>, new: Option<String>) -> Seq<char> {
    match new {
        Some(n) => normalized(n@),
        None => old,
    }
}

/// A path setting: the new path, expanded, when there is one, else the old value.
pub open spec fn set_path(old: Option<Seq<char>>, new: Option<String>, home: Option<Seq<char>>) -> Option<
    Seq<char>,
> {
    match new {
        Some(_) => expanded(new, home),
        None => old,
    }
}

pub open spec fn set_value<T>(old: T, new: Option<T>) -> T {
    match new {
        Some(n) => n,
        None => old,
    }
}

/// Whether every path in the config file can be expanded.
pub open spec fn file_expands(f: FileConfig, home: Option<Seq<char>>) -> bool {
    f.store matches Some(s) ==> {
        &&& expands(s.path, home)
        &&& expands(s.identities_file, home)
        &&& expands(s.key_file, home)
        &&& expands(s.database_path, home)
    }
}

/// Whether every path on the command line can be expanded.
pub open spec fn args_expand(a: CliArgs, home: Option<Seq<char>>) -> bool {
    &&& expands(a.store_path, home)
    &&& expands(a.store_identities_file, home)
    &&& expands(a.store_key_file, home)
}

/// The configuration after the config file's settings are applied to `c`.
pub open spec fn merge_file(c: ConfigView, f: FileConfig, home: Option<Seq<char>>) -> ConfigView {
    let c1 = match f.store {
        Some(s) => ConfigView {
            store_backend: set_name(c.store_backend, s.backend),
            store_path: set_path(set_path(c.store_path, s.path, home), s.database_path, home),
            store_identities_file: set_path(c.store_identities_file, s.identities_file, home),
            store_key_file: set_path(c.store_key_file, s.key_file, home),
            ..c
        },
        None => c,
    };
    let c2 = match f.menu {
        Some(m) => ConfigView { menu_backend: set_name(c1.menu_backend, m.backend), ..c1 },
        None => c1,
    };
    let c3 = match f.clipboard {
        Some(cb) => ConfigView {
            clipboard_backend: set_name(c2.clipboard_backend, cb.backend),
            clip_time_secs: set_value(c2.clip_time_secs, cb.clip_time_secs),
            ..c2
        },
        None => c2,
    };
    let c4 = match f.autofill {
        Some(a) => ConfigView { autofill_backend: set_name(c3.autofill_backend, a.backend), ..c3 },
        None => c3,
    };
    ConfigView {
        clip_time_secs: set_value(c4.clip_time_secs, f.clip_time_secs),
        notify: set_value(c4.notify, f.notify),
        ..c4
    }
}

/// The configuration after the command line's settings are applied to `c`.
pub open spec fn merge_args(c: ConfigView, a: CliArgs, home: Option<Seq<char>>) -> ConfigView {
    ConfigView {
        store_backend: set_name(c.store_backend, a.store_backend),
        store_path: set_path(c.store_path, a.store_path, home),
        store_identities_file: set_path(c.store_identities_file, a.store_identities_file, home),
        store_key_file: set_path(c.store_key_file, a.store_key_file, home),
        menu_backend: set_name(c.menu_backend, a.menu_backend),
        clipboard_backend: set_name(c.clipboard_backend, a.clipboard_backend),
        autofill_backend: set_name(c.autofill_backend, a.autofill_backend),
        clip_time_secs: set_value(c.clip_time_secs, a.clip_time),
        action: match a.action {
            Some(x) => cli_action(x),
            None => c.action,
        },
        field: match a.field {
            Some(x) => Some(x@),
            None => c.field,
        },
        notify: if a.no_notify {
            false
        } else {
            c.notify
        },
    }
}

/// The configuration that the defaults, the config file and the command line give.
pub open spec fn resolve(a: CliArgs, f: FileConfig, home: Option<Seq<char>>) -> ConfigView {
    merge_args(merge_file(default_view(), f, home), a, home)
}

/// Whether resolving succeeds: every configured path can be expanded.
pub open spec fn resolves(a: CliArgs, f: FileConfig, home: Option<Seq<char>>) -> bool {
    file_expands(f, home) && args_expand(a, home)
}

pub open spec fn is_home_error(e: AppError) -> bool {
    e matches AppError::Config(m) && m@ == "`HOME` is not set."@
}

/// A backend name trimmed and ASCII lower-cased.
pub fn normalize_backend_name(value: &str) -> (r: String)
    ensures
        r@ == normalized(value@),
{
    let raw = chars_of(value);
    let t = trim_chars(raw.as_slice());
    let l = ascii_lowercase(t.as_slice());
    string_of(l.as_slice())
}

/// The home directory, or an error when it is not known.
pub fn home_dir(home: Option<&str>) -> (r: Result<String, AppError>)
    ensures
        r matches Ok(h) ==> home matches Some(x) && h@ == x@,
        r matches Err(e) ==> home is None && is_home_error(e),
        r is Ok <==> home is Some,
{
    match home {
        Some(h) => Ok(owned(h)),
        None => Err(AppError::Config(owned("`HOME` is not set."))),
    }
}

/// `base` joined with `rel` as `Path::join` does on Unix.
pub fn join_path_chars(base: &[char], rel: &[char]) -> (r: Vec<char>)
    ensures
        r@ == join_path(base@, rel@),
{
    let slash = chars_of("/");
    if has_prefix(rel, slash.as_slice()) {
        return slice_of(rel, 0, rel.len());
    }
    let mut r = slice_of(base, 0, base.len());
    if !(base.len() == 0 || base[base.len() - 1] == '/') {
        r.push('/');
        assert(r@ == base@ + "/"@) by {
            reveal_strlit("/");
        }
    }
    push_all(&mut r, rel);
    r
}

/// A path with a leading `~` replaced by the home directory; the home
/// directory must be known when the path starts with it.
pub fn expand_tilde(raw: &str, home: Option<&str>) -> (r: Result<String, AppError>)
    ensures
        r is Err <==> needs_home(raw@) && home is None,
        r matches Err(e) ==> is_home_error(e),
        r matches Ok(p) ==> p@ == match home {
            Some(h) => expand_with(raw@, h@),
            None => raw@,
        },
{
    let v = chars_of(raw);
    let tilde = chars_of("~");
    let tilde_slash = chars_of("~/");
    if chars_eq(v.as_slice(), tilde.as_slice()) {
        return home_dir(home);
    }
    if has_prefix(v.as_slice(), tilde_slash.as_slice()) {
        proof {
            reveal_strlit("~/");
        }
        let h = home_dir(home)?;
        let hv = chars_of(h.as_str());
        let rest = slice_of(v.as_slice(), 2, v.len());
        assert(rest@ == raw@.skip(2));
        let joined = join_path_chars(hv.as_slice(), rest.as_slice());
        return Ok(string_of(joined.as_slice()));
    }
    Ok(owned(raw))
}

fn expand_opt(raw: &Option<String>, home: Option<&str>) -> (r: Result<Option<String>, AppError>)
    ensures
        r is Ok <==> expands(*raw, opt_str(home)),
        r matches Err(e) ==> is_home_error(e),
        r matches Ok(p) ==> opt_view(p) == expanded(*raw, opt_str(home)),
{
    match raw {
        Some(x) => {
            let p = expand_tilde(x.as_str(), home)?;
            Ok(Some(p))
        },
        None => Ok(None),
    }
}

/// The path the config file is read from by default: under
/// `$XDG_CONFIG_HOME` when that is set, else under `~/.config`.
pub fn default_config_path(xdg_config_home: Option<&str>, home: Option<&str>) -> (r: Result<
    String,
    AppError,
>)
    ensures
        r is Err <==> xdg_config_home is None && home is None,
        r matches Err(e) ==> is_home_error(e),
        r matches Ok(p) ==> p@ == match xdg_config_home {
            Some(x) => join_path(join_path(x@, "pmenu"@), "config.toml"@),
            None => join_path(
                join_path(join_path(home.unwrap()@, ".config"@), "pmenu"@),
                "config.toml"@,
            ),
        },
{
    let pmenu = chars_of("pmenu");
    let file = chars_of("config.toml");
    let base = match xdg_config_home {
        Some(x) => chars_of(x),
        None => {
            let h = home_dir(home)?;
            let hv = chars_of(h.as_str());
            let dot_config = chars_of(".config");
            join_path_chars(hv.as_slice(), dot_config.as_slice())
        },
    };
    let dir = join_path_chars(base.as_slice(), pmenu.as_slice());
    let path = join_path_chars(dir.as_slice(), file.as_slice());
    Ok(string_of(path.as_slice()))
}

/// The path the config file is read from: the one given on the command line,
/// expanded, or the default one. Both are worked out, so a missing home
/// directory is an error whenever either of them needs it.
pub fn config_path(config: Option<&str>, xdg_config_home: Option<&str>, home: Option<&str>) -> (r:
    Result<String, AppError>)
    ensures
        r is Ok <==> (config matches Some(c) ==> !(needs_home(c@) && home is None)) && (
        xdg_config_home is Some || home is Some),
        r matches Err(e) ==> is_home_error(e),
        r matches Ok(p) ==> match config {
            Some(c) => p@ == match home {
                Some(h) => expand_with(c@, h@),
                None => c@,
            },
            None => p@ == match xdg_config_home {
                Some(x) => join_path(join_path(x@, "pmenu"@), "config.toml"@),
                None => join_path(
                    join_path(join_path(home.unwrap()@, ".config"@), "pmenu"@),
                    "config.toml"@,
                ),
            },
        },
{
    let given = match config {
        Some(c) => Some(expand_tilde(c, home)?),
        None => None,
    };
    let fallback = default_config_path(xdg_config_home, home)?;
    match given {
        Some(p) => Ok(p),
        None => Ok(fallback),
    }
}

/// What became of reading the config file.
pub enum ConfigSource {
    Missing,
    Unreadable(IoFailure),
    Malformed(String),
    Parsed(FileConfig),
}

/// The config file's contents: a missing file is an error only when it was
/// asked for on the command line, and counts as empty otherwise.
pub fn load_file_config(path: &str, required: bool, source: ConfigSource) -> (r: Result<
    FileConfig,
    AppError,
>)
    ensures
        source is Missing ==> if required {
            r matches Err(AppError::Config(m)) && m@ == "Config file not found: "@ + path@
        } else {
            r == Ok::<FileConfig, AppError>(empty_file_config())
        },
        source matches ConfigSource::Unreadable(e) ==> r == Err::<FileConfig, AppError>(
            AppError::Io(e),
        ),
        source matches ConfigSource::Malformed(msg) ==> r matches Err(AppError::Config(m)) && m@
            == "Failed to parse config file "@ + path@ + ": "@ + msg@,
        source matches ConfigSource::Parsed(f) ==> r == Ok::<FileConfig, AppError>(f),
{
    match source {
        ConfigSource::Missing => {
            if required {
                let mut m: Vec<char> = Vec::new();
                push_str(&mut m, "Config file not found: ");
                push_str(&mut m, path);
                Err(AppError::Config(string_of(m.as_slice())))
            } else {
                Ok(FileConfig::default())
            }
        },
        ConfigSource::Unreadable(e) => Err(AppError::Io(e)),
        ConfigSource::Malformed(msg) => {
            let mut m: Vec<char> = Vec::new();
            push_str(&mut m, "Failed to parse config file ");
            push_str(&mut m, path);
            push_str(&mut m, ": ");
            push_str(&mut m, msg.as_str());
            Err(AppError::Config(string_of(m.as_slice())))
        },
        ConfigSource::Parsed(f) => Ok(f),
    }
}

impl ResolvedConfig {
    /// The configuration from the defaults, the config file and the command
    /// line, later ones taking precedence; backend names are normalized and
    /// paths expanded.
    pub fn load(args: CliArgs, file_config: FileConfig, home: Option<&str>) -> (r: Result<
        ResolvedConfig,
        AppError,
    >)
        ensures
            r is Ok <==> resolves(args, file_config, opt_str(home)),
            r matches Ok(c) ==> c@ == resolve(args, file_config, opt_str(home)),
            r matches Err(e) ==> is_home_error(e),
    {
        let mut resolved = ResolvedConfig::default();
        resolved.merge_file_config(file_config, home)?;
        resolved.merge_args(args, home)?;
        Ok(resolved)
    }

    fn merge_file_config(&mut self, file_config: FileConfig, home: Option<&str>) -> (r: Result<
        (),
        AppError,
    >)
        ensures
            r is Ok <==> file_expands(file_config, opt_str(home)),
            r matches Err(e) ==> is_home_error(e),
            r is Ok ==> final(self)@ == merge_file(old(self)@, file_config, opt_str(home)),
    {
        let ghost h = opt_str(home);
        if let Some(store) = file_config.store {
            if let Some(backend) = store.backend {
                self.store_backend = normalize_backend_name(backend.as_str());
            }
            if let Some(path) = expand_opt(&store.path, home)? {
                self.store_path = Some(path);
            }
            if let Some(identities_file) = expand_opt(&store.identities_file, home)? {
                self.store_identities_file = Some(identities_file);
            }
            if let Some(key_file) = expand_opt(&store.key_file, home)? {
                self.store_key_file = Some(key_file);
            }
            if let Some(database_path) = expand_opt(&store.database_path, home)? {
                self.store_path = Some(database_path);
            }
        }
        if let Some(menu) = file_config.menu {
            if let Some(backend) = menu.backend {
                self.menu_backend = normalize_backend_name(backend.as_str());
            }
        }
        if let Some(clipboard) = file_config.clipboard {
            if let Some(backend) = clipboard.backend {
                self.clipboard_backend = normalize_backend_name(backend.as_str());
            }
            if let Some(clip_time_secs) = clipboard.clip_time_secs {
                self.clip_time_secs = clip_time_secs;
            }
        }
        if let Some(autofill) = file_config.autofill {
            if let Some(backend) = autofill.backend {
                self.autofill_backend = normalize_backend_name(backend.as_str());
            }
        }
        if let Some(clip_time_secs) = file_config.clip_time_secs {
            self.clip_time_secs = clip_time_secs;
        }
        if let Some(notify) = file_config.notify {
            self.notify = notify;
        }
        Ok(())
    }

    fn merge_args(&mut self, args: CliArgs, home: Option<&str>) -> (r: Result<(), AppError>)
        ensures
            r is Ok <==> args_expand(args, opt_str(home)),
            r matches Err(e) ==> is_home_error(e),
            r is Ok ==> final(self)@ == merge_args(old(self)@, args, opt_str(home)),
    {
        if let Some(backend) = args.store_backend {
            self.store_backend = normalize_backend_name(backend.as_str());
        }
        if let Some(path) = expand_opt(&args.store_path, home)? {
            self.store_path = Some(path);
        }
        if let Some(identities_file) = expand_opt(&args.store_identities_file, home)? {
            self.store_identities_file = Some(identities_file);
        }
        if let Some(key_file) = expand_opt(&args.store_key_file, home)? {
            self.store_key_file = Some(key_file);
        }
        if let Some(backend) = args.menu_backend {
            self.menu_backend = normalize_backend_name(backend.as_str());
        }
        if let Some(backend) = args.clipboard_backend {
            self.clipboard_backend = normalize_backend_name(backend.as_str());
        }
        if let Some(backend) = args.autofill_backend {
            self.autofill_backend = normalize_backend_name(backend.as_str());
        }
        if let Some(clip_time_secs) = args.clip_time {
            self.clip_time_secs = clip_time_secs;
        }
        if let Some(action) = args.action {
            self.action = AppAction::from(action);
        }
        if let Some(field) = args.field {
            self.field = Some(field);
        }
        if args.no_notify {
            self.notify = false;
        }
        Ok(())
    }
}

/// A command line that sets nothing.
pub open spec fn no_args() -> CliArgs {
    CliArgs {
        config: None,
        store_backend: None,
        store_path: None,
        store_identities_file: None,
        store_key_file: None,
        menu_backend: None,
        clipboard_backend: None,
        autofill_backend: None,
        clip_time: None,
        field: None,
        action: None,
        no_notify: false,
        trace: false,
    }
}

/// Every value set on the command line is the one the picker runs with,
/// whatever the config file holds.
pub proof fn lemma_cli_overrides_file(a: CliArgs, f: FileConfig, home: Option<Seq<char>>)
    ensures
        ({
            let c = resolve(a, f, home);
            &&& a.store_backend matches Some(b) ==> c.store_backend == normalized(b@)
            &&& a.store_path is Some ==> c.store_path == expanded(a.store_path, home)
            &&& a.store_identities_file is Some ==> c.store_identities_file == expanded(
                a.store_identities_file,
                home,
            )
            &&& a.store_key_file is Some ==> c.store_key_file == expanded(a.store_key_file, home)
            &&& a.menu_backend matches Some(b) ==> c.menu_backend == normalized(b@)
            &&& a.clipboard_backend matches Some(b) ==> c.clipboard_backend == normalized(b@)
            &&& a.autofill_backend matches Some(b) ==> c.autofill_backend == normalized(b@)
            &&& a.clip_time matches Some(t) ==> c.clip_time_secs == t
            &&& a.action matches Some(x) ==> c.action == cli_action(x)
            &&& a.field matches Some(x) ==> c.field == Some(x@)
            &&& a.no_notify ==> !c.notify
        }),
{
}

/// With no config file and no options, the picker runs with the built-in
/// defaults, whatever the home directory.
pub proof fn lemma_defaults_without_config(home: Option<Seq<char>>)
    ensures
        resolves(no_args(), empty_file_config(), home),
        resolve(no_args(), empty_file_config(), home) == default_view(),
{
}

/// With no options on the command line, the config file alone decides.
pub proof fn lemma_file_decides_without_options(f: FileConfig, home: Option<Seq<char>>)
    ensures
        resolves(no_args(), f, home) == file_expands(f, home),
        resolve(no_args(), f, home) == merge_file(default_view(), f, home),
{
}

/// Applying the config file changes only what it sets: a path from the store
/// section, `database_path` before `path`, replaces the store path; the
/// top-level `clip_time_secs` wins over the clipboard section's; `notify` is
/// the file's when it has one; every setting whose section or key is missing
/// keeps its value; the action and the field never change.
pub proof fn lemma_file_merge(c: ConfigView, f: FileConfig, home: Option<Seq<char>>)
    ensures
        ({
            let m = merge_file(c, f, home);
            &&& m.action == c.action
            &&& m.field == c.field
            &&& m.store_path == match f.store {
                Some(s) => if s.database_path is Some {
                    expanded(s.database_path, home)
                } else if s.path is Some {
                    expanded(s.path, home)
                } else {
                    c.store_path
                },
                None => c.store_path,
            }
            &&& m.clip_time_secs == match f.clip_time_secs {
                Some(t) => t,
                None => match f.clipboard {
                    Some(cb) => set_value(c.clip_time_secs, cb.clip_time_secs),
                    None => c.clip_time_secs,
                },
            }
            &&& m.notify == set_value(c.notify, f.notify)
            &&& f.store is None ==> {
                &&& m.store_backend == c.store_backend
                &&& m.store_identities_file == c.store_identities_file
                &&& m.store_key_file == c.store_key_file
            }
            &&& f.store matches Some(s) ==> {
                &&& m.store_backend == set_name(c.store_backend, s.backend)
                &&& m.store_identities_file == set_path(
                    c.store_identities_file,
                    s.identities_file,
                    home,
                )
                &&& m.store_key_file == set_path(c.store_key_file, s.key_file, home)
            }
            &&& m.menu_backend == match f.menu {
                Some(mb) => set_name(c.menu_backend, mb.backend),
                None => c.menu_backend,
            }
            &&& m.clipboard_backend == match f.clipboard {
                Some(cb) => set_name(c.clipboard_backend, cb.backend),
                None => c.clipboard_backend,
            }
            &&& m.autofill_backend == match f.autofill {
                Some(ab) => set_name(c.autofill_backend, ab.backend),
                None => c.autofill_backend,
            }
        }),
{
}

/// Applying the command line changes only what it sets: each option given
/// replaces its setting, each option left out keeps it, `--no-notify` turns
/// notifications off and its absence leaves them as they were, and the
/// config file's path and the trace switch change nothing.
pub proof fn lemma_args_merge(c: ConfigView, a: CliArgs, home: Option<Seq<char>>)
    ensures
        ({
            let m = merge_args(c, a, home);
            &&& a.store_backend is None ==> m.store_backend == c.store_backend
            &&& a.store_path is None ==> m.store_path == c.store_path
            &&& a.store_identities_file is None ==> m.store_identities_file
                == c.store_identities_file
            &&& a.store_key_file is None ==> m.store_key_file == c.store_key_file
            &&& a.menu_backend is None ==> m.menu_backend == c.menu_backend
            &&& a.clipboard_backend is None ==> m.clipboard_backend == c.clipboard_backend
            &&& a.autofill_backend is None ==> m.autofill_backend == c.autofill_backend
            &&& a.clip_time is None ==> m.clip_time_secs == c.clip_time_secs
            &&& a.action is None ==> m.action == c.action
            &&& a.field is None ==> m.field == c.field
            &&& a.store_backend matches Some(b) ==> m.store_backend == normalized(b@)
            &&& a.store_path is Some ==> m.store_path == expanded(a.store_path, home)
            &&& a.clip_time matches Some(t) ==> m.clip_time_secs == t
            &&& a.action matches Some(x) ==> m.action == cli_action(x)
            &&& a.field matches Some(x) ==> m.field == Some(x@)
            &&& m.notify == (c.notify && !a.no_notify)
            &&& m == merge_args(c, CliArgs { config: None, trace: false, ..a }, home)
        }),
{
}

} // verus!
