//! The password stores: `pass` keeps `.gpg` files, `passage` keeps `.age` files.
use vstd::prelude::*;

use crate::config::{home_dir, is_home_error, join_path, join_path_chars};
use crate::error::AppError;
use crate::text::{
    ascending, chars_eq, chars_of, ends_with, has_prefix, has_suffix, join, join_chars, owned,
    push_str, replace_char, replace_chars, slice_of, sort_strings, starts_with, string_of, views,
    decode_lossy, utf8_lossy,
};
use crate::types::{parse_entry_content, parsed_entry, EntryContent};

verus! {

#[derive(Debug, Clone, Copy, PartialEq, Eq, Structural)]
pub enum StoreKind {
    Pass,
    Passage,
}

/// A password store: its kind, its directory, and the identities file that
/// `passage` decrypts with.
#[derive(Debug, Clone)]
pub struct StorePlan {
    pub kind: StoreKind,
    pub store_dir: String,
    pub identities_file: Option<String>,
}

/// The directory a store lives in when none is configured, below the home directory.
pub open spec fn default_store_dir(kind: StoreKind) -> Seq<char> {
    match kind {
        StoreKind::Pass => ".password-store"@,
        StoreKind::Passage => ".passage/store"@,
    }
}

/// A directory below the home directory.
pub fn home_subdir(home: Option<&str>, suffix: &str) -> (r: Result<String, AppError>)
    ensures
        r is Err <==> home is None,
        r matches Err(e) ==> is_home_error(e),
        r matches Ok(p) ==> p@ == join_path(home.unwrap()@, suffix@),
{
    let h = home_dir(home)?;
    let hv = chars_of(h.as_str());
    let sv = chars_of(suffix);
    Ok(string_of(join_path_chars(hv.as_slice(), sv.as_slice()).as_slice()))
}

/// The store backend a name stands for.
pub open spec fn store_named(name: Seq<char>) -> Option<StoreKind> {
    if name == "pass"@ {
        Some(StoreKind::Pass)
    } else if name == "passage"@ {
        Some(StoreKind::Passage)
    } else {
        None
    }
}

/// The store of a backend: the configured directory or the default one below
/// the home directory, and the identities file when the backend uses one.
pub open spec fn store_plan_is(
    p: StorePlan,
    kind: StoreKind,
    store_path: Option<String>,
    identities_file: Option<String>,
    home: Seq<char>,
) -> bool {
    &&& p.kind == kind
    &&& p.store_dir@ == match store_path {
        Some(s) => s@,
        None => join_path(home, default_store_dir(kind)),
    }
    &&& p.identities_file == if kind == StoreKind::Passage {
        identities_file
    } else {
        None
    }
}

/// The store backend of the given name, in the configured directory or the
/// default one. The default is worked out in any case, so the home directory
/// must be known.
pub fn build(
    name: &str,
    store_path: Option<String>,
    identities_file: Option<String>,
    home: Option<&str>,
) -> (r: Result<StorePlan, AppError>)
    ensures
        match store_named(name@) {
            None => r matches Err(AppError::Config(m)) && m@ == "Unknown store backend: "@ + name@,
            Some(kind) => match home {
                None => r matches Err(e) && is_home_error(e),
                Some(h) => r matches Ok(p) && store_plan_is(
                    p,
                    kind,
                    store_path,
                    identities_file,
                    h@,
                ),
            },
        },
{
    proof {
        reveal_strlit("pass");
        reveal_strlit("passage");
        assert("pass"@.len() != "passage"@.len());
    }
    let n = chars_of(name);
    let kind = if chars_eq(n.as_slice(), chars_of("pass").as_slice()) {
        StoreKind::Pass
    } else if chars_eq(n.as_slice(), chars_of("passage").as_slice()) {
        StoreKind::Passage
    } else {
        let mut m: Vec<char> = Vec::new();
        push_str(&mut m, "Unknown store backend: ");
        push_str(&mut m, name);
        return Err(AppError::Config(string_of(m.as_slice())));
    };
    let default_dir = match kind {
        StoreKind::Pass => home_subdir(home, ".password-store")?,
        StoreKind::Passage => home_subdir(home, ".passage/store")?,
    };
    let store_dir = match store_path {
        Some(p) => p,
        None => default_dir,
    };
    let identities_file = match kind {
        StoreKind::Pass => None,
        StoreKind::Passage => identities_file,
    };
    Ok(StorePlan { kind, store_dir, identities_file })
}

/// The store directory, when it exists.
pub fn require_existing_store_dir(path: String, is_dir: bool) -> (r: Result<String, AppError>)
    ensures
        is_dir ==> r == Ok::<String, AppError>(path),
        !is_dir ==> (r matches Err(AppError::Config(m)) && m@ == "Password store not found: "@
            + path@),
{
    if is_dir {
        Ok(path)
    } else {
        let mut m: Vec<char> = Vec::new();
        push_str(&mut m, "Password store not found: ");
        push_str(&mut m, path.as_str());
        Err(AppError::Config(string_of(m.as_slice())))
    }
}

/// The program of a store backend.
pub fn program(kind: StoreKind) -> (r: &'static str)
    ensures
        kind == StoreKind::Pass ==> r@ == "pass"@,
        kind == StoreKind::Passage ==> r@ == "passage"@,
{
    match kind {
        StoreKind::Pass => "pass",
        StoreKind::Passage => "passage",
    }
}

/// The environment variable that tells the program where the store is.
pub fn dir_variable(kind: StoreKind) -> (r: &'static str)
    ensures
        kind == StoreKind::Pass ==> r@ == "PASSWORD_STORE_DIR"@,
        kind == StoreKind::Passage ==> r@ == "PASSAGE_DIR"@,
{
    match kind {
        StoreKind::Pass => "PASSWORD_STORE_DIR",
        StoreKind::Passage => "PASSAGE_DIR",
    }
}

/// The file extension of the entries of a store.
pub fn extension(kind: StoreKind) -> (r: &'static str)
    ensures
        kind == StoreKind::Pass ==> r@ == ".gpg"@,
        kind == StoreKind::Passage ==> r@ == ".age"@,
{
    match kind {
        StoreKind::Pass => ".gpg",
        StoreKind::Passage => ".age",
    }
}

/// The arguments of `pass` that print an entry.
pub fn pass_show_args(entry: &str) -> (r: Vec<String>)
    ensures
        views(r@) == seq!["show"@, entry@],
{
    let mut v: Vec<String> = Vec::new();
    v.push(owned("show"));
    v.push(owned(entry));
    assert(views(v@) =~= seq!["show"@, entry@]);
    v
}

/// The arguments of `passage` that print an entry.
pub fn passage_show_args(entry: &str) -> (r: Vec<String>)
    ensures
        views(r@) == seq!["show"@, entry@],
{
    let mut v: Vec<String> = Vec::new();
    v.push(owned("show"));
    v.push(owned(entry));
    assert(views(v@) =~= seq!["show"@, entry@]);
    v
}

/// The arguments that print an entry with a store's program.
pub fn show_args(kind: StoreKind, entry: &str) -> (r: Vec<String>)
    ensures
        views(r@) == seq!["show"@, entry@],
{
    match kind {
        StoreKind::Pass => pass_show_args(entry),
        StoreKind::Passage => passage_show_args(entry),
    }
}

/// The name a store's show command is reported under.
pub open spec fn show_label(kind: StoreKind, entry: Seq<char>) -> Seq<char> {
    (if kind == StoreKind::Pass {
        "pass"@
    } else {
        "passage"@
    }) + " "@ + join(seq!["show"@, entry], " "@)
}

/// What a store program's run means, its output read as UTF-8 with invalid
/// sequences replaced: the entry it printed, or the failure of the command.
pub fn show_outcome(
    kind: StoreKind,
    entry: &str,
    exit: crate::backends::ExitReport,
    stdout: &[u8],
    stderr: &[u8],
) -> (r: Result<EntryContent, AppError>)
    ensures
        !exit.success ==> (r matches Err(AppError::CommandFailed { command, code, stderr: e })
            && command@ == show_label(kind, entry@) && code == exit.code && e@ == utf8_lossy(
            stderr@,
        )),
        exit.success ==> parsed_entry(utf8_lossy(stdout@), r),
{
    if !exit.success {
        let args = show_args(kind, entry);
        let mut m: Vec<char> = Vec::new();
        push_str(&mut m, program(kind));
        push_str(&mut m, " ");
        let joined = join_chars(args.as_slice(), " ");
        crate::text::push_all(&mut m, joined.as_slice());
        return Err(
            AppError::CommandFailed {
                command: string_of(m.as_slice()),
                code: exit.code,
                stderr: decode_lossy(stderr),
            },
        );
    }
    let text = decode_lossy(stdout);
    parse_entry_content(text.as_str())
}

/// Whether a file or directory is hidden: its name is text that starts with `.`.
pub fn is_hidden_name(name: Option<&str>) -> (r: bool)
    ensures
        r == (name matches Some(n) && starts_with(n@, "."@)),
{
    match name {
        Some(n) => has_prefix(chars_of(n).as_slice(), chars_of(".").as_slice()),
        None => false,
    }
}

/// What the walk of a store does with an entry of a directory.
#[derive(Debug, Clone, Copy, PartialEq, Eq, Structural)]
pub enum WalkStep {
    /// A hidden file or directory: passed over, with all it holds.
    Skip,
    /// A visible directory: walked in turn.
    Descend,
    /// A visible file: a candidate entry.
    Collect,
}

/// What the walk of a store does with an entry of a directory, given its name
/// (when that is text) and whether it is a directory.
pub fn walk_step(name: Option<&str>, is_dir: bool) -> (r: WalkStep)
    ensures
        r == (if name matches Some(n) && starts_with(n@, "."@) {
            WalkStep::Skip
        } else if is_dir {
            WalkStep::Descend
        } else {
            WalkStep::Collect
        }),
{
    if is_hidden_name(name) {
        WalkStep::Skip
    } else if is_dir {
        WalkStep::Descend
    } else {
        WalkStep::Collect
    }
}

/// A file found in a store: the directories that lead to it from the store's
/// root, and its name when that is text.
#[derive(Debug, Clone)]
pub struct StoreFile {
    pub dirs: Vec<String>,
    pub name: Option<String>,
}

/// The entry a file stands for: its path from the store's root with `/`
/// between the parts, backslashes turned into `/`, and the extension removed;
/// only files whose name ends with the extension stand for an entry.
pub open spec fn entry_of(f: StoreFile, ext: Seq<char>) -> Option<Seq<char>> {
    match f.name {
        Some(n) => if ends_with(n@, ext) {
            let rel = replace_char(join(views(f.dirs@).push(n@), "/"@), '\\', '/');
            Some(rel.take(rel.len() - ext.len()))
        } else {
            None
        },
        None => None,
    }
}

/// The entries the files stand for, in the order of the files.
pub open spec fn listed(files: Seq<StoreFile>, ext: Seq<char>) -> Seq<Seq<char>>
    decreases files.len(),
{
    if files.len() == 0 {
        seq![]
    } else {
        let rest = listed(files.drop_last(), ext);
        match entry_of(files.last(), ext) {
            Some(e) => rest.push(e),
            None => rest,
        }
    }
}

proof fn lemma_join_len(parts: Seq<Seq<char>>, sep: Seq<char>)
    requires
        parts.len() > 0,
    ensures
        join(parts, sep).len() >= parts.last().len(),
        ends_with(join(parts, sep), parts.last()),
    decreases parts.len(),
{
    if parts.len() > 1 {
        let j = join(parts, sep);
        assert(j == join(parts.drop_last(), sep) + sep + parts.last());
        assert(j.skip(j.len() - parts.last().len()) =~= parts.last());
    } else {
        assert(join(parts, sep).skip(0) =~= parts.last());
    }
}

/// The path of a file from the store's root, with `/` between the parts and
/// backslashes turned into `/`.
pub open spec fn relative_path(dirs: Seq<Seq<char>>, name: Seq<char>) -> Seq<char> {
    replace_char(join(dirs.push(name), "/"@), '\\', '/')
}

/// A file stands for an entry exactly when it has a name that ends with the
/// extension, and then the entry is its relative path with only the extension
/// cut from its end: the entry followed by the extension (backslashes turned
/// into `/` as in the path) is the path.
pub proof fn lemma_entry_is_path_without_extension(f: StoreFile, ext: Seq<char>)
    ensures
        entry_of(f, ext) is Some <==> (f.name matches Some(n) && ends_with(n@, ext)),
        entry_of(f, ext) matches Some(e) ==> (f.name matches Some(n) && e + replace_char(
            ext,
            '\\',
            '/',
        ) == relative_path(views(f.dirs@), n@)),
{
    if let Some(n) = f.name {
        if ends_with(n@, ext) {
            let parts = views(f.dirs@).push(n@);
            lemma_join_len(parts, "/"@);
            let j = join(parts, "/"@);
            let rel = relative_path(views(f.dirs@), n@);
            let e = rel.take(rel.len() - ext.len());
            assert(n@.len() >= ext.len());
            assert(j.skip(j.len() - n@.len()) == n@);
            assert forall|k: int| 0 <= k < ext.len() implies rel[rel.len() - ext.len() + k]
                == replace_char(ext, '\\', '/')[k] by {
                assert(j[j.len() - ext.len() + k] == n@[n@.len() - ext.len() + k]);
                assert(n@.skip(n@.len() - ext.len())[k] == ext[k]);
            }
            assert(e + replace_char(ext, '\\', '/') =~= rel);
        }
    }
}

fn entry_of_file(f: &StoreFile, ext: &str) -> (r: Option<String>)
    ensures
        match r {
            Some(e) => entry_of(*f, ext@) == Some(e@),
            None => entry_of(*f, ext@) is None,
        },
{
    match &f.name {
        Some(n) => {
            let nv = chars_of(n.as_str());
            let ev = chars_of(ext);
            if !has_suffix(nv.as_slice(), ev.as_slice()) {
                return None;
            }
            let mut parts = f.dirs.clone();
            let ghost dirs = views(f.dirs@);
            parts.push(n.clone());
            proof {
                assert(views(parts@) =~= dirs.push(n@));
                lemma_join_len(views(parts@), "/"@);
            }
            let joined = join_chars(parts.as_slice(), "/");
            let rel = replace_chars(joined.as_slice(), '\\', '/');
            let e = slice_of(rel.as_slice(), 0, rel.len() - ev.len());
            Some(string_of(e.as_slice()))
        },
        None => None,
    }
}

/// The entries of a store, sorted, from the files found in it.
pub fn list_entries_with_extension(files: &[StoreFile], extension: &str) -> (r: Vec<String>)
    ensures
        ascending(views(r@)),
        views(r@).to_multiset() == listed(files@, extension@).to_multiset(),
{
    let mut entries: Vec<String> = Vec::new();
    let mut i: usize = 0;
    assert(files@.take(0) =~= Seq::<StoreFile>::empty());
    assert(views(entries@) =~= Seq::<Seq<char>>::empty());
    while i < files.len()
        invariant
            i <= files@.len(),
            views(entries@) == listed(files@.take(i as int), extension@),
        decreases files@.len() - i,
    {
        let ghost prev = files@.take(i as int);
        let ghost next = files@.take(i + 1);
        assert(next.drop_last() == prev);
        match entry_of_file(&files[i], extension) {
            Some(e) => {
                entries.push(e);
                assert(views(entries@) =~= listed(prev, extension@).push(e@));
            },
            None => {},
        }
        i = i + 1;
    }
    assert(files@.take(files@.len() as int) == files@);
    sort_strings(entries)
}

} // verus!
