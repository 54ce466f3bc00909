//! The search the menu can start with, worked out from the focused window:
//! a fixed site for some applications, and the host of the current page for
//! qutebrowser.
use vstd::prelude::*;

use crate::config::opt_view;
use crate::text::{
    after_last, after_last_char, ascii_lower, ascii_lowercase, chars_eq, chars_of, contains,
    find, find_chars, index_of, lines, owned, position, slice_of,
    split_lines, starts_with, string_of, trim, trim_chars, has_prefix, char_views, decode_lossy,
    utf8_lossy, is_whitespace, trim_start, lemma_find_at, lemma_index_of_at,
};
use vstd::utf8::{decode_utf8, valid_utf8};

verus! {

/// A text without any number of leading `www.`.
pub open spec fn strip_www(s: Seq<char>) -> Seq<char>
    decreases s.len(),
{
    if s.len() >= 4 && s[0] == 'w' && s[1] == 'w' && s[2] == 'w' && s[3] == '.' {
        strip_www(s.skip(4))
    } else {
        s
    }
}

/// The host named in a URL-like text: without the scheme, the path, the user
/// part, the port and any leading `www.`; nothing when that leaves no text.
pub open spec fn host_of(raw: Seq<char>) -> Option<Seq<char>> {
    let t = trim(raw);
    if t.len() == 0 {
        None
    } else {
        let no_scheme = match find(t, "://"@) {
            Some(i) => t.skip(i + 3),
            None => t,
        };
        let h1 = no_scheme.take(index_of(no_scheme, '/'));
        let h2 = after_last(h1, '@');
        let h3 = h2.take(index_of(h2, ':'));
        let host = strip_www(h3);
        if host.len() == 0 {
            None
        } else {
            Some(host)
        }
    }
}

proof fn lemma_strip_www_step(s: Seq<char>)
    ensures
        s.len() >= 4 && s[0] == 'w' && s[1] == 'w' && s[2] == 'w' && s[3] == '.' ==> strip_www(s)
            == strip_www(s.skip(4)),
        !(s.len() >= 4 && s[0] == 'w' && s[1] == 'w' && s[2] == 'w' && s[3] == '.')
            ==> strip_www(s) == s,
{
}

/// A text without any whitespace, as a URL is written.
pub open spec fn no_whitespace(s: Seq<char>) -> bool {
    forall|k: int| 0 <= k < s.len() ==> !is_whitespace(#[trigger] s[k])
}

proof fn lemma_trim_without_whitespace(s: Seq<char>)
    requires
        no_whitespace(s),
    ensures
        trim(s) == s,
{
    if s.len() > 0 {
        assert(!is_whitespace(s[0]));
        assert(trim_start(s) == s);
        assert(!is_whitespace(s.last()));
    }
}

/// The text after the scheme of `scheme://rest`, for a scheme without `':'`.
proof fn lemma_after_scheme(scheme: Seq<char>, rest: Seq<char>)
    requires
        !scheme.contains(':'),
    ensures
        ({
            let u = scheme + "://"@ + rest;
            find(u, "://"@) == Some(scheme.len() as int) && u.skip(scheme.len() as int + 3) == rest
        }),
{
    reveal_strlit("://");
    let u = scheme + "://"@ + rest;
    let j = scheme.len() as int;
    assert forall|k: int| 0 <= k < j implies !starts_with(#[trigger] u.skip(k), "://"@) by {
        assert(u.skip(k)[0] == scheme[k]);
        assert(scheme[k] != ':');
        if starts_with(u.skip(k), "://"@) {
            assert(u.skip(k).take(3)[0] == u.skip(k)[0]);
            assert("://"@[0] == ':');
        }
    }
    assert(u.skip(j).take(3) =~= "://"@);
    lemma_find_at(u, "://"@, j);
    assert(u.skip(j + 3) =~= rest);
}

/// The host is read from the authority alone: whatever path follows the
/// first `/` after the scheme, even one holding `@` or `:`, the host is the
/// one of the URL without it.
pub proof fn lemma_host_ignores_path(scheme: Seq<char>, authority: Seq<char>, path: Seq<char>)
    requires
        no_whitespace(scheme),
        no_whitespace(authority),
        no_whitespace(path),
        !scheme.contains(':'),
        !authority.contains('/'),
    ensures
        host_of(scheme + "://"@ + authority + "/"@ + path) == host_of(scheme + "://"@ + authority),
{
    reveal_strlit("://");
    reveal_strlit("/");
    let with_path = scheme + "://"@ + authority + "/"@ + path;
    let bare = scheme + "://"@ + authority;
    let rest = authority + "/"@ + path;
    assert(with_path =~= scheme + "://"@ + rest);
    assert forall|k: int| 0 <= k < with_path.len() implies !is_whitespace(#[trigger] with_path[k]) by {
        if k < scheme.len() {
            assert(with_path[k] == scheme[k]);
        } else if k < scheme.len() + 3 {
        } else if k < scheme.len() + 3 + authority.len() {
            assert(with_path[k] == authority[k - scheme.len() - 3]);
        } else if k > scheme.len() + 3 + authority.len() {
            assert(with_path[k] == path[k - scheme.len() - 4 - authority.len()]);
        }
    }
    assert forall|k: int| 0 <= k < bare.len() implies !is_whitespace(#[trigger] bare[k]) by {
        if k < scheme.len() {
            assert(bare[k] == scheme[k]);
        } else if k >= scheme.len() + 3 {
            assert(bare[k] == authority[k - scheme.len() - 3]);
        }
    }
    lemma_trim_without_whitespace(with_path);
    lemma_trim_without_whitespace(bare);
    lemma_after_scheme(scheme, rest);
    lemma_after_scheme(scheme, authority);
    assert forall|k: int| 0 <= k < authority.len() implies rest[k] != '/' by {
        assert(rest[k] == authority[k]);
    }
    lemma_index_of_at(rest, '/', authority.len() as int);
    lemma_index_of_at(authority, '/', authority.len() as int);
    assert(rest.take(authority.len() as int) =~= authority);
    assert(authority.take(authority.len() as int) =~= authority);
}

fn strip_www_chars(v: &[char]) -> (r: Vec<char>)
    ensures
        r@ == strip_www(v@),
{
    let mut i: usize = 0;
    assert(v@.skip(0) == v@);
    while i < v.len() && v.len() - i >= 4 && v[i] == 'w' && v[i + 1] == 'w' && v[i + 2] == 'w' && v[i + 3] == '.'
        invariant
            i <= v@.len(),
            strip_www(v@) == strip_www(v@.skip(i as int)),
        decreases v@.len() - i,
    {
        proof {
            let t = v@.skip(i as int);
            lemma_strip_www_step(t);
            assert(t.skip(4) == v@.skip(i + 4));
        }
        i = i + 4;
    }
    proof {
        lemma_strip_www_step(v@.skip(i as int));
    }
    slice_of(v, i, v.len())
}

fn take_before(v: &[char], c: char) -> (r: Vec<char>)
    ensures
        r@ == v@.take(index_of(v@, c)),
{
    let i = position(v, c);
    slice_of(v, 0, i)
}

/// The host named in a URL-like text.
pub fn host_query(raw: &str) -> (r: Option<String>)
    ensures
        match r {
            Some(h) => host_of(raw@) == Some(h@),
            None => host_of(raw@) is None,
        },
{
    let all = chars_of(raw);
    let t = trim_chars(all.as_slice());
    if t.len() == 0 {
        return None;
    }
    let sep = chars_of("://");
    proof {
        reveal_strlit("://");
    }
    let no_scheme = match find_chars(t.as_slice(), sep.as_slice()) {
        Some(i) => {
            proof {
                crate::text::lemma_find_some(t@, sep@);
            }
            slice_of(t.as_slice(), i + 3, t.len())
        },
        None => t,
    };
    let h1 = take_before(no_scheme.as_slice(), '/');
    let h2 = after_last_char(h1.as_slice(), '@');
    let h3 = take_before(h2.as_slice(), ':');
    let host = strip_www_chars(h3.as_slice());
    if host.len() == 0 {
        None
    } else {
        Some(string_of(host.as_slice()))
    }
}

/// What the clipboard held before the picker borrowed it.
#[derive(Debug, Clone, PartialEq, Eq)]
pub enum ClipboardSnapshot {
    Empty,
    Text { mime_type: String, contents: Vec<u8> },
}

/// What kind of content the clipboard offers.
#[derive(Debug, Clone, PartialEq, Eq)]
pub enum ClipboardSnapshotKind {
    Empty,
    Text(String),
}

/// The non-empty trimmed lines of a text.
pub open spec fn offered_types(ls: Seq<Seq<char>>) -> Seq<Seq<char>>
    decreases ls.len(),
{
    if ls.len() == 0 {
        seq![]
    } else {
        let rest = offered_types(ls.drop_last());
        if trim(ls.last()).len() == 0 {
            rest
        } else {
            rest.push(trim(ls.last()))
        }
    }
}

/// The first of the texts that starts with `prefix`.
pub open spec fn first_with_prefix(ms: Seq<Seq<char>>, prefix: Seq<char>) -> Option<Seq<char>>
    decreases ms.len(),
{
    if ms.len() == 0 {
        None
    } else if starts_with(ms[0], prefix) {
        Some(ms[0])
    } else {
        first_with_prefix(ms.drop_first(), prefix)
    }
}

/// The kind of a clipboard from the list of its MIME types, one per line:
/// empty when it offers none, else its preferred text type, UTF-8 plain text
/// first, then plain text, then the first text type; nothing when it offers
/// no text.
pub open spec fn snapshot_kind_of(raw_types: Seq<char>) -> Option<Seq<char>> {
    let ms = offered_types(lines(raw_types));
    if ms.contains("text/plain;charset=utf-8"@) {
        Some("text/plain;charset=utf-8"@)
    } else if ms.contains("text/plain"@) {
        Some("text/plain"@)
    } else {
        first_with_prefix(ms, "text/"@)
    }
}

proof fn lemma_first_with_prefix_at(ms: Seq<Seq<char>>, prefix: Seq<char>, j: int)
    requires
        0 <= j <= ms.len(),
        forall|k: int| 0 <= k < j ==> !starts_with(#[trigger] ms[k], prefix),
    ensures
        j < ms.len() && starts_with(ms[j], prefix) ==> first_with_prefix(ms, prefix) == Some(
            ms[j],
        ),
        j == ms.len() ==> first_with_prefix(ms, prefix) is None,
    decreases j,
{
    if j > 0 {
        assert forall|k: int| 0 <= k < j - 1 implies !starts_with(
            #[trigger] ms.drop_first()[k],
            prefix,
        ) by {
            assert(ms.drop_first()[k] == ms[k + 1]);
        }
        lemma_first_with_prefix_at(ms.drop_first(), prefix, j - 1);
    }
}

fn contains_text(ms: &Vec<Vec<char>>, target: &[char]) -> (b: bool)
    ensures
        b == char_views(ms@).contains(target@),
{
    let mut i: usize = 0;
    while i < ms.len()
        invariant
            i <= ms@.len(),
            forall|k: int| 0 <= k < i ==> (#[trigger] ms@[k])@ != target@,
        decreases ms@.len() - i,
    {
        if chars_eq(ms[i].as_slice(), target) {
            assert(char_views(ms@)[i as int] == target@);
            return true;
        }
        i = i + 1;
    }
    assert forall|k: int| 0 <= k < char_views(ms@).len() implies char_views(ms@)[k] != target@ by {
        assert(char_views(ms@)[k] == ms@[k]@);
    }
    false
}

/// The kind of a clipboard from the list of its MIME types.
pub fn clipboard_snapshot_kind(raw_types: &str) -> (r: Option<ClipboardSnapshotKind>)
    ensures
        offered_types(lines(raw_types@)).len() == 0 ==> r == Some(ClipboardSnapshotKind::Empty),
        offered_types(lines(raw_types@)).len() > 0 ==> match r {
            Some(ClipboardSnapshotKind::Text(t)) => snapshot_kind_of(raw_types@) == Some(t@),
            Some(ClipboardSnapshotKind::Empty) => false,
            None => snapshot_kind_of(raw_types@) is None,
        },
{
    let raw = chars_of(raw_types);
    let ls = split_lines(raw.as_slice());
    let mut ms: Vec<Vec<char>> = Vec::new();
    let mut i: usize = 0;
    let ghost all = lines(raw_types@);
    assert(all.take(0) =~= Seq::<Seq<char>>::empty());
    assert(char_views(ms@) =~= Seq::<Seq<char>>::empty());
    while i < ls.len()
        invariant
            i <= ls@.len(),
            char_views(ls@) == all,
            char_views(ms@) == offered_types(all.take(i as int)),
        decreases ls@.len() - i,
    {
        let ghost prev = all.take(i as int);
        let ghost next = all.take(i + 1);
        assert(next.drop_last() == prev);
        assert(next.last() == ls@[i as int]@);
        let t = trim_chars(ls[i].as_slice());
        if t.len() > 0 {
            ms.push(t);
            assert(char_views(ms@) =~= offered_types(prev).push(t@));
        }
        i = i + 1;
    }
    assert(all.take(ls@.len() as int) == all);
    if ms.len() == 0 {
        return Some(ClipboardSnapshotKind::Empty);
    }
    let utf8 = chars_of("text/plain;charset=utf-8");
    if contains_text(&ms, utf8.as_slice()) {
        return Some(ClipboardSnapshotKind::Text(string_of(utf8.as_slice())));
    }
    let plain = chars_of("text/plain");
    if contains_text(&ms, plain.as_slice()) {
        return Some(ClipboardSnapshotKind::Text(string_of(plain.as_slice())));
    }
    let text = chars_of("text/");
    let ghost mv = char_views(ms@);
    let mut j: usize = 0;
    while j < ms.len()
        invariant
            j <= ms@.len(),
            mv == char_views(ms@),
            mv == offered_types(lines(raw_types@)),
            mv.len() > 0,
            !mv.contains("text/plain;charset=utf-8"@),
            !mv.contains("text/plain"@),
            text@ == "text/"@,
            forall|k: int| 0 <= k < j ==> !starts_with(#[trigger] mv[k], "text/"@),
        decreases ms@.len() - j,
    {
        assert(mv[j as int] == ms@[j as int]@);
        if has_prefix(ms[j].as_slice(), text.as_slice()) {
            proof {
                lemma_first_with_prefix_at(mv, "text/"@, j as int);
            }
            return Some(ClipboardSnapshotKind::Text(string_of(ms[j].as_slice())));
        }
        j = j + 1;
    }
    proof {
        lemma_first_with_prefix_at(mv, "text/"@, j as int);
    }
    None
}

/// A JSON document as plain values. Numbers are kept only as such: nothing
/// here reads their value.
#[derive(Debug)]
pub enum JsonValue {
    Null,
    Bool(bool),
    Number,
    Text(String),
    Array(Vec<JsonValue>),
    Object(Vec<(String, JsonValue)>),
}

#[verifier::external_type_specification]
#[verifier::external_body]
pub struct ExJsonValue(serde_json::Value);

/// The document that `serde_json::from_slice` reads from a byte string, if
/// the bytes hold one.
pub uninterp spec fn json_of(bytes: Seq<u8>) -> Option<JsonValue>;

/// `serde_json::from_slice` into a `serde_json::Value`, turned into plain
/// values: claimed to give `json_of` of the bytes. Which bytes hold a document,
/// and which document, is left to serde_json.
#[verifier::external_body]
fn parse_json(bytes: &[u8]) -> (r: Option<JsonValue>)
    ensures
        r == json_of(bytes@),
{
    serde_json::from_slice::<serde_json::Value>(bytes).ok().map(|v| json_value(&v))
}

/// A `serde_json::Value` as plain values, variant by variant; the members of
/// an object come in the map's own order, each key once.
#[verifier::external_body]
fn json_value(v: &serde_json::Value) -> JsonValue {
    match v {
        serde_json::Value::Null => JsonValue::Null,
        serde_json::Value::Bool(b) => JsonValue::Bool(*b),
        serde_json::Value::Number(_) => JsonValue::Number,
        serde_json::Value::String(t) => JsonValue::Text(t.clone()),
        serde_json::Value::Array(a) => JsonValue::Array(a.iter().map(json_value).collect()),
        serde_json::Value::Object(m) => JsonValue::Object(
            m.iter().map(|(k, x)| (k.clone(), json_value(x))).collect(),
        ),
    }
}

/// The value of the first member named `key`.
pub open spec fn field_of(fs: Seq<(String, JsonValue)>, key: Seq<char>) -> Option<JsonValue>
    decreases fs.len(),
{
    if fs.len() == 0 {
        None
    } else if fs[0].0@ == key {
        Some(fs[0].1)
    } else {
        field_of(fs.drop_first(), key)
    }
}

/// The member `key` of an object; nothing for any other value.
pub open spec fn member(v: JsonValue, key: Seq<char>) -> Option<JsonValue> {
    match v {
        JsonValue::Object(fs) => field_of(fs@, key),
        _ => None,
    }
}

/// The text a value holds, if it is one.
pub open spec fn text_of(v: Option<JsonValue>) -> Option<Seq<char>> {
    match v {
        Some(JsonValue::Text(t)) => Some(t@),
        _ => None,
    }
}

/// The class of the window that `hyprctl activewindow -j` describes.
pub open spec fn hypr_class(v: JsonValue) -> Option<Seq<char>> {
    text_of(member(v, "class"@))
}

/// Whether a node of the window tree is marked focused.
pub open spec fn is_focused(v: JsonValue) -> bool {
    member(v, "focused"@) matches Some(JsonValue::Bool(b)) && b
}

/// The name a focused node goes by: the class in its window properties, else
/// its app id.
pub open spec fn own_class(v: JsonValue) -> Option<Seq<char>> {
    if is_focused(v) {
        let class = match member(v, "window_properties"@) {
            Some(p) => text_of(member(p, "class"@)),
            None => None,
        };
        match class {
            Some(c) => Some(c),
            None => text_of(member(v, "app_id"@)),
        }
    } else {
        None
    }
}

/// The class of the focused window in a tree that `swaymsg -t get_tree`
/// prints: the node's own when it is focused, else the first found among its
/// tiled children, then among its floating children, depth first.
pub open spec fn sway_class(v: JsonValue) -> Option<Seq<char>>
    decreases v,
{
    match own_class(v) {
        Some(c) => Some(c),
        None => match v {
            JsonValue::Object(fs) => match children_class(fs@, "nodes"@) {
                Some(c) => Some(c),
                None => children_class(fs@, "floating_nodes"@),
            },
            _ => None,
        },
    }
}

/// The first class found among the children listed under the first member
/// named `key`, when that member is an array.
pub open spec fn children_class(fs: Seq<(String, JsonValue)>, key: Seq<char>) -> Option<
    Seq<char>,
>
    decreases fs,
{
    if fs.len() == 0 {
        None
    } else if fs[0].0@ == key {
        match fs[0].1 {
            JsonValue::Array(a) => first_class(a@),
            _ => None,
        }
    } else {
        children_class(fs.subrange(1, fs.len() as int), key)
    }
}

/// The first class found among the trees.
pub open spec fn first_class(ns: Seq<JsonValue>) -> Option<Seq<char>>
    decreases ns,
{
    if ns.len() == 0 {
        None
    } else {
        match sway_class(ns[0]) {
            Some(c) => Some(c),
            None => first_class(ns.subrange(1, ns.len() as int)),
        }
    }
}

/// The class of the focused window that a desktop's answer describes.
pub open spec fn session_class(session: DesktopSession, v: JsonValue) -> Option<Seq<char>> {
    match session {
        DesktopSession::Hyprland => hypr_class(v),
        DesktopSession::Sway => sway_class(v),
    }
}

fn text_is(s: &String, key: &str) -> (b: bool)
    ensures
        b == (s@ == key@),
{
    chars_eq(chars_of(s.as_str()).as_slice(), chars_of(key).as_slice())
}

proof fn lemma_field_of_at(fs: Seq<(String, JsonValue)>, key: Seq<char>, j: int)
    requires
        0 <= j <= fs.len(),
        forall|k: int| 0 <= k < j ==> (#[trigger] fs[k]).0@ != key,
    ensures
        j < fs.len() && fs[j].0@ == key ==> field_of(fs, key) == Some(fs[j].1),
        j == fs.len() ==> field_of(fs, key) is None,
    decreases j,
{
    if j > 0 {
        let rest = fs.drop_first();
        assert forall|k: int| 0 <= k < j - 1 implies (#[trigger] rest[k]).0@ != key by {
            assert(rest[k] == fs[k + 1]);
        }
        lemma_field_of_at(rest, key, j - 1);
    }
}

/// The member `key` of a value, if it is an object that has one.
pub fn member_value<'a>(v: &'a JsonValue, key: &str) -> (r: Option<&'a JsonValue>)
    ensures
        match r {
            Some(x) => member(*v, key@) == Some(*x),
            None => member(*v, key@) is None,
        },
{
    match v {
        JsonValue::Object(fs) => {
            let mut i: usize = 0;
            while i < fs.len()
                invariant
                    i <= fs@.len(),
                    member(*v, key@) == field_of(fs@, key@),
                    forall|k: int| 0 <= k < i ==> (#[trigger] fs@[k]).0@ != key@,
                decreases fs@.len() - i,
            {
                if text_is(&fs[i].0, key) {
                    proof {
                        lemma_field_of_at(fs@, key@, i as int);
                    }
                    return Some(&fs[i].1);
                }
                i = i + 1;
            }
            proof {
                lemma_field_of_at(fs@, key@, i as int);
            }
            None
        },
        _ => None,
    }
}

fn text_member(v: &JsonValue, key: &str) -> (r: Option<String>)
    ensures
        opt_view(r) == text_of(member(*v, key@)),
{
    match member_value(v, key) {
        Some(JsonValue::Text(t)) => Some(t.clone()),
        _ => None,
    }
}

/// The class of the window that `hyprctl activewindow -j` describes.
pub fn hyprland_class(v: &JsonValue) -> (r: Option<String>)
    ensures
        opt_view(r) == hypr_class(*v),
{
    proof {
        reveal_strlit("class");
    }
    text_member(v, "class")
}

fn own_class_of(v: &JsonValue) -> (r: Option<String>)
    ensures
        opt_view(r) == own_class(*v),
{
    let focused = match member_value(v, "focused") {
        Some(JsonValue::Bool(b)) => *b,
        _ => false,
    };
    if !focused {
        return None;
    }
    if let Some(p) = member_value(v, "window_properties") {
        if let Some(c) = text_member(p, "class") {
            return Some(c);
        }
    }
    text_member(v, "app_id")
}

proof fn lemma_children_class_at(fs: Seq<(String, JsonValue)>, key: Seq<char>, j: int)
    requires
        0 <= j <= fs.len(),
        forall|k: int| 0 <= k < j ==> (#[trigger] fs[k]).0@ != key,
    ensures
        j < fs.len() && fs[j].0@ == key ==> children_class(fs, key) == match fs[j].1 {
            JsonValue::Array(a) => first_class(a@),
            _ => None,
        },
        j == fs.len() ==> children_class(fs, key) is None,
    decreases j,
{
    if j > 0 {
        let rest = fs.subrange(1, fs.len() as int);
        assert forall|k: int| 0 <= k < j - 1 implies (#[trigger] rest[k]).0@ != key by {
            assert(rest[k] == fs[k + 1]);
        }
        lemma_children_class_at(rest, key, j - 1);
    }
}

fn children_focused_class(fs: &Vec<(String, JsonValue)>, key: &str) -> (r: Option<String>)
    ensures
        opt_view(r) == children_class(fs@, key@),
    decreases fs@,
{
    let mut i: usize = 0;
    while i < fs.len()
        invariant
            i <= fs@.len(),
            forall|k: int| 0 <= k < i ==> (#[trigger] fs@[k]).0@ != key@,
        decreases fs@.len() - i,
    {
        if text_is(&fs[i].0, key) {
            proof {
                lemma_children_class_at(fs@, key@, i as int);
            }
            return match &fs[i].1 {
                JsonValue::Array(a) => first_focused_class(a),
                _ => None,
            };
        }
        i = i + 1;
    }
    proof {
        lemma_children_class_at(fs@, key@, i as int);
    }
    None
}

/// The class of the focused window in a tree that `swaymsg -t get_tree`
/// prints.
pub fn focused_sway_class(v: &JsonValue) -> (r: Option<String>)
    ensures
        opt_view(r) == sway_class(*v),
    decreases v,
{
    if let Some(c) = own_class_of(v) {
        return Some(c);
    }
    match v {
        JsonValue::Object(fs) => {
            proof {
                reveal_strlit("nodes");
                reveal_strlit("floating_nodes");
            }
            match children_focused_class(fs, "nodes") {
                Some(c) => Some(c),
                None => children_focused_class(fs, "floating_nodes"),
            }
        },
        _ => None,
    }
}

proof fn lemma_first_class_at(ns: Seq<JsonValue>, j: int)
    requires
        0 <= j <= ns.len(),
        forall|k: int| 0 <= k < j ==> sway_class(#[trigger] ns[k]) is None,
    ensures
        j < ns.len() && sway_class(ns[j]) is Some ==> first_class(ns) == sway_class(ns[j]),
        j == ns.len() ==> first_class(ns) is None,
    decreases j,
{
    if j > 0 {
        let rest = ns.subrange(1, ns.len() as int);
        assert forall|k: int| 0 <= k < j - 1 implies sway_class(#[trigger] rest[k]) is None by {
            assert(rest[k] == ns[k + 1]);
        }
        lemma_first_class_at(rest, j - 1);
    }
}

fn first_focused_class(nodes: &Vec<JsonValue>) -> (r: Option<String>)
    ensures
        opt_view(r) == first_class(nodes@),
    decreases nodes@,
{
    let mut i: usize = 0;
    while i < nodes.len()
        invariant
            i <= nodes@.len(),
            forall|k: int| 0 <= k < i ==> sway_class(#[trigger] nodes@[k]) is None,
        decreases nodes@.len() - i,
    {
        if let Some(c) = focused_sway_class(&nodes[i]) {
            proof {
                lemma_first_class_at(nodes@, i as int);
            }
            return Some(c);
        }
        i = i + 1;
    }
    proof {
        lemma_first_class_at(nodes@, i as int);
    }
    None
}

/// The class of the focused window that a desktop's answer describes.
pub fn active_class(session: DesktopSession, v: &JsonValue) -> (r: Option<String>)
    ensures
        opt_view(r) == session_class(session, *v),
{
    match session {
        DesktopSession::Hyprland => hyprland_class(v),
        DesktopSession::Sway => focused_sway_class(v),
    }
}

/// The class of the focused window, read from what the desktop printed when
/// asked (`hyprctl activewindow -j` or `swaymsg -t get_tree`): nothing when
/// the output is not JSON or names no class.
pub fn window_class_of(session: DesktopSession, output: &[u8]) -> (r: Option<String>)
    ensures
        opt_view(r) == match json_of(output@) {
            None => None,
            Some(v) => session_class(session, v),
        },
{
    match parse_json(output) {
        Some(v) => active_class(session, &v),
        None => None,
    }
}

/// What follows the read of the clipboard: the clipboard is put back, and
/// only when that succeeds is the host of what was read the query; bytes that
/// are valid UTF-8 are read as exactly the text they encode.
pub open spec fn restored_query<Restore: FnOnce(&ClipboardSnapshot) -> bool>(
    restore_clipboard: Restore,
    snap: ClipboardSnapshot,
    raw: Option<Vec<u8>>,
    r: Option<String>,
) -> bool {
    exists|back: bool|
        {
            &&& #[trigger] call_ensures(restore_clipboard, (&snap,), back)
            &&& if !back {
                r is None
            } else {
                match raw {
                    None => r is None,
                    Some(b) => {
                        &&& opt_view(r) == host_of(utf8_lossy(b@))
                        &&& valid_utf8(b@) ==> opt_view(r) == host_of(decode_utf8(b@))
                    },
                }
            }
        }
}

/// Asks qutebrowser for the URL of its current page through the clipboard,
/// keeping what the clipboard held: the clipboard is saved first (nothing
/// happens when that fails), the URL is yanked and read, the clipboard is put
/// back (nothing is returned when that fails), and the URL's host is the query.
pub fn qutebrowser_query_with<Snapshot, Yank, Read, Restore>(
    snapshot_clipboard: Snapshot,
    yank_url: Yank,
    read_clipboard: Read,
    restore_clipboard: Restore,
) -> (r: Option<String>) where
    Snapshot: FnOnce() -> Option<ClipboardSnapshot>,
    Yank: FnOnce() -> bool,
    Read: FnOnce() -> Option<Vec<u8>>,
    Restore: FnOnce(&ClipboardSnapshot) -> bool,

    requires
        call_requires(snapshot_clipboard, ()),
        call_requires(yank_url, ()),
        call_requires(read_clipboard, ()),
        forall|s: &ClipboardSnapshot| call_requires(restore_clipboard, (s,)),
    ensures
        exists|s: Option<ClipboardSnapshot>|
            {
                &&& #[trigger] call_ensures(snapshot_clipboard, (), s)
                &&& match s {
                    None => r is None,
                    Some(snap) => exists|y: bool|
                        {
                            &&& #[trigger] call_ensures(yank_url, (), y)
                            &&& if y {
                                exists|raw: Option<Vec<u8>>|
                                    {
                                        &&& #[trigger] call_ensures(read_clipboard, (), raw)
                                        &&& restored_query(restore_clipboard, snap, raw, r)
                                    }
                            } else {
                                restored_query(restore_clipboard, snap, None, r)
                            }
                        },
                }
            },
{
    let snapshot = match snapshot_clipboard() {
        Some(s) => s,
        None => return None,
    };
    let raw_url = if yank_url() {
        read_clipboard()
    } else {
        None
    };
    if !restore_clipboard(&snapshot) {
        return None;
    }
    let raw_url = match raw_url {
        Some(u) => u,
        None => return None,
    };
    let text = decode_lossy(raw_url.as_slice());
    host_query(text.as_str())
}

/// The desktops whose focused window the picker can ask for.
#[derive(Debug, Clone, Copy, PartialEq, Eq, Structural)]
pub enum DesktopSession {
    Hyprland,
    Sway,
}

/// The desktop named by `XDG_CURRENT_DESKTOP`, in any ASCII case; Hyprland
/// wins when both names occur.
pub open spec fn session_of(desktop: Seq<char>) -> Option<DesktopSession> {
    let d = ascii_lower(desktop);
    if contains(d, "hyprland"@) {
        Some(DesktopSession::Hyprland)
    } else if contains(d, "sway"@) {
        Some(DesktopSession::Sway)
    } else {
        None
    }
}

/// The desktop named by `XDG_CURRENT_DESKTOP`.
pub fn desktop_session(desktop: &str) -> (r: Option<DesktopSession>)
    ensures
        r == session_of(desktop@),
{
    let raw = chars_of(desktop);
    let d = ascii_lowercase(raw.as_slice());
    if find_chars(d.as_slice(), chars_of("hyprland").as_slice()).is_some() {
        Some(DesktopSession::Hyprland)
    } else if find_chars(d.as_slice(), chars_of("sway").as_slice()).is_some() {
        Some(DesktopSession::Sway)
    } else {
        None
    }
}

/// What the focused window's class calls for.
#[derive(Debug, Clone, PartialEq, Eq)]
pub enum WindowQuery {
    Qutebrowser,
    Site(String),
    Unknown,
}

pub open spec fn is_qutebrowser(class: Seq<char>) -> bool {
    let c = ascii_lower(class);
    c == "org.qutebrowser.qutebrowser"@ || c == "qutebrowser"@
}

/// The site a window class stands for, for the applications the picker knows.
pub open spec fn site_of(class: Seq<char>) -> Option<Seq<char>> {
    let c = ascii_lower(class);
    if c == "discord"@ {
        Some("discord.com"@)
    } else if c == "steam"@ {
        Some("steampowered.com"@)
    } else {
        None
    }
}

/// What a window class calls for: the browser's page, a fixed site, or nothing.
pub fn window_query(class: &str) -> (r: WindowQuery)
    ensures
        is_qutebrowser(class@) ==> r == WindowQuery::Qutebrowser,
        !is_qutebrowser(class@) ==> match site_of(class@) {
            Some(s) => r matches WindowQuery::Site(x) && x@ == s,
            None => r == WindowQuery::Unknown,
        },
{
    let raw = chars_of(class);
    let c = ascii_lowercase(raw.as_slice());
    if chars_eq(c.as_slice(), chars_of("org.qutebrowser.qutebrowser").as_slice()) || chars_eq(
        c.as_slice(),
        chars_of("qutebrowser").as_slice(),
    ) {
        WindowQuery::Qutebrowser
    } else if chars_eq(c.as_slice(), chars_of("discord").as_slice()) {
        WindowQuery::Site(owned("discord.com"))
    } else if chars_eq(c.as_slice(), chars_of("steam").as_slice()) {
        WindowQuery::Site(owned("steampowered.com"))
    } else {
        WindowQuery::Unknown
    }
}

/// The search the menu starts with: asked of the focused window's class on
/// the desktop named by `desktop`, and of qutebrowser's page when that is the
/// focused window.
pub fn initial_query<Class, Browser>(
    desktop: Option<&str>,
    window_class: Class,
    qutebrowser_query: Browser,
) -> (r: Option<String>) where
    Class: FnOnce(DesktopSession) -> Option<String>,
    Browser: FnOnce() -> Option<String>,

    requires
        forall|s: DesktopSession| call_requires(window_class, (s,)),
        call_requires(qutebrowser_query, ()),
    ensures
        match desktop {
            None => r is None,
            Some(d) => match session_of(d@) {
                None => r is None,
                Some(s) => exists|c: Option<String>|
                    {
                        &&& #[trigger] call_ensures(window_class, (s,), c)
                        &&& match c {
                            None => r is None,
                            Some(class) => if is_qutebrowser(class@) {
                                call_ensures(qutebrowser_query, (), r)
                            } else {
                                opt_view(r) == site_of(class@)
                            },
                        }
                    },
            },
        },
{
    let d = match desktop {
        Some(d) => d,
        None => return None,
    };
    let session = match desktop_session(d) {
        Some(s) => s,
        None => return None,
    };
    let class = match window_class(session) {
        Some(c) => c,
        None => return None,
    };
    match window_query(class.as_str()) {
        WindowQuery::Qutebrowser => qutebrowser_query(),
        WindowQuery::Site(site) => Some(site),
        WindowQuery::Unknown => None,
    }
}

} // verus!
