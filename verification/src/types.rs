//! Password entries, the actions the picker can take, and their outcomes.
use vstd::prelude::*;

use crate::error::AppError;
use crate::text::{
    ascii_lower, chars_eq, chars_of, index_of, lines, owned, position, push_str,
    slice_of, split_lines, string_of, trim, trim_chars, trim_start, trim_start_chars, ascii_lowercase,
    char_views, lemma_index_of_bounds, lemma_index_of_at, lemma_lines_after_line, strip_cr,
    is_whitespace,
};

verus! {

/// A decrypted entry: its first line is the password, and each later line of
/// the form `name: value` is a named field.
#[derive(Debug, Clone, PartialEq, Eq)]
pub struct EntryContent {
    pub password: String,
    pub fields: Vec<(String, String)>,
}

#[derive(Debug, Clone, Copy, PartialEq, Eq, Structural)]
pub enum AppAction {
    Copy,
    Autofill,
}

#[derive(Debug, Clone, PartialEq, Eq)]
pub struct ActionOutcome {
    pub field_name: String,
    pub action: AppAction,
}

/// The texts of a list of named fields.
pub open spec fn field_views(fields: Seq<(String, String)>) -> Seq<(Seq<char>, Seq<char>)> {
    fields.map_values(|f: (String, String)| (f.0@, f.1@))
}

/// A field line: the name is the text before the first `':'`, trimmed, and must
/// not be empty; the value is the text after it without leading whitespace.
pub open spec fn parse_field(line: Seq<char>) -> Option<(Seq<char>, Seq<char>)> {
    let i = index_of(line, ':');
    if i >= line.len() {
        None
    } else if trim(line.take(i)).len() == 0 {
        None
    } else {
        Some((trim(line.take(i)), trim_start(line.skip(i + 1))))
    }
}

/// The fields of the given lines, in order; lines that are no field are skipped.
pub open spec fn parse_fields(ls: Seq<Seq<char>>) -> Seq<(Seq<char>, Seq<char>)>
    decreases ls.len(),
{
    if ls.len() == 0 {
        seq![]
    } else {
        let rest = parse_fields(ls.drop_last());
        match parse_field(ls.last()) {
            Some(f) => rest.push(f),
            None => rest,
        }
    }
}

/// The fields of a single line: its field if it is one, else none.
pub open spec fn line_fields(l: Seq<char>) -> Seq<(Seq<char>, Seq<char>)> {
    match parse_field(l) {
        Some(f) => seq![f],
        None => seq![],
    }
}

/// Each line counts for itself: the fields of a text are those of its first
/// part followed by those of the rest, a line gives its own field or none,
/// and so a line that is no field (a blank line among them) changes nothing
/// of what the other lines give.
pub proof fn lemma_fields_line_by_line(a: Seq<Seq<char>>, b: Seq<Seq<char>>, l: Seq<char>)
    ensures
        parse_fields(a + b) == parse_fields(a) + parse_fields(b),
        parse_fields(seq![l]) == line_fields(l),
        parse_field(l) is None ==> parse_fields(a + seq![l] + b) == parse_fields(a)
            + parse_fields(b),
{
    lemma_parse_fields_concat(a, b);
    lemma_parse_fields_concat(a, seq![l]);
    lemma_parse_fields_concat(a + seq![l], b);
    assert(seq![l].drop_last() =~= Seq::<Seq<char>>::empty());
    assert(parse_fields(Seq::<Seq<char>>::empty()) =~= Seq::<(Seq<char>, Seq<char>)>::empty());
    assert(parse_fields(a) + Seq::<(Seq<char>, Seq<char>)>::empty() =~= parse_fields(a));
}

proof fn lemma_parse_fields_concat(a: Seq<Seq<char>>, b: Seq<Seq<char>>)
    ensures
        parse_fields(a + b) == parse_fields(a) + parse_fields(b),
    decreases b.len(),
{
    if b.len() == 0 {
        assert(a + b =~= a);
        assert(parse_fields(a) + parse_fields(b) =~= parse_fields(a));
    } else {
        lemma_parse_fields_concat(a, b.drop_last());
        assert((a + b).drop_last() =~= a + b.drop_last());
        assert((a + b).last() == b.last());
        match parse_field(b.last()) {
            Some(f) => {
                assert(parse_fields(a) + parse_fields(b.drop_last()).push(f) =~= (parse_fields(a)
                    + parse_fields(b.drop_last())).push(f));
            },
            None => {},
        }
    }
}

/// The action that a name denotes, ignoring surrounding whitespace and ASCII case.
pub open spec fn action_named(value: Seq<char>) -> Option<AppAction> {
    let t = ascii_lower(trim(value));
    if t == "copy"@ {
        Some(AppAction::Copy)
    } else if t == "autofill"@ {
        Some(AppAction::Autofill)
    } else {
        None
    }
}

impl AppAction {
    /// The verb that reports the action as done.
    pub fn past_tense(self) -> (r: &'static str)
        ensures
            self == AppAction::Copy ==> r@ == "Copied"@,
            self == AppAction::Autofill ==> r@ == "Autofilled"@,
    {
        match self {
            AppAction::Copy => "Copied",
            AppAction::Autofill => "Autofilled",
        }
    }

    /// The action a name denotes: `copy` or `autofill`, in any ASCII case and
    /// with surrounding whitespace; any other name is refused.
    pub fn parse(value: &str) -> (r: Result<AppAction, String>)
        ensures
            r matches Ok(a) ==> action_named(value@) == Some(a),
            r matches Err(m) ==> action_named(value@) is None && m@ == "Unknown action: `"@
                + value@ + "`"@,
            r is Ok <==> action_named(value@) is Some,
    {
        let raw = chars_of(value);
        let trimmed = trim_chars(raw.as_slice());
        let lowered = ascii_lowercase(trimmed.as_slice());
        let copy = chars_of("copy");
        let autofill = chars_of("autofill");
        if chars_eq(lowered.as_slice(), copy.as_slice()) {
            Ok(AppAction::Copy)
        } else if chars_eq(lowered.as_slice(), autofill.as_slice()) {
            Ok(AppAction::Autofill)
        } else {
            let mut m: Vec<char> = Vec::new();
            push_str(&mut m, "Unknown action: `");
            push_str(&mut m, value);
            push_str(&mut m, "`");
            Err(string_of(m.as_slice()))
        }
    }
}

impl std::str::FromStr for AppAction {
    type Err = String;

    fn from_str(value: &str) -> (r: Result<Self, Self::Err>)
        ensures
            r matches Ok(a) ==> action_named(value@) == Some(a),
            r matches Err(m) ==> action_named(value@) is None && m@ == "Unknown action: `"@
                + value@ + "`"@,
            r is Ok <==> action_named(value@) is Some,
    {
        AppAction::parse(value)
    }
}

/// The field that a line holds, if any.
fn parse_field_line(line: &[char]) -> (r: Option<(String, String)>)
    ensures
        match r {
            Some(f) => parse_field(line@) == Some((f.0@, f.1@)),
            None => parse_field(line@) is None,
        },
{
    let i = position(line, ':');
    proof {
        lemma_index_of_bounds(line@, ':');
    }
    if i >= line.len() {
        return None;
    }
    let head = slice_of(line, 0, i);
    let name = trim_chars(head.as_slice());
    if name.len() == 0 {
        return None;
    }
    let tail = slice_of(line, i + 1, line.len());
    let value = trim_start_chars(tail.as_slice());
    Some((string_of(name.as_slice()), string_of(value.as_slice())))
}

/// What reading a decrypted entry gives: the first line is the password and
/// the later field lines are its fields; a text without lines is refused.
pub open spec fn parsed_entry(raw: Seq<char>, r: Result<EntryContent, AppError>) -> bool {
    &&& r is Err <==> lines(raw).len() == 0
    &&& r matches Err(e) ==> (e matches AppError::InvalidEntry(m) && m@
        == "Password entry is empty."@)
    &&& r matches Ok(c) ==> c.password@ == lines(raw)[0] && field_views(c.fields@)
        == parse_fields(lines(raw).drop_first())
}

/// Reads a decrypted entry: the first line is the password, and the later
/// lines of the form `name: value` are its fields, in order.
pub fn parse_entry_content(raw: &str) -> (r: Result<EntryContent, AppError>)
    ensures
        parsed_entry(raw@, r),
{
    let text = chars_of(raw);
    let ls = split_lines(text.as_slice());
    if ls.len() == 0 {
        return Err(AppError::InvalidEntry(owned("Password entry is empty.")));
    }
    let ghost all = lines(raw@);
    let password = string_of(ls[0].as_slice());
    let mut fields: Vec<(String, String)> = Vec::new();
    let mut i: usize = 1;
    assert(all.drop_first().take(0) =~= Seq::<Seq<char>>::empty());
    while i < ls.len()
        invariant
            1 <= i <= ls@.len(),
            char_views(ls@) == all,
            field_views(fields@) == parse_fields(all.drop_first().take(i - 1)),
        decreases ls@.len() - i,
    {
        let ghost prev = all.drop_first().take(i - 1);
        let ghost next = all.drop_first().take(i as int);
        assert(next.drop_last() == prev);
        assert(next.last() == ls@[i as int]@);
        match parse_field_line(ls[i].as_slice()) {
            Some(f) => {
                fields.push(f);
                assert(field_views(fields@) =~= parse_fields(prev).push((f.0@, f.1@)));
            },
            None => {},
        }
        i = i + 1;
    }
    assert(all.drop_first().take(ls@.len() - 1) == all.drop_first());
    Ok(EntryContent { password, fields })
}

/// The line a field is written as: its name, `": "`, then its value.
pub open spec fn field_line(f: (Seq<char>, Seq<char>)) -> Seq<char> {
    f.0 + seq![':', ' '] + f.1
}

/// The lines of the fields, each ended by `'\n'`.
pub open spec fn field_block(fs: Seq<(Seq<char>, Seq<char>)>) -> Seq<char>
    decreases fs.len(),
{
    if fs.len() == 0 {
        seq![]
    } else {
        field_line(fs[0]) + seq!['\n'] + field_block(fs.drop_first())
    }
}

/// An entry written out: the password on the first line, then one line per
/// field.
pub open spec fn entry_text(password: Seq<char>, fs: Seq<(Seq<char>, Seq<char>)>) -> Seq<char> {
    password + seq!['\n'] + field_block(fs)
}

/// A text that stands on one line as it is: no `'\n'`, and no `'\r'` at its end.
pub open spec fn single_line(s: Seq<char>) -> bool {
    !s.contains('\n') && !(s.len() > 0 && s.last() == '\r')
}

/// A field that reads back as written: a name that is not empty, has no
/// surrounding whitespace and holds no `':'` or `'\n'`, and a value without
/// leading whitespace on a single line.
pub open spec fn writable_field(f: (Seq<char>, Seq<char>)) -> bool {
    &&& f.0.len() > 0
    &&& trim(f.0) == f.0
    &&& !f.0.contains(':')
    &&& !f.0.contains('\n')
    &&& trim_start(f.1) == f.1
    &&& single_line(f.1)
}

proof fn lemma_field_line_reads_back(f: (Seq<char>, Seq<char>))
    requires
        writable_field(f),
    ensures
        parse_field(field_line(f)) == Some(f),
        single_line(field_line(f)),
{
    let line = field_line(f);
    let n = f.0;
    assert forall|k: int| 0 <= k < n.len() implies line[k] != ':' by {
        assert(line[k] == n[k]);
    }
    lemma_index_of_at(line, ':', n.len() as int);
    assert(line.take(n.len() as int) =~= n);
    let tail = line.skip(n.len() as int + 1);
    assert(tail =~= seq![' '] + f.1);
    assert(tail.drop_first() =~= f.1);
    assert(is_whitespace(' '));
    assert(trim_start(tail) == trim_start(f.1));
    assert forall|k: int| 0 <= k < line.len() implies line[k] != '\n' by {
        if k < n.len() {
            assert(line[k] == n[k]);
        } else if k >= n.len() + 2 {
            assert(line[k] == f.1[k - n.len() - 2]);
        }
    }
    if f.1.len() > 0 {
        assert(line.last() == f.1.last());
    }
}

proof fn lemma_field_block_lines(fs: Seq<(Seq<char>, Seq<char>)>)
    requires
        forall|i: int| 0 <= i < fs.len() ==> writable_field(#[trigger] fs[i]),
    ensures
        lines(field_block(fs)).len() == fs.len(),
        forall|i: int|
            0 <= i < fs.len() ==> #[trigger] lines(field_block(fs))[i] == field_line(fs[i]),
    decreases fs.len(),
{
    if fs.len() > 0 {
        let rest = fs.drop_first();
        assert forall|i: int| 0 <= i < rest.len() implies writable_field(#[trigger] rest[i]) by {
            assert(rest[i] == fs[i + 1]);
        }
        lemma_field_block_lines(rest);
        lemma_field_line_reads_back(fs[0]);
        lemma_lines_after_line(field_line(fs[0]), field_block(rest));
        assert(strip_cr(field_line(fs[0])) == field_line(fs[0]));
        assert forall|i: int| 0 <= i < fs.len() implies #[trigger] lines(field_block(fs))[i]
            == field_line(fs[i]) by {
            if i > 0 {
                assert(fs[i] == rest[i - 1]);
            }
        }
    }
}

proof fn lemma_parse_fields_all(ls: Seq<Seq<char>>, fs: Seq<(Seq<char>, Seq<char>)>)
    requires
        ls.len() == fs.len(),
        forall|i: int| 0 <= i < ls.len() ==> parse_field(#[trigger] ls[i]) == Some(fs[i]),
    ensures
        parse_fields(ls) == fs,
    decreases ls.len(),
{
    if ls.len() > 0 {
        let (l0, f0) = (ls.drop_last(), fs.drop_last());
        assert forall|i: int| 0 <= i < l0.len() implies parse_field(#[trigger] l0[i]) == Some(
            f0[i],
        ) by {
            assert(l0[i] == ls[i] && f0[i] == fs[i]);
        }
        lemma_parse_fields_all(l0, f0);
        assert(parse_field(ls.last()) == Some(fs.last()));
        assert(fs =~= f0.push(fs.last()));
    }
}

/// An entry written out reads back as written: a password on a single line
/// and fields that can be written are what `parse_entry_content` gives back
/// of the text `password\nname: value\n…`.
pub proof fn lemma_entry_round_trip(
    password: Seq<char>,
    fs: Seq<(Seq<char>, Seq<char>)>,
    r: Result<EntryContent, AppError>,
)
    requires
        single_line(password),
        forall|i: int| 0 <= i < fs.len() ==> writable_field(#[trigger] fs[i]),
        parsed_entry(entry_text(password, fs), r),
    ensures
        r matches Ok(c) && c.password@ == password && field_views(c.fields@) == fs,
{
    let text = entry_text(password, fs);
    lemma_lines_after_line(password, field_block(fs));
    lemma_field_block_lines(fs);
    let ls = lines(text);
    let block = lines(field_block(fs));
    assert(ls == seq![password] + block);
    assert(ls.drop_first() =~= block);
    assert forall|i: int| 0 <= i < block.len() implies parse_field(#[trigger] block[i]) == Some(
        fs[i],
    ) by {
        lemma_field_line_reads_back(fs[i]);
    }
    lemma_parse_fields_all(block, fs);
}

} // verus!
