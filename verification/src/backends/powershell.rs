//! What the picker hands to PowerShell.
use vstd::prelude::*;

use crate::error::{command_error as program_error, AppError, IoFailure};
use crate::text::{chars_of, owned, string_of, views};

verus! {

/// A text with every single quote doubled, so that it can stand inside a
/// single-quoted PowerShell string.
pub open spec fn escaped_single_quoted(s: Seq<char>) -> Seq<char>
    decreases s.len(),
{
    if s.len() == 0 {
        seq![]
    } else if s.last() == '\'' {
        escaped_single_quoted(s.drop_last()) + seq!['\'', '\'']
    } else {
        escaped_single_quoted(s.drop_last()).push(s.last())
    }
}

/// The text `str::replace("''", "'")` makes: each pair of single quotes,
/// taken from the left without overlap, becomes one.
pub open spec fn collapse_quote_pairs(s: Seq<char>) -> Seq<char>
    decreases s.len(),
{
    if s.len() == 0 {
        seq![]
    } else if s.len() >= 2 && s[0] == '\'' && s[1] == '\'' {
        seq!['\''] + collapse_quote_pairs(s.skip(2))
    } else {
        seq![s[0]] + collapse_quote_pairs(s.drop_first())
    }
}

/// The number of single quotes in a text.
pub open spec fn quote_count(s: Seq<char>) -> nat
    decreases s.len(),
{
    if s.len() == 0 {
        0
    } else {
        quote_count(s.drop_last()) + if s.last() == '\'' {
            1nat
        } else {
            0nat
        }
    }
}

/// Whether the single quotes of a text come in pairs, read from the left:
/// every maximal run of them has an even length.
pub open spec fn quotes_paired(s: Seq<char>) -> bool
    decreases s.len(),
{
    if s.len() == 0 {
        true
    } else if s[0] == '\'' {
        s.len() >= 2 && s[1] == '\'' && quotes_paired(s.skip(2))
    } else {
        quotes_paired(s.drop_first())
    }
}

proof fn lemma_escaped_concat(a: Seq<char>, b: Seq<char>)
    ensures
        escaped_single_quoted(a + b) == escaped_single_quoted(a) + escaped_single_quoted(b),
        quote_count(a + b) == quote_count(a) + quote_count(b),
    decreases b.len(),
{
    if b.len() == 0 {
        assert(a + b =~= a);
    } else {
        lemma_escaped_concat(a, b.drop_last());
        assert((a + b).drop_last() =~= a + b.drop_last());
        assert((a + b).last() == b.last());
    }
}

/// Escaping keeps a text recoverable and its quotes paired: replacing each
/// pair of single quotes by one gives the text back, the escaped text is
/// longer by the number of quotes, and its quotes come in pairs.
pub proof fn lemma_escape_single_quoted(v: Seq<char>)
    ensures
        collapse_quote_pairs(escaped_single_quoted(v)) == v,
        escaped_single_quoted(v).len() == v.len() + quote_count(v),
        quotes_paired(escaped_single_quoted(v)),
    decreases v.len(),
{
    if v.len() > 0 {
        let rest = v.drop_first();
        lemma_escape_single_quoted(rest);
        assert(v =~= seq![v[0]] + rest);
        lemma_escaped_concat(seq![v[0]], rest);
        let head = seq![v[0]];
        assert(head.drop_last() =~= Seq::<char>::empty());
        assert(escaped_single_quoted(Seq::<char>::empty()) == Seq::<char>::empty());
        assert(quote_count(Seq::<char>::empty()) == 0);
        assert(quote_count(head) == if v[0] == '\'' {
            1nat
        } else {
            0nat
        });
        let e = escaped_single_quoted(v);
        let er = escaped_single_quoted(rest);
        if v[0] == '\'' {
            assert(escaped_single_quoted(head) =~= seq!['\'', '\'']);
            assert(e =~= seq!['\'', '\''] + er);
            assert(e.skip(2) =~= er);
            assert(collapse_quote_pairs(e) == seq!['\''] + collapse_quote_pairs(er));
        } else {
            assert(escaped_single_quoted(head) =~= seq![v[0]]);
            assert(e =~= seq![v[0]] + er);
            assert(e.drop_first() =~= er);
        }
        assert(collapse_quote_pairs(e) =~= v);
    }
}

/// Doubles every single quote of `value`.
pub fn escape_single_quoted(value: &str) -> (r: String)
    ensures
        r@ == escaped_single_quoted(value@),
{
    let v = chars_of(value);
    let mut r: Vec<char> = Vec::new();
    let mut i: usize = 0;
    while i < v.len()
        invariant
            i <= v@.len(),
            r@ == escaped_single_quoted(v@.take(i as int)),
        decreases v@.len() - i,
    {
        let ghost prefix = v@.take(i + 1);
        assert(prefix.drop_last() == v@.take(i as int));
        if v[i] == '\'' {
            r.push('\'');
            r.push('\'');
            assert(r@ =~= escaped_single_quoted(prefix));
        } else {
            r.push(v[i]);
        }
        i = i + 1;
    }
    assert(v@.take(v@.len() as int) == v@);
    string_of(r.as_slice())
}

/// The arguments PowerShell is started with to run a script.
pub fn command_args(script: &str) -> (r: Vec<String>)
    ensures
        views(r@) == seq!["-NoLogo"@, "-NoProfile"@, "-NonInteractive"@, "-Command"@, script@],
{
    let mut v: Vec<String> = Vec::new();
    v.push(owned("-NoLogo"));
    v.push(owned("-NoProfile"));
    v.push(owned("-NonInteractive"));
    v.push(owned("-Command"));
    v.push(owned(script));
    assert(views(v@) =~= seq![
        "-NoLogo"@,
        "-NoProfile"@,
        "-NonInteractive"@,
        "-Command"@,
        script@,
    ]);
    v
}

/// The error for PowerShell failing to start.
pub fn command_error(error: IoFailure) -> (r: AppError)
    ensures
        error.not_found ==> (r matches AppError::CommandMissing(p) && p@ == "powershell"@),
        !error.not_found ==> r == AppError::Io(error),
{
    program_error("powershell", error)
}

} // verus!
