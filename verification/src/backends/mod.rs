//! The backends the picker can run with, and what it decides about the
//! programs that implement them.
pub mod autofill;
pub mod clipboard;
pub mod menu;
pub mod powershell;
pub mod store;

use vstd::prelude::*;

use crate::text::{join, join_chars, push_all, push_str, string_of, trim, trim_chars, views};

verus! {

/// How a program ended: whether it reported success, and its exit code if it had one.
#[derive(Debug, Clone, Copy)]
pub struct ExitReport {
    pub success: bool,
    pub code: Option<i32>,
}

/// The text a command is reported under: the program and its arguments,
/// separated by spaces, without surrounding whitespace.
pub open spec fn command_label(program: Seq<char>, args: Seq<String>) -> Seq<char> {
    trim(program + " "@ + join(views(args), " "@))
}

/// The text a command is reported under.
pub fn label_of(program: &str, args: &[String]) -> (r: String)
    ensures
        r@ == command_label(program@, args@),
{
    let mut v: Vec<char> = Vec::new();
    push_str(&mut v, program);
    push_str(&mut v, " ");
    let joined = join_chars(args, " ");
    push_all(&mut v, joined.as_slice());
    let t = trim_chars(v.as_slice());
    string_of(t.as_slice())
}

} // verus!
