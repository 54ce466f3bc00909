//! The error type of the picker and the text it is reported with.
use vstd::prelude::*;

use crate::text::{
    chars_of, decode_lossy, push_all, push_str, signed_chars, signed_decimal, string_of, trim,
    trim_chars, utf8_lossy,
};

verus! {

/// What the picker keeps of an I/O error: whether the thing asked for was
/// missing, and the error's own message.
#[derive(Debug, Clone)]
pub struct IoFailure {
    pub not_found: bool,
    pub message: String,
}

#[derive(Debug)]
pub enum AppError {
    Io(IoFailure),
    Config(String),
    CommandMissing(String),
    CommandFailed { command: String, code: Option<i32>, stderr: String },
    InvalidEntry(String),
}

/// An optional exit code as `{:?}` writes it.
pub open spec fn debug_code(code: Option<i32>) -> Seq<char> {
    match code {
        Some(c) => "Some("@ + signed_decimal(c as int) + ")"@,
        None => "None"@,
    }
}

/// The text an error is reported with.
pub open spec fn error_text(e: AppError) -> Seq<char> {
    match e {
        AppError::Io(f) => f.message@,
        AppError::Config(m) => m@,
        AppError::CommandMissing(c) => "Missing required command: "@ + c@,
        AppError::CommandFailed { command, code, stderr } => {
            let head = "Command `"@ + command@ + "` failed with exit code "@ + debug_code(code);
            if trim(stderr@).len() == 0 {
                head
            } else {
                head + ": "@ + trim(stderr@)
            }
        },
        AppError::InvalidEntry(m) => m@,
    }
}

fn debug_code_chars(code: Option<i32>) -> (r: Vec<char>)
    ensures
        r@ == debug_code(code),
{
    let mut r: Vec<char> = Vec::new();
    match code {
        Some(c) => {
            push_str(&mut r, "Some(");
            let d = signed_chars(c);
            push_all(&mut r, d.as_slice());
            push_str(&mut r, ")");
        },
        None => {
            push_str(&mut r, "None");
        },
    }
    r
}

impl AppError {
    /// The text the error is reported with.
    pub fn message(&self) -> (r: String)
        ensures
            r@ == error_text(*self),
    {
        match self {
            AppError::Io(f) => f.message.clone(),
            AppError::Config(m) => m.clone(),
            AppError::CommandMissing(c) => {
                let mut r: Vec<char> = Vec::new();
                push_str(&mut r, "Missing required command: ");
                push_str(&mut r, c.as_str());
                string_of(r.as_slice())
            },
            AppError::CommandFailed { command, code, stderr } => {
                let mut r: Vec<char> = Vec::new();
                push_str(&mut r, "Command `");
                push_str(&mut r, command.as_str());
                push_str(&mut r, "` failed with exit code ");
                let d = debug_code_chars(*code);
                push_all(&mut r, d.as_slice());
                let raw = chars_of(stderr.as_str());
                let trimmed = trim_chars(raw.as_slice());
                if trimmed.len() > 0 {
                    push_str(&mut r, ": ");
                    push_all(&mut r, trimmed.as_slice());
                }
                string_of(r.as_slice())
            },
            AppError::InvalidEntry(m) => m.clone(),
        }
    }
}

/// The error for a command that could not be started: a missing program
/// becomes `CommandMissing`, any other failure stays an I/O error.
pub fn command_error(program: &str, error: IoFailure) -> (r: AppError)
    ensures
        error.not_found ==> (r matches AppError::CommandMissing(p) && p@ == program@),
        !error.not_found ==> r == AppError::Io(error),
{
    if error.not_found {
        AppError::CommandMissing(string_of(chars_of(program).as_slice()))
    } else {
        AppError::Io(error)
    }
}

/// The result of a command that has exited: success, or `CommandFailed`
/// naming the command, its exit code and what it wrote to stderr, read as
/// UTF-8 with invalid sequences replaced.
pub fn command_outcome(command: String, success: bool, code: Option<i32>, stderr: &[u8]) -> (r:
    Result<(), AppError>)
    ensures
        success ==> r is Ok,
        !success ==> (r matches Err(AppError::CommandFailed { command: c, code: k, stderr: e })
            && c == command && k == code && e@ == utf8_lossy(stderr@)),
{
    if success {
        Ok(())
    } else {
        Err(AppError::CommandFailed { command, code, stderr: decode_lossy(stderr) })
    }
}

} // verus!
