//! The clipboard programs a chosen value is copied with.
use vstd::prelude::*;

use crate::backends::{command_label, label_of, ExitReport};
use crate::error::AppError;
use crate::text::{chars_eq, chars_of, decimal, decimal_chars, owned, push_all, push_str, string_of, views};

verus! {

#[derive(Debug, Clone, Copy, PartialEq, Eq, Structural)]
pub enum ClipboardKind {
    WlClipboard,
    Xclip,
}

/// A clipboard backend and how long a copied value stays on the clipboard.
#[derive(Debug, Clone, Copy, PartialEq, Eq, Structural)]
pub struct ClipboardChoice {
    pub kind: ClipboardKind,
    pub clip_time_secs: u64,
}

/// The clipboard backend a name stands for.
pub open spec fn clipboard_named(name: Seq<char>) -> Option<ClipboardKind> {
    if name == "wl-clipboard"@ {
        Some(ClipboardKind::WlClipboard)
    } else if name == "xclip"@ {
        Some(ClipboardKind::Xclip)
    } else {
        None
    }
}

/// The clipboard backend of the given name.
pub fn build(name: &str, clip_time_secs: u64) -> (r: Result<ClipboardChoice, AppError>)
    ensures
        match clipboard_named(name@) {
            Some(kind) => r == Ok::<ClipboardChoice, AppError>(
                ClipboardChoice { kind, clip_time_secs },
            ),
            None => r matches Err(AppError::Config(m)) && m@ == "Unknown clipboard backend: "@
                + name@,
        },
{
    proof {
        reveal_strlit("wl-clipboard");
        reveal_strlit("xclip");
        assert("wl-clipboard"@[0] != "xclip"@[0]);
    }
    let n = chars_of(name);
    if chars_eq(n.as_slice(), chars_of("wl-clipboard").as_slice()) {
        Ok(ClipboardChoice { kind: ClipboardKind::WlClipboard, clip_time_secs })
    } else if chars_eq(n.as_slice(), chars_of("xclip").as_slice()) {
        Ok(ClipboardChoice { kind: ClipboardKind::Xclip, clip_time_secs })
    } else {
        let mut m: Vec<char> = Vec::new();
        push_str(&mut m, "Unknown clipboard backend: ");
        push_str(&mut m, name);
        Err(AppError::Config(string_of(m.as_slice())))
    }
}

/// The program that puts a value on the clipboard.
pub fn copy_program(kind: ClipboardKind) -> (r: &'static str)
    ensures
        kind == ClipboardKind::WlClipboard ==> r@ == "wl-copy"@,
        kind == ClipboardKind::Xclip ==> r@ == "xclip"@,
{
    match kind {
        ClipboardKind::WlClipboard => "wl-copy",
        ClipboardKind::Xclip => "xclip",
    }
}

/// The arguments of the program that puts a value on the clipboard.
pub fn copy_args(kind: ClipboardKind) -> (r: Vec<String>)
    ensures
        kind == ClipboardKind::WlClipboard ==> views(r@) == Seq::<Seq<char>>::empty(),
        kind == ClipboardKind::Xclip ==> views(r@) == seq!["-selection"@, "clipboard"@],
{
    let mut v: Vec<String> = Vec::new();
    match kind {
        ClipboardKind::WlClipboard => {},
        ClipboardKind::Xclip => {
            v.push(owned("-selection"));
            v.push(owned("clipboard"));
        },
    }
    assert(kind == ClipboardKind::WlClipboard ==> views(v@) =~= Seq::<Seq<char>>::empty());
    assert(kind == ClipboardKind::Xclip ==> views(v@) =~= seq!["-selection"@, "clipboard"@]);
    v
}

fn shell_command(script: Vec<char>) -> (r: Vec<String>)
    ensures
        views(r@) == seq!["sh"@, "-c"@, script@],
{
    let mut v: Vec<String> = Vec::new();
    v.push(owned("sh"));
    v.push(owned("-c"));
    v.push(string_of(script.as_slice()));
    assert(views(v@) =~= seq!["sh"@, "-c"@, script@]);
    v
}

/// The command that clears the Wayland clipboard after the given time.
pub fn clear_wayland_command(clip_time_secs: u64) -> (r: Vec<String>)
    ensures
        views(r@) == seq![
            "sh"@,
            "-c"@,
            "sleep "@ + decimal(clip_time_secs as nat) + "; wl-copy --clear"@,
        ],
{
    let mut script: Vec<char> = Vec::new();
    push_str(&mut script, "sleep ");
    push_all(&mut script, decimal_chars(clip_time_secs).as_slice());
    push_str(&mut script, "; wl-copy --clear");
    shell_command(script)
}

/// The command that clears the X clipboard after the given time.
pub fn clear_xclip_command(clip_time_secs: u64) -> (r: Vec<String>)
    ensures
        views(r@) == seq![
            "sh"@,
            "-c"@,
            "sleep "@ + decimal(clip_time_secs as nat) + "; printf '' | xclip -selection clipboard"@,
        ],
{
    let mut script: Vec<char> = Vec::new();
    push_str(&mut script, "sleep ");
    push_all(&mut script, decimal_chars(clip_time_secs).as_slice());
    push_str(&mut script, "; printf '' | xclip -selection clipboard");
    shell_command(script)
}

/// The command that clears the clipboard of a backend after its time.
pub fn clear_command(choice: ClipboardChoice) -> (r: Vec<String>)
    ensures
        choice.kind == ClipboardKind::WlClipboard ==> views(r@) == seq![
            "sh"@,
            "-c"@,
            "sleep "@ + decimal(choice.clip_time_secs as nat) + "; wl-copy --clear"@,
        ],
        choice.kind == ClipboardKind::Xclip ==> views(r@) == seq![
            "sh"@,
            "-c"@,
            "sleep "@ + decimal(choice.clip_time_secs as nat)
                + "; printf '' | xclip -selection clipboard"@,
        ],
{
    match choice.kind {
        ClipboardKind::WlClipboard => clear_wayland_command(choice.clip_time_secs),
        ClipboardKind::Xclip => clear_xclip_command(choice.clip_time_secs),
    }
}

/// What a copy program's start means: it is taken to hold the clipboard when
/// it still runs after the grace period or exited successfully within it, and
/// to have failed when it exited unsuccessfully.
pub fn startup_outcome(program: &str, args: &[String], exit: Option<ExitReport>) -> (r: Result<
    (),
    AppError,
>)
    ensures
        match exit {
            None => r is Ok,
            Some(e) => if e.success {
                r is Ok
            } else {
                r matches Err(AppError::CommandFailed { command, code, stderr }) && command@
                    == command_label(program@, args@) && code == e.code && stderr@.len() == 0
            },
        },
{
    match exit {
        None => Ok(()),
        Some(e) => {
            if e.success {
                Ok(())
            } else {
                Err(
                    AppError::CommandFailed {
                        command: label_of(program, args),
                        code: e.code,
                        stderr: String::new(),
                    },
                )
            }
        },
    }
}

} // verus!
