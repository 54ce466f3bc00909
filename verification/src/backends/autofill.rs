//! The programs that type a chosen value into the focused window.
use vstd::prelude::*;

use crate::error::AppError;
use crate::text::{chars_eq, chars_of, push_str, string_of};

verus! {

#[derive(Debug, Clone, Copy, PartialEq, Eq, Structural)]
pub enum AutofillKind {
    Wtype,
    PowershellPaste,
}

/// The autofill backend a name stands for.
pub open spec fn autofill_named(name: Seq<char>) -> Option<AutofillKind> {
    if name == "wtype"@ {
        Some(AutofillKind::Wtype)
    } else if name == "powershell-paste"@ {
        Some(AutofillKind::PowershellPaste)
    } else {
        None
    }
}

/// The autofill backend of the given name.
pub fn build(name: &str) -> (r: Result<AutofillKind, AppError>)
    ensures
        match autofill_named(name@) {
            Some(k) => r == Ok::<AutofillKind, AppError>(k),
            None => r matches Err(AppError::Config(m)) && m@ == "Unknown autofill backend: "@
                + name@,
        },
{
    proof {
        reveal_strlit("wtype");
        reveal_strlit("powershell-paste");
        assert("wtype"@[0] != "powershell-paste"@[0]);
    }
    let n = chars_of(name);
    if chars_eq(n.as_slice(), chars_of("wtype").as_slice()) {
        Ok(AutofillKind::Wtype)
    } else if chars_eq(n.as_slice(), chars_of("powershell-paste").as_slice()) {
        Ok(AutofillKind::PowershellPaste)
    } else {
        let mut m: Vec<char> = Vec::new();
        push_str(&mut m, "Unknown autofill backend: ");
        push_str(&mut m, name);
        Err(AppError::Config(string_of(m.as_slice())))
    }
}

/// The name a failed autofill command is reported under.
pub fn failure_label(kind: AutofillKind) -> (r: &'static str)
    ensures
        kind == AutofillKind::Wtype ==> r@ == "wtype <value>"@,
        kind == AutofillKind::PowershellPaste ==> r@ == "powershell SendKeys"@,
{
    match kind {
        AutofillKind::Wtype => "wtype <value>",
        AutofillKind::PowershellPaste => "powershell SendKeys",
    }
}

/// The PowerShell script that pastes the value read from standard input with
/// `SendKeys`, keeping the clipboard as it was.
pub fn powershell_autofill_script() -> (r: &'static str)
    ensures
        r@ == POWERSHELL_AUTOFILL_SCRIPT@,
{
    POWERSHELL_AUTOFILL_SCRIPT
}

pub const POWERSHELL_AUTOFILL_SCRIPT: &'static str = "$ErrorActionPreference = 'Stop'; \
     Add-Type -AssemblyName System.Windows.Forms; \
     $value = [Console]::In.ReadToEnd(); \
     $previous = $null; \
     $hasPrevious = $false; \
     try { $previous = Get-Clipboard -Raw; $hasPrevious = $true } catch { } \
     try { \
         Set-Clipboard -Value $value; \
         Start-Sleep -Milliseconds 120; \
         [System.Windows.Forms.SendKeys]::SendWait('^v'); \
         Start-Sleep -Milliseconds 120; \
     } finally { \
         if ($hasPrevious) { \
             Set-Clipboard -Value $previous; \
         } else { \
             Set-Clipboard -Value ''; \
         } \
     }";

} // verus!
