//! The menu programs that offer entries and fields to choose from.
use vstd::prelude::*;

use crate::backends::{command_label, label_of};
use crate::error::AppError;
use crate::text::{
    chars_of, decode_lossy, owned, push_str, string_of, trim, trim_chars, utf8_lossy, views,
};

verus! {

#[derive(Debug, Clone, Copy, PartialEq, Eq, Structural)]
pub enum MenuKind {
    Fuzzel,
    Bemenu,
    Wofi,
}

/// The menu backend a name stands for.
pub open spec fn menu_named(name: Seq<char>) -> Option<MenuKind> {
    if name == "fuzzel"@ {
        Some(MenuKind::Fuzzel)
    } else if name == "bemenu"@ {
        Some(MenuKind::Bemenu)
    } else if name == "wofi"@ {
        Some(MenuKind::Wofi)
    } else {
        None
    }
}

/// The menu backend of the given name.
pub fn build(name: &str) -> (r: Result<MenuKind, AppError>)
    ensures
        match menu_named(name@) {
            Some(k) => r == Ok::<MenuKind, AppError>(k),
            None => r matches Err(AppError::Config(m)) && m@ == "Unknown menu backend: "@ + name@,
        },
{
    proof {
        reveal_strlit("fuzzel");
        reveal_strlit("bemenu");
        reveal_strlit("wofi");
        assert("bemenu"@[0] != "fuzzel"@[0]);
        assert("wofi"@[0] != "fuzzel"@[0]);
        assert("wofi"@[0] != "bemenu"@[0]);
    }
    let n = chars_of(name);
    if crate::text::chars_eq(n.as_slice(), chars_of("fuzzel").as_slice()) {
        Ok(MenuKind::Fuzzel)
    } else if crate::text::chars_eq(n.as_slice(), chars_of("bemenu").as_slice()) {
        Ok(MenuKind::Bemenu)
    } else if crate::text::chars_eq(n.as_slice(), chars_of("wofi").as_slice()) {
        Ok(MenuKind::Wofi)
    } else {
        let mut m: Vec<char> = Vec::new();
        push_str(&mut m, "Unknown menu backend: ");
        push_str(&mut m, name);
        Err(AppError::Config(string_of(m.as_slice())))
    }
}

/// The program that implements a menu backend.
pub fn program(kind: MenuKind) -> (r: &'static str)
    ensures
        kind == MenuKind::Fuzzel ==> r@ == "fuzzel"@,
        kind == MenuKind::Bemenu ==> r@ == "bemenu"@,
        kind == MenuKind::Wofi ==> r@ == "wofi"@,
{
    match kind {
        MenuKind::Fuzzel => "fuzzel",
        MenuKind::Bemenu => "bemenu",
        MenuKind::Wofi => "wofi",
    }
}

pub open spec fn fuzzel_arg_list(prompt: Seq<char>) -> Seq<Seq<char>> {
    seq![
        "--dmenu"@,
        "--lines"@,
        "10"@,
        "--font"@,
        "FiraCode Nerd Font:size=9"@,
        "--background"@,
        "32302fff"@,
        "--text-color"@,
        "ddc7a1ff"@,
        "--prompt-color"@,
        "a9b665ff"@,
        "--input-color"@,
        "ebdbb2ff"@,
        "--match-color"@,
        "D8A657ff"@,
        "--selection-color"@,
        "504945ff"@,
        "--selection-text-color"@,
        "ebdbb2ff"@,
        "--selection-match-color"@,
        "D8A657ff"@,
        "--border-color"@,
        "32302fff"@,
        "--prompt"@,
        prompt,
    ]
}

pub open spec fn bemenu_arg_list(prompt: Seq<char>) -> Seq<Seq<char>> {
    seq![
        "--nb"@,
        "#32302F"@,
        "--nf"@,
        "#ddc7a1"@,
        "--sb"@,
        "#32302f"@,
        "--sf"@,
        "#ebdbb2"@,
        "--hb"@,
        "#D8A657"@,
        "--hf"@,
        "#292828"@,
        "--fb"@,
        "#504945"@,
        "--ff"@,
        "#bdae93"@,
        "--tb"@,
        "#504945"@,
        "--tf"@,
        "#a9b665"@,
        "--cb"@,
        "#a9b665"@,
        "--cf"@,
        "#EA6962"@,
        "--bdr"@,
        "#32302F"@,
        "--ignorecase"@,
        "-p"@,
        prompt,
        "-l"@,
        "10"@,
        "--border=0"@,
        "--fn"@,
        "FiraCode Nerd Font 9"@,
    ]
}

/// The arguments of `wofi`: a search is started with the initial query when
/// there is a non-empty one.
pub open spec fn wofi_arg_list(prompt: Seq<char>, initial_query: Option<Seq<char>>) -> Seq<
    Seq<char>,
> {
    let base = seq!["--dmenu"@, "--prompt"@, prompt, "--lines"@, "10"@, "--insensitive"@];
    match initial_query {
        Some(q) => if q.len() > 0 {
            base + seq!["--search"@, q]
        } else {
            base
        },
        None => base,
    }
}

/// Every menu is started to read the items from its input and print the
/// choice, under the prompt given: `fuzzel` and `wofi` are put in dmenu mode
/// by their first argument (`bemenu` works that way with no flag), and the
/// prompt follows the option that sets it.
pub proof fn lemma_menus_read_items_under_prompt(prompt: Seq<char>, initial_query: Option<Seq<char>>)
    ensures
        fuzzel_arg_list(prompt)[0] == "--dmenu"@,
        wofi_arg_list(prompt, initial_query)[0] == "--dmenu"@,
        ({
            let a = fuzzel_arg_list(prompt);
            a[a.len() - 2] == "--prompt"@ && a.last() == prompt
        }),
        ({
            let a = wofi_arg_list(prompt, initial_query);
            a[1] == "--prompt"@ && a[2] == prompt
        }),
        ({
            let a = bemenu_arg_list(prompt);
            exists|i: int| 0 <= i < a.len() - 1 && #[trigger] a[i] == "-p"@ && a[i + 1] == prompt
        }),
{
    let b = bemenu_arg_list(prompt);
    assert(b[27] == "-p"@ && b[28] == prompt);
}

fn push_owned(v: &mut Vec<String>, s: &str)
    ensures
        views(final(v)@) == views(old(v)@).push(s@),
{
    v.push(owned(s));
    assert(views(v@) =~= views(old(v)@).push(s@));
}

/// The arguments of `fuzzel` for a prompt.
pub fn fuzzel_args(prompt: &str, _initial_query: Option<&str>) -> (r: Vec<String>)
    ensures
        views(r@) == fuzzel_arg_list(prompt@),
{
    let mut v: Vec<String> = Vec::new();
    push_owned(&mut v, "--dmenu");
    push_owned(&mut v, "--lines");
    push_owned(&mut v, "10");
    push_owned(&mut v, "--font");
    push_owned(&mut v, "FiraCode Nerd Font:size=9");
    push_owned(&mut v, "--background");
    push_owned(&mut v, "32302fff");
    push_owned(&mut v, "--text-color");
    push_owned(&mut v, "ddc7a1ff");
    push_owned(&mut v, "--prompt-color");
    push_owned(&mut v, "a9b665ff");
    push_owned(&mut v, "--input-color");
    push_owned(&mut v, "ebdbb2ff");
    push_owned(&mut v, "--match-color");
    push_owned(&mut v, "D8A657ff");
    push_owned(&mut v, "--selection-color");
    push_owned(&mut v, "504945ff");
    push_owned(&mut v, "--selection-text-color");
    push_owned(&mut v, "ebdbb2ff");
    push_owned(&mut v, "--selection-match-color");
    push_owned(&mut v, "D8A657ff");
    push_owned(&mut v, "--border-color");
    push_owned(&mut v, "32302fff");
    push_owned(&mut v, "--prompt");
    push_owned(&mut v, prompt);
    assert(views(v@) =~= fuzzel_arg_list(prompt@));
    v
}

/// The arguments of `bemenu` for a prompt.
pub fn bemenu_args(prompt: &str, _initial_query: Option<&str>) -> (r: Vec<String>)
    ensures
        views(r@) == bemenu_arg_list(prompt@),
{
    let mut v: Vec<String> = Vec::new();
    push_owned(&mut v, "--nb");
    push_owned(&mut v, "#32302F");
    push_owned(&mut v, "--nf");
    push_owned(&mut v, "#ddc7a1");
    push_owned(&mut v, "--sb");
    push_owned(&mut v, "#32302f");
    push_owned(&mut v, "--sf");
    push_owned(&mut v, "#ebdbb2");
    push_owned(&mut v, "--hb");
    push_owned(&mut v, "#D8A657");
    push_owned(&mut v, "--hf");
    push_owned(&mut v, "#292828");
    push_owned(&mut v, "--fb");
    push_owned(&mut v, "#504945");
    push_owned(&mut v, "--ff");
    push_owned(&mut v, "#bdae93");
    push_owned(&mut v, "--tb");
    push_owned(&mut v, "#504945");
    push_owned(&mut v, "--tf");
    push_owned(&mut v, "#a9b665");
    push_owned(&mut v, "--cb");
    push_owned(&mut v, "#a9b665");
    push_owned(&mut v, "--cf");
    push_owned(&mut v, "#EA6962");
    push_owned(&mut v, "--bdr");
    push_owned(&mut v, "#32302F");
    push_owned(&mut v, "--ignorecase");
    push_owned(&mut v, "-p");
    push_owned(&mut v, prompt);
    push_owned(&mut v, "-l");
    push_owned(&mut v, "10");
    push_owned(&mut v, "--border=0");
    push_owned(&mut v, "--fn");
    push_owned(&mut v, "FiraCode Nerd Font 9");
    assert(views(v@) =~= bemenu_arg_list(prompt@));
    v
}

/// The arguments of `wofi` for a prompt and an optional initial query.
pub fn wofi_args(prompt: &str, initial_query: Option<&str>) -> (r: Vec<String>)
    ensures
        views(r@) == wofi_arg_list(
            prompt@,
            match initial_query {
                Some(q) => Some(q@),
                None => None,
            },
        ),
{
    let mut v: Vec<String> = Vec::new();
    push_owned(&mut v, "--dmenu");
    push_owned(&mut v, "--prompt");
    push_owned(&mut v, prompt);
    push_owned(&mut v, "--lines");
    push_owned(&mut v, "10");
    push_owned(&mut v, "--insensitive");
    let ghost base = views(v@);
    if let Some(q) = initial_query {
        let qc = chars_of(q);
        if qc.len() > 0 {
            push_owned(&mut v, "--search");
            push_owned(&mut v, q);
            assert(views(v@) =~= base + seq!["--search"@, q@]);
        }
    }
    v
}

/// The arguments of a menu backend.
pub fn menu_args(kind: MenuKind, prompt: &str, initial_query: Option<&str>) -> (r: Vec<String>)
    ensures
        kind == MenuKind::Fuzzel ==> views(r@) == fuzzel_arg_list(prompt@),
        kind == MenuKind::Bemenu ==> views(r@) == bemenu_arg_list(prompt@),
        kind == MenuKind::Wofi ==> views(r@) == wofi_arg_list(
            prompt@,
            match initial_query {
                Some(q) => Some(q@),
                None => None,
            },
        ),
{
    match kind {
        MenuKind::Fuzzel => fuzzel_args(prompt, initial_query),
        MenuKind::Bemenu => bemenu_args(prompt, initial_query),
        MenuKind::Wofi => wofi_args(prompt, initial_query),
    }
}

/// What a menu program's run means, its output read as UTF-8 with invalid
/// sequences replaced: the trimmed selection, nothing when the
/// user chose nothing or cancelled (exit code 1 or 130 with no output), and
/// otherwise a failure of the command.
pub fn menu_outcome(
    program: &str,
    args: &[String],
    exit: crate::backends::ExitReport,
    stdout: &[u8],
    stderr: &[u8],
) -> (r: Result<Option<String>, AppError>)
    ensures
        ({
            let out = trim(utf8_lossy(stdout@));
            if exit.success {
                if out.len() == 0 {
                    r == Ok::<Option<String>, AppError>(None)
                } else {
                    r matches Ok(Some(s)) && s@ == out
                }
            } else if (exit.code == Some(1i32) || exit.code == Some(130i32)) && out.len() == 0 {
                r == Ok::<Option<String>, AppError>(None)
            } else {
                r matches Err(AppError::CommandFailed { command, code, stderr: e }) && command@
                    == command_label(program@, args@) && code == exit.code && e@ == utf8_lossy(
                    stderr@,
                )
            }
        }),
{
    let text = decode_lossy(stdout);
    let raw = chars_of(text.as_str());
    let out = trim_chars(raw.as_slice());
    if exit.success {
        if out.len() == 0 {
            return Ok(None);
        } else {
            return Ok(Some(string_of(out.as_slice())));
        }
    }
    let cancelled = match exit.code {
        Some(c) => c == 1 || c == 130,
        None => false,
    };
    if cancelled && out.len() == 0 {
        return Ok(None);
    }
    Err(
        AppError::CommandFailed {
            command: label_of(program, args),
            code: exit.code,
            stderr: decode_lossy(stderr),
        },
    )
}

} // verus!
