//! The desktop notification sent after an action.
use vstd::prelude::*;

use crate::text::{owned, push_str, string_of, views};

verus! {

#[derive(Debug)]
pub struct Notifier {
    enabled: bool,
}

/// The text of the notification for an action done on a field.
pub open spec fn notification_text(verb: Seq<char>, field: Seq<char>) -> Seq<char> {
    "󰌆 "@ + verb + " "@ + field + "!"@
}

impl Notifier {
    pub closed spec fn is_enabled(self) -> bool {
        self.enabled
    }

    pub fn new(enabled: bool) -> (r: Self)
        ensures
            r.is_enabled() == enabled,
    {
        Notifier { enabled }
    }

    /// The arguments of `notify-send` for an action done on a field, or
    /// nothing when notifications are off.
    pub fn notification_args(&self, verb: &str, field: &str) -> (r: Option<Vec<String>>)
        ensures
            !self.is_enabled() ==> r is None,
            self.is_enabled() ==> (r matches Some(args) && views(args@) == seq![
                "Pmenu"@,
                notification_text(verb@, field@),
                "-t"@,
                "2000"@,
            ]),
    {
        if !self.enabled {
            return None;
        }
        let mut text: Vec<char> = Vec::new();
        push_str(&mut text, "󰌆 ");
        push_str(&mut text, verb);
        push_str(&mut text, " ");
        push_str(&mut text, field);
        push_str(&mut text, "!");
        let mut args: Vec<String> = Vec::new();
        args.push(owned("Pmenu"));
        args.push(string_of(text.as_slice()));
        args.push(owned("-t"));
        args.push(owned("2000"));
        assert(views(args@) =~= seq![
            "Pmenu"@,
            notification_text(verb@, field@),
            "-t"@,
            "2000"@,
        ]);
        Some(args)
    }
}

} // verus!
