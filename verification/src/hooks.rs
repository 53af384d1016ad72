//! Hook configuration and the decision of what to do with a configured hook:
//! run it, skip it as commented out or empty, or report that none is set.
//! Spawning the command itself is left to the caller; the decision here is
//! what makes a hook fire-and-forget and never able to abort a session.

use crate::chars::{str_chars, trim_bounds, trim_spec};
use vstd::prelude::*;
use vstd::string::*;

verus! {

/// The four optional shell commands, one per phase-transition event.
#[derive(Debug, Clone)]
pub struct Hooks {
    pub work_start: Option<String>,
    pub work_end: Option<String>,
    pub break_start: Option<String>,
    pub break_end: Option<String>,
}

/// What the executor decides to do with one optional hook command.
#[derive(Debug, Clone, Copy, PartialEq, Eq, Structural)]
pub enum HookAction {
    /// No hook is configured: report so, spawn nothing.
    NoHook,
    /// The command's trimmed text starts with `#`: report so, spawn nothing.
    Commented,
    /// The command is only whitespace: report so, spawn nothing.
    Empty,
    /// The command is live: spawn it without waiting for it.
    Run,
}

/// The decision for a hook value, over the command's characters.
pub open spec fn hook_action_spec(h: Option<Seq<char>>) -> HookAction {
    match h {
        Option::None => HookAction::NoHook,
        Option::Some(s) => {
            let t = trim_spec(s);
            if t.len() > 0 && t[0] == '#' {
                HookAction::Commented
            } else if t.len() == 0 {
                HookAction::Empty
            } else {
                HookAction::Run
            }
        },
    }
}

/// The view of an optional command string.
pub open spec fn opt_view(h: Option<String>) -> Option<Seq<char>> {
    match h {
        Option::None => Option::None,
        Option::Some(s) => Option::Some(s@),
    }
}

/// Classify one optional hook command exactly as `hook_action_spec` says.
pub fn hook_action(hook: &Option<String>) -> (r: HookAction)
    ensures
        r == hook_action_spec(opt_view(*hook)),
{
    match hook {
        Option::None => HookAction::NoHook,
        Option::Some(cmd) => {
            let cs = str_chars(cmd.as_str());
            let (a, b) = trim_bounds(&cs);
            if b > a && cs[a] == '#' {
                HookAction::Commented
            } else if b == a {
                HookAction::Empty
            } else {
                HookAction::Run
            }
        },
    }
}

/// The notice owed for a hook decision; `None` exactly when the command is to
/// be spawned.
pub open spec fn hook_notice_spec(h: Option<Seq<char>>) -> Option<Seq<char>> {
    match hook_action_spec(h) {
        HookAction::NoHook => Option::Some("No hook configured"@),
        HookAction::Commented => Option::Some("Hook is commented out: "@ + h->Some_0),
        HookAction::Empty => Option::Some("Hook is empty"@),
        HookAction::Run => Option::None,
    }
}

/// The notice to print for a hook decision, built exactly as
/// `hook_notice_spec` says.
pub fn hook_notice(hook: &Option<String>) -> (r: Option<String>)
    ensures
        r == Option::<String>::None <==> hook_action_spec(opt_view(*hook)) == HookAction::Run,
        match r {
            Option::Some(m) => hook_notice_spec(opt_view(*hook)) == Option::Some(m@),
            Option::None => hook_notice_spec(opt_view(*hook)) == Option::<Seq<char>>::None,
        },
{
    let action = hook_action(hook);
    match action {
        HookAction::NoHook => Option::Some(String::from_str("No hook configured")),
        HookAction::Commented => {
            let mut m = String::from_str("Hook is commented out: ");
            match hook {
                Option::Some(cmd) => {
                    m.append(cmd.as_str());
                },
                Option::None => {
                },
            }
            Option::Some(m)
        },
        HookAction::Empty => Option::Some(String::from_str("Hook is empty")),
        HookAction::Run => Option::None,
    }
}

} // verus!
