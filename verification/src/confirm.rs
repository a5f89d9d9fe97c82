//! The confirmation rule for destructive operations (force-close): an
//! explicit bypass flag proceeds; a non-interactive session without the
//! flag is refused before any network call; otherwise the user is
//! prompted and must answer `yes`.

use vstd::prelude::*;
use vstd::string::StringExecFns;

use crate::strutil::spec_trim;
use crate::strutil::str_eq;
use crate::strutil::trim_str;

verus! {

/// What to do before a destructive operation.
pub enum ConfirmDecision {
    /// The bypass flag was given: proceed without prompting.
    Proceed,
    /// No bypass and no terminal to ask on: refuse, fatally.
    RefuseNonInteractive,
    /// Ask the user interactively.
    Prompt,
}

/// Decides how a destructive operation is confirmed.
pub fn confirm_decision(yes: bool, stdin_is_tty: bool) -> (r: ConfirmDecision)
    ensures
        yes ==> r == ConfirmDecision::Proceed,
        !yes && !stdin_is_tty ==> r == ConfirmDecision::RefuseNonInteractive,
        !yes && stdin_is_tty ==> r == ConfirmDecision::Prompt,
{
    if yes {
        ConfirmDecision::Proceed
    } else if !stdin_is_tty {
        ConfirmDecision::RefuseNonInteractive
    } else {
        ConfirmDecision::Prompt
    }
}

/// Whether a prompt answer confirms the operation: exactly the trimmed
/// answer `yes` does.
pub fn confirm_answer(line: &str) -> (r: bool)
    ensures
        r == (spec_trim(line@) == "yes"@),
{
    let t = trim_str(line);
    str_eq(t.as_str(), "yes")
}

} // verus!
