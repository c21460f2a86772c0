//! Zenabled{condition;errorMessage?}: stops the command with a message unless
//! the condition is `true`.
use vstd::prelude::*;
use crate::args::{arg_spec, nonempty_arg_spec};
use crate::context::{is_error, DiscordContext, FnOutput};
use crate::error_messages::expected_boolean_text;

verus! {

/// The message shown where a command is disabled and no message is given.
pub open spec fn disabled_text() -> Seq<char> {
    "This command is currently disabled."@
}

/// Nothing for `true`; for `false`, the user error with argument 1 (which may
/// be empty) or the default message; for anything else (or nothing), the
/// developer error that a boolean was expected.
pub open spec fn enabled_spec(args: Seq<String>, r: FnOutput) -> bool {
    let condition = match nonempty_arg_spec(args, 0) {
        Some(c) => c,
        None => Seq::empty(),
    };
    if condition == "true"@ {
        r is Empty
    } else if condition == "false"@ {
        r matches FnOutput::UserError(m) && m@ == match arg_spec(args, 1) {
            Some(msg) => msg,
            None => disabled_text(),
        }
    } else {
        is_error(r, "enabled"@, expected_boolean_text(1, "condition"@, condition))
    }
}

/// Checks the condition.
pub fn run(args: Vec<String>, ctx: &DiscordContext) -> (r: FnOutput)
    ensures
        enabled_spec(args@, r),
{
    let condition = match crate::args::nonempty_arg(&args, 0) {
        Some(c) => c,
        None => String::new(),
    };
    if crate::text::str_eq(condition.as_str(), "true") {
        FnOutput::Empty
    } else if crate::text::str_eq(condition.as_str(), "false") {
        if args.len() > 1 {
            FnOutput::UserError(args[1].clone())
        } else {
            FnOutput::UserError(String::from_str("This command is currently disabled."))
        }
    } else {
        let m = crate::error_messages::expected_boolean(1, "condition", condition.as_str());
        FnOutput::error("enabled", m.as_str())
    }
}

} // verus!
