//! ZcommandName: the name of the running command.
use vstd::prelude::*;
use crate::context::{DiscordContext, FnOutput};

verus! {

/// The command's name where it has one, else the trigger prefix that was
/// matched, else the empty text.
pub open spec fn command_name_of(ctx: DiscordContext) -> Seq<char> {
    if ctx.command_name@.len() > 0 {
        ctx.command_name@
    } else {
        match ctx.trigger {
            Some(t) => t@,
            None => Seq::empty(),
        }
    }
}

/// The name of the running command.
pub fn run(args: Vec<String>, ctx: &DiscordContext) -> (r: FnOutput)
    ensures
        r matches FnOutput::Text(t) && t@ == command_name_of(*ctx),
{
    if !ctx.command_name.as_str().is_empty() {
        FnOutput::Text(ctx.command_name.clone())
    } else {
        match &ctx.trigger {
            Some(t) => FnOutput::Text(t.clone()),
            None => FnOutput::Text(String::new()),
        }
    }
}

} // verus!
