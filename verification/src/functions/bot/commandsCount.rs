//! ZcommandsCount: the number of loaded commands.
use vstd::prelude::*;
use crate::bot::commands::CommandRegistry;
use crate::context::FnOutput;
use crate::decimal::decimal;

verus! {

/// The number of commands, in decimal.
pub fn run(reg: &CommandRegistry) -> (r: FnOutput)
    ensures
        r matches FnOutput::Text(t) && t@ == decimal(reg.commands@.len()),
{
    FnOutput::Text(crate::decimal::usize_text(reg.commands.len()))
}

} // verus!
