//! ZslashCommandsCount: the number of loaded slash commands.
use vstd::prelude::*;
use crate::bot::commands::{slash_indices, CommandKind, CommandRegistry};
use crate::context::FnOutput;
use crate::decimal::decimal;

verus! {

/// The number of slash commands, in decimal.
pub fn run(reg: &CommandRegistry) -> (r: FnOutput)
    ensures
        r matches FnOutput::Text(t) && t@ == decimal(slash_indices(reg.commands@).len()),
{
    let mut n: usize = 0;
    let mut i: usize = 0;
    while i < reg.commands.len()
        invariant
            i <= reg.commands.len(),
            n == slash_indices(reg.commands@.take(i as int)).len(),
            n <= i,
        decreases reg.commands.len() - i,
    {
        assert(reg.commands@.take(i + 1).drop_last() =~= reg.commands@.take(i as int));
        if reg.commands[i].kind == CommandKind::Slash {
            n = n + 1;
        }
        i = i + 1;
    }
    assert(reg.commands@.take(reg.commands.len() as int) =~= reg.commands@);
    FnOutput::Text(crate::decimal::usize_text(n))
}

} // verus!
