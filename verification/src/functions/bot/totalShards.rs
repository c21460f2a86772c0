//! ZtotalShards: the number of shards the bot runs.
use vstd::prelude::*;
use crate::context::{DiscordContext, FnOutput};
use crate::decimal::decimal;

verus! {

/// The number of shards, in decimal.
pub fn run(args: Vec<String>, ctx: &DiscordContext) -> (r: FnOutput)
    ensures
        r matches FnOutput::Text(t) && t@ == decimal(ctx.total_shards as nat),
{
    FnOutput::Text(crate::decimal::u64_text(ctx.total_shards))
}

} // verus!
