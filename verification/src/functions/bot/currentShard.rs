//! ZcurrentShard: the shard that received the event.
use vstd::prelude::*;
use crate::context::{DiscordContext, FnOutput};
use crate::decimal::decimal;

verus! {

/// The shard's number, in decimal.
pub fn run(args: Vec<String>, ctx: &DiscordContext) -> (r: FnOutput)
    ensures
        r matches FnOutput::Text(t) && t@ == decimal(ctx.shard_id as nat),
{
    FnOutput::Text(crate::decimal::u64_text(ctx.shard_id))
}

} // verus!
