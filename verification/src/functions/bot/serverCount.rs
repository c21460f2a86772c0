//! ZserverCount: the number of guilds in the cache.
use vstd::prelude::*;
use crate::context::FnOutput;
use crate::decimal::decimal;

verus! {

/// The number of cached guilds, in decimal.
pub fn run(guild_count: usize) -> (r: FnOutput)
    ensures
        r matches FnOutput::Text(t) && t@ == decimal(guild_count as nat),
{
    FnOutput::Text(crate::decimal::usize_text(guild_count))
}

} // verus!
