//! ZauditCount{guildID?;limit?}: the number of fetched audit-log entries.
use vstd::prelude::*;
use super::helpers::{audit_guild, fetch_spec, limit_spec, parse_limit, AuditFetch};
use crate::context::{DiscordContext, FnOutput};
use crate::decimal::decimal;

verus! {

/// What to fetch (at least one entry), or the error.
pub fn run(args: &Vec<String>, ctx: &DiscordContext, has_http: bool) -> (r: Result<
    AuditFetch,
    FnOutput,
>)
    ensures
        fetch_spec(args@, *ctx, has_http, "auditCount"@, limit_spec(args@, 1), r),
{
    let guild_id = audit_guild(args, ctx, has_http, "auditCount")?;
    Ok(AuditFetch { guild_id, limit: parse_limit(args, 1) })
}

/// The number of entries fetched, in decimal.
pub fn finish(count: usize) -> (r: FnOutput)
    ensures
        r matches FnOutput::Text(t) && t@ == decimal(count as nat),
{
    FnOutput::Text(crate::decimal::usize_text(count))
}

} // verus!
