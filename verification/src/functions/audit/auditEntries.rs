//! ZauditEntries{guildID?;limit?}: the newest audit-log entries as JSON.
use vstd::prelude::*;
use super::helpers::{audit_guild, fetch_spec, limit_spec, parse_limit, AuditFetch};
use crate::context::{DiscordContext, FnOutput};

verus! {

/// What to fetch (at least one entry), or the error.
pub fn run(args: &Vec<String>, ctx: &DiscordContext, has_http: bool) -> (r: Result<
    AuditFetch,
    FnOutput,
>)
    ensures
        fetch_spec(args@, *ctx, has_http, "auditEntries"@, limit_spec(args@, 1), r),
{
    let guild_id = audit_guild(args, ctx, has_http, "auditEntries")?;
    Ok(AuditFetch { guild_id, limit: parse_limit(args, 1) })
}

} // verus!
