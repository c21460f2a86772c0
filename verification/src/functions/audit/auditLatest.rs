//! ZauditLatest{guildID?}: the newest audit-log entry as JSON.
use vstd::prelude::*;
use super::helpers::{audit_guild, fetch_spec, AuditFetch};
use crate::context::{is_error, DiscordContext, FnOutput};

verus! {

/// What to fetch (one entry), or the error.
pub fn run(args: &Vec<String>, ctx: &DiscordContext, has_http: bool) -> (r: Result<
    AuditFetch,
    FnOutput,
>)
    ensures
        fetch_spec(args@, *ctx, has_http, "auditLatest"@, 1, r),
{
    let guild_id = audit_guild(args, ctx, has_http, "auditLatest")?;
    Ok(AuditFetch { guild_id, limit: 1 })
}

/// The position of the newest of `count` fetched entries, or the error where
/// there are none.
pub fn latest(count: usize) -> (r: Result<usize, FnOutput>)
    ensures
        count > 0 <==> r is Ok,
        r matches Ok(i) ==> i == 0,
        r matches Err(o) ==> is_error(o, "auditLatest"@, "no audit entries found"@),
{
    if count > 0 {
        Ok(0)
    } else {
        Err(FnOutput::error("auditLatest", "no audit entries found"))
    }
}

} // verus!
