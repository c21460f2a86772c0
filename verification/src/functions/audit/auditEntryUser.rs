//! ZauditEntryUser{guildID?;entrySelector?}: the ID of the user who made the
//! selected audit-log entry.
use vstd::prelude::*;
use super::helpers::{audit_guild, fetch_spec, AuditFetch};
use crate::context::{DiscordContext, FnOutput};
use crate::decimal::decimal;

verus! {

/// What to fetch (twenty entries), or the error.
pub fn run(args: &Vec<String>, ctx: &DiscordContext, has_http: bool) -> (r: Result<
    AuditFetch,
    FnOutput,
>)
    ensures
        fetch_spec(args@, *ctx, has_http, "auditEntryUser"@, 20, r),
{
    let guild_id = audit_guild(args, ctx, has_http, "auditEntryUser")?;
    Ok(AuditFetch { guild_id, limit: 20 })
}

/// The user ID in decimal.
pub fn output(user_id: u64) -> (r: FnOutput)
    ensures
        r matches FnOutput::Text(t) && t@ == decimal(user_id as nat),
{
    FnOutput::Text(crate::decimal::u64_text(user_id))
}

} // verus!
