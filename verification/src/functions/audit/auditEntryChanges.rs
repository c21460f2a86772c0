//! ZauditEntryChanges{guildID?;entrySelector?}: the changes of the selected
//! audit-log entry as JSON.
use vstd::prelude::*;
use super::helpers::{audit_guild, fetch_spec, AuditFetch};
use crate::context::{DiscordContext, FnOutput};

verus! {

/// What to fetch (twenty entries), or the error.
pub fn run(args: &Vec<String>, ctx: &DiscordContext, has_http: bool) -> (r: Result<
    AuditFetch,
    FnOutput,
>)
    ensures
        fetch_spec(args@, *ctx, has_http, "auditEntryChanges"@, 20, r),
{
    let guild_id = audit_guild(args, ctx, has_http, "auditEntryChanges")?;
    Ok(AuditFetch { guild_id, limit: 20 })
}

} // verus!
