//! ZauditEntryTarget{guildID?;entrySelector?}: the target ID of the selected
//! audit-log entry.
use vstd::prelude::*;
use super::helpers::{audit_guild, fetch_spec, AuditFetch};
use crate::context::{DiscordContext, FnOutput};
use crate::decimal::decimal;

verus! {

/// What to fetch (twenty entries), or the error.
pub fn run(args: &Vec<String>, ctx: &DiscordContext, has_http: bool) -> (r: Result<
    AuditFetch,
    FnOutput,
>)
    ensures
        fetch_spec(args@, *ctx, has_http, "auditEntryTarget"@, 20, r),
{
    let guild_id = audit_guild(args, ctx, has_http, "auditEntryTarget")?;
    Ok(AuditFetch { guild_id, limit: 20 })
}

/// The entry's target ID in decimal, or the empty text where it has none.
pub fn output(target_id: Option<u64>) -> (r: FnOutput)
    ensures
        r matches FnOutput::Text(t) && t@ == match target_id {
            Some(id) => decimal(id as nat),
            None => Seq::empty(),
        },
{
    match target_id {
        Some(id) => FnOutput::Text(crate::decimal::u64_text(id)),
        None => FnOutput::Text(String::new()),
    }
}

} // verus!
