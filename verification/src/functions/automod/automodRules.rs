//! ZautomodRules{guildID?}
//! Returns a JSON array of all auto-moderation rules with their IDs and names.
use vstd::prelude::*;
use crate::args::nonempty_arg_spec;
use crate::context::{is_error, FnOutput};
use crate::decimal::parse_unsigned_spec;
use super::automodRuleEdit::snowflake_text;

verus! {

/// The guild argument, the current guild where it is missing or empty.
pub open spec fn guild_text(args: Seq<String>, current_guild: Seq<char>) -> Seq<char> {
    match nonempty_arg_spec(args, 0) {
        Some(a) => a,
        None => current_guild,
    }
}

/// The guild whose rules a call asks for, or the error it is refused with.
pub fn run(args: &Vec<String>, current_guild: &str, has_http: bool) -> (r: Result<u64, FnOutput>)
    ensures
        ({
            let s = guild_text(args@, current_guild@);
            match r {
                Ok(gid) => s.len() > 0 && parse_unsigned_spec(s, u64::MAX as nat) == Some(gid as nat)
                    && has_http,
                Err(o) => if s.len() == 0 {
                    is_error(
                        o,
                        "automodRules"@,
                        "argument "@ + crate::decimal::decimal(1) + " ("@ + "guild ID"@
                            + ") is required"@,
                    )
                } else if parse_unsigned_spec(s, u64::MAX as nat) is None {
                    is_error(o, "automodRules"@, snowflake_text(1, "guild ID"@, s))
                } else {
                    !has_http && is_error(o, "automodRules"@, "no HTTP client available"@)
                },
            }
        }),
{
    let s = match crate::args::nonempty_arg(args, 0) {
        Some(a) => a,
        None => String::from_str(current_guild),
    };
    if s.as_str().is_empty() {
        let m = crate::error_messages::required(1, "guild ID");
        return Err(FnOutput::error("automodRules", m.as_str()));
    }
    let gid = match crate::decimal::parse_u64(s.as_str()) {
        Some(id) => id,
        None => {
            let m = crate::error_messages::expected_snowflake(1, "guild ID", s.as_str());
            return Err(FnOutput::error("automodRules", m.as_str()));
        },
    };
    if !has_http {
        return Err(FnOutput::error("automodRules", "no HTTP client available"));
    }
    Ok(gid)
}

} // verus!
