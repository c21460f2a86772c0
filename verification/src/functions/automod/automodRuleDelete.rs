//! ZautomodRuleDelete{guildID;ruleID}
//! Deletes an auto-moderation rule.
use vstd::prelude::*;
use crate::args::nonempty_arg_spec;
use crate::context::{is_error, FnOutput};
use crate::decimal::parse_unsigned_spec;
use super::automodRuleEdit::snowflake_text;

verus! {

/// Argument `i` where it is present and not empty, else the empty text.
pub open spec fn id_arg(args: Seq<String>, i: int) -> Seq<char> {
    match nonempty_arg_spec(args, i) {
        Some(a) => a,
        None => Seq::empty(),
    }
}

/// The guild and rule a deletion asks for, or the error it is refused with.
pub fn run(args: &Vec<String>, has_http: bool) -> (r: Result<(u64, u64), FnOutput>)
    ensures
        ({
            let g = parse_unsigned_spec(id_arg(args@, 0), u64::MAX as nat);
            let k = parse_unsigned_spec(id_arg(args@, 1), u64::MAX as nat);
            match r {
                Ok((gid, rid)) => g == Some(gid as nat) && k == Some(rid as nat) && has_http,
                Err(o) => if g is None {
                    is_error(o, "automodRuleDelete"@, snowflake_text(1, "guild ID"@, id_arg(args@, 0)))
                } else if k is None {
                    is_error(o, "automodRuleDelete"@, snowflake_text(2, "rule ID"@, id_arg(args@, 1)))
                } else {
                    !has_http && is_error(o, "automodRuleDelete"@, "no HTTP client available"@)
                },
            }
        }),
{
    let g = match crate::args::nonempty_arg(args, 0) {
        Some(a) => a,
        None => String::new(),
    };
    let k = match crate::args::nonempty_arg(args, 1) {
        Some(a) => a,
        None => String::new(),
    };
    let gid = match crate::decimal::parse_u64(g.as_str()) {
        Some(id) => id,
        None => {
            let m = crate::error_messages::expected_snowflake(1, "guild ID", g.as_str());
            return Err(FnOutput::error("automodRuleDelete", m.as_str()));
        },
    };
    let rid = match crate::decimal::parse_u64(k.as_str()) {
        Some(id) => id,
        None => {
            let m = crate::error_messages::expected_snowflake(2, "rule ID", k.as_str());
            return Err(FnOutput::error("automodRuleDelete", m.as_str()));
        },
    };
    if !has_http {
        return Err(FnOutput::error("automodRuleDelete", "no HTTP client available"));
    }
    Ok((gid, rid))
}

} // verus!
