//! ZautomodRule{guildID;ruleID}
//! Returns the full auto-moderation rule as JSON.
use vstd::prelude::*;
use crate::args::arg_or_empty_spec;
use crate::context::{is_error, FnOutput};
use crate::decimal::parse_unsigned_spec;

verus! {

/// The guild and rule a lookup asks for, or the error it is refused with.
pub fn run(args: &Vec<String>, has_http: bool) -> (r: Result<(u64, u64), FnOutput>)
    ensures
        ({
            let g = parse_unsigned_spec(arg_or_empty_spec(args@, 0), u64::MAX as nat);
            let k = parse_unsigned_spec(arg_or_empty_spec(args@, 1), u64::MAX as nat);
            match r {
                Ok((gid, rid)) => g == Some(gid as nat) && k == Some(rid as nat) && has_http,
                Err(o) => if g is None {
                    is_error(o, "automodRule"@, "invalid guild ID"@)
                } else if k is None {
                    is_error(o, "automodRule"@, "invalid rule ID"@)
                } else {
                    !has_http && is_error(o, "automodRule"@, "no HTTP client available"@)
                },
            }
        }),
{
    let g = crate::args::arg_or_empty(args, 0);
    let k = crate::args::arg_or_empty(args, 1);
    let gid = match crate::decimal::parse_u64(g.as_str()) {
        Some(id) => id,
        None => {
            return Err(FnOutput::error("automodRule", "invalid guild ID"));
        },
    };
    let rid = match crate::decimal::parse_u64(k.as_str()) {
        Some(id) => id,
        None => {
            return Err(FnOutput::error("automodRule", "invalid rule ID"));
        },
    };
    if !has_http {
        return Err(FnOutput::error("automodRule", "no HTTP client available"));
    }
    Ok((gid, rid))
}

} // verus!
