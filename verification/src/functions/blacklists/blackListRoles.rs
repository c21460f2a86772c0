//! ZblackListRoles{roleName1;roleName2;...;(errorMessage)}
//! Halts if the author has any role matching the provided names.
use vstd::prelude::*;
use crate::context::{is_error, DiscordContext, FnOutput};
use crate::decimal::parse_unsigned_spec;
use crate::text::{lowercase_of, views};
use super::blackListUsers::split_last_spec;

verus! {

/// The names and the message of a blacklist call.
pub fn split_last_as_error(args: &[String]) -> (r: (&[String], String))
    ensures
        r.0@ == args@.take(split_last_spec(views(args@)).0),
        r.1@ == split_last_spec(views(args@)).1,
{
    super::blackListUsers::split_last_as_error(args)
}

/// What a role blacklist check needs: the guild and author to look up, the
/// lower-cased role names, and the message to halt with.
pub struct RoleCheck {
    pub guild_id: u64,
    pub user_id: u64,
    pub names_lower: Vec<String>,
    pub error_msg: String,
}

/// The lookup that a call asks for, or the error it is refused with.
pub fn run(args: &Vec<String>, ctx: &DiscordContext, has_http: bool) -> (r: Result<RoleCheck, FnOutput>)
    ensures
        args@.len() == 0 ==> (r matches Err(o) && is_error(
            o,
            "blackListRoles"@,
            "at least one role name is required"@,
        )),
        args@.len() > 0 ==> match r {
            Ok(c) => {
                let (n, msg) = split_last_spec(views(args@));
                &&& has_http
                &&& parse_unsigned_spec(ctx.guild_id@, u64::MAX as nat) == Some(c.guild_id as nat)
                &&& parse_unsigned_spec(ctx.author_id@, u64::MAX as nat) == Some(c.user_id as nat)
                &&& views(c.names_lower@) == views(args@).take(n).map_values(
                    |s: Seq<char>| lowercase_of(s),
                )
                &&& c.error_msg@ == msg
            },
            Err(o) => if !has_http {
                is_error(o, "blackListRoles"@, "no HTTP client available"@)
            } else if parse_unsigned_spec(ctx.guild_id@, u64::MAX as nat) is None {
                is_error(o, "blackListRoles"@, "not in a guild"@)
            } else {
                parse_unsigned_spec(ctx.author_id@, u64::MAX as nat) is None && is_error(
                    o,
                    "blackListRoles"@,
                    "invalid author ID"@,
                )
            },
        },
{
    if args.len() == 0 {
        return Err(FnOutput::error("blackListRoles", "at least one role name is required"));
    }
    let (role_names, error_msg) = split_last_as_error(args.as_slice());
    if !has_http {
        return Err(FnOutput::error("blackListRoles", "no HTTP client available"));
    }
    let guild_id = match crate::decimal::parse_u64(ctx.guild_id.as_str()) {
        Some(id) => id,
        None => {
            return Err(FnOutput::error("blackListRoles", "not in a guild"));
        },
    };
    let user_id = match crate::decimal::parse_u64(ctx.author_id.as_str()) {
        Some(id) => id,
        None => {
            return Err(FnOutput::error("blackListRoles", "invalid author ID"));
        },
    };
    let ghost n = split_last_spec(views(args@)).0;
    let mut names_lower: Vec<String> = Vec::new();
    let mut i: usize = 0;
    while i < role_names.len()
        invariant
            i <= role_names.len(),
            role_names@ == args@.take(n),
            names_lower@.len() == i,
            forall|k: int| 0 <= k < i ==> #[trigger] names_lower@[k]@ == lowercase_of(role_names@[k]@),
        decreases role_names.len() - i,
    {
        names_lower.push(crate::text::to_lowercase(role_names[i].as_str()));
        i = i + 1;
    }
    assert(views(names_lower@) =~= views(args@).take(n).map_values(|s: Seq<char>| lowercase_of(s)));
    Ok(RoleCheck { guild_id, user_id, names_lower, error_msg })
}

/// Some of the member's role names is listed, ignoring case.
pub open spec fn role_listed(names_lower: Seq<Seq<char>>, member_roles: Seq<Seq<char>>) -> bool {
    exists|i: int| 0 <= i < member_roles.len() && names_lower.contains(lowercase_of(#[trigger] member_roles[i]))
}

/// The outcome of a role check: the names of the member's roles that the guild
/// knows, or the error text of a failed lookup.
pub fn finish(check: RoleCheck, member_roles: Result<Vec<String>, String>) -> (r: FnOutput)
    ensures
        match member_roles {
            Err(e) => is_error(r, "blackListRoles"@, e@),
            Ok(roles) => if role_listed(views(check.names_lower@), views(roles@)) {
                r matches FnOutput::UserError(m) && m@ == check.error_msg@
            } else {
                r is Empty
            },
        },
{
    let roles = match member_roles {
        Err(e) => {
            return FnOutput::error("blackListRoles", e.as_str());
        },
        Ok(roles) => roles,
    };
    let mut i: usize = 0;
    while i < roles.len()
        invariant
            i <= roles.len(),
            member_roles == Ok::<Vec<String>, String>(roles),
            forall|k: int|
                0 <= k < i ==> !views(check.names_lower@).contains(
                    lowercase_of(#[trigger] views(roles@)[k]),
                ),
        decreases roles.len() - i,
    {
        let lower = crate::text::to_lowercase(roles[i].as_str());
        let mut j: usize = 0;
        while j < check.names_lower.len()
            invariant
                j <= check.names_lower.len(),
                i < roles.len(),
                member_roles == Ok::<Vec<String>, String>(roles),
                lower@ == lowercase_of(views(roles@)[i as int]),
                forall|k: int| 0 <= k < j ==> views(check.names_lower@)[k] != lower@,
            decreases check.names_lower.len() - j,
        {
            if crate::text::str_eq(check.names_lower[j].as_str(), lower.as_str()) {
                assert(views(check.names_lower@)[j as int] == lower@);
                return FnOutput::UserError(check.error_msg);
            }
            j = j + 1;
        }
        i = i + 1;
    }
    FnOutput::Empty
}

} // verus!
