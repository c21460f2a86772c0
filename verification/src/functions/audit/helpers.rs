//! What the audit-log functions share: the guild, the fetch limit and the
//! choice of an entry among those fetched.
use vstd::prelude::*;
use crate::args::{arg_spec, nonempty_arg_spec};
use crate::context::{is_error, DiscordContext, FnOutput};
use crate::decimal::parse_unsigned_spec;
use crate::text::trim_spec;

verus! {

/// The guild ID text: argument 0 where given and not empty, else the
/// context's guild, trimmed.
pub open spec fn guild_id_text(args: Seq<String>, ctx: DiscordContext) -> Seq<char> {
    trim_spec(
        match nonempty_arg_spec(args, 0) {
            Some(s) => s,
            None => ctx.guild_id@,
        },
    )
}

/// The guild whose audit log is read, or why there is none.
pub open spec fn guild_id_spec(args: Seq<String>, ctx: DiscordContext) -> Result<nat, Seq<char>> {
    let t = guild_id_text(args, ctx);
    if t.len() == 0 {
        Err("guild ID not found"@)
    } else {
        match parse_unsigned_spec(t, u64::MAX as nat) {
            Some(n) => Ok(n),
            None => Err("invalid guild ID"@),
        }
    }
}

/// The number of entries to fetch: argument 1 as a `u8` where it is one and
/// not below `minimum`, else `minimum`.
pub open spec fn limit_spec(args: Seq<String>, minimum: u8) -> nat {
    match arg_spec(args, 1) {
        Some(s) => match parse_unsigned_spec(s, u8::MAX as nat) {
            Some(n) => if n >= minimum {
                n
            } else {
                minimum as nat
            },
            None => minimum as nat,
        },
        None => minimum as nat,
    }
}

/// The index of the first entry whose ID is `id`, if any.
pub open spec fn first_index(ids: Seq<u64>, id: nat) -> Option<int> {
    if exists|k: int| 0 <= k < ids.len() && ids[k] == id {
        Some(
            choose|k: int|
                0 <= k < ids.len() && ids[k] == id && forall|j: int| 0 <= j < k ==> ids[j] != id,
        )
    } else {
        None
    }
}

/// Which of the fetched entries (given by their IDs, newest first) a selector
/// picks: a number that fits a `usize` is a position counted from 1 (0 counts
/// as 1); another nonzero `u64` is an entry ID; a missing or blank selector
/// picks the newest entry.
pub open spec fn selection(ids: Seq<u64>, selector: Option<Seq<char>>) -> Result<int, Seq<char>> {
    match selector {
        Some(s) => if trim_spec(s).len() > 0 {
            match parse_unsigned_spec(s, usize::MAX as nat) {
                Some(i) => {
                    let idx = if i == 0 {
                        0
                    } else {
                        i - 1
                    };
                    if idx < ids.len() {
                        Ok(idx)
                    } else {
                        Err("audit entry not found"@)
                    }
                },
                None => match parse_unsigned_spec(s, u64::MAX as nat) {
                    Some(id) => if id == 0 {
                        Err("invalid audit entry selector"@)
                    } else {
                        match first_index(ids, id) {
                            Some(k) => Ok(k),
                            None => Err("audit entry not found"@),
                        }
                    },
                    None => Err("invalid audit entry selector"@),
                },
            }
        } else if ids.len() > 0 {
            Ok(0)
        } else {
            Err("no audit entries found"@)
        },
        None => if ids.len() > 0 {
            Ok(0)
        } else {
            Err("no audit entries found"@)
        },
    }
}

proof fn lemma_first_index(ids: Seq<u64>, id: nat, k: int)
    requires
        0 <= k < ids.len(),
        ids[k] == id,
        forall|j: int| 0 <= j < k ==> ids[j] != id,
    ensures
        first_index(ids, id) == Some(k),
{
    let c = choose|c: int|
        0 <= c < ids.len() && ids[c] == id && forall|j: int| 0 <= j < c ==> ids[j] != id;
    assert(0 <= c < ids.len() && ids[c] == id && forall|j: int| 0 <= j < c ==> ids[j] != id);
    if c < k {
        assert(ids[c] != id);
    } else if c > k {
        assert(ids[k] != id);
    }
}

/// The guild whose audit log is read: argument 0, else the context's guild.
pub fn parse_guild_id(args: &Vec<String>, ctx: &DiscordContext, function: &str) -> (r: Result<
    u64,
    FnOutput,
>)
    ensures
        match r {
            Ok(id) => guild_id_spec(args@, *ctx) == Ok::<nat, Seq<char>>(id as nat),
            Err(o) => guild_id_spec(args@, *ctx) matches Err(m) && is_error(o, function@, m),
        },
{
    let text = match crate::args::nonempty_arg(args, 0) {
        Some(s) => s,
        None => ctx.guild_id.clone(),
    };
    let t = crate::text::trim(crate::text::chars_of(text.as_str()).as_slice());
    if t.len() == 0 {
        return Err(FnOutput::error(function, "guild ID not found"));
    }
    match crate::decimal::parse_unsigned(t.as_slice(), u64::MAX) {
        Some(id) => Ok(id),
        None => Err(FnOutput::error(function, "invalid guild ID")),
    }
}

/// The number of entries to fetch.
pub fn parse_limit(args: &Vec<String>, minimum: u8) -> (r: u8)
    ensures
        r as nat == limit_spec(args@, minimum),
{
    if args.len() < 2 {
        return minimum;
    }
    let v = crate::text::chars_of(args[1].as_str());
    match crate::decimal::parse_unsigned(v.as_slice(), 255) {
        Some(n) => if n >= minimum as u64 {
            n as u8
        } else {
            minimum
        },
        None => minimum,
    }
}

/// The error for a context without an HTTP client.
pub fn http_client(has_http: bool, function: &str) -> (r: Result<(), FnOutput>)
    ensures
        has_http <==> r is Ok,
        r matches Err(o) ==> is_error(o, function@, "no HTTP client available"@),
{
    if has_http {
        Ok(())
    } else {
        Err(FnOutput::error(function, "no HTTP client available"))
    }
}

/// What to fetch: the guild's newest `limit` audit-log entries.
pub struct AuditFetch {
    pub guild_id: u64,
    pub limit: u8,
}

/// The fetch a function makes for `limit` entries, or the error that stops it
/// first: the guild's, else the missing HTTP client's.
pub open spec fn fetch_spec(
    args: Seq<String>,
    ctx: DiscordContext,
    has_http: bool,
    function: Seq<char>,
    limit: nat,
    r: Result<AuditFetch, FnOutput>,
) -> bool {
    match r {
        Ok(f) => guild_id_spec(args, ctx) == Ok::<nat, Seq<char>>(f.guild_id as nat) && has_http
            && f.limit == limit,
        Err(o) => match guild_id_spec(args, ctx) {
            Err(m) => is_error(o, function, m),
            Ok(_) => !has_http && is_error(o, function, "no HTTP client available"@),
        },
    }
}

/// The guild to fetch from, or the error that stops the function first.
pub fn audit_guild(args: &Vec<String>, ctx: &DiscordContext, has_http: bool, function: &str) -> (r:
    Result<u64, FnOutput>)
    ensures
        match r {
            Ok(id) => guild_id_spec(args@, *ctx) == Ok::<nat, Seq<char>>(id as nat) && has_http,
            Err(o) => match guild_id_spec(args@, *ctx) {
                Err(m) => is_error(o, function@, m),
                Ok(_) => !has_http && is_error(o, function@, "no HTTP client available"@),
            },
        },
{
    let id = parse_guild_id(args, ctx, function)?;
    http_client(has_http, function)?;
    Ok(id)
}

/// The position of the entry that a selector picks among the fetched entries,
/// given by their IDs.
pub fn select_entry(ids: &Vec<u64>, selector: Option<&String>, function: &str) -> (r: Result<
    usize,
    FnOutput,
>)
    ensures
        match r {
            Ok(i) => selection(
                ids@,
                match selector {
                    Some(s) => Some(s@),
                    None => None,
                },
            ) == Ok::<int, Seq<char>>(i as int),
            Err(o) => selection(
                ids@,
                match selector {
                    Some(s) => Some(s@),
                    None => None,
                },
            ) matches Err(m) && is_error(o, function@, m),
        },
{
    let blank = match selector {
        Some(s) => crate::text::trim(crate::text::chars_of(s.as_str()).as_slice()).len() == 0,
        None => true,
    };
    if blank {
        if ids.len() > 0 {
            return Ok(0);
        } else {
            return Err(FnOutput::error(function, "no audit entries found"));
        }
    }
    let s = match selector {
        Some(s) => s,
        None => {
            return Err(FnOutput::error(function, "no audit entries found"));
        },
    };
    let v = crate::text::chars_of(s.as_str());
    match crate::decimal::parse_unsigned(v.as_slice(), usize::MAX as u64) {
        Some(i) => {
            let idx: usize = if i == 0 {
                0
            } else {
                (i - 1) as usize
            };
            if idx < ids.len() {
                Ok(idx)
            } else {
                Err(FnOutput::error(function, "audit entry not found"))
            }
        },
        None => match crate::decimal::parse_unsigned(v.as_slice(), u64::MAX) {
            Some(id) => {
                if id == 0 {
                    return Err(FnOutput::error(function, "invalid audit entry selector"));
                }
                let ghost sel = match selector {
                    Some(s) => Some(s@),
                    None => None,
                };
                assert(selection(ids@, sel) == match first_index(ids@, id as nat) {
                    Some(k) => Ok(k),
                    None => Err("audit entry not found"@),
                });
                let mut k: usize = 0;
                while k < ids.len()
                    invariant
                        k <= ids.len(),
                        sel == match selector {
                            Some(s) => Some(s@),
                            None => None,
                        },
                        selection(ids@, sel) == match first_index(ids@, id as nat) {
                            Some(k) => Ok(k),
                            None => Err("audit entry not found"@),
                        },
                        forall|j: int| 0 <= j < k ==> ids@[j] != id,
                    decreases ids.len() - k,
                {
                    if ids[k] == id {
                        proof {
                            lemma_first_index(ids@, id as nat, k as int);
                        }
                        return Ok(k);
                    }
                    k = k + 1;
                }
                proof {
                    if first_index(ids@, id as nat) is Some {
                        let c = choose|c: int|
                            0 <= c < ids@.len() && ids@[c] == id && forall|j: int|
                                0 <= j < c ==> ids@[j] != id;
                        assert(ids@[c] != id);
                    }
                }
                Err(FnOutput::error(function, "audit entry not found"))
            },
            None => Err(FnOutput::error(function, "invalid audit entry selector")),
        },
    }
}

} // verus!
