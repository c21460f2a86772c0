//! ZblackListServers{guildID1;guildID2;...;(errorMessage)}
//! Halts if the current guild is in the provided list.
use vstd::prelude::*;
use crate::context::{is_error, DiscordContext, FnOutput};
use crate::decimal::parse_unsigned_spec;
use crate::text::views;

verus! {

/// The default message of a server blacklist.
pub open spec fn unavailable_text() -> Seq<char> {
    "This command is not available in this server."@
}

/// How many arguments are IDs, and the message to show: with more than one
/// argument, a last one that is not a numeric ID is the message.
pub open spec fn split_ids_spec(args: Seq<Seq<char>>) -> (int, Seq<char>) {
    if args.len() > 1 && parse_unsigned_spec(args.last(), u64::MAX as nat) is None {
        (args.len() - 1, args.last())
    } else {
        (args.len() as int, unavailable_text())
    }
}

/// The IDs and the message of a server blacklist call.
pub fn split_ids_and_error(args: &[String]) -> (r: (&[String], String))
    ensures
        r.0@ == args@.take(split_ids_spec(views(args@)).0),
        r.1@ == split_ids_spec(views(args@)).1,
{
    let n = args.len();
    if n > 0 {
        assert(views(args@).last() == args@[n - 1]@);
        if crate::decimal::parse_u64(args[n - 1].as_str()).is_none() && n > 1 {
            return (vstd::slice::slice_subrange(args, 0, n - 1), args[n - 1].clone());
        }
    }
    assert(args@.take(n as int) =~= args@);
    (args, String::from_str("This command is not available in this server."))
}

/// The call halts with the message when the current guild's ID is listed; an
/// empty argument list is an error.
pub fn run(args: Vec<String>, ctx: &DiscordContext) -> (r: FnOutput)
    ensures
        args@.len() == 0 ==> is_error(r, "blackListServers"@, "at least one server ID is required"@),
        args@.len() > 0 ==> ({
            let (n, msg) = split_ids_spec(views(args@));
            if views(args@).take(n).contains(ctx.guild_id@) {
                r matches FnOutput::UserError(m) && m@ == msg
            } else {
                r is Empty
            }
        }),
{
    if args.len() == 0 {
        return FnOutput::error("blackListServers", "at least one server ID is required");
    }
    let (ids, error_msg) = split_ids_and_error(args.as_slice());
    let ghost n = split_ids_spec(views(args@)).0;
    let mut i: usize = 0;
    while i < ids.len()
        invariant
            i <= ids.len(),
            args@.len() > 0,
            0 <= n <= args@.len(),
            n == split_ids_spec(views(args@)).0,
            error_msg@ == split_ids_spec(views(args@)).1,
            ids@ == args@.take(n),
            forall|k: int| 0 <= k < i ==> views(ids@)[k] != ctx.guild_id@,
        decreases ids.len() - i,
    {
        if crate::text::str_eq(ids[i].as_str(), ctx.guild_id.as_str()) {
            assert(views(args@).take(n)[i as int] == ctx.guild_id@);
            return FnOutput::user_error(error_msg.as_str());
        }
        i = i + 1;
    }
    assert(views(args@).take(n) =~= views(ids@));
    FnOutput::Empty
}

// ── Laws ────────────────────────────────────────────────────────────────

/// With more than one argument, a last argument that is the decimal text of a
/// server ID is an ID and the default message is shown; one holding a
/// character that is neither a digit nor `+` is the message.
pub proof fn law_last_argument_message(args: Seq<Seq<char>>, id: u64, k: int)
    ensures
        args.len() > 1 && args.last() == crate::decimal::decimal(id as nat) ==> split_ids_spec(args)
            == (args.len() as int, unavailable_text()),
        args.len() > 1 && 0 <= k < args.last().len() && !crate::decimal::is_digit(args.last()[k])
            && args.last()[k] != '+' ==> split_ids_spec(args) == (args.len() - 1, args.last()),
{
    if args.len() > 1 && args.last() == crate::decimal::decimal(id as nat) {
        crate::decimal::law_decimal_round_trip(id as nat, u64::MAX as nat);
    }
    if args.len() > 1 && 0 <= k < args.last().len() && !crate::decimal::is_digit(args.last()[k])
        && args.last()[k] != '+' {
        let l = args.last();
        let b = crate::decimal::unsigned_body(l);
        if l[0] == '+' {
            assert(k > 0);
            assert(b[k - 1] == l[k]);
            assert(!crate::decimal::all_digits(b));
        } else {
            assert(b[k] == l[k]);
            assert(!crate::decimal::all_digits(b));
        }
    }
}
} // verus!

