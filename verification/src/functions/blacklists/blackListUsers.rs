//! ZblackListUsers{username1;username2;...;(errorMessage)}
//! Halts if the author's username matches any in the provided list.
use vstd::prelude::*;
use crate::context::{is_error, DiscordContext, FnOutput};
use crate::text::{lowercase_of, views};

verus! {

/// The default message of a user or role blacklist.
pub open spec fn blacklisted_text() -> Seq<char> {
    "You are blacklisted from using this command."@
}

/// The last argument reads as a message: it holds a space, `!` or `.`.
pub open spec fn reads_as_message(s: Seq<char>) -> bool {
    s.contains(' ') || s.contains('!') || s.contains('.')
}

/// How many arguments are names, and the message to show: with more than one
/// argument, a last one that reads as a message is the message.
pub open spec fn split_last_spec(args: Seq<Seq<char>>) -> (int, Seq<char>) {
    if args.len() > 1 && reads_as_message(args.last()) {
        (args.len() - 1, args.last())
    } else {
        (args.len() as int, blacklisted_text())
    }
}

/// The names and the message of a blacklist call.
pub fn split_last_as_error(args: &[String]) -> (r: (&[String], String))
    ensures
        r.0@ == args@.take(split_last_spec(views(args@)).0),
        r.1@ == split_last_spec(views(args@)).1,
{
    let n = args.len();
    if n > 1 {
        let last = crate::text::chars_of(args[n - 1].as_str());
        if crate::text::contains_char(last.as_slice(), ' ') || crate::text::contains_char(
            last.as_slice(),
            '!',
        ) || crate::text::contains_char(last.as_slice(), '.') {
            assert(views(args@).last() == args@[n - 1]@);
            return (vstd::slice::slice_subrange(args, 0, n - 1), args[n - 1].clone());
        }
        assert(views(args@).last() == args@[n - 1]@);
    }
    assert(args@.take(n as int) =~= args@);
    (args, String::from_str("You are blacklisted from using this command."))
}

/// Some name matches the username, ignoring case.
pub open spec fn name_listed(names: Seq<Seq<char>>, username: Seq<char>) -> bool {
    exists|i: int| 0 <= i < names.len() && lowercase_of(#[trigger] names[i]) == lowercase_of(username)
}

/// The call halts with the message when the author's username is listed
/// (ignoring case); an empty argument list is an error.
pub fn run(args: Vec<String>, ctx: &DiscordContext) -> (r: FnOutput)
    ensures
        args@.len() == 0 ==> is_error(r, "blackListUsers"@, "at least one username is required"@),
        args@.len() > 0 ==> ({
            let (n, msg) = split_last_spec(views(args@));
            if name_listed(views(args@).take(n), ctx.username@) {
                r matches FnOutput::UserError(m) && m@ == msg
            } else {
                r is Empty
            }
        }),
{
    if args.len() == 0 {
        return FnOutput::error("blackListUsers", "at least one username is required");
    }
    let (names, error_msg) = split_last_as_error(args.as_slice());
    let ghost n = split_last_spec(views(args@)).0;
    let username_lower = crate::text::to_lowercase(ctx.username.as_str());
    let mut i: usize = 0;
    while i < names.len()
        invariant
            i <= names.len(),
            args@.len() > 0,
            0 <= n <= args@.len(),
            n == split_last_spec(views(args@)).0,
            error_msg@ == split_last_spec(views(args@)).1,
            names@ == args@.take(n),
            username_lower@ == lowercase_of(ctx.username@),
            forall|k: int| 0 <= k < i ==> lowercase_of(#[trigger] views(names@)[k]) != lowercase_of(ctx.username@),
        decreases names.len() - i,
    {
        let lower = crate::text::to_lowercase(names[i].as_str());
        if crate::text::str_eq(lower.as_str(), username_lower.as_str()) {
            assert(views(args@).take(n)[i as int] == names@[i as int]@);
            return FnOutput::UserError(error_msg);
        }
        i = i + 1;
    }
    assert(views(args@).take(n) =~= views(names@));
    FnOutput::Empty
}

// ── Laws ────────────────────────────────────────────────────────────────

/// With more than one argument, a last argument holding a space, `!` or `.` is
/// the message and every other argument is a name; otherwise every argument is
/// a name and the default message is shown.
pub proof fn law_last_argument_message(args: Seq<Seq<char>>)
    ensures
        args.len() > 1 && (args.last().contains(' ') || args.last().contains('!')
            || args.last().contains('.')) ==> split_last_spec(args) == (args.len() - 1, args.last()),
        !(args.len() > 1 && (args.last().contains(' ') || args.last().contains('!')
            || args.last().contains('.'))) ==> split_last_spec(args) == (
            args.len() as int,
            "You are blacklisted from using this command."@,
        ),
{
}

} // verus!
