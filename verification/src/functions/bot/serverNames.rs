//! ZserverNames{amount?;separator?}: the names of the cached guilds.
use vstd::prelude::*;
use crate::args::{arg_spec, nonempty_arg_spec};
use crate::context::FnOutput;
use crate::decimal::parse_unsigned_spec;
use crate::text::{join_spec, views};

verus! {

/// The names listed: at most `amount` (argument 0, where it is a `usize`).
pub open spec fn listed(args: Seq<String>, names: Seq<Seq<char>>) -> Seq<Seq<char>> {
    match arg_spec(args, 0) {
        Some(a) => match parse_unsigned_spec(a, usize::MAX as nat) {
            Some(n) => if n < names.len() {
                names.take(n as int)
            } else {
                names
            },
            None => names,
        },
        None => names,
    }
}

/// The separator: argument 1 where given and not empty, else a newline.
pub open spec fn separator(args: Seq<String>) -> Seq<char> {
    match nonempty_arg_spec(args, 1) {
        Some(s) => s,
        None => "\n"@,
    }
}

/// The names of the cached guilds (in cache order), at most `amount` of them,
/// joined by the separator; nothing where none is listed.
pub fn run(args: Vec<String>, names: Vec<String>) -> (r: FnOutput)
    ensures
        ({
            let l = listed(args@, views(names@));
            if l.len() == 0 {
                r is Empty
            } else {
                r matches FnOutput::Text(t) && t@ == join_spec(l, separator(args@))
            }
        }),
{
    let mut names = names;
    let ghost before = views(names@);
    if args.len() > 0 {
        let v = crate::text::chars_of(args[0].as_str());
        match crate::decimal::parse_unsigned(v.as_slice(), usize::MAX as u64) {
            Some(n) => {
                if (n as usize) < names.len() {
                    names.truncate(n as usize);
                    assert(views(names@) =~= before.take(n as int));
                }
            },
            None => {},
        }
    }
    assert(views(names@) == listed(args@, before));
    if names.len() == 0 {
        return FnOutput::Empty;
    }
    let sep = match crate::args::nonempty_arg(&args, 1) {
        Some(s) => s,
        None => String::from_str("\n"),
    };
    let t = crate::text::join(&names, sep.as_str());
    assert(names@.map_values(|p: String| p@) =~= views(names@));
    FnOutput::Text(t)
}

} // verus!
