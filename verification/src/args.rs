//! Reading the arguments of a ZBR function call.
use vstd::prelude::*;
use crate::decimal::parse_unsigned_spec;
use crate::text::{split_spec, trim_spec};

verus! {

/// The text of argument `i`, where there is one (`args.get(i)`).
pub open spec fn arg_spec(args: Seq<String>, i: int) -> Option<Seq<char>> {
    if 0 <= i < args.len() {
        Some(args[i]@)
    } else {
        None
    }
}

/// The text of argument `i`, or the empty text where there is none.
pub open spec fn arg_or_empty_spec(args: Seq<String>, i: int) -> Seq<char> {
    match arg_spec(args, i) {
        Some(a) => a,
        None => Seq::empty(),
    }
}

/// The text of argument `i` where there is one and it is not empty.
pub open spec fn nonempty_arg_spec(args: Seq<String>, i: int) -> Option<Seq<char>> {
    match arg_spec(args, i) {
        Some(a) => if a.len() > 0 {
            Some(a)
        } else {
            None
        },
        None => None,
    }
}

/// The IDs in a comma-separated list: each piece trimmed, those that are not
/// numeric IDs skipped.
pub open spec fn id_list(s: Seq<char>) -> Seq<nat> {
    ids_among(split_spec(s, ','))
}

pub open spec fn ids_among(pieces: Seq<Seq<char>>) -> Seq<nat>
    decreases pieces.len(),
{
    if pieces.len() == 0 {
        Seq::empty()
    } else {
        let prev = ids_among(pieces.drop_last());
        match parse_unsigned_spec(trim_spec(pieces.last()), u64::MAX as nat) {
            Some(v) => prev.push(v),
            None => prev,
        }
    }
}

/// Argument `i`, or an empty string where there is none (`args.get(i).cloned().unwrap_or_default()`).
pub fn arg_or_empty(args: &Vec<String>, i: usize) -> (r: String)
    ensures
        r@ == arg_or_empty_spec(args@, i as int),
{
    if i < args.len() {
        args[i].clone()
    } else {
        String::new()
    }
}

/// Argument `i` where it is present and not empty.
pub fn nonempty_arg(args: &Vec<String>, i: usize) -> (r: Option<String>)
    ensures
        match r {
            Some(a) => nonempty_arg_spec(args@, i as int) == Some(a@),
            None => nonempty_arg_spec(args@, i as int) is None,
        },
{
    if i < args.len() && !args[i].as_str().is_empty() {
        Some(args[i].clone())
    } else {
        proof {
            if i < args.len() {
                assert(args@[i as int]@.len() == 0);
            }
        }
        None
    }
}

/// The IDs in a comma-separated list of IDs.
pub fn parse_id_list(s: &str) -> (r: Vec<u64>)
    ensures
        r@.map_values(|x: u64| x as nat) == id_list(s@),
{
    let v = crate::text::chars_of(s);
    let pieces = crate::text::split(v.as_slice(), ',');
    let ghost ps = split_spec(s@, ',');
    let mut r: Vec<u64> = Vec::new();
    let mut i: usize = 0;
    while i < pieces.len()
        invariant
            i <= pieces.len(),
            pieces@.len() == ps.len(),
            ps == split_spec(s@, ','),
            forall|k: int| 0 <= k < pieces@.len() ==> #[trigger] pieces@[k]@ == ps[k],
            r@.map_values(|x: u64| x as nat) == ids_among(ps.take(i as int)),
        decreases pieces.len() - i,
    {
        assert(ps.take(i + 1).drop_last() =~= ps.take(i as int));
        assert(ps.take(i + 1).last() == pieces@[i as int]@);
        let t = crate::text::trim(pieces[i].as_slice());
        let ghost r0 = r@.map_values(|x: u64| x as nat);
        match crate::decimal::parse_unsigned(t.as_slice(), u64::MAX) {
            Some(id) => {
                r.push(id);
                assert(r@.map_values(|x: u64| x as nat) =~= r0.push(id as nat));
            },
            None => {},
        }
        i = i + 1;
    }
    assert(ps.take(pieces.len() as int) =~= ps);
    r
}

} // verus!
