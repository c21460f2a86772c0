//! ZbotCommands{separator?}: the triggers of the loaded commands, sorted.
use vstd::prelude::*;
use crate::args::nonempty_arg_spec;
use crate::bot::commands::CommandRegistry;
use crate::context::FnOutput;
use crate::text::{join_spec, lex_lt, strictly_sorted, views};

verus! {

/// The triggers of the commands.
pub open spec fn triggers(reg: CommandRegistry) -> Seq<Seq<char>> {
    reg.commands@.map_values(|c: crate::bot::commands::CommandInfo| c.trigger@)
}

/// `s` holds the triggers, each once, in lexicographic order.
pub open spec fn sorted_triggers(reg: CommandRegistry, s: Seq<Seq<char>>) -> bool {
    &&& strictly_sorted(s)
    &&& s.len() == reg.commands@.len()
    &&& forall|x: Seq<char>| s.contains(x) <==> triggers(reg).contains(x)
}

/// Inserts `x`, which it does not hold, into a strictly sorted list.
fn insert_sorted(v: &mut Vec<String>, x: String)
    requires
        strictly_sorted(views(old(v)@)),
        !views(old(v)@).contains(x@),
    ensures
        strictly_sorted(views(final(v)@)),
        views(final(v)@).len() == views(old(v)@).len() + 1,
        forall|y: Seq<char>| views(final(v)@).contains(y) <==> (views(old(v)@).contains(y) || y == x@),
{
    let xv = crate::text::chars_of(x.as_str());
    let ghost s = views(v@);
    let mut p: usize = 0;
    while p < v.len() && !crate::text::lex_less(
        xv.as_slice(),
        crate::text::chars_of(v[p].as_str()).as_slice(),
    )
        invariant
            p <= v.len(),
            s == views(v@),
            xv@ == x@,
            forall|k: int| 0 <= k < p ==> lex_lt(s[k], x@),
            strictly_sorted(s),
            !s.contains(x@),
        decreases v.len() - p,
    {
        proof {
            crate::text::lemma_lex_total(x@, s[p as int]);
            if s[p as int] == x@ {
                assert(s.contains(x@));
            }
        }
        p = p + 1;
    }
    proof {
        if p < v.len() {
            assert(lex_lt(x@, s[p as int]));
        }
    }
    v.insert(p, x);
    let ghost t = views(v@);
    assert(t =~= s.insert(p as int, x@));
    assert forall|i: int, j: int| 0 <= i < j < t.len() implies lex_lt(#[trigger] t[i], #[trigger] t[j]) by {
        if j < p {
        } else if j == p {
        } else if i < p {
            assert(t[j] == s[j - 1]);
            assert(lex_lt(x@, s[p as int]));
            if j - 1 > p {
                crate::text::lemma_lex_trans(x@, s[p as int], s[j - 1]);
            }
            crate::text::lemma_lex_trans(t[i], x@, t[j]);
        } else if i == p {
            if j - 1 > p {
                crate::text::lemma_lex_trans(x@, s[p as int], s[j - 1]);
            }
        } else {
        }
    }
    assert forall|y: Seq<char>| t.contains(y) <==> (s.contains(y) || y == x@) by {
        if t.contains(y) {
            let k = choose|k: int| 0 <= k < t.len() && #[trigger] t[k] == y;
            if k < p {
                assert(s[k] == y);
            } else if k > p {
                assert(s[k - 1] == y);
            }
        }
        if s.contains(y) {
            let k = choose|k: int| 0 <= k < s.len() && #[trigger] s[k] == y;
            if k < p {
                assert(t[k] == y);
            } else {
                assert(t[k + 1] == y);
            }
        }
        if y == x@ {
            assert(t[p as int] == y);
        }
    }
}

/// The triggers of the commands, each once, sorted.
pub fn sorted_trigger_list(reg: &CommandRegistry) -> (r: Vec<String>)
    requires
        reg.wf(),
    ensures
        sorted_triggers(*reg, views(r@)),
{
    let mut out: Vec<String> = Vec::new();
    let mut i: usize = 0;
    while i < reg.commands.len()
        invariant
            i <= reg.commands.len(),
            reg.wf(),
            strictly_sorted(views(out@)),
            views(out@).len() == i,
            forall|x: Seq<char>| views(out@).contains(x) <==> triggers(*reg).take(i as int).contains(x),
        decreases reg.commands.len() - i,
    {
        let ghost before = views(out@);
        let ghost tr = triggers(*reg);
        proof {
            if before.contains(tr[i as int]) {
                let k = choose|k: int| 0 <= k < i && #[trigger] tr.take(i as int)[k] == tr[i as int];
                assert(reg.commands@[k].trigger@ != reg.commands@[i as int].trigger@);
            }
        }
        insert_sorted(&mut out, reg.commands[i].trigger.clone());
        assert forall|x: Seq<char>| views(out@).contains(x) <==> tr.take(i + 1).contains(x) by {
            if tr.take(i + 1).contains(x) {
                let k = choose|k: int| 0 <= k < i + 1 && #[trigger] tr.take(i + 1)[k] == x;
                if k < i {
                    assert(tr.take(i as int)[k] == x);
                }
            }
            if tr.take(i as int).contains(x) {
                let k = choose|k: int| 0 <= k < i && #[trigger] tr.take(i as int)[k] == x;
                assert(tr.take(i + 1)[k] == x);
            }
            if x == tr[i as int] {
                assert(tr.take(i + 1)[i as int] == x);
            }
        }
        i = i + 1;
    }
    assert(triggers(*reg).take(reg.commands.len() as int) =~= triggers(*reg));
    out
}

/// The separator: argument 0 where given and not empty, else a newline.
pub open spec fn list_separator(args: Seq<String>) -> Seq<char> {
    match nonempty_arg_spec(args, 0) {
        Some(x) => x,
        None => "\n"@,
    }
}

/// The sorted triggers joined by the separator (argument 0 where given and
/// not empty, else a newline).
pub fn run(args: Vec<String>, reg: &CommandRegistry) -> (r: FnOutput)
    requires
        reg.wf(),
    ensures
        r matches FnOutput::Text(t) && exists|s: Seq<Seq<char>>|
            sorted_triggers(*reg, s) && t@ == #[trigger] join_spec(s, list_separator(args@)),
{
    let sep = match crate::args::nonempty_arg(&args, 0) {
        Some(s) => s,
        None => String::from_str("\n"),
    };
    let list = sorted_trigger_list(reg);
    let t = crate::text::join(&list, sep.as_str());
    assert(list@.map_values(|p: String| p@) =~= views(list@));
    assert(sep@ == list_separator(args@));
    assert(sorted_triggers(*reg, views(list@)) && t@ == join_spec(views(list@), list_separator(args@)));
    FnOutput::Text(t)
}

// ── Laws ────────────────────────────────────────────────────────────────

/// Two strictly sorted lists that hold the same strings are the same list.
pub proof fn lemma_sorted_same_elements(s: Seq<Seq<char>>, t: Seq<Seq<char>>)
    requires
        strictly_sorted(s),
        strictly_sorted(t),
        s.len() == t.len(),
        forall|x: Seq<char>| s.contains(x) <==> t.contains(x),
    ensures
        s == t,
    decreases s.len(),
{
    if s.len() > 0 {
        assert(s.contains(s[0]));
        let j = choose|j: int| 0 <= j < t.len() && t[j] == s[0];
        assert(t.contains(t[0]));
        let i = choose|i: int| 0 <= i < s.len() && s[i] == t[0];
        if j > 0 {
            assert(lex_lt(t[0], t[j]));
            if i > 0 {
                assert(lex_lt(s[0], s[i]));
                crate::text::lemma_lex_total(t[0], s[0]);
            } else {
                crate::text::lemma_lex_irreflexive(t[0]);
            }
        }
        assert(t[0] == s[0]);
        let s1 = s.drop_first();
        let t1 = t.drop_first();
        assert forall|x: Seq<char>| s1.contains(x) <==> t1.contains(x) by {
            if s1.contains(x) {
                let k = choose|k: int| 0 <= k < s1.len() && s1[k] == x;
                assert(s[k + 1] == x);
                assert(lex_lt(s[0], s[k + 1]));
                assert(t.contains(x));
                let m = choose|m: int| 0 <= m < t.len() && t[m] == x;
                if m == 0 {
                    crate::text::lemma_lex_irreflexive(x);
                }
                assert(t1[m - 1] == x);
            }
            if t1.contains(x) {
                let k = choose|k: int| 0 <= k < t1.len() && t1[k] == x;
                assert(t[k + 1] == x);
                assert(lex_lt(t[0], t[k + 1]));
                assert(s.contains(x));
                let m = choose|m: int| 0 <= m < s.len() && s[m] == x;
                if m == 0 {
                    crate::text::lemma_lex_irreflexive(x);
                }
                assert(s1[m - 1] == x);
            }
        }
        assert(strictly_sorted(s1)) by {
            assert forall|a: int, b: int| 0 <= a < b < s1.len() implies lex_lt(#[trigger] s1[a], #[trigger] s1[b]) by {
                assert(s1[a] == s[a + 1] && s1[b] == s[b + 1]);
            }
        }
        assert(strictly_sorted(t1)) by {
            assert forall|a: int, b: int| 0 <= a < b < t1.len() implies lex_lt(#[trigger] t1[a], #[trigger] t1[b]) by {
                assert(t1[a] == t[a + 1] && t1[b] == t[b + 1]);
            }
        }
        lemma_sorted_same_elements(s1, t1);
        assert(s =~= seq![s[0]] + s1);
        assert(t =~= seq![t[0]] + t1);
    } else {
        assert(s =~= t);
    }
}

/// The listing of the commands is determined: any two lists that hold the
/// triggers once each, sorted, are equal.
pub proof fn law_command_listing_is_unique(reg: CommandRegistry, s: Seq<Seq<char>>, t: Seq<Seq<char>>)
    requires
        sorted_triggers(reg, s),
        sorted_triggers(reg, t),
    ensures
        s == t,
{
    lemma_sorted_same_elements(s, t);
}

} // verus!
