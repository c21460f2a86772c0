//! The presence the bot shows once connected, from its configuration.
use vstd::prelude::*;
use crate::text::str_eq;

verus! {

/// The online status shown.
pub enum StatusKind {
    Online,
    DoNotDisturb,
    Idle,
    Invisible,
}

/// The kind of the activity shown.
pub enum ActivityKind {
    Playing,
    Listening,
    Watching,
    Competing,
}

/// The status a configured name selects: `dnd`, `idle` and `invisible` select
/// theirs; anything else, or no name, is online.
pub open spec fn status_named(name: Option<Seq<char>>) -> StatusKind {
    match name {
        Some(n) => if n == "dnd"@ {
            StatusKind::DoNotDisturb
        } else if n == "idle"@ {
            StatusKind::Idle
        } else if n == "invisible"@ {
            StatusKind::Invisible
        } else {
            StatusKind::Online
        },
        None => StatusKind::Online,
    }
}

/// The activity kind a configured type selects: `listening`, `watching` and
/// `competing` select theirs; anything else is playing.
pub open spec fn activity_named(kind: Seq<char>) -> ActivityKind {
    if kind == "listening"@ {
        ActivityKind::Listening
    } else if kind == "watching"@ {
        ActivityKind::Watching
    } else if kind == "competing"@ {
        ActivityKind::Competing
    } else {
        ActivityKind::Playing
    }
}

/// The status for the configured name.
pub fn presence_status(name: Option<&str>) -> (r: StatusKind)
    ensures
        r == status_named(
            match name {
                Some(n) => Some(n@),
                None => None,
            },
        ),
{
    match name {
        Some(n) => if str_eq(n, "dnd") {
            StatusKind::DoNotDisturb
        } else if str_eq(n, "idle") {
            StatusKind::Idle
        } else if str_eq(n, "invisible") {
            StatusKind::Invisible
        } else {
            StatusKind::Online
        },
        None => StatusKind::Online,
    }
}

/// The activity kind for the configured type.
pub fn activity_kind(kind: &str) -> (r: ActivityKind)
    ensures
        r == activity_named(kind@),
{
    if str_eq(kind, "listening") {
        ActivityKind::Listening
    } else if str_eq(kind, "watching") {
        ActivityKind::Watching
    } else if str_eq(kind, "competing") {
        ActivityKind::Competing
    } else {
        ActivityKind::Playing
    }
}

// ── Laws ────────────────────────────────────────────────────────────────

/// Each status name selects its own status and only it does: `dnd`
/// DoNotDisturb, `idle` Idle, `invisible` Invisible; every other name, and no
/// name, is online.
pub proof fn law_status_names(n: Seq<char>)
    ensures
        status_named(Some(n)) == StatusKind::DoNotDisturb <==> n == "dnd"@,
        status_named(Some(n)) == StatusKind::Idle <==> n == "idle"@,
        status_named(Some(n)) == StatusKind::Invisible <==> n == "invisible"@,
        status_named(Some(n)) == StatusKind::Online <==> (n != "dnd"@ && n != "idle"@ && n
            != "invisible"@),
        status_named(None) == StatusKind::Online,
{
    reveal_strlit("dnd");
    assert("dnd"@.len() == 3 && "dnd"@[0] == 'd' && "dnd"@[1] == 'n');
    reveal_strlit("idle");
    assert("idle"@.len() == 4 && "idle"@[0] == 'i' && "idle"@[1] == 'd');
    reveal_strlit("invisible");
    assert("invisible"@.len() == 9 && "invisible"@[0] == 'i' && "invisible"@[1] == 'n');
}

/// Each activity type selects its own kind and only it does: `listening`,
/// `watching`, `competing`; every other type is playing.
pub proof fn law_activity_names(k: Seq<char>)
    ensures
        activity_named(k) == ActivityKind::Listening <==> k == "listening"@,
        activity_named(k) == ActivityKind::Watching <==> k == "watching"@,
        activity_named(k) == ActivityKind::Competing <==> k == "competing"@,
        activity_named(k) == ActivityKind::Playing <==> (k != "listening"@ && k != "watching"@ && k
            != "competing"@),
{
    reveal_strlit("listening");
    assert("listening"@.len() == 9 && "listening"@[0] == 'l' && "listening"@[1] == 'i');
    reveal_strlit("watching");
    assert("watching"@.len() == 8 && "watching"@[0] == 'w' && "watching"@[1] == 'a');
    reveal_strlit("competing");
    assert("competing"@.len() == 9 && "competing"@[0] == 'c' && "competing"@[1] == 'o');
}

} // verus!
