//! The loaded commands as the bot's event handlers read them: lookup by
//! trigger, the handler of an interaction, and the slash-command registration
//! made at start-up.
use vstd::prelude::*;
use crate::text::{first_index_of, split_spec, str_eq, strip_leading};

verus! {

/// How a command is invoked.
#[derive(Clone, Copy, PartialEq, Eq, Structural)]
pub enum CommandKind {
    Slash,
    SubSlash,
    Prefix,
    Interaction,
    Event,
}

/// Where a slash command is registered.
#[derive(Clone, Copy, PartialEq, Eq, Structural)]
pub enum CommandScope {
    Guild,
    Global,
    Both,
}

/// What the handlers read of a command.
pub struct CommandInfo {
    pub trigger: String,
    pub name: String,
    pub description: String,
    pub kind: CommandKind,
    pub scope: CommandScope,
}

/// The loaded commands, each under its own trigger.
pub struct CommandRegistry {
    pub commands: Vec<CommandInfo>,
}

impl CommandRegistry {
    /// No trigger occurs twice.
    pub open spec fn wf(&self) -> bool {
        forall|i: int, j: int|
            0 <= i < j < self.commands@.len() ==> self.commands@[i].trigger@
                != self.commands@[j].trigger@
    }

    /// The command whose trigger is `t`, if any.
    pub open spec fn lookup(&self, t: Seq<char>) -> Option<int> {
        if exists|i: int| 0 <= i < self.commands@.len() && self.commands@[i].trigger@ == t {
            Some(choose|i: int| 0 <= i < self.commands@.len() && self.commands@[i].trigger@ == t)
        } else {
            None
        }
    }

    /// The command whose trigger is `t`, if any.
    pub fn get(&self, t: &str) -> (r: Option<usize>)
        requires
            self.wf(),
        ensures
            match r {
                Some(i) => self.lookup(t@) == Some(i as int),
                None => self.lookup(t@) is None,
            },
    {
        let mut i: usize = 0;
        while i < self.commands.len()
            invariant
                i <= self.commands.len(),
                self.wf(),
                forall|k: int| 0 <= k < i ==> self.commands@[k].trigger@ != t@,
            decreases self.commands.len() - i,
        {
            if str_eq(self.commands[i].trigger.as_str(), t) {
                proof {
                    let c = choose|c: int|
                        0 <= c < self.commands@.len() && self.commands@[c].trigger@ == t@;
                    assert(0 <= c < self.commands@.len() && self.commands@[c].trigger@ == t@);
                    if c != i {
                        if c < i {
                            assert(self.commands@[c].trigger@ != t@);
                        } else {
                            assert(self.commands@[i as int].trigger@ != self.commands@[c].trigger@);
                        }
                    }
                }
                return Some(i);
            }
            i = i + 1;
        }
        None
    }
}

/// The command of kind `kind` under trigger `t`, if any.
pub open spec fn command_of_kind(reg: CommandRegistry, t: Seq<char>, kind: CommandKind) -> Option<int> {
    match reg.lookup(t) {
        Some(i) => if reg.commands@[i].kind == kind {
            Some(i)
        } else {
            None
        },
        None => None,
    }
}

/// The event command with trigger `t`, if any.
pub fn event_command(reg: &CommandRegistry, t: &str) -> (r: Option<usize>)
    requires
        reg.wf(),
    ensures
        match r {
            Some(i) => command_of_kind(*reg, t@, CommandKind::Event) == Some(i as int),
            None => command_of_kind(*reg, t@, CommandKind::Event) is None,
        },
{
    match reg.get(t) {
        Some(i) => if reg.commands[i].kind == CommandKind::Event {
            Some(i)
        } else {
            None
        },
        None => None,
    }
}

/// The trigger of the handler for one custom ID.
pub open spec fn specific_handler(custom_id: Seq<char>) -> Seq<char> {
    "onInteraction{"@ + custom_id + "}"@
}

/// The handler of a component or modal interaction: the command under
/// `onInteraction{<custom ID>}` where there is one, else the one under
/// `onInteraction`; either only where it is an interaction command.
pub open spec fn interaction_handler_spec(reg: CommandRegistry, custom_id: Seq<char>) -> Option<int> {
    let found = match reg.lookup(specific_handler(custom_id)) {
        Some(i) => Some(i),
        None => reg.lookup("onInteraction"@),
    };
    match found {
        Some(i) => if reg.commands@[i].kind == CommandKind::Interaction {
            Some(i)
        } else {
            None
        },
        None => None,
    }
}

/// The handler of a component or modal interaction, if any.
pub fn interaction_handler(reg: &CommandRegistry, custom_id: &str) -> (r: Option<usize>)
    requires
        reg.wf(),
    ensures
        match r {
            Some(i) => interaction_handler_spec(*reg, custom_id@) == Some(i as int),
            None => interaction_handler_spec(*reg, custom_id@) is None,
        },
{
    let mut key = String::from_str("onInteraction{");
    key.append(custom_id);
    key.append("}");
    let found = match reg.get(key.as_str()) {
        Some(i) => Some(i),
        None => reg.get("onInteraction"),
    };
    match found {
        Some(i) => if reg.commands[i].kind == CommandKind::Interaction {
            Some(i)
        } else {
            None
        },
        None => None,
    }
}

// ── Slash-command registration ──────────────────────────────────────────

/// How one slash command is registered: under its trigger without leading
/// slashes, in the configured guild (where its scope asks for one and a guild
/// is configured) and globally (where its scope asks for it).
pub struct SlashRegistration {
    pub index: usize,
    pub name: String,
    pub guild: Option<u64>,
    pub global: bool,
}

/// One subcommand of a parent command: the command and its name.
pub struct SubRegistration {
    pub index: usize,
    pub name: String,
}

/// A parent command registered in the configured guild for its subcommands;
/// `slash` is the slash command of the same name whose description and
/// options it takes, if there is one.
pub struct ParentRegistration {
    pub name: String,
    pub slash: Option<usize>,
    pub subs: Vec<SubRegistration>,
    pub guild_id: u64,
}

/// The registrations made when the bot connects.
pub struct RegistrationPlan {
    pub slash: Vec<SlashRegistration>,
    pub parents: Vec<ParentRegistration>,
}

/// The positions of the slash commands, in order.
pub open spec fn slash_indices(cmds: Seq<CommandInfo>) -> Seq<int>
    decreases cmds.len(),
{
    if cmds.len() == 0 {
        Seq::empty()
    } else {
        let prev = slash_indices(cmds.drop_last());
        if cmds.last().kind == CommandKind::Slash {
            prev.push(cmds.len() - 1)
        } else {
            prev
        }
    }
}

/// `r` registers the slash command `c` found at `index`.
pub open spec fn slash_registered(c: CommandInfo, index: int, guild_id: Option<u64>, r: SlashRegistration) -> bool {
    &&& r.index == index
    &&& r.name@ == strip_leading(c.trigger@, '/')
    &&& r.guild == match c.scope {
        CommandScope::Global => None,
        _ => guild_id,
    }
    &&& r.global == (c.scope != CommandScope::Guild)
}

/// The parent of a subcommand: its trigger from the second character up to
/// the first space; none for other commands and triggers without a space.
pub open spec fn sub_parent(c: CommandInfo) -> Option<Seq<char>> {
    if c.kind == CommandKind::SubSlash {
        match first_index_of(c.trigger@, ' ') {
            Some(sp) => Some(c.trigger@.subrange(1, sp)),
            None => None,
        }
    } else {
        None
    }
}

/// The name of a subcommand: the second space-separated word of its trigger.
pub open spec fn sub_name(c: CommandInfo) -> Seq<char> {
    split_spec(c.trigger@, ' ')[1]
}

/// The parents of the subcommands, each once, in the order they first occur.
pub open spec fn parent_names(cmds: Seq<CommandInfo>) -> Seq<Seq<char>>
    decreases cmds.len(),
{
    if cmds.len() == 0 {
        Seq::empty()
    } else {
        let prev = parent_names(cmds.drop_last());
        match sub_parent(cmds.last()) {
            Some(p) => if prev.contains(p) {
                prev
            } else {
                prev.push(p)
            },
            None => prev,
        }
    }
}

/// The positions of the subcommands of parent `p`, in order.
pub open spec fn subs_of(cmds: Seq<CommandInfo>, p: Seq<char>) -> Seq<int>
    decreases cmds.len(),
{
    if cmds.len() == 0 {
        Seq::empty()
    } else {
        let prev = subs_of(cmds.drop_last(), p);
        if sub_parent(cmds.last()) == Some(p) {
            prev.push(cmds.len() - 1)
        } else {
            prev
        }
    }
}

/// The first slash command whose trigger is `/` and `p`, if any.
pub open spec fn slash_for(cmds: Seq<CommandInfo>, p: Seq<char>) -> Option<int>
    decreases cmds.len(),
{
    if cmds.len() == 0 {
        None
    } else {
        match slash_for(cmds.drop_last(), p) {
            Some(k) => Some(k),
            None => if cmds.last().kind == CommandKind::Slash && cmds.last().trigger@ == seq!['/']
                + p {
                Some(cmds.len() - 1)
            } else {
                None
            },
        }
    }
}

/// Subcommand triggers that have a space start with an ASCII character other
/// than a space, so that the parent name can be cut from the second byte.
pub open spec fn sub_triggers_sliceable(cmds: Seq<CommandInfo>) -> bool {
    forall|k: int|
        0 <= k < cmds.len() && cmds[k].kind == CommandKind::SubSlash && #[trigger] first_index_of(
            cmds[k].trigger@,
            ' ',
        ) is Some ==> first_index_of(cmds[k].trigger@, ' ')->0 >= 1 && (cmds[k].trigger@[0] as u32)
            < 128
}

/// `subs` lists the subcommands at positions `idx` with their names.
pub open spec fn subs_listed(cmds: Seq<CommandInfo>, idx: Seq<int>, subs: Seq<SubRegistration>) -> bool {
    &&& subs.len() == idx.len()
    &&& forall|t: int|
        0 <= t < idx.len() ==> (#[trigger] subs[t]).index == idx[t] && subs[t].name@ == sub_name(
            cmds[idx[t]],
        )
}

/// The registration plan: every slash command in order; where a guild is
/// configured, a parent command for each group of subcommands.
pub open spec fn plan_spec(cmds: Seq<CommandInfo>, guild_id: Option<u64>, r: RegistrationPlan) -> bool {
    let si = slash_indices(cmds);
    &&& r.slash@.len() == si.len()
    &&& forall|j: int|
        0 <= j < si.len() ==> slash_registered(
            cmds[si[j]],
            si[j],
            guild_id,
            #[trigger] r.slash@[j],
        )
    &&& match guild_id {
        None => r.parents@.len() == 0,
        Some(g) => {
            let names = parent_names(cmds);
            &&& r.parents@.len() == names.len()
            &&& forall|j: int|
                0 <= j < names.len() ==> {
                    let pr = #[trigger] r.parents@[j];
                    &&& pr.name@ == names[j]
                    &&& pr.guild_id == g
                    &&& match pr.slash {
                        Some(k) => slash_for(cmds, names[j]) == Some(k as int),
                        None => slash_for(cmds, names[j]) is None,
                    }
                    &&& subs_listed(cmds, subs_of(cmds, names[j]), pr.subs@)
                }
        },
    }
}

fn sub_parent_of(c: &CommandInfo) -> (r: Option<String>)
    requires
        c.kind == CommandKind::SubSlash && first_index_of(c.trigger@, ' ') is Some ==> first_index_of(
            c.trigger@,
            ' ',
        )->0 >= 1,
    ensures
        match r {
            Some(p) => sub_parent(*c) == Some(p@),
            None => sub_parent(*c) is None,
        },
{
    if c.kind != CommandKind::SubSlash {
        return None;
    }
    let t = crate::text::chars_of(c.trigger.as_str());
    assert(t@ == c.trigger@);
    match crate::text::find_char(t.as_slice(), ' ') {
        Some(sp) => {
            proof {
                crate::text::lemma_first_index_of_props(t@, ' ');
            }
            Some(crate::text::substring_of(t.as_slice(), 1, sp))
        },
        None => None,
    }
}

fn sub_name_of(c: &CommandInfo) -> (r: String)
    requires
        c.kind == CommandKind::SubSlash,
        first_index_of(c.trigger@, ' ') is Some,
    ensures
        r@ == sub_name(*c),
{
    let t = crate::text::chars_of(c.trigger.as_str());
    let parts = crate::text::split(t.as_slice(), ' ');
    proof {
        crate::text::lemma_first_index_of_props(c.trigger@, ' ');
        let sp = first_index_of(c.trigger@, ' ')->0;
        crate::text::lemma_split_len_with(t@, ' ', sp);
    }
    crate::text::string_of(parts[1].as_slice())
}

fn names_contain(names: &Vec<String>, p: &str) -> (r: bool)
    ensures
        r == crate::text::views(names@).contains(p@),
{
    let mut i: usize = 0;
    while i < names.len()
        invariant
            i <= names.len(),
            forall|k: int| 0 <= k < i ==> names@[k]@ != p@,
        decreases names.len() - i,
    {
        if str_eq(names[i].as_str(), p) {
            assert(crate::text::views(names@)[i as int] == p@);
            return true;
        }
        i = i + 1;
    }
    proof {
        if crate::text::views(names@).contains(p@) {
            let k = choose|k: int| 0 <= k < names@.len() && crate::text::views(names@)[k] == p@;
            assert(names@[k]@ != p@);
        }
    }
    false
}

fn parents_of(cmds: &Vec<CommandInfo>) -> (r: Vec<String>)
    requires
        sub_triggers_sliceable(cmds@),
    ensures
        crate::text::views(r@) == parent_names(cmds@),
{
    let mut names: Vec<String> = Vec::new();
    let mut i: usize = 0;
    while i < cmds.len()
        invariant
            i <= cmds.len(),
            sub_triggers_sliceable(cmds@),
            crate::text::views(names@) == parent_names(cmds@.take(i as int)),
        decreases cmds.len() - i,
    {
        assert(cmds@.take(i + 1).drop_last() =~= cmds@.take(i as int));
        assert(cmds@.take(i + 1).last() == cmds@[i as int]);
        proof {
            if cmds@[i as int].kind == CommandKind::SubSlash && first_index_of(
                cmds@[i as int].trigger@,
                ' ',
            ) is Some {
                assert(first_index_of(cmds@[i as int].trigger@, ' ')->0 >= 1);
            }
        }
        match sub_parent_of(&cmds[i]) {
            Some(p) => {
                if !names_contain(&names, p.as_str()) {
                    let ghost before = crate::text::views(names@);
                    names.push(p);
                    assert(crate::text::views(names@) =~= before.push(p@));
                }
            },
            None => {},
        }
        i = i + 1;
    }
    assert(cmds@.take(cmds.len() as int) =~= cmds@);
    names
}

fn subs_for(cmds: &Vec<CommandInfo>, p: &str) -> (r: Vec<SubRegistration>)
    requires
        sub_triggers_sliceable(cmds@),
    ensures
        subs_listed(cmds@, subs_of(cmds@, p@), r@),
{
    let mut subs: Vec<SubRegistration> = Vec::new();
    let mut i: usize = 0;
    while i < cmds.len()
        invariant
            i <= cmds.len(),
            sub_triggers_sliceable(cmds@),
            subs_listed(cmds@, subs_of(cmds@.take(i as int), p@), subs@),
            forall|t: int| 0 <= t < subs_of(cmds@.take(i as int), p@).len() ==> 0 <= #[trigger] subs_of(cmds@.take(i as int), p@)[t] < i,
        decreases cmds.len() - i,
    {
        assert(cmds@.take(i + 1).drop_last() =~= cmds@.take(i as int));
        assert(cmds@.take(i + 1).last() == cmds@[i as int]);
        proof {
            if cmds@[i as int].kind == CommandKind::SubSlash && first_index_of(
                cmds@[i as int].trigger@,
                ' ',
            ) is Some {
                assert(first_index_of(cmds@[i as int].trigger@, ' ')->0 >= 1);
            }
        }
        let ghost prev = subs_of(cmds@.take(i as int), p@);
        match sub_parent_of(&cmds[i]) {
            Some(q) => {
                if str_eq(q.as_str(), p) {
                    let name = sub_name_of(&cmds[i]);
                    subs.push(SubRegistration { index: i, name });
                    assert(subs_of(cmds@.take(i + 1), p@) =~= prev.push(i as int));
                }
            },
            None => {},
        }
        i = i + 1;
    }
    assert(cmds@.take(cmds.len() as int) =~= cmds@);
    subs
}

fn slash_for_parent(cmds: &Vec<CommandInfo>, p: &str) -> (r: Option<usize>)
    ensures
        match r {
            Some(k) => slash_for(cmds@, p@) == Some(k as int),
            None => slash_for(cmds@, p@) is None,
        },
{
    let mut want = String::from_str("/");
    want.append(p);
    proof {
        reveal_strlit("/");
    }
    assert(want@ =~= seq!['/'] + p@);
    let mut found: Option<usize> = None;
    let mut i: usize = 0;
    while i < cmds.len()
        invariant
            i <= cmds.len(),
            want@ == seq!['/'] + p@,
            match found {
                Some(k) => slash_for(cmds@.take(i as int), p@) == Some(k as int),
                None => slash_for(cmds@.take(i as int), p@) is None,
            },
        decreases cmds.len() - i,
    {
        assert(cmds@.take(i + 1).drop_last() =~= cmds@.take(i as int));
        assert(cmds@.take(i + 1).last() == cmds@[i as int]);
        if found.is_none() && cmds[i].kind == CommandKind::Slash && str_eq(
            cmds[i].trigger.as_str(),
            want.as_str(),
        ) {
            found = Some(i);
        }
        i = i + 1;
    }
    assert(cmds@.take(cmds.len() as int) =~= cmds@);
    found
}

/// The registrations to make when the bot connects.
pub fn registration_plan(cmds: &Vec<CommandInfo>, guild_id: Option<u64>) -> (r: RegistrationPlan)
    requires
        sub_triggers_sliceable(cmds@),
    ensures
        plan_spec(cmds@, guild_id, r),
{
    let mut slash: Vec<SlashRegistration> = Vec::new();
    let mut i: usize = 0;
    while i < cmds.len()
        invariant
            i <= cmds.len(),
            slash@.len() == slash_indices(cmds@.take(i as int)).len(),
            forall|j: int|
                0 <= j < slash@.len() ==> slash_registered(
                    cmds@[slash_indices(cmds@.take(i as int))[j]],
                    slash_indices(cmds@.take(i as int))[j],
                    guild_id,
                    #[trigger] slash@[j],
                ),
            forall|j: int| 0 <= j < slash_indices(cmds@.take(i as int)).len() ==> 0 <= #[trigger] slash_indices(cmds@.take(i as int))[j] < i,
        decreases cmds.len() - i,
    {
        assert(cmds@.take(i + 1).drop_last() =~= cmds@.take(i as int));
        assert(cmds@.take(i + 1).last() == cmds@[i as int]);
        if cmds[i].kind == CommandKind::Slash {
            let t = crate::text::chars_of(cmds[i].trigger.as_str());
            let stripped = crate::text::strip_leading_of(t.as_slice(), '/');
            let guild = match cmds[i].scope {
                CommandScope::Global => None,
                _ => guild_id,
            };
            let reg = SlashRegistration {
                index: i,
                name: crate::text::string_of(stripped.as_slice()),
                guild,
                global: cmds[i].scope != CommandScope::Guild,
            };
            slash.push(reg);
        }
        i = i + 1;
    }
    assert(cmds@.take(cmds.len() as int) =~= cmds@);
    let mut parents: Vec<ParentRegistration> = Vec::new();
    match guild_id {
        Some(g) => {
            let names = parents_of(cmds);
            let mut j: usize = 0;
            while j < names.len()
                invariant
                    j <= names.len(),
                    sub_triggers_sliceable(cmds@),
                    crate::text::views(names@) == parent_names(cmds@),
                    parents@.len() == j,
                    forall|q: int|
                        0 <= q < j ==> {
                            let pr = #[trigger] parents@[q];
                            &&& pr.name@ == parent_names(cmds@)[q]
                            &&& pr.guild_id == g
                            &&& match pr.slash {
                                Some(k) => slash_for(cmds@, parent_names(cmds@)[q]) == Some(
                                    k as int,
                                ),
                                None => slash_for(cmds@, parent_names(cmds@)[q]) is None,
                            }
                            &&& subs_listed(
                                cmds@,
                                subs_of(cmds@, parent_names(cmds@)[q]),
                                pr.subs@,
                            )
                        },
                decreases names.len() - j,
            {
                assert(crate::text::views(names@)[j as int] == names@[j as int]@);
                let name = names[j].clone();
                let slash_cmd = slash_for_parent(cmds, name.as_str());
                let subs = subs_for(cmds, name.as_str());
                parents.push(ParentRegistration { name, slash: slash_cmd, subs, guild_id: g });
                j = j + 1;
            }
        },
        None => {},
    }
    RegistrationPlan { slash, parents }
}


// ── Laws ────────────────────────────────────────────────────────────────

/// An interaction goes to the handler for its own custom ID where there is
/// one of interaction kind.
pub proof fn law_specific_handler_wins(reg: CommandRegistry, custom_id: Seq<char>, i: int)
    requires
        reg.wf(),
        reg.lookup(specific_handler(custom_id)) == Some(i),
        reg.commands@[i].kind == CommandKind::Interaction,
    ensures
        interaction_handler_spec(reg, custom_id) == Some(i),
{
}

/// Without a handler for its custom ID, an interaction goes to the catch-all
/// `onInteraction` handler where that is of interaction kind.
pub proof fn law_catch_all_handler(reg: CommandRegistry, custom_id: Seq<char>, j: int)
    requires
        reg.wf(),
        reg.lookup(specific_handler(custom_id)) is None,
        reg.lookup("onInteraction"@) == Some(j),
        reg.commands@[j].kind == CommandKind::Interaction,
    ensures
        interaction_handler_spec(reg, custom_id) == Some(j),
{
}

/// A command found by trigger has that trigger.
pub proof fn law_lookup_finds_trigger(reg: CommandRegistry, t: Seq<char>)
    requires
        reg.wf(),
    ensures
        reg.lookup(t) matches Some(i) ==> 0 <= i < reg.commands@.len() && reg.commands@[i].trigger@
            == t,
        reg.lookup(t) is None ==> forall|k: int|
            0 <= k < reg.commands@.len() ==> reg.commands@[k].trigger@ != t,
{
}


/// Every slash command is registered, once, in the order the commands come;
/// no other command is registered as a slash command.
pub proof fn law_every_slash_command_registered(cmds: Seq<CommandInfo>)
    ensures
        forall|k: int|
            0 <= k < cmds.len() && cmds[k].kind == CommandKind::Slash ==> slash_indices(cmds).contains(
                k,
            ),
        forall|j: int|
            0 <= j < slash_indices(cmds).len() ==> 0 <= #[trigger] slash_indices(cmds)[j] < cmds.len()
                && cmds[slash_indices(cmds)[j]].kind == CommandKind::Slash,
        forall|a: int, b: int|
            0 <= a < b < slash_indices(cmds).len() ==> #[trigger] slash_indices(cmds)[a]
                < #[trigger] slash_indices(cmds)[b],
    decreases cmds.len(),
{
    if cmds.len() > 0 {
        let init = cmds.drop_last();
        law_every_slash_command_registered(init);
        let prev = slash_indices(init);
        let si = slash_indices(cmds);
        assert forall|k: int| 0 <= k < cmds.len() && cmds[k].kind == CommandKind::Slash implies si.contains(k) by {
            if k < cmds.len() - 1 {
                assert(init[k] == cmds[k]);
                assert(prev.contains(k));
                let j = choose|j: int| 0 <= j < prev.len() && prev[j] == k;
                assert(si[j] == k);
            } else {
                assert(si[prev.len() as int] == k);
            }
        }
        assert forall|j: int| 0 <= j < si.len() implies 0 <= #[trigger] si[j] < cmds.len()
            && cmds[si[j]].kind == CommandKind::Slash by {
            if j < prev.len() {
                assert(si[j] == prev[j]);
                assert(init[prev[j]] == cmds[prev[j]]);
            }
        }
        assert forall|a: int, b: int| 0 <= a < b < si.len() implies #[trigger] si[a] < #[trigger] si[b] by {
            if b < prev.len() {
                assert(si[a] == prev[a] && si[b] == prev[b]);
            } else {
                assert(si[a] == prev[a]);
                assert(0 <= prev[a] < init.len());
            }
        }
    }
}

} // verus!
