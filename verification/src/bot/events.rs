//! The run contexts of the Discord events that reach event commands.
use std::collections::HashMap;
use vstd::prelude::*;
use crate::decimal::{decimal, u64_text};
use crate::executor::RunContext;

verus! {

broadcast use vstd::std_specs::hash::group_hash_axioms;

/// A message as an edit event carries it.
pub struct MessageRef {
    pub id: u64,
    pub channel_id: u64,
    pub guild_id: Option<u64>,
    pub content: String,
}

/// A reaction added or removed.
pub struct ReactionRef {
    pub user_id: Option<u64>,
    pub channel_id: u64,
    pub guild_id: Option<u64>,
    pub message_id: u64,
}

/// A user of a guild: joining, leaving, updated, banned or unbanned.
pub struct MemberRef {
    pub guild_id: u64,
    pub user_id: u64,
    pub username: String,
}

/// A role of a guild.
pub struct RoleRef {
    pub guild_id: u64,
    pub role_id: u64,
}

/// A channel of a guild.
pub struct ChannelRef {
    pub guild_id: u64,
    pub channel_id: u64,
}

/// A Discord event that event commands can answer, with the values they read.
pub enum BotEvent {
    /// A message was edited: the new and the old message where the cache has
    /// them, and the content the event carries.
    MessageEdit { new: Option<MessageRef>, old: Option<MessageRef>, content: Option<String> },
    MessageDelete { channel_id: u64, message_id: u64, guild_id: Option<u64> },
    ReactionAdd(ReactionRef),
    ReactionRemove(ReactionRef),
    MemberJoin(MemberRef),
    MemberLeave(MemberRef),
    /// A member was updated; the member where the event carries one.
    MemberUpdate(Option<MemberRef>),
    BanAdd(MemberRef),
    BanRemove(MemberRef),
    RoleCreate(RoleRef),
    RoleDelete(RoleRef),
    RoleUpdate(RoleRef),
    ChannelCreate(ChannelRef),
    ChannelDelete(ChannelRef),
    ChannelUpdate(ChannelRef),
    /// The bot was added to a guild, or the guild became available again
    /// (`is_new` tells which, where known).
    BotJoin { guild_id: u64, is_new: Option<bool> },
    BotLeave { guild_id: u64 },
    /// A guild was updated: its boost count before (where the old guild is
    /// cached: `Some` of its count) and after.
    GuildUpdate { guild_id: u64, old_boosts: Option<Option<u64>>, new_boosts: Option<u64> },
    VoiceStateUpdate { user_id: u64, channel_id: Option<u64>, guild_id: Option<u64> },
}

/// An event command to run: its trigger and its context.
pub struct EventRun {
    pub trigger: String,
    pub context: RunContext,
}

/// The decimal text of an ID, or the empty text.
pub open spec fn id_text(id: Option<u64>) -> Seq<char> {
    match id {
        Some(v) => decimal(v as nat),
        None => Seq::empty(),
    }
}

/// The text of an optional string.
pub open spec fn opt_view(s: Option<String>) -> Option<Seq<char>> {
    match s {
        Some(x) => Some(x@),
        None => None,
    }
}

/// `r` runs the event command `name` with a context of the given values and
/// nothing else: no options, no trigger prefix, no custom ID, no modal values
/// and no selection; the command name is the trigger.
pub open spec fn run_is(
    r: EventRun,
    name: Seq<char>,
    author: Seq<char>,
    username: Seq<char>,
    channel: Seq<char>,
    guild: Seq<char>,
    message: Seq<char>,
    message_id: Option<Seq<char>>,
) -> bool {
    let c = r.context;
    &&& r.trigger@ == name
    &&& c.author_id@ == author
    &&& c.username@ == username
    &&& c.channel_id@ == channel
    &&& c.guild_id@ == guild
    &&& c.message@ == message
    &&& c.options@ == Map::<String, String>::empty()
    &&& c.options_list@.len() == 0
    &&& c.trigger is None
    &&& c.command_name@ == name
    &&& opt_view(c.trigger_message_id) == message_id
    &&& c.custom_id is None
    &&& c.modal_values@ == Map::<String, String>::empty()
    &&& c.selected_values@.len() == 0
}

/// The boost event of a guild update, if any: "onBoostAdd" where the count
/// grew, "onBoostRemove" where it shrank (a missing old count counts as zero);
/// none where either count is unknown or they are equal.
pub open spec fn boost_event(old_boosts: Option<Option<u64>>, new_boosts: Option<u64>) -> Option<
    Seq<char>,
> {
    match old_boosts {
        Some(o) => match new_boosts {
            Some(n) => {
                let before: u64 = match o {
                    Some(b) => b,
                    None => 0,
                };
                if n > before {
                    Some("onBoostAdd"@)
                } else if n < before {
                    Some("onBoostRemove"@)
                } else {
                    None
                }
            },
            None => None,
        },
        None => None,
    }
}

/// The content of an edited message: the new message's, else the old one's,
/// else the event's (empty where it has none).
pub open spec fn edit_content(new: Option<MessageRef>, old: Option<MessageRef>, content: Option<String>) -> Seq<char> {
    match new {
        Some(m) => m.content@,
        None => match old {
            Some(m) => m.content@,
            None => match content {
                Some(c) => c@,
                None => Seq::empty(),
            },
        },
    }
}

/// The guild of an edited message: the new message's where it has one, else
/// the old message's.
pub open spec fn edit_guild(new: Option<MessageRef>, old: Option<MessageRef>) -> Option<u64> {
    match new {
        Some(m) if m.guild_id is Some => m.guild_id,
        _ => match old {
            Some(m) => m.guild_id,
            None => None,
        },
    }
}

/// The message that was edited: the new one where cached, else the old one.
pub open spec fn edit_message(new: Option<MessageRef>, old: Option<MessageRef>) -> Option<MessageRef> {
    match new {
        Some(m) => Some(m),
        None => old,
    }
}

/// The event commands an event runs, in order.
pub open spec fn event_runs_spec(ev: BotEvent, r: Seq<EventRun>) -> bool {
    match ev {
        BotEvent::MessageEdit { new, old, content } => {
            let m = edit_message(new, old);
            r.len() == 1 && run_is(
                r[0],
                "onMessageEdit"@,
                Seq::empty(),
                Seq::empty(),
                match m {
                    Some(x) => decimal(x.channel_id as nat),
                    None => Seq::empty(),
                },
                id_text(edit_guild(new, old)),
                edit_content(new, old, content),
                match m {
                    Some(x) => Some(decimal(x.id as nat)),
                    None => None,
                },
            )
        },
        BotEvent::MessageDelete { channel_id, message_id, guild_id } => r.len() == 1 && run_is(
            r[0],
            "onMessageDelete"@,
            Seq::empty(),
            Seq::empty(),
            decimal(channel_id as nat),
            id_text(guild_id),
            Seq::empty(),
            Some(decimal(message_id as nat)),
        ),
        BotEvent::ReactionAdd(x) => r.len() == 1 && run_is(
            r[0],
            "onReactionAdd"@,
            id_text(x.user_id),
            Seq::empty(),
            decimal(x.channel_id as nat),
            id_text(x.guild_id),
            Seq::empty(),
            Some(decimal(x.message_id as nat)),
        ),
        BotEvent::ReactionRemove(x) => r.len() == 1 && run_is(
            r[0],
            "onReactionRemove"@,
            id_text(x.user_id),
            Seq::empty(),
            decimal(x.channel_id as nat),
            id_text(x.guild_id),
            Seq::empty(),
            Some(decimal(x.message_id as nat)),
        ),
        BotEvent::MemberJoin(x) => r.len() == 1 && member_run(r[0], "onMemberJoin"@, x),
        BotEvent::MemberLeave(x) => r.len() == 1 && member_run(r[0], "onMemberLeave"@, x),
        BotEvent::MemberUpdate(m) => r.len() == 1 && match m {
            Some(x) => member_run(r[0], "onMemberUpdate"@, x),
            None => run_is(
                r[0],
                "onMemberUpdate"@,
                Seq::empty(),
                Seq::empty(),
                Seq::empty(),
                Seq::empty(),
                Seq::empty(),
                None,
            ),
        },
        BotEvent::BanAdd(x) => r.len() == 1 && member_run(r[0], "onBanAdd"@, x),
        BotEvent::BanRemove(x) => r.len() == 1 && member_run(r[0], "onBanRemove"@, x),
        BotEvent::RoleCreate(x) => r.len() == 1 && role_run(r[0], "onRoleCreate"@, x),
        BotEvent::RoleDelete(x) => r.len() == 1 && role_run(r[0], "onRoleDelete"@, x),
        BotEvent::RoleUpdate(x) => r.len() == 1 && role_run(r[0], "onRoleUpdate"@, x),
        BotEvent::ChannelCreate(x) => r.len() == 1 && run_is(
            r[0],
            "onChannelCreate"@,
            Seq::empty(),
            Seq::empty(),
            decimal(x.channel_id as nat),
            decimal(x.guild_id as nat),
            Seq::empty(),
            None,
        ),
        BotEvent::ChannelDelete(x) => r.len() == 1 && channel_run(r[0], "onChannelDelete"@, x),
        BotEvent::ChannelUpdate(x) => r.len() == 1 && channel_run(r[0], "onChannelUpdate"@, x),
        BotEvent::BotJoin { guild_id, is_new } => if is_new == Some(true) {
            r.len() == 1 && guild_run(r[0], "onBotJoin"@, guild_id)
        } else {
            r.len() == 0
        },
        BotEvent::BotLeave { guild_id } => r.len() == 1 && guild_run(r[0], "onBotLeave"@, guild_id),
        BotEvent::GuildUpdate { guild_id, old_boosts, new_boosts } => match boost_event(
            old_boosts,
            new_boosts,
        ) {
            Some(b) => r.len() == 2 && guild_run(r[0], b, guild_id) && guild_run(
                r[1],
                "onGuildUpdate"@,
                guild_id,
            ),
            None => r.len() == 1 && guild_run(r[0], "onGuildUpdate"@, guild_id),
        },
        BotEvent::VoiceStateUpdate { user_id, channel_id, guild_id } => r.len() == 1 && run_is(
            r[0],
            "onVoiceStateUpdate"@,
            decimal(user_id as nat),
            Seq::empty(),
            id_text(channel_id),
            id_text(guild_id),
            Seq::empty(),
            None,
        ),
    }
}

/// A run for a member event: the user as author, in the guild.
pub open spec fn member_run(r: EventRun, name: Seq<char>, x: MemberRef) -> bool {
    run_is(
        r,
        name,
        decimal(x.user_id as nat),
        x.username@,
        Seq::empty(),
        decimal(x.guild_id as nat),
        Seq::empty(),
        None,
    )
}

/// A run for a role event: the role's ID in the message ID's place.
pub open spec fn role_run(r: EventRun, name: Seq<char>, x: RoleRef) -> bool {
    run_is(
        r,
        name,
        Seq::empty(),
        Seq::empty(),
        Seq::empty(),
        decimal(x.guild_id as nat),
        Seq::empty(),
        Some(decimal(x.role_id as nat)),
    )
}

/// A run for a channel event: the channel's ID also in the message ID's place.
pub open spec fn channel_run(r: EventRun, name: Seq<char>, x: ChannelRef) -> bool {
    run_is(
        r,
        name,
        Seq::empty(),
        Seq::empty(),
        decimal(x.channel_id as nat),
        decimal(x.guild_id as nat),
        Seq::empty(),
        Some(decimal(x.channel_id as nat)),
    )
}

/// A run for a guild event: only the guild is known.
pub open spec fn guild_run(r: EventRun, name: Seq<char>, guild_id: u64) -> bool {
    run_is(
        r,
        name,
        Seq::empty(),
        Seq::empty(),
        Seq::empty(),
        decimal(guild_id as nat),
        Seq::empty(),
        None,
    )
}

fn text_of_id(id: Option<u64>) -> (r: String)
    ensures
        r@ == id_text(id),
{
    match id {
        Some(v) => u64_text(v),
        None => String::new(),
    }
}

/// The run of the event command `name` with the given values.
fn event_run(
    name: &str,
    author: String,
    username: String,
    channel: String,
    guild: String,
    message: String,
    message_id: Option<String>,
) -> (r: EventRun)
    ensures
        run_is(r, name@, author@, username@, channel@, guild@, message@, opt_view(message_id)),
{
    let context = RunContext {
        author_id: author,
        username,
        channel_id: channel,
        guild_id: guild,
        message,
        options: HashMap::new(),
        options_list: Vec::new(),
        trigger: None,
        command_name: String::from_str(name),
        trigger_message_id: message_id,
        custom_id: None,
        modal_values: HashMap::new(),
        selected_values: Vec::new(),
    };
    EventRun { trigger: String::from_str(name), context }
}

fn member_event(name: &str, x: MemberRef) -> (r: EventRun)
    ensures
        member_run(r, name@, x),
{
    event_run(
        name,
        u64_text(x.user_id),
        x.username,
        String::new(),
        u64_text(x.guild_id),
        String::new(),
        None,
    )
}

fn role_event(name: &str, x: RoleRef) -> (r: EventRun)
    ensures
        role_run(r, name@, x),
{
    event_run(
        name,
        String::new(),
        String::new(),
        String::new(),
        u64_text(x.guild_id),
        String::new(),
        Some(u64_text(x.role_id)),
    )
}

fn channel_event(name: &str, x: ChannelRef) -> (r: EventRun)
    ensures
        channel_run(r, name@, x),
{
    event_run(
        name,
        String::new(),
        String::new(),
        u64_text(x.channel_id),
        u64_text(x.guild_id),
        String::new(),
        Some(u64_text(x.channel_id)),
    )
}

fn guild_event(name: &str, guild_id: u64) -> (r: EventRun)
    ensures
        guild_run(r, name@, guild_id),
{
    event_run(
        name,
        String::new(),
        String::new(),
        String::new(),
        u64_text(guild_id),
        String::new(),
        None,
    )
}

fn one(r: EventRun) -> (v: Vec<EventRun>)
    ensures
        v@ == seq![r],
{
    let mut v: Vec<EventRun> = Vec::new();
    v.push(r);
    v
}

/// The boost event of a guild update, if any.
pub fn boost_event_of(old_boosts: Option<Option<u64>>, new_boosts: Option<u64>) -> (r: Option<
    &'static str,
>)
    ensures
        match r {
            Some(s) => boost_event(old_boosts, new_boosts) == Some(s@),
            None => boost_event(old_boosts, new_boosts) is None,
        },
{
    match old_boosts {
        Some(o) => match new_boosts {
            Some(n) => {
                let before: u64 = match o {
                    Some(b) => b,
                    None => 0,
                };
                if n > before {
                    Some("onBoostAdd")
                } else if n < before {
                    Some("onBoostRemove")
                } else {
                    None
                }
            },
            None => None,
        },
        None => None,
    }
}

/// The event commands an event runs, in order, each with its context.
pub fn event_runs(ev: BotEvent) -> (r: Vec<EventRun>)
    ensures
        event_runs_spec(ev, r@),
{
    match ev {
        BotEvent::MessageEdit { new, old, content } => {
            let guild = match &new {
                Some(m) if m.guild_id.is_some() => m.guild_id,
                _ => match &old {
                    Some(m) => m.guild_id,
                    None => None,
                },
            };
            let m = match new {
                Some(m) => Some(m),
                None => old,
            };
            let (channel, id, text) = match m {
                Some(x) => (u64_text(x.channel_id), Some(u64_text(x.id)), x.content),
                None => (
                    String::new(),
                    None,
                    match content {
                        Some(c) => c,
                        None => String::new(),
                    },
                ),
            };
            one(event_run("onMessageEdit", String::new(), String::new(), channel, text_of_id(guild), text, id))
        },
        BotEvent::MessageDelete { channel_id, message_id, guild_id } => one(
            event_run(
                "onMessageDelete",
                String::new(),
                String::new(),
                u64_text(channel_id),
                text_of_id(guild_id),
                String::new(),
                Some(u64_text(message_id)),
            ),
        ),
        BotEvent::ReactionAdd(x) => one(
            event_run(
                "onReactionAdd",
                text_of_id(x.user_id),
                String::new(),
                u64_text(x.channel_id),
                text_of_id(x.guild_id),
                String::new(),
                Some(u64_text(x.message_id)),
            ),
        ),
        BotEvent::ReactionRemove(x) => one(
            event_run(
                "onReactionRemove",
                text_of_id(x.user_id),
                String::new(),
                u64_text(x.channel_id),
                text_of_id(x.guild_id),
                String::new(),
                Some(u64_text(x.message_id)),
            ),
        ),
        BotEvent::MemberJoin(x) => one(member_event("onMemberJoin", x)),
        BotEvent::MemberLeave(x) => one(member_event("onMemberLeave", x)),
        BotEvent::MemberUpdate(m) => match m {
            Some(x) => one(member_event("onMemberUpdate", x)),
            None => one(
                event_run(
                    "onMemberUpdate",
                    String::new(),
                    String::new(),
                    String::new(),
                    String::new(),
                    String::new(),
                    None,
                ),
            ),
        },
        BotEvent::BanAdd(x) => one(member_event("onBanAdd", x)),
        BotEvent::BanRemove(x) => one(member_event("onBanRemove", x)),
        BotEvent::RoleCreate(x) => one(role_event("onRoleCreate", x)),
        BotEvent::RoleDelete(x) => one(role_event("onRoleDelete", x)),
        BotEvent::RoleUpdate(x) => one(role_event("onRoleUpdate", x)),
        BotEvent::ChannelCreate(x) => one(
            event_run(
                "onChannelCreate",
                String::new(),
                String::new(),
                u64_text(x.channel_id),
                u64_text(x.guild_id),
                String::new(),
                None,
            ),
        ),
        BotEvent::ChannelDelete(x) => one(channel_event("onChannelDelete", x)),
        BotEvent::ChannelUpdate(x) => one(channel_event("onChannelUpdate", x)),
        BotEvent::BotJoin { guild_id, is_new } => {
            let fresh = match is_new {
                Some(b) => b,
                None => false,
            };
            if fresh {
                one(guild_event("onBotJoin", guild_id))
            } else {
                Vec::new()
            }
        },
        BotEvent::BotLeave { guild_id } => one(guild_event("onBotLeave", guild_id)),
        BotEvent::GuildUpdate { guild_id, old_boosts, new_boosts } => {
            let mut v: Vec<EventRun> = Vec::new();
            match boost_event_of(old_boosts, new_boosts) {
                Some(b) => v.push(guild_event(b, guild_id)),
                None => {},
            }
            v.push(guild_event("onGuildUpdate", guild_id));
            v
        },
        BotEvent::VoiceStateUpdate { user_id, channel_id, guild_id } => one(
            event_run(
                "onVoiceStateUpdate",
                u64_text(user_id),
                String::new(),
                text_of_id(channel_id),
                text_of_id(guild_id),
                String::new(),
                None,
            ),
        ),
    }
}


// ── Laws ────────────────────────────────────────────────────────────────

/// Every event command runs under its own trigger as the command name, with
/// no trigger prefix and no options.
pub proof fn law_event_runs_named_by_trigger(ev: BotEvent, r: Seq<EventRun>)
    requires
        event_runs_spec(ev, r),
    ensures
        forall|k: int|
            0 <= k < r.len() ==> (#[trigger] r[k]).context.command_name@ == r[k].trigger@
                && r[k].context.trigger is None && r[k].context.options_list@.len() == 0,
{
}

/// A guild update always runs `onGuildUpdate`, last; a boost event comes
/// before it only where the boost count changed.
pub proof fn law_guild_update_runs_last(
    guild_id: u64,
    old_boosts: Option<Option<u64>>,
    new_boosts: Option<u64>,
    r: Seq<EventRun>,
)
    requires
        event_runs_spec(BotEvent::GuildUpdate { guild_id, old_boosts, new_boosts }, r),
    ensures
        r.len() >= 1,
        r.last().trigger@ == "onGuildUpdate"@,
        r.len() == 2 <==> boost_event(old_boosts, new_boosts) is Some,
{
}

} // verus!
