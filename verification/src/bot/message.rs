//! What the bot does with a new message: spam tracking, the `onMessage` event
//! command, and the prefix command the message invokes.
use std::collections::HashMap;
use vstd::prelude::*;
use super::events::{id_text, run_is, EventRun};
use crate::decimal::{decimal, u64_text};
use crate::executor::RunContext;
use crate::text::{contains_spec, starts_with_spec, trim_spec};

verus! {

broadcast use vstd::std_specs::hash::group_hash_axioms;

/// A message as the handler reads it.
pub struct MessageInfo {
    pub id: u64,
    pub author_id: u64,
    pub author_is_bot: bool,
    pub username: String,
    pub channel_id: u64,
    pub guild_id: Option<u64>,
    pub content: String,
}

/// What the bot does with a message before looking for a prefix command.
pub struct MessagePlan {
    /// The content, trimmed; commands are matched against it.
    pub content: String,
    /// Whether to record a spam event (in a guild), and whether the message
    /// holds a link.
    pub spam_event: Option<bool>,
    /// The `onMessage` event command to run.
    pub on_message: EventRun,
}

/// The content holds a link.
pub open spec fn has_link_spec(content: Seq<char>) -> bool {
    contains_spec(content, "http://"@) || contains_spec(content, "https://"@)
}

/// What the bot does with a message: nothing for a bot's own messages; else
/// the spam record (in guilds) and the `onMessage` command with the trimmed
/// content.
pub open spec fn message_plan_spec(m: MessageInfo, r: Option<MessagePlan>) -> bool {
    if m.author_is_bot {
        r is None
    } else {
        r matches Some(p) && {
            let content = trim_spec(m.content@);
            &&& p.content@ == content
            &&& p.spam_event == match m.guild_id {
                Some(_) => Some(has_link_spec(content)),
                None => None,
            }
            &&& run_is(
                p.on_message,
                "onMessage"@,
                decimal(m.author_id as nat),
                m.username@,
                decimal(m.channel_id as nat),
                id_text(m.guild_id),
                content,
                Some(decimal(m.id as nat)),
            )
        }
    }
}

/// Whether the text holds a link (`http://` or `https://`).
pub fn has_link(content: &str) -> (r: bool)
    ensures
        r == has_link_spec(content@),
{
    let v = crate::text::chars_of(content);
    let a = crate::text::chars_of("http://");
    let b = crate::text::chars_of("https://");
    crate::text::contains(v.as_slice(), a.as_slice()) || crate::text::contains(
        v.as_slice(),
        b.as_slice(),
    )
}

/// What the bot does with a message before looking for a prefix command.
pub fn message_plan(m: &MessageInfo) -> (r: Option<MessagePlan>)
    ensures
        message_plan_spec(*m, r),
{
    if m.author_is_bot {
        return None;
    }
    let content = crate::text::trim_str(m.content.as_str());
    let spam_event = match m.guild_id {
        Some(_) => Some(has_link(content.as_str())),
        None => None,
    };
    let guild = match m.guild_id {
        Some(g) => u64_text(g),
        None => String::new(),
    };
    let context = RunContext {
        author_id: u64_text(m.author_id),
        username: m.username.clone(),
        channel_id: u64_text(m.channel_id),
        guild_id: guild,
        message: content.clone(),
        options: HashMap::new(),
        options_list: Vec::new(),
        trigger: None,
        command_name: String::from_str("onMessage"),
        trigger_message_id: Some(u64_text(m.id)),
        custom_id: None,
        modal_values: HashMap::new(),
        selected_values: Vec::new(),
    };
    Some(
        MessagePlan {
            content,
            spam_event,
            on_message: EventRun { trigger: String::from_str("onMessage"), context },
        },
    )
}

/// A trigger holds stored-variable references to resolve first (a `Z` and a
/// `{`).
pub open spec fn needs_resolution_spec(trigger: Seq<char>) -> bool {
    trigger.contains('Z') && trigger.contains('{')
}

/// Whether a trigger is to be resolved before matching.
pub fn needs_resolution(trigger: &str) -> (r: bool)
    ensures
        r == needs_resolution_spec(trigger@),
{
    let v = crate::text::chars_of(trigger);
    crate::text::contains_char(v.as_slice(), 'Z') && crate::text::contains_char(v.as_slice(), '{')
}

/// The content invokes the (resolved) trigger: it starts with it.
pub open spec fn invokes(content: Seq<char>, trigger: Seq<char>) -> bool {
    starts_with_spec(content, trigger)
}

/// Whether the content invokes the trigger.
pub fn trigger_matches(content: &str, trigger: &str) -> (r: bool)
    ensures
        r == invokes(content@, trigger@),
{
    let c = crate::text::chars_of(content);
    let t = crate::text::chars_of(trigger);
    crate::text::starts_with(c.as_slice(), t.as_slice())
}

/// The first of the (resolved) prefix triggers that the content invokes, in the
/// order the commands come: only that command runs.
pub fn first_invoked(content: &str, triggers: &Vec<String>) -> (r: Option<usize>)
    ensures
        match r {
            Some(i) => i < triggers@.len() && invokes(content@, triggers@[i as int]@) && forall|j: int|
                0 <= j < i ==> !invokes(content@, #[trigger] triggers@[j]@),
            None => forall|j: int| 0 <= j < triggers@.len() ==> !invokes(content@, #[trigger] triggers@[j]@),
        },
{
    let mut i: usize = 0;
    while i < triggers.len()
        invariant
            i <= triggers.len(),
            forall|j: int| 0 <= j < i ==> !invokes(content@, #[trigger] triggers@[j]@),
        decreases triggers.len() - i,
    {
        if trigger_matches(content, triggers[i].as_str()) {
            return Some(i);
        }
        i = i + 1;
    }
    None
}

/// The context of a prefix command invoked by a message: the message's values,
/// the trimmed content, the resolved trigger and the command's name.
pub open spec fn prefix_context_spec(
    m: MessageInfo,
    content: Seq<char>,
    trigger: Seq<char>,
    name: Seq<char>,
    c: RunContext,
) -> bool {
    &&& c.author_id@ == decimal(m.author_id as nat)
    &&& c.username@ == m.username@
    &&& c.channel_id@ == decimal(m.channel_id as nat)
    &&& c.guild_id@ == id_text(m.guild_id)
    &&& c.message@ == content
    &&& c.options@ == Map::<String, String>::empty()
    &&& c.options_list@.len() == 0
    &&& c.trigger matches Some(t) && t@ == trigger
    &&& c.command_name@ == name
    &&& c.trigger_message_id matches Some(i) && i@ == decimal(m.id as nat)
    &&& c.custom_id is None
    &&& c.modal_values@ == Map::<String, String>::empty()
    &&& c.selected_values@.len() == 0
}

/// The context of the prefix command `name` that the message invokes through
/// the resolved trigger.
pub fn prefix_context(m: &MessageInfo, content: &str, trigger: String, name: &str) -> (r: RunContext)
    ensures
        prefix_context_spec(*m, content@, trigger@, name@, r),
{
    let guild = match m.guild_id {
        Some(g) => u64_text(g),
        None => String::new(),
    };
    RunContext {
        author_id: u64_text(m.author_id),
        username: m.username.clone(),
        channel_id: u64_text(m.channel_id),
        guild_id: guild,
        message: String::from_str(content),
        options: HashMap::new(),
        options_list: Vec::new(),
        trigger: Some(trigger),
        command_name: String::from_str(name),
        trigger_message_id: Some(u64_text(m.id)),
        custom_id: None,
        modal_values: HashMap::new(),
        selected_values: Vec::new(),
    }
}


// ── Laws ────────────────────────────────────────────────────────────────

/// A message that is exactly the trigger invokes it.
pub proof fn law_bare_trigger_invokes(trigger: Seq<char>)
    ensures
        invokes(trigger, trigger),
{
    assert(trigger.subrange(0, trigger.len() as int) =~= trigger);
}

/// A message that starts with the trigger invokes it, whatever follows.
pub proof fn law_trigger_then_anything_invokes(trigger: Seq<char>, rest: Seq<char>)
    ensures
        invokes(trigger + rest, trigger),
{
    let c = trigger + rest;
    assert(c.subrange(0, trigger.len() as int) =~= trigger);
}

/// A message that does not start with the trigger does not invoke it.
pub proof fn law_only_a_leading_trigger_invokes(content: Seq<char>, trigger: Seq<char>)
    requires
        content.len() < trigger.len() || content.subrange(0, trigger.len() as int) != trigger,
    ensures
        !invokes(content, trigger),
{
}

} // verus!
