//! Slash commands, components and modals: the context a handler runs with,
//! and how the bot answers.
use std::collections::HashMap;
use vstd::prelude::*;
use super::events::id_text;
use super::{event_response_channel, resolve_text_content, response_channel};
use crate::decimal::{decimal, parse_unsigned_spec, u64_text};
use crate::executor::{ModalData, ModalFieldData, RunContext, RunResponse};
use crate::text::{join_spec, views};

verus! {

broadcast use vstd::std_specs::hash::group_hash_axioms;

/// Who invoked an interaction, and where.
pub struct Invoker {
    pub user_id: u64,
    pub username: String,
    pub channel_id: u64,
    pub guild_id: Option<u64>,
}

/// The context fields that come from the invoker.
pub open spec fn invoked_by(c: RunContext, who: Invoker) -> bool {
    &&& c.author_id@ == decimal(who.user_id as nat)
    &&& c.username@ == who.username@
    &&& c.channel_id@ == decimal(who.channel_id as nat)
    &&& c.guild_id@ == id_text(who.guild_id)
    &&& c.message@.len() == 0
    &&& c.trigger is None
}

fn invoker_context(
    who: Invoker,
    options: HashMap<String, String>,
    options_list: Vec<String>,
    command_name: &str,
    trigger_message_id: Option<String>,
    custom_id: Option<String>,
    modal_values: HashMap<String, String>,
    selected_values: Vec<String>,
) -> (r: RunContext)
    ensures
        invoked_by(r, who),
        r.options == options,
        r.options_list == options_list,
        r.command_name@ == command_name@,
        r.trigger_message_id == trigger_message_id,
        r.custom_id == custom_id,
        r.modal_values == modal_values,
        r.selected_values == selected_values,
{
    let guild = match who.guild_id {
        Some(g) => u64_text(g),
        None => String::new(),
    };
    RunContext {
        author_id: u64_text(who.user_id),
        username: who.username,
        channel_id: u64_text(who.channel_id),
        guild_id: guild,
        message: String::new(),
        options,
        options_list,
        trigger: None,
        command_name: String::from_str(command_name),
        trigger_message_id,
        custom_id,
        modal_values,
        selected_values,
    }
}

/// The context of a slash command: the invoker, the options by name and in
/// order, and the command's name.
pub fn slash_context(
    who: Invoker,
    options: HashMap<String, String>,
    options_list: Vec<String>,
    command_name: &str,
) -> (r: RunContext)
    ensures
        invoked_by(r, who),
        r.options == options,
        r.options_list == options_list,
        r.command_name@ == command_name@,
        r.trigger_message_id is None,
        r.custom_id is None,
        r.modal_values@ == Map::<String, String>::empty(),
        r.selected_values@.len() == 0,
{
    invoker_context(
        who,
        options,
        options_list,
        command_name,
        None,
        None,
        HashMap::new(),
        Vec::new(),
    )
}

/// The context of a component interaction: the invoker, the message the
/// component is on, its custom ID, and the selected values (which are also
/// the positional options).
pub fn component_context(
    who: Invoker,
    message_id: u64,
    custom_id: String,
    selected: Vec<String>,
    command_name: &str,
) -> (r: RunContext)
    ensures
        invoked_by(r, who),
        r.options@ == Map::<String, String>::empty(),
        views(r.options_list@) == views(selected@),
        r.command_name@ == command_name@,
        r.trigger_message_id matches Some(i) && i@ == decimal(message_id as nat),
        r.custom_id matches Some(c) && c@ == custom_id@,
        r.modal_values@ == Map::<String, String>::empty(),
        r.selected_values == selected,
{
    let list = clone_all(&selected);
    invoker_context(
        who,
        HashMap::new(),
        list,
        command_name,
        Some(u64_text(message_id)),
        Some(custom_id),
        HashMap::new(),
        selected,
    )
}

fn clone_all(v: &Vec<String>) -> (r: Vec<String>)
    ensures
        views(r@) == views(v@),
{
    let mut r: Vec<String> = Vec::new();
    let mut i: usize = 0;
    while i < v.len()
        invariant
            i <= v.len(),
            views(r@) == views(v@).take(i as int),
        decreases v.len() - i,
    {
        let ghost before = views(r@);
        r.push(v[i].clone());
        assert(views(r@) =~= before.push(v@[i as int]@));
        assert(views(v@).take(i + 1) =~= views(v@).take(i as int).push(v@[i as int]@));
        i = i + 1;
    }
    assert(views(v@).take(v.len() as int) =~= views(v@));
    r
}

/// The context of a modal submission: the invoker, the modal's custom ID and
/// the submitted values by field.
pub fn modal_context(
    who: Invoker,
    custom_id: String,
    modal_values: HashMap<String, String>,
    command_name: &str,
) -> (r: RunContext)
    ensures
        invoked_by(r, who),
        r.options@ == Map::<String, String>::empty(),
        r.options_list@.len() == 0,
        r.command_name@ == command_name@,
        r.trigger_message_id is None,
        r.custom_id matches Some(c) && c@ == custom_id@,
        r.modal_values == modal_values,
        r.selected_values@.len() == 0,
{
    invoker_context(
        who,
        HashMap::new(),
        Vec::new(),
        command_name,
        None,
        Some(custom_id),
        modal_values,
        Vec::new(),
    )
}

// ── Answers ─────────────────────────────────────────────────────────────

/// The run produced something to send: embeds, errors or output.
pub open spec fn has_output(data: RunResponse) -> bool {
    data.embeds@.len() > 0 || data.errors@.len() > 0 || data.output@.len() > 0
}

/// The text sent with a response: the errors, else the output, joined by
/// newlines.
pub open spec fn content_of(data: RunResponse) -> Option<Seq<char>> {
    if data.errors@.len() > 0 {
        Some(join_spec(views(data.errors@), "\n"@))
    } else if data.output@.len() > 0 {
        Some(join_spec(views(data.output@), "\n"@))
    } else {
        None
    }
}

/// How an interaction is answered.
pub enum ReplyKind {
    /// Not at all.
    Nothing,
    /// With an acknowledgement only.
    Acknowledge,
    /// With the modal the run built.
    ShowModal,
    /// By editing the message the component is on.
    UpdateMessage,
    /// With a new message.
    Message,
}

/// An answer to an interaction. `content` is the text (the embeds are always
/// those of the run); the flags say whether the message is ephemeral, carries
/// the run's components and its allowed mentions, and whether the run's
/// pending reactions are added to it afterwards.
pub struct InteractionReply {
    pub kind: ReplyKind,
    pub content: Option<String>,
    pub ephemeral: bool,
    pub components: bool,
    pub mentions: bool,
    pub reactions: bool,
}

pub open spec fn opt_text(s: Option<String>) -> Option<Seq<char>> {
    match s {
        Some(x) => Some(x@),
        None => None,
    }
}

/// The answer to a slash command: nothing where the run produced nothing;
/// else a message with the text, the embeds, the allowed mentions (where the
/// run set any), the ephemeral flag and the components, and then the
/// reactions.
pub open spec fn command_reply_spec(data: RunResponse, r: InteractionReply) -> bool {
    if !has_output(data) {
        r.kind is Nothing
    } else {
        &&& r.kind is Message
        &&& opt_text(r.content) == content_of(data)
        &&& r.ephemeral == data.ephemeral
        &&& r.components
        &&& r.mentions == (data.allowed_user_mentions is Some || data.allowed_role_mentions is Some)
        &&& r.reactions == (data.pending_reactions@.len() > 0)
    }
}

/// The answer to a component interaction: an acknowledgement where the run
/// deferred; the modal where it built one; an acknowledgement where it
/// produced nothing; else the text, embeds and components, either as an edit
/// of the component's message or as a new message with the ephemeral flag.
pub open spec fn component_reply_spec(data: RunResponse, r: InteractionReply) -> bool {
    if data.components.deferred {
        r.kind is Acknowledge
    } else if data.components.modal is Some {
        r.kind is ShowModal
    } else if !has_output(data) {
        r.kind is Acknowledge
    } else {
        &&& (if data.components.update_message {
            r.kind is UpdateMessage && !r.ephemeral
        } else {
            r.kind is Message && r.ephemeral == data.ephemeral
        })
        &&& opt_text(r.content) == content_of(data)
        &&& r.components
        &&& !r.mentions
        &&& !r.reactions
    }
}

/// The answer to a modal submission: an acknowledgement where the run
/// produced nothing; else a message with the text, the embeds and the
/// ephemeral flag.
pub open spec fn modal_reply_spec(data: RunResponse, r: InteractionReply) -> bool {
    if !has_output(data) {
        r.kind is Acknowledge
    } else {
        &&& r.kind is Message
        &&& opt_text(r.content) == content_of(data)
        &&& r.ephemeral == data.ephemeral
        &&& !r.components
        &&& !r.mentions
        &&& !r.reactions
    }
}

fn output_exists(data: &RunResponse) -> (r: bool)
    ensures
        r == has_output(*data),
{
    !data.embeds.is_empty() || !data.errors.is_empty() || !data.output.is_empty()
}

fn content(data: &RunResponse) -> (r: Option<String>)
    ensures
        opt_text(r) == content_of(*data),
{
    resolve_text_content(data)
}

fn nothing(kind: ReplyKind) -> (r: InteractionReply)
    ensures
        r.kind == kind,
{
    InteractionReply {
        kind,
        content: None,
        ephemeral: false,
        components: false,
        mentions: false,
        reactions: false,
    }
}

/// The answer to a slash command.
pub fn command_reply(data: &RunResponse) -> (r: InteractionReply)
    ensures
        command_reply_spec(*data, r),
{
    if !output_exists(data) {
        return nothing(ReplyKind::Nothing);
    }
    InteractionReply {
        kind: ReplyKind::Message,
        content: content(data),
        ephemeral: data.ephemeral,
        components: true,
        mentions: data.allowed_user_mentions.is_some() || data.allowed_role_mentions.is_some(),
        reactions: !data.pending_reactions.is_empty(),
    }
}

/// The answer to a component interaction.
pub fn component_reply(data: &RunResponse) -> (r: InteractionReply)
    ensures
        component_reply_spec(*data, r),
{
    if data.components.deferred {
        return nothing(ReplyKind::Acknowledge);
    }
    if data.components.modal.is_some() {
        return nothing(ReplyKind::ShowModal);
    }
    if !output_exists(data) {
        return nothing(ReplyKind::Acknowledge);
    }
    let update = data.components.update_message;
    InteractionReply {
        kind: if update {
            ReplyKind::UpdateMessage
        } else {
            ReplyKind::Message
        },
        content: content(data),
        ephemeral: if update {
            false
        } else {
            data.ephemeral
        },
        components: true,
        mentions: false,
        reactions: false,
    }
}

/// The answer to a modal submission.
pub fn modal_reply(data: &RunResponse) -> (r: InteractionReply)
    ensures
        modal_reply_spec(*data, r),
{
    if !output_exists(data) {
        return nothing(ReplyKind::Acknowledge);
    }
    InteractionReply {
        kind: ReplyKind::Message,
        content: content(data),
        ephemeral: data.ephemeral,
        components: false,
        mentions: false,
        reactions: false,
    }
}

// ── Modal inputs ────────────────────────────────────────────────────────

/// One text input of a modal shown to the user. The length limits are the
/// field's, cut to 16 bits.
pub struct ModalInput {
    pub paragraph: bool,
    pub min_length: Option<u16>,
    pub max_length: Option<u16>,
}

/// The input for a field: a paragraph where the field's style is
/// `paragraph`, else a short input.
pub open spec fn input_for(f: ModalFieldData, i: ModalInput) -> bool {
    &&& i.paragraph == (f.style@ == "paragraph"@)
    &&& i.min_length == match f.min_length {
        Some(v) => Some(v as u16),
        None => None,
    }
    &&& i.max_length == match f.max_length {
        Some(v) => Some(v as u16),
        None => None,
    }
}

fn cut(v: Option<u32>) -> (r: Option<u16>)
    ensures
        r == match v {
            Some(x) => Some(x as u16),
            None => None,
        },
{
    match v {
        Some(x) => Some(x as u16),
        None => None,
    }
}

/// The inputs of a modal, one per field, in order.
pub fn modal_inputs(modal: &ModalData) -> (r: Vec<ModalInput>)
    ensures
        r@.len() == modal.fields@.len(),
        forall|k: int| 0 <= k < r@.len() ==> input_for(modal.fields@[k], #[trigger] r@[k]),
{
    let mut r: Vec<ModalInput> = Vec::new();
    let mut i: usize = 0;
    while i < modal.fields.len()
        invariant
            i <= modal.fields.len(),
            r@.len() == i,
            forall|k: int| 0 <= k < i ==> input_for(modal.fields@[k], #[trigger] r@[k]),
        decreases modal.fields.len() - i,
    {
        let f = &modal.fields[i];
        r.push(
            ModalInput {
                paragraph: crate::text::str_eq(f.style.as_str(), "paragraph"),
                min_length: cut(f.min_length),
                max_length: cut(f.max_length),
            },
        );
        i = i + 1;
    }
    r
}

// ── Messages sent in channels ───────────────────────────────────────────

/// A message the bot sends in a channel: where, the text, whether it replies
/// to the invoking message, and whether it carries the run's allowed
/// mentions. The embeds, components and reactions are always the run's.
pub struct ChannelMessage {
    pub channel_id: u64,
    pub content: Option<String>,
    pub reply: bool,
    pub mentions: bool,
}

/// The message answering a prefix command in `message_channel`: none where the
/// run produced nothing; else in the redirect channel where one is set and
/// numeric (else the message's channel), replying to the message only where
/// no redirect is set.
pub open spec fn message_reply_spec(data: RunResponse, message_channel: u64, r: Option<ChannelMessage>) -> bool {
    if !has_output(data) {
        r is None
    } else {
        r matches Some(m) && {
            &&& m.channel_id == match data.use_channel {
                Some(c) => match parse_unsigned_spec(c@, u64::MAX as nat) {
                    Some(id) => id,
                    None => message_channel as nat,
                },
                None => message_channel as nat,
            }
            &&& opt_text(m.content) == content_of(data)
            &&& m.reply == (data.should_reply && data.use_channel is None)
            &&& m.mentions == (data.allowed_user_mentions is Some || data.allowed_role_mentions is Some)
        }
    }
}

/// The message answering a prefix command.
pub fn message_reply(data: &RunResponse, message_channel: u64) -> (r: Option<ChannelMessage>)
    ensures
        message_reply_spec(*data, message_channel, r),
{
    if !output_exists(data) {
        return None;
    }
    Some(
        ChannelMessage {
            channel_id: response_channel(&data.use_channel, message_channel),
            content: content(data),
            reply: data.should_reply && data.use_channel.is_none(),
            mentions: data.allowed_user_mentions.is_some() || data.allowed_role_mentions.is_some(),
        },
    )
}

/// The message answering an event command whose event happened in
/// `default_channel`: none where the run produced nothing or no channel is
/// numeric; else in the redirect channel where set and numeric, else the
/// event's; never a reply.
pub open spec fn event_message_spec(data: RunResponse, default_channel: Seq<char>, r: Option<ChannelMessage>) -> bool {
    let target = match data.use_channel {
        Some(c) => match parse_unsigned_spec(c@, u64::MAX as nat) {
            Some(id) => Some(id),
            None => parse_unsigned_spec(default_channel, u64::MAX as nat),
        },
        None => parse_unsigned_spec(default_channel, u64::MAX as nat),
    };
    if !has_output(data) || target is None {
        r is None
    } else {
        r matches Some(m) && {
            &&& Some(m.channel_id as nat) == target
            &&& opt_text(m.content) == content_of(data)
            &&& !m.reply
            &&& m.mentions == (data.allowed_user_mentions is Some || data.allowed_role_mentions is Some)
        }
    }
}

/// The message answering an event command.
pub fn event_message(data: &RunResponse, default_channel: &str) -> (r: Option<ChannelMessage>)
    ensures
        event_message_spec(*data, default_channel@, r),
{
    if !output_exists(data) {
        return None;
    }
    match event_response_channel(&data.use_channel, default_channel) {
        Some(channel_id) => Some(
            ChannelMessage {
                channel_id,
                content: content(data),
                reply: false,
                mentions: data.allowed_user_mentions.is_some() || data.allowed_role_mentions.is_some(),
            },
        ),
        None => None,
    }
}

} // verus!
