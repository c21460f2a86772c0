//! Values that a ZBR execution reads and produces.
use std::collections::{HashMap, HashSet};
use vstd::prelude::*;

verus! {

broadcast use vstd::std_specs::hash::group_hash_axioms;

/// A button queued for the response.
#[derive(Clone, Debug, Default)]
pub struct ButtonData {
    /// custom_id, or the URL of a link button
    pub custom_id: String,
    pub label: String,
    /// primary, secondary, success, danger or link
    pub style: String,
    pub disabled: bool,
    pub emoji: Option<String>,
    pub new_row: bool,
}

/// One option of a select menu.
#[derive(Clone, Debug, Default)]
pub struct SelectOptionData {
    pub label: String,
    pub value: String,
    pub description: Option<String>,
    pub emoji: Option<String>,
    pub default: bool,
}

/// A select menu queued for the response.
#[derive(Clone, Debug, Default)]
pub struct SelectMenuData {
    pub menu_id: String,
    /// string, user, role, mentionable or channel
    pub kind: String,
    pub min_values: u8,
    pub max_values: u8,
    pub placeholder: Option<String>,
    pub options: Vec<SelectOptionData>,
}

/// One text input of a modal.
#[derive(Clone, Debug, Default)]
pub struct ModalFieldData {
    pub field_id: String,
    pub label: String,
    /// short or paragraph
    pub style: String,
    pub min_length: Option<u32>,
    pub max_length: Option<u32>,
    pub required: bool,
    pub placeholder: Option<String>,
    pub value: Option<String>,
}

/// A modal queued to be shown.
#[derive(Clone, Debug, Default)]
pub struct ModalData {
    pub modal_id: String,
    pub title: String,
    pub fields: Vec<ModalFieldData>,
}

/// All component state accumulated during a single execution.
#[derive(Clone, Debug, Default)]
pub struct ComponentState {
    /// Buttons queued for the response, in order.
    pub buttons: Vec<ButtonData>,
    /// String select menu queued for the response (at most one per message).
    pub select_menu: Option<SelectMenuData>,
    /// Modal queued to be shown (only valid in interaction responses).
    pub modal: Option<ModalData>,
    /// Whether Zdefer{} was called.
    pub deferred: bool,
    /// Whether the interaction response edits the message it came from.
    pub update_message: bool,
}

/// One embed being built by a script.
#[derive(Clone, Default, Debug)]
pub struct Embed {
    pub title: Option<String>,
    pub title_url: Option<String>,
    pub description: Option<String>,
    pub color: Option<u32>,
    pub thumbnail: Option<String>,
    pub image: Option<String>,
    pub footer: Option<String>,
    pub footer_icon: Option<String>,
    pub author: Option<String>,
    pub author_icon: Option<String>,
    pub author_url: Option<String>,
    pub timestamp: bool,
    pub fields: Vec<EmbedField>,
}

impl Embed {
    /// Some part of the embed has been set.
    pub open spec fn has_content_spec(&self) -> bool {
        ||| self.title is Some
        ||| self.title_url is Some
        ||| self.description is Some
        ||| self.color is Some
        ||| self.thumbnail is Some
        ||| self.image is Some
        ||| self.footer is Some
        ||| self.footer_icon is Some
        ||| self.author is Some
        ||| self.author_icon is Some
        ||| self.author_url is Some
        ||| self.timestamp
        ||| self.fields@.len() > 0
    }

    /// Whether any part of the embed has been set.
    pub fn has_content(&self) -> (r: bool)
        ensures
            r == self.has_content_spec(),
    {
        self.title.is_some() || self.title_url.is_some() || self.description.is_some()
            || self.color.is_some() || self.thumbnail.is_some() || self.image.is_some()
            || self.footer.is_some() || self.footer_icon.is_some() || self.author.is_some()
            || self.author_icon.is_some() || self.author_url.is_some() || self.timestamp
            || !self.fields.is_empty()
    }
}

/// One field of an embed.
#[derive(Clone, Debug)]
pub struct EmbedField {
    pub name: String,
    pub value: String,
    pub inline: bool,
}

/// The plain values of the execution context that ZBR functions read.
#[derive(Debug)]
pub struct DiscordContext {
    pub author_id: String,
    pub username: String,
    pub channel_id: String,
    pub guild_id: String,
    pub message: String,
    pub options: HashMap<String, String>,
    pub bot_id: String,
    /// Slash command options in declaration order (values only).
    pub options_list: Vec<String>,
    /// The trigger prefix that was matched (for prefix commands).
    pub trigger: Option<String>,
    /// The command name used as the cooldown key.
    pub command_name: String,
    /// The ID of the message that triggered this command.
    pub trigger_message_id: Option<String>,
    /// The custom_id of the interaction that triggered this execution.
    pub custom_id: Option<String>,
    /// Values selected in the current component interaction.
    pub selected_values: Vec<String>,
    /// The shard that received the event.
    pub shard_id: u64,
    /// The number of shards the bot runs.
    pub total_shards: u64,
    /// Whether a database pool is at hand.
    pub has_db: bool,
    /// Whether an HTTP client is at hand.
    pub has_http: bool,
    /// The embeds being built; index 1-based in ZBR syntax, 0-based here.
    pub embed: Vec<Embed>,
    /// Embed indices (0-based) already dispatched via ZsendEmbed.
    pub consumed_embeds: HashSet<usize>,
    /// Active timezone for date/time functions.
    pub timezone: String,
    /// Temporary variables scoped to this execution (Zvar).
    pub temp_vars: HashMap<String, String>,
    /// Labels for cooldown time display.
    pub cooldown_labels: CooldownLabels,
    /// Reactions to add to the bot's own response after it is sent.
    pub pending_reactions: Vec<String>,
    /// Temporary split text storage.
    pub split_text: Vec<String>,
    /// Allowed user mention IDs for the response; None is Discord's default.
    pub allowed_user_mentions: Option<Vec<String>>,
    /// Allowed role mention IDs for the response; None is Discord's default.
    pub allowed_role_mentions: Option<Vec<String>>,
    /// Whether the slash command response is ephemeral.
    pub ephemeral: bool,
    /// The channel all output is redirected to, if any.
    pub use_channel: Option<String>,
    /// HTTP headers accumulated for this execution.
    pub http_headers: HashMap<String, String>,
    /// Status code of the last HTTP request of this execution.
    pub http_last_status: u16,
    /// Body of the last HTTP request of this execution.
    pub http_last_body: String,
    /// The JSON object being edited in this execution.
    pub json_object: Option<crate::json::JsonValue>,
    /// Where errors are suppressed, the text shown instead.
    pub suppress_error_text: Option<String>,
    /// Where errors are suppressed, the embed (0-based) sent instead.
    pub suppress_error_embed: Option<usize>,
    /// Components built during this execution.
    pub components: ComponentState,
    /// Modal field values submitted with this interaction.
    pub modal_values: HashMap<String, String>,
}

impl DiscordContext {
    /// The state an execution starts from: no embeds, nothing sent, the
    /// timezone Asia/Tokyo, no variables, the default cooldown labels, no
    /// reactions, split text, mention limits, ephemeral flag, redirection,
    /// headers, last request (status 0), JSON object, error suppression or
    /// components.
    pub open spec fn fresh_execution(self) -> bool {
        &&& self.embed@.len() == 0
        &&& self.consumed_embeds@ == Set::<usize>::empty()
        &&& self.timezone@ == "Asia/Tokyo"@
        &&& self.temp_vars@ == Map::<String, String>::empty()
        &&& self.cooldown_labels.days@ == "Days"@
        &&& self.cooldown_labels.hours@ == "Hours"@
        &&& self.cooldown_labels.minutes@ == "Minutes"@
        &&& self.cooldown_labels.seconds@ == "Seconds"@
        &&& self.pending_reactions@.len() == 0
        &&& self.split_text@.len() == 0
        &&& self.allowed_user_mentions is None
        &&& self.allowed_role_mentions is None
        &&& !self.ephemeral
        &&& self.use_channel is None
        &&& self.http_headers@ == Map::<String, String>::empty()
        &&& self.http_last_status == 0
        &&& self.http_last_body@.len() == 0
        &&& self.json_object is None
        &&& self.suppress_error_text is None
        &&& self.suppress_error_embed is None
        &&& self.components.buttons@.len() == 0
        &&& self.components.select_menu is None
        &&& self.components.modal is None
        &&& !self.components.deferred
        &&& !self.components.update_message
    }
}

/// The component state an execution starts with: nothing queued.
pub fn no_components() -> (r: ComponentState)
    ensures
        r.buttons@.len() == 0,
        r.select_menu is None,
        r.modal is None,
        !r.deferred,
        !r.update_message,
{
    ComponentState {
        buttons: Vec::new(),
        select_menu: None,
        modal: None,
        deferred: false,
        update_message: false,
    }
}

impl Default for DiscordContext {
    /// An empty context: no author, channel, guild, message, options, trigger,
    /// command, IDs, selection or modal values; shard 0 of 0; no database or
    /// HTTP client; the state an execution starts from.
    fn default() -> (r: Self)
        ensures
            r.author_id@.len() == 0,
            r.username@.len() == 0,
            r.channel_id@.len() == 0,
            r.guild_id@.len() == 0,
            r.message@.len() == 0,
            r.options@ == Map::<String, String>::empty(),
            r.bot_id@.len() == 0,
            r.options_list@.len() == 0,
            r.trigger is None,
            r.command_name@.len() == 0,
            r.trigger_message_id is None,
            r.custom_id is None,
            r.selected_values@.len() == 0,
            r.shard_id == 0,
            r.total_shards == 0,
            !r.has_db,
            !r.has_http,
            r.modal_values@ == Map::<String, String>::empty(),
            r.fresh_execution(),
    {
        DiscordContext {
            author_id: String::new(),
            username: String::new(),
            channel_id: String::new(),
            guild_id: String::new(),
            message: String::new(),
            options: HashMap::new(),
            bot_id: String::new(),
            options_list: Vec::new(),
            trigger: None,
            command_name: String::new(),
            trigger_message_id: None,
            custom_id: None,
            selected_values: Vec::new(),
            shard_id: 0,
            total_shards: 0,
            has_db: false,
            has_http: false,
            embed: Vec::new(),
            consumed_embeds: HashSet::new(),
            timezone: String::from_str("Asia/Tokyo"),
            temp_vars: HashMap::new(),
            cooldown_labels: CooldownLabels::default(),
            pending_reactions: Vec::new(),
            split_text: Vec::new(),
            allowed_user_mentions: None,
            allowed_role_mentions: None,
            ephemeral: false,
            use_channel: None,
            http_headers: HashMap::new(),
            http_last_status: 0,
            http_last_body: String::new(),
            json_object: None,
            suppress_error_text: None,
            suppress_error_embed: None,
            components: no_components(),
            modal_values: HashMap::new(),
        }
    }
}

/// Labels for cooldown time display.
#[derive(Clone, Debug)]
pub struct CooldownLabels {
    pub days: String,
    pub hours: String,
    pub minutes: String,
    pub seconds: String,
}

impl Default for CooldownLabels {
    fn default() -> (r: Self)
        ensures
            r.days@ == "Days"@,
            r.hours@ == "Hours"@,
            r.minutes@ == "Minutes"@,
            r.seconds@ == "Seconds"@,
    {
        CooldownLabels {
            days: String::from_str("Days"),
            hours: String::from_str("Hours"),
            minutes: String::from_str("Minutes"),
            seconds: String::from_str("Seconds"),
        }
    }
}

/// What one ZBR function call produces.
#[derive(Debug)]
pub enum FnOutput {
    Text(String),
    Reply,
    Empty,
    /// A fatal runtime error shown to the bot developer. Gets "Line N: " prefix.
    Error(String),
    /// A user-facing error message. Shown exactly as-is, no line prefix.
    UserError(String),
}

/// The text of a developer error raised by the function `function`.
pub open spec fn error_text(function: Seq<char>, message: Seq<char>) -> Seq<char> {
    seq!['Z'] + function + " - "@ + message
}

/// `o` is the developer error `Z{function} - {message}`.
pub open spec fn is_error(o: FnOutput, function: Seq<char>, message: Seq<char>) -> bool {
    o matches FnOutput::Error(m) && m@ == error_text(function, message)
}

impl FnOutput {
    /// A developer error: `Z{function} - {message}`.
    pub fn error(function: &str, message: &str) -> (r: Self)
        ensures
            r matches FnOutput::Error(m) && m@ == error_text(function@, message@),
    {
        let mut m = String::new();
        crate::text::push_char(&mut m, 'Z');
        m.append(function);
        m.append(" - ");
        m.append(message);
        assert(m@ =~= error_text(function@, message@));
        FnOutput::Error(m)
    }

    /// A user-facing error shown as given.
    pub fn user_error(message: &str) -> (r: Self)
        ensures
            r matches FnOutput::UserError(m) && m@ == message@,
    {
        FnOutput::UserError(String::from_str(message))
    }
}

/// The outcome of evaluating a script.
pub struct EvalResult {
    pub output: Vec<String>,
    pub should_reply: bool,
    /// At most one error — execution halted on first failure.
    pub errors: Vec<String>,
    pub embeds: Vec<Embed>,
    /// 0-based indices of embeds that were explicitly sent via ZsendEmbed.
    pub consumed_embeds: HashSet<usize>,
    /// If true, slash command response should be ephemeral.
    pub ephemeral: bool,
    /// If set, redirect all output to this channel ID.
    pub use_channel: Option<String>,
    /// Component state to attach to the response.
    pub components: ComponentState,
}

} // verus!
