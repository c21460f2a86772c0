//! Turning the outcome of a script evaluation into the response the bot sends.
use std::collections::{HashMap, HashSet};
use vstd::prelude::*;
use crate::context::{self, CooldownLabels, DiscordContext, Embed, EvalResult};
use crate::decimal::{decimal, usize_text};

verus! {

broadcast use vstd::std_specs::hash::group_hash_axioms;

// ── Output types (consumed by the response sender) ──────────────────────

pub struct EmbedFieldData {
    pub name: String,
    pub value: String,
    pub inline: bool,
}

pub struct EmbedData {
    pub title: Option<String>,
    pub title_url: Option<String>,
    pub description: Option<String>,
    pub color: Option<u32>,
    pub thumbnail: Option<String>,
    pub image: Option<String>,
    pub footer: Option<String>,
    pub footer_icon: Option<String>,
    pub author: Option<String>,
    pub author_icon: Option<String>,
    pub author_url: Option<String>,
    pub timestamp: bool,
    pub fields: Vec<EmbedFieldData>,
}

pub struct ButtonData {
    pub custom_id: String,
    pub label: String,
    pub style: String,
    pub disabled: bool,
    pub emoji: Option<String>,
    pub new_row: bool,
}

pub struct SelectOptionData {
    pub label: String,
    pub value: String,
    pub description: Option<String>,
    pub emoji: Option<String>,
    pub default: bool,
}

pub struct SelectMenuData {
    pub menu_id: String,
    pub kind: String,
    pub min_values: u8,
    pub max_values: u8,
    pub placeholder: Option<String>,
    pub options: Vec<SelectOptionData>,
}

pub struct ModalFieldData {
    pub field_id: String,
    pub label: String,
    pub style: String,
    pub min_length: Option<u32>,
    pub max_length: Option<u32>,
    pub required: bool,
    pub placeholder: Option<String>,
    pub value: Option<String>,
}

pub struct ModalData {
    pub modal_id: String,
    pub title: String,
    pub fields: Vec<ModalFieldData>,
}

pub struct ComponentData {
    pub buttons: Vec<ButtonData>,
    pub select_menu: Option<SelectMenuData>,
    pub modal: Option<ModalData>,
    pub deferred: bool,
    pub update_message: bool,
}

pub struct RunResponse {
    pub output: Vec<String>,
    pub errors: Vec<String>,
    pub should_reply: bool,
    pub embeds: Vec<EmbedData>,
    pub pending_reactions: Vec<String>,
    pub allowed_user_mentions: Option<Vec<String>>,
    pub allowed_role_mentions: Option<Vec<String>>,
    pub ephemeral: bool,
    pub use_channel: Option<String>,
    pub components: ComponentData,
}

// ── Input types ─────────────────────────────────────────────────────────

pub struct RunContext {
    pub author_id: String,
    pub username: String,
    pub channel_id: String,
    pub guild_id: String,
    pub message: String,
    pub options: HashMap<String, String>,
    pub options_list: Vec<String>,
    pub trigger: Option<String>,
    pub command_name: String,
    pub trigger_message_id: Option<String>,
    pub custom_id: Option<String>,
    pub modal_values: HashMap<String, String>,
    pub selected_values: Vec<String>,
}

// ── Specifications ──────────────────────────────────────────────────────

/// The embed at index `i` is to be sent with the response: it has content and was
/// not dispatched already.
pub open spec fn embed_sendable(e: Embed, i: int, consumed: Set<usize>) -> bool {
    e.has_content_spec() && !consumed.contains(i as usize)
}

/// The embed has one of the parts Discord needs to show it.
pub open spec fn embed_has_required(e: Embed) -> bool {
    e.title is Some || e.description is Some || e.author is Some || e.fields@.len() > 0
}

/// The embed at index `i` is to be sent but lacks every required part.
pub open spec fn embed_incomplete(embeds: Seq<Embed>, consumed: Set<usize>, i: int) -> bool {
    0 <= i < embeds.len() && embed_sendable(embeds[i], i, consumed) && !embed_has_required(
        embeds[i],
    )
}

/// Indices, in order, of the embeds among the first `k` that are to be sent.
pub open spec fn kept_indices(embeds: Seq<Embed>, consumed: Set<usize>, k: int) -> Seq<int>
    decreases k,
{
    if k <= 0 {
        Seq::empty()
    } else {
        let prev = kept_indices(embeds, consumed, k - 1);
        if embed_sendable(embeds[k - 1], k - 1, consumed) {
            prev.push(k - 1)
        } else {
            prev
        }
    }
}

pub open spec fn field_copied(d: EmbedFieldData, f: context::EmbedField) -> bool {
    d.name == f.name && d.value == f.value && d.inline == f.inline
}

/// `d` carries every part of `e`.
pub open spec fn embed_copied(d: EmbedData, e: Embed) -> bool {
    &&& d.title == e.title
    &&& d.title_url == e.title_url
    &&& d.description == e.description
    &&& d.color == e.color
    &&& d.thumbnail == e.thumbnail
    &&& d.image == e.image
    &&& d.footer == e.footer
    &&& d.footer_icon == e.footer_icon
    &&& d.author == e.author
    &&& d.author_icon == e.author_icon
    &&& d.author_url == e.author_url
    &&& d.timestamp == e.timestamp
    &&& d.fields@.len() == e.fields@.len()
    &&& forall|j: int| 0 <= j < d.fields@.len() ==> field_copied(d.fields@[j], e.fields@[j])
}

pub open spec fn button_copied(d: ButtonData, b: context::ButtonData) -> bool {
    d.custom_id == b.custom_id && d.label == b.label && d.style == b.style && d.disabled
        == b.disabled && d.emoji == b.emoji && d.new_row == b.new_row
}

pub open spec fn option_copied(d: SelectOptionData, o: context::SelectOptionData) -> bool {
    d.label == o.label && d.value == o.value && d.description == o.description && d.emoji
        == o.emoji && d.default == o.default
}

pub open spec fn menu_copied(d: SelectMenuData, m: context::SelectMenuData) -> bool {
    &&& d.menu_id == m.menu_id
    &&& d.kind == m.kind
    &&& d.min_values == m.min_values
    &&& d.max_values == m.max_values
    &&& d.placeholder == m.placeholder
    &&& d.options@.len() == m.options@.len()
    &&& forall|j: int| 0 <= j < d.options@.len() ==> option_copied(d.options@[j], m.options@[j])
}

pub open spec fn modal_field_copied(d: ModalFieldData, f: context::ModalFieldData) -> bool {
    &&& d.field_id == f.field_id
    &&& d.label == f.label
    &&& d.style == f.style
    &&& d.min_length == f.min_length
    &&& d.max_length == f.max_length
    &&& d.required == f.required
    &&& d.placeholder == f.placeholder
    &&& d.value == f.value
}

pub open spec fn modal_copied(d: ModalData, m: context::ModalData) -> bool {
    &&& d.modal_id == m.modal_id
    &&& d.title == m.title
    &&& d.fields@.len() == m.fields@.len()
    &&& forall|j: int| 0 <= j < d.fields@.len() ==> modal_field_copied(d.fields@[j], m.fields@[j])
}

/// `d` carries every part of the component state `c`.
pub open spec fn components_copied(d: ComponentData, c: context::ComponentState) -> bool {
    &&& d.buttons@.len() == c.buttons@.len()
    &&& forall|j: int| 0 <= j < d.buttons@.len() ==> button_copied(d.buttons@[j], c.buttons@[j])
    &&& match (d.select_menu, c.select_menu) {
        (Some(x), Some(y)) => menu_copied(x, y),
        (None, None) => true,
        _ => false,
    }
    &&& match (d.modal, c.modal) {
        (Some(x), Some(y)) => modal_copied(x, y),
        (None, None) => true,
        _ => false,
    }
    &&& d.deferred == c.deferred
    &&& d.update_message == c.update_message
}

/// The text of the error for an incomplete embed at (0-based) index `i`.
pub open spec fn incomplete_embed_text(i: int) -> Seq<char> {
    "embed "@ + decimal((i + 1) as nat)
        + " must have at least a title, description, author, or field before it can be sent"@
}

/// A response that holds nothing but the given errors.
pub open spec fn error_only_response(r: RunResponse, errors: Seq<String>) -> bool {
    &&& r.output@.len() == 0
    &&& r.errors@ == errors
    &&& !r.should_reply
    &&& r.embeds@.len() == 0
    &&& r.pending_reactions@.len() == 0
    &&& r.allowed_user_mentions is None
    &&& r.allowed_role_mentions is None
    &&& !r.ephemeral
    &&& r.use_channel is None
    &&& r.components.buttons@.len() == 0
    &&& r.components.select_menu is None
    &&& r.components.modal is None
    &&& !r.components.deferred
    &&& !r.components.update_message
}

// ── Conversions ─────────────────────────────────────────────────────────

fn convert_fields(fields: Vec<context::EmbedField>) -> (r: Vec<EmbedFieldData>)
    ensures
        r@.len() == fields@.len(),
        forall|j: int| 0 <= j < r@.len() ==> field_copied(r@[j], fields@[j]),
{
    let ghost src = fields@;
    let mut r: Vec<EmbedFieldData> = Vec::new();
    for f in it: fields
        invariant
            it.seq() == src,
            r@.len() == it.index(),
            forall|j: int| 0 <= j < r@.len() ==> field_copied(r@[j], src[j]),
    {
        r.push(EmbedFieldData { name: f.name, value: f.value, inline: f.inline });
    }
    r
}

fn convert_embed(e: Embed) -> (d: EmbedData)
    ensures
        embed_copied(d, e),
{
    EmbedData {
        title: e.title,
        title_url: e.title_url,
        description: e.description,
        color: e.color,
        thumbnail: e.thumbnail,
        image: e.image,
        footer: e.footer,
        footer_icon: e.footer_icon,
        author: e.author,
        author_icon: e.author_icon,
        author_url: e.author_url,
        timestamp: e.timestamp,
        fields: convert_fields(e.fields),
    }
}

fn convert_buttons(buttons: Vec<context::ButtonData>) -> (r: Vec<ButtonData>)
    ensures
        r@.len() == buttons@.len(),
        forall|j: int| 0 <= j < r@.len() ==> button_copied(r@[j], buttons@[j]),
{
    let ghost src = buttons@;
    let mut r: Vec<ButtonData> = Vec::new();
    for b in it: buttons
        invariant
            it.seq() == src,
            r@.len() == it.index(),
            forall|j: int| 0 <= j < r@.len() ==> button_copied(r@[j], src[j]),
    {
        r.push(
            ButtonData {
                custom_id: b.custom_id,
                label: b.label,
                style: b.style,
                disabled: b.disabled,
                emoji: b.emoji,
                new_row: b.new_row,
            },
        );
    }
    r
}

fn convert_menu(m: context::SelectMenuData) -> (d: SelectMenuData)
    ensures
        menu_copied(d, m),
{
    let ghost src = m.options@;
    let mut options: Vec<SelectOptionData> = Vec::new();
    for o in it: m.options
        invariant
            it.seq() == src,
            options@.len() == it.index(),
            forall|j: int| 0 <= j < options@.len() ==> option_copied(options@[j], src[j]),
    {
        options.push(
            SelectOptionData {
                label: o.label,
                value: o.value,
                description: o.description,
                emoji: o.emoji,
                default: o.default,
            },
        );
    }
    SelectMenuData {
        menu_id: m.menu_id,
        kind: m.kind,
        min_values: m.min_values,
        max_values: m.max_values,
        placeholder: m.placeholder,
        options,
    }
}

fn convert_modal(m: context::ModalData) -> (d: ModalData)
    ensures
        modal_copied(d, m),
{
    let ghost src = m.fields@;
    let mut fields: Vec<ModalFieldData> = Vec::new();
    for f in it: m.fields
        invariant
            it.seq() == src,
            fields@.len() == it.index(),
            forall|j: int| 0 <= j < fields@.len() ==> modal_field_copied(fields@[j], src[j]),
    {
        fields.push(
            ModalFieldData {
                field_id: f.field_id,
                label: f.label,
                style: f.style,
                min_length: f.min_length,
                max_length: f.max_length,
                required: f.required,
                placeholder: f.placeholder,
                value: f.value,
            },
        );
    }
    ModalData { modal_id: m.modal_id, title: m.title, fields }
}

fn convert_components(c: context::ComponentState) -> (d: ComponentData)
    ensures
        components_copied(d, c),
{
    let select_menu = match c.select_menu {
        Some(m) => Some(convert_menu(m)),
        None => None,
    };
    let modal = match c.modal {
        Some(m) => Some(convert_modal(m)),
        None => None,
    };
    ComponentData {
        buttons: convert_buttons(c.buttons),
        select_menu,
        modal,
        deferred: c.deferred,
        update_message: c.update_message,
    }
}

// ── DiscordContext builder ──────────────────────────────────────────────

/// The execution context for a run: the run's own values, the bot's ID, the
/// shard numbers, the database pool and whether an HTTP client is at hand; the
/// execution starts fresh.
pub fn build_discord_context(
    ctx: RunContext,
    bot_id: String,
    shard_id: u64,
    total_shards: u64,
    has_http: bool,
) -> (r: DiscordContext)
    ensures
        r.author_id == ctx.author_id,
        r.username == ctx.username,
        r.channel_id == ctx.channel_id,
        r.guild_id == ctx.guild_id,
        r.message == ctx.message,
        r.options == ctx.options,
        r.bot_id == bot_id,
        r.options_list == ctx.options_list,
        r.trigger == ctx.trigger,
        r.command_name == ctx.command_name,
        r.trigger_message_id == ctx.trigger_message_id,
        r.custom_id == ctx.custom_id,
        r.selected_values == ctx.selected_values,
        r.shard_id == shard_id,
        r.total_shards == total_shards,
        r.modal_values == ctx.modal_values,
        r.has_db,
        r.has_http == has_http,
        r.fresh_execution(),
{
    DiscordContext {
        author_id: ctx.author_id,
        username: ctx.username,
        channel_id: ctx.channel_id,
        guild_id: ctx.guild_id,
        message: ctx.message,
        options: ctx.options,
        bot_id,
        options_list: ctx.options_list,
        trigger: ctx.trigger,
        command_name: ctx.command_name,
        trigger_message_id: ctx.trigger_message_id,
        custom_id: ctx.custom_id,
        selected_values: ctx.selected_values,
        shard_id,
        total_shards,
        has_db: true,
        has_http,
        embed: Vec::new(),
        consumed_embeds: HashSet::new(),
        timezone: String::from_str("Asia/Tokyo"),
        temp_vars: HashMap::new(),
        cooldown_labels: CooldownLabels::default(),
        pending_reactions: Vec::new(),
        split_text: Vec::new(),
        allowed_user_mentions: None,
        allowed_role_mentions: None,
        ephemeral: false,
        use_channel: None,
        http_headers: HashMap::new(),
        http_last_status: 0,
        http_last_body: String::new(),
        json_object: None,
        suppress_error_text: None,
        suppress_error_embed: None,
        components: crate::context::no_components(),
        modal_values: ctx.modal_values,
    }
}

// ── Response builder ────────────────────────────────────────────────────

/// The response for an evaluation. Embeds without content and embeds already sent
/// are left out; the first other embed that has no title, description, author or
/// field turns the whole response into that one error. The reactions and mention
/// lists are those the execution collected.
pub fn build_response(
    result: EvalResult,
    pending_reactions: Vec<String>,
    allowed_user_mentions: Option<Vec<String>>,
    allowed_role_mentions: Option<Vec<String>>,
) -> (r: RunResponse)
    ensures
        forall|i: int|
            embed_incomplete(result.embeds@, result.consumed_embeds@, i) && (forall|k: int|
                0 <= k < i ==> !embed_incomplete(result.embeds@, result.consumed_embeds@, k))
                ==> r.errors@.len() == 1 && r.errors@[0]@ == incomplete_embed_text(i)
                && error_only_response(r, r.errors@),
        (forall|i: int| !embed_incomplete(result.embeds@, result.consumed_embeds@, i)) ==> {
            let kept = kept_indices(
                result.embeds@,
                result.consumed_embeds@,
                result.embeds@.len() as int,
            );
            &&& r.output == result.output
            &&& r.errors == result.errors
            &&& r.should_reply == result.should_reply
            &&& r.embeds@.len() == kept.len()
            &&& forall|j: int|
                0 <= j < kept.len() ==> embed_copied(r.embeds@[j], result.embeds@[kept[j]])
            &&& r.pending_reactions == pending_reactions
            &&& r.allowed_user_mentions == allowed_user_mentions
            &&& r.allowed_role_mentions == allowed_role_mentions
            &&& r.ephemeral == result.ephemeral
            &&& r.use_channel == result.use_channel
            &&& components_copied(r.components, result.components)
        },
{
    let ghost all = result.embeds@;
    let n = result.embeds.len();
    let consumed = result.consumed_embeds;
    let ghost cset = consumed@;
    let mut embeds: Vec<EmbedData> = Vec::new();
    let mut i: usize = 0;
    for e in it: result.embeds
        invariant
            it.seq() == all,
            i == it.index(),
            all.len() == n,
            all == result.embeds@,
            cset == result.consumed_embeds@,
            cset == consumed@,
            forall|k: int| 0 <= k < i ==> !embed_incomplete(all, cset, k),
            embeds@.len() == kept_indices(all, cset, i as int).len(),
            forall|j: int|
                0 <= j < embeds@.len() ==> embed_copied(
                    embeds@[j],
                    all[kept_indices(all, cset, i as int)[j]],
                ),
    {
        let ghost prev = kept_indices(all, cset, i as int);
        assert(kept_indices(all, cset, i + 1) == if embed_sendable(all[i as int], i as int, cset) {
            prev.push(i as int)
        } else {
            prev
        });
        assert(e == all[i as int]);
        if e.has_content() && !consumed.contains(&i) {
            let has_required = e.title.is_some() || e.description.is_some() || e.author.is_some()
                || !e.fields.is_empty();
            if !has_required {
                let mut msg = String::from_str("embed ");
                msg.append(usize_text(i + 1).as_str());
                msg.append(
                    " must have at least a title, description, author, or field before it can be sent",
                );
                assert(msg@ =~= incomplete_embed_text(i as int));
                let mut errors: Vec<String> = Vec::new();
                errors.push(msg);
                assert(embed_incomplete(all, cset, i as int));
                return RunResponse {
                    output: Vec::new(),
                    errors,
                    should_reply: false,
                    embeds: Vec::new(),
                    pending_reactions: Vec::new(),
                    allowed_user_mentions: None,
                    allowed_role_mentions: None,
                    ephemeral: false,
                    use_channel: None,
                    components: ComponentData {
                        buttons: Vec::new(),
                        select_menu: None,
                        modal: None,
                        deferred: false,
                        update_message: false,
                    },
                };
            }
            embeds.push(convert_embed(e));
        }
        i = i + 1;
    }
    RunResponse {
        output: result.output,
        errors: result.errors,
        should_reply: result.should_reply,
        embeds,
        pending_reactions,
        allowed_user_mentions,
        allowed_role_mentions,
        ephemeral: result.ephemeral,
        use_channel: result.use_channel,
        components: convert_components(result.components),
    }
}

// ── Laws ────────────────────────────────────────────────────────────────

/// An embed has content exactly when some part of it is set: a title, a title
/// URL, a description, a colour, a thumbnail, an image, a footer or its icon,
/// an author or its icon or URL, a timestamp, or a field.
pub proof fn law_embed_content(e: Embed)
    ensures
        e.has_content_spec() <==> (e.title is Some || e.title_url is Some || e.description is Some
            || e.color is Some || e.thumbnail is Some || e.image is Some || e.footer is Some
            || e.footer_icon is Some || e.author is Some || e.author_icon is Some
            || e.author_url is Some || e.timestamp || e.fields@.len() > 0),
{
}

proof fn lemma_sendable_kept(embeds: Seq<Embed>, consumed: Set<usize>, i: int, k: int)
    requires
        0 <= i < k <= embeds.len(),
        embed_sendable(embeds[i], i, consumed),
    ensures
        kept_indices(embeds, consumed, k).contains(i),
    decreases k,
{
    if i < k - 1 {
        lemma_sendable_kept(embeds, consumed, i, k - 1);
        let prev = kept_indices(embeds, consumed, k - 1);
        let j = choose|j: int| 0 <= j < prev.len() && prev[j] == i;
        if embed_sendable(embeds[k - 1], k - 1, consumed) {
            assert(prev.push(k - 1)[j] == i);
        }
    } else {
        let prev = kept_indices(embeds, consumed, k - 1);
        assert(prev.push(i)[prev.len() as int] == i);
    }
}

/// An embed with a description that was not sent already is complete and is
/// kept for the response.
pub proof fn law_described_embed_kept(embeds: Seq<Embed>, consumed: Set<usize>, i: int)
    requires
        0 <= i < embeds.len(),
        embeds[i].description is Some,
        !consumed.contains(i as usize),
    ensures
        !embed_incomplete(embeds, consumed, i),
        kept_indices(embeds, consumed, embeds.len() as int).contains(i),
{
    lemma_sendable_kept(embeds, consumed, i, embeds.len() as int);
}

} // verus!
