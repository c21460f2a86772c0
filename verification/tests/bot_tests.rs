use std::collections::HashMap;
use zbr::bot::commands::{
    event_command, interaction_handler, registration_plan, CommandInfo, CommandKind,
    CommandRegistry, CommandScope,
};
use zbr::bot::events::{event_runs, BotEvent, ChannelRef, MemberRef, MessageRef, ReactionRef};
use zbr::bot::interactions::{
    command_reply, component_reply, event_message, message_reply, modal_inputs, modal_reply,
    ReplyKind,
};
use zbr::bot::message::{has_link, message_plan, needs_resolution, prefix_context, trigger_matches, MessageInfo};
use zbr::bot::presence::{activity_kind, presence_status, ActivityKind, StatusKind};
use zbr::bot::trigger_vars::{ReferencePattern, ResolveStep, Resolution};
use zbr::bot::{
    build_command_trigger_and_options, button_emoji, button_rows, button_style, mention_ids,
    parse_reaction_type, response_channel, select_kind, total_shard_count, ButtonEmoji,
    ButtonStyleKind, CommandOption, OptionValue, ReactionSpec, SelectKind, TextMap,
};
use zbr::executor::{ButtonData, ComponentData, ModalData, ModalFieldData, RunResponse};

fn s(x: &str) -> String {
    x.to_string()
}

fn cmd(trigger: &str, kind: CommandKind, scope: CommandScope) -> CommandInfo {
    CommandInfo { trigger: s(trigger), name: s(trigger), description: s("d"), kind, scope }
}

fn button(new_row: bool) -> ButtonData {
    ButtonData { custom_id: s("id"), label: s("l"), style: s("primary"), disabled: false, emoji: None, new_row }
}

fn empty_response() -> RunResponse {
    RunResponse {
        output: vec![],
        errors: vec![],
        should_reply: false,
        embeds: vec![],
        pending_reactions: vec![],
        allowed_user_mentions: None,
        allowed_role_mentions: None,
        ephemeral: false,
        use_channel: None,
        components: ComponentData { buttons: vec![], select_menu: None, modal: None, deferred: false, update_message: false },
    }
}

#[test]
fn buttons_fill_rows_of_five() {
    let buttons: Vec<ButtonData> = (0..12).map(|_| button(false)).collect();
    let rows = button_rows(&buttons);
    let sizes: Vec<usize> = rows.iter().map(|r| r.len()).collect();
    assert_eq!(sizes, vec![5, 5, 2]);
    assert_eq!(rows[1], vec![5, 6, 7, 8, 9]);
}

#[test]
fn new_row_flag_starts_a_row() {
    let buttons = vec![button(false), button(true), button(false), button(true)];
    let rows = button_rows(&buttons);
    assert_eq!(rows, vec![vec![0], vec![1, 2], vec![3]]);
    let first_new = vec![button(true), button(false)];
    assert_eq!(button_rows(&first_new), vec![vec![0, 1]]);
    assert!(button_rows(&vec![]).is_empty());
}

#[test]
fn button_styles_and_emoji() {
    assert!(matches!(button_style("danger"), ButtonStyleKind::Danger));
    assert!(matches!(button_style("link"), ButtonStyleKind::Secondary));
    assert!(matches!(button_emoji("123"), Some(ButtonEmoji::Custom(123))));
    assert!(matches!(button_emoji("\u{1F600}x"), Some(ButtonEmoji::Unicode('\u{1F600}'))));
    assert!(button_emoji("").is_none());
    assert!(matches!(select_kind("role"), SelectKind::Role));
    assert!(matches!(select_kind("anything"), SelectKind::Strings));
}

#[test]
fn reaction_types_are_parsed() {
    match parse_reaction_type(" <a:party:123> ") {
        ReactionSpec::Custom { animated, id, name } => {
            assert!(animated);
            assert_eq!(id, 123);
            assert_eq!(name, Some(s("party")));
        }
        _ => panic!("not custom"),
    }
    match parse_reaction_type("<:ok:77>") {
        ReactionSpec::Custom { animated, id, name } => {
            assert!(!animated);
            assert_eq!(id, 77);
            assert_eq!(name, Some(s("ok")));
        }
        _ => panic!("not custom"),
    }
    assert!(matches!(parse_reaction_type("555"), ReactionSpec::Custom { animated: false, id: 555, name: None }));
    assert!(matches!(parse_reaction_type("\u{1F44D}"), ReactionSpec::Unicode(ref u) if u == "\u{1F44D}"));
}

#[test]
fn response_goes_to_redirect_channel_when_numeric() {
    assert_eq!(response_channel(&Some(s("42")), 7), 42);
    assert_eq!(response_channel(&Some(s("general")), 7), 7);
    assert_eq!(response_channel(&None, 7), 7);
    assert_eq!(mention_ids(&vec![s("1"), s("x"), s("3")]), vec![1, 3]);
    assert_eq!(total_shard_count(None), 1);
    assert_eq!(total_shard_count(Some(4)), 4);
}

#[test]
fn slash_trigger_follows_subcommands() {
    let opts = vec![CommandOption {
        name: s("group"),
        value: OptionValue::SubCommandGroup(vec![CommandOption {
            name: s("add"),
            value: OptionValue::SubCommand(vec![
                CommandOption { name: s("user"), value: OptionValue::Scalar(s("1")) },
                CommandOption { name: s("why"), value: OptionValue::Scalar(s("spam")) },
            ]),
        }]),
    }];
    let (trigger, map, list) = build_command_trigger_and_options("mod", &opts);
    assert_eq!(trigger, "/mod group add");
    assert_eq!(list, vec![s("1"), s("spam")]);
    assert_eq!(map.get("why"), Some(s("spam")));
    let flat = vec![
        CommandOption { name: s("a"), value: OptionValue::Scalar(s("x")) },
        CommandOption { name: s("a"), value: OptionValue::Scalar(s("y")) },
    ];
    let (trigger, map, list) = build_command_trigger_and_options("ping", &flat);
    assert_eq!(trigger, "/ping");
    assert_eq!(map.get("a"), Some(s("y")));
    assert_eq!(list.len(), 2);
}

#[test]
fn text_map_reads_back_last_write() {
    let mut m = TextMap::new();
    assert_eq!(m.get("k"), None);
    m.insert(s("k"), s("1"));
    m.insert(s("j"), s("2"));
    m.insert(s("k"), s("3"));
    assert_eq!(m.get("k"), Some(s("3")));
    assert_eq!(m.get("j"), Some(s("2")));
}

#[test]
fn handlers_are_found_by_trigger() {
    let reg = CommandRegistry {
        commands: vec![
            cmd("onInteraction{confirm}", CommandKind::Interaction, CommandScope::Guild),
            cmd("onInteraction", CommandKind::Interaction, CommandScope::Guild),
            cmd("onMessage", CommandKind::Event, CommandScope::Guild),
            cmd("onInteraction{odd}", CommandKind::Prefix, CommandScope::Guild),
        ],
    };
    assert_eq!(interaction_handler(&reg, "confirm"), Some(0));
    assert_eq!(interaction_handler(&reg, "other"), Some(1));
    assert_eq!(interaction_handler(&reg, "odd"), None);
    assert_eq!(event_command(&reg, "onMessage"), Some(2));
    assert_eq!(event_command(&reg, "onInteraction"), None);
}

#[test]
fn registration_plan_groups_subcommands() {
    let cmds = vec![
        cmd("/ping", CommandKind::Slash, CommandScope::Both),
        cmd("/mod ban", CommandKind::SubSlash, CommandScope::Guild),
        cmd("/mod", CommandKind::Slash, CommandScope::Guild),
        cmd("/mod kick", CommandKind::SubSlash, CommandScope::Guild),
        cmd("/cfg set", CommandKind::SubSlash, CommandScope::Guild),
        cmd("!hi", CommandKind::Prefix, CommandScope::Global),
    ];
    let plan = registration_plan(&cmds, Some(9));
    assert_eq!(plan.slash.len(), 2);
    assert_eq!(plan.slash[0].name, "ping");
    assert_eq!(plan.slash[0].guild, Some(9));
    assert!(plan.slash[0].global);
    assert_eq!(plan.slash[1].index, 2);
    assert!(!plan.slash[1].global);
    let names: Vec<String> = plan.parents.iter().map(|p| p.name.clone()).collect();
    assert_eq!(names, vec![s("mod"), s("cfg")]);
    assert_eq!(plan.parents[0].slash, Some(2));
    let subs: Vec<(usize, String)> = plan.parents[0].subs.iter().map(|x| (x.index, x.name.clone())).collect();
    assert_eq!(subs, vec![(1, s("ban")), (3, s("kick"))]);
    assert_eq!(plan.parents[1].slash, None);
    let no_guild = registration_plan(&cmds, None);
    assert!(no_guild.parents.is_empty());
    assert_eq!(no_guild.slash[1].guild, None);
}

#[test]
fn presence_follows_config_names() {
    assert!(matches!(presence_status(Some("dnd")), StatusKind::DoNotDisturb));
    assert!(matches!(presence_status(Some("away")), StatusKind::Online));
    assert!(matches!(presence_status(None), StatusKind::Online));
    assert!(matches!(activity_kind("watching"), ActivityKind::Watching));
    assert!(matches!(activity_kind("dancing"), ActivityKind::Playing));
}

#[test]
fn messages_are_planned_and_matched() {
    let m = MessageInfo {
        id: 5,
        author_id: 10,
        author_is_bot: false,
        username: s("ann"),
        channel_id: 20,
        guild_id: Some(30),
        content: s("  !rank  see https://x.y "),
    };
    let p = message_plan(&m).unwrap();
    assert_eq!(p.content, "!rank  see https://x.y");
    assert_eq!(p.spam_event, Some(true));
    assert_eq!(p.on_message.trigger, "onMessage");
    assert_eq!(p.on_message.context.author_id, "10");
    assert_eq!(p.on_message.context.guild_id, "30");
    assert_eq!(p.on_message.context.trigger_message_id, Some(s("5")));
    let bot = MessageInfo { author_is_bot: true, ..m };
    assert!(message_plan(&bot).is_none());
    assert!(trigger_matches("!rank", "!rank"));
    assert!(trigger_matches("!rank me", "!rank"));
    assert!(trigger_matches("!ranking", "!rank"));
    assert!(!trigger_matches("!ran", "!rank"));
    assert!(needs_resolution("ZgetVar{prefix}hi"));
    assert!(!needs_resolution("!hi"));
    assert!(!has_link("no links here"));
    let dm = MessageInfo { id: 1, author_id: 2, author_is_bot: false, username: s("b"), channel_id: 3, guild_id: None, content: s("!x") };
    let c = prefix_context(&dm, "!x", s("!x"), "X cmd");
    assert_eq!(c.guild_id, "");
    assert_eq!(c.trigger, Some(s("!x")));
    assert_eq!(c.command_name, "X cmd");
}

#[test]
fn trigger_variables_are_resolved_with_a_cache() {
    let pattern = ReferencePattern::new();
    let mut cache = TextMap::new();
    let mut r = Resolution::new(s("ZgetServerVar{prefix}rank and ZgetServerVar{prefix}"));
    match r.next_step(&cache, &pattern) {
        ResolveStep::Lookup { function, name } => {
            assert_eq!(function, "getServerVar");
            assert_eq!(name, "prefix");
        }
        ResolveStep::Done => panic!("no lookup"),
    }
    r.supply(&mut cache, s("!"));
    assert_eq!(r.text, "!rank and !");
    assert!(matches!(r.next_step(&cache, &pattern), ResolveStep::Done));
    assert_eq!(cache.get("getServerVar:prefix"), Some(s("!")));
    let mut again = Resolution::new(s("ZgetServerVar{prefix}x"));
    assert!(matches!(again.next_step(&cache, &pattern), ResolveStep::Done));
    assert_eq!(again.text, "!x");
    let mut plain = Resolution::new(s("Zget{a} ZgetVar{} Zunknown{x}"));
    assert!(matches!(plain.next_step(&cache, &pattern), ResolveStep::Done));
    assert_eq!(plain.text, "Zget{a} ZgetVar{} Zunknown{x}");
}

#[test]
fn trigger_resolution_stops_after_five_references() {
    let pattern = ReferencePattern::new();
    let mut cache = TextMap::new();
    cache.insert(s("getVar:a"), s("ZgetVar{a}"));
    let mut r = Resolution::new(s("ZgetVar{a}"));
    assert!(matches!(r.next_step(&cache, &pattern), ResolveStep::Done));
    assert_eq!(r.iterations, 5);
    assert_eq!(r.text, "ZgetVar{a}");
}

#[test]
fn guild_update_runs_boost_events_first() {
    let runs = event_runs(BotEvent::GuildUpdate { guild_id: 7, old_boosts: Some(Some(2)), new_boosts: Some(3) });
    let names: Vec<String> = runs.iter().map(|r| r.trigger.clone()).collect();
    assert_eq!(names, vec![s("onBoostAdd"), s("onGuildUpdate")]);
    assert_eq!(runs[0].context.guild_id, "7");
    let runs = event_runs(BotEvent::GuildUpdate { guild_id: 7, old_boosts: Some(None), new_boosts: Some(0) });
    assert_eq!(runs.len(), 1);
    let runs = event_runs(BotEvent::GuildUpdate { guild_id: 7, old_boosts: Some(Some(4)), new_boosts: Some(1) });
    assert_eq!(runs[0].trigger, "onBoostRemove");
    let runs = event_runs(BotEvent::GuildUpdate { guild_id: 7, old_boosts: None, new_boosts: Some(9) });
    assert_eq!(runs.len(), 1);
}

#[test]
fn event_contexts_carry_event_values() {
    let runs = event_runs(BotEvent::MessageEdit {
        new: None,
        old: Some(MessageRef { id: 1, channel_id: 2, guild_id: Some(3), content: s("old") }),
        content: Some(s("event")),
    });
    assert_eq!(runs[0].context.message, "old");
    assert_eq!(runs[0].context.channel_id, "2");
    assert_eq!(runs[0].context.trigger_message_id, Some(s("1")));
    let runs = event_runs(BotEvent::MessageEdit { new: None, old: None, content: None });
    assert_eq!(runs[0].context.message, "");
    assert_eq!(runs[0].context.trigger_message_id, None);
    let runs = event_runs(BotEvent::ReactionAdd(ReactionRef { user_id: None, channel_id: 4, guild_id: None, message_id: 5 }));
    assert_eq!(runs[0].trigger, "onReactionAdd");
    assert_eq!(runs[0].context.author_id, "");
    let runs = event_runs(BotEvent::MemberJoin(MemberRef { guild_id: 1, user_id: 2, username: s("u") }));
    assert_eq!(runs[0].context.username, "u");
    assert_eq!(runs[0].context.command_name, "onMemberJoin");
    let runs = event_runs(BotEvent::ChannelDelete(ChannelRef { guild_id: 1, channel_id: 8 }));
    assert_eq!(runs[0].context.trigger_message_id, Some(s("8")));
    assert!(event_runs(BotEvent::BotJoin { guild_id: 1, is_new: None }).is_empty());
    assert_eq!(event_runs(BotEvent::BotJoin { guild_id: 1, is_new: Some(true) })[0].trigger, "onBotJoin");
}

#[test]
fn interaction_replies_follow_the_run() {
    let mut data = empty_response();
    assert!(matches!(command_reply(&data).kind, ReplyKind::Nothing));
    assert!(matches!(component_reply(&data).kind, ReplyKind::Acknowledge));
    assert!(matches!(modal_reply(&data).kind, ReplyKind::Acknowledge));
    data.output = vec![s("a"), s("b")];
    data.ephemeral = true;
    let r = command_reply(&data);
    assert!(matches!(r.kind, ReplyKind::Message));
    assert_eq!(r.content, Some(s("a\nb")));
    assert!(r.ephemeral);
    data.errors = vec![s("boom")];
    assert_eq!(modal_reply(&data).content, Some(s("boom")));
    data.components.update_message = true;
    let r = component_reply(&data);
    assert!(matches!(r.kind, ReplyKind::UpdateMessage));
    assert!(!r.ephemeral);
    data.components.deferred = true;
    assert!(matches!(component_reply(&data).kind, ReplyKind::Acknowledge));
}

#[test]
fn channel_messages_pick_their_channel() {
    let mut data = empty_response();
    assert!(message_reply(&data, 1).is_none());
    data.output = vec![s("hi")];
    data.should_reply = true;
    let m = message_reply(&data, 1).unwrap();
    assert_eq!(m.channel_id, 1);
    assert!(m.reply);
    data.use_channel = Some(s("99"));
    let m = message_reply(&data, 1).unwrap();
    assert_eq!(m.channel_id, 99);
    assert!(!m.reply);
    data.use_channel = Some(s("nope"));
    assert_eq!(event_message(&data, "5").unwrap().channel_id, 5);
    assert!(event_message(&data, "").is_none());
}

#[test]
fn modal_inputs_cut_lengths() {
    let modal = ModalData {
        modal_id: s("m"),
        title: s("t"),
        fields: vec![ModalFieldData {
            field_id: s("f"),
            label: s("l"),
            style: s("paragraph"),
            min_length: Some(70000),
            max_length: Some(10),
            required: true,
            placeholder: None,
            value: None,
        }],
    };
    let inputs = modal_inputs(&modal);
    assert!(inputs[0].paragraph);
    assert_eq!(inputs[0].min_length, Some(70000u32 as u16));
    assert_eq!(inputs[0].max_length, Some(10));
    let _unused: HashMap<String, String> = HashMap::new();
}

#[test]
fn only_the_first_invoked_prefix_command_runs() {
    let triggers = vec![s("!help"), s("!rank"), s("!ran")];
    assert_eq!(zbr::bot::message::first_invoked("!rank me", &triggers), Some(1));
    assert_eq!(zbr::bot::message::first_invoked("!ranking", &triggers), Some(1));
    assert_eq!(zbr::bot::message::first_invoked("!ra", &triggers), None);
    assert_eq!(zbr::bot::message::first_invoked("!random", &triggers), Some(2));
}
