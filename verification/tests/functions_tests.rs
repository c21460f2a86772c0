use zbr::bot::commands::{CommandInfo, CommandKind, CommandRegistry, CommandScope};
use zbr::context::{DiscordContext, FnOutput};
use zbr::functions::actions::replyIn::{self, ReplyInStep};
use zbr::functions::audit::helpers::{parse_guild_id, parse_limit, select_entry};
use zbr::functions::audit::{auditCount, auditEntryTarget, auditLatest};
use zbr::functions::blacklists::{blackListServers, blackListUsers};
use zbr::functions::bot::botOwnerID::{self, OwnerStep};
use zbr::functions::bot::slashID::{self, SlashIdStep};
use zbr::functions::bot::{
    allMembersCount, botCommands, botTyping, commandName, commandsCount, currentShard, enabled,
    serverNames, slashCommandsCount, uptime,
};

fn s(x: &str) -> String {
    x.to_string()
}

fn args(v: &[&str]) -> Vec<String> {
    v.iter().map(|x| x.to_string()).collect()
}

fn text_of(o: &FnOutput) -> String {
    match o {
        FnOutput::Text(t) => t.clone(),
        FnOutput::Error(e) => format!("ERR:{}", e),
        FnOutput::UserError(e) => format!("USER:{}", e),
        FnOutput::Empty => s("EMPTY"),
        FnOutput::Reply => s("REPLY"),
    }
}

fn registry() -> CommandRegistry {
    let c = |t: &str, k: CommandKind| CommandInfo { trigger: s(t), name: s(t), description: s(""), kind: k, scope: CommandScope::Global };
    CommandRegistry {
        commands: vec![
            c("/ping", CommandKind::Slash),
            c("!hello", CommandKind::Prefix),
            c("/ban", CommandKind::Slash),
            c("onMessage", CommandKind::Event),
        ],
    }
}

#[test]
fn audit_guild_comes_from_argument_or_context() {
    let mut ctx = DiscordContext::default();
    ctx.guild_id = s(" 77 ");
    assert_eq!(parse_guild_id(&args(&[]), &ctx, "auditCount").ok(), Some(77));
    assert_eq!(parse_guild_id(&args(&["12"]), &ctx, "auditCount").ok(), Some(12));
    let e = parse_guild_id(&args(&["x"]), &ctx, "auditCount").err().unwrap();
    assert_eq!(text_of(&e), "ERR:ZauditCount - invalid guild ID");
    ctx.guild_id = s("   ");
    let e = parse_guild_id(&args(&[""]), &ctx, "auditCount").err().unwrap();
    assert_eq!(text_of(&e), "ERR:ZauditCount - guild ID not found");
}

#[test]
fn audit_limit_has_a_floor() {
    assert_eq!(parse_limit(&args(&["1", "50"]), 1), 50);
    assert_eq!(parse_limit(&args(&["1", "0"]), 1), 1);
    assert_eq!(parse_limit(&args(&["1", "300"]), 1), 1);
    assert_eq!(parse_limit(&args(&["1"]), 3), 3);
}

#[test]
fn audit_entries_are_selected_by_position_or_id() {
    let ids = vec![900u64, 800, 700];
    assert_eq!(select_entry(&ids, None, "f").ok(), Some(0));
    assert_eq!(select_entry(&ids, Some(&s(" ")), "f").ok(), Some(0));
    assert_eq!(select_entry(&ids, Some(&s("2")), "f").ok(), Some(1));
    assert_eq!(select_entry(&ids, Some(&s("0")), "f").ok(), Some(0));
    let e = select_entry(&ids, Some(&s("4")), "f").err().unwrap();
    assert_eq!(text_of(&e), "ERR:Zf - audit entry not found");
    let e = select_entry(&ids, Some(&s("abc")), "f").err().unwrap();
    assert_eq!(text_of(&e), "ERR:Zf - invalid audit entry selector");
    let e = select_entry(&vec![], None, "f").err().unwrap();
    assert_eq!(text_of(&e), "ERR:Zf - no audit entries found");
}

#[test]
fn audit_outputs() {
    let ctx = DiscordContext { guild_id: s("5"), ..DiscordContext::default() };
    let f = auditCount::run(&args(&["", "30"]), &ctx, true).ok().unwrap();
    assert_eq!((f.guild_id, f.limit), (5, 30));
    let e = auditCount::run(&args(&[]), &ctx, false).err().unwrap();
    assert_eq!(text_of(&e), "ERR:ZauditCount - no HTTP client available");
    assert_eq!(text_of(&auditCount::finish(12)), "12");
    assert!(auditLatest::latest(0).is_err());
    assert_eq!(auditLatest::latest(3).ok(), Some(0));
    assert_eq!(text_of(&auditEntryTarget::output(None)), "");
    assert_eq!(text_of(&auditEntryTarget::output(Some(42))), "42");
}

#[test]
fn command_name_falls_back_to_trigger() {
    let mut ctx = DiscordContext::default();
    assert_eq!(text_of(&commandName::run(vec![], &ctx)), "");
    ctx.trigger = Some(s("!hi"));
    assert_eq!(text_of(&commandName::run(vec![], &ctx)), "!hi");
    ctx.command_name = s("Hello");
    assert_eq!(text_of(&commandName::run(vec![], &ctx)), "Hello");
    ctx.shard_id = 3;
    assert_eq!(text_of(&currentShard::run(vec![], &ctx)), "3");
}

#[test]
fn enabled_checks_a_boolean() {
    let ctx = DiscordContext::default();
    assert_eq!(text_of(&enabled::run(args(&["true"]), &ctx)), "EMPTY");
    assert_eq!(
        text_of(&enabled::run(args(&["false"]), &ctx)),
        "USER:This command is currently disabled."
    );
    assert_eq!(text_of(&enabled::run(args(&["false", "Closed!"]), &ctx)), "USER:Closed!");
    assert_eq!(text_of(&enabled::run(args(&["false", ""]), &ctx)), "USER:");
    assert_eq!(
        text_of(&enabled::run(args(&["yes"]), &ctx)),
        "ERR:Zenabled - expected true or false in argument 1 (condition), got \"yes\""
    );
    assert_eq!(
        text_of(&enabled::run(args(&[]), &ctx)),
        "ERR:Zenabled - expected true or false in argument 1 (condition), got \"\""
    );
}

#[test]
fn uptime_shows_the_largest_units() {
    assert_eq!(uptime::uptime_of(5), "5s");
    assert_eq!(uptime::uptime_of(65), "1m 5s");
    assert_eq!(uptime::uptime_of(3600), "1h 0m 0s");
    assert_eq!(uptime::uptime_of(90061), "1d 1h 1m 1s");
    assert_eq!(text_of(&uptime::run(None)), "0s");
}

#[test]
fn server_names_are_limited_and_joined() {
    let names = args(&["A", "B", "C"]);
    assert_eq!(text_of(&serverNames::run(args(&[]), names.clone())), "A\nB\nC");
    assert_eq!(text_of(&serverNames::run(args(&["2", ", "]), names.clone())), "A, B");
    assert_eq!(text_of(&serverNames::run(args(&["0"]), names.clone())), "EMPTY");
    assert_eq!(text_of(&serverNames::run(args(&["x", ""]), names)), "A\nB\nC");
    assert_eq!(text_of(&allMembersCount::run(&vec![10, 20, 12])), "42");
}

#[test]
fn command_lists_are_sorted() {
    let reg = registry();
    assert_eq!(text_of(&botCommands::run(args(&[]), &reg)), "!hello\n/ban\n/ping\nonMessage");
    assert_eq!(text_of(&botCommands::run(args(&[", "]), &reg)), "!hello, /ban, /ping, onMessage");
    assert_eq!(text_of(&commandsCount::run(&reg)), "4");
    assert_eq!(text_of(&slashCommandsCount::run(&reg)), "2");
}

#[test]
fn slash_id_needs_a_slash_command() {
    let reg = registry();
    let mut ctx = DiscordContext::default();
    match slashID::run(args(&[]), &ctx, &reg, true) {
        SlashIdStep::Answer(o) => assert_eq!(
            text_of(&o),
            "ERR:ZslashID - requires command type to slash to be set first"
        ),
        _ => panic!("searched"),
    }
    ctx.trigger = Some(s("/ping"));
    ctx.command_name = s("ping");
    ctx.guild_id = s("12");
    match slashID::run(args(&[]), &ctx, &reg, true) {
        SlashIdStep::Search { name, guild_id } => {
            assert_eq!(name, "ping");
            assert_eq!(guild_id, Some(12));
        }
        _ => panic!("answered"),
    }
    match slashID::run(args(&["x"]), &ctx, &reg, false) {
        SlashIdStep::Answer(o) => assert_eq!(text_of(&o), ""),
        _ => panic!("searched"),
    }
    let cmds = vec![(s("a"), 1u64), (s("ping"), 2), (s("ping"), 3)];
    assert_eq!(slashID::find_id(&cmds, "ping"), Some(2));
    assert_eq!(text_of(&slashID::finish(None)), "");
}

#[test]
fn owner_is_remembered_and_fetched() {
    assert!(matches!(botOwnerID::run(Some(s("1")), false), OwnerStep::Answer(FnOutput::Text(ref t)) if t == "1"));
    assert!(matches!(botOwnerID::run(None, true), OwnerStep::Fetch));
    assert_eq!(botOwnerID::owner_of(Some(5), Some(6)), "5");
    assert_eq!(botOwnerID::owner_of(None, None), "");
    let (o, keep) = botOwnerID::finish(Ok(s("")));
    assert_eq!(text_of(&o), "");
    assert!(keep.is_none());
    let (o, _) = botOwnerID::finish(Err(s("401")));
    assert_eq!(text_of(&o), "ERR:ZbotOwnerID - failed to fetch application info (401)");
}

#[test]
fn typing_needs_a_numeric_channel() {
    let ctx = DiscordContext { channel_id: s("chan"), ..DiscordContext::default() };
    let e = botTyping::run(&ctx, true).err().unwrap();
    assert_eq!(
        text_of(&e),
        "ERR:ZbotTyping - expected snowflake ID in argument 1 (channel ID), got \"chan\""
    );
    assert_eq!(text_of(&botTyping::finish(Ok(()))), "EMPTY");
}

#[test]
fn reply_in_schedules_after_checks() {
    let ctx = DiscordContext { channel_id: s("3"), trigger_message_id: Some(s("4")), ..DiscordContext::default() };
    match replyIn::run(args(&["10s", "hi"]), &ctx, true, Ok(10)) {
        ReplyInStep::Schedule(d) => {
            assert_eq!(d.secs, 10);
            assert_eq!(replyIn::delivery_target(&d), Some((3, 4)));
        }
        _ => panic!("not scheduled"),
    }
    match replyIn::run(args(&["-5", "hi"]), &ctx, true, Err(s("bad"))) {
        ReplyInStep::Answer(o) => assert_eq!(text_of(&o), "ERR:ZreplyIn - duration must be at least 1 second"),
        _ => panic!("scheduled"),
    }
    match replyIn::run(args(&["soon", "hi"]), &ctx, true, Err(s("bad"))) {
        ReplyInStep::Answer(o) => assert_eq!(
            text_of(&o),
            "ERR:ZreplyIn - expected duration (e.g. 30s, 1m, 2h) in argument 1 (duration), got \"soon\""
        ),
        _ => panic!("scheduled"),
    }
    match replyIn::run(args(&["5"]), &ctx, true, Ok(5)) {
        ReplyInStep::Answer(o) => assert_eq!(text_of(&o), "ERR:ZreplyIn - argument 2 (content) is required"),
        _ => panic!("scheduled"),
    }
}

#[test]
fn blacklists_halt_listed_authors() {
    let ctx = DiscordContext { username: s("Eve"), guild_id: s("9"), ..DiscordContext::default() };
    assert_eq!(text_of(&blackListUsers::run(args(&["eve", "bob"]), &ctx)), "USER:You are blacklisted from using this command.");
    assert_eq!(text_of(&blackListUsers::run(args(&["bob", "Go away!"]), &ctx)), "EMPTY");
    assert_eq!(text_of(&blackListUsers::run(args(&["EVE", "Go away!"]), &ctx)), "USER:Go away!");
    assert_eq!(text_of(&blackListServers::run(args(&["1", "9", "not here"]), &ctx)), "USER:not here");
    assert_eq!(
        text_of(&blackListServers::run(args(&[]), &ctx)),
        "ERR:ZblackListServers - at least one server ID is required"
    );
}
