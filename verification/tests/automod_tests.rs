use zbr::context::FnOutput;
use zbr::functions::automod::helpers::{ActionSpec, KeywordPreset, TriggerSpec};
use zbr::functions::automod::{automodRule, automodRuleCreate, automodRuleDelete, automodRules};
use zbr::json::JsonValue;

fn s(x: &str) -> String {
    x.to_string()
}

fn args(v: &[&str]) -> Vec<String> {
    v.iter().map(|x| x.to_string()).collect()
}

fn obj(members: Vec<(&str, JsonValue)>) -> JsonValue {
    JsonValue::Object(members.into_iter().map(|(k, v)| (k.to_string(), v)).collect())
}

fn strs(v: &[&str]) -> JsonValue {
    JsonValue::Array(v.iter().map(|x| JsonValue::String(x.to_string())).collect())
}

fn err_text(o: FnOutput) -> String {
    match o {
        FnOutput::Error(e) => e,
        _ => panic!("not an error"),
    }
}

fn create_args() -> Vec<String> {
    args(&["123", "No links", "MessageSend", "{}", "[]", "true", "5, x,6", "7"])
}

#[test]
fn rule_creation_reads_documents() {
    let trigger = obj(vec![("type", JsonValue::String(s("KEYWORD"))), ("keyword_filter", strs(&["a", "b"]))]);
    let actions = vec![
        obj(vec![("type", JsonValue::String(s("block_message"))), ("custom_message", JsonValue::String(s("no")))]),
        obj(vec![("type", JsonValue::String(s("alert"))), ("channel_id", JsonValue::String(s("99")))]),
        obj(vec![("type", JsonValue::String(s("timeout"))), ("duration_seconds", JsonValue::Number(Some(60)))]),
    ];
    let plan = automodRuleCreate::run_documents(&create_args(), Ok(trigger), Ok(actions), true).ok().unwrap();
    assert_eq!(plan.guild_id, 123);
    assert_eq!(plan.name, "No links");
    assert!(plan.enabled);
    assert_eq!(plan.exempt_roles, vec![5, 6]);
    assert_eq!(plan.exempt_channels, vec![7]);
    match plan.trigger {
        TriggerSpec::Keyword { strings, regex_patterns, allow_list } => {
            assert_eq!(strings, vec![s("a"), s("b")]);
            assert!(regex_patterns.is_empty());
            assert!(allow_list.is_empty());
        }
        _ => panic!("wrong trigger"),
    }
    assert!(matches!(plan.actions[0], ActionSpec::BlockMessage { custom_message: Some(ref m) } if m == "no"));
    assert!(matches!(plan.actions[1], ActionSpec::Alert(99)));
    assert!(matches!(plan.actions[2], ActionSpec::Timeout(60)));
}

#[test]
fn rule_creation_reads_presets_and_mention_limits() {
    let trigger = obj(vec![("type", JsonValue::String(s("keyword_preset"))), ("presets", strs(&["Slurs", "other", "profanity"]))]);
    let plan = automodRuleCreate::run_documents(&create_args(), Ok(trigger), Ok(vec![]), true).ok().unwrap();
    match plan.trigger {
        TriggerSpec::KeywordPreset { presets, .. } => {
            assert_eq!(presets.len(), 2);
            assert!(matches!(presets[0], KeywordPreset::Slurs));
            assert!(matches!(presets[1], KeywordPreset::Profanity));
        }
        _ => panic!("wrong trigger"),
    }
    let trigger = obj(vec![("type", JsonValue::String(s("mention_spam")))]);
    let plan = automodRuleCreate::run_documents(&create_args(), Ok(trigger), Ok(vec![]), true).ok().unwrap();
    assert!(matches!(plan.trigger, TriggerSpec::MentionSpam { mention_total_limit: 5 }));
}

#[test]
fn rule_creation_errors_come_in_argument_order() {
    let spam = || Ok(obj(vec![("type", JsonValue::String(s("spam")))]));
    let e = automodRuleCreate::run_documents(&args(&["x"]), spam(), Ok(vec![]), true).err().unwrap();
    assert_eq!(err_text(e), "ZautomodRuleCreate - invalid guild ID");
    let e = automodRuleCreate::run_documents(&args(&["1", ""]), spam(), Ok(vec![]), true).err().unwrap();
    assert_eq!(err_text(e), "ZautomodRuleCreate - name is required");
    let e = automodRuleCreate::run_documents(&args(&["1", "n", "join"]), spam(), Ok(vec![]), true).err().unwrap();
    assert_eq!(err_text(e), "ZautomodRuleCreate - eventType must be 'messagesend'");
    let bad = Ok(obj(vec![("type", JsonValue::String(s("Flood")))]));
    let e = automodRuleCreate::run_documents(&create_args(), bad, Ok(vec![]), true).err().unwrap();
    assert_eq!(
        err_text(e),
        "ZautomodRuleCreate - unknown trigger type: 'flood' (expected keyword, spam, keyword_preset, or mention_spam)"
    );
    let e = automodRuleCreate::run_documents(&create_args(), Err(s("EOF while parsing")), Ok(vec![]), true).err().unwrap();
    assert_eq!(err_text(e), "ZautomodRuleCreate - invalid trigger JSON: EOF while parsing");
    let alert = vec![obj(vec![("type", JsonValue::String(s("alert")))])];
    let e = automodRuleCreate::run_documents(&create_args(), spam(), Ok(alert), true).err().unwrap();
    assert_eq!(err_text(e), "ZautomodRuleCreate - alert action requires channel_id");
    let e = automodRuleCreate::run_documents(&args(&["1", "n", "messagesend", "", "", "yes"]), spam(), Ok(vec![]), true).err().unwrap();
    assert_eq!(err_text(e), "ZautomodRuleCreate - enabled must be true or false");
    let e = automodRuleCreate::run_documents(&create_args(), spam(), Ok(vec![]), false).err().unwrap();
    assert_eq!(err_text(e), "ZautomodRuleCreate - no HTTP client available");
}

#[test]
fn rule_lookups_check_ids() {
    assert_eq!(automodRule::run(&args(&["1", "2"]), true).ok(), Some((1, 2)));
    assert_eq!(err_text(automodRule::run(&args(&["1", "x"]), true).err().unwrap()), "ZautomodRule - invalid rule ID");
    assert_eq!(automodRuleDelete::run(&args(&["1", "2"]), true).ok(), Some((1, 2)));
    assert_eq!(automodRules::run(&args(&[]), "55", true).ok(), Some(55));
    assert_eq!(automodRules::run(&args(&[""]), "123", true).ok(), Some(123));
    assert_eq!(
        err_text(automodRules::run(&args(&[""]), "123", false).err().unwrap()),
        "ZautomodRules - no HTTP client available"
    );
    assert_eq!(
        err_text(automodRules::run(&args(&[]), "", true).err().unwrap()),
        "ZautomodRules - argument 1 (guild ID) is required"
    );
    assert_eq!(
        err_text(automodRules::run(&args(&["abc"]), "", true).err().unwrap()),
        "ZautomodRules - expected snowflake ID in argument 1 (guild ID), got \"abc\""
    );
}

#[test]
fn rule_arguments_are_parsed_as_json_text() {
    let a = args(&[
        "123",
        "No links",
        "messagesend",
        "{\"type\":\"keyword\",\"keyword_filter\":[\"x\"]}",
        "[{\"type\":\"timeout\",\"duration_seconds\":30}]",
    ]);
    let plan = automodRuleCreate::run(&a, true).ok().unwrap();
    assert!(matches!(plan.trigger, TriggerSpec::Keyword { .. }));
    assert!(matches!(plan.actions.as_slice(), [ActionSpec::Timeout(30)]));
    let bad = args(&["123", "No links", "messagesend", "{oops", "[]"]);
    let e = err_text(automodRuleCreate::run(&bad, true).err().unwrap());
    assert!(e.starts_with("ZautomodRuleCreate - invalid trigger JSON: key must be a string"), "{}", e);
    assert!(automodRuleCreate::parse_actions("{}").is_err());
    assert!(matches!(automodRuleCreate::parse_trigger("{\"type\":\"spam\"}"), Ok(TriggerSpec::Spam)));
}
