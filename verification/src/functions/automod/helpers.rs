//! Reading auto-moderation triggers and actions from their JSON form.
use vstd::prelude::*;
use crate::decimal::parse_unsigned_spec;
use crate::json::{json_get, json_str, json_u64, string_items, JsonValue};
use crate::text::lowercase_of;

verus! {

/// The two error wordings: that of rule creation and that of rule editing.
pub enum Dialect {
    Create,
    Edit,
}

/// A keyword preset list.
pub enum KeywordPreset {
    Profanity,
    SexualContent,
    Slurs,
}

/// What sets off a rule.
pub enum TriggerSpec {
    Keyword { strings: Vec<String>, regex_patterns: Vec<String>, allow_list: Vec<String> },
    Spam,
    KeywordPreset { presets: Vec<KeywordPreset>, allow_list: Vec<String> },
    MentionSpam { mention_total_limit: u8 },
}

/// What a rule does when it is set off.
pub enum ActionSpec {
    BlockMessage { custom_message: Option<String> },
    /// Alert in the channel with this ID.
    Alert(u64),
    /// Time the member out for this many seconds.
    Timeout(u64),
}

pub open spec fn texts(s: Seq<String>) -> Seq<Seq<char>> {
    s.map_values(|x: String| x@)
}

/// The lower-cased `type` member of an object (empty where it is not a string).
pub open spec fn kind_of(v: JsonValue) -> Seq<char> {
    lowercase_of(
        match json_str(json_get(v, "type"@)) {
            Some(s) => s,
            None => ""@,
        },
    )
}

/// The presets that preset names stand for, case-insensitively; unknown names
/// are skipped.
pub open spec fn presets_named(names: Seq<Seq<char>>) -> Seq<KeywordPreset>
    decreases names.len(),
{
    if names.len() == 0 {
        Seq::empty()
    } else {
        let prev = presets_named(names.drop_last());
        let n = lowercase_of(names.last());
        if n == "profanity"@ {
            prev.push(KeywordPreset::Profanity)
        } else if n == "sexual_content"@ {
            prev.push(KeywordPreset::SexualContent)
        } else if n == "slurs"@ {
            prev.push(KeywordPreset::Slurs)
        } else {
            prev
        }
    }
}

/// The text of a JSON syntax error for the document `what` ("trigger" or "actions").
pub open spec fn json_error_text(d: Dialect, what: Seq<char>, err: Seq<char>) -> Seq<char> {
    match d {
        Dialect::Create => "invalid "@ + what + " JSON: "@ + err,
        Dialect::Edit => "failed to "@ + ("parse "@ + what + " JSON"@) + " ("@ + err + ")"@,
    }
}

/// The text of the error for an unknown trigger type.
pub open spec fn unknown_trigger_text(d: Dialect, t: Seq<char>) -> Seq<char> {
    match d {
        Dialect::Create => "unknown trigger type: '"@ + t
            + "' (expected keyword, spam, keyword_preset, or mention_spam)"@,
        Dialect::Edit => "expected one of ("@ + "keyword, spam, keyword_preset, mention_spam"@
            + ") in argument "@ + crate::decimal::decimal(5) + " ("@ + "trigger type"@ + "), got \""@
            + t + "\""@,
    }
}

/// The text of the error for an unknown action type.
pub open spec fn unknown_action_text(d: Dialect, t: Seq<char>) -> Seq<char> {
    match d {
        Dialect::Create => "unknown action type: '"@ + t
            + "' (expected block_message, alert, or timeout)"@,
        Dialect::Edit => "expected one of ("@ + "block_message, alert, timeout"@ + ") in argument "@
            + crate::decimal::decimal(6) + " ("@ + "action type"@ + "), got \""@ + t + "\""@,
    }
}

/// `r` is what the trigger object `v` describes.
pub open spec fn trigger_result(r: Result<TriggerSpec, String>, v: JsonValue, d: Dialect) -> bool {
    let t = kind_of(v);
    if t == "keyword"@ {
        r matches Ok(TriggerSpec::Keyword { strings, regex_patterns, allow_list }) && texts(strings@)
            == string_items(json_get(v, "keyword_filter"@)) && texts(regex_patterns@)
            == string_items(json_get(v, "regex_patterns"@)) && texts(allow_list@) == string_items(
            json_get(v, "allow_list"@),
        )
    } else if t == "spam"@ {
        r matches Ok(TriggerSpec::Spam)
    } else if t == "keyword_preset"@ {
        r matches Ok(TriggerSpec::KeywordPreset { presets, allow_list }) && presets@
            == presets_named(string_items(json_get(v, "presets"@))) && texts(allow_list@)
            == string_items(json_get(v, "allow_list"@))
    } else if t == "mention_spam"@ {
        r matches Ok(TriggerSpec::MentionSpam { mention_total_limit }) && mention_total_limit == (
        match json_u64(json_get(v, "mention_total_limit"@)) {
            Some(n) => n,
            None => 5u64,
        }) as u8
    } else {
        r matches Err(e) && e@ == unknown_trigger_text(d, t)
    }
}

/// Why the action object `v` is refused, if it is.
pub open spec fn action_error(v: JsonValue, d: Dialect) -> Option<Seq<char>> {
    let t = kind_of(v);
    if t == "block_message"@ {
        None
    } else if t == "alert"@ {
        match json_str(json_get(v, "channel_id"@)) {
            None => Some("alert action requires channel_id"@),
            Some(c) => if parse_unsigned_spec(c, u64::MAX as nat) is None {
                Some("invalid channel_id: '"@ + c + "'"@)
            } else {
                None
            },
        }
    } else if t == "timeout"@ {
        if json_u64(json_get(v, "duration_seconds"@)) is None {
            Some("timeout action requires duration_seconds"@)
        } else {
            None
        }
    } else {
        Some(unknown_action_text(d, t))
    }
}

/// `a` is the action that the accepted action object `v` describes.
pub open spec fn action_matches(a: ActionSpec, v: JsonValue) -> bool {
    let t = kind_of(v);
    if t == "block_message"@ {
        a matches ActionSpec::BlockMessage { custom_message } && match custom_message {
            Some(m) => json_str(json_get(v, "custom_message"@)) == Some(m@),
            None => json_str(json_get(v, "custom_message"@)) is None,
        }
    } else if t == "alert"@ {
        a matches ActionSpec::Alert(id) && parse_unsigned_spec(
            json_str(json_get(v, "channel_id"@))->0,
            u64::MAX as nat,
        ) == Some(id as nat)
    } else {
        a matches ActionSpec::Timeout(secs) && json_u64(json_get(v, "duration_seconds"@)) == Some(
            secs,
        )
    }
}

/// The error of the first refused action among `items`, if any.
pub open spec fn first_action_error(items: Seq<JsonValue>, d: Dialect) -> Option<Seq<char>>
    decreases items.len(),
{
    if items.len() == 0 {
        None
    } else {
        match action_error(items[0], d) {
            Some(e) => Some(e),
            None => first_action_error(items.drop_first(), d),
        }
    }
}

/// Why a trigger document is refused, if it is.
pub open spec fn trigger_refusal(doc: Result<JsonValue, String>, d: Dialect) -> Option<Seq<char>> {
    match doc {
        Err(e) => Some(json_error_text(d, "trigger"@, e@)),
        Ok(v) => {
            let t = kind_of(v);
            if t == "keyword"@ || t == "spam"@ || t == "keyword_preset"@ || t == "mention_spam"@ {
                None
            } else {
                Some(unknown_trigger_text(d, t))
            }
        },
    }
}

/// Why an action list document is refused, if it is.
pub open spec fn actions_refusal(doc: Result<Vec<JsonValue>, String>, d: Dialect) -> Option<
    Seq<char>,
> {
    match doc {
        Err(e) => Some(json_error_text(d, "actions"@, e@)),
        Ok(items) => first_action_error(items@, d),
    }
}

/// `list` holds, in order, the actions that `items` describe.
pub open spec fn actions_match(list: Seq<ActionSpec>, items: Seq<JsonValue>) -> bool {
    list.len() == items.len() && forall|i: int|
        0 <= i < items.len() ==> action_matches(#[trigger] list[i], items[i])
}

fn lower_type(v: &JsonValue) -> (r: String)
    ensures
        r@ == kind_of(*v),
{
    match crate::json::as_str(crate::json::get(v, "type")) {
        Some(s) => crate::text::to_lowercase(s.as_str()),
        None => crate::text::to_lowercase(""),
    }
}

fn presets_from(names: &Vec<String>) -> (r: Vec<KeywordPreset>)
    ensures
        r@ == presets_named(texts(names@)),
{
    let mut r: Vec<KeywordPreset> = Vec::new();
    let mut i: usize = 0;
    while i < names.len()
        invariant
            i <= names.len(),
            r@ == presets_named(texts(names@).take(i as int)),
        decreases names.len() - i,
    {
        assert(texts(names@).take(i + 1).drop_last() =~= texts(names@).take(i as int));
        let n = crate::text::to_lowercase(names[i].as_str());
        if crate::text::str_eq(n.as_str(), "profanity") {
            r.push(KeywordPreset::Profanity);
        } else if crate::text::str_eq(n.as_str(), "sexual_content") {
            r.push(KeywordPreset::SexualContent);
        } else if crate::text::str_eq(n.as_str(), "slurs") {
            r.push(KeywordPreset::Slurs);
        }
        i = i + 1;
    }
    assert(texts(names@).take(names.len() as int) =~= texts(names@));
    r
}

fn json_error(d: &Dialect, what: &str, err: &str) -> (r: String)
    ensures
        r@ == json_error_text(*d, what@, err@),
{
    match d {
        Dialect::Create => {
            let mut r = String::from_str("invalid ");
            r.append(what);
            r.append(" JSON: ");
            r.append(err);
            assert(r@ =~= json_error_text(*d, what@, err@));
            r
        },
        Dialect::Edit => {
            let mut a = String::from_str("parse ");
            a.append(what);
            a.append(" JSON");
            let r = crate::error_messages::action_failed_reason(a.as_str(), err);
            assert(r@ =~= json_error_text(*d, what@, err@));
            r
        },
    }
}

/// The trigger that a trigger document describes; the parse error of a document
/// that is not JSON, or an error for an unknown trigger type.
pub fn parse_trigger(parsed: Result<JsonValue, String>, d: Dialect) -> (r: Result<TriggerSpec, String>)
    ensures
        match parsed {
            Err(e) => r matches Err(m) && m@ == json_error_text(d, "trigger"@, e@),
            Ok(v) => trigger_result(r, v, d),
        },
        match r {
            Err(m) => trigger_refusal(parsed, d) == Some(m@),
            Ok(_) => trigger_refusal(parsed, d) is None,
        },
{
    let v = match parsed {
        Err(e) => {
            return Err(json_error(&d, "trigger", e.as_str()));
        },
        Ok(v) => v,
    };
    let t = lower_type(&v);
    if crate::text::str_eq(t.as_str(), "keyword") {
        let strings = crate::json::string_items_of(crate::json::get(&v, "keyword_filter"));
        let regex_patterns = crate::json::string_items_of(crate::json::get(&v, "regex_patterns"));
        let allow_list = crate::json::string_items_of(crate::json::get(&v, "allow_list"));
        Ok(TriggerSpec::Keyword { strings, regex_patterns, allow_list })
    } else if crate::text::str_eq(t.as_str(), "spam") {
        Ok(TriggerSpec::Spam)
    } else if crate::text::str_eq(t.as_str(), "keyword_preset") {
        let names = crate::json::string_items_of(crate::json::get(&v, "presets"));
        let presets = presets_from(&names);
        let allow_list = crate::json::string_items_of(crate::json::get(&v, "allow_list"));
        Ok(TriggerSpec::KeywordPreset { presets, allow_list })
    } else if crate::text::str_eq(t.as_str(), "mention_spam") {
        let limit: u64 = match crate::json::get(&v, "mention_total_limit") {
            Some(JsonValue::Number(Some(n))) => *n,
            _ => 5,
        };
        Ok(TriggerSpec::MentionSpam { mention_total_limit: limit as u8 })
    } else {
        match d {
            Dialect::Create => {
                let mut m = String::from_str("unknown trigger type: '");
                m.append(t.as_str());
                m.append("' (expected keyword, spam, keyword_preset, or mention_spam)");
                assert(m@ =~= unknown_trigger_text(d, t@));
                Err(m)
            },
            Dialect::Edit => {
                let m = crate::error_messages::expected_choice(
                    5,
                    "trigger type",
                    "keyword, spam, keyword_preset, mention_spam",
                    t.as_str(),
                );
                assert(m@ =~= unknown_trigger_text(d, t@));
                Err(m)
            },
        }
    }
}

/// The action that one action object describes, or why it is refused.
fn parse_action(v: &JsonValue, d: &Dialect) -> (r: Result<ActionSpec, String>)
    ensures
        match r {
            Ok(a) => action_error(*v, *d) is None && action_matches(a, *v),
            Err(e) => action_error(*v, *d) == Some(e@),
        },
{
    let t = lower_type(v);
    if crate::text::str_eq(t.as_str(), "block_message") {
        let custom_message = match crate::json::as_str(crate::json::get(v, "custom_message")) {
            Some(s) => Some(s.clone()),
            None => None,
        };
        Ok(ActionSpec::BlockMessage { custom_message })
    } else if crate::text::str_eq(t.as_str(), "alert") {
        match crate::json::as_str(crate::json::get(v, "channel_id")) {
            None => Err(String::from_str("alert action requires channel_id")),
            Some(c) => match crate::decimal::parse_u64(c.as_str()) {
                Some(id) => Ok(ActionSpec::Alert(id)),
                None => {
                    let mut m = String::from_str("invalid channel_id: '");
                    m.append(c.as_str());
                    m.append("'");
                    assert(m@ =~= "invalid channel_id: '"@ + c@ + "'"@);
                    Err(m)
                },
            },
        }
    } else if crate::text::str_eq(t.as_str(), "timeout") {
        match crate::json::get(v, "duration_seconds") {
            Some(JsonValue::Number(Some(secs))) => Ok(ActionSpec::Timeout(*secs)),
            _ => Err(String::from_str("timeout action requires duration_seconds")),
        }
    } else {
        match d {
            Dialect::Create => {
                let mut m = String::from_str("unknown action type: '");
                m.append(t.as_str());
                m.append("' (expected block_message, alert, or timeout)");
                assert(m@ =~= unknown_action_text(*d, t@));
                Err(m)
            },
            Dialect::Edit => {
                let m = crate::error_messages::expected_choice(
                    6,
                    "action type",
                    "block_message, alert, timeout",
                    t.as_str(),
                );
                assert(m@ =~= unknown_action_text(*d, t@));
                Err(m)
            },
        }
    }
}

/// The actions that an action list describes; the parse error of a list that is
/// not a JSON array, or the error of the first refused action.
pub fn parse_actions(parsed: Result<Vec<JsonValue>, String>, d: Dialect) -> (r: Result<
    Vec<ActionSpec>,
    String,
>)
    ensures
        match r {
            Err(m) => actions_refusal(parsed, d) == Some(m@),
            Ok(list) => actions_refusal(parsed, d) is None && actions_match(
                list@,
                parsed->Ok_0@,
            ),
        },
{
    let items = match parsed {
        Err(e) => {
            return Err(json_error(&d, "actions", e.as_str()));
        },
        Ok(items) => items,
    };
    let ghost all = items@;
    let mut list: Vec<ActionSpec> = Vec::new();
    let mut i: usize = 0;
    assert(all.subrange(0, all.len() as int) =~= all);
    while i < items.len()
        invariant
            i <= items.len(),
            all == items@,
            parsed == Ok::<Vec<JsonValue>, String>(items),
            first_action_error(all, d) == first_action_error(
                all.subrange(i as int, all.len() as int),
                d,
            ),
            list@.len() == i,
            forall|k: int| 0 <= k < i ==> action_matches(#[trigger] list@[k], items@[k]),
        decreases items.len() - i,
    {
        assert(all.subrange(i as int, all.len() as int)[0] == all[i as int]);
        assert(all.subrange(i as int, all.len() as int).drop_first() =~= all.subrange(
            i + 1,
            all.len() as int,
        ));
        match parse_action(&items[i], &d) {
            Ok(a) => {
                list.push(a);
            },
            Err(e) => {
                return Err(e);
            },
        }
        i = i + 1;
    }
    Ok(list)
}

// ── Laws ────────────────────────────────────────────────────────────────

/// Each known preset name, in any case, adds its own preset after those of the
/// names before it: `profanity` Profanity, `sexual_content` SexualContent,
/// `slurs` Slurs; any other name adds nothing.
pub proof fn law_preset_names(names: Seq<Seq<char>>, n: Seq<char>)
    ensures
        lowercase_of(n) == "profanity"@ ==> presets_named(names.push(n)) == presets_named(names).push(
            KeywordPreset::Profanity,
        ),
        lowercase_of(n) == "sexual_content"@ ==> presets_named(names.push(n)) == presets_named(
            names,
        ).push(KeywordPreset::SexualContent),
        lowercase_of(n) == "slurs"@ ==> presets_named(names.push(n)) == presets_named(names).push(
            KeywordPreset::Slurs,
        ),
        lowercase_of(n) != "profanity"@ && lowercase_of(n) != "sexual_content"@ && lowercase_of(n)
            != "slurs"@ ==> presets_named(names.push(n)) == presets_named(names),
{
    reveal_strlit("profanity");
    assert("profanity"@.len() == 9 && "profanity"@[0] == 'p' && "profanity"@[1] == 'r');
    reveal_strlit("sexual_content");
    assert("sexual_content"@.len() == 14 && "sexual_content"@[0] == 's' && "sexual_content"@[1] == 'e');
    reveal_strlit("slurs");
    assert("slurs"@.len() == 5 && "slurs"@[0] == 's' && "slurs"@[1] == 'l');
    assert(names.push(n).drop_last() =~= names);
    assert(names.push(n).last() == n);
}

/// A trigger object's lower-cased type decides the trigger: `keyword`,
/// `spam`, `keyword_preset` and `mention_spam` give their own kind (a mention
/// limit of 5 where none is given), any other type is refused, and the
/// document is refused exactly then.
pub proof fn law_trigger_kinds(r: Result<TriggerSpec, String>, v: JsonValue, d: Dialect)
    requires
        trigger_result(r, v, d),
    ensures
        kind_of(v) == "keyword"@ ==> r matches Ok(TriggerSpec::Keyword { .. }),
        kind_of(v) == "spam"@ ==> r matches Ok(TriggerSpec::Spam),
        kind_of(v) == "keyword_preset"@ ==> r matches Ok(TriggerSpec::KeywordPreset { .. }),
        kind_of(v) == "mention_spam"@ ==> r matches Ok(TriggerSpec::MentionSpam { .. }),
        kind_of(v) == "mention_spam"@ && json_get(v, "mention_total_limit"@) is None ==> (r matches Ok(
            TriggerSpec::MentionSpam { mention_total_limit },
        ) && mention_total_limit == 5),
        r is Err <==> trigger_refusal(Ok(v), d) is Some,
        r is Err <==> !(kind_of(v) == "keyword"@ || kind_of(v) == "spam"@ || kind_of(v)
            == "keyword_preset"@ || kind_of(v) == "mention_spam"@),
{
    reveal_strlit("keyword");
    assert("keyword"@.len() == 7 && "keyword"@[0] == 'k' && "keyword"@[1] == 'e');
    reveal_strlit("spam");
    assert("spam"@.len() == 4 && "spam"@[0] == 's' && "spam"@[1] == 'p');
    reveal_strlit("keyword_preset");
    assert("keyword_preset"@.len() == 14 && "keyword_preset"@[0] == 'k' && "keyword_preset"@[1] == 'e');
    reveal_strlit("mention_spam");
    assert("mention_spam"@.len() == 12 && "mention_spam"@[0] == 'm' && "mention_spam"@[1] == 'e');
}

/// An accepted action object's lower-cased type decides the action:
/// `block_message`, `alert` and `timeout` give their own kind; every other type
/// is refused.
pub proof fn law_action_kinds(a: ActionSpec, v: JsonValue, d: Dialect)
    requires
        action_error(v, d) is None,
        action_matches(a, v),
    ensures
        kind_of(v) == "block_message"@ || kind_of(v) == "alert"@ || kind_of(v) == "timeout"@,
        kind_of(v) == "block_message"@ ==> a matches ActionSpec::BlockMessage { .. },
        kind_of(v) == "alert"@ ==> a matches ActionSpec::Alert(_),
        kind_of(v) == "timeout"@ ==> a matches ActionSpec::Timeout(_),
{
    reveal_strlit("block_message");
    assert("block_message"@.len() == 13 && "block_message"@[0] == 'b' && "block_message"@[1] == 'l');
    reveal_strlit("alert");
    assert("alert"@.len() == 5 && "alert"@[0] == 'a' && "alert"@[1] == 'l');
    reveal_strlit("timeout");
    assert("timeout"@.len() == 7 && "timeout"@[0] == 't' && "timeout"@[1] == 'i');
}

} // verus!
