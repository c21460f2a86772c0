//! ZautomodRuleEdit{guildID;ruleID;name?;eventType?;triggerJSON?;actionsJSON?;enabled?;exemptRoles?;exemptChannels?}
//! Edits an auto-moderation rule. An empty argument or `!unchanged` leaves that
//! part of the rule as it is.
use vstd::prelude::*;
use super::helpers::{
    actions_match, actions_refusal, trigger_refusal, trigger_result, ActionSpec, Dialect,
    TriggerSpec,
};
use crate::args::{id_list, nonempty_arg_spec};
use crate::context::{is_error, FnOutput};
use crate::decimal::{decimal, parse_unsigned_spec};
use crate::json::{json_array_document, json_document, parse_json, parse_json_array, JsonValue};
use crate::text::lowercase_of;

verus! {

/// The changes to make to a rule, read from the arguments; `None` leaves a part
/// as it is.
pub struct EditPlan {
    pub guild_id: u64,
    pub rule_id: u64,
    pub name: Option<String>,
    /// Whether the event type is set (to message sending, the only one).
    pub message_send: bool,
    pub trigger: Option<TriggerSpec>,
    pub actions: Option<Vec<ActionSpec>>,
    pub enabled: Option<bool>,
    pub exempt_roles: Option<Vec<u64>>,
    pub exempt_channels: Option<Vec<u64>>,
}

/// The trigger document as the rule edit reads it.
pub fn read_trigger(parsed: Result<JsonValue, String>) -> (r: Result<TriggerSpec, String>)
    ensures
        match parsed {
            Err(e) => r matches Err(m) && m@ == super::helpers::json_error_text(
                Dialect::Edit,
                "trigger"@,
                e@,
            ),
            Ok(v) => trigger_result(r, v, Dialect::Edit),
        },
        match r {
            Err(m) => trigger_refusal(parsed, Dialect::Edit) == Some(m@),
            Ok(_) => trigger_refusal(parsed, Dialect::Edit) is None,
        },
{
    super::helpers::parse_trigger(parsed, Dialect::Edit)
}

/// The action list document as the rule edit reads it.
pub fn read_actions(parsed: Result<Vec<JsonValue>, String>) -> (r: Result<Vec<ActionSpec>, String>)
    ensures
        match r {
            Err(m) => actions_refusal(parsed, Dialect::Edit) == Some(m@),
            Ok(list) => actions_refusal(parsed, Dialect::Edit) is None && actions_match(
                list@,
                parsed->Ok_0@,
            ),
        },
{
    super::helpers::parse_actions(parsed, Dialect::Edit)
}

/// Parses the trigger JSON text and reads it as the rule edit does.
pub fn parse_trigger(json_str: &str) -> (r: Result<TriggerSpec, String>)
    ensures
        match json_document(json_str@) {
            Err(e) => r matches Err(m) && m@ == super::helpers::json_error_text(
                Dialect::Edit,
                "trigger"@,
                e@,
            ),
            Ok(v) => trigger_result(r, v, Dialect::Edit),
        },
        match r {
            Err(m) => trigger_refusal(json_document(json_str@), Dialect::Edit) == Some(m@),
            Ok(_) => trigger_refusal(json_document(json_str@), Dialect::Edit) is None,
        },
{
    read_trigger(parse_json(json_str))
}

/// Parses the actions JSON text and reads it as the rule edit does.
pub fn parse_actions(json_str: &str) -> (r: Result<Vec<ActionSpec>, String>)
    ensures
        match r {
            Err(m) => actions_refusal(json_array_document(json_str@), Dialect::Edit) == Some(m@),
            Ok(list) => actions_refusal(json_array_document(json_str@), Dialect::Edit) is None
                && actions_match(list@, json_array_document(json_str@)->Ok_0@),
        },
{
    read_actions(parse_json_array(json_str))
}

/// Argument `i`, `!unchanged` where it is missing or empty.
pub open spec fn edit_arg(args: Seq<String>, i: int) -> Seq<char> {
    match nonempty_arg_spec(args, i) {
        Some(a) => a,
        None => "!unchanged"@,
    }
}

/// The event type argument, lower-cased; `!unchanged` where it is missing or empty.
pub open spec fn event_arg(args: Seq<String>) -> Seq<char> {
    match nonempty_arg_spec(args, 3) {
        Some(a) => lowercase_of(a),
        None => "!unchanged"@,
    }
}

/// An argument is left unchanged.
pub open spec fn unchanged(a: Seq<char>) -> bool {
    a == "!unchanged"@
}

/// The text of an `expected one of` error for argument `n`.
pub open spec fn choice_text(n: nat, name: Seq<char>, choices: Seq<char>, got: Seq<char>) -> Seq<
    char,
> {
    "expected one of ("@ + choices + ") in argument "@ + decimal(n) + " ("@ + name + "), got \""@
        + got + "\""@
}

/// The text of an `expected snowflake` error for argument `n`.
pub open spec fn snowflake_text(n: nat, name: Seq<char>, got: Seq<char>) -> Seq<char> {
    "expected snowflake ID in argument "@ + decimal(n) + " ("@ + name + "), got \""@ + got + "\""@
}

/// Why the edit is refused, if it is, in the order the arguments are checked.
pub open spec fn refusal(
    args: Seq<String>,
    trigger_doc: Result<JsonValue, String>,
    actions_doc: Result<Vec<JsonValue>, String>,
    has_http: bool,
) -> Option<Seq<char>> {
    let gid = match nonempty_arg_spec(args, 0) {
        Some(a) => a,
        None => Seq::empty(),
    };
    let rid = match nonempty_arg_spec(args, 1) {
        Some(a) => a,
        None => Seq::empty(),
    };
    if parse_unsigned_spec(gid, u64::MAX as nat) is None {
        Some(snowflake_text(1, "guild ID"@, gid))
    } else if parse_unsigned_spec(rid, u64::MAX as nat) is None {
        Some(snowflake_text(2, "rule ID"@, rid))
    } else if !has_http {
        Some("no HTTP client available"@)
    } else if !unchanged(event_arg(args)) && event_arg(args) != "messagesend"@ {
        Some(choice_text(4, "eventType"@, "messagesend, !unchanged"@, event_arg(args)))
    } else if !unchanged(edit_arg(args, 4)) && trigger_refusal(trigger_doc, Dialect::Edit) is Some {
        trigger_refusal(trigger_doc, Dialect::Edit)
    } else if !unchanged(edit_arg(args, 5)) && actions_refusal(actions_doc, Dialect::Edit) is Some {
        actions_refusal(actions_doc, Dialect::Edit)
    } else if !unchanged(edit_arg(args, 6)) && edit_arg(args, 6) != "true"@ && edit_arg(args, 6)
        != "false"@ {
        Some(choice_text(7, "enabled"@, "true, false, !unchanged"@, edit_arg(args, 6)))
    } else {
        None
    }
}

fn refuse(message: &str) -> (r: Result<EditPlan, FnOutput>)
    ensures
        r matches Err(o) && is_error(o, "automodRuleEdit"@, message@),
{
    Err(FnOutput::error("automodRuleEdit", message))
}

fn edit_arg_of(args: &Vec<String>, i: usize) -> (r: String)
    ensures
        r@ == edit_arg(args@, i as int),
{
    match crate::args::nonempty_arg(args, i) {
        Some(a) => a,
        None => String::from_str("!unchanged"),
    }
}

fn id_text(args: &Vec<String>, i: usize) -> (r: String)
    ensures
        r@ == match nonempty_arg_spec(args@, i as int) {
            Some(a) => a,
            None => Seq::empty(),
        },
{
    match crate::args::nonempty_arg(args, i) {
        Some(a) => a,
        None => String::new(),
    }
}

/// What an edit call gives for the documents of arguments 5 and 6: the error
/// of the first refusal, or the changes read from the arguments.
pub open spec fn edit_outcome(
    args: Seq<String>,
    trigger_doc: Result<JsonValue, String>,
    actions_doc: Result<Vec<JsonValue>, String>,
    has_http: bool,
    r: Result<EditPlan, FnOutput>,
) -> bool {
    match r {
        Err(o) => refusal(args, trigger_doc, actions_doc, has_http) matches Some(m) && is_error(
            o,
            "automodRuleEdit"@,
            m,
        ),
        Ok(p) => {
            &&& refusal(args, trigger_doc, actions_doc, has_http) is None
            &&& parse_unsigned_spec(nonempty_arg_spec(args, 0)->0, u64::MAX as nat) == Some(
                p.guild_id as nat,
            )
            &&& parse_unsigned_spec(nonempty_arg_spec(args, 1)->0, u64::MAX as nat) == Some(
                p.rule_id as nat,
            )
            &&& match p.name {
                Some(n) => !unchanged(edit_arg(args, 2)) && n@ == edit_arg(args, 2),
                None => unchanged(edit_arg(args, 2)),
            }
            &&& p.message_send == !unchanged(event_arg(args))
            &&& match p.trigger {
                Some(t) => !unchanged(edit_arg(args, 4)) && trigger_result(
                    Ok(t),
                    trigger_doc->Ok_0,
                    Dialect::Edit,
                ),
                None => unchanged(edit_arg(args, 4)),
            }
            &&& match p.actions {
                Some(a) => !unchanged(edit_arg(args, 5)) && actions_match(
                    a@,
                    actions_doc->Ok_0@,
                ),
                None => unchanged(edit_arg(args, 5)),
            }
            &&& match p.enabled {
                Some(b) => !unchanged(edit_arg(args, 6)) && b == (edit_arg(args, 6)
                    == "true"@),
                None => unchanged(edit_arg(args, 6)),
            }
            &&& match p.exempt_roles {
                Some(ids) => !unchanged(edit_arg(args, 7)) && ids@.map_values(
                    |x: u64| x as nat,
                ) == id_list(edit_arg(args, 7)),
                None => unchanged(edit_arg(args, 7)),
            }
            &&& match p.exempt_channels {
                Some(ids) => !unchanged(edit_arg(args, 8)) && ids@.map_values(
                    |x: u64| x as nat,
                ) == id_list(edit_arg(args, 8)),
                None => unchanged(edit_arg(args, 8)),
            }
        },
    }
}

/// The changes that a call asks for, or the error it is refused with, for the
/// given JSON documents of arguments 5 and 6; `has_http` tells whether an HTTP
/// client is available.
pub fn run_documents(
    args: &Vec<String>,
    trigger_doc: Result<JsonValue, String>,
    actions_doc: Result<Vec<JsonValue>, String>,
    has_http: bool,
) -> (r: Result<EditPlan, FnOutput>)
    ensures
        edit_outcome(args@, trigger_doc, actions_doc, has_http, r),
{
    let gid = id_text(args, 0);
    let rid = id_text(args, 1);
    let guild_id = match crate::decimal::parse_u64(gid.as_str()) {
        Some(id) => id,
        None => {
            let m = crate::error_messages::expected_snowflake(1, "guild ID", gid.as_str());
            return refuse(m.as_str());
        },
    };
    let rule_id = match crate::decimal::parse_u64(rid.as_str()) {
        Some(id) => id,
        None => {
            let m = crate::error_messages::expected_snowflake(2, "rule ID", rid.as_str());
            return refuse(m.as_str());
        },
    };
    if !has_http {
        return refuse("no HTTP client available");
    }
    let name_arg = edit_arg_of(args, 2);
    let name = if crate::text::str_eq(name_arg.as_str(), "!unchanged") {
        None
    } else {
        Some(name_arg)
    };
    let event_type = match crate::args::nonempty_arg(args, 3) {
        Some(a) => crate::text::to_lowercase(a.as_str()),
        None => String::from_str("!unchanged"),
    };
    let message_send = if crate::text::str_eq(event_type.as_str(), "!unchanged") {
        false
    } else if crate::text::str_eq(event_type.as_str(), "messagesend") {
        true
    } else {
        let m = crate::error_messages::expected_choice(
            4,
            "eventType",
            "messagesend, !unchanged",
            event_type.as_str(),
        );
        return refuse(m.as_str());
    };
    let trigger_arg = edit_arg_of(args, 4);
    let trigger = if crate::text::str_eq(trigger_arg.as_str(), "!unchanged") {
        None
    } else {
        match read_trigger(trigger_doc) {
            Ok(t) => Some(t),
            Err(e) => {
                return refuse(e.as_str());
            },
        }
    };
    let actions_arg = edit_arg_of(args, 5);
    let actions = if crate::text::str_eq(actions_arg.as_str(), "!unchanged") {
        None
    } else {
        match read_actions(actions_doc) {
            Ok(a) => Some(a),
            Err(e) => {
                return refuse(e.as_str());
            },
        }
    };
    let enabled_arg = edit_arg_of(args, 6);
    let enabled = if crate::text::str_eq(enabled_arg.as_str(), "!unchanged") {
        None
    } else if crate::text::str_eq(enabled_arg.as_str(), "true") {
        Some(true)
    } else if crate::text::str_eq(enabled_arg.as_str(), "false") {
        Some(false)
    } else {
        let m = crate::error_messages::expected_choice(
            7,
            "enabled",
            "true, false, !unchanged",
            enabled_arg.as_str(),
        );
        return refuse(m.as_str());
    };
    let roles_arg = edit_arg_of(args, 7);
    let exempt_roles = if crate::text::str_eq(roles_arg.as_str(), "!unchanged") {
        None
    } else {
        Some(crate::args::parse_id_list(roles_arg.as_str()))
    };
    let channels_arg = edit_arg_of(args, 8);
    let exempt_channels = if crate::text::str_eq(channels_arg.as_str(), "!unchanged") {
        None
    } else {
        Some(crate::args::parse_id_list(channels_arg.as_str()))
    };
    Ok(
        EditPlan {
            guild_id,
            rule_id,
            name,
            message_send,
            trigger,
            actions,
            enabled,
            exempt_roles,
            exempt_channels,
        },
    )
}

/// The changes that a call asks for, or the error it is refused with:
/// arguments 5 and 6, where given, are parsed as JSON; `has_http` tells
/// whether an HTTP client is available.
pub fn run(args: &Vec<String>, has_http: bool) -> (r: Result<EditPlan, FnOutput>)
    ensures
        edit_outcome(
            args@,
            json_document(edit_arg(args@, 4)),
            json_array_document(edit_arg(args@, 5)),
            has_http,
            r,
        ),
{
    let trigger_text = edit_arg_of(args, 4);
    let actions_text = edit_arg_of(args, 5);
    run_documents(args, parse_json(trigger_text.as_str()), parse_json_array(actions_text.as_str()), has_http)
}

} // verus!
