//! ZautomodRuleCreate{guildID;name;eventType;triggerJSON;actionsJSON;enabled?;exemptRoles?;exemptChannels?}
//! Creates an auto-moderation rule. eventType: "messagesend". exemptRoles and
//! exemptChannels are comma-separated IDs.
use vstd::prelude::*;
use super::helpers::{
    actions_match, actions_refusal, trigger_refusal, trigger_result, ActionSpec, Dialect,
    TriggerSpec,
};
use crate::args::{arg_or_empty_spec, arg_spec, id_list};
use crate::context::{is_error, FnOutput};
use crate::decimal::parse_unsigned_spec;
use crate::json::{json_array_document, json_document, parse_json, parse_json_array, JsonValue};
use crate::text::lowercase_of;

verus! {

/// A rule to create, read from the arguments.
pub struct CreatePlan {
    pub guild_id: u64,
    pub name: String,
    pub trigger: TriggerSpec,
    pub actions: Vec<ActionSpec>,
    pub enabled: bool,
    pub exempt_roles: Vec<u64>,
    pub exempt_channels: Vec<u64>,
}

/// The trigger document as the rule creation reads it.
pub fn read_trigger(parsed: Result<JsonValue, String>) -> (r: Result<TriggerSpec, String>)
    ensures
        match parsed {
            Err(e) => r matches Err(m) && m@ == super::helpers::json_error_text(
                Dialect::Create,
                "trigger"@,
                e@,
            ),
            Ok(v) => trigger_result(r, v, Dialect::Create),
        },
        match r {
            Err(m) => trigger_refusal(parsed, Dialect::Create) == Some(m@),
            Ok(_) => trigger_refusal(parsed, Dialect::Create) is None,
        },
{
    super::helpers::parse_trigger(parsed, Dialect::Create)
}

/// The action list document as the rule creation reads it.
pub fn read_actions(parsed: Result<Vec<JsonValue>, String>) -> (r: Result<Vec<ActionSpec>, String>)
    ensures
        match r {
            Err(m) => actions_refusal(parsed, Dialect::Create) == Some(m@),
            Ok(list) => actions_refusal(parsed, Dialect::Create) is None && actions_match(
                list@,
                parsed->Ok_0@,
            ),
        },
{
    super::helpers::parse_actions(parsed, Dialect::Create)
}

/// Parses the trigger JSON text and reads it as the rule creation does.
pub fn parse_trigger(json_str: &str) -> (r: Result<TriggerSpec, String>)
    ensures
        match json_document(json_str@) {
            Err(e) => r matches Err(m) && m@ == super::helpers::json_error_text(
                Dialect::Create,
                "trigger"@,
                e@,
            ),
            Ok(v) => trigger_result(r, v, Dialect::Create),
        },
        match r {
            Err(m) => trigger_refusal(json_document(json_str@), Dialect::Create) == Some(m@),
            Ok(_) => trigger_refusal(json_document(json_str@), Dialect::Create) is None,
        },
{
    read_trigger(parse_json(json_str))
}

/// Parses the actions JSON text and reads it as the rule creation does.
pub fn parse_actions(json_str: &str) -> (r: Result<Vec<ActionSpec>, String>)
    ensures
        match r {
            Err(m) => actions_refusal(json_array_document(json_str@), Dialect::Create) == Some(m@),
            Ok(list) => actions_refusal(json_array_document(json_str@), Dialect::Create) is None
                && actions_match(list@, json_array_document(json_str@)->Ok_0@),
        },
{
    read_actions(parse_json_array(json_str))
}

/// The lower-cased event type argument (empty where it is missing).
pub open spec fn event_name(args: Seq<String>) -> Seq<char> {
    match arg_spec(args, 2) {
        Some(a) => lowercase_of(a),
        None => Seq::empty(),
    }
}

/// The enabled argument, "true" where it is missing.
pub open spec fn enabled_text(args: Seq<String>) -> Seq<char> {
    match arg_spec(args, 5) {
        Some(a) => a,
        None => "true"@,
    }
}

/// The IDs of a list argument, none where it is missing.
pub open spec fn id_arg(args: Seq<String>, i: int) -> Seq<nat> {
    match arg_spec(args, i) {
        Some(a) => id_list(a),
        None => Seq::empty(),
    }
}

/// Why the creation is refused before any request is made, if it is, in the order
/// the arguments are checked.
pub open spec fn refusal(
    args: Seq<String>,
    trigger_doc: Result<JsonValue, String>,
    actions_doc: Result<Vec<JsonValue>, String>,
    has_http: bool,
) -> Option<Seq<char>> {
    if parse_unsigned_spec(arg_or_empty_spec(args, 0), u64::MAX as nat) is None {
        Some("invalid guild ID"@)
    } else if arg_or_empty_spec(args, 1).len() == 0 {
        Some("name is required"@)
    } else if event_name(args) != "messagesend"@ {
        Some("eventType must be 'messagesend'"@)
    } else if trigger_refusal(trigger_doc, Dialect::Create) is Some {
        trigger_refusal(trigger_doc, Dialect::Create)
    } else if actions_refusal(actions_doc, Dialect::Create) is Some {
        actions_refusal(actions_doc, Dialect::Create)
    } else if enabled_text(args) != "true"@ && enabled_text(args) != "false"@ {
        Some("enabled must be true or false"@)
    } else if !has_http {
        Some("no HTTP client available"@)
    } else {
        None
    }
}

fn refuse(message: &str) -> (r: Result<CreatePlan, FnOutput>)
    ensures
        r matches Err(o) && is_error(o, "automodRuleCreate"@, message@),
{
    Err(FnOutput::error("automodRuleCreate", message))
}

/// What a creation call gives for the documents of arguments 4 and 5: the
/// error of the first refusal, or the rule read from the arguments.
pub open spec fn create_outcome(
    args: Seq<String>,
    trigger_doc: Result<JsonValue, String>,
    actions_doc: Result<Vec<JsonValue>, String>,
    has_http: bool,
    r: Result<CreatePlan, FnOutput>,
) -> bool {
    match r {
        Err(o) => refusal(args, trigger_doc, actions_doc, has_http) matches Some(m) && is_error(
            o,
            "automodRuleCreate"@,
            m,
        ),
        Ok(p) => {
            &&& refusal(args, trigger_doc, actions_doc, has_http) is None
            &&& parse_unsigned_spec(arg_or_empty_spec(args, 0), u64::MAX as nat) == Some(
                p.guild_id as nat,
            )
            &&& p.name@ == arg_or_empty_spec(args, 1)
            &&& trigger_result(Ok(p.trigger), trigger_doc->Ok_0, Dialect::Create)
            &&& actions_match(p.actions@, actions_doc->Ok_0@)
            &&& p.enabled == (enabled_text(args) == "true"@)
            &&& p.exempt_roles@.map_values(|x: u64| x as nat) == id_arg(args, 6)
            &&& p.exempt_channels@.map_values(|x: u64| x as nat) == id_arg(args, 7)
        },
    }
}

/// The rule that a call asks to create, or the error it is refused with, for
/// the given JSON documents of arguments 4 and 5; `has_http` tells whether an
/// HTTP client is available.
pub fn run_documents(
    args: &Vec<String>,
    trigger_doc: Result<JsonValue, String>,
    actions_doc: Result<Vec<JsonValue>, String>,
    has_http: bool,
) -> (r: Result<CreatePlan, FnOutput>)
    ensures
        create_outcome(args@, trigger_doc, actions_doc, has_http, r),
{
    let guild_id_str = crate::args::arg_or_empty(args, 0);
    let name = crate::args::arg_or_empty(args, 1);
    let event_type = if args.len() > 2 {
        crate::text::to_lowercase(args[2].as_str())
    } else {
        String::new()
    };
    let guild_id = match crate::decimal::parse_u64(guild_id_str.as_str()) {
        Some(id) => id,
        None => {
            return refuse("invalid guild ID");
        },
    };
    if name.as_str().is_empty() {
        return refuse("name is required");
    }
    if !crate::text::str_eq(event_type.as_str(), "messagesend") {
        return refuse("eventType must be 'messagesend'");
    }
    let trigger = match read_trigger(trigger_doc) {
        Ok(t) => t,
        Err(e) => {
            return refuse(e.as_str());
        },
    };
    let actions = match read_actions(actions_doc) {
        Ok(a) => a,
        Err(e) => {
            return refuse(e.as_str());
        },
    };
    let enabled_arg = if args.len() > 5 {
        args[5].clone()
    } else {
        String::from_str("true")
    };
    let enabled = if crate::text::str_eq(enabled_arg.as_str(), "true") {
        true
    } else if crate::text::str_eq(enabled_arg.as_str(), "false") {
        false
    } else {
        return refuse("enabled must be true or false");
    };
    let exempt_roles = if args.len() > 6 {
        crate::args::parse_id_list(args[6].as_str())
    } else {
        Vec::new()
    };
    let exempt_channels = if args.len() > 7 {
        crate::args::parse_id_list(args[7].as_str())
    } else {
        Vec::new()
    };
    assert(exempt_roles@.map_values(|x: u64| x as nat) =~= id_arg(args@, 6));
    assert(exempt_channels@.map_values(|x: u64| x as nat) =~= id_arg(args@, 7));
    if !has_http {
        return refuse("no HTTP client available");
    }
    Ok(CreatePlan { guild_id, name, trigger, actions, enabled, exempt_roles, exempt_channels })
}

/// The rule that a call asks to create, or the error it is refused with:
/// arguments 4 and 5 are parsed as JSON; `has_http` tells whether an HTTP
/// client is available.
pub fn run(args: &Vec<String>, has_http: bool) -> (r: Result<CreatePlan, FnOutput>)
    ensures
        create_outcome(
            args@,
            json_document(arg_or_empty_spec(args@, 3)),
            json_array_document(arg_or_empty_spec(args@, 4)),
            has_http,
            r,
        ),
{
    let trigger_text = crate::args::arg_or_empty(args, 3);
    let actions_text = crate::args::arg_or_empty(args, 4);
    run_documents(args, parse_json(trigger_text.as_str()), parse_json_array(actions_text.as_str()), has_http)
}

} // verus!
