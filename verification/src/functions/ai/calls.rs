//! What the AI functions share: reading their arguments, describing the Discord
//! context, and turning a reply into a function result.
use vstd::prelude::*;
use super::helpers::{reply_spec, unknown_key_text, ChatRequest, HttpOutcome};
use crate::args::nonempty_arg_spec;
use crate::context::{is_error, DiscordContext, FnOutput};
use crate::decimal::{decimal, parse_unsigned_spec};
use crate::error_messages::{expected_integer_text, expected_number_text, required_text};
use crate::json::{json_quoted, json_string};
use crate::text::{join_spec, starts_with_spec};

verus! {

/// The temperature of a request.
pub enum Temperature {
    /// None is sent.
    Unset,
    /// Zero, for classification-like requests.
    Zero,
    /// The argument's text, which the caller has found to be a number.
    Given(String),
}

/// A chat request and its temperature.
pub struct ChatCall {
    pub request: ChatRequest,
    pub temperature: Temperature,
}

/// The generation settings of a chat body: the temperature's JSON text and the
/// output limit, each where there is one; nothing where there is neither.
pub open spec fn generation_config_text(temperature: Option<Seq<char>>, max_tokens: Option<u32>) -> Seq<char> {
    match (temperature, max_tokens) {
        (None, None) => Seq::empty(),
        (Some(t), None) => ",\"generationConfig\":{\"temperature\":"@ + t + "}"@,
        (None, Some(m)) => ",\"generationConfig\":{\"maxOutputTokens\":"@ + decimal(m as nat) + "}"@,
        (Some(t), Some(m)) => ",\"generationConfig\":{\"temperature\":"@ + t + ",\"maxOutputTokens\":"@
            + decimal(m as nat) + "}"@,
    }
}

/// The JSON body of a chat request: the user's message, the system instruction
/// where there is one, then the generation settings where there are any.
pub open spec fn chat_body_text(
    user: Seq<char>,
    system: Option<Seq<char>>,
    temperature: Option<Seq<char>>,
    max_tokens: Option<u32>,
) -> Seq<char> {
    "{\"contents\":[{\"role\":\"user\",\"parts\":[{\"text\":"@ + json_quoted(user) + "}]}]"@ + match system {
        Some(si) => ",\"systemInstruction\":{\"parts\":[{\"text\":"@ + json_quoted(si) + "}]}"@,
        None => Seq::empty(),
    } + generation_config_text(temperature, max_tokens) + "}"@
}

/// The temperature a call sends: none where it is unset, else `rendered`, the
/// JSON text of its number.
pub open spec fn sent_temperature(t: Temperature, rendered: Seq<char>) -> Option<Seq<char>> {
    match t {
        Temperature::Unset => None,
        _ => Some(rendered),
    }
}

/// The JSON body of a chat call; `rendered` is the JSON text of its
/// temperature's number (the caller writes the float).
pub fn chat_body(call: &ChatCall, rendered: &str) -> (r: String)
    ensures
        r@ == chat_body_text(
            call.request.user_prompt@,
            match call.request.system_instruction {
                Some(si) => Some(si@),
                None => None,
            },
            sent_temperature(call.temperature, rendered@),
            call.request.max_tokens,
        ),
{
    let req = &call.request;
    let mut r = String::from_str("{\"contents\":[{\"role\":\"user\",\"parts\":[{\"text\":");
    r.append(json_string(req.user_prompt.as_str()).as_str());
    r.append("}]}]");
    let ghost head = r@;
    match &req.system_instruction {
        Some(si) => {
            r.append(",\"systemInstruction\":{\"parts\":[{\"text\":");
            r.append(json_string(si.as_str()).as_str());
            r.append("}]}");
        },
        None => {},
    }
    let ghost with_system = r@;
    let has_temperature = match &call.temperature {
        Temperature::Unset => false,
        _ => true,
    };
    let ghost t = sent_temperature(call.temperature, rendered@);
    match req.max_tokens {
        None => if has_temperature {
            r.append(",\"generationConfig\":{\"temperature\":");
            r.append(rendered);
            r.append("}");
        },
        Some(m) => {
            if has_temperature {
                r.append(",\"generationConfig\":{\"temperature\":");
                r.append(rendered);
                r.append(",\"maxOutputTokens\":");
            } else {
                r.append(",\"generationConfig\":{\"maxOutputTokens\":");
            }
            r.append(crate::decimal::u64_text(m as u64).as_str());
            r.append("}");
        },
    }
    assert(r@ =~= with_system + generation_config_text(t, req.max_tokens));
    r.append("}");
    assert(r@ =~= chat_body_text(
        req.user_prompt@,
        match req.system_instruction {
            Some(si) => Some(si@),
            None => None,
        },
        t,
        req.max_tokens,
    ));
    r
}

/// The first message among `checks`, if any.
pub open spec fn first_refusal(checks: Seq<Option<Seq<char>>>) -> Option<Seq<char>>
    decreases checks.len(),
{
    if checks.len() == 0 {
        None
    } else if checks[0] is Some {
        checks[0]
    } else {
        first_refusal(checks.drop_first())
    }
}

/// The error for a missing or empty required argument `i` named `name`.
pub open spec fn required_refusal(args: Seq<String>, i: int, name: Seq<char>) -> Option<Seq<char>> {
    if nonempty_arg_spec(args, i) is None {
        Some(required_text((i + 1) as nat, name))
    } else {
        None
    }
}

/// The error for a maxTokens argument `i` that is not a `u32`.
pub open spec fn max_tokens_refusal(args: Seq<String>, i: int) -> Option<Seq<char>> {
    match nonempty_arg_spec(args, i) {
        Some(s) => if parse_unsigned_spec(s, u32::MAX as nat) is None {
            Some(expected_integer_text((i + 1) as nat, "maxTokens"@, s))
        } else {
            None
        },
        None => None,
    }
}

/// The error for a temperature argument `i` that is not a number;
/// `temperature_ok` tells whether it parses as one.
pub open spec fn temperature_refusal(args: Seq<String>, i: int, temperature_ok: bool) -> Option<
    Seq<char>,
> {
    match nonempty_arg_spec(args, i) {
        Some(s) => if !temperature_ok {
            Some(expected_number_text((i + 1) as nat, "temperature"@, s))
        } else {
            None
        },
        None => None,
    }
}

/// The error for an API key (argument 0) of no known provider.
pub open spec fn key_refusal(args: Seq<String>) -> Option<Seq<char>> {
    match nonempty_arg_spec(args, 0) {
        Some(k) => if starts_with_spec(k, "AIza"@) || starts_with_spec(k, "AQ"@) {
            None
        } else {
            Some(unknown_key_text())
        },
        None => None,
    }
}

/// Argument `i`, or the empty text where it is missing or empty.
pub open spec fn optional_arg(args: Seq<String>, i: int) -> Seq<char> {
    match nonempty_arg_spec(args, i) {
        Some(s) => s,
        None => Seq::empty(),
    }
}

/// The maxTokens argument `i` as a number, where it is given.
pub open spec fn max_tokens_of(args: Seq<String>, i: int) -> Option<nat> {
    match nonempty_arg_spec(args, i) {
        Some(s) => parse_unsigned_spec(s, u32::MAX as nat),
        None => None,
    }
}

/// The temperature that argument `i` gives.
pub open spec fn temperature_matches(t: Temperature, args: Seq<String>, i: int) -> bool {
    match nonempty_arg_spec(args, i) {
        Some(s) => t matches Temperature::Given(x) && x@ == s,
        None => t is Unset,
    }
}

pub open spec fn u32_option(r: Option<u32>) -> Option<nat> {
    match r {
        Some(v) => Some(v as nat),
        None => None,
    }
}

/// The function's output for a reply: its text, transformed by `f`, or the error.
pub open spec fn reply_output(o: FnOutput, function: Seq<char>, reply: Result<Seq<char>, Seq<char>>, text: spec_fn(Seq<char>) -> Seq<char>) -> bool {
    match reply {
        Ok(t) => o matches FnOutput::Text(x) && x@ == text(t),
        Err(e) => is_error(o, function, e),
    }
}

/// Argument `i` where present and not empty.
pub fn required_arg(args: &Vec<String>, i: usize, function: &str, name: &str) -> (r: Result<
    String,
    FnOutput,
>)
    requires
        i < usize::MAX,
    ensures
        match r {
            Ok(s) => nonempty_arg_spec(args@, i as int) == Some(s@),
            Err(o) => nonempty_arg_spec(args@, i as int) is None && is_error(
                o,
                function@,
                required_text((i + 1) as nat, name@),
            ),
        },
{
    match crate::args::nonempty_arg(args, i) {
        Some(s) => Ok(s),
        None => {
            let m = crate::error_messages::required(i + 1, name);
            Err(FnOutput::error(function, m.as_str()))
        },
    }
}

/// Argument `i`, or the empty text.
pub fn optional_arg_of(args: &Vec<String>, i: usize) -> (r: String)
    ensures
        r@ == optional_arg(args@, i as int),
{
    match crate::args::nonempty_arg(args, i) {
        Some(s) => s,
        None => String::new(),
    }
}

/// The maxTokens argument `i`, where given.
pub fn max_tokens_arg(args: &Vec<String>, i: usize, function: &str) -> (r: Result<
    Option<u32>,
    FnOutput,
>)
    requires
        i < usize::MAX,
    ensures
        match r {
            Ok(m) => max_tokens_refusal(args@, i as int) is None && u32_option(m) == max_tokens_of(
                args@,
                i as int,
            ),
            Err(o) => max_tokens_refusal(args@, i as int) matches Some(t) && is_error(
                o,
                function@,
                t,
            ),
        },
{
    match crate::args::nonempty_arg(args, i) {
        Some(s) => {
            let v = crate::text::chars_of(s.as_str());
            match crate::decimal::parse_unsigned(v.as_slice(), 0xffff_ffff) {
                Some(n) => Ok(Some(n as u32)),
                None => {
                    let m = crate::error_messages::expected_integer(i + 1, "maxTokens", s.as_str());
                    Err(FnOutput::error(function, m.as_str()))
                },
            }
        },
        None => Ok(None),
    }
}

/// The temperature argument `i`; `temperature_ok` tells whether its text is a
/// number.
pub fn temperature_arg(args: &Vec<String>, i: usize, function: &str, temperature_ok: bool) -> (r:
    Result<Temperature, FnOutput>)
    requires
        i < usize::MAX,
    ensures
        match r {
            Ok(t) => temperature_refusal(args@, i as int, temperature_ok) is None
                && temperature_matches(t, args@, i as int),
            Err(o) => temperature_refusal(args@, i as int, temperature_ok) matches Some(t)
                && is_error(o, function@, t),
        },
{
    match crate::args::nonempty_arg(args, i) {
        Some(s) => if temperature_ok {
            Ok(Temperature::Given(s))
        } else {
            let m = crate::error_messages::expected_number(i + 1, "temperature", s.as_str());
            Err(FnOutput::error(function, m.as_str()))
        },
        None => Ok(Temperature::Unset),
    }
}

/// Checks that the API key belongs to a known provider.
pub fn check_provider(api_key: &str, function: &str) -> (r: Result<(), FnOutput>)
    ensures
        match r {
            Ok(_) => starts_with_spec(api_key@, "AIza"@) || starts_with_spec(api_key@, "AQ"@),
            Err(o) => !(starts_with_spec(api_key@, "AIza"@) || starts_with_spec(api_key@, "AQ"@))
                && is_error(o, function@, unknown_key_text()),
        },
{
    match super::helpers::detect_provider(api_key) {
        Ok(super::helpers::AiProvider::Gemini) => Ok(()),
        Err(e) => Err(FnOutput::error(function, e.as_str())),
    }
}

/// The reply's text as the function's output, or its error.
pub fn text_output(function: &str, reply: HttpOutcome) -> (r: FnOutput)
    ensures
        reply_output(r, function@, reply_spec(reply), |t: Seq<char>| t),
{
    match super::helpers::read_reply(reply) {
        Ok(t) => FnOutput::Text(t),
        Err(e) => FnOutput::error(function, e.as_str()),
    }
}

/// The lines that describe the context: author, server, channel, message and
/// command, each where known; the trigger prefix too where `with_trigger`.
pub open spec fn context_lines(ctx: DiscordContext, with_trigger: bool) -> Seq<Seq<char>> {
    let l0: Seq<Seq<char>> = Seq::empty();
    let l1 = if ctx.author_id@.len() > 0 { l0.push("Author User ID: "@ + ctx.author_id@) } else { l0 };
    let l2 = if ctx.username@.len() > 0 { l1.push("Author Username: "@ + ctx.username@) } else { l1 };
    let l3 = if ctx.guild_id@.len() > 0 { l2.push("Server ID: "@ + ctx.guild_id@) } else { l2 };
    let l4 = if ctx.channel_id@.len() > 0 { l3.push("Channel ID: "@ + ctx.channel_id@) } else { l3 };
    let l5 = if ctx.message@.len() > 0 { l4.push("Message Content: "@ + ctx.message@) } else { l4 };
    let l6 = match ctx.trigger_message_id {
        Some(id) => l5.push("Message ID: "@ + id@),
        None => l5,
    };
    let l7 = if ctx.command_name@.len() > 0 { l6.push("Command: "@ + ctx.command_name@) } else { l6 };
    if with_trigger {
        match ctx.trigger {
            Some(t) => l7.push("Trigger Prefix: "@ + t@),
            None => l7,
        }
    } else {
        l7
    }
}

fn push_line(lines: &mut Vec<String>, label: &str, value: &str)
    ensures
        crate::text::views(final(lines)@) == crate::text::views(old(lines)@).push(label@ + value@),
{
    let mut l = String::from_str(label);
    l.append(value);
    let ghost before = crate::text::views(lines@);
    lines.push(l);
    assert(crate::text::views(lines@) =~= before.push(label@ + value@));
}

/// The lines that describe the context.
pub fn context_lines_of(ctx: &DiscordContext, with_trigger: bool) -> (r: Vec<String>)
    ensures
        crate::text::views(r@) == context_lines(*ctx, with_trigger),
{
    let mut lines: Vec<String> = Vec::new();
    assert(crate::text::views(lines@) =~= Seq::<Seq<char>>::empty());
    if !ctx.author_id.as_str().is_empty() {
        push_line(&mut lines, "Author User ID: ", ctx.author_id.as_str());
    }
    if !ctx.username.as_str().is_empty() {
        push_line(&mut lines, "Author Username: ", ctx.username.as_str());
    }
    if !ctx.guild_id.as_str().is_empty() {
        push_line(&mut lines, "Server ID: ", ctx.guild_id.as_str());
    }
    if !ctx.channel_id.as_str().is_empty() {
        push_line(&mut lines, "Channel ID: ", ctx.channel_id.as_str());
    }
    if !ctx.message.as_str().is_empty() {
        push_line(&mut lines, "Message Content: ", ctx.message.as_str());
    }
    match &ctx.trigger_message_id {
        Some(id) => push_line(&mut lines, "Message ID: ", id.as_str()),
        None => {},
    }
    if !ctx.command_name.as_str().is_empty() {
        push_line(&mut lines, "Command: ", ctx.command_name.as_str());
    }
    if with_trigger {
        match &ctx.trigger {
            Some(t) => push_line(&mut lines, "Trigger Prefix: ", t.as_str()),
            None => {},
        }
    }
    lines
}

/// The context description: a heading line, then the context lines.
pub open spec fn context_text(ctx: DiscordContext, heading: Seq<char>) -> Seq<char> {
    join_spec(seq![heading] + context_lines(ctx, true), "\n"@)
}

/// The context description under a heading line.
pub fn context_text_of(ctx: &DiscordContext, heading: &str) -> (r: String)
    ensures
        r@ == context_text(*ctx, heading@),
{
    let lines = context_lines_of(ctx, true);
    let mut all: Vec<String> = Vec::new();
    all.push(String::from_str(heading));
    let mut i: usize = 0;
    while i < lines.len()
        invariant
            i <= lines.len(),
            crate::text::views(all@) == seq![heading@] + crate::text::views(lines@).take(i as int),
        decreases lines.len() - i,
    {
        let ghost before = crate::text::views(all@);
        let l = lines[i].clone();
        all.push(l);
        assert(crate::text::views(all@) =~= before.push(lines@[i as int]@));
        assert(crate::text::views(lines@).take(i + 1) =~= crate::text::views(lines@).take(
            i as int,
        ).push(lines@[i as int]@));
        assert(crate::text::views(all@) =~= seq![heading@] + crate::text::views(lines@).take(i + 1));
        i = i + 1;
    }
    assert(crate::text::views(lines@).take(lines.len() as int) =~= crate::text::views(lines@));
    crate::text::join(&all, "\n")
}

} // verus!
