//! ZreplyIn{duration;content}: replies to the triggering message after a
//! delay (the reply is lost if the bot restarts meanwhile).
use vstd::prelude::*;
use crate::args::arg_or_empty_spec;
use crate::context::{is_error, DiscordContext, FnOutput};
use crate::decimal::parse_unsigned_spec;
use crate::error_messages::{expected_duration_text, required_text};
use crate::text::{contains_spec, starts_with_spec, trim_start_spec};

verus! {

/// A reply to send later.
pub struct DelayedReply {
    pub secs: u64,
    pub channel_id: String,
    pub trigger_id: String,
    pub content: String,
}

/// What the function does.
pub enum ReplyInStep {
    /// It answers at once (an error).
    Answer(FnOutput),
    /// It schedules the reply and answers with nothing.
    Schedule(DelayedReply),
}

/// The error for a duration that did not parse: "at least 1 second" where the
/// parser said it must be greater than zero or the text is negative, else
/// that a duration was expected.
pub open spec fn duration_error(dur: Seq<char>, parse_error: Seq<char>) -> Seq<char> {
    if contains_spec(parse_error, "must be greater than zero"@) || starts_with_spec(
        trim_start_spec(dur),
        "-"@,
    ) {
        "duration must be at least 1 second"@
    } else {
        expected_duration_text(1, "duration"@, dur)
    }
}

/// The step for the arguments, the context, whether an HTTP client is
/// available, and what the duration parser gave for argument 0.
pub open spec fn step_spec(
    args: Seq<String>,
    ctx: DiscordContext,
    has_http: bool,
    parsed: Result<i64, String>,
    r: ReplyInStep,
) -> bool {
    let dur = arg_or_empty_spec(args, 0);
    let content = arg_or_empty_spec(args, 1);
    if dur.len() == 0 {
        r matches ReplyInStep::Answer(o) && is_error(o, "replyIn"@, required_text(1, "duration"@))
    } else if content.len() == 0 {
        r matches ReplyInStep::Answer(o) && is_error(o, "replyIn"@, required_text(2, "content"@))
    } else {
        match parsed {
            Err(e) => r matches ReplyInStep::Answer(o) && is_error(
                o,
                "replyIn"@,
                duration_error(dur, e@),
            ),
            Ok(s) => if !has_http {
                r matches ReplyInStep::Answer(o) && is_error(
                    o,
                    "replyIn"@,
                    "no HTTP client available"@,
                )
            } else {
                match ctx.trigger_message_id {
                    Some(id) if id@.len() > 0 => r matches ReplyInStep::Schedule(d) && d.secs == (s as u64)
                        && d.channel_id@ == ctx.channel_id@ && d.trigger_id@ == id@ && d.content@
                        == content,
                    _ => r matches ReplyInStep::Answer(o) && is_error(
                        o,
                        "replyIn"@,
                        "no trigger message available"@,
                    ),
                }
            },
        }
    }
}

/// Decides what to do; `parsed` is the duration parser's result for
/// argument 0.
pub fn run(args: Vec<String>, ctx: &DiscordContext, has_http: bool, parsed: Result<i64, String>) -> (r:
    ReplyInStep)
    ensures
        step_spec(args@, *ctx, has_http, parsed, r),
{
    let dur = crate::args::arg_or_empty(&args, 0);
    if dur.as_str().is_empty() {
        let m = crate::error_messages::required(1, "duration");
        return ReplyInStep::Answer(FnOutput::error("replyIn", m.as_str()));
    }
    let content = crate::args::arg_or_empty(&args, 1);
    if content.as_str().is_empty() {
        let m = crate::error_messages::required(2, "content");
        return ReplyInStep::Answer(FnOutput::error("replyIn", m.as_str()));
    }
    let secs = match parsed {
        Ok(s) => s as u64,
        Err(e) => {
            let ev = crate::text::chars_of(e.as_str());
            let gz = crate::text::chars_of("must be greater than zero");
            let dv = crate::text::chars_of(dur.as_str());
            let minus = crate::text::chars_of("-");
            let negative = crate::text::starts_with(
                crate::text::trim_start_of(dv.as_slice()).as_slice(),
                minus.as_slice(),
            );
            if crate::text::contains(ev.as_slice(), gz.as_slice()) || negative {
                return ReplyInStep::Answer(
                    FnOutput::error("replyIn", "duration must be at least 1 second"),
                );
            }
            let m = crate::error_messages::expected_duration(1, "duration", dur.as_str());
            return ReplyInStep::Answer(FnOutput::error("replyIn", m.as_str()));
        },
    };
    if !has_http {
        return ReplyInStep::Answer(FnOutput::error("replyIn", "no HTTP client available"));
    }
    match &ctx.trigger_message_id {
        Some(id) => if !id.as_str().is_empty() {
            ReplyInStep::Schedule(
                DelayedReply {
                    secs,
                    channel_id: ctx.channel_id.clone(),
                    trigger_id: id.clone(),
                    content,
                },
            )
        } else {
            ReplyInStep::Answer(FnOutput::error("replyIn", "no trigger message available"))
        },
        None => ReplyInStep::Answer(FnOutput::error("replyIn", "no trigger message available")),
    }
}

/// Where the delayed reply goes: the channel and the message it replies to,
/// where both are numeric IDs; else nowhere (nothing is sent).
pub fn delivery_target(d: &DelayedReply) -> (r: Option<(u64, u64)>)
    ensures
        match r {
            Some((c, m)) => parse_unsigned_spec(d.channel_id@, u64::MAX as nat) == Some(c as nat)
                && parse_unsigned_spec(d.trigger_id@, u64::MAX as nat) == Some(m as nat),
            None => parse_unsigned_spec(d.channel_id@, u64::MAX as nat) is None
                || parse_unsigned_spec(d.trigger_id@, u64::MAX as nat) is None,
        },
{
    match crate::decimal::parse_u64(d.channel_id.as_str()) {
        Some(c) => match crate::decimal::parse_u64(d.trigger_id.as_str()) {
            Some(m) => Some((c, m)),
            None => None,
        },
        None => None,
    }
}

} // verus!
