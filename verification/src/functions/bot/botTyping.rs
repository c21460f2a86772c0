//! ZbotTyping: shows the bot as typing in the current channel.
use vstd::prelude::*;
use crate::context::{is_error, DiscordContext, FnOutput};
use crate::decimal::parse_unsigned_spec;
use crate::error_messages::{action_failed_reason_text, expected_snowflake_text, requires_set_first_text};

verus! {

/// The channel to type in, or the error: without an HTTP client, or where
/// the context's channel is not a numeric ID.
pub fn run(ctx: &DiscordContext, has_http: bool) -> (r: Result<u64, FnOutput>)
    ensures
        !has_http ==> (r matches Err(o) && is_error(
            o,
            "botTyping"@,
            requires_set_first_text("HTTP client"@),
        )),
        has_http ==> match parse_unsigned_spec(ctx.channel_id@, u64::MAX as nat) {
            Some(id) => r == Ok::<u64, FnOutput>(id as u64),
            None => r matches Err(o) && is_error(
                o,
                "botTyping"@,
                expected_snowflake_text(1, "channel ID"@, ctx.channel_id@),
            ),
        },
{
    if !has_http {
        let m = crate::error_messages::requires_set_first("HTTP client");
        return Err(FnOutput::error("botTyping", m.as_str()));
    }
    match crate::decimal::parse_u64(ctx.channel_id.as_str()) {
        Some(id) => Ok(id),
        None => {
            let m = crate::error_messages::expected_snowflake(1, "channel ID", ctx.channel_id.as_str());
            Err(FnOutput::error("botTyping", m.as_str()))
        },
    }
}

/// Nothing where typing was shown, else the error.
pub fn finish(result: Result<(), String>) -> (r: FnOutput)
    ensures
        match result {
            Ok(_) => r is Empty,
            Err(e) => is_error(r, "botTyping"@, action_failed_reason_text("broadcast typing"@, e@)),
        },
{
    match result {
        Ok(_) => FnOutput::Empty,
        Err(e) => {
            let m = crate::error_messages::action_failed_reason("broadcast typing", e.as_str());
            FnOutput::error("botTyping", m.as_str())
        },
    }
}

} // verus!
