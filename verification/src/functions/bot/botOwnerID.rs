//! ZbotOwnerID: the ID of the bot's owner (the team's owner for team apps),
//! fetched once and then remembered.
use vstd::prelude::*;
use crate::context::{is_error, FnOutput};
use crate::decimal::decimal;
use crate::error_messages::{action_failed_reason_text, requires_set_first_text};

verus! {

/// What the function does first.
pub enum OwnerStep {
    /// It answers at once.
    Answer(FnOutput),
    /// It fetches the application info.
    Fetch,
}

/// The remembered owner where there is one; else the error without an HTTP
/// client; else a fetch.
pub fn run(remembered: Option<String>, has_http: bool) -> (r: OwnerStep)
    ensures
        match remembered {
            Some(id) => r matches OwnerStep::Answer(FnOutput::Text(t)) && t@ == id@,
            None => if has_http {
                r is Fetch
            } else {
                r matches OwnerStep::Answer(o) && is_error(
                    o,
                    "botOwnerID"@,
                    requires_set_first_text("HTTP client"@),
                )
            },
        },
{
    match remembered {
        Some(id) => OwnerStep::Answer(FnOutput::Text(id)),
        None => if has_http {
            OwnerStep::Fetch
        } else {
            let m = crate::error_messages::requires_set_first("HTTP client");
            OwnerStep::Answer(FnOutput::error("botOwnerID", m.as_str()))
        },
    }
}

/// The owner named by the application info: the team's owner for a team
/// app, else the owner; the empty text where it names neither.
pub fn owner_of(team_owner: Option<u64>, owner: Option<u64>) -> (r: String)
    ensures
        r@ == match team_owner {
            Some(t) => decimal(t as nat),
            None => match owner {
                Some(o) => decimal(o as nat),
                None => Seq::empty(),
            },
        },
{
    match team_owner {
        Some(t) => crate::decimal::u64_text(t),
        None => match owner {
            Some(o) => crate::decimal::u64_text(o),
            None => String::new(),
        },
    }
}

/// The answer to a fetch, and what to remember: the owner (remembered where
/// not empty), or the error of the failed fetch.
pub fn finish(fetched: Result<String, String>) -> (r: (FnOutput, Option<String>))
    ensures
        match fetched {
            Ok(id) => (r.0 matches FnOutput::Text(t) && t@ == id@) && match r.1 {
                Some(k) => id@.len() > 0 && k@ == id@,
                None => id@.len() == 0,
            },
            Err(e) => is_error(
                r.0,
                "botOwnerID"@,
                action_failed_reason_text("fetch application info"@, e@),
            ) && r.1 is None,
        },
{
    match fetched {
        Ok(id) => {
            let keep = if id.as_str().is_empty() {
                None
            } else {
                Some(id.clone())
            };
            (FnOutput::Text(id), keep)
        },
        Err(e) => {
            let m = crate::error_messages::action_failed_reason("fetch application info", e.as_str());
            (FnOutput::error("botOwnerID", m.as_str()), None)
        },
    }
}

} // verus!
