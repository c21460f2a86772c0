//! ZaiDecide{apiKey;content;question;model?}
//! Asks the AI a yes/no question about the content; the result is "true" or
//! "false".
use vstd::prelude::*;
use super::calls::{
    check_provider, first_refusal, key_refusal, optional_arg, optional_arg_of, reply_output,
    required_arg, required_refusal, ChatCall, Temperature,
};
use super::helpers::{generate_url, reply_spec, HttpOutcome};
use crate::args::nonempty_arg_spec;
use crate::context::{is_error, FnOutput};
use crate::text::{lowercase_of, starts_with_spec, trim_spec};

verus! {

/// The system instruction of a yes/no question.
pub open spec fn system_prompt() -> Seq<char> {
    "You are a strict yes/no classifier. You must respond with ONLY the word 'true' or 'false', nothing else. No punctuation, no explanation, no other words."@
}

/// The user prompt: what the question is about (`subject`), then the question.
pub open spec fn prompt(subject: Seq<char>, question: Seq<char>) -> Seq<char> {
    subject + "\n\nQuestion: "@ + question + "\n\nAnswer with only 'true' or 'false':"@
}

/// The answer a reply gives: "true" where the trimmed, lowercased reply starts
/// with "true", else "false".
pub open spec fn decision(text: Seq<char>) -> Seq<char> {
    if starts_with_spec(lowercase_of(trim_spec(text)), "true"@) {
        "true"@
    } else {
        "false"@
    }
}

/// Why a call is refused, if it is.
pub open spec fn refusal(args: Seq<String>) -> Option<Seq<char>> {
    first_refusal(
        seq![
            required_refusal(args, 0, "apiKey"@),
            required_refusal(args, 1, "content"@),
            required_refusal(args, 2, "question"@),
            key_refusal(args),
        ],
    )
}

/// The system instruction of a yes/no question.
pub fn system_prompt_of() -> (r: String)
    ensures
        r@ == system_prompt(),
        r@.len() > 0,
{
    proof {
        reveal_strlit(
            "You are a strict yes/no classifier. You must respond with ONLY the word 'true' or 'false', nothing else. No punctuation, no explanation, no other words.",
        );
    }
    String::from_str(
        "You are a strict yes/no classifier. You must respond with ONLY the word 'true' or 'false', nothing else. No punctuation, no explanation, no other words.",
    )
}

/// The user prompt for a subject and a question.
pub fn prompt_of(subject: &str, question: &str) -> (r: String)
    ensures
        r@ == prompt(subject@, question@),
{
    let mut r = String::from_str(subject);
    r.append("\n\nQuestion: ");
    r.append(question);
    r.append("\n\nAnswer with only 'true' or 'false':");
    r
}

/// The answer a reply text gives.
pub fn decision_of(text: &str) -> (r: String)
    ensures
        r@ == decision(text@),
{
    let trimmed = crate::text::trim_str(text);
    let lower = crate::text::to_lowercase(trimmed.as_str());
    let lv = crate::text::chars_of(lower.as_str());
    let tv = crate::text::chars_of("true");
    if crate::text::starts_with(lv.as_slice(), tv.as_slice()) {
        String::from_str("true")
    } else {
        String::from_str("false")
    }
}

/// The function's output for a reply: "true", "false", or the error.
pub fn decided_output(function: &str, reply: HttpOutcome) -> (r: FnOutput)
    ensures
        reply_output(r, function@, reply_spec(reply), |t: Seq<char>| decision(t)),
{
    match super::helpers::read_reply(reply) {
        Ok(t) => FnOutput::Text(decision_of(t.as_str())),
        Err(e) => FnOutput::error(function, e.as_str()),
    }
}

/// The request a call makes, or the error it is refused with.
pub fn run(args: &Vec<String>) -> (r: Result<ChatCall, FnOutput>)
    ensures
        match r {
            Err(o) => refusal(args@) matches Some(m) && is_error(o, "aiDecide"@, m),
            Ok(c) => {
                &&& refusal(args@) is None
                &&& c.request.url@ == generate_url(
                    optional_arg(args@, 3),
                    nonempty_arg_spec(args@, 0)->0,
                )
                &&& c.request.system_instruction matches Some(s) && s@ == system_prompt()
                &&& c.request.user_prompt@ == prompt(
                    "Content: "@ + nonempty_arg_spec(args@, 1)->0,
                    nonempty_arg_spec(args@, 2)->0,
                )
                &&& c.request.max_tokens == Some(5u32)
                &&& c.temperature is Zero
            },
        },
{
    proof {
        reveal_with_fuel(first_refusal, 5);
    }
    let api_key = required_arg(args, 0, "aiDecide", "apiKey")?;
    let content = required_arg(args, 1, "aiDecide", "content")?;
    let question = required_arg(args, 2, "aiDecide", "question")?;
    let model = optional_arg_of(args, 3);
    let system = system_prompt_of();
    let mut subject = String::from_str("Content: ");
    subject.append(content.as_str());
    let user = prompt_of(subject.as_str(), question.as_str());
    check_provider(api_key.as_str(), "aiDecide")?;
    let request = super::helpers::chat_request(
        api_key.as_str(),
        Some(system.as_str()),
        user.as_str(),
        model.as_str(),
        Some(5),
    );
    Ok(ChatCall { request, temperature: Temperature::Zero })
}

/// "true", "false", or the error.
pub fn finish(reply: HttpOutcome) -> (r: FnOutput)
    ensures
        reply_output(r, "aiDecide"@, reply_spec(reply), |t: Seq<char>| decision(t)),
{
    decided_output("aiDecide", reply)
}


// ── Laws ────────────────────────────────────────────────────────────────

/// Whatever the model replies, the answer is "true" or "false".
pub proof fn law_decision_is_boolean(text: Seq<char>)
    ensures
        decision(text) == "true"@ || decision(text) == "false"@,
{
}

} // verus!
