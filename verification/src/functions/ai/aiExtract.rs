//! ZaiExtract{apiKey;content;instruction;model?}
//! Extracts the information that the instruction asks for from the content.
use vstd::prelude::*;
use super::calls::{
    check_provider, first_refusal, key_refusal, optional_arg, optional_arg_of, reply_output,
    required_arg, required_refusal, ChatCall, Temperature,
};
use super::helpers::{generate_url, reply_spec, HttpOutcome};
use crate::args::nonempty_arg_spec;
use crate::context::{is_error, FnOutput};
use crate::text::trim_spec;

verus! {

/// The system instruction; `source` names where the information is taken from
/// ("content" or "Discord context").
pub open spec fn system_prompt(source: Seq<char>) -> Seq<char> {
    "You are a precise information extractor. Extract ONLY the requested information from the "@
        + source
        + ". Return just the extracted value(s), nothing else. If not found, return 'N/A'."@
}

/// The user prompt: the text to search (`subject`), then the instruction.
pub open spec fn prompt(subject: Seq<char>, instruction: Seq<char>) -> Seq<char> {
    subject + "\n\nExtract: "@ + instruction + "\n\nProvide only the extracted information:"@
}

/// Why a call is refused, if it is.
pub open spec fn refusal(args: Seq<String>) -> Option<Seq<char>> {
    first_refusal(
        seq![
            required_refusal(args, 0, "apiKey"@),
            required_refusal(args, 1, "content"@),
            required_refusal(args, 2, "instruction"@),
            key_refusal(args),
        ],
    )
}

/// The system instruction for a source.
pub fn system_prompt_of(source: &str) -> (r: String)
    ensures
        r@ == system_prompt(source@),
        r@.len() > 0,
{
    let mut r = String::from_str(
        "You are a precise information extractor. Extract ONLY the requested information from the ",
    );
    r.append(source);
    r.append(". Return just the extracted value(s), nothing else. If not found, return 'N/A'.");
    proof {
        reveal_strlit(
            "You are a precise information extractor. Extract ONLY the requested information from the ",
        );
    }
    r
}

/// The user prompt for a subject and an instruction.
pub fn prompt_of(subject: &str, instruction: &str) -> (r: String)
    ensures
        r@ == prompt(subject@, instruction@),
{
    let mut r = String::from_str(subject);
    r.append("\n\nExtract: ");
    r.append(instruction);
    r.append("\n\nProvide only the extracted information:");
    r
}

/// The function's output for a reply: the trimmed reply, or the error.
pub fn extracted_output(function: &str, reply: HttpOutcome) -> (r: FnOutput)
    ensures
        reply_output(r, function@, reply_spec(reply), |t: Seq<char>| trim_spec(t)),
{
    match super::helpers::read_reply(reply) {
        Ok(t) => FnOutput::Text(crate::text::trim_str(t.as_str())),
        Err(e) => FnOutput::error(function, e.as_str()),
    }
}

/// The request a call makes, or the error it is refused with.
pub fn run(args: &Vec<String>) -> (r: Result<ChatCall, FnOutput>)
    ensures
        match r {
            Err(o) => refusal(args@) matches Some(m) && is_error(o, "aiExtract"@, m),
            Ok(c) => {
                &&& refusal(args@) is None
                &&& c.request.url@ == generate_url(
                    optional_arg(args@, 3),
                    nonempty_arg_spec(args@, 0)->0,
                )
                &&& c.request.system_instruction matches Some(s) && s@ == system_prompt(
                    "content"@,
                )
                &&& c.request.user_prompt@ == prompt(
                    "Content: "@ + nonempty_arg_spec(args@, 1)->0,
                    nonempty_arg_spec(args@, 2)->0,
                )
                &&& c.request.max_tokens == Some(100u32)
                &&& c.temperature is Zero
            },
        },
{
    proof {
        reveal_with_fuel(first_refusal, 5);
    }
    let api_key = required_arg(args, 0, "aiExtract", "apiKey")?;
    let content = required_arg(args, 1, "aiExtract", "content")?;
    let instruction = required_arg(args, 2, "aiExtract", "instruction")?;
    let model = optional_arg_of(args, 3);
    let system = system_prompt_of("content");
    let mut subject = String::from_str("Content: ");
    subject.append(content.as_str());
    let user = prompt_of(subject.as_str(), instruction.as_str());
    check_provider(api_key.as_str(), "aiExtract")?;
    let request = super::helpers::chat_request(
        api_key.as_str(),
        Some(system.as_str()),
        user.as_str(),
        model.as_str(),
        Some(100),
    );
    Ok(ChatCall { request, temperature: Temperature::Zero })
}

/// The trimmed reply, or the error.
pub fn finish(reply: HttpOutcome) -> (r: FnOutput)
    ensures
        reply_output(r, "aiExtract"@, reply_spec(reply), |t: Seq<char>| trim_spec(t)),
{
    extracted_output("aiExtract", reply)
}

} // verus!
