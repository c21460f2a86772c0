//! Zai{apiKey;prompt;model?;maxTokens?;temperature?}
//! Sends a prompt to the AI and returns the response text.
use vstd::prelude::*;
use super::calls::{
    check_provider, first_refusal, key_refusal, max_tokens_arg, max_tokens_of, max_tokens_refusal,
    optional_arg, optional_arg_of, reply_output, required_arg, required_refusal, temperature_arg,
    temperature_matches, temperature_refusal, text_output, u32_option, ChatCall,
};
use super::helpers::{generate_url, reply_spec, HttpOutcome};
use crate::args::nonempty_arg_spec;
use crate::context::{is_error, FnOutput};

verus! {

/// Why a call is refused, if it is; `temperature_ok` tells whether the
/// temperature argument is a number.
pub open spec fn refusal(args: Seq<String>, temperature_ok: bool) -> Option<Seq<char>> {
    first_refusal(
        seq![
            required_refusal(args, 0, "apiKey"@),
            required_refusal(args, 1, "prompt"@),
            max_tokens_refusal(args, 3),
            temperature_refusal(args, 4, temperature_ok),
            key_refusal(args),
        ],
    )
}

/// The request a call makes, or the error it is refused with.
pub fn run(args: &Vec<String>, temperature_ok: bool) -> (r: Result<ChatCall, FnOutput>)
    ensures
        match r {
            Err(o) => refusal(args@, temperature_ok) matches Some(m) && is_error(o, "ai"@, m),
            Ok(c) => {
                &&& refusal(args@, temperature_ok) is None
                &&& c.request.url@ == generate_url(optional_arg(args@, 2), nonempty_arg_spec(args@, 0)->0)
                &&& c.request.system_instruction is None
                &&& c.request.user_prompt@ == nonempty_arg_spec(args@, 1)->0
                &&& u32_option(c.request.max_tokens) == max_tokens_of(args@, 3)
                &&& temperature_matches(c.temperature, args@, 4)
            },
        },
{
    proof {
        reveal_with_fuel(first_refusal, 6);
    }
    let api_key = required_arg(args, 0, "ai", "apiKey")?;
    let prompt = required_arg(args, 1, "ai", "prompt")?;
    let model = optional_arg_of(args, 2);
    let max_tokens = max_tokens_arg(args, 3, "ai")?;
    let temperature = temperature_arg(args, 4, "ai", temperature_ok)?;
    check_provider(api_key.as_str(), "ai")?;
    let request = super::helpers::chat_request(
        api_key.as_str(),
        None,
        prompt.as_str(),
        model.as_str(),
        max_tokens,
    );
    Ok(ChatCall { request, temperature })
}

/// The reply's text, or the error.
pub fn finish(reply: HttpOutcome) -> (r: FnOutput)
    ensures
        reply_output(r, "ai"@, reply_spec(reply), |t: Seq<char>| t),
{
    text_output("ai", reply)
}

} // verus!
