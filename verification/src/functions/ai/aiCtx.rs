//! ZaiCtx{apiKey;prompt;model?;maxTokens?;temperature?}
//! Sends a prompt to the AI with the Discord context as system instruction.
use vstd::prelude::*;
use super::calls::{
    check_provider, context_text, context_text_of, first_refusal, key_refusal, max_tokens_arg,
    max_tokens_of, max_tokens_refusal, optional_arg, optional_arg_of, reply_output, required_arg,
    required_refusal, temperature_arg, temperature_matches, temperature_refusal, text_output,
    u32_option, ChatCall,
};
use super::helpers::{generate_url, reply_spec, HttpOutcome};
use crate::args::nonempty_arg_spec;
use crate::context::{is_error, DiscordContext, FnOutput};

verus! {

/// The heading of the system instruction.
pub open spec fn heading() -> Seq<char> {
    "You are a helpful Discord bot assistant. Here is the current Discord context:"@
}

/// Why a call is refused, if it is; `temperature_ok` tells whether the
/// temperature argument is a number.
pub open spec fn refusal(args: Seq<String>, temperature_ok: bool) -> Option<Seq<char>> {
    first_refusal(
        seq![
            required_refusal(args, 0, "apiKey"@),
            required_refusal(args, 1, "prompt"@),
            max_tokens_refusal(args, 3),
            temperature_refusal(args, 4, temperature_ok),
            key_refusal(args),
        ],
    )
}

/// The request a call makes, or the error it is refused with.
pub fn run(args: &Vec<String>, ctx: &DiscordContext, temperature_ok: bool) -> (r: Result<
    ChatCall,
    FnOutput,
>)
    ensures
        match r {
            Err(o) => refusal(args@, temperature_ok) matches Some(m) && is_error(o, "aiCtx"@, m),
            Ok(c) => {
                &&& refusal(args@, temperature_ok) is None
                &&& c.request.url@ == generate_url(
                    optional_arg(args@, 2),
                    nonempty_arg_spec(args@, 0)->0,
                )
                &&& c.request.system_instruction matches Some(s) && s@ == context_text(
                    *ctx,
                    heading(),
                )
                &&& c.request.user_prompt@ == nonempty_arg_spec(args@, 1)->0
                &&& u32_option(c.request.max_tokens) == max_tokens_of(args@, 3)
                &&& temperature_matches(c.temperature, args@, 4)
            },
        },
{
    proof {
        reveal_with_fuel(first_refusal, 6);
    }
    let api_key = required_arg(args, 0, "aiCtx", "apiKey")?;
    let prompt = required_arg(args, 1, "aiCtx", "prompt")?;
    let model = optional_arg_of(args, 2);
    let max_tokens = max_tokens_arg(args, 3, "aiCtx")?;
    let temperature = temperature_arg(args, 4, "aiCtx", temperature_ok)?;
    let system = context_text_of(
        ctx,
        "You are a helpful Discord bot assistant. Here is the current Discord context:",
    );
    check_provider(api_key.as_str(), "aiCtx")?;
    proof {
        reveal_strlit("You are a helpful Discord bot assistant. Here is the current Discord context:");
        crate::text::lemma_join_len_first(
            seq![heading()] + super::calls::context_lines(*ctx, true),
            "\n"@,
        );
    }
    let request = super::helpers::chat_request(
        api_key.as_str(),
        Some(system.as_str()),
        prompt.as_str(),
        model.as_str(),
        max_tokens,
    );
    Ok(ChatCall { request, temperature })
}

/// The reply's text, or the error.
pub fn finish(reply: HttpOutcome) -> (r: FnOutput)
    ensures
        reply_output(r, "aiCtx"@, reply_spec(reply), |t: Seq<char>| t),
{
    text_output("aiCtx", reply)
}

} // verus!
