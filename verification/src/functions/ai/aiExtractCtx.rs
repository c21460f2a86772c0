//! ZaiExtractCtx{apiKey;instruction;model?}
//! Extracts the information that the instruction asks for from the current
//! Discord context.
use vstd::prelude::*;
use super::aiExtract::{extracted_output, prompt, prompt_of, system_prompt, system_prompt_of};
use super::calls::{
    check_provider, context_text, context_text_of, first_refusal, key_refusal, optional_arg,
    optional_arg_of, reply_output, required_arg, required_refusal, ChatCall, Temperature,
};
use super::helpers::{generate_url, reply_spec, HttpOutcome};
use crate::args::nonempty_arg_spec;
use crate::context::{is_error, DiscordContext, FnOutput};
use crate::text::trim_spec;

verus! {

/// Why a call is refused, if it is.
pub open spec fn refusal(args: Seq<String>) -> Option<Seq<char>> {
    first_refusal(
        seq![
            required_refusal(args, 0, "apiKey"@),
            required_refusal(args, 1, "instruction"@),
            key_refusal(args),
        ],
    )
}

/// The request a call makes, or the error it is refused with.
pub fn run(args: &Vec<String>, ctx: &DiscordContext) -> (r: Result<ChatCall, FnOutput>)
    ensures
        match r {
            Err(o) => refusal(args@) matches Some(m) && is_error(o, "aiExtractCtx"@, m),
            Ok(c) => {
                &&& refusal(args@) is None
                &&& c.request.url@ == generate_url(
                    optional_arg(args@, 2),
                    nonempty_arg_spec(args@, 0)->0,
                )
                &&& c.request.system_instruction matches Some(s) && s@ == system_prompt(
                    "Discord context"@,
                )
                &&& c.request.user_prompt@ == prompt(
                    context_text(*ctx, "Discord context:"@),
                    nonempty_arg_spec(args@, 1)->0,
                )
                &&& c.request.max_tokens == Some(100u32)
                &&& c.temperature is Zero
            },
        },
{
    proof {
        reveal_with_fuel(first_refusal, 4);
    }
    let api_key = required_arg(args, 0, "aiExtractCtx", "apiKey")?;
    let instruction = required_arg(args, 1, "aiExtractCtx", "instruction")?;
    let model = optional_arg_of(args, 2);
    let system = system_prompt_of("Discord context");
    let subject = context_text_of(ctx, "Discord context:");
    let user = prompt_of(subject.as_str(), instruction.as_str());
    check_provider(api_key.as_str(), "aiExtractCtx")?;
    let request = super::helpers::chat_request(
        api_key.as_str(),
        Some(system.as_str()),
        user.as_str(),
        model.as_str(),
        Some(100),
    );
    Ok(ChatCall { request, temperature: Temperature::Zero })
}

/// The trimmed reply, or the error.
pub fn finish(reply: HttpOutcome) -> (r: FnOutput)
    ensures
        reply_output(r, "aiExtractCtx"@, reply_spec(reply), |t: Seq<char>| trim_spec(t)),
{
    extracted_output("aiExtractCtx", reply)
}

} // verus!
