//! ZaiDecideCtx{apiKey;question;model?}
//! Asks the AI a yes/no question about the current Discord context; the result
//! is "true" or "false".
use vstd::prelude::*;
use super::aiDecide::{decided_output, decision, prompt, prompt_of, system_prompt, system_prompt_of};
use super::calls::{
    check_provider, context_lines, context_lines_of, first_refusal, key_refusal, optional_arg,
    optional_arg_of, reply_output, required_arg, required_refusal, ChatCall, Temperature,
};
use super::helpers::{generate_url, reply_spec, HttpOutcome};
use crate::args::nonempty_arg_spec;
use crate::context::{is_error, DiscordContext, FnOutput};
use crate::text::{join_spec, views};

verus! {

/// What the question is about: the context lines (without the trigger prefix)
/// under "Discord context:".
pub open spec fn subject(ctx: DiscordContext) -> Seq<char> {
    "Discord context:\n"@ + join_spec(context_lines(ctx, false), "\n"@)
}

/// Why a call is refused, if it is.
pub open spec fn refusal(args: Seq<String>) -> Option<Seq<char>> {
    first_refusal(
        seq![
            required_refusal(args, 0, "apiKey"@),
            required_refusal(args, 1, "question"@),
            key_refusal(args),
        ],
    )
}

/// The context that the question is about.
pub fn subject_of(ctx: &DiscordContext) -> (r: String)
    ensures
        r@ == subject(*ctx),
{
    let lines = context_lines_of(ctx, false);
    let joined = crate::text::join(&lines, "\n");
    assert(lines@.map_values(|p: String| p@) =~= views(lines@));
    let mut r = String::from_str("Discord context:\n");
    r.append(joined.as_str());
    r
}

/// The request a call makes, or the error it is refused with.
pub fn run(args: &Vec<String>, ctx: &DiscordContext) -> (r: Result<ChatCall, FnOutput>)
    ensures
        match r {
            Err(o) => refusal(args@) matches Some(m) && is_error(o, "aiDecideCtx"@, m),
            Ok(c) => {
                &&& refusal(args@) is None
                &&& c.request.url@ == generate_url(
                    optional_arg(args@, 2),
                    nonempty_arg_spec(args@, 0)->0,
                )
                &&& c.request.system_instruction matches Some(s) && s@ == system_prompt()
                &&& c.request.user_prompt@ == prompt(subject(*ctx), nonempty_arg_spec(args@, 1)->0)
                &&& c.request.max_tokens == Some(5u32)
                &&& c.temperature is Zero
            },
        },
{
    proof {
        reveal_with_fuel(first_refusal, 4);
    }
    let api_key = required_arg(args, 0, "aiDecideCtx", "apiKey")?;
    let question = required_arg(args, 1, "aiDecideCtx", "question")?;
    let model = optional_arg_of(args, 2);
    let system = system_prompt_of();
    let about = subject_of(ctx);
    let user = prompt_of(about.as_str(), question.as_str());
    check_provider(api_key.as_str(), "aiDecideCtx")?;
    let request = super::helpers::chat_request(
        api_key.as_str(),
        Some(system.as_str()),
        user.as_str(),
        model.as_str(),
        Some(5),
    );
    Ok(ChatCall { request, temperature: Temperature::Zero })
}

/// "true", "false", or the error.
pub fn finish(reply: HttpOutcome) -> (r: FnOutput)
    ensures
        reply_output(r, "aiDecideCtx"@, reply_spec(reply), |t: Seq<char>| decision(t)),
{
    decided_output("aiDecideCtx", reply)
}

} // verus!
