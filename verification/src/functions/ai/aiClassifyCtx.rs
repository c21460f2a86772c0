//! ZaiClassifyCtx{apiKey;categories;model?}
//! Classifies the current Discord context into one of the comma-separated
//! categories.
use vstd::prelude::*;
use super::aiClassify::{
    categories, categories_of, classification, classified_output, question, question_of,
    system_prompt, system_prompt_of, ClassifyCall,
};
use super::calls::{
    check_provider, context_text, context_text_of, first_refusal, key_refusal, optional_arg,
    optional_arg_of, reply_output, required_arg, required_refusal, ChatCall, Temperature,
};
use super::helpers::{generate_url, reply_spec, HttpOutcome};
use crate::args::nonempty_arg_spec;
use crate::context::{is_error, DiscordContext, FnOutput};
use crate::text::views;

verus! {

/// Why a call is refused, if it is.
pub open spec fn refusal(args: Seq<String>) -> Option<Seq<char>> {
    first_refusal(
        seq![
            required_refusal(args, 0, "apiKey"@),
            required_refusal(args, 1, "categories"@),
            key_refusal(args),
        ],
    )
}

/// The request a call makes, or the error it is refused with.
pub fn run(args: &Vec<String>, ctx: &DiscordContext) -> (r: Result<ClassifyCall, FnOutput>)
    ensures
        match r {
            Err(o) => refusal(args@) matches Some(m) && is_error(o, "aiClassifyCtx"@, m),
            Ok(c) => {
                let cats = categories(nonempty_arg_spec(args@, 1)->0);
                &&& refusal(args@) is None
                &&& views(c.categories@) == cats
                &&& c.call.request.url@ == generate_url(
                    optional_arg(args@, 2),
                    nonempty_arg_spec(args@, 0)->0,
                )
                &&& c.call.request.system_instruction matches Some(s) && s@ == system_prompt(cats)
                &&& c.call.request.user_prompt@ == question(
                    context_text(*ctx, "Discord context:"@),
                    cats,
                )
                &&& c.call.request.max_tokens == Some(20u32)
                &&& c.call.temperature is Zero
            },
        },
{
    proof {
        reveal_with_fuel(first_refusal, 4);
    }
    let api_key = required_arg(args, 0, "aiClassifyCtx", "apiKey")?;
    let list = required_arg(args, 1, "aiClassifyCtx", "categories")?;
    let model = optional_arg_of(args, 2);
    let cats = categories_of(list.as_str());
    let system = system_prompt_of(&cats);
    let subject = context_text_of(ctx, "Discord context:");
    let prompt = question_of(subject.as_str(), &cats);
    check_provider(api_key.as_str(), "aiClassifyCtx")?;
    let request = super::helpers::chat_request(
        api_key.as_str(),
        Some(system.as_str()),
        prompt.as_str(),
        model.as_str(),
        Some(20),
    );
    Ok(ClassifyCall { call: ChatCall { request, temperature: Temperature::Zero }, categories: cats })
}

/// The matched category, the trimmed reply, or the error.
pub fn finish(reply: HttpOutcome, cats: &Vec<String>) -> (r: FnOutput)
    ensures
        reply_output(
            r,
            "aiClassifyCtx"@,
            reply_spec(reply),
            |t: Seq<char>| classification(t, views(cats@)),
        ),
{
    classified_output("aiClassifyCtx", reply, cats)
}

} // verus!
