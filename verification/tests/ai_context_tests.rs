use zbr::context::DiscordContext;
use zbr::functions::ai::calls::{context_lines_of, context_text_of};
use zbr::functions::ai::{aiClassifyCtx, aiCtx, aiDecideCtx, aiExtractCtx};

fn s(x: &str) -> String {
    x.to_string()
}

fn ctx() -> DiscordContext {
    DiscordContext {
        author_id: s("1"),
        username: s("ann"),
        guild_id: s("3"),
        message: s("hello"),
        trigger: Some(s("!ask")),
        ..DiscordContext::default()
    }
}

#[test]
fn context_lines_list_known_values() {
    let lines = context_lines_of(&ctx(), true);
    assert_eq!(
        lines,
        vec![
            s("Author User ID: 1"),
            s("Author Username: ann"),
            s("Server ID: 3"),
            s("Message Content: hello"),
            s("Trigger Prefix: !ask"),
        ]
    );
    assert_eq!(context_lines_of(&ctx(), false).len(), 4);
    assert_eq!(context_text_of(&DiscordContext::default(), "Head:"), "Head:");
}

#[test]
fn context_prompts_carry_the_context() {
    let args = vec![s("AIzaK"), s("what?")];
    let call = aiCtx::run(&args, &ctx(), true).ok().unwrap();
    assert_eq!(
        call.request.system_instruction,
        Some(s("You are a helpful Discord bot assistant. Here is the current Discord context:\nAuthor User ID: 1\nAuthor Username: ann\nServer ID: 3\nMessage Content: hello\nTrigger Prefix: !ask"))
    );
    let call = aiDecideCtx::run(&args, &ctx()).ok().unwrap();
    assert_eq!(
        call.request.user_prompt,
        "Discord context:\nAuthor User ID: 1\nAuthor Username: ann\nServer ID: 3\nMessage Content: hello\n\nQuestion: what?\n\nAnswer with only 'true' or 'false':"
    );
    let call = aiExtractCtx::run(&args, &ctx()).ok().unwrap();
    assert!(call.request.user_prompt.starts_with("Discord context:\nAuthor User ID: 1"));
    assert!(call.request.user_prompt.ends_with("\n\nExtract: what?\n\nProvide only the extracted information:"));
    let plan = aiClassifyCtx::run(&vec![s("AIzaK"), s("a,b")], &ctx()).ok().unwrap();
    assert_eq!(plan.categories, vec![s("a"), s("b")]);
}
