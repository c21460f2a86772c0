use std::collections::HashSet;
use zbr::context::{ComponentState, Embed, EmbedField, EvalResult, FnOutput};
use zbr::error_messages::{
    action_failed_reason, exact_args, expected_choice, out_of_range, required, too_few_args,
    too_many_args,
};
use zbr::executor::build_response;

fn s(x: &str) -> String {
    x.to_string()
}

fn result(embeds: Vec<Embed>, consumed: HashSet<usize>) -> EvalResult {
    EvalResult {
        output: vec![s("line")],
        should_reply: true,
        errors: vec![],
        embeds,
        consumed_embeds: consumed,
        ephemeral: false,
        use_channel: None,
        components: ComponentState { buttons: vec![], select_menu: None, modal: None, deferred: false, update_message: false },
    }
}

#[test]
fn error_messages_have_fixed_forms() {
    assert_eq!(too_few_args(1, 0), "expected at least 1 argument, got 0");
    assert_eq!(too_many_args(2, 3), "expected at most 2 arguments, got 3");
    assert_eq!(exact_args(3, 1), "expected exactly 3 arguments, got 1");
    assert_eq!(required(2, "name"), "argument 2 (name) is required");
    assert_eq!(action_failed_reason("ban", "403"), "failed to ban (403)");
    assert_eq!(out_of_range(1, "n", -5, 5, 9), "argument 1 (n) must be between -5 and 5, got 9");
    assert_eq!(expected_choice(1, "mode", "a, b", "c"), "expected one of (a, b) in argument 1 (mode), got \"c\"");
}

#[test]
fn developer_errors_are_prefixed_with_the_function() {
    match FnOutput::error("ban", "argument 1 (user) is required") {
        FnOutput::Error(m) => assert_eq!(m, "Zban - argument 1 (user) is required"),
        _ => panic!("not an error"),
    }
    assert!(matches!(FnOutput::user_error("nope"), FnOutput::UserError(ref m) if m == "nope"));
}

#[test]
fn consumed_and_empty_embeds_are_left_out() {
    let titled = Embed { title: Some(s("T")), ..Embed::default() };
    let mut consumed = HashSet::new();
    consumed.insert(1usize);
    let r = build_response(result(vec![Embed::default(), titled.clone(), titled], consumed), vec![s("\u{1F44D}")], None, None);
    assert_eq!(r.embeds.len(), 1);
    assert_eq!(r.embeds[0].title, Some(s("T")));
    assert_eq!(r.output, vec![s("line")]);
    assert!(r.should_reply);
    assert_eq!(r.pending_reactions.len(), 1);
}

#[test]
fn an_embed_without_required_parts_is_an_error() {
    let colored = Embed { color: Some(5), ..Embed::default() };
    let field = Embed { fields: vec![EmbedField { name: s("n"), value: s("v"), inline: false }], ..Embed::default() };
    let r = build_response(result(vec![field, colored], HashSet::new()), vec![], None, None);
    assert_eq!(
        r.errors,
        vec![s("embed 2 must have at least a title, description, author, or field before it can be sent")]
    );
    assert!(r.output.is_empty());
    assert!(!r.should_reply);
    assert!(r.embeds.is_empty());
}
