use zbr::context::FnOutput;
use zbr::functions::ai::calls::{chat_body, ChatCall, Temperature};
use zbr::functions::ai::helpers::{
    chat_request, detect_provider, generate_url_of, read_models_reply, read_reply, vision_body,
    vision_request, AiProvider, HttpOutcome,
};
use zbr::functions::ai::imageAnalyze::{ImageFetch, ImagePlan};
use zbr::functions::ai::{aiClassify, aiDecide, aiExtract, ai, imageAnalyze};

fn s(x: &str) -> String {
    x.to_string()
}

fn args(v: &[&str]) -> Vec<String> {
    v.iter().map(|x| x.to_string()).collect()
}

fn gemini_reply(text: &str) -> HttpOutcome {
    let body = format!(
        "{{\"candidates\":[{{\"content\":{{\"parts\":[{{\"text\":{}}}]}}}}]}}",
        serde_json::to_string(text).unwrap()
    );
    HttpOutcome::Received { status: 200, body }
}

fn text_of(o: &FnOutput) -> String {
    match o {
        FnOutput::Text(t) => t.clone(),
        FnOutput::Error(e) => format!("ERR:{}", e),
        FnOutput::UserError(e) => format!("USER:{}", e),
        FnOutput::Empty => s("EMPTY"),
        FnOutput::Reply => s("REPLY"),
    }
}

#[test]
fn provider_is_detected_from_key_prefix() {
    assert!(matches!(detect_provider("AIzaSyABC"), Ok(AiProvider::Gemini)));
    assert!(matches!(detect_provider("AQ.123"), Ok(AiProvider::Gemini)));
    let e = match detect_provider("sk-123") {
        Err(e) => e,
        Ok(_) => panic!("accepted"),
    };
    assert_eq!(
        e,
        "unrecognized API key format \u{2014} currently only Gemini (AIza... or AQ...) is supported"
    );
}

#[test]
fn generate_url_uses_default_model() {
    assert_eq!(
        generate_url_of("", "KEY"),
        "https://generativelanguage.googleapis.com/v1beta/models/gemini-2.5-flash-lite:generateContent?key=KEY"
    );
    assert_eq!(
        generate_url_of("gemini-pro", "K"),
        "https://generativelanguage.googleapis.com/v1beta/models/gemini-pro:generateContent?key=K"
    );
}

#[test]
fn chat_request_drops_empty_system_prompt() {
    let r = chat_request("AIzaK", Some(""), "hi", "", Some(7));
    assert!(r.system_instruction.is_none());
    assert_eq!(r.user_prompt, "hi");
    assert_eq!(r.max_tokens, Some(7));
    let r = chat_request("AIzaK", Some("sys"), "hi", "m", None);
    assert_eq!(r.system_instruction, Some(s("sys")));
}

#[test]
fn reply_text_is_read_from_first_candidate() {
    assert_eq!(read_reply(gemini_reply("Hello!")), Ok(s("Hello!")));
}

#[test]
fn reply_errors_are_reported() {
    assert_eq!(
        read_reply(HttpOutcome::SendFailed(s("timeout"))),
        Err(s("request failed: timeout"))
    );
    assert_eq!(
        read_reply(HttpOutcome::ReadFailed(s("eof"))),
        Err(s("failed to read response: eof"))
    );
    assert_eq!(
        read_reply(HttpOutcome::Received { status: 403, body: s("{\"error\":{\"message\":\"bad key\"}}") }),
        Err(s("Gemini API error (403): bad key"))
    );
    assert_eq!(
        read_reply(HttpOutcome::Received { status: 500, body: s("raw body") }),
        Err(s("Gemini API error (500): raw body"))
    );
    assert_eq!(
        read_reply(HttpOutcome::Received { status: 200, body: s("x") }),
        Err(s("failed to parse Gemini response"))
    );
    assert_eq!(
        read_reply(HttpOutcome::Received { status: 200, body: s("{}") }),
        Err(s("no text in Gemini response"))
    );
}

#[test]
fn ai_requires_key_and_prompt() {
    let o = ai::run(&args(&[]), true).err().unwrap();
    assert_eq!(text_of(&o), "ERR:Zai - argument 1 (apiKey) is required");
    let o = ai::run(&args(&["AIzaK"]), true).err().unwrap();
    assert_eq!(text_of(&o), "ERR:Zai - argument 2 (prompt) is required");
}

#[test]
fn ai_rejects_bad_numbers_in_order() {
    let o = ai::run(&args(&["AIzaK", "hi", "", "many"]), true).err().unwrap();
    assert_eq!(
        text_of(&o),
        "ERR:Zai - expected integer in argument 4 (maxTokens), got \"many\""
    );
    let o = ai::run(&args(&["AIzaK", "hi", "", "10", "hot"]), false).err().unwrap();
    assert_eq!(
        text_of(&o),
        "ERR:Zai - expected number in argument 5 (temperature), got \"hot\""
    );
    let o = ai::run(&args(&["sk-1", "hi"]), true).err().unwrap();
    assert!(text_of(&o).starts_with("ERR:Zai - unrecognized API key format"));
}

#[test]
fn ai_builds_the_request() {
    let c = ai::run(&args(&["AIzaK", "hello", "m1", "+20", "0.5"]), true).ok().unwrap();
    assert_eq!(
        c.request.url,
        "https://generativelanguage.googleapis.com/v1beta/models/m1:generateContent?key=AIzaK"
    );
    assert_eq!(c.request.user_prompt, "hello");
    assert_eq!(c.request.max_tokens, Some(20));
    assert!(c.request.system_instruction.is_none());
    assert!(matches!(c.temperature, Temperature::Given(ref t) if t == "0.5"));
    assert_eq!(text_of(&ai::finish(gemini_reply("ok"))), "ok");
    assert_eq!(
        text_of(&ai::finish(HttpOutcome::SendFailed(s("x")))),
        "ERR:Zai - request failed: x"
    );
}

#[test]
fn classify_prompts_name_the_trimmed_categories() {
    let c = aiClassify::run(&args(&["AIzaK", "great product", "positive, negative ,neutral"]))
        .ok()
        .unwrap();
    let cats: Vec<String> = c.categories.clone();
    assert_eq!(cats, vec![s("positive"), s("negative"), s("neutral")]);
    assert_eq!(
        c.call.request.user_prompt,
        "Content: great product\n\nAvailable categories: positive, negative, neutral\n\nClassify into exactly one category:"
    );
    assert_eq!(
        c.call.request.system_instruction,
        Some(s("You are a strict classifier. You must respond with ONLY one of these exact categories: positive, negative, neutral. No punctuation, no explanation, no other words. Just pick the single best matching category."))
    );
    assert_eq!(c.call.request.max_tokens, Some(20));
    assert!(matches!(c.call.temperature, Temperature::Zero));
}

#[test]
fn classification_matches_case_insensitively() {
    let cats = vec![s("Positive"), s("Negative")];
    assert_eq!(aiClassify::classification_of("  NEGATIVE.\n", &cats), "Negative");
    assert_eq!(aiClassify::classification_of("It is positive", &cats), "Positive");
    assert_eq!(aiClassify::classification_of("  unsure  ", &cats), "unsure");
    assert_eq!(
        text_of(&aiClassify::finish(gemini_reply("POSITIVE"), &cats)),
        "Positive"
    );
}

#[test]
fn decide_answers_true_only_for_leading_true() {
    assert_eq!(aiDecide::decision_of("  TRUE"), "true");
    assert_eq!(aiDecide::decision_of("true."), "true");
    assert_eq!(aiDecide::decision_of("false"), "false");
    assert_eq!(aiDecide::decision_of("It is true"), "false");
    let c = aiDecide::run(&args(&["AIzaK", "msg", "is it spam?"])).ok().unwrap();
    assert_eq!(
        c.request.user_prompt,
        "Content: msg\n\nQuestion: is it spam?\n\nAnswer with only 'true' or 'false':"
    );
    assert_eq!(c.request.max_tokens, Some(5));
}

#[test]
fn extract_trims_the_reply() {
    assert_eq!(text_of(&aiExtract::finish(gemini_reply("  42 \n"))), "42");
    let o = aiExtract::run(&args(&["AIzaK", "text"])).err().unwrap();
    assert_eq!(text_of(&o), "ERR:ZaiExtract - argument 3 (instruction) is required");
}

#[test]
fn image_request_encodes_the_image_in_base64() {
    let p = imageAnalyze::run(&args(&["AIzaK", "https://x/y.png"])).ok().unwrap();
    assert_eq!(p.prompt, "Describe this image.");
    let fetch = ImageFetch::Fetched { content_type: Some(s("image/png; charset=x")), bytes: b"hello".to_vec() };
    let v = imageAnalyze::request_for(&p, &fetch).ok().unwrap();
    assert_eq!(v.data, "aGVsbG8=");
    assert_eq!(v.mime_type, "image/png");
    let v = vision_request("AIzaK", None, b"", "p", "");
    assert_eq!(v.mime_type, "image/jpeg");
    assert_eq!(v.data, "");
}

#[test]
fn image_fetch_failures_are_reported() {
    let p = ImagePlan { api_key: s("AIzaK"), image_url: s("u"), prompt: s("p"), model: s("") };
    let o = imageAnalyze::request_for(&p, &ImageFetch::SendFailed(s("dns"))).err().unwrap();
    assert_eq!(text_of(&o), "ERR:ZimageAnalyze - failed to fetch image: dns");
    let o = imageAnalyze::request_for(&p, &ImageFetch::ReadFailed(s("eof"))).err().unwrap();
    assert_eq!(text_of(&o), "ERR:ZimageAnalyze - failed to read image: eof");
}

#[test]
fn model_listing_keeps_generating_models() {
    let body = s("{\"models\":[{\"name\":\"models/a\",\"supportedGenerationMethods\":[\"generateContent\"]},\
                  {\"name\":\"models/b\",\"supportedGenerationMethods\":[\"embed\"]}]}");
    assert_eq!(
        read_models_reply(HttpOutcome::Received { status: 200, body }),
        Ok(s("Available models that support generateContent:\nmodels/a"))
    );
    assert_eq!(
        read_models_reply(HttpOutcome::Received { status: 401, body: s("no") }),
        Err(s("API error (401): no"))
    );
}

#[test]
fn chat_body_carries_generation_settings_only_when_given() {
    let request = chat_request("AIzaK", Some("be \"brief\""), "hi\n", "", None);
    let plain = ChatCall { request, temperature: Temperature::Unset };
    assert_eq!(
        chat_body(&plain, "0.7"),
        "{\"contents\":[{\"role\":\"user\",\"parts\":[{\"text\":\"hi\\n\"}]}],\
         \"systemInstruction\":{\"parts\":[{\"text\":\"be \\\"brief\\\"\"}]}}"
    );
    let request = chat_request("AIzaK", None, "q", "", Some(50));
    let tuned = ChatCall { request, temperature: Temperature::Given(s("0.7")) };
    assert_eq!(
        chat_body(&tuned, "0.7"),
        "{\"contents\":[{\"role\":\"user\",\"parts\":[{\"text\":\"q\"}]}],\
         \"generationConfig\":{\"temperature\":0.7,\"maxOutputTokens\":50}}"
    );
}

#[test]
fn vision_body_sends_the_image_then_the_prompt() {
    let v = vision_request("AIzaK", Some("image/png; q=1"), &[1, 2, 3], "what?", "m");
    assert_eq!(
        vision_body(&v),
        "{\"contents\":[{\"parts\":[{\"inline_data\":{\"mime_type\":\"image/png\",\"data\":\"AQID\"}},\
         {\"text\":\"what?\"}]}]}"
    );
    assert_eq!(
        read_models_reply(HttpOutcome::Received { status: 200, body: s("not json") }),
        Ok(s("not json"))
    );
}
