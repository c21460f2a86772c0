//! Requests to Gemini and the reading of its replies.
use vstd::prelude::*;
use crate::decimal::decimal;
use crate::json::{json_document, json_get, json_quoted, json_str, json_string, parse_json, JsonValue};
use crate::text::{join_spec, starts_with_spec, views};

verus! {

/// Detected AI provider based on API key prefix.
pub enum AiProvider {
    Gemini,
}

/// The error for an API key of no known provider.
pub open spec fn unknown_key_text() -> Seq<char> {
    "unrecognized API key format \u{2014} currently only Gemini (AIza... or AQ...) is supported"@
}

/// The provider an API key belongs to: Gemini for keys starting `AIza` or `AQ`.
pub fn detect_provider(api_key: &str) -> (r: Result<AiProvider, String>)
    ensures
        starts_with_spec(api_key@, "AIza"@) || starts_with_spec(api_key@, "AQ"@) ==> r matches Ok(
            AiProvider::Gemini,
        ),
        !(starts_with_spec(api_key@, "AIza"@) || starts_with_spec(api_key@, "AQ"@)) ==> (r matches Err(
            e,
        ) && e@ == unknown_key_text()),
{
    let k = crate::text::chars_of(api_key);
    let p1 = crate::text::chars_of("AIza");
    let p2 = crate::text::chars_of("AQ");
    if crate::text::starts_with(k.as_slice(), p1.as_slice()) || crate::text::starts_with(
        k.as_slice(),
        p2.as_slice(),
    ) {
        Ok(AiProvider::Gemini)
    } else {
        Err(
            String::from_str(
                "unrecognized API key format \u{2014} currently only Gemini (AIza... or AQ...) is supported",
            ),
        )
    }
}

/// The model used where none is named.
pub open spec fn model_or_default(model: Seq<char>) -> Seq<char> {
    if model.len() == 0 {
        "gemini-2.5-flash-lite"@
    } else {
        model
    }
}

/// The generateContent endpoint for a model and key.
pub open spec fn generate_url(model: Seq<char>, api_key: Seq<char>) -> Seq<char> {
    "https://generativelanguage.googleapis.com/v1beta/models/"@ + model_or_default(model)
        + ":generateContent?key="@ + api_key
}

/// The generateContent endpoint for a model (the default one where `model` is
/// empty) and key.
pub fn generate_url_of(model: &str, api_key: &str) -> (r: String)
    ensures
        r@ == generate_url(model@, api_key@),
{
    let mut r = String::from_str("https://generativelanguage.googleapis.com/v1beta/models/");
    if model.is_empty() {
        r.append("gemini-2.5-flash-lite");
    } else {
        r.append(model);
    }
    r.append(":generateContent?key=");
    r.append(api_key);
    assert(r@ =~= generate_url(model@, api_key@));
    r
}

/// A chat request: where it goes, the system instruction (where one is given and
/// not empty), the user prompt and the output limit. The temperature, where
/// there is one, is the caller's.
pub struct ChatRequest {
    pub url: String,
    pub system_instruction: Option<String>,
    pub user_prompt: String,
    pub max_tokens: Option<u32>,
}

/// The request for a chat with Gemini.
pub fn chat_request(
    api_key: &str,
    system_prompt: Option<&str>,
    user_prompt: &str,
    model: &str,
    max_tokens: Option<u32>,
) -> (r: ChatRequest)
    ensures
        r.url@ == generate_url(model@, api_key@),
        match system_prompt {
            Some(s) => if s@.len() > 0 {
                r.system_instruction matches Some(x) && x@ == s@
            } else {
                r.system_instruction is None
            },
            None => r.system_instruction is None,
        },
        r.user_prompt@ == user_prompt@,
        r.max_tokens == max_tokens,
{
    let system_instruction = match system_prompt {
        Some(s) => if s.is_empty() {
            None
        } else {
            Some(String::from_str(s))
        },
        None => None,
    };
    ChatRequest {
        url: generate_url_of(model, api_key),
        system_instruction,
        user_prompt: String::from_str(user_prompt),
        max_tokens,
    }
}

/// What became of an HTTP request.
pub enum HttpOutcome {
    /// The request could not be sent; the transport's error text.
    SendFailed(String),
    /// The body could not be read; the transport's error text.
    ReadFailed(String),
    /// A reply: its status and its body.
    Received { status: u16, body: String },
}

/// A reply body as JSON, where it parses as a JSON document.
pub open spec fn body_json(body: Seq<char>) -> Option<JsonValue> {
    match json_document(body) {
        Ok(v) => Some(v),
        Err(_) => None,
    }
}

/// Parses a reply body as JSON.
fn parse_body(body: &str) -> (r: Option<JsonValue>)
    ensures
        r == body_json(body@),
{
    match parse_json(body) {
        Ok(v) => Some(v),
        Err(_) => None,
    }
}

/// Element `i` of a JSON array (`value[i]`).
pub open spec fn json_at(v: Option<JsonValue>, i: int) -> Option<JsonValue> {
    match v {
        Some(JsonValue::Array(items)) => if 0 <= i < items@.len() {
            Some(items@[i])
        } else {
            None
        },
        _ => None,
    }
}

/// Member `key` of a JSON object (`value[key]`).
pub open spec fn json_member(v: Option<JsonValue>, key: Seq<char>) -> Option<JsonValue> {
    match v {
        Some(x) => json_get(x, key),
        None => None,
    }
}

/// The text of the first part of the first candidate of a reply.
pub open spec fn candidate_text(v: JsonValue) -> Option<Seq<char>> {
    json_str(
        json_member(
            json_at(
                json_member(json_member(json_at(json_member(Some(v), "candidates"@), 0), "content"@), "parts"@),
                0,
            ),
            "text"@,
        ),
    )
}

/// The error message of a Gemini error reply.
pub open spec fn error_message(v: Option<JsonValue>) -> Option<Seq<char>> {
    json_str(json_member(json_member(v, "error"@), "message"@))
}

/// The text a Gemini reply gives, or why there is none.
pub open spec fn reply_spec(o: HttpOutcome) -> Result<Seq<char>, Seq<char>> {
    match o {
        HttpOutcome::SendFailed(e) => Err("request failed: "@ + e@),
        HttpOutcome::ReadFailed(e) => Err("failed to read response: "@ + e@),
        HttpOutcome::Received { status, body } => if status != 200 {
            match error_message(body_json(body@)) {
                Some(m) => Err("Gemini API error ("@ + decimal(status as nat) + "): "@ + m),
                None => Err("Gemini API error ("@ + decimal(status as nat) + "): "@ + body@),
            }
        } else {
            match body_json(body@) {
                None => Err("failed to parse Gemini response"@),
                Some(v) => match candidate_text(v) {
                    Some(t) => Ok(t),
                    None => Err("no text in Gemini response"@),
                },
            }
        },
    }
}

fn member<'a>(v: Option<&'a JsonValue>, key: &str) -> (r: Option<&'a JsonValue>)
    ensures
        match r {
            Some(x) => json_member(match v { Some(y) => Some(*y), None => None }, key@) == Some(*x),
            None => json_member(match v { Some(y) => Some(*y), None => None }, key@) is None,
        },
{
    match v {
        Some(x) => crate::json::get(x, key),
        None => None,
    }
}

fn at<'a>(v: Option<&'a JsonValue>, i: usize) -> (r: Option<&'a JsonValue>)
    ensures
        match r {
            Some(x) => json_at(match v { Some(y) => Some(*y), None => None }, i as int) == Some(*x),
            None => json_at(match v { Some(y) => Some(*y), None => None }, i as int) is None,
        },
{
    match v {
        Some(JsonValue::Array(items)) => if i < items.len() {
            Some(&items[i])
        } else {
            None
        },
        _ => None,
    }
}

fn status_error(status: u16, detail: &str) -> (r: String)
    ensures
        r@ == "Gemini API error ("@ + decimal(status as nat) + "): "@ + detail@,
{
    let mut r = String::from_str("Gemini API error (");
    r.append(crate::decimal::u64_text(status as u64).as_str());
    r.append("): ");
    r.append(detail);
    r
}

pub(crate) fn prefixed(prefix: &str, e: &str) -> (r: String)
    ensures
        r@ == prefix@ + e@,
{
    let mut r = String::from_str(prefix);
    r.append(e);
    r
}

/// The text of a Gemini reply, or the error for a failed request, an error
/// status or a reply without text.
pub fn read_reply(o: HttpOutcome) -> (r: Result<String, String>)
    ensures
        match r {
            Ok(t) => reply_spec(o) == Ok::<Seq<char>, Seq<char>>(t@),
            Err(e) => reply_spec(o) == Err::<Seq<char>, Seq<char>>(e@),
        },
{
    match o {
        HttpOutcome::SendFailed(e) => Err(prefixed("request failed: ", e.as_str())),
        HttpOutcome::ReadFailed(e) => Err(prefixed("failed to read response: ", e.as_str())),
        HttpOutcome::Received { status, body } => {
            let json = parse_body(body.as_str());
            if status != 200 {
                let m = crate::json::as_str(member(member(json.as_ref(), "error"), "message"));
                match m {
                    Some(msg) => Err(status_error(status, msg.as_str())),
                    None => Err(status_error(status, body.as_str())),
                }
            } else {
                match &json {
                    None => Err(String::from_str("failed to parse Gemini response")),
                    Some(v) => {
                        let t = crate::json::as_str(
                            member(
                                at(member(member(at(member(Some(v), "candidates"), 0), "content"), "parts"), 0),
                                "text",
                            ),
                        );
                        match t {
                            Some(s) => Ok(s.clone()),
                            None => Err(String::from_str("no text in Gemini response")),
                        }
                    },
                }
            }
        },
    }
}

/// The character of a base64 digit in the standard alphabet: `A`..=`Z`,
/// `a`..=`z`, `0`..=`9`, `+`, `/`.
pub open spec fn b64_digit(n: int) -> char {
    if n < 26 {
        (65 + n) as char
    } else if n < 52 {
        (71 + n) as char
    } else if n < 62 {
        (n - 4) as char
    } else if n == 62 {
        '+'
    } else {
        '/'
    }
}

/// Standard base64 with padding: each group of three bytes gives four digits
/// of six bits each; a last group of two bytes gives three digits and `=`, of
/// one byte two digits and `==`.
pub open spec fn base64_standard(b: Seq<u8>) -> Seq<char>
    decreases b.len(),
{
    if b.len() == 0 {
        Seq::empty()
    } else if b.len() == 1 {
        let n = b[0] as int;
        seq![b64_digit(n / 4), b64_digit((n % 4) * 16), '=', '=']
    } else if b.len() == 2 {
        let n = b[0] * 256 + b[1];
        seq![b64_digit(n / 1024), b64_digit((n / 16) % 64), b64_digit((n % 16) * 4), '=']
    } else {
        let n = b[0] * 65536 + b[1] * 256 + b[2];
        seq![b64_digit(n / 262144), b64_digit((n / 4096) % 64), b64_digit((n / 64) % 64), b64_digit(n % 64)]
            + base64_standard(b.subrange(3, b.len() as int))
    }
}

/// `base64::engine::general_purpose::STANDARD.encode`: the standard padded
/// base64 text of the bytes, `base64_standard`. The length bound keeps clear of
/// the crate's size-overflow panic.
#[verifier::external_body]
fn encode_base64(bytes: &[u8]) -> (r: String)
    requires
        bytes@.len() <= usize::MAX / 2,
    ensures
        r@ == base64_standard(bytes@),
{
    base64::Engine::encode(&base64::engine::general_purpose::STANDARD, bytes)
}

/// An image request: where it goes, the image's MIME type and its bytes in
/// base64, and the prompt.
pub struct VisionRequest {
    pub url: String,
    pub mime_type: String,
    pub data: String,
    pub prompt: String,
}

/// The JSON body of an image request: one content whose parts are the image
/// (its MIME type and base64 data), then the prompt.
pub open spec fn vision_body_text(mime_type: Seq<char>, data: Seq<char>, prompt: Seq<char>) -> Seq<char> {
    "{\"contents\":[{\"parts\":[{\"inline_data\":{\"mime_type\":"@ + json_quoted(mime_type)
        + ",\"data\":"@ + json_quoted(data) + "}},{\"text\":"@ + json_quoted(prompt) + "}]}]}"@
}

/// The JSON body of an image request.
pub fn vision_body(v: &VisionRequest) -> (r: String)
    ensures
        r@ == vision_body_text(v.mime_type@, v.data@, v.prompt@),
{
    let mut r = String::from_str("{\"contents\":[{\"parts\":[{\"inline_data\":{\"mime_type\":");
    r.append(json_string(v.mime_type.as_str()).as_str());
    r.append(",\"data\":");
    r.append(json_string(v.data.as_str()).as_str());
    r.append("}},{\"text\":");
    r.append(json_string(v.prompt.as_str()).as_str());
    r.append("}]}]}");
    assert(r@ =~= vision_body_text(v.mime_type@, v.data@, v.prompt@));
    r
}

/// The MIME type of a fetched image: its content type without parameters, or
/// `image/jpeg` where the reply names none.
pub open spec fn mime_of(content_type: Option<Seq<char>>) -> Seq<char> {
    let ct = match content_type {
        Some(c) => c,
        None => "image/jpeg"@,
    };
    crate::text::trim_spec(crate::text::split_spec(ct, ';')[0])
}

/// The request for an image description, given the fetched image.
pub fn vision_request(
    api_key: &str,
    content_type: Option<&str>,
    bytes: &[u8],
    prompt: &str,
    model: &str,
) -> (r: VisionRequest)
    requires
        bytes@.len() <= usize::MAX / 2,
    ensures
        r.url@ == generate_url(model@, api_key@),
        r.mime_type@ == mime_of(match content_type {
            Some(c) => Some(c@),
            None => None,
        }),
        r.data@ == base64_standard(bytes@),
        r.prompt@ == prompt@,
{
    let ct = match content_type {
        Some(c) => crate::text::chars_of(c),
        None => crate::text::chars_of("image/jpeg"),
    };
    let pieces = crate::text::split(ct.as_slice(), ';');
    proof {
        crate::text::lemma_split_nonempty(ct@, ';');
    }
    let first = crate::text::trim(pieces[0].as_slice());
    VisionRequest {
        url: generate_url_of(model, api_key),
        mime_type: crate::text::string_of(first.as_slice()),
        data: encode_base64(bytes),
        prompt: String::from_str(prompt),
    }
}

/// The endpoint listing the models a key can use.
pub open spec fn models_url(api_key: Seq<char>) -> Seq<char> {
    "https://generativelanguage.googleapis.com/v1/models?key="@ + api_key
}

/// The endpoint listing the models a key can use.
pub fn models_url_of(api_key: &str) -> (r: String)
    ensures
        r@ == models_url(api_key@),
{
    prefixed("https://generativelanguage.googleapis.com/v1/models?key=", api_key)
}

/// The model supports generateContent.
pub open spec fn supports_generate(m: JsonValue) -> bool {
    match json_get(m, "supportedGenerationMethods"@) {
        Some(JsonValue::Array(methods)) => exists|i: int|
            0 <= i < methods@.len() && json_str(Some(#[trigger] methods@[i])) == Some(
                "generateContent"@,
            ),
        _ => false,
    }
}

/// The names of the listed models that have a name and support generateContent.
pub open spec fn generating_models(models: Seq<JsonValue>) -> Seq<Seq<char>>
    decreases models.len(),
{
    if models.len() == 0 {
        Seq::empty()
    } else {
        let prev = generating_models(models.drop_last());
        match json_str(json_get(models.last(), "name"@)) {
            Some(n) => if supports_generate(models.last()) {
                prev.push(n)
            } else {
                prev
            },
            None => prev,
        }
    }
}

/// What a model listing gives: the names of the models that support
/// generateContent under a heading, the raw reply where it lists no models, or
/// the error.
pub open spec fn models_reply_spec(o: HttpOutcome) -> Result<Seq<char>, Seq<char>> {
    match o {
        HttpOutcome::SendFailed(e) => Err("request failed: "@ + e@),
        HttpOutcome::ReadFailed(e) => Err("failed to read response: "@ + e@),
        HttpOutcome::Received { status, body } => if status != 200 {
            Err("API error ("@ + decimal(status as nat) + "): "@ + body@)
        } else {
            match json_member(body_json(body@), "models"@) {
                Some(JsonValue::Array(models)) => Ok(
                    "Available models that support generateContent:\n"@ + join_spec(
                        generating_models(models@),
                        "\n"@,
                    ),
                ),
                _ => Ok(body@),
            }
        },
    }
}

fn supports_generate_of(m: &JsonValue) -> (r: bool)
    ensures
        r == supports_generate(*m),
{
    match crate::json::get(m, "supportedGenerationMethods") {
        Some(JsonValue::Array(methods)) => {
            let mut i: usize = 0;
            while i < methods.len()
                invariant
                    i <= methods.len(),
                    json_get(*m, "supportedGenerationMethods"@) == Some(JsonValue::Array(*methods)),
                    forall|k: int|
                        0 <= k < i ==> json_str(Some(#[trigger] methods@[k])) != Some(
                            "generateContent"@,
                        ),
                decreases methods.len() - i,
            {
                match &methods[i] {
                    JsonValue::String(s) => {
                        if crate::text::str_eq(s.as_str(), "generateContent") {
                            assert(json_str(Some(methods@[i as int])) == Some("generateContent"@));
                            return true;
                        }
                    },
                    _ => {},
                }
                i = i + 1;
            }
            false
        },
        _ => false,
    }
}

/// The reply to a model listing.
pub fn read_models_reply(o: HttpOutcome) -> (r: Result<String, String>)
    ensures
        match r {
            Ok(t) => models_reply_spec(o) == Ok::<Seq<char>, Seq<char>>(t@),
            Err(e) => models_reply_spec(o) == Err::<Seq<char>, Seq<char>>(e@),
        },
{
    match o {
        HttpOutcome::SendFailed(e) => Err(prefixed("request failed: ", e.as_str())),
        HttpOutcome::ReadFailed(e) => Err(prefixed("failed to read response: ", e.as_str())),
        HttpOutcome::Received { status, body } => {
            if status != 200 {
                let mut r = String::from_str("API error (");
                r.append(crate::decimal::u64_text(status as u64).as_str());
                r.append("): ");
                r.append(body.as_str());
                return Err(r);
            }
            let json = parse_body(body.as_str());
            match member(json.as_ref(), "models") {
                Some(JsonValue::Array(models)) => {
                    let mut names: Vec<String> = Vec::new();
                    let mut i: usize = 0;
                    while i < models.len()
                        invariant
                            i <= models.len(),
                            views(names@) == generating_models(models@.take(i as int)),
                        decreases models.len() - i,
                    {
                        assert(models@.take(i + 1).drop_last() =~= models@.take(i as int));
                        let ghost n0 = views(names@);
                        match crate::json::as_str(crate::json::get(&models[i], "name")) {
                            Some(n) => {
                                if supports_generate_of(&models[i]) {
                                    names.push(n.clone());
                                    assert(views(names@) =~= n0.push(n@));
                                }
                            },
                            None => {},
                        }
                        i = i + 1;
                    }
                    assert(models@.take(models.len() as int) =~= models@);
                    let mut r = String::from_str("Available models that support generateContent:\n");
                    r.append(crate::text::join(&names, "\n").as_str());
                    Ok(r)
                },
                _ => Ok(body),
            }
        },
    }
}

} // verus!
