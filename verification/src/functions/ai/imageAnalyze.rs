//! ZimageAnalyze{apiKey;imageURL;prompt?;model?}
//! Fetches an image and asks the AI to describe it.
use vstd::prelude::*;
use super::calls::{
    check_provider, first_refusal, key_refusal, optional_arg, optional_arg_of, reply_output,
    required_arg, required_refusal, text_output,
};
use super::helpers::{base64_standard, generate_url, mime_of, reply_spec, HttpOutcome, VisionRequest};
use crate::args::nonempty_arg_spec;
use crate::context::{is_error, FnOutput};

verus! {

/// The prompt used where none is given.
pub open spec fn default_prompt() -> Seq<char> {
    "Describe this image."@
}

/// Why a call is refused, if it is.
pub open spec fn refusal(args: Seq<String>) -> Option<Seq<char>> {
    first_refusal(
        seq![
            required_refusal(args, 0, "apiKey"@),
            required_refusal(args, 1, "imageURL"@),
            key_refusal(args),
        ],
    )
}

/// What an accepted call works with.
pub struct ImagePlan {
    pub api_key: String,
    pub image_url: String,
    pub prompt: String,
    pub model: String,
}

/// What became of fetching the image.
pub enum ImageFetch {
    /// The request could not be sent; the transport's error text.
    SendFailed(String),
    /// The body could not be read; the transport's error text.
    ReadFailed(String),
    /// The image: its content type where the reply names one, and its bytes.
    Fetched { content_type: Option<String>, bytes: Vec<u8> },
}

/// The plan of a call, or the error it is refused with.
pub fn run(args: &Vec<String>) -> (r: Result<ImagePlan, FnOutput>)
    ensures
        match r {
            Err(o) => refusal(args@) matches Some(m) && is_error(o, "imageAnalyze"@, m),
            Ok(p) => {
                &&& refusal(args@) is None
                &&& p.api_key@ == nonempty_arg_spec(args@, 0)->0
                &&& p.image_url@ == nonempty_arg_spec(args@, 1)->0
                &&& p.prompt@ == (match nonempty_arg_spec(args@, 2) {
                    Some(s) => s,
                    None => default_prompt(),
                })
                &&& p.model@ == optional_arg(args@, 3)
            },
        },
{
    proof {
        reveal_with_fuel(first_refusal, 4);
    }
    let api_key = required_arg(args, 0, "imageAnalyze", "apiKey")?;
    let image_url = required_arg(args, 1, "imageAnalyze", "imageURL")?;
    let prompt = match crate::args::nonempty_arg(args, 2) {
        Some(s) => s,
        None => String::from_str("Describe this image."),
    };
    let model = optional_arg_of(args, 3);
    check_provider(api_key.as_str(), "imageAnalyze")?;
    Ok(ImagePlan { api_key, image_url, prompt, model })
}

fn prefixed_error(prefix: &str, e: &str) -> (r: FnOutput)
    ensures
        is_error(r, "imageAnalyze"@, prefix@ + e@),
{
    let m = super::helpers::prefixed(prefix, e);
    FnOutput::error("imageAnalyze", m.as_str())
}

/// The request that describes the fetched image, or the error of the fetch.
pub fn request_for(p: &ImagePlan, fetch: &ImageFetch) -> (r: Result<VisionRequest, FnOutput>)
    requires
        fetch matches ImageFetch::Fetched { bytes, .. } ==> bytes@.len() <= usize::MAX / 2,
    ensures
        match *fetch {
            ImageFetch::SendFailed(e) => r matches Err(o) && is_error(
                o,
                "imageAnalyze"@,
                "failed to fetch image: "@ + e@,
            ),
            ImageFetch::ReadFailed(e) => r matches Err(o) && is_error(
                o,
                "imageAnalyze"@,
                "failed to read image: "@ + e@,
            ),
            ImageFetch::Fetched { content_type, bytes } => r matches Ok(v) && {
                &&& v.url@ == generate_url(p.model@, p.api_key@)
                &&& v.mime_type@ == mime_of(
                    match content_type {
                        Some(c) => Some(c@),
                        None => None,
                    },
                )
                &&& v.data@ == base64_standard(bytes@)
                &&& v.prompt@ == p.prompt@
            },
        },
{
    match fetch {
        ImageFetch::SendFailed(e) => Err(prefixed_error("failed to fetch image: ", e.as_str())),
        ImageFetch::ReadFailed(e) => Err(prefixed_error("failed to read image: ", e.as_str())),
        ImageFetch::Fetched { content_type, bytes } => {
            let ct = match content_type {
                Some(c) => Some(c.as_str()),
                None => None,
            };
            Ok(
                super::helpers::vision_request(
                    p.api_key.as_str(),
                    ct,
                    bytes.as_slice(),
                    p.prompt.as_str(),
                    p.model.as_str(),
                ),
            )
        },
    }
}

/// The description, or the error.
pub fn finish(reply: HttpOutcome) -> (r: FnOutput)
    ensures
        reply_output(r, "imageAnalyze"@, reply_spec(reply), |t: Seq<char>| t),
{
    text_output("imageAnalyze", reply)
}

} // verus!
