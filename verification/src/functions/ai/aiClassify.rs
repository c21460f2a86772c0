//! ZaiClassify{apiKey;content;categories;model?}
//! Classifies the content into one of the comma-separated categories.
use vstd::prelude::*;
use super::calls::{
    check_provider, first_refusal, key_refusal, optional_arg, optional_arg_of, reply_output,
    required_arg, required_refusal, ChatCall, Temperature,
};
use super::helpers::{generate_url, reply_spec, HttpOutcome};
use crate::args::nonempty_arg_spec;
use crate::context::{is_error, FnOutput};
use crate::text::{contains_spec, join_spec, lowercase_of, split_spec, trim_spec, views};

verus! {

/// The categories of a comma-separated list, each trimmed.
pub open spec fn categories(s: Seq<char>) -> Seq<Seq<char>> {
    split_spec(s, ',').map_values(|p: Seq<char>| trim_spec(p))
}

/// The system instruction that names the categories.
pub open spec fn system_prompt(cats: Seq<Seq<char>>) -> Seq<char> {
    "You are a strict classifier. You must respond with ONLY one of these exact categories: "@
        + join_spec(cats, ", "@)
        + ". No punctuation, no explanation, no other words. Just pick the single best matching category."@
}

/// The user prompt: what is classified (`subject`), then the categories.
pub open spec fn question(subject: Seq<char>, cats: Seq<Seq<char>>) -> Seq<char> {
    subject + "\n\nAvailable categories: "@ + join_spec(cats, ", "@)
        + "\n\nClassify into exactly one category:"@
}

/// The first category whose lowercase form occurs in `answer`.
pub open spec fn first_match(answer: Seq<char>, cats: Seq<Seq<char>>) -> Option<Seq<char>>
    decreases cats.len(),
{
    if cats.len() == 0 {
        None
    } else if contains_spec(answer, lowercase_of(cats[0])) {
        Some(cats[0])
    } else {
        first_match(answer, cats.drop_first())
    }
}

/// The result for a reply text: the first category that the trimmed, lowercased
/// reply contains (in lowercase), else the trimmed reply.
pub open spec fn classification(text: Seq<char>, cats: Seq<Seq<char>>) -> Seq<char> {
    match first_match(lowercase_of(trim_spec(text)), cats) {
        Some(c) => c,
        None => trim_spec(text),
    }
}

/// Why a call is refused, if it is.
pub open spec fn refusal(args: Seq<String>) -> Option<Seq<char>> {
    first_refusal(
        seq![
            required_refusal(args, 0, "apiKey"@),
            required_refusal(args, 1, "content"@),
            required_refusal(args, 2, "categories"@),
            key_refusal(args),
        ],
    )
}

/// A classification request and the categories its reply is matched against.
pub struct ClassifyCall {
    pub call: ChatCall,
    pub categories: Vec<String>,
}

/// The categories of a comma-separated list, each trimmed.
pub fn categories_of(s: &str) -> (r: Vec<String>)
    ensures
        views(r@) == categories(s@),
{
    let v = crate::text::chars_of(s);
    let pieces = crate::text::split(v.as_slice(), ',');
    let ghost want = categories(s@);
    let mut r: Vec<String> = Vec::new();
    let mut i: usize = 0;
    while i < pieces.len()
        invariant
            i <= pieces.len(),
            pieces@.len() == split_spec(s@, ',').len(),
            forall|k: int| 0 <= k < pieces@.len() ==> #[trigger] pieces@[k]@ == split_spec(s@, ',')[k],
            want == categories(s@),
            views(r@) == want.take(i as int),
        decreases pieces.len() - i,
    {
        let t = crate::text::trim(pieces[i].as_slice());
        let st = crate::text::string_of(t.as_slice());
        let ghost before = views(r@);
        r.push(st);
        assert(views(r@) =~= before.push(st@));
        assert(want.take(i + 1) =~= want.take(i as int).push(want[i as int]));
        i = i + 1;
    }
    assert(want.take(pieces.len() as int) =~= want);
    r
}

/// The system instruction for the categories.
pub fn system_prompt_of(cats: &Vec<String>) -> (r: String)
    ensures
        r@ == system_prompt(views(cats@)),
        r@.len() > 0,
{
    let j = crate::text::join(cats, ", ");
    assert(cats@.map_values(|p: String| p@) =~= views(cats@));
    let mut r = String::from_str(
        "You are a strict classifier. You must respond with ONLY one of these exact categories: ",
    );
    r.append(j.as_str());
    r.append(
        ". No punctuation, no explanation, no other words. Just pick the single best matching category.",
    );
    proof {
        reveal_strlit(
            "You are a strict classifier. You must respond with ONLY one of these exact categories: ",
        );
    }
    r
}

/// The user prompt for a subject and the categories.
pub fn question_of(subject: &str, cats: &Vec<String>) -> (r: String)
    ensures
        r@ == question(subject@, views(cats@)),
{
    let j = crate::text::join(cats, ", ");
    assert(cats@.map_values(|p: String| p@) =~= views(cats@));
    let mut r = String::from_str(subject);
    r.append("\n\nAvailable categories: ");
    r.append(j.as_str());
    r.append("\n\nClassify into exactly one category:");
    r
}

/// The classification of a reply text.
pub fn classification_of(text: &str, cats: &Vec<String>) -> (r: String)
    ensures
        r@ == classification(text@, views(cats@)),
{
    let trimmed = crate::text::trim_str(text);
    let answer = crate::text::to_lowercase(trimmed.as_str());
    let av = crate::text::chars_of(answer.as_str());
    let ghost all = views(cats@);
    assert(all.skip(0) =~= all);
    let mut i: usize = 0;
    while i < cats.len()
        invariant
            i <= cats.len(),
            all == views(cats@),
            av@ == lowercase_of(trim_spec(text@)),
            trimmed@ == trim_spec(text@),
            first_match(av@, all) == first_match(av@, all.skip(i as int)),
        decreases cats.len() - i,
    {
        assert(all.skip(i as int).drop_first() =~= all.skip(i + 1));
        assert(all.skip(i as int)[0] == cats@[i as int]@);
        let lc = crate::text::to_lowercase(cats[i].as_str());
        let lv = crate::text::chars_of(lc.as_str());
        if crate::text::contains(av.as_slice(), lv.as_slice()) {
            return cats[i].clone();
        }
        i = i + 1;
    }
    assert(all.skip(cats.len() as int) =~= Seq::<Seq<char>>::empty());
    trimmed
}

/// The function's output for a reply: the matched category, the trimmed reply,
/// or the error.
pub fn classified_output(function: &str, reply: HttpOutcome, cats: &Vec<String>) -> (r: FnOutput)
    ensures
        reply_output(
            r,
            function@,
            reply_spec(reply),
            |t: Seq<char>| classification(t, views(cats@)),
        ),
{
    match super::helpers::read_reply(reply) {
        Ok(t) => FnOutput::Text(classification_of(t.as_str(), cats)),
        Err(e) => FnOutput::error(function, e.as_str()),
    }
}

/// The request a call makes, or the error it is refused with.
pub fn run(args: &Vec<String>) -> (r: Result<ClassifyCall, FnOutput>)
    ensures
        match r {
            Err(o) => refusal(args@) matches Some(m) && is_error(o, "aiClassify"@, m),
            Ok(c) => {
                let cats = categories(nonempty_arg_spec(args@, 2)->0);
                &&& refusal(args@) is None
                &&& views(c.categories@) == cats
                &&& c.call.request.url@ == generate_url(
                    optional_arg(args@, 3),
                    nonempty_arg_spec(args@, 0)->0,
                )
                &&& c.call.request.system_instruction matches Some(s) && s@ == system_prompt(cats)
                &&& c.call.request.user_prompt@ == question(
                    "Content: "@ + nonempty_arg_spec(args@, 1)->0,
                    cats,
                )
                &&& c.call.request.max_tokens == Some(20u32)
                &&& c.call.temperature is Zero
            },
        },
{
    proof {
        reveal_with_fuel(first_refusal, 5);
    }
    let api_key = required_arg(args, 0, "aiClassify", "apiKey")?;
    let content = required_arg(args, 1, "aiClassify", "content")?;
    let list = required_arg(args, 2, "aiClassify", "categories")?;
    let model = optional_arg_of(args, 3);
    let cats = categories_of(list.as_str());
    let system = system_prompt_of(&cats);
    let mut subject = String::from_str("Content: ");
    subject.append(content.as_str());
    let prompt = question_of(subject.as_str(), &cats);
    check_provider(api_key.as_str(), "aiClassify")?;
    let request = super::helpers::chat_request(
        api_key.as_str(),
        Some(system.as_str()),
        prompt.as_str(),
        model.as_str(),
        Some(20),
    );
    Ok(ClassifyCall { call: ChatCall { request, temperature: Temperature::Zero }, categories: cats })
}

/// The matched category, the trimmed reply, or the error.
pub fn finish(reply: HttpOutcome, cats: &Vec<String>) -> (r: FnOutput)
    ensures
        reply_output(
            r,
            "aiClassify"@,
            reply_spec(reply),
            |t: Seq<char>| classification(t, views(cats@)),
        ),
{
    classified_output("aiClassify", reply, cats)
}


// ── Laws ────────────────────────────────────────────────────────────────

proof fn lemma_first_match_member(answer: Seq<char>, cats: Seq<Seq<char>>)
    ensures
        first_match(answer, cats) matches Some(c) ==> cats.contains(c),
    decreases cats.len(),
{
    if cats.len() > 0 {
        lemma_first_match_member(answer, cats.drop_first());
        if let Some(c) = first_match(answer, cats.drop_first()) {
            if !contains_spec(answer, lowercase_of(cats[0])) {
                let k = choose|k: int| 0 <= k < cats.drop_first().len() && cats.drop_first()[k] == c;
                assert(cats[k + 1] == c);
            }
        }
        if contains_spec(answer, lowercase_of(cats[0])) {
            assert(cats.contains(cats[0]));
        }
    }
}

/// A classification is one of the categories, or else the trimmed reply.
pub proof fn law_classification_is_a_category_or_the_reply(text: Seq<char>, cats: Seq<Seq<char>>)
    ensures
        cats.contains(classification(text, cats)) || classification(text, cats) == trim_spec(text),
{
    lemma_first_match_member(lowercase_of(trim_spec(text)), cats);
}

} // verus!
