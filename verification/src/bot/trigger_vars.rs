//! Prefix triggers may name stored variables (`ZgetVar{name}` and the server,
//! user and channel forms); they are resolved before a message is matched.
//! Resolution is a state machine: the bot supplies each value it reads from
//! the database, and at most five references are resolved.
use vstd::prelude::*;
use super::TextMap;
use crate::text::{first_index_of, occurs_at, replace_spec};

verus! {

/// `Z`, then the function name `f`, then `{` follow at `i`.
pub open spec fn names_at(s: Seq<char>, i: int, f: Seq<char>) -> bool {
    0 <= i < s.len() && s[i] == 'Z' && occurs_at(s, f.push('{'), i + 1)
}

/// The function of a reference starting at `i`: one of `getVar`,
/// `getServerVar`, `getUserVar` and `getChannelVar`.
pub open spec fn function_at(s: Seq<char>, i: int) -> Option<Seq<char>> {
    if names_at(s, i, "getVar"@) {
        Some("getVar"@)
    } else if names_at(s, i, "getServerVar"@) {
        Some("getServerVar"@)
    } else if names_at(s, i, "getUserVar"@) {
        Some("getUserVar"@)
    } else if names_at(s, i, "getChannelVar"@) {
        Some("getChannelVar"@)
    } else {
        None
    }
}

/// The reference starting at `i`, if one does: the whole reference, its
/// function and its variable name (one or more characters, up to the first
/// `}` after the `{`).
pub open spec fn reference_at(s: Seq<char>, i: int) -> Option<(Seq<char>, Seq<char>, Seq<char>)> {
    match function_at(s, i) {
        Some(f) => {
            let start = i + f.len() + 2;
            match first_index_of(s.subrange(start, s.len() as int), '}') {
                Some(k) => if k >= 1 {
                    Some((s.subrange(i, start + k + 1), f, s.subrange(start, start + k)))
                } else {
                    None
                },
                None => None,
            }
        },
        None => None,
    }
}

/// The first reference at or after `i`.
pub open spec fn first_reference_from(s: Seq<char>, i: int) -> Option<
    (Seq<char>, Seq<char>, Seq<char>),
>
    decreases s.len() - i,
{
    if i < 0 || i >= s.len() {
        None
    } else {
        match reference_at(s, i) {
            Some(r) => Some(r),
            None => first_reference_from(s, i + 1),
        }
    }
}

/// The leftmost reference in `s`.
pub open spec fn first_reference(s: Seq<char>) -> Option<(Seq<char>, Seq<char>, Seq<char>)> {
    first_reference_from(s, 0)
}

/// `regex::Regex`, held as it is.
#[verifier::external_type_specification]
#[verifier::external_body]
pub struct ExRegex(regex::Regex);

/// The compiled pattern of a variable reference,
/// `Z(getVar|getServerVar|getUserVar|getChannelVar)\{([^}]+)\}`. Its field is
/// private: every value holds that pattern.
pub struct ReferencePattern {
    re: regex::Regex,
}

impl ReferencePattern {
    /// Compiles the pattern with `regex::Regex::new`. The pattern is valid, so
    /// the compilation does not fail; nothing is stated of the compiled value.
    #[verifier::external_body]
    pub fn new() -> (r: Self) {
        ReferencePattern {
            re: regex::Regex::new(r"Z(getVar|getServerVar|getUserVar|getChannelVar)\{([^}]+)\}").unwrap(),
        }
    }

    /// The leftmost reference in `text`, found with `Regex::captures`: the
    /// whole match and the two groups. The contract states the crate's
    /// leftmost-first match for this pattern: the first position where `Z`, one
    /// of the four names, `{`, one or more characters other than `}`, and `}`
    /// follow.
    #[verifier::external_body]
    fn find(&self, text: &str) -> (r: Option<(String, String, String)>)
        ensures
            match r {
                Some(x) => first_reference(text@) == Some((x.0@, x.1@, x.2@)),
                None => first_reference(text@) is None,
            },
    {
        self.re.captures(text).map(|c| (c[0].to_string(), c[1].to_string(), c[2].to_string()))
    }
}

/// The most references resolved in one trigger.
pub open spec fn max_references() -> nat {
    5
}

/// The cache key of a reference.
pub open spec fn cache_key(function: Seq<char>, name: Seq<char>) -> Seq<char> {
    function + ":"@ + name
}

/// Resolution of a trigger in progress: the text so far, the references
/// resolved or being resolved, and the reference awaiting a value (the whole
/// reference and its cache key).
pub struct Resolution {
    pub text: String,
    pub iterations: usize,
    pub pending: Option<(String, String)>,
}

/// What resolution needs next.
pub enum ResolveStep {
    /// The text is resolved.
    Done,
    /// The value of a variable is needed: read it with `function` and supply it.
    Lookup { function: String, name: String },
}

/// Where resolution goes from `text` after `it` references: references whose
/// value is cached are substituted (every occurrence of the whole reference)
/// until none is left, five have been taken, or one needs a value. The result
/// is the text, the count, and the reference awaiting a value, if any.
pub open spec fn advance(text: Seq<char>, it: nat, cache: Map<Seq<char>, Seq<char>>) -> (
    Seq<char>,
    nat,
    Option<(Seq<char>, Seq<char>, Seq<char>)>,
)
    decreases max_references() - it,
{
    match first_reference(text) {
        None => (text, it, None),
        Some(m) => if it >= max_references() {
            (text, it, None)
        } else {
            let key = cache_key(m.1, m.2);
            if cache.contains_key(key) {
                advance(replace_spec(text, m.0, cache[key]), it + 1, cache)
            } else {
                (text, it + 1, Some(m))
            }
        },
    }
}

/// A found reference starts with `Z`, so it is not empty.
pub proof fn lemma_reference_nonempty(s: Seq<char>, i: int)
    ensures
        first_reference_from(s, i) matches Some(m) ==> m.0.len() > 0,
    decreases s.len() - i,
{
    if 0 <= i < s.len() {
        match function_at(s, i) {
            Some(f) => {
                let start = i + f.len() + 2;
                crate::text::lemma_first_index_of_props(s.subrange(start, s.len() as int), '}');
            },
            None => {},
        }
        if reference_at(s, i) is None {
            lemma_reference_nonempty(s, i + 1);
        }
    }
}

impl Resolution {
    /// Resolution of a trigger, not started.
    pub fn new(trigger: String) -> (r: Self)
        ensures
            r.text@ == trigger@,
            r.iterations == 0,
            r.pending is None,
    {
        Resolution { text: trigger, iterations: 0, pending: None }
    }

    /// Substitutes the cached references and says what is needed next: a
    /// lookup, or nothing. Never more than five references are taken.
    pub fn next_step(&mut self, cache: &TextMap, pattern: &ReferencePattern) -> (r: ResolveStep)
        requires
            old(self).iterations <= max_references(),
        ensures
            ({
                let a = advance(old(self).text@, old(self).iterations as nat, cache@);
                &&& final(self).text@ == a.0
                &&& final(self).iterations == a.1
                &&& match a.2 {
                    None => r is Done && final(self).pending is None,
                    Some(m) => (r matches ResolveStep::Lookup { function, name } && function@ == m.1
                        && name@ == m.2) && (final(self).pending matches Some(p) && p.0@ == m.0
                        && p.1@ == cache_key(m.1, m.2)),
                }
            }),
            final(self).iterations <= max_references(),
            final(self).pending matches Some(p) ==> p.0@.len() > 0,
    {
        let ghost target = advance(self.text@, self.iterations as nat, cache@);
        self.pending = None;
        loop
            invariant
                self.iterations <= max_references(),
                target == advance(old(self).text@, old(self).iterations as nat, cache@),
                advance(self.text@, self.iterations as nat, cache@) == target,
                self.pending is None,
            decreases max_references() - self.iterations,
        {
            match pattern.find(self.text.as_str()) {
                None => {
                    return ResolveStep::Done;
                },
                Some((whole, function, name)) => {
                    if self.iterations >= 5 {
                        return ResolveStep::Done;
                    }
                    proof {
                        lemma_reference_nonempty(self.text@, 0);
                    }
                    self.iterations = self.iterations + 1;
                    let mut key = function.clone();
                    key.append(":");
                    key.append(name.as_str());
                    match cache.get(key.as_str()) {
                        Some(v) => {
                            let t = crate::text::chars_of(self.text.as_str());
                            let w = crate::text::chars_of(whole.as_str());
                            let vv = crate::text::chars_of(v.as_str());
                            let out = crate::text::replace_all(t.as_slice(), w.as_slice(), vv.as_slice());
                            self.text = crate::text::string_of(out.as_slice());
                        },
                        None => {
                            self.pending = Some((whole, key));
                            return ResolveStep::Lookup { function, name };
                        },
                    }
                },
            }
        }
    }

    /// Supplies the value of the reference awaiting one: it is cached and
    /// substituted for every occurrence of the reference.
    pub fn supply(&mut self, cache: &mut TextMap, value: String)
        requires
            old(self).pending matches Some(p) && p.0@.len() > 0,
        ensures
            ({
                let p = old(self).pending->0;
                &&& final(cache)@ == old(cache)@.insert(p.1@, value@)
                &&& final(self).text@ == replace_spec(old(self).text@, p.0@, value@)
            }),
            final(self).iterations == old(self).iterations,
            final(self).pending is None,
    {
        match self.pending.take() {
            Some((whole, key)) => {
                let t = crate::text::chars_of(self.text.as_str());
                let w = crate::text::chars_of(whole.as_str());
                let vv = crate::text::chars_of(value.as_str());
                let out = crate::text::replace_all(t.as_slice(), w.as_slice(), vv.as_slice());
                self.text = crate::text::string_of(out.as_slice());
                cache.insert(key, value);
            },
            None => {},
        }
    }
}


// ── Laws ────────────────────────────────────────────────────────────────

/// A trigger without references is left as it is, and nothing is looked up.
pub proof fn law_plain_trigger_unchanged(text: Seq<char>, it: nat, cache: Map<Seq<char>, Seq<char>>)
    requires
        first_reference(text) is None,
    ensures
        advance(text, it, cache) == (text, it, None::<(Seq<char>, Seq<char>, Seq<char>)>),
{
}

/// However many references a trigger holds, resolution takes at most five.
pub proof fn law_at_most_five_references(text: Seq<char>, it: nat, cache: Map<Seq<char>, Seq<char>>)
    requires
        it <= max_references(),
    ensures
        it <= advance(text, it, cache).1 <= max_references(),
    decreases max_references() - it,
{
    match first_reference(text) {
        None => {},
        Some(m) => if it < max_references() {
            let key = cache_key(m.1, m.2);
            if cache.contains_key(key) {
                law_at_most_five_references(replace_spec(text, m.0, cache[key]), it + 1, cache);
            }
        },
    }
}

/// A reference whose value is cached is substituted without a lookup.
pub proof fn law_cached_reference_not_looked_up(
    text: Seq<char>,
    it: nat,
    cache: Map<Seq<char>, Seq<char>>,
)
    requires
        it < max_references(),
        first_reference(text) matches Some(m) && cache.contains_key(cache_key(m.1, m.2)),
    ensures
        ({
            let m = first_reference(text)->0;
            advance(text, it, cache) == advance(
                replace_spec(text, m.0, cache[cache_key(m.1, m.2)]),
                it + 1,
                cache,
            )
        }),
{
}

} // verus!
