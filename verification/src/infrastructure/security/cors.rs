//! Which origins may call: a list of patterns, and the policy built on it.
//!
//! The list is one text with the patterns separated by `;`. White space
//! around a pattern does not count, and an empty entry is no pattern. An
//! origin may call if one of the patterns, read as a regular expression,
//! matches it.

use crate::text::{chars_of, trim_range, trimmed};
use vstd::prelude::*;
use vstd::string::StrSliceExecFns;

verus! {

/// The separator of the patterns in the list.
pub const SEPARATOR: char = ';';

/// How long a browser may cache the answer to a preflight request, in
/// seconds: six hours.
pub const MAX_AGE_SECONDS: usize = 21_600;

/// Whether the `regex` crate finds a match of a pattern in a text; `None`
/// where the pattern is no regular expression.
pub uninterp spec fn regex_match(pattern: Seq<char>, text: Seq<char>) -> Option<bool>;

/// Compiles with `regex::Regex::new` and searches with `Regex::is_match`.
///
/// Trusted: the result is `None` where the crate refuses the pattern, and
/// otherwise whether the crate finds a match anywhere in the text.
#[verifier::external_body]
fn regex_is_match(pattern: &str, text: &str) -> (r: Option<bool>)
    ensures
        r == regex_match(pattern@, text@),
{
    match regex::Regex::new(pattern) {
        Ok(re) => Some(re.is_match(text)),
        Err(_) => None,
    }
}

/// Where the entry that starts at `start` ends: at the next separator, or
/// at the end of the list.
pub open spec fn entry_end(list: Seq<char>, start: int) -> int
    decreases list.len() - start,
{
    if start < 0 || start >= list.len() || list[start] == SEPARATOR {
        start
    } else {
        entry_end(list, start + 1)
    }
}

/// The patterns of the entries from `start` on: each entry without the
/// white space around it, the empty ones left out.
pub open spec fn patterns_from(list: Seq<char>, start: int) -> Seq<Seq<char>>
    decreases list.len() - start,
{
    if start < 0 || start > list.len() {
        Seq::empty()
    } else {
        let end = entry_end(list, start);
        let pattern = trimmed(list, start, end);
        let first = if pattern.len() > 0 {
            seq![pattern]
        } else {
            Seq::empty()
        };
        if start <= end < list.len() {
            first + patterns_from(list, end + 1)
        } else {
            first
        }
    }
}

/// The patterns of a list.
pub open spec fn patterns_of(list: Seq<char>) -> Seq<Seq<char>> {
    patterns_from(list, 0)
}

/// An entry ends within the list, and not before it starts.
pub proof fn lemma_entry_end_bounds(list: Seq<char>, start: int)
    requires
        0 <= start <= list.len(),
    ensures
        start <= entry_end(list, start) <= list.len(),
        entry_end(list, start) < list.len() ==> list[entry_end(list, start)] == SEPARATOR,
    decreases list.len() - start,
{
    if start < list.len() && list[start] != SEPARATOR {
        lemma_entry_end_bounds(list, start + 1);
    }
}

/// The texts of a list of strings.
pub open spec fn texts(v: Seq<String>) -> Seq<Seq<char>> {
    v.map_values(|s: String| s@)
}

/// Takes a list of patterns apart.
pub fn origin_patterns(origins: &str) -> (r: Vec<String>)
    ensures
        texts(r@) == patterns_of(origins@),
{
    let chars = chars_of(origins);
    let n = chars.len();
    let mut out: Vec<String> = Vec::new();
    let mut start: usize = 0;
    let mut done = false;
    proof {
        assert(texts(out@) =~= Seq::<Seq<char>>::empty());
    }
    while !done
        invariant
            chars@ == origins@,
            n == chars@.len(),
            start <= n,
            !done ==> texts(out@) + patterns_from(origins@, start as int) == patterns_of(
                origins@,
            ),
            done ==> texts(out@) == patterns_of(origins@),
        decreases (if done { 0int } else { n - start + 1 }),
    {
        // Find the end of the entry.
        let mut end = start;
        while end < n && chars[end] != SEPARATOR
            invariant
                chars@ == origins@,
                n == chars@.len(),
                start <= end <= n,
                entry_end(origins@, end as int) == entry_end(origins@, start as int),
            decreases n - end,
        {
            end += 1;
        }
        proof {
            lemma_entry_end_bounds(origins@, start as int);
        }
        let (a, b) = trim_range(&chars, start, end);
        let ghost before = out@;
        if a < b {
            out.push(origins.substring_char(a, b).to_owned());
        }
        proof {
            let pattern = trimmed(origins@, start as int, end as int);
            assert(pattern == origins@.subrange(a as int, b as int));
            let first = if pattern.len() > 0 {
                seq![pattern]
            } else {
                Seq::<Seq<char>>::empty()
            };
            assert(texts(out@) =~= texts(before) + first);
            if end < n {
                assert(patterns_from(origins@, start as int) == first + patterns_from(
                    origins@,
                    end + 1,
                ));
                assert(texts(out@) + patterns_from(origins@, end + 1) =~= texts(before) + (first
                    + patterns_from(origins@, end + 1)));
            } else {
                assert(patterns_from(origins@, start as int) == first);
            }
        }
        if end < n {
            start = end + 1;
        } else {
            done = true;
        }
    }
    out
}

/// Whether one of the patterns matches the origin.
pub open spec fn some_pattern_matches(patterns: Seq<Seq<char>>, origin: Seq<char>) -> bool {
    exists|i: int|
        0 <= i < patterns.len() && #[trigger] regex_match(patterns[i], origin) == Some(true)
}

/// Whether every pattern is a regular expression.
pub open spec fn all_compile(patterns: Seq<Seq<char>>) -> bool {
    forall|i: int|
        0 <= i < patterns.len() ==> (#[trigger] regex_match(patterns[i], Seq::empty())) is Some
}

/// The first pattern that is no regular expression.
pub open spec fn first_invalid(patterns: Seq<Seq<char>>) -> Option<Seq<char>>
    decreases patterns.len(),
{
    if patterns.len() == 0 {
        None
    } else if regex_match(patterns[0], Seq::empty()) is None {
        Some(patterns[0])
    } else {
        first_invalid(patterns.drop_first())
    }
}

/// Why a policy could not be built.
#[derive(Debug)]
pub enum CorsError {
    /// The pattern is no regular expression.
    InvalidPattern(String),
}

/// The policy on cross-origin calls.
#[derive(Debug)]
pub struct CorsPolicy {
    patterns: Vec<String>,
}

impl View for CorsPolicy {
    type V = Seq<Seq<char>>;

    /// The patterns of the policy.
    closed spec fn view(&self) -> Seq<Seq<char>> {
        texts(self.patterns@)
    }
}

/// Builds the policy from a list of patterns. A pattern that is no
/// regular expression is refused here, when the policy is built; the
/// error names the first such pattern.
pub fn build_cors(origins: &str) -> (r: Result<CorsPolicy, CorsError>)
    ensures
        match first_invalid(patterns_of(origins@)) {
            None => r matches Ok(policy) && policy@ == patterns_of(origins@),
            Some(pattern) => r matches Err(CorsError::InvalidPattern(p)) && p@ == pattern,
        },
{
    let patterns = origin_patterns(origins);
    let mut i: usize = 0;
    proof {
        assert(texts(patterns@).subrange(0, patterns@.len() as int) =~= texts(patterns@));
    }
    while i < patterns.len()
        invariant
            i <= patterns.len(),
            texts(patterns@) == patterns_of(origins@),
            first_invalid(texts(patterns@).subrange(i as int, patterns@.len() as int))
                == first_invalid(patterns_of(origins@)),
        decreases patterns.len() - i,
    {
        let ghost rest = texts(patterns@).subrange(i as int, patterns@.len() as int);
        proof {
            assert(rest[0] == patterns@[i as int]@);
            assert(rest.drop_first() =~= texts(patterns@).subrange(
                i + 1,
                patterns@.len() as int,
            ));
        }
        if regex_is_match(patterns[i].as_str(), "").is_none() {
            proof {
                reveal_strlit("");
                assert(""@ =~= Seq::<char>::empty());
            }
            return Err(CorsError::InvalidPattern(patterns[i].clone()));
        }
        proof {
            reveal_strlit("");
            assert(""@ =~= Seq::<char>::empty());
        }
        i += 1;
    }
    proof {
        assert(texts(patterns@).subrange(patterns@.len() as int, patterns@.len() as int)
            =~= Seq::<Seq<char>>::empty());
    }
    Ok(CorsPolicy { patterns })
}

impl CorsPolicy {
    /// Whether the origin may call: whether one of the patterns matches it.
    /// A policy without patterns lets no origin call.
    pub fn allows(&self, origin: &str) -> (r: bool)
        ensures
            r == some_pattern_matches(self@, origin@),
    {
        let mut i: usize = 0;
        while i < self.patterns.len()
            invariant
                i <= self.patterns.len(),
                forall|j: int|
                    0 <= j < i ==> #[trigger] regex_match(texts(self.patterns@)[j], origin@)
                        != Some(true),
            decreases self.patterns.len() - i,
        {
            match regex_is_match(self.patterns[i].as_str(), origin) {
                Some(true) => {
                    proof {
                        assert(texts(self.patterns@)[i as int] == self.patterns@[i as int]@);
                    }
                    return true;
                },
                _ => {},
            }
            proof {
                assert(texts(self.patterns@)[i as int] == self.patterns@[i as int]@);
            }
            i += 1;
        }
        false
    }

    /// The patterns of the policy.
    pub fn patterns(&self) -> (r: &Vec<String>)
        ensures
            texts(r@) == self@,
    {
        &self.patterns
    }

    /// The methods that a cross-origin call may use.
    pub fn allowed_methods(&self) -> (r: Vec<&'static str>)
        ensures
            r@.len() == 5,
            r@[0]@ == "GET"@,
            r@[1]@ == "POST"@,
            r@[2]@ == "PUT"@,
            r@[3]@ == "DELETE"@,
            r@[4]@ == "OPTIONS"@,
    {
        let mut methods: Vec<&'static str> = Vec::new();
        methods.push("GET");
        methods.push("POST");
        methods.push("PUT");
        methods.push("DELETE");
        methods.push("OPTIONS");
        methods
    }

    /// The request headers that a cross-origin call may carry.
    pub fn allowed_headers(&self) -> (r: Vec<&'static str>)
        ensures
            r@.len() == 3,
            r@[0]@ == "authorization"@,
            r@[1]@ == "content-type"@,
            r@[2]@ == "x-requested-with"@,
    {
        let mut headers: Vec<&'static str> = Vec::new();
        headers.push("authorization");
        headers.push("content-type");
        headers.push("x-requested-with");
        headers
    }
}

} // verus!
