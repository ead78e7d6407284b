//! Regular-expression matching, done by the `regex` crate.

use vstd::prelude::*;

verus! {

/// What compiling `pattern` with `regex::Regex::new` and then calling
/// `Regex::captures` on `text` gives, read out by group name: `None` when the
/// pattern does not compile, `Some(None)` when the text holds no match, and
/// otherwise, for each name of `names` in order, the text of that named group in
/// the first match (`None` where the group took no part in it).
pub uninterp spec fn regex_named_captures_of(
    pattern: Seq<char>,
    text: Seq<char>,
    names: Seq<Seq<char>>,
) -> Option<Option<Seq<Option<Seq<char>>>>>;

/// What compiling `pattern` with `regex::Regex::new` and then asking
/// `Regex::find` on `text` gives: `None` when the pattern does not compile,
/// otherwise whether a match exists.
pub uninterp spec fn regex_finds_of(pattern: Seq<char>, text: Seq<char>) -> Option<bool>;

/// Calls `regex::Regex::new(pattern)`, then `Regex::captures(text)` and, on the
/// captures, `Captures::name` for each of `names`. Trusted: the result is
/// `regex_named_captures_of` of the arguments, and a match yields one entry per
/// name. What the regex engine matches is left to that name.
#[verifier::external_body]
pub(crate) fn regex_named_captures(pattern: &str, text: &str, names: &Vec<&str>) -> (res: Option<
    Option<Vec<Option<String>>>,
>)
    ensures
        res.deep_view() == regex_named_captures_of(pattern@, text@, names.deep_view()),
        res matches Some(Some(v)) ==> v.len() == names.len(),
{
    match regex::Regex::new(pattern) {
        Err(_) => None,
        Ok(re) => Some(
            re.captures(text).map(
                |caps| names.iter().map(|n| caps.name(n).map(|m| m.as_str().to_string())).collect(),
            ),
        ),
    }
}

/// Calls `regex::Regex::new(pattern)` and then `Regex::find(text)`. Trusted: the
/// result is `regex_finds_of` of the arguments; what the engine matches is left
/// to that name.
#[verifier::external_body]
pub(crate) fn regex_finds(pattern: &str, text: &str) -> (res: Option<bool>)
    ensures
        res == regex_finds_of(pattern@, text@),
{
    match regex::Regex::new(pattern) {
        Err(_) => None,
        Ok(re) => Some(re.find(text).is_some()),
    }
}

} // verus!
