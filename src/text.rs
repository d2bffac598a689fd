//! Text operations taken from std and from the regex crate.
use vstd::prelude::*;

verus! {

/// What `str::to_uppercase` returns for the given characters.
pub uninterp spec fn upper_of(s: Seq<char>) -> Seq<char>;

/// What `str::to_lowercase` returns for the given characters.
pub uninterp spec fn lower_of(s: Seq<char>) -> Seq<char>;

/// The pieces of text between the matches of `%\d+`, as `regex::Regex::split`
/// yields them.
pub uninterp spec fn placeholder_literals(s: Seq<char>) -> Seq<Seq<char>>;

/// The matches of `%\d+`, leftmost first and without overlap, as
/// `regex::Regex::find_iter` yields them.
pub uninterp spec fn placeholder_tokens(s: Seq<char>) -> Seq<Seq<char>>;

/// The characters of each string.
pub open spec fn views(v: Seq<String>) -> Seq<Seq<char>> {
    v.map_values(|s: String| s@)
}

/// Relies on `str::to_uppercase`: the result depends on the characters alone.
#[verifier::external_body]
pub(crate) fn uppercase(s: &str) -> (r: String)
    ensures
        r@ == upper_of(s@),
{
    s.to_uppercase()
}

/// Relies on `str::to_lowercase`: the result depends on the characters alone.
#[verifier::external_body]
pub(crate) fn lowercase(s: &str) -> (r: String)
    ensures
        r@ == lower_of(s@),
{
    s.to_lowercase()
}

/// Relies on `regex::Regex::split` with the pattern `%\d+`, which is valid, so
/// building it does not fail: the text between placeholder tokens.
#[verifier::external_body]
pub(crate) fn split_placeholders(text: &str) -> (r: Vec<String>)
    ensures
        views(r@) == placeholder_literals(text@),
{
    let re = regex::Regex::new(r"%\d+").unwrap();
    re.split(text).map(String::from).collect()
}

/// Relies on `regex::Regex::find_iter` with the pattern `%\d+`, which is
/// valid, so building it does not fail: the placeholder tokens themselves.
#[verifier::external_body]
pub(crate) fn find_placeholders(text: &str) -> (r: Vec<String>)
    ensures
        views(r@) == placeholder_tokens(text@),
{
    let re = regex::Regex::new(r"%\d+").unwrap();
    re.find_iter(text).map(|m| String::from(m.as_str())).collect()
}

} // verus!
