use vstd::prelude::*;

verus! {

#[verifier::external_type_specification]
#[verifier::external_body]
pub struct ExJsonError(serde_json::Error);

/// What `Regex::new(pattern)` then `is_match(haystack)` gives: `None` where
/// the pattern does not compile.
pub uninterp spec fn regex_match_of(pattern: Seq<char>, haystack: Seq<char>) -> Option<bool>;

/// What `Regex::new(pattern)` then `replace_all(haystack, rep)` gives: `None`
/// where the pattern does not compile.
pub uninterp spec fn regex_replace_all_of(
    pattern: Seq<char>,
    haystack: Seq<char>,
    rep: Seq<char>,
) -> Option<Seq<char>>;

/// What `serde_json::from_str::<Vec<u32>>` decodes from a text: `None` where
/// it fails.
pub uninterp spec fn json_u32_list_of(s: Seq<char>) -> Option<Seq<u32>>;

/// Relies on regex::Regex::new and Regex::is_match: whether the compiled
/// pattern matches somewhere in the haystack, a function of the two texts.
#[verifier::external_body]
pub(crate) fn regex_is_match(pattern: &str, haystack: &str) -> (r: Option<bool>)
    ensures
        r == regex_match_of(pattern@, haystack@),
{
    match regex::Regex::new(pattern) {
        Ok(re) => Some(re.is_match(haystack)),
        Err(_) => None,
    }
}

/// Relies on regex::Regex::new and Regex::replace_all: every match of the
/// compiled pattern replaced, a function of the three texts.
#[verifier::external_body]
pub(crate) fn regex_replace_all(pattern: &str, haystack: &str, rep: &str) -> (r: Option<String>)
    ensures
        r matches Some(s) ==> regex_replace_all_of(pattern@, haystack@, rep@) == Some(s@),
        r is None ==> regex_replace_all_of(pattern@, haystack@, rep@) is None,
{
    match regex::Regex::new(pattern) {
        Ok(re) => Some(re.replace_all(haystack, rep).into_owned()),
        Err(_) => None,
    }
}

/// Relies on serde_json::from_str for `Vec<u32>`: the decoded list, a
/// function of the text.
#[verifier::external_body]
pub(crate) fn decode_u32_list(s: &str) -> (r: Result<Vec<u32>, serde_json::Error>)
    ensures
        r matches Ok(v) ==> json_u32_list_of(s@) == Some(v@),
        r is Err ==> json_u32_list_of(s@) is None,
{
    serde_json::from_str::<Vec<u32>>(s)
}

/// Relies on std's `FromIterator<char>` for `String`: the characters collected
/// in order.
#[verifier::external_body]
pub(crate) fn string_of_chars(v: &Vec<char>) -> (r: String)
    ensures
        r@ == v@,
{
    String::from_iter(v.iter())
}

} // verus!
