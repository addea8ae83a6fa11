use vstd::prelude::*;

verus! {

/// What url's Url::parse_with_params returns for a base and query pairs:
/// the parsed base with the form-encoded pairs appended as its query, or
/// `None` where the base does not parse as a URL.
pub uninterp spec fn url_with_params_of(
    base: Seq<char>,
    params: Seq<(Seq<char>, Seq<char>)>,
) -> Option<Seq<char>>;

/// Relies on url's Url::parse_with_params: the outcome depends on the base
/// and the pairs alone.
#[verifier::external_body]
pub(crate) fn url_with_params(base: &str, params: &Vec<(String, String)>) -> (r: Option<String>)
    ensures
        r is Some <==> url_with_params_of(base@, params.deep_view()) is Some,
        r matches Some(u) ==> Some(u@) == url_with_params_of(base@, params.deep_view()),
{
    match url::Url::parse_with_params(base, params.iter().map(|p| (p.0.as_str(), p.1.as_str()))) {
        Ok(u) => Some(String::from(u)),
        Err(_) => None,
    }
}

} // verus!
