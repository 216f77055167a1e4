use vstd::prelude::*;

verus! {

/// The serialisation that the `url` crate gives to the URL it parses from a text; `None`
/// where the text is not a URL.
pub uninterp spec fn parsed_url(input: Seq<char>) -> Option<Seq<char>>;

/// Whether the URL that the `url` crate parses from a text has a host.
pub uninterp spec fn parsed_url_has_host(input: Seq<char>) -> bool;

/// The serialisation that the `url` crate gives to `path` resolved against the URL parsed
/// from `base`; `None` where either step fails.
pub uninterp spec fn joined_url(base: Seq<char>, path: Seq<char>) -> Option<Seq<char>>;

/// Relies on `url::Url::parse` (re-exported by reqwest): parses and normalises a URL.
/// The result is the URL's serialisation; an error is the parse error's message.
#[verifier::external_body]
pub(crate) fn parse_url(input: &str) -> (r: core::result::Result<String, String>)
    ensures
        r is Ok <==> parsed_url(input@) is Some,
        r is Ok ==> r->Ok_0@ == parsed_url(input@)->0,
{
    reqwest::Url::parse(input).map(String::from).map_err(|e| e.to_string())
}

/// Relies on `url::Url::has_host`, for the URL that `url::Url::parse` gives for `input`
/// (false where it gives none): reqwest sends requests only to URLs with a host.
#[verifier::external_body]
pub(crate) fn url_has_host(input: &str) -> (r: bool)
    ensures
        r == parsed_url_has_host(input@),
        r ==> parsed_url(input@) is Some,
{
    reqwest::Url::parse(input).map_or(false, |u| u.has_host())
}

/// Relies on `url::Url::parse` for `base` and `url::Url::join` for `path`: resolves `path`
/// against the base URL as a browser resolves a link. The result is the joined URL's
/// serialisation; an error is the parse error's message.
#[verifier::external_body]
pub(crate) fn join_url(base: &str, path: &str) -> (r: core::result::Result<String, String>)
    ensures
        r is Ok <==> joined_url(base@, path@) is Some,
        r is Ok ==> r->Ok_0@ == joined_url(base@, path@)->0,
{
    reqwest::Url::parse(base).and_then(|b| b.join(path)).map(String::from).map_err(|e| e.to_string())
}

} // verus!
