//! Reading a redirect: the request's target is resolved against the
//! listener's base URL and its query is decoded into the three parameters.
//!
//! URL syntax is the `url` crate's business. Its functions are called as
//! they are; what they return is given a name here, and the contracts of
//! this module are stated over those names.

use crate::params::{no_params, params_of, CapturedParams, OIDCCallbackParams};
use vstd::prelude::*;

verus! {

/// `url::Url`, a parsed URL. Nothing is known of what is inside one: it is
/// made by the crate's functions and handed back to them.
#[verifier::external_type_specification]
#[verifier::external_body]
pub struct ExUrl(url::Url);

/// `url::ParseError`, the reason a string was refused as a URL.
#[verifier::external_type_specification]
#[verifier::external_body]
pub struct ExParseError(url::ParseError);

/// What `Url::parse` returns for `input`.
pub uninterp spec fn url_parse(input: Seq<char>) -> Result<url::Url, url::ParseError>;

/// What `Url::join` returns for `input` read as a reference relative to
/// `base`.
pub uninterp spec fn url_join(base: url::Url, input: Seq<char>) -> Result<
    url::Url,
    url::ParseError,
>;

/// The names and values that `Url::query_pairs` yields for `url`, in the
/// order it yields them.
pub uninterp spec fn url_query_pairs(url: url::Url) -> Seq<(Seq<char>, Seq<char>)>;

/// `Url::parse` reads an absolute URL. Claimed: the URL or the error it
/// returns is determined by the input.
pub assume_specification[ url::Url::parse ](input: &str) -> (result: Result<
    url::Url,
    url::ParseError,
>)
    ensures
        result == url_parse(input@),
;

/// `Url::join` reads `input` as a URL with `base` as its base URL. Claimed:
/// the URL or the error it returns is determined by `base` and `input`.
pub assume_specification[ url::Url::join ](base: &url::Url, input: &str) -> (result: Result<
    url::Url,
    url::ParseError,
>)
    ensures
        result == url_join(*base, input@),
;

/// `Url::query_pairs` decodes the query of a URL as a web form and yields
/// its names and values in the order written; a URL without a query yields
/// none. Claimed: the pairs are determined by the URL. Each pair is handed
/// out as two owned strings.
#[verifier::external_body]
fn query_pairs(url: &url::Url) -> (pairs: Vec<(String, String)>)
    ensures
        pairs.deep_view() == url_query_pairs(*url),
{
    url.query_pairs().into_owned().collect()
}

/// The URL a request's target stands for when read against `base`, or
/// `None` where either of the two is refused.
pub open spec fn resolved(base: Seq<char>, target: Seq<char>) -> Option<url::Url> {
    match url_parse(base) {
        Ok(base) => match url_join(base, target) {
            Ok(url) => Some(url),
            Err(_) => None,
        },
        Err(_) => None,
    }
}

/// What a request for `target` yields for the handshake: the parameters of
/// its query where the target resolves, and three empty strings where it
/// does not.
pub open spec fn captured(base: Seq<char>, target: Seq<char>) -> CapturedParams {
    match resolved(base, target) {
        Some(url) => params_of(url_query_pairs(url)),
        None => no_params(),
    }
}

/// Reads the handshake parameters off one request. A target that cannot be
/// resolved is a redirect without parameters, never a failure.
pub fn capture(base: &str, target: &str) -> (params: OIDCCallbackParams)
    ensures
        params@ == captured(base@, target@),
{
    match url::Url::parse(base) {
        Ok(base) => match base.join(target) {
            Ok(url) => {
                let pairs = query_pairs(&url);
                OIDCCallbackParams::from_pairs(&pairs)
            },
            Err(_) => OIDCCallbackParams::default(),
        },
        Err(_) => OIDCCallbackParams::default(),
    }
}

} // verus!
