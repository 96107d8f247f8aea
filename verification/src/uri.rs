//! Checking and building the server URI.
//!
//! The launcher refers to the language-server binary through a URI with the
//! synthetic `urn:` scheme. Whether a candidate string is a well-formed URI is
//! decided by the `url` crate; the library takes that verdict on trust and
//! proves everything else around it.

use vstd::prelude::*;

verus! {

#[verifier::external_type_specification]
#[verifier::external_body]
pub struct ExUrl(url::Url);

#[verifier::external_type_specification]
#[verifier::external_body]
pub struct ExParseError(url::ParseError);

/// Whether `url::Url::parse` accepts the string `s`. The parser reads nothing
/// but its argument, so acceptance is a function of the string alone.
pub uninterp spec fn uri_ok(s: Seq<char>) -> bool;

/// Relies on `url::Url::parse`: it returns `Ok` exactly on the strings it
/// accepts as URIs, a function of the input string alone.
#[verifier::external_body]
pub(crate) fn parse_uri(s: &str) -> (r: Result<url::Url, url::ParseError>)
    ensures
        r is Ok <==> uri_ok(s@),
{
    url::Url::parse(s)
}

} // verus!
