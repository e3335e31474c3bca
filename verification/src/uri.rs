//! The one place where the `http` URI builder is called. It is reached through
//! `hyper`, which re-exports it.

use vstd::prelude::*;
use hyper::Uri;

verus! {

/// `hyper::Uri`, an absolute or relative URI that has passed the parser.
/// Opaque here: the library hands one on and never looks inside.
#[verifier::external_type_specification]
#[verifier::external_body]
pub struct ExUri(hyper::Uri);

/// `hyper::http::Error`, the reason a URI could not be built. Opaque here.
#[verifier::external_type_specification]
#[verifier::external_body]
pub struct ExHttpError(hyper::http::Error);

/// What the URI builder makes of these three parts: the URI, or `None` where
/// it refuses them. Each part goes through its own parser in `http` (which
/// characters may occur, how brackets and colons nest in an authority, where a
/// query starts and a fragment is cut off), and the result depends on the
/// three texts alone.
pub uninterp spec fn uri_built(
    scheme: Seq<char>,
    authority: Seq<char>,
    path_and_query: Seq<char>,
) -> Option<Uri>;

/// Calls `hyper::Uri::builder()`, gives it the scheme, the authority and the
/// path with its query, and calls `build()`.
///
/// Trusted: that what the builder returns is a function of the three texts,
/// the one that `uri_built` names: `Ok` with that URI where there is one, an
/// error where there is none. Nothing is claimed of which texts pass, nor of
/// what the URI holds.
#[verifier::external_body]
pub(crate) fn build_uri(scheme: &str, authority: &str, path_and_query: &str) -> (built: Result<
    Uri,
    hyper::http::Error,
>)
    ensures
        built is Ok <==> uri_built(scheme@, authority@, path_and_query@) is Some,
        built matches Ok(uri) ==> uri_built(scheme@, authority@, path_and_query@) == Some(uri),
{
    Uri::builder().scheme(scheme).authority(authority).path_and_query(path_and_query).build()
}

} // verus!
