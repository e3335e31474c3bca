//! The forwarding handler's decisions: where a request goes, and what the
//! client is sent once the upstream has answered or failed to.

use vstd::prelude::*;
use vstd::string::*;
use hyper::Uri;
use crate::state::{AuthorityPolicy, ProxyState};
use crate::text::{decimal, host_name, name_part, push_decimal};
use crate::uri::{build_uri, uri_built};

verus! {

/// The status of a response that the proxy makes up itself.
pub const INTERNAL_SERVER_ERROR: u16 = 500;

/// Why a request is answered without the upstream being called.
#[derive(Clone, Copy, Debug, PartialEq, Eq, Structural)]
pub enum ForwardError {
    /// The inbound request target has no path-and-query component.
    MissingPathAndQuery,
    /// Authority and path-and-query do not make a URI.
    InvalidTarget,
}

/// Where an inbound request is forwarded to.
#[derive(Debug, PartialEq, Eq)]
pub struct Target {
    /// The outbound request's URI: what the URI builder makes of the scheme
    /// `http` and the two parts below. This is what is sent upstream. The
    /// builder cuts a fragment, `#` and what follows it, off the path text.
    pub uri: Uri,
    /// The authority by the deployment's policy.
    pub authority: String,
    /// The path and query of the inbound request, as they came.
    pub path_and_query: String,
}

/// A `Target` as the contracts see it: the URI, and the two texts it was built
/// from.
pub struct TargetView {
    pub uri: Uri,
    pub authority: Seq<char>,
    pub path_and_query: Seq<char>,
}

impl View for Target {
    type V = TargetView;

    open spec fn view(&self) -> TargetView {
        TargetView {
            uri: self.uri,
            authority: self.authority@,
            path_and_query: self.path_and_query@,
        }
    }
}

/// How the one attempt to forward a request ended.
#[derive(Clone, Debug, PartialEq, Eq)]
pub enum Outcome {
    /// No target could be planned; the upstream was not called.
    Rejected(ForwardError),
    /// The upstream answered with this status.
    Answered(u16),
    /// The call to the upstream failed, for the reason given.
    Unreachable(String),
}

/// Where the body and headers of the client's response come from.
#[derive(Clone, Copy, Debug, PartialEq, Eq, Structural)]
pub enum Body {
    /// The upstream's response, headers and body, streamed through untouched.
    Upstream,
    /// Nothing: the response is made up here and its body is empty.
    Empty,
}

/// What the client is sent.
#[derive(Clone, Debug, PartialEq, Eq)]
pub struct OutboundResponse {
    pub status: u16,
    pub body: Body,
    /// Why the response had to be made up, for the log; `None` for a relayed
    /// response.
    pub cause: Option<String>,
}

/// An `OutboundResponse` as the contracts see it.
pub struct OutboundResponseView {
    pub status: u16,
    pub body: Body,
    pub cause: Option<Seq<char>>,
}

impl View for OutboundResponse {
    type V = OutboundResponseView;

    open spec fn view(&self) -> OutboundResponseView {
        OutboundResponseView {
            status: self.status,
            body: self.body,
            cause: match self.cause {
                Some(cause) => Some(cause@),
                None => None,
            },
        }
    }
}

/// The scheme of every outbound request: plain HTTP.
pub open spec fn scheme_text() -> Seq<char> {
    "http"@
}

/// The error's text, for the log.
pub open spec fn error_text(error: ForwardError) -> Seq<char> {
    match error {
        ForwardError::MissingPathAndQuery => "request target has no path and query"@,
        ForwardError::InvalidTarget => "outbound target is not a valid URI"@,
    }
}

/// The outbound authority for a request that came with `host` in its `Host`
/// header, when the upstream listens on `port`.
pub open spec fn authority_for(policy: AuthorityPolicy, host: Seq<char>, port: u16) -> Seq<char> {
    match policy {
        AuthorityPolicy::PortSubstitution => name_part(host) + seq![':'] + decimal(port as nat),
        AuthorityPolicy::Passthrough => host,
    }
}

/// What is decided for a request with a path and query once the URI builder
/// has answered: with a URI the request is forwarded to it, and the target
/// keeps the parts that the builder was given; without one it is not
/// forwarded.
pub open spec fn settled(authority: Seq<char>, path_and_query: Seq<char>, built: Option<Uri>) -> Result<
    TargetView,
    ForwardError,
> {
    match built {
        Some(uri) => Ok(TargetView { uri, authority, path_and_query }),
        None => Err(ForwardError::InvalidTarget),
    }
}

/// The plan for a request. Without a path and query there is none. Otherwise
/// the target has the authority that the policy gives and the path and query
/// unchanged, its URI is what the URI builder makes of them under the scheme
/// `http`, and the request is forwarded if the builder makes one.
pub open spec fn planned(
    policy: AuthorityPolicy,
    port: u16,
    host: Seq<char>,
    path_and_query: Option<Seq<char>>,
) -> Result<TargetView, ForwardError> {
    match path_and_query {
        None => Err(ForwardError::MissingPathAndQuery),
        Some(path_and_query) => {
            let authority = authority_for(policy, host, port);
            settled(
                authority,
                path_and_query,
                uri_built(scheme_text(), authority, path_and_query),
            )
        },
    }
}

/// The URI in the builder's answer, if it gave one.
pub open spec fn built_uri(built: Result<Uri, hyper::http::Error>) -> Option<Uri> {
    match built {
        Ok(uri) => Some(uri),
        Err(_) => None,
    }
}

/// A plan as the contracts see it.
pub open spec fn plan_view(plan: Result<Target, ForwardError>) -> Result<TargetView, ForwardError> {
    match plan {
        Ok(target) => Ok(target@),
        Err(error) => Err(error),
    }
}

/// An optional text as the contracts see it.
pub open spec fn text_view(text: Option<&str>) -> Option<Seq<char>> {
    match text {
        Some(text) => Some(text@),
        None => None,
    }
}

/// The status the client sees: the upstream's own where it answered, 500
/// where it did not or was never asked.
pub open spec fn visible_status(outcome: Outcome) -> u16 {
    match outcome {
        Outcome::Answered(status) => status,
        _ => INTERNAL_SERVER_ERROR,
    }
}

/// What went wrong, where something did.
pub open spec fn cause_of(outcome: Outcome) -> Option<Seq<char>> {
    match outcome {
        Outcome::Rejected(error) => Some(error_text(error)),
        Outcome::Answered(_) => None,
        Outcome::Unreachable(cause) => Some(cause@),
    }
}

/// The response for an outcome: the upstream's passed on as it is, or an empty
/// 500.
pub open spec fn response_of(outcome: Outcome) -> OutboundResponseView {
    OutboundResponseView {
        status: visible_status(outcome),
        body: if outcome is Answered {
            Body::Upstream
        } else {
            Body::Empty
        },
        cause: cause_of(outcome),
    }
}

impl ForwardError {
    /// The error's text, for the log.
    pub fn message(&self) -> (text: &'static str)
        ensures
            text@ == error_text(*self),
    {
        match self {
            ForwardError::MissingPathAndQuery => "request target has no path and query",
            ForwardError::InvalidTarget => "outbound target is not a valid URI",
        }
    }
}

/// The scheme of every outbound request.
pub fn outbound_scheme() -> (scheme: &'static str)
    ensures
        scheme@ == scheme_text(),
{
    "http"
}

/// The authority of the outbound request.
///
/// Under port substitution a port in `host` is dropped and the upstream's
/// takes its place; under passthrough `host` is returned as it is.
pub fn outbound_authority(policy: AuthorityPolicy, host: &str, port: u16) -> (authority: String)
    ensures
        authority@ == authority_for(policy, host@, port),
{
    match policy {
        AuthorityPolicy::Passthrough => host.to_owned(),
        AuthorityPolicy::PortSubstitution => {
            let mut authority = host_name(host).to_owned();
            proof {
                reveal_strlit(":");
            }
            authority.append(":");
            assert(authority@ =~= name_part(host@) + seq![':']);
            push_decimal(&mut authority, port);
            authority
        },
    }
}

/// Turns the URI builder's answer into the plan for a request whose target had
/// a path and query. The URI that the builder gave is the one in the target.
pub fn settle_target(
    authority: String,
    path_and_query: &str,
    built: Result<Uri, hyper::http::Error>,
) -> (plan: Result<Target, ForwardError>)
    ensures
        plan_view(plan) == settled(authority@, path_and_query@, built_uri(built)),
{
    match built {
        Ok(uri) => Ok(Target { uri, authority, path_and_query: path_and_query.to_owned() }),
        Err(_) => Err(ForwardError::InvalidTarget),
    }
}

/// Decides where an inbound request goes.
///
/// `host` is the value of the request's `Host` header and `path_and_query`
/// that component of its target, if it has one. The answer is a target under
/// the scheme `http`, with the authority that the state's policy gives and the
/// path and query as they came, or the reason why the request cannot be
/// forwarded. The target's URI is the one that the URI builder makes of
/// exactly these parts. A request is forwarded exactly when it has a path and
/// query and the builder makes a URI of the parts; the upstream is then called
/// once, and otherwise not at all.
pub fn plan_forward(state: &ProxyState, host: &str, path_and_query: Option<&str>) -> (plan: Result<
    Target,
    ForwardError,
>)
    ensures
        plan_view(plan) == planned(
            state.policy,
            state.remote.port,
            host@,
            text_view(path_and_query),
        ),
{
    match path_and_query {
        None => Err(ForwardError::MissingPathAndQuery),
        Some(path_and_query) => {
            let authority = outbound_authority(state.policy, host, state.remote.port);
            let built = build_uri(outbound_scheme(), authority.as_str(), path_and_query);
            settle_target(authority, path_and_query, built)
        },
    }
}

/// Decides what the client is sent.
///
/// An upstream response goes back with its own status, headers and body,
/// whatever the status is. A failed call, or a request that could not be
/// forwarded at all, is answered with status 500 and an empty body, and the
/// reason is handed on for the log. There is no second attempt.
pub fn respond(outcome: Outcome) -> (response: OutboundResponse)
    ensures
        response@ == response_of(outcome),
{
    match outcome {
        Outcome::Answered(status) => OutboundResponse {
            status,
            body: Body::Upstream,
            cause: None,
        },
        Outcome::Rejected(error) => OutboundResponse {
            status: INTERNAL_SERVER_ERROR,
            body: Body::Empty,
            cause: Some(error.message().to_owned()),
        },
        Outcome::Unreachable(cause) => OutboundResponse {
            status: INTERNAL_SERVER_ERROR,
            body: Body::Empty,
            cause: Some(cause),
        },
    }
}

} // verus!
