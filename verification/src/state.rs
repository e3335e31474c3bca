//! What the proxy is configured with, and what every request shares.

use vstd::prelude::*;
use crate::address::Address;
use crate::resolver::Resolver;

verus! {

/// How the authority of the outbound request is chosen. One policy holds for a
/// whole deployment.
#[derive(Clone, Copy, Debug, PartialEq, Eq, Structural)]
pub enum AuthorityPolicy {
    /// The host name of the inbound `Host` header with the upstream's port: the
    /// virtual-host name is kept, the port is pinned.
    PortSubstitution,
    /// The inbound `Host` header as it came. Which address is dialled is left
    /// to the resolver alone.
    Passthrough,
}

/// The three endpoints an operator supplies.
#[derive(Clone, Copy, Debug, PartialEq, Eq)]
pub struct Args {
    /// Where the proxy listens for client traffic.
    pub bind: Address,
    /// The upstream that all traffic is forwarded to.
    pub remote: Address,
    /// Where the metrics endpoint listens.
    pub metrics: Address,
}

/// What every request handler reads and none changes: the upstream's address
/// and the authority policy.
#[derive(Clone, Copy, Debug, PartialEq, Eq)]
pub struct ProxyState {
    pub remote: Address,
    pub policy: AuthorityPolicy,
}

impl ProxyState {
    /// The state for a deployment that forwards to `args.remote` under `policy`.
    pub fn new(args: &Args, policy: AuthorityPolicy) -> (state: ProxyState)
        ensures
            state.remote == args.remote,
            state.policy == policy,
    {
        ProxyState { remote: args.remote, policy }
    }

    /// The resolver for the upstream client's connector. It answers with the
    /// address this state forwards to.
    pub fn resolver(&self) -> (resolver: Resolver)
        ensures
            resolver.remote == self.remote,
    {
        Resolver { remote: self.remote }
    }
}

} // verus!
