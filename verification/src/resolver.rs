//! Name resolution that ignores the name.

use vstd::prelude::*;
use crate::address::Address;

verus! {

/// Stands in for DNS on the way to the upstream: whatever name it is asked
/// for, the answer is `remote`.
#[derive(Clone, Copy, Debug, PartialEq, Eq)]
pub struct Resolver {
    pub remote: Address,
}

impl Resolver {
    /// Resolves `hostname` to the one fixed address. The name is not looked at:
    /// empty, an IP literal or arbitrary text all give `self.remote`, and there
    /// is no failure to report.
    pub fn resolve(&self, hostname: &str) -> (address: Address)
        ensures
            address == self.remote,
    {
        self.remote
    }
}

} // verus!
