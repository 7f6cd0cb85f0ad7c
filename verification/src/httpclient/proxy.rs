//! How the HTTP client reaches the network: the system proxy, no
//! proxy, or a custom one.  Applying the choice to a client builder
//! happens outside the library.

use vstd::prelude::*;

verus! {

/// The proxy to use for requests.
#[derive(Clone, Debug)]
pub enum ProxySetting {
    /// Leave the system proxy in place.
    System,
    /// Ignore any proxy, the system's too.
    NoProxy,
    /// Use this proxy, with credentials where given.
    Custom { url: String, user: Option<String>, password: Option<String> },
}

} // verus!
