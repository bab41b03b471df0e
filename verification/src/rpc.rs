//! Connection factory for the remote management interface: which host
//! the interface is reached under, and the request URI built from an
//! optionally cached resolved address. Resolving and caching addresses,
//! and the transport itself, are the callers' affair; the factory holds
//! the resolved address as a plain value.

use vstd::prelude::*;
use vstd::string::StringExecFns;

verus! {

/// A type that helps with the creation of connections to the remote
/// management interface.
#[derive(Debug)]
pub struct MullvadRpcFactory {
    /// A resolved address of the interface host, if one has been cached;
    /// absence means connecting by host name.
    pub address_cache: Option<String>,
}

impl MullvadRpcFactory {
    /// Create a new factory with no cached address.
    pub fn new() -> (r: Self)
        ensures
            r.address_cache is None,
    {
        MullvadRpcFactory { address_cache: None }
    }

    /// Create a factory that connects through the given cached resolved
    /// address.
    pub fn with_cached_address(address: String) -> (r: Self)
        ensures
            r.address_cache matches Some(cached) && cached@ == address@,
    {
        MullvadRpcFactory { address_cache: Some(address) }
    }

    /// The request URI of the remote management interface: the cached
    /// resolved address if one is held, the interface host name
    /// otherwise, wrapped in the fixed scheme and path.
    pub fn api_uri(&self) -> (r: String)
        ensures
            match self.address_cache {
                Some(cached) => r@ == "https://"@ + cached@ + "/rpc/"@,
                None => r@ == "https://"@ + "api.mullvad.net"@ + "/rpc/"@,
            },
    {
        let mut uri = String::new();
        uri.append("https://");
        match &self.address_cache {
            Some(cached) => uri.append(cached.as_str()),
            None => uri.append("api.mullvad.net"),
        }
        uri.append("/rpc/");
        proof {
            if self.address_cache is Some {
                assert(uri@ =~= "https://"@ + self.address_cache->0@ + "/rpc/"@);
            } else {
                assert(uri@ =~= "https://"@ + "api.mullvad.net"@ + "/rpc/"@);
            }
        }
        uri
    }
}

} // verus!
