//! The process configuration and the discovery answer drawn from it.

use crate::grant::SignerCredentials;
use vstd::prelude::*;

verus! {

/// Settings loaded once at startup and read-only afterwards.
pub struct ServiceConfig {
    pub fishnet_server_address: String,
    pub livekit_server_address: String,
    pub credentials: SignerCredentials,
    pub port: u16,
}

/// The addresses of the companion backend and of the media platform.
#[derive(Debug, Clone, PartialEq, Eq)]
pub struct ServerAddresses {
    pub fishnet_server_address: String,
    pub livekit_server_address: String,
}

impl View for ServerAddresses {
    type V = (Seq<char>, Seq<char>);

    open spec fn view(&self) -> (Seq<char>, Seq<char>) {
        (self.fishnet_server_address@, self.livekit_server_address@)
    }
}

impl ServiceConfig {
    /// The discovery answer that this configuration gives.
    pub open spec fn addresses_view(&self) -> (Seq<char>, Seq<char>) {
        (self.fishnet_server_address@, self.livekit_server_address@)
    }

    /// The configured addresses, as they stand.
    pub fn addresses(&self) -> (r: ServerAddresses)
        ensures
            r@ == self.addresses_view(),
    {
        ServerAddresses {
            fishnet_server_address: self.fishnet_server_address.clone(),
            livekit_server_address: self.livekit_server_address.clone(),
        }
    }
}

/// Asking twice for the addresses of an unchanged configuration gives the
/// same answer.
pub proof fn lemma_addresses_repeatable(config: ServiceConfig, first: ServerAddresses, second: ServerAddresses)
    requires
        first@ == config.addresses_view(),
        second@ == config.addresses_view(),
    ensures
        first@ == second@,
{
}

} // verus!
