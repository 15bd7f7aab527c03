//! The two deployments of the upstream API and their base URLs.

use vstd::prelude::*;

verus! {

/// Which deployment of the upstream API a client talks to; fixed at
/// client construction.
#[derive(Debug, Clone, Copy, PartialEq, Eq, Structural)]
pub enum Network {
    Mainnet,
    Testnet,
}

/// The root URL of a deployment.
pub open spec fn spec_base_url(n: Network) -> Seq<char> {
    match n {
        Network::Mainnet => "https://mainnet-oapi.kaiascan.io/"@,
        Network::Testnet => "https://kairos-oapi.kaiscan.io/"@,
    }
}

impl Network {
    /// Selects the deployment from a testnet flag.
    pub fn from_flag(is_testnet: bool) -> (r: Network)
        ensures
            r is Testnet <==> is_testnet,
    {
        if is_testnet {
            Network::Testnet
        } else {
            Network::Mainnet
        }
    }

    /// The root URL every request to this deployment starts from.
    pub fn base_url(self) -> (r: &'static str)
        ensures
            r@ == spec_base_url(self),
    {
        match self {
            Network::Mainnet => "https://mainnet-oapi.kaiascan.io/",
            Network::Testnet => "https://kairos-oapi.kaiscan.io/",
        }
    }
}

} // verus!
