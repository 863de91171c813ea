//! What can go wrong when a network configuration is loaded.

use crate::address::NetworkAddress;
use crate::peer::PeerId;
use vstd::prelude::*;

verus! {

/// The reasons for which a network configuration is refused.
#[derive(Debug, PartialEq, Eq)]
pub enum NetworkConfigError {
    /// A seed peer address is not in the canonical LibraNet form.
    UnexpectedSeedPeerAddress { peer_id: PeerId, addr: NetworkAddress },
    /// An address had to be filled in with the local IP, and none was found.
    NoLocalIp,
    /// A validator's configuration names a network peers file.
    ValidatorNetworkPeersFile,
    /// A validator's configuration lists network peers.
    ValidatorNetworkPeers,
    /// A fresh identity had to be made, and the operating system gave no
    /// randomness to make its key from.
    NoOsRandomness,
}

} // verus!
