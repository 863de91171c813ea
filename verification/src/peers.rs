//! The peers a node knows of: seed peers for discovery, and the peers allowed
//! to connect when the network authenticates its peers.

use crate::address::{is_libranet_protocols, NetworkAddress};
use crate::crypto::X25519PublicKey;
use crate::error::NetworkConfigError;
use crate::peer::{push_char, PeerId};
use std::collections::HashMap;
use vstd::prelude::*;

verus! {

/// The seed peers of the discovery protocol, with the addresses at which each
/// can be reached. It is kept apart so that it can be written to a file of
/// its own.
#[derive(Clone, Debug, PartialEq)]
pub struct SeedPeersConfig {
    pub seed_peers: HashMap<PeerId, Vec<NetworkAddress>>,
}

/// Every address of every seed peer in `seeds` has the canonical LibraNet form.
pub open spec fn all_seed_addrs_libranet(seeds: Map<PeerId, Vec<NetworkAddress>>) -> bool {
    forall|id: PeerId, i: int|
        #![trigger seeds[id]@[i]]
        seeds.contains_key(id) && 0 <= i < seeds[id]@.len() ==> is_libranet_protocols(
            seeds[id]@[i]@,
        )
}

/// `addr` is one of the addresses that `seeds` lists for `id`, and it does not
/// have the canonical LibraNet form.
pub open spec fn is_bad_seed_addr(
    seeds: Map<PeerId, Vec<NetworkAddress>>,
    id: PeerId,
    addr: NetworkAddress,
) -> bool {
    &&& seeds.contains_key(id)
    &&& exists|i: int| 0 <= i < seeds[id]@.len() && #[trigger] seeds[id]@[i]@ == addr@
    &&& !is_libranet_protocols(addr@)
}

impl Default for SeedPeersConfig {
    fn default() -> (config: Self)
        ensures
            config.seed_peers@ == Map::<PeerId, Vec<NetworkAddress>>::empty(),
    {
        SeedPeersConfig { seed_peers: HashMap::new() }
    }
}

impl SeedPeersConfig {
    /// Checks that all seed peer addresses look like canonical LibraNet
    /// addresses. Where one does not, the error names a seed peer and one of
    /// its addresses that does not.
    pub fn verify_libranet_addrs(&self) -> (r: Result<(), NetworkConfigError>)
        ensures
            r is Ok <==> all_seed_addrs_libranet(self.seed_peers@),
            r matches Err(e) ==> e matches NetworkConfigError::UnexpectedSeedPeerAddress {
                peer_id,
                addr,
            } && is_bad_seed_addr(self.seed_peers@, peer_id, addr),
    {
        let ghost seeds = self.seed_peers@;
        for entry in it: self.seed_peers.iter()
            invariant
                seeds == self.seed_peers@,
                it.seq().len() == seeds.dom().len(),
                forall|j: int|
                    #![trigger it.seq()[j]]
                    0 <= j < it.seq().len() ==> seeds.contains_key(*it.seq()[j].0) && seeds[*it.seq()[j].0]
                        == *it.seq()[j].1,
                forall|k: PeerId| #[trigger]
                    seeds.contains_key(k) ==> it.seq().contains((&k, &seeds[k])),
                forall|j: int, i: int|
                    #![trigger it.seq()[j], seeds[*it.seq()[j].0]@[i]]
                    0 <= j < it.index() && 0 <= i < seeds[*it.seq()[j].0]@.len()
                        ==> is_libranet_protocols(seeds[*it.seq()[j].0]@[i]@),
        {
            let (peer_id, addrs) = entry;
            let ghost j = it.index();
            assert(entry == it.seq()[j]);
            assert(seeds.contains_key(*peer_id) && seeds[*peer_id] == *addrs);
            for i in 0..addrs.len()
                invariant
                    seeds == self.seed_peers@,
                    seeds.contains_key(*peer_id),
                    seeds[*peer_id] == *addrs,
                    forall|k: int| 0 <= k < i ==> is_libranet_protocols(#[trigger] addrs@[k]@),
            {
                if !addrs[i].is_libranet_addr() {
                    let addr = addrs[i].clone();
                    assert(seeds[*peer_id]@[i as int]@ == addr@);
                    return Err(NetworkConfigError::UnexpectedSeedPeerAddress { peer_id: *peer_id, addr });
                }
            }
        }
        Ok(())
    }
}

/// The public identity key of a network peer.
#[derive(Clone, Copy, Debug, PartialEq, Eq)]
pub struct NetworkPeerInfo {
    pub identity_public_key: X25519PublicKey,
}

/// The peers allowed to connect when the network runs in authenticated mode.
/// It has no `Debug`; `describe` gives its short form.
#[derive(Clone, PartialEq)]
pub struct NetworkPeersConfig {
    pub peers: HashMap<PeerId, NetworkPeerInfo>,
}

/// The decimal digit `d`.
pub open spec fn decimal_digit(d: nat) -> char {
    seq!['0', '1', '2', '3', '4', '5', '6', '7', '8', '9'][d as int]
}

/// The decimal digits of `n`, most significant first, with no leading zero.
pub open spec fn spec_decimal(n: nat) -> Seq<char>
    decreases n,
{
    if n < 10 {
        seq![decimal_digit(n)]
    } else {
        spec_decimal(n / 10).push(decimal_digit(n % 10))
    }
}

/// The short form of a set of network peers: how many there are.
pub open spec fn spec_describe_peers(count: nat) -> Seq<char> {
    seq!['<'] + spec_decimal(count) + " keys>"@
}

fn push_decimal(s: &mut String, n: usize)
    ensures
        final(s)@ == old(s)@ + spec_decimal(n as nat),
    decreases n,
{
    let digits: [char; 10] = ['0', '1', '2', '3', '4', '5', '6', '7', '8', '9'];
    assert(digits@ =~= seq!['0', '1', '2', '3', '4', '5', '6', '7', '8', '9']);
    if n < 10 {
        push_char(s, digits[n]);
        assert(s@ =~= old(s)@ + spec_decimal(n as nat));
    } else {
        push_decimal(s, n / 10);
        push_char(s, digits[n % 10]);
        assert(s@ =~= old(s)@ + spec_decimal(n as nat));
    }
}

impl NetworkPeersConfig {
    /// The short form of the network peers, which does not list them:
    /// `<n keys>`, where `n` is how many there are.
    pub fn describe(&self) -> (text: String)
        ensures
            text@ == spec_describe_peers(self.peers@.len()),
    {
        let mut text = String::new();
        push_char(&mut text, '<');
        push_decimal(&mut text, self.peers.len());
        text.append(" keys>");
        assert(text@ =~= spec_describe_peers(self.peers@.len()));
        text
    }
}

impl Default for NetworkPeersConfig {
    fn default() -> (config: Self)
        ensures
            config.peers@ == Map::<PeerId, NetworkPeerInfo>::empty(),
    {
        NetworkPeersConfig { peers: HashMap::new() }
    }
}

} // verus!
