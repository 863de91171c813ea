//! The network section of a node's configuration, and the rules by which it
//! is prepared, loaded and saved.

use crate::address::{NetworkAddress, Protocol};
use crate::crypto::{is_clamped, os_seeded_rng, spec_x25519_public_key, X25519PrivateKey};
use crate::error::NetworkConfigError;
use crate::identity::{is_config_identity, spec_peer_id_from_config, Identity, IdentityFromConfig};
use crate::peer::{
    derived_peer_id, lemma_hex_upper_len, lemma_peer_id_text_injective, peer_id_text, push_char,
    spec_derived_peer_id, spec_peer_id_text, PeerId,
};
use crate::peers::{all_seed_addrs_libranet, is_bad_seed_addr, NetworkPeersConfig, SeedPeersConfig};
use rand::rngs::StdRng;
use vstd::prelude::*;

verus! {

/// The file name, after the peer identifier, under which network peers are
/// saved when no file is configured.
pub const NETWORK_PEERS_DEFAULT: &'static str = "network_peers.config.toml";

/// The file name, after the peer identifier, under which seed peers are
/// saved when no file is configured.
pub const SEED_PEERS_DEFAULT: &'static str = "seed_peers.toml";

/// Current supported protocol negotiation handshake version.
pub const HANDSHAKE_VERSION: u8 = 0;

/// How a network discovers its peers.
#[derive(Clone, Copy, Debug, PartialEq, Eq)]
pub enum DiscoveryMethod {
    Gossip,
    Onchain,
    /// No discovery at all.
    NoDiscovery,
}

/// The role a node plays in the network.
#[derive(Clone, Copy, Debug, PartialEq, Eq)]
pub enum RoleType {
    Validator,
    FullNode,
}

impl RoleType {
    /// Whether the node is a validator.
    pub fn is_validator(&self) -> (b: bool)
        ensures
            b == (*self is Validator),
    {
        match self {
            RoleType::Validator => true,
            RoleType::FullNode => false,
        }
    }
}

/// The network section of a node's configuration. It has no `Debug`, as it
/// holds the node's private key.
#[derive(Clone, PartialEq)]
pub struct NetworkConfig {
    /// The address that this node is listening on for new connections.
    pub listen_address: NetworkAddress,
    /// The address that this node advertises to other nodes for discovery.
    pub advertised_address: NetworkAddress,
    pub discovery_interval_ms: u64,
    pub connectivity_check_interval_ms: u64,
    /// If the network uses remote authentication, only trusted peers are
    /// allowed to connect. Otherwise, any node can connect.
    pub enable_remote_authentication: bool,
    /// Whether this network uses gossip discovery, on-chain discovery, or none.
    pub discovery_method: DiscoveryMethod,
    /// The nodes allowed to connect when the network is started in
    /// authenticated mode. They are kept in a file of their own.
    pub network_peers: NetworkPeersConfig,
    /// The file holding `network_peers`; empty when there is none.
    pub network_peers_file: String,
    /// The seed nodes of the discovery protocol, kept in a file of their own.
    pub seed_peers: SeedPeersConfig,
    /// The file holding `seed_peers`; empty when there is none.
    pub seed_peers_file: String,
    pub identity: Identity,
}

/// Where `save` writes the peers: the network peers file, when there are
/// network peers to write, and the seed peers file.
#[derive(Clone, Debug, PartialEq, Eq)]
pub struct SavePlan {
    pub network_peers_file: Option<String>,
    pub seed_peers_file: String,
}

/// `addr` is `/ip4/<ip>/tcp/<port>`.
pub open spec fn is_ip4_tcp(addr: Seq<Protocol>, ip: Seq<u8>, port: u16) -> bool {
    &&& addr.len() == 2
    &&& addr[0] matches Protocol::Ip4(a) && a@ == ip
    &&& addr[1] == Protocol::Tcp(port)
}

/// A freshly made identity held in the configuration: a clamped private key,
/// its public key, and the peer identifier derived from that public key.
pub open spec fn is_fresh_config_identity(identity: Identity) -> bool {
    &&& identity matches Identity::FromConfig(c)
    &&& c.keypair.spec_private_key() matches Some(k)
    &&& is_clamped(k.bytes@)
    &&& c.keypair.spec_public_key().bytes@ == spec_x25519_public_key(k.bytes@)
    &&& c.peer_id == spec_derived_peer_id(c.keypair.spec_public_key().bytes@)
}

/// `after` is what preparing the identity `before` gives: an identity in
/// storage is kept; one in the configuration gets the peer identifier derived
/// from its public key if its own is the default (zero); where there is none,
/// a fresh one is made.
pub open spec fn is_prepared_identity(before: Identity, after: Identity) -> bool {
    match before {
        Identity::FromStorage(_) => after == before,
        Identity::FromConfig(c) => after == Identity::FromConfig(
            IdentityFromConfig {
                keypair: c.keypair,
                peer_id: if c.peer_id == 0 {
                    spec_derived_peer_id(c.keypair.spec_public_key().bytes@)
                } else {
                    c.peer_id
                },
            },
        ),
        Identity::NoIdentity => is_fresh_config_identity(after),
    }
}

/// The default file path for `config_path`: the text form of the peer
/// identifier held in the configuration (zero when there is none), a dot,
/// then `config_path`.
pub open spec fn spec_default_path(identity: Identity, config_path: Seq<char>) -> Seq<char> {
    let id = match spec_peer_id_from_config(identity) {
        Some(id) => id,
        None => 0,
    };
    spec_peer_id_text(id).push('.') + config_path
}

/// The address that loading leaves in place of `addr`: the local IP where
/// `addr` is empty, `addr` itself otherwise.
pub open spec fn filled_address(addr: Seq<Protocol>, local_ip: Option<NetworkAddress>) -> Seq<
    Protocol,
> {
    if addr.len() == 0 {
        match local_ip {
            Some(ip) => ip@,
            None => addr,
        }
    } else {
        addr
    }
}

/// The seed peers read at loading, if any, all have LibraNet addresses.
pub open spec fn seed_peers_ok(seed_peers: Option<SeedPeersConfig>) -> bool {
    match seed_peers {
        Some(s) => all_seed_addrs_libranet(s.seed_peers@),
        None => true,
    }
}

/// What loading does to `before`, given the peers read from their files,
/// the local IP found, and the node's role: the peers read replace those
/// held; the file names and settings stay; and `r` tells which check
/// stopped the loading, with the addresses and identity that result.
pub open spec fn spec_load_outcome(
    before: NetworkConfig,
    after: NetworkConfig,
    r: Result<(), NetworkConfigError>,
    network_peers: Option<NetworkPeersConfig>,
    seed_peers: Option<SeedPeersConfig>,
    local_ip: Option<NetworkAddress>,
    network_role: RoleType,
) -> bool {
    &&& after.network_peers.peers@ == (match network_peers {
        Some(p) => p.peers@,
        None => before.network_peers.peers@,
    })
    &&& after.seed_peers.seed_peers@ == (match seed_peers {
        Some(s) => s.seed_peers@,
        None => before.seed_peers.seed_peers@,
    })
    &&& after.network_peers_file == before.network_peers_file
    &&& after.seed_peers_file == before.seed_peers_file
    &&& after.discovery_interval_ms == before.discovery_interval_ms
    &&& after.connectivity_check_interval_ms == before.connectivity_check_interval_ms
    &&& after.enable_remote_authentication == before.enable_remote_authentication
    &&& after.discovery_method == before.discovery_method
    &&& match r {
        Err(NetworkConfigError::UnexpectedSeedPeerAddress { peer_id, addr }) => {
            &&& seed_peers matches Some(s) && is_bad_seed_addr(s.seed_peers@, peer_id, addr)
            &&& after.advertised_address@ == before.advertised_address@
            &&& after.listen_address@ == before.listen_address@
            &&& after.identity == before.identity
        },
        Err(NetworkConfigError::NoLocalIp) => {
            &&& seed_peers_ok(seed_peers)
            &&& before.spec_needs_local_ip()
            &&& local_ip is None
            &&& after.advertised_address@ == before.advertised_address@
            &&& after.listen_address@ == before.listen_address@
            &&& after.identity == before.identity
        },
        Err(NetworkConfigError::ValidatorNetworkPeersFile) => {
            &&& seed_peers_ok(seed_peers)
            &&& (before.spec_needs_local_ip() ==> local_ip is Some)
            &&& network_role is Validator
            &&& before.network_peers_file@.len() > 0
            &&& after.advertised_address@ == filled_address(
                before.advertised_address@,
                local_ip,
            )
            &&& after.listen_address@ == filled_address(
                before.listen_address@,
                local_ip,
            )
            &&& after.identity == before.identity
        },
        Err(NetworkConfigError::ValidatorNetworkPeers) => {
            &&& seed_peers_ok(seed_peers)
            &&& (before.spec_needs_local_ip() ==> local_ip is Some)
            &&& network_role is Validator
            &&& before.network_peers_file@.len() == 0
            &&& !before.network_peers.peers@.is_empty()
            &&& after.advertised_address@ == filled_address(
                before.advertised_address@,
                local_ip,
            )
            &&& after.listen_address@ == filled_address(
                before.listen_address@,
                local_ip,
            )
            &&& after.identity == before.identity
        },
        Err(NetworkConfigError::NoOsRandomness) => {
            &&& seed_peers_ok(seed_peers)
            &&& (before.spec_needs_local_ip() ==> local_ip is Some)
            &&& (network_role is Validator ==> before.network_peers_file@.len() == 0
                && before.network_peers.peers@.is_empty())
            &&& after.advertised_address@ == filled_address(
                before.advertised_address@,
                local_ip,
            )
            &&& after.listen_address@ == filled_address(
                before.listen_address@,
                local_ip,
            )
            &&& before.identity is NoIdentity
            &&& after.identity == before.identity
        },
        Ok(()) => {
            &&& seed_peers_ok(seed_peers)
            &&& (before.spec_needs_local_ip() ==> local_ip is Some)
            &&& (network_role is Validator ==> before.network_peers_file@.len() == 0
                && before.network_peers.peers@.is_empty())
            &&& after.advertised_address@ == filled_address(
                before.advertised_address@,
                local_ip,
            )
            &&& after.listen_address@ == filled_address(
                before.listen_address@,
                local_ip,
            )
            &&& is_prepared_identity(before.identity, after.identity)
        },
    }
}

impl NetworkConfig {
    /// The configuration with `identity` in place of its own.
    pub open spec fn with_identity(self, identity: Identity) -> NetworkConfig {
        NetworkConfig {
            listen_address: self.listen_address,
            advertised_address: self.advertised_address,
            discovery_interval_ms: self.discovery_interval_ms,
            connectivity_check_interval_ms: self.connectivity_check_interval_ms,
            enable_remote_authentication: self.enable_remote_authentication,
            discovery_method: self.discovery_method,
            network_peers: self.network_peers,
            network_peers_file: self.network_peers_file,
            seed_peers: self.seed_peers,
            seed_peers_file: self.seed_peers_file,
            identity,
        }
    }

    /// Whether loading would fill in an address with the local IP.
    pub open spec fn spec_needs_local_ip(self) -> bool {
        self.advertised_address@.len() == 0 || self.listen_address@.len() == 0
    }

    /// The network peers file after saving.
    pub open spec fn spec_saved_network_peers_file(self) -> Seq<char> {
        if !self.network_peers.peers@.is_empty() && self.network_peers_file@.len() == 0 {
            spec_default_path(self.identity, NETWORK_PEERS_DEFAULT@)
        } else {
            self.network_peers_file@
        }
    }

    /// The seed peers file after saving.
    pub open spec fn spec_saved_seed_peers_file(self) -> Seq<char> {
        if self.seed_peers_file@.len() == 0 {
            spec_default_path(self.identity, SEED_PEERS_DEFAULT@)
        } else {
            self.seed_peers_file@
        }
    }
}

impl Default for NetworkConfig {
    /// The default settings (see `has_default_settings`), with a fresh
    /// identity made from a generator seeded by the operating system, or
    /// none where the operating system gives no randomness.
    fn default() -> (config: Self)
        ensures
            config.has_default_settings(),
            is_fresh_config_identity(config.identity) || config.identity is NoIdentity,
    {
        NetworkConfig::default_with_rng(os_seeded_rng())
    }
}

impl NetworkConfig {
    /// Listens on `/ip4/0.0.0.0/tcp/6180`, advertises `/ip4/127.0.0.1/tcp/6180`,
    /// discovers by gossip every second, checks connectivity every five
    /// seconds, authenticates peers, and has no peers and no peer files.
    pub open spec fn has_default_settings(self) -> bool {
        &&& is_ip4_tcp(self.listen_address@, seq![0u8, 0u8, 0u8, 0u8], 6180)
        &&& is_ip4_tcp(self.advertised_address@, seq![127u8, 0u8, 0u8, 1u8], 6180)
        &&& self.discovery_interval_ms == 1000
        &&& self.connectivity_check_interval_ms == 5000
        &&& self.enable_remote_authentication
        &&& self.discovery_method == DiscoveryMethod::Gossip
        &&& self.network_peers.peers@.is_empty()
        &&& self.network_peers_file@.len() == 0
        &&& self.seed_peers.seed_peers@.is_empty()
        &&& self.seed_peers_file@.len() == 0
    }

    /// The default configuration, with its identity made from `rng`: a fresh
    /// one where a generator is given, none where it is not.
    pub fn default_with_rng(rng: Option<StdRng>) -> (config: Self)
        ensures
            config.has_default_settings(),
            rng is Some ==> is_fresh_config_identity(config.identity),
            rng is None ==> config.identity is NoIdentity,
    {
        let listen_ip: [u8; 4] = [0, 0, 0, 0];
        let advertised_ip: [u8; 4] = [127, 0, 0, 1];
        assert(listen_ip@ =~= seq![0u8, 0u8, 0u8, 0u8]);
        assert(advertised_ip@ =~= seq![127u8, 0u8, 0u8, 1u8]);
        let mut config = NetworkConfig {
            listen_address: NetworkAddress::ip4_tcp(listen_ip, 6180),
            advertised_address: NetworkAddress::ip4_tcp(advertised_ip, 6180),
            discovery_interval_ms: 1000,
            connectivity_check_interval_ms: 5000,
            enable_remote_authentication: true,
            discovery_method: DiscoveryMethod::Gossip,
            identity: Identity::NoIdentity,
            network_peers_file: String::new(),
            network_peers: NetworkPeersConfig::default(),
            seed_peers_file: String::new(),
            seed_peers: SeedPeersConfig::default(),
        };
        let _ = config.prepare_identity_with(rng);
        config
    }
}

impl NetworkConfig {
    /// Clones the configuration except for the key, so that it can serve as
    /// a template for another configuration.
    pub fn clone_for_template(&self) -> (template: Self)
        ensures
            template.listen_address@ == self.listen_address@,
            template.advertised_address@ == self.advertised_address@,
            template.discovery_interval_ms == self.discovery_interval_ms,
            template.connectivity_check_interval_ms == self.connectivity_check_interval_ms,
            template.enable_remote_authentication == self.enable_remote_authentication,
            template.discovery_method == self.discovery_method,
            template.identity == Identity::NoIdentity,
            template.network_peers_file == self.network_peers_file,
            template.network_peers.peers@ == self.network_peers.peers@,
            template.seed_peers_file == self.seed_peers_file,
            template.seed_peers.seed_peers@ == self.seed_peers.seed_peers@,
    {
        NetworkConfig {
            listen_address: self.listen_address.clone(),
            advertised_address: self.advertised_address.clone(),
            discovery_interval_ms: self.discovery_interval_ms,
            connectivity_check_interval_ms: self.connectivity_check_interval_ms,
            enable_remote_authentication: self.enable_remote_authentication,
            discovery_method: self.discovery_method,
            identity: Identity::NoIdentity,
            network_peers_file: self.network_peers_file.clone(),
            network_peers: NetworkPeersConfig { peers: self.network_peers.peers.clone() },
            seed_peers_file: self.seed_peers_file.clone(),
            seed_peers: SeedPeersConfig { seed_peers: self.seed_peers.seed_peers.clone() },
        }
    }

    /// The default file path for `config_path`: the peer identifier held in
    /// the configuration (zero when there is none) in text form, a dot, and
    /// `config_path`.
    pub fn default_path(&self, config_path: &str) -> (path: String)
        ensures
            path@ == spec_default_path(self.identity, config_path@),
    {
        let peer_id = match self.identity.peer_id_from_config() {
            Some(id) => id,
            None => 0,
        };
        let mut path = peer_id_text(peer_id);
        push_char(&mut path, '.');
        path.append(config_path);
        path
    }

    /// Whether loading will fill in the advertised or the listen address
    /// with the local IP, because it is empty.
    pub fn needs_local_ip(&self) -> (b: bool)
        ensures
            b == self.spec_needs_local_ip(),
    {
        self.advertised_address.is_empty() || self.listen_address.is_empty()
    }

    /// Decides where the peers are saved, both steps at once. Network peers
    /// are saved only when there are some; a peers file that is not
    /// configured gets the default path for the current peer identifier. The
    /// configuration records the files, and the plan names them for writing.
    /// A caller that writes between the steps, so that a failed write of the
    /// network peers leaves the seed peers file as it was, calls
    /// `save_network_peers` and `save_seed_peers` in turn.
    pub fn save(&mut self) -> (plan: SavePlan)
        ensures
            final(self).network_peers_file@ == old(self).spec_saved_network_peers_file(),
            final(self).seed_peers_file@ == old(self).spec_saved_seed_peers_file(),
            *final(self) == (NetworkConfig {
                network_peers_file: final(self).network_peers_file,
                seed_peers_file: final(self).seed_peers_file,
                ..*old(self)
            }),
            match plan.network_peers_file {
                Some(f) => !old(self).network_peers.peers@.is_empty() && f@
                    == final(self).network_peers_file@,
                None => old(self).network_peers.peers@.is_empty(),
            },
            plan.seed_peers_file@ == final(self).seed_peers_file@,
    {
        let network_peers_file = self.save_network_peers();
        let seed_peers_file = self.save_seed_peers();
        SavePlan { network_peers_file, seed_peers_file }
    }

    /// The first step of saving: where there are network peers, makes sure
    /// a network peers file is configured (the default path for the current
    /// peer identifier where none is) and names it for writing.
    pub fn save_network_peers(&mut self) -> (file: Option<String>)
        ensures
            final(self).network_peers_file@ == old(self).spec_saved_network_peers_file(),
            *final(self) == (NetworkConfig {
                network_peers_file: final(self).network_peers_file,
                ..*old(self)
            }),
            match file {
                Some(f) => !old(self).network_peers.peers@.is_empty() && f@
                    == final(self).network_peers_file@,
                None => old(self).network_peers.peers@.is_empty(),
            },
    {
        if self.network_peers.peers.is_empty() {
            return None;
        }
        if self.network_peers_file.as_str().is_empty() {
            self.network_peers_file = self.default_path(NETWORK_PEERS_DEFAULT);
        }
        Some(self.network_peers_file.clone())
    }

    /// The second step of saving, once the network peers are written: makes
    /// sure a seed peers file is configured (the default path for the current
    /// peer identifier where none is) and names it for writing.
    pub fn save_seed_peers(&mut self) -> (file: String)
        ensures
            final(self).seed_peers_file@ == old(self).spec_saved_seed_peers_file(),
            *final(self) == (NetworkConfig {
                seed_peers_file: final(self).seed_peers_file,
                ..*old(self)
            }),
            file@ == final(self).seed_peers_file@,
    {
        if self.seed_peers_file.as_str().is_empty() {
            self.seed_peers_file = self.default_path(SEED_PEERS_DEFAULT);
        }
        self.seed_peers_file.clone()
    }

    /// Loads the configuration, given what was read for it: the network peers
    /// and the seed peers read from their files (present exactly when the
    /// file is configured) and the local IP, if one was found.
    ///
    /// The peers read replace those held, and the seed peers must all have
    /// LibraNet addresses. An empty advertised or listen address is filled in
    /// with the local IP, and is an error when there is none. A validator may
    /// have neither a network peers file nor network peers. Last, the
    /// identity is prepared, which fails only where a fresh key is needed and
    /// the operating system gives no randomness. Each check stops the loading
    /// where it fails.
    pub fn load_with_rng(
        &mut self,
        network_peers: Option<NetworkPeersConfig>,
        seed_peers: Option<SeedPeersConfig>,
        local_ip: Option<NetworkAddress>,
        network_role: RoleType,
        rng: Option<StdRng>,
    ) -> (r: Result<(), NetworkConfigError>)
        requires
            (old(self).network_peers_file@.len() > 0) == (network_peers is Some),
            (old(self).seed_peers_file@.len() > 0) == (seed_peers is Some),
        ensures
            spec_load_outcome(
                *old(self),
                *final(self),
                r,
                network_peers,
                seed_peers,
                local_ip,
                network_role,
            ),
            r matches Err(NetworkConfigError::NoOsRandomness) ==> rng is None,
    {
        if let Some(peers) = network_peers {
            self.network_peers = peers;
        }
        if let Some(seeds) = seed_peers {
            self.seed_peers = seeds;
            self.seed_peers.verify_libranet_addrs()?;
        }
        if self.advertised_address.is_empty() {
            match &local_ip {
                Some(ip) => {
                    self.advertised_address = ip.clone();
                },
                None => {
                    return Err(NetworkConfigError::NoLocalIp);
                },
            }
        }
        if self.listen_address.is_empty() {
            match &local_ip {
                Some(ip) => {
                    self.listen_address = ip.clone();
                },
                None => {
                    return Err(NetworkConfigError::NoLocalIp);
                },
            }
        }
        if network_role.is_validator() {
            if !self.network_peers_file.as_str().is_empty() {
                return Err(NetworkConfigError::ValidatorNetworkPeersFile);
            }
            if !self.network_peers.peers.is_empty() {
                return Err(NetworkConfigError::ValidatorNetworkPeers);
            }
        }
        if self.prepare_identity_with(rng) {
            Ok(())
        } else {
            Err(NetworkConfigError::NoOsRandomness)
        }
    }

    /// Loads the configuration as `load_with_rng` does, with a generator
    /// seeded by the operating system drawn where the configuration holds no
    /// identity yet.
    pub fn load(
        &mut self,
        network_peers: Option<NetworkPeersConfig>,
        seed_peers: Option<SeedPeersConfig>,
        local_ip: Option<NetworkAddress>,
        network_role: RoleType,
    ) -> (r: Result<(), NetworkConfigError>)
        requires
            (old(self).network_peers_file@.len() > 0) == (network_peers is Some),
            (old(self).seed_peers_file@.len() > 0) == (seed_peers is Some),
        ensures
            spec_load_outcome(
                *old(self),
                *final(self),
                r,
                network_peers,
                seed_peers,
                local_ip,
                network_role,
            ),
    {
        let rng = if self.has_no_identity() {
            os_seeded_rng()
        } else {
            None
        };
        self.load_with_rng(network_peers, seed_peers, local_ip, network_role, rng)
    }

    /// Gives the configuration a new identity, with a key drawn from `rng`
    /// and the peer identifier derived from its public key.
    pub fn random(&mut self, rng: &mut StdRng)
        ensures
            *final(self) == old(self).with_identity(final(self).identity),
            is_fresh_config_identity(final(self).identity),
    {
        self.random_with_peer_id(rng, None);
    }

    /// Gives the configuration a new identity, with a key drawn from `rng`,
    /// and `peer_id` as peer identifier, or where it is absent the one
    /// derived from the public key.
    pub fn random_with_peer_id(&mut self, rng: &mut StdRng, peer_id: Option<PeerId>)
        ensures
            *final(self) == old(self).with_identity(final(self).identity),
            final(self).identity matches Identity::FromConfig(c) && c.keypair.spec_private_key() matches Some(k)
                && is_clamped(k.bytes@)
                && is_config_identity(final(self).identity, k, match peer_id {
                    Some(id) => id,
                    None => spec_derived_peer_id(spec_x25519_public_key(k.bytes@)),
                }),
    {
        let identity_key = X25519PrivateKey::generate(rng);
        let peer_id = match peer_id {
            Some(id) => id,
            None => derived_peer_id(&identity_key.public_key()),
        };
        self.identity = Identity::from_config(identity_key, peer_id);
    }

    /// The peer identifier of an identity held in the configuration.
    pub fn peer_id(&self) -> (id: PeerId)
        requires
            self.identity is FromConfig,
        ensures
            Some(id) == spec_peer_id_from_config(self.identity),
    {
        match self.identity.peer_id_from_config() {
            Some(id) => id,
            None => 0,
        }
    }

    /// Makes sure the configuration holds a usable identity: one in storage
    /// is left alone; one in the configuration gets the peer identifier
    /// derived from its public key when its own is the default; where there
    /// is none, a fresh key is drawn from `rng`. Gives `false`, and changes
    /// nothing, exactly when a fresh key is needed and no generator is given.
    pub fn prepare_identity_with(&mut self, rng: Option<StdRng>) -> (prepared: bool)
        ensures
            *final(self) == old(self).with_identity(final(self).identity),
            prepared == !(old(self).identity is NoIdentity && rng is None),
            prepared ==> is_prepared_identity(old(self).identity, final(self).identity),
            !prepared ==> *final(self) == *old(self),
    {
        let current = match &self.identity {
            Identity::FromConfig(config) => Some((config.keypair, config.peer_id)),
            _ => None,
        };
        match current {
            Some((keypair, peer_id)) => {
                let derived = derived_peer_id(&keypair.public_key());
                if peer_id == 0 {
                    self.identity = Identity::FromConfig(
                        IdentityFromConfig { keypair, peer_id: derived },
                    );
                }
                true
            },
            None => {
                if self.has_no_identity() {
                    match rng {
                        Some(mut rng) => {
                            let key = X25519PrivateKey::generate(&mut rng);
                            let peer_id = derived_peer_id(&key.public_key());
                            self.identity = Identity::from_config(key, peer_id);
                            true
                        },
                        None => false,
                    }
                } else {
                    true
                }
            },
        }
    }

    /// Whether the configuration holds no identity yet, so that preparing it
    /// needs a fresh key.
    pub fn has_no_identity(&self) -> (b: bool)
        ensures
            b == (self.identity is NoIdentity),
    {
        match &self.identity {
            Identity::NoIdentity => true,
            _ => false,
        }
    }

    /// Prepares the identity as `prepare_identity_with` does, with a
    /// generator seeded by the operating system drawn only where a fresh key
    /// is needed. It gives `false` only where a fresh key is needed and the
    /// operating system gave no randomness.
    fn prepare_identity(&mut self) -> (prepared: bool)
        ensures
            *final(self) == old(self).with_identity(final(self).identity),
            prepared ==> is_prepared_identity(old(self).identity, final(self).identity),
            !prepared ==> old(self).identity is NoIdentity && *final(self) == *old(self),
    {
        let rng = if self.has_no_identity() {
            os_seeded_rng()
        } else {
            None
        };
        self.prepare_identity_with(rng)
    }
}

/// Preparing keeps an identity in storage as it is, and keeps an identity in
/// the configuration whose peer identifier is set (not zero) as it is, peer
/// identifier included; only a zero peer identifier is replaced, by the one
/// derived from the public key.
pub proof fn lemma_prepare_keeps_set_identity(before: Identity, after: Identity)
    requires
        is_prepared_identity(before, after),
    ensures
        before is FromStorage ==> after == before,
        before matches Identity::FromConfig(c) ==> {
            &&& c.peer_id != 0 ==> after == before
            &&& c.peer_id == 0 ==> (after matches Identity::FromConfig(d) && d.keypair == c.keypair
                && d.peer_id == spec_derived_peer_id(c.keypair.spec_public_key().bytes@))
        },
        !(after is NoIdentity),
{
    if let Identity::FromConfig(c) = before {
        if c.peer_id != 0 {
            assert(IdentityFromConfig { keypair: c.keypair, peer_id: c.peer_id } == c);
        }
    }
}

/// Saving keeps a peers file that is already configured: where a file name
/// is set, it is the one written to; only an empty one is given a default,
/// which is never empty. Without network peers, the network peers file is
/// left as it is.
pub proof fn lemma_save_keeps_configured_files(cfg: NetworkConfig)
    ensures
        cfg.network_peers_file@.len() > 0 ==> cfg.spec_saved_network_peers_file()
            == cfg.network_peers_file@,
        cfg.network_peers.peers@.is_empty() ==> cfg.spec_saved_network_peers_file()
            == cfg.network_peers_file@,
        cfg.seed_peers_file@.len() > 0 ==> cfg.spec_saved_seed_peers_file() == cfg.seed_peers_file@,
        !cfg.network_peers.peers@.is_empty() ==> cfg.spec_saved_network_peers_file().len() > 0,
        cfg.spec_saved_seed_peers_file().len() > 0,
{
    let id = match spec_peer_id_from_config(cfg.identity) {
        Some(id) => id,
        None => 0,
    };
    lemma_hex_upper_len(id as nat, 32);
    assert(spec_default_path(cfg.identity, NETWORK_PEERS_DEFAULT@).len() > 0);
    assert(spec_default_path(cfg.identity, SEED_PEERS_DEFAULT@).len() > 0);
}

/// Loading touches an address only where it is empty: a non-empty listen or
/// advertised address is the same after loading, whatever the other one is
/// and whatever the outcome; an empty one that loading got past holds the
/// local IP.
pub proof fn lemma_load_fills_only_empty_addresses(
    before: NetworkConfig,
    after: NetworkConfig,
    r: Result<(), NetworkConfigError>,
    network_peers: Option<NetworkPeersConfig>,
    seed_peers: Option<SeedPeersConfig>,
    local_ip: Option<NetworkAddress>,
    network_role: RoleType,
)
    requires
        spec_load_outcome(before, after, r, network_peers, seed_peers, local_ip, network_role),
    ensures
        before.listen_address@.len() > 0 ==> after.listen_address@ == before.listen_address@,
        before.advertised_address@.len() > 0 ==> after.advertised_address@
            == before.advertised_address@,
        (r is Ok && before.listen_address@.len() == 0) ==> (local_ip matches Some(ip)
            && after.listen_address@ == ip@),
        (r is Ok && before.advertised_address@.len() == 0) ==> (local_ip matches Some(ip)
            && after.advertised_address@ == ip@),
{
}

/// Preparing an identity that has been prepared changes nothing: after
/// preparing, an identity in the configuration carries the peer identifier
/// it keeps, and one in storage is left as it is.
pub proof fn lemma_prepare_identity_idempotent(before: Identity, after: Identity)
    requires
        is_prepared_identity(before, after),
    ensures
        is_prepared_identity(after, after),
{
}

/// Loading a configuration a second time keeps its identity: an identity
/// that has been prepared is what preparing it again gives.
pub proof fn lemma_reload_keeps_identity(original: Identity, prepared: Identity, reloaded: Identity)
    requires
        is_prepared_identity(original, prepared),
        is_prepared_identity(prepared, reloaded),
    ensures
        reloaded == prepared,
{
    lemma_prepare_identity_idempotent(original, prepared);
}

/// Preparing a configuration's identity a second time leaves the whole
/// configuration as the first time left it.
pub proof fn lemma_prepare_twice(c0: NetworkConfig, c1: NetworkConfig, c2: NetworkConfig)
    requires
        c1 == c0.with_identity(c1.identity),
        is_prepared_identity(c0.identity, c1.identity),
        c2 == c1.with_identity(c2.identity),
        is_prepared_identity(c1.identity, c2.identity),
    ensures
        c2 == c1,
{
    lemma_reload_keeps_identity(c0.identity, c1.identity, c2.identity);
}

/// Loading twice with the same files and the same local IP is loading once:
/// where a first load succeeds, a second one succeeds too and changes
/// nothing that the first one set.
pub proof fn lemma_load_twice(
    c0: NetworkConfig,
    c1: NetworkConfig,
    c2: NetworkConfig,
    r2: Result<(), NetworkConfigError>,
    network_peers: Option<NetworkPeersConfig>,
    seed_peers: Option<SeedPeersConfig>,
    local_ip: Option<NetworkAddress>,
    network_role: RoleType,
)
    requires
        (c0.network_peers_file@.len() > 0) == (network_peers is Some),
        (c0.seed_peers_file@.len() > 0) == (seed_peers is Some),
        spec_load_outcome(c0, c1, Ok(()), network_peers, seed_peers, local_ip, network_role),
        spec_load_outcome(c1, c2, r2, network_peers, seed_peers, local_ip, network_role),
    ensures
        r2 is Ok,
        c2.network_peers.peers@ == c1.network_peers.peers@,
        c2.seed_peers.seed_peers@ == c1.seed_peers.seed_peers@,
        c2.listen_address@ == c1.listen_address@,
        c2.advertised_address@ == c1.advertised_address@,
        c2.identity == c1.identity,
        c2.network_peers_file == c1.network_peers_file,
        c2.seed_peers_file == c1.seed_peers_file,
{
    if r2 is Ok {
        lemma_reload_keeps_identity(c0.identity, c1.identity, c2.identity);
    }
}

/// Saving a second time changes nothing: the peers files that a save sets
/// are the ones a later save keeps and writes to.
pub proof fn lemma_save_idempotent(before: NetworkConfig, after: NetworkConfig)
    requires
        after.network_peers_file@ == before.spec_saved_network_peers_file(),
        after.seed_peers_file@ == before.spec_saved_seed_peers_file(),
        after == (NetworkConfig {
            network_peers_file: after.network_peers_file,
            seed_peers_file: after.seed_peers_file,
            ..before
        }),
    ensures
        after.spec_saved_network_peers_file() == after.network_peers_file@,
        after.spec_saved_seed_peers_file() == after.seed_peers_file@,
{
    let id = match spec_peer_id_from_config(before.identity) {
        Some(id) => id,
        None => 0,
    };
    lemma_hex_upper_len(id as nat, 32);
    assert(spec_default_path(before.identity, NETWORK_PEERS_DEFAULT@).len() > 0);
    assert(spec_default_path(before.identity, SEED_PEERS_DEFAULT@).len() > 0);
}

/// The default path of a file names the peer: two identities that give the
/// same default path for the same file name have the same peer identifier
/// (zero standing for an identity that is not held in the configuration).
pub proof fn lemma_default_path_names_peer(a: Identity, b: Identity, config_path: Seq<char>)
    requires
        spec_default_path(a, config_path) == spec_default_path(b, config_path),
    ensures
        (match spec_peer_id_from_config(a) {
            Some(id) => id,
            None => 0,
        }) == (match spec_peer_id_from_config(b) {
            Some(id) => id,
            None => 0,
        }),
{
    let ia: PeerId = match spec_peer_id_from_config(a) {
        Some(id) => id,
        None => 0,
    };
    let ib: PeerId = match spec_peer_id_from_config(b) {
        Some(id) => id,
        None => 0,
    };
    let ta = spec_peer_id_text(ia);
    let tb = spec_peer_id_text(ib);
    lemma_hex_upper_len(ia as nat, 32);
    lemma_hex_upper_len(ib as nat, 32);
    assert(ta =~= spec_default_path(a, config_path).subrange(0, 32));
    assert(tb =~= spec_default_path(b, config_path).subrange(0, 32));
    lemma_peer_id_text_injective(ia, ib);
}

} // verus!
