use libra_config::address::{NetworkAddress, Protocol};
use libra_config::config::{
    DiscoveryMethod, NetworkConfig, RoleType, HANDSHAKE_VERSION, NETWORK_PEERS_DEFAULT,
    SEED_PEERS_DEFAULT,
};
use libra_config::crypto::{KeyPair, X25519PrivateKey, X25519PublicKey};
use libra_config::error::NetworkConfigError;
use libra_config::identity::{Identity, SecureBackend};
use libra_config::peer::{derived_peer_id, peer_id_from_text, peer_id_text};
use libra_config::peers::{NetworkPeerInfo, NetworkPeersConfig, SeedPeersConfig};
use rand::{rngs::StdRng, SeedableRng};

fn generate_config() -> NetworkConfig {
    let mut config = NetworkConfig::default();
    config.network_peers = NetworkPeersConfig::default();
    config
}

fn hex_bytes(s: &str) -> [u8; 32] {
    let mut out = [0u8; 32];
    for i in 0..32 {
        out[i] = u8::from_str_radix(&s[2 * i..2 * i + 2], 16).unwrap();
    }
    out
}

fn libranet_addr(key: X25519PublicKey) -> NetworkAddress {
    NetworkAddress {
        protocols: vec![
            Protocol::Ip4([10, 0, 0, 1]),
            Protocol::Tcp(6180),
            Protocol::NoiseIK(key),
            Protocol::Handshake(HANDSHAKE_VERSION),
        ],
    }
}

#[test]
fn test_with_defaults() {
    // Assert default exists
    let mut config = generate_config();
    assert!(config.network_peers == NetworkPeersConfig::default());
    assert_eq!(config.network_peers_file, String::new());
    assert!(config.identity != Identity::NoIdentity);
    assert_eq!(config.seed_peers, SeedPeersConfig::default());
    assert_eq!(config.seed_peers_file, String::new());
    let identity = config.identity.clone();

    // Assert default loading doesn't affect paths and defaults remain in place
    config.load(None, None, None, RoleType::FullNode).unwrap();
    assert!(config.network_peers == NetworkPeersConfig::default());
    assert_eq!(config.network_peers_file, String::new());
    assert!(config.identity == identity);
    assert_eq!(config.seed_peers_file, String::new());
    assert_eq!(config.seed_peers, SeedPeersConfig::default());

    // Assert saving updates paths
    let plan = config.save();
    assert_eq!(config.seed_peers, SeedPeersConfig::default());
    assert_eq!(config.seed_peers_file, config.default_path(SEED_PEERS_DEFAULT));
    assert_eq!(plan.seed_peers_file, config.seed_peers_file);
    assert_eq!(plan.network_peers_file, None);

    // Assert paths and values are not set (i.e., no defaults apply)
    assert!(config.identity == identity);
    assert!(config.network_peers == NetworkPeersConfig::default());
    assert_eq!(config.network_peers_file, String::new());
}

#[test]
fn test_with_random() {
    let mut config = generate_config();
    config.network_peers = NetworkPeersConfig::default();
    let mut rng = StdRng::from_seed([5u8; 32]);
    config.random(&mut rng);
    // This is default (empty) otherwise
    let peer_id = config.identity.peer_id_from_config().unwrap();
    config.seed_peers.seed_peers.insert(peer_id, vec![]);

    let identity = config.identity.clone();
    let peers = config.network_peers.clone();
    let seed_peers = config.seed_peers.clone();

    // Assert empty paths
    assert_eq!(config.network_peers_file, String::new());
    assert_eq!(config.seed_peers_file, String::new());

    // Assert saving updates paths
    let plan = config.save();
    assert!(config.identity == identity);
    assert!(config.network_peers == peers);
    assert_eq!(config.network_peers_file, String::new());
    assert_eq!(config.seed_peers, seed_peers);
    assert_eq!(config.seed_peers_file, config.default_path(SEED_PEERS_DEFAULT));
    assert_eq!(plan.seed_peers_file, config.seed_peers_file);

    // Assert a fresh load correctly populates the config
    let mut new_config = NetworkConfig::default();
    // First that paths are empty
    assert_eq!(new_config.network_peers_file, String::new());
    assert_eq!(new_config.seed_peers_file, String::new());
    // Loading populates things correctly
    let result = new_config.load(None, None, None, RoleType::Validator);
    result.unwrap();
    assert!(config.identity == identity);
    assert!(config.network_peers == peers);
    assert_eq!(config.network_peers_file, String::new());
    assert_eq!(config.seed_peers, seed_peers);
    assert_eq!(config.seed_peers_file, config.default_path(SEED_PEERS_DEFAULT));
}

#[test]
fn test_generate_ip_addresses_on_load() {
    // Generate a random node
    let mut config = generate_config();
    let mut rng = StdRng::from_seed([32u8; 32]);
    config.random(&mut rng);

    // Now reset IP addresses and save
    config.listen_address = NetworkAddress::mock();
    config.advertised_address = NetworkAddress::mock();
    config.save();
    let saved_seed_peers = config.seed_peers.clone();

    // Now load and verify default IP addresses are generated
    assert!(config.needs_local_ip());
    let local_ip = NetworkAddress::ip4_tcp([192, 168, 0, 7], 6180);
    config
        .load(None, Some(saved_seed_peers), Some(local_ip), RoleType::FullNode)
        .unwrap();
    assert!(!config.listen_address.is_empty());
    assert!(!config.advertised_address.is_empty());
}

#[test]
fn default_settings() {
    let config = NetworkConfig::default();
    assert_eq!(
        config.listen_address.protocols,
        vec![Protocol::Ip4([0, 0, 0, 0]), Protocol::Tcp(6180)]
    );
    assert_eq!(
        config.advertised_address.protocols,
        vec![Protocol::Ip4([127, 0, 0, 1]), Protocol::Tcp(6180)]
    );
    assert_eq!(config.discovery_interval_ms, 1000);
    assert_eq!(config.connectivity_check_interval_ms, 5000);
    assert!(config.enable_remote_authentication);
    assert_eq!(config.discovery_method, DiscoveryMethod::Gossip);
    // The fresh identity's peer id is derived from its public key.
    let key = config.identity.public_key_from_config().unwrap();
    assert_eq!(config.peer_id(), derived_peer_id(&key));
}

#[test]
fn x25519_public_key_matches_rfc7748() {
    let private = X25519PrivateKey {
        bytes: hex_bytes("77076d0a7318a57d3c16c17251b26645df4c2f87ebc0992ab177fba51db92c2a"),
    };
    let public = private.public_key();
    assert_eq!(
        public.bytes,
        hex_bytes("8520f0098930a754748b7ddcb43ef75a0dbf3a0d26381af4eba4a98eaa9b4e6a")
    );
}

#[test]
fn generated_keys_are_clamped() {
    let mut rng = StdRng::from_seed([7u8; 32]);
    let key = X25519PrivateKey::generate(&mut rng);
    assert_eq!(key.bytes[0] % 8, 0);
    assert!(key.bytes[31] >= 64 && key.bytes[31] < 128);
}

#[test]
fn derived_peer_id_is_last_sixteen_bytes() {
    let mut bytes = [0u8; 32];
    for i in 0..32 {
        bytes[i] = i as u8;
    }
    let key = X25519PublicKey { bytes };
    assert_eq!(derived_peer_id(&key), 0x101112131415161718191a1b1c1d1e1f);
}

#[test]
fn peer_id_text_is_upper_hex() {
    assert_eq!(
        peer_id_text(0x0123456789abcdef0011223344556677),
        "0123456789ABCDEF0011223344556677"
    );
    assert_eq!(peer_id_text(0), "00000000000000000000000000000000");
}

#[test]
fn default_path_uses_peer_id() {
    let mut config = generate_config();
    let mut rng = StdRng::from_seed([1u8; 32]);
    config.random_with_peer_id(&mut rng, Some(0xabcdef));
    assert_eq!(config.peer_id(), 0xabcdef);
    assert_eq!(
        config.default_path(SEED_PEERS_DEFAULT),
        "00000000000000000000000000ABCDEF.seed_peers.toml"
    );
    let mut storage = generate_config();
    storage.identity = Identity::from_storage(
        "key".to_string(),
        "peer".to_string(),
        SecureBackend::InMemoryStorage,
    );
    assert_eq!(storage.identity.peer_id_from_config(), None);
    assert!(storage.identity.public_key_from_config() == None);
    assert_eq!(
        storage.default_path(NETWORK_PEERS_DEFAULT),
        "00000000000000000000000000000000.network_peers.config.toml"
    );
}

#[test]
fn save_twice_keeps_files() {
    let mut config = generate_config();
    let key = X25519PrivateKey { bytes: [9u8; 32] }.public_key();
    config
        .network_peers
        .peers
        .insert(5, NetworkPeerInfo { identity_public_key: key });
    let first = config.save();
    assert_eq!(
        first.network_peers_file,
        Some(config.default_path(NETWORK_PEERS_DEFAULT))
    );
    let second = config.save();
    assert_eq!(first, second);
}

#[test]
fn template_drops_identity_only() {
    let mut config = generate_config();
    config.seed_peers.seed_peers.insert(3, vec![NetworkAddress::mock()]);
    config.network_peers_file = "peers.toml".to_string();
    let template = config.clone_for_template();
    assert!(template.identity == Identity::NoIdentity);
    assert_eq!(template.listen_address, config.listen_address);
    assert_eq!(template.seed_peers, config.seed_peers);
    assert_eq!(template.network_peers_file, "peers.toml");
}

#[test]
fn prepared_identity_is_kept_on_reload() {
    let mut config = generate_config();
    let identity = config.identity.clone();
    config.load(None, None, None, RoleType::FullNode).unwrap();
    config.load(None, None, None, RoleType::FullNode).unwrap();
    assert!(config.identity == identity);
}

#[test]
fn missing_peer_id_is_derived_on_load() {
    let mut config = generate_config();
    let key = X25519PrivateKey { bytes: [3u8; 32] };
    config.identity = Identity::from_config(key, 0);
    config.load(None, None, None, RoleType::FullNode).unwrap();
    assert_eq!(config.peer_id(), derived_peer_id(&key.public_key()));
}

#[test]
fn template_gets_fresh_identity_on_load() {
    let config = generate_config();
    let mut template = config.clone_for_template();
    template.load(None, None, None, RoleType::FullNode).unwrap();
    let key = template.identity.public_key_from_config().unwrap();
    assert_eq!(template.peer_id(), derived_peer_id(&key));
}

#[test]
fn seed_peer_addresses_are_checked() {
    let key = X25519PrivateKey { bytes: [4u8; 32] }.public_key();
    let mut seeds = SeedPeersConfig::default();
    seeds.seed_peers.insert(1, vec![libranet_addr(key)]);
    assert_eq!(seeds.verify_libranet_addrs(), Ok(()));

    let bad = NetworkAddress::ip4_tcp([10, 0, 0, 2], 6180);
    seeds.seed_peers.insert(2, vec![libranet_addr(key), bad.clone()]);
    assert_eq!(
        seeds.verify_libranet_addrs(),
        Err(NetworkConfigError::UnexpectedSeedPeerAddress { peer_id: 2, addr: bad })
    );
}

#[test]
fn libranet_address_forms() {
    let key = X25519PrivateKey { bytes: [4u8; 32] }.public_key();
    assert!(libranet_addr(key).is_libranet_addr());
    let dns = NetworkAddress {
        protocols: vec![
            Protocol::Dns("example.com".to_string()),
            Protocol::Tcp(80),
            Protocol::NoiseIK(key),
            Protocol::Handshake(0),
        ],
    };
    assert!(dns.is_libranet_addr());
    let memory = NetworkAddress {
        protocols: vec![Protocol::Memory(1), Protocol::NoiseIK(key), Protocol::Handshake(0)],
    };
    assert!(!memory.is_libranet_addr());
    let mut trailing = libranet_addr(key);
    trailing.protocols.push(Protocol::Tcp(1));
    assert!(!trailing.is_libranet_addr());
    assert!(!NetworkAddress::mock().is_libranet_addr());
}

#[test]
fn load_errors() {
    // Seed peers with a bad address.
    let mut config = generate_config();
    config.seed_peers_file = "seeds.toml".to_string();
    let mut seeds = SeedPeersConfig::default();
    seeds.seed_peers.insert(9, vec![NetworkAddress::mock()]);
    assert_eq!(
        config.load(None, Some(seeds), None, RoleType::FullNode),
        Err(NetworkConfigError::UnexpectedSeedPeerAddress {
            peer_id: 9,
            addr: NetworkAddress::mock()
        })
    );

    // No local IP for an empty address.
    let mut config = generate_config();
    config.advertised_address = NetworkAddress::mock();
    assert_eq!(
        config.load(None, None, None, RoleType::FullNode),
        Err(NetworkConfigError::NoLocalIp)
    );
    assert!(config.advertised_address.is_empty());

    // A validator with a network peers file.
    let mut config = generate_config();
    config.network_peers_file = "peers.toml".to_string();
    assert_eq!(
        config.load(Some(NetworkPeersConfig::default()), None, None, RoleType::Validator),
        Err(NetworkConfigError::ValidatorNetworkPeersFile)
    );

    // A validator with network peers.
    let mut config = generate_config();
    let key = X25519PrivateKey { bytes: [2u8; 32] }.public_key();
    config
        .network_peers
        .peers
        .insert(1, NetworkPeerInfo { identity_public_key: key });
    assert_eq!(
        config.load(None, None, None, RoleType::Validator),
        Err(NetworkConfigError::ValidatorNetworkPeers)
    );

    // A full node may have network peers.
    assert_eq!(config.load(None, None, None, RoleType::FullNode), Ok(()));
}

#[test]
fn loaded_peers_replace_held_ones() {
    let mut config = generate_config();
    config.network_peers_file = "peers.toml".to_string();
    let key = X25519PrivateKey { bytes: [6u8; 32] }.public_key();
    let mut peers = NetworkPeersConfig::default();
    peers.peers.insert(8, NetworkPeerInfo { identity_public_key: key });
    config.load(Some(peers.clone()), None, None, RoleType::FullNode).unwrap();
    assert!(config.network_peers == peers);
}

#[test]
fn peer_id_text_round_trip() {
    let id: u128 = 0x00ff_1234_5678_9abc_def0_0000_0000_0001;
    assert_eq!(peer_id_from_text(&peer_id_text(id)), Some(id));
    assert_eq!(
        peer_id_from_text("0123456789abcdef0011223344556677"),
        Some(0x0123456789abcdef0011223344556677)
    );
    assert_eq!(peer_id_from_text("0123"), None);
    assert_eq!(peer_id_from_text("0123456789abcdef001122334455667g"), None);
}

#[test]
fn key_pair_holds_both_keys() {
    let key = X25519PrivateKey { bytes: [8u8; 32] };
    let pair = KeyPair::load(key);
    assert!(pair.private_key() == Some(key));
    assert_eq!(pair.public_key(), key.public_key());
    assert_ne!(pair.public_key().bytes, key.bytes);
}

#[test]
fn network_peers_short_form() {
    let mut peers = NetworkPeersConfig::default();
    assert_eq!(peers.describe(), "<0 keys>");
    for i in 0..12u128 {
        let key = X25519PrivateKey { bytes: [i as u8; 32] }.public_key();
        peers.peers.insert(i, NetworkPeerInfo { identity_public_key: key });
    }
    assert_eq!(peers.describe(), "<12 keys>");
}

#[test]
fn save_in_two_steps() {
    let mut config = generate_config();
    assert_eq!(config.save_network_peers(), None);
    assert_eq!(config.seed_peers_file, String::new());
    let key = X25519PrivateKey { bytes: [5u8; 32] }.public_key();
    config.network_peers.peers.insert(4, NetworkPeerInfo { identity_public_key: key });
    let network = config.save_network_peers();
    assert_eq!(network, Some(config.default_path(NETWORK_PEERS_DEFAULT)));
    // The seed peers file is set only in the second step.
    assert_eq!(config.seed_peers_file, String::new());
    let seed = config.save_seed_peers();
    assert_eq!(seed, config.default_path(SEED_PEERS_DEFAULT));
    assert_eq!(config.seed_peers_file, seed);
}

#[test]
fn storage_identity_is_kept_on_load() {
    let mut config = generate_config();
    let backend = SecureBackend::Vault {
        server: "https://vault".to_string(),
        ca_certificate: None,
        token: "t".to_string(),
        namespace: Some("ns".to_string()),
    };
    config.identity = Identity::from_storage("k".to_string(), "p".to_string(), backend);
    let identity = config.identity.clone();
    config.load(None, None, None, RoleType::FullNode).unwrap();
    assert!(config.identity == identity);
}

#[test]
fn default_with_a_generator_has_an_identity() {
    let config = NetworkConfig::default_with_rng(Some(StdRng::from_seed([11u8; 32])));
    let key = config.identity.public_key_from_config().unwrap();
    assert_eq!(config.peer_id(), derived_peer_id(&key));
    assert_eq!(config.discovery_interval_ms, 1000);
    let without = NetworkConfig::default_with_rng(None);
    assert!(without.identity == Identity::NoIdentity);
    assert!(without.network_peers == NetworkPeersConfig::default());
}

#[test]
fn preparing_needs_a_generator_only_without_identity() {
    let mut config = NetworkConfig::default_with_rng(None);
    assert!(config.has_no_identity());
    assert!(!config.prepare_identity_with(None));
    assert!(config.identity == Identity::NoIdentity);
    assert!(config.prepare_identity_with(Some(StdRng::from_seed([12u8; 32]))));
    assert!(!config.has_no_identity());
    let identity = config.identity.clone();
    // A second preparation needs no generator and changes nothing.
    assert!(config.prepare_identity_with(None));
    assert!(config.identity == identity);
}

#[test]
fn load_without_randomness() {
    let mut config = NetworkConfig::default_with_rng(None);
    assert_eq!(
        config.load_with_rng(None, None, None, RoleType::FullNode, None),
        Err(NetworkConfigError::NoOsRandomness)
    );
    assert!(config.identity == Identity::NoIdentity);
    let rng = Some(StdRng::from_seed([13u8; 32]));
    assert_eq!(config.load_with_rng(None, None, None, RoleType::FullNode, rng), Ok(()));
    let key = config.identity.public_key_from_config().unwrap();
    assert_eq!(config.peer_id(), derived_peer_id(&key));
}
