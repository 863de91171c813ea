//! A node's network identity: its x25519 key and peer identifier, held in the
//! configuration itself or in secure storage.

use crate::crypto::{spec_x25519_public_key, KeyPair, X25519PrivateKey, X25519PublicKey};
use crate::peer::PeerId;
use vstd::prelude::*;

verus! {

/// Where secure storage keeps its data.
#[derive(Clone, Debug, PartialEq, Eq)]
pub enum SecureBackend {
    /// Storage held in memory, lost when the process ends.
    InMemoryStorage,
    /// Storage in a file on disk, optionally under a namespace.
    OnDiskStorage { path: String, namespace: Option<String> },
    /// Storage in a GitHub repository, optionally under a namespace.
    GitHub { owner: String, repository: String, token: String, namespace: Option<String> },
    /// Storage in a Vault server, optionally under a namespace.
    Vault {
        server: String,
        ca_certificate: Option<String>,
        token: String,
        namespace: Option<String>,
    },
}

/// The identity is stored within the configuration. It has no `Debug`, as
/// its key pair holds a private key.
#[derive(Clone, PartialEq, Eq)]
pub struct IdentityFromConfig {
    pub keypair: KeyPair,
    pub peer_id: PeerId,
}

/// The identity is kept in secure storage, under the names given.
#[derive(Clone, Debug, PartialEq, Eq)]
pub struct IdentityFromStorage {
    pub key_name: String,
    pub peer_id_name: String,
    pub backend: SecureBackend,
}

/// A node's network identity.
#[derive(Clone, PartialEq, Eq)]
pub enum Identity {
    FromConfig(IdentityFromConfig),
    FromStorage(IdentityFromStorage),
    /// No identity has been set up yet.
    NoIdentity,
}

/// The identity held in the configuration whose key pair holds `key` (and
/// its public key) and whose peer identifier is `peer_id`.
pub open spec fn is_config_identity(identity: Identity, key: X25519PrivateKey, peer_id: PeerId) -> bool {
    &&& identity matches Identity::FromConfig(c)
    &&& c.keypair.spec_private_key() == Some(key)
    &&& c.keypair.spec_public_key().bytes@ == spec_x25519_public_key(key.bytes@)
    &&& c.peer_id == peer_id
}

/// The peer identifier of an identity held in the configuration.
pub open spec fn spec_peer_id_from_config(identity: Identity) -> Option<PeerId> {
    match identity {
        Identity::FromConfig(c) => Some(c.peer_id),
        _ => None,
    }
}

/// The public key of an identity held in the configuration.
pub open spec fn spec_public_key_from_config(identity: Identity) -> Option<X25519PublicKey> {
    match identity {
        Identity::FromConfig(c) => Some(c.keypair.spec_public_key()),
        _ => None,
    }
}

impl Identity {
    /// An identity held in the configuration, made of `key` and `peer_id`.
    pub fn from_config(key: X25519PrivateKey, peer_id: PeerId) -> (identity: Identity)
        ensures
            is_config_identity(identity, key, peer_id),
    {
        let keypair = KeyPair::load(key);
        Identity::FromConfig(IdentityFromConfig { keypair, peer_id })
    }

    /// An identity kept in secure storage under `key_name` and `peer_id_name`.
    pub fn from_storage(key_name: String, peer_id_name: String, backend: SecureBackend) -> (identity: Identity)
        ensures
            identity == Identity::FromStorage(
                IdentityFromStorage { key_name, peer_id_name, backend },
            ),
    {
        Identity::FromStorage(IdentityFromStorage { key_name, peer_id_name, backend })
    }

    /// The peer identifier, where the identity is held in the configuration.
    pub fn peer_id_from_config(&self) -> (id: Option<PeerId>)
        ensures
            id == spec_peer_id_from_config(*self),
    {
        match self {
            Identity::FromConfig(config) => Some(config.peer_id),
            _ => None,
        }
    }

    /// The public key, where the identity is held in the configuration.
    pub fn public_key_from_config(&self) -> (key: Option<X25519PublicKey>)
        ensures
            key == spec_public_key_from_config(*self),
    {
        if let Identity::FromConfig(config) = self {
            Some(config.keypair.public_key())
        } else {
            None
        }
    }
}

} // verus!
