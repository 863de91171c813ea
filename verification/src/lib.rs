//! Network configuration of a Libra node: listen and advertised addresses,
//! discovery settings, the peers a node trusts or seeds from, and the
//! node's network identity, with the rules that load, save and prepare it.

pub mod address;
pub mod config;
pub mod crypto;
pub mod error;
pub mod identity;

pub mod peer;
pub mod peers;
