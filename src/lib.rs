//! Core of a peer-to-peer UDP overlay node: the TLV framing codec, the
//! datagram and host model, the client registry, the signal dispatch rules,
//! the per-datagram handler, the signed node configuration and the peer
//! records.

pub mod header;
pub mod tlv;
pub mod host;
pub mod datagram;
pub mod network;
pub mod signal;
pub mod shared_fifo;
pub mod workers;
pub mod keypair;
pub mod openssh;
pub mod config;
pub mod peer;
