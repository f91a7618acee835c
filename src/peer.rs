use std::hash::Hasher;

use metrohash::MetroHash64;
use vstd::prelude::*;
use vstd::string::StringSliceAdditionalSpecFns;

use crate::host::Host;

verus! {

/// The 64-bit MetroHash (seed 0) of a byte string.
pub uninterp spec fn metrohash64_of(bytes: Seq<u8>) -> u64;

/// Relies on metrohash's `MetroHash64::new` (seed 0), fed the bytes once.
#[verifier::external_body]
fn metrohash64(bytes: &[u8]) -> (r: u64)
    ensures
        r == metrohash64_of(bytes@),
{
    let mut hasher = MetroHash64::new();
    hasher.write(bytes);
    hasher.finish()
}

/// What is kept about a peer: the peer, the hash of its address (the
/// record's key), its OpenSSH identity and public key, whether it is active,
/// and when it was last heard from.
pub struct SqliteCore {
    client: Host,
    client_hash: u64,
    openssh_id: Option<Vec<u8>>,
    openssh_pub: Option<Vec<u8>>,
    active: Option<()>,
    last_activity: Option<String>,
}

impl SqliteCore {
    pub closed spec fn client(&self) -> Host {
        self.client
    }

    pub closed spec fn key(&self) -> u64 {
        self.client_hash
    }

    /// Whether nothing is known of the peer yet but its address.
    pub closed spec fn blank(&self) -> bool {
        self.openssh_id is None && self.openssh_pub is None && self.active is None && self.last_activity is None
    }

    /// The record of a peer whose address hashes to `client_hash`.
    pub fn with_hash(client: &Host, client_hash: u64) -> (r: SqliteCore)
        ensures
            r.client() == *client,
            r.key() == client_hash,
            r.blank(),
    {
        SqliteCore {
            client: *client,
            client_hash,
            openssh_id: None,
            openssh_pub: None,
            active: None,
            last_activity: None,
        }
    }

    /// The record of a peer; `addr` is its address written `ip:port`, whose
    /// hash keys the record.
    pub fn new(client: &Host, addr: &str) -> (r: SqliteCore)
        ensures
            r.client() == *client,
            r.key() == metrohash64_of(addr.spec_bytes()),
            r.blank(),
    {
        let client_hash = metrohash64(addr.as_bytes());
        SqliteCore::with_hash(client, client_hash)
    }

    pub fn hash(&self) -> (r: u64)
        ensures
            r == self.key(),
    {
        self.client_hash
    }

    pub fn client_host(&self) -> (r: Host)
        ensures
            r == self.client(),
    {
        self.client
    }
}

} // verus!
