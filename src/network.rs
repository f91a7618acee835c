use vstd::prelude::*;

use crate::datagram::{Datagram, DatagramView};
use crate::header::Header;
use crate::host::{Host, IpAddress};
use crate::tlv::parse;

verus! {

/// The state of a node's network: where it broadcasts, its server if any,
/// whether broadcast was granted on its socket, and its registry of clients,
/// at most one per IP address.
///
/// The registry is a list of clients with a ghost map beside it, rather than
/// std's `HashMap`: Verus accepts a `HashMap` keyed by the address enum, but
/// proves nothing of its lookups, not even that a key just inserted is there.
pub struct Network {
    server: Option<Host>,
    gateway: Host,
    clients: Vec<Host>,
    broadcastable: bool,
    registry: Ghost<Map<IpAddress, Host>>,
}

/// A network as plain values; the registry maps each client's IP address to
/// the client.
pub struct NetworkView {
    pub server: Option<Host>,
    pub gateway: Host,
    pub clients: Map<IpAddress, Host>,
    pub broadcastable: bool,
}

impl View for Network {
    type V = NetworkView;

    closed spec fn view(&self) -> NetworkView {
        NetworkView {
            server: self.server,
            gateway: self.gateway,
            clients: self.registry@,
            broadcastable: self.broadcastable,
        }
    }
}

/// Where a datagram is sent: the explicit destination if one is given, else
/// the datagram's own.
pub open spec fn send_target(dg: DatagramView, override_dst: Option<Host>) -> Option<Host> {
    match override_dst {
        Some(h) => Some(h),
        None => dg.dst,
    }
}

/// The datagram made of bytes received from `from`: the frame they hold, or
/// an empty `UNKNOWN` frame when they hold none.
pub open spec fn received_view(from: Host, bytes: Seq<u8>) -> DatagramView {
    match parse(bytes) {
        Some(t) => DatagramView { src: Some(from), data: t, dst: None },
        None => DatagramView { src: Some(from), data: (Header::UNKNOWN, Seq::empty()), dst: None },
    }
}

/// Registering `h`: whether it was added, and the registry after. A client is
/// added only when no client with its IP address is registered.
pub open spec fn registry_insert(m: Map<IpAddress, Host>, h: Host) -> (bool, Map<IpAddress, Host>) {
    if m.contains_key(h.ip) {
        (false, m)
    } else {
        (true, m.insert(h.ip, h))
    }
}

/// Unregistering `h`: whether a client with its IP address was registered,
/// and the registry after.
pub open spec fn registry_remove(m: Map<IpAddress, Host>, h: Host) -> (bool, Map<IpAddress, Host>) {
    (m.contains_key(h.ip), m.remove(h.ip))
}

/// Registering a host a second time reports false and leaves the registry as
/// the first registration left it; unregistering reports true exactly when
/// the host's IP address was registered, and leaves it unregistered.
pub proof fn lemma_registry_uniqueness(m: Map<IpAddress, Host>, h: Host)
    ensures
        registry_insert(registry_insert(m, h).1, h) == (false, registry_insert(m, h).1),
        registry_insert(m, h).1.contains_key(h.ip),
        registry_remove(m, h).0 == m.contains_key(h.ip),
        !registry_remove(m, h).1.contains_key(h.ip),
        registry_remove(registry_insert(m, h).1, h).0,
{
}

/// The list of clients holds exactly the registry's entries, one per address.
spec fn registry_matches(clients: Seq<Host>, reg: Map<IpAddress, Host>) -> bool {
    &&& forall|i: int|
        0 <= i < clients.len() ==> #[trigger] reg.contains_key(clients[i].ip) && reg[clients[i].ip] == clients[i]
    &&& forall|ip: IpAddress|
        #[trigger] reg.contains_key(ip) ==> exists|i: int| 0 <= i < clients.len() && #[trigger] clients[i].ip == ip
    &&& forall|i: int, j: int|
        0 <= i < clients.len() && 0 <= j < clients.len() && i != j ==> #[trigger] clients[i].ip != #[trigger] clients[j].ip
}

impl Network {
    #[verifier::type_invariant]
    closed spec fn inv(&self) -> bool {
        registry_matches(self.clients@, self.registry@)
    }

    /// A network with an empty registry.
    pub fn new(gateway: Host, server: Option<Host>, broadcastable: bool) -> (r: Network)
        ensures
            r@ == (NetworkView { server, gateway, clients: Map::empty(), broadcastable }),
    {
        Network { server, gateway, clients: Vec::new(), broadcastable, registry: Ghost(Map::empty()) }
    }

    pub fn server(&self) -> (r: Option<Host>)
        ensures
            r == self@.server,
    {
        self.server
    }

    pub fn gateway(&self) -> (r: Host)
        ensures
            r == self@.gateway,
    {
        self.gateway
    }

    pub fn broadcastable(&self) -> (r: bool)
        ensures
            r == self@.broadcastable,
    {
        self.broadcastable
    }

    /// The index of the client with the given IP address.
    fn find(&self, ip: IpAddress) -> (r: Option<usize>)
        ensures
            r matches Some(i) ==> i < self.clients@.len() && self.clients@[i as int].ip == ip,
            r is None ==> forall|i: int| 0 <= i < self.clients@.len() ==> #[trigger] self.clients@[i].ip != ip,
    {
        let mut i: usize = 0;
        while i < self.clients.len()
            invariant
                0 <= i <= self.clients@.len(),
                forall|k: int| 0 <= k < i ==> #[trigger] self.clients@[k].ip != ip,
            decreases self.clients@.len() - i,
        {
            if self.clients[i].ip == ip {
                return Some(i);
            }
            i = i + 1;
        }
        None
    }

    /// Whether a client with the same IP address is registered.
    pub fn contains(&self, client: &Host) -> (r: bool)
        ensures
            r == self@.clients.contains_key(client.ip),
    {
        proof {
            use_type_invariant(self);
        }
        match self.find(client.ip) {
            Some(i) => {
                assert(self.registry@.contains_key(self.clients@[i as int].ip));
                true
            },
            None => false,
        }
    }

    /// Registers a client under its IP address; does nothing and returns
    /// false when that address is already registered.
    pub fn insert(&mut self, client: &Host) -> (r: bool)
        ensures
            (r, final(self)@.clients) == registry_insert(old(self)@.clients, *client),
            final(self)@.server == old(self)@.server,
            final(self)@.gateway == old(self)@.gateway,
            final(self)@.broadcastable == old(self)@.broadcastable,
    {
        proof {
            use_type_invariant(&*self);
        }
        if self.contains(client) {
            false
        } else {
            let ghost old_clients = self.clients@;
            let ghost old_reg = self.registry@;
            let mut clients = self.clients.clone();
            assert(clients@ =~= old_clients);
            clients.push(*client);
            let ghost new_reg = old_reg.insert(client.ip, *client);
            proof {
                let n = old_clients.len() as int;
                assert forall|i: int| 0 <= i < clients@.len() implies #[trigger] new_reg.contains_key(
                    clients@[i].ip,
                ) && new_reg[clients@[i].ip] == clients@[i] by {
                    if i < n {
                        assert(clients@[i] == old_clients[i]);
                        assert(old_reg.contains_key(old_clients[i].ip));
                    }
                }
                assert forall|ip: IpAddress| #[trigger] new_reg.contains_key(ip) implies exists|i: int|
                    0 <= i < clients@.len() && #[trigger] clients@[i].ip == ip by {
                    if ip == client.ip {
                        assert(clients@[n].ip == ip);
                    } else {
                        assert(old_reg.contains_key(ip));
                        let k = choose|k: int| 0 <= k < old_clients.len() && #[trigger] old_clients[k].ip == ip;
                        assert(clients@[k].ip == ip);
                    }
                }
                assert forall|i: int, j: int|
                    0 <= i < clients@.len() && 0 <= j < clients@.len() && i != j
                        implies #[trigger] clients@[i].ip != #[trigger] clients@[j].ip by {
                    if i < n && j < n {
                        assert(clients@[i] == old_clients[i]);
                        assert(clients@[j] == old_clients[j]);
                    } else if i < n {
                        assert(clients@[i] == old_clients[i]);
                        assert(old_reg.contains_key(old_clients[i].ip));
                    } else {
                        assert(clients@[j] == old_clients[j]);
                        assert(old_reg.contains_key(old_clients[j].ip));
                    }
                }
            }
            assert(registry_matches(clients@, new_reg));
            *self = Network {
                server: self.server,
                gateway: self.gateway,
                clients,
                broadcastable: self.broadcastable,
                registry: Ghost(old_reg.insert(client.ip, *client)),
            };
            true
        }
    }

    /// Unregisters the client with the same IP address; returns whether one
    /// was registered.
    pub fn remove(&mut self, client: &Host) -> (r: bool)
        ensures
            (r, final(self)@.clients) == registry_remove(old(self)@.clients, *client),
            final(self)@.server == old(self)@.server,
            final(self)@.gateway == old(self)@.gateway,
            final(self)@.broadcastable == old(self)@.broadcastable,
    {
        proof {
            use_type_invariant(&*self);
        }
        match self.find(client.ip) {
            None => {
                proof {
                    if self.registry@.contains_key(client.ip) {
                        let k = choose|k: int| 0 <= k < self.clients@.len() && #[trigger] self.clients@[k].ip == client.ip;
                        assert(self.clients@[k].ip != client.ip);
                    }
                    assert(self.registry@.remove(client.ip) =~= self.registry@);
                }
                false
            },
            Some(idx) => {
                let ghost old_clients = self.clients@;
                let ghost old_reg = self.registry@;
                let ip = client.ip;
                assert(old_reg.contains_key(old_clients[idx as int].ip));
                let mut clients = self.clients.clone();
                assert(clients@ =~= old_clients);
                clients.remove(idx);
                let ghost new_reg = old_reg.remove(ip);
                proof {
                    let n = old_clients.len() as int;
                    let x = idx as int;
                    assert forall|i: int| 0 <= i < clients@.len() implies #[trigger] new_reg.contains_key(
                        clients@[i].ip,
                    ) && new_reg[clients@[i].ip] == clients@[i] by {
                        let k = if i < x { i } else { i + 1 };
                        assert(clients@[i] == old_clients[k]);
                        assert(old_reg.contains_key(old_clients[k].ip));
                        assert(old_clients[k].ip != old_clients[x].ip);
                    }
                    assert forall|a: IpAddress| #[trigger] new_reg.contains_key(a) implies exists|i: int|
                        0 <= i < clients@.len() && #[trigger] clients@[i].ip == a by {
                        assert(old_reg.contains_key(a));
                        let k = choose|k: int| 0 <= k < old_clients.len() && #[trigger] old_clients[k].ip == a;
                        assert(k != x);
                        if k < x {
                            assert(clients@[k].ip == a);
                        } else {
                            assert(clients@[k - 1].ip == a);
                        }
                    }
                    assert forall|i: int, j: int|
                        0 <= i < clients@.len() && 0 <= j < clients@.len() && i != j
                            implies #[trigger] clients@[i].ip != #[trigger] clients@[j].ip by {
                        let ki = if i < x { i } else { i + 1 };
                        let kj = if j < x { j } else { j + 1 };
                        assert(clients@[i] == old_clients[ki]);
                        assert(clients@[j] == old_clients[kj]);
                    }
                }
                assert(registry_matches(clients@, new_reg));
                *self = Network {
                    server: self.server,
                    gateway: self.gateway,
                    clients,
                    broadcastable: self.broadcastable,
                    registry: Ghost(old_reg.remove(ip)),
                };
                true
            },
        }
    }

    /// The registered clients, one per IP address: the snapshot that a
    /// multicast sends to.
    pub fn multicast_targets(&self) -> (r: Vec<Host>)
        ensures
            forall|h: Host| #[trigger] r@.contains(h) <==> (self@.clients.contains_key(h.ip) && self@.clients[h.ip] == h),
            forall|ip: IpAddress| #[trigger] self@.clients.contains_key(ip) ==> r@.contains(self@.clients[ip]),
            forall|i: int, j: int| 0 <= i < r@.len() && 0 <= j < r@.len() && i != j ==> #[trigger] r@[i] != #[trigger] r@[j],
    {
        proof {
            use_type_invariant(self);
        }
        let mut r: Vec<Host> = Vec::new();
        let mut i: usize = 0;
        while i < self.clients.len()
            invariant
                0 <= i <= self.clients@.len(),
                r@ == self.clients@.subrange(0, i as int),
            decreases self.clients@.len() - i,
        {
            r.push(self.clients[i]);
            i = i + 1;
            assert(self.clients@.subrange(0, i as int) =~= self.clients@.subrange(0, i - 1).push(self.clients@[i - 1]));
        }
        assert(self.clients@.subrange(0, i as int) =~= self.clients@);
        proof {
            assert forall|h: Host| #[trigger] r@.contains(h) implies (self@.clients.contains_key(h.ip)
                && self@.clients[h.ip] == h) by {
                let k = choose|k: int| 0 <= k < r@.len() && r@[k] == h;
                assert(self.registry@.contains_key(self.clients@[k].ip));
            }
            assert forall|h: Host| (self@.clients.contains_key(h.ip) && self@.clients[h.ip] == h) implies #[trigger] r@.contains(h) by {
                let k = choose|k: int| 0 <= k < self.clients@.len() && #[trigger] self.clients@[k].ip == h.ip;
                assert(self.registry@.contains_key(self.clients@[k].ip));
                assert(r@[k] == h);
            }
            assert forall|i: int, j: int| 0 <= i < r@.len() && 0 <= j < r@.len() && i != j implies #[trigger] r@[i] != #[trigger] r@[j] by {
                assert(self.clients@[i].ip != self.clients@[j].ip);
            }
            assert forall|ip: IpAddress| #[trigger] self@.clients.contains_key(ip) implies r@.contains(self@.clients[ip]) by {
                let k = choose|k: int| 0 <= k < self.clients@.len() && #[trigger] self.clients@[k].ip == ip;
                assert(self.registry@.contains_key(self.clients@[k].ip));
                assert(r@[k] == self@.clients[ip]);
            }
        }
        r
    }

    /// Where a broadcast goes: the gateway, when broadcast was granted.
    pub fn broadcast_target(&self) -> (r: Option<Host>)
        ensures
            r == (if self@.broadcastable {
                Some(self@.gateway)
            } else {
                None
            }),
    {
        if self.broadcastable {
            Some(self.gateway)
        } else {
            None
        }
    }

    /// Where `send_to` sends a datagram; `None` means nothing is sent.
    pub fn send_destination(dg: &Datagram, override_dst: Option<Host>) -> (r: Option<Host>)
        ensures
            r == send_target(dg@, override_dst),
    {
        match override_dst {
            Some(h) => Some(h),
            None => dg.dst(),
        }
    }

    /// The datagram made of the bytes of one received UDP payload.
    pub fn received(from: Host, bytes: Vec<u8>) -> (r: Datagram)
        ensures
            r@ == received_view(from, bytes@),
    {
        match Datagram::from_bytes(Some(from), bytes, None) {
            Some(dg) => dg,
            None => Datagram::new(Some(from), crate::tlv::TLV::new(Header::UNKNOWN, None).unwrap(), None),
        }
    }
}

} // verus!
