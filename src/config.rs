use vstd::prelude::*;

use crate::host::{Host, IpAddress};
use crate::keypair::{new_signature, signature_bytes, signature_from, verifies_of, KeyPair};
use crate::network::{Network, NetworkView};

verus! {

/// Why a configuration could not be read, written, bound or trusted.
#[derive(Debug, Clone, Copy, PartialEq, Eq, Structural)]
pub enum ConfigErr {
    FileReadingError,
    FileWritingError,
    DeserializingError,
    SerializingError,
    BindingRxError,
    BindingTxError,
    UnableToReadSignature,
    InvalidSignature,
}

/// A service a node offers: its name, its port, and the server it runs on
/// when that is not the node itself.
#[derive(Debug, PartialEq, Eq)]
pub struct Service {
    name: String,
    port: u16,
    server: Option<Host>,
}

/// A service as plain values: name, port, server.
pub open spec fn service_view(s: Service) -> (Seq<char>, u16, Option<Host>) {
    (s.name(), s.port(), s.server())
}

/// The services of a list, as plain values.
pub open spec fn services_view(v: Seq<Service>) -> Seq<(Seq<char>, u16, Option<Host>)> {
    v.map_values(|s: Service| service_view(s))
}

impl Clone for Service {
    fn clone(&self) -> (r: Self)
        ensures
            service_view(r) == service_view(*self),
    {
        Service { name: self.name.clone(), port: self.port, server: self.server }
    }
}

/// A copy of a list of services.
fn copy_services(v: &Vec<Service>) -> (r: Vec<Service>)
    ensures
        services_view(r@) == services_view(v@),
{
    let mut r: Vec<Service> = Vec::new();
    let mut i: usize = 0;
    while i < v.len()
        invariant
            0 <= i <= v@.len(),
            r@.len() == i,
            forall|k: int| 0 <= k < i ==> service_view(#[trigger] r@[k]) == service_view(v@[k]),
        decreases v@.len() - i,
    {
        r.push(v[i].clone());
        i = i + 1;
    }
    assert(services_view(r@) =~= services_view(v@));
    r
}

/// A copy of a byte string.
fn copy_bytes(v: &Vec<u8>) -> (r: Vec<u8>)
    ensures
        r@ == v@,
{
    let mut r: Vec<u8> = Vec::new();
    let mut i: usize = 0;
    while i < v.len()
        invariant
            0 <= i <= v@.len(),
            r@ == v@.subrange(0, i as int),
        decreases v@.len() - i,
    {
        r.push(v[i]);
        i = i + 1;
        assert(v@.subrange(0, i as int) == v@.subrange(0, i - 1).push(v@[i - 1]));
    }
    assert(v@.subrange(0, i as int) =~= v@);
    r
}

impl Service {
    pub fn new(name: String, port: u16, server: Option<Host>) -> (r: Service)
        ensures
            r.name() == name@,
            r.port() == port,
            r.server() == server,
    {
        Service { name, port, server }
    }

    pub closed spec fn name(&self) -> Seq<char> {
        self.name@
    }

    pub closed spec fn port(&self) -> u16 {
        self.port
    }

    pub closed spec fn server(&self) -> Option<Host> {
        self.server
    }

    /// The name, port and server, to be written out.
    pub fn into_parts(self) -> (r: (String, u16, Option<Host>))
        ensures
            r.0@ == self.name(),
            r.1 == self.port(),
            r.2 == self.server(),
    {
        (self.name, self.port, self.server)
    }
}

/// A node's configuration: its server, gateway, receiving and sending
/// addresses, known clients and services, and the signature that binds them
/// to a key.
#[derive(Debug, PartialEq, Eq)]
pub struct Config {
    server: Option<Host>,
    gateway: Host,
    rx: Host,
    tx: Option<Host>,
    clients: Option<Vec<(IpAddress, Host)>>,
    services: Option<Vec<Service>>,
    signature: Option<Vec<u8>>,
}

/// Everything a configuration holds but its signature.
pub struct ConfigBody {
    pub server: Option<Host>,
    pub gateway: Host,
    pub rx: Host,
    pub tx: Option<Host>,
    pub clients: Option<Seq<(IpAddress, Host)>>,
    pub services: Option<Seq<(Seq<char>, u16, Option<Host>)>>,
}

/// At most one client per address.
pub open spec fn distinct_keys(clients: Seq<(IpAddress, Host)>) -> bool {
    forall|i: int, j: int|
        0 <= i < clients.len() && 0 <= j < clients.len() && i != j ==> #[trigger] clients[i].0 != #[trigger] clients[j].0
}

/// The parts of a configuration, to be written out.
pub type ConfigParts = (
    Option<Host>,
    Host,
    Host,
    Option<Host>,
    Option<Vec<(IpAddress, Host)>>,
    Option<Vec<Service>>,
    Option<Vec<u8>>,
);

/// A copy of the client list.
fn copy_clients(c: &Vec<(IpAddress, Host)>) -> (r: Vec<(IpAddress, Host)>)
    ensures
        r@ == c@,
{
    let mut r: Vec<(IpAddress, Host)> = Vec::new();
    let mut i: usize = 0;
    while i < c.len()
        invariant
            0 <= i <= c@.len(),
            r@ == c@.subrange(0, i as int),
        decreases c@.len() - i,
    {
        r.push(c[i]);
        i = i + 1;
        assert(c@.subrange(0, i as int) == c@.subrange(0, i - 1).push(c@[i - 1]));
    }
    assert(c@.subrange(0, i as int) =~= c@);
    r
}

impl Clone for Config {
    fn clone(&self) -> (r: Self)
        ensures
            r.body().server == self.body().server,
            r.body().gateway == self.body().gateway,
            r.body().rx == self.body().rx,
            r.body().tx == self.body().tx,
            r.body().clients == self.body().clients,
            r.body().services == self.body().services,
            r.signature() == self.signature(),
    {
        proof {
            use_type_invariant(self);
        }
        let clients = match &self.clients {
            Some(c) => Some(copy_clients(c)),
            None => None,
        };
        Config {
            server: self.server,
            gateway: self.gateway,
            rx: self.rx,
            tx: self.tx,
            clients,
            services: match &self.services {
                Some(v) => Some(copy_services(v)),
                None => None,
            },
            signature: match &self.signature {
                Some(v) => Some(copy_bytes(v)),
                None => None,
            },
        }
    }
}

impl Config {
    #[verifier::type_invariant]
    closed spec fn inv(&self) -> bool {
        self.clients matches Some(c) ==> distinct_keys(c@)
    }

    /// Everything but the signature.
    pub closed spec fn body(&self) -> ConfigBody {
        ConfigBody {
            server: self.server,
            gateway: self.gateway,
            rx: self.rx,
            tx: self.tx,
            clients: match self.clients {
                Some(c) => Some(c@),
                None => None,
            },
            services: match self.services {
                Some(s) => Some(services_view(s@)),
                None => None,
            },
        }
    }

    /// The stored signature, if any.
    pub closed spec fn signature(&self) -> Option<Seq<u8>> {
        match self.signature {
            Some(s) => Some(s@),
            None => None,
        }
    }

    pub fn new(
        server: Option<Host>,
        gateway: Host,
        rx: Host,
        tx: Option<Host>,
        clients: Option<Vec<(IpAddress, Host)>>,
        services: Option<Vec<Service>>,
        signature: Option<Vec<u8>>,
    ) -> (r: Config)
        requires
            clients matches Some(c) ==> distinct_keys(c@),
        ensures
            r.body().server == server,
            r.body().gateway == gateway,
            r.body().rx == rx,
            r.body().tx == tx,
            r.body().clients == (match clients {
                Some(c) => Some(c@),
                None => None,
            }),
            r.body().services == (match services {
                Some(s) => Some(services_view(s@)),
                None => None,
            }),
            r.signature() == (match signature {
                Some(s) => Some(s@),
                None => None,
            }),
    {
        Config { server, gateway, rx, tx, clients, services, signature }
    }

    /// Takes the configuration apart, to be written out.
    pub fn into_parts(self) -> (r: ConfigParts)
        ensures
            r.0 == self.body().server,
            r.1 == self.body().gateway,
            r.2 == self.body().rx,
            r.3 == self.body().tx,
            r.4 matches Some(c) ==> self.body().clients == Some(c@),
            r.4 is None == self.body().clients is None,
            r.4 matches Some(c) ==> distinct_keys(c@),
            r.5 matches Some(s) ==> self.body().services == Some(services_view(s@)),
            r.5 is None == self.body().services is None,
            r.6 matches Some(s) ==> self.signature() == Some(s@),
            r.6 is None == self.signature() is None,
    {
        proof {
            use_type_invariant(&self);
        }
        (self.server, self.gateway, self.rx, self.tx, self.clients, self.services, self.signature)
    }

    pub fn rx(&self) -> (r: Host)
        ensures
            r == self.body().rx,
    {
        self.rx
    }

    /// The address to bind a separate sending socket on: the `tx` address,
    /// when it is set and differs from `rx`.
    pub fn tx_bind(&self) -> (r: Option<Host>)
        ensures
            r == (match self.body().tx {
                Some(t) => if t != self.body().rx {
                    Some(t)
                } else {
                    None
                },
                None => None,
            }),
    {
        match self.tx {
            Some(t) => if t != self.rx {
                Some(t)
            } else {
                None
            },
            None => None,
        }
    }

    /// The network this configuration describes, once its sockets are bound:
    /// gateway and server as configured, no client yet.
    pub fn network(&self, broadcastable: bool) -> (r: Network)
        ensures
            r@ == (NetworkView {
                server: self.body().server,
                gateway: self.body().gateway,
                clients: Map::empty(),
                broadcastable,
            }),
    {
        Network::new(self.gateway, self.server, broadcastable)
    }

    /// Signs the configuration. `unsigned` is its canonical serialization
    /// with the signature cleared. On success the signature is stored; on
    /// failure (`InvalidSignature`, as without a private key) nothing changes.
    pub fn sign(&mut self, key: &KeyPair, unsigned: &[u8]) -> (r: Result<(), ConfigErr>)
        ensures
            final(self).body() == old(self).body(),
            r is Ok == key.signature_for(unsigned@) is Some,
            r is Ok ==> final(self).signature() == key.signature_for(unsigned@),
            r is Err ==> r == Err::<(), ConfigErr>(ConfigErr::InvalidSignature) && final(self).signature() == old(self).signature(),
            !key.has_private() ==> r is Err,
    {
        match key.try_sign(unsigned) {
            Ok(signature) => {
                proof {
                    use_type_invariant(&*self);
                }
                self.signature = Some(signature_bytes(&signature));
                Ok(())
            },
            Err(_) => Err(ConfigErr::InvalidSignature),
        }
    }

    /// Checks the stored signature against `unsigned`, the canonical
    /// serialization of the configuration with the signature cleared.
    /// `InvalidSignature` when there is none or it does not match;
    /// `UnableToReadSignature` when it is not a signature of the key's
    /// algorithm.
    pub fn verify(&self, key: &KeyPair, unsigned: &[u8]) -> (r: Result<(), ConfigErr>)
        ensures
            self.signature() is None ==> r == Err::<(), ConfigErr>(ConfigErr::InvalidSignature),
            r is Ok == (self.signature() is Some && signature_from(key.algorithm_spec(), self.signature()->Some_0) is Some
                && verifies_of(key.public_spec(), unsigned@, signature_from(key.algorithm_spec(), self.signature()->Some_0)->Some_0)),
            (r == Err::<(), ConfigErr>(ConfigErr::UnableToReadSignature)) <==> (self.signature() is Some && signature_from(
                key.algorithm_spec(),
                self.signature()->Some_0,
            ) is None),
            r is Err ==> r == Err::<(), ConfigErr>(ConfigErr::InvalidSignature) || r == Err::<(), ConfigErr>(
                ConfigErr::UnableToReadSignature,
            ),
    {
        let bytes = match &self.signature {
            None => {
                return Err(ConfigErr::InvalidSignature);
            },
            Some(bytes) => copy_bytes(bytes),
        };
        let signature = match new_signature(key.algorithm(), bytes) {
            Err(_) => {
                return Err(ConfigErr::UnableToReadSignature);
            },
            Ok(signature) => signature,
        };
        match key.verify(unsigned, &signature) {
            Err(_) => Err(ConfigErr::InvalidSignature),
            Ok(()) => Ok(()),
        }
    }
}

} // verus!
