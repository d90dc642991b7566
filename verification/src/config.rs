//! Node configuration, and how one node's configuration is derived from the
//! template that a cluster shares.

use crate::path::{is_absolute, join, joined, lemma_joined_injective, lemma_same_prefix};
use crate::text::{decimal, decimal_string, lemma_decimal_injective};
use vstd::prelude::*;

verus! {

/// An IPv4 address, by its four octets.
#[derive(Clone, Copy, Debug, PartialEq, Eq, Hash, Structural)]
pub struct Ipv4 {
    pub a: u8,
    pub b: u8,
    pub c: u8,
    pub d: u8,
}

/// The address at which a node can be reached.
#[derive(Clone, Copy, Debug, PartialEq, Eq, Hash, Structural)]
pub struct PeerAddr {
    pub ip: Ipv4,
    pub port: u16,
}

/// The loopback address, `127.0.0.1`.
pub open spec fn loopback() -> Ipv4 {
    Ipv4 { a: 127, b: 0, c: 0, d: 1 }
}

/// The well-known address of a local genesis node, `127.0.0.1:12000`.
pub open spec fn genesis_address() -> PeerAddr {
    PeerAddr { ip: loopback(), port: 12000 }
}

impl Ipv4 {
    pub fn new(a: u8, b: u8, c: u8, d: u8) -> (ip: Self)
        ensures
            ip == (Ipv4 { a, b, c, d }),
    {
        Ipv4 { a, b, c, d }
    }

    /// The loopback address, `127.0.0.1`.
    pub fn localhost() -> (ip: Self)
        ensures
            ip == loopback(),
    {
        Ipv4 { a: 127, b: 0, c: 0, d: 1 }
    }

    /// The four octets, first to last.
    pub fn octets(&self) -> (o: [u8; 4])
        ensures
            o@ == seq![self.a, self.b, self.c, self.d],
    {
        let o = [self.a, self.b, self.c, self.d];
        o
    }
}

impl PeerAddr {
    pub fn new(ip: Ipv4, port: u16) -> (addr: Self)
        ensures
            addr == (PeerAddr { ip, port }),
    {
        PeerAddr { ip, port }
    }

    /// The well-known address of a local genesis node, `127.0.0.1:12000`.
    pub fn genesis() -> (addr: Self)
        ensures
            addr == genesis_address(),
    {
        PeerAddr { ip: Ipv4::localhost(), port: 12000 }
    }
}

/// What a transport configuration holds.
pub struct TransportView {
    /// The peers to contact first, in the order in which they were added.
    pub contacts: Seq<PeerAddr>,
    /// The address to bind, where one is fixed.
    pub ip: Option<Ipv4>,
    /// The port to bind, where one is fixed.
    pub port: Option<u16>,
}

/// The network settings of one node: the peers it contacts first and the
/// address it binds.
#[derive(Debug)]
pub struct TransportConfig {
    contacts: Vec<PeerAddr>,
    ip: Option<Ipv4>,
    port: Option<u16>,
}

impl View for TransportConfig {
    type V = TransportView;

    closed spec fn view(&self) -> TransportView {
        TransportView { contacts: self.contacts@, ip: self.ip, port: self.port }
    }
}

impl TransportConfig {
    /// The contacts form a set: none occurs twice. This holds of every value
    /// of the type.
    pub open spec fn wf(&self) -> bool {
        self@.contacts.no_duplicates()
    }

    #[verifier::type_invariant]
    spec fn contacts_form_a_set(&self) -> bool {
        self.wf()
    }

    /// No contacts, and nothing fixed about the address to bind.
    pub fn new() -> (t: Self)
        ensures
            t.wf(),
            t@ == (TransportView { contacts: Seq::empty(), ip: None, port: None }),
    {
        TransportConfig { contacts: Vec::new(), ip: None, port: None }
    }

    /// Whether `addr` is among the contacts.
    pub fn has_contact(&self, addr: PeerAddr) -> (found: bool)
        ensures
            found == self@.contacts.contains(addr),
    {
        let mut i: usize = 0;
        while i < self.contacts.len()
            invariant
                i <= self.contacts.len(),
                forall|k: int| 0 <= k < i ==> self.contacts@[k] != addr,
            decreases self.contacts.len() - i,
        {
            if self.contacts[i] == addr {
                return true;
            }
            i = i + 1;
        }
        false
    }

    /// Adds `addr` to the contacts unless it is one already. Says whether it
    /// was added.
    pub fn add_contact(&mut self, addr: PeerAddr) -> (added: bool)
        ensures
            final(self).wf(),
            added == !old(self)@.contacts.contains(addr),
            final(self)@.ip == old(self)@.ip,
            final(self)@.port == old(self)@.port,
            final(self)@.contacts == if added {
                old(self)@.contacts.push(addr)
            } else {
                old(self)@.contacts
            },
    {
        proof {
            use_type_invariant(&*self);
        }
        if self.has_contact(addr) {
            false
        } else {
            let mut contacts = self.contacts();
            contacts.push(addr);
            *self = TransportConfig { contacts, ip: self.ip, port: self.port };
            true
        }
    }

    /// Fixes the address to bind.
    pub fn bind(&mut self, ip: Option<Ipv4>, port: Option<u16>)
        ensures
            final(self).wf(),
            final(self)@ == (TransportView { ip, port, ..old(self)@ }),
    {
        proof {
            use_type_invariant(&*self);
        }
        self.ip = ip;
        self.port = port;
    }

    /// The peers to contact first, in the order in which they were added.
    pub fn contacts(&self) -> (list: Vec<PeerAddr>)
        ensures
            list@ == self@.contacts,
    {
        let mut list: Vec<PeerAddr> = Vec::new();
        let mut i: usize = 0;
        while i < self.contacts.len()
            invariant
                i <= self.contacts.len(),
                list@ == self.contacts@.subrange(0, i as int),
            decreases self.contacts.len() - i,
        {
            list.push(self.contacts[i]);
            i = i + 1;
        }
        list
    }

    /// The address to bind, where one is fixed.
    pub fn ip(&self) -> (ip: Option<Ipv4>)
        ensures
            ip == self@.ip,
    {
        self.ip
    }

    /// The port to bind, where one is fixed.
    pub fn port(&self) -> (port: Option<u16>)
        ensures
            port == self@.port,
    {
        self.port
    }
}

impl Clone for TransportConfig {
    fn clone(&self) -> (copy: Self)
        ensures
            copy.wf(),
            copy@ == self@,
    {
        proof {
            use_type_invariant(self);
        }
        TransportConfig { contacts: self.contacts(), ip: self.ip, port: self.port }
    }
}

/// What a node configuration holds.
pub struct ConfigView {
    /// The node runs in a network on this machine only.
    pub local: bool,
    /// The node is the first of its network: it joins nobody.
    pub first: bool,
    /// The directory in which the node keeps its data, where one is set.
    pub root_dir: Option<Seq<char>>,
    /// The node's network settings.
    pub transport: TransportView,
}

/// The configuration of one node.
#[derive(Debug)]
pub struct Config {
    local: bool,
    first: bool,
    root_dir: Option<String>,
    transport: TransportConfig,
}

impl View for Config {
    type V = ConfigView;

    closed spec fn view(&self) -> ConfigView {
        ConfigView {
            local: self.local,
            first: self.first,
            root_dir: match self.root_dir {
                Some(dir) => Some(dir@),
                None => None,
            },
            transport: self.transport@,
        }
    }
}

impl Config {
    /// The contacts of the network settings form a set. This holds of every
    /// value of the type.
    pub open spec fn wf(&self) -> bool {
        self@.transport.contacts.no_duplicates()
    }

    /// No flag set, no root directory, default network settings.
    pub fn new() -> (config: Self)
        ensures
            config.wf(),
            config@ == (ConfigView {
                local: false,
                first: false,
                root_dir: None,
                transport: TransportView { contacts: Seq::empty(), ip: None, port: None },
            }),
    {
        Config { local: false, first: false, root_dir: None, transport: TransportConfig::new() }
    }

    /// Sets or clears the flag for a network on this machine only.
    pub fn set_local(&mut self, on: bool)
        ensures
            final(self)@ == (ConfigView { local: on, ..old(self)@ }),
    {
        self.local = on;
    }

    /// Sets or clears the flag of the first node of a network.
    pub fn set_first(&mut self, on: bool)
        ensures
            final(self)@ == (ConfigView { first: on, ..old(self)@ }),
    {
        self.first = on;
    }

    /// Sets the directory in which the node keeps its data.
    pub fn set_root_dir(&mut self, dir: &str)
        ensures
            final(self)@ == (ConfigView { root_dir: Some(dir@), ..old(self)@ }),
    {
        self.root_dir = Some(dir.to_owned());
    }

    /// Replaces the network settings.
    pub fn set_transport(&mut self, transport: TransportConfig)
        ensures
            final(self)@ == (ConfigView { transport: transport@, ..old(self)@ }),
    {
        self.transport = transport;
    }

    /// Makes the node bind the loopback address; the port stays as it is.
    pub fn listen_on_loopback(&mut self)
        ensures
            final(self)@ == (ConfigView {
                transport: TransportView { ip: Some(loopback()), ..old(self)@.transport },
                ..old(self)@
            }),
    {
        let port = self.transport.port();
        self.transport.bind(Some(Ipv4::localhost()), port);
    }

    /// Whether the node runs in a network on this machine only.
    pub fn is_local(&self) -> (on: bool)
        ensures
            on == self@.local,
    {
        self.local
    }

    /// Whether the node is the first of its network.
    pub fn is_first(&self) -> (on: bool)
        ensures
            on == self@.first,
    {
        self.first
    }

    /// The directory in which the node keeps its data, where one is set.
    pub fn root_dir(&self) -> (dir: Option<String>)
        ensures
            dir is Some == self@.root_dir is Some,
            dir matches Some(d) ==> self@.root_dir == Some(d@),
    {
        match &self.root_dir {
            Some(dir) => Some(dir.clone()),
            None => None,
        }
    }

    /// The node's network settings.
    pub fn transport(&self) -> (transport: &TransportConfig)
        ensures
            transport@ == self@.transport,
            self.wf(),
    {
        proof {
            use_type_invariant(&self.transport);
        }
        &self.transport
    }
}

impl Clone for Config {
    fn clone(&self) -> (copy: Self)
        ensures
            copy@ == self@,
    {
        Config {
            local: self.local,
            first: self.first,
            root_dir: self.root_dir(),
            transport: self.transport.clone(),
        }
    }
}

/// The name of the directory, below the cluster's root, in which the node
/// of the given ordinal keeps its data.
pub open spec fn node_dir_name(ordinal: nat) -> Seq<char> {
    if ordinal == 0 {
        "genesis-vault"@
    } else {
        "vault-"@ + decimal(ordinal)
    }
}

/// The directory in which the node of the given ordinal keeps its data.
pub open spec fn node_root_dir(cluster_root: Seq<char>, ordinal: nat) -> Seq<char> {
    joined(cluster_root, node_dir_name(ordinal))
}

/// The configuration of the node of the given ordinal in a cluster that
/// shares `template`.
///
/// Ordinal 0 is the genesis node: it is the first of its network, keeps the
/// template's contacts and binds the genesis address. Every other node is a
/// joiner: it is not first, binds the loopback address at any port, and has
/// the genesis address as its one contact.
pub open spec fn derived_config(
    template: ConfigView,
    ordinal: nat,
    cluster_root: Seq<char>,
    genesis: PeerAddr,
) -> ConfigView {
    ConfigView {
        local: template.local,
        first: ordinal == 0,
        root_dir: Some(node_root_dir(cluster_root, ordinal)),
        transport: if ordinal == 0 {
            TransportView {
                contacts: template.transport.contacts,
                ip: Some(genesis.ip),
                port: Some(genesis.port),
            }
        } else {
            TransportView { contacts: seq![genesis], ip: Some(loopback()), port: None }
        },
    }
}

/// Writes the name of the data directory of the node of the given ordinal.
pub fn dir_name(ordinal: usize) -> (name: String)
    ensures
        name@ == node_dir_name(ordinal as nat),
{
    if ordinal == 0 {
        "genesis-vault".to_owned()
    } else {
        "vault-".to_owned().concat(decimal_string(ordinal as u64).as_str())
    }
}

/// Derives the configuration of the node of the given ordinal from the
/// template that the cluster shares.
pub fn derive_node_config(
    template: &Config,
    ordinal: usize,
    cluster_root: &str,
    genesis: PeerAddr,
) -> (config: Config)
    ensures
        config.wf(),
        config@ == derived_config(template@, ordinal as nat, cluster_root@, genesis),
{
    let mut config = template.clone();
    let name = dir_name(ordinal);
    let root = join(cluster_root, name.as_str());
    config.set_root_dir(root.as_str());
    if ordinal == 0 {
        config.set_first(true);
        let mut transport = template.transport().clone();
        transport.bind(Some(genesis.ip), Some(genesis.port));
        config.set_transport(transport);
    } else {
        config.set_first(false);
        let mut transport = TransportConfig::new();
        transport.add_contact(genesis);
        transport.bind(Some(Ipv4::localhost()), None);
        config.set_transport(transport);
    }
    proof {
        use_type_invariant(&config.transport);
    }
    config
}

/// The name of a data directory is a relative path.
pub proof fn lemma_dir_name_relative(ordinal: nat)
    ensures
        !is_absolute(node_dir_name(ordinal)),
        node_dir_name(ordinal).len() > 0,
        ordinal == 0 <==> node_dir_name(ordinal)[0] == 'g',
{
    reveal_strlit("genesis-vault");
    reveal_strlit("vault-");
}

/// Different ordinals have data directories of different names.
pub proof fn lemma_dir_names_distinct(i: nat, j: nat)
    requires
        i != j,
    ensures
        node_dir_name(i) != node_dir_name(j),
{
    lemma_dir_name_relative(i);
    lemma_dir_name_relative(j);
    if i != 0 && j != 0 {
        if node_dir_name(i) == node_dir_name(j) {
            lemma_same_prefix("vault-"@, decimal(i), decimal(j));
            lemma_decimal_injective(i, j);
        }
    }
}

/// No two nodes of a cluster keep their data in the same directory.
pub proof fn lemma_root_dirs_distinct(cluster_root: Seq<char>, i: nat, j: nat)
    requires
        i != j,
    ensures
        node_root_dir(cluster_root, i) != node_root_dir(cluster_root, j),
{
    lemma_dir_name_relative(i);
    lemma_dir_name_relative(j);
    lemma_dir_names_distinct(i, j);
    if node_root_dir(cluster_root, i) == node_root_dir(cluster_root, j) {
        lemma_joined_injective(cluster_root, node_dir_name(i), node_dir_name(j));
    }
}

/// A joiner's contacts are the genesis address and nothing else.
pub proof fn lemma_joiner_contacts(
    template: ConfigView,
    ordinal: nat,
    cluster_root: Seq<char>,
    genesis: PeerAddr,
)
    requires
        ordinal > 0,
    ensures
        derived_config(template, ordinal, cluster_root, genesis).transport.contacts.to_set()
            == set![genesis],
        derived_config(template, ordinal, cluster_root, genesis).transport.contacts.len() == 1,
        !derived_config(template, ordinal, cluster_root, genesis).first,
{
    let contacts = derived_config(template, ordinal, cluster_root, genesis).transport.contacts;
    assert(contacts[0] == genesis);
}

} // verus!
