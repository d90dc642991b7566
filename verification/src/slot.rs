//! What a cluster is asked to be, and what each of its nodes is given.

use crate::config::{
    derive_node_config, derived_config, genesis_address, lemma_joiner_contacts,
    lemma_root_dirs_distinct, loopback, node_root_dir, Config, ConfigView, PeerAddr,
    TransportView,
};
use crate::text::{decimal, decimal_string};
use vstd::prelude::*;

verus! {

/// What a cluster request holds.
pub struct ClusterSpecView {
    /// The number of nodes asked for.
    pub node_count: nat,
    /// The configuration that every node starts from.
    pub template: ConfigView,
    /// The address that the genesis node binds and every joiner contacts.
    pub genesis: PeerAddr,
    /// The directory below which every node keeps its data.
    pub root: Seq<char>,
}

/// The request for a cluster: how many nodes, from which template, around
/// which genesis address, below which directory. It does not change while
/// the cluster is built.
#[derive(Debug)]
pub struct ClusterSpec {
    node_count: usize,
    template: Config,
    genesis: PeerAddr,
    root: String,
}

impl View for ClusterSpec {
    type V = ClusterSpecView;

    closed spec fn view(&self) -> ClusterSpecView {
        ClusterSpecView {
            node_count: self.node_count as nat,
            template: self.template@,
            genesis: self.genesis,
            root: self.root@,
        }
    }
}

/// The number of nodes of a cluster for which `requested` nodes were asked:
/// the genesis node is always there.
pub open spec fn cluster_size(requested: nat) -> nat {
    if requested == 0 {
        1
    } else {
        requested
    }
}

/// The template of a cluster on one machine: the flag for a network on this
/// machine only is set, and the loopback address is bound.
pub open spec fn local_template() -> ConfigView {
    ConfigView {
        local: true,
        first: false,
        root_dir: None,
        transport: TransportView { contacts: Seq::empty(), ip: Some(loopback()), port: None },
    }
}

/// The name of the thread that runs the node of the given ordinal.
pub open spec fn node_name(ordinal: nat) -> Seq<char> {
    if ordinal == 0 {
        "vault-genesis"@
    } else {
        "Vault-"@ + decimal(ordinal)
    }
}

/// What one node is given before it starts.
pub struct NodeSlotView {
    /// The node's place in the order of starting; 0 is the genesis node.
    pub ordinal: nat,
    /// The name of the thread that runs the node.
    pub name: Seq<char>,
    /// The node's configuration.
    pub config: ConfigView,
}

impl NodeSlotView {
    /// The genesis node is the one that is first of its network.
    pub open spec fn is_genesis(self) -> bool {
        self.config.first
    }
}

/// What the node of the given ordinal is given in the cluster that `spec`
/// asks for.
pub open spec fn node_slot(spec: ClusterSpecView, ordinal: nat) -> NodeSlotView {
    NodeSlotView {
        ordinal,
        name: node_name(ordinal),
        config: derived_config(spec.template, ordinal, spec.root, spec.genesis),
    }
}

/// The slots of all nodes of the cluster that `spec` asks for, by ordinal.
pub open spec fn node_slots(spec: ClusterSpecView) -> Seq<NodeSlotView> {
    Seq::new(cluster_size(spec.node_count), |i: int| node_slot(spec, i as nat))
}

/// The data directories of the nodes of a cluster, by ordinal.
pub open spec fn root_dirs(spec: ClusterSpecView) -> Seq<Seq<char>> {
    Seq::new(cluster_size(spec.node_count), |i: int| node_root_dir(spec.root, i as nat))
}

/// The number of genesis nodes among `slots`.
pub open spec fn genesis_count(slots: Seq<NodeSlotView>) -> nat
    decreases slots.len(),
{
    if slots.len() == 0 {
        0
    } else {
        genesis_count(slots.drop_last()) + if slots.last().is_genesis() {
            1nat
        } else {
            0nat
        }
    }
}

/// The number of joiners among `slots`.
pub open spec fn joiner_count(slots: Seq<NodeSlotView>) -> nat
    decreases slots.len(),
{
    if slots.len() == 0 {
        0
    } else {
        joiner_count(slots.drop_last()) + if slots.last().is_genesis() {
            0nat
        } else {
            1nat
        }
    }
}

/// What one node is given before it starts: its ordinal, the name of its
/// thread, and its own configuration. It is made once and handed to the
/// node.
#[derive(Debug)]
pub struct NodeSlot {
    ordinal: usize,
    name: String,
    config: Config,
}

impl View for NodeSlot {
    type V = NodeSlotView;

    closed spec fn view(&self) -> NodeSlotView {
        NodeSlotView { ordinal: self.ordinal as nat, name: self.name@, config: self.config@ }
    }
}

impl NodeSlot {
    /// The node's place in the order of starting; 0 is the genesis node.
    pub fn ordinal(&self) -> (ordinal: usize)
        ensures
            ordinal == self@.ordinal,
    {
        self.ordinal
    }

    /// Whether the node is the genesis node.
    pub fn is_genesis(&self) -> (genesis: bool)
        ensures
            genesis == self@.is_genesis(),
    {
        self.config.is_first()
    }

    /// The name of the thread that runs the node.
    pub fn name(&self) -> (name: &str)
        ensures
            name@ == self@.name,
    {
        self.name.as_str()
    }

    /// The node's configuration.
    pub fn config(&self) -> (config: &Config)
        ensures
            config@ == self@.config,
    {
        &self.config
    }
}

impl ClusterSpec {
    /// A cluster of `node_count` nodes from `template`, below the directory
    /// `vaults`, around the well-known genesis address.
    pub fn new(node_count: usize, template: Config) -> (spec: Self)
        ensures
            spec@ == (ClusterSpecView {
                node_count: node_count as nat,
                template: template@,
                genesis: genesis_address(),
                root: "vaults"@,
            }),
    {
        let genesis = PeerAddr::genesis();
        ClusterSpec { node_count, template, genesis, root: "vaults".to_owned() }
    }

    /// A cluster of `node_count` nodes on this machine.
    pub fn local(node_count: usize) -> (spec: Self)
        ensures
            spec@ == (ClusterSpecView {
                node_count: node_count as nat,
                template: local_template(),
                genesis: genesis_address(),
                root: "vaults"@,
            }),
    {
        let mut template = Config::new();
        template.set_local(true);
        template.listen_on_loopback();
        ClusterSpec::new(node_count, template)
    }

    /// The same request below another directory.
    pub fn with_root(self, root: &str) -> (spec: Self)
        ensures
            spec@ == (ClusterSpecView { root: root@, ..self@ }),
    {
        ClusterSpec { root: root.to_owned(), ..self }
    }

    /// The same request around another genesis address.
    pub fn with_genesis(self, genesis: PeerAddr) -> (spec: Self)
        ensures
            spec@ == (ClusterSpecView { genesis, ..self@ }),
    {
        ClusterSpec { genesis, ..self }
    }

    /// The number of nodes asked for.
    pub fn node_count(&self) -> (count: usize)
        ensures
            count == self@.node_count,
    {
        self.node_count
    }

    /// The number of nodes that the cluster will have: the number asked
    /// for, and one where none was asked for.
    pub fn size(&self) -> (size: usize)
        ensures
            size == cluster_size(self@.node_count),
    {
        if self.node_count == 0 {
            1
        } else {
            self.node_count
        }
    }

    /// The configuration that every node starts from.
    pub fn template(&self) -> (template: &Config)
        ensures
            template@ == self@.template,
    {
        &self.template
    }

    /// The address that the genesis node binds and every joiner contacts.
    pub fn genesis(&self) -> (genesis: PeerAddr)
        ensures
            genesis == self@.genesis,
    {
        self.genesis
    }

    /// The directory below which every node keeps its data.
    pub fn root(&self) -> (root: &str)
        ensures
            root@ == self@.root,
    {
        self.root.as_str()
    }

    /// Makes what the node of the given ordinal is given.
    pub fn slot(&self, ordinal: usize) -> (slot: NodeSlot)
        ensures
            slot@ == node_slot(self@, ordinal as nat),
    {
        let name = if ordinal == 0 {
            "vault-genesis".to_owned()
        } else {
            "Vault-".to_owned().concat(decimal_string(ordinal as u64).as_str())
        };
        let config = derive_node_config(
            &self.template,
            ordinal,
            self.root.as_str(),
            self.genesis,
        );
        NodeSlot { ordinal, name, config }
    }
}

impl Clone for ClusterSpec {
    fn clone(&self) -> (copy: Self)
        ensures
            copy@ == self@,
    {
        ClusterSpec {
            node_count: self.node_count,
            template: self.template.clone(),
            genesis: self.genesis,
            root: self.root.clone(),
        }
    }
}

/// Among the first `upto` slots of a cluster there is one genesis node, the
/// one of ordinal 0.
proof fn lemma_genesis_count_prefix(spec: ClusterSpecView, upto: nat)
    requires
        upto <= cluster_size(spec.node_count),
    ensures
        genesis_count(node_slots(spec).subrange(0, upto as int)) == if upto == 0 {
            0nat
        } else {
            1nat
        },
        joiner_count(node_slots(spec).subrange(0, upto as int)) == if upto == 0 {
            0nat
        } else {
            (upto - 1) as nat
        },
    decreases upto,
{
    let slots = node_slots(spec);
    let prefix = slots.subrange(0, upto as int);
    if upto > 0 {
        lemma_genesis_count_prefix(spec, (upto - 1) as nat);
        assert(prefix.drop_last() =~= slots.subrange(0, upto - 1));
    }
}

/// A cluster has exactly one genesis node, at ordinal 0, and every other
/// node is a joiner; with `n` nodes asked for, `n` at least 1, it has `n`
/// nodes, so `n - 1` joiners.
pub proof fn lemma_one_genesis(spec: ClusterSpecView)
    ensures
        node_slots(spec).len() == cluster_size(spec.node_count),
        spec.node_count >= 1 ==> node_slots(spec).len() == spec.node_count,
        genesis_count(node_slots(spec)) == 1,
        joiner_count(node_slots(spec)) == cluster_size(spec.node_count) - 1,
        spec.node_count >= 1 ==> joiner_count(node_slots(spec)) == spec.node_count - 1,
        node_slots(spec)[0].is_genesis(),
        forall|i: int|
            0 <= i < node_slots(spec).len() ==> (#[trigger] node_slots(spec)[i]).ordinal == i,
        forall|i: int|
            0 <= i < node_slots(spec).len() ==> ((#[trigger] node_slots(spec)[i]).is_genesis()
                <==> i == 0),
{
    let slots = node_slots(spec);
    lemma_genesis_count_prefix(spec, cluster_size(spec.node_count));
    assert(slots.subrange(0, slots.len() as int) =~= slots);
}

/// Every joiner of a cluster has the genesis address as its one contact.
pub proof fn lemma_joiners_contact_genesis(spec: ClusterSpecView, ordinal: nat)
    requires
        ordinal > 0,
    ensures
        !node_slot(spec, ordinal).is_genesis(),
        node_slot(spec, ordinal).config.transport.contacts == seq![spec.genesis],
        node_slot(spec, ordinal).config.transport.contacts.to_set() == set![spec.genesis],
{
    lemma_joiner_contacts(spec.template, ordinal, spec.root, spec.genesis);
}

/// No two nodes of a cluster keep their data in the same directory: the
/// directories of a cluster are as many as its nodes.
pub proof fn lemma_distinct_root_dirs(spec: ClusterSpecView)
    ensures
        forall|i: int, j: int|
            0 <= i < j < node_slots(spec).len() ==> (#[trigger] node_slots(spec)[i]).config.root_dir
                != (#[trigger] node_slots(spec)[j]).config.root_dir,
        root_dirs(spec).no_duplicates(),
        root_dirs(spec).to_set().len() == cluster_size(spec.node_count),
{
    let slots = node_slots(spec);
    assert forall|i: int, j: int| 0 <= i < j < slots.len() implies (#[trigger] slots[i])
        .config.root_dir != (#[trigger] slots[j]).config.root_dir by {
        lemma_root_dirs_distinct(spec.root, i as nat, j as nat);
    }
    let dirs = root_dirs(spec);
    assert forall|i: int, j: int|
        0 <= i < dirs.len() && 0 <= j < dirs.len() && i != j implies dirs[i] != dirs[j] by {
        lemma_root_dirs_distinct(spec.root, i as nat, j as nat);
    }
    dirs.unique_seq_to_set();
}

} // verus!
