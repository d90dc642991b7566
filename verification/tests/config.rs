use local_cluster::config::{derive_node_config, dir_name, Config, Ipv4, PeerAddr, TransportConfig};

fn addr(d: u8, port: u16) -> PeerAddr {
    PeerAddr::new(Ipv4::new(10, 0, 0, d), port)
}

#[test]
fn genesis_address_is_loopback_12000() {
    let genesis = PeerAddr::genesis();
    assert_eq!(genesis.ip.octets(), [127, 0, 0, 1]);
    assert_eq!(genesis.port, 12000);
    assert_eq!(genesis.ip, Ipv4::localhost());
}

#[test]
fn new_transport_has_nothing() {
    let transport = TransportConfig::new();
    assert!(transport.contacts().is_empty());
    assert_eq!(transport.ip(), None);
    assert_eq!(transport.port(), None);
}

#[test]
fn contacts_form_a_set() {
    let mut transport = TransportConfig::new();
    assert!(transport.add_contact(addr(1, 1000)));
    assert!(transport.add_contact(addr(2, 1000)));
    assert!(!transport.add_contact(addr(1, 1000)));
    assert!(transport.add_contact(addr(1, 1001)));
    assert_eq!(transport.contacts(), vec![addr(1, 1000), addr(2, 1000), addr(1, 1001)]);
    assert!(transport.has_contact(addr(2, 1000)));
    assert!(!transport.has_contact(addr(3, 1000)));
}

#[test]
fn bind_keeps_the_contacts() {
    let mut transport = TransportConfig::new();
    transport.add_contact(addr(1, 1000));
    transport.bind(Some(Ipv4::localhost()), Some(7));
    assert_eq!(transport.contacts(), vec![addr(1, 1000)]);
    assert_eq!(transport.ip(), Some(Ipv4::localhost()));
    assert_eq!(transport.port(), Some(7));
    let copy = transport.clone();
    assert_eq!(copy.contacts(), vec![addr(1, 1000)]);
    assert_eq!(copy.port(), Some(7));
}

#[test]
fn new_config_has_no_flag_set() {
    let config = Config::new();
    assert!(!config.is_local());
    assert!(!config.is_first());
    assert_eq!(config.root_dir(), None);
    assert!(config.transport().contacts().is_empty());
}

#[test]
fn setters_change_one_thing_each() {
    let mut config = Config::new();
    config.set_local(true);
    assert!(config.is_local() && !config.is_first());
    config.set_first(true);
    assert!(config.is_local() && config.is_first());
    config.set_root_dir("somewhere");
    assert_eq!(config.root_dir(), Some("somewhere".to_string()));
    config.listen_on_loopback();
    assert_eq!(config.transport().ip(), Some(Ipv4::localhost()));
    assert_eq!(config.transport().port(), None);
    assert!(config.is_local() && config.is_first());
    let copy = config.clone();
    assert_eq!(copy.root_dir(), Some("somewhere".to_string()));
    assert!(copy.is_local() && copy.is_first());
}

#[test]
fn directory_names() {
    assert_eq!(dir_name(0), "genesis-vault");
    assert_eq!(dir_name(1), "vault-1");
    assert_eq!(dir_name(10), "vault-10");
    assert_eq!(dir_name(123), "vault-123");
}

#[test]
fn genesis_config_is_first_and_binds_the_genesis_address() {
    let mut template = Config::new();
    template.set_local(true);
    let genesis = PeerAddr::genesis();
    let config = derive_node_config(&template, 0, "vaults", genesis);
    assert!(config.is_first());
    assert!(config.is_local());
    assert_eq!(config.root_dir(), Some("vaults/genesis-vault".to_string()));
    assert_eq!(config.transport().ip(), Some(genesis.ip));
    assert_eq!(config.transport().port(), Some(12000));
    assert!(config.transport().contacts().is_empty());
}

#[test]
fn genesis_config_keeps_the_contacts_of_the_template() {
    let mut transport = TransportConfig::new();
    transport.add_contact(addr(9, 9));
    let mut template = Config::new();
    template.set_transport(transport);
    let config = derive_node_config(&template, 0, "vaults", PeerAddr::genesis());
    assert_eq!(config.transport().contacts(), vec![addr(9, 9)]);
}

#[test]
fn joiner_contacts_exactly_the_genesis_address() {
    let mut transport = TransportConfig::new();
    transport.add_contact(addr(9, 9));
    transport.add_contact(addr(8, 8));
    transport.bind(Some(Ipv4::new(1, 2, 3, 4)), Some(5));
    let mut template = Config::new();
    template.set_transport(transport);
    template.set_first(true);
    template.set_local(true);
    let genesis = addr(7, 4242);
    for ordinal in [1usize, 2, 3, 17, 1000] {
        let config = derive_node_config(&template, ordinal, "vaults", genesis);
        assert_eq!(config.transport().contacts(), vec![genesis]);
        assert!(!config.is_first());
        assert!(config.is_local());
        assert_eq!(config.transport().ip(), Some(Ipv4::localhost()));
        assert_eq!(config.transport().port(), None);
    }
}

#[test]
fn joiner_root_directories() {
    let template = Config::new();
    let genesis = PeerAddr::genesis();
    assert_eq!(
        derive_node_config(&template, 1, "vaults", genesis).root_dir(),
        Some("vaults/vault-1".to_string())
    );
    assert_eq!(
        derive_node_config(&template, 42, "/tmp/cluster/", genesis).root_dir(),
        Some("/tmp/cluster/vault-42".to_string())
    );
    assert_eq!(
        derive_node_config(&template, 2, "", genesis).root_dir(),
        Some("vault-2".to_string())
    );
}

#[test]
fn derivation_leaves_the_template_alone() {
    let mut template = Config::new();
    template.set_local(true);
    let _ = derive_node_config(&template, 0, "vaults", PeerAddr::genesis());
    let _ = derive_node_config(&template, 1, "vaults", PeerAddr::genesis());
    assert!(!template.is_first());
    assert_eq!(template.root_dir(), None);
    assert!(template.transport().contacts().is_empty());
}

#[test]
fn no_two_nodes_share_a_root_directory() {
    let template = Config::new();
    let genesis = PeerAddr::genesis();
    for root in ["vaults", "", "a/b/", "/"] {
        let mut seen = std::collections::HashSet::new();
        let n = 120;
        for ordinal in 0..n {
            let dir = derive_node_config(&template, ordinal, root, genesis).root_dir().unwrap();
            assert!(seen.insert(dir));
        }
        assert_eq!(seen.len(), n);
    }
}
