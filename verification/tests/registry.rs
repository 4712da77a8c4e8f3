use switchboard_core::config::{Configuration, NodeSection, SharedSection};
use switchboard_core::daemon::{DaemonDescriptor, DaemonKind, Dialect};
use switchboard_core::registry::{decimal_string, rpc_endpoint, Registry};

fn sample_config() -> Configuration {
    Configuration {
        main: NodeSection { port: 18443 },
        testchain: NodeSection { port: 18743 },
        bitassets: NodeSection { port: 18843 },
        bitnames: NodeSection { port: 18943 },
        zcash: NodeSection { port: 19443 },
        ethereum: NodeSection { port: 8545 },
        shared: SharedSection {
            rpcuser: "user".to_string(),
            rpcpassword: "rpc-password".to_string(),
        },
    }
}

fn assert_classic(d: &DaemonDescriptor, kind: DaemonKind, port: u16) {
    assert_eq!(d.kind, kind);
    assert_eq!(d.host.as_str(), "localhost");
    assert_eq!(d.port, port);
    let creds = d.credentials.as_ref().expect("classic daemons carry credentials");
    assert_eq!(creds.user.as_str(), "user");
    assert_eq!(creds.password.as_str(), "rpc-password");
    assert_eq!(d.dialect, Dialect::BasicAuthJsonRpc);
    assert_eq!(d.request_id.as_deref(), Some("switchboard-gui"));
}

#[test]
fn registry_binds_five_classic_clients() {
    let r = Registry::build(&sample_config());
    assert_classic(&r.main, DaemonKind::Mainchain, 18443);
    assert_classic(&r.testchain, DaemonKind::Testchain, 18743);
    assert_classic(&r.bitassets, DaemonKind::Bitassets, 18843);
    assert_classic(&r.bitnames, DaemonKind::Bitnames, 18943);
    assert_classic(&r.zcash, DaemonKind::Zcash, 19443);
}

#[test]
fn registry_binds_plain_http_ethereum_client() {
    let r = Registry::build(&sample_config());
    assert_eq!(r.ethereum.kind, DaemonKind::Ethereum);
    assert_eq!(r.ethereum.host.as_str(), "localhost");
    assert_eq!(r.ethereum.port, 8545);
    assert!(r.ethereum.credentials.is_none());
    assert_eq!(r.ethereum.dialect, Dialect::PlainHttpJsonRpc);
    assert!(r.ethereum.request_id.is_none());
}

#[test]
fn routing_selects_the_matching_descriptor_for_every_key() {
    let r = Registry::build(&sample_config());
    let keys = [
        (DaemonKind::Mainchain, 18443),
        (DaemonKind::Testchain, 18743),
        (DaemonKind::Bitassets, 18843),
        (DaemonKind::Bitnames, 18943),
        (DaemonKind::Zcash, 19443),
        (DaemonKind::Ethereum, 8545),
    ];
    for (kind, port) in keys {
        let d = r.client(kind);
        assert_eq!(d.kind, kind);
        assert_eq!(d.port, port);
    }
}

#[test]
fn ports_render_in_decimal() {
    assert_eq!(decimal_string(0), "0");
    assert_eq!(decimal_string(7), "7");
    assert_eq!(decimal_string(8545), "8545");
    assert_eq!(decimal_string(u16::MAX), "65535");
}

#[test]
fn endpoint_url_names_host_and_port() {
    let r = Registry::build(&sample_config());
    assert_eq!(rpc_endpoint(&r.ethereum), "http://localhost:8545");
    assert_eq!(rpc_endpoint(&r.zcash), "http://localhost:19443");
}

fn descriptors_equal(a: &DaemonDescriptor, b: &DaemonDescriptor) -> bool {
    a.kind == b.kind && a.host == b.host && a.port == b.port && a.dialect == b.dialect
        && a.request_id == b.request_id
        && match (&a.credentials, &b.credentials) {
            (None, None) => true,
            (Some(x), Some(y)) => x.user == y.user && x.password == y.password,
            _ => false,
        }
}

#[test]
fn registry_round_trips_through_the_external_format() {
    let config = sample_config();

    // Write the record out in an external textual format, by plain calls.
    let mut root = serde_json::Map::new();
    let mut node = |port: u16| {
        let mut m = serde_json::Map::new();
        m.insert("port".to_string(), serde_json::Value::from(port));
        serde_json::Value::Object(m)
    };
    root.insert("main".to_string(), node(config.main.port));
    root.insert("testchain".to_string(), node(config.testchain.port));
    root.insert("bitassets".to_string(), node(config.bitassets.port));
    root.insert("bitnames".to_string(), node(config.bitnames.port));
    root.insert("zcash".to_string(), node(config.zcash.port));
    root.insert("ethereum".to_string(), node(config.ethereum.port));
    let mut shared = serde_json::Map::new();
    shared.insert(
        "rpcuser".to_string(),
        serde_json::Value::from(config.shared.rpcuser.clone()),
    );
    shared.insert(
        "rpcpassword".to_string(),
        serde_json::Value::from(config.shared.rpcpassword.clone()),
    );
    root.insert("switchboard".to_string(), serde_json::Value::Object(shared));
    let written = serde_json::to_string(&serde_json::Value::Object(root)).unwrap();

    // Reload it and rebuild the configuration record.
    let parsed: serde_json::Value = serde_json::from_str(&written).unwrap();
    let port_of = |name: &str| parsed[name]["port"].as_u64().unwrap() as u16;
    let reloaded = Configuration {
        main: NodeSection { port: port_of("main") },
        testchain: NodeSection { port: port_of("testchain") },
        bitassets: NodeSection { port: port_of("bitassets") },
        bitnames: NodeSection { port: port_of("bitnames") },
        zcash: NodeSection { port: port_of("zcash") },
        ethereum: NodeSection { port: port_of("ethereum") },
        shared: SharedSection {
            rpcuser: parsed["switchboard"]["rpcuser"].as_str().unwrap().to_string(),
            rpcpassword: parsed["switchboard"]["rpcpassword"].as_str().unwrap().to_string(),
        },
    };

    let direct = Registry::build(&config);
    let rebuilt = Registry::build(&reloaded);
    assert!(descriptors_equal(&direct.main, &rebuilt.main));
    assert!(descriptors_equal(&direct.testchain, &rebuilt.testchain));
    assert!(descriptors_equal(&direct.bitassets, &rebuilt.bitassets));
    assert!(descriptors_equal(&direct.bitnames, &rebuilt.bitnames));
    assert!(descriptors_equal(&direct.zcash, &rebuilt.zcash));
    assert!(descriptors_equal(&direct.ethereum, &rebuilt.ethereum));
}
