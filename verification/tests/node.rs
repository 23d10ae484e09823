use syneroym::catalog::{Catalog, ServiceRecord, ServiceRpc, ServiceStore, StoreError};
use syneroym::cli::{Cli, CliCommand, ConfigValue, RunPeerArgs};
use syneroym::config::{
    Config, IrohCommConfig, PeerGatewayConfig, SignalingServerConfig, WebRtcCommConfig,
};
use syneroym::handlers::{protocol_kind, HttpHandler, ProtocolHandler, ProtocolKind};
use syneroym::node::{
    has_http, init_networking, init_protocol_handlers, init_service_rpc, speaks_http, http_service,
    uses_iroh, HandlerSetup, LocalNode, PeerNode, Transport, LOCAL_PROXY_PORT,
};
use syneroym::utils::intro;

fn record(key: &str, protocol: &str, addr: &str) -> ServiceRecord {
    ServiceRecord {
        service_key: key.to_string(),
        app_layer_protocol: protocol.to_string(),
        backend_addr: addr.to_string(),
    }
}

struct FixedStore {
    records: Vec<ServiceRecord>,
    fails: bool,
}

impl ServiceStore for FixedStore {
    fn get_services(&self) -> Result<Vec<ServiceRecord>, StoreError> {
        if self.fails {
            Err(StoreError { message: "closed".to_string() })
        } else {
            Ok(self.records.clone())
        }
    }
}

#[test]
fn it_works() {
    let result = intro("hello");
    println!("{}", result);
    assert_eq!(result.len(), 16);
}

#[test]
fn intro_is_a_json_object() {
    assert_eq!(intro("hello"), "{\"name\":\"hello\"}");
    assert_eq!(intro(""), "{\"name\":\"\"}");
    assert_eq!(intro("a\"b"), "{\"name\":\"a\\\"b\"}");
}

#[test]
fn test_update_figment_defaults() {
    let cli = Cli {
        command: CliCommand::RunPeer(RunPeerArgs { enable_http_txp: false, secret_key_path: None }),
        config_file: None,
        verbose: false,
    };
    assert_eq!(cli.update_figment(), Vec::<(String, ConfigValue)>::new());
    assert!(cli.update_figment().iter().all(|s| s.0 != "http_txp"));
    assert!(cli.update_figment().iter().all(|s| s.0 != "iroh_comm.secret_key_path"));
}

#[test]
fn test_update_figment_overrides() {
    let path = "/tmp/secret".to_string();
    let cli = Cli {
        command: CliCommand::RunPeer(RunPeerArgs {
            enable_http_txp: true,
            secret_key_path: Some(path.clone()),
        }),
        config_file: None,
        verbose: false,
    };
    let set = cli.update_figment();
    assert!(set.contains(&("http_txp".to_string(), ConfigValue::Flag(true))));
    assert_eq!(
        set,
        vec![
            ("http_txp".to_string(), ConfigValue::Flag(true)),
            ("iroh_comm.secret_key_path".to_string(), ConfigValue::Path(path)),
        ]
    );
}

#[test]
fn update_figment_for_each_command() {
    let version = Cli { command: CliCommand::Version, config_file: None, verbose: true };
    assert!(version.update_figment().is_empty());
    let key_only = Cli {
        command: CliCommand::RunPeer(RunPeerArgs {
            enable_http_txp: false,
            secret_key_path: Some("k".to_string()),
        }),
        config_file: Some("c.toml".to_string()),
        verbose: false,
    };
    assert_eq!(
        key_only.update_figment(),
        vec![("iroh_comm.secret_key_path".to_string(), ConfigValue::Path("k".to_string()))]
    );
}

#[test]
fn config_defaults() {
    let config = Config::default();
    let iroh = config.comm_iroh.unwrap();
    assert_eq!(iroh.secret_key_path, None);
    assert_eq!(iroh.relay_url, None);
    assert_eq!(iroh.rpc_port, None);
    assert_eq!(config.comm_webrtc.unwrap().signaling_server_url, None);
    assert_eq!(config.enabled_comms, vec!["iroh".to_string()]);
    assert!(config.alpn_protocols.is_empty());
    assert_eq!(config.data_store_path, "syneroym_data.db");
    assert_eq!(config.peer_gateway, Some(PeerGatewayConfig { enabled: false, port: 8001 }));
    assert_eq!(config.signaling_server, Some(SignalingServerConfig { enabled: false, port: 8000 }));
}

#[test]
fn part_defaults() {
    assert_eq!(PeerGatewayConfig::default(), PeerGatewayConfig { enabled: false, port: 8001 });
    assert_eq!(SignalingServerConfig::default(), SignalingServerConfig { enabled: false, port: 8000 });
    assert_eq!(IrohCommConfig::default().relay_url, None);
    assert_eq!(WebRtcCommConfig::default().signaling_server_url, None);
}

#[test]
fn http_handler() {
    let handler = HttpHandler::new();
    assert_eq!(handler.protocol_id(), "http");
    assert!(handler.setup(&Vec::new()).is_ok());
    assert!(handler.setup(&vec![ServiceRpc::new(record("a", "http", "x"))]).is_ok());
    assert_eq!(protocol_kind("http"), Some(ProtocolKind::Http));
    assert_eq!(protocol_kind("HTTP"), None);
    assert_eq!(protocol_kind("grpc"), None);
    assert_eq!(protocol_kind(""), None);
}

#[test]
fn service_rpc_holds_its_record() {
    let rpc = ServiceRpc::new(record("a", "http", "127.0.0.1:1"));
    assert_eq!(rpc.config, record("a", "http", "127.0.0.1:1"));
    assert_eq!(rpc.clone(), rpc);
}

#[test]
fn catalog_lookup_is_exact() {
    let catalog = Catalog::from_records(&vec![
        record("orders", "http", "127.0.0.1:3001"),
        record("users", "http", "127.0.0.1:3002"),
    ]);
    assert_eq!(catalog.len(), 2);
    assert_eq!(catalog.lookup("users"), Some(&record("users", "http", "127.0.0.1:3002")));
    assert_eq!(catalog.lookup("orders").unwrap().backend_addr, "127.0.0.1:3001");
    assert_eq!(catalog.lookup("Orders"), None);
    assert_eq!(catalog.lookup("order"), None);
    assert_eq!(catalog.lookup("orders "), None);
    assert_eq!(catalog.lookup(""), None);
    assert_eq!(Catalog::new().lookup("orders"), None);
    assert_eq!(Catalog::new().len(), 0);
}

#[test]
fn catalog_keeps_the_later_record() {
    let mut catalog = Catalog::from_records(&vec![
        record("a", "http", "1"),
        record("b", "http", "2"),
        record("a", "grpc", "3"),
    ]);
    assert_eq!(catalog.len(), 2);
    assert_eq!(catalog.lookup("a"), Some(&record("a", "grpc", "3")));
    assert_eq!(catalog.records()[0].service_key, "a");
    assert_eq!(catalog.records()[1].service_key, "b");
    catalog.insert(record("b", "http", "4"));
    catalog.insert(record("c", "http", "5"));
    assert_eq!(catalog.len(), 3);
    assert_eq!(catalog.lookup("b").unwrap().backend_addr, "4");
    assert_eq!(catalog.lookup("c").unwrap().backend_addr, "5");
    assert_eq!(catalog.lookup("a").unwrap().backend_addr, "3");
}

#[test]
fn store_hands_out_records() {
    let store = FixedStore { records: vec![record("a", "http", "1")], fails: false };
    assert_eq!(store.get_services().unwrap(), vec![record("a", "http", "1")]);
    let closed = FixedStore { records: vec![], fails: true };
    assert_eq!(closed.get_services().unwrap_err().message, "closed");
}

#[test]
fn local_node_adds_its_demo_services() {
    let node = LocalNode::new(Config::default());
    assert_eq!(
        node.fetch_services(vec![record("a", "http", "1")]),
        vec![
            record("a", "http", "1"),
            record("demo3001", "http", "127.0.0.1:3001"),
            record("demo3002", "http", "127.0.0.1:3002"),
        ]
    );
    assert_eq!(node.fetch_services(vec![]).len(), 2);
    assert_eq!(http_service("k", "127.0.0.1:9"), record("k", "http", "127.0.0.1:9"));
    for service in node.fetch_services(vec![]) {
        let (host, port) = service.backend_addr.split_once(':').unwrap();
        assert_eq!(host, "127.0.0.1");
        assert!(port.parse::<u16>().is_ok());
        assert_eq!(service.service_key, format!("demo{}", port));
    }
}

#[test]
fn transports_by_name() {
    let names: Vec<String> =
        ["webrtc", "iroh", "tor", "Iroh", "iroh", ""].iter().map(|n| n.to_string()).collect();
    assert_eq!(
        init_networking(&names, true),
        vec![Transport::WebRtc, Transport::Iroh, Transport::Iroh]
    );
    assert_eq!(init_networking(&names, false), vec![Transport::Iroh, Transport::Iroh]);
    assert_eq!(init_networking(&Vec::new(), true), Vec::<Transport>::new());
    assert!(uses_iroh(&vec![Transport::WebRtc, Transport::Iroh]));
    assert!(!uses_iroh(&vec![Transport::WebRtc]));
    assert!(!uses_iroh(&vec![]));
}

#[test]
fn one_handle_for_each_key() {
    let services = vec![
        record("a", "http", "1"),
        record("b", "grpc", "2"),
        record("a", "http", "3"),
    ];
    assert_eq!(
        init_service_rpc(&services),
        vec![ServiceRpc::new(record("a", "http", "3")), ServiceRpc::new(record("b", "grpc", "2"))]
    );
    assert!(init_service_rpc(&Vec::new()).is_empty());
}

#[test]
fn handlers_take_the_services_of_their_protocol() {
    let services = vec![
        record("a", "http", "1"),
        record("b", "grpc", "2"),
        record("c", "http", "3"),
    ];
    let rpcs = init_service_rpc(&services);
    assert_eq!(
        init_protocol_handlers(&services, &rpcs),
        vec![HandlerSetup {
            kind: ProtocolKind::Http,
            services: vec![
                ServiceRpc::new(record("a", "http", "1")),
                ServiceRpc::new(record("c", "http", "3")),
            ],
        }]
    );
    assert!(has_http(&services));
    assert!(speaks_http(&services, "a"));
    assert!(!speaks_http(&services, "b"));
    assert!(!speaks_http(&services, "z"));
}

#[test]
fn no_handler_without_a_service_of_its_protocol() {
    let services = vec![record("b", "grpc", "2")];
    let rpcs = init_service_rpc(&services);
    assert!(init_protocol_handlers(&services, &rpcs).is_empty());
    assert!(init_protocol_handlers(&Vec::new(), &Vec::new()).is_empty());
    assert!(!has_http(&services));
    assert!(!has_http(&Vec::new()));
}

#[test]
fn local_node_plan() {
    let plan = LocalNode::new(Config::default()).bootstrap(vec![record("a", "grpc", "1")]);
    assert_eq!(plan.services.len(), 3);
    assert_eq!(plan.rpcs.len(), 3);
    assert_eq!(plan.handlers.len(), 1);
    assert_eq!(
        plan.handlers[0].services,
        vec![
            ServiceRpc::new(record("demo3001", "http", "127.0.0.1:3001")),
            ServiceRpc::new(record("demo3002", "http", "127.0.0.1:3002")),
        ]
    );
    assert_eq!(plan.transports, vec![Transport::Iroh]);
    assert_eq!(plan.proxy_port, Some(LOCAL_PROXY_PORT));
    assert_eq!(LOCAL_PROXY_PORT, 3000);
    assert_eq!(plan.gateway_port, None);
    assert_eq!(plan.signaling_port, None);
}

#[test]
fn gateway_and_relay_run_where_they_are_switched_on() {
    let mut config = Config::default();
    config.peer_gateway = Some(PeerGatewayConfig { enabled: true, port: 8001 });
    config.signaling_server = Some(SignalingServerConfig { enabled: true, port: 8000 });
    let node = LocalNode::new(config);
    assert_eq!(node.settings().data_store_path, "syneroym_data.db");
    let plan = node.bootstrap(vec![]);
    assert_eq!(plan.gateway_port, Some(8001));
    assert_eq!(plan.signaling_port, Some(8000));

    let mut config = Config::default();
    config.peer_gateway = Some(PeerGatewayConfig { enabled: true, port: 8001 });
    config.signaling_server = None;
    config.enabled_comms = vec![];
    let plan = LocalNode::new(config).bootstrap(vec![]);
    assert_eq!(plan.gateway_port, None);
    assert_eq!(plan.signaling_port, None);
    assert_eq!(plan.proxy_port, None);

    let mut config = Config::default();
    config.peer_gateway = None;
    config.signaling_server = Some(SignalingServerConfig { enabled: true, port: 9 });
    let plan = PeerNode::new(config).bootstrap(vec![]);
    assert_eq!(plan.gateway_port, None);
    assert_eq!(plan.signaling_port, Some(9));
}

#[test]
fn local_node_without_peer_transport_runs_no_proxy() {
    let mut config = Config::default();
    config.enabled_comms = vec!["webrtc".to_string()];
    let node = LocalNode::new(config);
    assert_eq!(node.init_networking(), vec![Transport::WebRtc]);
    assert_eq!(node.bootstrap(vec![]).proxy_port, None);

    let mut config = Config::default();
    config.comm_iroh = None;
    let plan = LocalNode::new(config).bootstrap(vec![]);
    assert_eq!(plan.transports, vec![Transport::Iroh]);
    assert_eq!(plan.proxy_port, None);
}

#[test]
fn peer_node_plan() {
    let mut config = Config::default();
    config.enabled_comms = vec!["iroh".to_string(), "webrtc".to_string()];
    let node = PeerNode::new(config);
    assert_eq!(node.init_networking(), vec![Transport::Iroh]);
    let plan = node.bootstrap(vec![record("a", "http", "1")]);
    assert_eq!(plan.services, vec![record("a", "http", "1")]);
    assert_eq!(plan.rpcs, vec![ServiceRpc::new(record("a", "http", "1"))]);
    assert_eq!(plan.handlers.len(), 1);
    assert_eq!(plan.transports, vec![Transport::Iroh]);
    assert_eq!(plan.proxy_port, None);
}
