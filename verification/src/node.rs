//! How a node comes up: which services it serves, which handlers take
//! them, which transports carry them, and whether it runs a proxy of its
//! own.
use vstd::prelude::*;
use vstd::string::StringExecFns;
use crate::catalog::{distinct_keys, last_with_key, Catalog, ServiceRecord, ServiceRpc};
use crate::config::Config;
use crate::handlers::{kind_of, protocol_kind, ProtocolKind};
use crate::text::same_text;

verus! {

/// The port of the proxy that a local node runs towards itself.
pub const LOCAL_PROXY_PORT: u16 = 3000;

/// A way to reach peers.
#[derive(Clone, Copy, Debug, PartialEq, Eq, Structural)]
pub enum Transport {
    Iroh,
    WebRtc,
}

/// A handler with the services that it is set up with.
#[derive(Debug, PartialEq, Eq)]
pub struct HandlerSetup {
    pub kind: ProtocolKind,
    pub services: Vec<ServiceRpc>,
}

/// All that a node starts, in the order in which it starts it.
pub struct BootstrapPlan {
    /// The services of the node.
    pub services: Vec<ServiceRecord>,
    /// A handle for each service, one for each key.
    pub rpcs: Vec<ServiceRpc>,
    /// The handlers, each with its services.
    pub handlers: Vec<HandlerSetup>,
    /// The transports to start.
    pub transports: Vec<Transport>,
    /// The port of the node's own proxy, where it is to run one.
    pub proxy_port: Option<u16>,
    /// The port of the web gateway, where the node is to run one.
    pub gateway_port: Option<u16>,
    /// The port of the signaling relay, where the node is to run one.
    pub signaling_port: Option<u16>,
}

/// The port of a part that is configured and switched on.
pub open spec fn enabled_port(enabled: bool, port: u16) -> Option<u16> {
    if enabled {
        Some(port)
    } else {
        None
    }
}

/// The port on which a node runs its web gateway: the configured port,
/// where the gateway is switched on and the peer transport runs.
pub open spec fn gateway_port_of(config: Config, peer_transport: bool) -> Option<u16> {
    match config.peer_gateway {
        Some(g) => enabled_port(g.enabled && peer_transport, g.port),
        None => None,
    }
}

/// The port on which a node runs a signaling relay: the configured port,
/// where the relay is switched on.
pub open spec fn signaling_port_of(config: Config) -> Option<u16> {
    match config.signaling_server {
        Some(s) => enabled_port(s.enabled, s.port),
        None => None,
    }
}

/// Whether the peer transport of a node runs: it is configured, and
/// enabled among the transports.
pub open spec fn peer_transport_runs(config: Config, transports: Seq<Transport>) -> bool {
    config.comm_iroh is Some && transports.contains(Transport::Iroh)
}

/// The transport that a name stands for. `webrtc` counts only where the
/// node knows WebRTC.
pub open spec fn transport_of(name: Seq<char>, webrtc: bool) -> Option<Transport> {
    if name == "iroh"@ {
        Some(Transport::Iroh)
    } else if webrtc && name == "webrtc"@ {
        Some(Transport::WebRtc)
    } else {
        None
    }
}

/// The transports that a list of names stands for, in order. A name that
/// stands for none is passed over.
pub open spec fn transports_of(names: Seq<Seq<char>>, webrtc: bool) -> Seq<Transport>
    decreases names.len(),
{
    if names.len() == 0 {
        Seq::empty()
    } else {
        match transport_of(names.last(), webrtc) {
            Some(t) => transports_of(names.drop_last(), webrtc).push(t),
            None => transports_of(names.drop_last(), webrtc),
        }
    }
}

/// The record of a service that speaks HTTP, with its key and with the
/// TCP endpoint of its backend.
pub open spec fn is_http_service(record: ServiceRecord, key: Seq<char>, addr: Seq<char>) -> bool {
    &&& record.service_key@ == key
    &&& record.app_layer_protocol@ == "http"@
    &&& record.backend_addr@ == addr
}

/// The stored services, and behind them the two demo services that every
/// local node has: `demo3001` and `demo3002`, each with its backend on
/// this machine, at the port that its name says.
pub open spec fn with_demo_services(all: Seq<ServiceRecord>, stored: Seq<ServiceRecord>) -> bool {
    &&& all.len() == stored.len() + 2
    &&& all.take(stored.len() as int) == stored
    &&& is_http_service(all[stored.len() as int], "demo3001"@, "127.0.0.1:3001"@)
    &&& is_http_service(all[stored.len() as int + 1], "demo3002"@, "127.0.0.1:3002"@)
}

/// The records that a list of handles is about.
pub open spec fn configs(rpcs: Seq<ServiceRpc>) -> Seq<ServiceRecord> {
    Seq::new(rpcs.len(), |i: int| rpcs[i].config)
}

/// Whether one of `services` speaks HTTP.
pub open spec fn any_http(services: Seq<ServiceRecord>) -> bool {
    exists|i: int|
        0 <= i < services.len() && kind_of((#[trigger] services[i]).app_layer_protocol@) == Some(
            ProtocolKind::Http,
        )
}

/// Whether one of `services` has the key `key` and speaks HTTP.
pub open spec fn serves_http(services: Seq<ServiceRecord>, key: Seq<char>) -> bool {
    exists|i: int|
        0 <= i < services.len() && (#[trigger] services[i]).service_key@ == key && kind_of(
            services[i].app_layer_protocol@,
        ) == Some(ProtocolKind::Http)
}

/// The handles of the services that speak HTTP, in the order of `rpcs`.
pub open spec fn http_rpcs(rpcs: Seq<ServiceRpc>, services: Seq<ServiceRecord>) -> Seq<ServiceRpc>
    decreases rpcs.len(),
{
    if rpcs.len() == 0 {
        Seq::empty()
    } else if serves_http(services, rpcs.last().config.service_key@) {
        http_rpcs(rpcs.drop_last(), services).push(rpcs.last())
    } else {
        http_rpcs(rpcs.drop_last(), services)
    }
}

/// The handlers for `services`: one for HTTP where a service speaks it,
/// set up with the handles of those services.
pub open spec fn handlers_for(
    handlers: Seq<HandlerSetup>,
    services: Seq<ServiceRecord>,
    rpcs: Seq<ServiceRpc>,
) -> bool {
    if any_http(services) {
        &&& handlers.len() == 1
        &&& handlers[0].kind == ProtocolKind::Http
        &&& handlers[0].services@ == http_rpcs(rpcs, services)
    } else {
        handlers.len() == 0
    }
}

/// The record of the service `key` that speaks HTTP at the TCP endpoint
/// `addr`.
pub fn http_service(key: &str, addr: &str) -> (record: ServiceRecord)
    ensures
        is_http_service(record, key@, addr@),
{
    ServiceRecord {
        service_key: String::from_str(key),
        app_layer_protocol: String::from_str("http"),
        backend_addr: String::from_str(addr),
    }
}

/// The transports that `names` ask for.
pub fn init_networking(names: &Vec<String>, webrtc: bool) -> (transports: Vec<Transport>)
    ensures
        transports@ == transports_of(names.deep_view(), webrtc),
{
    let ghost all = names.deep_view();
    let mut transports: Vec<Transport> = Vec::new();
    let mut i: usize = 0;
    proof {
        assert(all.take(0) =~= Seq::<Seq<char>>::empty());
    }
    while i < names.len()
        invariant
            i <= names.len(),
            all == names.deep_view(),
            transports@ == transports_of(all.take(i as int), webrtc),
        decreases names.len() - i,
    {
        proof {
            let now = all.take(i as int + 1);
            assert(now.drop_last() =~= all.take(i as int));
            assert(now.last() == names@[i as int]@);
        }
        let name = names[i].as_str();
        if same_text(name, "iroh") {
            transports.push(Transport::Iroh);
        } else if webrtc && same_text(name, "webrtc") {
            transports.push(Transport::WebRtc);
        }
        i = i + 1;
    }
    proof {
        assert(all.take(names.len() as int) =~= all);
    }
    transports
}

/// A handle for each service, one for each key: of two records with one
/// key the later one counts.
pub fn init_service_rpc(services: &Vec<ServiceRecord>) -> (rpcs: Vec<ServiceRpc>)
    ensures
        distinct_keys(configs(rpcs@)),
        forall|key: Seq<char>|
            last_with_key(configs(rpcs@), key) == last_with_key(services@, key),
{
    let catalog = Catalog::from_records(services);
    let records = catalog.records();
    let mut rpcs: Vec<ServiceRpc> = Vec::new();
    let mut i: usize = 0;
    assert(configs(rpcs@) =~= records@.take(0));
    while i < records.len()
        invariant
            i <= records.len(),
            configs(rpcs@) == records@.take(i as int),
        decreases records.len() - i,
    {
        let ghost before = configs(rpcs@);
        rpcs.push(ServiceRpc::new(records[i].clone()));
        i = i + 1;
        assert(configs(rpcs@) =~= before.push(records@[i - 1]));
        assert(records@.take(i as int) =~= before.push(records@[i - 1]));
    }
    proof {
        assert(records@.take(records@.len() as int) =~= records@);
        assert forall|key: Seq<char>|
            last_with_key(configs(rpcs@), key) == last_with_key(services@, key) by {
            assert(catalog.get(key) == last_with_key(services@, key));
        }
    }
    rpcs
}

/// Whether one of `services` has the key `key` and speaks HTTP.
pub fn speaks_http(services: &Vec<ServiceRecord>, key: &str) -> (b: bool)
    ensures
        b == serves_http(services@, key@),
{
    let mut i: usize = 0;
    while i < services.len()
        invariant
            i <= services.len(),
            forall|j: int|
                0 <= j < i ==> !((#[trigger] services@[j]).service_key@ == key@ && kind_of(
                    services@[j].app_layer_protocol@,
                ) == Some(ProtocolKind::Http)),
        decreases services.len() - i,
    {
        if same_text(services[i].service_key.as_str(), key) && protocol_kind(
            services[i].app_layer_protocol.as_str(),
        ).is_some() {
            return true;
        }
        i = i + 1;
    }
    false
}

/// Whether one of `services` speaks HTTP.
pub fn has_http(services: &Vec<ServiceRecord>) -> (b: bool)
    ensures
        b == any_http(services@),
{
    let mut i: usize = 0;
    while i < services.len()
        invariant
            i <= services.len(),
            forall|j: int|
                0 <= j < i ==> kind_of((#[trigger] services@[j]).app_layer_protocol@) != Some(
                    ProtocolKind::Http,
                ),
        decreases services.len() - i,
    {
        if protocol_kind(services[i].app_layer_protocol.as_str()).is_some() {
            return true;
        }
        i = i + 1;
    }
    false
}

/// The handlers for `services`, each with the handles of its services. A
/// protocol without a handler is passed over.
pub fn init_protocol_handlers(services: &Vec<ServiceRecord>, rpcs: &Vec<ServiceRpc>) -> (handlers:
    Vec<HandlerSetup>)
    ensures
        handlers_for(handlers@, services@, rpcs@),
{
    let mut handlers: Vec<HandlerSetup> = Vec::new();
    if !has_http(services) {
        return handlers;
    }
    let mut chosen: Vec<ServiceRpc> = Vec::new();
    let mut i: usize = 0;
    proof {
        assert(rpcs@.take(0) =~= Seq::<ServiceRpc>::empty());
    }
    while i < rpcs.len()
        invariant
            i <= rpcs.len(),
            chosen@ == http_rpcs(rpcs@.take(i as int), services@),
        decreases rpcs.len() - i,
    {
        proof {
            let now = rpcs@.take(i as int + 1);
            assert(now.drop_last() =~= rpcs@.take(i as int));
            assert(now.last() == rpcs@[i as int]);
        }
        if speaks_http(services, rpcs[i].config.service_key.as_str()) {
            chosen.push(rpcs[i].clone());
        }
        i = i + 1;
    }
    proof {
        assert(rpcs@.take(rpcs@.len() as int) =~= rpcs@);
    }
    handlers.push(HandlerSetup { kind: ProtocolKind::Http, services: chosen });
    handlers
}

/// Whether `transports` holds the peer transport.
pub fn uses_iroh(transports: &Vec<Transport>) -> (b: bool)
    ensures
        b == transports@.contains(Transport::Iroh),
{
    let mut i: usize = 0;
    while i < transports.len()
        invariant
            i <= transports.len(),
            forall|j: int| 0 <= j < i ==> transports@[j] != Transport::Iroh,
        decreases transports.len() - i,
    {
        if transports[i] == Transport::Iroh {
            return true;
        }
        i = i + 1;
    }
    false
}

/// The port on which a node with the configuration `config` runs a
/// signaling relay.
pub fn signaling_port(config: &Config) -> (port: Option<u16>)
    ensures
        port == signaling_port_of(*config),
{
    match &config.signaling_server {
        Some(s) => if s.enabled {
            Some(s.port)
        } else {
            None
        },
        None => None,
    }
}

/// A node that serves its own services and runs gateways for clients.
pub struct LocalNode {
    config: Config,
}

impl LocalNode {
    /// The configuration of the node.
    pub closed spec fn config(&self) -> Config {
        self.config
    }

    /// A node with the configuration `config`.
    pub fn new(config: Config) -> (node: Self)
        ensures
            node.config() == config,
    {
        LocalNode { config }
    }

    /// The services of the node: those that its store holds, and the two
    /// demo services that every local node has.
    pub fn fetch_services(&self, stored: Vec<ServiceRecord>) -> (all: Vec<ServiceRecord>)
        ensures
            with_demo_services(all@, stored@),
    {
        let mut all = stored;
        all.push(http_service("demo3001", "127.0.0.1:3001"));
        all.push(http_service("demo3002", "127.0.0.1:3002"));
        assert(all@.take(stored@.len() as int) =~= stored@);
        all
    }

    /// The transports of the node: the peer transport and WebRTC, as far
    /// as the configuration enables them.
    pub fn init_networking(&self) -> (transports: Vec<Transport>)
        ensures
            transports@ == transports_of(self.config().enabled_comms.deep_view(), true),
    {
        init_networking(&self.config.enabled_comms, true)
    }

    /// All that the node starts, given what its store holds. The node runs
    /// a proxy of its own where the peer transport is enabled and configured.
    pub fn bootstrap(&self, stored: Vec<ServiceRecord>) -> (plan: BootstrapPlan)
        ensures
            with_demo_services(plan.services@, stored@),
            distinct_keys(configs(plan.rpcs@)),
            forall|key: Seq<char>|
                last_with_key(configs(plan.rpcs@), key) == last_with_key(plan.services@, key),
            handlers_for(plan.handlers@, plan.services@, plan.rpcs@),
            plan.transports@ == transports_of(self.config().enabled_comms.deep_view(), true),
            plan.proxy_port == enabled_port(
                peer_transport_runs(self.config(), plan.transports@),
                LOCAL_PROXY_PORT,
            ),
            plan.gateway_port == gateway_port_of(
                self.config(),
                peer_transport_runs(self.config(), plan.transports@),
            ),
            plan.signaling_port == signaling_port_of(self.config()),
    {
        let services = self.fetch_services(stored);
        let rpcs = init_service_rpc(&services);
        let handlers = init_protocol_handlers(&services, &rpcs);
        let transports = self.init_networking();
        let peer_transport = self.config.comm_iroh.is_some() && uses_iroh(&transports);
        let proxy_port = if peer_transport {
            Some(LOCAL_PROXY_PORT)
        } else {
            None
        };
        let gateway_port = match &self.config.peer_gateway {
            Some(g) => if g.enabled && peer_transport {
                Some(g.port)
            } else {
                None
            },
            None => None,
        };
        let signaling_port = signaling_port(&self.config);
        BootstrapPlan {
            services,
            rpcs,
            handlers,
            transports,
            proxy_port,
            gateway_port,
            signaling_port,
        }
    }

    /// The configuration of the node.
    pub fn settings(&self) -> (config: &Config)
        ensures
            *config == self.config(),
    {
        &self.config
    }
}

/// A node that serves its services and runs no gateway.
pub struct PeerNode {
    config: Config,
}

impl PeerNode {
    /// The configuration of the node.
    pub closed spec fn config(&self) -> Config {
        self.config
    }

    /// A node with the configuration `config`.
    pub fn new(config: Config) -> (node: Self)
        ensures
            node.config() == config,
    {
        PeerNode { config }
    }

    /// The transports of the node: the peer transport, if the
    /// configuration enables it.
    pub fn init_networking(&self) -> (transports: Vec<Transport>)
        ensures
            transports@ == transports_of(self.config().enabled_comms.deep_view(), false),
    {
        init_networking(&self.config.enabled_comms, false)
    }

    /// All that the node starts, given what its store holds.
    pub fn bootstrap(&self, stored: Vec<ServiceRecord>) -> (plan: BootstrapPlan)
        ensures
            plan.services@ == stored@,
            distinct_keys(configs(plan.rpcs@)),
            forall|key: Seq<char>|
                last_with_key(configs(plan.rpcs@), key) == last_with_key(plan.services@, key),
            handlers_for(plan.handlers@, plan.services@, plan.rpcs@),
            plan.transports@ == transports_of(self.config().enabled_comms.deep_view(), false),
            plan.proxy_port is None,
            plan.gateway_port is None,
            plan.signaling_port == signaling_port_of(self.config()),
    {
        let rpcs = init_service_rpc(&stored);
        let handlers = init_protocol_handlers(&stored, &rpcs);
        let transports = self.init_networking();
        let signaling_port = signaling_port(&self.config);
        BootstrapPlan {
            services: stored,
            rpcs,
            handlers,
            transports,
            proxy_port: None,
            gateway_port: None,
            signaling_port,
        }
    }

    /// The configuration of the node.
    pub fn settings(&self) -> (config: &Config)
        ensures
            *config == self.config(),
    {
        &self.config
    }
}

} // verus!
