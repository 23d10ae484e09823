//! What a node is configured with.
use vstd::prelude::*;
use vstd::string::StringExecFns;

verus! {

/// The configuration of a node.
pub struct Config {
    /// How to reach peers over the peer transport, if at all.
    pub comm_iroh: Option<IrohCommConfig>,
    /// How to reach peers over WebRTC, if at all.
    pub comm_webrtc: Option<WebRtcCommConfig>,
    /// The transports to start, by name (`iroh`, `webrtc`), in order.
    pub enabled_comms: Vec<String>,
    /// The application protocols to accept.
    pub alpn_protocols: Vec<String>,
    /// Where the service catalog is stored.
    pub data_store_path: String,
    /// The client-side gateway, if the node runs one.
    pub peer_gateway: Option<PeerGatewayConfig>,
    /// The signaling relay, if the node runs one.
    pub signaling_server: Option<SignalingServerConfig>,
}

/// The client-side gateway.
#[derive(Clone, Copy, Debug, PartialEq, Eq, Structural)]
pub struct PeerGatewayConfig {
    pub enabled: bool,
    pub port: u16,
}

/// The signaling relay.
#[derive(Clone, Copy, Debug, PartialEq, Eq, Structural)]
pub struct SignalingServerConfig {
    pub enabled: bool,
    pub port: u16,
}

/// The peer transport.
pub struct IrohCommConfig {
    /// The file that holds the node's secret key; without one the node
    /// takes a fresh identity.
    pub secret_key_path: Option<String>,
    /// The relay to use in place of the default ones.
    pub relay_url: Option<String>,
    /// The port for the transport's control interface.
    pub rpc_port: Option<u16>,
}

/// The WebRTC transport.
pub struct WebRtcCommConfig {
    /// Where the signaling relay listens.
    pub signaling_server_url: Option<String>,
}

impl Default for PeerGatewayConfig {
    /// Off, on port 8001.
    fn default() -> (c: Self)
        ensures
            c == (PeerGatewayConfig { enabled: false, port: 8001 }),
    {
        PeerGatewayConfig { enabled: false, port: 8001 }
    }
}

impl Default for SignalingServerConfig {
    /// Off, on port 8000.
    fn default() -> (c: Self)
        ensures
            c == (SignalingServerConfig { enabled: false, port: 8000 }),
    {
        SignalingServerConfig { enabled: false, port: 8000 }
    }
}

impl Default for IrohCommConfig {
    /// Nothing set.
    fn default() -> (c: Self)
        ensures
            c.secret_key_path is None,
            c.relay_url is None,
            c.rpc_port is None,
    {
        IrohCommConfig { secret_key_path: None, relay_url: None, rpc_port: None }
    }
}

impl Default for WebRtcCommConfig {
    /// Nothing set.
    fn default() -> (c: Self)
        ensures
            c.signaling_server_url is None,
    {
        WebRtcCommConfig { signaling_server_url: None }
    }
}

impl Default for Config {
    /// Every part present with its own default; the peer transport alone
    /// enabled; the catalog in `syneroym_data.db`.
    fn default() -> (c: Self)
        ensures
            c.comm_iroh matches Some(iroh) && iroh.secret_key_path is None && iroh.relay_url is None
                && iroh.rpc_port is None,
            c.comm_webrtc matches Some(webrtc) && webrtc.signaling_server_url is None,
            c.enabled_comms.deep_view() == seq!["iroh"@],
            c.alpn_protocols@.len() == 0,
            c.data_store_path@ == "syneroym_data.db"@,
            c.peer_gateway == Some(PeerGatewayConfig { enabled: false, port: 8001 }),
            c.signaling_server == Some(SignalingServerConfig { enabled: false, port: 8000 }),
    {
        let mut enabled_comms: Vec<String> = Vec::new();
        enabled_comms.push(String::from_str("iroh"));
        assert(enabled_comms.deep_view() =~= seq!["iroh"@]);
        Config {
            comm_iroh: Some(IrohCommConfig::default()),
            comm_webrtc: Some(WebRtcCommConfig::default()),
            enabled_comms,
            alpn_protocols: Vec::new(),
            data_store_path: String::from_str("syneroym_data.db"),
            peer_gateway: Some(PeerGatewayConfig::default()),
            signaling_server: Some(SignalingServerConfig::default()),
        }
    }
}

} // verus!
