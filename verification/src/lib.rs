//! The routing core of a peer-to-peer service fabric: what a node decides
//! about the bytes that pass through it. Protocol sniffing, the handshake
//! that opens a peer stream, the rules of the gateways and of the listener,
//! and the bridge between a message channel and a byte stream are here,
//! each with its contract. Sockets, tasks and timers are not.
pub mod catalog;
pub mod cli;
pub mod config;
pub mod gateway;
pub mod handlers;
pub mod handshake;
pub mod node;
pub mod path_proxy;
pub mod protocol_utils;
pub mod proxy;
pub mod session;
pub mod signaling;
pub mod text;
pub mod trusted;
pub mod utils;
pub mod webrtc;
