//! An event-driven network library: framing of messages over streams,
//! identifiers of network resources and the decisions of its transports.
pub mod encoding;
pub mod util;
pub mod network;
pub mod resource_id;
pub mod adapter;
pub mod status;
pub mod adapters;
pub mod transport;
pub mod poll;
pub mod network_adapter;
pub mod network_manager;
