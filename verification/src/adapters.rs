//! The transport adapters.
pub mod tcp;
pub mod framed_tcp;
pub mod udp;
pub mod ws;
pub mod web_socket;
pub mod unix_socket;
