//! WebSocket adapter with synchronous handshakes.
use vstd::prelude::*;

verus! {

/// Max message size (64 MiB).
pub const MAX_WS_PAYLOAD_LEN: usize = 67108864;

/// The adapter of WebSocket.
pub struct WsAdapter;

} // verus!
