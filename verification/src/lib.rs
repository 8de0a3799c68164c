//! Verified core of a small demonstration web server.
//!
//! The library holds the pure logic of the server: route selection over the
//! fixed routing table, construction of the text responses (including the
//! formatting of the peer's socket address), and the state machine of a
//! WebSocket session. The surrounding process (listening, upgrading,
//! sending, sleeping) performs the I/O and drives these functions.

pub mod addr;
pub mod http;
pub mod session;
pub mod text;
