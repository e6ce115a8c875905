use vstd::prelude::*;

verus! {

/// Every way one acquisition can fail. Each kind is terminal for the
/// acquisition that raised it.
#[derive(Debug, Clone, PartialEq, Eq)]
pub enum MeaError {
    /// The device selector lies outside `1..=4`; raised before any I/O.
    InvalidSelector { mea_id: u32 },
    /// The transport failed to connect, send or receive.
    Connection { reason: String },
    /// The first frame of the session was not a Socket.IO open packet.
    Handshake,
    /// A binary payload whose size is neither of the two accepted layouts;
    /// all sizes are in bytes.
    PayloadSize { got_bytes: usize, expected_one_bytes: usize, expected_all_bytes: usize },
    /// The peer sent a close frame before any binary payload.
    PeerClosed,
    /// The stream ended before any binary payload.
    Incomplete,
}

} // verus!
