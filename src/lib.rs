//! Acquisition of samples from a live microelectrode-array (MEA) instrument
//! served over Socket.IO on a WebSocket.
//!
//! The library holds the protocol logic, verified: the selector check, the
//! Socket.IO text-frame rules, the session state machine that decides what to
//! send and when an acquisition ends, the decoding of a binary payload into a
//! sample of 32 channels of 4096 readings, and the batch that records several
//! samples in a row. The transport that moves frames is left to the caller.

pub mod batch;
pub mod client;
pub mod endpoint;
pub mod error;
pub mod protocol;
pub mod sample;
pub mod session;

pub use batch::Batch;
pub use client::LiveMEA;
pub use endpoint::{server_url, MEA_SERVER_URL};
pub use error::MeaError;
pub use sample::LiveData;
pub use session::{Frame, Phase, Session, Step};
