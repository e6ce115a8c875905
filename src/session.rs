use vstd::prelude::*;

use crate::client::{valid_selector, LiveMEA};
use crate::error::MeaError;
use crate::protocol::{
    check_open_packet, check_ping, connect_message, connect_packet, is_open_packet, is_ping,
    pong_message, pong_packet, selection_message, selection_request,
};
use crate::sample::{
    decode_payload, decoded_channels, size_error, valid_payload_len, LiveData, DEVICES,
};

verus! {

/// Relies on `chrono::Utc::now` and `DateTime::to_rfc3339`: the current UTC
/// time written in RFC 3339 form. Nothing is promised of its value.
#[verifier::external_body]
fn now_rfc3339() -> (r: String) {
    chrono::Utc::now().to_rfc3339()
}

/// Where an acquisition stands.
#[derive(Debug, Clone, Copy, PartialEq, Eq)]
pub enum Phase {
    /// Connected; the Socket.IO open packet is expected next.
    HandshakeWait,
    /// Device selected; waiting for the binary payload.
    AwaitingPayload,
    /// A sample was delivered.
    Done,
    /// The acquisition ended with an error.
    Failed,
}

/// What the transport handed over.
#[derive(Debug, Clone)]
pub enum Frame {
    /// A text frame.
    Text(String),
    /// A binary frame.
    Binary(Vec<u8>),
    /// A close frame from the peer.
    Close,
    /// A transport-level ping, pong or raw frame.
    Control,
    /// The stream ended.
    End,
}

/// What the transport must do next.
#[derive(Debug, Clone)]
pub enum Step {
    /// Send these text frames, in order, then wait for the next frame.
    Send(Vec<String>),
    /// Wait for the next frame.
    Wait,
    /// Close the connection and return this sample.
    Deliver(LiveData),
    /// Give up with this error.
    Fail(MeaError),
}

/// Whether `step` sends exactly the texts `texts`, in order.
pub open spec fn sends(step: Step, texts: Seq<Seq<char>>) -> bool {
    match step {
        Step::Send(m) => m@.map_values(|s: String| s@) == texts,
        _ => false,
    }
}

/// Whether `step` delivers the sample that `payload` carries for device `mea_index`.
pub open spec fn delivers(step: Step, payload: Seq<u8>, mea_index: nat) -> bool {
    match step {
        Step::Deliver(d) => d.channels() == decoded_channels(payload, mea_index) && d.wf(),
        _ => false,
    }
}

/// The protocol state of one acquisition from one device.
pub struct Session {
    mea_index: u32,
    phase: Phase,
}

impl Session {
    /// The zero-based index of the requested device, as sent on the wire.
    pub closed spec fn index(&self) -> nat {
        self.mea_index as nat
    }

    /// The current phase.
    pub closed spec fn state(&self) -> Phase {
        self.phase
    }

    /// The device index names one of the four devices.
    pub open spec fn wf(&self) -> bool {
        self.index() < DEVICES
    }

    /// Whether the session still takes frames.
    pub open spec fn is_active(&self) -> bool {
        self.state() is HandshakeWait || self.state() is AwaitingPayload
    }

    /// Starts an acquisition from the device with selector `mea_id`, which
    /// must lie in `1..=4`. Nothing is sent before this succeeds.
    pub fn new(mea_id: u32) -> (r: Result<Session, MeaError>)
        ensures
            match r {
                Ok(s) => {
                    &&& valid_selector(mea_id)
                    &&& s.wf()
                    &&& s.index() == mea_id - 1
                    &&& s.state() == Phase::HandshakeWait
                },
                Err(e) => !valid_selector(mea_id) && e == (MeaError::InvalidSelector { mea_id }),
            },
    {
        match LiveMEA::validate_mea_id(mea_id) {
            Ok(()) => Ok(Session { mea_index: mea_id - 1, phase: Phase::HandshakeWait }),
            Err(e) => Err(e),
        }
    }

    /// The current phase.
    pub fn phase(&self) -> (r: Phase)
        ensures
            r == self.state(),
    {
        self.phase
    }

    /// Takes the next frame and says what to do with it.
    ///
    /// The first frame must be an open packet; it is answered with `40` and
    /// the device-selection event. After that a ping is answered with `3`,
    /// other text and control frames are ignored, and a binary frame ends the
    /// acquisition with a sample stamped with the current time, or with a
    /// `PayloadSize` error.
    pub fn on_frame(&mut self, frame: Frame) -> (r: Step)
        requires
            old(self).wf(),
            old(self).is_active(),
        ensures
            final(self).wf(),
            final(self).index() == old(self).index(),
            old(self).state() == Phase::HandshakeWait ==> match frame {
                Frame::Text(t) => if is_open_packet(t@) {
                    &&& sends(r, seq![connect_packet(), selection_request(old(self).index())])
                    &&& final(self).state() == Phase::AwaitingPayload
                } else {
                    r == Step::Fail(MeaError::Handshake) && final(self).state() == Phase::Failed
                },
                Frame::End => r == Step::Fail(MeaError::Incomplete) && final(self).state()
                    == Phase::Failed,
                _ => r == Step::Fail(MeaError::Handshake) && final(self).state() == Phase::Failed,
            },
            old(self).state() == Phase::AwaitingPayload ==> match frame {
                Frame::Text(t) => {
                    &&& if is_ping(t@) {
                        sends(r, seq![pong_packet()])
                    } else {
                        r == Step::Wait
                    }
                    &&& final(self).state() == Phase::AwaitingPayload
                },
                Frame::Binary(p) => if valid_payload_len(p@.len()) {
                    delivers(r, p@, old(self).index()) && final(self).state() == Phase::Done
                } else {
                    r == Step::Fail(size_error(p@.len())) && final(self).state() == Phase::Failed
                },
                Frame::Close => r == Step::Fail(MeaError::PeerClosed) && final(self).state()
                    == Phase::Failed,
                Frame::Control => r == Step::Wait && final(self).state() == Phase::AwaitingPayload,
                Frame::End => r == Step::Fail(MeaError::Incomplete) && final(self).state()
                    == Phase::Failed,
            },
    {
        match self.phase {
            Phase::HandshakeWait => match frame {
                Frame::Text(t) => {
                    if check_open_packet(t.as_str()) {
                        let mut out: Vec<String> = Vec::new();
                        out.push(connect_message());
                        out.push(selection_message(self.mea_index));
                        assert(out@.map_values(|s: String| s@) =~= seq![
                            connect_packet(),
                            selection_request(self.mea_index as nat),
                        ]);
                        self.phase = Phase::AwaitingPayload;
                        Step::Send(out)
                    } else {
                        self.phase = Phase::Failed;
                        Step::Fail(MeaError::Handshake)
                    }
                },
                Frame::End => {
                    self.phase = Phase::Failed;
                    Step::Fail(MeaError::Incomplete)
                },
                _ => {
                    self.phase = Phase::Failed;
                    Step::Fail(MeaError::Handshake)
                },
            },
            _ => match frame {
                Frame::Text(t) => {
                    if check_ping(t.as_str()) {
                        let mut out: Vec<String> = Vec::new();
                        out.push(pong_message());
                        assert(out@.map_values(|s: String| s@) =~= seq![pong_packet()]);
                        Step::Send(out)
                    } else {
                        Step::Wait
                    }
                },
                Frame::Binary(p) => {
                    let stamp = now_rfc3339();
                    match decode_payload(&p, self.mea_index, stamp) {
                        Ok(d) => {
                            self.phase = Phase::Done;
                            Step::Deliver(d)
                        },
                        Err(e) => {
                            self.phase = Phase::Failed;
                            Step::Fail(e)
                        },
                    }
                },
                Frame::Close => {
                    self.phase = Phase::Failed;
                    Step::Fail(MeaError::PeerClosed)
                },
                Frame::Control => Step::Wait,
                Frame::End => {
                    self.phase = Phase::Failed;
                    Step::Fail(MeaError::Incomplete)
                },
            },
        }
    }
}

} // verus!
