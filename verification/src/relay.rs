//! The duplex relay: per direction, a pump that forwards frames verbatim
//! and in order until its source ends or a transfer fails, then attempts
//! one best-effort close of the destination and terminates. The pump is a
//! state machine over events; the caller owns the two sockets, performs
//! each action, and reports the outcome back.

use vstd::prelude::*;

verus! {

/// One WebSocket message unit, relayed atomically: never split, merged,
/// or altered.
pub enum Frame {
    Text(Vec<u8>),
    Binary(Vec<u8>),
    Ping(Vec<u8>),
    Pong(Vec<u8>),
    Close(Option<ClosePayload>),
}

/// The payload of a close frame: a close code and a reason.
pub struct ClosePayload {
    pub code: u16,
    pub reason: Vec<u8>,
}

/// The mathematical image of a frame.
pub enum FrameView {
    Text(Seq<u8>),
    Binary(Seq<u8>),
    Ping(Seq<u8>),
    Pong(Seq<u8>),
    Close(Option<(u16, Seq<u8>)>),
}

impl View for Frame {
    type V = FrameView;

    open spec fn view(&self) -> FrameView {
        match self {
            Frame::Text(p) => FrameView::Text(p@),
            Frame::Binary(p) => FrameView::Binary(p@),
            Frame::Ping(p) => FrameView::Ping(p@),
            Frame::Pong(p) => FrameView::Pong(p@),
            Frame::Close(None) => FrameView::Close(None),
            Frame::Close(Some(c)) => FrameView::Close(Some((c.code, c.reason@))),
        }
    }
}

/// What the source socket of a direction yielded.
pub enum RecvEvent {
    /// A frame arrived.
    Frame(Frame),
    /// The read failed.
    Error,
    /// The source reached end-of-stream.
    Closed,
}

/// What the caller must do next with the destination socket.
pub enum RelayAction {
    /// Send this frame to the destination, then report the outcome.
    Forward(Frame),
    /// Attempt one best-effort close of the destination, then report it.
    SendClose,
    /// Nothing to send: read the next frame from the source.
    Continue,
}

/// Where a direction's pump stands.
#[derive(Clone, Copy, PartialEq, Eq, Structural, Debug)]
pub enum PumpState {
    /// Awaiting the next frame from the source socket.
    Reading,
    /// A frame is on its way to the destination socket.
    Forwarding,
    /// The direction is over; one close attempt on the destination is owed.
    Closing,
    /// The direction has terminated.
    Done,
}

/// One direction of a tunnel: a pump from a source socket to a destination
/// socket. The ghost histories record every frame received from the source
/// and every frame forwarded to the destination, in order.
pub struct Pump {
    pub state: PumpState,
    pub received: Ghost<Seq<FrameView>>,
    pub forwarded: Ghost<Seq<FrameView>>,
}

impl Pump {
    /// The pump's invariant: what went to the destination is exactly what
    /// came from the source, in order, except that at most the latest
    /// frame may still be in flight or lost to the failure that ended the
    /// direction. Nothing is ever invented, reordered, or altered.
    pub open spec fn inv(&self) -> bool {
        &&& self.forwarded@.is_prefix_of(self.received@)
        &&& self.received@.len() <= self.forwarded@.len() + 1
        &&& self.state == PumpState::Reading ==> self.forwarded@ == self.received@
        &&& self.state == PumpState::Forwarding ==> self.received@.len() == self.forwarded@.len()
            + 1
    }

    /// A fresh direction: reading, with nothing yet received or forwarded.
    pub fn new() -> (p: Pump)
        ensures
            p.inv(),
            p.state == PumpState::Reading,
            p.received@ == Seq::<FrameView>::empty(),
            p.forwarded@ == Seq::<FrameView>::empty(),
    {
        Pump {
            state: PumpState::Reading,
            received: Ghost(Seq::empty()),
            forwarded: Ghost(Seq::empty()),
        }
    }

    /// React to what the source socket yielded. A frame is handed back
    /// verbatim to be forwarded; a read error or end-of-stream moves the
    /// direction to its closing step.
    pub fn on_recv(&mut self, ev: RecvEvent) -> (a: RelayAction)
        requires
            old(self).inv(),
            old(self).state == PumpState::Reading,
        ensures
            final(self).inv(),
            final(self).forwarded@ == old(self).forwarded@,
            match ev {
                RecvEvent::Frame(f) => {
                    &&& final(self).state == PumpState::Forwarding
                    &&& final(self).received@ == old(self).received@.push(f@)
                    &&& a matches RelayAction::Forward(g) && g@ == f@
                },
                RecvEvent::Error => {
                    &&& final(self).state == PumpState::Closing
                    &&& final(self).received@ == old(self).received@
                    &&& a is SendClose
                },
                RecvEvent::Closed => {
                    &&& final(self).state == PumpState::Closing
                    &&& final(self).received@ == old(self).received@
                    &&& a is SendClose
                },
            },
    {
        match ev {
            RecvEvent::Frame(f) => {
                self.state = PumpState::Forwarding;
                proof {
                    self.received@ = self.received@.push(f@);
                }
                RelayAction::Forward(f)
            },
            RecvEvent::Error => {
                self.state = PumpState::Closing;
                RelayAction::SendClose
            },
            RecvEvent::Closed => {
                self.state = PumpState::Closing;
                RelayAction::SendClose
            },
        }
    }

    /// React to the outcome of forwarding a frame. Success records the
    /// frame as delivered and returns to reading; failure ends the
    /// direction at once, with one close attempt owed. A failed frame is
    /// never retried.
    pub fn on_send_result(&mut self, sent: bool) -> (a: RelayAction)
        requires
            old(self).inv(),
            old(self).state == PumpState::Forwarding,
        ensures
            final(self).inv(),
            final(self).received@ == old(self).received@,
            sent ==> {
                &&& final(self).state == PumpState::Reading
                &&& final(self).forwarded@ == old(self).received@
                &&& a is Continue
            },
            !sent ==> {
                &&& final(self).state == PumpState::Closing
                &&& final(self).forwarded@ == old(self).forwarded@
                &&& a is SendClose
            },
    {
        if sent {
            self.state = PumpState::Reading;
            proof {
                self.forwarded@ = self.received@;
            }
            RelayAction::Continue
        } else {
            self.state = PumpState::Closing;
            RelayAction::SendClose
        }
    }

    /// Record that the one best-effort close of the destination has been
    /// attempted, delivered or not: the direction has terminated.
    pub fn on_close_attempted(&mut self)
        requires
            old(self).inv(),
            old(self).state == PumpState::Closing,
        ensures
            final(self).inv(),
            final(self).state == PumpState::Done,
            final(self).received@ == old(self).received@,
            final(self).forwarded@ == old(self).forwarded@,
    {
        self.state = PumpState::Done;
    }
}

/// Law: a relay direction preserves order and invents nothing. At every
/// reachable state, the frames forwarded to the destination are exactly a
/// prefix of the frames received from the source: same payloads, same
/// frame types, same order, with at most the latest frame still pending.
pub proof fn lemma_relay_order_preserving(p: &Pump)
    requires
        p.inv(),
    ensures
        p.forwarded@.is_prefix_of(p.received@),
        p.received@.len() <= p.forwarded@.len() + 1,
{
}

/// One established tunnel: a pair of independently owned sockets with one
/// pump per direction. The session owns both exclusively; no state is
/// shared with any other session.
pub struct Session {
    pub client_to_backend: Pump,
    pub backend_to_client: Pump,
}

impl Session {
    /// Both directions' pumps hold their invariants.
    pub open spec fn inv(&self) -> bool {
        self.client_to_backend.inv() && self.backend_to_client.inv()
    }

    /// The session is finished once either direction has terminated; the
    /// other direction's next socket operation then fails and drives it to
    /// the same end.
    pub open spec fn finished(&self) -> bool {
        self.client_to_backend.state == PumpState::Done || self.backend_to_client.state
            == PumpState::Done
    }

    /// A fresh session: both directions reading, no traffic yet.
    pub fn new() -> (s: Session)
        ensures
            s.inv(),
            s.client_to_backend.state == PumpState::Reading,
            s.backend_to_client.state == PumpState::Reading,
            s.client_to_backend.received@ == Seq::<FrameView>::empty(),
            s.backend_to_client.received@ == Seq::<FrameView>::empty(),
    {
        Session { client_to_backend: Pump::new(), backend_to_client: Pump::new() }
    }
}

/// Law: a session never cross-talks. Everything its client-facing side has
/// delivered originates from its own backend socket's receive history, and
/// everything its backend-facing side has delivered originates from its own
/// client socket's receive history, in order, with nothing invented.
pub proof fn lemma_session_isolated(s: &Session)
    requires
        s.inv(),
    ensures
        s.backend_to_client.forwarded@.is_prefix_of(s.backend_to_client.received@),
        s.client_to_backend.forwarded@.is_prefix_of(s.client_to_backend.received@),
{
}

} // verus!
