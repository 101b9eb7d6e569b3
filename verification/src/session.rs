//! The per-connection session: one state machine driven by the channel
//! multiplexer.
//!
//! Each loop iteration of the multiplexer hands the session exactly one
//! channel input. A payload that decodes as UTF-8 is echoed: the session
//! produces the `message_received` event and the `ACK` reply on the channel
//! the protocol prescribes. A payload that is not valid UTF-8 ends the
//! session. A stream that closed without data is skipped.

use vstd::prelude::*;
use vstd::utf8::valid_utf8;

use crate::ack_bytes;
use crate::ack_spec;
use crate::copy_bytes;
use crate::events::connected_v;
use crate::events::disconnected_v;
use crate::events::message_v;
use crate::events::ChannelKind;
use crate::events::GatewayEvent;
use crate::validate::is_valid_utf8;

verus! {

/// One readiness outcome of the three-way channel race.
pub enum ChannelInput {
    /// A payload read from an accepted bidirectional stream.
    BiPayload(Vec<u8>),
    /// A bidirectional stream that closed before carrying any data.
    BiClosed,
    /// A payload read from an accepted unidirectional stream.
    UniPayload(Vec<u8>),
    /// A unidirectional stream that closed before carrying any data.
    UniClosed,
    /// A datagram; its whole content is the payload.
    DatagramPayload(Vec<u8>),
}

/// The mathematical value of a `ChannelInput`.
pub enum ChannelInputV {
    BiPayload(Seq<u8>),
    BiClosed,
    UniPayload(Seq<u8>),
    UniClosed,
    DatagramPayload(Seq<u8>),
}

impl View for ChannelInput {
    type V = ChannelInputV;

    open spec fn view(&self) -> ChannelInputV {
        match self {
            ChannelInput::BiPayload(p) => ChannelInputV::BiPayload(p@),
            ChannelInput::BiClosed => ChannelInputV::BiClosed,
            ChannelInput::UniPayload(p) => ChannelInputV::UniPayload(p@),
            ChannelInput::UniClosed => ChannelInputV::UniClosed,
            ChannelInput::DatagramPayload(p) => ChannelInputV::DatagramPayload(p@),
        }
    }
}

/// How an acknowledgement is to be delivered.
pub enum ReplyAction {
    /// Write the bytes to the write half of the same bidirectional stream.
    WriteSameStream(Vec<u8>),
    /// Open a new outbound unidirectional stream and write the bytes on it.
    OpenUniAndWrite(Vec<u8>),
    /// Send the bytes as a new datagram on the connection.
    SendDatagram(Vec<u8>),
}

/// The mathematical value of a `ReplyAction`.
pub enum ReplyActionV {
    WriteSameStream(Seq<u8>),
    OpenUniAndWrite(Seq<u8>),
    SendDatagram(Seq<u8>),
}

impl View for ReplyAction {
    type V = ReplyActionV;

    open spec fn view(&self) -> ReplyActionV {
        match self {
            ReplyAction::WriteSameStream(b) => ReplyActionV::WriteSameStream(b@),
            ReplyAction::OpenUniAndWrite(b) => ReplyActionV::OpenUniAndWrite(b@),
            ReplyAction::SendDatagram(b) => ReplyActionV::SendDatagram(b@),
        }
    }
}

/// The `ACK` reply that a payload on the given channel kind earns:
/// the same stream for a bidirectional payload, a brand-new outbound
/// unidirectional stream for a unidirectional payload, a new datagram
/// for a datagram payload.
pub open spec fn reply_of(kind: ChannelKind) -> ReplyActionV {
    match kind {
        ChannelKind::Bi => ReplyActionV::WriteSameStream(ack_spec()),
        ChannelKind::Uni => ReplyActionV::OpenUniAndWrite(ack_spec()),
        ChannelKind::Datagram => ReplyActionV::SendDatagram(ack_spec()),
    }
}

/// What one multiplexer iteration decides.
pub enum StepResult {
    /// Nothing to do: the stream closed without data.
    Skip,
    /// Emit the event, then deliver the reply.
    Echo { event: GatewayEvent, reply: ReplyAction },
    /// The payload was not valid UTF-8: the session ends.
    Fail { reason: Vec<u8> },
}

/// The decision for one channel input, at the specification level.
pub enum StepV {
    Skip,
    Echo { kind: ChannelKind, payload: Seq<u8>, reply: ReplyActionV },
    Fail,
}

/// The multiplexer's decision for one channel input: echo a valid UTF-8
/// payload on the channel the protocol prescribes, skip a stream that
/// closed without data, and fail the session on any other payload.
pub open spec fn input_step(i: ChannelInputV) -> StepV {
    match i {
        ChannelInputV::BiPayload(p) => if valid_utf8(p) {
            StepV::Echo { kind: ChannelKind::Bi, payload: p, reply: reply_of(ChannelKind::Bi) }
        } else {
            StepV::Fail
        },
        ChannelInputV::BiClosed => StepV::Skip,
        ChannelInputV::UniPayload(p) => if valid_utf8(p) {
            StepV::Echo { kind: ChannelKind::Uni, payload: p, reply: reply_of(ChannelKind::Uni) }
        } else {
            StepV::Fail
        },
        ChannelInputV::UniClosed => StepV::Skip,
        ChannelInputV::DatagramPayload(p) => if valid_utf8(p) {
            StepV::Echo {
                kind: ChannelKind::Datagram,
                payload: p,
                reply: reply_of(ChannelKind::Datagram),
            }
        } else {
            StepV::Fail
        },
    }
}

/// The termination description carried by the `disconnected` event after a
/// decode failure: the ASCII bytes of `invalid utf-8 payload`.
pub open spec fn decode_failure_reason() -> Seq<u8> {
    seq![
        105u8, 110u8, 118u8, 97u8, 108u8, 105u8, 100u8, 32u8, 117u8, 116u8, 102u8, 45u8, 56u8,
        32u8, 112u8, 97u8, 121u8, 108u8, 111u8, 97u8, 100u8,
    ]
}

/// The decode-failure description, as bytes.
pub fn decode_failure_reason_bytes() -> (r: Vec<u8>)
    ensures
        r@ == decode_failure_reason(),
{
    let r: Vec<u8> = vec![
        105u8, 110u8, 118u8, 97u8, 108u8, 105u8, 100u8, 32u8, 117u8, 116u8, 102u8, 45u8, 56u8,
        32u8, 112u8, 97u8, 121u8, 108u8, 111u8, 97u8, 100u8,
    ];
    proof {
        assert(r@ =~= decode_failure_reason());
    }
    r
}

/// The lifecycle of a session: the multiplexer loop is running; the loop
/// has exited but the `disconnected` event is still owed; the session is
/// over with its `disconnected` event emitted.
#[derive(Clone, Copy, PartialEq, Eq, Structural, Debug)]
pub enum Phase {
    Active,
    Ended,
    Closed,
}

/// One accepted connection's session.
pub struct Session {
    pub id: Vec<u8>,
    pub phase: Phase,
}

impl Session {
    /// Upgrades an accepted connection into an active session. The returned
    /// `connected` event is the first event of the session and must be
    /// emitted before the multiplexer loop starts.
    pub fn begin(id: Vec<u8>) -> (r: (Session, GatewayEvent))
        ensures
            r.0.phase == Phase::Active,
            r.0.id@ == id@,
            r.1@ == connected_v(id@),
    {
        let id_copy = copy_bytes(&id);
        let ev = GatewayEvent::connected(id_copy);
        (Session { id, phase: Phase::Active }, ev)
    }

    /// One multiplexer iteration: decides what one channel input earns.
    /// A valid payload yields its `message_received` event and the `ACK`
    /// reply on the prescribed channel; an invalid payload ends the loop.
    pub fn handle(&mut self, input: ChannelInput) -> (r: StepResult)
        requires
            old(self).phase == Phase::Active,
        ensures
            final(self).id@ == old(self).id@,
            match input_step(input@) {
                StepV::Skip => r is Skip && final(self).phase == Phase::Active,
                StepV::Echo { kind, payload, reply } => {
                    &&& r matches StepResult::Echo { event, reply: ra } && event@ == message_v(
                        old(self).id@,
                        kind,
                        payload,
                    ) && ra@ == reply
                    &&& final(self).phase == Phase::Active
                },
                StepV::Fail => {
                    &&& r matches StepResult::Fail { reason } && reason@
                        == decode_failure_reason()
                    &&& final(self).phase == Phase::Ended
                },
            },
    {
        match input {
            ChannelInput::BiClosed => StepResult::Skip,
            ChannelInput::UniClosed => StepResult::Skip,
            ChannelInput::BiPayload(p) => self.echo_or_fail(ChannelKind::Bi, p),
            ChannelInput::UniPayload(p) => self.echo_or_fail(ChannelKind::Uni, p),
            ChannelInput::DatagramPayload(p) => self.echo_or_fail(ChannelKind::Datagram, p),
        }
    }

    /// Echoes one payload or ends the session on a decode failure.
    fn echo_or_fail(&mut self, kind: ChannelKind, payload: Vec<u8>) -> (r: StepResult)
        requires
            old(self).phase == Phase::Active,
        ensures
            final(self).id@ == old(self).id@,
            valid_utf8(payload@) ==> {
                &&& r matches StepResult::Echo { event, reply } && event@ == message_v(
                    old(self).id@,
                    kind,
                    payload@,
                ) && reply@ == reply_of(kind)
                &&& final(self).phase == Phase::Active
            },
            !valid_utf8(payload@) ==> {
                &&& r matches StepResult::Fail { reason } && reason@ == decode_failure_reason()
                &&& final(self).phase == Phase::Ended
            },
    {
        if is_valid_utf8(&payload) {
            let id_copy = copy_bytes(&self.id);
            let event = GatewayEvent::message(id_copy, kind, payload);
            let ack = ack_bytes();
            let reply = match kind {
                ChannelKind::Bi => ReplyAction::WriteSameStream(ack),
                ChannelKind::Uni => ReplyAction::OpenUniAndWrite(ack),
                ChannelKind::Datagram => ReplyAction::SendDatagram(ack),
            };
            StepResult::Echo { event, reply }
        } else {
            self.phase = Phase::Ended;
            StepResult::Fail { reason: decode_failure_reason_bytes() }
        }
    }

    /// Ends the session, yielding its single `disconnected` event, whose
    /// payload describes the termination cause. Callable exactly once.
    pub fn finish(&mut self, reason: Vec<u8>) -> (ev: GatewayEvent)
        requires
            old(self).phase != Phase::Closed,
        ensures
            final(self).phase == Phase::Closed,
            final(self).id@ == old(self).id@,
            ev@ == disconnected_v(old(self).id@, reason@),
    {
        self.phase = Phase::Closed;
        let id_copy = copy_bytes(&self.id);
        GatewayEvent::disconnected(id_copy, reason)
    }
}

} // verus!
