//! The gateway's event model.
//!
//! A session reports its lifecycle and every received message to an
//! optional webhook as `GatewayEvent` records. Per connection, exactly one
//! `connected` event precedes all `message_received` events, and exactly
//! one `disconnected` event follows the multiplexer loop's exit.

use vstd::prelude::*;

verus! {

/// The kind of a gateway event.
#[derive(Clone, Copy, PartialEq, Eq, Structural, Debug)]
pub enum EventType {
    Connected,
    MessageReceived,
    Disconnected,
}

/// The kind of channel a payload arrived on.
#[derive(Clone, Copy, PartialEq, Eq, Structural, Debug)]
pub enum ChannelKind {
    Bi,
    Uni,
    Datagram,
}

/// The transport tag carried by an event: the session as a whole for
/// lifecycle events, or the channel kind for message events.
#[derive(Clone, Copy, PartialEq, Eq, Structural, Debug)]
pub enum Transport {
    Session,
    Bi,
    Uni,
    Datagram,
}

/// The transport tag that a message on the given channel kind carries.
pub open spec fn transport_of(kind: ChannelKind) -> Transport {
    match kind {
        ChannelKind::Bi => Transport::Bi,
        ChannelKind::Uni => Transport::Uni,
        ChannelKind::Datagram => Transport::Datagram,
    }
}

/// The ASCII bytes of the wire name of an event type: `connected`,
/// `message_received` or `disconnected`.
pub open spec fn event_type_label(t: EventType) -> Seq<u8> {
    match t {
        EventType::Connected => seq![99u8, 111u8, 110u8, 110u8, 101u8, 99u8, 116u8, 101u8, 100u8],
        EventType::MessageReceived => seq![
            109u8, 101u8, 115u8, 115u8, 97u8, 103u8, 101u8, 95u8, 114u8, 101u8, 99u8, 101u8,
            105u8, 118u8, 101u8, 100u8,
        ],
        EventType::Disconnected => seq![
            100u8, 105u8, 115u8, 99u8, 111u8, 110u8, 110u8, 101u8, 99u8, 116u8, 101u8, 100u8,
        ],
    }
}

/// The ASCII bytes of the wire name of a transport: `webtransport`,
/// optionally followed by `/bi`, `/uni` or `/dgram`.
pub open spec fn transport_label(t: Transport) -> Seq<u8> {
    match t {
        Transport::Session => seq![
            119u8, 101u8, 98u8, 116u8, 114u8, 97u8, 110u8, 115u8, 112u8, 111u8, 114u8, 116u8,
        ],
        Transport::Bi => seq![
            119u8, 101u8, 98u8, 116u8, 114u8, 97u8, 110u8, 115u8, 112u8, 111u8, 114u8, 116u8,
            47u8, 98u8, 105u8,
        ],
        Transport::Uni => seq![
            119u8, 101u8, 98u8, 116u8, 114u8, 97u8, 110u8, 115u8, 112u8, 111u8, 114u8, 116u8,
            47u8, 117u8, 110u8, 105u8,
        ],
        Transport::Datagram => seq![
            119u8, 101u8, 98u8, 116u8, 114u8, 97u8, 110u8, 115u8, 112u8, 111u8, 114u8, 116u8,
            47u8, 100u8, 103u8, 114u8, 97u8, 109u8,
        ],
    }
}

/// The wire name of an event type, as bytes.
pub fn event_type_label_bytes(t: EventType) -> (r: Vec<u8>)
    ensures
        r@ == event_type_label(t),
{
    match t {
        EventType::Connected => {
            let r: Vec<u8> = vec![99u8, 111u8, 110u8, 110u8, 101u8, 99u8, 116u8, 101u8, 100u8];
            proof {
                assert(r@ =~= event_type_label(t));
            }
            r
        },
        EventType::MessageReceived => {
            let r: Vec<u8> = vec![
                109u8, 101u8, 115u8, 115u8, 97u8, 103u8, 101u8, 95u8, 114u8, 101u8, 99u8, 101u8,
                105u8, 118u8, 101u8, 100u8,
            ];
            proof {
                assert(r@ =~= event_type_label(t));
            }
            r
        },
        EventType::Disconnected => {
            let r: Vec<u8> = vec![
                100u8, 105u8, 115u8, 99u8, 111u8, 110u8, 110u8, 101u8, 99u8, 116u8, 101u8, 100u8,
            ];
            proof {
                assert(r@ =~= event_type_label(t));
            }
            r
        },
    }
}

/// The wire name of a transport, as bytes.
pub fn transport_label_bytes(t: Transport) -> (r: Vec<u8>)
    ensures
        r@ == transport_label(t),
{
    let mut r: Vec<u8> = vec![
        119u8, 101u8, 98u8, 116u8, 114u8, 97u8, 110u8, 115u8, 112u8, 111u8, 114u8, 116u8,
    ];
    match t {
        Transport::Session => {},
        Transport::Bi => {
            r.push(47u8);
            r.push(98u8);
            r.push(105u8);
        },
        Transport::Uni => {
            r.push(47u8);
            r.push(117u8);
            r.push(110u8);
            r.push(105u8);
        },
        Transport::Datagram => {
            r.push(47u8);
            r.push(100u8);
            r.push(103u8);
            r.push(114u8);
            r.push(97u8);
            r.push(109u8);
        },
    }
    proof {
        assert(r@ =~= transport_label(t));
    }
    r
}

/// One event relayed to the webhook.
pub struct GatewayEvent {
    pub event_type: EventType,
    pub connection_id: Vec<u8>,
    pub transport: Transport,
    pub payload: Option<Vec<u8>>,
}

/// The mathematical value of a `GatewayEvent`.
pub struct GatewayEventV {
    pub event_type: EventType,
    pub connection_id: Seq<u8>,
    pub transport: Transport,
    pub payload: Option<Seq<u8>>,
}

impl View for GatewayEvent {
    type V = GatewayEventV;

    open spec fn view(&self) -> GatewayEventV {
        GatewayEventV {
            event_type: self.event_type,
            connection_id: self.connection_id@,
            transport: self.transport,
            payload: match self.payload {
                Some(p) => Some(p@),
                None => None,
            },
        }
    }
}

/// An event is well formed when its payload is present exactly for the
/// event types that carry one, and its transport fits its type.
pub open spec fn wf_event(e: GatewayEventV) -> bool {
    match e.event_type {
        EventType::Connected => e.transport == Transport::Session && e.payload is None,
        EventType::MessageReceived => e.transport != Transport::Session && e.payload is Some,
        EventType::Disconnected => e.transport == Transport::Session && e.payload is Some,
    }
}

/// The `connected` event of the session with the given id.
pub open spec fn connected_v(id: Seq<u8>) -> GatewayEventV {
    GatewayEventV {
        event_type: EventType::Connected,
        connection_id: id,
        transport: Transport::Session,
        payload: None,
    }
}

/// The `message_received` event for a payload on the given channel kind.
pub open spec fn message_v(id: Seq<u8>, kind: ChannelKind, payload: Seq<u8>) -> GatewayEventV {
    GatewayEventV {
        event_type: EventType::MessageReceived,
        connection_id: id,
        transport: transport_of(kind),
        payload: Some(payload),
    }
}

/// The `disconnected` event, whose payload describes why the session ended.
pub open spec fn disconnected_v(id: Seq<u8>, reason: Seq<u8>) -> GatewayEventV {
    GatewayEventV {
        event_type: EventType::Disconnected,
        connection_id: id,
        transport: Transport::Session,
        payload: Some(reason),
    }
}

impl GatewayEvent {
    /// Builds the `connected` event of the session with the given id.
    pub fn connected(id: Vec<u8>) -> (e: GatewayEvent)
        ensures
            e@ == connected_v(id@),
    {
        GatewayEvent {
            event_type: EventType::Connected,
            connection_id: id,
            transport: Transport::Session,
            payload: None,
        }
    }

    /// Builds the `message_received` event for one payload.
    pub fn message(id: Vec<u8>, kind: ChannelKind, payload: Vec<u8>) -> (e: GatewayEvent)
        ensures
            e@ == message_v(id@, kind, payload@),
    {
        let transport = match kind {
            ChannelKind::Bi => Transport::Bi,
            ChannelKind::Uni => Transport::Uni,
            ChannelKind::Datagram => Transport::Datagram,
        };
        GatewayEvent {
            event_type: EventType::MessageReceived,
            connection_id: id,
            transport,
            payload: Some(payload),
        }
    }

    /// Builds the `disconnected` event with the termination description.
    pub fn disconnected(id: Vec<u8>, reason: Vec<u8>) -> (e: GatewayEvent)
        ensures
            e@ == disconnected_v(id@, reason@),
    {
        GatewayEvent {
            event_type: EventType::Disconnected,
            connection_id: id,
            transport: Transport::Session,
            payload: Some(reason),
        }
    }
}

/// Every constructor yields a well-formed event.
pub proof fn lemma_constructors_well_formed(id: Seq<u8>, kind: ChannelKind, p: Seq<u8>, r: Seq<u8>)
    ensures
        wf_event(connected_v(id)),
        wf_event(message_v(id, kind, p)),
        wf_event(disconnected_v(id, r)),
{
}

} // verus!
