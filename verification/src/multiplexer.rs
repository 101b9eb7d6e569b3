//! The observable behaviour of one whole session.
//!
//! The multiplexer loop races the three channel-receive operations and
//! handles one input per iteration. This module gives that loop's
//! observable output — the events handed to the webhook sink and the
//! acknowledgements delivered on the transport, in order — as a
//! specification-level trace, an executable replay of it, and the laws the
//! trace obeys.

use vstd::prelude::*;
use vstd::utf8::valid_utf8;

use crate::ack_spec;
use crate::events::connected_v;
use crate::events::disconnected_v;
use crate::events::message_v;
use crate::events::wf_event;
use crate::events::EventType;
use crate::events::GatewayEvent;
use crate::events::GatewayEventV;
use crate::events::Transport;
use crate::session::decode_failure_reason;
use crate::session::input_step;
use crate::session::ChannelInput;
use crate::session::ChannelInputV;
use crate::session::Phase;
use crate::session::ReplyAction;
use crate::session::ReplyActionV;
use crate::session::Session;
use crate::session::StepResult;
use crate::session::StepV;

verus! {

/// One observable output of a session: an event handed to the webhook
/// sink, or an acknowledgement delivered on the transport.
pub enum SessionOutput {
    Emit(GatewayEvent),
    Reply(ReplyAction),
}

/// The mathematical value of a `SessionOutput`.
pub enum SessionOutputV {
    Emit(GatewayEventV),
    Reply(ReplyActionV),
}

impl View for SessionOutput {
    type V = SessionOutputV;

    open spec fn view(&self) -> SessionOutputV {
        match self {
            SessionOutput::Emit(e) => SessionOutputV::Emit(e@),
            SessionOutput::Reply(r) => SessionOutputV::Reply(r@),
        }
    }
}

/// The values of a sequence of session outputs.
pub open spec fn outputs_view(s: Seq<SessionOutput>) -> Seq<SessionOutputV> {
    s.map_values(|o: SessionOutput| o@)
}

/// The values of a sequence of channel inputs.
pub open spec fn inputs_view(s: Seq<ChannelInput>) -> Seq<ChannelInputV> {
    s.map_values(|i: ChannelInput| i@)
}

/// The outputs of the multiplexer loop proper on the given inputs: per
/// echoed payload, the `message_received` event followed by its reply; a
/// closed stream contributes nothing; the loop stops at the first payload
/// that fails to decode.
pub open spec fn io_trace(id: Seq<u8>, inputs: Seq<ChannelInputV>) -> Seq<SessionOutputV>
    decreases inputs.len(),
{
    if inputs.len() == 0 {
        Seq::<SessionOutputV>::empty()
    } else {
        match input_step(inputs[0]) {
            StepV::Skip => io_trace(id, inputs.drop_first()),
            StepV::Echo { kind, payload, reply } => seq![
                SessionOutputV::Emit(message_v(id, kind, payload)),
                SessionOutputV::Reply(reply),
            ] + io_trace(id, inputs.drop_first()),
            StepV::Fail => Seq::<SessionOutputV>::empty(),
        }
    }
}

/// The termination description a session reports: the decode failure if
/// some payload fails to decode before the inputs run out, else the
/// transport-level description given by the caller.
pub open spec fn trace_reason(inputs: Seq<ChannelInputV>, end_reason: Seq<u8>) -> Seq<u8>
    decreases inputs.len(),
{
    if inputs.len() == 0 {
        end_reason
    } else {
        match input_step(inputs[0]) {
            StepV::Fail => decode_failure_reason(),
            _ => trace_reason(inputs.drop_first(), end_reason),
        }
    }
}

/// The complete observable behaviour of one session: its `connected`
/// event, the loop outputs, and its final `disconnected` event.
pub open spec fn session_trace(
    id: Seq<u8>,
    inputs: Seq<ChannelInputV>,
    end_reason: Seq<u8>,
) -> Seq<SessionOutputV> {
    seq![SessionOutputV::Emit(connected_v(id))] + io_trace(id, inputs) + seq![
        SessionOutputV::Emit(disconnected_v(id, trace_reason(inputs, end_reason))),
    ]
}

/// Replays one session: drives a fresh session over the given inputs
/// exactly as the multiplexer loop would, and returns everything the
/// session emits and sends, in order. `end_reason` describes the
/// transport-level close that ends the session when no payload fails to
/// decode first.
#[verifier::loop_isolation(false)]
pub fn run_session(id: Vec<u8>, inputs: Vec<ChannelInput>, end_reason: Vec<u8>) -> (log: Vec<
    SessionOutput,
>)
    ensures
        outputs_view(log@) == session_trace(id@, inputs_view(inputs@), end_reason@),
{
    let ghost idv = id@;
    let ghost ivs = inputs_view(inputs@);
    let (mut session, ev0) = Session::begin(id);
    let mut log: Vec<SessionOutput> = Vec::new();
    log.push(SessionOutput::Emit(ev0));
    let mut remaining = inputs;
    proof {
        assert(outputs_view(log@) =~= seq![SessionOutputV::Emit(connected_v(idv))]);
    }
    while remaining.len() > 0
        invariant
            session.phase == Phase::Active,
            session.id@ == idv,
            seq![SessionOutputV::Emit(connected_v(idv))] + io_trace(idv, ivs) == outputs_view(
                log@,
            ) + io_trace(idv, inputs_view(remaining@)),
            trace_reason(ivs, end_reason@) == trace_reason(
                inputs_view(remaining@),
                end_reason@,
            ),
        decreases remaining.len(),
    {
        let ghost pre = outputs_view(log@);
        let ghost rest = inputs_view(remaining@);
        let inp = remaining.remove(0);
        proof {
            assert(inp@ == rest[0]);
            assert(inputs_view(remaining@) =~= rest.drop_first());
        }
        let step = session.handle(inp);
        match step {
            StepResult::Skip => {},
            StepResult::Echo { event, reply } => {
                log.push(SessionOutput::Emit(event));
                log.push(SessionOutput::Reply(reply));
                proof {
                    assert(outputs_view(log@) =~= pre + seq![
                        SessionOutputV::Emit(event@),
                        SessionOutputV::Reply(reply@),
                    ]);
                    assert(pre + io_trace(idv, rest) =~= (pre + seq![
                        SessionOutputV::Emit(event@),
                        SessionOutputV::Reply(reply@),
                    ]) + io_trace(idv, rest.drop_first()));
                }
            },
            StepResult::Fail { reason } => {
                proof {
                    assert(input_step(rest[0]) is Fail);
                    assert(trace_reason(rest, end_reason@) == decode_failure_reason());
                    assert(reason@ == trace_reason(ivs, end_reason@));
                }
                let ev = session.finish(reason);
                log.push(SessionOutput::Emit(ev));
                proof {
                    assert(ev@ == disconnected_v(idv, trace_reason(ivs, end_reason@)));
                    assert(io_trace(idv, rest) =~= Seq::<SessionOutputV>::empty());
                    assert(pre =~= seq![SessionOutputV::Emit(connected_v(idv))] + io_trace(
                        idv,
                        ivs,
                    ));
                    assert(outputs_view(log@) =~= pre.push(SessionOutputV::Emit(ev@)));
                    assert(outputs_view(log@) =~= session_trace(idv, ivs, end_reason@));
                }
                return log;
            },
        }
    }
    let ghost pre = outputs_view(log@);
    proof {
        assert(inputs_view(remaining@) =~= Seq::<ChannelInputV>::empty());
        assert(io_trace(idv, Seq::<ChannelInputV>::empty()) =~= Seq::<SessionOutputV>::empty());
        assert(pre =~= seq![SessionOutputV::Emit(connected_v(idv))] + io_trace(idv, ivs));
    }
    let ghost erv = end_reason@;
    let ev = session.finish(end_reason);
    log.push(SessionOutput::Emit(ev));
    proof {
        assert(outputs_view(log@) =~= pre.push(SessionOutputV::Emit(ev@)));
        assert(outputs_view(log@) =~= session_trace(idv, ivs, erv));
    }
    log
}

/// True when `r` is the `ACK` acknowledgement prescribed for the channel
/// of the message event `e`.
pub open spec fn acknowledges(r: ReplyActionV, e: GatewayEventV) -> bool {
    match r {
        ReplyActionV::WriteSameStream(b) => b == ack_spec() && e.transport == Transport::Bi,
        ReplyActionV::OpenUniAndWrite(b) => b == ack_spec() && e.transport == Transport::Uni,
        ReplyActionV::SendDatagram(b) => b == ack_spec() && e.transport == Transport::Datagram,
    }
}

/// What holds at each position of the loop portion of a trace: every event
/// is a well-formed `message_received` of this session with a valid UTF-8
/// payload, immediately followed by the one reply that acknowledges it, and
/// every reply immediately follows the message event it acknowledges.
pub open spec fn loop_output_ok(id: Seq<u8>, t: Seq<SessionOutputV>, k: int) -> bool
    recommends
        0 <= k < t.len(),
{
    match t[k] {
        SessionOutputV::Emit(e) => {
            &&& e.event_type == EventType::MessageReceived
            &&& e.connection_id == id
            &&& wf_event(e)
            &&& e.payload matches Some(p) && valid_utf8(p)
            &&& k + 1 < t.len()
            &&& t[k + 1] matches SessionOutputV::Reply(r) && acknowledges(r, e)
        },
        SessionOutputV::Reply(r) => {
            &&& 1 <= k
            &&& t[k - 1] matches SessionOutputV::Emit(e) && acknowledges(r, e)
        },
    }
}

/// Every position of the loop portion of a trace satisfies
/// `loop_output_ok`.
proof fn lemma_io_trace_ok(id: Seq<u8>, inputs: Seq<ChannelInputV>)
    ensures
        forall|k: int|
            0 <= k < io_trace(id, inputs).len() ==> #[trigger] loop_output_ok(
                id,
                io_trace(id, inputs),
                k,
            ),
    decreases inputs.len(),
{
    if inputs.len() == 0 {
    } else {
        lemma_io_trace_ok(id, inputs.drop_first());
        let t = io_trace(id, inputs);
        let rest = io_trace(id, inputs.drop_first());
        match input_step(inputs[0]) {
            StepV::Skip => {},
            StepV::Echo { kind, payload, reply } => {
                let head = seq![
                    SessionOutputV::Emit(message_v(id, kind, payload)),
                    SessionOutputV::Reply(reply),
                ];
                assert(t == head + rest);
                assert(valid_utf8(payload));
                assert forall|k: int| 0 <= k < t.len() implies #[trigger] loop_output_ok(
                    id,
                    t,
                    k,
                ) by {
                    if k == 0 {
                        assert(t[0] == head[0]);
                        assert(t[1] == head[1]);
                    } else if k == 1 {
                        assert(t[1] == head[1]);
                        assert(t[0] == head[0]);
                    } else {
                        assert(t[k] == rest[k - 2]);
                        assert(loop_output_ok(id, rest, k - 2));
                        if k >= 3 {
                            assert(t[k - 1] == rest[k - 3]);
                        }
                        if k + 1 < t.len() {
                            assert(t[k + 1] == rest[k - 1]);
                        }
                    }
                }
            },
            StepV::Fail => {},
        }
    }
}

/// Law: a session's trace begins with its one `connected` event, ends with
/// its one `disconnected` event, and every event in between is a
/// `message_received` of that session. Hence `connected` is emitted exactly
/// once and precedes every `message_received`, and `disconnected` is
/// emitted exactly once, after the loop has exited.
pub proof fn lemma_session_event_order(
    id: Seq<u8>,
    inputs: Seq<ChannelInputV>,
    end_reason: Seq<u8>,
)
    ensures
        ({
            let t = session_trace(id, inputs, end_reason);
            &&& t.len() >= 2
            &&& t[0] == SessionOutputV::Emit(connected_v(id))
            &&& t[t.len() - 1] == SessionOutputV::Emit(
                disconnected_v(id, trace_reason(inputs, end_reason)),
            )
            &&& forall|k: int|
                0 <= k < t.len() ==> ((match #[trigger] t[k] {
                    SessionOutputV::Emit(e) => e.event_type == EventType::Connected,
                    _ => false,
                }) <==> k == 0)
            &&& forall|k: int|
                0 <= k < t.len() ==> ((match #[trigger] t[k] {
                    SessionOutputV::Emit(e) => e.event_type == EventType::Disconnected,
                    _ => false,
                }) <==> k == t.len() - 1)
            &&& forall|k: int|
                0 <= k < t.len() ==> (match #[trigger] t[k] {
                    SessionOutputV::Emit(e) => e.connection_id == id,
                    _ => true,
                })
        }),
{
    lemma_io_trace_ok(id, inputs);
    let t = session_trace(id, inputs, end_reason);
    let mid = io_trace(id, inputs);
    assert forall|k: int| 0 <= k < t.len() implies (match #[trigger] t[k] {
        SessionOutputV::Emit(e) => e.event_type == EventType::Connected,
        _ => false,
    }) <==> k == 0 by {
        if 1 <= k < t.len() - 1 {
            assert(t[k] == mid[k - 1]);
            assert(loop_output_ok(id, mid, k - 1));
        }
    }
    assert forall|k: int| 0 <= k < t.len() implies (match #[trigger] t[k] {
        SessionOutputV::Emit(e) => e.event_type == EventType::Disconnected,
        _ => false,
    }) <==> k == t.len() - 1 by {
        if 1 <= k < t.len() - 1 {
            assert(t[k] == mid[k - 1]);
            assert(loop_output_ok(id, mid, k - 1));
        }
    }
    assert forall|k: int| 0 <= k < t.len() implies (match #[trigger] t[k] {
        SessionOutputV::Emit(e) => e.connection_id == id,
        _ => true,
    }) by {
        if 1 <= k < t.len() - 1 {
            assert(t[k] == mid[k - 1]);
            assert(loop_output_ok(id, mid, k - 1));
        }
    }
}

/// Law: every acknowledgement in a session's trace immediately follows the
/// `message_received` event it answers, and is the `ACK` prescribed for
/// that event's channel.
pub proof fn lemma_reply_acknowledges_message(
    id: Seq<u8>,
    inputs: Seq<ChannelInputV>,
    end_reason: Seq<u8>,
)
    ensures
        ({
            let t = session_trace(id, inputs, end_reason);
            forall|k: int|
                0 <= k < t.len() ==> (match #[trigger] t[k] {
                    SessionOutputV::Reply(r) => 1 <= k && (match t[k - 1] {
                        SessionOutputV::Emit(e) => {
                            &&& acknowledges(r, e)
                            &&& e.event_type == EventType::MessageReceived
                            &&& e.connection_id == id
                            &&& e.payload matches Some(p) && valid_utf8(p)
                        },
                        _ => false,
                    }),
                    _ => true,
                })
        }),
{
    lemma_io_trace_ok(id, inputs);
    let t = session_trace(id, inputs, end_reason);
    let mid = io_trace(id, inputs);
    assert forall|k: int| 0 <= k < t.len() implies (match #[trigger] t[k] {
        SessionOutputV::Reply(r) => 1 <= k && (match t[k - 1] {
            SessionOutputV::Emit(e) => {
                &&& acknowledges(r, e)
                &&& e.event_type == EventType::MessageReceived
                &&& e.connection_id == id
                &&& e.payload matches Some(p) && valid_utf8(p)
            },
            _ => false,
        }),
        _ => true,
    }) by {
        if 1 <= k < t.len() - 1 {
            assert(t[k] == mid[k - 1]);
            assert(loop_output_ok(id, mid, k - 1));
            if k >= 2 {
                assert(t[k - 1] == mid[k - 2]);
                assert(loop_output_ok(id, mid, k - 2));
            }
        }
    }
}

/// Law: every `message_received` event in a session's trace is immediately
/// followed by the `ACK` reply on that message's channel. Together with
/// `lemma_reply_acknowledges_message`, messages and their replies come in
/// adjacent pairs: one reply per echoed payload, on the prescribed channel.
pub proof fn lemma_message_followed_by_reply(
    id: Seq<u8>,
    inputs: Seq<ChannelInputV>,
    end_reason: Seq<u8>,
)
    ensures
        ({
            let t = session_trace(id, inputs, end_reason);
            forall|k: int|
                0 <= k < t.len() ==> (match #[trigger] t[k] {
                    SessionOutputV::Emit(e) => e.event_type == EventType::MessageReceived ==> k + 1
                        < t.len() && (match t[k + 1] {
                        SessionOutputV::Reply(r) => acknowledges(r, e),
                        _ => false,
                    }),
                    _ => true,
                })
        }),
{
    lemma_io_trace_ok(id, inputs);
    let t = session_trace(id, inputs, end_reason);
    let mid = io_trace(id, inputs);
    assert forall|k: int| 0 <= k < t.len() implies (match #[trigger] t[k] {
        SessionOutputV::Emit(e) => e.event_type == EventType::MessageReceived ==> k + 1 < t.len()
            && (match t[k + 1] {
            SessionOutputV::Reply(r) => acknowledges(r, e),
            _ => false,
        }),
        _ => true,
    }) by {
        if 1 <= k < t.len() - 1 {
            assert(t[k] == mid[k - 1]);
            assert(loop_output_ok(id, mid, k - 1));
            if k < mid.len() {
                assert(t[k + 1] == mid[k]);
            }
        }
    }
}

/// Law: when some payload fails to decode before the inputs run out, the
/// session's `disconnected` event carries the decode-failure description.
pub proof fn lemma_decode_failure_terminates(
    inputs: Seq<ChannelInputV>,
    end_reason: Seq<u8>,
    j: int,
)
    requires
        0 <= j < inputs.len(),
        input_step(inputs[j]) is Fail,
        forall|i: int| 0 <= i < j ==> !(#[trigger] input_step(inputs[i]) is Fail),
    ensures
        trace_reason(inputs, end_reason) == decode_failure_reason(),
    decreases j,
{
    if j > 0 {
        assert(inputs.drop_first()[j - 1] == inputs[j]);
        assert forall|i: int| 0 <= i < j - 1 implies !(#[trigger] input_step(
            inputs.drop_first()[i],
        ) is Fail) by {
            assert(inputs.drop_first()[i] == inputs[i + 1]);
        }
        lemma_decode_failure_terminates(inputs.drop_first(), end_reason, j - 1);
    }
}

} // verus!
