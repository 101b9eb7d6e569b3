//! The JSON document posted to the webhook for one event.
//!
//! The body has the shape
//! `{"type": <t>, "connection_id": <id>, "transport": <tr>, "payload": <p>}`,
//! with the `payload` member omitted when the event carries none. String
//! escaping follows the JSON rules: `"` and `\` get a backslash, the named
//! control characters get their short escapes, the remaining control bytes
//! are written as `\u00xx` with lowercase hex digits, and all other bytes
//! (including multi-byte UTF-8 sequences) pass through unchanged.

use vstd::prelude::*;

use crate::events::event_type_label;
use crate::events::transport_label;
use crate::events::GatewayEvent;
use crate::events::GatewayEventV;

verus! {

/// The lowercase hex digit of a nibble.
pub open spec fn hex_digit(n: u8) -> u8
    recommends
        n < 16,
{
    if n < 10 {
        (n + 48) as u8
    } else {
        (n + 87) as u8
    }
}

/// How one byte of a string is written inside a JSON string literal.
pub open spec fn escape_byte(b: u8) -> Seq<u8> {
    if b == 34 {
        seq![92u8, 34u8]
    } else if b == 92 {
        seq![92u8, 92u8]
    } else if b == 8 {
        seq![92u8, 98u8]
    } else if b == 12 {
        seq![92u8, 102u8]
    } else if b == 10 {
        seq![92u8, 110u8]
    } else if b == 13 {
        seq![92u8, 114u8]
    } else if b == 9 {
        seq![92u8, 116u8]
    } else if b < 32 {
        seq![92u8, 117u8, 48u8, 48u8, hex_digit(b / 16), hex_digit(b % 16)]
    } else {
        seq![b]
    }
}

/// The JSON escaping of a whole byte string.
pub open spec fn json_escape(s: Seq<u8>) -> Seq<u8>
    decreases s.len(),
{
    if s.len() == 0 {
        Seq::<u8>::empty()
    } else {
        escape_byte(s[0]) + json_escape(s.drop_first())
    }
}

/// Escaping a string one byte longer appends that byte's escape.
pub proof fn lemma_json_escape_push(s: Seq<u8>, b: u8)
    ensures
        json_escape(s.push(b)) == json_escape(s) + escape_byte(b),
    decreases s.len(),
{
    if s.len() == 0 {
        assert(s.push(b).drop_first() =~= Seq::<u8>::empty());
        assert(s.push(b)[0] == b);
        assert(json_escape(s.push(b)) == escape_byte(b) + json_escape(Seq::<u8>::empty()));
        assert(json_escape(s.push(b)) =~= json_escape(s) + escape_byte(b));
    } else {
        lemma_json_escape_push(s.drop_first(), b);
        assert(s.push(b).drop_first() =~= s.drop_first().push(b));
        assert(s.push(b)[0] == s[0]);
        assert(json_escape(s.push(b)) == escape_byte(s[0]) + json_escape(s.drop_first().push(b)));
        assert(json_escape(s.push(b)) == escape_byte(s[0]) + (json_escape(s.drop_first())
            + escape_byte(b)));
        assert(json_escape(s.push(b)) =~= json_escape(s) + escape_byte(b));
    }
}

/// A JSON string literal: the escaped bytes between double quotes.
pub open spec fn json_string(s: Seq<u8>) -> Seq<u8> {
    seq![34u8] + json_escape(s) + seq![34u8]
}

/// The bytes of the member key `"type":`.
pub open spec fn key_type() -> Seq<u8> {
    seq![34u8, 116u8, 121u8, 112u8, 101u8, 34u8, 58u8]
}

/// The bytes of the member key `"connection_id":`.
pub open spec fn key_connection_id() -> Seq<u8> {
    seq![
        34u8, 99u8, 111u8, 110u8, 110u8, 101u8, 99u8, 116u8, 105u8, 111u8, 110u8, 95u8, 105u8,
        100u8, 34u8, 58u8,
    ]
}

/// The bytes of the member key `"transport":`.
pub open spec fn key_transport() -> Seq<u8> {
    seq![34u8, 116u8, 114u8, 97u8, 110u8, 115u8, 112u8, 111u8, 114u8, 116u8, 34u8, 58u8]
}

/// The bytes of the member key `"payload":`.
pub open spec fn key_payload() -> Seq<u8> {
    seq![34u8, 112u8, 97u8, 121u8, 108u8, 111u8, 97u8, 100u8, 34u8, 58u8]
}

/// The complete JSON document for one event.
pub open spec fn event_json(e: GatewayEventV) -> Seq<u8> {
    seq![123u8] + key_type() + json_string(event_type_label(e.event_type)) + seq![44u8]
        + key_connection_id() + json_string(e.connection_id) + seq![44u8] + key_transport()
        + json_string(transport_label(e.transport)) + (match e.payload {
        Some(p) => seq![44u8] + key_payload() + json_string(p),
        None => Seq::<u8>::empty(),
    }) + seq![125u8]
}

/// Appends the JSON escaping of `s` to `out`.
fn append_escaped(out: &mut Vec<u8>, s: &Vec<u8>)
    ensures
        final(out)@ == old(out)@ + json_escape(s@),
{
    let n = s.len();
    let mut j: usize = 0;
    proof {
        assert(s@.take(0) =~= Seq::<u8>::empty());
        assert(out@ + json_escape(s@.take(0)) =~= out@);
    }
    while j < n
        invariant
            j <= n,
            n == s@.len(),
            out@ == old(out)@ + json_escape(s@.take(j as int)),
        decreases n - j,
    {
        let b = s[j];
        if b == 34 {
            out.push(92);
            out.push(34);
        } else if b == 92 {
            out.push(92);
            out.push(92);
        } else if b == 8 {
            out.push(92);
            out.push(98);
        } else if b == 12 {
            out.push(92);
            out.push(102);
        } else if b == 10 {
            out.push(92);
            out.push(110);
        } else if b == 13 {
            out.push(92);
            out.push(114);
        } else if b == 9 {
            out.push(92);
            out.push(116);
        } else if b < 32 {
            let hi = b / 16;
            let lo = b % 16;
            out.push(92);
            out.push(117);
            out.push(48);
            out.push(48);
            out.push(if hi < 10 { hi + 48 } else { hi + 87 });
            out.push(if lo < 10 { lo + 48 } else { lo + 87 });
        } else {
            out.push(b);
        }
        proof {
            lemma_json_escape_push(s@.take(j as int), s@[j as int]);
            assert(s@.take(j as int).push(s@[j as int]) =~= s@.take(j as int + 1));
            assert(out@ =~= old(out)@ + json_escape(s@.take(j as int + 1)));
        }
        j = j + 1;
    }
    proof {
        assert(s@.take(n as int) =~= s@);
    }
}

/// Appends all of `s` to `out`.
fn append_bytes(out: &mut Vec<u8>, s: &Vec<u8>)
    ensures
        final(out)@ == old(out)@ + s@,
{
    let n = s.len();
    let mut j: usize = 0;
    while j < n
        invariant
            j <= n,
            n == s@.len(),
            out@ == old(out)@ + s@.take(j as int),
        decreases n - j,
    {
        out.push(s[j]);
        proof {
            assert(s@.take(j as int).push(s@[j as int]) =~= s@.take(j as int + 1));
            assert(out@ =~= old(out)@ + s@.take(j as int + 1));
        }
        j = j + 1;
    }
    proof {
        assert(s@.take(0) =~= Seq::<u8>::empty());
        assert(s@.take(n as int) =~= s@);
        assert(old(out)@ + s@.take(0) =~= old(out)@);
    }
}

/// Appends a whole JSON string literal for `s` to `out`.
fn append_json_string(out: &mut Vec<u8>, s: &Vec<u8>)
    ensures
        final(out)@ == old(out)@ + json_string(s@),
{
    out.push(34);
    append_escaped(out, s);
    out.push(34);
    proof {
        assert(out@ =~= old(out)@ + json_string(s@));
    }
}

/// Serializes one event to its JSON document.
pub fn event_to_json(e: &GatewayEvent) -> (r: Vec<u8>)
    ensures
        r@ == event_json(e@),
{
    let mut out: Vec<u8> = Vec::new();
    out.push(123);
    let key_t: Vec<u8> = vec![34u8, 116u8, 121u8, 112u8, 101u8, 34u8, 58u8];
    proof {
        assert(key_t@ =~= key_type());
    }
    append_bytes(&mut out, &key_t);
    let label_t = crate::events::event_type_label_bytes(e.event_type);
    append_json_string(&mut out, &label_t);
    out.push(44);
    let key_c: Vec<u8> = vec![
        34u8, 99u8, 111u8, 110u8, 110u8, 101u8, 99u8, 116u8, 105u8, 111u8, 110u8, 95u8, 105u8,
        100u8, 34u8, 58u8,
    ];
    proof {
        assert(key_c@ =~= key_connection_id());
    }
    append_bytes(&mut out, &key_c);
    append_json_string(&mut out, &e.connection_id);
    out.push(44);
    let key_tr: Vec<u8> = vec![
        34u8, 116u8, 114u8, 97u8, 110u8, 115u8, 112u8, 111u8, 114u8, 116u8, 34u8, 58u8,
    ];
    proof {
        assert(key_tr@ =~= key_transport());
    }
    append_bytes(&mut out, &key_tr);
    let label_tr = crate::events::transport_label_bytes(e.transport);
    append_json_string(&mut out, &label_tr);
    match &e.payload {
        Some(p) => {
            out.push(44);
            let key_p: Vec<u8> = vec![
                34u8, 112u8, 97u8, 121u8, 108u8, 111u8, 97u8, 100u8, 34u8, 58u8,
            ];
            proof {
                assert(key_p@ =~= key_payload());
            }
            append_bytes(&mut out, &key_p);
            append_json_string(&mut out, p);
        },
        None => {},
    }
    out.push(125);
    proof {
        assert(out@ =~= event_json(e@));
    }
    out
}

} // verus!
