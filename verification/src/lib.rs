//! Verified core of a WebTransport echo gateway.
//!
//! The library models the per-connection protocol: validating inbound
//! payloads, choosing the acknowledgement channel, and producing the
//! lifecycle events that are posted to an optional webhook.

use vstd::prelude::*;

pub mod config;
pub mod events;
pub mod identity;
pub mod json;
pub mod multiplexer;
pub mod session;
pub mod validate;
pub mod webhook;

verus! {

/// The fixed acknowledgement written back on every echo reply:
/// the ASCII bytes of `ACK`.
pub open spec fn ack_spec() -> Seq<u8> {
    seq![65u8, 67u8, 75u8]
}

/// The acknowledgement bytes, always the ASCII literal `ACK`.
pub fn ack_bytes() -> (r: Vec<u8>)
    ensures
        r@ == ack_spec(),
{
    let r: Vec<u8> = vec![65u8, 67u8, 75u8];
    proof {
        assert(r@ =~= ack_spec());
    }
    r
}

/// A fresh byte vector with the same contents as `v`.
pub fn copy_bytes(v: &Vec<u8>) -> (r: Vec<u8>)
    ensures
        r@ == v@,
{
    let n = v.len();
    let mut r: Vec<u8> = Vec::new();
    let mut j: usize = 0;
    while j < n
        invariant
            j <= n,
            n == v@.len(),
            r@ == v@.take(j as int),
        decreases n - j,
    {
        r.push(v[j]);
        proof {
            assert(v@.take(j as int).push(v@[j as int]) =~= v@.take(j as int + 1));
        }
        j = j + 1;
    }
    proof {
        assert(v@.take(n as int) =~= v@);
    }
    r
}

} // verus!
