//! Connection identity: a process-unique correlation id per accepted
//! session.

use vstd::prelude::*;

use crate::events::connected_v;
use crate::events::GatewayEvent;
use crate::session::Phase;
use crate::session::Session;

verus! {

/// What holds of byte `i` of a hyphenated UUID rendering: a hyphen at
/// positions 8, 13, 18 and 23, a lowercase hex digit everywhere else.
pub open spec fn uuid_byte_ok(s: Seq<u8>, i: int) -> bool
    recommends
        0 <= i < s.len(),
{
    if i == 8 || i == 13 || i == 18 || i == 23 {
        s[i] == 45
    } else {
        (48 <= s[i] <= 57) || (97 <= s[i] <= 102)
    }
}

/// The shape of a hyphenated UUID: 36 ASCII bytes, lowercase hex digits
/// with hyphens at positions 8, 13, 18 and 23.
pub open spec fn uuid_format(s: Seq<u8>) -> bool {
    &&& s.len() == 36
    &&& forall|i: int| 0 <= i < 36 ==> #[trigger] uuid_byte_ok(s, i)
}

/// Relies on `uuid::Uuid::new_v4` and the `Display` impl of `Uuid`: the id
/// is rendered in the hyphenated lowercase form, 36 ASCII bytes with
/// hyphens at positions 8, 13, 18 and 23. The value is random, so nothing
/// is assumed beyond that shape.
#[verifier::external_body]
fn fresh_uuid_bytes() -> (r: Vec<u8>)
    ensures
        uuid_format(r@),
{
    uuid::Uuid::new_v4().to_string().into_bytes()
}

/// Accepts one connection: draws a fresh correlation id and begins the
/// session. The returned `connected` event must be emitted before the
/// multiplexer loop starts.
pub fn start_session() -> (r: (Session, GatewayEvent))
    ensures
        r.0.phase == Phase::Active,
        uuid_format(r.0.id@),
        r.1@ == connected_v(r.0.id@),
{
    let id = fresh_uuid_bytes();
    Session::begin(id)
}

} // verus!
