//! Executable UTF-8 validation, proved against `vstd::utf8::valid_utf8`.
//!
//! Every inbound payload must decode as UTF-8; a payload that fails this
//! check terminates its session. The validation walks the bytes one
//! encoded scalar at a time, mirroring the structure of `valid_utf8`.

use vstd::prelude::*;
use vstd::utf8::valid_first_scalar;
use vstd::utf8::valid_utf8;

verus! {

/// Decides whether `bytes` is a well-formed UTF-8 encoding, exactly as
/// defined by `vstd::utf8::valid_utf8`.
pub fn is_valid_utf8(bytes: &Vec<u8>) -> (b: bool)
    ensures
        b == valid_utf8(bytes@),
{
    let n = bytes.len();
    let mut i: usize = 0;
    proof {
        assert(bytes@.skip(0) =~= bytes@);
    }
    while i < n
        invariant
            i <= n,
            n == bytes@.len(),
            valid_utf8(bytes@) == valid_utf8(bytes@.skip(i as int)),
        decreases n - i,
    {
        let ghost s = bytes@.skip(i as int);
        let b0 = bytes[i];
        if b0 < 0x80 {
            proof {
                assert(b0 & 0x7f == b0) by (bit_vector)
                    requires
                        b0 < 0x80,
                ;
                assert(valid_first_scalar(s));
                assert(vstd::utf8::pop_first_scalar(s) =~= bytes@.skip(i as int + 1));
            }
            i = i + 1;
        } else if 0xc0 <= b0 && b0 <= 0xdf {
            if n - i < 2 {
                proof {
                    assert(!valid_first_scalar(s));
                }
                return false;
            }
            let b1 = bytes[i + 1];
            if !(0x80 <= b1 && b1 <= 0xbf) {
                proof {
                    assert(!valid_first_scalar(s));
                }
                return false;
            }
            let cp: u32 = (((b0 & 0x1f) as u32) << 6) | ((b1 & 0x3f) as u32);
            if cp < 0x80 {
                proof {
                    assert(!valid_first_scalar(s));
                }
                return false;
            }
            proof {
                assert((((b0 & 0x1f) as u32) << 6) | ((b1 & 0x3f) as u32) <= 0x7ff) by (bit_vector);
                assert(valid_first_scalar(s));
                assert(vstd::utf8::pop_first_scalar(s) =~= bytes@.skip(i as int + 2));
            }
            i = i + 2;
        } else if 0xe0 <= b0 && b0 <= 0xef {
            if n - i < 3 {
                proof {
                    assert(!valid_first_scalar(s));
                }
                return false;
            }
            let b1 = bytes[i + 1];
            let b2 = bytes[i + 2];
            if !(0x80 <= b1 && b1 <= 0xbf) || !(0x80 <= b2 && b2 <= 0xbf) {
                proof {
                    assert(!valid_first_scalar(s));
                }
                return false;
            }
            let cp: u32 = (((b0 & 0x0f) as u32) << 12) | (((b1 & 0x3f) as u32) << 6) | ((b2
                & 0x3f) as u32);
            if cp < 0x800 || (0xd800 <= cp && cp <= 0xdfff) {
                proof {
                    assert(!valid_first_scalar(s));
                }
                return false;
            }
            proof {
                assert(valid_first_scalar(s));
                assert(vstd::utf8::pop_first_scalar(s) =~= bytes@.skip(i as int + 3));
            }
            i = i + 3;
        } else if 0xf0 <= b0 && b0 <= 0xf7 {
            if n - i < 4 {
                proof {
                    assert(!valid_first_scalar(s));
                }
                return false;
            }
            let b1 = bytes[i + 1];
            let b2 = bytes[i + 2];
            let b3 = bytes[i + 3];
            if !(0x80 <= b1 && b1 <= 0xbf) || !(0x80 <= b2 && b2 <= 0xbf) || !(0x80 <= b3 && b3
                <= 0xbf) {
                proof {
                    assert(!valid_first_scalar(s));
                }
                return false;
            }
            let cp: u32 = (((b0 & 0x07) as u32) << 18) | (((b1 & 0x3f) as u32) << 12) | (((b2
                & 0x3f) as u32) << 6) | ((b3 & 0x3f) as u32);
            if cp < 0x10000 || cp > 0x10ffff {
                proof {
                    assert(!valid_first_scalar(s));
                }
                return false;
            }
            proof {
                assert(valid_first_scalar(s));
                assert(vstd::utf8::pop_first_scalar(s) =~= bytes@.skip(i as int + 4));
            }
            i = i + 4;
        } else {
            proof {
                assert(!valid_first_scalar(s));
            }
            return false;
        }
    }
    proof {
        assert(bytes@.skip(n as int) =~= Seq::<u8>::empty());
    }
    true
}

} // verus!
