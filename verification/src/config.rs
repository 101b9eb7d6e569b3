//! Parsing the numeric configuration values read from the environment.

use vstd::prelude::*;

verus! {

/// Every byte is an ASCII decimal digit.
pub open spec fn all_digits(s: Seq<u8>) -> bool {
    forall|i: int| 0 <= i < s.len() ==> 48 <= #[trigger] s[i] <= 57
}

/// The numeric value of a string of decimal digit bytes.
pub open spec fn digits_value(s: Seq<u8>) -> int
    decreases s.len(),
{
    if s.len() == 0 {
        0
    } else {
        digits_value(s.drop_last()) * 10 + (s.last() - 48)
    }
}

/// The digits of a number rendering: everything after one optional leading
/// `+` sign, as `str::parse` on an unsigned type reads it.
pub open spec fn digits_part(s: Seq<u8>) -> Seq<u8> {
    if s.len() > 0 && s[0] == 43 {
        s.drop_first()
    } else {
        s
    }
}

/// The value of a digit string is never negative.
proof fn lemma_digits_value_nonneg(s: Seq<u8>)
    requires
        all_digits(s),
    ensures
        digits_value(s) >= 0,
    decreases s.len(),
{
    if s.len() > 0 {
        assert(all_digits(s.drop_last())) by {
            assert(forall|i: int| 0 <= i < s.len() - 1 ==> s.drop_last()[i] == s[i]);
        }
        lemma_digits_value_nonneg(s.drop_last());
    }
}

/// A prefix of a digit string never exceeds the whole string's value.
proof fn lemma_digits_value_prefix(s: Seq<u8>, i: int)
    requires
        all_digits(s),
        0 <= i <= s.len(),
    ensures
        digits_value(s.take(i)) <= digits_value(s),
    decreases s.len(),
{
    if i == s.len() {
        assert(s.take(i) =~= s);
    } else {
        assert(all_digits(s.drop_last())) by {
            assert(forall|j: int| 0 <= j < s.len() - 1 ==> s.drop_last()[j] == s[j]);
        }
        assert(s.take(i) =~= s.drop_last().take(i));
        lemma_digits_value_prefix(s.drop_last(), i);
        lemma_digits_value_nonneg(s.drop_last());
    }
}

/// Parses a port number exactly as `str::parse::<u16>` reads one: one
/// optional leading `+`, then at least one decimal digit, and a value that
/// fits in a `u16`; on success it returns that value.
#[verifier::loop_isolation(false)]
pub fn parse_u16(s: &Vec<u8>) -> (r: Option<u16>)
    ensures
        match r {
            Some(n) => digits_part(s@).len() > 0 && all_digits(digits_part(s@)) && n as int
                == digits_value(digits_part(s@)),
            None => digits_part(s@).len() == 0 || !all_digits(digits_part(s@)) || digits_value(
                digits_part(s@),
            ) > 65535,
        },
{
    let n = s.len();
    let start: usize = if n > 0 && s[0] == 43 {
        1
    } else {
        0
    };
    let ghost body = digits_part(s@);
    proof {
        assert(body =~= s@.skip(start as int));
    }
    if n == start {
        return None;
    }
    let mut acc: u32 = 0;
    let mut j: usize = start;
    proof {
        assert(body.take(0) =~= Seq::<u8>::empty());
    }
    while j < n
        invariant
            start <= j <= n,
            acc <= 65535,
            all_digits(body.take(j as int - start as int)),
            acc as int == digits_value(body.take(j as int - start as int)),
        decreases n - j,
    {
        let b = s[j];
        proof {
            assert(body[j as int - start as int] == s@[j as int]);
        }
        if b < 48 || b > 57 {
            proof {
                assert(!(48 <= body[j as int - start as int] <= 57));
            }
            return None;
        }
        let d: u32 = (b - 48) as u32;
        let next: u32 = acc * 10 + d;
        proof {
            assert(body.take(j as int - start as int + 1).drop_last() =~= body.take(
                j as int - start as int,
            ));
            assert(body.take(j as int - start as int + 1).last() == body[j as int - start as int]);
            assert(all_digits(body.take(j as int - start as int + 1))) by {
                assert(forall|i: int|
                    0 <= i < j as int - start as int + 1 ==> body.take(
                        j as int - start as int + 1,
                    )[i] == body[i]);
            }
        }
        if next > 65535 {
            proof {
                if all_digits(body) {
                    lemma_digits_value_prefix(body, j as int - start as int + 1);
                    assert(digits_value(body.take(j as int - start as int + 1)) == next as int);
                }
            }
            return None;
        }
        acc = next;
        j = j + 1;
    }
    proof {
        assert(body.take(n as int - start as int) =~= body);
    }
    Some(acc as u16)
}

} // verus!
