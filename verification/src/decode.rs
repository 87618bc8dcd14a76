//! Percent-decoding of request paths.
//!
//! A request path arrives percent-encoded. Decoding maps each `%XY` pair of
//! hexadecimal digits to the byte it names and copies every other byte as it
//! stands; a `%` that is not followed by two hexadecimal digits makes the
//! whole string malformed. Decoded control bytes are kept as literal bytes,
//! matching the filesystem's own semantics.

use vstd::prelude::*;

verus! {

/// The byte `%` that opens an escape.
pub open spec fn percent_byte() -> u8 {
    37
}

pub open spec fn is_hex_digit(b: u8) -> bool {
    (48 <= b && b <= 57) || (65 <= b && b <= 70) || (97 <= b && b <= 102)
}

/// The value of one hexadecimal digit byte.
pub open spec fn hex_val(b: u8) -> u8
    recommends
        is_hex_digit(b),
{
    if 48 <= b && b <= 57 {
        (b - 48) as u8
    } else if 65 <= b && b <= 70 {
        (b - 55) as u8
    } else {
        (b - 87) as u8
    }
}

/// What a percent-encoded byte string decodes to, or `None` where a `%` is
/// not followed by two hexadecimal digits.
pub open spec fn pct_decode(s: Seq<u8>) -> Option<Seq<u8>>
    decreases s.len(),
{
    if s.len() == 0 {
        Some(Seq::empty())
    } else if s[0] == percent_byte() {
        if s.len() >= 3 && is_hex_digit(s[1]) && is_hex_digit(s[2]) {
            match pct_decode(s.skip(3)) {
                Some(rest) => Some(seq![(hex_val(s[1]) * 16 + hex_val(s[2])) as u8] + rest),
                None => None,
            }
        } else {
            None
        }
    } else {
        match pct_decode(s.skip(1)) {
            Some(rest) => Some(seq![s[0]] + rest),
            None => None,
        }
    }
}

/// The value of a hexadecimal digit byte, or `None` for any other byte.
fn hex_value(b: u8) -> (r: Option<u8>)
    ensures
        r matches Some(v) ==> is_hex_digit(b) && v == hex_val(b) && v <= 15,
        r is None ==> !is_hex_digit(b),
{
    if 48 <= b && b <= 57 {
        Some(b - 48)
    } else if 65 <= b && b <= 70 {
        Some(b - 55)
    } else if 97 <= b && b <= 102 {
        Some(b - 87)
    } else {
        None
    }
}

/// Decodes a percent-encoded byte string, or reports it malformed.
pub fn percent_decode(s: &[u8]) -> (r: Option<Vec<u8>>)
    ensures
        match pct_decode(s@) {
            Some(d) => r matches Some(v) && v@ == d,
            None => r is None,
        },
{
    let mut out: Vec<u8> = Vec::new();
    let mut i: usize = 0;
    proof {
        assert(s@.skip(0) =~= s@);
        if let Some(rest) = pct_decode(s@) {
            assert(Seq::<u8>::empty() + rest =~= rest);
        }
    }
    while i < s.len()
        invariant
            i <= s@.len(),
            pct_decode(s@) == (match pct_decode(s@.skip(i as int)) {
                Some(rest) => Some(out@ + rest),
                None => None::<Seq<u8>>,
            }),
        decreases s@.len() - i,
    {
        let b = s[i];
        if b == 37 {
            if s.len() - i >= 3 {
                let h1 = hex_value(s[i + 1]);
                let h2 = hex_value(s[i + 2]);
                match (h1, h2) {
                    (Some(v1), Some(v2)) => {
                        proof {
                            assert(s@.skip(i as int)[0] == s@[i as int]);
                            assert(s@.skip(i as int)[1] == s@[i + 1]);
                            assert(s@.skip(i as int)[2] == s@[i + 2]);
                            assert(s@.skip(i as int).skip(3) =~= s@.skip(i + 3));
                        }
                        out.push(v1 * 16 + v2);
                        proof {
                            if let Some(rest) = pct_decode(s@.skip(i + 3)) {
                                assert(out@ + rest =~= (out@.drop_last() + (seq![
                                    (hex_val(s@[i + 1]) * 16 + hex_val(s@[i + 2])) as u8,
                                ] + rest)));
                            }
                        }
                        i = i + 3;
                    },
                    _ => {
                        proof {
                            assert(s@.skip(i as int)[0] == s@[i as int]);
                            if s@.skip(i as int).len() >= 3 {
                                assert(s@.skip(i as int)[1] == s@[i + 1]);
                                assert(s@.skip(i as int)[2] == s@[i + 2]);
                            }
                            assert(pct_decode(s@.skip(i as int)) is None);
                        }
                        return None;
                    },
                }
            } else {
                proof {
                    assert(s@.skip(i as int)[0] == s@[i as int]);
                    assert(s@.skip(i as int).len() < 3);
                    assert(pct_decode(s@.skip(i as int)) is None);
                }
                return None;
            }
        } else {
            proof {
                assert(s@.skip(i as int)[0] == s@[i as int]);
                assert(s@.skip(i as int).skip(1) =~= s@.skip(i + 1));
            }
            out.push(b);
            proof {
                if let Some(rest) = pct_decode(s@.skip(i + 1)) {
                    assert(out@ + rest =~= (out@.drop_last() + (seq![s@[i as int]] + rest)));
                }
            }
            i = i + 1;
        }
    }
    proof {
        assert(s@.skip(i as int) =~= Seq::<u8>::empty());
        assert(out@ + Seq::<u8>::empty() =~= out@);
    }
    Some(out)
}

} // verus!
