//! Percent-decoding of URL query-string values.
//!
//! A `%` followed by two hexadecimal digits stands for one byte; any other
//! byte — including a `%` not followed by two hexadecimal digits — passes
//! through unchanged.

use vstd::prelude::*;

verus! {

/// Whether `b` is an ASCII hexadecimal digit.
pub open spec fn is_hex_digit(b: u8) -> bool {
    (48 <= b && b <= 57) || (65 <= b && b <= 70) || (97 <= b && b <= 102)
}

/// The numeric value of an ASCII hexadecimal digit.
pub open spec fn hex_value(b: u8) -> u8 {
    if 48 <= b && b <= 57 {
        (b - 48) as u8
    } else if 65 <= b && b <= 70 {
        (b - 55) as u8
    } else {
        (b - 87) as u8
    }
}

/// The decoding of a whole byte sequence.
pub open spec fn percent_decoded(s: Seq<u8>) -> Seq<u8>
    decreases s.len(),
{
    if s.len() == 0 {
        Seq::empty()
    } else if s[0] == 37 && s.len() >= 3 && is_hex_digit(s[1]) && is_hex_digit(s[2]) {
        seq![((16 * hex_value(s[1]) + hex_value(s[2])) as u8)] + percent_decoded(s.skip(3))
    } else {
        seq![s[0]] + percent_decoded(s.skip(1))
    }
}

/// The numeric value of an ASCII hexadecimal digit, or `None` for any
/// other byte.
fn hex_digit_value(b: u8) -> (r: Option<u8>)
    ensures
        r is Some <==> is_hex_digit(b),
        r matches Some(v) ==> v == hex_value(b) && v <= 15,
{
    if 48 <= b && b <= 57 {
        Some(b - 48)
    } else if 65 <= b && b <= 70 {
        Some(b - 55)
    } else if 97 <= b && b <= 102 {
        Some(b - 87)
    } else {
        None
    }
}

/// Decode every percent-escape in `input`, leaving malformed escapes
/// untouched.
pub fn percent_decode(input: &Vec<u8>) -> (out: Vec<u8>)
    ensures
        out@ == percent_decoded(input@),
{
    let mut out: Vec<u8> = Vec::new();
    let mut i: usize = 0;
    proof {
        assert(input@.skip(0) =~= input@);
        assert(out@ + percent_decoded(input@) =~= percent_decoded(input@));
    }
    while i < input.len()
        invariant
            i <= input@.len(),
            out@ + percent_decoded(input@.skip(i as int)) == percent_decoded(input@),
        decreases input@.len() - i,
    {
        let b = input[i];
        proof {
            assert(input@.skip(i as int)[0] == input@[i as int]);
        }
        if b == 37 && input.len() - i >= 3 {
            let h = hex_digit_value(input[i + 1]);
            let l = hex_digit_value(input[i + 2]);
            match (h, l) {
                (Some(hv), Some(lv)) => {
                    proof {
                        assert(input@.skip(i as int)[1] == input@[i + 1]);
                        assert(input@.skip(i as int)[2] == input@[i + 2]);
                        assert(input@.skip(i as int).skip(3) =~= input@.skip(i + 3));
                    }
                    out.push(16 * hv + lv);
                    i = i + 3;
                    proof {
                        assert(out@ + percent_decoded(input@.skip(i as int)) =~= percent_decoded(
                            input@,
                        ));
                    }
                },
                _ => {
                    proof {
                        assert(input@.skip(i as int).skip(1) =~= input@.skip(i + 1));
                    }
                    out.push(b);
                    i = i + 1;
                    proof {
                        assert(out@ + percent_decoded(input@.skip(i as int)) =~= percent_decoded(
                            input@,
                        ));
                    }
                },
            }
        } else {
            proof {
                assert(input@.skip(i as int).skip(1) =~= input@.skip(i + 1));
            }
            out.push(b);
            i = i + 1;
            proof {
                assert(out@ + percent_decoded(input@.skip(i as int)) =~= percent_decoded(input@));
            }
        }
    }
    proof {
        assert(input@.skip(input@.len() as int) =~= Seq::<u8>::empty());
    }
    out
}

} // verus!
