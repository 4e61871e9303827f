//! A UTF-8 validity check over byte strings.
//!
//! The pipeline must decide whether tool output and template lines decode as
//! UTF-8 text.  The check below walks the bytes one encoded scalar at a time
//! and is proved equivalent to `vstd::utf8::valid_utf8`.

use vstd::prelude::*;
use vstd::utf8::codepoint_width_1;
use vstd::utf8::codepoint_width_2;
use vstd::utf8::codepoint_width_3;
use vstd::utf8::codepoint_width_4;
use vstd::utf8::is_continuation_byte;
use vstd::utf8::length_of_first_codepoint;
use vstd::utf8::pop_first_scalar;
use vstd::utf8::valid_first_scalar;
use vstd::utf8::valid_leading_and_continuation_bytes_first_codepoint;
use vstd::utf8::valid_utf8;

verus! {

/// Executable continuation-byte test.
fn byte_is_continuation(b: u8) -> (r: bool)
    ensures
        r == is_continuation_byte(b),
{
    0x80 <= b && b <= 0xbf
}

/// Decides whether `s` is a valid UTF-8 encoding.
pub fn is_valid_utf8(s: &[u8]) -> (r: bool)
    ensures
        r == valid_utf8(s@),
{
    proof {
        assert(s@.skip(0) =~= s@);
    }
    let n = s.len();
    let mut i: usize = 0;
    while i < n
        invariant
            i <= n,
            n == s@.len(),
            valid_utf8(s@) == valid_utf8(s@.skip(i as int)),
        decreases n - i,
    {
        let ghost t = s@.skip(i as int);
        proof {
            assert(t[0] == s@[i as int]);
            assert(t.len() == n - i);
        }
        let b0 = s[i];
        if b0 <= 0x7f {
            proof {
                assert((b0 & 0x7f) <= 0x7f) by (bit_vector);
                assert(valid_first_scalar(t));
                assert(pop_first_scalar(t) =~= s@.skip(i + 1));
            }
            i = i + 1;
        } else if 0xc0 <= b0 && b0 <= 0xdf {
            if n - i < 2 || !byte_is_continuation(s[i + 1]) {
                proof {
                    assert(!valid_leading_and_continuation_bytes_first_codepoint(t));
                }
                return false;
            }
            let b1 = s[i + 1];
            proof {
                assert(t[1] == b1);
                assert(length_of_first_codepoint(t) == 2);
            }
            let c: u32 = (((b0 & 0x1f) as u32) << 6u32) | ((b1 & 0x3f) as u32);
            if c < 0x80 {
                proof {
                    assert(c == codepoint_width_2(b0, b1));
                    assert(!valid_first_scalar(t));
                }
                return false;
            }
            proof {
                assert(c == codepoint_width_2(b0, b1));
                assert((((b0 & 0x1f) as u32) << 6u32) | ((b1 & 0x3f) as u32) <= 0x7ff)
                    by (bit_vector);
                assert(valid_first_scalar(t));
                assert(pop_first_scalar(t) =~= s@.skip(i + 2));
            }
            i = i + 2;
        } else if 0xe0 <= b0 && b0 <= 0xef {
            if n - i < 3 || !byte_is_continuation(s[i + 1]) || !byte_is_continuation(s[i + 2]) {
                proof {
                    assert(!valid_leading_and_continuation_bytes_first_codepoint(t));
                }
                return false;
            }
            let b1 = s[i + 1];
            let b2 = s[i + 2];
            proof {
                assert(t[1] == b1 && t[2] == b2);
                assert(length_of_first_codepoint(t) == 3);
            }
            let c: u32 = (((b0 & 0x0f) as u32) << 12u32) | (((b1 & 0x3f) as u32) << 6u32) | ((b2
                & 0x3f) as u32);
            if c < 0x800 || (0xd800 <= c && c <= 0xdfff) {
                proof {
                    assert(c == codepoint_width_3(b0, b1, b2));
                    assert(!valid_first_scalar(t));
                }
                return false;
            }
            proof {
                assert(c == codepoint_width_3(b0, b1, b2));
                assert(valid_first_scalar(t));
                assert(pop_first_scalar(t) =~= s@.skip(i + 3));
            }
            i = i + 3;
        } else if 0xf0 <= b0 && b0 <= 0xf7 {
            if n - i < 4 || !byte_is_continuation(s[i + 1]) || !byte_is_continuation(s[i + 2])
                || !byte_is_continuation(s[i + 3]) {
                proof {
                    assert(!valid_leading_and_continuation_bytes_first_codepoint(t));
                }
                return false;
            }
            let b1 = s[i + 1];
            let b2 = s[i + 2];
            let b3 = s[i + 3];
            proof {
                assert(t[1] == b1 && t[2] == b2 && t[3] == b3);
                assert(length_of_first_codepoint(t) == 4);
            }
            let c: u32 = (((b0 & 0x07) as u32) << 18u32) | (((b1 & 0x3f) as u32) << 12u32) | (((b2
                & 0x3f) as u32) << 6u32) | ((b3 & 0x3f) as u32);
            if c < 0x10000 || c > 0x10ffff {
                proof {
                    assert(c == codepoint_width_4(b0, b1, b2, b3));
                    assert(!valid_first_scalar(t));
                }
                return false;
            }
            proof {
                assert(c == codepoint_width_4(b0, b1, b2, b3));
                assert(valid_first_scalar(t));
                assert(pop_first_scalar(t) =~= s@.skip(i + 4));
            }
            i = i + 4;
        } else {
            proof {
                assert(!valid_leading_and_continuation_bytes_first_codepoint(t));
            }
            return false;
        }
    }
    proof {
        assert(s@.skip(i as int).len() == 0);
    }
    true
}

} // verus!
