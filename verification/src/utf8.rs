//! A verified UTF-8 validity check over raw bytes.
//!
//! The checker walks the bytes one encoded scalar at a time and tests,
//! for each, exactly the conditions of a well-formed encoding: the
//! leading-byte pattern, the continuation bytes, no overlong encoding
//! and no surrogate codepoint.  Some of those tests can never fail for
//! their width, but checking each of them as stated keeps the code in
//! step with the definition it is proved against.

use vstd::prelude::*;
use vstd::utf8::codepoint_width_1;
use vstd::utf8::codepoint_width_2;
use vstd::utf8::codepoint_width_3;
use vstd::utf8::codepoint_width_4;
use vstd::utf8::decode_first_codepoint;
use vstd::utf8::length_of_first_scalar;
use vstd::utf8::pop_first_scalar;
use vstd::utf8::valid_first_scalar;
use vstd::utf8::valid_utf8;

verus! {

/// Whether `bytes` form valid UTF-8 text.
pub fn is_valid_text(bytes: &[u8]) -> (r: bool)
    ensures
        r == valid_utf8(bytes@),
{
    let n = bytes.len();
    let mut i: usize = 0;
    proof {
        assert(bytes@.skip(0) =~= bytes@);
    }
    while i < n
        invariant
            0 <= i <= n,
            n == bytes@.len(),
            valid_utf8(bytes@) == valid_utf8(bytes@.skip(i as int)),
        decreases n - i,
    {
        let ghost tail = bytes@.skip(i as int);
        let b0 = bytes[i];
        proof {
            assert(tail[0] == bytes@[i as int]);
        }
        let w: usize;
        if b0 <= 0x7f {
            // One byte: the codepoint is the byte itself, below 0x80, so
            // it can be neither overlong nor a surrogate.
            proof {
                assert(decode_first_codepoint(tail) == codepoint_width_1(b0));
                assert(valid_first_scalar(tail));
                assert(length_of_first_scalar(tail) == 1);
            }
            w = 1;
        } else if 0xc0 <= b0 && b0 <= 0xdf {
            if n - i < 2 {
                proof {
                    assert(!valid_first_scalar(tail));
                }
                return false;
            }
            let b1 = bytes[i + 1];
            proof {
                assert(tail[1] == bytes@[i + 1]);
            }
            if !(0x80 <= b1 && b1 <= 0xbf) {
                proof {
                    assert(!valid_first_scalar(tail));
                }
                return false;
            }
            let cp: u32 = (((b0 & 0x1f) as u32) << 6u32) | ((b1 & 0x3f) as u32);
            proof {
                assert(cp == codepoint_width_2(b0, b1));
                assert(decode_first_codepoint(tail) == cp);
            }
            if cp < 0x80 {
                // Overlong: two bytes for a one-byte codepoint.
                proof {
                    assert(!valid_first_scalar(tail));
                }
                return false;
            }
            if 0xd800 <= cp && cp <= 0xdfff {
                proof {
                    assert(!valid_first_scalar(tail));
                }
                return false;
            }
            proof {
                assert(valid_first_scalar(tail));
                assert(length_of_first_scalar(tail) == 2);
            }
            w = 2;
        } else if 0xe0 <= b0 && b0 <= 0xef {
            if n - i < 3 {
                proof {
                    assert(!valid_first_scalar(tail));
                }
                return false;
            }
            let b1 = bytes[i + 1];
            let b2 = bytes[i + 2];
            proof {
                assert(tail[1] == bytes@[i + 1]);
                assert(tail[2] == bytes@[i + 2]);
            }
            if !(0x80 <= b1 && b1 <= 0xbf) || !(0x80 <= b2 && b2 <= 0xbf) {
                proof {
                    assert(!valid_first_scalar(tail));
                }
                return false;
            }
            let cp: u32 = (((b0 & 0x0f) as u32) << 12u32) | (((b1 & 0x3f) as u32) << 6u32) | ((b2
                & 0x3f) as u32);
            proof {
                assert(cp == codepoint_width_3(b0, b1, b2));
                assert(decode_first_codepoint(tail) == cp);
            }
            if cp < 0x800 {
                proof {
                    assert(!valid_first_scalar(tail));
                }
                return false;
            }
            if 0xd800 <= cp && cp <= 0xdfff {
                proof {
                    assert(!valid_first_scalar(tail));
                }
                return false;
            }
            proof {
                assert(valid_first_scalar(tail));
                assert(length_of_first_scalar(tail) == 3);
            }
            w = 3;
        } else if 0xf0 <= b0 && b0 <= 0xf7 {
            if n - i < 4 {
                proof {
                    assert(!valid_first_scalar(tail));
                }
                return false;
            }
            let b1 = bytes[i + 1];
            let b2 = bytes[i + 2];
            let b3 = bytes[i + 3];
            proof {
                assert(tail[1] == bytes@[i + 1]);
                assert(tail[2] == bytes@[i + 2]);
                assert(tail[3] == bytes@[i + 3]);
            }
            if !(0x80 <= b1 && b1 <= 0xbf) || !(0x80 <= b2 && b2 <= 0xbf) || !(0x80 <= b3 && b3
                <= 0xbf) {
                proof {
                    assert(!valid_first_scalar(tail));
                }
                return false;
            }
            let cp: u32 = (((b0 & 0x07) as u32) << 18u32) | (((b1 & 0x3f) as u32) << 12u32) | (((
            b2 & 0x3f) as u32) << 6u32) | ((b3 & 0x3f) as u32);
            proof {
                assert(cp == codepoint_width_4(b0, b1, b2, b3));
                assert(decode_first_codepoint(tail) == cp);
            }
            if !(0x10000 <= cp && cp <= 0x10ffff) {
                proof {
                    assert(!valid_first_scalar(tail));
                }
                return false;
            }
            if 0xd800 <= cp && cp <= 0xdfff {
                proof {
                    assert(!valid_first_scalar(tail));
                }
                return false;
            }
            proof {
                assert(valid_first_scalar(tail));
                assert(length_of_first_scalar(tail) == 4);
            }
            w = 4;
        } else {
            // 0x80..=0xbf: a stray continuation byte; 0xf8..=0xff: no
            // valid leading byte at all.
            proof {
                assert(!valid_first_scalar(tail));
            }
            return false;
        }
        proof {
            assert(pop_first_scalar(tail) =~= bytes@.skip(i as int + w as int));
            assert(valid_utf8(tail) == valid_utf8(bytes@.skip(i as int + w as int)));
        }
        i = i + w;
    }
    proof {
        assert(bytes@.skip(i as int).len() == 0);
    }
    true
}

} // verus!
