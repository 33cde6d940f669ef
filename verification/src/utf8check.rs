use vstd::prelude::*;

use vstd::utf8::{
    decode_first_codepoint, length_of_first_codepoint, not_overlong_encoding, not_surrogate,
    pop_first_scalar, valid_first_scalar, valid_leading_and_continuation_bytes_first_codepoint,
    valid_utf8,
};

verus! {

/// One step of validation: the suffix starting at `i` begins with a
/// well-formed scalar encoding of `width` bytes whose codepoint is `cp`, so
/// its validity reduces to the suffix `width` bytes further on.
proof fn lemma_valid_step(bytes: Seq<u8>, i: int, width: int, cp: u32)
    requires
        0 <= i,
        i + width <= bytes.len(),
        1 <= width <= 4,
        valid_leading_and_continuation_bytes_first_codepoint(bytes.skip(i)),
        length_of_first_codepoint(bytes.skip(i)) == width,
        decode_first_codepoint(bytes.skip(i)) == cp,
        not_overlong_encoding(cp, width),
        not_surrogate(cp),
    ensures
        valid_first_scalar(bytes.skip(i)),
        valid_utf8(bytes.skip(i)) == valid_utf8(bytes.skip(i + width)),
{
    assert(pop_first_scalar(bytes.skip(i)) =~= bytes.skip(i + width));
}

/// The suffix starting at `i` does not begin with a well-formed scalar, so
/// the whole suffix (and with it the whole input) is not valid UTF-8.
proof fn lemma_invalid_step(bytes: Seq<u8>, i: int)
    requires
        0 <= i < bytes.len(),
        !valid_first_scalar(bytes.skip(i)),
    ensures
        !valid_utf8(bytes.skip(i)),
{
    assert(bytes.skip(i).len() != 0);
}

/// Whether the bytes are a well-formed UTF-8 encoding: every position holds
/// a leading byte of width 1 to 4 followed by that many continuation bytes,
/// with no overlong encodings and no surrogate codepoints.
pub fn is_utf8(bytes: &Vec<u8>) -> (r: bool)
    ensures
        r == valid_utf8(bytes@),
{
    let n = bytes.len();
    proof {
        assert(bytes@.skip(0) =~= bytes@);
    }
    let mut i: usize = 0;
    while i < n
        invariant
            0 <= i <= n,
            n == bytes@.len(),
            valid_utf8(bytes@) == valid_utf8(bytes@.skip(i as int)),
        decreases n - i,
    {
        let ghost tail = bytes@.skip(i as int);
        proof {
            assert(tail[0] == bytes@[i as int]);
        }
        let b0 = bytes[i];
        if b0 <= 0x7f {
            let cp = b0 as u32;
            proof {
                assert(b0 & 0x7f == b0) by (bit_vector)
                    requires
                        b0 <= 0x7f,
                ;
                assert(decode_first_codepoint(tail) == cp);
                lemma_valid_step(bytes@, i as int, 1, cp);
            }
            i = i + 1;
        } else if 0xc0 <= b0 && b0 <= 0xdf {
            if n - i < 2 || !(0x80 <= bytes[i + 1] && bytes[i + 1] <= 0xbf) {
                proof {
                    if tail.len() >= 2 {
                        assert(tail[1] == bytes@[i + 1]);
                    }
                    lemma_invalid_step(bytes@, i as int);
                }
                return false;
            }
            let b1 = bytes[i + 1];
            let cp: u32 = (((b0 & 0x1f) as u32) << 6) | ((b1 & 0x3f) as u32);
            if cp < 0x80 {
                proof {
                    assert(tail[1] == bytes@[i + 1]);
                    assert(decode_first_codepoint(tail) == cp);
                    lemma_invalid_step(bytes@, i as int);
                }
                return false;
            }
            proof {
                assert(tail[1] == bytes@[i + 1]);
                assert(decode_first_codepoint(tail) == cp);
                assert((((b0 & 0x1f) as u32) << 6) | ((b1 & 0x3f) as u32) <= 0x7ff)
                    by (bit_vector);
                lemma_valid_step(bytes@, i as int, 2, cp);
            }
            i = i + 2;
        } else if 0xe0 <= b0 && b0 <= 0xef {
            if n - i < 3 || !(0x80 <= bytes[i + 1] && bytes[i + 1] <= 0xbf) || !(0x80 <= bytes[i
                + 2] && bytes[i + 2] <= 0xbf) {
                proof {
                    if tail.len() >= 2 {
                        assert(tail[1] == bytes@[i + 1]);
                    }
                    if tail.len() >= 3 {
                        assert(tail[2] == bytes@[i + 2]);
                    }
                    lemma_invalid_step(bytes@, i as int);
                }
                return false;
            }
            let b1 = bytes[i + 1];
            let b2 = bytes[i + 2];
            let cp: u32 = (((b0 & 0x0f) as u32) << 12) | (((b1 & 0x3f) as u32) << 6) | ((b2
                & 0x3f) as u32);
            if cp < 0x800 || (0xd800 <= cp && cp <= 0xdfff) {
                proof {
                    assert(tail[1] == bytes@[i + 1]);
                    assert(tail[2] == bytes@[i + 2]);
                    assert(decode_first_codepoint(tail) == cp);
                    lemma_invalid_step(bytes@, i as int);
                }
                return false;
            }
            proof {
                assert(tail[1] == bytes@[i + 1]);
                assert(tail[2] == bytes@[i + 2]);
                assert(decode_first_codepoint(tail) == cp);
                lemma_valid_step(bytes@, i as int, 3, cp);
            }
            i = i + 3;
        } else if 0xf0 <= b0 && b0 <= 0xf7 {
            if n - i < 4 || !(0x80 <= bytes[i + 1] && bytes[i + 1] <= 0xbf) || !(0x80 <= bytes[i
                + 2] && bytes[i + 2] <= 0xbf) || !(0x80 <= bytes[i + 3] && bytes[i + 3] <= 0xbf) {
                proof {
                    if tail.len() >= 2 {
                        assert(tail[1] == bytes@[i + 1]);
                    }
                    if tail.len() >= 3 {
                        assert(tail[2] == bytes@[i + 2]);
                    }
                    if tail.len() >= 4 {
                        assert(tail[3] == bytes@[i + 3]);
                    }
                    lemma_invalid_step(bytes@, i as int);
                }
                return false;
            }
            let b1 = bytes[i + 1];
            let b2 = bytes[i + 2];
            let b3 = bytes[i + 3];
            let cp: u32 = (((b0 & 0x07) as u32) << 18) | (((b1 & 0x3f) as u32) << 12) | (((b2
                & 0x3f) as u32) << 6) | ((b3 & 0x3f) as u32);
            if cp < 0x10000 || cp > 0x10ffff {
                proof {
                    assert(tail[1] == bytes@[i + 1]);
                    assert(tail[2] == bytes@[i + 2]);
                    assert(tail[3] == bytes@[i + 3]);
                    assert(decode_first_codepoint(tail) == cp);
                    lemma_invalid_step(bytes@, i as int);
                }
                return false;
            }
            proof {
                assert(tail[1] == bytes@[i + 1]);
                assert(tail[2] == bytes@[i + 2]);
                assert(tail[3] == bytes@[i + 3]);
                assert(decode_first_codepoint(tail) == cp);
                lemma_valid_step(bytes@, i as int, 4, cp);
            }
            i = i + 4;
        } else {
            // A stray continuation byte (0x80..=0xbf) or a byte above 0xf7
            // can lead no scalar.
            proof {
                lemma_invalid_step(bytes@, i as int);
            }
            return false;
        }
    }
    proof {
        assert(bytes@.skip(n as int) =~= Seq::<u8>::empty());
    }
    true
}

} // verus!
