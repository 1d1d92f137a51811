//! A byte-level definition of well-formed UTF-8, with a verified checker.
//!
//! Identifier fields of a volume descriptor header are five raw bytes that
//! must decode as text before they can be compared against the known tags;
//! a field that is not well-formed UTF-8 is reported as an encoding error,
//! distinct from an unknown identifier.

use vstd::prelude::*;

verus! {

/// A UTF-8 continuation byte: `10xxxxxx`.
pub open spec fn is_utf8_cont(b: u8) -> bool {
    0x80 <= b <= 0xBF
}

/// Well-formed UTF-8, stated over the byte ranges of the encoding: each code
/// point is one to four bytes, the first byte fixes the length, and overlong
/// forms, surrogates and values past U+10FFFF are excluded by the ranges
/// allowed for the second byte.
pub open spec fn is_utf8(s: Seq<u8>) -> bool
    decreases s.len(),
{
    if s.len() == 0 {
        true
    } else {
        let b0 = s[0];
        if b0 < 0x80 {
            is_utf8(s.skip(1))
        } else if 0xC2 <= b0 && b0 <= 0xDF {
            s.len() >= 2 && is_utf8_cont(s[1]) && is_utf8(s.skip(2))
        } else if b0 == 0xE0 {
            s.len() >= 3 && 0xA0 <= s[1] <= 0xBF && is_utf8_cont(s[2]) && is_utf8(s.skip(3))
        } else if 0xE1 <= b0 && b0 <= 0xEC || b0 == 0xEE || b0 == 0xEF {
            s.len() >= 3 && is_utf8_cont(s[1]) && is_utf8_cont(s[2]) && is_utf8(s.skip(3))
        } else if b0 == 0xED {
            s.len() >= 3 && 0x80 <= s[1] <= 0x9F && is_utf8_cont(s[2]) && is_utf8(s.skip(3))
        } else if b0 == 0xF0 {
            s.len() >= 4 && 0x90 <= s[1] <= 0xBF && is_utf8_cont(s[2]) && is_utf8_cont(s[3])
                && is_utf8(s.skip(4))
        } else if 0xF1 <= b0 && b0 <= 0xF3 {
            s.len() >= 4 && is_utf8_cont(s[1]) && is_utf8_cont(s[2]) && is_utf8_cont(s[3])
                && is_utf8(s.skip(4))
        } else if b0 == 0xF4 {
            s.len() >= 4 && 0x80 <= s[1] <= 0x8F && is_utf8_cont(s[2]) && is_utf8_cont(s[3])
                && is_utf8(s.skip(4))
        } else {
            false
        }
    }
}

/// A sequence of bytes all below 0x80 is well-formed UTF-8.
pub proof fn lemma_ascii_is_utf8(s: Seq<u8>)
    requires
        forall|k: int| 0 <= k < s.len() ==> s[k] < 0x80,
    ensures
        is_utf8(s),
    decreases s.len(),
{
    if s.len() > 0 {
        assert(forall|k: int| 0 <= k < s.skip(1).len() ==> s.skip(1)[k] < 0x80);
        lemma_ascii_is_utf8(s.skip(1));
    }
}

/// Decides whether `v` is well-formed UTF-8.
pub fn is_utf8_bytes(v: &[u8]) -> (r: bool)
    ensures
        r == is_utf8(v@),
{
    let n = v.len();
    let mut i: usize = 0;
    assert(v@.skip(0) =~= v@);
    loop
        invariant
            i <= n,
            n == v@.len(),
            is_utf8(v@) == is_utf8(v@.skip(i as int)),
        decreases n - i,
    {
        if i == n {
            assert(v@.skip(i as int) =~= Seq::<u8>::empty());
            return true;
        }
        let ghost ss = v@.skip(i as int);
        assert(ss[0] == v@[i as int]);
        let rem = n - i;
        let b0 = v[i];
        if b0 < 0x80 {
            assert(ss.skip(1) =~= v@.skip(i + 1));
            i = i + 1;
        } else if 0xC2 <= b0 && b0 <= 0xDF {
            if rem < 2 {
                return false;
            }
            if !(0x80 <= v[i + 1] && v[i + 1] <= 0xBF) {
                return false;
            }
            assert(ss.skip(2) =~= v@.skip(i + 2));
            i = i + 2;
        } else if b0 == 0xE0 {
            if rem < 3 {
                return false;
            }
            if !(0xA0 <= v[i + 1] && v[i + 1] <= 0xBF) {
                return false;
            }
            if !(0x80 <= v[i + 2] && v[i + 2] <= 0xBF) {
                return false;
            }
            assert(ss.skip(3) =~= v@.skip(i + 3));
            i = i + 3;
        } else if 0xE1 <= b0 && b0 <= 0xEC || b0 == 0xEE || b0 == 0xEF {
            if rem < 3 {
                return false;
            }
            if !(0x80 <= v[i + 1] && v[i + 1] <= 0xBF) {
                return false;
            }
            if !(0x80 <= v[i + 2] && v[i + 2] <= 0xBF) {
                return false;
            }
            assert(ss.skip(3) =~= v@.skip(i + 3));
            i = i + 3;
        } else if b0 == 0xED {
            if rem < 3 {
                return false;
            }
            if !(0x80 <= v[i + 1] && v[i + 1] <= 0x9F) {
                return false;
            }
            if !(0x80 <= v[i + 2] && v[i + 2] <= 0xBF) {
                return false;
            }
            assert(ss.skip(3) =~= v@.skip(i + 3));
            i = i + 3;
        } else if b0 == 0xF0 {
            if rem < 4 {
                return false;
            }
            if !(0x90 <= v[i + 1] && v[i + 1] <= 0xBF) {
                return false;
            }
            if !(0x80 <= v[i + 2] && v[i + 2] <= 0xBF) {
                return false;
            }
            if !(0x80 <= v[i + 3] && v[i + 3] <= 0xBF) {
                return false;
            }
            assert(ss.skip(4) =~= v@.skip(i + 4));
            i = i + 4;
        } else if 0xF1 <= b0 && b0 <= 0xF3 {
            if rem < 4 {
                return false;
            }
            if !(0x80 <= v[i + 1] && v[i + 1] <= 0xBF) {
                return false;
            }
            if !(0x80 <= v[i + 2] && v[i + 2] <= 0xBF) {
                return false;
            }
            if !(0x80 <= v[i + 3] && v[i + 3] <= 0xBF) {
                return false;
            }
            assert(ss.skip(4) =~= v@.skip(i + 4));
            i = i + 4;
        } else if b0 == 0xF4 {
            if rem < 4 {
                return false;
            }
            if !(0x80 <= v[i + 1] && v[i + 1] <= 0x8F) {
                return false;
            }
            if !(0x80 <= v[i + 2] && v[i + 2] <= 0xBF) {
                return false;
            }
            if !(0x80 <= v[i + 3] && v[i + 3] <= 0xBF) {
                return false;
            }
            assert(ss.skip(4) =~= v@.skip(i + 4));
            i = i + 4;
        } else {
            return false;
        }
    }
}

} // verus!
