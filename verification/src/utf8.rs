//! Validity of a byte sequence as UTF-8 encoded text.
//!
//! Boundary-supplied path arguments arrive as untrusted byte sequences and
//! must be validated before use. `is_utf8` is the mathematical definition of
//! well-formed UTF-8 (shortest-form sequences only, no surrogate code
//! points, nothing above U+10FFFF), and `is_valid_utf8` is the executable
//! check, proved to decide exactly that definition.

use vstd::prelude::*;

verus! {

/// A continuation byte of a multi-byte sequence.
pub open spec fn is_cont_byte(b: u8) -> bool {
    0x80 <= b && b <= 0xBF
}

/// The suffix of `s` starting at `i` is a well-formed UTF-8 sequence.
///
/// Each arm is one row of the Unicode well-formed byte-sequence table:
/// ASCII; two-byte leads C2..DF; the three-byte leads with their restricted
/// second bytes (E0 excludes overlong forms, ED excludes surrogates); and
/// the four-byte leads (F0 excludes overlong forms, F4 caps the range at
/// U+10FFFF). Every other lead byte, and a truncated or malformed tail,
/// makes the suffix invalid.
pub open spec fn is_utf8_from(s: Seq<u8>, i: int) -> bool
    decreases s.len() - i,
{
    if i < 0 {
        false
    } else if i >= s.len() {
        true
    } else {
        let b0 = s[i];
        if b0 < 0x80 {
            is_utf8_from(s, i + 1)
        } else if 0xC2 <= b0 && b0 <= 0xDF {
            i + 2 <= s.len() && is_cont_byte(s[i + 1]) && is_utf8_from(s, i + 2)
        } else if b0 == 0xE0 {
            i + 3 <= s.len() && 0xA0 <= s[i + 1] && s[i + 1] <= 0xBF && is_cont_byte(s[i + 2])
                && is_utf8_from(s, i + 3)
        } else if b0 == 0xED {
            i + 3 <= s.len() && 0x80 <= s[i + 1] && s[i + 1] <= 0x9F && is_cont_byte(s[i + 2])
                && is_utf8_from(s, i + 3)
        } else if 0xE1 <= b0 && b0 <= 0xEF {
            i + 3 <= s.len() && is_cont_byte(s[i + 1]) && is_cont_byte(s[i + 2])
                && is_utf8_from(s, i + 3)
        } else if b0 == 0xF0 {
            i + 4 <= s.len() && 0x90 <= s[i + 1] && s[i + 1] <= 0xBF && is_cont_byte(s[i + 2])
                && is_cont_byte(s[i + 3]) && is_utf8_from(s, i + 4)
        } else if 0xF1 <= b0 && b0 <= 0xF3 {
            i + 4 <= s.len() && is_cont_byte(s[i + 1]) && is_cont_byte(s[i + 2])
                && is_cont_byte(s[i + 3]) && is_utf8_from(s, i + 4)
        } else if b0 == 0xF4 {
            i + 4 <= s.len() && 0x80 <= s[i + 1] && s[i + 1] <= 0x8F && is_cont_byte(s[i + 2])
                && is_cont_byte(s[i + 3]) && is_utf8_from(s, i + 4)
        } else {
            false
        }
    }
}

/// `s` is a well-formed UTF-8 sequence.
pub open spec fn is_utf8(s: Seq<u8>) -> bool {
    is_utf8_from(s, 0)
}

/// Decides whether `bytes` is well-formed UTF-8.
pub fn is_valid_utf8(bytes: &Vec<u8>) -> (r: bool)
    ensures
        r == is_utf8(bytes@),
{
    let n = bytes.len();
    let mut i: usize = 0;
    while i < n
        invariant
            n == bytes.len(),
            i <= n,
            is_utf8(bytes@) == is_utf8_from(bytes@, i as int),
        decreases n - i,
    {
        let b0 = bytes[i];
        let rem: usize = n - i;
        if b0 < 0x80 {
            i = i + 1;
        } else if 0xC2 <= b0 && b0 <= 0xDF {
            if rem < 2 || !is_cont(bytes[i + 1]) {
                return false;
            }
            i = i + 2;
        } else if b0 == 0xE0 {
            if rem < 3 || !(0xA0 <= bytes[i + 1] && bytes[i + 1] <= 0xBF)
                || !is_cont(bytes[i + 2]) {
                return false;
            }
            i = i + 3;
        } else if b0 == 0xED {
            if rem < 3 || !(0x80 <= bytes[i + 1] && bytes[i + 1] <= 0x9F)
                || !is_cont(bytes[i + 2]) {
                return false;
            }
            i = i + 3;
        } else if 0xE1 <= b0 && b0 <= 0xEF {
            if rem < 3 || !is_cont(bytes[i + 1]) || !is_cont(bytes[i + 2]) {
                return false;
            }
            i = i + 3;
        } else if b0 == 0xF0 {
            if rem < 4 || !(0x90 <= bytes[i + 1] && bytes[i + 1] <= 0xBF)
                || !is_cont(bytes[i + 2]) || !is_cont(bytes[i + 3]) {
                return false;
            }
            i = i + 4;
        } else if 0xF1 <= b0 && b0 <= 0xF3 {
            if rem < 4 || !is_cont(bytes[i + 1]) || !is_cont(bytes[i + 2])
                || !is_cont(bytes[i + 3]) {
                return false;
            }
            i = i + 4;
        } else if b0 == 0xF4 {
            if rem < 4 || !(0x80 <= bytes[i + 1] && bytes[i + 1] <= 0x8F)
                || !is_cont(bytes[i + 2]) || !is_cont(bytes[i + 3]) {
                return false;
            }
            i = i + 4;
        } else {
            return false;
        }
    }
    true
}

/// Executable check for a continuation byte.
fn is_cont(b: u8) -> (r: bool)
    ensures
        r == is_cont_byte(b),
{
    0x80 <= b && b <= 0xBF
}

} // verus!
