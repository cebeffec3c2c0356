//! UTF-8 validation of byte sequences, and building the line that a valid
//! sequence prints as.

use vstd::prelude::*;

verus! {

/// Whether `b` is a UTF-8 continuation byte.
pub open spec fn is_cont(b: u8) -> bool {
    0x80 <= b <= 0xBF
}

/// Whether the bytes of `s` from position `i` on encode a sequence of
/// Unicode scalar values, per the UTF-8 table: one byte below 0x80; a
/// two-byte lead in 0xC2..=0xDF; three-byte leads 0xE0..=0xEF, with the
/// first continuation restricted after 0xE0 (overlong forms) and 0xED
/// (surrogates); four-byte leads 0xF0..=0xF4, with the first continuation
/// restricted after 0xF0 (overlong forms) and 0xF4 (values past U+10FFFF).
pub open spec fn utf8_valid_from(s: Seq<u8>, i: int) -> bool
    decreases s.len() - i,
{
    if i >= s.len() {
        true
    } else {
        let b0 = s[i];
        if b0 < 0x80 {
            utf8_valid_from(s, i + 1)
        } else if 0xC2 <= b0 <= 0xDF {
            i + 2 <= s.len() && is_cont(s[i + 1]) && utf8_valid_from(s, i + 2)
        } else if b0 == 0xE0 {
            i + 3 <= s.len() && 0xA0 <= s[i + 1] <= 0xBF && is_cont(s[i + 2])
                && utf8_valid_from(s, i + 3)
        } else if 0xE1 <= b0 <= 0xEC || 0xEE <= b0 <= 0xEF {
            i + 3 <= s.len() && is_cont(s[i + 1]) && is_cont(s[i + 2])
                && utf8_valid_from(s, i + 3)
        } else if b0 == 0xED {
            i + 3 <= s.len() && 0x80 <= s[i + 1] <= 0x9F && is_cont(s[i + 2])
                && utf8_valid_from(s, i + 3)
        } else if b0 == 0xF0 {
            i + 4 <= s.len() && 0x90 <= s[i + 1] <= 0xBF && is_cont(s[i + 2])
                && is_cont(s[i + 3]) && utf8_valid_from(s, i + 4)
        } else if 0xF1 <= b0 <= 0xF3 {
            i + 4 <= s.len() && is_cont(s[i + 1]) && is_cont(s[i + 2])
                && is_cont(s[i + 3]) && utf8_valid_from(s, i + 4)
        } else if b0 == 0xF4 {
            i + 4 <= s.len() && 0x80 <= s[i + 1] <= 0x8F && is_cont(s[i + 2])
                && is_cont(s[i + 3]) && utf8_valid_from(s, i + 4)
        } else {
            false
        }
    }
}

/// Whether `s` is valid UTF-8.
pub open spec fn is_utf8(s: Seq<u8>) -> bool {
    utf8_valid_from(s, 0)
}

/// Decides whether `bytes` is valid UTF-8.
pub fn is_utf8_bytes(bytes: &Vec<u8>) -> (r: bool)
    ensures
        r == is_utf8(bytes@),
{
    let n = bytes.len();
    let mut i: usize = 0;
    while i < n
        invariant
            i <= n,
            n == bytes@.len(),
            is_utf8(bytes@) == utf8_valid_from(bytes@, i as int),
        decreases n - i,
    {
        let b0 = bytes[i];
        let rest = n - i;
        if b0 < 0x80 {
            i = i + 1;
        } else if 0xC2 <= b0 && b0 <= 0xDF {
            if rest < 2 || !is_cont_byte(bytes[i + 1]) {
                return false;
            }
            i = i + 2;
        } else if 0xE0 <= b0 && b0 <= 0xEF {
            if rest < 3 || !is_cont_byte(bytes[i + 2]) {
                return false;
            }
            let b1 = bytes[i + 1];
            let ok = if b0 == 0xE0 {
                0xA0 <= b1 && b1 <= 0xBF
            } else if b0 == 0xED {
                0x80 <= b1 && b1 <= 0x9F
            } else {
                is_cont_byte(b1)
            };
            if !ok {
                return false;
            }
            i = i + 3;
        } else if 0xF0 <= b0 && b0 <= 0xF4 {
            if rest < 4 || !is_cont_byte(bytes[i + 2]) || !is_cont_byte(bytes[i + 3]) {
                return false;
            }
            let b1 = bytes[i + 1];
            let ok = if b0 == 0xF0 {
                0x90 <= b1 && b1 <= 0xBF
            } else if b0 == 0xF4 {
                0x80 <= b1 && b1 <= 0x8F
            } else {
                is_cont_byte(b1)
            };
            if !ok {
                return false;
            }
            i = i + 4;
        } else {
            return false;
        }
    }
    true
}

/// Decides whether `b` is a UTF-8 continuation byte.
fn is_cont_byte(b: u8) -> (r: bool)
    ensures
        r == is_cont(b),
{
    0x80 <= b && b <= 0xBF
}

/// For valid UTF-8 input, the very bytes to print: the input followed by
/// one newline byte. For any other input, `None`: nothing is printed.
pub fn text_line(bytes: &Vec<u8>) -> (r: Option<Vec<u8>>)
    ensures
        is_utf8(bytes@) ==> (r matches Some(v) && v@ == bytes@ + seq![10u8]),
        !is_utf8(bytes@) ==> r is None,
{
    if !is_utf8_bytes(bytes) {
        return None;
    }
    let mut out: Vec<u8> = Vec::new();
    let mut i: usize = 0;
    while i < bytes.len()
        invariant
            i <= bytes@.len(),
            out@ == bytes@.subrange(0, i as int),
        decreases bytes@.len() - i,
    {
        let b = bytes[i];
        out.push(b);
        i = i + 1;
        proof {
            assert(bytes@.subrange(0, i as int) =~= bytes@.subrange(0, i - 1).push(b));
        }
    }
    out.push(10u8);
    proof {
        assert(bytes@.subrange(0, bytes@.len() as int) =~= bytes@);
        assert(out@ =~= bytes@ + seq![10u8]);
    }
    Some(out)
}

} // verus!
