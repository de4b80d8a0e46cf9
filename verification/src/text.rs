//! Small verified text helpers: exact string comparison over character views,
//! and the upper-case hexadecimal and flag-bit digits used by the CPU's
//! diagnostic rendering.

use vstd::prelude::*;
use vstd::string::StrSliceExecFns;
use vstd::string::StringExecFns;

verus! {

/// The upper-case hexadecimal digit for a nibble.
pub open spec fn spec_hex_char(nibble: u8) -> char {
    if nibble == 0x0 {
        '0'
    } else if nibble == 0x1 {
        '1'
    } else if nibble == 0x2 {
        '2'
    } else if nibble == 0x3 {
        '3'
    } else if nibble == 0x4 {
        '4'
    } else if nibble == 0x5 {
        '5'
    } else if nibble == 0x6 {
        '6'
    } else if nibble == 0x7 {
        '7'
    } else if nibble == 0x8 {
        '8'
    } else if nibble == 0x9 {
        '9'
    } else if nibble == 0xA {
        'A'
    } else if nibble == 0xB {
        'B'
    } else if nibble == 0xC {
        'C'
    } else if nibble == 0xD {
        'D'
    } else if nibble == 0xE {
        'E'
    } else {
        'F'
    }
}

/// The two upper-case hexadecimal digits of a byte, high nibble first.
pub open spec fn spec_hex2(value: u8) -> Seq<char> {
    seq![spec_hex_char(value >> 4), spec_hex_char(value & 0xF)]
}

/// The four upper-case hexadecimal digits of a 16-bit value, high byte first.
pub open spec fn spec_hex4(value: u16) -> Seq<char> {
    spec_hex2(((value >> 8) & 0xFF) as u8) + spec_hex2((value & 0xFF) as u8)
}

/// '1' for a set flag bit, '0' for a clear one.
pub open spec fn spec_bit_char(bit: bool) -> char {
    if bit {
        '1'
    } else {
        '0'
    }
}

/// The nibbles and bytes a value is split into for rendering all fit their
/// narrower widths.
proof fn lemma_split_bounds(byte: u8, word: u16)
    by (bit_vector)
    ensures
        byte >> 4 < 0x10,
        byte & 0xF < 0x10,
        (word >> 8) & 0xFF < 0x100,
        word & 0xFF < 0x100,
{
}

/// One upper-case hexadecimal digit, as a one-character string.
fn hex_char_str(nibble: u8) -> (r: &'static str)
    requires
        nibble < 0x10,
    ensures
        r@ == seq![spec_hex_char(nibble)],
{
    proof {
        reveal_strlit("0");
        reveal_strlit("1");
        reveal_strlit("2");
        reveal_strlit("3");
        reveal_strlit("4");
        reveal_strlit("5");
        reveal_strlit("6");
        reveal_strlit("7");
        reveal_strlit("8");
        reveal_strlit("9");
        reveal_strlit("A");
        reveal_strlit("B");
        reveal_strlit("C");
        reveal_strlit("D");
        reveal_strlit("E");
        reveal_strlit("F");
    }
    let r = if nibble == 0x0 {
        "0"
    } else if nibble == 0x1 {
        "1"
    } else if nibble == 0x2 {
        "2"
    } else if nibble == 0x3 {
        "3"
    } else if nibble == 0x4 {
        "4"
    } else if nibble == 0x5 {
        "5"
    } else if nibble == 0x6 {
        "6"
    } else if nibble == 0x7 {
        "7"
    } else if nibble == 0x8 {
        "8"
    } else if nibble == 0x9 {
        "9"
    } else if nibble == 0xA {
        "A"
    } else if nibble == 0xB {
        "B"
    } else if nibble == 0xC {
        "C"
    } else if nibble == 0xD {
        "D"
    } else if nibble == 0xE {
        "E"
    } else {
        "F"
    };
    proof {
        assert(r@ =~= seq![spec_hex_char(nibble)]);
    }
    r
}

/// '1' or '0', as a one-character string.
pub fn bit_str(bit: bool) -> (r: &'static str)
    ensures
        r@ == seq![spec_bit_char(bit)],
{
    proof {
        reveal_strlit("0");
        reveal_strlit("1");
    }
    let r = if bit {
        "1"
    } else {
        "0"
    };
    proof {
        assert(r@ =~= seq![spec_bit_char(bit)]);
    }
    r
}

/// A byte as two upper-case hexadecimal digits.
pub fn hex2(value: u8) -> (r: String)
    ensures
        r@ == spec_hex2(value),
{
    proof {
        lemma_split_bounds(value, 0);
    }
    let mut r = String::new();
    r.append(hex_char_str(value >> 4));
    r.append(hex_char_str(value & 0xF));
    proof {
        assert(r@ =~= spec_hex2(value));
    }
    r
}

/// A 16-bit value as four upper-case hexadecimal digits.
pub fn hex4(value: u16) -> (r: String)
    ensures
        r@ == spec_hex4(value),
{
    proof {
        lemma_split_bounds(0, value);
    }
    let mut r = hex2(((value >> 8) & 0xFF) as u8);
    let low = hex2((value & 0xFF) as u8);
    r.append(low.as_str());
    proof {
        assert(r@ =~= spec_hex4(value));
    }
    r
}

/// Exact string equality, decided character by character over the views.
pub fn str_eq(a: &str, b: &str) -> (r: bool)
    ensures
        r == (a@ == b@),
{
    let a_len = a.unicode_len();
    let b_len = b.unicode_len();
    if a_len != b_len {
        return false;
    }
    let mut i: usize = 0;
    while i < a_len
        invariant
            0 <= i <= a_len,
            a_len == a@.len(),
            b_len == b@.len(),
            a_len == b_len,
            forall|j: int| 0 <= j < i ==> a@[j] == b@[j],
        decreases a_len - i,
    {
        if a.get_char(i) != b.get_char(i) {
            return false;
        }
        i = i + 1;
    }
    proof {
        assert(a@ =~= b@);
    }
    true
}

} // verus!
