//! Deterministic text renderings of numeric identifiers.

use vstd::prelude::*;
use vstd::string::StringExecFns;

verus! {

/// The character for a single decimal digit.
pub open spec fn dec_digit(d: int) -> char {
    if d == 0 {
        '0'
    } else if d == 1 {
        '1'
    } else if d == 2 {
        '2'
    } else if d == 3 {
        '3'
    } else if d == 4 {
        '4'
    } else if d == 5 {
        '5'
    } else if d == 6 {
        '6'
    } else if d == 7 {
        '7'
    } else if d == 8 {
        '8'
    } else {
        '9'
    }
}

/// Decimal rendering of `n`, most significant digit first, without leading
/// zeros (a lone `'0'` for zero).
pub open spec fn dec_chars(n: nat) -> Seq<char>
    decreases n,
{
    if n < 10 {
        seq![dec_digit(n as int)]
    } else {
        dec_chars(n / 10).push(dec_digit((n % 10) as int))
    }
}

fn dec_digit_str(d: u64) -> (r: &'static str)
    requires
        d < 10,
    ensures
        r@ == seq![dec_digit(d as int)],
{
    proof {
        reveal_strlit("0");
        reveal_strlit("1");
        reveal_strlit("2");
        reveal_strlit("3");
        reveal_strlit("4");
        reveal_strlit("5");
        reveal_strlit("6");
        reveal_strlit("7");
        reveal_strlit("8");
        reveal_strlit("9");
    }
    if d == 0 {
        "0"
    } else if d == 1 {
        "1"
    } else if d == 2 {
        "2"
    } else if d == 3 {
        "3"
    } else if d == 4 {
        "4"
    } else if d == 5 {
        "5"
    } else if d == 6 {
        "6"
    } else if d == 7 {
        "7"
    } else if d == 8 {
        "8"
    } else {
        "9"
    }
}

/// Render `n` in decimal.
pub fn u64_to_dec(n: u64) -> (r: String)
    ensures
        r@ == dec_chars(n as nat),
    decreases n,
{
    if n < 10 {
        dec_digit_str(n).to_owned()
    } else {
        let mut s = u64_to_dec(n / 10);
        s.append(dec_digit_str(n % 10));
        proof {
            assert(s@ =~= dec_chars(n as nat));
        }
        s
    }
}

/// The character for a single hexadecimal digit.
pub open spec fn hex_digit(d: int) -> char {
    if d < 10 {
        dec_digit(d)
    } else if d == 10 {
        'a'
    } else if d == 11 {
        'b'
    } else if d == 12 {
        'c'
    } else if d == 13 {
        'd'
    } else if d == 14 {
        'e'
    } else {
        'f'
    }
}

/// Fixed-width hexadecimal rendering of the low `k` nibbles of `v`, most
/// significant nibble first, zero-padded.
pub open spec fn hex_chars(v: int, k: nat) -> Seq<char>
    decreases k,
{
    if k == 0 {
        Seq::empty()
    } else {
        hex_chars(v / 16, (k - 1) as nat).push(hex_digit(v % 16))
    }
}

fn hex_digit_str(d: u128) -> (r: &'static str)
    requires
        d < 16,
    ensures
        r@ == seq![hex_digit(d as int)],
{
    proof {
        reveal_strlit("a");
        reveal_strlit("b");
        reveal_strlit("c");
        reveal_strlit("d");
        reveal_strlit("e");
        reveal_strlit("f");
    }
    if d < 10 {
        dec_digit_str(d as u64)
    } else if d == 10 {
        "a"
    } else if d == 11 {
        "b"
    } else if d == 12 {
        "c"
    } else if d == 13 {
        "d"
    } else if d == 14 {
        "e"
    } else {
        "f"
    }
}

/// Render the low `k` nibbles of `v` in zero-padded hexadecimal.
pub fn hex_fixed(v: u128, k: usize) -> (r: String)
    ensures
        r@ == hex_chars(v as int, k as nat),
    decreases k,
{
    if k == 0 {
        String::new()
    } else {
        let mut s = hex_fixed(v / 16, k - 1);
        s.append(hex_digit_str(v % 16));
        proof {
            assert(s@ =~= hex_chars(v as int, k as nat));
        }
        s
    }
}

/// Canonical hyphenated text of a 128-bit identifier, in the usual
/// 8-4-4-4-12 hexadecimal grouping.
pub open spec fn uuid_chars(v: int) -> Seq<char> {
    hex_chars(v / 0x1000000000000000000000000, 8) + seq!['-'] + hex_chars(
        v / 0x100000000000000000000,
        4,
    ) + seq!['-'] + hex_chars(v / 0x10000000000000000, 4) + seq!['-'] + hex_chars(
        v / 0x1000000000000,
        4,
    ) + seq!['-'] + hex_chars(v, 12)
}

/// Render a 128-bit identifier as hyphenated hexadecimal text.
pub fn uuid_text(v: u128) -> (r: String)
    ensures
        r@ == uuid_chars(v as int),
{
    proof {
        reveal_strlit("-");
    }
    let mut s = hex_fixed(v / 0x1000000000000000000000000, 8);
    s.append("-");
    let g2 = hex_fixed(v / 0x100000000000000000000, 4);
    s.append(g2.as_str());
    s.append("-");
    let g3 = hex_fixed(v / 0x10000000000000000, 4);
    s.append(g3.as_str());
    s.append("-");
    let g4 = hex_fixed(v / 0x1000000000000, 4);
    s.append(g4.as_str());
    s.append("-");
    let g5 = hex_fixed(v, 12);
    s.append(g5.as_str());
    proof {
        assert(s@ =~= uuid_chars(v as int));
    }
    s
}

} // verus!
