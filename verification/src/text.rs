//! Verified plain-text number formatting.
//!
//! The renderer needs decimal integers, six-digit hexadecimal colors, and
//! fixed-point pixel coordinates (an integer count of 1/62 pixel, printed as a
//! decimal with five fractional digits when the fraction is not zero).

use vstd::prelude::*;
use vstd::string::StringExecFns;

verus! {

/// The decimal digit character for `d` in 0..=9.
pub open spec fn spec_digit(d: int) -> char {
    if d == 0 {
        '0'
    } else if d == 1 {
        '1'
    } else if d == 2 {
        '2'
    } else if d == 3 {
        '3'
    } else if d == 4 {
        '4'
    } else if d == 5 {
        '5'
    } else if d == 6 {
        '6'
    } else if d == 7 {
        '7'
    } else if d == 8 {
        '8'
    } else {
        '9'
    }
}

/// The hexadecimal digit character for `d` in 0..=15.
pub open spec fn spec_hex_digit(d: int) -> char {
    if d < 10 {
        spec_digit(d)
    } else if d == 10 {
        'a'
    } else if d == 11 {
        'b'
    } else if d == 12 {
        'c'
    } else if d == 13 {
        'd'
    } else if d == 14 {
        'e'
    } else {
        'f'
    }
}

/// Decimal text of a nonnegative integer, most significant digit first.
pub open spec fn spec_dec(n: nat) -> Seq<char>
    decreases n,
{
    if n < 10 {
        seq![spec_digit(n as int)]
    } else {
        spec_dec(n / 10).push(spec_digit((n % 10) as int))
    }
}

/// `k` hexadecimal digits of `n`, most significant first (zero padded).
pub open spec fn spec_hex(n: nat, k: nat) -> Seq<char>
    decreases k,
{
    if k == 0 {
        Seq::empty()
    } else {
        spec_hex(n / 16, (k - 1) as nat).push(spec_hex_digit((n % 16) as int))
    }
}

/// `k` decimal digits of the fraction `r / 62`, truncated.
pub open spec fn spec_frac62(r: nat, k: nat) -> Seq<char>
    decreases k,
{
    if k == 0 {
        Seq::empty()
    } else {
        seq![spec_digit((r * 10 / 62) as int)] + spec_frac62((r * 10) % 62, (k - 1) as nat)
    }
}

/// Text of a coordinate held in 1/62-pixel units: a plain decimal when whole,
/// otherwise a decimal point and five fractional digits; negative values get
/// a leading minus sign.
pub open spec fn spec_px(v: int) -> Seq<char> {
    if v < 0 {
        seq!['-'] + spec_px_mag((-v) as nat)
    } else {
        spec_px_mag(v as nat)
    }
}

/// Text of a nonnegative 1/62-pixel quantity.
pub open spec fn spec_px_mag(v: nat) -> Seq<char> {
    if v % 62 == 0 {
        spec_dec(v / 62)
    } else {
        spec_dec(v / 62) + seq!['.'] + spec_frac62(v % 62, 5)
    }
}

/// Appends one decimal digit character.
fn append_digit(s: &mut String, d: u64)
    requires
        d < 10,
    ensures
        final(s)@ == old(s)@ + seq![spec_digit(d as int)],
{
    let c: &str = if d == 0 {
        "0"
    } else if d == 1 {
        "1"
    } else if d == 2 {
        "2"
    } else if d == 3 {
        "3"
    } else if d == 4 {
        "4"
    } else if d == 5 {
        "5"
    } else if d == 6 {
        "6"
    } else if d == 7 {
        "7"
    } else if d == 8 {
        "8"
    } else {
        "9"
    };
    proof {
        reveal_strlit("0");
        reveal_strlit("1");
        reveal_strlit("2");
        reveal_strlit("3");
        reveal_strlit("4");
        reveal_strlit("5");
        reveal_strlit("6");
        reveal_strlit("7");
        reveal_strlit("8");
        reveal_strlit("9");
        assert(c@ =~= seq![spec_digit(d as int)]);
    }
    s.append(c);
}

/// Appends one hexadecimal digit character.
fn append_hex_digit(s: &mut String, d: u64)
    requires
        d < 16,
    ensures
        final(s)@ == old(s)@ + seq![spec_hex_digit(d as int)],
{
    if d < 10 {
        append_digit(s, d);
    } else {
        let c: &str = if d == 10 {
            "a"
        } else if d == 11 {
            "b"
        } else if d == 12 {
            "c"
        } else if d == 13 {
            "d"
        } else if d == 14 {
            "e"
        } else {
            "f"
        };
        proof {
            reveal_strlit("a");
            reveal_strlit("b");
            reveal_strlit("c");
            reveal_strlit("d");
            reveal_strlit("e");
            reveal_strlit("f");
            assert(c@ =~= seq![spec_hex_digit(d as int)]);
        }
        s.append(c);
    }
}

/// Appends the decimal text of `n`.
pub fn append_dec(s: &mut String, n: u64)
    ensures
        final(s)@ == old(s)@ + spec_dec(n as nat),
    decreases n,
{
    if n >= 10 {
        append_dec(s, n / 10);
        append_digit(s, n % 10);
        proof {
            assert(s@ =~= old(s)@ + spec_dec(n as nat));
        }
    } else {
        append_digit(s, n);
    }
}

/// Appends `k` zero-padded hexadecimal digits of `n`.
pub fn append_hex(s: &mut String, n: u64, k: u64)
    ensures
        final(s)@ == old(s)@ + spec_hex(n as nat, k as nat),
    decreases k,
{
    if k > 0 {
        append_hex(s, n / 16, k - 1);
        append_hex_digit(s, n % 16);
        proof {
            assert(s@ =~= old(s)@ + spec_hex(n as nat, k as nat));
        }
    } else {
        proof {
            assert(s@ =~= old(s)@ + spec_hex(n as nat, 0));
        }
    }
}

/// Appends `k` truncated decimal digits of the fraction `r / 62`.
fn append_frac62(s: &mut String, r: u64, k: u64)
    requires
        r < 62,
    ensures
        final(s)@ == old(s)@ + spec_frac62(r as nat, k as nat),
    decreases k,
{
    if k > 0 {
        append_digit(s, r * 10 / 62);
        append_frac62(s, r * 10 % 62, k - 1);
        proof {
            assert(s@ =~= old(s)@ + spec_frac62(r as nat, k as nat));
        }
    } else {
        proof {
            assert(s@ =~= old(s)@ + spec_frac62(r as nat, 0));
        }
    }
}

/// Appends the text of a coordinate in 1/62-pixel units.
pub fn append_px(s: &mut String, v: i64)
    requires
        -0x4000_0000_0000_0000 <= v <= 0x4000_0000_0000_0000,
    ensures
        final(s)@ == old(s)@ + spec_px(v as int),
{
    let mag: u64 = if v < 0 {
        proof {
            reveal_strlit("-");
        }
        s.append("-");
        (-v) as u64
    } else {
        v as u64
    };
    let ghost mid = s@;
    let q = mag / 62;
    let r = mag % 62;
    append_dec(s, q);
    if r != 0 {
        proof {
            reveal_strlit(".");
        }
        s.append(".");
        append_frac62(s, r, 5);
        proof {
            assert(s@ =~= mid + spec_dec((mag / 62) as nat) + seq!['.'] + spec_frac62(
                (mag % 62) as nat,
                5,
            ));
        }
    }
    proof {
        if v < 0 {
            assert(("-")@ =~= seq!['-']);
            assert(s@ =~= old(s)@ + spec_px(v as int));
        } else {
            assert(s@ =~= old(s)@ + spec_px(v as int));
        }
    }
}

} // verus!
