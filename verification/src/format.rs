//! Verified byte-size formatting: sizes are shown in GB, MB or KB with two
//! decimal places, or as a raw byte count below one KB.
use vstd::prelude::*;
use vstd::arithmetic::div_mod::lemma_fundamental_div_mod_converse;
use vstd::string::StringExecFns;
use crate::text::dec_spec;
use crate::text::decimal_string;
use crate::text::digit_char;

verus! {

/// `b` scaled by `unit` in hundredths, rounded half up.
pub open spec fn scaled_hundredths(b: nat, unit: nat) -> nat {
    (100 * b + unit / 2) / unit
}

/// The two-digit rendering of a fraction `f` of hundredths, `f < 100`.
pub open spec fn two_digit_frac_spec(f: nat) -> Seq<char> {
    seq![digit_char(f / 10), digit_char(f % 10)]
}

/// A count of `h` hundredths rendered as a whole part, a point, and exactly
/// two fractional digits.
pub open spec fn two_dec_spec(h: nat) -> Seq<char> {
    dec_spec(h / 100) + seq!['.'] + two_digit_frac_spec(h % 100)
}

/// A byte count rendered for humans: two decimal places of the nearest unit
/// among GB, MB and KB, or the raw count below one KB.
pub open spec fn format_bytes_spec(b: nat) -> Seq<char> {
    if b >= 0x40000000 {
        two_dec_spec(scaled_hundredths(b, 0x40000000)) + " GB"@
    } else if b >= 0x100000 {
        two_dec_spec(scaled_hundredths(b, 0x100000)) + " MB"@
    } else if b >= 0x400 {
        two_dec_spec(scaled_hundredths(b, 0x400)) + " KB"@
    } else {
        dec_spec(b) + " bytes"@
    }
}

fn two_digit_string(f: u64) -> (r: String)
    requires
        f < 100,
    ensures
        r@ == two_digit_frac_spec(f as nat),
{
    let r = String::from_str(crate::text::digit_str(f / 10)).concat(
        crate::text::digit_str(f % 10),
    );
    proof {
        assert(r@ =~= two_digit_frac_spec(f as nat));
    }
    r
}

fn scaled_string(b: u64, unit: u64) -> (r: String)
    requires
        unit == 0x400 || unit == 0x100000 || unit == 0x40000000,
    ensures
        r@ == two_dec_spec(scaled_hundredths(b as nat, unit as nat)),
{
    let whole: u64 = b / unit;
    let rem: u64 = b % unit;
    let rounded: u64 = (100 * rem + unit / 2) / unit;
    proof {
        assert(rounded <= 100) by (nonlinear_arith)
            requires
                rem < unit,
                0 < unit,
                rounded as int == (100 * (rem as int) + (unit as int) / 2) / (unit as int),
        ;
    }
    let (whole2, frac): (u64, u64) = if rounded == 100 {
        (whole + 1, 0)
    } else {
        (whole, rounded)
    };
    proof {
        let bi = b as int;
        let u = unit as int;
        let x = 100 * (rem as int) + u / 2;
        assert(100 * bi + u / 2 == (100 * (whole as int) + (rounded as int)) * u + x % u)
            by (nonlinear_arith)
            requires
                u > 0,
                bi == (whole as int) * u + (rem as int),
                x == 100 * (rem as int) + u / 2,
                rounded as int == x / u,
                x == u * (x / u) + x % u,
        ;
        assert(0 <= x % u < u);
        lemma_fundamental_div_mod_converse(
            100 * bi + u / 2,
            u,
            100 * (whole as int) + (rounded as int),
            x % u,
        );
        assert(scaled_hundredths(b as nat, unit as nat) == 100 * (whole as int) + (
        rounded as int));
        assert(100 * (whole2 as int) + (frac as int) == 100 * (whole as int) + (rounded as int));
        lemma_fundamental_div_mod_converse(
            100 * (whole2 as int) + (frac as int),
            100,
            whole2 as int,
            frac as int,
        );
    }
    proof {
        reveal_strlit(".");
    }
    let r = decimal_string(whole2).concat(".").concat(two_digit_string(frac).as_str());
    proof {
        assert(r@ =~= two_dec_spec(scaled_hundredths(b as nat, unit as nat)));
    }
    r
}

/// Renders a byte count for humans: `"1.00 GB"`, `"5.00 MB"`, `"2.00 KB"`, or
/// `"123 bytes"` below one KB.
pub fn format_bytes(bytes: usize) -> (r: String)
    ensures
        r@ == format_bytes_spec(bytes as nat),
{
    let b = bytes as u64;
    if b >= 0x40000000 {
        scaled_string(b, 0x40000000).concat(" GB")
    } else if b >= 0x100000 {
        scaled_string(b, 0x100000).concat(" MB")
    } else if b >= 0x400 {
        scaled_string(b, 0x400).concat(" KB")
    } else {
        decimal_string(b).concat(" bytes")
    }
}

} // verus!
