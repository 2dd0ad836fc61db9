//! Verified text helpers: decimal numerals, suffix and substring tests, and
//! the backtick-quoted field style used in replies.
use vstd::prelude::*;
use vstd::string::StrSliceExecFns;
use vstd::string::StringExecFns;

verus! {

/// The decimal digit character for `d`.
pub open spec fn digit_char(d: nat) -> char {
    if d == 0 {
        '0'
    } else if d == 1 {
        '1'
    } else if d == 2 {
        '2'
    } else if d == 3 {
        '3'
    } else if d == 4 {
        '4'
    } else if d == 5 {
        '5'
    } else if d == 6 {
        '6'
    } else if d == 7 {
        '7'
    } else if d == 8 {
        '8'
    } else {
        '9'
    }
}

/// The decimal numeral of `n`, most significant digit first.
pub open spec fn dec_spec(n: nat) -> Seq<char>
    decreases n,
{
    if n < 10 {
        seq![digit_char(n)]
    } else {
        dec_spec(n / 10) + seq![digit_char(n % 10)]
    }
}

/// The decimal numeral of `n`, with a leading minus sign when negative.
pub open spec fn dec_i64_spec(n: int) -> Seq<char> {
    if n < 0 {
        seq!['-'] + dec_spec((-n) as nat)
    } else {
        dec_spec(n as nat)
    }
}

pub(crate) fn digit_str(d: u64) -> (r: &'static str)
    requires
        d < 10,
    ensures
        r@ == seq![digit_char(d as nat)],
{
    proof {
        reveal_strlit("0");
        reveal_strlit("1");
        reveal_strlit("2");
        reveal_strlit("3");
        reveal_strlit("4");
        reveal_strlit("5");
        reveal_strlit("6");
        reveal_strlit("7");
        reveal_strlit("8");
        reveal_strlit("9");
    }
    let r = match d {
        0 => "0",
        1 => "1",
        2 => "2",
        3 => "3",
        4 => "4",
        5 => "5",
        6 => "6",
        7 => "7",
        8 => "8",
        _ => "9",
    };
    proof {
        assert(r@ =~= seq![digit_char(d as nat)]);
    }
    r
}

/// Renders `n` as its decimal numeral.
pub fn decimal_string(n: u64) -> (r: String)
    ensures
        r@ == dec_spec(n as nat),
    decreases n,
{
    if n < 10 {
        String::from_str(digit_str(n))
    } else {
        let prefix = decimal_string(n / 10);
        let r = prefix.concat(digit_str(n % 10));
        proof {
            assert(r@ =~= dec_spec(n as nat));
        }
        r
    }
}

/// Renders `n` as its decimal numeral, with a minus sign when negative.
pub fn decimal_string_i64(n: i64) -> (r: String)
    ensures
        r@ == dec_i64_spec(n as int),
{
    if n >= 0 {
        decimal_string(n as u64)
    } else {
        let magnitude: u64 = ((-(n + 1)) as u64) + 1;
        proof {
            reveal_strlit("-");
        }
        let r = String::from_str("-").concat(decimal_string(magnitude).as_str());
        proof {
            assert(r@ =~= dec_i64_spec(n as int));
        }
        r
    }
}

/// `s` ends with `suffix`.
pub open spec fn ends_with_spec(s: Seq<char>, suffix: Seq<char>) -> bool {
    s.len() >= suffix.len() && s.subrange(s.len() - suffix.len(), s.len() as int) == suffix
}

/// Whether `s` ends with `suffix`, character for character.
pub fn str_ends_with(s: &str, suffix: &str) -> (r: bool)
    ensures
        r == ends_with_spec(s@, suffix@),
{
    let n = s.unicode_len();
    let m = suffix.unicode_len();
    if m > n {
        return false;
    }
    let mut i: usize = 0;
    while i < m
        invariant
            i <= m <= n,
            n == s@.len(),
            m == suffix@.len(),
            forall|j: int| 0 <= j < i ==> s@[n - m + j] == suffix@[j],
        decreases m - i,
    {
        if s.get_char(n - m + i) != suffix.get_char(i) {
            proof {
                assert(s@.subrange(n - m, n as int)[i as int] != suffix@[i as int]);
            }
            return false;
        }
        i += 1;
    }
    proof {
        assert(s@.subrange(n - m, n as int) =~= suffix@);
    }
    true
}

/// `s` has `sub` as a contiguous part.
pub open spec fn contains_spec(s: Seq<char>, sub: Seq<char>) -> bool {
    exists|i: int| 0 <= i <= s.len() - sub.len() && #[trigger] s.subrange(i, i + sub.len()) == sub
}

fn match_at(s: &str, sub: &str, start: usize) -> (r: bool)
    requires
        start + sub@.len() <= s@.len(),
    ensures
        r == (s@.subrange(start as int, start + sub@.len()) == sub@),
{
    let n = s.unicode_len();
    let m = sub.unicode_len();
    let mut j: usize = 0;
    while j < m
        invariant
            j <= m,
            n == s@.len(),
            m == sub@.len(),
            start + m <= n,
            forall|k: int| 0 <= k < j ==> s@[start + k] == sub@[k],
        decreases m - j,
    {
        if s.get_char(start + j) != sub.get_char(j) {
            proof {
                assert(s@.subrange(start as int, start + sub@.len())[j as int] != sub@[j as int]);
            }
            return false;
        }
        j += 1;
    }
    proof {
        assert(s@.subrange(start as int, start + sub@.len()) =~= sub@);
    }
    true
}

/// Whether `s` has `sub` as a contiguous part.
pub fn str_contains(s: &str, sub: &str) -> (r: bool)
    ensures
        r == contains_spec(s@, sub@),
{
    let n = s.unicode_len();
    let m = sub.unicode_len();
    if m > n {
        return false;
    }
    if m == 0 {
        proof {
            assert(s@.subrange(0, 0 + sub@.len() as int) =~= sub@);
            assert(contains_spec(s@, sub@));
        }
        return true;
    }
    let mut start: usize = 0;
    while start <= n - m
        invariant
            0 < m <= n,
            n == s@.len(),
            m == sub@.len(),
            start <= n - m + 1,
            forall|k: int| 0 <= k < start ==> #[trigger] s@.subrange(k, k + m) != sub@,
        decreases n + 1 - m - start,
    {
        if match_at(s, sub, start) {
            proof {
                assert(contains_spec(s@, sub@));
            }
            return true;
        }
        start += 1;
    }
    false
}

/// What lossy UTF-8 decoding yields on `bytes`: the decoding depends on the
/// bytes alone.
pub uninterp spec fn utf8_lossy_of(bytes: Seq<u8>) -> Seq<char>;

/// Relies on `String::from_utf8_lossy`: the decoding is a function of the
/// bytes alone, replacing invalid sequences with the replacement character.
#[verifier::external_body]
pub(crate) fn utf8_lossy(bytes: &Vec<u8>) -> (r: String)
    ensures
        r@ == utf8_lossy_of(bytes@),
{
    String::from_utf8_lossy(bytes).into_owned()
}

/// Backtick-quoted rendering of a reply field value.
pub open spec fn format_field_spec(s: Seq<char>) -> Seq<char> {
    seq!['`'] + s + seq!['`']
}

/// Wraps a reply field value in backticks, the code style of the chat platform.
pub fn format_field(content: &str) -> (r: String)
    ensures
        r@ == format_field_spec(content@),
{
    proof {
        reveal_strlit("`");
    }
    let r = String::from_str("`").concat(content).concat("`");
    proof {
        assert(r@ =~= format_field_spec(content@));
    }
    r
}

} // verus!
