//! Verified text helpers: character-wise string comparison, ASCII case
//! folding, and decimal parsing and rendering of signed 64-bit integers.

use vstd::prelude::*;
use vstd::string::StringExecFns;

verus! {

/// Folds one ASCII uppercase letter to its lowercase form; leaves every
/// other character unchanged.
pub open spec fn ascii_lower(c: char) -> char {
    match c {
        'A' => 'a',
        'B' => 'b',
        'C' => 'c',
        'D' => 'd',
        'E' => 'e',
        'F' => 'f',
        'G' => 'g',
        'H' => 'h',
        'I' => 'i',
        'J' => 'j',
        'K' => 'k',
        'L' => 'l',
        'M' => 'm',
        'N' => 'n',
        'O' => 'o',
        'P' => 'p',
        'Q' => 'q',
        'R' => 'r',
        'S' => 's',
        'T' => 't',
        'U' => 'u',
        'V' => 'v',
        'W' => 'w',
        'X' => 'x',
        'Y' => 'y',
        'Z' => 'z',
        _ => c,
    }
}

/// ASCII-lowercases a whole character sequence.
pub open spec fn lower_chars(s: Seq<char>) -> Seq<char> {
    s.map_values(|c: char| ascii_lower(c))
}

/// Executable counterpart of [`ascii_lower`].
pub fn lower_char(c: char) -> (r: char)
    ensures
        r == ascii_lower(c),
{
    match c {
        'A' => 'a',
        'B' => 'b',
        'C' => 'c',
        'D' => 'd',
        'E' => 'e',
        'F' => 'f',
        'G' => 'g',
        'H' => 'h',
        'I' => 'i',
        'J' => 'j',
        'K' => 'k',
        'L' => 'l',
        'M' => 'm',
        'N' => 'n',
        'O' => 'o',
        'P' => 'p',
        'Q' => 'q',
        'R' => 'r',
        'S' => 's',
        'T' => 't',
        'U' => 'u',
        'V' => 'v',
        'W' => 'w',
        'X' => 'x',
        'Y' => 'y',
        'Z' => 'z',
        _ => c,
    }
}

/// Character-wise equality of two string slices.
pub fn str_eq(a: &str, b: &str) -> (r: bool)
    ensures
        r == (a@ == b@),
{
    let an = a.unicode_len();
    let bn = b.unicode_len();
    if an != bn {
        assert(a@ != b@) by {
            assert(a@.len() != b@.len());
        }
        return false;
    }
    let mut i: usize = 0;
    while i < an
        invariant
            i <= an,
            an == a@.len(),
            an == b@.len(),
            forall|j: int| 0 <= j < i ==> a@[j] == b@[j],
        decreases an - i,
    {
        let ca = a.get_char(i);
        let cb = b.get_char(i);
        if ca != cb {
            assert(a@ != b@) by {
                assert(a@[i as int] != b@[i as int]);
            }
            return false;
        }
        i = i + 1;
    }
    proof {
        assert(a@ =~= b@);
    }
    true
}

/// True exactly when ASCII-lowercasing `s` yields `folded`.
pub fn eq_lowered(s: &str, folded: &str) -> (r: bool)
    ensures
        r == (lower_chars(s@) == folded@),
{
    let sn = s.unicode_len();
    let fn_: usize = folded.unicode_len();
    if sn != fn_ {
        assert(lower_chars(s@) != folded@) by {
            assert(lower_chars(s@).len() != folded@.len());
        }
        return false;
    }
    let mut i: usize = 0;
    while i < sn
        invariant
            i <= sn,
            sn == s@.len(),
            sn == folded@.len(),
            forall|j: int| 0 <= j < i ==> ascii_lower(s@[j]) == folded@[j],
        decreases sn - i,
    {
        let c = lower_char(s.get_char(i));
        let d = folded.get_char(i);
        if c != d {
            assert(lower_chars(s@) != folded@) by {
                assert(lower_chars(s@)[i as int] != folded@[i as int]);
            }
            return false;
        }
        i = i + 1;
    }
    proof {
        assert(lower_chars(s@) =~= folded@);
    }
    true
}

/// Whether `c` is a decimal digit.
pub open spec fn is_digit(c: char) -> bool {
    '0' <= c && c <= '9'
}

/// Numeric value of a decimal digit character.
pub open spec fn digit_val(c: char) -> int {
    c as int - '0' as int
}

/// Whether every character of `s` is a decimal digit.
pub open spec fn all_digits(s: Seq<char>) -> bool {
    forall|i: int| 0 <= i < s.len() ==> is_digit(#[trigger] s[i])
}

/// The non-negative integer denoted by a digit sequence, most significant
/// digit first.
pub open spec fn digits_val(s: Seq<char>) -> int
    decreases s.len(),
{
    if s.len() == 0 {
        0
    } else {
        digits_val(s.drop_last()) * 10 + digit_val(s.last())
    }
}

/// The digit part of a signed decimal literal: everything after a single
/// leading `+` or `-`, or the whole string when there is no sign.
pub open spec fn unsigned_part(s: Seq<char>) -> Seq<char> {
    if s.len() > 0 && (s[0] == '-' || s[0] == '+') {
        s.skip(1)
    } else {
        s
    }
}

/// Whether the literal denotes a negative number.
pub open spec fn is_negative_literal(s: Seq<char>) -> bool {
    s.len() > 0 && s[0] == '-'
}

/// The value a signed decimal literal stands for, ignoring range limits.
pub open spec fn literal_val(s: Seq<char>) -> int {
    if is_negative_literal(s) {
        -digits_val(unsigned_part(s))
    } else {
        digits_val(unsigned_part(s))
    }
}

/// What parsing a signed decimal literal as an `i64` yields: the denoted
/// value when the literal is well formed and in range, nothing otherwise.
pub open spec fn parse_i64_spec(s: Seq<char>) -> Option<i64> {
    if unsigned_part(s).len() > 0 && all_digits(unsigned_part(s))
        && i64::MIN <= literal_val(s) <= i64::MAX {
        Some(literal_val(s) as i64)
    } else {
        None
    }
}

proof fn lemma_digits_val_nonneg(s: Seq<char>)
    requires
        all_digits(s),
    ensures
        digits_val(s) >= 0,
    decreases s.len(),
{
    if s.len() > 0 {
        assert(all_digits(s.drop_last()));
        lemma_digits_val_nonneg(s.drop_last());
    }
}

proof fn lemma_digits_val_step(s: Seq<char>, i: int)
    requires
        0 <= i < s.len(),
    ensures
        digits_val(s.take(i + 1)) == digits_val(s.take(i)) * 10 + digit_val(s[i]),
{
    assert(s.take(i + 1).drop_last() =~= s.take(i));
    assert(s.take(i + 1).last() == s[i]);
}

/// A digit prefix never denotes more than the whole digit string.
proof fn lemma_digits_val_prefix_le(s: Seq<char>, i: int)
    requires
        all_digits(s),
        0 <= i <= s.len(),
    ensures
        digits_val(s.take(i)) <= digits_val(s),
    decreases s.len() - i,
{
    if i < s.len() {
        assert(all_digits(s.take(i))) by {
            assert(forall|j: int| 0 <= j < i ==> s.take(i)[j] == s[j]);
        }
        lemma_digits_val_nonneg(s.take(i));
        lemma_digits_val_step(s, i);
        assert(digits_val(s.take(i)) * 10 >= digits_val(s.take(i))) by {
            lemma_digits_val_nonneg(s.take(i));
        }
        assert(digit_val(s[i]) >= 0);
        lemma_digits_val_prefix_le(s, i + 1);
    } else {
        assert(s.take(i) =~= s);
    }
}

/// The character of a decimal digit value.
pub open spec fn digit_char(d: int) -> char {
    if d == 0 {
        '0'
    } else if d == 1 {
        '1'
    } else if d == 2 {
        '2'
    } else if d == 3 {
        '3'
    } else if d == 4 {
        '4'
    } else if d == 5 {
        '5'
    } else if d == 6 {
        '6'
    } else if d == 7 {
        '7'
    } else if d == 8 {
        '8'
    } else {
        '9'
    }
}

/// The decimal rendering of a non-negative integer, most significant
/// digit first, without leading zeros (except for zero itself).
pub open spec fn dec_rep(n: int) -> Seq<char>
    recommends
        n >= 0,
    decreases n,
{
    if n < 10 {
        seq![digit_char(n)]
    } else {
        dec_rep(n / 10).push(digit_char(n % 10))
    }
}

/// The decimal rendering of a signed integer: a minus sign before the
/// magnitude for negative values.
pub open spec fn signed_dec_rep(n: int) -> Seq<char> {
    if n < 0 {
        seq!['-'] + dec_rep(-n)
    } else {
        dec_rep(n)
    }
}

/// A decimal rendering is at least one character, all digits, leads with
/// a digit, and denotes the value it was rendered from.
proof fn lemma_dec_rep_digits(m: int)
    requires
        m >= 0,
    ensures
        dec_rep(m).len() >= 1,
        all_digits(dec_rep(m)),
        is_digit(dec_rep(m)[0]),
        digits_val(dec_rep(m)) == m,
    decreases m,
{
    if m < 10 {
        reveal_with_fuel(digits_val, 2);
        assert(dec_rep(m).drop_last() =~= Seq::<char>::empty());
        assert(dec_rep(m).last() == digit_char(m));
        assert(digit_val(digit_char(m)) == m);
    } else {
        lemma_dec_rep_digits(m / 10);
        let head = dec_rep(m / 10);
        let whole = dec_rep(m);
        assert(whole =~= head.push(digit_char(m % 10)));
        assert(whole.drop_last() =~= head);
        assert(all_digits(whole)) by {
            assert(forall|i: int| 0 <= i < head.len() ==> whole[i] == head[i]);
        }
        assert(whole.last() == digit_char(m % 10));
        assert(digits_val(whole) == digits_val(head) * 10 + digit_val(whole.last()));
        assert(digit_val(digit_char(m % 10)) == m % 10);
        assert(m == 10 * (m / 10) + m % 10) by {
            vstd::arithmetic::div_mod::lemma_fundamental_div_mod(m, 10);
        }
        assert(digits_val(whole) == m);
    }
}

/// Rendering a signed 64-bit value in decimal and parsing the rendering
/// back yields exactly the value.
pub proof fn lemma_decimal_round_trip(n: i64)
    ensures
        parse_i64_spec(signed_dec_rep(n as int)) == Some(n),
{
    if n >= 0 {
        lemma_dec_rep_digits(n as int);
        let s = dec_rep(n as int);
        assert(s[0] != '-' && s[0] != '+');
        assert(unsigned_part(s) == s);
        assert(literal_val(s) == n);
    } else {
        let m = -(n as int);
        lemma_dec_rep_digits(m);
        let s = signed_dec_rep(n as int);
        assert(s[0] == '-');
        assert(unsigned_part(s) =~= dec_rep(m));
        assert(is_negative_literal(s));
        assert(literal_val(s) == n);
    }
}

/// Appends one decimal digit character.
fn push_digit(s: &mut String, d: u64)
    requires
        d < 10,
    ensures
        final(s)@ == old(s)@.push(digit_char(d as int)),
{
    let lit: &str = match d {
        0 => "0",
        1 => "1",
        2 => "2",
        3 => "3",
        4 => "4",
        5 => "5",
        6 => "6",
        7 => "7",
        8 => "8",
        _ => "9",
    };
    proof {
        reveal_strlit("0");
        reveal_strlit("1");
        reveal_strlit("2");
        reveal_strlit("3");
        reveal_strlit("4");
        reveal_strlit("5");
        reveal_strlit("6");
        reveal_strlit("7");
        reveal_strlit("8");
        reveal_strlit("9");
    }
    let ghost before = s@;
    s.append(lit);
    proof {
        assert(s@ =~= before.push(digit_char(d as int)));
    }
}

/// Appends the decimal rendering of a non-negative value.
fn append_dec(s: &mut String, m: u64)
    ensures
        final(s)@ == old(s)@ + dec_rep(m as int),
    decreases m,
{
    if m < 10 {
        push_digit(s, m);
        proof {
            assert(s@ =~= old(s)@ + dec_rep(m as int));
        }
    } else {
        append_dec(s, m / 10);
        push_digit(s, m % 10);
        proof {
            assert(s@ =~= old(s)@ + dec_rep(m as int));
        }
    }
}

/// Renders a signed 64-bit integer in decimal, exactly as its standard
/// display does.
pub fn i64_to_string(n: i64) -> (r: String)
    ensures
        r@ == signed_dec_rep(n as int),
{
    let mut s = String::new();
    if n >= 0 {
        append_dec(&mut s, n as u64);
        proof {
            assert(s@ =~= signed_dec_rep(n as int));
        }
    } else {
        proof {
            reveal_strlit("-");
        }
        s.append("-");
        let magnitude: u64 = ((-(n + 1)) as u64) + 1;
        assert(magnitude as int == -(n as int));
        append_dec(&mut s, magnitude);
        proof {
            assert(("-"@) =~= seq!['-']);
            assert(s@ =~= signed_dec_rep(n as int));
        }
    }
    s
}

/// Parses a signed decimal literal exactly as `i64` parsing does: an
/// optional sign, then at least one digit, rejecting out-of-range values.
pub fn parse_i64(s: &str) -> (r: Option<i64>)
    ensures
        r == parse_i64_spec(s@),
{
    let n = s.unicode_len();
    if n == 0 {
        assert(unsigned_part(s@).len() == 0);
        return None;
    }
    let first = s.get_char(0);
    let negative = first == '-';
    let start: usize = if first == '-' || first == '+' { 1 } else { 0 };
    let ghost digits = unsigned_part(s@);
    proof {
        if start == 1 {
            assert(digits =~= s@.skip(1));
        } else {
            assert(digits =~= s@);
        }
        assert(digits.len() == n - start);
    }
    if start == n {
        assert(digits.len() == 0);
        return None;
    }
    // Magnitude accumulated so far; `overflowed` records that the digits
    // already seen exceed any value an i64 can carry.
    let mut acc: u64 = 0;
    let mut overflowed = false;
    let mut i: usize = start;
    // One past the largest magnitude of any i64.
    let limit_mag: u64 = 9223372036854775808u64;
    while i < n
        invariant
            start <= i <= n,
            n == s@.len(),
            digits == unsigned_part(s@),
            digits.len() == n - start,
            forall|j: int| start <= j < i ==> is_digit(#[trigger] s@[j]),
            forall|j: int| 0 <= j < i - start ==> digits[j] == s@[j + start],
            !overflowed ==> acc == digits_val(digits.take(i - start)),
            !overflowed ==> acc <= limit_mag,
            overflowed ==> digits_val(digits.take(i - start)) > limit_mag,
            limit_mag == 9223372036854775808u64,
        decreases n - i,
    {
        let c = s.get_char(i);
        if c < '0' || c > '9' {
            assert(!is_digit(s@[i as int]));
            assert(!all_digits(digits)) by {
                assert(digits[i - start] == s@[i as int]);
            }
            return None;
        }
        proof {
            lemma_digits_val_step(digits, i - start);
        }
        let d: u64 = (c as u32 - '0' as u32) as u64;
        assert(d == digit_val(digits[i - start]));
        if overflowed {
            proof {
                assert(forall|j: int| 0 <= j < i + 1 - start ==> is_digit(#[trigger] digits[j]));
                assert(all_digits(digits.take(i + 1 - start))) by {
                    assert(forall|j: int| 0 <= j < i + 1 - start
                        ==> digits.take(i + 1 - start)[j] == digits[j]);
                }
                lemma_digits_val_prefix_le(digits.take(i + 1 - start), i - start);
                assert(digits.take(i + 1 - start).take(i - start) =~= digits.take(i - start));
            }
        } else {
            if acc > (u64::MAX - d) / 10 {
                assert(acc * 10 + d > u64::MAX) by (nonlinear_arith)
                    requires
                        acc > (u64::MAX - d) / 10,
                        d <= 9,
                ;
                overflowed = true;
            } else {
                assert(acc * 10 + d <= u64::MAX) by (nonlinear_arith)
                    requires
                        acc <= (u64::MAX - d) / 10,
                        d <= 9,
                ;
                acc = acc * 10 + d;
                if acc > limit_mag {
                    overflowed = true;
                }
            }
        }
        i = i + 1;
    }
    proof {
        assert(digits.take(n - start) =~= digits);
        assert(all_digits(digits));
    }
    if overflowed {
        assert(digits_val(digits) > limit_mag);
        return None;
    }
    assert(acc == digits_val(digits));
    if negative {
        assert(literal_val(s@) == -(acc as int));
        if acc == 0 {
            assert(literal_val(s@) == 0);
            Some(0i64)
        } else if acc == limit_mag {
            assert(literal_val(s@) == i64::MIN);
            Some(i64::MIN)
        } else {
            let v: i64 = -((acc - 1) as i64) - 1;
            assert(v == literal_val(s@));
            Some(v)
        }
    } else {
        if acc == limit_mag {
            assert(literal_val(s@) == acc > i64::MAX);
            return None;
        }
        let v: i64 = acc as i64;
        assert(v == literal_val(s@));
        Some(v)
    }
}

} // verus!
