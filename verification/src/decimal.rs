//! Decimal text form of signed 64-bit process ids.
//!
//! The correlation context is propagated across process boundaries as a
//! comma-joined list of decimal integers, so the library carries its own
//! verified rendering and parsing of a single id.

use vstd::prelude::*;
use vstd::string::StringExecFns;

verus! {

/// The ten decimal digit characters, by value.
pub open spec fn digit_to_char(d: int) -> char {
    if d == 0 {
        '0'
    } else if d == 1 {
        '1'
    } else if d == 2 {
        '2'
    } else if d == 3 {
        '3'
    } else if d == 4 {
        '4'
    } else if d == 5 {
        '5'
    } else if d == 6 {
        '6'
    } else if d == 7 {
        '7'
    } else if d == 8 {
        '8'
    } else {
        '9'
    }
}

/// Value of a decimal digit character; -1 for anything else.
pub open spec fn digit_char_val(c: char) -> int {
    if c == '0' {
        0
    } else if c == '1' {
        1
    } else if c == '2' {
        2
    } else if c == '3' {
        3
    } else if c == '4' {
        4
    } else if c == '5' {
        5
    } else if c == '6' {
        6
    } else if c == '7' {
        7
    } else if c == '8' {
        8
    } else if c == '9' {
        9
    } else {
        -1
    }
}

pub open spec fn is_digit_char(c: char) -> bool {
    digit_char_val(c) >= 0
}

/// Decimal digits of a natural number, most significant first.
pub open spec fn dec_digits(n: nat) -> Seq<char>
    decreases n,
{
    if n < 10 {
        seq![digit_to_char(n as int)]
    } else {
        dec_digits(n / 10).push(digit_to_char((n % 10) as int))
    }
}

/// Decimal text of a signed integer: a minus sign for negative values,
/// then the digits of the magnitude.
pub open spec fn int_str(v: int) -> Seq<char> {
    if v < 0 {
        seq!['-'] + dec_digits((-v) as nat)
    } else {
        dec_digits(v as nat)
    }
}

pub open spec fn all_digits(s: Seq<char>) -> bool {
    forall|i: int| 0 <= i < s.len() ==> is_digit_char(#[trigger] s[i])
}

/// Numeric value of a sequence of digit characters (0 for the empty one).
pub open spec fn digits_val(s: Seq<char>) -> int
    decreases s.len(),
{
    if s.len() == 0 {
        0
    } else {
        digits_val(s.drop_last()) * 10 + digit_char_val(s.last())
    }
}

/// The integer denoted by a string: an optional minus sign, then at least
/// one digit, nothing else. Leading zeroes are accepted.
pub open spec fn parse_int(s: Seq<char>) -> Option<int> {
    if s.len() >= 1 && s[0] == '-' {
        if s.len() >= 2 && all_digits(s.skip(1)) {
            Some(-digits_val(s.skip(1)))
        } else {
            None
        }
    } else if s.len() >= 1 && all_digits(s) {
        Some(digits_val(s))
    } else {
        None
    }
}

/// As `parse_int`, further rejecting values outside the i64 range.
pub open spec fn parse_i64(s: Seq<char>) -> Option<int> {
    match parse_int(s) {
        Some(v) => if i64::MIN <= v <= i64::MAX {
            Some(v)
        } else {
            None
        },
        None => None,
    }
}

pub proof fn lemma_dec_digits_wf(n: nat)
    ensures
        dec_digits(n).len() >= 1,
        all_digits(dec_digits(n)),
    decreases n,
{
    if n >= 10 {
        lemma_dec_digits_wf(n / 10);
        assert forall|i: int| 0 <= i < dec_digits(n).len() implies is_digit_char(
            #[trigger] dec_digits(n)[i],
        ) by {
            if i < dec_digits(n / 10).len() {
                assert(dec_digits(n)[i] == dec_digits(n / 10)[i]);
            }
        }
    }
}

/// Reading a digit character back gives the digit.
pub proof fn lemma_digit_round_trip(d: int)
    requires
        0 <= d < 10,
    ensures
        digit_char_val(digit_to_char(d)) == d,
{
}

pub proof fn lemma_dec_digits_val(n: nat)
    ensures
        digits_val(dec_digits(n)) == n,
    decreases n,
{
    lemma_digit_round_trip((n % 10) as int);
    if n < 10 {
        assert(dec_digits(n).len() == 1);
        assert(digits_val(Seq::<char>::empty()) == 0);
        assert(dec_digits(n).drop_last() =~= Seq::<char>::empty());
        assert(dec_digits(n).last() == digit_to_char(n as int));
        assert(digits_val(dec_digits(n)) == digits_val(dec_digits(n).drop_last()) * 10
            + digit_char_val(dec_digits(n).last()));
    } else {
        lemma_dec_digits_val(n / 10);
        assert(dec_digits(n).drop_last() =~= dec_digits(n / 10));
        assert(dec_digits(n).last() == digit_to_char((n % 10) as int));
        assert(digits_val(dec_digits(n)) == (n / 10) * 10 + (n % 10));
        assert((n / 10) * 10 + (n % 10) == n) by (nonlinear_arith);
    }
}

/// Every digit sequence denotes a non-negative value.
pub proof fn lemma_digits_val_nonneg(s: Seq<char>)
    requires
        all_digits(s),
    ensures
        digits_val(s) >= 0,
    decreases s.len(),
{
    if s.len() > 0 {
        assert(is_digit_char(s.last()));
        lemma_digits_val_nonneg(s.drop_last());
    }
}

/// A one-character &str for each decimal digit.
fn digit_str(d: u64) -> (r: &'static str)
    requires
        d < 10,
    ensures
        r@ =~= seq![digit_to_char(d as int)],
{
    proof {
        reveal_strlit("0");
        reveal_strlit("1");
        reveal_strlit("2");
        reveal_strlit("3");
        reveal_strlit("4");
        reveal_strlit("5");
        reveal_strlit("6");
        reveal_strlit("7");
        reveal_strlit("8");
        reveal_strlit("9");
    }
    if d == 0 {
        "0"
    } else if d == 1 {
        "1"
    } else if d == 2 {
        "2"
    } else if d == 3 {
        "3"
    } else if d == 4 {
        "4"
    } else if d == 5 {
        "5"
    } else if d == 6 {
        "6"
    } else if d == 7 {
        "7"
    } else if d == 8 {
        "8"
    } else {
        "9"
    }
}

/// Appends the decimal digits of `n` to `out`.
fn push_dec(n: u64, out: &mut String)
    ensures
        final(out)@ == old(out)@ + dec_digits(n as nat),
    decreases n,
{
    if n >= 10 {
        push_dec(n / 10, out);
    }
    let d = n % 10;
    out.append(digit_str(d));
    proof {
        assert(out@ =~= old(out)@ + dec_digits(n as nat));
    }
}

/// Magnitude of an i64, exact also for `i64::MIN`.
fn i64_magnitude(v: i64) -> (m: u64)
    ensures
        v >= 0 ==> m == v as int,
        v < 0 ==> m == -(v as int),
{
    if v >= 0 {
        v as u64
    } else {
        ((-(v + 1)) as u64) + 1
    }
}

/// Appends the decimal text of `v` to `out`.
pub fn append_i64(v: i64, out: &mut String)
    ensures
        final(out)@ == old(out)@ + int_str(v as int),
{
    if v < 0 {
        proof {
            reveal_strlit("-");
        }
        out.append("-");
    }
    let m = i64_magnitude(v);
    push_dec(m, out);
    proof {
        if v < 0 {
            assert(out@ =~= old(out)@ + int_str(v as int));
        }
    }
}

/// A longer digit string never denotes a smaller value.
pub proof fn lemma_digits_val_prefix(s: Seq<char>, m: int)
    requires
        all_digits(s),
        0 <= m <= s.len(),
    ensures
        digits_val(s.take(m)) <= digits_val(s),
    decreases s.len(),
{
    if m < s.len() {
        assert(is_digit_char(s.last()));
        lemma_digits_val_nonneg(s.drop_last());
        assert(digits_val(s.drop_last()) * 10 >= digits_val(s.drop_last()));
        assert(s.drop_last().take(m) =~= s.take(m));
        lemma_digits_val_prefix(s.drop_last(), m);
    } else {
        assert(s.take(m) =~= s);
    }
}

/// Value of a decimal digit character, with 10 marking a non-digit.
fn char_digit(c: char) -> (d: u64)
    ensures
        is_digit_char(c) ==> d == digit_char_val(c),
        !is_digit_char(c) ==> d == 10,
{
    if c == '0' {
        0
    } else if c == '1' {
        1
    } else if c == '2' {
        2
    } else if c == '3' {
        3
    } else if c == '4' {
        4
    } else if c == '5' {
        5
    } else if c == '6' {
        6
    } else if c == '7' {
        7
    } else if c == '8' {
        8
    } else if c == '9' {
        9
    } else {
        10
    }
}

/// Parses the characters of `s` between `from` and `to` as one signed
/// 64-bit id, exactly when `parse_i64` accepts them.
#[verifier::loop_isolation(false)]
pub fn parse_i64_range(s: &str, from: usize, to: usize) -> (r: Option<i64>)
    requires
        from <= to <= s@.len(),
    ensures
        match r {
            Some(v) => parse_i64(s@.subrange(from as int, to as int)) == Some(v as int),
            None => parse_i64(s@.subrange(from as int, to as int)) is None,
        },
{
    let ghost seg = s@.subrange(from as int, to as int);
    if from == to {
        return None;
    }
    let neg = s.get_char(from) == '-';
    let start = if neg {
        from + 1
    } else {
        from
    };
    if start == to {
        // either "-" alone, or a single character that is not a digit
        proof {
            if !neg {
                assert(!is_digit_char(seg[0]));
            }
        }
        return None;
    }
    let ghost digits = s@.subrange(start as int, to as int);
    proof {
        if neg {
            assert(seg.skip(1) =~= digits);
        } else {
            assert(seg =~= digits);
        }
    }
    let limit: u64 = if neg {
        9223372036854775808
    } else {
        9223372036854775807
    };
    let mut acc: u64 = 0;
    let mut k = start;
    while k < to
        invariant
            start <= k <= to <= s@.len(),
            digits == s@.subrange(start as int, to as int),
            all_digits(s@.subrange(start as int, k as int)),
            acc == digits_val(s@.subrange(start as int, k as int)),
            acc <= limit,
            limit == 9223372036854775808 || limit == 9223372036854775807,
        decreases to - k,
    {
        let ghost pre = s@.subrange(start as int, k as int);
        let c = s.get_char(k);
        let d = char_digit(c);
        if d > 9 {
            proof {
                assert(digits[k - start] == c);
                assert(!all_digits(digits));
            }
            return None;
        }
        if acc > (limit - d) / 10 {
            proof {
                lemma_acc_overflow(acc, d, limit);
                if all_digits(digits) {
                    let m = k - start + 1;
                    assert(digits.take(m).drop_last() =~= pre);
                    assert(digits.take(m).last() == c);
                    assert(digits_val(digits.take(m)) == acc * 10 + d);
                    lemma_digits_val_prefix(digits, m);
                }
            }
            return None;
        }
        proof {
            lemma_acc_fits(acc, d, limit);
            let m = k - start + 1;
            assert(s@.subrange(start as int, m + start).drop_last() =~= pre);
            assert(s@.subrange(start as int, m + start).last() == c);
        }
        acc = acc * 10 + d;
        k += 1;
    }
    proof {
        assert(s@.subrange(start as int, to as int) =~= digits);
    }
    if neg {
        if acc == 9223372036854775808 {
            Some(i64::MIN)
        } else {
            Some(-(acc as i64))
        }
    } else {
        Some(acc as i64)
    }
}

/// If the next digit would push the accumulator past `limit`, the value of
/// the whole digit string is past it too.
proof fn lemma_acc_overflow(acc: u64, d: u64, limit: u64)
    requires
        d <= 9,
        d <= limit,
        acc > (limit - d) / 10,
    ensures
        acc * 10 + d > limit,
{
    let x = (limit - d) as int;
    vstd::arithmetic::div_mod::lemma_fundamental_div_mod(x, 10);
    vstd::arithmetic::div_mod::lemma_mod_bound(x, 10);
    let q = x / 10;
    assert(acc * 10 >= q * 10 + 10) by (nonlinear_arith)
        requires
            acc >= q + 1,
    ;
}

proof fn lemma_acc_fits(acc: u64, d: u64, limit: u64)
    requires
        d <= 9,
        d <= limit,
        acc <= (limit - d) / 10,
    ensures
        acc * 10 + d <= limit,
{
    let x = (limit - d) as int;
    vstd::arithmetic::div_mod::lemma_fundamental_div_mod(x, 10);
    vstd::arithmetic::div_mod::lemma_mod_bound(x, 10);
    let q = x / 10;
    assert(acc * 10 <= q * 10) by (nonlinear_arith)
        requires
            acc <= q,
    ;
}

/// The decimal text of an id is never empty and never contains a comma.
pub proof fn lemma_int_str_wf(v: int)
    ensures
        int_str(v).len() >= 1,
        forall|i: int| 0 <= i < int_str(v).len() ==> #[trigger] int_str(v)[i] != ',',
{
    if v < 0 {
        lemma_dec_digits_wf((-v) as nat);
        assert forall|i: int| 0 <= i < int_str(v).len() implies #[trigger] int_str(v)[i]
            != ',' by {
            if i >= 1 {
                assert(int_str(v)[i] == dec_digits((-v) as nat)[i - 1]);
                assert(is_digit_char(dec_digits((-v) as nat)[i - 1]));
            }
        }
    } else {
        lemma_dec_digits_wf(v as nat);
        assert forall|i: int| 0 <= i < int_str(v).len() implies #[trigger] int_str(v)[i]
            != ',' by {
            assert(is_digit_char(dec_digits(v as nat)[i]));
        }
    }
}

/// Parsing the decimal text of an in-range id gives the id back.
pub proof fn lemma_parse_int_str(v: int)
    requires
        i64::MIN <= v <= i64::MAX,
    ensures
        parse_i64(int_str(v)) == Some(v),
{
    if v >= 0 {
        lemma_dec_digits_wf(v as nat);
        lemma_dec_digits_val(v as nat);
        assert(is_digit_char(int_str(v)[0]));
        assert(int_str(v)[0] != '-');
    } else {
        lemma_dec_digits_wf((-v) as nat);
        lemma_dec_digits_val((-v) as nat);
        assert(int_str(v)[0] == '-');
        assert(int_str(v).skip(1) =~= dec_digits((-v) as nat));
    }
}

/// The decimal text of `v`, alone.
pub fn i64_to_string(v: i64) -> (r: String)
    ensures
        r@ == int_str(v as int),
{
    let mut out = String::new();
    append_i64(v, &mut out);
    proof {
        assert(out@ =~= int_str(v as int));
    }
    out
}

} // verus!
