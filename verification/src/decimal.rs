//! Unsigned decimal numbers in text: parsing with the rules of Rust's unsigned
//! `from_str` (an optional `+`, then ASCII digits only, checked against the
//! type's maximum), and printing without leading zeros.

use vstd::prelude::*;

verus! {

/// Why a decimal text is not an unsigned number of the wanted width.
#[derive(Debug, Clone, Copy, PartialEq, Eq, Structural)]
pub enum IntError {
    /// The text is empty.
    Empty,
    /// A character that is not an ASCII digit, or a lone sign.
    InvalidDigit,
    /// The digits denote a number above the type's maximum.
    PosOverflow,
}

pub open spec fn is_digit(c: char) -> bool {
    '0' <= c && c <= '9'
}

pub open spec fn digit_value(c: char) -> nat {
    (c as int - '0' as int) as nat
}

/// The ASCII digit that stands for `d` (below ten).
pub open spec fn digit_char(d: nat) -> char {
    (d + '0' as nat) as char
}

/// Reads `s` left to right as decimal digits; the first character that is not
/// a digit, or the first digit that takes the value above `max`, decides the error.
pub open spec fn scan_digits(s: Seq<char>, max: nat) -> Result<nat, IntError>
    decreases s.len(),
{
    if s.len() == 0 {
        Ok(0)
    } else {
        match scan_digits(s.drop_last(), max) {
            Err(e) => Err(e),
            Ok(v) => {
                if !is_digit(s.last()) {
                    Err(IntError::InvalidDigit)
                } else if v * 10 + digit_value(s.last()) > max {
                    Err(IntError::PosOverflow)
                } else {
                    Ok(v * 10 + digit_value(s.last()))
                }
            },
        }
    }
}

/// What parsing `s` as an unsigned number no greater than `max` gives.
pub open spec fn parse_unsigned_spec(s: Seq<char>, max: nat) -> Result<nat, IntError> {
    if s.len() == 0 {
        Err(IntError::Empty)
    } else if s[0] == '+' {
        if s.len() == 1 {
            Err(IntError::InvalidDigit)
        } else {
            scan_digits(s.drop_first(), max)
        }
    } else {
        scan_digits(s, max)
    }
}

/// The decimal digits of `n`, without leading zeros.
pub open spec fn dec_repr(n: nat) -> Seq<char>
    decreases n,
{
    if n < 10 {
        seq![digit_char(n)]
    } else {
        dec_repr(n / 10).push(digit_char(n % 10))
    }
}

proof fn lemma_scan_err_extends(s: Seq<char>, i: int, max: nat)
    requires
        0 <= i <= s.len(),
        scan_digits(s.take(i), max) is Err,
    ensures
        scan_digits(s, max) == scan_digits(s.take(i), max),
    decreases s.len() - i,
{
    if i < s.len() {
        assert(s.take(i + 1).drop_last() =~= s.take(i));
        lemma_scan_err_extends(s, i + 1, max);
    } else {
        assert(s.take(i) =~= s);
    }
}

proof fn lemma_digit_char(d: nat)
    requires
        d < 10,
    ensures
        is_digit(digit_char(d)),
        digit_value(digit_char(d)) == d,
{
}

pub proof fn lemma_dec_repr_digits(n: nat)
    ensures
        dec_repr(n).len() > 0,
        forall|i: int| 0 <= i < dec_repr(n).len() ==> #[trigger] is_digit(dec_repr(n)[i]),
    decreases n,
{
    if n < 10 {
        lemma_digit_char(n);
    } else {
        lemma_dec_repr_digits(n / 10);
        lemma_digit_char(n % 10);
    }
}

proof fn lemma_scan_dec_repr(n: nat, max: nat)
    requires
        n <= max,
    ensures
        scan_digits(dec_repr(n), max) == Ok::<nat, IntError>(n),
    decreases n,
{
    if n < 10 {
        lemma_digit_char(n);
        assert(dec_repr(n).drop_last() =~= Seq::<char>::empty());
        assert(scan_digits(Seq::<char>::empty(), max) == Ok::<nat, IntError>(0));
    } else {
        assert(n / 10 * 10 + n % 10 == n) by (nonlinear_arith);
        assert(n / 10 <= n) by (nonlinear_arith);
        lemma_scan_dec_repr(n / 10, max);
        lemma_digit_char(n % 10);
        assert(dec_repr(n).drop_last() =~= dec_repr(n / 10));
        assert(dec_repr(n).last() == digit_char(n % 10));
    }
}

/// Printing a number in decimal and parsing the text back gives the number,
/// for every width whose maximum the number does not exceed.
pub proof fn law_decimal_round_trip(n: nat, max: nat)
    requires
        n <= max,
    ensures
        parse_unsigned_spec(dec_repr(n), max) == Ok::<nat, IntError>(n),
{
    lemma_dec_repr_digits(n);
    lemma_scan_dec_repr(n, max);
    assert(is_digit(dec_repr(n)[0]));
}

/// Parses `s` as an unsigned decimal number no greater than `max`.
pub fn parse_unsigned(s: &str, max: u64) -> (r: Result<u64, IntError>)
    ensures
        match r {
            Ok(v) => parse_unsigned_spec(s@, max as nat) == Ok::<nat, IntError>(v as nat),
            Err(e) => parse_unsigned_spec(s@, max as nat) == Err::<nat, IntError>(e),
        },
{
    let len = s.unicode_len();
    if len == 0 {
        return Err(IntError::Empty);
    }
    let mut start: usize = 0;
    if s.get_char(0) == '+' {
        if len == 1 {
            return Err(IntError::InvalidDigit);
        }
        start = 1;
    }
    let ghost digits = s@.subrange(start as int, len as int);
    assert(start == 1 ==> digits =~= s@.drop_first());
    assert(start == 0 ==> digits =~= s@);
    let mut acc: u64 = 0;
    let mut i: usize = start;
    assert(digits.take(0) =~= Seq::<char>::empty());
    while i < len
        invariant
            start <= i <= len,
            start == 0 || start == 1,
            len == s@.len(),
            digits == s@.subrange(start as int, len as int),
            start == 1 ==> digits == s@.drop_first() && s@[0] == '+' && len > 1,
            start == 0 ==> digits == s@ && s@[0] != '+' && len > 0,
            acc <= max,
            scan_digits(digits.take(i - start), max as nat) == Ok::<nat, IntError>(acc as nat),
        decreases len - i,
    {
        let c = s.get_char(i);
        let ghost prefix = digits.take(i + 1 - start);
        assert(prefix.drop_last() =~= digits.take(i - start));
        assert(prefix.last() == c);
        if c < '0' || c > '9' {
            assert(scan_digits(prefix, max as nat) == Err::<nat, IntError>(IntError::InvalidDigit));
            proof {
                lemma_scan_err_extends(digits, i + 1 - start, max as nat);
            }
            return Err(IntError::InvalidDigit);
        }
        let d: u64 = (c as u32 - '0' as u32) as u64;
        assert(d == digit_value(c));
        let next: u128 = (acc as u128) * 10 + (d as u128);
        if next > max as u128 {
            assert(scan_digits(prefix, max as nat) == Err::<nat, IntError>(IntError::PosOverflow));
            proof {
                lemma_scan_err_extends(digits, i + 1 - start, max as nat);
            }
            return Err(IntError::PosOverflow);
        }
        acc = next as u64;
        i = i + 1;
    }
    assert(digits.take(len - start) =~= digits);
    Ok(acc)
}

/// Parses `s` as a `u16`, as `u16::from_str` does.
pub fn parse_u16(s: &str) -> (r: Result<u16, IntError>)
    ensures
        match r {
            Ok(v) => parse_unsigned_spec(s@, u16::MAX as nat) == Ok::<nat, IntError>(v as nat),
            Err(e) => parse_unsigned_spec(s@, u16::MAX as nat) == Err::<nat, IntError>(e),
        },
{
    match parse_unsigned(s, u16::MAX as u64) {
        Ok(v) => Ok(v as u16),
        Err(e) => Err(e),
    }
}

/// Parses `s` as a `u64`, as `u64::from_str` does.
pub fn parse_u64(s: &str) -> (r: Result<u64, IntError>)
    ensures
        match r {
            Ok(v) => parse_unsigned_spec(s@, u64::MAX as nat) == Ok::<nat, IntError>(v as nat),
            Err(e) => parse_unsigned_spec(s@, u64::MAX as nat) == Err::<nat, IntError>(e),
        },
{
    parse_unsigned(s, u64::MAX)
}

fn digit_text(d: u64) -> (r: &'static str)
    requires
        d < 10,
    ensures
        r@ == seq![digit_char(d as nat)],
{
    let r = if d == 0 {
        "0"
    } else if d == 1 {
        "1"
    } else if d == 2 {
        "2"
    } else if d == 3 {
        "3"
    } else if d == 4 {
        "4"
    } else if d == 5 {
        "5"
    } else if d == 6 {
        "6"
    } else if d == 7 {
        "7"
    } else if d == 8 {
        "8"
    } else {
        "9"
    };
    proof {
        reveal_strlit("0");
        reveal_strlit("1");
        reveal_strlit("2");
        reveal_strlit("3");
        reveal_strlit("4");
        reveal_strlit("5");
        reveal_strlit("6");
        reveal_strlit("7");
        reveal_strlit("8");
        reveal_strlit("9");
    }
    assert(r@ =~= seq![digit_char(d as nat)]);
    r
}

/// The decimal text of `n`, as `n.to_string()` writes it.
pub fn decimal_string(n: u64) -> (r: String)
    ensures
        r@ == dec_repr(n as nat),
    decreases n,
{
    if n < 10 {
        String::from_str(digit_text(n))
    } else {
        let mut s = decimal_string(n / 10);
        s.append(digit_text(n % 10));
        s
    }
}

} // verus!
