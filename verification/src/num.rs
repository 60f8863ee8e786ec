//! Decimal and octal text for unsigned and signed integers: parsing with the rules of
//! `u64::from_str`, `u32::from_str_radix` and friends, and formatting as `Display` and `{:o}` do.

use vstd::prelude::*;

use crate::text::{chars, push_char};

verus! {

/// `c` is a digit in `radix` (2..=10).
pub open spec fn is_digit(c: char, radix: nat) -> bool {
    48 <= (c as int) < 48 + radix
}

/// The value of the digit `c`.
pub open spec fn digit_val(c: char) -> nat {
    ((c as int) - 48) as nat
}

/// The character for the digit `d` (`d < 10`).
pub open spec fn digit_char(d: nat) -> char {
    (48 + d) as char
}

/// Every character of `s` is a digit in `radix`.
pub open spec fn all_digits(s: Seq<char>, radix: nat) -> bool {
    forall|i: int| 0 <= i < s.len() ==> is_digit(#[trigger] s[i], radix)
}

/// The value of the digit string `s` in `radix`.
pub open spec fn digits_value(s: Seq<char>, radix: nat) -> nat
    decreases s.len(),
{
    if s.len() == 0 {
        0
    } else {
        digits_value(s.drop_last(), radix) * radix + digit_val(s.last())
    }
}

/// The digits after an optional leading `+`.
pub open spec fn unsigned_digits(s: Seq<char>) -> Seq<char> {
    if s.len() > 0 && s[0] == '+' {
        s.drop_first()
    } else {
        s
    }
}

/// What the standard library's unsigned integer parsing gives for `s` in `radix` with largest
/// value `max`: an optional `+`, then at least one digit, and a value no greater than `max`.
pub open spec fn parse_unsigned(s: Seq<char>, radix: nat, max: nat) -> Option<nat> {
    let d = unsigned_digits(s);
    if d.len() > 0 && all_digits(d, radix) && digits_value(d, radix) <= max {
        Some(digits_value(d, radix))
    } else {
        None
    }
}

/// The shortest digit string of `n` in `radix`.
pub open spec fn digits_of(n: nat, radix: nat) -> Seq<char>
    recommends
        2 <= radix <= 10,
    decreases n,
{
    if radix < 2 || n < radix {
        seq![digit_char(n)]
    } else {
        proof {
            lemma_div_smaller(n, radix);
        }
        digits_of(n / radix, radix).push(digit_char(n % radix))
    }
}

/// Decimal text of `n`, as `Display` writes it.
pub open spec fn decimal(n: nat) -> Seq<char> {
    digits_of(n, 10)
}

/// Decimal text of a signed `n`, as `Display` writes it.
pub open spec fn signed_decimal(n: int) -> Seq<char> {
    if n < 0 {
        seq!['-'] + decimal((-n) as nat)
    } else {
        decimal(n as nat)
    }
}

pub proof fn lemma_div_smaller(n: nat, radix: nat)
    requires
        2 <= radix <= n,
    ensures
        n / radix < n,
        n % radix < radix,
        n == (n / radix) * radix + n % radix,
{
    assert(n / radix < n) by (nonlinear_arith)
        requires
            2 <= radix <= n,
    ;
    assert(n % radix < radix) by (nonlinear_arith)
        requires
            2 <= radix,
    ;
    assert(n == (n / radix) * radix + n % radix) by (nonlinear_arith)
        requires
            2 <= radix,
    ;
}

proof fn lemma_digits_value_prefix(s: Seq<char>, radix: nat, i: int)
    requires
        0 <= i <= s.len(),
        radix >= 1,
    ensures
        digits_value(s.subrange(0, i), radix) <= digits_value(s, radix),
    decreases s.len() - i,
{
    if i < s.len() {
        lemma_digits_value_prefix(s, radix, i + 1);
        let p = s.subrange(0, i + 1);
        assert(p.drop_last() =~= s.subrange(0, i));
        assert(digits_value(p, radix) == digits_value(s.subrange(0, i), radix) * radix + digit_val(
            p.last(),
        ));
        assert(digits_value(s.subrange(0, i), radix) * radix >= digits_value(s.subrange(0, i), radix))
            by (nonlinear_arith)
            requires
                radix >= 1,
        ;
    } else {
        assert(s.subrange(0, i) =~= s);
    }
}

/// Parse the digits `v[lo..hi]` in `radix`, giving up above `max`.
fn parse_digits(v: &Vec<char>, lo: usize, hi: usize, radix: u64, max: u64) -> (r: Option<u64>)
    requires
        lo <= hi <= v@.len(),
        2 <= radix <= 10,
        max >= 9,
    ensures
        match r {
            Some(n) => {
                let d = v@.subrange(lo as int, hi as int);
                all_digits(d, radix as nat) && digits_value(d, radix as nat) == n && n <= max
            },
            None => {
                let d = v@.subrange(lo as int, hi as int);
                !(all_digits(d, radix as nat) && digits_value(d, radix as nat) <= max)
            },
        },
{
    let ghost d = v@.subrange(lo as int, hi as int);
    let mut acc: u64 = 0;
    let mut i = lo;
    while i < hi
        invariant
            lo <= i <= hi <= v@.len(),
            2 <= radix <= 10,
            d == v@.subrange(lo as int, hi as int),
            forall|k: int| 0 <= k < i - lo ==> is_digit(#[trigger] d[k], radix as nat),
            digits_value(d.subrange(0, i - lo), radix as nat) == acc,
            acc <= max,
            max >= 9,
        decreases hi - i,
    {
        let c = v[i];
        let ghost p = d.subrange(0, i - lo + 1);
        assert(p.drop_last() =~= d.subrange(0, i - lo));
        assert(p.last() == c);
        let cn = char_code(c);
        let ok = 48 <= cn && (cn as u64) < 48 + radix;
        if !ok {
            assert(!is_digit(d[i - lo], radix as nat));
            return None;
        }
        let dv = (cn - 48) as u64;
        assert(d[i - lo] == c);
        assert(dv == digit_val(c));
        assert(is_digit(d[i - lo], radix as nat));
        let lim = (max - dv) / radix;
        if acc > lim {
            proof {
                assert(acc * radix + dv > max) by (nonlinear_arith)
                    requires
                        acc > lim,
                        lim == (max - dv) / (radix as int),
                        radix >= 2,
                        dv <= max,
                ;
                lemma_digits_value_prefix(d, radix as nat, i - lo + 1);
            }
            return None;
        }
        proof {
            assert(acc * radix + dv <= max) by (nonlinear_arith)
                requires
                    acc <= lim,
                    lim == (max - dv) / (radix as int),
                    radix >= 2,
                    dv <= max,
            ;
        }
        acc = acc * radix + dv;
        i = i + 1;
    }
    assert(d.subrange(0, hi - lo) =~= d);
    Some(acc)
}

/// Parse `s` as an unsigned integer in `radix` no greater than `max`, by the rules of the
/// standard library's `from_str_radix`.
pub fn parse_unsigned_str(s: &str, radix: u64, max: u64) -> (r: Option<u64>)
    requires
        2 <= radix <= 10,
        max >= 9,
    ensures
        match r {
            Some(n) => parse_unsigned(s@, radix as nat, max as nat) == Some(n as nat),
            None => parse_unsigned(s@, radix as nat, max as nat) is None,
        },
{
    let v = chars(s);
    let lo: usize = if v.len() > 0 && v[0] == '+' {
        1
    } else {
        0
    };
    assert(v@.subrange(lo as int, v@.len() as int) =~= unsigned_digits(s@));
    if lo == v.len() {
        return None;
    }
    parse_digits(&v, lo, v.len(), radix, max)
}

/// `u64::from_str`.
pub fn parse_u64(s: &str) -> (r: Option<u64>)
    ensures
        match r {
            Some(n) => parse_unsigned(s@, 10, u64::MAX as nat) == Some(n as nat),
            None => parse_unsigned(s@, 10, u64::MAX as nat) is None,
        },
{
    parse_unsigned_str(s, 10, u64::MAX)
}

/// `u32::from_str`.
pub fn parse_u32(s: &str) -> (r: Option<u32>)
    ensures
        match r {
            Some(n) => parse_unsigned(s@, 10, u32::MAX as nat) == Some(n as nat),
            None => parse_unsigned(s@, 10, u32::MAX as nat) is None,
        },
{
    match parse_unsigned_str(s, 10, u32::MAX as u64) {
        Some(n) => Some(n as u32),
        None => None,
    }
}

/// `u8::from_str`.
pub fn parse_u8(s: &str) -> (r: Option<u8>)
    ensures
        match r {
            Some(n) => parse_unsigned(s@, 10, u8::MAX as nat) == Some(n as nat),
            None => parse_unsigned(s@, 10, u8::MAX as nat) is None,
        },
{
    match parse_unsigned_str(s, 10, u8::MAX as u64) {
        Some(n) => Some(n as u8),
        None => None,
    }
}

/// `u32::from_str_radix(s, 8)`.
pub fn parse_octal_u32(s: &str) -> (r: Option<u32>)
    ensures
        match r {
            Some(n) => parse_unsigned(s@, 8, u32::MAX as nat) == Some(n as nat),
            None => parse_unsigned(s@, 8, u32::MAX as nat) is None,
        },
{
    match parse_unsigned_str(s, 8, u32::MAX as u64) {
        Some(n) => Some(n as u32),
        None => None,
    }
}

/// What `i32::from_str` gives for `s`: an optional `+` or `-`, then at least one decimal digit,
/// with a value in the range of `i32`.
pub open spec fn parse_i32_spec(s: Seq<char>) -> Option<int> {
    if s.len() > 0 && s[0] == '-' {
        let d = s.drop_first();
        if d.len() > 0 && all_digits(d, 10) && digits_value(d, 10) <= 0x8000_0000 {
            Some(-(digits_value(d, 10) as int))
        } else {
            None
        }
    } else {
        match parse_unsigned(s, 10, i32::MAX as nat) {
            Some(n) => Some(n as int),
            None => None,
        }
    }
}

/// `i32::from_str`.
pub fn parse_i32(s: &str) -> (r: Option<i32>)
    ensures
        match r {
            Some(n) => parse_i32_spec(s@) == Some(n as int),
            None => parse_i32_spec(s@) is None,
        },
{
    let v = chars(s);
    if v.len() > 0 && v[0] == '-' {
        assert(v@.subrange(1, v@.len() as int) =~= s@.drop_first());
        if v.len() == 1 {
            return None;
        }
        match parse_digits(&v, 1, v.len(), 10, 0x8000_0000) {
            Some(n) => {
                let m: i64 = 0 - (n as i64);
                Some(m as i32)
            },
            None => None,
        }
    } else {
        match parse_unsigned_str(s, 10, 0x7fff_ffff) {
            Some(n) => Some(n as i32),
            None => None,
        }
    }
}

/// What `i64::from_str` gives for `s`: an optional `+` or `-`, then at least one decimal digit,
/// with a value in the range of `i64`.
pub open spec fn parse_i64_spec(s: Seq<char>) -> Option<int> {
    if s.len() > 0 && s[0] == '-' {
        let d = s.drop_first();
        if d.len() > 0 && all_digits(d, 10) && digits_value(d, 10) <= 0x8000_0000_0000_0000 {
            Some(-(digits_value(d, 10) as int))
        } else {
            None
        }
    } else {
        match parse_unsigned(s, 10, i64::MAX as nat) {
            Some(n) => Some(n as int),
            None => None,
        }
    }
}

/// `i64::from_str`.
pub fn parse_i64(s: &str) -> (r: Option<i64>)
    ensures
        match r {
            Some(n) => parse_i64_spec(s@) == Some(n as int),
            None => parse_i64_spec(s@) is None,
        },
{
    let v = chars(s);
    if v.len() > 0 && v[0] == '-' {
        assert(v@.subrange(1, v@.len() as int) =~= s@.drop_first());
        if v.len() == 1 {
            return None;
        }
        match parse_digits(&v, 1, v.len(), 10, 0x8000_0000_0000_0000) {
            Some(n) => {
                if n == 0x8000_0000_0000_0000 {
                    Some(i64::MIN)
                } else {
                    Some(0 - (n as i64))
                }
            },
            None => None,
        }
    } else {
        match parse_unsigned_str(s, 10, 0x7fff_ffff_ffff_ffff) {
            Some(n) => Some(n as i64),
            None => None,
        }
    }
}

/// Append the digits of `n` in `radix` to `s`.
pub fn write_digits(s: &mut String, n: u128, radix: u128)
    requires
        2 <= radix <= 10,
    ensures
        final(s)@ == old(s)@ + digits_of(n as nat, radix as nat),
    decreases n,
{
    if n < radix {
        let c = char_of_digit(n);
        push_char(s, c);
        assert(old(s)@.push(c) =~= old(s)@ + seq![c]);
    } else {
        assert(n / radix < n) by (nonlinear_arith)
            requires
                2 <= radix <= n,
        ;
        write_digits(s, n / radix, radix);
        let c = char_of_digit(n % radix);
        let ghost mid = s@;
        push_char(s, c);
        assert(mid.push(c) =~= old(s)@ + digits_of((n / radix) as nat, radix as nat).push(c));
    }
}

/// The code point of `c`.
pub fn char_code(c: char) -> (n: u32)
    ensures
        n as int == c as int,
{
    c as u32
}

fn char_of_digit(d: u128) -> (c: char)
    requires
        d < 10,
    ensures
        c == digit_char(d as nat),
{
    if d == 0 {
        '0'
    } else if d == 1 {
        '1'
    } else if d == 2 {
        '2'
    } else if d == 3 {
        '3'
    } else if d == 4 {
        '4'
    } else if d == 5 {
        '5'
    } else if d == 6 {
        '6'
    } else if d == 7 {
        '7'
    } else if d == 8 {
        '8'
    } else {
        '9'
    }
}

/// Append the decimal text of `n` to `s`.
pub fn write_decimal(s: &mut String, n: u128)
    ensures
        final(s)@ == old(s)@ + decimal(n as nat),
{
    write_digits(s, n, 10);
}

/// Append the decimal text of a signed `n` to `s`.
pub fn write_signed_decimal(s: &mut String, n: i128)
    ensures
        final(s)@ == old(s)@ + signed_decimal(n as int),
{
    if n < 0 {
        let ghost s0 = s@;
        push_char(s, '-');
        let m: u128 = if n == i128::MIN {
            (i128::MAX as u128) + 1
        } else {
            (-n) as u128
        };
        write_digits(s, m, 10);
        assert(s@ =~= s0 + (seq!['-'] + decimal((-n) as nat)));
    } else {
        write_digits(s, n as u128, 10);
    }
}

/// The decimal text of `n`.
pub fn decimal_string(n: u128) -> (s: String)
    ensures
        s@ == decimal(n as nat),
{
    let mut s = String::new();
    write_decimal(&mut s, n);
    assert(Seq::<char>::empty() + decimal(n as nat) =~= decimal(n as nat));
    s
}

/// The digit text of `n` is all digits, has no leading `+`, and has the value `n`.
pub proof fn lemma_digits_of(n: nat, radix: nat)
    requires
        2 <= radix <= 10,
    ensures
        digits_of(n, radix).len() > 0,
        all_digits(digits_of(n, radix), radix),
        digits_value(digits_of(n, radix), radix) == n,
        digits_of(n, radix)[0] != '+',
        forall|i: int| 0 <= i < digits_of(n, radix).len() ==> '0' <= #[trigger] digits_of(n, radix)[i]
            <= '9',
    decreases n,
{
    if n < radix {
        let s = seq![digit_char(n)];
        assert(s.drop_last() =~= Seq::<char>::empty());
        assert(digit_val(digit_char(n)) == n);
        assert(digits_value(s, radix) == digits_value(s.drop_last(), radix) * radix + digit_val(s.last()));
        assert(digits_value(s.drop_last(), radix) == 0);
        assert(s.last() == digit_char(n));
        assert(0 * radix == 0);
        assert(digits_value(s, radix) == n);
    } else {
        lemma_div_smaller(n, radix);
        lemma_digits_of(n / radix, radix);
        let p = digits_of(n / radix, radix);
        let s = p.push(digit_char(n % radix));
        assert(s.drop_last() =~= p);
        assert(digit_val(digit_char(n % radix)) == n % radix);
        assert(s.last() == digit_char(n % radix));
        assert(digits_value(s, radix) == digits_value(p, radix) * radix + digit_val(s.last()));
        assert(digits_value(p, radix) == n / radix);
        assert(digits_value(p, radix) * radix == (n / radix) * radix);
        assert(digits_value(s, radix) == n);
        assert(s == digits_of(n, radix));
        assert(s[0] == p[0]);
        assert forall|i: int| 0 <= i < s.len() implies is_digit(#[trigger] s[i], radix) by {
            if i < p.len() {
                assert(s[i] == p[i]);
            }
        }
        assert forall|i: int| 0 <= i < s.len() implies '0' <= #[trigger] s[i] <= '9' by {
            if i < p.len() {
                assert(s[i] == p[i]);
            }
        }
    }
}

/// Parsing the decimal text of `n` gives `n` back.
pub proof fn lemma_parse_decimal(n: nat, max: nat)
    requires
        n <= max,
    ensures
        parse_unsigned(decimal(n), 10, max) == Some(n),
{
    lemma_digits_of(n, 10);
}

} // verus!
