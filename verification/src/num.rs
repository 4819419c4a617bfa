//! Decimal and hexadecimal numerals.
use crate::text::{all_digits, char_is_digit, chars_of, is_digit};
use vstd::prelude::*;
use vstd::string::*;

verus! {

/// The character of one decimal digit.
pub open spec fn digit_char(d: nat) -> char {
    (48 + d) as char
}

/// The decimal numeral of `n`, without leading zeros.
pub open spec fn dec(n: nat) -> Seq<char>
    decreases n,
{
    if n < 10 {
        seq![digit_char(n)]
    } else {
        dec(n / 10).push(digit_char(n % 10))
    }
}

/// The decimal numeral of `n`, with a minus sign where it is negative.
pub open spec fn sdec(n: int) -> Seq<char> {
    if n < 0 {
        seq!['-'] + dec((-n) as nat)
    } else {
        dec(n as nat)
    }
}

/// The number that a string of decimal digits denotes.
pub open spec fn value(s: Seq<char>) -> nat
    decreases s.len(),
{
    if s.len() == 0 {
        0
    } else {
        value(s.drop_last()) * 10 + (s.last() as int - 48) as nat
    }
}

/// What an unsigned integer type with the given maximum accepts: an optional
/// plus sign and at least one digit, within range.
pub open spec fn parse_nat(s: Seq<char>, max: nat) -> Option<nat> {
    let t = if s.len() > 0 && s[0] == '+' {
        s.subrange(1, s.len() as int)
    } else {
        s
    };
    if t.len() > 0 && all_digits(t) && value(t) <= max {
        Some(value(t))
    } else {
        None
    }
}

/// What `i64` accepts: an optional sign and at least one digit, within range.
pub open spec fn parse_int(s: Seq<char>) -> Option<int> {
    if s.len() > 0 && s[0] == '-' {
        let t = s.subrange(1, s.len() as int);
        if t.len() > 0 && all_digits(t) && value(t) <= 0x8000_0000_0000_0000 {
            Some(-(value(t) as int))
        } else {
            None
        }
    } else {
        match parse_nat(s, 0x7fff_ffff_ffff_ffff) {
            Some(n) => Some(n as int),
            None => None,
        }
    }
}

pub fn digit_to_char(d: u64) -> (r: char)
    requires
        d < 10,
    ensures
        r == digit_char(d as nat),
{
    let b: u8 = 48 + d as u8;
    b as char
}

pub fn u64_str(n: u64) -> (r: String)
    ensures
        r@ == dec(n as nat),
    decreases n,
{
    if n < 10 {
        let mut s = String::new();
        s.push(digit_to_char(n));
        s
    } else {
        let mut s = u64_str(n / 10);
        s.push(digit_to_char(n % 10));
        s
    }
}

pub fn i64_str(n: i64) -> (r: String)
    ensures
        r@ == sdec(n as int),
{
    if n < 0 {
        let m: u64 = (-(n as i128)) as u64;
        let d = u64_str(m);
        let mut s = String::new();
        s.push('-');
        s.concat(&d)
    } else {
        u64_str(n as u64)
    }
}

pub fn usize_str(n: usize) -> (r: String)
    ensures
        r@ == dec(n as nat),
{
    u64_str(n as u64)
}

/// A numeral is at least as large as any of its prefixes.
proof fn lemma_value_prefix(s: Seq<char>, i: int)
    requires
        0 <= i <= s.len(),
    ensures
        value(s.take(i)) <= value(s),
    decreases s.len() - i,
{
    if i < s.len() {
        assert(s.take(i + 1).drop_last() =~= s.take(i));
        lemma_value_prefix(s, i + 1);
    } else {
        assert(s.take(i) =~= s);
    }
}

/// The value of the digits of `v` from `from` on, where there is at least one,
/// all are digits and the value does not exceed `max`.
pub(crate) fn digits_value(v: &Vec<char>, from: usize, max: u64) -> (r: Option<u64>)
    requires
        from <= v.len(),
    ensures
        ({
            let t = v@.subrange(from as int, v.len() as int);
            match r {
                Some(n) => t.len() > 0 && all_digits(t) && value(t) == n && n <= max,
                None => !(t.len() > 0 && all_digits(t) && value(t) <= max),
            }
        }),
{
    let ghost t = v@.subrange(from as int, v.len() as int);
    if from >= v.len() {
        return None;
    }
    let mut acc: u64 = 0;
    let mut i: usize = from;
    assert(t.take(0) =~= Seq::<char>::empty());
    while i < v.len()
        invariant
            from <= i <= v.len(),
            t == v@.subrange(from as int, v.len() as int),
            acc == value(t.take(i - from)),
            acc <= max,
            forall|k: int| 0 <= k < i - from ==> is_digit(#[trigger] t[k]),
        decreases v.len() - i,
    {
        assert(t[i - from] == v@[i as int]);
        if !char_is_digit(v[i]) {
            return None;
        }
        let d: u64 = (v[i] as u32 - 48) as u64;
        let wide: u128 = acc as u128 * 10 + d as u128;
        proof {
            assert(t.take(i - from + 1).drop_last() =~= t.take(i - from));
            assert(t.take(i - from + 1).last() == v@[i as int]);
            lemma_value_prefix(t, i - from + 1);
        }
        if wide > max as u128 {
            return None;
        }
        acc = wide as u64;
        i += 1;
    }
    assert(t.take(v.len() - from) =~= t);
    Some(acc)
}

/// Reads an unsigned decimal integer that is at most `max`.
pub fn parse_u64_max(s: &str, max: u64) -> (r: Option<u64>)
    ensures
        match r {
            Some(n) => parse_nat(s@, max as nat) == Some(n as nat),
            None => parse_nat(s@, max as nat) is None,
        },
{
    let v = chars_of(s);
    if v.len() > 0 && v[0] == '+' {
        digits_value(&v, 1, max)
    } else {
        assert(v@.subrange(0, v.len() as int) =~= v@);
        digits_value(&v, 0, max)
    }
}

/// Reads a signed decimal integer.
pub fn parse_i64(s: &str) -> (r: Option<i64>)
    ensures
        match r {
            Some(n) => parse_int(s@) == Some(n as int),
            None => parse_int(s@) is None,
        },
{
    let v = chars_of(s);
    if v.len() > 0 && v[0] == '-' {
        match digits_value(&v, 1, 0x8000_0000_0000_0000) {
            Some(n) => Some((-(n as i128)) as i64),
            None => None,
        }
    } else {
        match parse_u64_max(s, 0x7fff_ffff_ffff_ffff) {
            Some(n) => Some(n as i64),
            None => None,
        }
    }
}

/// Decimal numerals are made of digits, at least one.
pub proof fn lemma_dec_digits(n: nat)
    ensures
        dec(n).len() > 0,
        all_digits(dec(n)),
    decreases n,
{
    if n >= 10 {
        lemma_dec_digits(n / 10);
        assert(all_digits(dec(n / 10)));
        assert(forall|i: int| 0 <= i < dec(n / 10).len() ==> dec(n)[i] == dec(n / 10)[i]);
    }
}

/// Reading back a rendered number gives the number.
pub proof fn law_dec_value(n: nat)
    ensures
        value(dec(n)) == n,
    decreases n,
{
    if n >= 10 {
        law_dec_value(n / 10);
        assert(dec(n).drop_last() =~= dec(n / 10));
    } else {
        assert(dec(n).drop_last() =~= Seq::<char>::empty());
        assert(value(dec(n).drop_last()) == 0);
    }
}

/// A rendered number that fits is read back as itself.
pub proof fn law_parse_rendered(n: nat, max: nat)
    requires
        n <= max,
    ensures
        parse_nat(dec(n), max) == Some(n),
{
    lemma_dec_digits(n);
    law_dec_value(n);
    assert(is_digit(dec(n)[0]));
}

/// A rendered signed number that fits is read back as itself.
pub proof fn law_parse_rendered_signed(n: int)
    requires
        i64::MIN <= n <= i64::MAX,
    ensures
        parse_int(sdec(n)) == Some(n),
{
    if n < 0 {
        let m = (-n) as nat;
        lemma_dec_digits(m);
        law_dec_value(m);
        let s = sdec(n);
        assert(s.subrange(1, s.len() as int) =~= dec(m));
    } else {
        law_parse_rendered(n as nat, 0x7fff_ffff_ffff_ffff);
        lemma_dec_digits(n as nat);
        assert(is_digit(dec(n as nat)[0]));
    }
}

} // verus!
