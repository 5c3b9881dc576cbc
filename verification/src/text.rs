//! Character-level text rules: prefixes, equality, decimal numbers.
use vstd::prelude::*;
use vstd::string::*;

verus! {

/// `prefix` is an initial segment of `s`.
pub open spec fn is_prefix_of(prefix: Seq<char>, s: Seq<char>) -> bool {
    prefix.len() <= s.len() && s.subrange(0, prefix.len() as int) == prefix
}

/// Whether `s` begins with `prefix`, character by character.
pub fn starts_with(s: &str, prefix: &str) -> (res: bool)
    ensures
        res == is_prefix_of(prefix@, s@),
{
    let n = prefix.unicode_len();
    let m = s.unicode_len();
    if n > m {
        return false;
    }
    let mut i: usize = 0;
    while i < n
        invariant
            n == prefix@.len(),
            m == s@.len(),
            n <= m,
            i <= n,
            forall|j: int| 0 <= j < i ==> s@[j] == prefix@[j],
        decreases n - i,
    {
        if s.get_char(i) != prefix.get_char(i) {
            assert(s@.subrange(0, n as int)[i as int] != prefix@[i as int]);
            return false;
        }
        i += 1;
    }
    assert(s@.subrange(0, n as int) =~= prefix@);
    true
}

/// Whether two texts hold the same characters.
pub fn same_text(a: &str, b: &str) -> (res: bool)
    ensures
        res == (a@ == b@),
{
    let n = a.unicode_len();
    if n != b.unicode_len() {
        return false;
    }
    let mut i: usize = 0;
    while i < n
        invariant
            n == a@.len(),
            n == b@.len(),
            i <= n,
            forall|j: int| 0 <= j < i ==> a@[j] == b@[j],
        decreases n - i,
    {
        if a.get_char(i) != b.get_char(i) {
            return false;
        }
        i += 1;
    }
    assert(a@ =~= b@);
    true
}

/// An ASCII decimal digit.
pub open spec fn is_digit(c: char) -> bool {
    '0' <= c <= '9'
}

/// The value of a decimal digit.
pub open spec fn digit_value(c: char) -> int {
    c as int - '0' as int
}

/// Every character of `d` is a decimal digit.
pub open spec fn all_digits(d: Seq<char>) -> bool {
    forall|i: int| 0 <= i < d.len() ==> is_digit(#[trigger] d[i])
}

/// The number that a string of decimal digits denotes (most significant first).
pub open spec fn decimal_value(d: Seq<char>) -> int
    decreases d.len(),
{
    if d.len() == 0 {
        0
    } else {
        decimal_value(d.drop_last()) * 10 + digit_value(d.last())
    }
}

/// The digits of an unsigned number's text: one leading `+` is dropped.
pub open spec fn unsigned_digits(s: Seq<char>) -> Seq<char> {
    if s.len() > 0 && s[0] == '+' {
        s.skip(1)
    } else {
        s
    }
}

/// The `u128` that a text denotes, as `str::parse::<u128>` reads it: an
/// optional `+`, then at least one decimal digit and nothing else, with a
/// value that fits in 128 bits.
pub open spec fn parse_u128_spec(s: Seq<char>) -> Option<u128> {
    let d = unsigned_digits(s);
    if d.len() > 0 && all_digits(d) && decimal_value(d) <= u128::MAX {
        Some(decimal_value(d) as u128)
    } else {
        None
    }
}

/// Appending digits never lowers the value of a digit string.
proof fn lemma_decimal_value_prefix_monotone(d: Seq<char>, a: int, b: int)
    requires
        0 <= a <= b <= d.len(),
        all_digits(d),
    ensures
        decimal_value(d.take(a)) <= decimal_value(d.take(b)),
    decreases b - a,
{
    if a < b {
        lemma_decimal_value_prefix_monotone(d, a, b - 1);
        assert(d.take(b).drop_last() =~= d.take(b - 1));
        assert(is_digit(d[b - 1]));
        lemma_decimal_value_nonneg(d.take(b - 1));
    }
}

proof fn lemma_decimal_value_nonneg(d: Seq<char>)
    requires
        all_digits(d),
    ensures
        decimal_value(d) >= 0,
    decreases d.len(),
{
    if d.len() > 0 {
        assert(is_digit(d[d.len() - 1]));
        lemma_decimal_value_nonneg(d.drop_last());
    }
}

/// Reads a `u128` written in decimal, as `str::parse::<u128>` does.
pub fn parse_u128(s: &str) -> (res: Option<u128>)
    ensures
        res == parse_u128_spec(s@),
{
    let len = s.unicode_len();
    let mut start: usize = 0;
    if len > 0 && s.get_char(0) == '+' {
        start = 1;
    }
    if start >= len {
        return None;
    }
    let ghost d = unsigned_digits(s@);
    assert(d =~= s@.skip(start as int));
    let mut acc: u128 = 0;
    let mut i: usize = start;
    assert(d.take(0) =~= Seq::<char>::empty());
    while i < len
        invariant
            len == s@.len(),
            start < len,
            start <= i <= len,
            d == s@.skip(start as int),
            d == unsigned_digits(s@),
            all_digits(d.take(i - start)),
            acc == decimal_value(d.take(i - start)),
        decreases len - i,
    {
        let c = s.get_char(i);
        let k: usize = i - start;
        assert(d[k as int] == c);
        if !('0' <= c && c <= '9') {
            assert(!is_digit(d[k as int]));
            return None;
        }
        assert(d.take(k + 1).drop_last() =~= d.take(k as int));
        assert(all_digits(d.take(k + 1)));
        let dv: u128 = (c as u32 - '0' as u32) as u128;
        match acc.checked_mul(10) {
            None => {
                proof {
                    if all_digits(d) {
                        lemma_decimal_value_nonneg(d.take(k as int));
                        lemma_decimal_value_prefix_monotone(d, k + 1, d.len() as int);
                        assert(d.take(d.len() as int) =~= d);
                    }
                }
                return None;
            },
            Some(m) => match m.checked_add(dv) {
                None => {
                    proof {
                        if all_digits(d) {
                            lemma_decimal_value_prefix_monotone(d, k + 1, d.len() as int);
                            assert(d.take(d.len() as int) =~= d);
                        }
                    }
                    return None;
                },
                Some(v) => {
                    acc = v;
                },
            },
        }
        i += 1;
    }
    assert(d.take(len - start) =~= d);
    Some(acc)
}

/// The character of a decimal digit.
pub open spec fn digit_char(d: int) -> char {
    ('0' as int + d) as char
}

/// The decimal text of a natural number, without leading zeros.
pub open spec fn decimal_text(n: nat) -> Seq<char>
    decreases n,
{
    if n < 10 {
        seq![digit_char(n as int)]
    } else {
        decimal_text(n / 10).push(digit_char((n % 10) as int))
    }
}

fn digit_str(d: u64) -> (s: &'static str)
    requires
        d < 10,
    ensures
        s@ == seq![digit_char(d as int)],
{
    proof {
        reveal_strlit("0");
        reveal_strlit("1");
        reveal_strlit("2");
        reveal_strlit("3");
        reveal_strlit("4");
        reveal_strlit("5");
        reveal_strlit("6");
        reveal_strlit("7");
        reveal_strlit("8");
        reveal_strlit("9");
    }
    match d {
        0 => "0",
        1 => "1",
        2 => "2",
        3 => "3",
        4 => "4",
        5 => "5",
        6 => "6",
        7 => "7",
        8 => "8",
        _ => "9",
    }
}

/// Appends the decimal text of `n` to `out`.
pub fn push_decimal(out: &mut String, n: u64)
    ensures
        final(out)@ == old(out)@ + decimal_text(n as nat),
    decreases n,
{
    if n >= 10 {
        push_decimal(out, n / 10);
    }
    out.append(digit_str(n % 10));
    assert(decimal_text(n as nat) =~= if n < 10 {
        seq![digit_char(n as int)]
    } else {
        decimal_text((n / 10) as nat).push(digit_char((n % 10) as int))
    });
}

/// `d` is the canonical decimal writing of `v`: at least one digit, only
/// digits, no leading zero unless `v` is zero, and denoting `v`.
pub open spec fn canonical_decimal(d: Seq<char>, v: nat) -> bool {
    &&& d.len() > 0
    &&& all_digits(d)
    &&& decimal_value(d) == v
    &&& (d[0] == '0' ==> d.len() == 1)
}

/// The decimal text written for a number is its canonical decimal writing:
/// it reads back as the number, and zero is the only number written with
/// a leading `0`.
pub proof fn law_decimal_text_is_canonical(n: nat)
    ensures
        canonical_decimal(decimal_text(n), n),
        decimal_text(n)[0] == '0' ==> n == 0,
    decreases n,
{
    if n < 10 {
        let d = decimal_text(n);
        assert(d == seq![digit_char(n as int)]);
        assert(d.drop_last() =~= Seq::<char>::empty());
        assert(digit_char(n as int) as int == '0' as int + n);
        assert(is_digit(d[0]));
        assert(decimal_value(d.drop_last()) == 0);
        assert(digit_value(d.last()) == n);
        assert(decimal_value(d) == n);
        assert(all_digits(d));
    } else {
        law_decimal_text_is_canonical(n / 10);
        let t = decimal_text(n / 10);
        let d = decimal_text(n);
        let c = digit_char((n % 10) as int);
        assert(d == t.push(c));
        assert(d.drop_last() =~= t);
        assert(c as int == '0' as int + n % 10);
        assert forall|i: int| 0 <= i < d.len() implies is_digit(#[trigger] d[i]) by {
            if i < t.len() {
                assert(d[i] == t[i]);
            }
        }
        assert(d[0] == t[0]);
        assert(digit_value(d.last()) == n % 10);
        assert(decimal_value(d) == decimal_value(t) * 10 + n % 10);
        assert((n / 10) * 10 + n % 10 == n) by (nonlinear_arith);
    }
}

} // verus!
