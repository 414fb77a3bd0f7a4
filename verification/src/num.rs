//! Decimal numerals: parsing and formatting of unsigned integers, with exact
//! specifications of which strings are accepted and what they denote.

use vstd::prelude::*;

verus! {

/// A decimal digit character.
pub open spec fn is_digit_char(c: char) -> bool {
    '0' <= c && c <= '9'
}

/// The numeric value of a digit character.
pub open spec fn digit_val(c: char) -> nat {
    (c as nat - '0' as nat) as nat
}

/// Every character of `s` is a decimal digit.
pub open spec fn all_digits(s: Seq<char>) -> bool {
    forall|i: int| 0 <= i < s.len() ==> is_digit_char(s[i])
}

/// The value denoted by a sequence of digit characters, most significant first.
pub open spec fn dec_value(s: Seq<char>) -> nat
    decreases s.len(),
{
    if s.len() == 0 {
        0
    } else {
        dec_value(s.drop_last()) * 10 + digit_val(s.last())
    }
}

/// The digits of a numeral with an optional leading `+` sign stripped.
pub open spec fn numeral_body(s: Seq<char>) -> Seq<char> {
    if s.len() > 0 && s[0] == '+' {
        s.subrange(1, s.len() as int)
    } else {
        s
    }
}

/// `s` is accepted as a `u32` numeral: an optional `+`, then at least one
/// digit, denoting a value that fits in 32 bits.
pub open spec fn is_u32_numeral(s: Seq<char>) -> bool {
    let b = numeral_body(s);
    b.len() > 0 && all_digits(b) && dec_value(b) <= u32::MAX
}

/// The value of an accepted `u32` numeral.
pub open spec fn u32_numeral_value(s: Seq<char>) -> nat {
    dec_value(numeral_body(s))
}

/// `s` is accepted as a `u64` numeral.
pub open spec fn is_u64_numeral(s: Seq<char>) -> bool {
    let b = numeral_body(s);
    b.len() > 0 && all_digits(b) && dec_value(b) <= u64::MAX
}

/// The value of an accepted `u64` numeral.
pub open spec fn u64_numeral_value(s: Seq<char>) -> nat {
    dec_value(numeral_body(s))
}

/// Extending a digit string on the right never decreases its value.
proof fn lemma_dec_value_prefix(s: Seq<char>, i: int)
    requires
        0 <= i <= s.len(),
    ensures
        dec_value(s.subrange(0, i)) <= dec_value(s),
    decreases s.len(),
{
    if i < s.len() {
        assert(s.subrange(0, i) == s.drop_last().subrange(0, i));
        lemma_dec_value_prefix(s.drop_last(), i);
        assert(dec_value(s.drop_last()) * 10 >= dec_value(s.drop_last())) by (nonlinear_arith);
    } else {
        assert(s.subrange(0, i) == s);
    }
}

/// Parses the digit characters of `s` in the index range `[from, s@.len())`,
/// accumulating into a `u64`; rejects a non-digit, an empty range, and a value
/// over `limit`.
fn parse_digits(s: &str, from: usize, limit: u64) -> (r: Option<u64>)
    requires
        from <= s@.len(),
        limit >= 9,
    ensures
        ({
            let b = s@.subrange(from as int, s@.len() as int);
            match r {
                Some(v) => b.len() > 0 && all_digits(b) && dec_value(b) == v && v <= limit,
                None => !(b.len() > 0 && all_digits(b) && dec_value(b) <= limit),
            }
        }),
{
    let ghost b = s@.subrange(from as int, s@.len() as int);
    let n = s.unicode_len();
    if from == n {
        return None;
    }
    let mut acc: u64 = 0;
    let mut i: usize = from;
    while i < n
        invariant
            from <= i <= n,
            n == s@.len(),
            limit >= 9,
            b == s@.subrange(from as int, s@.len() as int),
            all_digits(b.subrange(0, i - from)),
            acc == dec_value(b.subrange(0, i - from)),
            acc <= limit,
        decreases n - i,
    {
        let c = s.get_char(i);
        if c < '0' || c > '9' {
            assert(!all_digits(b)) by {
                assert(b[i - from] == c);
            }
            return None;
        }
        let d: u64 = (c as u32 as u64) - ('0' as u32 as u64);
        assert(d == digit_val(c));
        assert(d <= 9);
        assert(b.subrange(0, i + 1 - from).drop_last() == b.subrange(0, i - from));
        assert(b.subrange(0, i + 1 - from).last() == c);
        if acc > (limit - d) / 10 {
            // The value of the digits read so far already exceeds `limit`.
            proof {
                assert(acc * 10 + d > limit) by (nonlinear_arith)
                    requires
                        acc > (limit - d) / 10,
                        d <= 9,
                        d <= limit,
                ;
                lemma_dec_value_prefix(b, i + 1 - from);
            }
            return None;
        }
        acc = acc * 10 + d;
        i += 1;
    }
    assert(b.subrange(0, i - from) == b);
    Some(acc)
}

/// Parses `s` as Rust's `u32::from_str` does: an optional leading `+`,
/// then one or more decimal digits, with the value fitting in a `u32`.
pub fn parse_u32(s: &str) -> (r: Option<u32>)
    ensures
        r is Some <==> is_u32_numeral(s@),
        r matches Some(v) ==> v == u32_numeral_value(s@),
{
    let n = s.unicode_len();
    let from: usize = if n > 0 && s.get_char(0) == '+' {
        1
    } else {
        0
    };
    assert(numeral_body(s@) == s@.subrange(from as int, s@.len() as int));
    match parse_digits(s, from, u32::MAX as u64) {
        Some(v) => Some(v as u32),
        None => None,
    }
}

/// Parses `s` as Rust's `u64::from_str` does.
pub fn parse_u64(s: &str) -> (r: Option<u64>)
    ensures
        r is Some <==> is_u64_numeral(s@),
        r matches Some(v) ==> v == u64_numeral_value(s@),
{
    let n = s.unicode_len();
    let from: usize = if n > 0 && s.get_char(0) == '+' {
        1
    } else {
        0
    };
    assert(numeral_body(s@) == s@.subrange(from as int, s@.len() as int));
    parse_digits(s, from, u64::MAX)
}

/// The digit character for a value below ten.
pub open spec fn digit_char(d: nat) -> char {
    if d == 0 {
        '0'
    } else if d == 1 {
        '1'
    } else if d == 2 {
        '2'
    } else if d == 3 {
        '3'
    } else if d == 4 {
        '4'
    } else if d == 5 {
        '5'
    } else if d == 6 {
        '6'
    } else if d == 7 {
        '7'
    } else if d == 8 {
        '8'
    } else {
        '9'
    }
}

/// The canonical decimal numeral of `n`: no sign, no leading zero except for
/// `n == 0` itself.
pub open spec fn dec_digits(n: nat) -> Seq<char>
    decreases n,
{
    if n < 10 {
        seq![digit_char(n)]
    } else {
        dec_digits(n / 10).push(digit_char(n % 10))
    }
}

/// The one-character string for a digit value.
fn digit_str(d: u64) -> (s: &'static str)
    requires
        d < 10,
    ensures
        s@ =~= seq![digit_char(d as nat)],
{
    proof {
        reveal_strlit("0");
        reveal_strlit("1");
        reveal_strlit("2");
        reveal_strlit("3");
        reveal_strlit("4");
        reveal_strlit("5");
        reveal_strlit("6");
        reveal_strlit("7");
        reveal_strlit("8");
        reveal_strlit("9");
    }
    if d == 0 {
        "0"
    } else if d == 1 {
        "1"
    } else if d == 2 {
        "2"
    } else if d == 3 {
        "3"
    } else if d == 4 {
        "4"
    } else if d == 5 {
        "5"
    } else if d == 6 {
        "6"
    } else if d == 7 {
        "7"
    } else if d == 8 {
        "8"
    } else {
        "9"
    }
}

/// A canonical numeral is one or more digit characters, and its first
/// character is a digit, never a sign.
pub proof fn lemma_dec_digits_shape(n: nat)
    ensures
        dec_digits(n).len() >= 1,
        all_digits(dec_digits(n)),
        is_digit_char(dec_digits(n)[0]),
    decreases n,
{
    if n >= 10 {
        lemma_dec_digits_shape(n / 10);
        let d = dec_digits(n);
        assert(d.drop_last() == dec_digits(n / 10));
        assert(forall|i: int| 0 <= i < d.len() - 1 ==> d[i] == dec_digits(n / 10)[i]);
    }
}

/// A canonical numeral denotes the number it was formed from.
pub proof fn lemma_dec_digits_value(n: nat)
    ensures
        dec_value(dec_digits(n)) == n,
    decreases n,
{
    assert(digit_val(digit_char(n % 10)) == n % 10);
    if n < 10 {
        let d = dec_digits(n);
        assert(d =~= seq![digit_char(n)]);
        assert(d.last() == digit_char(n));
        assert(d.drop_last() =~= Seq::<char>::empty());
        assert(dec_value(d.drop_last()) == 0);
        assert(dec_value(d) == digit_val(digit_char(n)));
        assert(digit_val(digit_char(n)) == n);
    } else {
        lemma_dec_digits_value(n / 10);
        let d = dec_digits(n);
        assert(d.drop_last() == dec_digits(n / 10));
        assert(d.last() == digit_char(n % 10));
        assert(dec_value(d) == (n / 10) * 10 + n % 10);
        assert((n / 10) * 10 + n % 10 == n);
    }
}

/// Formats `n` as its canonical decimal numeral.
pub fn u64_to_string(n: u64) -> (s: String)
    ensures
        s@ =~= dec_digits(n as nat),
{
    let mut low_digits: Vec<u64> = Vec::new();
    let mut m: u64 = n;
    while m >= 10
        invariant
            forall|i: int| 0 <= i < low_digits@.len() ==> low_digits@[i] < 10,
            dec_digits(n as nat) =~= dec_digits(m as nat) + Seq::new(
                low_digits@.len(),
                |i: int| digit_char(low_digits@[low_digits@.len() - 1 - i] as nat),
            ),
        decreases m,
    {
        let d = m % 10;
        m = m / 10;
        low_digits.push(d);
        proof {
            let prev = low_digits@.drop_last();
            let cur = low_digits@;
            assert(Seq::new(cur.len(), |i: int| digit_char(cur[cur.len() - 1 - i] as nat))
                =~= seq![digit_char(d as nat)] + Seq::new(
                    prev.len(),
                    |i: int| digit_char(prev[prev.len() - 1 - i] as nat),
                ));
        }
    }
    let mut s = String::new();
    s.append(digit_str(m));
    let mut k: usize = low_digits.len();
    while k > 0
        invariant
            k <= low_digits@.len(),
            forall|i: int| 0 <= i < low_digits@.len() ==> low_digits@[i] < 10,
            s@ =~= dec_digits(m as nat) + Seq::new(
                (low_digits@.len() - k) as nat,
                |i: int| digit_char(low_digits@[low_digits@.len() - 1 - i] as nat),
            ),
        decreases k,
    {
        k -= 1;
        s.append(digit_str(low_digits[k]));
    }
    assert(s@ =~= dec_digits(m as nat) + Seq::new(
        low_digits@.len(),
        |i: int| digit_char(low_digits@[low_digits@.len() - 1 - i] as nat),
    ));
    s
}

/// Formats `n` as its canonical decimal numeral.
pub fn u32_to_string(n: u32) -> (s: String)
    ensures
        s@ =~= dec_digits(n as nat),
{
    u64_to_string(n as u64)
}

} // verus!
