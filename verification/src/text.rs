//! Text helpers: comparing, trimming, and writing and reading integers.
//!
//! A string is modelled by the sequence of its characters.

use vstd::prelude::*;
use vstd::string::{StrSliceExecFns, StringExecFns};

verus! {

/// The character that stands for the digit `d`, in lower case.
pub open spec fn digit_char(d: int) -> char {
    if d < 10 {
        ('0' as int + d) as char
    } else {
        ('a' as int + d - 10) as char
    }
}

/// The digit that `c` stands for in the given radix, in either case.
pub open spec fn digit_value(c: char, radix: int) -> Option<int> {
    let d = if '0' <= c <= '9' {
        c as int - '0' as int
    } else if 'a' <= c <= 'z' {
        c as int - 'a' as int + 10
    } else if 'A' <= c <= 'Z' {
        c as int - 'A' as int + 10
    } else {
        radix
    };
    if d < radix {
        Some(d)
    } else {
        None
    }
}

/// `n` in decimal, without leading zeros.
pub open spec fn decimal(n: nat) -> Seq<char>
    decreases n,
{
    if n < 10 {
        seq![digit_char(n as int)]
    } else {
        decimal(n / 10).push(digit_char((n % 10) as int))
    }
}

/// `n` in decimal, with a leading `-` where it is negative.
pub open spec fn signed_decimal(n: int) -> Seq<char> {
    if n < 0 {
        seq!['-'] + decimal((-n) as nat)
    } else {
        decimal(n as nat)
    }
}

/// `n` in lower-case hexadecimal, without leading zeros.
pub open spec fn hex(n: nat) -> Seq<char>
    decreases n,
{
    if n < 16 {
        seq![digit_char(n as int)]
    } else {
        hex(n / 16).push(digit_char((n % 16) as int))
    }
}

/// Bytes in lower-case hexadecimal, two digits for each.
pub open spec fn hex_bytes(bytes: Seq<u8>) -> Seq<char> {
    Seq::new(
        2 * bytes.len(),
        |k: int|
            if k % 2 == 0 {
                digit_char(bytes[k / 2] as int / 16)
            } else {
                digit_char(bytes[k / 2] as int % 16)
            },
    )
}

/// The number that a sequence of digits denotes; `None` where a character is not a digit.
pub open spec fn digits_value(s: Seq<char>, radix: int) -> Option<int>
    decreases s.len(),
{
    if s.len() == 0 {
        Some(0)
    } else {
        match (digits_value(s.drop_last(), radix), digit_value(s.last(), radix)) {
            (Some(v), Some(d)) => Some(v * radix + d),
            _ => None,
        }
    }
}

/// The `u64` that a text denotes: an optional `+`, then at least one digit.
pub open spec fn parsed_u64(s: Seq<char>, radix: int) -> Option<u64> {
    let digits = if s.len() > 1 && s[0] == '+' {
        s.skip(1)
    } else {
        s
    };
    match digits_value(digits, radix) {
        Some(v) => if digits.len() > 0 && v <= u64::MAX {
            Some(v as u64)
        } else {
            None
        },
        None => None,
    }
}

/// The characters with the Unicode property `White_Space`.
pub open spec fn is_white_space_spec(c: char) -> bool {
    ||| '\u{9}' <= c <= '\u{d}'
    ||| c == ' '
    ||| c == '\u{85}'
    ||| c == '\u{a0}'
    ||| c == '\u{1680}'
    ||| '\u{2000}' <= c <= '\u{200a}'
    ||| c == '\u{2028}'
    ||| c == '\u{2029}'
    ||| c == '\u{202f}'
    ||| c == '\u{205f}'
    ||| c == '\u{3000}'
}

/// `s` without the white space at its start.
pub open spec fn trimmed_start(s: Seq<char>) -> Seq<char>
    decreases s.len(),
{
    if s.len() > 0 && is_white_space_spec(s[0]) {
        trimmed_start(s.skip(1))
    } else {
        s
    }
}

/// `s` without the white space at its end.
pub open spec fn trimmed_end(s: Seq<char>) -> Seq<char>
    decreases s.len(),
{
    if s.len() > 0 && is_white_space_spec(s.last()) {
        trimmed_end(s.drop_last())
    } else {
        s
    }
}

/// `s` without the white space at its two ends.
pub open spec fn trimmed(s: Seq<char>) -> Seq<char> {
    trimmed_end(trimmed_start(s))
}

/// An ASCII capital as the small letter, any other character as it is.
pub open spec fn lower_char(c: char) -> char {
    if 'A' <= c <= 'Z' {
        (c as int + 32) as char
    } else {
        c
    }
}

/// `s` with its ASCII capitals as small letters.
pub open spec fn ascii_lower(s: Seq<char>) -> Seq<char> {
    s.map_values(|c: char| lower_char(c))
}

/// What follows `prefix` in `s`, where `s` starts with it.
pub open spec fn after_prefix(s: Seq<char>, prefix: Seq<char>) -> Option<Seq<char>> {
    if prefix.is_prefix_of(s) {
        Some(s.skip(prefix.len() as int))
    } else {
        None
    }
}

/// The value of a hexadecimal quantity such as `0x1f`, with white space around it ignored.
pub open spec fn hex_quantity(s: Seq<char>) -> Option<u64> {
    let t = trimmed(s);
    match after_prefix(t, "0x"@) {
        Some(h) => parsed_u64(h, 16),
        None => match after_prefix(t, "0X"@) {
            Some(h) => parsed_u64(h, 16),
            None => None,
        },
    }
}

/// Whether two texts are the same.
pub fn same_text(a: &str, b: &str) -> (r: bool)
    ensures
        r == (a@ == b@),
{
    a.to_owned() == b.to_owned()
}

/// The characters of a text.
pub fn chars_of(s: &str) -> (v: Vec<char>)
    ensures
        v@ == s@,
{
    let mut v: Vec<char> = Vec::new();
    for c in it: s.chars()
        invariant
            it.seq() == s@,
            v@ == it.seq().take(it.index()),
    {
        v.push(c);
    }
    v
}

/// Two texts, one after the other.
pub fn joined(a: &str, b: &str) -> (r: String)
    ensures
        r@ == a@ + b@,
{
    let mut out: String = a.to_owned();
    out.append(b);
    out
}

/// Three texts, one after the other.
pub fn joined3(a: &str, b: &str, c: &str) -> (r: String)
    ensures
        r@ == a@ + b@ + c@,
{
    let mut out: String = joined(a, b);
    out.append(c);
    out
}

/// The digit `d` as a text of one character.
fn digit_text(d: u64) -> (r: &'static str)
    requires
        d < 16,
    ensures
        r@ == seq![digit_char(d as int)],
{
    let digits: &'static str = "0123456789abcdef";
    proof {
        reveal_strlit("0123456789abcdef");
    }
    let at: usize = d as usize;
    let r: &'static str = digits.substring_char(at, at + 1);
    assert(r@ =~= seq![digit_char(d as int)]);
    r
}

/// `n` in decimal.
pub fn decimal_text(n: u64) -> (r: String)
    ensures
        r@ == decimal(n as nat),
    decreases n,
{
    if n < 10 {
        digit_text(n).to_owned()
    } else {
        let mut out: String = decimal_text(n / 10);
        out.append(digit_text(n % 10));
        assert(out@ =~= decimal(n as nat));
        out
    }
}

/// `n` in decimal, with its sign where it is negative.
pub fn signed_decimal_text(n: i64) -> (r: String)
    ensures
        r@ == signed_decimal(n as int),
{
    if n >= 0 {
        return decimal_text(n as u64);
    }
    // The magnitude is taken of `n + 1`, which cannot overflow.
    let magnitude: u64 = (-(n + 1)) as u64 + 1;
    proof {
        reveal_strlit("-");
    }
    let r: String = joined("-", &decimal_text(magnitude));
    assert(r@ =~= signed_decimal(n as int));
    r
}

/// `n` in lower-case hexadecimal.
pub fn hex_text(n: u64) -> (r: String)
    ensures
        r@ == hex(n as nat),
    decreases n,
{
    if n < 16 {
        digit_text(n).to_owned()
    } else {
        let mut out: String = hex_text(n / 16);
        out.append(digit_text(n % 16));
        assert(out@ =~= hex(n as nat));
        out
    }
}

/// Bytes in lower-case hexadecimal, two digits for each.
pub fn hex_bytes_text(bytes: &Vec<u8>) -> (r: String)
    ensures
        r@ == hex_bytes(bytes@),
{
    let mut out: String = String::new();
    let mut i: usize = 0;
    while i < bytes.len()
        invariant
            i <= bytes@.len(),
            out@ =~= hex_bytes(bytes@.take(i as int)),
        decreases bytes@.len() - i,
    {
        let b: u8 = bytes[i];
        out.append(digit_text((b / 16) as u64));
        out.append(digit_text((b % 16) as u64));
        i += 1;
    }
    assert(bytes@.take(i as int) =~= bytes@);
    out
}

/// A digit's value in the given radix.
fn digit_of(c: char, radix: u64) -> (r: Option<u64>)
    requires
        radix <= 36,
    ensures
        (match r {
            Some(d) => digit_value(c, radix as int) == Some(d as int),
            None => digit_value(c, radix as int) is None,
        }),
{
    let d: u64 = if '0' <= c && c <= '9' {
        c as u64 - '0' as u64
    } else if 'a' <= c && c <= 'z' {
        c as u64 - 'a' as u64 + 10
    } else if 'A' <= c && c <= 'Z' {
        c as u64 - 'A' as u64 + 10
    } else {
        radix
    };
    if d < radix {
        Some(d)
    } else {
        None
    }
}

/// A digit more does not make a number smaller, nor a bad text good.
proof fn lemma_digits_value_prefix(s: Seq<char>, n: int, radix: int)
    requires
        0 <= n <= s.len(),
        radix >= 2,
    ensures
        digits_value(s, radix) matches Some(v) ==> (digits_value(s.take(n), radix) matches Some(w)
            && 0 <= w <= v),
    decreases s.len() - n,
{
    if n == s.len() {
        assert(s.take(n) =~= s);
        lemma_digits_value_nonnegative(s, radix);
    } else {
        lemma_digits_value_prefix(s, n + 1, radix);
        lemma_digits_value_nonnegative(s.take(n), radix);
        assert(s.take(n + 1).drop_last() =~= s.take(n));
        if let Some(w) = digits_value(s.take(n), radix) {
            assert(w <= w * radix) by (nonlinear_arith)
                requires
                    0 <= w,
                    radix >= 2,
            ;
        }
    }
}

proof fn lemma_digits_value_nonnegative(s: Seq<char>, radix: int)
    requires
        radix >= 2,
    ensures
        digits_value(s, radix) matches Some(v) ==> v >= 0,
    decreases s.len(),
{
    if s.len() > 0 {
        lemma_digits_value_nonnegative(s.drop_last(), radix);
        if let Some(v) = digits_value(s.drop_last(), radix) {
            assert(0 <= v * radix) by (nonlinear_arith)
                requires
                    0 <= v,
                    radix >= 2,
            ;
        }
    }
}

/// Reads a `u64` in the given radix: an optional `+`, then at least one digit.
pub fn parse_u64(s: &str, radix: u64) -> (r: Option<u64>)
    requires
        2 <= radix <= 36,
    ensures
        r == parsed_u64(s@, radix as int),
{
    let chars: Vec<char> = chars_of(s);
    let start: usize = if chars.len() > 1 && chars[0] == '+' {
        1
    } else {
        0
    };
    if chars.len() == start {
        return None;
    }
    let ghost digits = s@.skip(start as int);
    assert(start == 0 ==> digits =~= s@);
    let mut value: u64 = 0;
    let mut i: usize = start;
    while i < chars.len()
        invariant
            chars@ == s@,
            start <= 1,
            start <= i <= chars@.len(),
            digits == s@.skip(start as int),
            digits.len() > 0,
            2 <= radix <= 36,
            parsed_u64(s@, radix as int) == (match digits_value(digits, radix as int) {
                Some(v) => if v <= u64::MAX {
                    Some(v as u64)
                } else {
                    None
                },
                None => None,
            }),
            digits_value(digits.take(i - start), radix as int) == Some(value as int),
        decreases chars@.len() - i,
    {
        proof {
            lemma_digits_value_prefix(digits, i - start + 1, radix as int);
            assert(digits.take(i - start + 1).drop_last() =~= digits.take(i - start));
            assert(digits.take(i - start + 1).last() == chars@[i as int]);
        }
        let d: u64 = match digit_of(chars[i], radix) {
            Some(d) => d,
            None => {
                return None;
            },
        };
        let scaled: u64 = match value.checked_mul(radix) {
            Some(m) => m,
            None => {
                return None;
            },
        };
        value = match scaled.checked_add(d) {
            Some(v) => v,
            None => {
                return None;
            },
        };
        i += 1;
    }
    assert(digits.take(i - start) =~= digits);
    Some(value)
}

/// Whether a character is white space.
pub fn is_white_space(c: char) -> (r: bool)
    ensures
        r == is_white_space_spec(c),
{
    ('\u{9}' <= c && c <= '\u{d}') || c == ' ' || c == '\u{85}' || c == '\u{a0}' || c == '\u{1680}'
        || ('\u{2000}' <= c && c <= '\u{200a}') || c == '\u{2028}' || c == '\u{2029}'
        || c == '\u{202f}' || c == '\u{205f}' || c == '\u{3000}'
}

/// A text without the white space at its two ends.
pub fn trim(s: &str) -> (r: &str)
    ensures
        r@ == trimmed(s@),
{
    let chars: Vec<char> = chars_of(s);
    let mut from: usize = 0;
    assert(s@.skip(0) =~= s@);
    while from < chars.len() && is_white_space(chars[from])
        invariant
            chars@ == s@,
            from <= chars@.len(),
            trimmed_start(s@) == trimmed_start(s@.skip(from as int)),
        decreases chars@.len() - from,
    {
        assert(s@.skip(from as int).skip(1) =~= s@.skip(from + 1));
        from += 1;
    }
    let ghost rest = s@.skip(from as int);
    assert(trimmed_start(s@) == rest);
    let mut to: usize = chars.len();
    assert(s@.subrange(from as int, to as int) =~= rest);
    while to > from && is_white_space(chars[to - 1])
        invariant
            chars@ == s@,
            from <= to <= chars@.len(),
            trimmed_end(rest) == trimmed_end(s@.subrange(from as int, to as int)),
        decreases to,
    {
        assert(s@.subrange(from as int, to as int).drop_last() =~= s@.subrange(
            from as int,
            to - 1,
        ));
        to -= 1;
    }
    s.substring_char(from, to)
}

/// A text with its ASCII capitals as small letters.
pub fn to_ascii_lowercase(s: &str) -> (r: String)
    ensures
        r@ == ascii_lower(s@),
{
    let chars: Vec<char> = chars_of(s);
    let small: &str = "abcdefghijklmnopqrstuvwxyz";
    proof {
        reveal_strlit("abcdefghijklmnopqrstuvwxyz");
    }
    let mut out: String = String::new();
    let mut i: usize = 0;
    while i < chars.len()
        invariant
            chars@ == s@,
            i <= chars@.len(),
            small@ == "abcdefghijklmnopqrstuvwxyz"@,
            out@ =~= ascii_lower(s@).take(i as int),
        decreases chars@.len() - i,
    {
        proof {
            reveal_strlit("abcdefghijklmnopqrstuvwxyz");
        }
        let c: char = chars[i];
        if 'A' <= c && c <= 'Z' {
            let at: usize = (c as u32 - 'A' as u32) as usize;
            out.append(small.substring_char(at, at + 1));
        } else {
            out.append(s.substring_char(i, i + 1));
        }
        i += 1;
    }
    out
}

/// What follows `prefix` in `s`, where `s` starts with it.
pub fn strip_prefix<'a>(s: &'a str, prefix: &str) -> (r: Option<&'a str>)
    ensures
        (match r {
            Some(rest) => after_prefix(s@, prefix@) == Some(rest@),
            None => after_prefix(s@, prefix@) is None,
        }),
{
    let len: usize = s.unicode_len();
    let cut: usize = prefix.unicode_len();
    if len >= cut && same_text(s.substring_char(0, cut), prefix) {
        assert(s@.subrange(cut as int, len as int) =~= s@.skip(cut as int));
        Some(s.substring_char(cut, len))
    } else {
        assert(prefix@.is_prefix_of(s@) ==> s@.subrange(0, cut as int) =~= prefix@);
        None
    }
}

/// Reads a hexadecimal quantity such as `0x1f`.
pub fn parse_hex_u64(s: &str) -> (r: Option<u64>)
    ensures
        r == hex_quantity(s@),
{
    let t: &str = trim(s);
    match strip_prefix(t, "0x") {
        Some(h) => parse_u64(h, 16),
        None => match strip_prefix(t, "0X") {
            Some(h) => parse_u64(h, 16),
            None => None,
        },
    }
}

/// What is written in decimal reads back as the same number.
pub proof fn law_decimal_reads_back(n: u64)
    ensures
        parsed_u64(decimal(n as nat), 10) == Some(n),
{
    lemma_decimal_value(n as nat);
}

proof fn lemma_decimal_value(n: nat)
    ensures
        decimal(n).len() > 0,
        '0' <= decimal(n)[0] <= '9',
        digits_value(decimal(n), 10) == Some(n as int),
    decreases n,
{
    reveal_with_fuel(digits_value, 2);
    if n < 10 {
        assert(decimal(n).drop_last() =~= Seq::<char>::empty());
    } else {
        lemma_decimal_value(n / 10);
        assert(decimal(n).drop_last() =~= decimal(n / 10));
    }
}

/// What is written as a hexadecimal quantity reads back as the same number.
pub proof fn law_hex_quantity_reads_back(n: u64)
    ensures
        parsed_u64(hex(n as nat), 16) == Some(n),
        hex_quantity("0x"@ + hex(n as nat)) == Some(n),
{
    lemma_hex_value(n as nat);
    reveal_strlit("0x");
    let s = "0x"@ + hex(n as nat);
    assert(s.skip(2) =~= hex(n as nat));
    assert(trimmed_start(s) == s);
    assert(s.last() == hex(n as nat).last());
    assert(trimmed_end(s) == s);
    assert("0x"@.is_prefix_of(s));
}

proof fn lemma_hex_value(n: nat)
    ensures
        hex(n).len() > 0,
        hex(n)[0] != '+',
        !is_white_space_spec(hex(n).last()),
        digits_value(hex(n), 16) == Some(n as int),
    decreases n,
{
    reveal_with_fuel(digits_value, 2);
    if n < 16 {
        assert(hex(n).drop_last() =~= Seq::<char>::empty());
    } else {
        lemma_hex_value(n / 16);
        assert(hex(n).drop_last() =~= hex(n / 16));
    }
}

} // verus!
