//! What the texts of numbers, and the cutting of texts, come to.

use vstd::prelude::*;

use crate::text::{
    after_prefix, ascii_lower, decimal, digit_value, digits_value, hex, hex_bytes, hex_quantity,
    is_white_space_spec, parsed_u64, signed_decimal, trimmed, trimmed_end, trimmed_start,
};

verus! {

/// A number in decimal ends in its last digit, and what stands before is the rest in decimal.
pub proof fn law_decimal_is_positional(n: nat)
    ensures
        decimal(n).len() > 0,
        decimal(n).last() == "0123456789"@[(n % 10) as int],
        decimal(n).drop_last() == (if n < 10 {
            Seq::<char>::empty()
        } else {
            decimal(n / 10)
        }),
{
    reveal_strlit("0123456789");
    assert(decimal(n).drop_last() =~= if n < 10 {
        Seq::<char>::empty()
    } else {
        decimal(n / 10)
    });
}

/// A number in hexadecimal ends in its last digit, and what stands before is the rest.
pub proof fn law_hex_is_positional(n: nat)
    ensures
        hex(n).len() > 0,
        hex(n).last() == "0123456789abcdef"@[(n % 16) as int],
        hex(n).drop_last() == (if n < 16 {
            Seq::<char>::empty()
        } else {
            hex(n / 16)
        }),
{
    reveal_strlit("0123456789abcdef");
    assert(hex(n).drop_last() =~= if n < 16 {
        Seq::<char>::empty()
    } else {
        hex(n / 16)
    });
}

/// A negative number is its absolute value after a minus sign; any other has no sign.
pub proof fn law_signed_decimal(n: int)
    ensures
        n >= 0 ==> signed_decimal(n) == decimal(n as nat),
        n < 0 ==> signed_decimal(n) == "-"@ + decimal((-n) as nat),
{
    reveal_strlit("-");
    assert("-"@ =~= seq!['-']);
}

/// Bytes are written out whole: two digits for each, the higher one first.
pub proof fn law_bytes_are_written_out(bytes: Seq<u8>, i: int)
    requires
        0 <= i < bytes.len(),
    ensures
        hex_bytes(bytes).len() == 2 * bytes.len(),
        hex_bytes(bytes)[2 * i] == "0123456789abcdef"@[bytes[i] as int / 16],
        hex_bytes(bytes)[2 * i + 1] == "0123456789abcdef"@[bytes[i] as int % 16],
{
    reveal_strlit("0123456789abcdef");
    assert((2 * i) / 2 == i && (2 * i + 1) / 2 == i);
    assert((2 * i) % 2 == 0 && (2 * i + 1) % 2 == 1);
}

/// A digit is a decimal one or a letter in either case, and is below the radix.
pub proof fn law_digits(c: char, radix: int)
    requires
        2 <= radix <= 36,
    ensures
        ({
            let d = if '0' <= c <= '9' {
                c as int - '0' as int
            } else if 'a' <= c <= 'z' {
                c as int - 'a' as int + 10
            } else if 'A' <= c <= 'Z' {
                c as int - 'A' as int + 10
            } else {
                36
            };
            digit_value(c, radix) == (if d < radix {
                Some(d)
            } else {
                None
            })
        }),
{
}

/// Reading a number: nothing is none, one character is what the digit is, and each further
/// character counts what stands before it `radix` times. A number that does not fit is none.
pub proof fn law_numbers_are_positional(s: Seq<char>, c: char, radix: int)
    requires
        2 <= radix <= 36,
    ensures
        parsed_u64(Seq::empty(), radix) is None,
        parsed_u64(seq![c], radix) == (match digit_value(c, radix) {
            Some(d) => Some(d as u64),
            None => None,
        }),
        s.len() > 0 && s != seq!['+'] ==> parsed_u64(s.push(c), radix) == (match (
            parsed_u64(s, radix),
            digit_value(c, radix),
        ) {
            (Some(v), Some(d)) => if v * radix + d <= u64::MAX {
                Some((v * radix + d) as u64)
            } else {
                None
            },
            _ => None,
        }),
{
    reveal_with_fuel(digits_value, 2);
    law_digits(c, radix);
    assert(seq![c].drop_last() =~= Seq::<char>::empty());
    assert(0 * radix == 0) by (nonlinear_arith);
    if s.len() > 0 && s != seq!['+'] {
        let whole = s.push(c);
        let signed = s.len() > 1 && s[0] == '+';
        if s.len() == 1 && s[0] == '+' {
            assert(s =~= seq!['+']);
        }
        let before = if signed {
            s.skip(1)
        } else {
            s
        };
        let digits = if signed {
            whole.skip(1)
        } else {
            whole
        };
        assert(digits =~= before.push(c));
        assert(digits.drop_last() =~= before);
        assert(parsed_u64(whole, radix) == (match digits_value(digits, radix) {
            Some(v) => if v <= u64::MAX {
                Some(v as u64)
            } else {
                None
            },
            None => None,
        }));
        match (digits_value(before, radix), digit_value(c, radix)) {
            (Some(v), Some(d)) => {
                lemma_value_nonnegative(before, radix);
                assert(v * radix >= v) by (nonlinear_arith)
                    requires
                        v >= 0,
                        radix >= 2,
                ;
            },
            _ => {},
        }
    }
}

proof fn lemma_value_nonnegative(s: Seq<char>, radix: int)
    requires
        2 <= radix <= 36,
    ensures
        digits_value(s, radix) matches Some(v) ==> v >= 0,
    decreases s.len(),
{
    if s.len() > 0 {
        lemma_value_nonnegative(s.drop_last(), radix);
        law_digits(s.last(), radix);
        match digits_value(s.drop_last(), radix) {
            Some(v) => {
                assert(v * radix >= 0) by (nonlinear_arith)
                    requires
                        v >= 0,
                        radix >= 2,
                ;
            },
            None => {},
        }
    }
}

/// A plus sign before a number that has none changes nothing.
pub proof fn law_a_plus_sign_is_passed_over(s: Seq<char>, radix: int)
    requires
        2 <= radix <= 36,
        s.len() > 0,
        s[0] != '+',
    ensures
        parsed_u64(seq!['+'] + s, radix) == parsed_u64(s, radix),
{
    assert((seq!['+'] + s).skip(1) =~= s);
}

/// Trimming cuts off white space at the two ends, all of it, and nothing else.
pub proof fn law_trimming(s: Seq<char>)
    ensures
        exists|i: int, j: int|
            {
                &&& 0 <= i <= j <= s.len()
                &&& trimmed(s) == #[trigger] s.subrange(i, j)
                &&& forall|k: int|
                    (0 <= k < i || j <= k < s.len()) ==> is_white_space_spec(#[trigger] s[k])
                &&& i < j ==> !is_white_space_spec(s[i]) && !is_white_space_spec(s[j - 1])
            },
{
    lemma_trimmed_start(s);
    let i = choose|i: int|
        {
            &&& 0 <= i <= s.len()
            &&& trimmed_start(s) == #[trigger] s.skip(i)
            &&& forall|k: int| 0 <= k < i ==> is_white_space_spec(#[trigger] s[k])
            &&& i < s.len() ==> !is_white_space_spec(s[i])
        };
    let t = s.skip(i);
    lemma_trimmed_end(t);
    let n = choose|n: int|
        {
            &&& 0 <= n <= t.len()
            &&& trimmed_end(t) == #[trigger] t.take(n)
            &&& forall|k: int| n <= k < t.len() ==> is_white_space_spec(#[trigger] t[k])
            &&& n > 0 ==> !is_white_space_spec(t[n - 1])
        };
    let j = i + n;
    assert(trimmed(s) =~= s.subrange(i, j));
    assert forall|k: int| (0 <= k < i || j <= k < s.len()) implies is_white_space_spec(
        #[trigger] s[k],
    ) by {
        if j <= k < s.len() {
            assert(t[k - i] == s[k]);
        }
    }
    if i < j {
        assert(t[n - 1] == s[j - 1]);
    }
}

proof fn lemma_trimmed_start(s: Seq<char>)
    ensures
        exists|i: int|
            {
                &&& 0 <= i <= s.len()
                &&& trimmed_start(s) == #[trigger] s.skip(i)
                &&& forall|k: int| 0 <= k < i ==> is_white_space_spec(#[trigger] s[k])
                &&& i < s.len() ==> !is_white_space_spec(s[i])
            },
    decreases s.len(),
{
    if s.len() > 0 && is_white_space_spec(s[0]) {
        let t = s.skip(1);
        lemma_trimmed_start(t);
        let i = choose|i: int|
            {
                &&& 0 <= i <= t.len()
                &&& trimmed_start(t) == #[trigger] t.skip(i)
                &&& forall|k: int| 0 <= k < i ==> is_white_space_spec(#[trigger] t[k])
                &&& i < t.len() ==> !is_white_space_spec(t[i])
            };
        assert(t.skip(i) =~= s.skip(i + 1));
        assert forall|k: int| 0 <= k < i + 1 implies is_white_space_spec(#[trigger] s[k]) by {
            if k > 0 {
                assert(t[k - 1] == s[k]);
            }
        }
        if i < t.len() {
            assert(t[i] == s[i + 1]);
        }
    } else {
        assert(s.skip(0) =~= s);
    }
}

proof fn lemma_trimmed_end(s: Seq<char>)
    ensures
        exists|n: int|
            {
                &&& 0 <= n <= s.len()
                &&& trimmed_end(s) == #[trigger] s.take(n)
                &&& forall|k: int| n <= k < s.len() ==> is_white_space_spec(#[trigger] s[k])
                &&& n > 0 ==> !is_white_space_spec(s[n - 1])
            },
    decreases s.len(),
{
    if s.len() > 0 && is_white_space_spec(s.last()) {
        let t = s.drop_last();
        lemma_trimmed_end(t);
        let n = choose|n: int|
            {
                &&& 0 <= n <= t.len()
                &&& trimmed_end(t) == #[trigger] t.take(n)
                &&& forall|k: int| n <= k < t.len() ==> is_white_space_spec(#[trigger] t[k])
                &&& n > 0 ==> !is_white_space_spec(t[n - 1])
            };
        assert(t.take(n) =~= s.take(n));
        assert forall|k: int| n <= k < s.len() implies is_white_space_spec(#[trigger] s[k]) by {
            if k < t.len() {
                assert(t[k] == s[k]);
            }
        }
        if n > 0 {
            assert(t[n - 1] == s[n - 1]);
        }
    } else {
        assert(s.take(s.len() as int) =~= s);
    }
}

/// White space is the characters that Unicode gives that property.
pub proof fn law_white_space(c: char)
    ensures
        is_white_space_spec(c) <==> seq![
            0x9int, 0xa, 0xb, 0xc, 0xd, 0x20, 0x85, 0xa0, 0x1680, 0x2000, 0x2001, 0x2002, 0x2003,
            0x2004, 0x2005, 0x2006, 0x2007, 0x2008, 0x2009, 0x200a, 0x2028, 0x2029, 0x202f, 0x205f,
            0x3000,
        ].contains(c as int),
{
    let all = seq![
        0x9int, 0xa, 0xb, 0xc, 0xd, 0x20, 0x85, 0xa0, 0x1680, 0x2000, 0x2001, 0x2002, 0x2003,
        0x2004, 0x2005, 0x2006, 0x2007, 0x2008, 0x2009, 0x200a, 0x2028, 0x2029, 0x202f, 0x205f,
        0x3000,
    ];
    let n = c as int;
    if 0x9 <= n <= 0xd {
        assert(all[n - 0x9] == n);
    } else if 0x2000 <= n <= 0x200a {
        assert(all[n - 0x2000 + 9] == n);
    } else {
        assert(all[5] == 0x20 && all[6] == 0x85 && all[7] == 0xa0 && all[8] == 0x1680);
        assert(all[20] == 0x2028 && all[21] == 0x2029 && all[22] == 0x202f && all[23] == 0x205f);
        assert(all[24] == 0x3000);
    }
}

/// ASCII capitals become small letters, and every other character stays.
pub proof fn law_ascii_lower(s: Seq<char>, i: int)
    requires
        0 <= i < s.len(),
    ensures
        ascii_lower(s).len() == s.len(),
        'A' <= s[i] <= 'Z' ==> ascii_lower(s)[i] as int == s[i] as int - 'A' as int + 'a' as int,
        !('A' <= s[i] <= 'Z') ==> ascii_lower(s)[i] == s[i],
{
}

/// What follows a prefix is what was put after it; a text without the prefix has no such rest.
pub proof fn law_prefixes(prefix: Seq<char>, rest: Seq<char>, s: Seq<char>)
    ensures
        after_prefix(prefix + rest, prefix) == Some(rest),
        after_prefix(s, prefix) matches Some(t) ==> s == prefix + t,
{
    assert((prefix + rest).skip(prefix.len() as int) =~= rest);
    assert(prefix =~= (prefix + rest).subrange(0, prefix.len() as int));
    assert(prefix.is_prefix_of(prefix + rest));
    match after_prefix(s, prefix) {
        Some(t) => {
            assert(s =~= prefix + t);
        },
        None => {},
    }
}

/// A hexadecimal quantity is what stands after `0x` or `0X`, read whole, with white space around
/// it passed over; anything else is none.
pub proof fn law_hex_quantities(s: Seq<char>)
    ensures
        ({
            let t = trimmed(s);
            hex_quantity(s) == (if t.len() >= 2 && t[0] == '0' && (t[1] == 'x' || t[1] == 'X') {
                parsed_u64(t.skip(2), 16)
            } else {
                None
            })
        }),
{
    let t = trimmed(s);
    reveal_strlit("0x");
    reveal_strlit("0X");
    if t.len() >= 2 && t[0] == '0' && t[1] == 'x' {
        assert("0x"@ =~= t.subrange(0, 2));
    }
    if t.len() >= 2 && t[0] == '0' && t[1] == 'X' {
        assert("0X"@ =~= t.subrange(0, 2));
        assert("0x"@[1] != t[1]);
    }
    if "0x"@.is_prefix_of(t) {
        assert(t.subrange(0, 2)[0] == '0' && t.subrange(0, 2)[1] == 'x');
    }
    if "0X"@.is_prefix_of(t) {
        assert(t.subrange(0, 2)[0] == '0' && t.subrange(0, 2)[1] == 'X');
    }
}

} // verus!
