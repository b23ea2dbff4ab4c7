//! Decimal notation of integers, written and read.

use vstd::prelude::*;
use vstd::string::*;

verus! {

/// The character that writes the digit `d`.
pub open spec fn digit_char(d: int) -> char {
    if d == 0 {
        '0'
    } else if d == 1 {
        '1'
    } else if d == 2 {
        '2'
    } else if d == 3 {
        '3'
    } else if d == 4 {
        '4'
    } else if d == 5 {
        '5'
    } else if d == 6 {
        '6'
    } else if d == 7 {
        '7'
    } else if d == 8 {
        '8'
    } else {
        '9'
    }
}

/// The decimal notation of `n`: no sign, and no leading zero but for zero itself.
pub open spec fn nat_decimal(n: nat) -> Seq<char>
    decreases n,
{
    if n < 10 {
        seq![digit_char(n as int)]
    } else {
        nat_decimal(n / 10).push(digit_char((n % 10) as int))
    }
}

/// The decimal notation of `i`, with a leading `-` where `i` is negative.
pub open spec fn int_decimal(i: int) -> Seq<char> {
    if i < 0 {
        seq!['-'] + nat_decimal((-i) as nat)
    } else {
        nat_decimal(i as nat)
    }
}

/// The digit that `c` writes, if it writes one.
spec fn digit_of(c: char) -> Option<nat> {
    if '0' <= c <= '9' {
        Some((c as nat - '0' as nat) as nat)
    } else {
        None
    }
}

/// The number that a run of digits writes, leading zeros allowed; `None` where
/// the run is empty or holds anything but digits.
spec fn digits_value(s: Seq<char>) -> Option<nat>
    decreases s.len(),
{
    if s.len() == 0 {
        None
    } else {
        match digit_of(s.last()) {
            None => None,
            Some(d) => if s.len() == 1 {
                Some(d)
            } else {
                match digits_value(s.drop_last()) {
                    None => None,
                    Some(h) => Some(10 * h + d),
                }
            },
        }
    }
}

/// Reading the notation of a number gives the number back.
proof fn lemma_digits_value_of_decimal(n: nat)
    ensures
        digits_value(nat_decimal(n)) == Some(n),
    decreases n,
{
    if n >= 10 {
        lemma_digits_value_of_decimal(n / 10);
        let s = nat_decimal(n);
        assert(s.drop_last() =~= nat_decimal(n / 10));
        assert(s.last() == digit_char((n % 10) as int));
        assert(nat_decimal(n / 10).len() >= 1) by {
            lemma_decimal_is_ascii(n / 10);
        }
    }
}

/// A notation is never empty and holds only ASCII digits.
proof fn lemma_decimal_is_ascii(n: nat)
    ensures
        nat_decimal(n).len() >= 1,
        forall|i: int|
            0 <= i < nat_decimal(n).len() ==> '0' <= #[trigger] nat_decimal(n)[i] <= '9',
    decreases n,
{
    if n >= 10 {
        lemma_decimal_is_ascii(n / 10);
    }
}

/// The one-character text of the digit `d`.
fn digit_text(d: u64) -> (t: &'static str)
    requires
        d < 10,
    ensures
        t@ == seq![digit_char(d as int)],
{
    proof {
        reveal_strlit("0");
        reveal_strlit("1");
        reveal_strlit("2");
        reveal_strlit("3");
        reveal_strlit("4");
        reveal_strlit("5");
        reveal_strlit("6");
        reveal_strlit("7");
        reveal_strlit("8");
        reveal_strlit("9");
    }
    let t = if d == 0 {
        "0"
    } else if d == 1 {
        "1"
    } else if d == 2 {
        "2"
    } else if d == 3 {
        "3"
    } else if d == 4 {
        "4"
    } else if d == 5 {
        "5"
    } else if d == 6 {
        "6"
    } else if d == 7 {
        "7"
    } else if d == 8 {
        "8"
    } else {
        "9"
    };
    assert(t@ =~= seq![digit_char(d as int)]);
    t
}

/// Appends the decimal notation of `n` to `out`.
pub fn push_decimal(out: &mut String, n: u64)
    ensures
        final(out)@ == old(out)@ + nat_decimal(n as nat),
    decreases n,
{
    if n >= 10 {
        push_decimal(out, n / 10);
    }
    out.append(digit_text(n % 10));
    assert(out@ =~= old(out)@ + nat_decimal(n as nat));
}

/// The decimal notation of `v` as a string.
pub fn i32_decimal(v: i32) -> (text: String)
    ensures
        text@ == int_decimal(v as int),
{
    if v < 0 {
        proof {
            reveal_strlit("-");
        }
        let mut text = String::from_str("-");
        assert(text@ =~= seq!['-']);
        let magnitude: i64 = -(v as i64);
        push_decimal(&mut text, magnitude as u64);
        text
    } else {
        let mut text = String::new();
        push_decimal(&mut text, v as u64);
        assert(text@ =~= int_decimal(v as int));
        text
    }
}

/// What the notation of an integer looks like: a `-` in front exactly where
/// the integer is negative, and after it the notation of its magnitude.
proof fn lemma_int_decimal_shape(v: int)
    ensures
        int_decimal(v).len() >= 1,
        v < 0 ==> int_decimal(v)[0] == '-' && int_decimal(v).subrange(
            1,
            int_decimal(v).len() as int,
        ) == nat_decimal((-v) as nat),
        v >= 0 ==> '0' <= int_decimal(v)[0] <= '9' && int_decimal(v) == nat_decimal(v as nat),
{
    if v < 0 {
        let m = (-v) as nat;
        lemma_decimal_is_ascii(m);
        assert(int_decimal(v).subrange(1, int_decimal(v).len() as int) =~= nat_decimal(m));
    } else {
        lemma_decimal_is_ascii(v as nat);
    }
}

/// A run of digits writes at least what any of its beginnings writes.
proof fn lemma_prefix_value_le(s: Seq<char>, k: int)
    requires
        digits_value(s) is Some,
        1 <= k <= s.len(),
    ensures
        digits_value(s.take(k)) is Some,
        digits_value(s.take(k))->0 <= digits_value(s)->0,
    decreases s.len(),
{
    if k == s.len() {
        assert(s.take(k) =~= s);
    } else {
        assert(s.drop_last().take(k) =~= s.take(k));
        lemma_prefix_value_le(s.drop_last(), k);
    }
}

/// Two integers with one notation are one integer.
pub proof fn lemma_int_decimal_injective(a: int, b: int)
    requires
        int_decimal(a) == int_decimal(b),
    ensures
        a == b,
{
    lemma_int_decimal_shape(a);
    lemma_int_decimal_shape(b);
    lemma_digits_value_of_decimal(vstd::math::abs(a) as nat);
    lemma_digits_value_of_decimal(vstd::math::abs(b) as nat);
}

/// The `i32` whose decimal notation `text` is, if there is one.
pub open spec fn i32_of_decimal(text: Seq<char>) -> Option<i32> {
    if exists|v: i32| text == int_decimal(v as int) {
        Some(choose|v: i32| text == int_decimal(v as int))
    } else {
        None
    }
}

/// Reading the notation of an `i32` gives that `i32`.
pub proof fn lemma_i32_of_decimal(v: i32)
    ensures
        i32_of_decimal(int_decimal(v as int)) == Some(v),
{
    let found = choose|w: i32| int_decimal(v as int) == int_decimal(w as int);
    lemma_int_decimal_injective(v as int, found as int);
}

/// The `i32` that `text` is the decimal notation of, if there is one.
///
/// Only the notation that [`int_decimal`] writes is read: a sign that is not
/// needed, a leading zero or a blank makes the text no number.
pub fn parse_i32(text: &str) -> (r: Option<i32>)
    ensures
        match r {
            Some(v) => text@ == int_decimal(v as int),
            None => forall|v: i32| text@ != int_decimal(v as int),
        },
        r == i32_of_decimal(text@),
{
    if !text.is_ascii() {
        assert forall|v: i32| text@ != int_decimal(v as int) by {
            if text@ == int_decimal(v as int) {
                lemma_int_decimal_shape(v as int);
                lemma_decimal_is_ascii(vstd::math::abs(v as int) as nat);
                assert(vstd::utf8::is_ascii_chars(text@)) by {
                    assert forall|i: int| 0 <= i < text@.len() implies '\0' <= #[trigger] text@[i]
                        <= '\u{7f}' by {
                        if v < 0 && i >= 1 {
                            assert(text@[i] == text@.subrange(1, text@.len() as int)[i - 1]);
                        }
                    }
                }
            }
        }
        return None;
    }
    let len = text.unicode_len();
    if len == 0 {
        assert forall|v: i32| text@ != int_decimal(v as int) by {
            lemma_int_decimal_shape(v as int);
        }
        return None;
    }
    let negative = text.get_ascii(0) == 45u8;
    let start: usize = if negative {
        1
    } else {
        0
    };
    let ghost rest = text@.subrange(start as int, len as int);
    proof {
        assert forall|v: i32| text@ == int_decimal(v as int) implies (negative <==> v < 0) && rest
            == nat_decimal(vstd::math::abs(v as int) as nat) by {
            lemma_int_decimal_shape(v as int);
            if v >= 0 {
                assert(rest =~= text@);
            }
        }
    }
    let mut acc: u64 = 0;
    let mut i: usize = start;
    while i < len
        invariant
            text.is_ascii(),
            len == text@.len(),
            start <= i <= len,
            rest == text@.subrange(start as int, len as int),
            acc <= 2147483648,
            forall|v: i32|
                text@ == int_decimal(v as int) ==> (negative <==> v < 0) && rest == nat_decimal(
                    vstd::math::abs(v as int) as nat,
                ),
            i == start ==> acc == 0,
            i > start ==> digits_value(text@.subrange(start as int, i as int)) == Some(acc as nat),
        decreases len - i,
    {
        let b = text.get_ascii(i);
        let ghost prefix = text@.subrange(start as int, i as int + 1);
        assert(prefix =~= rest.take(i + 1 - start));
        if b < 48 || b > 57 {
            assert forall|v: i32| text@ != int_decimal(v as int) by {
                if text@ == int_decimal(v as int) {
                    lemma_decimal_is_ascii(vstd::math::abs(v as int) as nat);
                    assert(rest[i - start] == text@[i as int]);
                }
            }
            return None;
        }
        let digit: u64 = (b - 48) as u64;
        acc = acc * 10 + digit;
        proof {
            assert(prefix.last() == text@[i as int]);
            assert(digit_of(prefix.last()) == Some(digit as nat));
            assert(prefix.drop_last() =~= text@.subrange(start as int, i as int));
            assert(digits_value(prefix) == Some(acc as nat));
        }
        if acc > 2147483648 {
            assert forall|v: i32| text@ != int_decimal(v as int) by {
                if text@ == int_decimal(v as int) {
                    lemma_digits_value_of_decimal(vstd::math::abs(v as int) as nat);
                    lemma_prefix_value_le(rest, i + 1 - start);
                }
            }
            return None;
        }
        i += 1;
    }
    if i == start || (!negative && acc == 2147483648) {
        assert forall|v: i32| text@ != int_decimal(v as int) by {
            if text@ == int_decimal(v as int) {
                lemma_int_decimal_shape(v as int);
                lemma_decimal_is_ascii(vstd::math::abs(v as int) as nat);
                lemma_digits_value_of_decimal(vstd::math::abs(v as int) as nat);
                assert(rest =~= text@.subrange(start as int, i as int));
            }
        }
        return None;
    }
    assert(rest =~= text@.subrange(start as int, i as int));
    let wide: i64 = if negative {
        -(acc as i64)
    } else {
        acc as i64
    };
    let candidate: i32 = wide as i32;
    let written = i32_decimal(candidate);
    let given = String::from_str(text);
    if written == given {
        proof {
            lemma_i32_of_decimal(candidate);
        }
        Some(candidate)
    } else {
        assert forall|v: i32| text@ != int_decimal(v as int) by {
            if text@ == int_decimal(v as int) {
                lemma_digits_value_of_decimal(vstd::math::abs(v as int) as nat);
                assert(v == candidate);
            }
        }
        None
    }
}

} // verus!
