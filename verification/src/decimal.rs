//! Unsigned integers as decimal text.

use vstd::prelude::*;
use vstd::string::{is_ascii, is_ascii_spec_bytes, StringExecFns, StringSliceAdditionalSpecFns};

verus! {

/// The character of a decimal digit.
pub open spec fn digit_char(d: int) -> char {
    if d == 0 {
        '0'
    } else if d == 1 {
        '1'
    } else if d == 2 {
        '2'
    } else if d == 3 {
        '3'
    } else if d == 4 {
        '4'
    } else if d == 5 {
        '5'
    } else if d == 6 {
        '6'
    } else if d == 7 {
        '7'
    } else if d == 8 {
        '8'
    } else {
        '9'
    }
}

/// A number in decimal, without leading zeros.
pub open spec fn decimal_text(n: nat) -> Seq<char>
    decreases n,
{
    if n < 10 {
        seq![digit_char(n as int)]
    } else {
        decimal_text(n / 10).push(digit_char((n % 10) as int))
    }
}

/// Whether a character is a decimal digit.
pub open spec fn is_digit(c: char) -> bool {
    '0' <= c <= '9'
}

/// The number that a decimal digit stands for; zero for any other character.
pub open spec fn digit_value(c: char) -> nat {
    if is_digit(c) {
        (c as u32 - 0x30) as nat
    } else {
        0
    }
}

/// Whether a text is made of decimal digits.
pub open spec fn all_digits(t: Seq<char>) -> bool {
    forall|i: int| 0 <= i < t.len() ==> is_digit(#[trigger] t[i])
}

/// The number that a text of decimal digits denotes.
pub open spec fn digits_value(t: Seq<char>) -> nat
    decreases t.len(),
{
    if t.len() == 0 {
        0
    } else {
        10 * digits_value(t.drop_last()) + digit_value(t.last())
    }
}

/// A text without the plus sign that may stand in front of it.
pub open spec fn unsigned_part(t: Seq<char>) -> Seq<char> {
    if t.len() > 0 && t[0] == '+' {
        t.skip(1)
    } else {
        t
    }
}

/// The 64-bit number that a text denotes: the text is one or more decimal
/// digits, after an optional plus sign, and denotes no more than `u64::MAX`.
pub open spec fn parsed_u64(t: Seq<char>) -> Option<u64> {
    let d = unsigned_part(t);
    if d.len() > 0 && all_digits(d) && digits_value(d) <= u64::MAX {
        Some(digits_value(d) as u64)
    } else {
        None
    }
}

/// The text of a decimal digit.
fn digit_text(d: u64) -> (s: &'static str)
    requires
        d < 10,
    ensures
        s@ == seq![digit_char(d as int)],
{
    proof {
        reveal_strlit("0");
        reveal_strlit("1");
        reveal_strlit("2");
        reveal_strlit("3");
        reveal_strlit("4");
        reveal_strlit("5");
        reveal_strlit("6");
        reveal_strlit("7");
        reveal_strlit("8");
        reveal_strlit("9");
    }
    let s = if d == 0 {
        "0"
    } else if d == 1 {
        "1"
    } else if d == 2 {
        "2"
    } else if d == 3 {
        "3"
    } else if d == 4 {
        "4"
    } else if d == 5 {
        "5"
    } else if d == 6 {
        "6"
    } else if d == 7 {
        "7"
    } else if d == 8 {
        "8"
    } else {
        "9"
    };
    proof {
        assert(s@ =~= seq![digit_char(d as int)]);
    }
    s
}

/// Writes a number in decimal.
pub fn decimal(n: u64) -> (s: String)
    ensures
        s@ == decimal_text(n as nat),
    decreases n,
{
    if n < 10 {
        String::from_str(digit_text(n))
    } else {
        let mut s = decimal(n / 10);
        s.append(digit_text(n % 10));
        proof {
            assert(s@ =~= decimal_text((n / 10) as nat).push(digit_char((n % 10) as int)));
        }
        s
    }
}

/// A number written in decimal reads back as itself.
pub proof fn law_decimal_round_trip(n: nat)
    ensures
        decimal_text(n).len() > 0,
        all_digits(decimal_text(n)),
        digits_value(decimal_text(n)) == n,
        n <= u64::MAX ==> parsed_u64(decimal_text(n)) == Some(n as u64),
    decreases n,
{
    let t = decimal_text(n);
    if n < 10 {
        assert(t.drop_last() =~= Seq::<char>::empty());
        assert(digits_value(Seq::<char>::empty()) == 0);
        assert(digit_value(digit_char(n as int)) == n);
    } else {
        law_decimal_round_trip(n / 10);
        assert(t.drop_last() =~= decimal_text(n / 10));
        assert(digit_value(digit_char((n % 10) as int)) == n % 10);
        assert forall|i: int| 0 <= i < t.len() implies is_digit(#[trigger] t[i]) by {
            if i < t.len() - 1 {
                assert(t[i] == decimal_text(n / 10)[i]);
            }
        }
    }
    assert(is_digit(t[0]));
    assert(unsigned_part(t) == t);
}

/// A prefix of a text denotes no more than the whole text.
proof fn lemma_digits_prefix_le(t: Seq<char>, k: int)
    requires
        0 <= k <= t.len(),
    ensures
        digits_value(t.take(k)) <= digits_value(t),
    decreases t.len() - k,
{
    if k == t.len() {
        assert(t.take(k) =~= t);
    } else {
        assert(t.take(k + 1).drop_last() =~= t.take(k));
        lemma_digits_prefix_le(t, k + 1);
    }
}

/// Reads a number in decimal.
pub fn parse_u64(text: &str) -> (r: Option<u64>)
    ensures
        r == parsed_u64(text@),
{
    let ghost d = unsigned_part(text@);
    if !text.is_ascii() {
        proof {
            let i = choose|i: int|
                0 <= i < text@.len() && !('\0' <= #[trigger] text@[i] <= '\u{7f}');
            assert(!is_digit(text@[i]));
            if text@.len() > 0 && text@[0] == '+' {
                assert(i > 0);
                assert(d[i - 1] == text@[i]);
            }
        }
        return None;
    }
    let bytes = text.as_bytes();
    proof {
        is_ascii_spec_bytes(text);
    }
    let len = bytes.len();
    let start: usize = if len > 0 && bytes[0] == 0x2b {
        1
    } else {
        0
    };
    proof {
        assert(d =~= text@.skip(start as int));
    }
    if start == len {
        return None;
    }
    let mut acc: u64 = 0;
    let mut i: usize = start;
    proof {
        assert(d.take(0) =~= Seq::<char>::empty());
    }
    while i < len
        invariant
            start <= i <= len,
            len == text@.len(),
            is_ascii(text),
            bytes@ == Seq::new(text@.len(), |k: int| text@[k] as u8),
            d == text@.skip(start as int),
            d == unsigned_part(text@),
            start < len,
            acc == digits_value(d.take(i - start)),
            all_digits(d.take(i - start)),
        decreases len - i,
    {
        let b: u8 = bytes[i];
        let ghost c = text@[i as int];
        proof {
            assert(d[i - start] == c);
            assert('\0' <= c <= '\u{7f}');
            assert(b == c as u8);
            assert(d.take(i - start + 1).drop_last() =~= d.take(i - start));
            assert(d.take(i - start + 1).last() == c);
            lemma_digits_prefix_le(d, i - start + 1);
        }
        if b < 0x30 || b > 0x39 {
            proof {
                assert(!is_digit(d[i - start]));
            }
            return None;
        }
        let v: u64 = (b - 0x30) as u64;
        if acc > (u64::MAX - v) / 10 {
            return None;
        }
        acc = acc * 10 + v;
        proof {
            assert forall|k: int| 0 <= k < i - start + 1 implies is_digit(
                #[trigger] d.take(i - start + 1)[k],
            ) by {
                if k < i - start {
                    assert(d.take(i - start)[k] == d.take(i - start + 1)[k]);
                }
            }
        }
        i += 1;
    }
    proof {
        assert(d.take(len - start) =~= d);
    }
    Some(acc)
}

} // verus!
