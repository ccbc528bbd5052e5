//! Small text routines: comparing texts, and writing numbers as text.

use vstd::prelude::*;
use vstd::string::StringExecFns;

verus! {

/// Whether two texts hold the same characters.
pub fn same_text(a: &str, b: &str) -> (r: bool)
    ensures
        r == (a@ == b@),
{
    let x = a.as_bytes();
    let y = b.as_bytes();
    proof {
        vstd::utf8::encode_utf8_decode_utf8(a@);
        vstd::utf8::encode_utf8_decode_utf8(b@);
        assert(x@ == vstd::utf8::encode_utf8(a@));
        assert(y@ == vstd::utf8::encode_utf8(b@));
    }
    if x.len() != y.len() {
        return false;
    }
    let mut i: usize = 0;
    while i < x.len()
        invariant
            i <= x.len(),
            x.len() == y.len(),
            x@.take(i as int) == y@.take(i as int),
            a@ == b@ ==> x@ == y@,
        decreases x.len() - i,
    {
        if x[i] != y[i] {
            return false;
        }
        proof {
            assert(x@.take(i + 1) == x@.take(i as int).push(x@[i as int]));
            assert(y@.take(i + 1) == y@.take(i as int).push(y@[i as int]));
        }
        i += 1;
    }
    proof {
        assert(x@.take(x.len() as int) == x@);
        assert(y@.take(y.len() as int) == y@);
    }
    true
}

/// The character of a digit below 16: `0` to `9`, then `a` to `f`.
pub open spec fn digit_char(d: int) -> char {
    if d < 10 {
        ((0x30 + d) as u8) as char
    } else {
        ((0x57 + d) as u8) as char
    }
}

/// A natural number in decimal, without leading zeros.
pub open spec fn decimal(n: nat) -> Seq<char>
    decreases n,
{
    if n < 10 {
        seq![digit_char(n as int)]
    } else {
        decimal(n / 10).push(digit_char((n % 10) as int))
    }
}

/// The last `width` hexadecimal digits of a natural number, in lower case.
pub open spec fn hexadecimal(n: nat, width: nat) -> Seq<char>
    decreases width,
{
    if width == 0 {
        Seq::empty()
    } else {
        hexadecimal(n / 16, (width - 1) as nat).push(digit_char((n % 16) as int))
    }
}

/// The hexadecimal text of a given width has that many digits.
pub proof fn lemma_hexadecimal_len(n: nat, width: nat)
    ensures
        hexadecimal(n, width).len() == width,
    decreases width,
{
    if width > 0 {
        lemma_hexadecimal_len(n / 16, (width - 1) as nat);
    }
}

/// The text of one digit below 16.
fn digit_text(d: u64) -> (r: &'static str)
    requires
        d < 16,
    ensures
        r@ == seq![digit_char(d as int)],
{
    proof {
        reveal_strlit("0");
        reveal_strlit("1");
        reveal_strlit("2");
        reveal_strlit("3");
        reveal_strlit("4");
        reveal_strlit("5");
        reveal_strlit("6");
        reveal_strlit("7");
        reveal_strlit("8");
        reveal_strlit("9");
        reveal_strlit("a");
        reveal_strlit("b");
        reveal_strlit("c");
        reveal_strlit("d");
        reveal_strlit("e");
        reveal_strlit("f");
    }
    let r = if d == 0 {
        "0"
    } else if d == 1 {
        "1"
    } else if d == 2 {
        "2"
    } else if d == 3 {
        "3"
    } else if d == 4 {
        "4"
    } else if d == 5 {
        "5"
    } else if d == 6 {
        "6"
    } else if d == 7 {
        "7"
    } else if d == 8 {
        "8"
    } else if d == 9 {
        "9"
    } else if d == 10 {
        "a"
    } else if d == 11 {
        "b"
    } else if d == 12 {
        "c"
    } else if d == 13 {
        "d"
    } else if d == 14 {
        "e"
    } else {
        "f"
    };
    assert(r@ =~= seq![digit_char(d as int)]);
    r
}

/// Writes a number in decimal.
pub fn decimal_text(n: u64) -> (r: String)
    ensures
        r@ == decimal(n as nat),
    decreases n,
{
    if n < 10 {
        String::from_str(digit_text(n))
    } else {
        let mut r = decimal_text(n / 10);
        r.append(digit_text(n % 10));
        assert(r@ =~= decimal(n as nat));
        r
    }
}

/// Writes the last `width` hexadecimal digits of a number.
pub fn hexadecimal_text(n: u64, width: u8) -> (r: String)
    ensures
        r@ == hexadecimal(n as nat, width as nat),
    decreases width,
{
    if width == 0 {
        String::new()
    } else {
        let mut r = hexadecimal_text(n / 16, width - 1);
        r.append(digit_text(n % 16));
        assert(r@ =~= hexadecimal(n as nat, width as nat));
        r
    }
}

/// Whether a byte is one of the digits `0` to `9`.
pub open spec fn is_digit(b: u8) -> bool {
    0x30 <= b <= 0x39
}

/// Whether a byte string holds digits only.
pub open spec fn all_digits(bytes: Seq<u8>) -> bool {
    forall|i: int| 0 <= i < bytes.len() ==> is_digit(#[trigger] bytes[i])
}

/// The number that a string of digits writes in decimal; leading zeros count
/// for nothing.
pub open spec fn digits_value(bytes: Seq<u8>) -> nat
    decreases bytes.len(),
{
    if bytes.len() == 0 {
        0
    } else {
        (digits_value(bytes.drop_last()) * 10 + (bytes.last() - 0x30)) as nat
    }
}

/// The digits of a number text: the text without one leading `+`.
pub open spec fn unsigned_digits(bytes: Seq<u8>) -> Seq<u8> {
    if bytes.len() > 0 && bytes[0] == 0x2B {
        bytes.skip(1)
    } else {
        bytes
    }
}

/// The 32-bit number that a text writes: an optional `+`, then one or more
/// digits whose value fits. Any other text writes no number.
pub open spec fn parsed_u32(bytes: Seq<u8>) -> Option<u32> {
    let digits = unsigned_digits(bytes);
    if digits.len() > 0 && all_digits(digits) && digits_value(digits) <= u32::MAX {
        Some(digits_value(digits) as u32)
    } else {
        None
    }
}

/// The value of the first digits of a string of digits is at most the value
/// of the whole string.
proof fn lemma_digits_value_grows(bytes: Seq<u8>, n: int)
    requires
        all_digits(bytes),
        0 <= n <= bytes.len(),
    ensures
        digits_value(bytes.take(n)) <= digits_value(bytes),
    decreases bytes.len() - n,
{
    if n < bytes.len() {
        lemma_digits_value_grows(bytes, n + 1);
        assert(bytes.take(n + 1).drop_last() == bytes.take(n));
        assert(is_digit(bytes.take(n + 1).last()));
    } else {
        assert(bytes.take(n) == bytes);
    }
}

/// Reads a 32-bit number from a text, as `str::parse::<u32>` does.
pub fn parse_u32(text: &str) -> (r: Option<u32>)
    ensures
        r == parsed_u32(vstd::utf8::encode_utf8(text@)),
{
    let bytes = text.as_bytes();
    let start: usize = if bytes.len() > 0 && bytes[0] == 0x2B {
        1
    } else {
        0
    };
    let ghost digits = unsigned_digits(bytes@);
    proof {
        assert(digits == bytes@.skip(start as int));
    }
    if start >= bytes.len() {
        return None;
    }
    let mut value: u64 = 0;
    let mut i: usize = start;
    proof {
        assert(digits.take(0) == Seq::<u8>::empty());
    }
    while i < bytes.len()
        invariant
            start <= i <= bytes.len(),
            start <= 1,
            bytes@ == vstd::utf8::encode_utf8(text@),
            digits == unsigned_digits(bytes@),
            digits == bytes@.skip(start as int),
            all_digits(digits.take(i - start)),
            value == digits_value(digits.take(i - start)),
            value <= u32::MAX,
        decreases bytes.len() - i,
    {
        let b = bytes[i];
        proof {
            assert(digits[i - start] == b);
        }
        if b < 0x30 || b > 0x39 {
            proof {
                assert(!is_digit(digits[i - start]));
            }
            return None;
        }
        value = value * 10 + (b - 0x30) as u64;
        proof {
            let next = digits.take(i - start + 1);
            assert(next.drop_last() == digits.take(i - start));
            assert(next.last() == b);
            assert forall|j: int| 0 <= j < next.len() implies is_digit(#[trigger] next[j]) by {
                if j < i - start {
                    assert(next[j] == digits.take(i - start)[j]);
                }
            }
        }
        if value > 0xFFFF_FFFF {
            proof {
                if all_digits(digits) {
                    lemma_digits_value_grows(digits, i - start + 1);
                    assert(digits_value(digits) > u32::MAX);
                }
            }
            return None;
        }
        i += 1;
    }
    proof {
        assert(digits.take(i - start) == digits);
    }
    Some(value as u32)
}

} // verus!
