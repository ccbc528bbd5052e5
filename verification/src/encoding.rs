//! Strict percent-encoding of byte strings.
//!
//! Only the unreserved characters (letters, digits, `-`, `.`, `_`, `~`) pass
//! unchanged; every other byte becomes `%` followed by two upper-case
//! hexadecimal digits.

use vstd::prelude::*;

verus! {

/// The byte `%`.
pub const PERCENT: u8 = 0x25;

/// A byte that the encoding leaves as it is.
pub open spec fn is_unreserved(b: u8) -> bool {
    ||| 0x30 <= b <= 0x39
    ||| 0x41 <= b <= 0x5A
    ||| 0x61 <= b <= 0x7A
    ||| b == 0x2D
    ||| b == 0x2E
    ||| b == 0x5F
    ||| b == 0x7E
}

/// The upper-case hexadecimal digit for a value below 16.
pub open spec fn hex_digit(n: int) -> u8 {
    if n < 10 {
        (0x30 + n) as u8
    } else {
        (0x37 + n) as u8
    }
}

/// The encoding of one byte: itself, or a three-byte escape.
pub open spec fn encoded_byte(b: u8) -> Seq<u8> {
    if is_unreserved(b) {
        seq![b]
    } else {
        seq![PERCENT, hex_digit(b as int / 16), hex_digit(b as int % 16)]
    }
}

/// The encoding of a byte string: the encodings of its bytes, in order.
pub open spec fn percent_encoded(bytes: Seq<u8>) -> Seq<u8>
    decreases bytes.len(),
{
    if bytes.len() == 0 {
        Seq::empty()
    } else {
        percent_encoded(bytes.drop_last()) + encoded_byte(bytes.last())
    }
}

fn unreserved(b: u8) -> (r: bool)
    ensures
        r == is_unreserved(b),
{
    (0x30 <= b && b <= 0x39) || (0x41 <= b && b <= 0x5A) || (0x61 <= b && b <= 0x7A) || b == 0x2D
        || b == 0x2E || b == 0x5F || b == 0x7E
}

fn hex_digit_of(n: u8) -> (d: u8)
    requires
        n < 16,
    ensures
        d == hex_digit(n as int),
{
    if n < 10 {
        0x30 + n
    } else {
        0x37 + n
    }
}

/// Appends the strict percent-encoding of `input` to `out`.
pub fn percent_encode_into(input: &[u8], out: &mut Vec<u8>)
    ensures
        final(out)@ == old(out)@ + percent_encoded(input@),
{
    let ghost before = out@;
    let mut i: usize = 0;
    while i < input.len()
        invariant
            i <= input.len(),
            out@ == before + percent_encoded(input@.take(i as int)),
        decreases input.len() - i,
    {
        let b = input[i];
        proof {
            assert(input@.take(i + 1).drop_last() == input@.take(i as int));
            assert(input@.take(i + 1).last() == b);
        }
        if unreserved(b) {
            out.push(b);
        } else {
            out.push(PERCENT);
            out.push(hex_digit_of(b / 16));
            out.push(hex_digit_of(b % 16));
        }
        i += 1;
    }
    proof {
        assert(input@.take(input.len() as int) == input@);
    }
}

/// The strict percent-encoding of `input`.
pub fn percent_encode(input: &[u8]) -> (out: Vec<u8>)
    ensures
        out@ == percent_encoded(input@),
{
    let mut out: Vec<u8> = Vec::new();
    percent_encode_into(input, &mut out);
    out
}

/// A text made of unreserved bytes and `%` only, as every encoding is.
pub open spec fn is_strict_text(text: Seq<u8>) -> bool {
    forall|i: int| 0 <= i < text.len() ==> is_unreserved(#[trigger] text[i]) || text[i] == PERCENT
}

/// The text with every `%` written as `%25` and every other byte kept.
pub open spec fn percent_escaped(text: Seq<u8>) -> Seq<u8>
    decreases text.len(),
{
    if text.len() == 0 {
        Seq::empty()
    } else if text.last() == PERCENT {
        percent_escaped(text.drop_last()) + seq![PERCENT, 0x32u8, 0x35u8]
    } else {
        percent_escaped(text.drop_last()).push(text.last())
    }
}

/// Encoding a concatenation is concatenating the encodings.
pub proof fn lemma_encoded_concat(a: Seq<u8>, b: Seq<u8>)
    ensures
        percent_encoded(a + b) == percent_encoded(a) + percent_encoded(b),
    decreases b.len(),
{
    if b.len() == 0 {
        assert(a + b == a);
    } else {
        lemma_encoded_concat(a, b.drop_last());
        assert((a + b).drop_last() == a + b.drop_last());
    }
}

/// The encoding of a non-empty string starts with the encoding of its first byte.
pub proof fn lemma_encoded_first(bytes: Seq<u8>)
    requires
        bytes.len() > 0,
    ensures
        percent_encoded(bytes) == encoded_byte(bytes[0]) + percent_encoded(bytes.drop_first()),
{
    let head = seq![bytes[0]];
    assert(bytes == head + bytes.drop_first());
    lemma_encoded_concat(head, bytes.drop_first());
    assert(head.drop_last() == Seq::<u8>::empty());
    assert(percent_encoded(head) == encoded_byte(bytes[0])) by {
        assert(percent_encoded(head.drop_last()) == Seq::<u8>::empty());
    }
}

/// Every encoding is a strict text.
pub proof fn lemma_encoded_is_strict(bytes: Seq<u8>)
    ensures
        is_strict_text(percent_encoded(bytes)),
    decreases bytes.len(),
{
    if bytes.len() > 0 {
        lemma_encoded_is_strict(bytes.drop_last());
    }
}

/// Encoding a strict text keeps its unreserved bytes and turns each `%` into `%25`.
pub proof fn lemma_encode_strict_text(text: Seq<u8>)
    requires
        is_strict_text(text),
    ensures
        percent_encoded(text) == percent_escaped(text),
    decreases text.len(),
{
    if text.len() > 0 {
        lemma_encode_strict_text(text.drop_last());
    }
}

/// Encoding twice: the second pass changes nothing of the first pass's result
/// but its `%` signs, each of which becomes `%25`.
pub proof fn lemma_encoding_twice(bytes: Seq<u8>)
    ensures
        percent_encoded(percent_encoded(bytes)) == percent_escaped(percent_encoded(bytes)),
{
    lemma_encoded_is_strict(bytes);
    lemma_encode_strict_text(percent_encoded(bytes));
}

/// A text of unreserved bytes only is its own encoding.
pub proof fn lemma_unreserved_text_unchanged(text: Seq<u8>)
    requires
        forall|i: int| 0 <= i < text.len() ==> is_unreserved(#[trigger] text[i]),
    ensures
        percent_encoded(text) == text,
    decreases text.len(),
{
    if text.len() > 0 {
        lemma_unreserved_text_unchanged(text.drop_last());
        assert(text.drop_last().push(text.last()) == text);
    }
}

/// Different byte strings have different encodings.
pub proof fn lemma_encoding_injective(a: Seq<u8>, b: Seq<u8>)
    requires
        percent_encoded(a) == percent_encoded(b),
    ensures
        a == b,
    decreases a.len(),
{
    if a.len() == 0 {
        if b.len() > 0 {
            lemma_encoded_first(b);
            assert(percent_encoded(b).len() > 0);
        }
        assert(a == b);
    } else if b.len() == 0 {
        lemma_encoded_first(a);
        assert(percent_encoded(a).len() > 0);
    } else {
        lemma_encoded_first(a);
        lemma_encoded_first(b);
        let ea = percent_encoded(a);
        let eb = percent_encoded(b);
        let ta = percent_encoded(a.drop_first());
        let tb = percent_encoded(b.drop_first());
        assert(ea[0] == eb[0]);
        if is_unreserved(a[0]) {
            assert(ea[0] == a[0]);
            assert(is_unreserved(b[0]));
            assert(ta == ea.skip(1));
            assert(tb == eb.skip(1));
        } else {
            assert(ea[0] == PERCENT);
            assert(!is_unreserved(b[0]));
            assert(ea[1] == eb[1] && ea[2] == eb[2]);
            assert(ta == ea.skip(3));
            assert(tb == eb.skip(3));
        }
        assert(a[0] == b[0]);
        lemma_encoding_injective(a.drop_first(), b.drop_first());
        assert(a == seq![a[0]] + a.drop_first());
        assert(b == seq![b[0]] + b.drop_first());
    }
}

} // verus!
