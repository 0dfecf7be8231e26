//! What holds of texts and of the numbers that they write.
use crate::error_chain::{chain_text, ErrorChain};
use crate::text::{
    all_digits, ascii_lower, bytes_before, decimal, digits_value, parsed, text_before,
    unsigned_part,
};
use vstd::prelude::*;
use vstd::utf8::*;

verus! {

/// Lower case changes the letters `A` to `Z` alone, each into the letter 32 places further on.
pub proof fn law_lower_case_changes_capital_letters_alone(s: Seq<char>, i: int)
    requires
        0 <= i < s.len(),
    ensures
        ascii_lower(s).len() == s.len(),
        65 <= s[i] as u32 <= 90 ==> ascii_lower(s)[i] as u32 == s[i] as u32 + 32,
        !(65 <= s[i] as u32 <= 90) ==> ascii_lower(s)[i] == s[i],
{
}

/// Every character is a decimal digit.
pub open spec fn only_digits(s: Seq<char>) -> bool {
    forall|i: int| 0 <= i < s.len() ==> '0' <= #[trigger] s[i] && s[i] <= '9'
}

/// The number that digits write.
pub open spec fn number_written(s: Seq<char>) -> nat
    decreases s.len(),
{
    if s.len() == 0 {
        0
    } else {
        10 * number_written(s.drop_last()) + (s.last() as u32 - 48) as nat
    }
}

/// A text writes a number: in digits, at least one of them, without a leading zero.
pub open spec fn writes(s: Seq<char>, n: nat) -> bool {
    &&& s.len() > 0
    &&& only_digits(s)
    &&& number_written(s) == n
    &&& s.len() > 1 ==> s[0] != '0'
}

/// A number in decimal is what its digits write, without a leading zero.
pub proof fn law_numbers_are_written_in_decimal(n: nat)
    ensures
        writes(decimal(n), n),
        n > 0 ==> decimal(n)[0] != '0',
    decreases n,
{
    if n < 10 {
        assert(decimal(n).drop_last() =~= Seq::empty());
        assert(number_written(decimal(n).drop_last()) == 0);
    } else {
        law_numbers_are_written_in_decimal(n / 10);
        assert(decimal(n).drop_last() =~= decimal(n / 10));
    }
}

/// A text of one-byte characters only, if all bytes of its encoding are below 128.
proof fn lemma_ascii_bytes(s: Seq<char>)
    requires
        forall|i: int| 0 <= i < encode_utf8(s).len() ==> #[trigger] encode_utf8(s)[i] < 128,
    ensures
        is_ascii_chars(s),
    decreases s.len(),
{
    if s.len() > 0 {
        let c = s[0] as u32;
        let rest = encode_utf8(s.drop_first());
        let first = encode_scalar(c);
        assert(encode_utf8(s) == first + rest);
        assert forall|i: int| 0 <= i < rest.len() implies #[trigger] rest[i] < 128 by {
            assert(encode_utf8(s)[first.len() + i] == rest[i]);
        }
        lemma_ascii_bytes(s.drop_first());
        assert(encode_utf8(s)[0] == first[0]);
        assert(leading_byte_width_2(c) >= 128) by (bit_vector);
        assert(leading_byte_width_3(c) >= 128) by (bit_vector);
        assert(leading_byte_width_4(c) >= 128) by (bit_vector);
        assert(has_width_1_encoding(c));
        assert forall|i: int| 0 <= i < s.len() implies '\0' <= #[trigger] s[i] <= '\u{7f}' by {
            if i > 0 {
                assert(s.drop_first()[i - 1] == s[i]);
            } else {
                char_u32_cast(s[0], c);
            }
        }
    }
}

proof fn lemma_same_value(s: Seq<char>, bytes: Seq<u8>)
    requires
        s.len() == bytes.len(),
        only_digits(s),
        forall|i: int| 0 <= i < s.len() ==> #[trigger] s[i] as u8 == bytes[i],
    ensures
        all_digits(bytes),
        digits_value(bytes) == number_written(s),
    decreases s.len(),
{
    assert forall|i: int| 0 <= i < bytes.len() implies 48 <= #[trigger] bytes[i] <= 57 by {
        assert(s[i] as u8 == bytes[i]);
    }
    if s.len() > 0 {
        let rest = s.drop_last();
        assert forall|i: int| 0 <= i < rest.len() implies #[trigger] rest[i] as u8
            == bytes.drop_last()[i] by {
            assert(s[i] as u8 == bytes[i]);
        }
        assert forall|i: int| 0 <= i < rest.len() implies '0' <= #[trigger] rest[i] && rest[i]
            <= '9' by {
            assert(rest[i] == s[i]);
        }
        lemma_same_value(rest, bytes.drop_last());
        assert(s[s.len() - 1] as u8 == bytes[s.len() - 1]);
    }
}

/// A text without a plus sign in front.
pub open spec fn without_plus(s: Seq<char>) -> Seq<char> {
    if s.len() > 0 && s[0] == '+' {
        s.drop_first()
    } else {
        s
    }
}

/// A text reads as a number exactly if it is a plus sign or none, and then digits that write the
/// number, at least one of them and nothing else.
pub proof fn law_texts_that_read_as_numbers(s: Seq<char>, n: u64)
    ensures
        parsed(s) == Some(n) <==> {
            &&& without_plus(s).len() > 0
            &&& only_digits(without_plus(s))
            &&& number_written(without_plus(s)) == n
        },
{
    let bytes = encode_utf8(s);
    let digits = unsigned_part(bytes);
    let d = without_plus(s);
    if parsed(s) is Some {
        assert forall|i: int| 0 <= i < bytes.len() implies #[trigger] bytes[i] < 128 by {
            if bytes[0] == 43 {
                if i > 0 {
                    assert(digits[i - 1] == bytes[i]);
                }
            } else {
                assert(digits[i] == bytes[i]);
            }
        }
        lemma_ascii_bytes(s);
        is_ascii_chars_encode_utf8(s);
        assert(s[0] as u8 == bytes[0]);
        assert(d.len() == digits.len());
        assert forall|i: int| 0 <= i < d.len() implies '0' <= #[trigger] d[i] && d[i] <= '9' by {
            let j = if s[0] == '+' { i + 1 } else { i };
            assert(d[i] == s[j]);
            assert(s[j] as u8 == bytes[j]);
            assert(digits[i] == bytes[j]);
        }
    }
    if d.len() > 0 && only_digits(d) {
        assert forall|i: int| 0 <= i < s.len() implies '\0' <= #[trigger] s[i] <= '\u{7f}' by {
            if s[0] == '+' {
                if i > 0 {
                    assert(d[i - 1] == s[i]);
                }
            } else {
                assert(d[i] == s[i]);
            }
        }
        is_ascii_chars_encode_utf8(s);
        assert(s[0] as u8 == bytes[0]);
        assert(d.len() == digits.len());
        assert forall|i: int| 0 <= i < d.len() implies #[trigger] d[i] as u8 == digits[i] by {
            let j = if s[0] == '+' { i + 1 } else { i };
            assert(d[i] == s[j]);
            assert(s[j] as u8 == bytes[j]);
            assert(digits[i] == bytes[j]);
        }
        lemma_same_value(d, digits);
    }
}

/// One text comes before another exactly if, in their UTF-8 bytes, it is shorter and the other goes
/// on from it, or has the smaller byte where they first differ.
pub proof fn law_texts_are_ordered_by_their_bytes(a: Seq<char>, b: Seq<char>)
    ensures
        text_before(a, b) <==> exists|i: int| #[trigger]
            parts_at(encode_utf8(a), encode_utf8(b), i),
{
    let x = encode_utf8(a);
    let y = encode_utf8(b);
    lemma_bytes_order(x, y);
}

/// Two byte sequences agree up to a position, at which the first one ends or has the smaller byte.
pub open spec fn parts_at(x: Seq<u8>, y: Seq<u8>, i: int) -> bool {
    &&& 0 <= i <= x.len()
    &&& i < y.len()
    &&& forall|j: int| 0 <= j < i ==> #[trigger] x[j] == y[j]
    &&& i == x.len() || x[i] < y[i]
}

proof fn lemma_bytes_order(x: Seq<u8>, y: Seq<u8>)
    ensures
        bytes_before(x, y) <==> exists|i: int| #[trigger] parts_at(x, y, i),
    decreases x.len(),
{
    if x.len() > 0 && y.len() > 0 && x[0] == y[0] {
        let xs = x.drop_first();
        let ys = y.drop_first();
        lemma_bytes_order(xs, ys);
        if bytes_before(xs, ys) {
            let i = choose|i: int| #[trigger] parts_at(xs, ys, i);
            assert forall|j: int| 0 <= j < i + 1 implies #[trigger] x[j] == y[j] by {
                if j > 0 {
                    assert(xs[j - 1] == ys[j - 1]);
                }
            }
            assert(parts_at(x, y, i + 1));
        }
        if exists|i: int| #[trigger] parts_at(x, y, i) {
            let i = choose|i: int| #[trigger] parts_at(x, y, i);
            assert forall|j: int| 0 <= j < i - 1 implies #[trigger] xs[j] == ys[j] by {
                assert(x[j + 1] == y[j + 1]);
            }
            assert(parts_at(xs, ys, i - 1));
        }
    } else {
        if bytes_before(x, y) {
            assert(parts_at(x, y, 0));
        }
        if exists|i: int| #[trigger] parts_at(x, y, i) {
            let i = choose|i: int| #[trigger] parts_at(x, y, i);
            if i > 0 {
                assert(x[0] == y[0]);
            }
        }
    }
}

/// An error without causes is its own message, and every cause follows what is before it, behind a
/// colon.
pub proof fn law_causes_follow_the_message(
    head: Seq<char>,
    sources: Seq<String>,
    cause: String,
    e: ErrorChain,
)
    ensures
        e@ == chain_text(e.message@, e.sources@),
        chain_text(head, Seq::empty()) == head,
        chain_text(head, sources.push(cause)) == chain_text(head, sources) + ": "@ + cause@,
{
    assert(sources.push(cause).drop_last() =~= sources);
}

} // verus!
