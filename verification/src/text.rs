//! Text helpers: comparison, order, ASCII case and decimal rendering.
use vstd::prelude::*;
use vstd::string::*;
use vstd::utf8::*;

verus! {

/// Lexicographic order of byte sequences.
pub open spec fn bytes_before(x: Seq<u8>, y: Seq<u8>) -> bool
    decreases x.len(),
{
    if y.len() == 0 {
        false
    } else if x.len() == 0 {
        true
    } else if x[0] != y[0] {
        x[0] < y[0]
    } else {
        bytes_before(x.drop_first(), y.drop_first())
    }
}

/// The order of strings: that of their UTF-8 bytes.
pub open spec fn text_before(a: Seq<char>, b: Seq<char>) -> bool {
    bytes_before(encode_utf8(a), encode_utf8(b))
}

proof fn lemma_bytes_before_irreflexive(x: Seq<u8>)
    ensures
        !bytes_before(x, x),
    decreases x.len(),
{
    if x.len() > 0 {
        lemma_bytes_before_irreflexive(x.drop_first());
    }
}

proof fn lemma_bytes_before_transitive(x: Seq<u8>, y: Seq<u8>, z: Seq<u8>)
    requires
        bytes_before(x, y),
        bytes_before(y, z),
    ensures
        bytes_before(x, z),
    decreases x.len(),
{
    if x.len() > 0 && x[0] == y[0] && y[0] == z[0] {
        lemma_bytes_before_transitive(x.drop_first(), y.drop_first(), z.drop_first());
    }
}

proof fn lemma_bytes_before_total(x: Seq<u8>, y: Seq<u8>)
    ensures
        bytes_before(x, y) || bytes_before(y, x) || x == y,
    decreases x.len(),
{
    if x.len() > 0 && y.len() > 0 && x[0] == y[0] {
        lemma_bytes_before_total(x.drop_first(), y.drop_first());
        if x.drop_first() == y.drop_first() {
            assert(x =~= seq![x[0]] + x.drop_first());
            assert(y =~= seq![y[0]] + y.drop_first());
        }
    } else if x.len() == 0 && y.len() == 0 {
        assert(x =~= y);
    }
}

/// Two strings with the same UTF-8 bytes are the same string.
pub proof fn lemma_encoding_injective(a: Seq<char>, b: Seq<char>)
    requires
        encode_utf8(a) == encode_utf8(b),
    ensures
        a == b,
{
    encode_utf8_decode_utf8(a);
    encode_utf8_decode_utf8(b);
}

/// `text_before` is a strict total order.
pub proof fn lemma_text_order()
    ensures
        forall|a: Seq<char>| !#[trigger] text_before(a, a),
        forall|a: Seq<char>, b: Seq<char>, c: Seq<char>|
            #[trigger] text_before(a, b) && #[trigger] text_before(b, c) ==> text_before(a, c),
        forall|a: Seq<char>, b: Seq<char>|
            #[trigger] text_before(a, b) || text_before(b, a) || a == b,
{
    assert forall|a: Seq<char>| !#[trigger] text_before(a, a) by {
        lemma_bytes_before_irreflexive(encode_utf8(a));
    }
    assert forall|a: Seq<char>, b: Seq<char>, c: Seq<char>|
        #[trigger] text_before(a, b) && #[trigger] text_before(b, c) implies text_before(a, c) by {
        lemma_bytes_before_transitive(encode_utf8(a), encode_utf8(b), encode_utf8(c));
    }
    assert forall|a: Seq<char>, b: Seq<char>|
        #[trigger] text_before(a, b) || text_before(b, a) || a == b by {
        lemma_bytes_before_total(encode_utf8(a), encode_utf8(b));
        if encode_utf8(a) == encode_utf8(b) {
            lemma_encoding_injective(a, b);
        }
    }
}

/// Whether two strings are equal.
pub fn same_text(a: &str, b: &str) -> (r: bool)
    ensures
        r == (a@ == b@),
{
    let x = a.as_bytes();
    let y = b.as_bytes();
    if x.len() != y.len() {
        return false;
    }
    let n: usize = x.len();
    let mut i: usize = 0;
    while i < n
        invariant
            n == x.len(),
            n == y.len(),
            i <= n,
            x@ == a.spec_bytes(),
            y@ == b.spec_bytes(),
            forall|j: int| 0 <= j < i ==> x@[j] == y@[j],
        decreases n - i,
    {
        if x[i] != y[i] {
            return false;
        }
        i += 1;
    }
    proof {
        assert(x@ =~= y@);
        lemma_encoding_injective(a@, b@);
    }
    true
}

/// Whether `a` comes strictly before `b` in the order of strings.
pub fn sorts_before(a: &str, b: &str) -> (r: bool)
    ensures
        r == text_before(a@, b@),
{
    let x = a.as_bytes();
    let y = b.as_bytes();
    let mut i: usize = 0;
    assert(x@.skip(0) =~= x@);
    assert(y@.skip(0) =~= y@);
    while i < x.len() && i < y.len()
        invariant
            i <= x.len(),
            i <= y.len(),
            x@ == a.spec_bytes(),
            y@ == b.spec_bytes(),
            text_before(a@, b@) == bytes_before(x@.skip(i as int), y@.skip(i as int)),
        decreases x.len() - i,
    {
        if x[i] != y[i] {
            return x[i] < y[i];
        }
        assert(x@.skip(i as int).drop_first() =~= x@.skip(i + 1));
        assert(y@.skip(i as int).drop_first() =~= y@.skip(i + 1));
        i += 1;
    }
    i < y.len()
}

/// A character with ASCII upper case replaced by lower case.
pub open spec fn lower_char(c: char) -> char {
    if 'A' <= c && c <= 'Z' {
        ((c as u32) + 32) as char
    } else {
        c
    }
}

/// A string with ASCII upper case replaced by lower case.
pub open spec fn ascii_lower(s: Seq<char>) -> Seq<char> {
    s.map_values(|c: char| lower_char(c))
}

/// Calls `str::to_ascii_lowercase` of the standard library: ASCII letters `A` to `Z` become `a`
/// to `z`, every other character stays as it is.
#[verifier::external_body]
pub(crate) fn to_lower(s: &str) -> (r: String)
    ensures
        r@ == ascii_lower(s@),
{
    s.to_ascii_lowercase()
}

/// The decimal digits of a number, without leading zeros.
pub open spec fn decimal(n: nat) -> Seq<char>
    decreases n,
{
    if n < 10 {
        seq![digit(n)]
    } else {
        decimal(n / 10).push(digit(n % 10))
    }
}

/// The character of one decimal digit.
pub open spec fn digit(d: nat) -> char {
    ((48 + d) as u8) as char
}

fn digit_text(d: u64) -> (r: &'static str)
    requires
        d < 10,
    ensures
        r@ == seq![digit(d as nat)],
{
    proof {
        reveal_strlit("0");
        reveal_strlit("1");
        reveal_strlit("2");
        reveal_strlit("3");
        reveal_strlit("4");
        reveal_strlit("5");
        reveal_strlit("6");
        reveal_strlit("7");
        reveal_strlit("8");
        reveal_strlit("9");
    }
    match d {
        0 => "0",
        1 => "1",
        2 => "2",
        3 => "3",
        4 => "4",
        5 => "5",
        6 => "6",
        7 => "7",
        8 => "8",
        _ => "9",
    }
}

/// Renders a number in decimal.
pub fn decimal_text(n: u64) -> (r: String)
    ensures
        r@ == decimal(n as nat),
    decreases n,
{
    if n < 10 {
        digit_text(n).to_owned()
    } else {
        let mut r = decimal_text(n / 10);
        r.append(digit_text(n % 10));
        assert(r@ =~= decimal((n / 10) as nat).push(digit((n % 10) as nat)));
        r
    }
}

/// The number that digits write; their bytes are ASCII.
pub open spec fn digits_value(bytes: Seq<u8>) -> nat
    decreases bytes.len(),
{
    if bytes.len() == 0 {
        0
    } else {
        10 * digits_value(bytes.drop_last()) + (bytes.last() - 48) as nat
    }
}

/// Whether every byte is an ASCII digit.
pub open spec fn all_digits(bytes: Seq<u8>) -> bool {
    forall|i: int| 0 <= i < bytes.len() ==> 48 <= #[trigger] bytes[i] <= 57
}

/// The bytes without a plus sign in front.
pub open spec fn unsigned_part(bytes: Seq<u8>) -> Seq<u8> {
    if bytes.len() > 0 && bytes[0] == 43 {
        bytes.drop_first()
    } else {
        bytes
    }
}

/// The number that a text writes: a plus sign or none, then at least one digit and nothing else,
/// with a value that 64 bits hold.
pub open spec fn parsed(s: Seq<char>) -> Option<u64> {
    let digits = unsigned_part(encode_utf8(s));
    if digits.len() > 0 && all_digits(digits) && digits_value(digits) <= u64::MAX {
        Some(digits_value(digits) as u64)
    } else {
        None
    }
}

proof fn lemma_digits_value_grows(bytes: Seq<u8>, n: int)
    requires
        all_digits(bytes),
        0 <= n <= bytes.len(),
    ensures
        digits_value(bytes.take(n)) <= digits_value(bytes),
    decreases bytes.len(),
{
    if n == bytes.len() {
        assert(bytes.take(n) =~= bytes);
    } else {
        assert forall|i: int| 0 <= i < bytes.len() - 1 implies 48 <= #[trigger] bytes.drop_last()[i]
            <= 57 by {
            assert(bytes.drop_last()[i] == bytes[i]);
        }
        lemma_digits_value_grows(bytes.drop_last(), n);
        assert(bytes.drop_last().take(n) =~= bytes.take(n));
    }
}

/// Reads a number that is written in decimal.
pub fn parse_u64(s: &str) -> (r: Option<u64>)
    ensures
        r == parsed(s@),
{
    let bytes = s.as_bytes();
    let start: usize = if bytes.len() > 0 && bytes[0] == 43 {
        1
    } else {
        0
    };
    let ghost digits = unsigned_part(bytes@);
    assert(digits =~= bytes@.skip(start as int));
    if bytes.len() == start {
        return None;
    }
    let mut value: u64 = 0;
    let mut i: usize = start;
    assert(digits.take(0) =~= Seq::empty());
    while i < bytes.len()
        invariant
            start <= i <= bytes@.len(),
            bytes@ == encode_utf8(s@),
            digits == unsigned_part(bytes@),
            digits == bytes@.skip(start as int),
            forall|j: int| 0 <= j < i - start ==> 48 <= #[trigger] digits[j] <= 57,
            value == digits_value(digits.take(i - start)),
        decreases bytes@.len() - i,
    {
        let b: u8 = bytes[i];
        assert(b == digits[i - start]);
        if b < 48 || 57 < b {
            return None;
        }
        let d: u64 = (b - 48) as u64;
        proof {
            assert(digits.take(i - start + 1).drop_last() =~= digits.take(i - start));
            assert(digits.take(i - start + 1).last() == b);
        }
        if value > (u64::MAX - d) / 10 {
            proof {
                if all_digits(digits) {
                    lemma_digits_value_grows(digits, i - start + 1);
                }
            }
            return None;
        }
        value = 10 * value + d;
        i += 1;
    }
    assert(digits.take(i - start) =~= digits);
    Some(value)
}

/// A text between two others.
pub(crate) fn around(before: &str, value: &str, after: &str) -> (r: String)
    ensures
        r@ == before@ + value@ + after@,
{
    let mut m = before.to_owned();
    m.append(value);
    m.append(after);
    m
}

/// Two texts between three others.
pub(crate) fn around_two(
    before: &str,
    first: &str,
    between: &str,
    second: &str,
    after: &str,
) -> (r: String)
    ensures
        r@ == before@ + first@ + between@ + second@ + after@,
{
    let mut m = around(before, first, between);
    m.append(second);
    m.append(after);
    m
}

/// Three texts between four others.
pub(crate) fn around_three(
    before: &str,
    first: &str,
    after_first: &str,
    second: &str,
    after_second: &str,
    third: &str,
    after: &str,
) -> (r: String)
    ensures
        r@ == before@ + first@ + after_first@ + second@ + after_second@ + third@ + after@,
{
    let mut m = around_two(before, first, after_first, second, after_second);
    m.append(third);
    m.append(after);
    m
}

/// The text of an optional string.
pub open spec fn option_text(o: Option<String>) -> Option<Seq<char>> {
    match o {
        Some(s) => Some(s@),
        None => None,
    }
}

/// A text that may be missing, as messages show it.
pub open spec fn or_empty(o: Option<Seq<char>>) -> Seq<char> {
    match o {
        Some(s) => s,
        None => ""@,
    }
}

/// The text of an optional string slice.
pub open spec fn slice_text(o: Option<&str>) -> Option<Seq<char>> {
    match o {
        Some(s) => Some(s@),
        None => None,
    }
}

/// Borrows an optional string as a slice.
pub fn as_slice(o: &Option<String>) -> (r: Option<&str>)
    ensures
        slice_text(r) == option_text(*o),
{
    match o {
        Some(s) => Some(s.as_str()),
        None => None,
    }
}

} // verus!
