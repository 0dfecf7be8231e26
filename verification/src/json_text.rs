//! JSON values as text: compact, with the members of an object in the order of their keys.
use crate::json::{
    items_view, key_order, lemma_key_order_unique, Json, JsonNumber, JsonObject, JsonView,
    NumberView,
};
use crate::text::{decimal, decimal_text, lemma_text_order, text_before};
use vstd::prelude::*;
use vstd::string::*;

verus! {

/// A hexadecimal digit in lower case.
pub open spec fn hex_digit(n: nat) -> char {
    if n < 10 {
        ((48 + n) as u8) as char
    } else {
        ((87 + n) as u8) as char
    }
}

/// A character within a JSON string literal: a quote, a backslash and the control characters are
/// escaped, every other character stands for itself.
pub open spec fn escaped(c: char) -> Seq<char> {
    if c == '"' {
        seq!['\\', '"']
    } else if c == '\\' {
        seq!['\\', '\\']
    } else if c == '\u{8}' {
        seq!['\\', 'b']
    } else if c == '\u{9}' {
        seq!['\\', 't']
    } else if c == '\u{a}' {
        seq!['\\', 'n']
    } else if c == '\u{c}' {
        seq!['\\', 'f']
    } else if c == '\u{d}' {
        seq!['\\', 'r']
    } else if !(' ' <= c) {
        seq!['\\', 'u', '0', '0', hex_digit(c as nat / 16), hex_digit(c as nat % 16)]
    } else {
        seq![c]
    }
}

/// A text within a JSON string literal.
pub open spec fn escaped_text(s: Seq<char>) -> Seq<char>
    decreases s.len(),
{
    if s.len() == 0 {
        Seq::empty()
    } else {
        escaped_text(s.drop_last()) + escaped(s.last())
    }
}

/// The JSON string literal of a text.
pub open spec fn json_quoted(s: Seq<char>) -> Seq<char> {
    "\""@ + escaped_text(s) + "\""@
}

/// Calls the `Display` of `serde_json::Value` on a string value: the result is the string's JSON
/// literal, between quotes, with a quote, a backslash and the characters below a space escaped, by
/// a short form where JSON has one and else by their code in lower-case hexadecimal.
#[verifier::external_body]
pub(crate) fn quote(s: &str) -> (r: String)
    ensures
        r@ == json_quoted(s@),
{
    serde_json::Value::from(s).to_string()
}

/// A text without a quote, a backslash or a control character.
pub open spec fn plain(s: Seq<char>) -> bool {
    forall|i: int| 0 <= i < s.len() ==> ' ' <= #[trigger] s[i] && s[i] != '"' && s[i] != '\\'
}

/// A text without a quote, a backslash or a control character stands between two quotes as it is.
pub proof fn law_plain_texts_are_quoted_as_they_are(s: Seq<char>)
    requires
        plain(s),
    ensures
        json_quoted(s) == "\""@ + s + "\""@,
{
    lemma_plain(s);
}

proof fn lemma_plain(s: Seq<char>)
    requires
        plain(s),
    ensures
        escaped_text(s) == s,
    decreases s.len(),
{
    if s.len() > 0 {
        let rest = s.drop_last();
        assert forall|i: int| 0 <= i < rest.len() implies ' ' <= #[trigger] rest[i] && rest[i]
            != '"' && rest[i] != '\\' by {
            assert(rest[i] == s[i]);
        }
        lemma_plain(rest);
        assert(s[s.len() - 1] == s.last());
        assert(s =~= rest + seq![s.last()]);
    } else {
        assert(s =~= Seq::empty());
    }
}

/// A signed integer in decimal.
pub open spec fn signed_decimal(n: int) -> Seq<char> {
    if n < 0 {
        "-"@ + decimal((-n) as nat)
    } else {
        decimal(n as nat)
    }
}

/// A number as JSON text.
pub open spec fn number_text(n: NumberView) -> Seq<char> {
    match n {
        NumberView::PosInt(u) => decimal(u as nat),
        NumberView::NegInt(i) => signed_decimal(i as int),
        NumberView::Float(t) => t,
    }
}

/// The keys of a set in the order of strings.
pub open spec fn ordered(dom: Set<Seq<char>>) -> Seq<Seq<char>> {
    choose|keys: Seq<Seq<char>>| key_order(keys, dom)
}

/// Keys in order with one more put in its place.
spec fn placed(keys: Seq<Seq<char>>, key: Seq<char>) -> Seq<Seq<char>>
    decreases keys.len(),
{
    if keys.len() == 0 || text_before(keys.last(), key) {
        keys.push(key)
    } else {
        placed(keys.drop_last(), key).push(keys.last())
    }
}

proof fn lemma_placed(keys: Seq<Seq<char>>, key: Seq<char>, dom: Set<Seq<char>>)
    requires
        key_order(keys, dom),
        !dom.contains(key),
    ensures
        key_order(placed(keys, key), dom.insert(key)),
    decreases keys.len(),
{
    lemma_text_order();
    let r = placed(keys, key);
    if keys.len() == 0 || text_before(keys.last(), key) {
        assert forall|i: int, j: int| 0 <= i < j < r.len() implies text_before(r[i], r[j]) by {
            if j == keys.len() && i < keys.len() - 1 {
                assert(text_before(keys[i], keys.last()));
            }
        }
        assert forall|k: Seq<char>| r.contains(k) <==> dom.insert(key).contains(k) by {
            if keys.contains(k) {
                assert(r[keys.index_of(k)] == k);
            }
            if k == key {
                assert(r[keys.len() as int] == k);
            }
            if r.contains(k) && k != key {
                assert(keys[r.index_of(k)] == k);
            }
        }
    } else {
        let last = keys.last();
        let rest = keys.drop_last();
        assert(keys.contains(last));
        assert(text_before(key, last));
        assert forall|k: Seq<char>| rest.contains(k) <==> dom.remove(last).contains(k) by {
            if rest.contains(k) {
                let i = rest.index_of(k);
                assert(keys[i] == k);
                assert(text_before(keys[i], last));
            }
            if dom.remove(last).contains(k) {
                assert(keys.contains(k));
                assert(rest[keys.index_of(k)] == k);
            }
        }
        lemma_placed(rest, key, dom.remove(last));
        let below = placed(rest, key);
        assert forall|i: int, j: int| 0 <= i < j < r.len() implies text_before(r[i], r[j]) by {
            if j == below.len() {
                assert(below.contains(below[i]));
                if below[i] != key {
                    assert(rest.contains(below[i]));
                    let x = rest.index_of(below[i]);
                    assert(text_before(keys[x], last));
                }
            }
        }
        assert forall|k: Seq<char>| r.contains(k) <==> dom.insert(key).contains(k) by {
            if r.contains(k) {
                let i = r.index_of(k);
                if i < below.len() {
                    assert(below[i] == k);
                    assert(below.contains(k));
                }
            }
            if dom.insert(key).contains(k) {
                if k == last {
                    assert(r[below.len() as int] == k);
                } else {
                    assert(below.contains(k));
                    assert(r[below.index_of(k)] == k);
                }
            }
        }
    }
}

proof fn lemma_order_exists(dom: Set<Seq<char>>) -> (keys: Seq<Seq<char>>)
    requires
        dom.finite(),
    ensures
        key_order(keys, dom),
    decreases dom.len(),
{
    if dom.len() == 0 {
        let keys: Seq<Seq<char>> = Seq::empty();
        assert forall|k: Seq<char>| keys.contains(k) <==> dom.contains(k) by {
            assert(dom =~= Set::empty());
        }
        keys
    } else {
        let key = dom.choose();
        let rest = lemma_order_exists(dom.remove(key));
        lemma_placed(rest, key, dom.remove(key));
        assert(dom.remove(key).insert(key) =~= dom);
        placed(rest, key)
    }
}

/// A finite set of keys has an order.
pub proof fn lemma_ordered(dom: Set<Seq<char>>)
    requires
        dom.finite(),
    ensures
        key_order(ordered(dom), dom),
{
    let keys = lemma_order_exists(dom);
    assert(key_order(keys, dom));
}

/// Texts, separated by commas.
pub open spec fn commas(parts: Seq<Seq<char>>) -> Seq<char>
    decreases parts.len(),
{
    if parts.len() == 0 {
        Seq::empty()
    } else if parts.len() == 1 {
        parts[0]
    } else {
        commas(parts.drop_last()) + ","@ + parts.last()
    }
}

/// One member of an object.
pub open spec fn member_text(key: Seq<char>, value: Seq<char>) -> Seq<char> {
    json_quoted(key) + ":"@ + value
}

/// A value as JSON text.
pub open spec fn json_text(v: JsonView) -> Seq<char>
    decreases v, 1nat,
{
    match v {
        JsonView::Null => "null"@,
        JsonView::Bool(b) => if b {
            "true"@
        } else {
            "false"@
        },
        JsonView::Number(n) => number_text(n),
        JsonView::Text(s) => json_quoted(s),
        JsonView::Array(_) => "["@ + commas(item_texts(v)) + "]"@,
        JsonView::Object(_) => "{"@ + commas(member_texts(v)) + "}"@,
    }
}

/// The texts of an array's items.
pub open spec fn item_texts(v: JsonView) -> Seq<Seq<char>>
    decreases v, 0nat,
{
    match v {
        JsonView::Array(items) => Seq::new(
            items.len(),
            |i: int|
                if 0 <= i < items.len() {
                    json_text(items[i])
                } else {
                    Seq::empty()
                },
        ),
        _ => Seq::empty(),
    }
}

/// The texts of an object's members, in the order of their keys.
pub open spec fn member_texts(v: JsonView) -> Seq<Seq<char>>
    decreases v, 0nat,
{
    match v {
        JsonView::Object(m) => {
            let keys = ordered(m.dom());
            Seq::new(
                keys.len(),
                |i: int|
                    if m.dom().contains(keys[i]) {
                        member_text(keys[i], json_text(m[keys[i]]))
                    } else {
                        Seq::empty()
                    },
            )
        },
        _ => Seq::empty(),
    }
}

/// An object has as many member texts as keys.
pub(crate) proof fn lemma_member_texts(m: Map<Seq<char>, JsonView>, keys: Seq<Seq<char>>)
    requires
        key_order(keys, m.dom()),
    ensures
        ordered(m.dom()) == keys,
        member_texts(JsonView::Object(m)).len() == keys.len(),
{
    lemma_key_order_unique(keys, ordered(m.dom()), m.dom());
}

/// Appending one more text to those that are separated by commas.
pub(crate) proof fn lemma_commas_next(parts: Seq<Seq<char>>, n: int)
    requires
        0 <= n < parts.len(),
    ensures
        n == 0 ==> commas(parts.take(n + 1)) == parts[n],
        n > 0 ==> commas(parts.take(n + 1)) == commas(parts.take(n)) + ","@ + parts[n],
{
    assert(parts.take(n + 1).drop_last() =~= parts.take(n));
}

fn push_number(n: &JsonNumber, out: &mut String)
    ensures
        final(out)@ == old(out)@ + number_text(n@),
{
    match n {
        JsonNumber::PosInt(u) => {
            let t = decimal_text(*u);
            out.append(t.as_str());
        },
        JsonNumber::NegInt(i) => {
            if *i < 0 {
                let m: u64 = if *i == i64::MIN {
                    0x8000_0000_0000_0000
                } else {
                    (-*i) as u64
                };
                out.append("-");
                let t = decimal_text(m);
                out.append(t.as_str());
                assert(out@ =~= old(out)@ + ("-"@ + decimal(m as nat)));
            } else {
                let t = decimal_text(*i as u64);
                out.append(t.as_str());
            }
        },
        JsonNumber::Float(t) => {
            out.append(t.as_str());
        },
    }
}

/// Appends the text of a value.
pub(crate) fn push_json(v: &Json, out: &mut String)
    ensures
        final(out)@ == old(out)@ + json_text(v@),
    decreases v, 0nat,
{
    match v {
        Json::Null => {
            out.append("null");
        },
        Json::Bool(b) => {
            if *b {
                out.append("true");
            } else {
                out.append("false");
            }
        },
        Json::Number(n) => {
            push_number(n, out);
        },
        Json::Text(s) => {
            let q = quote(s.as_str());
            out.append(q.as_str());
        },
        Json::Array(items) => {
            out.append("[");
            let mut i: usize = 0;
            let ghost texts = item_texts(v@);
            assert(texts.take(0) =~= Seq::empty());
            assert(out@ =~= old(out)@ + "["@ + commas(texts.take(0)));
            while i < items.len()
                invariant
                    i <= items@.len(),
                    *v == Json::Array(*items),
                    v@ == JsonView::Array(items_view(items@)),
                    texts == item_texts(v@),
                    out@ == old(out)@ + "["@ + commas(texts.take(i as int)),
                decreases items@.len() - i,
            {
                proof {
                    lemma_commas_next(texts, i as int);
                    assert(texts[i as int] == json_text(items@[i as int]@));
                    assert(decreases_to!(v => v->Array_0));
                    assert(decreases_to!(items => items@));
                    assert(decreases_to!(items@ => items@[i as int]));
                }
                if i > 0 {
                    out.append(",");
                }
                push_json(&items[i], out);
                assert(out@ =~= old(out)@ + "["@ + commas(texts.take(i + 1)));
                i += 1;
            }
            out.append("]");
            proof {
                assert(texts.take(i as int) =~= texts);
                assert(out@ =~= old(out)@ + json_text(v@));
            }
        },
        Json::Object(o) => {
            out.append("{");
            push_members(o, out);
            out.append("}");
            assert(out@ =~= old(out)@ + json_text(v@));
        },
    }
}

/// Appends the members of an object, separated by commas.
pub(crate) fn push_members(o: &JsonObject, out: &mut String)
    ensures
        final(out)@ == old(out)@ + commas(member_texts(JsonView::Object(o@))),
    decreases o, 1nat,
{
    let n: usize = o.len();
    let mut i: usize = 0;
    let ghost keys = o.keys();
    let ghost texts = member_texts(JsonView::Object(o@));
    proof {
        lemma_member_texts(o@, keys);
    }
    assert(texts.take(0) =~= Seq::empty());
    assert(out@ =~= old(out)@ + commas(texts.take(0)));
    while i < n
        invariant
            i <= n,
            n == keys.len(),
            keys == o.keys(),
            texts == member_texts(JsonView::Object(o@)),
            ordered(o@.dom()) == keys,
            out@ == old(out)@ + commas(texts.take(i as int)),
        decreases n - i,
    {
        let (key, value) = o.entry(i);
        proof {
            lemma_commas_next(texts, i as int);
        }
        if i > 0 {
            out.append(",");
        }
        let q = quote(key);
        out.append(q.as_str());
        out.append(":");
        push_json(value, out);
        assert(texts[i as int] == member_text(key@, json_text(value@)));
        assert(out@ =~= old(out)@ + commas(texts.take(i + 1)));
        i += 1;
    }
    assert(texts.take(i as int) =~= texts);
}

impl Json {
    /// The value as JSON text.
    pub fn to_text(&self) -> (r: String)
        ensures
            r@ == json_text(self@),
    {
        let mut out = String::new();
        push_json(self, &mut out);
        assert(out@ =~= json_text(self@));
        out
    }
}

} // verus!
