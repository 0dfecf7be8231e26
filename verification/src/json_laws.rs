//! What holds of JSON values: how they are read, when they are equal, and how they are written.
use crate::json::{
    array_of, at, bool_of, key_order, lemma_key_order_unique, number_of, same_json, signed_of,
    text_of, unsigned_of, JsonView, NumberView,
};
use crate::json_build::Members;
use crate::json_path::{member, unsigned};
use crate::json_text::{
    commas, item_texts, json_quoted, json_text, lemma_ordered, member_text, member_texts, ordered,
};
use crate::text::{lemma_text_order, text_before};
use crate::text_laws::{law_numbers_are_written_in_decimal, writes};
use vstd::prelude::*;

verus! {

/// A value is read as what it is, and as nothing else: a member of an object under its key, null
/// where there is none; a text, a truth value, a number or an array only where it is one.
pub proof fn law_values_read_as_what_they_are(v: JsonView, key: Seq<char>)
    ensures
        at(v, key) == (match member(v, key) {
            Some(x) => x,
            None => JsonView::Null,
        }),
        text_of(v) is Some <==> v is Text,
        v matches JsonView::Text(s) ==> text_of(v) == Some(s),
        bool_of(v) is Some <==> v is Bool,
        v matches JsonView::Bool(b) ==> bool_of(v) == Some(b),
        number_of(v) is Some <==> v is Number,
        v matches JsonView::Number(n) ==> number_of(v) == Some(n),
        array_of(v) is Some <==> v is Array,
        v matches JsonView::Array(x) ==> array_of(v) == Some(x),
        unsigned_of(v) matches Some(n) ==> v == unsigned(n),
        v matches JsonView::Number(NumberView::PosInt(n)) ==> unsigned_of(v) == Some(n),
        signed_of(v) matches Some(n) ==> v == JsonView::Number(NumberView::NegInt(n)) || (0 <= n
            && v == unsigned(n as u64)),
        v matches JsonView::Number(NumberView::NegInt(n)) ==> signed_of(v) == Some(n),
        v matches JsonView::Number(NumberView::PosInt(n)) ==> (signed_of(v) is Some <==> n
            < 0x8000_0000_0000_0000),
{
}

/// Two values are equal exactly if they are of one kind and have equal parts: null, truth values,
/// texts and integers where they are the same; arrays item by item; objects member by member, with
/// the same keys.
pub proof fn law_when_values_are_equal(a: JsonView, b: JsonView)
    ensures
        a is Null ==> (same_json(a, b) <==> b is Null),
        a is Bool ==> (same_json(a, b) <==> b == a),
        a is Text ==> (same_json(a, b) <==> b == a),
        a matches JsonView::Number(NumberView::PosInt(_)) ==> (same_json(a, b) <==> b == a),
        a matches JsonView::Number(NumberView::NegInt(_)) ==> (same_json(a, b) <==> b == a),
        a matches JsonView::Number(NumberView::Float(x)) ==> (same_json(a, b) <==> (b matches
            JsonView::Number(NumberView::Float(y)) && (x == y || ((x == "0.0"@ || x == "-0.0"@) && (
        y == "0.0"@ || y == "-0.0"@))))),
        a matches JsonView::Array(x) ==> (same_json(a, b) <==> (b matches JsonView::Array(y) && x.len()
            == y.len() && forall|i: int| 0 <= i < x.len() ==> same_json(#[trigger] x[i], y[i]))),
        a matches JsonView::Object(x) ==> (same_json(a, b) <==> (b matches JsonView::Object(y) && {
            &&& forall|k: Seq<char>| #[trigger] x.dom().contains(k) <==> y.dom().contains(k)
            &&& forall|k: Seq<char>| #[trigger] x.dom().contains(k) ==> same_json(x[k], y[k])
        })),
{
    if a is Object && b is Object {
        let x = a->Object_0;
        let y = b->Object_0;
        if forall|k: Seq<char>| #[trigger] x.dom().contains(k) <==> y.dom().contains(k) {
            assert(x.dom() =~= y.dom());
        }
        if same_json(a, b) {
            assert forall|k: Seq<char>| #[trigger] x.dom().contains(k) implies same_json(
                x[k],
                y[k],
            ) by {}
        }
    }
}

/// The simple values are written as JSON writes them: null, truth values, integers in decimal with
/// a sign where they are negative, and texts as literals.
pub proof fn law_how_simple_values_are_written(u: u64, i: i64, s: Seq<char>)
    ensures
        json_text(JsonView::Null) == "null"@,
        json_text(JsonView::Bool(true)) == "true"@,
        json_text(JsonView::Bool(false)) == "false"@,
        writes(json_text(JsonView::Number(NumberView::PosInt(u))), u as nat),
        i < 0 ==> exists|t: Seq<char>| #[trigger]
            writes(t, (-i) as nat) && json_text(JsonView::Number(NumberView::NegInt(i))) == "-"@
                + t,
        json_text(JsonView::Number(NumberView::Float(s))) == s,
        json_text(JsonView::Text(s)) == json_quoted(s),
{
    law_numbers_are_written_in_decimal(u as nat);
    if i < 0 {
        law_numbers_are_written_in_decimal((-i) as nat);
    }
}

/// An array is written between brackets, its items in their order, each but the first behind a
/// comma.
pub proof fn law_how_arrays_are_written(items: Seq<JsonView>, x: JsonView, inner: Seq<char>)
    requires
        json_text(JsonView::Array(items)) == "["@ + inner + "]"@,
    ensures
        items.len() == 0 ==> inner.len() == 0,
        json_text(JsonView::Array(items.push(x))) == "["@ + (if items.len() == 0 {
            json_text(x)
        } else {
            inner + ","@ + json_text(x)
        }) + "]"@,
{
    let a = item_texts(JsonView::Array(items));
    let b = item_texts(JsonView::Array(items.push(x)));
    assert(b.drop_last() =~= a);
    assert(b.last() == json_text(x));
    lemma_between("["@, inner, commas(a), "]"@);
}

/// What stands between two texts is one text only.
proof fn lemma_between(before: Seq<char>, a: Seq<char>, b: Seq<char>, after: Seq<char>)
    requires
        before + a + after == before + b + after,
    ensures
        a == b,
{
    let x = before + a + after;
    let y = before + b + after;
    assert(x.len() == y.len());
    assert(a.len() == b.len());
    assert(x.subrange(before.len() as int, (before.len() + a.len()) as int) =~= a);
    assert(y.subrange(before.len() as int, (before.len() + b.len()) as int) =~= b);
}

/// An object is written between braces, its members in the order of their keys, each but the first
/// behind a comma: the quoted key, a colon and the value.
pub proof fn law_how_objects_are_written(m: Members, key: Seq<char>, v: JsonView, inner: Seq<char>)
    requires
        m.dom().finite(),
        json_text(JsonView::Object(m)) == "{"@ + inner + "}"@,
        forall|k: Seq<char>| #[trigger] m.dom().contains(k) ==> text_before(k, key),
    ensures
        m.dom().len() == 0 ==> inner.len() == 0,
        json_text(JsonView::Object(m.insert(key, v))) == "{"@ + (if m.dom().len() == 0 {
            json_quoted(key) + ":"@ + json_text(v)
        } else {
            inner + ","@ + (json_quoted(key) + ":"@ + json_text(v))
        }) + "}"@,
{
    let grown = m.insert(key, v);
    let keys = ordered(m.dom());
    let more = keys.push(key);
    lemma_ordered(m.dom());
    lemma_ordered(grown.dom());
    lemma_text_order();
    assert(key_order(more, grown.dom())) by {
        assert forall|i: int, j: int| 0 <= i < j < more.len() implies text_before(
            more[i],
            more[j],
        ) by {
            if j == keys.len() {
                assert(keys.contains(keys[i]));
            }
        }
        assert forall|k: Seq<char>| more.contains(k) <==> grown.dom().contains(k) by {
            if keys.contains(k) {
                assert(more[keys.index_of(k)] == k);
            }
            if k == key {
                assert(more[keys.len() as int] == k);
            }
            if more.contains(k) && k != key {
                assert(keys[more.index_of(k)] == k);
            }
        }
    }
    lemma_key_order_unique(more, ordered(grown.dom()), grown.dom());
    let a = member_texts(JsonView::Object(m));
    let b = member_texts(JsonView::Object(grown));
    assert(!m.dom().contains(key));
    assert(b.drop_last() =~= a) by {
        assert(b.drop_last().len() == a.len());
        assert forall|i: int| 0 <= i < a.len() implies b.drop_last()[i] == a[i] by {
            assert(keys.contains(keys[i]));
            assert(more[i] == keys[i]);
            assert(keys[i] != key);
        }
    }
    assert(grown.dom().contains(key));
    assert(b.last() == member_text(key, json_text(v)));
    if m.dom().len() == 0 {
        assert(m.dom() =~= Set::empty());
        if keys.len() > 0 {
            assert(keys.contains(keys[0]));
        }
    } else {
        let k = m.dom().choose();
        assert(m.dom().contains(k));
        assert(keys.contains(k));
    }
    lemma_between("{"@, inner, commas(a), "}"@);
}

} // verus!
