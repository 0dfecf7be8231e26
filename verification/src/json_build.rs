//! Building JSON objects.
use crate::json::{Json, JsonNumber, JsonObject, JsonView, NumberView};
use vstd::prelude::*;
use vstd::string::*;

verus! {

/// The members of a JSON object.
pub type Members = Map<Seq<char>, JsonView>;

/// An unsigned integer as a JSON value.
pub open spec fn number(n: u64) -> JsonView {
    JsonView::Number(NumberView::PosInt(n))
}

/// Members with one more, if it is set.
pub open spec fn put(m: Members, key: Seq<char>, value: Option<JsonView>) -> Members {
    match value {
        Some(v) => m.insert(key, v),
        None => m,
    }
}

/// A text knob as an optional JSON value.
pub open spec fn text_knob(o: Option<Seq<char>>) -> Option<JsonView> {
    match o {
        Some(s) => Some(JsonView::Text(s)),
        None => None,
    }
}

/// An object's members as an optional JSON value: nothing where there are none.
pub open spec fn object_knob(m: Members) -> Option<JsonView> {
    if m.dom() =~= Set::<Seq<char>>::empty() {
        None
    } else {
        Some(JsonView::Object(m))
    }
}

pub(crate) fn text_json(s: &str) -> (r: Json)
    ensures
        r@ == JsonView::Text(s@),
{
    Json::Text(s.to_owned())
}

pub(crate) fn number_json(n: u64) -> (r: Json)
    ensures
        r@ == number(n),
{
    Json::Number(JsonNumber::PosInt(n))
}

pub(crate) fn put_json(o: &mut JsonObject, key: &str, value: Json)
    ensures
        final(o)@ == old(o)@.insert(key@, value@),
{
    o.insert(key.to_owned(), value);
}

/// The model of an optional JSON value.
pub open spec fn optional_view(o: Option<Json>) -> Option<JsonView> {
    match o {
        Some(j) => Some(j@),
        None => None,
    }
}

/// An object, unless it has no members.
pub(crate) fn nonempty(members: JsonObject) -> (r: Option<Json>)
    ensures
        optional_view(r) == object_knob(members@),
{
    if members.len() == 0 {
        proof {
            assert forall|k: Seq<char>| !members@.dom().contains(k) by {
                assert(!members.keys().contains(k));
            }
        }
        None
    } else {
        proof {
            assert(members.keys().contains(members.keys()[0]));
        }
        Some(Json::Object(members))
    }
}

pub(crate) fn put_object(o: &mut JsonObject, key: &str, members: JsonObject)
    ensures
        final(o)@ == put(old(o)@, key@, object_knob(members@)),
{
    match nonempty(members) {
        Some(j) => put_json(o, key, j),
        None => {},
    }
}

/// An object with one member.
pub open spec fn single(key: Seq<char>, value: JsonView) -> JsonView {
    JsonView::Object(Map::empty().insert(key, value))
}

pub(crate) fn single_json(key: &str, value: Json) -> (r: Json)
    ensures
        r@ == single(key@, value@),
{
    let mut o = JsonObject::new();
    put_json(&mut o, key, value);
    Json::Object(o)
}

} // verus!
