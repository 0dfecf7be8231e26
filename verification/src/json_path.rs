//! Members of JSON values, read by their keys: absent and null are told apart.
use crate::json::{JsonView, NumberView};
use vstd::prelude::*;

verus! {

/// The member of a value under a key, if it is an object that has one.
pub open spec fn member(v: JsonView, key: Seq<char>) -> Option<JsonView> {
    match v {
        JsonView::Object(m) => if m.dom().contains(key) {
            Some(m[key])
        } else {
            None
        },
        _ => None,
    }
}

/// The member of a member.
pub open spec fn under(v: JsonView, outer: Seq<char>, key: Seq<char>) -> Option<JsonView> {
    match member(v, outer) {
        Some(x) => member(x, key),
        None => None,
    }
}

/// The member of a value that may be missing.
pub open spec fn below(o: Option<JsonView>, key: Seq<char>) -> Option<JsonView> {
    match o {
        Some(v) => member(v, key),
        None => None,
    }
}

/// A value that may be missing, or null.
pub open spec fn value_or_null(o: Option<JsonView>) -> JsonView {
    match o {
        Some(v) => v,
        None => JsonView::Null,
    }
}

/// An unsigned integer.
pub open spec fn unsigned(n: u64) -> JsonView {
    JsonView::Number(NumberView::PosInt(n))
}

/// A knob that is a number, if it is set.
pub open spec fn number_if(o: Option<u32>) -> Option<JsonView> {
    match o {
        Some(n) => Some(unsigned(n as u64)),
        None => None,
    }
}

/// A knob that is a wide number, if it is set.
pub open spec fn wide_if(o: Option<u64>) -> Option<JsonView> {
    match o {
        Some(n) => Some(unsigned(n)),
        None => None,
    }
}

/// A text, if it is set.
pub open spec fn text_in(o: Option<String>) -> Option<Seq<char>> {
    match o {
        Some(s) => Some(s@),
        None => None,
    }
}

/// A knob that is a text, if it is set.
pub open spec fn text_if(o: Option<String>) -> Option<JsonView> {
    match o {
        Some(s) => Some(JsonView::Text(s@)),
        None => None,
    }
}

/// A knob that is a truth value, if it is set.
pub open spec fn bool_if(o: Option<bool>) -> Option<JsonView> {
    match o {
        Some(b) => Some(JsonView::Bool(b)),
        None => None,
    }
}

} // verus!
