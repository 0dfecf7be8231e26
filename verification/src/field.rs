//! What the mapping of a live field says.
use crate::json::{at, text_of, Json, JsonView};
use crate::text::slice_text;
use vstd::prelude::*;

verus! {

/// The `space_type` that a live field reports: at its top level, or else inside its `method`. The
/// place depends on where it was written and on the server's version; both mean the same.
pub open spec fn space_of(field: JsonView) -> Option<Seq<char>> {
    match text_of(at(field, "space_type"@)) {
        Some(s) => Some(s),
        None => text_of(at(at(field, "method"@), "space_type"@)),
    }
}

/// Reads the `space_type` of a live field.
pub fn reported_space(field: &Json) -> (r: Option<&str>)
    ensures
        slice_text(r) == space_of(field@),
{
    match field.index("space_type").as_str() {
        Some(s) => Some(s),
        None => field.index("method").index("space_type").as_str(),
    }
}

/// The field mappings in the response to a mapping request for an index.
pub open spec fn properties_of(body: JsonView, index: Seq<char>) -> JsonView {
    at(at(at(body, index), "mappings"@), "properties"@)
}

/// Reads the field mappings out of the response to a mapping request.
pub fn mapped_properties<'a>(body: &'a Json, index: &str) -> (r: &'a Json)
    ensures
        r@ == properties_of(body@, index@),
{
    body.index(index).index("mappings").index("properties")
}

} // verus!
