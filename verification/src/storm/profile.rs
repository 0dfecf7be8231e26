//! How a live index scores.
use crate::connection::{is_success, success};
use crate::field::{mapped_properties, properties_of, reported_space, space_of};
use crate::json::{at, text_of, Json, JsonView};
use crate::storm::target::OpenSearchTarget;
use crate::text::{option_text, same_text, slice_text};
use vstd::prelude::*;
use vstd::string::*;

verus! {

/// The distance of a `space_type`. An unknown space has none: it must not read as one in which
/// larger is better.
pub open spec fn distance_of(space: Seq<char>) -> Option<Seq<char>> {
    if space == "cosinesimil"@ {
        Some("cosine"@)
    } else if space == "innerproduct"@ {
        Some("dot"@)
    } else if space == "l2"@ {
        Some("euclid"@)
    } else if space == "l1"@ {
        Some("manhattan"@)
    } else {
        None
    }
}

/// The distance of a `space_type`. In every space that has one, a higher score is better.
pub fn distance_for_space(space: &str) -> (r: Option<&'static str>)
    ensures
        slice_text(r) == distance_of(space@),
{
    if same_text(space, "cosinesimil") {
        Some("cosine")
    } else if same_text(space, "innerproduct") {
        Some("dot")
    } else if same_text(space, "l2") {
        Some("euclid")
    } else if same_text(space, "l1") {
        Some("manhattan")
    } else {
        None
    }
}

/// The datatype of a `data_type`. A field without one holds 32-bit floats; what is not known
/// takes a tolerance of its own.
pub open spec fn datatype_of(data_type: Option<Seq<char>>) -> Seq<char> {
    match data_type {
        None => "float32"@,
        Some(t) => if t == "float"@ {
            "float32"@
        } else if t == "byte"@ {
            "uint8"@
        } else {
            "unknown"@
        },
    }
}

/// The datatype of a `data_type`, which selects the tolerance for ties of scores.
pub fn datatype_for_data_type(data_type: Option<&str>) -> (r: &'static str)
    ensures
        r@ == datatype_of(slice_text(data_type)),
{
    match data_type {
        None => "float32",
        Some(t) => if same_text(t, "float") {
            "float32"
        } else if same_text(t, "byte") {
            "uint8"
        } else {
            "unknown"
        },
    }
}

/// How an index scores, as far as it is known.
#[derive(Debug)]
pub struct ScoringProfile {
    pub distance: Option<String>,
    pub datatype: Option<String>,
    pub quantized: bool,
}

/// The model of a `ScoringProfile`.
pub struct ProfileView {
    pub distance: Option<Seq<char>>,
    pub datatype: Option<Seq<char>>,
    pub quantized: bool,
}

impl View for ScoringProfile {
    type V = ProfileView;

    open spec fn view(&self) -> ProfileView {
        ProfileView {
            distance: option_text(self.distance),
            datatype: option_text(self.datatype),
            quantized: self.quantized,
        }
    }
}

/// A profile of which nothing is known.
pub open spec fn unknown_profile() -> ProfileView {
    ProfileView { distance: None, datatype: None, quantized: false }
}

/// The reply to a mapping request: its body, if it could be read.
pub struct MappingReply {
    pub status: u16,
    pub body: Option<Json>,
}

/// Whether a field is quantized: by an encoder other than `flat`, or by a compression level.
pub open spec fn is_quantized(field: JsonView) -> bool {
    let encoder = text_of(
        at(at(at(at(field, "method"@), "parameters"@), "encoder"@), "name"@),
    );
    let level = text_of(at(field, "compression_level"@));
    ||| encoder == Some("sq"@)
    ||| encoder == Some("pq"@)
    ||| (level is Some && level != Some("1x"@))
}

/// The profile of a live field.
pub open spec fn field_profile(field: JsonView) -> ProfileView {
    if field is Null {
        unknown_profile()
    } else {
        ProfileView {
            distance: match space_of(field) {
                Some(space) => distance_of(space),
                None => None,
            },
            datatype: Some(datatype_of(text_of(at(field, "data_type"@)))),
            quantized: is_quantized(field),
        }
    }
}

/// The profile that the reply to a mapping request gives; unknown where there is no reply, the
/// request was refused, or the reply could not be read.
pub open spec fn profile_of(
    index: Seq<char>,
    vector_field: Seq<char>,
    reply: Option<MappingReply>,
) -> ProfileView {
    match reply {
        Some(MappingReply { status, body: Some(body) }) if success(status) => field_profile(
            at(properties_of(body@, index), vector_field),
        ),
        _ => unknown_profile(),
    }
}

fn is_named(name: Option<&str>, text: &str) -> (r: bool)
    ensures
        r == (slice_text(name) == Some(text@)),
{
    match name {
        Some(n) => same_text(n, text),
        None => false,
    }
}

fn quantized(field: &Json) -> (r: bool)
    ensures
        r == is_quantized(field@),
{
    let encoder = field.index("method").index("parameters").index("encoder").index("name").as_str();
    let level = field.index("compression_level").as_str();
    is_named(encoder, "sq") || is_named(encoder, "pq") || (level.is_some() && !is_named(
        level,
        "1x",
    ))
}

fn owned(text: Option<&'static str>) -> (r: Option<String>)
    ensures
        option_text(r) == slice_text(text),
{
    match text {
        Some(t) => Some(t.to_owned()),
        None => None,
    }
}

impl OpenSearchTarget {
    /// Reads how the index scores from the reply to a mapping request: all from one reply, so
    /// that the answers belong together.
    pub fn scoring_profile(&self, reply: &Option<MappingReply>) -> (r: ScoringProfile)
        ensures
            r@ == profile_of(self.index_name@, self.vector_field@, *reply),
    {
        let unknown = ScoringProfile { distance: None, datatype: None, quantized: false };
        let body = match reply {
            Some(reply) => if is_success(reply.status) {
                match &reply.body {
                    Some(body) => body,
                    None => return unknown,
                }
            } else {
                return unknown;
            },
            None => return unknown,
        };
        let field = mapped_properties(body, self.index_name.as_str()).index(
            self.vector_field.as_str(),
        );
        if field.is_null() {
            return unknown;
        }
        let distance = match reported_space(field) {
            Some(space) => owned(distance_for_space(space)),
            None => None,
        };
        let datatype = datatype_for_data_type(field.index("data_type").as_str());
        ScoringProfile {
            distance,
            datatype: Some(datatype.to_owned()),
            quantized: quantized(field),
        }
    }
}

} // verus!
