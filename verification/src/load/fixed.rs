//! What is fixed when an index is created: whether a live field still has it as configured.
use crate::json::{at, key_order, same_json, text_of, unsigned_of, Json, JsonObject, JsonView};
use crate::json_build::Members;
use crate::json_text::json_text;
use crate::load::config::{EncoderConfig, MethodConfig, OpenSearchParams, VectorSpec};
use crate::load::convert::{
    compression, data_type, encoder_name, method_name, parse_compression_level, parse_data_type,
    parse_encoder_name, parse_method_name, parse_mode, workload_mode,
};
use crate::load::error::{ConfigErrorView, OpenSearchConfigError};
use crate::load::mapping::{
    encoder_knobs, encoder_parameters, field_mode, method_knobs, number_knobs, select_mode,
};
use crate::text::{as_slice, decimal, decimal_text, option_text, or_empty, same_text, slice_text};
use vstd::prelude::*;
use vstd::string::*;

verus! {

/// Every requested member is there with its value. Others may be there: the server fills in its
/// defaults.
pub open spec fn covers(want: Members, got: JsonView) -> bool {
    forall|k: Seq<char>| #[trigger]
        want.dom().contains(k) ==> {
            &&& got is Object
            &&& got->Object_0.dom().contains(k)
            &&& same_json(got->Object_0[k], want[k])
        }
}

fn has_member(got: &Json, key: &str, value: &Json) -> (r: bool)
    ensures
        r == {
            &&& got@ is Object
            &&& got@->Object_0.dom().contains(key@)
            &&& same_json(got@->Object_0[key@], value@)
        },
{
    match got {
        Json::Object(o) => match o.get(key) {
            Some(v) => v.same(value),
            None => false,
        },
        _ => false,
    }
}

fn has_members(want: &JsonObject, got: &Json) -> (r: bool)
    ensures
        r == covers(want@, got@),
{
    let n: usize = want.len();
    let mut i: usize = 0;
    while i < n
        invariant
            i <= n,
            n == want.keys().len(),
            key_order(want.keys(), want@.dom()),
            forall|j: int|
                0 <= j < i ==> {
                    &&& got@ is Object
                    &&& got@->Object_0.dom().contains(#[trigger] want.keys()[j])
                    &&& same_json(got@->Object_0[want.keys()[j]], want@[want.keys()[j]])
                },
        decreases n - i,
    {
        let (key, value) = want.entry(i);
        if !has_member(got, key, value) {
            assert(want@.dom().contains(key@));
            return false;
        }
        i += 1;
    }
    proof {
        assert forall|k: Seq<char>| #[trigger] want@.dom().contains(k) implies {
            &&& got@ is Object
            &&& got@->Object_0.dom().contains(k)
            &&& same_json(got@->Object_0[k], want@[k])
        } by {
            assert(want.keys().contains(k));
            let j = want.keys().index_of(k);
            assert(want.keys()[j] == k);
        }
    }
    true
}

/// Whether a live `method` satisfies the requested one: the same name and engine, and every
/// requested parameter with its value.
pub open spec fn satisfies(want: JsonView, got: JsonView) -> bool {
    &&& !(got is Null)
    &&& same_json(at(want, "name"@), at(got, "name"@))
    &&& same_json(at(want, "engine"@), at(got, "engine"@))
    &&& at(want, "parameters"@) matches JsonView::Object(w) ==> covers(w, at(got, "parameters"@))
}

/// Whether a live `method` satisfies the requested one.
pub fn method_matches(want: &Json, got: &Json) -> (r: bool)
    ensures
        r == satisfies(want@, got@),
{
    if got.is_null() {
        return false;
    }
    if !want.index("name").same(got.index("name")) || !want.index("engine").same(
        got.index("engine"),
    ) {
        return false;
    }
    match want.index("parameters") {
        Json::Object(params) => has_members(params, got.index("parameters")),
        _ => true,
    }
}

/// Whether a live encoder has the configured name and every knob that is set.
pub open spec fn reports_encoder(enc: EncoderConfig, live: JsonView) -> bool {
    &&& encoder_name(enc.name@) matches Ok(name) && text_of(at(live, "name"@)) == Some(name)
    &&& covers(encoder_parameters(enc), at(live, "parameters"@))
}

/// Whether a live `method` has what is set of the configured one: the name, every number knob, and
/// of the encoder its name and every knob. What is not set is not looked at.
pub open spec fn reports(method: MethodConfig, live: JsonView) -> bool {
    let parameters = at(live, "parameters"@);
    &&& method.name is Some ==> (method_name(option_text(method.name)) matches Ok(name) && text_of(
        at(live, "name"@),
    ) == Some(name))
    &&& covers(method_knobs(method), parameters)
    &&& method.encoder matches Some(enc) ==> reports_encoder(enc, at(parameters, "encoder"@))
}

fn is_text(got: &Json, want: &str) -> (r: bool)
    ensures
        r == (text_of(got@) == Some(want@)),
{
    match got.as_str() {
        Some(s) => same_text(s, want),
        None => false,
    }
}

fn encoder_reported(enc: &EncoderConfig, live: &Json) -> (r: bool)
    ensures
        r == reports_encoder(*enc, live@),
{
    match parse_encoder_name(enc.name.as_str()) {
        Ok(name) => is_text(live.index("name"), name) && has_members(
            &encoder_knobs(enc),
            live.index("parameters"),
        ),
        Err(_) => false,
    }
}

/// Whether a live `method` has what is set of the configured one.
pub fn method_reported(method: &MethodConfig, live: &Json) -> (r: bool)
    ensures
        r == reports(*method, live@),
{
    if method.name.is_some() {
        let named = match parse_method_name(as_slice(&method.name)) {
            Ok(name) => is_text(live.index("name"), name),
            Err(_) => false,
        };
        if !named {
            return false;
        }
    }
    let parameters = live.index("parameters");
    if !has_members(&number_knobs(method), parameters) {
        return false;
    }
    match &method.encoder {
        Some(enc) => encoder_reported(enc, parameters.index("encoder")),
        None => true,
    }
}

/// An attribute of a live field that is not as configured.
#[derive(Debug)]
pub struct Difference {
    pub knob: &'static str,
    pub want: String,
    pub got: String,
}

/// The model of a `Difference`.
pub struct DifferenceView {
    pub knob: Seq<char>,
    pub want: Seq<char>,
    pub got: Seq<char>,
}

impl View for Difference {
    type V = DifferenceView;

    open spec fn view(&self) -> DifferenceView {
        DifferenceView { knob: self.knob@, want: self.want@, got: self.got@ }
    }
}

/// The model of an optional `Difference`.
pub open spec fn optional_difference(o: Option<Difference>) -> Option<DifferenceView> {
    match o {
        Some(d) => Some(d@),
        None => None,
    }
}

/// How a text attribute differs from the configured one; where none is configured it does not.
pub open spec fn text_difference(
    knob: Seq<char>,
    want: Option<Seq<char>>,
    got: Option<Seq<char>>,
) -> Option<DifferenceView> {
    match want {
        Some(w) if got != Some(w) => Some(DifferenceView { knob, want: w, got: or_empty(got) }),
        _ => None,
    }
}

/// How a dimension differs from the configured one; where none is configured it does not.
pub open spec fn dimension_difference(want: Option<u64>, got: JsonView) -> Option<DifferenceView> {
    match want {
        Some(n) if unsigned_of(got) != Some(n) => Some(
            DifferenceView { knob: "dimension"@, want: decimal(n as nat), got: json_text(got) },
        ),
        _ => None,
    }
}

/// The `data_type` of a live field: a field without one has the server's default, `float`.
pub open spec fn live_data_type(field: JsonView) -> Option<Seq<char>> {
    if at(field, "data_type"@) is Null {
        Some("float"@)
    } else {
        text_of(at(field, "data_type"@))
    }
}

/// The first of two differences.
pub open spec fn first_of(a: Option<DifferenceView>, b: Option<DifferenceView>) -> Option<
    DifferenceView,
> {
    match a {
        Some(d) => Some(d),
        None => b,
    }
}

/// The first attribute in which a live field differs from its configuration, of: dimension,
/// `data_type`, `mode`, `compression_level`. What is not configured is not looked at.
pub open spec fn difference(
    name: Seq<char>,
    spec_: VectorSpec,
    params: OpenSearchParams,
    field: JsonView,
) -> Result<Option<DifferenceView>, ConfigErrorView> {
    match (
        data_type(name, option_text(spec_.datatype)),
        workload_mode(option_text(params.mode)),
        compression(option_text(params.compression_level)),
    ) {
        (Err(e), _, _) => Err(e),
        (_, Err(e), _) => Err(e),
        (_, _, Err(e)) => Err(e),
        (Ok(data), Ok(mode), Ok(level)) => Ok(
            first_of(
                dimension_difference(spec_.size, at(field, "dimension"@)),
                first_of(
                    text_difference("data_type"@, data, live_data_type(field)),
                    first_of(
                        text_difference(
                            "mode"@,
                            field_mode(mode, spec_.on_disk),
                            text_of(at(field, "mode"@)),
                        ),
                        text_difference(
                            "compression_level"@,
                            level,
                            text_of(at(field, "compression_level"@)),
                        ),
                    ),
                ),
            ),
        ),
    }
}

/// The model of a search for a difference.
pub open spec fn difference_result(
    r: Result<Option<Difference>, OpenSearchConfigError>,
) -> Result<Option<DifferenceView>, ConfigErrorView> {
    match r {
        Ok(d) => Ok(optional_difference(d)),
        Err(e) => Err(e@),
    }
}

fn text_differs(knob: &'static str, want: Option<&str>, got: Option<&str>) -> (r: Option<
    Difference,
>)
    ensures
        optional_difference(r) == text_difference(knob@, slice_text(want), slice_text(got)),
{
    match want {
        None => None,
        Some(w) => match got {
            Some(g) => if same_text(g, w) {
                None
            } else {
                Some(Difference { knob, want: w.to_owned(), got: g.to_owned() })
            },
            None => Some(Difference { knob, want: w.to_owned(), got: "".to_owned() }),
        },
    }
}

fn dimension_differs(want: Option<u64>, got: &Json) -> (r: Option<Difference>)
    ensures
        optional_difference(r) == dimension_difference(want, got@),
{
    match want {
        None => None,
        Some(n) => {
            let same = match got.as_u64() {
                Some(d) => d == n,
                None => false,
            };
            if same {
                None
            } else {
                Some(
                    Difference { knob: "dimension", want: decimal_text(n), got: got.to_text() },
                )
            }
        },
    }
}

fn reported_data_type(field: &Json) -> (r: Option<&str>)
    ensures
        slice_text(r) == live_data_type(field@),
{
    let t = field.index("data_type");
    if t.is_null() {
        Some("float")
    } else {
        t.as_str()
    }
}

/// Looks for an attribute in which a live field differs from its configuration.
pub fn find_difference(
    name: &str,
    spec_: &VectorSpec,
    params: &OpenSearchParams,
    field: &Json,
) -> (r: Result<Option<Difference>, OpenSearchConfigError>)
    ensures
        difference_result(r) == difference(name@, *spec_, *params, field@),
{
    let data = match parse_data_type(name, as_slice(&spec_.datatype)) {
        Ok(t) => t,
        Err(e) => return Err(e),
    };
    let mode = match parse_mode(as_slice(&params.mode)) {
        Ok(m) => select_mode(m, spec_.on_disk),
        Err(e) => return Err(e),
    };
    let level = match parse_compression_level(as_slice(&params.compression_level)) {
        Ok(l) => l,
        Err(e) => return Err(e),
    };
    match dimension_differs(spec_.size, field.index("dimension")) {
        Some(d) => return Ok(Some(d)),
        None => {},
    }
    match text_differs("data_type", data, reported_data_type(field)) {
        Some(d) => return Ok(Some(d)),
        None => {},
    }
    match text_differs("mode", mode, field.index("mode").as_str()) {
        Some(d) => return Ok(Some(d)),
        None => {},
    }
    Ok(text_differs("compression_level", level, field.index("compression_level").as_str()))
}

} // verus!
