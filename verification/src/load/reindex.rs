//! Changes of an index in place, and the guard before them.
use crate::connection::label;
use crate::field::{reported_space, space_of};
use crate::json::{at, Json, JsonView};
use crate::json_text::json_text;
use crate::load::config::{CollectionSchema, MethodConfig, OpenSearchParams, VectorSpec};
use crate::load::convert::{parse_space_type, space_type};
use crate::load::error::{config_err, config_error_text, unit_result, StoreError, StoreErrorView};
use crate::load::fixed::{difference, find_difference, method_matches, satisfies};
use crate::load::mapping::{build_update_settings, method_json, method_object, update_settings};
use crate::load::settings::{lookup_setting, setting, setting_as_u64, setting_number};
use crate::load::store::OpenSearchStore;
use crate::named::Named;
use crate::text::{
    around, around_three, around_two, as_slice, decimal, decimal_text, option_text, or_empty,
    same_text,
};
use vstd::prelude::*;
use vstd::string::*;

verus! {

/// The error of a change that cannot be made in place.
pub open spec fn immutable(
    knob: Seq<char>,
    place: Seq<char>,
    got: Seq<char>,
    want: Seq<char>,
) -> StoreErrorView {
    StoreErrorView::Other(
        "reindex: opensearch cannot change `"@ + knob + "` in place on "@ + place + " ("@ + got
            + " → "@ + want + "); that needs a new index + a reload"@,
    )
}

fn immutable_err(knob: &str, place: &str, got: &str, want: &str) -> (r: StoreError)
    ensures
        r@ == immutable(knob@, place@, got@, want@),
{
    let mut m = around_two(
        "reindex: opensearch cannot change `",
        knob,
        "` in place on ",
        place,
        " (",
    );
    m.append(got);
    m.append(" → ");
    m.append(want);
    m.append("); that needs a new index + a reload");
    StoreError::Other(m)
}

/// Whether a field has the requested method, if one is configured.
pub open spec fn same_method_check(
    method: Option<MethodConfig>,
    name: Seq<char>,
    got: JsonView,
) -> Result<(), StoreErrorView> {
    match method {
        None => Ok(()),
        Some(m) => match method_object(m) {
            Err(e) => Err(StoreErrorView::Other(config_error_text(e))),
            Ok(want) => if satisfies(want, at(got, "method"@)) {
                Ok(())
            } else {
                Err(
                    StoreErrorView::Other(
                        "reindex: opensearch cannot change the ANN `method` in place on `"@ + name
                            + "` (live "@ + json_text(at(got, "method"@)) + ", requested "@
                            + json_text(want)
                            + "); every method field is immutable after index creation, so this needs a new index + a reload. Sweep it on a fresh-load axis, not an in-place one."@,
                    ),
                )
            },
        },
    }
}

/// Whether a field has the requested dimension, datatype, mode and compression level, each as far
/// as it is configured.
pub open spec fn same_attributes_check(
    params: OpenSearchParams,
    name: Seq<char>,
    spec_: VectorSpec,
    got: JsonView,
) -> Result<(), StoreErrorView> {
    match difference(name, spec_, params, got) {
        Err(e) => Err(StoreErrorView::Other(config_error_text(e))),
        Ok(Some(d)) => Err(immutable(d.knob, "`"@ + name + "`"@, d.got, d.want)),
        Ok(None) => Ok(()),
    }
}

/// Whether the index has the requested number of shards, if one is configured.
pub open spec fn same_shards_check(
    index: Seq<char>,
    shards: Option<u32>,
    settings: JsonView,
) -> Result<(), StoreErrorView> {
    let got = setting(settings, "number_of_shards"@);
    match shards {
        Some(n) if setting_number(got) != Some(n as u64) => Err(
            immutable("number_of_shards"@, label(index), json_text(got), decimal(n as nat)),
        ),
        _ => Ok(()),
    }
}

/// Whether a field can stay as it is under the requested configuration: nothing that is fixed at
/// creation may differ.
pub open spec fn unchanged_check(
    index: Seq<char>,
    params: OpenSearchParams,
    name: Seq<char>,
    spec_: VectorSpec,
    got: JsonView,
) -> Result<(), StoreErrorView> {
    if got is Null {
        Err(
            StoreErrorView::Other(
                "reindex: field `"@ + name + "` not found in the mapping on "@ + label(index),
            ),
        )
    } else {
        match space_type(name, option_text(spec_.distance)) {
            Err(e) => Err(StoreErrorView::Other(config_error_text(e))),
            Ok(space) => {
                let got_space = or_empty(space_of(got));
                if got_space != space {
                    Err(immutable("space_type"@, "`"@ + name + "`"@, got_space, space))
                } else {
                    match same_method_check(params.method, name, got) {
                        Err(e) => Err(e),
                        Ok(()) => same_attributes_check(params, name, spec_, got),
                    }
                }
            },
        }
    }
}

/// Whether all fields can stay as they are; the first fault ends it.
pub open spec fn guard(
    index: Seq<char>,
    params: OpenSearchParams,
    vectors: Seq<(String, VectorSpec)>,
    props: JsonView,
) -> Result<(), StoreErrorView>
    decreases vectors.len(),
{
    if vectors.len() == 0 {
        Ok(())
    } else {
        match guard(index, params, vectors.drop_last(), props) {
            Err(e) => Err(e),
            Ok(()) => {
                let last = vectors.last();
                unchanged_check(index, params, last.0@, last.1, at(props, last.0@))
            },
        }
    }
}

/// A fault in the first vectors is the fault of all.
proof fn lemma_guard_fault(
    index: Seq<char>,
    params: OpenSearchParams,
    vectors: Seq<(String, VectorSpec)>,
    props: JsonView,
    n: int,
)
    requires
        0 <= n <= vectors.len(),
        guard(index, params, vectors.take(n), props) is Err,
    ensures
        guard(index, params, vectors, props) == guard(index, params, vectors.take(n), props),
    decreases vectors.len() - n,
{
    if n == vectors.len() {
        assert(vectors.take(n) =~= vectors);
    } else {
        assert(vectors.take(n + 1).drop_last() =~= vectors.take(n));
        lemma_guard_fault(index, params, vectors, props, n + 1);
    }
}

/// The settings to change in place: the dynamic ones that are set, once neither the fields nor the
/// shards stand against it.
pub open spec fn reindexed(
    index: Seq<char>,
    params: OpenSearchParams,
    vectors: Seq<(String, VectorSpec)>,
    props: JsonView,
    settings: JsonView,
) -> Result<Option<JsonView>, StoreErrorView> {
    match guard(index, params, vectors, props) {
        Err(e) => Err(e),
        Ok(()) => match same_shards_check(index, params.shards, settings) {
            Err(e) => Err(e),
            Ok(()) => Ok(update_settings(params)),
        },
    }
}

/// The outcome of a change in place.
pub open spec fn reindex_result(r: Result<Option<Json>, StoreError>) -> Result<
    Option<JsonView>,
    StoreErrorView,
> {
    match r {
        Ok(Some(body)) => Ok(Some(body@)),
        Ok(None) => Ok(None),
        Err(e) => Err(e@),
    }
}

impl OpenSearchStore {
    fn check_unchanged(&self, name: &str, spec_: &VectorSpec, got: &Json) -> (r: Result<
        (),
        StoreError,
    >)
        ensures
            unit_result(r) == unchanged_check(
                self.index_name@,
                self.params,
                name@,
                *spec_,
                got@,
            ),
    {
        if got.is_null() {
            let l = self.label();
            let mut m = around("reindex: field `", name, "` not found in the mapping on ");
            m.append(l.as_str());
            return Err(StoreError::Other(m));
        }
        let want = match parse_space_type(name, as_slice(&spec_.distance)) {
            Ok(space) => space,
            Err(e) => return Err(config_err(&e)),
        };
        let got_space = match reported_space(got) {
            Some(s) => s,
            None => "",
        };
        if !same_text(got_space, want) {
            let place = around("`", name, "`");
            return Err(immutable_err("space_type", place.as_str(), got_space, want));
        }
        match self.check_method(name, got) {
            Ok(()) => {},
            Err(e) => return Err(e),
        }
        match find_difference(name, spec_, &self.params, got) {
            Ok(None) => Ok(()),
            Ok(Some(d)) => {
                let place = around("`", name, "`");
                Err(immutable_err(d.knob, place.as_str(), d.got.as_str(), d.want.as_str()))
            },
            Err(e) => Err(config_err(&e)),
        }
    }

    fn check_method(&self, name: &str, got: &Json) -> (r: Result<(), StoreError>)
        ensures
            unit_result(r) == same_method_check(self.params.method, name@, got@),
    {
        match &self.params.method {
            None => Ok(()),
            Some(method) => {
                let want = match method_json(method) {
                    Ok(j) => j,
                    Err(e) => return Err(config_err(&e)),
                };
                let live = got.index("method");
                if method_matches(&want, live) {
                    Ok(())
                } else {
                    let live_text = live.to_text();
                    let want_text = want.to_text();
                    Err(
                        StoreError::Other(
                            around_three(
                                "reindex: opensearch cannot change the ANN `method` in place on `",
                                name,
                                "` (live ",
                                live_text.as_str(),
                                ", requested ",
                                want_text.as_str(),
                                "); every method field is immutable after index creation, so this needs a new index + a reload. Sweep it on a fresh-load axis, not an in-place one.",
                            ),
                        ),
                    )
                }
            },
        }
    }

    fn check_shards(&self, settings: &Json) -> (r: Result<(), StoreError>)
        ensures
            unit_result(r) == same_shards_check(
                self.index_name@,
                self.params.shards,
                settings@,
            ),
    {
        match self.params.shards {
            None => Ok(()),
            Some(n) => {
                let got = lookup_setting(settings, "number_of_shards");
                let same = match setting_as_u64(got) {
                    Some(live) => live == n as u64,
                    None => false,
                };
                if same {
                    Ok(())
                } else {
                    let place = self.label();
                    let live = got.to_text();
                    let want = decimal_text(n as u64);
                    Err(
                        immutable_err(
                            "number_of_shards",
                            place.as_str(),
                            live.as_str(),
                            want.as_str(),
                        ),
                    )
                }
            },
        }
    }

    fn check_guard(&self, vectors: &Named<VectorSpec>, props: &Json) -> (r: Result<
        (),
        StoreError,
    >)
        ensures
            unit_result(r) == guard(self.index_name@, self.params, vectors@, props@),
    {
        let mut i: usize = 0;
        while i < vectors.len()
            invariant
                i <= vectors@.len(),
                guard(self.index_name@, self.params, vectors@.take(i as int), props@) is Ok,
            decreases vectors@.len() - i,
        {
            let entry = vectors.entry(i);
            let got = props.index(entry.0);
            assert(vectors@.take(i + 1).drop_last() =~= vectors@.take(i as int));
            match self.check_unchanged(entry.0, entry.1, got) {
                Ok(()) => {},
                Err(e) => {
                    proof {
                        lemma_guard_fault(
                            self.index_name@,
                            self.params,
                            vectors@,
                            props@,
                            i + 1,
                        );
                    }
                    return Err(e);
                },
            }
            i += 1;
        }
        assert(vectors@.take(i as int) =~= vectors@);
        Ok(())
    }

    /// Whether a change in place looks at the live settings.
    pub fn reindex_reads_settings(&self) -> (r: bool)
        ensures
            r == (self.params.shards is Some),
    {
        self.params.shards.is_some()
    }

    /// Changes what can be changed in place, given the live field mappings and the live settings:
    /// the result is the settings to put, if any. The live settings are looked at only where a
    /// number of shards is configured. A configuration that asks to change what is
    /// fixed at creation is refused, rather than reported as done while nothing changes. The
    /// vectors of the schema become the expected ones only where the change is not refused.
    pub fn reindex(&mut self, schema: CollectionSchema, live: &Json, settings: &Json) -> (r: Result<
        Option<Json>,
        StoreError,
    >)
        ensures
            reindex_result(r) == reindexed(
                old(self).index_name@,
                old(self).params,
                schema.vectors@,
                live@,
                settings@,
            ),
            r is Ok ==> final(self).expected_vectors@ == schema.vectors@,
            r is Err ==> final(self).expected_vectors@ == old(self).expected_vectors@,
            final(self).index_name == old(self).index_name,
            final(self).params == old(self).params,
    {
        match self.check_guard(&schema.vectors, live) {
            Ok(()) => {},
            Err(e) => return Err(e),
        }
        match self.check_shards(settings) {
            Ok(()) => {},
            Err(e) => return Err(e),
        }
        self.expected_vectors = schema.vectors;
        Ok(build_update_settings(&self.params))
    }
}

} // verus!
