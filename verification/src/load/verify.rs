//! The check of a live index after a load.
use crate::connection::label;
use crate::field::{reported_space, space_of};
use crate::json::{at, text_of, unsigned_of, Json, JsonView};
use crate::json_text::json_text;
use crate::load::config::{MethodConfig, OpenSearchParams, VectorSpec};
use crate::load::convert::{engine_name, parse_engine, parse_space_type, space_type};
use crate::load::error::{config_err, config_error_text, unit_result, StoreError, StoreErrorView};
use crate::load::fixed::{difference, find_difference, method_reported, reports};
use crate::load::mapping::{method_json, method_object};
use crate::load::settings::{lookup_setting, setting, setting_as_u64, setting_number};
use crate::load::store::OpenSearchStore;
use crate::text::{
    around, around_three, as_slice, decimal, decimal_text, option_text, or_empty, same_text,
    slice_text,
};
use vstd::prelude::*;
use vstd::string::*;

verus! {

/// What a failed check of a store starts with.
pub open spec fn failed_on(index: Seq<char>) -> Seq<char> {
    "sanity check FAILED on "@ + label(index)
}

fn failed_prefix(store: &OpenSearchStore) -> (r: String)
    ensures
        r@ == failed_on(store.index_name@),
{
    let mut m = "sanity check FAILED on ".to_owned();
    let l = store.label();
    m.append(l.as_str());
    m
}

/// Whether a live number is the requested one; what was not requested is not looked at.
pub open spec fn knob_check(
    index: Seq<char>,
    field: Seq<char>,
    knob: Seq<char>,
    want: Option<u32>,
    got: JsonView,
) -> Result<(), StoreErrorView> {
    match want {
        Some(w) if unsigned_of(got) != Some(w as u64) => Err(
            StoreErrorView::Other(
                failed_on(index) + " field `"@ + field + "` "@ + knob + ": requested "@ + decimal(
                    w as nat,
                ) + " but the live mapping has "@ + json_text(got),
            ),
        ),
        _ => Ok(()),
    }
}

/// Compares a requested number with that of the live mapping.
pub fn check_u64_json(
    store: &OpenSearchStore,
    field: &str,
    knob: &str,
    want: Option<u32>,
    got: &Json,
) -> (r: Result<(), StoreError>)
    ensures
        unit_result(r) == knob_check(store.index_name@, field@, knob@, want, got@),
{
    match want {
        None => Ok(()),
        Some(w) => {
            let same = match got.as_u64() {
                Some(n) => n == w as u64,
                None => false,
            };
            if same {
                Ok(())
            } else {
                let prefix = failed_prefix(store);
                let number = decimal_text(w as u64);
                let live = got.to_text();
                let mut m = around_three(
                    prefix.as_str(),
                    " field `",
                    field,
                    "` ",
                    knob,
                    ": requested ",
                    number.as_str(),
                );
                m.append(" but the live mapping has ");
                m.append(live.as_str());
                Err(StoreError::Other(m))
            }
        },
    }
}

/// Whether a live setting is the requested one; what was not requested is not looked at.
pub open spec fn setting_check(
    index: Seq<char>,
    knob: Seq<char>,
    want: Option<u32>,
    got: JsonView,
) -> Result<(), StoreErrorView> {
    match want {
        Some(w) if setting_number(got) != Some(w as u64) => Err(
            StoreErrorView::Other(
                failed_on(index) + " "@ + knob + ": requested "@ + decimal(w as nat)
                    + " but the live index config has "@ + json_text(got),
            ),
        ),
        _ => Ok(()),
    }
}

/// Compares a requested number with a live setting.
pub fn check_u64_setting(store: &OpenSearchStore, knob: &str, want: Option<u32>, got: &Json) -> (r:
    Result<(), StoreError>)
    ensures
        unit_result(r) == setting_check(store.index_name@, knob@, want, got@),
{
    match want {
        None => Ok(()),
        Some(w) => {
            let same = match setting_as_u64(got) {
                Some(n) => n == w as u64,
                None => false,
            };
            if same {
                Ok(())
            } else {
                let prefix = failed_prefix(store);
                let number = decimal_text(w as u64);
                let live = got.to_text();
                Err(
                    StoreError::Other(
                        around_three(
                            prefix.as_str(),
                            " ",
                            knob,
                            ": requested ",
                            number.as_str(),
                            " but the live index config has ",
                            live.as_str(),
                        ),
                    ),
                )
            }
        },
    }
}

/// The error of a field whose live mapping differs from the requested one.
pub open spec fn field_mismatch(
    index: Seq<char>,
    field: Seq<char>,
    knob: Seq<char>,
    want: Seq<char>,
    got: Seq<char>,
) -> StoreErrorView {
    StoreErrorView::Other(
        failed_on(index) + " field `"@ + field + "`: requested "@ + knob + "="@ + want
            + " but the live mapping has "@ + got,
    )
}

fn mismatch(store: &OpenSearchStore, field: &str, knob: &str, want: &str, got: &str) -> (r:
    StoreError)
    ensures
        r@ == field_mismatch(store.index_name@, field@, knob@, want@, got@),
{
    let prefix = failed_prefix(store);
    let mut m = around_three(
        prefix.as_str(),
        " field `",
        field,
        "`: requested ",
        knob,
        "=",
        want,
    );
    m.append(" but the live mapping has ");
    m.append(got);
    StoreError::Other(m)
}

/// Whether a live field has the requested method: its engine, and its name, its knobs and those of
/// its encoder as far as they are set. What the server filled in is not looked at.
pub open spec fn method_check(
    index: Seq<char>,
    name: Seq<char>,
    method: MethodConfig,
    got: JsonView,
) -> Result<(), StoreErrorView> {
    let live = at(got, "method"@);
    let parameters = at(live, "parameters"@);
    match engine_name(option_text(method.engine)) {
        Err(e) => Err(StoreErrorView::Other(config_error_text(e))),
        Ok(engine) => {
            let got_engine = or_empty(text_of(at(live, "engine"@)));
            if got_engine != engine {
                Err(field_mismatch(index, name, "engine"@, engine, got_engine))
            } else {
                match knob_check(
                    index,
                    name,
                    "method.parameters.m"@,
                    method.m,
                    at(parameters, "m"@),
                ) {
                    Err(e) => Err(e),
                    Ok(()) => match knob_check(
                        index,
                        name,
                        "method.parameters.ef_construction"@,
                        method.ef_construction,
                        at(parameters, "ef_construction"@),
                    ) {
                        Err(e) => Err(e),
                        Ok(()) => match method_object(method) {
                            Err(e) => Err(StoreErrorView::Other(config_error_text(e))),
                            Ok(want) => if reports(method, live) {
                                Ok(())
                            } else {
                                Err(
                                    field_mismatch(
                                        index,
                                        name,
                                        "method"@,
                                        json_text(want),
                                        json_text(live),
                                    ),
                                )
                            },
                        },
                    },
                }
            }
        },
    }
}

/// Whether a live field has the requested method, if one is configured.
pub open spec fn optional_method_check(
    index: Seq<char>,
    method: Option<MethodConfig>,
    name: Seq<char>,
    got: JsonView,
) -> Result<(), StoreErrorView> {
    match method {
        None => Ok(()),
        Some(m) => method_check(index, name, m, got),
    }
}

/// Whether the attributes of a live field are the requested ones.
pub open spec fn attributes_check(
    index: Seq<char>,
    params: OpenSearchParams,
    name: Seq<char>,
    spec_: VectorSpec,
    got: JsonView,
) -> Result<(), StoreErrorView> {
    match difference(name, spec_, params, got) {
        Err(e) => Err(StoreErrorView::Other(config_error_text(e))),
        Ok(Some(d)) => Err(field_mismatch(index, name, d.knob, d.want, d.got)),
        Ok(None) => Ok(()),
    }
}

/// Whether a live field is the requested one: its space, its method and its attributes, each as
/// far as it is configured.
pub open spec fn field_check(
    index: Seq<char>,
    params: OpenSearchParams,
    name: Seq<char>,
    spec_: VectorSpec,
    got: JsonView,
) -> Result<(), StoreErrorView> {
    if got is Null {
        Err(
            StoreErrorView::Other(
                failed_on(index) + ": field `"@ + name + "` missing from the live mapping"@,
            ),
        )
    } else {
        match space_type(name, option_text(spec_.distance)) {
            Err(e) => Err(StoreErrorView::Other(config_error_text(e))),
            Ok(space) => {
                let got_space = or_empty(space_of(got));
                if got_space != space {
                    Err(field_mismatch(index, name, "space_type"@, space, got_space))
                } else {
                    match optional_method_check(index, params.method, name, got) {
                        Err(e) => Err(e),
                        Ok(()) => attributes_check(index, params, name, spec_, got),
                    }
                }
            },
        }
    }
}

/// Whether the live mapping has every expected vector as it was requested; the first fault ends
/// it.
pub open spec fn mapping_check(
    index: Seq<char>,
    params: OpenSearchParams,
    expected: Seq<(String, VectorSpec)>,
    props: JsonView,
) -> Result<(), StoreErrorView>
    decreases expected.len(),
{
    if expected.len() == 0 {
        Ok(())
    } else {
        match mapping_check(index, params, expected.drop_last(), props) {
            Err(e) => Err(e),
            Ok(()) => {
                let last = expected.last();
                field_check(index, params, last.0@, last.1, at(props, last.0@))
            },
        }
    }
}

/// A fault in the first vectors is the fault of all.
proof fn lemma_mapping_fault(
    index: Seq<char>,
    params: OpenSearchParams,
    expected: Seq<(String, VectorSpec)>,
    props: JsonView,
    n: int,
)
    requires
        0 <= n <= expected.len(),
        mapping_check(index, params, expected.take(n), props) is Err,
    ensures
        mapping_check(index, params, expected, props) == mapping_check(
            index,
            params,
            expected.take(n),
            props,
        ),
    decreases expected.len() - n,
{
    if n == expected.len() {
        assert(expected.take(n) =~= expected);
    } else {
        assert(expected.take(n + 1).drop_last() =~= expected.take(n));
        lemma_mapping_fault(index, params, expected, props, n + 1);
    }
}

/// Whether a live setting is the requested text; what was not requested is not looked at.
pub open spec fn text_setting_check(
    index: Seq<char>,
    knob: Seq<char>,
    want: Option<Seq<char>>,
    got: JsonView,
) -> Result<(), StoreErrorView> {
    match want {
        Some(w) if text_of(got) != Some(w) => Err(
            StoreErrorView::Other(
                failed_on(index) + " "@ + knob + ": requested "@ + w
                    + " but the live index config has "@ + json_text(got),
            ),
        ),
        _ => Ok(()),
    }
}

/// Compares a requested text with a live setting.
pub fn check_text_setting(store: &OpenSearchStore, knob: &str, want: Option<&str>, got: &Json) -> (r:
    Result<(), StoreError>)
    ensures
        unit_result(r) == text_setting_check(store.index_name@, knob@, slice_text(want), got@),
{
    match want {
        None => Ok(()),
        Some(w) => {
            let same = match got.as_str() {
                Some(s) => same_text(s, w),
                None => false,
            };
            if same {
                Ok(())
            } else {
                let prefix = failed_prefix(store);
                let live = got.to_text();
                Err(
                    StoreError::Other(
                        around_three(
                            prefix.as_str(),
                            " ",
                            knob,
                            ": requested ",
                            w,
                            " but the live index config has ",
                            live.as_str(),
                        ),
                    ),
                )
            }
        },
    }
}

/// Two checks, of which the first fault counts.
pub open spec fn both(a: Result<(), StoreErrorView>, b: Result<(), StoreErrorView>) -> Result<
    (),
    StoreErrorView,
> {
    match a {
        Err(e) => Err(e),
        Ok(()) => b,
    }
}

/// Whether the live settings are the requested ones, of: replicas, search breadth, shards, refresh
/// interval.
pub open spec fn settings_check(
    index: Seq<char>,
    params: OpenSearchParams,
    settings: JsonView,
) -> Result<(), StoreErrorView> {
    both(
        setting_check(
            index,
            "number_of_replicas"@,
            params.replicas,
            setting(settings, "number_of_replicas"@),
        ),
        both(
            setting_check(
                index,
                "knn.algo_param.ef_search"@,
                params.ef_search,
                setting(settings, "knn.algo_param.ef_search"@),
            ),
            both(
                setting_check(
                    index,
                    "number_of_shards"@,
                    params.shards,
                    setting(settings, "number_of_shards"@),
                ),
                text_setting_check(
                    index,
                    "refresh_interval"@,
                    option_text(params.refresh_interval),
                    setting(settings, "refresh_interval"@),
                ),
            ),
        ),
    )
}

/// What the check has of the live index.
pub enum VerifySeen {
    Nothing,
    /// The live field mappings.
    Properties(Json),
    /// The live settings.
    Settings(Json),
}

/// What the check needs next.
#[derive(Clone, Copy, Debug, PartialEq, Eq, Structural)]
pub enum VerifyStep {
    FetchProperties,
    FetchSettings,
    Done,
}

/// The outcome of a step of the check.
pub open spec fn verify_result(r: Result<VerifyStep, StoreError>) -> Result<
    VerifyStep,
    StoreErrorView,
> {
    match r {
        Ok(s) => Ok(s),
        Err(e) => Err(e@),
    }
}

/// What follows what the check has seen: first the mapping, where vectors are expected, then the
/// settings.
pub open spec fn verify_next(
    index: Seq<char>,
    params: OpenSearchParams,
    expected: Seq<(String, VectorSpec)>,
    seen: VerifySeen,
) -> Result<VerifyStep, StoreErrorView> {
    match seen {
        VerifySeen::Nothing => if expected.len() == 0 {
            Ok(VerifyStep::FetchSettings)
        } else {
            Ok(VerifyStep::FetchProperties)
        },
        VerifySeen::Properties(props) => match mapping_check(
            index,
            params,
            expected,
            props@,
        ) {
            Ok(()) => Ok(VerifyStep::FetchSettings),
            Err(e) => Err(e),
        },
        VerifySeen::Settings(settings) => match settings_check(index, params, settings@) {
            Ok(()) => Ok(VerifyStep::Done),
            Err(e) => Err(e),
        },
    }
}

impl OpenSearchStore {
    fn verify_method(&self, name: &str, method: &MethodConfig, got: &Json) -> (r: Result<
        (),
        StoreError,
    >)
        ensures
            unit_result(r) == method_check(self.index_name@, name@, *method, got@),
    {
        let want = match parse_engine(as_slice(&method.engine)) {
            Ok(engine) => engine,
            Err(e) => return Err(config_err(&e)),
        };
        let live = got.index("method");
        let got_engine = match live.index("engine").as_str() {
            Some(s) => s,
            None => "",
        };
        if !same_text(got_engine, want) {
            return Err(mismatch(self, name, "engine", want, got_engine));
        }
        let parameters = live.index("parameters");
        match check_u64_json(self, name, "method.parameters.m", method.m, parameters.index("m")) {
            Ok(()) => {},
            Err(e) => return Err(e),
        }
        match check_u64_json(
            self,
            name,
            "method.parameters.ef_construction",
            method.ef_construction,
            parameters.index("ef_construction"),
        ) {
            Ok(()) => {},
            Err(e) => return Err(e),
        }
        let want = match method_json(method) {
            Ok(j) => j,
            Err(e) => return Err(config_err(&e)),
        };
        if method_reported(method, live) {
            Ok(())
        } else {
            let want_text = want.to_text();
            let live_text = live.to_text();
            Err(mismatch(self, name, "method", want_text.as_str(), live_text.as_str()))
        }
    }

    fn verify_field(&self, name: &str, spec_: &VectorSpec, got: &Json) -> (r: Result<
        (),
        StoreError,
    >)
        ensures
            unit_result(r) == field_check(
                self.index_name@,
                self.params,
                name@,
                *spec_,
                got@,
            ),
    {
        if got.is_null() {
            let prefix = failed_prefix(self);
            let mut m = around(prefix.as_str(), ": field `", name);
            m.append("` missing from the live mapping");
            return Err(StoreError::Other(m));
        }
        let want = match parse_space_type(name, as_slice(&spec_.distance)) {
            Ok(space) => space,
            Err(e) => return Err(config_err(&e)),
        };
        let got_space = match reported_space(got) {
            Some(s) => s,
            None => "",
        };
        if !same_text(got_space, want) {
            return Err(mismatch(self, name, "space_type", want, got_space));
        }
        match &self.params.method {
            Some(method) => match self.verify_method(name, method, got) {
                Ok(()) => {},
                Err(e) => return Err(e),
            },
            None => {},
        }
        match find_difference(name, spec_, &self.params, got) {
            Ok(None) => Ok(()),
            Ok(Some(d)) => Err(mismatch(self, name, d.knob, d.want.as_str(), d.got.as_str())),
            Err(e) => Err(config_err(&e)),
        }
    }

    fn verify_mapping(&self, props: &Json) -> (r: Result<(), StoreError>)
        ensures
            unit_result(r) == mapping_check(
                self.index_name@,
                self.params,
                self.expected_vectors@,
                props@,
            ),
    {
        let ghost expected = self.expected_vectors@;
        let mut i: usize = 0;
        while i < self.expected_vectors.len()
            invariant
                i <= expected.len(),
                expected == self.expected_vectors@,
                mapping_check(
                    self.index_name@,
                    self.params,
                    expected.take(i as int),
                    props@,
                ) is Ok,
            decreases expected.len() - i,
        {
            let entry = self.expected_vectors.entry(i);
            let got = props.index(entry.0);
            assert(expected.take(i + 1).drop_last() =~= expected.take(i as int));
            match self.verify_field(entry.0, entry.1, got) {
                Ok(()) => {},
                Err(e) => {
                    proof {
                        lemma_mapping_fault(
                            self.index_name@,
                            self.params,
                            expected,
                            props@,
                            i + 1,
                        );
                    }
                    return Err(e);
                },
            }
            i += 1;
        }
        assert(expected.take(i as int) =~= expected);
        Ok(())
    }

    fn verify_settings(&self, settings: &Json) -> (r: Result<(), StoreError>)
        ensures
            unit_result(r) == settings_check(self.index_name@, self.params, settings@),
    {
        match check_u64_setting(
            self,
            "number_of_replicas",
            self.params.replicas,
            lookup_setting(settings, "number_of_replicas"),
        ) {
            Ok(()) => {},
            Err(e) => return Err(e),
        }
        match check_u64_setting(
            self,
            "knn.algo_param.ef_search",
            self.params.ef_search,
            lookup_setting(settings, "knn.algo_param.ef_search"),
        ) {
            Ok(()) => {},
            Err(e) => return Err(e),
        }
        match check_u64_setting(
            self,
            "number_of_shards",
            self.params.shards,
            lookup_setting(settings, "number_of_shards"),
        ) {
            Ok(()) => {},
            Err(e) => return Err(e),
        }
        check_text_setting(
            self,
            "refresh_interval",
            as_slice(&self.params.refresh_interval),
            lookup_setting(settings, "refresh_interval"),
        )
    }

    /// Checks that the live index reflects the configuration: every knob that is set has to be
    /// what the server reports; the others are left to the server.
    pub fn verify_params(&self, seen: &VerifySeen) -> (r: Result<VerifyStep, StoreError>)
        ensures
            verify_result(r) == verify_next(
                self.index_name@,
                self.params,
                self.expected_vectors@,
                *seen,
            ),
    {
        match seen {
            VerifySeen::Nothing => if self.expected_vectors.len() == 0 {
                Ok(VerifyStep::FetchSettings)
            } else {
                Ok(VerifyStep::FetchProperties)
            },
            VerifySeen::Properties(props) => match self.verify_mapping(props) {
                Ok(()) => Ok(VerifyStep::FetchSettings),
                Err(e) => Err(e),
            },
            VerifySeen::Settings(settings) => match self.verify_settings(settings) {
                Ok(()) => Ok(VerifyStep::Done),
                Err(e) => Err(e),
            },
        }
    }
}

} // verus!
