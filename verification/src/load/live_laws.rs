//! What holds of the checks against a live index.
use crate::field::space_of;
use crate::json::{at, lemma_same_json_reflexive, same_json, text_of, JsonView};
use crate::json_build::{number, single, Members};
use crate::json_text::{lemma_ordered, ordered};
use crate::load::config::{MethodConfig, OpenSearchParams, VectorSpec};
use crate::load::convert::{
    compression, data_type, engine_name, method_name, space_type, workload_mode,
};
use crate::load::error::ConfigErrorView;
use crate::load::fixed::{covers, live_data_type, reports, satisfies};
use crate::load::laws::{
    created_properties, created_settings, law_a_field_has_what_is_configured,
    law_one_field_per_vector, lemma_setting_keys,
};
use crate::load::mapping::{
    create_index, creation_settings, encoder_object, encoder_parameters, field_mode, knn_field,
    method_knobs, method_object, method_parameters,
};
use crate::load::reindex::{guard, reindexed, same_shards_check, unchanged_check};
use crate::load::settings::{dotted_key, flat, flat_members, setting, setting_number};
use crate::load::verify::{field_check, mapping_check, settings_check};
use crate::named::distinct;
use crate::text::{
    decimal, digits_value, lemma_text_order, option_text, or_empty, text_before, unsigned_part,
};
use vstd::prelude::*;
use vstd::string::*;
use vstd::utf8::*;

verus! {

/// The keys of a method and of its parameters differ from each other.
proof fn lemma_method_keys()
    ensures
        "name"@ != "engine"@,
        "name"@ != "parameters"@,
        "engine"@ != "parameters"@,
        "m"@ != "ef_construction"@,
        "m"@ != "ef_search"@,
        "m"@ != "nlist"@,
        "m"@ != "nprobes"@,
        "m"@ != "encoder"@,
        "ef_construction"@ != "ef_search"@,
        "ef_construction"@ != "nlist"@,
        "ef_construction"@ != "nprobes"@,
        "ef_construction"@ != "encoder"@,
        "ef_search"@ != "encoder"@,
        "nlist"@ != "encoder"@,
        "nprobes"@ != "encoder"@,
{
    reveal_strlit("name");
    reveal_strlit("engine");
    reveal_strlit("parameters");
    reveal_strlit("m");
    reveal_strlit("ef_construction");
    reveal_strlit("ef_search");
    reveal_strlit("nlist");
    reveal_strlit("nprobes");
    reveal_strlit("encoder");
    assert("name"@.len() == 4);
    assert("engine"@.len() == 6);
    assert("parameters"@.len() == 10);
    assert("m"@.len() == 1);
    assert("ef_construction"@.len() == 15);
    assert("ef_search"@.len() == 9);
    assert("nlist"@.len() == 5);
    assert("nprobes"@.len() == 7);
    assert("encoder"@.len() == 7);
    assert("nprobes"@[0] != "encoder"@[0]);
}

/// What the method object of a configuration has under its keys.
proof fn lemma_method_object(method: MethodConfig)
    requires
        method_object(method) is Ok,
    ensures
        ({
            let live = method_object(method)->Ok_0;
            &&& live is Object
            &&& engine_name(option_text(method.engine)) is Ok
            &&& at(live, "engine"@) == JsonView::Text(engine_name(option_text(method.engine))->Ok_0)
            &&& method.m matches Some(m) ==> at(at(live, "parameters"@), "m"@) == number(m as u64)
            &&& method.ef_construction matches Some(ef) ==> at(
                at(live, "parameters"@),
                "ef_construction"@,
            ) == number(ef as u64)
        }),
{
    lemma_method_keys();
    let params = method_parameters(method)->Ok_0;
    if method.m is Some {
        assert(params.dom().contains("m"@));
    }
    if method.ef_construction is Some {
        assert(params.dom().contains("ef_construction"@));
    }
}

proof fn lemma_created_field(
    index: Seq<char>,
    name: Seq<char>,
    spec_: VectorSpec,
    params: OpenSearchParams,
    dims: Seq<(String, u64)>,
)
    requires
        knn_field(name, spec_, params, dims) is Ok,
    ensures
        field_check(index, params, name, spec_, knn_field(name, spec_, params, dims)->Ok_0)
            is Ok,
        unchanged_check(
            index,
            params,
            name,
            spec_,
            knn_field(name, spec_, params, dims)->Ok_0,
        ) is Ok,
{
    law_a_field_has_what_is_configured(name, spec_, params, dims);
    let field = knn_field(name, spec_, params, dims)->Ok_0;
    assert(space_of(field) == text_of(at(field, "space_type"@)));
    match params.method {
        None => {},
        Some(method) => {
            lemma_method_object(method);
            let live = at(field, "method"@);
            assert(live == method_object(method)->Ok_0);
            law_a_method_satisfies_itself(live);
        },
    }
    lemma_unchanged_passes(index, params, name, spec_, field);
}

proof fn lemma_covers_itself(w: Members)
    ensures
        covers(w, JsonView::Object(w)),
{
    assert forall|k: Seq<char>| #[trigger] w.dom().contains(k) implies same_json(w[k], w[k]) by {
        lemma_same_json_reflexive(w[k]);
    }
}

/// A method satisfies itself.
pub proof fn law_a_method_satisfies_itself(method: JsonView)
    requires
        !(method is Null),
    ensures
        satisfies(method, method),
{
    lemma_same_json_reflexive(at(method, "name"@));
    lemma_same_json_reflexive(at(method, "engine"@));
    match at(method, "parameters"@) {
        JsonView::Object(w) => {
            lemma_covers_itself(w);
        },
        _ => {},
    }
}

/// Parameters that the server adds to a method do not matter: a method satisfies every method
/// that has the same name, the same engine and some of its parameters.
pub proof fn law_parameters_of_the_server_do_not_matter(want: JsonView, got: JsonView)
    requires
        got is Object,
        at(want, "name"@) == at(got, "name"@),
        at(want, "engine"@) == at(got, "engine"@),
        at(want, "parameters"@) is Object ==> at(got, "parameters"@) is Object,
        at(want, "parameters"@) matches JsonView::Object(w) ==> forall|k: Seq<char>| #[trigger]
            w.dom().contains(k) ==> {
                &&& at(got, "parameters"@)->Object_0.dom().contains(k)
                &&& at(got, "parameters"@)->Object_0[k] == w[k]
            },
    ensures
        satisfies(want, got),
{
    lemma_same_json_reflexive(at(want, "name"@));
    lemma_same_json_reflexive(at(want, "engine"@));
    match at(want, "parameters"@) {
        JsonView::Object(w) => {
            let g = at(got, "parameters"@)->Object_0;
            assert forall|k: Seq<char>| #[trigger] w.dom().contains(k) implies {
                &&& at(got, "parameters"@) is Object
                &&& g.dom().contains(k)
                &&& same_json(g[k], w[k])
            } by {
                assert(g.dom().contains(k) && g[k] == w[k]);
                lemma_same_json_reflexive(w[k]);
            }
        },
        _ => {},
    }
}

proof fn lemma_created_mapping(
    index: Seq<char>,
    vectors: Seq<(String, VectorSpec)>,
    params: OpenSearchParams,
    dims: Seq<(String, u64)>,
    props: JsonView,
    n: int,
)
    requires
        0 <= n <= vectors.len(),
        forall|i: int|
            0 <= i < vectors.len() ==> {
                &&& knn_field(#[trigger] vectors[i].0@, vectors[i].1, params, dims) is Ok
                &&& at(props, vectors[i].0@) == knn_field(
                    vectors[i].0@,
                    vectors[i].1,
                    params,
                    dims,
                )->Ok_0
            },
    ensures
        mapping_check(index, params, vectors.take(n), props) is Ok,
        guard(index, params, vectors.take(n), props) is Ok,
    decreases n,
{
    if n > 0 {
        lemma_created_mapping(index, vectors, params, dims, props, n - 1);
        assert(vectors.take(n).drop_last() =~= vectors.take(n - 1));
        let last = vectors[n - 1];
        lemma_created_field(index, last.0@, last.1, params, dims);
    }
}

/// A member that is no object is a setting under its own key.
proof fn lemma_flat_leaves(m: Members, n: nat)
    requires
        m.dom().finite(),
        forall|k: Seq<char>| m.dom().contains(k) ==> !(#[trigger] m[k] is Object),
        n <= ordered(m.dom()).len(),
    ensures
        forall|k: Seq<char>| #[trigger]
            flat_members(JsonView::Object(m), Seq::empty(), n).dom().contains(k) <==> exists|
                i: int,
            |
                0 <= i < n && #[trigger] ordered(m.dom())[i] == k,
        forall|k: Seq<char>| #[trigger]
            flat_members(JsonView::Object(m), Seq::empty(), n).dom().contains(k) ==> flat_members(
                JsonView::Object(m),
                Seq::empty(),
                n,
            )[k] == m[k],
    decreases n,
{
    let v = JsonView::Object(m);
    let keys = ordered(m.dom());
    lemma_ordered(m.dom());
    if n > 0 {
        let before = (n - 1) as nat;
        lemma_flat_leaves(m, before);
        let key = keys[n - 1];
        assert(keys.contains(key));
        assert(m.dom().contains(key));
        assert(dotted_key(Seq::empty(), key) == key);
        assert(flat(m[key], key) == Map::<Seq<char>, JsonView>::empty().insert(key, m[key]));
        assert forall|k: Seq<char>| #[trigger]
            flat_members(v, Seq::empty(), n).dom().contains(k) <==> exists|i: int|
                0 <= i < n && #[trigger] keys[i] == k by {
            if flat_members(v, Seq::empty(), before).dom().contains(k) {
                let i = choose|i: int| 0 <= i < before && #[trigger] keys[i] == k;
                assert(keys[i] == k);
            }
            if exists|i: int| 0 <= i < n && #[trigger] keys[i] == k {
                let i = choose|i: int| 0 <= i < n && #[trigger] keys[i] == k;
                if i < before {
                    assert(flat_members(v, Seq::empty(), before).dom().contains(k));
                }
            }
        }
        assert forall|k: Seq<char>| #[trigger]
            flat_members(v, Seq::empty(), n).dom().contains(k) implies flat_members(
            v,
            Seq::empty(),
            n,
        )[k] == m[k] by {
            if k != key {
                assert(flat_members(v, Seq::empty(), before).dom().contains(k));
            }
        }
    }
}

/// Settings without groups are found under their keys.
pub proof fn law_ungrouped_settings_are_found(m: Members, key: Seq<char>)
    requires
        m.dom().finite(),
        forall|k: Seq<char>| m.dom().contains(k) ==> !(#[trigger] m[k] is Object),
    ensures
        setting(JsonView::Object(m), key) == at(JsonView::Object(m), key),
{
    let n = ordered(m.dom()).len();
    lemma_ordered(m.dom());
    lemma_flat_leaves(m, n);
    let all = flat(JsonView::Object(m), Seq::empty());
    assert(all == flat_members(JsonView::Object(m), Seq::empty(), n));
    if m.dom().contains(key) {
        assert(ordered(m.dom()).contains(key));
        assert(ordered(m.dom())[ordered(m.dom()).index_of(key)] == key);
        assert(all.dom().contains(key));
    } else if all.dom().contains(key) {
        let i = choose|i: int| 0 <= i < n && #[trigger] ordered(m.dom())[i] == key;
        assert(ordered(m.dom()).contains(key));
    }
}

proof fn lemma_flat_single(key: Seq<char>, v: JsonView, prefix: Seq<char>)
    ensures
        flat(single(key, v), prefix) == flat(v, dotted_key(prefix, key)),
{
    let m = Map::<Seq<char>, JsonView>::empty().insert(key, v);
    let o = JsonView::Object(m);
    let keys = ordered(m.dom());
    lemma_ordered(m.dom());
    assert(m.dom().contains(key));
    assert(keys.contains(key));
    assert(keys.len() == 1) by {
        lemma_text_order();
        if keys.len() > 1 {
            assert(keys.contains(keys[0]) && keys.contains(keys[1]));
            assert(keys[0] == key && keys[1] == key);
            assert(text_before(keys[0], keys[1]));
        }
    }
    assert(keys[0] == key);
    assert(flat_members(o, prefix, 0) == Map::<Seq<char>, JsonView>::empty());
    assert(flat_members(o, prefix, 1) =~= flat(v, dotted_key(prefix, key)));
}

/// How the server groups a setting does not matter: a setting in a group reads as the same
/// setting under the dotted path.
pub proof fn law_grouping_does_not_matter(
    group: Seq<char>,
    key: Seq<char>,
    value: JsonView,
    path: Seq<char>,
)
    requires
        group.len() > 0,
    ensures
        setting(single(group, single(key, value)), path) == setting(
            single(group + "."@ + key, value),
            path,
        ),
{
    lemma_flat_single(group, single(key, value), Seq::empty());
    lemma_flat_single(key, value, group);
    lemma_flat_single(group + "."@ + key, value, Seq::empty());
    assert(dotted_key(Seq::empty(), group) == group);
    assert(dotted_key(Seq::empty(), group + "."@ + key) == group + "."@ + key);
}

/// Every group of a setting has finitely many members.
pub open spec fn finite_groups(v: JsonView) -> bool
    decreases v,
{
    match v {
        JsonView::Object(m) => {
            &&& m.dom().finite()
            &&& forall|k: Seq<char>| m.dom().contains(k) ==> finite_groups(#[trigger] m[k])
        },
        _ => true,
    }
}

/// A value that is no group stands at a dotted path, through whatever groups.
pub open spec fn has_leaf(v: JsonView, prefix: Seq<char>, path: Seq<char>, leaf: JsonView) -> bool
    decreases v,
{
    match v {
        JsonView::Object(m) => exists|k: Seq<char>|
            m.dom().contains(k) && has_leaf(#[trigger] m[k], dotted_key(prefix, k), path, leaf),
        _ => prefix == path && v == leaf,
    }
}

/// What is found at a path stands there, and something is found wherever something stands.
proof fn lemma_flat_leaf(v: JsonView, prefix: Seq<char>, path: Seq<char>)
    requires
        finite_groups(v),
    ensures
        flat(v, prefix).dom().contains(path) ==> has_leaf(v, prefix, path, flat(v, prefix)[path]),
        forall|leaf: JsonView| #[trigger]
            has_leaf(v, prefix, path, leaf) ==> flat(v, prefix).dom().contains(path),
    decreases v, 1nat, 0nat,
{
    match v {
        JsonView::Object(m) => {
            let keys = ordered(m.dom());
            lemma_ordered(m.dom());
            lemma_flat_members_leaf(v, prefix, path, keys.len());
            assert forall|leaf: JsonView| #[trigger]
                has_leaf(v, prefix, path, leaf) implies flat(v, prefix).dom().contains(path) by {
                let k = choose|k: Seq<char>|
                    m.dom().contains(k) && has_leaf(
                        #[trigger] m[k],
                        dotted_key(prefix, k),
                        path,
                        leaf,
                    );
                assert(keys.contains(k));
                let i = keys.index_of(k);
                assert(keys[i] == k);
            }
        },
        _ => {
            assert(flat(v, prefix) == Map::<Seq<char>, JsonView>::empty().insert(prefix, v));
        },
    }
}

proof fn lemma_flat_members_leaf(v: JsonView, prefix: Seq<char>, path: Seq<char>, n: nat)
    requires
        finite_groups(v),
        v matches JsonView::Object(m) && n <= ordered(m.dom()).len(),
    ensures
        ({
            let m = v->Object_0;
            let keys = ordered(m.dom());
            let first = flat_members(v, prefix, n);
            &&& first.dom().contains(path) ==> has_leaf(v, prefix, path, first[path])
            &&& forall|i: int, leaf: JsonView|
                0 <= i < n && #[trigger] has_leaf(
                    m[keys[i]],
                    dotted_key(prefix, keys[i]),
                    path,
                    leaf,
                ) ==> first.dom().contains(path)
        }),
    decreases v, 0nat, n,
{
    let m = v->Object_0;
    let keys = ordered(m.dom());
    lemma_ordered(m.dom());
    if n > 0 {
        let before = (n - 1) as nat;
        lemma_flat_members_leaf(v, prefix, path, before);
        let key = keys[n - 1];
        assert(keys.contains(key));
        assert(m.dom().contains(key));
        lemma_flat_leaf(m[key], dotted_key(prefix, key), path);
        let here = flat(m[key], dotted_key(prefix, key));
        let first = flat_members(v, prefix, n);
        if first.dom().contains(path) {
            if here.dom().contains(path) {
                assert(has_leaf(m[key], dotted_key(prefix, key), path, here[path]));
                assert(first[path] == here[path]);
            } else {
                assert(first[path] == flat_members(v, prefix, before)[path]);
            }
        }
        assert forall|i: int, leaf: JsonView|
            0 <= i < n && #[trigger] has_leaf(
                m[keys[i]],
                dotted_key(prefix, keys[i]),
                path,
                leaf,
            ) implies first.dom().contains(path) by {
            if i < before {
                assert(flat_members(v, prefix, before).dom().contains(path));
            }
        }
    }
}

/// A setting reads as the value that stands at its path, through however many groups, where no
/// other value stands there; and as null where nothing stands there.
pub proof fn law_a_setting_reads_as_the_value_at_its_path(
    settings: JsonView,
    path: Seq<char>,
    leaf: JsonView,
)
    requires
        finite_groups(settings),
        forall|other: JsonView| #[trigger]
            has_leaf(settings, Seq::empty(), path, other) ==> other == leaf,
    ensures
        has_leaf(settings, Seq::empty(), path, leaf) ==> setting(settings, path) == leaf,
        !has_leaf(settings, Seq::empty(), path, leaf) ==> setting(settings, path)
            == JsonView::Null,
{
    lemma_flat_leaf(settings, Seq::empty(), path);
}

/// Two responses that group their settings in whatever ways read the same at a path where the
/// same single value stands in both, or none in either.
pub proof fn law_no_grouping_matters(a: JsonView, b: JsonView, path: Seq<char>)
    requires
        finite_groups(a),
        finite_groups(b),
        forall|leaf: JsonView| #[trigger]
            has_leaf(a, Seq::empty(), path, leaf) <==> has_leaf(b, Seq::empty(), path, leaf),
        forall|x: JsonView, y: JsonView| #[trigger]
            has_leaf(a, Seq::empty(), path, x) && #[trigger] has_leaf(a, Seq::empty(), path, y)
                ==> x == y,
    ensures
        setting(a, path) == setting(b, path),
{
    lemma_flat_leaf(a, Seq::empty(), path);
    lemma_flat_leaf(b, Seq::empty(), path);
    if flat(a, Seq::empty()).dom().contains(path) {
        assert(has_leaf(a, Seq::empty(), path, flat(a, Seq::empty())[path]));
        assert(has_leaf(b, Seq::empty(), path, flat(a, Seq::empty())[path]));
        assert(has_leaf(b, Seq::empty(), path, flat(b, Seq::empty())[path]));
        assert(has_leaf(a, Seq::empty(), path, flat(b, Seq::empty())[path]));
    } else if flat(b, Seq::empty()).dom().contains(path) {
        assert(has_leaf(b, Seq::empty(), path, flat(b, Seq::empty())[path]));
        assert(has_leaf(a, Seq::empty(), path, flat(b, Seq::empty())[path]));
    }
}

/// A setting that is found in one member only is that setting, whatever stands beside it.
pub proof fn law_a_setting_is_found_beside_others(m: Members, key: Seq<char>, path: Seq<char>)
    requires
        m.dom().finite(),
        m.dom().contains(key),
        flat(m[key], key).dom().contains(path),
        forall|k: Seq<char>| #[trigger]
            m.dom().contains(k) && k != key ==> !flat(m[k], k).dom().contains(path),
    ensures
        setting(JsonView::Object(m), path) == flat(m[key], key)[path],
{
    let keys = ordered(m.dom());
    lemma_ordered(m.dom());
    assert(keys.contains(key));
    lemma_found_beside(m, key, path, keys.len());
    let at_key = keys.index_of(key);
    assert(keys[at_key] == key);
    assert(at_key < keys.len());
}

proof fn lemma_found_beside(m: Members, key: Seq<char>, path: Seq<char>, n: nat)
    requires
        m.dom().finite(),
        m.dom().contains(key),
        flat(m[key], key).dom().contains(path),
        forall|k: Seq<char>| #[trigger]
            m.dom().contains(k) && k != key ==> !flat(m[k], k).dom().contains(path),
        n <= ordered(m.dom()).len(),
    ensures
        ({
            let first = flat_members(JsonView::Object(m), Seq::empty(), n);
            let reached = exists|i: int| 0 <= i < n && #[trigger] ordered(m.dom())[i] == key;
            &&& first.dom().contains(path) <==> reached
            &&& first.dom().contains(path) ==> first[path] == flat(m[key], key)[path]
        }),
    decreases n,
{
    let v = JsonView::Object(m);
    let keys = ordered(m.dom());
    lemma_ordered(m.dom());
    if n > 0 {
        let before = (n - 1) as nat;
        lemma_found_beside(m, key, path, before);
        let here = keys[n - 1];
        assert(keys.contains(here));
        assert(m.dom().contains(here));
        assert(dotted_key(Seq::empty(), here) == here);
        if exists|i: int| 0 <= i < before && #[trigger] keys[i] == key {
            let i = choose|i: int| 0 <= i < before && #[trigger] keys[i] == key;
            assert(0 <= i < n && keys[i] == key);
        }
        if here == key {
            assert(keys[n - 1] == key);
        }
        if exists|i: int| 0 <= i < n && #[trigger] keys[i] == key {
            let i = choose|i: int| 0 <= i < n && #[trigger] keys[i] == key;
            if i < before {
                assert(keys[i] == key);
            }
        }
    }
}

proof fn lemma_decimal_digits(n: nat)
    ensures
        decimal(n).len() > 0,
        forall|i: int|
            0 <= i < decimal(n).len() ==> '0' <= #[trigger] decimal(n)[i] && decimal(n)[i] <= '9',
    decreases n,
{
    if n >= 10 {
        lemma_decimal_digits(n / 10);
    }
}

proof fn lemma_decimal_value(n: nat, bytes: Seq<u8>)
    requires
        bytes.len() == decimal(n).len(),
        forall|i: int| 0 <= i < bytes.len() ==> decimal(n)[i] as u8 == #[trigger] bytes[i],
    ensures
        digits_value(bytes) == n,
    decreases n,
{
    lemma_decimal_digits(n);
    if n < 10 {
        assert(decimal(n)[0] as u8 == bytes[0]);
        assert(bytes.drop_last() =~= Seq::empty());
        assert(digits_value(bytes.drop_last()) == 0);
    } else {
        let rest = bytes.drop_last();
        assert forall|i: int| 0 <= i < rest.len() implies decimal(n / 10)[i] as u8
            == #[trigger] rest[i] by {
            assert(decimal(n)[i] as u8 == bytes[i]);
        }
        lemma_decimal_value(n / 10, rest);
        assert(decimal(n)[decimal(n).len() - 1] as u8 == bytes[bytes.len() - 1]);
    }
}

/// A number that is written in a string reads as the number.
pub proof fn law_a_number_in_a_string_reads_as_the_number(n: u64)
    ensures
        setting_number(JsonView::Text(decimal(n as nat))) == Some(n),
        setting_number(number(n)) == Some(n),
{
    let text = decimal(n as nat);
    lemma_decimal_digits(n as nat);
    assert(is_ascii_chars(text));
    is_ascii_chars_encode_utf8(text);
    let bytes = encode_utf8(text);
    assert forall|i: int| 0 <= i < bytes.len() implies 48 <= #[trigger] bytes[i] <= 57 by {
        assert(text[i] as u8 == bytes[i]);
    }
    assert(unsigned_part(bytes) == bytes);
    lemma_decimal_value(n as nat, bytes);
}

/// An index that was created under a configuration passes the check of that configuration, and
/// nothing in it has to be changed: neither its mapping nor its settings.
pub proof fn law_a_created_index_passes_its_check(
    index: Seq<char>,
    vectors: Seq<(String, VectorSpec)>,
    params: OpenSearchParams,
    dims: Seq<(String, u64)>,
)
    requires
        distinct(vectors),
        create_index(vectors, params, dims) is Ok,
    ensures
        ({
            let body = create_index(vectors, params, dims)->Ok_0;
            &&& mapping_check(index, params, vectors, created_properties(body)) is Ok
            &&& settings_check(index, params, created_settings(body)) is Ok
            &&& guard(index, params, vectors, created_properties(body)) is Ok
            &&& same_shards_check(index, params.shards, created_settings(body)) is Ok
        }),
{
    let body = create_index(vectors, params, dims)->Ok_0;
    law_one_field_per_vector(vectors, params, dims);
    let props = created_properties(body);
    assert forall|i: int| 0 <= i < vectors.len() implies {
        &&& knn_field(#[trigger] vectors[i].0@, vectors[i].1, params, dims) is Ok
        &&& at(props, vectors[i].0@) == knn_field(
            vectors[i].0@,
            vectors[i].1,
            params,
            dims,
        )->Ok_0
    } by {}
    lemma_created_mapping(index, vectors, params, dims, props, vectors.len() as int);
    assert(vectors.take(vectors.len() as int) =~= vectors);
    lemma_created_settings(vectors, params, dims);
    let m = creation_settings(params);
    law_ungrouped_settings_are_found(m, "number_of_replicas"@);
    law_ungrouped_settings_are_found(m, "knn.algo_param.ef_search"@);
    law_ungrouped_settings_are_found(m, "number_of_shards"@);
    law_ungrouped_settings_are_found(m, "refresh_interval"@);
}

proof fn lemma_created_settings(
    vectors: Seq<(String, VectorSpec)>,
    params: OpenSearchParams,
    dims: Seq<(String, u64)>,
)
    requires
        create_index(vectors, params, dims) is Ok,
    ensures
        ({
            let m = creation_settings(params);
            &&& created_settings(create_index(vectors, params, dims)->Ok_0) == JsonView::Object(m)
            &&& m.dom().finite()
            &&& forall|k: Seq<char>| m.dom().contains(k) ==> !(#[trigger] m[k] is Object)
            &&& params.replicas matches Some(n) ==> at(
                JsonView::Object(m),
                "number_of_replicas"@,
            ) == number(n as u64)
            &&& params.ef_search matches Some(n) ==> at(
                JsonView::Object(m),
                "knn.algo_param.ef_search"@,
            ) == number(n as u64)
            &&& params.shards matches Some(n) ==> at(
                JsonView::Object(m),
                "number_of_shards"@,
            ) == number(n as u64)
            &&& params.refresh_interval matches Some(t) ==> at(
                JsonView::Object(m),
                "refresh_interval"@,
            ) == JsonView::Text(t@)
        }),
{
    reveal_strlit("settings");
    reveal_strlit("mappings");
    assert("settings"@[0] != "mappings"@[0]);
    lemma_setting_keys();
}

/// The check of a mapping passes exactly if every expected field passes, in whatever order they
/// are walked.
pub proof fn law_the_check_passes_if_every_field_does(
    index: Seq<char>,
    params: OpenSearchParams,
    expected: Seq<(String, VectorSpec)>,
    props: JsonView,
)
    ensures
        mapping_check(index, params, expected, props) is Ok <==> forall|i: int|
            0 <= i < expected.len() ==> field_check(
                index,
                params,
                #[trigger] expected[i].0@,
                expected[i].1,
                at(props, expected[i].0@),
            ) is Ok,
    decreases expected.len(),
{
    if expected.len() > 0 {
        let rest = expected.drop_last();
        law_the_check_passes_if_every_field_does(index, params, rest, props);
        if mapping_check(index, params, expected, props) is Ok {
            assert forall|i: int| 0 <= i < expected.len() implies field_check(
                index,
                params,
                #[trigger] expected[i].0@,
                expected[i].1,
                at(props, expected[i].0@),
            ) is Ok by {
                if i < rest.len() {
                    assert(rest[i].0@ == expected[i].0@);
                }
            }
        } else if mapping_check(index, params, rest, props) is Ok {
            assert(expected[expected.len() - 1].0@ == expected.last().0@);
        } else {
            let i = choose|i: int|
                0 <= i < rest.len() && !(field_check(
                    index,
                    params,
                    #[trigger] rest[i].0@,
                    rest[i].1,
                    at(props, rest[i].0@),
                ) is Ok);
            assert(expected[i].0@ == rest[i].0@);
        }
    }
}

/// What satisfies a method has what is set of it.
proof fn lemma_satisfying_reports(method: MethodConfig, live: JsonView)
    requires
        method_object(method) is Ok,
        satisfies(method_object(method)->Ok_0, live),
    ensures
        reports(method, live),
{
    lemma_method_keys();
    let want = method_object(method)->Ok_0;
    let params = method_parameters(method)->Ok_0;
    let parameters = at(live, "parameters"@);
    let knobs = method_knobs(method);
    assert(at(want, "name"@) == JsonView::Text(method_name(option_text(method.name))->Ok_0));
    assert forall|k: Seq<char>| #[trigger] params.dom().contains(k) implies {
        &&& parameters is Object
        &&& parameters->Object_0.dom().contains(k)
        &&& same_json(parameters->Object_0[k], params[k])
    } by {
        assert(at(want, "parameters"@) == JsonView::Object(params));
        assert(covers(params, parameters));
    }
    assert forall|k: Seq<char>| #[trigger] knobs.dom().contains(k) implies {
        &&& parameters is Object
        &&& parameters->Object_0.dom().contains(k)
        &&& same_json(parameters->Object_0[k], knobs[k])
    } by {
        assert(params.dom().contains(k));
        assert(params[k] == knobs[k]);
    }
    match method.encoder {
        None => {},
        Some(enc) => {
            assert(params.dom().contains("encoder"@));
            let e = at(parameters, "encoder"@);
            let w = encoder_object(enc)->Ok_0;
            assert(same_json(e, w));
            let set = encoder_parameters(enc);
            assert(w->Object_0.dom().contains("name"@));
            assert(same_json(e->Object_0["name"@], w->Object_0["name"@]));
            assert forall|k: Seq<char>| #[trigger] set.dom().contains(k) implies {
                &&& at(e, "parameters"@) is Object
                &&& at(e, "parameters"@)->Object_0.dom().contains(k)
                &&& same_json(at(e, "parameters"@)->Object_0[k], set[k])
            } by {
                assert(w->Object_0.dom().contains("parameters"@));
                assert(same_json(e->Object_0["parameters"@], w->Object_0["parameters"@]));
            }
        },
    }
}

proof fn lemma_unchanged_passes(
    index: Seq<char>,
    params: OpenSearchParams,
    name: Seq<char>,
    spec_: VectorSpec,
    got: JsonView,
)
    requires
        unchanged_check(index, params, name, spec_, got) is Ok,
    ensures
        field_check(index, params, name, spec_, got) is Ok,
{
    match params.method {
        None => {},
        Some(m) => {
            lemma_method_object(m);
            lemma_method_keys();
            lemma_satisfying_reports(m, at(got, "method"@));
            let want = method_object(m)->Ok_0;
            let live = at(got, "method"@);
            assert(satisfies(want, live));
            match at(want, "parameters"@) {
                JsonView::Object(w) => {
                    if m.m is Some {
                        assert(w.dom().contains("m"@));
                    }
                    if m.ef_construction is Some {
                        assert(w.dom().contains("ef_construction"@));
                    }
                },
                _ => {},
            }
        },
    }
}

/// An index in which nothing has to be changed passes the check: what a change in place accepts,
/// the check after it accepts too.
pub proof fn law_what_the_guard_accepts_passes_the_check(
    index: Seq<char>,
    params: OpenSearchParams,
    vectors: Seq<(String, VectorSpec)>,
    props: JsonView,
)
    requires
        guard(index, params, vectors, props) is Ok,
    ensures
        mapping_check(index, params, vectors, props) is Ok,
    decreases vectors.len(),
{
    if vectors.len() > 0 {
        law_what_the_guard_accepts_passes_the_check(index, params, vectors.drop_last(), props);
        let last = vectors.last();
        lemma_unchanged_passes(index, params, last.0@, last.1, at(props, last.0@));
    }
}

/// The number of a setting, as the server may report it: as a number or in a string.
pub open spec fn reported(got: JsonView, n: u32) -> bool {
    got == number(n as u64) || got == JsonView::Text(decimal(n as nat))
}

/// Settings pass the check where the server reports the requested numbers, be it as numbers or in
/// strings.
pub proof fn law_settings_pass_as_numbers_or_strings(
    index: Seq<char>,
    params: OpenSearchParams,
    settings: JsonView,
)
    requires
        params.replicas matches Some(n) ==> reported(setting(settings, "number_of_replicas"@), n),
        params.ef_search matches Some(n) ==> reported(
            setting(settings, "knn.algo_param.ef_search"@),
            n,
        ),
        params.shards matches Some(n) ==> reported(setting(settings, "number_of_shards"@), n),
        params.refresh_interval matches Some(t) ==> setting(settings, "refresh_interval"@)
            == JsonView::Text(t@),
    ensures
        settings_check(index, params, settings) is Ok,
{
    if params.replicas is Some {
        law_a_number_in_a_string_reads_as_the_number(params.replicas->0 as u64);
    }
    if params.ef_search is Some {
        law_a_number_in_a_string_reads_as_the_number(params.ef_search->0 as u64);
    }
    if params.shards is Some {
        law_a_number_in_a_string_reads_as_the_number(params.shards->0 as u64);
    }
}

/// A live field has everything that is configured for it: the space always, and the dimension, the
/// datatype, the mode, the compression level and the method where they are set.
pub open spec fn as_configured(
    name: Seq<char>,
    spec_: VectorSpec,
    params: OpenSearchParams,
    field: JsonView,
) -> bool {
    let mode = workload_mode(option_text(params.mode));
    &&& space_type(name, option_text(spec_.distance)) == Ok::<Seq<char>, ConfigErrorView>(
        or_empty(space_of(field)),
    )
    &&& spec_.size matches Some(n) ==> at(field, "dimension"@) == number(n)
    &&& spec_.datatype is Some ==> data_type(name, option_text(spec_.datatype)) == Ok::<
        Option<Seq<char>>,
        ConfigErrorView,
    >(live_data_type(field))
    &&& mode is Ok
    &&& field_mode(mode->Ok_0, spec_.on_disk) matches Some(m) ==> at(field, "mode"@)
        == JsonView::Text(m)
    &&& params.compression_level is Some ==> compression(option_text(params.compression_level))
        == Ok::<Option<Seq<char>>, ConfigErrorView>(text_of(at(field, "compression_level"@)))
    &&& params.method matches Some(m) ==> {
        &&& engine_name(option_text(m.engine)) == Ok::<Seq<char>, ConfigErrorView>(
            or_empty(text_of(at(at(field, "method"@), "engine"@))),
        )
        &&& reports(m, at(field, "method"@))
    }
}

/// The live settings have everything that is configured for them.
pub open spec fn settings_as_configured(params: OpenSearchParams, settings: JsonView) -> bool {
    &&& params.shards matches Some(n) ==> setting_number(setting(settings, "number_of_shards"@))
        == Some(n as u64)
    &&& params.replicas matches Some(n) ==> setting_number(
        setting(settings, "number_of_replicas"@),
    ) == Some(n as u64)
    &&& params.ef_search matches Some(n) ==> setting_number(
        setting(settings, "knn.algo_param.ef_search"@),
    ) == Some(n as u64)
    &&& params.refresh_interval matches Some(t) ==> setting(settings, "refresh_interval"@)
        == JsonView::Text(t@)
}

/// A mapping that passes the check has every expected vector with everything that is configured
/// for it.
pub proof fn law_a_checked_mapping_is_as_configured(
    index: Seq<char>,
    params: OpenSearchParams,
    expected: Seq<(String, VectorSpec)>,
    props: JsonView,
    i: int,
)
    requires
        mapping_check(index, params, expected, props) is Ok,
        0 <= i < expected.len(),
    ensures
        as_configured(expected[i].0@, expected[i].1, params, at(props, expected[i].0@)),
{
    law_the_check_passes_if_every_field_does(index, params, expected, props);
    assert(field_check(
        index,
        params,
        expected[i].0@,
        expected[i].1,
        at(props, expected[i].0@),
    ) is Ok);
}

/// Settings pass the check exactly if everything that is configured for them is there.
pub proof fn law_checked_settings_are_as_configured(
    index: Seq<char>,
    params: OpenSearchParams,
    settings: JsonView,
)
    ensures
        settings_check(index, params, settings) is Ok <==> settings_as_configured(
            params,
            settings,
        ),
{
}

/// Where the guard passes, every field can stay as it is.
proof fn lemma_guarded_field(
    index: Seq<char>,
    params: OpenSearchParams,
    vectors: Seq<(String, VectorSpec)>,
    props: JsonView,
    i: int,
)
    requires
        guard(index, params, vectors, props) is Ok,
        0 <= i < vectors.len(),
    ensures
        unchanged_check(index, params, vectors[i].0@, vectors[i].1, at(props, vectors[i].0@)) is Ok,
    decreases vectors.len(),
{
    if i < vectors.len() - 1 {
        lemma_guarded_field(index, params, vectors.drop_last(), props, i);
    }
}

/// A change in place that is not refused asks to change nothing that is fixed at creation: neither
/// an attribute or the method of a field, nor the number of shards.
pub proof fn law_what_is_fixed_is_not_changed(
    index: Seq<char>,
    params: OpenSearchParams,
    vectors: Seq<(String, VectorSpec)>,
    props: JsonView,
    settings: JsonView,
    i: int,
)
    requires
        reindexed(index, params, vectors, props, settings) is Ok,
    ensures
        0 <= i < vectors.len() ==> as_configured(
            vectors[i].0@,
            vectors[i].1,
            params,
            at(props, vectors[i].0@),
        ) && (params.method matches Some(m) ==> method_object(m) is Ok && satisfies(
            method_object(m)->Ok_0,
            at(at(props, vectors[i].0@), "method"@),
        )),
        params.shards matches Some(n) ==> setting_number(setting(settings, "number_of_shards"@))
            == Some(n as u64),
{
    law_what_the_guard_accepts_passes_the_check(index, params, vectors, props);
    if 0 <= i < vectors.len() {
        law_a_checked_mapping_is_as_configured(index, params, vectors, props, i);
        lemma_guarded_field(index, params, vectors, props, i);
    }
}

/// One live value has all members of another, with their values, and may have more.
pub open spec fn extends(small: JsonView, large: JsonView) -> bool {
    small matches JsonView::Object(s) ==> {
        &&& large is Object
        &&& forall|k: Seq<char>| #[trigger]
            s.dom().contains(k) ==> large->Object_0.dom().contains(k) && large->Object_0[k] == s[k]
    }
}

proof fn lemma_covers_more(want: Members, small: JsonView, large: JsonView)
    requires
        covers(want, small),
        extends(small, large),
    ensures
        covers(want, large),
{
    assert forall|k: Seq<char>| #[trigger] want.dom().contains(k) implies {
        &&& large is Object
        &&& large->Object_0.dom().contains(k)
        &&& same_json(large->Object_0[k], want[k])
    } by {
        assert(small->Object_0.dom().contains(k));
    }
}

/// What the server fills in does not matter for the check: a method that is reported stays so with
/// more parameters, of its own and of its encoder.
pub proof fn law_what_the_server_fills_in_is_not_looked_at(
    method: MethodConfig,
    name: JsonView,
    parameters: Members,
    more_parameters: Members,
    encoder: Members,
    more_encoder: Members,
)
    requires
        reports(method, method_with(name, parameters, encoder)),
        extends(JsonView::Object(parameters), JsonView::Object(more_parameters)),
        at(JsonView::Object(encoder), "name"@) == at(JsonView::Object(more_encoder), "name"@),
        extends(
            at(JsonView::Object(encoder), "parameters"@),
            at(JsonView::Object(more_encoder), "parameters"@),
        ),
    ensures
        reports(method, method_with(name, more_parameters, more_encoder)),
{
    lemma_method_keys();
    let a = method_with(name, parameters, encoder);
    let b = method_with(name, more_parameters, more_encoder);
    let pa = at(a, "parameters"@);
    let pb = at(b, "parameters"@);
    let knobs = method_knobs(method);
    assert forall|k: Seq<char>| #[trigger] knobs.dom().contains(k) implies {
        &&& pb is Object
        &&& pb->Object_0.dom().contains(k)
        &&& same_json(pb->Object_0[k], knobs[k])
    } by {
        assert(covers(knobs, pa));
        assert(k != "encoder"@);
        assert(parameters.dom().contains(k));
        assert(pa->Object_0[k] == parameters[k]);
        assert(JsonView::Object(parameters)->Object_0.dom().contains(k));
        assert(pb->Object_0[k] == more_parameters[k]);
    }
    match method.encoder {
        None => {},
        Some(enc) => {
            lemma_covers_more(
                encoder_parameters(enc),
                at(JsonView::Object(encoder), "parameters"@),
                at(JsonView::Object(more_encoder), "parameters"@),
            );
        },
    }
}

/// A live method with a name, some parameters and an encoder.
pub open spec fn method_with(name: JsonView, parameters: Members, encoder: Members) -> JsonView {
    JsonView::Object(
        Map::empty().insert("name"@, name).insert(
            "parameters"@,
            JsonView::Object(parameters.insert("encoder"@, JsonView::Object(encoder))),
        ),
    )
}

} // verus!
