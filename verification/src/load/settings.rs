//! The settings of a live index.
use crate::json::{lemma_key_order_unique, text_of, unsigned_of, Json, JsonObject, JsonView};
use crate::json_text::ordered;
use crate::text::{parse_u64, parsed, same_text};
use vstd::prelude::*;
use vstd::string::*;

verus! {

/// The dotted path of a member below a prefix.
pub open spec fn dotted_key(prefix: Seq<char>, key: Seq<char>) -> Seq<char> {
    if prefix.len() == 0 {
        key
    } else {
        prefix + "."@ + key
    }
}

/// The settings below a prefix, each under its dotted path. Where two members have the same path
/// the later one in the order of keys counts.
pub open spec fn flat(v: JsonView, prefix: Seq<char>) -> Map<Seq<char>, JsonView>
    decreases v, 1nat, 0nat,
{
    match v {
        JsonView::Object(m) => flat_members(v, prefix, ordered(m.dom()).len()),
        _ => Map::empty().insert(prefix, v),
    }
}

/// The settings of the first `n` members of an object.
pub open spec fn flat_members(v: JsonView, prefix: Seq<char>, n: nat) -> Map<Seq<char>, JsonView>
    decreases v, 0nat, n,
{
    match v {
        JsonView::Object(m) => {
            let key = ordered(m.dom())[n - 1];
            if n > 0 && m.dom().contains(key) {
                flat_members(v, prefix, (n - 1) as nat).union_prefer_right(
                    flat(m[key], dotted_key(prefix, key)),
                )
            } else {
                Map::empty()
            }
        },
        _ => Map::empty(),
    }
}

/// The setting at a dotted path; null where there is none.
pub open spec fn setting(settings: JsonView, dotted: Seq<char>) -> JsonView {
    let all = flat(settings, Seq::empty());
    if all.dom().contains(dotted) {
        all[dotted]
    } else {
        JsonView::Null
    }
}

/// A found setting, or that there is none.
pub open spec fn found_in(all: Map<Seq<char>, JsonView>, dotted: Seq<char>, r: Option<&Json>) -> bool {
    match r {
        Some(v) => all.dom().contains(dotted) && all[dotted] == v@,
        None => !all.dom().contains(dotted),
    }
}

fn find_setting<'a>(prefix: &str, value: &'a Json, dotted: &str) -> (r: Option<&'a Json>)
    ensures
        found_in(flat(value@, prefix@), dotted@, r),
    decreases value, 1nat,
{
    match value {
        Json::Object(o) => find_in_members(prefix, o, dotted),
        _ => if same_text(prefix, dotted) {
            Some(value)
        } else {
            None
        },
    }
}

fn find_in_members<'a>(prefix: &str, o: &'a JsonObject, dotted: &str) -> (r: Option<&'a Json>)
    ensures
        found_in(flat(JsonView::Object(o@), prefix@), dotted@, r),
    decreases o, 2nat,
{
    let n: usize = o.len();
    let ghost keys = o.keys();
    let ghost v = JsonView::Object(o@);
    assert(ordered(o@.dom()) == keys) by {
        lemma_key_order_unique(keys, ordered(o@.dom()), o@.dom());
    }
    let mut found: Option<&'a Json> = None;
    let mut i: usize = 0;
    while i < n
        invariant
            i <= n,
            n == keys.len(),
            keys == o.keys(),
            ordered(o@.dom()) == keys,
            v == JsonView::Object(o@),
            found_in(flat_members(v, prefix@, i as nat), dotted@, found),
        decreases n - i,
    {
        let (key, value) = o.entry(i);
        let below = if prefix.is_empty() {
            key.to_owned()
        } else {
            let mut p = prefix.to_owned();
            p.append(".");
            p.append(key);
            p
        };
        assert(below@ == dotted_key(prefix@, key@));
        match find_setting(below.as_str(), value, dotted) {
            Some(s) => {
                found = Some(s);
            },
            None => {},
        }
        i += 1;
    }
    found
}

/// Reads one setting by its dotted path. The server groups settings as it happens to store them:
/// `knn` and `knn.algo_param` can stand side by side, the second an object. Every grouping reads
/// the same here.
pub fn lookup_setting<'a>(settings: &'a Json, dotted: &str) -> (r: &'a Json)
    ensures
        r@ == setting(settings@, dotted@),
{
    proof {
        reveal_strlit("");
        assert(""@ =~= Seq::<char>::empty());
    }
    match find_setting("", settings, dotted) {
        Some(v) => v,
        None => &Json::Null,
    }
}

/// The number that a live setting is: as a number, or written in a string.
pub open spec fn setting_number(got: JsonView) -> Option<u64> {
    match unsigned_of(got) {
        Some(n) => Some(n),
        None => match text_of(got) {
            Some(s) => parsed(s),
            None => None,
        },
    }
}

/// Reads a live setting as a number. The server reports settings as strings.
pub fn setting_as_u64(got: &Json) -> (r: Option<u64>)
    ensures
        r == setting_number(got@),
{
    match got.as_u64() {
        Some(n) => Some(n),
        None => match got.as_str() {
            Some(s) => parse_u64(s),
            None => None,
        },
    }
}

} // verus!
