//! How the settings of a live index are read.
use crate::json::JsonView;
use crate::json_build::Members;
use crate::json_path::unsigned;
use crate::json_text::{lemma_ordered, ordered};
use crate::load::settings::{dotted_key, flat, flat_members, setting, setting_number};
use crate::text::{lemma_text_order, text_before};
use crate::text_laws::{law_texts_that_read_as_numbers, number_written, only_digits, without_plus};
use vstd::prelude::*;

verus! {

/// The path of a setting is its key, with the groups that it stands in before it, separated by dots.
pub proof fn law_paths_are_dotted(prefix: Seq<char>, key: Seq<char>)
    ensures
        dotted_key(Seq::empty(), key) == key,
        prefix.len() > 0 ==> dotted_key(prefix, key) == prefix + "."@ + key,
{
}

/// A setting reads as a number exactly if it is that number, or a text that writes it: a plus sign
/// or none, then digits and nothing else.
pub proof fn law_which_settings_read_as_numbers(got: JsonView, n: u64)
    ensures
        setting_number(got) == Some(n) <==> {
            ||| got == unsigned(n)
            ||| (got matches JsonView::Text(s) && {
                &&& without_plus(s).len() > 0
                &&& only_digits(without_plus(s))
                &&& number_written(without_plus(s)) == n
            })
        },
{
    match got {
        JsonView::Text(s) => {
            law_texts_that_read_as_numbers(s, n);
        },
        _ => {},
    }
}

/// Where several members hold a setting under one path, the last of them in the order of keys
/// counts.
pub proof fn law_the_last_of_several_counts(m: Members, key: Seq<char>, path: Seq<char>)
    requires
        m.dom().finite(),
        m.dom().contains(key),
        flat(m[key], key).dom().contains(path),
        forall|k: Seq<char>| #[trigger]
            m.dom().contains(k) && text_before(key, k) ==> !flat(m[k], k).dom().contains(path),
    ensures
        setting(JsonView::Object(m), path) == flat(m[key], key)[path],
{
    let keys = ordered(m.dom());
    lemma_ordered(m.dom());
    assert(keys.contains(key));
    let at_key = keys.index_of(key);
    lemma_last_counts(m, at_key, path, keys.len());
}

proof fn lemma_last_counts(m: Members, at_key: int, path: Seq<char>, n: nat)
    requires
        m.dom().finite(),
        0 <= at_key < n <= ordered(m.dom()).len(),
        m.dom().contains(ordered(m.dom())[at_key]),
        flat(m[ordered(m.dom())[at_key]], ordered(m.dom())[at_key]).dom().contains(path),
        forall|k: Seq<char>| #[trigger]
            m.dom().contains(k) && text_before(ordered(m.dom())[at_key], k) ==> !flat(
                m[k],
                k,
            ).dom().contains(path),
    ensures
        ({
            let key = ordered(m.dom())[at_key];
            let first = flat_members(JsonView::Object(m), Seq::empty(), n);
            first.dom().contains(path) && first[path] == flat(m[key], key)[path]
        }),
    decreases n,
{
    let keys = ordered(m.dom());
    lemma_ordered(m.dom());
    lemma_text_order();
    let here = keys[n - 1];
    assert(keys.contains(here));
    assert(m.dom().contains(here));
    assert(dotted_key(Seq::empty(), here) == here);
    if n - 1 > at_key {
        lemma_last_counts(m, at_key, path, (n - 1) as nat);
        assert(text_before(keys[at_key], here));
    }
}

} // verus!
