//! JSON values: the request bodies that are sent and the responses that are read.
use crate::text::{lemma_text_order, same_text, sorts_before, text_before};
use vstd::prelude::*;
use vstd::string::*;

verus! {

/// A JSON number. A number with a fraction or an exponent is kept as the shortest text that writes
/// the double it is.
#[derive(Debug)]
pub enum JsonNumber {
    PosInt(u64),
    /// A negative integer.
    NegInt(i64),
    Float(String),
}

/// A JSON value.
#[derive(Debug)]
pub enum Json {
    Null,
    Bool(bool),
    Number(JsonNumber),
    Text(String),
    Array(Vec<Json>),
    Object(JsonObject),
}

/// The members of a JSON object, held in the order of their keys, each key once.
#[derive(Debug)]
pub struct JsonObject {
    entries: Vec<(String, Json)>,
}

/// The model of a `JsonNumber`.
pub enum NumberView {
    PosInt(u64),
    NegInt(i64),
    Float(Seq<char>),
}

/// The model of a `Json` value: an object is a map from keys to values.
pub enum JsonView {
    Null,
    Bool(bool),
    Number(NumberView),
    Text(Seq<char>),
    Array(Seq<JsonView>),
    Object(Map<Seq<char>, JsonView>),
}

impl View for JsonNumber {
    type V = NumberView;

    open spec fn view(&self) -> NumberView {
        match *self {
            JsonNumber::PosInt(n) => NumberView::PosInt(n),
            JsonNumber::NegInt(n) => NumberView::NegInt(n),
            JsonNumber::Float(t) => NumberView::Float(t@),
        }
    }
}

/// The model of a JSON value.
pub open spec fn json_view(j: Json) -> JsonView
    decreases j,
{
    match j {
        Json::Null => JsonView::Null,
        Json::Bool(b) => JsonView::Bool(b),
        Json::Number(n) => JsonView::Number(n@),
        Json::Text(s) => JsonView::Text(s@),
        Json::Array(items) => JsonView::Array(items_view(items@)),
        Json::Object(o) => JsonView::Object(object_view(o)),
    }
}

/// The model of a sequence of JSON values.
pub open spec fn items_view(items: Seq<Json>) -> Seq<JsonView>
    decreases items,
{
    Seq::new(
        items.len(),
        |i: int|
            if 0 <= i < items.len() {
                json_view(items[i])
            } else {
                JsonView::Null
            },
    )
}

/// The members of an object as a map.
pub closed spec fn object_view(o: JsonObject) -> Map<Seq<char>, JsonView>
    decreases o,
{
    entries_view(o.entries@)
}

spec fn entries_view(entries: Seq<(String, Json)>) -> Map<Seq<char>, JsonView>
    decreases entries,
{
    if entries.len() == 0 {
        Map::empty()
    } else {
        let last = entries[entries.len() - 1];
        entries_view(entries.subrange(0, entries.len() - 1)).insert(last.0@, json_view(last.1))
    }
}

impl View for Json {
    type V = JsonView;

    open spec fn view(&self) -> JsonView {
        json_view(*self)
    }
}

impl View for JsonObject {
    type V = Map<Seq<char>, JsonView>;

    open spec fn view(&self) -> Map<Seq<char>, JsonView> {
        object_view(*self)
    }
}

/// `keys` holds the keys of `dom`, each once, in the order of strings.
pub open spec fn key_order(keys: Seq<Seq<char>>, dom: Set<Seq<char>>) -> bool {
    &&& forall|i: int, j: int| 0 <= i < j < keys.len() ==> text_before(keys[i], keys[j])
    &&& forall|k: Seq<char>| keys.contains(k) <==> dom.contains(k)
}

impl JsonNumber {
    /// A copy of the number.
    pub fn copied(&self) -> (r: JsonNumber)
        ensures
            r@ == self@,
    {
        match self {
            JsonNumber::PosInt(n) => JsonNumber::PosInt(*n),
            JsonNumber::NegInt(n) => JsonNumber::NegInt(*n),
            JsonNumber::Float(t) => JsonNumber::Float(t.clone()),
        }
    }

    /// Whether two numbers are equal: integers by value, others by their text, but that a zero
    /// equals a negative zero.
    pub fn same(&self, other: &JsonNumber) -> (r: bool)
        ensures
            r == same_number(self@, other@),
    {
        match (self, other) {
            (JsonNumber::PosInt(a), JsonNumber::PosInt(b)) => *a == *b,
            (JsonNumber::NegInt(a), JsonNumber::NegInt(b)) => *a == *b,
            (JsonNumber::Float(a), JsonNumber::Float(b)) => same_text(a.as_str(), b.as_str())
                || (is_zero(a.as_str()) && is_zero(b.as_str())),
            _ => false,
        }
    }
}

/// Whether a text writes a zero with a fraction.
pub open spec fn zero_text(t: Seq<char>) -> bool {
    t == "0.0"@ || t == "-0.0"@
}

fn is_zero(t: &str) -> (r: bool)
    ensures
        r == zero_text(t@),
{
    same_text(t, "0.0") || same_text(t, "-0.0")
}

/// Equality of numbers: by kind and value; `0.0` and `-0.0` are equal.
pub open spec fn same_number(a: NumberView, b: NumberView) -> bool {
    match (a, b) {
        (NumberView::PosInt(x), NumberView::PosInt(y)) => x == y,
        (NumberView::NegInt(x), NumberView::NegInt(y)) => x == y,
        (NumberView::Float(x), NumberView::Float(y)) => x == y || (zero_text(x) && zero_text(y)),
        _ => false,
    }
}

/// Equality of JSON values: the order of an object's members does not matter.
pub open spec fn same_json(a: JsonView, b: JsonView) -> bool
    decreases a,
{
    match (a, b) {
        (JsonView::Null, JsonView::Null) => true,
        (JsonView::Bool(x), JsonView::Bool(y)) => x == y,
        (JsonView::Number(x), JsonView::Number(y)) => same_number(x, y),
        (JsonView::Text(x), JsonView::Text(y)) => x == y,
        (JsonView::Array(x), JsonView::Array(y)) => {
            &&& x.len() == y.len()
            &&& forall|i: int| 0 <= i < x.len() ==> same_json(#[trigger] x[i], y[i])
        },
        (JsonView::Object(x), JsonView::Object(y)) => {
            &&& x.dom() == y.dom()
            &&& forall|k: Seq<char>| x.dom().contains(k) ==> same_json(#[trigger] x[k], y[k])
        },
        _ => false,
    }
}

/// Every value equals itself.
pub proof fn lemma_same_json_reflexive(v: JsonView)
    ensures
        same_json(v, v),
    decreases v,
{
    match v {
        JsonView::Array(items) => {
            assert forall|i: int| 0 <= i < items.len() implies same_json(
                #[trigger] items[i],
                items[i],
            ) by {
                lemma_same_json_reflexive(items[i]);
            }
        },
        JsonView::Object(m) => {
            assert forall|k: Seq<char>| m.dom().contains(k) implies same_json(
                #[trigger] m[k],
                m[k],
            ) by {
                lemma_same_json_reflexive(m[k]);
            }
        },
        _ => {},
    }
}

spec fn entry_keys(entries: Seq<(String, Json)>) -> Seq<Seq<char>> {
    Seq::new(entries.len(), |i: int| entries[i].0@)
}

spec fn sorted_entries(entries: Seq<(String, Json)>) -> bool {
    forall|i: int, j: int|
        0 <= i < j < entries.len() ==> text_before(#[trigger] entries[i].0@, #[trigger] entries[j].0@)
}

/// The map of sorted entries has their keys, and each key the value beside it.
proof fn lemma_entries_view(entries: Seq<(String, Json)>)
    requires
        sorted_entries(entries),
    ensures
        forall|k: Seq<char>|
            #[trigger] entries_view(entries).dom().contains(k) <==> entry_keys(entries).contains(k),
        forall|i: int|
            0 <= i < entries.len() ==> entries_view(entries)[#[trigger] entries[i].0@] == json_view(
                entries[i].1,
            ),
    decreases entries.len(),
{
    lemma_text_order();
    if entries.len() > 0 {
        let rest = entries.subrange(0, entries.len() - 1);
        let last = entries[entries.len() - 1];
        lemma_entries_view(rest);
        assert forall|i: int| 0 <= i < entries.len() implies entries_view(
            entries,
        )[#[trigger] entries[i].0@] == json_view(entries[i].1) by {
            if i < entries.len() - 1 {
                assert(rest[i] == entries[i]);
                assert(text_before(entries[i].0@, last.0@));
            }
        }
        assert forall|k: Seq<char>| #[trigger]
            entries_view(entries).dom().contains(k) <==> entry_keys(entries).contains(k) by {
            if entry_keys(rest).contains(k) {
                let i = entry_keys(rest).index_of(k);
                assert(entry_keys(entries)[i] == k);
            }
            if k == last.0@ {
                assert(entry_keys(entries)[entries.len() - 1] == k);
            }
            if entry_keys(entries).contains(k) && k != last.0@ {
                let i = entry_keys(entries).index_of(k);
                assert(entry_keys(rest)[i] == k);
            }
        }
    }
}

/// Sorted entries with a new key put in its place are sorted, and their map has the new member.
proof fn lemma_entries_insert(entries: Seq<(String, Json)>, at: int, entry: (String, Json))
    requires
        sorted_entries(entries),
        0 <= at <= entries.len(),
        forall|i: int| 0 <= i < at ==> text_before(#[trigger] entries[i].0@, entry.0@),
        forall|i: int| at <= i < entries.len() ==> text_before(entry.0@, #[trigger] entries[i].0@),
    ensures
        sorted_entries(entries.insert(at, entry)),
        entries_view(entries.insert(at, entry)) == entries_view(entries).insert(
            entry.0@,
            json_view(entry.1),
        ),
{
    let grown = entries.insert(at, entry);
    lemma_text_order();
    assert forall|i: int, j: int| 0 <= i < j < grown.len() implies text_before(
        #[trigger] grown[i].0@,
        #[trigger] grown[j].0@,
    ) by {
        let oi = if i < at { i } else { i - 1 };
        let oj = if j < at { j } else { j - 1 };
        if i != at {
            assert(grown[i] == entries[oi]);
        }
        if j != at {
            assert(grown[j] == entries[oj]);
        }
    }
    lemma_entries_view(entries);
    lemma_entries_view(grown);
    let want = entries_view(entries).insert(entry.0@, json_view(entry.1));
    assert forall|k: Seq<char>| #[trigger]
        entries_view(grown).dom().contains(k) <==> want.dom().contains(k) by {
        if entry_keys(grown).contains(k) {
            let i = entry_keys(grown).index_of(k);
            if i < at {
                assert(entry_keys(entries)[i] == k);
            } else if i > at {
                assert(entry_keys(entries)[i - 1] == k);
            }
        }
        if entry_keys(entries).contains(k) {
            let i = entry_keys(entries).index_of(k);
            if i < at {
                assert(entry_keys(grown)[i] == k);
            } else {
                assert(entry_keys(grown)[i + 1] == k);
            }
        }
        if k == entry.0@ {
            assert(entry_keys(grown)[at] == k);
        }
    }
    assert forall|k: Seq<char>| #[trigger] want.dom().contains(k) implies entries_view(grown)[k]
        == want[k] by {
        assert(entries_view(grown).dom().contains(k));
        let i = entry_keys(grown).index_of(k);
        if i < at {
            assert(grown[i] == entries[i]);
            assert(text_before(entries[i].0@, entry.0@));
        } else if i > at {
            assert(grown[i] == entries[i - 1]);
            assert(text_before(entry.0@, entries[i - 1].0@));
        } else {
            assert(grown[at] == entry);
        }
    }
    assert(entries_view(grown) =~= want);
}

/// Sorted entries in which the value of a key was replaced.
proof fn lemma_entries_replace(entries: Seq<(String, Json)>, at: int, entry: (String, Json))
    requires
        sorted_entries(entries),
        0 <= at < entries.len(),
        entries[at].0@ == entry.0@,
    ensures
        sorted_entries(entries.update(at, entry)),
        entries_view(entries.update(at, entry)) == entries_view(entries).insert(
            entry.0@,
            json_view(entry.1),
        ),
{
    let changed = entries.update(at, entry);
    lemma_text_order();
    assert forall|i: int| 0 <= i < entries.len() implies #[trigger] changed[i].0@
        == entries[i].0@ by {}
    assert(sorted_entries(changed));
    lemma_entries_view(entries);
    lemma_entries_view(changed);
    assert(entry_keys(changed) =~= entry_keys(entries));
    assert(entry_keys(entries)[at] == entry.0@);
    let want = entries_view(entries).insert(entry.0@, json_view(entry.1));
    assert forall|k: Seq<char>| #[trigger] want.dom().contains(k) implies entries_view(changed)[k]
        == want[k] by {
        assert(entry_keys(changed).contains(k));
        let i = entry_keys(changed).index_of(k);
        assert(changed[i].0@ == k);
        if i != at {
            assert(changed[i] == entries[i]);
            assert(text_before(entries[i].0@, entries[at].0@) || text_before(
                entries[at].0@,
                entries[i].0@,
            ));
        } else {
            assert(changed[at] == entry);
        }
    }
    assert(entries_view(changed) =~= want);
}

impl JsonObject {
    #[verifier::type_invariant]
    spec fn in_order(self) -> bool {
        sorted_entries(self.entries@)
    }

    /// The keys of the object in the order of strings.
    pub closed spec fn keys(&self) -> Seq<Seq<char>> {
        entry_keys(self.entries@)
    }

    /// An object without members.
    pub fn new() -> (r: JsonObject)
        ensures
            r@ == Map::<Seq<char>, JsonView>::empty(),
    {
        JsonObject { entries: Vec::new() }
    }

    /// The number of members.
    pub fn len(&self) -> (r: usize)
        ensures
            r == self.keys().len(),
            key_order(self.keys(), self@.dom()),
    {
        proof {
            use_type_invariant(self);
            lemma_entries_view(self.entries@);
        }
        self.entries.len()
    }

    /// The member at a position in the order of the keys.
    pub fn entry(&self, i: usize) -> (r: (&str, &Json))
        requires
            i < self.keys().len(),
        ensures
            r.0@ == self.keys()[i as int],
            self@.dom().contains(r.0@),
            r.1@ == self@[r.0@],
            decreases_to!(self => r.1),
    {
        proof {
            use_type_invariant(self);
            lemma_entries_view(self.entries@);
            assert(entry_keys(self.entries@)[i as int] == self.entries@[i as int].0@);
        }
        let e = &self.entries[i];
        (e.0.as_str(), &e.1)
    }

    /// The position of a key: that of its member, or where it would have to be put.
    fn position(&self, key: &str) -> (r: (bool, usize))
        ensures
            r.0 ==> r.1 < self.entries@.len() && self.entries@[r.1 as int].0@ == key@,
            !r.0 ==> {
                &&& r.1 <= self.entries@.len()
                &&& forall|i: int|
                    0 <= i < r.1 ==> text_before(#[trigger] self.entries@[i].0@, key@)
                &&& forall|i: int|
                    r.1 <= i < self.entries@.len() ==> text_before(
                        key@,
                        #[trigger] self.entries@[i].0@,
                    )
            },
    {
        proof {
            use_type_invariant(self);
            lemma_text_order();
        }
        let mut i: usize = 0;
        while i < self.entries.len()
            invariant
                i <= self.entries@.len(),
                sorted_entries(self.entries@),
                forall|a: Seq<char>, b: Seq<char>, c: Seq<char>|
                    #[trigger] text_before(a, b) && #[trigger] text_before(b, c) ==> text_before(
                        a,
                        c,
                    ),
                forall|a: Seq<char>, b: Seq<char>|
                    #[trigger] text_before(a, b) || text_before(b, a) || a == b,
                forall|j: int| 0 <= j < i ==> text_before(#[trigger] self.entries@[j].0@, key@),
            decreases self.entries@.len() - i,
        {
            let here = self.entries[i].0.as_str();
            if same_text(here, key) {
                return (true, i);
            }
            if sorts_before(key, here) {
                return (false, i);
            }
            assert(text_before(here@, key@) || text_before(key@, here@));
            i += 1;
        }
        (false, i)
    }

    /// The value of a member.
    pub fn get(&self, key: &str) -> (r: Option<&Json>)
        ensures
            match r {
                Some(v) => self@.dom().contains(key@) && v@ == self@[key@],
                None => !self@.dom().contains(key@),
            },
    {
        proof {
            use_type_invariant(self);
            lemma_entries_view(self.entries@);
            lemma_text_order();
        }
        let (found, at) = self.position(key);
        if found {
            assert(entry_keys(self.entries@)[at as int] == key@);
            Some(&self.entries[at].1)
        } else {
            proof {
                if entry_keys(self.entries@).contains(key@) {
                    let i = entry_keys(self.entries@).index_of(key@);
                    assert(self.entries@[i].0@ == key@);
                }
            }
            None
        }
    }

    /// Adds a member; a member with the same key is replaced.
    pub fn insert(&mut self, key: String, value: Json)
        ensures
            final(self)@ == old(self)@.insert(key@, value@),
    {
        let (found, at) = self.position(key.as_str());
        proof {
            use_type_invariant(&*self);
        }
        let mut entries: Vec<(String, Json)> = Vec::new();
        std::mem::swap(&mut entries, &mut self.entries);
        if found {
            proof {
                lemma_entries_replace(entries@, at as int, (key, value));
            }
            entries[at] = (key, value);
        } else {
            proof {
                lemma_entries_insert(entries@, at as int, (key, value));
            }
            entries.insert(at, (key, value));
        }
        self.entries = entries;
    }
}

/// The member of a value under a key; null where there is none.
pub open spec fn at(v: JsonView, key: Seq<char>) -> JsonView {
    match v {
        JsonView::Object(m) if m.dom().contains(key) => m[key],
        _ => JsonView::Null,
    }
}

/// The string that a value is, if it is one.
pub open spec fn text_of(v: JsonView) -> Option<Seq<char>> {
    match v {
        JsonView::Text(s) => Some(s),
        _ => None,
    }
}

/// The boolean that a value is, if it is one.
pub open spec fn bool_of(v: JsonView) -> Option<bool> {
    match v {
        JsonView::Bool(b) => Some(b),
        _ => None,
    }
}

/// The unsigned integer that a value is, if it is one.
pub open spec fn unsigned_of(v: JsonView) -> Option<u64> {
    match v {
        JsonView::Number(NumberView::PosInt(n)) => Some(n),
        _ => None,
    }
}

/// The signed integer that a value is, if it is one and in range.
pub open spec fn signed_of(v: JsonView) -> Option<i64> {
    match v {
        JsonView::Number(NumberView::PosInt(n)) => if n <= i64::MAX {
            Some(n as i64)
        } else {
            None
        },
        JsonView::Number(NumberView::NegInt(n)) => Some(n),
        _ => None,
    }
}

/// The number that a value is, if it is one.
pub open spec fn number_of(v: JsonView) -> Option<NumberView> {
    match v {
        JsonView::Number(n) => Some(n),
        _ => None,
    }
}

/// The items of a value, if it is an array.
pub open spec fn array_of(v: JsonView) -> Option<Seq<JsonView>> {
    match v {
        JsonView::Array(items) => Some(items),
        _ => None,
    }
}

impl Json {
    /// The member under a key, or null.
    pub fn index(&self, key: &str) -> (r: &Json)
        ensures
            r@ == at(self@, key@),
    {
        match self {
            Json::Object(o) => match o.get(key) {
                Some(v) => v,
                None => &Json::Null,
            },
            _ => &Json::Null,
        }
    }

    /// Whether the value is null.
    pub fn is_null(&self) -> (r: bool)
        ensures
            r == (self@ is Null),
    {
        match self {
            Json::Null => true,
            _ => false,
        }
    }

    /// The value as a string.
    pub fn as_str(&self) -> (r: Option<&str>)
        ensures
            match r {
                Some(s) => text_of(self@) == Some(s@),
                None => text_of(self@) is None,
            },
    {
        match self {
            Json::Text(s) => Some(s.as_str()),
            _ => None,
        }
    }

    /// The value as a boolean.
    pub fn as_bool(&self) -> (r: Option<bool>)
        ensures
            r == bool_of(self@),
    {
        match self {
            Json::Bool(b) => Some(*b),
            _ => None,
        }
    }

    /// The value as an unsigned integer.
    pub fn as_u64(&self) -> (r: Option<u64>)
        ensures
            r == unsigned_of(self@),
    {
        match self {
            Json::Number(JsonNumber::PosInt(n)) => Some(*n),
            _ => None,
        }
    }

    /// The value as a signed integer.
    pub fn as_i64(&self) -> (r: Option<i64>)
        ensures
            r == signed_of(self@),
    {
        match self {
            Json::Number(JsonNumber::PosInt(n)) => if *n <= 0x7fff_ffff_ffff_ffff {
                Some(*n as i64)
            } else {
                None
            },
            Json::Number(JsonNumber::NegInt(n)) => Some(*n),
            _ => None,
        }
    }

    /// The value as a number.
    pub fn as_number(&self) -> (r: Option<&JsonNumber>)
        ensures
            match r {
                Some(n) => number_of(self@) == Some(n@),
                None => number_of(self@) is None,
            },
    {
        match self {
            Json::Number(n) => Some(n),
            _ => None,
        }
    }

    /// The value as an array.
    pub fn as_array(&self) -> (r: Option<&Vec<Json>>)
        ensures
            match r {
                Some(items) => array_of(self@) == Some(items_view(items@)),
                None => array_of(self@) is None,
            },
    {
        match self {
            Json::Array(items) => Some(items),
            _ => None,
        }
    }

    /// Whether two values are equal.
    pub fn same(&self, other: &Json) -> (r: bool)
        ensures
            r == same_json(self@, other@),
        decreases self,
    {
        match (self, other) {
            (Json::Null, Json::Null) => true,
            (Json::Bool(a), Json::Bool(b)) => *a == *b,
            (Json::Number(a), Json::Number(b)) => a.same(b),
            (Json::Text(a), Json::Text(b)) => same_text(a.as_str(), b.as_str()),
            (Json::Array(a), Json::Array(b)) => {
                if a.len() != b.len() {
                    return false;
                }
                let mut i: usize = 0;
                while i < a.len()
                    invariant
                        i <= a@.len(),
                        a@.len() == b@.len(),
                        *self == Json::Array(*a),
                        self@ == JsonView::Array(items_view(a@)),
                        other@ == JsonView::Array(items_view(b@)),
                        forall|j: int|
                            0 <= j < i ==> same_json(
                                #[trigger] items_view(a@)[j],
                                items_view(b@)[j],
                            ),
                    decreases a@.len() - i,
                {
                    assert(items_view(a@)[i as int] == a@[i as int]@);
                    assert(items_view(b@)[i as int] == b@[i as int]@);
                    if !a[i].same(&b[i]) {
                        return false;
                    }
                    i += 1;
                }
                true
            },
            (Json::Object(a), Json::Object(b)) => {
                let n: usize = a.len();
                if n != b.len() {
                    proof {
                        if a@.dom() == b@.dom() {
                            lemma_key_order_unique(a.keys(), b.keys(), a@.dom());
                        }
                    }
                    return false;
                }
                let mut i: usize = 0;
                while i < n
                    invariant
                        i <= n,
                        n == a.keys().len(),
                        n == b.keys().len(),
                        key_order(a.keys(), a@.dom()),
                        key_order(b.keys(), b@.dom()),
                        *self == Json::Object(*a),
                        self@ == JsonView::Object(a@),
                        other@ == JsonView::Object(b@),
                        forall|j: int|
                            0 <= j < i ==> #[trigger] a.keys()[j] == b.keys()[j] && same_json(
                                a@[a.keys()[j]],
                                b@[a.keys()[j]],
                            ),
                    decreases n - i,
                {
                    let (ka, va) = a.entry(i);
                    let (kb, vb) = b.entry(i);
                    if !same_text(ka, kb) {
                        proof {
                            if a@.dom() == b@.dom() {
                                lemma_key_order_unique(a.keys(), b.keys(), a@.dom());
                            }
                        }
                        return false;
                    }
                    if !va.same(vb) {
                        return false;
                    }
                    i += 1;
                }
                proof {
                    assert(a.keys() =~= b.keys());
                    assert(a@.dom() =~= b@.dom());
                    assert forall|k: Seq<char>| a@.dom().contains(k) implies same_json(
                        #[trigger] a@[k],
                        b@[k],
                    ) by {
                        let j = a.keys().index_of(k);
                        assert(a.keys()[j] == k);
                    }
                }
                true
            },
            _ => false,
        }
    }
}

/// The keys of a set have one order only.
pub proof fn lemma_key_order_unique(a: Seq<Seq<char>>, b: Seq<Seq<char>>, dom: Set<Seq<char>>)
    requires
        key_order(a, dom),
        key_order(b, dom),
    ensures
        a == b,
    decreases a.len(),
{
    lemma_text_order();
    if a.len() == 0 {
        if b.len() > 0 {
            assert(b.contains(b[0]));
            assert(a.contains(b[0]));
        }
        assert(a =~= b);
    } else {
        assert(a.contains(a[a.len() - 1]));
        assert(b.contains(a[a.len() - 1]));
        let last_a = a[a.len() - 1];
        let last_b = b[b.len() - 1];
        assert(b.contains(last_b));
        assert(a.contains(last_b));
        let ia = a.index_of(last_b);
        let ib = b.index_of(last_a);
        if ia < a.len() - 1 {
            assert(text_before(last_b, last_a));
            if ib < b.len() - 1 {
                assert(text_before(last_a, last_b));
            }
        }
        assert(last_a == last_b);
        let ra = a.drop_last();
        let rb = b.drop_last();
        let rest = dom.remove(last_a);
        assert forall|k: Seq<char>| ra.contains(k) <==> rest.contains(k) by {
            if ra.contains(k) {
                let i = ra.index_of(k);
                assert(a[i] == k);
                assert(text_before(a[i], last_a));
            }
            if rest.contains(k) {
                let i = a.index_of(k);
                assert(ra[i] == k);
            }
        }
        assert forall|k: Seq<char>| rb.contains(k) <==> rest.contains(k) by {
            if rb.contains(k) {
                let i = rb.index_of(k);
                assert(b[i] == k);
                assert(text_before(b[i], last_b));
            }
            if rest.contains(k) {
                assert(b.contains(k));
                let i = b.index_of(k);
                assert(rb[i] == k);
            }
        }
        assert forall|i: int, j: int| 0 <= i < j < ra.len() implies text_before(ra[i], ra[j]) by {
            assert(text_before(a[i], a[j]));
        }
        assert forall|i: int, j: int| 0 <= i < j < rb.len() implies text_before(rb[i], rb[j]) by {
            assert(text_before(b[i], b[j]));
        }
        lemma_key_order_unique(ra, rb, rest);
        assert(a =~= ra.push(last_a));
        assert(b =~= rb.push(last_b));
    }
}

} // verus!
