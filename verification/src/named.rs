//! Values under names, each name once.
use crate::text::same_text;
use vstd::prelude::*;

verus! {

/// The names of some entries differ from each other.
pub open spec fn distinct<T>(entries: Seq<(String, T)>) -> bool {
    forall|i: int, j: int|
        0 <= i < j < entries.len() ==> #[trigger] entries[i].0@ != #[trigger] entries[j].0@
}

/// Values under names, each name once, in the order in which they are walked.
#[derive(Debug)]
pub struct Named<T> {
    entries: Vec<(String, T)>,
}

impl<T> View for Named<T> {
    type V = Seq<(String, T)>;

    closed spec fn view(&self) -> Seq<(String, T)> {
        self.entries@
    }
}

/// The entry at a position has a name.
pub open spec fn named_at<T>(entries: Seq<(String, T)>, name: Seq<char>, i: int) -> bool {
    0 <= i < entries.len() && entries[i].0@ == name
}

/// No entry has a name.
pub open spec fn unnamed<T>(entries: Seq<(String, T)>, name: Seq<char>) -> bool {
    forall|i: int| 0 <= i < entries.len() ==> #[trigger] entries[i].0@ != name
}

impl<T> Named<T> {
    #[verifier::type_invariant]
    spec fn each_name_once(self) -> bool {
        distinct(self.entries@)
    }

    /// No entries.
    pub fn new() -> (r: Named<T>)
        ensures
            r@ == Seq::<(String, T)>::empty(),
    {
        Named { entries: Vec::new() }
    }

    /// The number of entries.
    pub fn len(&self) -> (r: usize)
        ensures
            r == self@.len(),
            distinct(self@),
    {
        proof {
            use_type_invariant(self);
        }
        self.entries.len()
    }

    /// The entry at a position.
    pub fn entry(&self, i: usize) -> (r: (&str, &T))
        requires
            i < self@.len(),
        ensures
            r.0@ == self@[i as int].0@,
            *r.1 == self@[i as int].1,
    {
        let e = &self.entries[i];
        (e.0.as_str(), &e.1)
    }

    fn position(&self, name: &str) -> (r: Option<usize>)
        ensures
            match r {
                Some(i) => named_at(self@, name@, i as int),
                None => unnamed(self@, name@),
            },
    {
        let mut i: usize = 0;
        while i < self.entries.len()
            invariant
                i <= self.entries@.len(),
                forall|j: int| 0 <= j < i ==> #[trigger] self.entries@[j].0@ != name@,
            decreases self.entries@.len() - i,
        {
            if same_text(self.entries[i].0.as_str(), name) {
                return Some(i);
            }
            i += 1;
        }
        None
    }

    /// Adds an entry at the end; where the name is there already, its value is replaced.
    pub fn insert(&mut self, name: String, value: T)
        ensures
            forall|i: int|
                #[trigger] named_at(old(self)@, name@, i) ==> final(self)@ == old(self)@.update(
                    i,
                    (name, value),
                ),
            unnamed(old(self)@, name@) ==> final(self)@ == old(self)@.push(
                (name, value),
            ),
    {
        let found = self.position(name.as_str());
        proof {
            use_type_invariant(&*self);
        }
        let mut entries: Vec<(String, T)> = Vec::new();
        std::mem::swap(&mut entries, &mut self.entries);
        match found {
            Some(i) => {
                entries[i] = (name, value);
                proof {
                    assert forall|a: int, b: int|
                        0 <= a < b < entries@.len() implies #[trigger] entries@[a].0@
                        != #[trigger] entries@[b].0@ by {
                        assert(old(self)@[a].0@ != old(self)@[b].0@);
                    }
                    assert forall|k: int| #[trigger]
                        named_at(old(self)@, name@, k) implies k == i by {
                        if k < i {
                            assert(old(self)@[k].0@ != old(self)@[i as int].0@);
                        } else if k > i {
                            assert(old(self)@[i as int].0@ != old(self)@[k].0@);
                        }
                    }
                }
            },
            None => {
                entries.push((name, value));
            },
        }
        self.entries = entries;
    }
}

} // verus!
