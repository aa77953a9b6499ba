//! A small map from header names to values, kept as an association list
//! in insertion order.  Keys keep the case they were inserted with, and
//! inserting an existing key overwrites its value in place: the last
//! write wins.

use crate::assoc::key_index;
use crate::assoc::lemma_key_index_is;
use crate::assoc::lemma_map_of_pairs_absent;
use crate::assoc::lemma_map_of_pairs_get;
use crate::assoc::lemma_map_of_pairs_update;
use crate::assoc::map_of_pairs;
use crate::text::str_eq;
use vstd::prelude::*;

verus! {

/// A mutable mapping of header names to values.
pub struct HeaderMap {
    entries: Vec<(String, String)>,
}

impl View for HeaderMap {
    type V = Map<Seq<char>, Seq<char>>;

    /// The map a header collection denotes.
    closed spec fn view(&self) -> Map<Seq<char>, Seq<char>> {
        map_of_pairs(self.entries_view())
    }
}

impl HeaderMap {
    /// The entries in storage order, as character sequences.
    pub closed spec fn entries_view(&self) -> Seq<(Seq<char>, Seq<char>)> {
        Seq::new(self.entries@.len(), |i: int| (self.entries@[i].0@, self.entries@[i].1@))
    }

    /// No two entries share a name.
    pub open spec fn wf(&self) -> bool {
        forall|p: int, q: int|
            0 <= p < q < self.entries_view().len() ==> #[trigger] self.entries_view()[p].0
                != #[trigger] self.entries_view()[q].0
    }

    /// An empty header collection.
    pub fn new() -> (r: HeaderMap)
        ensures
            r@ == Map::<Seq<char>, Seq<char>>::empty(),
            r.entries_view() =~= Seq::<(Seq<char>, Seq<char>)>::empty(),
            r.wf(),
    {
        let r = HeaderMap { entries: Vec::new() };
        proof {
            assert(r.entries_view() =~= Seq::<(Seq<char>, Seq<char>)>::empty());
        }
        r
    }

    /// How many distinct names are present.
    pub fn len(&self) -> (r: usize)
        ensures
            r == self.entries_view().len(),
    {
        self.entries.len()
    }

    /// The name of the entry at position `i`, in insertion order.
    pub fn key_at(&self, i: usize) -> (r: &String)
        requires
            i < self.entries_view().len(),
        ensures
            r@ == self.entries_view()[i as int].0,
    {
        &self.entries[i].0
    }

    /// The value of the entry at position `i`, in insertion order.
    pub fn value_at(&self, i: usize) -> (r: &String)
        requires
            i < self.entries_view().len(),
        ensures
            r@ == self.entries_view()[i as int].1,
    {
        &self.entries[i].1
    }

    /// Insert-or-overwrite: a new name is appended, an existing one
    /// keeps its position and takes the new value.
    pub fn insert(&mut self, key: String, value: String)
        requires
            old(self).wf(),
        ensures
            final(self).wf(),
            final(self)@ == old(self)@.insert(key@, value@),
            final(self).entries_view() == if key_index(old(self).entries_view(), key@) < old(
                self,
            ).entries_view().len() {
                old(self).entries_view().update(
                    key_index(old(self).entries_view(), key@),
                    (key@, value@),
                )
            } else {
                old(self).entries_view().push((key@, value@))
            },
    {
        let ghost es0 = self.entries_view();
        let n = self.entries.len();
        let mut i: usize = 0;
        while i < n
            invariant
                i <= n,
                n == self.entries@.len(),
                self.entries_view() == es0,
                es0 == old(self).entries_view(),
                old(self).wf(),
                forall|j: int| 0 <= j < i ==> #[trigger] self.entries_view()[j].0 != key@,
            decreases n - i,
        {
            if str_eq(self.entries[i].0.as_str(), key.as_str()) {
                proof {
                    lemma_key_index_is(es0, key@, i as int);
                    lemma_map_of_pairs_update(es0, i as int, value@);
                }
                self.entries[i] = (key, value);
                proof {
                    assert(self.entries_view() =~= es0.update(i as int, (key@, value@)));
                }
                return ;
            }
            i = i + 1;
        }
        proof {
            lemma_key_index_is(es0, key@, n as int);
            lemma_map_of_pairs_absent(es0, key@);
        }
        self.entries.push((key, value));
        proof {
            assert(self.entries_view() =~= es0.push((key@, value@)));
            assert(self.entries_view().drop_last() =~= es0);
        }
    }

    /// Looks a name up, case-sensitively.
    pub fn get(&self, key: &str) -> (r: Option<&String>)
        requires
            self.wf(),
        ensures
            match r {
                Some(v) => self@.contains_key(key@) && v@ == self@[key@],
                None => !self@.contains_key(key@),
            },
    {
        let n = self.entries.len();
        let mut i: usize = 0;
        while i < n
            invariant
                i <= n,
                n == self.entries@.len(),
                self.wf(),
                forall|j: int| 0 <= j < i ==> #[trigger] self.entries_view()[j].0 != key@,
            decreases n - i,
        {
            if str_eq(self.entries[i].0.as_str(), key) {
                proof {
                    lemma_map_of_pairs_get(self.entries_view(), i as int);
                }
                return Some(&self.entries[i].1);
            }
            i = i + 1;
        }
        proof {
            lemma_map_of_pairs_absent(self.entries_view(), key@);
        }
        None
    }
}

} // verus!
