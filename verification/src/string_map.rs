//! A verified string-keyed map with insertion-ordered entries, used for
//! environment and configuration key/value collections.  Keys are unique;
//! re-inserting a key removes the old entry and appends the new one.
use crate::affinity::pairs_view;
use crate::strutil::str_eq;
use vstd::prelude::*;
use vstd::string::*;

verus! {

/// The value of the first entry with the given key, if any.
pub open spec fn spec_find(s: Seq<(Seq<char>, Seq<char>)>, k: Seq<char>) -> Option<Seq<char>>
    decreases s.len(),
{
    if s.len() == 0 {
        None
    } else if s[0].0 == k {
        Some(s[0].1)
    } else {
        spec_find(s.subrange(1, s.len() as int), k)
    }
}

/// The entries with any other key, in order.
pub open spec fn spec_remove_key(
    s: Seq<(Seq<char>, Seq<char>)>,
    k: Seq<char>,
) -> Seq<(Seq<char>, Seq<char>)> {
    s.filter(|p: (Seq<char>, Seq<char>)| p.0 != k)
}

/// Insertion: the old entry of the key, if any, leaves; the new entry goes
/// to the end.
pub open spec fn spec_insert(
    s: Seq<(Seq<char>, Seq<char>)>,
    k: Seq<char>,
    v: Seq<char>,
) -> Seq<(Seq<char>, Seq<char>)> {
    spec_remove_key(s, k).push((k, v))
}

/// Finding a key skips over a prefix without it.
proof fn lemma_find_prefix(s: Seq<(Seq<char>, Seq<char>)>, k: Seq<char>, i: int)
    requires
        0 <= i <= s.len(),
        forall|j: int| 0 <= j < i ==> s[j].0 != k,
    ensures
        spec_find(s, k) == spec_find(s.subrange(i, s.len() as int), k),
    decreases i,
{
    if i > 0 {
        let rest = s.subrange(1, s.len() as int);
        lemma_find_prefix(rest, k, i - 1);
        assert(rest.subrange(i - 1, rest.len() as int) =~= s.subrange(i, s.len() as int));
    } else {
        assert(s.subrange(0, s.len() as int) =~= s);
    }
}

/// A string-keyed map with unique keys and insertion-ordered entries.
#[derive(Clone, Debug, PartialEq, Eq)]
pub struct StringMap {
    pub entries: Vec<(String, String)>,
}

impl StringMap {
    /// The entries as a sequence of character-level pairs.
    pub open spec fn entries_view(self) -> Seq<(Seq<char>, Seq<char>)> {
        pairs_view(self.entries@)
    }

    /// Well-formed: no key occurs twice.
    pub open spec fn wf(self) -> bool {
        forall|i: int, j: int|
            0 <= i < j < self.entries_view().len() ==> self.entries_view()[i].0
                != self.entries_view()[j].0
    }

    /// The value of a key.
    pub open spec fn spec_get(self, k: Seq<char>) -> Option<Seq<char>> {
        spec_find(self.entries_view(), k)
    }

    /// Builds an empty map.
    pub fn new() -> (r: StringMap)
        ensures
            r.entries_view() == Seq::<(Seq<char>, Seq<char>)>::empty(),
            r.wf(),
    {
        let r = StringMap { entries: Vec::new() };
        proof {
            assert(r.entries_view() =~= Seq::<(Seq<char>, Seq<char>)>::empty());
        }
        r
    }

    /// Inserts a key/value pair, replacing any entry of the same key.
    pub fn insert(&mut self, k: String, v: String)
        requires
            old(self).wf(),
        ensures
            final(self).entries_view() == spec_insert(old(self).entries_view(), k@, v@),
            final(self).wf(),
    {
        let ghost pred = |p: (Seq<char>, Seq<char>)| p.0 != k@;
        let ghost old_view = self.entries_view();
        let mut kept: Vec<(String, String)> = Vec::new();
        let mut i: usize = 0;
        while i < self.entries.len()
            invariant
                old(self).wf(),
                i <= self.entries@.len(),
                old_view == self.entries_view(),
                pred == (|p: (Seq<char>, Seq<char>)| p.0 != k@),
                pairs_view(kept@) =~= old_view.subrange(0, i as int).filter(pred),
                forall|a: int| 0 <= a < kept@.len() ==> pairs_view(kept@)[a].0 != k@,
                forall|a: int| #![trigger pairs_view(kept@)[a]]
                    0 <= a < kept@.len() ==> exists|j: int|
                        0 <= j < i && pairs_view(kept@)[a] == #[trigger] old_view[j],
                forall|a: int, b: int|
                    0 <= a < b < kept@.len() ==> pairs_view(kept@)[a].0 != pairs_view(kept@)[b].0,
            decreases self.entries@.len() - i,
        {
            let ghost prefix = old_view.subrange(0, i as int);
            let ghost prefix1 = old_view.subrange(0, i + 1);
            let ghost kept_before = pairs_view(kept@);
            let entry = &self.entries[i];
            if !str_eq(entry.0.as_str(), k.as_str()) {
                kept.push((entry.0.clone(), entry.1.clone()));
                proof {
                    assert(pairs_view(kept@) =~= kept_before.push(old_view[i as int]));
                    assert forall|a: int| #![trigger pairs_view(kept@)[a]] 0 <= a < kept@.len() implies exists|j: int|
                        0 <= j < i + 1 && pairs_view(kept@)[a] == #[trigger] old_view[j] by {
                        if a < kept_before.len() {
                            let j = choose|j: int|
                                0 <= j < i && kept_before[a] == old_view[j];
                            assert(0 <= j < i + 1 && pairs_view(kept@)[a] == old_view[j]);
                        } else {
                            assert(pairs_view(kept@)[a] == old_view[i as int]);
                        }
                    }
                    assert forall|a: int, b: int| 0 <= a < b < kept@.len() implies pairs_view(
                        kept@,
                    )[a].0 != pairs_view(kept@)[b].0 by {
                        if b == kept@.len() - 1 {
                            let j = choose|j: int|
                                0 <= j < i && kept_before[a] == old_view[j];
                            assert(old_view[j].0 != old_view[i as int].0);
                        }
                    }
                }
            }
            proof {
                reveal(Seq::filter);
                assert(prefix1.drop_last() =~= prefix);
                assert(prefix1.last() == old_view[i as int]);
            }
            i += 1;
        }
        proof {
            assert(old_view.subrange(0, old_view.len() as int) =~= old_view);
        }
        let ghost kept_final = pairs_view(kept@);
        kept.push((k, v));
        self.entries = kept;
        proof {
            assert(self.entries_view() =~= kept_final.push((k@, v@)));
        }
    }

    /// Looks a key up.
    pub fn get<'a>(&'a self, k: &str) -> (r: Option<&'a String>)
        ensures
            match r {
                Some(v) => self.spec_get(k@) == Some(v@),
                None => self.spec_get(k@) is None,
            },
    {
        let ghost s = self.entries_view();
        let mut i: usize = 0;
        while i < self.entries.len()
            invariant
                i <= s.len(),
                s == self.entries_view(),
                forall|j: int| 0 <= j < i ==> s[j].0 != k@,
            decreases s.len() - i,
        {
            let entry = &self.entries[i];
            if str_eq(entry.0.as_str(), k) {
                proof {
                    lemma_find_prefix(s, k@, i as int);
                }
                return Some(&entry.1);
            }
            i += 1;
        }
        proof {
            lemma_find_prefix(s, k@, s.len() as int);
        }
        None
    }

    /// Whether the map holds the key.
    pub fn contains_key(&self, k: &str) -> (r: bool)
        ensures
            r == (self.spec_get(k@) is Some),
    {
        match self.get(k) {
            Some(_) => true,
            None => false,
        }
    }

    /// The number of entries.
    pub fn len(&self) -> (r: usize)
        ensures
            r == self.entries_view().len(),
    {
        self.entries.len()
    }
}

} // verus!
