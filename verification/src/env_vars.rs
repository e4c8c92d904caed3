//! A map from environment-variable names to values, as a deployment hands
//! it to the container, kept in the order of its names.

use vstd::prelude::*;

use crate::text::{lemma_text_lt_irreflexive, lemma_text_lt_total, lemma_text_lt_transitive, same_text, text_less, text_lt};

verus! {

/// Environment variables of a deployment: each name occurs at most once,
/// and the entries are kept in the order of their names.
#[derive(Debug, PartialEq, Eq)]
pub struct EnvVars {
    entries: Vec<(String, String)>,
}

/// Whether no two entries carry the same name.
pub open spec fn distinct_names(entries: Seq<(String, String)>) -> bool {
    forall|i: int, j: int|
        0 <= i < entries.len() && 0 <= j < entries.len() && i != j ==> entries[i].0@
            != entries[j].0@
}

/// Whether the names of the entries strictly increase in `String`'s order.
pub open spec fn sorted_names(entries: Seq<(String, String)>) -> bool {
    forall|i: int, j: int|
        0 <= i < j < entries.len() ==> text_lt(#[trigger] entries[i].0@, #[trigger] entries[j].0@)
}

/// Names in increasing order are distinct names.
pub proof fn lemma_sorted_distinct(entries: Seq<(String, String)>)
    requires
        sorted_names(entries),
    ensures
        distinct_names(entries),
{
    assert forall|i: int, j: int|
        0 <= i < entries.len() && 0 <= j < entries.len() && i != j implies entries[i].0@
        != entries[j].0@ by {
        if i < j {
            assert(text_lt(entries[i].0@, entries[j].0@));
        } else {
            assert(text_lt(entries[j].0@, entries[i].0@));
        }
        lemma_text_lt_irreflexive(entries[i].0@);
    }
}

/// Whether some entry is named `k`.
pub open spec fn has_name(entries: Seq<(String, String)>, k: Seq<char>) -> bool {
    exists|i: int| 0 <= i < entries.len() && entries[i].0@ == k
}

/// The map that a list of entries with distinct names stands for.
pub open spec fn entries_map(entries: Seq<(String, String)>) -> Map<Seq<char>, Seq<char>> {
    Map::new(
        |k: Seq<char>| has_name(entries, k),
        |k: Seq<char>|
            entries[choose|i: int| 0 <= i < entries.len() && entries[i].0@ == k].1@,
    )
}

impl View for EnvVars {
    type V = Map<Seq<char>, Seq<char>>;

    closed spec fn view(&self) -> Map<Seq<char>, Seq<char>> {
        entries_map(self.entries@)
    }
}

impl EnvVars {
    /// The names strictly increase, so each occurs at most once.
    #[verifier::type_invariant]
    pub closed spec fn wf(self) -> bool {
        sorted_names(self.entries@)
    }

    /// The entries, in the order of their names.
    pub closed spec fn entry_seq(self) -> Seq<(String, String)> {
        self.entries@
    }

    /// An empty set of variables.
    pub fn new() -> (e: EnvVars)
        ensures
            e@ == Map::<Seq<char>, Seq<char>>::empty(),
            e.entry_seq().len() == 0,
    {
        let e = EnvVars { entries: Vec::new() };
        assert(e@ =~= Map::<Seq<char>, Seq<char>>::empty());
        e
    }

    /// The number of variables.
    pub fn len(&self) -> (n: usize)
        ensures
            n == self@.len(),
            n == self.entry_seq().len(),
    {
        proof {
            use_type_invariant(self);
            lemma_sorted_distinct(self.entries@);
            self.lemma_view_len();
        }
        self.entries.len()
    }

    proof fn lemma_view_len(&self)
        requires
            distinct_names(self.entries@),
        ensures
            self@.dom().finite(),
            self@.len() == self.entries@.len(),
    {
        let names = self.entries@.map_values(|p: (String, String)| p.0@);
        assert(names.no_duplicates()) by {
            assert forall|i: int, j: int|
                0 <= i < names.len() && 0 <= j < names.len() && i != j implies names[i]
                != names[j] by {}
        }
        assert(self@.dom() =~= names.to_set()) by {
            assert forall|k: Seq<char>| self@.dom().contains(k) implies names.to_set().contains(
                k,
            ) by {
                let i = choose|i: int| 0 <= i < self.entries@.len() && self.entries@[i].0@ == k;
                assert(names[i] == k);
            }
            assert forall|k: Seq<char>| names.to_set().contains(k) implies self@.dom().contains(
                k,
            ) by {
                let i = choose|i: int| 0 <= i < names.len() && names[i] == k;
                assert(self.entries@[i].0@ == k);
            }
        }
        names.unique_seq_to_set();
    }

    /// Whether a variable named `key` is present.
    pub fn contains_key(&self, key: &str) -> (b: bool)
        ensures
            b == self@.contains_key(key@),
    {
        match self.position(key) {
            Some(_) => true,
            None => false,
        }
    }

    /// The value of the variable named `key`, if present.
    pub fn get(&self, key: &str) -> (v: Option<&String>)
        ensures
            match v {
                Some(s) => self@.contains_key(key@) && s@ == self@[key@],
                None => !self@.contains_key(key@),
            },
    {
        match self.position(key) {
            Some(i) => Some(&self.entries[i].1),
            None => None,
        }
    }

    /// The index of the entry named `key`.
    fn position(&self, key: &str) -> (r: Option<usize>)
        ensures
            match r {
                Some(i) => i < self.entries@.len() && self.entries@[i as int].0@ == key@
                    && self@.contains_key(key@) && self@[key@] == self.entries@[i as int].1@,
                None => !self@.contains_key(key@),
            },
    {
        proof {
            use_type_invariant(self);
            lemma_sorted_distinct(self.entries@);
        }
        let n = self.entries.len();
        let mut i: usize = 0;
        while i < n
            invariant
                n == self.entries@.len(),
                i <= n,
                distinct_names(self.entries@),
                forall|k: int| 0 <= k < i ==> self.entries@[k].0@ != key@,
            decreases n - i,
        {
            if same_text(self.entries[i].0.as_str(), key) {
                proof {
                    let j = choose|j: int|
                        0 <= j < self.entries@.len() && self.entries@[j].0@ == key@;
                    assert(j == i);
                }
                return Some(i);
            }
            i = i + 1;
        }
        None
    }

    /// Sets the variable `key` to `value`, replacing an earlier value.
    pub fn insert(&mut self, key: String, value: String)
        ensures
            final(self)@ == old(self)@.insert(key@, value@),
    {
        proof {
            use_type_invariant(&*self);
            lemma_sorted_distinct(self.entries@);
        }
        let ghost before = self.entries@;
        let n = self.entries.len();
        let mut i: usize = 0;
        while i < n && text_less(self.entries[i].0.as_str(), key.as_str())
            invariant
                n == self.entries@.len(),
                before == self.entries@,
                i <= n,
                forall|k: int| 0 <= k < i ==> text_lt(#[trigger] before[k].0@, key@),
            decreases n - i,
        {
            i = i + 1;
        }
        let mut entries: Vec<(String, String)> = Vec::new();
        std::mem::swap(&mut entries, &mut self.entries);
        if i < n && same_text(entries[i].0.as_str(), key.as_str()) {
            entries.set(i, (key, value));
            let ghost after = entries@;
            proof {
                assert(sorted_names(after)) by {
                    assert forall|a: int, b: int| 0 <= a < b < after.len() implies text_lt(
                        #[trigger] after[a].0@,
                        #[trigger] after[b].0@,
                    ) by {
                        assert(text_lt(before[a].0@, before[b].0@));
                    }
                }
            }
            self.entries = entries;
            proof {
                lemma_sorted_distinct(after);
                assert forall|k: Seq<char>| has_name(after, k) == has_name(before, k) by {
                    if has_name(before, k) {
                        let j = choose|j: int| 0 <= j < before.len() && before[j].0@ == k;
                        assert(after[j].0@ == k);
                    }
                    if has_name(after, k) {
                        let j = choose|j: int| 0 <= j < after.len() && after[j].0@ == k;
                        assert(before[j].0@ == k);
                    }
                }
                assert forall|k: Seq<char>| #[trigger]
                    has_name(after, k) && k != key@ implies entries_map(after)[k]
                    == entries_map(before)[k] by {
                    let j = choose|j: int| 0 <= j < after.len() && after[j].0@ == k;
                    let j2 = choose|j: int| 0 <= j < before.len() && before[j].0@ == k;
                    assert(j == j2);
                }
                assert(self@ =~= old(self)@.insert(key@, value@));
            }
        } else {
            let ghost new_key = key@;
            proof {
                if i < n {
                    lemma_text_lt_total(before[i as int].0@, key@);
                }
            }
            entries.insert(i, (key, value));
            let ghost after = entries@;
            proof {
                assert(after.len() == before.len() + 1);
                assert forall|k: int| 0 <= k < after.len() implies #[trigger] after[k] == (if k
                    < i {
                    before[k]
                } else if k == i {
                    after[i as int]
                } else {
                    before[k - 1]
                }) by {}
                assert(after[i as int].0@ == new_key);
                assert forall|a: int, b: int| 0 <= a < b < after.len() implies text_lt(
                    #[trigger] after[a].0@,
                    #[trigger] after[b].0@,
                ) by {
                    if b < i {
                        assert(text_lt(before[a].0@, before[b].0@));
                    } else if b == i {
                        assert(text_lt(before[a].0@, new_key));
                    } else if a < i {
                        assert(text_lt(before[a].0@, new_key));
                        assert(text_lt(new_key, before[i as int].0@));
                        if b - 1 > i {
                            assert(text_lt(before[i as int].0@, before[b - 1].0@));
                            lemma_text_lt_transitive(new_key, before[i as int].0@, before[b - 1].0@);
                        }
                        lemma_text_lt_transitive(before[a].0@, new_key, before[b - 1].0@);
                    } else if a == i {
                        assert(text_lt(new_key, before[i as int].0@));
                        if b - 1 > i {
                            assert(text_lt(before[i as int].0@, before[b - 1].0@));
                            lemma_text_lt_transitive(new_key, before[i as int].0@, before[b - 1].0@);
                        }
                    } else {
                        assert(text_lt(before[a - 1].0@, before[b - 1].0@));
                    }
                }
                assert(sorted_names(after));
            }
            self.entries = entries;
            proof {
                lemma_sorted_distinct(after);
                assert(!has_name(before, new_key)) by {
                    if has_name(before, new_key) {
                        let j = choose|j: int| 0 <= j < before.len() && before[j].0@ == new_key;
                        if j < i {
                            assert(text_lt(before[j].0@, new_key));
                            lemma_text_lt_irreflexive(new_key);
                        } else if j > i {
                            assert(text_lt(before[i as int].0@, before[j].0@));
                            lemma_text_lt_transitive(new_key, before[i as int].0@, before[j].0@);
                            lemma_text_lt_irreflexive(new_key);
                        }
                    }
                }
                assert forall|k: Seq<char>| #[trigger]
                    has_name(before, k) implies entries_map(after)[k] == entries_map(before)[k] by {
                    let j = choose|j: int| 0 <= j < after.len() && after[j].0@ == k;
                    let j2 = choose|j: int| 0 <= j < before.len() && before[j].0@ == k;
                    let j3 = if j2 < i { j2 } else { j2 + 1 };
                    assert(after[j3].0@ == k);
                    assert(j == j3);
                }
                assert(has_name(after, new_key)) by {
                    assert(after[i as int].0@ == new_key);
                }
                assert forall|k: Seq<char>| has_name(after, k) implies has_name(before, k) || k
                    == new_key by {
                    let j = choose|j: int| 0 <= j < after.len() && after[j].0@ == k;
                    if j < i {
                        assert(before[j].0@ == k);
                    } else if j > i {
                        assert(before[j - 1].0@ == k);
                    }
                }
                assert forall|k: Seq<char>| has_name(before, k) implies has_name(after, k) by {
                    let j = choose|j: int| 0 <= j < before.len() && before[j].0@ == k;
                    let j3 = if j < i { j } else { j + 1 };
                    assert(after[j3].0@ == k);
                }
                assert(entries_map(after)[new_key] == after[i as int].1@) by {
                    let j = choose|j: int| 0 <= j < after.len() && after[j].0@ == new_key;
                    assert(j == i);
                }
                assert(self@ =~= old(self)@.insert(key@, value@));
            }
        }
    }

    /// The entries, in the order of their names (as a `BTreeMap` yields
    /// them).
    pub fn entries(&self) -> (r: &Vec<(String, String)>)
        ensures
            r@ == self.entry_seq(),
            sorted_names(r@),
            distinct_names(r@),
            entries_map(r@) == self@,
    {
        proof {
            use_type_invariant(self);
            lemma_sorted_distinct(self.entries@);
        }
        &self.entries
    }
}

impl Clone for EnvVars {
    fn clone(&self) -> (r: Self)
        ensures
            r@ == self@,
            r.entry_seq() == self.entry_seq(),
    {
        proof {
            use_type_invariant(self);
        }
        let n = self.entries.len();
        let mut entries: Vec<(String, String)> = Vec::new();
        let mut i: usize = 0;
        while i < n
            invariant
                n == self.entries@.len(),
                i <= n,
                entries@ == self.entries@.subrange(0, i as int),
            decreases n - i,
        {
            let key = self.entries[i].0.clone();
            let value = self.entries[i].1.clone();
            entries.push((key, value));
            assert(entries@ =~= self.entries@.subrange(0, i + 1));
            i = i + 1;
        }
        assert(entries@ =~= self.entries@);
        EnvVars { entries }
    }
}

} // verus!
