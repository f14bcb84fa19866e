//! The word-override table: spoken words and what is typed in their place.

use vstd::prelude::*;
use vstd::std_specs::cmp::PartialEqSpecImpl;

verus! {

/// A finite mapping from words to their replacements, in which each word
/// occurs once.
#[derive(Debug)]
pub struct WordOverrides {
    entries: Vec<(String, String)>,
}

/// The word of entry `i`.
pub open spec fn word_at(entries: Seq<(String, String)>, i: int) -> Seq<char> {
    entries[i].0@
}

/// Whether some entry is for `word`.
pub open spec fn has_word(entries: Seq<(String, String)>, word: Seq<char>) -> bool {
    exists|i: int| 0 <= i < entries.len() && #[trigger] word_at(entries, i) == word
}

/// Whether no two entries are for the same word.
pub open spec fn distinct_words(entries: Seq<(String, String)>) -> bool {
    forall|i: int, j: int|
        0 <= i < entries.len() && 0 <= j < entries.len() && i != j ==> #[trigger] word_at(entries, i)
            != #[trigger] word_at(entries, j)
}

/// The mapping that a list of entries stands for.
pub open spec fn mapping_of(entries: Seq<(String, String)>) -> Map<Seq<char>, Seq<char>> {
    Map::new(
        |word: Seq<char>| has_word(entries, word),
        |word: Seq<char>|
            entries[choose|i: int| 0 <= i < entries.len() && #[trigger] word_at(entries, i) == word].1@,
    )
}

/// With distinct words, each entry is found again in the mapping.
pub proof fn lemma_entry_in_mapping(entries: Seq<(String, String)>, i: int)
    requires
        distinct_words(entries),
        0 <= i < entries.len(),
    ensures
        mapping_of(entries).contains_key(entries[i].0@),
        mapping_of(entries)[entries[i].0@] == entries[i].1@,
{
    let word = entries[i].0@;
    assert(word_at(entries, i) == word);
    let j = choose|j: int| 0 <= j < entries.len() && #[trigger] word_at(entries, j) == word;
    assert(j == i);
}

impl View for WordOverrides {
    type V = Map<Seq<char>, Seq<char>>;

    closed spec fn view(&self) -> Map<Seq<char>, Seq<char>> {
        mapping_of(self.entries@)
    }
}

impl WordOverrides {
    #[verifier::type_invariant]
    spec fn well_formed(&self) -> bool {
        distinct_words(self.entries@)
    }

    /// The table without any entry.
    pub fn new() -> (r: WordOverrides)
        ensures
            r@ == Map::<Seq<char>, Seq<char>>::empty(),
    {
        let r = WordOverrides { entries: Vec::new() };
        proof {
            assert(r@ =~= Map::<Seq<char>, Seq<char>>::empty());
        }
        r
    }

    /// Position of the entry for `word`, if there is one.
    fn position(&self, word: &String) -> (r: Option<usize>)
        ensures
            match r {
                Some(i) => i < self.entries@.len() && self.entries@[i as int].0@ == word@,
                None => !has_word(self.entries@, word@),
            },
    {
        let mut i: usize = 0;
        while i < self.entries.len()
            invariant
                i <= self.entries@.len(),
                forall|j: int| 0 <= j < i ==> #[trigger] word_at(self.entries@, j) != word@,
            decreases self.entries@.len() - i,
        {
            if self.entries[i].0 == *word {
                return Some(i);
            }
            i = i + 1;
        }
        None
    }

    /// The replacement for `word`, if the table has one.
    pub fn get(&self, word: &String) -> (r: Option<String>)
        ensures
            match r {
                Some(v) => self@.contains_key(word@) && self@[word@] == v@,
                None => !self@.contains_key(word@),
            },
    {
        proof {
            use_type_invariant(self);
        }
        match self.position(word) {
            Some(i) => {
                proof {
                    lemma_entry_in_mapping(self.entries@, i as int);
                }
                Some(self.entries[i].1.clone())
            },
            None => None,
        }
    }

    /// Sets the replacement for `word`, in place of an earlier one if there
    /// was any.
    pub fn insert(&mut self, word: String, replacement: String)
        ensures
            final(self)@ == old(self)@.insert(word@, replacement@),
    {
        proof {
            use_type_invariant(&*self);
        }
        let ghost before = self.entries@;
        let found = self.position(&word);
        let mut taken = WordOverrides { entries: Vec::new() };
        core::mem::swap(self, &mut taken);
        let WordOverrides { entries } = taken;
        let mut entries = entries;
        match found {
            Some(i) => {
                let ghost w = word@;
                let ghost v = replacement@;
                entries.set(i, (word, replacement));
                proof {
                    let after = entries@;
                    assert forall|a: int| 0 <= a < after.len() implies #[trigger] word_at(after, a)
                        == word_at(before, a) by {}
                    assert(distinct_words(after));
                    assert forall|k: Seq<char>| has_word(after, k) == has_word(before, k) by {
                        if has_word(after, k) {
                            let a = choose|a: int|
                                0 <= a < after.len() && #[trigger] word_at(after, a) == k;
                            assert(word_at(before, a) == k);
                        }
                        if has_word(before, k) {
                            let a = choose|a: int|
                                0 <= a < before.len() && #[trigger] word_at(before, a) == k;
                            assert(word_at(after, a) == k);
                        }
                    }
                    assert(word_at(before, i as int) == w);
                    assert forall|k: Seq<char>| has_word(after, k) implies mapping_of(after)[k]
                        == mapping_of(before).insert(w, v)[k] by {
                        let a = choose|a: int|
                            0 <= a < after.len() && #[trigger] word_at(after, a) == k;
                        lemma_entry_in_mapping(after, a);
                        assert(word_at(before, a) == k);
                        lemma_entry_in_mapping(before, a);
                    }
                    assert(mapping_of(after) =~= mapping_of(before).insert(w, v));
                }
            },
            None => {
                let ghost w = word@;
                let ghost v = replacement@;
                entries.push((word, replacement));
                proof {
                    let after = entries@;
                    let n = before.len() as int;
                    assert forall|a: int| 0 <= a < n implies #[trigger] word_at(after, a)
                        == word_at(before, a) by {}
                    assert(word_at(after, n) == w);
                    assert forall|a: int, b: int|
                        0 <= a < after.len() && 0 <= b < after.len() && a != b implies #[trigger] word_at(
                        after,
                        a,
                    ) != #[trigger] word_at(after, b) by {
                        if a < n {
                            assert(word_at(before, a) == word_at(after, a));
                        }
                        if b < n {
                            assert(word_at(before, b) == word_at(after, b));
                        }
                    }
                    assert forall|k: Seq<char>| has_word(after, k) == (has_word(before, k) || k
                        == w) by {
                        if has_word(after, k) {
                            let a = choose|a: int|
                                0 <= a < after.len() && #[trigger] word_at(after, a) == k;
                            if a < n {
                                assert(word_at(before, a) == k);
                            }
                        }
                        if has_word(before, k) {
                            let a = choose|a: int|
                                0 <= a < before.len() && #[trigger] word_at(before, a) == k;
                            assert(word_at(after, a) == k);
                        }
                    }
                    assert forall|k: Seq<char>| has_word(after, k) implies mapping_of(after)[k]
                        == mapping_of(before).insert(w, v)[k] by {
                        let a = choose|a: int|
                            0 <= a < after.len() && #[trigger] word_at(after, a) == k;
                        lemma_entry_in_mapping(after, a);
                        if a < n {
                            assert(word_at(before, a) == k);
                            lemma_entry_in_mapping(before, a);
                        }
                    }
                    assert(mapping_of(after) =~= mapping_of(before).insert(w, v));
                }
            },
        }
        *self = WordOverrides { entries };
    }
    /// The entries of the table, each word once, in no particular order.
    pub fn entries(&self) -> (r: Vec<(String, String)>)
        ensures
            distinct_words(r@),
            mapping_of(r@) == self@,
    {
        proof {
            use_type_invariant(self);
        }
        let mut r: Vec<(String, String)> = Vec::new();
        let mut i: usize = 0;
        while i < self.entries.len()
            invariant
                i <= self.entries@.len(),
                r@.len() == i,
                forall|j: int| 0 <= j < i ==> r@[j] == self.entries@[j],
            decreases self.entries@.len() - i,
        {
            let word = self.entries[i].0.clone();
            let replacement = self.entries[i].1.clone();
            r.push((word, replacement));
            i = i + 1;
        }
        proof {
            assert(r@ =~= self.entries@);
        }
        r
    }

    /// Whether both tables map the same words to the same replacements.
    pub fn same_as(&self, other: &WordOverrides) -> (r: bool)
        ensures
            r == (self@ == other@),
    {
        proof {
            use_type_invariant(self);
            use_type_invariant(other);
        }
        let mut i: usize = 0;
        while i < self.entries.len()
            invariant
                i <= self.entries@.len(),
                distinct_words(self.entries@),
                distinct_words(other.entries@),
                forall|j: int|
                    0 <= j < i ==> other@.contains_key(#[trigger] word_at(self.entries@, j))
                        && other@[word_at(self.entries@, j)] == self.entries@[j].1@,
            decreases self.entries@.len() - i,
        {
            proof {
                lemma_entry_in_mapping(self.entries@, i as int);
            }
            match other.position(&self.entries[i].0) {
                Some(j) => {
                    proof {
                        lemma_entry_in_mapping(other.entries@, j as int);
                    }
                    if other.entries[j].1 != self.entries[i].1 {
                        return false;
                    }
                },
                None => {
                    return false;
                },
            }
            i = i + 1;
        }
        let mut k: usize = 0;
        while k < other.entries.len()
            invariant
                k <= other.entries@.len(),
                distinct_words(self.entries@),
                distinct_words(other.entries@),
                forall|j: int|
                    0 <= j < self.entries@.len() ==> other@.contains_key(
                        #[trigger] word_at(self.entries@, j),
                    ) && other@[word_at(self.entries@, j)] == self.entries@[j].1@,
                forall|j: int|
                    0 <= j < k ==> self@.contains_key(#[trigger] word_at(other.entries@, j)),
            decreases other.entries@.len() - k,
        {
            proof {
                lemma_entry_in_mapping(other.entries@, k as int);
            }
            match self.position(&other.entries[k].0) {
                Some(j) => {
                    assert(word_at(self.entries@, j as int) == word_at(other.entries@, k as int));
                },
                None => {
                    return false;
                },
            }
            k = k + 1;
        }
        proof {
            assert forall|w: Seq<char>| self@.contains_key(w) implies other@.contains_key(w)
                && other@[w] == self@[w] by {
                let a = choose|a: int|
                    0 <= a < self.entries@.len() && #[trigger] word_at(self.entries@, a) == w;
                lemma_entry_in_mapping(self.entries@, a);
            }
            assert forall|w: Seq<char>| other@.contains_key(w) implies self@.contains_key(w) by {
                let a = choose|a: int|
                    0 <= a < other.entries@.len() && #[trigger] word_at(other.entries@, a) == w;
            }
            assert(self@ =~= other@);
        }
        true
    }
}

impl Clone for WordOverrides {
    fn clone(&self) -> (r: WordOverrides)
        ensures
            r@ == self@,
    {
        proof {
            use_type_invariant(self);
        }
        WordOverrides { entries: self.entries() }
    }
}

impl PartialEq for WordOverrides {
    fn eq(&self, other: &WordOverrides) -> (r: bool) {
        self.same_as(other)
    }
}

impl PartialEqSpecImpl for WordOverrides {
    open spec fn obeys_eq_spec() -> bool {
        true
    }

    open spec fn eq_spec(&self, other: &WordOverrides) -> bool {
        self@ == other@
    }
}

impl Default for WordOverrides {
    fn default() -> (r: WordOverrides)
        ensures
            r@ == Map::<Seq<char>, Seq<char>>::empty(),
    {
        WordOverrides::new()
    }
}

} // verus!
