//! The per-function symbol table: a mapping from variable name to the
//! storage slot that backs it, scoped to one function's generation pass.
//! A name may be inserted at most once; lookups are exact and
//! case-sensitive.
use vstd::prelude::*;
use crate::text::strings_equal;

verus! {

/// Mapping from variable name to storage slot for one function scope.
#[derive(Debug)]
pub struct SymbolTable {
    entries: Vec<(String, usize)>,
}

/// The map the entries denote; later entries would win, but well-formedness
/// keeps every name unique.
pub open spec fn entries_map(entries: Seq<(String, usize)>) -> Map<Seq<char>, int>
    decreases entries.len(),
{
    if entries.len() == 0 {
        Map::empty()
    } else {
        entries_map(entries.drop_last()).insert(
            entries.last().0@,
            entries.last().1 as int,
        )
    }
}

impl View for SymbolTable {
    type V = Map<Seq<char>, int>;

    closed spec fn view(&self) -> Map<Seq<char>, int> {
        entries_map(self.entries@)
    }
}

/// A key is in the map exactly when some entry carries it.
proof fn lemma_entries_map_domain(entries: Seq<(String, usize)>, key: Seq<char>)
    ensures
        entries_map(entries).contains_key(key) <==> exists|i: int|
            0 <= i < entries.len() && entries[i].0@ == key,
    decreases entries.len(),
{
    if entries.len() > 0 {
        lemma_entries_map_domain(entries.drop_last(), key);
        if entries.last().0@ == key {
            assert(entries[entries.len() - 1].0@ == key);
        } else {
            assert(forall|i: int|
                0 <= i < entries.len() - 1 ==> entries.drop_last()[i] == entries[i]);
        }
    }
}

/// With unique names, the map sends each entry's name to its slot.
proof fn lemma_entries_map_get(entries: Seq<(String, usize)>, i: int)
    requires
        0 <= i < entries.len(),
        forall|a: int, b: int|
            0 <= a < b < entries.len() ==> entries[a].0@ != entries[b].0@,
    ensures
        entries_map(entries).contains_key(entries[i].0@),
        entries_map(entries)[entries[i].0@] == entries[i].1 as int,
    decreases entries.len(),
{
    if i == entries.len() - 1 {
    } else {
        assert(forall|a: int, b: int|
            0 <= a < b < entries.len() - 1 ==> entries.drop_last()[a].0@
                != entries.drop_last()[b].0@);
        lemma_entries_map_get(entries.drop_last(), i);
        assert(entries.drop_last()[i] == entries[i]);
        assert(entries.last().0@ != entries[i].0@);
    }
}

impl SymbolTable {
    /// Every name stands in at most one entry.
    pub closed spec fn wf(self) -> bool {
        forall|a: int, b: int|
            0 <= a < b < self.entries.len() ==> self.entries[a].0@ != self.entries[b].0@
    }

    /// An empty scope.
    pub fn new() -> (r: SymbolTable)
        ensures
            r@ == Map::<Seq<char>, int>::empty(),
            r.wf(),
    {
        SymbolTable { entries: Vec::new() }
    }

    /// Whether `name` is already bound in this scope.
    pub fn contains(&self, name: &str) -> (r: bool)
        ensures
            r == self@.contains_key(name@),
    {
        proof {
            assert(self@ == entries_map(self.entries@));
            lemma_entries_map_domain(self.entries@, name@);
        }
        let mut i: usize = 0;
        while i < self.entries.len()
            invariant
                i <= self.entries@.len(),
                forall|j: int| 0 <= j < i ==> self.entries@[j].0@ != name@,
            decreases self.entries@.len() - i,
        {
            if strings_equal(self.entries[i].0.as_str(), name) {
                proof {
                    assert(self.entries@[i as int].0@ == name@);
                    lemma_entries_map_domain(self.entries@, name@);
                    assert(exists|j: int|
                        0 <= j < self.entries@.len() && self.entries@[j].0@ == name@);
                    assert(entries_map(self.entries@).contains_key(name@));
                }
                return true;
            }
            i = i + 1;
        }
        false
    }

    /// The slot bound to `name`, if any.
    pub fn get(&self, name: &str) -> (r: Option<usize>)
        requires
            self.wf(),
        ensures
            match r {
                Some(slot) => self@.contains_key(name@) && self@[name@] == slot as int,
                None => !self@.contains_key(name@),
            },
    {
        proof {
            assert(self@ == entries_map(self.entries@));
            lemma_entries_map_domain(self.entries@, name@);
        }
        let mut i: usize = 0;
        while i < self.entries.len()
            invariant
                i <= self.entries@.len(),
                self.wf(),
                forall|j: int| 0 <= j < i ==> self.entries@[j].0@ != name@,
            decreases self.entries@.len() - i,
        {
            if strings_equal(self.entries[i].0.as_str(), name) {
                proof {
                    assert(self.entries@[i as int].0@ == name@);
                    lemma_entries_map_get(self.entries@, i as int);
                }
                return Some(self.entries[i].1);
            }
            i = i + 1;
        }
        None
    }

    /// Binds `name` to `slot`. The name must not be bound yet: re-insertion
    /// is an error of the caller's, not an overwrite.
    pub fn insert(&mut self, name: String, slot: usize)
        requires
            old(self).wf(),
            !old(self)@.contains_key(name@),
        ensures
            final(self).wf(),
            final(self)@ == old(self)@.insert(name@, slot as int),
    {
        proof {
            assert(self@ == entries_map(self.entries@));
            lemma_entries_map_domain(self.entries@, name@);
        }
        let ghost old_entries = self.entries@;
        self.entries.push((name, slot));
        proof {
            assert(self.entries@.drop_last() =~= old_entries);
        }
    }
}

} // verus!
