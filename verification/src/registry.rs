//! A duplicate-free collection of asset identifiers.
//!
//! Entries are only ever added, which is what makes a cached verdict and a
//! completed migration permanent.

use vstd::prelude::*;

verus! {

/// A set of identifiers, kept in the order in which they were first added.
pub struct IdentifierSet {
    entries: Vec<String>,
}

impl View for IdentifierSet {
    type V = Set<Seq<char>>;

    closed spec fn view(&self) -> Set<Seq<char>> {
        self.texts().to_set()
    }
}

impl IdentifierSet {
    /// The stored identifiers, oldest first.
    pub closed spec fn texts(&self) -> Seq<Seq<char>> {
        self.entries@.map_values(|s: String| s@)
    }

    /// No identifier is stored twice.
    pub closed spec fn wf(&self) -> bool {
        self.texts().no_duplicates()
    }

    /// The view of a well-formed set is finite and as large as the number of entries.
    proof fn lemma_finite(&self)
        requires
            self.wf(),
        ensures
            self@.finite(),
            self@.len() == self.texts().len(),
    {
        vstd::seq_lib::seq_to_set_is_finite(self.texts());
        self.texts().unique_seq_to_set();
    }

    /// An empty set.
    pub fn new() -> (set: Self)
        ensures
            set.wf(),
            set@ == Set::<Seq<char>>::empty(),
            set.texts() == Seq::<Seq<char>>::empty(),
    {
        let set = IdentifierSet { entries: Vec::new() };
        assert(set.texts() =~= Seq::<Seq<char>>::empty());
        assert(set@ =~= Set::<Seq<char>>::empty());
        set
    }

    /// Membership test.
    pub fn contains(&self, identifier: &str) -> (found: bool)
        ensures
            found == self@.contains(identifier@),
    {
        let wanted = String::from_str(identifier);
        let mut i: usize = 0;
        while i < self.entries.len()
            invariant
                i <= self.entries.len(),
                wanted@ == identifier@,
                forall|k: int| 0 <= k < i ==> self.texts()[k] != identifier@,
            decreases self.entries.len() - i,
        {
            if self.entries[i] == wanted {
                assert(self.texts()[i as int] == identifier@);
                return true;
            }
            i += 1;
        }
        false
    }

    /// Adds an identifier; adding one that is already present changes nothing.
    pub fn insert(&mut self, identifier: &str) -> (added: bool)
        requires
            old(self).wf(),
        ensures
            final(self).wf(),
            final(self)@ == old(self)@.insert(identifier@),
            added == !old(self)@.contains(identifier@),
            final(self).texts() == if added {
                old(self).texts().push(identifier@)
            } else {
                old(self).texts()
            },
    {
        if self.contains(identifier) {
            assert(self@.insert(identifier@) =~= self@);
            return false;
        }
        let ghost before = self.texts();
        self.entries.push(String::from_str(identifier));
        proof {
            assert(self.texts() =~= before.push(identifier@));
            before.lemma_push_to_set_commute(identifier@);
        }
        true
    }

    /// Number of identifiers held.
    pub fn len(&self) -> (count: usize)
        requires
            self.wf(),
        ensures
            self@.finite(),
            count == self@.len(),
    {
        proof {
            self.lemma_finite();
        }
        self.entries.len()
    }
}

} // verus!
