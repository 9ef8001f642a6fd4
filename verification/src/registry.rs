//! The behaviors of an experiment, each under a name of its own.

use vstd::prelude::*;

verus! {

/// Whether `entries` holds an entry called `name`.
pub open spec fn has_name<B>(entries: Seq<(Seq<char>, B)>, name: Seq<char>) -> bool {
    exists|i: int| 0 <= i < entries.len() && (#[trigger] entries[i]).0 == name
}

/// Whether no two entries go by the same name.
pub open spec fn distinct_names<B>(entries: Seq<(Seq<char>, B)>) -> bool {
    forall|i: int, j: int|
        0 <= i < j < entries.len() ==> (#[trigger] entries[i]).0 != (#[trigger] entries[j]).0
}

/// Named blocks in the order in which they were registered. No name is taken twice.
pub struct Registry<B> {
    entries: Vec<(String, B)>,
}

impl<B> View for Registry<B> {
    type V = Seq<(Seq<char>, B)>;

    closed spec fn view(&self) -> Seq<(Seq<char>, B)> {
        self.entries@.map_values(|entry: (String, B)| (entry.0@, entry.1))
    }
}

impl<B> Registry<B> {
    #[verifier::type_invariant]
    spec fn names_are_unique(self) -> bool {
        distinct_names(self@)
    }

    /// A registry without entries.
    pub fn new() -> (registry: Self)
        ensures
            registry@ == Seq::<(Seq<char>, B)>::empty(),
    {
        let registry = Registry { entries: Vec::new() };
        registry
    }

    /// Brings to light what holds of every registry: no name is taken twice.
    pub fn has_distinct_names(&self)
        ensures
            distinct_names(self@),
    {
        proof {
            use_type_invariant(self);
        }
    }

    /// The number of entries.
    pub fn len(&self) -> (n: usize)
        ensures
            n == self@.len(),
    {
        self.entries.len()
    }

    /// Where the entry called `name` stands, if there is one.
    pub fn position(&self, name: &String) -> (found: Option<usize>)
        ensures
            match found {
                Some(i) => i < self@.len() && self@[i as int].0 == name@,
                None => !has_name(self@, name@),
            },
    {
        let mut i: usize = 0;
        while i < self.entries.len()
            invariant
                i <= self.entries.len(),
                forall|j: int| 0 <= j < i ==> (#[trigger] self@[j]).0 != name@,
            decreases self.entries.len() - i,
        {
            if self.entries[i].0 == *name {
                return Some(i);
            }
            i += 1;
        }
        None
    }

    /// The name of the entry at `i`.
    pub fn name_at(&self, i: usize) -> (name: &String)
        requires
            i < self@.len(),
        ensures
            name@ == self@[i as int].0,
    {
        &self.entries[i].0
    }

    /// The block of the entry at `i`.
    pub fn block_at(&self, i: usize) -> (block: &B)
        requires
            i < self@.len(),
        ensures
            *block == self@[i as int].1,
    {
        &self.entries[i].1
    }

    /// Adds `block` under `name` behind the entries that are there, unless
    /// the name is taken: then the block is handed back and nothing changes.
    pub fn register(&mut self, name: String, block: B) -> (refused: Option<B>)
        ensures
            distinct_names(final(self)@),
            has_name(old(self)@, name@) ==> refused == Some(block) && final(self)@ == old(self)@,
            !has_name(old(self)@, name@) ==> refused is None && final(self)@ == old(self)@.push(
                (name@, block),
            ),
    {
        proof {
            use_type_invariant(&*self);
        }
        match self.position(&name) {
            Some(_) => Some(block),
            None => {
                let ghost before = self@;
                let mut entries: Vec<(String, B)> = Vec::new();
                std::mem::swap(&mut entries, &mut self.entries);
                entries.push((name, block));
                proof {
                    let after = entries@.map_values(|entry: (String, B)| (entry.0@, entry.1));
                    assert forall|i: int, j: int| 0 <= i < j < after.len() implies (
                    #[trigger] after[i]).0 != (#[trigger] after[j]).0 by {
                        if j < before.len() {
                            assert(before[i].0 != before[j].0);
                        } else {
                            assert(before[i].0 != name@);
                        }
                    }
                }
                self.entries = entries;
                None
            },
        }
    }
}

} // verus!
