//! The registry of the callables that an application supplies.

use crate::engine::Shared;
use crate::pairs::{
    distinct_names, folded, lemma_distinct_push, lemma_folded_keys, lemma_folded_len,
    lemma_folded_push, lemma_folded_remove, lemma_folded_update, lemma_folded_value, names_key,
};
use vstd::prelude::*;

verus! {

/// The named values that a list of entries holds.
pub open spec fn named<T>(entries: Seq<(String, T)>) -> Seq<(Seq<char>, T)> {
    entries.map_values(|entry: (String, T)| (entry.0@, entry.1))
}

/// Callables by name. No name stands twice in a registry: what is registered
/// under a name replaces what stood there.
pub struct Registry<T> {
    entries: Vec<(String, T)>,
}

impl<T> View for Registry<T> {
    type V = Map<Seq<char>, T>;

    /// The callable under each registered name.
    closed spec fn view(&self) -> Map<Seq<char>, T> {
        folded(self.pairs())
    }
}

impl<T> Registry<T> {
    /// The entries in the order in which their names were first registered.
    pub closed spec fn pairs(&self) -> Seq<(Seq<char>, T)> {
        named(self.entries@)
    }

    #[verifier::type_invariant]
    spec fn names_are_distinct(&self) -> bool {
        distinct_names(named(self.entries@))
    }

    /// The mapping of a registry is the one that its entries stand for.
    pub proof fn lemma_view(&self)
        ensures
            self@ == folded(self.pairs()),
    {
    }

    /// A registry without entries.
    pub fn new() -> (registry: Self)
        ensures
            registry@ == Map::<Seq<char>, T>::empty(),
            registry.pairs().len() == 0,
    {
        let registry = Registry { entries: Vec::new() };
        assert(registry.pairs() =~= Seq::empty());
        registry
    }

    /// The number of registered names. No name comes twice among the entries.
    pub fn len(&self) -> (count: usize)
        ensures
            self@.dom().finite(),
            count == self@.len(),
            count == self.pairs().len(),
            distinct_names(self.pairs()),
    {
        proof {
            use_type_invariant(self);
            lemma_folded_len(self.pairs());
        }
        self.entries.len()
    }

    /// Tells whether nothing is registered.
    pub fn is_empty(&self) -> (empty: bool)
        ensures
            empty == (self@ == Map::<Seq<char>, T>::empty()),
    {
        proof {
            use_type_invariant(self);
            lemma_folded_len(self.pairs());
            if self.pairs().len() > 0 {
                lemma_folded_value(self.pairs(), 0);
            }
        }
        self.entries.len() == 0
    }

    /// The name of the entry at `position`.
    pub(crate) fn name_at(&self, position: usize) -> (name: &str)
        requires
            position < self.pairs().len(),
        ensures
            name@ == self.pairs()[position as int].0,
    {
        self.entries[position].0.as_str()
    }

    /// The callable of the entry at `position`.
    pub(crate) fn item_at(&self, position: usize) -> (item: &T)
        requires
            position < self.pairs().len(),
        ensures
            *item == self.pairs()[position as int].1,
    {
        &self.entries[position].1
    }

    /// The registered names, each once, in the order in which they were
    /// first registered.
    pub fn names(&self) -> (names: Vec<String>)
        ensures
            names@.len() == self@.len(),
            forall|i: int, j: int| 0 <= i < j < names@.len() ==> names@[i]@ != names@[j]@,
            forall|name: Seq<char>|
                self@.contains_key(name) <==> exists|i: int|
                    0 <= i < names@.len() && #[trigger] names@[i]@ == name,
            forall|i: int| 0 <= i < names@.len() ==> names@[i]@ == self.pairs()[i].0,
    {
        proof {
            use_type_invariant(self);
            lemma_folded_len(self.pairs());
        }
        let mut names: Vec<String> = Vec::new();
        let mut i: usize = 0;
        while i < self.entries.len()
            invariant
                i <= self.entries.len(),
                names@.len() == i,
                forall|j: int| 0 <= j < i ==> names@[j]@ == self.pairs()[j].0,
            decreases self.entries.len() - i,
        {
            names.push(self.entries[i].0.clone());
            i += 1;
        }
        proof {
            let pairs = self.pairs();
            assert forall|a: int, b: int| 0 <= a < b < names@.len() implies names@[a]@
                != names@[b]@ by {
                assert(pairs[a].0 != pairs[b].0);
            }
            assert forall|name: Seq<char>|
                self@.contains_key(name) <==> exists|i: int|
                    0 <= i < names@.len() && #[trigger] names@[i]@ == name by {
                lemma_folded_keys(pairs, name);
                if names_key(pairs, name) {
                    let k = choose|k: int| 0 <= k < pairs.len() && pairs[k].0 == name;
                    assert(names@[k]@ == name);
                }
                if exists|i: int| 0 <= i < names@.len() && #[trigger] names@[i]@ == name {
                    let k = choose|k: int| 0 <= k < names@.len() && #[trigger] names@[k]@ == name;
                    assert(pairs[k].0 == name);
                }
            }
        }
        names
    }

    /// Moves the entries out and leaves the registry empty.
    fn take_entries(&mut self) -> (entries: Vec<(String, T)>)
        ensures
            named(entries@) == old(self).pairs(),
    {
        let mut taken = Registry { entries: Vec::new() };
        std::mem::swap(self, &mut taken);
        taken.entries
    }

    /// The position of the entry named `name`, if there is one.
    fn position(&self, name: &str) -> (found: Option<usize>)
        ensures
            match found {
                Some(i) => i < self.pairs().len() && self.pairs()[i as int].0 == name@,
                None => !names_key(self.pairs(), name@),
            },
    {
        let wanted = name.to_owned();
        let mut i: usize = 0;
        while i < self.entries.len()
            invariant
                i <= self.entries.len(),
                wanted@ == name@,
                forall|j: int| 0 <= j < i ==> self.pairs()[j].0 != name@,
            decreases self.entries.len() - i,
        {
            if self.entries[i].0 == wanted {
                return Some(i);
            }
            i += 1;
        }
        None
    }

    /// The callable registered under `name`, if there is one.
    pub fn get(&self, name: &str) -> (found: Option<&T>)
        ensures
            match found {
                Some(item) => self@.contains_key(name@) && self@[name@] == *item,
                None => !self@.contains_key(name@),
            },
    {
        proof {
            use_type_invariant(self);
            lemma_folded_keys(self.pairs(), name@);
        }
        match self.position(name) {
            Some(i) => {
                proof {
                    lemma_folded_value(self.pairs(), i as int);
                }
                Some(&self.entries[i].1)
            },
            None => None,
        }
    }

    /// Tells whether a callable is registered under `name`.
    pub fn contains_key(&self, name: &str) -> (found: bool)
        ensures
            found == self@.contains_key(name@),
    {
        self.get(name).is_some()
    }

    /// Registers `item` under `name`, in place of what stood under that name.
    pub fn insert(&mut self, name: String, item: T)
        ensures
            final(self)@ == old(self)@.insert(name@, item),
    {
        proof {
            use_type_invariant(&*self);
        }
        let ghost before = self.pairs();
        let found = self.position(name.as_str());
        let mut entries = self.take_entries();
        match found {
            Some(i) => {
                proof {
                    lemma_folded_update(before, i as int, item);
                }
                entries.set(i, (name, item));
                assert(named(entries@) =~= before.update(i as int, (before[i as int].0, item)));
            },
            None => {
                proof {
                    lemma_folded_push(before, name@, item);
                    lemma_distinct_push(before, name@, item);
                }
                entries.push((name, item));
                assert(named(entries@) =~= before.push((name@, item)));
            },
        }
        *self = Registry { entries };
    }

    /// Takes away what is registered under `name`, if anything is.
    pub fn remove(&mut self, name: &str)
        ensures
            final(self)@ == old(self)@.remove(name@),
    {
        proof {
            use_type_invariant(&*self);
        }
        let ghost before = self.pairs();
        let found = self.position(name);
        let mut entries = self.take_entries();
        match found {
            Some(i) => {
                proof {
                    lemma_folded_remove(before, i as int);
                }
                entries.remove(i);
                assert(named(entries@) =~= before.remove(i as int));
            },
            None => {
                proof {
                    lemma_folded_keys(before, name@);
                    assert(folded(before).remove(name@) =~= folded(before));
                }
            },
        }
        *self = Registry { entries };
    }
}

impl<T: Shared> Registry<T> {
    /// A registry with the same callables under the same names.
    pub fn duplicate(&self) -> (copy: Self)
        ensures
            copy@ == self@,
            copy.pairs() == self.pairs(),
    {
        proof {
            use_type_invariant(self);
        }
        let mut entries: Vec<(String, T)> = Vec::new();
        let mut i: usize = 0;
        while i < self.entries.len()
            invariant
                i <= self.entries.len(),
                entries@.len() == i,
                forall|j: int|
                    0 <= j < i ==> entries@[j].0@ == self.entries@[j].0@ && entries@[j].1
                        == self.entries@[j].1,
            decreases self.entries.len() - i,
        {
            let name = self.entries[i].0.clone();
            let item = self.entries[i].1.share();
            entries.push((name, item));
            i += 1;
        }
        assert(named(entries@) =~= self.pairs());
        Registry { entries }
    }
}

} // verus!
