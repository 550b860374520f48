//! Method tables: mappings from a method's name to the capability that runs it.

use vstd::prelude::*;

verus! {

/// A handle to a native callable, resolved by the embedding application.
pub type Invocable = u64;

/// An entry of an instance method table.
#[derive(Clone, Copy, Debug, PartialEq, Eq, Structural)]
pub enum InstanceMethod {
    /// A method whose result is converted as one returned value.
    Call(Invocable),
    /// A method whose result is iterable: each element is converted on its own.
    Iterate(Invocable),
    /// Forwards to the class method of the same name on the descriptor held by the
    /// instance. Only the descriptor of descriptors holds such entries.
    FromClassMethod,
}

/// An entry of a class method table: a callable bound to no instance.
#[derive(Clone, Copy, Debug, PartialEq, Eq, Structural)]
pub struct ClassMethod {
    pub function: Invocable,
}

/// A mapping from names to methods. A name maps to at most one method.
#[derive(Debug)]
pub struct Table<M> {
    names: Vec<String>,
    methods: Vec<M>,
}

impl<M> Table<M> {
    /// The names and methods line up, and no name occurs twice.
    pub closed spec fn wf(&self) -> bool {
        &&& self.names.len() == self.methods.len()
        &&& forall|i: int, j: int|
            0 <= i < j < self.names.len() ==> self.names[i]@ != self.names[j]@
    }

    /// The position of `name`, if it is in the table.
    pub closed spec fn has_at(&self, name: Seq<char>, i: int) -> bool {
        0 <= i < self.names.len() && self.names[i]@ == name
    }

    /// The names in the order the table keeps them.
    pub closed spec fn keys(&self) -> Seq<Seq<char>> {
        self.names@.map_values(|s: String| s@)
    }

    /// The method that `name` maps to, if any.
    pub closed spec fn lookup(&self, name: Seq<char>) -> Option<M> {
        if exists|i: int| self.has_at(name, i) {
            Some(self.methods[choose|i: int| self.has_at(name, i)])
        } else {
            None
        }
    }
}

impl<M> View for Table<M> {
    type V = Map<Seq<char>, M>;

    open spec fn view(&self) -> Map<Seq<char>, M> {
        Map::new(|k: Seq<char>| self.lookup(k) is Some, |k: Seq<char>| self.lookup(k)->0)
    }
}

impl<M: Copy> Table<M> {
    /// An empty table.
    pub fn new() -> (r: Self)
        ensures
            r.wf(),
            r@ == Map::<Seq<char>, M>::empty(),
            r.keys() == Seq::<Seq<char>>::empty(),
    {
        let r = Table { names: Vec::new(), methods: Vec::new() };
        assert(r@ =~= Map::<Seq<char>, M>::empty());
        assert(r.keys() =~= Seq::<Seq<char>>::empty());
        r
    }

    /// The number of entries.
    pub fn len(&self) -> (r: usize)
        requires
            self.wf(),
        ensures
            r == self.keys().len(),
            r == self@.dom().len(),
    {
        proof {
            self.lemma_dom_is_keys();
        }
        self.names.len()
    }

    /// The name stored at position `i`.
    pub fn name_at(&self, i: usize) -> (r: &String)
        requires
            self.wf(),
            i < self.keys().len(),
        ensures
            r@ == self.keys()[i as int],
    {
        &self.names[i]
    }

    /// The name and the method stored at position `i`.
    pub fn entry_at(&self, i: usize) -> (r: (&String, M))
        requires
            self.wf(),
            i < self.keys().len(),
        ensures
            r.0@ == self.keys()[i as int],
            self@.contains_key(r.0@),
            self@[r.0@] == r.1,
    {
        proof {
            self.lemma_lookup_at(self.names[i as int]@, i as int);
        }
        (&self.names[i], self.methods[i])
    }

    /// Where `name` is stored, if anywhere.
    fn find(&self, name: &String) -> (r: Option<usize>)
        requires
            self.wf(),
        ensures
            match r {
                Some(i) => self.has_at(name@, i as int),
                None => forall|i: int| !self.has_at(name@, i),
            },
    {
        let mut i: usize = 0;
        while i < self.names.len()
            invariant
                self.wf(),
                i <= self.names.len(),
                forall|j: int| 0 <= j < i ==> self.names[j]@ != name@,
            decreases self.names.len() - i,
        {
            if self.names[i] == *name {
                return Some(i);
            }
            i = i + 1;
        }
        None
    }

    proof fn lemma_lookup_at(&self, name: Seq<char>, i: int)
        requires
            self.wf(),
            self.has_at(name, i),
        ensures
            self.lookup(name) == Some(self.methods[i]),
            self@.contains_key(name),
            self@[name] == self.methods[i],
    {
        let j = choose|j: int| self.has_at(name, j);
        assert(self.has_at(name, j));
        assert(j == i);
    }

    pub proof fn lemma_dom_is_keys(&self)
        requires
            self.wf(),
        ensures
            self@.dom() == self.keys().to_set(),
            self.keys().no_duplicates(),
            self@.dom().len() == self.keys().len(),
    {
        assert forall|k: Seq<char>| self@.dom().contains(k) <==> self.keys().to_set().contains(k) by {
            if self@.dom().contains(k) {
                let i = choose|i: int| self.has_at(k, i);
                assert(self.keys()[i] == k);
            }
            if self.keys().to_set().contains(k) {
                let i = choose|i: int| 0 <= i < self.keys().len() && self.keys()[i] == k;
                assert(self.has_at(k, i));
            }
        }
        assert(self@.dom() =~= self.keys().to_set());
        self.keys().unique_seq_to_set();
    }

    /// The method that `name` maps to, if any.
    pub fn get(&self, name: &String) -> (r: Option<M>)
        requires
            self.wf(),
        ensures
            r == (if self@.contains_key(name@) { Some(self@[name@]) } else { None::<M> }),
    {
        match self.find(name) {
            Some(i) => {
                proof {
                    self.lemma_lookup_at(name@, i as int);
                }
                Some(self.methods[i])
            },
            None => {
                assert(!self@.contains_key(name@));
                None
            },
        }
    }

    /// Maps `name` to `method`. An earlier entry of the same name is replaced:
    /// the last registration wins.
    pub fn insert(&mut self, name: String, method: M)
        requires
            old(self).wf(),
        ensures
            final(self).wf(),
            final(self)@ == old(self)@.insert(name@, method),
    {
        match self.find(&name) {
            Some(i) => {
                self.methods.set(i, method);
                proof {
                    assert forall|k: Seq<char>|
                        #[trigger] self.lookup(k) == (if k == name@ {
                            Some(method)
                        } else {
                            old(self).lookup(k)
                        }) by {
                        if k == name@ {
                            self.lemma_lookup_at(k, i as int);
                        } else if exists|j: int| self.has_at(k, j) {
                            let j = choose|j: int| self.has_at(k, j);
                            self.lemma_lookup_at(k, j);
                            old(self).lemma_lookup_at(k, j);
                        } else {
                            assert(forall|j: int| old(self).has_at(k, j) ==> self.has_at(k, j));
                        }
                    }
                    assert(self@ =~= old(self)@.insert(name@, method));
                }
            },
            None => {
                let ghost key = name@;
                self.names.push(name);
                self.methods.push(method);
                proof {
                    let n = old(self).names.len() as int;
                    assert forall|j: int| 0 <= j < n implies self.names[j]@ != key by {
                        assert(!old(self).has_at(key, j));
                    }
                    self.lemma_lookup_at(key, n);
                    assert forall|k: Seq<char>|
                        #[trigger] self.lookup(k) == (if k == key {
                            Some(method)
                        } else {
                            old(self).lookup(k)
                        }) by {
                        if k != key {
                            if exists|j: int| old(self).has_at(k, j) {
                                let j = choose|j: int| old(self).has_at(k, j);
                                self.lemma_lookup_at(k, j);
                                old(self).lemma_lookup_at(k, j);
                            } else {
                                assert(forall|j: int| !old(self).has_at(k, j) ==> !self.has_at(k, j));
                            }
                        }
                    }
                    assert(self@ =~= old(self)@.insert(key, method));
                }
            },
        }
    }

    /// Maps `name` to `method` unless `name` is already in the table.
    pub fn insert_if_absent(&mut self, name: &String, method: M)
        requires
            old(self).wf(),
        ensures
            final(self).wf(),
            final(self)@ == (if old(self)@.contains_key(name@) {
                old(self)@
            } else {
                old(self)@.insert(name@, method)
            }),
    {
        match self.find(name) {
            Some(i) => {
                proof {
                    self.lemma_lookup_at(name@, i as int);
                }
            },
            None => {
                assert(!self@.contains_key(name@));
                self.insert(name.clone(), method);
            },
        }
    }

    /// A copy of the table, with the same entries.
    pub fn copy(&self) -> (r: Self)
        requires
            self.wf(),
        ensures
            r.wf(),
            r@ == self@,
            r.keys() == self.keys(),
    {
        let mut names: Vec<String> = Vec::new();
        let mut methods: Vec<M> = Vec::new();
        let mut i: usize = 0;
        while i < self.names.len()
            invariant
                self.wf(),
                i <= self.names.len(),
                names.len() == i,
                methods@ == self.methods@.subrange(0, i as int),
                forall|j: int| 0 <= j < i ==> names[j]@ == self.names[j]@,
            decreases self.names.len() - i,
        {
            names.push(self.names[i].clone());
            methods.push(self.methods[i]);
            i = i + 1;
        }
        assert(methods@ =~= self.methods@);
        let r = Table { names, methods };
        proof {
            assert forall|k: Seq<char>, j: int| r.has_at(k, j) <==> self.has_at(k, j) by {}
            assert forall|k: Seq<char>| #[trigger] r.lookup(k) == self.lookup(k) by {
                if exists|j: int| self.has_at(k, j) {
                    let j = choose|j: int| self.has_at(k, j);
                    self.lemma_lookup_at(k, j);
                    r.lemma_lookup_at(k, j);
                }
            }
            assert(r@ =~= self@);
            assert(r.keys() =~= self.keys());
        }
        r
    }
}

} // verus!
