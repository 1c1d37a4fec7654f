//! The registry of connected clients: which socket is the Spotify plugin and
//! which is a web interface.
use vstd::prelude::*;
use crate::models::ClientType;

verus! {

/// Some client of kind `t` is registered in `m`.
pub open spec fn has_client_of_type(m: Map<Seq<char>, ClientType>, t: ClientType) -> bool {
    exists|k: Seq<char>| m.contains_key(k) && m[k] == t
}

/// Socket ids and the kind of client behind each; no id occurs twice.
pub struct ClientRegistry {
    entries: Vec<(String, ClientType)>,
}

spec fn holds_key(s: Seq<(String, ClientType)>, k: Seq<char>) -> bool {
    exists|i: int| 0 <= i < s.len() && (#[trigger] s[i]).0@ == k
}

spec fn index_of_key(s: Seq<(String, ClientType)>, k: Seq<char>) -> int {
    choose|i: int| 0 <= i < s.len() && (#[trigger] s[i]).0@ == k
}

spec fn keys_unique(s: Seq<(String, ClientType)>) -> bool {
    forall|i: int, j: int|
        0 <= i < s.len() && 0 <= j < s.len() && i != j ==> (#[trigger] s[i]).0@ != (
        #[trigger] s[j]).0@
}

spec fn map_of(s: Seq<(String, ClientType)>) -> Map<Seq<char>, ClientType> {
    Map::new(|k: Seq<char>| holds_key(s, k), |k: Seq<char>| s[index_of_key(s, k)].1)
}

proof fn lemma_lookup(s: Seq<(String, ClientType)>, i: int)
    requires
        keys_unique(s),
        0 <= i < s.len(),
    ensures
        map_of(s).contains_key(s[i].0@),
        map_of(s)[s[i].0@] == s[i].1,
{
    let k = s[i].0@;
    assert(holds_key(s, k));
    let j = index_of_key(s, k);
    assert(s[j].0@ == k);
}

impl View for ClientRegistry {
    type V = Map<Seq<char>, ClientType>;

    closed spec fn view(&self) -> Map<Seq<char>, ClientType> {
        map_of(self.entries@)
    }
}

impl ClientRegistry {
    /// No socket id occurs twice.
    #[verifier::type_invariant]
    spec fn wf(&self) -> bool {
        keys_unique(self.entries@)
    }

    /// An empty registry.
    pub fn new() -> (r: ClientRegistry)
        ensures
            r@ == Map::<Seq<char>, ClientType>::empty(),
    {
        let r = ClientRegistry { entries: Vec::new() };
        assert(r@ =~= Map::<Seq<char>, ClientType>::empty());
        r
    }

    fn find(&self, id: &String) -> (r: Option<usize>)
        ensures
            match r {
                Some(i) => i < self.entries@.len() && self.entries@[i as int].0@ == id@,
                None => !self@.contains_key(id@),
            },
    {
        proof {
            use_type_invariant(self);
        }
        let mut i: usize = 0;
        while i < self.entries.len()
            invariant
                keys_unique(self.entries@),
                i <= self.entries@.len(),
                forall|j: int| 0 <= j < i ==> (#[trigger] self.entries@[j]).0@ != id@,
            decreases self.entries@.len() - i,
        {
            if self.entries[i].0 == *id {
                return Some(i);
            }
            i = i + 1;
        }
        None
    }

    /// Whether the socket `id` is registered.
    pub fn contains(&self, id: &String) -> (b: bool)
        ensures
            b == self@.contains_key(id@),
    {
        proof {
            use_type_invariant(self);
        }
        match self.find(id) {
            Some(i) => {
                proof {
                    lemma_lookup(self.entries@, i as int);
                }
                true
            },
            None => false,
        }
    }

    /// The kind of the client behind the socket `id`, where it is registered.
    pub fn get(&self, id: &String) -> (r: Option<ClientType>)
        ensures
            r == (if self@.contains_key(id@) {
                Some(self@[id@])
            } else {
                None
            }),
    {
        proof {
            use_type_invariant(self);
        }
        match self.find(id) {
            Some(i) => {
                proof {
                    lemma_lookup(self.entries@, i as int);
                }
                Some(self.entries[i].1)
            },
            None => None,
        }
    }

    /// Registers the socket `id` as a client of kind `t` unless it is
    /// registered already; returns whether it was added.
    pub fn register(&mut self, id: String, t: ClientType) -> (added: bool)
        ensures
            added == !old(self)@.contains_key(id@),
            final(self)@ == (if added {
                old(self)@.insert(id@, t)
            } else {
                old(self)@
            }),
    {
        proof {
            use_type_invariant(&*self);
        }
        match self.find(&id) {
            Some(i) => {
                proof {
                    lemma_lookup(self.entries@, i as int);
                }
                false
            },
            None => {
                proof {
                    use_type_invariant(&*self);
                }
                let mut entries: Vec<(String, ClientType)> = Vec::new();
                std::mem::swap(&mut entries, &mut self.entries);
                let ghost s = entries@;
                let ghost k = id@;
                entries.push((id, t));
                let ghost s2 = entries@;
                assert(s2.len() == s.len() + 1 && s2[s.len() as int].0@ == k);
                assert forall|i: int| 0 <= i < s.len() implies #[trigger] s2[i] == s[i] by {}
                assert(keys_unique(s2)) by {
                    assert forall|i: int, j: int|
                        0 <= i < s2.len() && 0 <= j < s2.len() && i != j implies (
                        #[trigger] s2[i]).0@ != (#[trigger] s2[j]).0@ by {
                        if i < s.len() && j < s.len() {
                            assert(s2[i] == s[i] && s2[j] == s[j]);
                        } else if i < s.len() {
                            assert(s2[i] == s[i]);
                            assert(!holds_key(s, k));
                        } else if j < s.len() {
                            assert(s2[j] == s[j]);
                            assert(!holds_key(s, k));
                        }
                    }
                }
                assert(map_of(s2) =~= map_of(s).insert(k, t)) by {
                    assert forall|key: Seq<char>| #[trigger] map_of(s2).contains_key(key) <==> map_of(s).insert(k, t).contains_key(key) by {
                        if map_of(s).contains_key(key) {
                            let j = index_of_key(s, key);
                            assert(s2[j] == s[j]);
                        }
                        if map_of(s2).contains_key(key) && key != k {
                            let j = index_of_key(s2, key);
                            if j < s.len() {
                                assert(s2[j] == s[j]);
                            }
                        }
                    }
                    assert forall|key: Seq<char>| #[trigger] map_of(s2).contains_key(key) implies map_of(s2)[key] == map_of(s).insert(k, t)[key] by {
                        if key == k {
                            lemma_lookup(s2, s.len() as int);
                        } else {
                            let j = index_of_key(s2, key);
                            assert(j < s.len());
                            assert(s2[j] == s[j]);
                            lemma_lookup(s2, j);
                            assert(keys_unique(s)) ;
                            lemma_lookup(s, j);
                        }
                    }
                }
                self.entries = entries;
                true
            },
        }
    }

    /// Removes the socket `id`; returns the kind it was registered as.
    pub fn remove(&mut self, id: &String) -> (r: Option<ClientType>)
        ensures
            final(self)@ == old(self)@.remove(id@),
            r == (if old(self)@.contains_key(id@) {
                Some(old(self)@[id@])
            } else {
                None
            }),
    {
        proof {
            use_type_invariant(&*self);
        }
        match self.find(id) {
            Some(i) => {
                proof {
                    use_type_invariant(&*self);
                }
                let mut entries: Vec<(String, ClientType)> = Vec::new();
                std::mem::swap(&mut entries, &mut self.entries);
                let ghost s = entries@;
                let ghost k = id@;
                proof {
                    lemma_lookup(s, i as int);
                }
                let e = entries.remove(i);
                let ghost s2 = entries@;
                assert(s2 =~= s.remove(i as int));
                assert forall|j: int| 0 <= j < s2.len() implies #[trigger] s2[j] == s[if j < i {
                    j
                } else {
                    j + 1
                }] by {}
                assert(keys_unique(s2)) by {
                    assert forall|a: int, b: int|
                        0 <= a < s2.len() && 0 <= b < s2.len() && a != b implies (
                        #[trigger] s2[a]).0@ != (#[trigger] s2[b]).0@ by {
                        let a1 = if a < i {
                            a
                        } else {
                            a + 1
                        };
                        let b1 = if b < i {
                            b
                        } else {
                            b + 1
                        };
                        assert(s2[a] == s[a1] && s2[b] == s[b1]);
                    }
                }
                assert(map_of(s2) =~= map_of(s).remove(k)) by {
                    assert forall|key: Seq<char>| #[trigger] map_of(s2).contains_key(key) <==> map_of(s).remove(k).contains_key(key) by {
                        if map_of(s2).contains_key(key) {
                            let j = index_of_key(s2, key);
                            let j1 = if j < i {
                                j
                            } else {
                                j + 1
                            };
                            assert(s2[j] == s[j1]);
                            assert(j1 != i);
                        }
                        if map_of(s).remove(k).contains_key(key) {
                            let j = index_of_key(s, key);
                            assert(j != i);
                            let j2 = if j < i {
                                j
                            } else {
                                j - 1
                            };
                            assert(s2[j2] == s[j]);
                        }
                    }
                    assert forall|key: Seq<char>| #[trigger] map_of(s2).contains_key(key) implies map_of(s2)[key] == map_of(s).remove(k)[key] by {
                        let j = index_of_key(s2, key);
                        let j1 = if j < i {
                            j
                        } else {
                            j + 1
                        };
                        assert(s2[j] == s[j1]);
                        lemma_lookup(s2, j);
                        lemma_lookup(s, j1);
                    }
                }
                self.entries = entries;
                Some(e.1)
            },
            None => {
                assert(self@.remove(id@) =~= self@);
                None
            },
        }
    }

    /// Whether some client of kind `t` is registered.
    pub fn has_client(&self, t: ClientType) -> (b: bool)
        ensures
            b == has_client_of_type(self@, t),
    {
        proof {
            use_type_invariant(self);
        }
        let mut i: usize = 0;
        while i < self.entries.len()
            invariant
                keys_unique(self.entries@),
                i <= self.entries@.len(),
                forall|j: int| 0 <= j < i ==> (#[trigger] self.entries@[j]).1 != t,
            decreases self.entries@.len() - i,
        {
            if self.entries[i].1 == t {
                proof {
                    lemma_lookup(self.entries@, i as int);
                }
                return true;
            }
            i = i + 1;
        }
        proof {
            if has_client_of_type(self@, t) {
                let k = choose|k: Seq<char>| self@.contains_key(k) && self@[k] == t;
                let j = index_of_key(self.entries@, k);
                assert(self.entries@[j].1 == t);
            }
        }
        false
    }
}

} // verus!
