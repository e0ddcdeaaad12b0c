//! The node registry: the authoritative mapping from a node's key (its
//! registering IP) to the node record. Keys are unique at all times; this
//! is the registry's type invariant, and `lemma_at_most_one_per_key` states
//! it publicly.

use vstd::map::*;
use vstd::prelude::*;

use crate::models::{Node, NodeState, NodeView};

verus! {

/// Mapping from node key to node record. Its view is a `Map` from the key's
/// character sequence to the node's view.
pub struct NodeRegistry {
    nodes: Vec<Node>,
}

impl View for NodeRegistry {
    type V = Map<Seq<char>, NodeView>;

    closed spec fn view(&self) -> Map<Seq<char>, NodeView> {
        Map::new(
            |k: Seq<char>| self.has_key(k),
            |k: Seq<char>| self.nodes@[self.index_of(k)]@,
        )
    }
}

impl NodeRegistry {
    /// The stored node records, in insertion order, as their views.
    pub closed spec fn nodes_seq(&self) -> Seq<NodeView> {
        self.nodes@.map_values(|n: Node| n@)
    }

    /// The key of the record at position `i`.
    pub closed spec fn key_at(&self, i: int) -> Seq<char> {
        self.nodes@[i]@.information.ip
    }

    spec fn has_key(&self, k: Seq<char>) -> bool {
        exists|i: int| 0 <= i < self.nodes@.len() && self.key_at(i) == k
    }

    spec fn index_of(&self, k: Seq<char>) -> int {
        choose|i: int| 0 <= i < self.nodes@.len() && self.key_at(i) == k
    }

    /// No key occurs at two positions. This is the registry's type
    /// invariant: every reachable registry value satisfies it, and
    /// `use_type_invariant` recovers it where needed.
    #[verifier::type_invariant]
    pub closed spec fn inv(&self) -> bool {
        forall|i: int, j: int|
            0 <= i < j < self.nodes@.len() ==> #[trigger] self.key_at(i) != #[trigger] self.key_at(
                j,
            )
    }

    proof fn lemma_same_key_same_index(&self, i: int, j: int)
        requires
            self.inv(),
            0 <= i < self.nodes@.len(),
            0 <= j < self.nodes@.len(),
            self.key_at(i) == self.key_at(j),
        ensures
            i == j,
    {
        if i < j {
            assert(self.key_at(i) != self.key_at(j));
        } else if j < i {
            assert(self.key_at(j) != self.key_at(i));
        }
    }

    /// The record at position `i` is the one the view maps its key to.
    proof fn lemma_at(&self, i: int)
        requires
            self.inv(),
            0 <= i < self.nodes@.len(),
        ensures
            self@.contains_key(self.key_at(i)),
            self@[self.key_at(i)] == self.nodes@[i]@,
            self.index_of(self.key_at(i)) == i,
    {
        let k = self.key_at(i);
        assert(self.has_key(k));
        let w = self.index_of(k);
        assert(0 <= w < self.nodes@.len() && self.key_at(w) == k);
        self.lemma_same_key_same_index(w, i);
    }

    /// A key at no position is not in the view.
    proof fn lemma_absent(&self, k: Seq<char>)
        requires
            forall|i: int| 0 <= i < self.nodes@.len() ==> #[trigger] self.key_at(i) != k,
        ensures
            !self@.contains_key(k),
    {
    }

    /// At most one stored record carries any one key: two positions holding
    /// the same key are the same position. This holds of every registry
    /// value at every time.
    pub proof fn lemma_at_most_one_per_key(&self, k: Seq<char>)
        requires
            self.inv(),
        ensures
            forall|i: int, j: int|
                0 <= i < j < self.nodes_seq().len() ==> !(#[trigger] self.nodes_seq()[i].information.ip
                    == k && #[trigger] self.nodes_seq()[j].information.ip == k),
    {
        assert forall|i: int, j: int|
            0 <= i < j < self.nodes_seq().len() implies !(self.nodes_seq()[i].information.ip == k
            && self.nodes_seq()[j].information.ip == k) by {
            assert(self.key_at(i) != self.key_at(j));
            assert(self.nodes_seq()[i].information.ip == self.key_at(i));
            assert(self.nodes_seq()[j].information.ip == self.key_at(j));
        }
    }

    /// An empty registry.
    pub fn new() -> (r: NodeRegistry)
        ensures
            r@ == Map::<Seq<char>, NodeView>::empty(),
            r.nodes_seq() == Seq::<NodeView>::empty(),
    {
        let r = NodeRegistry { nodes: Vec::new() };
        proof {
            r.lemma_absent_all();
            assert(r@ =~= Map::<Seq<char>, NodeView>::empty());
            assert(r.nodes_seq() =~= Seq::<NodeView>::empty());
        }
        r
    }

    proof fn lemma_absent_all(&self)
        requires
            self.nodes@.len() == 0,
        ensures
            forall|k: Seq<char>| !self@.contains_key(k),
    {
    }

    /// Number of stored records.
    pub fn len(&self) -> (n: usize)
        ensures
            n == self.nodes_seq().len(),
    {
        self.nodes.len()
    }

    /// Position of the record with the given key, if any.
    fn find(&self, key: &String) -> (r: Option<usize>)
        ensures
            match r {
                Some(i) => i < self.nodes@.len() && self.key_at(i as int) == key@,
                None => forall|i: int|
                    0 <= i < self.nodes@.len() ==> #[trigger] self.key_at(i) != key@,
            },
    {
        let mut i: usize = 0;
        while i < self.nodes.len()
            invariant
                i <= self.nodes@.len(),
                forall|j: int| 0 <= j < i ==> #[trigger] self.key_at(j) != key@,
            decreases self.nodes@.len() - i,
        {
            if self.nodes[i].information.ip == *key {
                return Some(i);
            }
            i = i + 1;
        }
        None
    }

    /// Whether a record with the given key exists.
    pub fn contains_key(&self, key: &String) -> (r: bool)
        ensures
            r == self@.contains_key(key@),
    {
        proof {
            use_type_invariant(self);
        }
        let found = self.find(key);
        proof {
            match found {
                Some(i) => self.lemma_at(i as int),
                None => self.lemma_absent(key@),
            }
        }
        found.is_some()
    }

    /// The record with the given key, if any.
    pub fn get(&self, key: &String) -> (r: Option<&Node>)
        ensures
            match r {
                Some(n) => self@.contains_key(key@) && n@ == self@[key@],
                None => !self@.contains_key(key@),
            },
    {
        proof {
            use_type_invariant(self);
        }
        match self.find(key) {
            Some(i) => {
                proof {
                    self.lemma_at(i as int);
                }
                Some(&self.nodes[i])
            },
            None => {
                proof {
                    self.lemma_absent(key@);
                }
                None
            },
        }
    }

    /// Inserts a record under its own key, replacing any record already
    /// stored under it.
    pub fn insert(&mut self, node: Node)
        ensures
            final(self)@ == old(self)@.insert(node.information.ip@, node@),
    {
        proof {
            use_type_invariant(&*self);
        }
        let ghost k = node.information.ip@;
        let ghost v = node@;
        let ghost old_self = *self;
        let found = self.find(&node.information.ip);
        let mut nodes: Vec<Node> = Vec::new();
        core::mem::swap(&mut nodes, &mut self.nodes);
        match found {
            Some(i) => {
                nodes[i] = node;
                proof {
                    assert(forall|j: int|
                        0 <= j < nodes@.len() && j != i ==> nodes@[j] == old_self.nodes@[j]);
                }
            },
            None => {
                nodes.push(node);
                proof {
                    assert(forall|j: int|
                        0 <= j < old_self.nodes@.len() ==> nodes@[j] == old_self.nodes@[j]);
                }
            },
        }
        proof {
            assert(forall|a: int, b: int|
                0 <= a < b < nodes@.len() ==> (#[trigger] nodes@[a]@.information.ip
                    != #[trigger] nodes@[b]@.information.ip)) by {
                assert forall|a: int, b: int| 0 <= a < b < nodes@.len() implies (nodes@[a]@.information.ip
                    != nodes@[b]@.information.ip) by {
                    match found {
                        Some(i) => {
                            if a != i as int && b != i as int {
                                assert(old_self.key_at(a) != old_self.key_at(b));
                            } else if a == i as int {
                                assert(old_self.key_at(i as int) == k);
                                if old_self.key_at(b) == k {
                                    old_self.lemma_same_key_same_index(i as int, b);
                                }
                            } else {
                                assert(old_self.key_at(i as int) == k);
                                if old_self.key_at(a) == k {
                                    old_self.lemma_same_key_same_index(i as int, a);
                                }
                            }
                        },
                        None => {
                            if b == old_self.nodes@.len() {
                                assert(old_self.key_at(a) != k);
                            } else {
                                assert(old_self.key_at(a) != old_self.key_at(b));
                            }
                        },
                    }
                }
            }
        }
        self.nodes = nodes;
        proof {
            self.lemma_insert_view(old_self, k, v, found);
        }
    }

    proof fn lemma_insert_view(
        &self,
        old_self: NodeRegistry,
        k: Seq<char>,
        v: NodeView,
        found: Option<usize>,
    )
        requires
            self.inv(),
            old_self.inv(),
            match found {
                Some(i) => {
                    &&& 0 <= i < old_self.nodes@.len()
                    &&& old_self.key_at(i as int) == k
                    &&& self.nodes@ == old_self.nodes@.update(i as int, self.nodes@[i as int])
                    &&& self.nodes@[i as int]@ == v
                },
                None => {
                    &&& (forall|i: int|
                        0 <= i < old_self.nodes@.len() ==> #[trigger] old_self.key_at(i) != k)
                    &&& self.nodes@ == old_self.nodes@.push(self.nodes@[old_self.nodes@.len() as int])
                    &&& self.nodes@[old_self.nodes@.len() as int]@ == v
                },
            },
            v.information.ip == k,
        ensures
            self@ == old_self@.insert(k, v),
    {
        let m1 = self@;
        let m2 = old_self@.insert(k, v);
        assert_maps_equal!(m1, m2, q => {
            if m1.contains_key(q) {
                let i = self.index_of(q);
                assert(0 <= i < self.nodes@.len() && self.key_at(i) == q);
                self.lemma_at(i);
                if q == k {
                    assert(self.nodes@[i]@ == v) by {
                        match found {
                            Some(fi) => self.lemma_same_key_same_index(i, fi as int),
                            None => self.lemma_same_key_same_index(
                                i,
                                old_self.nodes@.len() as int,
                            ),
                        }
                    }
                } else {
                    match found {
                        Some(fi) => {
                            assert(i != fi as int);
                            assert(old_self.key_at(i) == q);
                            old_self.lemma_at(i);
                        },
                        None => {
                            assert(i != old_self.nodes@.len() as int);
                            assert(old_self.key_at(i) == q);
                            old_self.lemma_at(i);
                        },
                    }
                }
                assert(m2.contains_key(q));
                assert(m1[q] == m2[q]);
            }
            if m2.contains_key(q) {
                if q == k {
                    match found {
                        Some(fi) => {
                            assert(self.key_at(fi as int) == k);
                            assert(self.has_key(k));
                        },
                        None => {
                            assert(self.key_at(old_self.nodes@.len() as int) == k);
                            assert(self.has_key(k));
                        },
                    }
                } else {
                    assert(old_self.has_key(q));
                    let i = old_self.index_of(q);
                    assert(0 <= i < old_self.nodes@.len() && old_self.key_at(i) == q);
                    assert(self.key_at(i) == q);
                    assert(self.has_key(q));
                }
                assert(m1.contains_key(q));
            }
        });
    }

    /// Sets the state of the record with the given key, if one exists;
    /// otherwise leaves the registry unchanged. Returns whether a record
    /// was found.
    pub fn set_state(&mut self, key: &String, state: NodeState) -> (r: bool)
        ensures
            r == old(self)@.contains_key(key@),
            final(self)@ == if old(self)@.contains_key(key@) {
                old(self)@.insert(key@, old(self)@[key@].with_state(state))
            } else {
                old(self)@
            },
    {
        proof {
            use_type_invariant(&*self);
        }
        let ghost old_self = *self;
        let found = self.find(key);
        match found {
            Some(i) => {
                proof {
                    self.lemma_at(i as int);
                }
                let mut nodes: Vec<Node> = Vec::new();
                core::mem::swap(&mut nodes, &mut self.nodes);
                let picked = nodes.remove(i);
                let ghost kseq = old_self.key_at(i as int);
                nodes.insert(i, Node { information: picked.information, state });
                proof {
                    assert(nodes@ =~= old_self.nodes@.update(
                        i as int,
                        nodes@[i as int],
                    ));
                    assert(nodes@[i as int]@ == old_self.nodes@[i as int]@.with_state(state));
                    assert(nodes@[i as int]@.information.ip == kseq);
                    assert forall|a: int, b: int| 0 <= a < b < nodes@.len() implies (
                    #[trigger] nodes@[a]@.information.ip != #[trigger] nodes@[b]@.information.ip) by {
                        assert(nodes@[a]@.information.ip == old_self.key_at(a));
                        assert(nodes@[b]@.information.ip == old_self.key_at(b));
                    }
                }
                self.nodes = nodes;
                proof {
                    self.lemma_insert_view(
                        old_self,
                        kseq,
                        old_self.nodes@[i as int]@.with_state(state),
                        found,
                    );
                    assert(old_self@[key@] == old_self.nodes@[i as int]@);
                }
                true
            },
            None => {
                proof {
                    self.lemma_absent(key@);
                }
                false
            },
        }
    }

    /// Removes the record with the given key, if any.
    pub fn remove(&mut self, key: &String)
        ensures
            final(self)@ == old(self)@.remove(key@),
    {
        proof {
            use_type_invariant(&*self);
        }
        let ghost old_self = *self;
        let found = self.find(key);
        match found {
            Some(i) => {
                let mut nodes: Vec<Node> = Vec::new();
                core::mem::swap(&mut nodes, &mut self.nodes);
                nodes.remove(i);
                proof {
                    assert(nodes@ =~= old_self.nodes@.remove(i as int));
                    assert forall|a: int, b: int| 0 <= a < b < nodes@.len() implies (
                    #[trigger] nodes@[a]@.information.ip != #[trigger] nodes@[b]@.information.ip) by {
                        let a0 = if a < i as int { a } else { a + 1 };
                        let b0 = if b < i as int { b } else { b + 1 };
                        assert(nodes@[a]@.information.ip == old_self.key_at(a0));
                        assert(nodes@[b]@.information.ip == old_self.key_at(b0));
                    }
                }
                self.nodes = nodes;
                proof {
                    self.lemma_remove_view(old_self, key@, i as int);
                }
            },
            None => {
                proof {
                    self.lemma_absent(key@);
                    assert(self@ =~= old_self@.remove(key@));
                }
            },
        }
    }

    proof fn lemma_remove_view(&self, old_self: NodeRegistry, k: Seq<char>, i: int)
        requires
            self.inv(),
            old_self.inv(),
            0 <= i < old_self.nodes@.len(),
            old_self.key_at(i) == k,
            self.nodes@ == old_self.nodes@.remove(i),
        ensures
            self@ == old_self@.remove(k),
    {
        let m1 = self@;
        let m2 = old_self@.remove(k);
        assert_maps_equal!(m1, m2, q => {
            if m1.contains_key(q) {
                let j = self.index_of(q);
                assert(0 <= j < self.nodes@.len() && self.key_at(j) == q);
                self.lemma_at(j);
                let j0 = if j < i { j } else { j + 1 };
                assert(self.nodes@[j] == old_self.nodes@[j0]);
                assert(old_self.key_at(j0) == q);
                old_self.lemma_at(j0);
                assert(j0 != i);
                if q == k {
                    old_self.lemma_same_key_same_index(i, j0);
                }
                assert(q != k);
                assert(m2.contains_key(q));
                assert(m1[q] == m2[q]);
            }
            if m2.contains_key(q) {
                assert(old_self.has_key(q));
                let j0 = old_self.index_of(q);
                assert(0 <= j0 < old_self.nodes@.len() && old_self.key_at(j0) == q);
                assert(q != k);
                assert(j0 != i);
                let j = if j0 < i { j0 } else { j0 - 1 };
                assert(self.nodes@[j] == old_self.nodes@[j0]);
                assert(self.key_at(j) == q);
                assert(self.has_key(q));
                assert(m1.contains_key(q));
            }
        });
    }
}

} // verus!
