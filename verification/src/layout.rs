//! The layout tree: an ordered tree of layout nodes, one per native handle,
//! each made the first time it is asked for.

use crate::handle::Handle;
use std::collections::HashMap;
use vstd::prelude::*;

verus! {

broadcast use vstd::std_specs::hash::group_hash_axioms;

/// The layout tree as mathematics.
pub struct LayoutModel {
    /// For each handle that has a layout node: that node's children, first to last.
    pub children: Map<Handle, Seq<Handle>>,
    /// For each node that is some node's child: the node it is a child of.
    pub parent: Map<Handle, Handle>,
}

impl LayoutModel {
    /// The tree without any node.
    pub open spec fn empty() -> LayoutModel {
        LayoutModel { children: Map::empty(), parent: Map::empty() }
    }

    /// Whether a layout node is associated with `h`.
    pub open spec fn has_node(self, h: Handle) -> bool {
        self.children.contains_key(h)
    }

    /// The children of the node of `h`, first to last; none where `h` has no node.
    pub open spec fn children_of(self, h: Handle) -> Seq<Handle> {
        if self.children.contains_key(h) {
            self.children[h]
        } else {
            Seq::empty()
        }
    }

    /// The node that the node of `h` is a child of, if any.
    pub open spec fn parent_of(self, h: Handle) -> Option<Handle> {
        if self.parent.contains_key(h) {
            Some(self.parent[h])
        } else {
            None
        }
    }

    /// Whether the node of `h` is some node's child.
    pub open spec fn is_attached(self, h: Handle) -> bool {
        self.parent.contains_key(h)
    }

    /// The tree after the node of `h` was asked for: unchanged where it had
    /// one, else with a new node that has no children and no parent.
    pub open spec fn with_node(self, h: Handle) -> LayoutModel {
        if self.children.contains_key(h) {
            self
        } else {
            LayoutModel { children: self.children.insert(h, Seq::empty()), parent: self.parent }
        }
    }

    /// The tree after `child` became the child at position `index` of `parent`.
    /// Both get their nodes if they had none.
    pub open spec fn insert_child(self, parent: Handle, child: Handle, index: int) -> LayoutModel {
        let m = self.with_node(parent).with_node(child);
        LayoutModel {
            children: m.children.insert(parent, m.children[parent].insert(index, child)),
            parent: m.parent.insert(child, parent),
        }
    }

    /// Child lists and parent links say the same thing, and no node is listed twice.
    pub open spec fn wf(self) -> bool {
        &&& forall|p: Handle, i: int|
            #![trigger self.children[p][i]]
            self.children.contains_key(p) && 0 <= i < self.children[p].len() ==> {
                &&& self.children.contains_key(self.children[p][i])
                &&& self.parent.contains_key(self.children[p][i])
                &&& self.parent[self.children[p][i]] == p
            }
        &&& forall|c: Handle|
            #![trigger self.parent.contains_key(c)]
            #![trigger self.parent[c]]
            self.parent.contains_key(c) ==> {
                &&& self.children.contains_key(c)
                &&& self.children.contains_key(self.parent[c])
                &&& self.children[self.parent[c]].contains(c)
            }
        &&& forall|p: Handle|
            #![trigger self.children.contains_key(p)]
            #![trigger self.children[p]]
            self.children.contains_key(p) ==> self.children[p].no_duplicates()
    }

    /// A node that is nobody's child stands in no child list.
    pub proof fn lemma_unattached_not_listed(self, c: Handle, p: Handle)
        requires
            self.wf(),
            !self.is_attached(c),
        ensures
            !self.children_of(p).contains(c),
    {
        if self.children_of(p).contains(c) {
            let list = self.children_of(p);
            let i = choose|i: int| 0 <= i < list.len() && list[i] == c;
            assert(self.children[p][i] == c);
        }
    }

    /// A node has at most one parent: it stands in the child list of its
    /// parent and in no other, and there at one position only.
    pub proof fn lemma_one_parent(self, c: Handle, p: Handle, i: int, q: Handle, j: int)
        requires
            self.wf(),
            0 <= i < self.children_of(p).len(),
            0 <= j < self.children_of(q).len(),
            self.children_of(p)[i] == c,
            self.children_of(q)[j] == c,
        ensures
            p == q,
            i == j,
            self.parent_of(c) == Some(p),
    {
        assert(self.children[p][i] == c);
        assert(self.children[q][j] == c);
        assert(self.children[p].no_duplicates());
    }

    /// Asking for a node keeps the tree well formed.
    pub proof fn lemma_with_node_wf(self, h: Handle)
        requires
            self.wf(),
        ensures
            self.with_node(h).wf(),
    {
        let m = self.with_node(h);
        if !self.children.contains_key(h) {
            assert forall|p: Handle, i: int|
                #![trigger m.children[p][i]]
                m.children.contains_key(p) && 0 <= i < m.children[p].len() implies {
                &&& m.children.contains_key(m.children[p][i])
                &&& m.parent.contains_key(m.children[p][i])
                &&& m.parent[m.children[p][i]] == p
            } by {
                assert(p != h);
                assert(self.children[p][i] == m.children[p][i]);
            }
            assert forall|c: Handle|
                #![trigger m.parent.contains_key(c)]
                #![trigger m.parent[c]]
                m.parent.contains_key(c) implies {
                &&& m.children.contains_key(c)
                &&& m.children.contains_key(m.parent[c])
                &&& m.children[m.parent[c]].contains(c)
            } by {
                assert(self.children.contains_key(self.parent[c]));
                assert(self.parent[c] != h);
            }
        }
    }

    /// Inserting a node that is nobody's child, at a position within the
    /// parent's list, keeps the tree well formed.
    pub proof fn lemma_insert_child_wf(self, parent: Handle, child: Handle, index: int)
        requires
            self.wf(),
            !self.is_attached(child),
            0 <= index <= self.children_of(parent).len(),
        ensures
            self.insert_child(parent, child, index).wf(),
    {
        let m = self.with_node(parent).with_node(child);
        self.lemma_with_node_wf(parent);
        self.with_node(parent).lemma_with_node_wf(child);
        assert(m.wf());
        assert(!m.is_attached(child));
        assert(m.children_of(parent) == self.children_of(parent));
        let old_list = m.children[parent];
        let new_list = old_list.insert(index, child);
        let r = self.insert_child(parent, child, index);
        assert(r.children[parent] == new_list);
        m.lemma_unattached_not_listed(child, parent);
        assert(!old_list.contains(child));
        assert(new_list.len() == old_list.len() + 1);
        assert forall|j: int| 0 <= j < new_list.len() implies new_list[j] == (if j < index {
            old_list[j]
        } else if j == index {
            child
        } else {
            old_list[j - 1]
        }) by {}
        assert(new_list.no_duplicates()) by {
            assert forall|a: int, b: int|
                0 <= a < new_list.len() && 0 <= b < new_list.len() && a != b implies new_list[a]
                != new_list[b] by {
                let ea = if a < index { a } else { a - 1 };
                let eb = if b < index { b } else { b - 1 };
                if a != index && b != index {
                    assert(old_list[ea] != old_list[eb]);
                } else if a == index {
                    assert(old_list[eb] != child);
                } else {
                    assert(old_list[ea] != child);
                }
            }
        }
        assert forall|p: Handle, i: int|
            #![trigger r.children[p][i]]
            r.children.contains_key(p) && 0 <= i < r.children[p].len() implies {
            &&& r.children.contains_key(r.children[p][i])
            &&& r.parent.contains_key(r.children[p][i])
            &&& r.parent[r.children[p][i]] == p
        } by {
            if p == parent {
                if i == index {
                } else {
                    let e = if i < index { i } else { i - 1 };
                    assert(new_list[i] == m.children[p][e]);
                    assert(m.children[p][e] != child);
                }
            } else {
                m.lemma_unattached_not_listed(child, p);
                assert(r.children[p][i] == m.children[p][i]);
                assert(m.children_of(p).contains(m.children[p][i]));
            }
        }
        assert forall|c: Handle|
            #![trigger r.parent.contains_key(c)]
            #![trigger r.parent[c]]
            r.parent.contains_key(c) implies {
            &&& r.children.contains_key(c)
            &&& r.children.contains_key(r.parent[c])
            &&& r.children[r.parent[c]].contains(c)
        } by {
            if c == child {
                assert(new_list[index] == child);
            } else {
                let q = m.parent[c];
                assert(m.children[q].contains(c));
                if q == parent {
                    let k = choose|k: int| 0 <= k < old_list.len() && old_list[k] == c;
                    let k2 = if k < index { k } else { k + 1 };
                    assert(new_list[k2] == c);
                }
            }
        }
        assert forall|p: Handle|
            #![trigger r.children.contains_key(p)]
            #![trigger r.children[p]]
            r.children.contains_key(p) implies r.children[p].no_duplicates() by {
            if p != parent {
                assert(r.children[p] == m.children[p]);
            }
        }
    }
}

/// One layout node: the node it is a child of, and its own children in order.
struct LayoutNode {
    parent: Option<Handle>,
    children: Vec<Handle>,
}

/// What a map of nodes, keyed by raw handle, says as a tree.
spec fn model_of(nodes: Map<u64, LayoutNode>) -> LayoutModel {
    LayoutModel {
        children: Map::new(
            |h: Handle| nodes.contains_key(h.raw),
            |h: Handle| nodes[h.raw].children@,
        ),
        parent: Map::new(
            |h: Handle| nodes.contains_key(h.raw) && nodes[h.raw].parent.is_some(),
            |h: Handle| nodes[h.raw].parent.unwrap(),
        ),
    }
}

/// The layout tree. Nodes are found by the native handle they belong to and
/// are made on first request; a node is never removed.
pub struct LayoutTree {
    nodes: HashMap<u64, LayoutNode>,
}

impl View for LayoutTree {
    type V = LayoutModel;

    closed spec fn view(&self) -> LayoutModel {
        model_of(self.nodes@)
    }
}

impl LayoutTree {
    #[verifier::type_invariant]
    spec fn inv(self) -> bool {
        model_of(self.nodes@).wf()
    }

    /// A tree without nodes.
    pub fn new() -> (tree: LayoutTree)
        ensures
            tree@ == LayoutModel::empty(),
            tree@.wf(),
    {
        let tree = LayoutTree { nodes: HashMap::new() };
        assert(tree@.children =~= Map::empty());
        assert(tree@.parent =~= Map::empty());
        tree
    }

    /// Whether `h` has a layout node yet.
    pub fn has_node(&self, h: Handle) -> (found: bool)
        ensures
            found == self@.has_node(h),
    {
        self.nodes.contains_key(&h.raw)
    }

    /// Looks up the layout node of `h`, making one without children or parent
    /// if there is none. Says whether it had to be made.
    pub fn layout_node(&mut self, h: Handle) -> (created: bool)
        ensures
            final(self)@ == old(self)@.with_node(h),
            created == !old(self)@.has_node(h),
            final(self)@.wf(),
    {
        proof {
            use_type_invariant(&*self);
            old(self)@.lemma_with_node_wf(h);
        }
        if self.nodes.contains_key(&h.raw) {
            false
        } else {
            let mut nodes: HashMap<u64, LayoutNode> = HashMap::new();
            core::mem::swap(&mut nodes, &mut self.nodes);
            nodes.insert(h.raw, LayoutNode { parent: None, children: Vec::new() });
            proof {
                let m = model_of(nodes@);
                let w = old(self)@.with_node(h);
                assert(m.children =~= w.children);
                assert(m.parent =~= w.parent);
            }
            self.nodes = nodes;
            true
        }
    }

    /// How many children the node of `h` has; none where `h` has no node.
    pub fn child_count(&self, h: Handle) -> (count: usize)
        ensures
            count == self@.children_of(h).len(),
    {
        match self.nodes.get(&h.raw) {
            Some(node) => node.children.len(),
            None => 0,
        }
    }

    /// The child at position `index` of the node of `h`, if it has that many.
    pub fn child_at(&self, h: Handle, index: usize) -> (child: Option<Handle>)
        ensures
            child == (if index < self@.children_of(h).len() {
                Some(self@.children_of(h)[index as int])
            } else {
                None
            }),
    {
        match self.nodes.get(&h.raw) {
            Some(node) => {
                if index < node.children.len() {
                    Some(node.children[index])
                } else {
                    None
                }
            },
            None => None,
        }
    }

    /// The node that the node of `h` is a child of, if any.
    pub fn parent_of(&self, h: Handle) -> (parent: Option<Handle>)
        ensures
            parent == self@.parent_of(h),
    {
        match self.nodes.get(&h.raw) {
            Some(node) => node.parent,
            None => None,
        }
    }

    /// Whether the node of `h` is some node's child.
    pub fn is_attached(&self, h: Handle) -> (attached: bool)
        ensures
            attached == self@.is_attached(h),
    {
        self.parent_of(h).is_some()
    }

    /// Makes `child` the child at position `index` of `parent`; the children
    /// that stood at `index` and after move one position up. Both nodes are
    /// made first if they do not exist.
    ///
    /// `child` must be nobody's child yet, and `index` at most the number of
    /// children `parent` has.
    pub fn insert_child(&mut self, parent: Handle, child: Handle, index: usize)
        requires
            !old(self)@.is_attached(child),
            index <= old(self)@.children_of(parent).len(),
        ensures
            final(self)@ == old(self)@.insert_child(parent, child, index as int),
            final(self)@.wf(),
    {
        proof {
            use_type_invariant(&*self);
            old(self)@.lemma_insert_child_wf(parent, child, index as int);
        }
        let ghost before = old(self)@;
        let ghost target = before.insert_child(parent, child, index as int);
        let mut nodes: HashMap<u64, LayoutNode> = HashMap::new();
        core::mem::swap(&mut nodes, &mut self.nodes);
        let mut parent_node = match nodes.remove(&parent.raw) {
            Some(node) => node,
            None => LayoutNode { parent: None, children: Vec::new() },
        };
        assert(parent_node.children@ == before.children_of(parent));
        parent_node.children.insert(index, child);
        if parent.raw == child.raw {
            parent_node.parent = Some(parent);
            nodes.insert(parent.raw, parent_node);
        } else {
            nodes.insert(parent.raw, parent_node);
            let mut child_node = match nodes.remove(&child.raw) {
                Some(node) => node,
                None => LayoutNode { parent: None, children: Vec::new() },
            };
            child_node.parent = Some(parent);
            nodes.insert(child.raw, child_node);
        }
        proof {
            let m = model_of(nodes@);
            assert(m.children =~= target.children);
            assert(m.parent =~= target.parent);
        }
        self.nodes = nodes;
    }
}

} // verus!
