//! The node tree: the layout tree and the native view tree side by side.
//!
//! Every view has a list of native subviews, which the platform holds, and a
//! list of layout children, which the layout tree holds. The two lists of a
//! view name the same nodes in the same order at all times: a child enters
//! both at the same position, or neither.

use crate::handle::Handle;
use crate::layout::LayoutModel;
use crate::layout::LayoutTree;
use std::collections::HashMap;
use vstd::prelude::*;

verus! {

broadcast use vstd::std_specs::hash::group_hash_axioms;

/// The node tree as mathematics.
pub struct TreeModel {
    /// The layout tree.
    pub layout: LayoutModel,
    /// For each view that was given a subview: its native subviews, first to last.
    pub native: Map<Handle, Seq<Handle>>,
}

impl TreeModel {
    /// The tree of a platform on which no view has a subview.
    pub open spec fn empty() -> TreeModel {
        TreeModel { layout: LayoutModel::empty(), native: Map::empty() }
    }

    /// The native subviews of `h`, first to last.
    pub open spec fn subviews_of(self, h: Handle) -> Seq<Handle> {
        if self.native.contains_key(h) {
            self.native[h]
        } else {
            Seq::empty()
        }
    }

    /// Every view's native subviews are its layout children, position by position.
    pub open spec fn aligned(self) -> bool {
        forall|h: Handle| #[trigger] self.subviews_of(h) == self.layout.children_of(h)
    }

    /// The layout tree is well formed and the two trees are aligned.
    pub open spec fn wf(self) -> bool {
        self.layout.wf() && self.aligned()
    }

    /// The tree after `child` was added to `parent`: it is the last layout
    /// child and the last native subview of `parent`.
    pub open spec fn attach(self, parent: Handle, child: Handle) -> TreeModel {
        TreeModel {
            layout: self.layout.insert_child(
                parent,
                child,
                self.layout.children_of(parent).len() as int,
            ),
            native: self.native.insert(parent, self.subviews_of(parent).push(child)),
        }
    }

    /// The tree after the outcome of one addition was recorded: with `child`
    /// added where the native side took it, unchanged where it did not.
    pub open spec fn after_add(
        self,
        parent: Handle,
        child: Handle,
        native_inserted: bool,
    ) -> TreeModel {
        if native_inserted {
            self.attach(parent, child)
        } else {
            self
        }
    }

    /// The tree after the outcomes of additions to `parent` were recorded,
    /// first to last: each call names the node and says whether the native
    /// side took it.
    pub open spec fn after_adds(self, parent: Handle, calls: Seq<(Handle, bool)>) -> TreeModel
        decreases calls.len(),
    {
        if calls.len() == 0 {
            self
        } else {
            self.after_adds(parent, calls.drop_last()).after_add(
                parent,
                calls.last().0,
                calls.last().1,
            )
        }
    }

    /// The nodes of those `calls` that the native side took, in the order of the calls.
    pub open spec fn taken(calls: Seq<(Handle, bool)>) -> Seq<Handle>
        decreases calls.len(),
    {
        if calls.len() == 0 {
            Seq::empty()
        } else if calls.last().1 {
            TreeModel::taken(calls.drop_last()).push(calls.last().0)
        } else {
            TreeModel::taken(calls.drop_last())
        }
    }

    /// The tree after each of `children` was added to `parent`, first to last.
    pub open spec fn attach_all(self, parent: Handle, children: Seq<Handle>) -> TreeModel
        decreases children.len(),
    {
        if children.len() == 0 {
            self
        } else {
            self.attach_all(parent, children.drop_last()).attach(parent, children.last())
        }
    }

    /// What one addition does to each list: the parent's two lists get the
    /// child at their end, and no other list changes.
    pub proof fn lemma_attach_lists(self, parent: Handle, child: Handle)
        ensures
            self.attach(parent, child).layout.children_of(parent)
                == self.layout.children_of(parent).push(child),
            self.attach(parent, child).subviews_of(parent) == self.subviews_of(parent).push(child),
            forall|h: Handle|
                h != parent ==> #[trigger] self.attach(parent, child).layout.children_of(h)
                    == self.layout.children_of(h),
            forall|h: Handle|
                h != parent ==> #[trigger] self.attach(parent, child).subviews_of(h)
                    == self.subviews_of(h),
    {
        let list = self.layout.children_of(parent);
        assert(list.insert(list.len() as int, child) =~= list.push(child));
    }

    /// What one addition does to the parent links: the child gets the parent
    /// it was added to, and no other node's link changes.
    pub proof fn lemma_attach_parents(self, parent: Handle, child: Handle)
        ensures
            self.attach(parent, child).layout.parent_of(child) == Some(parent),
            forall|h: Handle|
                h != child ==> #[trigger] self.attach(parent, child).layout.parent_of(h)
                    == self.layout.parent_of(h),
    {
    }

    /// One addition keeps the two trees aligned, whatever the tree and the nodes.
    pub proof fn lemma_attach_aligned(self, parent: Handle, child: Handle)
        requires
            self.aligned(),
        ensures
            self.attach(parent, child).aligned(),
    {
        self.lemma_attach_lists(parent, child);
        let r = self.attach(parent, child);
        assert forall|h: Handle| #[trigger] r.subviews_of(h) == r.layout.children_of(h) by {
            assert(self.subviews_of(h) == self.layout.children_of(h));
        }
    }

    /// One addition of a node that is nobody's child keeps the whole tree well formed.
    pub proof fn lemma_attach_wf(self, parent: Handle, child: Handle)
        requires
            self.wf(),
            !self.layout.is_attached(child),
        ensures
            self.attach(parent, child).wf(),
    {
        self.lemma_attach_aligned(parent, child);
        self.layout.lemma_insert_child_wf(
            parent,
            child,
            self.layout.children_of(parent).len() as int,
        );
    }

    /// For every sequence of additions to one parent, the layout children and
    /// the native subviews of that parent are the same list afterwards: what
    /// the parent had, followed by the added nodes in the order of the calls.
    /// Every other view's lists stay as they were, and the trees stay aligned.
    pub proof fn lemma_additions_keep_order(self, parent: Handle, children: Seq<Handle>)
        requires
            self.aligned(),
        ensures
            self.attach_all(parent, children).aligned(),
            self.attach_all(parent, children).layout.children_of(parent)
                == self.layout.children_of(parent) + children,
            self.attach_all(parent, children).subviews_of(parent) == self.subviews_of(parent)
                + children,
            forall|h: Handle|
                h != parent ==> #[trigger] self.attach_all(parent, children).subviews_of(h)
                    == self.subviews_of(h),
        decreases children.len(),
    {
        if children.len() == 0 {
            assert(self.layout.children_of(parent) + children =~= self.layout.children_of(parent));
            assert(self.subviews_of(parent) + children =~= self.subviews_of(parent));
        } else {
            let before = self.attach_all(parent, children.drop_last());
            self.lemma_additions_keep_order(parent, children.drop_last());
            before.lemma_attach_lists(parent, children.last());
            before.lemma_attach_aligned(parent, children.last());
            let after = before.attach(parent, children.last());
            assert(children =~= children.drop_last().push(children.last()));
            assert(after.layout.children_of(parent) =~= self.layout.children_of(parent)
                + children);
            assert(after.subviews_of(parent) =~= self.subviews_of(parent) + children);
            assert forall|h: Handle| h != parent implies #[trigger] after.subviews_of(h)
                == self.subviews_of(h) by {
                assert(before.subviews_of(h) == self.subviews_of(h));
            }
        }
    }

    /// For every sequence of calls, whatever their outcomes: the tree is the
    /// one that the additions which the native side took lead to. A call
    /// that failed leaves no trace, so the parent's layout children and its
    /// native subviews are the same list after any sequence of calls: what
    /// the parent had, followed by the nodes that were taken, in the order
    /// of the calls.
    pub proof fn lemma_calls_keep_order(self, parent: Handle, calls: Seq<(Handle, bool)>)
        requires
            self.aligned(),
        ensures
            self.after_adds(parent, calls) == self.attach_all(parent, TreeModel::taken(calls)),
            self.after_adds(parent, calls).aligned(),
            self.after_adds(parent, calls).layout.children_of(parent) == self.layout.children_of(
                parent,
            ) + TreeModel::taken(calls),
            self.after_adds(parent, calls).subviews_of(parent) == self.subviews_of(parent)
                + TreeModel::taken(calls),
        decreases calls.len(),
    {
        if calls.len() > 0 {
            self.lemma_calls_keep_order(parent, calls.drop_last());
            if calls.last().1 {
                let init = TreeModel::taken(calls.drop_last());
                assert(init.push(calls.last().0).drop_last() =~= init);
            }
        }
        self.lemma_additions_keep_order(parent, TreeModel::taken(calls));
    }

    /// Additions of distinct nodes, none of them anybody's child before,
    /// keep the whole tree well formed: each of them may be made when its
    /// turn comes, and afterwards each added node is a child of `parent`.
    pub proof fn lemma_additions_keep_wf(self, parent: Handle, children: Seq<Handle>)
        requires
            self.wf(),
            children.no_duplicates(),
            forall|i: int|
                0 <= i < children.len() ==> !self.layout.is_attached(#[trigger] children[i]),
        ensures
            self.attach_all(parent, children).wf(),
            forall|h: Handle| #[trigger]
                self.attach_all(parent, children).layout.is_attached(h) <==> (
                self.layout.is_attached(h) || children.contains(h)),
            forall|i: int|
                0 <= i < children.len() ==> self.attach_all(parent, children).layout.parent_of(
                    #[trigger] children[i],
                ) == Some(parent),
        decreases children.len(),
    {
        if children.len() > 0 {
            let init = children.drop_last();
            let last = children.last();
            let before = self.attach_all(parent, init);
            self.lemma_additions_keep_wf(parent, init);
            assert(!init.contains(last)) by {
                if init.contains(last) {
                    let k = choose|k: int| 0 <= k < init.len() && init[k] == last;
                    assert(children[k] == children[children.len() - 1]);
                }
            }
            assert(!self.layout.is_attached(children[children.len() - 1]));
            assert(!before.layout.is_attached(last));
            before.lemma_attach_wf(parent, last);
            before.lemma_attach_parents(parent, last);
            let after = before.attach(parent, last);
            assert forall|h: Handle| #[trigger]
                after.layout.is_attached(h) <==> (self.layout.is_attached(h) || children.contains(
                    h,
                )) by {
                if h == last {
                    assert(after.layout.parent_of(last) == Some(parent));
                    assert(children[children.len() - 1] == h);
                } else {
                    assert(after.layout.parent_of(h) == before.layout.parent_of(h));
                    assert(after.layout.is_attached(h) == before.layout.is_attached(h));
                    assert(before.layout.is_attached(h) <==> (self.layout.is_attached(h)
                        || init.contains(h)));
                    if children.contains(h) {
                        let k = choose|k: int| 0 <= k < children.len() && children[k] == h;
                        assert(init[k] == h);
                    }
                    if init.contains(h) {
                        let k = choose|k: int| 0 <= k < init.len() && init[k] == h;
                        assert(children[k] == h);
                    }
                }
            }
            assert forall|i: int| 0 <= i < children.len() implies after.layout.parent_of(
                #[trigger] children[i],
            ) == Some(parent) by {
                if i < children.len() - 1 {
                    assert(init[i] == children[i]);
                    assert(children[i] != last);
                    assert(after.layout.parent_of(children[i]) == before.layout.parent_of(
                        children[i],
                    ));
                }
            }
        }
    }

    /// Additions to a view of an empty tree: its layout children and its
    /// native subviews are then exactly the added nodes, in the order of the
    /// calls.
    pub proof fn lemma_additions_to_empty(parent: Handle, children: Seq<Handle>)
        ensures
            TreeModel::empty().attach_all(parent, children).layout.children_of(parent)
                == children,
            TreeModel::empty().attach_all(parent, children).subviews_of(parent) == children,
    {
        let empty = TreeModel::empty();
        empty.lemma_additions_keep_order(parent, children);
        assert(empty.layout.children_of(parent) + children =~= children);
        assert(empty.subviews_of(parent) + children =~= children);
    }
}

/// The native side declined to take a subview. Nothing was added to either tree.
#[derive(Clone, Copy, Debug, PartialEq, Eq, Structural)]
pub struct TreeInsertionFailed;

/// What a map of subview lists, keyed by raw handle, says as a native tree.
spec fn native_of(lists: Map<u64, Vec<Handle>>) -> Map<Handle, Seq<Handle>> {
    Map::new(|h: Handle| lists.contains_key(h.raw), |h: Handle| lists[h.raw]@)
}

/// The node tree: the layout tree, and the record of what each native view
/// was given as subviews, kept position by position the same.
pub struct NodeTree {
    layout: LayoutTree,
    native: HashMap<u64, Vec<Handle>>,
}

impl View for NodeTree {
    type V = TreeModel;

    closed spec fn view(&self) -> TreeModel {
        TreeModel { layout: self.layout@, native: native_of(self.native@) }
    }
}

impl NodeTree {
    #[verifier::type_invariant]
    spec fn inv(self) -> bool {
        TreeModel { layout: self.layout@, native: native_of(self.native@) }.wf()
    }

    /// The tree of a platform on which no view has a subview yet.
    pub fn new() -> (tree: NodeTree)
        ensures
            tree@ == TreeModel::empty(),
            tree@.wf(),
    {
        let layout = LayoutTree::new();
        let native: HashMap<u64, Vec<Handle>> = HashMap::new();
        assert(native_of(native@) =~= Map::empty());
        NodeTree { layout, native }
    }

    /// The layout tree, to be read.
    pub fn layout(&self) -> (layout: &LayoutTree)
        ensures
            layout@ == self@.layout,
            self@.wf(),
    {
        proof {
            use_type_invariant(self);
        }
        &self.layout
    }

    /// Looks up the layout node of `h`, making one without children or parent
    /// if there is none. Says whether it had to be made.
    pub fn layout_node(&mut self, h: Handle) -> (created: bool)
        ensures
            final(self)@ == (TreeModel {
                layout: old(self)@.layout.with_node(h),
                native: old(self)@.native,
            }),
            created == !old(self)@.layout.has_node(h),
            final(self)@.wf(),
    {
        proof {
            use_type_invariant(&*self);
        }
        let mut taken = NodeTree::new();
        core::mem::swap(&mut taken, self);
        let NodeTree { mut layout, native } = taken;
        let created = layout.layout_node(h);
        proof {
            let before = old(self)@;
            let after = TreeModel { layout: layout@, native: native_of(native@) };
            assert forall|k: Handle| #[trigger] after.subviews_of(k) == after.layout.children_of(
                k,
            ) by {
                assert(before.subviews_of(k) == before.layout.children_of(k));
            }
        }
        *self = NodeTree { layout, native };
        created
    }

    /// How many native subviews `h` was given.
    pub fn subview_count(&self, h: Handle) -> (count: usize)
        ensures
            count == self@.subviews_of(h).len(),
            count == self@.layout.children_of(h).len(),
    {
        proof {
            use_type_invariant(self);
            assert(self@.subviews_of(h) == self@.layout.children_of(h));
        }
        match self.native.get(&h.raw) {
            Some(list) => list.len(),
            None => 0,
        }
    }

    /// The native subview at position `index` of `h`, if it has that many.
    /// It is also the layout child at that position.
    pub fn subview_at(&self, h: Handle, index: usize) -> (subview: Option<Handle>)
        ensures
            subview == (if index < self@.subviews_of(h).len() {
                Some(self@.subviews_of(h)[index as int])
            } else {
                None
            }),
            self@.subviews_of(h) == self@.layout.children_of(h),
    {
        proof {
            use_type_invariant(self);
            assert(self@.subviews_of(h) == self@.layout.children_of(h));
        }
        match self.native.get(&h.raw) {
            Some(list) => {
                if index < list.len() {
                    Some(list[index])
                } else {
                    None
                }
            },
            None => None,
        }
    }

    /// Whether `h` is some view's child already.
    pub fn is_attached(&self, h: Handle) -> (attached: bool)
        ensures
            attached == self@.layout.is_attached(h),
    {
        self.layout.is_attached(h)
    }

    /// Records the outcome of handing `child` to the native `parent` as a
    /// subview.
    ///
    /// Where the native side took it (`native_inserted`), `child` becomes the
    /// last layout child of `parent`, at the position equal to the number of
    /// children `parent` had, and the last native subview on record, at the
    /// same position. Where it did not, nothing changes and the failure is
    /// returned.
    ///
    /// `child` must be nobody's child yet.
    pub fn attach(&mut self, parent: Handle, child: Handle, native_inserted: bool) -> (done: Result<
        (),
        TreeInsertionFailed,
    >)
        requires
            !old(self)@.layout.is_attached(child),
        ensures
            final(self)@ == old(self)@.after_add(parent, child, native_inserted),
            done == (if native_inserted {
                Ok::<(), TreeInsertionFailed>(())
            } else {
                Err::<(), TreeInsertionFailed>(TreeInsertionFailed)
            }),
            final(self)@.wf(),
    {
        proof {
            use_type_invariant(&*self);
        }
        if !native_inserted {
            return Err(TreeInsertionFailed);
        }
        let ghost before = old(self)@;
        proof {
            before.lemma_attach_wf(parent, child);
            before.lemma_attach_lists(parent, child);
            assert(before.subviews_of(parent) == before.layout.children_of(parent));
        }
        let mut taken = NodeTree::new();
        core::mem::swap(&mut taken, self);
        let NodeTree { mut layout, mut native } = taken;
        layout.layout_node(parent);
        let count = layout.child_count(parent);
        layout.layout_node(child);
        layout.insert_child(parent, child, count);
        let mut list = match native.remove(&parent.raw) {
            Some(list) => list,
            None => Vec::new(),
        };
        list.push(child);
        native.insert(parent.raw, list);
        proof {
            let target = before.attach(parent, child);
            assert(layout@.children =~= target.layout.children);
            assert(layout@.parent =~= target.layout.parent);
            assert(native_of(native@) =~= target.native);
        }
        *self = NodeTree { layout, native };
        Ok(())
    }
}

} // verus!
