use vstd::prelude::*;

use crate::selection::NodeId;

verus! {

/// Where a node stands in the document tree.
#[derive(Clone, Copy, Debug, PartialEq, Eq, Structural)]
pub struct NodeLinks {
    pub parent: Option<NodeId>,
    pub first_child: Option<NodeId>,
    pub last_child: Option<NodeId>,
    pub next_sibling: Option<NodeId>,
    pub prev_sibling: Option<NodeId>,
}

impl NodeLinks {
    /// The links of a node that is in no tree yet.
    pub fn detached() -> (l: Self)
        ensures
            l == detached_links(),
    {
        NodeLinks { parent: None, first_child: None, last_child: None, next_sibling: None, prev_sibling: None }
    }
}

pub open spec fn detached_links() -> NodeLinks {
    NodeLinks { parent: None, first_child: None, last_child: None, next_sibling: None, prev_sibling: None }
}

/// The links of the nodes of a document, by node identifier.
pub struct DomTree {
    slots: Vec<Option<NodeLinks>>,
}

impl View for DomTree {
    type V = Map<NodeId, NodeLinks>;

    closed spec fn view(&self) -> Map<NodeId, NodeLinks> {
        Map::new(
            |i: NodeId| i < self.slots@.len() && self.slots@[i as int] is Some,
            |i: NodeId| self.slots@[i as int]->0,
        )
    }
}

impl DomTree {
    /// A bound on the length of any chain of distinct nodes, used as a
    /// budget when following links: one more than the slots, saturated.
    pub closed spec fn bound(&self) -> nat {
        if self.slots@.len() < usize::MAX {
            (self.slots@.len() + 1) as nat
        } else {
            usize::MAX as nat
        }
    }

    fn budget(&self) -> (b: usize)
        ensures
            b == self.bound(),
    {
        let n = self.slots.len();
        if n < usize::MAX {
            n + 1
        } else {
            n
        }
    }

    pub fn new() -> (t: Self)
        ensures
            t@ == Map::<NodeId, NodeLinks>::empty(),
    {
        let t = DomTree { slots: Vec::new() };
        assert(t@ =~= Map::<NodeId, NodeLinks>::empty());
        t
    }

    pub fn contains(&self, id: NodeId) -> (b: bool)
        ensures
            b == self@.contains_key(id),
    {
        id < self.slots.len() && self.slots[id].is_some()
    }

    pub fn get(&self, id: NodeId) -> (r: Option<NodeLinks>)
        ensures
            r == (if self@.contains_key(id) {
                Some(self@[id])
            } else {
                None
            }),
    {
        if id < self.slots.len() {
            self.slots[id]
        } else {
            None
        }
    }

    /// Adds a node that is in no tree yet.
    pub fn add_node(&mut self, id: NodeId)
        requires
            !old(self)@.contains_key(id),
            id < usize::MAX,
        ensures
            final(self)@ == old(self)@.insert(id, detached_links()),
    {
        let ghost before = self@;
        while self.slots.len() <= id
            invariant
                self@ == before,
                id < usize::MAX,
            decreases id + 1 - self.slots@.len(),
        {
            let ghost s0 = self.slots@;
            self.slots.push(None);
            proof {
                assert(self@ =~= before) by {
                    assert forall|i: NodeId| #[trigger] self@.contains_key(i) == before.contains_key(i) by {
                        if i < s0.len() {
                            assert(self.slots@[i as int] == s0[i as int]);
                        }
                    }
                }
            }
        }
        let ghost s1 = self.slots@;
        self.slots.set(id, Some(NodeLinks::detached()));
        proof {
            assert(self@ =~= before.insert(id, detached_links())) by {
                assert forall|i: NodeId| #[trigger] self@.contains_key(i) == before.insert(
                    id,
                    detached_links(),
                ).contains_key(i) by {
                    if i != id && i < s1.len() {
                        assert(self.slots@[i as int] == s1[i as int]);
                    }
                }
                assert forall|i: NodeId| #[trigger] self@.contains_key(i) implies self@[i] == before.insert(
                    id,
                    detached_links(),
                )[i] by {
                    if i != id {
                        assert(self.slots@[i as int] == s1[i as int]);
                    }
                }
            }
        }
    }

    /// Drops a node's links.
    pub fn remove_node(&mut self, id: NodeId)
        requires
            old(self)@.contains_key(id),
        ensures
            final(self)@ == old(self)@.remove(id),
            final(self).bound() == old(self).bound(),
    {
        let ghost before = self@;
        let ghost s0 = self.slots@;
        self.slots.set(id, None);
        proof {
            assert(self@ =~= before.remove(id)) by {
                assert forall|i: NodeId| #[trigger] self@.contains_key(i) == before.remove(id).contains_key(i) by {
                    if i != id && i < s0.len() {
                        assert(self.slots@[i as int] == s0[i as int]);
                    }
                }
                assert forall|i: NodeId| #[trigger] self@.contains_key(i) implies self@[i] == before.remove(id)[i] by {
                    assert(self.slots@[i as int] == s0[i as int]);
                }
            }
        }
    }

    /// Replaces a node's links.
    fn set_links(&mut self, id: NodeId, links: NodeLinks)
        requires
            old(self)@.contains_key(id),
        ensures
            final(self)@ == old(self)@.insert(id, links),
            final(self).bound() == old(self).bound(),
    {
        let ghost before = self@;
        let ghost s0 = self.slots@;
        self.slots.set(id, Some(links));
        proof {
            assert(self@ =~= before.insert(id, links)) by {
                assert forall|i: NodeId| #[trigger] self@.contains_key(i) == before.insert(id, links).contains_key(i) by {
                    if i != id && i < s0.len() {
                        assert(self.slots@[i as int] == s0[i as int]);
                    }
                }
                assert forall|i: NodeId| #[trigger] self@.contains_key(i) implies self@[i] == before.insert(
                    id,
                    links,
                )[i] by {
                    if i != id {
                        assert(self.slots@[i as int] == s0[i as int]);
                    }
                }
            }
        }
    }

    /// Makes `child` the last child of `parent`.
    pub fn append_child(&mut self, parent: NodeId, child: NodeId)
        requires
            old(self)@.contains_key(parent),
            old(self)@.contains_key(child),
            old(self)@[parent].last_child matches Some(l) ==> old(self)@.contains_key(l),
        ensures
            final(self)@ == append_links(old(self)@, parent, child),
            final(self).bound() == old(self).bound(),
    {
        let old_last = self.get(parent).unwrap().last_child;
        let mut cl = self.get(child).unwrap();
        cl.parent = Some(parent);
        cl.prev_sibling = old_last;
        cl.next_sibling = None;
        self.set_links(child, cl);
        match old_last {
            Some(l) => {
                let mut ll = self.get(l).unwrap();
                ll.next_sibling = Some(child);
                self.set_links(l, ll);
            },
            None => {
                let mut pl = self.get(parent).unwrap();
                pl.first_child = Some(child);
                self.set_links(parent, pl);
            },
        }
        let mut pl = self.get(parent).unwrap();
        pl.last_child = Some(child);
        self.set_links(parent, pl);
    }

    /// Puts `child` among the children of `parent` just before `before`, a
    /// child of `parent`.
    pub fn insert_before(&mut self, parent: NodeId, child: NodeId, before: NodeId)
        requires
            old(self)@.contains_key(parent),
            old(self)@.contains_key(child),
            old(self)@.contains_key(before),
            old(self)@[before].parent == Some(parent),
            old(self)@[before].prev_sibling matches Some(q) ==> old(self)@.contains_key(q),
        ensures
            final(self)@ == insert_before_links(old(self)@, parent, child, before),
            final(self).bound() == old(self).bound(),
    {
        let prev = self.get(before).unwrap().prev_sibling;
        let mut cl = self.get(child).unwrap();
        cl.parent = Some(parent);
        cl.next_sibling = Some(before);
        cl.prev_sibling = prev;
        self.set_links(child, cl);
        let mut bl = self.get(before).unwrap();
        bl.prev_sibling = Some(child);
        self.set_links(before, bl);
        match prev {
            Some(q) => {
                let mut ql = self.get(q).unwrap();
                ql.next_sibling = Some(child);
                self.set_links(q, ql);
            },
            None => {
                let mut pl = self.get(parent).unwrap();
                pl.first_child = Some(child);
                self.set_links(parent, pl);
            },
        }
    }

    /// Takes `child` out of the list of children of `parent`, joining its
    /// neighbours. The child's own links are left as they were.
    pub fn unlink_child(&mut self, parent: NodeId, child: NodeId)
        requires
            old(self)@.contains_key(parent),
            old(self)@.contains_key(child),
            old(self)@[child].prev_sibling matches Some(q) ==> old(self)@.contains_key(q),
            old(self)@[child].next_sibling matches Some(r) ==> old(self)@.contains_key(r),
        ensures
            final(self)@ == unlink_links(old(self)@, parent, child),
            final(self).bound() == old(self).bound(),
    {
        let cl = self.get(child).unwrap();
        let prev = cl.prev_sibling;
        let next = cl.next_sibling;
        match prev {
            Some(q) => {
                let mut ql = self.get(q).unwrap();
                ql.next_sibling = next;
                self.set_links(q, ql);
            },
            None => {
                let mut pl = self.get(parent).unwrap();
                pl.first_child = next;
                self.set_links(parent, pl);
            },
        }
        match next {
            Some(r) => {
                let mut rl = self.get(r).unwrap();
                rl.prev_sibling = prev;
                self.set_links(r, rl);
            },
            None => {
                let mut pl = self.get(parent).unwrap();
                pl.last_child = prev;
                self.set_links(parent, pl);
            },
        }
    }

    /// The nodes the pointer is over when `top` is the topmost node under
    /// it: `top` and its ancestors, root first (see `ancestor_path`).
    pub fn hover_path(&self, top: NodeId) -> (r: Option<Vec<NodeId>>)
        ensures
            match r {
                Some(v) => ancestors_within(self@, top, self.bound()) matches Some(a) && v@ == a.reverse(),
                None => ancestors_within(self@, top, self.bound()) is None,
            },
    {
        match self.ancestor_path(top) {
            None => None,
            Some(path) => {
                let n = path.len();
                let mut out: Vec<NodeId> = Vec::new();
                let mut k: usize = n;
                while k > 0
                    invariant
                        k <= n,
                        n == path@.len(),
                        out@ == path@.subrange(k as int, n as int).reverse(),
                    decreases k,
                {
                    k = k - 1;
                    out.push(path[k]);
                    assert(out@ =~= path@.subrange(k as int, n as int).reverse());
                }
                assert(path@.subrange(0, n as int) =~= path@);
                Some(out)
            },
        }
    }

    /// The node and its ancestors, nearest first, following parent links
    /// until a node without a parent or a node that is not in the tree;
    /// `None` when the chain does not end within `bound()` steps, that is when
    /// it runs in a circle.
    pub fn ancestor_path(&self, id: NodeId) -> (r: Option<Vec<NodeId>>)
        ensures
            match r {
                Some(v) => ancestors_within(self@, id, self.bound()) == Some(v@),
                None => ancestors_within(self@, id, self.bound()) is None,
            },
    {
        let mut path: Vec<NodeId> = Vec::new();
        let mut cur = id;
        let mut fuel = self.budget();
        while fuel > 0
            invariant
                ancestors_within(self@, id, self.bound()) == (match ancestors_within(self@, cur, fuel as nat) {
                    Some(s) => Some(path@ + s),
                    None => None::<Seq<NodeId>>,
                }),
            decreases fuel,
        {
            path.push(cur);
            let parent = match self.get(cur) {
                Some(l) => l.parent,
                None => None,
            };
            match parent {
                None => {
                    proof {
                        assert(ancestors_within(self@, cur, fuel as nat) == Some(seq![cur]));
                        assert(path@ =~= (path@.drop_last() + seq![cur]));
                    }
                    return Some(path);
                },
                Some(p) => {
                    proof {
                        let before = path@.drop_last();
                        assert(path@ =~= before.push(cur));
                        match ancestors_within(self@, p, (fuel - 1) as nat) {
                            Some(t) => {
                                assert(before + (seq![cur] + t) =~= path@ + t);
                            },
                            None => {},
                        }
                    }
                    cur = p;
                    fuel = fuel - 1;
                },
            }
        }
        None
    }

    /// The chain of siblings from `start` on, within `width` steps.
    fn sibling_chain_exec(&self, start: Option<NodeId>, width: usize) -> (r: Option<Vec<NodeId>>)
        ensures
            match r {
                Some(v) => sibling_chain(self@, start, width as nat) == Some(v@),
                None => sibling_chain(self@, start, width as nat) is None,
            },
    {
        let mut out: Vec<NodeId> = Vec::new();
        let mut cur = start;
        let mut fuel = width;
        loop
            invariant
                sibling_chain(self@, start, width as nat) == (match sibling_chain(self@, cur, fuel as nat) {
                    Some(s) => Some(out@ + s),
                    None => None::<Seq<NodeId>>,
                }),
            decreases fuel,
        {
            match cur {
                None => {
                    assert(out@ + Seq::<NodeId>::empty() =~= out@);
                    return Some(out);
                },
                Some(c) => {
                    if fuel == 0 {
                        return None;
                    }
                    let next = match self.get(c) {
                        Some(l) => l.next_sibling,
                        None => None,
                    };
                    proof {
                        match sibling_chain(self@, next, (fuel - 1) as nat) {
                            Some(t) => {
                                assert(out@ + (seq![c] + t) =~= out@.push(c) + t);
                            },
                            None => {},
                        }
                    }
                    out.push(c);
                    cur = next;
                    fuel = fuel - 1;
                },
            }
        }
    }

    /// Appends the subtree of `n` in the order a depth-first walk with a stack
    /// visits it (see `subtree_order`). Returns whether it fit the budgets.
    fn collect_into(&self, n: NodeId, depth: usize, width: usize, out: &mut Vec<NodeId>) -> (ok: bool)
        ensures
            ok == (subtree_order(self@, n, depth as nat, width as nat) is Some),
            ok ==> final(out)@ == old(out)@ + subtree_order(self@, n, depth as nat, width as nat)->0,
        decreases depth,
    {
        if depth == 0 {
            return false;
        }
        let ghost base = out@;
        out.push(n);
        if !self.contains(n) {
            return true;
        }
        let first = self.get(n).unwrap().first_child;
        let children = match self.sibling_chain_exec(first, width) {
            Some(c) => c,
            None => {
                return false;
            },
        };
        let len = children.len();
        let mut i = len;
        assert(children@.subrange(len as int, len as int) =~= Seq::<NodeId>::empty());
        while i > 0
            invariant
                i <= len,
                len == children@.len(),
                depth > 0,
                self@.contains_key(n),
                sibling_chain(self@, self@[n].first_child, width as nat) == Some(children@),
                subtrees_back(self@, children@.subrange(i as int, len as int), (depth - 1) as nat, width as nat) is Some,
                out@ == base.push(n) + subtrees_back(
                    self@,
                    children@.subrange(i as int, len as int),
                    (depth - 1) as nat,
                    width as nat,
                )->0,
            decreases i,
        {
            i = i - 1;
            let c = children[i];
            let ghost before_out = out@;
            let ok = self.collect_into(c, depth - 1, width, out);
            proof {
                let r = children@.subrange(i as int, len as int);
                assert(r.drop_first() =~= children@.subrange(i + 1, len as int));
                assert(r[0] == c);
            }
            if !ok {
                proof {
                    let r = children@.subrange(i as int, len as int);
                    assert(subtrees_back(self@, r, (depth - 1) as nat, width as nat) is None);
                    lemma_subtrees_back_none(self@, children@, i as int, (depth - 1) as nat, width as nat);
                    assert(sibling_chain(self@, self@[n].first_child, width as nat) == Some(children@));
                }
                return false;
            }
        }
        assert(children@.subrange(0, len as int) =~= children@);
        true
    }

    /// The identifiers of the subtree at `root`, in the order a depth-first
    /// walk with a stack visits it (see `subtree_order`); empty when `root` is
    /// not in the tree; `None` when a walk would not end.
    pub fn subtree_ids(&self, root: NodeId) -> (r: Option<Vec<NodeId>>)
        ensures
            !self@.contains_key(root) ==> (r matches Some(v) && v@.len() == 0),
            self@.contains_key(root) ==> match r {
                Some(v) => subtree_order(self@, root, self.bound(), self.bound()) == Some(v@),
                None => subtree_order(self@, root, self.bound(), self.bound()) is None,
            },
    {
        let mut out: Vec<NodeId> = Vec::new();
        if !self.contains(root) {
            return Some(out);
        }
        let b = self.budget();
        if self.collect_into(root, b, b, &mut out) {
            assert(out@ =~= subtree_order(self@, root, self.bound(), self.bound())->0);
            Some(out)
        } else {
            None
        }
    }

    /// A copy of the tree.
    fn copy(&self) -> (t: Self)
        ensures
            t@ == self@,
            t.bound() == self.bound(),
    {
        let mut slots: Vec<Option<NodeLinks>> = Vec::new();
        let n = self.slots.len();
        for i in 0..n
            invariant
                n == self.slots@.len(),
                slots@ == self.slots@.take(i as int),
        {
            slots.push(self.slots[i]);
            proof {
                assert(self.slots@.take(i + 1) =~= self.slots@.take(i as int).push(self.slots@[i as int]));
            }
        }
        assert(self.slots@.take(n as int) =~= self.slots@);
        let t = DomTree { slots };
        assert(t@ =~= self@);
        t
    }

    /// Whether every identifier is in the tree, none twice.
    pub fn can_remove_all(&self, ids: &[NodeId]) -> (b: bool)
        ensures
            b == removable(self@, ids@),
    {
        let n = ids.len();
        for i in 0..n
            invariant
                n == ids@.len(),
                forall|a: int| 0 <= a < i ==> self@.contains_key(#[trigger] ids@[a]),
                forall|a: int, b: int| 0 <= a < b < i ==> ids@[a] != ids@[b],
        {
            if !self.contains(ids[i]) {
                return false;
            }
            for j in 0..i
                invariant
                    n == ids@.len(),
                    i < n,
                    forall|a: int| 0 <= a <= i ==> self@.contains_key(#[trigger] ids@[a]),
                    forall|a: int, b: int| 0 <= a < b < i ==> ids@[a] != ids@[b],
                    forall|a: int| 0 <= a < j ==> ids@[a] != ids@[i as int],
            {
                if ids[j] == ids[i] {
                    return false;
                }
            }
        }
        true
    }

    /// Drops the links of nodes that are all in the tree, none twice.
    pub fn remove_nodes(&mut self, ids: &[NodeId])
        requires
            removable(old(self)@, ids@),
        ensures
            final(self)@ == old(self)@.remove_keys(ids@.to_set()),
            final(self).bound() == old(self).bound(),
    {
        let ghost m0 = self@;
        let n = ids.len();
        assert(ids@.take(0).to_set() =~= Set::<NodeId>::empty());
        assert(m0.remove_keys(Set::<NodeId>::empty()) =~= m0);
        for i in 0..n
            invariant
                n == ids@.len(),
                removable(m0, ids@),
                self@ == m0.remove_keys(ids@.take(i as int).to_set()),
                self.bound() == old(self).bound(),
        {
            let id = ids[i];
            proof {
                assert(!ids@.take(i as int).contains(id)) by {
                    if ids@.take(i as int).contains(id) {
                        let a = choose|a: int| 0 <= a < i && #[trigger] ids@.take(i as int)[a] == id;
                        assert(ids@[a] == ids@[i as int]);
                    }
                }
                assert(self@.contains_key(id));
            }
            self.remove_node(id);
            proof {
                assert(ids@.take(i + 1) =~= ids@.take(i as int).push(id));
                assert(ids@.take(i + 1).to_set() =~= ids@.take(i as int).to_set().insert(id)) by {
                    assert forall|x: NodeId| #[trigger] ids@.take(i + 1).to_set().contains(x) == ids@.take(
                        i as int,
                    ).to_set().insert(id).contains(x) by {
                        if ids@.take(i + 1).contains(x) {
                            let a = choose|a: int| 0 <= a < i + 1 && #[trigger] ids@.take(i + 1)[a] == x;
                            if a < i {
                                assert(ids@.take(i as int)[a] == x);
                            }
                        }
                        if ids@.take(i as int).contains(x) {
                            let a = choose|a: int| 0 <= a < i && #[trigger] ids@.take(i as int)[a] == x;
                            assert(ids@.take(i + 1)[a] == x);
                        }
                        if x == id {
                            assert(ids@.take(i + 1)[i as int] == x);
                        }
                    }
                }
                assert(self@ =~= m0.remove_keys(ids@.take(i + 1).to_set()));
            }
        }
        assert(ids@.take(n as int) =~= ids@);
    }

    /// Removes `child` from the children of `parent` and drops it with its
    /// whole subtree, whose identifiers it returns in the order a depth-first
    /// walk with a stack visits them (see `child_removal`). When the
    /// removal cannot be carried out (a node missing, met twice, or a walk
    /// that would not end), it returns `None` and changes nothing.
    pub fn remove_child(&mut self, parent: NodeId, child: NodeId) -> (r: Option<Vec<NodeId>>)
        ensures
            match child_removal(old(self)@, old(self).bound(), parent, child) {
                Some(s) => if removable(unlink_links(old(self)@, parent, child), s) {
                    &&& r matches Some(v) && v@ == s
                    &&& final(self)@ == unlink_links(old(self)@, parent, child).remove_keys(s.to_set())
                } else {
                    r is None && final(self)@ == old(self)@
                },
                None => r is None && final(self)@ == old(self)@,
            },
    {
        if !self.contains(parent) || !self.contains(child) {
            return None;
        }
        let cl = self.get(child).unwrap();
        if let Some(q) = cl.prev_sibling {
            if !self.contains(q) {
                return None;
            }
        }
        if let Some(n) = cl.next_sibling {
            if !self.contains(n) {
                return None;
            }
        }
        let mut trial = self.copy();
        trial.unlink_child(parent, child);
        let ids = match trial.subtree_ids(child) {
            Some(v) => v,
            None => {
                return None;
            },
        };
        if !trial.can_remove_all(ids.as_slice()) {
            return None;
        }
        trial.remove_nodes(ids.as_slice());
        *self = trial;
        Some(ids)
    }

    /// Drops every descendant of `parent`, whose identifiers it returns in
    /// the order a depth-first walk with a stack visits them, and leaves the
    /// parent without children (see `clearing`). When that cannot be carried
    /// out (a node missing, met twice, the parent among its own descendants,
    /// or a walk that would not end), it returns `None` and changes nothing.
    pub fn clear_children(&mut self, parent: NodeId) -> (r: Option<Vec<NodeId>>)
        ensures
            match clearing(old(self)@, old(self).bound(), parent) {
                Some(s) => if removable(old(self)@, s) && !s.contains(parent) {
                    &&& r matches Some(v) && v@ == s
                    &&& final(self)@ == old(self)@.remove_keys(s.to_set()).insert(
                        parent,
                        NodeLinks { first_child: None, last_child: None, ..old(self)@[parent] },
                    )
                } else {
                    r is None && final(self)@ == old(self)@
                },
                None => r is None && final(self)@ == old(self)@,
            },
    {
        if !self.contains(parent) {
            return None;
        }
        let all = match self.subtree_ids(parent) {
            Some(v) => v,
            None => {
                return None;
            },
        };
        let ghost full = all@;
        let len = all.len();
        let mut rest: Vec<NodeId> = Vec::new();
        let mut i: usize = 1;
        while i < len
            invariant
                1 <= i <= len || len == 0,
                len == all@.len(),
                rest@ == all@.subrange(1, i as int),
            decreases len - i,
        {
            rest.push(all[i]);
            proof {
                assert(all@.subrange(1, i + 1) =~= all@.subrange(1, i as int).push(all@[i as int]));
            }
            i = i + 1;
        }
        proof {
            assert(len >= 1);
            assert(rest@ =~= all@.drop_first());
        }
        if !self.can_remove_all(rest.as_slice()) {
            return None;
        }
        let m = rest.len();
        assert(clearing(self@, self.bound(), parent) == Some(rest@));
        for j in 0..m
            invariant
                m == rest@.len(),
                forall|a: int| 0 <= a < j ==> rest@[a] != parent,
                self@ == old(self)@,
                self.bound() == old(self).bound(),
                clearing(self@, self.bound(), parent) == Some(rest@),
        {
            if rest[j] == parent {
                assert(rest@.contains(parent));
                return None;
            }
        }
        proof {
            assert(!rest@.contains(parent));
        }
        let pl = self.get(parent).unwrap();
        self.remove_nodes(rest.as_slice());
        let cleared = NodeLinks { first_child: None, last_child: None, ..pl };
        self.set_links(parent, cleared);
        Some(rest)
    }
}


/// The links after `child` becomes the last child of `parent`: the child
/// points to its parent and to the former last child, which points on to it
/// (or the parent's first child is it), and the parent's last child is it.
pub open spec fn append_links(m: Map<NodeId, NodeLinks>, p: NodeId, c: NodeId) -> Map<NodeId, NodeLinks> {
    let old_last = m[p].last_child;
    let m1 = m.insert(c, NodeLinks { parent: Some(p), prev_sibling: old_last, next_sibling: None, ..m[c] });
    let m2 = match old_last {
        Some(l) => m1.insert(l, NodeLinks { next_sibling: Some(c), ..m1[l] }),
        None => m1.insert(p, NodeLinks { first_child: Some(c), ..m1[p] }),
    };
    m2.insert(p, NodeLinks { last_child: Some(c), ..m2[p] })
}

/// The links after `child` is put before `before` among the children of
/// `parent`.
pub open spec fn insert_before_links(m: Map<NodeId, NodeLinks>, p: NodeId, c: NodeId, b: NodeId) -> Map<
    NodeId,
    NodeLinks,
> {
    let prev = m[b].prev_sibling;
    let m1 = m.insert(c, NodeLinks { parent: Some(p), next_sibling: Some(b), prev_sibling: prev, ..m[c] });
    let m2 = m1.insert(b, NodeLinks { prev_sibling: Some(c), ..m1[b] });
    match prev {
        Some(q) => m2.insert(q, NodeLinks { next_sibling: Some(c), ..m2[q] }),
        None => m2.insert(p, NodeLinks { first_child: Some(c), ..m2[p] }),
    }
}

/// The links after `child` is taken out of the children of `parent`: its
/// neighbours are joined, or the parent's first or last child moves on.
pub open spec fn unlink_links(m: Map<NodeId, NodeLinks>, p: NodeId, c: NodeId) -> Map<NodeId, NodeLinks> {
    let prev = m[c].prev_sibling;
    let next = m[c].next_sibling;
    let m1 = match prev {
        Some(q) => m.insert(q, NodeLinks { next_sibling: next, ..m[q] }),
        None => m.insert(p, NodeLinks { first_child: next, ..m[p] }),
    };
    match next {
        Some(r) => m1.insert(r, NodeLinks { prev_sibling: prev, ..m1[r] }),
        None => m1.insert(p, NodeLinks { last_child: prev, ..m1[p] }),
    }
}

/// The node after `x` along next-sibling links (none for a node outside the
/// tree).
pub open spec fn next_of(m: Map<NodeId, NodeLinks>, x: NodeId) -> Option<NodeId> {
    if m.contains_key(x) {
        m[x].next_sibling
    } else {
        None
    }
}

/// A chain starts at its start, and is empty exactly without one.
proof fn lemma_chain_head(m: Map<NodeId, NodeLinks>, start: Option<NodeId>, f: nat, s: Seq<NodeId>)
    requires
        sibling_chain(m, start, f) == Some(s),
    ensures
        start is None <==> s.len() == 0,
        s.len() > 0 ==> start == Some(s[0]),
{
}

/// The chain from a node of a chain is the rest of the chain, and each node
/// but the last leads to the next.
proof fn lemma_chain_suffix(m: Map<NodeId, NodeLinks>, start: Option<NodeId>, f: nat, s: Seq<NodeId>, j: int)
    requires
        sibling_chain(m, start, f) == Some(s),
        0 <= j < s.len(),
    ensures
        j < f,
        sibling_chain(m, Some(s[j]), (f - j) as nat) == Some(s.skip(j)),
        j + 1 < s.len() ==> next_of(m, s[j]) == Some(s[j + 1]),
        j + 1 == s.len() ==> next_of(m, s[j]) is None,
    decreases f,
{
    let x = start->0;
    let rest = sibling_chain(m, next_of(m, x), (f - 1) as nat)->0;
    assert(s == seq![x] + rest);
    lemma_chain_head(m, next_of(m, x), (f - 1) as nat, rest);
    if j == 0 {
        assert(s.skip(0) =~= s);
        if rest.len() > 0 {
            assert(rest[0] == s[1]);
        }
    } else {
        lemma_chain_suffix(m, next_of(m, x), (f - 1) as nat, rest, j - 1);
        assert(rest.skip(j - 1) =~= s.skip(j));
        assert(rest[j - 1] == s[j]);
        if j + 1 < s.len() {
            assert(rest[j] == s[j + 1]);
        }
    }
}

/// A chain stays the same in a map that keeps the next-sibling links of its
/// nodes.
proof fn lemma_chain_same(
    m: Map<NodeId, NodeLinks>,
    m2: Map<NodeId, NodeLinks>,
    start: Option<NodeId>,
    f: nat,
    s: Seq<NodeId>,
)
    requires
        sibling_chain(m, start, f) == Some(s),
        forall|i: int| 0 <= i < s.len() ==> next_of(m2, #[trigger] s[i]) == next_of(m, s[i]),
    ensures
        sibling_chain(m2, start, f) == Some(s),
    decreases f,
{
    if let Some(x) = start {
        let rest = sibling_chain(m, next_of(m, x), (f - 1) as nat)->0;
        assert(s == seq![x] + rest);
        assert(s[0] == x);
        assert forall|i: int| 0 <= i < rest.len() implies next_of(m2, #[trigger] rest[i]) == next_of(m, rest[i]) by {
            assert(rest[i] == s[i + 1]);
        }
        lemma_chain_same(m, m2, next_of(m, x), (f - 1) as nat, rest);
    }
}

/// Walking back from `j` to the front of the chain in the new links: the
/// nodes before `b` are followed by `c` and then by the old chain from `b`.
proof fn lemma_chain_prefix(
    m: Map<NodeId, NodeLinks>,
    m2: Map<NodeId, NodeLinks>,
    s: Seq<NodeId>,
    f: nat,
    k: int,
    c: NodeId,
    j: int,
)
    requires
        0 <= j < k < s.len(),
        k < f,
        forall|i: int| 0 <= i && i + 1 < k ==> #[trigger] next_of(m, s[i]) == Some(s[i + 1]),
        forall|i: int| 0 <= i && i + 1 < k ==> next_of(m2, #[trigger] s[i]) == next_of(m, s[i]),
        next_of(m2, s[k - 1]) == Some(c),
        sibling_chain(m2, Some(c), (f - k + 1) as nat) == Some(seq![c] + s.skip(k)),
    ensures
        sibling_chain(m2, Some(s[j]), (f - j + 1) as nat) == Some(s.subrange(j, k) + seq![c] + s.skip(k)),
    decreases k - j,
{
    if j == k - 1 {
        assert(s.subrange(j, k) =~= seq![s[j]]);
        assert(seq![s[j]] + (seq![c] + s.skip(k)) =~= s.subrange(j, k) + seq![c] + s.skip(k));
    } else {
        lemma_chain_prefix(m, m2, s, f, k, c, j + 1);
        assert(next_of(m2, s[j]) == Some(s[j + 1]));
        assert(seq![s[j]] + (s.subrange(j + 1, k) + seq![c] + s.skip(k)) =~= s.subrange(j, k) + seq![c]
            + s.skip(k));
    }
}

/// What inserting `c` before `b` changes along next-sibling links and at
/// the parent: `c` leads to `b`, the node before `b` (if any) leads to `c`,
/// every other node keeps its next link, and the parent's first child
/// becomes `c` when `b` had no previous sibling.
proof fn lemma_insert_before_links_facts(m: Map<NodeId, NodeLinks>, p: NodeId, c: NodeId, b: NodeId, x: NodeId)
    requires
        m.contains_key(p),
        m.contains_key(c),
        m.contains_key(b),
        m[b].prev_sibling matches Some(q) ==> m.contains_key(q),
        c != p,
        b != p,
        c != b,
        m[b].prev_sibling != Some(c),
    ensures
        next_of(insert_before_links(m, p, c, b), c) == Some(b),
        m[b].prev_sibling matches Some(q) ==> q != p ==> insert_before_links(m, p, c, b)[p].first_child
            == m[p].first_child,
        m[b].prev_sibling matches Some(q) ==> next_of(insert_before_links(m, p, c, b), q) == Some(c),
        m[b].prev_sibling is None ==> insert_before_links(m, p, c, b)[p].first_child == Some(c),
        x != c && m[b].prev_sibling != Some(x) ==> next_of(insert_before_links(m, p, c, b), x) == next_of(m, x),
{
}

/// The list of children after a node `c` is put before the node at index
/// `k` of a list `s`, in any links `m2` where only the link into that node
/// changed: `c` leads to it, its former predecessor (or the list's start)
/// leads to `c`, and every other node of the list keeps its next link.
proof fn lemma_chain_with_insert(
    m: Map<NodeId, NodeLinks>,
    m2: Map<NodeId, NodeLinks>,
    first: Option<NodeId>,
    first2: Option<NodeId>,
    s: Seq<NodeId>,
    f: nat,
    k: int,
    c: NodeId,
)
    requires
        sibling_chain(m, first, f) == Some(s),
        0 <= k < s.len(),
        !s.contains(c),
        forall|i: int, j: int| 0 <= i < j < s.len() ==> s[i] != s[j],
        forall|i: int| 0 <= i < s.len() && i != k - 1 ==> next_of(m2, #[trigger] s[i]) == next_of(m, s[i]),
        next_of(m2, c) == Some(s[k]),
        k > 0 ==> next_of(m2, s[k - 1]) == Some(c),
        k > 0 ==> first2 == first,
        k == 0 ==> first2 == Some(c),
    ensures
        sibling_chain(m2, first2, f + 1) == Some(s.take(k) + seq![c] + s.skip(k)),
{
    let t = s.skip(k);
    lemma_chain_suffix(m, first, f, s, k);
    assert forall|i: int| 0 <= i < t.len() implies next_of(m2, #[trigger] t[i]) == next_of(m, t[i]) by {
        assert(t[i] == s[i + k]);
    }
    lemma_chain_same(m, m2, Some(s[k]), (f - k) as nat, t);
    assert(sibling_chain(m2, Some(c), (f - k + 1) as nat) == Some(seq![c] + t));
    if k == 0 {
        assert(s.take(0) + seq![c] + s.skip(0) =~= seq![c] + t);
    } else {
        lemma_chain_head(m, first, f, s);
        assert forall|i: int| 0 <= i && i + 1 < k implies #[trigger] next_of(m, s[i]) == Some(s[i + 1]) by {
            lemma_chain_suffix(m, first, f, s, i);
        }
        assert forall|i: int| 0 <= i && i + 1 < k implies next_of(m2, #[trigger] s[i]) == next_of(m, s[i]) by {
            assert(i != k - 1);
        }
        lemma_chain_prefix(m, m2, s, f, k, c, 0);
        assert(s.subrange(0, k) =~= s.take(k));
        assert(first2 == Some(s[0]));
    }
}

/// Inserting `c` before `b` among the children of `p` puts it in the list
/// of children right in front of `b`: walking the new list from the parent's
/// first child gives the old list with `c` placed just before `b` (so when
/// `b` came first, `c` now comes first). It holds for a well-formed list:
/// its nodes are distinct, `b` is in it at index `k`, its previous sibling
/// is the one before it (none when first), and neither `c` nor `p` is in it.
pub proof fn law_insert_before_places_child(
    m: Map<NodeId, NodeLinks>,
    p: NodeId,
    c: NodeId,
    b: NodeId,
    s: Seq<NodeId>,
    f: nat,
    k: int,
)
    requires
        m.contains_key(p),
        m.contains_key(c),
        m.contains_key(b),
        c != p,
        sibling_chain(m, m[p].first_child, f) == Some(s),
        0 <= k < s.len(),
        s[k] == b,
        m[b].prev_sibling == (if k == 0 { None } else { Some(s[k - 1]) }),
        !s.contains(c),
        !s.contains(p),
        forall|i: int, j: int| 0 <= i < j < s.len() ==> s[i] != s[j],
    ensures
        ({
            let m2 = insert_before_links(m, p, c, b);
            sibling_chain(m2, m2[p].first_child, f + 1) == Some(s.take(k) + seq![c] + s.skip(k))
        }),
{
    let m2 = insert_before_links(m, p, c, b);
    assert(b != p && c != b);
    if k > 0 {
        lemma_chain_suffix(m, m[p].first_child, f, s, k - 1);
        assert(s[k - 1] != c && s[k - 1] != p);
    }
    assert forall|i: int| 0 <= i < s.len() && i != k - 1 implies next_of(m2, #[trigger] s[i]) == next_of(
        m,
        s[i],
    ) by {
        assert(s[i] != c);
        if k > 0 {
            assert(s[i] != s[k - 1]);
        }
        lemma_insert_before_links_facts(m, p, c, b, s[i]);
    }
    lemma_insert_before_links_facts(m, p, c, b, c);
    lemma_chain_with_insert(m, m2, m[p].first_child, m2[p].first_child, s, f, k, c);
}

/// Taking out a child that was just appended gives every other node its
/// links back, when the parent's list of children ended properly: no first
/// child without a last one, and no sibling after the last one.
pub proof fn law_append_then_unlink_restores(m: Map<NodeId, NodeLinks>, p: NodeId, c: NodeId, k: NodeId)
    requires
        m.contains_key(p),
        m.contains_key(c),
        c != p,
        k != c,
        m.contains_key(k),
        m[p].last_child is None ==> m[p].first_child is None,
        m[p].last_child matches Some(l) ==> l != c && m.contains_key(l) && m[l].next_sibling is None,
    ensures
        unlink_links(append_links(m, p, c), p, c)[k] == m[k],
        unlink_links(append_links(m, p, c), p, c).dom() == m.dom(),
{
    let a = append_links(m, p, c);
    assert(a.dom() =~= m.dom());
    assert(unlink_links(a, p, c).dom() =~= m.dom());
}

/// The parent of a node, if it is in the tree and has one.
pub open spec fn parent_of(m: Map<NodeId, NodeLinks>, id: NodeId) -> Option<NodeId> {
    if m.contains_key(id) {
        m[id].parent
    } else {
        None
    }
}

/// The node and its ancestors, nearest first, within `fuel` steps.
pub open spec fn ancestors_within(m: Map<NodeId, NodeLinks>, id: NodeId, fuel: nat) -> Option<Seq<NodeId>>
    decreases fuel,
{
    if fuel == 0 {
        None
    } else {
        match parent_of(m, id) {
            None => Some(seq![id]),
            Some(p) => match ancestors_within(m, p, (fuel - 1) as nat) {
                Some(s) => Some(seq![id] + s),
                None => None,
            },
        }
    }
}

/// The chain of siblings from `start` on, following next-sibling links of
/// nodes in the tree, within `fuel` steps.
pub open spec fn sibling_chain(m: Map<NodeId, NodeLinks>, start: Option<NodeId>, fuel: nat) -> Option<Seq<NodeId>>
    decreases fuel,
{
    match start {
        None => Some(Seq::empty()),
        Some(c) => if fuel == 0 {
            None
        } else {
            let next = if m.contains_key(c) {
                m[c].next_sibling
            } else {
                None
            };
            match sibling_chain(m, next, (fuel - 1) as nat) {
                Some(s) => Some(seq![c] + s),
                None => None,
            }
        },
    }
}

/// The subtree of `n` in the order a depth-first walk with a stack visits
/// it: the node, then the subtrees of its children from the last to the
/// first. A node outside the tree stands for itself. `None` when the walk
/// goes deeper than `depth` or a list of children is longer than `width`.
pub open spec fn subtree_order(m: Map<NodeId, NodeLinks>, n: NodeId, depth: nat, width: nat) -> Option<Seq<NodeId>>
    decreases depth, 0nat,
{
    if depth == 0 {
        None
    } else if !m.contains_key(n) {
        Some(seq![n])
    } else {
        match sibling_chain(m, m[n].first_child, width) {
            None => None,
            Some(cs) => match subtrees_back(m, cs, (depth - 1) as nat, width) {
                Some(s) => Some(seq![n] + s),
                None => None,
            },
        }
    }
}

/// The subtrees of a list of siblings, from the last to the first.
pub open spec fn subtrees_back(m: Map<NodeId, NodeLinks>, cs: Seq<NodeId>, depth: nat, width: nat) -> Option<Seq<NodeId>>
    decreases depth, cs.len(),
{
    if cs.len() == 0 {
        Some(Seq::empty())
    } else {
        match subtrees_back(m, cs.drop_first(), depth, width) {
            None => None,
            Some(a) => match subtree_order(m, cs[0], depth, width) {
                Some(b) => Some(a + b),
                None => None,
            },
        }
    }
}

proof fn lemma_subtrees_back_none(m: Map<NodeId, NodeLinks>, cs: Seq<NodeId>, i: int, depth: nat, width: nat)
    requires
        0 <= i < cs.len(),
        subtrees_back(m, cs.subrange(i, cs.len() as int), depth, width) is None,
    ensures
        subtrees_back(m, cs, depth, width) is None,
    decreases i,
{
    if i > 0 {
        let r = cs.subrange(i - 1, cs.len() as int);
        assert(r.drop_first() =~= cs.subrange(i, cs.len() as int));
        lemma_subtrees_back_none(m, cs, i - 1, depth, width);
    } else {
        assert(cs.subrange(0, cs.len() as int) =~= cs);
    }
}

/// Identifiers that are all in the tree, none twice.
pub open spec fn removable(m: Map<NodeId, NodeLinks>, ids: Seq<NodeId>) -> bool {
    &&& ids.no_duplicates()
    &&& forall|a: int| 0 <= a < ids.len() ==> m.contains_key(#[trigger] ids[a])
}

/// The nodes that removing `child` from `parent` drops: the subtree of the
/// child once it is taken out of the list, within the budget. `None` when
/// the parent, the child or one of its neighbours is not in the tree, or
/// the walk does not end.
pub open spec fn child_removal(m: Map<NodeId, NodeLinks>, bound: nat, p: NodeId, c: NodeId) -> Option<Seq<NodeId>> {
    if m.contains_key(p) && m.contains_key(c) && (m[c].prev_sibling matches Some(q) ==> m.contains_key(q)) && (
    m[c].next_sibling matches Some(r) ==> m.contains_key(r)) {
        subtree_order(unlink_links(m, p, c), c, bound, bound)
    } else {
        None
    }
}

/// The nodes that clearing the children of `parent` drops: its subtree
/// without itself, within the budget.
pub open spec fn clearing(m: Map<NodeId, NodeLinks>, bound: nat, p: NodeId) -> Option<Seq<NodeId>> {
    if m.contains_key(p) {
        match subtree_order(m, p, bound, bound) {
            Some(s) => Some(s.drop_first()),
            None => None,
        }
    } else {
        None
    }
}

} // verus!
