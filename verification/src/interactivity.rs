use vstd::prelude::*;

use crate::selection::NodeId;

verus! {

/// Identifier of a hitbox registered during a paint pass.
#[derive(Clone, Copy, Debug, PartialEq, Eq, Hash, Structural)]
pub struct HitboxId(pub u64);

/// A mouse button.
#[derive(Clone, Copy, Debug, PartialEq, Eq, Structural)]
pub enum MouseButton {
    Left,
    Right,
    Middle,
}

/// Entry `k` of the hitboxes, listed back to front with whether each holds
/// the pointer, is the frontmost one of `node` that holds it.
pub open spec fn is_front_hit(hits: Seq<(NodeId, bool)>, node: NodeId, k: int) -> bool {
    &&& 0 <= k < hits.len()
    &&& hits[k].0 == node
    &&& hits[k].1
    &&& forall|j: int| k < j < hits.len() ==> !(#[trigger] hits[j].1 && hits[j].0 == node)
}

/// Some hitbox of `node` holds the pointer.
pub open spec fn under_pointer(hits: Seq<(NodeId, bool)>, node: NodeId) -> bool {
    exists|k: int| #[trigger] is_front_hit(hits, node, k)
}

/// The nodes under the pointer and the topmost of them, from the hitboxes
/// listed back to front with whether each holds the pointer. Each node under
/// the pointer is listed once, ordered by its frontmost hitbox that holds the
/// pointer, back to front; the topmost node is that of the frontmost hitbox
/// that holds it.
pub fn hover_order(hits: &[(NodeId, bool)]) -> (r: (Vec<NodeId>, Option<NodeId>))
    ensures
        forall|a: int| 0 <= a < r.0@.len() ==> #[trigger] under_pointer(hits@, r.0@[a]),
        forall|k: int| 0 <= k < hits@.len() && (#[trigger] hits@[k]).1 ==> r.0@.contains(hits@[k].0),
        forall|a: int, b: int| 0 <= a < b < r.0@.len() ==> r.0@[a] != r.0@[b],
        forall|a: int, b: int, ka: int, kb: int|
            0 <= a < b < r.0@.len() && #[trigger] is_front_hit(hits@, r.0@[a], ka)
                && #[trigger] is_front_hit(hits@, r.0@[b], kb) ==> ka < kb,
        match r.1 {
            Some(n) => exists|k: int|
                #[trigger] is_front_hit(hits@, n, k) && forall|j: int|
                    k < j < hits@.len() ==> !(#[trigger] hits@[j]).1,
            None => forall|k: int| 0 <= k < hits@.len() ==> !(#[trigger] hits@[k]).1,
        },
{
    let n = hits.len();
    let mut found: Vec<NodeId> = Vec::new();
    let mut top: Option<NodeId> = None;
    let ghost mut ks: Seq<int> = Seq::empty();
    let ghost mut tk: int = 0;
    let mut i: usize = n;
    while i > 0
        invariant
            n == hits@.len(),
            i <= n,
            ks.len() == found@.len(),
            forall|a: int| 0 <= a < ks.len() ==> i <= #[trigger] ks[a] && is_front_hit(hits@, found@[a], ks[a]),
            forall|k: int| i <= k < n && (#[trigger] hits@[k]).1 ==> found@.contains(hits@[k].0),
            forall|a: int, b: int| 0 <= a < b < found@.len() ==> found@[a] != found@[b],
            forall|a: int, b: int| 0 <= a < b < ks.len() ==> #[trigger] ks[a] > #[trigger] ks[b],
            match top {
                Some(t) => i <= tk && is_front_hit(hits@, t, tk) && forall|j: int|
                    tk < j < n ==> !(#[trigger] hits@[j]).1,
                None => forall|k: int| i <= k < n ==> !(#[trigger] hits@[k]).1,
            },
        decreases i,
    {
        i = i - 1;
        let (node, hit) = hits[i];
        if hit {
            if top.is_none() {
                proof {
                    assert forall|j: int| i < j < n implies !(#[trigger] hits@[j].1 && hits@[j].0
                        == node) by {
                        assert(!hits@[j].1);
                    }
                    tk = i as int;
                }
                top = Some(node);
            }
            if !vec_contains(&found, node) {
                let ghost before = found@;
                let ghost kb = ks;
                proof {
                    assert forall|j: int| i < j < n implies !(#[trigger] hits@[j].1 && hits@[j].0
                        == node) by {
                        if hits@[j].1 && hits@[j].0 == node {
                            assert(found@.contains(hits@[j].0));
                        }
                    }
                    ks = ks.push(i as int);
                }
                found.push(node);
                proof {
                    assert forall|a: int| 0 <= a < ks.len() implies i <= #[trigger] ks[a]
                        && is_front_hit(hits@, found@[a], ks[a]) by {
                        if a < kb.len() {
                            assert(found@[a] == before[a]);
                            assert(ks[a] == kb[a]);
                        }
                    }
                    assert forall|k: int| i <= k < n && (#[trigger] hits@[k]).1 implies found@.contains(
                        hits@[k].0,
                    ) by {
                        if k == i {
                            assert(found@[before.len() as int] == node);
                        } else {
                            let w = choose|w: int| 0 <= w < before.len() && before[w] == hits@[k].0;
                            assert(found@[w] == hits@[k].0);
                        }
                    }
                    assert forall|a: int, b: int| 0 <= a < b < found@.len() implies found@[a]
                        != found@[b] by {
                        if b == before.len() {
                            assert(before.contains(before[a]));
                        } else {
                            assert(found@[a] == before[a]);
                            assert(found@[b] == before[b]);
                        }
                    }
                    assert forall|a: int, b: int| 0 <= a < b < ks.len() implies #[trigger] ks[a]
                        > #[trigger] ks[b] by {
                        if b < kb.len() {
                            assert(ks[a] == kb[a]);
                            assert(ks[b] == kb[b]);
                        } else {
                            assert(ks[a] == kb[a]);
                        }
                    }
                }
            }
        }
    }
    let mut hovered: Vec<NodeId> = Vec::new();
    let m = found.len();
    let mut j: usize = m;
    while j > 0
        invariant
            m == found@.len(),
            j <= m,
            hovered@.len() == m - j,
            forall|t: int| 0 <= t < hovered@.len() ==> #[trigger] hovered@[t] == found@[m - 1 - t],
        decreases j,
    {
        j = j - 1;
        hovered.push(found[j]);
    }
    proof {
        assert forall|a: int| 0 <= a < hovered@.len() implies #[trigger] under_pointer(hits@, hovered@[a]) by {
            assert(hovered@[a] == found@[m - 1 - a]);
            assert(is_front_hit(hits@, hovered@[a], ks[m - 1 - a]));
        }
        assert forall|k: int| 0 <= k < hits@.len() && (#[trigger] hits@[k]).1 implies hovered@.contains(
            hits@[k].0,
        ) by {
            let w = choose|w: int| 0 <= w < found@.len() && found@[w] == hits@[k].0;
            assert(hovered@[m - 1 - w] == found@[w]);
        }
        assert forall|a: int, b: int| 0 <= a < b < hovered@.len() implies hovered@[a] != hovered@[b] by {
            assert(hovered@[a] == found@[m - 1 - a]);
            assert(hovered@[b] == found@[m - 1 - b]);
        }
        assert forall|a: int, b: int, ka: int, kb: int|
            0 <= a < b < hovered@.len() && #[trigger] is_front_hit(hits@, hovered@[a], ka)
                && #[trigger] is_front_hit(hits@, hovered@[b], kb) implies ka < kb by {
            assert(hovered@[a] == found@[m - 1 - a]);
            assert(hovered@[b] == found@[m - 1 - b]);
            lemma_front_hit_unique(hits@, hovered@[a], ka, ks[m - 1 - a]);
            lemma_front_hit_unique(hits@, hovered@[b], kb, ks[m - 1 - b]);
            assert(ks[m - 1 - b] > ks[m - 1 - a]);
        }
        if let Some(t) = top {
            assert(is_front_hit(hits@, t, tk));
        }
    }
    (hovered, top)
}

proof fn lemma_front_hit_unique(hits: Seq<(NodeId, bool)>, node: NodeId, k1: int, k2: int)
    requires
        is_front_hit(hits, node, k1),
        is_front_hit(hits, node, k2),
    ensures
        k1 == k2,
{
    if k1 < k2 {
        assert(hits[k2].1 && hits[k2].0 == node);
    }
    if k2 < k1 {
        assert(hits[k1].1 && hits[k1].0 == node);
    }
}

fn vec_contains(v: &Vec<NodeId>, x: NodeId) -> (b: bool)
    ensures
        b == v@.contains(x),
{
    let n = v.len();
    for i in 0..n
        invariant
            n == v@.len(),
            forall|j: int| 0 <= j < i ==> v@[j] != x,
    {
        if v[i] == x {
            assert(v@[i as int] == x);
            return true;
        }
    }
    false
}

/// Drops a removed node from the list of hovered nodes, keeping the others
/// in order, and clears the topmost and the pressed node when they are it.
pub fn forget_hovered_node(
    hovered: &mut Vec<NodeId>,
    top_node: &mut Option<NodeId>,
    active_node: &mut Option<NodeId>,
    id: NodeId,
)
    ensures
        final(hovered)@ == old(hovered)@.filter(|n: NodeId| n != id),
        *final(top_node) == (if *old(top_node) == Some(id) { None } else { *old(top_node) }),
        *final(active_node) == (if *old(active_node) == Some(id) { None } else { *old(active_node) }),
{
    let ghost orig = hovered@;
    let ghost f = |n: NodeId| n != id;
    let mut kept: Vec<NodeId> = Vec::new();
    let n = hovered.len();
    assert(orig.take(0) =~= Seq::<NodeId>::empty());
    proof {
        reveal_with_fuel(Seq::filter, 1);
    }
    for i in 0..n
        invariant
            n == orig.len(),
            hovered@ == orig,
            kept@ == orig.take(i as int).filter(f),
            f == (|n: NodeId| n != id),
    {
        let x = hovered[i];
        proof {
            assert(orig.take(i + 1).drop_last() =~= orig.take(i as int));
            reveal_with_fuel(Seq::filter, 1);
        }
        if x != id {
            kept.push(x);
        }
    }
    assert(orig.take(n as int) =~= orig);
    *hovered = kept;
    if *top_node == Some(id) {
        *top_node = None;
    }
    if *active_node == Some(id) {
        *active_node = None;
    }
}

} // verus!
