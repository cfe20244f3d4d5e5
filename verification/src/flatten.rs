//! Flattening a positioned tree into a paint-ordered list.
//!
//! A depth-first walk keeps three partitions: the global bottom, the current
//! level, and the global top.  Each node contributes a shallow clone of
//! itself (children detached) to its level, then routes each child's result
//! by the child's own paint-order bucket — so buckets are cumulative down
//! the tree.  A subtree whose rectangle, inflated by a small slack, misses
//! the cull rectangle is skipped whole: culling is all-or-nothing per
//! subtree.

use vstd::prelude::*;
use crate::geom::Rect;
use crate::node::{
    lemma_rview_children_concat, lemma_rview_children_index, lemma_rview_children_len, CallbackId,
    RNodeV, ResolvedNode,
};
use crate::paint::ZOrder;

verus! {

/// Pixel slack added around a node before culling, so a subtree whose
/// anti-aliased edge grazes the viewport is not dropped.
pub const CULL_SLACK: i64 = 5;

/// A shallow paint record: the node with its children detached.
pub open spec fn spec_flat_clone(n: RNodeV) -> RNodeV {
    match n {
        RNodeV::Interact { child, callback, rect, id, passthrough, z_order } => RNodeV::Interact {
            child: Box::new(RNodeV::Null),
            callback,
            rect,
            id,
            passthrough,
            z_order,
        },
        RNodeV::Capture { child, callback, rect, z_order } => RNodeV::Capture {
            child: Box::new(RNodeV::Null),
            callback,
            rect,
            z_order,
        },
        RNodeV::Layout { layout, children, rect, z_order } => RNodeV::Layout {
            layout,
            children: Seq::empty(),
            rect,
            z_order,
        },
        other => other,
    }
}

/// Whether a node survives culling: its rectangle, inflated by the slack,
/// overlaps the cull rectangle.
pub open spec fn spec_visible(n: RNodeV, cull: Rect) -> bool {
    n.spec_rect().spec_inflate(CULL_SLACK as int, CULL_SLACK as int).spec_intersects(cull)
}

/// Routes one child's flattened triple into an accumulated triple, by the
/// child's own paint-order bucket: the child's bottom and top contributions
/// join the global partitions; its level goes below, into, after or above
/// the accumulated level.
pub open spec fn route_child(
    acc: (Seq<RNodeV>, Seq<RNodeV>, Seq<RNodeV>),
    child: (Seq<RNodeV>, Seq<RNodeV>, Seq<RNodeV>),
    z: ZOrder,
) -> (Seq<RNodeV>, Seq<RNodeV>, Seq<RNodeV>) {
    let b = acc.0 + child.0;
    let t = acc.2 + child.2;
    match z {
        ZOrder::Bottom => (b + child.1, acc.1, t),
        ZOrder::Above => (b, acc.1 + child.1, t),
        ZOrder::Below => (b, child.1 + acc.1, t),
        ZOrder::Top => (b, acc.1, t + child.1),
    }
}

/// The flattened triple of a node: its contributions to the global bottom,
/// to its own level, and to the global top.
pub open spec fn spec_flatten_node(n: RNodeV, cull: Rect) -> (
    Seq<RNodeV>,
    Seq<RNodeV>,
    Seq<RNodeV>,
)
    decreases n,
{
    if !spec_visible(n, cull) {
        (Seq::<RNodeV>::empty(), Seq::<RNodeV>::empty(), Seq::<RNodeV>::empty())
    } else {
        let acc0 = (Seq::<RNodeV>::empty(), seq![spec_flat_clone(n)], Seq::<RNodeV>::empty());
        let acc = match n {
            RNodeV::Interact { child, .. } => route_child(
                acc0,
                spec_flatten_node(*child, cull),
                child.spec_z(),
            ),
            RNodeV::Capture { child, .. } => route_child(
                acc0,
                spec_flatten_node(*child, cull),
                child.spec_z(),
            ),
            RNodeV::Layout { children, .. } => spec_flatten_fold(children, cull, acc0),
            _ => acc0,
        };
        match n.spec_z() {
            ZOrder::Bottom => (acc.0 + acc.1, Seq::<RNodeV>::empty(), acc.2),
            ZOrder::Top => (acc.0, Seq::<RNodeV>::empty(), acc.2 + acc.1),
            _ => acc,
        }
    }
}

/// Folds the children of a layout node into the accumulated triple, left to
/// right.
pub open spec fn spec_flatten_fold(
    s: Seq<RNodeV>,
    cull: Rect,
    init: (Seq<RNodeV>, Seq<RNodeV>, Seq<RNodeV>),
) -> (Seq<RNodeV>, Seq<RNodeV>, Seq<RNodeV>)
    decreases s,
{
    if s.len() == 0 {
        init
    } else {
        route_child(
            spec_flatten_fold(s.drop_last(), cull, init),
            spec_flatten_node(s.last(), cull),
            s.last().spec_z(),
        )
    }
}

/// The flattened paint list of a tree: bottom, then the root's level, then
/// top.
pub open spec fn spec_flatten(n: RNodeV, cull: Rect) -> Seq<RNodeV> {
    let tr = spec_flatten_node(n, cull);
    tr.0 + tr.1 + tr.2
}

/// Every rectangle in the tree is in range, so culling arithmetic is exact.
pub open spec fn rects_wf(n: RNodeV) -> bool
    decreases n,
{
    &&& n.spec_rect().wf_loose()
    &&& match n {
        RNodeV::Interact { child, .. } => rects_wf(*child),
        RNodeV::Capture { child, .. } => rects_wf(*child),
        RNodeV::Layout { children, .. } => forall|i: int|
            0 <= i < children.len() ==> rects_wf(#[trigger] children[i]),
        _ => true,
    }
}

/// Routes one flattened branch (a level list) by a bucket, mutating the
/// global partitions in place and returning the new level list.
fn route_center(
    bottom: &mut Vec<ResolvedNode>,
    top: &mut Vec<ResolvedNode>,
    v: Vec<ResolvedNode>,
    branch: Vec<ResolvedNode>,
    z: ZOrder,
) -> (out: Vec<ResolvedNode>)
    ensures
        ResolvedNode::view_children(final(bottom)@) == ResolvedNode::view_children(old(bottom)@)
            + (if z == ZOrder::Bottom {
            ResolvedNode::view_children(branch@)
        } else {
            Seq::<RNodeV>::empty()
        }),
        ResolvedNode::view_children(final(top)@) == ResolvedNode::view_children(old(top)@) + (
        if z == ZOrder::Top {
            ResolvedNode::view_children(branch@)
        } else {
            Seq::<RNodeV>::empty()
        }),
        ResolvedNode::view_children(out@) == (match z {
            ZOrder::Above => ResolvedNode::view_children(v@) + ResolvedNode::view_children(
                branch@,
            ),
            ZOrder::Below => ResolvedNode::view_children(branch@) + ResolvedNode::view_children(
                v@,
            ),
            _ => ResolvedNode::view_children(v@),
        }),
{
    let mut v = v;
    let mut branch = branch;
    let ghost bv = branch@;
    let ghost vv = v@;
    match z {
        ZOrder::Bottom => {
            bottom.append(&mut branch);
            proof {
                lemma_rview_children_concat(old(bottom)@, bv);
                assert(ResolvedNode::view_children(top@) + Seq::<RNodeV>::empty()
                    =~= ResolvedNode::view_children(top@));
            }
            v
        },
        ZOrder::Above => {
            v.append(&mut branch);
            proof {
                lemma_rview_children_concat(vv, bv);
                assert(ResolvedNode::view_children(bottom@) + Seq::<RNodeV>::empty()
                    =~= ResolvedNode::view_children(bottom@));
                assert(ResolvedNode::view_children(top@) + Seq::<RNodeV>::empty()
                    =~= ResolvedNode::view_children(top@));
            }
            v
        },
        ZOrder::Below => {
            branch.append(&mut v);
            proof {
                lemma_rview_children_concat(bv, vv);
                assert(ResolvedNode::view_children(bottom@) + Seq::<RNodeV>::empty()
                    =~= ResolvedNode::view_children(bottom@));
                assert(ResolvedNode::view_children(top@) + Seq::<RNodeV>::empty()
                    =~= ResolvedNode::view_children(top@));
            }
            branch
        },
        ZOrder::Top => {
            top.append(&mut branch);
            proof {
                lemma_rview_children_concat(old(top)@, bv);
                assert(ResolvedNode::view_children(bottom@) + Seq::<RNodeV>::empty()
                    =~= ResolvedNode::view_children(bottom@));
            }
            v
        },
    }
}

impl ResolvedNode {
    /// A shallow paint record of this node: the children detached, all else
    /// kept.
    pub fn flat_clone(&self) -> (r: ResolvedNode)
        ensures
            r@ == spec_flat_clone(self@),
    {
        proof {
            assert(ResolvedNode::Null@ == RNodeV::Null);
            assert(ResolvedNode::view_children(Seq::<ResolvedNode>::empty()) =~= Seq::<
                RNodeV,
            >::empty());
        }
        match self {
            ResolvedNode::Interact { callback, rect, id, passthrough, z_order, .. } => ResolvedNode::Interact {
                child: Box::new(ResolvedNode::Null),
                callback: *callback,
                rect: *rect,
                id: *id,
                passthrough: *passthrough,
                z_order: *z_order,
            },
            ResolvedNode::Capture { callback, rect, z_order, .. } => ResolvedNode::Capture {
                child: Box::new(ResolvedNode::Null),
                callback: *callback,
                rect: *rect,
                z_order: *z_order,
            },
            ResolvedNode::Layout { layout, rect, z_order, .. } => ResolvedNode::Layout {
                layout: layout.duplicate(),
                children: Vec::new(),
                rect: *rect,
                z_order: *z_order,
            },
            other => other.duplicate(),
        }
    }

    #[verifier::rlimit(100)]
    fn flatten_impl(
        &self,
        bottom: &mut Vec<ResolvedNode>,
        top: &mut Vec<ResolvedNode>,
        cull: &Rect,
    ) -> (v: Vec<ResolvedNode>)
        requires
            rects_wf(self@),
            cull.wf(),
        ensures
            ({
                let tr = spec_flatten_node(self@, *cull);
                &&& ResolvedNode::view_children(final(bottom)@) == ResolvedNode::view_children(
                    old(bottom)@,
                ) + tr.0
                &&& ResolvedNode::view_children(final(top)@) == ResolvedNode::view_children(
                    old(top)@,
                ) + tr.2
                &&& ResolvedNode::view_children(v@) == tr.1
            }),
        decreases self,
    {
        proof {
            assert(rects_wf(self@));
            assert(self@.spec_rect().wf_loose());
        }
        let r = self.rect();
        if !r.inflate(CULL_SLACK, CULL_SLACK).intersects(cull) {
            proof {
                assert(ResolvedNode::view_children(bottom@) + Seq::<RNodeV>::empty()
                    =~= ResolvedNode::view_children(bottom@));
                assert(ResolvedNode::view_children(top@) + Seq::<RNodeV>::empty()
                    =~= ResolvedNode::view_children(top@));
                assert(ResolvedNode::view_children(Seq::<ResolvedNode>::empty()) =~= Seq::<
                    RNodeV,
                >::empty());
            }
            return Vec::new();
        }
        let mut v: Vec<ResolvedNode> = Vec::new();
        v.push(self.flat_clone());
        proof {
            assert(v@.drop_last() =~= Seq::<ResolvedNode>::empty());
            assert(ResolvedNode::view_children(Seq::<ResolvedNode>::empty()) =~= Seq::<
                RNodeV,
            >::empty());
            assert(ResolvedNode::view_children(v@) =~= seq![spec_flat_clone(self@)]);
        }
        let ghost b0 = bottom@;
        let ghost t0 = top@;
        let ghost acc0 = (
            Seq::<RNodeV>::empty(),
            seq![spec_flat_clone(self@)],
            Seq::<RNodeV>::empty(),
        );
        let v: Vec<ResolvedNode> = match self {
            ResolvedNode::Interact { child, .. } => {
                let branch = (**child).flatten_impl(bottom, top, cull);
                let z = (**child).z_order();
                let out = route_center(bottom, top, v, branch, z);
                proof {
                    let tr = spec_flatten_node((**child)@, *cull);
                    let routed = route_child(acc0, tr, (**child)@.spec_z());
                    lemma_rview_children_concat(b0, Seq::<ResolvedNode>::empty());
                    assert(ResolvedNode::view_children(bottom@) =~= ResolvedNode::view_children(b0)
                        + routed.0);
                    assert(ResolvedNode::view_children(top@) =~= ResolvedNode::view_children(t0)
                        + routed.2);
                    assert(ResolvedNode::view_children(out@) =~= routed.1);
                }
                out
            },
            ResolvedNode::Capture { child, .. } => {
                let branch = (**child).flatten_impl(bottom, top, cull);
                let z = (**child).z_order();
                let out = route_center(bottom, top, v, branch, z);
                proof {
                    let tr = spec_flatten_node((**child)@, *cull);
                    let routed = route_child(acc0, tr, (**child)@.spec_z());
                    assert(ResolvedNode::view_children(bottom@) =~= ResolvedNode::view_children(b0)
                        + routed.0);
                    assert(ResolvedNode::view_children(top@) =~= ResolvedNode::view_children(t0)
                        + routed.2);
                    assert(ResolvedNode::view_children(out@) =~= routed.1);
                }
                out
            },
            ResolvedNode::Layout { children, .. } => {
                let ghost vc = ResolvedNode::view_children(children@);
                proof {
                    lemma_rview_children_len(children@);
                    assert(vc.take(0) =~= Seq::<RNodeV>::empty());
                }
                let mut v = v;
                let n = children.len();
                let mut i: usize = 0;
                #[verifier::loop_isolation(false)]
                while i < n
                    invariant
                        i <= n,
                        ({
                            let acc = spec_flatten_fold(vc.take(i as int), *cull, acc0);
                            &&& ResolvedNode::view_children(bottom@)
                                == ResolvedNode::view_children(b0) + acc.0
                            &&& ResolvedNode::view_children(top@) == ResolvedNode::view_children(
                                t0,
                            ) + acc.2
                            &&& ResolvedNode::view_children(v@) == acc.1
                        }),
                    decreases n - i,
                {
                    proof {
                        assert(decreases_to!(*self => *children));
                        assert(decreases_to!(*children => children@[i as int]));
                        lemma_rview_children_index(children@, i as int);
                        assert(rects_wf(vc[i as int]));
                    }
                    let ghost acc_pre = spec_flatten_fold(vc.take(i as int), *cull, acc0);
                    let ghost bottom_pre = bottom@;
                    let ghost top_pre = top@;
                    let branch = children[i].flatten_impl(bottom, top, cull);
                    let z = children[i].z_order();
                    let ghost bottom_mid = bottom@;
                    let ghost top_mid = top@;
                    let ghost v_mid = v@;
                    let out = route_center(bottom, top, v, branch, z);
                    v = out;
                    proof {
                        let tr = spec_flatten_node(vc[i as int], *cull);
                        let acc_next = route_child(acc_pre, tr, vc[i as int].spec_z());
                        assert(vc.take(i as int + 1).drop_last() =~= vc.take(i as int));
                        assert(vc.take(i as int + 1).last() == vc[i as int]);
                        assert(spec_flatten_fold(vc.take(i as int + 1), *cull, acc0) == acc_next);
                        assert(ResolvedNode::view_children(bottom@) =~= ResolvedNode::view_children(
                            b0,
                        ) + acc_next.0);
                        assert(ResolvedNode::view_children(top@) =~= ResolvedNode::view_children(t0)
                            + acc_next.2);
                        assert(ResolvedNode::view_children(v@) =~= acc_next.1);
                    }
                    i = i + 1;
                }
                proof {
                    assert(vc.take(n as int) =~= vc);
                }
                v
            },
            _ => {
                proof {
                    assert(ResolvedNode::view_children(bottom@) =~= ResolvedNode::view_children(b0)
                        + acc0.0);
                    assert(ResolvedNode::view_children(top@) =~= ResolvedNode::view_children(t0)
                        + acc0.2);
                }
                v
            },
        };
        let mut v = v;
        match self.z_order() {
            ZOrder::Bottom => {
                let ghost bpre = bottom@;
                let ghost vv = v@;
                bottom.append(&mut v);
                proof {
                    lemma_rview_children_concat(bpre, vv);
                    let tr = spec_flatten_node(self@, *cull);
                    assert(ResolvedNode::view_children(bottom@) =~= ResolvedNode::view_children(b0)
                        + tr.0);
                    assert(ResolvedNode::view_children(Seq::<ResolvedNode>::empty()) =~= tr.1);
                }
                Vec::new()
            },
            ZOrder::Top => {
                let ghost tpre = top@;
                let ghost vv = v@;
                top.append(&mut v);
                proof {
                    lemma_rview_children_concat(tpre, vv);
                    let tr = spec_flatten_node(self@, *cull);
                    assert(ResolvedNode::view_children(top@) =~= ResolvedNode::view_children(t0)
                        + tr.2);
                    assert(ResolvedNode::view_children(Seq::<ResolvedNode>::empty()) =~= tr.1);
                }
                Vec::new()
            },
            _ => v,
        }
    }

    /// Flattens the laid-out tree into a paint-ordered list of shallow
    /// records: the global bottom partition, then the levels in depth-first
    /// order with per-child bucket routing, then the global top partition.
    /// A subtree whose inflated rectangle misses `cull` is skipped whole.
    pub fn flatten(&self, cull: &Rect) -> (r: Vec<ResolvedNode>)
        requires
            rects_wf(self@),
            cull.wf(),
        ensures
            ResolvedNode::view_children(r@) == spec_flatten(self@, *cull),
    {
        let mut bottom: Vec<ResolvedNode> = Vec::new();
        let mut top: Vec<ResolvedNode> = Vec::new();
        let mut center = self.flatten_impl(&mut bottom, &mut top, cull);
        proof {
            assert(ResolvedNode::view_children(Seq::<ResolvedNode>::empty()) =~= Seq::<
                RNodeV,
            >::empty());
            assert(Seq::<RNodeV>::empty() + spec_flatten_node(self@, *cull).0
                =~= spec_flatten_node(self@, *cull).0);
        }
        let ghost bpre = bottom@;
        let ghost cpre = center@;
        bottom.append(&mut center);
        let ghost bpre2 = bottom@;
        let ghost tpre = top@;
        bottom.append(&mut top);
        proof {
            lemma_rview_children_concat(bpre, cpre);
            lemma_rview_children_concat(bpre2, tpre);
            let tr = spec_flatten_node(self@, *cull);
            assert(ResolvedNode::view_children(bottom@) =~= tr.0 + tr.1 + tr.2);
        }
        bottom
    }
}

/// The capture callbacks of a tree, in pre-order: each `Capture` node's
/// callback observes that node's fully resolved subtree.
pub open spec fn spec_captures(n: RNodeV) -> Seq<(CallbackId, RNodeV)>
    decreases n,
{
    match n {
        RNodeV::Interact { child, .. } => spec_captures(*child),
        RNodeV::Capture { child, callback, .. } => seq![(callback, n)] + spec_captures(*child),
        RNodeV::Layout { children, .. } => captures_list(children),
        _ => Seq::empty(),
    }
}

/// The capture callbacks of a child list, in order.
pub open spec fn captures_list(s: Seq<RNodeV>) -> Seq<(CallbackId, RNodeV)>
    decreases s,
{
    if s.len() == 0 {
        Seq::empty()
    } else {
        captures_list(s.drop_last()) + spec_captures(s.last())
    }
}

impl ResolvedNode {
    #[verifier::rlimit(100)]
    fn collect_captures(&self, out: &mut Vec<(CallbackId, ResolvedNode)>)
        ensures
            final(out)@.len() == old(out)@.len() + spec_captures(self@).len(),
            forall|i: int| 0 <= i < old(out)@.len() ==> final(out)@[i] == old(out)@[i],
            forall|i: int|
                0 <= i < spec_captures(self@).len() ==> {
                    let e = #[trigger] final(out)@[old(out)@.len() + i];
                    &&& e.0 == spec_captures(self@)[i].0
                    &&& e.1@ == spec_captures(self@)[i].1
                },
        decreases self,
    {
        match self {
            ResolvedNode::Interact { child, .. } => {
                (**child).collect_captures(out);
                proof {
                    assert(spec_captures(self@) == spec_captures((**child)@));
                }
            },
            ResolvedNode::Capture { child, callback, .. } => {
                let me = self.duplicate();
                out.push((*callback, me));
                let ghost mid = out@;
                (**child).collect_captures(out);
                proof {
                    let own = spec_captures(self@);
                    let childs = spec_captures((**child)@);
                    assert(own == seq![(*callback, self@)] + childs);
                    assert forall|i: int| 0 <= i < own.len() implies {
                        let e = #[trigger] out@[old(out)@.len() + i];
                        &&& e.0 == own[i].0
                        &&& e.1@ == own[i].1
                    } by {
                        if i == 0 {
                            assert(out@[old(out)@.len() as int] == mid[old(out)@.len() as int]);
                            assert(mid[old(out)@.len() as int] == (*callback, me));
                            assert(own[0] == (*callback, self@));
                        } else {
                            assert(out@[mid.len() + (i - 1)].0 == childs[i - 1].0);
                            assert(out@[mid.len() + (i - 1)].1@ == childs[i - 1].1);
                            assert(own[i] == childs[i - 1]);
                        }
                    }
                }
            },
            ResolvedNode::Layout { children, .. } => {
                let ghost vc = ResolvedNode::view_children(children@);
                let ghost base = out@.len() as int;
                proof {
                    lemma_rview_children_len(children@);
                    assert(captures_list(vc.take(0)) =~= Seq::<(CallbackId, RNodeV)>::empty());
                }
                let n = children.len();
                let mut i: usize = 0;
                #[verifier::loop_isolation(false)]
                while i < n
                    invariant
                        i <= n,
                        out@.len() == base + captures_list(vc.take(i as int)).len(),
                        base <= out@.len(),
                        forall|k: int| 0 <= k < base ==> out@[k] == old(out)@[k],
                        forall|k: int|
                            0 <= k < captures_list(vc.take(i as int)).len() ==> {
                                let e = #[trigger] out@[base + k];
                                &&& e.0 == captures_list(vc.take(i as int))[k].0
                                &&& e.1@ == captures_list(vc.take(i as int))[k].1
                            },
                    decreases n - i,
                {
                    proof {
                        assert(decreases_to!(*self => *children));
                        assert(decreases_to!(*children => children@[i as int]));
                        lemma_rview_children_index(children@, i as int);
                    }
                    let ghost pre_out = out@;
                    children[i].collect_captures(out);
                    proof {
                        let prev = captures_list(vc.take(i as int));
                        let cur = spec_captures(vc[i as int]);
                        let tk = vc.take(i as int + 1);
                        assert(tk.drop_last() =~= vc.take(i as int));
                        assert(tk.last() == vc[i as int]);
                        assert(captures_list(tk) == prev + cur);
                        assert forall|k: int| 0 <= k < captures_list(tk).len() implies {
                            let e = #[trigger] out@[base + k];
                            &&& e.0 == captures_list(tk)[k].0
                            &&& e.1@ == captures_list(tk)[k].1
                        } by {
                            if k < prev.len() {
                                assert(out@[base + k] == pre_out[base + k]);
                                assert(captures_list(tk)[k] == prev[k]);
                            } else {
                                let k2 = k - prev.len();
                                assert(out@[pre_out.len() + k2].0 == cur[k2].0);
                                assert(out@[pre_out.len() + k2].1@ == cur[k2].1);
                                assert(captures_list(tk)[k] == cur[k2]);
                                assert(base + k == pre_out.len() + k2);
                            }
                        }
                    }
                    i = i + 1;
                }
                proof {
                    assert(vc.take(n as int) =~= vc);
                    assert(spec_captures(self@) == captures_list(vc));
                }
            },
            _ => {},
        }
    }

    /// The capture callbacks of this tree with the subtrees they observe,
    /// in pre-order; the host invokes each callback with its subtree after
    /// layout.
    pub fn capture_invocations(&self) -> (r: Vec<(CallbackId, ResolvedNode)>)
        ensures
            r@.len() == spec_captures(self@).len(),
            forall|i: int|
                0 <= i < spec_captures(self@).len() ==> {
                    let e = #[trigger] r@[i];
                    &&& e.0 == spec_captures(self@)[i].0
                    &&& e.1@ == spec_captures(self@)[i].1
                },
    {
        let mut out: Vec<(CallbackId, ResolvedNode)> = Vec::new();
        self.collect_captures(&mut out);
        proof {
            assert forall|i: int| 0 <= i < spec_captures(self@).len() implies {
                let e = #[trigger] out@[i];
                &&& e.0 == spec_captures(self@)[i].0
                &&& e.1@ == spec_captures(self@)[i].1
            } by {
                assert(out@[0 + i].0 == spec_captures(self@)[i].0);
                assert(out@[0 + i].1@ == spec_captures(self@)[i].1);
            }
        }
        out
    }
}

/// Flatten z-order law: under a layout parent in the default bucket, three
/// visible leaf siblings tagged `Below`, `Above` and `Top` — in any
/// construction order within those buckets — appear in the flattened list
/// as the `Below` child first, then the parent's record and the `Above`
/// child, then the `Top` child last.
pub proof fn lemma_flatten_z_order(parent: RNodeV, a: RNodeV, b: RNodeV, c: RNodeV, cull: Rect)
    requires
        parent matches RNodeV::Layout { children, z_order, .. } && children == seq![a, b, c]
            && z_order == ZOrder::Above,
        a is Rectangle,
        b is Rectangle,
        c is Rectangle,
        a.spec_z() == ZOrder::Below,
        b.spec_z() == ZOrder::Above,
        c.spec_z() == ZOrder::Top,
        spec_visible(parent, cull),
        spec_visible(a, cull),
        spec_visible(b, cull),
        spec_visible(c, cull),
    ensures
        spec_flatten(parent, cull) == seq![a, spec_flat_clone(parent), b, c],
{
    let e = Seq::<RNodeV>::empty();
    let pc = spec_flat_clone(parent);
    assert(spec_flat_clone(a) == a);
    assert(spec_flat_clone(b) == b);
    assert(spec_flat_clone(c) == c);
    assert(spec_flatten_node(a, cull).0 =~= e);
    assert(spec_flatten_node(a, cull).1 =~= seq![a]);
    assert(spec_flatten_node(a, cull).2 =~= e);
    assert(spec_flatten_node(b, cull).0 =~= e);
    assert(spec_flatten_node(b, cull).1 =~= seq![b]);
    assert(spec_flatten_node(b, cull).2 =~= e);
    assert(spec_flatten_node(c, cull).0 =~= e);
    assert(spec_flatten_node(c, cull).1 =~= e);
    assert(spec_flatten_node(c, cull).2 =~= e + seq![c]);
    assert(spec_flatten_node(c, cull).2 =~= seq![c]);
    let s3 = seq![a, b, c];
    let s2 = seq![a, b];
    let s1 = seq![a];
    assert(s3.drop_last() =~= s2);
    assert(s3.last() == c);
    assert(s2.drop_last() =~= s1);
    assert(s2.last() == b);
    assert(s1.drop_last() =~= e);
    assert(s1.last() == a);
    let acc0 = (e, seq![pc], e);
    assert(spec_flatten_fold(e, cull, acc0) == acc0);
    let f1 = spec_flatten_fold(s1, cull, acc0);
    assert(f1 == route_child(acc0, spec_flatten_node(a, cull), a.spec_z()));
    assert(f1.0 =~= e);
    assert(f1.1 =~= seq![a, pc]);
    assert(f1.2 =~= e);
    let f2 = spec_flatten_fold(s2, cull, acc0);
    assert(f2 == route_child(f1, spec_flatten_node(b, cull), b.spec_z()));
    assert(f2.0 =~= e);
    assert(f2.1 =~= seq![a, pc, b]);
    assert(f2.2 =~= e);
    let f3 = spec_flatten_fold(s3, cull, acc0);
    assert(f3 == route_child(f2, spec_flatten_node(c, cull), c.spec_z()));
    assert(f3.0 =~= e);
    assert(f3.1 =~= seq![a, pc, b]);
    assert(f3.2 =~= seq![c]);
    let tr = spec_flatten_node(parent, cull);
    assert(tr.0 =~= e);
    assert(tr.1 =~= seq![a, pc, b]);
    assert(tr.2 =~= seq![c]);
    assert(spec_flatten(parent, cull) =~= seq![a, pc, b, c]);
}

} // verus!
