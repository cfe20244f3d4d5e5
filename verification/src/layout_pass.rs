//! Top-down layout of a resolved tree.
//!
//! After resolution every node carries a zero-origin rectangle of its own
//! measured size.  `perform_layout` walks the tree from the root, assigning
//! each child the rectangle its parent's strategy computes for it; all
//! rectangles are absolute (root-relative).  An `Interact` wrapper passes
//! its own rectangle through to its child; a `Capture` wrapper leaves its
//! child where resolution put it.

use vstd::prelude::*;
use crate::geom::{Rect, Size2};
use crate::layout::{position_req, spec_position};
use crate::node::{
    lemma_rview_children_index, lemma_rview_children_len, RNodeV, ResolvedNode,
};
use crate::resolve::sizes_of;

verus! {

/// The tree `n` laid out into the rectangle `r`: the node takes `r` (a text
/// node only moves), and its children are positioned within it by its
/// strategy.
pub open spec fn spec_layout_into(n: RNodeV, r: Rect) -> RNodeV
    decreases n,
{
    match n {
        RNodeV::Interact { child, callback, rect, id, passthrough, z_order } => RNodeV::Interact {
            child: Box::new(spec_layout_into(*child, r)),
            callback,
            rect: r,
            id,
            passthrough,
            z_order,
        },
        RNodeV::Layout { layout, children, rect, z_order } => RNodeV::Layout {
            layout,
            children: spec_layout_children(
                children,
                spec_position(layout, r, sizes_of(children)),
            ),
            rect: r,
            z_order,
        },
        other => other.with_rect(r),
    }
}

/// Each child laid out into its assigned rectangle, in order.
pub open spec fn spec_layout_children(s: Seq<RNodeV>, rects: Seq<Rect>) -> Seq<RNodeV>
    decreases s,
{
    if s.len() == 0 {
        Seq::empty()
    } else {
        spec_layout_children(s.drop_last(), rects.drop_last()).push(
            spec_layout_into(s.last(), rects.last()),
        )
    }
}

/// The machine-limit precondition of the layout pass: every layout node's
/// strategy can position its children within the rectangle the node is
/// assigned, and so on recursively down the assigned rectangles.
pub open spec fn layout_ok(n: RNodeV, r: Rect) -> bool
    decreases n,
{
    match n {
        RNodeV::Interact { child, .. } => layout_ok(*child, r),
        RNodeV::Layout { layout, children, .. } => {
            let rects = spec_position(layout, r, sizes_of(children));
            &&& position_req(layout, r, sizes_of(children))
            &&& rects.len() == children.len()
            &&& forall|i: int|
                0 <= i < children.len() ==> layout_ok(#[trigger] children[i], rects[i])
        },
        _ => true,
    }
}

impl ResolvedNode {
    /// Consumes the node and lays it out into the rectangle `r`.
    fn layout_into(self, r: Rect) -> (out: ResolvedNode)
        requires
            layout_ok(self@, r),
        ensures
            out@ == spec_layout_into(self@, r),
        decreases self,
    {
        match self {
            ResolvedNode::Interact { child, callback, rect: _, id, passthrough, z_order } => {
                let c = (*child).layout_into(r);
                ResolvedNode::Interact {
                    child: Box::new(c),
                    callback,
                    rect: r,
                    id,
                    passthrough,
                    z_order,
                }
            },
            ResolvedNode::Layout { layout, mut children, rect: _, z_order } => {
                let ghost me = self;
                let ghost orig = children@;
                let ghost vc = ResolvedNode::view_children(orig);
                proof {
                    lemma_rview_children_len(orig);
                }
                let n = children.len();
                let mut sizes: Vec<Size2> = Vec::new();
                let mut j: usize = 0;
                #[verifier::loop_isolation(false)]
                while j < n
                    invariant
                        j <= n,
                        children@ == orig,
                        sizes@.len() == j,
                        forall|k: int| 0 <= k < j ==> sizes@[k] == sizes_of(vc)[k],
                    decreases n - j,
                {
                    proof {
                        lemma_rview_children_index(orig, j as int);
                    }
                    let s = children[j].size();
                    sizes.push(s);
                    j = j + 1;
                }
                proof {
                    assert(sizes@ =~= sizes_of(vc));
                }
                let rects = layout.position(r, &sizes);
                let ghost rectsv = rects@;
                proof {
                    assert(rectsv == spec_position(layout@, r, sizes_of(vc)));
                    assert(spec_layout_children(vc.take(0), rectsv.take(0)) =~= Seq::<
                        RNodeV,
                    >::empty());
                    assert(vc.take(0) =~= Seq::<RNodeV>::empty());
                }
                let mut out_children: Vec<ResolvedNode> = Vec::new();
                let mut j: usize = 0;
                #[verifier::loop_isolation(false)]
                while j < n
                    invariant
                        j <= n,
                        n == orig.len(),
                        children@ == orig.skip(j as int),
                        ResolvedNode::view_children(out_children@) == spec_layout_children(
                            vc.take(j as int),
                            rectsv.take(j as int),
                        ),
                        out_children@.len() == j,
                    decreases n - j,
                {
                    let ghost pre_out = out_children@;
                    let c = children.remove(0);
                    proof {
                        assert(orig.skip(j as int)[0] == orig[j as int]);
                        assert(decreases_to!(me => me->Layout_children));
                        assert(me->Layout_children@ == orig);
                        assert(decreases_to!(me->Layout_children => me->Layout_children@[
                        j as int]));
                        assert(c == orig[j as int]);
                        lemma_rview_children_index(orig, j as int);
                        assert(layout_ok(vc[j as int], rectsv[j as int]));
                        assert(children@ =~= orig.skip(j as int + 1));
                    }
                    let c2 = c.layout_into(rects[j]);
                    out_children.push(c2);
                    proof {
                        let tk = vc.take(j as int + 1);
                        let rk = rectsv.take(j as int + 1);
                        assert(tk.drop_last() =~= vc.take(j as int));
                        assert(rk.drop_last() =~= rectsv.take(j as int));
                        assert(tk.last() == vc[j as int]);
                        assert(rk.last() == rectsv[j as int]);
                        lemma_rview_children_len(pre_out);
                        assert(out_children@ == pre_out.push(c2));
                        assert(ResolvedNode::view_children(pre_out.push(c2))
                            == ResolvedNode::view_children(pre_out).push(c2@)) by {
                            assert(pre_out.push(c2).drop_last() =~= pre_out);
                            assert(pre_out.push(c2).last() == c2);
                        }
                    }
                    j = j + 1;
                }
                proof {
                    assert(vc.take(n as int) =~= vc);
                    assert(rectsv.take(n as int) =~= rectsv);
                }
                ResolvedNode::Layout { layout, children: out_children, rect: r, z_order }
            },
            other => {
                let mut s = other;
                s.set_rect(r);
                s
            },
        }
    }

    /// Performs top-down layout of this resolved tree, in place: every
    /// descendant's rectangle becomes the absolute rectangle its parent's
    /// strategy assigns, starting from this node's own rectangle.
    pub fn perform_layout(&mut self)
        requires
            layout_ok(old(self)@, old(self)@.spec_rect()),
        ensures
            final(self)@ == spec_layout_into(old(self)@, old(self)@.spec_rect()),
    {
        let r = self.rect();
        let mut tmp = ResolvedNode::Null;
        core::mem::swap(self, &mut tmp);
        let done = tmp.layout_into(r);
        *self = done;
    }
}

} // verus!
