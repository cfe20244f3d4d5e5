//! Diff / reconciliation: merging a freshly built declarative tree with the
//! previous frame's resolved tree.
//!
//! Nodes are matched pairwise by variant at the same tree position.  A
//! matched `Interact` pair rebinds the live interaction trackers (hover,
//! press, focus) to the new frame's callback, which keeps a currently
//! hovered or focused element responsive to its latest closure.  A matched
//! `Text` pair reuses the prior shaped blob unless the text, font or size
//! changed.  A matched `Layout` pair whose old rectangle misses the cull
//! rectangle short-circuits to the absent node without touching its
//! descendants; otherwise the child lists are padded or truncated to pair
//! up and diffed recursively.  Any other pairing discards the old subtree
//! and resolves the new node from scratch.  An embedded already-resolved
//! subtree is treated as final and is never re-diffed.

use vstd::prelude::*;
use crate::ErrorV;
use crate::geom::{Point2, Rect, Size2};
use crate::identity::Identity;
use crate::layout::{size_req, spec_size, MAX_CHILDREN};
use crate::node::{
    lemma_rview_children_index, lemma_rview_children_len, lemma_rview_children_push,
    lemma_view_children_index, lemma_view_children_len, CallbackId, Node, NodeV, RNodeV,
    ResolvedNode,
};
use crate::resolve::{resolve_node, resolve_ok, sizes_of, ResolveEnv};
use crate::text::Resources;

verus! {

/// The interactive node a tracker (hover, press or focus) points at: the
/// callback to fire and the identity that joins frames.
#[derive(Debug, Clone, Copy, PartialEq, Eq, Structural, Hash)]
pub struct InteractNode {
    pub callback: CallbackId,
    pub id: Identity,
}

/// Whether two tracker values point at the same interactive node: both
/// absent, or present with equal identities.  Callbacks are fresh
/// allocations each frame, so identity is the sole criterion.
pub open spec fn spec_same_target(a: Option<InteractNode>, b: Option<InteractNode>) -> bool {
    match (a, b) {
        (None, None) => true,
        (Some(x), Some(y)) => x.id == y.id,
        _ => false,
    }
}

/// Whether two tracker values point at the same interactive node.
pub fn compare_interact(a: &Option<InteractNode>, b: &Option<InteractNode>) -> (r: bool)
    ensures
        r == spec_same_target(*a, *b),
{
    match (a, b) {
        (None, None) => true,
        (Some(x), Some(y)) => x.id == y.id,
        _ => false,
    }
}

/// A tracker after meeting a new-frame interactive node: rebound to the new
/// callback when the identities join, untouched otherwise.
pub open spec fn spec_retarget(
    tr: Option<InteractNode>,
    callback: CallbackId,
    id: Identity,
) -> Option<InteractNode> {
    match tr {
        Some(t) => if t.id == id {
            Some(InteractNode { callback, id: t.id })
        } else {
            Some(t)
        },
        None => None,
    }
}

/// Rebinds a tracker to the new frame's callback when it points at this
/// identity.
pub fn try_set_callback(tr: &mut Option<InteractNode>, callback: CallbackId, id: Identity)
    ensures
        *final(tr) == spec_retarget(*old(tr), callback, id),
{
    match tr {
        Some(t) => {
            if t.id == id {
                t.callback = callback;
            }
        },
        None => {},
    }
}

/// The old child list padded with absent nodes or truncated to the new
/// frame's child count, so positional pairing is total.
pub open spec fn pad_nulls(s: Seq<RNodeV>, n: int) -> Seq<RNodeV> {
    if s.len() >= n {
        s.take(n)
    } else {
        s + Seq::new((n - s.len()) as nat, |i: int| RNodeV::Null)
    }
}

/// What diffing a node pair yields, before the host unwraps it: the merged
/// resolved node, or the first error a fallback resolution found.
pub open spec fn diff_node(new: NodeV, old: RNodeV, cull: Rect, env: ResolveEnv) -> Result<
    Option<RNodeV>,
    ErrorV,
>
    decreases new,
{
    match (new, old) {
        (NodeV::Null, RNodeV::Null) => Ok(Some(RNodeV::Null)),
        (
            NodeV::Interact { child, callback, id, passthrough, z_order },
            RNodeV::Interact { child: old_child, .. },
        ) => {
            match diff_node(*child, *old_child, cull, env) {
                Err(e) => Err(e),
                Ok(None) => Err(ErrorV::EmptyNode),
                Ok(Some(c)) => Ok(
                    Some(
                        RNodeV::Interact {
                            child: Box::new(c),
                            callback,
                            rect: Rect {
                                origin: Point2 { x: 0i64, y: 0i64 },
                                size: c.spec_size(),
                            },
                            id,
                            passthrough,
                            z_order,
                        },
                    ),
                ),
            }
        },
        (
            NodeV::Text { text, font, size, fill, z_order },
            RNodeV::Text { text: ot, font: of, size: osz, font_data, blob, rect, .. },
        ) => {
            let sz = match size {
                Some(s) => s,
                None => env.fallback_text_size,
            };
            if text != ot || font != of || sz != osz {
                resolve_node(new, env)
            } else {
                Ok(
                    Some(
                        RNodeV::Text {
                            text,
                            font,
                            font_data,
                            blob,
                            size: sz,
                            fill: match fill {
                                Some(p) => p,
                                None => env.fallback_text_fill,
                            },
                            rect,
                            z_order,
                        },
                    ),
                )
            }
        },
        (
            NodeV::Layout { layout, children, z_order },
            RNodeV::Layout { children: old_children, rect, .. },
        ) => {
            if !cull.spec_intersects(rect) {
                Ok(Some(RNodeV::Null))
            } else {
                match diff_children(
                    children,
                    pad_nulls(old_children, children.len() as int),
                    cull,
                    env,
                ) {
                    Err(e) => Err(e),
                    Ok(rc) => Ok(
                        Some(
                            RNodeV::Layout {
                                layout,
                                children: rc,
                                rect: Rect {
                                    origin: Point2 { x: 0i64, y: 0i64 },
                                    size: spec_size(layout, sizes_of(rc)),
                                },
                                z_order,
                            },
                        ),
                    ),
                }
            }
        },
        (n, _) => resolve_node(n, env),
    }
}

/// What diffing paired child lists yields: the merged children in order
/// (absent pairs stay absent), or the first error found.
pub open spec fn diff_children(
    news: Seq<NodeV>,
    olds: Seq<RNodeV>,
    cull: Rect,
    env: ResolveEnv,
) -> Result<Seq<RNodeV>, ErrorV>
    decreases news,
{
    if news.len() == 0 {
        Ok(Seq::empty())
    } else {
        match diff_children(news.drop_last(), olds.drop_last(), cull, env) {
            Err(e) => Err(e),
            Ok(rest) => match diff_node(news.last(), olds.last(), cull, env) {
                Err(e) => Err(e),
                Ok(None) => Err(ErrorV::EmptyNode),
                Ok(Some(c)) => Ok(rest.push(c)),
            },
        }
    }
}

/// A tracker threaded through the diff traversal: every matched `Interact`
/// pair it meets (outside culled subtrees and fallback resolutions) rebinds
/// it to the new frame's callback when the identities join.
pub open spec fn rebind_tracker(
    tr: Option<InteractNode>,
    new: NodeV,
    old: RNodeV,
    cull: Rect,
) -> Option<InteractNode>
    decreases new,
{
    match (new, old) {
        (
            NodeV::Interact { child, callback, id, .. },
            RNodeV::Interact { child: old_child, .. },
        ) => rebind_tracker(spec_retarget(tr, callback, id), *child, *old_child, cull),
        (
            NodeV::Layout { children, .. },
            RNodeV::Layout { children: old_children, rect, .. },
        ) => {
            if !cull.spec_intersects(rect) {
                tr
            } else {
                rebind_children(tr, children, pad_nulls(old_children, children.len() as int), cull)
            }
        },
        _ => tr,
    }
}

/// The tracker threaded through paired child lists, left to right.
pub open spec fn rebind_children(
    tr: Option<InteractNode>,
    news: Seq<NodeV>,
    olds: Seq<RNodeV>,
    cull: Rect,
) -> Option<InteractNode>
    decreases news,
{
    if news.len() == 0 {
        tr
    } else {
        rebind_tracker(
            rebind_children(tr, news.drop_last(), olds.drop_last(), cull),
            news.last(),
            olds.last(),
            cull,
        )
    }
}

/// The machine-limit and no-panic precondition of diffing: every pairing
/// that falls back to resolution resolves to a substantive node, every
/// layout pair in view has an acceptable child list, and the old rectangles
/// that culling tests are in range.
pub open spec fn diff_ok(new: NodeV, old: RNodeV, cull: Rect, env: ResolveEnv) -> bool
    decreases new,
{
    match (new, old) {
        (NodeV::Null, RNodeV::Null) => true,
        (NodeV::Interact { child, .. }, RNodeV::Interact { child: old_child, .. }) => {
            &&& diff_ok(*child, *old_child, cull, env)
            &&& (diff_node(*child, *old_child, cull, env) matches Ok(Some(_)))
        },
        (NodeV::Text { text, font, size, .. }, RNodeV::Text { text: ot, font: of, size: osz, .. }) => {
            let sz = match size {
                Some(s) => s,
                None => env.fallback_text_size,
            };
            (text != ot || font != of || sz != osz) ==> {
                &&& resolve_ok(new, env)
                &&& (resolve_node(new, env) matches Ok(Some(_)))
            }
        },
        (
            NodeV::Layout { layout, children, .. },
            RNodeV::Layout { children: old_children, rect, .. },
        ) => {
            &&& rect.wf_big()
            &&& (cull.spec_intersects(rect) ==> {
                let padded = pad_nulls(old_children, children.len() as int);
                &&& children.len() <= MAX_CHILDREN
                &&& (forall|i: int|
                    0 <= i < children.len() ==> diff_ok(#[trigger] children[i], padded[i], cull, env))
                &&& (forall|i: int|
                    0 <= i < children.len() ==> (diff_node(
                        #[trigger] children[i],
                        padded[i],
                        cull,
                        env,
                    ) matches Ok(Some(_))))
                &&& (diff_children(children, padded, cull, env) matches Ok(rc) ==> size_req(
                    layout,
                    sizes_of(rc),
                ))
            })
        },
        (n, _) => resolve_ok(n, env) && (resolve_node(n, env) matches Ok(Some(_))),
    }
}

/// Taking a prefix commutes with taking views.
proof fn lemma_rview_take(s: Seq<ResolvedNode>, k: int)
    requires
        0 <= k <= s.len(),
    ensures
        ResolvedNode::view_children(s.take(k)) == ResolvedNode::view_children(s).take(k),
{
    lemma_rview_children_len(s);
    lemma_rview_children_len(s.take(k));
    assert forall|i: int| 0 <= i < k implies ResolvedNode::view_children(s.take(k))[i]
        == ResolvedNode::view_children(s).take(k)[i] by {
        lemma_rview_children_index(s.take(k), i);
        lemma_rview_children_index(s, i);
        assert(s.take(k)[i] == s[i]);
    }
    assert(ResolvedNode::view_children(s.take(k)) =~= ResolvedNode::view_children(s).take(k));
}

/// Merges a new declarative tree with the previous frame's resolved tree,
/// preserving shaped text and rebinding the live interaction trackers where
/// identities join; subtrees out of view are dropped whole, and unmatched
/// pairings are resolved from scratch.
#[verifier::rlimit(100)]
pub fn diff_resolve(
    resources: &mut Resources,
    new: Node,
    prev: ResolvedNode,
    cull: &Rect,
    hovered: &mut Option<InteractNode>,
    pressed: &mut Option<InteractNode>,
    focused: &mut Option<InteractNode>,
) -> (r: ResolvedNode)
    requires
        old(resources).wf(),
        cull.wf(),
        diff_ok(new@, prev@, *cull, old(resources).env()),
    ensures
        final(resources).wf(),
        final(resources).env() == old(resources).env(),
        diff_node(new@, prev@, *cull, old(resources).env()) == Result::<
            Option<RNodeV>,
            ErrorV,
        >::Ok(Some(r@)),
        *final(hovered) == rebind_tracker(*old(hovered), new@, prev@, *cull),
        *final(pressed) == rebind_tracker(*old(pressed), new@, prev@, *cull),
        *final(focused) == rebind_tracker(*old(focused), new@, prev@, *cull),
    decreases new,
{
    let ghost new0 = new;
    match (new, prev) {
        (Node::Null, ResolvedNode::Null) => ResolvedNode::Null,
        (
            Node::Interact { child, callback, id, passthrough, z_order },
            ResolvedNode::Interact { child: old_child, .. },
        ) => {
            try_set_callback(hovered, callback, id);
            try_set_callback(pressed, callback, id);
            try_set_callback(focused, callback, id);
            let c = diff_resolve(resources, *child, *old_child, cull, hovered, pressed, focused);
            let size = c.size();
            ResolvedNode::Interact {
                rect: Rect { origin: Point2 { x: 0, y: 0 }, size },
                child: Box::new(c),
                callback,
                id,
                passthrough,
                z_order,
            }
        },
        (
            Node::Text { text, font, size, fill, z_order },
            ResolvedNode::Text { text: ot, font: of, size: osz, font_data, blob, rect, .. },
        ) => {
            let sz: i64 = match size {
                Some(s) => s,
                None => resources.fallback_text_size,
            };
            if !(text == ot) || !(font == of) || sz != osz {
                let n2 = Node::Text { text, font, size, fill, z_order };
                match n2.resolve(resources) {
                    Ok(Some(r)) => r,
                    _ => vstd::pervasive::unreached(),
                }
            } else {
                let fill_p = match fill {
                    Some(p) => p,
                    None => resources.fallback_text_fill.duplicate(),
                };
                ResolvedNode::Text {
                    text,
                    font,
                    font_data,
                    blob,
                    size: sz,
                    fill: fill_p,
                    rect,
                    z_order,
                }
            }
        },
        (
            Node::Layout { layout, children, z_order },
            ResolvedNode::Layout { children: old_children, rect, .. },
        ) => {
            if !cull.intersects(&rect) {
                return ResolvedNode::Null;
            }
            let ghost env = resources.env();
            let n = children.len();
            let ghost cvec = children@;
            let ghost cv = Node::view_children(cvec);
            let ghost ocv = ResolvedNode::view_children(old_children@);
            let ghost padded = pad_nulls(ocv, n as int);
            proof {
                lemma_view_children_len(cvec);
                lemma_rview_children_len(old_children@);
            }
            // Pad or truncate the old children so pairing is positional.
            let mut oc = old_children;
            let ghost oc0 = oc@;
            if oc.len() > n {
                oc.truncate(n);
                proof {
                    assert(oc@ =~= oc0.take(n as int));
                }
            } else {
                #[verifier::loop_isolation(false)]
                while oc.len() < n
                    invariant
                        oc@.len() <= n,
                        oc0.len() <= oc@.len(),
                        oc@.take(oc0.len() as int) == oc0,
                        forall|k: int|
                            oc0.len() <= k < oc@.len() ==> oc@[k] == ResolvedNode::Null,
                    decreases n - oc@.len(),
                {
                    oc.push(ResolvedNode::Null);
                    proof {
                        assert(oc@.take(oc0.len() as int) =~= oc0);
                    }
                }
            }
            proof {
                lemma_rview_children_len(oc@);
                assert forall|k: int| 0 <= k < n implies ResolvedNode::view_children(oc@)[k]
                    == padded[k] by {
                    lemma_rview_children_index(oc@, k);
                    if oc0.len() >= n {
                        lemma_rview_take(oc0, n as int);
                        assert(oc@ =~= oc0.take(n as int));
                        assert(ResolvedNode::view_children(oc@) == ocv.take(n as int));
                        assert(padded == ocv.take(n as int));
                    } else {
                        if k < oc0.len() {
                            assert(oc@[k] == oc@.take(oc0.len() as int)[k]);
                            assert(oc@[k] == oc0[k]);
                            lemma_rview_children_index(oc0, k);
                            assert(padded[k] == ocv[k]);
                        } else {
                            assert(oc@[k] == ResolvedNode::Null);
                            assert(padded[k] == RNodeV::Null);
                            assert(ResolvedNode::Null@ == RNodeV::Null);
                        }
                    }
                }
                assert(ResolvedNode::view_children(oc@) =~= padded);
            }
            let ghost ovec = oc@;
            let ghost h0 = *hovered;
            let ghost p0 = *pressed;
            let ghost f0 = *focused;
            let mut children = children;
            let mut oc = oc;
            let mut rc: Vec<ResolvedNode> = Vec::new();
            let mut i: usize = 0;
            proof {
                assert(cv.take(0) =~= Seq::<NodeV>::empty());
                assert(padded.take(0) =~= Seq::<RNodeV>::empty());
                assert(ResolvedNode::view_children(Seq::<ResolvedNode>::empty()) =~= Seq::<
                    RNodeV,
                >::empty());
            }
            #[verifier::loop_isolation(false)]
            while i < n
                invariant
                    i <= n,
                    n == cvec.len(),
                    n == ovec.len(),
                    children@ == cvec.skip(i as int),
                    oc@ == ovec.skip(i as int),
                    resources.wf(),
                    resources.env() == env,
                    diff_children(cv.take(i as int), padded.take(i as int), *cull, env)
                        == Result::<Seq<RNodeV>, ErrorV>::Ok(
                        ResolvedNode::view_children(rc@),
                    ),
                    *hovered == rebind_children(h0, cv.take(i as int), padded.take(i as int), *cull),
                    *pressed == rebind_children(p0, cv.take(i as int), padded.take(i as int), *cull),
                    *focused == rebind_children(f0, cv.take(i as int), padded.take(i as int), *cull),
                decreases n - i,
            {
                let nc = children.remove(0);
                let ocd = oc.remove(0);
                proof {
                    assert(cvec.skip(i as int)[0] == cvec[i as int]);
                    assert(children@ =~= cvec.skip(i as int + 1));
                    assert(ovec.skip(i as int)[0] == ovec[i as int]);
                    assert(oc@ =~= ovec.skip(i as int + 1));
                    lemma_view_children_index(cvec, i as int);
                    lemma_rview_children_index(ovec, i as int);
                    assert(nc@ == cv[i as int]);
                    assert(ocd@ == padded[i as int]);
                    assert(decreases_to!(new0 => new0->Layout_children));
                    assert(new0->Layout_children@ == cvec);
                    assert(decreases_to!(new0->Layout_children => new0->Layout_children@[
                    i as int]));
                    assert(diff_ok(cv[i as int], padded[i as int], *cull, env));
                    assert(diff_node(cv[i as int], padded[i as int], *cull, env) matches Ok(
                        Some(_),
                    ));
                }
                let ghost rc_pre = rc@;
                let c = diff_resolve(resources, nc, ocd, cull, hovered, pressed, focused);
                rc.push(c);
                proof {
                    let tk = cv.take(i as int + 1);
                    let pk = padded.take(i as int + 1);
                    assert(tk.drop_last() =~= cv.take(i as int));
                    assert(pk.drop_last() =~= padded.take(i as int));
                    assert(tk.last() == cv[i as int]);
                    assert(pk.last() == padded[i as int]);
                    lemma_rview_children_push(rc_pre, c);
                }
                i = i + 1;
            }
            proof {
                assert(cv.take(n as int) =~= cv);
                assert(padded.take(n as int) =~= padded);
            }
            let ghost rcv = ResolvedNode::view_children(rc@);
            proof {
                lemma_rview_children_len(rc@);
                assert(size_req(layout@, sizes_of(rcv)));
            }
            let mut sizes: Vec<Size2> = Vec::new();
            let mut j: usize = 0;
            #[verifier::loop_isolation(false)]
            while j < rc.len()
                invariant
                    j <= rc@.len(),
                    sizes@.len() == j,
                    forall|k: int| 0 <= k < j ==> sizes@[k] == sizes_of(rcv)[k],
                decreases rc@.len() - j,
            {
                proof {
                    lemma_rview_children_index(rc@, j as int);
                }
                let s = rc[j].size();
                sizes.push(s);
                j = j + 1;
            }
            proof {
                assert(sizes@ =~= sizes_of(rcv));
            }
            let size = layout.size(&sizes);
            ResolvedNode::Layout {
                layout,
                children: rc,
                rect: Rect { origin: Point2 { x: 0, y: 0 }, size },
                z_order,
            }
        },
        (n, _) => {
            match n.resolve(resources) {
                Ok(Some(r)) => r,
                _ => vstd::pervasive::unreached(),
            }
        },
    }
}

/// Diff preserves cached work outside the viewport: when the old layout
/// subtree's rectangle lies entirely outside the cull rectangle, diffing
/// short-circuits to the absent node at once — no descendant is visited, no
/// resolution happens, and the trackers are untouched.
pub proof fn lemma_diff_culled(
    new: NodeV,
    old: RNodeV,
    cull: Rect,
    env: ResolveEnv,
    tr: Option<InteractNode>,
)
    requires
        new is Layout,
        old matches RNodeV::Layout { rect, .. } && !cull.spec_intersects(rect),
    ensures
        diff_node(new, old, cull, env) == Result::<Option<RNodeV>, ErrorV>::Ok(
            Some(RNodeV::Null),
        ),
        rebind_tracker(tr, new, old, cull) == tr,
{
}

} // verus!
