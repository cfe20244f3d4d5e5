//! Node resolution: binding a declarative tree to concrete resources.
//!
//! Resolution looks fonts up by name, shapes text (through the memoizing
//! cache in [`Resources`]), computes every layout node's own size bottom-up,
//! and mirrors the tree into resolved nodes whose rectangles start at the
//! origin; absolute positions are assigned later by `perform_layout`.
//!
//! The result is a function of the tree and the font bindings alone — the
//! shaping cache never influences it — so resolving unchanged content twice
//! yields identical artifacts.

use vstd::prelude::*;
use vstd::string::StrSliceExecFns;
use crate::{Error, ErrorV};
use crate::geom::{Point2, Rect, Size2};
use crate::layout::{size_req, spec_size};
use crate::node::{
    dup_opt_paint, lemma_rview_children_index, lemma_rview_children_len,
    lemma_rview_children_push, lemma_view_children_index, lemma_view_children_len, Node, NodeV,
    RNodeV, ResolvedNode,
};
use crate::paint::PaintV;
use crate::text::{
    font_lookup, spec_measure, spec_shaped_glyphs, FontMetrics, Resources, ShapedBlob,
    MAX_TEXT_LEN, MAX_TEXT_SIZE,
};

verus! {

/// What resolution reads from the resource pool: the font bindings and the
/// fallbacks.  The shaping cache is deliberately absent.
pub struct ResolveEnv {
    pub fonts: Seq<(String, FontMetrics)>,
    pub fallback_text_size: i64,
    pub fallback_text_fill: PaintV,
}

impl Resources {
    /// The part of the pool that determines resolution results.
    pub open spec fn env(self) -> ResolveEnv {
        ResolveEnv {
            fonts: self.fonts@,
            fallback_text_size: self.fallback_text_size,
            fallback_text_fill: self.fallback_text_fill@,
        }
    }
}

/// The sizes of a sequence of resolved nodes.
pub open spec fn sizes_of(s: Seq<RNodeV>) -> Seq<Size2> {
    s.map_values(|c: RNodeV| c.spec_size())
}

/// The zero-origin rectangle of a given size.
pub open spec fn at_origin(size: Size2) -> Rect {
    Rect { origin: Point2 { x: 0i64, y: 0i64 }, size }
}

/// What resolving a node yields: `None` for the absent node, a resolved
/// mirror otherwise, or the first error found.
pub open spec fn resolve_node(n: NodeV, env: ResolveEnv) -> Result<Option<RNodeV>, ErrorV>
    decreases n,
{
    match n {
        NodeV::Null => Ok(None),
        NodeV::Interact { child, callback, id, passthrough, z_order } => {
            match resolve_node(*child, env) {
                Err(e) => Err(e),
                Ok(None) => Err(ErrorV::EmptyNode),
                Ok(Some(c)) => Ok(
                    Some(
                        RNodeV::Interact {
                            child: Box::new(c),
                            callback,
                            rect: at_origin(c.spec_size()),
                            id,
                            passthrough,
                            z_order,
                        },
                    ),
                ),
            }
        },
        NodeV::Capture { child, callback, z_order } => {
            match resolve_node(*child, env) {
                Err(e) => Err(e),
                Ok(None) => Err(ErrorV::EmptyNode),
                Ok(Some(c)) => Ok(
                    Some(
                        RNodeV::Capture {
                            child: Box::new(c),
                            callback,
                            rect: at_origin(c.spec_size()),
                            z_order,
                        },
                    ),
                ),
            }
        },
        NodeV::Layout { layout, children, z_order } => {
            match resolve_children(children, env) {
                Err(e) => Err(e),
                Ok(rc) => Ok(
                    Some(
                        RNodeV::Layout {
                            layout,
                            children: rc,
                            rect: at_origin(spec_size(layout, sizes_of(rc))),
                            z_order,
                        },
                    ),
                ),
            }
        },
        NodeV::Text { text, font, size, fill, z_order } => {
            let sz = match size {
                Some(s) => s,
                None => env.fallback_text_size,
            };
            match font_lookup(env.fonts, font) {
                None => Err(ErrorV::InvalidFont(font)),
                Some(m) => {
                    let blob = if text.len() > 0 {
                        Some(spec_shaped_glyphs(text, m, sz as int))
                    } else {
                        None
                    };
                    let bounds = if text.len() > 0 {
                        spec_measure(text, m, sz as int)
                    } else {
                        Size2 { width: 0i64, height: 0i64 }
                    };
                    Ok(
                        Some(
                            RNodeV::Text {
                                text,
                                font,
                                font_data: m,
                                blob,
                                size: sz,
                                fill: match fill {
                                    Some(p) => p,
                                    None => env.fallback_text_fill,
                                },
                                rect: at_origin(bounds),
                                z_order,
                            },
                        ),
                    )
                },
            }
        },
        NodeV::Rectangle { size, corner_radius, background, border, border_fill, z_order } => Ok(
            Some(
                RNodeV::Rectangle {
                    rect: at_origin(size),
                    corner_radii: corner_radius,
                    background,
                    border,
                    border_fill,
                    z_order,
                },
            ),
        ),
        NodeV::Draw { size, draw_fn, z_order } => Ok(
            Some(RNodeV::Draw { rect: at_origin(size), draw_fn, z_order }),
        ),
        NodeV::Resolved(r) => Ok(Some(r)),
    }
}

/// What resolving a child list yields: the resolved children in order with
/// the absent ones dropped, or the first error found.
pub open spec fn resolve_children(s: Seq<NodeV>, env: ResolveEnv) -> Result<Seq<RNodeV>, ErrorV>
    decreases s,
{
    if s.len() == 0 {
        Ok(Seq::empty())
    } else {
        match resolve_children(s.drop_last(), env) {
            Err(e) => Err(e),
            Ok(rest) => match resolve_node(s.last(), env) {
                Err(e) => Err(e),
                Ok(None) => Ok(rest),
                Ok(Some(r)) => Ok(rest.push(r)),
            },
        }
    }
}

/// The machine-limit precondition of resolution: text lengths and sizes
/// within their caps, and every layout's child list acceptable to its
/// strategy (matching arity, bounded count, in-range nonnegative sizes).
pub open spec fn resolve_ok(n: NodeV, env: ResolveEnv) -> bool
    decreases n,
{
    match n {
        NodeV::Null => true,
        NodeV::Interact { child, .. } => resolve_ok(*child, env),
        NodeV::Capture { child, .. } => resolve_ok(*child, env),
        NodeV::Layout { layout, children, .. } => {
            &&& (forall|i: int| 0 <= i < children.len() ==> resolve_ok(#[trigger] children[i], env))
            &&& (resolve_children(children, env) matches Ok(rc) ==> size_req(
                layout,
                sizes_of(rc),
            ))
        },
        NodeV::Text { text, size, .. } => {
            &&& text.len() <= MAX_TEXT_LEN
            &&& (size matches Some(s) ==> 0 <= s <= MAX_TEXT_SIZE)
        },
        _ => true,
    }
}

impl Node {
    /// Resolves this declarative tree against the resource pool.
    ///
    /// The result is determined by the tree and the pool's font bindings and
    /// fallbacks alone; the pool's caches only absorb work and are left
    /// coherent.
    pub fn resolve(&self, resources: &mut Resources) -> (r: Result<Option<ResolvedNode>, Error>)
        requires
            old(resources).wf(),
            resolve_ok(self@, old(resources).env()),
        ensures
            final(resources).wf(),
            final(resources).env() == old(resources).env(),
            match r {
                Ok(Some(out)) => resolve_node(self@, old(resources).env()) == Result::<
                    Option<RNodeV>,
                    ErrorV,
                >::Ok(Some(out@)),
                Ok(None) => resolve_node(self@, old(resources).env()) == Result::<
                    Option<RNodeV>,
                    ErrorV,
                >::Ok(None),
                Err(e) => resolve_node(self@, old(resources).env()) == Result::<
                    Option<RNodeV>,
                    ErrorV,
                >::Err(e@),
            },
        decreases self,
    {
        match self {
            Node::Null => Ok(None),
            Node::Interact { child, callback, id, passthrough, z_order } => {
                match (**child).resolve(resources) {
                    Err(e) => Err(e),
                    Ok(None) => Err(Error::EmptyNode),
                    Ok(Some(c)) => {
                        let size = c.size();
                        Ok(
                            Some(
                                ResolvedNode::Interact {
                                    rect: Rect { origin: Point2 { x: 0, y: 0 }, size },
                                    child: Box::new(c),
                                    callback: *callback,
                                    id: *id,
                                    passthrough: *passthrough,
                                    z_order: *z_order,
                                },
                            ),
                        )
                    },
                }
            },
            Node::Capture { child, callback, z_order } => {
                match (**child).resolve(resources) {
                    Err(e) => Err(e),
                    Ok(None) => Err(Error::EmptyNode),
                    Ok(Some(c)) => {
                        let size = c.size();
                        Ok(
                            Some(
                                ResolvedNode::Capture {
                                    rect: Rect { origin: Point2 { x: 0, y: 0 }, size },
                                    child: Box::new(c),
                                    callback: *callback,
                                    z_order: *z_order,
                                },
                            ),
                        )
                    },
                }
            },
            Node::Layout { layout, children, z_order } => {
                let ghost env = resources.env();
                let ghost cviews = Node::view_children(children@);
                proof {
                    lemma_view_children_len(children@);
                    assert(cviews.take(0) =~= Seq::<NodeV>::empty());
                }
                let mut rc: Vec<ResolvedNode> = Vec::new();
                let mut i: usize = 0;
                #[verifier::loop_isolation(false)]
                while i < children.len()
                    invariant
                        i <= children@.len(),
                        resources.wf(),
                        resources.env() == env,
                        resolve_children(cviews.take(i as int), env) == Result::<
                            Seq<RNodeV>,
                            ErrorV,
                        >::Ok(ResolvedNode::view_children(rc@)),
                    decreases children@.len() - i,
                {
                    proof {
                        assert(decreases_to!(*self => *children));
                        assert(decreases_to!(*children => children@[i as int]));
                        lemma_view_children_index(children@, i as int);
                        assert(resolve_ok(children@[i as int]@, env));
                    }
                    let ghost pre_rc = rc@;
                    match children[i].resolve(resources) {
                        Err(e) => {
                            proof {
                                let full = cviews.take(i + 1 as int);
                                assert(full.drop_last() =~= cviews.take(i as int));
                                assert(full.last() == cviews[i as int]);
                                lemma_resolve_children_prefix_err(cviews, env, i + 1 as int);
                            }
                            return Err(e);
                        },
                        Ok(None) => {
                            proof {
                                let full = cviews.take(i + 1 as int);
                                assert(full.drop_last() =~= cviews.take(i as int));
                                assert(full.last() == cviews[i as int]);
                            }
                        },
                        Ok(Some(c)) => {
                            rc.push(c);
                            proof {
                                let full = cviews.take(i + 1 as int);
                                assert(full.drop_last() =~= cviews.take(i as int));
                                assert(full.last() == cviews[i as int]);
                                lemma_rview_children_len(pre_rc);
                                assert(rc@ == pre_rc.push(rc@[pre_rc.len() as int]));
                                lemma_rview_children_push(pre_rc, rc@[pre_rc.len() as int]);
                            }
                        },
                    }
                    i = i + 1;
                }
                proof {
                    assert(cviews.take(children@.len() as int) =~= cviews);
                }
                let ghost rcv = ResolvedNode::view_children(rc@);
                let mut sizes: Vec<Size2> = Vec::new();
                let mut j: usize = 0;
                #[verifier::loop_isolation(false)]
                while j < rc.len()
                    invariant
                        j <= rc@.len(),
                        sizes@.len() == j,
                        forall|k: int| 0 <= k < j ==> sizes@[k] == sizes_of(rcv)[k],
                    decreases rc@.len() - j,
                {
                    proof {
                        lemma_rview_children_index(rc@, j as int);
                    }
                    let s = rc[j].size();
                    sizes.push(s);
                    j = j + 1;
                }
                proof {
                    lemma_rview_children_len(rc@);
                    assert(sizes@ =~= sizes_of(rcv));
                }
                let size = layout.size(&sizes);
                Ok(
                    Some(
                        ResolvedNode::Layout {
                            layout: layout.duplicate(),
                            children: rc,
                            rect: Rect { origin: Point2 { x: 0, y: 0 }, size },
                            z_order: *z_order,
                        },
                    ),
                )
            },
            Node::Text { text, font, size, fill, z_order } => {
                let sz: i64 = match size {
                    Some(s) => *s,
                    None => resources.fallback_text_size,
                };
                let metrics_opt: Option<FontMetrics> = match resources.font(font.as_str()) {
                    Some(m) => Some(*m),
                    None => None,
                };
                match metrics_opt {
                    None => Err(Error::InvalidFont(font.clone())),
                    Some(metrics) => {
                        let (blob, bounds): (Option<ShapedBlob>, Size2) = if text.unicode_len()
                            > 0 {
                            let st = resources.get_or_shape(text, font, sz);
                            (Some(st.blob), st.bounds)
                        } else {
                            (None, Size2 { width: 0, height: 0 })
                        };
                        let fill_p = match fill {
                            Some(p) => p.duplicate(),
                            None => resources.fallback_text_fill.duplicate(),
                        };
                        Ok(
                            Some(
                                ResolvedNode::Text {
                                    text: text.clone(),
                                    font: font.clone(),
                                    font_data: metrics,
                                    blob,
                                    size: sz,
                                    fill: fill_p,
                                    rect: Rect { origin: Point2 { x: 0, y: 0 }, size: bounds },
                                    z_order: *z_order,
                                },
                            ),
                        )
                    },
                }
            },
            Node::Rectangle { size, corner_radius, background, border, border_fill, z_order } => Ok(
                Some(
                    ResolvedNode::Rectangle {
                        rect: Rect { origin: Point2 { x: 0, y: 0 }, size: *size },
                        corner_radii: *corner_radius,
                        background: dup_opt_paint(background),
                        border: *border,
                        border_fill: dup_opt_paint(border_fill),
                        z_order: *z_order,
                    },
                ),
            ),
            Node::Draw { size, draw_fn, z_order } => Ok(
                Some(
                    ResolvedNode::Draw {
                        rect: Rect { origin: Point2 { x: 0, y: 0 }, size: *size },
                        draw_fn: *draw_fn,
                        z_order: *z_order,
                    },
                ),
            ),
            Node::Resolved(r) => Ok(Some(r.duplicate())),
        }
    }
}

/// If a prefix of the child list resolves to an error, so does the whole
/// list.
proof fn lemma_resolve_children_prefix_err(s: Seq<NodeV>, env: ResolveEnv, n: int)
    requires
        0 <= n <= s.len(),
        resolve_children(s.take(n), env) is Err,
    ensures
        resolve_children(s, env) == resolve_children(s.take(n), env),
    decreases s.len() - n,
{
    if n < s.len() {
        let next = s.take(n + 1);
        assert(next.drop_last() =~= s.take(n));
        assert(resolve_children(next, env) == resolve_children(s.take(n), env));
        lemma_resolve_children_prefix_err(s, env, n + 1);
    } else {
        assert(s.take(n) =~= s);
    }
}

/// Resolve idempotence on static content: a resolution result is a function
/// of the tree and the font bindings alone — the shaping cache plays no
/// part — so two resolutions of one unchanged node against one environment
/// yield the same value: identical shaped output, identical measured
/// bounds.  [`Node::resolve`] ensures the environment survives each call
/// unchanged, so this applies across successive calls on one pool.
pub proof fn lemma_resolve_idempotent(
    n: NodeV,
    env: ResolveEnv,
    first: Option<RNodeV>,
    second: Option<RNodeV>,
)
    requires
        resolve_node(n, env) == Result::<Option<RNodeV>, ErrorV>::Ok(first),
        resolve_node(n, env) == Result::<Option<RNodeV>, ErrorV>::Ok(second),
    ensures
        first == second,
{
}

} // verus!
