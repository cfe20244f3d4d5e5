//! The identity-keyed state store.
//!
//! Four operation families back the per-identity machinery of a frame: state
//! cells inserted on first use, memoized caches keyed by an argument,
//! per-frame render and lifecycle registrations swept with mark-and-sweep
//! semantics, and a typed event bus.  The stores are explicit values owned
//! by the application's main loop and passed by mutable reference into
//! tree-construction code, so there is no hidden global state, and the
//! `with`-closure reentrancy hazard of an implicitly shared cell cannot
//! arise: every access goes through a borrow the compiler checks.
//!
//! Host closures are held by the host; the stores track identities and hand
//! back which callbacks to invoke.

use vstd::prelude::*;
use vstd::std_specs::cmp::PartialEqSpec;
use core::marker::PhantomData;
use crate::identity::Identity;
use crate::node::CallbackId;

verus! {

/// First-match lookup in an identity-keyed association list.
pub open spec fn assoc_lookup<V>(s: Seq<(Identity, V)>, id: Identity) -> Option<V>
    decreases s.len(),
{
    if s.len() == 0 {
        None
    } else if s[0].0 == id {
        Some(s[0].1)
    } else {
        assoc_lookup(s.drop_first(), id)
    }
}

/// A clean prefix and a match at `j` make `j` the lookup result.
proof fn lemma_assoc_first<V>(s: Seq<(Identity, V)>, j: int)
    requires
        0 <= j < s.len(),
        s[j].0 == s[j].0,
        forall|k: int| 0 <= k < j ==> (#[trigger] s[k]).0 != s[j].0,
    ensures
        assoc_lookup(s, s[j].0) == Some(s[j].1),
    decreases j,
{
    if j == 0 {
    } else {
        assert(s[0].0 != s[j].0);
        lemma_assoc_first(s.drop_first(), j - 1);
        assert(s.drop_first()[j - 1] == s[j]);
    }
}

/// No match anywhere means the lookup is empty.
proof fn lemma_assoc_absent<V>(s: Seq<(Identity, V)>, id: Identity)
    requires
        forall|k: int| 0 <= k < s.len() ==> (#[trigger] s[k]).0 != id,
    ensures
        assoc_lookup(s, id) is None,
    decreases s.len(),
{
    if s.len() > 0 {
        lemma_assoc_absent(s.drop_first(), id);
    }
}

/// Updating the first matching entry changes that key's lookup and no
/// other's.
proof fn lemma_assoc_update<V>(s: Seq<(Identity, V)>, j: int, v: (Identity, V))
    requires
        0 <= j < s.len(),
        s[j].0 == v.0,
        forall|k: int| 0 <= k < j ==> (#[trigger] s[k]).0 != v.0,
    ensures
        assoc_lookup(s.update(j, v), v.0) == Some(v.1),
        forall|o: Identity| o != v.0 ==> assoc_lookup(s.update(j, v), o) == assoc_lookup(s, o),
    decreases j,
{
    let u = s.update(j, v);
    if j == 0 {
        assert(u[0] == v);
        assert(u.drop_first() =~= s.drop_first());
        assert forall|o: Identity| o != v.0 implies assoc_lookup(u, o) == assoc_lookup(s, o) by {
            assert(assoc_lookup(u, o) == assoc_lookup(u.drop_first(), o));
            assert(assoc_lookup(s, o) == assoc_lookup(s.drop_first(), o));
        }
    } else {
        assert(u[0] == s[0]);
        assert(s[0].0 != v.0);
        assert(u.drop_first() =~= s.drop_first().update(j - 1, v));
        assert(s.drop_first()[j - 1] == s[j]);
        lemma_assoc_update(s.drop_first(), j - 1, v);
        assert(assoc_lookup(u, v.0) == assoc_lookup(u.drop_first(), v.0));
        assert forall|o: Identity| o != v.0 implies assoc_lookup(u, o) == assoc_lookup(s, o) by {
            if s[0].0 == o {
            } else {
                assert(assoc_lookup(u, o) == assoc_lookup(u.drop_first(), o));
                assert(assoc_lookup(s, o) == assoc_lookup(s.drop_first(), o));
            }
        }
    }
}

/// Appending a fresh key leaves every existing key's lookup unchanged and
/// binds the new one.
proof fn lemma_assoc_push<V>(s: Seq<(Identity, V)>, v: (Identity, V))
    requires
        forall|k: int| 0 <= k < s.len() ==> (#[trigger] s[k]).0 != v.0,
    ensures
        assoc_lookup(s.push(v), v.0) == Some(v.1),
        forall|o: Identity| o != v.0 ==> assoc_lookup(s.push(v), o) == assoc_lookup(s, o),
    decreases s.len(),
{
    let p = s.push(v);
    if s.len() == 0 {
        assert(p[0] == v);
        assert(p.drop_first() =~= Seq::<(Identity, V)>::empty());
        assert forall|o: Identity| o != v.0 implies assoc_lookup(p, o) == assoc_lookup(s, o) by {
            assert(assoc_lookup(p, o) == assoc_lookup(p.drop_first(), o));
        }
    } else {
        assert(p[0] == s[0]);
        assert(p.drop_first() =~= s.drop_first().push(v));
        lemma_assoc_push(s.drop_first(), v);
        assert(assoc_lookup(p, v.0) == assoc_lookup(p.drop_first(), v.0)) by {
            assert(s[0].0 != v.0);
        }
        assert forall|o: Identity| o != v.0 implies assoc_lookup(p, o) == assoc_lookup(s, o) by {
            if s[0].0 == o {
            } else {
                assert(assoc_lookup(p, o) == assoc_lookup(p.drop_first(), o));
                assert(assoc_lookup(s, o) == assoc_lookup(s.drop_first(), o));
            }
        }
    }
}

/// The index of the first entry bound to an identity, if any.
fn assoc_find<V>(entries: &Vec<(Identity, V)>, id: Identity) -> (r: Option<usize>)
    ensures
        match r {
            Some(j) => {
                &&& j < entries@.len()
                &&& entries@[j as int].0 == id
                &&& forall|k: int| 0 <= k < j ==> (#[trigger] entries@[k]).0 != id
                &&& assoc_lookup(entries@, id) == Some(entries@[j as int].1)
            },
            None => {
                &&& forall|k: int|
                    0 <= k < entries@.len() ==> (#[trigger] entries@[k]).0 != id
                &&& assoc_lookup(entries@, id) is None
            },
        },
{
    let n = entries.len();
    let mut i: usize = 0;
    #[verifier::loop_isolation(false)]
    while i < n
        invariant
            i <= n,
            forall|k: int| 0 <= k < i ==> (#[trigger] entries@[k]).0 != id,
        decreases n - i,
    {
        if entries[i].0 == id {
            proof {
                lemma_assoc_first(entries@, i as int);
            }
            return Some(i);
        }
        i = i + 1;
    }
    proof {
        lemma_assoc_absent(entries@, id);
    }
    None
}

// ---------------------------------------------------------------------------
// State cells
// ---------------------------------------------------------------------------

/// Persistent per-identity state cells of one value type.
pub struct StateStore<T> {
    pub entries: Vec<(Identity, T)>,
}

/// A stable handle to a state cell.
#[derive(Debug)]
pub struct StateAccessor<T> {
    pub id: Identity,
    pub phantom: PhantomData<T>,
}

impl<T> StateStore<T> {
    /// The value of the cell keyed by an identity, if any.
    pub open spec fn spec_get(self, id: Identity) -> Option<T> {
        assoc_lookup(self.entries@, id)
    }

    pub fn new() -> (r: StateStore<T>)
        ensures
            r.entries@.len() == 0,
            forall|id: Identity| #[trigger] r.spec_get(id) is None,
    {
        let r = StateStore { entries: Vec::new() };
        proof {
            assert forall|id: Identity| #[trigger] r.spec_get(id) is None by {
                lemma_assoc_absent(r.entries@, id);
            }
        }
        r
    }
}

/// Returns a handle to the state cell for this identity, inserting the
/// given initial value only if the cell is absent.
pub fn use_state<T>(store: &mut StateStore<T>, id: Identity, init: T) -> (acc: StateAccessor<T>)
    ensures
        acc.id == id,
        final(store).spec_get(id) == match old(store).spec_get(id) {
            Some(v) => Some(v),
            None => Some(init),
        },
        forall|o: Identity| o != id ==> final(store).spec_get(o) == old(store).spec_get(o),
{
    match assoc_find(&store.entries, id) {
        Some(_) => {},
        None => {
            let ghost pre = store.entries@;
            store.entries.push((id, init));
            proof {
                lemma_assoc_push(pre, (id, init));
            }
        },
    }
    StateAccessor { id, phantom: PhantomData }
}

impl<T> StateAccessor<T> {
    /// Overwrites the cell's value, inserting the cell if absent.
    pub fn set(&self, store: &mut StateStore<T>, val: T)
        ensures
            final(store).spec_get(self.id) == Some(val),
            forall|o: Identity|
                o != self.id ==> final(store).spec_get(o) == old(store).spec_get(o),
    {
        let ghost pre = store.entries@;
        match assoc_find(&store.entries, self.id) {
            Some(j) => {
                store.entries.set(j, (self.id, val));
                proof {
                    lemma_assoc_update(pre, j as int, pre[j as int]);
                    lemma_assoc_update(pre, j as int, (self.id, val));
                }
            },
            None => {
                store.entries.push((self.id, val));
                proof {
                    lemma_assoc_push(pre, (self.id, val));
                }
            },
        }
    }

    /// Reads the cell's value.
    pub fn get<'a>(&self, store: &'a StateStore<T>) -> (r: &'a T)
        requires
            store.spec_get(self.id) is Some,
        ensures
            *r == store.spec_get(self.id)->Some_0,
    {
        match assoc_find(&store.entries, self.id) {
            Some(j) => &store.entries[j].1,
            None => vstd::pervasive::unreached(),
        }
    }
}

// ---------------------------------------------------------------------------
// The singleton (type-keyed) cell
// ---------------------------------------------------------------------------

/// A singleton cell shared across the whole store, keyed by its value type
/// alone — used for globally shared configuration such as a theme palette.
pub struct StaticStore<T> {
    pub value: Option<T>,
}

/// A stable handle to the singleton cell of a type.
#[derive(Debug)]
pub struct StaticAccessor<T> {
    pub phantom: PhantomData<T>,
}

impl<T> StaticStore<T> {
    pub fn new() -> (r: StaticStore<T>)
        ensures
            r.value is None,
    {
        StaticStore { value: None }
    }
}

/// Returns a handle to the singleton cell, inserting the given initial
/// value only if the cell is absent.
pub fn use_static<T>(store: &mut StaticStore<T>, init: T) -> (acc: StaticAccessor<T>)
    ensures
        final(store).value == match old(store).value {
            Some(v) => Some(v),
            None => Some(init),
        },
{
    match store.value {
        Some(_) => {},
        None => {
            store.value = Some(init);
        },
    }
    StaticAccessor { phantom: PhantomData }
}

impl<T> StaticAccessor<T> {
    /// Overwrites the singleton value.
    pub fn set(&self, store: &mut StaticStore<T>, val: T)
        ensures
            final(store).value == Some(val),
    {
        store.value = Some(val);
    }

    /// Reads the singleton value.
    pub fn get<'a>(&self, store: &'a StaticStore<T>) -> (r: &'a T)
        requires
            store.value is Some,
        ensures
            *r == store.value->Some_0,
    {
        match &store.value {
            Some(v) => v,
            None => vstd::pervasive::unreached(),
        }
    }
}

// ---------------------------------------------------------------------------
// Memoized caches
// ---------------------------------------------------------------------------

/// A memoized value together with the argument it was computed from.
#[derive(Debug)]
pub struct Cached<T, A> {
    pub value: T,
    pub arg: A,
}

/// Per-identity memoized values: each entry is recomputed only when its
/// argument changes.
pub struct CacheStore<T, A> {
    pub entries: Vec<(Identity, Cached<T, A>)>,
}

/// A stable handle to a cache entry.
#[derive(Debug)]
pub struct CacheAccessor<T> {
    pub id: Identity,
    pub phantom: PhantomData<T>,
}

impl<T, A: PartialEq> CacheStore<T, A> {
    /// The entry keyed by an identity, if any.
    pub open spec fn spec_entry(self, id: Identity) -> Option<Cached<T, A>> {
        assoc_lookup(self.entries@, id)
    }

    /// Whether a call with this argument must (re)compute the value: the
    /// entry is absent, or its stored argument differs.
    pub open spec fn spec_stale(self, id: Identity, arg: A) -> bool {
        match self.spec_entry(id) {
            None => true,
            Some(e) => !e.arg.eq_spec(&arg),
        }
    }

    pub fn new() -> (r: CacheStore<T, A>)
        ensures
            r.entries@.len() == 0,
            forall|id: Identity| #[trigger] r.spec_entry(id) is None,
    {
        let r = CacheStore { entries: Vec::new() };
        proof {
            assert forall|id: Identity| #[trigger] r.spec_entry(id) is None by {
                lemma_assoc_absent(r.entries@, id);
            }
        }
        r
    }

    /// Stores a freshly computed value together with the argument it came
    /// from, replacing any previous entry for this identity.
    pub fn fill(&mut self, id: Identity, arg: A, value: T)
        ensures
            final(self).spec_entry(id) matches Some(e) && e.value == value && e.arg == arg,
            forall|o: Identity| o != id ==> final(self).spec_entry(o) == old(self).spec_entry(o),
    {
        let ghost pre = self.entries@;
        match assoc_find(&self.entries, id) {
            Some(j) => {
                self.entries.set(j, (id, Cached { value, arg }));
                proof {
                    lemma_assoc_update(pre, j as int, pre[j as int]);
                    lemma_assoc_update(pre, j as int, self.entries@[j as int]);
                }
            },
            None => {
                self.entries.push((id, Cached { value, arg }));
                proof {
                    lemma_assoc_push(pre, self.entries@.last());
                }
            },
        }
    }
}

/// Probes the cache for this identity: returns a handle and whether the
/// value must be (re)computed — true exactly when the entry is absent or
/// its stored argument differs from `arg`.  After computing, store the
/// result with [`CacheStore::fill`].
pub fn use_cache<T, A: PartialEq>(store: &CacheStore<T, A>, id: Identity, arg: &A) -> (r: (
    CacheAccessor<T>,
    bool,
))
    ensures
        r.0.id == id,
        A::obeys_eq_spec() ==> r.1 == store.spec_stale(id, *arg),
{
    match assoc_find(&store.entries, id) {
        Some(j) => {
            let stale = !(store.entries[j].1.arg == *arg);
            (CacheAccessor { id, phantom: PhantomData }, stale)
        },
        None => (CacheAccessor { id, phantom: PhantomData }, true),
    }
}

impl<T> CacheAccessor<T> {
    /// Reads the cached value.
    pub fn get<'a, A: PartialEq>(&self, store: &'a CacheStore<T, A>) -> (r: &'a T)
        requires
            store.spec_entry(self.id) is Some,
        ensures
            *r == store.spec_entry(self.id)->Some_0.value,
    {
        match assoc_find(&store.entries, self.id) {
            Some(j) => &store.entries[j].1.value,
            None => vstd::pervasive::unreached(),
        }
    }
}

/// Cache invalidation law: a repeated argument reuses the stored value, a
/// changed argument forces a recomputation, and only the immediately prior
/// argument is remembered — returning to an earlier argument recomputes
/// again.
pub proof fn lemma_cache_invalidation<T>(
    empty: CacheStore<T, u64>,
    first: CacheStore<T, u64>,
    second: CacheStore<T, u64>,
    id: Identity,
    v1: T,
    v2: T,
)
    requires
        empty.spec_entry(id) is None,
        first.spec_entry(id) matches Some(e) && e.value == v1 && e.arg == 1u64,
        second.spec_entry(id) matches Some(e) && e.value == v2 && e.arg == 2u64,
    ensures
        empty.spec_stale(id, 1u64),
        !first.spec_stale(id, 1u64),
        first.spec_stale(id, 2u64),
        second.spec_stale(id, 1u64),
{
}

// ---------------------------------------------------------------------------
// Lifecycle registrations (mark and sweep)
// ---------------------------------------------------------------------------

/// A transition a lifecycle callback observes.
#[derive(Debug, Clone, Copy, PartialEq, Eq, Structural, Hash)]
pub enum Lifecycle {
    Create,
    Destroy,
}

/// The per-identity mark of the lifecycle store.
#[derive(Debug, Clone, Copy, PartialEq, Eq, Structural, Hash)]
pub struct LifecycleState {
    /// Re-registered this frame.
    pub alive: bool,
    /// Never yet announced as created.
    pub is_new: bool,
}

/// Identities with lifecycle callbacks, marked alive as the frame's tree is
/// built and swept once per frame.
pub struct LifecycleStore {
    pub entries: Vec<(Identity, LifecycleState)>,
}

impl LifecycleStore {
    pub open spec fn spec_state(self, id: Identity) -> Option<LifecycleState> {
        assoc_lookup(self.entries@, id)
    }

    pub fn new() -> (r: LifecycleStore)
        ensures
            r.entries@.len() == 0,
            forall|id: Identity| #[trigger] r.spec_state(id) is None,
    {
        let r = LifecycleStore { entries: Vec::new() };
        proof {
            assert forall|id: Identity| #[trigger] r.spec_state(id) is None by {
                lemma_assoc_absent(r.entries@, id);
            }
        }
        r
    }
}

/// Marks an identity alive this frame, registering it as newly created when
/// it has not been seen.  Marking must happen during tree construction,
/// before the frame's sweep.
pub fn on_lifecycle(store: &mut LifecycleStore, id: Identity)
    ensures
        old(store).spec_state(id) is None ==> final(store).entries@ == old(store).entries@.push(
            (id, LifecycleState { alive: true, is_new: true }),
        ),
        old(store).spec_state(id) matches Some(st) ==> {
            &&& final(store).entries@.len() == old(store).entries@.len()
            &&& final(store).spec_state(id) == Some(
                LifecycleState { alive: true, is_new: st.is_new },
            )
            &&& forall|o: Identity|
                o != id ==> final(store).spec_state(o) == old(store).spec_state(o)
        },
{
    let ghost pre = store.entries@;
    match assoc_find(&store.entries, id) {
        Some(j) => {
            let st = store.entries[j].1;
            store.entries.set(j, (id, LifecycleState { alive: true, is_new: st.is_new }));
            proof {
                lemma_assoc_update(pre, j as int, pre[j as int]);
                lemma_assoc_update(pre, j as int, store.entries@[j as int]);
            }
        },
        None => {
            store.entries.push((id, LifecycleState { alive: true, is_new: true }));
        },
    }
}

/// The entries a sweep keeps: the identities re-registered this frame, with
/// their marks cleared for the next one.
pub open spec fn sweep_kept(s: Seq<(Identity, LifecycleState)>) -> Seq<(Identity, LifecycleState)>
    decreases s.len(),
{
    if s.len() == 0 {
        Seq::empty()
    } else {
        sweep_kept(s.drop_last()) + if s.last().1.alive {
            seq![(s.last().0, LifecycleState { alive: false, is_new: false })]
        } else {
            Seq::<(Identity, LifecycleState)>::empty()
        }
    }
}

/// The transitions a sweep announces: `Destroy` for identities not
/// re-registered this frame (which are removed), `Create` for identities
/// seen for the first time.
pub open spec fn sweep_events(s: Seq<(Identity, LifecycleState)>) -> Seq<(Identity, Lifecycle)>
    decreases s.len(),
{
    if s.len() == 0 {
        Seq::empty()
    } else {
        sweep_events(s.drop_last()) + if !s.last().1.alive {
            seq![(s.last().0, Lifecycle::Destroy)]
        } else if s.last().1.is_new {
            seq![(s.last().0, Lifecycle::Create)]
        } else {
            Seq::<(Identity, Lifecycle)>::empty()
        }
    }
}

/// Sweeps the lifecycle store at the end of a frame: fires `Destroy` for
/// every identity that was not re-registered (and removes it), `Create` for
/// every identity seen for the first time, and clears the marks.  The
/// returned transitions name the callbacks the host must invoke, in store
/// order.
pub fn call_on_lifecycles(store: &mut LifecycleStore) -> (r: Vec<(Identity, Lifecycle)>)
    ensures
        r@ == sweep_events(old(store).entries@),
        final(store).entries@ == sweep_kept(old(store).entries@),
{
    let ghost pre = store.entries@;
    let n = store.entries.len();
    let mut kept: Vec<(Identity, LifecycleState)> = Vec::new();
    let mut events: Vec<(Identity, Lifecycle)> = Vec::new();
    let mut i: usize = 0;
    proof {
        assert(pre.take(0) =~= Seq::<(Identity, LifecycleState)>::empty());
    }
    #[verifier::loop_isolation(false)]
    while i < n
        invariant
            i <= n,
            n == pre.len(),
            store.entries@ == pre,
            kept@ == sweep_kept(pre.take(i as int)),
            events@ == sweep_events(pre.take(i as int)),
        decreases n - i,
    {
        let (id, st) = store.entries[i];
        if !st.alive {
            events.push((id, Lifecycle::Destroy));
        } else {
            if st.is_new {
                events.push((id, Lifecycle::Create));
            }
            kept.push((id, LifecycleState { alive: false, is_new: false }));
        }
        proof {
            let tk = pre.take(i as int + 1);
            assert(tk.drop_last() =~= pre.take(i as int));
            assert(tk.last() == pre[i as int]);
            assert(kept@ =~= sweep_kept(tk));
            assert(events@ =~= sweep_events(tk));
        }
        i = i + 1;
    }
    proof {
        assert(pre.take(n as int) =~= pre);
    }
    store.entries = kept;
    events
}

/// Lifecycle sweep law: an identity registered in one frame fires `Create`
/// exactly once in that frame's sweep; left unregistered, it fires
/// `Destroy` exactly once in the next frame's sweep and is removed.
pub proof fn lemma_lifecycle_sweep(id: Identity)
    ensures
        ({
            let after_registration = seq![(id, LifecycleState { alive: true, is_new: true })];
            let survivors = sweep_kept(after_registration);
            &&& sweep_events(after_registration) == seq![(id, Lifecycle::Create)]
            &&& survivors == seq![(id, LifecycleState { alive: false, is_new: false })]
            &&& sweep_events(survivors) == seq![(id, Lifecycle::Destroy)]
            &&& sweep_kept(survivors) == Seq::<(Identity, LifecycleState)>::empty()
        }),
{
    let after_registration = seq![(id, LifecycleState { alive: true, is_new: true })];
    let survivors = seq![(id, LifecycleState { alive: false, is_new: false })];
    assert(after_registration.drop_last() =~= Seq::<(Identity, LifecycleState)>::empty());
    assert(survivors.drop_last() =~= Seq::<(Identity, LifecycleState)>::empty());
    assert(sweep_events(Seq::<(Identity, LifecycleState)>::empty()) == Seq::<(
        Identity,
        Lifecycle,
    )>::empty());
    assert(sweep_kept(Seq::<(Identity, LifecycleState)>::empty()) == Seq::<(
        Identity,
        LifecycleState,
    )>::empty());
    assert(after_registration.last() == (id, LifecycleState { alive: true, is_new: true }));
    assert(survivors.last() == (id, LifecycleState { alive: false, is_new: false }));
    assert(sweep_events(after_registration) =~= seq![(id, Lifecycle::Create)]);
    assert(sweep_kept(after_registration) =~= survivors);
    assert(sweep_events(survivors) =~= seq![(id, Lifecycle::Destroy)]);
    assert(sweep_kept(survivors) =~= Seq::<(Identity, LifecycleState)>::empty());
}

// ---------------------------------------------------------------------------
// Per-frame render callbacks
// ---------------------------------------------------------------------------

/// Identities with render callbacks, each invoked once per frame.
pub struct RenderStore {
    pub entries: Vec<Identity>,
}

impl RenderStore {
    pub fn new() -> (r: RenderStore)
        ensures
            r.entries@.len() == 0,
    {
        RenderStore { entries: Vec::new() }
    }
}

/// Registers an identity's render callback, keeping the first registration.
pub fn on_render(store: &mut RenderStore, id: Identity)
    ensures
        old(store).entries@.contains(id) ==> final(store).entries@ == old(store).entries@,
        !old(store).entries@.contains(id) ==> final(store).entries@ == old(
            store,
        ).entries@.push(id),
{
    let n = store.entries.len();
    let mut i: usize = 0;
    #[verifier::loop_isolation(false)]
    while i < n
        invariant
            i <= n,
            forall|k: int| 0 <= k < i ==> store.entries@[k] != id,
        decreases n - i,
    {
        if store.entries[i] == id {
            return ;
        }
        i = i + 1;
    }
    assert(!store.entries@.contains(id));
    store.entries.push(id);
}

/// The identities whose render callbacks the host must invoke this frame,
/// in registration order.
pub fn call_on_renders(store: &RenderStore) -> (r: Vec<Identity>)
    ensures
        r@ == store.entries@,
{
    let mut out: Vec<Identity> = Vec::new();
    let mut i: usize = 0;
    let n = store.entries.len();
    #[verifier::loop_isolation(false)]
    while i < n
        invariant
            i <= n,
            out@ == store.entries@.subrange(0, i as int),
        decreases n - i,
    {
        out.push(store.entries[i]);
        assert(out@ == store.entries@.subrange(0, i + 1 as int));
        i = i + 1;
    }
    assert(out@ == store.entries@);
    out
}

// ---------------------------------------------------------------------------
// The typed event bus
// ---------------------------------------------------------------------------

/// An opaque handle to a connected listener.
#[derive(Debug, Clone, Copy, PartialEq, Eq, Structural, Hash)]
pub struct EventListener(pub usize);

impl EventListener {
    /// A handle that refers to no listener.
    pub fn null() -> (r: EventListener)
        ensures
            r.0 == usize::MAX,
    {
        EventListener(usize::MAX)
    }
}

impl Default for EventListener {
    fn default() -> (r: Self)
        ensures
            r.0 == usize::MAX,
    {
        EventListener(usize::MAX)
    }
}

/// The listeners of one event type, in registration order; a disconnected
/// slot stays as a tombstone so other handles keep their meaning.
pub struct EventStore<T> {
    pub listeners: Vec<Option<CallbackId>>,
    pub phantom: PhantomData<T>,
}

/// A handle to the event bus of one event type.
#[derive(Debug)]
pub struct EventAccessor<T> {
    pub phantom: PhantomData<T>,
}

impl<T> EventStore<T> {
    pub fn new() -> (r: EventStore<T>)
        ensures
            r.listeners@.len() == 0,
    {
        EventStore { listeners: Vec::new(), phantom: PhantomData }
    }
}

/// A handle to the event bus for an event type.
pub fn use_event<T>() -> (r: EventAccessor<T>) {
    EventAccessor { phantom: PhantomData }
}

/// The currently connected listeners, in registration order.
pub open spec fn connected(s: Seq<Option<CallbackId>>) -> Seq<CallbackId>
    decreases s.len(),
{
    if s.len() == 0 {
        Seq::empty()
    } else {
        connected(s.drop_last()) + match s.last() {
            Some(c) => seq![c],
            None => Seq::<CallbackId>::empty(),
        }
    }
}

impl<T> EventAccessor<T> {
    /// Connects a listener; the returned handle identifies it for
    /// disconnection.
    pub fn connect(&self, store: &mut EventStore<T>, callback: CallbackId) -> (l: EventListener)
        ensures
            final(store).listeners@ == old(store).listeners@.push(Some(callback)),
            l.0 == old(store).listeners@.len(),
    {
        let l = EventListener(store.listeners.len());
        store.listeners.push(Some(callback));
        l
    }

    /// Disconnects a listener; its slot becomes a tombstone, so the handles
    /// of other listeners keep their meaning.
    pub fn disconnect(&self, store: &mut EventStore<T>, listener: EventListener)
        requires
            listener.0 < old(store).listeners@.len(),
        ensures
            final(store).listeners@ == old(store).listeners@.update(listener.0 as int, None),
    {
        store.listeners.set(listener.0, None);
    }

    /// The callbacks of all currently connected listeners, in registration
    /// order; the host invokes each with the event.
    pub fn emit(&self, store: &EventStore<T>, _event: &T) -> (r: Vec<CallbackId>)
        ensures
            r@ == connected(store.listeners@),
    {
        let ghost pre = store.listeners@;
        let n = store.listeners.len();
        let mut out: Vec<CallbackId> = Vec::new();
        let mut i: usize = 0;
        proof {
            assert(pre.take(0) =~= Seq::<Option<CallbackId>>::empty());
        }
        #[verifier::loop_isolation(false)]
        while i < n
            invariant
                i <= n,
                n == pre.len(),
                store.listeners@ == pre,
                out@ == connected(pre.take(i as int)),
            decreases n - i,
        {
            match store.listeners[i] {
                Some(c) => {
                    out.push(c);
                },
                None => {},
            }
            proof {
                let tk = pre.take(i as int + 1);
                assert(tk.drop_last() =~= pre.take(i as int));
                assert(tk.last() == pre[i as int]);
                assert(out@ =~= connected(tk));
            }
            i = i + 1;
        }
        proof {
            assert(pre.take(n as int) =~= pre);
        }
        out
    }
}

// ---------------------------------------------------------------------------
// Typed handles into the store families
// ---------------------------------------------------------------------------

/// The marker of a state-cell handle.
#[derive(Debug, Clone, Copy, PartialEq, Eq, Structural, Hash)]
pub struct State(pub Identity);

/// The marker of a cache-entry handle.
#[derive(Debug, Clone, Copy, PartialEq, Eq, Structural, Hash)]
pub struct Cache(pub Identity);

/// The marker of a singleton-cell handle.
#[derive(Debug, Clone, Copy, PartialEq, Eq, Structural, Hash)]
pub struct StaticState;

/// A typed handle into one of the store families: the marker addresses the
/// slot, the type parameter names the stored type.
#[derive(Debug)]
pub struct Handle<T, M> {
    pub marker: M,
    pub phantom: PhantomData<T>,
}

} // verus!
