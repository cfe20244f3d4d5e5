use cape::identity::Identity;
use cape::node::CallbackId;
use cape::store::{
    call_on_lifecycles, call_on_renders, on_lifecycle, on_render, use_cache, use_event, use_state,
    use_static, CacheStore, EventListener, EventStore, Lifecycle, LifecycleStore, RenderStore,
    StateStore, StaticStore,
};

#[test]
fn state_cells_insert_only_when_absent() {
    let mut store: StateStore<u64> = StateStore::new();
    let id = Identity::new(1);
    let acc = use_state(&mut store, id, 10);
    assert_eq!(*acc.get(&store), 10);
    // A later registration with a different initial value keeps the first.
    let acc = use_state(&mut store, id, 99);
    assert_eq!(*acc.get(&store), 10);
    acc.set(&mut store, 33);
    assert_eq!(*acc.get(&store), 33);
    // Cells of other identities are independent.
    let other = use_state(&mut store, Identity::new(2), 5);
    assert_eq!(*other.get(&store), 5);
    assert_eq!(*acc.get(&store), 33);
}

#[test]
fn static_cell_is_a_singleton() {
    let mut store: StaticStore<String> = StaticStore::new();
    let acc = use_static(&mut store, String::from("dark"));
    assert_eq!(acc.get(&store), "dark");
    let acc = use_static(&mut store, String::from("light"));
    assert_eq!(acc.get(&store), "dark");
    acc.set(&mut store, String::from("light"));
    assert_eq!(acc.get(&store), "light");
}

#[test]
fn cache_recomputes_only_on_changed_argument() {
    // cache(arg, init) with arguments 1, 1, 2, 1 must run init for the
    // first, third and fourth calls: only the immediately prior argument
    // is remembered.
    let mut store: CacheStore<String, u64> = CacheStore::new();
    let id = Identity::new(3);
    let mut init_runs = 0;

    let mut call = |store: &mut CacheStore<String, u64>, arg: u64, runs: &mut u32| -> String {
        let (acc, stale) = use_cache(store, id, &arg);
        if stale {
            *runs += 1;
            store.fill(id, arg, format!("value-of-{}", arg));
        }
        acc.get(store).clone()
    };

    assert_eq!(call(&mut store, 1, &mut init_runs), "value-of-1");
    assert_eq!(init_runs, 1);
    assert_eq!(call(&mut store, 1, &mut init_runs), "value-of-1");
    assert_eq!(init_runs, 1);
    assert_eq!(call(&mut store, 2, &mut init_runs), "value-of-2");
    assert_eq!(init_runs, 2);
    assert_eq!(call(&mut store, 1, &mut init_runs), "value-of-1");
    assert_eq!(init_runs, 3);
}

#[test]
fn lifecycle_sweep_fires_create_then_destroy() {
    let mut store = LifecycleStore::new();
    let a = Identity::new(1);

    // Frame one: A is registered; the sweep announces its creation.
    on_lifecycle(&mut store, a);
    let events = call_on_lifecycles(&mut store);
    assert_eq!(events, vec![(a, Lifecycle::Create)]);

    // Frame two: A is not re-registered; the sweep announces exactly one
    // destruction and no creation, and removes the entry.
    let events = call_on_lifecycles(&mut store);
    assert_eq!(events, vec![(a, Lifecycle::Destroy)]);
    assert!(store.entries.is_empty());

    // Frame three: nothing is left to announce.
    let events = call_on_lifecycles(&mut store);
    assert!(events.is_empty());
}

#[test]
fn lifecycle_create_fires_once_for_a_surviving_identity() {
    let mut store = LifecycleStore::new();
    let a = Identity::new(1);
    on_lifecycle(&mut store, a);
    assert_eq!(call_on_lifecycles(&mut store), vec![(a, Lifecycle::Create)]);
    // Re-registered next frame: alive again, but not new.
    on_lifecycle(&mut store, a);
    assert_eq!(call_on_lifecycles(&mut store), vec![]);
}

#[test]
fn render_callbacks_run_once_per_identity_in_order() {
    let mut store = RenderStore::new();
    on_render(&mut store, Identity::new(1));
    on_render(&mut store, Identity::new(2));
    on_render(&mut store, Identity::new(1));
    assert_eq!(call_on_renders(&store), vec![Identity::new(1), Identity::new(2)]);
}

#[test]
fn event_bus_emits_to_connected_listeners_in_order() {
    let mut bus: EventStore<u32> = EventStore::new();
    let acc = use_event::<u32>();
    let first = acc.connect(&mut bus, CallbackId::new(1));
    let _second = acc.connect(&mut bus, CallbackId::new(2));
    let third = acc.connect(&mut bus, CallbackId::new(3));
    assert_eq!(
        acc.emit(&bus, &7),
        vec![CallbackId::new(1), CallbackId::new(2), CallbackId::new(3)]
    );
    // Disconnection tombstones the slot; other handles keep their meaning.
    acc.disconnect(&mut bus, first);
    assert_eq!(acc.emit(&bus, &7), vec![CallbackId::new(2), CallbackId::new(3)]);
    acc.disconnect(&mut bus, third);
    assert_eq!(acc.emit(&bus, &7), vec![CallbackId::new(2)]);
}

#[test]
fn event_listener_null_handle() {
    assert_eq!(EventListener::null(), EventListener(usize::MAX));
    assert_eq!(EventListener::default(), EventListener::null());
}
