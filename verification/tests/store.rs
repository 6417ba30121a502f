use gitclean::store::DiscoveryState;

fn text(s: &str) -> String {
    s.to_string()
}

#[test]
fn new_store_is_empty_and_not_done() {
    let store = DiscoveryState::new();
    assert_eq!(store.len(), 0);
    assert!(!store.is_done());
    assert_eq!(store.snapshot(), Vec::<String>::new());
}

#[test]
fn append_keeps_discovery_order() {
    let mut store = DiscoveryState::new();
    assert!(store.append(text("/r/zeta")));
    assert!(store.append(text("/r/alpha")));
    assert!(store.append(text("/r/mid")));
    assert_eq!(store.len(), 3);
    assert_eq!(store.snapshot(), vec![text("/r/zeta"), text("/r/alpha"), text("/r/mid")]);
}

#[test]
fn append_keeps_equal_paths_apart() {
    let mut store = DiscoveryState::new();
    assert!(store.append(text("/r/a")));
    assert!(store.append(text("/r/a")));
    assert_eq!(store.snapshot(), vec![text("/r/a"), text("/r/a")]);
}

#[test]
fn snapshots_are_prefixes_of_later_snapshots() {
    let mut store = DiscoveryState::new();
    let mut taken: Vec<Vec<String>> = Vec::new();
    taken.push(store.snapshot());
    for name in ["/r/a", "/r/b", "/r/c", "/r/d"] {
        store.append(text(name));
        taken.push(store.snapshot());
        taken.push(store.snapshot());
    }
    store.mark_done();
    taken.push(store.snapshot());
    for earlier in 0..taken.len() {
        for later in earlier..taken.len() {
            let a = &taken[earlier];
            let b = &taken[later];
            assert!(a.len() <= b.len());
            assert_eq!(&b[..a.len()], &a[..]);
        }
    }
    assert_eq!(taken[taken.len() - 1], vec![text("/r/a"), text("/r/b"), text("/r/c"), text("/r/d")]);
}

#[test]
fn snapshot_is_a_copy() {
    let mut store = DiscoveryState::new();
    store.append(text("/r/a"));
    let mut copy = store.snapshot();
    copy.push(text("/r/never"));
    copy[0] = text("/r/changed");
    assert_eq!(store.snapshot(), vec![text("/r/a")]);
    store.append(text("/r/b"));
    assert_eq!(copy, vec![text("/r/changed"), text("/r/never")]);
}

#[test]
fn mark_done_sets_the_flag_and_keeps_the_paths() {
    let mut store = DiscoveryState::new();
    store.append(text("/r/a"));
    assert!(!store.is_done());
    store.mark_done();
    assert!(store.is_done());
    assert_eq!(store.snapshot(), vec![text("/r/a")]);
}

#[test]
fn mark_done_twice_is_the_same_as_once() {
    let mut store = DiscoveryState::new();
    store.append(text("/r/a"));
    store.mark_done();
    store.mark_done();
    assert!(store.is_done());
    assert_eq!(store.len(), 1);
}

#[test]
fn append_after_done_is_refused() {
    let mut store = DiscoveryState::new();
    assert!(store.append(text("/r/a")));
    store.mark_done();
    assert!(!store.append(text("/r/late")));
    assert!(store.is_done());
    assert_eq!(store.snapshot(), vec![text("/r/a")]);
}

#[test]
fn into_paths_gives_the_paths_in_order() {
    let mut store = DiscoveryState::new();
    store.append(text("/r/b"));
    store.append(text("/r/a"));
    assert_eq!(store.into_paths(), vec![text("/r/b"), text("/r/a")]);
}
