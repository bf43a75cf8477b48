use swimmer::cache::{ClientCache, ConnectionIdentity, CLIENT_TTL_SECS};

fn id(ctx: Option<&str>, path: Option<&str>) -> ConnectionIdentity {
    ConnectionIdentity { context: ctx.map(|s| s.to_string()), kubeconfig_path: path.map(|s| s.to_string()) }
}

/// Counts how many clients had to be made.
fn get_or_create(cache: &mut ClientCache<u32>, ident: ConnectionIdentity, now: u64, made: &mut u32) -> u32 {
    cache.sweep(now);
    if let Some(h) = cache.lookup(&ident) {
        return *h;
    }
    *made += 1;
    cache.insert(ident, *made, now);
    *made
}

#[test]
fn calls_within_ttl_share_one_client() {
    let mut cache = ClientCache::new();
    let mut made = 0;
    let a = get_or_create(&mut cache, id(Some("prod"), None), 0, &mut made);
    let b = get_or_create(&mut cache, id(Some("prod"), None), 100, &mut made);
    let c = get_or_create(&mut cache, id(Some("prod"), None), CLIENT_TTL_SECS - 1, &mut made);
    assert_eq!((a, b, c), (1, 1, 1));
    assert_eq!(made, 1);
}

#[test]
fn a_call_at_ttl_rebuilds_the_client() {
    let mut cache = ClientCache::new();
    let mut made = 0;
    let a = get_or_create(&mut cache, id(Some("prod"), Some("/k")), 10, &mut made);
    let b = get_or_create(&mut cache, id(Some("prod"), Some("/k")), 10 + CLIENT_TTL_SECS, &mut made);
    assert_eq!((a, b), (1, 2));
    assert_eq!(cache.len(), 1);
}

#[test]
fn identities_differ_by_context_and_by_file() {
    let mut cache = ClientCache::new();
    let mut made = 0;
    get_or_create(&mut cache, id(Some("a"), None), 0, &mut made);
    get_or_create(&mut cache, id(Some("a"), Some("/other")), 0, &mut made);
    get_or_create(&mut cache, id(None, None), 0, &mut made);
    assert_eq!(made, 3);
    assert_eq!(cache.len(), 3);
    assert_eq!(cache.lookup(&id(Some("a"), Some("/other"))), Some(&2));
}

#[test]
fn sweep_drops_only_old_clients_and_invalidate_drops_all() {
    let mut cache = ClientCache::new();
    cache.insert(id(Some("old"), None), 1u32, 0);
    cache.insert(id(Some("new"), None), 2u32, 200);
    cache.sweep(350);
    assert_eq!(cache.lookup(&id(Some("old"), None)), None);
    assert_eq!(cache.lookup(&id(Some("new"), None)), Some(&2));
    cache.insert(id(Some("new"), None), 3u32, 360);
    assert_eq!(cache.len(), 1);
    assert_eq!(cache.lookup(&id(Some("new"), None)), Some(&3));
    cache.invalidate_all();
    assert_eq!(cache.len(), 0);
}

#[test]
fn a_client_is_rebuilt_once_it_is_ttl_old_even_when_calls_are_close() {
    let mut cache = ClientCache::new();
    let mut made = 0;
    let a = get_or_create(&mut cache, id(None, None), 0, &mut made);
    let b = get_or_create(&mut cache, id(None, None), 200, &mut made);
    let c = get_or_create(&mut cache, id(None, None), 400, &mut made);
    assert_eq!((a, b, c), (1, 1, 2));
}
