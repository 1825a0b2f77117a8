use nacos_client::client::worker::{blank2_default_group, CacheMap, ClientWorker};
use nacos_client::error::ErrorKind;
use nacos_client::strmap::StrMap;

fn properties(pairs: &[(&str, &str)]) -> StrMap<String> {
    let mut m = StrMap::new();
    for (k, v) in pairs {
        m.insert(k.to_string(), v.to_string());
    }
    m
}

#[test]
fn worker_takes_defaults_without_properties() {
    let w = ClientWorker::new((), StrMap::new());
    assert_eq!(w.timeout, 30000);
    assert_eq!(w.task_penalty_time, 1000);
    assert!(!w.enable_remote_sync_config);
    assert!(!w.is_health_server);
    assert!(w.config_filter_chain_manager.is_some());
    assert_eq!(w.last_full_sync_time, 0);
}

#[test]
fn worker_reads_its_properties() {
    let w = ClientWorker::new(
        (),
        properties(&[
            ("config_long_poll_timeout", "45000"),
            ("config_retry_time", "-5"),
            ("enable_remote_syn_config", "true"),
        ]),
    );
    assert_eq!(w.timeout, 45000);
    assert_eq!(w.task_penalty_time, -5);
    assert!(w.enable_remote_sync_config);
}

#[test]
fn long_poll_timeout_is_never_below_the_minimum() {
    let w = ClientWorker::new((), properties(&[("config_long_poll_timeout", "500")]));
    assert_eq!(w.timeout, 10000);
    let w = ClientWorker::new((), properties(&[("config_long_poll_timeout", "10000")]));
    assert_eq!(w.timeout, 10000);
}

#[test]
fn unreadable_properties_have_their_defaults() {
    let mut w: ClientWorker<()> = ClientWorker::default();
    assert_eq!(w.timeout, 0);
    w.init(&properties(&[
        ("config_long_poll_timeout", "long"),
        ("config_retry_time", "99999999999"),
        ("enable_remote_syn_config", "yes"),
    ]));
    assert_eq!(w.timeout, 30000);
    assert_eq!(w.task_penalty_time, 1000);
    assert!(!w.enable_remote_sync_config);
}

#[test]
fn blank_group_is_the_default_group() {
    assert_eq!(blank2_default_group("".to_string()), "DEFAULT_GROUP");
    assert_eq!(blank2_default_group("  \t".to_string()), "DEFAULT_GROUP");
    assert_eq!(blank2_default_group(" pay ".to_string()), "pay");
    assert_eq!(blank2_default_group("pay".to_string()), "pay");
}

#[test]
fn cache_items_are_added_once() {
    let mut cache = CacheMap::new();
    assert_eq!(cache.len(), 0);
    assert!(cache.get_cache("d", "g", "").is_none());
    let key = cache.add_cache_data_if_absent("d".to_string(), "g".to_string(), "").unwrap();
    assert_eq!(key, "d+g");
    let key2 = cache.add_cache_data_if_absent("d".to_string(), "g".to_string(), " ").unwrap();
    assert_eq!(key2, "d+g");
    assert_eq!(cache.len(), 1);
    let with_tenant = cache.add_cache_data_if_absent("d".to_string(), "g".to_string(), "t").unwrap();
    assert_eq!(with_tenant, "d+g+t");
    assert_eq!(cache.len(), 2);
    let item = cache.get_cache("d", "g", "t").unwrap();
    assert_eq!(item.data_id(), "d");
    assert_eq!(item.group(), "g");
    assert_eq!(item.tenant(), "t");
    assert_eq!(item.task_id(), "0");
    assert_eq!(item.content(), "");
    assert!(!item.is_sync_with_server());
    assert_eq!(cache.key_at(0), "d+g");
    assert_eq!(cache.item_at(1).tenant(), "t");
}

#[test]
fn cache_refuses_blank_identities() {
    let mut cache = CacheMap::new();
    let err = cache.add_cache_data_if_absent(" ".to_string(), "g".to_string(), "").unwrap_err();
    assert_eq!(err.kind, ErrorKind::InvalidArgument);
    assert!(cache.add_cache_data_if_absent("d".to_string(), "".to_string(), "").is_err());
    assert_eq!(cache.len(), 0);
    assert!(cache.get_cache("", "g", "").is_none());
}

#[test]
fn listeners_are_added_under_the_effective_group() {
    let mut w = ClientWorker::new((), StrMap::new());
    let mut cache = CacheMap::new();
    let key = w.add_listeners(&mut cache, "d".to_string(), "  ".to_string(), "").unwrap();
    assert_eq!(key, "d+DEFAULT_GROUP");
    assert!(cache.get_cache("d", "DEFAULT_GROUP", "").is_some());
    assert!(w.add_listeners(&mut cache, "".to_string(), "g".to_string(), "").is_err());
}

#[test]
fn task_numbers_grow_with_the_cache() {
    let mut cache = CacheMap::new();
    for i in 0..3001 {
        cache.add_cache_data_if_absent(format!("d{}", i), "g".to_string(), "").unwrap();
    }
    assert_eq!(cache.get_cache("d2999", "g", "").unwrap().task_id(), "0");
    assert_eq!(cache.get_cache("d3000", "g", "").unwrap().task_id(), "1");
}

#[test]
fn pass_takes_every_item_when_a_full_sync_is_due() {
    let mut w = ClientWorker::new((), StrMap::new());
    let mut cache = CacheMap::new();
    cache.add_cache_data_if_absent("a".to_string(), "g".to_string(), "").unwrap();
    cache.add_cache_data_if_absent("b".to_string(), "g".to_string(), "").unwrap();
    w.last_full_sync_time = 1000;
    let due = w.execute_config_listen(&cache, 301001);
    assert_eq!(due, vec!["a+g".to_string(), "b+g".to_string()]);
    assert_eq!(w.last_full_sync_time, 301001);
}

#[test]
fn pass_skips_synchronized_items_between_full_syncs() {
    let mut w = ClientWorker::new((), StrMap::new());
    w.last_full_sync_time = 1000;
    let mut synced = nacos_client::cache::CacheData::new(
        "a".to_string(),
        "g".to_string(),
        "".to_string(),
        "0".to_string(),
    );
    synced.set_sync_with_server(true);
    assert!(synced.is_sync_with_server());
    let mut cache = CacheMap::new();
    cache.add_cache_data_if_absent("a".to_string(), "g".to_string(), "").unwrap();
    cache.add_cache_data_if_absent("b".to_string(), "g".to_string(), "").unwrap();
    cache.mark_synced("a", "g", "", true);
    let due = w.execute_config_listen(&cache, 301000);
    assert_eq!(due, vec!["b+g".to_string()]);
    assert_eq!(w.last_full_sync_time, 1000);
    cache.mark_synced("b", "g", "", true);
    assert!(w.execute_config_listen(&cache, 301000).is_empty());
    assert_eq!(w.execute_config_listen(&cache, 301001).len(), 2);
}

#[test]
fn listen_context_leaves_out_a_blank_tenant() {
    let mut cache = CacheMap::new();
    let plain = cache.add_cache_data_if_absent("a".to_string(), "g".to_string(), " ").unwrap();
    let owned = cache.add_cache_data_if_absent("a".to_string(), "g".to_string(), "t").unwrap();
    let context = cache.get_by_key(&plain).unwrap().listen_context();
    assert_eq!(context.data_id, "a");
    assert_eq!(context.group, "g");
    assert_eq!(context.tenant, None);
    assert_eq!(context.md5, Some("d41d8cd98f00b204e9800998ecf8427e".to_string()));
    let context = cache.get_by_key(&owned).unwrap().listen_context();
    assert_eq!(context.tenant, Some("t".to_string()));
    assert!(cache.get_by_key("missing").is_none());
}

#[test]
fn adding_listeners_leaves_the_other_items_alone() {
    let mut w = ClientWorker::new((), StrMap::new());
    let mut cache = CacheMap::new();
    cache.add_cache_data_if_absent("a".to_string(), "g".to_string(), "").unwrap();
    cache.mark_synced("a", "g", "", true);
    w.add_listeners(&mut cache, "b".to_string(), "g".to_string(), "").unwrap();
    assert_eq!(cache.len(), 2);
    assert_eq!(cache.key_at(0), "a+g");
    assert_eq!(cache.key_at(1), "b+g");
    assert!(cache.get_cache("a", "g", "").unwrap().is_sync_with_server());
    w.add_listeners(&mut cache, "a".to_string(), "g".to_string(), "").unwrap();
    assert_eq!(cache.len(), 2);
    assert!(cache.get_cache("a", "g", "").unwrap().is_sync_with_server());
}
