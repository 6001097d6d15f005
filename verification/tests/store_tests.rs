use sc_core::context::Context;
use sc_core::context::ScConfig;
use sc_core::context::TopicSpec;
use sc_core::store::HealthCheck;
use sc_core::store::Record;
use sc_core::store::SimpleMetaItem;
use sc_core::store::StoreContext;

fn topic_record(key: &str, partitions: u32, revision: u64) -> Record<TopicSpec, SimpleMetaItem> {
    Record {
        key: key.to_string(),
        spec: TopicSpec { partitions, replication_factor: 1, ignore_rack_assignment: false },
        status: None,
        meta: SimpleMetaItem { uid: 1, revision },
    }
}

#[test]
fn get_and_list_see_applied_updates() {
    let mut store: StoreContext<TopicSpec, SimpleMetaItem> = StoreContext::new();
    assert_eq!(store.count(), 0);
    assert!(store.get("a").is_none());
    assert!(store.apply_update(topic_record("a", 3, 1)));
    assert!(store.apply_update(topic_record("b", 5, 1)));
    assert_eq!(store.count(), 2);
    let got = store.get("a").unwrap();
    assert_eq!(got.spec.partitions, 3);
    assert_eq!(got.meta.revision, 1);
    // A snapshot taken after an update completed includes that update.
    let snapshot = store.list();
    assert_eq!(snapshot.len(), 2);
    assert!(snapshot.iter().any(|r| r.key == "a" && r.spec.partitions == 3));
    assert!(snapshot.iter().any(|r| r.key == "b" && r.spec.partitions == 5));
}

#[test]
fn newer_revision_replaces_the_record() {
    let mut store: StoreContext<TopicSpec, SimpleMetaItem> = StoreContext::new();
    assert!(store.apply_update(topic_record("a", 3, 1)));
    assert!(store.apply_update(topic_record("a", 9, 2)));
    assert_eq!(store.count(), 1);
    let got = store.get("a").unwrap();
    assert_eq!(got.spec.partitions, 9);
    assert_eq!(got.meta.revision, 2);
}

#[test]
fn stale_update_is_dropped_silently() {
    let mut store: StoreContext<TopicSpec, SimpleMetaItem> = StoreContext::new();
    assert!(store.apply_update(topic_record("a", 3, 5)));
    // An update with an older revision for the same key is dropped: no
    // error, no change.
    assert!(!store.apply_update(topic_record("a", 100, 4)));
    assert_eq!(store.count(), 1);
    let got = store.get("a").unwrap();
    assert_eq!(got.spec.partitions, 3);
    assert_eq!(got.meta.revision, 5);
}

#[test]
fn equal_revision_is_applied() {
    let mut store: StoreContext<TopicSpec, SimpleMetaItem> = StoreContext::new();
    assert!(store.apply_update(topic_record("a", 3, 5)));
    // "Not older" admits the same revision: the record is replaced.
    assert!(store.apply_update(topic_record("a", 4, 5)));
    assert_eq!(store.get("a").unwrap().spec.partitions, 4);
}

#[test]
fn health_tracker_records_latest_liveness() {
    let mut health = HealthCheck::new();
    assert_eq!(health.status(5), None);
    health.update(5, true);
    health.update(9, false);
    assert_eq!(health.status(5), Some(true));
    assert_eq!(health.status(9), Some(false));
    health.update(5, false);
    assert_eq!(health.status(5), Some(false));
}

#[test]
fn context_starts_empty_and_keeps_its_configuration() {
    let config = ScConfig {
        id: 7,
        namespace: "streams".to_string(),
        public_endpoint: "0.0.0.0:9003".to_string(),
        private_endpoint: "0.0.0.0:9004".to_string(),
    };
    let ctx: std::sync::Arc<Context<SimpleMetaItem>> = Context::shared_metadata(config);
    assert_eq!(ctx.spus().count(), 0);
    assert_eq!(ctx.partitions().count(), 0);
    assert_eq!(ctx.topics().count(), 0);
    assert_eq!(ctx.spgs().count(), 0);
    assert_eq!(ctx.smartmodules().count(), 0);
    assert_eq!(ctx.tableformats().count(), 0);
    assert_eq!(ctx.remote_clusters().count(), 0);
    assert_eq!(ctx.upstream_clusters().count(), 0);
    assert_eq!(ctx.namespace(), "streams");
    assert_eq!(ctx.config().id, 7);
    assert_eq!(ctx.metrics().requests_handled, 0);
}

#[test]
fn context_stores_update_independently() {
    let mut ctx: Context<SimpleMetaItem> = match std::sync::Arc::try_unwrap(
        Context::shared_metadata(ScConfig::default()),
    ) {
        Ok(c) => c,
        Err(_) => panic!("the fresh handle has one owner"),
    };
    assert!(ctx.topics_mut().apply_update(topic_record("t1", 1, 1)));
    assert_eq!(ctx.topics().count(), 1);
    assert_eq!(ctx.partitions().count(), 0);
    ctx.health_mut().update(1, true);
    assert_eq!(ctx.health().status(1), Some(true));
    ctx.metrics_mut().inc_requests();
    ctx.metrics_mut().inc_responses();
    assert_eq!(ctx.metrics().requests_handled, 1);
    assert_eq!(ctx.metrics().responses_sent, 1);
}

#[test]
fn independent_contexts_coexist() {
    // The context is an explicit value, not a process-wide singleton: two
    // instances live side by side and do not share state.
    let mut a: Context<SimpleMetaItem> =
        match std::sync::Arc::try_unwrap(Context::shared_metadata(ScConfig::default())) {
            Ok(c) => c,
            Err(_) => panic!("the fresh handle has one owner"),
        };
    let b: std::sync::Arc<Context<SimpleMetaItem>> = Context::shared_metadata(ScConfig::default());
    assert!(a.topics_mut().apply_update(topic_record("only-in-a", 1, 1)));
    assert_eq!(a.topics().count(), 1);
    assert_eq!(b.topics().count(), 0);
}
