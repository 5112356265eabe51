use monitoring_system::metrics::SystemMetrics;
use monitoring_system::store::MetricsStore;

fn record(timestamp: u64, hostname: &str) -> SystemMetrics {
    SystemMetrics::at(timestamp, hostname.to_string(), 0, 100, 40, 1_000, 250)
}

#[test]
fn new_store_is_empty() {
    let store = MetricsStore::new();
    assert!(store.snapshot().is_empty());
    assert!(store.history("web-1").is_none());
}

#[test]
fn append_creates_the_history_of_a_new_host() {
    let mut store = MetricsStore::new();
    store.append("web-1", record(1, "web-1"));
    assert_eq!(store.history("web-1"), Some(&vec![record(1, "web-1")]));
    assert!(store.history("web-2").is_none());
}

#[test]
fn append_keeps_arrival_order_not_timestamp_order() {
    let mut store = MetricsStore::new();
    store.append("web-1", record(30, "web-1"));
    store.append("web-1", record(10, "web-1"));
    store.append("web-1", record(20, "web-1"));
    let history = store.history("web-1").unwrap();
    assert_eq!(history.len(), 3);
    assert_eq!(history[0].timestamp, 30);
    assert_eq!(history[1].timestamp, 10);
    assert_eq!(history[2].timestamp, 20);
}

#[test]
fn append_does_not_deduplicate() {
    let mut store = MetricsStore::new();
    store.append("web-1", record(5, "web-1"));
    store.append("web-1", record(5, "web-1"));
    assert_eq!(store.history("web-1"), Some(&vec![record(5, "web-1"), record(5, "web-1")]));
}

#[test]
fn append_files_under_the_given_key() {
    let mut store = MetricsStore::new();
    store.append("alias", record(1, "web-1"));
    assert_eq!(store.history("alias"), Some(&vec![record(1, "web-1")]));
    assert!(store.history("web-1").is_none());
}

#[test]
fn hosts_do_not_share_histories() {
    let mut store = MetricsStore::new();
    store.append("web-1", record(1, "web-1"));
    store.append("web-2", record(2, "web-2"));
    store.append("web-1", record(3, "web-1"));
    assert_eq!(store.history("web-1"), Some(&vec![record(1, "web-1"), record(3, "web-1")]));
    assert_eq!(store.history("web-2"), Some(&vec![record(2, "web-2")]));
}

#[test]
fn hostnames_are_told_apart_exactly() {
    let mut store = MetricsStore::new();
    store.append("web", record(1, "web"));
    store.append("Web", record(2, "Web"));
    store.append("", record(3, ""));
    assert_eq!(store.history("web").unwrap().len(), 1);
    assert_eq!(store.history("Web").unwrap().len(), 1);
    assert_eq!(store.history("").unwrap().len(), 1);
    assert!(store.history("web ").is_none());
}

#[test]
fn snapshot_lists_hosts_in_order_of_first_record() {
    let mut store = MetricsStore::new();
    store.append("web-2", record(1, "web-2"));
    store.append("web-1", record(2, "web-1"));
    store.append("web-2", record(3, "web-2"));
    store.append("web-3", record(4, "web-3"));
    let snapshot = store.snapshot();
    assert_eq!(snapshot.len(), 3);
    assert_eq!(snapshot[0].hostname, "web-2");
    assert_eq!(snapshot[0].records, vec![record(1, "web-2"), record(3, "web-2")]);
    assert_eq!(snapshot[1].hostname, "web-1");
    assert_eq!(snapshot[1].records, vec![record(2, "web-1")]);
    assert_eq!(snapshot[2].hostname, "web-3");
    assert_eq!(snapshot[2].records, vec![record(4, "web-3")]);
}

#[test]
fn snapshot_is_not_changed_by_later_appends() {
    let mut store = MetricsStore::new();
    store.append("web-1", record(1, "web-1"));
    let snapshot = store.snapshot();
    store.append("web-1", record(2, "web-1"));
    store.append("web-2", record(3, "web-2"));
    assert_eq!(snapshot.len(), 1);
    assert_eq!(snapshot[0].records, vec![record(1, "web-1")]);
    assert_eq!(store.snapshot().len(), 2);
}

#[test]
fn store_grows_without_bound_or_eviction() {
    let mut store = MetricsStore::new();
    let mut i: u64 = 0;
    while i < 2_000 {
        store.append("web-1", record(i, "web-1"));
        i += 1;
    }
    let history = store.history("web-1").unwrap();
    assert_eq!(history.len(), 2_000);
    assert_eq!(history[0].timestamp, 0);
    assert_eq!(history[1_999].timestamp, 1_999);
}

#[test]
fn host_history_clone_copies_name_and_records() {
    let mut store = MetricsStore::new();
    store.append("web-1", record(1, "web-1"));
    store.append("web-1", record(2, "web-1"));
    let snapshot = store.snapshot();
    let copy = snapshot[0].clone();
    assert_eq!(copy, snapshot[0]);
    assert_eq!(copy.records.len(), 2);
}
