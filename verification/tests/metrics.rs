use carbon_indexer::metrics::{
    counter_target, gauge_target, histogram_target, CounterTarget, GaugeTarget, HistogramTarget,
    LogCounters,
};
use carbon_indexer::name_table::{has_name_prefix, name_is, NameTable};

#[test]
fn well_known_names_are_routed_to_their_fields() {
    assert_eq!(counter_target("updates_received"), CounterTarget::UpdatesReceived);
    assert_eq!(counter_target("updates_processed"), CounterTarget::UpdatesProcessed);
    assert_eq!(counter_target("updates_successful"), CounterTarget::UpdatesSuccessful);
    assert_eq!(counter_target("updates_failed"), CounterTarget::UpdatesFailed);
    assert_eq!(counter_target("account_updates_processed"), CounterTarget::AccountUpdatesProcessed);
    assert_eq!(
        counter_target("transaction_updates_processed"),
        CounterTarget::TransactionUpdatesProcessed
    );
    assert_eq!(
        counter_target("account_deletions_processed"),
        CounterTarget::AccountDeletionsProcessed
    );
    assert_eq!(counter_target("updates_received_total"), CounterTarget::Named);
    assert_eq!(counter_target(""), CounterTarget::Named);
    assert_eq!(gauge_target("updates_queued"), GaugeTarget::UpdatesQueued);
    assert_eq!(gauge_target("updates_queue"), GaugeTarget::Named);
    assert_eq!(
        histogram_target("updates_processing_times"),
        HistogramTarget::UpdatesProcessingTimes
    );
    assert_eq!(histogram_target("other"), HistogramTarget::Named);
}

#[test]
fn increment_counter_adds_to_the_named_counter_only() {
    let mut c = LogCounters::new();
    c.increment_counter("updates_received", 3);
    c.increment_counter("updates_received", 4);
    c.increment_counter("account_deletions_processed", 1);
    c.increment_counter("yellowstone_grpc_try_send_full", 2);
    c.increment_counter("yellowstone_grpc_try_send_full", 5);
    assert_eq!(c.updates_received, 7);
    assert_eq!(c.account_deletions_processed, 1);
    assert_eq!(c.updates_processed, 0);
    assert_eq!(c.counters.get("yellowstone_grpc_try_send_full"), Some(&7));
    assert_eq!(c.counters.get("updates_received"), None);
}

#[test]
fn name_table_reads_back_what_was_written() {
    let mut t: NameTable<f64> = NameTable::new();
    assert_eq!(t.get("g"), None);
    t.insert("g", 1.5);
    t.insert("h", 2.0);
    t.insert("g", 3.25);
    assert_eq!(t.get("g"), Some(&3.25));
    assert_eq!(t.get("h"), Some(&2.0));
    t.clear();
    assert_eq!(t.get("g"), None);
}

#[test]
fn name_table_add_starts_from_zero() {
    let mut t: NameTable<u64> = NameTable::new();
    t.add("c", 10);
    t.add("c", 1);
    assert_eq!(t.get("c"), Some(&11));
}

#[test]
fn name_table_lists_collect_pushed_values() {
    let mut t: NameTable<Vec<f64>> = NameTable::new();
    t.push_value("latency", 1.0);
    t.push_value("size", 8.0);
    t.push_value("latency", 2.5);
    assert_eq!(t.get("latency"), Some(&vec![1.0, 2.5]));
    assert_eq!(t.get("size"), Some(&vec![8.0]));
}

#[test]
fn entries_with_prefix_select_by_leading_bytes() {
    let mut t: NameTable<f64> = NameTable::new();
    t.insert("datasource_ingest_last_slot_a", 1.0);
    t.insert("datasource_ingest_last_slot_b", 2.0);
    t.insert("other", 3.0);
    let mut found = t.entries_with_prefix("datasource_ingest_last_slot_");
    found.sort_by(|a, b| a.0.cmp(&b.0));
    assert_eq!(
        found,
        vec![
            ("datasource_ingest_last_slot_a".to_string(), 1.0),
            ("datasource_ingest_last_slot_b".to_string(), 2.0),
        ]
    );
    assert_eq!(t.entries_with_prefix("").len(), 3);
    assert!(t.entries_with_prefix("zzz").is_empty());
}

#[test]
fn names_compare_by_characters() {
    assert!(name_is("abc", "abc"));
    assert!(!name_is("abc", "abd"));
    assert!(!name_is("ab", "abc"));
    assert!(has_name_prefix("abc", "ab"));
    assert!(has_name_prefix("é", ""));
    assert!(!has_name_prefix("ab", "abc"));
}

#[test]
fn insert_leaves_other_names_alone() {
    let mut t: NameTable<u64> = NameTable::new();
    t.insert("x", 1);
    t.insert("y", 2);
    t.insert("x", 3);
    assert_eq!(t.get("x"), Some(&3));
    assert_eq!(t.get("y"), Some(&2));
    assert_eq!(t.get("z"), None);
}
