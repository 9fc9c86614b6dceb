use storage_bench::bench::{
    elapsed_ms, run_benchmark, run_benchmark_complex, run_sweep, standard_scales, trial_decision,
    MemoryStore, SweepPath,
};
use storage_bench::record::Representation;
use storage_bench::synth::{synthesize_complex, synthesize_flat};

fn store_with(flat: u32, documents: u32) -> MemoryStore {
    let mut store = MemoryStore::new();
    storage_bench::bench::populate_flat(&mut store, flat);
    storage_bench::bench::populate_complex(&mut store, documents);
    store
}

#[test]
fn fetch_returns_stored_count_when_below_limit() {
    let store = store_with(5, 5);
    assert_eq!(store.fetch_flat(10).len(), 5);
    assert_eq!(store.fetch_documents(10).len(), 5);
}

#[test]
fn fetch_honours_limit() {
    let store = store_with(5, 5);
    assert_eq!(store.fetch_flat(3).len(), 3);
    assert_eq!(store.fetch_documents(0).len(), 0);
}

#[test]
fn fetch_most_recent_first() {
    let store = store_with(4, 0);
    let fetched = store.fetch_flat(2);
    assert_eq!(fetched[0].name, "User 4");
    assert_eq!(fetched[1].name, "User 3");
}

#[test]
fn fetch_from_empty_store() {
    let store = MemoryStore::new();
    assert_eq!(store.fetch_flat(100).len(), 0);
    assert_eq!(store.fetch_documents(100).len(), 0);
}

#[test]
fn populate_reports_written_count() {
    let mut store = MemoryStore::new();
    assert_eq!(storage_bench::bench::populate_flat(&mut store, 7), 7);
    assert_eq!(storage_bench::bench::populate_documents(&mut store, 3), 3);
    assert_eq!(storage_bench::bench::populate_complex(&mut store, 2), 2);
    assert_eq!(store.fetch_flat(100).len(), 7);
    assert_eq!(store.fetch_documents(100).len(), 5);
}

#[test]
fn benchmark_report_fields() {
    let store = store_with(6, 9);
    let flat = run_benchmark(&store, Representation::Flat, 4);
    assert_eq!(flat.representation, Representation::Flat);
    assert_eq!(flat.count_requested, 4);
    assert_eq!(flat.records_returned, 4);
    let documents = run_benchmark(&store, Representation::Document, 100);
    assert_eq!(documents.records_returned, 9);
}

#[test]
fn benchmark_complex_counts() {
    let store = store_with(0, 5);
    let report = run_benchmark_complex(&store, 3);
    assert_eq!(report.count_requested, 3);
    assert_eq!(report.records_returned, 3);
    assert_eq!(report.records_processed, 3);
    assert_eq!(report.records_dropped, 0);
}

#[test]
fn malformed_blob_lowers_processed_below_returned() {
    let mut store = MemoryStore::new();
    let t0 = store.next_doc_time();
    store.insert_document(t0, synthesize_complex(1));
    let t1 = store.next_doc_time();
    store.insert_malformed(t1);
    let t2 = store.next_doc_time();
    store.insert_document(t2, synthesize_complex(2));
    let report = run_benchmark_complex(&store, 10);
    assert_eq!(report.records_returned, 3);
    assert_eq!(report.records_processed, 2);
    assert_eq!(report.records_dropped, 1);
    assert!(report.records_processed < report.records_returned);
}

#[test]
fn sweep_returns_three_lines_per_scale() {
    let store = store_with(3, 3);
    let scales = vec![2u64, 10];
    let reports = run_sweep(&store, &scales);
    assert_eq!(reports.len(), 6);
    assert_eq!(reports[0].path, SweepPath::FlatFetch);
    assert_eq!(reports[1].path, SweepPath::DocumentFetch);
    assert_eq!(reports[2].path, SweepPath::ComplexProcessing);
    assert_eq!(reports[0].scale, 2);
    assert_eq!(reports[3].scale, 10);
    assert_eq!(reports[0].records_returned, 2);
    assert_eq!(reports[3].records_returned, 3);
}

#[test]
fn sweep_small_store_returns_full_count_everywhere() {
    let store = store_with(500, 500);
    let scales = vec![1000u64, 10000];
    let reports = run_sweep(&store, &scales);
    assert_eq!(reports.len(), 6);
    for report in &reports {
        assert_eq!(report.records_returned, 500);
        assert_eq!(report.records_dropped, 0);
        assert_eq!(report.records_processed, 500);
    }
}

#[test]
fn sweep_over_empty_scale_list() {
    let store = store_with(1, 1);
    let reports = run_sweep(&store, &Vec::new());
    assert!(reports.is_empty());
}

#[test]
fn standard_scale_list() {
    assert_eq!(standard_scales(), vec![1000u64, 10000, 50000, 100000]);
}

#[test]
fn failed_trial_yields_no_line_and_sweep_proceeds() {
    let skipped = trial_decision(SweepPath::FlatFetch, 1000, None, 12);
    assert!(skipped.is_none());
    let line = trial_decision(SweepPath::ComplexProcessing, 1000, Some((5, 2)), 12)
        .expect("successful trial reports");
    assert_eq!(line.records_returned, 5);
    assert_eq!(line.records_dropped, 2);
    assert_eq!(line.records_processed, 3);
    assert_eq!(line.duration_ms, 12);
}

#[test]
fn elapsed_never_negative() {
    assert_eq!(elapsed_ms(5, 10), 5);
    assert_eq!(elapsed_ms(10, 5), 0);
    assert_eq!(elapsed_ms(7, 7), 0);
}

#[test]
fn fetched_records_match_stored_values() {
    let mut store = MemoryStore::new();
    let record = synthesize_flat(9);
    let name = record.name.clone();
    store.insert_flat(0, record);
    let fetched = store.fetch_flat(1);
    assert_eq!(fetched[0].name, name);
    assert_eq!(fetched[0].email, "user9@example.com");
}
