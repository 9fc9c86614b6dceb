//! The benchmark runner: an in-memory storage backend implementing the
//! collaborator contract (insert, and fetch ordered by creation descending),
//! timed fetch trials per representation, the complex-processing trial, and
//! the full sweep across a scale list, strictly sequentially.

use vstd::prelude::*;

use crate::analytics::{malformed_count, process_documents};
use crate::record::{
    opt_document_equiv, simple_record_equiv, Document, Representation, SimpleRecord,
};
use crate::synth::{
    complex_matches, simple_doc_matches, simple_matches, synthesize_complex, synthesize_document,
    synthesize_flat,
};

verus! {

/// Relies on `std::time::SystemTime::now`, read as milliseconds since the
/// Unix epoch through `duration_since`. The reading is nondeterministic, so
/// nothing is promised of the value.
#[verifier::external_body]
fn now_millis() -> u64 {
    match std::time::SystemTime::now().duration_since(std::time::UNIX_EPOCH) {
        Ok(d) => d.as_millis() as u64,
        Err(_) => 0,
    }
}

/// The time between two clock readings, zero if the clock moved backwards.
pub open spec fn elapsed_spec(start: u64, end: u64) -> u64 {
    if end >= start {
        (end - start) as u64
    } else {
        0
    }
}

pub fn elapsed_ms(start: u64, end: u64) -> (r: u64)
    ensures
        r == elapsed_spec(start, end),
{
    if end >= start {
        end - start
    } else {
        0
    }
}

pub open spec fn sorted_nondec(s: Seq<u64>) -> bool {
    forall|a: int, b: int| #![trigger s[a], s[b]] 0 <= a <= b < s.len() ==> s[a] <= s[b]
}

proof fn lemma_sorted_push(s: Seq<u64>, t: u64)
    requires
        sorted_nondec(s),
        s.len() == 0 || t >= s.last(),
    ensures
        sorted_nondec(s.push(t)),
{
    let p = s.push(t);
    assert forall|a: int, b: int| #![trigger p[a], p[b]] 0 <= a <= b < p.len() implies p[a]
        <= p[b] by {
        if b < s.len() {
            assert(s[a] <= s[b]);
        } else if a < s.len() {
            assert(s[a] <= s[s.len() - 1]);
        }
    }
}

/// An in-memory storage backend: the reference implementation of the
/// storage contract the benchmark consumes. Entries are kept in insertion
/// order with nondecreasing creation timestamps; a stored document entry of
/// `None` stands for a blob that does not parse back into a document.
pub struct MemoryStore {
    pub flat_times: Vec<u64>,
    pub flat_records: Vec<SimpleRecord>,
    pub doc_times: Vec<u64>,
    pub doc_blobs: Vec<Option<Document>>,
}

impl MemoryStore {
    /// The stored flat records, oldest first.
    pub open spec fn flat_seq(self) -> Seq<SimpleRecord> {
        self.flat_records@
    }

    /// The stored document blobs, oldest first; `None` is a malformed blob.
    pub open spec fn doc_seq(self) -> Seq<Option<Document>> {
        self.doc_blobs@
    }

    pub open spec fn wf(self) -> bool {
        &&& self.flat_times@.len() == self.flat_records@.len()
        &&& self.doc_times@.len() == self.doc_blobs@.len()
        &&& sorted_nondec(self.flat_times@)
        &&& sorted_nondec(self.doc_times@)
    }

    /// How many records are stored in the given representation.
    pub open spec fn stored_count(self, representation: Representation) -> int {
        match representation {
            Representation::Flat => self.flat_seq().len() as int,
            Representation::Document => self.doc_seq().len() as int,
        }
    }

    pub fn new() -> (r: MemoryStore)
        ensures
            r.wf(),
            r.flat_seq().len() == 0,
            r.doc_seq().len() == 0,
    {
        MemoryStore {
            flat_times: Vec::new(),
            flat_records: Vec::new(),
            doc_times: Vec::new(),
            doc_blobs: Vec::new(),
        }
    }

    pub open spec fn latest_flat_time(self) -> u64 {
        if self.flat_times@.len() == 0 {
            0u64
        } else {
            self.flat_times@.last()
        }
    }

    pub open spec fn latest_doc_time(self) -> u64 {
        if self.doc_times@.len() == 0 {
            0u64
        } else {
            self.doc_times@.last()
        }
    }

    pub fn next_flat_time(&self) -> (r: u64)
        ensures
            r >= self.latest_flat_time(),
    {
        if self.flat_times.len() == 0 {
            0
        } else {
            self.flat_times[self.flat_times.len() - 1]
        }
    }

    pub fn next_doc_time(&self) -> (r: u64)
        ensures
            r >= self.latest_doc_time(),
    {
        if self.doc_times.len() == 0 {
            0
        } else {
            self.doc_times[self.doc_times.len() - 1]
        }
    }

    /// Writes one flat record. Creation timestamps must not go backwards.
    pub fn insert_flat(&mut self, created_at: u64, record: SimpleRecord)
        requires
            old(self).wf(),
            created_at >= old(self).latest_flat_time(),
        ensures
            final(self).wf(),
            final(self).flat_seq() == old(self).flat_seq().push(record),
            final(self).flat_times@ == old(self).flat_times@.push(created_at),
            final(self).doc_seq() == old(self).doc_seq(),
            final(self).doc_times@ == old(self).doc_times@,
            final(self).latest_flat_time() == created_at,
    {
        proof {
            lemma_sorted_push(self.flat_times@, created_at);
        }
        self.flat_times.push(created_at);
        self.flat_records.push(record);
    }

    /// Writes one well-formed document blob.
    pub fn insert_document(&mut self, created_at: u64, document: Document)
        requires
            old(self).wf(),
            created_at >= old(self).latest_doc_time(),
        ensures
            final(self).wf(),
            final(self).doc_seq() == old(self).doc_seq().push(Some(document)),
            final(self).doc_times@ == old(self).doc_times@.push(created_at),
            final(self).flat_seq() == old(self).flat_seq(),
            final(self).flat_times@ == old(self).flat_times@,
            final(self).latest_doc_time() == created_at,
    {
        proof {
            lemma_sorted_push(self.doc_times@, created_at);
        }
        self.doc_times.push(created_at);
        self.doc_blobs.push(Some(document));
    }

    /// Writes one blob that will not parse back into a document.
    pub fn insert_malformed(&mut self, created_at: u64)
        requires
            old(self).wf(),
            created_at >= old(self).latest_doc_time(),
        ensures
            final(self).wf(),
            final(self).doc_seq() == old(self).doc_seq().push(None),
            final(self).doc_times@ == old(self).doc_times@.push(created_at),
            final(self).flat_seq() == old(self).flat_seq(),
            final(self).flat_times@ == old(self).flat_times@,
            final(self).latest_doc_time() == created_at,
    {
        proof {
            lemma_sorted_push(self.doc_times@, created_at);
        }
        self.doc_times.push(created_at);
        self.doc_blobs.push(None);
    }

    /// Fetches up to `limit` flat records, most recently created first.
    /// When fewer than `limit` records are stored, exactly the stored count
    /// is returned: the result is never padded and the call never fails.
    pub fn fetch_flat(&self, limit: u64) -> (r: Vec<SimpleRecord>)
        requires
            self.wf(),
        ensures
            r@.len() == vstd::math::min(limit as int, self.flat_seq().len() as int),
            forall|k: int|
                0 <= k < r@.len() ==> simple_record_equiv(
                    #[trigger] r@[k],
                    self.flat_seq()[self.flat_seq().len() - 1 - k],
                ),
    {
        let n = self.flat_records.len();
        let take_n: usize = if limit < n as u64 {
            limit as usize
        } else {
            n
        };
        let mut out: Vec<SimpleRecord> = Vec::new();
        let mut k: usize = 0;
        while k < take_n
            invariant
                take_n <= n,
                n == self.flat_seq().len(),
                k <= take_n,
                out@.len() == k,
                forall|j: int|
                    0 <= j < k ==> simple_record_equiv(
                        #[trigger] out@[j],
                        self.flat_seq()[n - 1 - j],
                    ),
            decreases take_n - k,
        {
            out.push(self.flat_records[n - 1 - k].duplicate());
            k += 1;
        }
        out
    }

    /// Fetches up to `limit` document blobs, most recently created first,
    /// each parsed or marked malformed exactly as stored. When fewer than
    /// `limit` are stored, exactly the stored count is returned.
    pub fn fetch_documents(&self, limit: u64) -> (r: Vec<Option<Document>>)
        requires
            self.wf(),
        ensures
            r@.len() == vstd::math::min(limit as int, self.doc_seq().len() as int),
            forall|k: int|
                0 <= k < r@.len() ==> opt_document_equiv(
                    #[trigger] r@[k],
                    self.doc_seq()[self.doc_seq().len() - 1 - k],
                ),
            malformed_count(r@) == malformed_count(
                self.doc_seq().skip(self.doc_seq().len() - r@.len()),
            ),
    {
        let n = self.doc_blobs.len();
        let take_n: usize = if limit < n as u64 {
            limit as usize
        } else {
            n
        };
        let mut out: Vec<Option<Document>> = Vec::new();
        let mut k: usize = 0;
        proof {
            assert(self.doc_seq().skip(n as int) =~= Seq::<Option<Document>>::empty());
        }
        while k < take_n
            invariant
                self.wf(),
                take_n <= n,
                n == self.doc_seq().len(),
                k <= take_n,
                out@.len() == k,
                forall|j: int|
                    0 <= j < k ==> opt_document_equiv(
                        #[trigger] out@[j],
                        self.doc_seq()[n - 1 - j],
                    ),
                malformed_count(out@) == malformed_count(self.doc_seq().skip(n - k)),
            decreases take_n - k,
        {
            let item = crate::record::copy_opt_document(&self.doc_blobs[n - 1 - k]);
            proof {
                let s = self.doc_seq();
                lemma_malformed_first(s.skip(n - 1 - k as int));
                assert(s.skip(n - 1 - k as int).drop_first() =~= s.skip(n - k as int));
                assert(s.skip(n - 1 - k as int).first() == s[n - 1 - k as int]);
                assert(out@.push(item).drop_last() =~= out@);
            }
            out.push(item);
            k += 1;
        }
        out
    }
}

proof fn lemma_malformed_first(s: Seq<Option<Document>>)
    requires
        s.len() > 0,
    ensures
        malformed_count(s) == malformed_count(s.drop_first()) + (if s.first() is None {
            1int
        } else {
            0int
        }),
    decreases s.len(),
{
    if s.len() == 1 {
        assert(s.drop_first() =~= Seq::<Option<Document>>::empty());
        assert(s.drop_last() =~= Seq::<Option<Document>>::empty());
    } else {
        lemma_malformed_first(s.drop_last());
        assert(s.drop_last().drop_first() =~= s.drop_first().drop_last());
        assert(s.drop_first().last() == s.last());
        assert(s.drop_last().first() == s.first());
    }
}

/// One timed fetch trial's report.
#[derive(Clone, Copy, PartialEq, Debug)]
pub struct BenchmarkReport {
    pub representation: Representation,
    pub count_requested: u64,
    pub duration_ms: u64,
    pub records_returned: u64,
}

/// Runs one timed fetch of up to `count` records in the given
/// representation and reports the requested count, the elapsed time, and
/// the count actually returned, which is the lesser of the request and the
/// stored count.
pub fn run_benchmark(store: &MemoryStore, representation: Representation, count: u64) -> (r:
    BenchmarkReport)
    requires
        store.wf(),
    ensures
        r.representation == representation,
        r.count_requested == count,
        r.records_returned as int == vstd::math::min(
            count as int,
            store.stored_count(representation),
        ),
{
    let start = now_millis();
    let returned: u64 = match representation {
        Representation::Flat => {
            let fetched = store.fetch_flat(count);
            fetched.len() as u64
        },
        Representation::Document => {
            let fetched = store.fetch_documents(count);
            fetched.len() as u64
        },
    };
    let end = now_millis();
    BenchmarkReport {
        representation,
        count_requested: count,
        duration_ms: elapsed_ms(start, end),
        records_returned: returned,
    }
}

/// One complex-processing trial's report. `records_processed` counts the
/// documents that survived parsing and were transformed; the dropped count
/// keeps the discrepancy observable.
#[derive(Clone, Copy, PartialEq, Debug)]
pub struct ComplexReport {
    pub count_requested: u64,
    pub duration_ms: u64,
    pub records_returned: u64,
    pub records_processed: u64,
    pub records_dropped: u64,
}

/// Fetches up to `count` documents and runs the analytics transform over
/// the batch. Every malformed blob is dropped from the output and counted:
/// `records_processed` is the post-filter count, below `records_returned`
/// exactly when malformed blobs were fetched.
pub fn run_benchmark_complex(store: &MemoryStore, count: u64) -> (r: ComplexReport)
    requires
        store.wf(),
    ensures
        r.count_requested == count,
        r.records_returned as int == vstd::math::min(
            count as int,
            store.stored_count(Representation::Document),
        ),
        r.records_processed as int + r.records_dropped as int == r.records_returned as int,
        r.records_dropped as int == malformed_count(
            store.doc_seq().skip(store.doc_seq().len() - r.records_returned as int),
        ),
{
    let start = now_millis();
    let fetched = store.fetch_documents(count);
    let returned: u64 = fetched.len() as u64;
    let outcome = process_documents(fetched);
    let end = now_millis();
    ComplexReport {
        count_requested: count,
        duration_ms: elapsed_ms(start, end),
        records_returned: returned,
        records_processed: outcome.processed.len() as u64,
        records_dropped: outcome.dropped,
    }
}

/// Which path one sweep report line covers.
#[derive(Clone, Copy, PartialEq, Eq, Structural, Debug)]
pub enum SweepPath {
    FlatFetch,
    DocumentFetch,
    ComplexProcessing,
}

/// One line of the full sweep: one (scale, path) trial.
#[derive(Clone, Copy, PartialEq, Debug)]
pub struct SweepReport {
    pub path: SweepPath,
    pub scale: u64,
    pub duration_ms: u64,
    pub records_returned: u64,
    pub records_processed: u64,
    pub records_dropped: u64,
}

pub open spec fn flat_line_matches(line: SweepReport, store: MemoryStore, scale: u64) -> bool {
    &&& line.path == SweepPath::FlatFetch
    &&& line.scale == scale
    &&& line.records_returned as int == vstd::math::min(
        scale as int,
        store.stored_count(Representation::Flat),
    )
    &&& line.records_processed == line.records_returned
    &&& line.records_dropped == 0
}

pub open spec fn document_line_matches(line: SweepReport, store: MemoryStore, scale: u64) -> bool {
    &&& line.path == SweepPath::DocumentFetch
    &&& line.scale == scale
    &&& line.records_returned as int == vstd::math::min(
        scale as int,
        store.stored_count(Representation::Document),
    )
    &&& line.records_processed == line.records_returned
    &&& line.records_dropped == 0
}

pub open spec fn complex_line_matches(line: SweepReport, store: MemoryStore, scale: u64) -> bool {
    &&& line.path == SweepPath::ComplexProcessing
    &&& line.scale == scale
    &&& line.records_returned as int == vstd::math::min(
        scale as int,
        store.stored_count(Representation::Document),
    )
    &&& line.records_processed as int + line.records_dropped as int
        == line.records_returned as int
    &&& line.records_dropped as int == malformed_count(
        store.doc_seq().skip(store.doc_seq().len() - line.records_returned as int),
    )
}

/// Runs the full sweep: for each scale in order, one flat fetch trial, one
/// document fetch trial and one complex-processing trial, strictly
/// sequentially, never concurrently. The in-memory backend cannot fail a
/// fetch, so every scale produces its three report lines.
pub fn run_sweep(store: &MemoryStore, scales: &Vec<u64>) -> (r: Vec<SweepReport>)
    requires
        store.wf(),
    ensures
        r@.len() == 3 * scales@.len(),
        forall|k: int|
            0 <= k < scales@.len() ==> {
                &&& flat_line_matches(r@[3 * k], *store, #[trigger] scales@[k])
                &&& document_line_matches(r@[3 * k + 1], *store, scales@[k])
                &&& complex_line_matches(r@[3 * k + 2], *store, scales@[k])
            },
{
    let mut reports: Vec<SweepReport> = Vec::new();
    let mut k: usize = 0;
    while k < scales.len()
        invariant
            store.wf(),
            k <= scales@.len(),
            reports@.len() == 3 * k,
            forall|j: int|
                0 <= j < k ==> {
                    &&& flat_line_matches(reports@[3 * j], *store, #[trigger] scales@[j])
                    &&& document_line_matches(reports@[3 * j + 1], *store, scales@[j])
                    &&& complex_line_matches(reports@[3 * j + 2], *store, scales@[j])
                },
        decreases scales@.len() - k,
    {
        let scale = scales[k];
        let flat = run_benchmark(store, Representation::Flat, scale);
        reports.push(
            SweepReport {
                path: SweepPath::FlatFetch,
                scale,
                duration_ms: flat.duration_ms,
                records_returned: flat.records_returned,
                records_processed: flat.records_returned,
                records_dropped: 0,
            },
        );
        let doc = run_benchmark(store, Representation::Document, scale);
        reports.push(
            SweepReport {
                path: SweepPath::DocumentFetch,
                scale,
                duration_ms: doc.duration_ms,
                records_returned: doc.records_returned,
                records_processed: doc.records_returned,
                records_dropped: 0,
            },
        );
        let complex = run_benchmark_complex(store, scale);
        reports.push(
            SweepReport {
                path: SweepPath::ComplexProcessing,
                scale,
                duration_ms: complex.duration_ms,
                records_returned: complex.records_returned,
                records_processed: complex.records_processed,
                records_dropped: complex.records_dropped,
            },
        );
        k += 1;
    }
    reports
}

/// Every line of the trio for scale index `k` reports the full stored count
/// of its representation.
pub open spec fn lines_return_full_count(
    reports: Seq<SweepReport>,
    store: MemoryStore,
    k: int,
) -> bool {
    &&& reports[3 * k].records_returned == store.stored_count(Representation::Flat)
    &&& reports[3 * k + 1].records_returned == store.stored_count(Representation::Document)
    &&& reports[3 * k + 2].records_returned == store.stored_count(Representation::Document)
}

/// A sweep against a backend holding fewer records than every requested
/// scale returns the full stored count on every line, with no failure.
pub proof fn lemma_sweep_small_store(reports: Seq<SweepReport>, store: MemoryStore, scales: Seq<u64>)
    requires
        reports.len() == 3 * scales.len(),
        forall|k: int|
            0 <= k < scales.len() ==> {
                &&& flat_line_matches(reports[3 * k], store, #[trigger] scales[k])
                &&& document_line_matches(reports[3 * k + 1], store, scales[k])
                &&& complex_line_matches(reports[3 * k + 2], store, scales[k])
            },
        forall|k: int|
            0 <= k < scales.len() ==> store.stored_count(Representation::Flat) <= #[trigger] scales[k]
                && store.stored_count(Representation::Document) <= scales[k],
    ensures
        forall|k: int|
            0 <= k < scales.len() ==> #[trigger] lines_return_full_count(reports, store, k),
{
    assert forall|k: int| 0 <= k < scales.len() implies #[trigger] lines_return_full_count(
        reports,
        store,
        k,
    ) by {
        assert(flat_line_matches(reports[3 * k], store, scales[k]));
        assert(document_line_matches(reports[3 * k + 1], store, scales[k]));
        assert(complex_line_matches(reports[3 * k + 2], store, scales[k]));
    }
}

/// The decision after one trial against an external storage backend:
/// `outcome` is the returned and dropped counts of a fetch that succeeded,
/// or nothing for a fetch that failed. A failure yields no report line; the
/// sweep proceeds with the next trial instead of aborting.
pub fn trial_decision(
    path: SweepPath,
    scale: u64,
    outcome: Option<(u64, u64)>,
    duration_ms: u64,
) -> (r: Option<SweepReport>)
    requires
        match outcome {
            Some(counts) => counts.1 <= counts.0,
            None => true,
        },
    ensures
        match outcome {
            Some(counts) => r == Some(
                SweepReport {
                    path,
                    scale,
                    duration_ms,
                    records_returned: counts.0,
                    records_processed: (counts.0 - counts.1) as u64,
                    records_dropped: counts.1,
                },
            ),
            None => r is None,
        },
{
    match outcome {
        Some((returned, dropped)) => Some(
            SweepReport {
                path,
                scale,
                duration_ms,
                records_returned: returned,
                records_processed: returned - dropped,
                records_dropped: dropped,
            },
        ),
        None => None,
    }
}

/// The fixed scale list of the full sweep.
pub fn standard_scales() -> (r: Vec<u64>)
    ensures
        r@ == seq![1000u64, 10000u64, 50000u64, 100000u64],
{
    let mut scales: Vec<u64> = Vec::new();
    scales.push(1000);
    scales.push(10000);
    scales.push(50000);
    scales.push(100000);
    proof {
        assert(scales@ =~= seq![1000u64, 10000u64, 50000u64, 100000u64]);
    }
    scales
}

/// Synthesizes and writes `count` flat records, indices 1 through `count`,
/// reporting how many were written; against the in-memory backend every
/// write succeeds.
pub fn populate_flat(store: &mut MemoryStore, count: u32) -> (r: u64)
    requires
        old(store).wf(),
    ensures
        final(store).wf(),
        r == count,
        final(store).flat_seq().len() == old(store).flat_seq().len() + count,
        forall|j: int|
            0 <= j < count ==> simple_matches(
                #[trigger] final(store).flat_seq()[old(store).flat_seq().len() + j],
                (j + 1) as u32,
            ),
        final(store).doc_seq() == old(store).doc_seq(),
{
    let ghost base = store.flat_seq().len();
    let mut i: u32 = 0;
    while i < count
        invariant
            store.wf(),
            i <= count,
            store.flat_seq().len() == base + i,
            forall|j: int|
                0 <= j < i ==> simple_matches(
                    #[trigger] store.flat_seq()[base + j],
                    (j + 1) as u32,
                ),
            store.doc_seq() == old(store).doc_seq(),
            store.doc_times@ == old(store).doc_times@,
        decreases count - i,
    {
        let record = synthesize_flat(i + 1);
        let t = store.next_flat_time();
        store.insert_flat(t, record);
        i += 1;
    }
    count as u64
}

/// Synthesizes and writes `count` simple documents, indices 1 through
/// `count`, reporting how many were written.
pub fn populate_documents(store: &mut MemoryStore, count: u32) -> (r: u64)
    requires
        old(store).wf(),
    ensures
        final(store).wf(),
        r == count,
        final(store).doc_seq().len() == old(store).doc_seq().len() + count,
        forall|j: int|
            0 <= j < count ==> match #[trigger] final(store).doc_seq()[old(
                store,
            ).doc_seq().len() + j] {
                Some(d) => simple_doc_matches(d, (j + 1) as u32),
                None => false,
            },
        final(store).flat_seq() == old(store).flat_seq(),
{
    let ghost base = store.doc_seq().len();
    let mut i: u32 = 0;
    while i < count
        invariant
            store.wf(),
            i <= count,
            store.doc_seq().len() == base + i,
            forall|j: int|
                0 <= j < i ==> match #[trigger] store.doc_seq()[base + j] {
                    Some(d) => simple_doc_matches(d, (j + 1) as u32),
                    None => false,
                },
            store.flat_seq() == old(store).flat_seq(),
            store.flat_times@ == old(store).flat_times@,
        decreases count - i,
    {
        let document = synthesize_document(i + 1);
        let t = store.next_doc_time();
        store.insert_document(t, document);
        i += 1;
    }
    count as u64
}

/// Synthesizes and writes `count` complex documents, indices 1 through
/// `count`, reporting how many were written.
pub fn populate_complex(store: &mut MemoryStore, count: u32) -> (r: u64)
    requires
        old(store).wf(),
    ensures
        final(store).wf(),
        r == count,
        final(store).doc_seq().len() == old(store).doc_seq().len() + count,
        forall|j: int|
            0 <= j < count ==> match #[trigger] final(store).doc_seq()[old(
                store,
            ).doc_seq().len() + j] {
                Some(d) => complex_matches(d, (j + 1) as u32),
                None => false,
            },
        final(store).flat_seq() == old(store).flat_seq(),
{
    let ghost base = store.doc_seq().len();
    let mut i: u32 = 0;
    while i < count
        invariant
            store.wf(),
            i <= count,
            store.doc_seq().len() == base + i,
            forall|j: int|
                0 <= j < i ==> match #[trigger] store.doc_seq()[base + j] {
                    Some(d) => complex_matches(d, (j + 1) as u32),
                    None => false,
                },
            store.flat_seq() == old(store).flat_seq(),
            store.flat_times@ == old(store).flat_times@,
        decreases count - i,
    {
        let document = synthesize_complex(i + 1);
        let t = store.next_doc_time();
        store.insert_document(t, document);
        i += 1;
    }
    count as u64
}

} // verus!
