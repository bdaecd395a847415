//! Aggregation of measurement samples into one row per operation and scale.
use vstd::prelude::*;
use crate::evidence_01c::measurement_ops::{
    peak_metric, peak_metric_spec, storage_before_metric, storage_before_metric_spec, storage_metric, storage_metric_spec,
};
use crate::evidence_01c::types::{
    MeasurementAggregate, MeasurementAggregateView, MeasurementSample, MeasurementSampleView, MetricAvailability,
    MetricAvailabilityView,
};
use crate::evidence_01c::candidate::{CurrentContractCandidate, CurrentContractCandidateKind};
use crate::measurement::{ComparativeMeasurementContract, MeasurementFixtureScale, MeasurementOperationSpecView};
use crate::model::vec_view;
use crate::oracle::{push_text_key, text_key};
use crate::order::{in_key_order, keys_view, lemma_sort_by_key_fn, lemma_sort_by_keys_map, lex_le, sort_by_keys, sort_by_keys_spec};
use crate::text::str_eq;

verus! {

/// The elapsed times of the samples that did not fail, in sample order.
pub open spec fn successful_elapsed(samples: Seq<MeasurementSampleView>) -> Seq<u128> {
    samples.filter(|s: MeasurementSampleView| !s.failed).map_values(|s: MeasurementSampleView| s.elapsed_ms)
}

/// The ordering key of an elapsed time: its high, then its low 64 bits.
pub open spec fn elapsed_key(e: u128) -> Seq<u64> {
    seq![(e / 0x1_0000_0000_0000_0000) as u64, (e % 0x1_0000_0000_0000_0000) as u64]
}

/// The elapsed times of the successful samples, in ascending order.
pub open spec fn sorted_elapsed_spec(samples: Seq<MeasurementSampleView>) -> Seq<u128> {
    let e = successful_elapsed(samples);
    sort_by_keys_spec(e.map_values(|x: u128| elapsed_key(x)), e)
}

/// The elapsed times of the successful samples, in ascending order.
pub fn sorted_successful_elapsed(samples: &Vec<MeasurementSample>) -> (r: Vec<u128>)
    ensures
        r@ == sorted_elapsed_spec(vec_view(samples@)),
{
    let ghost sv = vec_view(samples@);
    let mut elapsed: Vec<u128> = Vec::new();
    let mut keys: Vec<Vec<u64>> = Vec::new();
    let mut i: usize = 0;
    while i < samples.len()
        invariant
            i <= samples.len(),
            sv == vec_view(samples@),
            elapsed@ == successful_elapsed(sv.subrange(0, i as int)),
            keys_view(keys@) == elapsed@.map_values(|x: u128| elapsed_key(x)),
            keys@.len() == elapsed@.len(),
        decreases samples.len() - i,
    {
        proof {
            let sub = sv.subrange(0, i + 1);
            assert(sub =~= sv.subrange(0, i as int).push(sv[i as int]));
            sv.subrange(0, i as int).lemma_filter_push(sv[i as int], |s: MeasurementSampleView| !s.failed);
        }
        if !samples[i].failed {
            let e = samples[i].elapsed_ms;
            let key = vec![(e / 0x1_0000_0000_0000_0000u128) as u64, (e % 0x1_0000_0000_0000_0000u128) as u64];
            assert(key@ =~= elapsed_key(e));
            let ghost old_keys = keys@;
            let ghost old_elapsed = elapsed@;
            elapsed.push(e);
            keys.push(key);
            proof {
                assert(keys_view(keys@) =~= keys_view(old_keys).push(elapsed_key(e)));
                assert(elapsed@.map_values(|x: u128| elapsed_key(x))
                    =~= old_elapsed.map_values(|x: u128| elapsed_key(x)).push(elapsed_key(e)));
            }
        }
        i = i + 1;
        proof {
            assert(elapsed@ =~= successful_elapsed(sv.subrange(0, i as int)));
        }
    }
    proof {
        assert(sv.subrange(0, samples.len() as int) =~= sv);
    }
    sort_by_keys(elapsed, keys)
}

/// The number of failed samples.
pub open spec fn failure_total(samples: Seq<MeasurementSampleView>) -> nat {
    samples.filter(|s: MeasurementSampleView| s.failed).len()
}

/// The largest of the values, or 0 for none.
pub open spec fn max_or_zero(values: Seq<u64>) -> u64
    decreases values.len(),
{
    if values.len() == 0 {
        0
    } else {
        let rest = max_or_zero(values.drop_last());
        if values.last() > rest {
            values.last()
        } else {
            rest
        }
    }
}

/// The largest peak memory of the successful samples, or 0.
pub open spec fn successful_peak(samples: Seq<MeasurementSampleView>) -> u64 {
    max_or_zero(samples.filter(|s: MeasurementSampleView| !s.failed).map_values(|s: MeasurementSampleView| s.peak_memory_bytes))
}

/// The largest storage size after of the successful samples, or 0.
pub open spec fn successful_storage_after(samples: Seq<MeasurementSampleView>) -> u64 {
    max_or_zero(
        samples.filter(|s: MeasurementSampleView| !s.failed).map_values(|s: MeasurementSampleView| s.storage_size_after),
    )
}

/// A metric that could not be measured, with the reason.
pub open spec fn unavailable_spec(reason: Seq<char>) -> MetricAvailabilityView<u64> {
    MetricAvailabilityView { value: None, status: "unavailable"@, reason: Some(reason) }
}

/// The row of an operation measured on `samples`: counts, the minimum,
/// median, 95th-percentile (at rank `p95_rank` among the successful samples,
/// clamped to the last) and maximum of the successful elapsed times, each
/// unavailable where no sample succeeded, and the peak memory and storage
/// sizes; for compaction on a candidate that does not support it, a row with
/// no counts and every metric unavailable as unsupported.
pub open spec fn aggregate_spec(
    candidate_id: Seq<char>,
    candidate_version: Seq<char>,
    operation: Seq<char>,
    scale: MeasurementFixtureScale,
    platform: Seq<char>,
    samples: Seq<MeasurementSampleView>,
    compaction_supported: bool,
    p95_rank: usize,
) -> MeasurementAggregateView {
    if operation == "compaction_where_supported"@ && !compaction_supported {
        MeasurementAggregateView {
            operation,
            fixture_scale: scale,
            candidate_id,
            candidate_version,
            platform,
            count: 0,
            minimum_ms: None,
            median_ms: None,
            p95_ms: None,
            maximum_ms: None,
            failure_count: 0,
            peak_memory_bytes: unavailable_spec("compaction unsupported"@),
            bytes_read: unavailable_spec("not observed"@),
            bytes_written: unavailable_spec("not observed"@),
            storage_size_before: unavailable_spec("compaction unsupported"@),
            storage_size_after: unavailable_spec("compaction unsupported"@),
        }
    } else {
        let sorted = sorted_elapsed_spec(samples);
        let n = sorted.len();
        MeasurementAggregateView {
            operation,
            fixture_scale: scale,
            candidate_id,
            candidate_version,
            platform,
            count: samples.len() as u32,
            minimum_ms: if n > 0 { Some(sorted[0]) } else { None },
            median_ms: if n > 0 { Some(sorted[(n / 2) as int]) } else { None },
            p95_ms: if n > 0 {
                if p95_rank < n - 1 { Some(sorted[p95_rank as int]) } else { Some(sorted[n - 1]) }
            } else {
                None
            },
            maximum_ms: if n > 0 { Some(sorted[n - 1]) } else { None },
            failure_count: failure_total(samples) as u32,
            peak_memory_bytes: peak_metric_spec(successful_peak(samples)),
            bytes_read: unavailable_spec("not observed"@),
            bytes_written: unavailable_spec("not observed"@),
            storage_size_before: storage_before_metric_spec(samples),
            storage_size_after: storage_metric_spec(successful_storage_after(samples)),
        }
    }
}

proof fn lemma_elapsed_key_order(a: u128, b: u128)
    requires
        lex_le(elapsed_key(a), elapsed_key(b)),
    ensures
        a <= b,
{
    let ka = elapsed_key(a);
    let kb = elapsed_key(b);
    let ai = a as int;
    let bi = b as int;
    let base: int = 0x1_0000_0000_0000_0000;
    assert(ai / base < base && bi / base < base) by (nonlinear_arith)
        requires 0 <= ai < base * base, 0 <= bi < base * base, base > 0;
    assert(ka[0] == ai / base && kb[0] == bi / base);
    assert(ka[1] == ai % base && kb[1] == bi % base);
    assert(ka.drop_first().drop_first().len() == 0);
    assert(ka.drop_first()[0] == ka[1]);
    assert(kb.drop_first()[0] == kb[1]);
    assert(ai == (ai / base) * base + ai % base) by (nonlinear_arith)
        requires base > 0;
    assert(bi == (bi / base) * base + bi % base) by (nonlinear_arith)
        requires base > 0;
    assert(ai / base <= bi / base);
    if ai / base < bi / base {
        assert((ai / base) * base + base <= (bi / base) * base) by (nonlinear_arith)
            requires ai / base < bi / base, base > 0;
    } else {
        let ta = ka.drop_first();
        let tb = kb.drop_first();
        assert(lex_le(ta, tb));
        assert(ta[0] <= tb[0]);
    }
}

/// The latency figures of a measured row come in order and bound the
/// successful samples: where any sample succeeded, minimum <= median <= maximum
/// and minimum <= p95 <= maximum (with median <= p95 whenever the p95 rank is
/// at least half the successful count), every successful elapsed time lies
/// between minimum and maximum, and both are elapsed times of successful
/// samples; where none succeeded, all four are unavailable.
pub proof fn law_aggregate_latency_order(
    candidate_id: Seq<char>,
    candidate_version: Seq<char>,
    operation: Seq<char>,
    scale: MeasurementFixtureScale,
    platform: Seq<char>,
    samples: Seq<MeasurementSampleView>,
    compaction_supported: bool,
    p95_rank: usize,
)
    requires
        !(operation == "compaction_where_supported"@ && !compaction_supported),
    ensures
        ({
            let r = aggregate_spec(
                candidate_id,
                candidate_version,
                operation,
                scale,
                platform,
                samples,
                compaction_supported,
                p95_rank,
            );
            let e = successful_elapsed(samples);
            &&& (r.minimum_ms is Some) == (e.len() > 0)
            &&& (r.median_ms is Some) == (e.len() > 0)
            &&& (r.p95_ms is Some) == (e.len() > 0)
            &&& (r.maximum_ms is Some) == (e.len() > 0)
            &&& e.len() > 0 ==> {
                let lo = r.minimum_ms.unwrap();
                let mid = r.median_ms.unwrap();
                let p95 = r.p95_ms.unwrap();
                let hi = r.maximum_ms.unwrap();
                &&& lo <= mid <= hi
                &&& lo <= p95 <= hi
                &&& p95_rank >= e.len() / 2 ==> mid <= p95
                &&& forall|k: int| 0 <= k < e.len() ==> lo <= #[trigger] e[k] <= hi
                &&& e.contains(lo)
                &&& e.contains(hi)
            }
        }),
{
    broadcast use vstd::seq_lib::group_to_multiset_ensures;

    let e = successful_elapsed(samples);
    let key = |x: u128| elapsed_key(x);
    lemma_sort_by_key_fn(e, key);
    let sorted = sorted_elapsed_spec(samples);
    assert(sorted == sort_by_keys_spec(e.map_values(key), e));
    let n = sorted.len();
    assert(n == e.len()) by {
        assert(sorted.to_multiset().len() == e.to_multiset().len());
    }
    assert forall|i: int, j: int| 0 <= i <= j < n implies sorted[i] <= sorted[j] by {
        if i < j {
            let ks = sorted.map_values(key);
            assert(lex_le(ks[i], ks[j]));
            lemma_elapsed_key_order(sorted[i], sorted[j]);
        }
    }
    if n > 0 {
        assert forall|k: int| 0 <= k < e.len() implies sorted[0] <= #[trigger] e[k] <= sorted[n - 1] by {
            assert(e.to_multiset().count(e[k]) > 0);
            assert(sorted.contains(e[k]));
            let m = choose|m: int| 0 <= m < n && sorted[m] == e[k];
        }
        assert(sorted.contains(sorted[0]));
        assert(sorted.contains(sorted[n - 1]));
        assert(e.to_multiset().count(sorted[0]) > 0);
        assert(e.to_multiset().count(sorted[n - 1]) > 0);
    }
}

/// The failures, largest successful peak memory and largest successful storage size.
fn sample_totals(samples: &Vec<MeasurementSample>) -> (r: (usize, u64, u64))
    ensures
        r.0 == failure_total(vec_view(samples@)),
        r.1 == successful_peak(vec_view(samples@)),
        r.2 == successful_storage_after(vec_view(samples@)),
{
    let ghost sv = vec_view(samples@);
    let mut failures: usize = 0;
    let mut peak: u64 = 0;
    let mut storage: u64 = 0;
    let mut i: usize = 0;
    while i < samples.len()
        invariant
            i <= samples.len(),
            sv == vec_view(samples@),
            failures == failure_total(sv.subrange(0, i as int)),
            failures <= i,
            peak == successful_peak(sv.subrange(0, i as int)),
            storage == successful_storage_after(sv.subrange(0, i as int)),
        decreases samples.len() - i,
    {
        proof {
            let prefix = sv.subrange(0, i as int);
            assert(sv.subrange(0, i + 1) =~= prefix.push(sv[i as int]));
            prefix.lemma_filter_push(sv[i as int], |s: MeasurementSampleView| !s.failed);
            prefix.lemma_filter_push(sv[i as int], |s: MeasurementSampleView| s.failed);
            let ok = prefix.filter(|s: MeasurementSampleView| !s.failed);
            let ok_peaks = ok.push(sv[i as int]).map_values(|s: MeasurementSampleView| s.peak_memory_bytes);
            assert(ok_peaks.drop_last() =~= ok.map_values(|s: MeasurementSampleView| s.peak_memory_bytes));
            let ok_storage = ok.push(sv[i as int]).map_values(|s: MeasurementSampleView| s.storage_size_after);
            assert(ok_storage.drop_last() =~= ok.map_values(|s: MeasurementSampleView| s.storage_size_after));
        }
        if samples[i].failed {
            failures = failures + 1;
        } else {
            if samples[i].peak_memory_bytes > peak {
                peak = samples[i].peak_memory_bytes;
            }
            if samples[i].storage_size_after > storage {
                storage = samples[i].storage_size_after;
            }
        }
        i = i + 1;
    }
    proof {
        assert(sv.subrange(0, samples.len() as int) =~= sv);
    }
    (failures, peak, storage)
}

/// Aggregates the samples of one operation at one scale; `p95_rank` is the
/// rank of the 95th percentile among the successful samples.
pub fn aggregate(
    candidate_id: &str,
    candidate_version: &str,
    operation: &str,
    scale: MeasurementFixtureScale,
    platform: &str,
    samples: &Vec<MeasurementSample>,
    compaction_supported: bool,
    p95_rank: usize,
) -> (r: MeasurementAggregate)
    ensures
        r@ == aggregate_spec(
            candidate_id@,
            candidate_version@,
            operation@,
            scale,
            platform@,
            vec_view(samples@),
            compaction_supported,
            p95_rank,
        ),
{
    if str_eq(operation, "compaction_where_supported") && !compaction_supported {
        return MeasurementAggregate {
            operation: String::from_str(operation),
            fixture_scale: scale,
            candidate_id: String::from_str(candidate_id),
            candidate_version: String::from_str(candidate_version),
            platform: String::from_str(platform),
            count: 0,
            minimum_ms: None,
            median_ms: None,
            p95_ms: None,
            maximum_ms: None,
            failure_count: 0,
            peak_memory_bytes: MetricAvailability::unavailable("compaction unsupported"),
            bytes_read: MetricAvailability::unavailable("not observed"),
            bytes_written: MetricAvailability::unavailable("not observed"),
            storage_size_before: MetricAvailability::unavailable("compaction unsupported"),
            storage_size_after: MetricAvailability::unavailable("compaction unsupported"),
        };
    }
    let sorted = sorted_successful_elapsed(samples);
    let n = sorted.len();
    let (failures, peak, storage) = sample_totals(samples);
    let minimum = if n > 0 { Some(sorted[0]) } else { None };
    let median = if n > 0 { Some(sorted[n / 2]) } else { None };
    let p95 = if n > 0 {
        if p95_rank < n - 1 { Some(sorted[p95_rank]) } else { Some(sorted[n - 1]) }
    } else {
        None
    };
    let maximum = if n > 0 { Some(sorted[n - 1]) } else { None };
    MeasurementAggregate {
        operation: String::from_str(operation),
        fixture_scale: scale,
        candidate_id: String::from_str(candidate_id),
        candidate_version: String::from_str(candidate_version),
        platform: String::from_str(platform),
        count: #[verifier::truncate] (samples.len() as u32),
        minimum_ms: minimum,
        median_ms: median,
        p95_ms: p95,
        maximum_ms: maximum,
        failure_count: #[verifier::truncate] (failures as u32),
        peak_memory_bytes: peak_metric(peak),
        bytes_read: MetricAvailability::unavailable("not observed"),
        bytes_written: MetricAvailability::unavailable("not observed"),
        storage_size_before: storage_before_metric(samples),
        storage_size_after: storage_metric(storage),
    }
}

/// One operation at one fixture scale: the block of samples a measurement
/// run takes of it, after its warm-up runs.
pub struct MeasurementBlock {
    pub operation: String,
    pub scale: MeasurementFixtureScale,
    pub sample_count: u32,
    pub warmup_count: u32,
}

/// The mathematical value of a [`MeasurementBlock`].
pub struct MeasurementBlockView {
    pub operation: Seq<char>,
    pub scale: MeasurementFixtureScale,
    pub sample_count: u32,
    pub warmup_count: u32,
}

impl View for MeasurementBlock {
    type V = MeasurementBlockView;

    open spec fn view(&self) -> MeasurementBlockView {
        MeasurementBlockView {
            operation: self.operation@,
            scale: self.scale,
            sample_count: self.sample_count,
            warmup_count: self.warmup_count,
        }
    }
}

/// The blocks of one operation, one per fixture scale, in order.
pub open spec fn op_blocks(op: MeasurementOperationSpecView) -> Seq<MeasurementBlockView> {
    op.fixture_scales.map_values(
        |s: MeasurementFixtureScale|
            MeasurementBlockView {
                operation: op.operation,
                scale: s,
                sample_count: op.sample_count,
                warmup_count: op.warmup_count,
            },
    )
}

/// The blocks of the operations, operation by operation, scale by scale.
pub open spec fn blocks_spec(ops: Seq<MeasurementOperationSpecView>) -> Seq<MeasurementBlockView>
    decreases ops.len(),
{
    if ops.len() == 0 {
        Seq::empty()
    } else {
        blocks_spec(ops.drop_last()) + op_blocks(ops.last())
    }
}

/// The blocks a measurement contract asks for, in the contract's order.
pub fn measurement_blocks(contract: &ComparativeMeasurementContract) -> (r: Vec<MeasurementBlock>)
    ensures
        vec_view(r@) == blocks_spec(contract@.operations),
{
    let ghost ops = contract@.operations;
    let mut out: Vec<MeasurementBlock> = Vec::new();
    let mut i: usize = 0;
    while i < contract.operations.len()
        invariant
            i <= contract.operations.len(),
            ops == contract@.operations,
            vec_view(out@) == blocks_spec(ops.subrange(0, i as int)),
        decreases contract.operations.len() - i,
    {
        let op = &contract.operations[i];
        let ghost before = vec_view(out@);
        let ghost opv = ops[i as int];
        assert(opv == op@);
        let mut j: usize = 0;
        while j < op.fixture_scales.len()
            invariant
                j <= op.fixture_scales.len(),
                opv == op@,
                vec_view(out@) == before + op_blocks(opv).subrange(0, j as int),
            decreases op.fixture_scales.len() - j,
        {
            let block = MeasurementBlock {
                operation: op.operation.clone(),
                scale: op.fixture_scales[j],
                sample_count: op.sample_count,
                warmup_count: op.warmup_count,
            };
            assert(block@ == op_blocks(opv)[j as int]);
            let ghost prev = vec_view(out@);
            out.push(block);
            proof {
                assert(vec_view(out@) =~= prev.push(op_blocks(opv)[j as int]));
                assert(op_blocks(opv).subrange(0, j + 1) =~= op_blocks(opv).subrange(0, j as int).push(
                    op_blocks(opv)[j as int],
                ));
            }
            j = j + 1;
            proof {
                assert(vec_view(out@) =~= before + op_blocks(opv).subrange(0, j as int));
            }
        }
        proof {
            assert(op_blocks(opv).subrange(0, j as int) =~= op_blocks(opv));
            let next = ops.subrange(0, i + 1);
            assert(next.drop_last() =~= ops.subrange(0, i as int));
            assert(next.last() == opv);
        }
        i = i + 1;
    }
    proof {
        assert(ops.subrange(0, ops.len() as int) =~= ops);
    }
    out
}

impl MeasurementBlock {
    /// The runs of each candidate the block takes: warm-up runs, then samples.
    pub fn total_runs(&self) -> (r: u32)
        requires
            self.sample_count + self.warmup_count <= u32::MAX,
        ensures
            r == self.sample_count + self.warmup_count,
    {
        self.sample_count + self.warmup_count
    }

    /// Whether run `index` of the block is recorded: the warm-up runs are not.
    pub fn records(&self, index: u32) -> (r: bool)
        ensures
            r == (index >= self.warmup_count),
    {
        index >= self.warmup_count
    }
}

/// The order both candidates take run `index` in: the append candidate first
/// on even runs, the SQLite candidate first on odd ones.
pub fn sample_order(index: u32) -> (r: (CurrentContractCandidateKind, CurrentContractCandidateKind))
    ensures
        r == (if index % 2 == 0 {
            (CurrentContractCandidateKind::Append, CurrentContractCandidateKind::Sqlite)
        } else {
            (CurrentContractCandidateKind::Sqlite, CurrentContractCandidateKind::Append)
        }),
{
    if index % 2 == 0 {
        (CurrentContractCandidateKind::Append, CurrentContractCandidateKind::Sqlite)
    } else {
        (CurrentContractCandidateKind::Sqlite, CurrentContractCandidateKind::Append)
    }
}

/// The rank of a fixture scale in the order scales sort in.
pub open spec fn scale_rank(s: MeasurementFixtureScale) -> u64 {
    match s {
        MeasurementFixtureScale::Small => 0,
        MeasurementFixtureScale::Medium => 1,
        MeasurementFixtureScale::Stress => 2,
    }
}

/// The sort key of a block: its operation's name, then its scale.
pub open spec fn block_key(b: MeasurementBlockView) -> Seq<u64> {
    text_key(b.operation) + seq![scale_rank(b.scale)]
}

/// The aggregates of one candidate over the blocks, with `samples[b]` the
/// recorded samples of block `b` and `p95_ranks[b]` the rank of their 95th
/// percentile, ordered by operation name, then scale.
pub open spec fn block_aggregates_spec(
    candidate_id: Seq<char>,
    candidate_version: Seq<char>,
    compaction_supported: bool,
    platform: Seq<char>,
    blocks: Seq<MeasurementBlockView>,
    samples: Seq<Seq<MeasurementSampleView>>,
    p95_ranks: Seq<usize>,
) -> Seq<MeasurementAggregateView> {
    sort_by_keys_spec(
        blocks.map_values(|b: MeasurementBlockView| block_key(b)),
        Seq::new(
            blocks.len(),
            |b: int|
                aggregate_spec(
                    candidate_id,
                    candidate_version,
                    blocks[b].operation,
                    blocks[b].scale,
                    platform,
                    samples[b],
                    compaction_supported,
                    p95_ranks[b],
                ),
        ),
    )
}

/// The sort key of a block.
fn block_sort_key(block: &MeasurementBlock) -> (r: Vec<u64>)
    ensures
        r@ == block_key(block@),
{
    let mut key: Vec<u64> = Vec::new();
    push_text_key(&mut key, &block.operation);
    let rank: u64 = match block.scale {
        MeasurementFixtureScale::Small => 0,
        MeasurementFixtureScale::Medium => 1,
        MeasurementFixtureScale::Stress => 2,
    };
    key.push(rank);
    proof {
        assert(key@ =~= block_key(block@));
    }
    key
}

/// Aggregates one candidate's recorded samples block by block, ordered by
/// operation name, then scale.
pub fn aggregate_blocks(
    candidate: &CurrentContractCandidate,
    platform: &str,
    blocks: &Vec<MeasurementBlock>,
    samples: &Vec<Vec<MeasurementSample>>,
    p95_ranks: &Vec<usize>,
) -> (r: Vec<MeasurementAggregate>)
    requires
        samples.len() == blocks.len(),
        p95_ranks.len() == blocks.len(),
    ensures
        vec_view(r@) == block_aggregates_spec(
            candidate.candidate_id_spec(),
            candidate.candidate_version_spec(),
            false,
            platform@,
            vec_view(blocks@),
            samples@.map_values(|v: Vec<MeasurementSample>| vec_view(v@)),
            p95_ranks@,
        ),
{
    let ghost bv = vec_view(blocks@);
    let ghost sv = samples@.map_values(|v: Vec<MeasurementSample>| vec_view(v@));
    let ghost want = Seq::new(
        bv.len(),
        |b: int|
            aggregate_spec(
                candidate.candidate_id_spec(),
                candidate.candidate_version_spec(),
                bv[b].operation,
                bv[b].scale,
                platform@,
                sv[b],
                false,
                p95_ranks@[b],
            ),
    );
    let mut rows: Vec<MeasurementAggregate> = Vec::new();
    let mut keys: Vec<Vec<u64>> = Vec::new();
    let mut b: usize = 0;
    while b < blocks.len()
        invariant
            b <= blocks.len(),
            samples.len() == blocks.len(),
            p95_ranks.len() == blocks.len(),
            bv == vec_view(blocks@),
            sv == samples@.map_values(|v: Vec<MeasurementSample>| vec_view(v@)),
            want.len() == bv.len(),
            forall|k: int| 0 <= k < bv.len() ==> #[trigger] want[k] == aggregate_spec(
                candidate.candidate_id_spec(),
                candidate.candidate_version_spec(),
                bv[k].operation,
                bv[k].scale,
                platform@,
                sv[k],
                false,
                p95_ranks@[k],
            ),
            rows@.len() == b,
            keys@.len() == b,
            forall|k: int| 0 <= k < b ==> (#[trigger] rows@[k])@ == want[k],
            forall|k: int| 0 <= k < b ==> (#[trigger] keys@[k])@ == block_key(bv[k]),
        decreases blocks.len() - b,
    {
        let block = &blocks[b];
        let row = aggregate(
            candidate.candidate_id(),
            candidate.candidate_version(),
            block.operation.as_str(),
            block.scale,
            platform,
            &samples[b],
            candidate.compaction_supported(),
            p95_ranks[b],
        );
        proof {
            assert(want[b as int] == aggregate_spec(
                candidate.candidate_id_spec(),
                candidate.candidate_version_spec(),
                bv[b as int].operation,
                bv[b as int].scale,
                platform@,
                sv[b as int],
                false,
                p95_ranks@[b as int],
            ));
        }
        rows.push(row);
        keys.push(block_sort_key(block));
        b = b + 1;
    }
    proof {
        assert(vec_view(rows@) =~= want);
        assert(keys_view(keys@) =~= bv.map_values(|x: MeasurementBlockView| block_key(x)));
        lemma_sort_by_keys_map(keys_view(keys@), rows@, |a: MeasurementAggregate| a@);
    }
    let sorted = sort_by_keys(rows, keys);
    sorted
}

} // verus!
