//! What the decisions of the store mean: when a file is covered, evidence is fresh, a store is
//! healthy, and a quality layer answers.

use vstd::prelude::*;
use crate::bindings::{binds, says};
use crate::context::{call_files, is_pack, pack_files};
use crate::coverage::{bucket_of, coverage_of, vector_status_of};
use crate::freshness::freshness_of;
use crate::generations::{
    embedding_columns, fast_embedding_values, fast_generation_values, generation_columns,
    is_routing, sums_up, RoutingFacts,
};
use crate::health::{
    counting, coverage_findings, coverage_health, cross_store_findings, dimension_drift,
    model_drift, neighborhood_findings, run_mismatch, storage_findings, Finding,
};
use crate::layers::{RepositoryRefKind, SemanticLayer, SemanticLayerStatus};
use crate::outline::{children_of, is_outline_row};
use crate::quality::{
    activation_reason, carried_values, completed_after, effective_dimension, eligible_chunks,
    ended_spec, is_activation, is_new_job, is_progress, jobs_with, layer_after, remaining,
    restarted_values, shared_dimension, status_after, QualityActivationFacts,
    QualityJobStatusCounts,
};
use crate::records::{
    CallSearchRow, ChunkEmbeddingRecord, ChunkVectorStatus, ConfidenceBucket, ContextPack,
    EmbeddingIndexMetadata, EvidenceFreshness, FastEmbeddingManifestRecord,
    FastSemanticGenerationInput, FileCoverageStatus, QualityActivationReason,
    QualityActivationSummary, QualityEmbeddingJobRecord, QualityGenerationProgress,
    QualityJobCompletion, SemanticGenerationRecord, SemanticLayerManifestAggregate,
    SemanticLayerManifestSummary, SemanticRoutingSummary, SqliteStorageSummary, StorageHealthStatus,
    SymbolOutlineRow, SymbolSearchRow, VectorStorageProjection,
};
use crate::repository::identity_of;
use crate::rows::{
    CarriedRow, ChunkProjectionCounts, StatusCount, SymbolOutlineBaseRow, UnembeddedRow,
};
use crate::sql::{lemma_size_round_trip, text, values, CommandView, FromRow, Real};
use crate::statement_laws::{
    law_mark_quality_job_excluded_says, law_mark_quality_job_failed_says,
    law_mark_quality_job_stale_says, law_mark_quality_job_succeeded_says,
    law_update_activation_says,
};
use crate::text::{decimal_digits, optional_text, texts};
use crate::watchers::known_or_spec;

verus! {

/// A file whose chunks are all excluded is excluded. Of the others, one with more embeddable
/// chunks than vectors misses vectors, one with as many, and some, is covered, and the rest is
/// metadata only.
pub proof fn law_coverage_compares_chunks_and_vectors(
    chunks: nat,
    embeddable: nat,
    backed: nat,
    excluded: nat,
)
    ensures
        ({
            let status = coverage_of(chunks, embeddable, backed, excluded);
            let left_out = chunks > 0 && excluded == chunks;
            &&& status == FileCoverageStatus::Excluded <==> left_out
            &&& status == FileCoverageStatus::MissingVector <==> !left_out && backed < embeddable
            &&& status == FileCoverageStatus::Covered <==> !left_out && backed == embeddable && backed
                > 0
            &&& status == FileCoverageStatus::MetadataOnly <==> !left_out && (backed > embeddable
                || embeddable == 0)
        }),
{
}

/// A chunk that is excluded is so whether it has a vector or not; any other chunk has a vector or
/// misses one.
pub proof fn law_chunks_have_a_vector_or_miss_it(has_vector: bool, excluded: bool)
    ensures
        vector_status_of(true, true) == ChunkVectorStatus::Excluded,
        vector_status_of(false, true) == ChunkVectorStatus::Excluded,
        vector_status_of(has_vector, excluded) == ChunkVectorStatus::VectorBacked <==> has_vector
            && !excluded,
        vector_status_of(has_vector, excluded) == ChunkVectorStatus::MissingVector <==> !has_vector
            && !excluded,
{
}

/// Confidence is high from 0.85 on, medium from 0.5 on and below 0.85, and low otherwise.
pub proof fn law_levels_start_at_their_bounds(confidence: Real)
    ensures
        ({
            let high = confidence.at_least_spec(Real { bits: 0x3feb_3333_3333_3333 });
            let medium = confidence.at_least_spec(Real { bits: 0x3fe0_0000_0000_0000 });
            &&& bucket_of(confidence) == ConfidenceBucket::High <==> high
            &&& bucket_of(confidence) == ConfidenceBucket::Medium <==> medium && !high
            &&& bucket_of(confidence) == ConfidenceBucket::Low <==> !medium
        }),
{
}

/// Evidence is stale where both hashes are known and differ, deleted where the file is gone,
/// missing where only the file is known, and unknown where nothing is.
pub proof fn law_freshness_compares_hashes(indexed: Option<Seq<char>>, current: Option<Seq<char>>)
    ensures
        ({
            let freshness = freshness_of(indexed, current);
            &&& freshness == EvidenceFreshness::Fresh <==> indexed is Some && current is Some
                && indexed->Some_0 == current->Some_0
            &&& freshness == EvidenceFreshness::Stale <==> indexed is Some && current is Some
                && indexed->Some_0 != current->Some_0
            &&& freshness == EvidenceFreshness::Deleted <==> indexed is Some && current is None
            &&& freshness == EvidenceFreshness::Missing <==> indexed is None && current is Some
            &&& freshness == EvidenceFreshness::Unknown <==> indexed is None && current is None
        }),
{
}

proof fn lemma_call_files(calls: Seq<CallSearchRow>, path: Seq<char>)
    ensures
        call_files(calls).contains(path) <==> exists|i: int|
            0 <= i < calls.len() && optional_text((#[trigger] calls[i]).path) == Some(path),
    decreases calls.len(),
{
    if calls.len() > 0 {
        let front = calls.drop_last();
        let last = calls.len() - 1;
        lemma_call_files(front, path);
        let files = call_files(front);
        if call_files(calls).contains(path) && !files.contains(path) {
            assert(optional_text(calls[last].path) == Some(path));
        }
        if files.contains(path) {
            let k = choose|k: int| 0 <= k < files.len() && files[k] == path;
            assert(call_files(calls)[k] == path);
            let i = choose|i: int|
                0 <= i < front.len() && optional_text((#[trigger] front[i]).path) == Some(path);
            assert(calls[i] == front[i]);
        }
        if exists|i: int|
            0 <= i < calls.len() && optional_text((#[trigger] calls[i]).path) == Some(path) {
            let i = choose|i: int|
                0 <= i < calls.len() && optional_text((#[trigger] calls[i]).path) == Some(path);
            if i < last {
                assert(front[i] == calls[i]);
            } else {
                assert(call_files(calls).last() == path);
            }
        }
    }
}

/// A pack holds the first symbols, callers and callees, in their order and each kind up to the
/// limit, which lies between 1 and 25. A path is among its files exactly when one of these rows
/// stands in it.
pub proof fn law_packs_hold_the_first_rows(
    pack: ContextPack,
    repository_id: Seq<char>,
    query: Seq<char>,
    limit: usize,
    symbols: Seq<SymbolSearchRow>,
    callers: Seq<CallSearchRow>,
    callees: Seq<CallSearchRow>,
    for_ref: bool,
    path: Seq<char>,
)
    requires
        is_pack(pack, repository_id, query, limit, symbols, callers, callees, for_ref),
    ensures
        ({
            let most = if limit == 0 {
                1
            } else if limit > 25 {
                25
            } else {
                limit as int
            };
            &&& pack.repository_id@ == repository_id
            &&& pack.query@ == query
            &&& pack.focus_symbols@.len() == if symbols.len() < most {
                symbols.len() as int
            } else {
                most
            }
            &&& pack.direct_callers@.len() == if callers.len() < most {
                callers.len() as int
            } else {
                most
            }
            &&& pack.direct_callees@.len() == if callees.len() < most {
                callees.len() as int
            } else {
                most
            }
            &&& forall|i: int|
                0 <= i < pack.focus_symbols@.len() ==> #[trigger] pack.focus_symbols@[i]
                    == symbols[i]
            &&& forall|i: int|
                0 <= i < pack.direct_callers@.len() ==> #[trigger] pack.direct_callers@[i]
                    == callers[i]
            &&& forall|i: int|
                0 <= i < pack.direct_callees@.len() ==> #[trigger] pack.direct_callees@[i]
                    == callees[i]
            &&& texts(pack.files@).contains(path) <==> {
                ||| exists|i: int|
                    0 <= i < pack.focus_symbols@.len() && (#[trigger] pack.focus_symbols@[i]).path@
                        == path
                ||| exists|i: int|
                    0 <= i < pack.direct_callers@.len() && optional_text(
                        (#[trigger] pack.direct_callers@[i]).path,
                    ) == Some(path)
                ||| exists|i: int|
                    0 <= i < pack.direct_callees@.len() && optional_text(
                        (#[trigger] pack.direct_callees@[i]).path,
                    ) == Some(path)
            }
        }),
{
    let focus = pack.focus_symbols@;
    let before = call_files(pack.direct_callers@);
    let behind = call_files(pack.direct_callees@);
    let own = crate::context::symbol_files(focus);
    let files = pack_files(focus, pack.direct_callers@, pack.direct_callees@);
    lemma_call_files(pack.direct_callers@, path);
    lemma_call_files(pack.direct_callees@, path);
    if files.contains(path) {
        let k = choose|k: int| 0 <= k < files.len() && files[k] == path;
        if k < own.len() {
            assert(focus[k].path@ == path);
        } else if k < own.len() + before.len() {
            assert(before[k - own.len()] == path);
        } else {
            assert(behind[k - own.len() - before.len()] == path);
        }
    }
    if exists|i: int| 0 <= i < focus.len() && (#[trigger] focus[i]).path@ == path {
        let i = choose|i: int| 0 <= i < focus.len() && (#[trigger] focus[i]).path@ == path;
        assert(files[i] == path);
    }
    if before.contains(path) {
        let k = choose|k: int| 0 <= k < before.len() && before[k] == path;
        assert(files[own.len() + k] == path);
    }
    if behind.contains(path) {
        let k = choose|k: int| 0 <= k < behind.len() && behind[k] == path;
        assert(files[own.len() + before.len() + k] == path);
    }
}

/// One where a condition holds, else none.
pub open spec fn counted_if(condition: bool) -> nat {
    if condition {
        1
    } else {
        0
    }
}

/// The health of a store tells a missing repository as an error, and missing index runs, missing
/// vectors and excluded chunks, with their number, as warnings: each exactly where it applies, and
/// nothing else. Where none applies the store is healthy.
pub proof fn law_storage_health_tells_what_is_wrong(
    sqlite: SqliteStorageSummary,
    vector: VectorStorageProjection,
)
    ensures
        ({
            let list = storage_findings(sqlite, vector);
            let n = counted_if(sqlite.repositories == 0) + counted_if(sqlite.index_runs == 0)
                + counted_if(vector.missing_vector_chunks > 0) + counted_if(
                vector.excluded_chunks > 0,
            );
            &&& n > 0 ==> list.len() == n
            &&& n == 0 ==> list.len() == 1 && list[0].status == StorageHealthStatus::Healthy
                && list[0].label == "coverage_ok"@
            &&& sqlite.repositories == 0 ==> tells(
                list,
                StorageHealthStatus::Error,
                "repository_missing"@,
            )
            &&& sqlite.index_runs == 0 ==> tells(
                list,
                StorageHealthStatus::Warning,
                "no_index_runs"@,
            )
            &&& vector.missing_vector_chunks > 0 ==> tells_number(
                list,
                StorageHealthStatus::Warning,
                "missing_vectors"@,
                vector.missing_vector_chunks,
            )
            &&& vector.excluded_chunks > 0 ==> tells_number(
                list,
                StorageHealthStatus::Warning,
                "excluded_chunks"@,
                vector.excluded_chunks,
            )
        }),
{
    let list = storage_findings(sqlite, vector);
    let a = counted_if(sqlite.repositories == 0) as int;
    let b = a + counted_if(sqlite.index_runs == 0);
    let c = b + counted_if(vector.missing_vector_chunks > 0);
    if sqlite.repositories == 0 {
        assert(list[0].label == "repository_missing"@);
    }
    if sqlite.index_runs == 0 {
        assert(list[a].label == "no_index_runs"@);
    }
    if vector.missing_vector_chunks > 0 {
        assert(list[b].detail == counting(
            vector.missing_vector_chunks,
            " embeddable chunks do not have vector point IDs."@,
        ));
        lemma_starts_with_number(
            vector.missing_vector_chunks,
            " embeddable chunks do not have vector point IDs."@,
        );
    }
    if vector.excluded_chunks > 0 {
        assert(list[c].detail == counting(
            vector.excluded_chunks,
            " chunks are intentionally metadata-only."@,
        ));
        lemma_starts_with_number(
            vector.excluded_chunks,
            " chunks are intentionally metadata-only."@,
        );
    }
}

/// A list of findings tells one of a kind.
pub open spec fn tells(
    list: Seq<Finding>,
    status: StorageHealthStatus,
    label: Seq<char>,
) -> bool {
    exists|i: int|
        0 <= i < list.len() && (#[trigger] list[i]).status == status && list[i].label == label
}

/// A list of findings tells one of a kind, whose detail begins with a number.
pub open spec fn tells_number(
    list: Seq<Finding>,
    status: StorageHealthStatus,
    label: Seq<char>,
    n: usize,
) -> bool {
    exists|i: int|
        0 <= i < list.len() && (#[trigger] list[i]).status == status && list[i].label == label
            && begins_with(list[i].detail, decimal_digits(n as nat))
}

/// A text begins with another one.
pub open spec fn begins_with(whole: Seq<char>, start: Seq<char>) -> bool {
    whole.len() >= start.len() && whole.take(start.len() as int) == start
}

proof fn lemma_starts_with_number(n: usize, what: Seq<char>)
    ensures
        begins_with(counting(n, what), decimal_digits(n as nat)),
{
    assert(counting(n, what).take(decimal_digits(n as nat).len() as int) =~= decimal_digits(
        n as nat,
    ));
}

/// The coverage of embeddings tells, each exactly where it applies and nothing else: missing
/// vectors and excluded chunks with their number, the lack of a run where chunks could be embedded,
/// a model other than the configured one and a missing dimension as errors, a run that embedded
/// another number of chunks than have vectors, and the lack of chunks.
pub proof fn law_coverage_health_tells_what_is_wrong(
    chunks_indexed: usize,
    projection: ChunkProjectionCounts,
    latest: Option<EmbeddingIndexMetadata>,
    configured: Seq<char>,
)
    ensures
        ({
            let list = coverage_findings(chunks_indexed, projection, latest, configured);
            let no_run = projection.embeddable_chunks > 0 && latest is None;
            let other_model = latest is Some && latest->Some_0.embedding_model@ != configured;
            let no_dimension = latest is Some && latest->Some_0.embedding_dimension is None;
            let other_count = latest is Some && latest->Some_0.chunks_embedded
                != projection.vector_backed_chunks;
            let n = counted_if(projection.missing_vector_chunks > 0) + counted_if(
                projection.excluded_chunks > 0,
            ) + counted_if(no_run) + counted_if(other_model) + counted_if(no_dimension)
                + counted_if(other_count) + counted_if(chunks_indexed == 0);
            &&& list.len() == n
            &&& coverage_health(chunks_indexed, projection, latest, configured) == if n == 0 {
                coverage_health(chunks_indexed, projection, latest, configured).take(1)
            } else {
                list
            }
            &&& n == 0 ==> tells(
                coverage_health(chunks_indexed, projection, latest, configured),
                StorageHealthStatus::Healthy,
                "embedding_coverage_ok"@,
            )
            &&& projection.missing_vector_chunks > 0 ==> tells_number(
                list,
                StorageHealthStatus::Warning,
                "missing_vectors"@,
                projection.missing_vector_chunks,
            )
            &&& projection.excluded_chunks > 0 ==> tells_number(
                list,
                StorageHealthStatus::Warning,
                "excluded_chunks"@,
                projection.excluded_chunks,
            )
            &&& no_run ==> tells(list, StorageHealthStatus::Warning, "no_embedding_run"@)
            &&& other_model ==> tells(list, StorageHealthStatus::Error, "model_drift"@)
            &&& no_dimension ==> tells(list, StorageHealthStatus::Error, "dimension_missing"@)
            &&& other_count ==> tells(list, StorageHealthStatus::Warning, "run_count_mismatch"@)
            &&& chunks_indexed == 0 ==> tells(list, StorageHealthStatus::Warning, "no_chunks"@)
        }),
{
    let list = coverage_findings(chunks_indexed, projection, latest, configured);
    let no_run = projection.embeddable_chunks > 0 && latest is None;
    let other_model = latest is Some && latest->Some_0.embedding_model@ != configured;
    let no_dimension = latest is Some && latest->Some_0.embedding_dimension is None;
    let other_count = latest is Some && latest->Some_0.chunks_embedded
        != projection.vector_backed_chunks;
    let a = counted_if(projection.missing_vector_chunks > 0) as int;
    let b = a + counted_if(projection.excluded_chunks > 0);
    let c = b + counted_if(no_run);
    let d = c + counted_if(other_model);
    let e = d + counted_if(no_dimension);
    let f = e + counted_if(other_count);
    let health = coverage_health(chunks_indexed, projection, latest, configured);
    assert(list.len() == f + counted_if(chunks_indexed == 0));
    if list.len() == 0 {
        assert(health.take(1) =~= health);
        assert(health[0].label == "embedding_coverage_ok"@);
    }
    if projection.missing_vector_chunks > 0 {
        assert(list[0].label == "missing_vectors"@);
        lemma_starts_with_number(
            projection.missing_vector_chunks,
            " embeddable chunks have no recorded vector point ID."@,
        );
    }
    if projection.excluded_chunks > 0 {
        assert(list[a].label == "excluded_chunks"@);
        lemma_starts_with_number(
            projection.excluded_chunks,
            " chunks are intentionally excluded from embeddings."@,
        );
    }
    if no_run {
        assert(list[b].label == "no_embedding_run"@);
    }
    if other_model {
        assert(list[c].label == "model_drift"@);
    }
    if no_dimension {
        assert(list[d].label == "dimension_missing"@);
    }
    if other_count {
        assert(list[e].label == "run_count_mismatch"@);
    }
    if chunks_indexed == 0 {
        assert(list[f].label == "no_chunks"@);
    }
}

/// The health across both stores tells, each exactly where it applies and nothing else: a missing
/// collection as an error where chunks could be embedded but no run was recorded or no chunk has a
/// vector, missing vectors and excluded chunks with their number, a model other than the
/// configured one and several dimensions as errors.
pub proof fn law_cross_store_health_tells_what_is_wrong(
    projection: ChunkProjectionCounts,
    latest: Option<EmbeddingIndexMetadata>,
    configured: Seq<char>,
    projected: Seq<char>,
    dimensions: Seq<usize>,
)
    ensures
        ({
            let list = cross_store_findings(projection, latest, configured, projected, dimensions);
            let no_collection = projection.embeddable_chunks > 0 && (latest is None
                || projection.vector_backed_chunks == 0);
            let other_model = latest is Some && latest->Some_0.embedding_model@ != configured;
            let n = counted_if(no_collection) + counted_if(projection.missing_vector_chunks > 0)
                + counted_if(projection.excluded_chunks > 0) + counted_if(other_model) + counted_if(
                dimensions.len() > 1,
            );
            &&& n > 0 ==> list.len() == n
            &&& n == 0 ==> list.len() == 1 && list[0].status == StorageHealthStatus::Healthy
                && list[0].label == "cross_store_ok"@
            &&& no_collection ==> tells(list, StorageHealthStatus::Error, "missing_collection"@)
            &&& projection.missing_vector_chunks > 0 ==> tells_number(
                list,
                StorageHealthStatus::Warning,
                "missing_vectors"@,
                projection.missing_vector_chunks,
            )
            &&& projection.excluded_chunks > 0 ==> tells_number(
                list,
                StorageHealthStatus::Warning,
                "excluded_chunks"@,
                projection.excluded_chunks,
            )
            &&& other_model ==> tells(list, StorageHealthStatus::Error, "model_drift"@)
            &&& dimensions.len() > 1 ==> tells(list, StorageHealthStatus::Error, "dimension_drift"@)
        }),
{
    let list = cross_store_findings(projection, latest, configured, projected, dimensions);
    let no_collection = projection.embeddable_chunks > 0 && (latest is None
        || projection.vector_backed_chunks == 0);
    let other_model = latest is Some && latest->Some_0.embedding_model@ != configured;
    let a = counted_if(no_collection) as int;
    let b = a + counted_if(projection.missing_vector_chunks > 0);
    let c = b + counted_if(projection.excluded_chunks > 0);
    let d = c + counted_if(other_model);
    if no_collection {
        assert(list[0].label == "missing_collection"@);
    }
    if projection.missing_vector_chunks > 0 {
        assert(list[a].label == "missing_vectors"@);
        lemma_starts_with_number(
            projection.missing_vector_chunks,
            " embeddable chunks are missing recorded vector point IDs."@,
        );
    }
    if projection.excluded_chunks > 0 {
        assert(list[b].label == "excluded_chunks"@);
        lemma_starts_with_number(
            projection.excluded_chunks,
            " chunks are intentionally excluded from semantic embedding."@,
        );
    }
    if other_model {
        assert(list[c].label == "model_drift"@);
    }
    if dimensions.len() > 1 {
        assert(list[d].label == "dimension_drift"@);
    }
}

/// The neighborhood has one finding: a warning without vectors, else their number.
pub proof fn law_neighborhood_health_tells_the_number(rows: nat)
    ensures
        neighborhood_findings(rows).len() == 1,
        rows == 0 ==> tells(
            neighborhood_findings(rows),
            StorageHealthStatus::Warning,
            "no_vector_payloads"@,
        ),
        rows > 0 ==> tells(
            neighborhood_findings(rows),
            StorageHealthStatus::Healthy,
            "metadata_only"@,
        ) && begins_with(neighborhood_findings(rows)[0].detail, decimal_digits(rows)),
{
    if rows > 0 {
        assert(neighborhood_findings(rows)[0].detail.take(decimal_digits(rows).len() as int)
            =~= decimal_digits(rows));
        assert(neighborhood_findings(rows)[0].label == "metadata_only"@);
    } else {
        assert(neighborhood_findings(rows)[0].label == "no_vector_payloads"@);
    }
}

/// The texts of findings name what they are about: both models, both numbers, or the model and
/// every dimension.
pub proof fn law_findings_name_what_differs(
    configured: Seq<char>,
    indexed: Seq<char>,
    embedded: usize,
    recorded: usize,
    dimensions: Seq<usize>,
)
    ensures
        model_drift(configured, indexed).len() > configured.len() + indexed.len(),
        holds(model_drift(configured, indexed), " "@ + configured + " differs"@),
        holds(model_drift(configured, indexed), "model "@ + indexed + "."@),
        holds(
            run_mismatch(embedded, recorded),
            "embedded "@ + decimal_digits(embedded as nat) + " chunks"@,
        ),
        holds(
            run_mismatch(embedded, recorded),
            "records "@ + decimal_digits(recorded as nat) + " vector-backed"@,
        ),
        holds(dimension_drift(configured, dimensions), "model "@ + configured + " recorded"@),
{
    reveal_strlit("Configured model ");
    reveal_strlit(" ");
    reveal_strlit(" differs");
    reveal_strlit(" differs from latest indexed model ");
    reveal_strlit("model ");
    reveal_strlit(".");
    reveal_strlit("Latest run embedded ");
    reveal_strlit(" chunks, while SQLite records ");
    reveal_strlit(" vector-backed chunks.");
    reveal_strlit("embedded ");
    reveal_strlit(" chunks");
    reveal_strlit("records ");
    reveal_strlit(" vector-backed");
    reveal_strlit("Successful runs for model ");
    reveal_strlit(" recorded multiple dimensions: ");
    reveal_strlit(" recorded");
    let drift = model_drift(configured, indexed);
    assert(drift.subrange(16, 25 + configured.len() as int) =~= " "@ + configured + " differs"@);
    let at = configured.len() as int + 46;
    assert(drift.subrange(at, at + 7 + indexed.len()) =~= "model "@ + indexed + "."@);
    let mismatch = run_mismatch(embedded, recorded);
    let e = decimal_digits(embedded as nat);
    let r = decimal_digits(recorded as nat);
    assert(mismatch.subrange(11, 27 + e.len() as int) =~= "embedded "@ + e + " chunks"@);
    let from = 42 + e.len() as int;
    assert(mismatch.subrange(from, from + 22 + r.len()) =~= "records "@ + r
        + " vector-backed"@);
    let dims = dimension_drift(configured, dimensions);
    assert(dims.subrange(20, 35 + configured.len() as int)
        =~= "model "@ + configured + " recorded"@);
}

/// A text holds another one.
pub open spec fn holds(whole: Seq<char>, part: Seq<char>) -> bool {
    exists|a: int, b: int| 0 <= a <= b <= whole.len() && #[trigger] whole.subrange(a, b) == part
}

/// A quality layer is not active for the first of these reasons that applies, in this order: its
/// generation is not the latest, has no quality model, no dimension, no embeddable chunk; jobs are
/// pending or running, failed, or stale. Without any of them it is complete exactly when every
/// embeddable chunk is embedded or excluded.
pub proof fn law_reasons_come_in_order(
    is_latest: bool,
    has_model: bool,
    dimension: Option<usize>,
    embeddable: usize,
    embedded: usize,
    c: QualityJobStatusCounts,
    previous: SemanticLayerStatus,
)
    ensures
        ({
            let reason = activation_reason(
                is_latest,
                has_model,
                dimension,
                embeddable,
                embedded,
                c,
                previous,
            );
            let open = c.pending_jobs > 0 || c.running_jobs > 0;
            let known = is_latest && has_model && dimension is Some && embeddable > 0;
            let done = known && !open && c.failed_jobs == 0 && c.skipped_stale_jobs == 0;
            let whole = embedded + c.skipped_excluded_jobs == embeddable;
            &&& reason == QualityActivationReason::GenerationNotLatest <==> !is_latest
            &&& reason == QualityActivationReason::QualityModelMissing <==> is_latest && !has_model
            &&& reason == QualityActivationReason::QualityDimensionMissing <==> is_latest
                && has_model && dimension is None
            &&& reason == QualityActivationReason::NoEmbeddableChunks <==> is_latest && has_model
                && dimension is Some && embeddable == 0
            &&& reason == QualityActivationReason::QualityJobsPending <==> known && open
            &&& reason == QualityActivationReason::QualityJobsFailed <==> known && !open
                && c.failed_jobs > 0
            &&& reason == QualityActivationReason::QualityJobsStale <==> known && !open
                && c.failed_jobs == 0 && c.skipped_stale_jobs > 0
            &&& reason == QualityActivationReason::QualityComplete <==> done && whole
            &&& reason == QualityActivationReason::QualityBlocked <==> done && !whole && previous
                == SemanticLayerStatus::QualityBlocked
            &&& reason == QualityActivationReason::QualityStale <==> done && !whole && previous
                == SemanticLayerStatus::QualityStale
        }),
{
}

/// A layer becomes ready only by being complete, fails only by failed jobs, waits where jobs are
/// open or stale or chunks are missing, and is left as it was otherwise. Only a complete quality
/// layer answers, and only then is the time of its completion stored.
pub proof fn law_states_follow_reasons(
    reason: QualityActivationReason,
    previous: SemanticLayerStatus,
    layer: SemanticLayer,
    at: Seq<char>,
)
    ensures
        ({
            let complete = reason == QualityActivationReason::QualityComplete;
            let failed = reason == QualityActivationReason::QualityJobsFailed;
            let waits = reason == QualityActivationReason::QualityJobsPending || reason
                == QualityActivationReason::QualityJobsStale || reason
                == QualityActivationReason::QualityCoverageIncomplete;
            &&& complete ==> status_after(reason, previous) == SemanticLayerStatus::QualityReady
            &&& failed ==> status_after(reason, previous) == SemanticLayerStatus::QualityFailed
            &&& waits ==> status_after(reason, previous) == SemanticLayerStatus::QualityPending
            &&& !complete && !failed && !waits ==> status_after(reason, previous) == previous
            &&& complete ==> layer_after(reason, layer) == SemanticLayer::Quality
            &&& reason == QualityActivationReason::GenerationNotLatest ==> layer_after(
                reason,
                layer,
            ) == layer
            &&& !complete && reason != QualityActivationReason::GenerationNotLatest ==> layer_after(
                reason,
                layer,
            ) == SemanticLayer::Fast
            &&& completed_after(reason, at) == if complete {
                Some(at)
            } else {
                None
            }
        }),
{
}

/// A dimension that is stored is never replaced; one that is given counts only without it.
pub proof fn law_stored_dimensions_stay(stored: usize, given: Option<usize>)
    ensures
        effective_dimension(Some(stored), given) == Some(stored),
        effective_dimension(None, given) == given,
{
}

/// What a refresh of the latest generation stores is what it reports: the state, the active layer
/// and the number of embeddings of the generation asked for. A generation that is not the latest
/// is not changed.
pub proof fn law_refreshes_store_what_they_report(
    summary: QualityActivationSummary,
    steps: Seq<CommandView>,
    repository_id: Seq<char>,
    generation_id: Seq<char>,
    given: Option<usize>,
    at: Seq<char>,
    facts: QualityActivationFacts,
    c: QualityJobStatusCounts,
)
    requires
        is_activation(summary, steps, repository_id, generation_id, given, at, facts, c),
    ensures
        ({
            let g = SemanticGenerationRecord::of(facts.generation@[0]@);
            let is_latest = String::of(facts.latest@[0]@)@ == g.id@;
            &&& summary.repository_id@ == repository_id
            &&& summary.generation_id@ == generation_id
            &&& Some(summary.previous_status) == SemanticLayerStatus::named(g.quality_status@)
                || SemanticLayerStatus::named(g.quality_status@) is None
            &&& !is_latest ==> steps == seq![CommandView::Commit]
            &&& is_latest ==> steps.len() == 2 && steps[1] == CommandView::Commit && (
            steps[0] matches CommandView::Execute(s) && {
                &&& binds(s, "repository_id = "@, text(repository_id))
                &&& binds(s, "id = "@, text(generation_id))
                &&& binds(s, "quality_status = "@, text(summary.quality_status.text()))
                &&& binds(s, "active_layer = "@, text(summary.active_layer.text()))
                &&& binds(s, "updated_at = "@, text(at))
                &&& binds(
                    s,
                    "quality_embedded_chunks = "@,
                    crate::sql::count(summary.progress.quality_embedded_chunks),
                )
            })
        }),
{
    let g = SemanticGenerationRecord::of(facts.generation@[0]@);
    let previous = SemanticLayerStatus::named(g.quality_status@)->Some_0;
    let layer = SemanticLayer::named(g.active_layer@)->Some_0;
    let embedded = i64::of(facts.embedded@[0]@) as usize;
    let dimension = effective_dimension(g.quality_dimension, given);
    let reason = summary.reason;
    law_update_activation_says(
        repository_id,
        generation_id,
        dimension,
        at,
        embedded,
        status_after(reason, previous).text(),
        completed_after(reason, at),
        layer_after(reason, layer).text(),
    );
}

/// The chunks that a quality layer has to hold are those that can be embedded without those that
/// were excluded, and progress tells every count of jobs by its own state.
pub proof fn law_progress_tells_every_count(
    p: QualityGenerationProgress,
    repository_id: Seq<char>,
    generation_id: Seq<char>,
    embeddable: usize,
    embedded: usize,
    c: QualityJobStatusCounts,
)
    requires
        is_progress(p, repository_id, generation_id, embeddable, embedded, c),
    ensures
        p.embeddable_chunks == embeddable,
        p.quality_embedded_chunks == embedded,
        p.quality_ineligible_chunks == p.skipped_excluded_jobs,
        p.skipped_excluded_jobs <= embeddable ==> p.quality_eligible_chunks
            + p.quality_ineligible_chunks == embeddable,
        p.skipped_excluded_jobs > embeddable ==> p.quality_eligible_chunks == 0,
        p.pending_jobs == c.pending_jobs,
        p.running_jobs == c.running_jobs,
        p.succeeded_jobs == c.succeeded_jobs,
        p.failed_jobs == c.failed_jobs,
        p.skipped_stale_jobs == c.skipped_stale_jobs,
        p.skipped_excluded_jobs == c.skipped_excluded_jobs,
{
}

/// The jobs of a state are those that the row of the state counts, and none without such a row.
pub proof fn law_jobs_are_counted_by_state(counts: Seq<StatusCount>, status: Seq<char>, i: int)
    requires
        forall|j: int, k: int|
            0 <= j < k < counts.len() ==> (#[trigger] counts[j]).status@ != (
            #[trigger] counts[k]).status@,
    ensures
        0 <= i < counts.len() && counts[i].status@ == status ==> jobs_with(counts, status)
            == counts[i].jobs as usize,
        (forall|j: int| 0 <= j < counts.len() ==> (#[trigger] counts[j]).status@ != status)
            ==> jobs_with(counts, status) == 0,
    decreases counts.len(),
{
    if counts.len() > 0 {
        let front = counts.drop_last();
        let last = counts.len() - 1;
        assert forall|j: int, k: int| 0 <= j < k < front.len() implies (
        #[trigger] front[j]).status@ != (#[trigger] front[k]).status@ by {
            assert(front[j] == counts[j] && front[k] == counts[k]);
        }
        law_jobs_are_counted_by_state(front, status, i);
        assert(counts.last() == counts[last]);
        if 0 <= i < counts.len() && counts[i].status@ == status && i < last {
            assert(front[i] == counts[i]);
            assert(counts[i].status@ != counts[last].status@);
        }
        if forall|j: int| 0 <= j < counts.len() ==> (#[trigger] counts[j]).status@ != status {
            assert forall|j: int| 0 <= j < front.len() implies (#[trigger] front[j]).status@
                != status by {
                assert(front[j] == counts[j]);
            }
        }
    }
}

/// A job ends in the state of its completion, at the time given, with the reason where there is
/// one: no other job is changed.
pub proof fn law_jobs_end_as_they_were_completed(
    job_id: Seq<char>,
    completion: QualityJobCompletion,
    at: Seq<char>,
)
    ensures
        ({
            let s = ended_spec(job_id, completion, at);
            &&& says(s.sql, "UPDATE quality_embedding_jobs"@)
            &&& binds(s, "id = "@, text(job_id))
            &&& binds(s, "updated_at = "@, text(at))
            &&& match completion {
                QualityJobCompletion::Succeeded { embedding } => says(
                    s.sql,
                    "status = 'succeeded'"@,
                ) && says(s.sql, "error_summary = NULL"@),
                QualityJobCompletion::Failed { error_summary } => says(s.sql, "status = 'failed'"@)
                    && binds(s, "error_summary = "@, text(error_summary@)),
                QualityJobCompletion::SkippedStale => says(s.sql, "status = 'skipped_stale'"@)
                    && says(s.sql, "error_summary = NULL"@),
                QualityJobCompletion::SkippedExcluded { reason } => says(
                    s.sql,
                    "status = 'skipped_excluded'"@,
                ) && binds(s, "error_summary = "@, text(reason@)),
            }
        }),
{
    law_mark_quality_job_succeeded_says(job_id, at);
    law_mark_quality_job_stale_says(job_id, at);
    match completion {
        QualityJobCompletion::Failed { error_summary } => {
            law_mark_quality_job_failed_says(job_id, error_summary@, at);
        },
        QualityJobCompletion::SkippedExcluded { reason } => {
            law_mark_quality_job_excluded_says(job_id, reason@, at);
        },
        _ => {},
    }
}

/// A new job waits, untried and without an error, for the chunk, file and hashes of its row.
pub proof fn law_new_jobs_wait_for_their_chunk(
    job: QualityEmbeddingJobRecord,
    repository_id: Seq<char>,
    generation_id: Seq<char>,
    row: UnembeddedRow,
    id: Seq<char>,
    at: Seq<char>,
)
    requires
        is_new_job(job, repository_id, generation_id, row, id, at),
    ensures
        job.status@ == "pending"@,
        job.attempts == 0,
        job.error_summary is None,
        job.repository_id@ == repository_id,
        job.generation_id@ == generation_id,
        job.chunk_id@ == row.chunk_id@,
        job.file_id@ == row.file_id@,
        job.path@ == row.path@,
        job.content_hash@ == row.content_hash@,
        job.text_hash@ == row.text_hash@,
        job.created_at@ == at,
        job.updated_at@ == at,
{
}

/// An embedding that is carried over to a generation is read back as a current embedding of the
/// quality layer of that generation, for the chunk and with the vector that it had.
pub proof fn law_carried_embeddings_keep_their_vector(
    repository_id: Seq<char>,
    generation_id: Seq<char>,
    model: Seq<char>,
    row: CarriedRow,
    id: Seq<char>,
    rowid: i64,
    e: ChunkEmbeddingRecord,
)
    requires
        values(embedding_columns(e, rowid)) == carried_values(
            repository_id,
            generation_id,
            model,
            row,
            id,
            rowid as int,
        ),
    ensures
        e.id@ == id,
        e.repository_id@ == repository_id,
        e.generation_id@ == generation_id,
        e.semantic_layer@ == "quality"@,
        e.embedding_model@ == model,
        e.embedding_dimension == row.embedding_dimension,
        e.file_id@ == row.file_id@,
        e.chunk_id@ == row.chunk_id@,
        e.content_hash@ == row.content_hash@,
        e.text_hash@ == row.text_hash@,
        e.vector_table@ == row.vector_table@,
        e.vector_point_id@ == row.vector_point_id@,
        e.embedded_at@ == row.embedded_at@,
        e.status@ == "current"@,
{
    let read = values(embedding_columns(e, rowid));
    let given = carried_values(repository_id, generation_id, model, row, id, rowid as int);
    assert forall|i: int| 0 <= i < 15 implies #[trigger] read[i] == given[i] by {}
    assert(read[0] == given[0] && read[1] == given[1] && read[2] == given[2] && read[3] == given[3]);
    assert(read[4] == given[4] && read[5] == given[5] && read[6] == given[6] && read[7] == given[7]);
    assert(read[8] == given[8] && read[9] == given[9] && read[10] == given[10]);
    assert(read[12] == given[12] && read[13] == given[13] && read[14] == given[14]);
    lemma_size_round_trip(e.embedding_dimension);
    lemma_size_round_trip(row.embedding_dimension);
}

/// An embedding that a fast generation stores is read back as a current embedding of the fast
/// layer of that generation, for the chunk of its entry.
pub proof fn law_fast_embeddings_are_those_of_the_manifest(
    input: FastSemanticGenerationInput<'_>,
    generation_id: Seq<char>,
    id: Seq<char>,
    entry: FastEmbeddingManifestRecord,
    rowid: i64,
    e: ChunkEmbeddingRecord,
)
    requires
        values(embedding_columns(e, rowid)) == fast_embedding_values(
            input,
            generation_id,
            id,
            entry,
            rowid as int,
        ),
    ensures
        e.id@ == id,
        e.repository_id@ == input.repository_id@,
        e.generation_id@ == generation_id,
        e.semantic_layer@ == "fast"@,
        e.embedding_model@ == input.fast_model@,
        e.embedding_dimension == input.fast_dimension,
        e.vector_table@ == input.vector_table@,
        e.embedded_at@ == input.completed_at@,
        e.file_id@ == entry.file_id@,
        e.chunk_id@ == entry.chunk_id@,
        e.content_hash@ == entry.content_hash@,
        e.text_hash@ == entry.text_hash@,
        e.vector_point_id@ == entry.vector_point_id@,
        e.status@ == "current"@,
{
    let read = values(embedding_columns(e, rowid));
    let given = fast_embedding_values(input, generation_id, id, entry, rowid as int);
    assert(read[0] == given[0] && read[1] == given[1] && read[2] == given[2] && read[3] == given[3]);
    assert(read[4] == given[4] && read[5] == given[5] && read[6] == given[6] && read[7] == given[7]);
    assert(read[8] == given[8] && read[9] == given[9] && read[10] == given[10]);
    assert(read[12] == given[12] && read[13] == given[13] && read[14] == given[14]);
    lemma_size_round_trip(e.embedding_dimension);
    lemma_size_round_trip(input.fast_dimension);
}

/// A new fast generation is read back as one without a quality layer, answered by the fast layer,
/// with as many embedded as embeddable chunks, completed when it was recorded.
pub proof fn law_new_generations_are_fast(
    input: FastSemanticGenerationInput<'_>,
    generation_id: Seq<char>,
    chunks: usize,
    g: SemanticGenerationRecord,
)
    requires
        values(generation_columns(g)) == fast_generation_values(input, generation_id, chunks),
    ensures
        g.id@ == generation_id,
        g.repository_id@ == input.repository_id@,
        g.fast_model@ == input.fast_model@,
        g.fast_dimension == input.fast_dimension,
        g.fast_completed_at@ == input.completed_at@,
        g.quality_model is None,
        g.quality_dimension is None,
        g.quality_status@ == "fast_ready"@,
        g.quality_started_at is None,
        g.quality_completed_at is None,
        g.active_layer@ == "fast"@,
        g.files_seen == input.files_seen,
        g.embeddable_chunks == chunks,
        g.fast_embedded_chunks == chunks,
        g.quality_embedded_chunks == 0,
        g.created_at@ == input.completed_at@,
        g.updated_at@ == input.completed_at@,
{
    let read = values(generation_columns(g));
    let given = fast_generation_values(input, generation_id, chunks);
    assert(read[0] == given[0] && read[1] == given[1] && read[2] == given[2] && read[3] == given[3]);
    assert(read[4] == given[4] && read[5] == given[5] && read[6] == given[6] && read[7] == given[7]);
    assert(read[8] == given[8] && read[9] == given[9] && read[10] == given[10]);
    assert(read[11] == given[11] && read[12] == given[12] && read[13] == given[13]);
    assert(read[14] == given[14] && read[15] == given[15] && read[16] == given[16]);
    lemma_size_round_trip(g.fast_dimension);
    lemma_size_round_trip(input.fast_dimension);
    lemma_size_round_trip(g.files_seen);
    lemma_size_round_trip(input.files_seen);
    lemma_size_round_trip(g.embeddable_chunks);
    lemma_size_round_trip(g.fast_embedded_chunks);
    lemma_size_round_trip(chunks);
    lemma_size_round_trip(g.quality_embedded_chunks);
    lemma_size_round_trip(0);
}

/// A generation whose quality layer starts anew keeps its fast layer and is answered by it; its
/// quality layer has the given model and state, and no dimension and no times yet.
pub proof fn law_restarts_keep_the_fast_layer(
    g: SemanticGenerationRecord,
    model: Seq<char>,
    status: SemanticLayerStatus,
    at: Seq<char>,
    after: SemanticGenerationRecord,
)
    requires
        values(generation_columns(after)) == restarted_values(g, model, status, at),
    ensures
        after.id@ == g.id@,
        after.repository_id@ == g.repository_id@,
        after.fast_model@ == g.fast_model@,
        after.fast_dimension == g.fast_dimension,
        after.fast_completed_at@ == g.fast_completed_at@,
        optional_text(after.quality_model) == Some(model),
        after.quality_dimension is None,
        after.quality_status@ == status.text(),
        after.quality_started_at is None,
        after.quality_completed_at is None,
        after.active_layer@ == "fast"@,
        after.files_seen == g.files_seen,
        after.embeddable_chunks == g.embeddable_chunks,
        after.fast_embedded_chunks == g.fast_embedded_chunks,
        after.quality_embedded_chunks == g.quality_embedded_chunks,
        after.created_at@ == g.created_at@,
        after.updated_at@ == at,
{
    let read = values(generation_columns(after));
    let given = restarted_values(g, model, status, at);
    assert(read[0] == given[0] && read[1] == given[1] && read[2] == given[2] && read[3] == given[3]);
    assert(read[4] == given[4] && read[5] == given[5] && read[6] == given[6] && read[7] == given[7]);
    assert(read[8] == given[8] && read[9] == given[9] && read[10] == given[10]);
    assert(read[11] == given[11] && read[12] == given[12] && read[13] == given[13]);
    assert(read[14] == given[14] && read[15] == given[15] && read[16] == given[16]);
    lemma_size_round_trip(after.fast_dimension);
    lemma_size_round_trip(g.fast_dimension);
    lemma_size_round_trip(after.files_seen);
    lemma_size_round_trip(g.files_seen);
    lemma_size_round_trip(after.embeddable_chunks);
    lemma_size_round_trip(g.embeddable_chunks);
    lemma_size_round_trip(after.fast_embedded_chunks);
    lemma_size_round_trip(g.fast_embedded_chunks);
    lemma_size_round_trip(after.quality_embedded_chunks);
    lemma_size_round_trip(g.quality_embedded_chunks);
}

/// Embeddings that are carried over have a dimension in common exactly when there are some and
/// all have it.
pub proof fn law_shared_dimensions_are_those_of_all(rows: Seq<CarriedRow>, dimension: usize)
    ensures
        shared_dimension(rows) == Some(dimension) <==> rows.len() > 0 && forall|i: int|
            0 <= i < rows.len() ==> (#[trigger] rows[i]).embedding_dimension == dimension,
{
    if shared_dimension(rows) == Some(dimension) {
        assert(rows[0].embedding_dimension == dimension);
    }
    if rows.len() > 0 && forall|i: int|
        0 <= i < rows.len() ==> (#[trigger] rows[i]).embedding_dimension == dimension {
        assert(rows[0].embedding_dimension == dimension);
    }
}

/// A layer is summed up with the counts of its embeddings, each under its own state. It is
/// complete exactly when as many chunks as expected are current, and there are no others.
pub proof fn law_layers_are_complete_when_all_is_current(
    s: SemanticLayerManifestSummary,
    layer: SemanticLayer,
    expected: usize,
    a: SemanticLayerManifestAggregate,
)
    requires
        sums_up(s, layer, expected, a),
    ensures
        s.semantic_layer == layer,
        s.embedding_model@ == a.embedding_model@,
        s.vector_table@ == a.vector_table@,
        s.embedding_dimension == a.embedding_dimension,
        s.expected_chunks == expected,
        s.current_chunks == a.current_chunks,
        s.stale_chunks == a.stale_chunks,
        s.blocked_chunks == a.blocked_chunks,
        s.failed_chunks == a.failed_chunks,
        s.other_chunks == a.other_chunks,
        s.total_chunks == a.total_chunks,
        s.is_complete <==> s.current_chunks == s.expected_chunks && s.total_chunks
            == s.expected_chunks && s.stale_chunks + s.blocked_chunks + s.failed_chunks
            + s.other_chunks == 0,
{
}

/// Routing tells the layer that answers and the state of the quality layer as they are stored. The
/// fast layer is expected to hold all embeddable chunks, the quality layer those that are left
/// without the excluded ones, and neither is mistaken for the other.
pub proof fn law_routing_tells_both_layers(
    s: SemanticRoutingSummary,
    g: SemanticGenerationRecord,
    facts: RoutingFacts,
)
    requires
        is_routing(s, g, facts),
    ensures
        s.repository_id@ == g.repository_id@,
        s.generation_id@ == g.id@,
        SemanticLayer::named(g.active_layer@) == Some(s.active_layer),
        SemanticLayerStatus::named(g.quality_status@) == Some(s.quality_status),
        s.embeddable_chunks == g.embeddable_chunks,
        s.fast_embedded_chunks == g.fast_embedded_chunks,
        s.quality_embedded_chunks == g.quality_embedded_chunks,
        s.fast.semantic_layer == SemanticLayer::Fast,
        s.fast.expected_chunks == g.embeddable_chunks,
        facts.fast@.len() == 0 ==> s.fast.embedding_model@ == g.fast_model@ && s.fast.total_chunks
            == 0,
        s.quality matches Some(quality) ==> quality.semantic_layer == SemanticLayer::Quality
            && quality.expected_chunks == eligible_chunks(facts.progress),
        s.quality is None <==> (g.quality_model is None || g.quality_dimension is None)
            && facts.quality@.len() == 0,
{
}

/// What is left of chunks without the excluded ones.
pub proof fn law_excluded_chunks_are_taken_away(embeddable: usize, excluded: usize)
    ensures
        excluded <= embeddable ==> remaining(embeddable, excluded) + excluded == embeddable,
        excluded > embeddable ==> remaining(embeddable, excluded) == 0,
{
}

/// A branch or another ref is known by its name, a detached head by its commit, and a directory
/// outside of Git by neither.
pub proof fn law_refs_are_known_by_what_they_are(
    name: Seq<char>,
    other_name: Option<Seq<char>>,
    oid: Seq<char>,
    other_oid: Option<Seq<char>>,
)
    ensures
        identity_of(RepositoryRefKind::Branch, Some(name), other_oid) == name,
        identity_of(RepositoryRefKind::Other, Some(name), other_oid) == name,
        identity_of(RepositoryRefKind::Detached, other_name, Some(oid)) == oid,
        identity_of(RepositoryRefKind::NonGit, other_name, other_oid) == "working-tree"@,
        identity_of(RepositoryRefKind::Branch, None, other_oid) == "unknown"@,
        identity_of(RepositoryRefKind::Other, None, other_oid) == "unknown"@,
        identity_of(RepositoryRefKind::Detached, other_name, None) == "unknown"@,
{
}

/// A time that is known is kept, and one that is not is now.
pub proof fn law_known_times_are_kept(timestamp: Option<String>, now: Seq<char>)
    ensures
        timestamp matches Some(time) ==> known_or_spec(timestamp, now) == time@,
        timestamp is None ==> known_or_spec(timestamp, now) == now,
{
}

/// The number of children of a symbol goes up by one with every symbol below it, and only then.
pub proof fn law_children_are_those_with_the_parent(
    bases: Seq<SymbolOutlineBaseRow>,
    base: SymbolOutlineBaseRow,
    id: Seq<char>,
)
    ensures
        children_of(Seq::empty(), id) == 0,
        children_of(bases.push(base), id) == children_of(bases, id) + if optional_text(
            base.parent_symbol_id,
        ) == Some(id) {
            1int
        } else {
            0
        },
{
    assert(bases.push(base).drop_last() =~= bases);
    assert(bases.push(base).last() == base);
}

/// A row of an outline tells what its symbol is called, of which kind it is and where it stands.
pub proof fn law_outline_rows_tell_their_symbol(
    r: SymbolOutlineRow,
    base: SymbolOutlineBaseRow,
    bases: Seq<SymbolOutlineBaseRow>,
)
    requires
        is_outline_row(r, base, bases),
    ensures
        r.id@ == base.id@,
        optional_text(r.parent_symbol_id) == optional_text(base.parent_symbol_id),
        r.kind@ == base.kind@,
        r.name@ == base.name@,
        r.qualified_name@ == base.qualified_name@,
        r.path@ == base.path@,
        r.start_line == base.start_line,
        r.end_line == base.end_line,
        base.parent_symbol_id is None <==> r.depth == 0,
{
    reveal_with_fuel(crate::outline::height, 2);
}

} // verus!
