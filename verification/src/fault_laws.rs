//! What keeps an answer from being read, and the names and numbers that are written and read back.

use vstd::prelude::*;
use crate::context::is_pack;
use crate::decision_laws::holds;
use crate::error::{Fault, StoreError};
use crate::facts::{displaced, unreferenced, FileReplacement};
use crate::generations::{aggregate_fault, layer_fault, routing_fault, RoutingFacts};
use crate::health::{dimension_drift, listed};
use crate::layers::{RepositoryRefKind, SemanticLayer, SemanticLayerStatus};
use crate::lease::{tells_owner, WriterLeaseKind};
use crate::naming::{
    hex_digits, hex_value, is_hex, is_point_id, is_rowid, is_white_space, parsed_hex, rowid_of,
};
use crate::qdrant::{is_refusal, is_request, HttpMethod, HttpRequest, Refusal};
use crate::quality::{
    activation_fault, progress_fault, refresh_fault, tally_fault, QualityActivationFacts,
    QualityGenerationFacts,
};
use crate::records::{
    CallSearchRow, ConfidenceBucket, ContextPack, EmbeddingExclusionRow, EmbeddingIndexMetadata,
    EvidenceFreshness, FileCallDetailRow, FileChunkDetailRow, FileSymbolDetailRow,
    QualityActivationReason, RepositoryRefRecord, SemanticGenerationRecord,
    SemanticLayerManifestAggregate, SymbolSearchRow,
};
use crate::rows::{ChunkProjectionCounts, StatusCount};
use crate::runs::is_dimension_change;
use crate::schema::{escaped, index_info_spec, opening_steps, table_info_spec};
use crate::sql::{
    all_of, bad_row, counted_as, counted_fault, first_fault, first_read_as, lemma_bad_row, mismatch,
    only_fault, only_read_as, rows_fault, rows_read_as, text, CommandView, FromRow, Row,
};
use crate::summaries::{
    cross_store_fault, detail_fault, embedding_fault, status_fault, storage_fault, CrossStoreFacts,
    EmbeddingFacts, FileDetailFacts, RepositoryFacts, StorageFacts,
};
use crate::text::{decimal_digits, digit, texts};
use crate::vector::{delete_preparation, is_error, prepare_script, StoreErrorView};

verus! {

/// The names of all kinds of `SemanticLayer`, which tell the kinds apart.
pub proof fn law_semantic_layer_names_tell_kinds_apart(a: SemanticLayer, b: SemanticLayer)
    ensures
        a.text() == b.text() <==> a == b,
        SemanticLayer::Fast.text() == "fast"@,
        SemanticLayer::Quality.text() == "quality"@,
{
    reveal_strlit("fast");
    reveal_strlit("quality");
    assert("fast"@.len() != "quality"@.len());
}

/// The names of all kinds of `SemanticLayerStatus`, which tell the kinds apart.
pub proof fn law_semantic_layer_status_names_tell_kinds_apart(
    a: SemanticLayerStatus,
    b: SemanticLayerStatus,
)
    ensures
        a.text() == b.text() <==> a == b,
        SemanticLayerStatus::Missing.text() == "missing"@,
        SemanticLayerStatus::FastReady.text() == "fast_ready"@,
        SemanticLayerStatus::QualityPending.text() == "quality_pending"@,
        SemanticLayerStatus::QualityReady.text() == "quality_ready"@,
        SemanticLayerStatus::QualityStale.text() == "quality_stale"@,
        SemanticLayerStatus::QualityBlocked.text() == "quality_blocked"@,
        SemanticLayerStatus::QualityFailed.text() == "quality_failed"@,
{
    reveal_strlit("missing");
    reveal_strlit("fast_ready");
    reveal_strlit("quality_pending");
    reveal_strlit("quality_ready");
    reveal_strlit("quality_stale");
    reveal_strlit("quality_blocked");
    reveal_strlit("quality_failed");
    assert("missing"@.len() != "fast_ready"@.len());
    assert("missing"@.len() != "quality_pending"@.len());
    assert("missing"@.len() != "quality_ready"@.len());
    assert("missing"@.len() != "quality_stale"@.len());
    assert("missing"@.len() != "quality_blocked"@.len());
    assert("missing"@.len() != "quality_failed"@.len());
    assert("fast_ready"@.len() != "quality_pending"@.len());
    assert("fast_ready"@.len() != "quality_ready"@.len());
    assert("fast_ready"@.len() != "quality_stale"@.len());
    assert("fast_ready"@.len() != "quality_blocked"@.len());
    assert("fast_ready"@.len() != "quality_failed"@.len());
    assert("quality_pending"@.len() != "quality_ready"@.len());
    assert("quality_pending"@.len() != "quality_stale"@.len());
    assert("quality_pending"@[8] != "quality_blocked"@[8]);
    assert("quality_pending"@.len() != "quality_failed"@.len());
    assert("quality_ready"@[8] != "quality_stale"@[8]);
    assert("quality_ready"@.len() != "quality_blocked"@.len());
    assert("quality_ready"@.len() != "quality_failed"@.len());
    assert("quality_stale"@.len() != "quality_blocked"@.len());
    assert("quality_stale"@.len() != "quality_failed"@.len());
    assert("quality_blocked"@.len() != "quality_failed"@.len());
}

/// The names of all kinds of `RepositoryRefKind`, which tell the kinds apart.
pub proof fn law_repository_ref_kind_names_tell_kinds_apart(
    a: RepositoryRefKind,
    b: RepositoryRefKind,
)
    ensures
        a.text() == b.text() <==> a == b,
        RepositoryRefKind::Branch.text() == "branch"@,
        RepositoryRefKind::Detached.text() == "detached"@,
        RepositoryRefKind::Other.text() == "other"@,
        RepositoryRefKind::NonGit.text() == "non_git"@,
{
    reveal_strlit("branch");
    reveal_strlit("detached");
    reveal_strlit("other");
    reveal_strlit("non_git");
    assert("branch"@.len() != "detached"@.len());
    assert("branch"@.len() != "other"@.len());
    assert("branch"@.len() != "non_git"@.len());
    assert("detached"@.len() != "other"@.len());
    assert("detached"@.len() != "non_git"@.len());
    assert("other"@.len() != "non_git"@.len());
}

/// The names of all kinds of `EvidenceFreshness`, which tell the kinds apart.
pub proof fn law_evidence_freshness_names_tell_kinds_apart(
    a: EvidenceFreshness,
    b: EvidenceFreshness,
)
    ensures
        a.text() == b.text() <==> a == b,
        EvidenceFreshness::Fresh.text() == "fresh"@,
        EvidenceFreshness::Stale.text() == "stale"@,
        EvidenceFreshness::Deleted.text() == "deleted"@,
        EvidenceFreshness::Missing.text() == "missing"@,
        EvidenceFreshness::Unknown.text() == "unknown"@,
{
    reveal_strlit("fresh");
    reveal_strlit("stale");
    reveal_strlit("deleted");
    reveal_strlit("missing");
    reveal_strlit("unknown");
    assert("fresh"@[0] != "stale"@[0]);
    assert("fresh"@.len() != "deleted"@.len());
    assert("fresh"@.len() != "missing"@.len());
    assert("fresh"@.len() != "unknown"@.len());
    assert("stale"@.len() != "deleted"@.len());
    assert("stale"@.len() != "missing"@.len());
    assert("stale"@.len() != "unknown"@.len());
    assert("deleted"@[0] != "missing"@[0]);
    assert("deleted"@[0] != "unknown"@[0]);
    assert("missing"@[0] != "unknown"@[0]);
}

/// The names of all kinds of `WriterLeaseKind`, which tell the kinds apart.
pub proof fn law_writer_lease_kind_names_tell_kinds_apart(a: WriterLeaseKind, b: WriterLeaseKind)
    ensures
        a.text() == b.text() <==> a == b,
        WriterLeaseKind::Init.text() == "init"@,
        WriterLeaseKind::ManualIndex.text() == "manual_index"@,
        WriterLeaseKind::WatcherDaemon.text() == "watcher_daemon"@,
        WriterLeaseKind::WatcherForeground.text() == "watcher_foreground"@,
        WriterLeaseKind::WatcherLauncher.text() == "watcher_launcher"@,
        WriterLeaseKind::QualityIndex.text() == "quality_index"@,
        WriterLeaseKind::VectorRepair.text() == "vector_repair"@,
        WriterLeaseKind::Maintenance.text() == "maintenance"@,
{
    reveal_strlit("init");
    reveal_strlit("manual_index");
    reveal_strlit("watcher_daemon");
    reveal_strlit("watcher_foreground");
    reveal_strlit("watcher_launcher");
    reveal_strlit("quality_index");
    reveal_strlit("vector_repair");
    reveal_strlit("maintenance");
    assert("init"@.len() != "manual_index"@.len());
    assert("init"@.len() != "watcher_daemon"@.len());
    assert("init"@.len() != "watcher_foreground"@.len());
    assert("init"@.len() != "watcher_launcher"@.len());
    assert("init"@.len() != "quality_index"@.len());
    assert("init"@.len() != "vector_repair"@.len());
    assert("init"@.len() != "maintenance"@.len());
    assert("manual_index"@.len() != "watcher_daemon"@.len());
    assert("manual_index"@.len() != "watcher_foreground"@.len());
    assert("manual_index"@.len() != "watcher_launcher"@.len());
    assert("manual_index"@.len() != "quality_index"@.len());
    assert("manual_index"@.len() != "vector_repair"@.len());
    assert("manual_index"@.len() != "maintenance"@.len());
    assert("watcher_daemon"@.len() != "watcher_foreground"@.len());
    assert("watcher_daemon"@.len() != "watcher_launcher"@.len());
    assert("watcher_daemon"@.len() != "quality_index"@.len());
    assert("watcher_daemon"@.len() != "vector_repair"@.len());
    assert("watcher_daemon"@.len() != "maintenance"@.len());
    assert("watcher_foreground"@.len() != "watcher_launcher"@.len());
    assert("watcher_foreground"@.len() != "quality_index"@.len());
    assert("watcher_foreground"@.len() != "vector_repair"@.len());
    assert("watcher_foreground"@.len() != "maintenance"@.len());
    assert("watcher_launcher"@.len() != "quality_index"@.len());
    assert("watcher_launcher"@.len() != "vector_repair"@.len());
    assert("watcher_launcher"@.len() != "maintenance"@.len());
    assert("quality_index"@[0] != "vector_repair"@[0]);
    assert("quality_index"@.len() != "maintenance"@.len());
    assert("vector_repair"@.len() != "maintenance"@.len());
}

/// The names of all kinds of `QualityActivationReason`, which tell the kinds apart.
pub proof fn law_quality_activation_reason_names_tell_kinds_apart(
    a: QualityActivationReason,
    b: QualityActivationReason,
)
    ensures
        a.text() == b.text() <==> a == b,
        QualityActivationReason::QualityComplete.text() == "quality_complete"@,
        QualityActivationReason::GenerationNotLatest.text() == "generation_not_latest"@,
        QualityActivationReason::QualityModelMissing.text() == "quality_model_missing"@,
        QualityActivationReason::QualityDimensionMissing.text() == "quality_dimension_missing"@,
        QualityActivationReason::NoEmbeddableChunks.text() == "no_embeddable_chunks"@,
        QualityActivationReason::QualityCoverageIncomplete.text() == "quality_coverage_incomplete"@,
        QualityActivationReason::QualityJobsPending.text() == "quality_jobs_pending"@,
        QualityActivationReason::QualityJobsFailed.text() == "quality_jobs_failed"@,
        QualityActivationReason::QualityJobsStale.text() == "quality_jobs_stale"@,
        QualityActivationReason::QualityBlocked.text() == "quality_blocked"@,
        QualityActivationReason::QualityStale.text() == "quality_stale"@,
{
    reveal_strlit("quality_complete");
    reveal_strlit("generation_not_latest");
    reveal_strlit("quality_model_missing");
    reveal_strlit("quality_dimension_missing");
    reveal_strlit("no_embeddable_chunks");
    reveal_strlit("quality_coverage_incomplete");
    reveal_strlit("quality_jobs_pending");
    reveal_strlit("quality_jobs_failed");
    reveal_strlit("quality_jobs_stale");
    reveal_strlit("quality_blocked");
    reveal_strlit("quality_stale");
    assert("quality_complete"@.len() != "generation_not_latest"@.len());
    assert("quality_complete"@.len() != "quality_model_missing"@.len());
    assert("quality_complete"@.len() != "quality_dimension_missing"@.len());
    assert("quality_complete"@.len() != "no_embeddable_chunks"@.len());
    assert("quality_complete"@.len() != "quality_coverage_incomplete"@.len());
    assert("quality_complete"@.len() != "quality_jobs_pending"@.len());
    assert("quality_complete"@.len() != "quality_jobs_failed"@.len());
    assert("quality_complete"@.len() != "quality_jobs_stale"@.len());
    assert("quality_complete"@.len() != "quality_blocked"@.len());
    assert("quality_complete"@.len() != "quality_stale"@.len());
    assert("generation_not_latest"@[0] != "quality_model_missing"@[0]);
    assert("generation_not_latest"@.len() != "quality_dimension_missing"@.len());
    assert("generation_not_latest"@.len() != "no_embeddable_chunks"@.len());
    assert("generation_not_latest"@.len() != "quality_coverage_incomplete"@.len());
    assert("generation_not_latest"@.len() != "quality_jobs_pending"@.len());
    assert("generation_not_latest"@.len() != "quality_jobs_failed"@.len());
    assert("generation_not_latest"@.len() != "quality_jobs_stale"@.len());
    assert("generation_not_latest"@.len() != "quality_blocked"@.len());
    assert("generation_not_latest"@.len() != "quality_stale"@.len());
    assert("quality_model_missing"@.len() != "quality_dimension_missing"@.len());
    assert("quality_model_missing"@.len() != "no_embeddable_chunks"@.len());
    assert("quality_model_missing"@.len() != "quality_coverage_incomplete"@.len());
    assert("quality_model_missing"@.len() != "quality_jobs_pending"@.len());
    assert("quality_model_missing"@.len() != "quality_jobs_failed"@.len());
    assert("quality_model_missing"@.len() != "quality_jobs_stale"@.len());
    assert("quality_model_missing"@.len() != "quality_blocked"@.len());
    assert("quality_model_missing"@.len() != "quality_stale"@.len());
    assert("quality_dimension_missing"@.len() != "no_embeddable_chunks"@.len());
    assert("quality_dimension_missing"@.len() != "quality_coverage_incomplete"@.len());
    assert("quality_dimension_missing"@.len() != "quality_jobs_pending"@.len());
    assert("quality_dimension_missing"@.len() != "quality_jobs_failed"@.len());
    assert("quality_dimension_missing"@.len() != "quality_jobs_stale"@.len());
    assert("quality_dimension_missing"@.len() != "quality_blocked"@.len());
    assert("quality_dimension_missing"@.len() != "quality_stale"@.len());
    assert("no_embeddable_chunks"@.len() != "quality_coverage_incomplete"@.len());
    assert("no_embeddable_chunks"@[0] != "quality_jobs_pending"@[0]);
    assert("no_embeddable_chunks"@.len() != "quality_jobs_failed"@.len());
    assert("no_embeddable_chunks"@.len() != "quality_jobs_stale"@.len());
    assert("no_embeddable_chunks"@.len() != "quality_blocked"@.len());
    assert("no_embeddable_chunks"@.len() != "quality_stale"@.len());
    assert("quality_coverage_incomplete"@.len() != "quality_jobs_pending"@.len());
    assert("quality_coverage_incomplete"@.len() != "quality_jobs_failed"@.len());
    assert("quality_coverage_incomplete"@.len() != "quality_jobs_stale"@.len());
    assert("quality_coverage_incomplete"@.len() != "quality_blocked"@.len());
    assert("quality_coverage_incomplete"@.len() != "quality_stale"@.len());
    assert("quality_jobs_pending"@.len() != "quality_jobs_failed"@.len());
    assert("quality_jobs_pending"@.len() != "quality_jobs_stale"@.len());
    assert("quality_jobs_pending"@.len() != "quality_blocked"@.len());
    assert("quality_jobs_pending"@.len() != "quality_stale"@.len());
    assert("quality_jobs_failed"@.len() != "quality_jobs_stale"@.len());
    assert("quality_jobs_failed"@.len() != "quality_blocked"@.len());
    assert("quality_jobs_failed"@.len() != "quality_stale"@.len());
    assert("quality_jobs_stale"@.len() != "quality_blocked"@.len());
    assert("quality_jobs_stale"@.len() != "quality_stale"@.len());
    assert("quality_blocked"@.len() != "quality_stale"@.len());
}

/// The names of all kinds of `ConfidenceBucket`, which tell the kinds apart.
pub proof fn law_confidence_bucket_names_tell_kinds_apart(a: ConfidenceBucket, b: ConfidenceBucket)
    ensures
        a.text() == b.text() <==> a == b,
        ConfidenceBucket::High.text() == "high"@,
        ConfidenceBucket::Medium.text() == "medium"@,
        ConfidenceBucket::Low.text() == "low"@,
{
    reveal_strlit("high");
    reveal_strlit("medium");
    reveal_strlit("low");
    assert("high"@.len() != "medium"@.len());
    assert("high"@.len() != "low"@.len());
    assert("medium"@.len() != "low"@.len());
}

/// The number that decimal digits stand for.
pub open spec fn number(digits: Seq<char>) -> nat
    decreases digits.len(),
{
    if digits.len() == 0 {
        0
    } else {
        10 * number(digits.drop_last()) + ((digits.last() as int - '0' as int) as nat)
    }
}

/// A number in decimal digits can be read back.
pub proof fn law_decimal_digits_can_be_read_back(n: nat)
    ensures
        number(decimal_digits(n)) == n,
        decimal_digits(n).len() > 0,
        n >= 10 ==> decimal_digits(n)[0] != '0',
    decreases n,
{
    if n < 10 {
        reveal_with_fuel(number, 2);
        assert(decimal_digits(n).drop_last() =~= Seq::empty());
    } else {
        law_decimal_digits_can_be_read_back(n / 10);
        assert(decimal_digits(n).drop_last() =~= decimal_digits(n / 10));
        if n / 10 < 10 {
            assert(decimal_digits(n / 10)[0] == digit(n / 10));
        }
    }
}

/// Rows are read as records exactly when every one of them can be, in their order.
pub proof fn law_rows_are_read_in_order<T: FromRow>(
    r: Result<Vec<T>, StoreError>,
    rows: Seq<Row>,
    i: int,
)
    requires
        rows_read_as::<T>(r, rows),
    ensures
        r is Ok <==> forall|j: int|
            0 <= j < rows.len() ==> mismatch((#[trigger] rows[j])@, T::fields()) is None,
        r matches Ok(list) ==> list@.len() == rows.len() && (0 <= i < rows.len() ==> list@[i]
            == T::of(rows[i]@)),
        rows_fault::<T>(rows) is None <==> r is Ok,
{
    lemma_bad_row::<T>(rows, 0);
    lemma_readable::<T>(rows, 0);
}

proof fn lemma_readable<T: FromRow>(rows: Seq<Row>, from: int)
    requires
        0 <= from <= rows.len(),
    ensures
        bad_row::<T>(rows, from) is None <==> forall|j: int|
            from <= j < rows.len() ==> mismatch((#[trigger] rows[j])@, T::fields()) is None,
        bad_row::<T>(rows, from) matches Some(j) ==> from <= j < rows.len() && mismatch(
            rows[j]@,
            T::fields(),
        ) is Some,
    decreases rows.len() - from,
{
    if from < rows.len() {
        lemma_readable::<T>(rows, from + 1);
    }
}

/// The first row is read where there is one; the only row has to be there.
pub proof fn law_first_rows_are_read<T: FromRow>(
    first: Result<Option<T>, StoreError>,
    only: Result<T, StoreError>,
    rows: Seq<Row>,
)
    requires
        first_read_as::<T>(first, rows),
        only_read_as::<T>(only, rows),
    ensures
        rows.len() == 0 ==> first == Ok::<Option<T>, StoreError>(None) && only == Err::<T, StoreError>(
            StoreError::NoRows,
        ),
        rows.len() > 0 && mismatch(rows[0]@, T::fields()) is None ==> first == Ok::<
            Option<T>,
            StoreError,
        >(Some(T::of(rows[0]@))) && only == Ok::<T, StoreError>(T::of(rows[0]@)),
        rows.len() > 0 && mismatch(rows[0]@, T::fields()) is Some ==> first is Err && only is Err,
        first_fault::<T>(rows) is None <==> first is Ok,
        only_fault::<T>(rows) is None <==> only is Ok,
{
}

/// A count is taken where it is one, and refused by name where it is negative.
pub proof fn law_counts_are_taken_where_they_fit(
    r: Result<usize, StoreError>,
    value: i64,
    label: Seq<char>,
)
    requires
        counted_as(r, value, label),
    ensures
        value < 0 ==> (r matches Err(StoreError::UnexpectedResponse(message)) && message@
            == "negative "@ + label),
        0 <= value <= 0xffff_ffff ==> r == Ok::<usize, StoreError>(value as usize),
{
    assert(usize::MAX >= 0xffff_ffff);
}

/// A status can be told exactly when all of its seven answers can be read, and it is refused for
/// one of them.
pub proof fn law_statuses_are_refused_for_an_answer(facts: RepositoryFacts)
    ensures
        ({
            let files = counted_fault(facts.files@, "file count"@);
            let chunks = counted_fault(facts.chunks@, "chunk count"@);
            let symbols = counted_fault(facts.symbols@, "symbols count"@);
            let calls = counted_fault(facts.calls@, "call count"@);
            let at = only_fault::<Option<String>>(facts.last_indexed_at@);
            let run = first_fault::<EmbeddingIndexMetadata>(facts.embedding@);
            let current = first_fault::<RepositoryRefRecord>(facts.current_ref@);
            let fault = status_fault(facts);
            &&& fault is None <==> files is None && chunks is None && symbols is None && calls is None
                && at is None && run is None && current is None
            &&& fault == files || fault == chunks || fault == symbols || fault == calls || fault == at
                || fault == run || fault == current
        }),
{
}

/// Summaries can be told exactly when all of their answers can be read.
pub proof fn law_summaries_are_refused_for_an_answer(
    storage: StorageFacts,
    embedding: EmbeddingFacts,
    cross: CrossStoreFacts,
    detail: FileDetailFacts,
)
    ensures
        storage_fault(storage) is None <==> status_fault(storage.status) is None && counted_fault(
            storage.repositories@,
            "repository count"@,
        ) is None && counted_fault(storage.index_runs@, "index run count"@) is None && only_fault::<
            ChunkProjectionCounts,
        >(storage.projection@) is None,
        embedding_fault(embedding) is None <==> status_fault(embedding.status) is None && only_fault::<
            ChunkProjectionCounts,
        >(embedding.projection@) is None && rows_fault::<EmbeddingExclusionRow>(
            embedding.exclusions@,
        ) is None,
        cross_store_fault(cross) is None <==> only_fault::<ChunkProjectionCounts>(
            cross.projection@,
        ) is None && first_fault::<EmbeddingIndexMetadata>(cross.embedding@) is None && rows_fault::<
            usize,
        >(cross.dimensions@) is None,
        detail_fault(detail) is None <==> rows_fault::<FileChunkDetailRow>(detail.chunks@) is None
            && rows_fault::<FileSymbolDetailRow>(detail.symbols@) is None && rows_fault::<
            FileCallDetailRow,
        >(detail.calls@) is None,
{
}

/// The progress of a generation can be told exactly when its answers can be read and no count is
/// negative. A negative count is refused by its name.
pub proof fn law_progress_is_refused_for_an_answer(facts: QualityGenerationFacts)
    ensures
        ({
            let fault = progress_fault(facts);
            let embeddable = i64::of(facts.embeddable@[0]@);
            let embedded = i64::of(facts.embedded@[0]@);
            let read = only_fault::<i64>(facts.embeddable@) is None && only_fault::<i64>(
                facts.embedded@,
            ) is None;
            &&& fault is None ==> read && embeddable >= 0 && embedded >= 0 && tally_fault(
                facts.jobs@,
            ) is None
            &&& read && 0 <= embeddable <= 0xffff_ffff && 0 <= embedded <= 0xffff_ffff ==> fault
                == tally_fault(facts.jobs@)
            &&& read && embeddable < 0 ==> fault == Some(
                Fault::Unexpected("negative "@ + "embeddable chunk count"@),
            )
            &&& read && 0 <= embeddable <= 0xffff_ffff && embedded < 0 ==> fault == Some(
                Fault::Unexpected("negative "@ + "quality embedded chunk count"@),
            )
        }),
{
    assert(usize::MAX >= 0xffff_ffff);
}

/// Jobs by state can be counted exactly when their rows can be read and no count is negative.
pub proof fn law_tallies_are_refused_for_negative_counts(rows: Seq<Row>)
    ensures
        rows_fault::<StatusCount>(rows) is Some ==> tally_fault(rows) == rows_fault::<StatusCount>(
            rows,
        ),
        rows_fault::<StatusCount>(rows) is None && (exists|i: int|
            0 <= i < all_of::<StatusCount>(rows).len() && (#[trigger] all_of::<StatusCount>(
                rows,
            )[i]).jobs < 0) ==> tally_fault(rows) == Some(
            Fault::Unexpected("negative "@ + "quality job status count"@),
        ),
        rows_fault::<StatusCount>(rows) is None && (forall|i: int|
            0 <= i < all_of::<StatusCount>(rows).len() ==> 0 <= (#[trigger] all_of::<StatusCount>(
                rows,
            )[i]).jobs <= 0xffff_ffff) ==> tally_fault(rows) is None,
{
    assert(usize::MAX >= 0xffff_ffff);
}

/// A quality layer cannot be refreshed while a state or a layer that is stored has no meaning: it
/// is refused for that, once the generation and the latest one could be read.
pub proof fn law_refreshes_are_refused_for_unknown_names(facts: QualityActivationFacts)
    ensures
        ({
            let g = SemanticGenerationRecord::of(facts.generation@[0]@);
            let fault = activation_fault(facts);
            let read = only_fault::<SemanticGenerationRecord>(facts.generation@) is None
                && only_fault::<String>(facts.latest@) is None;
            let known = SemanticLayerStatus::named(g.quality_status@) is Some;
            &&& fault is None ==> read && known && SemanticLayer::named(g.active_layer@) is Some
                && only_fault::<i64>(facts.embedded@) is None && tally_fault(facts.jobs@) is None
                && i64::of(facts.embedded@[0]@) >= 0
            &&& read && !known ==> fault == Some(
                Fault::Unexpected("invalid semantic layer status"@),
            )
            &&& read && known && SemanticLayer::named(g.active_layer@) is None ==> fault == Some(
                Fault::Unexpected("invalid semantic layer"@),
            )
            &&& read && known && SemanticLayer::named(g.active_layer@) is Some && only_fault::<i64>(
                facts.embedded@,
            ) is None && tally_fault(facts.jobs@) is None && 0 <= i64::of(facts.embedded@[0]@)
                <= 0xffff_ffff ==> fault is None
        }),
{
    assert(usize::MAX >= 0xffff_ffff);
}

/// Progress is stored exactly when the three counts for it can be read.
pub proof fn law_progress_needs_three_counts(
    embedded: Seq<Row>,
    open_jobs: Seq<Row>,
    failed: Seq<Row>,
)
    ensures
        refresh_fault(embedded, open_jobs, failed) is None <==> only_fault::<i64>(embedded) is None
            && only_fault::<i64>(open_jobs) is None && only_fault::<i64>(failed) is None,
{
}

/// Routing is refused for names without a meaning, and for layers and progress that cannot be read.
/// A layer is refused for any count below nought.
pub proof fn law_routing_is_refused_for_an_answer(
    g: SemanticGenerationRecord,
    facts: RoutingFacts,
    a: SemanticLayerManifestAggregate,
)
    ensures
        routing_fault(g, facts) is None <==> SemanticLayer::named(g.active_layer@) is Some
            && SemanticLayerStatus::named(g.quality_status@) is Some && layer_fault(
            facts.fast@,
        ) is None && progress_fault(facts.progress) is None && layer_fault(facts.quality@) is None,
        SemanticLayer::named(g.active_layer@) is None ==> routing_fault(g, facts) == Some(
            Fault::Unexpected("invalid semantic layer"@),
        ),
        aggregate_fault(a) is None ==> a.embedding_dimension >= 0 && a.current_chunks >= 0
            && a.stale_chunks >= 0 && a.blocked_chunks >= 0 && a.failed_chunks >= 0
            && a.other_chunks >= 0 && a.total_chunks >= 0,
        a.embedding_dimension < 0 ==> aggregate_fault(a) == Some(
            Fault::Unexpected("negative "@ + "embedding dimension"@),
        ),
        0 <= a.embedding_dimension <= 0xffff_ffff && 0 <= a.current_chunks <= 0xffff_ffff && 0
            <= a.stale_chunks <= 0xffff_ffff && 0 <= a.blocked_chunks <= 0xffff_ffff && 0
            <= a.failed_chunks <= 0xffff_ffff && 0 <= a.other_chunks <= 0xffff_ffff && 0
            <= a.total_chunks <= 0xffff_ffff ==> aggregate_fault(a) is None,
{
    assert(usize::MAX >= 0xffff_ffff);
}

/// A replacement in a ref drops the other files at its path that no ref holds any more, and a
/// replacement outside of refs drops all of them.
pub proof fn law_replacements_drop_what_no_ref_holds(
    replacement: FileReplacement<'_>,
    others: Seq<Seq<char>>,
    ref_counts: Seq<i64>,
    file_id: Seq<char>,
    ref_count: i64,
)
    requires
        ref_counts.len() == others.len(),
    ensures
        replacement.repository_ref_id is None ==> displaced(replacement, others, ref_counts)
            == others,
        replacement.repository_ref_id is Some ==> ({
            let dropped = displaced(replacement, others, ref_counts);
            displaced(replacement, others.push(file_id), ref_counts.push(ref_count))
                == if ref_count > 0 {
                dropped
            } else {
                dropped.push(file_id)
            }
        }),
{
    assert(others.push(file_id).drop_last() =~= others);
    lemma_counts_ahead(others, ref_counts, ref_counts.push(ref_count));
}

proof fn lemma_counts_ahead(others: Seq<Seq<char>>, a: Seq<i64>, b: Seq<i64>)
    requires
        others.len() <= a.len(),
        others.len() <= b.len(),
        forall|i: int| 0 <= i < others.len() ==> #[trigger] a[i] == b[i],
    ensures
        unreferenced(others, a) == unreferenced(others, b),
    decreases others.len(),
{
    if others.len() > 0 {
        lemma_counts_ahead(others.drop_last(), a, b);
        assert(a[others.len() - 1] == b[others.len() - 1]);
    }
}

/// A pack tells its format, its limits, that it holds no source, that its relations are direct, and
/// whether it is that of a ref.
pub proof fn law_packs_tell_what_they_leave_out(
    pack: ContextPack,
    repository_id: Seq<char>,
    query: Seq<char>,
    limit: usize,
    symbols: Seq<SymbolSearchRow>,
    callers: Seq<CallSearchRow>,
    callees: Seq<CallSearchRow>,
    for_ref: bool,
)
    requires
        is_pack(pack, repository_id, query, limit, symbols, callers, callees, for_ref),
    ensures
        pack.format@ == "symdex.context_pack.v1"@,
        1 <= limit <= 25 ==> pack.limits.max_symbols == limit && pack.limits.max_callers == limit
            && pack.limits.max_callees == limit,
        texts(pack.notes@).len() == if for_ref {
            3int
        } else {
            2
        },
        texts(pack.notes@)[0] == "metadata_only_no_source_text"@,
        texts(pack.notes@)[1] == "direct_relationships_only"@,
        for_ref ==> texts(pack.notes@)[2] == "repository_ref_scoped"@,
{
}

/// An id of a point is made of a hash with exactly thirty-two hexadecimal digits, and a row id of a
/// source that is a hexadecimal number. Anything else is refused by name.
pub proof fn law_ids_are_refused_by_name(
    r: Result<String, StoreError>,
    hash: Seq<char>,
    row: Result<i64, StoreError>,
    point_id: Seq<char>,
    digest: Seq<char>,
)
    requires
        is_point_id(r, hash),
        is_rowid(row, point_id, digest),
    ensures
        r is Ok <==> hex_digits(hash).len() == 32,
        r matches Err(e) ==> (e matches StoreError::InvalidPointId(source) && source@ == hash),
        row is Ok <==> rowid_of(point_id, digest) is Some,
        row matches Err(e) ==> (e matches StoreError::InvalidPointId(source) && source@ == point_id),
        row matches Ok(rowid) ==> rowid as int == rowid_of(point_id, digest)->Some_0 || !(
        -0x8000_0000_0000_0000 <= rowid_of(point_id, digest)->Some_0 <= 0x7fff_ffff_ffff_ffff),
{
}

/// A hexadecimal number is at least one digit, with or without a sign in front, and nothing else.
pub proof fn law_hexadecimal_numbers_are_digits(s: Seq<char>, i: int)
    ensures
        parsed_hex(Seq::empty()) is None,
        s.len() > 0 && (forall|j: int| 0 <= j < s.len() ==> is_hex(#[trigger] s[j]))
            ==> parsed_hex(s) == Some(hex_value(s)),
        0 < i < s.len() && !is_hex(s[i]) ==> parsed_hex(s) is None,
        s.len() > 0 && !is_hex(s[0]) && s[0] != '+' ==> parsed_hex(s) is None,
{
    if 0 < i < s.len() && !is_hex(s[i]) {
        if s[0] == '+' {
            assert(s.drop_first()[i - 1] == s[i]);
        }
    }
}

/// The columns of a table and of an index are asked for by its name, and a new database is told to
/// hold its keys and to write ahead.
pub proof fn law_tables_are_asked_for_by_name(name: Seq<char>)
    ensures
        table_info_spec(name).sql == "PRAGMA table_info("@ + name + ")"@,
        table_info_spec(name).params.len() == 0,
        index_info_spec(name).sql == "PRAGMA index_info(\""@ + escaped(name) + "\")"@,
        index_info_spec(name).params.len() == 0,
        opening_steps(false) == seq![CommandView::Batch("PRAGMA foreign_keys = ON;"@)],
        opening_steps(true) == seq![
            CommandView::Batch("PRAGMA foreign_keys = ON;"@),
            CommandView::Batch("PRAGMA journal_mode = WAL;"@),
        ],
{
}

/// A lock file tells an owner exactly when it is there and holds more than white space, which in
/// ASCII is the blank and the five characters from the tabulator to the carriage return.
pub proof fn law_lock_files_tell_an_owner(contents: &str, c: char)
    ensures
        !tells_owner(None),
        tells_owner(Some(contents)) <==> exists|i: int|
            0 <= i < contents@.len() && !is_white_space(#[trigger] contents@[i]),
        (c as nat) < 0x80 ==> (is_white_space(c) <==> c == ' ' || 0x09 <= c as nat <= 0x0d),
{
}

/// Every dimension that was recorded is told.
pub proof fn law_every_dimension_is_told(model: Seq<char>, dimensions: Seq<usize>, i: int)
    requires
        0 <= i < dimensions.len(),
    ensures
        holds(dimension_drift(model, dimensions), decimal_digits(dimensions[i] as nat)),
{
    lemma_listed(dimensions, i);
    let digits = decimal_digits(dimensions[i] as nat);
    let list = listed(dimensions);
    let (a, b) = choose|a: int, b: int|
        0 <= a <= b <= list.len() && #[trigger] list.subrange(a, b) == digits;
    let before = "Successful runs for model "@ + model + " recorded multiple dimensions: "@;
    let n = before.len() as int;
    assert(dimension_drift(model, dimensions).subrange(n + a, n + b) =~= list.subrange(a, b));
}

proof fn lemma_listed(numbers: Seq<usize>, i: int)
    requires
        0 <= i < numbers.len(),
    ensures
        holds(listed(numbers), decimal_digits(numbers[i] as nat)),
    decreases numbers.len(),
{
    let list = listed(numbers);
    let digits = decimal_digits(numbers[i] as nat);
    let n = list.len() as int;
    if i == numbers.len() - 1 {
        assert(list.subrange(n - digits.len(), n) =~= digits);
    } else {
        let front = listed(numbers.drop_last());
        lemma_listed(numbers.drop_last(), i);
        let (a, b) = choose|a: int, b: int|
            0 <= a <= b <= front.len() && #[trigger] front.subrange(a, b) == digits;
        assert(list.subrange(a, b) =~= front.subrange(a, b));
    }
}

/// Points are only deleted where there are some, and stored behind the making of their payloads'
/// table and the question whether the table of their vectors is there.
pub proof fn law_tables_of_points_are_prepared(table_name: Seq<char>, points: nat)
    ensures
        delete_preparation(0).len() == 0,
        points > 0 ==> delete_preparation(points).len() == 1 && delete_preparation(points)[0]
            == prepare_script(table_name)[0],
        prepare_script(table_name).len() == 2,
        prepare_script(table_name)[0] is Batch,
        prepare_script(table_name)[1] matches CommandView::Query(q) && q.params.len() == 1
            && q.params[0] == text(table_name),
{
}

/// Errors of tables, requests and dimensions tell what they are about.
pub proof fn law_errors_tell_what_was_refused(
    error: StoreError,
    kind: StoreErrorView,
    refusal_error: StoreError,
    refusal: Refusal,
    name: Seq<char>,
    change: StoreError,
    repository: Seq<char>,
    model: Seq<char>,
    previous: usize,
    current: usize,
    request: HttpRequest,
    method: HttpMethod,
    url: Seq<char>,
)
    requires
        is_error(error, kind, name),
        is_refusal(refusal_error, refusal, name),
        is_dimension_change(change, repository, model, previous, current),
        is_request(request, method, url),
    ensures
        kind is TableName ==> (error matches StoreError::InvalidVectorTableName(told) && told@
            == name),
        kind is VectorSize ==> error == StoreError::InvalidVectorSize(0),
        kind is Limit ==> error == StoreError::InvalidLimit(0),
        kind is Dimensions ==> error == StoreError::InconsistentVectorDimensions,
        refusal is Name ==> (refusal_error matches StoreError::InvalidCollectionName(told) && told@
            == name),
        refusal is VectorSize ==> refusal_error == StoreError::InvalidVectorSize(0),
        refusal is Limit ==> refusal_error == StoreError::InvalidLimit(0),
        refusal is Dimensions ==> refusal_error == StoreError::InconsistentVectorDimensions,
        change matches StoreError::EmbeddingDimensionChanged {
            repository_id,
            embedding_model,
            previous_dimension,
            current_dimension,
        } && repository_id@ == repository && embedding_model@ == model && previous_dimension
            == previous && current_dimension == current,
        request.method == method,
        request.url@ == url,
{
}

} // verus!
