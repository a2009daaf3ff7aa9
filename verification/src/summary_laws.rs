//! What summaries tell: every number is the answer to the question that was asked for it.

use vstd::prelude::*;
use crate::bindings::{binds, says};
use crate::health::findings;
use crate::layers::SemanticLayer;
use crate::naming::table_name_of;
use crate::questions::{
    detail_queries, embedding_queries, layer_queries, status_answered, storage_queries,
};
use crate::records::{
    CrossStoreHealthSummary, EmbeddingCoverageSummary, EmbeddingExclusionRow,
    EmbeddingIndexMetadata, FileCallDetailRow, FileChunkDetailRow, FileCoverageRow,
    FileSymbolDetailRow, RepositoryRefRecord, RepositoryStatus, SemanticGenerationRecord,
    SemanticNeighborhoodRow, SemanticNeighborhoodSummary, StorageExplorerSummary,
};
use crate::rows::{ChunkProjectionCounts, FileCoverageBaseRow};
use crate::sql::{all_of, counted_in, text, CommandView, FromRow, Row, StatementView};
use crate::statement_laws::{
    law_current_repository_ref_says, law_embedding_exclusion_reasons_says,
    law_file_call_details_says, law_file_chunk_details_says, law_file_symbol_details_says,
    law_latest_embedding_run_says, law_semantic_layer_manifest_aggregate_says,
};
use crate::summaries::{
    is_coverage_row, is_cross_store_summary, is_embedding_summary, is_neighborhood, is_status,
    is_storage_summary, neighborhood_model, status_queries, CrossStoreFacts, EmbeddingFacts,
    FileDetailFacts, RepositoryFacts, StorageFacts,
};

verus! {

/// A question with `id` as its only value was asked, and `n` is the number that answered it.
pub open spec fn counts(
    asked: Seq<CommandView>,
    answers: Seq<Vec<Row>>,
    sql: Seq<char>,
    id: Seq<char>,
    n: usize,
) -> bool {
    exists|i: int|
        0 <= i < asked.len() && #[trigger] asked[i] == CommandView::Query(
            StatementView { sql, params: seq![text(id)] },
        ) && counted_in(answers[i]@) == n
}

/// A status tells the numbers that answered the questions for them.
pub proof fn law_statuses_tell_what_was_counted(
    s: RepositoryStatus,
    repository_id: Seq<char>,
    facts: RepositoryFacts,
    answers: Seq<Vec<Row>>,
)
    requires
        status_answered(facts, answers),
        is_status(s, repository_id, facts),
    ensures
        ({
            let asked = status_queries(repository_id);
            &&& s.repository_id@ == repository_id
            &&& counts(
                asked,
                answers,
                "SELECT COUNT(*) FROM files WHERE repository_id = ?1"@,
                repository_id,
                s.files_indexed,
            )
            &&& counts(
                asked,
                answers,
                "SELECT COUNT(*)
    FROM chunks
    JOIN files ON chunks.file_id = files.id
    WHERE files.repository_id = ?1"@,
                repository_id,
                s.chunks_indexed,
            )
            &&& counts(
                asked,
                answers,
                "SELECT COUNT(*)
    FROM symbols
    JOIN files ON symbols.file_id = files.id
    WHERE files.repository_id = ?1"@,
                repository_id,
                s.symbols_indexed,
            )
            &&& counts(
                asked,
                answers,
                "SELECT COUNT(*)
    FROM calls
    JOIN symbols ON calls.caller_symbol_id = symbols.id
    JOIN files ON symbols.file_id = files.id
    WHERE files.repository_id = ?1"@,
                repository_id,
                s.calls_indexed,
            )
            &&& exists|i: int|
                0 <= i < asked.len() && #[trigger] asked[i] == CommandView::Query(
                    StatementView {
                        sql: "SELECT MAX(indexed_at) FROM files WHERE repository_id = ?1"@,
                        params: seq![text(repository_id)],
                    },
                ) && s.last_indexed_at == Option::<String>::of(answers[i]@[0]@)
        }),
{
    let asked = status_queries(repository_id);
    assert(asked[0] is Query && asked[1] is Query && asked[2] is Query && asked[5] is Query
        && asked[6] is Query);
}

/// A status tells the model and the dimension of the latest embedding run, where there is one, and
/// the current ref, where there is one.
pub proof fn law_statuses_tell_the_latest_run_and_ref(
    s: RepositoryStatus,
    repository_id: Seq<char>,
    facts: RepositoryFacts,
    answers: Seq<Vec<Row>>,
)
    requires
        status_answered(facts, answers),
        is_status(s, repository_id, facts),
    ensures
        ({
            let asked = status_queries(repository_id);
            &&& exists|i: int|
                0 <= i < asked.len() && (#[trigger] asked[i] matches CommandView::Query(q) && says(
                    q.sql,
                    "status = 'success'"@,
                ) && binds(q, "repository_id = "@, text(repository_id)) && {
                    let rows = answers[i]@;
                    let run = EmbeddingIndexMetadata::of(rows[0]@);
                    &&& rows.len() == 0 ==> s.embedding_model is None
                        && s.embedding_dimension is None
                    &&& rows.len() > 0 ==> s.embedding_model == Some(run.embedding_model)
                        && s.embedding_dimension == run.embedding_dimension
                })
            &&& exists|i: int|
                0 <= i < asked.len() && (#[trigger] asked[i] matches CommandView::Query(q) && says(
                    q.sql,
                    "is_current = 1"@,
                ) && binds(q, "repository_id = "@, text(repository_id)) && {
                    let rows = answers[i]@;
                    let current = RepositoryRefRecord::of(rows[0]@);
                    &&& rows.len() == 0 ==> s.current_ref_id is None && s.current_ref_kind is None
                        && s.current_ref_name is None && s.current_head_oid is None
                    &&& rows.len() > 0 ==> s.current_ref_id == Some(current.id)
                        && s.current_ref_kind == Some(current.ref_kind) && s.current_ref_name
                        == current.ref_name && s.current_head_oid == current.head_oid
                })
        }),
{
    let asked = status_queries(repository_id);
    law_latest_embedding_run_says(repository_id);
    law_current_repository_ref_says(repository_id);
    assert(asked[3] is Query);
    assert(asked[4] is Query);
}

/// A summary of storage tells the numbers that answered the questions for them, and the vectors of
/// the model that was used last, or else of the configured one.
pub proof fn law_storage_tells_what_was_counted(
    s: StorageExplorerSummary,
    repository_id: Seq<char>,
    generation: Option<SemanticGenerationRecord>,
    configured: Seq<char>,
    facts: StorageFacts,
    answers: Seq<Vec<Row>>,
)
    requires
        status_answered(facts.status, answers),
        facts.repositories == answers[7],
        facts.index_runs == answers[8],
        facts.projection == answers[9],
        is_storage_summary(s, repository_id, configured, facts),
    ensures
        ({
            let asked = storage_queries(repository_id, generation);
            let chunks = ChunkProjectionCounts::of(facts.projection@[0]@);
            let runs = facts.status.embedding@;
            let run = EmbeddingIndexMetadata::of(runs[0]@);
            &&& s.repository_id@ == repository_id
            &&& counts(
                asked,
                answers,
                "SELECT COUNT(*) FROM files WHERE repository_id = ?1"@,
                repository_id,
                s.sqlite.files,
            )
            &&& counts(
                asked,
                answers,
                "SELECT COUNT(*)
    FROM chunks
    JOIN files ON chunks.file_id = files.id
    WHERE files.repository_id = ?1"@,
                repository_id,
                s.sqlite.chunks,
            )
            &&& counts(
                asked,
                answers,
                "SELECT COUNT(*)
    FROM symbols
    JOIN files ON symbols.file_id = files.id
    WHERE files.repository_id = ?1"@,
                repository_id,
                s.sqlite.symbols,
            )
            &&& counts(
                asked,
                answers,
                "SELECT COUNT(*)
    FROM calls
    JOIN symbols ON calls.caller_symbol_id = symbols.id
    JOIN files ON symbols.file_id = files.id
    WHERE files.repository_id = ?1"@,
                repository_id,
                s.sqlite.calls,
            )
            &&& counts(
                asked,
                answers,
                "SELECT COUNT(*) FROM repositories WHERE id = ?1"@,
                repository_id,
                s.sqlite.repositories,
            )
            &&& counts(
                asked,
                answers,
                "SELECT COUNT(*) FROM index_runs WHERE repository_id = ?1"@,
                repository_id,
                s.sqlite.index_runs,
            )
            &&& s.vector.embeddable_chunks == chunks.embeddable_chunks
            &&& s.vector.vector_backed_chunks == chunks.vector_backed_chunks
            &&& s.vector.excluded_chunks == chunks.excluded_chunks
            &&& s.vector.missing_vector_chunks == chunks.missing_vector_chunks
            &&& runs.len() == 0 ==> s.vector.embedding_model@ == configured
                && s.vector.embedding_dimension is None
            &&& runs.len() > 0 ==> s.vector.embedding_model@ == run.embedding_model@
                && s.vector.embedding_dimension == run.embedding_dimension
            &&& s.vector.collection_name@ == table_name_of(
                repository_id,
                s.vector.embedding_model@,
            )
        }),
{
    let asked = storage_queries(repository_id, generation);
    let first = status_queries(repository_id);
    assert(asked[0] == first[0]);
    assert(asked[1] == first[1]);
    assert(asked[5] == first[5]);
    assert(asked[6] == first[6]);
    assert(asked[7] is Query);
    assert(asked[8] is Query);
}

/// A summary of embeddings tells the chunks by state, why chunks are excluded, and what the latest
/// run embedded.
pub proof fn law_embeddings_tell_what_was_counted(
    s: EmbeddingCoverageSummary,
    repository_id: Seq<char>,
    generation: Option<SemanticGenerationRecord>,
    configured: Seq<char>,
    facts: EmbeddingFacts,
    answers: Seq<Vec<Row>>,
)
    requires
        status_answered(facts.status, answers),
        facts.projection == answers[7],
        facts.exclusions == answers[8],
        is_embedding_summary(s, repository_id, configured, facts),
    ensures
        ({
            let asked = embedding_queries(repository_id, generation);
            let chunks = ChunkProjectionCounts::of(facts.projection@[0]@);
            let runs = facts.status.embedding@;
            let run = EmbeddingIndexMetadata::of(runs[0]@);
            &&& s.repository_id@ == repository_id
            &&& s.configured_embedding_model@ == configured
            &&& counts(
                asked,
                answers,
                "SELECT COUNT(*)
    FROM chunks
    JOIN files ON chunks.file_id = files.id
    WHERE files.repository_id = ?1"@,
                repository_id,
                s.total_chunks,
            )
            &&& asked[8] matches CommandView::Query(q) && binds(
                q,
                "files.repository_id = "@,
                text(repository_id),
            ) && says(q.sql, "chunks.excluded_reason IS NOT NULL"@)
            &&& s.exclusion_reasons@ == all_of::<EmbeddingExclusionRow>(answers[8]@)
            &&& s.embeddable_chunks == chunks.embeddable_chunks
            &&& s.vector_backed_chunks == chunks.vector_backed_chunks
            &&& s.excluded_chunks == chunks.excluded_chunks
            &&& s.missing_vector_chunks == chunks.missing_vector_chunks
            &&& runs.len() == 0 ==> s.embedding_model@ == configured && s.embedding_dimension is None
                && s.latest_chunks_embedded is None
            &&& runs.len() > 0 ==> s.embedding_model@ == run.embedding_model@
                && s.embedding_dimension == run.embedding_dimension && s.latest_chunks_embedded
                == Some(run.chunks_embedded)
            &&& s.collection_name@ == table_name_of(repository_id, s.embedding_model@)
        }),
{
    let asked = embedding_queries(repository_id, generation);
    let first = status_queries(repository_id);
    assert(asked[1] == first[1]);
    law_embedding_exclusion_reasons_says(repository_id);
}

/// A neighborhood is that of the fast model of the latest generation, or else of the model that was
/// used last, or else of the configured one. It holds the rows that were found.
pub proof fn law_neighborhoods_are_those_of_the_model(
    s: SemanticNeighborhoodSummary,
    repository_id: Seq<char>,
    generation: SemanticGenerationRecord,
    run: EmbeddingIndexMetadata,
    latest: Option<EmbeddingIndexMetadata>,
    configured: Seq<char>,
    model: Seq<char>,
    rows: Seq<SemanticNeighborhoodRow>,
)
    requires
        is_neighborhood(s, repository_id, model, rows),
    ensures
        s.repository_id@ == repository_id,
        s.embedding_model@ == model,
        s.collection_name@ == table_name_of(repository_id, model),
        s.rows@ == rows,
        neighborhood_model(Some(generation), latest, configured) == generation.fast_model@,
        neighborhood_model(None, Some(run), configured) == run.embedding_model@,
        neighborhood_model(None, None, configured) == configured,
{
}

/// A summary across both stores is that of the collection of the model that was used last, or else
/// of the configured one.
pub proof fn law_cross_store_summaries_name_the_collection(
    s: CrossStoreHealthSummary,
    repository_id: Seq<char>,
    configured: Seq<char>,
    facts: CrossStoreFacts,
)
    requires
        is_cross_store_summary(s, repository_id, configured, facts),
    ensures
        s.repository_id@ == repository_id,
        facts.embedding@.len() == 0 ==> s.collection_name@ == table_name_of(
            repository_id,
            configured,
        ),
        facts.embedding@.len() > 0 ==> s.collection_name@ == table_name_of(
            repository_id,
            EmbeddingIndexMetadata::of(facts.embedding@[0]@).embedding_model@,
        ),
        findings(s.rows@).len() > 0,
{
}

/// A row of the coverage tells the numbers of its file and the rows that were found for it.
pub proof fn law_coverage_rows_tell_their_file(
    r: FileCoverageRow,
    base: FileCoverageBaseRow,
    facts: FileDetailFacts,
)
    requires
        is_coverage_row(r, base, facts),
    ensures
        r.path@ == base.path@,
        r.language == base.language,
        r.chunks == base.chunks,
        r.symbols == base.symbols,
        r.calls == base.calls,
        r.embeddable_chunks == base.embeddable_chunks,
        r.vector_backed_chunks == base.vector_backed_chunks,
        r.excluded_chunks == base.excluded_chunks,
        r.status == base.status,
        r.detail.chunks@ == all_of::<FileChunkDetailRow>(facts.chunks@),
        r.detail.symbols@ == all_of::<FileSymbolDetailRow>(facts.symbols@),
        r.detail.calls@ == all_of::<FileCallDetailRow>(facts.calls@),
{
}

/// For every file its chunks, its symbols and its calls are asked for, in this order.
pub proof fn law_details_are_asked_for_every_file(
    bases: Seq<FileCoverageBaseRow>,
    generation: Option<SemanticGenerationRecord>,
    i: int,
)
    requires
        0 <= i < bases.len(),
    ensures
        ({
            let asked = detail_queries(bases, generation);
            let file = text(bases[i].file_id@);
            &&& asked.len() == 3 * bases.len()
            &&& asked[3 * i] matches CommandView::Query(q) && binds(q, "chunks.file_id = "@, file)
            &&& asked[3 * i + 1] matches CommandView::Query(q) && binds(q, "file_id = "@, file)
            &&& asked[3 * i + 2] matches CommandView::Query(q) && binds(
                q,
                "caller.file_id = "@,
                file,
            )
        }),
    decreases bases.len(),
{
    let front = bases.drop_last();
    let last = bases.last();
    let id = crate::questions::generation_id(generation);
    lemma_details_asked(bases, generation);
    if i < front.len() {
        law_details_are_asked_for_every_file(front, generation, i);
        lemma_details_asked(front, generation);
        assert(front[i] == bases[i]);
        let asked = detail_queries(bases, generation);
        let before = detail_queries(front, generation);
        assert(asked[3 * i] == before[3 * i]);
        assert(asked[3 * i + 1] == before[3 * i + 1]);
        assert(asked[3 * i + 2] == before[3 * i + 2]);
    } else {
        lemma_details_asked(front, generation);
        law_file_chunk_details_says(last.file_id@, id);
        law_file_symbol_details_says(last.file_id@);
        law_file_call_details_says(last.file_id@);
    }
}

proof fn lemma_details_asked(
    bases: Seq<FileCoverageBaseRow>,
    generation: Option<SemanticGenerationRecord>,
)
    ensures
        detail_queries(bases, generation).len() == 3 * bases.len(),
    decreases bases.len(),
{
    if bases.len() > 0 {
        lemma_details_asked(bases.drop_last(), generation);
    }
}

/// The layers of a generation are asked for by their names, the fast one first and the quality one
/// last.
pub proof fn law_both_layers_are_asked_for(generation: SemanticGenerationRecord)
    ensures
        ({
            let asked = layer_queries(generation);
            &&& asked[0] matches CommandView::Query(q) && binds(q, "semantic_layer = "@, text("fast"@))
                && binds(q, "generation_id = "@, text(generation.id@)) && binds(
                q,
                "repository_id = "@,
                text(generation.repository_id@),
            )
            &&& asked.last() matches CommandView::Query(q) && binds(
                q,
                "semantic_layer = "@,
                text("quality"@),
            ) && binds(q, "generation_id = "@, text(generation.id@)) && binds(
                q,
                "repository_id = "@,
                text(generation.repository_id@),
            )
        }),
{
    let repository_id = generation.repository_id@;
    law_semantic_layer_manifest_aggregate_says(repository_id, generation.id@, SemanticLayer::Fast);
    law_semantic_layer_manifest_aggregate_says(
        repository_id,
        generation.id@,
        SemanticLayer::Quality,
    );
}

} // verus!
