//! The columns that embeddings, generations and jobs are stored in.

use vstd::prelude::*;
use crate::bindings::stores;
use crate::decision_laws::law_jobs_are_counted_by_state;
use crate::generations::{
    embedding_columns, fast_embedding_values, fast_generation_values, generation_columns,
};
use crate::layers::SemanticLayerStatus;
use crate::quality::{
    carried_values, eligible_chunks, job_columns, restarted_values, QualityGenerationFacts,
};
use crate::records::{
    ChunkEmbeddingRecord, FastEmbeddingManifestRecord, FastSemanticGenerationInput,
    QualityEmbeddingJobRecord, SemanticGenerationRecord,
};
use crate::rows::{CarriedRow, StatusCount};
use crate::sql::{all_of, count, optional, optional_count, text, values, FromRow, Value};
use crate::text::optional_text;

verus! {

/// The columns that an embedding gives values for, in their order.
pub open spec fn columns_of_embeddings() -> Seq<Seq<char>> {
    seq![
        "id"@,
        "repository_id"@,
        "file_id"@,
        "chunk_id"@,
        "semantic_layer"@,
        "embedding_model"@,
        "embedding_dimension"@,
        "content_hash"@,
        "text_hash"@,
        "vector_table"@,
        "vector_point_id"@,
        "vector_rowid"@,
        "generation_id"@,
        "embedded_at"@,
        "status"@,
    ]
}

/// The columns that a generation gives values for, in their order.
pub open spec fn columns_of_generations() -> Seq<Seq<char>> {
    seq![
        "id"@,
        "repository_id"@,
        "fast_model"@,
        "fast_dimension"@,
        "fast_completed_at"@,
        "quality_model"@,
        "quality_dimension"@,
        "quality_status"@,
        "quality_started_at"@,
        "quality_completed_at"@,
        "active_layer"@,
        "files_seen"@,
        "embeddable_chunks"@,
        "fast_embedded_chunks"@,
        "quality_embedded_chunks"@,
        "created_at"@,
        "updated_at"@,
    ]
}

/// The columns that a job gives values for, in their order.
pub open spec fn columns_of_jobs() -> Seq<Seq<char>> {
    seq![
        "id"@,
        "repository_id"@,
        "generation_id"@,
        "chunk_id"@,
        "file_id"@,
        "path"@,
        "content_hash"@,
        "text_hash"@,
        "status"@,
        "attempts"@,
        "error_summary"@,
        "created_at"@,
        "updated_at"@,
    ]
}

/// An embedding is stored column by column, at the row of its vector.
pub proof fn law_embeddings_are_stored_by_column(
    e: ChunkEmbeddingRecord,
    rowid: i64,
)
    ensures
        ({
            let columns = columns_of_embeddings();
            let stored = values(embedding_columns(e, rowid));
            &&& stored.len() == columns.len()
            &&& stores(columns, stored, "id"@, text(e.id@))
            &&& stores(columns, stored, "repository_id"@, text(e.repository_id@))
            &&& stores(columns, stored, "file_id"@, text(e.file_id@))
            &&& stores(columns, stored, "chunk_id"@, text(e.chunk_id@))
            &&& stores(columns, stored, "semantic_layer"@, text(e.semantic_layer@))
            &&& stores(columns, stored, "embedding_model"@, text(e.embedding_model@))
            &&& stores(columns, stored, "embedding_dimension"@, count(e.embedding_dimension))
            &&& stores(columns, stored, "content_hash"@, text(e.content_hash@))
            &&& stores(columns, stored, "text_hash"@, text(e.text_hash@))
            &&& stores(columns, stored, "vector_table"@, text(e.vector_table@))
            &&& stores(columns, stored, "vector_point_id"@, text(e.vector_point_id@))
            &&& stores(columns, stored, "vector_rowid"@, Value::Integer(rowid as int))
            &&& stores(columns, stored, "generation_id"@, text(e.generation_id@))
            &&& stores(columns, stored, "embedded_at"@, text(e.embedded_at@))
            &&& stores(columns, stored, "status"@, text(e.status@))
        }),
{
    let columns = columns_of_embeddings();
    let stored = values(embedding_columns(e, rowid));
    assert(columns[0] == "id"@ && stored[0] == text(e.id@));
    assert(columns[1] == "repository_id"@ && stored[1] == text(e.repository_id@));
    assert(columns[2] == "file_id"@ && stored[2] == text(e.file_id@));
    assert(columns[3] == "chunk_id"@ && stored[3] == text(e.chunk_id@));
    assert(columns[4] == "semantic_layer"@ && stored[4] == text(e.semantic_layer@));
    assert(columns[5] == "embedding_model"@ && stored[5] == text(e.embedding_model@));
    assert(columns[6] == "embedding_dimension"@ && stored[6] == count(e.embedding_dimension));
    assert(columns[7] == "content_hash"@ && stored[7] == text(e.content_hash@));
    assert(columns[8] == "text_hash"@ && stored[8] == text(e.text_hash@));
    assert(columns[9] == "vector_table"@ && stored[9] == text(e.vector_table@));
    assert(columns[10] == "vector_point_id"@ && stored[10] == text(e.vector_point_id@));
    assert(columns[11] == "vector_rowid"@ && stored[11] == Value::Integer(rowid as int));
    assert(columns[12] == "generation_id"@ && stored[12] == text(e.generation_id@));
    assert(columns[13] == "embedded_at"@ && stored[13] == text(e.embedded_at@));
    assert(columns[14] == "status"@ && stored[14] == text(e.status@));
}

/// An entry of a manifest is stored as a current embedding of the fast layer.
pub proof fn law_fast_embeddings_are_stored_by_column(
    input: FastSemanticGenerationInput<'_>,
    generation_id: Seq<char>,
    id: Seq<char>,
    entry: FastEmbeddingManifestRecord,
    rowid: int,
)
    ensures
        ({
            let columns = columns_of_embeddings();
            let stored = fast_embedding_values(input, generation_id, id, entry, rowid);
            &&& stored.len() == columns.len()
            &&& stores(columns, stored, "id"@, text(id))
            &&& stores(columns, stored, "repository_id"@, text(input.repository_id@))
            &&& stores(columns, stored, "file_id"@, text(entry.file_id@))
            &&& stores(columns, stored, "chunk_id"@, text(entry.chunk_id@))
            &&& stores(columns, stored, "semantic_layer"@, text("fast"@))
            &&& stores(columns, stored, "embedding_model"@, text(input.fast_model@))
            &&& stores(columns, stored, "embedding_dimension"@, count(input.fast_dimension))
            &&& stores(columns, stored, "content_hash"@, text(entry.content_hash@))
            &&& stores(columns, stored, "text_hash"@, text(entry.text_hash@))
            &&& stores(columns, stored, "vector_table"@, text(input.vector_table@))
            &&& stores(columns, stored, "vector_point_id"@, text(entry.vector_point_id@))
            &&& stores(columns, stored, "vector_rowid"@, Value::Integer(rowid))
            &&& stores(columns, stored, "generation_id"@, text(generation_id))
            &&& stores(columns, stored, "embedded_at"@, text(input.completed_at@))
            &&& stores(columns, stored, "status"@, text("current"@))
        }),
{
    let columns = columns_of_embeddings();
    let stored = fast_embedding_values(input, generation_id, id, entry, rowid);
    assert(columns[0] == "id"@ && stored[0] == text(id));
    assert(columns[1] == "repository_id"@ && stored[1] == text(input.repository_id@));
    assert(columns[2] == "file_id"@ && stored[2] == text(entry.file_id@));
    assert(columns[3] == "chunk_id"@ && stored[3] == text(entry.chunk_id@));
    assert(columns[4] == "semantic_layer"@ && stored[4] == text("fast"@));
    assert(columns[5] == "embedding_model"@ && stored[5] == text(input.fast_model@));
    assert(columns[6] == "embedding_dimension"@ && stored[6] == count(input.fast_dimension));
    assert(columns[7] == "content_hash"@ && stored[7] == text(entry.content_hash@));
    assert(columns[8] == "text_hash"@ && stored[8] == text(entry.text_hash@));
    assert(columns[9] == "vector_table"@ && stored[9] == text(input.vector_table@));
    assert(columns[10] == "vector_point_id"@ && stored[10] == text(entry.vector_point_id@));
    assert(columns[11] == "vector_rowid"@ && stored[11] == Value::Integer(rowid));
    assert(columns[12] == "generation_id"@ && stored[12] == text(generation_id));
    assert(columns[13] == "embedded_at"@ && stored[13] == text(input.completed_at@));
    assert(columns[14] == "status"@ && stored[14] == text("current"@));
}

/// A carried embedding is stored as a current one of the quality layer.
pub proof fn law_carried_embeddings_are_stored_by_column(
    repository_id: Seq<char>,
    generation_id: Seq<char>,
    model: Seq<char>,
    row: CarriedRow,
    id: Seq<char>,
    rowid: int,
)
    ensures
        ({
            let columns = columns_of_embeddings();
            let stored = carried_values(repository_id, generation_id, model, row, id, rowid);
            &&& stored.len() == columns.len()
            &&& stores(columns, stored, "id"@, text(id))
            &&& stores(columns, stored, "repository_id"@, text(repository_id))
            &&& stores(columns, stored, "file_id"@, text(row.file_id@))
            &&& stores(columns, stored, "chunk_id"@, text(row.chunk_id@))
            &&& stores(columns, stored, "semantic_layer"@, text("quality"@))
            &&& stores(columns, stored, "embedding_model"@, text(model))
            &&& stores(columns, stored, "embedding_dimension"@, count(row.embedding_dimension))
            &&& stores(columns, stored, "content_hash"@, text(row.content_hash@))
            &&& stores(columns, stored, "text_hash"@, text(row.text_hash@))
            &&& stores(columns, stored, "vector_table"@, text(row.vector_table@))
            &&& stores(columns, stored, "vector_point_id"@, text(row.vector_point_id@))
            &&& stores(columns, stored, "vector_rowid"@, Value::Integer(rowid))
            &&& stores(columns, stored, "generation_id"@, text(generation_id))
            &&& stores(columns, stored, "embedded_at"@, text(row.embedded_at@))
            &&& stores(columns, stored, "status"@, text("current"@))
        }),
{
    let columns = columns_of_embeddings();
    let stored = carried_values(repository_id, generation_id, model, row, id, rowid);
    assert(columns[0] == "id"@ && stored[0] == text(id));
    assert(columns[1] == "repository_id"@ && stored[1] == text(repository_id));
    assert(columns[2] == "file_id"@ && stored[2] == text(row.file_id@));
    assert(columns[3] == "chunk_id"@ && stored[3] == text(row.chunk_id@));
    assert(columns[4] == "semantic_layer"@ && stored[4] == text("quality"@));
    assert(columns[5] == "embedding_model"@ && stored[5] == text(model));
    assert(columns[6] == "embedding_dimension"@ && stored[6] == count(row.embedding_dimension));
    assert(columns[7] == "content_hash"@ && stored[7] == text(row.content_hash@));
    assert(columns[8] == "text_hash"@ && stored[8] == text(row.text_hash@));
    assert(columns[9] == "vector_table"@ && stored[9] == text(row.vector_table@));
    assert(columns[10] == "vector_point_id"@ && stored[10] == text(row.vector_point_id@));
    assert(columns[11] == "vector_rowid"@ && stored[11] == Value::Integer(rowid));
    assert(columns[12] == "generation_id"@ && stored[12] == text(generation_id));
    assert(columns[13] == "embedded_at"@ && stored[13] == text(row.embedded_at@));
    assert(columns[14] == "status"@ && stored[14] == text("current"@));
}

/// A generation is stored column by column.
pub proof fn law_generations_are_stored_by_column(
    g: SemanticGenerationRecord,
)
    ensures
        ({
            let columns = columns_of_generations();
            let stored = values(generation_columns(g));
            &&& stored.len() == columns.len()
            &&& stores(columns, stored, "id"@, text(g.id@))
            &&& stores(columns, stored, "repository_id"@, text(g.repository_id@))
            &&& stores(columns, stored, "fast_model"@, text(g.fast_model@))
            &&& stores(columns, stored, "fast_dimension"@, count(g.fast_dimension))
            &&& stores(columns, stored, "fast_completed_at"@, text(g.fast_completed_at@))
            &&& stores(columns, stored, "quality_model"@, optional(optional_text(g.quality_model)))
            &&& stores(columns, stored, "quality_dimension"@, optional_count(g.quality_dimension))
            &&& stores(columns, stored, "quality_status"@, text(g.quality_status@))
            &&& stores(
                columns,
                stored,
                "quality_started_at"@,
                optional(optional_text(g.quality_started_at)),
            )
            &&& stores(
                columns,
                stored,
                "quality_completed_at"@,
                optional(optional_text(g.quality_completed_at)),
            )
            &&& stores(columns, stored, "active_layer"@, text(g.active_layer@))
            &&& stores(columns, stored, "files_seen"@, count(g.files_seen))
            &&& stores(columns, stored, "embeddable_chunks"@, count(g.embeddable_chunks))
            &&& stores(columns, stored, "fast_embedded_chunks"@, count(g.fast_embedded_chunks))
            &&& stores(
                columns,
                stored,
                "quality_embedded_chunks"@,
                count(g.quality_embedded_chunks),
            )
            &&& stores(columns, stored, "created_at"@, text(g.created_at@))
            &&& stores(columns, stored, "updated_at"@, text(g.updated_at@))
        }),
{
    let columns = columns_of_generations();
    let stored = values(generation_columns(g));
    assert(columns[0] == "id"@ && stored[0] == text(g.id@));
    assert(columns[1] == "repository_id"@ && stored[1] == text(g.repository_id@));
    assert(columns[2] == "fast_model"@ && stored[2] == text(g.fast_model@));
    assert(columns[3] == "fast_dimension"@ && stored[3] == count(g.fast_dimension));
    assert(columns[4] == "fast_completed_at"@ && stored[4] == text(g.fast_completed_at@));
    assert(columns[5] == "quality_model"@ && stored[5] == optional(optional_text(g.quality_model)));
    assert(columns[6] == "quality_dimension"@ && stored[6] == optional_count(g.quality_dimension));
    assert(columns[7] == "quality_status"@ && stored[7] == text(g.quality_status@));
    assert(columns[8] == "quality_started_at"@ && stored[8] == optional(optional_text(g.quality_started_at)));
    assert(columns[9] == "quality_completed_at"@ && stored[9] == optional(optional_text(g.quality_completed_at)));
    assert(columns[10] == "active_layer"@ && stored[10] == text(g.active_layer@));
    assert(columns[11] == "files_seen"@ && stored[11] == count(g.files_seen));
    assert(columns[12] == "embeddable_chunks"@ && stored[12] == count(g.embeddable_chunks));
    assert(columns[13] == "fast_embedded_chunks"@ && stored[13] == count(g.fast_embedded_chunks));
    assert(columns[14] == "quality_embedded_chunks"@ && stored[14] == count(g.quality_embedded_chunks));
    assert(columns[15] == "created_at"@ && stored[15] == text(g.created_at@));
    assert(columns[16] == "updated_at"@ && stored[16] == text(g.updated_at@));
}

/// A fast generation is stored without a quality layer.
pub proof fn law_new_generations_are_stored_by_column(
    input: FastSemanticGenerationInput<'_>,
    generation_id: Seq<char>,
    chunks: usize,
)
    ensures
        ({
            let columns = columns_of_generations();
            let stored = fast_generation_values(input, generation_id, chunks);
            &&& stored.len() == columns.len()
            &&& stores(columns, stored, "id"@, text(generation_id))
            &&& stores(columns, stored, "repository_id"@, text(input.repository_id@))
            &&& stores(columns, stored, "fast_model"@, text(input.fast_model@))
            &&& stores(columns, stored, "fast_dimension"@, count(input.fast_dimension))
            &&& stores(columns, stored, "fast_completed_at"@, text(input.completed_at@))
            &&& stores(columns, stored, "quality_model"@, Value::Null)
            &&& stores(columns, stored, "quality_dimension"@, Value::Null)
            &&& stores(columns, stored, "quality_status"@, text("fast_ready"@))
            &&& stores(columns, stored, "quality_started_at"@, Value::Null)
            &&& stores(columns, stored, "quality_completed_at"@, Value::Null)
            &&& stores(columns, stored, "active_layer"@, text("fast"@))
            &&& stores(columns, stored, "files_seen"@, count(input.files_seen))
            &&& stores(columns, stored, "embeddable_chunks"@, count(chunks))
            &&& stores(columns, stored, "fast_embedded_chunks"@, count(chunks))
            &&& stores(columns, stored, "quality_embedded_chunks"@, count(0))
            &&& stores(columns, stored, "created_at"@, text(input.completed_at@))
            &&& stores(columns, stored, "updated_at"@, text(input.completed_at@))
        }),
{
    let columns = columns_of_generations();
    let stored = fast_generation_values(input, generation_id, chunks);
    assert(columns[0] == "id"@ && stored[0] == text(generation_id));
    assert(columns[1] == "repository_id"@ && stored[1] == text(input.repository_id@));
    assert(columns[2] == "fast_model"@ && stored[2] == text(input.fast_model@));
    assert(columns[3] == "fast_dimension"@ && stored[3] == count(input.fast_dimension));
    assert(columns[4] == "fast_completed_at"@ && stored[4] == text(input.completed_at@));
    assert(columns[5] == "quality_model"@ && stored[5] == Value::Null);
    assert(columns[6] == "quality_dimension"@ && stored[6] == Value::Null);
    assert(columns[7] == "quality_status"@ && stored[7] == text("fast_ready"@));
    assert(columns[8] == "quality_started_at"@ && stored[8] == Value::Null);
    assert(columns[9] == "quality_completed_at"@ && stored[9] == Value::Null);
    assert(columns[10] == "active_layer"@ && stored[10] == text("fast"@));
    assert(columns[11] == "files_seen"@ && stored[11] == count(input.files_seen));
    assert(columns[12] == "embeddable_chunks"@ && stored[12] == count(chunks));
    assert(columns[13] == "fast_embedded_chunks"@ && stored[13] == count(chunks));
    assert(columns[14] == "quality_embedded_chunks"@ && stored[14] == count(0));
    assert(columns[15] == "created_at"@ && stored[15] == text(input.completed_at@));
    assert(columns[16] == "updated_at"@ && stored[16] == text(input.completed_at@));
}

/// A generation that starts its quality layer is stored with the model and the state of the layer.
pub proof fn law_restarted_generations_are_stored_by_column(
    g: SemanticGenerationRecord,
    model: Seq<char>,
    status: SemanticLayerStatus,
    at: Seq<char>,
)
    ensures
        ({
            let columns = columns_of_generations();
            let stored = restarted_values(g, model, status, at);
            &&& stored.len() == columns.len()
            &&& stores(columns, stored, "id"@, text(g.id@))
            &&& stores(columns, stored, "repository_id"@, text(g.repository_id@))
            &&& stores(columns, stored, "fast_model"@, text(g.fast_model@))
            &&& stores(columns, stored, "fast_dimension"@, count(g.fast_dimension))
            &&& stores(columns, stored, "fast_completed_at"@, text(g.fast_completed_at@))
            &&& stores(columns, stored, "quality_model"@, text(model))
            &&& stores(columns, stored, "quality_dimension"@, Value::Null)
            &&& stores(columns, stored, "quality_status"@, text(status.text()))
            &&& stores(columns, stored, "quality_started_at"@, Value::Null)
            &&& stores(columns, stored, "quality_completed_at"@, Value::Null)
            &&& stores(columns, stored, "active_layer"@, text("fast"@))
            &&& stores(columns, stored, "files_seen"@, count(g.files_seen))
            &&& stores(columns, stored, "embeddable_chunks"@, count(g.embeddable_chunks))
            &&& stores(columns, stored, "fast_embedded_chunks"@, count(g.fast_embedded_chunks))
            &&& stores(
                columns,
                stored,
                "quality_embedded_chunks"@,
                count(g.quality_embedded_chunks),
            )
            &&& stores(columns, stored, "created_at"@, text(g.created_at@))
            &&& stores(columns, stored, "updated_at"@, text(at))
        }),
{
    let columns = columns_of_generations();
    let stored = restarted_values(g, model, status, at);
    assert(columns[0] == "id"@ && stored[0] == text(g.id@));
    assert(columns[1] == "repository_id"@ && stored[1] == text(g.repository_id@));
    assert(columns[2] == "fast_model"@ && stored[2] == text(g.fast_model@));
    assert(columns[3] == "fast_dimension"@ && stored[3] == count(g.fast_dimension));
    assert(columns[4] == "fast_completed_at"@ && stored[4] == text(g.fast_completed_at@));
    assert(columns[5] == "quality_model"@ && stored[5] == text(model));
    assert(columns[6] == "quality_dimension"@ && stored[6] == Value::Null);
    assert(columns[7] == "quality_status"@ && stored[7] == text(status.text()));
    assert(columns[8] == "quality_started_at"@ && stored[8] == Value::Null);
    assert(columns[9] == "quality_completed_at"@ && stored[9] == Value::Null);
    assert(columns[10] == "active_layer"@ && stored[10] == text("fast"@));
    assert(columns[11] == "files_seen"@ && stored[11] == count(g.files_seen));
    assert(columns[12] == "embeddable_chunks"@ && stored[12] == count(g.embeddable_chunks));
    assert(columns[13] == "fast_embedded_chunks"@ && stored[13] == count(g.fast_embedded_chunks));
    assert(columns[14] == "quality_embedded_chunks"@ && stored[14] == count(g.quality_embedded_chunks));
    assert(columns[15] == "created_at"@ && stored[15] == text(g.created_at@));
    assert(columns[16] == "updated_at"@ && stored[16] == text(at));
}

/// A job is stored column by column.
pub proof fn law_jobs_are_stored_by_column(
    j: QualityEmbeddingJobRecord,
)
    ensures
        ({
            let columns = columns_of_jobs();
            let stored = values(job_columns(j));
            &&& stored.len() == columns.len()
            &&& stores(columns, stored, "id"@, text(j.id@))
            &&& stores(columns, stored, "repository_id"@, text(j.repository_id@))
            &&& stores(columns, stored, "generation_id"@, text(j.generation_id@))
            &&& stores(columns, stored, "chunk_id"@, text(j.chunk_id@))
            &&& stores(columns, stored, "file_id"@, text(j.file_id@))
            &&& stores(columns, stored, "path"@, text(j.path@))
            &&& stores(columns, stored, "content_hash"@, text(j.content_hash@))
            &&& stores(columns, stored, "text_hash"@, text(j.text_hash@))
            &&& stores(columns, stored, "status"@, text(j.status@))
            &&& stores(columns, stored, "attempts"@, count(j.attempts))
            &&& stores(columns, stored, "error_summary"@, optional(optional_text(j.error_summary)))
            &&& stores(columns, stored, "created_at"@, text(j.created_at@))
            &&& stores(columns, stored, "updated_at"@, text(j.updated_at@))
        }),
{
    let columns = columns_of_jobs();
    let stored = values(job_columns(j));
    assert(columns[0] == "id"@ && stored[0] == text(j.id@));
    assert(columns[1] == "repository_id"@ && stored[1] == text(j.repository_id@));
    assert(columns[2] == "generation_id"@ && stored[2] == text(j.generation_id@));
    assert(columns[3] == "chunk_id"@ && stored[3] == text(j.chunk_id@));
    assert(columns[4] == "file_id"@ && stored[4] == text(j.file_id@));
    assert(columns[5] == "path"@ && stored[5] == text(j.path@));
    assert(columns[6] == "content_hash"@ && stored[6] == text(j.content_hash@));
    assert(columns[7] == "text_hash"@ && stored[7] == text(j.text_hash@));
    assert(columns[8] == "status"@ && stored[8] == text(j.status@));
    assert(columns[9] == "attempts"@ && stored[9] == count(j.attempts));
    assert(columns[10] == "error_summary"@ && stored[10] == optional(optional_text(j.error_summary)));
    assert(columns[11] == "created_at"@ && stored[11] == text(j.created_at@));
    assert(columns[12] == "updated_at"@ && stored[12] == text(j.updated_at@));
}

/// The chunks that a quality layer is expected to hold are the embeddable ones without those whose
/// jobs were skipped as excluded.
pub proof fn law_expected_chunks_are_not_excluded(
    facts: QualityGenerationFacts,
    embeddable: usize,
    i: int,
)
    requires
        ({
            let counts = all_of::<StatusCount>(facts.jobs@);
            &&& i64::of(facts.embeddable@[0]@) as usize == embeddable
            &&& forall|j: int, k: int|
                0 <= j < k < counts.len() ==> (#[trigger] counts[j]).status@ != (
                #[trigger] counts[k]).status@
            &&& 0 <= i < counts.len()
            &&& counts[i].status@ == "skipped_excluded"@
        }),
    ensures
        ({
            let excluded = all_of::<StatusCount>(facts.jobs@)[i].jobs as usize;
            &&& excluded <= embeddable ==> eligible_chunks(facts) + excluded == embeddable
            &&& excluded > embeddable ==> eligible_chunks(facts) == 0
        }),
{
    law_jobs_are_counted_by_state(all_of::<StatusCount>(facts.jobs@), "skipped_excluded"@, i);
}

} // verus!
