//! How answers are read: every field of a record is what stands in its column of the answer.

use vstd::prelude::*;
use crate::bindings::{lemma_says, says};
use crate::coverage::bucket_of;
use crate::generations::{
    CHUNK_EMBEDDINGS_FOR_GENERATION, EXPECTED_VECTOR_POINTS_FOR_GENERATION_LAYER, FAST_EMBEDDINGS,
    FAST_EMBEDDINGS_FOR_REF, LATEST_SEMANTIC_GENERATION, LATEST_SEMANTIC_GENERATION_FOR_REF,
    SEMANTIC_LAYER_MANIFEST_AGGREGATE,
};
use crate::quality::{
    CARRIED_EMBEDDINGS, QUALITY_EMBEDDING_JOBS_FOR_FAST_GENERATION, QUALITY_JOB,
    QUALITY_JOBS_BY_STATUS, QUALITY_JOB_COUNTS, QUALITY_JOB_SOURCE_ROW, SEMANTIC_GENERATION,
};
use crate::records::{
    CallPathEdge, CallResolutionEdgeRow, CallSearchRow, ChunkEmbeddingRecord, EmbeddingExclusionRow,
    EmbeddingIndexMetadata, EvidenceProvenance, ExpectedVectorPoint, FastEmbeddingManifestRecord,
    FileCallDetailRow, FileChunkDetailRow, FileFreshnessSnapshot, FileStateRecord,
    FileSymbolDetailRow, IndexRunTimelineRow, QualityEmbeddingJobRecord, QualityJobSourceRow,
    RepositoryRefRecord, SemanticGenerationRecord, SemanticLayerManifestAggregate,
    SemanticNeighborhoodRow, SymbolRecord, SymbolSearchRow, TestSearchRow, WatcherClientRecord,
    WatcherStatusRecord,
};
use crate::repository::{
    CURRENT_REPOSITORY_REF, FILE_INDEX_STATES, KNOWN_BRANCHES, LATEST_FILE_STATE_FOR_PATH,
    REF_FILE_INDEX_STATES,
};
use crate::rows::{
    BranchRow, CarriedRow, ChunkProjectionCounts, FileCoverageBaseRow, StatusCount,
    SymbolOutlineBaseRow, UnembeddedRow,
};
use crate::runs::{INDEX_RUNS_TIMELINE, LATEST_EMBEDDING_RUN, LATEST_EMBEDDING_RUN_FOR_MODEL};
use crate::search::{
    CALLEES, CALLEES_FOR_REF, CALLERS, CALLERS_FOR_REF, CALLS_AT_LOCATION, CALL_PATH_EDGES,
    CALL_PATH_EDGES_FOR_REF, FILE_PROVENANCE, FIND_SYMBOLS, FIND_SYMBOLS_FOR_REF,
    LIKELY_TESTS_FOR_SYMBOL, SYMBOLS_AT_LOCATION, TESTS_MATCHING_NAME,
};
use crate::sql::{
    optional_size_in, optional_small_in, optional_text_in, real_in, size_in, FromRow, SqlValue,
};
use crate::summaries::{
    CALL_RESOLUTION, CHUNK_PROJECTION, EMBEDDING_EXCLUSION_REASONS, FILE_CALL_DETAILS,
    FILE_CHUNK_DETAILS, FILE_SYMBOL_DETAILS, INDEXED_FILE_FRESHNESS_SNAPSHOTS,
    INDEXED_FILE_FRESHNESS_SNAPSHOTS_FOR_REF, INDEX_COVERAGE, RUST_SYMBOLS_FOR_REPOSITORY,
    SEMANTIC_NEIGHBORHOOD, SYMBOL_OUTLINE,
};
use crate::vector::{
    NEAREST_POINTS_FOR_REF_TAIL, NEAREST_POINTS_TAIL, SCROLL_POINTS, MatchedPoint, RetrievedPoint,
};
use crate::watchers::{WATCHER_CLIENTS, WATCHER_STATUS};

verus! {

/// The row that answers a query for `columns`, where `record` holds the value of every column.
pub open spec fn answer(
    columns: Seq<Seq<char>>,
    record: Map<Seq<char>,
    SqlValue>,
) -> Seq<SqlValue> {
    Seq::new(columns.len(), |i: int| record[columns[i]])
}

/// The answer to `current_repository_ref` is read by its columns.
pub proof fn law_current_repository_ref_is_read_by_column(record: Map<Seq<char>, SqlValue>)
    ensures
        says(CURRENT_REPOSITORY_REF@, "id, repository_id, ref_kind, ref_name, ref_identity, head_oid,
          is_current, last_seen_at, deleted_at, created_at, updated_at"@),
        ({
            let read = RepositoryRefRecord::of(
                answer(
                    seq![
                        "id"@,
                        "repository_id"@,
                        "ref_kind"@,
                        "ref_name"@,
                        "ref_identity"@,
                        "head_oid"@,
                        "is_current"@,
                        "last_seen_at"@,
                        "deleted_at"@,
                        "created_at"@,
                        "updated_at"@,
                    ],
                    record,
                ),
            );
            &&& read.id == record["id"@]->Text_0
            &&& read.repository_id == record["repository_id"@]->Text_0
            &&& read.ref_kind == record["ref_kind"@]->Text_0
            &&& read.ref_name == optional_text_in(record["ref_name"@])
            &&& read.ref_identity == record["ref_identity"@]->Text_0
            &&& read.head_oid == optional_text_in(record["head_oid"@])
            &&& read.is_current == (record["is_current"@]->Integer_0 != 0)
            &&& read.last_seen_at == optional_text_in(record["last_seen_at"@])
            &&& read.deleted_at == optional_text_in(record["deleted_at"@])
            &&& read.created_at == optional_text_in(record["created_at"@])
            &&& read.updated_at == optional_text_in(record["updated_at"@])
        }),
{
    let columns = seq![
        "id"@,
        "repository_id"@,
        "ref_kind"@,
        "ref_name"@,
        "ref_identity"@,
        "head_oid"@,
        "is_current"@,
        "last_seen_at"@,
        "deleted_at"@,
        "created_at"@,
        "updated_at"@,
    ];
    let row = answer(columns, record);
    assert(row[0] == record["id"@]);
    assert(row[1] == record["repository_id"@]);
    assert(row[2] == record["ref_kind"@]);
    assert(row[3] == record["ref_name"@]);
    assert(row[4] == record["ref_identity"@]);
    assert(row[5] == record["head_oid"@]);
    assert(row[6] == record["is_current"@]);
    assert(row[7] == record["last_seen_at"@]);
    assert(row[8] == record["deleted_at"@]);
    assert(row[9] == record["created_at"@]);
    assert(row[10] == record["updated_at"@]);
    reveal_strlit("SELECT id, repository_id, ref_kind, ref_name, ref_identity, head_oid,
          is_current, last_seen_at, deleted_at, created_at, updated_at
     FROM repository_refs
    WHERE repository_id = ?1
      AND is_current = 1
      AND deleted_at IS NULL
    ORDER BY last_seen_at DESC, updated_at DESC, id DESC
    LIMIT 1");
    reveal_strlit("id, repository_id, ref_kind, ref_name, ref_identity, head_oid,
          is_current, last_seen_at, deleted_at, created_at, updated_at");
    assert(CURRENT_REPOSITORY_REF@.subrange(7, 140) =~= "id, repository_id, ref_kind, ref_name, ref_identity, head_oid,
          is_current, last_seen_at, deleted_at, created_at, updated_at"@);
    lemma_says(CURRENT_REPOSITORY_REF@, "id, repository_id, ref_kind, ref_name, ref_identity, head_oid,
          is_current, last_seen_at, deleted_at, created_at, updated_at"@, 7);
}

/// The answer to `latest_file_state_for_path` is read by its columns.
pub proof fn law_latest_file_state_for_path_is_read_by_column(record: Map<Seq<char>, SqlValue>)
    ensures
        says(LATEST_FILE_STATE_FOR_PATH@, "path, content_hash"@),
        ({
            let read = FileStateRecord::of(
                answer(
                    seq![
                        "path"@,
                        "content_hash"@,
                    ],
                    record,
                ),
            );
            &&& read.path == record["path"@]->Text_0
            &&& read.content_hash == record["content_hash"@]->Text_0
        }),
{
    let columns = seq![
        "path"@,
        "content_hash"@,
    ];
    let row = answer(columns, record);
    assert(row[0] == record["path"@]);
    assert(row[1] == record["content_hash"@]);
    reveal_strlit("SELECT path, content_hash
     FROM files
    WHERE repository_id = ?1
      AND path = ?2
    ORDER BY indexed_at DESC, index_run_id DESC, id DESC
    LIMIT 1");
    reveal_strlit("path, content_hash");
    assert(LATEST_FILE_STATE_FOR_PATH@.subrange(7, 25) =~= "path, content_hash"@);
    lemma_says(LATEST_FILE_STATE_FOR_PATH@, "path, content_hash"@, 7);
}

/// The answer to `file_index_states` is read by its columns.
pub proof fn law_file_index_states_is_read_by_column(record: Map<Seq<char>, SqlValue>)
    ensures
        says(FILE_INDEX_STATES@, "path, content_hash"@),
        ({
            let read = FileStateRecord::of(
                answer(
                    seq![
                        "path"@,
                        "content_hash"@,
                    ],
                    record,
                ),
            );
            &&& read.path == record["path"@]->Text_0
            &&& read.content_hash == record["content_hash"@]->Text_0
        }),
{
    let columns = seq![
        "path"@,
        "content_hash"@,
    ];
    let row = answer(columns, record);
    assert(row[0] == record["path"@]);
    assert(row[1] == record["content_hash"@]);
    reveal_strlit("SELECT path, content_hash
     FROM files
    WHERE repository_id = ?1
    ORDER BY path, indexed_at DESC, index_run_id DESC, id DESC");
    reveal_strlit("path, content_hash");
    assert(FILE_INDEX_STATES@.subrange(7, 25) =~= "path, content_hash"@);
    lemma_says(FILE_INDEX_STATES@, "path, content_hash"@, 7);
}

/// The answer to `ref_file_index_states` is read by its columns.
pub proof fn law_ref_file_index_states_is_read_by_column(record: Map<Seq<char>, SqlValue>)
    ensures
        says(REF_FILE_INDEX_STATES@, "ref_files.path, files.content_hash"@),
        ({
            let read = FileStateRecord::of(
                answer(
                    seq![
                        "ref_files.path"@,
                        "files.content_hash"@,
                    ],
                    record,
                ),
            );
            &&& read.path == record["ref_files.path"@]->Text_0
            &&& read.content_hash == record["files.content_hash"@]->Text_0
        }),
{
    let columns = seq![
        "ref_files.path"@,
        "files.content_hash"@,
    ];
    let row = answer(columns, record);
    assert(row[0] == record["ref_files.path"@]);
    assert(row[1] == record["files.content_hash"@]);
    reveal_strlit("SELECT ref_files.path, files.content_hash
     FROM ref_files
     JOIN files ON files.id = ref_files.file_id
    WHERE ref_files.repository_ref_id = ?1
    ORDER BY ref_files.path");
    reveal_strlit("ref_files.path, files.content_hash");
    assert(REF_FILE_INDEX_STATES@.subrange(7, 41) =~= "ref_files.path, files.content_hash"@);
    lemma_says(REF_FILE_INDEX_STATES@, "ref_files.path, files.content_hash"@, 7);
}

/// The answer to `fast_embeddings` is read by its columns.
pub proof fn law_fast_embeddings_is_read_by_column(record: Map<Seq<char>, SqlValue>)
    ensures
        says(FAST_EMBEDDINGS@, "chunk_embeddings.file_id, chunk_embeddings.chunk_id,
           files.content_hash, chunks.text_hash, chunk_embeddings.vector_point_id"@),
        ({
            let read = FastEmbeddingManifestRecord::of(
                answer(
                    seq![
                        "chunk_embeddings.file_id"@,
                        "chunk_embeddings.chunk_id"@,
                        "files.content_hash"@,
                        "chunks.text_hash"@,
                        "chunk_embeddings.vector_point_id"@,
                    ],
                    record,
                ),
            );
            &&& read.file_id == record["chunk_embeddings.file_id"@]->Text_0
            &&& read.chunk_id == record["chunk_embeddings.chunk_id"@]->Text_0
            &&& read.content_hash == record["files.content_hash"@]->Text_0
            &&& read.text_hash == record["chunks.text_hash"@]->Text_0
            &&& read.vector_point_id == record["chunk_embeddings.vector_point_id"@]->Text_0
        }),
{
    let columns = seq![
        "chunk_embeddings.file_id"@,
        "chunk_embeddings.chunk_id"@,
        "files.content_hash"@,
        "chunks.text_hash"@,
        "chunk_embeddings.vector_point_id"@,
    ];
    let row = answer(columns, record);
    assert(row[0] == record["chunk_embeddings.file_id"@]);
    assert(row[1] == record["chunk_embeddings.chunk_id"@]);
    assert(row[2] == record["files.content_hash"@]);
    assert(row[3] == record["chunks.text_hash"@]);
    assert(row[4] == record["chunk_embeddings.vector_point_id"@]);
    reveal_strlit("SELECT chunk_embeddings.file_id, chunk_embeddings.chunk_id,
           files.content_hash, chunks.text_hash, chunk_embeddings.vector_point_id
    FROM chunk_embeddings
    JOIN chunks ON chunk_embeddings.chunk_id = chunks.id
    JOIN files ON chunk_embeddings.file_id = files.id
              AND chunks.file_id = files.id
    WHERE files.repository_id = ?1
      AND chunk_embeddings.repository_id = ?1
      AND chunk_embeddings.semantic_layer = 'fast'
      AND chunk_embeddings.embedding_model = ?2
      AND chunk_embeddings.embedding_dimension = ?3
      AND chunk_embeddings.vector_store = 'sqlite_vec'
      AND chunk_embeddings.status = 'current'
      AND chunks.excluded_reason IS NULL
    ORDER BY chunk_embeddings.chunk_id");
    reveal_strlit("chunk_embeddings.file_id, chunk_embeddings.chunk_id,
           files.content_hash, chunks.text_hash, chunk_embeddings.vector_point_id");
    assert(FAST_EMBEDDINGS@.subrange(7, 141) =~= "chunk_embeddings.file_id, chunk_embeddings.chunk_id,
           files.content_hash, chunks.text_hash, chunk_embeddings.vector_point_id"@);
    lemma_says(FAST_EMBEDDINGS@, "chunk_embeddings.file_id, chunk_embeddings.chunk_id,
           files.content_hash, chunks.text_hash, chunk_embeddings.vector_point_id"@, 7);
}

/// The answer to `fast_embeddings_for_ref` is read by its columns.
pub proof fn law_fast_embeddings_for_ref_is_read_by_column(record: Map<Seq<char>, SqlValue>)
    ensures
        says(FAST_EMBEDDINGS_FOR_REF@, "chunk_embeddings.file_id, chunk_embeddings.chunk_id,
           files.content_hash, chunks.text_hash, chunk_embeddings.vector_point_id"@),
        ({
            let read = FastEmbeddingManifestRecord::of(
                answer(
                    seq![
                        "chunk_embeddings.file_id"@,
                        "chunk_embeddings.chunk_id"@,
                        "files.content_hash"@,
                        "chunks.text_hash"@,
                        "chunk_embeddings.vector_point_id"@,
                    ],
                    record,
                ),
            );
            &&& read.file_id == record["chunk_embeddings.file_id"@]->Text_0
            &&& read.chunk_id == record["chunk_embeddings.chunk_id"@]->Text_0
            &&& read.content_hash == record["files.content_hash"@]->Text_0
            &&& read.text_hash == record["chunks.text_hash"@]->Text_0
            &&& read.vector_point_id == record["chunk_embeddings.vector_point_id"@]->Text_0
        }),
{
    let columns = seq![
        "chunk_embeddings.file_id"@,
        "chunk_embeddings.chunk_id"@,
        "files.content_hash"@,
        "chunks.text_hash"@,
        "chunk_embeddings.vector_point_id"@,
    ];
    let row = answer(columns, record);
    assert(row[0] == record["chunk_embeddings.file_id"@]);
    assert(row[1] == record["chunk_embeddings.chunk_id"@]);
    assert(row[2] == record["files.content_hash"@]);
    assert(row[3] == record["chunks.text_hash"@]);
    assert(row[4] == record["chunk_embeddings.vector_point_id"@]);
    reveal_strlit("SELECT chunk_embeddings.file_id, chunk_embeddings.chunk_id,
           files.content_hash, chunks.text_hash, chunk_embeddings.vector_point_id
    FROM chunk_embeddings
    JOIN chunks ON chunk_embeddings.chunk_id = chunks.id
    JOIN files ON chunk_embeddings.file_id = files.id
              AND chunks.file_id = files.id
    JOIN ref_files
      ON ref_files.repository_id = files.repository_id
     AND ref_files.repository_ref_id = ?4
     AND ref_files.file_id = files.id
     AND ref_files.path = files.path
    WHERE files.repository_id = ?1
      AND chunk_embeddings.repository_id = ?1
      AND chunk_embeddings.semantic_layer = 'fast'
      AND chunk_embeddings.embedding_model = ?2
      AND chunk_embeddings.embedding_dimension = ?3
      AND chunk_embeddings.vector_store = 'sqlite_vec'
      AND chunk_embeddings.status = 'current'
      AND chunks.excluded_reason IS NULL
    ORDER BY chunk_embeddings.chunk_id");
    reveal_strlit("chunk_embeddings.file_id, chunk_embeddings.chunk_id,
           files.content_hash, chunks.text_hash, chunk_embeddings.vector_point_id");
    assert(FAST_EMBEDDINGS_FOR_REF@.subrange(7, 141) =~= "chunk_embeddings.file_id, chunk_embeddings.chunk_id,
           files.content_hash, chunks.text_hash, chunk_embeddings.vector_point_id"@);
    lemma_says(FAST_EMBEDDINGS_FOR_REF@, "chunk_embeddings.file_id, chunk_embeddings.chunk_id,
           files.content_hash, chunks.text_hash, chunk_embeddings.vector_point_id"@, 7);
}

/// The answer to `semantic_generation` is read by its columns.
pub proof fn law_semantic_generation_is_read_by_column(record: Map<Seq<char>, SqlValue>)
    ensures
        says(SEMANTIC_GENERATION@, "id, repository_id, fast_model, fast_dimension, fast_completed_at,
           quality_model, quality_dimension, quality_status, quality_started_at,
           quality_completed_at, active_layer, files_seen, embeddable_chunks,
           fast_embedded_chunks, quality_embedded_chunks, created_at, updated_at"@),
        ({
            let read = SemanticGenerationRecord::of(
                answer(
                    seq![
                        "id"@,
                        "repository_id"@,
                        "fast_model"@,
                        "fast_dimension"@,
                        "fast_completed_at"@,
                        "quality_model"@,
                        "quality_dimension"@,
                        "quality_status"@,
                        "quality_started_at"@,
                        "quality_completed_at"@,
                        "active_layer"@,
                        "files_seen"@,
                        "embeddable_chunks"@,
                        "fast_embedded_chunks"@,
                        "quality_embedded_chunks"@,
                        "created_at"@,
                        "updated_at"@,
                    ],
                    record,
                ),
            );
            &&& read.id == record["id"@]->Text_0
            &&& read.repository_id == record["repository_id"@]->Text_0
            &&& read.fast_model == record["fast_model"@]->Text_0
            &&& read.fast_dimension == size_in(record["fast_dimension"@])
            &&& read.fast_completed_at == record["fast_completed_at"@]->Text_0
            &&& read.quality_model == optional_text_in(record["quality_model"@])
            &&& read.quality_dimension == optional_size_in(record["quality_dimension"@])
            &&& read.quality_status == record["quality_status"@]->Text_0
            &&& read.quality_started_at == optional_text_in(record["quality_started_at"@])
            &&& read.quality_completed_at == optional_text_in(record["quality_completed_at"@])
            &&& read.active_layer == record["active_layer"@]->Text_0
            &&& read.files_seen == size_in(record["files_seen"@])
            &&& read.embeddable_chunks == size_in(record["embeddable_chunks"@])
            &&& read.fast_embedded_chunks == size_in(record["fast_embedded_chunks"@])
            &&& read.quality_embedded_chunks == size_in(record["quality_embedded_chunks"@])
            &&& read.created_at == record["created_at"@]->Text_0
            &&& read.updated_at == record["updated_at"@]->Text_0
        }),
{
    let columns = seq![
        "id"@,
        "repository_id"@,
        "fast_model"@,
        "fast_dimension"@,
        "fast_completed_at"@,
        "quality_model"@,
        "quality_dimension"@,
        "quality_status"@,
        "quality_started_at"@,
        "quality_completed_at"@,
        "active_layer"@,
        "files_seen"@,
        "embeddable_chunks"@,
        "fast_embedded_chunks"@,
        "quality_embedded_chunks"@,
        "created_at"@,
        "updated_at"@,
    ];
    let row = answer(columns, record);
    assert(row[0] == record["id"@]);
    assert(row[1] == record["repository_id"@]);
    assert(row[2] == record["fast_model"@]);
    assert(row[3] == record["fast_dimension"@]);
    assert(row[4] == record["fast_completed_at"@]);
    assert(row[5] == record["quality_model"@]);
    assert(row[6] == record["quality_dimension"@]);
    assert(row[7] == record["quality_status"@]);
    assert(row[8] == record["quality_started_at"@]);
    assert(row[9] == record["quality_completed_at"@]);
    assert(row[10] == record["active_layer"@]);
    assert(row[11] == record["files_seen"@]);
    assert(row[12] == record["embeddable_chunks"@]);
    assert(row[13] == record["fast_embedded_chunks"@]);
    assert(row[14] == record["quality_embedded_chunks"@]);
    assert(row[15] == record["created_at"@]);
    assert(row[16] == record["updated_at"@]);
    reveal_strlit("SELECT id, repository_id, fast_model, fast_dimension, fast_completed_at,
           quality_model, quality_dimension, quality_status, quality_started_at,
           quality_completed_at, active_layer, files_seen, embeddable_chunks,
           fast_embedded_chunks, quality_embedded_chunks, created_at, updated_at
    FROM semantic_generations
    WHERE repository_id = ?1
      AND id = ?2");
    reveal_strlit("id, repository_id, fast_model, fast_dimension, fast_completed_at,
           quality_model, quality_dimension, quality_status, quality_started_at,
           quality_completed_at, active_layer, files_seen, embeddable_chunks,
           fast_embedded_chunks, quality_embedded_chunks, created_at, updated_at");
    assert(SEMANTIC_GENERATION@.subrange(7, 312) =~= "id, repository_id, fast_model, fast_dimension, fast_completed_at,
           quality_model, quality_dimension, quality_status, quality_started_at,
           quality_completed_at, active_layer, files_seen, embeddable_chunks,
           fast_embedded_chunks, quality_embedded_chunks, created_at, updated_at"@);
    lemma_says(SEMANTIC_GENERATION@, "id, repository_id, fast_model, fast_dimension, fast_completed_at,
           quality_model, quality_dimension, quality_status, quality_started_at,
           quality_completed_at, active_layer, files_seen, embeddable_chunks,
           fast_embedded_chunks, quality_embedded_chunks, created_at, updated_at"@, 7);
}

/// The answer to `latest_semantic_generation` is read by its columns.
pub proof fn law_latest_semantic_generation_is_read_by_column(record: Map<Seq<char>, SqlValue>)
    ensures
        says(LATEST_SEMANTIC_GENERATION@, "id, repository_id, fast_model, fast_dimension, fast_completed_at,
           quality_model, quality_dimension, quality_status, quality_started_at,
           quality_completed_at, active_layer, files_seen, embeddable_chunks,
           fast_embedded_chunks, quality_embedded_chunks, created_at, updated_at"@),
        ({
            let read = SemanticGenerationRecord::of(
                answer(
                    seq![
                        "id"@,
                        "repository_id"@,
                        "fast_model"@,
                        "fast_dimension"@,
                        "fast_completed_at"@,
                        "quality_model"@,
                        "quality_dimension"@,
                        "quality_status"@,
                        "quality_started_at"@,
                        "quality_completed_at"@,
                        "active_layer"@,
                        "files_seen"@,
                        "embeddable_chunks"@,
                        "fast_embedded_chunks"@,
                        "quality_embedded_chunks"@,
                        "created_at"@,
                        "updated_at"@,
                    ],
                    record,
                ),
            );
            &&& read.id == record["id"@]->Text_0
            &&& read.repository_id == record["repository_id"@]->Text_0
            &&& read.fast_model == record["fast_model"@]->Text_0
            &&& read.fast_dimension == size_in(record["fast_dimension"@])
            &&& read.fast_completed_at == record["fast_completed_at"@]->Text_0
            &&& read.quality_model == optional_text_in(record["quality_model"@])
            &&& read.quality_dimension == optional_size_in(record["quality_dimension"@])
            &&& read.quality_status == record["quality_status"@]->Text_0
            &&& read.quality_started_at == optional_text_in(record["quality_started_at"@])
            &&& read.quality_completed_at == optional_text_in(record["quality_completed_at"@])
            &&& read.active_layer == record["active_layer"@]->Text_0
            &&& read.files_seen == size_in(record["files_seen"@])
            &&& read.embeddable_chunks == size_in(record["embeddable_chunks"@])
            &&& read.fast_embedded_chunks == size_in(record["fast_embedded_chunks"@])
            &&& read.quality_embedded_chunks == size_in(record["quality_embedded_chunks"@])
            &&& read.created_at == record["created_at"@]->Text_0
            &&& read.updated_at == record["updated_at"@]->Text_0
        }),
{
    let columns = seq![
        "id"@,
        "repository_id"@,
        "fast_model"@,
        "fast_dimension"@,
        "fast_completed_at"@,
        "quality_model"@,
        "quality_dimension"@,
        "quality_status"@,
        "quality_started_at"@,
        "quality_completed_at"@,
        "active_layer"@,
        "files_seen"@,
        "embeddable_chunks"@,
        "fast_embedded_chunks"@,
        "quality_embedded_chunks"@,
        "created_at"@,
        "updated_at"@,
    ];
    let row = answer(columns, record);
    assert(row[0] == record["id"@]);
    assert(row[1] == record["repository_id"@]);
    assert(row[2] == record["fast_model"@]);
    assert(row[3] == record["fast_dimension"@]);
    assert(row[4] == record["fast_completed_at"@]);
    assert(row[5] == record["quality_model"@]);
    assert(row[6] == record["quality_dimension"@]);
    assert(row[7] == record["quality_status"@]);
    assert(row[8] == record["quality_started_at"@]);
    assert(row[9] == record["quality_completed_at"@]);
    assert(row[10] == record["active_layer"@]);
    assert(row[11] == record["files_seen"@]);
    assert(row[12] == record["embeddable_chunks"@]);
    assert(row[13] == record["fast_embedded_chunks"@]);
    assert(row[14] == record["quality_embedded_chunks"@]);
    assert(row[15] == record["created_at"@]);
    assert(row[16] == record["updated_at"@]);
    reveal_strlit("SELECT id, repository_id, fast_model, fast_dimension, fast_completed_at,
           quality_model, quality_dimension, quality_status, quality_started_at,
           quality_completed_at, active_layer, files_seen, embeddable_chunks,
           fast_embedded_chunks, quality_embedded_chunks, created_at, updated_at
    FROM semantic_generations
    WHERE repository_id = ?1
    ORDER BY fast_completed_at DESC, created_at DESC, id DESC
    LIMIT 1");
    reveal_strlit("id, repository_id, fast_model, fast_dimension, fast_completed_at,
           quality_model, quality_dimension, quality_status, quality_started_at,
           quality_completed_at, active_layer, files_seen, embeddable_chunks,
           fast_embedded_chunks, quality_embedded_chunks, created_at, updated_at");
    assert(LATEST_SEMANTIC_GENERATION@.subrange(7, 312) =~= "id, repository_id, fast_model, fast_dimension, fast_completed_at,
           quality_model, quality_dimension, quality_status, quality_started_at,
           quality_completed_at, active_layer, files_seen, embeddable_chunks,
           fast_embedded_chunks, quality_embedded_chunks, created_at, updated_at"@);
    lemma_says(LATEST_SEMANTIC_GENERATION@, "id, repository_id, fast_model, fast_dimension, fast_completed_at,
           quality_model, quality_dimension, quality_status, quality_started_at,
           quality_completed_at, active_layer, files_seen, embeddable_chunks,
           fast_embedded_chunks, quality_embedded_chunks, created_at, updated_at"@, 7);
}

/// The answer to `latest_semantic_generation_for_ref` is read by its columns.
pub proof fn law_latest_semantic_generation_for_ref_is_read_by_column(
    record: Map<Seq<char>,
    SqlValue>,
)
    ensures
        says(LATEST_SEMANTIC_GENERATION_FOR_REF@, "semantic_generations.id, semantic_generations.repository_id,
          semantic_generations.fast_model, semantic_generations.fast_dimension,
          semantic_generations.fast_completed_at,
          semantic_generations.quality_model,
          semantic_generations.quality_dimension,
          semantic_generations.quality_status,
          semantic_generations.quality_started_at,
          semantic_generations.quality_completed_at,
          semantic_generations.active_layer,
          semantic_generations.files_seen,
          semantic_generations.embeddable_chunks,
          semantic_generations.fast_embedded_chunks,
          semantic_generations.quality_embedded_chunks,
          semantic_generations.created_at,
          semantic_generations.updated_at"@),
        ({
            let read = SemanticGenerationRecord::of(
                answer(
                    seq![
                        "semantic_generations.id"@,
                        "semantic_generations.repository_id"@,
                        "semantic_generations.fast_model"@,
                        "semantic_generations.fast_dimension"@,
                        "semantic_generations.fast_completed_at"@,
                        "semantic_generations.quality_model"@,
                        "semantic_generations.quality_dimension"@,
                        "semantic_generations.quality_status"@,
                        "semantic_generations.quality_started_at"@,
                        "semantic_generations.quality_completed_at"@,
                        "semantic_generations.active_layer"@,
                        "semantic_generations.files_seen"@,
                        "semantic_generations.embeddable_chunks"@,
                        "semantic_generations.fast_embedded_chunks"@,
                        "semantic_generations.quality_embedded_chunks"@,
                        "semantic_generations.created_at"@,
                        "semantic_generations.updated_at"@,
                    ],
                    record,
                ),
            );
            &&& read.id == record["semantic_generations.id"@]->Text_0
            &&& read.repository_id == record["semantic_generations.repository_id"@]->Text_0
            &&& read.fast_model == record["semantic_generations.fast_model"@]->Text_0
            &&& read.fast_dimension == size_in(record["semantic_generations.fast_dimension"@])
            &&& read.fast_completed_at == record["semantic_generations.fast_completed_at"@]->Text_0
            &&& read.quality_model == optional_text_in(record["semantic_generations.quality_model"@])
            &&& read.quality_dimension == optional_size_in(record["semantic_generations.quality_dimension"@])
            &&& read.quality_status == record["semantic_generations.quality_status"@]->Text_0
            &&& read.quality_started_at == optional_text_in(record["semantic_generations.quality_started_at"@])
            &&& read.quality_completed_at == optional_text_in(record["semantic_generations.quality_completed_at"@])
            &&& read.active_layer == record["semantic_generations.active_layer"@]->Text_0
            &&& read.files_seen == size_in(record["semantic_generations.files_seen"@])
            &&& read.embeddable_chunks == size_in(record["semantic_generations.embeddable_chunks"@])
            &&& read.fast_embedded_chunks == size_in(record["semantic_generations.fast_embedded_chunks"@])
            &&& read.quality_embedded_chunks == size_in(record["semantic_generations.quality_embedded_chunks"@])
            &&& read.created_at == record["semantic_generations.created_at"@]->Text_0
            &&& read.updated_at == record["semantic_generations.updated_at"@]->Text_0
        }),
{
    let columns = seq![
        "semantic_generations.id"@,
        "semantic_generations.repository_id"@,
        "semantic_generations.fast_model"@,
        "semantic_generations.fast_dimension"@,
        "semantic_generations.fast_completed_at"@,
        "semantic_generations.quality_model"@,
        "semantic_generations.quality_dimension"@,
        "semantic_generations.quality_status"@,
        "semantic_generations.quality_started_at"@,
        "semantic_generations.quality_completed_at"@,
        "semantic_generations.active_layer"@,
        "semantic_generations.files_seen"@,
        "semantic_generations.embeddable_chunks"@,
        "semantic_generations.fast_embedded_chunks"@,
        "semantic_generations.quality_embedded_chunks"@,
        "semantic_generations.created_at"@,
        "semantic_generations.updated_at"@,
    ];
    let row = answer(columns, record);
    assert(row[0] == record["semantic_generations.id"@]);
    assert(row[1] == record["semantic_generations.repository_id"@]);
    assert(row[2] == record["semantic_generations.fast_model"@]);
    assert(row[3] == record["semantic_generations.fast_dimension"@]);
    assert(row[4] == record["semantic_generations.fast_completed_at"@]);
    assert(row[5] == record["semantic_generations.quality_model"@]);
    assert(row[6] == record["semantic_generations.quality_dimension"@]);
    assert(row[7] == record["semantic_generations.quality_status"@]);
    assert(row[8] == record["semantic_generations.quality_started_at"@]);
    assert(row[9] == record["semantic_generations.quality_completed_at"@]);
    assert(row[10] == record["semantic_generations.active_layer"@]);
    assert(row[11] == record["semantic_generations.files_seen"@]);
    assert(row[12] == record["semantic_generations.embeddable_chunks"@]);
    assert(row[13] == record["semantic_generations.fast_embedded_chunks"@]);
    assert(row[14] == record["semantic_generations.quality_embedded_chunks"@]);
    assert(row[15] == record["semantic_generations.created_at"@]);
    assert(row[16] == record["semantic_generations.updated_at"@]);
    reveal_strlit("SELECT semantic_generations.id, semantic_generations.repository_id,
          semantic_generations.fast_model, semantic_generations.fast_dimension,
          semantic_generations.fast_completed_at,
          semantic_generations.quality_model,
          semantic_generations.quality_dimension,
          semantic_generations.quality_status,
          semantic_generations.quality_started_at,
          semantic_generations.quality_completed_at,
          semantic_generations.active_layer,
          semantic_generations.files_seen,
          semantic_generations.embeddable_chunks,
          semantic_generations.fast_embedded_chunks,
          semantic_generations.quality_embedded_chunks,
          semantic_generations.created_at,
          semantic_generations.updated_at
     FROM semantic_generation_refs
     JOIN semantic_generations
       ON semantic_generations.id = semantic_generation_refs.generation_id
    WHERE semantic_generation_refs.repository_id = ?1
      AND semantic_generation_refs.repository_ref_id = ?2
    LIMIT 1");
    reveal_strlit("semantic_generations.id, semantic_generations.repository_id,
          semantic_generations.fast_model, semantic_generations.fast_dimension,
          semantic_generations.fast_completed_at,
          semantic_generations.quality_model,
          semantic_generations.quality_dimension,
          semantic_generations.quality_status,
          semantic_generations.quality_started_at,
          semantic_generations.quality_completed_at,
          semantic_generations.active_layer,
          semantic_generations.files_seen,
          semantic_generations.embeddable_chunks,
          semantic_generations.fast_embedded_chunks,
          semantic_generations.quality_embedded_chunks,
          semantic_generations.created_at,
          semantic_generations.updated_at");
    assert(LATEST_SEMANTIC_GENERATION_FOR_REF@.subrange(7, 776) =~= "semantic_generations.id, semantic_generations.repository_id,
          semantic_generations.fast_model, semantic_generations.fast_dimension,
          semantic_generations.fast_completed_at,
          semantic_generations.quality_model,
          semantic_generations.quality_dimension,
          semantic_generations.quality_status,
          semantic_generations.quality_started_at,
          semantic_generations.quality_completed_at,
          semantic_generations.active_layer,
          semantic_generations.files_seen,
          semantic_generations.embeddable_chunks,
          semantic_generations.fast_embedded_chunks,
          semantic_generations.quality_embedded_chunks,
          semantic_generations.created_at,
          semantic_generations.updated_at"@);
    lemma_says(LATEST_SEMANTIC_GENERATION_FOR_REF@, "semantic_generations.id, semantic_generations.repository_id,
          semantic_generations.fast_model, semantic_generations.fast_dimension,
          semantic_generations.fast_completed_at,
          semantic_generations.quality_model,
          semantic_generations.quality_dimension,
          semantic_generations.quality_status,
          semantic_generations.quality_started_at,
          semantic_generations.quality_completed_at,
          semantic_generations.active_layer,
          semantic_generations.files_seen,
          semantic_generations.embeddable_chunks,
          semantic_generations.fast_embedded_chunks,
          semantic_generations.quality_embedded_chunks,
          semantic_generations.created_at,
          semantic_generations.updated_at"@, 7);
}

/// The answer to `semantic_layer_manifest_aggregate` is read by its columns.
pub proof fn law_semantic_layer_manifest_aggregate_is_read_by_column(
    record: Map<Seq<char>,
    SqlValue>,
)
    ensures
        says(SEMANTIC_LAYER_MANIFEST_AGGREGATE@, "embedding_model, embedding_dimension, vector_table,
           SUM(CASE WHEN status = 'current' THEN 1 ELSE 0 END),
           SUM(CASE WHEN status = 'stale' THEN 1 ELSE 0 END),
           SUM(CASE WHEN status = 'blocked' THEN 1 ELSE 0 END),
           SUM(CASE WHEN status = 'failed' THEN 1 ELSE 0 END),
           SUM(CASE WHEN status NOT IN ('current', 'stale', 'blocked', 'failed') THEN 1 ELSE 0 END),
           COUNT(*)"@),
        ({
            let read = SemanticLayerManifestAggregate::of(
                answer(
                    seq![
                        "embedding_model"@,
                        "embedding_dimension"@,
                        "vector_table"@,
                        "SUM(CASE WHEN status = 'current' THEN 1 ELSE 0 END)"@,
                        "SUM(CASE WHEN status = 'stale' THEN 1 ELSE 0 END)"@,
                        "SUM(CASE WHEN status = 'blocked' THEN 1 ELSE 0 END)"@,
                        "SUM(CASE WHEN status = 'failed' THEN 1 ELSE 0 END)"@,
                        "SUM(CASE WHEN status NOT IN ('current', 'stale', 'blocked', 'failed') THEN 1 ELSE 0 END)"@,
                        "COUNT(*)"@,
                    ],
                    record,
                ),
            );
            &&& read.embedding_model == record["embedding_model"@]->Text_0
            &&& read.embedding_dimension == record["embedding_dimension"@]->Integer_0
            &&& read.vector_table == record["vector_table"@]->Text_0
            &&& read.current_chunks == record["SUM(CASE WHEN status = 'current' THEN 1 ELSE 0 END)"@]->Integer_0
            &&& read.stale_chunks == record["SUM(CASE WHEN status = 'stale' THEN 1 ELSE 0 END)"@]->Integer_0
            &&& read.blocked_chunks == record["SUM(CASE WHEN status = 'blocked' THEN 1 ELSE 0 END)"@]->Integer_0
            &&& read.failed_chunks == record["SUM(CASE WHEN status = 'failed' THEN 1 ELSE 0 END)"@]->Integer_0
            &&& read.other_chunks == record["SUM(CASE WHEN status NOT IN ('current', 'stale', 'blocked', 'failed') THEN 1 ELSE 0 END)"@]->Integer_0
            &&& read.total_chunks == record["COUNT(*)"@]->Integer_0
        }),
{
    let columns = seq![
        "embedding_model"@,
        "embedding_dimension"@,
        "vector_table"@,
        "SUM(CASE WHEN status = 'current' THEN 1 ELSE 0 END)"@,
        "SUM(CASE WHEN status = 'stale' THEN 1 ELSE 0 END)"@,
        "SUM(CASE WHEN status = 'blocked' THEN 1 ELSE 0 END)"@,
        "SUM(CASE WHEN status = 'failed' THEN 1 ELSE 0 END)"@,
        "SUM(CASE WHEN status NOT IN ('current', 'stale', 'blocked', 'failed') THEN 1 ELSE 0 END)"@,
        "COUNT(*)"@,
    ];
    let row = answer(columns, record);
    assert(row[0] == record["embedding_model"@]);
    assert(row[1] == record["embedding_dimension"@]);
    assert(row[2] == record["vector_table"@]);
    assert(row[3] == record["SUM(CASE WHEN status = 'current' THEN 1 ELSE 0 END)"@]);
    assert(row[4] == record["SUM(CASE WHEN status = 'stale' THEN 1 ELSE 0 END)"@]);
    assert(row[5] == record["SUM(CASE WHEN status = 'blocked' THEN 1 ELSE 0 END)"@]);
    assert(row[6] == record["SUM(CASE WHEN status = 'failed' THEN 1 ELSE 0 END)"@]);
    assert(row[7] == record["SUM(CASE WHEN status NOT IN ('current', 'stale', 'blocked', 'failed') THEN 1 ELSE 0 END)"@]);
    assert(row[8] == record["COUNT(*)"@]);
    reveal_strlit("SELECT embedding_model, embedding_dimension, vector_table,
           SUM(CASE WHEN status = 'current' THEN 1 ELSE 0 END),
           SUM(CASE WHEN status = 'stale' THEN 1 ELSE 0 END),
           SUM(CASE WHEN status = 'blocked' THEN 1 ELSE 0 END),
           SUM(CASE WHEN status = 'failed' THEN 1 ELSE 0 END),
           SUM(CASE WHEN status NOT IN ('current', 'stale', 'blocked', 'failed') THEN 1 ELSE 0 END),
           COUNT(*)
    FROM chunk_embeddings
    WHERE repository_id = ?1
      AND generation_id = ?2
      AND semantic_layer = ?3
      AND vector_store = 'sqlite_vec'
    GROUP BY embedding_model, embedding_dimension, vector_table
    ORDER BY 4 DESC, 9 DESC, embedding_model, vector_table
    LIMIT 1");
    reveal_strlit("embedding_model, embedding_dimension, vector_table,
           SUM(CASE WHEN status = 'current' THEN 1 ELSE 0 END),
           SUM(CASE WHEN status = 'stale' THEN 1 ELSE 0 END),
           SUM(CASE WHEN status = 'blocked' THEN 1 ELSE 0 END),
           SUM(CASE WHEN status = 'failed' THEN 1 ELSE 0 END),
           SUM(CASE WHEN status NOT IN ('current', 'stale', 'blocked', 'failed') THEN 1 ELSE 0 END),
           COUNT(*)");
    assert(SEMANTIC_LAYER_MANIFEST_AGGREGATE@.subrange(7, 432) =~= "embedding_model, embedding_dimension, vector_table,
           SUM(CASE WHEN status = 'current' THEN 1 ELSE 0 END),
           SUM(CASE WHEN status = 'stale' THEN 1 ELSE 0 END),
           SUM(CASE WHEN status = 'blocked' THEN 1 ELSE 0 END),
           SUM(CASE WHEN status = 'failed' THEN 1 ELSE 0 END),
           SUM(CASE WHEN status NOT IN ('current', 'stale', 'blocked', 'failed') THEN 1 ELSE 0 END),
           COUNT(*)"@);
    lemma_says(SEMANTIC_LAYER_MANIFEST_AGGREGATE@, "embedding_model, embedding_dimension, vector_table,
           SUM(CASE WHEN status = 'current' THEN 1 ELSE 0 END),
           SUM(CASE WHEN status = 'stale' THEN 1 ELSE 0 END),
           SUM(CASE WHEN status = 'blocked' THEN 1 ELSE 0 END),
           SUM(CASE WHEN status = 'failed' THEN 1 ELSE 0 END),
           SUM(CASE WHEN status NOT IN ('current', 'stale', 'blocked', 'failed') THEN 1 ELSE 0 END),
           COUNT(*)"@, 7);
}

/// The answer to `chunk_embeddings_for_generation` is read by its columns.
pub proof fn law_chunk_embeddings_for_generation_is_read_by_column(record: Map<Seq<char>, SqlValue>)
    ensures
        says(CHUNK_EMBEDDINGS_FOR_GENERATION@, "id, repository_id, file_id, chunk_id, semantic_layer, embedding_model,
           embedding_dimension, content_hash, text_hash, vector_table,
           vector_point_id, generation_id, embedded_at, status"@),
        ({
            let read = ChunkEmbeddingRecord::of(
                answer(
                    seq![
                        "id"@,
                        "repository_id"@,
                        "file_id"@,
                        "chunk_id"@,
                        "semantic_layer"@,
                        "embedding_model"@,
                        "embedding_dimension"@,
                        "content_hash"@,
                        "text_hash"@,
                        "vector_table"@,
                        "vector_point_id"@,
                        "generation_id"@,
                        "embedded_at"@,
                        "status"@,
                    ],
                    record,
                ),
            );
            &&& read.id == record["id"@]->Text_0
            &&& read.repository_id == record["repository_id"@]->Text_0
            &&& read.file_id == record["file_id"@]->Text_0
            &&& read.chunk_id == record["chunk_id"@]->Text_0
            &&& read.semantic_layer == record["semantic_layer"@]->Text_0
            &&& read.embedding_model == record["embedding_model"@]->Text_0
            &&& read.embedding_dimension == size_in(record["embedding_dimension"@])
            &&& read.content_hash == record["content_hash"@]->Text_0
            &&& read.text_hash == record["text_hash"@]->Text_0
            &&& read.vector_table == record["vector_table"@]->Text_0
            &&& read.vector_point_id == record["vector_point_id"@]->Text_0
            &&& read.generation_id == record["generation_id"@]->Text_0
            &&& read.embedded_at == record["embedded_at"@]->Text_0
            &&& read.status == record["status"@]->Text_0
        }),
{
    let columns = seq![
        "id"@,
        "repository_id"@,
        "file_id"@,
        "chunk_id"@,
        "semantic_layer"@,
        "embedding_model"@,
        "embedding_dimension"@,
        "content_hash"@,
        "text_hash"@,
        "vector_table"@,
        "vector_point_id"@,
        "generation_id"@,
        "embedded_at"@,
        "status"@,
    ];
    let row = answer(columns, record);
    assert(row[0] == record["id"@]);
    assert(row[1] == record["repository_id"@]);
    assert(row[2] == record["file_id"@]);
    assert(row[3] == record["chunk_id"@]);
    assert(row[4] == record["semantic_layer"@]);
    assert(row[5] == record["embedding_model"@]);
    assert(row[6] == record["embedding_dimension"@]);
    assert(row[7] == record["content_hash"@]);
    assert(row[8] == record["text_hash"@]);
    assert(row[9] == record["vector_table"@]);
    assert(row[10] == record["vector_point_id"@]);
    assert(row[11] == record["generation_id"@]);
    assert(row[12] == record["embedded_at"@]);
    assert(row[13] == record["status"@]);
    reveal_strlit("SELECT id, repository_id, file_id, chunk_id, semantic_layer, embedding_model,
           embedding_dimension, content_hash, text_hash, vector_table,
           vector_point_id, generation_id, embedded_at, status
    FROM chunk_embeddings
    WHERE repository_id = ?1
      AND generation_id = ?2
      AND semantic_layer = ?3
    ORDER BY chunk_id, embedding_model, embedding_dimension");
    reveal_strlit("id, repository_id, file_id, chunk_id, semantic_layer, embedding_model,
           embedding_dimension, content_hash, text_hash, vector_table,
           vector_point_id, generation_id, embedded_at, status");
    assert(CHUNK_EMBEDDINGS_FOR_GENERATION@.subrange(7, 211) =~= "id, repository_id, file_id, chunk_id, semantic_layer, embedding_model,
           embedding_dimension, content_hash, text_hash, vector_table,
           vector_point_id, generation_id, embedded_at, status"@);
    lemma_says(CHUNK_EMBEDDINGS_FOR_GENERATION@, "id, repository_id, file_id, chunk_id, semantic_layer, embedding_model,
           embedding_dimension, content_hash, text_hash, vector_table,
           vector_point_id, generation_id, embedded_at, status"@, 7);
}

/// The answer to `quality_jobs_by_status` is read by its columns.
pub proof fn law_quality_jobs_by_status_is_read_by_column(record: Map<Seq<char>, SqlValue>)
    ensures
        says(QUALITY_JOBS_BY_STATUS@, "id, repository_id, generation_id, chunk_id, file_id, path,
           content_hash, text_hash, status, attempts, error_summary,
           created_at, updated_at"@),
        ({
            let read = QualityEmbeddingJobRecord::of(
                answer(
                    seq![
                        "id"@,
                        "repository_id"@,
                        "generation_id"@,
                        "chunk_id"@,
                        "file_id"@,
                        "path"@,
                        "content_hash"@,
                        "text_hash"@,
                        "status"@,
                        "attempts"@,
                        "error_summary"@,
                        "created_at"@,
                        "updated_at"@,
                    ],
                    record,
                ),
            );
            &&& read.id == record["id"@]->Text_0
            &&& read.repository_id == record["repository_id"@]->Text_0
            &&& read.generation_id == record["generation_id"@]->Text_0
            &&& read.chunk_id == record["chunk_id"@]->Text_0
            &&& read.file_id == record["file_id"@]->Text_0
            &&& read.path == record["path"@]->Text_0
            &&& read.content_hash == record["content_hash"@]->Text_0
            &&& read.text_hash == record["text_hash"@]->Text_0
            &&& read.status == record["status"@]->Text_0
            &&& read.attempts == size_in(record["attempts"@])
            &&& read.error_summary == optional_text_in(record["error_summary"@])
            &&& read.created_at == record["created_at"@]->Text_0
            &&& read.updated_at == record["updated_at"@]->Text_0
        }),
{
    let columns = seq![
        "id"@,
        "repository_id"@,
        "generation_id"@,
        "chunk_id"@,
        "file_id"@,
        "path"@,
        "content_hash"@,
        "text_hash"@,
        "status"@,
        "attempts"@,
        "error_summary"@,
        "created_at"@,
        "updated_at"@,
    ];
    let row = answer(columns, record);
    assert(row[0] == record["id"@]);
    assert(row[1] == record["repository_id"@]);
    assert(row[2] == record["generation_id"@]);
    assert(row[3] == record["chunk_id"@]);
    assert(row[4] == record["file_id"@]);
    assert(row[5] == record["path"@]);
    assert(row[6] == record["content_hash"@]);
    assert(row[7] == record["text_hash"@]);
    assert(row[8] == record["status"@]);
    assert(row[9] == record["attempts"@]);
    assert(row[10] == record["error_summary"@]);
    assert(row[11] == record["created_at"@]);
    assert(row[12] == record["updated_at"@]);
    reveal_strlit("SELECT id, repository_id, generation_id, chunk_id, file_id, path,
           content_hash, text_hash, status, attempts, error_summary,
           created_at, updated_at
    FROM quality_embedding_jobs
    WHERE repository_id = ?1
      AND generation_id = ?2
      AND status = ?3
    ORDER BY updated_at, id");
    reveal_strlit("id, repository_id, generation_id, chunk_id, file_id, path,
           content_hash, text_hash, status, attempts, error_summary,
           created_at, updated_at");
    assert(QUALITY_JOBS_BY_STATUS@.subrange(7, 168) =~= "id, repository_id, generation_id, chunk_id, file_id, path,
           content_hash, text_hash, status, attempts, error_summary,
           created_at, updated_at"@);
    lemma_says(QUALITY_JOBS_BY_STATUS@, "id, repository_id, generation_id, chunk_id, file_id, path,
           content_hash, text_hash, status, attempts, error_summary,
           created_at, updated_at"@, 7);
}

/// The answer to `quality_job` is read by its columns.
pub proof fn law_quality_job_is_read_by_column(record: Map<Seq<char>, SqlValue>)
    ensures
        says(QUALITY_JOB@, "id, repository_id, generation_id, chunk_id, file_id, path,
           content_hash, text_hash, status, attempts, error_summary,
           created_at, updated_at"@),
        ({
            let read = QualityEmbeddingJobRecord::of(
                answer(
                    seq![
                        "id"@,
                        "repository_id"@,
                        "generation_id"@,
                        "chunk_id"@,
                        "file_id"@,
                        "path"@,
                        "content_hash"@,
                        "text_hash"@,
                        "status"@,
                        "attempts"@,
                        "error_summary"@,
                        "created_at"@,
                        "updated_at"@,
                    ],
                    record,
                ),
            );
            &&& read.id == record["id"@]->Text_0
            &&& read.repository_id == record["repository_id"@]->Text_0
            &&& read.generation_id == record["generation_id"@]->Text_0
            &&& read.chunk_id == record["chunk_id"@]->Text_0
            &&& read.file_id == record["file_id"@]->Text_0
            &&& read.path == record["path"@]->Text_0
            &&& read.content_hash == record["content_hash"@]->Text_0
            &&& read.text_hash == record["text_hash"@]->Text_0
            &&& read.status == record["status"@]->Text_0
            &&& read.attempts == size_in(record["attempts"@])
            &&& read.error_summary == optional_text_in(record["error_summary"@])
            &&& read.created_at == record["created_at"@]->Text_0
            &&& read.updated_at == record["updated_at"@]->Text_0
        }),
{
    let columns = seq![
        "id"@,
        "repository_id"@,
        "generation_id"@,
        "chunk_id"@,
        "file_id"@,
        "path"@,
        "content_hash"@,
        "text_hash"@,
        "status"@,
        "attempts"@,
        "error_summary"@,
        "created_at"@,
        "updated_at"@,
    ];
    let row = answer(columns, record);
    assert(row[0] == record["id"@]);
    assert(row[1] == record["repository_id"@]);
    assert(row[2] == record["generation_id"@]);
    assert(row[3] == record["chunk_id"@]);
    assert(row[4] == record["file_id"@]);
    assert(row[5] == record["path"@]);
    assert(row[6] == record["content_hash"@]);
    assert(row[7] == record["text_hash"@]);
    assert(row[8] == record["status"@]);
    assert(row[9] == record["attempts"@]);
    assert(row[10] == record["error_summary"@]);
    assert(row[11] == record["created_at"@]);
    assert(row[12] == record["updated_at"@]);
    reveal_strlit("SELECT id, repository_id, generation_id, chunk_id, file_id, path,
           content_hash, text_hash, status, attempts, error_summary,
           created_at, updated_at
    FROM quality_embedding_jobs
    WHERE id = ?1");
    reveal_strlit("id, repository_id, generation_id, chunk_id, file_id, path,
           content_hash, text_hash, status, attempts, error_summary,
           created_at, updated_at");
    assert(QUALITY_JOB@.subrange(7, 168) =~= "id, repository_id, generation_id, chunk_id, file_id, path,
           content_hash, text_hash, status, attempts, error_summary,
           created_at, updated_at"@);
    lemma_says(QUALITY_JOB@, "id, repository_id, generation_id, chunk_id, file_id, path,
           content_hash, text_hash, status, attempts, error_summary,
           created_at, updated_at"@, 7);
}

/// The answer to `watcher_status` is read by its columns.
pub proof fn law_watcher_status_is_read_by_column(record: Map<Seq<char>, SqlValue>)
    ensures
        says(WATCHER_STATUS@, "repository_id, root_path, mode, owner_kind, owner_pid, socket_path,
          state, started_at, updated_at, heartbeat_at, files_seen, queued_events,
          last_indexed_path, last_error, active_layer, quality_status,
          quality_pending_jobs, quality_running_jobs, quality_failed_jobs,
          quality_stale_jobs"@),
        ({
            let read = WatcherStatusRecord::of(
                answer(
                    seq![
                        "repository_id"@,
                        "root_path"@,
                        "mode"@,
                        "owner_kind"@,
                        "owner_pid"@,
                        "socket_path"@,
                        "state"@,
                        "started_at"@,
                        "updated_at"@,
                        "heartbeat_at"@,
                        "files_seen"@,
                        "queued_events"@,
                        "last_indexed_path"@,
                        "last_error"@,
                        "active_layer"@,
                        "quality_status"@,
                        "quality_pending_jobs"@,
                        "quality_running_jobs"@,
                        "quality_failed_jobs"@,
                        "quality_stale_jobs"@,
                    ],
                    record,
                ),
            );
            &&& read.repository_id == record["repository_id"@]->Text_0
            &&& read.root_path == record["root_path"@]->Text_0
            &&& read.mode == record["mode"@]->Text_0
            &&& read.owner_kind == record["owner_kind"@]->Text_0
            &&& read.owner_pid == optional_small_in(record["owner_pid"@])
            &&& read.socket_path == optional_text_in(record["socket_path"@])
            &&& read.state == record["state"@]->Text_0
            &&& read.started_at == optional_text_in(record["started_at"@])
            &&& read.updated_at == optional_text_in(record["updated_at"@])
            &&& read.heartbeat_at == optional_text_in(record["heartbeat_at"@])
            &&& read.files_seen == size_in(record["files_seen"@])
            &&& read.queued_events == size_in(record["queued_events"@])
            &&& read.last_indexed_path == optional_text_in(record["last_indexed_path"@])
            &&& read.last_error == optional_text_in(record["last_error"@])
            &&& read.active_layer == optional_text_in(record["active_layer"@])
            &&& read.quality_status == optional_text_in(record["quality_status"@])
            &&& read.quality_pending_jobs == size_in(record["quality_pending_jobs"@])
            &&& read.quality_running_jobs == size_in(record["quality_running_jobs"@])
            &&& read.quality_failed_jobs == size_in(record["quality_failed_jobs"@])
            &&& read.quality_stale_jobs == size_in(record["quality_stale_jobs"@])
        }),
{
    let columns = seq![
        "repository_id"@,
        "root_path"@,
        "mode"@,
        "owner_kind"@,
        "owner_pid"@,
        "socket_path"@,
        "state"@,
        "started_at"@,
        "updated_at"@,
        "heartbeat_at"@,
        "files_seen"@,
        "queued_events"@,
        "last_indexed_path"@,
        "last_error"@,
        "active_layer"@,
        "quality_status"@,
        "quality_pending_jobs"@,
        "quality_running_jobs"@,
        "quality_failed_jobs"@,
        "quality_stale_jobs"@,
    ];
    let row = answer(columns, record);
    assert(row[0] == record["repository_id"@]);
    assert(row[1] == record["root_path"@]);
    assert(row[2] == record["mode"@]);
    assert(row[3] == record["owner_kind"@]);
    assert(row[4] == record["owner_pid"@]);
    assert(row[5] == record["socket_path"@]);
    assert(row[6] == record["state"@]);
    assert(row[7] == record["started_at"@]);
    assert(row[8] == record["updated_at"@]);
    assert(row[9] == record["heartbeat_at"@]);
    assert(row[10] == record["files_seen"@]);
    assert(row[11] == record["queued_events"@]);
    assert(row[12] == record["last_indexed_path"@]);
    assert(row[13] == record["last_error"@]);
    assert(row[14] == record["active_layer"@]);
    assert(row[15] == record["quality_status"@]);
    assert(row[16] == record["quality_pending_jobs"@]);
    assert(row[17] == record["quality_running_jobs"@]);
    assert(row[18] == record["quality_failed_jobs"@]);
    assert(row[19] == record["quality_stale_jobs"@]);
    reveal_strlit("SELECT repository_id, root_path, mode, owner_kind, owner_pid, socket_path,
          state, started_at, updated_at, heartbeat_at, files_seen, queued_events,
          last_indexed_path, last_error, active_layer, quality_status,
          quality_pending_jobs, quality_running_jobs, quality_failed_jobs,
          quality_stale_jobs
     FROM watchers
    WHERE repository_id = ?1");
    reveal_strlit("repository_id, root_path, mode, owner_kind, owner_pid, socket_path,
          state, started_at, updated_at, heartbeat_at, files_seen, queued_events,
          last_indexed_path, last_error, active_layer, quality_status,
          quality_pending_jobs, quality_running_jobs, quality_failed_jobs,
          quality_stale_jobs");
    assert(WATCHER_STATUS@.subrange(7, 331) =~= "repository_id, root_path, mode, owner_kind, owner_pid, socket_path,
          state, started_at, updated_at, heartbeat_at, files_seen, queued_events,
          last_indexed_path, last_error, active_layer, quality_status,
          quality_pending_jobs, quality_running_jobs, quality_failed_jobs,
          quality_stale_jobs"@);
    lemma_says(WATCHER_STATUS@, "repository_id, root_path, mode, owner_kind, owner_pid, socket_path,
          state, started_at, updated_at, heartbeat_at, files_seen, queued_events,
          last_indexed_path, last_error, active_layer, quality_status,
          quality_pending_jobs, quality_running_jobs, quality_failed_jobs,
          quality_stale_jobs"@, 7);
}

/// The answer to `watcher_clients` is read by its columns.
pub proof fn law_watcher_clients_is_read_by_column(record: Map<Seq<char>, SqlValue>)
    ensures
        says(WATCHER_CLIENTS@, "repository_id, client_id, client_kind, pid, started_at,
          heartbeat_at, last_seen_at"@),
        ({
            let read = WatcherClientRecord::of(
                answer(
                    seq![
                        "repository_id"@,
                        "client_id"@,
                        "client_kind"@,
                        "pid"@,
                        "started_at"@,
                        "heartbeat_at"@,
                        "last_seen_at"@,
                    ],
                    record,
                ),
            );
            &&& read.repository_id == record["repository_id"@]->Text_0
            &&& read.client_id == record["client_id"@]->Text_0
            &&& read.client_kind == record["client_kind"@]->Text_0
            &&& read.pid == optional_small_in(record["pid"@])
            &&& read.started_at == optional_text_in(record["started_at"@])
            &&& read.heartbeat_at == optional_text_in(record["heartbeat_at"@])
            &&& read.last_seen_at == optional_text_in(record["last_seen_at"@])
        }),
{
    let columns = seq![
        "repository_id"@,
        "client_id"@,
        "client_kind"@,
        "pid"@,
        "started_at"@,
        "heartbeat_at"@,
        "last_seen_at"@,
    ];
    let row = answer(columns, record);
    assert(row[0] == record["repository_id"@]);
    assert(row[1] == record["client_id"@]);
    assert(row[2] == record["client_kind"@]);
    assert(row[3] == record["pid"@]);
    assert(row[4] == record["started_at"@]);
    assert(row[5] == record["heartbeat_at"@]);
    assert(row[6] == record["last_seen_at"@]);
    reveal_strlit("SELECT repository_id, client_id, client_kind, pid, started_at,
          heartbeat_at, last_seen_at
     FROM watcher_clients
    WHERE repository_id = ?1
    ORDER BY client_kind, started_at, client_id");
    reveal_strlit("repository_id, client_id, client_kind, pid, started_at,
          heartbeat_at, last_seen_at");
    assert(WATCHER_CLIENTS@.subrange(7, 99) =~= "repository_id, client_id, client_kind, pid, started_at,
          heartbeat_at, last_seen_at"@);
    lemma_says(WATCHER_CLIENTS@, "repository_id, client_id, client_kind, pid, started_at,
          heartbeat_at, last_seen_at"@, 7);
}

/// The answer to `latest_embedding_run` is read by its columns.
pub proof fn law_latest_embedding_run_is_read_by_column(record: Map<Seq<char>, SqlValue>)
    ensures
        says(LATEST_EMBEDDING_RUN@, "embedding_model, embedding_dimension, chunks_embedded"@),
        ({
            let read = EmbeddingIndexMetadata::of(
                answer(
                    seq![
                        "embedding_model"@,
                        "embedding_dimension"@,
                        "chunks_embedded"@,
                    ],
                    record,
                ),
            );
            &&& read.embedding_model == record["embedding_model"@]->Text_0
            &&& read.embedding_dimension == optional_size_in(record["embedding_dimension"@])
            &&& read.chunks_embedded == size_in(record["chunks_embedded"@])
        }),
{
    let columns = seq![
        "embedding_model"@,
        "embedding_dimension"@,
        "chunks_embedded"@,
    ];
    let row = answer(columns, record);
    assert(row[0] == record["embedding_model"@]);
    assert(row[1] == record["embedding_dimension"@]);
    assert(row[2] == record["chunks_embedded"@]);
    reveal_strlit("SELECT embedding_model, embedding_dimension, chunks_embedded
    FROM index_runs
    WHERE repository_id = ?1
      AND status = 'success'
      AND embedding_dimension IS NOT NULL
    ORDER BY finished_at DESC, started_at DESC
    LIMIT 1");
    reveal_strlit("embedding_model, embedding_dimension, chunks_embedded");
    assert(LATEST_EMBEDDING_RUN@.subrange(7, 60)
        =~= "embedding_model, embedding_dimension, chunks_embedded"@);
    lemma_says(LATEST_EMBEDDING_RUN@, "embedding_model, embedding_dimension, chunks_embedded"@, 7);
}

/// The answer to `latest_embedding_run_for_model` is read by its columns.
pub proof fn law_latest_embedding_run_for_model_is_read_by_column(record: Map<Seq<char>, SqlValue>)
    ensures
        says(
            LATEST_EMBEDDING_RUN_FOR_MODEL@,
            "embedding_model, embedding_dimension, chunks_embedded"@,
        ),
        ({
            let read = EmbeddingIndexMetadata::of(
                answer(
                    seq![
                        "embedding_model"@,
                        "embedding_dimension"@,
                        "chunks_embedded"@,
                    ],
                    record,
                ),
            );
            &&& read.embedding_model == record["embedding_model"@]->Text_0
            &&& read.embedding_dimension == optional_size_in(record["embedding_dimension"@])
            &&& read.chunks_embedded == size_in(record["chunks_embedded"@])
        }),
{
    let columns = seq![
        "embedding_model"@,
        "embedding_dimension"@,
        "chunks_embedded"@,
    ];
    let row = answer(columns, record);
    assert(row[0] == record["embedding_model"@]);
    assert(row[1] == record["embedding_dimension"@]);
    assert(row[2] == record["chunks_embedded"@]);
    reveal_strlit("SELECT embedding_model, embedding_dimension, chunks_embedded
    FROM index_runs
    WHERE repository_id = ?1
      AND embedding_model = ?2
      AND status = 'success'
      AND embedding_dimension IS NOT NULL
    ORDER BY finished_at DESC, started_at DESC
    LIMIT 1");
    reveal_strlit("embedding_model, embedding_dimension, chunks_embedded");
    assert(LATEST_EMBEDDING_RUN_FOR_MODEL@.subrange(7, 60)
        =~= "embedding_model, embedding_dimension, chunks_embedded"@);
    lemma_says(
        LATEST_EMBEDDING_RUN_FOR_MODEL@,
        "embedding_model, embedding_dimension, chunks_embedded"@,
        7,
    );
}

/// The answer to `indexed_file_freshness_snapshots` is read by its columns.
pub proof fn law_indexed_file_freshness_snapshots_is_read_by_column(
    record: Map<Seq<char>,
    SqlValue>,
)
    ensures
        says(
            INDEXED_FILE_FRESHNESS_SNAPSHOTS@,
            "path, content_hash, indexed_at, index_run_id, parser_version"@,
        ),
        ({
            let read = FileFreshnessSnapshot::of(
                answer(
                    seq![
                        "path"@,
                        "content_hash"@,
                        "indexed_at"@,
                        "index_run_id"@,
                        "parser_version"@,
                    ],
                    record,
                ),
            );
            &&& read.path == record["path"@]->Text_0
            &&& read.content_hash == record["content_hash"@]->Text_0
            &&& read.indexed_at == record["indexed_at"@]->Text_0
            &&& read.index_run_id == optional_text_in(record["index_run_id"@])
            &&& read.parser_version == optional_text_in(record["parser_version"@])
        }),
{
    let columns = seq![
        "path"@,
        "content_hash"@,
        "indexed_at"@,
        "index_run_id"@,
        "parser_version"@,
    ];
    let row = answer(columns, record);
    assert(row[0] == record["path"@]);
    assert(row[1] == record["content_hash"@]);
    assert(row[2] == record["indexed_at"@]);
    assert(row[3] == record["index_run_id"@]);
    assert(row[4] == record["parser_version"@]);
    reveal_strlit("SELECT path, content_hash, indexed_at, index_run_id, parser_version
    FROM files
    WHERE repository_id = ?1
    ORDER BY path");
    reveal_strlit("path, content_hash, indexed_at, index_run_id, parser_version");
    assert(INDEXED_FILE_FRESHNESS_SNAPSHOTS@.subrange(7, 67)
        =~= "path, content_hash, indexed_at, index_run_id, parser_version"@);
    lemma_says(
        INDEXED_FILE_FRESHNESS_SNAPSHOTS@,
        "path, content_hash, indexed_at, index_run_id, parser_version"@,
        7,
    );
}

/// The answer to `indexed_file_freshness_snapshots_for_ref` is read by its columns.
pub proof fn law_indexed_file_freshness_snapshots_for_ref_is_read_by_column(
    record: Map<Seq<char>,
    SqlValue>,
)
    ensures
        says(INDEXED_FILE_FRESHNESS_SNAPSHOTS_FOR_REF@, "ref_files.path, files.content_hash, files.indexed_at,
          files.index_run_id, files.parser_version"@),
        ({
            let read = FileFreshnessSnapshot::of(
                answer(
                    seq![
                        "ref_files.path"@,
                        "files.content_hash"@,
                        "files.indexed_at"@,
                        "files.index_run_id"@,
                        "files.parser_version"@,
                    ],
                    record,
                ),
            );
            &&& read.path == record["ref_files.path"@]->Text_0
            &&& read.content_hash == record["files.content_hash"@]->Text_0
            &&& read.indexed_at == record["files.indexed_at"@]->Text_0
            &&& read.index_run_id == optional_text_in(record["files.index_run_id"@])
            &&& read.parser_version == optional_text_in(record["files.parser_version"@])
        }),
{
    let columns = seq![
        "ref_files.path"@,
        "files.content_hash"@,
        "files.indexed_at"@,
        "files.index_run_id"@,
        "files.parser_version"@,
    ];
    let row = answer(columns, record);
    assert(row[0] == record["ref_files.path"@]);
    assert(row[1] == record["files.content_hash"@]);
    assert(row[2] == record["files.indexed_at"@]);
    assert(row[3] == record["files.index_run_id"@]);
    assert(row[4] == record["files.parser_version"@]);
    reveal_strlit("SELECT ref_files.path, files.content_hash, files.indexed_at,
          files.index_run_id, files.parser_version
     FROM ref_files
     JOIN files ON files.id = ref_files.file_id
               AND files.repository_id = ref_files.repository_id
    WHERE ref_files.repository_id = ?1
      AND ref_files.repository_ref_id = ?2
    ORDER BY ref_files.path");
    reveal_strlit("ref_files.path, files.content_hash, files.indexed_at,
          files.index_run_id, files.parser_version");
    assert(INDEXED_FILE_FRESHNESS_SNAPSHOTS_FOR_REF@.subrange(7, 111) =~= "ref_files.path, files.content_hash, files.indexed_at,
          files.index_run_id, files.parser_version"@);
    lemma_says(INDEXED_FILE_FRESHNESS_SNAPSHOTS_FOR_REF@, "ref_files.path, files.content_hash, files.indexed_at,
          files.index_run_id, files.parser_version"@, 7);
}

/// The answer to `rust_symbols_for_repository` is read by its columns.
pub proof fn law_rust_symbols_for_repository_is_read_by_column(record: Map<Seq<char>, SqlValue>)
    ensures
        says(RUST_SYMBOLS_FOR_REPOSITORY@, "symbols.id, symbols.file_id, symbols.parent_symbol_id, symbols.name,
           symbols.qualified_name, symbols.kind, symbols.signature,
           symbols.start_line, symbols.end_line, symbols.start_byte,
           symbols.end_byte, symbols.index_run_id, symbols.parser_version"@),
        ({
            let read = SymbolRecord::of(
                answer(
                    seq![
                        "symbols.id"@,
                        "symbols.file_id"@,
                        "symbols.parent_symbol_id"@,
                        "symbols.name"@,
                        "symbols.qualified_name"@,
                        "symbols.kind"@,
                        "symbols.signature"@,
                        "symbols.start_line"@,
                        "symbols.end_line"@,
                        "symbols.start_byte"@,
                        "symbols.end_byte"@,
                        "symbols.index_run_id"@,
                        "symbols.parser_version"@,
                    ],
                    record,
                ),
            );
            &&& read.id == record["symbols.id"@]->Text_0
            &&& read.file_id == record["symbols.file_id"@]->Text_0
            &&& read.parent_symbol_id == optional_text_in(record["symbols.parent_symbol_id"@])
            &&& read.name == record["symbols.name"@]->Text_0
            &&& read.qualified_name == record["symbols.qualified_name"@]->Text_0
            &&& read.kind == record["symbols.kind"@]->Text_0
            &&& read.signature == optional_text_in(record["symbols.signature"@])
            &&& read.start_line == size_in(record["symbols.start_line"@])
            &&& read.end_line == size_in(record["symbols.end_line"@])
            &&& read.start_byte == size_in(record["symbols.start_byte"@])
            &&& read.end_byte == size_in(record["symbols.end_byte"@])
            &&& read.index_run_id == record["symbols.index_run_id"@]->Text_0
            &&& read.parser_version == record["symbols.parser_version"@]->Text_0
        }),
{
    let columns = seq![
        "symbols.id"@,
        "symbols.file_id"@,
        "symbols.parent_symbol_id"@,
        "symbols.name"@,
        "symbols.qualified_name"@,
        "symbols.kind"@,
        "symbols.signature"@,
        "symbols.start_line"@,
        "symbols.end_line"@,
        "symbols.start_byte"@,
        "symbols.end_byte"@,
        "symbols.index_run_id"@,
        "symbols.parser_version"@,
    ];
    let row = answer(columns, record);
    assert(row[0] == record["symbols.id"@]);
    assert(row[1] == record["symbols.file_id"@]);
    assert(row[2] == record["symbols.parent_symbol_id"@]);
    assert(row[3] == record["symbols.name"@]);
    assert(row[4] == record["symbols.qualified_name"@]);
    assert(row[5] == record["symbols.kind"@]);
    assert(row[6] == record["symbols.signature"@]);
    assert(row[7] == record["symbols.start_line"@]);
    assert(row[8] == record["symbols.end_line"@]);
    assert(row[9] == record["symbols.start_byte"@]);
    assert(row[10] == record["symbols.end_byte"@]);
    assert(row[11] == record["symbols.index_run_id"@]);
    assert(row[12] == record["symbols.parser_version"@]);
    reveal_strlit("SELECT symbols.id, symbols.file_id, symbols.parent_symbol_id, symbols.name,
           symbols.qualified_name, symbols.kind, symbols.signature,
           symbols.start_line, symbols.end_line, symbols.start_byte,
           symbols.end_byte, symbols.index_run_id, symbols.parser_version
    FROM symbols
    JOIN files ON symbols.file_id = files.id
    WHERE files.repository_id = ?1
      AND files.language = 'rust'
    ORDER BY symbols.qualified_name, files.path, symbols.start_line, symbols.id");
    reveal_strlit("symbols.id, symbols.file_id, symbols.parent_symbol_id, symbols.name,
           symbols.qualified_name, symbols.kind, symbols.signature,
           symbols.start_line, symbols.end_line, symbols.start_byte,
           symbols.end_byte, symbols.index_run_id, symbols.parser_version");
    assert(RUST_SYMBOLS_FOR_REPOSITORY@.subrange(7, 286) =~= "symbols.id, symbols.file_id, symbols.parent_symbol_id, symbols.name,
           symbols.qualified_name, symbols.kind, symbols.signature,
           symbols.start_line, symbols.end_line, symbols.start_byte,
           symbols.end_byte, symbols.index_run_id, symbols.parser_version"@);
    lemma_says(RUST_SYMBOLS_FOR_REPOSITORY@, "symbols.id, symbols.file_id, symbols.parent_symbol_id, symbols.name,
           symbols.qualified_name, symbols.kind, symbols.signature,
           symbols.start_line, symbols.end_line, symbols.start_byte,
           symbols.end_byte, symbols.index_run_id, symbols.parser_version"@, 7);
}

/// The answer to `index_runs_timeline` is read by its columns.
pub proof fn law_index_runs_timeline_is_read_by_column(record: Map<Seq<char>, SqlValue>)
    ensures
        says(INDEX_RUNS_TIMELINE@, "id, started_at, finished_at, status, embedding_model,
           embedding_dimension, files_seen, files_indexed,
           chunks_embedded, error_summary, run_kind"@),
        ({
            let read = IndexRunTimelineRow::of(
                answer(
                    seq![
                        "id"@,
                        "started_at"@,
                        "finished_at"@,
                        "status"@,
                        "embedding_model"@,
                        "embedding_dimension"@,
                        "files_seen"@,
                        "files_indexed"@,
                        "chunks_embedded"@,
                        "error_summary"@,
                        "run_kind"@,
                    ],
                    record,
                ),
            );
            &&& read.id == record["id"@]->Text_0
            &&& read.started_at == record["started_at"@]->Text_0
            &&& read.finished_at == optional_text_in(record["finished_at"@])
            &&& read.status == record["status"@]->Text_0
            &&& read.embedding_model == record["embedding_model"@]->Text_0
            &&& read.embedding_dimension == optional_size_in(record["embedding_dimension"@])
            &&& read.files_seen == size_in(record["files_seen"@])
            &&& read.files_indexed == size_in(record["files_indexed"@])
            &&& read.chunks_embedded == size_in(record["chunks_embedded"@])
            &&& read.error_summary == optional_text_in(record["error_summary"@])
            &&& read.run_kind == record["run_kind"@]->Text_0
        }),
{
    let columns = seq![
        "id"@,
        "started_at"@,
        "finished_at"@,
        "status"@,
        "embedding_model"@,
        "embedding_dimension"@,
        "files_seen"@,
        "files_indexed"@,
        "chunks_embedded"@,
        "error_summary"@,
        "run_kind"@,
    ];
    let row = answer(columns, record);
    assert(row[0] == record["id"@]);
    assert(row[1] == record["started_at"@]);
    assert(row[2] == record["finished_at"@]);
    assert(row[3] == record["status"@]);
    assert(row[4] == record["embedding_model"@]);
    assert(row[5] == record["embedding_dimension"@]);
    assert(row[6] == record["files_seen"@]);
    assert(row[7] == record["files_indexed"@]);
    assert(row[8] == record["chunks_embedded"@]);
    assert(row[9] == record["error_summary"@]);
    assert(row[10] == record["run_kind"@]);
    reveal_strlit("SELECT id, started_at, finished_at, status, embedding_model,
           embedding_dimension, files_seen, files_indexed,
           chunks_embedded, error_summary, run_kind
    FROM index_runs
    WHERE repository_id = ?1
    ORDER BY started_at DESC, finished_at DESC, id DESC
    LIMIT 50");
    reveal_strlit("id, started_at, finished_at, status, embedding_model,
           embedding_dimension, files_seen, files_indexed,
           chunks_embedded, error_summary, run_kind");
    assert(INDEX_RUNS_TIMELINE@.subrange(7, 171) =~= "id, started_at, finished_at, status, embedding_model,
           embedding_dimension, files_seen, files_indexed,
           chunks_embedded, error_summary, run_kind"@);
    lemma_says(INDEX_RUNS_TIMELINE@, "id, started_at, finished_at, status, embedding_model,
           embedding_dimension, files_seen, files_indexed,
           chunks_embedded, error_summary, run_kind"@, 7);
}

/// The answer to `embedding_exclusion_reasons` is read by its columns.
pub proof fn law_embedding_exclusion_reasons_is_read_by_column(record: Map<Seq<char>, SqlValue>)
    ensures
        says(EMBEDDING_EXCLUSION_REASONS@, "chunks.excluded_reason, COUNT(*)"@),
        ({
            let read = EmbeddingExclusionRow::of(
                answer(
                    seq![
                        "chunks.excluded_reason"@,
                        "COUNT(*)"@,
                    ],
                    record,
                ),
            );
            &&& read.reason == record["chunks.excluded_reason"@]->Text_0
            &&& read.chunks == size_in(record["COUNT(*)"@])
        }),
{
    let columns = seq![
        "chunks.excluded_reason"@,
        "COUNT(*)"@,
    ];
    let row = answer(columns, record);
    assert(row[0] == record["chunks.excluded_reason"@]);
    assert(row[1] == record["COUNT(*)"@]);
    reveal_strlit("SELECT chunks.excluded_reason, COUNT(*)
    FROM chunks
    JOIN files ON chunks.file_id = files.id
    WHERE files.repository_id = ?1
      AND chunks.excluded_reason IS NOT NULL
    GROUP BY chunks.excluded_reason
    ORDER BY COUNT(*) DESC, chunks.excluded_reason
    LIMIT 12");
    reveal_strlit("chunks.excluded_reason, COUNT(*)");
    assert(EMBEDDING_EXCLUSION_REASONS@.subrange(7, 39) =~= "chunks.excluded_reason, COUNT(*)"@);
    lemma_says(EMBEDDING_EXCLUSION_REASONS@, "chunks.excluded_reason, COUNT(*)"@, 7);
}

/// The answer to `file_symbol_details` is read by its columns.
pub proof fn law_file_symbol_details_is_read_by_column(record: Map<Seq<char>, SqlValue>)
    ensures
        says(FILE_SYMBOL_DETAILS@, "kind, qualified_name, parent_symbol_id, start_line, end_line"@),
        ({
            let read = FileSymbolDetailRow::of(
                answer(
                    seq![
                        "kind"@,
                        "qualified_name"@,
                        "parent_symbol_id"@,
                        "start_line"@,
                        "end_line"@,
                    ],
                    record,
                ),
            );
            &&& read.kind == record["kind"@]->Text_0
            &&& read.qualified_name == record["qualified_name"@]->Text_0
            &&& read.parent_symbol_id == optional_text_in(record["parent_symbol_id"@])
            &&& read.start_line == size_in(record["start_line"@])
            &&& read.end_line == size_in(record["end_line"@])
        }),
{
    let columns = seq![
        "kind"@,
        "qualified_name"@,
        "parent_symbol_id"@,
        "start_line"@,
        "end_line"@,
    ];
    let row = answer(columns, record);
    assert(row[0] == record["kind"@]);
    assert(row[1] == record["qualified_name"@]);
    assert(row[2] == record["parent_symbol_id"@]);
    assert(row[3] == record["start_line"@]);
    assert(row[4] == record["end_line"@]);
    reveal_strlit("SELECT kind, qualified_name, parent_symbol_id, start_line, end_line
    FROM symbols
    WHERE file_id = ?1
    ORDER BY start_line, qualified_name
    LIMIT 6");
    reveal_strlit("kind, qualified_name, parent_symbol_id, start_line, end_line");
    assert(FILE_SYMBOL_DETAILS@.subrange(7, 67)
        =~= "kind, qualified_name, parent_symbol_id, start_line, end_line"@);
    lemma_says(
        FILE_SYMBOL_DETAILS@,
        "kind, qualified_name, parent_symbol_id, start_line, end_line"@,
        7,
    );
}

/// The answer to `file_call_details` is read by its columns.
pub proof fn law_file_call_details_is_read_by_column(record: Map<Seq<char>, SqlValue>)
    ensures
        says(FILE_CALL_DETAILS@, "caller.qualified_name, calls.callee_text, calls.call_line,
           calls.confidence, calls.resolution_status"@),
        ({
            let read = FileCallDetailRow::of(
                answer(
                    seq![
                        "caller.qualified_name"@,
                        "calls.callee_text"@,
                        "calls.call_line"@,
                        "calls.confidence"@,
                        "calls.resolution_status"@,
                    ],
                    record,
                ),
            );
            &&& read.caller_symbol == record["caller.qualified_name"@]->Text_0
            &&& read.callee_text == record["calls.callee_text"@]->Text_0
            &&& read.call_line == size_in(record["calls.call_line"@])
            &&& read.confidence == real_in(record["calls.confidence"@])
            &&& read.resolution_status == record["calls.resolution_status"@]->Text_0
        }),
{
    let columns = seq![
        "caller.qualified_name"@,
        "calls.callee_text"@,
        "calls.call_line"@,
        "calls.confidence"@,
        "calls.resolution_status"@,
    ];
    let row = answer(columns, record);
    assert(row[0] == record["caller.qualified_name"@]);
    assert(row[1] == record["calls.callee_text"@]);
    assert(row[2] == record["calls.call_line"@]);
    assert(row[3] == record["calls.confidence"@]);
    assert(row[4] == record["calls.resolution_status"@]);
    reveal_strlit("SELECT caller.qualified_name, calls.callee_text, calls.call_line,
           calls.confidence, calls.resolution_status
    FROM calls
    JOIN symbols caller ON calls.caller_symbol_id = caller.id
    WHERE caller.file_id = ?1
    ORDER BY calls.call_line, calls.callee_text
    LIMIT 6");
    reveal_strlit("caller.qualified_name, calls.callee_text, calls.call_line,
           calls.confidence, calls.resolution_status");
    assert(FILE_CALL_DETAILS@.subrange(7, 118) =~= "caller.qualified_name, calls.callee_text, calls.call_line,
           calls.confidence, calls.resolution_status"@);
    lemma_says(FILE_CALL_DETAILS@, "caller.qualified_name, calls.callee_text, calls.call_line,
           calls.confidence, calls.resolution_status"@, 7);
}

/// The answer to `chunk_projection` is read by its columns.
pub proof fn law_chunk_projection_is_read_by_column(record: Map<Seq<char>, SqlValue>)
    ensures
        says(CHUNK_PROJECTION@, "COALESCE(SUM(CASE WHEN chunks.excluded_reason IS NULL THEN 1 ELSE 0 END), 0),
                COALESCE(SUM(CASE WHEN chunk_embeddings.vector_point_id IS NOT NULL THEN 1 ELSE 0 END), 0),
      COALESCE(SUM(CASE WHEN chunks.excluded_reason IS NOT NULL THEN 1 ELSE 0 END), 0),
      COALESCE(SUM(CASE
            WHEN chunks.excluded_reason IS NULL AND chunk_embeddings.vector_point_id IS NULL
        THEN 1 ELSE 0 END), 0)"@),
        ({
            let read = ChunkProjectionCounts::of(
                answer(
                    seq![
                        "COALESCE(SUM(CASE WHEN chunks.excluded_reason IS NULL THEN 1 ELSE 0 END), 0)"@,
                        "COALESCE(SUM(CASE WHEN chunk_embeddings.vector_point_id IS NOT NULL THEN 1 ELSE 0 END), 0)"@,
                        "COALESCE(SUM(CASE WHEN chunks.excluded_reason IS NOT NULL THEN 1 ELSE 0 END), 0)"@,
                        "COALESCE(SUM(CASE WHEN chunks.excluded_reason IS NULL AND chunk_embeddings.vector_point_id IS NULL THEN 1 ELSE 0 END), 0)"@,
                    ],
                    record,
                ),
            );
            &&& read.embeddable_chunks == size_in(record["COALESCE(SUM(CASE WHEN chunks.excluded_reason IS NULL THEN 1 ELSE 0 END), 0)"@])
            &&& read.vector_backed_chunks == size_in(record["COALESCE(SUM(CASE WHEN chunk_embeddings.vector_point_id IS NOT NULL THEN 1 ELSE 0 END), 0)"@])
            &&& read.excluded_chunks == size_in(record["COALESCE(SUM(CASE WHEN chunks.excluded_reason IS NOT NULL THEN 1 ELSE 0 END), 0)"@])
            &&& read.missing_vector_chunks == size_in(record["COALESCE(SUM(CASE WHEN chunks.excluded_reason IS NULL AND chunk_embeddings.vector_point_id IS NULL THEN 1 ELSE 0 END), 0)"@])
        }),
{
    let columns = seq![
        "COALESCE(SUM(CASE WHEN chunks.excluded_reason IS NULL THEN 1 ELSE 0 END), 0)"@,
        "COALESCE(SUM(CASE WHEN chunk_embeddings.vector_point_id IS NOT NULL THEN 1 ELSE 0 END), 0)"@,
        "COALESCE(SUM(CASE WHEN chunks.excluded_reason IS NOT NULL THEN 1 ELSE 0 END), 0)"@,
        "COALESCE(SUM(CASE WHEN chunks.excluded_reason IS NULL AND chunk_embeddings.vector_point_id IS NULL THEN 1 ELSE 0 END), 0)"@,
    ];
    let row = answer(columns, record);
    assert(row[0] == record["COALESCE(SUM(CASE WHEN chunks.excluded_reason IS NULL THEN 1 ELSE 0 END), 0)"@]);
    assert(row[1] == record["COALESCE(SUM(CASE WHEN chunk_embeddings.vector_point_id IS NOT NULL THEN 1 ELSE 0 END), 0)"@]);
    assert(row[2] == record["COALESCE(SUM(CASE WHEN chunks.excluded_reason IS NOT NULL THEN 1 ELSE 0 END), 0)"@]);
    assert(row[3] == record["COALESCE(SUM(CASE WHEN chunks.excluded_reason IS NULL AND chunk_embeddings.vector_point_id IS NULL THEN 1 ELSE 0 END), 0)"@]);
    reveal_strlit("SELECT
      COALESCE(SUM(CASE WHEN chunks.excluded_reason IS NULL THEN 1 ELSE 0 END), 0),
                COALESCE(SUM(CASE WHEN chunk_embeddings.vector_point_id IS NOT NULL THEN 1 ELSE 0 END), 0),
      COALESCE(SUM(CASE WHEN chunks.excluded_reason IS NOT NULL THEN 1 ELSE 0 END), 0),
      COALESCE(SUM(CASE
            WHEN chunks.excluded_reason IS NULL AND chunk_embeddings.vector_point_id IS NULL
        THEN 1 ELSE 0 END), 0)
    FROM chunks
    JOIN files ON chunks.file_id = files.id
                    LEFT JOIN chunk_embeddings
                ON chunk_embeddings.chunk_id = chunks.id
               AND chunk_embeddings.file_id = files.id
               AND chunk_embeddings.repository_id = files.repository_id
               AND chunk_embeddings.generation_id = ?2
               AND chunk_embeddings.semantic_layer = 'fast'
               AND chunk_embeddings.status = 'current'
    WHERE files.repository_id = ?1");
    reveal_strlit("COALESCE(SUM(CASE WHEN chunks.excluded_reason IS NULL THEN 1 ELSE 0 END), 0),
                COALESCE(SUM(CASE WHEN chunk_embeddings.vector_point_id IS NOT NULL THEN 1 ELSE 0 END), 0),
      COALESCE(SUM(CASE WHEN chunks.excluded_reason IS NOT NULL THEN 1 ELSE 0 END), 0),
      COALESCE(SUM(CASE
            WHEN chunks.excluded_reason IS NULL AND chunk_embeddings.vector_point_id IS NULL
        THEN 1 ELSE 0 END), 0)");
    assert(CHUNK_PROJECTION@.subrange(13, 434) =~= "COALESCE(SUM(CASE WHEN chunks.excluded_reason IS NULL THEN 1 ELSE 0 END), 0),
                COALESCE(SUM(CASE WHEN chunk_embeddings.vector_point_id IS NOT NULL THEN 1 ELSE 0 END), 0),
      COALESCE(SUM(CASE WHEN chunks.excluded_reason IS NOT NULL THEN 1 ELSE 0 END), 0),
      COALESCE(SUM(CASE
            WHEN chunks.excluded_reason IS NULL AND chunk_embeddings.vector_point_id IS NULL
        THEN 1 ELSE 0 END), 0)"@);
    lemma_says(CHUNK_PROJECTION@, "COALESCE(SUM(CASE WHEN chunks.excluded_reason IS NULL THEN 1 ELSE 0 END), 0),
                COALESCE(SUM(CASE WHEN chunk_embeddings.vector_point_id IS NOT NULL THEN 1 ELSE 0 END), 0),
      COALESCE(SUM(CASE WHEN chunks.excluded_reason IS NOT NULL THEN 1 ELSE 0 END), 0),
      COALESCE(SUM(CASE
            WHEN chunks.excluded_reason IS NULL AND chunk_embeddings.vector_point_id IS NULL
        THEN 1 ELSE 0 END), 0)"@, 13);
}

/// The answer to `symbol_outline` is read by its columns.
pub proof fn law_symbol_outline_is_read_by_column(record: Map<Seq<char>, SqlValue>)
    ensures
        says(SYMBOL_OUTLINE@, "symbols.id, symbols.parent_symbol_id, symbols.kind,
           symbols.qualified_name, symbols.name, symbols.start_line,
           symbols.end_line, files.path"@),
        ({
            let read = SymbolOutlineBaseRow::of(
                answer(
                    seq![
                        "symbols.id"@,
                        "symbols.parent_symbol_id"@,
                        "symbols.kind"@,
                        "symbols.qualified_name"@,
                        "symbols.name"@,
                        "symbols.start_line"@,
                        "symbols.end_line"@,
                        "files.path"@,
                    ],
                    record,
                ),
            );
            &&& read.id == record["symbols.id"@]->Text_0
            &&& read.parent_symbol_id == optional_text_in(record["symbols.parent_symbol_id"@])
            &&& read.kind == record["symbols.kind"@]->Text_0
            &&& read.qualified_name == record["symbols.qualified_name"@]->Text_0
            &&& read.name == record["symbols.name"@]->Text_0
            &&& read.start_line == size_in(record["symbols.start_line"@])
            &&& read.end_line == size_in(record["symbols.end_line"@])
            &&& read.path == record["files.path"@]->Text_0
        }),
{
    let columns = seq![
        "symbols.id"@,
        "symbols.parent_symbol_id"@,
        "symbols.kind"@,
        "symbols.qualified_name"@,
        "symbols.name"@,
        "symbols.start_line"@,
        "symbols.end_line"@,
        "files.path"@,
    ];
    let row = answer(columns, record);
    assert(row[0] == record["symbols.id"@]);
    assert(row[1] == record["symbols.parent_symbol_id"@]);
    assert(row[2] == record["symbols.kind"@]);
    assert(row[3] == record["symbols.qualified_name"@]);
    assert(row[4] == record["symbols.name"@]);
    assert(row[5] == record["symbols.start_line"@]);
    assert(row[6] == record["symbols.end_line"@]);
    assert(row[7] == record["files.path"@]);
    reveal_strlit("SELECT symbols.id, symbols.parent_symbol_id, symbols.kind,
           symbols.qualified_name, symbols.name, symbols.start_line,
           symbols.end_line, files.path
    FROM symbols
    JOIN files ON symbols.file_id = files.id
    WHERE files.repository_id = ?1
    ORDER BY files.path, symbols.start_line, symbols.qualified_name
    LIMIT 300");
    reveal_strlit("symbols.id, symbols.parent_symbol_id, symbols.kind,
           symbols.qualified_name, symbols.name, symbols.start_line,
           symbols.end_line, files.path");
    assert(SYMBOL_OUTLINE@.subrange(7, 167) =~= "symbols.id, symbols.parent_symbol_id, symbols.kind,
           symbols.qualified_name, symbols.name, symbols.start_line,
           symbols.end_line, files.path"@);
    lemma_says(SYMBOL_OUTLINE@, "symbols.id, symbols.parent_symbol_id, symbols.kind,
           symbols.qualified_name, symbols.name, symbols.start_line,
           symbols.end_line, files.path"@, 7);
}

/// The answer to `known_branches` is read by its columns.
pub proof fn law_known_branches_is_read_by_column(record: Map<Seq<char>, SqlValue>)
    ensures
        says(KNOWN_BRANCHES@, "id, ref_name"@),
        ({
            let read = BranchRow::of(
                answer(
                    seq![
                        "id"@,
                        "ref_name"@,
                    ],
                    record,
                ),
            );
            &&& read.id == record["id"@]->Text_0
            &&& read.ref_name == optional_text_in(record["ref_name"@])
        }),
{
    let columns = seq![
        "id"@,
        "ref_name"@,
    ];
    let row = answer(columns, record);
    assert(row[0] == record["id"@]);
    assert(row[1] == record["ref_name"@]);
    reveal_strlit("SELECT id, ref_name
     FROM repository_refs
    WHERE repository_id = ?1
      AND ref_kind = 'branch'
      AND deleted_at IS NULL");
    reveal_strlit("id, ref_name");
    assert(KNOWN_BRANCHES@.subrange(7, 19) =~= "id, ref_name"@);
    lemma_says(KNOWN_BRANCHES@, "id, ref_name"@, 7);
}

/// The answer to `quality_job_counts` is read by its columns.
pub proof fn law_quality_job_counts_is_read_by_column(record: Map<Seq<char>, SqlValue>)
    ensures
        says(QUALITY_JOB_COUNTS@, "jobs.status, COUNT(*)"@),
        ({
            let read = StatusCount::of(
                answer(
                    seq![
                        "jobs.status"@,
                        "COUNT(*)"@,
                    ],
                    record,
                ),
            );
            &&& read.status == record["jobs.status"@]->Text_0
            &&& read.jobs == record["COUNT(*)"@]->Integer_0
        }),
{
    let columns = seq![
        "jobs.status"@,
        "COUNT(*)"@,
    ];
    let row = answer(columns, record);
    assert(row[0] == record["jobs.status"@]);
    assert(row[1] == record["COUNT(*)"@]);
    reveal_strlit("SELECT jobs.status, COUNT(*)
     FROM quality_embedding_jobs AS jobs
    WHERE jobs.repository_id = ?1
        AND jobs.generation_id = ?2
        AND EXISTS (
                SELECT 1
                    FROM chunk_embeddings AS fast
                 WHERE fast.repository_id = jobs.repository_id
             AND fast.generation_id = jobs.generation_id
             AND fast.file_id = jobs.file_id
             AND fast.chunk_id = jobs.chunk_id
             AND fast.semantic_layer = 'fast'
             AND fast.status = 'current'
             AND fast.content_hash = jobs.content_hash
             AND fast.text_hash = jobs.text_hash
        )
    GROUP BY jobs.status");
    reveal_strlit("jobs.status, COUNT(*)");
    assert(QUALITY_JOB_COUNTS@.subrange(7, 28) =~= "jobs.status, COUNT(*)"@);
    lemma_says(QUALITY_JOB_COUNTS@, "jobs.status, COUNT(*)"@, 7);
}

/// The answer to `quality_job_source_row` is read by its columns.
pub proof fn law_quality_job_source_row_is_read_by_column(record: Map<Seq<char>, SqlValue>)
    ensures
        says(QUALITY_JOB_SOURCE_ROW@, "jobs.id, jobs.repository_id, jobs.generation_id, jobs.chunk_id,
           jobs.file_id, jobs.path, jobs.content_hash, jobs.text_hash,
           jobs.status, jobs.attempts, jobs.error_summary,
           jobs.created_at, jobs.updated_at,
           files.id, files.content_hash, files.language,
           chunks.kind, chunks.text_hash, chunks.start_line, chunks.end_line,
           chunks.start_byte, chunks.end_byte, chunks.excluded_reason,
           chunks.symbol_id, symbols.name, chunks.index_run_id,
           chunks.parser_version"@),
        ({
            let read = QualityJobSourceRow::of(
                answer(
                    seq![
                        "jobs.id"@,
                        "jobs.repository_id"@,
                        "jobs.generation_id"@,
                        "jobs.chunk_id"@,
                        "jobs.file_id"@,
                        "jobs.path"@,
                        "jobs.content_hash"@,
                        "jobs.text_hash"@,
                        "jobs.status"@,
                        "jobs.attempts"@,
                        "jobs.error_summary"@,
                        "jobs.created_at"@,
                        "jobs.updated_at"@,
                        "files.id"@,
                        "files.content_hash"@,
                        "files.language"@,
                        "chunks.kind"@,
                        "chunks.text_hash"@,
                        "chunks.start_line"@,
                        "chunks.end_line"@,
                        "chunks.start_byte"@,
                        "chunks.end_byte"@,
                        "chunks.excluded_reason"@,
                        "chunks.symbol_id"@,
                        "symbols.name"@,
                        "chunks.index_run_id"@,
                        "chunks.parser_version"@,
                    ],
                    record,
                ),
            );
            &&& read.job.id == record["jobs.id"@]->Text_0
            &&& read.job.repository_id == record["jobs.repository_id"@]->Text_0
            &&& read.job.generation_id == record["jobs.generation_id"@]->Text_0
            &&& read.job.chunk_id == record["jobs.chunk_id"@]->Text_0
            &&& read.job.file_id == record["jobs.file_id"@]->Text_0
            &&& read.job.path == record["jobs.path"@]->Text_0
            &&& read.job.content_hash == record["jobs.content_hash"@]->Text_0
            &&& read.job.text_hash == record["jobs.text_hash"@]->Text_0
            &&& read.job.status == record["jobs.status"@]->Text_0
            &&& read.job.attempts == size_in(record["jobs.attempts"@])
            &&& read.job.error_summary == optional_text_in(record["jobs.error_summary"@])
            &&& read.job.created_at == record["jobs.created_at"@]->Text_0
            &&& read.job.updated_at == record["jobs.updated_at"@]->Text_0
            &&& read.current_file_id == optional_text_in(record["files.id"@])
            &&& read.current_content_hash == optional_text_in(record["files.content_hash"@])
            &&& read.language == optional_text_in(record["files.language"@])
            &&& read.chunk_kind == optional_text_in(record["chunks.kind"@])
            &&& read.current_text_hash == optional_text_in(record["chunks.text_hash"@])
            &&& read.start_line == optional_size_in(record["chunks.start_line"@])
            &&& read.end_line == optional_size_in(record["chunks.end_line"@])
            &&& read.start_byte == optional_size_in(record["chunks.start_byte"@])
            &&& read.end_byte == optional_size_in(record["chunks.end_byte"@])
            &&& read.excluded_reason == optional_text_in(record["chunks.excluded_reason"@])
            &&& read.symbol_id == optional_text_in(record["chunks.symbol_id"@])
            &&& read.symbol_name == optional_text_in(record["symbols.name"@])
            &&& read.index_run_id == optional_text_in(record["chunks.index_run_id"@])
            &&& read.parser_version == optional_text_in(record["chunks.parser_version"@])
        }),
{
    let columns = seq![
        "jobs.id"@,
        "jobs.repository_id"@,
        "jobs.generation_id"@,
        "jobs.chunk_id"@,
        "jobs.file_id"@,
        "jobs.path"@,
        "jobs.content_hash"@,
        "jobs.text_hash"@,
        "jobs.status"@,
        "jobs.attempts"@,
        "jobs.error_summary"@,
        "jobs.created_at"@,
        "jobs.updated_at"@,
        "files.id"@,
        "files.content_hash"@,
        "files.language"@,
        "chunks.kind"@,
        "chunks.text_hash"@,
        "chunks.start_line"@,
        "chunks.end_line"@,
        "chunks.start_byte"@,
        "chunks.end_byte"@,
        "chunks.excluded_reason"@,
        "chunks.symbol_id"@,
        "symbols.name"@,
        "chunks.index_run_id"@,
        "chunks.parser_version"@,
    ];
    let row = answer(columns, record);
    assert(row[0] == record["jobs.id"@]);
    assert(row[1] == record["jobs.repository_id"@]);
    assert(row[2] == record["jobs.generation_id"@]);
    assert(row[3] == record["jobs.chunk_id"@]);
    assert(row[4] == record["jobs.file_id"@]);
    assert(row[5] == record["jobs.path"@]);
    assert(row[6] == record["jobs.content_hash"@]);
    assert(row[7] == record["jobs.text_hash"@]);
    assert(row[8] == record["jobs.status"@]);
    assert(row[9] == record["jobs.attempts"@]);
    assert(row[10] == record["jobs.error_summary"@]);
    assert(row[11] == record["jobs.created_at"@]);
    assert(row[12] == record["jobs.updated_at"@]);
    assert(row[13] == record["files.id"@]);
    assert(row[14] == record["files.content_hash"@]);
    assert(row[15] == record["files.language"@]);
    assert(row[16] == record["chunks.kind"@]);
    assert(row[17] == record["chunks.text_hash"@]);
    assert(row[18] == record["chunks.start_line"@]);
    assert(row[19] == record["chunks.end_line"@]);
    assert(row[20] == record["chunks.start_byte"@]);
    assert(row[21] == record["chunks.end_byte"@]);
    assert(row[22] == record["chunks.excluded_reason"@]);
    assert(row[23] == record["chunks.symbol_id"@]);
    assert(row[24] == record["symbols.name"@]);
    assert(row[25] == record["chunks.index_run_id"@]);
    assert(row[26] == record["chunks.parser_version"@]);
    reveal_strlit("SELECT jobs.id, jobs.repository_id, jobs.generation_id, jobs.chunk_id,
           jobs.file_id, jobs.path, jobs.content_hash, jobs.text_hash,
           jobs.status, jobs.attempts, jobs.error_summary,
           jobs.created_at, jobs.updated_at,
           files.id, files.content_hash, files.language,
           chunks.kind, chunks.text_hash, chunks.start_line, chunks.end_line,
           chunks.start_byte, chunks.end_byte, chunks.excluded_reason,
           chunks.symbol_id, symbols.name, chunks.index_run_id,
           chunks.parser_version
    FROM quality_embedding_jobs AS jobs
    LEFT JOIN files
      ON files.id = jobs.file_id
     AND files.repository_id = jobs.repository_id
     AND files.path = jobs.path
    LEFT JOIN chunks
      ON chunks.id = jobs.chunk_id
     AND chunks.file_id = files.id
    LEFT JOIN symbols
      ON symbols.id = chunks.symbol_id
    WHERE jobs.id = ?1");
    reveal_strlit("jobs.id, jobs.repository_id, jobs.generation_id, jobs.chunk_id,
           jobs.file_id, jobs.path, jobs.content_hash, jobs.text_hash,
           jobs.status, jobs.attempts, jobs.error_summary,
           jobs.created_at, jobs.updated_at,
           files.id, files.content_hash, files.language,
           chunks.kind, chunks.text_hash, chunks.start_line, chunks.end_line,
           chunks.start_byte, chunks.end_byte, chunks.excluded_reason,
           chunks.symbol_id, symbols.name, chunks.index_run_id,
           chunks.parser_version");
    assert(QUALITY_JOB_SOURCE_ROW@.subrange(7, 548) =~= "jobs.id, jobs.repository_id, jobs.generation_id, jobs.chunk_id,
           jobs.file_id, jobs.path, jobs.content_hash, jobs.text_hash,
           jobs.status, jobs.attempts, jobs.error_summary,
           jobs.created_at, jobs.updated_at,
           files.id, files.content_hash, files.language,
           chunks.kind, chunks.text_hash, chunks.start_line, chunks.end_line,
           chunks.start_byte, chunks.end_byte, chunks.excluded_reason,
           chunks.symbol_id, symbols.name, chunks.index_run_id,
           chunks.parser_version"@);
    lemma_says(QUALITY_JOB_SOURCE_ROW@, "jobs.id, jobs.repository_id, jobs.generation_id, jobs.chunk_id,
           jobs.file_id, jobs.path, jobs.content_hash, jobs.text_hash,
           jobs.status, jobs.attempts, jobs.error_summary,
           jobs.created_at, jobs.updated_at,
           files.id, files.content_hash, files.language,
           chunks.kind, chunks.text_hash, chunks.start_line, chunks.end_line,
           chunks.start_byte, chunks.end_byte, chunks.excluded_reason,
           chunks.symbol_id, symbols.name, chunks.index_run_id,
           chunks.parser_version"@, 7);
}

/// The answer to `file_provenance` is read by its columns.
pub proof fn law_file_provenance_is_read_by_column(record: Map<Seq<char>, SqlValue>)
    ensures
        says(FILE_PROVENANCE@, "content_hash, index_run_id, parser_version, indexed_at"@),
        ({
            let read = EvidenceProvenance::of(
                answer(
                    seq![
                        "content_hash"@,
                        "index_run_id"@,
                        "parser_version"@,
                        "indexed_at"@,
                    ],
                    record,
                ),
            );
            &&& read.content_hash == optional_text_in(record["content_hash"@])
            &&& read.index_run_id == optional_text_in(record["index_run_id"@])
            &&& read.parser_version == optional_text_in(record["parser_version"@])
            &&& read.indexed_at == optional_text_in(record["indexed_at"@])
            &&& read.embedding_model is None
            &&& read.embedding_dimension is None
            &&& read.embedded_at is None
        }),
{
    let columns = seq![
        "content_hash"@,
        "index_run_id"@,
        "parser_version"@,
        "indexed_at"@,
    ];
    let row = answer(columns, record);
    assert(row[0] == record["content_hash"@]);
    assert(row[1] == record["index_run_id"@]);
    assert(row[2] == record["parser_version"@]);
    assert(row[3] == record["indexed_at"@]);
    reveal_strlit("SELECT content_hash, index_run_id, parser_version, indexed_at
     FROM files
    WHERE repository_id = ?1 AND path = ?2
    LIMIT 1");
    reveal_strlit("content_hash, index_run_id, parser_version, indexed_at");
    assert(FILE_PROVENANCE@.subrange(7, 61)
        =~= "content_hash, index_run_id, parser_version, indexed_at"@);
    lemma_says(FILE_PROVENANCE@, "content_hash, index_run_id, parser_version, indexed_at"@, 7);
}

/// The answer to `find_symbols` is read by its columns.
pub proof fn law_find_symbols_is_read_by_column(record: Map<Seq<char>, SqlValue>)
    ensures
        says(FIND_SYMBOLS@, "symbols.id, symbols.name, symbols.qualified_name, symbols.kind,
           files.path, symbols.start_line, symbols.end_line,
           files.content_hash, symbols.index_run_id, symbols.parser_version,
           files.indexed_at"@),
        ({
            let read = SymbolSearchRow::of(
                answer(
                    seq![
                        "symbols.id"@,
                        "symbols.name"@,
                        "symbols.qualified_name"@,
                        "symbols.kind"@,
                        "files.path"@,
                        "symbols.start_line"@,
                        "symbols.end_line"@,
                        "files.content_hash"@,
                        "symbols.index_run_id"@,
                        "symbols.parser_version"@,
                        "files.indexed_at"@,
                    ],
                    record,
                ),
            );
            &&& read.id == record["symbols.id"@]->Text_0
            &&& read.name == record["symbols.name"@]->Text_0
            &&& read.qualified_name == record["symbols.qualified_name"@]->Text_0
            &&& read.kind == record["symbols.kind"@]->Text_0
            &&& read.path == record["files.path"@]->Text_0
            &&& read.start_line == size_in(record["symbols.start_line"@])
            &&& read.end_line == size_in(record["symbols.end_line"@])
            &&& read.provenance.content_hash == optional_text_in(record["files.content_hash"@])
            &&& read.provenance.index_run_id == optional_text_in(record["symbols.index_run_id"@])
            &&& read.provenance.parser_version == optional_text_in(record["symbols.parser_version"@])
            &&& read.provenance.indexed_at == optional_text_in(record["files.indexed_at"@])
            &&& read.provenance.embedding_model is None
            &&& read.provenance.embedding_dimension is None
            &&& read.provenance.embedded_at is None
        }),
{
    let columns = seq![
        "symbols.id"@,
        "symbols.name"@,
        "symbols.qualified_name"@,
        "symbols.kind"@,
        "files.path"@,
        "symbols.start_line"@,
        "symbols.end_line"@,
        "files.content_hash"@,
        "symbols.index_run_id"@,
        "symbols.parser_version"@,
        "files.indexed_at"@,
    ];
    let row = answer(columns, record);
    assert(row[0] == record["symbols.id"@]);
    assert(row[1] == record["symbols.name"@]);
    assert(row[2] == record["symbols.qualified_name"@]);
    assert(row[3] == record["symbols.kind"@]);
    assert(row[4] == record["files.path"@]);
    assert(row[5] == record["symbols.start_line"@]);
    assert(row[6] == record["symbols.end_line"@]);
    assert(row[7] == record["files.content_hash"@]);
    assert(row[8] == record["symbols.index_run_id"@]);
    assert(row[9] == record["symbols.parser_version"@]);
    assert(row[10] == record["files.indexed_at"@]);
    reveal_strlit("SELECT symbols.id, symbols.name, symbols.qualified_name, symbols.kind,
           files.path, symbols.start_line, symbols.end_line,
           files.content_hash, symbols.index_run_id, symbols.parser_version,
           files.indexed_at
    FROM symbols
    JOIN files ON symbols.file_id = files.id
    WHERE files.repository_id = ?1
      AND (symbols.name = ?2 OR symbols.qualified_name = ?2
           OR symbols.name LIKE ?3 OR symbols.qualified_name LIKE ?3)
    ORDER BY
      CASE
        WHEN symbols.qualified_name = ?2 THEN 0
        WHEN symbols.name = ?2 THEN 1
        ELSE 2
      END,
      files.path,
      symbols.start_line
    LIMIT 25");
    reveal_strlit("symbols.id, symbols.name, symbols.qualified_name, symbols.kind,
           files.path, symbols.start_line, symbols.end_line,
           files.content_hash, symbols.index_run_id, symbols.parser_version,
           files.indexed_at");
    assert(FIND_SYMBOLS@.subrange(7, 236) =~= "symbols.id, symbols.name, symbols.qualified_name, symbols.kind,
           files.path, symbols.start_line, symbols.end_line,
           files.content_hash, symbols.index_run_id, symbols.parser_version,
           files.indexed_at"@);
    lemma_says(FIND_SYMBOLS@, "symbols.id, symbols.name, symbols.qualified_name, symbols.kind,
           files.path, symbols.start_line, symbols.end_line,
           files.content_hash, symbols.index_run_id, symbols.parser_version,
           files.indexed_at"@, 7);
}

/// The answer to `find_symbols_for_ref` is read by its columns.
pub proof fn law_find_symbols_for_ref_is_read_by_column(record: Map<Seq<char>, SqlValue>)
    ensures
        says(FIND_SYMBOLS_FOR_REF@, "symbols.id, symbols.name, symbols.qualified_name, symbols.kind,
           files.path, symbols.start_line, symbols.end_line,
           files.content_hash, symbols.index_run_id, symbols.parser_version,
           files.indexed_at"@),
        ({
            let read = SymbolSearchRow::of(
                answer(
                    seq![
                        "symbols.id"@,
                        "symbols.name"@,
                        "symbols.qualified_name"@,
                        "symbols.kind"@,
                        "files.path"@,
                        "symbols.start_line"@,
                        "symbols.end_line"@,
                        "files.content_hash"@,
                        "symbols.index_run_id"@,
                        "symbols.parser_version"@,
                        "files.indexed_at"@,
                    ],
                    record,
                ),
            );
            &&& read.id == record["symbols.id"@]->Text_0
            &&& read.name == record["symbols.name"@]->Text_0
            &&& read.qualified_name == record["symbols.qualified_name"@]->Text_0
            &&& read.kind == record["symbols.kind"@]->Text_0
            &&& read.path == record["files.path"@]->Text_0
            &&& read.start_line == size_in(record["symbols.start_line"@])
            &&& read.end_line == size_in(record["symbols.end_line"@])
            &&& read.provenance.content_hash == optional_text_in(record["files.content_hash"@])
            &&& read.provenance.index_run_id == optional_text_in(record["symbols.index_run_id"@])
            &&& read.provenance.parser_version == optional_text_in(record["symbols.parser_version"@])
            &&& read.provenance.indexed_at == optional_text_in(record["files.indexed_at"@])
            &&& read.provenance.embedding_model is None
            &&& read.provenance.embedding_dimension is None
            &&& read.provenance.embedded_at is None
        }),
{
    let columns = seq![
        "symbols.id"@,
        "symbols.name"@,
        "symbols.qualified_name"@,
        "symbols.kind"@,
        "files.path"@,
        "symbols.start_line"@,
        "symbols.end_line"@,
        "files.content_hash"@,
        "symbols.index_run_id"@,
        "symbols.parser_version"@,
        "files.indexed_at"@,
    ];
    let row = answer(columns, record);
    assert(row[0] == record["symbols.id"@]);
    assert(row[1] == record["symbols.name"@]);
    assert(row[2] == record["symbols.qualified_name"@]);
    assert(row[3] == record["symbols.kind"@]);
    assert(row[4] == record["files.path"@]);
    assert(row[5] == record["symbols.start_line"@]);
    assert(row[6] == record["symbols.end_line"@]);
    assert(row[7] == record["files.content_hash"@]);
    assert(row[8] == record["symbols.index_run_id"@]);
    assert(row[9] == record["symbols.parser_version"@]);
    assert(row[10] == record["files.indexed_at"@]);
    reveal_strlit("SELECT symbols.id, symbols.name, symbols.qualified_name, symbols.kind,
           files.path, symbols.start_line, symbols.end_line,
           files.content_hash, symbols.index_run_id, symbols.parser_version,
           files.indexed_at
    FROM symbols
    JOIN files ON symbols.file_id = files.id
    JOIN ref_files ON ref_files.file_id = files.id
    WHERE files.repository_id = ?1
      AND ref_files.repository_ref_id = ?2
      AND (symbols.name = ?3 OR symbols.qualified_name = ?3
           OR symbols.name LIKE ?4 OR symbols.qualified_name LIKE ?4)
    ORDER BY
      CASE
        WHEN symbols.qualified_name = ?3 THEN 0
        WHEN symbols.name = ?3 THEN 1
        ELSE 2
      END,
      files.path,
      symbols.start_line
    LIMIT 25");
    reveal_strlit("symbols.id, symbols.name, symbols.qualified_name, symbols.kind,
           files.path, symbols.start_line, symbols.end_line,
           files.content_hash, symbols.index_run_id, symbols.parser_version,
           files.indexed_at");
    assert(FIND_SYMBOLS_FOR_REF@.subrange(7, 236) =~= "symbols.id, symbols.name, symbols.qualified_name, symbols.kind,
           files.path, symbols.start_line, symbols.end_line,
           files.content_hash, symbols.index_run_id, symbols.parser_version,
           files.indexed_at"@);
    lemma_says(FIND_SYMBOLS_FOR_REF@, "symbols.id, symbols.name, symbols.qualified_name, symbols.kind,
           files.path, symbols.start_line, symbols.end_line,
           files.content_hash, symbols.index_run_id, symbols.parser_version,
           files.indexed_at"@, 7);
}

/// The answer to `symbols_at_location` is read by its columns.
pub proof fn law_symbols_at_location_is_read_by_column(record: Map<Seq<char>, SqlValue>)
    ensures
        says(SYMBOLS_AT_LOCATION@, "symbols.id, symbols.name, symbols.qualified_name, symbols.kind,
          files.path, symbols.start_line, symbols.end_line,
          files.content_hash, symbols.index_run_id, symbols.parser_version,
          files.indexed_at"@),
        ({
            let read = SymbolSearchRow::of(
                answer(
                    seq![
                        "symbols.id"@,
                        "symbols.name"@,
                        "symbols.qualified_name"@,
                        "symbols.kind"@,
                        "files.path"@,
                        "symbols.start_line"@,
                        "symbols.end_line"@,
                        "files.content_hash"@,
                        "symbols.index_run_id"@,
                        "symbols.parser_version"@,
                        "files.indexed_at"@,
                    ],
                    record,
                ),
            );
            &&& read.id == record["symbols.id"@]->Text_0
            &&& read.name == record["symbols.name"@]->Text_0
            &&& read.qualified_name == record["symbols.qualified_name"@]->Text_0
            &&& read.kind == record["symbols.kind"@]->Text_0
            &&& read.path == record["files.path"@]->Text_0
            &&& read.start_line == size_in(record["symbols.start_line"@])
            &&& read.end_line == size_in(record["symbols.end_line"@])
            &&& read.provenance.content_hash == optional_text_in(record["files.content_hash"@])
            &&& read.provenance.index_run_id == optional_text_in(record["symbols.index_run_id"@])
            &&& read.provenance.parser_version == optional_text_in(record["symbols.parser_version"@])
            &&& read.provenance.indexed_at == optional_text_in(record["files.indexed_at"@])
            &&& read.provenance.embedding_model is None
            &&& read.provenance.embedding_dimension is None
            &&& read.provenance.embedded_at is None
        }),
{
    let columns = seq![
        "symbols.id"@,
        "symbols.name"@,
        "symbols.qualified_name"@,
        "symbols.kind"@,
        "files.path"@,
        "symbols.start_line"@,
        "symbols.end_line"@,
        "files.content_hash"@,
        "symbols.index_run_id"@,
        "symbols.parser_version"@,
        "files.indexed_at"@,
    ];
    let row = answer(columns, record);
    assert(row[0] == record["symbols.id"@]);
    assert(row[1] == record["symbols.name"@]);
    assert(row[2] == record["symbols.qualified_name"@]);
    assert(row[3] == record["symbols.kind"@]);
    assert(row[4] == record["files.path"@]);
    assert(row[5] == record["symbols.start_line"@]);
    assert(row[6] == record["symbols.end_line"@]);
    assert(row[7] == record["files.content_hash"@]);
    assert(row[8] == record["symbols.index_run_id"@]);
    assert(row[9] == record["symbols.parser_version"@]);
    assert(row[10] == record["files.indexed_at"@]);
    reveal_strlit("SELECT symbols.id, symbols.name, symbols.qualified_name, symbols.kind,
          files.path, symbols.start_line, symbols.end_line,
          files.content_hash, symbols.index_run_id, symbols.parser_version,
          files.indexed_at
     FROM symbols
     JOIN files ON symbols.file_id = files.id
    WHERE files.repository_id = ?1
      AND files.path = ?2
      AND symbols.start_line <= ?3
      AND symbols.end_line >= ?3
    ORDER BY (symbols.end_line - symbols.start_line), symbols.start_line, symbols.qualified_name
    LIMIT 10");
    reveal_strlit("symbols.id, symbols.name, symbols.qualified_name, symbols.kind,
          files.path, symbols.start_line, symbols.end_line,
          files.content_hash, symbols.index_run_id, symbols.parser_version,
          files.indexed_at");
    assert(SYMBOLS_AT_LOCATION@.subrange(7, 233) =~= "symbols.id, symbols.name, symbols.qualified_name, symbols.kind,
          files.path, symbols.start_line, symbols.end_line,
          files.content_hash, symbols.index_run_id, symbols.parser_version,
          files.indexed_at"@);
    lemma_says(SYMBOLS_AT_LOCATION@, "symbols.id, symbols.name, symbols.qualified_name, symbols.kind,
          files.path, symbols.start_line, symbols.end_line,
          files.content_hash, symbols.index_run_id, symbols.parser_version,
          files.indexed_at"@, 7);
}

/// The answer to `callers` is read by its columns.
pub proof fn law_callers_is_read_by_column(record: Map<Seq<char>, SqlValue>)
    ensures
        says(CALLERS@, "calls.callee_text, calls.call_line, calls.confidence, calls.resolution_status,
           caller.id, caller.name, caller.qualified_name, caller.kind,
           files.path, caller.start_line, caller.end_line,
           files.content_hash, calls.index_run_id, calls.parser_version,
           files.indexed_at"@),
        ({
            let read = CallSearchRow::of(
                answer(
                    seq![
                        "calls.callee_text"@,
                        "calls.call_line"@,
                        "calls.confidence"@,
                        "calls.resolution_status"@,
                        "caller.id"@,
                        "caller.name"@,
                        "caller.qualified_name"@,
                        "caller.kind"@,
                        "files.path"@,
                        "caller.start_line"@,
                        "caller.end_line"@,
                        "files.content_hash"@,
                        "calls.index_run_id"@,
                        "calls.parser_version"@,
                        "files.indexed_at"@,
                    ],
                    record,
                ),
            );
            &&& read.callee_text == record["calls.callee_text"@]->Text_0
            &&& read.call_line == size_in(record["calls.call_line"@])
            &&& read.confidence == real_in(record["calls.confidence"@])
            &&& read.resolution_status == record["calls.resolution_status"@]->Text_0
            &&& read.symbol_id == optional_text_in(record["caller.id"@])
            &&& read.symbol_name == optional_text_in(record["caller.name"@])
            &&& read.symbol_qualified_name == optional_text_in(record["caller.qualified_name"@])
            &&& read.symbol_kind == optional_text_in(record["caller.kind"@])
            &&& read.path == optional_text_in(record["files.path"@])
            &&& read.start_line == optional_size_in(record["caller.start_line"@])
            &&& read.end_line == optional_size_in(record["caller.end_line"@])
            &&& read.provenance.content_hash == optional_text_in(record["files.content_hash"@])
            &&& read.provenance.index_run_id == optional_text_in(record["calls.index_run_id"@])
            &&& read.provenance.parser_version == optional_text_in(record["calls.parser_version"@])
            &&& read.provenance.indexed_at == optional_text_in(record["files.indexed_at"@])
            &&& read.provenance.embedding_model is None
            &&& read.provenance.embedding_dimension is None
            &&& read.provenance.embedded_at is None
        }),
{
    let columns = seq![
        "calls.callee_text"@,
        "calls.call_line"@,
        "calls.confidence"@,
        "calls.resolution_status"@,
        "caller.id"@,
        "caller.name"@,
        "caller.qualified_name"@,
        "caller.kind"@,
        "files.path"@,
        "caller.start_line"@,
        "caller.end_line"@,
        "files.content_hash"@,
        "calls.index_run_id"@,
        "calls.parser_version"@,
        "files.indexed_at"@,
    ];
    let row = answer(columns, record);
    assert(row[0] == record["calls.callee_text"@]);
    assert(row[1] == record["calls.call_line"@]);
    assert(row[2] == record["calls.confidence"@]);
    assert(row[3] == record["calls.resolution_status"@]);
    assert(row[4] == record["caller.id"@]);
    assert(row[5] == record["caller.name"@]);
    assert(row[6] == record["caller.qualified_name"@]);
    assert(row[7] == record["caller.kind"@]);
    assert(row[8] == record["files.path"@]);
    assert(row[9] == record["caller.start_line"@]);
    assert(row[10] == record["caller.end_line"@]);
    assert(row[11] == record["files.content_hash"@]);
    assert(row[12] == record["calls.index_run_id"@]);
    assert(row[13] == record["calls.parser_version"@]);
    assert(row[14] == record["files.indexed_at"@]);
    reveal_strlit("SELECT calls.callee_text, calls.call_line, calls.confidence, calls.resolution_status,
           caller.id, caller.name, caller.qualified_name, caller.kind,
           files.path, caller.start_line, caller.end_line,
           files.content_hash, calls.index_run_id, calls.parser_version,
           files.indexed_at
     FROM calls
     JOIN symbols target ON calls.callee_symbol_id = target.id
     JOIN symbols caller ON calls.caller_symbol_id = caller.id
    JOIN files ON caller.file_id = files.id
    WHERE files.repository_id = ?1
      AND (target.id = ?2 OR target.name = ?2 OR target.qualified_name = ?2)
    ORDER BY files.path, calls.call_line
    LIMIT 50");
    reveal_strlit("calls.callee_text, calls.call_line, calls.confidence, calls.resolution_status,
           caller.id, caller.name, caller.qualified_name, caller.kind,
           files.path, caller.start_line, caller.end_line,
           files.content_hash, calls.index_run_id, calls.parser_version,
           files.indexed_at");
    assert(CALLERS@.subrange(7, 316) =~= "calls.callee_text, calls.call_line, calls.confidence, calls.resolution_status,
           caller.id, caller.name, caller.qualified_name, caller.kind,
           files.path, caller.start_line, caller.end_line,
           files.content_hash, calls.index_run_id, calls.parser_version,
           files.indexed_at"@);
    lemma_says(CALLERS@, "calls.callee_text, calls.call_line, calls.confidence, calls.resolution_status,
           caller.id, caller.name, caller.qualified_name, caller.kind,
           files.path, caller.start_line, caller.end_line,
           files.content_hash, calls.index_run_id, calls.parser_version,
           files.indexed_at"@, 7);
}

/// The answer to `callers_for_ref` is read by its columns.
pub proof fn law_callers_for_ref_is_read_by_column(record: Map<Seq<char>, SqlValue>)
    ensures
        says(CALLERS_FOR_REF@, "calls.callee_text, calls.call_line, calls.confidence, calls.resolution_status,
           caller.id, caller.name, caller.qualified_name, caller.kind,
           caller_files.path, caller.start_line, caller.end_line,
           caller_files.content_hash, calls.index_run_id, calls.parser_version,
           caller_files.indexed_at"@),
        ({
            let read = CallSearchRow::of(
                answer(
                    seq![
                        "calls.callee_text"@,
                        "calls.call_line"@,
                        "calls.confidence"@,
                        "calls.resolution_status"@,
                        "caller.id"@,
                        "caller.name"@,
                        "caller.qualified_name"@,
                        "caller.kind"@,
                        "caller_files.path"@,
                        "caller.start_line"@,
                        "caller.end_line"@,
                        "caller_files.content_hash"@,
                        "calls.index_run_id"@,
                        "calls.parser_version"@,
                        "caller_files.indexed_at"@,
                    ],
                    record,
                ),
            );
            &&& read.callee_text == record["calls.callee_text"@]->Text_0
            &&& read.call_line == size_in(record["calls.call_line"@])
            &&& read.confidence == real_in(record["calls.confidence"@])
            &&& read.resolution_status == record["calls.resolution_status"@]->Text_0
            &&& read.symbol_id == optional_text_in(record["caller.id"@])
            &&& read.symbol_name == optional_text_in(record["caller.name"@])
            &&& read.symbol_qualified_name == optional_text_in(record["caller.qualified_name"@])
            &&& read.symbol_kind == optional_text_in(record["caller.kind"@])
            &&& read.path == optional_text_in(record["caller_files.path"@])
            &&& read.start_line == optional_size_in(record["caller.start_line"@])
            &&& read.end_line == optional_size_in(record["caller.end_line"@])
            &&& read.provenance.content_hash == optional_text_in(record["caller_files.content_hash"@])
            &&& read.provenance.index_run_id == optional_text_in(record["calls.index_run_id"@])
            &&& read.provenance.parser_version == optional_text_in(record["calls.parser_version"@])
            &&& read.provenance.indexed_at == optional_text_in(record["caller_files.indexed_at"@])
            &&& read.provenance.embedding_model is None
            &&& read.provenance.embedding_dimension is None
            &&& read.provenance.embedded_at is None
        }),
{
    let columns = seq![
        "calls.callee_text"@,
        "calls.call_line"@,
        "calls.confidence"@,
        "calls.resolution_status"@,
        "caller.id"@,
        "caller.name"@,
        "caller.qualified_name"@,
        "caller.kind"@,
        "caller_files.path"@,
        "caller.start_line"@,
        "caller.end_line"@,
        "caller_files.content_hash"@,
        "calls.index_run_id"@,
        "calls.parser_version"@,
        "caller_files.indexed_at"@,
    ];
    let row = answer(columns, record);
    assert(row[0] == record["calls.callee_text"@]);
    assert(row[1] == record["calls.call_line"@]);
    assert(row[2] == record["calls.confidence"@]);
    assert(row[3] == record["calls.resolution_status"@]);
    assert(row[4] == record["caller.id"@]);
    assert(row[5] == record["caller.name"@]);
    assert(row[6] == record["caller.qualified_name"@]);
    assert(row[7] == record["caller.kind"@]);
    assert(row[8] == record["caller_files.path"@]);
    assert(row[9] == record["caller.start_line"@]);
    assert(row[10] == record["caller.end_line"@]);
    assert(row[11] == record["caller_files.content_hash"@]);
    assert(row[12] == record["calls.index_run_id"@]);
    assert(row[13] == record["calls.parser_version"@]);
    assert(row[14] == record["caller_files.indexed_at"@]);
    reveal_strlit("SELECT calls.callee_text, calls.call_line, calls.confidence, calls.resolution_status,
           caller.id, caller.name, caller.qualified_name, caller.kind,
           caller_files.path, caller.start_line, caller.end_line,
           caller_files.content_hash, calls.index_run_id, calls.parser_version,
           caller_files.indexed_at
     FROM calls
     JOIN symbols target ON calls.callee_symbol_id = target.id
     JOIN files target_files ON target.file_id = target_files.id
     JOIN ref_files target_ref ON target_ref.file_id = target_files.id
     JOIN symbols caller ON calls.caller_symbol_id = caller.id
     JOIN files caller_files ON caller.file_id = caller_files.id
     JOIN ref_files caller_ref ON caller_ref.file_id = caller_files.id
    WHERE caller_files.repository_id = ?1
      AND target_ref.repository_ref_id = ?2
      AND caller_ref.repository_ref_id = ?2
      AND (target.id = ?3 OR target.name = ?3 OR target.qualified_name = ?3)
    ORDER BY caller_files.path, calls.call_line
    LIMIT 50");
    reveal_strlit("calls.callee_text, calls.call_line, calls.confidence, calls.resolution_status,
           caller.id, caller.name, caller.qualified_name, caller.kind,
           caller_files.path, caller.start_line, caller.end_line,
           caller_files.content_hash, calls.index_run_id, calls.parser_version,
           caller_files.indexed_at");
    assert(CALLERS_FOR_REF@.subrange(7, 337) =~= "calls.callee_text, calls.call_line, calls.confidence, calls.resolution_status,
           caller.id, caller.name, caller.qualified_name, caller.kind,
           caller_files.path, caller.start_line, caller.end_line,
           caller_files.content_hash, calls.index_run_id, calls.parser_version,
           caller_files.indexed_at"@);
    lemma_says(CALLERS_FOR_REF@, "calls.callee_text, calls.call_line, calls.confidence, calls.resolution_status,
           caller.id, caller.name, caller.qualified_name, caller.kind,
           caller_files.path, caller.start_line, caller.end_line,
           caller_files.content_hash, calls.index_run_id, calls.parser_version,
           caller_files.indexed_at"@, 7);
}

/// The answer to `callees` is read by its columns.
pub proof fn law_callees_is_read_by_column(record: Map<Seq<char>, SqlValue>)
    ensures
        says(CALLEES@, "calls.callee_text, calls.call_line, calls.confidence, calls.resolution_status,
           callee.id, callee.name, callee.qualified_name, callee.kind,
           files.path, callee.start_line, callee.end_line,
           files.content_hash, calls.index_run_id, calls.parser_version,
           files.indexed_at"@),
        ({
            let read = CallSearchRow::of(
                answer(
                    seq![
                        "calls.callee_text"@,
                        "calls.call_line"@,
                        "calls.confidence"@,
                        "calls.resolution_status"@,
                        "callee.id"@,
                        "callee.name"@,
                        "callee.qualified_name"@,
                        "callee.kind"@,
                        "files.path"@,
                        "callee.start_line"@,
                        "callee.end_line"@,
                        "files.content_hash"@,
                        "calls.index_run_id"@,
                        "calls.parser_version"@,
                        "files.indexed_at"@,
                    ],
                    record,
                ),
            );
            &&& read.callee_text == record["calls.callee_text"@]->Text_0
            &&& read.call_line == size_in(record["calls.call_line"@])
            &&& read.confidence == real_in(record["calls.confidence"@])
            &&& read.resolution_status == record["calls.resolution_status"@]->Text_0
            &&& read.symbol_id == optional_text_in(record["callee.id"@])
            &&& read.symbol_name == optional_text_in(record["callee.name"@])
            &&& read.symbol_qualified_name == optional_text_in(record["callee.qualified_name"@])
            &&& read.symbol_kind == optional_text_in(record["callee.kind"@])
            &&& read.path == optional_text_in(record["files.path"@])
            &&& read.start_line == optional_size_in(record["callee.start_line"@])
            &&& read.end_line == optional_size_in(record["callee.end_line"@])
            &&& read.provenance.content_hash == optional_text_in(record["files.content_hash"@])
            &&& read.provenance.index_run_id == optional_text_in(record["calls.index_run_id"@])
            &&& read.provenance.parser_version == optional_text_in(record["calls.parser_version"@])
            &&& read.provenance.indexed_at == optional_text_in(record["files.indexed_at"@])
            &&& read.provenance.embedding_model is None
            &&& read.provenance.embedding_dimension is None
            &&& read.provenance.embedded_at is None
        }),
{
    let columns = seq![
        "calls.callee_text"@,
        "calls.call_line"@,
        "calls.confidence"@,
        "calls.resolution_status"@,
        "callee.id"@,
        "callee.name"@,
        "callee.qualified_name"@,
        "callee.kind"@,
        "files.path"@,
        "callee.start_line"@,
        "callee.end_line"@,
        "files.content_hash"@,
        "calls.index_run_id"@,
        "calls.parser_version"@,
        "files.indexed_at"@,
    ];
    let row = answer(columns, record);
    assert(row[0] == record["calls.callee_text"@]);
    assert(row[1] == record["calls.call_line"@]);
    assert(row[2] == record["calls.confidence"@]);
    assert(row[3] == record["calls.resolution_status"@]);
    assert(row[4] == record["callee.id"@]);
    assert(row[5] == record["callee.name"@]);
    assert(row[6] == record["callee.qualified_name"@]);
    assert(row[7] == record["callee.kind"@]);
    assert(row[8] == record["files.path"@]);
    assert(row[9] == record["callee.start_line"@]);
    assert(row[10] == record["callee.end_line"@]);
    assert(row[11] == record["files.content_hash"@]);
    assert(row[12] == record["calls.index_run_id"@]);
    assert(row[13] == record["calls.parser_version"@]);
    assert(row[14] == record["files.indexed_at"@]);
    reveal_strlit("SELECT calls.callee_text, calls.call_line, calls.confidence, calls.resolution_status,
           callee.id, callee.name, callee.qualified_name, callee.kind,
           files.path, callee.start_line, callee.end_line,
           files.content_hash, calls.index_run_id, calls.parser_version,
           files.indexed_at
     FROM calls
     JOIN symbols caller ON calls.caller_symbol_id = caller.id
     LEFT JOIN symbols callee ON calls.callee_symbol_id = callee.id
    JOIN files ON caller.file_id = files.id
    WHERE files.repository_id = ?1
      AND (caller.id = ?2 OR caller.name = ?2 OR caller.qualified_name = ?2)
    ORDER BY calls.call_line, calls.callee_text
    LIMIT 50");
    reveal_strlit("calls.callee_text, calls.call_line, calls.confidence, calls.resolution_status,
           callee.id, callee.name, callee.qualified_name, callee.kind,
           files.path, callee.start_line, callee.end_line,
           files.content_hash, calls.index_run_id, calls.parser_version,
           files.indexed_at");
    assert(CALLEES@.subrange(7, 316) =~= "calls.callee_text, calls.call_line, calls.confidence, calls.resolution_status,
           callee.id, callee.name, callee.qualified_name, callee.kind,
           files.path, callee.start_line, callee.end_line,
           files.content_hash, calls.index_run_id, calls.parser_version,
           files.indexed_at"@);
    lemma_says(CALLEES@, "calls.callee_text, calls.call_line, calls.confidence, calls.resolution_status,
           callee.id, callee.name, callee.qualified_name, callee.kind,
           files.path, callee.start_line, callee.end_line,
           files.content_hash, calls.index_run_id, calls.parser_version,
           files.indexed_at"@, 7);
}

/// The answer to `callees_for_ref` is read by its columns.
pub proof fn law_callees_for_ref_is_read_by_column(record: Map<Seq<char>, SqlValue>)
    ensures
        says(CALLEES_FOR_REF@, "calls.callee_text, calls.call_line, calls.confidence, calls.resolution_status,
           callee.id, callee.name, callee.qualified_name, callee.kind,
           caller_files.path, callee.start_line, callee.end_line,
           caller_files.content_hash, calls.index_run_id, calls.parser_version,
           caller_files.indexed_at"@),
        ({
            let read = CallSearchRow::of(
                answer(
                    seq![
                        "calls.callee_text"@,
                        "calls.call_line"@,
                        "calls.confidence"@,
                        "calls.resolution_status"@,
                        "callee.id"@,
                        "callee.name"@,
                        "callee.qualified_name"@,
                        "callee.kind"@,
                        "caller_files.path"@,
                        "callee.start_line"@,
                        "callee.end_line"@,
                        "caller_files.content_hash"@,
                        "calls.index_run_id"@,
                        "calls.parser_version"@,
                        "caller_files.indexed_at"@,
                    ],
                    record,
                ),
            );
            &&& read.callee_text == record["calls.callee_text"@]->Text_0
            &&& read.call_line == size_in(record["calls.call_line"@])
            &&& read.confidence == real_in(record["calls.confidence"@])
            &&& read.resolution_status == record["calls.resolution_status"@]->Text_0
            &&& read.symbol_id == optional_text_in(record["callee.id"@])
            &&& read.symbol_name == optional_text_in(record["callee.name"@])
            &&& read.symbol_qualified_name == optional_text_in(record["callee.qualified_name"@])
            &&& read.symbol_kind == optional_text_in(record["callee.kind"@])
            &&& read.path == optional_text_in(record["caller_files.path"@])
            &&& read.start_line == optional_size_in(record["callee.start_line"@])
            &&& read.end_line == optional_size_in(record["callee.end_line"@])
            &&& read.provenance.content_hash == optional_text_in(record["caller_files.content_hash"@])
            &&& read.provenance.index_run_id == optional_text_in(record["calls.index_run_id"@])
            &&& read.provenance.parser_version == optional_text_in(record["calls.parser_version"@])
            &&& read.provenance.indexed_at == optional_text_in(record["caller_files.indexed_at"@])
            &&& read.provenance.embedding_model is None
            &&& read.provenance.embedding_dimension is None
            &&& read.provenance.embedded_at is None
        }),
{
    let columns = seq![
        "calls.callee_text"@,
        "calls.call_line"@,
        "calls.confidence"@,
        "calls.resolution_status"@,
        "callee.id"@,
        "callee.name"@,
        "callee.qualified_name"@,
        "callee.kind"@,
        "caller_files.path"@,
        "callee.start_line"@,
        "callee.end_line"@,
        "caller_files.content_hash"@,
        "calls.index_run_id"@,
        "calls.parser_version"@,
        "caller_files.indexed_at"@,
    ];
    let row = answer(columns, record);
    assert(row[0] == record["calls.callee_text"@]);
    assert(row[1] == record["calls.call_line"@]);
    assert(row[2] == record["calls.confidence"@]);
    assert(row[3] == record["calls.resolution_status"@]);
    assert(row[4] == record["callee.id"@]);
    assert(row[5] == record["callee.name"@]);
    assert(row[6] == record["callee.qualified_name"@]);
    assert(row[7] == record["callee.kind"@]);
    assert(row[8] == record["caller_files.path"@]);
    assert(row[9] == record["callee.start_line"@]);
    assert(row[10] == record["callee.end_line"@]);
    assert(row[11] == record["caller_files.content_hash"@]);
    assert(row[12] == record["calls.index_run_id"@]);
    assert(row[13] == record["calls.parser_version"@]);
    assert(row[14] == record["caller_files.indexed_at"@]);
    reveal_strlit("SELECT calls.callee_text, calls.call_line, calls.confidence, calls.resolution_status,
           callee.id, callee.name, callee.qualified_name, callee.kind,
           caller_files.path, callee.start_line, callee.end_line,
           caller_files.content_hash, calls.index_run_id, calls.parser_version,
           caller_files.indexed_at
     FROM calls
     JOIN symbols caller ON calls.caller_symbol_id = caller.id
     JOIN files caller_files ON caller.file_id = caller_files.id
     JOIN ref_files caller_ref ON caller_ref.file_id = caller_files.id
     LEFT JOIN symbols callee ON calls.callee_symbol_id = callee.id
     LEFT JOIN files callee_files ON callee.file_id = callee_files.id
     LEFT JOIN ref_files callee_ref
       ON callee_ref.file_id = callee_files.id
      AND callee_ref.repository_ref_id = ?2
    WHERE caller_files.repository_id = ?1
      AND caller_ref.repository_ref_id = ?2
      AND (callee.id IS NULL OR callee_ref.repository_ref_id IS NOT NULL)
      AND (caller.id = ?3 OR caller.name = ?3 OR caller.qualified_name = ?3)
    ORDER BY calls.call_line, calls.callee_text
    LIMIT 50");
    reveal_strlit("calls.callee_text, calls.call_line, calls.confidence, calls.resolution_status,
           callee.id, callee.name, callee.qualified_name, callee.kind,
           caller_files.path, callee.start_line, callee.end_line,
           caller_files.content_hash, calls.index_run_id, calls.parser_version,
           caller_files.indexed_at");
    assert(CALLEES_FOR_REF@.subrange(7, 337) =~= "calls.callee_text, calls.call_line, calls.confidence, calls.resolution_status,
           callee.id, callee.name, callee.qualified_name, callee.kind,
           caller_files.path, callee.start_line, callee.end_line,
           caller_files.content_hash, calls.index_run_id, calls.parser_version,
           caller_files.indexed_at"@);
    lemma_says(CALLEES_FOR_REF@, "calls.callee_text, calls.call_line, calls.confidence, calls.resolution_status,
           callee.id, callee.name, callee.qualified_name, callee.kind,
           caller_files.path, callee.start_line, callee.end_line,
           caller_files.content_hash, calls.index_run_id, calls.parser_version,
           caller_files.indexed_at"@, 7);
}

/// The answer to `tests_matching_name` is read by its columns.
pub proof fn law_tests_matching_name_is_read_by_column(record: Map<Seq<char>, SqlValue>)
    ensures
        says(TESTS_MATCHING_NAME@, "tests.id, tests.name, tests.qualified_name, tests.framework,
          tests.language, tests.path, tests.start_line, tests.end_line,
          files.content_hash, tests.index_run_id, tests.parser_version, tests.indexed_at"@),
        ({
            let read = TestSearchRow::of(
                answer(
                    seq![
                        "tests.id"@,
                        "tests.name"@,
                        "tests.qualified_name"@,
                        "tests.framework"@,
                        "tests.language"@,
                        "tests.path"@,
                        "tests.start_line"@,
                        "tests.end_line"@,
                        "files.content_hash"@,
                        "tests.index_run_id"@,
                        "tests.parser_version"@,
                        "tests.indexed_at"@,
                    ],
                    record,
                ),
            );
            &&& read.id == record["tests.id"@]->Text_0
            &&& read.name == record["tests.name"@]->Text_0
            &&& read.qualified_name == record["tests.qualified_name"@]->Text_0
            &&& read.framework == record["tests.framework"@]->Text_0
            &&& read.language == record["tests.language"@]->Text_0
            &&& read.path == record["tests.path"@]->Text_0
            &&& read.start_line == size_in(record["tests.start_line"@])
            &&& read.end_line == size_in(record["tests.end_line"@])
            &&& read.provenance.content_hash == optional_text_in(record["files.content_hash"@])
            &&& read.provenance.index_run_id == optional_text_in(record["tests.index_run_id"@])
            &&& read.provenance.parser_version == optional_text_in(record["tests.parser_version"@])
            &&& read.provenance.indexed_at == optional_text_in(record["tests.indexed_at"@])
            &&& read.provenance.embedding_model is None
            &&& read.provenance.embedding_dimension is None
            &&& read.provenance.embedded_at is None
        }),
{
    let columns = seq![
        "tests.id"@,
        "tests.name"@,
        "tests.qualified_name"@,
        "tests.framework"@,
        "tests.language"@,
        "tests.path"@,
        "tests.start_line"@,
        "tests.end_line"@,
        "files.content_hash"@,
        "tests.index_run_id"@,
        "tests.parser_version"@,
        "tests.indexed_at"@,
    ];
    let row = answer(columns, record);
    assert(row[0] == record["tests.id"@]);
    assert(row[1] == record["tests.name"@]);
    assert(row[2] == record["tests.qualified_name"@]);
    assert(row[3] == record["tests.framework"@]);
    assert(row[4] == record["tests.language"@]);
    assert(row[5] == record["tests.path"@]);
    assert(row[6] == record["tests.start_line"@]);
    assert(row[7] == record["tests.end_line"@]);
    assert(row[8] == record["files.content_hash"@]);
    assert(row[9] == record["tests.index_run_id"@]);
    assert(row[10] == record["tests.parser_version"@]);
    assert(row[11] == record["tests.indexed_at"@]);
    reveal_strlit("SELECT tests.id, tests.name, tests.qualified_name, tests.framework,
          tests.language, tests.path, tests.start_line, tests.end_line,
          files.content_hash, tests.index_run_id, tests.parser_version, tests.indexed_at
     FROM tests
     JOIN files ON tests.file_id = files.id
    WHERE tests.repository_id = ?1
      AND (tests.name = ?2 OR tests.qualified_name = ?2 OR tests.qualified_name LIKE ?3)
    ORDER BY
      CASE
        WHEN tests.qualified_name = ?2 THEN 0
        WHEN tests.name = ?2 THEN 1
        ELSE 2
      END,
      tests.path,
      tests.start_line
    LIMIT 25");
    reveal_strlit("tests.id, tests.name, tests.qualified_name, tests.framework,
          tests.language, tests.path, tests.start_line, tests.end_line,
          files.content_hash, tests.index_run_id, tests.parser_version, tests.indexed_at");
    assert(TESTS_MATCHING_NAME@.subrange(7, 228) =~= "tests.id, tests.name, tests.qualified_name, tests.framework,
          tests.language, tests.path, tests.start_line, tests.end_line,
          files.content_hash, tests.index_run_id, tests.parser_version, tests.indexed_at"@);
    lemma_says(TESTS_MATCHING_NAME@, "tests.id, tests.name, tests.qualified_name, tests.framework,
          tests.language, tests.path, tests.start_line, tests.end_line,
          files.content_hash, tests.index_run_id, tests.parser_version, tests.indexed_at"@, 7);
}

/// The answer to `likely_tests_for_symbol` is read by its columns.
pub proof fn law_likely_tests_for_symbol_is_read_by_column(record: Map<Seq<char>, SqlValue>)
    ensures
        says(LIKELY_TESTS_FOR_SYMBOL@, "tests.id, tests.name, tests.qualified_name, tests.framework,
          tests.language, tests.path, tests.start_line, tests.end_line,
          files.content_hash, tests.index_run_id, tests.parser_version, tests.indexed_at"@),
        ({
            let read = TestSearchRow::of(
                answer(
                    seq![
                        "tests.id"@,
                        "tests.name"@,
                        "tests.qualified_name"@,
                        "tests.framework"@,
                        "tests.language"@,
                        "tests.path"@,
                        "tests.start_line"@,
                        "tests.end_line"@,
                        "files.content_hash"@,
                        "tests.index_run_id"@,
                        "tests.parser_version"@,
                        "tests.indexed_at"@,
                    ],
                    record,
                ),
            );
            &&& read.id == record["tests.id"@]->Text_0
            &&& read.name == record["tests.name"@]->Text_0
            &&& read.qualified_name == record["tests.qualified_name"@]->Text_0
            &&& read.framework == record["tests.framework"@]->Text_0
            &&& read.language == record["tests.language"@]->Text_0
            &&& read.path == record["tests.path"@]->Text_0
            &&& read.start_line == size_in(record["tests.start_line"@])
            &&& read.end_line == size_in(record["tests.end_line"@])
            &&& read.provenance.content_hash == optional_text_in(record["files.content_hash"@])
            &&& read.provenance.index_run_id == optional_text_in(record["tests.index_run_id"@])
            &&& read.provenance.parser_version == optional_text_in(record["tests.parser_version"@])
            &&& read.provenance.indexed_at == optional_text_in(record["tests.indexed_at"@])
            &&& read.provenance.embedding_model is None
            &&& read.provenance.embedding_dimension is None
            &&& read.provenance.embedded_at is None
        }),
{
    let columns = seq![
        "tests.id"@,
        "tests.name"@,
        "tests.qualified_name"@,
        "tests.framework"@,
        "tests.language"@,
        "tests.path"@,
        "tests.start_line"@,
        "tests.end_line"@,
        "files.content_hash"@,
        "tests.index_run_id"@,
        "tests.parser_version"@,
        "tests.indexed_at"@,
    ];
    let row = answer(columns, record);
    assert(row[0] == record["tests.id"@]);
    assert(row[1] == record["tests.name"@]);
    assert(row[2] == record["tests.qualified_name"@]);
    assert(row[3] == record["tests.framework"@]);
    assert(row[4] == record["tests.language"@]);
    assert(row[5] == record["tests.path"@]);
    assert(row[6] == record["tests.start_line"@]);
    assert(row[7] == record["tests.end_line"@]);
    assert(row[8] == record["files.content_hash"@]);
    assert(row[9] == record["tests.index_run_id"@]);
    assert(row[10] == record["tests.parser_version"@]);
    assert(row[11] == record["tests.indexed_at"@]);
    reveal_strlit("SELECT DISTINCT tests.id, tests.name, tests.qualified_name, tests.framework,
          tests.language, tests.path, tests.start_line, tests.end_line,
          files.content_hash, tests.index_run_id, tests.parser_version, tests.indexed_at
     FROM tests
     JOIN files ON tests.file_id = files.id
     LEFT JOIN calls ON calls.caller_symbol_id = tests.symbol_id
     LEFT JOIN symbols target ON calls.callee_symbol_id = target.id
    WHERE tests.repository_id = ?1
      AND (
        tests.id = ?2 OR tests.name = ?2 OR tests.qualified_name = ?2
        OR target.id = ?2 OR target.name = ?2 OR target.qualified_name = ?2
      )
    ORDER BY tests.path, tests.start_line, tests.qualified_name
    LIMIT 25");
    reveal_strlit("tests.id, tests.name, tests.qualified_name, tests.framework,
          tests.language, tests.path, tests.start_line, tests.end_line,
          files.content_hash, tests.index_run_id, tests.parser_version, tests.indexed_at");
    assert(LIKELY_TESTS_FOR_SYMBOL@.subrange(16, 237) =~= "tests.id, tests.name, tests.qualified_name, tests.framework,
          tests.language, tests.path, tests.start_line, tests.end_line,
          files.content_hash, tests.index_run_id, tests.parser_version, tests.indexed_at"@);
    lemma_says(LIKELY_TESTS_FOR_SYMBOL@, "tests.id, tests.name, tests.qualified_name, tests.framework,
          tests.language, tests.path, tests.start_line, tests.end_line,
          files.content_hash, tests.index_run_id, tests.parser_version, tests.indexed_at"@, 16);
}

/// The answer to `calls_at_location` is read by its columns.
pub proof fn law_calls_at_location_is_read_by_column(record: Map<Seq<char>, SqlValue>)
    ensures
        says(CALLS_AT_LOCATION@, "calls.id, calls.callee_text, calls.call_line, calls.confidence,
          calls.resolution_status,
          caller.id, caller.name, caller.qualified_name, caller.kind,
          caller_files.path, caller.start_line, caller.end_line,
          callee.id, callee.name, callee.qualified_name, callee.kind,
          callee_files.path, callee.start_line, callee.end_line,
          caller_files.content_hash, calls.index_run_id, calls.parser_version,
          caller_files.indexed_at"@),
        ({
            let read = CallPathEdge::of(
                answer(
                    seq![
                        "calls.id"@,
                        "calls.callee_text"@,
                        "calls.call_line"@,
                        "calls.confidence"@,
                        "calls.resolution_status"@,
                        "caller.id"@,
                        "caller.name"@,
                        "caller.qualified_name"@,
                        "caller.kind"@,
                        "caller_files.path"@,
                        "caller.start_line"@,
                        "caller.end_line"@,
                        "callee.id"@,
                        "callee.name"@,
                        "callee.qualified_name"@,
                        "callee.kind"@,
                        "callee_files.path"@,
                        "callee.start_line"@,
                        "callee.end_line"@,
                        "caller_files.content_hash"@,
                        "calls.index_run_id"@,
                        "calls.parser_version"@,
                        "caller_files.indexed_at"@,
                    ],
                    record,
                ),
            );
            &&& read.call_id == record["calls.id"@]->Text_0
            &&& read.caller_symbol_id == record["caller.id"@]->Text_0
            &&& read.caller_symbol_name == record["caller.name"@]->Text_0
            &&& read.caller_symbol_qualified_name == record["caller.qualified_name"@]->Text_0
            &&& read.caller_symbol_kind == record["caller.kind"@]->Text_0
            &&& read.caller_path == record["caller_files.path"@]->Text_0
            &&& read.caller_start_line == size_in(record["caller.start_line"@])
            &&& read.caller_end_line == size_in(record["caller.end_line"@])
            &&& read.callee_text == record["calls.callee_text"@]->Text_0
            &&& read.callee_symbol_id == optional_text_in(record["callee.id"@])
            &&& read.callee_symbol_name == optional_text_in(record["callee.name"@])
            &&& read.callee_symbol_qualified_name == optional_text_in(record["callee.qualified_name"@])
            &&& read.callee_symbol_kind == optional_text_in(record["callee.kind"@])
            &&& read.callee_path == optional_text_in(record["callee_files.path"@])
            &&& read.callee_start_line == optional_size_in(record["callee.start_line"@])
            &&& read.callee_end_line == optional_size_in(record["callee.end_line"@])
            &&& read.call_line == size_in(record["calls.call_line"@])
            &&& read.confidence == real_in(record["calls.confidence"@])
            &&& read.resolution_status == record["calls.resolution_status"@]->Text_0
            &&& read.provenance.content_hash == optional_text_in(record["caller_files.content_hash"@])
            &&& read.provenance.index_run_id == optional_text_in(record["calls.index_run_id"@])
            &&& read.provenance.parser_version == optional_text_in(record["calls.parser_version"@])
            &&& read.provenance.indexed_at == optional_text_in(record["caller_files.indexed_at"@])
            &&& read.provenance.embedding_model is None
            &&& read.provenance.embedding_dimension is None
            &&& read.provenance.embedded_at is None
        }),
{
    let columns = seq![
        "calls.id"@,
        "calls.callee_text"@,
        "calls.call_line"@,
        "calls.confidence"@,
        "calls.resolution_status"@,
        "caller.id"@,
        "caller.name"@,
        "caller.qualified_name"@,
        "caller.kind"@,
        "caller_files.path"@,
        "caller.start_line"@,
        "caller.end_line"@,
        "callee.id"@,
        "callee.name"@,
        "callee.qualified_name"@,
        "callee.kind"@,
        "callee_files.path"@,
        "callee.start_line"@,
        "callee.end_line"@,
        "caller_files.content_hash"@,
        "calls.index_run_id"@,
        "calls.parser_version"@,
        "caller_files.indexed_at"@,
    ];
    let row = answer(columns, record);
    assert(row[0] == record["calls.id"@]);
    assert(row[1] == record["calls.callee_text"@]);
    assert(row[2] == record["calls.call_line"@]);
    assert(row[3] == record["calls.confidence"@]);
    assert(row[4] == record["calls.resolution_status"@]);
    assert(row[5] == record["caller.id"@]);
    assert(row[6] == record["caller.name"@]);
    assert(row[7] == record["caller.qualified_name"@]);
    assert(row[8] == record["caller.kind"@]);
    assert(row[9] == record["caller_files.path"@]);
    assert(row[10] == record["caller.start_line"@]);
    assert(row[11] == record["caller.end_line"@]);
    assert(row[12] == record["callee.id"@]);
    assert(row[13] == record["callee.name"@]);
    assert(row[14] == record["callee.qualified_name"@]);
    assert(row[15] == record["callee.kind"@]);
    assert(row[16] == record["callee_files.path"@]);
    assert(row[17] == record["callee.start_line"@]);
    assert(row[18] == record["callee.end_line"@]);
    assert(row[19] == record["caller_files.content_hash"@]);
    assert(row[20] == record["calls.index_run_id"@]);
    assert(row[21] == record["calls.parser_version"@]);
    assert(row[22] == record["caller_files.indexed_at"@]);
    reveal_strlit("SELECT calls.id, calls.callee_text, calls.call_line, calls.confidence,
          calls.resolution_status,
          caller.id, caller.name, caller.qualified_name, caller.kind,
          caller_files.path, caller.start_line, caller.end_line,
          callee.id, callee.name, callee.qualified_name, callee.kind,
          callee_files.path, callee.start_line, callee.end_line,
          caller_files.content_hash, calls.index_run_id, calls.parser_version,
          caller_files.indexed_at
     FROM calls
     JOIN symbols caller ON calls.caller_symbol_id = caller.id
     JOIN files caller_files ON caller.file_id = caller_files.id
     LEFT JOIN symbols callee ON calls.callee_symbol_id = callee.id
     LEFT JOIN files callee_files ON callee.file_id = callee_files.id
    WHERE caller_files.repository_id = ?1
      AND caller_files.path = ?2
      AND calls.call_line = ?3
    ORDER BY caller.qualified_name, calls.callee_text, calls.id
    LIMIT 25");
    reveal_strlit("calls.id, calls.callee_text, calls.call_line, calls.confidence,
          calls.resolution_status,
          caller.id, caller.name, caller.qualified_name, caller.kind,
          caller_files.path, caller.start_line, caller.end_line,
          callee.id, callee.name, callee.qualified_name, callee.kind,
          callee_files.path, callee.start_line, callee.end_line,
          caller_files.content_hash, calls.index_run_id, calls.parser_version,
          caller_files.indexed_at");
    assert(CALLS_AT_LOCATION@.subrange(7, 488) =~= "calls.id, calls.callee_text, calls.call_line, calls.confidence,
          calls.resolution_status,
          caller.id, caller.name, caller.qualified_name, caller.kind,
          caller_files.path, caller.start_line, caller.end_line,
          callee.id, callee.name, callee.qualified_name, callee.kind,
          callee_files.path, callee.start_line, callee.end_line,
          caller_files.content_hash, calls.index_run_id, calls.parser_version,
          caller_files.indexed_at"@);
    lemma_says(CALLS_AT_LOCATION@, "calls.id, calls.callee_text, calls.call_line, calls.confidence,
          calls.resolution_status,
          caller.id, caller.name, caller.qualified_name, caller.kind,
          caller_files.path, caller.start_line, caller.end_line,
          callee.id, callee.name, callee.qualified_name, callee.kind,
          callee_files.path, callee.start_line, callee.end_line,
          caller_files.content_hash, calls.index_run_id, calls.parser_version,
          caller_files.indexed_at"@, 7);
}

/// The answer to `call_path_edges` is read by its columns.
pub proof fn law_call_path_edges_is_read_by_column(record: Map<Seq<char>, SqlValue>)
    ensures
        says(CALL_PATH_EDGES@, "calls.id, calls.callee_text, calls.call_line, calls.confidence,
          calls.resolution_status,
          caller.id, caller.name, caller.qualified_name, caller.kind,
          caller_file.path, caller.start_line, caller.end_line,
          callee.id, callee.name, callee.qualified_name, callee.kind,
          callee_file.path, callee.start_line, callee.end_line,
          caller_file.content_hash, calls.index_run_id, calls.parser_version,
          caller_file.indexed_at"@),
        ({
            let read = CallPathEdge::of(
                answer(
                    seq![
                        "calls.id"@,
                        "calls.callee_text"@,
                        "calls.call_line"@,
                        "calls.confidence"@,
                        "calls.resolution_status"@,
                        "caller.id"@,
                        "caller.name"@,
                        "caller.qualified_name"@,
                        "caller.kind"@,
                        "caller_file.path"@,
                        "caller.start_line"@,
                        "caller.end_line"@,
                        "callee.id"@,
                        "callee.name"@,
                        "callee.qualified_name"@,
                        "callee.kind"@,
                        "callee_file.path"@,
                        "callee.start_line"@,
                        "callee.end_line"@,
                        "caller_file.content_hash"@,
                        "calls.index_run_id"@,
                        "calls.parser_version"@,
                        "caller_file.indexed_at"@,
                    ],
                    record,
                ),
            );
            &&& read.call_id == record["calls.id"@]->Text_0
            &&& read.caller_symbol_id == record["caller.id"@]->Text_0
            &&& read.caller_symbol_name == record["caller.name"@]->Text_0
            &&& read.caller_symbol_qualified_name == record["caller.qualified_name"@]->Text_0
            &&& read.caller_symbol_kind == record["caller.kind"@]->Text_0
            &&& read.caller_path == record["caller_file.path"@]->Text_0
            &&& read.caller_start_line == size_in(record["caller.start_line"@])
            &&& read.caller_end_line == size_in(record["caller.end_line"@])
            &&& read.callee_text == record["calls.callee_text"@]->Text_0
            &&& read.callee_symbol_id == optional_text_in(record["callee.id"@])
            &&& read.callee_symbol_name == optional_text_in(record["callee.name"@])
            &&& read.callee_symbol_qualified_name == optional_text_in(record["callee.qualified_name"@])
            &&& read.callee_symbol_kind == optional_text_in(record["callee.kind"@])
            &&& read.callee_path == optional_text_in(record["callee_file.path"@])
            &&& read.callee_start_line == optional_size_in(record["callee.start_line"@])
            &&& read.callee_end_line == optional_size_in(record["callee.end_line"@])
            &&& read.call_line == size_in(record["calls.call_line"@])
            &&& read.confidence == real_in(record["calls.confidence"@])
            &&& read.resolution_status == record["calls.resolution_status"@]->Text_0
            &&& read.provenance.content_hash == optional_text_in(record["caller_file.content_hash"@])
            &&& read.provenance.index_run_id == optional_text_in(record["calls.index_run_id"@])
            &&& read.provenance.parser_version == optional_text_in(record["calls.parser_version"@])
            &&& read.provenance.indexed_at == optional_text_in(record["caller_file.indexed_at"@])
            &&& read.provenance.embedding_model is None
            &&& read.provenance.embedding_dimension is None
            &&& read.provenance.embedded_at is None
        }),
{
    let columns = seq![
        "calls.id"@,
        "calls.callee_text"@,
        "calls.call_line"@,
        "calls.confidence"@,
        "calls.resolution_status"@,
        "caller.id"@,
        "caller.name"@,
        "caller.qualified_name"@,
        "caller.kind"@,
        "caller_file.path"@,
        "caller.start_line"@,
        "caller.end_line"@,
        "callee.id"@,
        "callee.name"@,
        "callee.qualified_name"@,
        "callee.kind"@,
        "callee_file.path"@,
        "callee.start_line"@,
        "callee.end_line"@,
        "caller_file.content_hash"@,
        "calls.index_run_id"@,
        "calls.parser_version"@,
        "caller_file.indexed_at"@,
    ];
    let row = answer(columns, record);
    assert(row[0] == record["calls.id"@]);
    assert(row[1] == record["calls.callee_text"@]);
    assert(row[2] == record["calls.call_line"@]);
    assert(row[3] == record["calls.confidence"@]);
    assert(row[4] == record["calls.resolution_status"@]);
    assert(row[5] == record["caller.id"@]);
    assert(row[6] == record["caller.name"@]);
    assert(row[7] == record["caller.qualified_name"@]);
    assert(row[8] == record["caller.kind"@]);
    assert(row[9] == record["caller_file.path"@]);
    assert(row[10] == record["caller.start_line"@]);
    assert(row[11] == record["caller.end_line"@]);
    assert(row[12] == record["callee.id"@]);
    assert(row[13] == record["callee.name"@]);
    assert(row[14] == record["callee.qualified_name"@]);
    assert(row[15] == record["callee.kind"@]);
    assert(row[16] == record["callee_file.path"@]);
    assert(row[17] == record["callee.start_line"@]);
    assert(row[18] == record["callee.end_line"@]);
    assert(row[19] == record["caller_file.content_hash"@]);
    assert(row[20] == record["calls.index_run_id"@]);
    assert(row[21] == record["calls.parser_version"@]);
    assert(row[22] == record["caller_file.indexed_at"@]);
    reveal_strlit("SELECT calls.id, calls.callee_text, calls.call_line, calls.confidence,
          calls.resolution_status,
          caller.id, caller.name, caller.qualified_name, caller.kind,
          caller_file.path, caller.start_line, caller.end_line,
          callee.id, callee.name, callee.qualified_name, callee.kind,
          callee_file.path, callee.start_line, callee.end_line,
          caller_file.content_hash, calls.index_run_id, calls.parser_version,
          caller_file.indexed_at
     FROM calls
     JOIN symbols caller ON calls.caller_symbol_id = caller.id
     JOIN files caller_file ON caller.file_id = caller_file.id
     LEFT JOIN symbols callee ON calls.callee_symbol_id = callee.id
     LEFT JOIN files callee_file ON callee.file_id = callee_file.id
    WHERE caller_file.repository_id = ?1
    ORDER BY caller.qualified_name, caller_file.path, calls.call_line,
             calls.callee_text, calls.id");
    reveal_strlit("calls.id, calls.callee_text, calls.call_line, calls.confidence,
          calls.resolution_status,
          caller.id, caller.name, caller.qualified_name, caller.kind,
          caller_file.path, caller.start_line, caller.end_line,
          callee.id, callee.name, callee.qualified_name, callee.kind,
          callee_file.path, callee.start_line, callee.end_line,
          caller_file.content_hash, calls.index_run_id, calls.parser_version,
          caller_file.indexed_at");
    assert(CALL_PATH_EDGES@.subrange(7, 484) =~= "calls.id, calls.callee_text, calls.call_line, calls.confidence,
          calls.resolution_status,
          caller.id, caller.name, caller.qualified_name, caller.kind,
          caller_file.path, caller.start_line, caller.end_line,
          callee.id, callee.name, callee.qualified_name, callee.kind,
          callee_file.path, callee.start_line, callee.end_line,
          caller_file.content_hash, calls.index_run_id, calls.parser_version,
          caller_file.indexed_at"@);
    lemma_says(CALL_PATH_EDGES@, "calls.id, calls.callee_text, calls.call_line, calls.confidence,
          calls.resolution_status,
          caller.id, caller.name, caller.qualified_name, caller.kind,
          caller_file.path, caller.start_line, caller.end_line,
          callee.id, callee.name, callee.qualified_name, callee.kind,
          callee_file.path, callee.start_line, callee.end_line,
          caller_file.content_hash, calls.index_run_id, calls.parser_version,
          caller_file.indexed_at"@, 7);
}

/// The answer to `call_path_edges_for_ref` is read by its columns.
pub proof fn law_call_path_edges_for_ref_is_read_by_column(record: Map<Seq<char>, SqlValue>)
    ensures
        says(CALL_PATH_EDGES_FOR_REF@, "calls.id, calls.callee_text, calls.call_line, calls.confidence,
          calls.resolution_status,
          caller.id, caller.name, caller.qualified_name, caller.kind,
          caller_file.path, caller.start_line, caller.end_line,
          callee.id, callee.name, callee.qualified_name, callee.kind,
          callee_file.path, callee.start_line, callee.end_line,
          caller_file.content_hash, calls.index_run_id, calls.parser_version,
          caller_file.indexed_at"@),
        ({
            let read = CallPathEdge::of(
                answer(
                    seq![
                        "calls.id"@,
                        "calls.callee_text"@,
                        "calls.call_line"@,
                        "calls.confidence"@,
                        "calls.resolution_status"@,
                        "caller.id"@,
                        "caller.name"@,
                        "caller.qualified_name"@,
                        "caller.kind"@,
                        "caller_file.path"@,
                        "caller.start_line"@,
                        "caller.end_line"@,
                        "callee.id"@,
                        "callee.name"@,
                        "callee.qualified_name"@,
                        "callee.kind"@,
                        "callee_file.path"@,
                        "callee.start_line"@,
                        "callee.end_line"@,
                        "caller_file.content_hash"@,
                        "calls.index_run_id"@,
                        "calls.parser_version"@,
                        "caller_file.indexed_at"@,
                    ],
                    record,
                ),
            );
            &&& read.call_id == record["calls.id"@]->Text_0
            &&& read.caller_symbol_id == record["caller.id"@]->Text_0
            &&& read.caller_symbol_name == record["caller.name"@]->Text_0
            &&& read.caller_symbol_qualified_name == record["caller.qualified_name"@]->Text_0
            &&& read.caller_symbol_kind == record["caller.kind"@]->Text_0
            &&& read.caller_path == record["caller_file.path"@]->Text_0
            &&& read.caller_start_line == size_in(record["caller.start_line"@])
            &&& read.caller_end_line == size_in(record["caller.end_line"@])
            &&& read.callee_text == record["calls.callee_text"@]->Text_0
            &&& read.callee_symbol_id == optional_text_in(record["callee.id"@])
            &&& read.callee_symbol_name == optional_text_in(record["callee.name"@])
            &&& read.callee_symbol_qualified_name == optional_text_in(record["callee.qualified_name"@])
            &&& read.callee_symbol_kind == optional_text_in(record["callee.kind"@])
            &&& read.callee_path == optional_text_in(record["callee_file.path"@])
            &&& read.callee_start_line == optional_size_in(record["callee.start_line"@])
            &&& read.callee_end_line == optional_size_in(record["callee.end_line"@])
            &&& read.call_line == size_in(record["calls.call_line"@])
            &&& read.confidence == real_in(record["calls.confidence"@])
            &&& read.resolution_status == record["calls.resolution_status"@]->Text_0
            &&& read.provenance.content_hash == optional_text_in(record["caller_file.content_hash"@])
            &&& read.provenance.index_run_id == optional_text_in(record["calls.index_run_id"@])
            &&& read.provenance.parser_version == optional_text_in(record["calls.parser_version"@])
            &&& read.provenance.indexed_at == optional_text_in(record["caller_file.indexed_at"@])
            &&& read.provenance.embedding_model is None
            &&& read.provenance.embedding_dimension is None
            &&& read.provenance.embedded_at is None
        }),
{
    let columns = seq![
        "calls.id"@,
        "calls.callee_text"@,
        "calls.call_line"@,
        "calls.confidence"@,
        "calls.resolution_status"@,
        "caller.id"@,
        "caller.name"@,
        "caller.qualified_name"@,
        "caller.kind"@,
        "caller_file.path"@,
        "caller.start_line"@,
        "caller.end_line"@,
        "callee.id"@,
        "callee.name"@,
        "callee.qualified_name"@,
        "callee.kind"@,
        "callee_file.path"@,
        "callee.start_line"@,
        "callee.end_line"@,
        "caller_file.content_hash"@,
        "calls.index_run_id"@,
        "calls.parser_version"@,
        "caller_file.indexed_at"@,
    ];
    let row = answer(columns, record);
    assert(row[0] == record["calls.id"@]);
    assert(row[1] == record["calls.callee_text"@]);
    assert(row[2] == record["calls.call_line"@]);
    assert(row[3] == record["calls.confidence"@]);
    assert(row[4] == record["calls.resolution_status"@]);
    assert(row[5] == record["caller.id"@]);
    assert(row[6] == record["caller.name"@]);
    assert(row[7] == record["caller.qualified_name"@]);
    assert(row[8] == record["caller.kind"@]);
    assert(row[9] == record["caller_file.path"@]);
    assert(row[10] == record["caller.start_line"@]);
    assert(row[11] == record["caller.end_line"@]);
    assert(row[12] == record["callee.id"@]);
    assert(row[13] == record["callee.name"@]);
    assert(row[14] == record["callee.qualified_name"@]);
    assert(row[15] == record["callee.kind"@]);
    assert(row[16] == record["callee_file.path"@]);
    assert(row[17] == record["callee.start_line"@]);
    assert(row[18] == record["callee.end_line"@]);
    assert(row[19] == record["caller_file.content_hash"@]);
    assert(row[20] == record["calls.index_run_id"@]);
    assert(row[21] == record["calls.parser_version"@]);
    assert(row[22] == record["caller_file.indexed_at"@]);
    reveal_strlit("SELECT calls.id, calls.callee_text, calls.call_line, calls.confidence,
          calls.resolution_status,
          caller.id, caller.name, caller.qualified_name, caller.kind,
          caller_file.path, caller.start_line, caller.end_line,
          callee.id, callee.name, callee.qualified_name, callee.kind,
          callee_file.path, callee.start_line, callee.end_line,
          caller_file.content_hash, calls.index_run_id, calls.parser_version,
          caller_file.indexed_at
     FROM calls
     JOIN symbols caller ON calls.caller_symbol_id = caller.id
     JOIN files caller_file ON caller.file_id = caller_file.id
     JOIN ref_files caller_ref ON caller_ref.file_id = caller_file.id
     LEFT JOIN symbols callee ON calls.callee_symbol_id = callee.id
     LEFT JOIN files callee_file ON callee.file_id = callee_file.id
     LEFT JOIN ref_files callee_ref
       ON callee_ref.file_id = callee_file.id
      AND callee_ref.repository_ref_id = ?2
    WHERE caller_file.repository_id = ?1
      AND caller_ref.repository_ref_id = ?2
      AND (callee.id IS NULL OR callee_ref.repository_ref_id IS NOT NULL)
    ORDER BY caller.qualified_name, caller_file.path, calls.call_line,
             calls.callee_text, calls.id");
    reveal_strlit("calls.id, calls.callee_text, calls.call_line, calls.confidence,
          calls.resolution_status,
          caller.id, caller.name, caller.qualified_name, caller.kind,
          caller_file.path, caller.start_line, caller.end_line,
          callee.id, callee.name, callee.qualified_name, callee.kind,
          callee_file.path, callee.start_line, callee.end_line,
          caller_file.content_hash, calls.index_run_id, calls.parser_version,
          caller_file.indexed_at");
    assert(CALL_PATH_EDGES_FOR_REF@.subrange(7, 484) =~= "calls.id, calls.callee_text, calls.call_line, calls.confidence,
          calls.resolution_status,
          caller.id, caller.name, caller.qualified_name, caller.kind,
          caller_file.path, caller.start_line, caller.end_line,
          callee.id, callee.name, callee.qualified_name, callee.kind,
          callee_file.path, callee.start_line, callee.end_line,
          caller_file.content_hash, calls.index_run_id, calls.parser_version,
          caller_file.indexed_at"@);
    lemma_says(CALL_PATH_EDGES_FOR_REF@, "calls.id, calls.callee_text, calls.call_line, calls.confidence,
          calls.resolution_status,
          caller.id, caller.name, caller.qualified_name, caller.kind,
          caller_file.path, caller.start_line, caller.end_line,
          callee.id, callee.name, callee.qualified_name, callee.kind,
          callee_file.path, callee.start_line, callee.end_line,
          caller_file.content_hash, calls.index_run_id, calls.parser_version,
          caller_file.indexed_at"@, 7);
}

/// The answer to `expected_vector_points_for_generation_layer` is read by its columns.
pub proof fn law_expected_vector_points_for_generation_layer_is_read_by_column(
    record: Map<Seq<char>,
    SqlValue>,
)
    ensures
        says(EXPECTED_VECTOR_POINTS_FOR_GENERATION_LAYER@, "chunk_embeddings.vector_point_id, chunks.id, files.path,
           chunks.start_line, chunks.end_line, chunk_embeddings.text_hash,
           chunk_embeddings.embedding_model, chunk_embeddings.embedding_dimension"@),
        ({
            let read = ExpectedVectorPoint::of(
                answer(
                    seq![
                        "chunk_embeddings.vector_point_id"@,
                        "chunks.id"@,
                        "files.path"@,
                        "chunks.start_line"@,
                        "chunks.end_line"@,
                        "chunk_embeddings.text_hash"@,
                        "chunk_embeddings.embedding_model"@,
                        "chunk_embeddings.embedding_dimension"@,
                    ],
                    record,
                ),
            );
            &&& read.vector_point_id == record["chunk_embeddings.vector_point_id"@]->Text_0
            &&& read.chunk_id == record["chunks.id"@]->Text_0
            &&& read.path == record["files.path"@]->Text_0
            &&& read.start_line == size_in(record["chunks.start_line"@])
            &&& read.end_line == size_in(record["chunks.end_line"@])
            &&& read.text_hash == record["chunk_embeddings.text_hash"@]->Text_0
            &&& read.embedding_model == Some(record["chunk_embeddings.embedding_model"@]->Text_0)
            &&& read.embedding_dimension == Some(size_in(record["chunk_embeddings.embedding_dimension"@]))
        }),
{
    let columns = seq![
        "chunk_embeddings.vector_point_id"@,
        "chunks.id"@,
        "files.path"@,
        "chunks.start_line"@,
        "chunks.end_line"@,
        "chunk_embeddings.text_hash"@,
        "chunk_embeddings.embedding_model"@,
        "chunk_embeddings.embedding_dimension"@,
    ];
    let row = answer(columns, record);
    assert(row[0] == record["chunk_embeddings.vector_point_id"@]);
    assert(row[1] == record["chunks.id"@]);
    assert(row[2] == record["files.path"@]);
    assert(row[3] == record["chunks.start_line"@]);
    assert(row[4] == record["chunks.end_line"@]);
    assert(row[5] == record["chunk_embeddings.text_hash"@]);
    assert(row[6] == record["chunk_embeddings.embedding_model"@]);
    assert(row[7] == record["chunk_embeddings.embedding_dimension"@]);
    reveal_strlit("SELECT chunk_embeddings.vector_point_id, chunks.id, files.path,
           chunks.start_line, chunks.end_line, chunk_embeddings.text_hash,
           chunk_embeddings.embedding_model, chunk_embeddings.embedding_dimension
    FROM chunk_embeddings
    JOIN chunks ON chunk_embeddings.chunk_id = chunks.id
    JOIN files ON chunk_embeddings.file_id = files.id
              AND chunks.file_id = files.id
    WHERE chunk_embeddings.repository_id = ?1
      AND files.repository_id = ?1
      AND chunk_embeddings.generation_id = ?2
      AND chunk_embeddings.semantic_layer = ?3
      AND chunk_embeddings.vector_store = 'sqlite_vec'
      AND chunk_embeddings.status = 'current'
    ORDER BY files.path, chunks.start_line, chunks.id");
    reveal_strlit("chunk_embeddings.vector_point_id, chunks.id, files.path,
           chunks.start_line, chunks.end_line, chunk_embeddings.text_hash,
           chunk_embeddings.embedding_model, chunk_embeddings.embedding_dimension");
    assert(EXPECTED_VECTOR_POINTS_FOR_GENERATION_LAYER@.subrange(7, 220) =~= "chunk_embeddings.vector_point_id, chunks.id, files.path,
           chunks.start_line, chunks.end_line, chunk_embeddings.text_hash,
           chunk_embeddings.embedding_model, chunk_embeddings.embedding_dimension"@);
    lemma_says(EXPECTED_VECTOR_POINTS_FOR_GENERATION_LAYER@, "chunk_embeddings.vector_point_id, chunks.id, files.path,
           chunks.start_line, chunks.end_line, chunk_embeddings.text_hash,
           chunk_embeddings.embedding_model, chunk_embeddings.embedding_dimension"@, 7);
}

/// The answer to `semantic_neighborhood` is read by its columns.
pub proof fn law_semantic_neighborhood_is_read_by_column(record: Map<Seq<char>, SqlValue>)
    ensures
        says(SEMANTIC_NEIGHBORHOOD@, "chunk_embeddings.vector_point_id, files.path, chunks.start_line,
           chunks.end_line, symbols.qualified_name, chunks.kind,
           files.language, chunk_embeddings.text_hash"@),
        ({
            let read = SemanticNeighborhoodRow::of(
                answer(
                    seq![
                        "chunk_embeddings.vector_point_id"@,
                        "files.path"@,
                        "chunks.start_line"@,
                        "chunks.end_line"@,
                        "symbols.qualified_name"@,
                        "chunks.kind"@,
                        "files.language"@,
                        "chunk_embeddings.text_hash"@,
                    ],
                    record,
                ),
            );
            &&& read.vector_point_id == record["chunk_embeddings.vector_point_id"@]->Text_0
            &&& read.path == record["files.path"@]->Text_0
            &&& read.start_line == size_in(record["chunks.start_line"@])
            &&& read.end_line == size_in(record["chunks.end_line"@])
            &&& read.symbol_name == optional_text_in(record["symbols.qualified_name"@])
            &&& read.chunk_kind == record["chunks.kind"@]->Text_0
            &&& read.language == record["files.language"@]->Text_0
            &&& read.score is None
            &&& read.text_hash == record["chunk_embeddings.text_hash"@]->Text_0
        }),
{
    let columns = seq![
        "chunk_embeddings.vector_point_id"@,
        "files.path"@,
        "chunks.start_line"@,
        "chunks.end_line"@,
        "symbols.qualified_name"@,
        "chunks.kind"@,
        "files.language"@,
        "chunk_embeddings.text_hash"@,
    ];
    let row = answer(columns, record);
    assert(row[0] == record["chunk_embeddings.vector_point_id"@]);
    assert(row[1] == record["files.path"@]);
    assert(row[2] == record["chunks.start_line"@]);
    assert(row[3] == record["chunks.end_line"@]);
    assert(row[4] == record["symbols.qualified_name"@]);
    assert(row[5] == record["chunks.kind"@]);
    assert(row[6] == record["files.language"@]);
    assert(row[7] == record["chunk_embeddings.text_hash"@]);
    reveal_strlit("SELECT chunk_embeddings.vector_point_id, files.path, chunks.start_line,
           chunks.end_line, symbols.qualified_name, chunks.kind,
           files.language, chunk_embeddings.text_hash
    FROM chunk_embeddings
    JOIN chunks ON chunk_embeddings.chunk_id = chunks.id
    JOIN files ON chunk_embeddings.file_id = files.id
              AND chunks.file_id = files.id
    LEFT JOIN symbols ON chunks.symbol_id = symbols.id
    WHERE chunk_embeddings.repository_id = ?1
      AND files.repository_id = ?1
      AND chunk_embeddings.generation_id = ?2
      AND chunk_embeddings.semantic_layer = 'fast'
      AND chunk_embeddings.status = 'current'
    ORDER BY files.path, chunks.start_line, chunks.end_line, chunks.id
    LIMIT 100");
    reveal_strlit("chunk_embeddings.vector_point_id, files.path, chunks.start_line,
           chunks.end_line, symbols.qualified_name, chunks.kind,
           files.language, chunk_embeddings.text_hash");
    assert(SEMANTIC_NEIGHBORHOOD@.subrange(7, 190) =~= "chunk_embeddings.vector_point_id, files.path, chunks.start_line,
           chunks.end_line, symbols.qualified_name, chunks.kind,
           files.language, chunk_embeddings.text_hash"@);
    lemma_says(SEMANTIC_NEIGHBORHOOD@, "chunk_embeddings.vector_point_id, files.path, chunks.start_line,
           chunks.end_line, symbols.qualified_name, chunks.kind,
           files.language, chunk_embeddings.text_hash"@, 7);
}

/// The answer to `carried_embeddings` is read by its columns.
pub proof fn law_carried_embeddings_is_read_by_column(record: Map<Seq<char>, SqlValue>)
    ensures
        says(CARRIED_EMBEDDINGS@, "fast.file_id, fast.chunk_id, fast.content_hash, fast.text_hash,
           quality.embedding_dimension, quality.vector_table,
           quality.vector_point_id, quality.embedded_at"@),
        ({
            let read = CarriedRow::of(
                answer(
                    seq![
                        "fast.file_id"@,
                        "fast.chunk_id"@,
                        "fast.content_hash"@,
                        "fast.text_hash"@,
                        "quality.embedding_dimension"@,
                        "quality.vector_table"@,
                        "quality.vector_point_id"@,
                        "quality.embedded_at"@,
                    ],
                    record,
                ),
            );
            &&& read.file_id == record["fast.file_id"@]->Text_0
            &&& read.chunk_id == record["fast.chunk_id"@]->Text_0
            &&& read.content_hash == record["fast.content_hash"@]->Text_0
            &&& read.text_hash == record["fast.text_hash"@]->Text_0
            &&& read.embedding_dimension == size_in(record["quality.embedding_dimension"@])
            &&& read.vector_table == record["quality.vector_table"@]->Text_0
            &&& read.vector_point_id == record["quality.vector_point_id"@]->Text_0
            &&& read.embedded_at == record["quality.embedded_at"@]->Text_0
        }),
{
    let columns = seq![
        "fast.file_id"@,
        "fast.chunk_id"@,
        "fast.content_hash"@,
        "fast.text_hash"@,
        "quality.embedding_dimension"@,
        "quality.vector_table"@,
        "quality.vector_point_id"@,
        "quality.embedded_at"@,
    ];
    let row = answer(columns, record);
    assert(row[0] == record["fast.file_id"@]);
    assert(row[1] == record["fast.chunk_id"@]);
    assert(row[2] == record["fast.content_hash"@]);
    assert(row[3] == record["fast.text_hash"@]);
    assert(row[4] == record["quality.embedding_dimension"@]);
    assert(row[5] == record["quality.vector_table"@]);
    assert(row[6] == record["quality.vector_point_id"@]);
    assert(row[7] == record["quality.embedded_at"@]);
    reveal_strlit("SELECT fast.file_id, fast.chunk_id, fast.content_hash, fast.text_hash,
           quality.embedding_dimension, quality.vector_table,
           quality.vector_point_id, quality.embedded_at
    FROM chunk_embeddings AS fast
    JOIN chunk_embeddings AS quality
      ON quality.repository_id = fast.repository_id
     AND quality.chunk_id = fast.chunk_id
     AND quality.semantic_layer = 'quality'
     AND quality.embedding_model = ?3
     AND quality.content_hash = fast.content_hash
     AND quality.text_hash = fast.text_hash
     AND quality.status = 'current'
    WHERE fast.repository_id = ?1
      AND fast.generation_id = ?2
      AND fast.semantic_layer = 'fast'
      AND fast.status = 'current'
    ORDER BY fast.chunk_id");
    reveal_strlit("fast.file_id, fast.chunk_id, fast.content_hash, fast.text_hash,
           quality.embedding_dimension, quality.vector_table,
           quality.vector_point_id, quality.embedded_at");
    assert(CARRIED_EMBEDDINGS@.subrange(7, 188) =~= "fast.file_id, fast.chunk_id, fast.content_hash, fast.text_hash,
           quality.embedding_dimension, quality.vector_table,
           quality.vector_point_id, quality.embedded_at"@);
    lemma_says(CARRIED_EMBEDDINGS@, "fast.file_id, fast.chunk_id, fast.content_hash, fast.text_hash,
           quality.embedding_dimension, quality.vector_table,
           quality.vector_point_id, quality.embedded_at"@, 7);
}

/// The answer to `quality_embedding_jobs_for_fast_generation` is read by its columns.
pub proof fn law_quality_embedding_jobs_for_fast_generation_is_read_by_column(
    record: Map<Seq<char>,
    SqlValue>,
)
    ensures
        says(QUALITY_EMBEDDING_JOBS_FOR_FAST_GENERATION@, "embeddings.file_id, embeddings.chunk_id, files.path,
           embeddings.content_hash, embeddings.text_hash"@),
        ({
            let read = UnembeddedRow::of(
                answer(
                    seq![
                        "embeddings.file_id"@,
                        "embeddings.chunk_id"@,
                        "files.path"@,
                        "embeddings.content_hash"@,
                        "embeddings.text_hash"@,
                    ],
                    record,
                ),
            );
            &&& read.file_id == record["embeddings.file_id"@]->Text_0
            &&& read.chunk_id == record["embeddings.chunk_id"@]->Text_0
            &&& read.path == record["files.path"@]->Text_0
            &&& read.content_hash == record["embeddings.content_hash"@]->Text_0
            &&& read.text_hash == record["embeddings.text_hash"@]->Text_0
        }),
{
    let columns = seq![
        "embeddings.file_id"@,
        "embeddings.chunk_id"@,
        "files.path"@,
        "embeddings.content_hash"@,
        "embeddings.text_hash"@,
    ];
    let row = answer(columns, record);
    assert(row[0] == record["embeddings.file_id"@]);
    assert(row[1] == record["embeddings.chunk_id"@]);
    assert(row[2] == record["files.path"@]);
    assert(row[3] == record["embeddings.content_hash"@]);
    assert(row[4] == record["embeddings.text_hash"@]);
    reveal_strlit("SELECT embeddings.file_id, embeddings.chunk_id, files.path,
           embeddings.content_hash, embeddings.text_hash
    FROM chunk_embeddings AS embeddings
    JOIN files
      ON files.id = embeddings.file_id
     AND files.repository_id = embeddings.repository_id
    LEFT JOIN chunk_embeddings AS quality
      ON quality.repository_id = embeddings.repository_id
     AND quality.generation_id = embeddings.generation_id
     AND quality.chunk_id = embeddings.chunk_id
     AND quality.semantic_layer = 'quality'
     AND quality.embedding_model = ?3
     AND quality.content_hash = embeddings.content_hash
     AND quality.text_hash = embeddings.text_hash
     AND quality.status = 'current'
    WHERE embeddings.repository_id = ?1
      AND embeddings.generation_id = ?2
      AND embeddings.semantic_layer = 'fast'
      AND embeddings.status = 'current'
      AND quality.chunk_id IS NULL
    ORDER BY files.path, embeddings.chunk_id");
    reveal_strlit("embeddings.file_id, embeddings.chunk_id, files.path,
           embeddings.content_hash, embeddings.text_hash");
    assert(QUALITY_EMBEDDING_JOBS_FOR_FAST_GENERATION@.subrange(7, 116) =~= "embeddings.file_id, embeddings.chunk_id, files.path,
           embeddings.content_hash, embeddings.text_hash"@);
    lemma_says(QUALITY_EMBEDDING_JOBS_FOR_FAST_GENERATION@, "embeddings.file_id, embeddings.chunk_id, files.path,
           embeddings.content_hash, embeddings.text_hash"@, 7);
}

/// The answer to `call_resolution` is read by its columns.
pub proof fn law_call_resolution_is_read_by_column(record: Map<Seq<char>, SqlValue>)
    ensures
        says(CALL_RESOLUTION@, "files.path, caller.qualified_name, calls.callee_text, calls.call_line,
           calls.confidence, calls.resolution_status"@),
        ({
            let read = CallResolutionEdgeRow::of(
                answer(
                    seq![
                        "files.path"@,
                        "caller.qualified_name"@,
                        "calls.callee_text"@,
                        "calls.call_line"@,
                        "calls.confidence"@,
                        "calls.resolution_status"@,
                    ],
                    record,
                ),
            );
            &&& read.path == record["files.path"@]->Text_0
            &&& read.caller_symbol == record["caller.qualified_name"@]->Text_0
            &&& read.callee_text == record["calls.callee_text"@]->Text_0
            &&& read.call_line == size_in(record["calls.call_line"@])
            &&& read.confidence == real_in(record["calls.confidence"@])
            &&& read.resolution_status == record["calls.resolution_status"@]->Text_0
            &&& read.confidence_bucket == bucket_of(real_in(record["calls.confidence"@]))
        }),
{
    let columns = seq![
        "files.path"@,
        "caller.qualified_name"@,
        "calls.callee_text"@,
        "calls.call_line"@,
        "calls.confidence"@,
        "calls.resolution_status"@,
    ];
    let row = answer(columns, record);
    assert(row[0] == record["files.path"@]);
    assert(row[1] == record["caller.qualified_name"@]);
    assert(row[2] == record["calls.callee_text"@]);
    assert(row[3] == record["calls.call_line"@]);
    assert(row[4] == record["calls.confidence"@]);
    assert(row[5] == record["calls.resolution_status"@]);
    reveal_strlit("SELECT files.path, caller.qualified_name, calls.callee_text, calls.call_line,
           calls.confidence, calls.resolution_status
    FROM calls
    JOIN symbols caller ON calls.caller_symbol_id = caller.id
    JOIN files ON caller.file_id = files.id
    WHERE files.repository_id = ?1
    ORDER BY calls.resolution_status, calls.confidence ASC, files.path,
             calls.call_line, calls.callee_text
    LIMIT 500");
    reveal_strlit("files.path, caller.qualified_name, calls.callee_text, calls.call_line,
           calls.confidence, calls.resolution_status");
    assert(CALL_RESOLUTION@.subrange(7, 130) =~= "files.path, caller.qualified_name, calls.callee_text, calls.call_line,
           calls.confidence, calls.resolution_status"@);
    lemma_says(CALL_RESOLUTION@, "files.path, caller.qualified_name, calls.callee_text, calls.call_line,
           calls.confidence, calls.resolution_status"@, 7);
}

/// The answer to `file_chunk_details` is read by its columns.
pub proof fn law_file_chunk_details_is_read_by_column(record: Map<Seq<char>, SqlValue>)
    ensures
        says(FILE_CHUNK_DETAILS@, "chunks.kind, symbols.qualified_name, chunks.start_line,
           chunks.end_line,
           EXISTS(
             SELECT 1
             FROM chunk_embeddings
             WHERE chunk_embeddings.chunk_id = chunks.id
               AND chunk_embeddings.file_id = chunks.file_id
               AND chunk_embeddings.generation_id = ?2
               AND chunk_embeddings.semantic_layer = 'fast'
               AND chunk_embeddings.status = 'current'
           ),
           chunks.excluded_reason"@),
        ({
            let read = FileChunkDetailRow::of(
                answer(
                    seq![
                        "chunks.kind"@,
                        "symbols.qualified_name"@,
                        "chunks.start_line"@,
                        "chunks.end_line"@,
                        "EXISTS( SELECT 1 FROM chunk_embeddings WHERE chunk_embeddings.chunk_id = chunks.id AND chunk_embeddings.file_id = chunks.file_id AND chunk_embeddings.generation_id = ?2 AND chunk_embeddings.semantic_layer = 'fast' AND chunk_embeddings.status = 'current' )"@,
                        "chunks.excluded_reason"@,
                    ],
                    record,
                ),
            );
            &&& read.kind == record["chunks.kind"@]->Text_0
            &&& read.symbol == optional_text_in(record["symbols.qualified_name"@])
            &&& read.start_line == size_in(record["chunks.start_line"@])
            &&& read.end_line == size_in(record["chunks.end_line"@])
            &&& read.excluded_reason == optional_text_in(record["chunks.excluded_reason"@])
        }),
{
    let columns = seq![
        "chunks.kind"@,
        "symbols.qualified_name"@,
        "chunks.start_line"@,
        "chunks.end_line"@,
        "EXISTS( SELECT 1 FROM chunk_embeddings WHERE chunk_embeddings.chunk_id = chunks.id AND chunk_embeddings.file_id = chunks.file_id AND chunk_embeddings.generation_id = ?2 AND chunk_embeddings.semantic_layer = 'fast' AND chunk_embeddings.status = 'current' )"@,
        "chunks.excluded_reason"@,
    ];
    let row = answer(columns, record);
    assert(row[0] == record["chunks.kind"@]);
    assert(row[1] == record["symbols.qualified_name"@]);
    assert(row[2] == record["chunks.start_line"@]);
    assert(row[3] == record["chunks.end_line"@]);
    assert(row[4] == record["EXISTS( SELECT 1 FROM chunk_embeddings WHERE chunk_embeddings.chunk_id = chunks.id AND chunk_embeddings.file_id = chunks.file_id AND chunk_embeddings.generation_id = ?2 AND chunk_embeddings.semantic_layer = 'fast' AND chunk_embeddings.status = 'current' )"@]);
    assert(row[5] == record["chunks.excluded_reason"@]);
    reveal_strlit("SELECT chunks.kind, symbols.qualified_name, chunks.start_line,
           chunks.end_line,
           EXISTS(
             SELECT 1
             FROM chunk_embeddings
             WHERE chunk_embeddings.chunk_id = chunks.id
               AND chunk_embeddings.file_id = chunks.file_id
               AND chunk_embeddings.generation_id = ?2
               AND chunk_embeddings.semantic_layer = 'fast'
               AND chunk_embeddings.status = 'current'
           ),
           chunks.excluded_reason
    FROM chunks
    LEFT JOIN symbols ON chunks.symbol_id = symbols.id
    WHERE chunks.file_id = ?1
    ORDER BY chunks.start_line, chunks.kind
    LIMIT 6");
    reveal_strlit("chunks.kind, symbols.qualified_name, chunks.start_line,
           chunks.end_line,
           EXISTS(
             SELECT 1
             FROM chunk_embeddings
             WHERE chunk_embeddings.chunk_id = chunks.id
               AND chunk_embeddings.file_id = chunks.file_id
               AND chunk_embeddings.generation_id = ?2
               AND chunk_embeddings.semantic_layer = 'fast'
               AND chunk_embeddings.status = 'current'
           ),
           chunks.excluded_reason");
    assert(FILE_CHUNK_DETAILS@.subrange(7, 502) =~= "chunks.kind, symbols.qualified_name, chunks.start_line,
           chunks.end_line,
           EXISTS(
             SELECT 1
             FROM chunk_embeddings
             WHERE chunk_embeddings.chunk_id = chunks.id
               AND chunk_embeddings.file_id = chunks.file_id
               AND chunk_embeddings.generation_id = ?2
               AND chunk_embeddings.semantic_layer = 'fast'
               AND chunk_embeddings.status = 'current'
           ),
           chunks.excluded_reason"@);
    lemma_says(FILE_CHUNK_DETAILS@, "chunks.kind, symbols.qualified_name, chunks.start_line,
           chunks.end_line,
           EXISTS(
             SELECT 1
             FROM chunk_embeddings
             WHERE chunk_embeddings.chunk_id = chunks.id
               AND chunk_embeddings.file_id = chunks.file_id
               AND chunk_embeddings.generation_id = ?2
               AND chunk_embeddings.semantic_layer = 'fast'
               AND chunk_embeddings.status = 'current'
           ),
           chunks.excluded_reason"@, 7);
}

/// The answer to `index_coverage` is read by its columns.
pub proof fn law_index_coverage_is_read_by_column(record: Map<Seq<char>, SqlValue>)
    ensures
        says(INDEX_COVERAGE@, "files.id,
      files.path,
      files.language,
      (SELECT COUNT(*) FROM chunks WHERE chunks.file_id = files.id),
      (SELECT COUNT(*) FROM symbols WHERE symbols.file_id = files.id),
      (SELECT COUNT(*)
       FROM calls
       JOIN symbols caller ON calls.caller_symbol_id = caller.id
       WHERE caller.file_id = files.id),
      (SELECT COUNT(*)
       FROM chunks
       WHERE chunks.file_id = files.id
         AND chunks.excluded_reason IS NULL),
      (SELECT COUNT(*)
                   FROM chunks
                   JOIN chunk_embeddings
               ON chunk_embeddings.chunk_id = chunks.id
            AND chunk_embeddings.file_id = files.id
                   WHERE chunks.file_id = files.id
               AND chunk_embeddings.repository_id = files.repository_id
               AND chunk_embeddings.generation_id = ?2
               AND chunk_embeddings.semantic_layer = 'fast'
               AND chunk_embeddings.status = 'current'),
      (SELECT COUNT(*)
       FROM chunks
       WHERE chunks.file_id = files.id
         AND chunks.excluded_reason IS NOT NULL)"@),
        ({
            let read = FileCoverageBaseRow::of(
                answer(
                    seq![
                        "files.id"@,
                        "files.path"@,
                        "files.language"@,
                        "(SELECT COUNT(*) FROM chunks WHERE chunks.file_id = files.id)"@,
                        "(SELECT COUNT(*) FROM symbols WHERE symbols.file_id = files.id)"@,
                        "(SELECT COUNT(*) FROM calls JOIN symbols caller ON calls.caller_symbol_id = caller.id WHERE caller.file_id = files.id)"@,
                        "(SELECT COUNT(*) FROM chunks WHERE chunks.file_id = files.id AND chunks.excluded_reason IS NULL)"@,
                        "(SELECT COUNT(*) FROM chunks JOIN chunk_embeddings ON chunk_embeddings.chunk_id = chunks.id AND chunk_embeddings.file_id = files.id WHERE chunks.file_id = files.id AND chunk_embeddings.repository_id = files.repository_id AND chunk_embeddings.generation_id = ?2 AND chunk_embeddings.semantic_layer = 'fast' AND chunk_embeddings.status = 'current')"@,
                        "(SELECT COUNT(*) FROM chunks WHERE chunks.file_id = files.id AND chunks.excluded_reason IS NOT NULL)"@,
                    ],
                    record,
                ),
            );
            &&& read.file_id == record["files.id"@]->Text_0
            &&& read.path == record["files.path"@]->Text_0
            &&& read.language == record["files.language"@]->Text_0
            &&& read.chunks == size_in(record["(SELECT COUNT(*) FROM chunks WHERE chunks.file_id = files.id)"@])
            &&& read.symbols == size_in(record["(SELECT COUNT(*) FROM symbols WHERE symbols.file_id = files.id)"@])
            &&& read.calls == size_in(record["(SELECT COUNT(*) FROM calls JOIN symbols caller ON calls.caller_symbol_id = caller.id WHERE caller.file_id = files.id)"@])
            &&& read.embeddable_chunks == size_in(record["(SELECT COUNT(*) FROM chunks WHERE chunks.file_id = files.id AND chunks.excluded_reason IS NULL)"@])
            &&& read.vector_backed_chunks == size_in(record["(SELECT COUNT(*) FROM chunks JOIN chunk_embeddings ON chunk_embeddings.chunk_id = chunks.id AND chunk_embeddings.file_id = files.id WHERE chunks.file_id = files.id AND chunk_embeddings.repository_id = files.repository_id AND chunk_embeddings.generation_id = ?2 AND chunk_embeddings.semantic_layer = 'fast' AND chunk_embeddings.status = 'current')"@])
            &&& read.excluded_chunks == size_in(record["(SELECT COUNT(*) FROM chunks WHERE chunks.file_id = files.id AND chunks.excluded_reason IS NOT NULL)"@])
        }),
{
    let columns = seq![
        "files.id"@,
        "files.path"@,
        "files.language"@,
        "(SELECT COUNT(*) FROM chunks WHERE chunks.file_id = files.id)"@,
        "(SELECT COUNT(*) FROM symbols WHERE symbols.file_id = files.id)"@,
        "(SELECT COUNT(*) FROM calls JOIN symbols caller ON calls.caller_symbol_id = caller.id WHERE caller.file_id = files.id)"@,
        "(SELECT COUNT(*) FROM chunks WHERE chunks.file_id = files.id AND chunks.excluded_reason IS NULL)"@,
        "(SELECT COUNT(*) FROM chunks JOIN chunk_embeddings ON chunk_embeddings.chunk_id = chunks.id AND chunk_embeddings.file_id = files.id WHERE chunks.file_id = files.id AND chunk_embeddings.repository_id = files.repository_id AND chunk_embeddings.generation_id = ?2 AND chunk_embeddings.semantic_layer = 'fast' AND chunk_embeddings.status = 'current')"@,
        "(SELECT COUNT(*) FROM chunks WHERE chunks.file_id = files.id AND chunks.excluded_reason IS NOT NULL)"@,
    ];
    let row = answer(columns, record);
    assert(row[0] == record["files.id"@]);
    assert(row[1] == record["files.path"@]);
    assert(row[2] == record["files.language"@]);
    assert(row[3] == record["(SELECT COUNT(*) FROM chunks WHERE chunks.file_id = files.id)"@]);
    assert(row[4] == record["(SELECT COUNT(*) FROM symbols WHERE symbols.file_id = files.id)"@]);
    assert(row[5] == record["(SELECT COUNT(*) FROM calls JOIN symbols caller ON calls.caller_symbol_id = caller.id WHERE caller.file_id = files.id)"@]);
    assert(row[6] == record["(SELECT COUNT(*) FROM chunks WHERE chunks.file_id = files.id AND chunks.excluded_reason IS NULL)"@]);
    assert(row[7] == record["(SELECT COUNT(*) FROM chunks JOIN chunk_embeddings ON chunk_embeddings.chunk_id = chunks.id AND chunk_embeddings.file_id = files.id WHERE chunks.file_id = files.id AND chunk_embeddings.repository_id = files.repository_id AND chunk_embeddings.generation_id = ?2 AND chunk_embeddings.semantic_layer = 'fast' AND chunk_embeddings.status = 'current')"@]);
    assert(row[8] == record["(SELECT COUNT(*) FROM chunks WHERE chunks.file_id = files.id AND chunks.excluded_reason IS NOT NULL)"@]);
    reveal_strlit("SELECT
      files.id,
      files.path,
      files.language,
      (SELECT COUNT(*) FROM chunks WHERE chunks.file_id = files.id),
      (SELECT COUNT(*) FROM symbols WHERE symbols.file_id = files.id),
      (SELECT COUNT(*)
       FROM calls
       JOIN symbols caller ON calls.caller_symbol_id = caller.id
       WHERE caller.file_id = files.id),
      (SELECT COUNT(*)
       FROM chunks
       WHERE chunks.file_id = files.id
         AND chunks.excluded_reason IS NULL),
      (SELECT COUNT(*)
                   FROM chunks
                   JOIN chunk_embeddings
               ON chunk_embeddings.chunk_id = chunks.id
            AND chunk_embeddings.file_id = files.id
                   WHERE chunks.file_id = files.id
               AND chunk_embeddings.repository_id = files.repository_id
               AND chunk_embeddings.generation_id = ?2
               AND chunk_embeddings.semantic_layer = 'fast'
               AND chunk_embeddings.status = 'current'),
      (SELECT COUNT(*)
       FROM chunks
       WHERE chunks.file_id = files.id
         AND chunks.excluded_reason IS NOT NULL)
    FROM files
    WHERE files.repository_id = ?1
    ORDER BY files.path
    LIMIT 200");
    reveal_strlit("files.id,
      files.path,
      files.language,
      (SELECT COUNT(*) FROM chunks WHERE chunks.file_id = files.id),
      (SELECT COUNT(*) FROM symbols WHERE symbols.file_id = files.id),
      (SELECT COUNT(*)
       FROM calls
       JOIN symbols caller ON calls.caller_symbol_id = caller.id
       WHERE caller.file_id = files.id),
      (SELECT COUNT(*)
       FROM chunks
       WHERE chunks.file_id = files.id
         AND chunks.excluded_reason IS NULL),
      (SELECT COUNT(*)
                   FROM chunks
                   JOIN chunk_embeddings
               ON chunk_embeddings.chunk_id = chunks.id
            AND chunk_embeddings.file_id = files.id
                   WHERE chunks.file_id = files.id
               AND chunk_embeddings.repository_id = files.repository_id
               AND chunk_embeddings.generation_id = ?2
               AND chunk_embeddings.semantic_layer = 'fast'
               AND chunk_embeddings.status = 'current'),
      (SELECT COUNT(*)
       FROM chunks
       WHERE chunks.file_id = files.id
         AND chunks.excluded_reason IS NOT NULL)");
    assert(INDEX_COVERAGE@.subrange(13, 1104) =~= "files.id,
      files.path,
      files.language,
      (SELECT COUNT(*) FROM chunks WHERE chunks.file_id = files.id),
      (SELECT COUNT(*) FROM symbols WHERE symbols.file_id = files.id),
      (SELECT COUNT(*)
       FROM calls
       JOIN symbols caller ON calls.caller_symbol_id = caller.id
       WHERE caller.file_id = files.id),
      (SELECT COUNT(*)
       FROM chunks
       WHERE chunks.file_id = files.id
         AND chunks.excluded_reason IS NULL),
      (SELECT COUNT(*)
                   FROM chunks
                   JOIN chunk_embeddings
               ON chunk_embeddings.chunk_id = chunks.id
            AND chunk_embeddings.file_id = files.id
                   WHERE chunks.file_id = files.id
               AND chunk_embeddings.repository_id = files.repository_id
               AND chunk_embeddings.generation_id = ?2
               AND chunk_embeddings.semantic_layer = 'fast'
               AND chunk_embeddings.status = 'current'),
      (SELECT COUNT(*)
       FROM chunks
       WHERE chunks.file_id = files.id
         AND chunks.excluded_reason IS NOT NULL)"@);
    lemma_says(INDEX_COVERAGE@, "files.id,
      files.path,
      files.language,
      (SELECT COUNT(*) FROM chunks WHERE chunks.file_id = files.id),
      (SELECT COUNT(*) FROM symbols WHERE symbols.file_id = files.id),
      (SELECT COUNT(*)
       FROM calls
       JOIN symbols caller ON calls.caller_symbol_id = caller.id
       WHERE caller.file_id = files.id),
      (SELECT COUNT(*)
       FROM chunks
       WHERE chunks.file_id = files.id
         AND chunks.excluded_reason IS NULL),
      (SELECT COUNT(*)
                   FROM chunks
                   JOIN chunk_embeddings
               ON chunk_embeddings.chunk_id = chunks.id
            AND chunk_embeddings.file_id = files.id
                   WHERE chunks.file_id = files.id
               AND chunk_embeddings.repository_id = files.repository_id
               AND chunk_embeddings.generation_id = ?2
               AND chunk_embeddings.semantic_layer = 'fast'
               AND chunk_embeddings.status = 'current'),
      (SELECT COUNT(*)
       FROM chunks
       WHERE chunks.file_id = files.id
         AND chunks.excluded_reason IS NOT NULL)"@, 13);
}

/// The answer to `scroll_points` is read by its columns.
pub proof fn law_scroll_points_is_read_by_column(record: Map<Seq<char>, SqlValue>)
    ensures
        says(SCROLL_POINTS@, "vector_point_id, repository_id, file_id, chunk_id, symbol_id,
           symbol_name, path, language, chunk_kind, start_line, end_line,
           text_hash, parser_version, content_hash, index_run_id,
           embedding_model, embedding_dimension, indexed_at"@),
        ({
            let read = RetrievedPoint::of(
                answer(
                    seq![
                        "vector_point_id"@,
                        "repository_id"@,
                        "file_id"@,
                        "chunk_id"@,
                        "symbol_id"@,
                        "symbol_name"@,
                        "path"@,
                        "language"@,
                        "chunk_kind"@,
                        "start_line"@,
                        "end_line"@,
                        "text_hash"@,
                        "parser_version"@,
                        "content_hash"@,
                        "index_run_id"@,
                        "embedding_model"@,
                        "embedding_dimension"@,
                        "indexed_at"@,
                    ],
                    record,
                ),
            );
            &&& read.id == record["vector_point_id"@]->Text_0
            &&& read.payload.repository_id == record["repository_id"@]->Text_0
            &&& read.payload.file_id == record["file_id"@]->Text_0
            &&& read.payload.chunk_id == record["chunk_id"@]->Text_0
            &&& read.payload.symbol_id == optional_text_in(record["symbol_id"@])
            &&& read.payload.symbol_name == optional_text_in(record["symbol_name"@])
            &&& read.payload.path == record["path"@]->Text_0
            &&& read.payload.language == record["language"@]->Text_0
            &&& read.payload.chunk_kind == record["chunk_kind"@]->Text_0
            &&& read.payload.start_line == size_in(record["start_line"@])
            &&& read.payload.end_line == size_in(record["end_line"@])
            &&& read.payload.text_hash == record["text_hash"@]->Text_0
            &&& read.payload.parser_version == optional_text_in(record["parser_version"@])
            &&& read.payload.content_hash == optional_text_in(record["content_hash"@])
            &&& read.payload.index_run_id == optional_text_in(record["index_run_id"@])
            &&& read.payload.embedding_model == optional_text_in(record["embedding_model"@])
            &&& read.payload.embedding_dimension == optional_size_in(record["embedding_dimension"@])
            &&& read.payload.indexed_at == optional_text_in(record["indexed_at"@])
        }),
{
    let columns = seq![
        "vector_point_id"@,
        "repository_id"@,
        "file_id"@,
        "chunk_id"@,
        "symbol_id"@,
        "symbol_name"@,
        "path"@,
        "language"@,
        "chunk_kind"@,
        "start_line"@,
        "end_line"@,
        "text_hash"@,
        "parser_version"@,
        "content_hash"@,
        "index_run_id"@,
        "embedding_model"@,
        "embedding_dimension"@,
        "indexed_at"@,
    ];
    let row = answer(columns, record);
    assert(row[0] == record["vector_point_id"@]);
    assert(row[1] == record["repository_id"@]);
    assert(row[2] == record["file_id"@]);
    assert(row[3] == record["chunk_id"@]);
    assert(row[4] == record["symbol_id"@]);
    assert(row[5] == record["symbol_name"@]);
    assert(row[6] == record["path"@]);
    assert(row[7] == record["language"@]);
    assert(row[8] == record["chunk_kind"@]);
    assert(row[9] == record["start_line"@]);
    assert(row[10] == record["end_line"@]);
    assert(row[11] == record["text_hash"@]);
    assert(row[12] == record["parser_version"@]);
    assert(row[13] == record["content_hash"@]);
    assert(row[14] == record["index_run_id"@]);
    assert(row[15] == record["embedding_model"@]);
    assert(row[16] == record["embedding_dimension"@]);
    assert(row[17] == record["indexed_at"@]);
    reveal_strlit("SELECT vector_point_id, repository_id, file_id, chunk_id, symbol_id,
           symbol_name, path, language, chunk_kind, start_line, end_line,
           text_hash, parser_version, content_hash, index_run_id,
           embedding_model, embedding_dimension, indexed_at
    FROM vector_points
    WHERE vector_store = 'sqlite_vec'
      AND vector_table = ?1
      AND repository_id = ?2
    ORDER BY vector_point_id");
    reveal_strlit("vector_point_id, repository_id, file_id, chunk_id, symbol_id,
           symbol_name, path, language, chunk_kind, start_line, end_line,
           text_hash, parser_version, content_hash, index_run_id,
           embedding_model, embedding_dimension, indexed_at");
    assert(SCROLL_POINTS@.subrange(7, 268) =~= "vector_point_id, repository_id, file_id, chunk_id, symbol_id,
           symbol_name, path, language, chunk_kind, start_line, end_line,
           text_hash, parser_version, content_hash, index_run_id,
           embedding_model, embedding_dimension, indexed_at"@);
    lemma_says(SCROLL_POINTS@, "vector_point_id, repository_id, file_id, chunk_id, symbol_id,
           symbol_name, path, language, chunk_kind, start_line, end_line,
           text_hash, parser_version, content_hash, index_run_id,
           embedding_model, embedding_dimension, indexed_at"@, 7);
}

/// The answer to `nearest_points_tail` is read by its columns.
pub proof fn law_nearest_points_tail_is_read_by_column(record: Map<Seq<char>, SqlValue>)
    ensures
        says(NEAREST_POINTS_TAIL@, "vector_points.vector_point_id, matches.distance,
           vector_points.repository_id, vector_points.file_id,
           vector_points.chunk_id, vector_points.symbol_id,
           vector_points.symbol_name, vector_points.path,
           vector_points.language, vector_points.chunk_kind,
           vector_points.start_line, vector_points.end_line,
           vector_points.text_hash, vector_points.parser_version,
           vector_points.content_hash, vector_points.index_run_id,
           vector_points.embedding_model, vector_points.embedding_dimension,
           vector_points.indexed_at"@),
        ({
            let read = MatchedPoint::of(
                answer(
                    seq![
                        "vector_points.vector_point_id"@,
                        "matches.distance"@,
                        "vector_points.repository_id"@,
                        "vector_points.file_id"@,
                        "vector_points.chunk_id"@,
                        "vector_points.symbol_id"@,
                        "vector_points.symbol_name"@,
                        "vector_points.path"@,
                        "vector_points.language"@,
                        "vector_points.chunk_kind"@,
                        "vector_points.start_line"@,
                        "vector_points.end_line"@,
                        "vector_points.text_hash"@,
                        "vector_points.parser_version"@,
                        "vector_points.content_hash"@,
                        "vector_points.index_run_id"@,
                        "vector_points.embedding_model"@,
                        "vector_points.embedding_dimension"@,
                        "vector_points.indexed_at"@,
                    ],
                    record,
                ),
            );
            &&& read.id == record["vector_points.vector_point_id"@]->Text_0
            &&& read.distance == real_in(record["matches.distance"@])
            &&& read.payload.repository_id == record["vector_points.repository_id"@]->Text_0
            &&& read.payload.file_id == record["vector_points.file_id"@]->Text_0
            &&& read.payload.chunk_id == record["vector_points.chunk_id"@]->Text_0
            &&& read.payload.symbol_id == optional_text_in(record["vector_points.symbol_id"@])
            &&& read.payload.symbol_name == optional_text_in(record["vector_points.symbol_name"@])
            &&& read.payload.path == record["vector_points.path"@]->Text_0
            &&& read.payload.language == record["vector_points.language"@]->Text_0
            &&& read.payload.chunk_kind == record["vector_points.chunk_kind"@]->Text_0
            &&& read.payload.start_line == size_in(record["vector_points.start_line"@])
            &&& read.payload.end_line == size_in(record["vector_points.end_line"@])
            &&& read.payload.text_hash == record["vector_points.text_hash"@]->Text_0
            &&& read.payload.parser_version == optional_text_in(record["vector_points.parser_version"@])
            &&& read.payload.content_hash == optional_text_in(record["vector_points.content_hash"@])
            &&& read.payload.index_run_id == optional_text_in(record["vector_points.index_run_id"@])
            &&& read.payload.embedding_model == optional_text_in(record["vector_points.embedding_model"@])
            &&& read.payload.embedding_dimension == optional_size_in(record["vector_points.embedding_dimension"@])
            &&& read.payload.indexed_at == optional_text_in(record["vector_points.indexed_at"@])
        }),
{
    let columns = seq![
        "vector_points.vector_point_id"@,
        "matches.distance"@,
        "vector_points.repository_id"@,
        "vector_points.file_id"@,
        "vector_points.chunk_id"@,
        "vector_points.symbol_id"@,
        "vector_points.symbol_name"@,
        "vector_points.path"@,
        "vector_points.language"@,
        "vector_points.chunk_kind"@,
        "vector_points.start_line"@,
        "vector_points.end_line"@,
        "vector_points.text_hash"@,
        "vector_points.parser_version"@,
        "vector_points.content_hash"@,
        "vector_points.index_run_id"@,
        "vector_points.embedding_model"@,
        "vector_points.embedding_dimension"@,
        "vector_points.indexed_at"@,
    ];
    let row = answer(columns, record);
    assert(row[0] == record["vector_points.vector_point_id"@]);
    assert(row[1] == record["matches.distance"@]);
    assert(row[2] == record["vector_points.repository_id"@]);
    assert(row[3] == record["vector_points.file_id"@]);
    assert(row[4] == record["vector_points.chunk_id"@]);
    assert(row[5] == record["vector_points.symbol_id"@]);
    assert(row[6] == record["vector_points.symbol_name"@]);
    assert(row[7] == record["vector_points.path"@]);
    assert(row[8] == record["vector_points.language"@]);
    assert(row[9] == record["vector_points.chunk_kind"@]);
    assert(row[10] == record["vector_points.start_line"@]);
    assert(row[11] == record["vector_points.end_line"@]);
    assert(row[12] == record["vector_points.text_hash"@]);
    assert(row[13] == record["vector_points.parser_version"@]);
    assert(row[14] == record["vector_points.content_hash"@]);
    assert(row[15] == record["vector_points.index_run_id"@]);
    assert(row[16] == record["vector_points.embedding_model"@]);
    assert(row[17] == record["vector_points.embedding_dimension"@]);
    assert(row[18] == record["vector_points.indexed_at"@]);
    reveal_strlit("
      WHERE embedding MATCH ?1 AND k = ?2
    )
    SELECT vector_points.vector_point_id, matches.distance,
           vector_points.repository_id, vector_points.file_id,
           vector_points.chunk_id, vector_points.symbol_id,
           vector_points.symbol_name, vector_points.path,
           vector_points.language, vector_points.chunk_kind,
           vector_points.start_line, vector_points.end_line,
           vector_points.text_hash, vector_points.parser_version,
           vector_points.content_hash, vector_points.index_run_id,
           vector_points.embedding_model, vector_points.embedding_dimension,
           vector_points.indexed_at
    FROM matches
    JOIN vector_points
      ON vector_points.vector_store = 'sqlite_vec'
     AND vector_points.vector_table = ?3
     AND vector_points.vector_rowid = matches.rowid
    ORDER BY matches.distance ASC");
    reveal_strlit("vector_points.vector_point_id, matches.distance,
           vector_points.repository_id, vector_points.file_id,
           vector_points.chunk_id, vector_points.symbol_id,
           vector_points.symbol_name, vector_points.path,
           vector_points.language, vector_points.chunk_kind,
           vector_points.start_line, vector_points.end_line,
           vector_points.text_hash, vector_points.parser_version,
           vector_points.content_hash, vector_points.index_run_id,
           vector_points.embedding_model, vector_points.embedding_dimension,
           vector_points.indexed_at");
    assert(NEAREST_POINTS_TAIL@.subrange(60, 657) =~= "vector_points.vector_point_id, matches.distance,
           vector_points.repository_id, vector_points.file_id,
           vector_points.chunk_id, vector_points.symbol_id,
           vector_points.symbol_name, vector_points.path,
           vector_points.language, vector_points.chunk_kind,
           vector_points.start_line, vector_points.end_line,
           vector_points.text_hash, vector_points.parser_version,
           vector_points.content_hash, vector_points.index_run_id,
           vector_points.embedding_model, vector_points.embedding_dimension,
           vector_points.indexed_at"@);
    lemma_says(NEAREST_POINTS_TAIL@, "vector_points.vector_point_id, matches.distance,
           vector_points.repository_id, vector_points.file_id,
           vector_points.chunk_id, vector_points.symbol_id,
           vector_points.symbol_name, vector_points.path,
           vector_points.language, vector_points.chunk_kind,
           vector_points.start_line, vector_points.end_line,
           vector_points.text_hash, vector_points.parser_version,
           vector_points.content_hash, vector_points.index_run_id,
           vector_points.embedding_model, vector_points.embedding_dimension,
           vector_points.indexed_at"@, 60);
}

/// The answer to `nearest_points_for_ref_tail` is read by its columns.
pub proof fn law_nearest_points_for_ref_tail_is_read_by_column(record: Map<Seq<char>, SqlValue>)
    ensures
        says(NEAREST_POINTS_FOR_REF_TAIL@, "vector_points.vector_point_id, matches.distance,
           vector_points.repository_id, vector_points.file_id,
           vector_points.chunk_id, vector_points.symbol_id,
           vector_points.symbol_name, vector_points.path,
           vector_points.language, vector_points.chunk_kind,
           vector_points.start_line, vector_points.end_line,
           vector_points.text_hash, vector_points.parser_version,
           vector_points.content_hash, vector_points.index_run_id,
           vector_points.embedding_model, vector_points.embedding_dimension,
           vector_points.indexed_at"@),
        ({
            let read = MatchedPoint::of(
                answer(
                    seq![
                        "vector_points.vector_point_id"@,
                        "matches.distance"@,
                        "vector_points.repository_id"@,
                        "vector_points.file_id"@,
                        "vector_points.chunk_id"@,
                        "vector_points.symbol_id"@,
                        "vector_points.symbol_name"@,
                        "vector_points.path"@,
                        "vector_points.language"@,
                        "vector_points.chunk_kind"@,
                        "vector_points.start_line"@,
                        "vector_points.end_line"@,
                        "vector_points.text_hash"@,
                        "vector_points.parser_version"@,
                        "vector_points.content_hash"@,
                        "vector_points.index_run_id"@,
                        "vector_points.embedding_model"@,
                        "vector_points.embedding_dimension"@,
                        "vector_points.indexed_at"@,
                    ],
                    record,
                ),
            );
            &&& read.id == record["vector_points.vector_point_id"@]->Text_0
            &&& read.distance == real_in(record["matches.distance"@])
            &&& read.payload.repository_id == record["vector_points.repository_id"@]->Text_0
            &&& read.payload.file_id == record["vector_points.file_id"@]->Text_0
            &&& read.payload.chunk_id == record["vector_points.chunk_id"@]->Text_0
            &&& read.payload.symbol_id == optional_text_in(record["vector_points.symbol_id"@])
            &&& read.payload.symbol_name == optional_text_in(record["vector_points.symbol_name"@])
            &&& read.payload.path == record["vector_points.path"@]->Text_0
            &&& read.payload.language == record["vector_points.language"@]->Text_0
            &&& read.payload.chunk_kind == record["vector_points.chunk_kind"@]->Text_0
            &&& read.payload.start_line == size_in(record["vector_points.start_line"@])
            &&& read.payload.end_line == size_in(record["vector_points.end_line"@])
            &&& read.payload.text_hash == record["vector_points.text_hash"@]->Text_0
            &&& read.payload.parser_version == optional_text_in(record["vector_points.parser_version"@])
            &&& read.payload.content_hash == optional_text_in(record["vector_points.content_hash"@])
            &&& read.payload.index_run_id == optional_text_in(record["vector_points.index_run_id"@])
            &&& read.payload.embedding_model == optional_text_in(record["vector_points.embedding_model"@])
            &&& read.payload.embedding_dimension == optional_size_in(record["vector_points.embedding_dimension"@])
            &&& read.payload.indexed_at == optional_text_in(record["vector_points.indexed_at"@])
        }),
{
    let columns = seq![
        "vector_points.vector_point_id"@,
        "matches.distance"@,
        "vector_points.repository_id"@,
        "vector_points.file_id"@,
        "vector_points.chunk_id"@,
        "vector_points.symbol_id"@,
        "vector_points.symbol_name"@,
        "vector_points.path"@,
        "vector_points.language"@,
        "vector_points.chunk_kind"@,
        "vector_points.start_line"@,
        "vector_points.end_line"@,
        "vector_points.text_hash"@,
        "vector_points.parser_version"@,
        "vector_points.content_hash"@,
        "vector_points.index_run_id"@,
        "vector_points.embedding_model"@,
        "vector_points.embedding_dimension"@,
        "vector_points.indexed_at"@,
    ];
    let row = answer(columns, record);
    assert(row[0] == record["vector_points.vector_point_id"@]);
    assert(row[1] == record["matches.distance"@]);
    assert(row[2] == record["vector_points.repository_id"@]);
    assert(row[3] == record["vector_points.file_id"@]);
    assert(row[4] == record["vector_points.chunk_id"@]);
    assert(row[5] == record["vector_points.symbol_id"@]);
    assert(row[6] == record["vector_points.symbol_name"@]);
    assert(row[7] == record["vector_points.path"@]);
    assert(row[8] == record["vector_points.language"@]);
    assert(row[9] == record["vector_points.chunk_kind"@]);
    assert(row[10] == record["vector_points.start_line"@]);
    assert(row[11] == record["vector_points.end_line"@]);
    assert(row[12] == record["vector_points.text_hash"@]);
    assert(row[13] == record["vector_points.parser_version"@]);
    assert(row[14] == record["vector_points.content_hash"@]);
    assert(row[15] == record["vector_points.index_run_id"@]);
    assert(row[16] == record["vector_points.embedding_model"@]);
    assert(row[17] == record["vector_points.embedding_dimension"@]);
    assert(row[18] == record["vector_points.indexed_at"@]);
    reveal_strlit("
      WHERE embedding MATCH ?1
        AND k = ?2
        AND rowid IN (SELECT vector_rowid FROM eligible)
    )
    SELECT vector_points.vector_point_id, matches.distance,
           vector_points.repository_id, vector_points.file_id,
           vector_points.chunk_id, vector_points.symbol_id,
           vector_points.symbol_name, vector_points.path,
           vector_points.language, vector_points.chunk_kind,
           vector_points.start_line, vector_points.end_line,
           vector_points.text_hash, vector_points.parser_version,
           vector_points.content_hash, vector_points.index_run_id,
           vector_points.embedding_model, vector_points.embedding_dimension,
           vector_points.indexed_at
    FROM matches
    JOIN vector_points
      ON vector_points.vector_store = 'sqlite_vec'
     AND vector_points.vector_table = ?3
     AND vector_points.vector_rowid = matches.rowid
    ORDER BY matches.distance ASC");
    reveal_strlit("vector_points.vector_point_id, matches.distance,
           vector_points.repository_id, vector_points.file_id,
           vector_points.chunk_id, vector_points.symbol_id,
           vector_points.symbol_name, vector_points.path,
           vector_points.language, vector_points.chunk_kind,
           vector_points.start_line, vector_points.end_line,
           vector_points.text_hash, vector_points.parser_version,
           vector_points.content_hash, vector_points.index_run_id,
           vector_points.embedding_model, vector_points.embedding_dimension,
           vector_points.indexed_at");
    assert(NEAREST_POINTS_FOR_REF_TAIL@.subrange(125, 722) =~= "vector_points.vector_point_id, matches.distance,
           vector_points.repository_id, vector_points.file_id,
           vector_points.chunk_id, vector_points.symbol_id,
           vector_points.symbol_name, vector_points.path,
           vector_points.language, vector_points.chunk_kind,
           vector_points.start_line, vector_points.end_line,
           vector_points.text_hash, vector_points.parser_version,
           vector_points.content_hash, vector_points.index_run_id,
           vector_points.embedding_model, vector_points.embedding_dimension,
           vector_points.indexed_at"@);
    lemma_says(NEAREST_POINTS_FOR_REF_TAIL@, "vector_points.vector_point_id, matches.distance,
           vector_points.repository_id, vector_points.file_id,
           vector_points.chunk_id, vector_points.symbol_id,
           vector_points.symbol_name, vector_points.path,
           vector_points.language, vector_points.chunk_kind,
           vector_points.start_line, vector_points.end_line,
           vector_points.text_hash, vector_points.parser_version,
           vector_points.content_hash, vector_points.index_run_id,
           vector_points.embedding_model, vector_points.embedding_dimension,
           vector_points.indexed_at"@, 125);
}

} // verus!
