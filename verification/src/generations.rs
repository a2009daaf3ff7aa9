//! Semantic generations, their embeddings, and which layer answers.

use vstd::prelude::*;
use crate::error::{is_fault, Fault, StoreError};
use crate::facts::{missing_of, missing_paths};
use crate::layers::{SemanticLayer, SemanticLayerStatus};
use crate::naming::{
    law_row_ids_are_positive, parsed_hex, rowid_of, rowid_source, table_name_of, vector_rowid,
    vector_table_name,
};
use crate::quality::{
    eligible_chunks, progress_fault, quality_progress, QualityGenerationFacts,
};
use crate::recording::{fast_generation_sql, upsert_fast_generation};
use crate::records::{
    ChunkEmbeddingRecord, FastEmbeddingManifestRecord, FastSemanticGenerationInput,
    QualityGenerationProgress, SemanticGenerationRecord, SemanticLayerManifestAggregate,
    SemanticLayerManifestSummary, SemanticRoutingSummary,
};
use crate::sql::{
    all_of, closes_at, collect_rows, count, count_value, counted, first_fault, first_row, is_size,
    is_transaction, lemma_mismatch, lemma_optional_size_round_trip, lemma_size_round_trip, mismatch,
    negative, optional_count_value, optional_counted, optional_owned, optional_owned_value,
    owned_value, rows_fault, script, statement, statement_of, text, text_value, unfit, usize_count,
    values, Command, CommandView, FromRow, Row, SqlValue, Statement, StatementView, Value,
};
use crate::store::SqliteStore;
use crate::text::{
    ascending_set, decimal, decimal_digits, lemma_ascending_unique, lemma_insert_members,
    lemma_precedes_asymmetric, lemma_precedes_transitive, precedes, relate, same,
    strictly_ascending, texts, Relation,
};

verus! {

pub const UPSERT_SEMANTIC_GENERATION: &'static str = "INSERT INTO semantic_generations (
      id, repository_id, fast_model, fast_dimension, fast_completed_at,
      quality_model, quality_dimension, quality_status, quality_started_at,
      quality_completed_at, active_layer, files_seen, embeddable_chunks,
      fast_embedded_chunks, quality_embedded_chunks, created_at, updated_at
    )
    VALUES (?1, ?2, ?3, ?4, ?5, ?6, ?7, ?8, ?9, ?10, ?11, ?12, ?13, ?14, ?15, ?16, ?17)
    ON CONFLICT(id) DO UPDATE SET
      repository_id = excluded.repository_id,
      fast_model = excluded.fast_model,
      fast_dimension = excluded.fast_dimension,
      fast_completed_at = excluded.fast_completed_at,
      quality_model = excluded.quality_model,
      quality_dimension = excluded.quality_dimension,
      quality_status = excluded.quality_status,
      quality_started_at = excluded.quality_started_at,
      quality_completed_at = excluded.quality_completed_at,
      active_layer = excluded.active_layer,
      files_seen = excluded.files_seen,
      embeddable_chunks = excluded.embeddable_chunks,
      fast_embedded_chunks = excluded.fast_embedded_chunks,
      quality_embedded_chunks = excluded.quality_embedded_chunks,
      created_at = excluded.created_at,
      updated_at = excluded.updated_at";

pub const UPSERT_CHUNK_EMBEDDING: &'static str = "INSERT INTO chunk_embeddings (
      id, repository_id, file_id, chunk_id, semantic_layer, embedding_model,
      embedding_dimension, content_hash, text_hash, vector_table,
      vector_point_id, vector_store, vector_rowid,
      generation_id, embedded_at, status
    )
    VALUES (?1, ?2, ?3, ?4, ?5, ?6, ?7, ?8, ?9, ?10, ?11, 'sqlite_vec', ?12, ?13, ?14, ?15)
    ON CONFLICT(chunk_id, semantic_layer, embedding_model, embedding_dimension)
    DO UPDATE SET
      id = excluded.id,
      repository_id = excluded.repository_id,
      file_id = excluded.file_id,
      content_hash = excluded.content_hash,
      text_hash = excluded.text_hash,
      vector_table = excluded.vector_table,
      vector_point_id = excluded.vector_point_id,
      vector_store = excluded.vector_store,
      vector_rowid = excluded.vector_rowid,
      generation_id = excluded.generation_id,
      embedded_at = excluded.embedded_at,
      status = excluded.status";

pub const LATEST_SEMANTIC_GENERATION: &'static str =
    "SELECT id, repository_id, fast_model, fast_dimension, fast_completed_at,
           quality_model, quality_dimension, quality_status, quality_started_at,
           quality_completed_at, active_layer, files_seen, embeddable_chunks,
           fast_embedded_chunks, quality_embedded_chunks, created_at, updated_at
    FROM semantic_generations
    WHERE repository_id = ?1
    ORDER BY fast_completed_at DESC, created_at DESC, id DESC
    LIMIT 1";

pub const LINK_SEMANTIC_GENERATION_TO_REF: &'static str = "INSERT INTO semantic_generation_refs (
      repository_ref_id, repository_id, generation_id, linked_at
    )
    VALUES (?1, ?2, ?3, ?4)
    ON CONFLICT(repository_ref_id) DO UPDATE SET
      repository_id = excluded.repository_id,
      generation_id = excluded.generation_id,
      linked_at = excluded.linked_at";

pub const LATEST_SEMANTIC_GENERATION_FOR_REF: &'static str =
    "SELECT semantic_generations.id, semantic_generations.repository_id,
          semantic_generations.fast_model, semantic_generations.fast_dimension,
          semantic_generations.fast_completed_at,
          semantic_generations.quality_model,
          semantic_generations.quality_dimension,
          semantic_generations.quality_status,
          semantic_generations.quality_started_at,
          semantic_generations.quality_completed_at,
          semantic_generations.active_layer,
          semantic_generations.files_seen,
          semantic_generations.embeddable_chunks,
          semantic_generations.fast_embedded_chunks,
          semantic_generations.quality_embedded_chunks,
          semantic_generations.created_at,
          semantic_generations.updated_at
     FROM semantic_generation_refs
     JOIN semantic_generations
       ON semantic_generations.id = semantic_generation_refs.generation_id
    WHERE semantic_generation_refs.repository_id = ?1
      AND semantic_generation_refs.repository_ref_id = ?2
    LIMIT 1";

pub const SEMANTIC_LAYER_MANIFEST_AGGREGATE: &'static str =
    "SELECT embedding_model, embedding_dimension, vector_table,
           SUM(CASE WHEN status = 'current' THEN 1 ELSE 0 END),
           SUM(CASE WHEN status = 'stale' THEN 1 ELSE 0 END),
           SUM(CASE WHEN status = 'blocked' THEN 1 ELSE 0 END),
           SUM(CASE WHEN status = 'failed' THEN 1 ELSE 0 END),
           SUM(CASE WHEN status NOT IN ('current', 'stale', 'blocked', 'failed') THEN 1 ELSE 0 END),
           COUNT(*)
    FROM chunk_embeddings
    WHERE repository_id = ?1
      AND generation_id = ?2
      AND semantic_layer = ?3
      AND vector_store = 'sqlite_vec'
    GROUP BY embedding_model, embedding_dimension, vector_table
    ORDER BY 4 DESC, 9 DESC, embedding_model, vector_table
    LIMIT 1";

pub const CHUNK_EMBEDDINGS_FOR_GENERATION: &'static str =
    "SELECT id, repository_id, file_id, chunk_id, semantic_layer, embedding_model,
           embedding_dimension, content_hash, text_hash, vector_table,
           vector_point_id, generation_id, embedded_at, status
    FROM chunk_embeddings
    WHERE repository_id = ?1
      AND generation_id = ?2
      AND semantic_layer = ?3
    ORDER BY chunk_id, embedding_model, embedding_dimension";

pub const FAST_EMBEDDINGS_FOR_REF: &'static str =
    "SELECT chunk_embeddings.file_id, chunk_embeddings.chunk_id,
           files.content_hash, chunks.text_hash, chunk_embeddings.vector_point_id
    FROM chunk_embeddings
    JOIN chunks ON chunk_embeddings.chunk_id = chunks.id
    JOIN files ON chunk_embeddings.file_id = files.id
              AND chunks.file_id = files.id
    JOIN ref_files
      ON ref_files.repository_id = files.repository_id
     AND ref_files.repository_ref_id = ?4
     AND ref_files.file_id = files.id
     AND ref_files.path = files.path
    WHERE files.repository_id = ?1
      AND chunk_embeddings.repository_id = ?1
      AND chunk_embeddings.semantic_layer = 'fast'
      AND chunk_embeddings.embedding_model = ?2
      AND chunk_embeddings.embedding_dimension = ?3
      AND chunk_embeddings.vector_store = 'sqlite_vec'
      AND chunk_embeddings.status = 'current'
      AND chunks.excluded_reason IS NULL
    ORDER BY chunk_embeddings.chunk_id";

pub const FAST_EMBEDDINGS: &'static str =
    "SELECT chunk_embeddings.file_id, chunk_embeddings.chunk_id,
           files.content_hash, chunks.text_hash, chunk_embeddings.vector_point_id
    FROM chunk_embeddings
    JOIN chunks ON chunk_embeddings.chunk_id = chunks.id
    JOIN files ON chunk_embeddings.file_id = files.id
              AND chunks.file_id = files.id
    WHERE files.repository_id = ?1
      AND chunk_embeddings.repository_id = ?1
      AND chunk_embeddings.semantic_layer = 'fast'
      AND chunk_embeddings.embedding_model = ?2
      AND chunk_embeddings.embedding_dimension = ?3
      AND chunk_embeddings.vector_store = 'sqlite_vec'
      AND chunk_embeddings.status = 'current'
      AND chunks.excluded_reason IS NULL
    ORDER BY chunk_embeddings.chunk_id";

pub const VECTOR_POINT_IDS_AT_PATH: &'static str = "SELECT chunk_embeddings.vector_point_id
    FROM chunk_embeddings
    JOIN files ON chunk_embeddings.file_id = files.id
    WHERE files.repository_id = ?1
      AND files.path = ?2
      AND chunk_embeddings.repository_id = ?1
      AND chunk_embeddings.generation_id = ?3
      AND chunk_embeddings.semantic_layer = ?4
      AND chunk_embeddings.vector_store = 'sqlite_vec'
      AND chunk_embeddings.status = 'current'
    ORDER BY chunk_embeddings.vector_point_id";

pub const VECTOR_POINT_IDS_REFERENCED_BY_REF_FILES: &'static str =
    "SELECT DISTINCT vector_points.vector_point_id
     FROM vector_points
     JOIN ref_files ON ref_files.file_id = vector_points.file_id
    WHERE vector_points.vector_store = 'sqlite_vec'
      AND vector_points.repository_id = ?1
      AND vector_points.vector_table = ?2";

pub const EXPECTED_VECTOR_POINTS_FOR_GENERATION_LAYER: &'static str =
    "SELECT chunk_embeddings.vector_point_id, chunks.id, files.path,
           chunks.start_line, chunks.end_line, chunk_embeddings.text_hash,
           chunk_embeddings.embedding_model, chunk_embeddings.embedding_dimension
    FROM chunk_embeddings
    JOIN chunks ON chunk_embeddings.chunk_id = chunks.id
    JOIN files ON chunk_embeddings.file_id = files.id
              AND chunks.file_id = files.id
    WHERE chunk_embeddings.repository_id = ?1
      AND files.repository_id = ?1
      AND chunk_embeddings.generation_id = ?2
      AND chunk_embeddings.semantic_layer = ?3
      AND chunk_embeddings.vector_store = 'sqlite_vec'
      AND chunk_embeddings.status = 'current'
    ORDER BY files.path, chunks.start_line, chunks.id";

/// The reading of `latest_semantic_generation`.
pub open spec fn latest_semantic_generation_spec(repository_id: Seq<char>) -> StatementView {
    statement_of(LATEST_SEMANTIC_GENERATION, seq![text(repository_id)])
}

/// The reading of `link_semantic_generation_to_ref`.
pub open spec fn link_semantic_generation_to_ref_spec(
    repository_id: Seq<char>,
    repository_ref_id: Seq<char>,
    generation_id: Seq<char>,
    linked_at: Seq<char>,
) -> StatementView {
    statement_of(
        LINK_SEMANTIC_GENERATION_TO_REF,
        seq![
            text(repository_ref_id),
            text(repository_id),
            text(generation_id),
            text(linked_at),
        ],
    )
}

/// The reading of `latest_semantic_generation_for_ref`.
pub open spec fn latest_semantic_generation_for_ref_spec(
    repository_id: Seq<char>,
    repository_ref_id: Seq<char>,
) -> StatementView {
    statement_of(
        LATEST_SEMANTIC_GENERATION_FOR_REF,
        seq![
            text(repository_id),
            text(repository_ref_id),
        ],
    )
}

/// The reading of `semantic_layer_manifest_aggregate`.
pub open spec fn semantic_layer_manifest_aggregate_spec(
    repository_id: Seq<char>,
    generation_id: Seq<char>,
    semantic_layer: SemanticLayer,
) -> StatementView {
    statement_of(
        SEMANTIC_LAYER_MANIFEST_AGGREGATE,
        seq![
            text(repository_id),
            text(generation_id),
            text(semantic_layer.text()),
        ],
    )
}

/// The reading of `chunk_embeddings_for_generation`.
pub open spec fn chunk_embeddings_for_generation_spec(
    repository_id: Seq<char>,
    generation_id: Seq<char>,
    semantic_layer: Seq<char>,
) -> StatementView {
    statement_of(
        CHUNK_EMBEDDINGS_FOR_GENERATION,
        seq![
            text(repository_id),
            text(generation_id),
            text(semantic_layer),
        ],
    )
}

/// The reading of `fast_embeddings_for_ref`.
pub open spec fn fast_embeddings_for_ref_spec(
    repository_id: Seq<char>,
    fast_model: Seq<char>,
    fast_dimension: usize,
    repository_ref_id: Seq<char>,
) -> StatementView {
    statement_of(
        FAST_EMBEDDINGS_FOR_REF,
        seq![
            text(repository_id),
            text(fast_model),
            count(fast_dimension),
            text(repository_ref_id),
        ],
    )
}

/// The reading of `fast_embeddings`.
pub open spec fn fast_embeddings_spec(
    repository_id: Seq<char>,
    fast_model: Seq<char>,
    fast_dimension: usize,
) -> StatementView {
    statement_of(
        FAST_EMBEDDINGS,
        seq![
            text(repository_id),
            text(fast_model),
            count(fast_dimension),
        ],
    )
}

/// The reading of `vector_point_ids_at_path`.
pub open spec fn vector_point_ids_at_path_spec(
    repository_id: Seq<char>,
    path: Seq<char>,
    generation_id: Seq<char>,
    semantic_layer: SemanticLayer,
) -> StatementView {
    statement_of(
        VECTOR_POINT_IDS_AT_PATH,
        seq![
            text(repository_id),
            text(path),
            text(generation_id),
            text(semantic_layer.text()),
        ],
    )
}

/// The reading of `vector_point_ids_referenced_by_ref_files`.
pub open spec fn vector_point_ids_referenced_by_ref_files_spec(
    repository_id: Seq<char>,
    vector_table: Seq<char>,
) -> StatementView {
    statement_of(
        VECTOR_POINT_IDS_REFERENCED_BY_REF_FILES,
        seq![
            text(repository_id),
            text(vector_table),
        ],
    )
}

/// The reading of `expected_vector_points_for_generation_layer`.
pub open spec fn expected_vector_points_for_generation_layer_spec(
    repository_id: Seq<char>,
    generation_id: Seq<char>,
    semantic_layer: SemanticLayer,
) -> StatementView {
    statement_of(
        EXPECTED_VECTOR_POINTS_FOR_GENERATION_LAYER,
        seq![
            text(repository_id),
            text(generation_id),
            text(semantic_layer.text()),
        ],
    )
}

impl SqliteStore {
    /// The latest generation of a repository. Read as a `SemanticGenerationRecord`.
    pub fn latest_semantic_generation(repository_id: &str) -> (r: Statement)
        ensures
            r@ == latest_semantic_generation_spec(repository_id@),
    {
        let params = vec![text_value(repository_id)];
        proof {
            assert(values(params@) =~= latest_semantic_generation_spec(repository_id@).params);
        }
        statement(LATEST_SEMANTIC_GENERATION, params)
    }

    /// Makes a generation the one of a ref.
    pub fn link_semantic_generation_to_ref(
        repository_id: &str,
        repository_ref_id: &str,
        generation_id: &str,
        linked_at: &str,
    ) -> (r: Statement)
        ensures
            r@ == link_semantic_generation_to_ref_spec(
                repository_id@,
                repository_ref_id@,
                generation_id@,
                linked_at@,
            ),
    {
        let params = vec![
            text_value(repository_ref_id),
            text_value(repository_id),
            text_value(generation_id),
            text_value(linked_at),
        ];
        proof {
            assert(values(params@) =~= link_semantic_generation_to_ref_spec(
                repository_id@,
                repository_ref_id@,
                generation_id@,
                linked_at@,
            ).params);
        }
        statement(LINK_SEMANTIC_GENERATION_TO_REF, params)
    }

    /// The generation of a ref. Read as a `SemanticGenerationRecord`.
    pub fn latest_semantic_generation_for_ref(
        repository_id: &str,
        repository_ref_id: &str,
    ) -> (r: Statement)
        ensures
            r@ == latest_semantic_generation_for_ref_spec(repository_id@, repository_ref_id@),
    {
        let params = vec![text_value(repository_id), text_value(repository_ref_id)];
        proof {
            assert(values(params@) =~= latest_semantic_generation_for_ref_spec(
                repository_id@,
                repository_ref_id@,
            ).params);
        }
        statement(LATEST_SEMANTIC_GENERATION_FOR_REF, params)
    }

    /// The counts of the layer of a generation. Read as a `SemanticLayerManifestAggregate`.
    pub fn semantic_layer_manifest_aggregate(
        repository_id: &str,
        generation_id: &str,
        semantic_layer: SemanticLayer,
    ) -> (r: Statement)
        ensures
            r@ == semantic_layer_manifest_aggregate_spec(
                repository_id@,
                generation_id@,
                semantic_layer,
            ),
    {
        let params = vec![
            text_value(repository_id),
            text_value(generation_id),
            text_value(semantic_layer.as_str()),
        ];
        proof {
            assert(values(params@) =~= semantic_layer_manifest_aggregate_spec(
                repository_id@,
                generation_id@,
                semantic_layer,
            ).params);
        }
        statement(SEMANTIC_LAYER_MANIFEST_AGGREGATE, params)
    }

    /// The embeddings of a layer of a generation. Read as `ChunkEmbeddingRecord`s.
    pub fn chunk_embeddings_for_generation(
        repository_id: &str,
        generation_id: &str,
        semantic_layer: &str,
    ) -> (r: Statement)
        ensures
            r@ == chunk_embeddings_for_generation_spec(
                repository_id@,
                generation_id@,
                semantic_layer@,
            ),
    {
        let params = vec![
            text_value(repository_id),
            text_value(generation_id),
            text_value(semantic_layer),
        ];
        proof {
            assert(values(params@) =~= chunk_embeddings_for_generation_spec(
                repository_id@,
                generation_id@,
                semantic_layer@,
            ).params);
        }
        statement(CHUNK_EMBEDDINGS_FOR_GENERATION, params)
    }

    /// The current fast embeddings of the files of a ref. Read as `FastEmbeddingManifestRecord`s.
    pub fn fast_embeddings_for_ref(
        repository_id: &str,
        fast_model: &str,
        fast_dimension: usize,
        repository_ref_id: &str,
    ) -> (r: Statement)
        ensures
            r@ == fast_embeddings_for_ref_spec(
                repository_id@,
                fast_model@,
                fast_dimension,
                repository_ref_id@,
            ),
    {
        let params = vec![
            text_value(repository_id),
            text_value(fast_model),
            count_value(fast_dimension),
            text_value(repository_ref_id),
        ];
        proof {
            assert(values(params@) =~= fast_embeddings_for_ref_spec(
                repository_id@,
                fast_model@,
                fast_dimension,
                repository_ref_id@,
            ).params);
        }
        statement(FAST_EMBEDDINGS_FOR_REF, params)
    }

    /// The current fast embeddings of a repository. Read as `FastEmbeddingManifestRecord`s.
    pub fn fast_embeddings(
        repository_id: &str,
        fast_model: &str,
        fast_dimension: usize,
    ) -> (r: Statement)
        ensures
            r@ == fast_embeddings_spec(repository_id@, fast_model@, fast_dimension),
    {
        let params = vec![
            text_value(repository_id),
            text_value(fast_model),
            count_value(fast_dimension),
        ];
        proof {
            assert(values(params@) =~= fast_embeddings_spec(
                repository_id@,
                fast_model@,
                fast_dimension,
            ).params);
        }
        statement(FAST_EMBEDDINGS, params)
    }

    /// The points of a file in a layer of a generation. Read as `String`s.
    pub fn vector_point_ids_at_path(
        repository_id: &str,
        path: &str,
        generation_id: &str,
        semantic_layer: SemanticLayer,
    ) -> (r: Statement)
        ensures
            r@ == vector_point_ids_at_path_spec(
                repository_id@,
                path@,
                generation_id@,
                semantic_layer,
            ),
    {
        let params = vec![
            text_value(repository_id),
            text_value(path),
            text_value(generation_id),
            text_value(semantic_layer.as_str()),
        ];
        proof {
            assert(values(params@) =~= vector_point_ids_at_path_spec(
                repository_id@,
                path@,
                generation_id@,
                semantic_layer,
            ).params);
        }
        statement(VECTOR_POINT_IDS_AT_PATH, params)
    }

    /// The points of a vector table whose files some ref holds. Read as `String`s.
    pub fn vector_point_ids_referenced_by_ref_files(
        repository_id: &str,
        vector_table: &str,
    ) -> (r: Statement)
        ensures
            r@ == vector_point_ids_referenced_by_ref_files_spec(repository_id@, vector_table@),
    {
        let params = vec![text_value(repository_id), text_value(vector_table)];
        proof {
            assert(values(params@) =~= vector_point_ids_referenced_by_ref_files_spec(
                repository_id@,
                vector_table@,
            ).params);
        }
        statement(VECTOR_POINT_IDS_REFERENCED_BY_REF_FILES, params)
    }

    /// The points that the vector store should hold for a layer of a generation. Read as
    /// `ExpectedVectorPoint`s.
    pub fn expected_vector_points_for_generation_layer(
        repository_id: &str,
        generation_id: &str,
        semantic_layer: SemanticLayer,
    ) -> (r: Statement)
        ensures
            r@ == expected_vector_points_for_generation_layer_spec(
                repository_id@,
                generation_id@,
                semantic_layer,
            ),
    {
        let params = vec![
            text_value(repository_id),
            text_value(generation_id),
            text_value(semantic_layer.as_str()),
        ];
        proof {
            assert(values(params@) =~= expected_vector_points_for_generation_layer_spec(
                repository_id@,
                generation_id@,
                semantic_layer,
            ).params);
        }
        statement(EXPECTED_VECTOR_POINTS_FOR_GENERATION_LAYER, params)
    }
}

/// The columns of a generation, in the order in which they are stored and read.
pub open spec fn generation_columns(g: SemanticGenerationRecord) -> Seq<SqlValue> {
    seq![
        SqlValue::Text(g.id),
        SqlValue::Text(g.repository_id),
        SqlValue::Text(g.fast_model),
        counted(g.fast_dimension),
        SqlValue::Text(g.fast_completed_at),
        optional_owned(g.quality_model),
        optional_counted(g.quality_dimension),
        SqlValue::Text(g.quality_status),
        optional_owned(g.quality_started_at),
        optional_owned(g.quality_completed_at),
        SqlValue::Text(g.active_layer),
        counted(g.files_seen),
        counted(g.embeddable_chunks),
        counted(g.fast_embedded_chunks),
        counted(g.quality_embedded_chunks),
        SqlValue::Text(g.created_at),
        SqlValue::Text(g.updated_at),
    ]
}

/// The columns of an embedding as they are stored: with the row that holds its vector.
pub open spec fn embedding_columns(e: ChunkEmbeddingRecord, rowid: i64) -> Seq<SqlValue> {
    seq![
        SqlValue::Text(e.id),
        SqlValue::Text(e.repository_id),
        SqlValue::Text(e.file_id),
        SqlValue::Text(e.chunk_id),
        SqlValue::Text(e.semantic_layer),
        SqlValue::Text(e.embedding_model),
        counted(e.embedding_dimension),
        SqlValue::Text(e.content_hash),
        SqlValue::Text(e.text_hash),
        SqlValue::Text(e.vector_table),
        SqlValue::Text(e.vector_point_id),
        SqlValue::Integer(rowid),
        SqlValue::Text(e.generation_id),
        SqlValue::Text(e.embedded_at),
        SqlValue::Text(e.status),
    ]
}

/// The columns of an embedding as they are read: without the row of its vector.
pub open spec fn embedding_row(e: ChunkEmbeddingRecord) -> Seq<SqlValue> {
    embedding_columns(e, 0).remove(11)
}

fn generation_values(generation: &SemanticGenerationRecord) -> (r: Vec<SqlValue>)
    ensures
        r@ == generation_columns(*generation),
{
    vec![
        owned_value(&generation.id),
        owned_value(&generation.repository_id),
        owned_value(&generation.fast_model),
        count_value(generation.fast_dimension),
        owned_value(&generation.fast_completed_at),
        optional_owned_value(&generation.quality_model),
        optional_count_value(generation.quality_dimension),
        owned_value(&generation.quality_status),
        optional_owned_value(&generation.quality_started_at),
        optional_owned_value(&generation.quality_completed_at),
        owned_value(&generation.active_layer),
        count_value(generation.files_seen),
        count_value(generation.embeddable_chunks),
        count_value(generation.fast_embedded_chunks),
        count_value(generation.quality_embedded_chunks),
        owned_value(&generation.created_at),
        owned_value(&generation.updated_at),
    ]
}

/// A generation is read back as it was stored.
pub proof fn law_generations_round_trip(g: SemanticGenerationRecord)
    ensures
        mismatch(generation_columns(g), SemanticGenerationRecord::fields()) is None,
        SemanticGenerationRecord::of(generation_columns(g)) == g,
{
    let row = generation_columns(g);
    let fields = SemanticGenerationRecord::fields();
    lemma_mismatch(row, fields, 0);
    lemma_size_round_trip(g.fast_dimension);
    lemma_optional_size_round_trip(g.quality_dimension);
    lemma_size_round_trip(g.files_seen);
    lemma_size_round_trip(g.embeddable_chunks);
    lemma_size_round_trip(g.fast_embedded_chunks);
    lemma_size_round_trip(g.quality_embedded_chunks);
    assert forall|i: int| 0 <= i < fields.len() implies !unfit(row, #[trigger] fields[i]) by {
        assert(fields[i].at == i);
    }
}

/// An embedding is read back as it was stored.
pub proof fn law_embeddings_round_trip(e: ChunkEmbeddingRecord, rowid: i64)
    ensures
        embedding_row(e) == embedding_columns(e, rowid).remove(11),
        mismatch(embedding_row(e), ChunkEmbeddingRecord::fields()) is None,
        ChunkEmbeddingRecord::of(embedding_row(e)) == e,
{
    let row = embedding_row(e);
    let fields = ChunkEmbeddingRecord::fields();
    assert(row =~= embedding_columns(e, rowid).remove(11));
    lemma_mismatch(row, fields, 0);
    lemma_size_round_trip(e.embedding_dimension);
    assert forall|i: int| 0 <= i < fields.len() implies !unfit(row, #[trigger] fields[i]) by {
        assert(fields[i].at == i);
    }
}

/// What storing an embedding is answered: the statement, or the error that its point has no row.
pub open spec fn embedding_stored(
    r: Result<Statement, StoreError>,
    e: ChunkEmbeddingRecord,
    digest: Seq<char>,
) -> bool {
    match rowid_of(e.vector_point_id@, digest) {
        Some(rowid) => r matches Ok(s) && s@ == upsert_embedding_spec(e, rowid as i64),
        None => r matches Err(StoreError::InvalidPointId(id)) && id@ == e.vector_point_id@,
    }
}

/// The reading of the statement that stores an embedding.
pub open spec fn upsert_embedding_spec(e: ChunkEmbeddingRecord, rowid: i64) -> StatementView {
    statement_of(UPSERT_CHUNK_EMBEDDING, values(embedding_columns(e, rowid)))
}

/// The reading of the statement that stores a generation.
pub open spec fn upsert_generation_spec(g: SemanticGenerationRecord) -> StatementView {
    statement_of(UPSERT_SEMANTIC_GENERATION, values(generation_columns(g)))
}

impl SqliteStore {
    /// Stores a generation, or updates it.
    pub fn upsert_semantic_generation(generation: &SemanticGenerationRecord) -> (r: Statement)
        ensures
            r@ == upsert_generation_spec(*generation),
            r.params@ == generation_columns(*generation),
    {
        statement(UPSERT_SEMANTIC_GENERATION, generation_values(generation))
    }

    /// Stores an embedding, or updates it. `digest` is the stable id of the parts that
    /// `vector_rowid_parts` gives for the point of the embedding.
    pub fn upsert_chunk_embedding(embedding: &ChunkEmbeddingRecord, digest: &str) -> (r: Result<
        Statement,
        StoreError,
    >)
        ensures
            embedding_stored(r, *embedding, digest@),
    {
        let rowid = match vector_rowid(embedding.vector_point_id.as_str(), digest) {
            Ok(rowid) => rowid,
            Err(error) => {
                return Err(error);
            },
        };
        let params = vec![
            owned_value(&embedding.id),
            owned_value(&embedding.repository_id),
            owned_value(&embedding.file_id),
            owned_value(&embedding.chunk_id),
            owned_value(&embedding.semantic_layer),
            owned_value(&embedding.embedding_model),
            count_value(embedding.embedding_dimension),
            owned_value(&embedding.content_hash),
            owned_value(&embedding.text_hash),
            owned_value(&embedding.vector_table),
            owned_value(&embedding.vector_point_id),
            SqlValue::Integer(rowid),
            owned_value(&embedding.generation_id),
            owned_value(&embedding.embedded_at),
            owned_value(&embedding.status),
        ];
        proof {
            assert(params@ =~= embedding_columns(*embedding, rowid));
        }
        Ok(statement(UPSERT_CHUNK_EMBEDDING, params))
    }

    /// The parts whose stable id identifies an embedding.
    pub fn chunk_embedding_id(
        repository_id: &str,
        generation_id: &str,
        chunk_id: &str,
        semantic_layer: &str,
        embedding_model: &str,
        embedding_dimension: usize,
    ) -> (r: Vec<String>)
        ensures
            texts(r@) == embedding_id_parts(
                repository_id@,
                generation_id@,
                chunk_id@,
                semantic_layer@,
                embedding_model@,
                embedding_dimension,
            ),
    {
        let parts = vec![
            "chunk-embedding".to_owned(),
            repository_id.to_owned(),
            generation_id.to_owned(),
            chunk_id.to_owned(),
            semantic_layer.to_owned(),
            embedding_model.to_owned(),
            decimal(embedding_dimension as u128),
        ];
        proof {
            assert(texts(parts@) =~= embedding_id_parts(
                repository_id@,
                generation_id@,
                chunk_id@,
                semantic_layer@,
                embedding_model@,
                embedding_dimension,
            ));
        }
        parts
    }

    /// The queries for the points that the files at `paths` have in a layer of the latest
    /// generation: none without paths or without a generation. The rows go to `point_ids`.
    pub fn vector_point_ids_for_latest_generation_layer_paths(
        repository_id: &str,
        generation: &Option<SemanticGenerationRecord>,
        semantic_layer: SemanticLayer,
        paths: &Vec<String>,
    ) -> (r: Vec<Statement>)
        ensures
            r@.len() == point_queries(
                repository_id@,
                *generation,
                semantic_layer,
                texts(paths@),
            ).len(),
            forall|i: int|
                0 <= i < r@.len() ==> (#[trigger] r@[i])@ == point_queries(
                    repository_id@,
                    *generation,
                    semantic_layer,
                    texts(paths@),
                )[i],
    {
        let mut out: Vec<Statement> = Vec::new();
        if let Some(found) = generation {
            for i in 0..paths.len()
                invariant
                    out@.len() == i,
                    forall|k: int|
                        0 <= k < i ==> (#[trigger] out@[k])@ == vector_point_ids_at_path_spec(
                            repository_id@,
                            paths@[k]@,
                            found.id@,
                            semantic_layer,
                        ),
            {
                out.push(
                    SqliteStore::vector_point_ids_at_path(
                        repository_id,
                        paths[i].as_str(),
                        found.id.as_str(),
                        semantic_layer,
                    ),
                );
            }
        }
        out
    }

    /// The queries for the points of the files that are no longer active. The rows go to
    /// `point_ids`.
    pub fn vector_point_ids_for_latest_generation_layer_missing_files(
        repository_id: &str,
        generation: &Option<SemanticGenerationRecord>,
        semantic_layer: SemanticLayer,
        existing: &Vec<String>,
        active_paths: &Vec<String>,
    ) -> (r: Vec<Statement>)
        ensures
            ({
                let queries = point_queries(
                    repository_id@,
                    *generation,
                    semantic_layer,
                    missing_of(texts(existing@), texts(active_paths@)),
                );
                &&& r@.len() == queries.len()
                &&& forall|i: int| 0 <= i < r@.len() ==> (#[trigger] r@[i])@ == queries[i]
            }),
    {
        let missing = missing_paths(existing, active_paths);
        SqliteStore::vector_point_ids_for_latest_generation_layer_paths(
            repository_id,
            generation,
            semantic_layer,
            &missing,
        )
    }

    /// The first step of the routing summary of a repository: its latest generation.
    pub fn semantic_routing_summary(repository_id: &str) -> (r: Statement)
        ensures
            r@ == latest_semantic_generation_spec(repository_id@),
    {
        SqliteStore::latest_semantic_generation(repository_id)
    }

    /// The first step of the routing summary of a ref: its generation.
    pub fn semantic_routing_summary_for_ref(repository_id: &str, repository_ref_id: &str) -> (r:
        Statement)
        ensures
            r@ == latest_semantic_generation_for_ref_spec(repository_id@, repository_ref_id@),
    {
        SqliteStore::latest_semantic_generation_for_ref(repository_id, repository_ref_id)
    }
}

/// The parts whose stable id identifies an embedding.
pub open spec fn embedding_id_parts(
    repository_id: Seq<char>,
    generation_id: Seq<char>,
    chunk_id: Seq<char>,
    layer: Seq<char>,
    model: Seq<char>,
    dimension: usize,
) -> Seq<Seq<char>> {
    seq![
        "chunk-embedding"@,
        repository_id,
        generation_id,
        chunk_id,
        layer,
        model,
        decimal_digits(dimension as nat),
    ]
}

/// The queries for the points of the files at `paths`, one for each path.
pub open spec fn point_queries(
    repository_id: Seq<char>,
    generation: Option<SemanticGenerationRecord>,
    layer: SemanticLayer,
    paths: Seq<Seq<char>>,
) -> Seq<StatementView> {
    match generation {
        Some(g) => Seq::new(
            paths.len(),
            |i: int| vector_point_ids_at_path_spec(repository_id, paths[i], g.id@, layer),
        ),
        None => Seq::empty(),
    }
}

/// The points that rows hold: ascending and each once, or the error of the first row that cannot
/// be read.
pub fn point_ids(rows: &Vec<Row>) -> (r: Result<Vec<String>, StoreError>)
    ensures
        match rows_fault::<String>(rows@) {
            Some(fault) => r matches Err(e) && is_fault(e, fault),
            None => r matches Ok(ids) && strictly_ascending(texts(ids@)) && forall|s: Seq<char>|
                texts(ids@).contains(s) <==> texts(all_of::<String>(rows@)).contains(s),
        },
{
    match collect_rows::<String>(rows) {
        Ok(list) => Ok(ascending_set(&list)),
        Err(error) => Err(error),
    }
}

/// The chunks of a list of entries.
pub open spec fn chunks_of(entries: Seq<FastEmbeddingManifestRecord>) -> Seq<Seq<char>> {
    Seq::new(entries.len(), |i: int| entries[i].chunk_id@)
}

/// The last entry for a chunk.
pub open spec fn latest_entry(
    entries: Seq<FastEmbeddingManifestRecord>,
    chunk: Seq<char>,
) -> Option<FastEmbeddingManifestRecord>
    decreases entries.len(),
{
    if entries.len() == 0 {
        None
    } else if entries.last().chunk_id@ == chunk {
        Some(entries.last())
    } else {
        latest_entry(entries.drop_last(), chunk)
    }
}

/// `manifest` holds one entry for each chunk that `entries` speak of, the last one, ascending by
/// chunk.
pub open spec fn is_manifest(
    manifest: Seq<FastEmbeddingManifestRecord>,
    entries: Seq<FastEmbeddingManifestRecord>,
) -> bool {
    &&& strictly_ascending(chunks_of(manifest))
    &&& forall|i: int|
        0 <= i < manifest.len() ==> latest_entry(entries, (#[trigger] manifest[i]).chunk_id@)
            == Some(manifest[i])
    &&& forall|chunk: Seq<char>|
        #![trigger latest_entry(entries, chunk)]
        latest_entry(entries, chunk) is Some ==> chunks_of(manifest).contains(chunk)
}

/// Entries have exactly one manifest.
pub proof fn law_manifests_are_unique(
    a: Seq<FastEmbeddingManifestRecord>,
    b: Seq<FastEmbeddingManifestRecord>,
    entries: Seq<FastEmbeddingManifestRecord>,
)
    requires
        is_manifest(a, entries),
        is_manifest(b, entries),
    ensures
        a == b,
{
    assert forall|chunk: Seq<char>| chunks_of(a).contains(chunk) <==> chunks_of(b).contains(
        chunk,
    ) by {
        if chunks_of(a).contains(chunk) {
            let i = choose|i: int| 0 <= i < a.len() && chunks_of(a)[i] == chunk;
            assert(latest_entry(entries, a[i].chunk_id@) is Some);
        }
        if chunks_of(b).contains(chunk) {
            let i = choose|i: int| 0 <= i < b.len() && chunks_of(b)[i] == chunk;
            assert(latest_entry(entries, b[i].chunk_id@) is Some);
        }
    }
    lemma_ascending_unique(chunks_of(a), chunks_of(b));
    assert(a.len() == chunks_of(a).len());
    assert(b.len() == chunks_of(b).len());
    assert forall|i: int| 0 <= i < a.len() implies a[i] == b[i] by {
        assert(chunks_of(a)[i] == chunks_of(b)[i]);
        assert(latest_entry(entries, a[i].chunk_id@) == Some(a[i]));
        assert(latest_entry(entries, b[i].chunk_id@) == Some(b[i]));
    }
    assert(a =~= b);
}

fn copy_entry(entry: &FastEmbeddingManifestRecord) -> (r: FastEmbeddingManifestRecord)
    ensures
        r == *entry,
{
    FastEmbeddingManifestRecord {
        file_id: entry.file_id.clone(),
        chunk_id: entry.chunk_id.clone(),
        content_hash: entry.content_hash.clone(),
        text_hash: entry.text_hash.clone(),
        vector_point_id: entry.vector_point_id.clone(),
    }
}

/// A chunk of a manifest before, at or after another one.
proof fn lemma_entry_added(
    entries: Seq<FastEmbeddingManifestRecord>,
    entry: FastEmbeddingManifestRecord,
)
    ensures
        forall|chunk: Seq<char>| #[trigger]
            latest_entry(entries.push(entry), chunk) == (if entry.chunk_id@ == chunk {
                Some(entry)
            } else {
                latest_entry(entries, chunk)
            }),
{
    assert(entries.push(entry).drop_last() =~= entries);
}

/// Puts an entry into a manifest, in place of the one for the same chunk.
fn put_entry(
    manifest: &mut Vec<FastEmbeddingManifestRecord>,
    entry: FastEmbeddingManifestRecord,
    Ghost(entries): Ghost<Seq<FastEmbeddingManifestRecord>>,
)
    requires
        is_manifest(old(manifest)@, entries),
    ensures
        is_manifest(final(manifest)@, entries.push(entry)),
{
    let ghost before = manifest@;
    let ghost chunks = chunks_of(before);
    let ghost now_entries = entries.push(entry);
    let ghost chunk = entry.chunk_id@;
    let mut at: usize = 0;
    proof {
        lemma_entry_added(entries, entry);
    }
    while at < manifest.len()
        invariant
            at <= manifest.len(),
            manifest@ == before,
            before == old(manifest)@,
            chunks == chunks_of(before),
            chunk == entry.chunk_id@,
            now_entries == entries.push(entry),
            is_manifest(before, entries),
            forall|k: int| 0 <= k < at ==> precedes(#[trigger] chunks[k], chunk),
            forall|c: Seq<char>| #[trigger]
                latest_entry(now_entries, c) == (if chunk == c {
                    Some(entry)
                } else {
                    latest_entry(entries, c)
                }),
        ensures
            at == manifest.len() || precedes(chunk, chunks[at as int]),
        decreases manifest.len() - at,
    {
        match relate(manifest[at].chunk_id.as_str(), entry.chunk_id.as_str()) {
            Relation::Before => {
                at = at + 1;
            },
            Relation::Same => {
                let ghost gap = at as int;
                manifest[at] = entry;
                proof {
                    let now = manifest@;
                    assert(now =~= before.update(gap, entry));
                    assert(chunks_of(now) =~= chunks);
                    assert forall|i: int| 0 <= i < now.len() implies latest_entry(
                        now_entries,
                        (#[trigger] now[i]).chunk_id@,
                    ) == Some(now[i]) by {
                        if i != gap {
                            assert(now[i] == before[i]);
                            assert(chunks[i] != chunks[gap]) by {
                                if i < gap {
                                    lemma_precedes_asymmetric(chunks[i], chunks[gap]);
                                } else {
                                    lemma_precedes_asymmetric(chunks[gap], chunks[i]);
                                }
                            }
                        }
                    }
                    assert forall|c: Seq<char>|
                        #![trigger latest_entry(now_entries, c)]
                        latest_entry(now_entries, c) is Some implies chunks_of(now).contains(
                        c,
                    ) by {
                        if c == chunk {
                            assert(chunks[gap] == chunk);
                        } else {
                            assert(latest_entry(entries, c) is Some);
                        }
                    }
                }
                return ;
            },
            Relation::After => {
                break ;
            },
        }
    }
    let ghost gap = at as int;
    proof {
        assert forall|k: int| gap <= k < chunks.len() implies precedes(
            chunk,
            #[trigger] chunks[k],
        ) by {
            if k > gap {
                assert(precedes(chunks[gap], chunks[k]));
                lemma_precedes_transitive(chunk, chunks[gap], chunks[k]);
            }
        }
    }
    manifest.insert(at, entry);
    proof {
        let now = manifest@;
        assert(now =~= before.insert(gap, entry));
        let ids = chunks_of(now);
        assert(ids =~= chunks.insert(gap, chunk));
        assert forall|i: int, j: int| 0 <= i < j < ids.len() implies precedes(
            #[trigger] ids[i],
            #[trigger] ids[j],
        ) by {
            if j == gap {
                assert(precedes(chunks[i], chunk));
            } else if i == gap {
                assert(precedes(chunk, chunks[j - 1]));
            } else {
                let p = if i < gap { i } else { i - 1 };
                let q = if j < gap { j } else { j - 1 };
                assert(precedes(chunks[p], chunks[q]));
            }
        }
        assert forall|i: int| 0 <= i < now.len() implies latest_entry(
            now_entries,
            (#[trigger] now[i]).chunk_id@,
        ) == Some(now[i]) by {
            if i != gap {
                let p = if i < gap { i } else { i - 1 };
                assert(now[i] == before[p]);
                assert(chunks[p] != chunk) by {
                    if p < gap {
                        lemma_precedes_asymmetric(chunks[p], chunk);
                    } else {
                        lemma_precedes_asymmetric(chunk, chunks[p]);
                    }
                }
            }
        }
        lemma_insert_members(chunks, gap, chunk);
        assert forall|c: Seq<char>|
            #![trigger latest_entry(now_entries, c)]
            latest_entry(now_entries, c) is Some implies ids.contains(c) by {
            if c != chunk {
                assert(latest_entry(entries, c) is Some);
            }
        }
    }
}

/// The chunks of a new fast generation: those that are still current, and those that were
/// embedded just now, which take precedence.
pub fn fast_manifest(rows: &Vec<Row>, upserted: &Vec<FastEmbeddingManifestRecord>) -> (r: Result<
    Vec<FastEmbeddingManifestRecord>,
    StoreError,
>)
    ensures
        match rows_fault::<FastEmbeddingManifestRecord>(rows@) {
            Some(fault) => r matches Err(e) && is_fault(e, fault),
            None => r matches Ok(manifest) && is_manifest(
                manifest@,
                all_of::<FastEmbeddingManifestRecord>(rows@) + upserted@,
            ),
        },
{
    let list: Vec<FastEmbeddingManifestRecord> = match collect_rows(rows) {
        Ok(list) => list,
        Err(error) => {
            return Err(error);
        },
    };
    let mut manifest: Vec<FastEmbeddingManifestRecord> = Vec::new();
    let ghost known = list@;
    for i in 0..list.len()
        invariant
            known == list@,
            is_manifest(manifest@, known.take(i as int)),
    {
        put_entry(&mut manifest, copy_entry(&list[i]), Ghost(known.take(i as int)));
        proof {
            assert(known.take(i + 1) =~= known.take(i as int).push(known[i as int]));
        }
    }
    proof {
        assert(known.take(list@.len() as int) + upserted@.take(0) =~= known.take(
            list@.len() as int,
        ));
        assert(known.take(list@.len() as int) =~= known);
    }
    for i in 0..upserted.len()
        invariant
            is_manifest(manifest@, known + upserted@.take(i as int)),
    {
        put_entry(
            &mut manifest,
            copy_entry(&upserted[i]),
            Ghost(known + upserted@.take(i as int)),
        );
        proof {
            assert(known + upserted@.take(i + 1) =~= (known + upserted@.take(i as int)).push(
                upserted@[i as int],
            ));
        }
    }
    proof {
        assert(upserted@.take(upserted@.len() as int) =~= upserted@);
    }
    Ok(manifest)
}

/// An entry that was embedded just now replaces what was known of its chunk.
pub proof fn law_new_embeddings_take_precedence(
    known: Seq<FastEmbeddingManifestRecord>,
    upserted: Seq<FastEmbeddingManifestRecord>,
    manifest: Seq<FastEmbeddingManifestRecord>,
    chunk: Seq<char>,
)
    requires
        is_manifest(manifest, known + upserted),
        latest_entry(upserted, chunk) is Some,
    ensures
        manifest.contains(latest_entry(upserted, chunk)->Some_0),
{
    lemma_latest_of_both(known, upserted, chunk);
    let i = choose|i: int| 0 <= i < manifest.len() && chunks_of(manifest)[i] == chunk;
    assert(chunks_of(manifest).contains(chunk));
    assert(manifest[i].chunk_id@ == chunk);
    assert(latest_entry(known + upserted, manifest[i].chunk_id@) == Some(manifest[i]));
}

proof fn lemma_latest_of_both(
    known: Seq<FastEmbeddingManifestRecord>,
    upserted: Seq<FastEmbeddingManifestRecord>,
    chunk: Seq<char>,
)
    ensures
        latest_entry(known + upserted, chunk) == (match latest_entry(upserted, chunk) {
            Some(entry) => Some(entry),
            None => latest_entry(known, chunk),
        }),
    decreases upserted.len(),
{
    if upserted.len() == 0 {
        assert(known + upserted =~= known);
    } else {
        assert((known + upserted).drop_last() =~= known + upserted.drop_last());
        assert((known + upserted).last() == upserted.last());
        lemma_latest_of_both(known, upserted.drop_last(), chunk);
    }
}

/// What the entries of a manifest contribute to the id of its generation.
pub open spec fn manifest_parts(manifest: Seq<FastEmbeddingManifestRecord>) -> Seq<Seq<char>>
    decreases manifest.len(),
{
    if manifest.len() == 0 {
        Seq::empty()
    } else {
        manifest_parts(manifest.drop_last()) + seq![
            manifest.last().chunk_id@,
            manifest.last().content_hash@,
            manifest.last().text_hash@,
        ]
    }
}

/// The parts whose stable id identifies a fast generation.
pub open spec fn generation_id_parts(
    repository_id: Seq<char>,
    model: Seq<char>,
    dimension: usize,
    manifest: Seq<FastEmbeddingManifestRecord>,
) -> Seq<Seq<char>> {
    seq![
        "semantic-generation"@,
        repository_id,
        SemanticLayer::Fast.text(),
        model,
        decimal_digits(dimension as nat),
    ] + manifest_parts(manifest)
}

/// The parts whose stable id identifies a fast generation.
pub fn fast_semantic_generation_id(
    repository_id: &str,
    fast_model: &str,
    fast_dimension: usize,
    manifest: &Vec<FastEmbeddingManifestRecord>,
) -> (r: Vec<String>)
    ensures
        texts(r@) == generation_id_parts(repository_id@, fast_model@, fast_dimension, manifest@),
{
    let mut parts = vec![
        "semantic-generation".to_owned(),
        repository_id.to_owned(),
        SemanticLayer::Fast.as_str().to_owned(),
        fast_model.to_owned(),
        decimal(fast_dimension as u128),
    ];
    let ghost head = generation_id_parts(repository_id@, fast_model@, fast_dimension, Seq::empty());
    proof {
        assert(texts(parts@) =~= head);
        assert(texts(parts@) =~= head + manifest_parts(manifest@.take(0)));
    }
    for i in 0..manifest.len()
        invariant
            texts(parts@) == head + manifest_parts(manifest@.take(i as int)),
    {
        let ghost before = texts(parts@);
        parts.push(manifest[i].chunk_id.clone());
        parts.push(manifest[i].content_hash.clone());
        parts.push(manifest[i].text_hash.clone());
        proof {
            let front = manifest@.take(i + 1);
            assert(front.drop_last() =~= manifest@.take(i as int));
            assert(front.last() == manifest@[i as int]);
            assert(texts(parts@) =~= before + seq![
                front.last().chunk_id@,
                front.last().content_hash@,
                front.last().text_hash@,
            ]);
            assert(texts(parts@) =~= head + manifest_parts(front));
        }
    }
    proof {
        assert(manifest@.take(manifest@.len() as int) =~= manifest@);
        assert(head + manifest_parts(manifest@) =~= generation_id_parts(
            repository_id@,
            fast_model@,
            fast_dimension,
            manifest@,
        ));
    }
    parts
}

/// The values of a new fast generation.
pub open spec fn fast_generation_values(
    input: FastSemanticGenerationInput,
    generation_id: Seq<char>,
    chunks: usize,
) -> Seq<Value> {
    seq![
        text(generation_id),
        text(input.repository_id@),
        text(input.fast_model@),
        count(input.fast_dimension),
        text(input.completed_at@),
        Value::Null,
        Value::Null,
        text(SemanticLayerStatus::FastReady.text()),
        Value::Null,
        Value::Null,
        text(SemanticLayer::Fast.text()),
        count(input.files_seen),
        count(chunks),
        count(chunks),
        count(0),
        text(input.completed_at@),
        text(input.completed_at@),
    ]
}

/// The values of an embedding of a new fast generation.
pub open spec fn fast_embedding_values(
    input: FastSemanticGenerationInput,
    generation_id: Seq<char>,
    id: Seq<char>,
    entry: FastEmbeddingManifestRecord,
    rowid: int,
) -> Seq<Value> {
    seq![
        text(id),
        text(input.repository_id@),
        text(entry.file_id@),
        text(entry.chunk_id@),
        text(SemanticLayer::Fast.text()),
        text(input.fast_model@),
        count(input.fast_dimension),
        text(entry.content_hash@),
        text(entry.text_hash@),
        text(input.vector_table@),
        text(entry.vector_point_id@),
        Value::Integer(rowid),
        text(generation_id),
        text(input.completed_at@),
        text("current"@),
    ]
}

/// The first entry from `from` on whose point has no row.
pub open spec fn rowless_entry(
    manifest: Seq<FastEmbeddingManifestRecord>,
    digests: Seq<Seq<char>>,
    from: int,
) -> Option<int>
    decreases manifest.len() - from,
{
    if from < 0 || from >= manifest.len() {
        None
    } else if rowid_of(manifest[from].vector_point_id@, digests[from]) is None {
        Some(from)
    } else {
        rowless_entry(manifest, digests, from + 1)
    }
}

/// The step that stores the embedding of an entry.
pub open spec fn entry_stored(
    input: FastSemanticGenerationInput,
    generation_id: Seq<char>,
    entry: FastEmbeddingManifestRecord,
    id: Seq<char>,
    digest: Seq<char>,
) -> CommandView {
    CommandView::Execute(
        statement_of(
            UPSERT_CHUNK_EMBEDDING,
            fast_embedding_values(
                input,
                generation_id,
                id,
                entry,
                rowid_of(entry.vector_point_id@, digest)->Some_0,
            ),
        ),
    )
}

/// The steps that store the embeddings of a manifest.
pub open spec fn entries_stored(
    input: FastSemanticGenerationInput,
    generation_id: Seq<char>,
    manifest: Seq<FastEmbeddingManifestRecord>,
    ids: Seq<Seq<char>>,
    digests: Seq<Seq<char>>,
) -> Seq<CommandView> {
    Seq::new(
        manifest.len(),
        |i: int| entry_stored(input, generation_id, manifest[i], ids[i], digests[i]),
    )
}

/// The step that stores a new fast generation.
pub open spec fn fast_generation_stored(
    input: FastSemanticGenerationInput,
    generation_id: Seq<char>,
    chunks: usize,
) -> CommandView {
    CommandView::Execute(
        StatementView {
            sql: fast_generation_sql(),
            params: fast_generation_values(input, generation_id, chunks),
        },
    )
}

/// The steps that ask for the embeddings of a new fast generation.
pub open spec fn manifest_steps(input: FastSemanticGenerationInput) -> Seq<CommandView> {
    seq![CommandView::Begin, CommandView::Query(current_fast_embeddings(input))]
}

/// The steps that store a fast generation and ask for it.
pub open spec fn store_script(
    input: FastSemanticGenerationInput,
    generation_id: Seq<char>,
    manifest: Seq<FastEmbeddingManifestRecord>,
    ids: Seq<Seq<char>>,
    digests: Seq<Seq<char>>,
) -> Seq<CommandView> {
    seq![fast_generation_stored(input, generation_id, manifest.len() as usize)] + entries_stored(
        input,
        generation_id,
        manifest,
        ids,
        digests,
    ) + seq![
        CommandView::Commit,
        CommandView::Query(latest_semantic_generation_spec(input.repository_id@)),
    ]
}

impl SqliteStore {
    /// The first steps of recording a fast generation. The rows go to `fast_manifest`.
    pub fn record_fast_semantic_generation(input: &FastSemanticGenerationInput) -> (r: Vec<Command>)
        ensures
            script(r@) == manifest_steps(*input),
    {
        let query = match input.repository_ref_id {
            Some(repository_ref_id) => SqliteStore::fast_embeddings_for_ref(
                input.repository_id,
                input.fast_model,
                input.fast_dimension,
                repository_ref_id,
            ),
            None => SqliteStore::fast_embeddings(
                input.repository_id,
                input.fast_model,
                input.fast_dimension,
            ),
        };
        let commands = vec![Command::Begin, Command::Query(query)];
        proof {
            assert(script(commands@) =~= manifest_steps(*input));
        }
        commands
    }

    /// The steps that store a fast generation with the given manifest; the last one asks for the
    /// latest generation, and its rows go to `recorded_generation`. `generation_id` is the stable
    /// id of the parts that `fast_semantic_generation_id` gives, `ids[i]` that of the parts that
    /// `chunk_embedding_id` gives for the entry `i`, and `digests[i]` that of the parts that
    /// `vector_rowid_parts` gives for its point.
    pub fn store_fast_generation(
        input: &FastSemanticGenerationInput,
        generation_id: &str,
        manifest: &Vec<FastEmbeddingManifestRecord>,
        ids: &Vec<String>,
        digests: &Vec<String>,
    ) -> (r: Result<Vec<Command>, StoreError>)
        requires
            ids@.len() == manifest@.len(),
            digests@.len() == manifest@.len(),
        ensures
            match rowless_entry(manifest@, texts(digests@), 0) {
                Some(i) => r matches Err(StoreError::InvalidPointId(id)) && id@
                    == manifest@[i].vector_point_id@,
                None => r matches Ok(commands) && script(commands@) == store_script(
                    *input,
                    generation_id@,
                    manifest@,
                    texts(ids@),
                    texts(digests@),
                ),
            },
    {
        let chunks = manifest.len();
        let params = vec![
            text_value(generation_id),
            text_value(input.repository_id),
            text_value(input.fast_model),
            count_value(input.fast_dimension),
            text_value(input.completed_at),
            SqlValue::Null,
            SqlValue::Null,
            text_value(SemanticLayerStatus::FastReady.as_str()),
            SqlValue::Null,
            SqlValue::Null,
            text_value(SemanticLayer::Fast.as_str()),
            count_value(input.files_seen),
            count_value(chunks),
            count_value(chunks),
            count_value(0),
            text_value(input.completed_at),
            text_value(input.completed_at),
        ];
        proof {
            assert(values(params@) =~= fast_generation_values(*input, generation_id@, chunks));
        }
        let upsert = Statement { sql: upsert_fast_generation(), params };
        let mut commands = vec![Command::Execute(upsert)];
        let ghost head = seq![fast_generation_stored(*input, generation_id@, chunks)];
        let ghost entries = entries_stored(
            *input,
            generation_id@,
            manifest@,
            texts(ids@),
            texts(digests@),
        );
        proof {
            assert(script(commands@) =~= head + entries.take(0));
        }
        for i in 0..manifest.len()
            invariant
                ids@.len() == manifest@.len(),
                digests@.len() == manifest@.len(),
                entries == entries_stored(
                    *input,
                    generation_id@,
                    manifest@,
                    texts(ids@),
                    texts(digests@),
                ),
                script(commands@) == head + entries.take(i as int),
                rowless_entry(manifest@, texts(digests@), 0) == rowless_entry(
                    manifest@,
                    texts(digests@),
                    i as int,
                ),
        {
            let entry = &manifest[i];
            let rowid = match vector_rowid(entry.vector_point_id.as_str(), digests[i].as_str()) {
                Ok(rowid) => rowid,
                Err(error) => {
                    return Err(error);
                },
            };
            proof {
                lemma_rowid_fits(entry.vector_point_id@, digests@[i as int]@);
            }
            let params = vec![
                owned_value(&ids[i]),
                text_value(input.repository_id),
                owned_value(&entry.file_id),
                owned_value(&entry.chunk_id),
                text_value(SemanticLayer::Fast.as_str()),
                text_value(input.fast_model),
                count_value(input.fast_dimension),
                owned_value(&entry.content_hash),
                owned_value(&entry.text_hash),
                text_value(input.vector_table),
                owned_value(&entry.vector_point_id),
                SqlValue::Integer(rowid),
                text_value(generation_id),
                text_value(input.completed_at),
                text_value("current"),
            ];
            proof {
                assert(values(params@) =~= fast_embedding_values(
                    *input,
                    generation_id@,
                    ids@[i as int]@,
                    manifest@[i as int],
                    rowid as int,
                ));
            }
            let ghost before = script(commands@);
            commands.push(Command::Execute(statement(UPSERT_CHUNK_EMBEDDING, params)));
            proof {
                assert(script(commands@) =~= before.push(entries[i as int]));
                assert(before.push(entries[i as int]) =~= head + entries.take(i + 1));
            }
        }
        let ghost before = script(commands@);
        commands.push(Command::Commit);
        commands.push(
            Command::Query(SqliteStore::latest_semantic_generation(input.repository_id)),
        );
        proof {
            assert(entries.take(manifest@.len() as int) =~= entries);
            assert(script(commands@) =~= before + seq![
                CommandView::Commit,
                CommandView::Query(latest_semantic_generation_spec(input.repository_id@)),
            ]);
        }
        Ok(commands)
    }

    /// The generation that was recorded: the latest one, which has to have the given id.
    pub fn recorded_generation(generation_id: &str, rows: &Vec<Row>) -> (r: Result<
        SemanticGenerationRecord,
        StoreError,
    >)
        ensures
            match first_fault::<SemanticGenerationRecord>(rows@) {
                Some(fault) => r matches Err(e) && is_fault(e, fault),
                None => if rows@.len() > 0 && SemanticGenerationRecord::of(rows@[0]@).id@
                    == generation_id@ {
                    r == Ok::<SemanticGenerationRecord, StoreError>(
                        SemanticGenerationRecord::of(rows@[0]@),
                    )
                } else {
                    r matches Err(e) && is_fault(
                        e,
                        Fault::Unexpected("recorded generation not found"@),
                    )
                },
            },
    {
        let found: Option<SemanticGenerationRecord> = match first_row(rows) {
            Ok(found) => found,
            Err(error) => {
                return Err(error);
            },
        };
        if let Some(record) = found {
            if same(record.id.as_str(), generation_id) {
                return Ok(record);
            }
        }
        Err(StoreError::UnexpectedResponse("recorded generation not found".to_owned()))
    }
}

/// The query for the fast embeddings that are current: of a ref, or of the repository.
pub open spec fn current_fast_embeddings(input: FastSemanticGenerationInput) -> StatementView {
    match input.repository_ref_id {
        Some(repository_ref_id) => fast_embeddings_for_ref_spec(
            input.repository_id@,
            input.fast_model@,
            input.fast_dimension,
            repository_ref_id@,
        ),
        None => fast_embeddings_spec(input.repository_id@, input.fast_model@, input.fast_dimension),
    }
}

/// A row of a vector table has a number of 64 bits.
pub proof fn lemma_rowid_fits(point_id: Seq<char>, digest: Seq<char>)
    ensures
        rowid_of(point_id, digest) matches Some(rowid) ==> 1 <= rowid <= i64::MAX,
{
    if let Some(value) = parsed_hex(rowid_source(point_id, digest)) {
        law_row_ids_are_positive(value);
    }
}

/// A fast generation and its embeddings are stored in one transaction.
pub proof fn law_fast_generations_are_stored_whole(
    input: FastSemanticGenerationInput,
    generation_id: Seq<char>,
    manifest: Seq<FastEmbeddingManifestRecord>,
    ids: Seq<Seq<char>>,
    digests: Seq<Seq<char>>,
)
    ensures
        is_transaction(
            manifest_steps(input) + store_script(input, generation_id, manifest, ids, digests),
        ),
{
    let steps = manifest_steps(input) + store_script(input, generation_id, manifest, ids, digests);
    assert(closes_at(steps, steps.len() - 2));
}

/// The first count of a layer that is no size.
pub open spec fn aggregate_fault(a: SemanticLayerManifestAggregate) -> Option<Fault> {
    if !is_size(a.embedding_dimension) {
        Some(negative("embedding dimension"@))
    } else if !is_size(a.current_chunks) {
        Some(negative("current chunk count"@))
    } else if !is_size(a.stale_chunks) {
        Some(negative("stale chunk count"@))
    } else if !is_size(a.blocked_chunks) {
        Some(negative("blocked chunk count"@))
    } else if !is_size(a.failed_chunks) {
        Some(negative("failed chunk count"@))
    } else if !is_size(a.other_chunks) {
        Some(negative("other chunk count"@))
    } else if !is_size(a.total_chunks) {
        Some(negative("total chunk count"@))
    } else {
        None
    }
}

/// `s` sums up the counts of a layer. The layer is complete where all its chunks are current and
/// as many as expected.
pub open spec fn sums_up(
    s: SemanticLayerManifestSummary,
    layer: SemanticLayer,
    expected: usize,
    a: SemanticLayerManifestAggregate,
) -> bool {
    &&& s.semantic_layer == layer
    &&& s.embedding_model@ == a.embedding_model@
    &&& s.embedding_dimension == a.embedding_dimension
    &&& s.vector_table@ == a.vector_table@
    &&& s.current_chunks == a.current_chunks
    &&& s.stale_chunks == a.stale_chunks
    &&& s.blocked_chunks == a.blocked_chunks
    &&& s.failed_chunks == a.failed_chunks
    &&& s.other_chunks == a.other_chunks
    &&& s.total_chunks == a.total_chunks
    &&& s.expected_chunks == expected
    &&& s.is_complete == (a.current_chunks == expected && a.total_chunks == expected
        && a.stale_chunks == 0 && a.blocked_chunks == 0 && a.failed_chunks == 0 && a.other_chunks
        == 0)
}

/// `s` sums up a layer without chunks, which is complete where none are expected.
pub open spec fn is_empty_layer(
    s: SemanticLayerManifestSummary,
    layer: SemanticLayer,
    expected: usize,
    model: Seq<char>,
    dimension: usize,
    table: Seq<char>,
) -> bool {
    &&& s.semantic_layer == layer
    &&& s.embedding_model@ == model
    &&& s.embedding_dimension == dimension
    &&& s.vector_table@ == table
    &&& s.current_chunks == 0
    &&& s.stale_chunks == 0
    &&& s.blocked_chunks == 0
    &&& s.failed_chunks == 0
    &&& s.other_chunks == 0
    &&& s.total_chunks == 0
    &&& s.expected_chunks == expected
    &&& s.is_complete == (expected == 0)
}

impl SemanticLayerManifestSummary {
    /// The summary of a layer without chunks.
    pub fn empty(
        semantic_layer: SemanticLayer,
        expected_chunks: usize,
        embedding_model: &str,
        embedding_dimension: usize,
        vector_table: String,
    ) -> (r: SemanticLayerManifestSummary)
        ensures
            is_empty_layer(
                r,
                semantic_layer,
                expected_chunks,
                embedding_model@,
                embedding_dimension,
                vector_table@,
            ),
    {
        SemanticLayerManifestSummary {
            semantic_layer,
            embedding_model: embedding_model.to_owned(),
            embedding_dimension,
            vector_table,
            current_chunks: 0,
            stale_chunks: 0,
            blocked_chunks: 0,
            failed_chunks: 0,
            other_chunks: 0,
            total_chunks: 0,
            expected_chunks,
            is_complete: expected_chunks == 0,
        }
    }

    /// The summary of a layer with the given counts.
    pub fn from_aggregate(
        semantic_layer: SemanticLayer,
        expected_chunks: usize,
        aggregate: SemanticLayerManifestAggregate,
    ) -> (r: Result<SemanticLayerManifestSummary, StoreError>)
        ensures
            match aggregate_fault(aggregate) {
                Some(fault) => r matches Err(e) && is_fault(e, fault),
                None => r matches Ok(s) && sums_up(s, semantic_layer, expected_chunks, aggregate),
            },
    {
        let embedding_dimension = match usize_count(
            aggregate.embedding_dimension,
            "embedding dimension",
        ) {
            Ok(n) => n,
            Err(error) => {
                return Err(error);
            },
        };
        let current_chunks = match usize_count(aggregate.current_chunks, "current chunk count") {
            Ok(n) => n,
            Err(error) => {
                return Err(error);
            },
        };
        let stale_chunks = match usize_count(aggregate.stale_chunks, "stale chunk count") {
            Ok(n) => n,
            Err(error) => {
                return Err(error);
            },
        };
        let blocked_chunks = match usize_count(aggregate.blocked_chunks, "blocked chunk count") {
            Ok(n) => n,
            Err(error) => {
                return Err(error);
            },
        };
        let failed_chunks = match usize_count(aggregate.failed_chunks, "failed chunk count") {
            Ok(n) => n,
            Err(error) => {
                return Err(error);
            },
        };
        let other_chunks = match usize_count(aggregate.other_chunks, "other chunk count") {
            Ok(n) => n,
            Err(error) => {
                return Err(error);
            },
        };
        let total_chunks = match usize_count(aggregate.total_chunks, "total chunk count") {
            Ok(n) => n,
            Err(error) => {
                return Err(error);
            },
        };
        let is_complete = current_chunks == expected_chunks && total_chunks == expected_chunks
            && stale_chunks == 0 && blocked_chunks == 0 && failed_chunks == 0 && other_chunks == 0;
        Ok(
            SemanticLayerManifestSummary {
                semantic_layer,
                embedding_model: aggregate.embedding_model,
                embedding_dimension,
                vector_table: aggregate.vector_table,
                current_chunks,
                stale_chunks,
                blocked_chunks,
                failed_chunks,
                other_chunks,
                total_chunks,
                expected_chunks,
                is_complete,
            },
        )
    }
}

/// A complete layer holds exactly the chunks that are expected, all of them current.
pub proof fn law_complete_layers_are_current(
    s: SemanticLayerManifestSummary,
    layer: SemanticLayer,
    expected: usize,
    a: SemanticLayerManifestAggregate,
)
    requires
        aggregate_fault(a) is None,
        sums_up(s, layer, expected, a),
        s.is_complete,
    ensures
        s.current_chunks == s.expected_chunks,
        s.total_chunks == s.current_chunks,
        s.stale_chunks + s.blocked_chunks + s.failed_chunks + s.other_chunks == 0,
{
}

/// What the database says about the layers of a generation.
pub struct RoutingFacts {
    /// The counts of the fast layer.
    pub fast: Vec<Row>,
    /// The progress of the quality layer.
    pub progress: QualityGenerationFacts,
    /// The counts of the quality layer.
    pub quality: Vec<Row>,
}

/// What is wrong with the counts of a layer.
pub open spec fn layer_fault(rows: Seq<Row>) -> Option<Fault> {
    match first_fault::<SemanticLayerManifestAggregate>(rows) {
        Some(fault) => Some(fault),
        None => if rows.len() == 0 {
            None
        } else {
            aggregate_fault(SemanticLayerManifestAggregate::of(rows[0]@))
        },
    }
}

/// `s` sums up the counts of a layer that may have none.
pub open spec fn is_layer_summary(
    s: SemanticLayerManifestSummary,
    rows: Seq<Row>,
    repository_id: Seq<char>,
    layer: SemanticLayer,
    expected: usize,
    model: Seq<char>,
    dimension: usize,
) -> bool {
    if rows.len() == 0 {
        is_empty_layer(s, layer, expected, model, dimension, table_name_of(repository_id, model))
    } else {
        sums_up(s, layer, expected, SemanticLayerManifestAggregate::of(rows[0]@))
    }
}

fn layer_summary(
    rows: &Vec<Row>,
    repository_id: &str,
    semantic_layer: SemanticLayer,
    embedding_model: &str,
    embedding_dimension: usize,
    expected_chunks: usize,
) -> (r: Result<SemanticLayerManifestSummary, StoreError>)
    ensures
        match layer_fault(rows@) {
            Some(fault) => r matches Err(e) && is_fault(e, fault),
            None => r matches Ok(s) && is_layer_summary(
                s,
                rows@,
                repository_id@,
                semantic_layer,
                expected_chunks,
                embedding_model@,
                embedding_dimension,
            ),
        },
{
    let found: Option<SemanticLayerManifestAggregate> = match first_row(rows) {
        Ok(found) => found,
        Err(error) => {
            return Err(error);
        },
    };
    match found {
        Some(aggregate) => SemanticLayerManifestSummary::from_aggregate(
            semantic_layer,
            expected_chunks,
            aggregate,
        ),
        None => Ok(
            SemanticLayerManifestSummary::empty(
                semantic_layer,
                expected_chunks,
                embedding_model,
                embedding_dimension,
                vector_table_name(repository_id, embedding_model),
            ),
        ),
    }
}

/// The first thing that keeps a generation from being summed up.
pub open spec fn routing_fault(g: SemanticGenerationRecord, facts: RoutingFacts) -> Option<Fault> {
    if SemanticLayer::named(g.active_layer@) is None {
        Some(Fault::Unexpected("invalid semantic layer"@))
    } else if SemanticLayerStatus::named(g.quality_status@) is None {
        Some(Fault::Unexpected("invalid semantic layer status"@))
    } else if layer_fault(facts.fast@) is Some {
        layer_fault(facts.fast@)
    } else if progress_fault(facts.progress) is Some {
        progress_fault(facts.progress)
    } else {
        layer_fault(facts.quality@)
    }
}

/// `s` tells which layer of a generation answers and how complete its layers are.
pub open spec fn is_routing(
    s: SemanticRoutingSummary,
    g: SemanticGenerationRecord,
    facts: RoutingFacts,
) -> bool {
    let expected = eligible_chunks(facts.progress);
    &&& s.repository_id@ == g.repository_id@
    &&& s.generation_id@ == g.id@
    &&& Some(s.active_layer) == SemanticLayer::named(g.active_layer@)
    &&& Some(s.quality_status) == SemanticLayerStatus::named(g.quality_status@)
    &&& s.embeddable_chunks == g.embeddable_chunks
    &&& s.fast_embedded_chunks == g.fast_embedded_chunks
    &&& s.quality_embedded_chunks == g.quality_embedded_chunks
    &&& is_layer_summary(
        s.fast,
        facts.fast@,
        g.repository_id@,
        SemanticLayer::Fast,
        g.embeddable_chunks,
        g.fast_model@,
        g.fast_dimension,
    )
    &&& match (g.quality_model, g.quality_dimension) {
        (Some(model), Some(dimension)) => s.quality is Some && is_layer_summary(
            s.quality->Some_0,
            facts.quality@,
            g.repository_id@,
            SemanticLayer::Quality,
            expected,
            model@,
            dimension,
        ),
        _ => if facts.quality@.len() == 0 {
            s.quality is None
        } else {
            s.quality is Some && sums_up(
                s.quality->Some_0,
                SemanticLayer::Quality,
                expected,
                SemanticLayerManifestAggregate::of(facts.quality@[0]@),
            )
        },
    }
}

impl SqliteStore {
    /// Which layer of a generation answers, and how complete its layers are. The facts are what
    /// `semantic_layer_manifest_aggregate` and `quality_generation_progress` ask for.
    pub fn semantic_routing_summary_for_generation(
        generation: &SemanticGenerationRecord,
        facts: &RoutingFacts,
    ) -> (r: Result<SemanticRoutingSummary, StoreError>)
        ensures
            match routing_fault(*generation, *facts) {
                Some(fault) => r matches Err(e) && is_fault(e, fault),
                None => r matches Ok(s) && is_routing(s, *generation, *facts),
            },
    {
        let active_layer = match SemanticLayer::parse(generation.active_layer.as_str()) {
            Some(layer) => layer,
            None => {
                return Err(StoreError::UnexpectedResponse("invalid semantic layer".to_owned()));
            },
        };
        let quality_status = match SemanticLayerStatus::parse(generation.quality_status.as_str()) {
            Some(status) => status,
            None => {
                return Err(
                    StoreError::UnexpectedResponse("invalid semantic layer status".to_owned()),
                );
            },
        };
        let fast = match layer_summary(
            &facts.fast,
            generation.repository_id.as_str(),
            SemanticLayer::Fast,
            generation.fast_model.as_str(),
            generation.fast_dimension,
            generation.embeddable_chunks,
        ) {
            Ok(summary) => summary,
            Err(error) => {
                return Err(error);
            },
        };
        let progress: QualityGenerationProgress = match quality_progress(
            generation.repository_id.as_str(),
            generation.id.as_str(),
            &facts.progress,
        ) {
            Ok(progress) => progress,
            Err(error) => {
                return Err(error);
            },
        };
        let expected = progress.quality_eligible_chunks;
        let quality = match (&generation.quality_model, generation.quality_dimension) {
            (Some(model), Some(dimension)) => {
                match layer_summary(
                    &facts.quality,
                    generation.repository_id.as_str(),
                    SemanticLayer::Quality,
                    model.as_str(),
                    dimension,
                    expected,
                ) {
                    Ok(summary) => Some(summary),
                    Err(error) => {
                        return Err(error);
                    },
                }
            },
            _ => {
                let found: Option<SemanticLayerManifestAggregate> = match first_row(
                    &facts.quality,
                ) {
                    Ok(found) => found,
                    Err(error) => {
                        return Err(error);
                    },
                };
                match found {
                    Some(aggregate) => {
                        match SemanticLayerManifestSummary::from_aggregate(
                            SemanticLayer::Quality,
                            expected,
                            aggregate,
                        ) {
                            Ok(summary) => Some(summary),
                            Err(error) => {
                                return Err(error);
                            },
                        }
                    },
                    None => None,
                }
            },
        };
        Ok(
            SemanticRoutingSummary {
                repository_id: generation.repository_id.clone(),
                generation_id: generation.id.clone(),
                active_layer,
                quality_status,
                embeddable_chunks: generation.embeddable_chunks,
                fast_embedded_chunks: generation.fast_embedded_chunks,
                quality_embedded_chunks: generation.quality_embedded_chunks,
                fast,
                quality,
            },
        )
    }
}

} // verus!
