//! The quality layer: its jobs, its progress, and when it becomes active.

use vstd::prelude::*;
use crate::error::{is_fault, Fault, StoreError};
use crate::generations::{
    lemma_rowid_fits, upsert_embedding_spec, UPSERT_CHUNK_EMBEDDING, UPSERT_SEMANTIC_GENERATION,
};
use crate::layers::{SemanticLayer, SemanticLayerStatus};
use crate::naming::{rowid_of, vector_rowid};
use crate::records::{
    QualityActivationReason, QualityActivationSummary, QualityCarryForwardSummary,
    QualityEmbeddingJobRecord, QualityGenerationProgress, QualityJobCompletion,
    QualityQueueSummary, SemanticGenerationRecord,
};
use crate::rows::{CarriedRow, StatusCount, UnembeddedRow};
use crate::sql::{
    all_of, closes_at, collect_only_rows, collect_rows, count, count_value, counted, is_size,
    is_transaction, lemma_mismatch, lemma_size_round_trip, mismatch, negative, only_fault,
    only_faults, only_row, only_values, optional, optional_count, optional_count_value,
    optional_owned, optional_owned_value, optional_text_value, owned_value, rows_fault, script,
    statement, statement_of, text, text_value, unfit, usize_count, values, Command, CommandView,
    FromRow, Row, SqlValue, Statement, StatementView, Value,
};
use crate::store::SqliteStore;
use crate::text::{optional_str, same, texts};

verus! {

pub const UPSERT_QUALITY_EMBEDDING_JOB: &'static str = "INSERT INTO quality_embedding_jobs (
      id, repository_id, generation_id, chunk_id, file_id, path,
      content_hash, text_hash, status, attempts, error_summary,
      created_at, updated_at
    )
    VALUES (?1, ?2, ?3, ?4, ?5, ?6, ?7, ?8, ?9, ?10, ?11, ?12, ?13)
    ON CONFLICT(repository_id, generation_id, chunk_id) DO UPDATE SET
      id = excluded.id,
      file_id = excluded.file_id,
      path = excluded.path,
      content_hash = excluded.content_hash,
      text_hash = excluded.text_hash,
      status = excluded.status,
      attempts = excluded.attempts,
      error_summary = excluded.error_summary,
      updated_at = excluded.updated_at";

pub const MARK_SUPERSEDED_QUALITY_JOBS_STALE: &'static str = "UPDATE quality_embedding_jobs
    SET status = 'skipped_stale', updated_at = ?3
    WHERE repository_id = ?1
      AND generation_id != ?2
      AND status IN ('pending', 'running')";

pub const CARRIED_EMBEDDINGS: &'static str =
    "SELECT fast.file_id, fast.chunk_id, fast.content_hash, fast.text_hash,
           quality.embedding_dimension, quality.vector_table,
           quality.vector_point_id, quality.embedded_at
    FROM chunk_embeddings AS fast
    JOIN chunk_embeddings AS quality
      ON quality.repository_id = fast.repository_id
     AND quality.chunk_id = fast.chunk_id
     AND quality.semantic_layer = 'quality'
     AND quality.embedding_model = ?3
     AND quality.content_hash = fast.content_hash
     AND quality.text_hash = fast.text_hash
     AND quality.status = 'current'
    WHERE fast.repository_id = ?1
      AND fast.generation_id = ?2
      AND fast.semantic_layer = 'fast'
      AND fast.status = 'current'
    ORDER BY fast.chunk_id";

pub const QUALITY_EMBEDDING_JOBS_FOR_FAST_GENERATION: &'static str =
    "SELECT embeddings.file_id, embeddings.chunk_id, files.path,
           embeddings.content_hash, embeddings.text_hash
    FROM chunk_embeddings AS embeddings
    JOIN files
      ON files.id = embeddings.file_id
     AND files.repository_id = embeddings.repository_id
    LEFT JOIN chunk_embeddings AS quality
      ON quality.repository_id = embeddings.repository_id
     AND quality.generation_id = embeddings.generation_id
     AND quality.chunk_id = embeddings.chunk_id
     AND quality.semantic_layer = 'quality'
     AND quality.embedding_model = ?3
     AND quality.content_hash = embeddings.content_hash
     AND quality.text_hash = embeddings.text_hash
     AND quality.status = 'current'
    WHERE embeddings.repository_id = ?1
      AND embeddings.generation_id = ?2
      AND embeddings.semantic_layer = 'fast'
      AND embeddings.status = 'current'
      AND quality.chunk_id IS NULL
    ORDER BY files.path, embeddings.chunk_id";

pub const QUALITY_JOBS_BY_STATUS: &'static str =
    "SELECT id, repository_id, generation_id, chunk_id, file_id, path,
           content_hash, text_hash, status, attempts, error_summary,
           created_at, updated_at
    FROM quality_embedding_jobs
    WHERE repository_id = ?1
      AND generation_id = ?2
      AND status = ?3
    ORDER BY updated_at, id";

pub const PENDING_QUALITY_JOBS: &'static str = "SELECT id
    FROM quality_embedding_jobs
    WHERE repository_id = ?1
      AND generation_id = ?2
      AND status = 'pending'
    ORDER BY updated_at, id
    LIMIT ?3";

pub const CLAIM_QUALITY_JOB: &'static str = "UPDATE quality_embedding_jobs
    SET status = 'running', attempts = attempts + 1, updated_at = ?2
    WHERE id = ?1
      AND status = 'pending'";

pub const QUALITY_JOB: &'static str =
    "SELECT id, repository_id, generation_id, chunk_id, file_id, path,
           content_hash, text_hash, status, attempts, error_summary,
           created_at, updated_at
    FROM quality_embedding_jobs
    WHERE id = ?1";

pub const REQUEUE_CURRENT_TERMINAL_QUALITY_EMBEDDING_JOBS: &'static str =
    "UPDATE quality_embedding_jobs
      SET status = 'pending',
          error_summary = NULL,
          updated_at = ?3
    WHERE repository_id = ?1
      AND generation_id = ?2
      AND (
          status = 'skipped_stale'
          OR (
              status = 'failed'
              AND error_summary LIKE 'SQLite error: database is locked%'
          )
      )
      AND EXISTS (
          SELECT 1
            FROM chunk_embeddings AS fast
           WHERE fast.repository_id = quality_embedding_jobs.repository_id
             AND fast.generation_id = quality_embedding_jobs.generation_id
             AND fast.file_id = quality_embedding_jobs.file_id
             AND fast.chunk_id = quality_embedding_jobs.chunk_id
             AND fast.semantic_layer = 'fast'
             AND fast.status = 'current'
             AND fast.content_hash = quality_embedding_jobs.content_hash
             AND fast.text_hash = quality_embedding_jobs.text_hash
      )
      AND NOT EXISTS (
          SELECT 1
            FROM chunk_embeddings AS quality
           WHERE quality.repository_id = quality_embedding_jobs.repository_id
             AND quality.generation_id = quality_embedding_jobs.generation_id
             AND quality.chunk_id = quality_embedding_jobs.chunk_id
             AND quality.semantic_layer = 'quality'
             AND quality.content_hash = quality_embedding_jobs.content_hash
             AND quality.text_hash = quality_embedding_jobs.text_hash
             AND quality.status = 'current'
      )";

pub const QUALITY_JOB_SOURCE_ROW: &'static str =
    "SELECT jobs.id, jobs.repository_id, jobs.generation_id, jobs.chunk_id,
           jobs.file_id, jobs.path, jobs.content_hash, jobs.text_hash,
           jobs.status, jobs.attempts, jobs.error_summary,
           jobs.created_at, jobs.updated_at,
           files.id, files.content_hash, files.language,
           chunks.kind, chunks.text_hash, chunks.start_line, chunks.end_line,
           chunks.start_byte, chunks.end_byte, chunks.excluded_reason,
           chunks.symbol_id, symbols.name, chunks.index_run_id,
           chunks.parser_version
    FROM quality_embedding_jobs AS jobs
    LEFT JOIN files
      ON files.id = jobs.file_id
     AND files.repository_id = jobs.repository_id
     AND files.path = jobs.path
    LEFT JOIN chunks
      ON chunks.id = jobs.chunk_id
     AND chunks.file_id = files.id
    LEFT JOIN symbols
      ON symbols.id = chunks.symbol_id
    WHERE jobs.id = ?1";

pub const MARK_QUALITY_JOB_SUCCEEDED: &'static str = "UPDATE quality_embedding_jobs
    SET status = 'succeeded', error_summary = NULL, updated_at = ?2
    WHERE id = ?1";

pub const MARK_QUALITY_JOB_FAILED: &'static str = "UPDATE quality_embedding_jobs
    SET status = 'failed', error_summary = ?2, updated_at = ?3
    WHERE id = ?1";

pub const MARK_QUALITY_JOB_STALE: &'static str = "UPDATE quality_embedding_jobs
    SET status = 'skipped_stale', error_summary = NULL, updated_at = ?2
    WHERE id = ?1";

pub const MARK_QUALITY_JOB_EXCLUDED: &'static str = "UPDATE quality_embedding_jobs
    SET status = 'skipped_excluded', error_summary = ?2, updated_at = ?3
    WHERE id = ?1";

pub const EMBEDDABLE_CHUNKS: &'static str = "SELECT embeddable_chunks
    FROM semantic_generations
    WHERE repository_id = ?1
      AND id = ?2";

pub const CURRENT_QUALITY_EMBEDDINGS: &'static str = "SELECT COUNT(*)
     FROM chunk_embeddings AS quality
    WHERE quality.repository_id = ?1
        AND quality.generation_id = ?2
        AND quality.semantic_layer = 'quality'
        AND quality.status = 'current'
        AND EXISTS (
                SELECT 1
                    FROM chunk_embeddings AS fast
                 WHERE fast.repository_id = quality.repository_id
             AND fast.generation_id = quality.generation_id
             AND fast.file_id = quality.file_id
             AND fast.chunk_id = quality.chunk_id
             AND fast.semantic_layer = 'fast'
             AND fast.status = 'current'
             AND fast.content_hash = quality.content_hash
             AND fast.text_hash = quality.text_hash
        )";

pub const QUALITY_JOB_COUNTS: &'static str = "SELECT jobs.status, COUNT(*)
     FROM quality_embedding_jobs AS jobs
    WHERE jobs.repository_id = ?1
        AND jobs.generation_id = ?2
        AND EXISTS (
                SELECT 1
                    FROM chunk_embeddings AS fast
                 WHERE fast.repository_id = jobs.repository_id
             AND fast.generation_id = jobs.generation_id
             AND fast.file_id = jobs.file_id
             AND fast.chunk_id = jobs.chunk_id
             AND fast.semantic_layer = 'fast'
             AND fast.status = 'current'
             AND fast.content_hash = jobs.content_hash
             AND fast.text_hash = jobs.text_hash
        )
    GROUP BY jobs.status";

pub const LATEST_QUALITY_GENERATION_ERROR: &'static str = "SELECT error_summary
    FROM quality_embedding_jobs
    WHERE repository_id = ?1
      AND generation_id = ?2
      AND error_summary IS NOT NULL
    ORDER BY updated_at DESC, id DESC
    LIMIT 1";

pub const OPEN_QUALITY_JOBS: &'static str = "SELECT COUNT(*)
    FROM quality_embedding_jobs
    WHERE repository_id = ?1
      AND generation_id = ?2
      AND status IN ('pending', 'running')";

pub const FAILED_QUALITY_JOBS: &'static str = "SELECT COUNT(*)
    FROM quality_embedding_jobs
    WHERE repository_id = ?1
      AND generation_id = ?2
      AND status = 'failed'";

pub const UPDATE_FAILED_WITH_DIMENSION: &'static str = "UPDATE semantic_generations
    SET quality_dimension = COALESCE(quality_dimension, ?3),
        quality_started_at = COALESCE(quality_started_at, ?4),
        quality_embedded_chunks = ?5,
        quality_status = ?6,
        active_layer = 'fast',
        updated_at = ?4
    WHERE repository_id = ?1
      AND id = ?2";

pub const UPDATE_WITH_DIMENSION: &'static str = "UPDATE semantic_generations
    SET quality_dimension = COALESCE(quality_dimension, ?3),
        quality_started_at = COALESCE(quality_started_at, ?4),
        quality_embedded_chunks = ?5,
        active_layer = 'fast',
        updated_at = ?4
    WHERE repository_id = ?1
      AND id = ?2";

pub const UPDATE_FAILED: &'static str = "UPDATE semantic_generations
    SET quality_embedded_chunks = ?3,
        quality_status = ?4,
        active_layer = 'fast',
        updated_at = ?5
    WHERE repository_id = ?1
      AND id = ?2";

pub const UPDATE_PROGRESS: &'static str = "UPDATE semantic_generations
    SET quality_embedded_chunks = ?3,
        active_layer = 'fast',
        updated_at = ?4
    WHERE repository_id = ?1
      AND id = ?2";

pub const SEMANTIC_GENERATION: &'static str =
    "SELECT id, repository_id, fast_model, fast_dimension, fast_completed_at,
           quality_model, quality_dimension, quality_status, quality_started_at,
           quality_completed_at, active_layer, files_seen, embeddable_chunks,
           fast_embedded_chunks, quality_embedded_chunks, created_at, updated_at
    FROM semantic_generations
    WHERE repository_id = ?1
      AND id = ?2";

pub const LATEST_SEMANTIC_GENERATION_ID: &'static str = "SELECT id
    FROM semantic_generations
    WHERE repository_id = ?1
    ORDER BY fast_completed_at DESC, created_at DESC, id DESC
    LIMIT 1";

pub const UPDATE_ACTIVATION: &'static str = "UPDATE semantic_generations
    SET quality_dimension = COALESCE(quality_dimension, ?3),
        quality_started_at = CASE
          WHEN ?3 IS NOT NULL THEN COALESCE(quality_started_at, ?4)
          ELSE quality_started_at
        END,
        quality_embedded_chunks = ?5,
        quality_status = ?6,
        quality_completed_at = ?7,
        active_layer = ?8,
        updated_at = ?4
    WHERE repository_id = ?1
      AND id = ?2";

/// The reading of `mark_superseded_quality_jobs_stale`.
pub open spec fn mark_superseded_quality_jobs_stale_spec(
    repository_id: Seq<char>,
    current_generation_id: Seq<char>,
    updated_at: Seq<char>,
) -> StatementView {
    statement_of(
        MARK_SUPERSEDED_QUALITY_JOBS_STALE,
        seq![
            text(repository_id),
            text(current_generation_id),
            text(updated_at),
        ],
    )
}

/// The reading of `carried_embeddings`.
pub open spec fn carried_embeddings_spec(
    repository_id: Seq<char>,
    generation_id: Seq<char>,
    quality_model: Seq<char>,
) -> StatementView {
    statement_of(
        CARRIED_EMBEDDINGS,
        seq![
            text(repository_id),
            text(generation_id),
            text(quality_model),
        ],
    )
}

/// The reading of `quality_embedding_jobs_for_fast_generation`.
pub open spec fn quality_embedding_jobs_for_fast_generation_spec(
    repository_id: Seq<char>,
    generation_id: Seq<char>,
    quality_model: Seq<char>,
) -> StatementView {
    statement_of(
        QUALITY_EMBEDDING_JOBS_FOR_FAST_GENERATION,
        seq![
            text(repository_id),
            text(generation_id),
            text(quality_model),
        ],
    )
}

/// The reading of `quality_jobs_by_status`.
pub open spec fn quality_jobs_by_status_spec(
    repository_id: Seq<char>,
    generation_id: Seq<char>,
    status: Seq<char>,
) -> StatementView {
    statement_of(
        QUALITY_JOBS_BY_STATUS,
        seq![
            text(repository_id),
            text(generation_id),
            text(status),
        ],
    )
}

/// The reading of `pending_quality_jobs`.
pub open spec fn pending_quality_jobs_spec(
    repository_id: Seq<char>,
    generation_id: Seq<char>,
    limit: usize,
) -> StatementView {
    statement_of(
        PENDING_QUALITY_JOBS,
        seq![
            text(repository_id),
            text(generation_id),
            count(limit),
        ],
    )
}

/// The reading of `claim_quality_job`.
pub open spec fn claim_quality_job_spec(id: Seq<char>, claimed_at: Seq<char>) -> StatementView {
    statement_of(CLAIM_QUALITY_JOB, seq![text(id), text(claimed_at)])
}

/// The reading of `quality_job`.
pub open spec fn quality_job_spec(id: Seq<char>) -> StatementView {
    statement_of(QUALITY_JOB, seq![text(id)])
}

/// The reading of `requeue_current_terminal_quality_embedding_jobs`.
pub open spec fn requeue_current_terminal_quality_embedding_jobs_spec(
    repository_id: Seq<char>,
    generation_id: Seq<char>,
    requeued_at: Seq<char>,
) -> StatementView {
    statement_of(
        REQUEUE_CURRENT_TERMINAL_QUALITY_EMBEDDING_JOBS,
        seq![
            text(repository_id),
            text(generation_id),
            text(requeued_at),
        ],
    )
}

/// The reading of `quality_job_source_row`.
pub open spec fn quality_job_source_row_spec(job_id: Seq<char>) -> StatementView {
    statement_of(QUALITY_JOB_SOURCE_ROW, seq![text(job_id)])
}

/// The reading of `mark_quality_job_succeeded`.
pub open spec fn mark_quality_job_succeeded_spec(
    job_id: Seq<char>,
    completed_at: Seq<char>,
) -> StatementView {
    statement_of(MARK_QUALITY_JOB_SUCCEEDED, seq![text(job_id), text(completed_at)])
}

/// The reading of `mark_quality_job_failed`.
pub open spec fn mark_quality_job_failed_spec(
    job_id: Seq<char>,
    error_summary: Seq<char>,
    completed_at: Seq<char>,
) -> StatementView {
    statement_of(
        MARK_QUALITY_JOB_FAILED,
        seq![
            text(job_id),
            text(error_summary),
            text(completed_at),
        ],
    )
}

/// The reading of `mark_quality_job_stale`.
pub open spec fn mark_quality_job_stale_spec(
    job_id: Seq<char>,
    completed_at: Seq<char>,
) -> StatementView {
    statement_of(MARK_QUALITY_JOB_STALE, seq![text(job_id), text(completed_at)])
}

/// The reading of `mark_quality_job_excluded`.
pub open spec fn mark_quality_job_excluded_spec(
    job_id: Seq<char>,
    reason: Seq<char>,
    completed_at: Seq<char>,
) -> StatementView {
    statement_of(MARK_QUALITY_JOB_EXCLUDED, seq![text(job_id), text(reason), text(completed_at)])
}

/// The reading of `embeddable_chunks`.
pub open spec fn embeddable_chunks_spec(
    repository_id: Seq<char>,
    generation_id: Seq<char>,
) -> StatementView {
    statement_of(EMBEDDABLE_CHUNKS, seq![text(repository_id), text(generation_id)])
}

/// The reading of `current_quality_embeddings`.
pub open spec fn current_quality_embeddings_spec(
    repository_id: Seq<char>,
    generation_id: Seq<char>,
) -> StatementView {
    statement_of(CURRENT_QUALITY_EMBEDDINGS, seq![text(repository_id), text(generation_id)])
}

/// The reading of `quality_job_counts`.
pub open spec fn quality_job_counts_spec(
    repository_id: Seq<char>,
    generation_id: Seq<char>,
) -> StatementView {
    statement_of(QUALITY_JOB_COUNTS, seq![text(repository_id), text(generation_id)])
}

/// The reading of `latest_quality_generation_error`.
pub open spec fn latest_quality_generation_error_spec(
    repository_id: Seq<char>,
    generation_id: Seq<char>,
) -> StatementView {
    statement_of(LATEST_QUALITY_GENERATION_ERROR, seq![text(repository_id), text(generation_id)])
}

/// The reading of `open_quality_jobs`.
pub open spec fn open_quality_jobs_spec(
    repository_id: Seq<char>,
    generation_id: Seq<char>,
) -> StatementView {
    statement_of(OPEN_QUALITY_JOBS, seq![text(repository_id), text(generation_id)])
}

/// The reading of `failed_quality_jobs`.
pub open spec fn failed_quality_jobs_spec(
    repository_id: Seq<char>,
    generation_id: Seq<char>,
) -> StatementView {
    statement_of(FAILED_QUALITY_JOBS, seq![text(repository_id), text(generation_id)])
}

/// The reading of `update_failed_with_dimension`.
pub open spec fn update_failed_with_dimension_spec(
    repository_id: Seq<char>,
    generation_id: Seq<char>,
    dimension: usize,
    updated_at: Seq<char>,
    embedded: i64,
    status: Seq<char>,
) -> StatementView {
    statement_of(
        UPDATE_FAILED_WITH_DIMENSION,
        seq![
            text(repository_id),
            text(generation_id),
            count(dimension),
            text(updated_at),
            Value::Integer(embedded as int),
            text(status),
        ],
    )
}

/// The reading of `update_with_dimension`.
pub open spec fn update_with_dimension_spec(
    repository_id: Seq<char>,
    generation_id: Seq<char>,
    dimension: usize,
    updated_at: Seq<char>,
    embedded: i64,
) -> StatementView {
    statement_of(
        UPDATE_WITH_DIMENSION,
        seq![
            text(repository_id),
            text(generation_id),
            count(dimension),
            text(updated_at),
            Value::Integer(embedded as int),
        ],
    )
}

/// The reading of `update_failed`.
pub open spec fn update_failed_spec(
    repository_id: Seq<char>,
    generation_id: Seq<char>,
    embedded: i64,
    status: Seq<char>,
    updated_at: Seq<char>,
) -> StatementView {
    statement_of(
        UPDATE_FAILED,
        seq![
            text(repository_id),
            text(generation_id),
            Value::Integer(embedded as int),
            text(status),
            text(updated_at),
        ],
    )
}

/// The reading of `update_progress`.
pub open spec fn update_progress_spec(
    repository_id: Seq<char>,
    generation_id: Seq<char>,
    embedded: i64,
    updated_at: Seq<char>,
) -> StatementView {
    statement_of(
        UPDATE_PROGRESS,
        seq![
            text(repository_id),
            text(generation_id),
            Value::Integer(embedded as int),
            text(updated_at),
        ],
    )
}

/// The reading of `semantic_generation`.
pub open spec fn semantic_generation_spec(
    repository_id: Seq<char>,
    generation_id: Seq<char>,
) -> StatementView {
    statement_of(SEMANTIC_GENERATION, seq![text(repository_id), text(generation_id)])
}

/// The reading of `latest_semantic_generation_id`.
pub open spec fn latest_semantic_generation_id_spec(repository_id: Seq<char>) -> StatementView {
    statement_of(LATEST_SEMANTIC_GENERATION_ID, seq![text(repository_id)])
}

/// The reading of `update_activation`.
pub open spec fn update_activation_spec(
    repository_id: Seq<char>,
    generation_id: Seq<char>,
    dimension: Option<usize>,
    updated_at: Seq<char>,
    embedded: usize,
    status: Seq<char>,
    completed_at: Option<Seq<char>>,
    layer: Seq<char>,
) -> StatementView {
    statement_of(
        UPDATE_ACTIVATION,
        seq![
            text(repository_id),
            text(generation_id),
            optional_count(dimension),
            text(updated_at),
            count(embedded),
            text(status),
            optional(completed_at),
            text(layer),
        ],
    )
}

impl SqliteStore {
    /// Marks the open jobs of other generations as stale.
    pub fn mark_superseded_quality_jobs_stale(
        repository_id: &str,
        current_generation_id: &str,
        updated_at: &str,
    ) -> (r: Statement)
        ensures
            r@ == mark_superseded_quality_jobs_stale_spec(
                repository_id@,
                current_generation_id@,
                updated_at@,
            ),
    {
        let params = vec![
            text_value(repository_id),
            text_value(current_generation_id),
            text_value(updated_at),
        ];
        proof {
            assert(values(params@) =~= mark_superseded_quality_jobs_stale_spec(
                repository_id@,
                current_generation_id@,
                updated_at@,
            ).params);
        }
        statement(MARK_SUPERSEDED_QUALITY_JOBS_STALE, params)
    }

    /// The quality embeddings that still fit the chunks of a generation. Read as `CarriedRow`s.
    pub fn carried_embeddings(
        repository_id: &str,
        generation_id: &str,
        quality_model: &str,
    ) -> (r: Statement)
        ensures
            r@ == carried_embeddings_spec(repository_id@, generation_id@, quality_model@),
    {
        let params = vec![
            text_value(repository_id),
            text_value(generation_id),
            text_value(quality_model),
        ];
        proof {
            assert(values(params@) =~= carried_embeddings_spec(
                repository_id@,
                generation_id@,
                quality_model@,
            ).params);
        }
        statement(CARRIED_EMBEDDINGS, params)
    }

    /// The chunks of a generation without a quality embedding. Read as
    /// `UnembeddedRow`s, which go to `new_quality_jobs`.
    pub fn quality_embedding_jobs_for_fast_generation(
        repository_id: &str,
        generation_id: &str,
        quality_model: &str,
    ) -> (r: Statement)
        ensures
            r@ == quality_embedding_jobs_for_fast_generation_spec(
                repository_id@,
                generation_id@,
                quality_model@,
            ),
    {
        let params = vec![
            text_value(repository_id),
            text_value(generation_id),
            text_value(quality_model),
        ];
        proof {
            assert(values(params@) =~= quality_embedding_jobs_for_fast_generation_spec(
                repository_id@,
                generation_id@,
                quality_model@,
            ).params);
        }
        statement(QUALITY_EMBEDDING_JOBS_FOR_FAST_GENERATION, params)
    }

    /// The jobs of a generation with a status. Read as `QualityEmbeddingJobRecord`s.
    pub fn quality_jobs_by_status(
        repository_id: &str,
        generation_id: &str,
        status: &str,
    ) -> (r: Statement)
        ensures
            r@ == quality_jobs_by_status_spec(repository_id@, generation_id@, status@),
    {
        let params = vec![
            text_value(repository_id),
            text_value(generation_id),
            text_value(status),
        ];
        proof {
            assert(values(params@) =~= quality_jobs_by_status_spec(
                repository_id@,
                generation_id@,
                status@,
            ).params);
        }
        statement(QUALITY_JOBS_BY_STATUS, params)
    }

    /// The next pending jobs of a generation. Read as `String`s.
    pub fn pending_quality_jobs(
        repository_id: &str,
        generation_id: &str,
        limit: usize,
    ) -> (r: Statement)
        ensures
            r@ == pending_quality_jobs_spec(repository_id@, generation_id@, limit),
    {
        let params = vec![
            text_value(repository_id),
            text_value(generation_id),
            count_value(limit),
        ];
        proof {
            assert(values(params@) =~= pending_quality_jobs_spec(
                repository_id@,
                generation_id@,
                limit,
            ).params);
        }
        statement(PENDING_QUALITY_JOBS, params)
    }

    /// Marks a pending job as running.
    pub fn claim_quality_job(id: &str, claimed_at: &str) -> (r: Statement)
        ensures
            r@ == claim_quality_job_spec(id@, claimed_at@),
    {
        let params = vec![text_value(id), text_value(claimed_at)];
        proof {
            assert(values(params@) =~= claim_quality_job_spec(id@, claimed_at@).params);
        }
        statement(CLAIM_QUALITY_JOB, params)
    }

    /// A job. Read as a `QualityEmbeddingJobRecord`.
    pub fn quality_job(id: &str) -> (r: Statement)
        ensures
            r@ == quality_job_spec(id@),
    {
        let params = vec![text_value(id)];
        proof {
            assert(values(params@) =~= quality_job_spec(id@).params);
        }
        statement(QUALITY_JOB, params)
    }

    /// Makes jobs pending again that were skipped as stale or failed on a locked database, where
    /// their
    /// chunk is current and has no quality embedding.
    pub fn requeue_current_terminal_quality_embedding_jobs(
        repository_id: &str,
        generation_id: &str,
        requeued_at: &str,
    ) -> (r: Statement)
        ensures
            r@ == requeue_current_terminal_quality_embedding_jobs_spec(
                repository_id@,
                generation_id@,
                requeued_at@,
            ),
    {
        let params = vec![
            text_value(repository_id),
            text_value(generation_id),
            text_value(requeued_at),
        ];
        proof {
            assert(values(params@) =~= requeue_current_terminal_quality_embedding_jobs_spec(
                repository_id@,
                generation_id@,
                requeued_at@,
            ).params);
        }
        statement(REQUEUE_CURRENT_TERMINAL_QUALITY_EMBEDDING_JOBS, params)
    }

    /// A job with the current state of its chunk. Read as a `QualityJobSourceRow`.
    pub fn quality_job_source_row(job_id: &str) -> (r: Statement)
        ensures
            r@ == quality_job_source_row_spec(job_id@),
    {
        let params = vec![text_value(job_id)];
        proof {
            assert(values(params@) =~= quality_job_source_row_spec(job_id@).params);
        }
        statement(QUALITY_JOB_SOURCE_ROW, params)
    }

    /// Marks a job as succeeded.
    pub fn mark_quality_job_succeeded(job_id: &str, completed_at: &str) -> (r: Statement)
        ensures
            r@ == mark_quality_job_succeeded_spec(job_id@, completed_at@),
    {
        let params = vec![text_value(job_id), text_value(completed_at)];
        proof {
            assert(values(params@) =~= mark_quality_job_succeeded_spec(
                job_id@,
                completed_at@,
            ).params);
        }
        statement(MARK_QUALITY_JOB_SUCCEEDED, params)
    }

    /// Marks a job as failed.
    pub fn mark_quality_job_failed(
        job_id: &str,
        error_summary: &str,
        completed_at: &str,
    ) -> (r: Statement)
        ensures
            r@ == mark_quality_job_failed_spec(job_id@, error_summary@, completed_at@),
    {
        let params = vec![
            text_value(job_id),
            text_value(error_summary),
            text_value(completed_at),
        ];
        proof {
            assert(values(params@) =~= mark_quality_job_failed_spec(
                job_id@,
                error_summary@,
                completed_at@,
            ).params);
        }
        statement(MARK_QUALITY_JOB_FAILED, params)
    }

    /// Marks a job as skipped because its chunk changed.
    pub fn mark_quality_job_stale(job_id: &str, completed_at: &str) -> (r: Statement)
        ensures
            r@ == mark_quality_job_stale_spec(job_id@, completed_at@),
    {
        let params = vec![text_value(job_id), text_value(completed_at)];
        proof {
            assert(values(params@) =~= mark_quality_job_stale_spec(job_id@, completed_at@).params);
        }
        statement(MARK_QUALITY_JOB_STALE, params)
    }

    /// Marks a job as skipped because its chunk is excluded.
    pub fn mark_quality_job_excluded(
        job_id: &str,
        reason: &str,
        completed_at: &str,
    ) -> (r: Statement)
        ensures
            r@ == mark_quality_job_excluded_spec(job_id@, reason@, completed_at@),
    {
        let params = vec![text_value(job_id), text_value(reason), text_value(completed_at)];
        proof {
            assert(values(params@) =~= mark_quality_job_excluded_spec(
                job_id@,
                reason@,
                completed_at@,
            ).params);
        }
        statement(MARK_QUALITY_JOB_EXCLUDED, params)
    }

    /// The number of embeddable chunks of a generation. Read as an `i64`.
    pub fn embeddable_chunks(repository_id: &str, generation_id: &str) -> (r: Statement)
        ensures
            r@ == embeddable_chunks_spec(repository_id@, generation_id@),
    {
        let params = vec![text_value(repository_id), text_value(generation_id)];
        proof {
            assert(values(params@) =~= embeddable_chunks_spec(
                repository_id@,
                generation_id@,
            ).params);
        }
        statement(EMBEDDABLE_CHUNKS, params)
    }

    /// Counts the quality embeddings that fit the fast ones. Read as an `i64`.
    pub fn current_quality_embeddings(repository_id: &str, generation_id: &str) -> (r: Statement)
        ensures
            r@ == current_quality_embeddings_spec(repository_id@, generation_id@),
    {
        let params = vec![text_value(repository_id), text_value(generation_id)];
        proof {
            assert(values(params@) =~= current_quality_embeddings_spec(
                repository_id@,
                generation_id@,
            ).params);
        }
        statement(CURRENT_QUALITY_EMBEDDINGS, params)
    }

    /// Counts the jobs that fit the fast embeddings, by status. Read as `StatusCount`s.
    pub fn quality_job_counts(repository_id: &str, generation_id: &str) -> (r: Statement)
        ensures
            r@ == quality_job_counts_spec(repository_id@, generation_id@),
    {
        let params = vec![text_value(repository_id), text_value(generation_id)];
        proof {
            assert(values(params@) =~= quality_job_counts_spec(
                repository_id@,
                generation_id@,
            ).params);
        }
        statement(QUALITY_JOB_COUNTS, params)
    }

    /// The latest error of a job of a generation. Read as a `String`.
    pub fn latest_quality_generation_error(
        repository_id: &str,
        generation_id: &str,
    ) -> (r: Statement)
        ensures
            r@ == latest_quality_generation_error_spec(repository_id@, generation_id@),
    {
        let params = vec![text_value(repository_id), text_value(generation_id)];
        proof {
            assert(values(params@) =~= latest_quality_generation_error_spec(
                repository_id@,
                generation_id@,
            ).params);
        }
        statement(LATEST_QUALITY_GENERATION_ERROR, params)
    }

    /// Counts the jobs of a generation that are pending or running. Read as an `i64`.
    pub fn open_quality_jobs(repository_id: &str, generation_id: &str) -> (r: Statement)
        ensures
            r@ == open_quality_jobs_spec(repository_id@, generation_id@),
    {
        let params = vec![text_value(repository_id), text_value(generation_id)];
        proof {
            assert(values(params@) =~= open_quality_jobs_spec(
                repository_id@,
                generation_id@,
            ).params);
        }
        statement(OPEN_QUALITY_JOBS, params)
    }

    /// Counts the failed jobs of a generation. Read as an `i64`.
    pub fn failed_quality_jobs(repository_id: &str, generation_id: &str) -> (r: Statement)
        ensures
            r@ == failed_quality_jobs_spec(repository_id@, generation_id@),
    {
        let params = vec![text_value(repository_id), text_value(generation_id)];
        proof {
            assert(values(params@) =~= failed_quality_jobs_spec(
                repository_id@,
                generation_id@,
            ).params);
        }
        statement(FAILED_QUALITY_JOBS, params)
    }

    /// Updates a generation that failed, with its dimension.
    pub fn update_failed_with_dimension(
        repository_id: &str,
        generation_id: &str,
        dimension: usize,
        updated_at: &str,
        embedded: i64,
        status: &str,
    ) -> (r: Statement)
        ensures
            r@ == update_failed_with_dimension_spec(
                repository_id@,
                generation_id@,
                dimension,
                updated_at@,
                embedded,
                status@,
            ),
    {
        let params = vec![
            text_value(repository_id),
            text_value(generation_id),
            count_value(dimension),
            text_value(updated_at),
            SqlValue::Integer(embedded),
            text_value(status),
        ];
        proof {
            assert(values(params@) =~= update_failed_with_dimension_spec(
                repository_id@,
                generation_id@,
                dimension,
                updated_at@,
                embedded,
                status@,
            ).params);
        }
        statement(UPDATE_FAILED_WITH_DIMENSION, params)
    }

    /// Updates a generation, with its dimension.
    pub fn update_with_dimension(
        repository_id: &str,
        generation_id: &str,
        dimension: usize,
        updated_at: &str,
        embedded: i64,
    ) -> (r: Statement)
        ensures
            r@ == update_with_dimension_spec(
                repository_id@,
                generation_id@,
                dimension,
                updated_at@,
                embedded,
            ),
    {
        let params = vec![
            text_value(repository_id),
            text_value(generation_id),
            count_value(dimension),
            text_value(updated_at),
            SqlValue::Integer(embedded),
        ];
        proof {
            assert(values(params@) =~= update_with_dimension_spec(
                repository_id@,
                generation_id@,
                dimension,
                updated_at@,
                embedded,
            ).params);
        }
        statement(UPDATE_WITH_DIMENSION, params)
    }

    /// Updates a generation that failed.
    pub fn update_failed(
        repository_id: &str,
        generation_id: &str,
        embedded: i64,
        status: &str,
        updated_at: &str,
    ) -> (r: Statement)
        ensures
            r@ == update_failed_spec(
                repository_id@,
                generation_id@,
                embedded,
                status@,
                updated_at@,
            ),
    {
        let params = vec![
            text_value(repository_id),
            text_value(generation_id),
            SqlValue::Integer(embedded),
            text_value(status),
            text_value(updated_at),
        ];
        proof {
            assert(values(params@) =~= update_failed_spec(
                repository_id@,
                generation_id@,
                embedded,
                status@,
                updated_at@,
            ).params);
        }
        statement(UPDATE_FAILED, params)
    }

    /// Updates a generation.
    pub fn update_progress(
        repository_id: &str,
        generation_id: &str,
        embedded: i64,
        updated_at: &str,
    ) -> (r: Statement)
        ensures
            r@ == update_progress_spec(repository_id@, generation_id@, embedded, updated_at@),
    {
        let params = vec![
            text_value(repository_id),
            text_value(generation_id),
            SqlValue::Integer(embedded),
            text_value(updated_at),
        ];
        proof {
            assert(values(params@) =~= update_progress_spec(
                repository_id@,
                generation_id@,
                embedded,
                updated_at@,
            ).params);
        }
        statement(UPDATE_PROGRESS, params)
    }

    /// A generation. Read as a `SemanticGenerationRecord`.
    pub fn semantic_generation(repository_id: &str, generation_id: &str) -> (r: Statement)
        ensures
            r@ == semantic_generation_spec(repository_id@, generation_id@),
    {
        let params = vec![text_value(repository_id), text_value(generation_id)];
        proof {
            assert(values(params@) =~= semantic_generation_spec(
                repository_id@,
                generation_id@,
            ).params);
        }
        statement(SEMANTIC_GENERATION, params)
    }

    /// The id of the latest generation. Read as a `String`.
    pub fn latest_semantic_generation_id(repository_id: &str) -> (r: Statement)
        ensures
            r@ == latest_semantic_generation_id_spec(repository_id@),
    {
        let params = vec![text_value(repository_id)];
        proof {
            assert(values(params@) =~= latest_semantic_generation_id_spec(repository_id@).params);
        }
        statement(LATEST_SEMANTIC_GENERATION_ID, params)
    }

    /// Stores what a refresh of the activation decided.
    pub fn update_activation(
        repository_id: &str,
        generation_id: &str,
        dimension: Option<usize>,
        updated_at: &str,
        embedded: usize,
        status: &str,
        completed_at: Option<&str>,
        layer: &str,
    ) -> (r: Statement)
        ensures
            r@ == update_activation_spec(
                repository_id@,
                generation_id@,
                dimension,
                updated_at@,
                embedded,
                status@,
                optional_str(completed_at),
                layer@,
            ),
    {
        let params = vec![
            text_value(repository_id),
            text_value(generation_id),
            optional_count_value(dimension),
            text_value(updated_at),
            count_value(embedded),
            text_value(status),
            optional_text_value(completed_at),
            text_value(layer),
        ];
        proof {
            assert(values(params@) =~= update_activation_spec(
                repository_id@,
                generation_id@,
                dimension,
                updated_at@,
                embedded,
                status@,
                optional_str(completed_at),
                layer@,
            ).params);
        }
        statement(UPDATE_ACTIVATION, params)
    }
}

/// The columns of a job, in the order in which they are stored and read.
pub open spec fn job_columns(j: QualityEmbeddingJobRecord) -> Seq<SqlValue> {
    seq![
        SqlValue::Text(j.id),
        SqlValue::Text(j.repository_id),
        SqlValue::Text(j.generation_id),
        SqlValue::Text(j.chunk_id),
        SqlValue::Text(j.file_id),
        SqlValue::Text(j.path),
        SqlValue::Text(j.content_hash),
        SqlValue::Text(j.text_hash),
        SqlValue::Text(j.status),
        counted(j.attempts),
        optional_owned(j.error_summary),
        SqlValue::Text(j.created_at),
        SqlValue::Text(j.updated_at),
    ]
}

/// A job is read back as it was stored.
pub proof fn law_jobs_round_trip(j: QualityEmbeddingJobRecord)
    ensures
        mismatch(job_columns(j), QualityEmbeddingJobRecord::fields()) is None,
        QualityEmbeddingJobRecord::of(job_columns(j)) == j,
{
    let row = job_columns(j);
    let fields = QualityEmbeddingJobRecord::fields();
    lemma_mismatch(row, fields, 0);
    lemma_size_round_trip(j.attempts);
    assert forall|i: int| 0 <= i < fields.len() implies !unfit(row, #[trigger] fields[i]) by {
        assert(fields[i].at == i);
    }
}

/// The reading of the statement that stores a job.
pub open spec fn upsert_job_spec(j: QualityEmbeddingJobRecord) -> StatementView {
    statement_of(UPSERT_QUALITY_EMBEDDING_JOB, values(job_columns(j)))
}

/// The values of a generation whose quality layer starts over with a model, in the given state.
pub open spec fn restarted_values(
    g: SemanticGenerationRecord,
    model: Seq<char>,
    status: SemanticLayerStatus,
    at: Seq<char>,
) -> Seq<Value> {
    seq![
        text(g.id@),
        text(g.repository_id@),
        text(g.fast_model@),
        count(g.fast_dimension),
        text(g.fast_completed_at@),
        text(model),
        Value::Null,
        text(status.text()),
        Value::Null,
        Value::Null,
        text(SemanticLayer::Fast.text()),
        count(g.files_seen),
        count(g.embeddable_chunks),
        count(g.fast_embedded_chunks),
        count(g.quality_embedded_chunks),
        text(g.created_at@),
        text(at),
    ]
}

/// The step that stores a generation whose quality layer starts over.
pub open spec fn restarted(
    g: SemanticGenerationRecord,
    model: Seq<char>,
    status: SemanticLayerStatus,
    at: Seq<char>,
) -> CommandView {
    CommandView::Execute(
        statement_of(UPSERT_SEMANTIC_GENERATION, restarted_values(g, model, status, at)),
    )
}

fn restart_generation(
    generation: &SemanticGenerationRecord,
    quality_model: &str,
    quality_status: SemanticLayerStatus,
    updated_at: &str,
) -> (r: Command)
    ensures
        r@ == restarted(*generation, quality_model@, quality_status, updated_at@),
{
    let params = vec![
        owned_value(&generation.id),
        owned_value(&generation.repository_id),
        owned_value(&generation.fast_model),
        count_value(generation.fast_dimension),
        owned_value(&generation.fast_completed_at),
        text_value(quality_model),
        SqlValue::Null,
        text_value(quality_status.as_str()),
        SqlValue::Null,
        SqlValue::Null,
        text_value(SemanticLayer::Fast.as_str()),
        count_value(generation.files_seen),
        count_value(generation.embeddable_chunks),
        count_value(generation.fast_embedded_chunks),
        count_value(generation.quality_embedded_chunks),
        owned_value(&generation.created_at),
        text_value(updated_at),
    ];
    proof {
        assert(values(params@) =~= restarted_values(
            *generation,
            quality_model@,
            quality_status,
            updated_at@,
        ));
    }
    Command::Execute(statement(UPSERT_SEMANTIC_GENERATION, params))
}

/// Whether a job is one of a generation.
pub open spec fn belongs(job: QualityEmbeddingJobRecord, g: SemanticGenerationRecord) -> bool {
    job.repository_id@ == g.repository_id@ && job.generation_id@ == g.id@
}

/// The steps that store jobs.
pub open spec fn jobs_stored(jobs: Seq<QualityEmbeddingJobRecord>) -> Seq<CommandView> {
    Seq::new(jobs.len(), |i: int| CommandView::Execute(upsert_job_spec(jobs[i])))
}

/// The steps that queue jobs for a generation.
pub open spec fn queue_script(
    g: SemanticGenerationRecord,
    model: Seq<char>,
    jobs: Seq<QualityEmbeddingJobRecord>,
    at: Seq<char>,
) -> Seq<CommandView> {
    seq![
        CommandView::Begin,
        CommandView::Execute(mark_superseded_quality_jobs_stale_spec(g.repository_id@, g.id@, at)),
    ] + jobs_stored(jobs) + seq![
        restarted(g, model, SemanticLayerStatus::QualityPending, at),
        CommandView::Commit,
    ]
}

/// The steps that mark the quality layer of a generation as blocked.
pub open spec fn block_script(
    g: SemanticGenerationRecord,
    model: Seq<char>,
    at: Seq<char>,
) -> Seq<CommandView> {
    seq![
        CommandView::Begin,
        CommandView::Execute(mark_superseded_quality_jobs_stale_spec(g.repository_id@, g.id@, at)),
        restarted(g, model, SemanticLayerStatus::QualityBlocked, at),
        CommandView::Commit,
    ]
}

/// The step that marks a job as ended.
pub open spec fn ended_spec(
    job_id: Seq<char>,
    completion: QualityJobCompletion,
    at: Seq<char>,
) -> StatementView {
    match completion {
        QualityJobCompletion::Succeeded { embedding } => mark_quality_job_succeeded_spec(
            job_id,
            at,
        ),
        QualityJobCompletion::Failed { error_summary } => mark_quality_job_failed_spec(
            job_id,
            error_summary@,
            at,
        ),
        QualityJobCompletion::SkippedStale => mark_quality_job_stale_spec(job_id, at),
        QualityJobCompletion::SkippedExcluded { reason } => mark_quality_job_excluded_spec(
            job_id,
            reason@,
            at,
        ),
    }
}

/// What the end of a job is answered: the steps that record it, or the error that the point of
/// its embedding has no row. Only a job that succeeded stores an embedding.
pub open spec fn job_ended(
    r: Result<Vec<Command>, StoreError>,
    job_id: Seq<char>,
    completion: QualityJobCompletion,
    at: Seq<char>,
    digest: Seq<char>,
) -> bool {
    let mark = CommandView::Execute(ended_spec(job_id, completion, at));
    match completion {
        QualityJobCompletion::Succeeded { embedding } => match rowid_of(
            embedding.vector_point_id@,
            digest,
        ) {
            Some(rowid) => r matches Ok(commands) && script(commands@) == seq![
                CommandView::Begin,
                CommandView::Execute(upsert_embedding_spec(*embedding, rowid as i64)),
                mark,
                CommandView::Commit,
            ],
            None => r matches Err(StoreError::InvalidPointId(id)) && id@
                == embedding.vector_point_id@,
        },
        _ => r matches Ok(commands) && script(commands@) == seq![
            CommandView::Begin,
            mark,
            CommandView::Commit,
        ],
    }
}

/// The parts whose stable id identifies a job.
pub open spec fn job_id_parts(
    repository_id: Seq<char>,
    generation_id: Seq<char>,
    chunk_id: Seq<char>,
) -> Seq<Seq<char>> {
    seq!["quality-embedding-job"@, repository_id, generation_id, chunk_id]
}

/// `summary` tells of a generation, its quality layer and the number of jobs queued for it.
pub open spec fn sums_up(
    summary: QualityQueueSummary,
    generation: SemanticGenerationRecord,
    quality_model: Seq<char>,
    quality_status: SemanticLayerStatus,
    queued_jobs: nat,
) -> bool {
    &&& summary.repository_id@ == generation.repository_id@
    &&& summary.generation_id@ == generation.id@
    &&& summary.quality_model@ == quality_model
    &&& summary.quality_status == quality_status
    &&& summary.queued_jobs == queued_jobs
}

impl SqliteStore {
    /// Stores a job, or updates it.
    pub fn upsert_quality_embedding_job(job: &QualityEmbeddingJobRecord) -> (r: Statement)
        ensures
            r@ == upsert_job_spec(*job),
            r.params@ == job_columns(*job),
    {
        let params = vec![
            owned_value(&job.id),
            owned_value(&job.repository_id),
            owned_value(&job.generation_id),
            owned_value(&job.chunk_id),
            owned_value(&job.file_id),
            owned_value(&job.path),
            owned_value(&job.content_hash),
            owned_value(&job.text_hash),
            owned_value(&job.status),
            count_value(job.attempts),
            optional_owned_value(&job.error_summary),
            owned_value(&job.created_at),
            owned_value(&job.updated_at),
        ];
        proof {
            assert(params@ =~= job_columns(*job));
        }
        statement(UPSERT_QUALITY_EMBEDDING_JOB, params)
    }

    /// The parts whose stable id identifies a job.
    pub fn quality_embedding_job_id(
        repository_id: &str,
        generation_id: &str,
        chunk_id: &str,
    ) -> (r: Vec<String>)
        ensures
            texts(r@) == job_id_parts(repository_id@, generation_id@, chunk_id@),
    {
        let parts = vec![
            "quality-embedding-job".to_owned(),
            repository_id.to_owned(),
            generation_id.to_owned(),
            chunk_id.to_owned(),
        ];
        proof {
            assert(texts(parts@) =~= job_id_parts(repository_id@, generation_id@, chunk_id@));
        }
        parts
    }

    /// Queues jobs for a generation: jobs of other generations become stale, and its quality
    /// layer starts over with the given model. Every job has to belong to the generation.
    pub fn queue_quality_embedding_jobs(
        generation: &SemanticGenerationRecord,
        quality_model: &str,
        jobs: &Vec<QualityEmbeddingJobRecord>,
        queued_at: &str,
    ) -> (r: Result<Vec<Command>, StoreError>)
        ensures
            if forall|i: int| 0 <= i < jobs@.len() ==> belongs(#[trigger] jobs@[i], *generation) {
                r matches Ok(commands) && script(commands@) == queue_script(
                    *generation,
                    quality_model@,
                    jobs@,
                    queued_at@,
                )
            } else {
                r matches Err(e) && is_fault(
                    e,
                    Fault::Unexpected("quality job does not belong to generation"@),
                )
            },
    {
        for i in 0..jobs.len()
            invariant
                forall|k: int| 0 <= k < i ==> belongs(#[trigger] jobs@[k], *generation),
        {
            if !same(jobs[i].repository_id.as_str(), generation.repository_id.as_str()) || !same(
                jobs[i].generation_id.as_str(),
                generation.id.as_str(),
            ) {
                proof {
                    assert(!belongs(jobs@[i as int], *generation));
                }
                return Err(
                    StoreError::UnexpectedResponse(
                        "quality job does not belong to generation".to_owned(),
                    ),
                );
            }
        }
        let mut commands = vec![
            Command::Begin,
            Command::Execute(
                SqliteStore::mark_superseded_quality_jobs_stale(
                    generation.repository_id.as_str(),
                    generation.id.as_str(),
                    queued_at,
                ),
            ),
        ];
        let ghost head = script(commands@);
        let ghost stored = jobs_stored(jobs@);
        proof {
            assert(head =~= head + stored.take(0));
        }
        for i in 0..jobs.len()
            invariant
                stored == jobs_stored(jobs@),
                script(commands@) == head + stored.take(i as int),
        {
            let ghost before = script(commands@);
            commands.push(Command::Execute(SqliteStore::upsert_quality_embedding_job(&jobs[i])));
            proof {
                assert(script(commands@) =~= before.push(stored[i as int]));
                assert(before.push(stored[i as int]) =~= head + stored.take(i + 1));
            }
        }
        let ghost before = script(commands@);
        commands.push(
            restart_generation(
                generation,
                quality_model,
                SemanticLayerStatus::QualityPending,
                queued_at,
            ),
        );
        commands.push(Command::Commit);
        proof {
            assert(stored.take(jobs@.len() as int) =~= stored);
            assert(script(commands@) =~= before + seq![
                restarted(
                    *generation,
                    quality_model@,
                    SemanticLayerStatus::QualityPending,
                    queued_at@,
                ),
                CommandView::Commit,
            ]);
            assert(script(commands@) =~= queue_script(
                *generation,
                quality_model@,
                jobs@,
                queued_at@,
            ));
        }
        Ok(commands)
    }

    /// Marks the quality layer of a generation as blocked; jobs of other generations become
    /// stale.
    pub fn mark_quality_generation_blocked(
        generation: &SemanticGenerationRecord,
        quality_model: &str,
        blocked_at: &str,
    ) -> (r: Vec<Command>)
        ensures
            script(r@) == block_script(*generation, quality_model@, blocked_at@),
    {
        let commands = vec![
            Command::Begin,
            Command::Execute(
                SqliteStore::mark_superseded_quality_jobs_stale(
                    generation.repository_id.as_str(),
                    generation.id.as_str(),
                    blocked_at,
                ),
            ),
            restart_generation(
                generation,
                quality_model,
                SemanticLayerStatus::QualityBlocked,
                blocked_at,
            ),
            Command::Commit,
        ];
        proof {
            assert(script(commands@) =~= block_script(*generation, quality_model@, blocked_at@));
        }
        commands
    }

    fn quality_queue_summary(
        generation: &SemanticGenerationRecord,
        quality_model: &str,
        quality_status: SemanticLayerStatus,
        queued_jobs: usize,
        skipped_stale_jobs: usize,
    ) -> (r: QualityQueueSummary)
        ensures
            sums_up(r, *generation, quality_model@, quality_status, queued_jobs as nat),
            r.skipped_stale_jobs == skipped_stale_jobs,
    {
        QualityQueueSummary {
            repository_id: generation.repository_id.clone(),
            generation_id: generation.id.clone(),
            quality_model: quality_model.to_owned(),
            quality_status,
            queued_jobs,
            skipped_stale_jobs,
        }
    }

    /// What queueing did: all jobs wait. `skipped_stale_jobs` is the number of jobs that the
    /// second step changed.
    pub fn queued_jobs_summary(
        generation: &SemanticGenerationRecord,
        quality_model: &str,
        jobs: &Vec<QualityEmbeddingJobRecord>,
        skipped_stale_jobs: usize,
    ) -> (r: QualityQueueSummary)
        ensures
            sums_up(
                r,
                *generation,
                quality_model@,
                SemanticLayerStatus::QualityPending,
                jobs@.len(),
            ),
            r.skipped_stale_jobs == skipped_stale_jobs,
    {
        SqliteStore::quality_queue_summary(
            generation,
            quality_model,
            SemanticLayerStatus::QualityPending,
            jobs.len(),
            skipped_stale_jobs,
        )
    }

    /// What blocking did: no job waits. `skipped_stale_jobs` is the number of jobs that the second
    /// step changed.
    pub fn blocked_generation_summary(
        generation: &SemanticGenerationRecord,
        quality_model: &str,
        skipped_stale_jobs: usize,
    ) -> (r: QualityQueueSummary)
        ensures
            sums_up(r, *generation, quality_model@, SemanticLayerStatus::QualityBlocked, 0),
            r.skipped_stale_jobs == skipped_stale_jobs,
    {
        SqliteStore::quality_queue_summary(
            generation,
            quality_model,
            SemanticLayerStatus::QualityBlocked,
            0,
            skipped_stale_jobs,
        )
    }

    /// Records how a job ended. `digest` is the stable id of the parts that `vector_rowid_parts`
    /// gives for the point of the embedding of a job that succeeded; else it does not matter.
    pub fn complete_quality_embedding_job(
        job_id: &str,
        completion: &QualityJobCompletion,
        completed_at: &str,
        digest: &str,
    ) -> (r: Result<Vec<Command>, StoreError>)
        ensures
            job_ended(r, job_id@, *completion, completed_at@, digest@),
    {
        let mut commands = vec![Command::Begin];
        let mark = match completion {
            QualityJobCompletion::Succeeded { embedding } => {
                match SqliteStore::upsert_chunk_embedding(&**embedding, digest) {
                    Ok(stored) => commands.push(Command::Execute(stored)),
                    Err(error) => {
                        return Err(error);
                    },
                }
                SqliteStore::mark_quality_job_succeeded(job_id, completed_at)
            },
            QualityJobCompletion::Failed { error_summary } => SqliteStore::mark_quality_job_failed(
                job_id,
                error_summary.as_str(),
                completed_at,
            ),
            QualityJobCompletion::SkippedStale => SqliteStore::mark_quality_job_stale(
                job_id,
                completed_at,
            ),
            QualityJobCompletion::SkippedExcluded {
                reason,
            } => SqliteStore::mark_quality_job_excluded(job_id, reason.as_str(), completed_at),
        };
        commands.push(Command::Execute(mark));
        commands.push(Command::Commit);
        proof {
            let end = CommandView::Execute(ended_spec(job_id@, *completion, completed_at@));
            match completion {
                QualityJobCompletion::Succeeded { embedding } => {
                    let rowid = rowid_of(embedding.vector_point_id@, digest@)->Some_0;
                    assert(script(commands@) =~= seq![
                        CommandView::Begin,
                        CommandView::Execute(upsert_embedding_spec(**embedding, rowid as i64)),
                        end,
                        CommandView::Commit,
                    ]);
                },
                _ => {
                    assert(script(commands@) =~= seq![
                        CommandView::Begin,
                        end,
                        CommandView::Commit,
                    ]);
                },
            }
        }
        Ok(commands)
    }
}

/// `r` is the job that embeds a chunk: pending, and never tried.
pub open spec fn is_new_job(
    r: QualityEmbeddingJobRecord,
    repository_id: Seq<char>,
    generation_id: Seq<char>,
    row: UnembeddedRow,
    id: Seq<char>,
    at: Seq<char>,
) -> bool {
    &&& r.id@ == id
    &&& r.repository_id@ == repository_id
    &&& r.generation_id@ == generation_id
    &&& r.chunk_id@ == row.chunk_id@
    &&& r.file_id@ == row.file_id@
    &&& r.path@ == row.path@
    &&& r.content_hash@ == row.content_hash@
    &&& r.text_hash@ == row.text_hash@
    &&& r.status@ == "pending"@
    &&& r.attempts == 0
    &&& r.error_summary is None
    &&& r.created_at@ == at
    &&& r.updated_at@ == at
}

/// `summary` tells that `rows` were carried over; it has a dimension where they all share one.
pub open spec fn is_carried(
    summary: QualityCarryForwardSummary,
    repository_id: Seq<char>,
    generation_id: Seq<char>,
    model: Seq<char>,
    rows: Seq<CarriedRow>,
) -> bool {
    &&& summary.repository_id@ == repository_id
    &&& summary.generation_id@ == generation_id
    &&& summary.quality_model@ == model
    &&& summary.carried_embeddings == rows.len()
    &&& summary.quality_dimension == shared_dimension(rows)
}

/// Whether all rows have the dimension of the first one.
pub open spec fn same_dimension(rows: Seq<CarriedRow>) -> bool {
    forall|i: int|
        0 <= i < rows.len() ==> (#[trigger] rows[i]).embedding_dimension
            == rows[0].embedding_dimension
}

/// The dimension that all rows share.
pub open spec fn shared_dimension(rows: Seq<CarriedRow>) -> Option<usize> {
    if rows.len() > 0 && same_dimension(rows) {
        Some(rows[0].embedding_dimension)
    } else {
        None
    }
}

/// The values of an embedding that is carried over to a generation.
pub open spec fn carried_values(
    repository_id: Seq<char>,
    generation_id: Seq<char>,
    model: Seq<char>,
    row: CarriedRow,
    id: Seq<char>,
    rowid: int,
) -> Seq<Value> {
    seq![
        text(id),
        text(repository_id),
        text(row.file_id@),
        text(row.chunk_id@),
        text(SemanticLayer::Quality.text()),
        text(model),
        count(row.embedding_dimension),
        text(row.content_hash@),
        text(row.text_hash@),
        text(row.vector_table@),
        text(row.vector_point_id@),
        Value::Integer(rowid),
        text(generation_id),
        text(row.embedded_at@),
        text("current"@),
    ]
}

/// The first row from `from` on whose point has no row in a vector table.
pub open spec fn rowless_row(rows: Seq<CarriedRow>, digests: Seq<Seq<char>>, from: int) -> Option<
    int,
>
    decreases rows.len() - from,
{
    if from < 0 || from >= rows.len() {
        None
    } else if rowid_of(rows[from].vector_point_id@, digests[from]) is None {
        Some(from)
    } else {
        rowless_row(rows, digests, from + 1)
    }
}

/// The steps that store embeddings that are carried over.
pub open spec fn carried_stored(
    repository_id: Seq<char>,
    generation_id: Seq<char>,
    model: Seq<char>,
    rows: Seq<CarriedRow>,
    ids: Seq<Seq<char>>,
    digests: Seq<Seq<char>>,
) -> Seq<CommandView> {
    Seq::new(
        rows.len(),
        |i: int|
            CommandView::Execute(
                statement_of(
                    UPSERT_CHUNK_EMBEDDING,
                    carried_values(
                        repository_id,
                        generation_id,
                        model,
                        rows[i],
                        ids[i],
                        rowid_of(rows[i].vector_point_id@, digests[i])->Some_0,
                    ),
                ),
            ),
    )
}

impl SqliteStore {
    /// The jobs for the chunks that the quality layer does not hold yet. `ids[i]` is the stable id
    /// of the parts that `quality_embedding_job_id` gives for the chunk of `rows[i]`.
    pub fn new_quality_jobs(
        repository_id: &str,
        generation_id: &str,
        rows: &Vec<UnembeddedRow>,
        ids: &Vec<String>,
        queued_at: &str,
    ) -> (r: Vec<QualityEmbeddingJobRecord>)
        requires
            ids@.len() == rows@.len(),
        ensures
            r@.len() == rows@.len(),
            forall|i: int|
                0 <= i < r@.len() ==> is_new_job(
                    #[trigger] r@[i],
                    repository_id@,
                    generation_id@,
                    rows@[i],
                    ids@[i]@,
                    queued_at@,
                ),
    {
        let mut jobs: Vec<QualityEmbeddingJobRecord> = Vec::new();
        for i in 0..rows.len()
            invariant
                ids@.len() == rows@.len(),
                jobs@.len() == i,
                forall|k: int|
                    0 <= k < i ==> is_new_job(
                        #[trigger] jobs@[k],
                        repository_id@,
                        generation_id@,
                        rows@[k],
                        ids@[k]@,
                        queued_at@,
                    ),
        {
            jobs.push(
                QualityEmbeddingJobRecord {
                    id: ids[i].clone(),
                    repository_id: repository_id.to_owned(),
                    generation_id: generation_id.to_owned(),
                    chunk_id: rows[i].chunk_id.clone(),
                    file_id: rows[i].file_id.clone(),
                    path: rows[i].path.clone(),
                    content_hash: rows[i].content_hash.clone(),
                    text_hash: rows[i].text_hash.clone(),
                    status: "pending".to_owned(),
                    attempts: 0,
                    error_summary: None,
                    created_at: queued_at.to_owned(),
                    updated_at: queued_at.to_owned(),
                },
            );
        }
        jobs
    }

    /// The first steps of carrying quality embeddings over to a generation. The rows are read as
    /// `CarriedRow`s and go to `carry_embeddings`.
    pub fn carry_forward_quality_embeddings_for_fast_generation(
        repository_id: &str,
        generation_id: &str,
        quality_model: &str,
    ) -> (r: Vec<Command>)
        ensures
            script(r@) == seq![
                CommandView::Begin,
                CommandView::Query(
                    carried_embeddings_spec(repository_id@, generation_id@, quality_model@),
                ),
            ],
    {
        let commands = vec![
            Command::Begin,
            Command::Query(
                SqliteStore::carried_embeddings(repository_id, generation_id, quality_model),
            ),
        ];
        proof {
            assert(script(commands@) =~= seq![
                CommandView::Begin,
                CommandView::Query(
                    carried_embeddings_spec(repository_id@, generation_id@, quality_model@),
                ),
            ]);
        }
        commands
    }

    /// The steps that store the embeddings that are carried over, and what they did. `ids[i]` is
    /// the stable id of the parts that `chunk_embedding_id` gives for the quality embedding of
    /// `rows[i]`, and `digests[i]` that of the parts that `vector_rowid_parts` gives for its
    /// point.
    pub fn carry_embeddings(
        repository_id: &str,
        generation_id: &str,
        quality_model: &str,
        rows: &Vec<CarriedRow>,
        ids: &Vec<String>,
        digests: &Vec<String>,
    ) -> (r: Result<(Vec<Command>, QualityCarryForwardSummary), StoreError>)
        requires
            ids@.len() == rows@.len(),
            digests@.len() == rows@.len(),
        ensures
            match rowless_row(rows@, texts(digests@), 0) {
                Some(i) => r matches Err(StoreError::InvalidPointId(id)) && id@
                    == rows@[i].vector_point_id@,
                None => r matches Ok(done) && is_carried(
                    done.1,
                    repository_id@,
                    generation_id@,
                    quality_model@,
                    rows@,
                ) && script(done.0@) == carried_stored(
                    repository_id@,
                    generation_id@,
                    quality_model@,
                    rows@,
                    texts(ids@),
                    texts(digests@),
                ).push(CommandView::Commit),
            },
    {
        let mut commands: Vec<Command> = Vec::new();
        let mut shared = true;
        let ghost stored = carried_stored(
            repository_id@,
            generation_id@,
            quality_model@,
            rows@,
            texts(ids@),
            texts(digests@),
        );
        proof {
            assert(script(commands@) =~= stored.take(0));
        }
        for i in 0..rows.len()
            invariant
                ids@.len() == rows@.len(),
                digests@.len() == rows@.len(),
                stored == carried_stored(
                    repository_id@,
                    generation_id@,
                    quality_model@,
                    rows@,
                    texts(ids@),
                    texts(digests@),
                ),
                script(commands@) == stored.take(i as int),
                rowless_row(rows@, texts(digests@), 0) == rowless_row(
                    rows@,
                    texts(digests@),
                    i as int,
                ),
                shared == forall|k: int|
                    0 <= k < i ==> (#[trigger] rows@[k]).embedding_dimension
                        == rows@[0].embedding_dimension,
        {
            let row = &rows[i];
            let rowid = match vector_rowid(row.vector_point_id.as_str(), digests[i].as_str()) {
                Ok(rowid) => rowid,
                Err(error) => {
                    return Err(error);
                },
            };
            proof {
                lemma_rowid_fits(row.vector_point_id@, digests@[i as int]@);
            }
            if row.embedding_dimension != rows[0].embedding_dimension {
                shared = false;
            }
            let params = vec![
                owned_value(&ids[i]),
                text_value(repository_id),
                owned_value(&row.file_id),
                owned_value(&row.chunk_id),
                text_value(SemanticLayer::Quality.as_str()),
                text_value(quality_model),
                count_value(row.embedding_dimension),
                owned_value(&row.content_hash),
                owned_value(&row.text_hash),
                owned_value(&row.vector_table),
                owned_value(&row.vector_point_id),
                SqlValue::Integer(rowid),
                text_value(generation_id),
                owned_value(&row.embedded_at),
                text_value("current"),
            ];
            proof {
                assert(values(params@) =~= carried_values(
                    repository_id@,
                    generation_id@,
                    quality_model@,
                    rows@[i as int],
                    ids@[i as int]@,
                    rowid as int,
                ));
            }
            let ghost before = script(commands@);
            commands.push(Command::Execute(statement(UPSERT_CHUNK_EMBEDDING, params)));
            proof {
                assert(script(commands@) =~= before.push(stored[i as int]));
                assert(before.push(stored[i as int]) =~= stored.take(i + 1));
            }
        }
        let ghost before = script(commands@);
        commands.push(Command::Commit);
        proof {
            assert(stored.take(rows@.len() as int) =~= stored);
            assert(script(commands@) =~= before.push(CommandView::Commit));
        }
        let quality_dimension = if rows.len() > 0 && shared {
            Some(rows[0].embedding_dimension)
        } else {
            None
        };
        let summary = QualityCarryForwardSummary {
            repository_id: repository_id.to_owned(),
            generation_id: generation_id.to_owned(),
            quality_model: quality_model.to_owned(),
            carried_embeddings: rows.len(),
            quality_dimension,
        };
        Ok((commands, summary))
    }
}

/// The steps that claim jobs, two for each of them.
pub open spec fn claims(ids: Seq<Seq<char>>, at: Seq<char>) -> Seq<CommandView>
    decreases ids.len(),
{
    if ids.len() == 0 {
        Seq::empty()
    } else {
        claims(ids.drop_last(), at) + seq![
            CommandView::Execute(claim_quality_job_spec(ids.last(), at)),
            CommandView::Query(quality_job_spec(ids.last())),
        ]
    }
}

impl SqliteStore {
    /// The first steps of claiming up to `limit` pending jobs; at least one has to be asked for.
    /// The rows go to `claim_jobs`.
    pub fn claim_quality_embedding_jobs(
        repository_id: &str,
        generation_id: &str,
        limit: usize,
    ) -> (r: Result<Vec<Command>, StoreError>)
        ensures
            if limit == 0 {
                r == Err::<Vec<Command>, StoreError>(StoreError::InvalidLimit(0))
            } else {
                r matches Ok(commands) && script(commands@) == seq![
                    CommandView::Begin,
                    CommandView::Query(
                        pending_quality_jobs_spec(repository_id@, generation_id@, limit),
                    ),
                ]
            },
    {
        if limit == 0 {
            return Err(StoreError::InvalidLimit(limit));
        }
        let commands = vec![
            Command::Begin,
            Command::Query(SqliteStore::pending_quality_jobs(repository_id, generation_id, limit)),
        ];
        proof {
            assert(script(commands@) =~= seq![
                CommandView::Begin,
                CommandView::Query(
                    pending_quality_jobs_spec(repository_id@, generation_id@, limit),
                ),
            ]);
        }
        Ok(commands)
    }

    /// The steps that mark jobs as running and ask for them. The answers go to `claimed_jobs`.
    pub fn claim_jobs(ids: &Vec<String>, claimed_at: &str) -> (r: Vec<Command>)
        ensures
            script(r@) == claims(texts(ids@), claimed_at@),
    {
        let mut commands: Vec<Command> = Vec::new();
        let ghost all = texts(ids@);
        proof {
            assert(script(commands@) =~= claims(all.take(0), claimed_at@));
        }
        for i in 0..ids.len()
            invariant
                all == texts(ids@),
                script(commands@) == claims(all.take(i as int), claimed_at@),
        {
            let ghost before = script(commands@);
            commands.push(
                Command::Execute(SqliteStore::claim_quality_job(ids[i].as_str(), claimed_at)),
            );
            commands.push(Command::Query(SqliteStore::quality_job(ids[i].as_str())));
            proof {
                let front = all.take(i + 1);
                assert(front.drop_last() =~= all.take(i as int));
                assert(script(commands@) =~= before + seq![
                    CommandView::Execute(claim_quality_job_spec(front.last(), claimed_at@)),
                    CommandView::Query(quality_job_spec(front.last())),
                ]);
            }
        }
        proof {
            assert(all.take(ids@.len() as int) =~= all);
        }
        commands
    }

    /// The jobs that were claimed, and the last step of claiming them.
    pub fn claimed_jobs(answers: &Vec<Vec<Row>>) -> (r: Result<
        (Vec<QualityEmbeddingJobRecord>, Vec<Command>),
        StoreError,
    >)
        ensures
            match only_faults::<QualityEmbeddingJobRecord>(answers@, 0) {
                Some(fault) => r matches Err(e) && is_fault(e, fault),
                None => r matches Ok(done) && script(done.1@) == seq![CommandView::Commit]
                    && done.0@ == only_values::<QualityEmbeddingJobRecord>(answers@),
            },
    {
        let jobs: Vec<QualityEmbeddingJobRecord> = match collect_only_rows(answers) {
            Ok(jobs) => jobs,
            Err(error) => {
                return Err(error);
            },
        };
        let commands = vec![Command::Commit];
        proof {
            assert(script(commands@) =~= seq![CommandView::Commit]);
        }
        Ok((jobs, commands))
    }

    /// The queries for jobs with the current state of their chunks. The answers go to
    /// `collect_first_rows`, to be read as `QualityJobSourceRow`s.
    pub fn quality_job_source_rows(job_ids: &Vec<String>) -> (r: Vec<Statement>)
        ensures
            r@.len() == job_ids@.len(),
            forall|i: int|
                0 <= i < r@.len() ==> (#[trigger] r@[i])@ == quality_job_source_row_spec(
                    job_ids@[i]@,
                ),
    {
        let mut queries: Vec<Statement> = Vec::new();
        for i in 0..job_ids.len()
            invariant
                queries@.len() == i,
                forall|k: int|
                    0 <= k < i ==> (#[trigger] queries@[k])@ == quality_job_source_row_spec(
                        job_ids@[k]@,
                    ),
        {
            queries.push(SqliteStore::quality_job_source_row(job_ids[i].as_str()));
        }
        queries
    }
}

/// How many jobs of a generation have each status.
#[derive(Debug, Clone, Copy, PartialEq, Eq, Structural)]
pub struct QualityJobStatusCounts {
    pub pending_jobs: usize,
    pub running_jobs: usize,
    pub succeeded_jobs: usize,
    pub failed_jobs: usize,
    pub skipped_stale_jobs: usize,
    pub skipped_excluded_jobs: usize,
}

/// The number of jobs with a status: what the last count for it says.
pub open spec fn jobs_with(counts: Seq<StatusCount>, status: Seq<char>) -> usize
    decreases counts.len(),
{
    if counts.len() == 0 {
        0
    } else if counts.last().status@ == status {
        counts.last().jobs as usize
    } else {
        jobs_with(counts.drop_last(), status)
    }
}

/// `c` says how many jobs have each status.
pub open spec fn is_tally(c: QualityJobStatusCounts, counts: Seq<StatusCount>) -> bool {
    &&& c.pending_jobs == jobs_with(counts, "pending"@)
    &&& c.running_jobs == jobs_with(counts, "running"@)
    &&& c.succeeded_jobs == jobs_with(counts, "succeeded"@)
    &&& c.failed_jobs == jobs_with(counts, "failed"@)
    &&& c.skipped_stale_jobs == jobs_with(counts, "skipped_stale"@)
    &&& c.skipped_excluded_jobs == jobs_with(counts, "skipped_excluded"@)
}

/// What is wrong with the counts of jobs: a row that cannot be read, or a count that is no size.
pub open spec fn tally_fault(rows: Seq<Row>) -> Option<Fault> {
    let counts = all_of::<StatusCount>(rows);
    if rows_fault::<StatusCount>(rows) is Some {
        rows_fault::<StatusCount>(rows)
    } else if exists|i: int| 0 <= i < counts.len() && !is_size((#[trigger] counts[i]).jobs) {
        Some(negative("quality job status count"@))
    } else {
        None
    }
}

proof fn lemma_statuses_differ()
    ensures
        "pending"@ != "running"@,
        "pending"@.len() == 7,
        "running"@.len() == 7,
        "succeeded"@.len() == 9,
        "failed"@.len() == 6,
        "skipped_stale"@.len() == 13,
        "skipped_excluded"@.len() == 16,
{
    reveal_strlit("pending");
    reveal_strlit("running");
    reveal_strlit("succeeded");
    reveal_strlit("failed");
    reveal_strlit("skipped_stale");
    reveal_strlit("skipped_excluded");
    assert("pending"@[0] == 'p');
    assert("running"@[0] == 'r');
}

/// Counts the jobs of a generation by status.
pub fn tally_quality_jobs(rows: &Vec<Row>) -> (r: Result<QualityJobStatusCounts, StoreError>)
    ensures
        match tally_fault(rows@) {
            Some(fault) => r matches Err(e) && is_fault(e, fault),
            None => r matches Ok(c) && is_tally(c, all_of::<StatusCount>(rows@)),
        },
{
    let list: Vec<StatusCount> = match collect_rows(rows) {
        Ok(list) => list,
        Err(error) => {
            return Err(error);
        },
    };
    let mut counts = QualityJobStatusCounts {
        pending_jobs: 0,
        running_jobs: 0,
        succeeded_jobs: 0,
        failed_jobs: 0,
        skipped_stale_jobs: 0,
        skipped_excluded_jobs: 0,
    };
    for i in 0..list.len()
        invariant
            list@ == all_of::<StatusCount>(rows@),
            rows_fault::<StatusCount>(rows@) is None,
            is_tally(counts, list@.take(i as int)),
            forall|k: int| 0 <= k < i ==> is_size((#[trigger] list@[k]).jobs),
    {
        let jobs = match usize_count(list[i].jobs, "quality job status count") {
            Ok(jobs) => jobs,
            Err(error) => {
                proof {
                    assert(!is_size(list@[i as int].jobs));
                }
                return Err(error);
            },
        };
        proof {
            lemma_statuses_differ();
            assert(list@.take(i + 1).drop_last() =~= list@.take(i as int));
        }
        let status = list[i].status.as_str();
        if same(status, "pending") {
            counts.pending_jobs = jobs;
        } else if same(status, "running") {
            counts.running_jobs = jobs;
        } else if same(status, "succeeded") {
            counts.succeeded_jobs = jobs;
        } else if same(status, "failed") {
            counts.failed_jobs = jobs;
        } else if same(status, "skipped_stale") {
            counts.skipped_stale_jobs = jobs;
        } else if same(status, "skipped_excluded") {
            counts.skipped_excluded_jobs = jobs;
        }
    }
    proof {
        assert(list@.take(list@.len() as int) =~= list@);
    }
    Ok(counts)
}

/// What the database says about the progress of a quality layer.
pub struct QualityGenerationFacts {
    /// The number of embeddable chunks.
    pub embeddable: Vec<Row>,
    /// The number of quality embeddings.
    pub embedded: Vec<Row>,
    /// The number of jobs by status.
    pub jobs: Vec<Row>,
}

/// The first thing that keeps the progress from being told.
pub open spec fn progress_fault(facts: QualityGenerationFacts) -> Option<Fault> {
    if only_fault::<i64>(facts.embeddable@) is Some {
        only_fault::<i64>(facts.embeddable@)
    } else if only_fault::<i64>(facts.embedded@) is Some {
        only_fault::<i64>(facts.embedded@)
    } else if !is_size(i64::of(facts.embeddable@[0]@)) {
        Some(negative("embeddable chunk count"@))
    } else if !is_size(i64::of(facts.embedded@[0]@)) {
        Some(negative("quality embedded chunk count"@))
    } else {
        tally_fault(facts.jobs@)
    }
}

/// The chunks that remain when those that are excluded are taken away.
pub open spec fn remaining(embeddable: usize, excluded: usize) -> usize {
    if excluded <= embeddable {
        (embeddable - excluded) as usize
    } else {
        0
    }
}

/// The chunks that the quality layer has to hold.
pub open spec fn eligible_chunks(facts: QualityGenerationFacts) -> usize {
    remaining(
        i64::of(facts.embeddable@[0]@) as usize,
        jobs_with(all_of::<StatusCount>(facts.jobs@), "skipped_excluded"@),
    )
}

/// `p` tells how far a quality layer is, given its chunks and its jobs.
pub open spec fn is_progress(
    p: QualityGenerationProgress,
    repository_id: Seq<char>,
    generation_id: Seq<char>,
    embeddable: usize,
    embedded: usize,
    c: QualityJobStatusCounts,
) -> bool {
    &&& p.repository_id@ == repository_id
    &&& p.generation_id@ == generation_id
    &&& p.embeddable_chunks == embeddable
    &&& p.quality_eligible_chunks == remaining(embeddable, c.skipped_excluded_jobs)
    &&& p.quality_ineligible_chunks == c.skipped_excluded_jobs
    &&& p.quality_embedded_chunks == embedded
    &&& p.pending_jobs == c.pending_jobs
    &&& p.running_jobs == c.running_jobs
    &&& p.succeeded_jobs == c.succeeded_jobs
    &&& p.failed_jobs == c.failed_jobs
    &&& p.skipped_stale_jobs == c.skipped_stale_jobs
    &&& p.skipped_excluded_jobs == c.skipped_excluded_jobs
}

fn progress_of(
    repository_id: &str,
    generation_id: &str,
    embeddable_chunks: usize,
    quality_embedded_chunks: usize,
    counts: QualityJobStatusCounts,
) -> (r: QualityGenerationProgress)
    ensures
        is_progress(
            r,
            repository_id@,
            generation_id@,
            embeddable_chunks,
            quality_embedded_chunks,
            counts,
        ),
{
    let excluded = counts.skipped_excluded_jobs;
    QualityGenerationProgress {
        repository_id: repository_id.to_owned(),
        generation_id: generation_id.to_owned(),
        embeddable_chunks,
        quality_eligible_chunks: if excluded <= embeddable_chunks {
            embeddable_chunks - excluded
        } else {
            0
        },
        quality_ineligible_chunks: excluded,
        quality_embedded_chunks,
        pending_jobs: counts.pending_jobs,
        running_jobs: counts.running_jobs,
        succeeded_jobs: counts.succeeded_jobs,
        failed_jobs: counts.failed_jobs,
        skipped_stale_jobs: counts.skipped_stale_jobs,
        skipped_excluded_jobs: counts.skipped_excluded_jobs,
    }
}

/// `p` tells the progress that the facts give.
pub open spec fn tells_progress(
    p: QualityGenerationProgress,
    repository_id: Seq<char>,
    generation_id: Seq<char>,
    facts: QualityGenerationFacts,
) -> bool {
    exists|c: QualityJobStatusCounts|
        is_tally(c, all_of::<StatusCount>(facts.jobs@)) && #[trigger] is_progress(
            p,
            repository_id,
            generation_id,
            i64::of(facts.embeddable@[0]@) as usize,
            i64::of(facts.embedded@[0]@) as usize,
            c,
        )
}

/// How far the quality layer of a generation is. The facts are what
/// `SqliteStore::quality_generation_progress` asks for.
pub fn quality_progress(
    repository_id: &str,
    generation_id: &str,
    facts: &QualityGenerationFacts,
) -> (r: Result<QualityGenerationProgress, StoreError>)
    ensures
        match progress_fault(*facts) {
            Some(fault) => r matches Err(e) && is_fault(e, fault),
            None => r matches Ok(p) && tells_progress(p, repository_id@, generation_id@, *facts),
        },
{
    let embeddable: i64 = match only_row(&facts.embeddable) {
        Ok(n) => n,
        Err(error) => {
            return Err(error);
        },
    };
    let embedded: i64 = match only_row(&facts.embedded) {
        Ok(n) => n,
        Err(error) => {
            return Err(error);
        },
    };
    let embeddable_chunks = match usize_count(embeddable, "embeddable chunk count") {
        Ok(n) => n,
        Err(error) => {
            return Err(error);
        },
    };
    let quality_embedded_chunks = match usize_count(embedded, "quality embedded chunk count") {
        Ok(n) => n,
        Err(error) => {
            return Err(error);
        },
    };
    let counts = match tally_quality_jobs(&facts.jobs) {
        Ok(counts) => counts,
        Err(error) => {
            return Err(error);
        },
    };
    let progress = progress_of(
        repository_id,
        generation_id,
        embeddable_chunks,
        quality_embedded_chunks,
        counts,
    );
    Ok(progress)
}

/// The queries for the progress of a quality layer.
pub open spec fn progress_queries(repository_id: Seq<char>, generation_id: Seq<char>) -> Seq<
    CommandView,
> {
    seq![
        CommandView::Query(embeddable_chunks_spec(repository_id, generation_id)),
        CommandView::Query(current_quality_embeddings_spec(repository_id, generation_id)),
        CommandView::Query(quality_job_counts_spec(repository_id, generation_id)),
    ]
}

/// The step that stores the progress of a quality layer. A layer that has failed jobs and no open
/// ones has failed; its dimension is stored where it is known.
pub open spec fn progress_stored(
    repository_id: Seq<char>,
    generation_id: Seq<char>,
    dimension: Option<usize>,
    at: Seq<char>,
    embedded: i64,
    open_jobs: i64,
    failed: i64,
) -> StatementView {
    let failed_text = SemanticLayerStatus::QualityFailed.text();
    match dimension {
        Some(dimension) => if open_jobs == 0 && failed > 0 {
            update_failed_with_dimension_spec(
                repository_id,
                generation_id,
                dimension,
                at,
                embedded,
                failed_text,
            )
        } else {
            update_with_dimension_spec(repository_id, generation_id, dimension, at, embedded)
        },
        None => if open_jobs == 0 && failed > 0 {
            update_failed_spec(repository_id, generation_id, embedded, failed_text, at)
        } else {
            update_progress_spec(repository_id, generation_id, embedded, at)
        },
    }
}

/// What is wrong with the three counts that the progress is stored from.
pub open spec fn refresh_fault(embedded: Seq<Row>, open_jobs: Seq<Row>, failed: Seq<Row>) -> Option<
    Fault,
> {
    if only_fault::<i64>(embedded) is Some {
        only_fault::<i64>(embedded)
    } else if only_fault::<i64>(open_jobs) is Some {
        only_fault::<i64>(open_jobs)
    } else {
        only_fault::<i64>(failed)
    }
}

impl SqliteStore {
    /// The queries for the progress of a quality layer. The answers go to `quality_progress`.
    pub fn quality_generation_progress(repository_id: &str, generation_id: &str) -> (r: Vec<
        Command,
    >)
        ensures
            script(r@) == progress_queries(repository_id@, generation_id@),
    {
        let commands = vec![
            Command::Query(SqliteStore::embeddable_chunks(repository_id, generation_id)),
            Command::Query(SqliteStore::current_quality_embeddings(repository_id, generation_id)),
            Command::Query(SqliteStore::quality_job_counts(repository_id, generation_id)),
        ];
        proof {
            assert(script(commands@) =~= progress_queries(repository_id@, generation_id@));
        }
        commands
    }

    /// The first steps of storing the progress of a quality layer. The answers go to
    /// `store_quality_progress`.
    pub fn refresh_quality_generation_progress(repository_id: &str, generation_id: &str) -> (r: Vec<
        Command,
    >)
        ensures
            script(r@) == seq![
                CommandView::Begin,
                CommandView::Query(current_quality_embeddings_spec(repository_id@, generation_id@)),
                CommandView::Query(open_quality_jobs_spec(repository_id@, generation_id@)),
                CommandView::Query(failed_quality_jobs_spec(repository_id@, generation_id@)),
            ],
    {
        let commands = vec![
            Command::Begin,
            Command::Query(SqliteStore::current_quality_embeddings(repository_id, generation_id)),
            Command::Query(SqliteStore::open_quality_jobs(repository_id, generation_id)),
            Command::Query(SqliteStore::failed_quality_jobs(repository_id, generation_id)),
        ];
        proof {
            assert(script(commands@) =~= seq![
                CommandView::Begin,
                CommandView::Query(current_quality_embeddings_spec(repository_id@, generation_id@)),
                CommandView::Query(open_quality_jobs_spec(repository_id@, generation_id@)),
                CommandView::Query(failed_quality_jobs_spec(repository_id@, generation_id@)),
            ]);
        }
        commands
    }

    /// The steps that store the progress of a quality layer and ask for it anew.
    pub fn store_quality_progress(
        repository_id: &str,
        generation_id: &str,
        quality_dimension: Option<usize>,
        updated_at: &str,
        embedded: &Vec<Row>,
        open_jobs: &Vec<Row>,
        failed: &Vec<Row>,
    ) -> (r: Result<Vec<Command>, StoreError>)
        ensures
            match refresh_fault(embedded@, open_jobs@, failed@) {
                Some(fault) => r matches Err(e) && is_fault(e, fault),
                None => r matches Ok(commands) && script(commands@) == seq![
                    CommandView::Execute(
                        progress_stored(
                            repository_id@,
                            generation_id@,
                            quality_dimension,
                            updated_at@,
                            i64::of(embedded@[0]@),
                            i64::of(open_jobs@[0]@),
                            i64::of(failed@[0]@),
                        ),
                    ),
                    CommandView::Commit,
                ] + progress_queries(repository_id@, generation_id@),
            },
    {
        let current: i64 = match only_row(embedded) {
            Ok(n) => n,
            Err(error) => {
                return Err(error);
            },
        };
        let pending_or_running: i64 = match only_row(open_jobs) {
            Ok(n) => n,
            Err(error) => {
                return Err(error);
            },
        };
        let failures: i64 = match only_row(failed) {
            Ok(n) => n,
            Err(error) => {
                return Err(error);
            },
        };
        let has_failed = pending_or_running == 0 && failures > 0;
        let status = SemanticLayerStatus::QualityFailed.as_str();
        let update = match quality_dimension {
            Some(dimension) => if has_failed {
                SqliteStore::update_failed_with_dimension(
                    repository_id,
                    generation_id,
                    dimension,
                    updated_at,
                    current,
                    status,
                )
            } else {
                SqliteStore::update_with_dimension(
                    repository_id,
                    generation_id,
                    dimension,
                    updated_at,
                    current,
                )
            },
            None => if has_failed {
                SqliteStore::update_failed(
                    repository_id,
                    generation_id,
                    current,
                    status,
                    updated_at,
                )
            } else {
                SqliteStore::update_progress(repository_id, generation_id, current, updated_at)
            },
        };
        let commands = vec![
            Command::Execute(update),
            Command::Commit,
            Command::Query(SqliteStore::embeddable_chunks(repository_id, generation_id)),
            Command::Query(SqliteStore::current_quality_embeddings(repository_id, generation_id)),
            Command::Query(SqliteStore::quality_job_counts(repository_id, generation_id)),
        ];
        proof {
            assert(script(commands@) =~= seq![
                CommandView::Execute(
                    progress_stored(
                        repository_id@,
                        generation_id@,
                        quality_dimension,
                        updated_at@,
                        current,
                        pending_or_running,
                        failures,
                    ),
                ),
                CommandView::Commit,
            ] + progress_queries(repository_id@, generation_id@));
        }
        Ok(commands)
    }
}

impl QualityActivationReason {
    pub open spec fn text(self) -> Seq<char> {
        match self {
            QualityActivationReason::QualityComplete => "quality_complete"@,
            QualityActivationReason::GenerationNotLatest => "generation_not_latest"@,
            QualityActivationReason::QualityModelMissing => "quality_model_missing"@,
            QualityActivationReason::QualityDimensionMissing => "quality_dimension_missing"@,
            QualityActivationReason::NoEmbeddableChunks => "no_embeddable_chunks"@,
            QualityActivationReason::QualityCoverageIncomplete => "quality_coverage_incomplete"@,
            QualityActivationReason::QualityJobsPending => "quality_jobs_pending"@,
            QualityActivationReason::QualityJobsFailed => "quality_jobs_failed"@,
            QualityActivationReason::QualityJobsStale => "quality_jobs_stale"@,
            QualityActivationReason::QualityBlocked => "quality_blocked"@,
            QualityActivationReason::QualityStale => "quality_stale"@,
        }
    }

    pub fn as_str(self) -> (r: &'static str)
        ensures
            r@ == self.text(),
    {
        match self {
            QualityActivationReason::QualityComplete => "quality_complete",
            QualityActivationReason::GenerationNotLatest => "generation_not_latest",
            QualityActivationReason::QualityModelMissing => "quality_model_missing",
            QualityActivationReason::QualityDimensionMissing => "quality_dimension_missing",
            QualityActivationReason::NoEmbeddableChunks => "no_embeddable_chunks",
            QualityActivationReason::QualityCoverageIncomplete => "quality_coverage_incomplete",
            QualityActivationReason::QualityJobsPending => "quality_jobs_pending",
            QualityActivationReason::QualityJobsFailed => "quality_jobs_failed",
            QualityActivationReason::QualityJobsStale => "quality_jobs_stale",
            QualityActivationReason::QualityBlocked => "quality_blocked",
            QualityActivationReason::QualityStale => "quality_stale",
        }
    }
}

/// The dimension of a quality layer: the one that is stored, else the one that was given.
pub open spec fn effective_dimension(stored: Option<usize>, given: Option<usize>) -> Option<usize> {
    if stored is Some {
        stored
    } else {
        given
    }
}

/// Why the quality layer of a generation is or is not active: the first reason that applies.
pub open spec fn activation_reason(
    is_latest: bool,
    has_model: bool,
    dimension: Option<usize>,
    embeddable: usize,
    embedded: usize,
    c: QualityJobStatusCounts,
    previous: SemanticLayerStatus,
) -> QualityActivationReason {
    if !is_latest {
        QualityActivationReason::GenerationNotLatest
    } else if !has_model {
        QualityActivationReason::QualityModelMissing
    } else if dimension is None {
        QualityActivationReason::QualityDimensionMissing
    } else if embeddable == 0 {
        QualityActivationReason::NoEmbeddableChunks
    } else if c.pending_jobs + c.running_jobs > 0 {
        QualityActivationReason::QualityJobsPending
    } else if c.failed_jobs > 0 {
        QualityActivationReason::QualityJobsFailed
    } else if c.skipped_stale_jobs > 0 {
        QualityActivationReason::QualityJobsStale
    } else if embedded + c.skipped_excluded_jobs == embeddable {
        QualityActivationReason::QualityComplete
    } else if previous == SemanticLayerStatus::QualityBlocked {
        QualityActivationReason::QualityBlocked
    } else if previous == SemanticLayerStatus::QualityStale {
        QualityActivationReason::QualityStale
    } else {
        QualityActivationReason::QualityCoverageIncomplete
    }
}

/// The state of the quality layer after a refresh.
pub open spec fn status_after(
    reason: QualityActivationReason,
    previous: SemanticLayerStatus,
) -> SemanticLayerStatus {
    match reason {
        QualityActivationReason::QualityComplete => SemanticLayerStatus::QualityReady,
        QualityActivationReason::QualityJobsFailed => SemanticLayerStatus::QualityFailed,
        QualityActivationReason::QualityJobsPending
        | QualityActivationReason::QualityJobsStale
        | QualityActivationReason::QualityCoverageIncomplete => SemanticLayerStatus::QualityPending,
        _ => previous,
    }
}

/// The active layer after a refresh.
pub open spec fn layer_after(
    reason: QualityActivationReason,
    previous: SemanticLayer,
) -> SemanticLayer {
    match reason {
        QualityActivationReason::QualityComplete => SemanticLayer::Quality,
        QualityActivationReason::GenerationNotLatest => previous,
        _ => SemanticLayer::Fast,
    }
}

/// When the quality layer was completed, as it is stored after a refresh of the latest generation.
pub open spec fn completed_after(reason: QualityActivationReason, at: Seq<char>) -> Option<
    Seq<char>,
> {
    if reason == QualityActivationReason::QualityComplete {
        Some(at)
    } else {
        None
    }
}

/// The quality layer of the latest generation answers exactly when it is complete: a model and a
/// dimension are known, there is something to embed, no job is open, failed or stale, and every
/// embeddable chunk is embedded or excluded.
pub proof fn law_quality_answers_exactly_when_complete(
    has_model: bool,
    dimension: Option<usize>,
    embeddable: usize,
    embedded: usize,
    c: QualityJobStatusCounts,
    previous: SemanticLayerStatus,
    layer: SemanticLayer,
)
    ensures
        ({
            let reason = activation_reason(
                true,
                has_model,
                dimension,
                embeddable,
                embedded,
                c,
                previous,
            );
            let complete = has_model && dimension is Some && embeddable > 0 && c.pending_jobs == 0
                && c.running_jobs == 0 && c.failed_jobs == 0 && c.skipped_stale_jobs == 0
                && embedded + c.skipped_excluded_jobs == embeddable;
            &&& layer_after(reason, layer) == SemanticLayer::Quality <==> complete
            &&& complete ==> status_after(reason, previous) == SemanticLayerStatus::QualityReady
            &&& reason == QualityActivationReason::QualityComplete <==> complete
        }),
{
}

/// A generation that is not the latest one keeps its state and its active layer.
pub proof fn law_old_generations_are_left_alone(
    has_model: bool,
    dimension: Option<usize>,
    embeddable: usize,
    embedded: usize,
    c: QualityJobStatusCounts,
    previous: SemanticLayerStatus,
    layer: SemanticLayer,
)
    ensures
        ({
            let reason = activation_reason(
                false,
                has_model,
                dimension,
                embeddable,
                embedded,
                c,
                previous,
            );
            status_after(reason, previous) == previous && layer_after(reason, layer) == layer
        }),
{
}

/// A second refresh on the same facts decides what the first one decided.
pub proof fn law_refreshing_twice_changes_nothing(
    is_latest: bool,
    has_model: bool,
    stored: Option<usize>,
    given: Option<usize>,
    embeddable: usize,
    embedded: usize,
    c: QualityJobStatusCounts,
    previous: SemanticLayerStatus,
    layer: SemanticLayer,
)
    ensures
        ({
            let dimension = effective_dimension(stored, given);
            let first = activation_reason(
                is_latest,
                has_model,
                dimension,
                embeddable,
                embedded,
                c,
                previous,
            );
            let second = activation_reason(
                is_latest,
                has_model,
                effective_dimension(dimension, given),
                embeddable,
                embedded,
                c,
                status_after(first, previous),
            );
            &&& second == first
            &&& status_after(second, status_after(first, previous)) == status_after(first, previous)
            &&& layer_after(second, layer_after(first, layer)) == layer_after(first, layer)
        }),
{
}

/// What the database says when the activation of a quality layer is refreshed.
pub struct QualityActivationFacts {
    /// The generation.
    pub generation: Vec<Row>,
    /// The id of the latest generation.
    pub latest: Vec<Row>,
    /// The number of quality embeddings.
    pub embedded: Vec<Row>,
    /// The number of jobs by status.
    pub jobs: Vec<Row>,
}

/// The first thing that keeps the activation from being decided.
pub open spec fn activation_fault(facts: QualityActivationFacts) -> Option<Fault> {
    let g = SemanticGenerationRecord::of(facts.generation@[0]@);
    if only_fault::<SemanticGenerationRecord>(facts.generation@) is Some {
        only_fault::<SemanticGenerationRecord>(facts.generation@)
    } else if only_fault::<String>(facts.latest@) is Some {
        only_fault::<String>(facts.latest@)
    } else if SemanticLayerStatus::named(g.quality_status@) is None {
        Some(Fault::Unexpected("invalid semantic layer status"@))
    } else if SemanticLayer::named(g.active_layer@) is None {
        Some(Fault::Unexpected("invalid semantic layer"@))
    } else if only_fault::<i64>(facts.embedded@) is Some {
        only_fault::<i64>(facts.embedded@)
    } else if tally_fault(facts.jobs@) is Some {
        tally_fault(facts.jobs@)
    } else if !is_size(i64::of(facts.embedded@[0]@)) {
        Some(negative("quality embedded chunk count"@))
    } else {
        None
    }
}

/// `summary` and `steps` are what a refresh decides on facts that can be read, where `c` are the
/// counts of jobs.
pub open spec fn is_activation(
    summary: QualityActivationSummary,
    steps: Seq<CommandView>,
    repository_id: Seq<char>,
    generation_id: Seq<char>,
    given: Option<usize>,
    at: Seq<char>,
    facts: QualityActivationFacts,
    c: QualityJobStatusCounts,
) -> bool {
    let g = SemanticGenerationRecord::of(facts.generation@[0]@);
    let is_latest = g.id@ == String::of(facts.latest@[0]@)@;
    let previous = SemanticLayerStatus::named(g.quality_status@)->Some_0;
    let layer = SemanticLayer::named(g.active_layer@)->Some_0;
    let embedded = i64::of(facts.embedded@[0]@) as usize;
    let dimension = effective_dimension(g.quality_dimension, given);
    let reason = activation_reason(
        is_latest,
        g.quality_model is Some,
        dimension,
        g.embeddable_chunks,
        embedded,
        c,
        previous,
    );
    &&& summary.repository_id@ == repository_id
    &&& summary.generation_id@ == generation_id
    &&& summary.previous_status == previous
    &&& summary.quality_status == status_after(reason, previous)
    &&& summary.active_layer == layer_after(reason, layer)
    &&& summary.reason == reason
    &&& is_progress(
        summary.progress,
        repository_id,
        generation_id,
        g.embeddable_chunks,
        embedded,
        c,
    )
    &&& steps == if is_latest {
        seq![
            CommandView::Execute(
                update_activation_spec(
                    repository_id,
                    generation_id,
                    dimension,
                    at,
                    embedded,
                    status_after(reason, previous).text(),
                    completed_after(reason, at),
                    layer_after(reason, layer).text(),
                ),
            ),
            CommandView::Commit,
        ]
    } else {
        seq![CommandView::Commit]
    }
}

/// Some counts of jobs that the facts give lead to this decision.
pub open spec fn decides_activation(
    summary: QualityActivationSummary,
    steps: Seq<CommandView>,
    repository_id: Seq<char>,
    generation_id: Seq<char>,
    given: Option<usize>,
    at: Seq<char>,
    facts: QualityActivationFacts,
) -> bool {
    exists|c: QualityJobStatusCounts|
        is_tally(c, all_of::<StatusCount>(facts.jobs@)) && #[trigger] is_activation(
            summary,
            steps,
            repository_id,
            generation_id,
            given,
            at,
            facts,
            c,
        )
}

fn reason_for(
    is_latest: bool,
    has_model: bool,
    dimension: Option<usize>,
    embeddable: usize,
    embedded: usize,
    counts: QualityJobStatusCounts,
    previous: SemanticLayerStatus,
) -> (r: QualityActivationReason)
    ensures
        r == activation_reason(
            is_latest,
            has_model,
            dimension,
            embeddable,
            embedded,
            counts,
            previous,
        ),
{
    if !is_latest {
        QualityActivationReason::GenerationNotLatest
    } else if !has_model {
        QualityActivationReason::QualityModelMissing
    } else if dimension.is_none() {
        QualityActivationReason::QualityDimensionMissing
    } else if embeddable == 0 {
        QualityActivationReason::NoEmbeddableChunks
    } else if counts.pending_jobs > 0 || counts.running_jobs > 0 {
        QualityActivationReason::QualityJobsPending
    } else if counts.failed_jobs > 0 {
        QualityActivationReason::QualityJobsFailed
    } else if counts.skipped_stale_jobs > 0 {
        QualityActivationReason::QualityJobsStale
    } else if embedded as u128 + counts.skipped_excluded_jobs as u128 == embeddable as u128 {
        QualityActivationReason::QualityComplete
    } else if previous == SemanticLayerStatus::QualityBlocked {
        QualityActivationReason::QualityBlocked
    } else if previous == SemanticLayerStatus::QualityStale {
        QualityActivationReason::QualityStale
    } else {
        QualityActivationReason::QualityCoverageIncomplete
    }
}

impl SqliteStore {
    /// The first steps of refreshing the activation of a quality layer. The answers go to
    /// `decide_quality_activation`.
    pub fn refresh_quality_activation(repository_id: &str, generation_id: &str) -> (r: Vec<Command>)
        ensures
            script(r@) == seq![
                CommandView::Begin,
                CommandView::Query(semantic_generation_spec(repository_id@, generation_id@)),
                CommandView::Query(latest_semantic_generation_id_spec(repository_id@)),
                CommandView::Query(current_quality_embeddings_spec(repository_id@, generation_id@)),
                CommandView::Query(quality_job_counts_spec(repository_id@, generation_id@)),
            ],
    {
        let commands = vec![
            Command::Begin,
            Command::Query(SqliteStore::semantic_generation(repository_id, generation_id)),
            Command::Query(SqliteStore::latest_semantic_generation_id(repository_id)),
            Command::Query(SqliteStore::current_quality_embeddings(repository_id, generation_id)),
            Command::Query(SqliteStore::quality_job_counts(repository_id, generation_id)),
        ];
        proof {
            assert(script(commands@) =~= seq![
                CommandView::Begin,
                CommandView::Query(semantic_generation_spec(repository_id@, generation_id@)),
                CommandView::Query(latest_semantic_generation_id_spec(repository_id@)),
                CommandView::Query(current_quality_embeddings_spec(repository_id@, generation_id@)),
                CommandView::Query(quality_job_counts_spec(repository_id@, generation_id@)),
            ]);
        }
        commands
    }

    /// Decides whether the quality layer of a generation becomes active, and the steps that store
    /// it: none but the last where the generation is not the latest one.
    pub fn decide_quality_activation(
        repository_id: &str,
        generation_id: &str,
        quality_dimension: Option<usize>,
        updated_at: &str,
        facts: &QualityActivationFacts,
    ) -> (r: Result<(QualityActivationSummary, Vec<Command>), StoreError>)
        ensures
            match activation_fault(*facts) {
                Some(fault) => r matches Err(e) && is_fault(e, fault),
                None => r matches Ok(done) && decides_activation(
                    done.0,
                    script(done.1@),
                    repository_id@,
                    generation_id@,
                    quality_dimension,
                    updated_at@,
                    *facts,
                ),
            },
    {
        let generation: SemanticGenerationRecord = match only_row(&facts.generation) {
            Ok(generation) => generation,
            Err(error) => {
                return Err(error);
            },
        };
        let latest: String = match only_row(&facts.latest) {
            Ok(latest) => latest,
            Err(error) => {
                return Err(error);
            },
        };
        let previous_status = match SemanticLayerStatus::parse(generation.quality_status.as_str()) {
            Some(status) => status,
            None => {
                return Err(
                    StoreError::UnexpectedResponse("invalid semantic layer status".to_owned()),
                );
            },
        };
        let previous_layer = match SemanticLayer::parse(generation.active_layer.as_str()) {
            Some(layer) => layer,
            None => {
                return Err(StoreError::UnexpectedResponse("invalid semantic layer".to_owned()));
            },
        };
        let current: i64 = match only_row(&facts.embedded) {
            Ok(n) => n,
            Err(error) => {
                return Err(error);
            },
        };
        let counts = match tally_quality_jobs(&facts.jobs) {
            Ok(counts) => counts,
            Err(error) => {
                return Err(error);
            },
        };
        let embedded = match usize_count(current, "quality embedded chunk count") {
            Ok(n) => n,
            Err(error) => {
                return Err(error);
            },
        };
        let dimension = if generation.quality_dimension.is_some() {
            generation.quality_dimension
        } else {
            quality_dimension
        };
        let is_latest = same(generation.id.as_str(), latest.as_str());
        let reason = reason_for(
            is_latest,
            generation.quality_model.is_some(),
            dimension,
            generation.embeddable_chunks,
            embedded,
            counts,
            previous_status,
        );
        let quality_status = match reason {
            QualityActivationReason::QualityComplete => SemanticLayerStatus::QualityReady,
            QualityActivationReason::QualityJobsFailed => SemanticLayerStatus::QualityFailed,
            QualityActivationReason::QualityJobsPending
            | QualityActivationReason::QualityJobsStale
            | QualityActivationReason::QualityCoverageIncomplete => {
                SemanticLayerStatus::QualityPending
            },
            _ => previous_status,
        };
        let active_layer = match reason {
            QualityActivationReason::QualityComplete => SemanticLayer::Quality,
            QualityActivationReason::GenerationNotLatest => previous_layer,
            _ => SemanticLayer::Fast,
        };
        let mut commands: Vec<Command> = Vec::new();
        if is_latest {
            let completed_at = if reason == QualityActivationReason::QualityComplete {
                Some(updated_at)
            } else {
                None
            };
            commands.push(
                Command::Execute(
                    SqliteStore::update_activation(
                        repository_id,
                        generation_id,
                        dimension,
                        updated_at,
                        embedded,
                        quality_status.as_str(),
                        completed_at,
                        active_layer.as_str(),
                    ),
                ),
            );
        }
        commands.push(Command::Commit);
        let progress = progress_of(
            repository_id,
            generation_id,
            generation.embeddable_chunks,
            embedded,
            counts,
        );
        let summary = QualityActivationSummary {
            repository_id: repository_id.to_owned(),
            generation_id: generation_id.to_owned(),
            previous_status,
            quality_status,
            active_layer,
            reason,
            progress,
        };
        proof {
            let steps = if is_latest {
                seq![
                    CommandView::Execute(
                        update_activation_spec(
                            repository_id@,
                            generation_id@,
                            dimension,
                            updated_at@,
                            embedded,
                            quality_status.text(),
                            completed_after(reason, updated_at@),
                            active_layer.text(),
                        ),
                    ),
                    CommandView::Commit,
                ]
            } else {
                seq![CommandView::Commit]
            };
            assert(script(commands@) =~= steps);
            assert(is_activation(
                summary,
                script(commands@),
                repository_id@,
                generation_id@,
                quality_dimension,
                updated_at@,
                *facts,
                counts,
            ));
        }
        Ok((summary, commands))
    }
}

/// A queue of jobs is stored in one transaction, and so is a block.
pub proof fn law_queues_are_stored_whole(
    g: SemanticGenerationRecord,
    model: Seq<char>,
    jobs: Seq<QualityEmbeddingJobRecord>,
    at: Seq<char>,
)
    ensures
        is_transaction(queue_script(g, model, jobs, at)),
        is_transaction(block_script(g, model, at)),
{
    let queue = queue_script(g, model, jobs, at);
    assert(closes_at(queue, queue.len() - 1));
    let block = block_script(g, model, at);
    assert(closes_at(block, block.len() - 1));
}

} // verus!
