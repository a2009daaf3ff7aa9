//! Runs of the indexer.

use vstd::prelude::*;
use crate::error::{is_fault, StoreError};
use crate::records::{
    EmbeddingIndexMetadata, IndexRunRecord, IndexRunTimelineRow, IndexRunsTimelineSummary,
};
use crate::sql::{
    all_of, collect_rows, count, count_value, optional, optional_count, optional_count_value,
    optional_owned_value, owned_value, rows_fault, statement, statement_of, text, text_value,
    values, FromRow, Row, Statement, StatementView,
};
use crate::store::SqliteStore;
use crate::text::optional_text;

verus! {

pub const START_INDEX_RUN: &'static str = "INSERT INTO index_runs (
               id, repository_id, repository_ref_id, started_at, finished_at, status, embedding_model,
     embedding_dimension, files_seen, files_indexed, chunks_embedded,
     error_summary, parser_version, indexer_version, run_kind
    )
              VALUES (?1, ?2, ?3, ?4, NULL, ?5, ?6, ?7, ?8, ?9, ?10, ?11, ?12, ?13, ?14)
    ON CONFLICT(id) DO UPDATE SET
                  repository_ref_id = excluded.repository_ref_id,
      started_at = excluded.started_at,
      finished_at = NULL,
      status = excluded.status,
      embedding_model = excluded.embedding_model,
      embedding_dimension = excluded.embedding_dimension,
      files_seen = excluded.files_seen,
      files_indexed = excluded.files_indexed,
      chunks_embedded = excluded.chunks_embedded,
      error_summary = excluded.error_summary,
      parser_version = excluded.parser_version,
      indexer_version = excluded.indexer_version,
      run_kind = excluded.run_kind";

pub const FINISH_INDEX_RUN: &'static str = "INSERT INTO index_runs (
               id, repository_id, repository_ref_id, started_at, finished_at, status, embedding_model,
     embedding_dimension, files_seen, files_indexed, chunks_embedded,
     error_summary, parser_version, indexer_version, run_kind
    )
              VALUES (?1, ?2, ?3, ?4, ?4, ?5, ?6, ?7, ?8, ?9, ?10, ?11, ?12, ?13, ?14)
    ON CONFLICT(id) DO UPDATE SET
                  repository_ref_id = excluded.repository_ref_id,
      finished_at = excluded.finished_at,
      status = excluded.status,
      embedding_model = excluded.embedding_model,
      embedding_dimension = excluded.embedding_dimension,
      files_seen = excluded.files_seen,
      files_indexed = excluded.files_indexed,
      chunks_embedded = excluded.chunks_embedded,
      error_summary = excluded.error_summary,
      parser_version = excluded.parser_version,
      indexer_version = excluded.indexer_version,
      run_kind = excluded.run_kind";

pub const LATEST_EMBEDDING_RUN: &'static str =
    "SELECT embedding_model, embedding_dimension, chunks_embedded
    FROM index_runs
    WHERE repository_id = ?1
      AND status = 'success'
      AND embedding_dimension IS NOT NULL
    ORDER BY finished_at DESC, started_at DESC
    LIMIT 1";

pub const LATEST_EMBEDDING_RUN_FOR_MODEL: &'static str =
    "SELECT embedding_model, embedding_dimension, chunks_embedded
    FROM index_runs
    WHERE repository_id = ?1
      AND embedding_model = ?2
      AND status = 'success'
      AND embedding_dimension IS NOT NULL
    ORDER BY finished_at DESC, started_at DESC
    LIMIT 1";

pub const SUCCESSFUL_EMBEDDING_DIMENSIONS: &'static str = "SELECT DISTINCT embedding_dimension
    FROM index_runs
    WHERE repository_id = ?1
      AND embedding_model = ?2
      AND status = 'success'
      AND embedding_dimension IS NOT NULL
    ORDER BY embedding_dimension";

pub const INDEX_RUNS_TIMELINE: &'static str =
    "SELECT id, started_at, finished_at, status, embedding_model,
           embedding_dimension, files_seen, files_indexed,
           chunks_embedded, error_summary, run_kind
    FROM index_runs
    WHERE repository_id = ?1
    ORDER BY started_at DESC, finished_at DESC, id DESC
    LIMIT 50";

/// The reading of `start_index_run`.
pub open spec fn start_index_run_spec(run: IndexRunRecord, now: Seq<char>) -> StatementView {
    statement_of(
        START_INDEX_RUN,
        seq![
            text(run.id@),
            text(run.repository_id@),
            optional(optional_text(run.repository_ref_id)),
            text(now),
            text(run.status@),
            text(run.embedding_model@),
            optional_count(run.embedding_dimension),
            count(run.files_seen),
            count(run.files_indexed),
            count(run.chunks_embedded),
            optional(optional_text(run.error_summary)),
            text(run.parser_version@),
            text(run.indexer_version@),
            text(run.run_kind@),
        ],
    )
}

/// The reading of `finish_index_run`.
pub open spec fn finish_index_run_spec(run: IndexRunRecord, now: Seq<char>) -> StatementView {
    statement_of(
        FINISH_INDEX_RUN,
        seq![
            text(run.id@),
            text(run.repository_id@),
            optional(optional_text(run.repository_ref_id)),
            text(now),
            text(run.status@),
            text(run.embedding_model@),
            optional_count(run.embedding_dimension),
            count(run.files_seen),
            count(run.files_indexed),
            count(run.chunks_embedded),
            optional(optional_text(run.error_summary)),
            text(run.parser_version@),
            text(run.indexer_version@),
            text(run.run_kind@),
        ],
    )
}

/// The reading of `latest_embedding_run`.
pub open spec fn latest_embedding_run_spec(repository_id: Seq<char>) -> StatementView {
    statement_of(LATEST_EMBEDDING_RUN, seq![text(repository_id)])
}

/// The reading of `latest_embedding_run_for_model`.
pub open spec fn latest_embedding_run_for_model_spec(
    repository_id: Seq<char>,
    embedding_model: Seq<char>,
) -> StatementView {
    statement_of(LATEST_EMBEDDING_RUN_FOR_MODEL, seq![text(repository_id), text(embedding_model)])
}

/// The reading of `successful_embedding_dimensions`.
pub open spec fn successful_embedding_dimensions_spec(
    repository_id: Seq<char>,
    embedding_model: Seq<char>,
) -> StatementView {
    statement_of(
        SUCCESSFUL_EMBEDDING_DIMENSIONS,
        seq![
            text(repository_id),
            text(embedding_model),
        ],
    )
}

/// The reading of `index_runs_timeline`.
pub open spec fn index_runs_timeline_spec(repository_id: Seq<char>) -> StatementView {
    statement_of(INDEX_RUNS_TIMELINE, seq![text(repository_id)])
}

impl SqliteStore {
    /// Records that a run started `now`.
    pub fn start_index_run(run: &IndexRunRecord, now: &str) -> (r: Statement)
        ensures
            r@ == start_index_run_spec(*run, now@),
    {
        let params = vec![
            owned_value(&run.id),
            owned_value(&run.repository_id),
            optional_owned_value(&run.repository_ref_id),
            text_value(now),
            owned_value(&run.status),
            owned_value(&run.embedding_model),
            optional_count_value(run.embedding_dimension),
            count_value(run.files_seen),
            count_value(run.files_indexed),
            count_value(run.chunks_embedded),
            optional_owned_value(&run.error_summary),
            owned_value(&run.parser_version),
            owned_value(&run.indexer_version),
            owned_value(&run.run_kind),
        ];
        proof {
            assert(values(params@) =~= start_index_run_spec(*run, now@).params);
        }
        statement(START_INDEX_RUN, params)
    }

    /// Records that a run finished `now`.
    pub fn finish_index_run(run: &IndexRunRecord, now: &str) -> (r: Statement)
        ensures
            r@ == finish_index_run_spec(*run, now@),
    {
        let params = vec![
            owned_value(&run.id),
            owned_value(&run.repository_id),
            optional_owned_value(&run.repository_ref_id),
            text_value(now),
            owned_value(&run.status),
            owned_value(&run.embedding_model),
            optional_count_value(run.embedding_dimension),
            count_value(run.files_seen),
            count_value(run.files_indexed),
            count_value(run.chunks_embedded),
            optional_owned_value(&run.error_summary),
            owned_value(&run.parser_version),
            owned_value(&run.indexer_version),
            owned_value(&run.run_kind),
        ];
        proof {
            assert(values(params@) =~= finish_index_run_spec(*run, now@).params);
        }
        statement(FINISH_INDEX_RUN, params)
    }

    /// The latest successful run with embeddings. Read as an `EmbeddingIndexMetadata`.
    pub fn latest_embedding_run(repository_id: &str) -> (r: Statement)
        ensures
            r@ == latest_embedding_run_spec(repository_id@),
    {
        let params = vec![text_value(repository_id)];
        proof {
            assert(values(params@) =~= latest_embedding_run_spec(repository_id@).params);
        }
        statement(LATEST_EMBEDDING_RUN, params)
    }

    /// The latest successful run with embeddings of a model. Read as an `EmbeddingIndexMetadata`.
    pub fn latest_embedding_run_for_model(
        repository_id: &str,
        embedding_model: &str,
    ) -> (r: Statement)
        ensures
            r@ == latest_embedding_run_for_model_spec(repository_id@, embedding_model@),
    {
        let params = vec![text_value(repository_id), text_value(embedding_model)];
        proof {
            assert(values(params@) =~= latest_embedding_run_for_model_spec(
                repository_id@,
                embedding_model@,
            ).params);
        }
        statement(LATEST_EMBEDDING_RUN_FOR_MODEL, params)
    }

    /// The dimensions that successful runs with a model recorded. Read as `usize`s.
    pub fn successful_embedding_dimensions(
        repository_id: &str,
        embedding_model: &str,
    ) -> (r: Statement)
        ensures
            r@ == successful_embedding_dimensions_spec(repository_id@, embedding_model@),
    {
        let params = vec![text_value(repository_id), text_value(embedding_model)];
        proof {
            assert(values(params@) =~= successful_embedding_dimensions_spec(
                repository_id@,
                embedding_model@,
            ).params);
        }
        statement(SUCCESSFUL_EMBEDDING_DIMENSIONS, params)
    }

    /// The latest runs. Read as `IndexRunTimelineRow`s.
    pub fn index_runs_timeline(repository_id: &str) -> (r: Statement)
        ensures
            r@ == index_runs_timeline_spec(repository_id@),
    {
        let params = vec![text_value(repository_id)];
        proof {
            assert(values(params@) =~= index_runs_timeline_spec(repository_id@).params);
        }
        statement(INDEX_RUNS_TIMELINE, params)
    }
}

impl SqliteStore {
    /// Records a run that is already over.
    pub fn record_index_run(run: &IndexRunRecord, now: &str) -> (r: Statement)
        ensures
            r@ == finish_index_run_spec(*run, now@),
    {
        SqliteStore::finish_index_run(run, now)
    }

    /// Whether embeddings of a model with the given dimension can be added to those of the latest
    /// run with that model: they cannot where that run recorded another dimension.
    pub fn ensure_embedding_compatible(
        repository_id: &str,
        embedding_model: &str,
        embedding_dimension: usize,
        previous: &Option<EmbeddingIndexMetadata>,
    ) -> (r: Result<(), StoreError>)
        ensures
            match recorded_dimension(*previous) {
                Some(dimension) => if dimension == embedding_dimension {
                    r is Ok
                } else {
                    r matches Err(e) && is_dimension_change(
                        e,
                        repository_id@,
                        embedding_model@,
                        dimension,
                        embedding_dimension,
                    )
                },
                None => r is Ok,
            },
    {
        if let Some(run) = previous {
            if let Some(previous_dimension) = run.embedding_dimension {
                if previous_dimension != embedding_dimension {
                    return Err(
                        StoreError::EmbeddingDimensionChanged {
                            repository_id: repository_id.to_owned(),
                            embedding_model: embedding_model.to_owned(),
                            previous_dimension,
                            current_dimension: embedding_dimension,
                        },
                    );
                }
            }
        }
        Ok(())
    }

    /// The timeline of the runs of a repository.
    pub fn index_runs_timeline_summary(repository_id: &str, rows: &Vec<Row>) -> (r: Result<
        IndexRunsTimelineSummary,
        StoreError,
    >)
        ensures
            match rows_fault::<IndexRunTimelineRow>(rows@) {
                Some(fault) => r matches Err(e) && is_fault(e, fault),
                None => r matches Ok(summary) && summary.repository_id@ == repository_id@
                    && summary.runs@ == all_of::<IndexRunTimelineRow>(rows@),
            },
    {
        match collect_rows(rows) {
            Ok(runs) => Ok(
                IndexRunsTimelineSummary { repository_id: repository_id.to_owned(), runs },
            ),
            Err(error) => Err(error),
        }
    }
}

/// The dimension that the latest run with a model recorded.
pub open spec fn recorded_dimension(previous: Option<EmbeddingIndexMetadata>) -> Option<usize> {
    match previous {
        Some(run) => run.embedding_dimension,
        None => None,
    }
}

/// `error` tells that the dimension of a model changed.
pub open spec fn is_dimension_change(
    error: StoreError,
    repository: Seq<char>,
    model: Seq<char>,
    previous: usize,
    current: usize,
) -> bool {
    error matches StoreError::EmbeddingDimensionChanged {
        repository_id,
        embedding_model,
        previous_dimension,
        current_dimension,
    } && repository_id@ == repository && embedding_model@ == model && previous_dimension == previous
        && current_dimension == current
}

} // verus!
