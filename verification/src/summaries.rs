//! Summaries of what both stores hold of a repository.

use vstd::prelude::*;
use crate::error::{first_of, is_fault, Fault, StoreError};
use crate::health::{
    coverage_health, cross_store_findings, cross_store_health, embedding_coverage_health,
    findings, neighborhood_findings, semantic_neighborhood_health, settle, storage_findings,
    storage_warnings,
};
use crate::naming::{table_name_of, vector_table_name};
use crate::records::{
    CrossStoreHealthSummary, EmbeddingCoverageSummary, EmbeddingExclusionRow,
    EmbeddingIndexMetadata, FileCallDetailRow, FileChunkDetailRow, FileCoverageRow,
    FileDetailSummary, FileSymbolDetailRow, IndexCoverageSummary, RepositoryRefRecord,
    RepositoryStatus, SemanticGenerationRecord, SemanticNeighborhoodRow,
    SemanticNeighborhoodSummary, SqliteStorageSummary, StorageExplorerSummary,
    VectorStorageProjection,
};
use crate::repository::current_repository_ref_spec;
use crate::rows::{ChunkProjectionCounts, FileCoverageBaseRow};
use crate::runs::latest_embedding_run_spec;
use crate::sql::{
    all_of, collect_rows, counted_fault, counted_in, counted_row, first_fault, first_row,
    only_fault, only_row, optional, optional_text_value, rows_fault, script, statement,
    statement_of, text, text_value, values, Command, CommandView, FromRow, Row, Statement,
    StatementView,
};
use crate::store::SqliteStore;
use crate::text::optional_str;

verus! {

pub const COUNT_FILES: &'static str = "SELECT COUNT(*) FROM files WHERE repository_id = ?1";

pub const COUNT_CHUNKS: &'static str = "SELECT COUNT(*)
    FROM chunks
    JOIN files ON chunks.file_id = files.id
    WHERE files.repository_id = ?1";

pub const LAST_INDEXED_AT: &'static str =
    "SELECT MAX(indexed_at) FROM files WHERE repository_id = ?1";

pub const COUNT_SYMBOLS: &'static str = "SELECT COUNT(*)
    FROM symbols
    JOIN files ON symbols.file_id = files.id
    WHERE files.repository_id = ?1";

pub const COUNT_CALLS: &'static str = "SELECT COUNT(*)
    FROM calls
    JOIN symbols ON calls.caller_symbol_id = symbols.id
    JOIN files ON symbols.file_id = files.id
    WHERE files.repository_id = ?1";

pub const COUNT_REPOSITORIES: &'static str = "SELECT COUNT(*) FROM repositories WHERE id = ?1";

pub const COUNT_INDEX_RUNS: &'static str =
    "SELECT COUNT(*) FROM index_runs WHERE repository_id = ?1";

pub const CHUNK_PROJECTION: &'static str = "SELECT
      COALESCE(SUM(CASE WHEN chunks.excluded_reason IS NULL THEN 1 ELSE 0 END), 0),
                COALESCE(SUM(CASE WHEN chunk_embeddings.vector_point_id IS NOT NULL THEN 1 ELSE 0 END), 0),
      COALESCE(SUM(CASE WHEN chunks.excluded_reason IS NOT NULL THEN 1 ELSE 0 END), 0),
      COALESCE(SUM(CASE
            WHEN chunks.excluded_reason IS NULL AND chunk_embeddings.vector_point_id IS NULL
        THEN 1 ELSE 0 END), 0)
    FROM chunks
    JOIN files ON chunks.file_id = files.id
                    LEFT JOIN chunk_embeddings
                ON chunk_embeddings.chunk_id = chunks.id
               AND chunk_embeddings.file_id = files.id
               AND chunk_embeddings.repository_id = files.repository_id
               AND chunk_embeddings.generation_id = ?2
               AND chunk_embeddings.semantic_layer = 'fast'
               AND chunk_embeddings.status = 'current'
    WHERE files.repository_id = ?1";

pub const INDEX_COVERAGE: &'static str = "SELECT
      files.id,
      files.path,
      files.language,
      (SELECT COUNT(*) FROM chunks WHERE chunks.file_id = files.id),
      (SELECT COUNT(*) FROM symbols WHERE symbols.file_id = files.id),
      (SELECT COUNT(*)
       FROM calls
       JOIN symbols caller ON calls.caller_symbol_id = caller.id
       WHERE caller.file_id = files.id),
      (SELECT COUNT(*)
       FROM chunks
       WHERE chunks.file_id = files.id
         AND chunks.excluded_reason IS NULL),
      (SELECT COUNT(*)
                   FROM chunks
                   JOIN chunk_embeddings
               ON chunk_embeddings.chunk_id = chunks.id
            AND chunk_embeddings.file_id = files.id
                   WHERE chunks.file_id = files.id
               AND chunk_embeddings.repository_id = files.repository_id
               AND chunk_embeddings.generation_id = ?2
               AND chunk_embeddings.semantic_layer = 'fast'
               AND chunk_embeddings.status = 'current'),
      (SELECT COUNT(*)
       FROM chunks
       WHERE chunks.file_id = files.id
         AND chunks.excluded_reason IS NOT NULL)
    FROM files
    WHERE files.repository_id = ?1
    ORDER BY files.path
    LIMIT 200";

pub const FILE_CHUNK_DETAILS: &'static str =
    "SELECT chunks.kind, symbols.qualified_name, chunks.start_line,
           chunks.end_line,
           EXISTS(
             SELECT 1
             FROM chunk_embeddings
             WHERE chunk_embeddings.chunk_id = chunks.id
               AND chunk_embeddings.file_id = chunks.file_id
               AND chunk_embeddings.generation_id = ?2
               AND chunk_embeddings.semantic_layer = 'fast'
               AND chunk_embeddings.status = 'current'
           ),
           chunks.excluded_reason
    FROM chunks
    LEFT JOIN symbols ON chunks.symbol_id = symbols.id
    WHERE chunks.file_id = ?1
    ORDER BY chunks.start_line, chunks.kind
    LIMIT 6";

pub const FILE_SYMBOL_DETAILS: &'static str =
    "SELECT kind, qualified_name, parent_symbol_id, start_line, end_line
    FROM symbols
    WHERE file_id = ?1
    ORDER BY start_line, qualified_name
    LIMIT 6";

pub const FILE_CALL_DETAILS: &'static str =
    "SELECT caller.qualified_name, calls.callee_text, calls.call_line,
           calls.confidence, calls.resolution_status
    FROM calls
    JOIN symbols caller ON calls.caller_symbol_id = caller.id
    WHERE caller.file_id = ?1
    ORDER BY calls.call_line, calls.callee_text
    LIMIT 6";

pub const EMBEDDING_EXCLUSION_REASONS: &'static str = "SELECT chunks.excluded_reason, COUNT(*)
    FROM chunks
    JOIN files ON chunks.file_id = files.id
    WHERE files.repository_id = ?1
      AND chunks.excluded_reason IS NOT NULL
    GROUP BY chunks.excluded_reason
    ORDER BY COUNT(*) DESC, chunks.excluded_reason
    LIMIT 12";

pub const SEMANTIC_NEIGHBORHOOD: &'static str =
    "SELECT chunk_embeddings.vector_point_id, files.path, chunks.start_line,
           chunks.end_line, symbols.qualified_name, chunks.kind,
           files.language, chunk_embeddings.text_hash
    FROM chunk_embeddings
    JOIN chunks ON chunk_embeddings.chunk_id = chunks.id
    JOIN files ON chunk_embeddings.file_id = files.id
              AND chunks.file_id = files.id
    LEFT JOIN symbols ON chunks.symbol_id = symbols.id
    WHERE chunk_embeddings.repository_id = ?1
      AND files.repository_id = ?1
      AND chunk_embeddings.generation_id = ?2
      AND chunk_embeddings.semantic_layer = 'fast'
      AND chunk_embeddings.status = 'current'
    ORDER BY files.path, chunks.start_line, chunks.end_line, chunks.id
    LIMIT 100";

pub const SYMBOL_OUTLINE: &'static str = "SELECT symbols.id, symbols.parent_symbol_id, symbols.kind,
           symbols.qualified_name, symbols.name, symbols.start_line,
           symbols.end_line, files.path
    FROM symbols
    JOIN files ON symbols.file_id = files.id
    WHERE files.repository_id = ?1
    ORDER BY files.path, symbols.start_line, symbols.qualified_name
    LIMIT 300";

pub const CALL_RESOLUTION: &'static str =
    "SELECT files.path, caller.qualified_name, calls.callee_text, calls.call_line,
           calls.confidence, calls.resolution_status
    FROM calls
    JOIN symbols caller ON calls.caller_symbol_id = caller.id
    JOIN files ON caller.file_id = files.id
    WHERE files.repository_id = ?1
    ORDER BY calls.resolution_status, calls.confidence ASC, files.path,
             calls.call_line, calls.callee_text
    LIMIT 500";

pub const INDEXED_FILE_FRESHNESS_SNAPSHOTS: &'static str =
    "SELECT path, content_hash, indexed_at, index_run_id, parser_version
    FROM files
    WHERE repository_id = ?1
    ORDER BY path";

pub const INDEXED_FILE_FRESHNESS_SNAPSHOTS_FOR_REF: &'static str =
    "SELECT ref_files.path, files.content_hash, files.indexed_at,
          files.index_run_id, files.parser_version
     FROM ref_files
     JOIN files ON files.id = ref_files.file_id
               AND files.repository_id = ref_files.repository_id
    WHERE ref_files.repository_id = ?1
      AND ref_files.repository_ref_id = ?2
    ORDER BY ref_files.path";

pub const RUST_SYMBOLS_FOR_REPOSITORY: &'static str =
    "SELECT symbols.id, symbols.file_id, symbols.parent_symbol_id, symbols.name,
           symbols.qualified_name, symbols.kind, symbols.signature,
           symbols.start_line, symbols.end_line, symbols.start_byte,
           symbols.end_byte, symbols.index_run_id, symbols.parser_version
    FROM symbols
    JOIN files ON symbols.file_id = files.id
    WHERE files.repository_id = ?1
      AND files.language = 'rust'
    ORDER BY symbols.qualified_name, files.path, symbols.start_line, symbols.id";

/// The reading of `count_files`.
pub open spec fn count_files_spec(repository_id: Seq<char>) -> StatementView {
    statement_of(COUNT_FILES, seq![text(repository_id)])
}

/// The reading of `count_chunks`.
pub open spec fn count_chunks_spec(repository_id: Seq<char>) -> StatementView {
    statement_of(COUNT_CHUNKS, seq![text(repository_id)])
}

/// The reading of `last_indexed_at`.
pub open spec fn last_indexed_at_spec(repository_id: Seq<char>) -> StatementView {
    statement_of(LAST_INDEXED_AT, seq![text(repository_id)])
}

/// The reading of `count_symbols`.
pub open spec fn count_symbols_spec(repository_id: Seq<char>) -> StatementView {
    statement_of(COUNT_SYMBOLS, seq![text(repository_id)])
}

/// The reading of `count_calls`.
pub open spec fn count_calls_spec(repository_id: Seq<char>) -> StatementView {
    statement_of(COUNT_CALLS, seq![text(repository_id)])
}

/// The reading of `count_repositories`.
pub open spec fn count_repositories_spec(repository_id: Seq<char>) -> StatementView {
    statement_of(COUNT_REPOSITORIES, seq![text(repository_id)])
}

/// The reading of `count_index_runs`.
pub open spec fn count_index_runs_spec(repository_id: Seq<char>) -> StatementView {
    statement_of(COUNT_INDEX_RUNS, seq![text(repository_id)])
}

/// The reading of `chunk_projection`.
pub open spec fn chunk_projection_spec(
    repository_id: Seq<char>,
    generation_id: Option<Seq<char>>,
) -> StatementView {
    statement_of(CHUNK_PROJECTION, seq![text(repository_id), optional(generation_id)])
}

/// The reading of `index_coverage`.
pub open spec fn index_coverage_spec(
    repository_id: Seq<char>,
    generation_id: Option<Seq<char>>,
) -> StatementView {
    statement_of(INDEX_COVERAGE, seq![text(repository_id), optional(generation_id)])
}

/// The reading of `file_chunk_details`.
pub open spec fn file_chunk_details_spec(
    file_id: Seq<char>,
    generation_id: Option<Seq<char>>,
) -> StatementView {
    statement_of(FILE_CHUNK_DETAILS, seq![text(file_id), optional(generation_id)])
}

/// The reading of `file_symbol_details`.
pub open spec fn file_symbol_details_spec(file_id: Seq<char>) -> StatementView {
    statement_of(FILE_SYMBOL_DETAILS, seq![text(file_id)])
}

/// The reading of `file_call_details`.
pub open spec fn file_call_details_spec(file_id: Seq<char>) -> StatementView {
    statement_of(FILE_CALL_DETAILS, seq![text(file_id)])
}

/// The reading of `embedding_exclusion_reasons`.
pub open spec fn embedding_exclusion_reasons_spec(repository_id: Seq<char>) -> StatementView {
    statement_of(EMBEDDING_EXCLUSION_REASONS, seq![text(repository_id)])
}

/// The reading of `semantic_neighborhood`.
pub open spec fn semantic_neighborhood_spec(
    repository_id: Seq<char>,
    generation_id: Seq<char>,
) -> StatementView {
    statement_of(SEMANTIC_NEIGHBORHOOD, seq![text(repository_id), text(generation_id)])
}

/// The reading of `symbol_outline`.
pub open spec fn symbol_outline_spec(repository_id: Seq<char>) -> StatementView {
    statement_of(SYMBOL_OUTLINE, seq![text(repository_id)])
}

/// The reading of `call_resolution`.
pub open spec fn call_resolution_spec(repository_id: Seq<char>) -> StatementView {
    statement_of(CALL_RESOLUTION, seq![text(repository_id)])
}

/// The reading of `indexed_file_freshness_snapshots`.
pub open spec fn indexed_file_freshness_snapshots_spec(
    repository_id: Seq<char>,
) -> StatementView {
    statement_of(INDEXED_FILE_FRESHNESS_SNAPSHOTS, seq![text(repository_id)])
}

/// The reading of `indexed_file_freshness_snapshots_for_ref`.
pub open spec fn indexed_file_freshness_snapshots_for_ref_spec(
    repository_id: Seq<char>,
    repository_ref_id: Seq<char>,
) -> StatementView {
    statement_of(
        INDEXED_FILE_FRESHNESS_SNAPSHOTS_FOR_REF,
        seq![
            text(repository_id),
            text(repository_ref_id),
        ],
    )
}

/// The reading of `rust_symbols_for_repository`.
pub open spec fn rust_symbols_for_repository_spec(repository_id: Seq<char>) -> StatementView {
    statement_of(RUST_SYMBOLS_FOR_REPOSITORY, seq![text(repository_id)])
}

impl SqliteStore {
    /// Counts the files of a repository.
    pub fn count_files(repository_id: &str) -> (r: Statement)
        ensures
            r@ == count_files_spec(repository_id@),
    {
        let params = vec![text_value(repository_id)];
        proof {
            assert(values(params@) =~= count_files_spec(repository_id@).params);
        }
        statement(COUNT_FILES, params)
    }

    /// Counts the chunks of a repository.
    pub fn count_chunks(repository_id: &str) -> (r: Statement)
        ensures
            r@ == count_chunks_spec(repository_id@),
    {
        let params = vec![text_value(repository_id)];
        proof {
            assert(values(params@) =~= count_chunks_spec(repository_id@).params);
        }
        statement(COUNT_CHUNKS, params)
    }

    /// When a file of a repository was last indexed. Read as an `Option<String>`.
    pub fn last_indexed_at(repository_id: &str) -> (r: Statement)
        ensures
            r@ == last_indexed_at_spec(repository_id@),
    {
        let params = vec![text_value(repository_id)];
        proof {
            assert(values(params@) =~= last_indexed_at_spec(repository_id@).params);
        }
        statement(LAST_INDEXED_AT, params)
    }

    /// Counts the symbols of a repository.
    pub fn count_symbols(repository_id: &str) -> (r: Statement)
        ensures
            r@ == count_symbols_spec(repository_id@),
    {
        let params = vec![text_value(repository_id)];
        proof {
            assert(values(params@) =~= count_symbols_spec(repository_id@).params);
        }
        statement(COUNT_SYMBOLS, params)
    }

    /// Counts the calls of a repository.
    pub fn count_calls(repository_id: &str) -> (r: Statement)
        ensures
            r@ == count_calls_spec(repository_id@),
    {
        let params = vec![text_value(repository_id)];
        proof {
            assert(values(params@) =~= count_calls_spec(repository_id@).params);
        }
        statement(COUNT_CALLS, params)
    }

    /// Counts the rows of a repository.
    pub fn count_repositories(repository_id: &str) -> (r: Statement)
        ensures
            r@ == count_repositories_spec(repository_id@),
    {
        let params = vec![text_value(repository_id)];
        proof {
            assert(values(params@) =~= count_repositories_spec(repository_id@).params);
        }
        statement(COUNT_REPOSITORIES, params)
    }

    /// Counts the runs of a repository.
    pub fn count_index_runs(repository_id: &str) -> (r: Statement)
        ensures
            r@ == count_index_runs_spec(repository_id@),
    {
        let params = vec![text_value(repository_id)];
        proof {
            assert(values(params@) =~= count_index_runs_spec(repository_id@).params);
        }
        statement(COUNT_INDEX_RUNS, params)
    }

    /// Counts the chunks of a repository by state. Read as `ChunkProjectionCounts`.
    pub fn chunk_projection(repository_id: &str, generation_id: Option<&str>) -> (r: Statement)
        ensures
            r@ == chunk_projection_spec(repository_id@, optional_str(generation_id)),
    {
        let params = vec![text_value(repository_id), optional_text_value(generation_id)];
        proof {
            assert(values(params@) =~= chunk_projection_spec(
                repository_id@,
                optional_str(generation_id),
            ).params);
        }
        statement(CHUNK_PROJECTION, params)
    }

    /// The files of a repository with their counts. Read as `FileCoverageBaseRow`s.
    pub fn index_coverage(repository_id: &str, generation_id: Option<&str>) -> (r: Statement)
        ensures
            r@ == index_coverage_spec(repository_id@, optional_str(generation_id)),
    {
        let params = vec![text_value(repository_id), optional_text_value(generation_id)];
        proof {
            assert(values(params@) =~= index_coverage_spec(
                repository_id@,
                optional_str(generation_id),
            ).params);
        }
        statement(INDEX_COVERAGE, params)
    }

    /// The first chunks of a file. Read as `FileChunkDetailRow`s.
    pub fn file_chunk_details(file_id: &str, generation_id: Option<&str>) -> (r: Statement)
        ensures
            r@ == file_chunk_details_spec(file_id@, optional_str(generation_id)),
    {
        let params = vec![text_value(file_id), optional_text_value(generation_id)];
        proof {
            assert(values(params@) =~= file_chunk_details_spec(
                file_id@,
                optional_str(generation_id),
            ).params);
        }
        statement(FILE_CHUNK_DETAILS, params)
    }

    /// The first symbols of a file. Read as `FileSymbolDetailRow`s.
    pub fn file_symbol_details(file_id: &str) -> (r: Statement)
        ensures
            r@ == file_symbol_details_spec(file_id@),
    {
        let params = vec![text_value(file_id)];
        proof {
            assert(values(params@) =~= file_symbol_details_spec(file_id@).params);
        }
        statement(FILE_SYMBOL_DETAILS, params)
    }

    /// The first calls in a file. Read as `FileCallDetailRow`s.
    pub fn file_call_details(file_id: &str) -> (r: Statement)
        ensures
            r@ == file_call_details_spec(file_id@),
    {
        let params = vec![text_value(file_id)];
        proof {
            assert(values(params@) =~= file_call_details_spec(file_id@).params);
        }
        statement(FILE_CALL_DETAILS, params)
    }

    /// Counts the excluded chunks by reason. Read as `EmbeddingExclusionRow`s.
    pub fn embedding_exclusion_reasons(repository_id: &str) -> (r: Statement)
        ensures
            r@ == embedding_exclusion_reasons_spec(repository_id@),
    {
        let params = vec![text_value(repository_id)];
        proof {
            assert(values(params@) =~= embedding_exclusion_reasons_spec(repository_id@).params);
        }
        statement(EMBEDDING_EXCLUSION_REASONS, params)
    }

    /// The chunks of a generation that have a vector. Read as `SemanticNeighborhoodRow`s.
    pub fn semantic_neighborhood(repository_id: &str, generation_id: &str) -> (r: Statement)
        ensures
            r@ == semantic_neighborhood_spec(repository_id@, generation_id@),
    {
        let params = vec![text_value(repository_id), text_value(generation_id)];
        proof {
            assert(values(params@) =~= semantic_neighborhood_spec(
                repository_id@,
                generation_id@,
            ).params);
        }
        statement(SEMANTIC_NEIGHBORHOOD, params)
    }

    /// The symbols of a repository. The rows go to `symbol_outline_summary`.
    pub fn symbol_outline(repository_id: &str) -> (r: Statement)
        ensures
            r@ == symbol_outline_spec(repository_id@),
    {
        let params = vec![text_value(repository_id)];
        proof {
            assert(values(params@) =~= symbol_outline_spec(repository_id@).params);
        }
        statement(SYMBOL_OUTLINE, params)
    }

    /// The calls of a repository. The rows go to `call_resolution_summary`.
    pub fn call_resolution(repository_id: &str) -> (r: Statement)
        ensures
            r@ == call_resolution_spec(repository_id@),
    {
        let params = vec![text_value(repository_id)];
        proof {
            assert(values(params@) =~= call_resolution_spec(repository_id@).params);
        }
        statement(CALL_RESOLUTION, params)
    }

    /// What the files of a repository were indexed with. Read as `FileFreshnessSnapshot`s.
    pub fn indexed_file_freshness_snapshots(repository_id: &str) -> (r: Statement)
        ensures
            r@ == indexed_file_freshness_snapshots_spec(repository_id@),
    {
        let params = vec![text_value(repository_id)];
        proof {
            assert(values(params@) =~= indexed_file_freshness_snapshots_spec(
                repository_id@,
            ).params);
        }
        statement(INDEXED_FILE_FRESHNESS_SNAPSHOTS, params)
    }

    /// What the files of a ref were indexed with. Read as `FileFreshnessSnapshot`s.
    pub fn indexed_file_freshness_snapshots_for_ref(
        repository_id: &str,
        repository_ref_id: &str,
    ) -> (r: Statement)
        ensures
            r@ == indexed_file_freshness_snapshots_for_ref_spec(
                repository_id@,
                repository_ref_id@,
            ),
    {
        let params = vec![text_value(repository_id), text_value(repository_ref_id)];
        proof {
            assert(values(params@) =~= indexed_file_freshness_snapshots_for_ref_spec(
                repository_id@,
                repository_ref_id@,
            ).params);
        }
        statement(INDEXED_FILE_FRESHNESS_SNAPSHOTS_FOR_REF, params)
    }

    /// The symbols of the Rust files of a repository. Read as `SymbolRecord`s.
    pub fn rust_symbols_for_repository(repository_id: &str) -> (r: Statement)
        ensures
            r@ == rust_symbols_for_repository_spec(repository_id@),
    {
        let params = vec![text_value(repository_id)];
        proof {
            assert(values(params@) =~= rust_symbols_for_repository_spec(repository_id@).params);
        }
        statement(RUST_SYMBOLS_FOR_REPOSITORY, params)
    }
}

/// What the database says about a repository.
pub struct RepositoryFacts {
    /// The number of files.
    pub files: Vec<Row>,
    /// The number of chunks.
    pub chunks: Vec<Row>,
    /// When a file was last indexed.
    pub last_indexed_at: Vec<Row>,
    /// The latest embedding run.
    pub embedding: Vec<Row>,
    /// The current ref.
    pub current_ref: Vec<Row>,
    /// The number of symbols.
    pub symbols: Vec<Row>,
    /// The number of calls.
    pub calls: Vec<Row>,
}

/// The queries for the facts of a repository, in the order of the fields of `RepositoryFacts`.
pub open spec fn status_queries(repository_id: Seq<char>) -> Seq<CommandView> {
    seq![
        CommandView::Query(count_files_spec(repository_id)),
        CommandView::Query(count_chunks_spec(repository_id)),
        CommandView::Query(last_indexed_at_spec(repository_id)),
        CommandView::Query(latest_embedding_run_spec(repository_id)),
        CommandView::Query(current_repository_ref_spec(repository_id)),
        CommandView::Query(count_symbols_spec(repository_id)),
        CommandView::Query(count_calls_spec(repository_id)),
    ]
}

/// The first thing that keeps the status of a repository from being told.
pub open spec fn status_fault(facts: RepositoryFacts) -> Option<Fault> {
    first_of(
        counted_fault(facts.files@, "file count"@),
        first_of(
            counted_fault(facts.chunks@, "chunk count"@),
            first_of(
                only_fault::<Option<String>>(facts.last_indexed_at@),
                first_of(
                    first_fault::<EmbeddingIndexMetadata>(facts.embedding@),
                    first_of(
                        first_fault::<RepositoryRefRecord>(facts.current_ref@),
                        first_of(
                            counted_fault(facts.symbols@, "symbols count"@),
                            counted_fault(facts.calls@, "call count"@),
                        ),
                    ),
                ),
            ),
        ),
    )
}

/// What the first row holds, where there is one.
pub open spec fn first_in<T: FromRow>(rows: Seq<Row>) -> Option<T> {
    if rows.len() == 0 {
        None
    } else {
        Some(T::of(rows[0]@))
    }
}

/// `s` is the status of a repository.
pub open spec fn is_status(
    s: RepositoryStatus,
    repository_id: Seq<char>,
    facts: RepositoryFacts,
) -> bool {
    let run = first_in::<EmbeddingIndexMetadata>(facts.embedding@);
    let reference = first_in::<RepositoryRefRecord>(facts.current_ref@);
    &&& s.repository_id@ == repository_id
    &&& s.files_indexed == counted_in(facts.files@)
    &&& s.chunks_indexed == counted_in(facts.chunks@)
    &&& s.symbols_indexed == counted_in(facts.symbols@)
    &&& s.calls_indexed == counted_in(facts.calls@)
    &&& s.last_indexed_at == Option::<String>::of(facts.last_indexed_at@[0]@)
    &&& match run {
        Some(run) => s.embedding_model == Some(run.embedding_model) && s.embedding_dimension
            == run.embedding_dimension,
        None => s.embedding_model is None && s.embedding_dimension is None,
    }
    &&& match reference {
        Some(reference) => s.current_ref_id == Some(reference.id) && s.current_ref_kind == Some(
            reference.ref_kind,
        ) && s.current_ref_name == reference.ref_name && s.current_head_oid == reference.head_oid,
        None => s.current_ref_id is None && s.current_ref_kind is None && s.current_ref_name is None
            && s.current_head_oid is None,
    }
}

/// The model that the chunks of a repository are embedded with: that of the latest run, else the
/// configured one.
pub open spec fn projected(latest: Option<EmbeddingIndexMetadata>, configured: Seq<char>) -> Seq<
    char,
> {
    match latest {
        Some(run) => run.embedding_model@,
        None => configured,
    }
}

pub fn projected_model(latest: &Option<EmbeddingIndexMetadata>, configured: &str) -> (r: String)
    ensures
        r@ == projected(*latest, configured@),
{
    match latest {
        Some(run) => run.embedding_model.clone(),
        None => configured.to_owned(),
    }
}

/// The dimension that the latest run recorded.
pub open spec fn latest_dimension(latest: Option<EmbeddingIndexMetadata>) -> Option<usize> {
    match latest {
        Some(run) => run.embedding_dimension,
        None => None,
    }
}

/// What the database says about both stores.
pub struct StorageFacts {
    pub status: RepositoryFacts,
    /// The number of rows of the repository.
    pub repositories: Vec<Row>,
    /// The number of runs.
    pub index_runs: Vec<Row>,
    /// The chunks by state.
    pub projection: Vec<Row>,
}

/// The first thing that keeps the stores from being summed up.
pub open spec fn storage_fault(facts: StorageFacts) -> Option<Fault> {
    first_of(
        status_fault(facts.status),
        first_of(
            counted_fault(facts.repositories@, "repository count"@),
            first_of(
                counted_fault(facts.index_runs@, "index run count"@),
                only_fault::<ChunkProjectionCounts>(facts.projection@),
            ),
        ),
    )
}

/// `s` sums up what both stores hold of a repository.
pub open spec fn is_storage_summary(
    s: StorageExplorerSummary,
    repository_id: Seq<char>,
    configured: Seq<char>,
    facts: StorageFacts,
) -> bool {
    let latest = first_in::<EmbeddingIndexMetadata>(facts.status.embedding@);
    let counts = ChunkProjectionCounts::of(facts.projection@[0]@);
    let model = projected(latest, configured);
    &&& s.repository_id@ == repository_id
    &&& s.sqlite.repositories == counted_in(facts.repositories@)
    &&& s.sqlite.files == counted_in(facts.status.files@)
    &&& s.sqlite.chunks == counted_in(facts.status.chunks@)
    &&& s.sqlite.symbols == counted_in(facts.status.symbols@)
    &&& s.sqlite.calls == counted_in(facts.status.calls@)
    &&& s.sqlite.index_runs == counted_in(facts.index_runs@)
    &&& s.vector.collection_name@ == table_name_of(repository_id, model)
    &&& s.vector.embedding_model@ == model
    &&& s.vector.embedding_dimension == latest_dimension(latest)
    &&& s.vector.embeddable_chunks == counts.embeddable_chunks
    &&& s.vector.vector_backed_chunks == counts.vector_backed_chunks
    &&& s.vector.excluded_chunks == counts.excluded_chunks
    &&& s.vector.missing_vector_chunks == counts.missing_vector_chunks
    &&& findings(s.warnings@) == storage_findings(s.sqlite, s.vector)
}

/// What the database says about the embeddings of a repository.
pub struct EmbeddingFacts {
    pub status: RepositoryFacts,
    /// The chunks by state.
    pub projection: Vec<Row>,
    /// The excluded chunks by reason.
    pub exclusions: Vec<Row>,
}

/// The first thing that keeps the embeddings from being summed up.
pub open spec fn embedding_fault(facts: EmbeddingFacts) -> Option<Fault> {
    first_of(
        status_fault(facts.status),
        first_of(
            only_fault::<ChunkProjectionCounts>(facts.projection@),
            rows_fault::<EmbeddingExclusionRow>(facts.exclusions@),
        ),
    )
}

/// `s` sums up how far the chunks of a repository are embedded.
pub open spec fn is_embedding_summary(
    s: EmbeddingCoverageSummary,
    repository_id: Seq<char>,
    configured: Seq<char>,
    facts: EmbeddingFacts,
) -> bool {
    let latest = first_in::<EmbeddingIndexMetadata>(facts.status.embedding@);
    let counts = ChunkProjectionCounts::of(facts.projection@[0]@);
    let model = projected(latest, configured);
    let chunks = counted_in(facts.status.chunks@);
    &&& s.repository_id@ == repository_id
    &&& s.collection_name@ == table_name_of(repository_id, model)
    &&& s.configured_embedding_model@ == configured
    &&& s.embedding_model@ == model
    &&& s.embedding_dimension == latest_dimension(latest)
    &&& s.total_chunks == chunks
    &&& s.embeddable_chunks == counts.embeddable_chunks
    &&& s.vector_backed_chunks == counts.vector_backed_chunks
    &&& s.missing_vector_chunks == counts.missing_vector_chunks
    &&& s.excluded_chunks == counts.excluded_chunks
    &&& s.latest_chunks_embedded == (match latest {
        Some(run) => Some(run.chunks_embedded),
        None => None,
    })
    &&& s.exclusion_reasons@ == all_of::<EmbeddingExclusionRow>(facts.exclusions@)
    &&& findings(s.health@) == coverage_health(chunks, counts, latest, configured)
}

/// The model of the chunks that have a vector: that of the generation, else that of the latest
/// run, else the configured one.
pub open spec fn neighborhood_model(
    generation: Option<SemanticGenerationRecord>,
    latest: Option<EmbeddingIndexMetadata>,
    configured: Seq<char>,
) -> Seq<char> {
    match generation {
        Some(generation) => generation.fast_model@,
        None => projected(latest, configured),
    }
}

/// `s` sums up the chunks that have a vector.
pub open spec fn is_neighborhood(
    s: SemanticNeighborhoodSummary,
    repository_id: Seq<char>,
    model: Seq<char>,
    rows: Seq<SemanticNeighborhoodRow>,
) -> bool {
    &&& s.repository_id@ == repository_id
    &&& s.collection_name@ == table_name_of(repository_id, model)
    &&& s.embedding_model@ == model
    &&& s.rows@ == rows
    &&& findings(s.health@) == neighborhood_findings(rows.len())
}

/// What the database says about whether the stores agree.
pub struct CrossStoreFacts {
    /// The chunks by state.
    pub projection: Vec<Row>,
    /// The latest embedding run.
    pub embedding: Vec<Row>,
    /// The dimensions that runs with the projected model recorded.
    pub dimensions: Vec<Row>,
}

/// The first thing that keeps the stores from being compared.
pub open spec fn cross_store_fault(facts: CrossStoreFacts) -> Option<Fault> {
    first_of(
        only_fault::<ChunkProjectionCounts>(facts.projection@),
        first_of(
            first_fault::<EmbeddingIndexMetadata>(facts.embedding@),
            rows_fault::<usize>(facts.dimensions@),
        ),
    )
}

/// `s` tells whether the two stores agree.
pub open spec fn is_cross_store_summary(
    s: CrossStoreHealthSummary,
    repository_id: Seq<char>,
    configured: Seq<char>,
    facts: CrossStoreFacts,
) -> bool {
    let latest = first_in::<EmbeddingIndexMetadata>(facts.embedding@);
    let model = projected(latest, configured);
    &&& s.repository_id@ == repository_id
    &&& s.collection_name@ == table_name_of(repository_id, model)
    &&& findings(s.rows@) == cross_store_findings(
        ChunkProjectionCounts::of(facts.projection@[0]@),
        latest,
        configured,
        model,
        all_of::<usize>(facts.dimensions@),
    )
}

/// What the database says about one file.
pub struct FileDetailFacts {
    pub chunks: Vec<Row>,
    pub symbols: Vec<Row>,
    pub calls: Vec<Row>,
}

/// The first thing that keeps the details of a file from being told.
pub open spec fn detail_fault(facts: FileDetailFacts) -> Option<Fault> {
    first_of(
        rows_fault::<FileChunkDetailRow>(facts.chunks@),
        first_of(
            rows_fault::<FileSymbolDetailRow>(facts.symbols@),
            rows_fault::<FileCallDetailRow>(facts.calls@),
        ),
    )
}

/// `s` tells the details of a file.
pub open spec fn is_detail(s: FileDetailSummary, facts: FileDetailFacts) -> bool {
    &&& s.chunks@ == all_of::<FileChunkDetailRow>(facts.chunks@)
    &&& s.symbols@ == all_of::<FileSymbolDetailRow>(facts.symbols@)
    &&& s.calls@ == all_of::<FileCallDetailRow>(facts.calls@)
}

/// The first fault in the details of the files from `from` on.
pub open spec fn details_fault(details: Seq<FileDetailFacts>, from: int) -> Option<Fault>
    decreases details.len() - from,
{
    if from < 0 || from >= details.len() {
        None
    } else {
        first_of(detail_fault(details[from]), details_fault(details, from + 1))
    }
}

/// `r` tells how far a file is covered.
pub open spec fn is_coverage_row(
    r: FileCoverageRow,
    base: FileCoverageBaseRow,
    facts: FileDetailFacts,
) -> bool {
    &&& r.path == base.path
    &&& r.language == base.language
    &&& r.chunks == base.chunks
    &&& r.symbols == base.symbols
    &&& r.calls == base.calls
    &&& r.embeddable_chunks == base.embeddable_chunks
    &&& r.vector_backed_chunks == base.vector_backed_chunks
    &&& r.excluded_chunks == base.excluded_chunks
    &&& r.status == base.status
    &&& is_detail(r.detail, facts)
}

fn file_detail(facts: &FileDetailFacts) -> (r: Result<FileDetailSummary, StoreError>)
    ensures
        match detail_fault(*facts) {
            Some(fault) => r matches Err(e) && is_fault(e, fault),
            None => r matches Ok(s) && is_detail(s, *facts),
        },
{
    let chunks: Vec<FileChunkDetailRow> = match collect_rows(&facts.chunks) {
        Ok(rows) => rows,
        Err(error) => {
            return Err(error);
        },
    };
    let symbols: Vec<FileSymbolDetailRow> = match collect_rows(&facts.symbols) {
        Ok(rows) => rows,
        Err(error) => {
            return Err(error);
        },
    };
    let calls: Vec<FileCallDetailRow> = match collect_rows(&facts.calls) {
        Ok(rows) => rows,
        Err(error) => {
            return Err(error);
        },
    };
    Ok(FileDetailSummary { chunks, symbols, calls })
}

impl SqliteStore {
    /// The queries for the status of a repository. The answers go to `repository_status_of`.
    pub fn repository_status(repository_id: &str) -> (r: Vec<Command>)
        ensures
            script(r@) == status_queries(repository_id@),
    {
        let commands = vec![
            Command::Query(SqliteStore::count_files(repository_id)),
            Command::Query(SqliteStore::count_chunks(repository_id)),
            Command::Query(SqliteStore::last_indexed_at(repository_id)),
            Command::Query(SqliteStore::latest_embedding_run(repository_id)),
            Command::Query(SqliteStore::current_repository_ref(repository_id)),
            Command::Query(SqliteStore::count_symbols(repository_id)),
            Command::Query(SqliteStore::count_calls(repository_id)),
        ];
        proof {
            assert(script(commands@) =~= status_queries(repository_id@));
        }
        commands
    }

    /// The status of a repository.
    pub fn repository_status_of(repository_id: &str, facts: &RepositoryFacts) -> (r: Result<
        RepositoryStatus,
        StoreError,
    >)
        ensures
            match status_fault(*facts) {
                Some(fault) => r matches Err(e) && is_fault(e, fault),
                None => r matches Ok(s) && is_status(s, repository_id@, *facts),
            },
    {
        let files_indexed = match counted_row(&facts.files, "file count") {
            Ok(n) => n,
            Err(error) => {
                return Err(error);
            },
        };
        let chunks_indexed = match counted_row(&facts.chunks, "chunk count") {
            Ok(n) => n,
            Err(error) => {
                return Err(error);
            },
        };
        let last_indexed_at: Option<String> = match only_row(&facts.last_indexed_at) {
            Ok(last) => last,
            Err(error) => {
                return Err(error);
            },
        };
        let embedding: Option<EmbeddingIndexMetadata> = match first_row(&facts.embedding) {
            Ok(run) => run,
            Err(error) => {
                return Err(error);
            },
        };
        let current_ref: Option<RepositoryRefRecord> = match first_row(&facts.current_ref) {
            Ok(reference) => reference,
            Err(error) => {
                return Err(error);
            },
        };
        let symbols_indexed = match counted_row(&facts.symbols, "symbols count") {
            Ok(n) => n,
            Err(error) => {
                return Err(error);
            },
        };
        let calls_indexed = match counted_row(&facts.calls, "call count") {
            Ok(n) => n,
            Err(error) => {
                return Err(error);
            },
        };
        let (embedding_model, embedding_dimension) = match embedding {
            Some(run) => (Some(run.embedding_model), run.embedding_dimension),
            None => (None, None),
        };
        let (current_ref_id, current_ref_kind, current_ref_name, current_head_oid) =
            match current_ref {
            Some(reference) => (
                Some(reference.id),
                Some(reference.ref_kind),
                reference.ref_name,
                reference.head_oid,
            ),
            None => (None, None, None, None),
        };
        Ok(
            RepositoryStatus {
                repository_id: repository_id.to_owned(),
                current_ref_id,
                current_ref_kind,
                current_ref_name,
                current_head_oid,
                files_indexed,
                chunks_indexed,
                symbols_indexed,
                calls_indexed,
                last_indexed_at,
                embedding_model,
                embedding_dimension,
            },
        )
    }

    /// What both stores hold of a repository.
    pub fn storage_explorer_summary(
        repository_id: &str,
        embedding_model: &str,
        facts: &StorageFacts,
    ) -> (r: Result<StorageExplorerSummary, StoreError>)
        ensures
            match storage_fault(*facts) {
                Some(fault) => r matches Err(e) && is_fault(e, fault),
                None => r matches Ok(s) && is_storage_summary(
                    s,
                    repository_id@,
                    embedding_model@,
                    *facts,
                ),
            },
    {
        let status = match SqliteStore::repository_status_of(repository_id, &facts.status) {
            Ok(status) => status,
            Err(error) => {
                return Err(error);
            },
        };
        let repositories = match counted_row(&facts.repositories, "repository count") {
            Ok(n) => n,
            Err(error) => {
                return Err(error);
            },
        };
        let index_runs = match counted_row(&facts.index_runs, "index run count") {
            Ok(n) => n,
            Err(error) => {
                return Err(error);
            },
        };
        let counts: ChunkProjectionCounts = match only_row(&facts.projection) {
            Ok(counts) => counts,
            Err(error) => {
                return Err(error);
            },
        };
        let latest: Option<EmbeddingIndexMetadata> = match first_row(&facts.status.embedding) {
            Ok(run) => run,
            Err(error) => {
                return Err(error);
            },
        };
        let model = projected_model(&latest, embedding_model);
        let sqlite = SqliteStorageSummary {
            repositories,
            files: status.files_indexed,
            chunks: status.chunks_indexed,
            symbols: status.symbols_indexed,
            calls: status.calls_indexed,
            index_runs,
        };
        let vector = VectorStorageProjection {
            collection_name: vector_table_name(repository_id, model.as_str()),
            embedding_model: model,
            embedding_dimension: status.embedding_dimension,
            embeddable_chunks: counts.embeddable_chunks,
            vector_backed_chunks: counts.vector_backed_chunks,
            excluded_chunks: counts.excluded_chunks,
            missing_vector_chunks: counts.missing_vector_chunks,
        };
        let warnings = storage_warnings(&sqlite, &vector);
        Ok(
            StorageExplorerSummary {
                repository_id: repository_id.to_owned(),
                sqlite,
                vector,
                warnings,
            },
        )
    }

    /// How far the chunks of a repository are embedded.
    pub fn embedding_coverage_summary(
        repository_id: &str,
        configured_embedding_model: &str,
        facts: &EmbeddingFacts,
    ) -> (r: Result<EmbeddingCoverageSummary, StoreError>)
        ensures
            match embedding_fault(*facts) {
                Some(fault) => r matches Err(e) && is_fault(e, fault),
                None => r matches Ok(s) && is_embedding_summary(
                    s,
                    repository_id@,
                    configured_embedding_model@,
                    *facts,
                ),
            },
    {
        let status = match SqliteStore::repository_status_of(repository_id, &facts.status) {
            Ok(status) => status,
            Err(error) => {
                return Err(error);
            },
        };
        let counts: ChunkProjectionCounts = match only_row(&facts.projection) {
            Ok(counts) => counts,
            Err(error) => {
                return Err(error);
            },
        };
        let latest: Option<EmbeddingIndexMetadata> = match first_row(&facts.status.embedding) {
            Ok(run) => run,
            Err(error) => {
                return Err(error);
            },
        };
        let exclusion_reasons: Vec<EmbeddingExclusionRow> = match collect_rows(&facts.exclusions) {
            Ok(rows) => rows,
            Err(error) => {
                return Err(error);
            },
        };
        let found = embedding_coverage_health(
            status.chunks_indexed,
            &counts,
            &latest,
            configured_embedding_model,
        );
        let health = settle(
            found,
            "embedding_coverage_ok",
            "All embeddable SQLite chunks have recorded vector point metadata.",
        );
        let embedding_model = projected_model(&latest, configured_embedding_model);
        let latest_chunks_embedded = match latest {
            Some(run) => Some(run.chunks_embedded),
            None => None,
        };
        Ok(
            EmbeddingCoverageSummary {
                repository_id: repository_id.to_owned(),
                collection_name: vector_table_name(repository_id, embedding_model.as_str()),
                configured_embedding_model: configured_embedding_model.to_owned(),
                embedding_model,
                embedding_dimension: status.embedding_dimension,
                total_chunks: status.chunks_indexed,
                embeddable_chunks: counts.embeddable_chunks,
                vector_backed_chunks: counts.vector_backed_chunks,
                missing_vector_chunks: counts.missing_vector_chunks,
                excluded_chunks: counts.excluded_chunks,
                latest_chunks_embedded,
                exclusion_reasons,
                health,
            },
        )
    }

    /// The chunks that have a vector. `rows` are those that `semantic_neighborhood` finds for the
    /// generation; without a generation they are not looked at.
    pub fn semantic_neighborhood_summary(
        repository_id: &str,
        configured_embedding_model: &str,
        generation: &Option<SemanticGenerationRecord>,
        latest_embedding: &Option<EmbeddingIndexMetadata>,
        rows: &Vec<Row>,
    ) -> (r: Result<SemanticNeighborhoodSummary, StoreError>)
        ensures
            ({
                let model = neighborhood_model(
                    *generation,
                    *latest_embedding,
                    configured_embedding_model@,
                );
                if *generation is None {
                    r matches Ok(s) && is_neighborhood(s, repository_id@, model, Seq::empty())
                } else {
                    match rows_fault::<SemanticNeighborhoodRow>(rows@) {
                        Some(fault) => r matches Err(e) && is_fault(e, fault),
                        None => r matches Ok(s) && is_neighborhood(
                            s,
                            repository_id@,
                            model,
                            all_of::<SemanticNeighborhoodRow>(rows@),
                        ),
                    }
                }
            }),
    {
        let embedding_model = match generation {
            Some(generation) => generation.fast_model.clone(),
            None => projected_model(latest_embedding, configured_embedding_model),
        };
        let found: Vec<SemanticNeighborhoodRow> = if generation.is_none() {
            Vec::new()
        } else {
            match collect_rows(rows) {
                Ok(found) => found,
                Err(error) => {
                    return Err(error);
                },
            }
        };
        let health = semantic_neighborhood_health(&found);
        Ok(
            SemanticNeighborhoodSummary {
                repository_id: repository_id.to_owned(),
                collection_name: vector_table_name(repository_id, embedding_model.as_str()),
                embedding_model,
                rows: found,
                health,
            },
        )
    }

    /// Whether the two stores agree.
    pub fn cross_store_health_summary(
        repository_id: &str,
        configured_embedding_model: &str,
        facts: &CrossStoreFacts,
    ) -> (r: Result<CrossStoreHealthSummary, StoreError>)
        ensures
            match cross_store_fault(*facts) {
                Some(fault) => r matches Err(e) && is_fault(e, fault),
                None => r matches Ok(s) && is_cross_store_summary(
                    s,
                    repository_id@,
                    configured_embedding_model@,
                    *facts,
                ),
            },
    {
        let counts: ChunkProjectionCounts = match only_row(&facts.projection) {
            Ok(counts) => counts,
            Err(error) => {
                return Err(error);
            },
        };
        let latest: Option<EmbeddingIndexMetadata> = match first_row(&facts.embedding) {
            Ok(run) => run,
            Err(error) => {
                return Err(error);
            },
        };
        let dimensions: Vec<usize> = match collect_rows(&facts.dimensions) {
            Ok(rows) => rows,
            Err(error) => {
                return Err(error);
            },
        };
        let model = projected_model(&latest, configured_embedding_model);
        let rows = cross_store_health(
            &counts,
            &latest,
            configured_embedding_model,
            model.as_str(),
            &dimensions,
        );
        Ok(
            CrossStoreHealthSummary {
                repository_id: repository_id.to_owned(),
                collection_name: vector_table_name(repository_id, model.as_str()),
                rows,
            },
        )
    }

    /// How far the files of a repository are covered. `details[i]` is what the queries for the
    /// details of the file `bases[i]` found.
    pub fn index_coverage_summary(
        repository_id: &str,
        bases: &Vec<FileCoverageBaseRow>,
        details: &Vec<FileDetailFacts>,
    ) -> (r: Result<IndexCoverageSummary, StoreError>)
        requires
            details@.len() == bases@.len(),
        ensures
            match details_fault(details@, 0) {
                Some(fault) => r matches Err(e) && is_fault(e, fault),
                None => r matches Ok(s) && s.repository_id@ == repository_id@ && s.files@.len()
                    == bases@.len() && forall|i: int|
                    0 <= i < bases@.len() ==> is_coverage_row(
                        #[trigger] s.files@[i],
                        bases@[i],
                        details@[i],
                    ),
            },
    {
        let mut files: Vec<FileCoverageRow> = Vec::new();
        for i in 0..bases.len()
            invariant
                details@.len() == bases@.len(),
                files@.len() == i,
                details_fault(details@, 0) == details_fault(details@, i as int),
                forall|k: int|
                    0 <= k < i ==> is_coverage_row(#[trigger] files@[k], bases@[k], details@[k]),
        {
            let base = &bases[i];
            let detail = match file_detail(&details[i]) {
                Ok(detail) => detail,
                Err(error) => {
                    return Err(error);
                },
            };
            files.push(
                FileCoverageRow {
                    path: base.path.clone(),
                    language: base.language.clone(),
                    chunks: base.chunks,
                    symbols: base.symbols,
                    calls: base.calls,
                    embeddable_chunks: base.embeddable_chunks,
                    vector_backed_chunks: base.vector_backed_chunks,
                    excluded_chunks: base.excluded_chunks,
                    status: base.status,
                    detail,
                },
            );
        }
        Ok(IndexCoverageSummary { repository_id: repository_id.to_owned(), files })
    }
}

} // verus!
