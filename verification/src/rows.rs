//! How the rows of the store's queries are read.

use vstd::prelude::*;
use crate::coverage::{
    bucket_of, chunk_vector_status, confidence_bucket, coverage_of, file_coverage_status,
    vector_status_of,
};
use crate::error::StoreError;
use crate::records::{
    CallPathEdge, CallResolutionEdgeRow, CallSearchRow, ChunkEmbeddingRecord, EmbeddingExclusionRow,
    EmbeddingIndexMetadata, EvidenceProvenance, ExpectedVectorPoint, FastEmbeddingManifestRecord,
    FileCallDetailRow, FileChunkDetailRow, FileCoverageStatus, FileFreshnessSnapshot,
    FileStateRecord, FileSymbolDetailRow, IndexRunTimelineRow, QualityEmbeddingJobRecord,
    QualityJobSourceRow, RepositoryRefRecord, SemanticGenerationRecord,
    SemanticLayerManifestAggregate, SemanticNeighborhoodRow, SymbolRecord, SymbolSearchRow,
    TestSearchRow, WatcherClientRecord, WatcherStatusRecord,
};
use crate::sql::{
    check_fields, check_row, flag_at, in_order, integer_at, optional_size_at, optional_size_in,
    optional_small_at, optional_small_in, optional_text_at, optional_text_in, real_at, real_in,
    size_at, size_in, text_at, unfit, Column, Field, FromRow, Row, SqlValue,
};

verus! {

/// How many chunks of a repository are in which state.
#[derive(Debug, Clone, Copy, PartialEq, Eq, Structural)]
pub struct ChunkProjectionCounts {
    pub embeddable_chunks: usize,
    pub vector_backed_chunks: usize,
    pub excluded_chunks: usize,
    pub missing_vector_chunks: usize,
}

/// A file with its counts, before its details are known.
#[derive(Debug, Clone, PartialEq, Eq)]
pub struct FileCoverageBaseRow {
    pub file_id: String,
    pub path: String,
    pub language: String,
    pub chunks: usize,
    pub symbols: usize,
    pub calls: usize,
    pub embeddable_chunks: usize,
    pub vector_backed_chunks: usize,
    pub excluded_chunks: usize,
    pub status: FileCoverageStatus,
}

/// A symbol before its place in the outline is known.
#[derive(Debug, Clone, PartialEq, Eq)]
pub struct SymbolOutlineBaseRow {
    pub id: String,
    pub parent_symbol_id: Option<String>,
    pub kind: String,
    pub qualified_name: String,
    pub name: String,
    pub start_line: usize,
    pub end_line: usize,
    pub path: String,
}

/// A branch that the database knows.
#[derive(Debug, Clone, PartialEq, Eq)]
pub struct BranchRow {
    pub id: String,
    pub ref_name: Option<String>,
}

/// How many jobs have one status.
#[derive(Debug, Clone, PartialEq, Eq)]
pub struct StatusCount {
    pub status: String,
    pub jobs: i64,
}

/// A quality embedding that can be carried over.
#[derive(Debug, Clone, PartialEq, Eq)]
pub struct CarriedRow {
    pub file_id: String,
    pub chunk_id: String,
    pub content_hash: String,
    pub text_hash: String,
    pub embedding_dimension: usize,
    pub vector_table: String,
    pub vector_point_id: String,
    pub embedded_at: String,
}

/// A chunk that the quality layer does not hold yet.
#[derive(Debug, Clone, PartialEq, Eq)]
pub struct UnembeddedRow {
    pub file_id: String,
    pub chunk_id: String,
    pub path: String,
    pub content_hash: String,
    pub text_hash: String,
}

/// An index of a table.
#[derive(Debug, Clone, PartialEq, Eq)]
pub struct IndexRow {
    pub name: String,
    pub unique: i64,
}

/// A column of a table.
#[derive(Debug, Clone, PartialEq, Eq)]
pub struct TableColumnRow {
    pub name: String,
}

/// A column of an index.
#[derive(Debug, Clone, PartialEq, Eq)]
pub struct IndexColumnRow {
    pub name: String,
}

impl FromRow for RepositoryRefRecord {
    open spec fn fields() -> Seq<Field> {
        in_order(
            seq![
                Column::Text,
                Column::Text,
                Column::Text,
                Column::TextOrNull,
                Column::Text,
                Column::TextOrNull,
                Column::Integer,
                Column::TextOrNull,
                Column::TextOrNull,
                Column::TextOrNull,
                Column::TextOrNull,
            ],
        )
    }

    open spec fn of(row: Seq<SqlValue>) -> Self {
        RepositoryRefRecord {
            id: row[0]->Text_0,
            repository_id: row[1]->Text_0,
            ref_kind: row[2]->Text_0,
            ref_name: optional_text_in(row[3]),
            ref_identity: row[4]->Text_0,
            head_oid: optional_text_in(row[5]),
            is_current: row[6]->Integer_0 != 0,
            last_seen_at: optional_text_in(row[7]),
            deleted_at: optional_text_in(row[8]),
            created_at: optional_text_in(row[9]),
            updated_at: optional_text_in(row[10]),
        }
    }

    fn from_row(row: &Row) -> (r: Result<Self, StoreError>) {
        let kinds = vec![
            Column::Text,
            Column::Text,
            Column::Text,
            Column::TextOrNull,
            Column::Text,
            Column::TextOrNull,
            Column::Integer,
            Column::TextOrNull,
            Column::TextOrNull,
            Column::TextOrNull,
            Column::TextOrNull,
        ];
        proof {
            assert(in_order(kinds@) =~= Self::fields());
        }
        match check_row(row, &kinds) {
            Ok(_) => Ok(
                RepositoryRefRecord {
                    id: text_at(row, 0),
                    repository_id: text_at(row, 1),
                    ref_kind: text_at(row, 2),
                    ref_name: optional_text_at(row, 3),
                    ref_identity: text_at(row, 4),
                    head_oid: optional_text_at(row, 5),
                    is_current: flag_at(row, 6),
                    last_seen_at: optional_text_at(row, 7),
                    deleted_at: optional_text_at(row, 8),
                    created_at: optional_text_at(row, 9),
                    updated_at: optional_text_at(row, 10),
                },
            ),
            Err(error) => Err(error),
        }
    }
}

impl FromRow for FileStateRecord {
    open spec fn fields() -> Seq<Field> {
        in_order(seq![Column::Text, Column::Text])
    }

    open spec fn of(row: Seq<SqlValue>) -> Self {
        FileStateRecord {
            path: row[0]->Text_0,
            content_hash: row[1]->Text_0,
        }
    }

    fn from_row(row: &Row) -> (r: Result<Self, StoreError>) {
        let kinds = vec![Column::Text, Column::Text];
        proof {
            assert(in_order(kinds@) =~= Self::fields());
        }
        match check_row(row, &kinds) {
            Ok(_) => Ok(
                FileStateRecord {
                    path: text_at(row, 0),
                    content_hash: text_at(row, 1),
                },
            ),
            Err(error) => Err(error),
        }
    }
}

impl FromRow for FastEmbeddingManifestRecord {
    open spec fn fields() -> Seq<Field> {
        in_order(
            seq![
                Column::Text,
                Column::Text,
                Column::Text,
                Column::Text,
                Column::Text,
            ],
        )
    }

    open spec fn of(row: Seq<SqlValue>) -> Self {
        FastEmbeddingManifestRecord {
            file_id: row[0]->Text_0,
            chunk_id: row[1]->Text_0,
            content_hash: row[2]->Text_0,
            text_hash: row[3]->Text_0,
            vector_point_id: row[4]->Text_0,
        }
    }

    fn from_row(row: &Row) -> (r: Result<Self, StoreError>) {
        let kinds = vec![
            Column::Text,
            Column::Text,
            Column::Text,
            Column::Text,
            Column::Text,
        ];
        proof {
            assert(in_order(kinds@) =~= Self::fields());
        }
        match check_row(row, &kinds) {
            Ok(_) => Ok(
                FastEmbeddingManifestRecord {
                    file_id: text_at(row, 0),
                    chunk_id: text_at(row, 1),
                    content_hash: text_at(row, 2),
                    text_hash: text_at(row, 3),
                    vector_point_id: text_at(row, 4),
                },
            ),
            Err(error) => Err(error),
        }
    }
}

impl FromRow for SemanticGenerationRecord {
    open spec fn fields() -> Seq<Field> {
        in_order(
            seq![
                Column::Text,
                Column::Text,
                Column::Text,
                Column::Integer,
                Column::Text,
                Column::TextOrNull,
                Column::IntegerOrNull,
                Column::Text,
                Column::TextOrNull,
                Column::TextOrNull,
                Column::Text,
                Column::Integer,
                Column::Integer,
                Column::Integer,
                Column::Integer,
                Column::Text,
                Column::Text,
            ],
        )
    }

    open spec fn of(row: Seq<SqlValue>) -> Self {
        SemanticGenerationRecord {
            id: row[0]->Text_0,
            repository_id: row[1]->Text_0,
            fast_model: row[2]->Text_0,
            fast_dimension: size_in(row[3]),
            fast_completed_at: row[4]->Text_0,
            quality_model: optional_text_in(row[5]),
            quality_dimension: optional_size_in(row[6]),
            quality_status: row[7]->Text_0,
            quality_started_at: optional_text_in(row[8]),
            quality_completed_at: optional_text_in(row[9]),
            active_layer: row[10]->Text_0,
            files_seen: size_in(row[11]),
            embeddable_chunks: size_in(row[12]),
            fast_embedded_chunks: size_in(row[13]),
            quality_embedded_chunks: size_in(row[14]),
            created_at: row[15]->Text_0,
            updated_at: row[16]->Text_0,
        }
    }

    fn from_row(row: &Row) -> (r: Result<Self, StoreError>) {
        let kinds = vec![
            Column::Text,
            Column::Text,
            Column::Text,
            Column::Integer,
            Column::Text,
            Column::TextOrNull,
            Column::IntegerOrNull,
            Column::Text,
            Column::TextOrNull,
            Column::TextOrNull,
            Column::Text,
            Column::Integer,
            Column::Integer,
            Column::Integer,
            Column::Integer,
            Column::Text,
            Column::Text,
        ];
        proof {
            assert(in_order(kinds@) =~= Self::fields());
        }
        match check_row(row, &kinds) {
            Ok(_) => Ok(
                SemanticGenerationRecord {
                    id: text_at(row, 0),
                    repository_id: text_at(row, 1),
                    fast_model: text_at(row, 2),
                    fast_dimension: size_at(row, 3),
                    fast_completed_at: text_at(row, 4),
                    quality_model: optional_text_at(row, 5),
                    quality_dimension: optional_size_at(row, 6),
                    quality_status: text_at(row, 7),
                    quality_started_at: optional_text_at(row, 8),
                    quality_completed_at: optional_text_at(row, 9),
                    active_layer: text_at(row, 10),
                    files_seen: size_at(row, 11),
                    embeddable_chunks: size_at(row, 12),
                    fast_embedded_chunks: size_at(row, 13),
                    quality_embedded_chunks: size_at(row, 14),
                    created_at: text_at(row, 15),
                    updated_at: text_at(row, 16),
                },
            ),
            Err(error) => Err(error),
        }
    }
}

impl FromRow for SemanticLayerManifestAggregate {
    open spec fn fields() -> Seq<Field> {
        in_order(
            seq![
                Column::Text,
                Column::Integer,
                Column::Text,
                Column::Integer,
                Column::Integer,
                Column::Integer,
                Column::Integer,
                Column::Integer,
                Column::Integer,
            ],
        )
    }

    open spec fn of(row: Seq<SqlValue>) -> Self {
        SemanticLayerManifestAggregate {
            embedding_model: row[0]->Text_0,
            embedding_dimension: row[1]->Integer_0,
            vector_table: row[2]->Text_0,
            current_chunks: row[3]->Integer_0,
            stale_chunks: row[4]->Integer_0,
            blocked_chunks: row[5]->Integer_0,
            failed_chunks: row[6]->Integer_0,
            other_chunks: row[7]->Integer_0,
            total_chunks: row[8]->Integer_0,
        }
    }

    fn from_row(row: &Row) -> (r: Result<Self, StoreError>) {
        let kinds = vec![
            Column::Text,
            Column::Integer,
            Column::Text,
            Column::Integer,
            Column::Integer,
            Column::Integer,
            Column::Integer,
            Column::Integer,
            Column::Integer,
        ];
        proof {
            assert(in_order(kinds@) =~= Self::fields());
        }
        match check_row(row, &kinds) {
            Ok(_) => Ok(
                SemanticLayerManifestAggregate {
                    embedding_model: text_at(row, 0),
                    embedding_dimension: integer_at(row, 1),
                    vector_table: text_at(row, 2),
                    current_chunks: integer_at(row, 3),
                    stale_chunks: integer_at(row, 4),
                    blocked_chunks: integer_at(row, 5),
                    failed_chunks: integer_at(row, 6),
                    other_chunks: integer_at(row, 7),
                    total_chunks: integer_at(row, 8),
                },
            ),
            Err(error) => Err(error),
        }
    }
}

impl FromRow for ChunkEmbeddingRecord {
    open spec fn fields() -> Seq<Field> {
        in_order(
            seq![
                Column::Text,
                Column::Text,
                Column::Text,
                Column::Text,
                Column::Text,
                Column::Text,
                Column::Integer,
                Column::Text,
                Column::Text,
                Column::Text,
                Column::Text,
                Column::Text,
                Column::Text,
                Column::Text,
            ],
        )
    }

    open spec fn of(row: Seq<SqlValue>) -> Self {
        ChunkEmbeddingRecord {
            id: row[0]->Text_0,
            repository_id: row[1]->Text_0,
            file_id: row[2]->Text_0,
            chunk_id: row[3]->Text_0,
            semantic_layer: row[4]->Text_0,
            embedding_model: row[5]->Text_0,
            embedding_dimension: size_in(row[6]),
            content_hash: row[7]->Text_0,
            text_hash: row[8]->Text_0,
            vector_table: row[9]->Text_0,
            vector_point_id: row[10]->Text_0,
            generation_id: row[11]->Text_0,
            embedded_at: row[12]->Text_0,
            status: row[13]->Text_0,
        }
    }

    fn from_row(row: &Row) -> (r: Result<Self, StoreError>) {
        let kinds = vec![
            Column::Text,
            Column::Text,
            Column::Text,
            Column::Text,
            Column::Text,
            Column::Text,
            Column::Integer,
            Column::Text,
            Column::Text,
            Column::Text,
            Column::Text,
            Column::Text,
            Column::Text,
            Column::Text,
        ];
        proof {
            assert(in_order(kinds@) =~= Self::fields());
        }
        match check_row(row, &kinds) {
            Ok(_) => Ok(
                ChunkEmbeddingRecord {
                    id: text_at(row, 0),
                    repository_id: text_at(row, 1),
                    file_id: text_at(row, 2),
                    chunk_id: text_at(row, 3),
                    semantic_layer: text_at(row, 4),
                    embedding_model: text_at(row, 5),
                    embedding_dimension: size_at(row, 6),
                    content_hash: text_at(row, 7),
                    text_hash: text_at(row, 8),
                    vector_table: text_at(row, 9),
                    vector_point_id: text_at(row, 10),
                    generation_id: text_at(row, 11),
                    embedded_at: text_at(row, 12),
                    status: text_at(row, 13),
                },
            ),
            Err(error) => Err(error),
        }
    }
}

impl FromRow for QualityEmbeddingJobRecord {
    open spec fn fields() -> Seq<Field> {
        in_order(
            seq![
                Column::Text,
                Column::Text,
                Column::Text,
                Column::Text,
                Column::Text,
                Column::Text,
                Column::Text,
                Column::Text,
                Column::Text,
                Column::Integer,
                Column::TextOrNull,
                Column::Text,
                Column::Text,
            ],
        )
    }

    open spec fn of(row: Seq<SqlValue>) -> Self {
        QualityEmbeddingJobRecord {
            id: row[0]->Text_0,
            repository_id: row[1]->Text_0,
            generation_id: row[2]->Text_0,
            chunk_id: row[3]->Text_0,
            file_id: row[4]->Text_0,
            path: row[5]->Text_0,
            content_hash: row[6]->Text_0,
            text_hash: row[7]->Text_0,
            status: row[8]->Text_0,
            attempts: size_in(row[9]),
            error_summary: optional_text_in(row[10]),
            created_at: row[11]->Text_0,
            updated_at: row[12]->Text_0,
        }
    }

    fn from_row(row: &Row) -> (r: Result<Self, StoreError>) {
        let kinds = vec![
            Column::Text,
            Column::Text,
            Column::Text,
            Column::Text,
            Column::Text,
            Column::Text,
            Column::Text,
            Column::Text,
            Column::Text,
            Column::Integer,
            Column::TextOrNull,
            Column::Text,
            Column::Text,
        ];
        proof {
            assert(in_order(kinds@) =~= Self::fields());
        }
        match check_row(row, &kinds) {
            Ok(_) => Ok(
                QualityEmbeddingJobRecord {
                    id: text_at(row, 0),
                    repository_id: text_at(row, 1),
                    generation_id: text_at(row, 2),
                    chunk_id: text_at(row, 3),
                    file_id: text_at(row, 4),
                    path: text_at(row, 5),
                    content_hash: text_at(row, 6),
                    text_hash: text_at(row, 7),
                    status: text_at(row, 8),
                    attempts: size_at(row, 9),
                    error_summary: optional_text_at(row, 10),
                    created_at: text_at(row, 11),
                    updated_at: text_at(row, 12),
                },
            ),
            Err(error) => Err(error),
        }
    }
}

impl FromRow for WatcherStatusRecord {
    open spec fn fields() -> Seq<Field> {
        in_order(
            seq![
                Column::Text,
                Column::Text,
                Column::Text,
                Column::Text,
                Column::IntegerOrNull,
                Column::TextOrNull,
                Column::Text,
                Column::TextOrNull,
                Column::TextOrNull,
                Column::TextOrNull,
                Column::Integer,
                Column::Integer,
                Column::TextOrNull,
                Column::TextOrNull,
                Column::TextOrNull,
                Column::TextOrNull,
                Column::Integer,
                Column::Integer,
                Column::Integer,
                Column::Integer,
            ],
        )
    }

    open spec fn of(row: Seq<SqlValue>) -> Self {
        WatcherStatusRecord {
            repository_id: row[0]->Text_0,
            root_path: row[1]->Text_0,
            mode: row[2]->Text_0,
            owner_kind: row[3]->Text_0,
            owner_pid: optional_small_in(row[4]),
            socket_path: optional_text_in(row[5]),
            state: row[6]->Text_0,
            started_at: optional_text_in(row[7]),
            updated_at: optional_text_in(row[8]),
            heartbeat_at: optional_text_in(row[9]),
            files_seen: size_in(row[10]),
            queued_events: size_in(row[11]),
            last_indexed_path: optional_text_in(row[12]),
            last_error: optional_text_in(row[13]),
            active_layer: optional_text_in(row[14]),
            quality_status: optional_text_in(row[15]),
            quality_pending_jobs: size_in(row[16]),
            quality_running_jobs: size_in(row[17]),
            quality_failed_jobs: size_in(row[18]),
            quality_stale_jobs: size_in(row[19]),
        }
    }

    fn from_row(row: &Row) -> (r: Result<Self, StoreError>) {
        let kinds = vec![
            Column::Text,
            Column::Text,
            Column::Text,
            Column::Text,
            Column::IntegerOrNull,
            Column::TextOrNull,
            Column::Text,
            Column::TextOrNull,
            Column::TextOrNull,
            Column::TextOrNull,
            Column::Integer,
            Column::Integer,
            Column::TextOrNull,
            Column::TextOrNull,
            Column::TextOrNull,
            Column::TextOrNull,
            Column::Integer,
            Column::Integer,
            Column::Integer,
            Column::Integer,
        ];
        proof {
            assert(in_order(kinds@) =~= Self::fields());
        }
        match check_row(row, &kinds) {
            Ok(_) => Ok(
                WatcherStatusRecord {
                    repository_id: text_at(row, 0),
                    root_path: text_at(row, 1),
                    mode: text_at(row, 2),
                    owner_kind: text_at(row, 3),
                    owner_pid: optional_small_at(row, 4),
                    socket_path: optional_text_at(row, 5),
                    state: text_at(row, 6),
                    started_at: optional_text_at(row, 7),
                    updated_at: optional_text_at(row, 8),
                    heartbeat_at: optional_text_at(row, 9),
                    files_seen: size_at(row, 10),
                    queued_events: size_at(row, 11),
                    last_indexed_path: optional_text_at(row, 12),
                    last_error: optional_text_at(row, 13),
                    active_layer: optional_text_at(row, 14),
                    quality_status: optional_text_at(row, 15),
                    quality_pending_jobs: size_at(row, 16),
                    quality_running_jobs: size_at(row, 17),
                    quality_failed_jobs: size_at(row, 18),
                    quality_stale_jobs: size_at(row, 19),
                },
            ),
            Err(error) => Err(error),
        }
    }
}

impl FromRow for WatcherClientRecord {
    open spec fn fields() -> Seq<Field> {
        in_order(
            seq![
                Column::Text,
                Column::Text,
                Column::Text,
                Column::IntegerOrNull,
                Column::TextOrNull,
                Column::TextOrNull,
                Column::TextOrNull,
            ],
        )
    }

    open spec fn of(row: Seq<SqlValue>) -> Self {
        WatcherClientRecord {
            repository_id: row[0]->Text_0,
            client_id: row[1]->Text_0,
            client_kind: row[2]->Text_0,
            pid: optional_small_in(row[3]),
            started_at: optional_text_in(row[4]),
            heartbeat_at: optional_text_in(row[5]),
            last_seen_at: optional_text_in(row[6]),
        }
    }

    fn from_row(row: &Row) -> (r: Result<Self, StoreError>) {
        let kinds = vec![
            Column::Text,
            Column::Text,
            Column::Text,
            Column::IntegerOrNull,
            Column::TextOrNull,
            Column::TextOrNull,
            Column::TextOrNull,
        ];
        proof {
            assert(in_order(kinds@) =~= Self::fields());
        }
        match check_row(row, &kinds) {
            Ok(_) => Ok(
                WatcherClientRecord {
                    repository_id: text_at(row, 0),
                    client_id: text_at(row, 1),
                    client_kind: text_at(row, 2),
                    pid: optional_small_at(row, 3),
                    started_at: optional_text_at(row, 4),
                    heartbeat_at: optional_text_at(row, 5),
                    last_seen_at: optional_text_at(row, 6),
                },
            ),
            Err(error) => Err(error),
        }
    }
}

impl FromRow for EmbeddingIndexMetadata {
    open spec fn fields() -> Seq<Field> {
        in_order(seq![Column::Text, Column::IntegerOrNull, Column::Integer])
    }

    open spec fn of(row: Seq<SqlValue>) -> Self {
        EmbeddingIndexMetadata {
            embedding_model: row[0]->Text_0,
            embedding_dimension: optional_size_in(row[1]),
            chunks_embedded: size_in(row[2]),
        }
    }

    fn from_row(row: &Row) -> (r: Result<Self, StoreError>) {
        let kinds = vec![Column::Text, Column::IntegerOrNull, Column::Integer];
        proof {
            assert(in_order(kinds@) =~= Self::fields());
        }
        match check_row(row, &kinds) {
            Ok(_) => Ok(
                EmbeddingIndexMetadata {
                    embedding_model: text_at(row, 0),
                    embedding_dimension: optional_size_at(row, 1),
                    chunks_embedded: size_at(row, 2),
                },
            ),
            Err(error) => Err(error),
        }
    }
}

impl FromRow for FileFreshnessSnapshot {
    open spec fn fields() -> Seq<Field> {
        in_order(
            seq![
                Column::Text,
                Column::Text,
                Column::Text,
                Column::TextOrNull,
                Column::TextOrNull,
            ],
        )
    }

    open spec fn of(row: Seq<SqlValue>) -> Self {
        FileFreshnessSnapshot {
            path: row[0]->Text_0,
            content_hash: row[1]->Text_0,
            indexed_at: row[2]->Text_0,
            index_run_id: optional_text_in(row[3]),
            parser_version: optional_text_in(row[4]),
        }
    }

    fn from_row(row: &Row) -> (r: Result<Self, StoreError>) {
        let kinds = vec![
            Column::Text,
            Column::Text,
            Column::Text,
            Column::TextOrNull,
            Column::TextOrNull,
        ];
        proof {
            assert(in_order(kinds@) =~= Self::fields());
        }
        match check_row(row, &kinds) {
            Ok(_) => Ok(
                FileFreshnessSnapshot {
                    path: text_at(row, 0),
                    content_hash: text_at(row, 1),
                    indexed_at: text_at(row, 2),
                    index_run_id: optional_text_at(row, 3),
                    parser_version: optional_text_at(row, 4),
                },
            ),
            Err(error) => Err(error),
        }
    }
}

impl FromRow for SymbolRecord {
    open spec fn fields() -> Seq<Field> {
        in_order(
            seq![
                Column::Text,
                Column::Text,
                Column::TextOrNull,
                Column::Text,
                Column::Text,
                Column::Text,
                Column::TextOrNull,
                Column::Integer,
                Column::Integer,
                Column::Integer,
                Column::Integer,
                Column::Text,
                Column::Text,
            ],
        )
    }

    open spec fn of(row: Seq<SqlValue>) -> Self {
        SymbolRecord {
            id: row[0]->Text_0,
            file_id: row[1]->Text_0,
            parent_symbol_id: optional_text_in(row[2]),
            name: row[3]->Text_0,
            qualified_name: row[4]->Text_0,
            kind: row[5]->Text_0,
            signature: optional_text_in(row[6]),
            start_line: size_in(row[7]),
            end_line: size_in(row[8]),
            start_byte: size_in(row[9]),
            end_byte: size_in(row[10]),
            index_run_id: row[11]->Text_0,
            parser_version: row[12]->Text_0,
        }
    }

    fn from_row(row: &Row) -> (r: Result<Self, StoreError>) {
        let kinds = vec![
            Column::Text,
            Column::Text,
            Column::TextOrNull,
            Column::Text,
            Column::Text,
            Column::Text,
            Column::TextOrNull,
            Column::Integer,
            Column::Integer,
            Column::Integer,
            Column::Integer,
            Column::Text,
            Column::Text,
        ];
        proof {
            assert(in_order(kinds@) =~= Self::fields());
        }
        match check_row(row, &kinds) {
            Ok(_) => Ok(
                SymbolRecord {
                    id: text_at(row, 0),
                    file_id: text_at(row, 1),
                    parent_symbol_id: optional_text_at(row, 2),
                    name: text_at(row, 3),
                    qualified_name: text_at(row, 4),
                    kind: text_at(row, 5),
                    signature: optional_text_at(row, 6),
                    start_line: size_at(row, 7),
                    end_line: size_at(row, 8),
                    start_byte: size_at(row, 9),
                    end_byte: size_at(row, 10),
                    index_run_id: text_at(row, 11),
                    parser_version: text_at(row, 12),
                },
            ),
            Err(error) => Err(error),
        }
    }
}

impl FromRow for IndexRunTimelineRow {
    open spec fn fields() -> Seq<Field> {
        in_order(
            seq![
                Column::Text,
                Column::Text,
                Column::TextOrNull,
                Column::Text,
                Column::Text,
                Column::IntegerOrNull,
                Column::Integer,
                Column::Integer,
                Column::Integer,
                Column::TextOrNull,
                Column::Text,
            ],
        )
    }

    open spec fn of(row: Seq<SqlValue>) -> Self {
        IndexRunTimelineRow {
            id: row[0]->Text_0,
            started_at: row[1]->Text_0,
            finished_at: optional_text_in(row[2]),
            status: row[3]->Text_0,
            embedding_model: row[4]->Text_0,
            embedding_dimension: optional_size_in(row[5]),
            files_seen: size_in(row[6]),
            files_indexed: size_in(row[7]),
            chunks_embedded: size_in(row[8]),
            error_summary: optional_text_in(row[9]),
            run_kind: row[10]->Text_0,
        }
    }

    fn from_row(row: &Row) -> (r: Result<Self, StoreError>) {
        let kinds = vec![
            Column::Text,
            Column::Text,
            Column::TextOrNull,
            Column::Text,
            Column::Text,
            Column::IntegerOrNull,
            Column::Integer,
            Column::Integer,
            Column::Integer,
            Column::TextOrNull,
            Column::Text,
        ];
        proof {
            assert(in_order(kinds@) =~= Self::fields());
        }
        match check_row(row, &kinds) {
            Ok(_) => Ok(
                IndexRunTimelineRow {
                    id: text_at(row, 0),
                    started_at: text_at(row, 1),
                    finished_at: optional_text_at(row, 2),
                    status: text_at(row, 3),
                    embedding_model: text_at(row, 4),
                    embedding_dimension: optional_size_at(row, 5),
                    files_seen: size_at(row, 6),
                    files_indexed: size_at(row, 7),
                    chunks_embedded: size_at(row, 8),
                    error_summary: optional_text_at(row, 9),
                    run_kind: text_at(row, 10),
                },
            ),
            Err(error) => Err(error),
        }
    }
}

impl FromRow for EmbeddingExclusionRow {
    open spec fn fields() -> Seq<Field> {
        in_order(seq![Column::Text, Column::Integer])
    }

    open spec fn of(row: Seq<SqlValue>) -> Self {
        EmbeddingExclusionRow {
            reason: row[0]->Text_0,
            chunks: size_in(row[1]),
        }
    }

    fn from_row(row: &Row) -> (r: Result<Self, StoreError>) {
        let kinds = vec![Column::Text, Column::Integer];
        proof {
            assert(in_order(kinds@) =~= Self::fields());
        }
        match check_row(row, &kinds) {
            Ok(_) => Ok(
                EmbeddingExclusionRow {
                    reason: text_at(row, 0),
                    chunks: size_at(row, 1),
                },
            ),
            Err(error) => Err(error),
        }
    }
}

impl FromRow for FileSymbolDetailRow {
    open spec fn fields() -> Seq<Field> {
        in_order(
            seq![
                Column::Text,
                Column::Text,
                Column::TextOrNull,
                Column::Integer,
                Column::Integer,
            ],
        )
    }

    open spec fn of(row: Seq<SqlValue>) -> Self {
        FileSymbolDetailRow {
            kind: row[0]->Text_0,
            qualified_name: row[1]->Text_0,
            parent_symbol_id: optional_text_in(row[2]),
            start_line: size_in(row[3]),
            end_line: size_in(row[4]),
        }
    }

    fn from_row(row: &Row) -> (r: Result<Self, StoreError>) {
        let kinds = vec![
            Column::Text,
            Column::Text,
            Column::TextOrNull,
            Column::Integer,
            Column::Integer,
        ];
        proof {
            assert(in_order(kinds@) =~= Self::fields());
        }
        match check_row(row, &kinds) {
            Ok(_) => Ok(
                FileSymbolDetailRow {
                    kind: text_at(row, 0),
                    qualified_name: text_at(row, 1),
                    parent_symbol_id: optional_text_at(row, 2),
                    start_line: size_at(row, 3),
                    end_line: size_at(row, 4),
                },
            ),
            Err(error) => Err(error),
        }
    }
}

impl FromRow for FileCallDetailRow {
    open spec fn fields() -> Seq<Field> {
        in_order(
            seq![
                Column::Text,
                Column::Text,
                Column::Integer,
                Column::Real,
                Column::Text,
            ],
        )
    }

    open spec fn of(row: Seq<SqlValue>) -> Self {
        FileCallDetailRow {
            caller_symbol: row[0]->Text_0,
            callee_text: row[1]->Text_0,
            call_line: size_in(row[2]),
            confidence: real_in(row[3]),
            resolution_status: row[4]->Text_0,
        }
    }

    fn from_row(row: &Row) -> (r: Result<Self, StoreError>) {
        let kinds = vec![
            Column::Text,
            Column::Text,
            Column::Integer,
            Column::Real,
            Column::Text,
        ];
        proof {
            assert(in_order(kinds@) =~= Self::fields());
        }
        match check_row(row, &kinds) {
            Ok(_) => Ok(
                FileCallDetailRow {
                    caller_symbol: text_at(row, 0),
                    callee_text: text_at(row, 1),
                    call_line: size_at(row, 2),
                    confidence: real_at(row, 3),
                    resolution_status: text_at(row, 4),
                },
            ),
            Err(error) => Err(error),
        }
    }
}

impl FromRow for ChunkProjectionCounts {
    open spec fn fields() -> Seq<Field> {
        in_order(seq![Column::Integer, Column::Integer, Column::Integer, Column::Integer])
    }

    open spec fn of(row: Seq<SqlValue>) -> Self {
        ChunkProjectionCounts {
            embeddable_chunks: size_in(row[0]),
            vector_backed_chunks: size_in(row[1]),
            excluded_chunks: size_in(row[2]),
            missing_vector_chunks: size_in(row[3]),
        }
    }

    fn from_row(row: &Row) -> (r: Result<Self, StoreError>) {
        let kinds = vec![Column::Integer, Column::Integer, Column::Integer, Column::Integer];
        proof {
            assert(in_order(kinds@) =~= Self::fields());
        }
        match check_row(row, &kinds) {
            Ok(_) => Ok(
                ChunkProjectionCounts {
                    embeddable_chunks: size_at(row, 0),
                    vector_backed_chunks: size_at(row, 1),
                    excluded_chunks: size_at(row, 2),
                    missing_vector_chunks: size_at(row, 3),
                },
            ),
            Err(error) => Err(error),
        }
    }
}

impl FromRow for SymbolOutlineBaseRow {
    open spec fn fields() -> Seq<Field> {
        in_order(
            seq![
                Column::Text,
                Column::TextOrNull,
                Column::Text,
                Column::Text,
                Column::Text,
                Column::Integer,
                Column::Integer,
                Column::Text,
            ],
        )
    }

    open spec fn of(row: Seq<SqlValue>) -> Self {
        SymbolOutlineBaseRow {
            id: row[0]->Text_0,
            parent_symbol_id: optional_text_in(row[1]),
            kind: row[2]->Text_0,
            qualified_name: row[3]->Text_0,
            name: row[4]->Text_0,
            start_line: size_in(row[5]),
            end_line: size_in(row[6]),
            path: row[7]->Text_0,
        }
    }

    fn from_row(row: &Row) -> (r: Result<Self, StoreError>) {
        let kinds = vec![
            Column::Text,
            Column::TextOrNull,
            Column::Text,
            Column::Text,
            Column::Text,
            Column::Integer,
            Column::Integer,
            Column::Text,
        ];
        proof {
            assert(in_order(kinds@) =~= Self::fields());
        }
        match check_row(row, &kinds) {
            Ok(_) => Ok(
                SymbolOutlineBaseRow {
                    id: text_at(row, 0),
                    parent_symbol_id: optional_text_at(row, 1),
                    kind: text_at(row, 2),
                    qualified_name: text_at(row, 3),
                    name: text_at(row, 4),
                    start_line: size_at(row, 5),
                    end_line: size_at(row, 6),
                    path: text_at(row, 7),
                },
            ),
            Err(error) => Err(error),
        }
    }
}

impl FromRow for BranchRow {
    open spec fn fields() -> Seq<Field> {
        in_order(seq![Column::Text, Column::TextOrNull])
    }

    open spec fn of(row: Seq<SqlValue>) -> Self {
        BranchRow {
            id: row[0]->Text_0,
            ref_name: optional_text_in(row[1]),
        }
    }

    fn from_row(row: &Row) -> (r: Result<Self, StoreError>) {
        let kinds = vec![Column::Text, Column::TextOrNull];
        proof {
            assert(in_order(kinds@) =~= Self::fields());
        }
        match check_row(row, &kinds) {
            Ok(_) => Ok(
                BranchRow {
                    id: text_at(row, 0),
                    ref_name: optional_text_at(row, 1),
                },
            ),
            Err(error) => Err(error),
        }
    }
}

impl FromRow for StatusCount {
    open spec fn fields() -> Seq<Field> {
        in_order(seq![Column::Text, Column::Integer])
    }

    open spec fn of(row: Seq<SqlValue>) -> Self {
        StatusCount {
            status: row[0]->Text_0,
            jobs: row[1]->Integer_0,
        }
    }

    fn from_row(row: &Row) -> (r: Result<Self, StoreError>) {
        let kinds = vec![Column::Text, Column::Integer];
        proof {
            assert(in_order(kinds@) =~= Self::fields());
        }
        match check_row(row, &kinds) {
            Ok(_) => Ok(
                StatusCount {
                    status: text_at(row, 0),
                    jobs: integer_at(row, 1),
                },
            ),
            Err(error) => Err(error),
        }
    }
}

impl FromRow for QualityJobSourceRow {
    open spec fn fields() -> Seq<Field> {
        in_order(
            seq![
                Column::Text,
                Column::Text,
                Column::Text,
                Column::Text,
                Column::Text,
                Column::Text,
                Column::Text,
                Column::Text,
                Column::Text,
                Column::Integer,
                Column::TextOrNull,
                Column::Text,
                Column::Text,
                Column::TextOrNull,
                Column::TextOrNull,
                Column::TextOrNull,
                Column::TextOrNull,
                Column::TextOrNull,
                Column::IntegerOrNull,
                Column::IntegerOrNull,
                Column::IntegerOrNull,
                Column::IntegerOrNull,
                Column::TextOrNull,
                Column::TextOrNull,
                Column::TextOrNull,
                Column::TextOrNull,
                Column::TextOrNull,
            ],
        )
    }

    open spec fn of(row: Seq<SqlValue>) -> Self {
        QualityJobSourceRow {
            job: QualityEmbeddingJobRecord {
                id: row[0]->Text_0,
                repository_id: row[1]->Text_0,
                generation_id: row[2]->Text_0,
                chunk_id: row[3]->Text_0,
                file_id: row[4]->Text_0,
                path: row[5]->Text_0,
                content_hash: row[6]->Text_0,
                text_hash: row[7]->Text_0,
                status: row[8]->Text_0,
                attempts: size_in(row[9]),
                error_summary: optional_text_in(row[10]),
                created_at: row[11]->Text_0,
                updated_at: row[12]->Text_0,
            },
            current_file_id: optional_text_in(row[13]),
            current_content_hash: optional_text_in(row[14]),
            language: optional_text_in(row[15]),
            chunk_kind: optional_text_in(row[16]),
            current_text_hash: optional_text_in(row[17]),
            start_line: optional_size_in(row[18]),
            end_line: optional_size_in(row[19]),
            start_byte: optional_size_in(row[20]),
            end_byte: optional_size_in(row[21]),
            excluded_reason: optional_text_in(row[22]),
            symbol_id: optional_text_in(row[23]),
            symbol_name: optional_text_in(row[24]),
            index_run_id: optional_text_in(row[25]),
            parser_version: optional_text_in(row[26]),
        }
    }

    fn from_row(row: &Row) -> (r: Result<Self, StoreError>) {
        let kinds = vec![
            Column::Text,
            Column::Text,
            Column::Text,
            Column::Text,
            Column::Text,
            Column::Text,
            Column::Text,
            Column::Text,
            Column::Text,
            Column::Integer,
            Column::TextOrNull,
            Column::Text,
            Column::Text,
            Column::TextOrNull,
            Column::TextOrNull,
            Column::TextOrNull,
            Column::TextOrNull,
            Column::TextOrNull,
            Column::IntegerOrNull,
            Column::IntegerOrNull,
            Column::IntegerOrNull,
            Column::IntegerOrNull,
            Column::TextOrNull,
            Column::TextOrNull,
            Column::TextOrNull,
            Column::TextOrNull,
            Column::TextOrNull,
        ];
        proof {
            assert(in_order(kinds@) =~= Self::fields());
        }
        match check_row(row, &kinds) {
            Ok(_) => Ok(
                QualityJobSourceRow {
                    job: QualityEmbeddingJobRecord {
                        id: text_at(row, 0),
                        repository_id: text_at(row, 1),
                        generation_id: text_at(row, 2),
                        chunk_id: text_at(row, 3),
                        file_id: text_at(row, 4),
                        path: text_at(row, 5),
                        content_hash: text_at(row, 6),
                        text_hash: text_at(row, 7),
                        status: text_at(row, 8),
                        attempts: size_at(row, 9),
                        error_summary: optional_text_at(row, 10),
                        created_at: text_at(row, 11),
                        updated_at: text_at(row, 12),
                    },
                    current_file_id: optional_text_at(row, 13),
                    current_content_hash: optional_text_at(row, 14),
                    language: optional_text_at(row, 15),
                    chunk_kind: optional_text_at(row, 16),
                    current_text_hash: optional_text_at(row, 17),
                    start_line: optional_size_at(row, 18),
                    end_line: optional_size_at(row, 19),
                    start_byte: optional_size_at(row, 20),
                    end_byte: optional_size_at(row, 21),
                    excluded_reason: optional_text_at(row, 22),
                    symbol_id: optional_text_at(row, 23),
                    symbol_name: optional_text_at(row, 24),
                    index_run_id: optional_text_at(row, 25),
                    parser_version: optional_text_at(row, 26),
                },
            ),
            Err(error) => Err(error),
        }
    }
}

impl FromRow for EvidenceProvenance {
    open spec fn fields() -> Seq<Field> {
        in_order(
            seq![
                Column::TextOrNull,
                Column::TextOrNull,
                Column::TextOrNull,
                Column::TextOrNull,
            ],
        )
    }

    open spec fn of(row: Seq<SqlValue>) -> Self {
        EvidenceProvenance {
            content_hash: optional_text_in(row[0]),
            index_run_id: optional_text_in(row[1]),
            parser_version: optional_text_in(row[2]),
            indexed_at: optional_text_in(row[3]),
            embedding_model: None,
            embedding_dimension: None,
            embedded_at: None,
        }
    }

    fn from_row(row: &Row) -> (r: Result<Self, StoreError>) {
        let kinds = vec![
            Column::TextOrNull,
            Column::TextOrNull,
            Column::TextOrNull,
            Column::TextOrNull,
        ];
        proof {
            assert(in_order(kinds@) =~= Self::fields());
        }
        match check_row(row, &kinds) {
            Ok(_) => Ok(
                EvidenceProvenance {
                    content_hash: optional_text_at(row, 0),
                    index_run_id: optional_text_at(row, 1),
                    parser_version: optional_text_at(row, 2),
                    indexed_at: optional_text_at(row, 3),
                    embedding_model: None,
                    embedding_dimension: None,
                    embedded_at: None,
                },
            ),
            Err(error) => Err(error),
        }
    }
}

impl FromRow for SymbolSearchRow {
    open spec fn fields() -> Seq<Field> {
        in_order(
            seq![
                Column::Text,
                Column::Text,
                Column::Text,
                Column::Text,
                Column::Text,
                Column::Integer,
                Column::Integer,
                Column::TextOrNull,
                Column::TextOrNull,
                Column::TextOrNull,
                Column::TextOrNull,
            ],
        )
    }

    open spec fn of(row: Seq<SqlValue>) -> Self {
        SymbolSearchRow {
            id: row[0]->Text_0,
            name: row[1]->Text_0,
            qualified_name: row[2]->Text_0,
            kind: row[3]->Text_0,
            path: row[4]->Text_0,
            start_line: size_in(row[5]),
            end_line: size_in(row[6]),
            provenance: EvidenceProvenance {
                content_hash: optional_text_in(row[7]),
                index_run_id: optional_text_in(row[8]),
                parser_version: optional_text_in(row[9]),
                indexed_at: optional_text_in(row[10]),
                embedding_model: None,
                embedding_dimension: None,
                embedded_at: None,
            },
        }
    }

    fn from_row(row: &Row) -> (r: Result<Self, StoreError>) {
        let kinds = vec![
            Column::Text,
            Column::Text,
            Column::Text,
            Column::Text,
            Column::Text,
            Column::Integer,
            Column::Integer,
            Column::TextOrNull,
            Column::TextOrNull,
            Column::TextOrNull,
            Column::TextOrNull,
        ];
        proof {
            assert(in_order(kinds@) =~= Self::fields());
        }
        match check_row(row, &kinds) {
            Ok(_) => Ok(
                SymbolSearchRow {
                    id: text_at(row, 0),
                    name: text_at(row, 1),
                    qualified_name: text_at(row, 2),
                    kind: text_at(row, 3),
                    path: text_at(row, 4),
                    start_line: size_at(row, 5),
                    end_line: size_at(row, 6),
                    provenance: EvidenceProvenance {
                        content_hash: optional_text_at(row, 7),
                        index_run_id: optional_text_at(row, 8),
                        parser_version: optional_text_at(row, 9),
                        indexed_at: optional_text_at(row, 10),
                        embedding_model: None,
                        embedding_dimension: None,
                        embedded_at: None,
                    },
                },
            ),
            Err(error) => Err(error),
        }
    }
}

impl FromRow for CallSearchRow {
    open spec fn fields() -> Seq<Field> {
        in_order(
            seq![
                Column::Text,
                Column::Integer,
                Column::Real,
                Column::Text,
                Column::TextOrNull,
                Column::TextOrNull,
                Column::TextOrNull,
                Column::TextOrNull,
                Column::TextOrNull,
                Column::IntegerOrNull,
                Column::IntegerOrNull,
                Column::TextOrNull,
                Column::TextOrNull,
                Column::TextOrNull,
                Column::TextOrNull,
            ],
        )
    }

    open spec fn of(row: Seq<SqlValue>) -> Self {
        CallSearchRow {
            callee_text: row[0]->Text_0,
            call_line: size_in(row[1]),
            confidence: real_in(row[2]),
            resolution_status: row[3]->Text_0,
            symbol_id: optional_text_in(row[4]),
            symbol_name: optional_text_in(row[5]),
            symbol_qualified_name: optional_text_in(row[6]),
            symbol_kind: optional_text_in(row[7]),
            path: optional_text_in(row[8]),
            start_line: optional_size_in(row[9]),
            end_line: optional_size_in(row[10]),
            provenance: EvidenceProvenance {
                content_hash: optional_text_in(row[11]),
                index_run_id: optional_text_in(row[12]),
                parser_version: optional_text_in(row[13]),
                indexed_at: optional_text_in(row[14]),
                embedding_model: None,
                embedding_dimension: None,
                embedded_at: None,
            },
        }
    }

    fn from_row(row: &Row) -> (r: Result<Self, StoreError>) {
        let kinds = vec![
            Column::Text,
            Column::Integer,
            Column::Real,
            Column::Text,
            Column::TextOrNull,
            Column::TextOrNull,
            Column::TextOrNull,
            Column::TextOrNull,
            Column::TextOrNull,
            Column::IntegerOrNull,
            Column::IntegerOrNull,
            Column::TextOrNull,
            Column::TextOrNull,
            Column::TextOrNull,
            Column::TextOrNull,
        ];
        proof {
            assert(in_order(kinds@) =~= Self::fields());
        }
        match check_row(row, &kinds) {
            Ok(_) => Ok(
                CallSearchRow {
                    callee_text: text_at(row, 0),
                    call_line: size_at(row, 1),
                    confidence: real_at(row, 2),
                    resolution_status: text_at(row, 3),
                    symbol_id: optional_text_at(row, 4),
                    symbol_name: optional_text_at(row, 5),
                    symbol_qualified_name: optional_text_at(row, 6),
                    symbol_kind: optional_text_at(row, 7),
                    path: optional_text_at(row, 8),
                    start_line: optional_size_at(row, 9),
                    end_line: optional_size_at(row, 10),
                    provenance: EvidenceProvenance {
                        content_hash: optional_text_at(row, 11),
                        index_run_id: optional_text_at(row, 12),
                        parser_version: optional_text_at(row, 13),
                        indexed_at: optional_text_at(row, 14),
                        embedding_model: None,
                        embedding_dimension: None,
                        embedded_at: None,
                    },
                },
            ),
            Err(error) => Err(error),
        }
    }
}

impl FromRow for TestSearchRow {
    open spec fn fields() -> Seq<Field> {
        in_order(
            seq![
                Column::Text,
                Column::Text,
                Column::Text,
                Column::Text,
                Column::Text,
                Column::Text,
                Column::Integer,
                Column::Integer,
                Column::TextOrNull,
                Column::TextOrNull,
                Column::TextOrNull,
                Column::TextOrNull,
            ],
        )
    }

    open spec fn of(row: Seq<SqlValue>) -> Self {
        TestSearchRow {
            id: row[0]->Text_0,
            name: row[1]->Text_0,
            qualified_name: row[2]->Text_0,
            framework: row[3]->Text_0,
            language: row[4]->Text_0,
            path: row[5]->Text_0,
            start_line: size_in(row[6]),
            end_line: size_in(row[7]),
            provenance: EvidenceProvenance {
                content_hash: optional_text_in(row[8]),
                index_run_id: optional_text_in(row[9]),
                parser_version: optional_text_in(row[10]),
                indexed_at: optional_text_in(row[11]),
                embedding_model: None,
                embedding_dimension: None,
                embedded_at: None,
            },
        }
    }

    fn from_row(row: &Row) -> (r: Result<Self, StoreError>) {
        let kinds = vec![
            Column::Text,
            Column::Text,
            Column::Text,
            Column::Text,
            Column::Text,
            Column::Text,
            Column::Integer,
            Column::Integer,
            Column::TextOrNull,
            Column::TextOrNull,
            Column::TextOrNull,
            Column::TextOrNull,
        ];
        proof {
            assert(in_order(kinds@) =~= Self::fields());
        }
        match check_row(row, &kinds) {
            Ok(_) => Ok(
                TestSearchRow {
                    id: text_at(row, 0),
                    name: text_at(row, 1),
                    qualified_name: text_at(row, 2),
                    framework: text_at(row, 3),
                    language: text_at(row, 4),
                    path: text_at(row, 5),
                    start_line: size_at(row, 6),
                    end_line: size_at(row, 7),
                    provenance: EvidenceProvenance {
                        content_hash: optional_text_at(row, 8),
                        index_run_id: optional_text_at(row, 9),
                        parser_version: optional_text_at(row, 10),
                        indexed_at: optional_text_at(row, 11),
                        embedding_model: None,
                        embedding_dimension: None,
                        embedded_at: None,
                    },
                },
            ),
            Err(error) => Err(error),
        }
    }
}

impl FromRow for CallPathEdge {
    open spec fn fields() -> Seq<Field> {
        in_order(
            seq![
                Column::Text,
                Column::Text,
                Column::Integer,
                Column::Real,
                Column::Text,
                Column::Text,
                Column::Text,
                Column::Text,
                Column::Text,
                Column::Text,
                Column::Integer,
                Column::Integer,
                Column::TextOrNull,
                Column::TextOrNull,
                Column::TextOrNull,
                Column::TextOrNull,
                Column::TextOrNull,
                Column::IntegerOrNull,
                Column::IntegerOrNull,
                Column::TextOrNull,
                Column::TextOrNull,
                Column::TextOrNull,
                Column::TextOrNull,
            ],
        )
    }

    open spec fn of(row: Seq<SqlValue>) -> Self {
        CallPathEdge {
            call_id: row[0]->Text_0,
            caller_symbol_id: row[5]->Text_0,
            caller_symbol_name: row[6]->Text_0,
            caller_symbol_qualified_name: row[7]->Text_0,
            caller_symbol_kind: row[8]->Text_0,
            caller_path: row[9]->Text_0,
            caller_start_line: size_in(row[10]),
            caller_end_line: size_in(row[11]),
            callee_text: row[1]->Text_0,
            callee_symbol_id: optional_text_in(row[12]),
            callee_symbol_name: optional_text_in(row[13]),
            callee_symbol_qualified_name: optional_text_in(row[14]),
            callee_symbol_kind: optional_text_in(row[15]),
            callee_path: optional_text_in(row[16]),
            callee_start_line: optional_size_in(row[17]),
            callee_end_line: optional_size_in(row[18]),
            call_line: size_in(row[2]),
            confidence: real_in(row[3]),
            resolution_status: row[4]->Text_0,
            provenance: EvidenceProvenance {
                content_hash: optional_text_in(row[19]),
                index_run_id: optional_text_in(row[20]),
                parser_version: optional_text_in(row[21]),
                indexed_at: optional_text_in(row[22]),
                embedding_model: None,
                embedding_dimension: None,
                embedded_at: None,
            },
        }
    }

    fn from_row(row: &Row) -> (r: Result<Self, StoreError>) {
        let kinds = vec![
            Column::Text,
            Column::Text,
            Column::Integer,
            Column::Real,
            Column::Text,
            Column::Text,
            Column::Text,
            Column::Text,
            Column::Text,
            Column::Text,
            Column::Integer,
            Column::Integer,
            Column::TextOrNull,
            Column::TextOrNull,
            Column::TextOrNull,
            Column::TextOrNull,
            Column::TextOrNull,
            Column::IntegerOrNull,
            Column::IntegerOrNull,
            Column::TextOrNull,
            Column::TextOrNull,
            Column::TextOrNull,
            Column::TextOrNull,
        ];
        proof {
            assert(in_order(kinds@) =~= Self::fields());
        }
        match check_row(row, &kinds) {
            Ok(_) => Ok(
                CallPathEdge {
                    call_id: text_at(row, 0),
                    caller_symbol_id: text_at(row, 5),
                    caller_symbol_name: text_at(row, 6),
                    caller_symbol_qualified_name: text_at(row, 7),
                    caller_symbol_kind: text_at(row, 8),
                    caller_path: text_at(row, 9),
                    caller_start_line: size_at(row, 10),
                    caller_end_line: size_at(row, 11),
                    callee_text: text_at(row, 1),
                    callee_symbol_id: optional_text_at(row, 12),
                    callee_symbol_name: optional_text_at(row, 13),
                    callee_symbol_qualified_name: optional_text_at(row, 14),
                    callee_symbol_kind: optional_text_at(row, 15),
                    callee_path: optional_text_at(row, 16),
                    callee_start_line: optional_size_at(row, 17),
                    callee_end_line: optional_size_at(row, 18),
                    call_line: size_at(row, 2),
                    confidence: real_at(row, 3),
                    resolution_status: text_at(row, 4),
                    provenance: EvidenceProvenance {
                        content_hash: optional_text_at(row, 19),
                        index_run_id: optional_text_at(row, 20),
                        parser_version: optional_text_at(row, 21),
                        indexed_at: optional_text_at(row, 22),
                        embedding_model: None,
                        embedding_dimension: None,
                        embedded_at: None,
                    },
                },
            ),
            Err(error) => Err(error),
        }
    }
}

impl FromRow for ExpectedVectorPoint {
    open spec fn fields() -> Seq<Field> {
        in_order(
            seq![
                Column::Text,
                Column::Text,
                Column::Text,
                Column::Integer,
                Column::Integer,
                Column::Text,
                Column::Text,
                Column::Integer,
            ],
        )
    }

    open spec fn of(row: Seq<SqlValue>) -> Self {
        ExpectedVectorPoint {
            vector_point_id: row[0]->Text_0,
            chunk_id: row[1]->Text_0,
            path: row[2]->Text_0,
            start_line: size_in(row[3]),
            end_line: size_in(row[4]),
            text_hash: row[5]->Text_0,
            embedding_model: Some(row[6]->Text_0),
            embedding_dimension: Some(size_in(row[7])),
        }
    }

    fn from_row(row: &Row) -> (r: Result<Self, StoreError>) {
        let kinds = vec![
            Column::Text,
            Column::Text,
            Column::Text,
            Column::Integer,
            Column::Integer,
            Column::Text,
            Column::Text,
            Column::Integer,
        ];
        proof {
            assert(in_order(kinds@) =~= Self::fields());
        }
        match check_row(row, &kinds) {
            Ok(_) => Ok(
                ExpectedVectorPoint {
                    vector_point_id: text_at(row, 0),
                    chunk_id: text_at(row, 1),
                    path: text_at(row, 2),
                    start_line: size_at(row, 3),
                    end_line: size_at(row, 4),
                    text_hash: text_at(row, 5),
                    embedding_model: Some(text_at(row, 6)),
                    embedding_dimension: Some(size_at(row, 7)),
                },
            ),
            Err(error) => Err(error),
        }
    }
}

impl FromRow for SemanticNeighborhoodRow {
    open spec fn fields() -> Seq<Field> {
        in_order(
            seq![
                Column::Text,
                Column::Text,
                Column::Integer,
                Column::Integer,
                Column::TextOrNull,
                Column::Text,
                Column::Text,
                Column::Text,
            ],
        )
    }

    open spec fn of(row: Seq<SqlValue>) -> Self {
        SemanticNeighborhoodRow {
            vector_point_id: row[0]->Text_0,
            path: row[1]->Text_0,
            start_line: size_in(row[2]),
            end_line: size_in(row[3]),
            symbol_name: optional_text_in(row[4]),
            chunk_kind: row[5]->Text_0,
            language: row[6]->Text_0,
            score: None,
            text_hash: row[7]->Text_0,
        }
    }

    fn from_row(row: &Row) -> (r: Result<Self, StoreError>) {
        let kinds = vec![
            Column::Text,
            Column::Text,
            Column::Integer,
            Column::Integer,
            Column::TextOrNull,
            Column::Text,
            Column::Text,
            Column::Text,
        ];
        proof {
            assert(in_order(kinds@) =~= Self::fields());
        }
        match check_row(row, &kinds) {
            Ok(_) => Ok(
                SemanticNeighborhoodRow {
                    vector_point_id: text_at(row, 0),
                    path: text_at(row, 1),
                    start_line: size_at(row, 2),
                    end_line: size_at(row, 3),
                    symbol_name: optional_text_at(row, 4),
                    chunk_kind: text_at(row, 5),
                    language: text_at(row, 6),
                    score: None,
                    text_hash: text_at(row, 7),
                },
            ),
            Err(error) => Err(error),
        }
    }
}

impl FromRow for CarriedRow {
    open spec fn fields() -> Seq<Field> {
        seq![
            Field { at: 1, kind: Column::Text },
            Field { at: 4, kind: Column::Integer },
            Field { at: 0, kind: Column::Text },
            Field { at: 2, kind: Column::Text },
            Field { at: 3, kind: Column::Text },
            Field { at: 5, kind: Column::Text },
            Field { at: 6, kind: Column::Text },
            Field { at: 7, kind: Column::Text },
        ]
    }

    open spec fn of(row: Seq<SqlValue>) -> Self {
        CarriedRow {
            file_id: row[0]->Text_0,
            chunk_id: row[1]->Text_0,
            content_hash: row[2]->Text_0,
            text_hash: row[3]->Text_0,
            embedding_dimension: size_in(row[4]),
            vector_table: row[5]->Text_0,
            vector_point_id: row[6]->Text_0,
            embedded_at: row[7]->Text_0,
        }
    }

    fn from_row(row: &Row) -> (r: Result<Self, StoreError>) {
        let fields = vec![
            Field { at: 1, kind: Column::Text },
            Field { at: 4, kind: Column::Integer },
            Field { at: 0, kind: Column::Text },
            Field { at: 2, kind: Column::Text },
            Field { at: 3, kind: Column::Text },
            Field { at: 5, kind: Column::Text },
            Field { at: 6, kind: Column::Text },
            Field { at: 7, kind: Column::Text },
        ];
        proof {
            assert(fields@ =~= Self::fields());
        }
        match check_fields(row, &fields) {
            Ok(_) => {
                proof {
                    assert(!unfit(row@, fields@[0]));
                    assert(!unfit(row@, fields@[1]));
                    assert(!unfit(row@, fields@[2]));
                    assert(!unfit(row@, fields@[3]));
                    assert(!unfit(row@, fields@[4]));
                    assert(!unfit(row@, fields@[5]));
                    assert(!unfit(row@, fields@[6]));
                    assert(!unfit(row@, fields@[7]));
                }
                Ok(
                    CarriedRow {
                        file_id: text_at(row, 0),
                        chunk_id: text_at(row, 1),
                        content_hash: text_at(row, 2),
                        text_hash: text_at(row, 3),
                        embedding_dimension: size_at(row, 4),
                        vector_table: text_at(row, 5),
                        vector_point_id: text_at(row, 6),
                        embedded_at: text_at(row, 7),
                    },
                )
            },
            Err(error) => Err(error),
        }
    }
}

impl FromRow for UnembeddedRow {
    open spec fn fields() -> Seq<Field> {
        seq![
            Field { at: 1, kind: Column::Text },
            Field { at: 0, kind: Column::Text },
            Field { at: 2, kind: Column::Text },
            Field { at: 3, kind: Column::Text },
            Field { at: 4, kind: Column::Text },
        ]
    }

    open spec fn of(row: Seq<SqlValue>) -> Self {
        UnembeddedRow {
            file_id: row[0]->Text_0,
            chunk_id: row[1]->Text_0,
            path: row[2]->Text_0,
            content_hash: row[3]->Text_0,
            text_hash: row[4]->Text_0,
        }
    }

    fn from_row(row: &Row) -> (r: Result<Self, StoreError>) {
        let fields = vec![
            Field { at: 1, kind: Column::Text },
            Field { at: 0, kind: Column::Text },
            Field { at: 2, kind: Column::Text },
            Field { at: 3, kind: Column::Text },
            Field { at: 4, kind: Column::Text },
        ];
        proof {
            assert(fields@ =~= Self::fields());
        }
        match check_fields(row, &fields) {
            Ok(_) => {
                proof {
                    assert(!unfit(row@, fields@[0]));
                    assert(!unfit(row@, fields@[1]));
                    assert(!unfit(row@, fields@[2]));
                    assert(!unfit(row@, fields@[3]));
                    assert(!unfit(row@, fields@[4]));
                }
                Ok(
                    UnembeddedRow {
                        file_id: text_at(row, 0),
                        chunk_id: text_at(row, 1),
                        path: text_at(row, 2),
                        content_hash: text_at(row, 3),
                        text_hash: text_at(row, 4),
                    },
                )
            },
            Err(error) => Err(error),
        }
    }
}

impl FromRow for IndexRow {
    open spec fn fields() -> Seq<Field> {
        seq![
            Field { at: 1, kind: Column::Text },
            Field { at: 2, kind: Column::Integer },
        ]
    }

    open spec fn of(row: Seq<SqlValue>) -> Self {
        IndexRow {
            name: row[1]->Text_0,
            unique: row[2]->Integer_0,
        }
    }

    fn from_row(row: &Row) -> (r: Result<Self, StoreError>) {
        let fields = vec![
            Field { at: 1, kind: Column::Text },
            Field { at: 2, kind: Column::Integer },
        ];
        proof {
            assert(fields@ =~= Self::fields());
        }
        match check_fields(row, &fields) {
            Ok(_) => {
                proof {
                    assert(!unfit(row@, fields@[0]));
                    assert(!unfit(row@, fields@[1]));
                }
                Ok(
                    IndexRow {
                        name: text_at(row, 1),
                        unique: integer_at(row, 2),
                    },
                )
            },
            Err(error) => Err(error),
        }
    }
}

impl FromRow for TableColumnRow {
    open spec fn fields() -> Seq<Field> {
        seq![
            Field { at: 1, kind: Column::Text },
        ]
    }

    open spec fn of(row: Seq<SqlValue>) -> Self {
        TableColumnRow {
            name: row[1]->Text_0,
        }
    }

    fn from_row(row: &Row) -> (r: Result<Self, StoreError>) {
        let fields = vec![
            Field { at: 1, kind: Column::Text },
        ];
        proof {
            assert(fields@ =~= Self::fields());
        }
        match check_fields(row, &fields) {
            Ok(_) => {
                proof {
                    assert(!unfit(row@, fields@[0]));
                }
                Ok(
                    TableColumnRow {
                        name: text_at(row, 1),
                    },
                )
            },
            Err(error) => Err(error),
        }
    }
}

impl FromRow for IndexColumnRow {
    open spec fn fields() -> Seq<Field> {
        seq![
            Field { at: 2, kind: Column::Text },
        ]
    }

    open spec fn of(row: Seq<SqlValue>) -> Self {
        IndexColumnRow {
            name: row[2]->Text_0,
        }
    }

    fn from_row(row: &Row) -> (r: Result<Self, StoreError>) {
        let fields = vec![
            Field { at: 2, kind: Column::Text },
        ];
        proof {
            assert(fields@ =~= Self::fields());
        }
        match check_fields(row, &fields) {
            Ok(_) => {
                proof {
                    assert(!unfit(row@, fields@[0]));
                }
                Ok(
                    IndexColumnRow {
                        name: text_at(row, 2),
                    },
                )
            },
            Err(error) => Err(error),
        }
    }
}

impl FromRow for CallResolutionEdgeRow {
    open spec fn fields() -> Seq<Field> {
        seq![
            Field { at: 4, kind: Column::Real },
            Field { at: 0, kind: Column::Text },
            Field { at: 1, kind: Column::Text },
            Field { at: 2, kind: Column::Text },
            Field { at: 3, kind: Column::Integer },
            Field { at: 5, kind: Column::Text },
        ]
    }

    open spec fn of(row: Seq<SqlValue>) -> Self {
        CallResolutionEdgeRow {
            path: row[0]->Text_0,
            caller_symbol: row[1]->Text_0,
            callee_text: row[2]->Text_0,
            call_line: size_in(row[3]),
            confidence: real_in(row[4]),
            resolution_status: row[5]->Text_0,
            confidence_bucket: bucket_of(real_in(row[4])),
        }
    }

    fn from_row(row: &Row) -> (r: Result<Self, StoreError>) {
        let fields = vec![
            Field { at: 4, kind: Column::Real },
            Field { at: 0, kind: Column::Text },
            Field { at: 1, kind: Column::Text },
            Field { at: 2, kind: Column::Text },
            Field { at: 3, kind: Column::Integer },
            Field { at: 5, kind: Column::Text },
        ];
        proof {
            assert(fields@ =~= Self::fields());
        }
        match check_fields(row, &fields) {
            Ok(_) => {
                proof {
                    assert(!unfit(row@, fields@[0]));
                    assert(!unfit(row@, fields@[1]));
                    assert(!unfit(row@, fields@[2]));
                    assert(!unfit(row@, fields@[3]));
                    assert(!unfit(row@, fields@[4]));
                    assert(!unfit(row@, fields@[5]));
                }
                Ok(
                    CallResolutionEdgeRow {
                        path: text_at(row, 0),
                        caller_symbol: text_at(row, 1),
                        callee_text: text_at(row, 2),
                        call_line: size_at(row, 3),
                        confidence: real_at(row, 4),
                        resolution_status: text_at(row, 5),
                        confidence_bucket: confidence_bucket(real_at(row, 4)),
                    },
                )
            },
            Err(error) => Err(error),
        }
    }
}

impl FromRow for FileChunkDetailRow {
    open spec fn fields() -> Seq<Field> {
        seq![
            Field { at: 4, kind: Column::Integer },
            Field { at: 5, kind: Column::TextOrNull },
            Field { at: 0, kind: Column::Text },
            Field { at: 1, kind: Column::TextOrNull },
            Field { at: 2, kind: Column::Integer },
            Field { at: 3, kind: Column::Integer },
        ]
    }

    open spec fn of(row: Seq<SqlValue>) -> Self {
        FileChunkDetailRow {
            kind: row[0]->Text_0,
            symbol: optional_text_in(row[1]),
            start_line: size_in(row[2]),
            end_line: size_in(row[3]),
            vector_status: vector_status_of(
                row[4]->Integer_0 != 0,
                optional_text_in(row[5]) is Some,
            ),
            excluded_reason: optional_text_in(row[5]),
        }
    }

    fn from_row(row: &Row) -> (r: Result<Self, StoreError>) {
        let fields = vec![
            Field { at: 4, kind: Column::Integer },
            Field { at: 5, kind: Column::TextOrNull },
            Field { at: 0, kind: Column::Text },
            Field { at: 1, kind: Column::TextOrNull },
            Field { at: 2, kind: Column::Integer },
            Field { at: 3, kind: Column::Integer },
        ];
        proof {
            assert(fields@ =~= Self::fields());
        }
        match check_fields(row, &fields) {
            Ok(_) => {
                proof {
                    assert(!unfit(row@, fields@[0]));
                    assert(!unfit(row@, fields@[1]));
                    assert(!unfit(row@, fields@[2]));
                    assert(!unfit(row@, fields@[3]));
                    assert(!unfit(row@, fields@[4]));
                    assert(!unfit(row@, fields@[5]));
                }
                Ok(
                    FileChunkDetailRow {
                        kind: text_at(row, 0),
                        symbol: optional_text_at(row, 1),
                        start_line: size_at(row, 2),
                        end_line: size_at(row, 3),
                        vector_status: chunk_vector_status(
                            flag_at(row, 4),
                            &optional_text_at(row, 5),
                        ),
                        excluded_reason: optional_text_at(row, 5),
                    },
                )
            },
            Err(error) => Err(error),
        }
    }
}

impl FromRow for FileCoverageBaseRow {
    open spec fn fields() -> Seq<Field> {
        seq![
            Field { at: 3, kind: Column::Integer },
            Field { at: 6, kind: Column::Integer },
            Field { at: 7, kind: Column::Integer },
            Field { at: 8, kind: Column::Integer },
            Field { at: 0, kind: Column::Text },
            Field { at: 1, kind: Column::Text },
            Field { at: 2, kind: Column::Text },
            Field { at: 4, kind: Column::Integer },
            Field { at: 5, kind: Column::Integer },
        ]
    }

    open spec fn of(row: Seq<SqlValue>) -> Self {
        FileCoverageBaseRow {
            file_id: row[0]->Text_0,
            path: row[1]->Text_0,
            language: row[2]->Text_0,
            chunks: size_in(row[3]),
            symbols: size_in(row[4]),
            calls: size_in(row[5]),
            embeddable_chunks: size_in(row[6]),
            vector_backed_chunks: size_in(row[7]),
            excluded_chunks: size_in(row[8]),
            status: coverage_of(
                size_in(row[3]) as nat,
                size_in(row[6]) as nat,
                size_in(row[7]) as nat,
                size_in(row[8]) as nat,
            ),
        }
    }

    fn from_row(row: &Row) -> (r: Result<Self, StoreError>) {
        let fields = vec![
            Field { at: 3, kind: Column::Integer },
            Field { at: 6, kind: Column::Integer },
            Field { at: 7, kind: Column::Integer },
            Field { at: 8, kind: Column::Integer },
            Field { at: 0, kind: Column::Text },
            Field { at: 1, kind: Column::Text },
            Field { at: 2, kind: Column::Text },
            Field { at: 4, kind: Column::Integer },
            Field { at: 5, kind: Column::Integer },
        ];
        proof {
            assert(fields@ =~= Self::fields());
        }
        match check_fields(row, &fields) {
            Ok(_) => {
                proof {
                    assert(!unfit(row@, fields@[0]));
                    assert(!unfit(row@, fields@[1]));
                    assert(!unfit(row@, fields@[2]));
                    assert(!unfit(row@, fields@[3]));
                    assert(!unfit(row@, fields@[4]));
                    assert(!unfit(row@, fields@[5]));
                    assert(!unfit(row@, fields@[6]));
                    assert(!unfit(row@, fields@[7]));
                    assert(!unfit(row@, fields@[8]));
                }
                Ok(
                    FileCoverageBaseRow {
                        file_id: text_at(row, 0),
                        path: text_at(row, 1),
                        language: text_at(row, 2),
                        chunks: size_at(row, 3),
                        symbols: size_at(row, 4),
                        calls: size_at(row, 5),
                        embeddable_chunks: size_at(row, 6),
                        vector_backed_chunks: size_at(row, 7),
                        excluded_chunks: size_at(row, 8),
                        status: file_coverage_status(
                            size_at(row, 3),
                            size_at(row, 6),
                            size_at(row, 7),
                            size_at(row, 8),
                        ),
                    },
                )
            },
            Err(error) => Err(error),
        }
    }
}

} // verus!
