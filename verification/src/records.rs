//! The records of the store.

use vstd::prelude::*;
use crate::layers::{SemanticLayer, SemanticLayerStatus};
use crate::sql::Real;

verus! {

/// A repository.
#[derive(Debug, Clone, PartialEq, Eq)]
pub struct RepositoryRecord {
    pub id: String,
    pub root_path: String,
}

/// A ref of a repository: a branch, a detached head, or the working tree.
#[derive(Debug, Clone, PartialEq, Eq)]
pub struct RepositoryRefRecord {
    pub id: String,
    pub repository_id: String,
    pub ref_kind: String,
    pub ref_name: Option<String>,
    pub ref_identity: String,
    pub head_oid: Option<String>,
    pub is_current: bool,
    pub last_seen_at: Option<String>,
    pub deleted_at: Option<String>,
    pub created_at: Option<String>,
    pub updated_at: Option<String>,
}

/// What a sync of refs did.
#[derive(Debug, Clone, PartialEq, Eq)]
pub struct RepositoryRefSyncSummary {
    pub current: RepositoryRefRecord,
    pub deleted_refs: usize,
}

/// An indexed file.
#[derive(Debug, Clone, PartialEq, Eq)]
pub struct FileRecord {
    pub id: String,
    pub repository_id: String,
    pub path: String,
    pub language: String,
    pub content_hash: String,
    pub index_run_id: String,
    pub parser_version: String,
}

/// The content that a path was last indexed with.
#[derive(Debug, Clone, PartialEq, Eq)]
pub struct FileStateRecord {
    pub path: String,
    pub content_hash: String,
}

/// What an index run did with one file.
#[derive(Debug, Clone, PartialEq, Eq)]
pub struct FileIndexEventRecord {
    pub id: String,
    pub index_run_id: String,
    pub repository_id: String,
    pub repository_ref_id: Option<String>,
    pub path: String,
    pub old_content_hash: Option<String>,
    pub new_content_hash: Option<String>,
    pub action: String,
    pub reason: String,
    pub status: String,
    pub error_summary: Option<String>,
}

/// A piece of a file that can be embedded.
#[derive(Debug, Clone, PartialEq, Eq)]
pub struct ChunkRecord {
    pub id: String,
    pub file_id: String,
    pub symbol_id: Option<String>,
    pub kind: String,
    pub text_hash: String,
    pub start_line: usize,
    pub end_line: usize,
    pub start_byte: usize,
    pub end_byte: usize,
    pub vector_point_id: Option<String>,
    pub excluded_reason: Option<String>,
    pub index_run_id: String,
    pub parser_version: String,
    pub embedding_model: Option<String>,
    pub embedding_dimension: Option<usize>,
    pub embedded_at: Option<String>,
}

/// A symbol defined in a file.
#[derive(Debug, Clone, PartialEq, Eq)]
pub struct SymbolRecord {
    pub id: String,
    pub file_id: String,
    pub parent_symbol_id: Option<String>,
    pub name: String,
    pub qualified_name: String,
    pub kind: String,
    pub signature: Option<String>,
    pub start_line: usize,
    pub end_line: usize,
    pub start_byte: usize,
    pub end_byte: usize,
    pub index_run_id: String,
    pub parser_version: String,
}

/// A call made by a symbol.
#[derive(Debug, Clone, PartialEq, Eq)]
pub struct CallRecord {
    pub id: String,
    pub caller_symbol_id: String,
    pub callee_text: String,
    pub callee_symbol_id: Option<String>,
    pub call_line: usize,
    pub confidence: Real,
    pub resolution_status: String,
    pub index_run_id: String,
    pub parser_version: String,
}

/// A reference made in a file, such as an import.
#[derive(Debug, Clone, PartialEq, Eq)]
pub struct SymbolReferenceRecord {
    pub id: String,
    pub file_id: String,
    pub source_symbol_id: Option<String>,
    pub target_symbol_id: Option<String>,
    pub reference_text: String,
    pub reference_kind: String,
    pub line: usize,
    pub confidence: Real,
    pub resolution_status: String,
    pub index_run_id: String,
    pub parser_version: String,
}

/// A test found in a file.
#[derive(Debug, Clone, PartialEq, Eq)]
pub struct TestRecord {
    pub id: String,
    pub repository_id: String,
    pub file_id: String,
    pub symbol_id: Option<String>,
    pub name: String,
    pub qualified_name: String,
    pub framework: String,
    pub language: String,
    pub path: String,
    pub start_line: usize,
    pub end_line: usize,
    pub start_byte: usize,
    pub end_byte: usize,
    pub index_run_id: String,
    pub parser_version: String,
}

/// A test that a search found.
#[derive(Debug, Clone, PartialEq, Eq)]
pub struct TestSearchRow {
    pub id: String,
    pub name: String,
    pub qualified_name: String,
    pub framework: String,
    pub language: String,
    pub path: String,
    pub start_line: usize,
    pub end_line: usize,
    pub provenance: EvidenceProvenance,
}

/// What is indexed of a repository.
#[derive(Debug, Clone, PartialEq, Eq)]
pub struct RepositoryStatus {
    pub repository_id: String,
    pub current_ref_id: Option<String>,
    pub current_ref_kind: Option<String>,
    pub current_ref_name: Option<String>,
    pub current_head_oid: Option<String>,
    pub files_indexed: usize,
    pub chunks_indexed: usize,
    pub symbols_indexed: usize,
    pub calls_indexed: usize,
    pub last_indexed_at: Option<String>,
    pub embedding_model: Option<String>,
    pub embedding_dimension: Option<usize>,
}

/// The state of the watcher of a repository.
#[derive(Debug, Clone, PartialEq, Eq)]
pub struct WatcherStatusRecord {
    pub repository_id: String,
    pub root_path: String,
    pub mode: String,
    pub owner_kind: String,
    pub owner_pid: Option<i32>,
    pub socket_path: Option<String>,
    pub state: String,
    pub started_at: Option<String>,
    pub updated_at: Option<String>,
    pub heartbeat_at: Option<String>,
    pub files_seen: usize,
    pub queued_events: usize,
    pub last_indexed_path: Option<String>,
    pub last_error: Option<String>,
    pub active_layer: Option<String>,
    pub quality_status: Option<String>,
    pub quality_pending_jobs: usize,
    pub quality_running_jobs: usize,
    pub quality_failed_jobs: usize,
    pub quality_stale_jobs: usize,
}

/// A client of the watcher of a repository.
#[derive(Debug, Clone, PartialEq, Eq)]
pub struct WatcherClientRecord {
    pub repository_id: String,
    pub client_id: String,
    pub client_kind: String,
    pub pid: Option<i32>,
    pub started_at: Option<String>,
    pub heartbeat_at: Option<String>,
    pub last_seen_at: Option<String>,
}

/// One run of the indexer.
#[derive(Debug, Clone, PartialEq, Eq)]
pub struct IndexRunRecord {
    pub id: String,
    pub repository_id: String,
    pub repository_ref_id: Option<String>,
    pub status: String,
    pub embedding_model: String,
    pub embedding_dimension: Option<usize>,
    pub files_seen: usize,
    pub files_indexed: usize,
    pub chunks_embedded: usize,
    pub error_summary: Option<String>,
    pub parser_version: String,
    pub indexer_version: String,
    pub run_kind: String,
}

/// A generation of embeddings of a repository, in its fast and its quality layer.
#[derive(Debug, Clone, PartialEq, Eq)]
pub struct SemanticGenerationRecord {
    pub id: String,
    pub repository_id: String,
    pub fast_model: String,
    pub fast_dimension: usize,
    pub fast_completed_at: String,
    pub quality_model: Option<String>,
    pub quality_dimension: Option<usize>,
    pub quality_status: String,
    pub quality_started_at: Option<String>,
    pub quality_completed_at: Option<String>,
    pub active_layer: String,
    pub files_seen: usize,
    pub embeddable_chunks: usize,
    pub fast_embedded_chunks: usize,
    pub quality_embedded_chunks: usize,
    pub created_at: String,
    pub updated_at: String,
}

/// A chunk that the fast layer holds an embedding of.
#[derive(Debug, Clone, PartialEq, Eq)]
pub struct FastEmbeddingManifestRecord {
    pub file_id: String,
    pub chunk_id: String,
    pub content_hash: String,
    pub text_hash: String,
    pub vector_point_id: String,
}

/// What a fast generation is recorded from.
#[derive(Debug, Clone, Copy)]
pub struct FastSemanticGenerationInput<'a> {
    pub repository_id: &'a str,
    pub repository_ref_id: Option<&'a str>,
    pub fast_model: &'a str,
    pub fast_dimension: usize,
    pub vector_table: &'a str,
    pub upserted_embeddings: &'a Vec<FastEmbeddingManifestRecord>,
    pub files_seen: usize,
    pub completed_at: &'a str,
}

/// Which layer answers queries, and how complete the layers are.
#[derive(Debug, Clone, PartialEq, Eq)]
pub struct SemanticRoutingSummary {
    pub repository_id: String,
    pub generation_id: String,
    pub active_layer: SemanticLayer,
    pub quality_status: SemanticLayerStatus,
    pub embeddable_chunks: usize,
    pub fast_embedded_chunks: usize,
    pub quality_embedded_chunks: usize,
    pub fast: SemanticLayerManifestSummary,
    pub quality: Option<SemanticLayerManifestSummary>,
}

/// How many chunks one layer of a generation holds, by state.
#[derive(Debug, Clone, PartialEq, Eq)]
pub struct SemanticLayerManifestSummary {
    pub semantic_layer: SemanticLayer,
    pub embedding_model: String,
    pub embedding_dimension: usize,
    pub vector_table: String,
    pub current_chunks: usize,
    pub stale_chunks: usize,
    pub blocked_chunks: usize,
    pub failed_chunks: usize,
    pub other_chunks: usize,
    pub total_chunks: usize,
    pub expected_chunks: usize,
    pub is_complete: bool,
}

/// The counts of one layer as the database returns them.
#[derive(Debug, Clone, PartialEq, Eq)]
pub struct SemanticLayerManifestAggregate {
    pub embedding_model: String,
    pub embedding_dimension: i64,
    pub vector_table: String,
    pub current_chunks: i64,
    pub stale_chunks: i64,
    pub blocked_chunks: i64,
    pub failed_chunks: i64,
    pub other_chunks: i64,
    pub total_chunks: i64,
}

/// The embedding of one chunk in one layer of a generation.
#[derive(Debug, Clone, PartialEq, Eq)]
pub struct ChunkEmbeddingRecord {
    pub id: String,
    pub repository_id: String,
    pub file_id: String,
    pub chunk_id: String,
    pub semantic_layer: String,
    pub embedding_model: String,
    pub embedding_dimension: usize,
    pub content_hash: String,
    pub text_hash: String,
    pub vector_table: String,
    pub vector_point_id: String,
    pub generation_id: String,
    pub embedded_at: String,
    pub status: String,
}

/// A job that embeds one chunk in the quality layer.
#[derive(Debug, Clone, PartialEq, Eq)]
pub struct QualityEmbeddingJobRecord {
    pub id: String,
    pub repository_id: String,
    pub generation_id: String,
    pub chunk_id: String,
    pub file_id: String,
    pub path: String,
    pub content_hash: String,
    pub text_hash: String,
    pub status: String,
    pub attempts: usize,
    pub error_summary: Option<String>,
    pub created_at: String,
    pub updated_at: String,
}

/// What queueing of quality jobs did.
#[derive(Debug, Clone, PartialEq, Eq)]
pub struct QualityQueueSummary {
    pub repository_id: String,
    pub generation_id: String,
    pub quality_model: String,
    pub quality_status: SemanticLayerStatus,
    pub queued_jobs: usize,
    pub skipped_stale_jobs: usize,
}

/// What carrying quality embeddings over to a new generation did.
#[derive(Debug, Clone, PartialEq, Eq)]
pub struct QualityCarryForwardSummary {
    pub repository_id: String,
    pub generation_id: String,
    pub quality_model: String,
    pub carried_embeddings: usize,
    pub quality_dimension: Option<usize>,
}

/// A job together with the current state of its chunk.
#[derive(Debug, Clone, PartialEq, Eq)]
pub struct QualityJobSourceRow {
    pub job: QualityEmbeddingJobRecord,
    pub current_file_id: Option<String>,
    pub current_content_hash: Option<String>,
    pub language: Option<String>,
    pub chunk_kind: Option<String>,
    pub current_text_hash: Option<String>,
    pub start_line: Option<usize>,
    pub end_line: Option<usize>,
    pub start_byte: Option<usize>,
    pub end_byte: Option<usize>,
    pub excluded_reason: Option<String>,
    pub symbol_id: Option<String>,
    pub symbol_name: Option<String>,
    pub index_run_id: Option<String>,
    pub parser_version: Option<String>,
}

/// How a quality job ended.
#[derive(Debug, Clone, PartialEq, Eq)]
pub enum QualityJobCompletion {
    Succeeded {
        embedding: Box<ChunkEmbeddingRecord>,
    },
    Failed {
        error_summary: String,
    },
    SkippedStale,
    SkippedExcluded {
        reason: String,
    },
}

/// How far the quality layer of a generation is.
#[derive(Debug, Clone, PartialEq, Eq)]
pub struct QualityGenerationProgress {
    pub repository_id: String,
    pub generation_id: String,
    pub embeddable_chunks: usize,
    pub quality_eligible_chunks: usize,
    pub quality_ineligible_chunks: usize,
    pub quality_embedded_chunks: usize,
    pub pending_jobs: usize,
    pub running_jobs: usize,
    pub succeeded_jobs: usize,
    pub failed_jobs: usize,
    pub skipped_stale_jobs: usize,
    pub skipped_excluded_jobs: usize,
}

/// Why the quality layer is or is not active.
#[derive(Debug, Clone, Copy, PartialEq, Eq, Structural)]
pub enum QualityActivationReason {
    QualityComplete,
    GenerationNotLatest,
    QualityModelMissing,
    QualityDimensionMissing,
    NoEmbeddableChunks,
    QualityCoverageIncomplete,
    QualityJobsPending,
    QualityJobsFailed,
    QualityJobsStale,
    QualityBlocked,
    QualityStale,
}

/// What a refresh of the activation decided.
#[derive(Debug, Clone, PartialEq, Eq)]
pub struct QualityActivationSummary {
    pub repository_id: String,
    pub generation_id: String,
    pub previous_status: SemanticLayerStatus,
    pub quality_status: SemanticLayerStatus,
    pub active_layer: SemanticLayer,
    pub reason: QualityActivationReason,
    pub progress: QualityGenerationProgress,
}

/// The model and dimension of an embedding run.
#[derive(Debug, Clone, PartialEq, Eq)]
pub struct EmbeddingIndexMetadata {
    pub embedding_model: String,
    pub embedding_dimension: Option<usize>,
    pub chunks_embedded: usize,
}

/// What both stores hold of a repository.
#[derive(Debug, Clone, PartialEq, Eq)]
pub struct StorageExplorerSummary {
    pub repository_id: String,
    pub sqlite: SqliteStorageSummary,
    pub vector: VectorStorageProjection,
    pub warnings: Vec<StorageHealthRow>,
}

/// How many rows the relational store holds.
#[derive(Debug, Clone, PartialEq, Eq)]
pub struct SqliteStorageSummary {
    pub repositories: usize,
    pub files: usize,
    pub chunks: usize,
    pub symbols: usize,
    pub calls: usize,
    pub index_runs: usize,
}

/// How many chunks the vector store should hold.
#[derive(Debug, Clone, PartialEq, Eq)]
pub struct VectorStorageProjection {
    pub collection_name: String,
    pub embedding_model: String,
    pub embedding_dimension: Option<usize>,
    pub embeddable_chunks: usize,
    pub vector_backed_chunks: usize,
    pub excluded_chunks: usize,
    pub missing_vector_chunks: usize,
}

/// A point that the vector store should hold.
#[derive(Debug, Clone, PartialEq, Eq)]
pub struct ExpectedVectorPoint {
    pub vector_point_id: String,
    pub chunk_id: String,
    pub path: String,
    pub start_line: usize,
    pub end_line: usize,
    pub text_hash: String,
    pub embedding_model: Option<String>,
    pub embedding_dimension: Option<usize>,
}

/// One finding about the health of the stores.
#[derive(Debug, Clone, PartialEq, Eq)]
pub struct StorageHealthRow {
    pub status: StorageHealthStatus,
    pub label: String,
    pub detail: String,
}

/// How serious a finding is.
#[derive(Debug, Clone, Copy, PartialEq, Eq, Structural)]
pub enum StorageHealthStatus {
    Healthy,
    Warning,
    Error,
}

/// How far the files of a repository are covered.
#[derive(Debug, Clone, PartialEq, Eq)]
pub struct IndexCoverageSummary {
    pub repository_id: String,
    pub files: Vec<FileCoverageRow>,
}

/// How far one file is covered.
#[derive(Debug, Clone, PartialEq, Eq)]
pub struct FileCoverageRow {
    pub path: String,
    pub language: String,
    pub chunks: usize,
    pub symbols: usize,
    pub calls: usize,
    pub embeddable_chunks: usize,
    pub vector_backed_chunks: usize,
    pub excluded_chunks: usize,
    pub status: FileCoverageStatus,
    pub detail: FileDetailSummary,
}

/// The coverage of a file in one word.
#[derive(Debug, Clone, Copy, PartialEq, Eq, Structural)]
pub enum FileCoverageStatus {
    Covered,
    MetadataOnly,
    Excluded,
    MissingVector,
}

/// The chunks, symbols and calls of a file.
#[derive(Debug, Clone, PartialEq, Eq)]
pub struct FileDetailSummary {
    pub chunks: Vec<FileChunkDetailRow>,
    pub symbols: Vec<FileSymbolDetailRow>,
    pub calls: Vec<FileCallDetailRow>,
}

/// A chunk of a file, as shown in the details.
#[derive(Debug, Clone, PartialEq, Eq)]
pub struct FileChunkDetailRow {
    pub kind: String,
    pub symbol: Option<String>,
    pub start_line: usize,
    pub end_line: usize,
    pub vector_status: ChunkVectorStatus,
    pub excluded_reason: Option<String>,
}

/// Whether a chunk has a vector.
#[derive(Debug, Clone, Copy, PartialEq, Eq, Structural)]
pub enum ChunkVectorStatus {
    VectorBacked,
    MissingVector,
    Excluded,
}

/// A symbol of a file, as shown in the details.
#[derive(Debug, Clone, PartialEq, Eq)]
pub struct FileSymbolDetailRow {
    pub kind: String,
    pub qualified_name: String,
    pub parent_symbol_id: Option<String>,
    pub start_line: usize,
    pub end_line: usize,
}

/// A call in a file, as shown in the details.
#[derive(Debug, Clone, PartialEq, Eq)]
pub struct FileCallDetailRow {
    pub caller_symbol: String,
    pub callee_text: String,
    pub call_line: usize,
    pub confidence: Real,
    pub resolution_status: String,
}

/// The symbols of a repository as an outline.
#[derive(Debug, Clone, PartialEq, Eq)]
pub struct SymbolOutlineSummary {
    pub repository_id: String,
    pub symbols: Vec<SymbolOutlineRow>,
}

/// One symbol of the outline.
#[derive(Debug, Clone, PartialEq, Eq)]
pub struct SymbolOutlineRow {
    pub id: String,
    pub parent_symbol_id: Option<String>,
    pub depth: usize,
    pub child_count: usize,
    pub kind: String,
    pub qualified_name: String,
    pub name: String,
    pub path: String,
    pub start_line: usize,
    pub end_line: usize,
}

/// The calls of a repository by how they were resolved.
#[derive(Debug, Clone, PartialEq, Eq)]
pub struct CallResolutionSummary {
    pub repository_id: String,
    pub buckets: Vec<CallResolutionBucket>,
}

/// The calls with one resolution status and one level of confidence.
#[derive(Debug, Clone, PartialEq, Eq)]
pub struct CallResolutionBucket {
    pub resolution_status: String,
    pub confidence_bucket: ConfidenceBucket,
    pub call_count: usize,
    pub rows: Vec<CallResolutionEdgeRow>,
}

/// One call with its resolution.
#[derive(Debug, Clone, PartialEq, Eq)]
pub struct CallResolutionEdgeRow {
    pub path: String,
    pub caller_symbol: String,
    pub callee_text: String,
    pub call_line: usize,
    pub confidence: Real,
    pub resolution_status: String,
    pub confidence_bucket: ConfidenceBucket,
}

/// How far the chunks of a repository are embedded.
#[derive(Debug, Clone, PartialEq, Eq)]
pub struct EmbeddingCoverageSummary {
    pub repository_id: String,
    pub collection_name: String,
    pub configured_embedding_model: String,
    pub embedding_model: String,
    pub embedding_dimension: Option<usize>,
    pub total_chunks: usize,
    pub embeddable_chunks: usize,
    pub vector_backed_chunks: usize,
    pub missing_vector_chunks: usize,
    pub excluded_chunks: usize,
    pub latest_chunks_embedded: Option<usize>,
    pub exclusion_reasons: Vec<EmbeddingExclusionRow>,
    pub health: Vec<StorageHealthRow>,
}

/// How many chunks are excluded for one reason.
#[derive(Debug, Clone, PartialEq, Eq)]
pub struct EmbeddingExclusionRow {
    pub reason: String,
    pub chunks: usize,
}

/// The index runs of a repository.
#[derive(Debug, Clone, PartialEq, Eq)]
pub struct IndexRunsTimelineSummary {
    pub repository_id: String,
    pub runs: Vec<IndexRunTimelineRow>,
}

/// One index run of the timeline.
#[derive(Debug, Clone, PartialEq, Eq)]
pub struct IndexRunTimelineRow {
    pub id: String,
    pub started_at: String,
    pub finished_at: Option<String>,
    pub status: String,
    pub embedding_model: String,
    pub embedding_dimension: Option<usize>,
    pub files_seen: usize,
    pub files_indexed: usize,
    pub chunks_embedded: usize,
    pub error_summary: Option<String>,
    pub run_kind: String,
}

/// The chunks that have a vector.
#[derive(Debug, Clone, PartialEq, Eq)]
pub struct SemanticNeighborhoodSummary {
    pub repository_id: String,
    pub collection_name: String,
    pub embedding_model: String,
    pub rows: Vec<SemanticNeighborhoodRow>,
    pub health: Vec<StorageHealthRow>,
}

/// One chunk that has a vector.
#[derive(Debug, Clone, PartialEq, Eq)]
pub struct SemanticNeighborhoodRow {
    pub vector_point_id: String,
    pub path: String,
    pub start_line: usize,
    pub end_line: usize,
    pub symbol_name: Option<String>,
    pub chunk_kind: String,
    pub language: String,
    pub score: Option<Real>,
    pub text_hash: String,
}

/// Whether the two stores agree.
#[derive(Debug, Clone, PartialEq, Eq)]
pub struct CrossStoreHealthSummary {
    pub repository_id: String,
    pub collection_name: String,
    pub rows: Vec<StorageHealthRow>,
}

/// A level of confidence, the highest first.
#[derive(Debug, Clone, Copy, PartialEq, Eq, PartialOrd, Ord, Structural)]
pub enum ConfidenceBucket {
    High,
    Medium,
    Low,
}

/// A symbol that a search found.
#[derive(Debug, Clone, PartialEq, Eq)]
pub struct SymbolSearchRow {
    pub id: String,
    pub name: String,
    pub qualified_name: String,
    pub kind: String,
    pub path: String,
    pub start_line: usize,
    pub end_line: usize,
    pub provenance: EvidenceProvenance,
}

/// A call that a search found.
#[derive(Debug, Clone, PartialEq, Eq)]
pub struct CallSearchRow {
    pub callee_text: String,
    pub call_line: usize,
    pub confidence: Real,
    pub resolution_status: String,
    pub symbol_id: Option<String>,
    pub symbol_name: Option<String>,
    pub symbol_qualified_name: Option<String>,
    pub symbol_kind: Option<String>,
    pub path: Option<String>,
    pub start_line: Option<usize>,
    pub end_line: Option<usize>,
    pub provenance: EvidenceProvenance,
}

/// A chain of calls.
#[derive(Debug, Clone, PartialEq, Eq)]
pub struct CallPath {
    pub hops: usize,
    pub min_confidence: Real,
    pub terminal_resolution_status: String,
    pub edges: Vec<CallPathEdge>,
}

/// One call of a chain.
#[derive(Debug, Clone, PartialEq, Eq)]
pub struct CallPathEdge {
    pub call_id: String,
    pub caller_symbol_id: String,
    pub caller_symbol_name: String,
    pub caller_symbol_qualified_name: String,
    pub caller_symbol_kind: String,
    pub caller_path: String,
    pub caller_start_line: usize,
    pub caller_end_line: usize,
    pub callee_text: String,
    pub callee_symbol_id: Option<String>,
    pub callee_symbol_name: Option<String>,
    pub callee_symbol_qualified_name: Option<String>,
    pub callee_symbol_kind: Option<String>,
    pub callee_path: Option<String>,
    pub callee_start_line: Option<usize>,
    pub callee_end_line: Option<usize>,
    pub call_line: usize,
    pub confidence: Real,
    pub resolution_status: String,
    pub provenance: EvidenceProvenance,
}

/// A symbol with its callers, callees and files.
#[derive(Debug, Clone, PartialEq, Eq)]
pub struct ContextPack {
    pub format: String,
    pub repository_id: String,
    pub query: String,
    pub focus_symbols: Vec<SymbolSearchRow>,
    pub direct_callers: Vec<CallSearchRow>,
    pub direct_callees: Vec<CallSearchRow>,
    pub files: Vec<String>,
    pub limits: ContextPackLimits,
    pub notes: Vec<String>,
}

/// How many rows a context pack holds at most.
#[derive(Debug, Clone, PartialEq, Eq)]
pub struct ContextPackLimits {
    pub max_symbols: usize,
    pub max_callers: usize,
    pub max_callees: usize,
}

/// Where a piece of evidence comes from.
#[derive(Debug, Clone, PartialEq, Eq)]
pub struct EvidenceProvenance {
    pub content_hash: Option<String>,
    pub index_run_id: Option<String>,
    pub parser_version: Option<String>,
    pub indexed_at: Option<String>,
    pub embedding_model: Option<String>,
    pub embedding_dimension: Option<usize>,
    pub embedded_at: Option<String>,
}

/// The content that a file was indexed with.
#[derive(Debug, Clone, PartialEq, Eq)]
pub struct FileFreshnessSnapshot {
    pub path: String,
    pub content_hash: String,
    pub indexed_at: String,
    pub index_run_id: Option<String>,
    pub parser_version: Option<String>,
}

/// Whether evidence still matches the file.
#[derive(Debug, Clone, Copy, PartialEq, Eq, Structural)]
pub enum EvidenceFreshness {
    Fresh,
    Stale,
    Deleted,
    Missing,
    Unknown,
}

} // verus!
