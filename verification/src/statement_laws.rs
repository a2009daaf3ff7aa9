//! What the statements of the store ask for: the columns that their values are compared with or
//! stored in, and their other conditions, order and limits.

use vstd::prelude::*;
use crate::bindings::{binds, lemma_binds, lemma_places, lemma_says, says, stores};
use crate::facts::{
    count_refs_to_file_spec, delete_file_calls_spec, delete_file_chunks_spec,
    delete_file_references_spec, delete_file_spec, delete_file_symbols_spec, delete_file_tests_spec,
    delete_ref_file_spec, files_at_path_spec, insert_call_spec, insert_chunk_spec, insert_file_spec,
    insert_symbol_reference_spec, insert_symbol_spec, insert_test_spec, other_files_at_path_spec,
};
use crate::generations::{
    chunk_embeddings_for_generation_spec, expected_vector_points_for_generation_layer_spec,
    fast_embeddings_for_ref_spec, fast_embeddings_spec, latest_semantic_generation_for_ref_spec,
    latest_semantic_generation_spec, link_semantic_generation_to_ref_spec,
    semantic_layer_manifest_aggregate_spec, upsert_embedding_spec, upsert_generation_spec,
    vector_point_ids_at_path_spec, vector_point_ids_referenced_by_ref_files_spec,
};
use crate::layers::{RepositoryRefKind, RepositoryRefSnapshot, SemanticLayer};
use crate::quality::{
    carried_embeddings_spec, claim_quality_job_spec, current_quality_embeddings_spec,
    embeddable_chunks_spec, failed_quality_jobs_spec, latest_quality_generation_error_spec,
    latest_semantic_generation_id_spec, mark_quality_job_excluded_spec,
    mark_quality_job_failed_spec, mark_quality_job_stale_spec, mark_quality_job_succeeded_spec,
    mark_superseded_quality_jobs_stale_spec, open_quality_jobs_spec, pending_quality_jobs_spec,
    quality_embedding_jobs_for_fast_generation_spec, quality_job_counts_spec,
    quality_job_source_row_spec, quality_job_spec, quality_jobs_by_status_spec,
    requeue_current_terminal_quality_embedding_jobs_spec, semantic_generation_spec,
    update_activation_spec, update_failed_spec, update_failed_with_dimension_spec,
    update_progress_spec, update_with_dimension_spec, upsert_job_spec,
};
use crate::records::{
    CallRecord, ChunkEmbeddingRecord, ChunkRecord, FileIndexEventRecord, FileRecord, IndexRunRecord,
    QualityEmbeddingJobRecord, RepositoryRecord, RepositoryRefRecord, SemanticGenerationRecord,
    SymbolRecord, SymbolReferenceRecord, TestRecord, WatcherClientRecord, WatcherStatusRecord,
};
use crate::repository::{
    clear_current_ref_spec, current_repository_ref_spec, delete_ref_spec, file_index_states_spec,
    file_paths_spec, file_unchanged_spec, identity_of, insert_file_index_event_spec,
    known_branches_spec, latest_file_state_for_path_spec, link_file_to_ref_spec,
    ref_file_index_states_spec, ref_file_paths_spec, upsert_branch_spec, upsert_current_spec,
    upsert_repository_ref_spec, upsert_repository_spec,
};
use crate::runs::{
    finish_index_run_spec, index_runs_timeline_spec, latest_embedding_run_for_model_spec,
    latest_embedding_run_spec, start_index_run_spec, successful_embedding_dimensions_spec,
};
use crate::search::{
    all_symbol_refs_for_ref_spec, all_symbol_refs_spec, call_path_edges_for_ref_spec,
    call_path_edges_spec, callees_for_ref_spec, callees_spec, callers_for_ref_spec, callers_spec,
    calls_at_location_spec, file_provenance_spec, find_symbols_for_ref_spec, find_symbols_spec,
    likely_tests_for_symbol_spec, repository_has_ref_file_manifests_spec,
    resolve_symbol_refs_for_ref_spec, resolve_symbol_refs_spec, symbols_at_location_spec,
    tests_matching_name_spec,
};
use crate::sql::{count, flag, optional, optional_count, optional_small, text, values, Value};
use crate::summaries::{
    call_resolution_spec, chunk_projection_spec, count_calls_spec, count_chunks_spec,
    count_files_spec, count_index_runs_spec, count_repositories_spec, count_symbols_spec,
    embedding_exclusion_reasons_spec, file_call_details_spec, file_chunk_details_spec,
    file_symbol_details_spec, index_coverage_spec, indexed_file_freshness_snapshots_for_ref_spec,
    indexed_file_freshness_snapshots_spec, last_indexed_at_spec, rust_symbols_for_repository_spec,
    semantic_neighborhood_spec, symbol_outline_spec,
};
use crate::text::{decimal_digits, optional_text};
use crate::vector::{
    delete_point_payload_spec, scroll_points_spec, table_listed_spec, upsert_point_payload_spec,
    VectorPoint,
};
use crate::watchers::{
    heartbeat_watcher_client_spec, known_or_spec, mark_watcher_failed_spec,
    mark_watcher_stopped_spec, prune_stale_watcher_clients_spec, remove_watcher_client_spec,
    upsert_watcher_client_spec, upsert_watcher_status_spec, watcher_clients_spec,
    watcher_status_spec,
};

verus! {

/// What `insert_file` asks for, by its text and the values that are bound.
pub proof fn law_insert_file_says(
    file: FileRecord,
    indexed_at: Seq<char>,
)
    ensures
        ({
            let s = insert_file_spec(file, indexed_at);
            &&& says(s.sql, "INSERT INTO files"@)
            &&& says(s.sql, "INSERT INTO files (
      id, repository_id, path, language, content_hash, indexed_at,
      index_run_id, parser_version
    )
    VALUES (?1, ?2, ?3, ?4, ?5, ?6, ?7, ?8)"@)
            &&& says(s.sql, "ON CONFLICT(id)"@)
            &&& says(s.sql, "UPDATE SET"@)
            &&& ({
                let columns = seq![
                    "id"@,
                    "repository_id"@,
                    "path"@,
                    "language"@,
                    "content_hash"@,
                    "indexed_at"@,
                    "index_run_id"@,
                    "parser_version"@,
                ];
                let stored = seq![
                    s.params[0],
                    s.params[1],
                    s.params[2],
                    s.params[3],
                    s.params[4],
                    s.params[5],
                    s.params[6],
                    s.params[7],
                ];
                &&& stores(columns, stored, "id"@, text(file.id@))
                &&& stores(columns, stored, "repository_id"@, text(file.repository_id@))
                &&& stores(columns, stored, "path"@, text(file.path@))
                &&& stores(columns, stored, "language"@, text(file.language@))
                &&& stores(columns, stored, "content_hash"@, text(file.content_hash@))
                &&& stores(columns, stored, "indexed_at"@, text(indexed_at))
                &&& stores(columns, stored, "index_run_id"@, text(file.index_run_id@))
                &&& stores(columns, stored, "parser_version"@, text(file.parser_version@))
            })
        }),
{
    let s = insert_file_spec(file, indexed_at);
    let columns = seq![
        "id"@,
        "repository_id"@,
        "path"@,
        "language"@,
        "content_hash"@,
        "indexed_at"@,
        "index_run_id"@,
        "parser_version"@,
    ];
    let stored = seq![
        s.params[0],
        s.params[1],
        s.params[2],
        s.params[3],
        s.params[4],
        s.params[5],
        s.params[6],
        s.params[7],
    ];
    assert(columns[0] == "id"@ && stored[0] == text(file.id@));
    assert(columns[1] == "repository_id"@ && stored[1] == text(file.repository_id@));
    assert(columns[2] == "path"@ && stored[2] == text(file.path@));
    assert(columns[3] == "language"@ && stored[3] == text(file.language@));
    assert(columns[4] == "content_hash"@ && stored[4] == text(file.content_hash@));
    assert(columns[5] == "indexed_at"@ && stored[5] == text(indexed_at));
    assert(columns[6] == "index_run_id"@ && stored[6] == text(file.index_run_id@));
    assert(columns[7] == "parser_version"@ && stored[7] == text(file.parser_version@));
    reveal_strlit("INSERT INTO files (
      id, repository_id, path, language, content_hash, indexed_at,
      index_run_id, parser_version
    )
    VALUES (?1, ?2, ?3, ?4, ?5, ?6, ?7, ?8)
               ON CONFLICT(id) DO UPDATE SET
                   repository_id = excluded.repository_id,
                   path = excluded.path,
       language = excluded.language,
       content_hash = excluded.content_hash,
       indexed_at = excluded.indexed_at,
       index_run_id = excluded.index_run_id,
       parser_version = excluded.parser_version");
    reveal_strlit("INSERT INTO files");
    assert(s.sql.subrange(0, 17) =~= "INSERT INTO files"@);
    lemma_says(s.sql, "INSERT INTO files"@, 0);
    reveal_strlit("INSERT INTO files (
      id, repository_id, path, language, content_hash, indexed_at,
      index_run_id, parser_version
    )
    VALUES (?1, ?2, ?3, ?4, ?5, ?6, ?7, ?8)");
    assert(s.sql.subrange(0, 171) =~= "INSERT INTO files (
      id, repository_id, path, language, content_hash, indexed_at,
      index_run_id, parser_version
    )
    VALUES (?1, ?2, ?3, ?4, ?5, ?6, ?7, ?8)"@);
    lemma_says(s.sql, "INSERT INTO files (
      id, repository_id, path, language, content_hash, indexed_at,
      index_run_id, parser_version
    )
    VALUES (?1, ?2, ?3, ?4, ?5, ?6, ?7, ?8)"@, 0);
    reveal_strlit("ON CONFLICT(id)");
    assert(s.sql.subrange(187, 202) =~= "ON CONFLICT(id)"@);
    lemma_says(s.sql, "ON CONFLICT(id)"@, 187);
    reveal_strlit("UPDATE SET");
    assert(s.sql.subrange(206, 216) =~= "UPDATE SET"@);
    lemma_says(s.sql, "UPDATE SET"@, 206);
}

/// What `other_files_at_path` asks for, by its text and the values that are bound.
pub proof fn law_other_files_at_path_says(
    file: FileRecord,
)
    ensures
        ({
            let s = other_files_at_path_spec(file);
            &&& binds(s, "repository_id = "@, text(file.repository_id@))
            &&& binds(s, "path = "@, text(file.path@))
            &&& binds(s, "id <> "@, text(file.id@))
            &&& says(s.sql, "ORDER BY indexed_at, id"@)
        }),
{
    let s = other_files_at_path_spec(file);
    reveal_strlit("SELECT id
     FROM files
    WHERE repository_id = ?1
      AND path = ?2
      AND id <> ?3
    ORDER BY indexed_at, id");
    reveal_strlit("?");
    lemma_places();
    reveal_strlit("repository_id = ");
    assert(s.sql.subrange(36, 54) =~= "repository_id = "@ + "?"@ + decimal_digits(1));
    lemma_binds(s, "repository_id = "@, 1, 36);
    reveal_strlit("path = ");
    assert(s.sql.subrange(65, 74) =~= "path = "@ + "?"@ + decimal_digits(2));
    lemma_binds(s, "path = "@, 2, 65);
    reveal_strlit("id <> ");
    assert(s.sql.subrange(85, 93) =~= "id <> "@ + "?"@ + decimal_digits(3));
    lemma_binds(s, "id <> "@, 3, 85);
    reveal_strlit("ORDER BY indexed_at, id");
    assert(s.sql.subrange(98, 121) =~= "ORDER BY indexed_at, id"@);
    lemma_says(s.sql, "ORDER BY indexed_at, id"@, 98);
}

/// What `delete_file_calls` asks for, by its text and the values that are bound.
pub proof fn law_delete_file_calls_says(
    file_id: Seq<char>,
)
    ensures
        ({
            let s = delete_file_calls_spec(file_id);
            &&& says(s.sql, "DELETE FROM calls"@)
            &&& binds(s, "file_id = "@, text(file_id))
        }),
{
    let s = delete_file_calls_spec(file_id);
    reveal_strlit("DELETE FROM calls
    WHERE caller_symbol_id IN (SELECT id FROM symbols WHERE file_id = ?1)");
    reveal_strlit("?");
    lemma_places();
    reveal_strlit("DELETE FROM calls");
    assert(s.sql.subrange(0, 17) =~= "DELETE FROM calls"@);
    lemma_says(s.sql, "DELETE FROM calls"@, 0);
    reveal_strlit("file_id = ");
    assert(s.sql.subrange(78, 90) =~= "file_id = "@ + "?"@ + decimal_digits(1));
    lemma_binds(s, "file_id = "@, 1, 78);
}

/// What `delete_file_references` asks for, by its text and the values that are bound.
pub proof fn law_delete_file_references_says(
    file_id: Seq<char>,
)
    ensures
        ({
            let s = delete_file_references_spec(file_id);
            &&& says(s.sql, "DELETE FROM symbol_references"@)
            &&& binds(s, "file_id = "@, text(file_id))
        }),
{
    let s = delete_file_references_spec(file_id);
    reveal_strlit("DELETE FROM symbol_references
    WHERE file_id = ?1");
    reveal_strlit("?");
    lemma_places();
    reveal_strlit("DELETE FROM symbol_references");
    assert(s.sql.subrange(0, 29) =~= "DELETE FROM symbol_references"@);
    lemma_says(s.sql, "DELETE FROM symbol_references"@, 0);
    reveal_strlit("file_id = ");
    assert(s.sql.subrange(40, 52) =~= "file_id = "@ + "?"@ + decimal_digits(1));
    lemma_binds(s, "file_id = "@, 1, 40);
}

/// What `delete_file_tests` asks for, by its text and the values that are bound.
pub proof fn law_delete_file_tests_says(
    file_id: Seq<char>,
)
    ensures
        ({
            let s = delete_file_tests_spec(file_id);
            &&& says(s.sql, "DELETE FROM tests"@)
            &&& binds(s, "file_id = "@, text(file_id))
        }),
{
    let s = delete_file_tests_spec(file_id);
    reveal_strlit("DELETE FROM tests WHERE file_id = ?1");
    reveal_strlit("?");
    lemma_places();
    reveal_strlit("DELETE FROM tests");
    assert(s.sql.subrange(0, 17) =~= "DELETE FROM tests"@);
    lemma_says(s.sql, "DELETE FROM tests"@, 0);
    reveal_strlit("file_id = ");
    assert(s.sql.subrange(24, 36) =~= "file_id = "@ + "?"@ + decimal_digits(1));
    lemma_binds(s, "file_id = "@, 1, 24);
}

/// What `delete_file_chunks` asks for, by its text and the values that are bound.
pub proof fn law_delete_file_chunks_says(
    file_id: Seq<char>,
)
    ensures
        ({
            let s = delete_file_chunks_spec(file_id);
            &&& says(s.sql, "DELETE FROM chunks"@)
            &&& binds(s, "file_id = "@, text(file_id))
        }),
{
    let s = delete_file_chunks_spec(file_id);
    reveal_strlit("DELETE FROM chunks WHERE file_id = ?1");
    reveal_strlit("?");
    lemma_places();
    reveal_strlit("DELETE FROM chunks");
    assert(s.sql.subrange(0, 18) =~= "DELETE FROM chunks"@);
    lemma_says(s.sql, "DELETE FROM chunks"@, 0);
    reveal_strlit("file_id = ");
    assert(s.sql.subrange(25, 37) =~= "file_id = "@ + "?"@ + decimal_digits(1));
    lemma_binds(s, "file_id = "@, 1, 25);
}

/// What `delete_file_symbols` asks for, by its text and the values that are bound.
pub proof fn law_delete_file_symbols_says(
    file_id: Seq<char>,
)
    ensures
        ({
            let s = delete_file_symbols_spec(file_id);
            &&& says(s.sql, "DELETE FROM symbols"@)
            &&& binds(s, "file_id = "@, text(file_id))
        }),
{
    let s = delete_file_symbols_spec(file_id);
    reveal_strlit("DELETE FROM symbols WHERE file_id = ?1");
    reveal_strlit("?");
    lemma_places();
    reveal_strlit("DELETE FROM symbols");
    assert(s.sql.subrange(0, 19) =~= "DELETE FROM symbols"@);
    lemma_says(s.sql, "DELETE FROM symbols"@, 0);
    reveal_strlit("file_id = ");
    assert(s.sql.subrange(26, 38) =~= "file_id = "@ + "?"@ + decimal_digits(1));
    lemma_binds(s, "file_id = "@, 1, 26);
}

/// What `count_refs_to_file` asks for, by its text and the values that are bound.
pub proof fn law_count_refs_to_file_says(
    file_id: Seq<char>,
)
    ensures
        ({
            let s = count_refs_to_file_spec(file_id);
            &&& says(s.sql, "SELECT COUNT(*)"@)
            &&& binds(s, "file_id = "@, text(file_id))
        }),
{
    let s = count_refs_to_file_spec(file_id);
    reveal_strlit("SELECT COUNT(*) FROM ref_files WHERE file_id = ?1");
    reveal_strlit("?");
    lemma_places();
    reveal_strlit("SELECT COUNT(*)");
    assert(s.sql.subrange(0, 15) =~= "SELECT COUNT(*)"@);
    lemma_says(s.sql, "SELECT COUNT(*)"@, 0);
    reveal_strlit("file_id = ");
    assert(s.sql.subrange(37, 49) =~= "file_id = "@ + "?"@ + decimal_digits(1));
    lemma_binds(s, "file_id = "@, 1, 37);
}

/// What `delete_file` asks for, by its text and the values that are bound.
pub proof fn law_delete_file_says(
    file_id: Seq<char>,
)
    ensures
        ({
            let s = delete_file_spec(file_id);
            &&& says(s.sql, "DELETE FROM files"@)
            &&& binds(s, "id = "@, text(file_id))
        }),
{
    let s = delete_file_spec(file_id);
    reveal_strlit("DELETE FROM files WHERE id = ?1");
    reveal_strlit("?");
    lemma_places();
    reveal_strlit("DELETE FROM files");
    assert(s.sql.subrange(0, 17) =~= "DELETE FROM files"@);
    lemma_says(s.sql, "DELETE FROM files"@, 0);
    reveal_strlit("id = ");
    assert(s.sql.subrange(24, 31) =~= "id = "@ + "?"@ + decimal_digits(1));
    lemma_binds(s, "id = "@, 1, 24);
}

/// What `insert_symbol` asks for, by its text and the values that are bound.
pub proof fn law_insert_symbol_says(
    symbol: SymbolRecord,
)
    ensures
        ({
            let s = insert_symbol_spec(symbol);
            &&& says(s.sql, "INSERT INTO symbols"@)
            &&& says(s.sql, "INSERT INTO symbols (
      id, file_id, parent_symbol_id, name, qualified_name, kind, signature,
      start_line, end_line, start_byte, end_byte, index_run_id, parser_version
    )
    VALUES (?1, ?2, ?3, ?4, ?5, ?6, ?7, ?8, ?9, ?10, ?11, ?12, ?13)"@)
            &&& ({
                let columns = seq![
                    "id"@,
                    "file_id"@,
                    "parent_symbol_id"@,
                    "name"@,
                    "qualified_name"@,
                    "kind"@,
                    "signature"@,
                    "start_line"@,
                    "end_line"@,
                    "start_byte"@,
                    "end_byte"@,
                    "index_run_id"@,
                    "parser_version"@,
                ];
                let stored = seq![
                    s.params[0],
                    s.params[1],
                    s.params[2],
                    s.params[3],
                    s.params[4],
                    s.params[5],
                    s.params[6],
                    s.params[7],
                    s.params[8],
                    s.params[9],
                    s.params[10],
                    s.params[11],
                    s.params[12],
                ];
                &&& stores(columns, stored, "id"@, text(symbol.id@))
                &&& stores(columns, stored, "file_id"@, text(symbol.file_id@))
                &&& stores(
                    columns,
                    stored,
                    "parent_symbol_id"@,
                    optional(optional_text(symbol.parent_symbol_id)),
                )
                &&& stores(columns, stored, "name"@, text(symbol.name@))
                &&& stores(columns, stored, "qualified_name"@, text(symbol.qualified_name@))
                &&& stores(columns, stored, "kind"@, text(symbol.kind@))
                &&& stores(columns, stored, "signature"@, optional(optional_text(symbol.signature)))
                &&& stores(columns, stored, "start_line"@, count(symbol.start_line))
                &&& stores(columns, stored, "end_line"@, count(symbol.end_line))
                &&& stores(columns, stored, "start_byte"@, count(symbol.start_byte))
                &&& stores(columns, stored, "end_byte"@, count(symbol.end_byte))
                &&& stores(columns, stored, "index_run_id"@, text(symbol.index_run_id@))
                &&& stores(columns, stored, "parser_version"@, text(symbol.parser_version@))
            })
        }),
{
    let s = insert_symbol_spec(symbol);
    let columns = seq![
        "id"@,
        "file_id"@,
        "parent_symbol_id"@,
        "name"@,
        "qualified_name"@,
        "kind"@,
        "signature"@,
        "start_line"@,
        "end_line"@,
        "start_byte"@,
        "end_byte"@,
        "index_run_id"@,
        "parser_version"@,
    ];
    let stored = seq![
        s.params[0],
        s.params[1],
        s.params[2],
        s.params[3],
        s.params[4],
        s.params[5],
        s.params[6],
        s.params[7],
        s.params[8],
        s.params[9],
        s.params[10],
        s.params[11],
        s.params[12],
    ];
    assert(columns[0] == "id"@ && stored[0] == text(symbol.id@));
    assert(columns[1] == "file_id"@ && stored[1] == text(symbol.file_id@));
    assert(columns[2] == "parent_symbol_id"@ && stored[2] == optional(optional_text(symbol.parent_symbol_id)));
    assert(columns[3] == "name"@ && stored[3] == text(symbol.name@));
    assert(columns[4] == "qualified_name"@ && stored[4] == text(symbol.qualified_name@));
    assert(columns[5] == "kind"@ && stored[5] == text(symbol.kind@));
    assert(columns[6] == "signature"@ && stored[6] == optional(optional_text(symbol.signature)));
    assert(columns[7] == "start_line"@ && stored[7] == count(symbol.start_line));
    assert(columns[8] == "end_line"@ && stored[8] == count(symbol.end_line));
    assert(columns[9] == "start_byte"@ && stored[9] == count(symbol.start_byte));
    assert(columns[10] == "end_byte"@ && stored[10] == count(symbol.end_byte));
    assert(columns[11] == "index_run_id"@ && stored[11] == text(symbol.index_run_id@));
    assert(columns[12] == "parser_version"@ && stored[12] == text(symbol.parser_version@));
    reveal_strlit("INSERT INTO symbols (
      id, file_id, parent_symbol_id, name, qualified_name, kind, signature,
      start_line, end_line, start_byte, end_byte, index_run_id, parser_version
    )
    VALUES (?1, ?2, ?3, ?4, ?5, ?6, ?7, ?8, ?9, ?10, ?11, ?12, ?13)");
    reveal_strlit("INSERT INTO symbols");
    assert(s.sql.subrange(0, 19) =~= "INSERT INTO symbols"@);
    lemma_says(s.sql, "INSERT INTO symbols"@, 0);
    assert(s.sql.subrange(0, 250) =~= "INSERT INTO symbols (
      id, file_id, parent_symbol_id, name, qualified_name, kind, signature,
      start_line, end_line, start_byte, end_byte, index_run_id, parser_version
    )
    VALUES (?1, ?2, ?3, ?4, ?5, ?6, ?7, ?8, ?9, ?10, ?11, ?12, ?13)"@);
    lemma_says(s.sql, "INSERT INTO symbols (
      id, file_id, parent_symbol_id, name, qualified_name, kind, signature,
      start_line, end_line, start_byte, end_byte, index_run_id, parser_version
    )
    VALUES (?1, ?2, ?3, ?4, ?5, ?6, ?7, ?8, ?9, ?10, ?11, ?12, ?13)"@, 0);
}

/// What `insert_symbol_reference` asks for, by its text and the values that are bound.
pub proof fn law_insert_symbol_reference_says(
    reference: SymbolReferenceRecord,
)
    ensures
        ({
            let s = insert_symbol_reference_spec(reference);
            &&& says(s.sql, "INSERT INTO symbol_references"@)
            &&& says(s.sql, "INSERT INTO symbol_references (
      id, file_id, source_symbol_id, target_symbol_id, reference_text, reference_kind,
      line, confidence, resolution_status, index_run_id, parser_version
    )
    VALUES (?1, ?2, ?3, ?4, ?5, ?6, ?7, ?8, ?9, ?10, ?11)"@)
            &&& says(s.sql, "ON CONFLICT(id)"@)
            &&& says(s.sql, "UPDATE SET"@)
            &&& ({
                let columns = seq![
                    "id"@,
                    "file_id"@,
                    "source_symbol_id"@,
                    "target_symbol_id"@,
                    "reference_text"@,
                    "reference_kind"@,
                    "line"@,
                    "confidence"@,
                    "resolution_status"@,
                    "index_run_id"@,
                    "parser_version"@,
                ];
                let stored = seq![
                    s.params[0],
                    s.params[1],
                    s.params[2],
                    s.params[3],
                    s.params[4],
                    s.params[5],
                    s.params[6],
                    s.params[7],
                    s.params[8],
                    s.params[9],
                    s.params[10],
                ];
                &&& stores(columns, stored, "id"@, text(reference.id@))
                &&& stores(columns, stored, "file_id"@, text(reference.file_id@))
                &&& stores(
                    columns,
                    stored,
                    "source_symbol_id"@,
                    optional(optional_text(reference.source_symbol_id)),
                )
                &&& stores(
                    columns,
                    stored,
                    "target_symbol_id"@,
                    optional(optional_text(reference.target_symbol_id)),
                )
                &&& stores(columns, stored, "reference_text"@, text(reference.reference_text@))
                &&& stores(columns, stored, "reference_kind"@, text(reference.reference_kind@))
                &&& stores(columns, stored, "line"@, count(reference.line))
                &&& stores(columns, stored, "confidence"@, Value::Real(reference.confidence))
                &&& stores(
                    columns,
                    stored,
                    "resolution_status"@,
                    text(reference.resolution_status@),
                )
                &&& stores(columns, stored, "index_run_id"@, text(reference.index_run_id@))
                &&& stores(columns, stored, "parser_version"@, text(reference.parser_version@))
            })
        }),
{
    let s = insert_symbol_reference_spec(reference);
    let columns = seq![
        "id"@,
        "file_id"@,
        "source_symbol_id"@,
        "target_symbol_id"@,
        "reference_text"@,
        "reference_kind"@,
        "line"@,
        "confidence"@,
        "resolution_status"@,
        "index_run_id"@,
        "parser_version"@,
    ];
    let stored = seq![
        s.params[0],
        s.params[1],
        s.params[2],
        s.params[3],
        s.params[4],
        s.params[5],
        s.params[6],
        s.params[7],
        s.params[8],
        s.params[9],
        s.params[10],
    ];
    assert(columns[0] == "id"@ && stored[0] == text(reference.id@));
    assert(columns[1] == "file_id"@ && stored[1] == text(reference.file_id@));
    assert(columns[2] == "source_symbol_id"@ && stored[2] == optional(optional_text(reference.source_symbol_id)));
    assert(columns[3] == "target_symbol_id"@ && stored[3] == optional(optional_text(reference.target_symbol_id)));
    assert(columns[4] == "reference_text"@ && stored[4] == text(reference.reference_text@));
    assert(columns[5] == "reference_kind"@ && stored[5] == text(reference.reference_kind@));
    assert(columns[6] == "line"@ && stored[6] == count(reference.line));
    assert(columns[7] == "confidence"@ && stored[7] == Value::Real(reference.confidence));
    assert(columns[8] == "resolution_status"@ && stored[8] == text(reference.resolution_status@));
    assert(columns[9] == "index_run_id"@ && stored[9] == text(reference.index_run_id@));
    assert(columns[10] == "parser_version"@ && stored[10] == text(reference.parser_version@));
    reveal_strlit("INSERT INTO symbol_references (
      id, file_id, source_symbol_id, target_symbol_id, reference_text, reference_kind,
      line, confidence, resolution_status, index_run_id, parser_version
    )
    VALUES (?1, ?2, ?3, ?4, ?5, ?6, ?7, ?8, ?9, ?10, ?11)
    ON CONFLICT(id) DO UPDATE SET
      file_id = excluded.file_id,
      source_symbol_id = excluded.source_symbol_id,
      target_symbol_id = excluded.target_symbol_id,
      reference_text = excluded.reference_text,
      reference_kind = excluded.reference_kind,
      line = excluded.line,
      confidence = excluded.confidence,
      resolution_status = excluded.resolution_status,
      index_run_id = excluded.index_run_id,
      parser_version = excluded.parser_version");
    reveal_strlit("INSERT INTO symbol_references");
    assert(s.sql.subrange(0, 29) =~= "INSERT INTO symbol_references"@);
    lemma_says(s.sql, "INSERT INTO symbol_references"@, 0);
    reveal_strlit("INSERT INTO symbol_references (
      id, file_id, source_symbol_id, target_symbol_id, reference_text, reference_kind,
      line, confidence, resolution_status, index_run_id, parser_version
    )
    VALUES (?1, ?2, ?3, ?4, ?5, ?6, ?7, ?8, ?9, ?10, ?11)");
    assert(s.sql.subrange(0, 254) =~= "INSERT INTO symbol_references (
      id, file_id, source_symbol_id, target_symbol_id, reference_text, reference_kind,
      line, confidence, resolution_status, index_run_id, parser_version
    )
    VALUES (?1, ?2, ?3, ?4, ?5, ?6, ?7, ?8, ?9, ?10, ?11)"@);
    lemma_says(s.sql, "INSERT INTO symbol_references (
      id, file_id, source_symbol_id, target_symbol_id, reference_text, reference_kind,
      line, confidence, resolution_status, index_run_id, parser_version
    )
    VALUES (?1, ?2, ?3, ?4, ?5, ?6, ?7, ?8, ?9, ?10, ?11)"@, 0);
    reveal_strlit("ON CONFLICT(id)");
    assert(s.sql.subrange(259, 274) =~= "ON CONFLICT(id)"@);
    lemma_says(s.sql, "ON CONFLICT(id)"@, 259);
    reveal_strlit("UPDATE SET");
    assert(s.sql.subrange(278, 288) =~= "UPDATE SET"@);
    lemma_says(s.sql, "UPDATE SET"@, 278);
}

/// What `insert_chunk` asks for, by its text and the values that are bound.
pub proof fn law_insert_chunk_says(
    chunk: ChunkRecord,
)
    ensures
        ({
            let s = insert_chunk_spec(chunk);
            &&& says(s.sql, "INSERT INTO chunks"@)
            &&& says(s.sql, "INSERT INTO chunks (
      id, file_id, symbol_id, kind, text_hash,
      start_line, end_line, start_byte, end_byte,
      vector_point_id, excluded_reason, index_run_id, parser_version,
      embedding_model, embedding_dimension, embedded_at
    )
    VALUES (?1, ?2, ?3, ?4, ?5, ?6, ?7, ?8, ?9, ?10, ?11, ?12, ?13, ?14, ?15, ?16)"@)
            &&& ({
                let columns = seq![
                    "id"@,
                    "file_id"@,
                    "symbol_id"@,
                    "kind"@,
                    "text_hash"@,
                    "start_line"@,
                    "end_line"@,
                    "start_byte"@,
                    "end_byte"@,
                    "vector_point_id"@,
                    "excluded_reason"@,
                    "index_run_id"@,
                    "parser_version"@,
                    "embedding_model"@,
                    "embedding_dimension"@,
                    "embedded_at"@,
                ];
                let stored = seq![
                    s.params[0],
                    s.params[1],
                    s.params[2],
                    s.params[3],
                    s.params[4],
                    s.params[5],
                    s.params[6],
                    s.params[7],
                    s.params[8],
                    s.params[9],
                    s.params[10],
                    s.params[11],
                    s.params[12],
                    s.params[13],
                    s.params[14],
                    s.params[15],
                ];
                &&& stores(columns, stored, "id"@, text(chunk.id@))
                &&& stores(columns, stored, "file_id"@, text(chunk.file_id@))
                &&& stores(columns, stored, "symbol_id"@, optional(optional_text(chunk.symbol_id)))
                &&& stores(columns, stored, "kind"@, text(chunk.kind@))
                &&& stores(columns, stored, "text_hash"@, text(chunk.text_hash@))
                &&& stores(columns, stored, "start_line"@, count(chunk.start_line))
                &&& stores(columns, stored, "end_line"@, count(chunk.end_line))
                &&& stores(columns, stored, "start_byte"@, count(chunk.start_byte))
                &&& stores(columns, stored, "end_byte"@, count(chunk.end_byte))
                &&& stores(
                    columns,
                    stored,
                    "vector_point_id"@,
                    optional(optional_text(chunk.vector_point_id)),
                )
                &&& stores(
                    columns,
                    stored,
                    "excluded_reason"@,
                    optional(optional_text(chunk.excluded_reason)),
                )
                &&& stores(columns, stored, "index_run_id"@, text(chunk.index_run_id@))
                &&& stores(columns, stored, "parser_version"@, text(chunk.parser_version@))
                &&& stores(
                    columns,
                    stored,
                    "embedding_model"@,
                    optional(optional_text(chunk.embedding_model)),
                )
                &&& stores(
                    columns,
                    stored,
                    "embedding_dimension"@,
                    optional_count(chunk.embedding_dimension),
                )
                &&& stores(
                    columns,
                    stored,
                    "embedded_at"@,
                    optional(optional_text(chunk.embedded_at)),
                )
            })
        }),
{
    let s = insert_chunk_spec(chunk);
    let columns = seq![
        "id"@,
        "file_id"@,
        "symbol_id"@,
        "kind"@,
        "text_hash"@,
        "start_line"@,
        "end_line"@,
        "start_byte"@,
        "end_byte"@,
        "vector_point_id"@,
        "excluded_reason"@,
        "index_run_id"@,
        "parser_version"@,
        "embedding_model"@,
        "embedding_dimension"@,
        "embedded_at"@,
    ];
    let stored = seq![
        s.params[0],
        s.params[1],
        s.params[2],
        s.params[3],
        s.params[4],
        s.params[5],
        s.params[6],
        s.params[7],
        s.params[8],
        s.params[9],
        s.params[10],
        s.params[11],
        s.params[12],
        s.params[13],
        s.params[14],
        s.params[15],
    ];
    assert(columns[0] == "id"@ && stored[0] == text(chunk.id@));
    assert(columns[1] == "file_id"@ && stored[1] == text(chunk.file_id@));
    assert(columns[2] == "symbol_id"@ && stored[2] == optional(optional_text(chunk.symbol_id)));
    assert(columns[3] == "kind"@ && stored[3] == text(chunk.kind@));
    assert(columns[4] == "text_hash"@ && stored[4] == text(chunk.text_hash@));
    assert(columns[5] == "start_line"@ && stored[5] == count(chunk.start_line));
    assert(columns[6] == "end_line"@ && stored[6] == count(chunk.end_line));
    assert(columns[7] == "start_byte"@ && stored[7] == count(chunk.start_byte));
    assert(columns[8] == "end_byte"@ && stored[8] == count(chunk.end_byte));
    assert(columns[9] == "vector_point_id"@ && stored[9] == optional(optional_text(chunk.vector_point_id)));
    assert(columns[10] == "excluded_reason"@ && stored[10] == optional(optional_text(chunk.excluded_reason)));
    assert(columns[11] == "index_run_id"@ && stored[11] == text(chunk.index_run_id@));
    assert(columns[12] == "parser_version"@ && stored[12] == text(chunk.parser_version@));
    assert(columns[13] == "embedding_model"@ && stored[13] == optional(optional_text(chunk.embedding_model)));
    assert(columns[14] == "embedding_dimension"@ && stored[14] == optional_count(chunk.embedding_dimension));
    assert(columns[15] == "embedded_at"@ && stored[15] == optional(optional_text(chunk.embedded_at)));
    reveal_strlit("INSERT INTO chunks (
      id, file_id, symbol_id, kind, text_hash,
      start_line, end_line, start_byte, end_byte,
      vector_point_id, excluded_reason, index_run_id, parser_version,
      embedding_model, embedding_dimension, embedded_at
    )
    VALUES (?1, ?2, ?3, ?4, ?5, ?6, ?7, ?8, ?9, ?10, ?11, ?12, ?13, ?14, ?15, ?16)");
    reveal_strlit("INSERT INTO chunks");
    assert(s.sql.subrange(0, 18) =~= "INSERT INTO chunks"@);
    lemma_says(s.sql, "INSERT INTO chunks"@, 0);
    assert(s.sql.subrange(0, 332) =~= "INSERT INTO chunks (
      id, file_id, symbol_id, kind, text_hash,
      start_line, end_line, start_byte, end_byte,
      vector_point_id, excluded_reason, index_run_id, parser_version,
      embedding_model, embedding_dimension, embedded_at
    )
    VALUES (?1, ?2, ?3, ?4, ?5, ?6, ?7, ?8, ?9, ?10, ?11, ?12, ?13, ?14, ?15, ?16)"@);
    lemma_says(s.sql, "INSERT INTO chunks (
      id, file_id, symbol_id, kind, text_hash,
      start_line, end_line, start_byte, end_byte,
      vector_point_id, excluded_reason, index_run_id, parser_version,
      embedding_model, embedding_dimension, embedded_at
    )
    VALUES (?1, ?2, ?3, ?4, ?5, ?6, ?7, ?8, ?9, ?10, ?11, ?12, ?13, ?14, ?15, ?16)"@, 0);
}

/// What `insert_call` asks for, by its text and the values that are bound.
pub proof fn law_insert_call_says(
    call: CallRecord,
)
    ensures
        ({
            let s = insert_call_spec(call);
            &&& says(s.sql, "INSERT INTO calls"@)
            &&& says(s.sql, "INSERT INTO calls (
      id, caller_symbol_id, callee_text, callee_symbol_id,
      call_line, confidence, resolution_status, index_run_id, parser_version
    )
    VALUES (?1, ?2, ?3, ?4, ?5, ?6, ?7, ?8, ?9)"@)
            &&& says(s.sql, "ON CONFLICT(id)"@)
            &&& says(s.sql, "UPDATE SET"@)
            &&& ({
                let columns = seq![
                    "id"@,
                    "caller_symbol_id"@,
                    "callee_text"@,
                    "callee_symbol_id"@,
                    "call_line"@,
                    "confidence"@,
                    "resolution_status"@,
                    "index_run_id"@,
                    "parser_version"@,
                ];
                let stored = seq![
                    s.params[0],
                    s.params[1],
                    s.params[2],
                    s.params[3],
                    s.params[4],
                    s.params[5],
                    s.params[6],
                    s.params[7],
                    s.params[8],
                ];
                &&& stores(columns, stored, "id"@, text(call.id@))
                &&& stores(columns, stored, "caller_symbol_id"@, text(call.caller_symbol_id@))
                &&& stores(columns, stored, "callee_text"@, text(call.callee_text@))
                &&& stores(
                    columns,
                    stored,
                    "callee_symbol_id"@,
                    optional(optional_text(call.callee_symbol_id)),
                )
                &&& stores(columns, stored, "call_line"@, count(call.call_line))
                &&& stores(columns, stored, "confidence"@, Value::Real(call.confidence))
                &&& stores(columns, stored, "resolution_status"@, text(call.resolution_status@))
                &&& stores(columns, stored, "index_run_id"@, text(call.index_run_id@))
                &&& stores(columns, stored, "parser_version"@, text(call.parser_version@))
            })
        }),
{
    let s = insert_call_spec(call);
    let columns = seq![
        "id"@,
        "caller_symbol_id"@,
        "callee_text"@,
        "callee_symbol_id"@,
        "call_line"@,
        "confidence"@,
        "resolution_status"@,
        "index_run_id"@,
        "parser_version"@,
    ];
    let stored = seq![
        s.params[0],
        s.params[1],
        s.params[2],
        s.params[3],
        s.params[4],
        s.params[5],
        s.params[6],
        s.params[7],
        s.params[8],
    ];
    assert(columns[0] == "id"@ && stored[0] == text(call.id@));
    assert(columns[1] == "caller_symbol_id"@ && stored[1] == text(call.caller_symbol_id@));
    assert(columns[2] == "callee_text"@ && stored[2] == text(call.callee_text@));
    assert(columns[3] == "callee_symbol_id"@ && stored[3] == optional(optional_text(call.callee_symbol_id)));
    assert(columns[4] == "call_line"@ && stored[4] == count(call.call_line));
    assert(columns[5] == "confidence"@ && stored[5] == Value::Real(call.confidence));
    assert(columns[6] == "resolution_status"@ && stored[6] == text(call.resolution_status@));
    assert(columns[7] == "index_run_id"@ && stored[7] == text(call.index_run_id@));
    assert(columns[8] == "parser_version"@ && stored[8] == text(call.parser_version@));
    reveal_strlit("INSERT INTO calls (
      id, caller_symbol_id, callee_text, callee_symbol_id,
      call_line, confidence, resolution_status, index_run_id, parser_version
    )
    VALUES (?1, ?2, ?3, ?4, ?5, ?6, ?7, ?8, ?9)
    ON CONFLICT(id) DO UPDATE SET
      caller_symbol_id = excluded.caller_symbol_id,
      callee_text = excluded.callee_text,
      callee_symbol_id = excluded.callee_symbol_id,
      call_line = excluded.call_line,
      confidence = excluded.confidence,
      resolution_status = excluded.resolution_status,
      index_run_id = excluded.index_run_id,
      parser_version = excluded.parser_version");
    reveal_strlit("INSERT INTO calls");
    assert(s.sql.subrange(0, 17) =~= "INSERT INTO calls"@);
    lemma_says(s.sql, "INSERT INTO calls"@, 0);
    reveal_strlit("INSERT INTO calls (
      id, caller_symbol_id, callee_text, callee_symbol_id,
      call_line, confidence, resolution_status, index_run_id, parser_version
    )
    VALUES (?1, ?2, ?3, ?4, ?5, ?6, ?7, ?8, ?9)");
    assert(s.sql.subrange(0, 209) =~= "INSERT INTO calls (
      id, caller_symbol_id, callee_text, callee_symbol_id,
      call_line, confidence, resolution_status, index_run_id, parser_version
    )
    VALUES (?1, ?2, ?3, ?4, ?5, ?6, ?7, ?8, ?9)"@);
    lemma_says(s.sql, "INSERT INTO calls (
      id, caller_symbol_id, callee_text, callee_symbol_id,
      call_line, confidence, resolution_status, index_run_id, parser_version
    )
    VALUES (?1, ?2, ?3, ?4, ?5, ?6, ?7, ?8, ?9)"@, 0);
    reveal_strlit("ON CONFLICT(id)");
    assert(s.sql.subrange(214, 229) =~= "ON CONFLICT(id)"@);
    lemma_says(s.sql, "ON CONFLICT(id)"@, 214);
    reveal_strlit("UPDATE SET");
    assert(s.sql.subrange(233, 243) =~= "UPDATE SET"@);
    lemma_says(s.sql, "UPDATE SET"@, 233);
}

/// What `insert_test` asks for, by its text and the values that are bound.
pub proof fn law_insert_test_says(
    test: TestRecord,
    indexed_at: Seq<char>,
)
    ensures
        ({
            let s = insert_test_spec(test, indexed_at);
            &&& says(s.sql, "INSERT INTO tests"@)
            &&& says(s.sql, "INSERT INTO tests (
      id, repository_id, file_id, symbol_id, name, qualified_name, framework,
      language, path, start_line, end_line, start_byte, end_byte,
      index_run_id, parser_version, indexed_at
    )
    VALUES (?1, ?2, ?3, ?4, ?5, ?6, ?7, ?8, ?9, ?10, ?11, ?12, ?13, ?14, ?15, ?16)"@)
            &&& ({
                let columns = seq![
                    "id"@,
                    "repository_id"@,
                    "file_id"@,
                    "symbol_id"@,
                    "name"@,
                    "qualified_name"@,
                    "framework"@,
                    "language"@,
                    "path"@,
                    "start_line"@,
                    "end_line"@,
                    "start_byte"@,
                    "end_byte"@,
                    "index_run_id"@,
                    "parser_version"@,
                    "indexed_at"@,
                ];
                let stored = seq![
                    s.params[0],
                    s.params[1],
                    s.params[2],
                    s.params[3],
                    s.params[4],
                    s.params[5],
                    s.params[6],
                    s.params[7],
                    s.params[8],
                    s.params[9],
                    s.params[10],
                    s.params[11],
                    s.params[12],
                    s.params[13],
                    s.params[14],
                    s.params[15],
                ];
                &&& stores(columns, stored, "id"@, text(test.id@))
                &&& stores(columns, stored, "repository_id"@, text(test.repository_id@))
                &&& stores(columns, stored, "file_id"@, text(test.file_id@))
                &&& stores(columns, stored, "symbol_id"@, optional(optional_text(test.symbol_id)))
                &&& stores(columns, stored, "name"@, text(test.name@))
                &&& stores(columns, stored, "qualified_name"@, text(test.qualified_name@))
                &&& stores(columns, stored, "framework"@, text(test.framework@))
                &&& stores(columns, stored, "language"@, text(test.language@))
                &&& stores(columns, stored, "path"@, text(test.path@))
                &&& stores(columns, stored, "start_line"@, count(test.start_line))
                &&& stores(columns, stored, "end_line"@, count(test.end_line))
                &&& stores(columns, stored, "start_byte"@, count(test.start_byte))
                &&& stores(columns, stored, "end_byte"@, count(test.end_byte))
                &&& stores(columns, stored, "index_run_id"@, text(test.index_run_id@))
                &&& stores(columns, stored, "parser_version"@, text(test.parser_version@))
                &&& stores(columns, stored, "indexed_at"@, text(indexed_at))
            })
        }),
{
    let s = insert_test_spec(test, indexed_at);
    let columns = seq![
        "id"@,
        "repository_id"@,
        "file_id"@,
        "symbol_id"@,
        "name"@,
        "qualified_name"@,
        "framework"@,
        "language"@,
        "path"@,
        "start_line"@,
        "end_line"@,
        "start_byte"@,
        "end_byte"@,
        "index_run_id"@,
        "parser_version"@,
        "indexed_at"@,
    ];
    let stored = seq![
        s.params[0],
        s.params[1],
        s.params[2],
        s.params[3],
        s.params[4],
        s.params[5],
        s.params[6],
        s.params[7],
        s.params[8],
        s.params[9],
        s.params[10],
        s.params[11],
        s.params[12],
        s.params[13],
        s.params[14],
        s.params[15],
    ];
    assert(columns[0] == "id"@ && stored[0] == text(test.id@));
    assert(columns[1] == "repository_id"@ && stored[1] == text(test.repository_id@));
    assert(columns[2] == "file_id"@ && stored[2] == text(test.file_id@));
    assert(columns[3] == "symbol_id"@ && stored[3] == optional(optional_text(test.symbol_id)));
    assert(columns[4] == "name"@ && stored[4] == text(test.name@));
    assert(columns[5] == "qualified_name"@ && stored[5] == text(test.qualified_name@));
    assert(columns[6] == "framework"@ && stored[6] == text(test.framework@));
    assert(columns[7] == "language"@ && stored[7] == text(test.language@));
    assert(columns[8] == "path"@ && stored[8] == text(test.path@));
    assert(columns[9] == "start_line"@ && stored[9] == count(test.start_line));
    assert(columns[10] == "end_line"@ && stored[10] == count(test.end_line));
    assert(columns[11] == "start_byte"@ && stored[11] == count(test.start_byte));
    assert(columns[12] == "end_byte"@ && stored[12] == count(test.end_byte));
    assert(columns[13] == "index_run_id"@ && stored[13] == text(test.index_run_id@));
    assert(columns[14] == "parser_version"@ && stored[14] == text(test.parser_version@));
    assert(columns[15] == "indexed_at"@ && stored[15] == text(indexed_at));
    reveal_strlit("INSERT INTO tests (
      id, repository_id, file_id, symbol_id, name, qualified_name, framework,
      language, path, start_line, end_line, start_byte, end_byte,
      index_run_id, parser_version, indexed_at
    )
    VALUES (?1, ?2, ?3, ?4, ?5, ?6, ?7, ?8, ?9, ?10, ?11, ?12, ?13, ?14, ?15, ?16)");
    reveal_strlit("INSERT INTO tests");
    assert(s.sql.subrange(0, 17) =~= "INSERT INTO tests"@);
    lemma_says(s.sql, "INSERT INTO tests"@, 0);
    assert(s.sql.subrange(0, 299) =~= "INSERT INTO tests (
      id, repository_id, file_id, symbol_id, name, qualified_name, framework,
      language, path, start_line, end_line, start_byte, end_byte,
      index_run_id, parser_version, indexed_at
    )
    VALUES (?1, ?2, ?3, ?4, ?5, ?6, ?7, ?8, ?9, ?10, ?11, ?12, ?13, ?14, ?15, ?16)"@);
    lemma_says(s.sql, "INSERT INTO tests (
      id, repository_id, file_id, symbol_id, name, qualified_name, framework,
      language, path, start_line, end_line, start_byte, end_byte,
      index_run_id, parser_version, indexed_at
    )
    VALUES (?1, ?2, ?3, ?4, ?5, ?6, ?7, ?8, ?9, ?10, ?11, ?12, ?13, ?14, ?15, ?16)"@, 0);
}

/// What `delete_ref_file` asks for, by its text and the values that are bound.
pub proof fn law_delete_ref_file_says(
    repository_ref_id: Seq<char>,
    path: Seq<char>,
)
    ensures
        ({
            let s = delete_ref_file_spec(repository_ref_id, path);
            &&& says(s.sql, "DELETE FROM ref_files"@)
            &&& binds(s, "repository_ref_id = "@, text(repository_ref_id))
            &&& binds(s, "path = "@, text(path))
        }),
{
    let s = delete_ref_file_spec(repository_ref_id, path);
    reveal_strlit("DELETE FROM ref_files
    WHERE repository_ref_id = ?1
      AND path = ?2");
    reveal_strlit("?");
    lemma_places();
    reveal_strlit("DELETE FROM ref_files");
    assert(s.sql.subrange(0, 21) =~= "DELETE FROM ref_files"@);
    lemma_says(s.sql, "DELETE FROM ref_files"@, 0);
    reveal_strlit("repository_ref_id = ");
    assert(s.sql.subrange(32, 54) =~= "repository_ref_id = "@ + "?"@ + decimal_digits(1));
    lemma_binds(s, "repository_ref_id = "@, 1, 32);
    reveal_strlit("path = ");
    assert(s.sql.subrange(65, 74) =~= "path = "@ + "?"@ + decimal_digits(2));
    lemma_binds(s, "path = "@, 2, 65);
}

/// What `files_at_path` asks for, by its text and the values that are bound.
pub proof fn law_files_at_path_says(
    repository_id: Seq<char>,
    path: Seq<char>,
)
    ensures
        ({
            let s = files_at_path_spec(repository_id, path);
            &&& binds(s, "repository_id = "@, text(repository_id))
            &&& binds(s, "path = "@, text(path))
        }),
{
    let s = files_at_path_spec(repository_id, path);
    reveal_strlit("SELECT id FROM files WHERE repository_id = ?1 AND path = ?2");
    reveal_strlit("?");
    lemma_places();
    reveal_strlit("repository_id = ");
    assert(s.sql.subrange(27, 45) =~= "repository_id = "@ + "?"@ + decimal_digits(1));
    lemma_binds(s, "repository_id = "@, 1, 27);
    reveal_strlit("path = ");
    assert(s.sql.subrange(50, 59) =~= "path = "@ + "?"@ + decimal_digits(2));
    lemma_binds(s, "path = "@, 2, 50);
}

/// What `latest_semantic_generation` asks for, by its text and the values that are bound.
pub proof fn law_latest_semantic_generation_says(
    repository_id: Seq<char>,
)
    ensures
        ({
            let s = latest_semantic_generation_spec(repository_id);
            &&& binds(s, "repository_id = "@, text(repository_id))
            &&& says(s.sql, "ORDER BY fast_completed_at DESC, created_at DESC, id DESC"@)
            &&& says(s.sql, "LIMIT 1"@)
        }),
{
    let s = latest_semantic_generation_spec(repository_id);
    reveal_strlit("SELECT id, repository_id, fast_model, fast_dimension, fast_completed_at,
           quality_model, quality_dimension, quality_status, quality_started_at,
           quality_completed_at, active_layer, files_seen, embeddable_chunks,
           fast_embedded_chunks, quality_embedded_chunks, created_at, updated_at
    FROM semantic_generations
    WHERE repository_id = ?1
    ORDER BY fast_completed_at DESC, created_at DESC, id DESC
    LIMIT 1");
    reveal_strlit("?");
    lemma_places();
    reveal_strlit("repository_id = ");
    assert(s.sql.subrange(353, 371) =~= "repository_id = "@ + "?"@ + decimal_digits(1));
    lemma_binds(s, "repository_id = "@, 1, 353);
    reveal_strlit("ORDER BY fast_completed_at DESC, created_at DESC, id DESC");
    assert(s.sql.subrange(376, 433)
        =~= "ORDER BY fast_completed_at DESC, created_at DESC, id DESC"@);
    lemma_says(s.sql, "ORDER BY fast_completed_at DESC, created_at DESC, id DESC"@, 376);
    reveal_strlit("LIMIT 1");
    assert(s.sql.subrange(438, 445) =~= "LIMIT 1"@);
    lemma_says(s.sql, "LIMIT 1"@, 438);
}

/// What `link_semantic_generation_to_ref` asks for, by its text and the values that are bound.
pub proof fn law_link_semantic_generation_to_ref_says(
    repository_id: Seq<char>,
    repository_ref_id: Seq<char>,
    generation_id: Seq<char>,
    linked_at: Seq<char>,
)
    ensures
        ({
            let s = link_semantic_generation_to_ref_spec(
                repository_id,
                repository_ref_id,
                generation_id,
                linked_at,
            );
            &&& says(s.sql, "INSERT INTO semantic_generation_refs"@)
            &&& says(s.sql, "INSERT INTO semantic_generation_refs (
      repository_ref_id, repository_id, generation_id, linked_at
    )
    VALUES (?1, ?2, ?3, ?4)"@)
            &&& says(s.sql, "ON CONFLICT(repository_ref_id)"@)
            &&& says(s.sql, "UPDATE SET"@)
            &&& ({
                let columns = seq![
                    "repository_ref_id"@,
                    "repository_id"@,
                    "generation_id"@,
                    "linked_at"@,
                ];
                let stored = seq![s.params[0], s.params[1], s.params[2], s.params[3]];
                &&& stores(columns, stored, "repository_ref_id"@, text(repository_ref_id))
                &&& stores(columns, stored, "repository_id"@, text(repository_id))
                &&& stores(columns, stored, "generation_id"@, text(generation_id))
                &&& stores(columns, stored, "linked_at"@, text(linked_at))
            })
        }),
{
    let s = link_semantic_generation_to_ref_spec(
        repository_id,
        repository_ref_id,
        generation_id,
        linked_at,
    );
    let columns = seq!["repository_ref_id"@, "repository_id"@, "generation_id"@, "linked_at"@];
    let stored = seq![s.params[0], s.params[1], s.params[2], s.params[3]];
    assert(columns[0] == "repository_ref_id"@ && stored[0] == text(repository_ref_id));
    assert(columns[1] == "repository_id"@ && stored[1] == text(repository_id));
    assert(columns[2] == "generation_id"@ && stored[2] == text(generation_id));
    assert(columns[3] == "linked_at"@ && stored[3] == text(linked_at));
    reveal_strlit("INSERT INTO semantic_generation_refs (
      repository_ref_id, repository_id, generation_id, linked_at
    )
    VALUES (?1, ?2, ?3, ?4)
    ON CONFLICT(repository_ref_id) DO UPDATE SET
      repository_id = excluded.repository_id,
      generation_id = excluded.generation_id,
      linked_at = excluded.linked_at");
    reveal_strlit("INSERT INTO semantic_generation_refs");
    assert(s.sql.subrange(0, 36) =~= "INSERT INTO semantic_generation_refs"@);
    lemma_says(s.sql, "INSERT INTO semantic_generation_refs"@, 0);
    reveal_strlit("INSERT INTO semantic_generation_refs (
      repository_ref_id, repository_id, generation_id, linked_at
    )
    VALUES (?1, ?2, ?3, ?4)");
    assert(s.sql.subrange(0, 137) =~= "INSERT INTO semantic_generation_refs (
      repository_ref_id, repository_id, generation_id, linked_at
    )
    VALUES (?1, ?2, ?3, ?4)"@);
    lemma_says(s.sql, "INSERT INTO semantic_generation_refs (
      repository_ref_id, repository_id, generation_id, linked_at
    )
    VALUES (?1, ?2, ?3, ?4)"@, 0);
    reveal_strlit("ON CONFLICT(repository_ref_id)");
    assert(s.sql.subrange(142, 172) =~= "ON CONFLICT(repository_ref_id)"@);
    lemma_says(s.sql, "ON CONFLICT(repository_ref_id)"@, 142);
    reveal_strlit("UPDATE SET");
    assert(s.sql.subrange(176, 186) =~= "UPDATE SET"@);
    lemma_says(s.sql, "UPDATE SET"@, 176);
}

/// What `latest_semantic_generation_for_ref` asks for, by its text and the values that are bound.
pub proof fn law_latest_semantic_generation_for_ref_says(
    repository_id: Seq<char>,
    repository_ref_id: Seq<char>,
)
    ensures
        ({
            let s = latest_semantic_generation_for_ref_spec(repository_id, repository_ref_id);
            &&& binds(s, "semantic_generation_refs.repository_id = "@, text(repository_id))
            &&& binds(s, "semantic_generation_refs.repository_ref_id = "@, text(repository_ref_id))
            &&& says(s.sql, "LIMIT 1"@)
        }),
{
    let s = latest_semantic_generation_for_ref_spec(repository_id, repository_ref_id);
    reveal_strlit("SELECT semantic_generations.id, semantic_generations.repository_id,
          semantic_generations.fast_model, semantic_generations.fast_dimension,
          semantic_generations.fast_completed_at,
          semantic_generations.quality_model,
          semantic_generations.quality_dimension,
          semantic_generations.quality_status,
          semantic_generations.quality_started_at,
          semantic_generations.quality_completed_at,
          semantic_generations.active_layer,
          semantic_generations.files_seen,
          semantic_generations.embeddable_chunks,
          semantic_generations.fast_embedded_chunks,
          semantic_generations.quality_embedded_chunks,
          semantic_generations.created_at,
          semantic_generations.updated_at
     FROM semantic_generation_refs
     JOIN semantic_generations
       ON semantic_generations.id = semantic_generation_refs.generation_id
    WHERE semantic_generation_refs.repository_id = ?1
      AND semantic_generation_refs.repository_ref_id = ?2
    LIMIT 1");
    reveal_strlit("?");
    lemma_places();
    reveal_strlit("semantic_generation_refs.repository_id = ");
    assert(s.sql.subrange(928, 971)
        =~= "semantic_generation_refs.repository_id = "@ + "?"@ + decimal_digits(1));
    lemma_binds(s, "semantic_generation_refs.repository_id = "@, 1, 928);
    reveal_strlit("semantic_generation_refs.repository_ref_id = ");
    assert(s.sql.subrange(982, 1029)
        =~= "semantic_generation_refs.repository_ref_id = "@ + "?"@ + decimal_digits(2));
    lemma_binds(s, "semantic_generation_refs.repository_ref_id = "@, 2, 982);
    reveal_strlit("LIMIT 1");
    assert(s.sql.subrange(1034, 1041) =~= "LIMIT 1"@);
    lemma_says(s.sql, "LIMIT 1"@, 1034);
}

/// What `semantic_layer_manifest_aggregate` asks for, by its text and the values that are bound.
pub proof fn law_semantic_layer_manifest_aggregate_says(
    repository_id: Seq<char>,
    generation_id: Seq<char>,
    semantic_layer: SemanticLayer,
)
    ensures
        ({
            let s = semantic_layer_manifest_aggregate_spec(
                repository_id,
                generation_id,
                semantic_layer,
            );
            &&& says(s.sql, "status = 'current'"@)
            &&& says(s.sql, "status = 'stale'"@)
            &&& says(s.sql, "status = 'blocked'"@)
            &&& says(s.sql, "status = 'failed'"@)
            &&& says(s.sql, "status NOT IN ('current', 'stale', 'blocked', 'failed')"@)
            &&& binds(s, "repository_id = "@, text(repository_id))
            &&& binds(s, "generation_id = "@, text(generation_id))
            &&& binds(s, "semantic_layer = "@, text(semantic_layer.text()))
            &&& says(s.sql, "vector_store = 'sqlite_vec'"@)
            &&& says(s.sql, "GROUP BY embedding_model, embedding_dimension, vector_table"@)
            &&& says(s.sql, "ORDER BY 4 DESC, 9 DESC, embedding_model, vector_table"@)
            &&& says(s.sql, "LIMIT 1"@)
        }),
{
    let s = semantic_layer_manifest_aggregate_spec(repository_id, generation_id, semantic_layer);
    reveal_strlit("SELECT embedding_model, embedding_dimension, vector_table,
           SUM(CASE WHEN status = 'current' THEN 1 ELSE 0 END),
           SUM(CASE WHEN status = 'stale' THEN 1 ELSE 0 END),
           SUM(CASE WHEN status = 'blocked' THEN 1 ELSE 0 END),
           SUM(CASE WHEN status = 'failed' THEN 1 ELSE 0 END),
           SUM(CASE WHEN status NOT IN ('current', 'stale', 'blocked', 'failed') THEN 1 ELSE 0 END),
           COUNT(*)
    FROM chunk_embeddings
    WHERE repository_id = ?1
      AND generation_id = ?2
      AND semantic_layer = ?3
      AND vector_store = 'sqlite_vec'
    GROUP BY embedding_model, embedding_dimension, vector_table
    ORDER BY 4 DESC, 9 DESC, embedding_model, vector_table
    LIMIT 1");
    reveal_strlit("?");
    lemma_places();
    reveal_strlit("status = 'current'");
    assert(s.sql.subrange(84, 102) =~= "status = 'current'"@);
    lemma_says(s.sql, "status = 'current'"@, 84);
    reveal_strlit("status = 'stale'");
    assert(s.sql.subrange(148, 164) =~= "status = 'stale'"@);
    lemma_says(s.sql, "status = 'stale'"@, 148);
    reveal_strlit("status = 'blocked'");
    assert(s.sql.subrange(210, 228) =~= "status = 'blocked'"@);
    lemma_says(s.sql, "status = 'blocked'"@, 210);
    reveal_strlit("status = 'failed'");
    assert(s.sql.subrange(274, 291) =~= "status = 'failed'"@);
    lemma_says(s.sql, "status = 'failed'"@, 274);
    reveal_strlit("status NOT IN ('current', 'stale', 'blocked', 'failed')");
    assert(s.sql.subrange(337, 392) =~= "status NOT IN ('current', 'stale', 'blocked', 'failed')"@);
    lemma_says(s.sql, "status NOT IN ('current', 'stale', 'blocked', 'failed')"@, 337);
    reveal_strlit("repository_id = ");
    assert(s.sql.subrange(469, 487) =~= "repository_id = "@ + "?"@ + decimal_digits(1));
    lemma_binds(s, "repository_id = "@, 1, 469);
    reveal_strlit("generation_id = ");
    assert(s.sql.subrange(498, 516) =~= "generation_id = "@ + "?"@ + decimal_digits(2));
    lemma_binds(s, "generation_id = "@, 2, 498);
    reveal_strlit("semantic_layer = ");
    assert(s.sql.subrange(527, 546) =~= "semantic_layer = "@ + "?"@ + decimal_digits(3));
    lemma_binds(s, "semantic_layer = "@, 3, 527);
    reveal_strlit("vector_store = 'sqlite_vec'");
    assert(s.sql.subrange(557, 584) =~= "vector_store = 'sqlite_vec'"@);
    lemma_says(s.sql, "vector_store = 'sqlite_vec'"@, 557);
    reveal_strlit("GROUP BY embedding_model, embedding_dimension, vector_table");
    assert(s.sql.subrange(589, 648)
        =~= "GROUP BY embedding_model, embedding_dimension, vector_table"@);
    lemma_says(s.sql, "GROUP BY embedding_model, embedding_dimension, vector_table"@, 589);
    reveal_strlit("ORDER BY 4 DESC, 9 DESC, embedding_model, vector_table");
    assert(s.sql.subrange(653, 707) =~= "ORDER BY 4 DESC, 9 DESC, embedding_model, vector_table"@);
    lemma_says(s.sql, "ORDER BY 4 DESC, 9 DESC, embedding_model, vector_table"@, 653);
    reveal_strlit("LIMIT 1");
    assert(s.sql.subrange(712, 719) =~= "LIMIT 1"@);
    lemma_says(s.sql, "LIMIT 1"@, 712);
}

/// What `chunk_embeddings_for_generation` asks for, by its text and the values that are bound.
pub proof fn law_chunk_embeddings_for_generation_says(
    repository_id: Seq<char>,
    generation_id: Seq<char>,
    semantic_layer: Seq<char>,
)
    ensures
        ({
            let s = chunk_embeddings_for_generation_spec(
                repository_id,
                generation_id,
                semantic_layer,
            );
            &&& binds(s, "repository_id = "@, text(repository_id))
            &&& binds(s, "generation_id = "@, text(generation_id))
            &&& binds(s, "semantic_layer = "@, text(semantic_layer))
            &&& says(s.sql, "ORDER BY chunk_id, embedding_model, embedding_dimension"@)
        }),
{
    let s = chunk_embeddings_for_generation_spec(repository_id, generation_id, semantic_layer);
    reveal_strlit("SELECT id, repository_id, file_id, chunk_id, semantic_layer, embedding_model,
           embedding_dimension, content_hash, text_hash, vector_table,
           vector_point_id, generation_id, embedded_at, status
    FROM chunk_embeddings
    WHERE repository_id = ?1
      AND generation_id = ?2
      AND semantic_layer = ?3
    ORDER BY chunk_id, embedding_model, embedding_dimension");
    reveal_strlit("?");
    lemma_places();
    reveal_strlit("repository_id = ");
    assert(s.sql.subrange(248, 266) =~= "repository_id = "@ + "?"@ + decimal_digits(1));
    lemma_binds(s, "repository_id = "@, 1, 248);
    reveal_strlit("generation_id = ");
    assert(s.sql.subrange(277, 295) =~= "generation_id = "@ + "?"@ + decimal_digits(2));
    lemma_binds(s, "generation_id = "@, 2, 277);
    reveal_strlit("semantic_layer = ");
    assert(s.sql.subrange(306, 325) =~= "semantic_layer = "@ + "?"@ + decimal_digits(3));
    lemma_binds(s, "semantic_layer = "@, 3, 306);
    reveal_strlit("ORDER BY chunk_id, embedding_model, embedding_dimension");
    assert(s.sql.subrange(330, 385) =~= "ORDER BY chunk_id, embedding_model, embedding_dimension"@);
    lemma_says(s.sql, "ORDER BY chunk_id, embedding_model, embedding_dimension"@, 330);
}

/// What `fast_embeddings_for_ref` asks for, by its text and the values that are bound.
pub proof fn law_fast_embeddings_for_ref_says(
    repository_id: Seq<char>,
    fast_model: Seq<char>,
    fast_dimension: usize,
    repository_ref_id: Seq<char>,
)
    ensures
        ({
            let s = fast_embeddings_for_ref_spec(
                repository_id,
                fast_model,
                fast_dimension,
                repository_ref_id,
            );
            &&& binds(s, "ref_files.repository_ref_id = "@, text(repository_ref_id))
            &&& binds(s, "files.repository_id = "@, text(repository_id))
            &&& binds(s, "chunk_embeddings.repository_id = "@, text(repository_id))
            &&& says(s.sql, "chunk_embeddings.semantic_layer = 'fast'"@)
            &&& binds(s, "chunk_embeddings.embedding_model = "@, text(fast_model))
            &&& binds(s, "chunk_embeddings.embedding_dimension = "@, count(fast_dimension))
            &&& says(s.sql, "chunk_embeddings.vector_store = 'sqlite_vec'"@)
            &&& says(s.sql, "chunk_embeddings.status = 'current'"@)
            &&& says(s.sql, "chunks.excluded_reason IS NULL"@)
            &&& says(s.sql, "ORDER BY chunk_embeddings.chunk_id"@)
        }),
{
    let s = fast_embeddings_for_ref_spec(
        repository_id,
        fast_model,
        fast_dimension,
        repository_ref_id,
    );
    reveal_strlit("SELECT chunk_embeddings.file_id, chunk_embeddings.chunk_id,
           files.content_hash, chunks.text_hash, chunk_embeddings.vector_point_id
    FROM chunk_embeddings
    JOIN chunks ON chunk_embeddings.chunk_id = chunks.id
    JOIN files ON chunk_embeddings.file_id = files.id
              AND chunks.file_id = files.id
    JOIN ref_files
      ON ref_files.repository_id = files.repository_id
     AND ref_files.repository_ref_id = ?4
     AND ref_files.file_id = files.id
     AND ref_files.path = files.path
    WHERE files.repository_id = ?1
      AND chunk_embeddings.repository_id = ?1
      AND chunk_embeddings.semantic_layer = 'fast'
      AND chunk_embeddings.embedding_model = ?2
      AND chunk_embeddings.embedding_dimension = ?3
      AND chunk_embeddings.vector_store = 'sqlite_vec'
      AND chunk_embeddings.status = 'current'
      AND chunks.excluded_reason IS NULL
    ORDER BY chunk_embeddings.chunk_id");
    reveal_strlit("?");
    lemma_places();
    reveal_strlit("ref_files.repository_ref_id = ");
    assert(s.sql.subrange(406, 438)
        =~= "ref_files.repository_ref_id = "@ + "?"@ + decimal_digits(4));
    lemma_binds(s, "ref_files.repository_ref_id = "@, 4, 406);
    reveal_strlit("files.repository_id = ");
    assert(s.sql.subrange(524, 548) =~= "files.repository_id = "@ + "?"@ + decimal_digits(1));
    lemma_binds(s, "files.repository_id = "@, 1, 524);
    reveal_strlit("chunk_embeddings.repository_id = ");
    assert(s.sql.subrange(559, 594)
        =~= "chunk_embeddings.repository_id = "@ + "?"@ + decimal_digits(1));
    lemma_binds(s, "chunk_embeddings.repository_id = "@, 1, 559);
    reveal_strlit("chunk_embeddings.semantic_layer = 'fast'");
    assert(s.sql.subrange(605, 645) =~= "chunk_embeddings.semantic_layer = 'fast'"@);
    lemma_says(s.sql, "chunk_embeddings.semantic_layer = 'fast'"@, 605);
    reveal_strlit("chunk_embeddings.embedding_model = ");
    assert(s.sql.subrange(656, 693)
        =~= "chunk_embeddings.embedding_model = "@ + "?"@ + decimal_digits(2));
    lemma_binds(s, "chunk_embeddings.embedding_model = "@, 2, 656);
    reveal_strlit("chunk_embeddings.embedding_dimension = ");
    assert(s.sql.subrange(704, 745)
        =~= "chunk_embeddings.embedding_dimension = "@ + "?"@ + decimal_digits(3));
    lemma_binds(s, "chunk_embeddings.embedding_dimension = "@, 3, 704);
    reveal_strlit("chunk_embeddings.vector_store = 'sqlite_vec'");
    assert(s.sql.subrange(756, 800) =~= "chunk_embeddings.vector_store = 'sqlite_vec'"@);
    lemma_says(s.sql, "chunk_embeddings.vector_store = 'sqlite_vec'"@, 756);
    reveal_strlit("chunk_embeddings.status = 'current'");
    assert(s.sql.subrange(811, 846) =~= "chunk_embeddings.status = 'current'"@);
    lemma_says(s.sql, "chunk_embeddings.status = 'current'"@, 811);
    reveal_strlit("chunks.excluded_reason IS NULL");
    assert(s.sql.subrange(857, 887) =~= "chunks.excluded_reason IS NULL"@);
    lemma_says(s.sql, "chunks.excluded_reason IS NULL"@, 857);
    reveal_strlit("ORDER BY chunk_embeddings.chunk_id");
    assert(s.sql.subrange(892, 926) =~= "ORDER BY chunk_embeddings.chunk_id"@);
    lemma_says(s.sql, "ORDER BY chunk_embeddings.chunk_id"@, 892);
}

/// What `fast_embeddings` asks for, by its text and the values that are bound.
pub proof fn law_fast_embeddings_says(
    repository_id: Seq<char>,
    fast_model: Seq<char>,
    fast_dimension: usize,
)
    ensures
        ({
            let s = fast_embeddings_spec(repository_id, fast_model, fast_dimension);
            &&& binds(s, "files.repository_id = "@, text(repository_id))
            &&& binds(s, "chunk_embeddings.repository_id = "@, text(repository_id))
            &&& says(s.sql, "chunk_embeddings.semantic_layer = 'fast'"@)
            &&& binds(s, "chunk_embeddings.embedding_model = "@, text(fast_model))
            &&& binds(s, "chunk_embeddings.embedding_dimension = "@, count(fast_dimension))
            &&& says(s.sql, "chunk_embeddings.vector_store = 'sqlite_vec'"@)
            &&& says(s.sql, "chunk_embeddings.status = 'current'"@)
            &&& says(s.sql, "chunks.excluded_reason IS NULL"@)
            &&& says(s.sql, "ORDER BY chunk_embeddings.chunk_id"@)
        }),
{
    let s = fast_embeddings_spec(repository_id, fast_model, fast_dimension);
    reveal_strlit("SELECT chunk_embeddings.file_id, chunk_embeddings.chunk_id,
           files.content_hash, chunks.text_hash, chunk_embeddings.vector_point_id
    FROM chunk_embeddings
    JOIN chunks ON chunk_embeddings.chunk_id = chunks.id
    JOIN files ON chunk_embeddings.file_id = files.id
              AND chunks.file_id = files.id
    WHERE files.repository_id = ?1
      AND chunk_embeddings.repository_id = ?1
      AND chunk_embeddings.semantic_layer = 'fast'
      AND chunk_embeddings.embedding_model = ?2
      AND chunk_embeddings.embedding_dimension = ?3
      AND chunk_embeddings.vector_store = 'sqlite_vec'
      AND chunk_embeddings.status = 'current'
      AND chunks.excluded_reason IS NULL
    ORDER BY chunk_embeddings.chunk_id");
    reveal_strlit("?");
    lemma_places();
    reveal_strlit("files.repository_id = ");
    assert(s.sql.subrange(333, 357) =~= "files.repository_id = "@ + "?"@ + decimal_digits(1));
    lemma_binds(s, "files.repository_id = "@, 1, 333);
    reveal_strlit("chunk_embeddings.repository_id = ");
    assert(s.sql.subrange(368, 403)
        =~= "chunk_embeddings.repository_id = "@ + "?"@ + decimal_digits(1));
    lemma_binds(s, "chunk_embeddings.repository_id = "@, 1, 368);
    reveal_strlit("chunk_embeddings.semantic_layer = 'fast'");
    assert(s.sql.subrange(414, 454) =~= "chunk_embeddings.semantic_layer = 'fast'"@);
    lemma_says(s.sql, "chunk_embeddings.semantic_layer = 'fast'"@, 414);
    reveal_strlit("chunk_embeddings.embedding_model = ");
    assert(s.sql.subrange(465, 502)
        =~= "chunk_embeddings.embedding_model = "@ + "?"@ + decimal_digits(2));
    lemma_binds(s, "chunk_embeddings.embedding_model = "@, 2, 465);
    reveal_strlit("chunk_embeddings.embedding_dimension = ");
    assert(s.sql.subrange(513, 554)
        =~= "chunk_embeddings.embedding_dimension = "@ + "?"@ + decimal_digits(3));
    lemma_binds(s, "chunk_embeddings.embedding_dimension = "@, 3, 513);
    reveal_strlit("chunk_embeddings.vector_store = 'sqlite_vec'");
    assert(s.sql.subrange(565, 609) =~= "chunk_embeddings.vector_store = 'sqlite_vec'"@);
    lemma_says(s.sql, "chunk_embeddings.vector_store = 'sqlite_vec'"@, 565);
    reveal_strlit("chunk_embeddings.status = 'current'");
    assert(s.sql.subrange(620, 655) =~= "chunk_embeddings.status = 'current'"@);
    lemma_says(s.sql, "chunk_embeddings.status = 'current'"@, 620);
    reveal_strlit("chunks.excluded_reason IS NULL");
    assert(s.sql.subrange(666, 696) =~= "chunks.excluded_reason IS NULL"@);
    lemma_says(s.sql, "chunks.excluded_reason IS NULL"@, 666);
    reveal_strlit("ORDER BY chunk_embeddings.chunk_id");
    assert(s.sql.subrange(701, 735) =~= "ORDER BY chunk_embeddings.chunk_id"@);
    lemma_says(s.sql, "ORDER BY chunk_embeddings.chunk_id"@, 701);
}

/// What `vector_point_ids_at_path` asks for, by its text and the values that are bound.
pub proof fn law_vector_point_ids_at_path_says(
    repository_id: Seq<char>,
    path: Seq<char>,
    generation_id: Seq<char>,
    semantic_layer: SemanticLayer,
)
    ensures
        ({
            let s = vector_point_ids_at_path_spec(
                repository_id,
                path,
                generation_id,
                semantic_layer,
            );
            &&& binds(s, "files.repository_id = "@, text(repository_id))
            &&& binds(s, "files.path = "@, text(path))
            &&& binds(s, "chunk_embeddings.repository_id = "@, text(repository_id))
            &&& binds(s, "chunk_embeddings.generation_id = "@, text(generation_id))
            &&& binds(s, "chunk_embeddings.semantic_layer = "@, text(semantic_layer.text()))
            &&& says(s.sql, "chunk_embeddings.vector_store = 'sqlite_vec'"@)
            &&& says(s.sql, "chunk_embeddings.status = 'current'"@)
            &&& says(s.sql, "ORDER BY chunk_embeddings.vector_point_id"@)
        }),
{
    let s = vector_point_ids_at_path_spec(repository_id, path, generation_id, semantic_layer);
    reveal_strlit("SELECT chunk_embeddings.vector_point_id
    FROM chunk_embeddings
    JOIN files ON chunk_embeddings.file_id = files.id
    WHERE files.repository_id = ?1
      AND files.path = ?2
      AND chunk_embeddings.repository_id = ?1
      AND chunk_embeddings.generation_id = ?3
      AND chunk_embeddings.semantic_layer = ?4
      AND chunk_embeddings.vector_store = 'sqlite_vec'
      AND chunk_embeddings.status = 'current'
    ORDER BY chunk_embeddings.vector_point_id");
    reveal_strlit("?");
    lemma_places();
    reveal_strlit("files.repository_id = ");
    assert(s.sql.subrange(130, 154) =~= "files.repository_id = "@ + "?"@ + decimal_digits(1));
    lemma_binds(s, "files.repository_id = "@, 1, 130);
    reveal_strlit("files.path = ");
    assert(s.sql.subrange(165, 180) =~= "files.path = "@ + "?"@ + decimal_digits(2));
    lemma_binds(s, "files.path = "@, 2, 165);
    reveal_strlit("chunk_embeddings.repository_id = ");
    assert(s.sql.subrange(191, 226)
        =~= "chunk_embeddings.repository_id = "@ + "?"@ + decimal_digits(1));
    lemma_binds(s, "chunk_embeddings.repository_id = "@, 1, 191);
    reveal_strlit("chunk_embeddings.generation_id = ");
    assert(s.sql.subrange(237, 272)
        =~= "chunk_embeddings.generation_id = "@ + "?"@ + decimal_digits(3));
    lemma_binds(s, "chunk_embeddings.generation_id = "@, 3, 237);
    reveal_strlit("chunk_embeddings.semantic_layer = ");
    assert(s.sql.subrange(283, 319)
        =~= "chunk_embeddings.semantic_layer = "@ + "?"@ + decimal_digits(4));
    lemma_binds(s, "chunk_embeddings.semantic_layer = "@, 4, 283);
    reveal_strlit("chunk_embeddings.vector_store = 'sqlite_vec'");
    assert(s.sql.subrange(330, 374) =~= "chunk_embeddings.vector_store = 'sqlite_vec'"@);
    lemma_says(s.sql, "chunk_embeddings.vector_store = 'sqlite_vec'"@, 330);
    reveal_strlit("chunk_embeddings.status = 'current'");
    assert(s.sql.subrange(385, 420) =~= "chunk_embeddings.status = 'current'"@);
    lemma_says(s.sql, "chunk_embeddings.status = 'current'"@, 385);
    reveal_strlit("ORDER BY chunk_embeddings.vector_point_id");
    assert(s.sql.subrange(425, 466) =~= "ORDER BY chunk_embeddings.vector_point_id"@);
    lemma_says(s.sql, "ORDER BY chunk_embeddings.vector_point_id"@, 425);
}

/// What `vector_point_ids_referenced_by_ref_files` asks for, by its text and the values that are bound.
pub proof fn law_vector_point_ids_referenced_by_ref_files_says(
    repository_id: Seq<char>,
    vector_table: Seq<char>,
)
    ensures
        ({
            let s = vector_point_ids_referenced_by_ref_files_spec(repository_id, vector_table);
            &&& says(s.sql, "vector_points.vector_store = 'sqlite_vec'"@)
            &&& binds(s, "vector_points.repository_id = "@, text(repository_id))
            &&& binds(s, "vector_points.vector_table = "@, text(vector_table))
        }),
{
    let s = vector_point_ids_referenced_by_ref_files_spec(repository_id, vector_table);
    reveal_strlit("SELECT DISTINCT vector_points.vector_point_id
     FROM vector_points
     JOIN ref_files ON ref_files.file_id = vector_points.file_id
    WHERE vector_points.vector_store = 'sqlite_vec'
      AND vector_points.repository_id = ?1
      AND vector_points.vector_table = ?2");
    reveal_strlit("?");
    lemma_places();
    reveal_strlit("vector_points.vector_store = 'sqlite_vec'");
    assert(s.sql.subrange(145, 186) =~= "vector_points.vector_store = 'sqlite_vec'"@);
    lemma_says(s.sql, "vector_points.vector_store = 'sqlite_vec'"@, 145);
    reveal_strlit("vector_points.repository_id = ");
    assert(s.sql.subrange(197, 229)
        =~= "vector_points.repository_id = "@ + "?"@ + decimal_digits(1));
    lemma_binds(s, "vector_points.repository_id = "@, 1, 197);
    reveal_strlit("vector_points.vector_table = ");
    assert(s.sql.subrange(240, 271)
        =~= "vector_points.vector_table = "@ + "?"@ + decimal_digits(2));
    lemma_binds(s, "vector_points.vector_table = "@, 2, 240);
}

/// What `expected_vector_points_for_generation_layer` asks for, by its text and the values that are bound.
pub proof fn law_expected_vector_points_for_generation_layer_says(
    repository_id: Seq<char>,
    generation_id: Seq<char>,
    semantic_layer: SemanticLayer,
)
    ensures
        ({
            let s = expected_vector_points_for_generation_layer_spec(
                repository_id,
                generation_id,
                semantic_layer,
            );
            &&& binds(s, "chunk_embeddings.repository_id = "@, text(repository_id))
            &&& binds(s, "files.repository_id = "@, text(repository_id))
            &&& binds(s, "chunk_embeddings.generation_id = "@, text(generation_id))
            &&& binds(s, "chunk_embeddings.semantic_layer = "@, text(semantic_layer.text()))
            &&& says(s.sql, "chunk_embeddings.vector_store = 'sqlite_vec'"@)
            &&& says(s.sql, "chunk_embeddings.status = 'current'"@)
            &&& says(s.sql, "ORDER BY files.path, chunks.start_line, chunks.id"@)
        }),
{
    let s = expected_vector_points_for_generation_layer_spec(
        repository_id,
        generation_id,
        semantic_layer,
    );
    reveal_strlit("SELECT chunk_embeddings.vector_point_id, chunks.id, files.path,
           chunks.start_line, chunks.end_line, chunk_embeddings.text_hash,
           chunk_embeddings.embedding_model, chunk_embeddings.embedding_dimension
    FROM chunk_embeddings
    JOIN chunks ON chunk_embeddings.chunk_id = chunks.id
    JOIN files ON chunk_embeddings.file_id = files.id
              AND chunks.file_id = files.id
    WHERE chunk_embeddings.repository_id = ?1
      AND files.repository_id = ?1
      AND chunk_embeddings.generation_id = ?2
      AND chunk_embeddings.semantic_layer = ?3
      AND chunk_embeddings.vector_store = 'sqlite_vec'
      AND chunk_embeddings.status = 'current'
    ORDER BY files.path, chunks.start_line, chunks.id");
    reveal_strlit("?");
    lemma_places();
    reveal_strlit("chunk_embeddings.repository_id = ");
    assert(s.sql.subrange(412, 447)
        =~= "chunk_embeddings.repository_id = "@ + "?"@ + decimal_digits(1));
    lemma_binds(s, "chunk_embeddings.repository_id = "@, 1, 412);
    reveal_strlit("files.repository_id = ");
    assert(s.sql.subrange(458, 482) =~= "files.repository_id = "@ + "?"@ + decimal_digits(1));
    lemma_binds(s, "files.repository_id = "@, 1, 458);
    reveal_strlit("chunk_embeddings.generation_id = ");
    assert(s.sql.subrange(493, 528)
        =~= "chunk_embeddings.generation_id = "@ + "?"@ + decimal_digits(2));
    lemma_binds(s, "chunk_embeddings.generation_id = "@, 2, 493);
    reveal_strlit("chunk_embeddings.semantic_layer = ");
    assert(s.sql.subrange(539, 575)
        =~= "chunk_embeddings.semantic_layer = "@ + "?"@ + decimal_digits(3));
    lemma_binds(s, "chunk_embeddings.semantic_layer = "@, 3, 539);
    reveal_strlit("chunk_embeddings.vector_store = 'sqlite_vec'");
    assert(s.sql.subrange(586, 630) =~= "chunk_embeddings.vector_store = 'sqlite_vec'"@);
    lemma_says(s.sql, "chunk_embeddings.vector_store = 'sqlite_vec'"@, 586);
    reveal_strlit("chunk_embeddings.status = 'current'");
    assert(s.sql.subrange(641, 676) =~= "chunk_embeddings.status = 'current'"@);
    lemma_says(s.sql, "chunk_embeddings.status = 'current'"@, 641);
    reveal_strlit("ORDER BY files.path, chunks.start_line, chunks.id");
    assert(s.sql.subrange(681, 730) =~= "ORDER BY files.path, chunks.start_line, chunks.id"@);
    lemma_says(s.sql, "ORDER BY files.path, chunks.start_line, chunks.id"@, 681);
}

/// What `upsert_embedding` asks for, by its text and the values that are bound.
pub proof fn law_upsert_embedding_says(
    e: ChunkEmbeddingRecord,
    rowid: i64,
)
    ensures
        ({
            let s = upsert_embedding_spec(e, rowid);
            &&& says(s.sql, "INSERT INTO chunk_embeddings"@)
            &&& says(s.sql, "INSERT INTO chunk_embeddings (
      id, repository_id, file_id, chunk_id, semantic_layer, embedding_model,
      embedding_dimension, content_hash, text_hash, vector_table,
      vector_point_id, vector_store, vector_rowid,
      generation_id, embedded_at, status
    )
    VALUES (?1, ?2, ?3, ?4, ?5, ?6, ?7, ?8, ?9, ?10, ?11, 'sqlite_vec', ?12, ?13, ?14, ?15)"@)
            &&& says(
                s.sql,
                "ON CONFLICT(chunk_id, semantic_layer, embedding_model, embedding_dimension)"@,
            )
            &&& says(s.sql, "UPDATE SET"@)
        }),
{
    let s = upsert_embedding_spec(e, rowid);
    reveal_strlit("INSERT INTO chunk_embeddings (
      id, repository_id, file_id, chunk_id, semantic_layer, embedding_model,
      embedding_dimension, content_hash, text_hash, vector_table,
      vector_point_id, vector_store, vector_rowid,
      generation_id, embedded_at, status
    )
    VALUES (?1, ?2, ?3, ?4, ?5, ?6, ?7, ?8, ?9, ?10, ?11, 'sqlite_vec', ?12, ?13, ?14, ?15)
    ON CONFLICT(chunk_id, semantic_layer, embedding_model, embedding_dimension)
    DO UPDATE SET
      id = excluded.id,
      repository_id = excluded.repository_id,
      file_id = excluded.file_id,
      content_hash = excluded.content_hash,
      text_hash = excluded.text_hash,
      vector_table = excluded.vector_table,
      vector_point_id = excluded.vector_point_id,
      vector_store = excluded.vector_store,
      vector_rowid = excluded.vector_rowid,
      generation_id = excluded.generation_id,
      embedded_at = excluded.embedded_at,
      status = excluded.status");
    reveal_strlit("INSERT INTO chunk_embeddings");
    assert(s.sql.subrange(0, 28) =~= "INSERT INTO chunk_embeddings"@);
    lemma_says(s.sql, "INSERT INTO chunk_embeddings"@, 0);
    reveal_strlit("INSERT INTO chunk_embeddings (
      id, repository_id, file_id, chunk_id, semantic_layer, embedding_model,
      embedding_dimension, content_hash, text_hash, vector_table,
      vector_point_id, vector_store, vector_rowid,
      generation_id, embedded_at, status
    )
    VALUES (?1, ?2, ?3, ?4, ?5, ?6, ?7, ?8, ?9, ?10, ?11, 'sqlite_vec', ?12, ?13, ?14, ?15)");
    assert(s.sql.subrange(0, 363) =~= "INSERT INTO chunk_embeddings (
      id, repository_id, file_id, chunk_id, semantic_layer, embedding_model,
      embedding_dimension, content_hash, text_hash, vector_table,
      vector_point_id, vector_store, vector_rowid,
      generation_id, embedded_at, status
    )
    VALUES (?1, ?2, ?3, ?4, ?5, ?6, ?7, ?8, ?9, ?10, ?11, 'sqlite_vec', ?12, ?13, ?14, ?15)"@);
    lemma_says(s.sql, "INSERT INTO chunk_embeddings (
      id, repository_id, file_id, chunk_id, semantic_layer, embedding_model,
      embedding_dimension, content_hash, text_hash, vector_table,
      vector_point_id, vector_store, vector_rowid,
      generation_id, embedded_at, status
    )
    VALUES (?1, ?2, ?3, ?4, ?5, ?6, ?7, ?8, ?9, ?10, ?11, 'sqlite_vec', ?12, ?13, ?14, ?15)"@, 0);
    reveal_strlit("ON CONFLICT(chunk_id, semantic_layer, embedding_model, embedding_dimension)");
    assert(s.sql.subrange(368, 443)
        =~= "ON CONFLICT(chunk_id, semantic_layer, embedding_model, embedding_dimension)"@);
    lemma_says(
        s.sql,
        "ON CONFLICT(chunk_id, semantic_layer, embedding_model, embedding_dimension)"@,
        368,
    );
    reveal_strlit("UPDATE SET");
    assert(s.sql.subrange(451, 461) =~= "UPDATE SET"@);
    lemma_says(s.sql, "UPDATE SET"@, 451);
}

/// What `upsert_generation` asks for, by its text and the values that are bound.
pub proof fn law_upsert_generation_says(
    g: SemanticGenerationRecord,
)
    ensures
        ({
            let s = upsert_generation_spec(g);
            &&& says(s.sql, "INSERT INTO semantic_generations"@)
            &&& says(s.sql, "INSERT INTO semantic_generations (
      id, repository_id, fast_model, fast_dimension, fast_completed_at,
      quality_model, quality_dimension, quality_status, quality_started_at,
      quality_completed_at, active_layer, files_seen, embeddable_chunks,
      fast_embedded_chunks, quality_embedded_chunks, created_at, updated_at
    )
    VALUES (?1, ?2, ?3, ?4, ?5, ?6, ?7, ?8, ?9, ?10, ?11, ?12, ?13, ?14, ?15, ?16, ?17)"@)
            &&& says(s.sql, "ON CONFLICT(id)"@)
            &&& says(s.sql, "UPDATE SET"@)
        }),
{
    let s = upsert_generation_spec(g);
    reveal_strlit("INSERT INTO semantic_generations (
      id, repository_id, fast_model, fast_dimension, fast_completed_at,
      quality_model, quality_dimension, quality_status, quality_started_at,
      quality_completed_at, active_layer, files_seen, embeddable_chunks,
      fast_embedded_chunks, quality_embedded_chunks, created_at, updated_at
    )
    VALUES (?1, ?2, ?3, ?4, ?5, ?6, ?7, ?8, ?9, ?10, ?11, ?12, ?13, ?14, ?15, ?16, ?17)
    ON CONFLICT(id) DO UPDATE SET
      repository_id = excluded.repository_id,
      fast_model = excluded.fast_model,
      fast_dimension = excluded.fast_dimension,
      fast_completed_at = excluded.fast_completed_at,
      quality_model = excluded.quality_model,
      quality_dimension = excluded.quality_dimension,
      quality_status = excluded.quality_status,
      quality_started_at = excluded.quality_started_at,
      quality_completed_at = excluded.quality_completed_at,
      active_layer = excluded.active_layer,
      files_seen = excluded.files_seen,
      embeddable_chunks = excluded.embeddable_chunks,
      fast_embedded_chunks = excluded.fast_embedded_chunks,
      quality_embedded_chunks = excluded.quality_embedded_chunks,
      created_at = excluded.created_at,
      updated_at = excluded.updated_at");
    reveal_strlit("INSERT INTO semantic_generations");
    assert(s.sql.subrange(0, 32) =~= "INSERT INTO semantic_generations"@);
    lemma_says(s.sql, "INSERT INTO semantic_generations"@, 0);
    reveal_strlit("INSERT INTO semantic_generations (
      id, repository_id, fast_model, fast_dimension, fast_completed_at,
      quality_model, quality_dimension, quality_status, quality_started_at,
      quality_completed_at, active_layer, files_seen, embeddable_chunks,
      fast_embedded_chunks, quality_embedded_chunks, created_at, updated_at
    )
    VALUES (?1, ?2, ?3, ?4, ?5, ?6, ?7, ?8, ?9, ?10, ?11, ?12, ?13, ?14, ?15, ?16, ?17)");
    assert(s.sql.subrange(0, 425) =~= "INSERT INTO semantic_generations (
      id, repository_id, fast_model, fast_dimension, fast_completed_at,
      quality_model, quality_dimension, quality_status, quality_started_at,
      quality_completed_at, active_layer, files_seen, embeddable_chunks,
      fast_embedded_chunks, quality_embedded_chunks, created_at, updated_at
    )
    VALUES (?1, ?2, ?3, ?4, ?5, ?6, ?7, ?8, ?9, ?10, ?11, ?12, ?13, ?14, ?15, ?16, ?17)"@);
    lemma_says(s.sql, "INSERT INTO semantic_generations (
      id, repository_id, fast_model, fast_dimension, fast_completed_at,
      quality_model, quality_dimension, quality_status, quality_started_at,
      quality_completed_at, active_layer, files_seen, embeddable_chunks,
      fast_embedded_chunks, quality_embedded_chunks, created_at, updated_at
    )
    VALUES (?1, ?2, ?3, ?4, ?5, ?6, ?7, ?8, ?9, ?10, ?11, ?12, ?13, ?14, ?15, ?16, ?17)"@, 0);
    reveal_strlit("ON CONFLICT(id)");
    assert(s.sql.subrange(430, 445) =~= "ON CONFLICT(id)"@);
    lemma_says(s.sql, "ON CONFLICT(id)"@, 430);
    reveal_strlit("UPDATE SET");
    assert(s.sql.subrange(449, 459) =~= "UPDATE SET"@);
    lemma_says(s.sql, "UPDATE SET"@, 449);
}

/// What `mark_superseded_quality_jobs_stale` asks for, by its text and the values that are bound.
pub proof fn law_mark_superseded_quality_jobs_stale_says(
    repository_id: Seq<char>,
    current_generation_id: Seq<char>,
    updated_at: Seq<char>,
)
    ensures
        ({
            let s = mark_superseded_quality_jobs_stale_spec(
                repository_id,
                current_generation_id,
                updated_at,
            );
            &&& says(s.sql, "UPDATE quality_embedding_jobs"@)
            &&& says(s.sql, "status = 'skipped_stale'"@)
            &&& binds(s, "updated_at = "@, text(updated_at))
            &&& binds(s, "repository_id = "@, text(repository_id))
            &&& binds(s, "generation_id != "@, text(current_generation_id))
            &&& says(s.sql, "status IN ('pending', 'running')"@)
        }),
{
    let s = mark_superseded_quality_jobs_stale_spec(
        repository_id,
        current_generation_id,
        updated_at,
    );
    reveal_strlit("UPDATE quality_embedding_jobs
    SET status = 'skipped_stale', updated_at = ?3
    WHERE repository_id = ?1
      AND generation_id != ?2
      AND status IN ('pending', 'running')");
    reveal_strlit("?");
    lemma_places();
    reveal_strlit("UPDATE quality_embedding_jobs");
    assert(s.sql.subrange(0, 29) =~= "UPDATE quality_embedding_jobs"@);
    lemma_says(s.sql, "UPDATE quality_embedding_jobs"@, 0);
    reveal_strlit("status = 'skipped_stale'");
    assert(s.sql.subrange(38, 62) =~= "status = 'skipped_stale'"@);
    lemma_says(s.sql, "status = 'skipped_stale'"@, 38);
    reveal_strlit("updated_at = ");
    assert(s.sql.subrange(64, 79) =~= "updated_at = "@ + "?"@ + decimal_digits(3));
    lemma_binds(s, "updated_at = "@, 3, 64);
    reveal_strlit("repository_id = ");
    assert(s.sql.subrange(90, 108) =~= "repository_id = "@ + "?"@ + decimal_digits(1));
    lemma_binds(s, "repository_id = "@, 1, 90);
    reveal_strlit("generation_id != ");
    assert(s.sql.subrange(119, 138) =~= "generation_id != "@ + "?"@ + decimal_digits(2));
    lemma_binds(s, "generation_id != "@, 2, 119);
    reveal_strlit("status IN ('pending', 'running')");
    assert(s.sql.subrange(149, 181) =~= "status IN ('pending', 'running')"@);
    lemma_says(s.sql, "status IN ('pending', 'running')"@, 149);
}

/// What `carried_embeddings` asks for, by its text and the values that are bound.
pub proof fn law_carried_embeddings_says(
    repository_id: Seq<char>,
    generation_id: Seq<char>,
    quality_model: Seq<char>,
)
    ensures
        ({
            let s = carried_embeddings_spec(repository_id, generation_id, quality_model);
            &&& says(s.sql, "quality.semantic_layer = 'quality'"@)
            &&& binds(s, "quality.embedding_model = "@, text(quality_model))
            &&& says(s.sql, "quality.status = 'current'"@)
            &&& binds(s, "fast.repository_id = "@, text(repository_id))
            &&& binds(s, "fast.generation_id = "@, text(generation_id))
            &&& says(s.sql, "fast.semantic_layer = 'fast'"@)
            &&& says(s.sql, "fast.status = 'current'"@)
            &&& says(s.sql, "ORDER BY fast.chunk_id"@)
        }),
{
    let s = carried_embeddings_spec(repository_id, generation_id, quality_model);
    reveal_strlit("SELECT fast.file_id, fast.chunk_id, fast.content_hash, fast.text_hash,
           quality.embedding_dimension, quality.vector_table,
           quality.vector_point_id, quality.embedded_at
    FROM chunk_embeddings AS fast
    JOIN chunk_embeddings AS quality
      ON quality.repository_id = fast.repository_id
     AND quality.chunk_id = fast.chunk_id
     AND quality.semantic_layer = 'quality'
     AND quality.embedding_model = ?3
     AND quality.content_hash = fast.content_hash
     AND quality.text_hash = fast.text_hash
     AND quality.status = 'current'
    WHERE fast.repository_id = ?1
      AND fast.generation_id = ?2
      AND fast.semantic_layer = 'fast'
      AND fast.status = 'current'
    ORDER BY fast.chunk_id");
    reveal_strlit("?");
    lemma_places();
    reveal_strlit("quality.semantic_layer = 'quality'");
    assert(s.sql.subrange(363, 397) =~= "quality.semantic_layer = 'quality'"@);
    lemma_says(s.sql, "quality.semantic_layer = 'quality'"@, 363);
    reveal_strlit("quality.embedding_model = ");
    assert(s.sql.subrange(407, 435) =~= "quality.embedding_model = "@ + "?"@ + decimal_digits(3));
    lemma_binds(s, "quality.embedding_model = "@, 3, 407);
    reveal_strlit("quality.status = 'current'");
    assert(s.sql.subrange(539, 565) =~= "quality.status = 'current'"@);
    lemma_says(s.sql, "quality.status = 'current'"@, 539);
    reveal_strlit("fast.repository_id = ");
    assert(s.sql.subrange(576, 599) =~= "fast.repository_id = "@ + "?"@ + decimal_digits(1));
    lemma_binds(s, "fast.repository_id = "@, 1, 576);
    reveal_strlit("fast.generation_id = ");
    assert(s.sql.subrange(610, 633) =~= "fast.generation_id = "@ + "?"@ + decimal_digits(2));
    lemma_binds(s, "fast.generation_id = "@, 2, 610);
    reveal_strlit("fast.semantic_layer = 'fast'");
    assert(s.sql.subrange(644, 672) =~= "fast.semantic_layer = 'fast'"@);
    lemma_says(s.sql, "fast.semantic_layer = 'fast'"@, 644);
    reveal_strlit("fast.status = 'current'");
    assert(s.sql.subrange(683, 706) =~= "fast.status = 'current'"@);
    lemma_says(s.sql, "fast.status = 'current'"@, 683);
    reveal_strlit("ORDER BY fast.chunk_id");
    assert(s.sql.subrange(711, 733) =~= "ORDER BY fast.chunk_id"@);
    lemma_says(s.sql, "ORDER BY fast.chunk_id"@, 711);
}

/// What `quality_embedding_jobs_for_fast_generation` asks for, by its text and the values that are bound.
pub proof fn law_quality_embedding_jobs_for_fast_generation_says(
    repository_id: Seq<char>,
    generation_id: Seq<char>,
    quality_model: Seq<char>,
)
    ensures
        ({
            let s = quality_embedding_jobs_for_fast_generation_spec(
                repository_id,
                generation_id,
                quality_model,
            );
            &&& says(s.sql, "quality.semantic_layer = 'quality'"@)
            &&& binds(s, "quality.embedding_model = "@, text(quality_model))
            &&& says(s.sql, "quality.status = 'current'"@)
            &&& binds(s, "embeddings.repository_id = "@, text(repository_id))
            &&& binds(s, "embeddings.generation_id = "@, text(generation_id))
            &&& says(s.sql, "embeddings.semantic_layer = 'fast'"@)
            &&& says(s.sql, "embeddings.status = 'current'"@)
            &&& says(s.sql, "quality.chunk_id IS NULL"@)
            &&& says(s.sql, "ORDER BY files.path, embeddings.chunk_id"@)
        }),
{
    let s = quality_embedding_jobs_for_fast_generation_spec(
        repository_id,
        generation_id,
        quality_model,
    );
    reveal_strlit("SELECT embeddings.file_id, embeddings.chunk_id, files.path,
           embeddings.content_hash, embeddings.text_hash
    FROM chunk_embeddings AS embeddings
    JOIN files
      ON files.id = embeddings.file_id
     AND files.repository_id = embeddings.repository_id
    LEFT JOIN chunk_embeddings AS quality
      ON quality.repository_id = embeddings.repository_id
     AND quality.generation_id = embeddings.generation_id
     AND quality.chunk_id = embeddings.chunk_id
     AND quality.semantic_layer = 'quality'
     AND quality.embedding_model = ?3
     AND quality.content_hash = embeddings.content_hash
     AND quality.text_hash = embeddings.text_hash
     AND quality.status = 'current'
    WHERE embeddings.repository_id = ?1
      AND embeddings.generation_id = ?2
      AND embeddings.semantic_layer = 'fast'
      AND embeddings.status = 'current'
      AND quality.chunk_id IS NULL
    ORDER BY files.path, embeddings.chunk_id");
    reveal_strlit("?");
    lemma_places();
    reveal_strlit("quality.semantic_layer = 'quality'");
    assert(s.sql.subrange(482, 516) =~= "quality.semantic_layer = 'quality'"@);
    lemma_says(s.sql, "quality.semantic_layer = 'quality'"@, 482);
    reveal_strlit("quality.embedding_model = ");
    assert(s.sql.subrange(526, 554) =~= "quality.embedding_model = "@ + "?"@ + decimal_digits(3));
    lemma_binds(s, "quality.embedding_model = "@, 3, 526);
    reveal_strlit("quality.status = 'current'");
    assert(s.sql.subrange(670, 696) =~= "quality.status = 'current'"@);
    lemma_says(s.sql, "quality.status = 'current'"@, 670);
    reveal_strlit("embeddings.repository_id = ");
    assert(s.sql.subrange(707, 736) =~= "embeddings.repository_id = "@ + "?"@ + decimal_digits(1));
    lemma_binds(s, "embeddings.repository_id = "@, 1, 707);
    reveal_strlit("embeddings.generation_id = ");
    assert(s.sql.subrange(747, 776) =~= "embeddings.generation_id = "@ + "?"@ + decimal_digits(2));
    lemma_binds(s, "embeddings.generation_id = "@, 2, 747);
    reveal_strlit("embeddings.semantic_layer = 'fast'");
    assert(s.sql.subrange(787, 821) =~= "embeddings.semantic_layer = 'fast'"@);
    lemma_says(s.sql, "embeddings.semantic_layer = 'fast'"@, 787);
    reveal_strlit("embeddings.status = 'current'");
    assert(s.sql.subrange(832, 861) =~= "embeddings.status = 'current'"@);
    lemma_says(s.sql, "embeddings.status = 'current'"@, 832);
    reveal_strlit("quality.chunk_id IS NULL");
    assert(s.sql.subrange(872, 896) =~= "quality.chunk_id IS NULL"@);
    lemma_says(s.sql, "quality.chunk_id IS NULL"@, 872);
    reveal_strlit("ORDER BY files.path, embeddings.chunk_id");
    assert(s.sql.subrange(901, 941) =~= "ORDER BY files.path, embeddings.chunk_id"@);
    lemma_says(s.sql, "ORDER BY files.path, embeddings.chunk_id"@, 901);
}

/// What `quality_jobs_by_status` asks for, by its text and the values that are bound.
pub proof fn law_quality_jobs_by_status_says(
    repository_id: Seq<char>,
    generation_id: Seq<char>,
    status: Seq<char>,
)
    ensures
        ({
            let s = quality_jobs_by_status_spec(repository_id, generation_id, status);
            &&& binds(s, "repository_id = "@, text(repository_id))
            &&& binds(s, "generation_id = "@, text(generation_id))
            &&& binds(s, "status = "@, text(status))
            &&& says(s.sql, "ORDER BY updated_at, id"@)
        }),
{
    let s = quality_jobs_by_status_spec(repository_id, generation_id, status);
    reveal_strlit("SELECT id, repository_id, generation_id, chunk_id, file_id, path,
           content_hash, text_hash, status, attempts, error_summary,
           created_at, updated_at
    FROM quality_embedding_jobs
    WHERE repository_id = ?1
      AND generation_id = ?2
      AND status = ?3
    ORDER BY updated_at, id");
    reveal_strlit("?");
    lemma_places();
    reveal_strlit("repository_id = ");
    assert(s.sql.subrange(211, 229) =~= "repository_id = "@ + "?"@ + decimal_digits(1));
    lemma_binds(s, "repository_id = "@, 1, 211);
    reveal_strlit("generation_id = ");
    assert(s.sql.subrange(240, 258) =~= "generation_id = "@ + "?"@ + decimal_digits(2));
    lemma_binds(s, "generation_id = "@, 2, 240);
    reveal_strlit("status = ");
    assert(s.sql.subrange(269, 280) =~= "status = "@ + "?"@ + decimal_digits(3));
    lemma_binds(s, "status = "@, 3, 269);
    reveal_strlit("ORDER BY updated_at, id");
    assert(s.sql.subrange(285, 308) =~= "ORDER BY updated_at, id"@);
    lemma_says(s.sql, "ORDER BY updated_at, id"@, 285);
}

/// What `pending_quality_jobs` asks for, by its text and the values that are bound.
pub proof fn law_pending_quality_jobs_says(
    repository_id: Seq<char>,
    generation_id: Seq<char>,
    limit: usize,
)
    ensures
        ({
            let s = pending_quality_jobs_spec(repository_id, generation_id, limit);
            &&& binds(s, "repository_id = "@, text(repository_id))
            &&& binds(s, "generation_id = "@, text(generation_id))
            &&& says(s.sql, "status = 'pending'"@)
            &&& says(s.sql, "ORDER BY updated_at, id"@)
            &&& binds(s, "LIMIT "@, count(limit))
        }),
{
    let s = pending_quality_jobs_spec(repository_id, generation_id, limit);
    reveal_strlit("SELECT id
    FROM quality_embedding_jobs
    WHERE repository_id = ?1
      AND generation_id = ?2
      AND status = 'pending'
    ORDER BY updated_at, id
    LIMIT ?3");
    reveal_strlit("?");
    lemma_places();
    reveal_strlit("repository_id = ");
    assert(s.sql.subrange(52, 70) =~= "repository_id = "@ + "?"@ + decimal_digits(1));
    lemma_binds(s, "repository_id = "@, 1, 52);
    reveal_strlit("generation_id = ");
    assert(s.sql.subrange(81, 99) =~= "generation_id = "@ + "?"@ + decimal_digits(2));
    lemma_binds(s, "generation_id = "@, 2, 81);
    reveal_strlit("status = 'pending'");
    assert(s.sql.subrange(110, 128) =~= "status = 'pending'"@);
    lemma_says(s.sql, "status = 'pending'"@, 110);
    reveal_strlit("ORDER BY updated_at, id");
    assert(s.sql.subrange(133, 156) =~= "ORDER BY updated_at, id"@);
    lemma_says(s.sql, "ORDER BY updated_at, id"@, 133);
    reveal_strlit("LIMIT ");
    assert(s.sql.subrange(161, 169) =~= "LIMIT "@ + "?"@ + decimal_digits(3));
    lemma_binds(s, "LIMIT "@, 3, 161);
}

/// What `claim_quality_job` asks for, by its text and the values that are bound.
pub proof fn law_claim_quality_job_says(
    id: Seq<char>,
    claimed_at: Seq<char>,
)
    ensures
        ({
            let s = claim_quality_job_spec(id, claimed_at);
            &&& says(s.sql, "UPDATE quality_embedding_jobs"@)
            &&& says(s.sql, "status = 'running'"@)
            &&& binds(s, "updated_at = "@, text(claimed_at))
            &&& binds(s, "id = "@, text(id))
            &&& says(s.sql, "status = 'pending'"@)
        }),
{
    let s = claim_quality_job_spec(id, claimed_at);
    reveal_strlit("UPDATE quality_embedding_jobs
    SET status = 'running', attempts = attempts + 1, updated_at = ?2
    WHERE id = ?1
      AND status = 'pending'");
    reveal_strlit("?");
    lemma_places();
    reveal_strlit("UPDATE quality_embedding_jobs");
    assert(s.sql.subrange(0, 29) =~= "UPDATE quality_embedding_jobs"@);
    lemma_says(s.sql, "UPDATE quality_embedding_jobs"@, 0);
    reveal_strlit("status = 'running'");
    assert(s.sql.subrange(38, 56) =~= "status = 'running'"@);
    lemma_says(s.sql, "status = 'running'"@, 38);
    reveal_strlit("updated_at = ");
    assert(s.sql.subrange(83, 98) =~= "updated_at = "@ + "?"@ + decimal_digits(2));
    lemma_binds(s, "updated_at = "@, 2, 83);
    reveal_strlit("id = ");
    assert(s.sql.subrange(109, 116) =~= "id = "@ + "?"@ + decimal_digits(1));
    lemma_binds(s, "id = "@, 1, 109);
    reveal_strlit("status = 'pending'");
    assert(s.sql.subrange(127, 145) =~= "status = 'pending'"@);
    lemma_says(s.sql, "status = 'pending'"@, 127);
}

/// What `quality_job` asks for, by its text and the values that are bound.
pub proof fn law_quality_job_says(
    id: Seq<char>,
)
    ensures
        ({
            let s = quality_job_spec(id);
            &&& binds(s, "id = "@, text(id))
        }),
{
    let s = quality_job_spec(id);
    reveal_strlit("SELECT id, repository_id, generation_id, chunk_id, file_id, path,
           content_hash, text_hash, status, attempts, error_summary,
           created_at, updated_at
    FROM quality_embedding_jobs
    WHERE id = ?1");
    reveal_strlit("?");
    lemma_places();
    reveal_strlit("id = ");
    assert(s.sql.subrange(211, 218) =~= "id = "@ + "?"@ + decimal_digits(1));
    lemma_binds(s, "id = "@, 1, 211);
}

/// What `requeue_current_terminal_quality_embedding_jobs` asks for, by its text and the values that are bound.
pub proof fn law_requeue_current_terminal_quality_embedding_jobs_says(
    repository_id: Seq<char>,
    generation_id: Seq<char>,
    requeued_at: Seq<char>,
)
    ensures
        ({
            let s = requeue_current_terminal_quality_embedding_jobs_spec(
                repository_id,
                generation_id,
                requeued_at,
            );
            &&& says(s.sql, "UPDATE quality_embedding_jobs"@)
            &&& says(s.sql, "status = 'pending'"@)
            &&& says(s.sql, "error_summary = NULL"@)
            &&& binds(s, "updated_at = "@, text(requeued_at))
            &&& binds(s, "repository_id = "@, text(repository_id))
            &&& binds(s, "generation_id = "@, text(generation_id))
            &&& says(s.sql, "status = 'skipped_stale'"@)
            &&& says(s.sql, "status = 'failed'"@)
            &&& says(s.sql, "error_summary LIKE 'SQLite error: database is locked%'"@)
            &&& says(s.sql, "fast.semantic_layer = 'fast'"@)
            &&& says(s.sql, "fast.status = 'current'"@)
            &&& says(s.sql, "quality.semantic_layer = 'quality'"@)
            &&& says(s.sql, "quality.status = 'current'"@)
        }),
{
    let s = requeue_current_terminal_quality_embedding_jobs_spec(
        repository_id,
        generation_id,
        requeued_at,
    );
    reveal_strlit("UPDATE quality_embedding_jobs
      SET status = 'pending',
          error_summary = NULL,
          updated_at = ?3
    WHERE repository_id = ?1
      AND generation_id = ?2
      AND (
          status = 'skipped_stale'
          OR (
              status = 'failed'
              AND error_summary LIKE 'SQLite error: database is locked%'
          )
      )
      AND EXISTS (
          SELECT 1
            FROM chunk_embeddings AS fast
           WHERE fast.repository_id = quality_embedding_jobs.repository_id
             AND fast.generation_id = quality_embedding_jobs.generation_id
             AND fast.file_id = quality_embedding_jobs.file_id
             AND fast.chunk_id = quality_embedding_jobs.chunk_id
             AND fast.semantic_layer = 'fast'
             AND fast.status = 'current'
             AND fast.content_hash = quality_embedding_jobs.content_hash
             AND fast.text_hash = quality_embedding_jobs.text_hash
      )
      AND NOT EXISTS (
          SELECT 1
            FROM chunk_embeddings AS quality
           WHERE quality.repository_id = quality_embedding_jobs.repository_id
             AND quality.generation_id = quality_embedding_jobs.generation_id
             AND quality.chunk_id = quality_embedding_jobs.chunk_id
             AND quality.semantic_layer = 'quality'
             AND quality.content_hash = quality_embedding_jobs.content_hash
             AND quality.text_hash = quality_embedding_jobs.text_hash
             AND quality.status = 'current'
      )");
    reveal_strlit("?");
    lemma_places();
    reveal_strlit("UPDATE quality_embedding_jobs");
    assert(s.sql.subrange(0, 29) =~= "UPDATE quality_embedding_jobs"@);
    lemma_says(s.sql, "UPDATE quality_embedding_jobs"@, 0);
    reveal_strlit("status = 'pending'");
    assert(s.sql.subrange(40, 58) =~= "status = 'pending'"@);
    lemma_says(s.sql, "status = 'pending'"@, 40);
    reveal_strlit("error_summary = NULL");
    assert(s.sql.subrange(70, 90) =~= "error_summary = NULL"@);
    lemma_says(s.sql, "error_summary = NULL"@, 70);
    reveal_strlit("updated_at = ");
    assert(s.sql.subrange(102, 117) =~= "updated_at = "@ + "?"@ + decimal_digits(3));
    lemma_binds(s, "updated_at = "@, 3, 102);
    reveal_strlit("repository_id = ");
    assert(s.sql.subrange(128, 146) =~= "repository_id = "@ + "?"@ + decimal_digits(1));
    lemma_binds(s, "repository_id = "@, 1, 128);
    reveal_strlit("generation_id = ");
    assert(s.sql.subrange(157, 175) =~= "generation_id = "@ + "?"@ + decimal_digits(2));
    lemma_binds(s, "generation_id = "@, 2, 157);
    reveal_strlit("status = 'skipped_stale'");
    assert(s.sql.subrange(198, 222) =~= "status = 'skipped_stale'"@);
    lemma_says(s.sql, "status = 'skipped_stale'"@, 198);
    reveal_strlit("status = 'failed'");
    assert(s.sql.subrange(252, 269) =~= "status = 'failed'"@);
    lemma_says(s.sql, "status = 'failed'"@, 252);
    reveal_strlit("error_summary LIKE 'SQLite error: database is locked%'");
    assert(s.sql.subrange(288, 342) =~= "error_summary LIKE 'SQLite error: database is locked%'"@);
    lemma_says(s.sql, "error_summary LIKE 'SQLite error: database is locked%'"@, 288);
    reveal_strlit("fast.semantic_layer = 'fast'");
    assert(s.sql.subrange(738, 766) =~= "fast.semantic_layer = 'fast'"@);
    lemma_says(s.sql, "fast.semantic_layer = 'fast'"@, 738);
    reveal_strlit("fast.status = 'current'");
    assert(s.sql.subrange(784, 807) =~= "fast.status = 'current'"@);
    lemma_says(s.sql, "fast.status = 'current'"@, 784);
    reveal_strlit("quality.semantic_layer = 'quality'");
    assert(s.sql.subrange(1284, 1318) =~= "quality.semantic_layer = 'quality'"@);
    lemma_says(s.sql, "quality.semantic_layer = 'quality'"@, 1284);
    reveal_strlit("quality.status = 'current'");
    assert(s.sql.subrange(1482, 1508) =~= "quality.status = 'current'"@);
    lemma_says(s.sql, "quality.status = 'current'"@, 1482);
}

/// What `quality_job_source_row` asks for, by its text and the values that are bound.
pub proof fn law_quality_job_source_row_says(
    job_id: Seq<char>,
)
    ensures
        ({
            let s = quality_job_source_row_spec(job_id);
            &&& binds(s, "jobs.id = "@, text(job_id))
        }),
{
    let s = quality_job_source_row_spec(job_id);
    reveal_strlit("SELECT jobs.id, jobs.repository_id, jobs.generation_id, jobs.chunk_id,
           jobs.file_id, jobs.path, jobs.content_hash, jobs.text_hash,
           jobs.status, jobs.attempts, jobs.error_summary,
           jobs.created_at, jobs.updated_at,
           files.id, files.content_hash, files.language,
           chunks.kind, chunks.text_hash, chunks.start_line, chunks.end_line,
           chunks.start_byte, chunks.end_byte, chunks.excluded_reason,
           chunks.symbol_id, symbols.name, chunks.index_run_id,
           chunks.parser_version
    FROM quality_embedding_jobs AS jobs
    LEFT JOIN files
      ON files.id = jobs.file_id
     AND files.repository_id = jobs.repository_id
     AND files.path = jobs.path
    LEFT JOIN chunks
      ON chunks.id = jobs.chunk_id
     AND chunks.file_id = files.id
    LEFT JOIN symbols
      ON symbols.id = chunks.symbol_id
    WHERE jobs.id = ?1");
    reveal_strlit("?");
    lemma_places();
    reveal_strlit("jobs.id = ");
    assert(s.sql.subrange(886, 898) =~= "jobs.id = "@ + "?"@ + decimal_digits(1));
    lemma_binds(s, "jobs.id = "@, 1, 886);
}

/// What `mark_quality_job_succeeded` asks for, by its text and the values that are bound.
pub proof fn law_mark_quality_job_succeeded_says(
    job_id: Seq<char>,
    completed_at: Seq<char>,
)
    ensures
        ({
            let s = mark_quality_job_succeeded_spec(job_id, completed_at);
            &&& says(s.sql, "UPDATE quality_embedding_jobs"@)
            &&& says(s.sql, "status = 'succeeded'"@)
            &&& says(s.sql, "error_summary = NULL"@)
            &&& binds(s, "updated_at = "@, text(completed_at))
            &&& binds(s, "id = "@, text(job_id))
        }),
{
    let s = mark_quality_job_succeeded_spec(job_id, completed_at);
    reveal_strlit("UPDATE quality_embedding_jobs
    SET status = 'succeeded', error_summary = NULL, updated_at = ?2
    WHERE id = ?1");
    reveal_strlit("?");
    lemma_places();
    reveal_strlit("UPDATE quality_embedding_jobs");
    assert(s.sql.subrange(0, 29) =~= "UPDATE quality_embedding_jobs"@);
    lemma_says(s.sql, "UPDATE quality_embedding_jobs"@, 0);
    reveal_strlit("status = 'succeeded'");
    assert(s.sql.subrange(38, 58) =~= "status = 'succeeded'"@);
    lemma_says(s.sql, "status = 'succeeded'"@, 38);
    reveal_strlit("error_summary = NULL");
    assert(s.sql.subrange(60, 80) =~= "error_summary = NULL"@);
    lemma_says(s.sql, "error_summary = NULL"@, 60);
    reveal_strlit("updated_at = ");
    assert(s.sql.subrange(82, 97) =~= "updated_at = "@ + "?"@ + decimal_digits(2));
    lemma_binds(s, "updated_at = "@, 2, 82);
    reveal_strlit("id = ");
    assert(s.sql.subrange(108, 115) =~= "id = "@ + "?"@ + decimal_digits(1));
    lemma_binds(s, "id = "@, 1, 108);
}

/// What `mark_quality_job_failed` asks for, by its text and the values that are bound.
pub proof fn law_mark_quality_job_failed_says(
    job_id: Seq<char>,
    error_summary: Seq<char>,
    completed_at: Seq<char>,
)
    ensures
        ({
            let s = mark_quality_job_failed_spec(job_id, error_summary, completed_at);
            &&& says(s.sql, "UPDATE quality_embedding_jobs"@)
            &&& says(s.sql, "status = 'failed'"@)
            &&& binds(s, "error_summary = "@, text(error_summary))
            &&& binds(s, "updated_at = "@, text(completed_at))
            &&& binds(s, "id = "@, text(job_id))
        }),
{
    let s = mark_quality_job_failed_spec(job_id, error_summary, completed_at);
    reveal_strlit("UPDATE quality_embedding_jobs
    SET status = 'failed', error_summary = ?2, updated_at = ?3
    WHERE id = ?1");
    reveal_strlit("?");
    lemma_places();
    reveal_strlit("UPDATE quality_embedding_jobs");
    assert(s.sql.subrange(0, 29) =~= "UPDATE quality_embedding_jobs"@);
    lemma_says(s.sql, "UPDATE quality_embedding_jobs"@, 0);
    reveal_strlit("status = 'failed'");
    assert(s.sql.subrange(38, 55) =~= "status = 'failed'"@);
    lemma_says(s.sql, "status = 'failed'"@, 38);
    reveal_strlit("error_summary = ");
    assert(s.sql.subrange(57, 75) =~= "error_summary = "@ + "?"@ + decimal_digits(2));
    lemma_binds(s, "error_summary = "@, 2, 57);
    reveal_strlit("updated_at = ");
    assert(s.sql.subrange(77, 92) =~= "updated_at = "@ + "?"@ + decimal_digits(3));
    lemma_binds(s, "updated_at = "@, 3, 77);
    reveal_strlit("id = ");
    assert(s.sql.subrange(103, 110) =~= "id = "@ + "?"@ + decimal_digits(1));
    lemma_binds(s, "id = "@, 1, 103);
}

/// What `mark_quality_job_stale` asks for, by its text and the values that are bound.
pub proof fn law_mark_quality_job_stale_says(
    job_id: Seq<char>,
    completed_at: Seq<char>,
)
    ensures
        ({
            let s = mark_quality_job_stale_spec(job_id, completed_at);
            &&& says(s.sql, "UPDATE quality_embedding_jobs"@)
            &&& says(s.sql, "status = 'skipped_stale'"@)
            &&& says(s.sql, "error_summary = NULL"@)
            &&& binds(s, "updated_at = "@, text(completed_at))
            &&& binds(s, "id = "@, text(job_id))
        }),
{
    let s = mark_quality_job_stale_spec(job_id, completed_at);
    reveal_strlit("UPDATE quality_embedding_jobs
    SET status = 'skipped_stale', error_summary = NULL, updated_at = ?2
    WHERE id = ?1");
    reveal_strlit("?");
    lemma_places();
    reveal_strlit("UPDATE quality_embedding_jobs");
    assert(s.sql.subrange(0, 29) =~= "UPDATE quality_embedding_jobs"@);
    lemma_says(s.sql, "UPDATE quality_embedding_jobs"@, 0);
    reveal_strlit("status = 'skipped_stale'");
    assert(s.sql.subrange(38, 62) =~= "status = 'skipped_stale'"@);
    lemma_says(s.sql, "status = 'skipped_stale'"@, 38);
    reveal_strlit("error_summary = NULL");
    assert(s.sql.subrange(64, 84) =~= "error_summary = NULL"@);
    lemma_says(s.sql, "error_summary = NULL"@, 64);
    reveal_strlit("updated_at = ");
    assert(s.sql.subrange(86, 101) =~= "updated_at = "@ + "?"@ + decimal_digits(2));
    lemma_binds(s, "updated_at = "@, 2, 86);
    reveal_strlit("id = ");
    assert(s.sql.subrange(112, 119) =~= "id = "@ + "?"@ + decimal_digits(1));
    lemma_binds(s, "id = "@, 1, 112);
}

/// What `mark_quality_job_excluded` asks for, by its text and the values that are bound.
pub proof fn law_mark_quality_job_excluded_says(
    job_id: Seq<char>,
    reason: Seq<char>,
    completed_at: Seq<char>,
)
    ensures
        ({
            let s = mark_quality_job_excluded_spec(job_id, reason, completed_at);
            &&& says(s.sql, "UPDATE quality_embedding_jobs"@)
            &&& says(s.sql, "status = 'skipped_excluded'"@)
            &&& binds(s, "error_summary = "@, text(reason))
            &&& binds(s, "updated_at = "@, text(completed_at))
            &&& binds(s, "id = "@, text(job_id))
        }),
{
    let s = mark_quality_job_excluded_spec(job_id, reason, completed_at);
    reveal_strlit("UPDATE quality_embedding_jobs
    SET status = 'skipped_excluded', error_summary = ?2, updated_at = ?3
    WHERE id = ?1");
    reveal_strlit("?");
    lemma_places();
    reveal_strlit("UPDATE quality_embedding_jobs");
    assert(s.sql.subrange(0, 29) =~= "UPDATE quality_embedding_jobs"@);
    lemma_says(s.sql, "UPDATE quality_embedding_jobs"@, 0);
    reveal_strlit("status = 'skipped_excluded'");
    assert(s.sql.subrange(38, 65) =~= "status = 'skipped_excluded'"@);
    lemma_says(s.sql, "status = 'skipped_excluded'"@, 38);
    reveal_strlit("error_summary = ");
    assert(s.sql.subrange(67, 85) =~= "error_summary = "@ + "?"@ + decimal_digits(2));
    lemma_binds(s, "error_summary = "@, 2, 67);
    reveal_strlit("updated_at = ");
    assert(s.sql.subrange(87, 102) =~= "updated_at = "@ + "?"@ + decimal_digits(3));
    lemma_binds(s, "updated_at = "@, 3, 87);
    reveal_strlit("id = ");
    assert(s.sql.subrange(113, 120) =~= "id = "@ + "?"@ + decimal_digits(1));
    lemma_binds(s, "id = "@, 1, 113);
}

/// What `embeddable_chunks` asks for, by its text and the values that are bound.
pub proof fn law_embeddable_chunks_says(
    repository_id: Seq<char>,
    generation_id: Seq<char>,
)
    ensures
        ({
            let s = embeddable_chunks_spec(repository_id, generation_id);
            &&& binds(s, "repository_id = "@, text(repository_id))
            &&& binds(s, "id = "@, text(generation_id))
        }),
{
    let s = embeddable_chunks_spec(repository_id, generation_id);
    reveal_strlit("SELECT embeddable_chunks
    FROM semantic_generations
    WHERE repository_id = ?1
      AND id = ?2");
    reveal_strlit("?");
    lemma_places();
    reveal_strlit("repository_id = ");
    assert(s.sql.subrange(65, 83) =~= "repository_id = "@ + "?"@ + decimal_digits(1));
    lemma_binds(s, "repository_id = "@, 1, 65);
    reveal_strlit("id = ");
    assert(s.sql.subrange(94, 101) =~= "id = "@ + "?"@ + decimal_digits(2));
    lemma_binds(s, "id = "@, 2, 94);
}

/// What `current_quality_embeddings` asks for, by its text and the values that are bound.
pub proof fn law_current_quality_embeddings_says(
    repository_id: Seq<char>,
    generation_id: Seq<char>,
)
    ensures
        ({
            let s = current_quality_embeddings_spec(repository_id, generation_id);
            &&& says(s.sql, "SELECT COUNT(*)"@)
            &&& binds(s, "quality.repository_id = "@, text(repository_id))
            &&& binds(s, "quality.generation_id = "@, text(generation_id))
            &&& says(s.sql, "quality.semantic_layer = 'quality'"@)
            &&& says(s.sql, "quality.status = 'current'"@)
            &&& says(s.sql, "fast.semantic_layer = 'fast'"@)
            &&& says(s.sql, "fast.status = 'current'"@)
        }),
{
    let s = current_quality_embeddings_spec(repository_id, generation_id);
    reveal_strlit("SELECT COUNT(*)
     FROM chunk_embeddings AS quality
    WHERE quality.repository_id = ?1
        AND quality.generation_id = ?2
        AND quality.semantic_layer = 'quality'
        AND quality.status = 'current'
        AND EXISTS (
                SELECT 1
                    FROM chunk_embeddings AS fast
                 WHERE fast.repository_id = quality.repository_id
             AND fast.generation_id = quality.generation_id
             AND fast.file_id = quality.file_id
             AND fast.chunk_id = quality.chunk_id
             AND fast.semantic_layer = 'fast'
             AND fast.status = 'current'
             AND fast.content_hash = quality.content_hash
             AND fast.text_hash = quality.text_hash
        )");
    reveal_strlit("?");
    lemma_places();
    reveal_strlit("SELECT COUNT(*)");
    assert(s.sql.subrange(0, 15) =~= "SELECT COUNT(*)"@);
    lemma_says(s.sql, "SELECT COUNT(*)"@, 0);
    reveal_strlit("quality.repository_id = ");
    assert(s.sql.subrange(64, 90) =~= "quality.repository_id = "@ + "?"@ + decimal_digits(1));
    lemma_binds(s, "quality.repository_id = "@, 1, 64);
    reveal_strlit("quality.generation_id = ");
    assert(s.sql.subrange(103, 129) =~= "quality.generation_id = "@ + "?"@ + decimal_digits(2));
    lemma_binds(s, "quality.generation_id = "@, 2, 103);
    reveal_strlit("quality.semantic_layer = 'quality'");
    assert(s.sql.subrange(142, 176) =~= "quality.semantic_layer = 'quality'"@);
    lemma_says(s.sql, "quality.semantic_layer = 'quality'"@, 142);
    reveal_strlit("quality.status = 'current'");
    assert(s.sql.subrange(189, 215) =~= "quality.status = 'current'"@);
    lemma_says(s.sql, "quality.status = 'current'"@, 189);
    reveal_strlit("fast.semantic_layer = 'fast'");
    assert(s.sql.subrange(553, 581) =~= "fast.semantic_layer = 'fast'"@);
    lemma_says(s.sql, "fast.semantic_layer = 'fast'"@, 553);
    reveal_strlit("fast.status = 'current'");
    assert(s.sql.subrange(599, 622) =~= "fast.status = 'current'"@);
    lemma_says(s.sql, "fast.status = 'current'"@, 599);
}

/// What `quality_job_counts` asks for, by its text and the values that are bound.
pub proof fn law_quality_job_counts_says(
    repository_id: Seq<char>,
    generation_id: Seq<char>,
)
    ensures
        ({
            let s = quality_job_counts_spec(repository_id, generation_id);
            &&& binds(s, "jobs.repository_id = "@, text(repository_id))
            &&& binds(s, "jobs.generation_id = "@, text(generation_id))
            &&& says(s.sql, "fast.semantic_layer = 'fast'"@)
            &&& says(s.sql, "fast.status = 'current'"@)
            &&& says(s.sql, "GROUP BY jobs.status"@)
        }),
{
    let s = quality_job_counts_spec(repository_id, generation_id);
    reveal_strlit("SELECT jobs.status, COUNT(*)
     FROM quality_embedding_jobs AS jobs
    WHERE jobs.repository_id = ?1
        AND jobs.generation_id = ?2
        AND EXISTS (
                SELECT 1
                    FROM chunk_embeddings AS fast
                 WHERE fast.repository_id = jobs.repository_id
             AND fast.generation_id = jobs.generation_id
             AND fast.file_id = jobs.file_id
             AND fast.chunk_id = jobs.chunk_id
             AND fast.semantic_layer = 'fast'
             AND fast.status = 'current'
             AND fast.content_hash = jobs.content_hash
             AND fast.text_hash = jobs.text_hash
        )
    GROUP BY jobs.status");
    reveal_strlit("?");
    lemma_places();
    reveal_strlit("jobs.repository_id = ");
    assert(s.sql.subrange(80, 103) =~= "jobs.repository_id = "@ + "?"@ + decimal_digits(1));
    lemma_binds(s, "jobs.repository_id = "@, 1, 80);
    reveal_strlit("jobs.generation_id = ");
    assert(s.sql.subrange(116, 139) =~= "jobs.generation_id = "@ + "?"@ + decimal_digits(2));
    lemma_binds(s, "jobs.generation_id = "@, 2, 116);
    reveal_strlit("fast.semantic_layer = 'fast'");
    assert(s.sql.subrange(465, 493) =~= "fast.semantic_layer = 'fast'"@);
    lemma_says(s.sql, "fast.semantic_layer = 'fast'"@, 465);
    reveal_strlit("fast.status = 'current'");
    assert(s.sql.subrange(511, 534) =~= "fast.status = 'current'"@);
    lemma_says(s.sql, "fast.status = 'current'"@, 511);
    reveal_strlit("GROUP BY jobs.status");
    assert(s.sql.subrange(653, 673) =~= "GROUP BY jobs.status"@);
    lemma_says(s.sql, "GROUP BY jobs.status"@, 653);
}

/// What `latest_quality_generation_error` asks for, by its text and the values that are bound.
pub proof fn law_latest_quality_generation_error_says(
    repository_id: Seq<char>,
    generation_id: Seq<char>,
)
    ensures
        ({
            let s = latest_quality_generation_error_spec(repository_id, generation_id);
            &&& binds(s, "repository_id = "@, text(repository_id))
            &&& binds(s, "generation_id = "@, text(generation_id))
            &&& says(s.sql, "error_summary IS NOT NULL"@)
            &&& says(s.sql, "ORDER BY updated_at DESC, id DESC"@)
            &&& says(s.sql, "LIMIT 1"@)
        }),
{
    let s = latest_quality_generation_error_spec(repository_id, generation_id);
    reveal_strlit("SELECT error_summary
    FROM quality_embedding_jobs
    WHERE repository_id = ?1
      AND generation_id = ?2
      AND error_summary IS NOT NULL
    ORDER BY updated_at DESC, id DESC
    LIMIT 1");
    reveal_strlit("?");
    lemma_places();
    reveal_strlit("repository_id = ");
    assert(s.sql.subrange(63, 81) =~= "repository_id = "@ + "?"@ + decimal_digits(1));
    lemma_binds(s, "repository_id = "@, 1, 63);
    reveal_strlit("generation_id = ");
    assert(s.sql.subrange(92, 110) =~= "generation_id = "@ + "?"@ + decimal_digits(2));
    lemma_binds(s, "generation_id = "@, 2, 92);
    reveal_strlit("error_summary IS NOT NULL");
    assert(s.sql.subrange(121, 146) =~= "error_summary IS NOT NULL"@);
    lemma_says(s.sql, "error_summary IS NOT NULL"@, 121);
    reveal_strlit("ORDER BY updated_at DESC, id DESC");
    assert(s.sql.subrange(151, 184) =~= "ORDER BY updated_at DESC, id DESC"@);
    lemma_says(s.sql, "ORDER BY updated_at DESC, id DESC"@, 151);
    reveal_strlit("LIMIT 1");
    assert(s.sql.subrange(189, 196) =~= "LIMIT 1"@);
    lemma_says(s.sql, "LIMIT 1"@, 189);
}

/// What `open_quality_jobs` asks for, by its text and the values that are bound.
pub proof fn law_open_quality_jobs_says(
    repository_id: Seq<char>,
    generation_id: Seq<char>,
)
    ensures
        ({
            let s = open_quality_jobs_spec(repository_id, generation_id);
            &&& says(s.sql, "SELECT COUNT(*)"@)
            &&& binds(s, "repository_id = "@, text(repository_id))
            &&& binds(s, "generation_id = "@, text(generation_id))
            &&& says(s.sql, "status IN ('pending', 'running')"@)
        }),
{
    let s = open_quality_jobs_spec(repository_id, generation_id);
    reveal_strlit("SELECT COUNT(*)
    FROM quality_embedding_jobs
    WHERE repository_id = ?1
      AND generation_id = ?2
      AND status IN ('pending', 'running')");
    reveal_strlit("?");
    lemma_places();
    reveal_strlit("SELECT COUNT(*)");
    assert(s.sql.subrange(0, 15) =~= "SELECT COUNT(*)"@);
    lemma_says(s.sql, "SELECT COUNT(*)"@, 0);
    reveal_strlit("repository_id = ");
    assert(s.sql.subrange(58, 76) =~= "repository_id = "@ + "?"@ + decimal_digits(1));
    lemma_binds(s, "repository_id = "@, 1, 58);
    reveal_strlit("generation_id = ");
    assert(s.sql.subrange(87, 105) =~= "generation_id = "@ + "?"@ + decimal_digits(2));
    lemma_binds(s, "generation_id = "@, 2, 87);
    reveal_strlit("status IN ('pending', 'running')");
    assert(s.sql.subrange(116, 148) =~= "status IN ('pending', 'running')"@);
    lemma_says(s.sql, "status IN ('pending', 'running')"@, 116);
}

/// What `failed_quality_jobs` asks for, by its text and the values that are bound.
pub proof fn law_failed_quality_jobs_says(
    repository_id: Seq<char>,
    generation_id: Seq<char>,
)
    ensures
        ({
            let s = failed_quality_jobs_spec(repository_id, generation_id);
            &&& says(s.sql, "SELECT COUNT(*)"@)
            &&& binds(s, "repository_id = "@, text(repository_id))
            &&& binds(s, "generation_id = "@, text(generation_id))
            &&& says(s.sql, "status = 'failed'"@)
        }),
{
    let s = failed_quality_jobs_spec(repository_id, generation_id);
    reveal_strlit("SELECT COUNT(*)
    FROM quality_embedding_jobs
    WHERE repository_id = ?1
      AND generation_id = ?2
      AND status = 'failed'");
    reveal_strlit("?");
    lemma_places();
    reveal_strlit("SELECT COUNT(*)");
    assert(s.sql.subrange(0, 15) =~= "SELECT COUNT(*)"@);
    lemma_says(s.sql, "SELECT COUNT(*)"@, 0);
    reveal_strlit("repository_id = ");
    assert(s.sql.subrange(58, 76) =~= "repository_id = "@ + "?"@ + decimal_digits(1));
    lemma_binds(s, "repository_id = "@, 1, 58);
    reveal_strlit("generation_id = ");
    assert(s.sql.subrange(87, 105) =~= "generation_id = "@ + "?"@ + decimal_digits(2));
    lemma_binds(s, "generation_id = "@, 2, 87);
    reveal_strlit("status = 'failed'");
    assert(s.sql.subrange(116, 133) =~= "status = 'failed'"@);
    lemma_says(s.sql, "status = 'failed'"@, 116);
}

/// What `update_failed_with_dimension` asks for, by its text and the values that are bound.
pub proof fn law_update_failed_with_dimension_says(
    repository_id: Seq<char>,
    generation_id: Seq<char>,
    dimension: usize,
    updated_at: Seq<char>,
    embedded: i64,
    status: Seq<char>,
)
    ensures
        ({
            let s = update_failed_with_dimension_spec(
                repository_id,
                generation_id,
                dimension,
                updated_at,
                embedded,
                status,
            );
            &&& says(s.sql, "UPDATE semantic_generations"@)
            &&& binds(s, "quality_dimension = COALESCE(quality_dimension, "@, count(dimension))
            &&& binds(s, "quality_started_at = COALESCE(quality_started_at, "@, text(updated_at))
            &&& binds(s, "quality_embedded_chunks = "@, Value::Integer(embedded as int))
            &&& binds(s, "quality_status = "@, text(status))
            &&& says(s.sql, "active_layer = 'fast'"@)
            &&& binds(s, "updated_at = "@, text(updated_at))
            &&& binds(s, "repository_id = "@, text(repository_id))
            &&& binds(s, "id = "@, text(generation_id))
        }),
{
    let s = update_failed_with_dimension_spec(
        repository_id,
        generation_id,
        dimension,
        updated_at,
        embedded,
        status,
    );
    reveal_strlit("UPDATE semantic_generations
    SET quality_dimension = COALESCE(quality_dimension, ?3),
        quality_started_at = COALESCE(quality_started_at, ?4),
        quality_embedded_chunks = ?5,
        quality_status = ?6,
        active_layer = 'fast',
        updated_at = ?4
    WHERE repository_id = ?1
      AND id = ?2");
    reveal_strlit("?");
    lemma_places();
    reveal_strlit("UPDATE semantic_generations");
    assert(s.sql.subrange(0, 27) =~= "UPDATE semantic_generations"@);
    lemma_says(s.sql, "UPDATE semantic_generations"@, 0);
    reveal_strlit("quality_dimension = COALESCE(quality_dimension, ");
    assert(s.sql.subrange(36, 86) =~= "quality_dimension = COALESCE(quality_dimension, "@ + "?"@ + decimal_digits(3));
    lemma_binds(s, "quality_dimension = COALESCE(quality_dimension, "@, 3, 36);
    reveal_strlit("quality_started_at = COALESCE(quality_started_at, ");
    assert(s.sql.subrange(97, 149) =~= "quality_started_at = COALESCE(quality_started_at, "@ + "?"@ + decimal_digits(4));
    lemma_binds(s, "quality_started_at = COALESCE(quality_started_at, "@, 4, 97);
    reveal_strlit("quality_embedded_chunks = ");
    assert(s.sql.subrange(160, 188) =~= "quality_embedded_chunks = "@ + "?"@ + decimal_digits(5));
    lemma_binds(s, "quality_embedded_chunks = "@, 5, 160);
    reveal_strlit("quality_status = ");
    assert(s.sql.subrange(198, 217) =~= "quality_status = "@ + "?"@ + decimal_digits(6));
    lemma_binds(s, "quality_status = "@, 6, 198);
    reveal_strlit("active_layer = 'fast'");
    assert(s.sql.subrange(227, 248) =~= "active_layer = 'fast'"@);
    lemma_says(s.sql, "active_layer = 'fast'"@, 227);
    reveal_strlit("updated_at = ");
    assert(s.sql.subrange(258, 273) =~= "updated_at = "@ + "?"@ + decimal_digits(4));
    lemma_binds(s, "updated_at = "@, 4, 258);
    reveal_strlit("repository_id = ");
    assert(s.sql.subrange(284, 302) =~= "repository_id = "@ + "?"@ + decimal_digits(1));
    lemma_binds(s, "repository_id = "@, 1, 284);
    reveal_strlit("id = ");
    assert(s.sql.subrange(313, 320) =~= "id = "@ + "?"@ + decimal_digits(2));
    lemma_binds(s, "id = "@, 2, 313);
}

/// What `update_with_dimension` asks for, by its text and the values that are bound.
pub proof fn law_update_with_dimension_says(
    repository_id: Seq<char>,
    generation_id: Seq<char>,
    dimension: usize,
    updated_at: Seq<char>,
    embedded: i64,
)
    ensures
        ({
            let s = update_with_dimension_spec(
                repository_id,
                generation_id,
                dimension,
                updated_at,
                embedded,
            );
            &&& says(s.sql, "UPDATE semantic_generations"@)
            &&& binds(s, "quality_dimension = COALESCE(quality_dimension, "@, count(dimension))
            &&& binds(s, "quality_started_at = COALESCE(quality_started_at, "@, text(updated_at))
            &&& binds(s, "quality_embedded_chunks = "@, Value::Integer(embedded as int))
            &&& says(s.sql, "active_layer = 'fast'"@)
            &&& binds(s, "updated_at = "@, text(updated_at))
            &&& binds(s, "repository_id = "@, text(repository_id))
            &&& binds(s, "id = "@, text(generation_id))
        }),
{
    let s = update_with_dimension_spec(
        repository_id,
        generation_id,
        dimension,
        updated_at,
        embedded,
    );
    reveal_strlit("UPDATE semantic_generations
    SET quality_dimension = COALESCE(quality_dimension, ?3),
        quality_started_at = COALESCE(quality_started_at, ?4),
        quality_embedded_chunks = ?5,
        active_layer = 'fast',
        updated_at = ?4
    WHERE repository_id = ?1
      AND id = ?2");
    reveal_strlit("?");
    lemma_places();
    reveal_strlit("UPDATE semantic_generations");
    assert(s.sql.subrange(0, 27) =~= "UPDATE semantic_generations"@);
    lemma_says(s.sql, "UPDATE semantic_generations"@, 0);
    reveal_strlit("quality_dimension = COALESCE(quality_dimension, ");
    assert(s.sql.subrange(36, 86) =~= "quality_dimension = COALESCE(quality_dimension, "@ + "?"@ + decimal_digits(3));
    lemma_binds(s, "quality_dimension = COALESCE(quality_dimension, "@, 3, 36);
    reveal_strlit("quality_started_at = COALESCE(quality_started_at, ");
    assert(s.sql.subrange(97, 149) =~= "quality_started_at = COALESCE(quality_started_at, "@ + "?"@ + decimal_digits(4));
    lemma_binds(s, "quality_started_at = COALESCE(quality_started_at, "@, 4, 97);
    reveal_strlit("quality_embedded_chunks = ");
    assert(s.sql.subrange(160, 188) =~= "quality_embedded_chunks = "@ + "?"@ + decimal_digits(5));
    lemma_binds(s, "quality_embedded_chunks = "@, 5, 160);
    reveal_strlit("active_layer = 'fast'");
    assert(s.sql.subrange(198, 219) =~= "active_layer = 'fast'"@);
    lemma_says(s.sql, "active_layer = 'fast'"@, 198);
    reveal_strlit("updated_at = ");
    assert(s.sql.subrange(229, 244) =~= "updated_at = "@ + "?"@ + decimal_digits(4));
    lemma_binds(s, "updated_at = "@, 4, 229);
    reveal_strlit("repository_id = ");
    assert(s.sql.subrange(255, 273) =~= "repository_id = "@ + "?"@ + decimal_digits(1));
    lemma_binds(s, "repository_id = "@, 1, 255);
    reveal_strlit("id = ");
    assert(s.sql.subrange(284, 291) =~= "id = "@ + "?"@ + decimal_digits(2));
    lemma_binds(s, "id = "@, 2, 284);
}

/// What `update_failed` asks for, by its text and the values that are bound.
pub proof fn law_update_failed_says(
    repository_id: Seq<char>,
    generation_id: Seq<char>,
    embedded: i64,
    status: Seq<char>,
    updated_at: Seq<char>,
)
    ensures
        ({
            let s = update_failed_spec(repository_id, generation_id, embedded, status, updated_at);
            &&& says(s.sql, "UPDATE semantic_generations"@)
            &&& binds(s, "quality_embedded_chunks = "@, Value::Integer(embedded as int))
            &&& binds(s, "quality_status = "@, text(status))
            &&& says(s.sql, "active_layer = 'fast'"@)
            &&& binds(s, "updated_at = "@, text(updated_at))
            &&& binds(s, "repository_id = "@, text(repository_id))
            &&& binds(s, "id = "@, text(generation_id))
        }),
{
    let s = update_failed_spec(repository_id, generation_id, embedded, status, updated_at);
    reveal_strlit("UPDATE semantic_generations
    SET quality_embedded_chunks = ?3,
        quality_status = ?4,
        active_layer = 'fast',
        updated_at = ?5
    WHERE repository_id = ?1
      AND id = ?2");
    reveal_strlit("?");
    lemma_places();
    reveal_strlit("UPDATE semantic_generations");
    assert(s.sql.subrange(0, 27) =~= "UPDATE semantic_generations"@);
    lemma_says(s.sql, "UPDATE semantic_generations"@, 0);
    reveal_strlit("quality_embedded_chunks = ");
    assert(s.sql.subrange(36, 64) =~= "quality_embedded_chunks = "@ + "?"@ + decimal_digits(3));
    lemma_binds(s, "quality_embedded_chunks = "@, 3, 36);
    reveal_strlit("quality_status = ");
    assert(s.sql.subrange(74, 93) =~= "quality_status = "@ + "?"@ + decimal_digits(4));
    lemma_binds(s, "quality_status = "@, 4, 74);
    reveal_strlit("active_layer = 'fast'");
    assert(s.sql.subrange(103, 124) =~= "active_layer = 'fast'"@);
    lemma_says(s.sql, "active_layer = 'fast'"@, 103);
    reveal_strlit("updated_at = ");
    assert(s.sql.subrange(134, 149) =~= "updated_at = "@ + "?"@ + decimal_digits(5));
    lemma_binds(s, "updated_at = "@, 5, 134);
    reveal_strlit("repository_id = ");
    assert(s.sql.subrange(160, 178) =~= "repository_id = "@ + "?"@ + decimal_digits(1));
    lemma_binds(s, "repository_id = "@, 1, 160);
    reveal_strlit("id = ");
    assert(s.sql.subrange(189, 196) =~= "id = "@ + "?"@ + decimal_digits(2));
    lemma_binds(s, "id = "@, 2, 189);
}

/// What `update_progress` asks for, by its text and the values that are bound.
pub proof fn law_update_progress_says(
    repository_id: Seq<char>,
    generation_id: Seq<char>,
    embedded: i64,
    updated_at: Seq<char>,
)
    ensures
        ({
            let s = update_progress_spec(repository_id, generation_id, embedded, updated_at);
            &&& says(s.sql, "UPDATE semantic_generations"@)
            &&& binds(s, "quality_embedded_chunks = "@, Value::Integer(embedded as int))
            &&& says(s.sql, "active_layer = 'fast'"@)
            &&& binds(s, "updated_at = "@, text(updated_at))
            &&& binds(s, "repository_id = "@, text(repository_id))
            &&& binds(s, "id = "@, text(generation_id))
        }),
{
    let s = update_progress_spec(repository_id, generation_id, embedded, updated_at);
    reveal_strlit("UPDATE semantic_generations
    SET quality_embedded_chunks = ?3,
        active_layer = 'fast',
        updated_at = ?4
    WHERE repository_id = ?1
      AND id = ?2");
    reveal_strlit("?");
    lemma_places();
    reveal_strlit("UPDATE semantic_generations");
    assert(s.sql.subrange(0, 27) =~= "UPDATE semantic_generations"@);
    lemma_says(s.sql, "UPDATE semantic_generations"@, 0);
    reveal_strlit("quality_embedded_chunks = ");
    assert(s.sql.subrange(36, 64) =~= "quality_embedded_chunks = "@ + "?"@ + decimal_digits(3));
    lemma_binds(s, "quality_embedded_chunks = "@, 3, 36);
    reveal_strlit("active_layer = 'fast'");
    assert(s.sql.subrange(74, 95) =~= "active_layer = 'fast'"@);
    lemma_says(s.sql, "active_layer = 'fast'"@, 74);
    reveal_strlit("updated_at = ");
    assert(s.sql.subrange(105, 120) =~= "updated_at = "@ + "?"@ + decimal_digits(4));
    lemma_binds(s, "updated_at = "@, 4, 105);
    reveal_strlit("repository_id = ");
    assert(s.sql.subrange(131, 149) =~= "repository_id = "@ + "?"@ + decimal_digits(1));
    lemma_binds(s, "repository_id = "@, 1, 131);
    reveal_strlit("id = ");
    assert(s.sql.subrange(160, 167) =~= "id = "@ + "?"@ + decimal_digits(2));
    lemma_binds(s, "id = "@, 2, 160);
}

/// What `semantic_generation` asks for, by its text and the values that are bound.
pub proof fn law_semantic_generation_says(
    repository_id: Seq<char>,
    generation_id: Seq<char>,
)
    ensures
        ({
            let s = semantic_generation_spec(repository_id, generation_id);
            &&& binds(s, "repository_id = "@, text(repository_id))
            &&& binds(s, "id = "@, text(generation_id))
        }),
{
    let s = semantic_generation_spec(repository_id, generation_id);
    reveal_strlit("SELECT id, repository_id, fast_model, fast_dimension, fast_completed_at,
           quality_model, quality_dimension, quality_status, quality_started_at,
           quality_completed_at, active_layer, files_seen, embeddable_chunks,
           fast_embedded_chunks, quality_embedded_chunks, created_at, updated_at
    FROM semantic_generations
    WHERE repository_id = ?1
      AND id = ?2");
    reveal_strlit("?");
    lemma_places();
    reveal_strlit("repository_id = ");
    assert(s.sql.subrange(353, 371) =~= "repository_id = "@ + "?"@ + decimal_digits(1));
    lemma_binds(s, "repository_id = "@, 1, 353);
    reveal_strlit("id = ");
    assert(s.sql.subrange(382, 389) =~= "id = "@ + "?"@ + decimal_digits(2));
    lemma_binds(s, "id = "@, 2, 382);
}

/// What `latest_semantic_generation_id` asks for, by its text and the values that are bound.
pub proof fn law_latest_semantic_generation_id_says(
    repository_id: Seq<char>,
)
    ensures
        ({
            let s = latest_semantic_generation_id_spec(repository_id);
            &&& binds(s, "repository_id = "@, text(repository_id))
            &&& says(s.sql, "ORDER BY fast_completed_at DESC, created_at DESC, id DESC"@)
            &&& says(s.sql, "LIMIT 1"@)
        }),
{
    let s = latest_semantic_generation_id_spec(repository_id);
    reveal_strlit("SELECT id
    FROM semantic_generations
    WHERE repository_id = ?1
    ORDER BY fast_completed_at DESC, created_at DESC, id DESC
    LIMIT 1");
    reveal_strlit("?");
    lemma_places();
    reveal_strlit("repository_id = ");
    assert(s.sql.subrange(50, 68) =~= "repository_id = "@ + "?"@ + decimal_digits(1));
    lemma_binds(s, "repository_id = "@, 1, 50);
    reveal_strlit("ORDER BY fast_completed_at DESC, created_at DESC, id DESC");
    assert(s.sql.subrange(73, 130)
        =~= "ORDER BY fast_completed_at DESC, created_at DESC, id DESC"@);
    lemma_says(s.sql, "ORDER BY fast_completed_at DESC, created_at DESC, id DESC"@, 73);
    reveal_strlit("LIMIT 1");
    assert(s.sql.subrange(135, 142) =~= "LIMIT 1"@);
    lemma_says(s.sql, "LIMIT 1"@, 135);
}

/// What `update_activation` asks for, by its text and the values that are bound.
pub proof fn law_update_activation_says(
    repository_id: Seq<char>,
    generation_id: Seq<char>,
    dimension: Option<usize>,
    updated_at: Seq<char>,
    embedded: usize,
    status: Seq<char>,
    completed_at: Option<Seq<char>>,
    layer: Seq<char>,
)
    ensures
        ({
            let s = update_activation_spec(
                repository_id,
                generation_id,
                dimension,
                updated_at,
                embedded,
                status,
                completed_at,
                layer,
            );
            &&& says(s.sql, "UPDATE semantic_generations"@)
            &&& binds(s, "quality_dimension = COALESCE(quality_dimension, "@, optional_count(dimension))
            &&& binds(s, "WHEN "@, optional_count(dimension))
            &&& says(s.sql, "3 IS NOT NULL"@)
            &&& binds(s, "THEN COALESCE(quality_started_at, "@, text(updated_at))
            &&& binds(s, "quality_embedded_chunks = "@, count(embedded))
            &&& binds(s, "quality_status = "@, text(status))
            &&& binds(s, "quality_completed_at = "@, optional(completed_at))
            &&& binds(s, "active_layer = "@, text(layer))
            &&& binds(s, "updated_at = "@, text(updated_at))
            &&& binds(s, "repository_id = "@, text(repository_id))
            &&& binds(s, "id = "@, text(generation_id))
        }),
{
    let s = update_activation_spec(
        repository_id,
        generation_id,
        dimension,
        updated_at,
        embedded,
        status,
        completed_at,
        layer,
    );
    reveal_strlit("UPDATE semantic_generations
    SET quality_dimension = COALESCE(quality_dimension, ?3),
        quality_started_at = CASE
          WHEN ?3 IS NOT NULL THEN COALESCE(quality_started_at, ?4)
          ELSE quality_started_at
        END,
        quality_embedded_chunks = ?5,
        quality_status = ?6,
        quality_completed_at = ?7,
        active_layer = ?8,
        updated_at = ?4
    WHERE repository_id = ?1
      AND id = ?2");
    reveal_strlit("?");
    lemma_places();
    reveal_strlit("UPDATE semantic_generations");
    assert(s.sql.subrange(0, 27) =~= "UPDATE semantic_generations"@);
    lemma_says(s.sql, "UPDATE semantic_generations"@, 0);
    reveal_strlit("quality_dimension = COALESCE(quality_dimension, ");
    assert(s.sql.subrange(36, 86) =~= "quality_dimension = COALESCE(quality_dimension, "@ + "?"@ + decimal_digits(3));
    lemma_binds(s, "quality_dimension = COALESCE(quality_dimension, "@, 3, 36);
    reveal_strlit("WHEN ");
    assert(s.sql.subrange(133, 140) =~= "WHEN "@ + "?"@ + decimal_digits(3));
    lemma_binds(s, "WHEN "@, 3, 133);
    reveal_strlit("3 IS NOT NULL");
    assert(s.sql.subrange(139, 152) =~= "3 IS NOT NULL"@);
    lemma_says(s.sql, "3 IS NOT NULL"@, 139);
    reveal_strlit("THEN COALESCE(quality_started_at, ");
    assert(s.sql.subrange(153, 189) =~= "THEN COALESCE(quality_started_at, "@ + "?"@ + decimal_digits(4));
    lemma_binds(s, "THEN COALESCE(quality_started_at, "@, 4, 153);
    reveal_strlit("quality_embedded_chunks = ");
    assert(s.sql.subrange(246, 274) =~= "quality_embedded_chunks = "@ + "?"@ + decimal_digits(5));
    lemma_binds(s, "quality_embedded_chunks = "@, 5, 246);
    reveal_strlit("quality_status = ");
    assert(s.sql.subrange(284, 303) =~= "quality_status = "@ + "?"@ + decimal_digits(6));
    lemma_binds(s, "quality_status = "@, 6, 284);
    reveal_strlit("quality_completed_at = ");
    assert(s.sql.subrange(313, 338) =~= "quality_completed_at = "@ + "?"@ + decimal_digits(7));
    lemma_binds(s, "quality_completed_at = "@, 7, 313);
    reveal_strlit("active_layer = ");
    assert(s.sql.subrange(348, 365) =~= "active_layer = "@ + "?"@ + decimal_digits(8));
    lemma_binds(s, "active_layer = "@, 8, 348);
    reveal_strlit("updated_at = ");
    assert(s.sql.subrange(375, 390) =~= "updated_at = "@ + "?"@ + decimal_digits(4));
    lemma_binds(s, "updated_at = "@, 4, 375);
    reveal_strlit("repository_id = ");
    assert(s.sql.subrange(401, 419) =~= "repository_id = "@ + "?"@ + decimal_digits(1));
    lemma_binds(s, "repository_id = "@, 1, 401);
    reveal_strlit("id = ");
    assert(s.sql.subrange(430, 437) =~= "id = "@ + "?"@ + decimal_digits(2));
    lemma_binds(s, "id = "@, 2, 430);
}

/// What `upsert_job` asks for, by its text and the values that are bound.
pub proof fn law_upsert_job_says(
    j: QualityEmbeddingJobRecord,
)
    ensures
        ({
            let s = upsert_job_spec(j);
            &&& says(s.sql, "INSERT INTO quality_embedding_jobs"@)
            &&& says(s.sql, "INSERT INTO quality_embedding_jobs (
      id, repository_id, generation_id, chunk_id, file_id, path,
      content_hash, text_hash, status, attempts, error_summary,
      created_at, updated_at
    )
    VALUES (?1, ?2, ?3, ?4, ?5, ?6, ?7, ?8, ?9, ?10, ?11, ?12, ?13)"@)
            &&& says(s.sql, "ON CONFLICT(repository_id, generation_id, chunk_id)"@)
            &&& says(s.sql, "UPDATE SET"@)
        }),
{
    let s = upsert_job_spec(j);
    reveal_strlit("INSERT INTO quality_embedding_jobs (
      id, repository_id, generation_id, chunk_id, file_id, path,
      content_hash, text_hash, status, attempts, error_summary,
      created_at, updated_at
    )
    VALUES (?1, ?2, ?3, ?4, ?5, ?6, ?7, ?8, ?9, ?10, ?11, ?12, ?13)
    ON CONFLICT(repository_id, generation_id, chunk_id) DO UPDATE SET
      id = excluded.id,
      file_id = excluded.file_id,
      path = excluded.path,
      content_hash = excluded.content_hash,
      text_hash = excluded.text_hash,
      status = excluded.status,
      attempts = excluded.attempts,
      error_summary = excluded.error_summary,
      updated_at = excluded.updated_at");
    reveal_strlit("INSERT INTO quality_embedding_jobs");
    assert(s.sql.subrange(0, 34) =~= "INSERT INTO quality_embedding_jobs"@);
    lemma_says(s.sql, "INSERT INTO quality_embedding_jobs"@, 0);
    reveal_strlit("INSERT INTO quality_embedding_jobs (
      id, repository_id, generation_id, chunk_id, file_id, path,
      content_hash, text_hash, status, attempts, error_summary,
      created_at, updated_at
    )
    VALUES (?1, ?2, ?3, ?4, ?5, ?6, ?7, ?8, ?9, ?10, ?11, ?12, ?13)");
    assert(s.sql.subrange(0, 268) =~= "INSERT INTO quality_embedding_jobs (
      id, repository_id, generation_id, chunk_id, file_id, path,
      content_hash, text_hash, status, attempts, error_summary,
      created_at, updated_at
    )
    VALUES (?1, ?2, ?3, ?4, ?5, ?6, ?7, ?8, ?9, ?10, ?11, ?12, ?13)"@);
    lemma_says(s.sql, "INSERT INTO quality_embedding_jobs (
      id, repository_id, generation_id, chunk_id, file_id, path,
      content_hash, text_hash, status, attempts, error_summary,
      created_at, updated_at
    )
    VALUES (?1, ?2, ?3, ?4, ?5, ?6, ?7, ?8, ?9, ?10, ?11, ?12, ?13)"@, 0);
    reveal_strlit("ON CONFLICT(repository_id, generation_id, chunk_id)");
    assert(s.sql.subrange(273, 324) =~= "ON CONFLICT(repository_id, generation_id, chunk_id)"@);
    lemma_says(s.sql, "ON CONFLICT(repository_id, generation_id, chunk_id)"@, 273);
    reveal_strlit("UPDATE SET");
    assert(s.sql.subrange(328, 338) =~= "UPDATE SET"@);
    lemma_says(s.sql, "UPDATE SET"@, 328);
}

/// What `upsert_repository` asks for, by its text and the values that are bound.
pub proof fn law_upsert_repository_says(
    repository: RepositoryRecord,
    now: Seq<char>,
)
    ensures
        ({
            let s = upsert_repository_spec(repository, now);
            &&& says(s.sql, "INSERT INTO repositories"@)
            &&& says(s.sql, "INSERT INTO repositories (id, root_path, created_at, updated_at)
    VALUES (?1, ?2, ?3, ?3)"@)
            &&& says(s.sql, "ON CONFLICT(id)"@)
            &&& says(s.sql, "UPDATE SET"@)
            &&& ({
                let columns = seq!["id"@, "root_path"@, "created_at"@, "updated_at"@];
                let stored = seq![s.params[0], s.params[1], s.params[2], s.params[2]];
                &&& stores(columns, stored, "id"@, text(repository.id@))
                &&& stores(columns, stored, "root_path"@, text(repository.root_path@))
                &&& stores(columns, stored, "created_at"@, text(now))
                &&& stores(columns, stored, "updated_at"@, text(now))
            })
        }),
{
    let s = upsert_repository_spec(repository, now);
    let columns = seq!["id"@, "root_path"@, "created_at"@, "updated_at"@];
    let stored = seq![s.params[0], s.params[1], s.params[2], s.params[2]];
    assert(columns[0] == "id"@ && stored[0] == text(repository.id@));
    assert(columns[1] == "root_path"@ && stored[1] == text(repository.root_path@));
    assert(columns[2] == "created_at"@ && stored[2] == text(now));
    assert(columns[3] == "updated_at"@ && stored[3] == text(now));
    reveal_strlit("INSERT INTO repositories (id, root_path, created_at, updated_at)
    VALUES (?1, ?2, ?3, ?3)
    ON CONFLICT(id) DO UPDATE SET
      root_path = excluded.root_path,
      updated_at = excluded.updated_at");
    reveal_strlit("INSERT INTO repositories");
    assert(s.sql.subrange(0, 24) =~= "INSERT INTO repositories"@);
    lemma_says(s.sql, "INSERT INTO repositories"@, 0);
    reveal_strlit("INSERT INTO repositories (id, root_path, created_at, updated_at)
    VALUES (?1, ?2, ?3, ?3)");
    assert(s.sql.subrange(0, 92) =~= "INSERT INTO repositories (id, root_path, created_at, updated_at)
    VALUES (?1, ?2, ?3, ?3)"@);
    lemma_says(s.sql, "INSERT INTO repositories (id, root_path, created_at, updated_at)
    VALUES (?1, ?2, ?3, ?3)"@, 0);
    reveal_strlit("ON CONFLICT(id)");
    assert(s.sql.subrange(97, 112) =~= "ON CONFLICT(id)"@);
    lemma_says(s.sql, "ON CONFLICT(id)"@, 97);
    reveal_strlit("UPDATE SET");
    assert(s.sql.subrange(116, 126) =~= "UPDATE SET"@);
    lemma_says(s.sql, "UPDATE SET"@, 116);
}

/// What `clear_current_ref` asks for, by its text and the values that are bound.
pub proof fn law_clear_current_ref_says(
    repository_id: Seq<char>,
    now: Seq<char>,
)
    ensures
        ({
            let s = clear_current_ref_spec(repository_id, now);
            &&& says(s.sql, "UPDATE repository_refs"@)
            &&& says(s.sql, "is_current = 0"@)
            &&& binds(s, "updated_at = "@, text(now))
            &&& binds(s, "repository_id = "@, text(repository_id))
        }),
{
    let s = clear_current_ref_spec(repository_id, now);
    reveal_strlit("UPDATE repository_refs
      SET is_current = 0,
          updated_at = ?2
    WHERE repository_id = ?1");
    reveal_strlit("?");
    lemma_places();
    reveal_strlit("UPDATE repository_refs");
    assert(s.sql.subrange(0, 22) =~= "UPDATE repository_refs"@);
    lemma_says(s.sql, "UPDATE repository_refs"@, 0);
    reveal_strlit("is_current = 0");
    assert(s.sql.subrange(33, 47) =~= "is_current = 0"@);
    lemma_says(s.sql, "is_current = 0"@, 33);
    reveal_strlit("updated_at = ");
    assert(s.sql.subrange(59, 74) =~= "updated_at = "@ + "?"@ + decimal_digits(2));
    lemma_binds(s, "updated_at = "@, 2, 59);
    reveal_strlit("repository_id = ");
    assert(s.sql.subrange(85, 103) =~= "repository_id = "@ + "?"@ + decimal_digits(1));
    lemma_binds(s, "repository_id = "@, 1, 85);
}

/// What `upsert_repository_ref` asks for, by its text and the values that are bound.
pub proof fn law_upsert_repository_ref_says(
    record: RepositoryRefRecord,
)
    ensures
        ({
            let s = upsert_repository_ref_spec(record);
            &&& says(s.sql, "INSERT INTO repository_refs"@)
            &&& says(s.sql, "INSERT INTO repository_refs (
      id, repository_id, ref_kind, ref_name, ref_identity, head_oid,
      is_current, last_seen_at, deleted_at, created_at, updated_at
    )
    VALUES (?1, ?2, ?3, ?4, ?5, ?6, ?7, ?8, ?9, ?10, ?11)"@)
            &&& says(s.sql, "ON CONFLICT(repository_id, ref_kind, ref_identity)"@)
            &&& says(s.sql, "UPDATE SET"@)
            &&& ({
                let columns = seq![
                    "id"@,
                    "repository_id"@,
                    "ref_kind"@,
                    "ref_name"@,
                    "ref_identity"@,
                    "head_oid"@,
                    "is_current"@,
                    "last_seen_at"@,
                    "deleted_at"@,
                    "created_at"@,
                    "updated_at"@,
                ];
                let stored = seq![
                    s.params[0],
                    s.params[1],
                    s.params[2],
                    s.params[3],
                    s.params[4],
                    s.params[5],
                    s.params[6],
                    s.params[7],
                    s.params[8],
                    s.params[9],
                    s.params[10],
                ];
                &&& stores(columns, stored, "id"@, text(record.id@))
                &&& stores(columns, stored, "repository_id"@, text(record.repository_id@))
                &&& stores(columns, stored, "ref_kind"@, text(record.ref_kind@))
                &&& stores(columns, stored, "ref_name"@, optional(optional_text(record.ref_name)))
                &&& stores(columns, stored, "ref_identity"@, text(record.ref_identity@))
                &&& stores(columns, stored, "head_oid"@, optional(optional_text(record.head_oid)))
                &&& stores(columns, stored, "is_current"@, flag(record.is_current))
                &&& stores(
                    columns,
                    stored,
                    "last_seen_at"@,
                    optional(optional_text(record.last_seen_at)),
                )
                &&& stores(
                    columns,
                    stored,
                    "deleted_at"@,
                    optional(optional_text(record.deleted_at)),
                )
                &&& stores(
                    columns,
                    stored,
                    "created_at"@,
                    optional(optional_text(record.created_at)),
                )
                &&& stores(
                    columns,
                    stored,
                    "updated_at"@,
                    optional(optional_text(record.updated_at)),
                )
            })
        }),
{
    let s = upsert_repository_ref_spec(record);
    let columns = seq![
        "id"@,
        "repository_id"@,
        "ref_kind"@,
        "ref_name"@,
        "ref_identity"@,
        "head_oid"@,
        "is_current"@,
        "last_seen_at"@,
        "deleted_at"@,
        "created_at"@,
        "updated_at"@,
    ];
    let stored = seq![
        s.params[0],
        s.params[1],
        s.params[2],
        s.params[3],
        s.params[4],
        s.params[5],
        s.params[6],
        s.params[7],
        s.params[8],
        s.params[9],
        s.params[10],
    ];
    assert(columns[0] == "id"@ && stored[0] == text(record.id@));
    assert(columns[1] == "repository_id"@ && stored[1] == text(record.repository_id@));
    assert(columns[2] == "ref_kind"@ && stored[2] == text(record.ref_kind@));
    assert(columns[3] == "ref_name"@ && stored[3] == optional(optional_text(record.ref_name)));
    assert(columns[4] == "ref_identity"@ && stored[4] == text(record.ref_identity@));
    assert(columns[5] == "head_oid"@ && stored[5] == optional(optional_text(record.head_oid)));
    assert(columns[6] == "is_current"@ && stored[6] == flag(record.is_current));
    assert(columns[7] == "last_seen_at"@ && stored[7] == optional(optional_text(record.last_seen_at)));
    assert(columns[8] == "deleted_at"@ && stored[8] == optional(optional_text(record.deleted_at)));
    assert(columns[9] == "created_at"@ && stored[9] == optional(optional_text(record.created_at)));
    assert(columns[10] == "updated_at"@ && stored[10] == optional(optional_text(record.updated_at)));
    reveal_strlit("INSERT INTO repository_refs (
      id, repository_id, ref_kind, ref_name, ref_identity, head_oid,
      is_current, last_seen_at, deleted_at, created_at, updated_at
    )
    VALUES (?1, ?2, ?3, ?4, ?5, ?6, ?7, ?8, ?9, ?10, ?11)
    ON CONFLICT(repository_id, ref_kind, ref_identity) DO UPDATE SET
      id = excluded.id,
      ref_name = excluded.ref_name,
      head_oid = COALESCE(excluded.head_oid, repository_refs.head_oid),
      is_current = excluded.is_current,
      last_seen_at = excluded.last_seen_at,
      deleted_at = excluded.deleted_at,
      updated_at = excluded.updated_at");
    reveal_strlit("INSERT INTO repository_refs");
    assert(s.sql.subrange(0, 27) =~= "INSERT INTO repository_refs"@);
    lemma_says(s.sql, "INSERT INTO repository_refs"@, 0);
    reveal_strlit("INSERT INTO repository_refs (
      id, repository_id, ref_kind, ref_name, ref_identity, head_oid,
      is_current, last_seen_at, deleted_at, created_at, updated_at
    )
    VALUES (?1, ?2, ?3, ?4, ?5, ?6, ?7, ?8, ?9, ?10, ?11)");
    assert(s.sql.subrange(0, 229) =~= "INSERT INTO repository_refs (
      id, repository_id, ref_kind, ref_name, ref_identity, head_oid,
      is_current, last_seen_at, deleted_at, created_at, updated_at
    )
    VALUES (?1, ?2, ?3, ?4, ?5, ?6, ?7, ?8, ?9, ?10, ?11)"@);
    lemma_says(s.sql, "INSERT INTO repository_refs (
      id, repository_id, ref_kind, ref_name, ref_identity, head_oid,
      is_current, last_seen_at, deleted_at, created_at, updated_at
    )
    VALUES (?1, ?2, ?3, ?4, ?5, ?6, ?7, ?8, ?9, ?10, ?11)"@, 0);
    reveal_strlit("ON CONFLICT(repository_id, ref_kind, ref_identity)");
    assert(s.sql.subrange(234, 284) =~= "ON CONFLICT(repository_id, ref_kind, ref_identity)"@);
    lemma_says(s.sql, "ON CONFLICT(repository_id, ref_kind, ref_identity)"@, 234);
    reveal_strlit("UPDATE SET");
    assert(s.sql.subrange(288, 298) =~= "UPDATE SET"@);
    lemma_says(s.sql, "UPDATE SET"@, 288);
}

/// What `known_branches` asks for, by its text and the values that are bound.
pub proof fn law_known_branches_says(
    repository_id: Seq<char>,
)
    ensures
        ({
            let s = known_branches_spec(repository_id);
            &&& binds(s, "repository_id = "@, text(repository_id))
            &&& says(s.sql, "ref_kind = 'branch'"@)
            &&& says(s.sql, "deleted_at IS NULL"@)
        }),
{
    let s = known_branches_spec(repository_id);
    reveal_strlit("SELECT id, ref_name
     FROM repository_refs
    WHERE repository_id = ?1
      AND ref_kind = 'branch'
      AND deleted_at IS NULL");
    reveal_strlit("?");
    lemma_places();
    reveal_strlit("repository_id = ");
    assert(s.sql.subrange(56, 74) =~= "repository_id = "@ + "?"@ + decimal_digits(1));
    lemma_binds(s, "repository_id = "@, 1, 56);
    reveal_strlit("ref_kind = 'branch'");
    assert(s.sql.subrange(85, 104) =~= "ref_kind = 'branch'"@);
    lemma_says(s.sql, "ref_kind = 'branch'"@, 85);
    reveal_strlit("deleted_at IS NULL");
    assert(s.sql.subrange(115, 133) =~= "deleted_at IS NULL"@);
    lemma_says(s.sql, "deleted_at IS NULL"@, 115);
}

/// What `delete_ref` asks for, by its text and the values that are bound.
pub proof fn law_delete_ref_says(
    id: Seq<char>,
    now: Seq<char>,
)
    ensures
        ({
            let s = delete_ref_spec(id, now);
            &&& says(s.sql, "UPDATE repository_refs"@)
            &&& binds(s, "deleted_at = "@, text(now))
            &&& says(s.sql, "is_current = 0"@)
            &&& binds(s, "updated_at = "@, text(now))
            &&& binds(s, "id = "@, text(id))
        }),
{
    let s = delete_ref_spec(id, now);
    reveal_strlit("UPDATE repository_refs
      SET deleted_at = ?2,
          is_current = 0,
          updated_at = ?2
    WHERE id = ?1");
    reveal_strlit("?");
    lemma_places();
    reveal_strlit("UPDATE repository_refs");
    assert(s.sql.subrange(0, 22) =~= "UPDATE repository_refs"@);
    lemma_says(s.sql, "UPDATE repository_refs"@, 0);
    reveal_strlit("deleted_at = ");
    assert(s.sql.subrange(33, 48) =~= "deleted_at = "@ + "?"@ + decimal_digits(2));
    lemma_binds(s, "deleted_at = "@, 2, 33);
    reveal_strlit("is_current = 0");
    assert(s.sql.subrange(60, 74) =~= "is_current = 0"@);
    lemma_says(s.sql, "is_current = 0"@, 60);
    reveal_strlit("updated_at = ");
    assert(s.sql.subrange(86, 101) =~= "updated_at = "@ + "?"@ + decimal_digits(2));
    lemma_binds(s, "updated_at = "@, 2, 86);
    reveal_strlit("id = ");
    assert(s.sql.subrange(112, 119) =~= "id = "@ + "?"@ + decimal_digits(1));
    lemma_binds(s, "id = "@, 1, 112);
}

/// What `current_repository_ref` asks for, by its text and the values that are bound.
pub proof fn law_current_repository_ref_says(
    repository_id: Seq<char>,
)
    ensures
        ({
            let s = current_repository_ref_spec(repository_id);
            &&& binds(s, "repository_id = "@, text(repository_id))
            &&& says(s.sql, "is_current = 1"@)
            &&& says(s.sql, "deleted_at IS NULL"@)
            &&& says(s.sql, "ORDER BY last_seen_at DESC, updated_at DESC, id DESC"@)
            &&& says(s.sql, "LIMIT 1"@)
        }),
{
    let s = current_repository_ref_spec(repository_id);
    reveal_strlit("SELECT id, repository_id, ref_kind, ref_name, ref_identity, head_oid,
          is_current, last_seen_at, deleted_at, created_at, updated_at
     FROM repository_refs
    WHERE repository_id = ?1
      AND is_current = 1
      AND deleted_at IS NULL
    ORDER BY last_seen_at DESC, updated_at DESC, id DESC
    LIMIT 1");
    reveal_strlit("?");
    lemma_places();
    reveal_strlit("repository_id = ");
    assert(s.sql.subrange(177, 195) =~= "repository_id = "@ + "?"@ + decimal_digits(1));
    lemma_binds(s, "repository_id = "@, 1, 177);
    reveal_strlit("is_current = 1");
    assert(s.sql.subrange(206, 220) =~= "is_current = 1"@);
    lemma_says(s.sql, "is_current = 1"@, 206);
    reveal_strlit("deleted_at IS NULL");
    assert(s.sql.subrange(231, 249) =~= "deleted_at IS NULL"@);
    lemma_says(s.sql, "deleted_at IS NULL"@, 231);
    reveal_strlit("ORDER BY last_seen_at DESC, updated_at DESC, id DESC");
    assert(s.sql.subrange(254, 306) =~= "ORDER BY last_seen_at DESC, updated_at DESC, id DESC"@);
    lemma_says(s.sql, "ORDER BY last_seen_at DESC, updated_at DESC, id DESC"@, 254);
    reveal_strlit("LIMIT 1");
    assert(s.sql.subrange(311, 318) =~= "LIMIT 1"@);
    lemma_says(s.sql, "LIMIT 1"@, 311);
}

/// What `latest_file_state_for_path` asks for, by its text and the values that are bound.
pub proof fn law_latest_file_state_for_path_says(
    repository_id: Seq<char>,
    path: Seq<char>,
)
    ensures
        ({
            let s = latest_file_state_for_path_spec(repository_id, path);
            &&& binds(s, "repository_id = "@, text(repository_id))
            &&& binds(s, "path = "@, text(path))
            &&& says(s.sql, "ORDER BY indexed_at DESC, index_run_id DESC, id DESC"@)
            &&& says(s.sql, "LIMIT 1"@)
        }),
{
    let s = latest_file_state_for_path_spec(repository_id, path);
    reveal_strlit("SELECT path, content_hash
     FROM files
    WHERE repository_id = ?1
      AND path = ?2
    ORDER BY indexed_at DESC, index_run_id DESC, id DESC
    LIMIT 1");
    reveal_strlit("?");
    lemma_places();
    reveal_strlit("repository_id = ");
    assert(s.sql.subrange(52, 70) =~= "repository_id = "@ + "?"@ + decimal_digits(1));
    lemma_binds(s, "repository_id = "@, 1, 52);
    reveal_strlit("path = ");
    assert(s.sql.subrange(81, 90) =~= "path = "@ + "?"@ + decimal_digits(2));
    lemma_binds(s, "path = "@, 2, 81);
    reveal_strlit("ORDER BY indexed_at DESC, index_run_id DESC, id DESC");
    assert(s.sql.subrange(95, 147) =~= "ORDER BY indexed_at DESC, index_run_id DESC, id DESC"@);
    lemma_says(s.sql, "ORDER BY indexed_at DESC, index_run_id DESC, id DESC"@, 95);
    reveal_strlit("LIMIT 1");
    assert(s.sql.subrange(152, 159) =~= "LIMIT 1"@);
    lemma_says(s.sql, "LIMIT 1"@, 152);
}

/// What `file_unchanged` asks for, by its text and the values that are bound.
pub proof fn law_file_unchanged_says(
    repository_id: Seq<char>,
    file_id: Seq<char>,
    path: Seq<char>,
    content_hash: Seq<char>,
    parser_version: Seq<char>,
)
    ensures
        ({
            let s = file_unchanged_spec(repository_id, file_id, path, content_hash, parser_version);
            &&& binds(s, "repository_id = "@, text(repository_id))
            &&& binds(s, "id = "@, text(file_id))
            &&& binds(s, "path = "@, text(path))
            &&& binds(s, "content_hash = "@, text(content_hash))
            &&& binds(s, "parser_version = "@, text(parser_version))
        }),
{
    let s = file_unchanged_spec(repository_id, file_id, path, content_hash, parser_version);
    reveal_strlit("SELECT EXISTS(
      SELECT 1
        FROM files
       WHERE repository_id = ?1
         AND id = ?2
         AND path = ?3
         AND content_hash = ?4
         AND parser_version = ?5
    )");
    reveal_strlit("?");
    lemma_places();
    reveal_strlit("repository_id = ");
    assert(s.sql.subrange(62, 80) =~= "repository_id = "@ + "?"@ + decimal_digits(1));
    lemma_binds(s, "repository_id = "@, 1, 62);
    reveal_strlit("id = ");
    assert(s.sql.subrange(94, 101) =~= "id = "@ + "?"@ + decimal_digits(2));
    lemma_binds(s, "id = "@, 2, 94);
    reveal_strlit("path = ");
    assert(s.sql.subrange(115, 124) =~= "path = "@ + "?"@ + decimal_digits(3));
    lemma_binds(s, "path = "@, 3, 115);
    reveal_strlit("content_hash = ");
    assert(s.sql.subrange(138, 155) =~= "content_hash = "@ + "?"@ + decimal_digits(4));
    lemma_binds(s, "content_hash = "@, 4, 138);
    reveal_strlit("parser_version = ");
    assert(s.sql.subrange(169, 188) =~= "parser_version = "@ + "?"@ + decimal_digits(5));
    lemma_binds(s, "parser_version = "@, 5, 169);
}

/// What `file_index_states` asks for, by its text and the values that are bound.
pub proof fn law_file_index_states_says(
    repository_id: Seq<char>,
)
    ensures
        ({
            let s = file_index_states_spec(repository_id);
            &&& binds(s, "repository_id = "@, text(repository_id))
            &&& says(s.sql, "ORDER BY path, indexed_at DESC, index_run_id DESC, id DESC"@)
        }),
{
    let s = file_index_states_spec(repository_id);
    reveal_strlit("SELECT path, content_hash
     FROM files
    WHERE repository_id = ?1
    ORDER BY path, indexed_at DESC, index_run_id DESC, id DESC");
    reveal_strlit("?");
    lemma_places();
    reveal_strlit("repository_id = ");
    assert(s.sql.subrange(52, 70) =~= "repository_id = "@ + "?"@ + decimal_digits(1));
    lemma_binds(s, "repository_id = "@, 1, 52);
    reveal_strlit("ORDER BY path, indexed_at DESC, index_run_id DESC, id DESC");
    assert(s.sql.subrange(75, 133)
        =~= "ORDER BY path, indexed_at DESC, index_run_id DESC, id DESC"@);
    lemma_says(s.sql, "ORDER BY path, indexed_at DESC, index_run_id DESC, id DESC"@, 75);
}

/// What `ref_file_index_states` asks for, by its text and the values that are bound.
pub proof fn law_ref_file_index_states_says(
    repository_ref_id: Seq<char>,
)
    ensures
        ({
            let s = ref_file_index_states_spec(repository_ref_id);
            &&& binds(s, "ref_files.repository_ref_id = "@, text(repository_ref_id))
            &&& says(s.sql, "ORDER BY ref_files.path"@)
        }),
{
    let s = ref_file_index_states_spec(repository_ref_id);
    reveal_strlit("SELECT ref_files.path, files.content_hash
     FROM ref_files
     JOIN files ON files.id = ref_files.file_id
    WHERE ref_files.repository_ref_id = ?1
    ORDER BY ref_files.path");
    reveal_strlit("?");
    lemma_places();
    reveal_strlit("ref_files.repository_ref_id = ");
    assert(s.sql.subrange(120, 152)
        =~= "ref_files.repository_ref_id = "@ + "?"@ + decimal_digits(1));
    lemma_binds(s, "ref_files.repository_ref_id = "@, 1, 120);
    reveal_strlit("ORDER BY ref_files.path");
    assert(s.sql.subrange(157, 180) =~= "ORDER BY ref_files.path"@);
    lemma_says(s.sql, "ORDER BY ref_files.path"@, 157);
}

/// What `insert_file_index_event` asks for, by its text and the values that are bound.
pub proof fn law_insert_file_index_event_says(
    event: FileIndexEventRecord,
    occurred_at: Seq<char>,
)
    ensures
        ({
            let s = insert_file_index_event_spec(event, occurred_at);
            &&& says(s.sql, "INSERT INTO file_index_events"@)
            &&& says(s.sql, "INSERT INTO file_index_events (
      id, index_run_id, repository_id, repository_ref_id, path,
      old_content_hash, new_content_hash, action, reason, status,
      error_summary, occurred_at
    )
    VALUES (?1, ?2, ?3, ?4, ?5, ?6, ?7, ?8, ?9, ?10, ?11, ?12)"@)
            &&& ({
                let columns = seq![
                    "id"@,
                    "index_run_id"@,
                    "repository_id"@,
                    "repository_ref_id"@,
                    "path"@,
                    "old_content_hash"@,
                    "new_content_hash"@,
                    "action"@,
                    "reason"@,
                    "status"@,
                    "error_summary"@,
                    "occurred_at"@,
                ];
                let stored = seq![
                    s.params[0],
                    s.params[1],
                    s.params[2],
                    s.params[3],
                    s.params[4],
                    s.params[5],
                    s.params[6],
                    s.params[7],
                    s.params[8],
                    s.params[9],
                    s.params[10],
                    s.params[11],
                ];
                &&& stores(columns, stored, "id"@, text(event.id@))
                &&& stores(columns, stored, "index_run_id"@, text(event.index_run_id@))
                &&& stores(columns, stored, "repository_id"@, text(event.repository_id@))
                &&& stores(
                    columns,
                    stored,
                    "repository_ref_id"@,
                    optional(optional_text(event.repository_ref_id)),
                )
                &&& stores(columns, stored, "path"@, text(event.path@))
                &&& stores(
                    columns,
                    stored,
                    "old_content_hash"@,
                    optional(optional_text(event.old_content_hash)),
                )
                &&& stores(
                    columns,
                    stored,
                    "new_content_hash"@,
                    optional(optional_text(event.new_content_hash)),
                )
                &&& stores(columns, stored, "action"@, text(event.action@))
                &&& stores(columns, stored, "reason"@, text(event.reason@))
                &&& stores(columns, stored, "status"@, text(event.status@))
                &&& stores(
                    columns,
                    stored,
                    "error_summary"@,
                    optional(optional_text(event.error_summary)),
                )
                &&& stores(columns, stored, "occurred_at"@, text(occurred_at))
            })
        }),
{
    let s = insert_file_index_event_spec(event, occurred_at);
    let columns = seq![
        "id"@,
        "index_run_id"@,
        "repository_id"@,
        "repository_ref_id"@,
        "path"@,
        "old_content_hash"@,
        "new_content_hash"@,
        "action"@,
        "reason"@,
        "status"@,
        "error_summary"@,
        "occurred_at"@,
    ];
    let stored = seq![
        s.params[0],
        s.params[1],
        s.params[2],
        s.params[3],
        s.params[4],
        s.params[5],
        s.params[6],
        s.params[7],
        s.params[8],
        s.params[9],
        s.params[10],
        s.params[11],
    ];
    assert(columns[0] == "id"@ && stored[0] == text(event.id@));
    assert(columns[1] == "index_run_id"@ && stored[1] == text(event.index_run_id@));
    assert(columns[2] == "repository_id"@ && stored[2] == text(event.repository_id@));
    assert(columns[3] == "repository_ref_id"@ && stored[3] == optional(optional_text(event.repository_ref_id)));
    assert(columns[4] == "path"@ && stored[4] == text(event.path@));
    assert(columns[5] == "old_content_hash"@ && stored[5] == optional(optional_text(event.old_content_hash)));
    assert(columns[6] == "new_content_hash"@ && stored[6] == optional(optional_text(event.new_content_hash)));
    assert(columns[7] == "action"@ && stored[7] == text(event.action@));
    assert(columns[8] == "reason"@ && stored[8] == text(event.reason@));
    assert(columns[9] == "status"@ && stored[9] == text(event.status@));
    assert(columns[10] == "error_summary"@ && stored[10] == optional(optional_text(event.error_summary)));
    assert(columns[11] == "occurred_at"@ && stored[11] == text(occurred_at));
    reveal_strlit("INSERT INTO file_index_events (
      id, index_run_id, repository_id, repository_ref_id, path,
      old_content_hash, new_content_hash, action, reason, status,
      error_summary, occurred_at
    )
    VALUES (?1, ?2, ?3, ?4, ?5, ?6, ?7, ?8, ?9, ?10, ?11, ?12)");
    reveal_strlit("INSERT INTO file_index_events");
    assert(s.sql.subrange(0, 29) =~= "INSERT INTO file_index_events"@);
    lemma_says(s.sql, "INSERT INTO file_index_events"@, 0);
    assert(s.sql.subrange(0, 263) =~= "INSERT INTO file_index_events (
      id, index_run_id, repository_id, repository_ref_id, path,
      old_content_hash, new_content_hash, action, reason, status,
      error_summary, occurred_at
    )
    VALUES (?1, ?2, ?3, ?4, ?5, ?6, ?7, ?8, ?9, ?10, ?11, ?12)"@);
    lemma_says(s.sql, "INSERT INTO file_index_events (
      id, index_run_id, repository_id, repository_ref_id, path,
      old_content_hash, new_content_hash, action, reason, status,
      error_summary, occurred_at
    )
    VALUES (?1, ?2, ?3, ?4, ?5, ?6, ?7, ?8, ?9, ?10, ?11, ?12)"@, 0);
}

/// What `link_file_to_ref` asks for, by its text and the values that are bound.
pub proof fn law_link_file_to_ref_says(
    repository_ref_id: Seq<char>,
    file: FileRecord,
    indexed_at: Seq<char>,
)
    ensures
        ({
            let s = link_file_to_ref_spec(repository_ref_id, file, indexed_at);
            &&& says(s.sql, "INSERT INTO ref_files"@)
            &&& says(s.sql, "INSERT INTO ref_files (
      repository_ref_id, repository_id, path, file_id, indexed_at, index_run_id
    )
    VALUES (?1, ?2, ?3, ?4, ?5, ?6)"@)
            &&& says(s.sql, "ON CONFLICT(repository_ref_id, path)"@)
            &&& says(s.sql, "UPDATE SET"@)
            &&& ({
                let columns = seq![
                    "repository_ref_id"@,
                    "repository_id"@,
                    "path"@,
                    "file_id"@,
                    "indexed_at"@,
                    "index_run_id"@,
                ];
                let stored = seq![
                    s.params[0],
                    s.params[1],
                    s.params[2],
                    s.params[3],
                    s.params[4],
                    s.params[5],
                ];
                &&& stores(columns, stored, "repository_ref_id"@, text(repository_ref_id))
                &&& stores(columns, stored, "repository_id"@, text(file.repository_id@))
                &&& stores(columns, stored, "path"@, text(file.path@))
                &&& stores(columns, stored, "file_id"@, text(file.id@))
                &&& stores(columns, stored, "indexed_at"@, text(indexed_at))
                &&& stores(columns, stored, "index_run_id"@, text(file.index_run_id@))
            })
        }),
{
    let s = link_file_to_ref_spec(repository_ref_id, file, indexed_at);
    let columns = seq![
        "repository_ref_id"@,
        "repository_id"@,
        "path"@,
        "file_id"@,
        "indexed_at"@,
        "index_run_id"@,
    ];
    let stored = seq![s.params[0], s.params[1], s.params[2], s.params[3], s.params[4], s.params[5]];
    assert(columns[0] == "repository_ref_id"@ && stored[0] == text(repository_ref_id));
    assert(columns[1] == "repository_id"@ && stored[1] == text(file.repository_id@));
    assert(columns[2] == "path"@ && stored[2] == text(file.path@));
    assert(columns[3] == "file_id"@ && stored[3] == text(file.id@));
    assert(columns[4] == "indexed_at"@ && stored[4] == text(indexed_at));
    assert(columns[5] == "index_run_id"@ && stored[5] == text(file.index_run_id@));
    reveal_strlit("INSERT INTO ref_files (
      repository_ref_id, repository_id, path, file_id, indexed_at, index_run_id
    )
    VALUES (?1, ?2, ?3, ?4, ?5, ?6)
    ON CONFLICT(repository_ref_id, path) DO UPDATE SET
      repository_id = excluded.repository_id,
      file_id = excluded.file_id,
      indexed_at = excluded.indexed_at,
      index_run_id = excluded.index_run_id");
    reveal_strlit("INSERT INTO ref_files");
    assert(s.sql.subrange(0, 21) =~= "INSERT INTO ref_files"@);
    lemma_says(s.sql, "INSERT INTO ref_files"@, 0);
    reveal_strlit("INSERT INTO ref_files (
      repository_ref_id, repository_id, path, file_id, indexed_at, index_run_id
    )
    VALUES (?1, ?2, ?3, ?4, ?5, ?6)");
    assert(s.sql.subrange(0, 145) =~= "INSERT INTO ref_files (
      repository_ref_id, repository_id, path, file_id, indexed_at, index_run_id
    )
    VALUES (?1, ?2, ?3, ?4, ?5, ?6)"@);
    lemma_says(s.sql, "INSERT INTO ref_files (
      repository_ref_id, repository_id, path, file_id, indexed_at, index_run_id
    )
    VALUES (?1, ?2, ?3, ?4, ?5, ?6)"@, 0);
    reveal_strlit("ON CONFLICT(repository_ref_id, path)");
    assert(s.sql.subrange(150, 186) =~= "ON CONFLICT(repository_ref_id, path)"@);
    lemma_says(s.sql, "ON CONFLICT(repository_ref_id, path)"@, 150);
    reveal_strlit("UPDATE SET");
    assert(s.sql.subrange(190, 200) =~= "UPDATE SET"@);
    lemma_says(s.sql, "UPDATE SET"@, 190);
}

/// What `ref_file_paths` asks for, by its text and the values that are bound.
pub proof fn law_ref_file_paths_says(
    repository_ref_id: Seq<char>,
)
    ensures
        ({
            let s = ref_file_paths_spec(repository_ref_id);
            &&& binds(s, "repository_ref_id = "@, text(repository_ref_id))
            &&& says(s.sql, "ORDER BY path"@)
        }),
{
    let s = ref_file_paths_spec(repository_ref_id);
    reveal_strlit("SELECT path
     FROM ref_files
    WHERE repository_ref_id = ?1
    ORDER BY path");
    reveal_strlit("?");
    lemma_places();
    reveal_strlit("repository_ref_id = ");
    assert(s.sql.subrange(42, 64) =~= "repository_ref_id = "@ + "?"@ + decimal_digits(1));
    lemma_binds(s, "repository_ref_id = "@, 1, 42);
    reveal_strlit("ORDER BY path");
    assert(s.sql.subrange(69, 82) =~= "ORDER BY path"@);
    lemma_says(s.sql, "ORDER BY path"@, 69);
}

/// What `file_paths` asks for, by its text and the values that are bound.
pub proof fn law_file_paths_says(
    repository_id: Seq<char>,
)
    ensures
        ({
            let s = file_paths_spec(repository_id);
            &&& binds(s, "repository_id = "@, text(repository_id))
        }),
{
    let s = file_paths_spec(repository_id);
    reveal_strlit("SELECT DISTINCT path FROM files WHERE repository_id = ?1");
    reveal_strlit("?");
    lemma_places();
    reveal_strlit("repository_id = ");
    assert(s.sql.subrange(38, 56) =~= "repository_id = "@ + "?"@ + decimal_digits(1));
    lemma_binds(s, "repository_id = "@, 1, 38);
}

/// What `upsert_branch` asks for, by its text and the values that are bound.
pub proof fn law_upsert_branch_says(
    id: Seq<char>,
    repository_id: Seq<char>,
    branch: Seq<char>,
    now: Seq<char>,
)
    ensures
        ({
            let s = upsert_branch_spec(id, repository_id, branch, now);
            &&& says(s.sql, "INSERT INTO repository_refs"@)
            &&& says(s.sql, "INSERT INTO repository_refs (
      id, repository_id, ref_kind, ref_name, ref_identity, head_oid,
      is_current, last_seen_at, deleted_at, created_at, updated_at
    )
    VALUES (?1, ?2, ?3, ?4, ?5, ?6, ?7, ?8, ?9, ?10, ?11)"@)
            &&& says(s.sql, "ON CONFLICT(repository_id, ref_kind, ref_identity)"@)
            &&& says(s.sql, "UPDATE SET"@)
            &&& ({
                let columns = seq![
                    "id"@,
                    "repository_id"@,
                    "ref_kind"@,
                    "ref_name"@,
                    "ref_identity"@,
                    "head_oid"@,
                    "is_current"@,
                    "last_seen_at"@,
                    "deleted_at"@,
                    "created_at"@,
                    "updated_at"@,
                ];
                let stored = seq![
                    s.params[0],
                    s.params[1],
                    s.params[2],
                    s.params[3],
                    s.params[4],
                    s.params[5],
                    s.params[6],
                    s.params[7],
                    s.params[8],
                    s.params[9],
                    s.params[10],
                ];
                &&& stores(columns, stored, "id"@, text(id))
                &&& stores(columns, stored, "repository_id"@, text(repository_id))
                &&& stores(columns, stored, "ref_kind"@, text(RepositoryRefKind::Branch.text()))
                &&& stores(columns, stored, "ref_name"@, text(branch))
                &&& stores(columns, stored, "ref_identity"@, text(branch))
                &&& stores(columns, stored, "head_oid"@, Value::Null)
                &&& stores(columns, stored, "is_current"@, flag(false))
                &&& stores(columns, stored, "last_seen_at"@, text(now))
                &&& stores(columns, stored, "deleted_at"@, Value::Null)
                &&& stores(columns, stored, "created_at"@, text(now))
                &&& stores(columns, stored, "updated_at"@, text(now))
            })
        }),
{
    let s = upsert_branch_spec(id, repository_id, branch, now);
    let columns = seq![
        "id"@,
        "repository_id"@,
        "ref_kind"@,
        "ref_name"@,
        "ref_identity"@,
        "head_oid"@,
        "is_current"@,
        "last_seen_at"@,
        "deleted_at"@,
        "created_at"@,
        "updated_at"@,
    ];
    let stored = seq![
        s.params[0],
        s.params[1],
        s.params[2],
        s.params[3],
        s.params[4],
        s.params[5],
        s.params[6],
        s.params[7],
        s.params[8],
        s.params[9],
        s.params[10],
    ];
    assert(columns[0] == "id"@ && stored[0] == text(id));
    assert(columns[1] == "repository_id"@ && stored[1] == text(repository_id));
    assert(columns[2] == "ref_kind"@ && stored[2] == text(RepositoryRefKind::Branch.text()));
    assert(columns[3] == "ref_name"@ && stored[3] == text(branch));
    assert(columns[4] == "ref_identity"@ && stored[4] == text(branch));
    assert(columns[5] == "head_oid"@ && stored[5] == Value::Null);
    assert(columns[6] == "is_current"@ && stored[6] == flag(false));
    assert(columns[7] == "last_seen_at"@ && stored[7] == text(now));
    assert(columns[8] == "deleted_at"@ && stored[8] == Value::Null);
    assert(columns[9] == "created_at"@ && stored[9] == text(now));
    assert(columns[10] == "updated_at"@ && stored[10] == text(now));
    reveal_strlit("INSERT INTO repository_refs (
      id, repository_id, ref_kind, ref_name, ref_identity, head_oid,
      is_current, last_seen_at, deleted_at, created_at, updated_at
    )
    VALUES (?1, ?2, ?3, ?4, ?5, ?6, ?7, ?8, ?9, ?10, ?11)
    ON CONFLICT(repository_id, ref_kind, ref_identity) DO UPDATE SET
      id = excluded.id,
      ref_name = excluded.ref_name,
      head_oid = COALESCE(excluded.head_oid, repository_refs.head_oid),
      is_current = excluded.is_current,
      last_seen_at = excluded.last_seen_at,
      deleted_at = excluded.deleted_at,
      updated_at = excluded.updated_at");
    reveal_strlit("INSERT INTO repository_refs");
    assert(s.sql.subrange(0, 27) =~= "INSERT INTO repository_refs"@);
    lemma_says(s.sql, "INSERT INTO repository_refs"@, 0);
    reveal_strlit("INSERT INTO repository_refs (
      id, repository_id, ref_kind, ref_name, ref_identity, head_oid,
      is_current, last_seen_at, deleted_at, created_at, updated_at
    )
    VALUES (?1, ?2, ?3, ?4, ?5, ?6, ?7, ?8, ?9, ?10, ?11)");
    assert(s.sql.subrange(0, 229) =~= "INSERT INTO repository_refs (
      id, repository_id, ref_kind, ref_name, ref_identity, head_oid,
      is_current, last_seen_at, deleted_at, created_at, updated_at
    )
    VALUES (?1, ?2, ?3, ?4, ?5, ?6, ?7, ?8, ?9, ?10, ?11)"@);
    lemma_says(s.sql, "INSERT INTO repository_refs (
      id, repository_id, ref_kind, ref_name, ref_identity, head_oid,
      is_current, last_seen_at, deleted_at, created_at, updated_at
    )
    VALUES (?1, ?2, ?3, ?4, ?5, ?6, ?7, ?8, ?9, ?10, ?11)"@, 0);
    reveal_strlit("ON CONFLICT(repository_id, ref_kind, ref_identity)");
    assert(s.sql.subrange(234, 284) =~= "ON CONFLICT(repository_id, ref_kind, ref_identity)"@);
    lemma_says(s.sql, "ON CONFLICT(repository_id, ref_kind, ref_identity)"@, 234);
    reveal_strlit("UPDATE SET");
    assert(s.sql.subrange(288, 298) =~= "UPDATE SET"@);
    lemma_says(s.sql, "UPDATE SET"@, 288);
}

/// What `upsert_current` asks for, by its text and the values that are bound.
pub proof fn law_upsert_current_says(
    snapshot: RepositoryRefSnapshot,
    now: Seq<char>,
)
    ensures
        ({
            let s = upsert_current_spec(snapshot, now);
            &&& says(s.sql, "INSERT INTO repository_refs"@)
            &&& says(s.sql, "INSERT INTO repository_refs (
      id, repository_id, ref_kind, ref_name, ref_identity, head_oid,
      is_current, last_seen_at, deleted_at, created_at, updated_at
    )
    VALUES (?1, ?2, ?3, ?4, ?5, ?6, ?7, ?8, ?9, ?10, ?11)"@)
            &&& says(s.sql, "ON CONFLICT(repository_id, ref_kind, ref_identity)"@)
            &&& says(s.sql, "UPDATE SET"@)
            &&& ({
                let columns = seq![
                    "id"@,
                    "repository_id"@,
                    "ref_kind"@,
                    "ref_name"@,
                    "ref_identity"@,
                    "head_oid"@,
                    "is_current"@,
                    "last_seen_at"@,
                    "deleted_at"@,
                    "created_at"@,
                    "updated_at"@,
                ];
                let stored = seq![
                    s.params[0],
                    s.params[1],
                    s.params[2],
                    s.params[3],
                    s.params[4],
                    s.params[5],
                    s.params[6],
                    s.params[7],
                    s.params[8],
                    s.params[9],
                    s.params[10],
                ];
                &&& stores(columns, stored, "id"@, text(snapshot.id@))
                &&& stores(columns, stored, "repository_id"@, text(snapshot.repository_id@))
                &&& stores(columns, stored, "ref_kind"@, text(snapshot.kind.text()))
                &&& stores(columns, stored, "ref_name"@, optional(optional_text(snapshot.name)))
                &&& stores(
                    columns,
                    stored,
                    "ref_identity"@,
                    text( identity_of( snapshot.kind, optional_text(snapshot.name), optional_text(snapshot.head_oid), ), ),
                )
                &&& stores(columns, stored, "head_oid"@, optional(optional_text(snapshot.head_oid)))
                &&& stores(columns, stored, "is_current"@, flag(true))
                &&& stores(columns, stored, "last_seen_at"@, text(now))
                &&& stores(columns, stored, "deleted_at"@, Value::Null)
                &&& stores(columns, stored, "created_at"@, text(now))
                &&& stores(columns, stored, "updated_at"@, text(now))
            })
        }),
{
    let s = upsert_current_spec(snapshot, now);
    let columns = seq![
        "id"@,
        "repository_id"@,
        "ref_kind"@,
        "ref_name"@,
        "ref_identity"@,
        "head_oid"@,
        "is_current"@,
        "last_seen_at"@,
        "deleted_at"@,
        "created_at"@,
        "updated_at"@,
    ];
    let stored = seq![
        s.params[0],
        s.params[1],
        s.params[2],
        s.params[3],
        s.params[4],
        s.params[5],
        s.params[6],
        s.params[7],
        s.params[8],
        s.params[9],
        s.params[10],
    ];
    assert(columns[0] == "id"@ && stored[0] == text(snapshot.id@));
    assert(columns[1] == "repository_id"@ && stored[1] == text(snapshot.repository_id@));
    assert(columns[2] == "ref_kind"@ && stored[2] == text(snapshot.kind.text()));
    assert(columns[3] == "ref_name"@ && stored[3] == optional(optional_text(snapshot.name)));
    assert(columns[4] == "ref_identity"@ && stored[4] == text( identity_of( snapshot.kind, optional_text(snapshot.name), optional_text(snapshot.head_oid), ), ));
    assert(columns[5] == "head_oid"@ && stored[5] == optional(optional_text(snapshot.head_oid)));
    assert(columns[6] == "is_current"@ && stored[6] == flag(true));
    assert(columns[7] == "last_seen_at"@ && stored[7] == text(now));
    assert(columns[8] == "deleted_at"@ && stored[8] == Value::Null);
    assert(columns[9] == "created_at"@ && stored[9] == text(now));
    assert(columns[10] == "updated_at"@ && stored[10] == text(now));
    reveal_strlit("INSERT INTO repository_refs (
      id, repository_id, ref_kind, ref_name, ref_identity, head_oid,
      is_current, last_seen_at, deleted_at, created_at, updated_at
    )
    VALUES (?1, ?2, ?3, ?4, ?5, ?6, ?7, ?8, ?9, ?10, ?11)
    ON CONFLICT(repository_id, ref_kind, ref_identity) DO UPDATE SET
      id = excluded.id,
      ref_name = excluded.ref_name,
      head_oid = COALESCE(excluded.head_oid, repository_refs.head_oid),
      is_current = excluded.is_current,
      last_seen_at = excluded.last_seen_at,
      deleted_at = excluded.deleted_at,
      updated_at = excluded.updated_at");
    reveal_strlit("INSERT INTO repository_refs");
    assert(s.sql.subrange(0, 27) =~= "INSERT INTO repository_refs"@);
    lemma_says(s.sql, "INSERT INTO repository_refs"@, 0);
    reveal_strlit("INSERT INTO repository_refs (
      id, repository_id, ref_kind, ref_name, ref_identity, head_oid,
      is_current, last_seen_at, deleted_at, created_at, updated_at
    )
    VALUES (?1, ?2, ?3, ?4, ?5, ?6, ?7, ?8, ?9, ?10, ?11)");
    assert(s.sql.subrange(0, 229) =~= "INSERT INTO repository_refs (
      id, repository_id, ref_kind, ref_name, ref_identity, head_oid,
      is_current, last_seen_at, deleted_at, created_at, updated_at
    )
    VALUES (?1, ?2, ?3, ?4, ?5, ?6, ?7, ?8, ?9, ?10, ?11)"@);
    lemma_says(s.sql, "INSERT INTO repository_refs (
      id, repository_id, ref_kind, ref_name, ref_identity, head_oid,
      is_current, last_seen_at, deleted_at, created_at, updated_at
    )
    VALUES (?1, ?2, ?3, ?4, ?5, ?6, ?7, ?8, ?9, ?10, ?11)"@, 0);
    reveal_strlit("ON CONFLICT(repository_id, ref_kind, ref_identity)");
    assert(s.sql.subrange(234, 284) =~= "ON CONFLICT(repository_id, ref_kind, ref_identity)"@);
    lemma_says(s.sql, "ON CONFLICT(repository_id, ref_kind, ref_identity)"@, 234);
    reveal_strlit("UPDATE SET");
    assert(s.sql.subrange(288, 298) =~= "UPDATE SET"@);
    lemma_says(s.sql, "UPDATE SET"@, 288);
}

/// What `start_index_run` asks for, by its text and the values that are bound.
pub proof fn law_start_index_run_says(
    run: IndexRunRecord,
    now: Seq<char>,
)
    ensures
        ({
            let s = start_index_run_spec(run, now);
            &&& says(s.sql, "INSERT INTO index_runs"@)
            &&& says(s.sql, "INSERT INTO index_runs (
               id, repository_id, repository_ref_id, started_at, finished_at, status, embedding_model,
     embedding_dimension, files_seen, files_indexed, chunks_embedded,
     error_summary, parser_version, indexer_version, run_kind
    )
              VALUES (?1, ?2, ?3, ?4, NULL, ?5, ?6, ?7, ?8, ?9, ?10, ?11, ?12, ?13, ?14)"@)
            &&& says(s.sql, "ON CONFLICT(id)"@)
            &&& says(s.sql, "UPDATE SET"@)
            &&& says(s.sql, "finished_at = NULL"@)
            &&& ({
                let columns = seq![
                    "id"@,
                    "repository_id"@,
                    "repository_ref_id"@,
                    "started_at"@,
                    "status"@,
                    "embedding_model"@,
                    "embedding_dimension"@,
                    "files_seen"@,
                    "files_indexed"@,
                    "chunks_embedded"@,
                    "error_summary"@,
                    "parser_version"@,
                    "indexer_version"@,
                    "run_kind"@,
                ];
                let stored = seq![
                    s.params[0],
                    s.params[1],
                    s.params[2],
                    s.params[3],
                    s.params[4],
                    s.params[5],
                    s.params[6],
                    s.params[7],
                    s.params[8],
                    s.params[9],
                    s.params[10],
                    s.params[11],
                    s.params[12],
                    s.params[13],
                ];
                &&& stores(columns, stored, "id"@, text(run.id@))
                &&& stores(columns, stored, "repository_id"@, text(run.repository_id@))
                &&& stores(
                    columns,
                    stored,
                    "repository_ref_id"@,
                    optional(optional_text(run.repository_ref_id)),
                )
                &&& stores(columns, stored, "started_at"@, text(now))
                &&& stores(columns, stored, "status"@, text(run.status@))
                &&& stores(columns, stored, "embedding_model"@, text(run.embedding_model@))
                &&& stores(
                    columns,
                    stored,
                    "embedding_dimension"@,
                    optional_count(run.embedding_dimension),
                )
                &&& stores(columns, stored, "files_seen"@, count(run.files_seen))
                &&& stores(columns, stored, "files_indexed"@, count(run.files_indexed))
                &&& stores(columns, stored, "chunks_embedded"@, count(run.chunks_embedded))
                &&& stores(
                    columns,
                    stored,
                    "error_summary"@,
                    optional(optional_text(run.error_summary)),
                )
                &&& stores(columns, stored, "parser_version"@, text(run.parser_version@))
                &&& stores(columns, stored, "indexer_version"@, text(run.indexer_version@))
                &&& stores(columns, stored, "run_kind"@, text(run.run_kind@))
            })
        }),
{
    let s = start_index_run_spec(run, now);
    let columns = seq![
        "id"@,
        "repository_id"@,
        "repository_ref_id"@,
        "started_at"@,
        "status"@,
        "embedding_model"@,
        "embedding_dimension"@,
        "files_seen"@,
        "files_indexed"@,
        "chunks_embedded"@,
        "error_summary"@,
        "parser_version"@,
        "indexer_version"@,
        "run_kind"@,
    ];
    let stored = seq![
        s.params[0],
        s.params[1],
        s.params[2],
        s.params[3],
        s.params[4],
        s.params[5],
        s.params[6],
        s.params[7],
        s.params[8],
        s.params[9],
        s.params[10],
        s.params[11],
        s.params[12],
        s.params[13],
    ];
    assert(columns[0] == "id"@ && stored[0] == text(run.id@));
    assert(columns[1] == "repository_id"@ && stored[1] == text(run.repository_id@));
    assert(columns[2] == "repository_ref_id"@ && stored[2] == optional(optional_text(run.repository_ref_id)));
    assert(columns[3] == "started_at"@ && stored[3] == text(now));
    assert(columns[4] == "status"@ && stored[4] == text(run.status@));
    assert(columns[5] == "embedding_model"@ && stored[5] == text(run.embedding_model@));
    assert(columns[6] == "embedding_dimension"@ && stored[6] == optional_count(run.embedding_dimension));
    assert(columns[7] == "files_seen"@ && stored[7] == count(run.files_seen));
    assert(columns[8] == "files_indexed"@ && stored[8] == count(run.files_indexed));
    assert(columns[9] == "chunks_embedded"@ && stored[9] == count(run.chunks_embedded));
    assert(columns[10] == "error_summary"@ && stored[10] == optional(optional_text(run.error_summary)));
    assert(columns[11] == "parser_version"@ && stored[11] == text(run.parser_version@));
    assert(columns[12] == "indexer_version"@ && stored[12] == text(run.indexer_version@));
    assert(columns[13] == "run_kind"@ && stored[13] == text(run.run_kind@));
    reveal_strlit("INSERT INTO index_runs (
               id, repository_id, repository_ref_id, started_at, finished_at, status, embedding_model,
     embedding_dimension, files_seen, files_indexed, chunks_embedded,
     error_summary, parser_version, indexer_version, run_kind
    )
              VALUES (?1, ?2, ?3, ?4, NULL, ?5, ?6, ?7, ?8, ?9, ?10, ?11, ?12, ?13, ?14)
    ON CONFLICT(id) DO UPDATE SET
                  repository_ref_id = excluded.repository_ref_id,
      started_at = excluded.started_at,
      finished_at = NULL,
      status = excluded.status,
      embedding_model = excluded.embedding_model,
      embedding_dimension = excluded.embedding_dimension,
      files_seen = excluded.files_seen,
      files_indexed = excluded.files_indexed,
      chunks_embedded = excluded.chunks_embedded,
      error_summary = excluded.error_summary,
      parser_version = excluded.parser_version,
      indexer_version = excluded.indexer_version,
      run_kind = excluded.run_kind");
    reveal_strlit("INSERT INTO index_runs");
    assert(s.sql.subrange(0, 22) =~= "INSERT INTO index_runs"@);
    lemma_says(s.sql, "INSERT INTO index_runs"@, 0);
    reveal_strlit("INSERT INTO index_runs (
               id, repository_id, repository_ref_id, started_at, finished_at, status, embedding_model,
     embedding_dimension, files_seen, files_indexed, chunks_embedded,
     error_summary, parser_version, indexer_version, run_kind
    )
              VALUES (?1, ?2, ?3, ?4, NULL, ?5, ?6, ?7, ?8, ?9, ?10, ?11, ?12, ?13, ?14)");
    assert(s.sql.subrange(0, 354) =~= "INSERT INTO index_runs (
               id, repository_id, repository_ref_id, started_at, finished_at, status, embedding_model,
     embedding_dimension, files_seen, files_indexed, chunks_embedded,
     error_summary, parser_version, indexer_version, run_kind
    )
              VALUES (?1, ?2, ?3, ?4, NULL, ?5, ?6, ?7, ?8, ?9, ?10, ?11, ?12, ?13, ?14)"@);
    lemma_says(s.sql, "INSERT INTO index_runs (
               id, repository_id, repository_ref_id, started_at, finished_at, status, embedding_model,
     embedding_dimension, files_seen, files_indexed, chunks_embedded,
     error_summary, parser_version, indexer_version, run_kind
    )
              VALUES (?1, ?2, ?3, ?4, NULL, ?5, ?6, ?7, ?8, ?9, ?10, ?11, ?12, ?13, ?14)"@, 0);
    reveal_strlit("ON CONFLICT(id)");
    assert(s.sql.subrange(359, 374) =~= "ON CONFLICT(id)"@);
    lemma_says(s.sql, "ON CONFLICT(id)"@, 359);
    reveal_strlit("UPDATE SET");
    assert(s.sql.subrange(378, 388) =~= "UPDATE SET"@);
    lemma_says(s.sql, "UPDATE SET"@, 378);
    reveal_strlit("finished_at = NULL");
    assert(s.sql.subrange(501, 519) =~= "finished_at = NULL"@);
    lemma_says(s.sql, "finished_at = NULL"@, 501);
}

/// What `finish_index_run` asks for, by its text and the values that are bound.
pub proof fn law_finish_index_run_says(
    run: IndexRunRecord,
    now: Seq<char>,
)
    ensures
        ({
            let s = finish_index_run_spec(run, now);
            &&& says(s.sql, "INSERT INTO index_runs"@)
            &&& says(s.sql, "INSERT INTO index_runs (
               id, repository_id, repository_ref_id, started_at, finished_at, status, embedding_model,
     embedding_dimension, files_seen, files_indexed, chunks_embedded,
     error_summary, parser_version, indexer_version, run_kind
    )
              VALUES (?1, ?2, ?3, ?4, ?4, ?5, ?6, ?7, ?8, ?9, ?10, ?11, ?12, ?13, ?14)"@)
            &&& says(s.sql, "ON CONFLICT(id)"@)
            &&& says(s.sql, "UPDATE SET"@)
            &&& ({
                let columns = seq![
                    "id"@,
                    "repository_id"@,
                    "repository_ref_id"@,
                    "started_at"@,
                    "finished_at"@,
                    "status"@,
                    "embedding_model"@,
                    "embedding_dimension"@,
                    "files_seen"@,
                    "files_indexed"@,
                    "chunks_embedded"@,
                    "error_summary"@,
                    "parser_version"@,
                    "indexer_version"@,
                    "run_kind"@,
                ];
                let stored = seq![
                    s.params[0],
                    s.params[1],
                    s.params[2],
                    s.params[3],
                    s.params[3],
                    s.params[4],
                    s.params[5],
                    s.params[6],
                    s.params[7],
                    s.params[8],
                    s.params[9],
                    s.params[10],
                    s.params[11],
                    s.params[12],
                    s.params[13],
                ];
                &&& stores(columns, stored, "id"@, text(run.id@))
                &&& stores(columns, stored, "repository_id"@, text(run.repository_id@))
                &&& stores(
                    columns,
                    stored,
                    "repository_ref_id"@,
                    optional(optional_text(run.repository_ref_id)),
                )
                &&& stores(columns, stored, "started_at"@, text(now))
                &&& stores(columns, stored, "finished_at"@, text(now))
                &&& stores(columns, stored, "status"@, text(run.status@))
                &&& stores(columns, stored, "embedding_model"@, text(run.embedding_model@))
                &&& stores(
                    columns,
                    stored,
                    "embedding_dimension"@,
                    optional_count(run.embedding_dimension),
                )
                &&& stores(columns, stored, "files_seen"@, count(run.files_seen))
                &&& stores(columns, stored, "files_indexed"@, count(run.files_indexed))
                &&& stores(columns, stored, "chunks_embedded"@, count(run.chunks_embedded))
                &&& stores(
                    columns,
                    stored,
                    "error_summary"@,
                    optional(optional_text(run.error_summary)),
                )
                &&& stores(columns, stored, "parser_version"@, text(run.parser_version@))
                &&& stores(columns, stored, "indexer_version"@, text(run.indexer_version@))
                &&& stores(columns, stored, "run_kind"@, text(run.run_kind@))
            })
        }),
{
    let s = finish_index_run_spec(run, now);
    let columns = seq![
        "id"@,
        "repository_id"@,
        "repository_ref_id"@,
        "started_at"@,
        "finished_at"@,
        "status"@,
        "embedding_model"@,
        "embedding_dimension"@,
        "files_seen"@,
        "files_indexed"@,
        "chunks_embedded"@,
        "error_summary"@,
        "parser_version"@,
        "indexer_version"@,
        "run_kind"@,
    ];
    let stored = seq![
        s.params[0],
        s.params[1],
        s.params[2],
        s.params[3],
        s.params[3],
        s.params[4],
        s.params[5],
        s.params[6],
        s.params[7],
        s.params[8],
        s.params[9],
        s.params[10],
        s.params[11],
        s.params[12],
        s.params[13],
    ];
    assert(columns[0] == "id"@ && stored[0] == text(run.id@));
    assert(columns[1] == "repository_id"@ && stored[1] == text(run.repository_id@));
    assert(columns[2] == "repository_ref_id"@ && stored[2] == optional(optional_text(run.repository_ref_id)));
    assert(columns[3] == "started_at"@ && stored[3] == text(now));
    assert(columns[4] == "finished_at"@ && stored[4] == text(now));
    assert(columns[5] == "status"@ && stored[5] == text(run.status@));
    assert(columns[6] == "embedding_model"@ && stored[6] == text(run.embedding_model@));
    assert(columns[7] == "embedding_dimension"@ && stored[7] == optional_count(run.embedding_dimension));
    assert(columns[8] == "files_seen"@ && stored[8] == count(run.files_seen));
    assert(columns[9] == "files_indexed"@ && stored[9] == count(run.files_indexed));
    assert(columns[10] == "chunks_embedded"@ && stored[10] == count(run.chunks_embedded));
    assert(columns[11] == "error_summary"@ && stored[11] == optional(optional_text(run.error_summary)));
    assert(columns[12] == "parser_version"@ && stored[12] == text(run.parser_version@));
    assert(columns[13] == "indexer_version"@ && stored[13] == text(run.indexer_version@));
    assert(columns[14] == "run_kind"@ && stored[14] == text(run.run_kind@));
    reveal_strlit("INSERT INTO index_runs (
               id, repository_id, repository_ref_id, started_at, finished_at, status, embedding_model,
     embedding_dimension, files_seen, files_indexed, chunks_embedded,
     error_summary, parser_version, indexer_version, run_kind
    )
              VALUES (?1, ?2, ?3, ?4, ?4, ?5, ?6, ?7, ?8, ?9, ?10, ?11, ?12, ?13, ?14)
    ON CONFLICT(id) DO UPDATE SET
                  repository_ref_id = excluded.repository_ref_id,
      finished_at = excluded.finished_at,
      status = excluded.status,
      embedding_model = excluded.embedding_model,
      embedding_dimension = excluded.embedding_dimension,
      files_seen = excluded.files_seen,
      files_indexed = excluded.files_indexed,
      chunks_embedded = excluded.chunks_embedded,
      error_summary = excluded.error_summary,
      parser_version = excluded.parser_version,
      indexer_version = excluded.indexer_version,
      run_kind = excluded.run_kind");
    reveal_strlit("INSERT INTO index_runs");
    assert(s.sql.subrange(0, 22) =~= "INSERT INTO index_runs"@);
    lemma_says(s.sql, "INSERT INTO index_runs"@, 0);
    reveal_strlit("INSERT INTO index_runs (
               id, repository_id, repository_ref_id, started_at, finished_at, status, embedding_model,
     embedding_dimension, files_seen, files_indexed, chunks_embedded,
     error_summary, parser_version, indexer_version, run_kind
    )
              VALUES (?1, ?2, ?3, ?4, ?4, ?5, ?6, ?7, ?8, ?9, ?10, ?11, ?12, ?13, ?14)");
    assert(s.sql.subrange(0, 352) =~= "INSERT INTO index_runs (
               id, repository_id, repository_ref_id, started_at, finished_at, status, embedding_model,
     embedding_dimension, files_seen, files_indexed, chunks_embedded,
     error_summary, parser_version, indexer_version, run_kind
    )
              VALUES (?1, ?2, ?3, ?4, ?4, ?5, ?6, ?7, ?8, ?9, ?10, ?11, ?12, ?13, ?14)"@);
    lemma_says(s.sql, "INSERT INTO index_runs (
               id, repository_id, repository_ref_id, started_at, finished_at, status, embedding_model,
     embedding_dimension, files_seen, files_indexed, chunks_embedded,
     error_summary, parser_version, indexer_version, run_kind
    )
              VALUES (?1, ?2, ?3, ?4, ?4, ?5, ?6, ?7, ?8, ?9, ?10, ?11, ?12, ?13, ?14)"@, 0);
    reveal_strlit("ON CONFLICT(id)");
    assert(s.sql.subrange(357, 372) =~= "ON CONFLICT(id)"@);
    lemma_says(s.sql, "ON CONFLICT(id)"@, 357);
    reveal_strlit("UPDATE SET");
    assert(s.sql.subrange(376, 386) =~= "UPDATE SET"@);
    lemma_says(s.sql, "UPDATE SET"@, 376);
}

/// What `latest_embedding_run` asks for, by its text and the values that are bound.
pub proof fn law_latest_embedding_run_says(
    repository_id: Seq<char>,
)
    ensures
        ({
            let s = latest_embedding_run_spec(repository_id);
            &&& binds(s, "repository_id = "@, text(repository_id))
            &&& says(s.sql, "status = 'success'"@)
            &&& says(s.sql, "embedding_dimension IS NOT NULL"@)
            &&& says(s.sql, "ORDER BY finished_at DESC, started_at DESC"@)
            &&& says(s.sql, "LIMIT 1"@)
        }),
{
    let s = latest_embedding_run_spec(repository_id);
    reveal_strlit("SELECT embedding_model, embedding_dimension, chunks_embedded
    FROM index_runs
    WHERE repository_id = ?1
      AND status = 'success'
      AND embedding_dimension IS NOT NULL
    ORDER BY finished_at DESC, started_at DESC
    LIMIT 1");
    reveal_strlit("?");
    lemma_places();
    reveal_strlit("repository_id = ");
    assert(s.sql.subrange(91, 109) =~= "repository_id = "@ + "?"@ + decimal_digits(1));
    lemma_binds(s, "repository_id = "@, 1, 91);
    reveal_strlit("status = 'success'");
    assert(s.sql.subrange(120, 138) =~= "status = 'success'"@);
    lemma_says(s.sql, "status = 'success'"@, 120);
    reveal_strlit("embedding_dimension IS NOT NULL");
    assert(s.sql.subrange(149, 180) =~= "embedding_dimension IS NOT NULL"@);
    lemma_says(s.sql, "embedding_dimension IS NOT NULL"@, 149);
    reveal_strlit("ORDER BY finished_at DESC, started_at DESC");
    assert(s.sql.subrange(185, 227) =~= "ORDER BY finished_at DESC, started_at DESC"@);
    lemma_says(s.sql, "ORDER BY finished_at DESC, started_at DESC"@, 185);
    reveal_strlit("LIMIT 1");
    assert(s.sql.subrange(232, 239) =~= "LIMIT 1"@);
    lemma_says(s.sql, "LIMIT 1"@, 232);
}

/// What `latest_embedding_run_for_model` asks for, by its text and the values that are bound.
pub proof fn law_latest_embedding_run_for_model_says(
    repository_id: Seq<char>,
    embedding_model: Seq<char>,
)
    ensures
        ({
            let s = latest_embedding_run_for_model_spec(repository_id, embedding_model);
            &&& binds(s, "repository_id = "@, text(repository_id))
            &&& binds(s, "embedding_model = "@, text(embedding_model))
            &&& says(s.sql, "status = 'success'"@)
            &&& says(s.sql, "embedding_dimension IS NOT NULL"@)
            &&& says(s.sql, "ORDER BY finished_at DESC, started_at DESC"@)
            &&& says(s.sql, "LIMIT 1"@)
        }),
{
    let s = latest_embedding_run_for_model_spec(repository_id, embedding_model);
    reveal_strlit("SELECT embedding_model, embedding_dimension, chunks_embedded
    FROM index_runs
    WHERE repository_id = ?1
      AND embedding_model = ?2
      AND status = 'success'
      AND embedding_dimension IS NOT NULL
    ORDER BY finished_at DESC, started_at DESC
    LIMIT 1");
    reveal_strlit("?");
    lemma_places();
    reveal_strlit("repository_id = ");
    assert(s.sql.subrange(91, 109) =~= "repository_id = "@ + "?"@ + decimal_digits(1));
    lemma_binds(s, "repository_id = "@, 1, 91);
    reveal_strlit("embedding_model = ");
    assert(s.sql.subrange(120, 140) =~= "embedding_model = "@ + "?"@ + decimal_digits(2));
    lemma_binds(s, "embedding_model = "@, 2, 120);
    reveal_strlit("status = 'success'");
    assert(s.sql.subrange(151, 169) =~= "status = 'success'"@);
    lemma_says(s.sql, "status = 'success'"@, 151);
    reveal_strlit("embedding_dimension IS NOT NULL");
    assert(s.sql.subrange(180, 211) =~= "embedding_dimension IS NOT NULL"@);
    lemma_says(s.sql, "embedding_dimension IS NOT NULL"@, 180);
    reveal_strlit("ORDER BY finished_at DESC, started_at DESC");
    assert(s.sql.subrange(216, 258) =~= "ORDER BY finished_at DESC, started_at DESC"@);
    lemma_says(s.sql, "ORDER BY finished_at DESC, started_at DESC"@, 216);
    reveal_strlit("LIMIT 1");
    assert(s.sql.subrange(263, 270) =~= "LIMIT 1"@);
    lemma_says(s.sql, "LIMIT 1"@, 263);
}

/// What `successful_embedding_dimensions` asks for, by its text and the values that are bound.
pub proof fn law_successful_embedding_dimensions_says(
    repository_id: Seq<char>,
    embedding_model: Seq<char>,
)
    ensures
        ({
            let s = successful_embedding_dimensions_spec(repository_id, embedding_model);
            &&& binds(s, "repository_id = "@, text(repository_id))
            &&& binds(s, "embedding_model = "@, text(embedding_model))
            &&& says(s.sql, "status = 'success'"@)
            &&& says(s.sql, "embedding_dimension IS NOT NULL"@)
            &&& says(s.sql, "ORDER BY embedding_dimension"@)
        }),
{
    let s = successful_embedding_dimensions_spec(repository_id, embedding_model);
    reveal_strlit("SELECT DISTINCT embedding_dimension
    FROM index_runs
    WHERE repository_id = ?1
      AND embedding_model = ?2
      AND status = 'success'
      AND embedding_dimension IS NOT NULL
    ORDER BY embedding_dimension");
    reveal_strlit("?");
    lemma_places();
    reveal_strlit("repository_id = ");
    assert(s.sql.subrange(66, 84) =~= "repository_id = "@ + "?"@ + decimal_digits(1));
    lemma_binds(s, "repository_id = "@, 1, 66);
    reveal_strlit("embedding_model = ");
    assert(s.sql.subrange(95, 115) =~= "embedding_model = "@ + "?"@ + decimal_digits(2));
    lemma_binds(s, "embedding_model = "@, 2, 95);
    reveal_strlit("status = 'success'");
    assert(s.sql.subrange(126, 144) =~= "status = 'success'"@);
    lemma_says(s.sql, "status = 'success'"@, 126);
    reveal_strlit("embedding_dimension IS NOT NULL");
    assert(s.sql.subrange(155, 186) =~= "embedding_dimension IS NOT NULL"@);
    lemma_says(s.sql, "embedding_dimension IS NOT NULL"@, 155);
    reveal_strlit("ORDER BY embedding_dimension");
    assert(s.sql.subrange(191, 219) =~= "ORDER BY embedding_dimension"@);
    lemma_says(s.sql, "ORDER BY embedding_dimension"@, 191);
}

/// What `index_runs_timeline` asks for, by its text and the values that are bound.
pub proof fn law_index_runs_timeline_says(
    repository_id: Seq<char>,
)
    ensures
        ({
            let s = index_runs_timeline_spec(repository_id);
            &&& binds(s, "repository_id = "@, text(repository_id))
            &&& says(s.sql, "ORDER BY started_at DESC, finished_at DESC, id DESC"@)
            &&& says(s.sql, "LIMIT 50"@)
        }),
{
    let s = index_runs_timeline_spec(repository_id);
    reveal_strlit("SELECT id, started_at, finished_at, status, embedding_model,
           embedding_dimension, files_seen, files_indexed,
           chunks_embedded, error_summary, run_kind
    FROM index_runs
    WHERE repository_id = ?1
    ORDER BY started_at DESC, finished_at DESC, id DESC
    LIMIT 50");
    reveal_strlit("?");
    lemma_places();
    reveal_strlit("repository_id = ");
    assert(s.sql.subrange(202, 220) =~= "repository_id = "@ + "?"@ + decimal_digits(1));
    lemma_binds(s, "repository_id = "@, 1, 202);
    reveal_strlit("ORDER BY started_at DESC, finished_at DESC, id DESC");
    assert(s.sql.subrange(225, 276) =~= "ORDER BY started_at DESC, finished_at DESC, id DESC"@);
    lemma_says(s.sql, "ORDER BY started_at DESC, finished_at DESC, id DESC"@, 225);
    reveal_strlit("LIMIT 50");
    assert(s.sql.subrange(281, 289) =~= "LIMIT 50"@);
    lemma_says(s.sql, "LIMIT 50"@, 281);
}

/// What `find_symbols` asks for, by its text and the values that are bound.
pub proof fn law_find_symbols_says(
    repository_id: Seq<char>,
    query: Seq<char>,
)
    ensures
        ({
            let s = find_symbols_spec(repository_id, query);
            &&& binds(s, "files.repository_id = "@, text(repository_id))
            &&& binds(s, "symbols.name = "@, text(query))
            &&& binds(s, "symbols.qualified_name = "@, text(query))
            &&& binds(s, "symbols.name LIKE "@, text("%"@ + query + "%"@))
            &&& binds(s, "symbols.qualified_name LIKE "@, text("%"@ + query + "%"@))
            &&& says(s.sql, "LIMIT 25"@)
        }),
{
    let s = find_symbols_spec(repository_id, query);
    reveal_strlit("SELECT symbols.id, symbols.name, symbols.qualified_name, symbols.kind,
           files.path, symbols.start_line, symbols.end_line,
           files.content_hash, symbols.index_run_id, symbols.parser_version,
           files.indexed_at
    FROM symbols
    JOIN files ON symbols.file_id = files.id
    WHERE files.repository_id = ?1
      AND (symbols.name = ?2 OR symbols.qualified_name = ?2
           OR symbols.name LIKE ?3 OR symbols.qualified_name LIKE ?3)
    ORDER BY
      CASE
        WHEN symbols.qualified_name = ?2 THEN 0
        WHEN symbols.name = ?2 THEN 1
        ELSE 2
      END,
      files.path,
      symbols.start_line
    LIMIT 25");
    reveal_strlit("?");
    lemma_places();
    reveal_strlit("files.repository_id = ");
    assert(s.sql.subrange(309, 333) =~= "files.repository_id = "@ + "?"@ + decimal_digits(1));
    lemma_binds(s, "files.repository_id = "@, 1, 309);
    reveal_strlit("symbols.name = ");
    assert(s.sql.subrange(345, 362) =~= "symbols.name = "@ + "?"@ + decimal_digits(2));
    lemma_binds(s, "symbols.name = "@, 2, 345);
    reveal_strlit("symbols.qualified_name = ");
    assert(s.sql.subrange(366, 393) =~= "symbols.qualified_name = "@ + "?"@ + decimal_digits(2));
    lemma_binds(s, "symbols.qualified_name = "@, 2, 366);
    reveal_strlit("symbols.name LIKE ");
    assert(s.sql.subrange(408, 428) =~= "symbols.name LIKE "@ + "?"@ + decimal_digits(3));
    lemma_binds(s, "symbols.name LIKE "@, 3, 408);
    reveal_strlit("symbols.qualified_name LIKE ");
    assert(s.sql.subrange(432, 462) =~= "symbols.qualified_name LIKE "@ + "?"@ + decimal_digits(3));
    lemma_binds(s, "symbols.qualified_name LIKE "@, 3, 432);
    reveal_strlit("LIMIT 25");
    assert(s.sql.subrange(647, 655) =~= "LIMIT 25"@);
    lemma_says(s.sql, "LIMIT 25"@, 647);
}

/// What `find_symbols_for_ref` asks for, by its text and the values that are bound.
pub proof fn law_find_symbols_for_ref_says(
    repository_id: Seq<char>,
    repository_ref_id: Seq<char>,
    query: Seq<char>,
)
    ensures
        ({
            let s = find_symbols_for_ref_spec(repository_id, repository_ref_id, query);
            &&& binds(s, "files.repository_id = "@, text(repository_id))
            &&& binds(s, "ref_files.repository_ref_id = "@, text(repository_ref_id))
            &&& binds(s, "symbols.name = "@, text(query))
            &&& binds(s, "symbols.qualified_name = "@, text(query))
            &&& binds(s, "symbols.name LIKE "@, text("%"@ + query + "%"@))
            &&& binds(s, "symbols.qualified_name LIKE "@, text("%"@ + query + "%"@))
            &&& says(s.sql, "LIMIT 25"@)
        }),
{
    let s = find_symbols_for_ref_spec(repository_id, repository_ref_id, query);
    reveal_strlit("SELECT symbols.id, symbols.name, symbols.qualified_name, symbols.kind,
           files.path, symbols.start_line, symbols.end_line,
           files.content_hash, symbols.index_run_id, symbols.parser_version,
           files.indexed_at
    FROM symbols
    JOIN files ON symbols.file_id = files.id
    JOIN ref_files ON ref_files.file_id = files.id
    WHERE files.repository_id = ?1
      AND ref_files.repository_ref_id = ?2
      AND (symbols.name = ?3 OR symbols.qualified_name = ?3
           OR symbols.name LIKE ?4 OR symbols.qualified_name LIKE ?4)
    ORDER BY
      CASE
        WHEN symbols.qualified_name = ?3 THEN 0
        WHEN symbols.name = ?3 THEN 1
        ELSE 2
      END,
      files.path,
      symbols.start_line
    LIMIT 25");
    reveal_strlit("?");
    lemma_places();
    reveal_strlit("files.repository_id = ");
    assert(s.sql.subrange(360, 384) =~= "files.repository_id = "@ + "?"@ + decimal_digits(1));
    lemma_binds(s, "files.repository_id = "@, 1, 360);
    reveal_strlit("ref_files.repository_ref_id = ");
    assert(s.sql.subrange(395, 427)
        =~= "ref_files.repository_ref_id = "@ + "?"@ + decimal_digits(2));
    lemma_binds(s, "ref_files.repository_ref_id = "@, 2, 395);
    reveal_strlit("symbols.name = ");
    assert(s.sql.subrange(439, 456) =~= "symbols.name = "@ + "?"@ + decimal_digits(3));
    lemma_binds(s, "symbols.name = "@, 3, 439);
    reveal_strlit("symbols.qualified_name = ");
    assert(s.sql.subrange(460, 487) =~= "symbols.qualified_name = "@ + "?"@ + decimal_digits(3));
    lemma_binds(s, "symbols.qualified_name = "@, 3, 460);
    reveal_strlit("symbols.name LIKE ");
    assert(s.sql.subrange(502, 522) =~= "symbols.name LIKE "@ + "?"@ + decimal_digits(4));
    lemma_binds(s, "symbols.name LIKE "@, 4, 502);
    reveal_strlit("symbols.qualified_name LIKE ");
    assert(s.sql.subrange(526, 556) =~= "symbols.qualified_name LIKE "@ + "?"@ + decimal_digits(4));
    lemma_binds(s, "symbols.qualified_name LIKE "@, 4, 526);
    reveal_strlit("LIMIT 25");
    assert(s.sql.subrange(741, 749) =~= "LIMIT 25"@);
    lemma_says(s.sql, "LIMIT 25"@, 741);
}

/// What `tests_matching_name` asks for, by its text and the values that are bound.
pub proof fn law_tests_matching_name_says(
    repository_id: Seq<char>,
    test_name: Seq<char>,
)
    ensures
        ({
            let s = tests_matching_name_spec(repository_id, test_name);
            &&& binds(s, "tests.repository_id = "@, text(repository_id))
            &&& binds(s, "tests.name = "@, text(test_name))
            &&& binds(s, "tests.qualified_name = "@, text(test_name))
            &&& binds(s, "tests.qualified_name LIKE "@, text("%::"@ + test_name + ""@))
            &&& says(s.sql, "LIMIT 25"@)
        }),
{
    let s = tests_matching_name_spec(repository_id, test_name);
    reveal_strlit("SELECT tests.id, tests.name, tests.qualified_name, tests.framework,
          tests.language, tests.path, tests.start_line, tests.end_line,
          files.content_hash, tests.index_run_id, tests.parser_version, tests.indexed_at
     FROM tests
     JOIN files ON tests.file_id = files.id
    WHERE tests.repository_id = ?1
      AND (tests.name = ?2 OR tests.qualified_name = ?2 OR tests.qualified_name LIKE ?3)
    ORDER BY
      CASE
        WHEN tests.qualified_name = ?2 THEN 0
        WHEN tests.name = ?2 THEN 1
        ELSE 2
      END,
      tests.path,
      tests.start_line
    LIMIT 25");
    reveal_strlit("?");
    lemma_places();
    reveal_strlit("tests.repository_id = ");
    assert(s.sql.subrange(299, 323) =~= "tests.repository_id = "@ + "?"@ + decimal_digits(1));
    lemma_binds(s, "tests.repository_id = "@, 1, 299);
    reveal_strlit("tests.name = ");
    assert(s.sql.subrange(335, 350) =~= "tests.name = "@ + "?"@ + decimal_digits(2));
    lemma_binds(s, "tests.name = "@, 2, 335);
    reveal_strlit("tests.qualified_name = ");
    assert(s.sql.subrange(354, 379) =~= "tests.qualified_name = "@ + "?"@ + decimal_digits(2));
    lemma_binds(s, "tests.qualified_name = "@, 2, 354);
    reveal_strlit("tests.qualified_name LIKE ");
    assert(s.sql.subrange(383, 411) =~= "tests.qualified_name LIKE "@ + "?"@ + decimal_digits(3));
    lemma_binds(s, "tests.qualified_name LIKE "@, 3, 383);
    reveal_strlit("LIMIT 25");
    assert(s.sql.subrange(590, 598) =~= "LIMIT 25"@);
    lemma_says(s.sql, "LIMIT 25"@, 590);
}

/// What `repository_has_ref_file_manifests` asks for, by its text and the values that are bound.
pub proof fn law_repository_has_ref_file_manifests_says(
    repository_id: Seq<char>,
)
    ensures
        ({
            let s = repository_has_ref_file_manifests_spec(repository_id);
            &&& says(s.sql, "SELECT COUNT(*)"@)
            &&& binds(s, "repository_id = "@, text(repository_id))
        }),
{
    let s = repository_has_ref_file_manifests_spec(repository_id);
    reveal_strlit("SELECT COUNT(*) FROM ref_files WHERE repository_id = ?1");
    reveal_strlit("?");
    lemma_places();
    reveal_strlit("SELECT COUNT(*)");
    assert(s.sql.subrange(0, 15) =~= "SELECT COUNT(*)"@);
    lemma_says(s.sql, "SELECT COUNT(*)"@, 0);
    reveal_strlit("repository_id = ");
    assert(s.sql.subrange(37, 55) =~= "repository_id = "@ + "?"@ + decimal_digits(1));
    lemma_binds(s, "repository_id = "@, 1, 37);
}

/// What `file_provenance` asks for, by its text and the values that are bound.
pub proof fn law_file_provenance_says(
    repository_id: Seq<char>,
    path: Seq<char>,
)
    ensures
        ({
            let s = file_provenance_spec(repository_id, path);
            &&& binds(s, "repository_id = "@, text(repository_id))
            &&& binds(s, "path = "@, text(path))
            &&& says(s.sql, "LIMIT 1"@)
        }),
{
    let s = file_provenance_spec(repository_id, path);
    reveal_strlit("SELECT content_hash, index_run_id, parser_version, indexed_at
     FROM files
    WHERE repository_id = ?1 AND path = ?2
    LIMIT 1");
    reveal_strlit("?");
    lemma_places();
    reveal_strlit("repository_id = ");
    assert(s.sql.subrange(88, 106) =~= "repository_id = "@ + "?"@ + decimal_digits(1));
    lemma_binds(s, "repository_id = "@, 1, 88);
    reveal_strlit("path = ");
    assert(s.sql.subrange(111, 120) =~= "path = "@ + "?"@ + decimal_digits(2));
    lemma_binds(s, "path = "@, 2, 111);
    reveal_strlit("LIMIT 1");
    assert(s.sql.subrange(125, 132) =~= "LIMIT 1"@);
    lemma_says(s.sql, "LIMIT 1"@, 125);
}

/// What `symbols_at_location` asks for, by its text and the values that are bound.
pub proof fn law_symbols_at_location_says(
    repository_id: Seq<char>,
    path: Seq<char>,
    line: usize,
)
    ensures
        ({
            let s = symbols_at_location_spec(repository_id, path, line);
            &&& binds(s, "files.repository_id = "@, text(repository_id))
            &&& binds(s, "files.path = "@, text(path))
            &&& binds(s, "symbols.start_line <= "@, count(line))
            &&& binds(s, "symbols.end_line >= "@, count(line))
            &&& says(s.sql, "LIMIT 10"@)
        }),
{
    let s = symbols_at_location_spec(repository_id, path, line);
    reveal_strlit("SELECT symbols.id, symbols.name, symbols.qualified_name, symbols.kind,
          files.path, symbols.start_line, symbols.end_line,
          files.content_hash, symbols.index_run_id, symbols.parser_version,
          files.indexed_at
     FROM symbols
     JOIN files ON symbols.file_id = files.id
    WHERE files.repository_id = ?1
      AND files.path = ?2
      AND symbols.start_line <= ?3
      AND symbols.end_line >= ?3
    ORDER BY (symbols.end_line - symbols.start_line), symbols.start_line, symbols.qualified_name
    LIMIT 10");
    reveal_strlit("?");
    lemma_places();
    reveal_strlit("files.repository_id = ");
    assert(s.sql.subrange(308, 332) =~= "files.repository_id = "@ + "?"@ + decimal_digits(1));
    lemma_binds(s, "files.repository_id = "@, 1, 308);
    reveal_strlit("files.path = ");
    assert(s.sql.subrange(343, 358) =~= "files.path = "@ + "?"@ + decimal_digits(2));
    lemma_binds(s, "files.path = "@, 2, 343);
    reveal_strlit("symbols.start_line <= ");
    assert(s.sql.subrange(369, 393) =~= "symbols.start_line <= "@ + "?"@ + decimal_digits(3));
    lemma_binds(s, "symbols.start_line <= "@, 3, 369);
    reveal_strlit("symbols.end_line >= ");
    assert(s.sql.subrange(404, 426) =~= "symbols.end_line >= "@ + "?"@ + decimal_digits(3));
    lemma_binds(s, "symbols.end_line >= "@, 3, 404);
    reveal_strlit("LIMIT 10");
    assert(s.sql.subrange(528, 536) =~= "LIMIT 10"@);
    lemma_says(s.sql, "LIMIT 10"@, 528);
}

/// What `calls_at_location` asks for, by its text and the values that are bound.
pub proof fn law_calls_at_location_says(
    repository_id: Seq<char>,
    path: Seq<char>,
    line: usize,
)
    ensures
        ({
            let s = calls_at_location_spec(repository_id, path, line);
            &&& binds(s, "caller_files.repository_id = "@, text(repository_id))
            &&& binds(s, "caller_files.path = "@, text(path))
            &&& binds(s, "calls.call_line = "@, count(line))
            &&& says(s.sql, "ORDER BY caller.qualified_name, calls.callee_text, calls.id"@)
            &&& says(s.sql, "LIMIT 25"@)
        }),
{
    let s = calls_at_location_spec(repository_id, path, line);
    reveal_strlit("SELECT calls.id, calls.callee_text, calls.call_line, calls.confidence,
          calls.resolution_status,
          caller.id, caller.name, caller.qualified_name, caller.kind,
          caller_files.path, caller.start_line, caller.end_line,
          callee.id, callee.name, callee.qualified_name, callee.kind,
          callee_files.path, callee.start_line, callee.end_line,
          caller_files.content_hash, calls.index_run_id, calls.parser_version,
          caller_files.indexed_at
     FROM calls
     JOIN symbols caller ON calls.caller_symbol_id = caller.id
     JOIN files caller_files ON caller.file_id = caller_files.id
     LEFT JOIN symbols callee ON calls.callee_symbol_id = callee.id
     LEFT JOIN files callee_files ON callee.file_id = callee_files.id
    WHERE caller_files.repository_id = ?1
      AND caller_files.path = ?2
      AND calls.call_line = ?3
    ORDER BY caller.qualified_name, calls.callee_text, calls.id
    LIMIT 25");
    reveal_strlit("?");
    lemma_places();
    reveal_strlit("caller_files.repository_id = ");
    assert(s.sql.subrange(781, 812)
        =~= "caller_files.repository_id = "@ + "?"@ + decimal_digits(1));
    lemma_binds(s, "caller_files.repository_id = "@, 1, 781);
    reveal_strlit("caller_files.path = ");
    assert(s.sql.subrange(823, 845) =~= "caller_files.path = "@ + "?"@ + decimal_digits(2));
    lemma_binds(s, "caller_files.path = "@, 2, 823);
    reveal_strlit("calls.call_line = ");
    assert(s.sql.subrange(856, 876) =~= "calls.call_line = "@ + "?"@ + decimal_digits(3));
    lemma_binds(s, "calls.call_line = "@, 3, 856);
    reveal_strlit("ORDER BY caller.qualified_name, calls.callee_text, calls.id");
    assert(s.sql.subrange(881, 940)
        =~= "ORDER BY caller.qualified_name, calls.callee_text, calls.id"@);
    lemma_says(s.sql, "ORDER BY caller.qualified_name, calls.callee_text, calls.id"@, 881);
    reveal_strlit("LIMIT 25");
    assert(s.sql.subrange(945, 953) =~= "LIMIT 25"@);
    lemma_says(s.sql, "LIMIT 25"@, 945);
}

/// What `callers` asks for, by its text and the values that are bound.
pub proof fn law_callers_says(
    repository_id: Seq<char>,
    symbol_query: Seq<char>,
)
    ensures
        ({
            let s = callers_spec(repository_id, symbol_query);
            &&& binds(s, "files.repository_id = "@, text(repository_id))
            &&& binds(s, "target.id = "@, text(symbol_query))
            &&& binds(s, "target.name = "@, text(symbol_query))
            &&& binds(s, "target.qualified_name = "@, text(symbol_query))
            &&& says(s.sql, "ORDER BY files.path, calls.call_line"@)
            &&& says(s.sql, "LIMIT 50"@)
        }),
{
    let s = callers_spec(repository_id, symbol_query);
    reveal_strlit("SELECT calls.callee_text, calls.call_line, calls.confidence, calls.resolution_status,
           caller.id, caller.name, caller.qualified_name, caller.kind,
           files.path, caller.start_line, caller.end_line,
           files.content_hash, calls.index_run_id, calls.parser_version,
           files.indexed_at
     FROM calls
     JOIN symbols target ON calls.callee_symbol_id = target.id
     JOIN symbols caller ON calls.caller_symbol_id = caller.id
    JOIN files ON caller.file_id = files.id
    WHERE files.repository_id = ?1
      AND (target.id = ?2 OR target.name = ?2 OR target.qualified_name = ?2)
    ORDER BY files.path, calls.call_line
    LIMIT 50");
    reveal_strlit("?");
    lemma_places();
    reveal_strlit("files.repository_id = ");
    assert(s.sql.subrange(513, 537) =~= "files.repository_id = "@ + "?"@ + decimal_digits(1));
    lemma_binds(s, "files.repository_id = "@, 1, 513);
    reveal_strlit("target.id = ");
    assert(s.sql.subrange(549, 563) =~= "target.id = "@ + "?"@ + decimal_digits(2));
    lemma_binds(s, "target.id = "@, 2, 549);
    reveal_strlit("target.name = ");
    assert(s.sql.subrange(567, 583) =~= "target.name = "@ + "?"@ + decimal_digits(2));
    lemma_binds(s, "target.name = "@, 2, 567);
    reveal_strlit("target.qualified_name = ");
    assert(s.sql.subrange(587, 613) =~= "target.qualified_name = "@ + "?"@ + decimal_digits(2));
    lemma_binds(s, "target.qualified_name = "@, 2, 587);
    reveal_strlit("ORDER BY files.path, calls.call_line");
    assert(s.sql.subrange(619, 655) =~= "ORDER BY files.path, calls.call_line"@);
    lemma_says(s.sql, "ORDER BY files.path, calls.call_line"@, 619);
    reveal_strlit("LIMIT 50");
    assert(s.sql.subrange(660, 668) =~= "LIMIT 50"@);
    lemma_says(s.sql, "LIMIT 50"@, 660);
}

/// What `callers_for_ref` asks for, by its text and the values that are bound.
pub proof fn law_callers_for_ref_says(
    repository_id: Seq<char>,
    repository_ref_id: Seq<char>,
    symbol_query: Seq<char>,
)
    ensures
        ({
            let s = callers_for_ref_spec(repository_id, repository_ref_id, symbol_query);
            &&& binds(s, "caller_files.repository_id = "@, text(repository_id))
            &&& binds(s, "target_ref.repository_ref_id = "@, text(repository_ref_id))
            &&& binds(s, "caller_ref.repository_ref_id = "@, text(repository_ref_id))
            &&& binds(s, "target.id = "@, text(symbol_query))
            &&& binds(s, "target.name = "@, text(symbol_query))
            &&& binds(s, "target.qualified_name = "@, text(symbol_query))
            &&& says(s.sql, "ORDER BY caller_files.path, calls.call_line"@)
            &&& says(s.sql, "LIMIT 50"@)
        }),
{
    let s = callers_for_ref_spec(repository_id, repository_ref_id, symbol_query);
    reveal_strlit("SELECT calls.callee_text, calls.call_line, calls.confidence, calls.resolution_status,
           caller.id, caller.name, caller.qualified_name, caller.kind,
           caller_files.path, caller.start_line, caller.end_line,
           caller_files.content_hash, calls.index_run_id, calls.parser_version,
           caller_files.indexed_at
     FROM calls
     JOIN symbols target ON calls.callee_symbol_id = target.id
     JOIN files target_files ON target.file_id = target_files.id
     JOIN ref_files target_ref ON target_ref.file_id = target_files.id
     JOIN symbols caller ON calls.caller_symbol_id = caller.id
     JOIN files caller_files ON caller.file_id = caller_files.id
     JOIN ref_files caller_ref ON caller_ref.file_id = caller_files.id
    WHERE caller_files.repository_id = ?1
      AND target_ref.repository_ref_id = ?2
      AND caller_ref.repository_ref_id = ?2
      AND (target.id = ?3 OR target.name = ?3 OR target.qualified_name = ?3)
    ORDER BY caller_files.path, calls.call_line
    LIMIT 50");
    reveal_strlit("?");
    lemma_places();
    reveal_strlit("caller_files.repository_id = ");
    assert(s.sql.subrange(762, 793)
        =~= "caller_files.repository_id = "@ + "?"@ + decimal_digits(1));
    lemma_binds(s, "caller_files.repository_id = "@, 1, 762);
    reveal_strlit("target_ref.repository_ref_id = ");
    assert(s.sql.subrange(804, 837)
        =~= "target_ref.repository_ref_id = "@ + "?"@ + decimal_digits(2));
    lemma_binds(s, "target_ref.repository_ref_id = "@, 2, 804);
    reveal_strlit("caller_ref.repository_ref_id = ");
    assert(s.sql.subrange(848, 881)
        =~= "caller_ref.repository_ref_id = "@ + "?"@ + decimal_digits(2));
    lemma_binds(s, "caller_ref.repository_ref_id = "@, 2, 848);
    reveal_strlit("target.id = ");
    assert(s.sql.subrange(893, 907) =~= "target.id = "@ + "?"@ + decimal_digits(3));
    lemma_binds(s, "target.id = "@, 3, 893);
    reveal_strlit("target.name = ");
    assert(s.sql.subrange(911, 927) =~= "target.name = "@ + "?"@ + decimal_digits(3));
    lemma_binds(s, "target.name = "@, 3, 911);
    reveal_strlit("target.qualified_name = ");
    assert(s.sql.subrange(931, 957) =~= "target.qualified_name = "@ + "?"@ + decimal_digits(3));
    lemma_binds(s, "target.qualified_name = "@, 3, 931);
    reveal_strlit("ORDER BY caller_files.path, calls.call_line");
    assert(s.sql.subrange(963, 1006) =~= "ORDER BY caller_files.path, calls.call_line"@);
    lemma_says(s.sql, "ORDER BY caller_files.path, calls.call_line"@, 963);
    reveal_strlit("LIMIT 50");
    assert(s.sql.subrange(1011, 1019) =~= "LIMIT 50"@);
    lemma_says(s.sql, "LIMIT 50"@, 1011);
}

/// What `callees` asks for, by its text and the values that are bound.
pub proof fn law_callees_says(
    repository_id: Seq<char>,
    symbol_query: Seq<char>,
)
    ensures
        ({
            let s = callees_spec(repository_id, symbol_query);
            &&& binds(s, "files.repository_id = "@, text(repository_id))
            &&& binds(s, "caller.id = "@, text(symbol_query))
            &&& binds(s, "caller.name = "@, text(symbol_query))
            &&& binds(s, "caller.qualified_name = "@, text(symbol_query))
            &&& says(s.sql, "ORDER BY calls.call_line, calls.callee_text"@)
            &&& says(s.sql, "LIMIT 50"@)
        }),
{
    let s = callees_spec(repository_id, symbol_query);
    reveal_strlit("SELECT calls.callee_text, calls.call_line, calls.confidence, calls.resolution_status,
           callee.id, callee.name, callee.qualified_name, callee.kind,
           files.path, callee.start_line, callee.end_line,
           files.content_hash, calls.index_run_id, calls.parser_version,
           files.indexed_at
     FROM calls
     JOIN symbols caller ON calls.caller_symbol_id = caller.id
     LEFT JOIN symbols callee ON calls.callee_symbol_id = callee.id
    JOIN files ON caller.file_id = files.id
    WHERE files.repository_id = ?1
      AND (caller.id = ?2 OR caller.name = ?2 OR caller.qualified_name = ?2)
    ORDER BY calls.call_line, calls.callee_text
    LIMIT 50");
    reveal_strlit("?");
    lemma_places();
    reveal_strlit("files.repository_id = ");
    assert(s.sql.subrange(518, 542) =~= "files.repository_id = "@ + "?"@ + decimal_digits(1));
    lemma_binds(s, "files.repository_id = "@, 1, 518);
    reveal_strlit("caller.id = ");
    assert(s.sql.subrange(554, 568) =~= "caller.id = "@ + "?"@ + decimal_digits(2));
    lemma_binds(s, "caller.id = "@, 2, 554);
    reveal_strlit("caller.name = ");
    assert(s.sql.subrange(572, 588) =~= "caller.name = "@ + "?"@ + decimal_digits(2));
    lemma_binds(s, "caller.name = "@, 2, 572);
    reveal_strlit("caller.qualified_name = ");
    assert(s.sql.subrange(592, 618) =~= "caller.qualified_name = "@ + "?"@ + decimal_digits(2));
    lemma_binds(s, "caller.qualified_name = "@, 2, 592);
    reveal_strlit("ORDER BY calls.call_line, calls.callee_text");
    assert(s.sql.subrange(624, 667) =~= "ORDER BY calls.call_line, calls.callee_text"@);
    lemma_says(s.sql, "ORDER BY calls.call_line, calls.callee_text"@, 624);
    reveal_strlit("LIMIT 50");
    assert(s.sql.subrange(672, 680) =~= "LIMIT 50"@);
    lemma_says(s.sql, "LIMIT 50"@, 672);
}

/// What `callees_for_ref` asks for, by its text and the values that are bound.
pub proof fn law_callees_for_ref_says(
    repository_id: Seq<char>,
    repository_ref_id: Seq<char>,
    symbol_query: Seq<char>,
)
    ensures
        ({
            let s = callees_for_ref_spec(repository_id, repository_ref_id, symbol_query);
            &&& binds(s, "callee_ref.repository_ref_id = "@, text(repository_ref_id))
            &&& binds(s, "caller_files.repository_id = "@, text(repository_id))
            &&& binds(s, "caller_ref.repository_ref_id = "@, text(repository_ref_id))
            &&& says(s.sql, "callee.id IS NULL"@)
            &&& says(s.sql, "callee_ref.repository_ref_id IS NOT NULL"@)
            &&& binds(s, "caller.id = "@, text(symbol_query))
            &&& binds(s, "caller.name = "@, text(symbol_query))
            &&& binds(s, "caller.qualified_name = "@, text(symbol_query))
            &&& says(s.sql, "ORDER BY calls.call_line, calls.callee_text"@)
            &&& says(s.sql, "LIMIT 50"@)
        }),
{
    let s = callees_for_ref_spec(repository_id, repository_ref_id, symbol_query);
    reveal_strlit("SELECT calls.callee_text, calls.call_line, calls.confidence, calls.resolution_status,
           callee.id, callee.name, callee.qualified_name, callee.kind,
           caller_files.path, callee.start_line, callee.end_line,
           caller_files.content_hash, calls.index_run_id, calls.parser_version,
           caller_files.indexed_at
     FROM calls
     JOIN symbols caller ON calls.caller_symbol_id = caller.id
     JOIN files caller_files ON caller.file_id = caller_files.id
     JOIN ref_files caller_ref ON caller_ref.file_id = caller_files.id
     LEFT JOIN symbols callee ON calls.callee_symbol_id = callee.id
     LEFT JOIN files callee_files ON callee.file_id = callee_files.id
     LEFT JOIN ref_files callee_ref
       ON callee_ref.file_id = callee_files.id
      AND callee_ref.repository_ref_id = ?2
    WHERE caller_files.repository_id = ?1
      AND caller_ref.repository_ref_id = ?2
      AND (callee.id IS NULL OR callee_ref.repository_ref_id IS NOT NULL)
      AND (caller.id = ?3 OR caller.name = ?3 OR caller.qualified_name = ?3)
    ORDER BY calls.call_line, calls.callee_text
    LIMIT 50");
    reveal_strlit("?");
    lemma_places();
    reveal_strlit("callee_ref.repository_ref_id = ");
    assert(s.sql.subrange(784, 817)
        =~= "callee_ref.repository_ref_id = "@ + "?"@ + decimal_digits(2));
    lemma_binds(s, "callee_ref.repository_ref_id = "@, 2, 784);
    reveal_strlit("caller_files.repository_id = ");
    assert(s.sql.subrange(828, 859)
        =~= "caller_files.repository_id = "@ + "?"@ + decimal_digits(1));
    lemma_binds(s, "caller_files.repository_id = "@, 1, 828);
    reveal_strlit("caller_ref.repository_ref_id = ");
    assert(s.sql.subrange(870, 903)
        =~= "caller_ref.repository_ref_id = "@ + "?"@ + decimal_digits(2));
    lemma_binds(s, "caller_ref.repository_ref_id = "@, 2, 870);
    reveal_strlit("callee.id IS NULL");
    assert(s.sql.subrange(915, 932) =~= "callee.id IS NULL"@);
    lemma_says(s.sql, "callee.id IS NULL"@, 915);
    reveal_strlit("callee_ref.repository_ref_id IS NOT NULL");
    assert(s.sql.subrange(936, 976) =~= "callee_ref.repository_ref_id IS NOT NULL"@);
    lemma_says(s.sql, "callee_ref.repository_ref_id IS NOT NULL"@, 936);
    reveal_strlit("caller.id = ");
    assert(s.sql.subrange(989, 1003) =~= "caller.id = "@ + "?"@ + decimal_digits(3));
    lemma_binds(s, "caller.id = "@, 3, 989);
    reveal_strlit("caller.name = ");
    assert(s.sql.subrange(1007, 1023) =~= "caller.name = "@ + "?"@ + decimal_digits(3));
    lemma_binds(s, "caller.name = "@, 3, 1007);
    reveal_strlit("caller.qualified_name = ");
    assert(s.sql.subrange(1027, 1053) =~= "caller.qualified_name = "@ + "?"@ + decimal_digits(3));
    lemma_binds(s, "caller.qualified_name = "@, 3, 1027);
    reveal_strlit("ORDER BY calls.call_line, calls.callee_text");
    assert(s.sql.subrange(1059, 1102) =~= "ORDER BY calls.call_line, calls.callee_text"@);
    lemma_says(s.sql, "ORDER BY calls.call_line, calls.callee_text"@, 1059);
    reveal_strlit("LIMIT 50");
    assert(s.sql.subrange(1107, 1115) =~= "LIMIT 50"@);
    lemma_says(s.sql, "LIMIT 50"@, 1107);
}

/// What `likely_tests_for_symbol` asks for, by its text and the values that are bound.
pub proof fn law_likely_tests_for_symbol_says(
    repository_id: Seq<char>,
    symbol_query: Seq<char>,
)
    ensures
        ({
            let s = likely_tests_for_symbol_spec(repository_id, symbol_query);
            &&& binds(s, "tests.repository_id = "@, text(repository_id))
            &&& binds(s, "tests.id = "@, text(symbol_query))
            &&& binds(s, "tests.name = "@, text(symbol_query))
            &&& binds(s, "tests.qualified_name = "@, text(symbol_query))
            &&& binds(s, "target.id = "@, text(symbol_query))
            &&& binds(s, "target.name = "@, text(symbol_query))
            &&& binds(s, "target.qualified_name = "@, text(symbol_query))
            &&& says(s.sql, "ORDER BY tests.path, tests.start_line, tests.qualified_name"@)
            &&& says(s.sql, "LIMIT 25"@)
        }),
{
    let s = likely_tests_for_symbol_spec(repository_id, symbol_query);
    reveal_strlit("SELECT DISTINCT tests.id, tests.name, tests.qualified_name, tests.framework,
          tests.language, tests.path, tests.start_line, tests.end_line,
          files.content_hash, tests.index_run_id, tests.parser_version, tests.indexed_at
     FROM tests
     JOIN files ON tests.file_id = files.id
     LEFT JOIN calls ON calls.caller_symbol_id = tests.symbol_id
     LEFT JOIN symbols target ON calls.callee_symbol_id = target.id
    WHERE tests.repository_id = ?1
      AND (
        tests.id = ?2 OR tests.name = ?2 OR tests.qualified_name = ?2
        OR target.id = ?2 OR target.name = ?2 OR target.qualified_name = ?2
      )
    ORDER BY tests.path, tests.start_line, tests.qualified_name
    LIMIT 25");
    reveal_strlit("?");
    lemma_places();
    reveal_strlit("tests.repository_id = ");
    assert(s.sql.subrange(441, 465) =~= "tests.repository_id = "@ + "?"@ + decimal_digits(1));
    lemma_binds(s, "tests.repository_id = "@, 1, 441);
    reveal_strlit("tests.id = ");
    assert(s.sql.subrange(486, 499) =~= "tests.id = "@ + "?"@ + decimal_digits(2));
    lemma_binds(s, "tests.id = "@, 2, 486);
    reveal_strlit("tests.name = ");
    assert(s.sql.subrange(503, 518) =~= "tests.name = "@ + "?"@ + decimal_digits(2));
    lemma_binds(s, "tests.name = "@, 2, 503);
    reveal_strlit("tests.qualified_name = ");
    assert(s.sql.subrange(522, 547) =~= "tests.qualified_name = "@ + "?"@ + decimal_digits(2));
    lemma_binds(s, "tests.qualified_name = "@, 2, 522);
    reveal_strlit("target.id = ");
    assert(s.sql.subrange(559, 573) =~= "target.id = "@ + "?"@ + decimal_digits(2));
    lemma_binds(s, "target.id = "@, 2, 559);
    reveal_strlit("target.name = ");
    assert(s.sql.subrange(577, 593) =~= "target.name = "@ + "?"@ + decimal_digits(2));
    lemma_binds(s, "target.name = "@, 2, 577);
    reveal_strlit("target.qualified_name = ");
    assert(s.sql.subrange(597, 623) =~= "target.qualified_name = "@ + "?"@ + decimal_digits(2));
    lemma_binds(s, "target.qualified_name = "@, 2, 597);
    reveal_strlit("ORDER BY tests.path, tests.start_line, tests.qualified_name");
    assert(s.sql.subrange(636, 695)
        =~= "ORDER BY tests.path, tests.start_line, tests.qualified_name"@);
    lemma_says(s.sql, "ORDER BY tests.path, tests.start_line, tests.qualified_name"@, 636);
    reveal_strlit("LIMIT 25");
    assert(s.sql.subrange(700, 708) =~= "LIMIT 25"@);
    lemma_says(s.sql, "LIMIT 25"@, 700);
}

/// What `resolve_symbol_refs` asks for, by its text and the values that are bound.
pub proof fn law_resolve_symbol_refs_says(
    repository_id: Seq<char>,
    symbol_query: Seq<char>,
)
    ensures
        ({
            let s = resolve_symbol_refs_spec(repository_id, symbol_query);
            &&& binds(s, "files.repository_id = "@, text(repository_id))
            &&& binds(s, "symbols.id = "@, text(symbol_query))
            &&& binds(s, "symbols.name = "@, text(symbol_query))
            &&& binds(s, "symbols.qualified_name = "@, text(symbol_query))
            &&& says(s.sql, "ORDER BY symbols.qualified_name, files.path, symbols.start_line"@)
            &&& says(s.sql, "LIMIT 25"@)
        }),
{
    let s = resolve_symbol_refs_spec(repository_id, symbol_query);
    reveal_strlit("SELECT symbols.id
     FROM symbols
     JOIN files ON symbols.file_id = files.id
    WHERE files.repository_id = ?1
      AND (symbols.id = ?2 OR symbols.name = ?2 OR symbols.qualified_name = ?2)
    ORDER BY symbols.qualified_name, files.path, symbols.start_line
    LIMIT 25");
    reveal_strlit("?");
    lemma_places();
    reveal_strlit("files.repository_id = ");
    assert(s.sql.subrange(92, 116) =~= "files.repository_id = "@ + "?"@ + decimal_digits(1));
    lemma_binds(s, "files.repository_id = "@, 1, 92);
    reveal_strlit("symbols.id = ");
    assert(s.sql.subrange(128, 143) =~= "symbols.id = "@ + "?"@ + decimal_digits(2));
    lemma_binds(s, "symbols.id = "@, 2, 128);
    reveal_strlit("symbols.name = ");
    assert(s.sql.subrange(147, 164) =~= "symbols.name = "@ + "?"@ + decimal_digits(2));
    lemma_binds(s, "symbols.name = "@, 2, 147);
    reveal_strlit("symbols.qualified_name = ");
    assert(s.sql.subrange(168, 195) =~= "symbols.qualified_name = "@ + "?"@ + decimal_digits(2));
    lemma_binds(s, "symbols.qualified_name = "@, 2, 168);
    reveal_strlit("ORDER BY symbols.qualified_name, files.path, symbols.start_line");
    assert(s.sql.subrange(201, 264)
        =~= "ORDER BY symbols.qualified_name, files.path, symbols.start_line"@);
    lemma_says(s.sql, "ORDER BY symbols.qualified_name, files.path, symbols.start_line"@, 201);
    reveal_strlit("LIMIT 25");
    assert(s.sql.subrange(269, 277) =~= "LIMIT 25"@);
    lemma_says(s.sql, "LIMIT 25"@, 269);
}

/// What `resolve_symbol_refs_for_ref` asks for, by its text and the values that are bound.
pub proof fn law_resolve_symbol_refs_for_ref_says(
    repository_id: Seq<char>,
    repository_ref_id: Seq<char>,
    symbol_query: Seq<char>,
)
    ensures
        ({
            let s = resolve_symbol_refs_for_ref_spec(
                repository_id,
                repository_ref_id,
                symbol_query,
            );
            &&& binds(s, "files.repository_id = "@, text(repository_id))
            &&& binds(s, "ref_files.repository_ref_id = "@, text(repository_ref_id))
            &&& binds(s, "symbols.id = "@, text(symbol_query))
            &&& binds(s, "symbols.name = "@, text(symbol_query))
            &&& binds(s, "symbols.qualified_name = "@, text(symbol_query))
            &&& says(s.sql, "ORDER BY symbols.qualified_name, files.path, symbols.start_line"@)
            &&& says(s.sql, "LIMIT 25"@)
        }),
{
    let s = resolve_symbol_refs_for_ref_spec(repository_id, repository_ref_id, symbol_query);
    reveal_strlit("SELECT symbols.id
     FROM symbols
     JOIN files ON symbols.file_id = files.id
     JOIN ref_files ON ref_files.file_id = files.id
    WHERE files.repository_id = ?1
      AND ref_files.repository_ref_id = ?2
      AND (symbols.id = ?3 OR symbols.name = ?3 OR symbols.qualified_name = ?3)
    ORDER BY symbols.qualified_name, files.path, symbols.start_line
    LIMIT 25");
    reveal_strlit("?");
    lemma_places();
    reveal_strlit("files.repository_id = ");
    assert(s.sql.subrange(144, 168) =~= "files.repository_id = "@ + "?"@ + decimal_digits(1));
    lemma_binds(s, "files.repository_id = "@, 1, 144);
    reveal_strlit("ref_files.repository_ref_id = ");
    assert(s.sql.subrange(179, 211)
        =~= "ref_files.repository_ref_id = "@ + "?"@ + decimal_digits(2));
    lemma_binds(s, "ref_files.repository_ref_id = "@, 2, 179);
    reveal_strlit("symbols.id = ");
    assert(s.sql.subrange(223, 238) =~= "symbols.id = "@ + "?"@ + decimal_digits(3));
    lemma_binds(s, "symbols.id = "@, 3, 223);
    reveal_strlit("symbols.name = ");
    assert(s.sql.subrange(242, 259) =~= "symbols.name = "@ + "?"@ + decimal_digits(3));
    lemma_binds(s, "symbols.name = "@, 3, 242);
    reveal_strlit("symbols.qualified_name = ");
    assert(s.sql.subrange(263, 290) =~= "symbols.qualified_name = "@ + "?"@ + decimal_digits(3));
    lemma_binds(s, "symbols.qualified_name = "@, 3, 263);
    reveal_strlit("ORDER BY symbols.qualified_name, files.path, symbols.start_line");
    assert(s.sql.subrange(296, 359)
        =~= "ORDER BY symbols.qualified_name, files.path, symbols.start_line"@);
    lemma_says(s.sql, "ORDER BY symbols.qualified_name, files.path, symbols.start_line"@, 296);
    reveal_strlit("LIMIT 25");
    assert(s.sql.subrange(364, 372) =~= "LIMIT 25"@);
    lemma_says(s.sql, "LIMIT 25"@, 364);
}

/// What `all_symbol_refs` asks for, by its text and the values that are bound.
pub proof fn law_all_symbol_refs_says(
    repository_id: Seq<char>,
)
    ensures
        ({
            let s = all_symbol_refs_spec(repository_id);
            &&& binds(s, "files.repository_id = "@, text(repository_id))
            &&& says(s.sql, "ORDER BY symbols.qualified_name, files.path, symbols.start_line"@)
            &&& says(s.sql, "LIMIT 500"@)
        }),
{
    let s = all_symbol_refs_spec(repository_id);
    reveal_strlit("SELECT symbols.id
     FROM symbols
     JOIN files ON symbols.file_id = files.id
    WHERE files.repository_id = ?1
    ORDER BY symbols.qualified_name, files.path, symbols.start_line
    LIMIT 500");
    reveal_strlit("?");
    lemma_places();
    reveal_strlit("files.repository_id = ");
    assert(s.sql.subrange(92, 116) =~= "files.repository_id = "@ + "?"@ + decimal_digits(1));
    lemma_binds(s, "files.repository_id = "@, 1, 92);
    reveal_strlit("ORDER BY symbols.qualified_name, files.path, symbols.start_line");
    assert(s.sql.subrange(121, 184)
        =~= "ORDER BY symbols.qualified_name, files.path, symbols.start_line"@);
    lemma_says(s.sql, "ORDER BY symbols.qualified_name, files.path, symbols.start_line"@, 121);
    reveal_strlit("LIMIT 500");
    assert(s.sql.subrange(189, 198) =~= "LIMIT 500"@);
    lemma_says(s.sql, "LIMIT 500"@, 189);
}

/// What `all_symbol_refs_for_ref` asks for, by its text and the values that are bound.
pub proof fn law_all_symbol_refs_for_ref_says(
    repository_id: Seq<char>,
    repository_ref_id: Seq<char>,
)
    ensures
        ({
            let s = all_symbol_refs_for_ref_spec(repository_id, repository_ref_id);
            &&& binds(s, "files.repository_id = "@, text(repository_id))
            &&& binds(s, "ref_files.repository_ref_id = "@, text(repository_ref_id))
            &&& says(s.sql, "ORDER BY symbols.qualified_name, files.path, symbols.start_line"@)
            &&& says(s.sql, "LIMIT 500"@)
        }),
{
    let s = all_symbol_refs_for_ref_spec(repository_id, repository_ref_id);
    reveal_strlit("SELECT symbols.id
     FROM symbols
     JOIN files ON symbols.file_id = files.id
     JOIN ref_files ON ref_files.file_id = files.id
    WHERE files.repository_id = ?1
      AND ref_files.repository_ref_id = ?2
    ORDER BY symbols.qualified_name, files.path, symbols.start_line
    LIMIT 500");
    reveal_strlit("?");
    lemma_places();
    reveal_strlit("files.repository_id = ");
    assert(s.sql.subrange(144, 168) =~= "files.repository_id = "@ + "?"@ + decimal_digits(1));
    lemma_binds(s, "files.repository_id = "@, 1, 144);
    reveal_strlit("ref_files.repository_ref_id = ");
    assert(s.sql.subrange(179, 211)
        =~= "ref_files.repository_ref_id = "@ + "?"@ + decimal_digits(2));
    lemma_binds(s, "ref_files.repository_ref_id = "@, 2, 179);
    reveal_strlit("ORDER BY symbols.qualified_name, files.path, symbols.start_line");
    assert(s.sql.subrange(216, 279)
        =~= "ORDER BY symbols.qualified_name, files.path, symbols.start_line"@);
    lemma_says(s.sql, "ORDER BY symbols.qualified_name, files.path, symbols.start_line"@, 216);
    reveal_strlit("LIMIT 500");
    assert(s.sql.subrange(284, 293) =~= "LIMIT 500"@);
    lemma_says(s.sql, "LIMIT 500"@, 284);
}

/// What `call_path_edges` asks for, by its text and the values that are bound.
pub proof fn law_call_path_edges_says(
    repository_id: Seq<char>,
)
    ensures
        ({
            let s = call_path_edges_spec(repository_id);
            &&& binds(s, "caller_file.repository_id = "@, text(repository_id))
            &&& says(s.sql, "ORDER BY caller.qualified_name, caller_file.path, calls.call_line,
             calls.callee_text, calls.id"@)
        }),
{
    let s = call_path_edges_spec(repository_id);
    reveal_strlit("SELECT calls.id, calls.callee_text, calls.call_line, calls.confidence,
          calls.resolution_status,
          caller.id, caller.name, caller.qualified_name, caller.kind,
          caller_file.path, caller.start_line, caller.end_line,
          callee.id, callee.name, callee.qualified_name, callee.kind,
          callee_file.path, callee.start_line, callee.end_line,
          caller_file.content_hash, calls.index_run_id, calls.parser_version,
          caller_file.indexed_at
     FROM calls
     JOIN symbols caller ON calls.caller_symbol_id = caller.id
     JOIN files caller_file ON caller.file_id = caller_file.id
     LEFT JOIN symbols callee ON calls.callee_symbol_id = callee.id
     LEFT JOIN files callee_file ON callee.file_id = callee_file.id
    WHERE caller_file.repository_id = ?1
    ORDER BY caller.qualified_name, caller_file.path, calls.call_line,
             calls.callee_text, calls.id");
    reveal_strlit("?");
    lemma_places();
    reveal_strlit("caller_file.repository_id = ");
    assert(s.sql.subrange(773, 803) =~= "caller_file.repository_id = "@ + "?"@ + decimal_digits(1));
    lemma_binds(s, "caller_file.repository_id = "@, 1, 773);
    reveal_strlit("ORDER BY caller.qualified_name, caller_file.path, calls.call_line,
             calls.callee_text, calls.id");
    assert(s.sql.subrange(808, 915) =~= "ORDER BY caller.qualified_name, caller_file.path, calls.call_line,
             calls.callee_text, calls.id"@);
    lemma_says(s.sql, "ORDER BY caller.qualified_name, caller_file.path, calls.call_line,
             calls.callee_text, calls.id"@, 808);
}

/// What `call_path_edges_for_ref` asks for, by its text and the values that are bound.
pub proof fn law_call_path_edges_for_ref_says(
    repository_id: Seq<char>,
    repository_ref_id: Seq<char>,
)
    ensures
        ({
            let s = call_path_edges_for_ref_spec(repository_id, repository_ref_id);
            &&& binds(s, "callee_ref.repository_ref_id = "@, text(repository_ref_id))
            &&& binds(s, "caller_file.repository_id = "@, text(repository_id))
            &&& binds(s, "caller_ref.repository_ref_id = "@, text(repository_ref_id))
            &&& says(s.sql, "callee.id IS NULL"@)
            &&& says(s.sql, "callee_ref.repository_ref_id IS NOT NULL"@)
            &&& says(s.sql, "ORDER BY caller.qualified_name, caller_file.path, calls.call_line,
             calls.callee_text, calls.id"@)
        }),
{
    let s = call_path_edges_for_ref_spec(repository_id, repository_ref_id);
    reveal_strlit("SELECT calls.id, calls.callee_text, calls.call_line, calls.confidence,
          calls.resolution_status,
          caller.id, caller.name, caller.qualified_name, caller.kind,
          caller_file.path, caller.start_line, caller.end_line,
          callee.id, callee.name, callee.qualified_name, callee.kind,
          callee_file.path, callee.start_line, callee.end_line,
          caller_file.content_hash, calls.index_run_id, calls.parser_version,
          caller_file.indexed_at
     FROM calls
     JOIN symbols caller ON calls.caller_symbol_id = caller.id
     JOIN files caller_file ON caller.file_id = caller_file.id
     JOIN ref_files caller_ref ON caller_ref.file_id = caller_file.id
     LEFT JOIN symbols callee ON calls.callee_symbol_id = callee.id
     LEFT JOIN files callee_file ON callee.file_id = callee_file.id
     LEFT JOIN ref_files callee_ref
       ON callee_ref.file_id = callee_file.id
      AND callee_ref.repository_ref_id = ?2
    WHERE caller_file.repository_id = ?1
      AND caller_ref.repository_ref_id = ?2
      AND (callee.id IS NULL OR callee_ref.repository_ref_id IS NOT NULL)
    ORDER BY caller.qualified_name, caller_file.path, calls.call_line,
             calls.callee_text, calls.id");
    reveal_strlit("?");
    lemma_places();
    reveal_strlit("callee_ref.repository_ref_id = ");
    assert(s.sql.subrange(925, 958)
        =~= "callee_ref.repository_ref_id = "@ + "?"@ + decimal_digits(2));
    lemma_binds(s, "callee_ref.repository_ref_id = "@, 2, 925);
    reveal_strlit("caller_file.repository_id = ");
    assert(s.sql.subrange(969, 999) =~= "caller_file.repository_id = "@ + "?"@ + decimal_digits(1));
    lemma_binds(s, "caller_file.repository_id = "@, 1, 969);
    reveal_strlit("caller_ref.repository_ref_id = ");
    assert(s.sql.subrange(1010, 1043)
        =~= "caller_ref.repository_ref_id = "@ + "?"@ + decimal_digits(2));
    lemma_binds(s, "caller_ref.repository_ref_id = "@, 2, 1010);
    reveal_strlit("callee.id IS NULL");
    assert(s.sql.subrange(1055, 1072) =~= "callee.id IS NULL"@);
    lemma_says(s.sql, "callee.id IS NULL"@, 1055);
    reveal_strlit("callee_ref.repository_ref_id IS NOT NULL");
    assert(s.sql.subrange(1076, 1116) =~= "callee_ref.repository_ref_id IS NOT NULL"@);
    lemma_says(s.sql, "callee_ref.repository_ref_id IS NOT NULL"@, 1076);
    reveal_strlit("ORDER BY caller.qualified_name, caller_file.path, calls.call_line,
             calls.callee_text, calls.id");
    assert(s.sql.subrange(1122, 1229) =~= "ORDER BY caller.qualified_name, caller_file.path, calls.call_line,
             calls.callee_text, calls.id"@);
    lemma_says(s.sql, "ORDER BY caller.qualified_name, caller_file.path, calls.call_line,
             calls.callee_text, calls.id"@, 1122);
}

/// What `count_files` asks for, by its text and the values that are bound.
pub proof fn law_count_files_says(
    repository_id: Seq<char>,
)
    ensures
        ({
            let s = count_files_spec(repository_id);
            &&& says(s.sql, "SELECT COUNT(*)"@)
            &&& binds(s, "repository_id = "@, text(repository_id))
        }),
{
    let s = count_files_spec(repository_id);
    reveal_strlit("SELECT COUNT(*) FROM files WHERE repository_id = ?1");
    reveal_strlit("?");
    lemma_places();
    reveal_strlit("SELECT COUNT(*)");
    assert(s.sql.subrange(0, 15) =~= "SELECT COUNT(*)"@);
    lemma_says(s.sql, "SELECT COUNT(*)"@, 0);
    reveal_strlit("repository_id = ");
    assert(s.sql.subrange(33, 51) =~= "repository_id = "@ + "?"@ + decimal_digits(1));
    lemma_binds(s, "repository_id = "@, 1, 33);
}

/// What `count_chunks` asks for, by its text and the values that are bound.
pub proof fn law_count_chunks_says(
    repository_id: Seq<char>,
)
    ensures
        ({
            let s = count_chunks_spec(repository_id);
            &&& says(s.sql, "SELECT COUNT(*)"@)
            &&& binds(s, "files.repository_id = "@, text(repository_id))
        }),
{
    let s = count_chunks_spec(repository_id);
    reveal_strlit("SELECT COUNT(*)
    FROM chunks
    JOIN files ON chunks.file_id = files.id
    WHERE files.repository_id = ?1");
    reveal_strlit("?");
    lemma_places();
    reveal_strlit("SELECT COUNT(*)");
    assert(s.sql.subrange(0, 15) =~= "SELECT COUNT(*)"@);
    lemma_says(s.sql, "SELECT COUNT(*)"@, 0);
    reveal_strlit("files.repository_id = ");
    assert(s.sql.subrange(86, 110) =~= "files.repository_id = "@ + "?"@ + decimal_digits(1));
    lemma_binds(s, "files.repository_id = "@, 1, 86);
}

/// What `last_indexed_at` asks for, by its text and the values that are bound.
pub proof fn law_last_indexed_at_says(
    repository_id: Seq<char>,
)
    ensures
        ({
            let s = last_indexed_at_spec(repository_id);
            &&& says(s.sql, "SELECT MAX(indexed_at)"@)
            &&& binds(s, "repository_id = "@, text(repository_id))
        }),
{
    let s = last_indexed_at_spec(repository_id);
    reveal_strlit("SELECT MAX(indexed_at) FROM files WHERE repository_id = ?1");
    reveal_strlit("?");
    lemma_places();
    reveal_strlit("SELECT MAX(indexed_at)");
    assert(s.sql.subrange(0, 22) =~= "SELECT MAX(indexed_at)"@);
    lemma_says(s.sql, "SELECT MAX(indexed_at)"@, 0);
    reveal_strlit("repository_id = ");
    assert(s.sql.subrange(40, 58) =~= "repository_id = "@ + "?"@ + decimal_digits(1));
    lemma_binds(s, "repository_id = "@, 1, 40);
}

/// What `count_symbols` asks for, by its text and the values that are bound.
pub proof fn law_count_symbols_says(
    repository_id: Seq<char>,
)
    ensures
        ({
            let s = count_symbols_spec(repository_id);
            &&& says(s.sql, "SELECT COUNT(*)"@)
            &&& binds(s, "files.repository_id = "@, text(repository_id))
        }),
{
    let s = count_symbols_spec(repository_id);
    reveal_strlit("SELECT COUNT(*)
    FROM symbols
    JOIN files ON symbols.file_id = files.id
    WHERE files.repository_id = ?1");
    reveal_strlit("?");
    lemma_places();
    reveal_strlit("SELECT COUNT(*)");
    assert(s.sql.subrange(0, 15) =~= "SELECT COUNT(*)"@);
    lemma_says(s.sql, "SELECT COUNT(*)"@, 0);
    reveal_strlit("files.repository_id = ");
    assert(s.sql.subrange(88, 112) =~= "files.repository_id = "@ + "?"@ + decimal_digits(1));
    lemma_binds(s, "files.repository_id = "@, 1, 88);
}

/// What `count_calls` asks for, by its text and the values that are bound.
pub proof fn law_count_calls_says(
    repository_id: Seq<char>,
)
    ensures
        ({
            let s = count_calls_spec(repository_id);
            &&& says(s.sql, "SELECT COUNT(*)"@)
            &&& binds(s, "files.repository_id = "@, text(repository_id))
        }),
{
    let s = count_calls_spec(repository_id);
    reveal_strlit("SELECT COUNT(*)
    FROM calls
    JOIN symbols ON calls.caller_symbol_id = symbols.id
    JOIN files ON symbols.file_id = files.id
    WHERE files.repository_id = ?1");
    reveal_strlit("?");
    lemma_places();
    reveal_strlit("SELECT COUNT(*)");
    assert(s.sql.subrange(0, 15) =~= "SELECT COUNT(*)"@);
    lemma_says(s.sql, "SELECT COUNT(*)"@, 0);
    reveal_strlit("files.repository_id = ");
    assert(s.sql.subrange(142, 166) =~= "files.repository_id = "@ + "?"@ + decimal_digits(1));
    lemma_binds(s, "files.repository_id = "@, 1, 142);
}

/// What `count_repositories` asks for, by its text and the values that are bound.
pub proof fn law_count_repositories_says(
    repository_id: Seq<char>,
)
    ensures
        ({
            let s = count_repositories_spec(repository_id);
            &&& says(s.sql, "SELECT COUNT(*)"@)
            &&& binds(s, "id = "@, text(repository_id))
        }),
{
    let s = count_repositories_spec(repository_id);
    reveal_strlit("SELECT COUNT(*) FROM repositories WHERE id = ?1");
    reveal_strlit("?");
    lemma_places();
    reveal_strlit("SELECT COUNT(*)");
    assert(s.sql.subrange(0, 15) =~= "SELECT COUNT(*)"@);
    lemma_says(s.sql, "SELECT COUNT(*)"@, 0);
    reveal_strlit("id = ");
    assert(s.sql.subrange(40, 47) =~= "id = "@ + "?"@ + decimal_digits(1));
    lemma_binds(s, "id = "@, 1, 40);
}

/// What `count_index_runs` asks for, by its text and the values that are bound.
pub proof fn law_count_index_runs_says(
    repository_id: Seq<char>,
)
    ensures
        ({
            let s = count_index_runs_spec(repository_id);
            &&& says(s.sql, "SELECT COUNT(*)"@)
            &&& binds(s, "repository_id = "@, text(repository_id))
        }),
{
    let s = count_index_runs_spec(repository_id);
    reveal_strlit("SELECT COUNT(*) FROM index_runs WHERE repository_id = ?1");
    reveal_strlit("?");
    lemma_places();
    reveal_strlit("SELECT COUNT(*)");
    assert(s.sql.subrange(0, 15) =~= "SELECT COUNT(*)"@);
    lemma_says(s.sql, "SELECT COUNT(*)"@, 0);
    reveal_strlit("repository_id = ");
    assert(s.sql.subrange(38, 56) =~= "repository_id = "@ + "?"@ + decimal_digits(1));
    lemma_binds(s, "repository_id = "@, 1, 38);
}

/// What `chunk_projection` asks for, by its text and the values that are bound.
pub proof fn law_chunk_projection_says(
    repository_id: Seq<char>,
    generation_id: Option<Seq<char>>,
)
    ensures
        ({
            let s = chunk_projection_spec(repository_id, generation_id);
            &&& says(s.sql, "chunks.excluded_reason IS NULL"@)
            &&& says(s.sql, "chunk_embeddings.vector_point_id IS NOT NULL"@)
            &&& says(s.sql, "chunks.excluded_reason IS NOT NULL"@)
            &&& says(s.sql, "chunk_embeddings.vector_point_id IS NULL"@)
            &&& binds(s, "chunk_embeddings.generation_id = "@, optional(generation_id))
            &&& says(s.sql, "chunk_embeddings.semantic_layer = 'fast'"@)
            &&& says(s.sql, "chunk_embeddings.status = 'current'"@)
            &&& binds(s, "files.repository_id = "@, text(repository_id))
        }),
{
    let s = chunk_projection_spec(repository_id, generation_id);
    reveal_strlit("SELECT
      COALESCE(SUM(CASE WHEN chunks.excluded_reason IS NULL THEN 1 ELSE 0 END), 0),
                COALESCE(SUM(CASE WHEN chunk_embeddings.vector_point_id IS NOT NULL THEN 1 ELSE 0 END), 0),
      COALESCE(SUM(CASE WHEN chunks.excluded_reason IS NOT NULL THEN 1 ELSE 0 END), 0),
      COALESCE(SUM(CASE
            WHEN chunks.excluded_reason IS NULL AND chunk_embeddings.vector_point_id IS NULL
        THEN 1 ELSE 0 END), 0)
    FROM chunks
    JOIN files ON chunks.file_id = files.id
                    LEFT JOIN chunk_embeddings
                ON chunk_embeddings.chunk_id = chunks.id
               AND chunk_embeddings.file_id = files.id
               AND chunk_embeddings.repository_id = files.repository_id
               AND chunk_embeddings.generation_id = ?2
               AND chunk_embeddings.semantic_layer = 'fast'
               AND chunk_embeddings.status = 'current'
    WHERE files.repository_id = ?1");
    reveal_strlit("?");
    lemma_places();
    reveal_strlit("chunks.excluded_reason IS NULL");
    assert(s.sql.subrange(36, 66) =~= "chunks.excluded_reason IS NULL"@);
    lemma_says(s.sql, "chunks.excluded_reason IS NULL"@, 36);
    reveal_strlit("chunk_embeddings.vector_point_id IS NOT NULL");
    assert(s.sql.subrange(130, 174) =~= "chunk_embeddings.vector_point_id IS NOT NULL"@);
    lemma_says(s.sql, "chunk_embeddings.vector_point_id IS NOT NULL"@, 130);
    reveal_strlit("chunks.excluded_reason IS NOT NULL");
    assert(s.sql.subrange(228, 262) =~= "chunks.excluded_reason IS NOT NULL"@);
    lemma_says(s.sql, "chunks.excluded_reason IS NOT NULL"@, 228);
    reveal_strlit("chunk_embeddings.vector_point_id IS NULL");
    assert(s.sql.subrange(363, 403) =~= "chunk_embeddings.vector_point_id IS NULL"@);
    lemma_says(s.sql, "chunk_embeddings.vector_point_id IS NULL"@, 363);
    reveal_strlit("chunk_embeddings.generation_id = ");
    assert(s.sql.subrange(745, 780)
        =~= "chunk_embeddings.generation_id = "@ + "?"@ + decimal_digits(2));
    lemma_binds(s, "chunk_embeddings.generation_id = "@, 2, 745);
    reveal_strlit("chunk_embeddings.semantic_layer = 'fast'");
    assert(s.sql.subrange(800, 840) =~= "chunk_embeddings.semantic_layer = 'fast'"@);
    lemma_says(s.sql, "chunk_embeddings.semantic_layer = 'fast'"@, 800);
    reveal_strlit("chunk_embeddings.status = 'current'");
    assert(s.sql.subrange(860, 895) =~= "chunk_embeddings.status = 'current'"@);
    lemma_says(s.sql, "chunk_embeddings.status = 'current'"@, 860);
    reveal_strlit("files.repository_id = ");
    assert(s.sql.subrange(906, 930) =~= "files.repository_id = "@ + "?"@ + decimal_digits(1));
    lemma_binds(s, "files.repository_id = "@, 1, 906);
}

/// What `index_coverage` asks for, by its text and the values that are bound.
pub proof fn law_index_coverage_says(
    repository_id: Seq<char>,
    generation_id: Option<Seq<char>>,
)
    ensures
        ({
            let s = index_coverage_spec(repository_id, generation_id);
            &&& says(s.sql, "SELECT COUNT(*)"@)
            &&& says(s.sql, "chunks.excluded_reason IS NULL"@)
            &&& binds(s, "chunk_embeddings.generation_id = "@, optional(generation_id))
            &&& says(s.sql, "chunk_embeddings.semantic_layer = 'fast'"@)
            &&& says(s.sql, "chunk_embeddings.status = 'current'"@)
            &&& says(s.sql, "chunks.excluded_reason IS NOT NULL"@)
            &&& binds(s, "files.repository_id = "@, text(repository_id))
            &&& says(s.sql, "ORDER BY files.path"@)
            &&& says(s.sql, "LIMIT 200"@)
        }),
{
    let s = index_coverage_spec(repository_id, generation_id);
    reveal_strlit("SELECT
      files.id,
      files.path,
      files.language,
      (SELECT COUNT(*) FROM chunks WHERE chunks.file_id = files.id),
      (SELECT COUNT(*) FROM symbols WHERE symbols.file_id = files.id),
      (SELECT COUNT(*)
       FROM calls
       JOIN symbols caller ON calls.caller_symbol_id = caller.id
       WHERE caller.file_id = files.id),
      (SELECT COUNT(*)
       FROM chunks
       WHERE chunks.file_id = files.id
         AND chunks.excluded_reason IS NULL),
      (SELECT COUNT(*)
                   FROM chunks
                   JOIN chunk_embeddings
               ON chunk_embeddings.chunk_id = chunks.id
            AND chunk_embeddings.file_id = files.id
                   WHERE chunks.file_id = files.id
               AND chunk_embeddings.repository_id = files.repository_id
               AND chunk_embeddings.generation_id = ?2
               AND chunk_embeddings.semantic_layer = 'fast'
               AND chunk_embeddings.status = 'current'),
      (SELECT COUNT(*)
       FROM chunks
       WHERE chunks.file_id = files.id
         AND chunks.excluded_reason IS NOT NULL)
    FROM files
    WHERE files.repository_id = ?1
    ORDER BY files.path
    LIMIT 200");
    reveal_strlit("?");
    lemma_places();
    reveal_strlit("SELECT COUNT(*)");
    assert(s.sql.subrange(70, 85) =~= "SELECT COUNT(*)"@);
    lemma_says(s.sql, "SELECT COUNT(*)"@, 70);
    reveal_strlit("chunks.excluded_reason IS NULL");
    assert(s.sql.subrange(444, 474) =~= "chunks.excluded_reason IS NULL"@);
    lemma_says(s.sql, "chunks.excluded_reason IS NULL"@, 444);
    reveal_strlit("chunk_embeddings.generation_id = ");
    assert(s.sql.subrange(822, 857)
        =~= "chunk_embeddings.generation_id = "@ + "?"@ + decimal_digits(2));
    lemma_binds(s, "chunk_embeddings.generation_id = "@, 2, 822);
    reveal_strlit("chunk_embeddings.semantic_layer = 'fast'");
    assert(s.sql.subrange(877, 917) =~= "chunk_embeddings.semantic_layer = 'fast'"@);
    lemma_says(s.sql, "chunk_embeddings.semantic_layer = 'fast'"@, 877);
    reveal_strlit("chunk_embeddings.status = 'current'");
    assert(s.sql.subrange(937, 972) =~= "chunk_embeddings.status = 'current'"@);
    lemma_says(s.sql, "chunk_embeddings.status = 'current'"@, 937);
    reveal_strlit("chunks.excluded_reason IS NOT NULL");
    assert(s.sql.subrange(1069, 1103) =~= "chunks.excluded_reason IS NOT NULL"@);
    lemma_says(s.sql, "chunks.excluded_reason IS NOT NULL"@, 1069);
    reveal_strlit("files.repository_id = ");
    assert(s.sql.subrange(1130, 1154) =~= "files.repository_id = "@ + "?"@ + decimal_digits(1));
    lemma_binds(s, "files.repository_id = "@, 1, 1130);
    reveal_strlit("ORDER BY files.path");
    assert(s.sql.subrange(1159, 1178) =~= "ORDER BY files.path"@);
    lemma_says(s.sql, "ORDER BY files.path"@, 1159);
    reveal_strlit("LIMIT 200");
    assert(s.sql.subrange(1183, 1192) =~= "LIMIT 200"@);
    lemma_says(s.sql, "LIMIT 200"@, 1183);
}

/// What `file_chunk_details` asks for, by its text and the values that are bound.
pub proof fn law_file_chunk_details_says(
    file_id: Seq<char>,
    generation_id: Option<Seq<char>>,
)
    ensures
        ({
            let s = file_chunk_details_spec(file_id, generation_id);
            &&& binds(s, "chunk_embeddings.generation_id = "@, optional(generation_id))
            &&& says(s.sql, "chunk_embeddings.semantic_layer = 'fast'"@)
            &&& says(s.sql, "chunk_embeddings.status = 'current'"@)
            &&& binds(s, "chunks.file_id = "@, text(file_id))
            &&& says(s.sql, "ORDER BY chunks.start_line, chunks.kind"@)
            &&& says(s.sql, "LIMIT 6"@)
        }),
{
    let s = file_chunk_details_spec(file_id, generation_id);
    reveal_strlit("SELECT chunks.kind, symbols.qualified_name, chunks.start_line,
           chunks.end_line,
           EXISTS(
             SELECT 1
             FROM chunk_embeddings
             WHERE chunk_embeddings.chunk_id = chunks.id
               AND chunk_embeddings.file_id = chunks.file_id
               AND chunk_embeddings.generation_id = ?2
               AND chunk_embeddings.semantic_layer = 'fast'
               AND chunk_embeddings.status = 'current'
           ),
           chunks.excluded_reason
    FROM chunks
    LEFT JOIN symbols ON chunks.symbol_id = symbols.id
    WHERE chunks.file_id = ?1
    ORDER BY chunks.start_line, chunks.kind
    LIMIT 6");
    reveal_strlit("?");
    lemma_places();
    reveal_strlit("chunk_embeddings.generation_id = ");
    assert(s.sql.subrange(304, 339)
        =~= "chunk_embeddings.generation_id = "@ + "?"@ + decimal_digits(2));
    lemma_binds(s, "chunk_embeddings.generation_id = "@, 2, 304);
    reveal_strlit("chunk_embeddings.semantic_layer = 'fast'");
    assert(s.sql.subrange(359, 399) =~= "chunk_embeddings.semantic_layer = 'fast'"@);
    lemma_says(s.sql, "chunk_embeddings.semantic_layer = 'fast'"@, 359);
    reveal_strlit("chunk_embeddings.status = 'current'");
    assert(s.sql.subrange(419, 454) =~= "chunk_embeddings.status = 'current'"@);
    lemma_says(s.sql, "chunk_embeddings.status = 'current'"@, 419);
    reveal_strlit("chunks.file_id = ");
    assert(s.sql.subrange(584, 603) =~= "chunks.file_id = "@ + "?"@ + decimal_digits(1));
    lemma_binds(s, "chunks.file_id = "@, 1, 584);
    reveal_strlit("ORDER BY chunks.start_line, chunks.kind");
    assert(s.sql.subrange(608, 647) =~= "ORDER BY chunks.start_line, chunks.kind"@);
    lemma_says(s.sql, "ORDER BY chunks.start_line, chunks.kind"@, 608);
    reveal_strlit("LIMIT 6");
    assert(s.sql.subrange(652, 659) =~= "LIMIT 6"@);
    lemma_says(s.sql, "LIMIT 6"@, 652);
}

/// What `file_symbol_details` asks for, by its text and the values that are bound.
pub proof fn law_file_symbol_details_says(
    file_id: Seq<char>,
)
    ensures
        ({
            let s = file_symbol_details_spec(file_id);
            &&& binds(s, "file_id = "@, text(file_id))
            &&& says(s.sql, "ORDER BY start_line, qualified_name"@)
            &&& says(s.sql, "LIMIT 6"@)
        }),
{
    let s = file_symbol_details_spec(file_id);
    reveal_strlit("SELECT kind, qualified_name, parent_symbol_id, start_line, end_line
    FROM symbols
    WHERE file_id = ?1
    ORDER BY start_line, qualified_name
    LIMIT 6");
    reveal_strlit("?");
    lemma_places();
    reveal_strlit("file_id = ");
    assert(s.sql.subrange(95, 107) =~= "file_id = "@ + "?"@ + decimal_digits(1));
    lemma_binds(s, "file_id = "@, 1, 95);
    reveal_strlit("ORDER BY start_line, qualified_name");
    assert(s.sql.subrange(112, 147) =~= "ORDER BY start_line, qualified_name"@);
    lemma_says(s.sql, "ORDER BY start_line, qualified_name"@, 112);
    reveal_strlit("LIMIT 6");
    assert(s.sql.subrange(152, 159) =~= "LIMIT 6"@);
    lemma_says(s.sql, "LIMIT 6"@, 152);
}

/// What `file_call_details` asks for, by its text and the values that are bound.
pub proof fn law_file_call_details_says(
    file_id: Seq<char>,
)
    ensures
        ({
            let s = file_call_details_spec(file_id);
            &&& binds(s, "caller.file_id = "@, text(file_id))
            &&& says(s.sql, "ORDER BY calls.call_line, calls.callee_text"@)
            &&& says(s.sql, "LIMIT 6"@)
        }),
{
    let s = file_call_details_spec(file_id);
    reveal_strlit("SELECT caller.qualified_name, calls.callee_text, calls.call_line,
           calls.confidence, calls.resolution_status
    FROM calls
    JOIN symbols caller ON calls.caller_symbol_id = caller.id
    WHERE caller.file_id = ?1
    ORDER BY calls.call_line, calls.callee_text
    LIMIT 6");
    reveal_strlit("?");
    lemma_places();
    reveal_strlit("caller.file_id = ");
    assert(s.sql.subrange(206, 225) =~= "caller.file_id = "@ + "?"@ + decimal_digits(1));
    lemma_binds(s, "caller.file_id = "@, 1, 206);
    reveal_strlit("ORDER BY calls.call_line, calls.callee_text");
    assert(s.sql.subrange(230, 273) =~= "ORDER BY calls.call_line, calls.callee_text"@);
    lemma_says(s.sql, "ORDER BY calls.call_line, calls.callee_text"@, 230);
    reveal_strlit("LIMIT 6");
    assert(s.sql.subrange(278, 285) =~= "LIMIT 6"@);
    lemma_says(s.sql, "LIMIT 6"@, 278);
}

/// What `embedding_exclusion_reasons` asks for, by its text and the values that are bound.
pub proof fn law_embedding_exclusion_reasons_says(
    repository_id: Seq<char>,
)
    ensures
        ({
            let s = embedding_exclusion_reasons_spec(repository_id);
            &&& binds(s, "files.repository_id = "@, text(repository_id))
            &&& says(s.sql, "chunks.excluded_reason IS NOT NULL"@)
            &&& says(s.sql, "GROUP BY chunks.excluded_reason"@)
            &&& says(s.sql, "LIMIT 12"@)
        }),
{
    let s = embedding_exclusion_reasons_spec(repository_id);
    reveal_strlit("SELECT chunks.excluded_reason, COUNT(*)
    FROM chunks
    JOIN files ON chunks.file_id = files.id
    WHERE files.repository_id = ?1
      AND chunks.excluded_reason IS NOT NULL
    GROUP BY chunks.excluded_reason
    ORDER BY COUNT(*) DESC, chunks.excluded_reason
    LIMIT 12");
    reveal_strlit("?");
    lemma_places();
    reveal_strlit("files.repository_id = ");
    assert(s.sql.subrange(110, 134) =~= "files.repository_id = "@ + "?"@ + decimal_digits(1));
    lemma_binds(s, "files.repository_id = "@, 1, 110);
    reveal_strlit("chunks.excluded_reason IS NOT NULL");
    assert(s.sql.subrange(145, 179) =~= "chunks.excluded_reason IS NOT NULL"@);
    lemma_says(s.sql, "chunks.excluded_reason IS NOT NULL"@, 145);
    reveal_strlit("GROUP BY chunks.excluded_reason");
    assert(s.sql.subrange(184, 215) =~= "GROUP BY chunks.excluded_reason"@);
    lemma_says(s.sql, "GROUP BY chunks.excluded_reason"@, 184);
    reveal_strlit("LIMIT 12");
    assert(s.sql.subrange(271, 279) =~= "LIMIT 12"@);
    lemma_says(s.sql, "LIMIT 12"@, 271);
}

/// What `semantic_neighborhood` asks for, by its text and the values that are bound.
pub proof fn law_semantic_neighborhood_says(
    repository_id: Seq<char>,
    generation_id: Seq<char>,
)
    ensures
        ({
            let s = semantic_neighborhood_spec(repository_id, generation_id);
            &&& binds(s, "chunk_embeddings.repository_id = "@, text(repository_id))
            &&& binds(s, "files.repository_id = "@, text(repository_id))
            &&& binds(s, "chunk_embeddings.generation_id = "@, text(generation_id))
            &&& says(s.sql, "chunk_embeddings.semantic_layer = 'fast'"@)
            &&& says(s.sql, "chunk_embeddings.status = 'current'"@)
            &&& says(s.sql, "ORDER BY files.path, chunks.start_line, chunks.end_line, chunks.id"@)
            &&& says(s.sql, "LIMIT 100"@)
        }),
{
    let s = semantic_neighborhood_spec(repository_id, generation_id);
    reveal_strlit("SELECT chunk_embeddings.vector_point_id, files.path, chunks.start_line,
           chunks.end_line, symbols.qualified_name, chunks.kind,
           files.language, chunk_embeddings.text_hash
    FROM chunk_embeddings
    JOIN chunks ON chunk_embeddings.chunk_id = chunks.id
    JOIN files ON chunk_embeddings.file_id = files.id
              AND chunks.file_id = files.id
    LEFT JOIN symbols ON chunks.symbol_id = symbols.id
    WHERE chunk_embeddings.repository_id = ?1
      AND files.repository_id = ?1
      AND chunk_embeddings.generation_id = ?2
      AND chunk_embeddings.semantic_layer = 'fast'
      AND chunk_embeddings.status = 'current'
    ORDER BY files.path, chunks.start_line, chunks.end_line, chunks.id
    LIMIT 100");
    reveal_strlit("?");
    lemma_places();
    reveal_strlit("chunk_embeddings.repository_id = ");
    assert(s.sql.subrange(437, 472)
        =~= "chunk_embeddings.repository_id = "@ + "?"@ + decimal_digits(1));
    lemma_binds(s, "chunk_embeddings.repository_id = "@, 1, 437);
    reveal_strlit("files.repository_id = ");
    assert(s.sql.subrange(483, 507) =~= "files.repository_id = "@ + "?"@ + decimal_digits(1));
    lemma_binds(s, "files.repository_id = "@, 1, 483);
    reveal_strlit("chunk_embeddings.generation_id = ");
    assert(s.sql.subrange(518, 553)
        =~= "chunk_embeddings.generation_id = "@ + "?"@ + decimal_digits(2));
    lemma_binds(s, "chunk_embeddings.generation_id = "@, 2, 518);
    reveal_strlit("chunk_embeddings.semantic_layer = 'fast'");
    assert(s.sql.subrange(564, 604) =~= "chunk_embeddings.semantic_layer = 'fast'"@);
    lemma_says(s.sql, "chunk_embeddings.semantic_layer = 'fast'"@, 564);
    reveal_strlit("chunk_embeddings.status = 'current'");
    assert(s.sql.subrange(615, 650) =~= "chunk_embeddings.status = 'current'"@);
    lemma_says(s.sql, "chunk_embeddings.status = 'current'"@, 615);
    reveal_strlit("ORDER BY files.path, chunks.start_line, chunks.end_line, chunks.id");
    assert(s.sql.subrange(655, 721)
        =~= "ORDER BY files.path, chunks.start_line, chunks.end_line, chunks.id"@);
    lemma_says(s.sql, "ORDER BY files.path, chunks.start_line, chunks.end_line, chunks.id"@, 655);
    reveal_strlit("LIMIT 100");
    assert(s.sql.subrange(726, 735) =~= "LIMIT 100"@);
    lemma_says(s.sql, "LIMIT 100"@, 726);
}

/// What `symbol_outline` asks for, by its text and the values that are bound.
pub proof fn law_symbol_outline_says(
    repository_id: Seq<char>,
)
    ensures
        ({
            let s = symbol_outline_spec(repository_id);
            &&& binds(s, "files.repository_id = "@, text(repository_id))
            &&& says(s.sql, "ORDER BY files.path, symbols.start_line, symbols.qualified_name"@)
            &&& says(s.sql, "LIMIT 300"@)
        }),
{
    let s = symbol_outline_spec(repository_id);
    reveal_strlit("SELECT symbols.id, symbols.parent_symbol_id, symbols.kind,
           symbols.qualified_name, symbols.name, symbols.start_line,
           symbols.end_line, files.path
    FROM symbols
    JOIN files ON symbols.file_id = files.id
    WHERE files.repository_id = ?1
    ORDER BY files.path, symbols.start_line, symbols.qualified_name
    LIMIT 300");
    reveal_strlit("?");
    lemma_places();
    reveal_strlit("files.repository_id = ");
    assert(s.sql.subrange(240, 264) =~= "files.repository_id = "@ + "?"@ + decimal_digits(1));
    lemma_binds(s, "files.repository_id = "@, 1, 240);
    reveal_strlit("ORDER BY files.path, symbols.start_line, symbols.qualified_name");
    assert(s.sql.subrange(269, 332)
        =~= "ORDER BY files.path, symbols.start_line, symbols.qualified_name"@);
    lemma_says(s.sql, "ORDER BY files.path, symbols.start_line, symbols.qualified_name"@, 269);
    reveal_strlit("LIMIT 300");
    assert(s.sql.subrange(337, 346) =~= "LIMIT 300"@);
    lemma_says(s.sql, "LIMIT 300"@, 337);
}

/// What `call_resolution` asks for, by its text and the values that are bound.
pub proof fn law_call_resolution_says(
    repository_id: Seq<char>,
)
    ensures
        ({
            let s = call_resolution_spec(repository_id);
            &&& binds(s, "files.repository_id = "@, text(repository_id))
            &&& says(s.sql, "ORDER BY calls.resolution_status, calls.confidence ASC, files.path,
             calls.call_line, calls.callee_text"@)
            &&& says(s.sql, "LIMIT 500"@)
        }),
{
    let s = call_resolution_spec(repository_id);
    reveal_strlit("SELECT files.path, caller.qualified_name, calls.callee_text, calls.call_line,
           calls.confidence, calls.resolution_status
    FROM calls
    JOIN symbols caller ON calls.caller_symbol_id = caller.id
    JOIN files ON caller.file_id = files.id
    WHERE files.repository_id = ?1
    ORDER BY calls.resolution_status, calls.confidence ASC, files.path,
             calls.call_line, calls.callee_text
    LIMIT 500");
    reveal_strlit("?");
    lemma_places();
    reveal_strlit("files.repository_id = ");
    assert(s.sql.subrange(262, 286) =~= "files.repository_id = "@ + "?"@ + decimal_digits(1));
    lemma_binds(s, "files.repository_id = "@, 1, 262);
    reveal_strlit("ORDER BY calls.resolution_status, calls.confidence ASC, files.path,
             calls.call_line, calls.callee_text");
    assert(s.sql.subrange(291, 406) =~= "ORDER BY calls.resolution_status, calls.confidence ASC, files.path,
             calls.call_line, calls.callee_text"@);
    lemma_says(s.sql, "ORDER BY calls.resolution_status, calls.confidence ASC, files.path,
             calls.call_line, calls.callee_text"@, 291);
    reveal_strlit("LIMIT 500");
    assert(s.sql.subrange(411, 420) =~= "LIMIT 500"@);
    lemma_says(s.sql, "LIMIT 500"@, 411);
}

/// What `indexed_file_freshness_snapshots` asks for, by its text and the values that are bound.
pub proof fn law_indexed_file_freshness_snapshots_says(
    repository_id: Seq<char>,
)
    ensures
        ({
            let s = indexed_file_freshness_snapshots_spec(repository_id);
            &&& binds(s, "repository_id = "@, text(repository_id))
            &&& says(s.sql, "ORDER BY path"@)
        }),
{
    let s = indexed_file_freshness_snapshots_spec(repository_id);
    reveal_strlit("SELECT path, content_hash, indexed_at, index_run_id, parser_version
    FROM files
    WHERE repository_id = ?1
    ORDER BY path");
    reveal_strlit("?");
    lemma_places();
    reveal_strlit("repository_id = ");
    assert(s.sql.subrange(93, 111) =~= "repository_id = "@ + "?"@ + decimal_digits(1));
    lemma_binds(s, "repository_id = "@, 1, 93);
    reveal_strlit("ORDER BY path");
    assert(s.sql.subrange(116, 129) =~= "ORDER BY path"@);
    lemma_says(s.sql, "ORDER BY path"@, 116);
}

/// What `indexed_file_freshness_snapshots_for_ref` asks for, by its text and the values that are bound.
pub proof fn law_indexed_file_freshness_snapshots_for_ref_says(
    repository_id: Seq<char>,
    repository_ref_id: Seq<char>,
)
    ensures
        ({
            let s = indexed_file_freshness_snapshots_for_ref_spec(repository_id, repository_ref_id);
            &&& binds(s, "ref_files.repository_id = "@, text(repository_id))
            &&& binds(s, "ref_files.repository_ref_id = "@, text(repository_ref_id))
            &&& says(s.sql, "ORDER BY ref_files.path"@)
        }),
{
    let s = indexed_file_freshness_snapshots_for_ref_spec(repository_id, repository_ref_id);
    reveal_strlit("SELECT ref_files.path, files.content_hash, files.indexed_at,
          files.index_run_id, files.parser_version
     FROM ref_files
     JOIN files ON files.id = ref_files.file_id
               AND files.repository_id = ref_files.repository_id
    WHERE ref_files.repository_id = ?1
      AND ref_files.repository_ref_id = ?2
    ORDER BY ref_files.path");
    reveal_strlit("?");
    lemma_places();
    reveal_strlit("ref_files.repository_id = ");
    assert(s.sql.subrange(255, 283) =~= "ref_files.repository_id = "@ + "?"@ + decimal_digits(1));
    lemma_binds(s, "ref_files.repository_id = "@, 1, 255);
    reveal_strlit("ref_files.repository_ref_id = ");
    assert(s.sql.subrange(294, 326)
        =~= "ref_files.repository_ref_id = "@ + "?"@ + decimal_digits(2));
    lemma_binds(s, "ref_files.repository_ref_id = "@, 2, 294);
    reveal_strlit("ORDER BY ref_files.path");
    assert(s.sql.subrange(331, 354) =~= "ORDER BY ref_files.path"@);
    lemma_says(s.sql, "ORDER BY ref_files.path"@, 331);
}

/// What `rust_symbols_for_repository` asks for, by its text and the values that are bound.
pub proof fn law_rust_symbols_for_repository_says(
    repository_id: Seq<char>,
)
    ensures
        ({
            let s = rust_symbols_for_repository_spec(repository_id);
            &&& binds(s, "files.repository_id = "@, text(repository_id))
            &&& says(s.sql, "files.language = 'rust'"@)
            &&& says(
                s.sql,
                "ORDER BY symbols.qualified_name, files.path, symbols.start_line, symbols.id"@,
            )
        }),
{
    let s = rust_symbols_for_repository_spec(repository_id);
    reveal_strlit("SELECT symbols.id, symbols.file_id, symbols.parent_symbol_id, symbols.name,
           symbols.qualified_name, symbols.kind, symbols.signature,
           symbols.start_line, symbols.end_line, symbols.start_byte,
           symbols.end_byte, symbols.index_run_id, symbols.parser_version
    FROM symbols
    JOIN files ON symbols.file_id = files.id
    WHERE files.repository_id = ?1
      AND files.language = 'rust'
    ORDER BY symbols.qualified_name, files.path, symbols.start_line, symbols.id");
    reveal_strlit("?");
    lemma_places();
    reveal_strlit("files.repository_id = ");
    assert(s.sql.subrange(359, 383) =~= "files.repository_id = "@ + "?"@ + decimal_digits(1));
    lemma_binds(s, "files.repository_id = "@, 1, 359);
    reveal_strlit("files.language = 'rust'");
    assert(s.sql.subrange(394, 417) =~= "files.language = 'rust'"@);
    lemma_says(s.sql, "files.language = 'rust'"@, 394);
    reveal_strlit("ORDER BY symbols.qualified_name, files.path, symbols.start_line, symbols.id");
    assert(s.sql.subrange(422, 497)
        =~= "ORDER BY symbols.qualified_name, files.path, symbols.start_line, symbols.id"@);
    lemma_says(
        s.sql,
        "ORDER BY symbols.qualified_name, files.path, symbols.start_line, symbols.id"@,
        422,
    );
}

/// What `table_listed` asks for, by its text and the values that are bound.
pub proof fn law_table_listed_says(
    table_name: Seq<char>,
)
    ensures
        ({
            let s = table_listed_spec(table_name);
            &&& says(s.sql, "type = 'table'"@)
            &&& binds(s, "name = "@, text(table_name))
        }),
{
    let s = table_listed_spec(table_name);
    reveal_strlit("SELECT EXISTS(SELECT 1 FROM sqlite_master WHERE type = 'table' AND name = ?1)");
    reveal_strlit("?");
    lemma_places();
    reveal_strlit("type = 'table'");
    assert(s.sql.subrange(48, 62) =~= "type = 'table'"@);
    lemma_says(s.sql, "type = 'table'"@, 48);
    reveal_strlit("name = ");
    assert(s.sql.subrange(67, 76) =~= "name = "@ + "?"@ + decimal_digits(1));
    lemma_binds(s, "name = "@, 1, 67);
}

/// What `upsert_point_payload` asks for, by its text and the values that are bound.
pub proof fn law_upsert_point_payload_says(
    table_name: Seq<char>,
    rowid: i64,
    point: VectorPoint,
)
    ensures
        ({
            let s = upsert_point_payload_spec(table_name, rowid, point);
            &&& says(s.sql, "INSERT INTO vector_points"@)
            &&& says(s.sql, "INSERT INTO vector_points (
      vector_store, vector_table, vector_rowid, vector_point_id,
      repository_id, file_id, chunk_id, symbol_id, symbol_name,
      path, language, chunk_kind, start_line, end_line, text_hash,
      parser_version, content_hash, index_run_id, embedding_model,
      embedding_dimension, indexed_at
    )
    VALUES ('sqlite_vec', ?1, ?2, ?3, ?4, ?5, ?6, ?7, ?8, ?9, ?10, ?11, ?12, ?13, ?14, ?15, ?16, ?17, ?18, ?19, ?20)"@)
            &&& says(s.sql, "ON CONFLICT(vector_store, vector_table, vector_point_id)"@)
            &&& says(s.sql, "UPDATE SET"@)
            &&& ({
                let columns = seq![
                    "vector_table"@,
                    "vector_rowid"@,
                    "vector_point_id"@,
                    "repository_id"@,
                    "file_id"@,
                    "chunk_id"@,
                    "symbol_id"@,
                    "symbol_name"@,
                    "path"@,
                    "language"@,
                    "chunk_kind"@,
                    "start_line"@,
                    "end_line"@,
                    "text_hash"@,
                    "parser_version"@,
                    "content_hash"@,
                    "index_run_id"@,
                    "embedding_model"@,
                    "embedding_dimension"@,
                    "indexed_at"@,
                ];
                let stored = seq![
                    s.params[0],
                    s.params[1],
                    s.params[2],
                    s.params[3],
                    s.params[4],
                    s.params[5],
                    s.params[6],
                    s.params[7],
                    s.params[8],
                    s.params[9],
                    s.params[10],
                    s.params[11],
                    s.params[12],
                    s.params[13],
                    s.params[14],
                    s.params[15],
                    s.params[16],
                    s.params[17],
                    s.params[18],
                    s.params[19],
                ];
                &&& stores(columns, stored, "vector_table"@, text(table_name))
                &&& stores(columns, stored, "vector_rowid"@, Value::Integer(rowid as int))
                &&& stores(columns, stored, "vector_point_id"@, text(point.id@))
                &&& stores(columns, stored, "repository_id"@, text(point.payload.repository_id@))
                &&& stores(columns, stored, "file_id"@, text(point.payload.file_id@))
                &&& stores(columns, stored, "chunk_id"@, text(point.payload.chunk_id@))
                &&& stores(
                    columns,
                    stored,
                    "symbol_id"@,
                    optional(optional_text(point.payload.symbol_id)),
                )
                &&& stores(
                    columns,
                    stored,
                    "symbol_name"@,
                    optional(optional_text(point.payload.symbol_name)),
                )
                &&& stores(columns, stored, "path"@, text(point.payload.path@))
                &&& stores(columns, stored, "language"@, text(point.payload.language@))
                &&& stores(columns, stored, "chunk_kind"@, text(point.payload.chunk_kind@))
                &&& stores(columns, stored, "start_line"@, count(point.payload.start_line))
                &&& stores(columns, stored, "end_line"@, count(point.payload.end_line))
                &&& stores(columns, stored, "text_hash"@, text(point.payload.text_hash@))
                &&& stores(
                    columns,
                    stored,
                    "parser_version"@,
                    optional(optional_text(point.payload.parser_version)),
                )
                &&& stores(
                    columns,
                    stored,
                    "content_hash"@,
                    optional(optional_text(point.payload.content_hash)),
                )
                &&& stores(
                    columns,
                    stored,
                    "index_run_id"@,
                    optional(optional_text(point.payload.index_run_id)),
                )
                &&& stores(
                    columns,
                    stored,
                    "embedding_model"@,
                    optional(optional_text(point.payload.embedding_model)),
                )
                &&& stores(
                    columns,
                    stored,
                    "embedding_dimension"@,
                    optional_count(point.payload.embedding_dimension),
                )
                &&& stores(
                    columns,
                    stored,
                    "indexed_at"@,
                    optional(optional_text(point.payload.indexed_at)),
                )
            })
        }),
{
    let s = upsert_point_payload_spec(table_name, rowid, point);
    let columns = seq![
        "vector_table"@,
        "vector_rowid"@,
        "vector_point_id"@,
        "repository_id"@,
        "file_id"@,
        "chunk_id"@,
        "symbol_id"@,
        "symbol_name"@,
        "path"@,
        "language"@,
        "chunk_kind"@,
        "start_line"@,
        "end_line"@,
        "text_hash"@,
        "parser_version"@,
        "content_hash"@,
        "index_run_id"@,
        "embedding_model"@,
        "embedding_dimension"@,
        "indexed_at"@,
    ];
    let stored = seq![
        s.params[0],
        s.params[1],
        s.params[2],
        s.params[3],
        s.params[4],
        s.params[5],
        s.params[6],
        s.params[7],
        s.params[8],
        s.params[9],
        s.params[10],
        s.params[11],
        s.params[12],
        s.params[13],
        s.params[14],
        s.params[15],
        s.params[16],
        s.params[17],
        s.params[18],
        s.params[19],
    ];
    assert(columns[0] == "vector_table"@ && stored[0] == text(table_name));
    assert(columns[1] == "vector_rowid"@ && stored[1] == Value::Integer(rowid as int));
    assert(columns[2] == "vector_point_id"@ && stored[2] == text(point.id@));
    assert(columns[3] == "repository_id"@ && stored[3] == text(point.payload.repository_id@));
    assert(columns[4] == "file_id"@ && stored[4] == text(point.payload.file_id@));
    assert(columns[5] == "chunk_id"@ && stored[5] == text(point.payload.chunk_id@));
    assert(columns[6] == "symbol_id"@ && stored[6] == optional(optional_text(point.payload.symbol_id)));
    assert(columns[7] == "symbol_name"@ && stored[7] == optional(optional_text(point.payload.symbol_name)));
    assert(columns[8] == "path"@ && stored[8] == text(point.payload.path@));
    assert(columns[9] == "language"@ && stored[9] == text(point.payload.language@));
    assert(columns[10] == "chunk_kind"@ && stored[10] == text(point.payload.chunk_kind@));
    assert(columns[11] == "start_line"@ && stored[11] == count(point.payload.start_line));
    assert(columns[12] == "end_line"@ && stored[12] == count(point.payload.end_line));
    assert(columns[13] == "text_hash"@ && stored[13] == text(point.payload.text_hash@));
    assert(columns[14] == "parser_version"@ && stored[14] == optional(optional_text(point.payload.parser_version)));
    assert(columns[15] == "content_hash"@ && stored[15] == optional(optional_text(point.payload.content_hash)));
    assert(columns[16] == "index_run_id"@ && stored[16] == optional(optional_text(point.payload.index_run_id)));
    assert(columns[17] == "embedding_model"@ && stored[17] == optional(optional_text(point.payload.embedding_model)));
    assert(columns[18] == "embedding_dimension"@ && stored[18] == optional_count(point.payload.embedding_dimension));
    assert(columns[19] == "indexed_at"@ && stored[19] == optional(optional_text(point.payload.indexed_at)));
    reveal_strlit("INSERT INTO vector_points (
      vector_store, vector_table, vector_rowid, vector_point_id,
      repository_id, file_id, chunk_id, symbol_id, symbol_name,
      path, language, chunk_kind, start_line, end_line, text_hash,
      parser_version, content_hash, index_run_id, embedding_model,
      embedding_dimension, indexed_at
    )
    VALUES ('sqlite_vec', ?1, ?2, ?3, ?4, ?5, ?6, ?7, ?8, ?9, ?10, ?11, ?12, ?13, ?14, ?15, ?16, ?17, ?18, ?19, ?20)
    ON CONFLICT(vector_store, vector_table, vector_point_id)
    DO UPDATE SET
      vector_rowid = excluded.vector_rowid,
      repository_id = excluded.repository_id,
      file_id = excluded.file_id,
      chunk_id = excluded.chunk_id,
      symbol_id = excluded.symbol_id,
      symbol_name = excluded.symbol_name,
      path = excluded.path,
      language = excluded.language,
      chunk_kind = excluded.chunk_kind,
      start_line = excluded.start_line,
      end_line = excluded.end_line,
      text_hash = excluded.text_hash,
      parser_version = excluded.parser_version,
      content_hash = excluded.content_hash,
      index_run_id = excluded.index_run_id,
      embedding_model = excluded.embedding_model,
      embedding_dimension = excluded.embedding_dimension,
      indexed_at = excluded.indexed_at");
    reveal_strlit("INSERT INTO vector_points");
    assert(s.sql.subrange(0, 25) =~= "INSERT INTO vector_points"@);
    lemma_says(s.sql, "INSERT INTO vector_points"@, 0);
    reveal_strlit("INSERT INTO vector_points (
      vector_store, vector_table, vector_rowid, vector_point_id,
      repository_id, file_id, chunk_id, symbol_id, symbol_name,
      path, language, chunk_kind, start_line, end_line, text_hash,
      parser_version, content_hash, index_run_id, embedding_model,
      embedding_dimension, indexed_at
    )
    VALUES ('sqlite_vec', ?1, ?2, ?3, ?4, ?5, ?6, ?7, ?8, ?9, ?10, ?11, ?12, ?13, ?14, ?15, ?16, ?17, ?18, ?19, ?20)");
    assert(s.sql.subrange(0, 451) =~= "INSERT INTO vector_points (
      vector_store, vector_table, vector_rowid, vector_point_id,
      repository_id, file_id, chunk_id, symbol_id, symbol_name,
      path, language, chunk_kind, start_line, end_line, text_hash,
      parser_version, content_hash, index_run_id, embedding_model,
      embedding_dimension, indexed_at
    )
    VALUES ('sqlite_vec', ?1, ?2, ?3, ?4, ?5, ?6, ?7, ?8, ?9, ?10, ?11, ?12, ?13, ?14, ?15, ?16, ?17, ?18, ?19, ?20)"@);
    lemma_says(s.sql, "INSERT INTO vector_points (
      vector_store, vector_table, vector_rowid, vector_point_id,
      repository_id, file_id, chunk_id, symbol_id, symbol_name,
      path, language, chunk_kind, start_line, end_line, text_hash,
      parser_version, content_hash, index_run_id, embedding_model,
      embedding_dimension, indexed_at
    )
    VALUES ('sqlite_vec', ?1, ?2, ?3, ?4, ?5, ?6, ?7, ?8, ?9, ?10, ?11, ?12, ?13, ?14, ?15, ?16, ?17, ?18, ?19, ?20)"@, 0);
    reveal_strlit("ON CONFLICT(vector_store, vector_table, vector_point_id)");
    assert(s.sql.subrange(456, 512)
        =~= "ON CONFLICT(vector_store, vector_table, vector_point_id)"@);
    lemma_says(s.sql, "ON CONFLICT(vector_store, vector_table, vector_point_id)"@, 456);
    reveal_strlit("UPDATE SET");
    assert(s.sql.subrange(520, 530) =~= "UPDATE SET"@);
    lemma_says(s.sql, "UPDATE SET"@, 520);
}

/// What `delete_point_payload` asks for, by its text and the values that are bound.
pub proof fn law_delete_point_payload_says(
    table_name: Seq<char>,
    point_id: Seq<char>,
)
    ensures
        ({
            let s = delete_point_payload_spec(table_name, point_id);
            &&& says(s.sql, "DELETE FROM vector_points"@)
            &&& says(s.sql, "vector_store = 'sqlite_vec'"@)
            &&& binds(s, "vector_table = "@, text(table_name))
            &&& binds(s, "vector_point_id = "@, text(point_id))
        }),
{
    let s = delete_point_payload_spec(table_name, point_id);
    reveal_strlit("DELETE FROM vector_points
    WHERE vector_store = 'sqlite_vec'
      AND vector_table = ?1
      AND vector_point_id = ?2");
    reveal_strlit("?");
    lemma_places();
    reveal_strlit("DELETE FROM vector_points");
    assert(s.sql.subrange(0, 25) =~= "DELETE FROM vector_points"@);
    lemma_says(s.sql, "DELETE FROM vector_points"@, 0);
    reveal_strlit("vector_store = 'sqlite_vec'");
    assert(s.sql.subrange(36, 63) =~= "vector_store = 'sqlite_vec'"@);
    lemma_says(s.sql, "vector_store = 'sqlite_vec'"@, 36);
    reveal_strlit("vector_table = ");
    assert(s.sql.subrange(74, 91) =~= "vector_table = "@ + "?"@ + decimal_digits(1));
    lemma_binds(s, "vector_table = "@, 1, 74);
    reveal_strlit("vector_point_id = ");
    assert(s.sql.subrange(102, 122) =~= "vector_point_id = "@ + "?"@ + decimal_digits(2));
    lemma_binds(s, "vector_point_id = "@, 2, 102);
}

/// What `scroll_points` asks for, by its text and the values that are bound.
pub proof fn law_scroll_points_says(
    table_name: Seq<char>,
    repository_id: Seq<char>,
)
    ensures
        ({
            let s = scroll_points_spec(table_name, repository_id);
            &&& says(s.sql, "vector_store = 'sqlite_vec'"@)
            &&& binds(s, "vector_table = "@, text(table_name))
            &&& binds(s, "repository_id = "@, text(repository_id))
            &&& says(s.sql, "ORDER BY vector_point_id"@)
        }),
{
    let s = scroll_points_spec(table_name, repository_id);
    reveal_strlit("SELECT vector_point_id, repository_id, file_id, chunk_id, symbol_id,
           symbol_name, path, language, chunk_kind, start_line, end_line,
           text_hash, parser_version, content_hash, index_run_id,
           embedding_model, embedding_dimension, indexed_at
    FROM vector_points
    WHERE vector_store = 'sqlite_vec'
      AND vector_table = ?1
      AND repository_id = ?2
    ORDER BY vector_point_id");
    reveal_strlit("?");
    lemma_places();
    reveal_strlit("vector_store = 'sqlite_vec'");
    assert(s.sql.subrange(302, 329) =~= "vector_store = 'sqlite_vec'"@);
    lemma_says(s.sql, "vector_store = 'sqlite_vec'"@, 302);
    reveal_strlit("vector_table = ");
    assert(s.sql.subrange(340, 357) =~= "vector_table = "@ + "?"@ + decimal_digits(1));
    lemma_binds(s, "vector_table = "@, 1, 340);
    reveal_strlit("repository_id = ");
    assert(s.sql.subrange(368, 386) =~= "repository_id = "@ + "?"@ + decimal_digits(2));
    lemma_binds(s, "repository_id = "@, 2, 368);
    reveal_strlit("ORDER BY vector_point_id");
    assert(s.sql.subrange(391, 415) =~= "ORDER BY vector_point_id"@);
    lemma_says(s.sql, "ORDER BY vector_point_id"@, 391);
}

/// What `watcher_status` asks for, by its text and the values that are bound.
pub proof fn law_watcher_status_says(
    repository_id: Seq<char>,
)
    ensures
        ({
            let s = watcher_status_spec(repository_id);
            &&& binds(s, "repository_id = "@, text(repository_id))
        }),
{
    let s = watcher_status_spec(repository_id);
    reveal_strlit("SELECT repository_id, root_path, mode, owner_kind, owner_pid, socket_path,
          state, started_at, updated_at, heartbeat_at, files_seen, queued_events,
          last_indexed_path, last_error, active_layer, quality_status,
          quality_pending_jobs, quality_running_jobs, quality_failed_jobs,
          quality_stale_jobs
     FROM watchers
    WHERE repository_id = ?1");
    reveal_strlit("?");
    lemma_places();
    reveal_strlit("repository_id = ");
    assert(s.sql.subrange(361, 379) =~= "repository_id = "@ + "?"@ + decimal_digits(1));
    lemma_binds(s, "repository_id = "@, 1, 361);
}

/// What `upsert_watcher_status` asks for, by its text and the values that are bound.
pub proof fn law_upsert_watcher_status_says(
    status: WatcherStatusRecord,
    now: Seq<char>,
)
    ensures
        ({
            let s = upsert_watcher_status_spec(status, now);
            &&& says(s.sql, "INSERT INTO watchers"@)
            &&& says(s.sql, "INSERT INTO watchers (
      repository_id, root_path, mode, owner_kind, owner_pid, socket_path,
      state, started_at, updated_at, heartbeat_at, files_seen, queued_events,
      last_indexed_path, last_error, active_layer, quality_status,
      quality_pending_jobs, quality_running_jobs, quality_failed_jobs,
      quality_stale_jobs
    )
    VALUES (?1, ?2, ?3, ?4, ?5, ?6, ?7, ?8, ?9, ?10, ?11, ?12, ?13, ?14, ?15, ?16, ?17, ?18, ?19, ?20)"@)
            &&& says(s.sql, "ON CONFLICT(repository_id)"@)
            &&& says(s.sql, "UPDATE SET"@)
            &&& ({
                let columns = seq![
                    "repository_id"@,
                    "root_path"@,
                    "mode"@,
                    "owner_kind"@,
                    "owner_pid"@,
                    "socket_path"@,
                    "state"@,
                    "started_at"@,
                    "updated_at"@,
                    "heartbeat_at"@,
                    "files_seen"@,
                    "queued_events"@,
                    "last_indexed_path"@,
                    "last_error"@,
                    "active_layer"@,
                    "quality_status"@,
                    "quality_pending_jobs"@,
                    "quality_running_jobs"@,
                    "quality_failed_jobs"@,
                    "quality_stale_jobs"@,
                ];
                let stored = seq![
                    s.params[0],
                    s.params[1],
                    s.params[2],
                    s.params[3],
                    s.params[4],
                    s.params[5],
                    s.params[6],
                    s.params[7],
                    s.params[8],
                    s.params[9],
                    s.params[10],
                    s.params[11],
                    s.params[12],
                    s.params[13],
                    s.params[14],
                    s.params[15],
                    s.params[16],
                    s.params[17],
                    s.params[18],
                    s.params[19],
                ];
                &&& stores(columns, stored, "repository_id"@, text(status.repository_id@))
                &&& stores(columns, stored, "root_path"@, text(status.root_path@))
                &&& stores(columns, stored, "mode"@, text(status.mode@))
                &&& stores(columns, stored, "owner_kind"@, text(status.owner_kind@))
                &&& stores(columns, stored, "owner_pid"@, optional_small(status.owner_pid))
                &&& stores(
                    columns,
                    stored,
                    "socket_path"@,
                    optional(optional_text(status.socket_path)),
                )
                &&& stores(columns, stored, "state"@, text(status.state@))
                &&& stores(
                    columns,
                    stored,
                    "started_at"@,
                    text(known_or_spec(status.started_at, now)),
                )
                &&& stores(columns, stored, "updated_at"@, text(now))
                &&& stores(
                    columns,
                    stored,
                    "heartbeat_at"@,
                    text(known_or_spec(status.heartbeat_at, now)),
                )
                &&& stores(columns, stored, "files_seen"@, count(status.files_seen))
                &&& stores(columns, stored, "queued_events"@, count(status.queued_events))
                &&& stores(
                    columns,
                    stored,
                    "last_indexed_path"@,
                    optional(optional_text(status.last_indexed_path)),
                )
                &&& stores(
                    columns,
                    stored,
                    "last_error"@,
                    optional(optional_text(status.last_error)),
                )
                &&& stores(
                    columns,
                    stored,
                    "active_layer"@,
                    optional(optional_text(status.active_layer)),
                )
                &&& stores(
                    columns,
                    stored,
                    "quality_status"@,
                    optional(optional_text(status.quality_status)),
                )
                &&& stores(
                    columns,
                    stored,
                    "quality_pending_jobs"@,
                    count(status.quality_pending_jobs),
                )
                &&& stores(
                    columns,
                    stored,
                    "quality_running_jobs"@,
                    count(status.quality_running_jobs),
                )
                &&& stores(
                    columns,
                    stored,
                    "quality_failed_jobs"@,
                    count(status.quality_failed_jobs),
                )
                &&& stores(columns, stored, "quality_stale_jobs"@, count(status.quality_stale_jobs))
            })
        }),
{
    let s = upsert_watcher_status_spec(status, now);
    let columns = seq![
        "repository_id"@,
        "root_path"@,
        "mode"@,
        "owner_kind"@,
        "owner_pid"@,
        "socket_path"@,
        "state"@,
        "started_at"@,
        "updated_at"@,
        "heartbeat_at"@,
        "files_seen"@,
        "queued_events"@,
        "last_indexed_path"@,
        "last_error"@,
        "active_layer"@,
        "quality_status"@,
        "quality_pending_jobs"@,
        "quality_running_jobs"@,
        "quality_failed_jobs"@,
        "quality_stale_jobs"@,
    ];
    let stored = seq![
        s.params[0],
        s.params[1],
        s.params[2],
        s.params[3],
        s.params[4],
        s.params[5],
        s.params[6],
        s.params[7],
        s.params[8],
        s.params[9],
        s.params[10],
        s.params[11],
        s.params[12],
        s.params[13],
        s.params[14],
        s.params[15],
        s.params[16],
        s.params[17],
        s.params[18],
        s.params[19],
    ];
    assert(columns[0] == "repository_id"@ && stored[0] == text(status.repository_id@));
    assert(columns[1] == "root_path"@ && stored[1] == text(status.root_path@));
    assert(columns[2] == "mode"@ && stored[2] == text(status.mode@));
    assert(columns[3] == "owner_kind"@ && stored[3] == text(status.owner_kind@));
    assert(columns[4] == "owner_pid"@ && stored[4] == optional_small(status.owner_pid));
    assert(columns[5] == "socket_path"@ && stored[5] == optional(optional_text(status.socket_path)));
    assert(columns[6] == "state"@ && stored[6] == text(status.state@));
    assert(columns[7] == "started_at"@ && stored[7] == text(known_or_spec(status.started_at, now)));
    assert(columns[8] == "updated_at"@ && stored[8] == text(now));
    assert(columns[9] == "heartbeat_at"@ && stored[9] == text(known_or_spec(status.heartbeat_at, now)));
    assert(columns[10] == "files_seen"@ && stored[10] == count(status.files_seen));
    assert(columns[11] == "queued_events"@ && stored[11] == count(status.queued_events));
    assert(columns[12] == "last_indexed_path"@ && stored[12] == optional(optional_text(status.last_indexed_path)));
    assert(columns[13] == "last_error"@ && stored[13] == optional(optional_text(status.last_error)));
    assert(columns[14] == "active_layer"@ && stored[14] == optional(optional_text(status.active_layer)));
    assert(columns[15] == "quality_status"@ && stored[15] == optional(optional_text(status.quality_status)));
    assert(columns[16] == "quality_pending_jobs"@ && stored[16] == count(status.quality_pending_jobs));
    assert(columns[17] == "quality_running_jobs"@ && stored[17] == count(status.quality_running_jobs));
    assert(columns[18] == "quality_failed_jobs"@ && stored[18] == count(status.quality_failed_jobs));
    assert(columns[19] == "quality_stale_jobs"@ && stored[19] == count(status.quality_stale_jobs));
    reveal_strlit("INSERT INTO watchers (
      repository_id, root_path, mode, owner_kind, owner_pid, socket_path,
      state, started_at, updated_at, heartbeat_at, files_seen, queued_events,
      last_indexed_path, last_error, active_layer, quality_status,
      quality_pending_jobs, quality_running_jobs, quality_failed_jobs,
      quality_stale_jobs
    )
    VALUES (?1, ?2, ?3, ?4, ?5, ?6, ?7, ?8, ?9, ?10, ?11, ?12, ?13, ?14, ?15, ?16, ?17, ?18, ?19, ?20)
    ON CONFLICT(repository_id) DO UPDATE SET
      root_path = excluded.root_path,
      mode = excluded.mode,
      owner_kind = excluded.owner_kind,
      owner_pid = excluded.owner_pid,
      socket_path = excluded.socket_path,
      state = excluded.state,
      started_at = excluded.started_at,
      updated_at = excluded.updated_at,
      heartbeat_at = excluded.heartbeat_at,
      files_seen = excluded.files_seen,
      queued_events = excluded.queued_events,
      last_indexed_path = excluded.last_indexed_path,
      last_error = excluded.last_error,
      active_layer = excluded.active_layer,
      quality_status = excluded.quality_status,
      quality_pending_jobs = excluded.quality_pending_jobs,
      quality_running_jobs = excluded.quality_running_jobs,
      quality_failed_jobs = excluded.quality_failed_jobs,
      quality_stale_jobs = excluded.quality_stale_jobs");
    reveal_strlit("INSERT INTO watchers");
    assert(s.sql.subrange(0, 20) =~= "INSERT INTO watchers"@);
    lemma_says(s.sql, "INSERT INTO watchers"@, 0);
    reveal_strlit("INSERT INTO watchers (
      repository_id, root_path, mode, owner_kind, owner_pid, socket_path,
      state, started_at, updated_at, heartbeat_at, files_seen, queued_events,
      last_indexed_path, last_error, active_layer, quality_status,
      quality_pending_jobs, quality_running_jobs, quality_failed_jobs,
      quality_stale_jobs
    )
    VALUES (?1, ?2, ?3, ?4, ?5, ?6, ?7, ?8, ?9, ?10, ?11, ?12, ?13, ?14, ?15, ?16, ?17, ?18, ?19, ?20)");
    assert(s.sql.subrange(0, 446) =~= "INSERT INTO watchers (
      repository_id, root_path, mode, owner_kind, owner_pid, socket_path,
      state, started_at, updated_at, heartbeat_at, files_seen, queued_events,
      last_indexed_path, last_error, active_layer, quality_status,
      quality_pending_jobs, quality_running_jobs, quality_failed_jobs,
      quality_stale_jobs
    )
    VALUES (?1, ?2, ?3, ?4, ?5, ?6, ?7, ?8, ?9, ?10, ?11, ?12, ?13, ?14, ?15, ?16, ?17, ?18, ?19, ?20)"@);
    lemma_says(s.sql, "INSERT INTO watchers (
      repository_id, root_path, mode, owner_kind, owner_pid, socket_path,
      state, started_at, updated_at, heartbeat_at, files_seen, queued_events,
      last_indexed_path, last_error, active_layer, quality_status,
      quality_pending_jobs, quality_running_jobs, quality_failed_jobs,
      quality_stale_jobs
    )
    VALUES (?1, ?2, ?3, ?4, ?5, ?6, ?7, ?8, ?9, ?10, ?11, ?12, ?13, ?14, ?15, ?16, ?17, ?18, ?19, ?20)"@, 0);
    reveal_strlit("ON CONFLICT(repository_id)");
    assert(s.sql.subrange(451, 477) =~= "ON CONFLICT(repository_id)"@);
    lemma_says(s.sql, "ON CONFLICT(repository_id)"@, 451);
    reveal_strlit("UPDATE SET");
    assert(s.sql.subrange(481, 491) =~= "UPDATE SET"@);
    lemma_says(s.sql, "UPDATE SET"@, 481);
}

/// What `mark_watcher_stopped` asks for, by its text and the values that are bound.
pub proof fn law_mark_watcher_stopped_says(
    repository_id: Seq<char>,
    now: Seq<char>,
)
    ensures
        ({
            let s = mark_watcher_stopped_spec(repository_id, now);
            &&& says(s.sql, "UPDATE watchers"@)
            &&& says(s.sql, "state = 'stopped'"@)
            &&& binds(s, "updated_at = "@, text(now))
            &&& binds(s, "heartbeat_at = "@, text(now))
            &&& says(s.sql, "owner_pid = NULL"@)
            &&& says(s.sql, "socket_path = NULL"@)
            &&& says(s.sql, "queued_events = 0"@)
            &&& binds(s, "repository_id = "@, text(repository_id))
        }),
{
    let s = mark_watcher_stopped_spec(repository_id, now);
    reveal_strlit("UPDATE watchers
      SET state = 'stopped',
          updated_at = ?2,
          heartbeat_at = ?2,
          owner_pid = NULL,
          socket_path = NULL,
          queued_events = 0
    WHERE repository_id = ?1");
    reveal_strlit("?");
    lemma_places();
    reveal_strlit("UPDATE watchers");
    assert(s.sql.subrange(0, 15) =~= "UPDATE watchers"@);
    lemma_says(s.sql, "UPDATE watchers"@, 0);
    reveal_strlit("state = 'stopped'");
    assert(s.sql.subrange(26, 43) =~= "state = 'stopped'"@);
    lemma_says(s.sql, "state = 'stopped'"@, 26);
    reveal_strlit("updated_at = ");
    assert(s.sql.subrange(55, 70) =~= "updated_at = "@ + "?"@ + decimal_digits(2));
    lemma_binds(s, "updated_at = "@, 2, 55);
    reveal_strlit("heartbeat_at = ");
    assert(s.sql.subrange(82, 99) =~= "heartbeat_at = "@ + "?"@ + decimal_digits(2));
    lemma_binds(s, "heartbeat_at = "@, 2, 82);
    reveal_strlit("owner_pid = NULL");
    assert(s.sql.subrange(111, 127) =~= "owner_pid = NULL"@);
    lemma_says(s.sql, "owner_pid = NULL"@, 111);
    reveal_strlit("socket_path = NULL");
    assert(s.sql.subrange(139, 157) =~= "socket_path = NULL"@);
    lemma_says(s.sql, "socket_path = NULL"@, 139);
    reveal_strlit("queued_events = 0");
    assert(s.sql.subrange(169, 186) =~= "queued_events = 0"@);
    lemma_says(s.sql, "queued_events = 0"@, 169);
    reveal_strlit("repository_id = ");
    assert(s.sql.subrange(197, 215) =~= "repository_id = "@ + "?"@ + decimal_digits(1));
    lemma_binds(s, "repository_id = "@, 1, 197);
}

/// What `mark_watcher_failed` asks for, by its text and the values that are bound.
pub proof fn law_mark_watcher_failed_says(
    repository_id: Seq<char>,
    error: Seq<char>,
    now: Seq<char>,
)
    ensures
        ({
            let s = mark_watcher_failed_spec(repository_id, error, now);
            &&& says(s.sql, "UPDATE watchers"@)
            &&& says(s.sql, "state = 'failed'"@)
            &&& binds(s, "updated_at = "@, text(now))
            &&& binds(s, "heartbeat_at = "@, text(now))
            &&& binds(s, "last_error = "@, text(error))
            &&& says(s.sql, "owner_pid = NULL"@)
            &&& says(s.sql, "socket_path = NULL"@)
            &&& binds(s, "repository_id = "@, text(repository_id))
        }),
{
    let s = mark_watcher_failed_spec(repository_id, error, now);
    reveal_strlit("UPDATE watchers
      SET state = 'failed',
          updated_at = ?2,
          heartbeat_at = ?2,
          last_error = ?3,
          owner_pid = NULL,
          socket_path = NULL
    WHERE repository_id = ?1");
    reveal_strlit("?");
    lemma_places();
    reveal_strlit("UPDATE watchers");
    assert(s.sql.subrange(0, 15) =~= "UPDATE watchers"@);
    lemma_says(s.sql, "UPDATE watchers"@, 0);
    reveal_strlit("state = 'failed'");
    assert(s.sql.subrange(26, 42) =~= "state = 'failed'"@);
    lemma_says(s.sql, "state = 'failed'"@, 26);
    reveal_strlit("updated_at = ");
    assert(s.sql.subrange(54, 69) =~= "updated_at = "@ + "?"@ + decimal_digits(2));
    lemma_binds(s, "updated_at = "@, 2, 54);
    reveal_strlit("heartbeat_at = ");
    assert(s.sql.subrange(81, 98) =~= "heartbeat_at = "@ + "?"@ + decimal_digits(2));
    lemma_binds(s, "heartbeat_at = "@, 2, 81);
    reveal_strlit("last_error = ");
    assert(s.sql.subrange(110, 125) =~= "last_error = "@ + "?"@ + decimal_digits(3));
    lemma_binds(s, "last_error = "@, 3, 110);
    reveal_strlit("owner_pid = NULL");
    assert(s.sql.subrange(137, 153) =~= "owner_pid = NULL"@);
    lemma_says(s.sql, "owner_pid = NULL"@, 137);
    reveal_strlit("socket_path = NULL");
    assert(s.sql.subrange(165, 183) =~= "socket_path = NULL"@);
    lemma_says(s.sql, "socket_path = NULL"@, 165);
    reveal_strlit("repository_id = ");
    assert(s.sql.subrange(194, 212) =~= "repository_id = "@ + "?"@ + decimal_digits(1));
    lemma_binds(s, "repository_id = "@, 1, 194);
}

/// What `upsert_watcher_client` asks for, by its text and the values that are bound.
pub proof fn law_upsert_watcher_client_says(
    client: WatcherClientRecord,
    now: Seq<char>,
)
    ensures
        ({
            let s = upsert_watcher_client_spec(client, now);
            &&& says(s.sql, "INSERT INTO watcher_clients"@)
            &&& says(s.sql, "INSERT INTO watcher_clients (
      repository_id, client_id, client_kind, pid, started_at,
      heartbeat_at, last_seen_at
    )
    VALUES (?1, ?2, ?3, ?4, ?5, ?6, ?6)"@)
            &&& says(s.sql, "ON CONFLICT(repository_id, client_id)"@)
            &&& says(s.sql, "UPDATE SET"@)
            &&& ({
                let columns = seq![
                    "repository_id"@,
                    "client_id"@,
                    "client_kind"@,
                    "pid"@,
                    "started_at"@,
                    "heartbeat_at"@,
                    "last_seen_at"@,
                ];
                let stored = seq![
                    s.params[0],
                    s.params[1],
                    s.params[2],
                    s.params[3],
                    s.params[4],
                    s.params[5],
                    s.params[5],
                ];
                &&& stores(columns, stored, "repository_id"@, text(client.repository_id@))
                &&& stores(columns, stored, "client_id"@, text(client.client_id@))
                &&& stores(columns, stored, "client_kind"@, text(client.client_kind@))
                &&& stores(columns, stored, "pid"@, optional_small(client.pid))
                &&& stores(
                    columns,
                    stored,
                    "started_at"@,
                    text(known_or_spec(client.started_at, now)),
                )
                &&& stores(
                    columns,
                    stored,
                    "heartbeat_at"@,
                    text(known_or_spec(client.heartbeat_at, now)),
                )
                &&& stores(
                    columns,
                    stored,
                    "last_seen_at"@,
                    text(known_or_spec(client.heartbeat_at, now)),
                )
            })
        }),
{
    let s = upsert_watcher_client_spec(client, now);
    let columns = seq![
        "repository_id"@,
        "client_id"@,
        "client_kind"@,
        "pid"@,
        "started_at"@,
        "heartbeat_at"@,
        "last_seen_at"@,
    ];
    let stored = seq![
        s.params[0],
        s.params[1],
        s.params[2],
        s.params[3],
        s.params[4],
        s.params[5],
        s.params[5],
    ];
    assert(columns[0] == "repository_id"@ && stored[0] == text(client.repository_id@));
    assert(columns[1] == "client_id"@ && stored[1] == text(client.client_id@));
    assert(columns[2] == "client_kind"@ && stored[2] == text(client.client_kind@));
    assert(columns[3] == "pid"@ && stored[3] == optional_small(client.pid));
    assert(columns[4] == "started_at"@ && stored[4] == text(known_or_spec(client.started_at, now)));
    assert(columns[5] == "heartbeat_at"@ && stored[5] == text(known_or_spec(client.heartbeat_at, now)));
    assert(columns[6] == "last_seen_at"@ && stored[6] == text(known_or_spec(client.heartbeat_at, now)));
    reveal_strlit("INSERT INTO watcher_clients (
      repository_id, client_id, client_kind, pid, started_at,
      heartbeat_at, last_seen_at
    )
    VALUES (?1, ?2, ?3, ?4, ?5, ?6, ?6)
    ON CONFLICT(repository_id, client_id) DO UPDATE SET
      client_kind = excluded.client_kind,
      pid = excluded.pid,
      heartbeat_at = excluded.heartbeat_at,
      last_seen_at = excluded.last_seen_at");
    reveal_strlit("INSERT INTO watcher_clients");
    assert(s.sql.subrange(0, 27) =~= "INSERT INTO watcher_clients"@);
    lemma_says(s.sql, "INSERT INTO watcher_clients"@, 0);
    reveal_strlit("INSERT INTO watcher_clients (
      repository_id, client_id, client_kind, pid, started_at,
      heartbeat_at, last_seen_at
    )
    VALUES (?1, ?2, ?3, ?4, ?5, ?6, ?6)");
    assert(s.sql.subrange(0, 170) =~= "INSERT INTO watcher_clients (
      repository_id, client_id, client_kind, pid, started_at,
      heartbeat_at, last_seen_at
    )
    VALUES (?1, ?2, ?3, ?4, ?5, ?6, ?6)"@);
    lemma_says(s.sql, "INSERT INTO watcher_clients (
      repository_id, client_id, client_kind, pid, started_at,
      heartbeat_at, last_seen_at
    )
    VALUES (?1, ?2, ?3, ?4, ?5, ?6, ?6)"@, 0);
    reveal_strlit("ON CONFLICT(repository_id, client_id)");
    assert(s.sql.subrange(175, 212) =~= "ON CONFLICT(repository_id, client_id)"@);
    lemma_says(s.sql, "ON CONFLICT(repository_id, client_id)"@, 175);
    reveal_strlit("UPDATE SET");
    assert(s.sql.subrange(216, 226) =~= "UPDATE SET"@);
    lemma_says(s.sql, "UPDATE SET"@, 216);
}

/// What `heartbeat_watcher_client` asks for, by its text and the values that are bound.
pub proof fn law_heartbeat_watcher_client_says(
    repository_id: Seq<char>,
    client_id: Seq<char>,
    now: Seq<char>,
)
    ensures
        ({
            let s = heartbeat_watcher_client_spec(repository_id, client_id, now);
            &&& says(s.sql, "UPDATE watcher_clients"@)
            &&& binds(s, "heartbeat_at = "@, text(now))
            &&& binds(s, "last_seen_at = "@, text(now))
            &&& binds(s, "repository_id = "@, text(repository_id))
            &&& binds(s, "client_id = "@, text(client_id))
        }),
{
    let s = heartbeat_watcher_client_spec(repository_id, client_id, now);
    reveal_strlit("UPDATE watcher_clients
      SET heartbeat_at = ?3,
          last_seen_at = ?3
    WHERE repository_id = ?1 AND client_id = ?2");
    reveal_strlit("?");
    lemma_places();
    reveal_strlit("UPDATE watcher_clients");
    assert(s.sql.subrange(0, 22) =~= "UPDATE watcher_clients"@);
    lemma_says(s.sql, "UPDATE watcher_clients"@, 0);
    reveal_strlit("heartbeat_at = ");
    assert(s.sql.subrange(33, 50) =~= "heartbeat_at = "@ + "?"@ + decimal_digits(3));
    lemma_binds(s, "heartbeat_at = "@, 3, 33);
    reveal_strlit("last_seen_at = ");
    assert(s.sql.subrange(62, 79) =~= "last_seen_at = "@ + "?"@ + decimal_digits(3));
    lemma_binds(s, "last_seen_at = "@, 3, 62);
    reveal_strlit("repository_id = ");
    assert(s.sql.subrange(90, 108) =~= "repository_id = "@ + "?"@ + decimal_digits(1));
    lemma_binds(s, "repository_id = "@, 1, 90);
    reveal_strlit("client_id = ");
    assert(s.sql.subrange(113, 127) =~= "client_id = "@ + "?"@ + decimal_digits(2));
    lemma_binds(s, "client_id = "@, 2, 113);
}

/// What `remove_watcher_client` asks for, by its text and the values that are bound.
pub proof fn law_remove_watcher_client_says(
    repository_id: Seq<char>,
    client_id: Seq<char>,
)
    ensures
        ({
            let s = remove_watcher_client_spec(repository_id, client_id);
            &&& says(s.sql, "DELETE FROM watcher_clients"@)
            &&& binds(s, "repository_id = "@, text(repository_id))
            &&& binds(s, "client_id = "@, text(client_id))
        }),
{
    let s = remove_watcher_client_spec(repository_id, client_id);
    reveal_strlit("DELETE FROM watcher_clients
    WHERE repository_id = ?1 AND client_id = ?2");
    reveal_strlit("?");
    lemma_places();
    reveal_strlit("DELETE FROM watcher_clients");
    assert(s.sql.subrange(0, 27) =~= "DELETE FROM watcher_clients"@);
    lemma_says(s.sql, "DELETE FROM watcher_clients"@, 0);
    reveal_strlit("repository_id = ");
    assert(s.sql.subrange(38, 56) =~= "repository_id = "@ + "?"@ + decimal_digits(1));
    lemma_binds(s, "repository_id = "@, 1, 38);
    reveal_strlit("client_id = ");
    assert(s.sql.subrange(61, 75) =~= "client_id = "@ + "?"@ + decimal_digits(2));
    lemma_binds(s, "client_id = "@, 2, 61);
}

/// What `watcher_clients` asks for, by its text and the values that are bound.
pub proof fn law_watcher_clients_says(
    repository_id: Seq<char>,
)
    ensures
        ({
            let s = watcher_clients_spec(repository_id);
            &&& binds(s, "repository_id = "@, text(repository_id))
            &&& says(s.sql, "ORDER BY client_kind, started_at, client_id"@)
        }),
{
    let s = watcher_clients_spec(repository_id);
    reveal_strlit("SELECT repository_id, client_id, client_kind, pid, started_at,
          heartbeat_at, last_seen_at
     FROM watcher_clients
    WHERE repository_id = ?1
    ORDER BY client_kind, started_at, client_id");
    reveal_strlit("?");
    lemma_places();
    reveal_strlit("repository_id = ");
    assert(s.sql.subrange(136, 154) =~= "repository_id = "@ + "?"@ + decimal_digits(1));
    lemma_binds(s, "repository_id = "@, 1, 136);
    reveal_strlit("ORDER BY client_kind, started_at, client_id");
    assert(s.sql.subrange(159, 202) =~= "ORDER BY client_kind, started_at, client_id"@);
    lemma_says(s.sql, "ORDER BY client_kind, started_at, client_id"@, 159);
}

/// What `prune_stale_watcher_clients` asks for, by its text and the values that are bound.
pub proof fn law_prune_stale_watcher_clients_says(
    repository_id: Seq<char>,
    stale_before_timestamp: Seq<char>,
)
    ensures
        ({
            let s = prune_stale_watcher_clients_spec(repository_id, stale_before_timestamp);
            &&& says(s.sql, "DELETE FROM watcher_clients"@)
            &&& binds(s, "repository_id = "@, text(repository_id))
            &&& binds(s, "heartbeat_at < "@, text(stale_before_timestamp))
        }),
{
    let s = prune_stale_watcher_clients_spec(repository_id, stale_before_timestamp);
    reveal_strlit("DELETE FROM watcher_clients
    WHERE repository_id = ?1 AND heartbeat_at < ?2");
    reveal_strlit("?");
    lemma_places();
    reveal_strlit("DELETE FROM watcher_clients");
    assert(s.sql.subrange(0, 27) =~= "DELETE FROM watcher_clients"@);
    lemma_says(s.sql, "DELETE FROM watcher_clients"@, 0);
    reveal_strlit("repository_id = ");
    assert(s.sql.subrange(38, 56) =~= "repository_id = "@ + "?"@ + decimal_digits(1));
    lemma_binds(s, "repository_id = "@, 1, 38);
    reveal_strlit("heartbeat_at < ");
    assert(s.sql.subrange(61, 78) =~= "heartbeat_at < "@ + "?"@ + decimal_digits(2));
    lemma_binds(s, "heartbeat_at < "@, 2, 61);
}

} // verus!
