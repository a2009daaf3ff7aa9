//! What the schema of the store holds: its tables, and the keys by which rows are found again.

use vstd::prelude::*;
use crate::bindings::{lemma_says, says, stands_at};
use crate::recording::STORE_FAST_GENERATION;
use crate::schema::{FILES_CONTENT_ADDRESSING_INDEXES, FILE_INDEXES, REBUILD_FILES, SCHEMA};
use crate::vector::{VECTOR_CONNECTION, VECTOR_POINTS_TABLE, VECTOR_VERSION};

verus! {

/// Every table of the store is made, with the keys that its rows are found by where they are stored
/// again.
pub proof fn law_every_table_is_made()
    ensures
        says(SCHEMA@, "CREATE TABLE IF NOT EXISTS repositories"@),
        says(SCHEMA@, "CREATE TABLE IF NOT EXISTS repository_refs"@),
        says(SCHEMA@, "CREATE TABLE IF NOT EXISTS ref_files"@),
        says(SCHEMA@, "CREATE TABLE IF NOT EXISTS index_runs"@),
        says(SCHEMA@, "CREATE TABLE IF NOT EXISTS file_index_events"@),
        says(SCHEMA@, "CREATE TABLE IF NOT EXISTS watchers"@),
        says(SCHEMA@, "CREATE TABLE IF NOT EXISTS watcher_clients"@),
        says(SCHEMA@, "CREATE TABLE IF NOT EXISTS files"@),
        says(SCHEMA@, "CREATE TABLE IF NOT EXISTS symbols"@),
        says(SCHEMA@, "CREATE TABLE IF NOT EXISTS chunks"@),
        says(SCHEMA@, "CREATE TABLE IF NOT EXISTS calls"@),
        says(SCHEMA@, "CREATE TABLE IF NOT EXISTS symbol_references"@),
        says(SCHEMA@, "CREATE TABLE IF NOT EXISTS tests"@),
        says(SCHEMA@, "CREATE TABLE IF NOT EXISTS semantic_generations"@),
        says(SCHEMA@, "CREATE TABLE IF NOT EXISTS semantic_generation_refs"@),
        says(SCHEMA@, "CREATE TABLE IF NOT EXISTS chunk_embeddings"@),
        says(SCHEMA@, "CREATE TABLE IF NOT EXISTS vector_points"@),
        says(SCHEMA@, "CREATE TABLE IF NOT EXISTS quality_embedding_jobs"@),
        says(SCHEMA@, "UNIQUE(repository_id, ref_kind, ref_identity)"@),
        says(SCHEMA@, "PRIMARY KEY(repository_ref_id, path)"@),
        says(SCHEMA@, "PRIMARY KEY(repository_id, client_id)"@),
        says(SCHEMA@, "UNIQUE(chunk_id, semantic_layer, embedding_model, embedding_dimension)"@),
        says(SCHEMA@, "PRIMARY KEY(vector_store, vector_table, vector_point_id)"@),
        says(SCHEMA@, "UNIQUE(vector_store, vector_table, vector_rowid)"@),
        says(SCHEMA@, "UNIQUE(repository_id, generation_id, chunk_id)"@),
{
    reveal_strlit("
CREATE TABLE IF NOT EXISTS repositories (
  id TEXT PRIMARY KEY,
  root_path TEXT NOT NULL UNIQUE,
  created_at TEXT NOT NULL,
  updated_at TEXT NOT NULL
);

CREATE TABLE IF NOT EXISTS repository_refs (
    id TEXT PRIMARY KEY,
    repository_id TEXT NOT NULL,
    ref_kind TEXT NOT NULL,
    ref_name TEXT,
    ref_identity TEXT NOT NULL,
    head_oid TEXT,
    is_current INTEGER NOT NULL DEFAULT 0,
    last_seen_at TEXT,
    deleted_at TEXT,
    created_at TEXT NOT NULL,
    updated_at TEXT NOT NULL,
    UNIQUE(repository_id, ref_kind, ref_identity),
    CHECK(ref_kind IN ('branch', 'detached', 'other', 'non_git')),
    CHECK(is_current IN (0, 1)),
    FOREIGN KEY(repository_id) REFERENCES repositories(id) ON DELETE CASCADE
);

CREATE INDEX IF NOT EXISTS idx_repository_refs_current
    ON repository_refs(repository_id, is_current, deleted_at);

CREATE INDEX IF NOT EXISTS idx_repository_refs_branch_name
    ON repository_refs(repository_id, ref_kind, ref_name);

CREATE TABLE IF NOT EXISTS ref_files (
    repository_ref_id TEXT NOT NULL,
    repository_id TEXT NOT NULL,
    path TEXT NOT NULL,
    file_id TEXT NOT NULL,
    indexed_at TEXT NOT NULL,
    index_run_id TEXT,
    PRIMARY KEY(repository_ref_id, path),
    FOREIGN KEY(repository_ref_id) REFERENCES repository_refs(id) ON DELETE CASCADE,
    FOREIGN KEY(repository_id) REFERENCES repositories(id) ON DELETE CASCADE,
    FOREIGN KEY(file_id) REFERENCES files(id) ON DELETE CASCADE
);

CREATE INDEX IF NOT EXISTS idx_ref_files_repository_path
    ON ref_files(repository_id, path);

CREATE INDEX IF NOT EXISTS idx_ref_files_file
    ON ref_files(file_id);

CREATE TABLE IF NOT EXISTS index_runs (
  id TEXT PRIMARY KEY,
  repository_id TEXT NOT NULL,
    repository_ref_id TEXT,
  started_at TEXT NOT NULL,
  finished_at TEXT,
  status TEXT NOT NULL,
  embedding_model TEXT NOT NULL,
  embedding_dimension INTEGER,
  files_seen INTEGER DEFAULT 0,
  files_indexed INTEGER DEFAULT 0,
  chunks_embedded INTEGER DEFAULT 0,
  error_summary TEXT,
  parser_version TEXT,
  indexer_version TEXT,
    run_kind TEXT NOT NULL DEFAULT 'manual',
    FOREIGN KEY(repository_id) REFERENCES repositories(id) ON DELETE CASCADE,
    FOREIGN KEY(repository_ref_id) REFERENCES repository_refs(id) ON DELETE SET NULL
);

CREATE TABLE IF NOT EXISTS file_index_events (
  id TEXT PRIMARY KEY,
  index_run_id TEXT NOT NULL,
  repository_id TEXT NOT NULL,
  repository_ref_id TEXT,
  path TEXT NOT NULL,
  old_content_hash TEXT,
  new_content_hash TEXT,
  action TEXT NOT NULL,
  reason TEXT NOT NULL,
  status TEXT NOT NULL,
  error_summary TEXT,
  occurred_at TEXT NOT NULL,
  CHECK(action IN ('created', 'updated', 'deleted', 'skipped', 'failed')),
  CHECK(status IN ('success', 'failed', 'skipped')),
  FOREIGN KEY(index_run_id) REFERENCES index_runs(id) ON DELETE CASCADE,
  FOREIGN KEY(repository_id) REFERENCES repositories(id) ON DELETE CASCADE,
  FOREIGN KEY(repository_ref_id) REFERENCES repository_refs(id) ON DELETE SET NULL
);

CREATE TABLE IF NOT EXISTS watchers (
  repository_id TEXT PRIMARY KEY,
  root_path TEXT NOT NULL,
  mode TEXT NOT NULL,
  owner_kind TEXT NOT NULL,
  owner_pid INTEGER,
  socket_path TEXT,
  state TEXT NOT NULL,
  started_at TEXT,
  updated_at TEXT,
  heartbeat_at TEXT,
  files_seen INTEGER NOT NULL DEFAULT 0,
  queued_events INTEGER NOT NULL DEFAULT 0,
  last_indexed_path TEXT,
  last_error TEXT,
  active_layer TEXT,
  quality_status TEXT,
  quality_pending_jobs INTEGER NOT NULL DEFAULT 0,
  quality_running_jobs INTEGER NOT NULL DEFAULT 0,
  quality_failed_jobs INTEGER NOT NULL DEFAULT 0,
  quality_stale_jobs INTEGER NOT NULL DEFAULT 0,
  FOREIGN KEY(repository_id) REFERENCES repositories(id) ON DELETE CASCADE
);

CREATE TABLE IF NOT EXISTS watcher_clients (
  repository_id TEXT NOT NULL,
  client_id TEXT NOT NULL,
  client_kind TEXT NOT NULL,
  pid INTEGER,
  started_at TEXT NOT NULL,
  heartbeat_at TEXT NOT NULL,
  last_seen_at TEXT NOT NULL,
  PRIMARY KEY(repository_id, client_id),
  FOREIGN KEY(repository_id) REFERENCES repositories(id) ON DELETE CASCADE
);

CREATE TABLE IF NOT EXISTS files (
  id TEXT PRIMARY KEY,
  repository_id TEXT NOT NULL,
  path TEXT NOT NULL,
  language TEXT NOT NULL,
  content_hash TEXT NOT NULL,
  indexed_at TEXT NOT NULL,
  index_run_id TEXT,
  parser_version TEXT,
  FOREIGN KEY(repository_id) REFERENCES repositories(id) ON DELETE CASCADE
);

CREATE TABLE IF NOT EXISTS symbols (
  id TEXT PRIMARY KEY,
  file_id TEXT NOT NULL,
  parent_symbol_id TEXT,
  name TEXT NOT NULL,
  qualified_name TEXT,
  kind TEXT NOT NULL,
  signature TEXT,
  start_line INTEGER NOT NULL,
  end_line INTEGER NOT NULL,
  start_byte INTEGER NOT NULL,
  end_byte INTEGER NOT NULL,
  index_run_id TEXT,
  parser_version TEXT,
  FOREIGN KEY(file_id) REFERENCES files(id) ON DELETE CASCADE
);

CREATE TABLE IF NOT EXISTS chunks (
  id TEXT PRIMARY KEY,
  file_id TEXT NOT NULL,
  symbol_id TEXT,
  kind TEXT NOT NULL,
  text_hash TEXT NOT NULL,
  start_line INTEGER NOT NULL,
  end_line INTEGER NOT NULL,
  start_byte INTEGER NOT NULL,
  end_byte INTEGER NOT NULL,
  vector_point_id TEXT,
  excluded_reason TEXT,
  index_run_id TEXT,
  parser_version TEXT,
  embedding_model TEXT,
  embedding_dimension INTEGER,
  embedded_at TEXT,
  FOREIGN KEY(file_id) REFERENCES files(id) ON DELETE CASCADE
);

CREATE TABLE IF NOT EXISTS calls (
  id TEXT PRIMARY KEY,
  caller_symbol_id TEXT NOT NULL,
  callee_text TEXT NOT NULL,
  callee_symbol_id TEXT,
  call_line INTEGER NOT NULL,
  confidence REAL NOT NULL,
  resolution_status TEXT NOT NULL,
  index_run_id TEXT,
  parser_version TEXT
);

CREATE TABLE IF NOT EXISTS symbol_references (
    id TEXT PRIMARY KEY,
    file_id TEXT NOT NULL,
    source_symbol_id TEXT,
    target_symbol_id TEXT,
    reference_text TEXT NOT NULL,
    reference_kind TEXT NOT NULL,
    line INTEGER NOT NULL,
    confidence REAL NOT NULL,
    resolution_status TEXT NOT NULL,
    index_run_id TEXT,
    parser_version TEXT,
    CHECK(reference_kind IN (
        'import',
        'type_reference',
        'implementation',
        'attribute',
        'inheritance',
        'decorator',
        'config_link'
    )),
    CHECK(resolution_status IN (
        'resolved_exact',
        'resolved_local_candidate',
        'unresolved',
        'ambiguous'
    )),
    FOREIGN KEY(file_id) REFERENCES files(id) ON DELETE CASCADE,
    FOREIGN KEY(source_symbol_id) REFERENCES symbols(id) ON DELETE CASCADE,
    FOREIGN KEY(target_symbol_id) REFERENCES symbols(id) ON DELETE SET NULL
);

CREATE TABLE IF NOT EXISTS tests (
    id TEXT PRIMARY KEY,
    repository_id TEXT NOT NULL,
    file_id TEXT NOT NULL,
    symbol_id TEXT,
    name TEXT NOT NULL,
    qualified_name TEXT NOT NULL,
    framework TEXT NOT NULL,
    language TEXT NOT NULL,
    path TEXT NOT NULL,
    start_line INTEGER NOT NULL,
    end_line INTEGER NOT NULL,
    start_byte INTEGER NOT NULL,
    end_byte INTEGER NOT NULL,
    index_run_id TEXT,
    parser_version TEXT,
    indexed_at TEXT NOT NULL,
    FOREIGN KEY(repository_id) REFERENCES repositories(id) ON DELETE CASCADE,
    FOREIGN KEY(file_id) REFERENCES files(id) ON DELETE CASCADE,
    FOREIGN KEY(symbol_id) REFERENCES symbols(id) ON DELETE SET NULL
);

CREATE TABLE IF NOT EXISTS semantic_generations (
    id TEXT PRIMARY KEY,
    repository_id TEXT NOT NULL,
    fast_model TEXT NOT NULL,
    fast_dimension INTEGER NOT NULL,
    fast_completed_at TEXT NOT NULL,
    quality_model TEXT,
    quality_dimension INTEGER,
    quality_status TEXT NOT NULL,
    quality_started_at TEXT,
    quality_completed_at TEXT,
    active_layer TEXT NOT NULL,
    files_seen INTEGER NOT NULL,
    embeddable_chunks INTEGER NOT NULL,
    fast_embedded_chunks INTEGER NOT NULL,
    quality_embedded_chunks INTEGER NOT NULL,
    created_at TEXT NOT NULL,
    updated_at TEXT NOT NULL,
    CHECK(quality_status IN (
        'missing',
        'fast_ready',
        'quality_pending',
        'quality_ready',
        'quality_stale',
        'quality_blocked',
        'quality_failed'
    )),
    CHECK(active_layer IN ('fast', 'quality')),
    FOREIGN KEY(repository_id) REFERENCES repositories(id) ON DELETE CASCADE
);

CREATE TABLE IF NOT EXISTS semantic_generation_refs (
    repository_ref_id TEXT PRIMARY KEY,
    repository_id TEXT NOT NULL,
    generation_id TEXT NOT NULL,
    linked_at TEXT NOT NULL,
    FOREIGN KEY(repository_ref_id) REFERENCES repository_refs(id) ON DELETE CASCADE,
    FOREIGN KEY(repository_id) REFERENCES repositories(id) ON DELETE CASCADE,
    FOREIGN KEY(generation_id) REFERENCES semantic_generations(id) ON DELETE CASCADE
);

CREATE TABLE IF NOT EXISTS chunk_embeddings (
    id TEXT PRIMARY KEY,
    repository_id TEXT NOT NULL,
    file_id TEXT NOT NULL,
    chunk_id TEXT NOT NULL,
    semantic_layer TEXT NOT NULL,
    embedding_model TEXT NOT NULL,
    embedding_dimension INTEGER NOT NULL,
    content_hash TEXT NOT NULL,
    text_hash TEXT NOT NULL,
    vector_table TEXT NOT NULL,
    vector_point_id TEXT NOT NULL,
    vector_store TEXT NOT NULL DEFAULT 'sqlite_vec',
    vector_rowid INTEGER,
    generation_id TEXT NOT NULL,
    embedded_at TEXT NOT NULL,
    status TEXT NOT NULL DEFAULT 'current',
    UNIQUE(chunk_id, semantic_layer, embedding_model, embedding_dimension),
    CHECK(semantic_layer IN ('fast', 'quality')),
    CHECK(status IN ('current', 'stale', 'blocked', 'failed')),
    FOREIGN KEY(repository_id) REFERENCES repositories(id) ON DELETE CASCADE,
    FOREIGN KEY(file_id) REFERENCES files(id) ON DELETE CASCADE,
    FOREIGN KEY(chunk_id) REFERENCES chunks(id) ON DELETE CASCADE,
    FOREIGN KEY(generation_id) REFERENCES semantic_generations(id) ON DELETE CASCADE
);

CREATE TABLE IF NOT EXISTS vector_points (
  vector_store TEXT NOT NULL,
  vector_table TEXT NOT NULL,
  vector_rowid INTEGER NOT NULL,
  vector_point_id TEXT NOT NULL,
  repository_id TEXT NOT NULL,
  file_id TEXT NOT NULL,
  chunk_id TEXT NOT NULL,
  symbol_id TEXT,
  symbol_name TEXT,
  path TEXT NOT NULL,
  language TEXT NOT NULL,
  chunk_kind TEXT NOT NULL,
  start_line INTEGER NOT NULL,
  end_line INTEGER NOT NULL,
  text_hash TEXT NOT NULL,
  parser_version TEXT,
  content_hash TEXT,
  index_run_id TEXT,
  embedding_model TEXT,
  embedding_dimension INTEGER,
  indexed_at TEXT,
  PRIMARY KEY(vector_store, vector_table, vector_point_id),
  UNIQUE(vector_store, vector_table, vector_rowid)
);

CREATE TABLE IF NOT EXISTS quality_embedding_jobs (
    id TEXT PRIMARY KEY,
    repository_id TEXT NOT NULL,
    generation_id TEXT NOT NULL,
    chunk_id TEXT NOT NULL,
    file_id TEXT NOT NULL,
    path TEXT NOT NULL,
    content_hash TEXT NOT NULL,
    text_hash TEXT NOT NULL,
    status TEXT NOT NULL,
    attempts INTEGER NOT NULL DEFAULT 0,
    error_summary TEXT,
    created_at TEXT NOT NULL,
    updated_at TEXT NOT NULL,
    UNIQUE(repository_id, generation_id, chunk_id),
    CHECK(status IN ('pending', 'running', 'succeeded', 'failed', 'skipped_stale', 'skipped_excluded')),
    CHECK(attempts >= 0),
    FOREIGN KEY(repository_id) REFERENCES repositories(id) ON DELETE CASCADE,
    FOREIGN KEY(generation_id) REFERENCES semantic_generations(id) ON DELETE CASCADE,
    FOREIGN KEY(chunk_id) REFERENCES chunks(id) ON DELETE CASCADE,
    FOREIGN KEY(file_id) REFERENCES files(id) ON DELETE CASCADE
);

CREATE INDEX IF NOT EXISTS idx_files_repository_path ON files(repository_id, path);
CREATE UNIQUE INDEX IF NOT EXISTS idx_files_repository_path_hash
    ON files(repository_id, path, content_hash);
CREATE INDEX IF NOT EXISTS idx_chunks_file_id ON chunks(file_id);
CREATE INDEX IF NOT EXISTS idx_symbols_file_id ON symbols(file_id);
CREATE INDEX IF NOT EXISTS idx_symbols_name ON symbols(name);
CREATE INDEX IF NOT EXISTS idx_symbols_qualified_name ON symbols(qualified_name);
CREATE INDEX IF NOT EXISTS idx_calls_caller_symbol_id ON calls(caller_symbol_id);
CREATE INDEX IF NOT EXISTS idx_calls_callee_symbol_id ON calls(callee_symbol_id);
CREATE INDEX IF NOT EXISTS idx_symbol_references_file_kind ON symbol_references(file_id, reference_kind);
CREATE INDEX IF NOT EXISTS idx_symbol_references_source_kind ON symbol_references(source_symbol_id, reference_kind);
CREATE INDEX IF NOT EXISTS idx_symbol_references_target_kind ON symbol_references(target_symbol_id, reference_kind);
CREATE INDEX IF NOT EXISTS idx_symbol_references_kind_status ON symbol_references(reference_kind, resolution_status);
CREATE INDEX IF NOT EXISTS idx_tests_repository_name ON tests(repository_id, name);
CREATE INDEX IF NOT EXISTS idx_tests_repository_qualified_name ON tests(repository_id, qualified_name);
CREATE INDEX IF NOT EXISTS idx_tests_file_id ON tests(file_id);
CREATE INDEX IF NOT EXISTS idx_tests_symbol_id ON tests(symbol_id);
CREATE INDEX IF NOT EXISTS idx_index_runs_repository_status ON index_runs(repository_id, status, finished_at);
CREATE INDEX IF NOT EXISTS idx_index_runs_repository_model_status ON index_runs(repository_id, embedding_model, status, finished_at);
CREATE INDEX IF NOT EXISTS idx_file_index_events_run_path ON file_index_events(index_run_id, path);
CREATE INDEX IF NOT EXISTS idx_file_index_events_repository_path_time ON file_index_events(repository_id, path, occurred_at);
CREATE INDEX IF NOT EXISTS idx_file_index_events_repository_action_status ON file_index_events(repository_id, action, status, occurred_at);
CREATE INDEX IF NOT EXISTS idx_semantic_generations_repository_fast_completed ON semantic_generations(repository_id, fast_completed_at DESC, created_at DESC);
CREATE INDEX IF NOT EXISTS idx_semantic_generation_refs_generation ON semantic_generation_refs(repository_id, generation_id);
CREATE INDEX IF NOT EXISTS idx_chunk_embeddings_repository_layer_model ON chunk_embeddings(repository_id, semantic_layer, embedding_model);
CREATE INDEX IF NOT EXISTS idx_chunk_embeddings_generation_chunk ON chunk_embeddings(generation_id, chunk_id);
CREATE INDEX IF NOT EXISTS idx_chunk_embeddings_repository_generation_layer_status ON chunk_embeddings(repository_id, generation_id, semantic_layer, status);
CREATE INDEX IF NOT EXISTS idx_vector_points_repository_table ON vector_points(repository_id, vector_store, vector_table);
CREATE INDEX IF NOT EXISTS idx_vector_points_chunk ON vector_points(chunk_id);
CREATE INDEX IF NOT EXISTS idx_quality_embedding_jobs_repository_generation_status ON quality_embedding_jobs(repository_id, generation_id, status, updated_at);
CREATE INDEX IF NOT EXISTS idx_watchers_state_heartbeat ON watchers(state, heartbeat_at);
CREATE INDEX IF NOT EXISTS idx_watcher_clients_repository_heartbeat ON watcher_clients(repository_id, heartbeat_at);
");
    reveal_strlit("CREATE TABLE IF NOT EXISTS repositories");
    assert(SCHEMA@.subrange(1, 40) =~= "CREATE TABLE IF NOT EXISTS repositories"@);
    lemma_says(SCHEMA@, "CREATE TABLE IF NOT EXISTS repositories"@, 1);
    reveal_strlit("CREATE TABLE IF NOT EXISTS repository_refs");
    assert(SCHEMA@.subrange(159, 201) =~= "CREATE TABLE IF NOT EXISTS repository_refs"@);
    lemma_says(SCHEMA@, "CREATE TABLE IF NOT EXISTS repository_refs"@, 159);
    reveal_strlit("CREATE TABLE IF NOT EXISTS ref_files");
    assert(SCHEMA@.subrange(977, 1013) =~= "CREATE TABLE IF NOT EXISTS ref_files"@);
    lemma_says(SCHEMA@, "CREATE TABLE IF NOT EXISTS ref_files"@, 977);
    reveal_strlit("CREATE TABLE IF NOT EXISTS index_runs");
    assert(SCHEMA@.subrange(1634, 1671) =~= "CREATE TABLE IF NOT EXISTS index_runs"@);
    lemma_says(SCHEMA@, "CREATE TABLE IF NOT EXISTS index_runs"@, 1634);
    reveal_strlit("CREATE TABLE IF NOT EXISTS file_index_events");
    assert(SCHEMA@.subrange(2277, 2321) =~= "CREATE TABLE IF NOT EXISTS file_index_events"@);
    lemma_says(SCHEMA@, "CREATE TABLE IF NOT EXISTS file_index_events"@, 2277);
    reveal_strlit("CREATE TABLE IF NOT EXISTS watchers");
    assert(SCHEMA@.subrange(2993, 3028) =~= "CREATE TABLE IF NOT EXISTS watchers"@);
    lemma_says(SCHEMA@, "CREATE TABLE IF NOT EXISTS watchers"@, 2993);
    reveal_strlit("CREATE TABLE IF NOT EXISTS watcher_clients");
    assert(SCHEMA@.subrange(3719, 3761) =~= "CREATE TABLE IF NOT EXISTS watcher_clients"@);
    lemma_says(SCHEMA@, "CREATE TABLE IF NOT EXISTS watcher_clients"@, 3719);
    reveal_strlit("CREATE TABLE IF NOT EXISTS files");
    assert(SCHEMA@.subrange(4074, 4106) =~= "CREATE TABLE IF NOT EXISTS files"@);
    lemma_says(SCHEMA@, "CREATE TABLE IF NOT EXISTS files"@, 4074);
    reveal_strlit("CREATE TABLE IF NOT EXISTS symbols");
    assert(SCHEMA@.subrange(4392, 4426) =~= "CREATE TABLE IF NOT EXISTS symbols"@);
    lemma_says(SCHEMA@, "CREATE TABLE IF NOT EXISTS symbols"@, 4392);
    reveal_strlit("CREATE TABLE IF NOT EXISTS chunks");
    assert(SCHEMA@.subrange(4817, 4850) =~= "CREATE TABLE IF NOT EXISTS chunks"@);
    lemma_says(SCHEMA@, "CREATE TABLE IF NOT EXISTS chunks"@, 4817);
    reveal_strlit("CREATE TABLE IF NOT EXISTS calls");
    assert(SCHEMA@.subrange(5321, 5353) =~= "CREATE TABLE IF NOT EXISTS calls"@);
    lemma_says(SCHEMA@, "CREATE TABLE IF NOT EXISTS calls"@, 5321);
    reveal_strlit("CREATE TABLE IF NOT EXISTS symbol_references");
    assert(SCHEMA@.subrange(5607, 5651) =~= "CREATE TABLE IF NOT EXISTS symbol_references"@);
    lemma_says(SCHEMA@, "CREATE TABLE IF NOT EXISTS symbol_references"@, 5607);
    reveal_strlit("CREATE TABLE IF NOT EXISTS tests");
    assert(SCHEMA@.subrange(6531, 6563) =~= "CREATE TABLE IF NOT EXISTS tests"@);
    lemma_says(SCHEMA@, "CREATE TABLE IF NOT EXISTS tests"@, 6531);
    reveal_strlit("CREATE TABLE IF NOT EXISTS semantic_generations");
    assert(SCHEMA@.subrange(7232, 7279) =~= "CREATE TABLE IF NOT EXISTS semantic_generations"@);
    lemma_says(SCHEMA@, "CREATE TABLE IF NOT EXISTS semantic_generations"@, 7232);
    reveal_strlit("CREATE TABLE IF NOT EXISTS semantic_generation_refs");
    assert(SCHEMA@.subrange(8184, 8235) =~= "CREATE TABLE IF NOT EXISTS semantic_generation_refs"@);
    lemma_says(SCHEMA@, "CREATE TABLE IF NOT EXISTS semantic_generation_refs"@, 8184);
    reveal_strlit("CREATE TABLE IF NOT EXISTS chunk_embeddings");
    assert(SCHEMA@.subrange(8625, 8668) =~= "CREATE TABLE IF NOT EXISTS chunk_embeddings"@);
    lemma_says(SCHEMA@, "CREATE TABLE IF NOT EXISTS chunk_embeddings"@, 8625);
    reveal_strlit("CREATE TABLE IF NOT EXISTS vector_points");
    assert(SCHEMA@.subrange(9699, 9739) =~= "CREATE TABLE IF NOT EXISTS vector_points"@);
    lemma_says(SCHEMA@, "CREATE TABLE IF NOT EXISTS vector_points"@, 9699);
    reveal_strlit("CREATE TABLE IF NOT EXISTS quality_embedding_jobs");
    assert(SCHEMA@.subrange(10405, 10454) =~= "CREATE TABLE IF NOT EXISTS quality_embedding_jobs"@);
    lemma_says(SCHEMA@, "CREATE TABLE IF NOT EXISTS quality_embedding_jobs"@, 10405);
    reveal_strlit("UNIQUE(repository_id, ref_kind, ref_identity)");
    assert(SCHEMA@.subrange(511, 556) =~= "UNIQUE(repository_id, ref_kind, ref_identity)"@);
    lemma_says(SCHEMA@, "UNIQUE(repository_id, ref_kind, ref_identity)"@, 511);
    reveal_strlit("PRIMARY KEY(repository_ref_id, path)");
    assert(SCHEMA@.subrange(1194, 1230) =~= "PRIMARY KEY(repository_ref_id, path)"@);
    lemma_says(SCHEMA@, "PRIMARY KEY(repository_ref_id, path)"@, 1194);
    reveal_strlit("PRIMARY KEY(repository_id, client_id)");
    assert(SCHEMA@.subrange(3956, 3993) =~= "PRIMARY KEY(repository_id, client_id)"@);
    lemma_says(SCHEMA@, "PRIMARY KEY(repository_id, client_id)"@, 3956);
    reveal_strlit("UNIQUE(chunk_id, semantic_layer, embedding_model, embedding_dimension)");
    assert(SCHEMA@.subrange(9214, 9284)
        =~= "UNIQUE(chunk_id, semantic_layer, embedding_model, embedding_dimension)"@);
    lemma_says(
        SCHEMA@,
        "UNIQUE(chunk_id, semantic_layer, embedding_model, embedding_dimension)"@,
        9214,
    );
    reveal_strlit("PRIMARY KEY(vector_store, vector_table, vector_point_id)");
    assert(SCHEMA@.subrange(10292, 10348)
        =~= "PRIMARY KEY(vector_store, vector_table, vector_point_id)"@);
    lemma_says(SCHEMA@, "PRIMARY KEY(vector_store, vector_table, vector_point_id)"@, 10292);
    reveal_strlit("UNIQUE(vector_store, vector_table, vector_rowid)");
    assert(SCHEMA@.subrange(10352, 10400) =~= "UNIQUE(vector_store, vector_table, vector_rowid)"@);
    lemma_says(SCHEMA@, "UNIQUE(vector_store, vector_table, vector_rowid)"@, 10352);
    reveal_strlit("UNIQUE(repository_id, generation_id, chunk_id)");
    assert(SCHEMA@.subrange(10843, 10889) =~= "UNIQUE(repository_id, generation_id, chunk_id)"@);
    lemma_says(SCHEMA@, "UNIQUE(repository_id, generation_id, chunk_id)"@, 10843);
}

/// The payload of a point is found by its table and its id, and by its table and its row.
pub proof fn law_points_are_found_by_id_and_row()
    ensures
        says(VECTOR_POINTS_TABLE@, "CREATE TABLE IF NOT EXISTS vector_points"@),
        says(VECTOR_POINTS_TABLE@, "PRIMARY KEY(vector_store, vector_table, vector_point_id)"@),
        says(VECTOR_POINTS_TABLE@, "UNIQUE(vector_store, vector_table, vector_rowid)"@),
{
    reveal_strlit("CREATE TABLE IF NOT EXISTS vector_points (
      vector_store TEXT NOT NULL,
      vector_table TEXT NOT NULL,
      vector_rowid INTEGER NOT NULL,
      vector_point_id TEXT NOT NULL,
      repository_id TEXT NOT NULL,
      file_id TEXT NOT NULL,
      chunk_id TEXT NOT NULL,
      symbol_id TEXT,
      symbol_name TEXT,
      path TEXT NOT NULL,
      language TEXT NOT NULL,
      chunk_kind TEXT NOT NULL,
      start_line INTEGER NOT NULL,
      end_line INTEGER NOT NULL,
      text_hash TEXT NOT NULL,
      parser_version TEXT,
      content_hash TEXT,
      index_run_id TEXT,
      embedding_model TEXT,
      embedding_dimension INTEGER,
      indexed_at TEXT,
      PRIMARY KEY(vector_store, vector_table, vector_point_id),
      UNIQUE(vector_store, vector_table, vector_rowid)
    );
    CREATE INDEX IF NOT EXISTS idx_vector_points_repository_table
      ON vector_points(repository_id, vector_store, vector_table);
    CREATE INDEX IF NOT EXISTS idx_vector_points_chunk
      ON vector_points(chunk_id);");
    reveal_strlit("CREATE TABLE IF NOT EXISTS vector_points");
    assert(VECTOR_POINTS_TABLE@.subrange(0, 40) =~= "CREATE TABLE IF NOT EXISTS vector_points"@);
    lemma_says(VECTOR_POINTS_TABLE@, "CREATE TABLE IF NOT EXISTS vector_points"@, 0);
    reveal_strlit("PRIMARY KEY(vector_store, vector_table, vector_point_id)");
    assert(VECTOR_POINTS_TABLE@.subrange(681, 737)
        =~= "PRIMARY KEY(vector_store, vector_table, vector_point_id)"@);
    lemma_says(
        VECTOR_POINTS_TABLE@,
        "PRIMARY KEY(vector_store, vector_table, vector_point_id)"@,
        681,
    );
    reveal_strlit("UNIQUE(vector_store, vector_table, vector_rowid)");
    assert(VECTOR_POINTS_TABLE@.subrange(745, 793)
        =~= "UNIQUE(vector_store, vector_table, vector_rowid)"@);
    lemma_says(VECTOR_POINTS_TABLE@, "UNIQUE(vector_store, vector_table, vector_rowid)"@, 745);
}

/// Files are found by their path, and told apart by their path and their content.
pub proof fn law_files_are_told_apart_by_content()
    ensures
        says(FILES_CONTENT_ADDRESSING_INDEXES@, "ON files(repository_id, path)"@),
        says(FILES_CONTENT_ADDRESSING_INDEXES@, "CREATE UNIQUE INDEX"@),
        says(FILES_CONTENT_ADDRESSING_INDEXES@, "ON files(repository_id, path, content_hash)"@),
        FILE_INDEXES@ == "PRAGMA index_list(files)"@,
{
    reveal_strlit("
CREATE INDEX IF NOT EXISTS idx_files_repository_path ON files(repository_id, path);
CREATE UNIQUE INDEX IF NOT EXISTS idx_files_repository_path_hash
    ON files(repository_id, path, content_hash);
");
    reveal_strlit("ON files(repository_id, path)");
    assert(FILES_CONTENT_ADDRESSING_INDEXES@.subrange(54, 83) =~= "ON files(repository_id, path)"@);
    lemma_says(FILES_CONTENT_ADDRESSING_INDEXES@, "ON files(repository_id, path)"@, 54);
    reveal_strlit("CREATE UNIQUE INDEX");
    assert(FILES_CONTENT_ADDRESSING_INDEXES@.subrange(85, 104) =~= "CREATE UNIQUE INDEX"@);
    lemma_says(FILES_CONTENT_ADDRESSING_INDEXES@, "CREATE UNIQUE INDEX"@, 85);
    reveal_strlit("ON files(repository_id, path, content_hash)");
    assert(FILES_CONTENT_ADDRESSING_INDEXES@.subrange(154, 197)
        =~= "ON files(repository_id, path, content_hash)"@);
    lemma_says(
        FILES_CONTENT_ADDRESSING_INDEXES@,
        "ON files(repository_id, path, content_hash)"@,
        154,
    );
}

/// A fast generation is stored by its columns, and again where its id is known.
pub proof fn law_fast_generations_are_stored_by_column()
    ensures
        says(STORE_FAST_GENERATION@, "INSERT INTO semantic_generations (
      id, repository_id, fast_model, fast_dimension, fast_completed_at,
      quality_model, quality_dimension, quality_status, quality_started_at,
      quality_completed_at, active_layer, files_seen, embeddable_chunks,
      fast_embedded_chunks, quality_embedded_chunks, created_at, updated_at
    )
    VALUES (?1, ?2, ?3, ?4, ?5, ?6, ?7, ?8, ?9, ?10, ?11, ?12, ?13, ?14, ?15, ?16, ?17)"@),
        says(STORE_FAST_GENERATION@, "ON CONFLICT(id) DO UPDATE SET"@),
        VECTOR_VERSION@ == "SELECT vec_version()"@,
        VECTOR_CONNECTION@ == "PRAGMA journal_mode = WAL;
PRAGMA foreign_keys = ON;"@,
{
    reveal_strlit("INSERT INTO semantic_generations (
      id, repository_id, fast_model, fast_dimension, fast_completed_at,
      quality_model, quality_dimension, quality_status, quality_started_at,
      quality_completed_at, active_layer, files_seen, embeddable_chunks,
      fast_embedded_chunks, quality_embedded_chunks, created_at, updated_at
    )
    VALUES (?1, ?2, ?3, ?4, ?5, ?6, ?7, ?8, ?9, ?10, ?11, ?12, ?13, ?14, ?15, ?16, ?17)
    ON CONFLICT(id) DO UPDATE SET");
    reveal_strlit("INSERT INTO semantic_generations (
      id, repository_id, fast_model, fast_dimension, fast_completed_at,
      quality_model, quality_dimension, quality_status, quality_started_at,
      quality_completed_at, active_layer, files_seen, embeddable_chunks,
      fast_embedded_chunks, quality_embedded_chunks, created_at, updated_at
    )
    VALUES (?1, ?2, ?3, ?4, ?5, ?6, ?7, ?8, ?9, ?10, ?11, ?12, ?13, ?14, ?15, ?16, ?17)");
    assert(STORE_FAST_GENERATION@.subrange(0, 425) =~= "INSERT INTO semantic_generations (
      id, repository_id, fast_model, fast_dimension, fast_completed_at,
      quality_model, quality_dimension, quality_status, quality_started_at,
      quality_completed_at, active_layer, files_seen, embeddable_chunks,
      fast_embedded_chunks, quality_embedded_chunks, created_at, updated_at
    )
    VALUES (?1, ?2, ?3, ?4, ?5, ?6, ?7, ?8, ?9, ?10, ?11, ?12, ?13, ?14, ?15, ?16, ?17)"@);
    lemma_says(STORE_FAST_GENERATION@, "INSERT INTO semantic_generations (
      id, repository_id, fast_model, fast_dimension, fast_completed_at,
      quality_model, quality_dimension, quality_status, quality_started_at,
      quality_completed_at, active_layer, files_seen, embeddable_chunks,
      fast_embedded_chunks, quality_embedded_chunks, created_at, updated_at
    )
    VALUES (?1, ?2, ?3, ?4, ?5, ?6, ?7, ?8, ?9, ?10, ?11, ?12, ?13, ?14, ?15, ?16, ?17)"@, 0);
    reveal_strlit("ON CONFLICT(id) DO UPDATE SET");
    assert(STORE_FAST_GENERATION@.subrange(430, 459) =~= "ON CONFLICT(id) DO UPDATE SET"@);
    lemma_says(STORE_FAST_GENERATION@, "ON CONFLICT(id) DO UPDATE SET"@, 430);
}

/// Within a text one clause stands before another one.
pub open spec fn in_turn(sql: Seq<char>, first: Seq<char>, second: Seq<char>) -> bool {
    exists|i: int, j: int| i < j && #[trigger] stands_at(sql, first, i) && #[trigger] stands_at(sql, second, j)
}

/// Files are rebuilt within one transaction: every file is copied with all its columns before the old
/// table goes, and the new one takes its name then.
pub proof fn law_rebuilding_keeps_every_file()
    ensures
        in_turn(REBUILD_FILES@, "BEGIN;"@, "INSERT OR IGNORE INTO files_new (
  id, repository_id, path, language, content_hash, indexed_at,
  index_run_id, parser_version
)
SELECT id, repository_id, path, language, content_hash, indexed_at,
       index_run_id, parser_version
  FROM files;"@),
        in_turn(REBUILD_FILES@, "INSERT OR IGNORE INTO files_new (
  id, repository_id, path, language, content_hash, indexed_at,
  index_run_id, parser_version
)
SELECT id, repository_id, path, language, content_hash, indexed_at,
       index_run_id, parser_version
  FROM files;"@, "DROP TABLE files;"@),
        in_turn(REBUILD_FILES@, "DROP TABLE files;"@, "ALTER TABLE files_new RENAME TO files;"@),
        in_turn(REBUILD_FILES@, "ALTER TABLE files_new RENAME TO files;"@, "COMMIT;"@),
{
    reveal_strlit("PRAGMA foreign_keys = OFF;
BEGIN;
CREATE TABLE files_new (
  id TEXT PRIMARY KEY,
  repository_id TEXT NOT NULL,
  path TEXT NOT NULL,
  language TEXT NOT NULL,
  content_hash TEXT NOT NULL,
  indexed_at TEXT NOT NULL,
  index_run_id TEXT,
  parser_version TEXT,
  FOREIGN KEY(repository_id) REFERENCES repositories(id) ON DELETE CASCADE
);
INSERT OR IGNORE INTO files_new (
  id, repository_id, path, language, content_hash, indexed_at,
  index_run_id, parser_version
)
SELECT id, repository_id, path, language, content_hash, indexed_at,
       index_run_id, parser_version
  FROM files;
DROP TABLE files;
ALTER TABLE files_new RENAME TO files;
COMMIT;
PRAGMA foreign_keys = ON;");
    reveal_strlit("BEGIN;");
    assert(REBUILD_FILES@.subrange(27, 33) =~= "BEGIN;"@);
    assert(stands_at(REBUILD_FILES@, "BEGIN;"@, 27));
    reveal_strlit("INSERT OR IGNORE INTO files_new (
  id, repository_id, path, language, content_hash, indexed_at,
  index_run_id, parser_version
)
SELECT id, repository_id, path, language, content_hash, indexed_at,
       index_run_id, parser_version
  FROM files;");
    assert(REBUILD_FILES@.subrange(341, 588) =~= "INSERT OR IGNORE INTO files_new (
  id, repository_id, path, language, content_hash, indexed_at,
  index_run_id, parser_version
)
SELECT id, repository_id, path, language, content_hash, indexed_at,
       index_run_id, parser_version
  FROM files;"@);
    assert(stands_at(REBUILD_FILES@, "INSERT OR IGNORE INTO files_new (
  id, repository_id, path, language, content_hash, indexed_at,
  index_run_id, parser_version
)
SELECT id, repository_id, path, language, content_hash, indexed_at,
       index_run_id, parser_version
  FROM files;"@, 341));
    reveal_strlit("DROP TABLE files;");
    assert(REBUILD_FILES@.subrange(589, 606) =~= "DROP TABLE files;"@);
    assert(stands_at(REBUILD_FILES@, "DROP TABLE files;"@, 589));
    reveal_strlit("ALTER TABLE files_new RENAME TO files;");
    assert(REBUILD_FILES@.subrange(607, 645) =~= "ALTER TABLE files_new RENAME TO files;"@);
    assert(stands_at(REBUILD_FILES@, "ALTER TABLE files_new RENAME TO files;"@, 607));
    reveal_strlit("COMMIT;");
    assert(REBUILD_FILES@.subrange(646, 653) =~= "COMMIT;"@);
    assert(stands_at(REBUILD_FILES@, "COMMIT;"@, 646));
}

} // verus!
