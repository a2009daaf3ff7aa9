//! The schema of the relational store and how an older one is brought up to date.

use vstd::prelude::*;
use crate::error::{is_fault, Fault, StoreError};
use crate::naming::{is_plain_name, plain_name};
use crate::rows::{IndexColumnRow, IndexRow, TableColumnRow};
use crate::sql::{
    all_of, collect_rows, row_fault, rows_fault, script, statement, statement_of, values, Command,
    CommandView, FromRow, Row, SqlValue, Statement, StatementView, Value,
};
use crate::store::SqliteStore;
use crate::text::{chars_of, same, surrounded};

verus! {

/// The tables and indexes of the store.
pub const SCHEMA: &'static str = "
CREATE TABLE IF NOT EXISTS repositories (
  id TEXT PRIMARY KEY,
  root_path TEXT NOT NULL UNIQUE,
  created_at TEXT NOT NULL,
  updated_at TEXT NOT NULL
);

CREATE TABLE IF NOT EXISTS repository_refs (
    id TEXT PRIMARY KEY,
    repository_id TEXT NOT NULL,
    ref_kind TEXT NOT NULL,
    ref_name TEXT,
    ref_identity TEXT NOT NULL,
    head_oid TEXT,
    is_current INTEGER NOT NULL DEFAULT 0,
    last_seen_at TEXT,
    deleted_at TEXT,
    created_at TEXT NOT NULL,
    updated_at TEXT NOT NULL,
    UNIQUE(repository_id, ref_kind, ref_identity),
    CHECK(ref_kind IN ('branch', 'detached', 'other', 'non_git')),
    CHECK(is_current IN (0, 1)),
    FOREIGN KEY(repository_id) REFERENCES repositories(id) ON DELETE CASCADE
);

CREATE INDEX IF NOT EXISTS idx_repository_refs_current
    ON repository_refs(repository_id, is_current, deleted_at);

CREATE INDEX IF NOT EXISTS idx_repository_refs_branch_name
    ON repository_refs(repository_id, ref_kind, ref_name);

CREATE TABLE IF NOT EXISTS ref_files (
    repository_ref_id TEXT NOT NULL,
    repository_id TEXT NOT NULL,
    path TEXT NOT NULL,
    file_id TEXT NOT NULL,
    indexed_at TEXT NOT NULL,
    index_run_id TEXT,
    PRIMARY KEY(repository_ref_id, path),
    FOREIGN KEY(repository_ref_id) REFERENCES repository_refs(id) ON DELETE CASCADE,
    FOREIGN KEY(repository_id) REFERENCES repositories(id) ON DELETE CASCADE,
    FOREIGN KEY(file_id) REFERENCES files(id) ON DELETE CASCADE
);

CREATE INDEX IF NOT EXISTS idx_ref_files_repository_path
    ON ref_files(repository_id, path);

CREATE INDEX IF NOT EXISTS idx_ref_files_file
    ON ref_files(file_id);

CREATE TABLE IF NOT EXISTS index_runs (
  id TEXT PRIMARY KEY,
  repository_id TEXT NOT NULL,
    repository_ref_id TEXT,
  started_at TEXT NOT NULL,
  finished_at TEXT,
  status TEXT NOT NULL,
  embedding_model TEXT NOT NULL,
  embedding_dimension INTEGER,
  files_seen INTEGER DEFAULT 0,
  files_indexed INTEGER DEFAULT 0,
  chunks_embedded INTEGER DEFAULT 0,
  error_summary TEXT,
  parser_version TEXT,
  indexer_version TEXT,
    run_kind TEXT NOT NULL DEFAULT 'manual',
    FOREIGN KEY(repository_id) REFERENCES repositories(id) ON DELETE CASCADE,
    FOREIGN KEY(repository_ref_id) REFERENCES repository_refs(id) ON DELETE SET NULL
);

CREATE TABLE IF NOT EXISTS file_index_events (
  id TEXT PRIMARY KEY,
  index_run_id TEXT NOT NULL,
  repository_id TEXT NOT NULL,
  repository_ref_id TEXT,
  path TEXT NOT NULL,
  old_content_hash TEXT,
  new_content_hash TEXT,
  action TEXT NOT NULL,
  reason TEXT NOT NULL,
  status TEXT NOT NULL,
  error_summary TEXT,
  occurred_at TEXT NOT NULL,
  CHECK(action IN ('created', 'updated', 'deleted', 'skipped', 'failed')),
  CHECK(status IN ('success', 'failed', 'skipped')),
  FOREIGN KEY(index_run_id) REFERENCES index_runs(id) ON DELETE CASCADE,
  FOREIGN KEY(repository_id) REFERENCES repositories(id) ON DELETE CASCADE,
  FOREIGN KEY(repository_ref_id) REFERENCES repository_refs(id) ON DELETE SET NULL
);

CREATE TABLE IF NOT EXISTS watchers (
  repository_id TEXT PRIMARY KEY,
  root_path TEXT NOT NULL,
  mode TEXT NOT NULL,
  owner_kind TEXT NOT NULL,
  owner_pid INTEGER,
  socket_path TEXT,
  state TEXT NOT NULL,
  started_at TEXT,
  updated_at TEXT,
  heartbeat_at TEXT,
  files_seen INTEGER NOT NULL DEFAULT 0,
  queued_events INTEGER NOT NULL DEFAULT 0,
  last_indexed_path TEXT,
  last_error TEXT,
  active_layer TEXT,
  quality_status TEXT,
  quality_pending_jobs INTEGER NOT NULL DEFAULT 0,
  quality_running_jobs INTEGER NOT NULL DEFAULT 0,
  quality_failed_jobs INTEGER NOT NULL DEFAULT 0,
  quality_stale_jobs INTEGER NOT NULL DEFAULT 0,
  FOREIGN KEY(repository_id) REFERENCES repositories(id) ON DELETE CASCADE
);

CREATE TABLE IF NOT EXISTS watcher_clients (
  repository_id TEXT NOT NULL,
  client_id TEXT NOT NULL,
  client_kind TEXT NOT NULL,
  pid INTEGER,
  started_at TEXT NOT NULL,
  heartbeat_at TEXT NOT NULL,
  last_seen_at TEXT NOT NULL,
  PRIMARY KEY(repository_id, client_id),
  FOREIGN KEY(repository_id) REFERENCES repositories(id) ON DELETE CASCADE
);

CREATE TABLE IF NOT EXISTS files (
  id TEXT PRIMARY KEY,
  repository_id TEXT NOT NULL,
  path TEXT NOT NULL,
  language TEXT NOT NULL,
  content_hash TEXT NOT NULL,
  indexed_at TEXT NOT NULL,
  index_run_id TEXT,
  parser_version TEXT,
  FOREIGN KEY(repository_id) REFERENCES repositories(id) ON DELETE CASCADE
);

CREATE TABLE IF NOT EXISTS symbols (
  id TEXT PRIMARY KEY,
  file_id TEXT NOT NULL,
  parent_symbol_id TEXT,
  name TEXT NOT NULL,
  qualified_name TEXT,
  kind TEXT NOT NULL,
  signature TEXT,
  start_line INTEGER NOT NULL,
  end_line INTEGER NOT NULL,
  start_byte INTEGER NOT NULL,
  end_byte INTEGER NOT NULL,
  index_run_id TEXT,
  parser_version TEXT,
  FOREIGN KEY(file_id) REFERENCES files(id) ON DELETE CASCADE
);

CREATE TABLE IF NOT EXISTS chunks (
  id TEXT PRIMARY KEY,
  file_id TEXT NOT NULL,
  symbol_id TEXT,
  kind TEXT NOT NULL,
  text_hash TEXT NOT NULL,
  start_line INTEGER NOT NULL,
  end_line INTEGER NOT NULL,
  start_byte INTEGER NOT NULL,
  end_byte INTEGER NOT NULL,
  vector_point_id TEXT,
  excluded_reason TEXT,
  index_run_id TEXT,
  parser_version TEXT,
  embedding_model TEXT,
  embedding_dimension INTEGER,
  embedded_at TEXT,
  FOREIGN KEY(file_id) REFERENCES files(id) ON DELETE CASCADE
);

CREATE TABLE IF NOT EXISTS calls (
  id TEXT PRIMARY KEY,
  caller_symbol_id TEXT NOT NULL,
  callee_text TEXT NOT NULL,
  callee_symbol_id TEXT,
  call_line INTEGER NOT NULL,
  confidence REAL NOT NULL,
  resolution_status TEXT NOT NULL,
  index_run_id TEXT,
  parser_version TEXT
);

CREATE TABLE IF NOT EXISTS symbol_references (
    id TEXT PRIMARY KEY,
    file_id TEXT NOT NULL,
    source_symbol_id TEXT,
    target_symbol_id TEXT,
    reference_text TEXT NOT NULL,
    reference_kind TEXT NOT NULL,
    line INTEGER NOT NULL,
    confidence REAL NOT NULL,
    resolution_status TEXT NOT NULL,
    index_run_id TEXT,
    parser_version TEXT,
    CHECK(reference_kind IN (
        'import',
        'type_reference',
        'implementation',
        'attribute',
        'inheritance',
        'decorator',
        'config_link'
    )),
    CHECK(resolution_status IN (
        'resolved_exact',
        'resolved_local_candidate',
        'unresolved',
        'ambiguous'
    )),
    FOREIGN KEY(file_id) REFERENCES files(id) ON DELETE CASCADE,
    FOREIGN KEY(source_symbol_id) REFERENCES symbols(id) ON DELETE CASCADE,
    FOREIGN KEY(target_symbol_id) REFERENCES symbols(id) ON DELETE SET NULL
);

CREATE TABLE IF NOT EXISTS tests (
    id TEXT PRIMARY KEY,
    repository_id TEXT NOT NULL,
    file_id TEXT NOT NULL,
    symbol_id TEXT,
    name TEXT NOT NULL,
    qualified_name TEXT NOT NULL,
    framework TEXT NOT NULL,
    language TEXT NOT NULL,
    path TEXT NOT NULL,
    start_line INTEGER NOT NULL,
    end_line INTEGER NOT NULL,
    start_byte INTEGER NOT NULL,
    end_byte INTEGER NOT NULL,
    index_run_id TEXT,
    parser_version TEXT,
    indexed_at TEXT NOT NULL,
    FOREIGN KEY(repository_id) REFERENCES repositories(id) ON DELETE CASCADE,
    FOREIGN KEY(file_id) REFERENCES files(id) ON DELETE CASCADE,
    FOREIGN KEY(symbol_id) REFERENCES symbols(id) ON DELETE SET NULL
);

CREATE TABLE IF NOT EXISTS semantic_generations (
    id TEXT PRIMARY KEY,
    repository_id TEXT NOT NULL,
    fast_model TEXT NOT NULL,
    fast_dimension INTEGER NOT NULL,
    fast_completed_at TEXT NOT NULL,
    quality_model TEXT,
    quality_dimension INTEGER,
    quality_status TEXT NOT NULL,
    quality_started_at TEXT,
    quality_completed_at TEXT,
    active_layer TEXT NOT NULL,
    files_seen INTEGER NOT NULL,
    embeddable_chunks INTEGER NOT NULL,
    fast_embedded_chunks INTEGER NOT NULL,
    quality_embedded_chunks INTEGER NOT NULL,
    created_at TEXT NOT NULL,
    updated_at TEXT NOT NULL,
    CHECK(quality_status IN (
        'missing',
        'fast_ready',
        'quality_pending',
        'quality_ready',
        'quality_stale',
        'quality_blocked',
        'quality_failed'
    )),
    CHECK(active_layer IN ('fast', 'quality')),
    FOREIGN KEY(repository_id) REFERENCES repositories(id) ON DELETE CASCADE
);

CREATE TABLE IF NOT EXISTS semantic_generation_refs (
    repository_ref_id TEXT PRIMARY KEY,
    repository_id TEXT NOT NULL,
    generation_id TEXT NOT NULL,
    linked_at TEXT NOT NULL,
    FOREIGN KEY(repository_ref_id) REFERENCES repository_refs(id) ON DELETE CASCADE,
    FOREIGN KEY(repository_id) REFERENCES repositories(id) ON DELETE CASCADE,
    FOREIGN KEY(generation_id) REFERENCES semantic_generations(id) ON DELETE CASCADE
);

CREATE TABLE IF NOT EXISTS chunk_embeddings (
    id TEXT PRIMARY KEY,
    repository_id TEXT NOT NULL,
    file_id TEXT NOT NULL,
    chunk_id TEXT NOT NULL,
    semantic_layer TEXT NOT NULL,
    embedding_model TEXT NOT NULL,
    embedding_dimension INTEGER NOT NULL,
    content_hash TEXT NOT NULL,
    text_hash TEXT NOT NULL,
    vector_table TEXT NOT NULL,
    vector_point_id TEXT NOT NULL,
    vector_store TEXT NOT NULL DEFAULT 'sqlite_vec',
    vector_rowid INTEGER,
    generation_id TEXT NOT NULL,
    embedded_at TEXT NOT NULL,
    status TEXT NOT NULL DEFAULT 'current',
    UNIQUE(chunk_id, semantic_layer, embedding_model, embedding_dimension),
    CHECK(semantic_layer IN ('fast', 'quality')),
    CHECK(status IN ('current', 'stale', 'blocked', 'failed')),
    FOREIGN KEY(repository_id) REFERENCES repositories(id) ON DELETE CASCADE,
    FOREIGN KEY(file_id) REFERENCES files(id) ON DELETE CASCADE,
    FOREIGN KEY(chunk_id) REFERENCES chunks(id) ON DELETE CASCADE,
    FOREIGN KEY(generation_id) REFERENCES semantic_generations(id) ON DELETE CASCADE
);

CREATE TABLE IF NOT EXISTS vector_points (
  vector_store TEXT NOT NULL,
  vector_table TEXT NOT NULL,
  vector_rowid INTEGER NOT NULL,
  vector_point_id TEXT NOT NULL,
  repository_id TEXT NOT NULL,
  file_id TEXT NOT NULL,
  chunk_id TEXT NOT NULL,
  symbol_id TEXT,
  symbol_name TEXT,
  path TEXT NOT NULL,
  language TEXT NOT NULL,
  chunk_kind TEXT NOT NULL,
  start_line INTEGER NOT NULL,
  end_line INTEGER NOT NULL,
  text_hash TEXT NOT NULL,
  parser_version TEXT,
  content_hash TEXT,
  index_run_id TEXT,
  embedding_model TEXT,
  embedding_dimension INTEGER,
  indexed_at TEXT,
  PRIMARY KEY(vector_store, vector_table, vector_point_id),
  UNIQUE(vector_store, vector_table, vector_rowid)
);

CREATE TABLE IF NOT EXISTS quality_embedding_jobs (
    id TEXT PRIMARY KEY,
    repository_id TEXT NOT NULL,
    generation_id TEXT NOT NULL,
    chunk_id TEXT NOT NULL,
    file_id TEXT NOT NULL,
    path TEXT NOT NULL,
    content_hash TEXT NOT NULL,
    text_hash TEXT NOT NULL,
    status TEXT NOT NULL,
    attempts INTEGER NOT NULL DEFAULT 0,
    error_summary TEXT,
    created_at TEXT NOT NULL,
    updated_at TEXT NOT NULL,
    UNIQUE(repository_id, generation_id, chunk_id),
    CHECK(status IN ('pending', 'running', 'succeeded', 'failed', 'skipped_stale', 'skipped_excluded')),
    CHECK(attempts >= 0),
    FOREIGN KEY(repository_id) REFERENCES repositories(id) ON DELETE CASCADE,
    FOREIGN KEY(generation_id) REFERENCES semantic_generations(id) ON DELETE CASCADE,
    FOREIGN KEY(chunk_id) REFERENCES chunks(id) ON DELETE CASCADE,
    FOREIGN KEY(file_id) REFERENCES files(id) ON DELETE CASCADE
);

CREATE INDEX IF NOT EXISTS idx_files_repository_path ON files(repository_id, path);
CREATE UNIQUE INDEX IF NOT EXISTS idx_files_repository_path_hash
    ON files(repository_id, path, content_hash);
CREATE INDEX IF NOT EXISTS idx_chunks_file_id ON chunks(file_id);
CREATE INDEX IF NOT EXISTS idx_symbols_file_id ON symbols(file_id);
CREATE INDEX IF NOT EXISTS idx_symbols_name ON symbols(name);
CREATE INDEX IF NOT EXISTS idx_symbols_qualified_name ON symbols(qualified_name);
CREATE INDEX IF NOT EXISTS idx_calls_caller_symbol_id ON calls(caller_symbol_id);
CREATE INDEX IF NOT EXISTS idx_calls_callee_symbol_id ON calls(callee_symbol_id);
CREATE INDEX IF NOT EXISTS idx_symbol_references_file_kind ON symbol_references(file_id, reference_kind);
CREATE INDEX IF NOT EXISTS idx_symbol_references_source_kind ON symbol_references(source_symbol_id, reference_kind);
CREATE INDEX IF NOT EXISTS idx_symbol_references_target_kind ON symbol_references(target_symbol_id, reference_kind);
CREATE INDEX IF NOT EXISTS idx_symbol_references_kind_status ON symbol_references(reference_kind, resolution_status);
CREATE INDEX IF NOT EXISTS idx_tests_repository_name ON tests(repository_id, name);
CREATE INDEX IF NOT EXISTS idx_tests_repository_qualified_name ON tests(repository_id, qualified_name);
CREATE INDEX IF NOT EXISTS idx_tests_file_id ON tests(file_id);
CREATE INDEX IF NOT EXISTS idx_tests_symbol_id ON tests(symbol_id);
CREATE INDEX IF NOT EXISTS idx_index_runs_repository_status ON index_runs(repository_id, status, finished_at);
CREATE INDEX IF NOT EXISTS idx_index_runs_repository_model_status ON index_runs(repository_id, embedding_model, status, finished_at);
CREATE INDEX IF NOT EXISTS idx_file_index_events_run_path ON file_index_events(index_run_id, path);
CREATE INDEX IF NOT EXISTS idx_file_index_events_repository_path_time ON file_index_events(repository_id, path, occurred_at);
CREATE INDEX IF NOT EXISTS idx_file_index_events_repository_action_status ON file_index_events(repository_id, action, status, occurred_at);
CREATE INDEX IF NOT EXISTS idx_semantic_generations_repository_fast_completed ON semantic_generations(repository_id, fast_completed_at DESC, created_at DESC);
CREATE INDEX IF NOT EXISTS idx_semantic_generation_refs_generation ON semantic_generation_refs(repository_id, generation_id);
CREATE INDEX IF NOT EXISTS idx_chunk_embeddings_repository_layer_model ON chunk_embeddings(repository_id, semantic_layer, embedding_model);
CREATE INDEX IF NOT EXISTS idx_chunk_embeddings_generation_chunk ON chunk_embeddings(generation_id, chunk_id);
CREATE INDEX IF NOT EXISTS idx_chunk_embeddings_repository_generation_layer_status ON chunk_embeddings(repository_id, generation_id, semantic_layer, status);
CREATE INDEX IF NOT EXISTS idx_vector_points_repository_table ON vector_points(repository_id, vector_store, vector_table);
CREATE INDEX IF NOT EXISTS idx_vector_points_chunk ON vector_points(chunk_id);
CREATE INDEX IF NOT EXISTS idx_quality_embedding_jobs_repository_generation_status ON quality_embedding_jobs(repository_id, generation_id, status, updated_at);
CREATE INDEX IF NOT EXISTS idx_watchers_state_heartbeat ON watchers(state, heartbeat_at);
CREATE INDEX IF NOT EXISTS idx_watcher_clients_repository_heartbeat ON watcher_clients(repository_id, heartbeat_at);
";

/// The indexes of the files, which stand in place of a unique path.
pub const FILES_CONTENT_ADDRESSING_INDEXES: &'static str = "
CREATE INDEX IF NOT EXISTS idx_files_repository_path ON files(repository_id, path);
CREATE UNIQUE INDEX IF NOT EXISTS idx_files_repository_path_hash
    ON files(repository_id, path, content_hash);
";

/// Rebuilds the table of files without its unique path.
pub const REBUILD_FILES: &'static str = "PRAGMA foreign_keys = OFF;
BEGIN;
CREATE TABLE files_new (
  id TEXT PRIMARY KEY,
  repository_id TEXT NOT NULL,
  path TEXT NOT NULL,
  language TEXT NOT NULL,
  content_hash TEXT NOT NULL,
  indexed_at TEXT NOT NULL,
  index_run_id TEXT,
  parser_version TEXT,
  FOREIGN KEY(repository_id) REFERENCES repositories(id) ON DELETE CASCADE
);
INSERT OR IGNORE INTO files_new (
  id, repository_id, path, language, content_hash, indexed_at,
  index_run_id, parser_version
)
SELECT id, repository_id, path, language, content_hash, indexed_at,
       index_run_id, parser_version
  FROM files;
DROP TABLE files;
ALTER TABLE files_new RENAME TO files;
COMMIT;
PRAGMA foreign_keys = ON;";

/// Lists the indexes of the files. Read as `IndexRow`s.
pub const FILE_INDEXES: &'static str = "PRAGMA index_list(files)";

/// A column that older databases lack, and the statement that adds it.
#[derive(Debug, Clone, Copy)]
pub struct ProvenanceColumn {
    pub table: &'static str,
    pub name: &'static str,
    pub alter_sql: &'static str,
}

/// The mathematical reading of a column.
#[verifier::ext_equal]
pub struct ColumnView {
    pub table: Seq<char>,
    pub name: Seq<char>,
    pub alter_sql: Seq<char>,
}

impl View for ProvenanceColumn {
    type V = ColumnView;

    open spec fn view(&self) -> ColumnView {
        ColumnView { table: self.table@, name: self.name@, alter_sql: self.alter_sql@ }
    }
}

/// The reading of a column.
pub open spec fn column_of(table: Seq<char>, name: Seq<char>, alter_sql: Seq<char>) -> ColumnView {
    ColumnView { table, name, alter_sql }
}

/// The columns that older databases lack.
pub open spec fn compatibility() -> Seq<ColumnView> {
    seq![
        column_of(
            "index_runs"@,
            "repository_ref_id"@,
            "ALTER TABLE index_runs ADD COLUMN repository_ref_id TEXT"@,
        ),
        column_of(
            "index_runs"@,
            "parser_version"@,
            "ALTER TABLE index_runs ADD COLUMN parser_version TEXT"@,
        ),
        column_of(
            "index_runs"@,
            "indexer_version"@,
            "ALTER TABLE index_runs ADD COLUMN indexer_version TEXT"@,
        ),
        column_of(
            "index_runs"@,
            "run_kind"@,
            "ALTER TABLE index_runs ADD COLUMN run_kind TEXT NOT NULL DEFAULT 'manual'"@,
        ),
        column_of(
            "files"@,
            "index_run_id"@,
            "ALTER TABLE files ADD COLUMN index_run_id TEXT"@,
        ),
        column_of(
            "files"@,
            "parser_version"@,
            "ALTER TABLE files ADD COLUMN parser_version TEXT"@,
        ),
        column_of(
            "symbols"@,
            "index_run_id"@,
            "ALTER TABLE symbols ADD COLUMN index_run_id TEXT"@,
        ),
        column_of(
            "symbols"@,
            "parser_version"@,
            "ALTER TABLE symbols ADD COLUMN parser_version TEXT"@,
        ),
        column_of(
            "chunks"@,
            "index_run_id"@,
            "ALTER TABLE chunks ADD COLUMN index_run_id TEXT"@,
        ),
        column_of(
            "chunks"@,
            "parser_version"@,
            "ALTER TABLE chunks ADD COLUMN parser_version TEXT"@,
        ),
        column_of(
            "chunks"@,
            "embedding_model"@,
            "ALTER TABLE chunks ADD COLUMN embedding_model TEXT"@,
        ),
        column_of(
            "chunks"@,
            "embedding_dimension"@,
            "ALTER TABLE chunks ADD COLUMN embedding_dimension INTEGER"@,
        ),
        column_of(
            "chunks"@,
            "embedded_at"@,
            "ALTER TABLE chunks ADD COLUMN embedded_at TEXT"@,
        ),
        column_of(
            "calls"@,
            "index_run_id"@,
            "ALTER TABLE calls ADD COLUMN index_run_id TEXT"@,
        ),
        column_of(
            "calls"@,
            "parser_version"@,
            "ALTER TABLE calls ADD COLUMN parser_version TEXT"@,
        ),
        column_of(
            "chunk_embeddings"@,
            "vector_store"@,
            "ALTER TABLE chunk_embeddings ADD COLUMN vector_store TEXT NOT NULL DEFAULT 'legacy_qdrant'"@,
        ),
        column_of(
            "chunk_embeddings"@,
            "vector_table"@,
            "ALTER TABLE chunk_embeddings ADD COLUMN vector_table TEXT"@,
        ),
        column_of(
            "chunk_embeddings"@,
            "vector_point_id"@,
            "ALTER TABLE chunk_embeddings ADD COLUMN vector_point_id TEXT"@,
        ),
        column_of(
            "chunk_embeddings"@,
            "vector_rowid"@,
            "ALTER TABLE chunk_embeddings ADD COLUMN vector_rowid INTEGER"@,
        ),
    ]
}

/// The readings of a list of columns.
pub open spec fn columns(list: Seq<ProvenanceColumn>) -> Seq<ColumnView> {
    Seq::new(list.len(), |i: int| list[i]@)
}

/// The columns that older databases lack.
pub fn compatibility_columns() -> (r: Vec<ProvenanceColumn>)
    ensures
        columns(r@) == compatibility(),
{
    let list = vec![
        ProvenanceColumn {
            table: "index_runs",
            name: "repository_ref_id",
            alter_sql: "ALTER TABLE index_runs ADD COLUMN repository_ref_id TEXT",
        },
        ProvenanceColumn {
            table: "index_runs",
            name: "parser_version",
            alter_sql: "ALTER TABLE index_runs ADD COLUMN parser_version TEXT",
        },
        ProvenanceColumn {
            table: "index_runs",
            name: "indexer_version",
            alter_sql: "ALTER TABLE index_runs ADD COLUMN indexer_version TEXT",
        },
        ProvenanceColumn {
            table: "index_runs",
            name: "run_kind",
            alter_sql: "ALTER TABLE index_runs ADD COLUMN run_kind TEXT NOT NULL DEFAULT 'manual'",
        },
        ProvenanceColumn {
            table: "files",
            name: "index_run_id",
            alter_sql: "ALTER TABLE files ADD COLUMN index_run_id TEXT",
        },
        ProvenanceColumn {
            table: "files",
            name: "parser_version",
            alter_sql: "ALTER TABLE files ADD COLUMN parser_version TEXT",
        },
        ProvenanceColumn {
            table: "symbols",
            name: "index_run_id",
            alter_sql: "ALTER TABLE symbols ADD COLUMN index_run_id TEXT",
        },
        ProvenanceColumn {
            table: "symbols",
            name: "parser_version",
            alter_sql: "ALTER TABLE symbols ADD COLUMN parser_version TEXT",
        },
        ProvenanceColumn {
            table: "chunks",
            name: "index_run_id",
            alter_sql: "ALTER TABLE chunks ADD COLUMN index_run_id TEXT",
        },
        ProvenanceColumn {
            table: "chunks",
            name: "parser_version",
            alter_sql: "ALTER TABLE chunks ADD COLUMN parser_version TEXT",
        },
        ProvenanceColumn {
            table: "chunks",
            name: "embedding_model",
            alter_sql: "ALTER TABLE chunks ADD COLUMN embedding_model TEXT",
        },
        ProvenanceColumn {
            table: "chunks",
            name: "embedding_dimension",
            alter_sql: "ALTER TABLE chunks ADD COLUMN embedding_dimension INTEGER",
        },
        ProvenanceColumn {
            table: "chunks",
            name: "embedded_at",
            alter_sql: "ALTER TABLE chunks ADD COLUMN embedded_at TEXT",
        },
        ProvenanceColumn {
            table: "calls",
            name: "index_run_id",
            alter_sql: "ALTER TABLE calls ADD COLUMN index_run_id TEXT",
        },
        ProvenanceColumn {
            table: "calls",
            name: "parser_version",
            alter_sql: "ALTER TABLE calls ADD COLUMN parser_version TEXT",
        },
        ProvenanceColumn {
            table: "chunk_embeddings",
            name: "vector_store",
            alter_sql: "ALTER TABLE chunk_embeddings ADD COLUMN vector_store TEXT NOT NULL DEFAULT 'legacy_qdrant'",
        },
        ProvenanceColumn {
            table: "chunk_embeddings",
            name: "vector_table",
            alter_sql: "ALTER TABLE chunk_embeddings ADD COLUMN vector_table TEXT",
        },
        ProvenanceColumn {
            table: "chunk_embeddings",
            name: "vector_point_id",
            alter_sql: "ALTER TABLE chunk_embeddings ADD COLUMN vector_point_id TEXT",
        },
        ProvenanceColumn {
            table: "chunk_embeddings",
            name: "vector_rowid",
            alter_sql: "ALTER TABLE chunk_embeddings ADD COLUMN vector_rowid INTEGER",
        },
    ];
    proof {
        assert(columns(list@) =~= compatibility());
    }
    list
}

/// Whether a column is found among those of a table, in the order in which they come; a row that
/// cannot be read and comes first is an error.
pub open spec fn looked_up(rows: Seq<Row>, column: Seq<char>, from: int) -> Result<bool, Fault>
    decreases rows.len() - from,
{
    if from < 0 || from >= rows.len() {
        Ok(false)
    } else {
        match row_fault::<TableColumnRow>(rows[from]@) {
            Some(fault) => Err(fault),
            None => if TableColumnRow::of(rows[from]@).name@ == column {
                Ok(true)
            } else {
                looked_up(rows, column, from + 1)
            },
        }
    }
}

/// `r` is the answer of a look-up.
pub open spec fn is_answer(r: Result<bool, StoreError>, answer: Result<bool, Fault>) -> bool {
    match answer {
        Ok(found) => r == Ok::<bool, StoreError>(found),
        Err(fault) => r matches Err(e) && is_fault(e, fault),
    }
}

/// The reading of the query for the columns of a table.
pub open spec fn table_info_spec(table: Seq<char>) -> StatementView {
    StatementView { sql: "PRAGMA table_info("@ + table + ")"@, params: Seq::empty() }
}

/// A name with every quotation mark doubled, as it stands between quotation marks.
pub open spec fn escaped(name: Seq<char>) -> Seq<char>
    decreases name.len(),
{
    if name.len() == 0 {
        Seq::empty()
    } else if name.last() == '"' {
        escaped(name.drop_last()).push('"').push('"')
    } else {
        escaped(name.drop_last()).push(name.last())
    }
}

/// What stands between quotation marks, with every pair of them taken for one; nothing where one
/// stands alone.
pub open spec fn unescaped(quoted: Seq<char>) -> Option<Seq<char>>
    decreases quoted.len(),
{
    if quoted.len() == 0 {
        Some(Seq::empty())
    } else if quoted.last() != '"' {
        match unescaped(quoted.drop_last()) {
            Some(front) => Some(front.push(quoted.last())),
            None => None,
        }
    } else if quoted.len() == 1 || quoted[quoted.len() - 2] != '"' {
        None
    } else {
        match unescaped(quoted.drop_last().drop_last()) {
            Some(front) => Some(front.push('"')),
            None => None,
        }
    }
}

/// A name is recovered from its quoted form, so no name can end the quotation early.
pub proof fn law_quoting_can_be_undone(name: Seq<char>)
    ensures
        unescaped(escaped(name)) == Some(name),
    decreases name.len(),
{
    if name.len() > 0 {
        let front = name.drop_last();
        law_quoting_can_be_undone(front);
        assert(front.push(name.last()) =~= name);
        if name.last() == '"' {
            let quoted = escaped(front).push('"').push('"');
            assert(quoted.drop_last() =~= escaped(front).push('"'));
            assert(quoted.drop_last().drop_last() =~= escaped(front));
        } else {
            assert(escaped(name).drop_last() =~= escaped(front));
        }
    }
}

fn escape(name: &str) -> (r: String)
    ensures
        r@ == escaped(name@),
{
    let chars = chars_of(name);
    let mut out = String::new();
    proof {
        assert(out@ =~= escaped(chars@.take(0)));
    }
    for i in 0..chars.len()
        invariant
            chars@ == name@,
            out@ == escaped(chars@.take(i as int)),
    {
        proof {
            assert(chars@.take(i + 1).drop_last() =~= chars@.take(i as int));
        }
        if chars[i] == '"' {
            out.push('"');
        }
        out.push(chars[i]);
    }
    proof {
        assert(chars@.take(chars@.len() as int) =~= chars@);
    }
    out
}

/// The reading of the query for the columns of an index.
pub open spec fn index_info_spec(name: Seq<char>) -> StatementView {
    StatementView { sql: "PRAGMA index_info(\""@ + escaped(name) + "\")"@, params: Seq::empty() }
}

/// The names of columns.
pub open spec fn column_names(list: Seq<IndexColumnRow>) -> Seq<Seq<char>> {
    Seq::new(list.len(), |i: int| list[i].name@)
}

/// The columns that made a path unique in a repository.
pub open spec fn repository_path() -> Seq<Seq<char>> {
    seq!["repository_id"@, "path"@]
}

/// Whether names are those of the columns that made a path unique.
pub open spec fn is_repository_path(names: Seq<Seq<char>>) -> bool {
    names == repository_path()
}

/// The steps that let a path have several files: the table of files is rebuilt where a path is
/// unique in it, and its indexes are made in any case.
pub open spec fn content_addressing(unique_path: bool) -> Seq<CommandView> {
    if unique_path {
        seq![
            CommandView::Batch(REBUILD_FILES@),
            CommandView::Batch(FILES_CONTENT_ADDRESSING_INDEXES@),
        ]
    } else {
        seq![CommandView::Batch(FILES_CONTENT_ADDRESSING_INDEXES@)]
    }
}

/// What is known of whether a unique index makes the path of a file unique.
#[derive(Debug, Clone, PartialEq)]
pub enum UniquePath {
    Known(bool),
    /// It depends on the columns of an index, which this query asks for.
    Ask(Statement),
}

/// The reading of what is known of the path of a file.
pub enum UniquePathView {
    Known(bool),
    Ask(StatementView),
    Unreadable(Fault),
}

/// What indexes of the files tell of their path, with the columns of the first unique ones in
/// `answers`. The indexes are gone through in order, and the first that makes the path unique
/// decides: what stands behind it is not looked at.
pub open spec fn constraint(indexes: Seq<Row>, answers: Seq<Vec<Row>>) -> UniquePathView
    decreases indexes.len(),
{
    if indexes.len() == 0 {
        UniquePathView::Known(false)
    } else {
        match row_fault::<IndexRow>(indexes[0]@) {
            Some(fault) => UniquePathView::Unreadable(fault),
            None => {
                let index = IndexRow::of(indexes[0]@);
                if index.unique == 0 {
                    constraint(indexes.drop_first(), answers)
                } else if answers.len() == 0 {
                    UniquePathView::Ask(index_info_spec(index.name@))
                } else {
                    match rows_fault::<IndexColumnRow>(answers[0]@) {
                        Some(fault) => UniquePathView::Unreadable(fault),
                        None => if is_repository_path(
                            column_names(all_of::<IndexColumnRow>(answers[0]@)),
                        ) {
                            UniquePathView::Known(true)
                        } else {
                            constraint(indexes.drop_first(), answers.drop_first())
                        },
                    }
                }
            },
        }
    }
}

/// Foreign keys are enforced.
pub const FOREIGN_KEYS: &'static str = "PRAGMA foreign_keys = ON;";

/// Changes are written ahead.
pub const WRITE_AHEAD: &'static str = "PRAGMA journal_mode = WAL;";

/// The steps that set a connection up: the journal mode is set for a new database alone, and that
/// of one that was there is left as it is.
pub open spec fn opening_steps(is_new: bool) -> Seq<CommandView> {
    if is_new {
        seq![CommandView::Batch(FOREIGN_KEYS@), CommandView::Batch(WRITE_AHEAD@)]
    } else {
        seq![CommandView::Batch(FOREIGN_KEYS@)]
    }
}

impl SqliteStore {
    /// The steps that set up a connection to a database that is new or was there before. One that
    /// is opened to be read only was there.
    pub fn opening(is_new: bool) -> (r: Vec<Command>)
        ensures
            script(r@) == opening_steps(is_new),
    {
        let mut commands = vec![Command::Batch(FOREIGN_KEYS.to_owned())];
        if is_new {
            commands.push(Command::Batch(WRITE_AHEAD.to_owned()));
        }
        proof {
            assert(script(commands@) =~= opening_steps(is_new));
        }
        commands
    }

    /// The first step of a migration: make what is missing. Then every column of
    /// `compatibility_columns` is looked up and added where it is missing, and the files are made
    /// content-addressed.
    pub fn migrate() -> (r: Vec<Command>)
        ensures
            script(r@) == seq![CommandView::Batch(SCHEMA@)],
    {
        let commands = vec![Command::Batch(SCHEMA.to_owned())];
        proof {
            assert(script(commands@) =~= seq![CommandView::Batch(SCHEMA@)]);
        }
        commands
    }

    /// The query for the columns of a table. The rows go to `ensure_column`.
    pub fn column_exists(table: &str) -> (r: Result<Statement, StoreError>)
        ensures
            if is_plain_name(table@) {
                r matches Ok(s) && s@ == table_info_spec(table@)
            } else {
                r matches Err(e) && is_fault(
                    e,
                    Fault::Unexpected("invalid SQLite table name `"@ + table@ + "`"@),
                )
            },
    {
        if !plain_name(table) {
            return Err(
                StoreError::UnexpectedResponse(
                    surrounded("invalid SQLite table name `", table, "`"),
                ),
            );
        }
        let params: Vec<SqlValue> = Vec::new();
        proof {
            assert(values(params@) =~= Seq::empty());
        }
        Ok(Statement { sql: surrounded("PRAGMA table_info(", table, ")"), params })
    }

    /// Whether the rows of `column_exists` hold a column.
    pub fn has_column(rows: &Vec<Row>, column: &str) -> (r: Result<bool, StoreError>)
        ensures
            is_answer(r, looked_up(rows@, column@, 0)),
    {
        for i in 0..rows.len()
            invariant
                looked_up(rows@, column@, 0) == looked_up(rows@, column@, i as int),
        {
            let found: TableColumnRow = match FromRow::from_row(&rows[i]) {
                Ok(found) => found,
                Err(error) => {
                    return Err(error);
                },
            };
            if same(found.name.as_str(), column) {
                return Ok(true);
            }
        }
        Ok(false)
    }

    /// The statement that adds a column to a table whose columns are given, where it is missing.
    pub fn ensure_column(column: &ProvenanceColumn, rows: &Vec<Row>) -> (r: Result<
        Option<Statement>,
        StoreError,
    >)
        ensures
            match looked_up(rows@, column.name@, 0) {
                Ok(true) => r == Ok::<Option<Statement>, StoreError>(None),
                Ok(false) => r matches Ok(Some(s)) && s@ == statement_of(
                    column.alter_sql,
                    Seq::empty(),
                ),
                Err(fault) => r matches Err(e) && is_fault(e, fault),
            },
    {
        match SqliteStore::has_column(rows, column.name) {
            Ok(true) => Ok(None),
            Ok(false) => {
                let params: Vec<SqlValue> = Vec::new();
                proof {
                    assert(values(params@) =~= Seq::<Value>::empty());
                }
                Ok(Some(statement(column.alter_sql, params)))
            },
            Err(error) => Err(error),
        }
    }

    /// The query for the indexes of the files. The rows go to
    /// `files_has_unique_repository_path_constraint`.
    pub fn file_indexes() -> (r: Statement)
        ensures
            r@ == statement_of(FILE_INDEXES, Seq::empty()),
    {
        let params: Vec<SqlValue> = Vec::new();
        proof {
            assert(values(params@) =~= Seq::<Value>::empty());
        }
        statement(FILE_INDEXES, params)
    }

    /// The query for the columns of an index. The rows go to `makes_path_unique`.
    pub fn index_columns(index_name: &str) -> (r: Statement)
        ensures
            r@ == index_info_spec(index_name@),
    {
        let params: Vec<SqlValue> = Vec::new();
        proof {
            assert(values(params@) =~= Seq::empty());
        }
        let quoted = escape(index_name);
        Statement { sql: surrounded("PRAGMA index_info(\"", quoted.as_str(), "\")"), params }
    }

    /// Whether a unique index with the columns found makes the path of a file unique.
    pub fn makes_path_unique(rows: &Vec<Row>) -> (r: Result<bool, StoreError>)
        ensures
            match rows_fault::<IndexColumnRow>(rows@) {
                Some(fault) => r matches Err(e) && is_fault(e, fault),
                None => r matches Ok(unique) && unique == is_repository_path(
                    column_names(all_of::<IndexColumnRow>(rows@)),
                ),
            },
    {
        let found: Vec<IndexColumnRow> = match collect_rows(rows) {
            Ok(found) => found,
            Err(error) => {
                return Err(error);
            },
        };
        let unique = found.len() == 2 && same(found[0].name.as_str(), "repository_id") && same(
            found[1].name.as_str(),
            "path",
        );
        proof {
            let names = column_names(found@);
            let wanted = repository_path();
            assert(names.len() == found@.len());
            assert(wanted.len() == 2 && wanted[0] == "repository_id"@ && wanted[1] == "path"@);
            if found@.len() == 2 {
                assert(names[0] == found@[0].name@);
                assert(names[1] == found@[1].name@);
            }
            if unique {
                assert(names =~= wanted);
            }
            assert(unique == is_repository_path(names));
        }
        Ok(unique)
    }

    /// Whether a unique index makes the path of a file unique, from the rows of `file_indexes` and
    /// the columns of the unique indexes among them, as far as they were asked for. Where the next
    /// ones are needed, the rows of the query for them are to be added to `answers`.
    pub fn files_has_unique_repository_path_constraint(
        indexes: &Vec<Row>,
        answers: &Vec<Vec<Row>>,
    ) -> (r: Result<UniquePath, StoreError>)
        ensures
            match constraint(indexes@, answers@) {
                UniquePathView::Known(unique) => r == Ok::<UniquePath, StoreError>(
                    UniquePath::Known(unique),
                ),
                UniquePathView::Ask(query) => r matches Ok(UniquePath::Ask(s)) && s@ == query,
                UniquePathView::Unreadable(fault) => r matches Err(e) && is_fault(e, fault),
            },
    {
        let mut answered: usize = 0;
        proof {
            assert(indexes@.skip(0) =~= indexes@);
            assert(answers@.skip(0) =~= answers@);
        }
        for i in 0..indexes.len()
            invariant
                answered <= answers@.len(),
                constraint(indexes@, answers@) == constraint(
                    indexes@.skip(i as int),
                    answers@.skip(answered as int),
                ),
        {
            proof {
                assert(indexes@.skip(i as int).drop_first() =~= indexes@.skip(i + 1));
            }
            let index: IndexRow = match IndexRow::from_row(&indexes[i]) {
                Ok(index) => index,
                Err(error) => {
                    return Err(error);
                },
            };
            if index.unique != 0 {
                if answered == answers.len() {
                    return Ok(UniquePath::Ask(SqliteStore::index_columns(index.name.as_str())));
                }
                proof {
                    assert(answers@.skip(answered as int).drop_first() =~= answers@.skip(
                        answered + 1,
                    ));
                }
                match SqliteStore::makes_path_unique(&answers[answered]) {
                    Ok(true) => {
                        return Ok(UniquePath::Known(true));
                    },
                    Ok(false) => {},
                    Err(error) => {
                        return Err(error);
                    },
                }
                answered = answered + 1;
            }
        }
        Ok(UniquePath::Known(false))
    }

    /// The last steps of a migration. `unique_path` tells whether a unique index on the files
    /// makes their path unique.
    pub fn ensure_content_addressed_files(unique_path: bool) -> (r: Vec<Command>)
        ensures
            script(r@) == content_addressing(unique_path),
    {
        let mut commands: Vec<Command> = Vec::new();
        if unique_path {
            commands.push(Command::Batch(REBUILD_FILES.to_owned()));
        }
        commands.push(Command::Batch(FILES_CONTENT_ADDRESSING_INDEXES.to_owned()));
        proof {
            assert(script(commands@) =~= content_addressing(unique_path));
        }
        commands
    }
}

/// Once a column is among those of its table, it is not added again.
pub proof fn law_columns_are_added_once(rows: Seq<Row>, column: Seq<char>, at: int)
    requires
        0 <= at < rows.len(),
        forall|i: int|
            0 <= i < rows.len() ==> row_fault::<TableColumnRow>((#[trigger] rows[i])@) is None,
        TableColumnRow::of(rows[at]@).name@ == column,
    ensures
        looked_up(rows, column, 0) == Ok::<bool, Fault>(true),
{
    lemma_look_up_finds(rows, column, at, 0);
}

proof fn lemma_look_up_finds(rows: Seq<Row>, column: Seq<char>, at: int, from: int)
    requires
        0 <= from <= at < rows.len(),
        forall|i: int|
            0 <= i < rows.len() ==> row_fault::<TableColumnRow>((#[trigger] rows[i])@) is None,
        TableColumnRow::of(rows[at]@).name@ == column,
    ensures
        looked_up(rows, column, from) == Ok::<bool, Fault>(true),
    decreases at - from,
{
    assert(row_fault::<TableColumnRow>(rows[from]@) is None);
    if from < at && TableColumnRow::of(rows[from]@).name@ != column {
        lemma_look_up_finds(rows, column, at, from + 1);
    }
}

/// Every table that may lack a column has a name that can be asked for.
pub proof fn law_compatibility_tables_can_be_asked_for(i: int)
    requires
        0 <= i < compatibility().len(),
    ensures
        is_plain_name(compatibility()[i].table),
{
    reveal_strlit("index_runs");
    reveal_strlit("files");
    reveal_strlit("symbols");
    reveal_strlit("chunks");
    reveal_strlit("calls");
    reveal_strlit("chunk_embeddings");
    assert(is_plain_name("index_runs"@));
    assert(is_plain_name("files"@));
    assert(is_plain_name("symbols"@));
    assert(is_plain_name("chunks"@));
    assert(is_plain_name("calls"@));
    assert(is_plain_name("chunk_embeddings"@));
}

} // verus!
