//! Repositories, their refs, and the states of their files.

use vstd::prelude::*;
use crate::error::{is_fault, StoreError};
use crate::layers::{RepositoryRefKind, RepositoryRefSnapshot};
use crate::records::{
    FileIndexEventRecord, FileRecord, FileStateRecord, RepositoryRecord, RepositoryRefRecord,
    RepositoryRefSyncSummary,
};
use crate::rows::BranchRow;
use crate::sql::{
    all_of, collect_rows, flag, flag_value, optional, optional_owned_value, owned_value, rows_fault,
    script, statement, statement_of, text, text_value, values, Command, CommandView, FromRow, Row,
    Statement, StatementView, Value,
};
use crate::store::SqliteStore;
use crate::text::{contains_text, copy_optional, optional_text, texts};

verus! {

pub const UPSERT_REPOSITORY: &'static str =
    "INSERT INTO repositories (id, root_path, created_at, updated_at)
    VALUES (?1, ?2, ?3, ?3)
    ON CONFLICT(id) DO UPDATE SET
      root_path = excluded.root_path,
      updated_at = excluded.updated_at";

pub const CLEAR_CURRENT_REF: &'static str = "UPDATE repository_refs
      SET is_current = 0,
          updated_at = ?2
    WHERE repository_id = ?1";

pub const UPSERT_REPOSITORY_REF: &'static str = "INSERT INTO repository_refs (
      id, repository_id, ref_kind, ref_name, ref_identity, head_oid,
      is_current, last_seen_at, deleted_at, created_at, updated_at
    )
    VALUES (?1, ?2, ?3, ?4, ?5, ?6, ?7, ?8, ?9, ?10, ?11)
    ON CONFLICT(repository_id, ref_kind, ref_identity) DO UPDATE SET
      id = excluded.id,
      ref_name = excluded.ref_name,
      head_oid = COALESCE(excluded.head_oid, repository_refs.head_oid),
      is_current = excluded.is_current,
      last_seen_at = excluded.last_seen_at,
      deleted_at = excluded.deleted_at,
      updated_at = excluded.updated_at";

pub const KNOWN_BRANCHES: &'static str = "SELECT id, ref_name
     FROM repository_refs
    WHERE repository_id = ?1
      AND ref_kind = 'branch'
      AND deleted_at IS NULL";

pub const DELETE_REF: &'static str = "UPDATE repository_refs
      SET deleted_at = ?2,
          is_current = 0,
          updated_at = ?2
    WHERE id = ?1";

pub const CURRENT_REPOSITORY_REF: &'static str =
    "SELECT id, repository_id, ref_kind, ref_name, ref_identity, head_oid,
          is_current, last_seen_at, deleted_at, created_at, updated_at
     FROM repository_refs
    WHERE repository_id = ?1
      AND is_current = 1
      AND deleted_at IS NULL
    ORDER BY last_seen_at DESC, updated_at DESC, id DESC
    LIMIT 1";

pub const LATEST_FILE_STATE_FOR_PATH: &'static str = "SELECT path, content_hash
     FROM files
    WHERE repository_id = ?1
      AND path = ?2
    ORDER BY indexed_at DESC, index_run_id DESC, id DESC
    LIMIT 1";

pub const FILE_UNCHANGED: &'static str = "SELECT EXISTS(
      SELECT 1
        FROM files
       WHERE repository_id = ?1
         AND id = ?2
         AND path = ?3
         AND content_hash = ?4
         AND parser_version = ?5
    )";

pub const FILE_INDEX_STATES: &'static str = "SELECT path, content_hash
     FROM files
    WHERE repository_id = ?1
    ORDER BY path, indexed_at DESC, index_run_id DESC, id DESC";

pub const REF_FILE_INDEX_STATES: &'static str = "SELECT ref_files.path, files.content_hash
     FROM ref_files
     JOIN files ON files.id = ref_files.file_id
    WHERE ref_files.repository_ref_id = ?1
    ORDER BY ref_files.path";

pub const INSERT_FILE_INDEX_EVENT: &'static str = "INSERT INTO file_index_events (
      id, index_run_id, repository_id, repository_ref_id, path,
      old_content_hash, new_content_hash, action, reason, status,
      error_summary, occurred_at
    )
    VALUES (?1, ?2, ?3, ?4, ?5, ?6, ?7, ?8, ?9, ?10, ?11, ?12)";

pub const LINK_FILE_TO_REF: &'static str = "INSERT INTO ref_files (
      repository_ref_id, repository_id, path, file_id, indexed_at, index_run_id
    )
    VALUES (?1, ?2, ?3, ?4, ?5, ?6)
    ON CONFLICT(repository_ref_id, path) DO UPDATE SET
      repository_id = excluded.repository_id,
      file_id = excluded.file_id,
      indexed_at = excluded.indexed_at,
      index_run_id = excluded.index_run_id";

pub const REF_FILE_PATHS: &'static str = "SELECT path
     FROM ref_files
    WHERE repository_ref_id = ?1
    ORDER BY path";

pub const FILE_PATHS: &'static str = "SELECT DISTINCT path FROM files WHERE repository_id = ?1";

/// The reading of `upsert_repository`.
pub open spec fn upsert_repository_spec(
    repository: RepositoryRecord,
    now: Seq<char>,
) -> StatementView {
    statement_of(
        UPSERT_REPOSITORY,
        seq![
            text(repository.id@),
            text(repository.root_path@),
            text(now),
        ],
    )
}

/// The reading of `clear_current_ref`.
pub open spec fn clear_current_ref_spec(
    repository_id: Seq<char>,
    now: Seq<char>,
) -> StatementView {
    statement_of(CLEAR_CURRENT_REF, seq![text(repository_id), text(now)])
}

/// The reading of `upsert_repository_ref`.
pub open spec fn upsert_repository_ref_spec(record: RepositoryRefRecord) -> StatementView {
    statement_of(
        UPSERT_REPOSITORY_REF,
        seq![
            text(record.id@),
            text(record.repository_id@),
            text(record.ref_kind@),
            optional(optional_text(record.ref_name)),
            text(record.ref_identity@),
            optional(optional_text(record.head_oid)),
            flag(record.is_current),
            optional(optional_text(record.last_seen_at)),
            optional(optional_text(record.deleted_at)),
            optional(optional_text(record.created_at)),
            optional(optional_text(record.updated_at)),
        ],
    )
}

/// The reading of `known_branches`.
pub open spec fn known_branches_spec(repository_id: Seq<char>) -> StatementView {
    statement_of(KNOWN_BRANCHES, seq![text(repository_id)])
}

/// The reading of `delete_ref`.
pub open spec fn delete_ref_spec(id: Seq<char>, now: Seq<char>) -> StatementView {
    statement_of(DELETE_REF, seq![text(id), text(now)])
}

/// The reading of `current_repository_ref`.
pub open spec fn current_repository_ref_spec(repository_id: Seq<char>) -> StatementView {
    statement_of(CURRENT_REPOSITORY_REF, seq![text(repository_id)])
}

/// The reading of `latest_file_state_for_path`.
pub open spec fn latest_file_state_for_path_spec(
    repository_id: Seq<char>,
    path: Seq<char>,
) -> StatementView {
    statement_of(LATEST_FILE_STATE_FOR_PATH, seq![text(repository_id), text(path)])
}

/// The reading of `file_unchanged`.
pub open spec fn file_unchanged_spec(
    repository_id: Seq<char>,
    file_id: Seq<char>,
    path: Seq<char>,
    content_hash: Seq<char>,
    parser_version: Seq<char>,
) -> StatementView {
    statement_of(
        FILE_UNCHANGED,
        seq![
            text(repository_id),
            text(file_id),
            text(path),
            text(content_hash),
            text(parser_version),
        ],
    )
}

/// The reading of `file_index_states`.
pub open spec fn file_index_states_spec(repository_id: Seq<char>) -> StatementView {
    statement_of(FILE_INDEX_STATES, seq![text(repository_id)])
}

/// The reading of `ref_file_index_states`.
pub open spec fn ref_file_index_states_spec(repository_ref_id: Seq<char>) -> StatementView {
    statement_of(REF_FILE_INDEX_STATES, seq![text(repository_ref_id)])
}

/// The reading of `insert_file_index_event`.
pub open spec fn insert_file_index_event_spec(
    event: FileIndexEventRecord,
    occurred_at: Seq<char>,
) -> StatementView {
    statement_of(
        INSERT_FILE_INDEX_EVENT,
        seq![
            text(event.id@),
            text(event.index_run_id@),
            text(event.repository_id@),
            optional(optional_text(event.repository_ref_id)),
            text(event.path@),
            optional(optional_text(event.old_content_hash)),
            optional(optional_text(event.new_content_hash)),
            text(event.action@),
            text(event.reason@),
            text(event.status@),
            optional(optional_text(event.error_summary)),
            text(occurred_at),
        ],
    )
}

/// The reading of `link_file_to_ref`.
pub open spec fn link_file_to_ref_spec(
    repository_ref_id: Seq<char>,
    file: FileRecord,
    indexed_at: Seq<char>,
) -> StatementView {
    statement_of(
        LINK_FILE_TO_REF,
        seq![
            text(repository_ref_id),
            text(file.repository_id@),
            text(file.path@),
            text(file.id@),
            text(indexed_at),
            text(file.index_run_id@),
        ],
    )
}

/// The reading of `ref_file_paths`.
pub open spec fn ref_file_paths_spec(repository_ref_id: Seq<char>) -> StatementView {
    statement_of(REF_FILE_PATHS, seq![text(repository_ref_id)])
}

/// The reading of `file_paths`.
pub open spec fn file_paths_spec(repository_id: Seq<char>) -> StatementView {
    statement_of(FILE_PATHS, seq![text(repository_id)])
}

impl SqliteStore {
    /// Stores a repository, or updates its root.
    pub fn upsert_repository(repository: &RepositoryRecord, now: &str) -> (r: Statement)
        ensures
            r@ == upsert_repository_spec(*repository, now@),
    {
        let params = vec![
            owned_value(&repository.id),
            owned_value(&repository.root_path),
            text_value(now),
        ];
        proof {
            assert(values(params@) =~= upsert_repository_spec(*repository, now@).params);
        }
        statement(UPSERT_REPOSITORY, params)
    }

    /// Makes no ref of a repository the current one.
    pub fn clear_current_ref(repository_id: &str, now: &str) -> (r: Statement)
        ensures
            r@ == clear_current_ref_spec(repository_id@, now@),
    {
        let params = vec![text_value(repository_id), text_value(now)];
        proof {
            assert(values(params@) =~= clear_current_ref_spec(repository_id@, now@).params);
        }
        statement(CLEAR_CURRENT_REF, params)
    }

    /// Stores a ref, or updates it.
    pub fn upsert_repository_ref(record: &RepositoryRefRecord) -> (r: Statement)
        ensures
            r@ == upsert_repository_ref_spec(*record),
    {
        let params = vec![
            owned_value(&record.id),
            owned_value(&record.repository_id),
            owned_value(&record.ref_kind),
            optional_owned_value(&record.ref_name),
            owned_value(&record.ref_identity),
            optional_owned_value(&record.head_oid),
            flag_value(record.is_current),
            optional_owned_value(&record.last_seen_at),
            optional_owned_value(&record.deleted_at),
            optional_owned_value(&record.created_at),
            optional_owned_value(&record.updated_at),
        ];
        proof {
            assert(values(params@) =~= upsert_repository_ref_spec(*record).params);
        }
        statement(UPSERT_REPOSITORY_REF, params)
    }

    /// The branches of a repository that are not deleted. Read as `BranchRow`s.
    pub fn known_branches(repository_id: &str) -> (r: Statement)
        ensures
            r@ == known_branches_spec(repository_id@),
    {
        let params = vec![text_value(repository_id)];
        proof {
            assert(values(params@) =~= known_branches_spec(repository_id@).params);
        }
        statement(KNOWN_BRANCHES, params)
    }

    /// Marks a ref as deleted.
    pub fn delete_ref(id: &str, now: &str) -> (r: Statement)
        ensures
            r@ == delete_ref_spec(id@, now@),
    {
        let params = vec![text_value(id), text_value(now)];
        proof {
            assert(values(params@) =~= delete_ref_spec(id@, now@).params);
        }
        statement(DELETE_REF, params)
    }

    /// The current ref of a repository. Read as a `RepositoryRefRecord`.
    pub fn current_repository_ref(repository_id: &str) -> (r: Statement)
        ensures
            r@ == current_repository_ref_spec(repository_id@),
    {
        let params = vec![text_value(repository_id)];
        proof {
            assert(values(params@) =~= current_repository_ref_spec(repository_id@).params);
        }
        statement(CURRENT_REPOSITORY_REF, params)
    }

    /// The latest state of a path. Read as a `FileStateRecord`.
    pub fn latest_file_state_for_path(repository_id: &str, path: &str) -> (r: Statement)
        ensures
            r@ == latest_file_state_for_path_spec(repository_id@, path@),
    {
        let params = vec![text_value(repository_id), text_value(path)];
        proof {
            assert(values(params@) =~= latest_file_state_for_path_spec(
                repository_id@,
                path@,
            ).params);
        }
        statement(LATEST_FILE_STATE_FOR_PATH, params)
    }

    /// Whether a file is indexed with the given content and parser. The rows go to `true_row`.
    pub fn file_unchanged(
        repository_id: &str,
        file_id: &str,
        path: &str,
        content_hash: &str,
        parser_version: &str,
    ) -> (r: Statement)
        ensures
            r@ == file_unchanged_spec(
                repository_id@,
                file_id@,
                path@,
                content_hash@,
                parser_version@,
            ),
    {
        let params = vec![
            text_value(repository_id),
            text_value(file_id),
            text_value(path),
            text_value(content_hash),
            text_value(parser_version),
        ];
        proof {
            assert(values(params@) =~= file_unchanged_spec(
                repository_id@,
                file_id@,
                path@,
                content_hash@,
                parser_version@,
            ).params);
        }
        statement(FILE_UNCHANGED, params)
    }

    /// The states of all files, for each path the latest first. The rows go to
    /// `latest_file_states`.
    pub fn file_index_states(repository_id: &str) -> (r: Statement)
        ensures
            r@ == file_index_states_spec(repository_id@),
    {
        let params = vec![text_value(repository_id)];
        proof {
            assert(values(params@) =~= file_index_states_spec(repository_id@).params);
        }
        statement(FILE_INDEX_STATES, params)
    }

    /// The states of the files of a ref. Read as `FileStateRecord`s.
    pub fn ref_file_index_states(repository_ref_id: &str) -> (r: Statement)
        ensures
            r@ == ref_file_index_states_spec(repository_ref_id@),
    {
        let params = vec![text_value(repository_ref_id)];
        proof {
            assert(values(params@) =~= ref_file_index_states_spec(repository_ref_id@).params);
        }
        statement(REF_FILE_INDEX_STATES, params)
    }

    /// Records what a run did with one file.
    pub fn insert_file_index_event(
        event: &FileIndexEventRecord,
        occurred_at: &str,
    ) -> (r: Statement)
        ensures
            r@ == insert_file_index_event_spec(*event, occurred_at@),
    {
        let params = vec![
            owned_value(&event.id),
            owned_value(&event.index_run_id),
            owned_value(&event.repository_id),
            optional_owned_value(&event.repository_ref_id),
            owned_value(&event.path),
            optional_owned_value(&event.old_content_hash),
            optional_owned_value(&event.new_content_hash),
            owned_value(&event.action),
            owned_value(&event.reason),
            owned_value(&event.status),
            optional_owned_value(&event.error_summary),
            text_value(occurred_at),
        ];
        proof {
            assert(values(params@) =~= insert_file_index_event_spec(*event, occurred_at@).params);
        }
        statement(INSERT_FILE_INDEX_EVENT, params)
    }

    /// Makes a file the one that a ref holds at its path.
    pub fn link_file_to_ref(
        repository_ref_id: &str,
        file: &FileRecord,
        indexed_at: &str,
    ) -> (r: Statement)
        ensures
            r@ == link_file_to_ref_spec(repository_ref_id@, *file, indexed_at@),
    {
        let params = vec![
            text_value(repository_ref_id),
            owned_value(&file.repository_id),
            owned_value(&file.path),
            owned_value(&file.id),
            text_value(indexed_at),
            owned_value(&file.index_run_id),
        ];
        proof {
            assert(values(params@) =~= link_file_to_ref_spec(
                repository_ref_id@,
                *file,
                indexed_at@,
            ).params);
        }
        statement(LINK_FILE_TO_REF, params)
    }

    /// The paths of a ref. Read as `String`s.
    pub fn ref_file_paths(repository_ref_id: &str) -> (r: Statement)
        ensures
            r@ == ref_file_paths_spec(repository_ref_id@),
    {
        let params = vec![text_value(repository_ref_id)];
        proof {
            assert(values(params@) =~= ref_file_paths_spec(repository_ref_id@).params);
        }
        statement(REF_FILE_PATHS, params)
    }

    /// The paths of a repository. Read as `String`s.
    pub fn file_paths(repository_id: &str) -> (r: Statement)
        ensures
            r@ == file_paths_spec(repository_id@),
    {
        let params = vec![text_value(repository_id)];
        proof {
            assert(values(params@) =~= file_paths_spec(repository_id@).params);
        }
        statement(FILE_PATHS, params)
    }
}

/// What identifies a ref among those of its kind.
pub open spec fn identity_of(
    kind: RepositoryRefKind,
    ref_name: Option<Seq<char>>,
    head_oid: Option<Seq<char>>,
) -> Seq<char> {
    match kind {
        RepositoryRefKind::Branch | RepositoryRefKind::Other => match ref_name {
            Some(name) => name,
            None => "unknown"@,
        },
        RepositoryRefKind::Detached => match head_oid {
            Some(oid) => oid,
            None => "unknown"@,
        },
        RepositoryRefKind::NonGit => "working-tree"@,
    }
}

pub fn ref_identity(
    kind: RepositoryRefKind,
    ref_name: &Option<String>,
    head_oid: &Option<String>,
) -> (r: String)
    ensures
        r@ == identity_of(kind, optional_text(*ref_name), optional_text(*head_oid)),
{
    match kind {
        RepositoryRefKind::Branch | RepositoryRefKind::Other => match ref_name {
            Some(name) => name.clone(),
            None => "unknown".to_owned(),
        },
        RepositoryRefKind::Detached => match head_oid {
            Some(oid) => oid.clone(),
            None => "unknown".to_owned(),
        },
        RepositoryRefKind::NonGit => "working-tree".to_owned(),
    }
}

/// `record` is what a snapshot says about its ref, seen at `timestamp`.
pub open spec fn is_snapshot_record(
    record: RepositoryRefRecord,
    snapshot: RepositoryRefSnapshot,
    is_current: bool,
    timestamp: Seq<char>,
) -> bool {
    &&& record.id == snapshot.id
    &&& record.repository_id == snapshot.repository_id
    &&& record.ref_kind@ == snapshot.kind.text()
    &&& record.ref_name == snapshot.name
    &&& record.ref_identity@ == identity_of(
        snapshot.kind,
        optional_text(snapshot.name),
        optional_text(snapshot.head_oid),
    )
    &&& record.head_oid == snapshot.head_oid
    &&& record.is_current == is_current
    &&& optional_text(record.last_seen_at) == Some(timestamp)
    &&& record.deleted_at is None
    &&& optional_text(record.created_at) == Some(timestamp)
    &&& optional_text(record.updated_at) == Some(timestamp)
}

/// `record` is a local branch that is not checked out, seen at `timestamp`.
pub open spec fn is_branch_record(
    record: RepositoryRefRecord,
    id: Seq<char>,
    repository_id: Seq<char>,
    branch: Seq<char>,
    timestamp: Seq<char>,
) -> bool {
    &&& record.id@ == id
    &&& record.repository_id@ == repository_id
    &&& record.ref_kind@ == RepositoryRefKind::Branch.text()
    &&& optional_text(record.ref_name) == Some(branch)
    &&& record.ref_identity@ == branch
    &&& record.head_oid is None
    &&& !record.is_current
    &&& optional_text(record.last_seen_at) == Some(timestamp)
    &&& record.deleted_at is None
    &&& optional_text(record.created_at) == Some(timestamp)
    &&& optional_text(record.updated_at) == Some(timestamp)
}

impl RepositoryRefRecord {
    pub fn from_snapshot(
        snapshot: &RepositoryRefSnapshot,
        is_current: bool,
        timestamp: &str,
    ) -> (r: Self)
        ensures
            is_snapshot_record(r, *snapshot, is_current, timestamp@),
    {
        RepositoryRefRecord {
            id: snapshot.id.clone(),
            repository_id: snapshot.repository_id.clone(),
            ref_kind: snapshot.kind.as_str().to_owned(),
            ref_name: copy_optional(&snapshot.name),
            ref_identity: ref_identity(snapshot.kind, &snapshot.name, &snapshot.head_oid),
            head_oid: copy_optional(&snapshot.head_oid),
            is_current,
            last_seen_at: Some(timestamp.to_owned()),
            deleted_at: None,
            created_at: Some(timestamp.to_owned()),
            updated_at: Some(timestamp.to_owned()),
        }
    }

    /// The strings that the id of a local branch is made of.
    pub fn local_branch_id_parts(repository_id: &str, branch: &str) -> (r: Vec<String>)
        ensures
            texts(r@) == seq![
                "repository-ref"@,
                repository_id@,
                RepositoryRefKind::Branch.text(),
                branch@,
            ],
    {
        let parts = vec![
            "repository-ref".to_owned(),
            repository_id.to_owned(),
            RepositoryRefKind::Branch.as_str().to_owned(),
            branch.to_owned(),
        ];
        proof {
            assert(texts(parts@) =~= seq![
                "repository-ref"@,
                repository_id@,
                RepositoryRefKind::Branch.text(),
                branch@,
            ]);
        }
        parts
    }

    /// A local branch. `id` is the stable id of the parts that `local_branch_id_parts` gives.
    pub fn local_branch(id: &str, repository_id: &str, branch: &str, timestamp: &str) -> (r: Self)
        ensures
            is_branch_record(r, id@, repository_id@, branch@, timestamp@),
    {
        RepositoryRefRecord {
            id: id.to_owned(),
            repository_id: repository_id.to_owned(),
            ref_kind: RepositoryRefKind::Branch.as_str().to_owned(),
            ref_name: Some(branch.to_owned()),
            ref_identity: branch.to_owned(),
            head_oid: None,
            is_current: false,
            last_seen_at: Some(timestamp.to_owned()),
            deleted_at: None,
            created_at: Some(timestamp.to_owned()),
            updated_at: Some(timestamp.to_owned()),
        }
    }
}

/// The statement that stores a local branch.
pub open spec fn upsert_branch_spec(
    id: Seq<char>,
    repository_id: Seq<char>,
    branch: Seq<char>,
    now: Seq<char>,
) -> StatementView {
    statement_of(
        UPSERT_REPOSITORY_REF,
        seq![
            text(id),
            text(repository_id),
            text(RepositoryRefKind::Branch.text()),
            text(branch),
            text(branch),
            Value::Null,
            flag(false),
            text(now),
            Value::Null,
            text(now),
            text(now),
        ],
    )
}

/// The statement that stores the current ref.
pub open spec fn upsert_current_spec(
    snapshot: RepositoryRefSnapshot,
    now: Seq<char>,
) -> StatementView {
    statement_of(
        UPSERT_REPOSITORY_REF,
        seq![
            text(snapshot.id@),
            text(snapshot.repository_id@),
            text(snapshot.kind.text()),
            optional(optional_text(snapshot.name)),
            text(
                identity_of(
                    snapshot.kind,
                    optional_text(snapshot.name),
                    optional_text(snapshot.head_oid),
                ),
            ),
            optional(optional_text(snapshot.head_oid)),
            flag(true),
            text(now),
            Value::Null,
            text(now),
            text(now),
        ],
    )
}

/// The commands that store the local branches.
pub open spec fn branch_upserts(
    snapshot: RepositoryRefSnapshot,
    branch_ids: Seq<String>,
    now: Seq<char>,
) -> Seq<CommandView> {
    Seq::new(
        snapshot.local_branches@.len(),
        |i: int|
            CommandView::Execute(
                upsert_branch_spec(
                    branch_ids[i]@,
                    snapshot.repository_id@,
                    snapshot.local_branches@[i]@,
                    now,
                ),
            ),
    )
}

/// The first commands of a sync: no ref is current, then every local branch is stored, then the
/// current ref; and where there are local branches, the question for the known ones.
pub open spec fn sync_script(
    snapshot: RepositoryRefSnapshot,
    branch_ids: Seq<String>,
    now: Seq<char>,
) -> Seq<CommandView> {
    let start = seq![
        CommandView::Begin,
        CommandView::Execute(clear_current_ref_spec(snapshot.repository_id@, now)),
    ];
    let branches = branch_upserts(snapshot, branch_ids, now);
    let current = seq![CommandView::Execute(upsert_current_spec(snapshot, now))];
    let question = if snapshot.local_branches@.len() > 0 {
        seq![CommandView::Query(known_branches_spec(snapshot.repository_id@))]
    } else {
        Seq::empty()
    };
    start + branches + current + question
}

/// A branch that the database knows and the working copy has no more.
pub open spec fn is_gone(row: BranchRow, branches: Seq<Seq<char>>) -> bool {
    optional_text(row.ref_name) matches Some(name) && !branches.contains(name)
}

/// The branches that are gone, in the order in which the database returned them.
pub open spec fn gone_branches(rows: Seq<BranchRow>, branches: Seq<Seq<char>>) -> Seq<BranchRow> {
    rows.filter(|row: BranchRow| is_gone(row, branches))
}

/// The commands that mark branches as deleted.
pub open spec fn branch_deletes(gone: Seq<BranchRow>, now: Seq<char>) -> Seq<CommandView> {
    Seq::new(gone.len(), |i: int| CommandView::Execute(delete_ref_spec(gone[i].id@, now)))
}

/// The last commands of a sync: the branches that are gone are marked as deleted.
pub open spec fn finish_sync_script(gone: Seq<BranchRow>, now: Seq<char>) -> Seq<CommandView> {
    branch_deletes(gone, now).push(CommandView::Commit)
}

impl SqliteStore {
    /// The first commands of a sync with what a working copy says. `branch_ids` holds the ids of
    /// the local branches in order; each is the stable id of the parts that
    /// `RepositoryRefRecord::local_branch_id_parts` gives. The rows of the last command, if it is
    /// a query, go to `finish_repository_ref_sync`.
    pub fn sync_repository_ref(
        snapshot: &RepositoryRefSnapshot,
        branch_ids: &Vec<String>,
        now: &str,
    ) -> (r: Vec<Command>)
        requires
            branch_ids@.len() == snapshot.local_branches@.len(),
        ensures
            script(r@) == sync_script(*snapshot, branch_ids@, now@),
    {
        let mut commands: Vec<Command> = Vec::new();
        let repository_id = snapshot.repository_id.as_str();
        commands.push(Command::Begin);
        commands.push(Command::Execute(SqliteStore::clear_current_ref(repository_id, now)));
        let ghost start = seq![
            CommandView::Begin,
            CommandView::Execute(clear_current_ref_spec(snapshot.repository_id@, now@)),
        ];
        let ghost branches = branch_upserts(*snapshot, branch_ids@, now@);
        proof {
            assert(script(commands@) =~= start + branches.take(0));
        }
        for i in 0..snapshot.local_branches.len()
            invariant
                branch_ids@.len() == snapshot.local_branches@.len(),
                repository_id@ == snapshot.repository_id@,
                branches == branch_upserts(*snapshot, branch_ids@, now@),
                script(commands@) == start + branches.take(i as int),
        {
            let ghost before = script(commands@);
            let record = RepositoryRefRecord::local_branch(
                branch_ids[i].as_str(),
                repository_id,
                snapshot.local_branches[i].as_str(),
                now,
            );
            let store = SqliteStore::upsert_repository_ref(&record);
            proof {
                assert(store@.params =~= upsert_branch_spec(
                    branch_ids@[i as int]@,
                    snapshot.repository_id@,
                    snapshot.local_branches@[i as int]@,
                    now@,
                ).params);
            }
            commands.push(Command::Execute(store));
            proof {
                assert(script(commands@) =~= before.push(branches[i as int]));
                assert(start + branches.take(i + 1) =~= before.push(branches[i as int]));
            }
        }
        let current = RepositoryRefRecord::from_snapshot(snapshot, true, now);
        let store = SqliteStore::upsert_repository_ref(&current);
        proof {
            assert(store@.params =~= upsert_current_spec(*snapshot, now@).params);
        }
        commands.push(Command::Execute(store));
        if snapshot.local_branches.len() > 0 {
            commands.push(Command::Query(SqliteStore::known_branches(repository_id)));
        }
        proof {
            assert(branches.take(snapshot.local_branches@.len() as int) =~= branches);
            assert(script(commands@) =~= sync_script(*snapshot, branch_ids@, now@));
        }
        commands
    }

    /// The last commands of a sync, from the rows of the known branches; the rows that the delete
    /// statements change are the deleted refs.
    pub fn finish_repository_ref_sync(
        snapshot: &RepositoryRefSnapshot,
        rows: &Vec<Row>,
        now: &str,
    ) -> (r: Result<Vec<Command>, StoreError>)
        ensures
            match rows_fault::<BranchRow>(rows@) {
                Some(fault) => r matches Err(e) && is_fault(e, fault),
                None => r matches Ok(commands) && script(commands@) == finish_sync_script(
                    gone_branches(all_of::<BranchRow>(rows@), texts(snapshot.local_branches@)),
                    now@,
                ),
            },
    {
        let known: Vec<BranchRow> = match collect_rows(rows) {
            Ok(known) => known,
            Err(error) => {
                return Err(error);
            },
        };
        let ghost branches = texts(snapshot.local_branches@);
        let mut commands: Vec<Command> = Vec::new();
        proof {
            reveal(Seq::filter);
            assert(script(commands@) =~= branch_deletes(
                gone_branches(known@.take(0), branches),
                now@,
            ));
        }
        for i in 0..known.len()
            invariant
                branches == texts(snapshot.local_branches@),
                script(commands@) == branch_deletes(
                    gone_branches(known@.take(i as int), branches),
                    now@,
                ),
        {
            let ghost before = script(commands@);
            let ghost gone = gone_branches(known@.take(i as int), branches);
            proof {
                reveal(Seq::filter);
                assert(known@.take(i + 1).drop_last() =~= known@.take(i as int));
                assert(known@.take(i + 1).last() == known@[i as int]);
            }
            if let Some(name) = &known[i].ref_name {
                if !contains_text(&snapshot.local_branches, name.as_str()) {
                    commands.push(
                        Command::Execute(SqliteStore::delete_ref(known[i].id.as_str(), now)),
                    );
                    proof {
                        assert(script(commands@) =~= before.push(
                            CommandView::Execute(delete_ref_spec(known@[i as int].id@, now@)),
                        ));
                        assert(script(commands@) =~= branch_deletes(
                            gone.push(known@[i as int]),
                            now@,
                        ));
                    }
                }
            }
        }
        commands.push(Command::Commit);
        proof {
            assert(known@.take(known@.len() as int) =~= known@);
            assert(script(commands@) =~= finish_sync_script(
                gone_branches(known@, branches),
                now@,
            ));
        }
        Ok(commands)
    }

    /// What a sync did.
    pub fn repository_ref_sync_summary(
        snapshot: &RepositoryRefSnapshot,
        deleted_refs: usize,
        now: &str,
    ) -> (r: RepositoryRefSyncSummary)
        ensures
            is_snapshot_record(r.current, *snapshot, true, now@),
            r.deleted_refs == deleted_refs,
    {
        RepositoryRefSyncSummary {
            current: RepositoryRefRecord::from_snapshot(snapshot, true, now),
            deleted_refs,
        }
    }

    /// The commands that record what a run did with files, in one transaction; none where there
    /// is nothing to record.
    pub fn record_file_index_events(events: &Vec<FileIndexEventRecord>, occurred_at: &str) -> (r:
        Vec<Command>)
        ensures
            script(r@) == events_script(events@, occurred_at@),
    {
        let mut commands: Vec<Command> = Vec::new();
        if events.len() == 0 {
            proof {
                assert(script(commands@) =~= events_script(events@, occurred_at@));
            }
            return commands;
        }
        commands.push(Command::Begin);
        let ghost inserts = event_inserts(events@, occurred_at@);
        proof {
            assert(script(commands@) =~= seq![CommandView::Begin] + inserts.take(0));
        }
        for i in 0..events.len()
            invariant
                inserts == event_inserts(events@, occurred_at@),
                script(commands@) == seq![CommandView::Begin] + inserts.take(i as int),
        {
            let ghost before = script(commands@);
            commands.push(
                Command::Execute(SqliteStore::insert_file_index_event(&events[i], occurred_at)),
            );
            proof {
                assert(script(commands@) =~= before.push(inserts[i as int]));
                assert(seq![CommandView::Begin] + inserts.take(i + 1) =~= before.push(
                    inserts[i as int],
                ));
            }
        }
        commands.push(Command::Commit);
        proof {
            assert(inserts.take(events@.len() as int) =~= inserts);
            assert(script(commands@) =~= events_script(events@, occurred_at@));
        }
        commands
    }
}

pub open spec fn event_inserts(
    events: Seq<FileIndexEventRecord>,
    occurred_at: Seq<char>,
) -> Seq<CommandView> {
    Seq::new(
        events.len(),
        |i: int| CommandView::Execute(insert_file_index_event_spec(events[i], occurred_at)),
    )
}

/// The commands that record events.
pub open spec fn events_script(
    events: Seq<FileIndexEventRecord>,
    occurred_at: Seq<char>,
) -> Seq<CommandView> {
    if events.len() == 0 {
        Seq::empty()
    } else {
        seq![CommandView::Begin] + event_inserts(events, occurred_at) + seq![CommandView::Commit]
    }
}

/// A known branch is deleted by a sync exactly when it has a name and the working copy has no
/// branch of that name.
pub proof fn law_sync_deletes_exactly_the_gone_branches(
    rows: Seq<BranchRow>,
    branches: Seq<Seq<char>>,
    row: BranchRow,
)
    ensures
        gone_branches(rows, branches).contains(row) <==> rows.contains(row) && is_gone(
            row,
            branches,
        ),
    decreases rows.len(),
{
    reveal(Seq::filter);
    let gone = gone_branches(rows, branches);
    if rows.len() > 0 {
        let front = rows.drop_last();
        let before = gone_branches(front, branches);
        law_sync_deletes_exactly_the_gone_branches(front, branches, row);
        assert(rows =~= front.push(rows.last()));
        assert(rows.contains(row) <==> front.contains(row) || row == rows.last()) by {
            crate::text::lemma_insert_members(front, front.len() as int, rows.last());
            assert(front.insert(front.len() as int, rows.last()) =~= rows);
        }
        if is_gone(rows.last(), branches) {
            crate::text::lemma_insert_members(before, before.len() as int, rows.last());
            assert(before.insert(before.len() as int, rows.last()) =~= gone);
        }
    }
}

/// The first state of each path: a state is kept when no earlier one has its path.
pub open spec fn first_per_path(states: Seq<FileStateRecord>) -> Seq<FileStateRecord>
    decreases states.len(),
{
    if states.len() == 0 {
        Seq::empty()
    } else {
        let kept = first_per_path(states.drop_last());
        if has_path(kept, states.last().path@) {
            kept
        } else {
            kept.push(states.last())
        }
    }
}

/// Whether one of the states is of the path.
pub open spec fn has_path(states: Seq<FileStateRecord>, path: Seq<char>) -> bool {
    exists|i: int| 0 <= i < states.len() && (#[trigger] states[i]).path@ == path
}

/// Keeps the first state of each path. The rows of `SqliteStore::file_index_states` hold the
/// latest state of a path first.
pub fn latest_file_states(states: Vec<FileStateRecord>) -> (r: Vec<FileStateRecord>)
    ensures
        r@ == first_per_path(states@),
{
    let mut latest: Vec<FileStateRecord> = Vec::new();
    for state in it: states
        invariant
            it.seq() == states@,
            latest@ == first_per_path(states@.take(it.index() as int)),
    {
        proof {
            let n = it.index() as int;
            assert(states@.take(n + 1).drop_last() =~= states@.take(n));
            assert(states@.take(n + 1).last() == state);
        }
        let mut seen = false;
        let mut k: usize = 0;
        while k < latest.len()
            invariant
                k <= latest.len(),
                seen == exists|i: int|
                    0 <= i < k && (#[trigger] latest@[i]).path@ == state.path@,
            decreases latest.len() - k,
        {
            if latest[k].path == state.path {
                seen = true;
            }
            k = k + 1;
        }
        if !seen {
            latest.push(state);
        }
    }
    proof {
        assert(states@.take(states@.len() as int) =~= states@);
    }
    latest
}

/// No path is kept twice.
pub proof fn law_one_state_per_path(states: Seq<FileStateRecord>)
    ensures
        forall|i: int, j: int|
            0 <= i < j < first_per_path(states).len() ==> (#[trigger] first_per_path(
                states,
            )[i]).path@ != (#[trigger] first_per_path(states)[j]).path@,
    decreases states.len(),
{
    if states.len() > 0 {
        law_one_state_per_path(states.drop_last());
        let kept = first_per_path(states.drop_last());
        let now = first_per_path(states);
        assert forall|i: int, j: int| 0 <= i < j < now.len() implies (#[trigger] now[i]).path@ != (
        #[trigger] now[j]).path@ by {
            assert(now[i] == kept[i]);
            if j < kept.len() {
                assert(now[j] == kept[j]);
            }
        }
    }
}

/// Every path is kept, with its first state.
pub proof fn law_every_path_is_kept(states: Seq<FileStateRecord>, k: int)
    requires
        0 <= k < states.len(),
        !has_path(states.take(k), states[k].path@),
    ensures
        first_per_path(states).contains(states[k]),
    decreases states.len(),
{
    let front = states.drop_last();
    let kept = first_per_path(front);
    let now = first_per_path(states);
    if k < front.len() {
        assert(states.take(k) =~= front.take(k));
        law_every_path_is_kept(front, k);
        let i = choose|i: int| 0 <= i < kept.len() && kept[i] == states[k];
        assert(now[i] == states[k]);
    } else {
        assert(states.take(k) =~= front);
        if has_path(kept, states[k].path@) {
            lemma_kept_paths_come_from_states(front, states[k].path@);
        }
        assert(now[kept.len() as int] == states[k]);
    }
}

proof fn lemma_kept_paths_come_from_states(states: Seq<FileStateRecord>, path: Seq<char>)
    requires
        has_path(first_per_path(states), path),
    ensures
        has_path(states, path),
    decreases states.len(),
{
    if states.len() > 0 {
        let front = states.drop_last();
        let kept = first_per_path(front);
        let now = first_per_path(states);
        let i = choose|i: int| 0 <= i < now.len() && (#[trigger] now[i]).path@ == path;
        if i < kept.len() {
            assert(kept[i].path@ == path);
            lemma_kept_paths_come_from_states(front, path);
            let j = choose|j: int| 0 <= j < front.len() && (#[trigger] front[j]).path@ == path;
            assert(states[j].path@ == path);
        } else {
            assert(states[states.len() - 1].path@ == path);
        }
    }
}

} // verus!
