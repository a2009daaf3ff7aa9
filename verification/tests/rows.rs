//! What a read gives back of a write, and what is stored as a whole.

use symdex_store::error::{BadColumn, StoreError, ValueType};
use symdex_store::facts::{missing_paths, unreferenced_files};
use symdex_store::layers::{RepositoryRefKind, RepositoryRefSnapshot};
use symdex_store::numbers::real_of;
use symdex_store::records::{
    CallPathEdge, CallRecord, ChunkEmbeddingRecord, ChunkRecord, EmbeddingIndexMetadata,
    EvidenceProvenance, ExpectedVectorPoint, FileFreshnessSnapshot, FileIndexEventRecord,
    FileRecord, FileStateRecord, IndexRunRecord, IndexRunTimelineRow, QualityEmbeddingJobRecord,
    RepositoryRefRecord, SemanticGenerationRecord, SymbolRecord, SymbolSearchRow, TestRecord,
    TestSearchRow, WatcherClientRecord, WatcherStatusRecord,
};
use symdex_store::rows::SymbolOutlineBaseRow;
use symdex_store::sql::{
    collect_rows, first_row, only_row, Command, FromRow, Real, SqlValue, Statement,
};
use symdex_store::store::SqliteStore;

fn text(value: &str) -> SqlValue {
    SqlValue::Text(value.to_owned())
}

/// The row that holds the stored values at the given places.
fn picked(stored: &[SqlValue], places: &[usize]) -> Vec<SqlValue> {
    places.iter().map(|place| stored[*place].clone()).collect()
}

fn read<T: FromRow>(row: Vec<SqlValue>) -> T {
    only_row(&vec![row]).expect("row should be read")
}

fn file() -> FileRecord {
    FileRecord {
        id: "file-1".to_owned(),
        repository_id: "repo-1".to_owned(),
        path: "src/lib.rs".to_owned(),
        language: "rust".to_owned(),
        content_hash: "hash-1".to_owned(),
        index_run_id: "run-1".to_owned(),
        parser_version: "parser-1".to_owned(),
    }
}

fn symbol(id: &str) -> SymbolRecord {
    SymbolRecord {
        id: id.to_owned(),
        file_id: "file-1".to_owned(),
        parent_symbol_id: Some("parent".to_owned()),
        name: format!("name_{id}"),
        qualified_name: format!("crate::{id}"),
        kind: "function".to_owned(),
        signature: None,
        start_line: 3,
        end_line: 9,
        start_byte: 10,
        end_byte: usize::MAX,
        index_run_id: "run-1".to_owned(),
        parser_version: "parser-1".to_owned(),
    }
}

fn call() -> CallRecord {
    CallRecord {
        id: "call-1".to_owned(),
        caller_symbol_id: "a".to_owned(),
        callee_text: "b()".to_owned(),
        callee_symbol_id: Some("b".to_owned()),
        call_line: 5,
        confidence: Real { bits: 0.75_f64.to_bits() },
        resolution_status: "resolved".to_owned(),
        index_run_id: "run-2".to_owned(),
        parser_version: "parser-2".to_owned(),
    }
}

fn test_record() -> TestRecord {
    TestRecord {
        id: "test-1".to_owned(),
        repository_id: "repo-1".to_owned(),
        file_id: "file-1".to_owned(),
        symbol_id: None,
        name: "works".to_owned(),
        qualified_name: "tests::works".to_owned(),
        framework: "rust".to_owned(),
        language: "rust".to_owned(),
        path: "src/lib.rs".to_owned(),
        start_line: 1,
        end_line: 2,
        start_byte: 3,
        end_byte: 4,
        index_run_id: "run-1".to_owned(),
        parser_version: "parser-1".to_owned(),
    }
}

fn chunk() -> ChunkRecord {
    ChunkRecord {
        id: "chunk-1".to_owned(),
        file_id: "file-1".to_owned(),
        symbol_id: None,
        kind: "function".to_owned(),
        text_hash: "text-1".to_owned(),
        start_line: 7,
        end_line: 8,
        start_byte: 9,
        end_byte: 10,
        vector_point_id: None,
        excluded_reason: None,
        index_run_id: "run-1".to_owned(),
        parser_version: "parser-1".to_owned(),
        embedding_model: None,
        embedding_dimension: None,
        embedded_at: None,
    }
}

fn run() -> IndexRunRecord {
    IndexRunRecord {
        id: "run-1".to_owned(),
        repository_id: "repo-1".to_owned(),
        repository_ref_id: Some("ref-1".to_owned()),
        status: "success".to_owned(),
        embedding_model: "model".to_owned(),
        embedding_dimension: Some(384),
        files_seen: 3,
        files_indexed: 2,
        chunks_embedded: 5,
        error_summary: None,
        parser_version: "parser-1".to_owned(),
        indexer_version: "indexer-1".to_owned(),
        run_kind: "manual".to_owned(),
    }
}

#[test]
fn refs_are_read_back() {
    let record = RepositoryRefRecord {
        id: "ref-1".to_owned(),
        repository_id: "repo-1".to_owned(),
        ref_kind: "branch".to_owned(),
        ref_name: Some("main".to_owned()),
        ref_identity: "main".to_owned(),
        head_oid: None,
        is_current: true,
        last_seen_at: Some("1".to_owned()),
        deleted_at: None,
        created_at: Some("2".to_owned()),
        updated_at: Some("3".to_owned()),
    };
    let stored = SqliteStore::upsert_repository_ref(&record);
    assert_eq!(read::<RepositoryRefRecord>(stored.params), record);
}

#[test]
fn watchers_are_read_back() {
    let status = WatcherStatusRecord {
        repository_id: "repo-1".to_owned(),
        root_path: "/work".to_owned(),
        mode: "daemon".to_owned(),
        owner_kind: "cli".to_owned(),
        owner_pid: Some(-7),
        socket_path: None,
        state: "running".to_owned(),
        started_at: None,
        updated_at: Some("ignored".to_owned()),
        heartbeat_at: Some("5".to_owned()),
        files_seen: 1,
        queued_events: 2,
        last_indexed_path: Some("src/lib.rs".to_owned()),
        last_error: None,
        active_layer: None,
        quality_status: Some("quality_pending".to_owned()),
        quality_pending_jobs: 3,
        quality_running_jobs: 4,
        quality_failed_jobs: 5,
        quality_stale_jobs: 6,
    };
    let stored = SqliteStore::upsert_watcher_status(&status, "9");
    let expected = WatcherStatusRecord {
        started_at: Some("9".to_owned()),
        updated_at: Some("9".to_owned()),
        ..status
    };
    assert_eq!(read::<WatcherStatusRecord>(stored.params), expected);
}

#[test]
fn watcher_clients_are_read_back() {
    let client = WatcherClientRecord {
        repository_id: "repo-1".to_owned(),
        client_id: "client-1".to_owned(),
        client_kind: "mcp".to_owned(),
        pid: None,
        started_at: Some("1".to_owned()),
        heartbeat_at: None,
        last_seen_at: None,
    };
    let stored = SqliteStore::upsert_watcher_client(&client, "9").params;
    let expected = WatcherClientRecord {
        heartbeat_at: Some("9".to_owned()),
        last_seen_at: Some("9".to_owned()),
        ..client
    };
    assert_eq!(
        read::<WatcherClientRecord>(picked(&stored, &[0, 1, 2, 3, 4, 5, 5])),
        expected
    );
}

#[test]
fn symbols_are_read_back() {
    assert_eq!(
        read::<SymbolRecord>(SqliteStore::insert_symbol(&symbol("a")).params),
        symbol("a")
    );
}

#[test]
fn symbols_are_found_with_their_files() {
    let mut stored = SqliteStore::insert_symbol(&symbol("a")).params;
    stored.extend(SqliteStore::insert_file(&file(), "9").params);
    let found: SymbolSearchRow =
        read(picked(&stored, &[0, 3, 4, 5, 15, 7, 8, 17, 11, 12, 18]));
    assert_eq!(found.qualified_name, "crate::a");
    assert_eq!(found.path, "src/lib.rs");
    assert_eq!(found.provenance.content_hash.as_deref(), Some("hash-1"));
    assert_eq!(found.provenance.indexed_at.as_deref(), Some("9"));
    assert_eq!(found.provenance.embedded_at, None);
    let outlined: SymbolOutlineBaseRow = read(picked(&stored, &[0, 2, 5, 4, 3, 7, 8, 15]));
    assert_eq!(outlined.parent_symbol_id.as_deref(), Some("parent"));
    assert_eq!((outlined.start_line, outlined.end_line), (3, 9));
}

#[test]
fn tests_are_found_as_stored() {
    let mut stored = SqliteStore::insert_test(&test_record(), "9").params;
    stored.extend(SqliteStore::insert_file(&file(), "9").params);
    let found: TestSearchRow =
        read(picked(&stored, &[0, 4, 5, 6, 7, 8, 9, 10, 20, 13, 14, 15]));
    assert_eq!(found.qualified_name, "tests::works");
    assert_eq!(found.provenance.content_hash.as_deref(), Some("hash-1"));
    assert_eq!(found.provenance.parser_version.as_deref(), Some("parser-1"));
}

#[test]
fn calls_are_found_with_their_symbols() {
    let mut stored = SqliteStore::insert_call(&call()).params;
    stored.extend(SqliteStore::insert_symbol(&symbol("a")).params);
    stored.extend(SqliteStore::insert_file(&file(), "9").params);
    stored.extend(SqliteStore::insert_symbol(&symbol("b")).params);
    stored.extend(SqliteStore::insert_file(&file(), "9").params);
    let places = [
        0, 2, 4, 5, 6, 9, 12, 13, 14, 24, 16, 17, 30, 33, 34, 35, 45, 37, 38, 26, 7, 8, 27,
    ];
    let row = picked(&stored, &places);
    let found: CallPathEdge = read(row.clone());
    assert_eq!(found.call_id, "call-1");
    assert_eq!(found.caller_symbol_qualified_name, "crate::a");
    assert_eq!(found.callee_symbol_qualified_name.as_deref(), Some("crate::b"));
    assert_eq!(found.confidence, call().confidence);
    assert_eq!(found.provenance.index_run_id.as_deref(), Some("run-2"));

    let mut bad = row;
    bad[3] = SqlValue::Null;
    assert_eq!(
        only_row::<CallPathEdge>(&vec![bad]),
        Err(StoreError::Column(BadColumn::Mistyped { index: 3, found: ValueType::Null }))
    );
}

#[test]
fn files_are_read_back() {
    let stored = SqliteStore::insert_file(&file(), "9").params;
    assert_eq!(
        read::<FileStateRecord>(picked(&stored, &[2, 4])),
        FileStateRecord {
            path: "src/lib.rs".to_owned(),
            content_hash: "hash-1".to_owned(),
        }
    );
    let provenance: EvidenceProvenance = read(picked(&stored, &[4, 6, 7, 5]));
    assert_eq!(provenance.index_run_id.as_deref(), Some("run-1"));
    assert_eq!(provenance.indexed_at.as_deref(), Some("9"));
    let snapshot: FileFreshnessSnapshot = read(picked(&stored, &[2, 4, 5, 6, 7]));
    assert_eq!(snapshot.indexed_at, "9");
}

#[test]
fn runs_are_read_back() {
    let mut stored = SqliteStore::start_index_run(&run(), "9").params;
    stored.push(SqlValue::Null);
    let started: IndexRunTimelineRow =
        read(picked(&stored, &[0, 3, 14, 4, 5, 6, 7, 8, 9, 10, 13]));
    assert_eq!(started.started_at, "9");
    assert_eq!(started.finished_at, None);
    assert_eq!(started.embedding_dimension, Some(384));
    assert_eq!(started.run_kind, "manual");

    let stored = SqliteStore::finish_index_run(&run(), "9").params;
    let finished: IndexRunTimelineRow =
        read(picked(&stored, &[0, 3, 3, 4, 5, 6, 7, 8, 9, 10, 13]));
    assert_eq!(finished.finished_at.as_deref(), Some("9"));
    assert_eq!(
        read::<EmbeddingIndexMetadata>(picked(&stored, &[5, 6, 9])),
        EmbeddingIndexMetadata {
            embedding_model: "model".to_owned(),
            embedding_dimension: Some(384),
            chunks_embedded: 5,
        }
    );
}

fn embedding() -> ChunkEmbeddingRecord {
    ChunkEmbeddingRecord {
        id: "embedding-1".to_owned(),
        repository_id: "repo-1".to_owned(),
        file_id: "file-1".to_owned(),
        chunk_id: "chunk-1".to_owned(),
        semantic_layer: "fast".to_owned(),
        embedding_model: "model".to_owned(),
        embedding_dimension: 384,
        content_hash: "hash-1".to_owned(),
        text_hash: "text-1".to_owned(),
        vector_table: "symdex_t".to_owned(),
        vector_point_id: "00000000000000ff".to_owned(),
        generation_id: "generation-1".to_owned(),
        embedded_at: "9".to_owned(),
        status: "current".to_owned(),
    }
}

#[test]
fn embeddings_are_read_back() {
    let stored = SqliteStore::upsert_chunk_embedding(&embedding(), "")
        .expect("embedding should be stored")
        .params;
    assert_eq!(stored[11], SqlValue::Integer(255));
    let mut row = stored.clone();
    row.remove(11);
    assert_eq!(read::<ChunkEmbeddingRecord>(row), embedding());

    let mut joined = stored;
    joined.extend(SqliteStore::insert_chunk(&chunk()).params);
    joined.extend(SqliteStore::insert_file(&file(), "9").params);
    let expected: ExpectedVectorPoint = read(picked(&joined, &[10, 15, 33, 20, 21, 8, 5, 6]));
    assert_eq!(expected.vector_point_id, "00000000000000ff");
    assert_eq!(expected.path, "src/lib.rs");
    assert_eq!((expected.start_line, expected.end_line), (7, 8));
    assert_eq!(expected.embedding_dimension, Some(384));

    let bad = ChunkEmbeddingRecord { vector_point_id: String::new(), ..embedding() };
    assert_eq!(
        SqliteStore::upsert_chunk_embedding(&bad, "00000000000000ff"),
        Err(StoreError::InvalidPointId(String::new()))
    );
}

#[test]
fn generations_and_jobs_are_read_back() {
    let generation = SemanticGenerationRecord {
        id: "generation-1".to_owned(),
        repository_id: "repo-1".to_owned(),
        fast_model: "fast".to_owned(),
        fast_dimension: 384,
        fast_completed_at: "9".to_owned(),
        quality_model: None,
        quality_dimension: Some(768),
        quality_status: "fast_ready".to_owned(),
        quality_started_at: None,
        quality_completed_at: None,
        active_layer: "fast".to_owned(),
        files_seen: 1,
        embeddable_chunks: 2,
        fast_embedded_chunks: 3,
        quality_embedded_chunks: 4,
        created_at: "5".to_owned(),
        updated_at: "6".to_owned(),
    };
    let stored = SqliteStore::upsert_semantic_generation(&generation).params;
    assert_eq!(read::<SemanticGenerationRecord>(stored), generation);

    let job = QualityEmbeddingJobRecord {
        id: "job-1".to_owned(),
        repository_id: "repo-1".to_owned(),
        generation_id: "generation-1".to_owned(),
        chunk_id: "chunk-1".to_owned(),
        file_id: "file-1".to_owned(),
        path: "src/lib.rs".to_owned(),
        content_hash: "hash-1".to_owned(),
        text_hash: "text-1".to_owned(),
        status: "pending".to_owned(),
        attempts: 2,
        error_summary: Some("busy".to_owned()),
        created_at: "1".to_owned(),
        updated_at: "2".to_owned(),
    };
    let stored = SqliteStore::upsert_quality_embedding_job(&job).params;
    assert_eq!(read::<QualityEmbeddingJobRecord>(stored), job);
}

#[test]
fn rows_that_do_not_fit_are_told_by_their_first_bad_column() {
    let rows = vec![
        vec![text("a"), text("1")],
        vec![text("b"), SqlValue::Integer(1)],
        vec![SqlValue::Null, text("2")],
    ];
    let mistyped = |index: usize, found: ValueType| {
        StoreError::Column(BadColumn::Mistyped { index, found })
    };
    let states: Result<Vec<FileStateRecord>, StoreError> = collect_rows(&rows);
    assert_eq!(states, Err(mistyped(1, ValueType::Integer)));
    let states: Result<Vec<FileStateRecord>, StoreError> = collect_rows(&vec![vec![text("a")]]);
    assert_eq!(states, Err(StoreError::Column(BadColumn::Missing { index: 1 })));
    assert_eq!(first_row::<String>(&Vec::new()), Ok(None));
    assert_eq!(only_row::<String>(&Vec::new()), Err(StoreError::NoRows));
    let values = [
        (text("a"), ValueType::Text),
        (SqlValue::Null, ValueType::Null),
        (SqlValue::Real(Real { bits: 0 }), ValueType::Real),
        (SqlValue::Blob(Vec::new()), ValueType::Blob),
    ];
    for (value, found) in values {
        assert_eq!(only_row::<i64>(&vec![vec![value]]), Err(mistyped(0, found)));
    }
}

fn is_transaction(steps: &[Command]) -> bool {
    let inside = &steps[1..steps.len() - 1];
    steps[0] == Command::Begin
        && steps[steps.len() - 1] == Command::Commit
        && !inside.contains(&Command::Begin)
        && !inside.contains(&Command::Commit)
}

fn strings(list: &[&str]) -> Vec<String> {
    list.iter().map(|item| (*item).to_owned()).collect()
}

#[test]
fn facts_are_replaced_as_a_whole() {
    let (file, symbols, chunks, calls) =
        (file(), vec![symbol("a"), symbol("b")], vec![chunk()], vec![call()]);
    let tests = vec![test_record()];
    let others = strings(&["old-1", "old-2"]);
    let replacement = SqliteStore::replace_file_facts_for_ref_with_tests(
        "ref-1", &file, &symbols, &chunks, &calls, &tests,
    );
    let mut steps = replacement.start("9");
    assert_eq!(steps.len(), 9);
    let questions = replacement.count_refs(&others);
    assert_eq!(questions.len(), 2);
    steps.extend(questions);
    steps.extend(replacement.finish(&others, &vec![1, 0], "9"));
    assert_eq!(steps.len(), 9 + 2 + 6 + 5 + 1);
    assert!(is_transaction(&steps));

    let replacement = SqliteStore::replace_file_facts(&file, &symbols, &chunks, &calls);
    let mut steps = replacement.start("9");
    assert_eq!(steps.len(), 8);
    assert!(replacement.count_refs(&others).is_empty());
    steps.extend(replacement.finish(&others, &Vec::new(), "9"));
    assert_eq!(steps.len(), 8 + 12 + 4 + 1);
    assert!(is_transaction(&steps));
}

#[test]
fn replacements_differ_in_what_is_given() {
    let (file, symbols, chunks, calls) = (file(), Vec::new(), Vec::new(), Vec::new());
    let (references, tests) = (Vec::new(), vec![test_record()]);
    let replacement = SqliteStore::replace_file_facts_with_tests(
        &file, &symbols, &chunks, &calls, &tests,
    );
    assert_eq!(replacement.repository_ref_id, None);
    assert!(replacement.facts.symbol_references.is_none());
    assert_eq!(replacement.facts.tests.map(Vec::len), Some(1));
    let replacement = SqliteStore::replace_file_facts_with_references_and_tests(
        &file, &symbols, &chunks, &calls, &references, &tests,
    );
    assert_eq!(replacement.facts.symbol_references.map(Vec::len), Some(0));
    let replacement = SqliteStore::replace_file_facts_for_ref_with_references_and_tests(
        "ref-1", &file, &symbols, &chunks, &calls, &references, &tests,
    );
    assert_eq!(replacement.repository_ref_id, Some("ref-1"));
    assert_eq!(replacement.finish(&Vec::new(), &Vec::new(), "9").len(), 2);
}

#[test]
fn files_are_removed_as_a_whole() {
    let existing = strings(&["a", "b", "c"]);
    let missing = missing_paths(&existing, &strings(&["b", "z"]));
    assert_eq!(missing, ["a", "c"]);
    let (steps, removed) = SqliteStore::remove_missing_ref_files("ref-1", &missing);
    assert!(is_transaction(&steps));
    assert_eq!(removed, 2);
    let none = Vec::new();
    assert_eq!(SqliteStore::remove_missing_ref_files("ref-1", &none), (Vec::new(), 0));
    assert!(SqliteStore::files_at_missing_paths("repo-1", &Vec::new()).is_empty());

    let file_ids = strings(&["1", "2", "3"]);
    let counts = vec![0, 2, -1];
    assert_eq!(unreferenced_files(&file_ids, &counts), ["1", "3"]);
    let mut steps = SqliteStore::files_at_missing_paths("repo-1", &missing);
    steps.extend(SqliteStore::count_refs_to_files(&file_ids));
    let (last, removed) =
        SqliteStore::remove_unreferenced_missing_files(&missing, &file_ids, &counts);
    steps.extend(last);
    assert_eq!(removed, 2);
    assert_eq!(steps.len(), 3 + 3 + 12 + 1);
    assert!(is_transaction(&steps));
    let mut steps = SqliteStore::files_at_missing_paths("repo-1", &missing);
    let (last, removed) = SqliteStore::remove_missing_files(&missing, &file_ids);
    steps.extend(last);
    assert_eq!(removed, 2);
    assert_eq!(steps.len(), 3 + 18 + 1);
    assert!(is_transaction(&steps));
    assert_eq!(SqliteStore::remove_missing_files(&none, &none), (Vec::new(), 0));
    assert_eq!(
        SqliteStore::remove_unreferenced_missing_files(&none, &none, &Vec::new()),
        (Vec::new(), 0)
    );
}

#[test]
fn refs_are_synced_as_a_whole() {
    let snapshot = RepositoryRefSnapshot {
        id: "ref-1".to_owned(),
        repository_id: "repo-1".to_owned(),
        kind: RepositoryRefKind::Branch,
        name: Some("main".to_owned()),
        head_oid: Some("abc".to_owned()),
        local_branches: strings(&["main", "topic"]),
    };
    let mut steps =
        SqliteStore::sync_repository_ref(&snapshot, &strings(&["ref-1", "ref-2"]), "9");
    let known = vec![
        vec![text("ref-1"), text("main")],
        vec![text("ref-3"), text("gone")],
        vec![text("ref-4"), SqlValue::Null],
    ];
    let last = SqliteStore::finish_repository_ref_sync(&snapshot, &known, "9")
        .expect("branches should be read");
    assert_eq!(last.len(), 2);
    match &last[0] {
        Command::Execute(Statement { params, .. }) => assert!(params.contains(&text("ref-3"))),
        _ => panic!("a branch should be deleted"),
    }
    steps.extend(last);
    assert!(is_transaction(&steps));
    let summary = SqliteStore::repository_ref_sync_summary(&snapshot, 1, "9");
    assert_eq!(summary.deleted_refs, 1);
    assert_eq!(summary.current.ref_identity, "main");
    assert!(summary.current.is_current);
}

#[test]
fn events_and_claims_are_stored_as_a_whole() {
    assert!(SqliteStore::record_file_index_events(&Vec::new(), "9").is_empty());
    let event = FileIndexEventRecord {
        id: "event-1".to_owned(),
        index_run_id: "run-1".to_owned(),
        repository_id: "repo-1".to_owned(),
        repository_ref_id: None,
        path: "src/lib.rs".to_owned(),
        old_content_hash: None,
        new_content_hash: Some("hash-1".to_owned()),
        action: "indexed".to_owned(),
        reason: "new".to_owned(),
        status: "success".to_owned(),
        error_summary: None,
    };
    let steps = SqliteStore::record_file_index_events(&vec![event.clone(), event], "9");
    assert_eq!(steps.len(), 4);
    assert!(is_transaction(&steps));

    assert_eq!(
        SqliteStore::claim_quality_embedding_jobs("repo-1", "generation-1", 0),
        Err(StoreError::InvalidLimit(0))
    );
    let mut steps = SqliteStore::claim_quality_embedding_jobs("repo-1", "generation-1", 2)
        .expect("jobs should be claimed");
    steps.extend(SqliteStore::claim_jobs(&strings(&["job-1", "job-2"]), "9"));
    let (jobs, last) =
        SqliteStore::claimed_jobs(&Vec::new()).expect("no job should be claimed");
    assert!(jobs.is_empty());
    steps.extend(last);
    assert_eq!(steps.len(), 7);
    assert!(is_transaction(&steps));
}

#[test]
fn whole_numbers_are_read_as_floating_point_numbers() {
    let limit = 1_i64 << 53;
    let mut numbers = vec![0, 1, -1, 3, i64::MAX, i64::MIN, i64::MIN + 1, i64::MAX - 512];
    for step in -4..=4 {
        numbers.push(limit + step);
        numbers.push(-limit + step);
        numbers.push(2 * limit + step);
        numbers.push((1 << 62) + 256 * step);
        numbers.push((1 << 62) + 256 * step + 1);
    }
    for shift in 0..63 {
        numbers.push(1 << shift);
        numbers.push((1 << shift) - 1);
        numbers.push(0x0123_4567_89ab_cdef >> shift);
        numbers.push(i64::MAX >> shift);
    }
    for n in numbers {
        assert_eq!(real_of(n).bits, (n as f64).to_bits(), "{n}");
    }
    let stored = SqliteStore::insert_call(&call()).params;
    let mut joined = stored.clone();
    joined.extend(SqliteStore::insert_symbol(&symbol("a")).params);
    joined.extend(SqliteStore::insert_file(&file(), "9").params);
    joined.extend(SqliteStore::insert_symbol(&symbol("b")).params);
    joined.extend(SqliteStore::insert_file(&file(), "9").params);
    let places = [
        0, 2, 4, 5, 6, 9, 12, 13, 14, 24, 16, 17, 30, 33, 34, 35, 45, 37, 38, 26, 7, 8, 27,
    ];
    let mut row = picked(&joined, &places);
    let at = row
        .iter()
        .position(|value| matches!(value, SqlValue::Real(_)))
        .expect("a call has a confidence");
    row[at] = SqlValue::Integer(1);
    let found: CallPathEdge = read(row);
    assert_eq!(f64::from_bits(found.confidence.bits), 1.0);
}
