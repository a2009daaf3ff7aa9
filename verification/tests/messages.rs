//! Failures as they are told, leases, and the configuration.

use symdex_store::config::{current_timestamp, new_index_run_id, StoreConfig};
use symdex_store::error::{BadColumn, StoreError, ValueType};
use symdex_store::layers::{RepositoryRefKind, SemanticLayer, SemanticLayerStatus};
use symdex_store::lease::{
    read_writer_lease_info, writer_busy_message, writer_lock_path, WriterLeaseInfo,
    WriterLeaseKind, WriterLeaseRequest,
};
use symdex_store::sql::usize_count;

fn owner() -> WriterLeaseInfo {
    let request = WriterLeaseRequest::new(WriterLeaseKind::ManualIndex, "index --full")
        .for_repo("repo-1", "/work/repo");
    WriterLeaseInfo::from_request(&request, 4711, "1700000000")
}

#[test]
fn every_failure_has_its_message() {
    let messages = [
        (
            StoreError::Column(BadColumn::Mistyped { index: 12, found: ValueType::Null }),
            "SQLite error: Invalid column type Null at index: 12",
        ),
        (
            StoreError::Column(BadColumn::Mistyped { index: 0, found: ValueType::Integer }),
            "SQLite error: Invalid column type Integer at index: 0",
        ),
        (
            StoreError::Column(BadColumn::Mistyped { index: 1, found: ValueType::Real }),
            "SQLite error: Invalid column type Real at index: 1",
        ),
        (
            StoreError::Column(BadColumn::Mistyped { index: 2, found: ValueType::Text }),
            "SQLite error: Invalid column type Text at index: 2",
        ),
        (
            StoreError::Column(BadColumn::Mistyped { index: 3, found: ValueType::Blob }),
            "SQLite error: Invalid column type Blob at index: 3",
        ),
        (
            StoreError::Column(BadColumn::Missing { index: 12 }),
            "SQLite error: Invalid column index: 12",
        ),
        (StoreError::NoRows, "SQLite error: Query returned no rows"),
        (
            StoreError::InvalidVectorTableName("a-b".to_owned()),
            "invalid sqlite-vec table name `a-b`",
        ),
        (StoreError::InvalidCollectionName("a b".to_owned()), "invalid collection name `a b`"),
        (StoreError::InvalidPointId("x".to_owned()), "invalid vector point id source `x`"),
        (StoreError::InvalidVectorSize(0), "invalid vector size `0`"),
        (StoreError::InvalidLimit(10), "invalid vector query limit `10`"),
        (
            StoreError::InconsistentVectorDimensions,
            "vector points have inconsistent vector dimensions",
        ),
        (
            StoreError::EmbeddingDimensionChanged {
                repository_id: "repo-1".to_owned(),
                embedding_model: "model-a".to_owned(),
                previous_dimension: 384,
                current_dimension: 768,
            },
            "embedding dimension changed for repository `repo-1` and model `model-a`: \
             previous=384 current=768; reset the collection or use a new model name before \
             reindexing",
        ),
        (
            StoreError::WriterBusy { owner: None },
            "database writer busy: owner=<unknown>; stop the active writer or wait for it to \
             finish",
        ),
        (
            StoreError::UnexpectedResponse("status=error".to_owned()),
            "unexpected vector store response: status=error",
        ),
    ];
    for (error, message) in messages {
        assert_eq!(error.message(), message);
    }
}

#[test]
fn a_busy_writer_is_told_with_its_owner() {
    assert_eq!(
        writer_busy_message(Some(&owner())),
        "database writer busy: owner=manual_index pid=4711 repo=/work/repo \
         operation=index --full; stop the active writer or wait for it to finish"
    );
    let request = WriterLeaseRequest::new(WriterLeaseKind::Maintenance, "vacuum");
    let info = WriterLeaseInfo::from_request(&request, 1, "0");
    assert_eq!(
        StoreError::WriterBusy { owner: Some(info) }.message(),
        "database writer busy: owner=maintenance pid=1 repo=<none> operation=vacuum; stop the \
         active writer or wait for it to finish"
    );
}

#[test]
fn a_lease_tells_who_asked_for_it() {
    let info = owner();
    assert_eq!(info.owner_kind, "manual_index");
    assert_eq!(info.pid, 4711);
    assert_eq!(info.operation, "index --full");
    assert_eq!(info.repository_id.as_deref(), Some("repo-1"));
    assert_eq!(info.repo_root.as_deref(), Some("/work/repo"));
    assert_eq!(info.started_at, "1700000000");
}

#[test]
fn lease_kinds_have_names() {
    let names = [
        (WriterLeaseKind::Init, "init"),
        (WriterLeaseKind::ManualIndex, "manual_index"),
        (WriterLeaseKind::WatcherDaemon, "watcher_daemon"),
        (WriterLeaseKind::WatcherForeground, "watcher_foreground"),
        (WriterLeaseKind::WatcherLauncher, "watcher_launcher"),
        (WriterLeaseKind::QualityIndex, "quality_index"),
        (WriterLeaseKind::VectorRepair, "vector_repair"),
        (WriterLeaseKind::Maintenance, "maintenance"),
    ];
    for (kind, name) in names {
        assert_eq!(kind.as_str(), name);
    }
}

#[test]
fn lock_files_stand_beside_the_database() {
    let lock = writer_lock_path(Some("/data"), Some("symdex.sqlite"));
    assert_eq!(lock.directory.as_deref(), Some("/data"));
    assert_eq!(lock.file_name, "symdex.sqlite.writer.lock");
    let lock = writer_lock_path(None, None);
    assert_eq!(lock.directory, None);
    assert_eq!(lock.file_name, "symdex.sqlite.writer.lock");
}

#[test]
fn empty_lock_files_tell_no_owner() {
    assert!(!read_writer_lease_info(None));
    assert!(!read_writer_lease_info(Some("")));
    assert!(!read_writer_lease_info(Some(" \n")));
    assert!(read_writer_lease_info(Some(" {}\n")));
}

#[test]
fn the_environment_names_the_database() {
    assert_eq!(StoreConfig::from_env(Some("/a"), Some("/b")).sqlite_path, "/a");
    assert_eq!(StoreConfig::from_env(None, Some("/b")).sqlite_path, "/b");
    assert_eq!(StoreConfig::from_env(None, None).sqlite_path, ".symdex/symdex.sqlite");
}

#[test]
fn times_are_written_in_decimal() {
    assert_eq!(current_timestamp(Some(1_700_000_000)), "1700000000");
    assert_eq!(current_timestamp(Some(u64::MAX)), u64::MAX.to_string());
    assert_eq!(current_timestamp(None), "0");
    assert_eq!(
        new_index_run_id("repo-1", "manual", u128::MAX),
        format!("repo-1-manual-{}", u128::MAX)
    );
}

#[test]
fn names_of_layers_and_states_are_read_back() {
    for (layer, name) in [(SemanticLayer::Fast, "fast"), (SemanticLayer::Quality, "quality")] {
        assert_eq!(layer.as_str(), name);
        assert_eq!(SemanticLayer::parse(name), Some(layer));
    }
    let states = [
        (SemanticLayerStatus::FastReady, "fast_ready"),
        (SemanticLayerStatus::QualityPending, "quality_pending"),
        (SemanticLayerStatus::QualityReady, "quality_ready"),
        (SemanticLayerStatus::QualityBlocked, "quality_blocked"),
        (SemanticLayerStatus::QualityFailed, "quality_failed"),
        (SemanticLayerStatus::QualityStale, "quality_stale"),
    ];
    for (state, name) in states {
        assert_eq!(state.as_str(), name);
        assert_eq!(SemanticLayerStatus::parse(name), Some(state));
    }
    assert_eq!(SemanticLayer::parse("Fast"), None);
    assert_eq!(SemanticLayerStatus::parse(""), None);
    assert_eq!(RepositoryRefKind::NonGit.as_str(), "non_git");
}

#[test]
fn counts_are_not_negative() {
    assert_eq!(usize_count(3, "file count"), Ok(3));
    assert_eq!(
        usize_count(-1, "file count"),
        Err(StoreError::UnexpectedResponse("negative file count".to_owned()))
    );
}
