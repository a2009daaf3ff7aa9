//! Decisions on what the database holds: coverage, health, outlines, groups and packs.

use symdex_store::coverage::{chunk_vector_status, confidence_bucket, file_coverage_status};
use symdex_store::freshness::freshness_for_hash;
use symdex_store::health::{
    cross_store_health, embedding_coverage_health, semantic_neighborhood_health, storage_warnings,
};
use symdex_store::outline::{symbol_depth, symbol_outline_rows};
use symdex_store::records::{
    CallResolutionEdgeRow, CallSearchRow, ChunkVectorStatus, ConfidenceBucket,
    EmbeddingIndexMetadata, EvidenceFreshness, EvidenceProvenance, FileCoverageStatus,
    FileStateRecord, SqliteStorageSummary, StorageHealthRow, StorageHealthStatus,
    SymbolSearchRow, VectorStorageProjection,
};
use symdex_store::repository::latest_file_states;
use symdex_store::resolution::call_resolution_buckets;
use symdex_store::rows::{ChunkProjectionCounts, SymbolOutlineBaseRow};
use symdex_store::sql::{Real, Row, SqlValue};
use symdex_store::store::SqliteStore;
use symdex_store::summaries::{EmbeddingFacts, RepositoryFacts};

fn number(value: f64) -> Real {
    Real { bits: value.to_bits() }
}

fn labels(rows: &[StorageHealthRow]) -> Vec<&str> {
    rows.iter().map(|row| row.label.as_str()).collect()
}

#[test]
fn files_are_covered_when_every_embeddable_chunk_has_a_vector() {
    assert_eq!(file_coverage_status(3, 2, 2, 1), FileCoverageStatus::Covered);
    assert_eq!(file_coverage_status(3, 3, 2, 0), FileCoverageStatus::MissingVector);
    assert_eq!(file_coverage_status(2, 0, 0, 2), FileCoverageStatus::Excluded);
    assert_eq!(file_coverage_status(2, 5, 0, 2), FileCoverageStatus::Excluded);
    assert_eq!(file_coverage_status(0, 0, 0, 0), FileCoverageStatus::MetadataOnly);
    assert_eq!(file_coverage_status(2, 1, 2, 1), FileCoverageStatus::MetadataOnly);
}

#[test]
fn chunks_are_excluded_before_anything_else() {
    let reason = Some("secret".to_owned());
    assert_eq!(chunk_vector_status(true, &reason), ChunkVectorStatus::Excluded);
    assert_eq!(chunk_vector_status(false, &reason), ChunkVectorStatus::Excluded);
    assert_eq!(chunk_vector_status(true, &None), ChunkVectorStatus::VectorBacked);
    assert_eq!(chunk_vector_status(false, &None), ChunkVectorStatus::MissingVector);
}

#[test]
fn confidence_levels_follow_floating_point_order() {
    let levels = [
        (1.0, ConfidenceBucket::High),
        (0.85, ConfidenceBucket::High),
        (0.849_999_999_999_999_9, ConfidenceBucket::Medium),
        (0.5, ConfidenceBucket::Medium),
        (0.499_999_999_999_999_94, ConfidenceBucket::Low),
        (0.0, ConfidenceBucket::Low),
        (-0.0, ConfidenceBucket::Low),
        (-1.0, ConfidenceBucket::Low),
        (f64::INFINITY, ConfidenceBucket::High),
        (f64::NEG_INFINITY, ConfidenceBucket::Low),
        (f64::NAN, ConfidenceBucket::Low),
    ];
    for (value, level) in levels {
        assert_eq!(confidence_bucket(number(value)), level, "{value}");
    }
    assert_eq!(ConfidenceBucket::High.label(), "high");
    assert_eq!(ConfidenceBucket::Medium.label(), "medium");
    assert_eq!(ConfidenceBucket::Low.label(), "low");
}

#[test]
fn numbers_compare_as_floating_point_numbers_do() {
    let values = [
        f64::NEG_INFINITY,
        f64::MIN,
        -1.5,
        -f64::MIN_POSITIVE,
        -0.0,
        0.0,
        f64::from_bits(1),
        0.85,
        1.0,
        f64::MAX,
        f64::INFINITY,
        f64::NAN,
    ];
    for a in values {
        assert_eq!(number(a).is_nan(), a.is_nan());
        for b in values {
            assert_eq!(number(a).at_least(number(b)), a >= b, "{a} {b}");
            let least = f64::from_bits(number(a).min(number(b)).bits);
            if a.is_nan() && b.is_nan() {
                assert!(least.is_nan());
            } else {
                assert_eq!(least, a.min(b), "{a} {b}");
            }
        }
    }
}

#[test]
fn freshness_has_labels() {
    assert_eq!(freshness_for_hash(Some("a"), Some("a")).label(), "fresh");
    assert_eq!(freshness_for_hash(Some("a"), Some("b")).label(), "stale");
    assert_eq!(freshness_for_hash(Some("a"), None).label(), "deleted");
    assert_eq!(freshness_for_hash(None, Some("a")).label(), "missing");
    assert_eq!(EvidenceFreshness::Unknown.label(), "unknown");
}

#[test]
fn stores_without_findings_are_healthy() {
    let sqlite = SqliteStorageSummary {
        repositories: 1,
        files: 2,
        chunks: 3,
        symbols: 4,
        calls: 5,
        index_runs: 1,
    };
    let vector = VectorStorageProjection {
        collection_name: "symdex_repo_model".to_owned(),
        embedding_model: "model".to_owned(),
        embedding_dimension: Some(3),
        embeddable_chunks: 3,
        vector_backed_chunks: 3,
        excluded_chunks: 0,
        missing_vector_chunks: 0,
    };
    let rows = storage_warnings(&sqlite, &vector);
    assert_eq!(rows.len(), 1);
    assert_eq!(rows[0].status, StorageHealthStatus::Healthy);
    assert_eq!(rows[0].label, "coverage_ok");
    assert_eq!(
        rows[0].detail,
        "SQLite metadata and vector-backed chunk counts are aligned."
    );

    let sqlite = SqliteStorageSummary { repositories: 0, index_runs: 0, ..sqlite };
    let vector =
        VectorStorageProjection { missing_vector_chunks: 12, excluded_chunks: 3, ..vector };
    let rows = storage_warnings(&sqlite, &vector);
    assert_eq!(
        labels(&rows),
        ["repository_missing", "no_index_runs", "missing_vectors", "excluded_chunks"]
    );
    assert_eq!(rows[0].status, StorageHealthStatus::Error);
    assert_eq!(rows[2].detail, "12 embeddable chunks do not have vector point IDs.");
    assert_eq!(rows[3].detail, "3 chunks are intentionally metadata-only.");
}

fn projection(embeddable: usize, backed: usize, excluded: usize) -> ChunkProjectionCounts {
    ChunkProjectionCounts {
        embeddable_chunks: embeddable,
        vector_backed_chunks: backed,
        excluded_chunks: excluded,
        missing_vector_chunks: embeddable - backed,
    }
}

fn latest(model: &str, dimension: Option<usize>, chunks: usize) -> Option<EmbeddingIndexMetadata> {
    Some(EmbeddingIndexMetadata {
        embedding_model: model.to_owned(),
        embedding_dimension: dimension,
        chunks_embedded: chunks,
    })
}

#[test]
fn embeddings_that_cover_everything_have_no_findings() {
    let rows =
        embedding_coverage_health(2, &projection(2, 2, 0), &latest("m", Some(3), 2), "m");
    assert!(rows.is_empty());
    assert!(embedding_coverage_health(1, &projection(0, 0, 0), &None, "m").is_empty());

    let rows = embedding_coverage_health(0, &projection(2, 1, 1), &latest("old", None, 9), "new");
    assert_eq!(
        labels(&rows),
        [
            "missing_vectors",
            "excluded_chunks",
            "model_drift",
            "dimension_missing",
            "run_count_mismatch",
            "no_chunks"
        ]
    );
    assert_eq!(rows[0].detail, "1 embeddable chunks have no recorded vector point ID.");
    assert_eq!(
        rows[2].detail,
        "Configured model new differs from latest indexed model old."
    );
    assert_eq!(
        rows[4].detail,
        "Latest run embedded 9 chunks, while SQLite records 1 vector-backed chunks."
    );

    let rows = embedding_coverage_health(2, &projection(2, 2, 0), &None, "m");
    assert_eq!(labels(&rows), ["no_embedding_run"]);
}

#[test]
fn neighborhoods_need_vectors() {
    let rows = semantic_neighborhood_health(&Vec::new());
    assert_eq!(labels(&rows), ["no_vector_payloads"]);
    assert_eq!(rows[0].status, StorageHealthStatus::Warning);
}

#[test]
fn stores_that_agree_are_healthy() {
    let rows = cross_store_health(
        &projection(2, 2, 0),
        &latest("m", Some(3), 2),
        "m",
        "m",
        &vec![3],
    );
    assert_eq!(rows.len(), 1);
    assert_eq!(rows[0].status, StorageHealthStatus::Healthy);

    let rows = cross_store_health(&projection(2, 0, 0), &None, "m", "m", &Vec::new());
    assert_eq!(rows[0].label, "missing_collection");
    assert_eq!(
        rows[0].detail,
        "Embeddable chunks exist, but no successful semantic index run has recorded collection \
         metadata."
    );
    assert_eq!(rows[1].label, "missing_vectors");
    assert_eq!(
        rows[1].detail,
        "2 embeddable chunks are missing recorded vector point IDs."
    );
}

fn base(id: &str, parent: Option<&str>) -> SymbolOutlineBaseRow {
    SymbolOutlineBaseRow {
        id: id.to_owned(),
        parent_symbol_id: parent.map(str::to_owned),
        kind: "function".to_owned(),
        qualified_name: format!("crate::{id}"),
        name: id.to_owned(),
        start_line: 1,
        end_line: 2,
        path: "src/lib.rs".to_owned(),
    }
}

#[test]
fn outlines_nest_children_under_parents() {
    let bases = vec![
        base("a", None),
        base("b", Some("a")),
        base("c", Some("b")),
        base("d", Some("a")),
        base("e", Some("gone")),
    ];
    let rows = symbol_outline_rows(&bases);
    let depths: Vec<(usize, usize)> =
        rows.iter().map(|row| (row.depth, row.child_count)).collect();
    assert_eq!(depths, [(0, 2), (1, 1), (2, 0), (1, 0), (1, 0)]);
    assert_eq!(rows[1].qualified_name, "crate::b");
}

#[test]
fn outlines_of_circular_parents_end() {
    let bases = vec![base("a", Some("b")), base("b", Some("a"))];
    let rows = symbol_outline_rows(&bases);
    assert_eq!(rows[0].depth, 16);
    assert_eq!(rows[0].child_count, 1);
    assert_eq!(symbol_depth(&None, &bases), 0);
    assert_eq!(symbol_depth(&Some("a".to_owned()), &bases), 16);
    assert_eq!(symbol_depth(&Some("gone".to_owned()), &bases), 1);
}

fn edge(status: &str, confidence: f64, line: usize) -> CallResolutionEdgeRow {
    CallResolutionEdgeRow {
        path: "src/lib.rs".to_owned(),
        caller_symbol: "crate::a".to_owned(),
        callee_text: "b".to_owned(),
        call_line: line,
        confidence: number(confidence),
        resolution_status: status.to_owned(),
        confidence_bucket: confidence_bucket(number(confidence)),
    }
}

#[test]
fn calls_are_grouped_by_status_and_level() {
    let groups = call_resolution_buckets(vec![
        edge("unresolved", 0.1, 1),
        edge("resolved", 0.6, 2),
        edge("unresolved", 0.2, 3),
        edge("resolved", 0.9, 4),
        edge("ambiguous", 0.6, 5),
    ]);
    let kinds: Vec<(&str, ConfidenceBucket, usize)> = groups
        .iter()
        .map(|group| {
            (group.resolution_status.as_str(), group.confidence_bucket, group.call_count)
        })
        .collect();
    assert_eq!(
        kinds,
        [
            ("ambiguous", ConfidenceBucket::Medium, 1),
            ("resolved", ConfidenceBucket::High, 1),
            ("resolved", ConfidenceBucket::Medium, 1),
            ("unresolved", ConfidenceBucket::Low, 2),
        ]
    );
    let lines: Vec<usize> = groups[3].rows.iter().map(|row| row.call_line).collect();
    assert_eq!(lines, [1, 3]);
    let total: usize = groups.iter().map(|group| group.call_count).sum();
    assert_eq!(total, 5);
    assert!(call_resolution_buckets(Vec::new()).is_empty());
}

#[test]
fn the_first_state_of_each_path_is_kept() {
    let state = |path: &str, hash: &str| FileStateRecord {
        path: path.to_owned(),
        content_hash: hash.to_owned(),
    };
    let kept = latest_file_states(vec![
        state("a", "3"),
        state("a", "2"),
        state("b", "1"),
        state("a", "0"),
        state("b", "9"),
    ]);
    assert_eq!(kept, [state("a", "3"), state("b", "1")]);
}

fn evidence() -> EvidenceProvenance {
    EvidenceProvenance {
        content_hash: None,
        index_run_id: None,
        parser_version: None,
        indexed_at: None,
        embedding_model: None,
        embedding_dimension: None,
        embedded_at: None,
    }
}

fn symbol(name: &str, path: &str) -> SymbolSearchRow {
    SymbolSearchRow {
        id: name.to_owned(),
        name: name.to_owned(),
        qualified_name: name.to_owned(),
        kind: "function".to_owned(),
        path: path.to_owned(),
        start_line: 1,
        end_line: 2,
        provenance: evidence(),
    }
}

fn call(path: Option<&str>) -> CallSearchRow {
    CallSearchRow {
        callee_text: "b".to_owned(),
        call_line: 1,
        confidence: number(1.0),
        resolution_status: "resolved".to_owned(),
        symbol_id: None,
        symbol_name: None,
        symbol_qualified_name: None,
        symbol_kind: None,
        path: path.map(str::to_owned),
        start_line: None,
        end_line: None,
        provenance: evidence(),
    }
}

#[test]
fn packs_are_bounded_and_list_their_files_once() {
    let symbols: Vec<SymbolSearchRow> =
        (0..40).map(|index| symbol("s", &format!("src/{}.rs", index % 2))).collect();
    let pack = SqliteStore::context_pack(
        "repo-1",
        "s",
        100,
        symbols.clone(),
        vec![call(Some("src/z.rs")), call(None)],
        vec![call(Some("src/a.rs"))],
    );
    assert_eq!(pack.focus_symbols.len(), 25);
    assert_eq!(pack.limits.max_symbols, 25);
    assert_eq!(pack.files, ["src/0.rs", "src/1.rs", "src/a.rs", "src/z.rs"]);

    let pack = SqliteStore::context_pack("repo-1", "s", 0, symbols, Vec::new(), Vec::new());
    assert_eq!(pack.focus_symbols.len(), 1);
    assert_eq!(pack.files, ["src/0.rs"]);
}

#[test]
fn summaries_of_covered_embeddings_say_that_all_is_well() {
    let one = |values: &[i64]| -> Vec<Row> {
        vec![values.iter().map(|value| SqlValue::Integer(*value)).collect()]
    };
    let run = vec![
        SqlValue::Text("model".to_owned()),
        SqlValue::Integer(3),
        SqlValue::Integer(4),
    ];
    let facts = |backed: i64, missing: i64| EmbeddingFacts {
        status: RepositoryFacts {
            files: one(&[1]),
            chunks: one(&[4]),
            last_indexed_at: vec![vec![SqlValue::Null]],
            embedding: vec![run.clone()],
            current_ref: Vec::new(),
            symbols: one(&[0]),
            calls: one(&[0]),
        },
        projection: one(&[4, backed, 0, missing]),
        exclusions: Vec::new(),
    };
    let health = |facts: EmbeddingFacts| {
        SqliteStore::embedding_coverage_summary("repo-1", "model", &facts)
            .expect("facts should be read")
            .health
    };
    let covered = health(facts(4, 0));
    assert_eq!(labels(&covered), ["embedding_coverage_ok"]);
    assert_eq!(covered[0].status, StorageHealthStatus::Healthy);
    assert_eq!(
        covered[0].detail,
        "All embeddable SQLite chunks have recorded vector point metadata."
    );
    let short = health(facts(3, 1));
    assert!(!short.is_empty());
    assert!(!labels(&short).contains(&"embedding_coverage_ok"));
}
