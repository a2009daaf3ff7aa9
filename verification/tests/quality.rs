//! Generations, their layers, and the jobs of the quality layer.

use symdex_store::error::{BadColumn, StoreError, ValueType};
use symdex_store::generations::{
    fast_manifest, fast_semantic_generation_id, point_ids, RoutingFacts,
};
use symdex_store::layers::{SemanticLayer, SemanticLayerStatus};
use symdex_store::quality::{
    quality_progress, tally_quality_jobs, QualityActivationFacts, QualityGenerationFacts,
};
use symdex_store::recording::upsert_fast_generation;
use symdex_store::records::{
    ChunkEmbeddingRecord, FastEmbeddingManifestRecord, FastSemanticGenerationInput,
    QualityActivationReason, QualityActivationSummary, QualityEmbeddingJobRecord,
    QualityJobCompletion, QualityQueueSummary,
    SemanticGenerationRecord, SemanticLayerManifestAggregate, SemanticLayerManifestSummary,
};
use symdex_store::sql::{Command, Row, SqlValue};
use symdex_store::store::SqliteStore;

fn text(value: &str) -> SqlValue {
    SqlValue::Text(value.to_owned())
}

fn count(value: i64) -> Vec<Row> {
    vec![vec![SqlValue::Integer(value)]]
}

fn jobs(counts: &[(&str, i64)]) -> Vec<Row> {
    counts
        .iter()
        .map(|(status, jobs)| vec![text(status), SqlValue::Integer(*jobs)])
        .collect()
}

fn generation() -> SemanticGenerationRecord {
    SemanticGenerationRecord {
        id: "generation-1".to_owned(),
        repository_id: "repo-1".to_owned(),
        fast_model: "fast".to_owned(),
        fast_dimension: 384,
        fast_completed_at: "1".to_owned(),
        quality_model: Some("quality".to_owned()),
        quality_dimension: None,
        quality_status: "quality_pending".to_owned(),
        quality_started_at: None,
        quality_completed_at: None,
        active_layer: "fast".to_owned(),
        files_seen: 1,
        embeddable_chunks: 4,
        fast_embedded_chunks: 4,
        quality_embedded_chunks: 0,
        created_at: "1".to_owned(),
        updated_at: "1".to_owned(),
    }
}

fn facts(
    generation: &SemanticGenerationRecord,
    latest: &str,
    embedded: i64,
    counts: &[(&str, i64)],
) -> QualityActivationFacts {
    QualityActivationFacts {
        generation: vec![SqliteStore::upsert_semantic_generation(generation).params],
        latest: vec![vec![text(latest)]],
        embedded: count(embedded),
        jobs: jobs(counts),
    }
}

fn decide(
    facts: &QualityActivationFacts,
    dimension: Option<usize>,
) -> Result<(QualityActivationSummary, Vec<Command>), StoreError> {
    SqliteStore::decide_quality_activation("repo-1", "generation-1", dimension, "9", facts)
}

#[test]
fn the_quality_layer_answers_exactly_when_it_is_complete() {
    let complete = facts(&generation(), "generation-1", 3, &[("skipped_excluded", 1)]);
    let (summary, steps) = decide(&complete, Some(768)).expect("facts should be read");
    assert_eq!(summary.reason, QualityActivationReason::QualityComplete);
    assert_eq!(summary.active_layer, SemanticLayer::Quality);
    assert_eq!(summary.quality_status, SemanticLayerStatus::QualityReady);
    assert_eq!(summary.previous_status, SemanticLayerStatus::QualityPending);
    assert_eq!(summary.progress.quality_eligible_chunks, 3);
    assert_eq!(summary.progress.quality_ineligible_chunks, 1);
    assert_eq!(steps.len(), 2);
    match &steps[0] {
        Command::Execute(statement) => assert_eq!(
            statement.params,
            [
                text("repo-1"),
                text("generation-1"),
                SqlValue::Integer(768),
                text("9"),
                SqlValue::Integer(3),
                text("quality_ready"),
                text("9"),
                text("quality"),
            ]
        ),
        _ => panic!("an update was expected"),
    }
    assert_eq!(steps[1], Command::Commit);
}

#[test]
fn the_first_reason_against_the_quality_layer_is_told() {
    let current = "generation-1";
    let cases = [
        (
            facts(&generation(), current, 3, &[("pending", 1)]),
            Some(768),
            QualityActivationReason::QualityJobsPending,
            SemanticLayerStatus::QualityPending,
        ),
        (
            facts(&generation(), current, 3, &[("running", 1), ("failed", 2)]),
            Some(768),
            QualityActivationReason::QualityJobsPending,
            SemanticLayerStatus::QualityPending,
        ),
        (
            facts(&generation(), current, 4, &[("failed", 2)]),
            Some(768),
            QualityActivationReason::QualityJobsFailed,
            SemanticLayerStatus::QualityFailed,
        ),
        (
            facts(&generation(), current, 4, &[("skipped_stale", 1)]),
            Some(768),
            QualityActivationReason::QualityJobsStale,
            SemanticLayerStatus::QualityPending,
        ),
        (
            facts(&generation(), current, 3, &[]),
            Some(768),
            QualityActivationReason::QualityCoverageIncomplete,
            SemanticLayerStatus::QualityPending,
        ),
        (
            facts(&generation(), current, 4, &[]),
            None,
            QualityActivationReason::QualityDimensionMissing,
            SemanticLayerStatus::QualityPending,
        ),
        (
            facts(
                &SemanticGenerationRecord { quality_model: None, ..generation() },
                current,
                4,
                &[],
            ),
            Some(768),
            QualityActivationReason::QualityModelMissing,
            SemanticLayerStatus::QualityPending,
        ),
        (
            facts(
                &SemanticGenerationRecord { embeddable_chunks: 0, ..generation() },
                current,
                0,
                &[],
            ),
            Some(768),
            QualityActivationReason::NoEmbeddableChunks,
            SemanticLayerStatus::QualityPending,
        ),
        (
            facts(
                &SemanticGenerationRecord {
                    quality_status: "quality_blocked".to_owned(),
                    ..generation()
                },
                current,
                1,
                &[],
            ),
            Some(768),
            QualityActivationReason::QualityBlocked,
            SemanticLayerStatus::QualityBlocked,
        ),
        (
            facts(
                &SemanticGenerationRecord {
                    quality_status: "quality_stale".to_owned(),
                    ..generation()
                },
                current,
                1,
                &[],
            ),
            Some(768),
            QualityActivationReason::QualityStale,
            SemanticLayerStatus::QualityStale,
        ),
    ];
    for (facts, dimension, reason, status) in cases {
        let (summary, steps) = decide(&facts, dimension).expect("facts should be read");
        assert_eq!(summary.reason, reason);
        assert_eq!(summary.quality_status, status);
        assert_eq!(summary.active_layer, SemanticLayer::Fast);
        assert_eq!(steps.len(), 2);
    }
}

#[test]
fn old_generations_are_left_alone() {
    let old = SemanticGenerationRecord {
        quality_status: "quality_ready".to_owned(),
        active_layer: "quality".to_owned(),
        ..generation()
    };
    let (summary, steps) =
        decide(&facts(&old, "generation-2", 0, &[("failed", 1)]), None).expect("facts are read");
    assert_eq!(summary.reason, QualityActivationReason::GenerationNotLatest);
    assert_eq!(summary.quality_status, SemanticLayerStatus::QualityReady);
    assert_eq!(summary.active_layer, SemanticLayer::Quality);
    assert_eq!(steps, [Command::Commit]);
}

#[test]
fn refreshing_twice_changes_nothing() {
    let first = facts(&generation(), "generation-1", 4, &[("failed", 1)]);
    let (summary, _) = decide(&first, Some(768)).expect("facts should be read");
    let after = SemanticGenerationRecord {
        quality_status: summary.quality_status.as_str().to_owned(),
        active_layer: summary.active_layer.as_str().to_owned(),
        quality_dimension: Some(768),
        ..generation()
    };
    let second = facts(&after, "generation-1", 4, &[("failed", 1)]);
    let (again, _) = decide(&second, Some(768)).expect("facts should be read");
    assert_eq!(again.reason, summary.reason);
    assert_eq!(again.quality_status, summary.quality_status);
    assert_eq!(again.active_layer, summary.active_layer);
}

#[test]
fn activations_need_facts_that_can_be_read() {
    let good = || facts(&generation(), "generation-1", 4, &[]);
    let unexpected = |text: &str| Some(StoreError::UnexpectedResponse(text.to_owned()));
    let missing = QualityActivationFacts { generation: Vec::new(), ..good() };
    assert_eq!(decide(&missing, None).err(), Some(StoreError::NoRows));
    let negative = QualityActivationFacts { embedded: count(-1), ..good() };
    assert_eq!(
        decide(&negative, None).err(),
        unexpected("negative quality embedded chunk count")
    );
    let negative = QualityActivationFacts { jobs: jobs(&[("pending", -2)]), ..good() };
    assert_eq!(
        decide(&negative, None).err(),
        unexpected("negative quality job status count")
    );
    let state = SemanticGenerationRecord { quality_status: "new".to_owned(), ..generation() };
    assert_eq!(
        decide(&facts(&state, "generation-1", 0, &[]), None).err(),
        unexpected("invalid semantic layer status")
    );
    let layer = SemanticGenerationRecord { active_layer: "slow".to_owned(), ..generation() };
    assert_eq!(
        decide(&facts(&layer, "generation-1", 0, &[]), None).err(),
        unexpected("invalid semantic layer")
    );
}

#[test]
fn reasons_have_names() {
    let names = [
        (QualityActivationReason::QualityComplete, "quality_complete"),
        (QualityActivationReason::GenerationNotLatest, "generation_not_latest"),
        (QualityActivationReason::QualityModelMissing, "quality_model_missing"),
        (QualityActivationReason::QualityDimensionMissing, "quality_dimension_missing"),
        (QualityActivationReason::NoEmbeddableChunks, "no_embeddable_chunks"),
        (QualityActivationReason::QualityCoverageIncomplete, "quality_coverage_incomplete"),
        (QualityActivationReason::QualityJobsPending, "quality_jobs_pending"),
        (QualityActivationReason::QualityJobsFailed, "quality_jobs_failed"),
        (QualityActivationReason::QualityJobsStale, "quality_jobs_stale"),
        (QualityActivationReason::QualityBlocked, "quality_blocked"),
        (QualityActivationReason::QualityStale, "quality_stale"),
    ];
    for (reason, name) in names {
        assert_eq!(reason.as_str(), name);
    }
}

#[test]
fn jobs_are_tallied_by_status() {
    let tally = tally_quality_jobs(&jobs(&[
        ("pending", 1),
        ("running", 2),
        ("succeeded", 3),
        ("failed", 4),
        ("skipped_stale", 5),
        ("skipped_excluded", 6),
        ("other", 7),
    ]))
    .expect("jobs should be tallied");
    assert_eq!(tally.pending_jobs, 1);
    assert_eq!(tally.running_jobs, 2);
    assert_eq!(tally.succeeded_jobs, 3);
    assert_eq!(tally.failed_jobs, 4);
    assert_eq!(tally.skipped_stale_jobs, 5);
    assert_eq!(tally.skipped_excluded_jobs, 6);
}

#[test]
fn progress_counts_what_can_be_embedded() {
    let facts = QualityGenerationFacts {
        embeddable: count(2),
        embedded: count(1),
        jobs: jobs(&[("skipped_excluded", 5)]),
    };
    let progress =
        quality_progress("repo-1", "generation-1", &facts).expect("progress should be read");
    assert_eq!(progress.embeddable_chunks, 2);
    assert_eq!(progress.quality_eligible_chunks, 0);
    assert_eq!(progress.quality_ineligible_chunks, 5);
    assert_eq!(progress.quality_embedded_chunks, 1);
    let facts = QualityGenerationFacts { embeddable: count(-1), ..facts };
    assert_eq!(
        quality_progress("repo-1", "generation-1", &facts).err(),
        Some(StoreError::UnexpectedResponse("negative embeddable chunk count".to_owned()))
    );
}

#[test]
fn jobs_end_in_one_transaction() {
    let embedding = ChunkEmbeddingRecord {
        id: "embedding-1".to_owned(),
        repository_id: "repo-1".to_owned(),
        file_id: "file-1".to_owned(),
        chunk_id: "chunk-1".to_owned(),
        semantic_layer: "quality".to_owned(),
        embedding_model: "quality".to_owned(),
        embedding_dimension: 768,
        content_hash: "hash".to_owned(),
        text_hash: "text".to_owned(),
        vector_table: "symdex_t".to_owned(),
        vector_point_id: "point".to_owned(),
        generation_id: "generation-1".to_owned(),
        embedded_at: "9".to_owned(),
        status: "current".to_owned(),
    };
    let succeeded = QualityJobCompletion::Succeeded { embedding: Box::new(embedding) };
    let steps = |completion: &QualityJobCompletion, digest: &str| {
        SqliteStore::complete_quality_embedding_job("job-1", completion, "9", digest)
    };
    assert_eq!(steps(&succeeded, "00000000000000ff").map(|steps| steps.len()), Ok(4));
    assert_eq!(
        steps(&succeeded, ""),
        Err(StoreError::InvalidPointId("point".to_owned()))
    );
    let failed = QualityJobCompletion::Failed { error_summary: "busy".to_owned() };
    let steps_of_failure = steps(&failed, "").expect("a failure should be recorded");
    assert_eq!(steps_of_failure.len(), 3);
    assert_eq!(steps_of_failure[0], Command::Begin);
    assert_eq!(steps_of_failure[2], Command::Commit);
    assert_eq!(steps(&QualityJobCompletion::SkippedStale, "").map(|steps| steps.len()), Ok(3));
    let excluded = QualityJobCompletion::SkippedExcluded { reason: "secret".to_owned() };
    assert_eq!(steps(&excluded, "").map(|steps| steps.len()), Ok(3));
}

fn entry(chunk: &str, hash: &str) -> FastEmbeddingManifestRecord {
    FastEmbeddingManifestRecord {
        file_id: "file-1".to_owned(),
        chunk_id: chunk.to_owned(),
        content_hash: hash.to_owned(),
        text_hash: format!("text-{chunk}"),
        vector_point_id: "00000000000000ff".to_owned(),
    }
}

fn row(entry: &FastEmbeddingManifestRecord) -> Row {
    vec![
        text(&entry.file_id),
        text(&entry.chunk_id),
        text(&entry.content_hash),
        text(&entry.text_hash),
        text(&entry.vector_point_id),
    ]
}

#[test]
fn new_embeddings_take_the_place_of_known_ones() {
    let known = vec![row(&entry("b", "old")), row(&entry("c", "kept"))];
    let upserted = vec![entry("d", "first"), entry("b", "new"), entry("d", "last")];
    let manifest = fast_manifest(&known, &upserted).expect("rows should be read");
    assert_eq!(manifest, [entry("b", "new"), entry("c", "kept"), entry("d", "last")]);
    assert_eq!(
        fast_semantic_generation_id("repo-1", "fast", 384, &manifest[..1].to_vec()),
        [
            "semantic-generation",
            "repo-1",
            "fast",
            "fast",
            "384",
            "b",
            "new",
            "text-b"
        ]
    );
    let bad = vec![vec![text("file-1")]];
    let failure = StoreError::Column(BadColumn::Missing { index: 1 });
    assert_eq!(fast_manifest(&bad, &upserted), Err(failure));
}

#[test]
fn fast_generations_are_stored_whole() {
    let manifest = vec![entry("a", "1"), entry("b", "2")];
    let none = Vec::new();
    let input = FastSemanticGenerationInput {
        repository_id: "repo-1",
        repository_ref_id: None,
        fast_model: "fast",
        fast_dimension: 384,
        vector_table: "symdex_t",
        upserted_embeddings: &none,
        files_seen: 1,
        completed_at: "9",
    };
    let ids = vec!["id-a".to_owned(), "id-b".to_owned()];
    let digests = vec![String::new(), String::new()];
    let mut steps = SqliteStore::record_fast_semantic_generation(&input);
    steps.extend(
        SqliteStore::store_fast_generation(&input, "generation-1", &manifest, &ids, &digests)
            .expect("generation should be stored"),
    );
    assert_eq!(steps[0], Command::Begin);
    let commits: Vec<usize> = steps
        .iter()
        .enumerate()
        .filter(|(_, step)| **step == Command::Commit)
        .map(|(index, _)| index)
        .collect();
    assert_eq!(commits, [steps.len() - 2]);
    assert!(matches!(steps[steps.len() - 1], Command::Query(_)));
    assert_eq!(
        SqliteStore::recorded_generation("generation-1", &Vec::new()).is_err(),
        true
    );
}

fn aggregate(current: i64, stale: i64, total: i64) -> SemanticLayerManifestAggregate {
    SemanticLayerManifestAggregate {
        embedding_model: "fast".to_owned(),
        embedding_dimension: 384,
        vector_table: "symdex_t".to_owned(),
        current_chunks: current,
        stale_chunks: stale,
        blocked_chunks: 0,
        failed_chunks: 0,
        other_chunks: 0,
        total_chunks: total,
    }
}

#[test]
fn complete_layers_hold_what_is_expected() {
    let sum = |expected: usize, aggregate: SemanticLayerManifestAggregate| {
        SemanticLayerManifestSummary::from_aggregate(SemanticLayer::Fast, expected, aggregate)
    };
    assert!(sum(2, aggregate(2, 0, 2)).expect("counts should be read").is_complete);
    assert!(!sum(3, aggregate(2, 0, 2)).expect("counts should be read").is_complete);
    assert!(!sum(2, aggregate(2, 1, 3)).expect("counts should be read").is_complete);
    assert_eq!(
        sum(2, aggregate(2, -1, 2)).err(),
        Some(StoreError::UnexpectedResponse("negative stale chunk count".to_owned()))
    );
    let empty = |expected: usize| {
        SemanticLayerManifestSummary::empty(
            SemanticLayer::Quality,
            expected,
            "quality",
            768,
            "symdex_t".to_owned(),
        )
    };
    assert!(empty(0).is_complete);
    assert!(!empty(1).is_complete);
}

#[test]
fn routing_tells_both_layers() {
    let facts = RoutingFacts {
        fast: Vec::new(),
        progress: QualityGenerationFacts {
            embeddable: count(4),
            embedded: count(0),
            jobs: Vec::new(),
        },
        quality: Vec::new(),
    };
    let summary = SqliteStore::semantic_routing_summary_for_generation(&generation(), &facts)
        .expect("facts should be read");
    assert_eq!(summary.generation_id, "generation-1");
    assert_eq!(summary.active_layer, SemanticLayer::Fast);
    assert_eq!(summary.fast.embedding_dimension, 384);
    assert!(!summary.fast.is_complete);
    assert_eq!(summary.fast.vector_table, "symdex_repo_1_fast");
}

#[test]
fn point_ids_are_listed_once_in_order() {
    let rows = vec![vec![text("b")], vec![text("a")], vec![text("b")]];
    assert_eq!(point_ids(&rows), Ok(vec!["a".to_owned(), "b".to_owned()]));
    assert_eq!(
        point_ids(&vec![vec![SqlValue::Null]]),
        Err(StoreError::Column(BadColumn::Mistyped { index: 0, found: ValueType::Null }))
    );
}

#[test]
fn generations_recorded_again_keep_their_ids() {
    let upserted = vec![entry("b", "2"), entry("a", "1")];
    let first = fast_manifest(&Vec::new(), &upserted).expect("rows should be read");
    let stored: Vec<Row> = first.iter().rev().map(row).collect();
    let moved = FastEmbeddingManifestRecord {
        vector_point_id: "00000000000000fe".to_owned(),
        ..entry("a", "1")
    };
    let again = fast_manifest(&stored, &vec![moved]).expect("rows should be read");
    assert_ne!(first, again);
    assert_eq!(
        fast_semantic_generation_id("repo-1", "fast", 384, &first),
        fast_semantic_generation_id("repo-1", "fast", 384, &again)
    );
    let changed = fast_manifest(&stored, &vec![entry("a", "3")]).expect("rows should be read");
    assert_ne!(
        fast_semantic_generation_id("repo-1", "fast", 384, &first),
        fast_semantic_generation_id("repo-1", "fast", 384, &changed)
    );
}

#[test]
fn queueing_and_blocking_are_summed_up() {
    let job = QualityEmbeddingJobRecord {
        id: "job-1".to_owned(),
        repository_id: "repo-1".to_owned(),
        generation_id: "generation-1".to_owned(),
        chunk_id: "chunk-1".to_owned(),
        file_id: "file-1".to_owned(),
        path: "src/lib.rs".to_owned(),
        content_hash: "hash".to_owned(),
        text_hash: "text".to_owned(),
        status: "pending".to_owned(),
        attempts: 0,
        error_summary: None,
        created_at: "1".to_owned(),
        updated_at: "1".to_owned(),
    };
    let expected = QualityQueueSummary {
        repository_id: "repo-1".to_owned(),
        generation_id: "generation-1".to_owned(),
        quality_model: "quality".to_owned(),
        quality_status: SemanticLayerStatus::QualityPending,
        queued_jobs: 2,
        skipped_stale_jobs: 5,
    };
    let jobs = vec![job.clone(), job];
    assert_eq!(SqliteStore::queued_jobs_summary(&generation(), "quality", &jobs, 5), expected);
    assert_eq!(
        SqliteStore::blocked_generation_summary(&generation(), "quality", 3),
        QualityQueueSummary {
            quality_status: SemanticLayerStatus::QualityBlocked,
            queued_jobs: 0,
            skipped_stale_jobs: 3,
            ..expected
        }
    );
}

#[test]
fn recording_again_keeps_the_quality_columns() {
    assert_eq!(
        upsert_fast_generation(),
        "INSERT INTO semantic_generations (
      id, repository_id, fast_model, fast_dimension, fast_completed_at,
      quality_model, quality_dimension, quality_status, quality_started_at,
      quality_completed_at, active_layer, files_seen, embeddable_chunks,
      fast_embedded_chunks, quality_embedded_chunks, created_at, updated_at
    )
    VALUES (?1, ?2, ?3, ?4, ?5, ?6, ?7, ?8, ?9, ?10, ?11, ?12, ?13, ?14, ?15, ?16, ?17)
    ON CONFLICT(id) DO UPDATE SET
      repository_id = excluded.repository_id,
      fast_model = excluded.fast_model,
      fast_dimension = excluded.fast_dimension,
      fast_completed_at = excluded.fast_completed_at,
      quality_model = semantic_generations.quality_model,
      quality_dimension = semantic_generations.quality_dimension,
      quality_status = semantic_generations.quality_status,
      quality_started_at = semantic_generations.quality_started_at,
      quality_completed_at = semantic_generations.quality_completed_at,
      active_layer = semantic_generations.active_layer,
      files_seen = excluded.files_seen,
      embeddable_chunks = excluded.embeddable_chunks,
      fast_embedded_chunks = excluded.fast_embedded_chunks,
      quality_embedded_chunks = semantic_generations.quality_embedded_chunks,
      updated_at = excluded.updated_at"
    );
}
