//! The queries of summaries, and the facts in their answers.

use symdex_store::error::{BadColumn, StoreError, ValueType};
use symdex_store::generations::RoutingFacts;
use symdex_store::quality::{QualityActivationFacts, QualityGenerationFacts};
use symdex_store::records::{FileCoverageStatus, SemanticGenerationRecord};
use symdex_store::rows::FileCoverageBaseRow;
use symdex_store::schema::UniquePath;
use symdex_store::sql::{collect_all_rows, collect_only_rows, Command, Row, SqlValue};
use symdex_store::store::SqliteStore;
use symdex_store::summaries::{
    CrossStoreFacts, EmbeddingFacts, FileDetailFacts, RepositoryFacts, StorageFacts,
};

fn text(value: &str) -> SqlValue {
    SqlValue::Text(value.to_owned())
}

/// Answers that can be told apart: the answer `i` has one row, which holds `i`.
fn answers(number: i64) -> Vec<Vec<Row>> {
    (0..number).map(answer).collect()
}

fn answer(index: i64) -> Vec<Row> {
    vec![vec![SqlValue::Integer(index)]]
}

fn generation() -> Option<SemanticGenerationRecord> {
    Some(SemanticGenerationRecord {
        id: "generation-1".to_owned(),
        repository_id: "repo-1".to_owned(),
        fast_model: "fast".to_owned(),
        fast_dimension: 384,
        fast_completed_at: "1".to_owned(),
        quality_model: None,
        quality_dimension: None,
        quality_status: "fast_ready".to_owned(),
        quality_started_at: None,
        quality_completed_at: None,
        active_layer: "fast".to_owned(),
        files_seen: 1,
        embeddable_chunks: 4,
        fast_embedded_chunks: 4,
        quality_embedded_chunks: 0,
        created_at: "1".to_owned(),
        updated_at: "1".to_owned(),
    })
}

#[test]
fn facts_keep_the_order_of_the_answers() {
    let facts = RepositoryFacts::from_answers(answers(7));
    assert_eq!(facts.files, answer(0));
    assert_eq!(facts.chunks, answer(1));
    assert_eq!(facts.last_indexed_at, answer(2));
    assert_eq!(facts.embedding, answer(3));
    assert_eq!(facts.current_ref, answer(4));
    assert_eq!(facts.symbols, answer(5));
    assert_eq!(facts.calls, answer(6));
    let facts = StorageFacts::from_answers(answers(10));
    assert_eq!(facts.status.calls, answer(6));
    assert_eq!(facts.repositories, answer(7));
    assert_eq!(facts.index_runs, answer(8));
    assert_eq!(facts.projection, answer(9));
    let facts = EmbeddingFacts::from_answers(answers(9));
    assert_eq!(facts.projection, answer(7));
    assert_eq!(facts.exclusions, answer(8));
    let facts = CrossStoreFacts::from_answers(answers(3));
    assert_eq!((facts.projection, facts.embedding), (answer(0), answer(1)));
    assert_eq!(facts.dimensions, answer(2));
    let facts = QualityGenerationFacts::from_answers(answers(3));
    assert_eq!((facts.embeddable, facts.embedded), (answer(0), answer(1)));
    assert_eq!(facts.jobs, answer(2));
    let facts = QualityActivationFacts::from_answers(answers(4));
    assert_eq!((facts.generation, facts.latest), (answer(0), answer(1)));
    assert_eq!((facts.embedded, facts.jobs), (answer(2), answer(3)));
    let facts = RoutingFacts::from_answers(answers(5));
    assert_eq!((facts.fast, facts.quality), (answer(0), answer(4)));
    assert_eq!(facts.progress.jobs, answer(3));
}

#[test]
fn details_are_three_answers_a_file() {
    let details = FileDetailFacts::from_answers(answers(6));
    assert_eq!(details.len(), 2);
    assert_eq!(details[0].chunks, answer(0));
    assert_eq!(details[0].symbols, answer(1));
    assert_eq!(details[0].calls, answer(2));
    assert_eq!(details[1].chunks, answer(3));
    assert_eq!(details[1].symbols, answer(4));
    assert_eq!(details[1].calls, answer(5));
    assert!(FileDetailFacts::from_answers(Vec::new()).is_empty());
}

#[test]
fn summaries_have_as_many_queries_as_facts() {
    let generation = generation();
    assert_eq!(SqliteStore::repository_status("repo-1").len(), 7);
    assert_eq!(SqliteStore::storage_explorer_queries("repo-1", &generation).len(), 10);
    assert_eq!(SqliteStore::embedding_coverage_queries("repo-1", &generation).len(), 9);
    assert_eq!(SqliteStore::cross_store_queries("repo-1", &None).len(), 2);
    assert_eq!(SqliteStore::refresh_quality_activation("repo-1", "generation-1").len(), 5);
    assert_eq!(SqliteStore::quality_generation_progress("repo-1", "generation-1").len(), 3);
    assert_eq!(SqliteStore::context_pack_queries("repo-1", "a").len(), 3);
    assert_eq!(SqliteStore::context_pack_for_ref_queries("repo-1", "ref-1", "a").len(), 3);
    let current = generation.as_ref().expect("there is a generation");
    assert_eq!(SqliteStore::semantic_routing_queries(current).len(), 5);
    let base = FileCoverageBaseRow {
        file_id: "file-1".to_owned(),
        path: "src/lib.rs".to_owned(),
        language: "rust".to_owned(),
        chunks: 0,
        symbols: 0,
        calls: 0,
        embeddable_chunks: 0,
        vector_backed_chunks: 0,
        excluded_chunks: 0,
        status: FileCoverageStatus::MetadataOnly,
    };
    let steps = SqliteStore::file_detail_queries(&vec![base.clone(), base], &generation);
    assert_eq!(steps.len(), 6);
    match &steps[3] {
        Command::Query(statement) => {
            assert_eq!(statement.params, [text("file-1"), text("generation-1")]);
        }
        _ => panic!("a query was expected"),
    }
}

#[test]
fn dimensions_are_those_of_the_projected_model() {
    let statement = |rows: &Vec<Row>| SqliteStore::cross_store_dimensions("repo-1", "new", rows);
    let run = vec![vec![text("old"), SqlValue::Integer(3), SqlValue::Integer(1)]];
    let params = |rows: &Vec<Row>| statement(rows).map(|statement| statement.params);
    assert_eq!(params(&run), Ok(vec![text("repo-1"), text("old")]));
    assert_eq!(params(&Vec::new()), Ok(vec![text("repo-1"), text("new")]));
    let failure = StoreError::Column(BadColumn::Mistyped { index: 0, found: ValueType::Null });
    assert_eq!(params(&vec![vec![SqlValue::Null]]), Err(failure));
    assert_eq!(SqliteStore::semantic_neighborhood_query("repo-1", &None), None);
    assert!(SqliteStore::semantic_neighborhood_query("repo-1", &generation()).is_some());
    assert_eq!(
        SqliteStore::index_coverage_query("repo-1", &None).params,
        [text("repo-1"), SqlValue::Null]
    );
}

#[test]
fn answers_are_read_one_behind_the_other() {
    let found = vec![vec![vec![text("a")], vec![text("b")]], Vec::new(), vec![vec![text("c")]]];
    assert_eq!(
        collect_all_rows::<String>(&found),
        Ok(vec!["a".to_owned(), "b".to_owned(), "c".to_owned()])
    );
    let failure = StoreError::Column(BadColumn::Mistyped { index: 0, found: ValueType::Text });
    assert_eq!(collect_all_rows::<i64>(&found), Err(failure));
    assert_eq!(collect_only_rows::<i64>(&answers(3)), Ok(vec![0, 1, 2]));
    assert_eq!(collect_only_rows::<String>(&found), Err(StoreError::NoRows));
}

#[test]
fn the_first_index_that_makes_paths_unique_decides() {
    let columns = |names: &[&str]| -> Vec<Row> {
        names
            .iter()
            .map(|name| vec![SqlValue::Integer(0), SqlValue::Integer(0), text(name)])
            .collect()
    };
    let unique = columns(&["repository_id", "path"]);
    let other = columns(&["id"]);
    let bad = vec![vec![SqlValue::Null]];
    let index = |name: &str, unique: i64| {
        vec![SqlValue::Integer(0), text(name), SqlValue::Integer(unique)]
    };
    let unreadable = vec![SqlValue::Integer(0)];
    let decide = |indexes: &Vec<Row>, answers: Vec<Vec<Row>>| {
        SqliteStore::files_has_unique_repository_path_constraint(indexes, &answers)
    };
    let known = |unique: bool| Ok(UniquePath::Known(unique));
    let indexes = vec![
        index("plain", 0),
        index("one", 1),
        index("t\"wo", 2),
        unreadable.clone(),
    ];
    let ask = |name: &str| Ok(UniquePath::Ask(SqliteStore::index_columns(name)));
    assert_eq!(decide(&indexes, Vec::new()), ask("one"));
    assert_eq!(decide(&indexes, vec![unique.clone()]), known(true));
    assert_eq!(decide(&indexes, vec![other.clone()]), ask("t\"wo"));
    assert_eq!(decide(&indexes, vec![other.clone(), unique.clone()]), known(true));
    assert_eq!(
        decide(&indexes, vec![bad, unique]),
        Err(StoreError::Column(BadColumn::Missing { index: 2 }))
    );
    assert_eq!(
        decide(&indexes, vec![other.clone(), other.clone()]),
        Err(StoreError::Column(BadColumn::Missing { index: 1 }))
    );
    assert_eq!(decide(&indexes[..2].to_vec(), vec![other]), known(false));
    assert_eq!(decide(&indexes[..1].to_vec(), Vec::new()), known(false));
    assert_eq!(
        decide(&vec![unreadable], Vec::new()),
        Err(StoreError::Column(BadColumn::Missing { index: 1 }))
    );
}
