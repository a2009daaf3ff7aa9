//! Vector points on their way to the database and back.

use symdex_store::config::StoreConfig;
use symdex_store::error::{BadColumn, StoreError, ValueType};
use symdex_store::naming::vector_rowid;
use symdex_store::sql::{collect_rows, Command, Real, SqlValue, Statement};
use symdex_store::vector::{
    MatchedPoint, PointPayload, RetrievedPoint, SqliteVectorStore, VectorPoint,
    VECTOR_POINTS_TABLE,
};

fn payload() -> PointPayload {
    PointPayload {
        repository_id: "repo-1".to_owned(),
        file_id: "file-1".to_owned(),
        chunk_id: "chunk-1".to_owned(),
        symbol_id: Some("symbol-1".to_owned()),
        symbol_name: None,
        path: "src/lib.rs".to_owned(),
        language: "rust".to_owned(),
        chunk_kind: "function".to_owned(),
        start_line: 3,
        end_line: 9,
        text_hash: "hash".to_owned(),
        parser_version: Some("1".to_owned()),
        content_hash: None,
        index_run_id: Some("run-1".to_owned()),
        embedding_model: Some("model".to_owned()),
        embedding_dimension: Some(2),
        indexed_at: None,
    }
}

fn components(vector: &[f32]) -> Vec<u32> {
    vector.iter().map(|component| component.to_bits()).collect()
}

fn bytes(vector: &[f32]) -> SqlValue {
    SqlValue::Blob(vector.iter().flat_map(|component| component.to_ne_bytes()).collect())
}

fn point(id: &str, vector: &[f32]) -> VectorPoint {
    VectorPoint { id: id.to_owned(), vector: components(vector), payload: payload() }
}

fn statement(command: &Command) -> &Statement {
    match command {
        Command::Execute(statement) | Command::Query(statement) => statement,
        _ => panic!("a statement was expected"),
    }
}

const ID: &str = "01234567-89ab-cdef-fedc-ba9876543210";

#[test]
fn points_are_stored_in_one_transaction() {
    let points = vec![point(ID, &[1.0, -0.5]), point("ffffffffffffffff", &[0.0, 2.5])];
    let digests = vec![String::new(), String::new()];
    let steps = SqliteVectorStore::upsert_points("symdex_t", &points, &digests)
        .expect("points should be stored");
    assert_eq!(steps.len(), 8);
    assert_eq!(steps[0], Command::Begin);
    assert_eq!(steps[7], Command::Commit);
    assert_eq!(statement(&steps[1]).sql, "DELETE FROM symdex_t WHERE rowid = ?1");
    assert_eq!(statement(&steps[1]).params, [SqlValue::Integer(81_985_529_216_486_895)]);
    assert_eq!(
        statement(&steps[2]).sql,
        "INSERT INTO symdex_t(rowid, embedding) VALUES (?1, ?2)"
    );
    assert_eq!(
        statement(&steps[2]).params,
        [SqlValue::Integer(81_985_529_216_486_895), bytes(&[1.0, -0.5])]
    );
    assert_eq!(
        statement(&steps[5]).params,
        [SqlValue::Integer(i64::MAX), bytes(&[0.0, 2.5])]
    );
}

#[test]
fn stored_points_are_read_back() {
    let steps = SqliteVectorStore::upsert_points(
        "symdex_t",
        &vec![point(ID, &[1.0, 0.0])],
        &vec![String::new()],
    )
    .expect("points should be stored");
    let row = statement(&steps[3]).params[2..].to_vec();
    let read: Vec<RetrievedPoint> = collect_rows(&vec![row.clone()]).expect("row should be read");
    assert_eq!(read, [RetrievedPoint { id: ID.to_owned(), payload: payload() }]);

    let mut bad = row;
    bad[9] = SqlValue::Text("three".to_owned());
    let read: Result<Vec<RetrievedPoint>, StoreError> = collect_rows(&vec![bad]);
    let failure = StoreError::Column(BadColumn::Mistyped { index: 9, found: ValueType::Text });
    assert_eq!(read, Err(failure));
}

#[test]
fn matched_points_have_a_distance() {
    let steps = SqliteVectorStore::upsert_points(
        "symdex_t",
        &vec![point(ID, &[1.0, 0.0])],
        &vec![String::new()],
    )
    .expect("points should be stored");
    let mut row = statement(&steps[3]).params[2..].to_vec();
    row.insert(1, SqlValue::Real(Real { bits: 0.25_f64.to_bits() }));
    let mut whole = row.clone();
    whole[1] = SqlValue::Integer(2);
    let mut bad = row.clone();
    bad[1] = SqlValue::Null;
    let read: Vec<MatchedPoint> = SqliteVectorStore::matched_points(&Some(vec![row, whole]))
        .expect("rows should be read");
    assert_eq!(read.len(), 2);
    assert_eq!(read[0].id, ID);
    assert_eq!(f64::from_bits(read[0].distance.bits), 0.25);
    assert_eq!(f64::from_bits(read[1].distance.bits), 2.0);
    let failure = StoreError::Column(BadColumn::Mistyped { index: 1, found: ValueType::Null });
    assert_eq!(SqliteVectorStore::matched_points(&Some(vec![bad])), Err(failure));
    assert_eq!(read[0].payload, payload());
}

#[test]
fn points_without_a_row_are_refused() {
    let points = vec![point(ID, &[1.0]), point(" ", &[1.0])];
    let digests = vec![String::new(), "00000000000000ff".to_owned()];
    assert_eq!(
        SqliteVectorStore::upsert_points("symdex_t", &points, &digests),
        Err(StoreError::InvalidPointId(" ".to_owned()))
    );
    assert_eq!(
        SqliteVectorStore::delete_points("symdex_t", &vec!["x".to_owned()], &vec![String::new()]),
        Err(StoreError::InvalidPointId("x".to_owned()))
    );
    assert_eq!(
        SqliteVectorStore::prepare_delete("symdex_t", &vec!["x".to_owned()]),
        Ok(vec![Command::Batch(VECTOR_POINTS_TABLE.to_owned())])
    );
}

#[test]
fn points_are_checked_before_they_are_stored() {
    let check = |table: &str, points: Vec<VectorPoint>| {
        SqliteVectorStore::check_points(table, &points)
    };
    assert_eq!(check("symdex_t", Vec::new()), Ok(None));
    assert_eq!(check("symdex_t", vec![point(ID, &[1.0, 2.0])]), Ok(Some(2)));
    let uneven = vec![point(" ", &[1.0]), point(ID, &[1.0, 2.0])];
    let refused = [
        ("../bad", Vec::new(), StoreError::InvalidVectorTableName("../bad".to_owned())),
        (
            "symdex-t",
            vec![point(ID, &[])],
            StoreError::InvalidVectorTableName("symdex-t".to_owned()),
        ),
        ("symdex_t", vec![point(" ", &[])], StoreError::InvalidVectorSize(0)),
        ("symdex_t", uneven, StoreError::InconsistentVectorDimensions),
    ];
    for (table, points, failure) in refused {
        let digests = vec![String::new(); points.len()];
        assert_eq!(check(table, points.clone()), Err(failure.clone()));
        assert_eq!(
            SqliteVectorStore::upsert_points(table, &points, &digests),
            Err(failure)
        );
    }
    assert_eq!(
        SqliteVectorStore::upsert_points("symdex_t", &Vec::new(), &Vec::new()),
        Ok(Vec::new())
    );
}

#[test]
fn points_are_deleted_where_they_were_stored() {
    let ids = vec![ID.to_owned()];
    let digests = vec![String::new()];
    let steps = SqliteVectorStore::delete_points("symdex_t", &ids, &digests)
        .expect("points should be deleted");
    assert_eq!(
        SqliteVectorStore::prepare_delete("symdex_t", &ids),
        Ok(vec![Command::Batch(VECTOR_POINTS_TABLE.to_owned())])
    );
    assert_eq!(steps.len(), 4);
    assert_eq!(steps[0], Command::Begin);
    assert_eq!(steps[3], Command::Commit);
    assert_eq!(
        statement(&steps[1]).params,
        [SqlValue::Integer(vector_rowid(ID, "").expect("rowid should build"))]
    );
    assert_eq!(
        statement(&steps[2]).params,
        [SqlValue::Text("symdex_t".to_owned()), SqlValue::Text(ID.to_owned())]
    );
    assert_eq!(
        SqliteVectorStore::delete_points("symdex_t", &Vec::new(), &Vec::new()),
        Ok(Vec::new())
    );
    assert_eq!(SqliteVectorStore::prepare_delete("symdex_t", &Vec::new()), Ok(Vec::new()));
    let failure = StoreError::InvalidVectorTableName("../bad".to_owned());
    assert_eq!(SqliteVectorStore::prepare_delete("../bad", &ids), Err(failure.clone()));
    assert_eq!(SqliteVectorStore::delete_points("../bad", &ids, &digests), Err(failure));
}

#[test]
fn tables_are_created_once() {
    let (steps, created) = SqliteVectorStore::create_table("symdex_t", 384, false);
    assert!(created);
    assert_eq!(steps.len(), 1);
    assert_eq!(
        statement(&steps[0]).sql,
        "CREATE VIRTUAL TABLE IF NOT EXISTS symdex_t USING vec0(embedding float[384] \
         distance_metric=cosine)"
    );
    assert_eq!(SqliteVectorStore::create_table("symdex_t", 384, true), (Vec::new(), false));
    assert_eq!(
        SqliteVectorStore::ensure_table("symdex_t", 0),
        Err(StoreError::InvalidVectorSize(0))
    );
    assert_eq!(
        SqliteVectorStore::ensure_table("", 0),
        Err(StoreError::InvalidVectorTableName(String::new()))
    );
    assert!(SqliteVectorStore::ensure_table("symdex_t", 1).is_ok());
    assert!(SqliteVectorStore::table_exists("symdex t").is_err());
    assert_eq!(SqliteVectorStore::health_check().sql, "SELECT vec_version()");
}

#[test]
fn searches_bind_the_bytes_of_the_vector() {
    let vector = components(&[0.25, f32::NAN, -0.0]);
    let statement = SqliteVectorStore::nearest_points("symdex_t", &vector, 5, true)
        .expect("the table is there");
    assert!(statement.sql.contains("FROM symdex_t"));
    assert_eq!(
        statement.params,
        [
            bytes(&[0.25, f32::NAN, -0.0]),
            SqlValue::Integer(5),
            SqlValue::Text("symdex_t".to_owned()),
        ]
    );
    let for_ref = |present: bool| {
        SqliteVectorStore::nearest_points_for_ref(
            "symdex_t", "repo-1", "ref-1", &vector, 5, present,
        )
    };
    let statement = for_ref(true).expect("the table is there");
    assert_eq!(statement.params.len(), 5);
    assert_eq!(statement.params[0], bytes(&[0.25, f32::NAN, -0.0]));
    assert_eq!(statement.params[4], SqlValue::Text("ref-1".to_owned()));
    assert_eq!(for_ref(false), None);
    assert_eq!(SqliteVectorStore::nearest_points("symdex_t", &vector, 5, false), None);
    assert_eq!(SqliteVectorStore::matched_points(&None), Ok(Vec::new()));
}

#[test]
fn searches_need_a_vector_and_a_limit() {
    let vector = components(&[1.0]);
    assert!(SqliteVectorStore::query_points("symdex_t", &vector, 1).is_ok());
    assert_eq!(
        SqliteVectorStore::query_points_for_ref("symdex_t", &vector, 1),
        SqliteVectorStore::query_points("symdex_t", &vector, 1)
    );
    assert_eq!(
        SqliteVectorStore::query_points_for_ref("symdex_t", &vector, 0),
        Err(StoreError::InvalidLimit(0))
    );
    assert_eq!(
        SqliteVectorStore::query_points("symdex_t", &Vec::new(), 0),
        Err(StoreError::InvalidVectorSize(0))
    );
    assert_eq!(
        SqliteVectorStore::query_points("symdex_t", &vector, 0),
        Err(StoreError::InvalidLimit(0))
    );
    assert_eq!(
        SqliteVectorStore::query_points("", &vector, 0),
        Err(StoreError::InvalidVectorTableName(String::new()))
    );
    assert!(SqliteVectorStore::scroll_points_for_repository("bad name", "repo-1").is_err());
}

#[test]
fn stores_keep_the_path_of_the_database() {
    let config = StoreConfig { sqlite_path: "/data/symdex.sqlite".to_owned() };
    assert_eq!(SqliteVectorStore::new(&config).sqlite_path, "/data/symdex.sqlite");
    assert_eq!(
        SqliteVectorStore::opening(),
        [Command::Batch("PRAGMA journal_mode = WAL;\nPRAGMA foreign_keys = ON;".to_owned())]
    );
}
