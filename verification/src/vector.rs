//! The vector store: points, their payloads, and the searches for them.

use vstd::prelude::*;
use crate::conditions::{all_met_by, all_written, conditions_text, Condition, Operand, Record};
use crate::config::StoreConfig;
use crate::error::{is_fault, StoreError};
use crate::naming::{is_table_name, rowid_of, validate_vector_table_name, vector_rowid};
use crate::sql::{
    all_of, check_fields, check_row, closes_at, collect_rows, count, count_value, in_order,
    is_boundary, is_transaction, optional, optional_count, optional_count_value,
    optional_owned_value, optional_size_at, optional_size_in, optional_text_at, optional_text_in,
    owned_value, real_at, real_in, rows_fault, script, size_at, size_in, statement, statement_of,
    text, text_at, text_value, unfit, values, Column, Command, CommandView, Field, FromRow, Real,
    Row, SqlValue, Statement, StatementView, Value,
};
use crate::text::{decimal, decimal_digits, optional_text, surrounded};

verus! {

/// Changes are written ahead, and foreign keys are enforced.
pub const VECTOR_CONNECTION: &'static str = "PRAGMA journal_mode = WAL;
PRAGMA foreign_keys = ON;";

/// What is known of the chunk behind a vector point.
#[derive(Debug, Clone, PartialEq, Eq)]
pub struct PointPayload {
    pub repository_id: String,
    pub file_id: String,
    pub chunk_id: String,
    pub symbol_id: Option<String>,
    pub symbol_name: Option<String>,
    pub path: String,
    pub language: String,
    pub chunk_kind: String,
    pub start_line: usize,
    pub end_line: usize,
    pub text_hash: String,
    pub parser_version: Option<String>,
    pub content_hash: Option<String>,
    pub index_run_id: Option<String>,
    pub embedding_model: Option<String>,
    pub embedding_dimension: Option<usize>,
    pub indexed_at: Option<String>,
}

/// A point of the vector store. The components of the vector are single-precision numbers, held
/// by their bits.
#[derive(Debug, Clone, PartialEq, Eq)]
pub struct VectorPoint {
    pub id: String,
    pub vector: Vec<u32>,
    pub payload: PointPayload,
}

/// A point that a scroll through the vector store found.
#[derive(Debug, Clone, PartialEq, Eq)]
pub struct RetrievedPoint {
    pub id: String,
    pub payload: PointPayload,
}

/// A point that a search found, with its distance from the vector searched for.
#[derive(Debug, Clone, PartialEq, Eq)]
pub struct MatchedPoint {
    pub id: String,
    pub distance: Real,
    pub payload: PointPayload,
}

impl FromRow for RetrievedPoint {
    open spec fn fields() -> Seq<Field> {
        in_order(
            seq![
                Column::Text,
                Column::Text,
                Column::Text,
                Column::Text,
                Column::TextOrNull,
                Column::TextOrNull,
                Column::Text,
                Column::Text,
                Column::Text,
                Column::Integer,
                Column::Integer,
                Column::Text,
                Column::TextOrNull,
                Column::TextOrNull,
                Column::TextOrNull,
                Column::TextOrNull,
                Column::IntegerOrNull,
                Column::TextOrNull,
            ],
        )
    }

    open spec fn of(row: Seq<SqlValue>) -> Self {
        RetrievedPoint {
            id: row[0]->Text_0,
            payload: PointPayload {
                repository_id: row[1]->Text_0,
                file_id: row[2]->Text_0,
                chunk_id: row[3]->Text_0,
                symbol_id: optional_text_in(row[4]),
                symbol_name: optional_text_in(row[5]),
                path: row[6]->Text_0,
                language: row[7]->Text_0,
                chunk_kind: row[8]->Text_0,
                start_line: size_in(row[9]),
                end_line: size_in(row[10]),
                text_hash: row[11]->Text_0,
                parser_version: optional_text_in(row[12]),
                content_hash: optional_text_in(row[13]),
                index_run_id: optional_text_in(row[14]),
                embedding_model: optional_text_in(row[15]),
                embedding_dimension: optional_size_in(row[16]),
                indexed_at: optional_text_in(row[17]),
            },
        }
    }

    fn from_row(row: &Row) -> (r: Result<Self, StoreError>) {
        let kinds = vec![
            Column::Text,
            Column::Text,
            Column::Text,
            Column::Text,
            Column::TextOrNull,
            Column::TextOrNull,
            Column::Text,
            Column::Text,
            Column::Text,
            Column::Integer,
            Column::Integer,
            Column::Text,
            Column::TextOrNull,
            Column::TextOrNull,
            Column::TextOrNull,
            Column::TextOrNull,
            Column::IntegerOrNull,
            Column::TextOrNull,
        ];
        proof {
            assert(in_order(kinds@) =~= Self::fields());
        }
        match check_row(row, &kinds) {
            Ok(_) => Ok(
                RetrievedPoint {
                    id: text_at(row, 0),
                    payload: PointPayload {
                        repository_id: text_at(row, 1),
                        file_id: text_at(row, 2),
                        chunk_id: text_at(row, 3),
                        symbol_id: optional_text_at(row, 4),
                        symbol_name: optional_text_at(row, 5),
                        path: text_at(row, 6),
                        language: text_at(row, 7),
                        chunk_kind: text_at(row, 8),
                        start_line: size_at(row, 9),
                        end_line: size_at(row, 10),
                        text_hash: text_at(row, 11),
                        parser_version: optional_text_at(row, 12),
                        content_hash: optional_text_at(row, 13),
                        index_run_id: optional_text_at(row, 14),
                        embedding_model: optional_text_at(row, 15),
                        embedding_dimension: optional_size_at(row, 16),
                        indexed_at: optional_text_at(row, 17),
                    },
                },
            ),
            Err(error) => Err(error),
        }
    }
}

impl FromRow for MatchedPoint {
    open spec fn fields() -> Seq<Field> {
        seq![
            Field { at: 1, kind: Column::Real },
            Field { at: 0, kind: Column::Text },
            Field { at: 2, kind: Column::Text },
            Field { at: 3, kind: Column::Text },
            Field { at: 4, kind: Column::Text },
            Field { at: 5, kind: Column::TextOrNull },
            Field { at: 6, kind: Column::TextOrNull },
            Field { at: 7, kind: Column::Text },
            Field { at: 8, kind: Column::Text },
            Field { at: 9, kind: Column::Text },
            Field { at: 10, kind: Column::Integer },
            Field { at: 11, kind: Column::Integer },
            Field { at: 12, kind: Column::Text },
            Field { at: 13, kind: Column::TextOrNull },
            Field { at: 14, kind: Column::TextOrNull },
            Field { at: 15, kind: Column::TextOrNull },
            Field { at: 16, kind: Column::TextOrNull },
            Field { at: 17, kind: Column::IntegerOrNull },
            Field { at: 18, kind: Column::TextOrNull },
        ]
    }

    open spec fn of(row: Seq<SqlValue>) -> Self {
        MatchedPoint {
            id: row[0]->Text_0,
            distance: real_in(row[1]),
            payload: PointPayload {
                repository_id: row[2]->Text_0,
                file_id: row[3]->Text_0,
                chunk_id: row[4]->Text_0,
                symbol_id: optional_text_in(row[5]),
                symbol_name: optional_text_in(row[6]),
                path: row[7]->Text_0,
                language: row[8]->Text_0,
                chunk_kind: row[9]->Text_0,
                start_line: size_in(row[10]),
                end_line: size_in(row[11]),
                text_hash: row[12]->Text_0,
                parser_version: optional_text_in(row[13]),
                content_hash: optional_text_in(row[14]),
                index_run_id: optional_text_in(row[15]),
                embedding_model: optional_text_in(row[16]),
                embedding_dimension: optional_size_in(row[17]),
                indexed_at: optional_text_in(row[18]),
            },
        }
    }

    fn from_row(row: &Row) -> (r: Result<Self, StoreError>) {
        let fields = vec![
            Field { at: 1, kind: Column::Real },
            Field { at: 0, kind: Column::Text },
            Field { at: 2, kind: Column::Text },
            Field { at: 3, kind: Column::Text },
            Field { at: 4, kind: Column::Text },
            Field { at: 5, kind: Column::TextOrNull },
            Field { at: 6, kind: Column::TextOrNull },
            Field { at: 7, kind: Column::Text },
            Field { at: 8, kind: Column::Text },
            Field { at: 9, kind: Column::Text },
            Field { at: 10, kind: Column::Integer },
            Field { at: 11, kind: Column::Integer },
            Field { at: 12, kind: Column::Text },
            Field { at: 13, kind: Column::TextOrNull },
            Field { at: 14, kind: Column::TextOrNull },
            Field { at: 15, kind: Column::TextOrNull },
            Field { at: 16, kind: Column::TextOrNull },
            Field { at: 17, kind: Column::IntegerOrNull },
            Field { at: 18, kind: Column::TextOrNull },
        ];
        proof {
            assert(fields@ =~= Self::fields());
        }
        match check_fields(row, &fields) {
            Ok(_) => {
                proof {
                    assert(!unfit(row@, fields@[0]));
                    assert(!unfit(row@, fields@[1]));
                    assert(!unfit(row@, fields@[2]));
                    assert(!unfit(row@, fields@[3]));
                    assert(!unfit(row@, fields@[4]));
                    assert(!unfit(row@, fields@[5]));
                    assert(!unfit(row@, fields@[6]));
                    assert(!unfit(row@, fields@[7]));
                    assert(!unfit(row@, fields@[8]));
                    assert(!unfit(row@, fields@[9]));
                    assert(!unfit(row@, fields@[10]));
                    assert(!unfit(row@, fields@[11]));
                    assert(!unfit(row@, fields@[12]));
                    assert(!unfit(row@, fields@[13]));
                    assert(!unfit(row@, fields@[14]));
                    assert(!unfit(row@, fields@[15]));
                    assert(!unfit(row@, fields@[16]));
                    assert(!unfit(row@, fields@[17]));
                    assert(!unfit(row@, fields@[18]));
                }
                Ok(
                    MatchedPoint {
                        id: text_at(row, 0),
                        distance: real_at(row, 1),
                        payload: PointPayload {
                            repository_id: text_at(row, 2),
                            file_id: text_at(row, 3),
                            chunk_id: text_at(row, 4),
                            symbol_id: optional_text_at(row, 5),
                            symbol_name: optional_text_at(row, 6),
                            path: text_at(row, 7),
                            language: text_at(row, 8),
                            chunk_kind: text_at(row, 9),
                            start_line: size_at(row, 10),
                            end_line: size_at(row, 11),
                            text_hash: text_at(row, 12),
                            parser_version: optional_text_at(row, 13),
                            content_hash: optional_text_at(row, 14),
                            index_run_id: optional_text_at(row, 15),
                            embedding_model: optional_text_at(row, 16),
                            embedding_dimension: optional_size_at(row, 17),
                            indexed_at: optional_text_at(row, 18),
                        },
                    },
                )
            },
            Err(error) => Err(error),
        }
    }
}

/// The vector store of a database.
#[derive(Debug, Clone, PartialEq, Eq)]
pub struct SqliteVectorStore {
    pub sqlite_path: String,
}

/// The table of what is known of the points, with its indexes.
pub const VECTOR_POINTS_TABLE: &'static str = "CREATE TABLE IF NOT EXISTS vector_points (
      vector_store TEXT NOT NULL,
      vector_table TEXT NOT NULL,
      vector_rowid INTEGER NOT NULL,
      vector_point_id TEXT NOT NULL,
      repository_id TEXT NOT NULL,
      file_id TEXT NOT NULL,
      chunk_id TEXT NOT NULL,
      symbol_id TEXT,
      symbol_name TEXT,
      path TEXT NOT NULL,
      language TEXT NOT NULL,
      chunk_kind TEXT NOT NULL,
      start_line INTEGER NOT NULL,
      end_line INTEGER NOT NULL,
      text_hash TEXT NOT NULL,
      parser_version TEXT,
      content_hash TEXT,
      index_run_id TEXT,
      embedding_model TEXT,
      embedding_dimension INTEGER,
      indexed_at TEXT,
      PRIMARY KEY(vector_store, vector_table, vector_point_id),
      UNIQUE(vector_store, vector_table, vector_rowid)
    );
    CREATE INDEX IF NOT EXISTS idx_vector_points_repository_table
      ON vector_points(repository_id, vector_store, vector_table);
    CREATE INDEX IF NOT EXISTS idx_vector_points_chunk
      ON vector_points(chunk_id);";

/// The search for the nearest points, up to the name of the table.
pub const NEAREST_POINTS_HEAD: &'static str = "WITH matches AS (
      SELECT rowid, distance
      FROM ";

/// The search for the nearest points, behind the name of the table.
pub const NEAREST_POINTS_TAIL: &'static str = "
      WHERE embedding MATCH ?1 AND k = ?2
    )
    SELECT vector_points.vector_point_id, matches.distance,
           vector_points.repository_id, vector_points.file_id,
           vector_points.chunk_id, vector_points.symbol_id,
           vector_points.symbol_name, vector_points.path,
           vector_points.language, vector_points.chunk_kind,
           vector_points.start_line, vector_points.end_line,
           vector_points.text_hash, vector_points.parser_version,
           vector_points.content_hash, vector_points.index_run_id,
           vector_points.embedding_model, vector_points.embedding_dimension,
           vector_points.indexed_at
    FROM matches
    JOIN vector_points
      ON vector_points.vector_store = 'sqlite_vec'
     AND vector_points.vector_table = ?3
     AND vector_points.vector_rowid = matches.rowid
    ORDER BY matches.distance ASC";

/// The search for the nearest points of a ref, up to how points and refs are joined.
pub const NEAREST_POINTS_FOR_REF_START: &'static str = "WITH eligible AS (
      SELECT vector_points.vector_rowid
      FROM vector_points
      JOIN ref_files ON ";

/// The search for the nearest points of a ref, between how points and refs are joined and which
/// points are searched.
pub const NEAREST_POINTS_FOR_REF_WHERE: &'static str = "
      WHERE ";

/// The search for the nearest points of a ref, between which points are searched and the name of
/// the table.
pub const NEAREST_POINTS_FOR_REF_HEAD: &'static str = "
    ),
    matches AS (
      SELECT rowid, distance
      FROM ";

/// The search for the nearest points of a ref, behind the name of the table.
pub const NEAREST_POINTS_FOR_REF_TAIL: &'static str = "
      WHERE embedding MATCH ?1
        AND k = ?2
        AND rowid IN (SELECT vector_rowid FROM eligible)
    )
    SELECT vector_points.vector_point_id, matches.distance,
           vector_points.repository_id, vector_points.file_id,
           vector_points.chunk_id, vector_points.symbol_id,
           vector_points.symbol_name, vector_points.path,
           vector_points.language, vector_points.chunk_kind,
           vector_points.start_line, vector_points.end_line,
           vector_points.text_hash, vector_points.parser_version,
           vector_points.content_hash, vector_points.index_run_id,
           vector_points.embedding_model, vector_points.embedding_dimension,
           vector_points.indexed_at
    FROM matches
    JOIN vector_points
      ON vector_points.vector_store = 'sqlite_vec'
     AND vector_points.vector_table = ?3
     AND vector_points.vector_rowid = matches.rowid
    ORDER BY matches.distance ASC";

pub const VECTOR_VERSION: &'static str = "SELECT vec_version()";

pub const TABLE_LISTED: &'static str =
    "SELECT EXISTS(SELECT 1 FROM sqlite_master WHERE type = 'table' AND name = ?1)";

pub const UPSERT_POINT_PAYLOAD: &'static str = "INSERT INTO vector_points (
      vector_store, vector_table, vector_rowid, vector_point_id,
      repository_id, file_id, chunk_id, symbol_id, symbol_name,
      path, language, chunk_kind, start_line, end_line, text_hash,
      parser_version, content_hash, index_run_id, embedding_model,
      embedding_dimension, indexed_at
    )
    VALUES ('sqlite_vec', ?1, ?2, ?3, ?4, ?5, ?6, ?7, ?8, ?9, ?10, ?11, ?12, ?13, ?14, ?15, ?16, ?17, ?18, ?19, ?20)
    ON CONFLICT(vector_store, vector_table, vector_point_id)
    DO UPDATE SET
      vector_rowid = excluded.vector_rowid,
      repository_id = excluded.repository_id,
      file_id = excluded.file_id,
      chunk_id = excluded.chunk_id,
      symbol_id = excluded.symbol_id,
      symbol_name = excluded.symbol_name,
      path = excluded.path,
      language = excluded.language,
      chunk_kind = excluded.chunk_kind,
      start_line = excluded.start_line,
      end_line = excluded.end_line,
      text_hash = excluded.text_hash,
      parser_version = excluded.parser_version,
      content_hash = excluded.content_hash,
      index_run_id = excluded.index_run_id,
      embedding_model = excluded.embedding_model,
      embedding_dimension = excluded.embedding_dimension,
      indexed_at = excluded.indexed_at";

pub const DELETE_POINT_PAYLOAD: &'static str = "DELETE FROM vector_points
    WHERE vector_store = 'sqlite_vec'
      AND vector_table = ?1
      AND vector_point_id = ?2";

pub const SCROLL_POINTS: &'static str =
    "SELECT vector_point_id, repository_id, file_id, chunk_id, symbol_id,
           symbol_name, path, language, chunk_kind, start_line, end_line,
           text_hash, parser_version, content_hash, index_run_id,
           embedding_model, embedding_dimension, indexed_at
    FROM vector_points
    WHERE vector_store = 'sqlite_vec'
      AND vector_table = ?1
      AND repository_id = ?2
    ORDER BY vector_point_id";

/// The reading of `health_check`.
pub open spec fn health_check_spec() -> StatementView {
    statement_of(VECTOR_VERSION, seq![])
}

/// The reading of `table_listed`.
pub open spec fn table_listed_spec(table_name: Seq<char>) -> StatementView {
    statement_of(TABLE_LISTED, seq![text(table_name)])
}

/// The reading of `upsert_point_payload`.
pub open spec fn upsert_point_payload_spec(
    table_name: Seq<char>,
    rowid: i64,
    point: VectorPoint,
) -> StatementView {
    statement_of(
        UPSERT_POINT_PAYLOAD,
        seq![
            text(table_name),
            Value::Integer(rowid as int),
            text(point.id@),
            text(point.payload.repository_id@),
            text(point.payload.file_id@),
            text(point.payload.chunk_id@),
            optional(optional_text(point.payload.symbol_id)),
            optional(optional_text(point.payload.symbol_name)),
            text(point.payload.path@),
            text(point.payload.language@),
            text(point.payload.chunk_kind@),
            count(point.payload.start_line),
            count(point.payload.end_line),
            text(point.payload.text_hash@),
            optional(optional_text(point.payload.parser_version)),
            optional(optional_text(point.payload.content_hash)),
            optional(optional_text(point.payload.index_run_id)),
            optional(optional_text(point.payload.embedding_model)),
            optional_count(point.payload.embedding_dimension),
            optional(optional_text(point.payload.indexed_at)),
        ],
    )
}

/// The reading of `delete_point_payload`.
pub open spec fn delete_point_payload_spec(
    table_name: Seq<char>,
    point_id: Seq<char>,
) -> StatementView {
    statement_of(DELETE_POINT_PAYLOAD, seq![text(table_name), text(point_id)])
}

/// The reading of `scroll_points`.
pub open spec fn scroll_points_spec(
    table_name: Seq<char>,
    repository_id: Seq<char>,
) -> StatementView {
    statement_of(SCROLL_POINTS, seq![text(table_name), text(repository_id)])
}

impl SqliteVectorStore {
    /// Asks the vector extension for its version. Read as a `String`.
    pub fn health_check() -> (r: Statement)
        ensures
            r@ == health_check_spec(),
    {
        let params: Vec<SqlValue> = Vec::new();
        proof {
            assert(values(params@) =~= health_check_spec().params);
        }
        statement(VECTOR_VERSION, params)
    }

    /// Whether there is a table of the given name. Read as an `i64`.
    pub fn table_listed(table_name: &str) -> (r: Statement)
        ensures
            r@ == table_listed_spec(table_name@),
    {
        let params = vec![text_value(table_name)];
        proof {
            assert(values(params@) =~= table_listed_spec(table_name@).params);
        }
        statement(TABLE_LISTED, params)
    }

    /// Stores what is known of a point.
    pub fn upsert_point_payload(
        table_name: &str,
        rowid: i64,
        point: &VectorPoint,
    ) -> (r: Statement)
        ensures
            r@ == upsert_point_payload_spec(table_name@, rowid, *point),
    {
        let params = vec![
            text_value(table_name),
            SqlValue::Integer(rowid),
            owned_value(&point.id),
            owned_value(&point.payload.repository_id),
            owned_value(&point.payload.file_id),
            owned_value(&point.payload.chunk_id),
            optional_owned_value(&point.payload.symbol_id),
            optional_owned_value(&point.payload.symbol_name),
            owned_value(&point.payload.path),
            owned_value(&point.payload.language),
            owned_value(&point.payload.chunk_kind),
            count_value(point.payload.start_line),
            count_value(point.payload.end_line),
            owned_value(&point.payload.text_hash),
            optional_owned_value(&point.payload.parser_version),
            optional_owned_value(&point.payload.content_hash),
            optional_owned_value(&point.payload.index_run_id),
            optional_owned_value(&point.payload.embedding_model),
            optional_count_value(point.payload.embedding_dimension),
            optional_owned_value(&point.payload.indexed_at),
        ];
        proof {
            assert(values(params@) =~= upsert_point_payload_spec(
                table_name@,
                rowid,
                *point,
            ).params);
        }
        statement(UPSERT_POINT_PAYLOAD, params)
    }

    /// Forgets what is known of a point.
    pub fn delete_point_payload(table_name: &str, point_id: &str) -> (r: Statement)
        ensures
            r@ == delete_point_payload_spec(table_name@, point_id@),
    {
        let params = vec![text_value(table_name), text_value(point_id)];
        proof {
            assert(values(params@) =~= delete_point_payload_spec(table_name@, point_id@).params);
        }
        statement(DELETE_POINT_PAYLOAD, params)
    }

    /// The points of a repository. Read as `RetrievedPoint`s.
    pub fn scroll_points(table_name: &str, repository_id: &str) -> (r: Statement)
        ensures
            r@ == scroll_points_spec(table_name@, repository_id@),
    {
        let params = vec![text_value(table_name), text_value(repository_id)];
        proof {
            assert(values(params@) =~= scroll_points_spec(table_name@, repository_id@).params);
        }
        statement(SCROLL_POINTS, params)
    }
}

/// The byte `k` of a word, the lowest first.
pub open spec fn word_byte(word: u32, k: int) -> u8 {
    if k == 0 {
        (word % 256) as u8
    } else if k == 1 {
        ((word / 256) % 256) as u8
    } else if k == 2 {
        ((word / 65536) % 256) as u8
    } else {
        ((word / 16777216) % 256) as u8
    }
}

/// The bytes of words, the lowest byte of each first.
pub open spec fn little_endian(words: Seq<u32>) -> Seq<u8> {
    Seq::new(4 * words.len(), |i: int| word_byte(words[i / 4], i % 4))
}

/// The bytes of words, the highest byte of each first.
pub open spec fn big_endian(words: Seq<u32>) -> Seq<u8> {
    Seq::new(4 * words.len(), |i: int| word_byte(words[i / 4], 3 - i % 4))
}

/// A vector as it is stored: its components one behind the other, in the byte order of the machine.
pub open spec fn is_vector_blob(value: Value, vector: Seq<u32>) -> bool {
    value matches Value::Blob(bytes) && (bytes == little_endian(vector) || bytes == big_endian(
        vector,
    ))
}

/// `zerocopy::IntoBytes::as_bytes` views a slice as the bytes it occupies: four per word, word by
/// word, each in the byte order of the machine.
#[verifier::external_body]
fn vector_bytes(vector: &Vec<u32>) -> (r: Vec<u8>)
    ensures
        r@ == little_endian(vector@) || r@ == big_endian(vector@),
{
    zerocopy::IntoBytes::as_bytes(vector.as_slice()).to_vec()
}

/// The statement that creates a vector table.
pub open spec fn create_table_sql(table_name: Seq<char>, vector_size: nat) -> Seq<char> {
    "CREATE VIRTUAL TABLE IF NOT EXISTS "@ + table_name + " USING vec0(embedding float["@
        + decimal_digits(vector_size) + "] distance_metric=cosine)"@
}

/// The command that creates a vector table.
pub open spec fn create_table_command(table_name: Seq<char>, vector_size: nat) -> CommandView {
    CommandView::Execute(
        StatementView { sql: create_table_sql(table_name, vector_size), params: Seq::empty() },
    )
}

/// The commands that create a vector table, unless it is there.
pub open spec fn create_script(
    table_name: Seq<char>,
    vector_size: nat,
    present: bool,
) -> Seq<CommandView> {
    if present {
        Seq::empty()
    } else {
        seq![create_table_command(table_name, vector_size)]
    }
}

/// The result of a check that a table can be made: the first error, or none.
pub open spec fn table_error(table_name: Seq<char>, vector_size: nat) -> Option<StoreErrorView> {
    if !is_table_name(table_name) {
        Some(StoreErrorView::TableName)
    } else if vector_size == 0 {
        Some(StoreErrorView::VectorSize)
    } else {
        None
    }
}

/// The errors of a vector operation.
pub enum StoreErrorView {
    TableName,
    VectorSize,
    Limit,
    Dimensions,
}

/// `error` is the one that `kind` stands for.
pub open spec fn is_error(error: StoreError, kind: StoreErrorView, table_name: Seq<char>) -> bool {
    match kind {
        StoreErrorView::TableName => error matches StoreError::InvalidVectorTableName(name) && name@
            == table_name,
        StoreErrorView::VectorSize => error == StoreError::InvalidVectorSize(0),
        StoreErrorView::Limit => error == StoreError::InvalidLimit(0),
        StoreErrorView::Dimensions => error == StoreError::InconsistentVectorDimensions,
    }
}

/// The commands that make the table of payloads and ask for a vector table.
pub open spec fn prepare_script(table_name: Seq<char>) -> Seq<CommandView> {
    seq![
        CommandView::Batch(VECTOR_POINTS_TABLE@),
        CommandView::Query(table_listed_spec(table_name)),
    ]
}

fn prepare(table_name: &str) -> (r: Vec<Command>)
    ensures
        script(r@) == prepare_script(table_name@),
{
    let commands = vec![
        Command::Batch(VECTOR_POINTS_TABLE.to_owned()),
        Command::Query(SqliteVectorStore::table_listed(table_name)),
    ];
    proof {
        assert(script(commands@) =~= prepare_script(table_name@));
    }
    commands
}

/// The command that makes the table of payloads, where there are points to delete.
pub open spec fn delete_preparation(points: nat) -> Seq<CommandView> {
    if points == 0 {
        Seq::empty()
    } else {
        seq![CommandView::Batch(VECTOR_POINTS_TABLE@)]
    }
}

/// What is wrong with points to be stored: nothing where there are none; else no dimension, or
/// several.
pub open spec fn points_error(table_name: Seq<char>, points: Seq<VectorPoint>) -> Option<
    StoreErrorView,
> {
    if !is_table_name(table_name) {
        Some(StoreErrorView::TableName)
    } else if points.len() == 0 {
        None
    } else if points[0].vector@.len() == 0 {
        Some(StoreErrorView::VectorSize)
    } else if exists|i: int|
        0 <= i < points.len() && (#[trigger] points[i]).vector@.len() != points[0].vector@.len() {
        Some(StoreErrorView::Dimensions)
    } else {
        None
    }
}

/// What is wrong with a search.
pub open spec fn query_error(table_name: Seq<char>, vector: Seq<u32>, limit: nat) -> Option<
    StoreErrorView,
> {
    if !is_table_name(table_name) {
        Some(StoreErrorView::TableName)
    } else if vector.len() == 0 {
        Some(StoreErrorView::VectorSize)
    } else if limit == 0 {
        Some(StoreErrorView::Limit)
    } else {
        None
    }
}

/// `s` is the search for the points nearest to a vector.
pub open spec fn is_nearest(
    s: StatementView,
    table_name: Seq<char>,
    vector: Seq<u32>,
    limit: usize,
) -> bool {
    &&& s.sql == NEAREST_POINTS_HEAD@ + table_name + NEAREST_POINTS_TAIL@
    &&& s.params.len() == 3
    &&& is_vector_blob(s.params[0], vector)
    &&& s.params[1] == count(limit)
    &&& s.params[2] == text(table_name)
}

/// How the points and the files of refs are joined.
pub open spec fn eligible_links() -> Seq<Condition> {
    seq![
        Condition {
            column: "ref_files.file_id",
            operand: Operand::Column("vector_points.file_id"),
        },
    ]
}

/// Which points are searched.
pub open spec fn eligible_points() -> Seq<Condition> {
    seq![
        Condition {
            column: "vector_points.vector_store",
            operand: Operand::Text("sqlite_vec"),
        },
        Condition { column: "vector_points.vector_table", operand: Operand::Bound(3) },
        Condition { column: "vector_points.repository_id", operand: Operand::Bound(4) },
        Condition { column: "ref_files.repository_ref_id", operand: Operand::Bound(5) },
    ]
}

/// Whether a point and a file of a ref, as one row, are searched by a statement.
pub open spec fn is_eligible(s: StatementView, row: Record) -> bool {
    all_met_by(eligible_links(), row, s.params) && all_met_by(eligible_points(), row, s.params)
}

/// `s` is the search for the points of a ref nearest to a vector.
pub open spec fn is_nearest_for_ref(
    s: StatementView,
    table_name: Seq<char>,
    repository_id: Seq<char>,
    repository_ref_id: Seq<char>,
    vector: Seq<u32>,
    limit: usize,
) -> bool {
    &&& s.sql == NEAREST_POINTS_FOR_REF_START@ + all_written(eligible_links())
        + NEAREST_POINTS_FOR_REF_WHERE@ + all_written(eligible_points())
        + NEAREST_POINTS_FOR_REF_HEAD@ + table_name + NEAREST_POINTS_FOR_REF_TAIL@
    &&& s.params.len() == 5
    &&& is_vector_blob(s.params[0], vector)
    &&& s.params[1] == count(limit)
    &&& s.params[2] == text(table_name)
    &&& s.params[3] == text(repository_id)
    &&& s.params[4] == text(repository_ref_id)
}

/// The statement that takes a vector out of its table.
pub open spec fn delete_vector_spec(table_name: Seq<char>, rowid: int) -> StatementView {
    StatementView {
        sql: "DELETE FROM "@ + table_name + " WHERE rowid = ?1"@,
        params: seq![Value::Integer(rowid)],
    }
}

/// `s` is the statement that puts a vector into its table.
pub open spec fn is_insert_vector(
    s: StatementView,
    table_name: Seq<char>,
    rowid: int,
    vector: Seq<u32>,
) -> bool {
    &&& s.sql == "INSERT INTO "@ + table_name + "(rowid, embedding) VALUES (?1, ?2)"@
    &&& s.params.len() == 2
    &&& s.params[0] == Value::Integer(rowid)
    &&& is_vector_blob(s.params[1], vector)
}

/// The three commands that store one point.
pub open spec fn stores_point(
    commands: Seq<CommandView>,
    at: int,
    table_name: Seq<char>,
    point: VectorPoint,
    rowid: int,
) -> bool {
    &&& commands[at] == CommandView::Execute(delete_vector_spec(table_name, rowid))
    &&& commands[at + 1] matches CommandView::Execute(s) && is_insert_vector(
        s,
        table_name,
        rowid,
        point.vector@,
    )
    &&& commands[at + 2] == CommandView::Execute(
        upsert_point_payload_spec(table_name, rowid as i64, point),
    )
}

/// The two commands that delete one point.
pub open spec fn deletes_point(
    commands: Seq<CommandView>,
    at: int,
    table_name: Seq<char>,
    point_id: Seq<char>,
    rowid: int,
) -> bool {
    &&& commands[at] == CommandView::Execute(delete_vector_spec(table_name, rowid))
    &&& commands[at + 1] == CommandView::Execute(delete_point_payload_spec(table_name, point_id))
}

/// The commands from `at` on store a point that has a row.
pub open spec fn point_stored(
    commands: Seq<CommandView>,
    at: int,
    table_name: Seq<char>,
    point: VectorPoint,
    digest: Seq<char>,
) -> bool {
    match rowid_of(point.id@, digest) {
        Some(rowid) => stores_point(commands, at, table_name, point, rowid),
        None => false,
    }
}

/// The commands from `at` on delete a point that has a row.
pub open spec fn point_deleted(
    commands: Seq<CommandView>,
    at: int,
    table_name: Seq<char>,
    point_id: Seq<char>,
    digest: Seq<char>,
) -> bool {
    match rowid_of(point_id, digest) {
        Some(rowid) => deletes_point(commands, at, table_name, point_id, rowid),
        None => false,
    }
}

/// The first `n` points are stored, one behind the other from the second command on.
pub open spec fn points_stored(
    commands: Seq<CommandView>,
    table_name: Seq<char>,
    points: Seq<VectorPoint>,
    digests: Seq<String>,
    n: int,
) -> bool {
    forall|i: int|
        0 <= i < n ==> point_stored(
            commands,
            1 + 3 * i,
            table_name,
            #[trigger] points[i],
            digests[i]@,
        )
}

/// The first `n` points are deleted, one behind the other from the second command on.
pub open spec fn points_deleted(
    commands: Seq<CommandView>,
    table_name: Seq<char>,
    point_ids: Seq<String>,
    digests: Seq<String>,
    n: int,
) -> bool {
    forall|i: int|
        0 <= i < n ==> point_deleted(
            commands,
            1 + 2 * i,
            table_name,
            (#[trigger] point_ids[i])@,
            digests[i]@,
        )
}

impl SqliteVectorStore {
    pub fn new(config: &StoreConfig) -> (r: SqliteVectorStore)
        ensures
            r.sqlite_path == config.sqlite_path,
    {
        SqliteVectorStore { sqlite_path: config.sqlite_path.clone() }
    }

    /// The step that sets up a connection to the database, new or not.
    pub fn opening() -> (r: Vec<Command>)
        ensures
            script(r@) == seq![CommandView::Batch(VECTOR_CONNECTION@)],
    {
        let commands = vec![Command::Batch(VECTOR_CONNECTION.to_owned())];
        proof {
            assert(script(commands@) =~= seq![CommandView::Batch(VECTOR_CONNECTION@)]);
        }
        commands
    }

    /// Asks for a vector table. Read as an `i64`.
    pub fn table_exists(table_name: &str) -> (r: Result<Statement, StoreError>)
        ensures
            match r {
                Ok(s) => is_table_name(table_name@) && s@ == table_listed_spec(table_name@),
                Err(e) => !is_table_name(table_name@) && is_error(
                    e,
                    StoreErrorView::TableName,
                    table_name@,
                ),
            },
    {
        match validate_vector_table_name(table_name) {
            Ok(_) => Ok(SqliteVectorStore::table_listed(table_name)),
            Err(error) => Err(error),
        }
    }

    /// The first commands that make sure of a vector table: the table of payloads, and the
    /// question whether the vector table is there. The last answer goes to `create_table`.
    pub fn ensure_table(table_name: &str, vector_size: usize) -> (r: Result<
        Vec<Command>,
        StoreError,
    >)
        ensures
            match table_error(table_name@, vector_size as nat) {
                Some(kind) => r matches Err(e) && is_error(e, kind, table_name@),
                None => r matches Ok(commands) && script(commands@) == prepare_script(table_name@),
            },
    {
        match validate_vector_table_name(table_name) {
            Ok(_) => {},
            Err(error) => {
                return Err(error);
            },
        }
        if vector_size == 0 {
            return Err(StoreError::InvalidVectorSize(vector_size));
        }
        Ok(prepare(table_name))
    }

    /// The command that creates a vector table, unless it is there, and whether it is created.
    pub fn create_table(table_name: &str, vector_size: usize, present: bool) -> (r: (
        Vec<Command>,
        bool,
    ))
        requires
            table_error(table_name@, vector_size as nat) is None,
        ensures
            script(r.0@) == create_script(table_name@, vector_size as nat, present),
            r.1 == !present,
    {
        let mut commands: Vec<Command> = Vec::new();
        if !present {
            let mut sql = "CREATE VIRTUAL TABLE IF NOT EXISTS ".to_owned();
            sql.append(table_name);
            sql.append(" USING vec0(embedding float[");
            sql.append(decimal(vector_size as u128).as_str());
            sql.append("] distance_metric=cosine)");
            let params: Vec<SqlValue> = Vec::new();
            proof {
                assert(values(params@) =~= Seq::empty());
            }
            commands.push(Command::Execute(Statement { sql, params }));
        }
        proof {
            assert(script(commands@) =~= create_script(
                table_name@,
                vector_size as nat,
                present,
            ));
        }
        (commands, !present)
    }

    /// Checks points before they are stored. Gives the dimension that the vector table needs, or
    /// nothing where there are no points and nothing is to be done.
    pub fn check_points(table_name: &str, points: &Vec<VectorPoint>) -> (r: Result<
        Option<usize>,
        StoreError,
    >)
        ensures
            match points_error(table_name@, points@) {
                Some(kind) => r matches Err(e) && is_error(e, kind, table_name@),
                None => r == Ok::<Option<usize>, StoreError>(
                    if points@.len() == 0 {
                        None
                    } else {
                        Some(points@[0].vector@.len() as usize)
                    },
                ),
            },
    {
        match validate_vector_table_name(table_name) {
            Ok(_) => {},
            Err(error) => {
                return Err(error);
            },
        }
        if points.len() == 0 {
            return Ok(None);
        }
        let dimension: usize = points[0].vector.len();
        if dimension == 0 {
            return Err(StoreError::InvalidVectorSize(dimension));
        }
        for i in 0..points.len()
            invariant
                points@.len() > 0,
                dimension == points@[0].vector@.len(),
                dimension > 0,
                is_table_name(table_name@),
                forall|j: int| 0 <= j < i ==> (#[trigger] points@[j]).vector@.len() == dimension,
        {
            if points[i].vector.len() != dimension {
                proof {
                    assert(points@[i as int].vector@.len() != points@[0].vector@.len());
                }
                return Err(StoreError::InconsistentVectorDimensions);
            }
        }
        Ok(Some(dimension))
    }

    fn delete_vector(table_name: &str, rowid: i64) -> (r: Statement)
        ensures
            r@ == delete_vector_spec(table_name@, rowid as int),
    {
        let params = vec![SqlValue::Integer(rowid)];
        proof {
            assert(values(params@) =~= seq![Value::Integer(rowid as int)]);
        }
        Statement { sql: surrounded("DELETE FROM ", table_name, " WHERE rowid = ?1"), params }
    }

    fn insert_vector(table_name: &str, rowid: i64, vector: &Vec<u32>) -> (r: Statement)
        ensures
            is_insert_vector(r@, table_name@, rowid as int, vector@),
    {
        let params = vec![SqlValue::Integer(rowid), SqlValue::Blob(vector_bytes(vector))];
        proof {
            assert(values(params@)[0] == Value::Integer(rowid as int));
            assert(is_vector_blob(values(params@)[1], vector@));
        }
        Statement {
            sql: surrounded("INSERT INTO ", table_name, "(rowid, embedding) VALUES (?1, ?2)"),
            params,
        }
    }

    /// The commands that store points, in one transaction; none where there are no points.
    /// `digests` holds, point by point, the stable id of the parts that `vector_rowid_parts`
    /// gives; a point whose id gives no row is an error. The vector table is to be there, with
    /// the dimension that `check_points` gives.
    pub fn upsert_points(
        table_name: &str,
        points: &Vec<VectorPoint>,
        digests: &Vec<String>,
    ) -> (r: Result<Vec<Command>, StoreError>)
        requires
            digests@.len() == points@.len(),
        ensures
            match points_error(table_name@, points@) {
                Some(kind) => r matches Err(e) && is_error(e, kind, table_name@),
                None => match r {
                    Ok(commands) => {
                        &&& points@.len() == 0 ==> commands@.len() == 0
                        &&& points@.len() > 0 ==> {
                            &&& script(commands@).len() == 3 * points@.len() + 2
                            &&& script(commands@)[0] == CommandView::Begin
                            &&& script(commands@).last() == CommandView::Commit
                            &&& points_stored(
                                script(commands@),
                                table_name@,
                                points@,
                                digests@,
                                points@.len() as int,
                            )
                            &&& is_transaction(script(commands@))
                        }
                    },
                    Err(e) => exists|i: int|
                        {
                            &&& 0 <= i < points@.len()
                            &&& rowid_of((#[trigger] points@[i]).id@, digests@[i]@) is None
                            &&& e matches StoreError::InvalidPointId(id) && id@ == points@[i].id@
                            &&& forall|j: int|
                                0 <= j < i ==> rowid_of(
                                    (#[trigger] points@[j]).id@,
                                    digests@[j]@,
                                ) is Some
                        },
                },
            },
    {
        match SqliteVectorStore::check_points(table_name, points) {
            Err(error) => {
                return Err(error);
            },
            Ok(None) => {
                return Ok(Vec::new());
            },
            Ok(Some(_)) => {},
        }
        let mut commands: Vec<Command> = Vec::new();
        commands.push(Command::Begin);
        for i in 0..points.len()
            invariant
                digests@.len() == points@.len(),
                points_error(table_name@, points@) is None,
                script(commands@).len() == 3 * i + 1,
                script(commands@)[0] == CommandView::Begin,
                points_stored(script(commands@), table_name@, points@, digests@, i as int),
        {
            let ghost before = script(commands@);
            let point = &points[i];
            match vector_rowid(point.id.as_str(), digests[i].as_str()) {
                Err(error) => {
                    proof {
                        assert(rowid_of(points@[i as int].id@, digests@[i as int]@) is None);
                    }
                    return Err(error);
                },
                Ok(rowid) => {
                    commands.push(
                        Command::Execute(SqliteVectorStore::delete_vector(table_name, rowid)),
                    );
                    commands.push(
                        Command::Execute(
                            SqliteVectorStore::insert_vector(table_name, rowid, &point.vector),
                        ),
                    );
                    commands.push(
                        Command::Execute(
                            SqliteVectorStore::upsert_point_payload(table_name, rowid, point),
                        ),
                    );
                    proof {
                        let now = script(commands@);
                        assert(now.len() == before.len() + 3);
                        assert forall|k: int| 0 <= k < before.len() implies now[k]
                            == #[trigger] before[k] by {}
                        assert(rowid_of(points@[i as int].id@, digests@[i as int]@) == Some(
                            rowid as int,
                        ));
                        assert(now[1 + 3 * i] == CommandView::Execute(
                            delete_vector_spec(table_name@, rowid as int),
                        ));
                        assert(stores_point(
                            now,
                            1 + 3 * i,
                            table_name@,
                            points@[i as int],
                            rowid as int,
                        ));
                        assert forall|j: int| 0 <= j < i + 1 implies point_stored(
                            now,
                            1 + 3 * j,
                            table_name@,
                            #[trigger] points@[j],
                            digests@[j]@,
                        ) by {
                            if j < i {
                                assert(now[1 + 3 * j] == before[1 + 3 * j]);
                                assert(now[2 + 3 * j] == before[2 + 3 * j]);
                                assert(now[3 + 3 * j] == before[3 + 3 * j]);
                            }
                        }
                    }
                },
            }
        }
        let ghost before = script(commands@);
        commands.push(Command::Commit);
        proof {
            let now = script(commands@);
            assert forall|j: int| 0 <= j < points@.len() implies point_stored(
                now,
                1 + 3 * j,
                table_name@,
                #[trigger] points@[j],
                digests@[j]@,
            ) by {
                assert(now[1 + 3 * j] == before[1 + 3 * j]);
                assert(now[2 + 3 * j] == before[2 + 3 * j]);
                assert(now[3 + 3 * j] == before[3 + 3 * j]);
            }
            assert forall|k: int| 0 < k < now.len() && k != now.len() - 1 implies !is_boundary(
                #[trigger] now[k],
            ) by {
                let j = (k - 1) / 3;
                assert(point_stored(now, 1 + 3 * j, table_name@, points@[j], digests@[j]@));
            }
            assert(closes_at(now, now.len() - 1));
        }
        Ok(commands)
    }

    /// The first command of a deletion of points: the table of payloads is made, before the ids of
    /// the points are looked at. None where there are no points.
    pub fn prepare_delete(table_name: &str, point_ids: &Vec<String>) -> (r: Result<
        Vec<Command>,
        StoreError,
    >)
        ensures
            match r {
                Ok(commands) => is_table_name(table_name@) && script(commands@)
                    == delete_preparation(point_ids@.len()),
                Err(e) => !is_table_name(table_name@) && is_error(
                    e,
                    StoreErrorView::TableName,
                    table_name@,
                ),
            },
    {
        match validate_vector_table_name(table_name) {
            Ok(_) => {},
            Err(error) => {
                return Err(error);
            },
        }
        let mut commands: Vec<Command> = Vec::new();
        if point_ids.len() > 0 {
            commands.push(Command::Batch(VECTOR_POINTS_TABLE.to_owned()));
        }
        proof {
            assert(script(commands@) =~= delete_preparation(point_ids@.len()));
        }
        Ok(commands)
    }

    /// The commands that delete points, in one transaction, behind those of `prepare_delete`; none
    /// where there are no points. `digests` is as for `upsert_points`.
    pub fn delete_points(
        table_name: &str,
        point_ids: &Vec<String>,
        digests: &Vec<String>,
    ) -> (r: Result<Vec<Command>, StoreError>)
        requires
            digests@.len() == point_ids@.len(),
        ensures
            match r {
                Ok(commands) => {
                    &&& is_table_name(table_name@)
                    &&& point_ids@.len() == 0 ==> commands@.len() == 0
                    &&& point_ids@.len() > 0 ==> {
                        &&& script(commands@).len() == 2 * point_ids@.len() + 2
                        &&& script(commands@)[0] == CommandView::Begin
                        &&& script(commands@).last() == CommandView::Commit
                        &&& points_deleted(
                            script(commands@),
                            table_name@,
                            point_ids@,
                            digests@,
                            point_ids@.len() as int,
                        )
                        &&& is_transaction(script(commands@))
                    }
                },
                Err(e) => if !is_table_name(table_name@) {
                    is_error(e, StoreErrorView::TableName, table_name@)
                } else {
                    exists|i: int|
                        {
                            &&& 0 <= i < point_ids@.len()
                            &&& rowid_of((#[trigger] point_ids@[i])@, digests@[i]@) is None
                            &&& e matches StoreError::InvalidPointId(id) && id@ == point_ids@[i]@
                            &&& forall|j: int|
                                0 <= j < i ==> rowid_of(
                                    (#[trigger] point_ids@[j])@,
                                    digests@[j]@,
                                ) is Some
                        }
                },
            },
    {
        match validate_vector_table_name(table_name) {
            Ok(_) => {},
            Err(error) => {
                return Err(error);
            },
        }
        let mut commands: Vec<Command> = Vec::new();
        if point_ids.len() == 0 {
            return Ok(commands);
        }
        commands.push(Command::Begin);
        for i in 0..point_ids.len()
            invariant
                digests@.len() == point_ids@.len(),
                is_table_name(table_name@),
                script(commands@).len() == 2 * i + 1,
                script(commands@)[0] == CommandView::Begin,
                points_deleted(script(commands@), table_name@, point_ids@, digests@, i as int),
        {
            let ghost before = script(commands@);
            match vector_rowid(point_ids[i].as_str(), digests[i].as_str()) {
                Err(error) => {
                    proof {
                        assert(rowid_of(point_ids@[i as int]@, digests@[i as int]@) is None);
                    }
                    return Err(error);
                },
                Ok(rowid) => {
                    commands.push(
                        Command::Execute(SqliteVectorStore::delete_vector(table_name, rowid)),
                    );
                    commands.push(
                        Command::Execute(
                            SqliteVectorStore::delete_point_payload(
                                table_name,
                                point_ids[i].as_str(),
                            ),
                        ),
                    );
                    proof {
                        let now = script(commands@);
                        assert(now.len() == before.len() + 2);
                        assert forall|k: int| 0 <= k < before.len() implies now[k]
                            == #[trigger] before[k] by {}
                        assert forall|j: int| 0 <= j < i + 1 implies point_deleted(
                            now,
                            1 + 2 * j,
                            table_name@,
                            (#[trigger] point_ids@[j])@,
                            digests@[j]@,
                        ) by {
                            if j < i {
                                assert(now[1 + 2 * j] == before[1 + 2 * j]);
                                assert(now[2 + 2 * j] == before[2 + 2 * j]);
                            }
                        }
                    }
                },
            }
        }
        let ghost before = script(commands@);
        commands.push(Command::Commit);
        proof {
            let now = script(commands@);
            assert forall|j: int| 0 <= j < point_ids@.len() implies point_deleted(
                now,
                1 + 2 * j,
                table_name@,
                (#[trigger] point_ids@[j])@,
                digests@[j]@,
            ) by {
                assert(now[1 + 2 * j] == before[1 + 2 * j]);
                assert(now[2 + 2 * j] == before[2 + 2 * j]);
            }
            assert forall|k: int| 0 < k < now.len() && k != now.len() - 1 implies !is_boundary(
                #[trigger] now[k],
            ) by {
                let j = (k - 1) / 2;
                let id = point_ids@[j];
                assert(point_deleted(now, 1 + 2 * j, table_name@, id@, digests@[j]@));
            }
            assert(closes_at(now, now.len() - 1));
        }
        Ok(commands)
    }

    /// The commands that scroll through the points of a repository. The rows of the last one are
    /// read as `RetrievedPoint`s.
    pub fn scroll_points_for_repository(table_name: &str, repository_id: &str) -> (r: Result<
        Vec<Command>,
        StoreError,
    >)
        ensures
            match r {
                Ok(commands) => is_table_name(table_name@) && script(commands@) == seq![
                    CommandView::Batch(VECTOR_POINTS_TABLE@),
                    CommandView::Query(scroll_points_spec(table_name@, repository_id@)),
                ],
                Err(e) => !is_table_name(table_name@) && is_error(
                    e,
                    StoreErrorView::TableName,
                    table_name@,
                ),
            },
    {
        match validate_vector_table_name(table_name) {
            Ok(_) => {
                let commands = vec![
                    Command::Batch(VECTOR_POINTS_TABLE.to_owned()),
                    Command::Query(SqliteVectorStore::scroll_points(table_name, repository_id)),
                ];
                proof {
                    assert(script(commands@) =~= seq![
                        CommandView::Batch(VECTOR_POINTS_TABLE@),
                        CommandView::Query(scroll_points_spec(table_name@, repository_id@)),
                    ]);
                }
                Ok(commands)
            },
            Err(error) => Err(error),
        }
    }

    /// The first commands of a search: the last answer tells whether the vector table is there,
    /// and goes to `nearest_points`.
    pub fn query_points(table_name: &str, vector: &Vec<u32>, limit: usize) -> (r: Result<
        Vec<Command>,
        StoreError,
    >)
        ensures
            match query_error(table_name@, vector@, limit as nat) {
                Some(kind) => r matches Err(e) && is_error(e, kind, table_name@),
                None => r matches Ok(commands) && script(commands@) == prepare_script(table_name@),
            },
    {
        match validate_vector_table_name(table_name) {
            Ok(_) => {},
            Err(error) => {
                return Err(error);
            },
        }
        if vector.len() == 0 {
            return Err(StoreError::InvalidVectorSize(0));
        }
        if limit == 0 {
            return Err(StoreError::InvalidLimit(limit));
        }
        Ok(prepare(table_name))
    }

    /// The first commands of a search in a ref, checked as those of `query_points`. The last
    /// answer goes to `nearest_points_for_ref`.
    pub fn query_points_for_ref(table_name: &str, vector: &Vec<u32>, limit: usize) -> (r: Result<
        Vec<Command>,
        StoreError,
    >)
        ensures
            match query_error(table_name@, vector@, limit as nat) {
                Some(kind) => r matches Err(e) && is_error(e, kind, table_name@),
                None => r matches Ok(commands) && script(commands@) == prepare_script(table_name@),
            },
    {
        SqliteVectorStore::query_points(table_name, vector, limit)
    }

    /// The search for the points nearest to a vector; none where the vector table is missing. The
    /// answer goes to `matched_points`.
    pub fn nearest_points(
        table_name: &str,
        vector: &Vec<u32>,
        limit: usize,
        present: bool,
    ) -> (r: Option<Statement>)
        requires
            query_error(table_name@, vector@, limit as nat) is None,
        ensures
            match r {
                Some(s) => present && is_nearest(s@, table_name@, vector@, limit),
                None => !present,
            },
    {
        if !present {
            return None;
        }
        let params = vec![
            SqlValue::Blob(vector_bytes(vector)),
            count_value(limit),
            text_value(table_name),
        ];
        Some(
            Statement {
                sql: surrounded(NEAREST_POINTS_HEAD, table_name, NEAREST_POINTS_TAIL),
                params,
            },
        )
    }

    /// The search for the points of a ref nearest to a vector; none where the vector table is
    /// missing. The answer goes to `matched_points`.
    pub fn nearest_points_for_ref(
        table_name: &str,
        repository_id: &str,
        repository_ref_id: &str,
        vector: &Vec<u32>,
        limit: usize,
        present: bool,
    ) -> (r: Option<Statement>)
        requires
            query_error(table_name@, vector@, limit as nat) is None,
        ensures
            match r {
                Some(s) => present && is_nearest_for_ref(
                    s@,
                    table_name@,
                    repository_id@,
                    repository_ref_id@,
                    vector@,
                    limit,
                ),
                None => !present,
            },
    {
        if !present {
            return None;
        }
        let params = vec![
            SqlValue::Blob(vector_bytes(vector)),
            count_value(limit),
            text_value(table_name),
            text_value(repository_id),
            text_value(repository_ref_id),
        ];
        let links = vec![
            Condition {
                column: "ref_files.file_id",
                operand: Operand::Column("vector_points.file_id"),
            },
        ];
        let points = vec![
            Condition {
                column: "vector_points.vector_store",
                operand: Operand::Text("sqlite_vec"),
            },
            Condition { column: "vector_points.vector_table", operand: Operand::Bound(3) },
            Condition { column: "vector_points.repository_id", operand: Operand::Bound(4) },
            Condition { column: "ref_files.repository_ref_id", operand: Operand::Bound(5) },
        ];
        proof {
            assert(links@ =~= eligible_links());
            assert(points@ =~= eligible_points());
        }
        let mut sql = NEAREST_POINTS_FOR_REF_START.to_owned();
        sql.append(conditions_text(&links).as_str());
        sql.append(NEAREST_POINTS_FOR_REF_WHERE);
        sql.append(conditions_text(&points).as_str());
        sql.append(NEAREST_POINTS_FOR_REF_HEAD);
        sql.append(table_name);
        sql.append(NEAREST_POINTS_FOR_REF_TAIL);
        Some(Statement { sql, params })
    }

    /// The points that a search found: none where there was no search to run, else those of its
    /// rows, in their order.
    pub fn matched_points(found: &Option<Vec<Row>>) -> (r: Result<Vec<MatchedPoint>, StoreError>)
        ensures
            match found {
                None => r matches Ok(points) && points@.len() == 0,
                Some(rows) => match rows_fault::<MatchedPoint>(rows@) {
                    Some(fault) => r matches Err(e) && is_fault(e, fault),
                    None => r matches Ok(points) && points@ == all_of::<MatchedPoint>(rows@),
                },
            },
    {
        match found {
            None => Ok(Vec::new()),
            Some(rows) => collect_rows(rows),
        }
    }
}

/// A vector table is there behind commands if it was there before them or one of them creates it.
pub open spec fn there_behind(
    table_name: Seq<char>,
    present: bool,
    commands: Seq<CommandView>,
) -> bool {
    present || exists|i: int, vector_size: nat|
        0 <= i < commands.len() && #[trigger] commands[i] == #[trigger] create_table_command(
            table_name,
            vector_size,
        )
}

/// A vector table is made once: it is there behind the commands of `create_table`, which are none
/// where it was there before; and a second call, of whatever dimension, finds it there, so that
/// it runs nothing and tells that it made nothing.
pub proof fn law_tables_are_made_once(
    table_name: Seq<char>,
    vector_size: nat,
    again: nat,
    present: bool,
)
    requires
        table_error(table_name, vector_size) is None,
        table_error(table_name, again) is None,
    ensures
        ({
            let commands = create_script(table_name, vector_size, present);
            let after = there_behind(table_name, present, commands);
            &&& after
            &&& present ==> commands.len() == 0
            &&& create_script(table_name, again, after).len() == 0
        }),
{
    let commands = create_script(table_name, vector_size, present);
    if !present {
        assert(commands[0] == create_table_command(table_name, vector_size));
    }
}

/// A search in a ref looks at exactly the points of the searched table and of the repository asked
/// for whose files are linked to the ref asked for.
pub proof fn law_ref_searches_look_at_the_points_of_the_ref(
    s: StatementView,
    table_name: Seq<char>,
    repository_id: Seq<char>,
    repository_ref_id: Seq<char>,
    vector: Seq<u32>,
    limit: usize,
    row: Record,
)
    requires
        is_nearest_for_ref(s, table_name, repository_id, repository_ref_id, vector, limit),
    ensures
        is_eligible(s, row) <==> {
            &&& row["vector_points.vector_store"@] == text("sqlite_vec"@)
            &&& row["vector_points.vector_table"@] == text(table_name)
            &&& row["vector_points.repository_id"@] == text(repository_id)
            &&& row["ref_files.repository_ref_id"@] == text(repository_ref_id)
            &&& row["ref_files.file_id"@] == row["vector_points.file_id"@]
        },
{
    let links = eligible_links();
    let points = eligible_points();
    if is_eligible(s, row) {
        assert(links[0].met_by(row, s.params));
        assert(points[0].met_by(row, s.params));
        assert(points[1].met_by(row, s.params));
        assert(points[2].met_by(row, s.params));
        assert(points[3].met_by(row, s.params));
    }
}

} // verus!
