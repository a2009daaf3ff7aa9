//! The facts of files: how they are replaced and removed.

use vstd::prelude::*;
use crate::records::{
    CallRecord, ChunkRecord, FileRecord, SymbolRecord, SymbolReferenceRecord, TestRecord,
};
use crate::repository::link_file_to_ref_spec;
use crate::sql::{
    count, count_value, optional, optional_count, optional_count_value,
    optional_owned_value, owned_value, script, statement, statement_of, text, text_value, values,
    Command, CommandView, SqlValue, Statement, StatementView, Value,
};
use crate::store::SqliteStore;
use crate::text::{contains_text, optional_str, optional_text, texts};

verus! {

pub const INSERT_FILE: &'static str = "INSERT INTO files (
      id, repository_id, path, language, content_hash, indexed_at,
      index_run_id, parser_version
    )
    VALUES (?1, ?2, ?3, ?4, ?5, ?6, ?7, ?8)
               ON CONFLICT(id) DO UPDATE SET
                   repository_id = excluded.repository_id,
                   path = excluded.path,
       language = excluded.language,
       content_hash = excluded.content_hash,
       indexed_at = excluded.indexed_at,
       index_run_id = excluded.index_run_id,
       parser_version = excluded.parser_version";

pub const OTHER_FILES_AT_PATH: &'static str = "SELECT id
     FROM files
    WHERE repository_id = ?1
      AND path = ?2
      AND id <> ?3
    ORDER BY indexed_at, id";

pub const DELETE_FILE_CALLS: &'static str = "DELETE FROM calls
    WHERE caller_symbol_id IN (SELECT id FROM symbols WHERE file_id = ?1)";

pub const DELETE_FILE_REFERENCES: &'static str = "DELETE FROM symbol_references
    WHERE file_id = ?1";

pub const DELETE_FILE_TESTS: &'static str = "DELETE FROM tests WHERE file_id = ?1";

pub const DELETE_FILE_CHUNKS: &'static str = "DELETE FROM chunks WHERE file_id = ?1";

pub const DELETE_FILE_SYMBOLS: &'static str = "DELETE FROM symbols WHERE file_id = ?1";

pub const COUNT_REFS_TO_FILE: &'static str = "SELECT COUNT(*) FROM ref_files WHERE file_id = ?1";

pub const DELETE_FILE: &'static str = "DELETE FROM files WHERE id = ?1";

pub const INSERT_SYMBOL: &'static str = "INSERT INTO symbols (
      id, file_id, parent_symbol_id, name, qualified_name, kind, signature,
      start_line, end_line, start_byte, end_byte, index_run_id, parser_version
    )
    VALUES (?1, ?2, ?3, ?4, ?5, ?6, ?7, ?8, ?9, ?10, ?11, ?12, ?13)";

pub const INSERT_SYMBOL_REFERENCE: &'static str = "INSERT INTO symbol_references (
      id, file_id, source_symbol_id, target_symbol_id, reference_text, reference_kind,
      line, confidence, resolution_status, index_run_id, parser_version
    )
    VALUES (?1, ?2, ?3, ?4, ?5, ?6, ?7, ?8, ?9, ?10, ?11)
    ON CONFLICT(id) DO UPDATE SET
      file_id = excluded.file_id,
      source_symbol_id = excluded.source_symbol_id,
      target_symbol_id = excluded.target_symbol_id,
      reference_text = excluded.reference_text,
      reference_kind = excluded.reference_kind,
      line = excluded.line,
      confidence = excluded.confidence,
      resolution_status = excluded.resolution_status,
      index_run_id = excluded.index_run_id,
      parser_version = excluded.parser_version";

pub const INSERT_CHUNK: &'static str = "INSERT INTO chunks (
      id, file_id, symbol_id, kind, text_hash,
      start_line, end_line, start_byte, end_byte,
      vector_point_id, excluded_reason, index_run_id, parser_version,
      embedding_model, embedding_dimension, embedded_at
    )
    VALUES (?1, ?2, ?3, ?4, ?5, ?6, ?7, ?8, ?9, ?10, ?11, ?12, ?13, ?14, ?15, ?16)";

pub const INSERT_CALL: &'static str = "INSERT INTO calls (
      id, caller_symbol_id, callee_text, callee_symbol_id,
      call_line, confidence, resolution_status, index_run_id, parser_version
    )
    VALUES (?1, ?2, ?3, ?4, ?5, ?6, ?7, ?8, ?9)
    ON CONFLICT(id) DO UPDATE SET
      caller_symbol_id = excluded.caller_symbol_id,
      callee_text = excluded.callee_text,
      callee_symbol_id = excluded.callee_symbol_id,
      call_line = excluded.call_line,
      confidence = excluded.confidence,
      resolution_status = excluded.resolution_status,
      index_run_id = excluded.index_run_id,
      parser_version = excluded.parser_version";

pub const INSERT_TEST: &'static str = "INSERT INTO tests (
      id, repository_id, file_id, symbol_id, name, qualified_name, framework,
      language, path, start_line, end_line, start_byte, end_byte,
      index_run_id, parser_version, indexed_at
    )
    VALUES (?1, ?2, ?3, ?4, ?5, ?6, ?7, ?8, ?9, ?10, ?11, ?12, ?13, ?14, ?15, ?16)";

pub const DELETE_REF_FILE: &'static str = "DELETE FROM ref_files
    WHERE repository_ref_id = ?1
      AND path = ?2";

pub const FILES_AT_PATH: &'static str =
    "SELECT id FROM files WHERE repository_id = ?1 AND path = ?2";

/// The reading of `insert_file`.
pub open spec fn insert_file_spec(file: FileRecord, indexed_at: Seq<char>) -> StatementView {
    statement_of(
        INSERT_FILE,
        seq![
            text(file.id@),
            text(file.repository_id@),
            text(file.path@),
            text(file.language@),
            text(file.content_hash@),
            text(indexed_at),
            text(file.index_run_id@),
            text(file.parser_version@),
        ],
    )
}

/// The reading of `other_files_at_path`.
pub open spec fn other_files_at_path_spec(file: FileRecord) -> StatementView {
    statement_of(
        OTHER_FILES_AT_PATH,
        seq![
            text(file.repository_id@),
            text(file.path@),
            text(file.id@),
        ],
    )
}

/// The reading of `delete_file_calls`.
pub open spec fn delete_file_calls_spec(file_id: Seq<char>) -> StatementView {
    statement_of(DELETE_FILE_CALLS, seq![text(file_id)])
}

/// The reading of `delete_file_references`.
pub open spec fn delete_file_references_spec(file_id: Seq<char>) -> StatementView {
    statement_of(DELETE_FILE_REFERENCES, seq![text(file_id)])
}

/// The reading of `delete_file_tests`.
pub open spec fn delete_file_tests_spec(file_id: Seq<char>) -> StatementView {
    statement_of(DELETE_FILE_TESTS, seq![text(file_id)])
}

/// The reading of `delete_file_chunks`.
pub open spec fn delete_file_chunks_spec(file_id: Seq<char>) -> StatementView {
    statement_of(DELETE_FILE_CHUNKS, seq![text(file_id)])
}

/// The reading of `delete_file_symbols`.
pub open spec fn delete_file_symbols_spec(file_id: Seq<char>) -> StatementView {
    statement_of(DELETE_FILE_SYMBOLS, seq![text(file_id)])
}

/// The reading of `count_refs_to_file`.
pub open spec fn count_refs_to_file_spec(file_id: Seq<char>) -> StatementView {
    statement_of(COUNT_REFS_TO_FILE, seq![text(file_id)])
}

/// The reading of `delete_file`.
pub open spec fn delete_file_spec(file_id: Seq<char>) -> StatementView {
    statement_of(DELETE_FILE, seq![text(file_id)])
}

/// The reading of `insert_symbol`.
pub open spec fn insert_symbol_spec(symbol: SymbolRecord) -> StatementView {
    statement_of(
        INSERT_SYMBOL,
        seq![
            text(symbol.id@),
            text(symbol.file_id@),
            optional(optional_text(symbol.parent_symbol_id)),
            text(symbol.name@),
            text(symbol.qualified_name@),
            text(symbol.kind@),
            optional(optional_text(symbol.signature)),
            count(symbol.start_line),
            count(symbol.end_line),
            count(symbol.start_byte),
            count(symbol.end_byte),
            text(symbol.index_run_id@),
            text(symbol.parser_version@),
        ],
    )
}

/// The reading of `insert_symbol_reference`.
pub open spec fn insert_symbol_reference_spec(reference: SymbolReferenceRecord) -> StatementView {
    statement_of(
        INSERT_SYMBOL_REFERENCE,
        seq![
            text(reference.id@),
            text(reference.file_id@),
            optional(optional_text(reference.source_symbol_id)),
            optional(optional_text(reference.target_symbol_id)),
            text(reference.reference_text@),
            text(reference.reference_kind@),
            count(reference.line),
            Value::Real(reference.confidence),
            text(reference.resolution_status@),
            text(reference.index_run_id@),
            text(reference.parser_version@),
        ],
    )
}

/// The reading of `insert_chunk`.
pub open spec fn insert_chunk_spec(chunk: ChunkRecord) -> StatementView {
    statement_of(
        INSERT_CHUNK,
        seq![
            text(chunk.id@),
            text(chunk.file_id@),
            optional(optional_text(chunk.symbol_id)),
            text(chunk.kind@),
            text(chunk.text_hash@),
            count(chunk.start_line),
            count(chunk.end_line),
            count(chunk.start_byte),
            count(chunk.end_byte),
            optional(optional_text(chunk.vector_point_id)),
            optional(optional_text(chunk.excluded_reason)),
            text(chunk.index_run_id@),
            text(chunk.parser_version@),
            optional(optional_text(chunk.embedding_model)),
            optional_count(chunk.embedding_dimension),
            optional(optional_text(chunk.embedded_at)),
        ],
    )
}

/// The reading of `insert_call`.
pub open spec fn insert_call_spec(call: CallRecord) -> StatementView {
    statement_of(
        INSERT_CALL,
        seq![
            text(call.id@),
            text(call.caller_symbol_id@),
            text(call.callee_text@),
            optional(optional_text(call.callee_symbol_id)),
            count(call.call_line),
            Value::Real(call.confidence),
            text(call.resolution_status@),
            text(call.index_run_id@),
            text(call.parser_version@),
        ],
    )
}

/// The reading of `insert_test`.
pub open spec fn insert_test_spec(test: TestRecord, indexed_at: Seq<char>) -> StatementView {
    statement_of(
        INSERT_TEST,
        seq![
            text(test.id@),
            text(test.repository_id@),
            text(test.file_id@),
            optional(optional_text(test.symbol_id)),
            text(test.name@),
            text(test.qualified_name@),
            text(test.framework@),
            text(test.language@),
            text(test.path@),
            count(test.start_line),
            count(test.end_line),
            count(test.start_byte),
            count(test.end_byte),
            text(test.index_run_id@),
            text(test.parser_version@),
            text(indexed_at),
        ],
    )
}

/// The reading of `delete_ref_file`.
pub open spec fn delete_ref_file_spec(
    repository_ref_id: Seq<char>,
    path: Seq<char>,
) -> StatementView {
    statement_of(DELETE_REF_FILE, seq![text(repository_ref_id), text(path)])
}

/// The reading of `files_at_path`.
pub open spec fn files_at_path_spec(repository_id: Seq<char>, path: Seq<char>) -> StatementView {
    statement_of(FILES_AT_PATH, seq![text(repository_id), text(path)])
}

impl SqliteStore {
    /// Stores a file, or updates it.
    pub fn insert_file(file: &FileRecord, indexed_at: &str) -> (r: Statement)
        ensures
            r@ == insert_file_spec(*file, indexed_at@),
    {
        let params = vec![
            owned_value(&file.id),
            owned_value(&file.repository_id),
            owned_value(&file.path),
            owned_value(&file.language),
            owned_value(&file.content_hash),
            text_value(indexed_at),
            owned_value(&file.index_run_id),
            owned_value(&file.parser_version),
        ];
        proof {
            assert(values(params@) =~= insert_file_spec(*file, indexed_at@).params);
        }
        statement(INSERT_FILE, params)
    }

    /// The other files at the path of a file. Read as `String`s.
    pub fn other_files_at_path(file: &FileRecord) -> (r: Statement)
        ensures
            r@ == other_files_at_path_spec(*file),
    {
        let params = vec![
            owned_value(&file.repository_id),
            owned_value(&file.path),
            owned_value(&file.id),
        ];
        proof {
            assert(values(params@) =~= other_files_at_path_spec(*file).params);
        }
        statement(OTHER_FILES_AT_PATH, params)
    }

    /// Deletes the calls made in a file.
    pub fn delete_file_calls(file_id: &str) -> (r: Statement)
        ensures
            r@ == delete_file_calls_spec(file_id@),
    {
        let params = vec![text_value(file_id)];
        proof {
            assert(values(params@) =~= delete_file_calls_spec(file_id@).params);
        }
        statement(DELETE_FILE_CALLS, params)
    }

    /// Deletes the references made in a file.
    pub fn delete_file_references(file_id: &str) -> (r: Statement)
        ensures
            r@ == delete_file_references_spec(file_id@),
    {
        let params = vec![text_value(file_id)];
        proof {
            assert(values(params@) =~= delete_file_references_spec(file_id@).params);
        }
        statement(DELETE_FILE_REFERENCES, params)
    }

    /// Deletes the tests of a file.
    pub fn delete_file_tests(file_id: &str) -> (r: Statement)
        ensures
            r@ == delete_file_tests_spec(file_id@),
    {
        let params = vec![text_value(file_id)];
        proof {
            assert(values(params@) =~= delete_file_tests_spec(file_id@).params);
        }
        statement(DELETE_FILE_TESTS, params)
    }

    /// Deletes the chunks of a file.
    pub fn delete_file_chunks(file_id: &str) -> (r: Statement)
        ensures
            r@ == delete_file_chunks_spec(file_id@),
    {
        let params = vec![text_value(file_id)];
        proof {
            assert(values(params@) =~= delete_file_chunks_spec(file_id@).params);
        }
        statement(DELETE_FILE_CHUNKS, params)
    }

    /// Deletes the symbols of a file.
    pub fn delete_file_symbols(file_id: &str) -> (r: Statement)
        ensures
            r@ == delete_file_symbols_spec(file_id@),
    {
        let params = vec![text_value(file_id)];
        proof {
            assert(values(params@) =~= delete_file_symbols_spec(file_id@).params);
        }
        statement(DELETE_FILE_SYMBOLS, params)
    }

    /// Counts the refs that hold a file. Read as an `i64`.
    pub fn count_refs_to_file(file_id: &str) -> (r: Statement)
        ensures
            r@ == count_refs_to_file_spec(file_id@),
    {
        let params = vec![text_value(file_id)];
        proof {
            assert(values(params@) =~= count_refs_to_file_spec(file_id@).params);
        }
        statement(COUNT_REFS_TO_FILE, params)
    }

    /// Deletes a file.
    pub fn delete_file(file_id: &str) -> (r: Statement)
        ensures
            r@ == delete_file_spec(file_id@),
    {
        let params = vec![text_value(file_id)];
        proof {
            assert(values(params@) =~= delete_file_spec(file_id@).params);
        }
        statement(DELETE_FILE, params)
    }

    /// Stores a symbol.
    pub fn insert_symbol(symbol: &SymbolRecord) -> (r: Statement)
        ensures
            r@ == insert_symbol_spec(*symbol),
    {
        let params = vec![
            owned_value(&symbol.id),
            owned_value(&symbol.file_id),
            optional_owned_value(&symbol.parent_symbol_id),
            owned_value(&symbol.name),
            owned_value(&symbol.qualified_name),
            owned_value(&symbol.kind),
            optional_owned_value(&symbol.signature),
            count_value(symbol.start_line),
            count_value(symbol.end_line),
            count_value(symbol.start_byte),
            count_value(symbol.end_byte),
            owned_value(&symbol.index_run_id),
            owned_value(&symbol.parser_version),
        ];
        proof {
            assert(values(params@) =~= insert_symbol_spec(*symbol).params);
        }
        statement(INSERT_SYMBOL, params)
    }

    /// Stores a reference, or updates it.
    pub fn insert_symbol_reference(reference: &SymbolReferenceRecord) -> (r: Statement)
        ensures
            r@ == insert_symbol_reference_spec(*reference),
    {
        let params = vec![
            owned_value(&reference.id),
            owned_value(&reference.file_id),
            optional_owned_value(&reference.source_symbol_id),
            optional_owned_value(&reference.target_symbol_id),
            owned_value(&reference.reference_text),
            owned_value(&reference.reference_kind),
            count_value(reference.line),
            SqlValue::Real(reference.confidence),
            owned_value(&reference.resolution_status),
            owned_value(&reference.index_run_id),
            owned_value(&reference.parser_version),
        ];
        proof {
            assert(values(params@) =~= insert_symbol_reference_spec(*reference).params);
        }
        statement(INSERT_SYMBOL_REFERENCE, params)
    }

    /// Stores a chunk.
    pub fn insert_chunk(chunk: &ChunkRecord) -> (r: Statement)
        ensures
            r@ == insert_chunk_spec(*chunk),
    {
        let params = vec![
            owned_value(&chunk.id),
            owned_value(&chunk.file_id),
            optional_owned_value(&chunk.symbol_id),
            owned_value(&chunk.kind),
            owned_value(&chunk.text_hash),
            count_value(chunk.start_line),
            count_value(chunk.end_line),
            count_value(chunk.start_byte),
            count_value(chunk.end_byte),
            optional_owned_value(&chunk.vector_point_id),
            optional_owned_value(&chunk.excluded_reason),
            owned_value(&chunk.index_run_id),
            owned_value(&chunk.parser_version),
            optional_owned_value(&chunk.embedding_model),
            optional_count_value(chunk.embedding_dimension),
            optional_owned_value(&chunk.embedded_at),
        ];
        proof {
            assert(values(params@) =~= insert_chunk_spec(*chunk).params);
        }
        statement(INSERT_CHUNK, params)
    }

    /// Stores a call, or updates it.
    pub fn insert_call(call: &CallRecord) -> (r: Statement)
        ensures
            r@ == insert_call_spec(*call),
    {
        let params = vec![
            owned_value(&call.id),
            owned_value(&call.caller_symbol_id),
            owned_value(&call.callee_text),
            optional_owned_value(&call.callee_symbol_id),
            count_value(call.call_line),
            SqlValue::Real(call.confidence),
            owned_value(&call.resolution_status),
            owned_value(&call.index_run_id),
            owned_value(&call.parser_version),
        ];
        proof {
            assert(values(params@) =~= insert_call_spec(*call).params);
        }
        statement(INSERT_CALL, params)
    }

    /// Stores a test.
    pub fn insert_test(test: &TestRecord, indexed_at: &str) -> (r: Statement)
        ensures
            r@ == insert_test_spec(*test, indexed_at@),
    {
        let params = vec![
            owned_value(&test.id),
            owned_value(&test.repository_id),
            owned_value(&test.file_id),
            optional_owned_value(&test.symbol_id),
            owned_value(&test.name),
            owned_value(&test.qualified_name),
            owned_value(&test.framework),
            owned_value(&test.language),
            owned_value(&test.path),
            count_value(test.start_line),
            count_value(test.end_line),
            count_value(test.start_byte),
            count_value(test.end_byte),
            owned_value(&test.index_run_id),
            owned_value(&test.parser_version),
            text_value(indexed_at),
        ];
        proof {
            assert(values(params@) =~= insert_test_spec(*test, indexed_at@).params);
        }
        statement(INSERT_TEST, params)
    }

    /// Takes a path out of a ref.
    pub fn delete_ref_file(repository_ref_id: &str, path: &str) -> (r: Statement)
        ensures
            r@ == delete_ref_file_spec(repository_ref_id@, path@),
    {
        let params = vec![text_value(repository_ref_id), text_value(path)];
        proof {
            assert(values(params@) =~= delete_ref_file_spec(repository_ref_id@, path@).params);
        }
        statement(DELETE_REF_FILE, params)
    }

    /// The files at a path. Read as `String`s.
    pub fn files_at_path(repository_id: &str, path: &str) -> (r: Statement)
        ensures
            r@ == files_at_path_spec(repository_id@, path@),
    {
        let params = vec![text_value(repository_id), text_value(path)];
        proof {
            assert(values(params@) =~= files_at_path_spec(repository_id@, path@).params);
        }
        statement(FILES_AT_PATH, params)
    }
}

proof fn lemma_script_push(commands: Seq<Command>, command: Command)
    ensures
        script(commands.push(command)) == script(commands).push(command@),
{
    assert(script(commands.push(command)) =~= script(commands).push(command@));
}

/// The commands that delete the facts of a file.
pub open spec fn clear_script(file_id: Seq<char>) -> Seq<CommandView> {
    seq![
        CommandView::Execute(delete_file_calls_spec(file_id)),
        CommandView::Execute(delete_file_references_spec(file_id)),
        CommandView::Execute(delete_file_tests_spec(file_id)),
        CommandView::Execute(delete_file_chunks_spec(file_id)),
        CommandView::Execute(delete_file_symbols_spec(file_id)),
    ]
}

/// The commands that delete a file with its facts.
pub open spec fn drop_file_script(file_id: Seq<char>) -> Seq<CommandView> {
    clear_script(file_id).push(CommandView::Execute(delete_file_spec(file_id)))
}

/// The commands that delete files with their facts.
pub open spec fn drop_files_script(file_ids: Seq<Seq<char>>) -> Seq<CommandView>
    decreases file_ids.len(),
{
    if file_ids.len() == 0 {
        Seq::empty()
    } else {
        drop_files_script(file_ids.drop_last()) + drop_file_script(file_ids.last())
    }
}

/// The first commands of a replacement: the file is stored and linked to the ref, the other files
/// at its path are asked for, and its old facts are deleted.
pub open spec fn replace_script(
    repository_ref_id: Option<Seq<char>>,
    file: FileRecord,
    indexed_at: Seq<char>,
) -> Seq<CommandView> {
    let stored = seq![CommandView::Begin, CommandView::Execute(insert_file_spec(file, indexed_at))];
    let linked = match repository_ref_id {
        Some(ref_id) => seq![CommandView::Execute(link_file_to_ref_spec(ref_id, file, indexed_at))],
        None => Seq::empty(),
    };
    stored + linked + seq![CommandView::Query(other_files_at_path_spec(file))] + clear_script(
        file.id@,
    )
}

pub open spec fn symbol_inserts(symbols: Seq<SymbolRecord>) -> Seq<CommandView> {
    Seq::new(symbols.len(), |i: int| CommandView::Execute(insert_symbol_spec(symbols[i])))
}

pub open spec fn reference_inserts(references: Seq<SymbolReferenceRecord>) -> Seq<CommandView> {
    Seq::new(
        references.len(),
        |i: int| CommandView::Execute(insert_symbol_reference_spec(references[i])),
    )
}

pub open spec fn chunk_inserts(chunks: Seq<ChunkRecord>) -> Seq<CommandView> {
    Seq::new(chunks.len(), |i: int| CommandView::Execute(insert_chunk_spec(chunks[i])))
}

pub open spec fn call_inserts(calls: Seq<CallRecord>) -> Seq<CommandView> {
    Seq::new(calls.len(), |i: int| CommandView::Execute(insert_call_spec(calls[i])))
}

pub open spec fn test_inserts(tests: Seq<TestRecord>, indexed_at: Seq<char>) -> Seq<CommandView> {
    Seq::new(tests.len(), |i: int| CommandView::Execute(insert_test_spec(tests[i], indexed_at)))
}

/// The new facts of a file. References and tests may not be given: there are none of them then.
pub struct FileFacts<'a> {
    pub symbols: &'a Vec<SymbolRecord>,
    pub chunks: &'a Vec<ChunkRecord>,
    pub calls: &'a Vec<CallRecord>,
    pub symbol_references: Option<&'a Vec<SymbolReferenceRecord>>,
    pub tests: Option<&'a Vec<TestRecord>>,
}

/// The facts of a file that take the place of the old ones, in a ref or outside of any.
pub struct FileReplacement<'a> {
    pub repository_ref_id: Option<&'a str>,
    pub file: &'a FileRecord,
    pub facts: FileFacts<'a>,
}

/// A list that may not be given.
pub open spec fn given<T>(list: Option<&Vec<T>>) -> Seq<T> {
    match list {
        Some(list) => list@,
        None => Seq::empty(),
    }
}

/// The commands that store the new facts of a file.
pub open spec fn insert_script(facts: FileFacts<'_>, indexed_at: Seq<char>) -> Seq<CommandView> {
    symbol_inserts(facts.symbols@) + reference_inserts(given(facts.symbol_references))
        + chunk_inserts(facts.chunks@) + call_inserts(facts.calls@) + test_inserts(
        given(facts.tests),
        indexed_at,
    )
}

/// The last commands of a replacement: the files that the new one takes the place of are deleted,
/// and the new facts are stored.
pub open spec fn finish_replace_script(
    dropped: Seq<Seq<char>>,
    facts: FileFacts<'_>,
    indexed_at: Seq<char>,
) -> Seq<CommandView> {
    drop_files_script(dropped) + insert_script(facts, indexed_at) + seq![CommandView::Commit]
}

/// The files that no ref holds, by the number of refs that hold each.
pub open spec fn unreferenced(file_ids: Seq<Seq<char>>, ref_counts: Seq<i64>) -> Seq<Seq<char>>
    decreases file_ids.len(),
{
    if file_ids.len() == 0 {
        Seq::empty()
    } else {
        let front = unreferenced(file_ids.drop_last(), ref_counts);
        if ref_counts[file_ids.len() - 1] > 0 {
            front
        } else {
            front.push(file_ids.last())
        }
    }
}

/// The paths that are no more active, in order.
pub open spec fn missing_of(existing: Seq<Seq<char>>, active: Seq<Seq<char>>) -> Seq<Seq<char>> {
    existing.filter(|path: Seq<char>| !active.contains(path))
}

/// The commands that take paths out of a ref.
pub open spec fn ref_file_deletes(
    repository_ref_id: Seq<char>,
    missing: Seq<Seq<char>>,
) -> Seq<CommandView> {
    Seq::new(
        missing.len(),
        |i: int| CommandView::Execute(delete_ref_file_spec(repository_ref_id, missing[i])),
    )
}

/// The questions for the files at paths.
pub open spec fn path_questions(
    repository_id: Seq<char>,
    missing: Seq<Seq<char>>,
) -> Seq<CommandView> {
    Seq::new(
        missing.len(),
        |i: int| CommandView::Query(files_at_path_spec(repository_id, missing[i])),
    )
}

/// The questions for the refs that hold files.
pub open spec fn ref_questions(file_ids: Seq<Seq<char>>) -> Seq<CommandView> {
    Seq::new(file_ids.len(), |i: int| CommandView::Query(count_refs_to_file_spec(file_ids[i])))
}

/// The commands that begin a removal of files: none where no path is missing.
pub open spec fn removal_start(
    repository_id: Seq<char>,
    missing: Seq<Seq<char>>,
) -> Seq<CommandView> {
    if missing.len() == 0 {
        Seq::empty()
    } else {
        seq![CommandView::Begin] + path_questions(repository_id, missing)
    }
}

/// The commands that end a removal of files: none where no path is missing.
pub open spec fn removal_end(
    missing: Seq<Seq<char>>,
    file_ids: Seq<Seq<char>>,
) -> Seq<CommandView> {
    if missing.len() == 0 {
        Seq::empty()
    } else {
        drop_files_script(file_ids).push(CommandView::Commit)
    }
}

/// Commands in one transaction, none where there is nothing to do.
pub open spec fn in_transaction(commands: Seq<CommandView>) -> Seq<CommandView> {
    if commands.len() == 0 {
        Seq::empty()
    } else {
        seq![CommandView::Begin] + commands + seq![CommandView::Commit]
    }
}

fn push_clear(commands: &mut Vec<Command>, file_id: &str)
    ensures
        script(final(commands)@) == script(old(commands)@) + clear_script(file_id@),
{
    let ghost before = script(commands@);
    commands.push(Command::Execute(SqliteStore::delete_file_calls(file_id)));
    commands.push(Command::Execute(SqliteStore::delete_file_references(file_id)));
    commands.push(Command::Execute(SqliteStore::delete_file_tests(file_id)));
    commands.push(Command::Execute(SqliteStore::delete_file_chunks(file_id)));
    commands.push(Command::Execute(SqliteStore::delete_file_symbols(file_id)));
    proof {
        assert(script(commands@) =~= before + clear_script(file_id@));
    }
}

fn push_drop_files(commands: &mut Vec<Command>, file_ids: &Vec<String>)
    ensures
        script(final(commands)@) == script(old(commands)@) + drop_files_script(texts(file_ids@)),
{
    let ghost before = script(commands@);
    let ghost ids = texts(file_ids@);
    proof {
        assert(before + drop_files_script(ids.take(0)) =~= before);
    }
    for i in 0..file_ids.len()
        invariant
            ids == texts(file_ids@),
            script(commands@) == before + drop_files_script(ids.take(i as int)),
    {
        let ghost known = commands@;
        push_clear(commands, file_ids[i].as_str());
        let ghost cleared = commands@;
        commands.push(Command::Execute(SqliteStore::delete_file(file_ids[i].as_str())));
        proof {
            assert(ids.take(i + 1).drop_last() =~= ids.take(i as int));
            assert(ids.take(i + 1).last() == file_ids@[i as int]@);
            assert(script(commands@) =~= script(cleared).push(
                CommandView::Execute(delete_file_spec(file_ids@[i as int]@)),
            ));
            assert(script(commands@) =~= script(known) + drop_file_script(file_ids@[i as int]@));
            assert(script(commands@) =~= before + drop_files_script(ids.take(i + 1)));
        }
    }
    proof {
        assert(ids.take(ids.len() as int) =~= ids);
    }
}

fn push_symbols(commands: &mut Vec<Command>, symbols: &Vec<SymbolRecord>)
    ensures
        script(final(commands)@) == script(old(commands)@) + symbol_inserts(symbols@),
{
    let ghost start = script(commands@);
    for i in 0..symbols.len()
        invariant
            script(commands@) == start + symbol_inserts(symbols@).take(i as int),
    {
        let ghost before = commands@;
        commands.push(Command::Execute(SqliteStore::insert_symbol(&symbols[i])));
        proof {
            lemma_script_push(before, commands@.last());
            assert(commands@ =~= before.push(commands@.last()));
            assert(script(commands@) =~= start + symbol_inserts(symbols@).take(i + 1));
        }
    }
    proof {
        assert(script(commands@) =~= start + symbol_inserts(symbols@));
    }
}

fn push_references(commands: &mut Vec<Command>, references: &Vec<SymbolReferenceRecord>)
    ensures
        script(final(commands)@) == script(old(commands)@) + reference_inserts(references@),
{
    let ghost start = script(commands@);
    for i in 0..references.len()
        invariant
            script(commands@) == start + reference_inserts(references@).take(i as int),
    {
        let ghost before = commands@;
        commands.push(Command::Execute(SqliteStore::insert_symbol_reference(&references[i])));
        proof {
            lemma_script_push(before, commands@.last());
            assert(commands@ =~= before.push(commands@.last()));
            assert(script(commands@) =~= start + reference_inserts(references@).take(i + 1));
        }
    }
    proof {
        assert(script(commands@) =~= start + reference_inserts(references@));
    }
}

fn push_chunks(commands: &mut Vec<Command>, chunks: &Vec<ChunkRecord>)
    ensures
        script(final(commands)@) == script(old(commands)@) + chunk_inserts(chunks@),
{
    let ghost start = script(commands@);
    for i in 0..chunks.len()
        invariant
            script(commands@) == start + chunk_inserts(chunks@).take(i as int),
    {
        let ghost before = commands@;
        commands.push(Command::Execute(SqliteStore::insert_chunk(&chunks[i])));
        proof {
            lemma_script_push(before, commands@.last());
            assert(commands@ =~= before.push(commands@.last()));
            assert(script(commands@) =~= start + chunk_inserts(chunks@).take(i + 1));
        }
    }
    proof {
        assert(script(commands@) =~= start + chunk_inserts(chunks@));
    }
}

fn push_calls(commands: &mut Vec<Command>, calls: &Vec<CallRecord>)
    ensures
        script(final(commands)@) == script(old(commands)@) + call_inserts(calls@),
{
    let ghost start = script(commands@);
    for i in 0..calls.len()
        invariant
            script(commands@) == start + call_inserts(calls@).take(i as int),
    {
        let ghost before = commands@;
        commands.push(Command::Execute(SqliteStore::insert_call(&calls[i])));
        proof {
            lemma_script_push(before, commands@.last());
            assert(commands@ =~= before.push(commands@.last()));
            assert(script(commands@) =~= start + call_inserts(calls@).take(i + 1));
        }
    }
    proof {
        assert(script(commands@) =~= start + call_inserts(calls@));
    }
}

fn push_tests(commands: &mut Vec<Command>, tests: &Vec<TestRecord>, indexed_at: &str)
    ensures
        script(final(commands)@) == script(old(commands)@) + test_inserts(tests@, indexed_at@),
{
    let ghost start = script(commands@);
    for i in 0..tests.len()
        invariant
            script(commands@) == start + test_inserts(tests@, indexed_at@).take(i as int),
    {
        let ghost before = commands@;
        commands.push(Command::Execute(SqliteStore::insert_test(&tests[i], indexed_at)));
        proof {
            lemma_script_push(before, commands@.last());
            assert(commands@ =~= before.push(commands@.last()));
            assert(script(commands@) =~= start + test_inserts(tests@, indexed_at@).take(i + 1));
        }
    }
    proof {
        assert(script(commands@) =~= start + test_inserts(tests@, indexed_at@));
    }
}

fn push_inserts(commands: &mut Vec<Command>, facts: &FileFacts<'_>, indexed_at: &str)
    ensures
        script(final(commands)@) == script(old(commands)@) + insert_script(*facts, indexed_at@),
{
    let ghost start = script(commands@);
    push_symbols(commands, facts.symbols);
    let ghost after_symbols = script(commands@);
    if let Some(references) = facts.symbol_references {
        push_references(commands, references);
    }
    proof {
        assert(script(commands@) =~= after_symbols + reference_inserts(
            given(facts.symbol_references),
        ));
    }
    push_chunks(commands, facts.chunks);
    push_calls(commands, facts.calls);
    let ghost after_calls = script(commands@);
    if let Some(tests) = facts.tests {
        push_tests(commands, tests, indexed_at);
    }
    proof {
        assert(script(commands@) =~= after_calls + test_inserts(given(facts.tests), indexed_at@));
        assert(script(commands@) =~= start + insert_script(*facts, indexed_at@));
    }
}

/// The paths that are no more active.
pub fn missing_paths(existing: &Vec<String>, active_paths: &Vec<String>) -> (r: Vec<String>)
    ensures
        texts(r@) == missing_of(texts(existing@), texts(active_paths@)),
{
    let ghost all = texts(existing@);
    let ghost active = texts(active_paths@);
    let mut missing: Vec<String> = Vec::new();
    proof {
        reveal(Seq::filter);
        assert(texts(missing@) =~= missing_of(all.take(0), active));
    }
    for i in 0..existing.len()
        invariant
            all == texts(existing@),
            active == texts(active_paths@),
            texts(missing@) == missing_of(all.take(i as int), active),
    {
        let ghost before = texts(missing@);
        proof {
            reveal(Seq::filter);
            assert(all.take(i + 1).drop_last() =~= all.take(i as int));
            assert(all.take(i + 1).last() == existing@[i as int]@);
        }
        if !contains_text(active_paths, existing[i].as_str()) {
            missing.push(existing[i].clone());
            proof {
                assert(texts(missing@) =~= before.push(existing@[i as int]@));
            }
        }
    }
    proof {
        assert(all.take(all.len() as int) =~= all);
    }
    missing
}

/// The files that no ref holds.
pub fn unreferenced_files(file_ids: &Vec<String>, ref_counts: &Vec<i64>) -> (r: Vec<String>)
    requires
        ref_counts@.len() == file_ids@.len(),
    ensures
        texts(r@) == unreferenced(texts(file_ids@), ref_counts@),
{
    let ghost all = texts(file_ids@);
    let mut out: Vec<String> = Vec::new();
    proof {
        assert(texts(out@) =~= unreferenced(all.take(0), ref_counts@));
    }
    for i in 0..file_ids.len()
        invariant
            ref_counts@.len() == file_ids@.len(),
            all == texts(file_ids@),
            texts(out@) == unreferenced(all.take(i as int), ref_counts@),
    {
        let ghost before = texts(out@);
        proof {
            assert(all.take(i + 1).drop_last() =~= all.take(i as int));
            assert(all.take(i + 1).last() == file_ids@[i as int]@);
        }
        if ref_counts[i] <= 0 {
            out.push(file_ids[i].clone());
            proof {
                assert(texts(out@) =~= before.push(file_ids@[i as int]@));
            }
        }
    }
    proof {
        assert(all.take(all.len() as int) =~= all);
    }
    out
}

/// The files that a replacement deletes: the others at the path of its file, those that some ref
/// holds left out where the file belongs to a ref.
pub open spec fn displaced(
    replacement: FileReplacement<'_>,
    others: Seq<Seq<char>>,
    ref_counts: Seq<i64>,
) -> Seq<Seq<char>> {
    if replacement.repository_ref_id is Some {
        unreferenced(others, ref_counts)
    } else {
        others
    }
}

/// `r` replaces the facts of a file by the given ones.
pub open spec fn replaces(
    r: FileReplacement<'_>,
    repository_ref_id: Option<Seq<char>>,
    file: FileRecord,
    symbols: Seq<SymbolRecord>,
    chunks: Seq<ChunkRecord>,
    calls: Seq<CallRecord>,
    symbol_references: Seq<SymbolReferenceRecord>,
    tests: Seq<TestRecord>,
) -> bool {
    &&& optional_str(r.repository_ref_id) == repository_ref_id
    &&& *r.file == file
    &&& r.facts.symbols@ == symbols
    &&& r.facts.chunks@ == chunks
    &&& r.facts.calls@ == calls
    &&& given(r.facts.symbol_references) == symbol_references
    &&& given(r.facts.tests) == tests
}

impl SqliteStore {
    /// A replacement of the facts of a file outside of any ref, without references and tests.
    pub fn replace_file_facts<'a>(
        file: &'a FileRecord,
        symbols: &'a Vec<SymbolRecord>,
        chunks: &'a Vec<ChunkRecord>,
        calls: &'a Vec<CallRecord>,
    ) -> (r: FileReplacement<'a>)
        ensures
            replaces(
                r,
                None,
                *file,
                symbols@,
                chunks@,
                calls@,
                Seq::empty(),
                Seq::empty(),
            ),
    {
        FileReplacement {
            repository_ref_id: None,
            file,
            facts: FileFacts { symbols, chunks, calls, symbol_references: None, tests: None },
        }
    }

    /// A replacement of the facts of a file outside of any ref, without references.
    pub fn replace_file_facts_with_tests<'a>(
        file: &'a FileRecord,
        symbols: &'a Vec<SymbolRecord>,
        chunks: &'a Vec<ChunkRecord>,
        calls: &'a Vec<CallRecord>,
        tests: &'a Vec<TestRecord>,
    ) -> (r: FileReplacement<'a>)
        ensures
            replaces(r, None, *file, symbols@, chunks@, calls@, Seq::empty(), tests@),
    {
        FileReplacement {
            repository_ref_id: None,
            file,
            facts: FileFacts {
                symbols,
                chunks,
                calls,
                symbol_references: None,
                tests: Some(tests),
            },
        }
    }

    /// A replacement of the facts of a file outside of any ref.
    pub fn replace_file_facts_with_references_and_tests<'a>(
        file: &'a FileRecord,
        symbols: &'a Vec<SymbolRecord>,
        chunks: &'a Vec<ChunkRecord>,
        calls: &'a Vec<CallRecord>,
        symbol_references: &'a Vec<SymbolReferenceRecord>,
        tests: &'a Vec<TestRecord>,
    ) -> (r: FileReplacement<'a>)
        ensures
            replaces(r, None, *file, symbols@, chunks@, calls@, symbol_references@, tests@),
    {
        FileReplacement {
            repository_ref_id: None,
            file,
            facts: FileFacts {
                symbols,
                chunks,
                calls,
                symbol_references: Some(symbol_references),
                tests: Some(tests),
            },
        }
    }

    /// A replacement of the facts of a file in a ref, without references.
    pub fn replace_file_facts_for_ref_with_tests<'a>(
        repository_ref_id: &'a str,
        file: &'a FileRecord,
        symbols: &'a Vec<SymbolRecord>,
        chunks: &'a Vec<ChunkRecord>,
        calls: &'a Vec<CallRecord>,
        tests: &'a Vec<TestRecord>,
    ) -> (r: FileReplacement<'a>)
        ensures
            replaces(
                r,
                Some(repository_ref_id@),
                *file,
                symbols@,
                chunks@,
                calls@,
                Seq::empty(),
                tests@,
            ),
    {
        FileReplacement {
            repository_ref_id: Some(repository_ref_id),
            file,
            facts: FileFacts {
                symbols,
                chunks,
                calls,
                symbol_references: None,
                tests: Some(tests),
            },
        }
    }

    /// A replacement of the facts of a file in a ref.
    pub fn replace_file_facts_for_ref_with_references_and_tests<'a>(
        repository_ref_id: &'a str,
        file: &'a FileRecord,
        symbols: &'a Vec<SymbolRecord>,
        chunks: &'a Vec<ChunkRecord>,
        calls: &'a Vec<CallRecord>,
        symbol_references: &'a Vec<SymbolReferenceRecord>,
        tests: &'a Vec<TestRecord>,
    ) -> (r: FileReplacement<'a>)
        ensures
            replaces(
                r,
                Some(repository_ref_id@),
                *file,
                symbols@,
                chunks@,
                calls@,
                symbol_references@,
                tests@,
            ),
    {
        FileReplacement {
            repository_ref_id: Some(repository_ref_id),
            file,
            facts: FileFacts {
                symbols,
                chunks,
                calls,
                symbol_references: Some(symbol_references),
                tests: Some(tests),
            },
        }
    }
}

impl FileReplacement<'_> {
    /// The first commands of the replacement. The rows of the query among them are the other files
    /// at the path, read as `String`s.
    pub fn start(&self, indexed_at: &str) -> (r: Vec<Command>)
        ensures
            script(r@) == replace_script(
                optional_str(self.repository_ref_id),
                *self.file,
                indexed_at@,
            ),
    {
        let mut commands: Vec<Command> = Vec::new();
        commands.push(Command::Begin);
        commands.push(Command::Execute(SqliteStore::insert_file(self.file, indexed_at)));
        if let Some(repository_ref_id) = self.repository_ref_id {
            commands.push(
                Command::Execute(
                    SqliteStore::link_file_to_ref(repository_ref_id, self.file, indexed_at),
                ),
            );
        }
        commands.push(Command::Query(SqliteStore::other_files_at_path(self.file)));
        push_clear(&mut commands, self.file.id.as_str());
        proof {
            assert(script(commands@) =~= replace_script(
                optional_str(self.repository_ref_id),
                *self.file,
                indexed_at@,
            ));
        }
        commands
    }

    /// The questions for the refs that hold the other files; none where the file belongs to no
    /// ref. Each answer is read as an `i64`.
    pub fn count_refs(&self, others: &Vec<String>) -> (r: Vec<Command>)
        ensures
            script(r@) == if self.repository_ref_id is Some {
                ref_questions(texts(others@))
            } else {
                Seq::empty()
            },
    {
        if self.repository_ref_id.is_some() {
            SqliteStore::count_refs_to_files(others)
        } else {
            let commands: Vec<Command> = Vec::new();
            proof {
                assert(script(commands@) =~= Seq::empty());
            }
            commands
        }
    }

    /// The last commands of the replacement. Where the file belongs to a ref, `ref_counts` holds
    /// how many refs hold each of the other files, and those that some ref holds stay; without a
    /// ref all of them go.
    pub fn finish(&self, others: &Vec<String>, ref_counts: &Vec<i64>, indexed_at: &str) -> (r: Vec<
        Command,
    >)
        requires
            self.repository_ref_id is Some ==> ref_counts@.len() == others@.len(),
        ensures
            script(r@) == finish_replace_script(
                displaced(*self, texts(others@), ref_counts@),
                self.facts,
                indexed_at@,
            ),
    {
        let mut commands: Vec<Command> = Vec::new();
        let ghost dropped = displaced(*self, texts(others@), ref_counts@);
        if self.repository_ref_id.is_some() {
            let gone = unreferenced_files(others, ref_counts);
            push_drop_files(&mut commands, &gone);
        } else {
            push_drop_files(&mut commands, others);
        }
        proof {
            assert(script(commands@) =~= drop_files_script(dropped));
        }
        push_inserts(&mut commands, &self.facts, indexed_at);
        let ghost before = commands@;
        commands.push(Command::Commit);
        proof {
            lemma_script_push(before, Command::Commit);
            assert(script(commands@) =~= finish_replace_script(dropped, self.facts, indexed_at@));
        }
        commands
    }
}

impl SqliteStore {
    /// The questions for the refs that hold files, in order. Each answer is read as an `i64`.
    pub fn count_refs_to_files(file_ids: &Vec<String>) -> (r: Vec<Command>)
        ensures
            script(r@) == ref_questions(texts(file_ids@)),
    {
        let mut commands: Vec<Command> = Vec::new();
        let ghost all = ref_questions(texts(file_ids@));
        proof {
            assert(script(commands@) =~= all.take(0));
        }
        for i in 0..file_ids.len()
            invariant
                all == ref_questions(texts(file_ids@)),
                script(commands@) == all.take(i as int),
        {
            let ghost before = commands@;
            commands.push(Command::Query(SqliteStore::count_refs_to_file(file_ids[i].as_str())));
            proof {
                lemma_script_push(before, commands@.last());
                assert(commands@ =~= before.push(commands@.last()));
                assert(script(commands@) =~= all.take(i + 1));
            }
        }
        proof {
            assert(all.take(file_ids@.len() as int) =~= all);
        }
        commands
    }

    /// The commands that take paths out of a ref, none where none is missing, and the number of
    /// paths taken out.
    pub fn remove_missing_ref_files(repository_ref_id: &str, missing: &Vec<String>) -> (r: (
        Vec<Command>,
        usize,
    ))
        ensures
            script(r.0@) == in_transaction(ref_file_deletes(repository_ref_id@, texts(missing@))),
            r.1 == missing@.len(),
    {
        let mut commands: Vec<Command> = Vec::new();
        let ghost all = ref_file_deletes(repository_ref_id@, texts(missing@));
        if missing.len() == 0 {
            proof {
                assert(script(commands@) =~= in_transaction(all));
            }
            return (commands, 0);
        }
        commands.push(Command::Begin);
        proof {
            assert(script(commands@) =~= seq![CommandView::Begin] + all.take(0));
        }
        for i in 0..missing.len()
            invariant
                all == ref_file_deletes(repository_ref_id@, texts(missing@)),
                script(commands@) == seq![CommandView::Begin] + all.take(i as int),
        {
            let ghost before = commands@;
            commands.push(
                Command::Execute(
                    SqliteStore::delete_ref_file(repository_ref_id, missing[i].as_str()),
                ),
            );
            proof {
                lemma_script_push(before, commands@.last());
                assert(commands@ =~= before.push(commands@.last()));
                assert(script(commands@) =~= seq![CommandView::Begin] + all.take(i + 1));
            }
        }
        let ghost before = commands@;
        commands.push(Command::Commit);
        proof {
            lemma_script_push(before, Command::Commit);
            assert(script(commands@) =~= in_transaction(all));
        }
        (commands, missing.len())
    }

    /// The first commands of a removal of files: the questions for the files at the missing
    /// paths; none where none is missing. The answers are read as `String`s.
    pub fn files_at_missing_paths(repository_id: &str, missing: &Vec<String>) -> (r: Vec<Command>)
        ensures
            script(r@) == removal_start(repository_id@, texts(missing@)),
    {
        let mut commands: Vec<Command> = Vec::new();
        let ghost all = path_questions(repository_id@, texts(missing@));
        if missing.len() == 0 {
            proof {
                assert(script(commands@) =~= Seq::empty());
            }
            return commands;
        }
        commands.push(Command::Begin);
        proof {
            assert(script(commands@) =~= seq![CommandView::Begin] + all.take(0));
        }
        for i in 0..missing.len()
            invariant
                all == path_questions(repository_id@, texts(missing@)),
                script(commands@) == seq![CommandView::Begin] + all.take(i as int),
        {
            let ghost before = commands@;
            commands.push(
                Command::Query(SqliteStore::files_at_path(repository_id, missing[i].as_str())),
            );
            proof {
                lemma_script_push(before, commands@.last());
                assert(commands@ =~= before.push(commands@.last()));
                assert(script(commands@) =~= seq![CommandView::Begin] + all.take(i + 1));
            }
        }
        proof {
            assert(all.take(missing@.len() as int) =~= all);
        }
        commands
    }

    fn end_removal(missing: &Vec<String>, file_ids: &Vec<String>) -> (r: Vec<Command>)
        ensures
            script(r@) == removal_end(texts(missing@), texts(file_ids@)),
    {
        let mut commands: Vec<Command> = Vec::new();
        if missing.len() == 0 {
            proof {
                assert(script(commands@) =~= Seq::empty());
            }
            return commands;
        }
        push_drop_files(&mut commands, file_ids);
        let ghost before = commands@;
        commands.push(Command::Commit);
        proof {
            lemma_script_push(before, Command::Commit);
            assert(script(commands@) =~= drop_files_script(texts(file_ids@)).push(
                CommandView::Commit,
            ));
        }
        commands
    }

    /// The last commands of a removal of files that are removed whatever refs hold them, none
    /// where no path is missing, and the number of paths removed. `file_ids` are the files at the
    /// missing paths.
    pub fn remove_missing_files(missing: &Vec<String>, file_ids: &Vec<String>) -> (r: (
        Vec<Command>,
        usize,
    ))
        ensures
            script(r.0@) == removal_end(texts(missing@), texts(file_ids@)),
            r.1 == missing@.len(),
    {
        (SqliteStore::end_removal(missing, file_ids), missing.len())
    }

    /// The last commands of a removal of files that only removes those that no ref holds, none
    /// where no path is missing, and the number of files removed. `file_ids` are the files at the
    /// missing paths, and `ref_counts` tells of each how many refs hold it.
    pub fn remove_unreferenced_missing_files(
        missing: &Vec<String>,
        file_ids: &Vec<String>,
        ref_counts: &Vec<i64>,
    ) -> (r: (Vec<Command>, usize))
        requires
            ref_counts@.len() == file_ids@.len(),
        ensures
            script(r.0@) == removal_end(
                texts(missing@),
                unreferenced(texts(file_ids@), ref_counts@),
            ),
            r.1 == if missing@.len() == 0 {
                0
            } else {
                unreferenced(texts(file_ids@), ref_counts@).len()
            },
    {
        let gone = unreferenced_files(file_ids, ref_counts);
        let commands = SqliteStore::end_removal(missing, &gone);
        if missing.len() == 0 {
            return (commands, 0);
        }
        (commands, gone.len())
    }
}

/// A path is missing exactly when it is among the existing ones and not active.
pub proof fn law_missing_paths_are_those_not_active(
    existing: Seq<Seq<char>>,
    active: Seq<Seq<char>>,
    path: Seq<char>,
)
    ensures
        missing_of(existing, active).contains(path) <==> existing.contains(path)
            && !active.contains(path),
    decreases existing.len(),
{
    reveal(Seq::filter);
    if existing.len() > 0 {
        let front = existing.drop_last();
        let before = missing_of(front, active);
        let now = missing_of(existing, active);
        law_missing_paths_are_those_not_active(front, active, path);
        crate::text::lemma_insert_members(front, front.len() as int, existing.last());
        assert(front.insert(front.len() as int, existing.last()) =~= existing);
        if !active.contains(existing.last()) {
            crate::text::lemma_insert_members(before, before.len() as int, existing.last());
            assert(before.insert(before.len() as int, existing.last()) =~= now);
        }
    }
}

/// A file that some ref holds is never among the files to delete, and one that none holds always
/// is.
pub proof fn law_referenced_files_are_kept(file_ids: Seq<Seq<char>>, ref_counts: Seq<i64>, k: int)
    requires
        ref_counts.len() == file_ids.len(),
        file_ids.no_duplicates(),
        0 <= k < file_ids.len(),
    ensures
        unreferenced(file_ids, ref_counts).contains(file_ids[k]) <==> ref_counts[k] <= 0,
    decreases file_ids.len(),
{
    lemma_unreferenced_prefix(file_ids, ref_counts, file_ids.len() as int, k);
    assert(file_ids.take(file_ids.len() as int) =~= file_ids);
}

proof fn lemma_unreferenced_prefix(
    file_ids: Seq<Seq<char>>,
    ref_counts: Seq<i64>,
    n: int,
    k: int,
)
    requires
        ref_counts.len() == file_ids.len(),
        file_ids.no_duplicates(),
        0 <= k < file_ids.len(),
        0 <= n <= file_ids.len(),
    ensures
        unreferenced(file_ids.take(n), ref_counts).contains(file_ids[k]) <==> k < n
            && ref_counts[k] <= 0,
    decreases n,
{
    if n > 0 {
        let whole = file_ids.take(n);
        assert(whole.drop_last() =~= file_ids.take(n - 1));
        assert(whole.last() == file_ids[n - 1]);
        lemma_unreferenced_prefix(file_ids, ref_counts, n - 1, k);
        let before = unreferenced(file_ids.take(n - 1), ref_counts);
        if ref_counts[n - 1] <= 0 {
            crate::text::lemma_insert_members(before, before.len() as int, whole.last());
            assert(before.insert(before.len() as int, whole.last()) =~= unreferenced(
                whole,
                ref_counts,
            ));
        }
    }
}

} // verus!
