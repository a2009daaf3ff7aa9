//! Searches for symbols, calls and tests.

use vstd::prelude::*;
use crate::sql::{
    count, count_value, queries, script, statement, statement_of, text, text_value, values, Command,
    CommandView, Statement, StatementView,
};
use crate::store::SqliteStore;
use crate::text::surrounded;

verus! {

pub const FIND_SYMBOLS: &'static str =
    "SELECT symbols.id, symbols.name, symbols.qualified_name, symbols.kind,
           files.path, symbols.start_line, symbols.end_line,
           files.content_hash, symbols.index_run_id, symbols.parser_version,
           files.indexed_at
    FROM symbols
    JOIN files ON symbols.file_id = files.id
    WHERE files.repository_id = ?1
      AND (symbols.name = ?2 OR symbols.qualified_name = ?2
           OR symbols.name LIKE ?3 OR symbols.qualified_name LIKE ?3)
    ORDER BY
      CASE
        WHEN symbols.qualified_name = ?2 THEN 0
        WHEN symbols.name = ?2 THEN 1
        ELSE 2
      END,
      files.path,
      symbols.start_line
    LIMIT 25";

pub const FIND_SYMBOLS_FOR_REF: &'static str =
    "SELECT symbols.id, symbols.name, symbols.qualified_name, symbols.kind,
           files.path, symbols.start_line, symbols.end_line,
           files.content_hash, symbols.index_run_id, symbols.parser_version,
           files.indexed_at
    FROM symbols
    JOIN files ON symbols.file_id = files.id
    JOIN ref_files ON ref_files.file_id = files.id
    WHERE files.repository_id = ?1
      AND ref_files.repository_ref_id = ?2
      AND (symbols.name = ?3 OR symbols.qualified_name = ?3
           OR symbols.name LIKE ?4 OR symbols.qualified_name LIKE ?4)
    ORDER BY
      CASE
        WHEN symbols.qualified_name = ?3 THEN 0
        WHEN symbols.name = ?3 THEN 1
        ELSE 2
      END,
      files.path,
      symbols.start_line
    LIMIT 25";

pub const TESTS_MATCHING_NAME: &'static str =
    "SELECT tests.id, tests.name, tests.qualified_name, tests.framework,
          tests.language, tests.path, tests.start_line, tests.end_line,
          files.content_hash, tests.index_run_id, tests.parser_version, tests.indexed_at
     FROM tests
     JOIN files ON tests.file_id = files.id
    WHERE tests.repository_id = ?1
      AND (tests.name = ?2 OR tests.qualified_name = ?2 OR tests.qualified_name LIKE ?3)
    ORDER BY
      CASE
        WHEN tests.qualified_name = ?2 THEN 0
        WHEN tests.name = ?2 THEN 1
        ELSE 2
      END,
      tests.path,
      tests.start_line
    LIMIT 25";

pub const REPOSITORY_HAS_REF_FILE_MANIFESTS: &'static str =
    "SELECT COUNT(*) FROM ref_files WHERE repository_id = ?1";

pub const FILE_PROVENANCE: &'static str =
    "SELECT content_hash, index_run_id, parser_version, indexed_at
     FROM files
    WHERE repository_id = ?1 AND path = ?2
    LIMIT 1";

pub const SYMBOLS_AT_LOCATION: &'static str =
    "SELECT symbols.id, symbols.name, symbols.qualified_name, symbols.kind,
          files.path, symbols.start_line, symbols.end_line,
          files.content_hash, symbols.index_run_id, symbols.parser_version,
          files.indexed_at
     FROM symbols
     JOIN files ON symbols.file_id = files.id
    WHERE files.repository_id = ?1
      AND files.path = ?2
      AND symbols.start_line <= ?3
      AND symbols.end_line >= ?3
    ORDER BY (symbols.end_line - symbols.start_line), symbols.start_line, symbols.qualified_name
    LIMIT 10";

pub const CALLS_AT_LOCATION: &'static str =
    "SELECT calls.id, calls.callee_text, calls.call_line, calls.confidence,
          calls.resolution_status,
          caller.id, caller.name, caller.qualified_name, caller.kind,
          caller_files.path, caller.start_line, caller.end_line,
          callee.id, callee.name, callee.qualified_name, callee.kind,
          callee_files.path, callee.start_line, callee.end_line,
          caller_files.content_hash, calls.index_run_id, calls.parser_version,
          caller_files.indexed_at
     FROM calls
     JOIN symbols caller ON calls.caller_symbol_id = caller.id
     JOIN files caller_files ON caller.file_id = caller_files.id
     LEFT JOIN symbols callee ON calls.callee_symbol_id = callee.id
     LEFT JOIN files callee_files ON callee.file_id = callee_files.id
    WHERE caller_files.repository_id = ?1
      AND caller_files.path = ?2
      AND calls.call_line = ?3
    ORDER BY caller.qualified_name, calls.callee_text, calls.id
    LIMIT 25";

pub const CALLERS: &'static str =
    "SELECT calls.callee_text, calls.call_line, calls.confidence, calls.resolution_status,
           caller.id, caller.name, caller.qualified_name, caller.kind,
           files.path, caller.start_line, caller.end_line,
           files.content_hash, calls.index_run_id, calls.parser_version,
           files.indexed_at
     FROM calls
     JOIN symbols target ON calls.callee_symbol_id = target.id
     JOIN symbols caller ON calls.caller_symbol_id = caller.id
    JOIN files ON caller.file_id = files.id
    WHERE files.repository_id = ?1
      AND (target.id = ?2 OR target.name = ?2 OR target.qualified_name = ?2)
    ORDER BY files.path, calls.call_line
    LIMIT 50";

pub const CALLERS_FOR_REF: &'static str =
    "SELECT calls.callee_text, calls.call_line, calls.confidence, calls.resolution_status,
           caller.id, caller.name, caller.qualified_name, caller.kind,
           caller_files.path, caller.start_line, caller.end_line,
           caller_files.content_hash, calls.index_run_id, calls.parser_version,
           caller_files.indexed_at
     FROM calls
     JOIN symbols target ON calls.callee_symbol_id = target.id
     JOIN files target_files ON target.file_id = target_files.id
     JOIN ref_files target_ref ON target_ref.file_id = target_files.id
     JOIN symbols caller ON calls.caller_symbol_id = caller.id
     JOIN files caller_files ON caller.file_id = caller_files.id
     JOIN ref_files caller_ref ON caller_ref.file_id = caller_files.id
    WHERE caller_files.repository_id = ?1
      AND target_ref.repository_ref_id = ?2
      AND caller_ref.repository_ref_id = ?2
      AND (target.id = ?3 OR target.name = ?3 OR target.qualified_name = ?3)
    ORDER BY caller_files.path, calls.call_line
    LIMIT 50";

pub const CALLEES: &'static str =
    "SELECT calls.callee_text, calls.call_line, calls.confidence, calls.resolution_status,
           callee.id, callee.name, callee.qualified_name, callee.kind,
           files.path, callee.start_line, callee.end_line,
           files.content_hash, calls.index_run_id, calls.parser_version,
           files.indexed_at
     FROM calls
     JOIN symbols caller ON calls.caller_symbol_id = caller.id
     LEFT JOIN symbols callee ON calls.callee_symbol_id = callee.id
    JOIN files ON caller.file_id = files.id
    WHERE files.repository_id = ?1
      AND (caller.id = ?2 OR caller.name = ?2 OR caller.qualified_name = ?2)
    ORDER BY calls.call_line, calls.callee_text
    LIMIT 50";

pub const CALLEES_FOR_REF: &'static str =
    "SELECT calls.callee_text, calls.call_line, calls.confidence, calls.resolution_status,
           callee.id, callee.name, callee.qualified_name, callee.kind,
           caller_files.path, callee.start_line, callee.end_line,
           caller_files.content_hash, calls.index_run_id, calls.parser_version,
           caller_files.indexed_at
     FROM calls
     JOIN symbols caller ON calls.caller_symbol_id = caller.id
     JOIN files caller_files ON caller.file_id = caller_files.id
     JOIN ref_files caller_ref ON caller_ref.file_id = caller_files.id
     LEFT JOIN symbols callee ON calls.callee_symbol_id = callee.id
     LEFT JOIN files callee_files ON callee.file_id = callee_files.id
     LEFT JOIN ref_files callee_ref
       ON callee_ref.file_id = callee_files.id
      AND callee_ref.repository_ref_id = ?2
    WHERE caller_files.repository_id = ?1
      AND caller_ref.repository_ref_id = ?2
      AND (callee.id IS NULL OR callee_ref.repository_ref_id IS NOT NULL)
      AND (caller.id = ?3 OR caller.name = ?3 OR caller.qualified_name = ?3)
    ORDER BY calls.call_line, calls.callee_text
    LIMIT 50";

pub const LIKELY_TESTS_FOR_SYMBOL: &'static str =
    "SELECT DISTINCT tests.id, tests.name, tests.qualified_name, tests.framework,
          tests.language, tests.path, tests.start_line, tests.end_line,
          files.content_hash, tests.index_run_id, tests.parser_version, tests.indexed_at
     FROM tests
     JOIN files ON tests.file_id = files.id
     LEFT JOIN calls ON calls.caller_symbol_id = tests.symbol_id
     LEFT JOIN symbols target ON calls.callee_symbol_id = target.id
    WHERE tests.repository_id = ?1
      AND (
        tests.id = ?2 OR tests.name = ?2 OR tests.qualified_name = ?2
        OR target.id = ?2 OR target.name = ?2 OR target.qualified_name = ?2
      )
    ORDER BY tests.path, tests.start_line, tests.qualified_name
    LIMIT 25";

pub const RESOLVE_SYMBOL_REFS: &'static str = "SELECT symbols.id
     FROM symbols
     JOIN files ON symbols.file_id = files.id
    WHERE files.repository_id = ?1
      AND (symbols.id = ?2 OR symbols.name = ?2 OR symbols.qualified_name = ?2)
    ORDER BY symbols.qualified_name, files.path, symbols.start_line
    LIMIT 25";

pub const RESOLVE_SYMBOL_REFS_FOR_REF: &'static str = "SELECT symbols.id
     FROM symbols
     JOIN files ON symbols.file_id = files.id
     JOIN ref_files ON ref_files.file_id = files.id
    WHERE files.repository_id = ?1
      AND ref_files.repository_ref_id = ?2
      AND (symbols.id = ?3 OR symbols.name = ?3 OR symbols.qualified_name = ?3)
    ORDER BY symbols.qualified_name, files.path, symbols.start_line
    LIMIT 25";

pub const ALL_SYMBOL_REFS: &'static str = "SELECT symbols.id
     FROM symbols
     JOIN files ON symbols.file_id = files.id
    WHERE files.repository_id = ?1
    ORDER BY symbols.qualified_name, files.path, symbols.start_line
    LIMIT 500";

pub const ALL_SYMBOL_REFS_FOR_REF: &'static str = "SELECT symbols.id
     FROM symbols
     JOIN files ON symbols.file_id = files.id
     JOIN ref_files ON ref_files.file_id = files.id
    WHERE files.repository_id = ?1
      AND ref_files.repository_ref_id = ?2
    ORDER BY symbols.qualified_name, files.path, symbols.start_line
    LIMIT 500";

pub const CALL_PATH_EDGES: &'static str =
    "SELECT calls.id, calls.callee_text, calls.call_line, calls.confidence,
          calls.resolution_status,
          caller.id, caller.name, caller.qualified_name, caller.kind,
          caller_file.path, caller.start_line, caller.end_line,
          callee.id, callee.name, callee.qualified_name, callee.kind,
          callee_file.path, callee.start_line, callee.end_line,
          caller_file.content_hash, calls.index_run_id, calls.parser_version,
          caller_file.indexed_at
     FROM calls
     JOIN symbols caller ON calls.caller_symbol_id = caller.id
     JOIN files caller_file ON caller.file_id = caller_file.id
     LEFT JOIN symbols callee ON calls.callee_symbol_id = callee.id
     LEFT JOIN files callee_file ON callee.file_id = callee_file.id
    WHERE caller_file.repository_id = ?1
    ORDER BY caller.qualified_name, caller_file.path, calls.call_line,
             calls.callee_text, calls.id";

pub const CALL_PATH_EDGES_FOR_REF: &'static str =
    "SELECT calls.id, calls.callee_text, calls.call_line, calls.confidence,
          calls.resolution_status,
          caller.id, caller.name, caller.qualified_name, caller.kind,
          caller_file.path, caller.start_line, caller.end_line,
          callee.id, callee.name, callee.qualified_name, callee.kind,
          callee_file.path, callee.start_line, callee.end_line,
          caller_file.content_hash, calls.index_run_id, calls.parser_version,
          caller_file.indexed_at
     FROM calls
     JOIN symbols caller ON calls.caller_symbol_id = caller.id
     JOIN files caller_file ON caller.file_id = caller_file.id
     JOIN ref_files caller_ref ON caller_ref.file_id = caller_file.id
     LEFT JOIN symbols callee ON calls.callee_symbol_id = callee.id
     LEFT JOIN files callee_file ON callee.file_id = callee_file.id
     LEFT JOIN ref_files callee_ref
       ON callee_ref.file_id = callee_file.id
      AND callee_ref.repository_ref_id = ?2
    WHERE caller_file.repository_id = ?1
      AND caller_ref.repository_ref_id = ?2
      AND (callee.id IS NULL OR callee_ref.repository_ref_id IS NOT NULL)
    ORDER BY caller.qualified_name, caller_file.path, calls.call_line,
             calls.callee_text, calls.id";

/// The reading of `find_symbols`.
pub open spec fn find_symbols_spec(repository_id: Seq<char>, query: Seq<char>) -> StatementView {
    statement_of(FIND_SYMBOLS, seq![text(repository_id), text(query), text("%"@ + query + "%"@)])
}

/// The reading of `find_symbols_for_ref`.
pub open spec fn find_symbols_for_ref_spec(
    repository_id: Seq<char>,
    repository_ref_id: Seq<char>,
    query: Seq<char>,
) -> StatementView {
    statement_of(
        FIND_SYMBOLS_FOR_REF,
        seq![
            text(repository_id),
            text(repository_ref_id),
            text(query),
            text("%"@ + query + "%"@),
        ],
    )
}

/// The reading of `tests_matching_name`.
pub open spec fn tests_matching_name_spec(
    repository_id: Seq<char>,
    test_name: Seq<char>,
) -> StatementView {
    statement_of(
        TESTS_MATCHING_NAME,
        seq![
            text(repository_id),
            text(test_name),
            text("%::"@ + test_name + ""@),
        ],
    )
}

/// The reading of `repository_has_ref_file_manifests`.
pub open spec fn repository_has_ref_file_manifests_spec(
    repository_id: Seq<char>,
) -> StatementView {
    statement_of(REPOSITORY_HAS_REF_FILE_MANIFESTS, seq![text(repository_id)])
}

/// The reading of `file_provenance`.
pub open spec fn file_provenance_spec(
    repository_id: Seq<char>,
    path: Seq<char>,
) -> StatementView {
    statement_of(FILE_PROVENANCE, seq![text(repository_id), text(path)])
}

/// The reading of `symbols_at_location`.
pub open spec fn symbols_at_location_spec(
    repository_id: Seq<char>,
    path: Seq<char>,
    line: usize,
) -> StatementView {
    statement_of(SYMBOLS_AT_LOCATION, seq![text(repository_id), text(path), count(line)])
}

/// The reading of `calls_at_location`.
pub open spec fn calls_at_location_spec(
    repository_id: Seq<char>,
    path: Seq<char>,
    line: usize,
) -> StatementView {
    statement_of(CALLS_AT_LOCATION, seq![text(repository_id), text(path), count(line)])
}

/// The reading of `callers`.
pub open spec fn callers_spec(
    repository_id: Seq<char>,
    symbol_query: Seq<char>,
) -> StatementView {
    statement_of(CALLERS, seq![text(repository_id), text(symbol_query)])
}

/// The reading of `callers_for_ref`.
pub open spec fn callers_for_ref_spec(
    repository_id: Seq<char>,
    repository_ref_id: Seq<char>,
    symbol_query: Seq<char>,
) -> StatementView {
    statement_of(
        CALLERS_FOR_REF,
        seq![
            text(repository_id),
            text(repository_ref_id),
            text(symbol_query),
        ],
    )
}

/// The reading of `callees`.
pub open spec fn callees_spec(
    repository_id: Seq<char>,
    symbol_query: Seq<char>,
) -> StatementView {
    statement_of(CALLEES, seq![text(repository_id), text(symbol_query)])
}

/// The reading of `callees_for_ref`.
pub open spec fn callees_for_ref_spec(
    repository_id: Seq<char>,
    repository_ref_id: Seq<char>,
    symbol_query: Seq<char>,
) -> StatementView {
    statement_of(
        CALLEES_FOR_REF,
        seq![
            text(repository_id),
            text(repository_ref_id),
            text(symbol_query),
        ],
    )
}

/// The reading of `likely_tests_for_symbol`.
pub open spec fn likely_tests_for_symbol_spec(
    repository_id: Seq<char>,
    symbol_query: Seq<char>,
) -> StatementView {
    statement_of(LIKELY_TESTS_FOR_SYMBOL, seq![text(repository_id), text(symbol_query)])
}

/// The reading of `resolve_symbol_refs`.
pub open spec fn resolve_symbol_refs_spec(
    repository_id: Seq<char>,
    symbol_query: Seq<char>,
) -> StatementView {
    statement_of(RESOLVE_SYMBOL_REFS, seq![text(repository_id), text(symbol_query)])
}

/// The reading of `resolve_symbol_refs_for_ref`.
pub open spec fn resolve_symbol_refs_for_ref_spec(
    repository_id: Seq<char>,
    repository_ref_id: Seq<char>,
    symbol_query: Seq<char>,
) -> StatementView {
    statement_of(
        RESOLVE_SYMBOL_REFS_FOR_REF,
        seq![
            text(repository_id),
            text(repository_ref_id),
            text(symbol_query),
        ],
    )
}

/// The reading of `all_symbol_refs`.
pub open spec fn all_symbol_refs_spec(repository_id: Seq<char>) -> StatementView {
    statement_of(ALL_SYMBOL_REFS, seq![text(repository_id)])
}

/// The reading of `all_symbol_refs_for_ref`.
pub open spec fn all_symbol_refs_for_ref_spec(
    repository_id: Seq<char>,
    repository_ref_id: Seq<char>,
) -> StatementView {
    statement_of(ALL_SYMBOL_REFS_FOR_REF, seq![text(repository_id), text(repository_ref_id)])
}

/// The reading of `call_path_edges`.
pub open spec fn call_path_edges_spec(repository_id: Seq<char>) -> StatementView {
    statement_of(CALL_PATH_EDGES, seq![text(repository_id)])
}

/// The reading of `call_path_edges_for_ref`.
pub open spec fn call_path_edges_for_ref_spec(
    repository_id: Seq<char>,
    repository_ref_id: Seq<char>,
) -> StatementView {
    statement_of(CALL_PATH_EDGES_FOR_REF, seq![text(repository_id), text(repository_ref_id)])
}

impl SqliteStore {
    /// The symbols that a query names, whole matches first. Read as `SymbolSearchRow`s.
    pub fn find_symbols(repository_id: &str, query: &str) -> (r: Statement)
        ensures
            r@ == find_symbols_spec(repository_id@, query@),
    {
        let params = vec![
            text_value(repository_id),
            text_value(query),
            text_value(surrounded("%", query, "%").as_str()),
        ];
        proof {
            assert(values(params@) =~= find_symbols_spec(repository_id@, query@).params);
        }
        statement(FIND_SYMBOLS, params)
    }

    /// The symbols of a ref that a query names, whole matches first. Read as `SymbolSearchRow`s.
    pub fn find_symbols_for_ref(
        repository_id: &str,
        repository_ref_id: &str,
        query: &str,
    ) -> (r: Statement)
        ensures
            r@ == find_symbols_for_ref_spec(repository_id@, repository_ref_id@, query@),
    {
        let params = vec![
            text_value(repository_id),
            text_value(repository_ref_id),
            text_value(query),
            text_value(surrounded("%", query, "%").as_str()),
        ];
        proof {
            assert(values(params@) =~= find_symbols_for_ref_spec(
                repository_id@,
                repository_ref_id@,
                query@,
            ).params);
        }
        statement(FIND_SYMBOLS_FOR_REF, params)
    }

    /// The tests with a name, or with a path that ends in it. Read as `TestSearchRow`s.
    pub fn tests_matching_name(repository_id: &str, test_name: &str) -> (r: Statement)
        ensures
            r@ == tests_matching_name_spec(repository_id@, test_name@),
    {
        let params = vec![
            text_value(repository_id),
            text_value(test_name),
            text_value(surrounded("%::", test_name, "").as_str()),
        ];
        proof {
            assert(values(params@) =~= tests_matching_name_spec(repository_id@, test_name@).params);
        }
        statement(TESTS_MATCHING_NAME, params)
    }

    /// Counts the files that refs of a repository hold. The rows go to `positive_row`.
    pub fn repository_has_ref_file_manifests(repository_id: &str) -> (r: Statement)
        ensures
            r@ == repository_has_ref_file_manifests_spec(repository_id@),
    {
        let params = vec![text_value(repository_id)];
        proof {
            assert(values(params@) =~= repository_has_ref_file_manifests_spec(
                repository_id@,
            ).params);
        }
        statement(REPOSITORY_HAS_REF_FILE_MANIFESTS, params)
    }

    /// Where the file at a path comes from. Read as an `EvidenceProvenance`.
    pub fn file_provenance(repository_id: &str, path: &str) -> (r: Statement)
        ensures
            r@ == file_provenance_spec(repository_id@, path@),
    {
        let params = vec![text_value(repository_id), text_value(path)];
        proof {
            assert(values(params@) =~= file_provenance_spec(repository_id@, path@).params);
        }
        statement(FILE_PROVENANCE, params)
    }

    /// The symbols around a line, the smallest first. Read as `SymbolSearchRow`s.
    pub fn symbols_at_location(repository_id: &str, path: &str, line: usize) -> (r: Statement)
        ensures
            r@ == symbols_at_location_spec(repository_id@, path@, line),
    {
        let params = vec![text_value(repository_id), text_value(path), count_value(line)];
        proof {
            assert(values(params@) =~= symbols_at_location_spec(
                repository_id@,
                path@,
                line,
            ).params);
        }
        statement(SYMBOLS_AT_LOCATION, params)
    }

    /// The calls in a line. Read as `CallPathEdge`s.
    pub fn calls_at_location(repository_id: &str, path: &str, line: usize) -> (r: Statement)
        ensures
            r@ == calls_at_location_spec(repository_id@, path@, line),
    {
        let params = vec![text_value(repository_id), text_value(path), count_value(line)];
        proof {
            assert(values(params@) =~= calls_at_location_spec(repository_id@, path@, line).params);
        }
        statement(CALLS_AT_LOCATION, params)
    }

    /// The direct callers of a symbol. Read as `CallSearchRow`s.
    pub fn callers(repository_id: &str, symbol_query: &str) -> (r: Statement)
        ensures
            r@ == callers_spec(repository_id@, symbol_query@),
    {
        let params = vec![text_value(repository_id), text_value(symbol_query)];
        proof {
            assert(values(params@) =~= callers_spec(repository_id@, symbol_query@).params);
        }
        statement(CALLERS, params)
    }

    /// The direct callers of a symbol within a ref. Read as `CallSearchRow`s.
    pub fn callers_for_ref(
        repository_id: &str,
        repository_ref_id: &str,
        symbol_query: &str,
    ) -> (r: Statement)
        ensures
            r@ == callers_for_ref_spec(repository_id@, repository_ref_id@, symbol_query@),
    {
        let params = vec![
            text_value(repository_id),
            text_value(repository_ref_id),
            text_value(symbol_query),
        ];
        proof {
            assert(values(params@) =~= callers_for_ref_spec(
                repository_id@,
                repository_ref_id@,
                symbol_query@,
            ).params);
        }
        statement(CALLERS_FOR_REF, params)
    }

    /// The direct callees of a symbol. Read as `CallSearchRow`s.
    pub fn callees(repository_id: &str, symbol_query: &str) -> (r: Statement)
        ensures
            r@ == callees_spec(repository_id@, symbol_query@),
    {
        let params = vec![text_value(repository_id), text_value(symbol_query)];
        proof {
            assert(values(params@) =~= callees_spec(repository_id@, symbol_query@).params);
        }
        statement(CALLEES, params)
    }

    /// The direct callees of a symbol within a ref. Read as `CallSearchRow`s.
    pub fn callees_for_ref(
        repository_id: &str,
        repository_ref_id: &str,
        symbol_query: &str,
    ) -> (r: Statement)
        ensures
            r@ == callees_for_ref_spec(repository_id@, repository_ref_id@, symbol_query@),
    {
        let params = vec![
            text_value(repository_id),
            text_value(repository_ref_id),
            text_value(symbol_query),
        ];
        proof {
            assert(values(params@) =~= callees_for_ref_spec(
                repository_id@,
                repository_ref_id@,
                symbol_query@,
            ).params);
        }
        statement(CALLEES_FOR_REF, params)
    }

    /// The tests that call a symbol. Read as `TestSearchRow`s.
    pub fn likely_tests_for_symbol(repository_id: &str, symbol_query: &str) -> (r: Statement)
        ensures
            r@ == likely_tests_for_symbol_spec(repository_id@, symbol_query@),
    {
        let params = vec![text_value(repository_id), text_value(symbol_query)];
        proof {
            assert(values(params@) =~= likely_tests_for_symbol_spec(
                repository_id@,
                symbol_query@,
            ).params);
        }
        statement(LIKELY_TESTS_FOR_SYMBOL, params)
    }

    /// The ids of the symbols that a query names. Read as `String`s.
    pub fn resolve_symbol_refs(repository_id: &str, symbol_query: &str) -> (r: Statement)
        ensures
            r@ == resolve_symbol_refs_spec(repository_id@, symbol_query@),
    {
        let params = vec![text_value(repository_id), text_value(symbol_query)];
        proof {
            assert(values(params@) =~= resolve_symbol_refs_spec(
                repository_id@,
                symbol_query@,
            ).params);
        }
        statement(RESOLVE_SYMBOL_REFS, params)
    }

    /// The ids of the symbols of a ref that a query names. Read as `String`s.
    pub fn resolve_symbol_refs_for_ref(
        repository_id: &str,
        repository_ref_id: &str,
        symbol_query: &str,
    ) -> (r: Statement)
        ensures
            r@ == resolve_symbol_refs_for_ref_spec(
                repository_id@,
                repository_ref_id@,
                symbol_query@,
            ),
    {
        let params = vec![
            text_value(repository_id),
            text_value(repository_ref_id),
            text_value(symbol_query),
        ];
        proof {
            assert(values(params@) =~= resolve_symbol_refs_for_ref_spec(
                repository_id@,
                repository_ref_id@,
                symbol_query@,
            ).params);
        }
        statement(RESOLVE_SYMBOL_REFS_FOR_REF, params)
    }

    /// The ids of the symbols of a repository. Read as `String`s.
    pub fn all_symbol_refs(repository_id: &str) -> (r: Statement)
        ensures
            r@ == all_symbol_refs_spec(repository_id@),
    {
        let params = vec![text_value(repository_id)];
        proof {
            assert(values(params@) =~= all_symbol_refs_spec(repository_id@).params);
        }
        statement(ALL_SYMBOL_REFS, params)
    }

    /// The ids of the symbols of a ref. Read as `String`s.
    pub fn all_symbol_refs_for_ref(repository_id: &str, repository_ref_id: &str) -> (r: Statement)
        ensures
            r@ == all_symbol_refs_for_ref_spec(repository_id@, repository_ref_id@),
    {
        let params = vec![text_value(repository_id), text_value(repository_ref_id)];
        proof {
            assert(values(params@) =~= all_symbol_refs_for_ref_spec(
                repository_id@,
                repository_ref_id@,
            ).params);
        }
        statement(ALL_SYMBOL_REFS_FOR_REF, params)
    }

    /// All calls of a repository. Read as `CallPathEdge`s.
    pub fn call_path_edges(repository_id: &str) -> (r: Statement)
        ensures
            r@ == call_path_edges_spec(repository_id@),
    {
        let params = vec![text_value(repository_id)];
        proof {
            assert(values(params@) =~= call_path_edges_spec(repository_id@).params);
        }
        statement(CALL_PATH_EDGES, params)
    }

    /// All calls within a ref. Read as `CallPathEdge`s.
    pub fn call_path_edges_for_ref(repository_id: &str, repository_ref_id: &str) -> (r: Statement)
        ensures
            r@ == call_path_edges_for_ref_spec(repository_id@, repository_ref_id@),
    {
        let params = vec![text_value(repository_id), text_value(repository_ref_id)];
        proof {
            assert(values(params@) =~= call_path_edges_for_ref_spec(
                repository_id@,
                repository_ref_id@,
            ).params);
        }
        statement(CALL_PATH_EDGES_FOR_REF, params)
    }
}

/// The queries for the calls between two symbols: the sources, the targets, and the calls of the
/// repository.
pub open spec fn call_paths_queries(
    repository_id: Seq<char>,
    source_query: Seq<char>,
    target_query: Seq<char>,
) -> Seq<CommandView> {
    queries(
        seq![
            resolve_symbol_refs_spec(repository_id, source_query),
            resolve_symbol_refs_spec(repository_id, target_query),
            call_path_edges_spec(repository_id),
        ],
    )
}

/// The queries for the calls between two symbols as a ref holds them.
pub open spec fn call_paths_for_ref_queries(
    repository_id: Seq<char>,
    repository_ref_id: Seq<char>,
    source_query: Seq<char>,
    target_query: Seq<char>,
) -> Seq<CommandView> {
    queries(
        seq![
            resolve_symbol_refs_for_ref_spec(repository_id, repository_ref_id, source_query),
            resolve_symbol_refs_for_ref_spec(repository_id, repository_ref_id, target_query),
            call_path_edges_for_ref_spec(repository_id, repository_ref_id),
        ],
    )
}

/// The queries for what leads to a symbol: the targets, every symbol, and the calls of the
/// repository.
pub open spec fn transitive_call_paths_to_queries(
    repository_id: Seq<char>,
    target_query: Seq<char>,
) -> Seq<CommandView> {
    queries(
        seq![
            resolve_symbol_refs_spec(repository_id, target_query),
            all_symbol_refs_spec(repository_id),
            call_path_edges_spec(repository_id),
        ],
    )
}

/// The queries for what leads to a symbol as a ref holds it.
pub open spec fn transitive_call_paths_to_for_ref_queries(
    repository_id: Seq<char>,
    repository_ref_id: Seq<char>,
    target_query: Seq<char>,
) -> Seq<CommandView> {
    queries(
        seq![
            resolve_symbol_refs_for_ref_spec(repository_id, repository_ref_id, target_query),
            all_symbol_refs_for_ref_spec(repository_id, repository_ref_id),
            call_path_edges_for_ref_spec(repository_id, repository_ref_id),
        ],
    )
}

/// The queries for what a symbol leads to: the sources, and the calls of the repository.
pub open spec fn transitive_call_paths_from_queries(
    repository_id: Seq<char>,
    source_query: Seq<char>,
) -> Seq<CommandView> {
    queries(
        seq![
            resolve_symbol_refs_spec(repository_id, source_query),
            call_path_edges_spec(repository_id),
        ],
    )
}

/// The queries for what a symbol leads to as a ref holds it.
pub open spec fn transitive_call_paths_from_for_ref_queries(
    repository_id: Seq<char>,
    repository_ref_id: Seq<char>,
    source_query: Seq<char>,
) -> Seq<CommandView> {
    queries(
        seq![
            resolve_symbol_refs_for_ref_spec(repository_id, repository_ref_id, source_query),
            call_path_edges_for_ref_spec(repository_id, repository_ref_id),
        ],
    )
}

impl SqliteStore {
    /// The queries for the chains of calls between two symbols. Symbol ids are read as `String`s
    /// and calls as `CallPathEdge`s, and go to `paths_between`.
    pub fn call_paths(
        repository_id: &str,
        source_query: &str,
        target_query: &str,
    ) -> (r: Vec<Command>)
        ensures
            script(r@) == call_paths_queries(repository_id@, source_query@, target_query@),
    {
        let commands = vec![
            Command::Query(SqliteStore::resolve_symbol_refs(repository_id, source_query)),
            Command::Query(SqliteStore::resolve_symbol_refs(repository_id, target_query)),
            Command::Query(SqliteStore::call_path_edges(repository_id)),
        ];
        proof {
            assert(script(commands@) =~= call_paths_queries(
                repository_id@,
                source_query@,
                target_query@,
            ));
        }
        commands
    }

    /// The queries for the chains of calls between two symbols as a ref holds them. The answers go
    /// to `paths_between`.
    pub fn call_paths_for_ref(
        repository_id: &str,
        repository_ref_id: &str,
        source_query: &str,
        target_query: &str,
    ) -> (r: Vec<Command>)
        ensures
            script(r@) == call_paths_for_ref_queries(
                repository_id@,
                repository_ref_id@,
                source_query@,
                target_query@,
            ),
    {
        let commands = vec![
            Command::Query(
                SqliteStore::resolve_symbol_refs_for_ref(repository_id, repository_ref_id, source_query),
            ),
            Command::Query(
                SqliteStore::resolve_symbol_refs_for_ref(repository_id, repository_ref_id, target_query),
            ),
            Command::Query(SqliteStore::call_path_edges_for_ref(repository_id, repository_ref_id)),
        ];
        proof {
            assert(script(commands@) =~= call_paths_for_ref_queries(
                repository_id@,
                repository_ref_id@,
                source_query@,
                target_query@,
            ));
        }
        commands
    }

    /// The queries for the chains of calls that lead to a symbol. The answers go to
    /// `transitive_paths_to`.
    pub fn transitive_call_paths_to(repository_id: &str, target_query: &str) -> (r: Vec<Command>)
        ensures
            script(r@) == transitive_call_paths_to_queries(repository_id@, target_query@),
    {
        let commands = vec![
            Command::Query(SqliteStore::resolve_symbol_refs(repository_id, target_query)),
            Command::Query(SqliteStore::all_symbol_refs(repository_id)),
            Command::Query(SqliteStore::call_path_edges(repository_id)),
        ];
        proof {
            assert(script(commands@) =~= transitive_call_paths_to_queries(
                repository_id@,
                target_query@,
            ));
        }
        commands
    }

    /// The queries for the chains of calls that lead to a symbol as a ref holds it. The answers go
    /// to `transitive_paths_to`.
    pub fn transitive_call_paths_to_for_ref(
        repository_id: &str,
        repository_ref_id: &str,
        target_query: &str,
    ) -> (r: Vec<Command>)
        ensures
            script(r@) == transitive_call_paths_to_for_ref_queries(
                repository_id@,
                repository_ref_id@,
                target_query@,
            ),
    {
        let commands = vec![
            Command::Query(
                SqliteStore::resolve_symbol_refs_for_ref(repository_id, repository_ref_id, target_query),
            ),
            Command::Query(SqliteStore::all_symbol_refs_for_ref(repository_id, repository_ref_id)),
            Command::Query(SqliteStore::call_path_edges_for_ref(repository_id, repository_ref_id)),
        ];
        proof {
            assert(script(commands@) =~= transitive_call_paths_to_for_ref_queries(
                repository_id@,
                repository_ref_id@,
                target_query@,
            ));
        }
        commands
    }

    /// The queries for the chains of calls that a symbol leads to. The answers go to
    /// `paths_beyond`.
    pub fn transitive_call_paths_from(repository_id: &str, source_query: &str) -> (r: Vec<Command>)
        ensures
            script(r@) == transitive_call_paths_from_queries(repository_id@, source_query@),
    {
        let commands = vec![
            Command::Query(SqliteStore::resolve_symbol_refs(repository_id, source_query)),
            Command::Query(SqliteStore::call_path_edges(repository_id)),
        ];
        proof {
            assert(script(commands@) =~= transitive_call_paths_from_queries(
                repository_id@,
                source_query@,
            ));
        }
        commands
    }

    /// The queries for the chains of calls that a symbol leads to as a ref holds it. The answers go
    /// to `paths_beyond`.
    pub fn transitive_call_paths_from_for_ref(
        repository_id: &str,
        repository_ref_id: &str,
        source_query: &str,
    ) -> (r: Vec<Command>)
        ensures
            script(r@) == transitive_call_paths_from_for_ref_queries(
                repository_id@,
                repository_ref_id@,
                source_query@,
            ),
    {
        let commands = vec![
            Command::Query(
                SqliteStore::resolve_symbol_refs_for_ref(repository_id, repository_ref_id, source_query),
            ),
            Command::Query(SqliteStore::call_path_edges_for_ref(repository_id, repository_ref_id)),
        ];
        proof {
            assert(script(commands@) =~= transitive_call_paths_from_for_ref_queries(
                repository_id@,
                repository_ref_id@,
                source_query@,
            ));
        }
        commands
    }
}

} // verus!
