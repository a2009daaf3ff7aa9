//! What scripts do: which rows they remove and store, and in which order.

use vstd::prelude::*;
use crate::bindings::{binds, lemma_binds, lemma_places, lemma_says, says};
use crate::conditions::all_written;
use crate::decision_laws::begins_with;
use crate::facts::{
    clear_script, drop_file_script, drop_files_script, given, insert_call_spec, insert_chunk_spec,
    insert_file_spec, insert_script, insert_symbol_reference_spec, insert_symbol_spec,
    insert_test_spec, path_questions, ref_file_deletes, replace_script, FileFacts,
};
use crate::layers::{RepositoryRefKind, RepositoryRefSnapshot};
use crate::naming::{is_table_name, rowid_of};
use crate::records::{FileIndexEventRecord, FileRecord, RepositoryRefRecord};
use crate::repository::{
    branch_deletes, event_inserts, identity_of, insert_file_index_event_spec, is_branch_record,
    is_snapshot_record, link_file_to_ref_spec, sync_script, upsert_branch_spec, upsert_current_spec,
};
use crate::rows::BranchRow;
use crate::sql::{count, text, CommandView, StatementView, Value};
use crate::statement_laws::{
    law_clear_current_ref_says, law_delete_file_calls_says, law_delete_file_chunks_says,
    law_delete_file_references_says, law_delete_file_says, law_delete_file_symbols_says,
    law_delete_file_tests_says, law_delete_point_payload_says, law_delete_ref_file_says,
    law_delete_ref_says, law_files_at_path_says, law_known_branches_says,
    law_other_files_at_path_says,
};
use crate::text::{decimal_digits, optional_text};
use crate::vector::{
    create_table_sql, delete_vector_spec, eligible_links, eligible_points, is_nearest,
    is_nearest_for_ref, is_vector_blob, little_endian, point_deleted, point_stored, points_error,
    query_error, table_error, upsert_point_payload_spec, word_byte, StoreErrorView, VectorPoint,
    NEAREST_POINTS_FOR_REF_HEAD, NEAREST_POINTS_FOR_REF_START, NEAREST_POINTS_FOR_REF_TAIL,
    NEAREST_POINTS_FOR_REF_WHERE, NEAREST_POINTS_HEAD, NEAREST_POINTS_TAIL,
};

verus! {

/// A step of a script is carried out on the rows that a clause picks by a value.
pub open spec fn does(
    script: Seq<CommandView>,
    i: int,
    what: Seq<char>,
    column: Seq<char>,
    value: Value,
) -> bool {
    &&& 0 <= i < script.len()
    &&& script[i] matches CommandView::Execute(s) && says(s.sql, what) && binds(s, column, value)
}

/// What was found in a file is removed from every table of facts: what tells of symbols first, the
/// symbols then. Where the file itself goes too, it goes last.
pub proof fn law_everything_of_a_file_is_removed(file_id: Seq<char>)
    ensures
        ({
            let script = clear_script(file_id);
            let file = text(file_id);
            &&& script.len() == 5
            &&& does(script, 0, "DELETE FROM calls"@, "file_id = "@, file)
            &&& does(script, 1, "DELETE FROM symbol_references"@, "file_id = "@, file)
            &&& does(script, 2, "DELETE FROM tests"@, "file_id = "@, file)
            &&& does(script, 3, "DELETE FROM chunks"@, "file_id = "@, file)
            &&& does(script, 4, "DELETE FROM symbols"@, "file_id = "@, file)
            &&& drop_file_script(file_id).len() == 6
            &&& drop_file_script(file_id).take(5) == script
            &&& does(drop_file_script(file_id), 5, "DELETE FROM files"@, "id = "@, file)
        }),
{
    law_delete_file_calls_says(file_id);
    law_delete_file_references_says(file_id);
    law_delete_file_tests_says(file_id);
    law_delete_file_chunks_says(file_id);
    law_delete_file_symbols_says(file_id);
    law_delete_file_says(file_id);
    assert(drop_file_script(file_id).take(5) =~= clear_script(file_id));
}

/// Of several files each one is removed as a whole.
pub proof fn law_every_file_is_removed(file_ids: Seq<Seq<char>>, i: int)
    requires
        0 <= i < file_ids.len(),
    ensures
        drop_files_script(file_ids).len() == 6 * file_ids.len(),
        drop_files_script(file_ids).subrange(6 * i, 6 * i + 6) == drop_file_script(file_ids[i]),
    decreases file_ids.len(),
{
    lemma_drops(file_ids);
    lemma_drops(file_ids.drop_last());
    let front = file_ids.drop_last();
    let all = drop_files_script(file_ids);
    if i < front.len() {
        law_every_file_is_removed(front, i);
        assert(front[i] == file_ids[i]);
        assert(all.subrange(6 * i, 6 * i + 6) =~= drop_files_script(front).subrange(
            6 * i,
            6 * i + 6,
        ));
    } else {
        assert(all.subrange(6 * i, 6 * i + 6) =~= drop_file_script(file_ids[i]));
    }
}

proof fn lemma_drops(file_ids: Seq<Seq<char>>)
    ensures
        drop_files_script(file_ids).len() == 6 * file_ids.len(),
    decreases file_ids.len(),
{
    if file_ids.len() > 0 {
        lemma_drops(file_ids.drop_last());
    }
}

/// A replacement stores the file, links it to the ref where one is given, asks for the other files
/// at its path, and removes what was found in it before.
pub proof fn law_replacements_store_the_file_first(
    repository_ref_id: Option<Seq<char>>,
    file: FileRecord,
    indexed_at: Seq<char>,
)
    ensures
        ({
            let script = replace_script(repository_ref_id, file, indexed_at);
            let n = if repository_ref_id is Some {
                3int
            } else {
                2
            };
            &&& script.len() == n + 6
            &&& script[0] == CommandView::Begin
            &&& script[1] == CommandView::Execute(insert_file_spec(file, indexed_at))
            &&& repository_ref_id matches Some(ref_id) ==> script[2] == CommandView::Execute(
                link_file_to_ref_spec(ref_id, file, indexed_at),
            )
            &&& script[n] matches CommandView::Query(q) && binds(
                q,
                "repository_id = "@,
                text(file.repository_id@),
            ) && binds(q, "path = "@, text(file.path@)) && binds(q, "id <> "@, text(file.id@))
            &&& script.skip(n + 1) == clear_script(file.id@)
        }),
{
    law_other_files_at_path_says(file);
    let script = replace_script(repository_ref_id, file, indexed_at);
    let n = if repository_ref_id is Some {
        3int
    } else {
        2
    };
    assert(script.skip(n + 1) =~= clear_script(file.id@));
}

/// Every symbol, reference, chunk, call and test that was found is stored, and nothing else.
pub proof fn law_every_fact_is_stored(facts: FileFacts<'_>, indexed_at: Seq<char>, i: int)
    ensures
        ({
            let script = insert_script(facts, indexed_at);
            let references = given(facts.symbol_references);
            let tests = given(facts.tests);
            &&& script.len() == facts.symbols@.len() + references.len() + facts.chunks@.len()
                + facts.calls@.len() + tests.len()
            &&& 0 <= i < facts.symbols@.len() ==> script.contains(
                CommandView::Execute(insert_symbol_spec(facts.symbols@[i])),
            )
            &&& 0 <= i < references.len() ==> script.contains(
                CommandView::Execute(insert_symbol_reference_spec(references[i])),
            )
            &&& 0 <= i < facts.chunks@.len() ==> script.contains(
                CommandView::Execute(insert_chunk_spec(facts.chunks@[i])),
            )
            &&& 0 <= i < facts.calls@.len() ==> script.contains(
                CommandView::Execute(insert_call_spec(facts.calls@[i])),
            )
            &&& 0 <= i < tests.len() ==> script.contains(
                CommandView::Execute(insert_test_spec(tests[i], indexed_at)),
            )
        }),
{
    let script = insert_script(facts, indexed_at);
    let references = given(facts.symbol_references);
    let tests = given(facts.tests);
    let a = facts.symbols@.len() as int;
    let b = a + references.len();
    let c = b + facts.chunks@.len();
    let d = c + facts.calls@.len();
    if 0 <= i < facts.symbols@.len() {
        assert(script[i] == CommandView::Execute(insert_symbol_spec(facts.symbols@[i])));
    }
    if 0 <= i < references.len() {
        assert(script[a + i] == CommandView::Execute(insert_symbol_reference_spec(references[i])));
    }
    if 0 <= i < facts.chunks@.len() {
        assert(script[b + i] == CommandView::Execute(insert_chunk_spec(facts.chunks@[i])));
    }
    if 0 <= i < facts.calls@.len() {
        assert(script[c + i] == CommandView::Execute(insert_call_spec(facts.calls@[i])));
    }
    if 0 <= i < tests.len() {
        assert(script[d + i] == CommandView::Execute(insert_test_spec(tests[i], indexed_at)));
    }
}

/// Every missing path is taken from the ref, and the files of the repository at it are asked for.
pub proof fn law_every_missing_path_is_removed(
    repository_ref_id: Seq<char>,
    repository_id: Seq<char>,
    missing: Seq<Seq<char>>,
    i: int,
)
    requires
        0 <= i < missing.len(),
    ensures
        ref_file_deletes(repository_ref_id, missing).len() == missing.len(),
        does(
            ref_file_deletes(repository_ref_id, missing),
            i,
            "DELETE FROM ref_files"@,
            "repository_ref_id = "@,
            text(repository_ref_id),
        ),
        does(
            ref_file_deletes(repository_ref_id, missing),
            i,
            "DELETE FROM ref_files"@,
            "path = "@,
            text(missing[i]),
        ),
        path_questions(repository_id, missing).len() == missing.len(),
        path_questions(repository_id, missing)[i] matches CommandView::Query(q) && binds(
            q,
            "repository_id = "@,
            text(repository_id),
        ) && binds(q, "path = "@, text(missing[i])),
{
    law_delete_ref_file_says(repository_ref_id, missing[i]);
    law_files_at_path_says(repository_id, missing[i]);
}

/// A sync makes no ref the current one, stores every local branch, makes the ref of the snapshot
/// the current one, and asks for the known branches where there are local ones.
pub proof fn law_syncs_end_with_the_current_ref(
    snapshot: RepositoryRefSnapshot,
    branch_ids: Seq<String>,
    now: Seq<char>,
    i: int,
)
    ensures
        ({
            let script = sync_script(snapshot, branch_ids, now);
            let n = snapshot.local_branches@.len() as int;
            let repository = text(snapshot.repository_id@);
            &&& script.len() == if n > 0 {
                n + 4
            } else {
                3
            }
            &&& script[0] == CommandView::Begin
            &&& does(script, 1, "is_current = 0"@, "repository_id = "@, repository)
            &&& 0 <= i < n ==> script[2 + i] == CommandView::Execute(
                upsert_branch_spec(
                    branch_ids[i]@,
                    snapshot.repository_id@,
                    snapshot.local_branches@[i]@,
                    now,
                ),
            )
            &&& script[2 + n] == CommandView::Execute(upsert_current_spec(snapshot, now))
            &&& n > 0 ==> (script[3 + n] matches CommandView::Query(q) && binds(
                q,
                "repository_id = "@,
                repository,
            ) && says(q.sql, "ref_kind = 'branch'"@))
        }),
{
    law_clear_current_ref_says(snapshot.repository_id@, now);
    law_known_branches_says(snapshot.repository_id@);
}

/// Every branch that is gone is marked as deleted, by its id.
pub proof fn law_gone_branches_are_deleted(gone: Seq<BranchRow>, now: Seq<char>, i: int)
    requires
        0 <= i < gone.len(),
    ensures
        branch_deletes(gone, now).len() == gone.len(),
        does(branch_deletes(gone, now), i, "is_current = 0"@, "id = "@, text(gone[i].id@)),
        does(branch_deletes(gone, now), i, "is_current = 0"@, "deleted_at = "@, text(now)),
{
    law_delete_ref_says(gone[i].id@, now);
}

/// Every event is stored, in the order of the events.
pub proof fn law_every_event_is_stored(
    events: Seq<FileIndexEventRecord>,
    occurred_at: Seq<char>,
    i: int,
)
    requires
        0 <= i < events.len(),
    ensures
        event_inserts(events, occurred_at).len() == events.len(),
        event_inserts(events, occurred_at)[i] == CommandView::Execute(
            insert_file_index_event_spec(events[i], occurred_at),
        ),
{
}

/// The record of a snapshot tells what the snapshot tells, seen and made at the given time and not
/// deleted; the record of another local branch is that of a branch that is not current.
pub proof fn law_ref_records_tell_their_ref(
    record: RepositoryRefRecord,
    snapshot: RepositoryRefSnapshot,
    is_current: bool,
    branch_record: RepositoryRefRecord,
    id: Seq<char>,
    repository_id: Seq<char>,
    branch: Seq<char>,
    timestamp: Seq<char>,
)
    requires
        is_snapshot_record(record, snapshot, is_current, timestamp),
        is_branch_record(branch_record, id, repository_id, branch, timestamp),
    ensures
        record.id@ == snapshot.id@,
        record.repository_id@ == snapshot.repository_id@,
        record.ref_kind@ == snapshot.kind.text(),
        optional_text(record.ref_name) == optional_text(snapshot.name),
        record.ref_identity@ == identity_of(
            snapshot.kind,
            optional_text(snapshot.name),
            optional_text(snapshot.head_oid),
        ),
        optional_text(record.head_oid) == optional_text(snapshot.head_oid),
        record.is_current == is_current,
        record.deleted_at is None,
        optional_text(record.last_seen_at) == Some(timestamp),
        optional_text(record.created_at) == Some(timestamp),
        optional_text(record.updated_at) == Some(timestamp),
        branch_record.id@ == id,
        branch_record.repository_id@ == repository_id,
        branch_record.ref_kind@ == "branch"@,
        optional_text(branch_record.ref_name) == Some(branch),
        branch_record.ref_identity@ == branch,
        branch_record.ref_identity@ == identity_of(RepositoryRefKind::Branch, Some(branch), None),
        branch_record.head_oid is None,
        !branch_record.is_current,
        branch_record.deleted_at is None,
        optional_text(branch_record.last_seen_at) == Some(timestamp),
        optional_text(branch_record.created_at) == Some(timestamp),
        optional_text(branch_record.updated_at) == Some(timestamp),
{
}

/// A search for the nearest points takes as many as asked for from the table asked for, by the
/// distance to the vector asked for, and gives the nearest one first.
pub proof fn law_searches_ask_for_the_nearest(
    s: StatementView,
    table_name: Seq<char>,
    vector: Seq<u32>,
    limit: usize,
)
    requires
        is_nearest(s, table_name, vector, limit),
    ensures
        binds(s, "k = "@, count(limit)),
        binds(s, "vector_points.vector_table = "@, text(table_name)),
        says(s.sql, "embedding MATCH ?1"@),
        is_vector_blob(s.params[0], vector),
        says(s.sql, "ORDER BY matches.distance ASC"@),
        says(s.sql, "FROM "@ + table_name),
{
    reveal_strlit(
        "WITH matches AS (
      SELECT rowid, distance
      FROM ",
    );
    reveal_strlit(
        "
      WHERE embedding MATCH ?1 AND k = ?2
    )
    SELECT vector_points.vector_point_id, matches.distance,
           vector_points.repository_id, vector_points.file_id,
           vector_points.chunk_id, vector_points.symbol_id,
           vector_points.symbol_name, vector_points.path,
           vector_points.language, vector_points.chunk_kind,
           vector_points.start_line, vector_points.end_line,
           vector_points.text_hash, vector_points.parser_version,
           vector_points.content_hash, vector_points.index_run_id,
           vector_points.embedding_model, vector_points.embedding_dimension,
           vector_points.indexed_at
    FROM matches
    JOIN vector_points
      ON vector_points.vector_store = 'sqlite_vec'
     AND vector_points.vector_table = ?3
     AND vector_points.vector_rowid = matches.rowid
    ORDER BY matches.distance ASC",
    );
    reveal_strlit("?");
    reveal_strlit("k = ");
    reveal_strlit("vector_points.vector_table = ");
    reveal_strlit("embedding MATCH ?1");
    reveal_strlit("ORDER BY matches.distance ASC");
    reveal_strlit("FROM ");
    lemma_places();
    let head = NEAREST_POINTS_HEAD@.len() as int;
    let at = head + table_name.len();
    let sql = s.sql;
    assert(sql.len() == at + NEAREST_POINTS_TAIL@.len());
    assert(sql.subrange(at + 36, at + 36 + 6) =~= "k = "@ + "?"@ + decimal_digits(2));
    lemma_binds(s, "k = "@, 2, at + 36);
    assert(sql.subrange(at + 758, at + 758 + 31) =~= "vector_points.vector_table = "@ + "?"@
        + decimal_digits(3));
    lemma_binds(s, "vector_points.vector_table = "@, 3, at + 758);
    assert(sql.subrange(at + 13, at + 13 + 18) =~= "embedding MATCH ?1"@);
    lemma_says(sql, "embedding MATCH ?1"@, at + 13);
    assert(sql.subrange(at + 846, at + 846 + 29) =~= "ORDER BY matches.distance ASC"@);
    lemma_says(sql, "ORDER BY matches.distance ASC"@, at + 846);
    assert(sql.subrange(head - 5, at) =~= "FROM "@ + table_name);
    lemma_says(sql, "FROM "@ + table_name, head - 5);
}

/// A search for the nearest points of a ref takes as many as asked for from the table asked for, by
/// the distance to the vector asked for and only among the eligible ones, and gives the nearest one
/// first.
pub proof fn law_ref_searches_ask_for_the_nearest(
    s: StatementView,
    table_name: Seq<char>,
    repository_id: Seq<char>,
    repository_ref_id: Seq<char>,
    vector: Seq<u32>,
    limit: usize,
)
    requires
        is_nearest_for_ref(s, table_name, repository_id, repository_ref_id, vector, limit),
    ensures
        binds(s, "k = "@, count(limit)),
        binds(s, "vector_points.vector_table = "@, text(table_name)),
        says(s.sql, "embedding MATCH ?1"@),
        is_vector_blob(s.params[0], vector),
        says(s.sql, "rowid IN (SELECT vector_rowid FROM eligible)"@),
        says(s.sql, "ORDER BY matches.distance ASC"@),
        says(s.sql, "FROM "@ + table_name),
        begins_with(
            s.sql,
            "WITH eligible AS (
      SELECT vector_points.vector_rowid
      FROM vector_points
      JOIN ref_files ON "@ + all_written(eligible_links()) + "
      WHERE "@ + all_written(eligible_points()),
        ),
{
    reveal_strlit(
        "
    ),
    matches AS (
      SELECT rowid, distance
      FROM ",
    );
    reveal_strlit(
        "
      WHERE embedding MATCH ?1
        AND k = ?2
        AND rowid IN (SELECT vector_rowid FROM eligible)
    )
    SELECT vector_points.vector_point_id, matches.distance,
           vector_points.repository_id, vector_points.file_id,
           vector_points.chunk_id, vector_points.symbol_id,
           vector_points.symbol_name, vector_points.path,
           vector_points.language, vector_points.chunk_kind,
           vector_points.start_line, vector_points.end_line,
           vector_points.text_hash, vector_points.parser_version,
           vector_points.content_hash, vector_points.index_run_id,
           vector_points.embedding_model, vector_points.embedding_dimension,
           vector_points.indexed_at
    FROM matches
    JOIN vector_points
      ON vector_points.vector_store = 'sqlite_vec'
     AND vector_points.vector_table = ?3
     AND vector_points.vector_rowid = matches.rowid
    ORDER BY matches.distance ASC",
    );
    reveal_strlit("?");
    reveal_strlit("k = ");
    reveal_strlit("vector_points.vector_table = ");
    reveal_strlit("embedding MATCH ?1");
    reveal_strlit("rowid IN (SELECT vector_rowid FROM eligible)");
    reveal_strlit("ORDER BY matches.distance ASC");
    reveal_strlit("FROM ");
    lemma_places();
    let chosen = NEAREST_POINTS_FOR_REF_START@ + all_written(eligible_links())
        + NEAREST_POINTS_FOR_REF_WHERE@ + all_written(eligible_points());
    let head = (chosen + NEAREST_POINTS_FOR_REF_HEAD@).len() as int;
    let at = head + table_name.len();
    let sql = s.sql;
    assert(sql =~= chosen + NEAREST_POINTS_FOR_REF_HEAD@ + table_name
        + NEAREST_POINTS_FOR_REF_TAIL@);
    assert(sql.take(chosen.len() as int) =~= chosen);
    assert(sql.len() == at + NEAREST_POINTS_FOR_REF_TAIL@.len());
    assert(sql.subrange(at + 44, at + 44 + 6) =~= "k = "@ + "?"@ + decimal_digits(2));
    lemma_binds(s, "k = "@, 2, at + 44);
    assert(sql.subrange(at + 823, at + 823 + 31) =~= "vector_points.vector_table = "@ + "?"@
        + decimal_digits(3));
    lemma_binds(s, "vector_points.vector_table = "@, 3, at + 823);
    assert(sql.subrange(at + 13, at + 13 + 18) =~= "embedding MATCH ?1"@);
    lemma_says(sql, "embedding MATCH ?1"@, at + 13);
    assert(sql.subrange(at + 63, at + 63 + 44)
        =~= "rowid IN (SELECT vector_rowid FROM eligible)"@);
    lemma_says(sql, "rowid IN (SELECT vector_rowid FROM eligible)"@, at + 63);
    assert(sql.subrange(at + 911, at + 911 + 29) =~= "ORDER BY matches.distance ASC"@);
    lemma_says(sql, "ORDER BY matches.distance ASC"@, at + 911);
    assert(sql.subrange(head - 5, at) =~= "FROM "@ + table_name);
    lemma_says(sql, "FROM "@ + table_name, head - 5);
}

/// The conditions on the points of a ref are written out as an equation of each column with its
/// operand: the places of bound values by their numbers, texts in quotes.
pub proof fn law_conditions_on_points_are_written_out()
    ensures
        all_written(eligible_links()) == "ref_files.file_id = vector_points.file_id"@,
        all_written(eligible_points()) == "vector_points.vector_store = 'sqlite_vec'
        AND vector_points.vector_table = ?3
        AND vector_points.repository_id = ?4
        AND ref_files.repository_ref_id = ?5"@,
{
    reveal_strlit("ref_files.file_id = vector_points.file_id");
    reveal_strlit("ref_files.file_id");
    reveal_strlit("vector_points.file_id");
    reveal_strlit(
        "vector_points.vector_store = 'sqlite_vec'
        AND vector_points.vector_table = ?3
        AND vector_points.repository_id = ?4
        AND ref_files.repository_ref_id = ?5",
    );
    reveal_strlit("vector_points.vector_store");
    reveal_strlit("vector_points.vector_table");
    reveal_strlit("vector_points.repository_id");
    reveal_strlit("ref_files.repository_ref_id");
    reveal_strlit("sqlite_vec");
    reveal_strlit(" = ");
    reveal_strlit("'");
    reveal_strlit("?");
    reveal_strlit("\n        AND ");
    lemma_places();
    let all = eligible_points();
    let three = all.drop_last();
    let two = three.drop_last();
    let one = two.drop_last();
    assert(one.len() == 1 && one[0] == all[0]);
    assert(two.last() == all[1] && three.last() == all[2] && all.last() == all[3]);
    assert(all_written(one) == all[0].written());
    assert(all_written(two) == all_written(one) + "\n        AND "@ + all[1].written());
    assert(all_written(three) == all_written(two) + "\n        AND "@ + all[2].written());
    assert(all_written(all) == all_written(three) + "\n        AND "@ + all[3].written());
    assert(all_written(all) =~= "vector_points.vector_store = 'sqlite_vec'
        AND vector_points.vector_table = ?3
        AND vector_points.repository_id = ?4
        AND ref_files.repository_ref_id = ?5"@);
    assert(all_written(eligible_links()) =~= "ref_files.file_id = vector_points.file_id"@);
}

/// A table for vectors is made with the given name and size, and compares vectors by their cosine.
pub proof fn law_tables_are_made_for_the_size(table_name: Seq<char>, vector_size: nat)
    ensures
        ({
            let sql = create_table_sql(table_name, vector_size);
            let n = decimal_digits(vector_size);
            let name_at = "CREATE VIRTUAL TABLE IF NOT EXISTS "@.len() as int;
            let size_at = name_at + table_name.len() + " USING vec0(embedding float["@.len();
            &&& sql.take(name_at) == "CREATE VIRTUAL TABLE IF NOT EXISTS "@
            &&& sql.subrange(name_at, name_at + table_name.len()) == table_name
            &&& sql.subrange(size_at, size_at + n.len()) == n
            &&& sql.skip(size_at + n.len()) == "] distance_metric=cosine)"@
        }),
{
    let sql = create_table_sql(table_name, vector_size);
    let n = decimal_digits(vector_size);
    let name_at = "CREATE VIRTUAL TABLE IF NOT EXISTS "@.len() as int;
    let size_at = name_at + table_name.len() + " USING vec0(embedding float["@.len();
    assert(sql.take(name_at) =~= "CREATE VIRTUAL TABLE IF NOT EXISTS "@);
    assert(sql.subrange(name_at, name_at + table_name.len()) =~= table_name);
    assert(sql.subrange(size_at, size_at + n.len()) =~= n);
    assert(sql.skip(size_at + n.len()) =~= "] distance_metric=cosine)"@);
}

/// A point is stored with its vector and its payload at one row of one table: the row is emptied
/// first. Its removal empties the same row.
pub proof fn law_points_are_stored_and_removed_at_one_row(
    stored: Seq<CommandView>,
    at: int,
    removed: Seq<CommandView>,
    removed_at: int,
    table_name: Seq<char>,
    point: VectorPoint,
    digest: Seq<char>,
)
    requires
        point_stored(stored, at, table_name, point, digest),
        point_deleted(removed, removed_at, table_name, point.id@, digest),
    ensures
        rowid_of(point.id@, digest) matches Some(rowid) && {
            &&& stored[at] == CommandView::Execute(delete_vector_spec(table_name, rowid))
            &&& stored[at + 1] matches CommandView::Execute(s) && s.sql == "INSERT INTO "@
                + table_name + "(rowid, embedding) VALUES (?1, ?2)"@ && s.params.len() == 2
                && s.params[0] == Value::Integer(rowid) && is_vector_blob(
                s.params[1],
                point.vector@,
            )
            &&& stored[at + 2] == CommandView::Execute(
                upsert_point_payload_spec(table_name, rowid as i64, point),
            )
            &&& removed[removed_at] == stored[at]
            &&& removed[removed_at + 1] matches CommandView::Execute(s) && says(
                s.sql,
                "DELETE FROM vector_points"@,
            ) && binds(s, "vector_table = "@, text(table_name)) && binds(
                s,
                "vector_point_id = "@,
                text(point.id@),
            )
            &&& delete_vector_spec(table_name, rowid).params == seq![Value::Integer(rowid)]
            &&& delete_vector_spec(table_name, rowid).sql == "DELETE FROM "@ + table_name
                + " WHERE rowid = ?1"@
        },
{
    law_delete_point_payload_says(table_name, point.id@);
}

proof fn lemma_word(word: u32)
    ensures
        word_byte(word, 0) + 0x100 * word_byte(word, 1) + 0x1_0000 * word_byte(word, 2) + 0x100_0000
            * word_byte(word, 3) == word,
{
    assert(word == word % 256 + 0x100 * ((word / 256) % 256) + 0x1_0000 * ((word / 65536) % 256)
        + 0x100_0000 * ((word / 16777216) % 256)) by (bit_vector);
    assert((word / 256) % 256 < 256 && (word / 65536) % 256 < 256 && (word / 16777216) % 256 < 256);
}

proof fn lemma_places_of_bytes(words: Seq<u32>, i: int, k: int)
    requires
        0 <= i < words.len(),
        0 <= k < 4,
    ensures
        little_endian(words)[4 * i + k] == word_byte(words[i], k),
{
    assert((4 * i + k) / 4 == i && (4 * i + k) % 4 == k);
}

/// The bytes of a vector give back its words: four bytes for each, the lowest one first.
pub proof fn law_vectors_can_be_read_from_their_bytes(words: Seq<u32>, i: int)
    requires
        0 <= i < words.len(),
    ensures
        little_endian(words).len() == 4 * words.len(),
        ({
            let bytes = little_endian(words);
            bytes[4 * i] + 0x100 * bytes[4 * i + 1] + 0x1_0000 * bytes[4 * i + 2] + 0x100_0000
                * bytes[4 * i + 3] == words[i]
        }),
{
    lemma_places_of_bytes(words, i, 0);
    lemma_places_of_bytes(words, i, 1);
    lemma_places_of_bytes(words, i, 2);
    lemma_places_of_bytes(words, i, 3);
    lemma_word(words[i]);
}

/// A table is refused for its name before the size of its vectors. Points are refused where their
/// table is, where the first one is empty, and where two sizes differ; no points are never refused
/// for their size. A search is refused where its table is, without a vector, and without a limit.
pub proof fn law_refusals_name_the_first_reason(
    table_name: Seq<char>,
    vector_size: nat,
    points: Seq<VectorPoint>,
    vector: Seq<u32>,
    limit: nat,
)
    ensures
        ({
            let named = is_table_name(table_name);
            let uneven = exists|i: int, j: int|
                0 <= i < points.len() && 0 <= j < points.len() && (
                #[trigger] points[i]).vector@.len() != (#[trigger] points[j]).vector@.len();
            &&& table_error(table_name, vector_size) is None <==> named && vector_size > 0
            &&& table_error(table_name, vector_size) == Some(StoreErrorView::TableName) <==> !named
            &&& points_error(table_name, points) == Some(StoreErrorView::TableName) <==> !named
            &&& points_error(table_name, points) == Some(StoreErrorView::VectorSize) <==> named
                && points.len() > 0 && points[0].vector@.len() == 0
            &&& points_error(table_name, points) is None <==> named && !uneven && (points.len() == 0
                || points[0].vector@.len() > 0)
            &&& query_error(table_name, vector, limit) is None <==> named && vector.len() > 0
                && limit > 0
            &&& query_error(
                table_name,
                vector,
                limit,
            ) == Some(StoreErrorView::TableName) <==> !named
            &&& query_error(
                table_name,
                vector,
                limit,
            ) == Some(StoreErrorView::VectorSize) <==> named
                && vector.len() == 0
        }),
{
    let first = points[0].vector@.len();
    if exists|i: int| 0 <= i < points.len() && (#[trigger] points[i]).vector@.len() != first {
        let i = choose|i: int|
            0 <= i < points.len() && (#[trigger] points[i]).vector@.len() != first;
        assert(points[0].vector@.len() != points[i].vector@.len());
    }
}

} // verus!
