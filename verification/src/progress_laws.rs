//! What the progress of the quality layer changes.

use vstd::prelude::*;
use crate::bindings::{binds, lemma_says, says};
use crate::layers::SemanticLayerStatus;
use crate::quality::{
    progress_stored, UPDATE_FAILED, UPDATE_FAILED_WITH_DIMENSION, UPDATE_PROGRESS,
    UPDATE_WITH_DIMENSION,
};
use crate::sql::{count, text, Value};
use crate::statement_laws::{
    law_update_failed_says, law_update_failed_with_dimension_says, law_update_progress_says,
    law_update_with_dimension_says,
};

verus! {

/// The text of assignments, one a line.
pub open spec fn assignments_text(list: Seq<(Seq<char>, Seq<char>)>) -> Seq<char>
    decreases list.len(),
{
    if list.len() == 0 {
        Seq::empty()
    } else if list.len() == 1 {
        list[0].0 + " = "@ + list[0].1
    } else {
        assignments_text(list.drop_last()) + ",\n        "@ + list.last().0 + " = "@ + list.last().1
    }
}

/// An update sets exactly the columns of a list.
pub open spec fn sets(sql: Seq<char>, list: Seq<(Seq<char>, Seq<char>)>) -> bool {
    says(sql, "SET "@ + assignments_text(list) + "\n    WHERE"@)
}

/// A column is among those that are set.
pub open spec fn touches(list: Seq<(Seq<char>, Seq<char>)>, column: Seq<char>) -> bool {
    exists|i: int| 0 <= i < list.len() && #[trigger] list[i].0 == column
}

/// The columns that `UPDATE_PROGRESS` sets, and to what.
pub open spec fn update_progress_sets() -> Seq<(Seq<char>, Seq<char>)> {
    seq![
        ("quality_embedded_chunks"@, "?3"@),
        ("active_layer"@, "'fast'"@),
        ("updated_at"@, "?4"@),
    ]
}

proof fn lemma_update_progress_sets()
    ensures
        sets(UPDATE_PROGRESS@, update_progress_sets()),
        touches(update_progress_sets(), "quality_status"@) <==> false,
{
    let list = update_progress_sets();
    let sql = UPDATE_PROGRESS@;
    reveal_strlit("UPDATE semantic_generations
    SET quality_embedded_chunks = ?3,
        active_layer = 'fast',
        updated_at = ?4
    WHERE repository_id = ?1
      AND id = ?2");
    reveal_strlit("SET ");
    reveal_strlit(",\n        ");
    reveal_strlit("\n    WHERE");
    reveal_strlit(" = ");
    reveal_strlit("quality_status");
    reveal_strlit("'fast'");
    reveal_strlit("?3");
    reveal_strlit("?4");
    reveal_strlit("active_layer");
    reveal_strlit("quality_embedded_chunks");
    reveal_strlit("updated_at");
    reveal_with_fuel(assignments_text, 4);
    assert(list.take(1).drop_last() =~= list.take(0));
    assert(assignments_text(list.take(1)) =~= sql.subrange(36, 64));
    assert(list.take(2).drop_last() =~= list.take(1));
    assert(assignments_text(list.take(2)) =~= sql.subrange(36, 95));
    assert(list.take(3).drop_last() =~= list.take(2));
    assert(assignments_text(list.take(3)) =~= sql.subrange(36, 120));
    assert(list.take(3) =~= list);
    assert("SET "@ + assignments_text(list) + "\n    WHERE"@ =~= sql.subrange(32, 130));
    lemma_says(sql, "SET "@ + assignments_text(list) + "\n    WHERE"@, 32);
    assert(list[0].0.len() != "quality_status"@.len());
    assert(list[1].0.len() != "quality_status"@.len());
    assert(list[2].0.len() != "quality_status"@.len());
}

/// The columns that `UPDATE_WITH_DIMENSION` sets, and to what.
pub open spec fn update_with_dimension_sets() -> Seq<(Seq<char>, Seq<char>)> {
    seq![
        ("quality_dimension"@, "COALESCE(quality_dimension, ?3)"@),
        ("quality_started_at"@, "COALESCE(quality_started_at, ?4)"@),
        ("quality_embedded_chunks"@, "?5"@),
        ("active_layer"@, "'fast'"@),
        ("updated_at"@, "?4"@),
    ]
}

proof fn lemma_update_with_dimension_sets()
    ensures
        sets(UPDATE_WITH_DIMENSION@, update_with_dimension_sets()),
        touches(update_with_dimension_sets(), "quality_status"@) <==> false,
{
    let list = update_with_dimension_sets();
    let sql = UPDATE_WITH_DIMENSION@;
    reveal_strlit("UPDATE semantic_generations
    SET quality_dimension = COALESCE(quality_dimension, ?3),
        quality_started_at = COALESCE(quality_started_at, ?4),
        quality_embedded_chunks = ?5,
        active_layer = 'fast',
        updated_at = ?4
    WHERE repository_id = ?1
      AND id = ?2");
    reveal_strlit("SET ");
    reveal_strlit(",\n        ");
    reveal_strlit("\n    WHERE");
    reveal_strlit(" = ");
    reveal_strlit("quality_status");
    reveal_strlit("'fast'");
    reveal_strlit("?4");
    reveal_strlit("?5");
    reveal_strlit("COALESCE(quality_dimension, ?3)");
    reveal_strlit("COALESCE(quality_started_at, ?4)");
    reveal_strlit("active_layer");
    reveal_strlit("quality_dimension");
    reveal_strlit("quality_embedded_chunks");
    reveal_strlit("quality_started_at");
    reveal_strlit("updated_at");
    reveal_with_fuel(assignments_text, 6);
    assert(list.take(1).drop_last() =~= list.take(0));
    assert(assignments_text(list.take(1)) =~= sql.subrange(36, 87));
    assert(list.take(2).drop_last() =~= list.take(1));
    assert(assignments_text(list.take(2)) =~= sql.subrange(36, 150));
    assert(list.take(3).drop_last() =~= list.take(2));
    assert(assignments_text(list.take(3)) =~= sql.subrange(36, 188));
    assert(list.take(4).drop_last() =~= list.take(3));
    assert(assignments_text(list.take(4)) =~= sql.subrange(36, 219));
    assert(list.take(5).drop_last() =~= list.take(4));
    assert(assignments_text(list.take(5)) =~= sql.subrange(36, 244));
    assert(list.take(5) =~= list);
    assert("SET "@ + assignments_text(list) + "\n    WHERE"@ =~= sql.subrange(32, 254));
    lemma_says(sql, "SET "@ + assignments_text(list) + "\n    WHERE"@, 32);
    assert(list[0].0.len() != "quality_status"@.len());
    assert(list[1].0.len() != "quality_status"@.len());
    assert(list[2].0.len() != "quality_status"@.len());
    assert(list[3].0.len() != "quality_status"@.len());
    assert(list[4].0.len() != "quality_status"@.len());
}

/// The columns that `UPDATE_FAILED` sets, and to what.
pub open spec fn update_failed_sets() -> Seq<(Seq<char>, Seq<char>)> {
    seq![
        ("quality_embedded_chunks"@, "?3"@),
        ("quality_status"@, "?4"@),
        ("active_layer"@, "'fast'"@),
        ("updated_at"@, "?5"@),
    ]
}

proof fn lemma_update_failed_sets()
    ensures
        sets(UPDATE_FAILED@, update_failed_sets()),
        touches(update_failed_sets(), "quality_status"@) <==> true,
{
    let list = update_failed_sets();
    let sql = UPDATE_FAILED@;
    reveal_strlit("UPDATE semantic_generations
    SET quality_embedded_chunks = ?3,
        quality_status = ?4,
        active_layer = 'fast',
        updated_at = ?5
    WHERE repository_id = ?1
      AND id = ?2");
    reveal_strlit("SET ");
    reveal_strlit(",\n        ");
    reveal_strlit("\n    WHERE");
    reveal_strlit(" = ");
    reveal_strlit("quality_status");
    reveal_strlit("'fast'");
    reveal_strlit("?3");
    reveal_strlit("?4");
    reveal_strlit("?5");
    reveal_strlit("active_layer");
    reveal_strlit("quality_embedded_chunks");
    reveal_strlit("quality_status");
    reveal_strlit("updated_at");
    reveal_with_fuel(assignments_text, 5);
    assert(list.take(1).drop_last() =~= list.take(0));
    assert(assignments_text(list.take(1)) =~= sql.subrange(36, 64));
    assert(list.take(2).drop_last() =~= list.take(1));
    assert(assignments_text(list.take(2)) =~= sql.subrange(36, 93));
    assert(list.take(3).drop_last() =~= list.take(2));
    assert(assignments_text(list.take(3)) =~= sql.subrange(36, 124));
    assert(list.take(4).drop_last() =~= list.take(3));
    assert(assignments_text(list.take(4)) =~= sql.subrange(36, 149));
    assert(list.take(4) =~= list);
    assert("SET "@ + assignments_text(list) + "\n    WHERE"@ =~= sql.subrange(32, 159));
    lemma_says(sql, "SET "@ + assignments_text(list) + "\n    WHERE"@, 32);
    assert(list[1].0 == "quality_status"@);
}

/// The columns that `UPDATE_FAILED_WITH_DIMENSION` sets, and to what.
pub open spec fn update_failed_with_dimension_sets() -> Seq<(Seq<char>, Seq<char>)> {
    seq![
        ("quality_dimension"@, "COALESCE(quality_dimension, ?3)"@),
        ("quality_started_at"@, "COALESCE(quality_started_at, ?4)"@),
        ("quality_embedded_chunks"@, "?5"@),
        ("quality_status"@, "?6"@),
        ("active_layer"@, "'fast'"@),
        ("updated_at"@, "?4"@),
    ]
}

proof fn lemma_update_failed_with_dimension_sets()
    ensures
        sets(UPDATE_FAILED_WITH_DIMENSION@, update_failed_with_dimension_sets()),
        touches(update_failed_with_dimension_sets(), "quality_status"@) <==> true,
{
    let list = update_failed_with_dimension_sets();
    let sql = UPDATE_FAILED_WITH_DIMENSION@;
    reveal_strlit("UPDATE semantic_generations
    SET quality_dimension = COALESCE(quality_dimension, ?3),
        quality_started_at = COALESCE(quality_started_at, ?4),
        quality_embedded_chunks = ?5,
        quality_status = ?6,
        active_layer = 'fast',
        updated_at = ?4
    WHERE repository_id = ?1
      AND id = ?2");
    reveal_strlit("SET ");
    reveal_strlit(",\n        ");
    reveal_strlit("\n    WHERE");
    reveal_strlit(" = ");
    reveal_strlit("quality_status");
    reveal_strlit("'fast'");
    reveal_strlit("?4");
    reveal_strlit("?5");
    reveal_strlit("?6");
    reveal_strlit("COALESCE(quality_dimension, ?3)");
    reveal_strlit("COALESCE(quality_started_at, ?4)");
    reveal_strlit("active_layer");
    reveal_strlit("quality_dimension");
    reveal_strlit("quality_embedded_chunks");
    reveal_strlit("quality_started_at");
    reveal_strlit("quality_status");
    reveal_strlit("updated_at");
    reveal_with_fuel(assignments_text, 7);
    assert(list.take(1).drop_last() =~= list.take(0));
    assert(assignments_text(list.take(1)) =~= sql.subrange(36, 87));
    assert(list.take(2).drop_last() =~= list.take(1));
    assert(assignments_text(list.take(2)) =~= sql.subrange(36, 150));
    assert(list.take(3).drop_last() =~= list.take(2));
    assert(assignments_text(list.take(3)) =~= sql.subrange(36, 188));
    assert(list.take(4).drop_last() =~= list.take(3));
    assert(assignments_text(list.take(4)) =~= sql.subrange(36, 217));
    assert(list.take(5).drop_last() =~= list.take(4));
    assert(assignments_text(list.take(5)) =~= sql.subrange(36, 248));
    assert(list.take(6).drop_last() =~= list.take(5));
    assert(assignments_text(list.take(6)) =~= sql.subrange(36, 273));
    assert(list.take(6) =~= list);
    assert("SET "@ + assignments_text(list) + "\n    WHERE"@ =~= sql.subrange(32, 283));
    lemma_says(sql, "SET "@ + assignments_text(list) + "\n    WHERE"@, 32);
    assert(list[3].0 == "quality_status"@);
}

/// Storing the progress of a quality layer changes the generation asked for: its number of
/// embeddings, the time of the update, and its dimension where one is given. It sets the state of
/// the layer, to failed, exactly when at least one job failed and none is pending or running; with
/// an open job, or without a failed one, the state is not touched.
pub proof fn law_progress_fails_only_when_no_job_is_open(
    repository_id: Seq<char>,
    generation_id: Seq<char>,
    dimension: Option<usize>,
    at: Seq<char>,
    embedded: i64,
    open_jobs: i64,
    failed: i64,
)
    ensures
        ({
            let s = progress_stored(
                repository_id,
                generation_id,
                dimension,
                at,
                embedded,
                open_jobs,
                failed,
            );
            let has_failed = failed > 0 && open_jobs == 0;
            &&& exists|list: Seq<(Seq<char>, Seq<char>)>|
                #[trigger] sets(s.sql, list) && (touches(list, "quality_status"@) <==> has_failed)
            &&& has_failed ==> binds(s, "quality_status = "@, text("quality_failed"@))
            &&& binds(s, "repository_id = "@, text(repository_id))
            &&& binds(s, "id = "@, text(generation_id))
            &&& binds(s, "quality_embedded_chunks = "@, Value::Integer(embedded as int))
            &&& binds(s, "updated_at = "@, text(at))
            &&& dimension matches Some(d) ==> binds(
                s,
                "quality_dimension = COALESCE(quality_dimension, "@,
                count(d),
            )
        }),
{
    let failed_text = SemanticLayerStatus::QualityFailed.text();
    lemma_update_progress_sets();
    lemma_update_with_dimension_sets();
    lemma_update_failed_sets();
    lemma_update_failed_with_dimension_sets();
    law_update_progress_says(repository_id, generation_id, embedded, at);
    law_update_failed_says(repository_id, generation_id, embedded, failed_text, at);
    if let Some(d) = dimension {
        law_update_with_dimension_says(repository_id, generation_id, d, at, embedded);
        law_update_failed_with_dimension_says(
            repository_id,
            generation_id,
            d,
            at,
            embedded,
            failed_text,
        );
    }
    let s = progress_stored(
        repository_id,
        generation_id,
        dimension,
        at,
        embedded,
        open_jobs,
        failed,
    );
    let has_failed = failed > 0 && open_jobs == 0;
    let list = match dimension {
        Some(_) => if has_failed {
            update_failed_with_dimension_sets()
        } else {
            update_with_dimension_sets()
        },
        None => if has_failed {
            update_failed_sets()
        } else {
            update_progress_sets()
        },
    };
    assert(sets(s.sql, list));
    assert(touches(list, "quality_status"@) <==> has_failed);
}

} // verus!
