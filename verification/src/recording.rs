//! What recording a fast generation again does to the rows that are there.

use vstd::prelude::*;
use crate::generations::{
    chunks_of, embedding_id_parts, entries_stored, fast_embedding_values, fast_generation_stored,
    fast_generation_values, generation_columns, generation_id_parts, is_manifest, latest_entry,
    latest_semantic_generation_spec, law_generations_round_trip, manifest_parts, rowless_entry,
    store_script, UPSERT_CHUNK_EMBEDDING,
};
use crate::layers::SemanticLayer;
use crate::naming::rowid_of;
use crate::records::{
    FastEmbeddingManifestRecord, FastSemanticGenerationInput, SemanticGenerationRecord,
};
use crate::sql::{
    count, first_fault, lemma_optional_size_round_trip, lemma_size_round_trip, text, values,
    CommandView, FromRow, Row, Value,
};
use crate::text::{lemma_ascending_unique, optional_text};

verus! {

/// The statement that stores a new fast generation, up to what happens to a generation with the
/// same id.
pub const STORE_FAST_GENERATION: &'static str = "INSERT INTO semantic_generations (
      id, repository_id, fast_model, fast_dimension, fast_completed_at,
      quality_model, quality_dimension, quality_status, quality_started_at,
      quality_completed_at, active_layer, files_seen, embeddable_chunks,
      fast_embedded_chunks, quality_embedded_chunks, created_at, updated_at
    )
    VALUES (?1, ?2, ?3, ?4, ?5, ?6, ?7, ?8, ?9, ?10, ?11, ?12, ?13, ?14, ?15, ?16, ?17)
    ON CONFLICT(id) DO UPDATE SET";

/// What happens to a column of a row that is there.
#[derive(Debug, Clone, Copy, PartialEq, Eq, Structural)]
pub enum OnConflict {
    /// It is not named, so that it stays.
    Unnamed,
    /// It takes the given value.
    Given,
    /// It takes the value that is stored.
    Stored,
}

/// The columns of a generation and what happens to each.
pub open spec fn column_rules() -> Seq<(Seq<char>, OnConflict)> {
    seq![
        ("id"@, OnConflict::Unnamed),
        ("repository_id"@, OnConflict::Given),
        ("fast_model"@, OnConflict::Given),
        ("fast_dimension"@, OnConflict::Given),
        ("fast_completed_at"@, OnConflict::Given),
        ("quality_model"@, OnConflict::Stored),
        ("quality_dimension"@, OnConflict::Stored),
        ("quality_status"@, OnConflict::Stored),
        ("quality_started_at"@, OnConflict::Stored),
        ("quality_completed_at"@, OnConflict::Stored),
        ("active_layer"@, OnConflict::Stored),
        ("files_seen"@, OnConflict::Given),
        ("embeddable_chunks"@, OnConflict::Given),
        ("fast_embedded_chunks"@, OnConflict::Given),
        ("quality_embedded_chunks"@, OnConflict::Stored),
        ("created_at"@, OnConflict::Unnamed),
        ("updated_at"@, OnConflict::Given),
    ]
}

/// The assignments to the columns that are named, one a line, with commas between.
pub open spec fn assignments(rules: Seq<(Seq<char>, OnConflict)>) -> Seq<char>
    decreases rules.len(),
{
    if rules.len() == 0 {
        Seq::empty()
    } else {
        let before = assignments(rules.drop_last());
        let (name, rule) = rules.last();
        let separator = if before.len() == 0 {
            "\n      "@
        } else {
            ",\n      "@
        };
        match rule {
            OnConflict::Unnamed => before,
            OnConflict::Given => before + separator + name + " = excluded."@ + name,
            OnConflict::Stored => before + separator + name + " = semantic_generations."@ + name,
        }
    }
}

/// The text of the statement that stores a fast generation.
pub open spec fn fast_generation_sql() -> Seq<char> {
    STORE_FAST_GENERATION@ + assignments(column_rules())
}

/// The readings of columns and what happens to each.
pub open spec fn rules_of(list: Seq<(&str, OnConflict)>) -> Seq<(Seq<char>, OnConflict)> {
    Seq::new(list.len(), |i: int| (list[i].0@, list[i].1))
}

/// The text of the statement that stores a fast generation. Where a generation with the same id is
/// there, it keeps its quality layer, its active layer and the time at which it was created.
pub fn upsert_fast_generation() -> (r: String)
    ensures
        r@ == fast_generation_sql(),
{
    let rules = vec![
        ("id", OnConflict::Unnamed),
        ("repository_id", OnConflict::Given),
        ("fast_model", OnConflict::Given),
        ("fast_dimension", OnConflict::Given),
        ("fast_completed_at", OnConflict::Given),
        ("quality_model", OnConflict::Stored),
        ("quality_dimension", OnConflict::Stored),
        ("quality_status", OnConflict::Stored),
        ("quality_started_at", OnConflict::Stored),
        ("quality_completed_at", OnConflict::Stored),
        ("active_layer", OnConflict::Stored),
        ("files_seen", OnConflict::Given),
        ("embeddable_chunks", OnConflict::Given),
        ("fast_embedded_chunks", OnConflict::Given),
        ("quality_embedded_chunks", OnConflict::Stored),
        ("created_at", OnConflict::Unnamed),
        ("updated_at", OnConflict::Given),
    ];
    let ghost all = rules_of(rules@);
    proof {
        assert(all =~= column_rules());
    }
    let mut sql = STORE_FAST_GENERATION.to_owned();
    let mut named = false;
    proof {
        assert(sql@ =~= STORE_FAST_GENERATION@ + assignments(all.take(0)));
    }
    for i in 0..rules.len()
        invariant
            all == rules_of(rules@),
            sql@ == STORE_FAST_GENERATION@ + assignments(all.take(i as int)),
            named == (assignments(all.take(i as int)).len() > 0),
    {
        let ghost before = assignments(all.take(i as int));
        proof {
            assert(all.take(i + 1).drop_last() =~= all.take(i as int));
            assert(all.take(i + 1).last() == all[i as int]);
            reveal_strlit(" = excluded.");
            reveal_strlit(" = semantic_generations.");
        }
        let (name, rule) = rules[i];
        match rule {
            OnConflict::Unnamed => {},
            OnConflict::Given | OnConflict::Stored => {
                let separator = if named {
                    ",\n      "
                } else {
                    "\n      "
                };
                let source = if rule == OnConflict::Given {
                    " = excluded."
                } else {
                    " = semantic_generations."
                };
                sql.append(separator);
                sql.append(name);
                sql.append(source);
                sql.append(name);
                named = true;
                proof {
                    assert(sql@ =~= STORE_FAST_GENERATION@ + (before + separator@ + name@
                        + source@ + name@));
                    assert(source@.len() > 0);
                }
            },
        }
    }
    proof {
        assert(all.take(all.len() as int) =~= all);
    }
    sql
}

/// The row of a generation behind the statement, given the row with its id before it, if there is
/// one, as the text of the statement asks for it: a new row holds what is given, and of a row that
/// is there the columns that take the given value change.
pub open spec fn row_behind(stored: Option<Seq<Value>>, given: Seq<Value>) -> Seq<Value> {
    match stored {
        None => given,
        Some(row) => Seq::new(
            given.len(),
            |i: int|
                if column_rules()[i].1 == OnConflict::Given {
                    given[i]
                } else {
                    row[i]
                },
        ),
    }
}

/// The rows that recording a generation changes: the generations by their ids, and the embeddings
/// by what they are found by.
pub struct StoredRows {
    pub generations: Map<Value, Seq<Value>>,
    pub embeddings: Map<Seq<Value>, Seq<Value>>,
}

/// What an embedding is found by, among the values that are stored of it: its chunk, its layer,
/// and its model and dimension.
pub open spec fn found_by(embedding: Seq<Value>) -> Seq<Value> {
    embedding.subrange(3, 7)
}

/// The rows behind a command, as the text of its statement asks for them. A generation takes the
/// place of the one with its id as `row_behind` says. An embedding takes the place of the one that
/// is found by the same values, of which every other column takes the given value.
pub open spec fn rows_behind(rows: StoredRows, command: CommandView) -> StoredRows {
    match command {
        CommandView::Execute(s) => if s.sql == fast_generation_sql() && s.params.len() == 17 {
            let id = s.params[0];
            let before = if rows.generations.dom().contains(id) {
                Some(rows.generations[id])
            } else {
                None
            };
            StoredRows {
                generations: rows.generations.insert(id, row_behind(before, s.params)),
                ..rows
            }
        } else if s.sql == UPSERT_CHUNK_EMBEDDING@ && s.params.len() == 15 {
            StoredRows {
                embeddings: rows.embeddings.insert(found_by(s.params), s.params),
                ..rows
            }
        } else {
            rows
        },
        _ => rows,
    }
}

/// The rows behind commands, one after the other.
pub open spec fn rows_behind_all(rows: StoredRows, commands: Seq<CommandView>) -> StoredRows
    decreases commands.len(),
{
    if commands.len() == 0 {
        rows
    } else {
        rows_behind(rows_behind_all(rows, commands.drop_last()), commands.last())
    }
}

/// The id of the generation that is recorded, for a function that digests parts.
pub open spec fn recorded_id(
    stable_id: spec_fn(Seq<Seq<char>>) -> Seq<char>,
    input: FastSemanticGenerationInput<'_>,
    manifest: Seq<FastEmbeddingManifestRecord>,
) -> Seq<char> {
    stable_id(
        generation_id_parts(
            input.repository_id@,
            input.fast_model@,
            input.fast_dimension,
            manifest,
        ),
    )
}

/// The ids of the embeddings of the generation that is recorded.
pub open spec fn recorded_embedding_ids(
    stable_id: spec_fn(Seq<Seq<char>>) -> Seq<char>,
    input: FastSemanticGenerationInput<'_>,
    manifest: Seq<FastEmbeddingManifestRecord>,
) -> Seq<Seq<char>> {
    Seq::new(
        manifest.len(),
        |i: int|
            stable_id(
                embedding_id_parts(
                    input.repository_id@,
                    recorded_id(stable_id, input, manifest),
                    manifest[i].chunk_id@,
                    SemanticLayer::Fast.text(),
                    input.fast_model@,
                    input.fast_dimension,
                ),
            ),
    )
}

/// The digests of the points of a manifest.
pub open spec fn point_digests(
    stable_id: spec_fn(Seq<Seq<char>>) -> Seq<char>,
    manifest: Seq<FastEmbeddingManifestRecord>,
) -> Seq<Seq<char>> {
    Seq::new(
        manifest.len(),
        |i: int| stable_id(seq!["vector-rowid"@, manifest[i].vector_point_id@]),
    )
}

/// The commands with which a generation is recorded, once its manifest is known.
pub open spec fn recording(
    stable_id: spec_fn(Seq<Seq<char>>) -> Seq<char>,
    input: FastSemanticGenerationInput<'_>,
    manifest: Seq<FastEmbeddingManifestRecord>,
) -> Seq<CommandView> {
    store_script(
        input,
        recorded_id(stable_id, input, manifest),
        manifest,
        recorded_embedding_ids(stable_id, input, manifest),
        point_digests(stable_id, manifest),
    )
}

/// A generation can be recorded: the point of each of its embeddings has a row.
pub open spec fn can_be_recorded(
    stable_id: spec_fn(Seq<Seq<char>>) -> Seq<char>,
    manifest: Seq<FastEmbeddingManifestRecord>,
) -> bool {
    rowless_entry(manifest, point_digests(stable_id, manifest), 0) is None
}

/// Two lists of entries speak of the same chunks, with the same content, text and point.
pub open spec fn same_chunks(
    entries: Seq<FastEmbeddingManifestRecord>,
    others: Seq<FastEmbeddingManifestRecord>,
) -> bool {
    forall|chunk: Seq<char>|
        #![trigger latest_entry(entries, chunk)]
        #![trigger latest_entry(others, chunk)]
        match (latest_entry(entries, chunk), latest_entry(others, chunk)) {
            (Some(entry), Some(other)) => entry.content_hash@ == other.content_hash@
                && entry.text_hash@ == other.text_hash@ && entry.vector_point_id@
                == other.vector_point_id@,
            (None, None) => true,
            _ => false,
        }
}

/// Two recordings are of the same repository, with the same model.
pub open spec fn same_recording(
    first: FastSemanticGenerationInput<'_>,
    again: FastSemanticGenerationInput<'_>,
) -> bool {
    &&& first.repository_id@ == again.repository_id@
    &&& first.fast_model@ == again.fast_model@
    &&& first.fast_dimension == again.fast_dimension
}

/// Every row of `rows` is there in `others` too, with whatever values.
pub open spec fn still_there(rows: StoredRows, others: StoredRows) -> bool {
    &&& rows.generations.dom().subset_of(others.generations.dom())
    &&& rows.embeddings.dom().subset_of(others.embeddings.dom())
}

/// `after` is the generation `before` recorded again at `completed_at`: the fast layer was
/// completed and the generation updated then, and the time at which it was created, its active
/// layer and its whole quality layer are as they were.
pub open spec fn recorded_again(
    before: SemanticGenerationRecord,
    after: SemanticGenerationRecord,
    completed_at: Seq<char>,
) -> bool {
    &&& after.id@ == before.id@
    &&& after.created_at@ == before.created_at@
    &&& after.active_layer@ == before.active_layer@
    &&& optional_text(after.quality_model) == optional_text(before.quality_model)
    &&& after.quality_dimension == before.quality_dimension
    &&& after.quality_status@ == before.quality_status@
    &&& optional_text(after.quality_started_at) == optional_text(before.quality_started_at)
    &&& optional_text(after.quality_completed_at) == optional_text(before.quality_completed_at)
    &&& after.quality_embedded_chunks == before.quality_embedded_chunks
    &&& after.fast_completed_at@ == completed_at
    &&& after.updated_at@ == completed_at
}

/// What the embeddings of a manifest are found by.
spec fn embedding_keys(
    input: FastSemanticGenerationInput<'_>,
    manifest: Seq<FastEmbeddingManifestRecord>,
) -> Seq<Seq<Value>> {
    Seq::new(
        manifest.len(),
        |i: int|
            seq![
                text(manifest[i].chunk_id@),
                text(SemanticLayer::Fast.text()),
                text(input.fast_model@),
                count(input.fast_dimension),
            ],
    )
}

/// Two manifests have the same chunks in the same order, with the same content, text and point.
spec fn same_entries(
    a: Seq<FastEmbeddingManifestRecord>,
    b: Seq<FastEmbeddingManifestRecord>,
) -> bool {
    &&& a.len() == b.len()
    &&& forall|i: int|
        0 <= i < a.len() ==> (#[trigger] a[i]).chunk_id@ == b[i].chunk_id@ && a[i].content_hash@
            == b[i].content_hash@ && a[i].text_hash@ == b[i].text_hash@ && a[i].vector_point_id@
            == b[i].vector_point_id@
}

proof fn lemma_same_entries(
    entries: Seq<FastEmbeddingManifestRecord>,
    others: Seq<FastEmbeddingManifestRecord>,
    a: Seq<FastEmbeddingManifestRecord>,
    b: Seq<FastEmbeddingManifestRecord>,
)
    requires
        is_manifest(a, entries),
        is_manifest(b, others),
        same_chunks(entries, others),
    ensures
        same_entries(a, b),
{
    assert forall|chunk: Seq<char>| chunks_of(a).contains(chunk) <==> chunks_of(b).contains(
        chunk,
    ) by {
        if chunks_of(a).contains(chunk) {
            let i = choose|i: int| 0 <= i < a.len() && chunks_of(a)[i] == chunk;
            assert(latest_entry(entries, a[i].chunk_id@) is Some);
            assert(latest_entry(others, chunk) is Some);
        }
        if chunks_of(b).contains(chunk) {
            let i = choose|i: int| 0 <= i < b.len() && chunks_of(b)[i] == chunk;
            assert(latest_entry(others, b[i].chunk_id@) is Some);
            assert(latest_entry(entries, chunk) is Some);
        }
    }
    lemma_ascending_unique(chunks_of(a), chunks_of(b));
    assert(a.len() == chunks_of(a).len());
    assert(b.len() == chunks_of(b).len());
    assert forall|i: int| 0 <= i < a.len() implies (#[trigger] a[i]).chunk_id@ == b[i].chunk_id@
        && a[i].content_hash@ == b[i].content_hash@ && a[i].text_hash@ == b[i].text_hash@
        && a[i].vector_point_id@ == b[i].vector_point_id@ by {
        assert(chunks_of(a)[i] == chunks_of(b)[i]);
        assert(latest_entry(entries, a[i].chunk_id@) == Some(a[i]));
        assert(latest_entry(others, b[i].chunk_id@) == Some(b[i]));
    }
}

proof fn lemma_same_manifest_parts(
    a: Seq<FastEmbeddingManifestRecord>,
    b: Seq<FastEmbeddingManifestRecord>,
)
    requires
        same_entries(a, b),
    ensures
        manifest_parts(a) == manifest_parts(b),
    decreases a.len(),
{
    if a.len() > 0 {
        let front = a.drop_last();
        let other = b.drop_last();
        assert forall|i: int| 0 <= i < front.len() implies (#[trigger] front[i]).chunk_id@
            == other[i].chunk_id@ && front[i].content_hash@ == other[i].content_hash@
            && front[i].text_hash@ == other[i].text_hash@ && front[i].vector_point_id@
            == other[i].vector_point_id@ by {
            assert(front[i] == a[i]);
        }
        lemma_same_manifest_parts(front, other);
        assert(a[a.len() - 1].chunk_id@ == b[b.len() - 1].chunk_id@);
    }
}

proof fn lemma_same_rowless(
    a: Seq<FastEmbeddingManifestRecord>,
    b: Seq<FastEmbeddingManifestRecord>,
    digests: Seq<Seq<char>>,
    from: int,
)
    requires
        same_entries(a, b),
    ensures
        rowless_entry(a, digests, from) == rowless_entry(b, digests, from),
    decreases a.len() - from,
{
    if 0 <= from < a.len() {
        assert(a[from].vector_point_id@ == b[from].vector_point_id@);
        lemma_same_rowless(a, b, digests, from + 1);
    }
}

proof fn lemma_behind_concat(rows: StoredRows, a: Seq<CommandView>, b: Seq<CommandView>)
    ensures
        rows_behind_all(rows, a + b) == rows_behind_all(rows_behind_all(rows, a), b),
    decreases b.len(),
{
    if b.len() == 0 {
        assert(a + b =~= a);
    } else {
        assert((a + b).drop_last() =~= a + b.drop_last());
        assert((a + b).last() == b.last());
        lemma_behind_concat(rows, a, b.drop_last());
    }
}

/// Storing the first `n` embeddings leaves the generations as they are, and adds to the embeddings
/// exactly those that were not there.
proof fn lemma_embeddings_behind(
    rows: StoredRows,
    input: FastSemanticGenerationInput<'_>,
    generation_id: Seq<char>,
    manifest: Seq<FastEmbeddingManifestRecord>,
    ids: Seq<Seq<char>>,
    digests: Seq<Seq<char>>,
    n: int,
)
    requires
        0 <= n <= manifest.len(),
    ensures
        ({
            let commands = entries_stored(input, generation_id, manifest, ids, digests).take(n);
            let behind = rows_behind_all(rows, commands);
            let keys = embedding_keys(input, manifest).take(n);
            &&& behind.generations == rows.generations
            &&& forall|key: Seq<Value>| #[trigger]
                behind.embeddings.dom().contains(key) <==> rows.embeddings.dom().contains(key)
                    || keys.contains(key)
        }),
    decreases n,
{
    let all = entries_stored(input, generation_id, manifest, ids, digests);
    let every_key = embedding_keys(input, manifest);
    let commands = all.take(n);
    let keys = every_key.take(n);
    if n > 0 {
        lemma_embeddings_behind(rows, input, generation_id, manifest, ids, digests, n - 1);
        assert(commands.drop_last() =~= all.take(n - 1));
        assert(commands.last() == all[n - 1]);
        let entry = manifest[n - 1];
        let rowid = rowid_of(entry.vector_point_id@, digests[n - 1])->Some_0;
        let given = fast_embedding_values(input, generation_id, ids[n - 1], entry, rowid);
        assert(found_by(given) =~= every_key[n - 1]);
        let before = rows_behind_all(rows, all.take(n - 1));
        let behind = rows_behind_all(rows, commands);
        assert(behind.embeddings == before.embeddings.insert(found_by(given), given));
        assert(keys =~= every_key.take(n - 1).push(every_key[n - 1]));
        assert forall|key: Seq<Value>| #[trigger]
            behind.embeddings.dom().contains(key) <==> rows.embeddings.dom().contains(key)
                || keys.contains(key) by {
            let some = every_key.take(n - 1);
            if keys.contains(key) && key != every_key[n - 1] {
                let k = choose|k: int| 0 <= k < keys.len() && keys[k] == key;
                assert(some[k] == key);
            }
            if some.contains(key) {
                let k = choose|k: int| 0 <= k < some.len() && some[k] == key;
                assert(keys[k] == key);
            }
            assert(keys[n - 1] == every_key[n - 1]);
        }
    }
}

/// What recording a generation leaves: its row as `row_behind` says, the other generations as they
/// were, and beside the embeddings that were there those of the manifest.
proof fn lemma_recording_behind(
    rows: StoredRows,
    input: FastSemanticGenerationInput<'_>,
    generation_id: Seq<char>,
    manifest: Seq<FastEmbeddingManifestRecord>,
    ids: Seq<Seq<char>>,
    digests: Seq<Seq<char>>,
)
    ensures
        ({
            let behind = rows_behind_all(
                rows,
                store_script(input, generation_id, manifest, ids, digests),
            );
            let given = fast_generation_values(input, generation_id, manifest.len() as usize);
            let before = if rows.generations.dom().contains(text(generation_id)) {
                Some(rows.generations[text(generation_id)])
            } else {
                None
            };
            &&& behind.generations == rows.generations.insert(
                text(generation_id),
                row_behind(before, given),
            )
            &&& forall|key: Seq<Value>| #[trigger]
                behind.embeddings.dom().contains(key) <==> rows.embeddings.dom().contains(key)
                    || embedding_keys(input, manifest).contains(key)
        }),
{
    let chunks = manifest.len() as usize;
    let head = seq![fast_generation_stored(input, generation_id, chunks)];
    let entries = entries_stored(input, generation_id, manifest, ids, digests);
    let tail = seq![
        CommandView::Commit,
        CommandView::Query(latest_semantic_generation_spec(input.repository_id@)),
    ];
    lemma_behind_concat(rows, head + entries, tail);
    lemma_behind_concat(rows, head, entries);
    let started = rows_behind_all(rows, head);
    let filled = rows_behind_all(started, entries);
    assert(head.drop_last() =~= Seq::empty());
    assert(head.last() == fast_generation_stored(input, generation_id, chunks));
    assert(rows_behind_all(rows, head.drop_last()) == rows);
    lemma_embeddings_behind(
        started,
        input,
        generation_id,
        manifest,
        ids,
        digests,
        manifest.len() as int,
    );
    assert(entries.take(manifest.len() as int) =~= entries);
    assert(embedding_keys(input, manifest).take(manifest.len() as int) =~= embedding_keys(
        input,
        manifest,
    ));
    assert(tail.drop_last() =~= seq![CommandView::Commit]);
    assert(tail.drop_last().drop_last() =~= Seq::empty());
    assert(rows_behind_all(filled, tail.drop_last().drop_last()) == filled);
    assert(rows_behind_all(filled, tail.drop_last()) == filled);
    assert(rows_behind_all(filled, tail) == filled);
}

proof fn lemma_recorded_again(
    before: SemanticGenerationRecord,
    after: SemanticGenerationRecord,
    again: FastSemanticGenerationInput<'_>,
    chunks: usize,
)
    requires
        values(generation_columns(after)) == row_behind(
            Some(values(generation_columns(before))),
            fast_generation_values(again, before.id@, chunks),
        ),
    ensures
        recorded_again(before, after, again.completed_at@),
{
    let given = fast_generation_values(again, before.id@, chunks);
    let old_row = values(generation_columns(before));
    let new_row = values(generation_columns(after));
    assert forall|i: int| 0 <= i < 17 implies #[trigger] new_row[i] == (if column_rules()[i].1
        == OnConflict::Given {
        given[i]
    } else {
        old_row[i]
    }) by {}
    assert(new_row[0] == old_row[0]);
    assert(new_row[4] == given[4]);
    assert(new_row[5] == old_row[5]);
    assert(new_row[6] == old_row[6]);
    assert(new_row[7] == old_row[7]);
    assert(new_row[8] == old_row[8]);
    assert(new_row[9] == old_row[9]);
    assert(new_row[10] == old_row[10]);
    assert(new_row[14] == old_row[14]);
    assert(new_row[15] == old_row[15]);
    assert(new_row[16] == given[16]);
    lemma_optional_size_round_trip(before.quality_dimension);
    lemma_optional_size_round_trip(after.quality_dimension);
    lemma_size_round_trip(before.quality_embedded_chunks);
    lemma_size_round_trip(after.quality_embedded_chunks);
}

/// A fast generation is recorded with the manifest `a`, and later, with unchanged chunks, again
/// with the manifest `b`. In between the generation may have become `before`, with another quality
/// layer, and rows may have been added. Then the second recording succeeds where the first one
/// did, with the same id. It adds no row: the generation and each of its embeddings take the place
/// of the rows that are there, and other generations stay as they are. Where the generation is the
/// latest one, so that the rows read back begin with it, `recorded_generation` gives it as `after`:
/// completed and updated at the time of the second recording, and with the time of its creation,
/// its active layer and its quality layer as they were.
pub proof fn law_recording_again_keeps_the_generation(
    stable_id: spec_fn(Seq<Seq<char>>) -> Seq<char>,
    first: FastSemanticGenerationInput<'_>,
    again: FastSemanticGenerationInput<'_>,
    entries: Seq<FastEmbeddingManifestRecord>,
    others: Seq<FastEmbeddingManifestRecord>,
    a: Seq<FastEmbeddingManifestRecord>,
    b: Seq<FastEmbeddingManifestRecord>,
    start: StoredRows,
    between: StoredRows,
    before: SemanticGenerationRecord,
    after: SemanticGenerationRecord,
    read_back: Seq<Row>,
)
    requires
        same_recording(first, again),
        is_manifest(a, entries),
        is_manifest(b, others),
        same_chunks(entries, others),
        can_be_recorded(stable_id, a),
        still_there(rows_behind_all(start, recording(stable_id, first, a)), between),
        before.id@ == recorded_id(stable_id, first, a),
        between.generations[text(before.id@)] == values(generation_columns(before)),
        values(generation_columns(after)) == rows_behind_all(
            between,
            recording(stable_id, again, b),
        ).generations[text(recorded_id(stable_id, again, b))],
        read_back.len() > 0,
        read_back[0]@ == generation_columns(after),
    ensures
        can_be_recorded(stable_id, b),
        recorded_id(stable_id, again, b) == recorded_id(stable_id, first, a),
        recorded_embedding_ids(stable_id, again, b) == recorded_embedding_ids(stable_id, first, a),
        ({
            let behind = rows_behind_all(between, recording(stable_id, again, b));
            &&& behind.generations.dom() == between.generations.dom()
            &&& behind.embeddings.dom() == between.embeddings.dom()
            &&& forall|id: Value|
                id != text(before.id@) ==> #[trigger] behind.generations[id]
                    == between.generations[id]
        }),
        first_fault::<SemanticGenerationRecord>(read_back) is None,
        SemanticGenerationRecord::of(read_back[0]@) == after,
        recorded_again(before, after, again.completed_at@),
{
    lemma_same_entries(entries, others, a, b);
    lemma_same_manifest_parts(a, b);
    assert(point_digests(stable_id, a) =~= point_digests(stable_id, b)) by {
        assert forall|i: int| 0 <= i < a.len() implies point_digests(stable_id, a)[i]
            == point_digests(stable_id, b)[i] by {
            assert(a[i].vector_point_id@ == b[i].vector_point_id@);
        }
    }
    lemma_same_rowless(a, b, point_digests(stable_id, a), 0);
    let id = recorded_id(stable_id, first, a);
    assert(recorded_id(stable_id, again, b) == id);
    assert(recorded_embedding_ids(stable_id, again, b) =~= recorded_embedding_ids(
        stable_id,
        first,
        a,
    )) by {
        assert forall|i: int| 0 <= i < a.len() implies recorded_embedding_ids(
            stable_id,
            again,
            b,
        )[i] == recorded_embedding_ids(stable_id, first, a)[i] by {
            assert(a[i].chunk_id@ == b[i].chunk_id@);
        }
    }
    lemma_recording_behind(
        start,
        first,
        id,
        a,
        recorded_embedding_ids(stable_id, first, a),
        point_digests(stable_id, a),
    );
    lemma_recording_behind(
        between,
        again,
        id,
        b,
        recorded_embedding_ids(stable_id, again, b),
        point_digests(stable_id, b),
    );
    let stored = rows_behind_all(start, recording(stable_id, first, a));
    let behind = rows_behind_all(between, recording(stable_id, again, b));
    assert(stored.generations.dom().contains(text(id)));
    assert(between.generations.dom().contains(text(id)));
    assert(behind.generations.dom() =~= between.generations.dom());
    assert(embedding_keys(first, a) =~= embedding_keys(again, b)) by {
        assert forall|i: int| 0 <= i < a.len() implies embedding_keys(first, a)[i]
            == embedding_keys(again, b)[i] by {
            assert(a[i].chunk_id@ == b[i].chunk_id@);
        }
    }
    assert forall|key: Seq<Value>| behind.embeddings.dom().contains(key)
        == between.embeddings.dom().contains(key) by {
        if embedding_keys(again, b).contains(key) {
            assert(stored.embeddings.dom().contains(key));
        }
    }
    assert(behind.embeddings.dom() =~= between.embeddings.dom());
    lemma_recorded_again(before, after, again, b.len() as usize);
    law_generations_round_trip(after);
}

} // verus!
