//! What values mean: names, ids, numbers, columns and messages.

use vstd::prelude::*;
use crate::decision_laws::{begins_with, holds};
use crate::error::{BadColumn, Fault, StoreError};
use crate::generations::{
    chunks_of, embedding_id_parts, generation_id_parts, is_manifest, latest_entry, manifest_parts,
};
use crate::layers::SemanticLayer;
use crate::lease::WriterLeaseInfo;
use crate::naming::{
    grouped, hex_digit_value, hex_value, is_alphanumeric, is_hex, lower, rowid_from, slug_of,
    slug_or_unknown, table_name_of,
};
use crate::outline::{children_of, is_outline, is_outline_row, parent_of};
use crate::qdrant::{
    collection_path, is_collection_body, is_collection_name, is_query_body, is_scroll_body,
    points_refusal, query_refusal, size_refusal, CollectionBody, QueryBody, Refusal, ScrollBody,
};
use crate::quality::job_id_parts;
use crate::records::{
    CallResolutionBucket, CallResolutionEdgeRow, ConfidenceBucket, EmbeddingIndexMetadata,
    FastEmbeddingManifestRecord, SymbolOutlineSummary,
};
use crate::resolution::{before, group_of, is_grouping};
use crate::rows::{IndexColumnRow, IndexRow, SymbolOutlineBaseRow};
use crate::runs::recorded_dimension;
use crate::schema::{
    column_names, compatibility, constraint, content_addressing, is_repository_path,
    repository_path, UniquePathView, FILES_CONTENT_ADDRESSING_INDEXES, REBUILD_FILES,
};
use crate::sql::{
    accepts, all_of, all_values, bad_column, counted_fault, first_rows, lemma_mismatch, mismatch,
    mismatch_from, only_values, unfit, Column, CommandView, Field, FromRow, Real, Row, SqlValue,
};
use crate::text::{
    decimal_digits, first_smaller_at, lemma_precedes_asymmetric, lemma_precedes_irreflexive,
    optional_text, precedes,
};
use crate::vector::VectorPoint;

verus! {

/// The letters and digits of a text, in lower case.
pub open spec fn letters(s: Seq<char>) -> Seq<char>
    decreases s.len(),
{
    if s.len() == 0 {
        Seq::empty()
    } else if is_alphanumeric(s.last()) {
        letters(s.drop_last()).push(lower(s.last()))
    } else {
        letters(s.drop_last())
    }
}

/// A slug holds exactly the letters and digits of its text, in their order and in lower case.
pub proof fn law_slugs_keep_letters_and_digits(input: Seq<char>)
    ensures
        letters(slug_of(input)) == letters(input),
        slug_of(input).len() == 0 <==> input.len() == 0,
        input.len() > 0 ==> slug_or_unknown(input) == slug_of(input),
        input.len() == 0 ==> slug_or_unknown(input) == "unknown"@,
    decreases input.len(),
{
    if input.len() > 0 {
        let front = input.drop_last();
        let last = input.last();
        law_slugs_keep_letters_and_digits(front);
        let slug = slug_of(front);
        if is_alphanumeric(last) {
            assert(slug.push(lower(last)).drop_last() =~= slug);
            assert(is_alphanumeric(lower(last)) && lower(lower(last)) == lower(last));
        } else if !(slug.len() > 0 && slug.last() == '_') {
            assert(slug.push('_').drop_last() =~= slug);
        }
    }
}

/// The name of a table tells both the repository and the model, behind the name of the project.
pub proof fn law_table_names_tell_repository_and_model(
    repository_id: Seq<char>,
    embedding_model: Seq<char>,
)
    ensures
        ({
            let name = table_name_of(repository_id, embedding_model);
            let first = slug_or_unknown(repository_id);
            let second = slug_or_unknown(embedding_model);
            &&& name.len() == 8 + first.len() + second.len()
            &&& name.take(7) == "symdex_"@
            &&& name.subrange(7, 7 + first.len() as int) == first
            &&& name[7 + first.len() as int] == '_'
            &&& name.skip(8 + first.len() as int) == second
        }),
{
    reveal_strlit("symdex_");
    reveal_strlit("_");
    let name = table_name_of(repository_id, embedding_model);
    let first = slug_or_unknown(repository_id);
    let second = slug_or_unknown(embedding_model);
    assert(name.take(7) =~= "symdex_"@);
    assert(name.subrange(7, 7 + first.len() as int) =~= first);
    assert(name.skip(8 + first.len() as int) =~= second);
}

/// An id of a point is written in groups of eight, three times four and twelve digits.
pub proof fn law_point_ids_are_grouped(hex: Seq<char>, i: int)
    requires
        hex.len() == 32,
        0 <= i < 32,
    ensures
        grouped(hex).len() == 36,
        grouped(hex)[8] == '-' && grouped(hex)[13] == '-' && grouped(hex)[18] == '-' && grouped(
            hex,
        )[23] == '-',
        i < 8 ==> grouped(hex)[i] == hex[i],
        8 <= i < 12 ==> grouped(hex)[i + 1] == hex[i],
        12 <= i < 16 ==> grouped(hex)[i + 2] == hex[i],
        16 <= i < 20 ==> grouped(hex)[i + 3] == hex[i],
        20 <= i ==> grouped(hex)[i + 4] == hex[i],
{
    reveal_strlit("-");
}

/// Digits count from nought to nine, letters from ten to fifteen in either case, and a digit in
/// front counts sixteen times the one behind it.
pub proof fn law_hexadecimal_numbers_count_by_sixteen(digits: Seq<char>, c: char)
    requires
        is_hex(c),
    ensures
        hex_digit_value(c) < 16,
        '0' <= c <= '9' ==> '0' as nat + hex_digit_value(c) == c as nat,
        'a' <= c <= 'f' ==> 'a' as nat + hex_digit_value(c) == c as nat + 10,
        'A' <= c <= 'F' ==> 'A' as nat + hex_digit_value(c) == c as nat + 10,
        hex_value(seq![c]) == hex_digit_value(c),
        hex_value(digits.push(c)) == 16 * hex_value(digits) + hex_digit_value(c),
{
    reveal_with_fuel(hex_value, 2);
    assert(digits.push(c).drop_last() =~= digits);
    assert(seq![c].drop_last() =~= Seq::empty());
}

/// A row id is the number itself where it is positive and fits, and lies within what fits.
pub proof fn law_row_ids_are_the_number_where_it_fits(value: nat)
    ensures
        0 < value < 0x8000_0000_0000_0000 ==> rowid_from(value) == value,
        1 <= rowid_from(value) <= 0x7fff_ffff_ffff_ffff,
        rowid_from(value + 0x8000_0000_0000_0000) == rowid_from(value),
{
    assert((value + 0x8000_0000_0000_0000) % 0x8000_0000_0000_0000 == value
        % 0x8000_0000_0000_0000) by (nonlinear_arith);
}

proof fn lemma_manifest_parts(
    a: Seq<FastEmbeddingManifestRecord>,
    b: Seq<FastEmbeddingManifestRecord>,
)
    requires
        manifest_parts(a) == manifest_parts(b),
    ensures
        a.len() == b.len(),
        forall|i: int|
            0 <= i < a.len() ==> (#[trigger] a[i]).chunk_id@ == b[i].chunk_id@ && a[i].content_hash@
                == b[i].content_hash@ && a[i].text_hash@ == b[i].text_hash@,
    decreases a.len(),
{
    lemma_manifest_length(a);
    lemma_manifest_length(b);
    if a.len() > 0 {
        let p = manifest_parts(a);
        let n = p.len() as int;
        assert(p.take(n - 3) =~= manifest_parts(a.drop_last()));
        assert(p.take(n - 3) =~= manifest_parts(b.drop_last()));
        assert(p[n - 3] == a.last().chunk_id@ && p[n - 3] == b.last().chunk_id@);
        assert(p[n - 2] == a.last().content_hash@ && p[n - 2] == b.last().content_hash@);
        assert(p[n - 1] == a.last().text_hash@ && p[n - 1] == b.last().text_hash@);
        lemma_manifest_parts(a.drop_last(), b.drop_last());
        assert forall|i: int| 0 <= i < a.len() implies (#[trigger] a[i]).chunk_id@ == b[i].chunk_id@
            && a[i].content_hash@ == b[i].content_hash@ && a[i].text_hash@ == b[i].text_hash@ by {
            if i < a.len() - 1 {
                assert(a.drop_last()[i] == a[i] && b.drop_last()[i] == b[i]);
            }
        }
    }
}

proof fn lemma_manifest_length(a: Seq<FastEmbeddingManifestRecord>)
    ensures
        manifest_parts(a).len() == 3 * a.len(),
    decreases a.len(),
{
    if a.len() > 0 {
        lemma_manifest_length(a.drop_last());
    }
}

/// Generations are identified by all that they are made of: where the parts of two ids agree, so do
/// the repository, the model, the dimension, and the chunks with their hashes.
pub proof fn law_generation_ids_tell_generations_apart(
    repository_id: Seq<char>,
    model: Seq<char>,
    dimension: usize,
    manifest: Seq<FastEmbeddingManifestRecord>,
    other_repository_id: Seq<char>,
    other_model: Seq<char>,
    other_dimension: usize,
    other_manifest: Seq<FastEmbeddingManifestRecord>,
    i: int,
)
    requires
        generation_id_parts(repository_id, model, dimension, manifest) == generation_id_parts(
            other_repository_id,
            other_model,
            other_dimension,
            other_manifest,
        ),
    ensures
        repository_id == other_repository_id,
        model == other_model,
        decimal_digits(dimension as nat) == decimal_digits(other_dimension as nat),
        manifest.len() == other_manifest.len(),
        0 <= i < manifest.len() ==> manifest[i].chunk_id@ == other_manifest[i].chunk_id@
            && manifest[i].content_hash@ == other_manifest[i].content_hash@ && manifest[i].text_hash@
            == other_manifest[i].text_hash@,
{
    let parts = generation_id_parts(repository_id, model, dimension, manifest);
    let others = generation_id_parts(
        other_repository_id,
        other_model,
        other_dimension,
        other_manifest,
    );
    assert(parts[1] == others[1] && parts[3] == others[3] && parts[4] == others[4]);
    assert(parts.skip(5) =~= manifest_parts(manifest));
    assert(others.skip(5) =~= manifest_parts(other_manifest));
    lemma_manifest_parts(manifest, other_manifest);
}

/// Embeddings are identified by their generation, chunk, layer, model and dimension, and jobs by
/// their generation and chunk. Ids of generations, embeddings and jobs begin with different parts.
pub proof fn law_ids_tell_embeddings_and_jobs_apart(
    repository_id: Seq<char>,
    generation_id: Seq<char>,
    chunk_id: Seq<char>,
    layer: Seq<char>,
    model: Seq<char>,
    dimension: usize,
    other_repository_id: Seq<char>,
    other_generation_id: Seq<char>,
    other_chunk_id: Seq<char>,
    other_layer: Seq<char>,
    other_model: Seq<char>,
    other_dimension: usize,
    manifest: Seq<FastEmbeddingManifestRecord>,
)
    ensures
        embedding_id_parts(repository_id, generation_id, chunk_id, layer, model, dimension)
            == embedding_id_parts(
            other_repository_id,
            other_generation_id,
            other_chunk_id,
            other_layer,
            other_model,
            other_dimension,
        ) ==> repository_id == other_repository_id && generation_id == other_generation_id && chunk_id
            == other_chunk_id && layer == other_layer && model == other_model && decimal_digits(
            dimension as nat,
        ) == decimal_digits(other_dimension as nat),
        job_id_parts(repository_id, generation_id, chunk_id) == job_id_parts(
            other_repository_id,
            other_generation_id,
            other_chunk_id,
        ) ==> repository_id == other_repository_id && generation_id == other_generation_id && chunk_id
            == other_chunk_id,
        generation_id_parts(repository_id, model, dimension, manifest)[0] == "semantic-generation"@,
        generation_id_parts(repository_id, model, dimension, manifest)[2]
            == SemanticLayer::Fast.text(),
        embedding_id_parts(repository_id, generation_id, chunk_id, layer, model, dimension)[0]
            == "chunk-embedding"@,
        job_id_parts(repository_id, generation_id, chunk_id)[0] == "quality-embedding-job"@,
{
    let e = embedding_id_parts(repository_id, generation_id, chunk_id, layer, model, dimension);
    let f = embedding_id_parts(
        other_repository_id,
        other_generation_id,
        other_chunk_id,
        other_layer,
        other_model,
        other_dimension,
    );
    if e == f {
        assert(e[1] == f[1] && e[2] == f[2] && e[3] == f[3] && e[4] == f[4] && e[5] == f[5] && e[6]
            == f[6]);
    }
    let j = job_id_parts(repository_id, generation_id, chunk_id);
    let k = job_id_parts(other_repository_id, other_generation_id, other_chunk_id);
    if j == k {
        assert(j[1] == k[1] && j[2] == k[2] && j[3] == k[3]);
    }
}

/// Numbers are ordered as their signs and magnitudes say, a number that is none is in no order, and
/// of two numbers the lesser one is taken.
pub proof fn law_reals_are_ordered(a: Real, b: Real)
    ensures
        ({
            let sign = 0x8000_0000_0000_0000u64;
            let most = 0x7ff0_0000_0000_0000u64;
            &&& a.bits <= most && b.bits <= most ==> (a.at_least_spec(b) <==> a.bits >= b.bits)
            &&& sign <= a.bits <= sign + most && sign <= b.bits <= sign + most ==> (a.at_least_spec(
                b,
            ) <==> a.bits <= b.bits)
            &&& a.bits <= most && sign <= b.bits <= sign + most ==> a.at_least_spec(b)
            &&& most < a.bits < sign || a.bits > sign + most ==> !a.at_least_spec(b)
                && !b.at_least_spec(a) && a.min_spec(b) == b
            &&& a.at_least_spec(b) && !b.at_least_spec(a) ==> a.min_spec(b) == b && b.min_spec(a)
                == b
            &&& a.min_spec(b) == a || a.min_spec(b) == b
        }),
{
}

/// A column takes the values of its kind, and an empty one only where it may be empty. A number may
/// be stored as a whole one.
pub proof fn law_columns_take_values_of_their_kind(value: SqlValue)
    ensures
        accepts(Column::Text, value) <==> value is Text,
        accepts(Column::TextOrNull, value) <==> value is Text || value is Null,
        accepts(Column::Integer, value) <==> value is Integer,
        accepts(Column::IntegerOrNull, value) <==> value is Integer || value is Null,
        accepts(Column::Real, value) <==> value is Real || value is Integer,
{
}

/// A row is read exactly when it has every column and every column takes its value.
pub proof fn law_rows_are_read_when_they_fit(row: Seq<SqlValue>, fields: Seq<Field>)
    ensures
        mismatch(row, fields) is None <==> forall|i: int|
            0 <= i < fields.len() ==> (#[trigger] fields[i]).at < row.len() && accepts(
                fields[i].kind,
                row[fields[i].at as int],
            ),
        mismatch(row, fields) matches Some(column) ==> {
            let at = match column {
                BadColumn::Missing { index } => index,
                BadColumn::Mistyped { index, .. } => index,
            };
            &&& column is Missing <==> at >= row.len()
            &&& exists|i: int|
                0 <= i < fields.len() && (#[trigger] fields[i]).at == at && (at >= row.len()
                    || !accepts(fields[i].kind, row[at as int]))
        },
{
    lemma_mismatch(row, fields, 0);
    lemma_first_mismatch(row, fields, 0);
    assert(mismatch(row, fields) is None <==> forall|i: int|
        0 <= i < fields.len() ==> !unfit(row, #[trigger] fields[i]));
}

proof fn lemma_first_mismatch(row: Seq<SqlValue>, fields: Seq<Field>, from: int)
    requires
        0 <= from <= fields.len(),
    ensures
        mismatch_from(row, fields, from) matches Some(column) ==> exists|i: int|
            from <= i < fields.len() && unfit(row, #[trigger] fields[i]) && column
                == bad_column(row, fields[i].at),
    decreases fields.len() - from,
{
    if from < fields.len() {
        lemma_first_mismatch(row, fields, from + 1);
    }
}

/// A count below nought is refused, under the name of what was counted; one that fits everywhere is
/// taken.
pub proof fn law_counts_are_refused_below_nought(rows: Seq<Row>, label: Seq<char>, n: i64)
    requires
        rows.len() > 0,
        rows[0]@ == seq![SqlValue::Integer(n)],
    ensures
        n < 0 ==> counted_fault(rows, label) == Some(Fault::Unexpected("negative "@ + label)),
        0 <= n <= 0xffff_ffff ==> counted_fault(rows, label) is None,
{
    lemma_mismatch(rows[0]@, i64::fields(), 0);
    assert(usize::MAX >= 0xffff_ffff);
}

/// A collection is made for vectors of the given size, which are compared by their cosine. A page
/// holds the points of one repository with their payload, 256 at most, and starts where the page
/// before ended. A search gives as many points as asked for, with their payload.
pub proof fn law_bodies_ask_for_what_is_wanted<Offset>(
    made: CollectionBody,
    vector_size: usize,
    page: ScrollBody<Offset>,
    repository_id: Seq<char>,
    offset: Option<Offset>,
    search: QueryBody,
    vector: Seq<u32>,
    limit: usize,
)
    requires
        is_collection_body(made, vector_size),
        is_scroll_body(page, repository_id, offset),
        is_query_body(search, vector, limit),
    ensures
        made.size == vector_size,
        made.distance@ == "Cosine"@,
        page.must@.len() == 1,
        page.must@[0].key@ == "repository_id"@,
        page.must@[0].value@ == repository_id,
        page.limit == 256,
        page.with_payload,
        !page.with_vector,
        page.offset == offset,
        search.query@ == vector,
        search.limit == limit,
        search.with_payload,
        !search.with_vector,
{
}

/// A request is refused for the name of its collection before anything else, then for the size of
/// its vectors, then for their difference or the limit; it is made where none of these applies.
pub proof fn law_requests_are_refused_for_the_first_reason(
    name: Seq<char>,
    vector_size: usize,
    points: Seq<VectorPoint>,
    vector: Seq<u32>,
    limit: usize,
    rest: Seq<char>,
)
    ensures
        ({
            let named = is_collection_name(name);
            let uneven = exists|i: int, j: int|
                0 <= i < points.len() && 0 <= j < points.len() && (
                #[trigger] points[i]).vector@.len() != (#[trigger] points[j]).vector@.len();
            &&& size_refusal(name, vector_size) is None <==> named && vector_size > 0
            &&& size_refusal(name, vector_size) == Some(Refusal::Name) <==> !named
            &&& points_refusal(name, points) == Some(Refusal::Name) <==> !named
            &&& points_refusal(name, points) == Some(Refusal::VectorSize) <==> named && points.len()
                > 0 && points[0].vector@.len() == 0
            &&& points_refusal(name, points) is None <==> named && !uneven && (points.len() == 0
                || points[0].vector@.len() > 0)
            &&& query_refusal(
                name,
                vector,
                limit,
            ) is None <==> named && vector.len() > 0 && limit > 0
            &&& query_refusal(name, vector, limit) == Some(Refusal::Name) <==> !named
            &&& query_refusal(name, vector, limit) == Some(Refusal::VectorSize) <==> named
                && vector.len() == 0
            &&& collection_path(name, rest) == "/collections/"@ + name + rest
        }),
{
    let first = points[0].vector@.len();
    if exists|i: int| 0 <= i < points.len() && (#[trigger] points[i]).vector@.len() != first {
        let i = choose|i: int|
            0 <= i < points.len() && (#[trigger] points[i]).vector@.len() != first;
        assert(points[0].vector@.len() != points[i].vector@.len());
    }
}

/// The dimension that counts is that of the run before, where there was one.
pub proof fn law_dimensions_are_those_of_the_run_before(run: EmbeddingIndexMetadata)
    ensures
        recorded_dimension(Some(run)) == run.embedding_dimension,
        recorded_dimension(None) is None,
{
}

/// A message names what it is about.
pub proof fn law_messages_name_what_failed(error: StoreError)
    ensures
        ({
            let message = error.message_text();
            match error {
                StoreError::Column(BadColumn::Missing { index }) => begins_with(
                    message,
                    "SQLite error: Invalid column index: "@,
                ) && holds(message, decimal_digits(index as nat)),
                StoreError::Column(BadColumn::Mistyped { index, found }) => begins_with(
                    message,
                    "SQLite error: Invalid column type "@,
                ) && holds(message, found.text() + " at index: "@ + decimal_digits(index as nat)),
                StoreError::NoRows => message == "SQLite error: Query returned no rows"@,
                StoreError::InvalidVectorTableName(name) => begins_with(
                    message,
                    "invalid sqlite-vec table name `"@,
                ) && holds(message, name@),
                StoreError::InvalidCollectionName(name) => begins_with(
                    message,
                    "invalid collection name `"@,
                ) && holds(message, name@),
                StoreError::InvalidPointId(id) => begins_with(
                    message,
                    "invalid vector point id source `"@,
                ) && holds(message, id@),
                StoreError::InvalidVectorSize(size) => begins_with(
                    message,
                    "invalid vector size `"@,
                ) && holds(message, decimal_digits(size as nat)),
                StoreError::InvalidLimit(limit) => begins_with(
                    message,
                    "invalid vector query limit `"@,
                ) && holds(message, decimal_digits(limit as nat)),
                StoreError::InconsistentVectorDimensions => message
                    == "vector points have inconsistent vector dimensions"@,
                StoreError::EmbeddingDimensionChanged {
                    repository_id,
                    embedding_model,
                    previous_dimension,
                    current_dimension,
                } => begins_with(message, "embedding dimension changed for repository `"@) && holds(
                    message,
                    repository_id@ + "` and model `"@ + embedding_model@ + "`: previous="@
                        + decimal_digits(previous_dimension as nat) + " current="@
                        + decimal_digits(current_dimension as nat),
                ),
                StoreError::WriterBusy { owner } => begins_with(
                    message,
                    if owner is Some {
                        "database writer busy: owner="@
                    } else {
                        "database writer busy: owner=<unknown>; stop the active writer or wait for it to finish"@
                    },
                ) && (owner matches Some(owner) ==> tells_owner(message, owner)),
                StoreError::UnexpectedResponse(text) => begins_with(
                    message,
                    "unexpected vector store response: "@,
                ) && holds(message, text@),
            }
        }),
{
    let message = error.message_text();
    match error {
        StoreError::Column(BadColumn::Missing { index }) => {
            lemma_begins(
                message,
                "SQLite error: Invalid column index: "@,
                decimal_digits(index as nat),
                Seq::empty(),
            );
        },
        StoreError::Column(BadColumn::Mistyped { index, found }) => {
            lemma_begins(
                message,
                "SQLite error: Invalid column type "@,
                found.text() + " at index: "@ + decimal_digits(index as nat),
                Seq::empty(),
            );
        },
        StoreError::InvalidVectorTableName(name) => {
            lemma_begins(message, "invalid sqlite-vec table name `"@, name@, "`"@);
        },
        StoreError::InvalidCollectionName(name) => {
            lemma_begins(message, "invalid collection name `"@, name@, "`"@);
        },
        StoreError::InvalidPointId(id) => {
            lemma_begins(message, "invalid vector point id source `"@, id@, "`"@);
        },
        StoreError::InvalidVectorSize(size) => {
            lemma_begins(message, "invalid vector size `"@, decimal_digits(size as nat), "`"@);
        },
        StoreError::InvalidLimit(limit) => {
            lemma_begins(
                message,
                "invalid vector query limit `"@,
                decimal_digits(limit as nat),
                "`"@,
            );
        },
        StoreError::EmbeddingDimensionChanged {
            repository_id,
            embedding_model,
            previous_dimension,
            current_dimension,
        } => {
            lemma_begins(
                message,
                "embedding dimension changed for repository `"@,
                repository_id@ + "` and model `"@ + embedding_model@ + "`: previous="@
                    + decimal_digits(previous_dimension as nat) + " current="@ + decimal_digits(
                    current_dimension as nat,
                ),
                "; reset the collection or use a new model name before reindexing"@,
            );
        },
        StoreError::WriterBusy { owner: Some(owner) } => {
            let root = match owner.repo_root {
                Some(root) => root@,
                None => "<none>"@,
            };
            lemma_begins(
                message,
                "database writer busy: owner="@,
                owner.owner_kind@ + " pid="@ + decimal_digits(owner.pid as nat) + " repo="@ + root
                    + " operation="@ + owner.operation@,
                "; stop the active writer or wait for it to finish"@,
            );
        },
        StoreError::WriterBusy { owner: None } => {
            assert(message.take(message.len() as int) =~= message);
        },
        StoreError::UnexpectedResponse(text) => {
            lemma_begins(message, "unexpected vector store response: "@, text@, Seq::empty());
        },
        _ => {},
    }
}

/// A message tells the kind, the process, the directory and the operation of an owner.
pub open spec fn tells_owner(message: Seq<char>, owner: WriterLeaseInfo) -> bool {
    holds(
        message,
        owner.owner_kind@ + " pid="@ + decimal_digits(owner.pid as nat) + " repo="@ + (
        match owner.repo_root {
            Some(root) => root@,
            None => "<none>"@,
        }) + " operation="@ + owner.operation@,
    )
}

proof fn lemma_begins(whole: Seq<char>, start: Seq<char>, middle: Seq<char>, end: Seq<char>)
    requires
        whole =~= start + middle + end,
    ensures
        begins_with(whole, start),
        holds(whole, middle),
{
    assert(whole.take(start.len() as int) =~= start);
    assert(whole.subrange(start.len() as int, (start.len() + middle.len()) as int) =~= middle);
}

/// Groups are in the order of their state, and within a state the more confident ones come first.
/// Each holds the calls of its state and level, in their order.
pub proof fn law_groups_are_ordered_by_state_and_level(
    groups: Seq<CallResolutionBucket>,
    rows: Seq<CallResolutionEdgeRow>,
    i: int,
    j: int,
    k: int,
)
    requires
        is_grouping(groups, rows),
        0 <= i < groups.len(),
    ensures
        groups[i].call_count == groups[i].rows@.len(),
        groups[i].rows@.len() > 0,
        0 <= k < groups[i].rows@.len() ==> groups[i].rows@[k].resolution_status@
            == groups[i].resolution_status@ && groups[i].rows@[k].confidence_bucket
            == groups[i].confidence_bucket && rows.contains(groups[i].rows@[k]),
        i < j < groups.len() ==> precedes(
            groups[i].resolution_status@,
            groups[j].resolution_status@,
        ) || groups[i].resolution_status@ == groups[j].resolution_status@ && (
        groups[i].confidence_bucket == ConfidenceBucket::High && groups[j].confidence_bucket
            != ConfidenceBucket::High || groups[i].confidence_bucket == ConfidenceBucket::Medium
            && groups[j].confidence_bucket == ConfidenceBucket::Low),
{
    let group = groups[i];
    lemma_group_rows(rows, group.resolution_status@, group.confidence_bucket, k);
    if i < j < groups.len() {
        assert(before(groups[i], groups[j]));
    }
}

proof fn lemma_group_rows(
    rows: Seq<CallResolutionEdgeRow>,
    status: Seq<char>,
    bucket: ConfidenceBucket,
    k: int,
)
    ensures
        0 <= k < group_of(rows, status, bucket).len() ==> ({
            let row = group_of(rows, status, bucket)[k];
            row.resolution_status@ == status && row.confidence_bucket == bucket && rows.contains(row)
        }),
    decreases rows.len(),
{
    if rows.len() > 0 {
        let front = rows.drop_last();
        lemma_group_rows(front, status, bucket, k);
        let kept = group_of(front, status, bucket);
        if 0 <= k < group_of(rows, status, bucket).len() {
            if k < kept.len() {
                let at = choose|at: int| 0 <= at < front.len() && front[at] == kept[k];
                assert(rows[at] == kept[k]);
            } else {
                assert(rows[rows.len() - 1] == rows.last());
            }
        }
    }
}

/// A column that is added later is added to its own table under its own name.
pub proof fn law_columns_are_added_to_their_table(i: int)
    requires
        0 <= i < compatibility().len(),
    ensures
        begins_with(
            compatibility()[i].alter_sql,
            "ALTER TABLE "@ + compatibility()[i].table + " ADD COLUMN "@ + compatibility()[i].name
                + " "@,
        ),
{
    reveal_strlit("ALTER TABLE ");
    reveal_strlit(" ADD COLUMN ");
    reveal_strlit(" ");
    reveal_strlit("calls");
    reveal_strlit("chunk_embeddings");
    reveal_strlit("chunks");
    reveal_strlit("embedded_at");
    reveal_strlit("embedding_dimension");
    reveal_strlit("embedding_model");
    reveal_strlit("files");
    reveal_strlit("index_run_id");
    reveal_strlit("index_runs");
    reveal_strlit("indexer_version");
    reveal_strlit("parser_version");
    reveal_strlit("repository_ref_id");
    reveal_strlit("run_kind");
    reveal_strlit("symbols");
    reveal_strlit("vector_point_id");
    reveal_strlit("vector_rowid");
    reveal_strlit("vector_store");
    reveal_strlit("vector_table");
    let c = compatibility()[i];
    let start = "ALTER TABLE "@ + c.table + " ADD COLUMN "@ + c.name + " "@;
    if i == 0 {
        reveal_strlit("ALTER TABLE index_runs ADD COLUMN repository_ref_id TEXT");
        assert(c.alter_sql.take(start.len() as int) =~= start);
    }
    if i == 1 {
        reveal_strlit("ALTER TABLE index_runs ADD COLUMN parser_version TEXT");
        assert(c.alter_sql.take(start.len() as int) =~= start);
    }
    if i == 2 {
        reveal_strlit("ALTER TABLE index_runs ADD COLUMN indexer_version TEXT");
        assert(c.alter_sql.take(start.len() as int) =~= start);
    }
    if i == 3 {
        reveal_strlit("ALTER TABLE index_runs ADD COLUMN run_kind TEXT NOT NULL DEFAULT 'manual'");
        assert(c.alter_sql.take(start.len() as int) =~= start);
    }
    if i == 4 {
        reveal_strlit("ALTER TABLE files ADD COLUMN index_run_id TEXT");
        assert(c.alter_sql.take(start.len() as int) =~= start);
    }
    if i == 5 {
        reveal_strlit("ALTER TABLE files ADD COLUMN parser_version TEXT");
        assert(c.alter_sql.take(start.len() as int) =~= start);
    }
    if i == 6 {
        reveal_strlit("ALTER TABLE symbols ADD COLUMN index_run_id TEXT");
        assert(c.alter_sql.take(start.len() as int) =~= start);
    }
    if i == 7 {
        reveal_strlit("ALTER TABLE symbols ADD COLUMN parser_version TEXT");
        assert(c.alter_sql.take(start.len() as int) =~= start);
    }
    if i == 8 {
        reveal_strlit("ALTER TABLE chunks ADD COLUMN index_run_id TEXT");
        assert(c.alter_sql.take(start.len() as int) =~= start);
    }
    if i == 9 {
        reveal_strlit("ALTER TABLE chunks ADD COLUMN parser_version TEXT");
        assert(c.alter_sql.take(start.len() as int) =~= start);
    }
    if i == 10 {
        reveal_strlit("ALTER TABLE chunks ADD COLUMN embedding_model TEXT");
        assert(c.alter_sql.take(start.len() as int) =~= start);
    }
    if i == 11 {
        reveal_strlit("ALTER TABLE chunks ADD COLUMN embedding_dimension INTEGER");
        assert(c.alter_sql.take(start.len() as int) =~= start);
    }
    if i == 12 {
        reveal_strlit("ALTER TABLE chunks ADD COLUMN embedded_at TEXT");
        assert(c.alter_sql.take(start.len() as int) =~= start);
    }
    if i == 13 {
        reveal_strlit("ALTER TABLE calls ADD COLUMN index_run_id TEXT");
        assert(c.alter_sql.take(start.len() as int) =~= start);
    }
    if i == 14 {
        reveal_strlit("ALTER TABLE calls ADD COLUMN parser_version TEXT");
        assert(c.alter_sql.take(start.len() as int) =~= start);
    }
    if i == 15 {
        reveal_strlit("ALTER TABLE chunk_embeddings ADD COLUMN vector_store TEXT NOT NULL DEFAULT 'legacy_qdrant'");
        assert(c.alter_sql.take(start.len() as int) =~= start);
    }
    if i == 16 {
        reveal_strlit("ALTER TABLE chunk_embeddings ADD COLUMN vector_table TEXT");
        assert(c.alter_sql.take(start.len() as int) =~= start);
    }
    if i == 17 {
        reveal_strlit("ALTER TABLE chunk_embeddings ADD COLUMN vector_point_id TEXT");
        assert(c.alter_sql.take(start.len() as int) =~= start);
    }
    if i == 18 {
        reveal_strlit("ALTER TABLE chunk_embeddings ADD COLUMN vector_rowid INTEGER");
        assert(c.alter_sql.take(start.len() as int) =~= start);
    }
}

/// The files are rebuilt only where their path is unique in its repository: where one of the unique
/// indexes is one of exactly the repository and the path.
pub proof fn law_files_are_rebuilt_where_paths_are_unique(
    indexes: Seq<Row>,
    answers: Seq<Vec<Row>>,
)
    ensures
        content_addressing(true) == seq![
            CommandView::Batch(REBUILD_FILES@),
            CommandView::Batch(FILES_CONTENT_ADDRESSING_INDEXES@),
        ],
        content_addressing(false) == seq![CommandView::Batch(FILES_CONTENT_ADDRESSING_INDEXES@)],
        constraint(indexes, answers) == UniquePathView::Known(true) ==> exists|k: int|
            0 <= k < answers.len() && is_path_of_repository(#[trigger] answers[k]@),
        constraint(
            indexes,
            answers,
        ) == UniquePathView::Known(false) && answers.len() > 0 && indexes.len() > 0
            && IndexRow::of(indexes[0]@).unique != 0 ==> !is_path_of_repository(answers[0]@),
    decreases indexes.len(),
{
    if indexes.len() > 0 {
        law_files_are_rebuilt_where_paths_are_unique(indexes.drop_first(), answers);
        if answers.len() > 0 {
            let behind = answers.drop_first();
            law_files_are_rebuilt_where_paths_are_unique(indexes.drop_first(), behind);
            lemma_path_of_repository(answers[0]@);
            if exists|k: int|
                0 <= k < behind.len() && is_path_of_repository(#[trigger] behind[k]@) {
                let k = choose|k: int|
                    0 <= k < behind.len() && is_path_of_repository(#[trigger] behind[k]@);
                assert(is_path_of_repository(answers[k + 1]@));
            }
        }
    }
}

/// The columns of an index are the repository and the path.
pub open spec fn is_path_of_repository(columns: Seq<Row>) -> bool {
    let list = all_of::<IndexColumnRow>(columns);
    list.len() == 2 && list[0].name@ == "repository_id"@ && list[1].name@ == "path"@
}

proof fn lemma_path_of_repository(columns: Seq<Row>)
    ensures
        is_repository_path(
            column_names(all_of::<IndexColumnRow>(columns)),
        ) <==> is_path_of_repository(columns),
{
    let list = all_of::<IndexColumnRow>(columns);
    let names = column_names(list);
    if list.len() == 2 {
        assert(names[0] == list[0].name@ && names[1] == list[1].name@);
    }
    if is_path_of_repository(columns) {
        assert(names =~= repository_path());
    }
    if names == repository_path() {
        assert(names.len() == 2);
        assert(names[0] == "repository_id"@ && names[1] == "path"@);
    }
}

/// Texts are in the order of the first characters in which they differ, and a text stands before
/// any longer one that begins with it.
pub proof fn law_texts_are_ordered_by_their_first_difference(
    same: Seq<char>,
    x: char,
    y: char,
    a: Seq<char>,
    b: Seq<char>,
)
    requires
        x < y,
    ensures
        precedes(same, same.push(x) + a),
        !precedes(same.push(x) + a, same),
        precedes(same.push(x) + a, same.push(y) + b),
        !precedes(same.push(y) + b, same.push(x) + a),
        !precedes(same, same),
{
    let n = same.len() as int;
    let longer = same.push(x) + a;
    let other = same.push(y) + b;
    assert(first_smaller_at(same, longer, n));
    lemma_precedes_asymmetric(same, longer);
    assert(longer[n] == x && other[n] == y);
    assert(first_smaller_at(longer, other, n));
    lemma_precedes_asymmetric(longer, other);
    lemma_precedes_irreflexive(same);
}

/// The latest entry of a chunk is the last one in the list, and there is none where no entry is of
/// the chunk.
pub proof fn law_latest_entries_are_the_last_ones(
    entries: Seq<FastEmbeddingManifestRecord>,
    chunk: Seq<char>,
    i: int,
)
    ensures
        0 <= i < entries.len() && entries[i].chunk_id@ == chunk && (forall|j: int|
            i < j < entries.len() ==> (#[trigger] entries[j]).chunk_id@ != chunk) ==> latest_entry(
            entries,
            chunk,
        ) == Some(entries[i]),
        (forall|j: int| 0 <= j < entries.len() ==> (#[trigger] entries[j]).chunk_id@ != chunk)
            ==> latest_entry(entries, chunk) is None,
    decreases entries.len(),
{
    if entries.len() > 0 {
        let front = entries.drop_last();
        law_latest_entries_are_the_last_ones(front, chunk, i);
        assert(entries.last() == entries[entries.len() - 1]);
        assert(forall|j: int| 0 <= j < front.len() ==> front[j] == #[trigger] entries[j]);
        if 0 <= i < front.len() && forall|j: int|
            i < j < entries.len() ==> (#[trigger] entries[j]).chunk_id@ != chunk {
            assert forall|j: int| i < j < front.len() implies (#[trigger] front[j]).chunk_id@
                != chunk by {
                assert(front[j] == entries[j]);
            }
        }
        if forall|j: int| 0 <= j < entries.len() ==> (#[trigger] entries[j]).chunk_id@ != chunk {
            assert forall|j: int| 0 <= j < front.len() implies (#[trigger] front[j]).chunk_id@
                != chunk by {
                assert(front[j] == entries[j]);
            }
        }
    }
}

/// A manifest holds one entry for every chunk that has one, the latest, in the order of the chunks.
pub proof fn law_manifests_are_ordered_by_chunk(
    manifest: Seq<FastEmbeddingManifestRecord>,
    entries: Seq<FastEmbeddingManifestRecord>,
    i: int,
    j: int,
)
    requires
        is_manifest(manifest, entries),
        0 <= i < j < manifest.len(),
    ensures
        precedes(manifest[i].chunk_id@, manifest[j].chunk_id@),
        latest_entry(entries, manifest[i].chunk_id@) == Some(manifest[i]),
{
    let chunks = chunks_of(manifest);
    assert(chunks[i] == manifest[i].chunk_id@ && chunks[j] == manifest[j].chunk_id@);
}

/// An outline has a row for every symbol, in the order of the symbols.
pub proof fn law_outlines_keep_the_order_of_symbols(
    s: SymbolOutlineSummary,
    repository_id: Seq<char>,
    bases: Seq<SymbolOutlineBaseRow>,
    i: int,
)
    requires
        is_outline(s, repository_id, bases),
        0 <= i < bases.len(),
    ensures
        s.repository_id@ == repository_id,
        s.symbols@.len() == bases.len(),
        s.symbols@[i].id@ == bases[i].id@,
        s.symbols@[i].child_count == children_of(bases, bases[i].id@),
{
    assert(is_outline_row(s.symbols@[i], bases[i], bases));
}

/// Of answers that all have a row the first rows are taken, in their order; all rows of all answers
/// are taken one answer after the other.
pub proof fn law_answers_are_taken_in_order<T: FromRow>(
    answers: Seq<Vec<Row>>,
    answer: Vec<Row>,
    i: int,
)
    requires
        forall|j: int| 0 <= j < answers.len() ==> (#[trigger] answers[j])@.len() > 0,
    ensures
        first_rows(answers).len() == answers.len(),
        0 <= i < answers.len() ==> first_rows(answers)[i] == answers[i]@[0],
        0 <= i < answers.len() ==> only_values::<T>(answers)[i] == T::of(answers[i]@[0]@),
        all_values::<T>(Seq::empty()).len() == 0,
        all_values::<T>(answers.push(answer)) == all_values::<T>(answers) + all_of::<T>(answer@),
    decreases answers.len(),
{
    assert(answers.push(answer).drop_last() =~= answers);
    if answers.len() > 0 {
        let front = answers.drop_last();
        assert forall|j: int| 0 <= j < front.len() implies (#[trigger] front[j])@.len() > 0 by {
            assert(front[j] == answers[j]);
        }
        law_answers_are_taken_in_order::<T>(front, answer, i);
        assert(answers.last() == answers[answers.len() - 1]);
        if 0 <= i < front.len() {
            assert(front[i] == answers[i]);
        }
    }
}

/// The parent of a symbol is that of the last row with its id, and a symbol without a row has none.
pub proof fn law_parents_are_those_of_the_symbol(
    bases: Seq<SymbolOutlineBaseRow>,
    id: Seq<char>,
    i: int,
)
    ensures
        0 <= i < bases.len() && bases[i].id@ == id && (forall|j: int|
            i < j < bases.len() ==> (#[trigger] bases[j]).id@ != id) ==> parent_of(bases, id)
            == optional_text(bases[i].parent_symbol_id),
        (forall|j: int| 0 <= j < bases.len() ==> (#[trigger] bases[j]).id@ != id) ==> parent_of(
            bases,
            id,
        ) is None,
    decreases bases.len(),
{
    if bases.len() > 0 {
        let front = bases.drop_last();
        law_parents_are_those_of_the_symbol(front, id, i);
        assert(bases.last() == bases[bases.len() - 1]);
        assert(forall|j: int| 0 <= j < front.len() ==> front[j] == #[trigger] bases[j]);
        if 0 <= i < front.len() && forall|j: int|
            i < j < bases.len() ==> (#[trigger] bases[j]).id@ != id {
            assert forall|j: int| i < j < front.len() implies (#[trigger] front[j]).id@ != id by {
                assert(front[j] == bases[j]);
            }
        }
        if forall|j: int| 0 <= j < bases.len() ==> (#[trigger] bases[j]).id@ != id {
            assert forall|j: int| 0 <= j < front.len() implies (#[trigger] front[j]).id@ != id by {
                assert(front[j] == bases[j]);
            }
        }
    }
}

} // verus!
