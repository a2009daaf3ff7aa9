//! What searches and jobs ask for and store, step by step.

use vstd::prelude::*;
use crate::bindings::{binds, says};
use crate::decision_laws::law_jobs_are_counted_by_state;
use crate::error::StoreError;
use crate::generations::{
    current_fast_embeddings, fast_embedding_values, fast_generation_values, is_layer_summary,
    point_queries, store_script, upsert_embedding_spec,
};
use crate::layers::{SemanticLayer, SemanticLayerStatus};
use crate::naming::{rowid_of, table_name_of};
use crate::quality::{
    block_script, carried_stored, carried_values, claims, ended_spec, is_carried, is_tally,
    job_ended, progress_queries, queue_script, restarted_values, sums_up, upsert_job_spec,
    QualityJobStatusCounts,
};
use crate::records::{
    FastEmbeddingManifestRecord, FastSemanticGenerationInput, QualityCarryForwardSummary,
    QualityEmbeddingJobRecord, QualityJobCompletion, QualityQueueSummary, SemanticGenerationRecord,
    SemanticLayerManifestSummary,
};
use crate::rows::{CarriedRow, StatusCount};
use crate::search::{
    call_paths_for_ref_queries, call_paths_queries, transitive_call_paths_from_for_ref_queries,
    transitive_call_paths_from_queries, transitive_call_paths_to_for_ref_queries,
    transitive_call_paths_to_queries,
};
use crate::sql::{count, script, text, Command, CommandView, Row};
use crate::statement_laws::{
    law_all_symbol_refs_for_ref_says, law_all_symbol_refs_says, law_call_path_edges_for_ref_says,
    law_call_path_edges_says, law_claim_quality_job_says, law_current_quality_embeddings_says,
    law_embeddable_chunks_says, law_fast_embeddings_for_ref_says, law_fast_embeddings_says,
    law_mark_superseded_quality_jobs_stale_says, law_quality_job_counts_says, law_quality_job_says,
    law_resolve_symbol_refs_for_ref_says, law_resolve_symbol_refs_says,
    law_vector_point_ids_at_path_says,
};

verus! {

/// A question is asked with a value for a column.
pub open spec fn asks(
    asked: Seq<CommandView>,
    i: int,
    column: Seq<char>,
    value: Seq<char>,
) -> bool {
    &&& 0 <= i < asked.len()
    &&& asked[i] matches CommandView::Query(q) && binds(q, column, text(value))
}

/// A question asks for symbols by their id, their name or their qualified name.
pub open spec fn asks_for_symbol(asked: Seq<CommandView>, i: int, query: Seq<char>) -> bool {
    &&& asks(asked, i, "symbols.id = "@, query)
    &&& asks(asked, i, "symbols.name = "@, query)
    &&& asks(asked, i, "symbols.qualified_name = "@, query)
}

/// A search for paths asks for the symbols where they start first, for those where they end then,
/// and for the calls of the repository last.
pub proof fn law_path_searches_ask_for_both_ends(
    repository_id: Seq<char>,
    source_query: Seq<char>,
    target_query: Seq<char>,
)
    ensures
        ({
            let asked = call_paths_queries(repository_id, source_query, target_query);
            &&& asked.len() == 3
            &&& asks_for_symbol(asked, 0, source_query)
            &&& asks_for_symbol(asked, 1, target_query)
            &&& asks(asked, 0, "files.repository_id = "@, repository_id)
            &&& asks(asked, 1, "files.repository_id = "@, repository_id)
            &&& asks(asked, 2, "caller_file.repository_id = "@, repository_id)
        }),
        ({
            let asked = transitive_call_paths_to_queries(repository_id, target_query);
            &&& asked.len() == 3
            &&& asks_for_symbol(asked, 0, target_query)
            &&& asks(asked, 0, "files.repository_id = "@, repository_id)
            &&& asks(asked, 1, "files.repository_id = "@, repository_id)
            &&& asked[1] matches CommandView::Query(q) && says(q.sql, "LIMIT 500"@)
            &&& asks(asked, 2, "caller_file.repository_id = "@, repository_id)
        }),
        ({
            let asked = transitive_call_paths_from_queries(repository_id, source_query);
            &&& asked.len() == 2
            &&& asks_for_symbol(asked, 0, source_query)
            &&& asks(asked, 0, "files.repository_id = "@, repository_id)
            &&& asks(asked, 1, "caller_file.repository_id = "@, repository_id)
        }),
{
    law_resolve_symbol_refs_says(repository_id, source_query);
    law_resolve_symbol_refs_says(repository_id, target_query);
    law_all_symbol_refs_says(repository_id);
    law_call_path_edges_says(repository_id);
}

/// A search for paths of a ref asks the same as one of the repository, for what the ref holds.
pub proof fn law_path_searches_of_a_ref_ask_for_both_ends(
    repository_id: Seq<char>,
    repository_ref_id: Seq<char>,
    source_query: Seq<char>,
    target_query: Seq<char>,
)
    ensures
        ({
            let asked = call_paths_for_ref_queries(
                repository_id,
                repository_ref_id,
                source_query,
                target_query,
            );
            &&& asked.len() == 3
            &&& asks_for_symbol(asked, 0, source_query)
            &&& asks_for_symbol(asked, 1, target_query)
            &&& asks(asked, 0, "files.repository_id = "@, repository_id)
            &&& asks(asked, 0, "ref_files.repository_ref_id = "@, repository_ref_id)
            &&& asks(asked, 1, "files.repository_id = "@, repository_id)
            &&& asks(asked, 1, "ref_files.repository_ref_id = "@, repository_ref_id)
            &&& asks(asked, 2, "caller_file.repository_id = "@, repository_id)
            &&& asks(asked, 2, "caller_ref.repository_ref_id = "@, repository_ref_id)
        }),
        ({
            let asked = transitive_call_paths_to_for_ref_queries(
                repository_id,
                repository_ref_id,
                target_query,
            );
            &&& asked.len() == 3
            &&& asks_for_symbol(asked, 0, target_query)
            &&& asks(asked, 0, "files.repository_id = "@, repository_id)
            &&& asks(asked, 0, "ref_files.repository_ref_id = "@, repository_ref_id)
            &&& asks(asked, 1, "files.repository_id = "@, repository_id)
            &&& asks(asked, 1, "ref_files.repository_ref_id = "@, repository_ref_id)
            &&& asked[1] matches CommandView::Query(q) && says(q.sql, "LIMIT 500"@)
            &&& asks(asked, 2, "caller_file.repository_id = "@, repository_id)
            &&& asks(asked, 2, "caller_ref.repository_ref_id = "@, repository_ref_id)
        }),
        ({
            let asked = transitive_call_paths_from_for_ref_queries(
                repository_id,
                repository_ref_id,
                source_query,
            );
            &&& asked.len() == 2
            &&& asks_for_symbol(asked, 0, source_query)
            &&& asks(asked, 0, "files.repository_id = "@, repository_id)
            &&& asks(asked, 0, "ref_files.repository_ref_id = "@, repository_ref_id)
            &&& asks(asked, 1, "caller_file.repository_id = "@, repository_id)
            &&& asks(asked, 1, "caller_ref.repository_ref_id = "@, repository_ref_id)
        }),
{
    law_resolve_symbol_refs_for_ref_says(repository_id, repository_ref_id, source_query);
    law_resolve_symbol_refs_for_ref_says(repository_id, repository_ref_id, target_query);
    law_all_symbol_refs_for_ref_says(repository_id, repository_ref_id);
    law_call_path_edges_for_ref_says(repository_id, repository_ref_id);
}

/// The progress of a generation is asked for in three questions: how many chunks it could embed,
/// how many of them the quality layer holds, and its jobs by state.
pub proof fn law_progress_is_asked_for(repository_id: Seq<char>, generation_id: Seq<char>)
    ensures
        ({
            let asked = progress_queries(repository_id, generation_id);
            &&& asked.len() == 3
            &&& asks(asked, 0, "repository_id = "@, repository_id)
            &&& asks(asked, 0, "id = "@, generation_id)
            &&& asks(asked, 1, "quality.repository_id = "@, repository_id)
            &&& asks(asked, 1, "quality.generation_id = "@, generation_id)
            &&& asks(asked, 2, "jobs.repository_id = "@, repository_id)
            &&& asks(asked, 2, "jobs.generation_id = "@, generation_id)
            &&& asked[2] matches CommandView::Query(q) && says(q.sql, "GROUP BY jobs.status"@)
        }),
{
    law_embeddable_chunks_says(repository_id, generation_id);
    law_current_quality_embeddings_says(repository_id, generation_id);
    law_quality_job_counts_says(repository_id, generation_id);
}

/// Jobs are counted under their own state, and a state without a row has none.
pub proof fn law_tallies_count_every_state(
    c: QualityJobStatusCounts,
    counts: Seq<StatusCount>,
    i: int,
)
    requires
        is_tally(c, counts),
        forall|j: int, k: int|
            0 <= j < k < counts.len() ==> (#[trigger] counts[j]).status@ != (
            #[trigger] counts[k]).status@,
        0 <= i < counts.len(),
    ensures
        counts[i].status@ == "pending"@ ==> c.pending_jobs == counts[i].jobs as usize,
        counts[i].status@ == "running"@ ==> c.running_jobs == counts[i].jobs as usize,
        counts[i].status@ == "succeeded"@ ==> c.succeeded_jobs == counts[i].jobs as usize,
        counts[i].status@ == "failed"@ ==> c.failed_jobs == counts[i].jobs as usize,
        counts[i].status@ == "skipped_stale"@ ==> c.skipped_stale_jobs == counts[i].jobs as usize,
        counts[i].status@ == "skipped_excluded"@ ==> c.skipped_excluded_jobs
            == counts[i].jobs as usize,
{
    law_jobs_are_counted_by_state(counts, "pending"@, i);
    law_jobs_are_counted_by_state(counts, "running"@, i);
    law_jobs_are_counted_by_state(counts, "succeeded"@, i);
    law_jobs_are_counted_by_state(counts, "failed"@, i);
    law_jobs_are_counted_by_state(counts, "skipped_stale"@, i);
    law_jobs_are_counted_by_state(counts, "skipped_excluded"@, i);
}

/// A step marks the open jobs of every other generation of the repository as stale.
pub open spec fn supersedes(step: CommandView, g: SemanticGenerationRecord, at: Seq<char>) -> bool {
    step matches CommandView::Execute(s) && says(s.sql, "status = 'skipped_stale'"@) && says(
        s.sql,
        "status IN ('pending', 'running')"@,
    ) && binds(s, "repository_id = "@, text(g.repository_id@)) && binds(
        s,
        "generation_id != "@,
        text(g.id@),
    ) && binds(s, "updated_at = "@, text(at))
}

/// A queue marks the jobs of other generations as stale, stores every job, and stores the
/// generation as pending. Where the model is blocked, it stores no job, and the generation as
/// blocked.
pub proof fn law_queues_store_every_job(
    g: SemanticGenerationRecord,
    model: Seq<char>,
    jobs: Seq<QualityEmbeddingJobRecord>,
    at: Seq<char>,
    i: int,
)
    ensures
        ({
            let steps = queue_script(g, model, jobs, at);
            let n = jobs.len() as int;
            &&& steps.len() == n + 4
            &&& supersedes(steps[1], g, at)
            &&& 0 <= i < n ==> steps[2 + i] == CommandView::Execute(upsert_job_spec(jobs[i]))
            &&& steps[2 + n] matches CommandView::Execute(s) && s.params == restarted_values(
                g,
                model,
                SemanticLayerStatus::QualityPending,
                at,
            )
            &&& block_script(g, model, at).len() == 4
            &&& supersedes(block_script(g, model, at)[1], g, at)
            &&& block_script(g, model, at)[2] matches CommandView::Execute(s) && s.params
                == restarted_values(g, model, SemanticLayerStatus::QualityBlocked, at)
        }),
{
    law_mark_superseded_quality_jobs_stale_says(g.repository_id@, g.id@, at);
}

/// A queue is summed up with the repository, the generation and the model that it is for.
pub proof fn law_queues_tell_their_generation(
    summary: QualityQueueSummary,
    generation: SemanticGenerationRecord,
    model: Seq<char>,
    status: SemanticLayerStatus,
    queued: nat,
    carried: QualityCarryForwardSummary,
    repository_id: Seq<char>,
    generation_id: Seq<char>,
    rows: Seq<CarriedRow>,
)
    requires
        sums_up(summary, generation, model, status, queued),
        is_carried(carried, repository_id, generation_id, model, rows),
    ensures
        summary.repository_id@ == generation.repository_id@,
        summary.generation_id@ == generation.id@,
        summary.quality_model@ == model,
        summary.quality_status == status,
        summary.queued_jobs == queued,
        carried.repository_id@ == repository_id,
        carried.generation_id@ == generation_id,
        carried.quality_model@ == model,
        carried.carried_embeddings == rows.len(),
        carried.quality_dimension matches Some(dimension) ==> forall|i: int|
            0 <= i < rows.len() ==> (#[trigger] rows[i]).embedding_dimension == dimension,
{
}

/// A job that succeeded stores its embedding before it is marked, within one transaction; any other
/// job is only marked. Without a row for its vector nothing is done.
pub proof fn law_ended_jobs_store_their_embedding(
    r: Result<Vec<Command>, StoreError>,
    job_id: Seq<char>,
    completion: QualityJobCompletion,
    at: Seq<char>,
    digest: Seq<char>,
)
    requires
        job_ended(r, job_id, completion, at, digest),
    ensures
        r is Err <==> (completion matches QualityJobCompletion::Succeeded { embedding } && rowid_of(
            embedding.vector_point_id@,
            digest,
        ) is None),
        r matches Ok(commands) ==> ({
            let steps = script(commands@);
            let n = steps.len() as int;
            &&& n == if completion is Succeeded {
                4int
            } else {
                3
            }
            &&& steps[0] == CommandView::Begin
            &&& steps[n - 2] == CommandView::Execute(ended_spec(job_id, completion, at))
            &&& steps[n - 1] == CommandView::Commit
            &&& completion matches QualityJobCompletion::Succeeded { embedding } ==> steps[1]
                == CommandView::Execute(
                upsert_embedding_spec(
                    *embedding,
                    rowid_of(embedding.vector_point_id@, digest)->Some_0 as i64,
                ),
            )
        }),
{
}

/// Every pending job is claimed and read back, in the order of the jobs.
pub proof fn law_every_job_is_claimed(ids: Seq<Seq<char>>, at: Seq<char>, i: int)
    requires
        0 <= i < ids.len(),
    ensures
        claims(ids, at).len() == 2 * ids.len(),
        claims(ids, at)[2 * i] matches CommandView::Execute(s) && says(
            s.sql,
            "status = 'running'"@,
        ) && says(s.sql, "status = 'pending'"@) && binds(s, "id = "@, text(ids[i])) && binds(
            s,
            "updated_at = "@,
            text(at),
        ),
        asks(claims(ids, at), 2 * i + 1, "id = "@, ids[i]),
    decreases ids.len(),
{
    let front = ids.drop_last();
    lemma_claims(ids, at);
    lemma_claims(front, at);
    if i < front.len() {
        law_every_job_is_claimed(front, at, i);
        assert(front[i] == ids[i]);
        assert(claims(ids, at)[2 * i] == claims(front, at)[2 * i]);
        assert(claims(ids, at)[2 * i + 1] == claims(front, at)[2 * i + 1]);
    } else {
        law_claim_quality_job_says(ids[i], at);
        law_quality_job_says(ids[i]);
    }
}

proof fn lemma_claims(ids: Seq<Seq<char>>, at: Seq<char>)
    ensures
        claims(ids, at).len() == 2 * ids.len(),
    decreases ids.len(),
{
    if ids.len() > 0 {
        lemma_claims(ids.drop_last(), at);
    }
}

/// A fast generation is stored with the number of its chunks, followed by every one of them at the
/// row of its vector.
pub proof fn law_fast_generations_store_every_chunk(
    input: FastSemanticGenerationInput<'_>,
    generation_id: Seq<char>,
    manifest: Seq<FastEmbeddingManifestRecord>,
    ids: Seq<Seq<char>>,
    digests: Seq<Seq<char>>,
    i: int,
)
    requires
        manifest.len() <= usize::MAX,
    ensures
        ({
            let steps = store_script(input, generation_id, manifest, ids, digests);
            let n = manifest.len() as int;
            &&& steps.len() == n + 3
            &&& steps[0] matches CommandView::Execute(s) && s.params == fast_generation_values(
                input,
                generation_id,
                n as usize,
            )
            &&& 0 <= i < n ==> (steps[1 + i] matches CommandView::Execute(s) && s.params
                == fast_embedding_values(
                input,
                generation_id,
                ids[i],
                manifest[i],
                rowid_of(manifest[i].vector_point_id@, digests[i])->Some_0,
            ))
            &&& steps[n + 1] == CommandView::Commit
        }),
{
}

/// Every embedding that is carried over is stored at the row of its vector.
pub proof fn law_every_carried_embedding_is_stored(
    repository_id: Seq<char>,
    generation_id: Seq<char>,
    model: Seq<char>,
    rows: Seq<CarriedRow>,
    ids: Seq<Seq<char>>,
    digests: Seq<Seq<char>>,
    i: int,
)
    requires
        0 <= i < rows.len(),
    ensures
        ({
            let steps = carried_stored(repository_id, generation_id, model, rows, ids, digests);
            &&& steps.len() == rows.len()
            &&& steps[i] matches CommandView::Execute(s) && s.params == carried_values(
                repository_id,
                generation_id,
                model,
                rows[i],
                ids[i],
                rowid_of(rows[i].vector_point_id@, digests[i])->Some_0,
            )
        }),
{
}

/// The current embeddings are those of the model and the dimension, of the ref where one is given.
pub proof fn law_current_embeddings_are_those_of_the_model(input: FastSemanticGenerationInput<'_>)
    ensures
        ({
            let s = current_fast_embeddings(input);
            &&& binds(s, "chunk_embeddings.repository_id = "@, text(input.repository_id@))
            &&& binds(s, "chunk_embeddings.embedding_model = "@, text(input.fast_model@))
            &&& binds(s, "chunk_embeddings.embedding_dimension = "@, count(input.fast_dimension))
            &&& says(s.sql, "chunk_embeddings.status = 'current'"@)
            &&& input.repository_ref_id matches Some(ref_id) ==> binds(
                s,
                "ref_files.repository_ref_id = "@,
                text(ref_id@),
            )
        }),
{
    law_fast_embeddings_says(input.repository_id@, input.fast_model@, input.fast_dimension);
    if let Some(ref_id) = input.repository_ref_id {
        law_fast_embeddings_for_ref_says(
            input.repository_id@,
            input.fast_model@,
            input.fast_dimension,
            ref_id@,
        );
    }
}

/// The points of the files at every path are asked for, in the layer of the latest generation.
/// Without a generation there are none.
pub proof fn law_points_are_asked_for_at_every_path(
    repository_id: Seq<char>,
    generation: SemanticGenerationRecord,
    layer: SemanticLayer,
    paths: Seq<Seq<char>>,
    i: int,
)
    requires
        0 <= i < paths.len(),
    ensures
        point_queries(repository_id, None, layer, paths).len() == 0,
        point_queries(repository_id, Some(generation), layer, paths).len() == paths.len(),
        ({
            let s = point_queries(repository_id, Some(generation), layer, paths)[i];
            &&& binds(s, "files.repository_id = "@, text(repository_id))
            &&& binds(s, "files.path = "@, text(paths[i]))
            &&& binds(s, "chunk_embeddings.generation_id = "@, text(generation.id@))
            &&& binds(s, "chunk_embeddings.semantic_layer = "@, text(layer.text()))
        }),
{
    law_vector_point_ids_at_path_says(repository_id, paths[i], generation.id@, layer);
}

/// A layer without embeddings is that of its model in the table of the model, holds no chunk, and
/// is complete exactly when none is expected.
pub proof fn law_empty_layers_hold_nothing(
    s: SemanticLayerManifestSummary,
    rows: Seq<Row>,
    repository_id: Seq<char>,
    layer: SemanticLayer,
    expected: usize,
    model: Seq<char>,
    dimension: usize,
)
    requires
        is_layer_summary(s, rows, repository_id, layer, expected, model, dimension),
        rows.len() == 0,
    ensures
        s.semantic_layer == layer,
        s.embedding_model@ == model,
        s.embedding_dimension == dimension,
        s.vector_table@ == table_name_of(repository_id, model),
        s.expected_chunks == expected,
        s.current_chunks + s.stale_chunks + s.blocked_chunks + s.failed_chunks + s.other_chunks == 0,
        s.total_chunks == 0,
        s.is_complete <==> expected == 0,
{
}

} // verus!
