//! Operations that change several rows change all of them or none: the commands of each are one
//! transaction.

use vstd::prelude::*;
use crate::facts::{
    drop_file_script, drop_files_script, finish_replace_script, in_transaction, ref_file_deletes,
    ref_questions, removal_end, removal_start, replace_script, unreferenced, FileFacts,
};
use crate::layers::RepositoryRefSnapshot;
use crate::quality::{claims, pending_quality_jobs_spec};
use crate::records::{FileIndexEventRecord, FileRecord};
use crate::repository::{events_script, finish_sync_script, sync_script};
use crate::rows::BranchRow;
use crate::sql::{closes_at, is_boundary, is_transaction, CommandView};

verus! {

/// A sync of refs is one transaction.
pub proof fn law_syncs_are_stored_whole(
    snapshot: RepositoryRefSnapshot,
    branch_ids: Seq<String>,
    gone: Seq<BranchRow>,
    now: Seq<char>,
)
    ensures
        is_transaction(sync_script(snapshot, branch_ids, now) + finish_sync_script(gone, now)),
{
    let steps = sync_script(snapshot, branch_ids, now) + finish_sync_script(gone, now);
    assert(closes_at(steps, steps.len() - 1));
}

/// The events of an index run are recorded in one transaction; without events there is none.
pub proof fn law_events_are_stored_whole(
    events: Seq<FileIndexEventRecord>,
    occurred_at: Seq<char>,
)
    ensures
        events.len() == 0 ==> events_script(events, occurred_at).len() == 0,
        events.len() > 0 ==> is_transaction(events_script(events, occurred_at)),
{
    let steps = events_script(events, occurred_at);
    if events.len() > 0 {
        assert(closes_at(steps, steps.len() - 1));
    }
}

/// Paths are taken out of a ref in one transaction; without paths there is none.
pub proof fn law_ref_removals_are_whole(repository_ref_id: Seq<char>, missing: Seq<Seq<char>>)
    ensures
        ({
            let steps = in_transaction(ref_file_deletes(repository_ref_id, missing));
            if missing.len() == 0 {
                steps.len() == 0
            } else {
                is_transaction(steps)
            }
        }),
{
    let steps = in_transaction(ref_file_deletes(repository_ref_id, missing));
    if missing.len() > 0 {
        assert(closes_at(steps, steps.len() - 1));
    }
}

/// Deleting files neither opens nor closes a transaction.
proof fn lemma_drops_stay_inside(file_ids: Seq<Seq<char>>)
    ensures
        forall|i: int|
            0 <= i < drop_files_script(file_ids).len() ==> !is_boundary(
                #[trigger] drop_files_script(file_ids)[i],
            ),
    decreases file_ids.len(),
{
    if file_ids.len() > 0 {
        lemma_drops_stay_inside(file_ids.drop_last());
        let before = drop_files_script(file_ids.drop_last());
        let last = drop_file_script(file_ids.last());
        assert forall|i: int| 0 <= i < drop_files_script(file_ids).len() implies !is_boundary(
            #[trigger] drop_files_script(file_ids)[i],
        ) by {
            if i < before.len() {
                assert(drop_files_script(file_ids)[i] == before[i]);
            } else {
                assert(drop_files_script(file_ids)[i] == last[i - before.len()]);
            }
        }
    }
}

/// The facts of a file are replaced in one transaction, whatever the times at which it starts and
/// ends, and whether the refs that hold the other files at its path are counted or not.
pub proof fn law_replacements_are_whole(
    repository_ref_id: Option<Seq<char>>,
    file: FileRecord,
    others: Seq<Seq<char>>,
    dropped: Seq<Seq<char>>,
    facts: FileFacts<'_>,
    started_at: Seq<char>,
    finished_at: Seq<char>,
)
    ensures
        is_transaction(
            replace_script(repository_ref_id, file, started_at) + finish_replace_script(
                dropped,
                facts,
                finished_at,
            ),
        ),
        is_transaction(
            replace_script(repository_ref_id, file, started_at) + ref_questions(others)
                + finish_replace_script(dropped, facts, finished_at),
        ),
{
    let first = replace_script(repository_ref_id, file, started_at);
    let last = finish_replace_script(dropped, facts, finished_at);
    lemma_drops_stay_inside(dropped);
    let steps = first + last;
    assert(closes_at(steps, steps.len() - 1));
    let counted = first + ref_questions(others) + last;
    assert(closes_at(counted, counted.len() - 1));
}

/// The files at missing paths are found and deleted in one transaction; where no path is missing
/// there is none.
pub proof fn law_removals_are_whole(
    repository_id: Seq<char>,
    missing: Seq<Seq<char>>,
    file_ids: Seq<Seq<char>>,
)
    ensures
        ({
            let steps = removal_start(repository_id, missing) + removal_end(missing, file_ids);
            if missing.len() == 0 {
                steps.len() == 0
            } else {
                is_transaction(steps)
            }
        }),
{
    let steps = removal_start(repository_id, missing) + removal_end(missing, file_ids);
    if missing.len() > 0 {
        lemma_drops_stay_inside(file_ids);
        assert(closes_at(steps, steps.len() - 1));
    }
}

/// The files at missing paths that no ref holds are found and deleted in one transaction.
pub proof fn law_unreferenced_removals_are_whole(
    repository_id: Seq<char>,
    missing: Seq<Seq<char>>,
    file_ids: Seq<Seq<char>>,
    ref_counts: Seq<i64>,
)
    requires
        missing.len() > 0,
    ensures
        is_transaction(
            removal_start(repository_id, missing) + ref_questions(file_ids) + removal_end(
                missing,
                unreferenced(file_ids, ref_counts),
            ),
        ),
{
    let dropped = unreferenced(file_ids, ref_counts);
    let steps = removal_start(repository_id, missing) + ref_questions(file_ids) + removal_end(
        missing,
        dropped,
    );
    lemma_drops_stay_inside(dropped);
    assert(closes_at(steps, steps.len() - 1));
}

/// Claiming jobs neither opens nor closes a transaction.
proof fn lemma_claims_stay_inside(ids: Seq<Seq<char>>, claimed_at: Seq<char>)
    ensures
        forall|i: int|
            0 <= i < claims(ids, claimed_at).len() ==> !is_boundary(
                #[trigger] claims(ids, claimed_at)[i],
            ),
    decreases ids.len(),
{
    if ids.len() > 0 {
        lemma_claims_stay_inside(ids.drop_last(), claimed_at);
        let before = claims(ids.drop_last(), claimed_at);
        assert forall|i: int| 0 <= i < claims(ids, claimed_at).len() implies !is_boundary(
            #[trigger] claims(ids, claimed_at)[i],
        ) by {
            if i < before.len() {
                assert(claims(ids, claimed_at)[i] == before[i]);
            }
        }
    }
}

/// Pending jobs are found and claimed in one transaction.
pub proof fn law_claims_are_whole(
    repository_id: Seq<char>,
    generation_id: Seq<char>,
    limit: usize,
    ids: Seq<Seq<char>>,
    claimed_at: Seq<char>,
)
    ensures
        is_transaction(
            seq![
                CommandView::Begin,
                CommandView::Query(pending_quality_jobs_spec(repository_id, generation_id, limit)),
            ] + claims(ids, claimed_at) + seq![CommandView::Commit],
        ),
{
    let steps = seq![
        CommandView::Begin,
        CommandView::Query(pending_quality_jobs_spec(repository_id, generation_id, limit)),
    ] + claims(ids, claimed_at) + seq![CommandView::Commit];
    lemma_claims_stay_inside(ids, claimed_at);
    assert(closes_at(steps, steps.len() - 1));
}

} // verus!
