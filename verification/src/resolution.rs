//! Calls grouped by how they were resolved and how sure that is.

use vstd::prelude::*;
use crate::coverage::bucket_rank;
use crate::error::{is_fault, StoreError};
use crate::records::{
    CallResolutionBucket, CallResolutionEdgeRow, CallResolutionSummary, ConfidenceBucket,
};
use crate::sql::{all_of, collect_rows, rows_fault, Row};
use crate::store::SqliteStore;
use crate::text::{
    lemma_precedes_asymmetric, lemma_precedes_transitive, precedes, relate, Relation,
};

verus! {

fn rank_of(bucket: ConfidenceBucket) -> (r: u8)
    ensures
        r == bucket_rank(bucket),
{
    match bucket {
        ConfidenceBucket::High => 0,
        ConfidenceBucket::Medium => 1,
        ConfidenceBucket::Low => 2,
    }
}

/// The order of the groups: by status, and for one status from high to low confidence.
pub open spec fn group_precedes(
    status: Seq<char>,
    bucket: ConfidenceBucket,
    other_status: Seq<char>,
    other_bucket: ConfidenceBucket,
) -> bool {
    precedes(status, other_status) || status == other_status && bucket_rank(bucket) < bucket_rank(
        other_bucket,
    )
}

/// Whether a call belongs to a group.
pub open spec fn in_group(
    row: CallResolutionEdgeRow,
    status: Seq<char>,
    bucket: ConfidenceBucket,
) -> bool {
    row.resolution_status@ == status && row.confidence_bucket == bucket
}

/// The calls of a group, in the order in which they come.
pub open spec fn group_of(
    rows: Seq<CallResolutionEdgeRow>,
    status: Seq<char>,
    bucket: ConfidenceBucket,
) -> Seq<CallResolutionEdgeRow>
    decreases rows.len(),
{
    if rows.len() == 0 {
        Seq::empty()
    } else {
        let front = group_of(rows.drop_last(), status, bucket);
        if in_group(rows.last(), status, bucket) {
            front.push(rows.last())
        } else {
            front
        }
    }
}

/// One group stands before another.
pub open spec fn before(a: CallResolutionBucket, b: CallResolutionBucket) -> bool {
    group_precedes(
        a.resolution_status@,
        a.confidence_bucket,
        b.resolution_status@,
        b.confidence_bucket,
    )
}

/// `group` is one of the groups of the calls: it holds all calls of its kind, and at least one.
pub open spec fn is_group(group: CallResolutionBucket, rows: Seq<CallResolutionEdgeRow>) -> bool {
    &&& group.rows@ == group_of(rows, group.resolution_status@, group.confidence_bucket)
    &&& group.rows@.len() > 0
    &&& group.call_count == group.rows@.len()
}

/// Some group of the list holds the calls of the given kind.
pub open spec fn has_group(
    groups: Seq<CallResolutionBucket>,
    status: Seq<char>,
    bucket: ConfidenceBucket,
) -> bool {
    exists|i: int|
        0 <= i < groups.len() && (#[trigger] groups[i]).resolution_status@ == status
            && groups[i].confidence_bucket == bucket
}

/// `groups` are the groups of the calls, each once and in order.
pub open spec fn is_grouping(
    groups: Seq<CallResolutionBucket>,
    rows: Seq<CallResolutionEdgeRow>,
) -> bool {
    &&& forall|i: int, j: int|
        0 <= i < j < groups.len() ==> before(#[trigger] groups[i], #[trigger] groups[j])
    &&& forall|i: int| 0 <= i < groups.len() ==> is_group(#[trigger] groups[i], rows)
    &&& forall|i: int|
        0 <= i < rows.len() ==> has_group(
            groups,
            (#[trigger] rows[i]).resolution_status@,
            rows[i].confidence_bucket,
        )
}

proof fn lemma_before_transitive(
    a: CallResolutionBucket,
    b: CallResolutionBucket,
    c: CallResolutionBucket,
)
    requires
        before(a, b),
        before(b, c),
    ensures
        before(a, c),
{
    if precedes(a.resolution_status@, b.resolution_status@) && precedes(
        b.resolution_status@,
        c.resolution_status@,
    ) {
        lemma_precedes_transitive(
            a.resolution_status@,
            b.resolution_status@,
            c.resolution_status@,
        );
    }
}

/// Two groups of which one stands before the other hold calls of different kinds.
proof fn lemma_before_differs(a: CallResolutionBucket, b: CallResolutionBucket)
    requires
        before(a, b),
    ensures
        a.resolution_status@ != b.resolution_status@ || a.confidence_bucket != b.confidence_bucket,
{
    if precedes(a.resolution_status@, b.resolution_status@) {
        lemma_precedes_asymmetric(a.resolution_status@, b.resolution_status@);
    }
}

fn place(
    group: &CallResolutionBucket,
    row: &CallResolutionEdgeRow,
) -> (r: Relation)
    ensures
        r is Before <==> group_precedes(
            group.resolution_status@,
            group.confidence_bucket,
            row.resolution_status@,
            row.confidence_bucket,
        ),
        r is Same <==> group.resolution_status@ == row.resolution_status@
            && group.confidence_bucket == row.confidence_bucket,
        r is After ==> group_precedes(
            row.resolution_status@,
            row.confidence_bucket,
            group.resolution_status@,
            group.confidence_bucket,
        ),
{
    match relate(group.resolution_status.as_str(), row.resolution_status.as_str()) {
        Relation::Before => {
            proof {
                lemma_precedes_asymmetric(group.resolution_status@, row.resolution_status@);
            }
            Relation::Before
        },
        Relation::After => {
            proof {
                lemma_precedes_asymmetric(row.resolution_status@, group.resolution_status@);
            }
            Relation::After
        },
        Relation::Same => {
            let left = rank_of(group.confidence_bucket);
            let right = rank_of(row.confidence_bucket);
            if left < right {
                Relation::Before
            } else if left == right {
                Relation::Same
            } else {
                Relation::After
            }
        },
    }
}

/// Puts a call into its group, which is made where there is none yet.
fn put_call(
    groups: &mut Vec<CallResolutionBucket>,
    row: CallResolutionEdgeRow,
    Ghost(seen): Ghost<Seq<CallResolutionEdgeRow>>,
)
    requires
        is_grouping(old(groups)@, seen),
        seen.len() < usize::MAX,
    ensures
        is_grouping(final(groups)@, seen.push(row)),
{
    let ghost earlier = groups@;
    let ghost now_seen = seen.push(row);
    let ghost status = row.resolution_status@;
    let ghost level = row.confidence_bucket;
    proof {
        assert(now_seen.drop_last() =~= seen);
    }
    let mut at: usize = 0;
    while at < groups.len()
        invariant
            at <= groups.len(),
            groups@ == earlier,
            earlier == old(groups)@,
            is_grouping(earlier, seen),
            seen.len() < usize::MAX,
            status == row.resolution_status@,
            level == row.confidence_bucket,
            now_seen == seen.push(row),
            now_seen.drop_last() == seen,
            forall|k: int|
                0 <= k < at ==> group_precedes(
                    (#[trigger] earlier[k]).resolution_status@,
                    earlier[k].confidence_bucket,
                    status,
                    level,
                ),
        ensures
            at == groups.len() || group_precedes(
                status,
                level,
                earlier[at as int].resolution_status@,
                earlier[at as int].confidence_bucket,
            ),
        decreases groups.len() - at,
    {
        match place(&groups[at], &row) {
            Relation::Before => {
                at = at + 1;
            },
            Relation::Same => {
                let ghost gap = at as int;
                let mut group = groups.remove(at);
                proof {
                    lemma_group_is_part(seen, status, level);
                    assert(group == earlier[gap]);
                    assert(is_group(earlier[gap], seen));
                }
                group.rows.push(row);
                group.call_count = group.call_count + 1;
                let ghost filled = group;
                groups.insert(at, group);
                proof {
                    let now = groups@;
                    assert(now =~= earlier.update(gap, filled));
                    lemma_filled(earlier, now, seen, row, gap);
                }
                return ;
            },
            Relation::After => {
                break ;
            },
        }
    }
    let ghost gap = at as int;
    let resolution_status = row.resolution_status.clone();
    let confidence_bucket = row.confidence_bucket;
    let mut rows: Vec<CallResolutionEdgeRow> = Vec::new();
    rows.push(row);
    let group = CallResolutionBucket {
        resolution_status,
        confidence_bucket,
        call_count: 1,
        rows,
    };
    let ghost made = group;
    groups.insert(at, group);
    proof {
        assert(groups@ =~= earlier.insert(gap, made));
        lemma_made(earlier, groups@, seen, row, gap, made);
    }
}

/// A group has at most as many calls as there are.
proof fn lemma_group_is_part(
    rows: Seq<CallResolutionEdgeRow>,
    status: Seq<char>,
    bucket: ConfidenceBucket,
)
    ensures
        group_of(rows, status, bucket).len() <= rows.len(),
    decreases rows.len(),
{
    if rows.len() > 0 {
        lemma_group_is_part(rows.drop_last(), status, bucket);
    }
}

/// A group that is not empty is the group of some call.
proof fn lemma_group_has_source(
    rows: Seq<CallResolutionEdgeRow>,
    status: Seq<char>,
    bucket: ConfidenceBucket,
)
    requires
        group_of(rows, status, bucket).len() > 0,
    ensures
        exists|i: int| 0 <= i < rows.len() && in_group(#[trigger] rows[i], status, bucket),
    decreases rows.len(),
{
    if in_group(rows.last(), status, bucket) {
        assert(in_group(rows[rows.len() - 1], status, bucket));
    } else {
        lemma_group_has_source(rows.drop_last(), status, bucket);
        let i = choose|i: int|
            0 <= i < rows.drop_last().len() && in_group(
                #[trigger] rows.drop_last()[i],
                status,
                bucket,
            );
        assert(in_group(rows[i], status, bucket));
    }
}

proof fn lemma_filled(
    earlier: Seq<CallResolutionBucket>,
    now: Seq<CallResolutionBucket>,
    seen: Seq<CallResolutionEdgeRow>,
    row: CallResolutionEdgeRow,
    gap: int,
)
    requires
        is_grouping(earlier, seen),
        0 <= gap < earlier.len(),
        now.len() == earlier.len(),
        forall|i: int| 0 <= i < now.len() && i != gap ==> #[trigger] now[i] == earlier[i],
        now[gap].resolution_status == earlier[gap].resolution_status,
        now[gap].confidence_bucket == earlier[gap].confidence_bucket,
        now[gap].rows@ == earlier[gap].rows@.push(row),
        now[gap].call_count == earlier[gap].call_count + 1,
        in_group(row, earlier[gap].resolution_status@, earlier[gap].confidence_bucket),
    ensures
        is_grouping(now, seen.push(row)),
{
    let now_seen = seen.push(row);
    assert(now_seen.drop_last() =~= seen);
    assert forall|i: int, j: int| 0 <= i < j < now.len() implies before(
        #[trigger] now[i],
        #[trigger] now[j],
    ) by {
        assert(before(earlier[i], earlier[j]));
    }
    assert forall|i: int| 0 <= i < now.len() implies is_group(#[trigger] now[i], now_seen) by {
        assert(is_group(earlier[i], seen));
        if i < gap {
            assert(before(earlier[i], earlier[gap]));
            lemma_before_differs(earlier[i], earlier[gap]);
        } else if i > gap {
            assert(before(earlier[gap], earlier[i]));
            lemma_before_differs(earlier[gap], earlier[i]);
        }
    }
    assert forall|i: int| 0 <= i < now_seen.len() implies has_group(
        now,
        (#[trigger] now_seen[i]).resolution_status@,
        now_seen[i].confidence_bucket,
    ) by {
        if i < seen.len() {
            assert(now_seen[i] == seen[i]);
            let status = seen[i].resolution_status@;
            let bucket = seen[i].confidence_bucket;
            assert(has_group(earlier, status, bucket));
            let k = choose|k: int|
                0 <= k < earlier.len() && (#[trigger] earlier[k]).resolution_status@ == status
                    && earlier[k].confidence_bucket == bucket;
            assert(now[k].resolution_status@ == status);
        } else {
            assert(now[gap].resolution_status@ == row.resolution_status@);
        }
    }
}

proof fn lemma_made(
    earlier: Seq<CallResolutionBucket>,
    now: Seq<CallResolutionBucket>,
    seen: Seq<CallResolutionEdgeRow>,
    row: CallResolutionEdgeRow,
    gap: int,
    made: CallResolutionBucket,
)
    requires
        is_grouping(earlier, seen),
        0 <= gap <= earlier.len(),
        now == earlier.insert(gap, made),
        made.resolution_status@ == row.resolution_status@,
        made.confidence_bucket == row.confidence_bucket,
        made.call_count == 1,
        made.rows@ == seq![row],
        forall|k: int| 0 <= k < gap ==> before(#[trigger] earlier[k], made),
        gap == earlier.len() || before(made, earlier[gap]),
    ensures
        is_grouping(now, seen.push(row)),
{
    let now_seen = seen.push(row);
    assert(now_seen.drop_last() =~= seen);
    assert forall|k: int| gap <= k < earlier.len() implies before(made, #[trigger] earlier[k]) by {
        if k > gap {
            assert(before(earlier[gap], earlier[k]));
            lemma_before_transitive(made, earlier[gap], earlier[k]);
        }
    }
    assert forall|i: int, j: int| 0 <= i < j < now.len() implies before(
        #[trigger] now[i],
        #[trigger] now[j],
    ) by {
        if j == gap {
            assert(now[i] == earlier[i]);
        } else if i == gap {
            assert(now[j] == earlier[j - 1]);
        } else {
            let p = if i < gap { i } else { i - 1 };
            let q = if j < gap { j } else { j - 1 };
            assert(before(earlier[p], earlier[q]));
        }
    }
    let fresh = group_of(seen, row.resolution_status@, row.confidence_bucket);
    assert(fresh.len() == 0) by {
        if fresh.len() > 0 {
            lemma_group_has_source(seen, row.resolution_status@, row.confidence_bucket);
            let i = choose|i: int|
                0 <= i < seen.len() && in_group(
                    #[trigger] seen[i],
                    row.resolution_status@,
                    row.confidence_bucket,
                );
            assert(has_group(earlier, seen[i].resolution_status@, seen[i].confidence_bucket));
            let k = choose|k: int|
                0 <= k < earlier.len() && (#[trigger] earlier[k]).resolution_status@
                    == row.resolution_status@ && earlier[k].confidence_bucket
                    == row.confidence_bucket;
            if k < gap {
                lemma_before_differs(earlier[k], made);
            } else {
                lemma_before_differs(made, earlier[k]);
            }
        }
    }
    assert forall|i: int| 0 <= i < now.len() implies is_group(#[trigger] now[i], now_seen) by {
        if i == gap {
            assert(fresh.push(row) =~= seq![row]);
        } else {
            let p = if i < gap { i } else { i - 1 };
            assert(now[i] == earlier[p]);
            assert(is_group(earlier[p], seen));
            if p < gap {
                lemma_before_differs(earlier[p], made);
            } else {
                lemma_before_differs(made, earlier[p]);
            }
        }
    }
    assert forall|i: int| 0 <= i < now_seen.len() implies has_group(
        now,
        (#[trigger] now_seen[i]).resolution_status@,
        now_seen[i].confidence_bucket,
    ) by {
        if i < seen.len() {
            assert(now_seen[i] == seen[i]);
            let status = seen[i].resolution_status@;
            let bucket = seen[i].confidence_bucket;
            assert(has_group(earlier, status, bucket));
            let k = choose|k: int|
                0 <= k < earlier.len() && (#[trigger] earlier[k]).resolution_status@ == status
                    && earlier[k].confidence_bucket == bucket;
            let p = if k < gap { k } else { k + 1 };
            assert(now[p] == earlier[k]);
        } else {
            assert(now[gap] == made);
        }
    }
}

/// The calls in groups of one status and one level of confidence.
pub fn call_resolution_buckets(rows: Vec<CallResolutionEdgeRow>) -> (r: Vec<CallResolutionBucket>)
    ensures
        is_grouping(r@, rows@),
{
    let mut groups: Vec<CallResolutionBucket> = Vec::new();
    let ghost all = rows@;
    let total = rows.len();
    for row in it: rows
        invariant
            it.seq() == all,
            all.len() == total,
            is_grouping(groups@, all.take(it.index() as int)),
    {
        put_call(&mut groups, row, Ghost(all.take(it.index() as int)));
        proof {
            assert(all.take(it.index() + 1) =~= all.take(it.index() as int).push(row));
        }
    }
    proof {
        assert(all.take(all.len() as int) =~= all);
    }
    groups
}

impl SqliteStore {
    /// The calls of a repository by how they were resolved, from the rows that `call_resolution`
    /// asks for.
    pub fn call_resolution_summary(repository_id: &str, rows: &Vec<Row>) -> (r: Result<
        CallResolutionSummary,
        StoreError,
    >)
        ensures
            match rows_fault::<CallResolutionEdgeRow>(rows@) {
                Some(fault) => r matches Err(e) && is_fault(e, fault),
                None => r matches Ok(s) && s.repository_id@ == repository_id@ && is_grouping(
                    s.buckets@,
                    all_of::<CallResolutionEdgeRow>(rows@),
                ),
            },
    {
        match collect_rows(rows) {
            Ok(edges) => Ok(
                CallResolutionSummary {
                    repository_id: repository_id.to_owned(),
                    buckets: call_resolution_buckets(edges),
                },
            ),
            Err(error) => Err(error),
        }
    }
}

/// The number of calls in all groups together.
pub open spec fn calls_in(groups: Seq<CallResolutionBucket>) -> nat
    decreases groups.len(),
{
    if groups.len() == 0 {
        0
    } else {
        calls_in(groups.drop_last()) + groups.last().call_count as nat
    }
}

/// The number of calls of the kinds of the groups.
spec fn calls_of_kinds(
    groups: Seq<CallResolutionBucket>,
    rows: Seq<CallResolutionEdgeRow>,
) -> nat
    decreases groups.len(),
{
    if groups.len() == 0 {
        0
    } else {
        calls_of_kinds(groups.drop_last(), rows) + group_of(
            rows,
            groups.last().resolution_status@,
            groups.last().confidence_bucket,
        ).len()
    }
}

/// Every call is counted in exactly one group.
pub proof fn law_every_call_is_in_one_group(
    groups: Seq<CallResolutionBucket>,
    rows: Seq<CallResolutionEdgeRow>,
)
    requires
        is_grouping(groups, rows),
    ensures
        calls_in(groups) == rows.len(),
{
    lemma_all_kinds(groups, rows, rows.len() as int);
    assert(rows.take(rows.len() as int) =~= rows);
    lemma_counts_agree(groups, rows, groups.len() as int);
    assert(groups.take(groups.len() as int) =~= groups);
}

proof fn lemma_counts_agree(
    groups: Seq<CallResolutionBucket>,
    rows: Seq<CallResolutionEdgeRow>,
    n: int,
)
    requires
        is_grouping(groups, rows),
        0 <= n <= groups.len(),
    ensures
        calls_in(groups.take(n)) == calls_of_kinds(groups.take(n), rows),
    decreases n,
{
    if n > 0 {
        lemma_counts_agree(groups, rows, n - 1);
        assert(groups.take(n).drop_last() =~= groups.take(n - 1));
        assert(is_group(groups[n - 1], rows));
    }
}

proof fn lemma_all_kinds(
    groups: Seq<CallResolutionBucket>,
    rows: Seq<CallResolutionEdgeRow>,
    n: int,
)
    requires
        is_grouping(groups, rows),
        0 <= n <= rows.len(),
    ensures
        calls_of_kinds(groups, rows.take(n)) == n,
    decreases n,
{
    if n > 0 {
        lemma_all_kinds(groups, rows, n - 1);
        let row = rows[n - 1];
        assert(rows.take(n) =~= rows.take(n - 1).push(row));
        assert(has_group(groups, row.resolution_status@, row.confidence_bucket));
        lemma_kinds_step(groups, rows.take(n - 1), row);
    } else {
        lemma_no_calls(groups, rows.take(0));
    }
}

proof fn lemma_no_calls(groups: Seq<CallResolutionBucket>, rows: Seq<CallResolutionEdgeRow>)
    requires
        rows.len() == 0,
    ensures
        calls_of_kinds(groups, rows) == 0,
    decreases groups.len(),
{
    if groups.len() > 0 {
        lemma_no_calls(groups.drop_last(), rows);
    }
}

proof fn lemma_kinds_step(
    groups: Seq<CallResolutionBucket>,
    rows: Seq<CallResolutionEdgeRow>,
    row: CallResolutionEdgeRow,
)
    requires
        forall|i: int, j: int|
            0 <= i < j < groups.len() ==> before(#[trigger] groups[i], #[trigger] groups[j]),
    ensures
        calls_of_kinds(groups, rows.push(row)) == calls_of_kinds(groups, rows) + if has_group(
            groups,
            row.resolution_status@,
            row.confidence_bucket,
        ) {
            1nat
        } else {
            0
        },
    decreases groups.len(),
{
    if groups.len() > 0 {
        let last = groups.last();
        let rest = groups.drop_last();
        let status = row.resolution_status@;
        let bucket = row.confidence_bucket;
        assert forall|i: int, j: int| 0 <= i < j < rest.len() implies before(
            #[trigger] rest[i],
            #[trigger] rest[j],
        ) by {
            assert(before(groups[i], groups[j]));
        }
        lemma_kinds_step(rest, rows, row);
        assert(rows.push(row).drop_last() =~= rows);
        if in_group(row, last.resolution_status@, last.confidence_bucket) {
            assert(groups[groups.len() - 1].resolution_status@ == status);
            assert(!has_group(rest, status, bucket)) by {
                if has_group(rest, status, bucket) {
                    let i = choose|i: int|
                        0 <= i < rest.len() && (#[trigger] rest[i]).resolution_status@ == status
                            && rest[i].confidence_bucket == bucket;
                    assert(before(groups[i], groups[groups.len() - 1]));
                    lemma_before_differs(groups[i], last);
                }
            }
        } else {
            assert(has_group(groups, status, bucket) == has_group(rest, status, bucket)) by {
                if has_group(rest, status, bucket) {
                    let i = choose|i: int|
                        0 <= i < rest.len() && (#[trigger] rest[i]).resolution_status@ == status
                            && rest[i].confidence_bucket == bucket;
                    assert(groups[i].resolution_status@ == status);
                }
                if has_group(groups, status, bucket) {
                    let i = choose|i: int|
                        0 <= i < groups.len() && (#[trigger] groups[i]).resolution_status@ == status
                            && groups[i].confidence_bucket == bucket;
                    assert(rest[i].resolution_status@ == status);
                }
            }
        }
    }
}

/// The groups are determined by the calls: two groupings have the same kinds of calls at the same
/// places, with the same calls.
pub proof fn law_groupings_are_unique(
    a: Seq<CallResolutionBucket>,
    b: Seq<CallResolutionBucket>,
    rows: Seq<CallResolutionEdgeRow>,
)
    requires
        is_grouping(a, rows),
        is_grouping(b, rows),
    ensures
        a.len() == b.len(),
        forall|i: int|
            0 <= i < a.len() ==> (#[trigger] a[i]).resolution_status@ == b[i].resolution_status@
                && a[i].confidence_bucket == b[i].confidence_bucket && a[i].rows@ == b[i].rows@,
{
    lemma_prefix_of_grouping(a, b, rows, a.len() as int);
    lemma_prefix_of_grouping(b, a, rows, b.len() as int);
    assert forall|i: int| 0 <= i < a.len() implies (#[trigger] a[i]).resolution_status@
        == b[i].resolution_status@ && a[i].confidence_bucket == b[i].confidence_bucket && a[i].rows@
        == b[i].rows@ by {
        assert(same_kind(a[i], b[i]));
        assert(is_group(a[i], rows));
        assert(is_group(b[i], rows));
    }
}

/// Two groups hold calls of the same kind.
pub open spec fn same_kind(a: CallResolutionBucket, b: CallResolutionBucket) -> bool {
    a.resolution_status@ == b.resolution_status@ && a.confidence_bucket == b.confidence_bucket
}

/// The first `n` groups of one grouping are those of the other.
proof fn lemma_prefix_of_grouping(
    a: Seq<CallResolutionBucket>,
    b: Seq<CallResolutionBucket>,
    rows: Seq<CallResolutionEdgeRow>,
    n: int,
)
    requires
        is_grouping(a, rows),
        is_grouping(b, rows),
        0 <= n <= a.len(),
    ensures
        n <= b.len(),
        forall|i: int| 0 <= i < n ==> same_kind(#[trigger] a[i], b[i]),
    decreases n,
{
    if n > 0 {
        let m = n - 1;
        lemma_prefix_of_grouping(a, b, rows, m);
        lemma_kind_is_found(a, b, rows, m);
        let k = choose|k: int| 0 <= k < b.len() && same_kind(a[m], #[trigger] b[k]);
        if k < m {
            assert(same_kind(a[k], b[k]));
            assert(before(a[k], a[m]));
            lemma_before_differs(a[k], a[m]);
        } else if k > m {
            // `b[m]` stands before `b[k]`, and so before `a[m]`; it is not among the first ones.
            lemma_kind_is_found(b, a, rows, m);
            let q = choose|q: int| 0 <= q < a.len() && same_kind(b[m], #[trigger] a[q]);
            assert(before(b[m], b[k]));
            if q < m {
                assert(same_kind(a[q], b[q]));
                assert(before(b[q], b[m]));
                lemma_before_differs(b[q], b[m]);
            } else if q == m {
                lemma_before_differs(b[m], b[k]);
            } else {
                assert(before(a[m], a[q]));
                assert(before(b[k], b[m]));
                lemma_before_transitive(b[m], b[k], b[m]);
                lemma_before_differs(b[m], b[m]);
            }
        }
    }
}

proof fn lemma_kind_is_found(
    a: Seq<CallResolutionBucket>,
    b: Seq<CallResolutionBucket>,
    rows: Seq<CallResolutionEdgeRow>,
    m: int,
)
    requires
        is_grouping(a, rows),
        is_grouping(b, rows),
        0 <= m < a.len(),
    ensures
        exists|k: int| 0 <= k < b.len() && same_kind(a[m], #[trigger] b[k]),
{
    assert(is_group(a[m], rows));
    let status = a[m].resolution_status@;
    let bucket = a[m].confidence_bucket;
    lemma_group_has_source(rows, status, bucket);
    let i = choose|i: int| 0 <= i < rows.len() && in_group(#[trigger] rows[i], status, bucket);
    assert(has_group(b, rows[i].resolution_status@, rows[i].confidence_bucket));
    let k = choose|k: int|
        0 <= k < b.len() && (#[trigger] b[k]).resolution_status@ == status
            && b[k].confidence_bucket == bucket;
    assert(same_kind(a[m], b[k]));
}

} // verus!
