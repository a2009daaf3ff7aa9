//! What the search for chains of calls finds: every simple chain within the depth, in order, up
//! to the cap.

use vstd::prelude::*;
use crate::call_paths::{
    callee, capped, clamped, descends, emits, least_confidence, outgoing, path_of, reaches,
    searched, searched_to, traced, traced_calls, transitive, GoalView, PathView, MAX_CALL_PATHS,
    MAX_CALL_PATH_DEPTH,
};
use crate::records::CallPathEdge;
use crate::sql::Real;
use crate::text::optional_text;

verus! {

/// All chains that a search from `current` reports when nothing stops it, in order.
pub open spec fn trails(
    edges: Seq<CallPathEdge>,
    goal: GoalView,
    current: Seq<char>,
    depth: nat,
    visited: Seq<Seq<char>>,
    chain: Seq<CallPathEdge>,
) -> Seq<Seq<CallPathEdge>>
    decreases depth, 1nat, 0nat,
{
    if depth == 0 {
        Seq::empty()
    } else {
        trails_along(edges, goal, outgoing(edges, current), depth, visited, chain)
    }
}

/// The chains behind one call.
pub open spec fn trails_behind(
    edges: Seq<CallPathEdge>,
    goal: GoalView,
    call: CallPathEdge,
    depth: nat,
    visited: Seq<Seq<char>>,
    chain: Seq<CallPathEdge>,
) -> Seq<Seq<CallPathEdge>>
    decreases depth, 0nat, 0nat,
{
    match callee(call) {
        Some(next) => if depth > 0 && descends(goal, call) && !visited.contains(next) {
            trails(edges, goal, next, (depth - 1) as nat, visited.push(next), chain.push(call))
        } else {
            Seq::empty()
        },
        None => Seq::empty(),
    }
}

/// The chains that go on with one of `calls`.
pub open spec fn trails_along(
    edges: Seq<CallPathEdge>,
    goal: GoalView,
    calls: Seq<CallPathEdge>,
    depth: nat,
    visited: Seq<Seq<char>>,
    chain: Seq<CallPathEdge>,
) -> Seq<Seq<CallPathEdge>>
    decreases depth, 0nat, calls.len() + 1,
{
    if calls.len() == 0 || depth == 0 {
        Seq::empty()
    } else {
        let longer = chain.push(calls[0]);
        let here = if emits(goal, longer) {
            seq![longer]
        } else {
            Seq::empty()
        };
        here + trails_behind(edges, goal, calls[0], depth, visited, chain) + trails_along(
            edges,
            goal,
            calls.drop_first(),
            depth,
            visited,
            chain,
        )
    }
}

/// The paths that chains make.
pub open spec fn paths_of(chains: Seq<Seq<CallPathEdge>>) -> Seq<PathView> {
    Seq::new(chains.len(), |i: int| path_of(chains[i]))
}

proof fn lemma_capped_append(a: Seq<PathView>, b: Seq<PathView>, c: Seq<PathView>)
    requires
        capped(a) == capped(b),
    ensures
        capped(a + c) == capped(b + c),
{
    if a.len() < MAX_CALL_PATHS {
        assert(capped(b).len() == a.len());
        assert(a == b);
    } else {
        assert(capped(a).len() == MAX_CALL_PATHS);
        assert(b.len() >= MAX_CALL_PATHS);
        assert forall|i: int| 0 <= i < MAX_CALL_PATHS implies a[i] == b[i] by {
            assert(capped(a)[i] == a[i]);
            assert(capped(b)[i] == b[i]);
        }
        assert(capped(a + c) =~= capped(b + c));
    }
}

proof fn lemma_capped_full(a: Seq<PathView>, c: Seq<PathView>)
    requires
        a.len() >= MAX_CALL_PATHS,
    ensures
        capped(a + c) == capped(a),
{
    assert(capped(a + c) =~= capped(a));
}

proof fn lemma_paths_of_concat(a: Seq<Seq<CallPathEdge>>, b: Seq<Seq<CallPathEdge>>)
    ensures
        paths_of(a + b) == paths_of(a) + paths_of(b),
{
    assert(paths_of(a + b) =~= paths_of(a) + paths_of(b));
}

proof fn lemma_traced_is_trails(
    edges: Seq<CallPathEdge>,
    goal: GoalView,
    current: Seq<char>,
    depth: nat,
    visited: Seq<Seq<char>>,
    chain: Seq<CallPathEdge>,
    paths: Seq<PathView>,
)
    ensures
        capped(traced(edges, goal, current, depth, visited, chain, paths)) == capped(
            paths + paths_of(trails(edges, goal, current, depth, visited, chain)),
        ),
    decreases depth, 1nat, 0nat,
{
    let all = paths_of(trails(edges, goal, current, depth, visited, chain));
    if depth == 0 {
        assert(paths + all =~= paths);
    } else if paths.len() >= MAX_CALL_PATHS {
        lemma_capped_full(paths, all);
    } else {
        lemma_traced_calls_is_trails(
            edges,
            goal,
            outgoing(edges, current),
            depth,
            visited,
            chain,
            paths,
        );
    }
}

proof fn lemma_traced_calls_is_trails(
    edges: Seq<CallPathEdge>,
    goal: GoalView,
    calls: Seq<CallPathEdge>,
    depth: nat,
    visited: Seq<Seq<char>>,
    chain: Seq<CallPathEdge>,
    paths: Seq<PathView>,
)
    ensures
        capped(traced_calls(edges, goal, calls, depth, visited, chain, paths)) == capped(
            paths + paths_of(trails_along(edges, goal, calls, depth, visited, chain)),
        ),
    decreases depth, 0nat, calls.len(),
{
    let all = trails_along(edges, goal, calls, depth, visited, chain);
    if calls.len() == 0 || depth == 0 {
        assert(paths + paths_of(all) =~= paths);
    } else {
        let call = calls[0];
        let longer = chain.push(call);
        let here = if emits(goal, longer) {
            seq![longer]
        } else {
            Seq::<Seq<CallPathEdge>>::empty()
        };
        let behind = trails_behind(edges, goal, call, depth, visited, chain);
        let rest = trails_along(edges, goal, calls.drop_first(), depth, visited, chain);
        assert(all == here + behind + rest);
        lemma_paths_of_concat(here + behind, rest);
        lemma_paths_of_concat(here, behind);
        let found = if emits(goal, longer) {
            paths.push(path_of(longer))
        } else {
            paths
        };
        assert(found =~= paths + paths_of(here));
        if emits(goal, longer) && found.len() >= MAX_CALL_PATHS {
            assert(paths + paths_of(all) =~= found + (paths_of(behind) + paths_of(rest)));
            lemma_capped_full(found, paths_of(behind) + paths_of(rest));
        } else {
            let mid = match callee(call) {
                Some(next) => if descends(goal, call) && !visited.contains(next) {
                    traced(
                        edges,
                        goal,
                        next,
                        (depth - 1) as nat,
                        visited.push(next),
                        longer,
                        found,
                    )
                } else {
                    found
                },
                None => found,
            };
            assert(capped(mid) == capped(found + paths_of(behind))) by {
                match callee(call) {
                    Some(next) => {
                        if descends(goal, call) && !visited.contains(next) {
                            lemma_traced_is_trails(
                                edges,
                                goal,
                                next,
                                (depth - 1) as nat,
                                visited.push(next),
                                longer,
                                found,
                            );
                        } else {
                            assert(found + paths_of(behind) =~= found);
                        }
                    },
                    None => {
                        assert(found + paths_of(behind) =~= found);
                    },
                }
            }
            lemma_traced_calls_is_trails(
                edges,
                goal,
                calls.drop_first(),
                depth,
                visited,
                chain,
                mid,
            );
            lemma_capped_append(mid, found + paths_of(behind), paths_of(rest));
            assert(found + paths_of(behind) + paths_of(rest) =~= paths + paths_of(all));
        }
    }
}

/// The chains from all sources, source by source.
pub open spec fn all_trails(
    edges: Seq<CallPathEdge>,
    goal: GoalView,
    sources: Seq<Seq<char>>,
    depth: nat,
) -> Seq<Seq<CallPathEdge>>
    decreases sources.len(),
{
    if sources.len() == 0 {
        Seq::empty()
    } else {
        trails(edges, goal, sources[0], depth, seq![sources[0]], Seq::empty()) + all_trails(
            edges,
            goal,
            sources.drop_first(),
            depth,
        )
    }
}

/// A search that starts with the paths `paths` reports the first of `paths` and of all chains
/// from the sources: none is passed over before the cap is reached.
pub proof fn law_search_is_complete_up_to_the_cap(
    edges: Seq<CallPathEdge>,
    goal: GoalView,
    sources: Seq<Seq<char>>,
    depth: nat,
    paths: Seq<PathView>,
)
    ensures
        capped(searched(edges, goal, sources, depth, paths)) == capped(
            paths + paths_of(all_trails(edges, goal, sources, depth)),
        ),
    decreases sources.len(),
{
    let all = all_trails(edges, goal, sources, depth);
    if sources.len() == 0 {
        assert(paths + paths_of(all) =~= paths);
    } else {
        let start = seq![sources[0]];
        let first = trails(edges, goal, sources[0], depth, start, Seq::empty());
        let rest = all_trails(edges, goal, sources.drop_first(), depth);
        let next = traced(edges, goal, sources[0], depth, start, Seq::empty(), paths);
        lemma_traced_is_trails(edges, goal, sources[0], depth, start, Seq::empty(), paths);
        lemma_paths_of_concat(first, rest);
        assert(paths + paths_of(all) =~= paths + paths_of(first) + paths_of(rest));
        lemma_capped_append(next, paths + paths_of(first), paths_of(rest));
        if next.len() >= MAX_CALL_PATHS {
            lemma_capped_full(next, paths_of(rest));
        } else {
            law_search_is_complete_up_to_the_cap(edges, goal, sources.drop_first(), depth, next);
        }
    }
}

/// A simple chain of at most `depth` calls that starts at `current` and, behind `chain`, is one
/// to report: each call is made by the symbol that the one before resolves to, no symbol is
/// entered twice, and the search goes on behind every call but the last.
pub open spec fn is_trail(
    edges: Seq<CallPathEdge>,
    goal: GoalView,
    current: Seq<char>,
    depth: nat,
    visited: Seq<Seq<char>>,
    chain: Seq<CallPathEdge>,
    calls: Seq<CallPathEdge>,
) -> bool
    decreases calls.len(),
{
    &&& depth > 0
    &&& calls.len() > 0
    &&& edges.contains(calls[0])
    &&& calls[0].caller_symbol_id@ == current
    &&& goes_on(edges, goal, depth, visited, chain, calls)
}

/// What `is_trail` asks of the chain from its first call on.
pub open spec fn goes_on(
    edges: Seq<CallPathEdge>,
    goal: GoalView,
    depth: nat,
    visited: Seq<Seq<char>>,
    chain: Seq<CallPathEdge>,
    calls: Seq<CallPathEdge>,
) -> bool
    decreases calls.len(), 0nat,
{
    if calls.len() == 0 || depth == 0 {
        false
    } else if calls.len() == 1 {
        emits(goal, chain.push(calls[0]))
    } else {
        &&& descends(goal, calls[0])
        &&& callee(calls[0]) is Some
        &&& !visited.contains(callee(calls[0])->Some_0)
        &&& depth > 1
        &&& edges.contains(calls[1])
        &&& calls[1].caller_symbol_id@ == callee(calls[0])->Some_0
        &&& goes_on(
            edges,
            goal,
            (depth - 1) as nat,
            visited.push(callee(calls[0])->Some_0),
            chain.push(calls[0]),
            calls.drop_first(),
        )
    }
}

proof fn lemma_outgoing_members(edges: Seq<CallPathEdge>, symbol: Seq<char>, call: CallPathEdge)
    ensures
        outgoing(edges, symbol).contains(call) <==> edges.contains(call)
            && call.caller_symbol_id@ == symbol,
    decreases edges.len(),
{
    reveal(Seq::filter);
    if edges.len() > 0 {
        let front = edges.drop_last();
        lemma_outgoing_members(front, symbol, call);
        let sub = outgoing(front, symbol);
        let all = outgoing(edges, symbol);
        if edges.contains(call) {
            let i = choose|i: int| 0 <= i < edges.len() && edges[i] == call;
            if i < front.len() {
                assert(front[i] == call);
            }
        }
        if front.contains(call) {
            let i = choose|i: int| 0 <= i < front.len() && front[i] == call;
            assert(edges[i] == call);
        }
        assert(edges.contains(edges.last())) by {
            assert(edges[edges.len() - 1] == edges.last());
        }
        if edges.last().caller_symbol_id@ == symbol {
            assert(all == sub.push(edges.last()));
            assert(all[sub.len() as int] == edges.last());
            if sub.contains(call) {
                let i = choose|i: int| 0 <= i < sub.len() && sub[i] == call;
                assert(all[i] == call);
            }
            if all.contains(call) && call != edges.last() {
                let i = choose|i: int| 0 <= i < all.len() && all[i] == call;
                assert(sub[i] == call);
            }
        }
    }
}

proof fn lemma_contains_concat<A>(a: Seq<A>, b: Seq<A>, x: A)
    ensures
        (a + b).contains(x) <==> a.contains(x) || b.contains(x),
{
    if a.contains(x) {
        let i = choose|i: int| 0 <= i < a.len() && a[i] == x;
        assert((a + b)[i] == x);
    }
    if b.contains(x) {
        let i = choose|i: int| 0 <= i < b.len() && b[i] == x;
        assert((a + b)[a.len() + i] == x);
    }
    if (a + b).contains(x) {
        let i = choose|i: int| 0 <= i < (a + b).len() && (a + b)[i] == x;
        if i < a.len() {
            assert(a[i] == x);
        } else {
            assert(b[i - a.len()] == x);
        }
    }
}

/// `t` starts with `chain` and is longer.
spec fn extends(chain: Seq<CallPathEdge>, t: Seq<CallPathEdge>) -> bool {
    t.len() > chain.len() && t.take(chain.len() as int) == chain
}

proof fn lemma_trails_extend(
    edges: Seq<CallPathEdge>,
    goal: GoalView,
    current: Seq<char>,
    depth: nat,
    visited: Seq<Seq<char>>,
    chain: Seq<CallPathEdge>,
    t: Seq<CallPathEdge>,
)
    requires
        trails(edges, goal, current, depth, visited, chain).contains(t),
    ensures
        extends(chain, t),
    decreases depth, 1nat, 0nat,
{
    if depth > 0 {
        lemma_trails_along_extend(
            edges,
            goal,
            outgoing(edges, current),
            depth,
            visited,
            chain,
            t,
        );
    }
}

proof fn lemma_trails_along_extend(
    edges: Seq<CallPathEdge>,
    goal: GoalView,
    calls: Seq<CallPathEdge>,
    depth: nat,
    visited: Seq<Seq<char>>,
    chain: Seq<CallPathEdge>,
    t: Seq<CallPathEdge>,
)
    requires
        trails_along(edges, goal, calls, depth, visited, chain).contains(t),
    ensures
        extends(chain, t),
    decreases depth, 0nat, calls.len(),
{
    if calls.len() > 0 && depth > 0 {
        let longer = chain.push(calls[0]);
        let here = if emits(goal, longer) {
            seq![longer]
        } else {
            Seq::<Seq<CallPathEdge>>::empty()
        };
        let behind = trails_behind(edges, goal, calls[0], depth, visited, chain);
        let rest = trails_along(edges, goal, calls.drop_first(), depth, visited, chain);
        lemma_contains_concat(here + behind, rest, t);
        lemma_contains_concat(here, behind, t);
        if here.contains(t) {
            assert(t == longer);
            assert(t.take(chain.len() as int) =~= chain);
        } else if behind.contains(t) {
            let next = callee(calls[0])->Some_0;
            lemma_trails_extend(
                edges,
                goal,
                next,
                (depth - 1) as nat,
                visited.push(next),
                longer,
                t,
            );
            assert(t.take(chain.len() as int) =~= t.take(longer.len() as int).take(
                chain.len() as int,
            ));
            assert(longer.take(chain.len() as int) =~= chain);
        } else {
            lemma_trails_along_extend(
                edges,
                goal,
                calls.drop_first(),
                depth,
                visited,
                chain,
                t,
            );
        }
    }
}

proof fn lemma_trails_members(
    edges: Seq<CallPathEdge>,
    goal: GoalView,
    current: Seq<char>,
    depth: nat,
    visited: Seq<Seq<char>>,
    chain: Seq<CallPathEdge>,
    u: Seq<CallPathEdge>,
)
    ensures
        trails(edges, goal, current, depth, visited, chain).contains(chain + u) <==> is_trail(
            edges,
            goal,
            current,
            depth,
            visited,
            chain,
            u,
        ),
    decreases depth, 1nat, 0nat,
{
    if depth > 0 {
        let calls = outgoing(edges, current);
        lemma_trails_along_members(edges, goal, calls, depth, visited, chain, u);
        if u.len() > 0 {
            lemma_outgoing_members(edges, current, u[0]);
        }
    }
}

proof fn lemma_trails_along_members(
    edges: Seq<CallPathEdge>,
    goal: GoalView,
    calls: Seq<CallPathEdge>,
    depth: nat,
    visited: Seq<Seq<char>>,
    chain: Seq<CallPathEdge>,
    u: Seq<CallPathEdge>,
)
    requires
        depth > 0,
    ensures
        trails_along(edges, goal, calls, depth, visited, chain).contains(chain + u) <==> u.len()
            > 0 && calls.contains(u[0]) && goes_on(edges, goal, depth, visited, chain, u),
    decreases depth, 0nat, calls.len(),
{
    let t = chain + u;
    if calls.len() > 0 {
        let call = calls[0];
        let longer = chain.push(call);
        let here = if emits(goal, longer) {
            seq![longer]
        } else {
            Seq::<Seq<CallPathEdge>>::empty()
        };
        let behind = trails_behind(edges, goal, call, depth, visited, chain);
        let rest = trails_along(edges, goal, calls.drop_first(), depth, visited, chain);
        lemma_contains_concat(here + behind, rest, t);
        lemma_contains_concat(here, behind, t);
        lemma_trails_along_members(
            edges,
            goal,
            calls.drop_first(),
            depth,
            visited,
            chain,
            u,
        );
        assert(u.len() > 0 ==> (calls.contains(u[0]) <==> (u[0] == call
            || calls.drop_first().contains(u[0])))) by {
            if u.len() > 0 {
                assert(calls =~= seq![call] + calls.drop_first());
                lemma_contains_concat(seq![call], calls.drop_first(), u[0]);
                assert(seq![call].contains(u[0]) <==> u[0] == call) by {
                    assert(seq![call][0] == call);
                }
            }
        }
        // The chain that ends with this call.
        assert(here.contains(t) <==> (u.len() == 1 && u[0] == call && emits(goal, longer))) by {
            if here.contains(t) {
                assert(t == longer);
                assert(u =~= t.skip(chain.len() as int));
                assert(longer.skip(chain.len() as int) =~= seq![call]);
            }
            if u.len() == 1 && u[0] == call && emits(goal, longer) {
                assert(t =~= longer);
                assert(here[0] == t);
            }
        }
        // The chains that go on behind this call.
        assert(behind.contains(t) <==> (u.len() > 1 && u[0] == call && goes_on(
            edges,
            goal,
            depth,
            visited,
            chain,
            u,
        ))) by {
            match callee(call) {
                Some(next) => {
                    if descends(goal, call) && !visited.contains(next) {
                        let below = (depth - 1) as nat;
                        let seen = visited.push(next);
                        if behind.contains(t) {
                            lemma_trails_extend(edges, goal, next, below, seen, longer, t);
                            assert(t[chain.len() as int] == longer[chain.len() as int]) by {
                                assert(t.take(longer.len() as int)[chain.len() as int]
                                    == t[chain.len() as int]);
                            }
                            assert(u[0] == call);
                        }
                        if u.len() > 0 && u[0] == call {
                            assert(longer + u.drop_first() =~= t);
                            lemma_trails_members(
                                edges,
                                goal,
                                next,
                                below,
                                seen,
                                longer,
                                u.drop_first(),
                            );
                            if u.len() > 1 {
                                assert(u.drop_first()[0] == u[1]);
                            }
                        }
                    }
                },
                None => {},
            }
        }
        if u.len() == 1 && u[0] == call {
            assert(goes_on(edges, goal, depth, visited, chain, u) <==> emits(goal, longer));
        }
    }
}

/// A search from a source reports exactly the simple chains to report, and no others.
pub proof fn law_search_finds_exactly_the_simple_chains(
    edges: Seq<CallPathEdge>,
    goal: GoalView,
    source: Seq<char>,
    depth: nat,
    calls: Seq<CallPathEdge>,
)
    ensures
        trails(edges, goal, source, depth, seq![source], Seq::empty()).contains(calls)
            <==> is_trail(edges, goal, source, depth, seq![source], Seq::empty(), calls),
{
    lemma_trails_members(edges, goal, source, depth, seq![source], Seq::empty(), calls);
    assert(Seq::<CallPathEdge>::empty() + calls =~= calls);
}

/// A chain to report has at most `depth` calls, all of them of the repository; each call but the
/// first is made by the symbol that the one before resolves to.
pub proof fn law_chains_are_connected(
    edges: Seq<CallPathEdge>,
    goal: GoalView,
    current: Seq<char>,
    depth: nat,
    visited: Seq<Seq<char>>,
    chain: Seq<CallPathEdge>,
    calls: Seq<CallPathEdge>,
)
    requires
        is_trail(edges, goal, current, depth, visited, chain, calls),
    ensures
        1 <= calls.len() <= depth,
        calls[0].caller_symbol_id@ == current,
        forall|i: int| 0 <= i < calls.len() ==> edges.contains(#[trigger] calls[i]),
        forall|i: int|
            0 < i < calls.len() ==> callee(calls[i - 1]) == Some(
                (#[trigger] calls[i]).caller_symbol_id@,
            ),
        forall|i: int| 0 <= i < calls.len() - 1 ==> descends(goal, #[trigger] calls[i]),
        emits(goal, chain + calls),
        forall|i: int|
            0 < i < calls.len() ==> !visited.contains((#[trigger] calls[i]).caller_symbol_id@),
        forall|i: int, j: int|
            0 < i < j < calls.len() ==> (#[trigger] calls[i]).caller_symbol_id@ != (
            #[trigger] calls[j]).caller_symbol_id@,
    decreases calls.len(),
{
    if calls.len() == 1 {
        assert(chain + calls =~= chain.push(calls[0]));
    } else {
        let next = callee(calls[0])->Some_0;
        let tail = calls.drop_first();
        assert(tail[0] == calls[1]);
        law_chains_are_connected(
            edges,
            goal,
            next,
            (depth - 1) as nat,
            visited.push(next),
            chain.push(calls[0]),
            tail,
        );
        assert(chain.push(calls[0]) + tail =~= chain + calls);
        assert forall|i: int| 0 <= i < calls.len() implies edges.contains(#[trigger] calls[i]) by {
            if i > 0 {
                assert(tail[i - 1] == calls[i]);
            }
        }
        assert forall|i: int| 0 < i < calls.len() implies callee(calls[i - 1]) == Some(
            (#[trigger] calls[i]).caller_symbol_id@,
        ) by {
            if i > 1 {
                assert(tail[i - 1] == calls[i]);
                assert(tail[i - 2] == calls[i - 1]);
            }
        }
        assert forall|i: int| 0 <= i < calls.len() - 1 implies descends(
            goal,
            #[trigger] calls[i],
        ) by {
            if i > 0 {
                assert(tail[i - 1] == calls[i]);
            }
        }
        assert forall|i: int| 0 < i < calls.len() implies !visited.contains(
            (#[trigger] calls[i]).caller_symbol_id@,
        ) by {
            if i > 1 {
                assert(tail[i - 1] == calls[i]);
                let s = calls[i].caller_symbol_id@;
                if visited.contains(s) {
                    let k = choose|k: int| 0 <= k < visited.len() && visited[k] == s;
                    assert(visited.push(next)[k] == s);
                }
            }
        }
        assert forall|i: int, j: int| 0 < i < j < calls.len() implies (
        #[trigger] calls[i]).caller_symbol_id@ != (#[trigger] calls[j]).caller_symbol_id@ by {
            assert(tail[j - 1] == calls[j]);
            assert(tail[i - 1] == calls[i]);
            if i == 1 {
                assert(visited.push(next)[visited.len() as int] == next);
            }
        }
    }
}

/// No symbol makes two of the calls of a reported chain: the search does not run in circles.
pub proof fn law_chains_do_not_run_in_circles(
    edges: Seq<CallPathEdge>,
    goal: GoalView,
    source: Seq<char>,
    depth: nat,
    calls: Seq<CallPathEdge>,
)
    requires
        is_trail(edges, goal, source, depth, seq![source], Seq::empty(), calls),
    ensures
        forall|i: int, j: int|
            0 <= i < j < calls.len() ==> (#[trigger] calls[i]).caller_symbol_id@ != (
            #[trigger] calls[j]).caller_symbol_id@,
{
    law_chains_are_connected(
        edges,
        goal,
        source,
        depth,
        seq![source],
        Seq::empty(),
        calls,
    );
    assert forall|i: int, j: int| 0 <= i < j < calls.len() implies (
    #[trigger] calls[i]).caller_symbol_id@ != (#[trigger] calls[j]).caller_symbol_id@ by {
        if i == 0 {
            assert(seq![source][0] == source);
        }
    }
}

/// A chain to a target ends at the target and meets it nowhere before.
pub proof fn law_target_ends_the_chain(
    edges: Seq<CallPathEdge>,
    query: Seq<char>,
    ids: Seq<Seq<char>>,
    source: Seq<char>,
    depth: nat,
    calls: Seq<CallPathEdge>,
)
    requires
        is_trail(
            edges,
            GoalView::Target { query, ids },
            source,
            depth,
            seq![source],
            Seq::empty(),
            calls,
        ),
    ensures
        reaches(calls.last(), query, ids),
        forall|i: int| 0 <= i < calls.len() - 1 ==> !reaches(#[trigger] calls[i], query, ids),
{
    law_chains_are_connected(
        edges,
        GoalView::Target { query, ids },
        source,
        depth,
        seq![source],
        Seq::empty(),
        calls,
    );
    assert(Seq::<CallPathEdge>::empty() + calls =~= calls);
    assert forall|i: int| 0 <= i < calls.len() - 1 implies !reaches(
        #[trigger] calls[i],
        query,
        ids,
    ) by {
        assert(descends(GoalView::Target { query, ids }, calls[i]));
    }
}

/// Whatever depth is asked for, a reported chain has between one and eight calls.
pub proof fn law_chains_are_bounded(
    edges: Seq<CallPathEdge>,
    goal: GoalView,
    source: Seq<char>,
    asked: nat,
    calls: Seq<CallPathEdge>,
)
    requires
        is_trail(edges, goal, source, clamped(asked), seq![source], Seq::empty(), calls),
    ensures
        1 <= calls.len() <= MAX_CALL_PATH_DEPTH,
        path_of(calls).hops == calls.len(),
{
    law_chains_are_connected(
        edges,
        goal,
        source,
        clamped(asked),
        seq![source],
        Seq::empty(),
        calls,
    );
}

/// Every path that a search adds is one of the chains.
proof fn lemma_traced_finds_trails(
    edges: Seq<CallPathEdge>,
    goal: GoalView,
    current: Seq<char>,
    depth: nat,
    visited: Seq<Seq<char>>,
    chain: Seq<CallPathEdge>,
    paths: Seq<PathView>,
    path: PathView,
)
    requires
        traced(edges, goal, current, depth, visited, chain, paths).contains(path),
    ensures
        paths.contains(path) || paths_of(
            trails(edges, goal, current, depth, visited, chain),
        ).contains(path),
    decreases depth, 1nat, 0nat,
{
    if depth > 0 && paths.len() < MAX_CALL_PATHS {
        lemma_traced_calls_finds_trails(
            edges,
            goal,
            outgoing(edges, current),
            depth,
            visited,
            chain,
            paths,
            path,
        );
    }
}

proof fn lemma_traced_calls_finds_trails(
    edges: Seq<CallPathEdge>,
    goal: GoalView,
    calls: Seq<CallPathEdge>,
    depth: nat,
    visited: Seq<Seq<char>>,
    chain: Seq<CallPathEdge>,
    paths: Seq<PathView>,
    path: PathView,
)
    requires
        traced_calls(edges, goal, calls, depth, visited, chain, paths).contains(path),
    ensures
        paths.contains(path) || paths_of(
            trails_along(edges, goal, calls, depth, visited, chain),
        ).contains(path),
    decreases depth, 0nat, calls.len(),
{
    if calls.len() > 0 && depth > 0 {
        let call = calls[0];
        let longer = chain.push(call);
        let here = if emits(goal, longer) {
            seq![longer]
        } else {
            Seq::<Seq<CallPathEdge>>::empty()
        };
        let found = if emits(goal, longer) {
            paths.push(path_of(longer))
        } else {
            paths
        };
        let behind = trails_behind(edges, goal, call, depth, visited, chain);
        let rest = trails_along(edges, goal, calls.drop_first(), depth, visited, chain);
        lemma_paths_of_concat(here + behind, rest);
        lemma_paths_of_concat(here, behind);
        lemma_contains_concat(paths_of(here + behind), paths_of(rest), path);
        lemma_contains_concat(paths_of(here), paths_of(behind), path);
        assert(found.contains(path) ==> paths.contains(path) || paths_of(here).contains(path)) by {
            if found.contains(path) && !paths.contains(path) {
                let i = choose|i: int| 0 <= i < found.len() && found[i] == path;
                if i < paths.len() {
                    assert(paths[i] == path);
                }
                assert(paths_of(here)[0] == path);
            }
        }
        if !(emits(goal, longer) && found.len() >= MAX_CALL_PATHS) {
            let deeper = match callee(call) {
                Some(next) => if descends(goal, call) && !visited.contains(next) {
                    traced(
                        edges,
                        goal,
                        next,
                        (depth - 1) as nat,
                        visited.push(next),
                        longer,
                        found,
                    )
                } else {
                    found
                },
                None => found,
            };
            lemma_traced_calls_finds_trails(
                edges,
                goal,
                calls.drop_first(),
                depth,
                visited,
                chain,
                deeper,
                path,
            );
            if deeper.contains(path) && !found.contains(path) {
                let next = callee(call)->Some_0;
                lemma_traced_finds_trails(
                    edges,
                    goal,
                    next,
                    (depth - 1) as nat,
                    visited.push(next),
                    longer,
                    found,
                    path,
                );
            }
        }
    }
}

/// A member of the paths of more than one call is one of the paths.
proof fn lemma_transitive_members(paths: Seq<PathView>, path: PathView)
    ensures
        transitive(paths).contains(path) <==> paths.contains(path) && path.hops > 1,
    decreases paths.len(),
{
    reveal(Seq::filter);
    if paths.len() > 0 {
        let front = paths.drop_last();
        lemma_transitive_members(front, path);
        crate::text::lemma_insert_members(front, front.len() as int, paths.last());
        assert(front.insert(front.len() as int, paths.last()) =~= paths);
        let before = transitive(front);
        if paths.last().hops > 1 {
            crate::text::lemma_insert_members(before, before.len() as int, paths.last());
            assert(before.insert(before.len() as int, paths.last()) =~= transitive(paths));
        }
    }
}

/// A search for what leads to a target reports only chains of more than one call, each from a
/// source that is not the target itself.
pub proof fn law_paths_to_a_target_are_transitive(
    edges: Seq<CallPathEdge>,
    query: Seq<char>,
    ids: Seq<Seq<char>>,
    sources: Seq<Seq<char>>,
    depth: nat,
    paths: Seq<PathView>,
    path: PathView,
)
    requires
        searched_to(edges, query, ids, sources, depth, paths).contains(path),
        !paths.contains(path),
    ensures
        path.hops > 1,
        exists|i: int, calls: Seq<CallPathEdge>|
            0 <= i < sources.len() && !ids.contains(#[trigger] sources[i]) && path == path_of(calls)
                && #[trigger] trails(
                edges,
                GoalView::Target { query, ids },
                sources[i],
                depth,
                seq![sources[i]],
                Seq::empty(),
            ).contains(calls),
    decreases sources.len(),
{
    if sources.len() > 0 {
        let goal = GoalView::Target { query, ids };
        let rest = sources.drop_first();
        let source = sources[0];
        let found = traced(edges, goal, source, depth, seq![source], Seq::empty(), Seq::empty());
        let added = transitive(found);
        let next = if ids.contains(source) {
            paths
        } else {
            paths + added
        };
        if !ids.contains(source) {
            lemma_contains_concat(paths, added, path);
        }
        if next.contains(path) {
            lemma_transitive_members(found, path);
            lemma_traced_finds_trails(
                edges,
                goal,
                source,
                depth,
                seq![source],
                Seq::empty(),
                Seq::empty(),
                path,
            );
            let chains = trails(edges, goal, source, depth, seq![source], Seq::empty());
            let k = choose|k: int| 0 <= k < paths_of(chains).len() && paths_of(chains)[k] == path;
            assert(chains.contains(chains[k]));
            assert(sources[0] == source && path == path_of(chains[k]));
        } else {
            law_paths_to_a_target_are_transitive(edges, query, ids, rest, depth, next, path);
            let (i, calls) = choose|i: int, calls: Seq<CallPathEdge>|
                0 <= i < rest.len() && !ids.contains(#[trigger] rest[i]) && path == path_of(calls)
                    && #[trigger] trails(
                    edges,
                    goal,
                    rest[i],
                    depth,
                    seq![rest[i]],
                    Seq::empty(),
                ).contains(calls);
            assert(sources[i + 1] == rest[i]);
            assert(trails(
                edges,
                goal,
                sources[i + 1],
                depth,
                seq![sources[i + 1]],
                Seq::empty(),
            ).contains(calls));
        }
    }
}

/// The paths of more than one call to a target from all sources that are not the target, in the
/// order of the search.
pub open spec fn all_transitive(
    edges: Seq<CallPathEdge>,
    query: Seq<char>,
    ids: Seq<Seq<char>>,
    sources: Seq<Seq<char>>,
    depth: nat,
) -> Seq<PathView>
    decreases sources.len(),
{
    if sources.len() == 0 {
        Seq::empty()
    } else {
        let rest = all_transitive(edges, query, ids, sources.drop_first(), depth);
        if ids.contains(sources[0]) {
            rest
        } else {
            transitive(
                paths_of(
                    trails(
                        edges,
                        GoalView::Target { query, ids },
                        sources[0],
                        depth,
                        seq![sources[0]],
                        Seq::empty(),
                    ),
                ),
            ) + rest
        }
    }
}

/// A search for what leads to a target passes over none of the chains of more than one call
/// before the cap is reached, where no single source has as many chains as the cap allows.
pub proof fn law_paths_to_a_target_are_complete(
    edges: Seq<CallPathEdge>,
    query: Seq<char>,
    ids: Seq<Seq<char>>,
    sources: Seq<Seq<char>>,
    depth: nat,
    paths: Seq<PathView>,
)
    requires
        forall|i: int|
            0 <= i < sources.len() ==> trails(
                edges,
                GoalView::Target { query, ids },
                #[trigger] sources[i],
                depth,
                seq![sources[i]],
                Seq::empty(),
            ).len() < MAX_CALL_PATHS,
    ensures
        capped(searched_to(edges, query, ids, sources, depth, paths)) == capped(
            paths + all_transitive(edges, query, ids, sources, depth),
        ),
    decreases sources.len(),
{
    let all = all_transitive(edges, query, ids, sources, depth);
    if sources.len() == 0 {
        assert(paths + all =~= paths);
    } else {
        let goal = GoalView::Target { query, ids };
        let source = sources[0];
        let rest = sources.drop_first();
        assert forall|i: int| 0 <= i < rest.len() implies trails(
            edges,
            goal,
            #[trigger] rest[i],
            depth,
            seq![rest[i]],
            Seq::empty(),
        ).len() < MAX_CALL_PATHS by {
            assert(rest[i] == sources[i + 1]);
        }
        if ids.contains(source) {
            law_paths_to_a_target_are_complete(edges, query, ids, rest, depth, paths);
        } else {
            let chains = trails(edges, goal, source, depth, seq![source], Seq::empty());
            let found = traced(
                edges,
                goal,
                source,
                depth,
                seq![source],
                Seq::empty(),
                Seq::empty(),
            );
            lemma_traced_is_trails(
                edges,
                goal,
                source,
                depth,
                seq![source],
                Seq::empty(),
                Seq::empty(),
            );
            assert(Seq::<PathView>::empty() + paths_of(chains) =~= paths_of(chains));
            assert(chains.len() < MAX_CALL_PATHS);
            assert(capped(paths_of(chains)) == paths_of(chains));
            assert(found == paths_of(chains));
            let added = transitive(found);
            let next = paths + added;
            let others = all_transitive(edges, query, ids, rest, depth);
            assert(paths + all =~= next + others);
            if next.len() >= MAX_CALL_PATHS {
                lemma_capped_full(next, others);
            } else {
                law_paths_to_a_target_are_complete(edges, query, ids, rest, depth, next);
            }
        }
    }
}

/// Two lists have nothing in common.
spec fn apart<A>(a: Seq<A>, b: Seq<A>) -> bool {
    forall|x: A| #[trigger] a.contains(x) ==> !b.contains(x)
}

/// A chain makes exactly one path, which holds the chain.
proof fn lemma_paths_of_members(chains: Seq<Seq<CallPathEdge>>, path: PathView)
    ensures
        paths_of(chains).contains(path) <==> chains.contains(path.edges) && path == path_of(
            path.edges,
        ),
{
    if paths_of(chains).contains(path) {
        let k = choose|k: int| 0 <= k < paths_of(chains).len() && paths_of(chains)[k] == path;
        assert(path.edges == chains[k]);
    }
    if chains.contains(path.edges) && path == path_of(path.edges) {
        let k = choose|k: int| 0 <= k < chains.len() && chains[k] == path.edges;
        assert(paths_of(chains)[k] == path);
    }
}

/// A chain that goes on with one of `calls` holds that call behind `chain`.
proof fn lemma_trails_along_start(
    edges: Seq<CallPathEdge>,
    goal: GoalView,
    calls: Seq<CallPathEdge>,
    depth: nat,
    visited: Seq<Seq<char>>,
    chain: Seq<CallPathEdge>,
    t: Seq<CallPathEdge>,
)
    requires
        trails_along(edges, goal, calls, depth, visited, chain).contains(t),
    ensures
        t.len() > chain.len(),
        calls.contains(t[chain.len() as int]),
{
    lemma_trails_along_extend(edges, goal, calls, depth, visited, chain, t);
    let u = t.skip(chain.len() as int);
    assert(chain + u =~= t) by {
        assert(t.take(chain.len() as int) + u =~= t);
    }
    lemma_trails_along_members(edges, goal, calls, depth, visited, chain, u);
    assert(u[0] == t[chain.len() as int]);
}

proof fn lemma_trails_behind_start(
    edges: Seq<CallPathEdge>,
    goal: GoalView,
    call: CallPathEdge,
    depth: nat,
    visited: Seq<Seq<char>>,
    chain: Seq<CallPathEdge>,
    t: Seq<CallPathEdge>,
)
    requires
        trails_behind(edges, goal, call, depth, visited, chain).contains(t),
    ensures
        t.len() > chain.len() + 1,
        t[chain.len() as int] == call,
{
    let next = callee(call)->Some_0;
    let longer = chain.push(call);
    lemma_trails_extend(
        edges,
        goal,
        next,
        (depth - 1) as nat,
        visited.push(next),
        longer,
        t,
    );
    assert(t.take(longer.len() as int)[chain.len() as int] == longer[chain.len() as int]);
}

proof fn lemma_outgoing_distinct(edges: Seq<CallPathEdge>, symbol: Seq<char>)
    requires
        edges.no_duplicates(),
    ensures
        outgoing(edges, symbol).no_duplicates(),
    decreases edges.len(),
{
    reveal(Seq::filter);
    if edges.len() > 0 {
        let front = edges.drop_last();
        let last = edges.last();
        lemma_outgoing_distinct(front, symbol);
        lemma_outgoing_members(front, symbol, last);
        assert(!front.contains(last)) by {
            if front.contains(last) {
                let k = choose|k: int| 0 <= k < front.len() && front[k] == last;
                assert(edges[k] == edges[edges.len() - 1]);
            }
        }
    }
}

proof fn lemma_push_distinct<A>(list: Seq<A>, x: A)
    requires
        list.no_duplicates(),
        !list.contains(x),
    ensures
        list.push(x).no_duplicates(),
{
    assert forall|i: int, j: int|
        0 <= i < list.push(x).len() && 0 <= j < list.push(x).len() && i != j implies list.push(
        x,
    )[i] != list.push(x)[j] by {
        if i == list.len() {
            assert(list.contains(list[j]));
        } else if j == list.len() {
            assert(list.contains(list[i]));
        }
    }
}

proof fn lemma_traced_distinct(
    edges: Seq<CallPathEdge>,
    goal: GoalView,
    current: Seq<char>,
    depth: nat,
    visited: Seq<Seq<char>>,
    chain: Seq<CallPathEdge>,
    paths: Seq<PathView>,
)
    requires
        edges.no_duplicates(),
        paths.no_duplicates(),
        apart(paths, paths_of(trails(edges, goal, current, depth, visited, chain))),
    ensures
        traced(edges, goal, current, depth, visited, chain, paths).no_duplicates(),
    decreases depth, 1nat, 0nat,
{
    if depth > 0 && paths.len() < MAX_CALL_PATHS {
        lemma_outgoing_distinct(edges, current);
        lemma_traced_calls_distinct(
            edges,
            goal,
            outgoing(edges, current),
            depth,
            visited,
            chain,
            paths,
        );
    }
}

proof fn lemma_traced_calls_distinct(
    edges: Seq<CallPathEdge>,
    goal: GoalView,
    calls: Seq<CallPathEdge>,
    depth: nat,
    visited: Seq<Seq<char>>,
    chain: Seq<CallPathEdge>,
    paths: Seq<PathView>,
)
    requires
        edges.no_duplicates(),
        calls.no_duplicates(),
        paths.no_duplicates(),
        apart(paths, paths_of(trails_along(edges, goal, calls, depth, visited, chain))),
    ensures
        traced_calls(edges, goal, calls, depth, visited, chain, paths).no_duplicates(),
    decreases depth, 0nat, calls.len(),
{
    if calls.len() > 0 && depth > 0 {
        let call = calls[0];
        let longer = chain.push(call);
        let here = if emits(goal, longer) {
            seq![longer]
        } else {
            Seq::<Seq<CallPathEdge>>::empty()
        };
        let found = if emits(goal, longer) {
            paths.push(path_of(longer))
        } else {
            paths
        };
        let behind = trails_behind(edges, goal, call, depth, visited, chain);
        let rest = trails_along(edges, goal, calls.drop_first(), depth, visited, chain);
        let all = trails_along(edges, goal, calls, depth, visited, chain);
        assert(all == here + behind + rest);
        assert forall|t: Seq<CallPathEdge>|
            here.contains(t) || behind.contains(t) || rest.contains(t) implies
            #[trigger] all.contains(t) by {
            lemma_contains_concat(here + behind, rest, t);
            lemma_contains_concat(here, behind, t);
        }
        assert forall|path: PathView| paths.contains(path) implies !paths_of(here).contains(path)
            && !paths_of(behind).contains(path) && !paths_of(rest).contains(path) by {
            lemma_paths_of_members(all, path);
            lemma_paths_of_members(here, path);
            lemma_paths_of_members(behind, path);
            lemma_paths_of_members(rest, path);
        }
        if emits(goal, longer) {
            assert(paths_of(here)[0] == path_of(longer));
            assert(paths_of(here).contains(path_of(longer)));
            assert(!paths.contains(path_of(longer)));
            lemma_push_distinct(paths, path_of(longer));
        }
        assert forall|path: PathView| found.contains(path) implies paths.contains(path) || path
            == path_of(longer) by {
            let i = choose|i: int| 0 <= i < found.len() && found[i] == path;
            if i < paths.len() {
                assert(paths[i] == path);
            }
        }
        assert(!paths_of(behind).contains(path_of(longer))) by {
            lemma_paths_of_members(behind, path_of(longer));
            if behind.contains(longer) {
                lemma_trails_behind_start(edges, goal, call, depth, visited, chain, longer);
            }
        }
        assert forall|t: Seq<CallPathEdge>|
            t == longer || behind.contains(t) implies !#[trigger] rest.contains(t) by {
            if rest.contains(t) {
                lemma_trails_along_start(
                    edges,
                    goal,
                    calls.drop_first(),
                    depth,
                    visited,
                    chain,
                    t,
                );
                if behind.contains(t) {
                    lemma_trails_behind_start(edges, goal, call, depth, visited, chain, t);
                }
                let others = calls.drop_first();
                let k = choose|k: int| 0 <= k < others.len() && others[k] == call;
                assert(calls[k + 1] == calls[0]);
            }
        }
        if !(emits(goal, longer) && found.len() >= MAX_CALL_PATHS) {
            let deeper = match callee(call) {
                Some(next) => if descends(goal, call) && !visited.contains(next) {
                    traced(
                        edges,
                        goal,
                        next,
                        (depth - 1) as nat,
                        visited.push(next),
                        longer,
                        found,
                    )
                } else {
                    found
                },
                None => found,
            };
            if callee(call) is Some && descends(goal, call) && !visited.contains(
                callee(call)->Some_0,
            ) {
                let next = callee(call)->Some_0;
                assert(apart(found, paths_of(behind)));
                lemma_traced_distinct(
                    edges,
                    goal,
                    next,
                    (depth - 1) as nat,
                    visited.push(next),
                    longer,
                    found,
                );
            }
            assert forall|path: PathView| #[trigger] deeper.contains(path) implies !paths_of(
                rest,
            ).contains(path) by {
                lemma_paths_of_members(rest, path);
                lemma_paths_of_members(behind, path);
                if !found.contains(path) {
                    let next = callee(call)->Some_0;
                    lemma_traced_finds_trails(
                        edges,
                        goal,
                        next,
                        (depth - 1) as nat,
                        visited.push(next),
                        longer,
                        found,
                        path,
                    );
                }
            }
            assert forall|i: int, j: int|
                0 <= i < calls.drop_first().len() && 0 <= j < calls.drop_first().len() && i
                    != j implies calls.drop_first()[i] != calls.drop_first()[j] by {
                assert(calls[i + 1] != calls[j + 1]);
            }
            lemma_traced_calls_distinct(
                edges,
                goal,
                calls.drop_first(),
                depth,
                visited,
                chain,
                deeper,
            );
        }
    }
}

/// Every path starts at a symbol that is none of `sources`.
spec fn begun_elsewhere(paths: Seq<PathView>, sources: Seq<Seq<char>>) -> bool {
    forall|path: PathView| #[trigger] paths.contains(path) ==> !sources.contains(start_of(path))
}

/// The symbol that a path starts at.
spec fn start_of(path: PathView) -> Seq<char> {
    path.edges[0].caller_symbol_id@
}

proof fn lemma_trail_starts(
    edges: Seq<CallPathEdge>,
    goal: GoalView,
    source: Seq<char>,
    depth: nat,
    path: PathView,
)
    requires
        paths_of(trails(edges, goal, source, depth, seq![source], Seq::empty())).contains(path),
    ensures
        start_of(path) == source,
{
    let chains = trails(edges, goal, source, depth, seq![source], Seq::empty());
    lemma_paths_of_members(chains, path);
    law_search_finds_exactly_the_simple_chains(edges, goal, source, depth, path.edges);
}

/// What one more source adds is new: it starts at that source.
proof fn lemma_source_distinct(
    edges: Seq<CallPathEdge>,
    goal: GoalView,
    sources: Seq<Seq<char>>,
    depth: nat,
    paths: Seq<PathView>,
)
    requires
        edges.no_duplicates(),
        sources.no_duplicates(),
        sources.len() > 0,
        paths.no_duplicates(),
        begun_elsewhere(paths, sources),
    ensures
        ({
            let next = traced(
                edges,
                goal,
                sources[0],
                depth,
                seq![sources[0]],
                Seq::empty(),
                paths,
            );
            next.no_duplicates() && begun_elsewhere(next, sources.drop_first())
        }),
{
    let source = sources[0];
    let start = seq![source];
    let next = traced(edges, goal, source, depth, start, Seq::empty(), paths);
    let new = paths_of(trails(edges, goal, source, depth, start, Seq::empty()));
    assert forall|path: PathView| #[trigger] paths.contains(path) implies !new.contains(path) by {
        if new.contains(path) {
            lemma_trail_starts(edges, goal, source, depth, path);
            assert(sources.contains(source));
        }
    }
    lemma_traced_distinct(edges, goal, source, depth, start, Seq::empty(), paths);
    lemma_rest_lacks_first(sources);
    let rest = sources.drop_first();
    assert forall|path: PathView| #[trigger] next.contains(path) implies !rest.contains(
        start_of(path),
    ) by {
        if paths.contains(path) {
            if rest.contains(start_of(path)) {
                let k = choose|k: int| 0 <= k < rest.len() && rest[k] == start_of(path);
                assert(sources[k + 1] == start_of(path));
            }
        } else {
            lemma_traced_finds_trails(
                edges,
                goal,
                source,
                depth,
                start,
                Seq::empty(),
                paths,
                path,
            );
            lemma_trail_starts(edges, goal, source, depth, path);
        }
    }
}

proof fn lemma_rest_lacks_first(sources: Seq<Seq<char>>)
    requires
        sources.no_duplicates(),
        sources.len() > 0,
    ensures
        sources.drop_first().no_duplicates(),
        !sources.drop_first().contains(sources[0]),
{
    let rest = sources.drop_first();
    assert forall|i: int, j: int|
        0 <= i < rest.len() && 0 <= j < rest.len() && i != j implies rest[i] != rest[j] by {
        assert(sources[i + 1] != sources[j + 1]);
    }
    if rest.contains(sources[0]) {
        let k = choose|k: int| 0 <= k < rest.len() && rest[k] == sources[0];
        assert(sources[k + 1] == sources[0]);
    }
}

proof fn lemma_searched_distinct(
    edges: Seq<CallPathEdge>,
    goal: GoalView,
    sources: Seq<Seq<char>>,
    depth: nat,
    paths: Seq<PathView>,
)
    requires
        edges.no_duplicates(),
        sources.no_duplicates(),
        paths.no_duplicates(),
        begun_elsewhere(paths, sources),
    ensures
        searched(edges, goal, sources, depth, paths).no_duplicates(),
    decreases sources.len(),
{
    if sources.len() > 0 {
        lemma_source_distinct(edges, goal, sources, depth, paths);
        lemma_rest_lacks_first(sources);
        let next = traced(
            edges,
            goal,
            sources[0],
            depth,
            seq![sources[0]],
            Seq::empty(),
            paths,
        );
        if next.len() < MAX_CALL_PATHS {
            lemma_searched_distinct(edges, goal, sources.drop_first(), depth, next);
        }
    }
}

proof fn lemma_transitive_distinct(paths: Seq<PathView>)
    requires
        paths.no_duplicates(),
    ensures
        transitive(paths).no_duplicates(),
    decreases paths.len(),
{
    reveal(Seq::filter);
    if paths.len() > 0 {
        let front = paths.drop_last();
        lemma_transitive_distinct(front);
        lemma_transitive_members(front, paths.last());
        if front.contains(paths.last()) {
            let k = choose|k: int| 0 <= k < front.len() && front[k] == paths.last();
            assert(paths[k] == paths[paths.len() - 1]);
        }
        if paths.last().hops > 1 {
            lemma_push_distinct(transitive(front), paths.last());
        }
    }
}

proof fn lemma_searched_to_distinct(
    edges: Seq<CallPathEdge>,
    query: Seq<char>,
    ids: Seq<Seq<char>>,
    sources: Seq<Seq<char>>,
    depth: nat,
    paths: Seq<PathView>,
)
    requires
        edges.no_duplicates(),
        sources.no_duplicates(),
        paths.no_duplicates(),
        begun_elsewhere(paths, sources),
    ensures
        searched_to(edges, query, ids, sources, depth, paths).no_duplicates(),
    decreases sources.len(),
{
    if sources.len() > 0 {
        let goal = GoalView::Target { query, ids };
        let source = sources[0];
        let rest = sources.drop_first();
        lemma_rest_lacks_first(sources);
        assert forall|path: PathView| #[trigger] paths.contains(path) implies !rest.contains(
            start_of(path),
        ) by {
            if rest.contains(start_of(path)) {
                let k = choose|k: int| 0 <= k < rest.len() && rest[k] == start_of(path);
                assert(sources[k + 1] == start_of(path));
            }
        }
        if ids.contains(source) {
            lemma_searched_to_distinct(edges, query, ids, rest, depth, paths);
        } else {
            let none = Seq::<PathView>::empty();
            let found = traced(edges, goal, source, depth, seq![source], Seq::empty(), none);
            let added = transitive(found);
            let next = paths + added;
            lemma_source_distinct(edges, goal, sources, depth, none);
            lemma_transitive_distinct(found);
            assert forall|path: PathView| #[trigger] added.contains(path) implies start_of(path)
                == source by {
                lemma_transitive_members(found, path);
                lemma_traced_finds_trails(
                    edges,
                    goal,
                    source,
                    depth,
                    seq![source],
                    Seq::empty(),
                    none,
                    path,
                );
                lemma_trail_starts(edges, goal, source, depth, path);
            }
            assert forall|i: int, j: int|
                0 <= i < next.len() && 0 <= j < next.len() && i != j implies next[i]
                != next[j] by {
                assert(i < paths.len() ==> paths.contains(next[i]));
                assert(j < paths.len() ==> paths.contains(next[j]));
                assert(i >= paths.len() ==> added.contains(next[i])) by {
                    if i >= paths.len() {
                        assert(added[i - paths.len()] == next[i]);
                    }
                }
                assert(j >= paths.len() ==> added.contains(next[j])) by {
                    if j >= paths.len() {
                        assert(added[j - paths.len()] == next[j]);
                    }
                }
                assert(sources.contains(source));
            }
            assert forall|path: PathView| #[trigger] next.contains(path) implies !rest.contains(
                start_of(path),
            ) by {
                lemma_contains_concat(paths, added, path);
            }
            if next.len() < MAX_CALL_PATHS {
                lemma_searched_to_distinct(edges, query, ids, rest, depth, next);
            }
        }
    }
}

/// No path is reported twice, where no call and no source is given twice.
pub proof fn law_no_path_is_reported_twice(
    edges: Seq<CallPathEdge>,
    goal: GoalView,
    query: Seq<char>,
    ids: Seq<Seq<char>>,
    sources: Seq<Seq<char>>,
    depth: nat,
)
    requires
        edges.no_duplicates(),
        sources.no_duplicates(),
    ensures
        capped(searched(edges, goal, sources, depth, Seq::empty())).no_duplicates(),
        capped(searched_to(edges, query, ids, sources, depth, Seq::empty())).no_duplicates(),
{
    lemma_searched_distinct(edges, goal, sources, depth, Seq::empty());
    lemma_searched_to_distinct(edges, query, ids, sources, depth, Seq::empty());
}

/// A path tells how many calls it has, how its last call was resolved, and its least confidence:
/// no more than 1 and no more than that of any call whose confidence is a number, and it is 1 or
/// that of some call.
pub proof fn law_paths_tell_their_least_confidence(chain: Seq<CallPathEdge>)
    requires
        chain.len() > 0,
    ensures
        ({
            let path = path_of(chain);
            let one = Real { bits: 0x3ff0_0000_0000_0000 };
            &&& path.edges == chain
            &&& path.hops == chain.len()
            &&& path.terminal_resolution_status == chain[chain.len() - 1].resolution_status@
            &&& one.at_least_spec(path.min_confidence)
            &&& forall|i: int|
                0 <= i < chain.len() && !(#[trigger] chain[i]).confidence.is_nan_spec()
                    ==> chain[i].confidence.at_least_spec(path.min_confidence)
            &&& path.min_confidence == one || exists|i: int|
                0 <= i < chain.len() && (#[trigger] chain[i]).confidence == path.min_confidence
        }),
    decreases chain.len(),
{
    let front = chain.drop_last();
    if front.len() > 0 {
        law_paths_tell_their_least_confidence(front);
        let least = least_confidence(front);
        assert forall|i: int|
            0 <= i < chain.len() && !(#[trigger] chain[i]).confidence.is_nan_spec() implies
            chain[i].confidence.at_least_spec(least_confidence(chain)) by {
            if i < front.len() {
                assert(front[i] == chain[i]);
            }
        }
        if least_confidence(chain) == least && least != (Real { bits: 0x3ff0_0000_0000_0000 }) {
            let i = choose|i: int|
                0 <= i < front.len() && (#[trigger] front[i]).confidence == least;
            assert(chain[i].confidence == least_confidence(chain));
        }
    } else {
        assert(least_confidence(front) == Real { bits: 0x3ff0_0000_0000_0000 });
    }
    assert(chain[chain.len() - 1] == chain.last());
}

/// A search for a target reports a chain exactly when its last call is one of the target: it
/// resolves to one of the symbols, or its text, the name or the qualified name of what it calls is
/// the query. Behind such a call it does not go on. A search without a target reports the chains
/// of two calls or more, and always goes on.
pub proof fn law_searches_end_at_calls_of_the_target(
    chain: Seq<CallPathEdge>,
    call: CallPathEdge,
    query: Seq<char>,
    ids: Seq<Seq<char>>,
)
    ensures
        ({
            let resolved = exists|i: int|
                0 <= i < ids.len() && optional_text(call.callee_symbol_id) == Some(
                    #[trigger] ids[i],
                );
            let named = call.callee_text@ == query || optional_text(call.callee_symbol_name)
                == Some(query) || optional_text(call.callee_symbol_qualified_name) == Some(query);
            let goal = GoalView::Target { query, ids };
            &&& emits(goal, chain.push(call)) <==> resolved || named
            &&& descends(goal, call) <==> !resolved && !named
            &&& emits(GoalView::Beyond, chain.push(call)) <==> chain.len() >= 1
            &&& descends(GoalView::Beyond, call)
        }),
{
    assert(chain.push(call).last() == call);
    if callee(call) is Some && ids.contains(callee(call)->Some_0) {
        let i = choose|i: int| 0 <= i < ids.len() && ids[i] == callee(call)->Some_0;
        assert(optional_text(call.callee_symbol_id) == Some(ids[i]));
    }
}

/// A search goes at least one and at most eight calls deep, gives at most fifty paths, the first
/// ones of those that it finds, and goes on from a symbol along exactly the calls that it makes. A
/// path of no calls is as confident as can be and unresolved.
pub proof fn law_searches_are_limited(
    depth: nat,
    paths: Seq<PathView>,
    edges: Seq<CallPathEdge>,
    call: CallPathEdge,
    symbol: Seq<char>,
    i: int,
)
    ensures
        1 <= clamped(depth) <= 8,
        1 <= depth <= 8 ==> clamped(depth) == depth,
        depth > 8 ==> clamped(depth) == 8,
        capped(paths).len() <= 50,
        paths.len() <= 50 ==> capped(paths) == paths,
        paths.len() > 50 ==> capped(paths).len() == 50,
        0 <= i < capped(paths).len() ==> capped(paths)[i] == paths[i],
        outgoing(edges, symbol).contains(call) <==> edges.contains(call) && call.caller_symbol_id@
            == symbol,
        path_of(Seq::empty()).hops == 0,
        path_of(Seq::empty()).terminal_resolution_status == "unresolved"@,
        path_of(Seq::empty()).min_confidence == (Real { bits: 0x3ff0_0000_0000_0000 }),
{
    broadcast use vstd::seq_lib::group_filter_ensures;
    broadcast use vstd::seq::Seq::lemma_filter_contains_rev;

    let made = outgoing(edges, symbol);
    if made.contains(call) {
        let k = choose|k: int| 0 <= k < made.len() && made[k] == call;
        assert(made[k].caller_symbol_id@ == symbol);
    }
    if edges.contains(call) && call.caller_symbol_id@ == symbol {
        let k = choose|k: int| 0 <= k < edges.len() && edges[k] == call;
        assert(made.contains(edges[k]));
    }
}

} // verus!
