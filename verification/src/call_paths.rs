//! Chains of calls: the depth-first search for paths between symbols, and what it finds.

use vstd::prelude::*;
use crate::records::{CallPath, CallPathEdge, EvidenceProvenance};
use crate::sql::{Real, ONE_BITS};
use crate::text::{contains_text, copy_optional, optional_text, texts};

verus! {

/// The longest chain of calls that is searched for.
pub const MAX_CALL_PATH_DEPTH: usize = 8;

/// The number of paths after which a search stops.
pub const MAX_CALL_PATHS: usize = 50;

/// The depth that is searched when `depth` is asked for.
pub open spec fn clamped(depth: nat) -> nat {
    if depth < 1 {
        1
    } else if depth > MAX_CALL_PATH_DEPTH {
        MAX_CALL_PATH_DEPTH as nat
    } else {
        depth
    }
}

pub fn clamp_call_path_depth(depth: usize) -> (r: usize)
    ensures
        r == clamped(depth as nat),
        1 <= r <= MAX_CALL_PATH_DEPTH,
        1 <= depth <= MAX_CALL_PATH_DEPTH ==> r == depth,
{
    if depth < 1 {
        1
    } else if depth > MAX_CALL_PATH_DEPTH {
        MAX_CALL_PATH_DEPTH
    } else {
        depth
    }
}

/// The symbol that a call resolves to.
pub open spec fn callee(edge: CallPathEdge) -> Option<Seq<char>> {
    optional_text(edge.callee_symbol_id)
}

/// The calls that a symbol makes, in the order of all calls.
pub open spec fn outgoing(edges: Seq<CallPathEdge>, symbol: Seq<char>) -> Seq<CallPathEdge> {
    edges.filter(|edge: CallPathEdge| edge.caller_symbol_id@ == symbol)
}

/// What a search looks for.
pub enum Goal<'a> {
    /// Paths that end at a call of a symbol in `ids`, or of something called `query`.
    Target { query: &'a str, ids: &'a Vec<String> },
    /// All paths of more than one call.
    Beyond,
}

/// The mathematical reading of a goal.
#[verifier::ext_equal]
pub enum GoalView {
    Target { query: Seq<char>, ids: Seq<Seq<char>> },
    Beyond,
}

impl<'a> View for Goal<'a> {
    type V = GoalView;

    open spec fn view(&self) -> GoalView {
        match *self {
            Goal::Target { query, ids } => GoalView::Target { query: query@, ids: texts(ids@) },
            Goal::Beyond => GoalView::Beyond,
        }
    }
}

/// Whether a call is one of the target: by the symbol it resolves to, by the text of the call,
/// or by the name of the symbol.
pub open spec fn reaches(edge: CallPathEdge, query: Seq<char>, ids: Seq<Seq<char>>) -> bool {
    ||| callee(edge) matches Some(id) && ids.contains(id)
    ||| edge.callee_text@ == query
    ||| optional_text(edge.callee_symbol_name) == Some(query)
    ||| optional_text(edge.callee_symbol_qualified_name) == Some(query)
}

/// Whether the chain that ends with the call just added is a path to report.
pub open spec fn emits(goal: GoalView, chain: Seq<CallPathEdge>) -> bool {
    match goal {
        GoalView::Target { query, ids } => reaches(chain.last(), query, ids),
        GoalView::Beyond => chain.len() > 1,
    }
}

/// Whether the search goes on behind a call.
pub open spec fn descends(goal: GoalView, edge: CallPathEdge) -> bool {
    match goal {
        GoalView::Target { query, ids } => !reaches(edge, query, ids),
        GoalView::Beyond => true,
    }
}

/// The mathematical reading of a path.
#[verifier::ext_equal]
pub struct PathView {
    pub hops: nat,
    pub min_confidence: Real,
    pub terminal_resolution_status: Seq<char>,
    pub edges: Seq<CallPathEdge>,
}

impl View for CallPath {
    type V = PathView;

    open spec fn view(&self) -> PathView {
        PathView {
            hops: self.hops as nat,
            min_confidence: self.min_confidence,
            terminal_resolution_status: self.terminal_resolution_status@,
            edges: self.edges@,
        }
    }
}

pub open spec fn path_views(paths: Seq<CallPath>) -> Seq<PathView> {
    Seq::new(paths.len(), |i: int| paths[i]@)
}

/// The least confidence of a chain, and 1 at most.
pub open spec fn least_confidence(chain: Seq<CallPathEdge>) -> Real
    decreases chain.len(),
{
    if chain.len() == 0 {
        Real { bits: ONE_BITS }
    } else {
        least_confidence(chain.drop_last()).min_spec(chain.last().confidence)
    }
}

/// The path that a chain of calls makes.
pub open spec fn path_of(chain: Seq<CallPathEdge>) -> PathView {
    PathView {
        hops: chain.len(),
        min_confidence: least_confidence(chain),
        terminal_resolution_status: if chain.len() == 0 {
            "unresolved"@
        } else {
            chain.last().resolution_status@
        },
        edges: chain,
    }
}

/// The paths after a search from `current`, where `paths` were known before.
pub open spec fn traced(
    edges: Seq<CallPathEdge>,
    goal: GoalView,
    current: Seq<char>,
    depth: nat,
    visited: Seq<Seq<char>>,
    chain: Seq<CallPathEdge>,
    paths: Seq<PathView>,
) -> Seq<PathView>
    decreases depth, 1nat, 0nat,
{
    if depth == 0 || paths.len() >= MAX_CALL_PATHS {
        paths
    } else {
        traced_calls(edges, goal, outgoing(edges, current), depth, visited, chain, paths)
    }
}

/// The paths after a search along `calls`, all made by the symbol at the end of `chain`.
pub open spec fn traced_calls(
    edges: Seq<CallPathEdge>,
    goal: GoalView,
    calls: Seq<CallPathEdge>,
    depth: nat,
    visited: Seq<Seq<char>>,
    chain: Seq<CallPathEdge>,
    paths: Seq<PathView>,
) -> Seq<PathView>
    decreases depth, 0nat, calls.len(),
{
    if calls.len() == 0 || depth == 0 {
        paths
    } else {
        let longer = chain.push(calls[0]);
        let found = if emits(goal, longer) {
            paths.push(path_of(longer))
        } else {
            paths
        };
        if emits(goal, longer) && found.len() >= MAX_CALL_PATHS {
            found
        } else {
            let behind = match callee(calls[0]) {
                Some(next) => if descends(goal, calls[0]) && !visited.contains(next) {
                    traced(
                        edges,
                        goal,
                        next,
                        (depth - 1) as nat,
                        visited.push(next),
                        longer,
                        found,
                    )
                } else {
                    found
                },
                None => found,
            };
            traced_calls(edges, goal, calls.drop_first(), depth, visited, chain, behind)
        }
    }
}

/// The calls of one symbol, by their places among all calls.
struct CallerGroup {
    caller: String,
    members: Vec<usize>,
}

/// All calls of a repository, grouped by the symbol that makes them.
pub struct CallGraph {
    edges: Vec<CallPathEdge>,
    groups: Vec<CallerGroup>,
}

/// The calls at the given places.
spec fn at_places(edges: Seq<CallPathEdge>, places: Seq<usize>) -> Seq<CallPathEdge> {
    Seq::new(places.len(), |k: int| edges[places[k] as int])
}

/// The group lists the calls of its caller among the first `n` calls.
spec fn group_holds(edges: Seq<CallPathEdge>, n: int, group: CallerGroup) -> bool {
    &&& forall|k: int| 0 <= k < group.members@.len() ==> #[trigger] group.members@[k] < n
    &&& at_places(edges, group.members@) == outgoing(edges.take(n), group.caller@)
}

/// The groups list the first `n` calls.
spec fn groups_hold(edges: Seq<CallPathEdge>, n: int, groups: Seq<CallerGroup>) -> bool {
    &&& forall|g: int| 0 <= g < groups.len() ==> group_holds(edges, n, #[trigger] groups[g])
    &&& forall|i: int|
        0 <= i < n ==> exists|g: int|
            0 <= g < groups.len() && groups[g].caller@ == (#[trigger] edges[i]).caller_symbol_id@
    &&& forall|g: int, h: int|
        0 <= g < h < groups.len() ==> (#[trigger] groups[g]).caller@ != (
        #[trigger] groups[h]).caller@
}

proof fn lemma_outgoing_push(edges: Seq<CallPathEdge>, n: int, symbol: Seq<char>)
    requires
        0 <= n < edges.len(),
    ensures
        outgoing(edges.take(n + 1), symbol) == if edges[n].caller_symbol_id@ == symbol {
            outgoing(edges.take(n), symbol).push(edges[n])
        } else {
            outgoing(edges.take(n), symbol)
        },
{
    reveal(Seq::filter);
    assert(edges.take(n + 1).drop_last() =~= edges.take(n));
    assert(edges.take(n + 1).last() == edges[n]);
}

proof fn lemma_outgoing_none(edges: Seq<CallPathEdge>, symbol: Seq<char>)
    requires
        forall|i: int|
            0 <= i < edges.len() ==> (#[trigger] edges[i]).caller_symbol_id@ != symbol,
    ensures
        outgoing(edges, symbol) == Seq::<CallPathEdge>::empty(),
    decreases edges.len(),
{
    reveal(Seq::filter);
    if edges.len() > 0 {
        let front = edges.drop_last();
        assert forall|i: int| 0 <= i < front.len() implies (
        #[trigger] front[i]).caller_symbol_id@ != symbol by {
            assert(front[i] == edges[i]);
        }
        lemma_outgoing_none(front, symbol);
        assert(edges.last() == edges[edges.len() - 1]);
    } else {
        assert(outgoing(edges, symbol) =~= Seq::<CallPathEdge>::empty());
    }
}

impl CallGraph {
    /// The calls of the graph, in order.
    pub closed spec fn view(&self) -> Seq<CallPathEdge> {
        self.edges@
    }

    #[verifier::type_invariant]
    spec fn wf(self) -> bool {
        groups_hold(self.edges@, self.edges@.len() as int, self.groups@)
    }

    /// Groups the calls by caller.
    pub fn new(edges: Vec<CallPathEdge>) -> (r: CallGraph)
        ensures
            r@ == edges@,
    {
        let mut groups: Vec<CallerGroup> = Vec::new();
        let mut i: usize = 0;
        while i < edges.len()
            invariant
                i <= edges.len(),
                groups_hold(edges@, i as int, groups@),
            decreases edges.len() - i,
        {
            let caller = &edges[i].caller_symbol_id;
            let mut g: usize = 0;
            while g < groups.len() && groups[g].caller != *caller
                invariant
                    g <= groups.len(),
                    *caller == edges@[i as int].caller_symbol_id,
                    forall|h: int| 0 <= h < g ==> (#[trigger] groups@[h]).caller@ != caller@,
                decreases groups.len() - g,
            {
                g = g + 1;
            }
            let ghost before = groups@;
            proof {
                assert forall|h: int| 0 <= h < before.len() implies outgoing(
                    edges@.take(i + 1),
                    (#[trigger] before[h]).caller@,
                ) == if edges@[i as int].caller_symbol_id@ == before[h].caller@ {
                    outgoing(edges@.take(i as int), before[h].caller@).push(edges@[i as int])
                } else {
                    outgoing(edges@.take(i as int), before[h].caller@)
                } by {
                    lemma_outgoing_push(edges@, i as int, before[h].caller@);
                }
            }
            if g < groups.len() {
                let mut group = groups.remove(g);
                let ghost members = group.members@;
                group.members.push(i);
                groups.insert(g, group);
                proof {
                    assert(groups@ =~= before.update(g as int, groups@[g as int]));
                    assert(groups@[g as int].members@ == members.push(i));
                    assert(at_places(edges@, members.push(i)) =~= at_places(edges@, members).push(
                        edges@[i as int],
                    ));
                    assert forall|h: int| 0 <= h < groups@.len() implies group_holds(
                        edges@,
                        i + 1,
                        #[trigger] groups@[h],
                    ) by {
                        assert(group_holds(edges@, i as int, before[h]));
                        if h != g {
                            assert(before[h].caller@ != before[g as int].caller@);
                        }
                    }
                    assert forall|k: int| 0 <= k < i + 1 implies exists|h: int|
                        0 <= h < groups@.len() && groups@[h].caller@ == (
                        #[trigger] edges@[k]).caller_symbol_id@ by {
                        if k == i {
                            assert(groups@[g as int].caller@ == edges@[k].caller_symbol_id@);
                        } else {
                            let h = choose|h: int|
                                0 <= h < before.len() && before[h].caller@
                                    == edges@[k].caller_symbol_id@;
                            assert(groups@[h].caller@ == before[h].caller@);
                        }
                    }
                }
            } else {
                let mut members: Vec<usize> = Vec::new();
                members.push(i);
                groups.push(CallerGroup { caller: caller.clone(), members });
                proof {
                    let last = groups@[g as int];
                    assert forall|k: int| 0 <= k < i implies (
                    #[trigger] edges@.take(i as int)[k]).caller_symbol_id@ != caller@ by {
                        let h = choose|h: int|
                            0 <= h < before.len() && before[h].caller@
                                == edges@[k].caller_symbol_id@;
                        assert(before[h].caller@ != caller@);
                    }
                    lemma_outgoing_none(edges@.take(i as int), caller@);
                    lemma_outgoing_push(edges@, i as int, caller@);
                    assert(at_places(edges@, last.members@) =~= seq![edges@[i as int]]);
                    assert(outgoing(edges@.take(i as int), caller@).push(edges@[i as int])
                        =~= seq![edges@[i as int]]);
                    assert forall|h: int| 0 <= h < groups@.len() implies group_holds(
                        edges@,
                        i + 1,
                        #[trigger] groups@[h],
                    ) by {
                        if h < before.len() {
                            assert(group_holds(edges@, i as int, before[h]));
                        }
                    }
                    assert forall|k: int| 0 <= k < i + 1 implies exists|h: int|
                        0 <= h < groups@.len() && groups@[h].caller@ == (
                        #[trigger] edges@[k]).caller_symbol_id@ by {
                        if k == i {
                            assert(groups@[g as int].caller@ == edges@[k].caller_symbol_id@);
                        } else {
                            let h = choose|h: int|
                                0 <= h < before.len() && before[h].caller@
                                    == edges@[k].caller_symbol_id@;
                            assert(groups@[h].caller@ == before[h].caller@);
                        }
                    }
                }
            }
            i = i + 1;
        }
        CallGraph { edges, groups }
    }

    /// The places of the calls that a symbol makes.
    fn calls_of(&self, symbol: &String) -> (r: Option<&Vec<usize>>)
        ensures
            match r {
                Some(places) => {
                    &&& at_places(self@, places@) == outgoing(self@, symbol@)
                    &&& forall|k: int|
                        0 <= k < places@.len() ==> #[trigger] places@[k] < self.edges@.len()
                },
                None => outgoing(self@, symbol@).len() == 0,
            },
    {
        proof {
            use_type_invariant(self);
            assert(self.edges@.take(self.edges@.len() as int) =~= self.edges@);
        }
        let mut g: usize = 0;
        while g < self.groups.len()
            invariant
                g <= self.groups.len(),
                groups_hold(self.edges@, self.edges@.len() as int, self.groups@),
                self.edges@.take(self.edges@.len() as int) == self.edges@,
                forall|h: int| 0 <= h < g ==> (#[trigger] self.groups@[h]).caller@ != symbol@,
            decreases self.groups.len() - g,
        {
            if self.groups[g].caller == *symbol {
                proof {
                    assert(group_holds(
                        self.edges@,
                        self.edges@.len() as int,
                        self.groups@[g as int],
                    ));
                }
                return Some(&self.groups[g].members);
            }
            g = g + 1;
        }
        proof {
            assert forall|i: int| 0 <= i < self.edges@.len() implies (
            #[trigger] self.edges@[i]).caller_symbol_id@ != symbol@ by {
                let h = choose|h: int|
                    0 <= h < self.groups@.len() && self.groups@[h].caller@
                        == self.edges@[i].caller_symbol_id@;
                assert(self.groups@[h].caller@ != symbol@);
            }
            lemma_outgoing_none(self.edges@, symbol@);
        }
        None
    }
}

fn copy_provenance(value: &EvidenceProvenance) -> (r: EvidenceProvenance)
    ensures
        r == *value,
{
    EvidenceProvenance {
        content_hash: copy_optional(&value.content_hash),
        index_run_id: copy_optional(&value.index_run_id),
        parser_version: copy_optional(&value.parser_version),
        indexed_at: copy_optional(&value.indexed_at),
        embedding_model: copy_optional(&value.embedding_model),
        embedding_dimension: value.embedding_dimension,
        embedded_at: copy_optional(&value.embedded_at),
    }
}

fn copy_edge(edge: &CallPathEdge) -> (r: CallPathEdge)
    ensures
        r == *edge,
{
    CallPathEdge {
        call_id: edge.call_id.clone(),
        caller_symbol_id: edge.caller_symbol_id.clone(),
        caller_symbol_name: edge.caller_symbol_name.clone(),
        caller_symbol_qualified_name: edge.caller_symbol_qualified_name.clone(),
        caller_symbol_kind: edge.caller_symbol_kind.clone(),
        caller_path: edge.caller_path.clone(),
        caller_start_line: edge.caller_start_line,
        caller_end_line: edge.caller_end_line,
        callee_text: edge.callee_text.clone(),
        callee_symbol_id: copy_optional(&edge.callee_symbol_id),
        callee_symbol_name: copy_optional(&edge.callee_symbol_name),
        callee_symbol_qualified_name: copy_optional(&edge.callee_symbol_qualified_name),
        callee_symbol_kind: copy_optional(&edge.callee_symbol_kind),
        callee_path: copy_optional(&edge.callee_path),
        callee_start_line: edge.callee_start_line,
        callee_end_line: edge.callee_end_line,
        call_line: edge.call_line,
        confidence: edge.confidence,
        resolution_status: edge.resolution_status.clone(),
        provenance: copy_provenance(&edge.provenance),
    }
}

/// The path that a chain of calls makes.
pub fn call_path_from_edges(edges: &Vec<CallPathEdge>) -> (r: CallPath)
    ensures
        r@ == path_of(edges@),
{
    let mut copied: Vec<CallPathEdge> = Vec::new();
    let mut least = Real { bits: ONE_BITS };
    for i in 0..edges.len()
        invariant
            copied@ == edges@.take(i as int),
            least == least_confidence(edges@.take(i as int)),
    {
        copied.push(copy_edge(&edges[i]));
        least = least.min(edges[i].confidence);
        proof {
            assert(edges@.take(i + 1).drop_last() =~= edges@.take(i as int));
            assert(copied@ =~= edges@.take(i + 1));
        }
    }
    proof {
        assert(edges@.take(edges.len() as int) =~= edges@);
    }
    let terminal = if edges.len() == 0 {
        "unresolved".to_owned()
    } else {
        edges[edges.len() - 1].resolution_status.clone()
    };
    CallPath {
        hops: edges.len(),
        min_confidence: least,
        terminal_resolution_status: terminal,
        edges: copied,
    }
}

fn names(value: &Option<String>, query: &str) -> (r: bool)
    ensures
        r == (optional_text(*value) == Some(query@)),
{
    match value {
        Some(name) => crate::text::same(name.as_str(), query),
        None => false,
    }
}

/// Whether a call is one of the target.
pub fn call_edge_reaches_target(
    edge: &CallPathEdge,
    target_query: &str,
    target_ids: &Vec<String>,
) -> (r: bool)
    ensures
        r == reaches(*edge, target_query@, texts(target_ids@)),
{
    let by_symbol = match &edge.callee_symbol_id {
        Some(id) => contains_text(target_ids, id.as_str()),
        None => false,
    };
    by_symbol || crate::text::same(edge.callee_text.as_str(), target_query) || names(
        &edge.callee_symbol_name,
        target_query,
    ) || names(&edge.callee_symbol_qualified_name, target_query)
}

impl<'a> Goal<'a> {
    fn emit(&self, chain: &Vec<CallPathEdge>) -> (r: bool)
        requires
            chain@.len() > 0,
        ensures
            r == emits(self@, chain@),
    {
        match self {
            Goal::Target { query, ids } => call_edge_reaches_target(
                &chain[chain.len() - 1],
                query,
                ids,
            ),
            Goal::Beyond => chain.len() > 1,
        }
    }

    fn descend(&self, edge: &CallPathEdge) -> (r: bool)
        ensures
            r == descends(self@, *edge),
    {
        match self {
            Goal::Target { query, ids } => !call_edge_reaches_target(edge, query, ids),
            Goal::Beyond => true,
        }
    }
}

/// Searches depth-first from `current`, and adds the paths that it finds to `paths`.
fn trace(
    graph: &CallGraph,
    goal: &Goal<'_>,
    current: &String,
    remaining_depth: usize,
    visited: &mut Vec<String>,
    stack: &mut Vec<CallPathEdge>,
    paths: &mut Vec<CallPath>,
)
    ensures
        final(visited)@ == old(visited)@,
        final(stack)@ == old(stack)@,
        path_views(final(paths)@) == traced(
            graph@,
            goal@,
            current@,
            remaining_depth as nat,
            texts(old(visited)@),
            old(stack)@,
            path_views(old(paths)@),
        ),
    decreases remaining_depth,
{
    if remaining_depth == 0 || paths.len() >= MAX_CALL_PATHS {
        return ;
    }
    let ghost calls = outgoing(graph@, current@);
    match graph.calls_of(current) {
        None => {},
        Some(places) => {
            let mut k: usize = 0;
            let ghost goal_paths = traced(
                graph@,
                goal@,
                current@,
                remaining_depth as nat,
                texts(visited@),
                stack@,
                path_views(paths@),
            );
            proof {
                assert(calls.skip(0) =~= calls);
            }
            while k < places.len()
                invariant
                    k <= places.len(),
                    remaining_depth > 0,
                    visited@ == old(visited)@,
                    stack@ == old(stack)@,
                    calls == outgoing(graph@, current@),
                    at_places(graph@, places@) == calls,
                    forall|j: int|
                        0 <= j < places@.len() ==> #[trigger] places@[j] < graph.edges@.len(),
                    goal_paths == traced(
                        graph@,
                        goal@,
                        current@,
                        remaining_depth as nat,
                        texts(old(visited)@),
                        old(stack)@,
                        path_views(old(paths)@),
                    ),
                    goal_paths == traced_calls(
                        graph@,
                        goal@,
                        calls.skip(k as int),
                        remaining_depth as nat,
                        texts(visited@),
                        stack@,
                        path_views(paths@),
                    ),
                decreases places.len() - k,
            {
                let edge = &graph.edges[places[k]];
                let ghost rest = calls.skip(k as int);
                let ghost known = path_views(paths@);
                let ghost chain = stack@;
                proof {
                    assert(at_places(graph@, places@)[k as int] == *edge);
                    assert(rest[0] == *edge);
                    assert(rest.drop_first() =~= calls.skip(k + 1));
                }
                stack.push(copy_edge(edge));
                if goal.emit(stack) {
                    paths.push(call_path_from_edges(stack));
                    proof {
                        assert(path_views(paths@) =~= known.push(path_of(chain.push(*edge))));
                    }
                    if paths.len() >= MAX_CALL_PATHS {
                        stack.pop();
                        proof {
                            assert(stack@ =~= chain);
                        }
                        return ;
                    }
                }
                let ghost found = path_views(paths@);
                if goal.descend(edge) {
                    if let Some(next) = &edge.callee_symbol_id {
                        if !contains_text(visited, next.as_str()) {
                            let ghost seen = visited@;
                            visited.push(next.clone());
                            proof {
                                assert(texts(visited@) =~= texts(seen).push(next@));
                            }
                            trace(
                                graph,
                                goal,
                                next,
                                remaining_depth - 1,
                                visited,
                                stack,
                                paths,
                            );
                            visited.pop();
                            proof {
                                assert(visited@ =~= seen);
                            }
                        }
                    }
                }
                stack.pop();
                proof {
                    assert(stack@ =~= chain);
                }
                k = k + 1;
            }
            proof {
                assert(calls.skip(k as int).len() == 0);
            }
        },
    }
}


/// The first paths, as many as a search reports.
pub open spec fn capped(paths: Seq<PathView>) -> Seq<PathView> {
    if paths.len() <= MAX_CALL_PATHS {
        paths
    } else {
        paths.take(MAX_CALL_PATHS as int)
    }
}

/// The paths found from the sources in turn, until there are enough.
pub open spec fn searched(
    edges: Seq<CallPathEdge>,
    goal: GoalView,
    sources: Seq<Seq<char>>,
    depth: nat,
    paths: Seq<PathView>,
) -> Seq<PathView>
    decreases sources.len(),
{
    if sources.len() == 0 {
        paths
    } else {
        let next = traced(
            edges,
            goal,
            sources[0],
            depth,
            seq![sources[0]],
            Seq::empty(),
            paths,
        );
        if next.len() >= MAX_CALL_PATHS {
            next
        } else {
            searched(edges, goal, sources.drop_first(), depth, next)
        }
    }
}

fn keep_first(paths: &mut Vec<CallPath>)
    ensures
        path_views(final(paths)@) == capped(path_views(old(paths)@)),
{
    if paths.len() > MAX_CALL_PATHS {
        paths.truncate(MAX_CALL_PATHS);
    }
    proof {
        assert(path_views(paths@) =~= capped(path_views(old(paths)@)));
    }
}

fn search(
    graph: &CallGraph,
    goal: &Goal<'_>,
    sources: &Vec<String>,
    depth: usize,
) -> (r: Vec<CallPath>)
    ensures
        path_views(r@) == capped(
            searched(graph@, goal@, texts(sources@), depth as nat, Seq::empty()),
        ),
{
    let mut paths: Vec<CallPath> = Vec::new();
    let mut i: usize = 0;
    let ghost all = searched(graph@, goal@, texts(sources@), depth as nat, Seq::empty());
    proof {
        assert(path_views(paths@) =~= Seq::empty());
        assert(texts(sources@).skip(0) =~= texts(sources@));
    }
    while i < sources.len()
        invariant_except_break
            all == searched(
                graph@,
                goal@,
                texts(sources@).skip(i as int),
                depth as nat,
                path_views(paths@),
            ),
        invariant
            i <= sources.len(),
        ensures
            path_views(paths@) == all,
        decreases sources.len() - i,
    {
        let ghost rest = texts(sources@).skip(i as int);
        let mut visited: Vec<String> = Vec::new();
        visited.push(sources[i].clone());
        let mut stack: Vec<CallPathEdge> = Vec::new();
        proof {
            assert(rest[0] == sources@[i as int]@);
            assert(texts(visited@) =~= seq![rest[0]]);
            assert(rest.drop_first() =~= texts(sources@).skip(i + 1));
            assert(stack@ =~= Seq::empty());
        }
        trace(graph, goal, &sources[i], depth, &mut visited, &mut stack, &mut paths);
        if paths.len() >= MAX_CALL_PATHS {
            break ;
        }
        i = i + 1;
    }
    keep_first(&mut paths);
    paths
}

/// The chains of calls from one of the sources to the target, the first 50 at most.
///
/// `targets` are the symbols that `target_query` resolves to; a call also counts as one of the
/// target when its text or the name of its symbol is `target_query`.
pub fn paths_between(
    sources: &Vec<String>,
    targets: &Vec<String>,
    edges: Vec<CallPathEdge>,
    target_query: &str,
    max_depth: usize,
) -> (r: Vec<CallPath>)
    ensures
        path_views(r@) == capped(
            searched(
                edges@,
                GoalView::Target { query: target_query@, ids: texts(targets@) },
                texts(sources@),
                clamped(max_depth as nat),
                Seq::empty(),
            ),
        ),
{
    let graph = CallGraph::new(edges);
    let goal = Goal::Target { query: target_query, ids: targets };
    search(&graph, &goal, sources, clamp_call_path_depth(max_depth))
}

/// The chains of more than one call that start at one of the sources, the first 50 at most.
pub fn paths_beyond(
    sources: &Vec<String>,
    edges: Vec<CallPathEdge>,
    max_depth: usize,
) -> (r: Vec<CallPath>)
    ensures
        path_views(r@) == capped(
            searched(
                edges@,
                GoalView::Beyond,
                texts(sources@),
                clamped(max_depth as nat),
                Seq::empty(),
            ),
        ),
{
    let graph = CallGraph::new(edges);
    let goal = Goal::Beyond;
    search(&graph, &goal, sources, clamp_call_path_depth(max_depth))
}

/// The paths of more than one call.
pub open spec fn transitive(paths: Seq<PathView>) -> Seq<PathView> {
    paths.filter(|path: PathView| path.hops > 1)
}

/// The paths of more than one call that lead from a source other than the target to the target.
pub open spec fn searched_to(
    edges: Seq<CallPathEdge>,
    query: Seq<char>,
    ids: Seq<Seq<char>>,
    sources: Seq<Seq<char>>,
    depth: nat,
    paths: Seq<PathView>,
) -> Seq<PathView>
    decreases sources.len(),
{
    if sources.len() == 0 {
        paths
    } else if ids.contains(sources[0]) {
        searched_to(edges, query, ids, sources.drop_first(), depth, paths)
    } else {
        let next = paths + transitive(
            traced(
                edges,
                GoalView::Target { query, ids },
                sources[0],
                depth,
                seq![sources[0]],
                Seq::empty(),
                Seq::empty(),
            ),
        );
        if next.len() >= MAX_CALL_PATHS {
            next
        } else {
            searched_to(edges, query, ids, sources.drop_first(), depth, next)
        }
    }
}

/// Adds the paths of more than one call.
fn add_transitive(paths: &mut Vec<CallPath>, found: Vec<CallPath>)
    ensures
        path_views(final(paths)@) == path_views(old(paths)@) + transitive(path_views(found@)),
{
    let ghost before = path_views(paths@);
    let ghost all = path_views(found@);
    proof {
        reveal(Seq::filter);
        assert(all.take(0) =~= Seq::empty());
        assert(before + transitive(all.take(0)) =~= before);
    }
    for path in it: found
        invariant
            it.seq() == found@,
            all == path_views(found@),
            path_views(paths@) == before + transitive(all.take(it.index() as int)),
    {
        let ghost known = path_views(paths@);
        let ghost n = it.index() as int;
        proof {
            reveal(Seq::filter);
            assert(all.take(n + 1).drop_last() =~= all.take(n));
            assert(all.take(n + 1).last() == all[n]);
            assert(path@ == all[n]);
        }
        if path.hops > 1 {
            paths.push(path);
            proof {
                assert(path_views(paths@) =~= known.push(all[n]));
                assert(known.push(all[n]) =~= before + transitive(all.take(n)).push(all[n]));
            }
        }
    }
    proof {
        assert(all.take(all.len() as int) =~= all);
    }
}

/// The chains of more than one call that lead to the target, the first 50 at most. Sources that
/// are the target themselves are left out.
pub fn transitive_paths_to(
    sources: &Vec<String>,
    targets: &Vec<String>,
    edges: Vec<CallPathEdge>,
    target_query: &str,
    max_depth: usize,
) -> (r: Vec<CallPath>)
    ensures
        path_views(r@) == capped(
            searched_to(
                edges@,
                target_query@,
                texts(targets@),
                texts(sources@),
                clamped(max_depth as nat),
                Seq::empty(),
            ),
        ),
{
    let depth = clamp_call_path_depth(max_depth);
    let graph = CallGraph::new(edges);
    let goal = Goal::Target { query: target_query, ids: targets };
    let mut paths: Vec<CallPath> = Vec::new();
    let mut i: usize = 0;
    let ghost all = searched_to(
        graph@,
        target_query@,
        texts(targets@),
        texts(sources@),
        depth as nat,
        Seq::empty(),
    );
    proof {
        assert(path_views(paths@) =~= Seq::empty());
        assert(texts(sources@).skip(0) =~= texts(sources@));
    }
    while i < sources.len()
        invariant_except_break
            all == searched_to(
                graph@,
                target_query@,
                texts(targets@),
                texts(sources@).skip(i as int),
                depth as nat,
                path_views(paths@),
            ),
        invariant
            i <= sources.len(),
            goal@ == (GoalView::Target { query: target_query@, ids: texts(targets@) }),
        ensures
            path_views(paths@) == all,
        decreases sources.len() - i,
    {
        let ghost rest = texts(sources@).skip(i as int);
        proof {
            assert(rest[0] == sources@[i as int]@);
            assert(rest.drop_first() =~= texts(sources@).skip(i + 1));
        }
        if !contains_text(targets, sources[i].as_str()) {
            let mut visited: Vec<String> = Vec::new();
            visited.push(sources[i].clone());
            let mut stack: Vec<CallPathEdge> = Vec::new();
            let mut found: Vec<CallPath> = Vec::new();
            proof {
                assert(texts(visited@) =~= seq![rest[0]]);
                assert(stack@ =~= Seq::empty());
                assert(path_views(found@) =~= Seq::empty());
            }
            trace(&graph, &goal, &sources[i], depth, &mut visited, &mut stack, &mut found);
            add_transitive(&mut paths, found);
            if paths.len() >= MAX_CALL_PATHS {
                break ;
            }
        }
        i = i + 1;
    }
    keep_first(&mut paths);
    paths
}

} // verus!
