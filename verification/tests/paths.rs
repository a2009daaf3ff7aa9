//! Chains of calls.

use symdex_store::call_paths::{
    call_path_from_edges, clamp_call_path_depth, paths_between, paths_beyond,
    transitive_paths_to,
};
use symdex_store::records::{CallPath, CallPathEdge, EvidenceProvenance};
use symdex_store::search::{CALL_PATH_EDGES, RESOLVE_SYMBOL_REFS};
use symdex_store::sql::{Command, Real, SqlValue};
use symdex_store::store::SqliteStore;

fn number(value: f64) -> Real {
    Real { bits: value.to_bits() }
}

fn edge(caller: &str, callee: &str) -> CallPathEdge {
    CallPathEdge {
        call_id: format!("{caller}->{callee}"),
        caller_symbol_id: caller.to_owned(),
        caller_symbol_name: caller.to_owned(),
        caller_symbol_qualified_name: format!("crate::{caller}"),
        caller_symbol_kind: "function".to_owned(),
        caller_path: "src/lib.rs".to_owned(),
        caller_start_line: 1,
        caller_end_line: 2,
        callee_text: callee.to_owned(),
        callee_symbol_id: Some(callee.to_owned()),
        callee_symbol_name: Some(callee.to_owned()),
        callee_symbol_qualified_name: Some(format!("crate::{callee}")),
        callee_symbol_kind: Some("function".to_owned()),
        callee_path: Some("src/lib.rs".to_owned()),
        callee_start_line: Some(1),
        callee_end_line: Some(2),
        call_line: 1,
        confidence: number(1.0),
        resolution_status: "resolved".to_owned(),
        provenance: EvidenceProvenance {
            content_hash: None,
            index_run_id: None,
            parser_version: None,
            indexed_at: None,
            embedding_model: None,
            embedding_dimension: None,
            embedded_at: None,
        },
    }
}

fn unresolved(caller: &str, callee: &str) -> CallPathEdge {
    CallPathEdge {
        callee_symbol_id: None,
        callee_symbol_name: None,
        callee_symbol_qualified_name: None,
        confidence: number(0.25),
        resolution_status: "unresolved".to_owned(),
        ..edge(caller, callee)
    }
}

fn ids(list: &[&str]) -> Vec<String> {
    list.iter().map(|id| (*id).to_owned()).collect()
}

fn chains(paths: &[CallPath]) -> Vec<String> {
    paths
        .iter()
        .map(|path| {
            let calls: Vec<&str> =
                path.edges.iter().map(|edge| edge.call_id.as_str()).collect();
            calls.join(" ")
        })
        .collect()
}

#[test]
fn depths_are_clamped() {
    assert_eq!(clamp_call_path_depth(0), 1);
    assert_eq!(clamp_call_path_depth(1), 1);
    assert_eq!(clamp_call_path_depth(8), 8);
    assert_eq!(clamp_call_path_depth(usize::MAX), 8);
}

#[test]
fn searches_find_every_simple_chain_in_order() {
    let edges = vec![
        edge("a", "b"),
        edge("a", "c"),
        edge("b", "d"),
        edge("c", "b"),
        edge("c", "d"),
        edge("d", "a"),
    ];
    let paths = paths_between(&ids(&["a"]), &ids(&["d"]), edges.clone(), "d", 8);
    assert_eq!(chains(&paths), ["a->b b->d", "a->c c->b b->d", "a->c c->d"]);
    assert_eq!(paths[1].hops, 3);
    let paths = paths_between(&ids(&["a"]), &ids(&["d"]), edges.clone(), "d", 2);
    assert_eq!(chains(&paths), ["a->b b->d", "a->c c->d"]);
    assert!(paths_between(&ids(&["a"]), &ids(&["d"]), edges, "d", 0).is_empty());
}

#[test]
fn searches_do_not_run_in_circles() {
    let edges = vec![edge("a", "b"), edge("b", "a"), edge("b", "b")];
    assert!(paths_between(&ids(&["a"]), &ids(&["z"]), edges.clone(), "z", 8).is_empty());
    let paths = paths_beyond(&ids(&["a"]), edges, 8);
    for path in &paths {
        let callers: Vec<&str> =
            path.edges.iter().map(|edge| edge.caller_symbol_id.as_str()).collect();
        assert_eq!(callers, ["a", "b"]);
    }
}

#[test]
fn chains_end_at_the_target() {
    let edges = vec![edge("a", "t"), edge("t", "b"), edge("b", "t")];
    let paths = paths_between(&ids(&["a"]), &ids(&["t"]), edges, "t", 8);
    assert_eq!(chains(&paths), ["a->t"]);
}

#[test]
fn calls_reach_a_target_by_text_or_name() {
    let edges = vec![edge("a", "b"), unresolved("b", "println")];
    let paths = paths_between(&ids(&["a"]), &Vec::new(), edges.clone(), "println", 8);
    assert_eq!(chains(&paths), ["a->b b->println"]);
    assert_eq!(paths[0].terminal_resolution_status, "unresolved");
    assert_eq!(f64::from_bits(paths[0].min_confidence.bits), 0.25);
    let paths = paths_between(&ids(&["a"]), &Vec::new(), edges, "crate::b", 8);
    assert_eq!(chains(&paths), ["a->b"]);
}

#[test]
fn searches_stop_at_fifty_paths() {
    let mut edges = Vec::new();
    for index in 0..60 {
        edges.push(edge("a", &format!("m{index:02}")));
        edges.push(edge(&format!("m{index:02}"), "t"));
    }
    let paths = paths_between(&ids(&["a"]), &ids(&["t"]), edges.clone(), "t", 8);
    assert_eq!(paths.len(), 50);
    assert_eq!(paths[49].edges[0].callee_text, "m49");
    assert_eq!(paths_beyond(&ids(&["a"]), edges, 8).len(), 50);
}

#[test]
fn transitive_paths_have_more_than_one_call() {
    let edges = vec![edge("a", "t"), edge("b", "a"), edge("t", "b")];
    let all = ids(&["a", "b", "t"]);
    let paths = transitive_paths_to(&all, &ids(&["t"]), edges.clone(), "t", 8);
    assert_eq!(chains(&paths), ["b->a a->t"]);
    let paths = paths_beyond(&ids(&["b"]), edges, 8);
    assert_eq!(chains(&paths), ["b->a a->t", "b->a a->t t->b"]);
}

#[test]
fn an_empty_chain_is_unresolved() {
    let path = call_path_from_edges(&Vec::new());
    assert_eq!(path.hops, 0);
    assert_eq!(f64::from_bits(path.min_confidence.bits), 1.0);
    assert_eq!(path.terminal_resolution_status, "unresolved");
}

#[test]
fn searches_ask_for_symbols_and_calls() {
    let steps = SqliteStore::call_paths("repo-1", "a", "b");
    let questions: Vec<(&str, Vec<SqlValue>)> = steps
        .iter()
        .map(|step| match step {
            Command::Query(statement) => (statement.sql.as_str(), statement.params.clone()),
            _ => panic!("a query was expected"),
        })
        .collect();
    let text = |value: &str| SqlValue::Text(value.to_owned());
    assert_eq!(
        questions,
        [
            (RESOLVE_SYMBOL_REFS, vec![text("repo-1"), text("a")]),
            (RESOLVE_SYMBOL_REFS, vec![text("repo-1"), text("b")]),
            (CALL_PATH_EDGES, vec![text("repo-1")]),
        ]
    );
    assert_eq!(SqliteStore::call_paths_for_ref("repo-1", "ref-1", "a", "b").len(), 3);
    assert_eq!(SqliteStore::transitive_call_paths_to("repo-1", "b").len(), 3);
    assert_eq!(SqliteStore::transitive_call_paths_to_for_ref("repo-1", "ref-1", "b").len(), 3);
    assert_eq!(SqliteStore::transitive_call_paths_from("repo-1", "a").len(), 2);
    assert_eq!(
        SqliteStore::transitive_call_paths_from_for_ref("repo-1", "ref-1", "a").len(),
        2
    );
}

#[test]
fn no_path_is_reported_twice() {
    let mut edges = Vec::new();
    for caller in ["a", "b", "c", "d"] {
        for callee in ["a", "b", "c", "d"] {
            edges.push(edge(caller, callee));
        }
    }
    let all = ids(&["a", "b", "c", "d"]);
    let searches = [
        paths_between(&all, &ids(&["d"]), edges.clone(), "d", 8),
        paths_beyond(&all, edges.clone(), 8),
        transitive_paths_to(&all, &ids(&["d"]), edges, "d", 8),
    ];
    for paths in searches {
        let found = chains(&paths);
        let mut distinct = found.clone();
        distinct.sort();
        distinct.dedup();
        assert!(found.len() > 10);
        assert_eq!(distinct.len(), found.len());
    }
}
