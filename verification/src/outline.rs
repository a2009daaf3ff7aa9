//! The symbols of a repository as an outline.

use vstd::prelude::*;
use crate::error::{is_fault, StoreError};
use crate::records::{SymbolOutlineRow, SymbolOutlineSummary};
use crate::rows::SymbolOutlineBaseRow;
use crate::sql::{all_of, collect_rows, rows_fault, Row};
use crate::store::SqliteStore;
use crate::text::{optional_text, same};

verus! {

/// The depth beyond which the outline does not look.
pub const MAX_OUTLINE_DEPTH: usize = 16;

/// The parent of a symbol, as the last row with that id tells it.
pub open spec fn parent_of(bases: Seq<SymbolOutlineBaseRow>, id: Seq<char>) -> Option<Seq<char>>
    decreases bases.len(),
{
    if bases.len() == 0 {
        None
    } else if bases.last().id@ == id {
        optional_text(bases.last().parent_symbol_id)
    } else {
        parent_of(bases.drop_last(), id)
    }
}

/// The number of symbols on the way up from `current`, of which at most `limit` are counted.
pub open spec fn height(
    bases: Seq<SymbolOutlineBaseRow>,
    current: Option<Seq<char>>,
    limit: nat,
) -> nat
    decreases limit,
{
    match current {
        Some(id) => if limit == 0 {
            0
        } else {
            1 + height(bases, parent_of(bases, id), (limit - 1) as nat)
        },
        None => 0,
    }
}

/// The depth of a symbol with the given parent.
pub open spec fn depth_under(bases: Seq<SymbolOutlineBaseRow>, parent: Option<Seq<char>>) -> nat {
    height(bases, parent, MAX_OUTLINE_DEPTH as nat)
}

/// The number of symbols with the given parent.
pub open spec fn children_of(bases: Seq<SymbolOutlineBaseRow>, id: Seq<char>) -> nat
    decreases bases.len(),
{
    if bases.len() == 0 {
        0
    } else {
        children_of(bases.drop_last(), id) + if optional_text(bases.last().parent_symbol_id) == Some(
            id,
        ) {
            1nat
        } else {
            0
        }
    }
}

/// `r` is the symbol `base` at its place in the outline.
pub open spec fn is_outline_row(
    r: SymbolOutlineRow,
    base: SymbolOutlineBaseRow,
    bases: Seq<SymbolOutlineBaseRow>,
) -> bool {
    &&& r.id == base.id
    &&& r.parent_symbol_id == base.parent_symbol_id
    &&& r.depth == depth_under(bases, optional_text(base.parent_symbol_id))
    &&& r.child_count == children_of(bases, base.id@)
    &&& r.kind == base.kind
    &&& r.qualified_name == base.qualified_name
    &&& r.name == base.name
    &&& r.path == base.path
    &&& r.start_line == base.start_line
    &&& r.end_line == base.end_line
}

fn find_parent<'a>(bases: &'a Vec<SymbolOutlineBaseRow>, id: &str) -> (r: Option<&'a String>)
    ensures
        (match r {
            Some(parent) => Some(parent@),
            None => None,
        }) == parent_of(bases@, id@),
{
    let mut at: usize = bases.len();
    proof {
        assert(bases@.take(at as int) =~= bases@);
    }
    while at > 0
        invariant
            at <= bases.len(),
            parent_of(bases@, id@) == parent_of(bases@.take(at as int), id@),
        decreases at,
    {
        at = at - 1;
        proof {
            assert(bases@.take(at + 1).drop_last() =~= bases@.take(at as int));
        }
        if same(bases[at].id.as_str(), id) {
            return match &bases[at].parent_symbol_id {
                Some(parent) => Some(parent),
                None => None,
            };
        }
    }
    None
}

/// The depth of a symbol: the number of symbols above it, of which at most sixteen are counted.
pub fn symbol_depth(parent_symbol_id: &Option<String>, bases: &Vec<SymbolOutlineBaseRow>) -> (r:
    usize)
    ensures
        r == depth_under(bases@, optional_text(*parent_symbol_id)),
{
    let mut depth: usize = 0;
    let mut current: Option<&String> = match parent_symbol_id {
        Some(parent) => Some(parent),
        None => None,
    };
    while depth < MAX_OUTLINE_DEPTH
        invariant
            depth <= MAX_OUTLINE_DEPTH,
            depth_under(bases@, optional_text(*parent_symbol_id)) == depth + height(
                bases@,
                (match current {
                    Some(id) => Some(id@),
                    None => None,
                }),
                (MAX_OUTLINE_DEPTH - depth) as nat,
            ),
        decreases MAX_OUTLINE_DEPTH - depth,
    {
        match current {
            Some(id) => {
                depth = depth + 1;
                current = find_parent(bases, id.as_str());
            },
            None => {
                return depth;
            },
        }
    }
    depth
}

fn count_children(bases: &Vec<SymbolOutlineBaseRow>, id: &str) -> (r: usize)
    ensures
        r == children_of(bases@, id@),
{
    let mut children: usize = 0;
    for i in 0..bases.len()
        invariant
            children <= i,
            children == children_of(bases@.take(i as int), id@),
    {
        proof {
            assert(bases@.take(i + 1).drop_last() =~= bases@.take(i as int));
        }
        if let Some(parent) = &bases[i].parent_symbol_id {
            if same(parent.as_str(), id) {
                children = children + 1;
            }
        }
    }
    proof {
        assert(bases@.take(bases@.len() as int) =~= bases@);
    }
    children
}

/// The symbols at their places in the outline, in the order given.
pub fn symbol_outline_rows(bases: &Vec<SymbolOutlineBaseRow>) -> (r: Vec<SymbolOutlineRow>)
    ensures
        r@.len() == bases@.len(),
        forall|i: int| 0 <= i < r@.len() ==> is_outline_row(#[trigger] r@[i], bases@[i], bases@),
{
    let mut out: Vec<SymbolOutlineRow> = Vec::new();
    for i in 0..bases.len()
        invariant
            out@.len() == i,
            forall|k: int|
                0 <= k < i ==> is_outline_row(#[trigger] out@[k], bases@[k], bases@),
    {
        let base = &bases[i];
        let depth = symbol_depth(&base.parent_symbol_id, bases);
        let child_count = count_children(bases, base.id.as_str());
        out.push(
            SymbolOutlineRow {
                id: base.id.clone(),
                parent_symbol_id: crate::text::copy_optional(&base.parent_symbol_id),
                depth,
                child_count,
                kind: base.kind.clone(),
                qualified_name: base.qualified_name.clone(),
                name: base.name.clone(),
                path: base.path.clone(),
                start_line: base.start_line,
                end_line: base.end_line,
            },
        );
    }
    out
}

/// `s` is the outline of the symbols in `bases`.
pub open spec fn is_outline(
    s: SymbolOutlineSummary,
    repository_id: Seq<char>,
    bases: Seq<SymbolOutlineBaseRow>,
) -> bool {
    &&& s.repository_id@ == repository_id
    &&& s.symbols@.len() == bases.len()
    &&& forall|i: int|
        0 <= i < bases.len() ==> is_outline_row(#[trigger] s.symbols@[i], bases[i], bases)
}

impl SqliteStore {
    /// The outline of a repository, from the rows that `symbol_outline` asks for.
    pub fn symbol_outline_summary(repository_id: &str, rows: &Vec<Row>) -> (r: Result<
        SymbolOutlineSummary,
        StoreError,
    >)
        ensures
            match rows_fault::<SymbolOutlineBaseRow>(rows@) {
                Some(fault) => r matches Err(e) && is_fault(e, fault),
                None => r matches Ok(s) && is_outline(
                    s,
                    repository_id@,
                    all_of::<SymbolOutlineBaseRow>(rows@),
                ),
            },
    {
        match collect_rows(rows) {
            Ok(bases) => Ok(
                SymbolOutlineSummary {
                    repository_id: repository_id.to_owned(),
                    symbols: symbol_outline_rows(&bases),
                },
            ),
            Err(error) => Err(error),
        }
    }
}

/// No symbol is deeper than sixteen, however its parents run, and exactly those without a parent
/// have depth zero.
pub proof fn law_depth_is_bounded(bases: Seq<SymbolOutlineBaseRow>, parent: Option<Seq<char>>)
    ensures
        depth_under(bases, parent) <= 16,
        depth_under(bases, parent) == 0 <==> parent is None,
{
    lemma_height_is_bounded(bases, parent, MAX_OUTLINE_DEPTH as nat);
}

proof fn lemma_height_is_bounded(
    bases: Seq<SymbolOutlineBaseRow>,
    current: Option<Seq<char>>,
    limit: nat,
)
    ensures
        height(bases, current, limit) <= limit,
    decreases limit,
{
    if current is Some && limit > 0 {
        lemma_height_is_bounded(bases, parent_of(bases, current->Some_0), (limit - 1) as nat);
    }
}

proof fn lemma_height_is_cut_off(
    bases: Seq<SymbolOutlineBaseRow>,
    current: Option<Seq<char>>,
    limit: nat,
)
    ensures
        height(bases, current, limit) == if height(bases, current, limit + 1) < limit {
            height(bases, current, limit + 1)
        } else {
            limit
        },
    decreases limit,
{
    if current is Some && limit > 0 {
        lemma_height_is_cut_off(bases, parent_of(bases, current->Some_0), (limit - 1) as nat);
    }
}

/// A symbol is one deeper than its parent, up to the bound.
pub proof fn law_children_are_one_deeper(bases: Seq<SymbolOutlineBaseRow>, parent: Seq<char>)
    ensures
        depth_under(bases, Some(parent)) == if depth_under(bases, parent_of(bases, parent)) < 16 {
            depth_under(bases, parent_of(bases, parent)) + 1
        } else {
            16
        },
{
    let above = parent_of(bases, parent);
    lemma_height_is_cut_off(bases, above, 15);
    lemma_height_is_bounded(bases, above, 16);
}

} // verus!
