//! Context packs: a symbol with what calls it, what it calls, and the files they stand in.

use vstd::prelude::*;
use crate::records::{CallSearchRow, ContextPack, ContextPackLimits, SymbolSearchRow};
use crate::store::SqliteStore;
use crate::text::{ascending_set, optional_text, strictly_ascending, texts};

verus! {

/// The number of rows of each kind that a pack holds at most.
pub open spec fn pack_limit(limit: usize) -> usize {
    if limit < 1 {
        1
    } else if limit > 25 {
        25
    } else {
        limit
    }
}

fn clamp_pack_limit(limit: usize) -> (r: usize)
    ensures
        r == pack_limit(limit),
{
    if limit < 1 {
        1
    } else if limit > 25 {
        25
    } else {
        limit
    }
}

/// The first `limit` of a list, or all of it where there are fewer.
pub open spec fn at_most<T>(list: Seq<T>, limit: usize) -> Seq<T> {
    if list.len() <= limit {
        list
    } else {
        list.take(limit as int)
    }
}

/// The files of symbols.
pub open spec fn symbol_files(symbols: Seq<SymbolSearchRow>) -> Seq<Seq<char>> {
    Seq::new(symbols.len(), |i: int| symbols[i].path@)
}

/// The files of calls, as far as they are known.
pub open spec fn call_files(calls: Seq<CallSearchRow>) -> Seq<Seq<char>>
    decreases calls.len(),
{
    if calls.len() == 0 {
        Seq::empty()
    } else {
        let front = call_files(calls.drop_last());
        match optional_text(calls.last().path) {
            Some(path) => front.push(path),
            None => front,
        }
    }
}

/// The files that the rows of a pack stand in.
pub open spec fn pack_files(
    symbols: Seq<SymbolSearchRow>,
    callers: Seq<CallSearchRow>,
    callees: Seq<CallSearchRow>,
) -> Seq<Seq<char>> {
    symbol_files(symbols) + call_files(callers) + call_files(callees)
}

/// The notes of a pack.
pub open spec fn pack_notes(for_ref: bool) -> Seq<Seq<char>> {
    let notes = seq!["metadata_only_no_source_text"@, "direct_relationships_only"@];
    if for_ref {
        notes.push("repository_ref_scoped"@)
    } else {
        notes
    }
}

/// `pack` holds the first rows of each kind and the files that they stand in, ascending and each
/// once.
pub open spec fn is_pack(
    pack: ContextPack,
    repository_id: Seq<char>,
    query: Seq<char>,
    limit: usize,
    symbols: Seq<SymbolSearchRow>,
    callers: Seq<CallSearchRow>,
    callees: Seq<CallSearchRow>,
    for_ref: bool,
) -> bool {
    let limit = pack_limit(limit);
    &&& pack.format@ == "symdex.context_pack.v1"@
    &&& pack.repository_id@ == repository_id
    &&& pack.query@ == query
    &&& pack.focus_symbols@ == at_most(symbols, limit)
    &&& pack.direct_callers@ == at_most(callers, limit)
    &&& pack.direct_callees@ == at_most(callees, limit)
    &&& strictly_ascending(texts(pack.files@))
    &&& forall|path: Seq<char>|
        texts(pack.files@).contains(path) <==> pack_files(
            at_most(symbols, limit),
            at_most(callers, limit),
            at_most(callees, limit),
        ).contains(path)
    &&& pack.limits.max_symbols == limit
    &&& pack.limits.max_callers == limit
    &&& pack.limits.max_callees == limit
    &&& texts(pack.notes@) == pack_notes(for_ref)
}

fn files_of_symbols(symbols: &Vec<SymbolSearchRow>) -> (r: Vec<String>)
    ensures
        texts(r@) == symbol_files(symbols@),
{
    let mut files: Vec<String> = Vec::new();
    for i in 0..symbols.len()
        invariant
            texts(files@) == symbol_files(symbols@).take(i as int),
    {
        let ghost before = texts(files@);
        files.push(symbols[i].path.clone());
        proof {
            assert(texts(files@) =~= before.push(symbols@[i as int].path@));
            assert(texts(files@) =~= symbol_files(symbols@).take(i + 1));
        }
    }
    proof {
        assert(symbol_files(symbols@).take(symbols@.len() as int) =~= symbol_files(symbols@));
    }
    files
}

fn add_call_files(files: &mut Vec<String>, calls: &Vec<CallSearchRow>)
    ensures
        texts(final(files)@) == texts(old(files)@) + call_files(calls@),
{
    let ghost known = texts(files@);
    proof {
        assert(known =~= known + call_files(calls@.take(0)));
    }
    for i in 0..calls.len()
        invariant
            texts(files@) == known + call_files(calls@.take(i as int)),
    {
        let ghost before = texts(files@);
        proof {
            assert(calls@.take(i + 1).drop_last() =~= calls@.take(i as int));
        }
        if let Some(path) = &calls[i].path {
            files.push(path.clone());
            proof {
                assert(texts(files@) =~= before.push(path@));
            }
        }
        proof {
            assert(texts(files@) =~= known + call_files(calls@.take(i + 1)));
        }
    }
    proof {
        assert(calls@.take(calls@.len() as int) =~= calls@);
    }
}

fn pack(
    repository_id: &str,
    symbol_query: &str,
    limit: usize,
    symbols: Vec<SymbolSearchRow>,
    callers: Vec<CallSearchRow>,
    callees: Vec<CallSearchRow>,
    for_ref: bool,
) -> (r: ContextPack)
    ensures
        is_pack(
            r,
            repository_id@,
            symbol_query@,
            limit,
            symbols@,
            callers@,
            callees@,
            for_ref,
        ),
{
    let limit = clamp_pack_limit(limit);
    let mut focus_symbols = symbols;
    focus_symbols.truncate(limit);
    let mut direct_callers = callers;
    direct_callers.truncate(limit);
    let mut direct_callees = callees;
    direct_callees.truncate(limit);
    proof {
        assert(focus_symbols@ =~= at_most(symbols@, limit));
        assert(direct_callers@ =~= at_most(callers@, limit));
        assert(direct_callees@ =~= at_most(callees@, limit));
    }
    let mut all_files = files_of_symbols(&focus_symbols);
    add_call_files(&mut all_files, &direct_callers);
    add_call_files(&mut all_files, &direct_callees);
    let files = ascending_set(&all_files);
    let mut notes = vec![
        "metadata_only_no_source_text".to_owned(),
        "direct_relationships_only".to_owned(),
    ];
    if for_ref {
        notes.push("repository_ref_scoped".to_owned());
    }
    proof {
        assert(texts(notes@) =~= pack_notes(for_ref));
    }
    ContextPack {
        format: "symdex.context_pack.v1".to_owned(),
        repository_id: repository_id.to_owned(),
        query: symbol_query.to_owned(),
        focus_symbols,
        direct_callers,
        direct_callees,
        files,
        limits: ContextPackLimits {
            max_symbols: limit,
            max_callers: limit,
            max_callees: limit,
        },
        notes,
    }
}

impl SqliteStore {
    /// The context of the symbols that `find_symbols` found, with what `callers` and `callees`
    /// found.
    pub fn context_pack(
        repository_id: &str,
        symbol_query: &str,
        limit: usize,
        symbols: Vec<SymbolSearchRow>,
        callers: Vec<CallSearchRow>,
        callees: Vec<CallSearchRow>,
    ) -> (r: ContextPack)
        ensures
            is_pack(
                r,
                repository_id@,
                symbol_query@,
                limit,
                symbols@,
                callers@,
                callees@,
                false,
            ),
    {
        pack(repository_id, symbol_query, limit, symbols, callers, callees, false)
    }

    /// The same for the symbols and calls of a ref.
    pub fn context_pack_for_ref(
        repository_id: &str,
        symbol_query: &str,
        limit: usize,
        symbols: Vec<SymbolSearchRow>,
        callers: Vec<CallSearchRow>,
        callees: Vec<CallSearchRow>,
    ) -> (r: ContextPack)
        ensures
            is_pack(
                r,
                repository_id@,
                symbol_query@,
                limit,
                symbols@,
                callers@,
                callees@,
                true,
            ),
    {
        pack(repository_id, symbol_query, limit, symbols, callers, callees, true)
    }
}

/// A pack never holds more than twenty-five rows of a kind, and the file of every symbol in it is
/// among its files.
pub proof fn law_packs_are_bounded(
    pack: ContextPack,
    repository_id: Seq<char>,
    query: Seq<char>,
    limit: usize,
    symbols: Seq<SymbolSearchRow>,
    callers: Seq<CallSearchRow>,
    callees: Seq<CallSearchRow>,
    for_ref: bool,
)
    requires
        is_pack(pack, repository_id, query, limit, symbols, callers, callees, for_ref),
    ensures
        pack.focus_symbols@.len() <= 25,
        pack.direct_callers@.len() <= 25,
        pack.direct_callees@.len() <= 25,
        forall|i: int|
            0 <= i < pack.focus_symbols@.len() ==> texts(pack.files@).contains(
                (#[trigger] pack.focus_symbols@[i]).path@,
            ),
{
    assert forall|i: int| 0 <= i < pack.focus_symbols@.len() implies texts(pack.files@).contains(
        (#[trigger] pack.focus_symbols@[i]).path@,
    ) by {
        let files = pack_files(pack.focus_symbols@, pack.direct_callers@, pack.direct_callees@);
        assert(files[i] == pack.focus_symbols@[i].path@);
    }
}

} // verus!
