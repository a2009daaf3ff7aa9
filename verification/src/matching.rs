//! Searches by a part of a name: what a pattern matches.

use vstd::prelude::*;
use crate::bindings::binds;
use crate::naming::lower;
use crate::search::{find_symbols_for_ref_spec, find_symbols_spec, tests_matching_name_spec};
use crate::sql::text;
use crate::statement_laws::{
    law_find_symbols_for_ref_says, law_find_symbols_says, law_tests_matching_name_says,
};

verus! {

/// Whether `name` matches `pattern` as SQLite compares them by `LIKE`: `%` stands for any text,
/// `_` for any character, and every other character for itself in upper or lower case.
pub open spec fn like(pattern: Seq<char>, name: Seq<char>) -> bool
    decreases pattern.len(), name.len(),
{
    if pattern.len() == 0 {
        name.len() == 0
    } else if pattern[0] == '%' {
        like(pattern.drop_first(), name) || name.len() > 0 && like(pattern, name.drop_first())
    } else {
        name.len() > 0 && (pattern[0] == '_' || lower(pattern[0]) == lower(name[0])) && like(
            pattern.drop_first(),
            name.drop_first(),
        )
    }
}

/// A text without the characters that stand for others in a pattern.
pub open spec fn is_literal(s: Seq<char>) -> bool {
    forall|i: int| 0 <= i < s.len() ==> #[trigger] s[i] != '%' && s[i] != '_'
}

/// `part` stands in `name` at `at`, in upper or lower case.
pub open spec fn is_part_at(part: Seq<char>, name: Seq<char>, at: int) -> bool {
    &&& 0 <= at
    &&& at + part.len() <= name.len()
    &&& forall|i: int| 0 <= i < part.len() ==> lower(#[trigger] part[i]) == lower(name[at + i])
}

proof fn lemma_like_itself(s: Seq<char>, pattern: Seq<char>, name: Seq<char>)
    requires
        like(pattern, name),
    ensures
        like(s + pattern, s + name),
    decreases s.len(),
{
    if s.len() == 0 {
        assert(s + pattern =~= pattern);
        assert(s + name =~= name);
    } else {
        lemma_like_itself(s.drop_first(), pattern, name);
        assert((s + pattern).drop_first() =~= s.drop_first() + pattern);
        assert((s + name).drop_first() =~= s.drop_first() + name);
        if s[0] == '%' {
            let rest = s.drop_first() + name;
            assert(like((s + pattern).drop_first(), rest));
            assert(like(s + pattern, rest));
        }
    }
}

/// The pattern of any text behind a pattern.
proof fn lemma_like_any_before(pattern: Seq<char>, before: Seq<char>, name: Seq<char>)
    requires
        like(pattern, name),
    ensures
        like("%"@ + pattern, before + name),
    decreases before.len(),
{
    reveal_strlit("%");
    assert(("%"@ + pattern).drop_first() =~= pattern);
    if before.len() == 0 {
        assert(before + name =~= name);
    } else {
        lemma_like_any_before(pattern, before.drop_first(), name);
        assert((before + name).drop_first() =~= before.drop_first() + name);
    }
}

proof fn lemma_like_anything(name: Seq<char>)
    ensures
        like("%"@, name),
{
    let nothing = Seq::<char>::empty();
    lemma_like_any_before(nothing, name, nothing);
    assert("%"@ + nothing =~= "%"@);
    assert(name + nothing =~= name);
}

/// What matches a pattern behind any text matches it from some character on.
proof fn lemma_like_somewhere(pattern: Seq<char>, name: Seq<char>) -> (k: int)
    requires
        like("%"@ + pattern, name),
    ensures
        0 <= k <= name.len(),
        like(pattern, name.skip(k)),
    decreases name.len(),
{
    reveal_strlit("%");
    assert(("%"@ + pattern).drop_first() =~= pattern);
    if like(pattern, name) {
        assert(name.skip(0) =~= name);
        0
    } else {
        let k = lemma_like_somewhere(pattern, name.drop_first());
        assert(name.drop_first().skip(k) =~= name.skip(k + 1));
        k + 1
    }
}

proof fn lemma_like_starts(part: Seq<char>, pattern: Seq<char>, name: Seq<char>)
    requires
        is_literal(part),
        like(part + pattern, name),
    ensures
        is_part_at(part, name, 0),
        like(pattern, name.skip(part.len() as int)),
    decreases part.len(),
{
    if part.len() == 0 {
        assert(part + pattern =~= pattern);
        assert(name.skip(0) =~= name);
    } else {
        let rest = part.drop_first();
        assert(part[0] != '%' && part[0] != '_');
        assert((part + pattern)[0] == part[0]);
        assert((part + pattern).drop_first() =~= rest + pattern);
        assert forall|i: int| 0 <= i < rest.len() implies #[trigger] rest[i] != '%' && rest[i]
            != '_' by {
            assert(rest[i] == part[i + 1]);
        }
        lemma_like_starts(rest, pattern, name.drop_first());
        assert(name.drop_first().skip(rest.len() as int) =~= name.skip(part.len() as int));
        assert forall|i: int| 0 <= i < part.len() implies lower(#[trigger] part[i]) == lower(
            name[0 + i],
        ) by {
            if i > 0 {
                assert(rest[i - 1] == part[i]);
            }
        }
    }
}

/// A pattern matches every name that holds a part, and where the part is literal no other name.
pub open spec fn matches_part(pattern: Seq<char>, part: Seq<char>) -> bool {
    &&& forall|before: Seq<char>, after: Seq<char>| #[trigger] like(pattern, before + part + after)
    &&& is_literal(part) ==> forall|name: Seq<char>| #[trigger]
        like(pattern, name) ==> exists|at: int| is_part_at(part, name, at)
}

/// A pattern matches every name that ends with a part, and where the part is literal no other
/// name.
pub open spec fn matches_end(pattern: Seq<char>, part: Seq<char>) -> bool {
    &&& forall|before: Seq<char>| #[trigger] like(pattern, before + part)
    &&& is_literal(part) ==> forall|name: Seq<char>| #[trigger]
        like(pattern, name) ==> name.len() >= part.len() && is_part_at(
            part,
            name,
            name.len() - part.len(),
        )
}

proof fn lemma_matches_part(part: Seq<char>)
    ensures
        matches_part("%"@ + part + "%"@, part),
{
    let pattern = "%"@ + part + "%"@;
    assert(pattern =~= "%"@ + (part + "%"@));
    assert forall|before: Seq<char>, after: Seq<char>| #[trigger]
        like(pattern, before + part + after) by {
        lemma_like_anything(after);
        lemma_like_itself(part, "%"@, after);
        lemma_like_any_before(part + "%"@, before, part + after);
        assert(before + part + after =~= before + (part + after));
    }
    if is_literal(part) {
        assert forall|name: Seq<char>| #[trigger] like(pattern, name) implies exists|at: int|
            is_part_at(part, name, at) by {
            let k = lemma_like_somewhere(part + "%"@, name);
            lemma_like_starts(part, "%"@, name.skip(k));
            assert forall|i: int| 0 <= i < part.len() implies lower(#[trigger] part[i]) == lower(
                name[k + i],
            ) by {
                assert(name.skip(k)[0 + i] == name[k + i]);
            }
            assert(is_part_at(part, name, k));
        }
    }
}

proof fn lemma_matches_end(part: Seq<char>)
    ensures
        matches_end("%"@ + part, part),
{
    let pattern = "%"@ + part;
    let nothing = Seq::<char>::empty();
    assert(part + nothing =~= part);
    assert forall|before: Seq<char>| #[trigger] like(pattern, before + part) by {
        lemma_like_itself(part, nothing, nothing);
        lemma_like_any_before(part, before, part);
    }
    if is_literal(part) {
        assert forall|name: Seq<char>| #[trigger] like(pattern, name) implies name.len()
            >= part.len() && is_part_at(part, name, name.len() - part.len()) by {
            let k = lemma_like_somewhere(part, name);
            lemma_like_starts(part, nothing, name.skip(k));
            assert forall|i: int| 0 <= i < part.len() implies lower(#[trigger] part[i]) == lower(
                name[name.len() - part.len() + i],
            ) by {
                assert(name.skip(k)[0 + i] == name[k + i]);
            }
        }
    }
}

/// Symbols are found by any part of their name or qualified name: the pattern that both are
/// compared with matches every name that holds the query, whatever stands before and behind it,
/// and where the query has no characters that stand for others it matches no other name.
pub proof fn law_symbols_are_found_by_any_part_of_a_name(
    repository_id: Seq<char>,
    repository_ref_id: Seq<char>,
    query: Seq<char>,
)
    ensures
        exists|pattern: Seq<char>|
            {
                let s = find_symbols_spec(repository_id, query);
                &&& #[trigger] matches_part(pattern, query)
                &&& binds(s, "symbols.name LIKE "@, text(pattern))
                &&& binds(s, "symbols.qualified_name LIKE "@, text(pattern))
            },
        exists|pattern: Seq<char>|
            {
                let s = find_symbols_for_ref_spec(repository_id, repository_ref_id, query);
                &&& #[trigger] matches_part(pattern, query)
                &&& binds(s, "symbols.name LIKE "@, text(pattern))
                &&& binds(s, "symbols.qualified_name LIKE "@, text(pattern))
            },
{
    law_find_symbols_says(repository_id, query);
    law_find_symbols_for_ref_says(repository_id, repository_ref_id, query);
    lemma_matches_part(query);
}

/// Tests are found by the last part of their qualified name.
pub proof fn law_tests_are_found_by_the_end_of_a_name(
    repository_id: Seq<char>,
    test_name: Seq<char>,
)
    ensures
        exists|pattern: Seq<char>|
            #[trigger] matches_end(pattern, "::"@ + test_name) && binds(
                tests_matching_name_spec(repository_id, test_name),
                "tests.qualified_name LIKE "@,
                text(pattern),
            ),
{
    law_tests_matching_name_says(repository_id, test_name);
    lemma_matches_end("::"@ + test_name);
    reveal_strlit("%::");
    reveal_strlit("%");
    reveal_strlit("::");
    reveal_strlit("");
    assert("%::"@ + test_name + ""@ =~= "%"@ + ("::"@ + test_name));
}

} // verus!
