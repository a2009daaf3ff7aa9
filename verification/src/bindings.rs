//! What the text of a statement says, and which values are bound where.

use vstd::prelude::*;
use crate::sql::{StatementView, Value};
use crate::text::{decimal_digits, digit};

verus! {

/// A character that a name of a table or a column is made of.
pub open spec fn is_name_part(c: char) -> bool {
    'a' <= c <= 'z' || 'A' <= c <= 'Z' || '0' <= c <= '9' || c == '_' || c == '.'
}

/// `clause` stands in `sql` at `at`, and is no part of longer names or numbers.
pub open spec fn stands_at(sql: Seq<char>, clause: Seq<char>, at: int) -> bool {
    &&& 0 <= at
    &&& at + clause.len() <= sql.len()
    &&& sql.subrange(at, at + clause.len()) == clause
    &&& at == 0 || !is_name_part(sql[at - 1])
    &&& at + clause.len() == sql.len() || !is_name_part(sql[at + clause.len()])
}

/// The text of a statement holds a clause.
pub open spec fn says(sql: Seq<char>, clause: Seq<char>) -> bool {
    exists|at: int| #[trigger] stands_at(sql, clause, at)
}

/// The text of a statement holds `clause` followed by the place of a bound value, which is
/// `value`.
pub open spec fn binds(s: StatementView, clause: Seq<char>, value: Value) -> bool {
    exists|n: int|
        1 <= n <= s.params.len() && #[trigger] says(
            s.sql,
            clause + "?"@ + decimal_digits(n as nat),
        ) && s.params[n - 1] == value
}

/// Among the values `stored`, listed as their `columns`, `value` is the one of a column.
pub open spec fn stores(
    columns: Seq<Seq<char>>,
    stored: Seq<Value>,
    column: Seq<char>,
    value: Value,
) -> bool {
    exists|i: int|
        0 <= i < columns.len() && 0 <= i < stored.len() && #[trigger] columns[i] == column
            && stored[i] == value
}

/// A clause that stands somewhere in the text is said by it.
pub proof fn lemma_says(sql: Seq<char>, clause: Seq<char>, at: int)
    requires
        stands_at(sql, clause, at),
    ensures
        says(sql, clause),
{
}

/// A clause that stands in the text binds the value of its place.
pub proof fn lemma_binds(s: StatementView, clause: Seq<char>, n: int, at: int)
    requires
        1 <= n <= s.params.len(),
        stands_at(s.sql, clause + "?"@ + decimal_digits(n as nat), at),
    ensures
        binds(s, clause, s.params[n - 1]),
{
    assert(says(s.sql, clause + "?"@ + decimal_digits(n as nat)));
}

/// Decimal notation of the numbers of parameters.
pub proof fn lemma_places()
    ensures
        forall|n: nat| n < 10 ==> #[trigger] decimal_digits(n) == seq![digit(n)],
        forall|n: nat|
            10 <= n < 100 ==> #[trigger] decimal_digits(n) == seq![digit(n / 10), digit(n % 10)],
{
    assert forall|n: nat| 10 <= n < 100 implies #[trigger] decimal_digits(n) == seq![
        digit(n / 10),
        digit(n % 10),
    ] by {
        reveal_with_fuel(decimal_digits, 2);
        assert(decimal_digits(n) =~= seq![digit(n / 10), digit(n % 10)]);
    }
}

} // verus!
