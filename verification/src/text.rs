//! Strings as sequences of characters: comparison, order, decimal numbers and sorted lists.

use vstd::prelude::*;

verus! {

/// `String::push` appends the given character to the end of the string.
pub assume_specification[ String::push ](s: &mut String, ch: char)
    ensures
        final(s)@ == old(s)@.push(ch),
;

/// The views of a list of strings.
pub open spec fn texts(list: Seq<String>) -> Seq<Seq<char>> {
    Seq::new(list.len(), |i: int| list[i]@)
}

/// The view of an optional string.
pub open spec fn optional_text(value: Option<String>) -> Option<Seq<char>> {
    match value {
        Some(text) => Some(text@),
        None => None,
    }
}

/// The view of an optional string slice.
pub open spec fn optional_str(value: Option<&str>) -> Option<Seq<char>> {
    match value {
        Some(text) => Some(text@),
        None => None,
    }
}

/// The characters of a string, in order.
pub fn chars_of(s: &str) -> (r: Vec<char>)
    ensures
        r@ == s@,
{
    let mut out: Vec<char> = Vec::new();
    for c in it: s.chars()
        invariant
            out@ == it.seq().take(it.index() as int),
            it.seq() == s@,
    {
        out.push(c);
        proof {
            assert(out@ =~= it.seq().take(it.index() + 1));
        }
    }
    proof {
        assert(out@ =~= s@);
    }
    out
}

/// Whether two strings hold the same characters.
pub fn same(a: &str, b: &str) -> (r: bool)
    ensures
        r == (a@ == b@),
{
    let left = a.to_owned();
    let right = b.to_owned();
    left == right
}

/// A copy of an optional string.
pub fn copy_optional(value: &Option<String>) -> (r: Option<String>)
    ensures
        r == *value,
{
    match value {
        Some(text) => Some(text.clone()),
        None => None,
    }
}

/// A digit as a character.
pub open spec fn digit(d: nat) -> char {
    (('0' as nat) + d % 10) as char
}

/// A natural number in decimal notation, without leading zeros.
pub open spec fn decimal_digits(n: nat) -> Seq<char>
    decreases n,
{
    if n < 10 {
        seq![digit(n)]
    } else {
        decimal_digits(n / 10).push(digit(n % 10))
    }
}

/// `n` in decimal notation.
pub fn decimal(n: u128) -> (r: String)
    ensures
        r@ == decimal_digits(n as nat),
    decreases n,
{
    let mut out = if n < 10 {
        String::new()
    } else {
        decimal(n / 10)
    };
    let last: u8 = (n % 10) as u8;
    out.push((48u8 + last) as char);
    out
}

/// `a` followed by `b`.
pub fn concat(a: &str, b: &str) -> (r: String)
    ensures
        r@ == a@ + b@,
{
    let mut out = a.to_owned();
    out.append(b);
    out
}

/// `s` with something in front and something behind.
pub fn surrounded(prefix: &str, s: &str, suffix: &str) -> (r: String)
    ensures
        r@ == prefix@ + s@ + suffix@,
{
    let mut out = prefix.to_owned();
    out.append(s);
    out.append(suffix);
    out
}

/// `a` comes before `b` because of the character at `i`: they agree up to `i`, and there `a` ends
/// or holds the smaller character.
pub open spec fn first_smaller_at(a: Seq<char>, b: Seq<char>, i: int) -> bool {
    &&& 0 <= i <= a.len()
    &&& i < b.len()
    &&& forall|j: int| 0 <= j < i ==> #[trigger] a[j] == b[j]
    &&& i < a.len() ==> a[i] < b[i]
}

/// The lexicographic order on strings: `a` comes strictly before `b`.
pub open spec fn precedes(a: Seq<char>, b: Seq<char>) -> bool {
    exists|i: int| #[trigger] first_smaller_at(a, b, i)
}

/// How two strings stand to each other in the lexicographic order.
pub enum Relation {
    Before,
    Same,
    After,
}

/// Places `a` relative to `b` in the lexicographic order.
pub fn relate(a: &str, b: &str) -> (r: Relation)
    ensures
        r is Before <==> precedes(a@, b@),
        r is Same <==> a@ == b@,
        r is After <==> precedes(b@, a@),
{
    let left = chars_of(a);
    let right = chars_of(b);
    let mut i: usize = 0;
    while i < left.len() && i < right.len() && left[i] == right[i]
        invariant
            i <= left.len(),
            i <= right.len(),
            left@ == a@,
            right@ == b@,
            forall|j: int| 0 <= j < i ==> #[trigger] a@[j] == b@[j],
        decreases left.len() - i,
    {
        i = i + 1;
    }
    if i == left.len() && i == right.len() {
        proof {
            assert(a@ =~= b@);
            lemma_precedes_irreflexive(a@);
        }
        return Relation::Same;
    }
    let smaller = if i == left.len() {
        true
    } else if i == right.len() {
        false
    } else {
        left[i] < right[i]
    };
    if smaller {
        proof {
            assert(first_smaller_at(a@, b@, i as int));
            lemma_precedes_asymmetric(a@, b@);
        }
        Relation::Before
    } else {
        proof {
            assert(first_smaller_at(b@, a@, i as int));
            lemma_precedes_asymmetric(b@, a@);
        }
        Relation::After
    }
}

/// No string precedes itself.
pub proof fn lemma_precedes_irreflexive(a: Seq<char>)
    ensures
        !precedes(a, a),
{
}

/// Of two strings at most one precedes the other.
pub proof fn lemma_precedes_asymmetric(a: Seq<char>, b: Seq<char>)
    requires
        precedes(a, b),
    ensures
        !precedes(b, a),
        a != b,
{
    let i = choose|i: int| first_smaller_at(a, b, i);
    if precedes(b, a) {
        let j = choose|j: int| first_smaller_at(b, a, j);
        if i < j {
            assert(b[i] == a[i]);
        } else if j < i {
            assert(a[j] == b[j]);
        }
    }
}

/// The lexicographic order is transitive.
pub proof fn lemma_precedes_transitive(a: Seq<char>, b: Seq<char>, c: Seq<char>)
    requires
        precedes(a, b),
        precedes(b, c),
    ensures
        precedes(a, c),
{
    let i = choose|i: int| first_smaller_at(a, b, i);
    let j = choose|j: int| first_smaller_at(b, c, j);
    let k = if i <= j { i } else { j };
    assert forall|m: int| 0 <= m < k implies #[trigger] a[m] == c[m] by {
        assert(a[m] == b[m]);
        assert(b[m] == c[m]);
    }
    assert(first_smaller_at(a, c, k));
}

/// A list in strictly ascending order, and so without duplicates.
pub open spec fn strictly_ascending(list: Seq<Seq<char>>) -> bool {
    forall|i: int, j: int| 0 <= i < j < list.len() ==> precedes(#[trigger] list[i], #[trigger] list[j])
}

/// Puts `value` into an ascending list, unless it is there already.
pub fn insert_ascending(list: &mut Vec<String>, value: &str)
    requires
        strictly_ascending(texts(old(list)@)),
    ensures
        strictly_ascending(texts(final(list)@)),
        forall|s: Seq<char>|
            texts(final(list)@).contains(s) <==> (texts(old(list)@).contains(s) || s == value@),
{
    let ghost before = texts(list@);
    let mut at: usize = 0;
    while at < list.len()
        invariant
            at <= list.len(),
            list@ == old(list)@,
            before == texts(list@),
            strictly_ascending(before),
            forall|k: int| 0 <= k < at ==> precedes(#[trigger] before[k], value@),
        decreases list.len() - at,
    {
        match relate(list[at].as_str(), value) {
            Relation::Before => {
                at = at + 1;
            },
            Relation::Same => {
                proof {
                    assert(before[at as int] == value@);
                }
                return ;
            },
            Relation::After => {
                let ghost gap = at as int;
                list.insert(at, value.to_owned());
                proof {
                    let now = texts(list@);
                    assert(now =~= before.insert(gap, value@));
                    assert forall|i: int, j: int| 0 <= i < j < now.len() implies precedes(
                        #[trigger] now[i],
                        #[trigger] now[j],
                    ) by {
                        if j == gap {
                            assert(precedes(before[i], value@));
                        } else if i == gap {
                            if j - 1 > gap {
                                assert(precedes(before[gap], before[j - 1]));
                                lemma_precedes_transitive(value@, before[gap], before[j - 1]);
                            }
                        } else {
                            let p = if i < gap { i } else { i - 1 };
                            let q = if j < gap { j } else { j - 1 };
                            assert(precedes(before[p], before[q]));
                        }
                    }
                    lemma_insert_members(before, gap, value@);
                }
                return ;
            },
        }
    }
    let ghost gap = list.len() as int;
    list.push(value.to_owned());
    proof {
        let now = texts(list@);
        assert(now =~= before.insert(gap, value@));
        lemma_insert_members(before, gap, value@);
    }
}

/// What a sequence holds after an insertion.
pub proof fn lemma_insert_members<A>(list: Seq<A>, at: int, value: A)
    requires
        0 <= at <= list.len(),
    ensures
        forall|x: A| list.insert(at, value).contains(x) <==> (list.contains(x) || x == value),
{
    let now = list.insert(at, value);
    assert forall|x: A| now.contains(x) <==> (list.contains(x) || x == value) by {
        if list.contains(x) {
            let i = choose|i: int| 0 <= i < list.len() && list[i] == x;
            if i < at {
                assert(now[i] == x);
            } else {
                assert(now[i + 1] == x);
            }
        }
        if x == value {
            assert(now[at] == x);
        }
        if now.contains(x) {
            let i = choose|i: int| 0 <= i < now.len() && now[i] == x;
            if i < at {
                assert(list[i] == x);
            } else if i > at {
                assert(list[i - 1] == x);
            }
        }
    }
}

/// The strings of a list in ascending order, each once.
pub fn ascending_set(list: &Vec<String>) -> (r: Vec<String>)
    ensures
        strictly_ascending(texts(r@)),
        forall|s: Seq<char>| texts(r@).contains(s) <==> texts(list@).contains(s),
{
    let mut set: Vec<String> = Vec::new();
    let ghost all = texts(list@);
    for i in 0..list.len()
        invariant
            all == texts(list@),
            strictly_ascending(texts(set@)),
            forall|s: Seq<char>| texts(set@).contains(s) <==> all.take(i as int).contains(s),
    {
        insert_ascending(&mut set, list[i].as_str());
        proof {
            let before = all.take(i as int);
            assert(all.take(i + 1) =~= before.insert(i as int, all[i as int]));
            lemma_insert_members(before, i as int, all[i as int]);
        }
    }
    proof {
        assert(all.take(list@.len() as int) =~= all);
    }
    set
}

/// Whether `value` is one of the strings of `list`.
pub fn contains_text(list: &Vec<String>, value: &str) -> (r: bool)
    ensures
        r == texts(list@).contains(value@),
{
    for i in 0..list.len()
        invariant
            forall|k: int| 0 <= k < i ==> #[trigger] texts(list@)[k] != value@,
    {
        if same(list[i].as_str(), value) {
            proof {
                assert(texts(list@)[i as int] == value@);
            }
            return true;
        }
    }
    false
}

/// Two ascending lists with the same members are the same list.
pub proof fn lemma_ascending_unique(a: Seq<Seq<char>>, b: Seq<Seq<char>>)
    requires
        strictly_ascending(a),
        strictly_ascending(b),
        forall|s: Seq<char>| a.contains(s) <==> b.contains(s),
    ensures
        a == b,
    decreases a.len(),
{
    if a.len() == 0 {
        if b.len() > 0 {
            assert(b.contains(b[0]));
        }
    } else if b.len() == 0 {
        assert(a.contains(a[0]));
    } else {
        let x = a.last();
        let y = b.last();
        assert(a.contains(x));
        assert(b.contains(y));
        assert(x == y) by {
            let i = choose|i: int| 0 <= i < b.len() && b[i] == x;
            let j = choose|j: int| 0 <= j < a.len() && a[j] == y;
            if i < b.len() - 1 && j < a.len() - 1 {
                assert(precedes(b[i], b[b.len() - 1]));
                assert(precedes(a[j], a[a.len() - 1]));
                lemma_precedes_asymmetric(x, y);
            }
        }
        let c = a.drop_last();
        let d = b.drop_last();
        assert forall|s: Seq<char>| c.contains(s) <==> d.contains(s) by {
            if c.contains(s) {
                let i = choose|i: int| 0 <= i < c.len() && c[i] == s;
                assert(a[i] == s);
                assert(precedes(a[i], a[a.len() - 1]));
                lemma_precedes_asymmetric(s, x);
                assert(a.contains(s));
                let k = choose|k: int| 0 <= k < b.len() && b[k] == s;
                assert(d[k] == s);
            }
            if d.contains(s) {
                let i = choose|i: int| 0 <= i < d.len() && d[i] == s;
                assert(b[i] == s);
                assert(precedes(b[i], b[b.len() - 1]));
                lemma_precedes_asymmetric(s, x);
                assert(b.contains(s));
                let k = choose|k: int| 0 <= k < a.len() && a[k] == s;
                assert(c[k] == s);
            }
        }
        lemma_ascending_unique(c, d);
        assert(a =~= c.push(x));
        assert(b =~= d.push(y));
    }
}

} // verus!
