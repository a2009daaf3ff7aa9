//! Names of vector tables and ids of vector points.

use vstd::prelude::*;
use crate::error::StoreError;
use crate::text::chars_of;

verus! {

pub open spec fn is_lower(c: char) -> bool {
    'a' <= c <= 'z'
}

pub open spec fn is_upper(c: char) -> bool {
    'A' <= c <= 'Z'
}

pub open spec fn is_digit(c: char) -> bool {
    '0' <= c <= '9'
}

/// An ASCII letter or digit.
pub open spec fn is_alphanumeric(c: char) -> bool {
    is_lower(c) || is_upper(c) || is_digit(c)
}

/// A hexadecimal digit.
pub open spec fn is_hex(c: char) -> bool {
    is_digit(c) || 'a' <= c <= 'f' || 'A' <= c <= 'F'
}

/// An ASCII letter in lower case, any other character unchanged.
pub open spec fn lower(c: char) -> char {
    if is_upper(c) {
        ((c as nat) + 32) as char
    } else {
        c
    }
}

pub fn ascii_alphanumeric(c: char) -> (r: bool)
    ensures
        r == is_alphanumeric(c),
{
    ('a' <= c && c <= 'z') || ('A' <= c && c <= 'Z') || ('0' <= c && c <= '9')
}

pub fn ascii_hex(c: char) -> (r: bool)
    ensures
        r == is_hex(c),
{
    ('0' <= c && c <= '9') || ('a' <= c && c <= 'f') || ('A' <= c && c <= 'F')
}

pub fn ascii_lower(c: char) -> (r: char)
    ensures
        r == lower(c),
{
    if 'A' <= c && c <= 'Z' {
        (c as u8 + 32u8) as char
    } else {
        c
    }
}

/// A character that white space is made of.
pub open spec fn is_white_space(c: char) -> bool {
    let n = c as nat;
    ||| 0x09 <= n <= 0x0d
    ||| n == 0x20
    ||| n == 0x85
    ||| n == 0xa0
    ||| n == 0x1680
    ||| 0x2000 <= n <= 0x200a
    ||| n == 0x2028
    ||| n == 0x2029
    ||| n == 0x202f
    ||| n == 0x205f
    ||| n == 0x3000
}

pub fn white_space(c: char) -> (r: bool)
    ensures
        r == is_white_space(c),
{
    ('\u{9}' <= c && c <= '\u{d}') || c == '\u{20}' || c == '\u{85}' || c == '\u{a0}' || c
        == '\u{1680}' || ('\u{2000}' <= c && c <= '\u{200a}') || c == '\u{2028}' || c
        == '\u{2029}' || c == '\u{202f}' || c == '\u{205f}' || c == '\u{3000}'
}

/// A string of white space only.
pub open spec fn is_blank(s: Seq<char>) -> bool {
    forall|i: int| 0 <= i < s.len() ==> is_white_space(#[trigger] s[i])
}

pub fn blank(s: &str) -> (r: bool)
    ensures
        r == is_blank(s@),
{
    let chars = chars_of(s);
    for i in 0..chars.len()
        invariant
            chars@ == s@,
            forall|j: int| 0 <= j < i ==> is_white_space(#[trigger] s@[j]),
    {
        if !white_space(chars[i]) {
            proof {
                assert(!is_white_space(s@[i as int]));
            }
            return false;
        }
    }
    true
}

/// Letters and digits in lower case, every run of other characters as one underscore.
pub open spec fn slug_of(input: Seq<char>) -> Seq<char>
    decreases input.len(),
{
    if input.len() == 0 {
        Seq::empty()
    } else {
        let front = slug_of(input.drop_last());
        if is_alphanumeric(input.last()) {
            front.push(lower(input.last()))
        } else if front.len() > 0 && front.last() == '_' {
            front
        } else {
            front.push('_')
        }
    }
}

/// The slug of a name, or `unknown` where it would be empty.
pub open spec fn slug_or_unknown(input: Seq<char>) -> Seq<char> {
    if slug_of(input).len() == 0 {
        "unknown"@
    } else {
        slug_of(input)
    }
}

pub fn slug_component(input: &str) -> (r: String)
    ensures
        r@ == slug_or_unknown(input@),
{
    let chars = chars_of(input);
    let mut slug = String::new();
    let mut after_underscore = false;
    for i in 0..chars.len()
        invariant
            chars@ == input@,
            slug@ == slug_of(input@.take(i as int)),
            after_underscore == (slug@.len() > 0 && slug@.last() == '_'),
    {
        let c = chars[i];
        proof {
            assert(input@.take(i + 1).drop_last() =~= input@.take(i as int));
            assert(input@.take(i + 1).last() == c);
            assert(is_alphanumeric(c) ==> lower(c) != '_');
        }
        if ascii_alphanumeric(c) {
            slug.push(ascii_lower(c));
            after_underscore = false;
        } else if !after_underscore {
            slug.push('_');
            after_underscore = true;
        }
    }
    proof {
        assert(input@.take(input@.len() as int) =~= input@);
    }
    if slug.as_str().is_empty() {
        "unknown".to_owned()
    } else {
        slug
    }
}

/// The name of the vector table of a repository and an embedding model.
pub open spec fn table_name_of(repository_id: Seq<char>, embedding_model: Seq<char>) -> Seq<char> {
    "symdex_"@ + slug_or_unknown(repository_id) + "_"@ + slug_or_unknown(embedding_model)
}

pub fn vector_table_name(repository_id: &str, embedding_model: &str) -> (r: String)
    ensures
        r@ == table_name_of(repository_id@, embedding_model@),
{
    let mut name = "symdex_".to_owned();
    name.append(slug_component(repository_id).as_str());
    name.append("_");
    name.append(slug_component(embedding_model).as_str());
    name
}

/// A character that may stand in a table name.
pub open spec fn is_name_character(c: char) -> bool {
    is_alphanumeric(c) || c == '_'
}

/// Letters, digits and underscores only.
pub open spec fn is_plain_name(name: Seq<char>) -> bool {
    forall|i: int| 0 <= i < name.len() ==> is_name_character(#[trigger] name[i])
}

/// A name that a table can have without quotes.
pub open spec fn is_table_name(name: Seq<char>) -> bool {
    name.len() > 0 && is_plain_name(name)
}

pub fn plain_name(name: &str) -> (r: bool)
    ensures
        r == is_plain_name(name@),
{
    let chars = chars_of(name);
    for i in 0..chars.len()
        invariant
            chars@ == name@,
            forall|j: int| 0 <= j < i ==> is_name_character(#[trigger] name@[j]),
    {
        if !(ascii_alphanumeric(chars[i]) || chars[i] == '_') {
            proof {
                assert(!is_name_character(name@[i as int]));
            }
            return false;
        }
    }
    true
}

pub fn validate_vector_table_name(table_name: &str) -> (r: Result<(), StoreError>)
    ensures
        is_table_name(table_name@) <==> r is Ok,
        r matches Err(e) ==> (e matches StoreError::InvalidVectorTableName(name) && name@
            == table_name@),
{
    if table_name.is_empty() || !plain_name(table_name) {
        Err(StoreError::InvalidVectorTableName(table_name.to_owned()))
    } else {
        Ok(())
    }
}

/// Letters in lower case, digits and underscores only.
pub open spec fn is_lower_name(name: Seq<char>) -> bool {
    forall|i: int|
        0 <= i < name.len() ==> is_name_character(#[trigger] name[i]) && !is_upper(name[i])
}

/// No two underscores in a row.
pub open spec fn is_collapsed(name: Seq<char>) -> bool {
    forall|i: int| 0 < i < name.len() ==> !(name[i - 1] == '_' && #[trigger] name[i] == '_')
}

proof fn lemma_slug_is_lower(input: Seq<char>)
    ensures
        is_lower_name(slug_of(input)),
    decreases input.len(),
{
    if input.len() > 0 {
        lemma_slug_is_lower(input.drop_last());
    }
}

proof fn lemma_slug_is_collapsed(input: Seq<char>)
    ensures
        is_collapsed(slug_of(input)),
    decreases input.len(),
{
    if input.len() > 0 {
        lemma_slug_is_collapsed(input.drop_last());
        let front = slug_of(input.drop_last());
        let whole = slug_of(input);
        assert(is_alphanumeric(input.last()) ==> lower(input.last()) != '_');
        assert forall|i: int| 0 < i < whole.len() implies !(whole[i - 1] == '_'
            && #[trigger] whole[i] == '_') by {
            if i < front.len() {
                assert(front[i] == whole[i]);
                assert(front[i - 1] == whole[i - 1]);
            }
        }
    }
}

/// A collapsed name in lower case is its own slug.
proof fn lemma_slug_of_slug(name: Seq<char>)
    requires
        is_lower_name(name),
        is_collapsed(name),
    ensures
        slug_of(name) == name,
    decreases name.len(),
{
    if name.len() > 0 {
        let front = name.drop_last();
        assert forall|i: int| 0 < i < front.len() implies !(front[i - 1] == '_'
            && #[trigger] front[i] == '_') by {
            assert(name[i] == front[i]);
        }
        lemma_slug_of_slug(front);
        let last = name.len() - 1;
        assert(is_name_character(name[last]) && !is_upper(name[last]));
        if name.len() > 1 {
            assert(!(name[last - 1] == '_' && name[last] == '_'));
            assert(front.last() == name[last - 1]);
        }
        assert(slug_of(name) =~= name);
    }
}

/// What `slug_component` returns is not empty and holds lower-case letters, digits and
/// underscores only.
pub proof fn law_slugs_are_lower_names(input: Seq<char>)
    ensures
        slug_or_unknown(input).len() > 0,
        is_lower_name(slug_or_unknown(input)),
{
    reveal_strlit("unknown");
    lemma_slug_is_lower(input);
}

/// What `slug_component` returns holds no two underscores in a row.
pub proof fn law_slugs_collapse_separators(input: Seq<char>)
    ensures
        is_collapsed(slug_or_unknown(input)),
{
    reveal_strlit("unknown");
    lemma_slug_is_collapsed(input);
}

/// What `slug_component` returns for what it returned is the same again.
pub proof fn law_slugs_are_stable(input: Seq<char>)
    ensures
        slug_or_unknown(slug_or_unknown(input)) == slug_or_unknown(input),
{
    law_slugs_are_lower_names(input);
    law_slugs_collapse_separators(input);
    lemma_slug_of_slug(slug_or_unknown(input));
}

/// Every table name that is made passes validation and has no upper case, whatever the repository
/// and the model are called.
pub proof fn law_table_names_are_valid(repository_id: Seq<char>, embedding_model: Seq<char>)
    ensures
        is_table_name(table_name_of(repository_id, embedding_model)),
        is_lower_name(table_name_of(repository_id, embedding_model)),
{
    reveal_strlit("symdex_");
    reveal_strlit("_");
    law_slugs_are_lower_names(repository_id);
    law_slugs_are_lower_names(embedding_model);
    assert("symdex_"@.len() == 7);
    assert(is_lower_name("symdex_"@));
    assert(is_lower_name("_"@));
}

/// The hexadecimal digits of a string, in lower case.
pub open spec fn hex_digits(s: Seq<char>) -> Seq<char>
    decreases s.len(),
{
    if s.len() == 0 {
        Seq::empty()
    } else if is_hex(s.last()) {
        hex_digits(s.drop_last()).push(lower(s.last()))
    } else {
        hex_digits(s.drop_last())
    }
}

fn hex_digits_of(s: &str) -> (r: Vec<char>)
    ensures
        r@ == hex_digits(s@),
{
    let chars = chars_of(s);
    let mut out: Vec<char> = Vec::new();
    for i in 0..chars.len()
        invariant
            chars@ == s@,
            out@ == hex_digits(s@.take(i as int)),
    {
        proof {
            assert(s@.take(i + 1).drop_last() =~= s@.take(i as int));
        }
        if ascii_hex(chars[i]) {
            out.push(ascii_lower(chars[i]));
        }
    }
    proof {
        assert(s@.take(s@.len() as int) =~= s@);
    }
    out
}

fn append_range(out: &mut String, chars: &Vec<char>, from: usize, to: usize)
    requires
        from <= to <= chars@.len(),
    ensures
        final(out)@ == old(out)@ + chars@.subrange(from as int, to as int),
{
    let ghost before = out@;
    let mut i = from;
    proof {
        assert(before + chars@.subrange(from as int, from as int) =~= before);
    }
    while i < to
        invariant
            from <= i <= to <= chars@.len(),
            out@ == before + chars@.subrange(from as int, i as int),
        decreases to - i,
    {
        out.push(chars[i]);
        i = i + 1;
        proof {
            assert(out@ =~= before + chars@.subrange(from as int, i as int));
        }
    }
}

/// 32 digits in groups of 8, 4, 4, 4 and 12, with hyphens between.
pub open spec fn grouped(hex: Seq<char>) -> Seq<char> {
    hex.subrange(0, 8) + "-"@ + hex.subrange(8, 12) + "-"@ + hex.subrange(12, 16) + "-"@
        + hex.subrange(16, 20) + "-"@ + hex.subrange(20, 32)
}

/// The id of a vector point: the hexadecimal digits of a hash, grouped; an error where there are
/// not 32 of them.
pub open spec fn is_point_id(r: Result<String, StoreError>, hash: Seq<char>) -> bool {
    if hex_digits(hash).len() == 32 {
        r matches Ok(id) && id@ == grouped(hex_digits(hash))
    } else {
        r matches Err(StoreError::InvalidPointId(source)) && source@ == hash
    }
}

pub fn vector_point_id(stable_hash: &str) -> (r: Result<String, StoreError>)
    ensures
        is_point_id(r, stable_hash@),
{
    let hex = hex_digits_of(stable_hash);
    if hex.len() != 32 {
        return Err(StoreError::InvalidPointId(stable_hash.to_owned()));
    }
    let mut id = String::new();
    append_range(&mut id, &hex, 0, 8);
    id.append("-");
    append_range(&mut id, &hex, 8, 12);
    id.append("-");
    append_range(&mut id, &hex, 12, 16);
    id.append("-");
    append_range(&mut id, &hex, 16, 20);
    id.append("-");
    append_range(&mut id, &hex, 20, 32);
    proof {
        assert(id@ =~= grouped(hex@));
    }
    Ok(id)
}

proof fn lemma_hex_concat(a: Seq<char>, b: Seq<char>)
    ensures
        hex_digits(a + b) == hex_digits(a) + hex_digits(b),
    decreases b.len(),
{
    if b.len() == 0 {
        assert(a + b =~= a);
        assert(hex_digits(a) + hex_digits(b) =~= hex_digits(a));
    } else {
        assert((a + b).drop_last() =~= a + b.drop_last());
        lemma_hex_concat(a, b.drop_last());
        assert(hex_digits(a + b) =~= hex_digits(a) + hex_digits(b));
    }
}

proof fn lemma_hex_stable(s: Seq<char>)
    requires
        forall|i: int| 0 <= i < s.len() ==> is_hex(#[trigger] s[i]) && !is_upper(s[i]),
    ensures
        hex_digits(s) == s,
    decreases s.len(),
{
    if s.len() == 0 {
        assert(hex_digits(s) =~= s);
    } else {
        let front = s.drop_last();
        assert forall|i: int| 0 <= i < front.len() implies is_hex(#[trigger] front[i]) && !is_upper(
            front[i],
        ) by {
            assert(front[i] == s[i]);
        }
        lemma_hex_stable(front);
        assert(is_hex(s[s.len() - 1]));
        assert(hex_digits(s) =~= s);
    }
}

proof fn lemma_hex_digits_lower(s: Seq<char>)
    ensures
        forall|i: int|
            0 <= i < hex_digits(s).len() ==> is_hex(#[trigger] hex_digits(s)[i]) && !is_upper(
                hex_digits(s)[i],
            ),
    decreases s.len(),
{
    if s.len() > 0 {
        let front = hex_digits(s.drop_last());
        let whole = hex_digits(s);
        lemma_hex_digits_lower(s.drop_last());
        assert forall|i: int| 0 <= i < whole.len() implies is_hex(#[trigger] whole[i]) && !is_upper(
            whole[i],
        ) by {
            if i < front.len() {
                assert(whole[i] == front[i]);
            }
        }
    }
}

/// The digits of a grouped id are the digits it was made of: reading a point id again gives the
/// same id.
pub proof fn law_point_ids_are_stable(hash: Seq<char>)
    requires
        hex_digits(hash).len() == 32,
    ensures
        hex_digits(grouped(hex_digits(hash))) == hex_digits(hash),
        grouped(hex_digits(hash)).len() == 36,
{
    let h = hex_digits(hash);
    lemma_hex_digits_lower(hash);
    reveal_strlit("-");
    let dash = "-"@;
    assert(dash.len() == 1 && dash[0] == '-');
    assert(hex_digits(dash) =~= Seq::empty()) by {
        assert(dash.drop_last() =~= Seq::empty());
        assert(!is_hex(dash.last()));
        assert(hex_digits(dash.drop_last()) =~= Seq::empty());
    }
    let a = h.subrange(0, 8);
    let b = h.subrange(8, 12);
    let c = h.subrange(12, 16);
    let d = h.subrange(16, 20);
    let e = h.subrange(20, 32);
    lemma_hex_stable(a);
    lemma_hex_stable(b);
    lemma_hex_stable(c);
    lemma_hex_stable(d);
    lemma_hex_stable(e);
    lemma_hex_concat(a, dash);
    lemma_hex_concat(a + dash, b);
    lemma_hex_concat(a + dash + b, dash);
    lemma_hex_concat(a + dash + b + dash, c);
    lemma_hex_concat(a + dash + b + dash + c, dash);
    lemma_hex_concat(a + dash + b + dash + c + dash, d);
    lemma_hex_concat(a + dash + b + dash + c + dash + d, dash);
    lemma_hex_concat(a + dash + b + dash + c + dash + d + dash, e);
    assert(hex_digits(grouped(h)) =~= h);
}

/// The case of a hash does not matter for its point id.
pub proof fn law_point_ids_ignore_case(a: Seq<char>, b: Seq<char>)
    requires
        a.len() == b.len(),
        forall|i: int| 0 <= i < a.len() ==> lower(#[trigger] a[i]) == lower(b[i]),
    ensures
        hex_digits(a) == hex_digits(b),
    decreases a.len(),
{
    if a.len() > 0 {
        let front = a.drop_last();
        let other = b.drop_last();
        assert forall|i: int| 0 <= i < front.len() implies lower(#[trigger] front[i]) == lower(
            other[i],
        ) by {
            assert(front[i] == a[i]);
        }
        law_point_ids_ignore_case(front, other);
        assert(lower(a[a.len() - 1]) == lower(b[b.len() - 1]));
        assert(is_hex(a.last()) == is_hex(b.last()));
    }
}

/// The value of a hexadecimal digit.
pub open spec fn hex_digit_value(c: char) -> nat {
    if is_digit(c) {
        ((c as nat) - ('0' as nat)) as nat
    } else if 'a' <= c <= 'f' {
        ((c as nat) - ('a' as nat) + 10) as nat
    } else {
        ((c as nat) - ('A' as nat) + 10) as nat
    }
}

/// The number that hexadecimal digits stand for.
pub open spec fn hex_value(digits: Seq<char>) -> nat
    decreases digits.len(),
{
    if digits.len() == 0 {
        0
    } else {
        hex_value(digits.drop_last()) * 16 + hex_digit_value(digits.last())
    }
}

/// The digits of a number in hexadecimal notation, which may have a plus sign in front.
pub open spec fn unsigned_digits(s: Seq<char>) -> Seq<char> {
    if s.len() > 0 && s[0] == '+' {
        s.drop_first()
    } else {
        s
    }
}

pub open spec fn all_hex(s: Seq<char>) -> bool {
    forall|i: int| 0 <= i < s.len() ==> is_hex(#[trigger] s[i])
}

/// The number that a string of at most 16 characters stands for in hexadecimal notation, if it
/// stands for one.
pub open spec fn parsed_hex(s: Seq<char>) -> Option<nat> {
    let digits = unsigned_digits(s);
    if digits.len() > 0 && all_hex(digits) {
        Some(hex_value(digits))
    } else {
        None
    }
}

spec fn sixteen_to(n: nat) -> nat
    decreases n,
{
    if n == 0 {
        1
    } else {
        16 * sixteen_to((n - 1) as nat)
    }
}

proof fn lemma_hex_bound(digits: Seq<char>)
    requires
        all_hex(digits),
    ensures
        hex_value(digits) < sixteen_to(digits.len()),
    decreases digits.len(),
{
    if digits.len() > 0 {
        let front = digits.drop_last();
        assert forall|i: int| 0 <= i < front.len() implies is_hex(#[trigger] front[i]) by {
            assert(front[i] == digits[i]);
        }
        lemma_hex_bound(front);
        assert(is_hex(digits[digits.len() - 1]));
        assert(hex_digit_value(digits.last()) < 16);
    }
}

proof fn lemma_sixteen_monotone(a: nat, b: nat)
    requires
        a <= b,
    ensures
        sixteen_to(a) <= sixteen_to(b),
    decreases b - a,
{
    if a < b {
        lemma_sixteen_monotone(a, (b - 1) as nat);
    }
}

fn parse_hex(s: &Vec<char>) -> (r: Option<u64>)
    requires
        s@.len() <= 16,
    ensures
        match r {
            Some(n) => parsed_hex(s@) == Some(n as nat),
            None => parsed_hex(s@) is None,
        },
{
    let start: usize = if s.len() > 0 && s[0] == '+' {
        1
    } else {
        0
    };
    let ghost digits = unsigned_digits(s@);
    proof {
        assert(digits =~= s@.skip(start as int));
    }
    if start == s.len() {
        return None;
    }
    let mut value: u64 = 0;
    let mut i = start;
    while i < s.len()
        invariant
            start <= i <= s@.len() <= 16,
            digits == unsigned_digits(s@),
            digits == s@.skip(start as int),
            all_hex(digits.take(i - start)),
            value == hex_value(digits.take(i - start)),
        decreases s.len() - i,
    {
        let c = s[i];
        let ghost known = digits.take(i - start);
        proof {
            assert(digits[i - start] == c);
            assert(digits.take(i + 1 - start).drop_last() =~= known);
            assert(digits.take(i + 1 - start).last() == c);
        }
        if !ascii_hex(c) {
            proof {
                assert(!is_hex(digits[i - start]));
            }
            return None;
        }
        let digit: u64 = if '0' <= c && c <= '9' {
            (c as u8 - 48u8) as u64
        } else if 'a' <= c && c <= 'f' {
            (c as u8 - 97u8 + 10u8) as u64
        } else {
            (c as u8 - 65u8 + 10u8) as u64
        };
        proof {
            lemma_hex_bound(known);
            lemma_sixteen_monotone(known.len(), 15);
            assert(sixteen_to(15) == 0x1000_0000_0000_0000) by {
                reveal_with_fuel(sixteen_to, 16);
            }
        }
        value = value * 16 + digit;
        i = i + 1;
        proof {
            assert forall|j: int| 0 <= j < digits.take(i - start).len() implies is_hex(
                #[trigger] digits.take(i - start)[j],
            ) by {
                if j < known.len() {
                    assert(known[j] == digits[j]);
                }
            }
        }
    }
    proof {
        assert(digits.take(i - start) =~= digits);
    }
    Some(value)
}

/// The strings that the digest of a point id without 16 digits is made of.
pub fn vector_rowid_parts(point_id: &str) -> (r: Vec<String>)
    ensures
        crate::text::texts(r@) == seq!["vector-rowid"@, point_id@],
{
    let parts = vec!["vector-rowid".to_owned(), point_id.to_owned()];
    proof {
        assert(crate::text::texts(parts@) =~= seq!["vector-rowid"@, point_id@]);
    }
    parts
}

/// The characters that a row id is read from: the first 16 hexadecimal digits of the point id,
/// or where it has fewer the first 16 characters of its digest.
pub open spec fn rowid_source(point_id: Seq<char>, digest: Seq<char>) -> Seq<char> {
    let hex = raw_hex_digits(point_id);
    if hex.len() >= 16 {
        hex.take(16)
    } else if digest.len() >= 16 {
        digest.take(16)
    } else {
        digest
    }
}

/// The hexadecimal digits of a string as they stand.
pub open spec fn raw_hex_digits(s: Seq<char>) -> Seq<char>
    decreases s.len(),
{
    if s.len() == 0 {
        Seq::empty()
    } else if is_hex(s.last()) {
        raw_hex_digits(s.drop_last()).push(s.last())
    } else {
        raw_hex_digits(s.drop_last())
    }
}

/// The row id that a number gives: its low 63 bits, and 1 where they are all zero.
pub open spec fn rowid_from(value: nat) -> int {
    let low = value % 0x8000_0000_0000_0000;
    if low == 0 {
        1
    } else {
        low as int
    }
}

/// The row of a vector table that holds a point; none where the id is blank or the digest is no
/// number.
pub open spec fn rowid_of(point_id: Seq<char>, digest: Seq<char>) -> Option<int> {
    if is_blank(point_id) {
        None
    } else {
        match parsed_hex(rowid_source(point_id, digest)) {
            Some(value) => Some(rowid_from(value)),
            None => None,
        }
    }
}

proof fn lemma_hex_value_ignores_case(a: Seq<char>, b: Seq<char>)
    requires
        a.len() == b.len(),
        forall|i: int| 0 <= i < a.len() ==> lower(#[trigger] a[i]) == lower(b[i]),
        all_hex(a),
    ensures
        all_hex(b),
        hex_value(a) == hex_value(b),
    decreases a.len(),
{
    assert forall|i: int| 0 <= i < b.len() implies is_hex(#[trigger] b[i]) by {
        assert(is_hex(a[i]));
    }
    if a.len() > 0 {
        let front = a.drop_last();
        let other = b.drop_last();
        assert forall|i: int| 0 <= i < front.len() implies lower(#[trigger] front[i]) == lower(
            other[i],
        ) by {
            assert(front[i] == a[i]);
        }
        assert forall|i: int| 0 <= i < front.len() implies is_hex(#[trigger] front[i]) by {
            assert(front[i] == a[i]);
        }
        lemma_hex_value_ignores_case(front, other);
        let last = a.len() - 1;
        assert(is_hex(a[last]) && lower(a[last]) == lower(b[last]));
        assert(hex_digit_value(a.last()) == hex_digit_value(b.last()));
    }
}

proof fn lemma_raw_digits_ignore_case(a: Seq<char>, b: Seq<char>)
    requires
        a.len() == b.len(),
        forall|i: int| 0 <= i < a.len() ==> lower(#[trigger] a[i]) == lower(b[i]),
    ensures
        all_hex(raw_hex_digits(a)),
        raw_hex_digits(a).len() == raw_hex_digits(b).len(),
        forall|i: int|
            0 <= i < raw_hex_digits(a).len() ==> lower(#[trigger] raw_hex_digits(a)[i]) == lower(
                raw_hex_digits(b)[i],
            ),
    decreases a.len(),
{
    if a.len() > 0 {
        let front = a.drop_last();
        let other = b.drop_last();
        assert forall|i: int| 0 <= i < front.len() implies lower(#[trigger] front[i]) == lower(
            other[i],
        ) by {
            assert(front[i] == a[i]);
        }
        lemma_raw_digits_ignore_case(front, other);
        assert(lower(a[a.len() - 1]) == lower(b[b.len() - 1]));
        assert(is_hex(a.last()) == is_hex(b.last()));
        let digits = raw_hex_digits(a);
        assert forall|i: int| 0 <= i < digits.len() implies is_hex(#[trigger] digits[i]) by {
            if i < raw_hex_digits(front).len() {
                assert(digits[i] == raw_hex_digits(front)[i]);
            }
        }
    }
}

/// The case of a point id does not matter for its row, where the id has the 16 digits that the
/// row is read from; the digests do not matter then either.
pub proof fn law_rows_ignore_case(
    a: Seq<char>,
    b: Seq<char>,
    digest: Seq<char>,
    other_digest: Seq<char>,
)
    requires
        a.len() == b.len(),
        forall|i: int| 0 <= i < a.len() ==> lower(#[trigger] a[i]) == lower(b[i]),
        raw_hex_digits(a).len() >= 16,
    ensures
        rowid_of(a, digest) is Some,
        rowid_of(a, digest) == rowid_of(b, other_digest),
{
    lemma_raw_digits_ignore_case(a, b);
    let x = raw_hex_digits(a).take(16);
    let y = raw_hex_digits(b).take(16);
    assert forall|i: int| 0 <= i < x.len() implies lower(#[trigger] x[i]) == lower(y[i]) by {
        assert(x[i] == raw_hex_digits(a)[i]);
    }
    assert forall|i: int| 0 <= i < x.len() implies is_hex(#[trigger] x[i]) by {
        assert(x[i] == raw_hex_digits(a)[i]);
    }
    lemma_hex_value_ignores_case(x, y);
    assert(x[0] != '+') by {
        assert(is_hex(x[0]));
    }
    assert(y[0] != '+') by {
        assert(is_hex(y[0]));
    }
    lemma_blank_has_no_digits(a);
    lemma_blank_has_no_digits(b);
}

proof fn lemma_blank_has_no_digits(s: Seq<char>)
    ensures
        is_blank(s) ==> raw_hex_digits(s).len() == 0,
    decreases s.len(),
{
    if s.len() > 0 && is_blank(s) {
        let front = s.drop_last();
        assert forall|i: int| 0 <= i < front.len() implies is_white_space(#[trigger] front[i]) by {
            assert(front[i] == s[i]);
        }
        lemma_blank_has_no_digits(front);
        assert(is_white_space(s[s.len() - 1]));
    }
}

/// `r` is the row of a point, or the error that it has none.
pub open spec fn is_rowid(
    r: Result<i64, StoreError>,
    point_id: Seq<char>,
    digest: Seq<char>,
) -> bool {
    match rowid_of(point_id, digest) {
        Some(rowid) => r == Ok::<i64, StoreError>(rowid as i64),
        None => r matches Err(StoreError::InvalidPointId(id)) && id@ == point_id,
    }
}

/// The row id of a point. `digest` is the stable id of the parts that `vector_rowid_parts` gives;
/// it only matters where the point id has fewer than 16 hexadecimal digits.
pub fn vector_rowid(point_id: &str, digest: &str) -> (r: Result<i64, StoreError>)
    ensures
        is_rowid(r, point_id@, digest@),
{
    if blank(point_id) {
        return Err(StoreError::InvalidPointId(point_id.to_owned()));
    }
    let chars = chars_of(point_id);
    let mut hex: Vec<char> = Vec::new();
    for i in 0..chars.len()
        invariant
            chars@ == point_id@,
            hex@ == raw_hex_digits(point_id@.take(i as int)),
    {
        proof {
            assert(point_id@.take(i + 1).drop_last() =~= point_id@.take(i as int));
        }
        if ascii_hex(chars[i]) {
            hex.push(chars[i]);
        }
    }
    proof {
        assert(point_id@.take(point_id@.len() as int) =~= point_id@);
    }
    if hex.len() < 16 {
        hex = chars_of(digest);
    }
    if hex.len() > 16 {
        hex.truncate(16);
    }
    proof {
        assert(hex@ =~= rowid_source(point_id@, digest@));
    }
    match parse_hex(&hex) {
        Some(value) => {
            let low = value & 0x7fff_ffff_ffff_ffffu64;
            proof {
                assert(value & 0x7fff_ffff_ffff_ffffu64 == value % 0x8000_0000_0000_0000u64)
                    by (bit_vector);
            }
            proof {
                law_row_ids_are_positive(value as nat);
            }
            if low == 0 {
                Ok(1)
            } else {
                Ok(low as i64)
            }
        },
        None => Err(StoreError::InvalidPointId(point_id.to_owned())),
    }
}

/// A row id is positive and fits into a signed number of 64 bits.
pub proof fn law_row_ids_are_positive(value: nat)
    ensures
        1 <= rowid_from(value) <= i64::MAX,
{
}

/// The row id of a point with 16 hexadecimal digits does not depend on the digest.
pub proof fn law_row_ids_need_no_digest(point_id: Seq<char>, digest: Seq<char>, other: Seq<char>)
    requires
        raw_hex_digits(point_id).len() >= 16,
    ensures
        rowid_source(point_id, digest) == rowid_source(point_id, other),
{
}

} // verus!
