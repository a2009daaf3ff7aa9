//! The boundary with SQLite: values, rows, statements and commands, and how a row is read.

use vstd::prelude::*;
use crate::error::{is_fault, BadColumn, Fault, StoreError, ValueType};
use crate::numbers::{real_of, whole};

verus! {

/// A double-precision number, held by its bits.
#[derive(Debug, Clone, Copy, PartialEq, Eq, Structural)]
pub struct Real {
    pub bits: u64,
}

/// The bits of the number 1.
pub const ONE_BITS: u64 = 0x3ff0_0000_0000_0000;

/// The bits of positive infinity.
pub const INFINITY_BITS: u64 = 0x7ff0_0000_0000_0000;

/// The weight of the sign bit.
pub const SIGN_BITS: u64 = 0x8000_0000_0000_0000;

impl Real {
    /// The bits without the sign.
    pub open spec fn magnitude(self) -> int {
        if self.bits < SIGN_BITS {
            self.bits as int
        } else {
            self.bits - SIGN_BITS
        }
    }

    /// Not a number: beyond infinity in magnitude.
    pub open spec fn is_nan_spec(self) -> bool {
        self.magnitude() > INFINITY_BITS
    }

    /// An integer that orders numbers as their values do; both zeros have the key 0.
    pub open spec fn key(self) -> int {
        if self.bits < SIGN_BITS {
            self.magnitude()
        } else {
            -self.magnitude()
        }
    }

    /// `self >= other` as numbers; false where either is not a number.
    pub open spec fn at_least_spec(self, other: Real) -> bool {
        !self.is_nan_spec() && !other.is_nan_spec() && self.key() >= other.key()
    }

    /// The smaller of two numbers; the other one where one is not a number.
    pub open spec fn min_spec(self, other: Real) -> Real {
        if self.is_nan_spec() {
            other
        } else if other.is_nan_spec() {
            self
        } else if other.key() < self.key() {
            other
        } else {
            self
        }
    }

    pub fn is_nan(self) -> (r: bool)
        ensures
            r == self.is_nan_spec(),
    {
        if self.bits < SIGN_BITS {
            self.bits > INFINITY_BITS
        } else {
            self.bits - SIGN_BITS > INFINITY_BITS
        }
    }

    fn below(self, other: Real) -> (r: bool)
        ensures
            r == (self.key() < other.key()),
    {
        if self.bits < SIGN_BITS {
            other.bits < SIGN_BITS && self.bits < other.bits
        } else if other.bits < SIGN_BITS {
            self.bits > SIGN_BITS || other.bits > 0
        } else {
            self.bits > other.bits
        }
    }

    pub fn at_least(self, other: Real) -> (r: bool)
        ensures
            r == self.at_least_spec(other),
    {
        !self.is_nan() && !other.is_nan() && !self.below(other)
    }

    pub fn min(self, other: Real) -> (r: Real)
        ensures
            r == self.min_spec(other),
    {
        if self.is_nan() {
            other
        } else if other.is_nan() {
            self
        } else if other.below(self) {
            other
        } else {
            self
        }
    }
}

/// A value that SQLite stores or returns.
#[derive(Debug, Clone, PartialEq)]
pub enum SqlValue {
    Null,
    Integer(i64),
    Real(Real),
    Text(String),
    Blob(Vec<u8>),
}

/// The mathematical reading of a value.
#[verifier::ext_equal]
pub enum Value {
    Null,
    Integer(int),
    Real(Real),
    Text(Seq<char>),
    Blob(Seq<u8>),
}

impl View for SqlValue {
    type V = Value;

    open spec fn view(&self) -> Value {
        match *self {
            SqlValue::Null => Value::Null,
            SqlValue::Integer(n) => Value::Integer(n as int),
            SqlValue::Real(x) => Value::Real(x),
            SqlValue::Text(s) => Value::Text(s@),
            SqlValue::Blob(b) => Value::Blob(b@),
        }
    }
}

/// The readings of a list of values.
pub open spec fn values(list: Seq<SqlValue>) -> Seq<Value> {
    Seq::new(list.len(), |i: int| list[i]@)
}

/// One row of a result.
pub type Row = Vec<SqlValue>;

/// A statement and the values bound to its parameters, the first to `?1`.
#[derive(Debug, Clone, PartialEq)]
pub struct Statement {
    pub sql: String,
    pub params: Vec<SqlValue>,
}

/// The mathematical reading of a statement.
#[verifier::ext_equal]
pub struct StatementView {
    pub sql: Seq<char>,
    pub params: Seq<Value>,
}

impl View for Statement {
    type V = StatementView;

    open spec fn view(&self) -> StatementView {
        StatementView { sql: self.sql@, params: values(self.params@) }
    }
}

/// The reading of the statement `sql` with the given bound values.
pub open spec fn statement_of(sql: &str, params: Seq<Value>) -> StatementView {
    StatementView { sql: sql@, params }
}

/// One step of an operation: what is to be done with the database next.
#[derive(Debug, Clone, PartialEq)]
pub enum Command {
    /// Open a transaction.
    Begin,
    /// Run a statement that returns no rows.
    Execute(Statement),
    /// Run a statement and hand its rows back.
    Query(Statement),
    /// Run a script of statements without parameters.
    Batch(String),
    /// Commit the transaction.
    Commit,
}

/// The mathematical reading of a command.
#[verifier::ext_equal]
pub enum CommandView {
    Begin,
    Execute(StatementView),
    Query(StatementView),
    Batch(Seq<char>),
    Commit,
}

impl View for Command {
    type V = CommandView;

    open spec fn view(&self) -> CommandView {
        match *self {
            Command::Begin => CommandView::Begin,
            Command::Execute(s) => CommandView::Execute(s@),
            Command::Query(s) => CommandView::Query(s@),
            Command::Batch(s) => CommandView::Batch(s@),
            Command::Commit => CommandView::Commit,
        }
    }
}

/// The readings of a list of commands.
pub open spec fn script(list: Seq<Command>) -> Seq<CommandView> {
    Seq::new(list.len(), |i: int| list[i]@)
}

/// Queries to run one after the other.
pub open spec fn queries(list: Seq<StatementView>) -> Seq<CommandView> {
    Seq::new(list.len(), |i: int| CommandView::Query(list[i]))
}

/// Whether a step opens or closes a transaction.
pub open spec fn is_boundary(step: CommandView) -> bool {
    step is Begin || step is Commit
}

/// The steps are one transaction that closes at `end`: the first one opens it, no other step
/// opens or closes one, and after the end nothing is stored.
pub open spec fn closes_at(steps: Seq<CommandView>, end: int) -> bool {
    &&& 0 < end < steps.len()
    &&& steps[0] is Begin
    &&& steps[end] is Commit
    &&& forall|i: int| 0 < i < steps.len() && i != end ==> !is_boundary(#[trigger] steps[i])
    &&& forall|i: int| end < i < steps.len() ==> (#[trigger] steps[i]) is Query
}

/// The steps store what they store in one transaction.
pub open spec fn is_transaction(steps: Seq<CommandView>) -> bool {
    exists|end: int| #[trigger] closes_at(steps, end)
}

/// Builds a statement.
pub fn statement(sql: &str, params: Vec<SqlValue>) -> (r: Statement)
    ensures
        r@ == statement_of(sql, values(params@)),
        r.params@ == params@,
{
    Statement { sql: sql.to_owned(), params }
}

pub open spec fn text(s: Seq<char>) -> Value {
    Value::Text(s)
}

pub open spec fn optional(s: Option<Seq<char>>) -> Value {
    match s {
        Some(s) => Value::Text(s),
        None => Value::Null,
    }
}

/// A size as SQLite stores it: the same 64 bits, read as a signed number.
pub open spec fn stored(n: usize) -> i64 {
    n as i64
}

pub open spec fn count(n: usize) -> Value {
    Value::Integer(stored(n) as int)
}

pub open spec fn optional_count(n: Option<usize>) -> Value {
    match n {
        Some(n) => count(n),
        None => Value::Null,
    }
}

pub open spec fn flag(b: bool) -> Value {
    Value::Integer(if b { 1 } else { 0 })
}

pub fn text_value(s: &str) -> (r: SqlValue)
    ensures
        r@ == text(s@),
{
    SqlValue::Text(s.to_owned())
}

/// The value that stores an owned string.
pub fn owned_value(s: &String) -> (r: SqlValue)
    ensures
        r == SqlValue::Text(*s),
        r@ == text(s@),
{
    SqlValue::Text(s.clone())
}

pub open spec fn optional_owned(s: Option<String>) -> SqlValue {
    match s {
        Some(s) => SqlValue::Text(s),
        None => SqlValue::Null,
    }
}

pub fn optional_owned_value(s: &Option<String>) -> (r: SqlValue)
    ensures
        r == optional_owned(*s),
        r@ == optional(crate::text::optional_text(*s)),
{
    match s {
        Some(s) => SqlValue::Text(s.clone()),
        None => SqlValue::Null,
    }
}

pub fn optional_text_value(s: Option<&str>) -> (r: SqlValue)
    ensures
        r@ == optional(crate::text::optional_str(s)),
{
    match s {
        Some(s) => SqlValue::Text(s.to_owned()),
        None => SqlValue::Null,
    }
}

pub open spec fn counted(n: usize) -> SqlValue {
    SqlValue::Integer(stored(n))
}

pub open spec fn optional_counted(n: Option<usize>) -> SqlValue {
    match n {
        Some(n) => counted(n),
        None => SqlValue::Null,
    }
}

pub fn count_value(n: usize) -> (r: SqlValue)
    ensures
        r == counted(n),
        r@ == count(n),
{
    SqlValue::Integer(#[verifier::truncate] (n as i64))
}

pub fn optional_count_value(n: Option<usize>) -> (r: SqlValue)
    ensures
        r == optional_counted(n),
        r@ == optional_count(n),
{
    match n {
        Some(n) => count_value(n),
        None => SqlValue::Null,
    }
}

pub fn flag_value(b: bool) -> (r: SqlValue)
    ensures
        r == SqlValue::Integer(if b { 1 } else { 0 }),
        r@ == flag(b),
{
    SqlValue::Integer(if b { 1 } else { 0 })
}

pub open spec fn optional_small(n: Option<i32>) -> Value {
    match n {
        Some(n) => Value::Integer(n as int),
        None => Value::Null,
    }
}

pub fn optional_small_value(n: Option<i32>) -> (r: SqlValue)
    ensures
        r@ == optional_small(n),
{
    match n {
        Some(n) => SqlValue::Integer(n as i64),
        None => SqlValue::Null,
    }
}

/// What a column of a result has to hold.
#[derive(Debug, Clone, Copy, PartialEq, Eq, Structural)]
pub enum Column {
    Text,
    TextOrNull,
    Integer,
    IntegerOrNull,
    Real,
}

/// Whether a column of the given kind takes the value.
pub open spec fn accepts(kind: Column, value: SqlValue) -> bool {
    match kind {
        Column::Text => value is Text,
        Column::TextOrNull => value is Text || value is Null,
        Column::Integer => value is Integer,
        Column::IntegerOrNull => value is Integer || value is Null,
        Column::Real => value is Real || value is Integer,
    }
}

/// A column that is read: its place in the row, and what it has to hold.
#[derive(Debug, Clone, Copy, PartialEq, Eq, Structural)]
pub struct Field {
    pub at: usize,
    pub kind: Column,
}

/// The fields of a row that is read from its first column on.
pub open spec fn in_order(kinds: Seq<Column>) -> Seq<Field> {
    Seq::new(kinds.len(), |i: int| Field { at: i as usize, kind: kinds[i] })
}

/// Whether a field is missing from the row or holds what its kind does not take.
pub open spec fn unfit(row: Seq<SqlValue>, field: Field) -> bool {
    field.at >= row.len() || !accepts(field.kind, row[field.at as int])
}

/// The type of a value.
pub open spec fn type_of(value: SqlValue) -> ValueType {
    match value {
        SqlValue::Null => ValueType::Null,
        SqlValue::Integer(_) => ValueType::Integer,
        SqlValue::Real(_) => ValueType::Real,
        SqlValue::Text(_) => ValueType::Text,
        SqlValue::Blob(_) => ValueType::Blob,
    }
}

fn value_type(value: &SqlValue) -> (r: ValueType)
    ensures
        r == type_of(*value),
{
    match value {
        SqlValue::Null => ValueType::Null,
        SqlValue::Integer(_) => ValueType::Integer,
        SqlValue::Real(_) => ValueType::Real,
        SqlValue::Text(_) => ValueType::Text,
        SqlValue::Blob(_) => ValueType::Blob,
    }
}

/// What is wrong with a column that does not fit: it is missing, or it is of another type.
pub open spec fn bad_column(row: Seq<SqlValue>, at: usize) -> BadColumn {
    if at >= row.len() {
        BadColumn::Missing { index: at }
    } else {
        BadColumn::Mistyped { index: at, found: type_of(row[at as int]) }
    }
}

fn column_error(row: &Row, at: usize) -> (r: StoreError)
    ensures
        r == StoreError::Column(bad_column(row@, at)),
{
    if at >= row.len() {
        StoreError::Column(BadColumn::Missing { index: at })
    } else {
        StoreError::Column(BadColumn::Mistyped { index: at, found: value_type(&row[at]) })
    }
}

/// The first field from `from` on that does not fit.
pub open spec fn mismatch_from(row: Seq<SqlValue>, fields: Seq<Field>, from: int) -> Option<
    BadColumn,
>
    decreases fields.len() - from,
{
    if from < 0 || from >= fields.len() {
        None
    } else if unfit(row, fields[from]) {
        Some(bad_column(row, fields[from].at))
    } else {
        mismatch_from(row, fields, from + 1)
    }
}

/// The first field that does not fit, in the order in which the fields are read.
pub open spec fn mismatch(row: Seq<SqlValue>, fields: Seq<Field>) -> Option<BadColumn> {
    mismatch_from(row, fields, 0)
}

/// A row can be read if and only if every field fits.
pub proof fn lemma_mismatch(row: Seq<SqlValue>, fields: Seq<Field>, from: int)
    requires
        0 <= from <= fields.len(),
    ensures
        mismatch_from(row, fields, from) is None <==> forall|i: int|
            from <= i < fields.len() ==> !unfit(row, #[trigger] fields[i]),
    decreases fields.len() - from,
{
    if from < fields.len() {
        lemma_mismatch(row, fields, from + 1);
    }
}

fn accept(kind: Column, value: &SqlValue) -> (r: bool)
    ensures
        r == accepts(kind, *value),
{
    match (kind, value) {
        (Column::Text, SqlValue::Text(_)) => true,
        (Column::TextOrNull, SqlValue::Text(_)) => true,
        (Column::TextOrNull, SqlValue::Null) => true,
        (Column::Integer, SqlValue::Integer(_)) => true,
        (Column::IntegerOrNull, SqlValue::Integer(_)) => true,
        (Column::IntegerOrNull, SqlValue::Null) => true,
        (Column::Real, SqlValue::Real(_)) => true,
        (Column::Real, SqlValue::Integer(_)) => true,
        _ => false,
    }
}

/// Checks the fields of a row, in the order given.
pub fn check_fields(row: &Row, fields: &Vec<Field>) -> (r: Result<(), StoreError>)
    ensures
        match mismatch(row@, fields@) {
            None => r is Ok && forall|i: int|
                0 <= i < fields@.len() ==> !unfit(row@, #[trigger] fields@[i]),
            Some(column) => r == Err::<(), StoreError>(StoreError::Column(column)),
        },
{
    let mut at: usize = 0;
    while at < fields.len()
        invariant
            at <= fields.len(),
            mismatch(row@, fields@) == mismatch_from(row@, fields@, at as int),
        decreases fields.len() - at,
    {
        let field = fields[at];
        if field.at >= row.len() || !accept(field.kind, &row[field.at]) {
            return Err(column_error(row, field.at));
        }
        at = at + 1;
    }
    proof {
        lemma_mismatch(row@, fields@, 0);
    }
    Ok(())
}

/// Checks a row that is read from its first column on.
pub fn check_row(row: &Row, kinds: &Vec<Column>) -> (r: Result<(), StoreError>)
    ensures
        match mismatch(row@, in_order(kinds@)) {
            None => {
                &&& r is Ok
                &&& kinds@.len() <= row@.len() || kinds@.len() == 0
                &&& forall|i: int|
                    #![trigger row@[i]]
                    0 <= i < kinds@.len() ==> accepts(kinds@[i], row@[i])
            },
            Some(column) => r == Err::<(), StoreError>(StoreError::Column(column)),
        },
{
    let mut at: usize = 0;
    let ghost fields = in_order(kinds@);
    while at < kinds.len()
        invariant
            at <= kinds.len(),
            fields == in_order(kinds@),
            mismatch(row@, fields) == mismatch_from(row@, fields, at as int),
        decreases kinds.len() - at,
    {
        if at >= row.len() || !accept(kinds[at], &row[at]) {
            return Err(column_error(row, at));
        }
        at = at + 1;
    }
    proof {
        lemma_mismatch(row@, fields, 0);
        assert forall|i: int| #![trigger row@[i]] 0 <= i < kinds@.len() implies accepts(
            kinds@[i],
            row@[i],
        ) by {
            assert(!unfit(row@, fields[i]));
        }
        if kinds@.len() > 0 {
            assert(!unfit(row@, fields[kinds@.len() - 1]));
        }
    }
    Ok(())
}

/// What reading a row gives: the value where every column fits, else the first column that does
/// not.
pub open spec fn reads_as<T>(
    r: Result<T, StoreError>,
    row: Seq<SqlValue>,
    fields: Seq<Field>,
    value: T,
) -> bool {
    match mismatch(row, fields) {
        None => r == Ok::<T, StoreError>(value),
        Some(column) => r == Err::<T, StoreError>(StoreError::Column(column)),
    }
}

/// A type that is read from one row of a result.
pub trait FromRow: Sized {
    /// The fields that are read.
    spec fn fields() -> Seq<Field>;

    /// The value in a row whose fields fit.
    spec fn of(row: Seq<SqlValue>) -> Self;

    fn from_row(row: &Row) -> (r: Result<Self, StoreError>)
        ensures
            reads_as(r, row@, Self::fields(), Self::of(row@)),
    ;
}

/// The first row that cannot be read as a `T`.
pub open spec fn bad_row<T: FromRow>(rows: Seq<Row>, from: int) -> Option<int>
    decreases rows.len() - from,
{
    if from < 0 || from >= rows.len() {
        None
    } else if mismatch(rows[from]@, T::fields()) is Some {
        Some(from)
    } else {
        bad_row::<T>(rows, from + 1)
    }
}

/// The values in rows that can all be read.
pub open spec fn all_of<T: FromRow>(rows: Seq<Row>) -> Seq<T> {
    Seq::new(rows.len(), |i: int| T::of(rows[i]@))
}

/// What reading all rows gives: the values in order, or the error of the first row that cannot
/// be read.
pub open spec fn rows_read_as<T: FromRow>(r: Result<Vec<T>, StoreError>, rows: Seq<Row>) -> bool {
    match bad_row::<T>(rows, 0) {
        None => r matches Ok(list) && list@ == all_of::<T>(rows),
        Some(i) => r matches Err(e) && e == StoreError::Column(
            mismatch(rows[i]@, T::fields())->Some_0,
        ),
    }
}

/// Reads all rows of a result.
pub fn collect_rows<T: FromRow>(rows: &Vec<Row>) -> (r: Result<Vec<T>, StoreError>)
    ensures
        rows_read_as(r, rows@),
        match rows_fault::<T>(rows@) {
            Some(fault) => r matches Err(e) && is_fault(e, fault),
            None => r matches Ok(list) && list@ == all_of::<T>(rows@),
        },
{
    let mut out: Vec<T> = Vec::new();
    let mut at: usize = 0;
    while at < rows.len()
        invariant
            at <= rows.len(),
            out@ == all_of::<T>(rows@).take(at as int),
            bad_row::<T>(rows@, 0) == bad_row::<T>(rows@, at as int),
        decreases rows.len() - at,
    {
        match T::from_row(&rows[at]) {
            Ok(value) => {
                out.push(value);
                proof {
                    assert(all_of::<T>(rows@).take(at + 1) =~= all_of::<T>(rows@).take(
                        at as int,
                    ).push(value));
                }
            },
            Err(error) => {
                proof {
                    lemma_bad_row::<T>(rows@, 0);
                }
                return Err(error);
            },
        }
        at = at + 1;
    }
    proof {
        assert(all_of::<T>(rows@).take(rows@.len() as int) =~= all_of::<T>(rows@));
    }
    Ok(out)
}

/// The first rows of the answers that have one.
pub open spec fn first_rows(answers: Seq<Vec<Row>>) -> Seq<Row>
    decreases answers.len(),
{
    if answers.len() == 0 {
        Seq::empty()
    } else if answers.last()@.len() == 0 {
        first_rows(answers.drop_last())
    } else {
        first_rows(answers.drop_last()).push(answers.last()@[0])
    }
}

proof fn lemma_first_rows_extend(answers: Seq<Vec<Row>>, n: int)
    requires
        0 <= n <= answers.len(),
    ensures
        first_rows(answers.take(n)).len() <= first_rows(answers).len(),
        first_rows(answers).take(first_rows(answers.take(n)).len() as int) == first_rows(
            answers.take(n),
        ),
    decreases answers.len(),
{
    if n == answers.len() {
        assert(answers.take(n) =~= answers);
        assert(first_rows(answers).take(first_rows(answers).len() as int) =~= first_rows(answers));
    } else {
        let front = answers.drop_last();
        lemma_first_rows_extend(front, n);
        assert(front.take(n) =~= answers.take(n));
        let k = first_rows(answers.take(n)).len() as int;
        assert(first_rows(answers).take(k) =~= first_rows(front).take(k));
    }
}

/// Whether every row can be read as a `T`.
pub open spec fn readable<T: FromRow>(rows: Seq<Row>) -> bool {
    forall|i: int| 0 <= i < rows.len() ==> row_fault::<T>((#[trigger] rows[i])@) is None
}

proof fn lemma_bad_row_after<T: FromRow>(rows: Seq<Row>, from: int, to: int)
    requires
        0 <= from <= to <= rows.len(),
        readable::<T>(rows.take(to)),
    ensures
        bad_row::<T>(rows, from) == bad_row::<T>(rows, to),
    decreases to - from,
{
    if from < to {
        assert(rows.take(to)[from] == rows[from]);
        assert(row_fault::<T>(rows.take(to)[from]@) is None);
        lemma_bad_row_after::<T>(rows, from + 1, to);
    }
}

/// Reads the first row of each answer that has one.
pub fn collect_first_rows<T: FromRow>(answers: &Vec<Vec<Row>>) -> (r: Result<Vec<T>, StoreError>)
    ensures
        rows_read_as(r, first_rows(answers@)),
{
    let mut out: Vec<T> = Vec::new();
    let ghost all = first_rows(answers@);
    let ghost mut seen = first_rows(answers@.take(0));
    for i in 0..answers.len()
        invariant
            all == first_rows(answers@),
            seen == first_rows(answers@.take(i as int)),
            out@ == all_of::<T>(seen),
            readable::<T>(seen),
    {
        let ghost before = seen;
        proof {
            assert(answers@.take(i + 1).drop_last() =~= answers@.take(i as int));
            seen = first_rows(answers@.take(i + 1));
        }
        if answers[i].len() > 0 {
            proof {
                lemma_first_rows_extend(answers@, i as int);
                lemma_first_rows_extend(answers@, i + 1);
                assert(seen == before.push(answers@[i as int]@[0]));
                lemma_bad_row_after::<T>(all, 0, before.len() as int);
                assert(all.take(seen.len() as int)[before.len() as int] == all[before.len() as int]);
            }
            match T::from_row(&answers[i][0]) {
                Ok(value) => {
                    out.push(value);
                    proof {
                        assert(out@ =~= all_of::<T>(seen));
                        assert forall|k: int| 0 <= k < seen.len() implies row_fault::<T>(
                            (#[trigger] seen[k])@,
                        ) is None by {
                            if k < before.len() {
                                assert(seen[k] == before[k]);
                            }
                        }
                    }
                },
                Err(error) => {
                    return Err(error);
                },
            }
        }
    }
    proof {
        assert(answers@.take(answers@.len() as int) =~= answers@);
        assert(all.take(all.len() as int) =~= all);
        lemma_bad_row_after::<T>(all, 0, all.len() as int);
    }
    Ok(out)
}

/// What reading at most one row gives: nothing without rows, else the first row.
pub open spec fn first_read_as<T: FromRow>(
    r: Result<Option<T>, StoreError>,
    rows: Seq<Row>,
) -> bool {
    if rows.len() == 0 {
        r == Ok::<Option<T>, StoreError>(None)
    } else {
        match mismatch(rows[0]@, T::fields()) {
            None => r == Ok::<Option<T>, StoreError>(Some(T::of(rows[0]@))),
            Some(column) => r == Err::<Option<T>, StoreError>(StoreError::Column(column)),
        }
    }
}

/// Reads the first row of a result, if there is one.
pub fn first_row<T: FromRow>(rows: &Vec<Row>) -> (r: Result<Option<T>, StoreError>)
    ensures
        first_read_as(r, rows@),
{
    if rows.len() == 0 {
        Ok(None)
    } else {
        match T::from_row(&rows[0]) {
            Ok(value) => Ok(Some(value)),
            Err(error) => Err(error),
        }
    }
}

/// What reading the one row that has to be there gives.
pub open spec fn only_read_as<T: FromRow>(r: Result<T, StoreError>, rows: Seq<Row>) -> bool {
    if rows.len() == 0 {
        r == Err::<T, StoreError>(StoreError::NoRows)
    } else {
        reads_as(r, rows[0]@, T::fields(), T::of(rows[0]@))
    }
}

/// Reads the first row of a result, which has to be there.
pub fn only_row<T: FromRow>(rows: &Vec<Row>) -> (r: Result<T, StoreError>)
    ensures
        only_read_as(r, rows@),
{
    if rows.len() == 0 {
        Err(StoreError::NoRows)
    } else {
        T::from_row(&rows[0])
    }
}

pub open spec fn optional_text_in(value: SqlValue) -> Option<String> {
    match value {
        SqlValue::Text(s) => Some(s),
        _ => None,
    }
}

/// A stored size read back: the same 64 bits, read as a size.
pub open spec fn size_in(value: SqlValue) -> usize {
    value->Integer_0 as usize
}

pub open spec fn optional_size_in(value: SqlValue) -> Option<usize> {
    match value {
        SqlValue::Integer(n) => Some(n as usize),
        _ => None,
    }
}

/// The low 32 bits of a stored number.
pub open spec fn optional_small_in(value: SqlValue) -> Option<i32> {
    match value {
        SqlValue::Integer(n) => Some(n as i32),
        _ => None,
    }
}

pub fn text_at(row: &Row, i: usize) -> (r: String)
    requires
        i < row@.len(),
        row@[i as int] is Text,
    ensures
        r == row@[i as int]->Text_0,
{
    match &row[i] {
        SqlValue::Text(s) => s.clone(),
        _ => String::new(),
    }
}

pub fn optional_text_at(row: &Row, i: usize) -> (r: Option<String>)
    requires
        i < row@.len(),
    ensures
        r == optional_text_in(row@[i as int]),
{
    match &row[i] {
        SqlValue::Text(s) => Some(s.clone()),
        _ => None,
    }
}

pub fn integer_at(row: &Row, i: usize) -> (r: i64)
    requires
        i < row@.len(),
        row@[i as int] is Integer,
    ensures
        r == row@[i as int]->Integer_0,
{
    match &row[i] {
        SqlValue::Integer(n) => *n,
        _ => 0,
    }
}

pub fn size_at(row: &Row, i: usize) -> (r: usize)
    requires
        i < row@.len(),
        row@[i as int] is Integer,
    ensures
        r == size_in(row@[i as int]),
{
    #[verifier::truncate]
    (integer_at(row, i) as usize)
}

pub fn optional_size_at(row: &Row, i: usize) -> (r: Option<usize>)
    requires
        i < row@.len(),
    ensures
        r == optional_size_in(row@[i as int]),
{
    match &row[i] {
        SqlValue::Integer(n) => Some(#[verifier::truncate] (*n as usize)),
        _ => None,
    }
}

pub fn optional_small_at(row: &Row, i: usize) -> (r: Option<i32>)
    requires
        i < row@.len(),
    ensures
        r == optional_small_in(row@[i as int]),
{
    match &row[i] {
        SqlValue::Integer(n) => Some(#[verifier::truncate] (*n as i32)),
        _ => None,
    }
}

pub fn flag_at(row: &Row, i: usize) -> (r: bool)
    requires
        i < row@.len(),
        row@[i as int] is Integer,
    ensures
        r == (row@[i as int]->Integer_0 != 0),
{
    integer_at(row, i) != 0
}

/// The number in a column of reals: a whole number counts as the nearest real one.
pub open spec fn real_in(value: SqlValue) -> Real {
    match value {
        SqlValue::Real(x) => x,
        SqlValue::Integer(n) => whole(n as int),
        _ => Real { bits: 0 },
    }
}

pub fn real_at(row: &Row, i: usize) -> (r: Real)
    requires
        i < row@.len(),
        accepts(Column::Real, row@[i as int]),
    ensures
        r == real_in(row@[i as int]),
{
    match &row[i] {
        SqlValue::Real(x) => *x,
        SqlValue::Integer(n) => real_of(*n),
        _ => Real { bits: 0 },
    }
}

/// A stored size is read back unchanged, whatever its value.
pub proof fn lemma_size_round_trip(n: usize)
    ensures
        size_in(counted(n)) == n,
        optional_size_in(counted(n)) == Some(n),
{
    assert((n as i64) as usize == n) by (bit_vector);
}

/// An optional size is read back unchanged.
pub proof fn lemma_optional_size_round_trip(n: Option<usize>)
    ensures
        optional_size_in(optional_counted(n)) == n,
{
    if let Some(m) = n {
        lemma_size_round_trip(m);
    }
}

/// What is wrong with a row that has to be read as a `T`.
pub open spec fn row_fault<T: FromRow>(row: Seq<SqlValue>) -> Option<Fault> {
    match mismatch(row, T::fields()) {
        Some(column) => Some(Fault::Column(column)),
        None => None,
    }
}

/// What is wrong with rows that all have to be read as `T`s: the first fault.
pub open spec fn rows_fault<T: FromRow>(rows: Seq<Row>) -> Option<Fault> {
    match bad_row::<T>(rows, 0) {
        Some(i) => row_fault::<T>(rows[i]@),
        None => None,
    }
}

/// What is wrong with rows of which the first, if there is one, has to be read as a `T`.
pub open spec fn first_fault<T: FromRow>(rows: Seq<Row>) -> Option<Fault> {
    if rows.len() == 0 {
        None
    } else {
        row_fault::<T>(rows[0]@)
    }
}

/// What is wrong with rows of which the first has to be there and to be read as a `T`.
pub open spec fn only_fault<T: FromRow>(rows: Seq<Row>) -> Option<Fault> {
    if rows.len() == 0 {
        Some(Fault::NoRows)
    } else {
        row_fault::<T>(rows[0]@)
    }
}

/// A row that is told to be bad has a fault.
pub proof fn lemma_bad_row<T: FromRow>(rows: Seq<Row>, from: int)
    requires
        0 <= from,
    ensures
        match bad_row::<T>(rows, from) {
            Some(i) => from <= i < rows.len() && mismatch(rows[i]@, T::fields()) is Some,
            None => true,
        },
    decreases rows.len() - from,
{
    if from < rows.len() && mismatch(rows[from]@, T::fields()) is None {
        lemma_bad_row::<T>(rows, from + 1);
    }
}

/// What is wrong with answers, from `from` on, each of which has to start with a row that is read
/// as a `T`.
pub open spec fn only_faults<T: FromRow>(answers: Seq<Vec<Row>>, from: int) -> Option<Fault>
    decreases answers.len() - from,
{
    if from < 0 || from >= answers.len() {
        None
    } else if only_fault::<T>(answers[from]@) is Some {
        only_fault::<T>(answers[from]@)
    } else {
        only_faults::<T>(answers, from + 1)
    }
}

/// The values in the first rows of answers.
pub open spec fn only_values<T: FromRow>(answers: Seq<Vec<Row>>) -> Seq<T> {
    Seq::new(answers.len(), |i: int| T::of(answers[i]@[0]@))
}

/// Reads the first row of each answer, which has to be there.
pub fn collect_only_rows<T: FromRow>(answers: &Vec<Vec<Row>>) -> (r: Result<Vec<T>, StoreError>)
    ensures
        match only_faults::<T>(answers@, 0) {
            Some(fault) => r matches Err(e) && is_fault(e, fault),
            None => r matches Ok(list) && list@ == only_values::<T>(answers@),
        },
{
    let mut out: Vec<T> = Vec::new();
    for i in 0..answers.len()
        invariant
            only_faults::<T>(answers@, 0) == only_faults::<T>(answers@, i as int),
            out@ == only_values::<T>(answers@.take(i as int)),
    {
        match only_row(&answers[i]) {
            Ok(value) => {
                out.push(value);
                proof {
                    assert(out@ =~= only_values::<T>(answers@.take(i + 1)));
                }
            },
            Err(error) => {
                return Err(error);
            },
        }
    }
    proof {
        assert(answers@.take(answers@.len() as int) =~= answers@);
    }
    Ok(out)
}

/// What is wrong with answers, from `from` on, whose rows all have to be read as `T`s.
pub open spec fn all_faults<T: FromRow>(answers: Seq<Vec<Row>>, from: int) -> Option<Fault>
    decreases answers.len() - from,
{
    if from < 0 || from >= answers.len() {
        None
    } else if rows_fault::<T>(answers[from]@) is Some {
        rows_fault::<T>(answers[from]@)
    } else {
        all_faults::<T>(answers, from + 1)
    }
}

/// The values in the rows of all answers, one answer behind the other.
pub open spec fn all_values<T: FromRow>(answers: Seq<Vec<Row>>) -> Seq<T>
    decreases answers.len(),
{
    if answers.len() == 0 {
        Seq::empty()
    } else {
        all_values::<T>(answers.drop_last()) + all_of::<T>(answers.last()@)
    }
}

/// Reads the rows of all answers.
pub fn collect_all_rows<T: FromRow>(answers: &Vec<Vec<Row>>) -> (r: Result<Vec<T>, StoreError>)
    ensures
        match all_faults::<T>(answers@, 0) {
            Some(fault) => r matches Err(e) && is_fault(e, fault),
            None => r matches Ok(list) && list@ == all_values::<T>(answers@),
        },
{
    let mut out: Vec<T> = Vec::new();
    proof {
        assert(out@ =~= all_values::<T>(answers@.take(0)));
    }
    for i in 0..answers.len()
        invariant
            all_faults::<T>(answers@, 0) == all_faults::<T>(answers@, i as int),
            out@ == all_values::<T>(answers@.take(i as int)),
    {
        proof {
            assert(answers@.take(i + 1).drop_last() =~= answers@.take(i as int));
            lemma_bad_row::<T>(answers@[i as int]@, 0);
        }
        let mut read: Vec<T> = match collect_rows(&answers[i]) {
            Ok(read) => read,
            Err(error) => {
                return Err(error);
            },
        };
        out.append(&mut read);
    }
    proof {
        assert(answers@.take(answers@.len() as int) =~= answers@);
    }
    Ok(out)
}

impl FromRow for String {
    open spec fn fields() -> Seq<Field> {
        in_order(seq![Column::Text])
    }

    open spec fn of(row: Seq<SqlValue>) -> Self {
        row[0]->Text_0
    }

    fn from_row(row: &Row) -> (r: Result<Self, StoreError>) {
        let kinds = vec![Column::Text];
        proof {
            assert(in_order(kinds@) =~= Self::fields());
        }
        match check_row(row, &kinds) {
            Ok(_) => Ok(text_at(row, 0)),
            Err(error) => Err(error),
        }
    }
}

impl FromRow for i64 {
    open spec fn fields() -> Seq<Field> {
        in_order(seq![Column::Integer])
    }

    open spec fn of(row: Seq<SqlValue>) -> Self {
        row[0]->Integer_0
    }

    fn from_row(row: &Row) -> (r: Result<Self, StoreError>) {
        let kinds = vec![Column::Integer];
        proof {
            assert(in_order(kinds@) =~= Self::fields());
        }
        match check_row(row, &kinds) {
            Ok(_) => Ok(integer_at(row, 0)),
            Err(error) => Err(error),
        }
    }
}

impl FromRow for usize {
    open spec fn fields() -> Seq<Field> {
        in_order(seq![Column::Integer])
    }

    open spec fn of(row: Seq<SqlValue>) -> Self {
        size_in(row[0])
    }

    fn from_row(row: &Row) -> (r: Result<Self, StoreError>) {
        let kinds = vec![Column::Integer];
        proof {
            assert(in_order(kinds@) =~= Self::fields());
        }
        match check_row(row, &kinds) {
            Ok(_) => Ok(size_at(row, 0)),
            Err(error) => Err(error),
        }
    }
}

impl FromRow for Option<String> {
    open spec fn fields() -> Seq<Field> {
        in_order(seq![Column::TextOrNull])
    }

    open spec fn of(row: Seq<SqlValue>) -> Self {
        optional_text_in(row[0])
    }

    fn from_row(row: &Row) -> (r: Result<Self, StoreError>) {
        let kinds = vec![Column::TextOrNull];
        proof {
            assert(in_order(kinds@) =~= Self::fields());
        }
        match check_row(row, &kinds) {
            Ok(_) => Ok(optional_text_at(row, 0)),
            Err(error) => Err(error),
        }
    }
}

/// Whether a count from the database is a size.
pub open spec fn is_size(value: i64) -> bool {
    0 <= value <= usize::MAX
}

/// The message that a count does not fit.
pub open spec fn negative(label: Seq<char>) -> Fault {
    Fault::Unexpected("negative "@ + label)
}

/// What a count from the database is taken for: the count, or an error where it does not fit.
pub open spec fn counted_as(r: Result<usize, StoreError>, value: i64, label: Seq<char>) -> bool {
    if is_size(value) {
        r == Ok::<usize, StoreError>(value as usize)
    } else {
        r matches Err(e) && is_fault(e, negative(label))
    }
}

pub fn usize_count(value: i64, label: &str) -> (r: Result<usize, StoreError>)
    ensures
        counted_as(r, value, label@),
{
    if value < 0 || value as u64 > usize::MAX as u64 {
        let mut message = "negative ".to_owned();
        message.append(label);
        Err(StoreError::UnexpectedResponse(message))
    } else {
        Ok(value as usize)
    }
}

/// What is wrong with rows of which the first has to hold a count.
pub open spec fn counted_fault(rows: Seq<Row>, label: Seq<char>) -> Option<Fault> {
    if only_fault::<i64>(rows) is Some {
        only_fault::<i64>(rows)
    } else if !is_size(i64::of(rows[0]@)) {
        Some(negative(label))
    } else {
        None
    }
}

/// The count that the first row holds.
pub open spec fn counted_in(rows: Seq<Row>) -> usize {
    i64::of(rows[0]@) as usize
}

/// Reads the count that the first row has to hold.
pub fn counted_row(rows: &Vec<Row>, label: &str) -> (r: Result<usize, StoreError>)
    ensures
        match counted_fault(rows@, label@) {
            Some(fault) => r matches Err(e) && is_fault(e, fault),
            None => r == Ok::<usize, StoreError>(counted_in(rows@)),
        },
{
    match only_row::<i64>(rows) {
        Ok(value) => usize_count(value, label),
        Err(error) => Err(error),
    }
}

/// Reads whether the number in the first row, which has to be there, is not zero.
pub fn true_row(rows: &Vec<Row>) -> (r: Result<bool, StoreError>)
    ensures
        match only_fault::<i64>(rows@) {
            Some(fault) => r matches Err(e) && is_fault(e, fault),
            None => r == Ok::<bool, StoreError>(i64::of(rows@[0]@) != 0),
        },
{
    match only_row::<i64>(rows) {
        Ok(value) => Ok(value != 0),
        Err(error) => Err(error),
    }
}

/// Reads whether the number in the first row, which has to be there, is positive.
pub fn positive_row(rows: &Vec<Row>) -> (r: Result<bool, StoreError>)
    ensures
        match only_fault::<i64>(rows@) {
            Some(fault) => r matches Err(e) && is_fault(e, fault),
            None => r == Ok::<bool, StoreError>(i64::of(rows@[0]@) > 0),
        },
{
    match only_row::<i64>(rows) {
        Ok(value) => Ok(value > 0),
        Err(error) => Err(error),
    }
}

} // verus!
