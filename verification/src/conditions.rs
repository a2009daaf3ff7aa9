//! Conditions of a query: how they are written, and which rows meet them.

use vstd::prelude::*;
use crate::sql::Value;
use crate::text::{decimal, decimal_digits};

verus! {

/// What a column has to be equal to.
#[derive(Debug, Clone, Copy, PartialEq, Eq)]
pub enum Operand {
    /// The value that is bound to a parameter, the first one being 1.
    Bound(u8),
    /// A text.
    Text(&'static str),
    /// Another column.
    Column(&'static str),
}

/// A column is equal to its operand.
#[derive(Debug, Clone, Copy, PartialEq, Eq)]
pub struct Condition {
    pub column: &'static str,
    pub operand: Operand,
}

/// A row by the names of its columns.
pub type Record = Map<Seq<char>, Value>;

impl Operand {
    /// The text of an operand.
    pub open spec fn written(self) -> Seq<char> {
        match self {
            Operand::Bound(n) => "?"@ + decimal_digits(n as nat),
            Operand::Text(value) => "'"@ + value@ + "'"@,
            Operand::Column(name) => name@,
        }
    }

    /// The value of an operand for a row and the values that are bound.
    pub open spec fn meaning(self, row: Record, bound: Seq<Value>) -> Value {
        match self {
            Operand::Bound(n) => bound[n - 1],
            Operand::Text(value) => Value::Text(value@),
            Operand::Column(name) => row[name@],
        }
    }
}

impl Condition {
    /// The text of a condition.
    pub open spec fn written(self) -> Seq<char> {
        self.column@ + " = "@ + self.operand.written()
    }

    /// Whether a row meets a condition.
    pub open spec fn met_by(self, row: Record, bound: Seq<Value>) -> bool {
        row[self.column@] == self.operand.meaning(row, bound)
    }

    pub fn text(&self) -> (r: String)
        ensures
            r@ == self.written(),
    {
        let mut out = self.column.to_owned();
        out.append(" = ");
        match self.operand {
            Operand::Bound(n) => {
                out.append("?");
                out.append(decimal(n as u128).as_str());
                proof {
                    assert(out@ =~= self.written());
                }
            },
            Operand::Text(value) => {
                out.append("'");
                out.append(value);
                out.append("'");
                proof {
                    assert(out@ =~= self.written());
                }
            },
            Operand::Column(name) => {
                out.append(name);
            },
        }
        out
    }
}

/// The text of conditions that all have to be met.
pub open spec fn all_written(conditions: Seq<Condition>) -> Seq<char>
    decreases conditions.len(),
{
    if conditions.len() == 0 {
        Seq::empty()
    } else if conditions.len() == 1 {
        conditions[0].written()
    } else {
        all_written(conditions.drop_last()) + "\n        AND "@ + conditions.last().written()
    }
}

/// Whether a row meets all conditions.
pub open spec fn all_met_by(conditions: Seq<Condition>, row: Record, bound: Seq<Value>) -> bool {
    forall|i: int| 0 <= i < conditions.len() ==> (#[trigger] conditions[i]).met_by(row, bound)
}

pub fn conditions_text(conditions: &Vec<Condition>) -> (r: String)
    ensures
        r@ == all_written(conditions@),
{
    let mut out = String::new();
    proof {
        assert(out@ =~= all_written(conditions@.take(0)));
    }
    for i in 0..conditions.len()
        invariant
            out@ == all_written(conditions@.take(i as int)),
    {
        let ghost before = out@;
        if i > 0 {
            out.append("\n        AND ");
        }
        out.append(conditions[i].text().as_str());
        proof {
            assert(conditions@.take(i + 1).drop_last() =~= conditions@.take(i as int));
            assert(conditions@.take(i + 1).last() == conditions@[i as int]);
            if i == 0 {
                assert(out@ =~= conditions@[0].written());
            } else {
                assert(out@ =~= before + "\n        AND "@ + conditions@[i as int].written());
            }
        }
    }
    proof {
        assert(conditions@.take(conditions@.len() as int) =~= conditions@);
    }
    out
}

} // verus!
