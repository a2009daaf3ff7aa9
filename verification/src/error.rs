//! What can go wrong, and how it is told.

use vstd::prelude::*;
use crate::lease::{writer_busy_message, busy_message, WriterLeaseInfo};
use crate::text::{decimal, decimal_digits};

verus! {

/// The type of a value that SQLite returns.
#[derive(Debug, Clone, Copy, PartialEq, Eq, Structural)]
pub enum ValueType {
    Null,
    Integer,
    Real,
    Text,
    Blob,
}

impl ValueType {
    pub open spec fn text(self) -> Seq<char> {
        match self {
            ValueType::Null => "Null"@,
            ValueType::Integer => "Integer"@,
            ValueType::Real => "Real"@,
            ValueType::Text => "Text"@,
            ValueType::Blob => "Blob"@,
        }
    }

    pub fn as_str(self) -> (r: &'static str)
        ensures
            r@ == self.text(),
    {
        match self {
            ValueType::Null => "Null",
            ValueType::Integer => "Integer",
            ValueType::Real => "Real",
            ValueType::Text => "Text",
            ValueType::Blob => "Blob",
        }
    }
}

/// A column of a result that cannot be read. The name of the column belongs to the statement, not
/// to the row, and is not told.
#[derive(Debug, Clone, Copy, PartialEq, Eq, Structural)]
pub enum BadColumn {
    /// The row has no such column.
    Missing { index: usize },
    /// The column holds a value of the wrong type.
    Mistyped { index: usize, found: ValueType },
}

/// A failure of the store.
#[derive(Debug, Clone, PartialEq, Eq)]
pub enum StoreError {
    /// A column of a result is missing or holds a value of the wrong type.
    Column(BadColumn),
    /// A query that has to return a row returned none.
    NoRows,
    InvalidVectorTableName(String),
    InvalidCollectionName(String),
    InvalidPointId(String),
    InvalidVectorSize(usize),
    InvalidLimit(usize),
    InconsistentVectorDimensions,
    EmbeddingDimensionChanged {
        repository_id: String,
        embedding_model: String,
        previous_dimension: usize,
        current_dimension: usize,
    },
    WriterBusy { owner: Option<WriterLeaseInfo> },
    UnexpectedResponse(String),
}

/// The failures that rows from the database can cause, as the contracts name them.
#[verifier::ext_equal]
pub enum Fault {
    Column(BadColumn),
    NoRows,
    Unexpected(Seq<char>),
}

/// `error` is the given failure.
pub open spec fn is_fault(error: StoreError, fault: Fault) -> bool {
    match fault {
        Fault::Column(column) => error == StoreError::Column(column),
        Fault::NoRows => error == StoreError::NoRows,
        Fault::Unexpected(text) => error matches StoreError::UnexpectedResponse(message)
            && message@ == text,
    }
}

/// The first of two failures, where there is one.
pub open spec fn first_of(a: Option<Fault>, b: Option<Fault>) -> Option<Fault> {
    if a is Some {
        a
    } else {
        b
    }
}

impl StoreError {
    /// The message that tells the failure.
    pub open spec fn message_text(self) -> Seq<char> {
        match self {
            StoreError::Column(BadColumn::Missing { index }) =>
                "SQLite error: Invalid column index: "@ + decimal_digits(index as nat),
            StoreError::Column(BadColumn::Mistyped { index, found }) =>
                "SQLite error: Invalid column type "@ + found.text() + " at index: "@
                + decimal_digits(index as nat),
            StoreError::NoRows => "SQLite error: Query returned no rows"@,
            StoreError::InvalidVectorTableName(name) => "invalid sqlite-vec table name `"@ + name@
                + "`"@,
            StoreError::InvalidCollectionName(name) => "invalid collection name `"@ + name@ + "`"@,
            StoreError::InvalidPointId(id) => "invalid vector point id source `"@ + id@ + "`"@,
            StoreError::InvalidVectorSize(size) => "invalid vector size `"@ + decimal_digits(
                size as nat,
            ) + "`"@,
            StoreError::InvalidLimit(limit) => "invalid vector query limit `"@ + decimal_digits(
                limit as nat,
            ) + "`"@,
            StoreError::InconsistentVectorDimensions =>
                "vector points have inconsistent vector dimensions"@,
            StoreError::EmbeddingDimensionChanged {
                repository_id,
                embedding_model,
                previous_dimension,
                current_dimension,
            } => "embedding dimension changed for repository `"@ + repository_id@
                + "` and model `"@ + embedding_model@ + "`: previous="@ + decimal_digits(
                previous_dimension as nat,
            ) + " current="@ + decimal_digits(current_dimension as nat)
                + "; reset the collection or use a new model name before reindexing"@,
            StoreError::WriterBusy { owner } => busy_message(owner),
            StoreError::UnexpectedResponse(message) => "unexpected vector store response: "@
                + message@,
        }
    }

    pub fn message(&self) -> (r: String)
        ensures
            r@ == self.message_text(),
    {
        let mut out = String::new();
        match self {
            StoreError::Column(BadColumn::Missing { index }) => {
                out.append("SQLite error: Invalid column index: ");
                out.append(decimal(*index as u128).as_str());
            },
            StoreError::Column(BadColumn::Mistyped { index, found }) => {
                out.append("SQLite error: Invalid column type ");
                out.append(found.as_str());
                out.append(" at index: ");
                out.append(decimal(*index as u128).as_str());
            },
            StoreError::NoRows => {
                out.append("SQLite error: Query returned no rows");
            },
            StoreError::InvalidVectorTableName(name) => {
                out.append("invalid sqlite-vec table name `");
                out.append(name.as_str());
                out.append("`");
            },
            StoreError::InvalidCollectionName(name) => {
                out.append("invalid collection name `");
                out.append(name.as_str());
                out.append("`");
            },
            StoreError::InvalidPointId(id) => {
                out.append("invalid vector point id source `");
                out.append(id.as_str());
                out.append("`");
            },
            StoreError::InvalidVectorSize(size) => {
                out.append("invalid vector size `");
                out.append(decimal(*size as u128).as_str());
                out.append("`");
            },
            StoreError::InvalidLimit(limit) => {
                out.append("invalid vector query limit `");
                out.append(decimal(*limit as u128).as_str());
                out.append("`");
            },
            StoreError::InconsistentVectorDimensions => {
                out.append("vector points have inconsistent vector dimensions");
            },
            StoreError::EmbeddingDimensionChanged {
                repository_id,
                embedding_model,
                previous_dimension,
                current_dimension,
            } => {
                out.append("embedding dimension changed for repository `");
                out.append(repository_id.as_str());
                out.append("` and model `");
                out.append(embedding_model.as_str());
                out.append("`: previous=");
                out.append(decimal(*previous_dimension as u128).as_str());
                out.append(" current=");
                out.append(decimal(*current_dimension as u128).as_str());
                out.append("; reset the collection or use a new model name before reindexing");
            },
            StoreError::WriterBusy { owner } => {
                out = writer_busy_message(owner.as_ref());
            },
            StoreError::UnexpectedResponse(message) => {
                out.append("unexpected vector store response: ");
                out.append(message.as_str());
            },
        }
        proof {
            assert(out@ =~= self.message_text());
        }
        out
    }
}

} // verus!
