//! How far files and chunks are covered by vectors, and how sure calls are.

use vstd::prelude::*;
use crate::records::{ChunkVectorStatus, ConfidenceBucket, FileCoverageStatus};
use crate::sql::Real;

verus! {

/// The coverage of a file: excluded when all its chunks are, else missing vectors when some
/// embeddable chunk has none, else covered when there is something to cover.
pub open spec fn coverage_of(
    chunks: nat,
    embeddable_chunks: nat,
    vector_backed_chunks: nat,
    excluded_chunks: nat,
) -> FileCoverageStatus {
    if chunks > 0 && excluded_chunks == chunks {
        FileCoverageStatus::Excluded
    } else if embeddable_chunks > vector_backed_chunks {
        FileCoverageStatus::MissingVector
    } else if embeddable_chunks > 0 && embeddable_chunks == vector_backed_chunks {
        FileCoverageStatus::Covered
    } else {
        FileCoverageStatus::MetadataOnly
    }
}

pub fn file_coverage_status(
    chunks: usize,
    embeddable_chunks: usize,
    vector_backed_chunks: usize,
    excluded_chunks: usize,
) -> (r: FileCoverageStatus)
    ensures
        r == coverage_of(
            chunks as nat,
            embeddable_chunks as nat,
            vector_backed_chunks as nat,
            excluded_chunks as nat,
        ),
{
    if chunks > 0 && excluded_chunks == chunks {
        FileCoverageStatus::Excluded
    } else if embeddable_chunks > vector_backed_chunks {
        FileCoverageStatus::MissingVector
    } else if embeddable_chunks > 0 && embeddable_chunks == vector_backed_chunks {
        FileCoverageStatus::Covered
    } else {
        FileCoverageStatus::MetadataOnly
    }
}

/// A file is reported as missing vectors exactly when it is not excluded as a whole and has more
/// embeddable chunks than vectors.
pub proof fn law_missing_vectors_are_reported(
    chunks: nat,
    embeddable_chunks: nat,
    vector_backed_chunks: nat,
    excluded_chunks: nat,
)
    ensures
        coverage_of(chunks, embeddable_chunks, vector_backed_chunks, excluded_chunks)
            == FileCoverageStatus::MissingVector <==> embeddable_chunks > vector_backed_chunks
            && !(chunks > 0 && excluded_chunks == chunks),
        coverage_of(chunks, embeddable_chunks, vector_backed_chunks, excluded_chunks)
            == FileCoverageStatus::Covered ==> embeddable_chunks == vector_backed_chunks,
{
}

/// Whether a chunk has a vector; an excluded chunk counts as excluded even where it has one.
pub open spec fn vector_status_of(has_vector: bool, excluded: bool) -> ChunkVectorStatus {
    if excluded {
        ChunkVectorStatus::Excluded
    } else if has_vector {
        ChunkVectorStatus::VectorBacked
    } else {
        ChunkVectorStatus::MissingVector
    }
}

pub fn chunk_vector_status(has_vector: bool, excluded_reason: &Option<String>) -> (r:
    ChunkVectorStatus)
    ensures
        r == vector_status_of(has_vector, excluded_reason is Some),
{
    if excluded_reason.is_some() {
        ChunkVectorStatus::Excluded
    } else if has_vector {
        ChunkVectorStatus::VectorBacked
    } else {
        ChunkVectorStatus::MissingVector
    }
}

/// The bits of 0.85, from which on confidence is high.
pub const HIGH_CONFIDENCE_BITS: u64 = 0x3feb_3333_3333_3333;

/// The bits of 0.5, from which on confidence is medium.
pub const MEDIUM_CONFIDENCE_BITS: u64 = 0x3fe0_0000_0000_0000;

/// The level of a confidence: high from 0.85 on, medium from 0.5 on, else low.
pub open spec fn bucket_of(confidence: Real) -> ConfidenceBucket {
    if confidence.at_least_spec(Real { bits: HIGH_CONFIDENCE_BITS }) {
        ConfidenceBucket::High
    } else if confidence.at_least_spec(Real { bits: MEDIUM_CONFIDENCE_BITS }) {
        ConfidenceBucket::Medium
    } else {
        ConfidenceBucket::Low
    }
}

pub fn confidence_bucket(confidence: Real) -> (r: ConfidenceBucket)
    ensures
        r == bucket_of(confidence),
{
    if confidence.at_least(Real { bits: HIGH_CONFIDENCE_BITS }) {
        ConfidenceBucket::High
    } else if confidence.at_least(Real { bits: MEDIUM_CONFIDENCE_BITS }) {
        ConfidenceBucket::Medium
    } else {
        ConfidenceBucket::Low
    }
}

/// The place of a level, the highest first.
pub open spec fn bucket_rank(bucket: ConfidenceBucket) -> int {
    match bucket {
        ConfidenceBucket::High => 0,
        ConfidenceBucket::Medium => 1,
        ConfidenceBucket::Low => 2,
    }
}

/// Higher confidence never lowers the level.
pub proof fn law_buckets_follow_confidence(a: Real, b: Real)
    requires
        a.at_least_spec(b),
    ensures
        bucket_rank(bucket_of(a)) <= bucket_rank(bucket_of(b)),
{
}

impl ConfidenceBucket {
    pub open spec fn text(self) -> Seq<char> {
        match self {
            ConfidenceBucket::High => "high"@,
            ConfidenceBucket::Medium => "medium"@,
            ConfidenceBucket::Low => "low"@,
        }
    }

    pub fn label(self) -> (r: &'static str)
        ensures
            r@ == self.text(),
    {
        match self {
            ConfidenceBucket::High => "high",
            ConfidenceBucket::Medium => "medium",
            ConfidenceBucket::Low => "low",
        }
    }
}

} // verus!
