//! Whether evidence still matches the file it was taken from.

use vstd::prelude::*;
use crate::records::EvidenceFreshness;
use crate::text::same;

verus! {

impl EvidenceFreshness {
    pub open spec fn text(self) -> Seq<char> {
        match self {
            EvidenceFreshness::Fresh => "fresh"@,
            EvidenceFreshness::Stale => "stale"@,
            EvidenceFreshness::Deleted => "deleted"@,
            EvidenceFreshness::Missing => "missing"@,
            EvidenceFreshness::Unknown => "unknown"@,
        }
    }

    pub fn label(self) -> (r: &'static str)
        ensures
            r@ == self.text(),
    {
        match self {
            EvidenceFreshness::Fresh => "fresh",
            EvidenceFreshness::Stale => "stale",
            EvidenceFreshness::Deleted => "deleted",
            EvidenceFreshness::Missing => "missing",
            EvidenceFreshness::Unknown => "unknown",
        }
    }
}

/// The freshness of evidence, from the hash it was indexed with and the hash of the file now.
pub open spec fn freshness_of(
    indexed: Option<Seq<char>>,
    current: Option<Seq<char>>,
) -> EvidenceFreshness {
    match (indexed, current) {
        (Some(indexed), Some(current)) => if indexed == current {
            EvidenceFreshness::Fresh
        } else {
            EvidenceFreshness::Stale
        },
        (Some(_), None) => EvidenceFreshness::Deleted,
        (None, Some(_)) => EvidenceFreshness::Missing,
        (None, None) => EvidenceFreshness::Unknown,
    }
}

pub fn freshness_for_hash(
    indexed_content_hash: Option<&str>,
    current_content_hash: Option<&str>,
) -> (r: EvidenceFreshness)
    ensures
        r == freshness_of(
            crate::text::optional_str(indexed_content_hash),
            crate::text::optional_str(current_content_hash),
        ),
{
    match (indexed_content_hash, current_content_hash) {
        (Some(indexed), Some(current)) => if same(indexed, current) {
            EvidenceFreshness::Fresh
        } else {
            EvidenceFreshness::Stale
        },
        (Some(_), None) => EvidenceFreshness::Deleted,
        (None, Some(_)) => EvidenceFreshness::Missing,
        (None, None) => EvidenceFreshness::Unknown,
    }
}

/// Evidence is fresh exactly when both hashes are known and agree.
pub proof fn law_fresh_means_equal_hashes(indexed: Option<Seq<char>>, current: Option<Seq<char>>)
    ensures
        freshness_of(indexed, current) == EvidenceFreshness::Fresh <==> indexed is Some && indexed
            == current,
{
}

} // verus!
