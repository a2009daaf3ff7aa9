//! The layers of a semantic generation, the states they are in, and the kinds of refs.

use vstd::prelude::*;
use crate::text::same;

verus! {

/// A layer of embeddings.
#[derive(Debug, Clone, Copy, PartialEq, Eq, Structural)]
pub enum SemanticLayer {
    Fast,
    Quality,
}

impl SemanticLayer {
    pub open spec fn text(self) -> Seq<char> {
        match self {
            SemanticLayer::Fast => "fast"@,
            SemanticLayer::Quality => "quality"@,
        }
    }

    pub fn as_str(self) -> (r: &'static str)
        ensures
            r@ == self.text(),
    {
        match self {
            SemanticLayer::Fast => "fast",
            SemanticLayer::Quality => "quality",
        }
    }

    /// The layer with the given name, if there is one.
    pub open spec fn named(name: Seq<char>) -> Option<SemanticLayer> {
        if name == "fast"@ {
            Some(SemanticLayer::Fast)
        } else if name == "quality"@ {
            Some(SemanticLayer::Quality)
        } else {
            None
        }
    }

    pub fn parse(name: &str) -> (r: Option<SemanticLayer>)
        ensures
            r == SemanticLayer::named(name@),
    {
        if same(name, "fast") {
            Some(SemanticLayer::Fast)
        } else if same(name, "quality") {
            Some(SemanticLayer::Quality)
        } else {
            None
        }
    }
}

/// The name of a layer is read back as that layer.
pub proof fn law_layer_names_round_trip(layer: SemanticLayer)
    ensures
        SemanticLayer::named(layer.text()) == Some(layer),
{
    reveal_strlit("fast");
    reveal_strlit("quality");
    assert("fast"@.len() == 4);
    assert("quality"@.len() == 7);
}

/// The state of the quality layer of a generation.
#[derive(Debug, Clone, Copy, PartialEq, Eq, Structural)]
pub enum SemanticLayerStatus {
    Missing,
    FastReady,
    QualityPending,
    QualityReady,
    QualityStale,
    QualityBlocked,
    QualityFailed,
}

impl SemanticLayerStatus {
    pub open spec fn text(self) -> Seq<char> {
        match self {
            SemanticLayerStatus::Missing => "missing"@,
            SemanticLayerStatus::FastReady => "fast_ready"@,
            SemanticLayerStatus::QualityPending => "quality_pending"@,
            SemanticLayerStatus::QualityReady => "quality_ready"@,
            SemanticLayerStatus::QualityStale => "quality_stale"@,
            SemanticLayerStatus::QualityBlocked => "quality_blocked"@,
            SemanticLayerStatus::QualityFailed => "quality_failed"@,
        }
    }

    pub fn as_str(self) -> (r: &'static str)
        ensures
            r@ == self.text(),
    {
        match self {
            SemanticLayerStatus::Missing => "missing",
            SemanticLayerStatus::FastReady => "fast_ready",
            SemanticLayerStatus::QualityPending => "quality_pending",
            SemanticLayerStatus::QualityReady => "quality_ready",
            SemanticLayerStatus::QualityStale => "quality_stale",
            SemanticLayerStatus::QualityBlocked => "quality_blocked",
            SemanticLayerStatus::QualityFailed => "quality_failed",
        }
    }

    /// The state with the given name, if there is one.
    pub open spec fn named(name: Seq<char>) -> Option<SemanticLayerStatus> {
        if name == "missing"@ {
            Some(SemanticLayerStatus::Missing)
        } else if name == "fast_ready"@ {
            Some(SemanticLayerStatus::FastReady)
        } else if name == "quality_pending"@ {
            Some(SemanticLayerStatus::QualityPending)
        } else if name == "quality_ready"@ {
            Some(SemanticLayerStatus::QualityReady)
        } else if name == "quality_stale"@ {
            Some(SemanticLayerStatus::QualityStale)
        } else if name == "quality_blocked"@ {
            Some(SemanticLayerStatus::QualityBlocked)
        } else if name == "quality_failed"@ {
            Some(SemanticLayerStatus::QualityFailed)
        } else {
            None
        }
    }

    pub fn parse(name: &str) -> (r: Option<SemanticLayerStatus>)
        ensures
            r == SemanticLayerStatus::named(name@),
    {
        if same(name, "missing") {
            Some(SemanticLayerStatus::Missing)
        } else if same(name, "fast_ready") {
            Some(SemanticLayerStatus::FastReady)
        } else if same(name, "quality_pending") {
            Some(SemanticLayerStatus::QualityPending)
        } else if same(name, "quality_ready") {
            Some(SemanticLayerStatus::QualityReady)
        } else if same(name, "quality_stale") {
            Some(SemanticLayerStatus::QualityStale)
        } else if same(name, "quality_blocked") {
            Some(SemanticLayerStatus::QualityBlocked)
        } else if same(name, "quality_failed") {
            Some(SemanticLayerStatus::QualityFailed)
        } else {
            None
        }
    }
}

/// The name of a state is read back as that state.
pub proof fn law_status_names_round_trip(status: SemanticLayerStatus)
    ensures
        SemanticLayerStatus::named(status.text()) == Some(status),
{
    reveal_strlit("missing");
    reveal_strlit("fast_ready");
    reveal_strlit("quality_pending");
    reveal_strlit("quality_ready");
    reveal_strlit("quality_stale");
    reveal_strlit("quality_blocked");
    reveal_strlit("quality_failed");
    assert("missing"@.len() == 7);
    assert("fast_ready"@.len() == 10);
    assert("quality_pending"@.len() == 15 && "quality_pending"@[8] == 'p');
    assert("quality_ready"@.len() == 13 && "quality_ready"@[8] == 'r');
    assert("quality_stale"@.len() == 13 && "quality_stale"@[8] == 's');
    assert("quality_blocked"@.len() == 15 && "quality_blocked"@[8] == 'b');
    assert("quality_failed"@.len() == 14);
}

/// What a ref of a repository is.
#[derive(Debug, Clone, Copy, PartialEq, Eq, Structural)]
pub enum RepositoryRefKind {
    Branch,
    Detached,
    Other,
    NonGit,
}

impl RepositoryRefKind {
    pub open spec fn text(self) -> Seq<char> {
        match self {
            RepositoryRefKind::Branch => "branch"@,
            RepositoryRefKind::Detached => "detached"@,
            RepositoryRefKind::Other => "other"@,
            RepositoryRefKind::NonGit => "non_git"@,
        }
    }

    pub fn as_str(self) -> (r: &'static str)
        ensures
            r@ == self.text(),
    {
        match self {
            RepositoryRefKind::Branch => "branch",
            RepositoryRefKind::Detached => "detached",
            RepositoryRefKind::Other => "other",
            RepositoryRefKind::NonGit => "non_git",
        }
    }
}

/// What a working copy says about its refs.
#[derive(Debug, Clone, PartialEq, Eq)]
pub struct RepositoryRefSnapshot {
    pub id: String,
    pub repository_id: String,
    pub kind: RepositoryRefKind,
    pub name: Option<String>,
    pub head_oid: Option<String>,
    pub local_branches: Vec<String>,
}

} // verus!
