use symdex_store::freshness::freshness_for_hash;
use symdex_store::records::EvidenceFreshness;

#[test]
fn freshness_for_hash_labels_evidence_states() {
    assert_eq!(
        freshness_for_hash(Some("same"), Some("same")),
        EvidenceFreshness::Fresh
    );
    assert_eq!(
        freshness_for_hash(Some("old"), Some("new")),
        EvidenceFreshness::Stale
    );
    assert_eq!(
        freshness_for_hash(Some("old"), None),
        EvidenceFreshness::Deleted
    );
    assert_eq!(
        freshness_for_hash(None, Some("new")),
        EvidenceFreshness::Missing
    );
    assert_eq!(freshness_for_hash(None, None), EvidenceFreshness::Unknown);
}
