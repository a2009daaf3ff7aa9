//! Names of tables, points and rows.

use symdex_store::error::StoreError;
use symdex_store::naming::{
    blank, slug_component, validate_vector_table_name, vector_point_id, vector_rowid,
    vector_rowid_parts, vector_table_name, white_space,
};

/// A stand-in for the digest of parts: 16 hexadecimal digits from a hash of the parts.
fn digest(parts: &[String]) -> String {
    let mut hash: u64 = 0xcbf2_9ce4_8422_2325;
    for part in parts {
        for byte in part.bytes().chain([0]) {
            hash ^= byte as u64;
            hash = hash.wrapping_mul(0x0000_0100_0000_01b3);
        }
    }
    format!("{hash:016x}{hash:016x}")
}

fn rowid(point_id: &str) -> Result<i64, StoreError> {
    vector_rowid(point_id, &digest(&vector_rowid_parts(point_id)))
}

#[test]
fn vector_rowid_is_stable_and_positive() {
    let first = rowid("point-chunk-1").expect("rowid should build");
    let second = rowid("point-chunk-1").expect("rowid should build");
    let uuid = rowid("01234567-89ab-cdef-fedc-ba9876543210").expect("uuid rowid should build");

    assert_eq!(first, second);
    assert!(first > 0);
    assert_eq!(uuid, 81_985_529_216_486_895);
    assert!(rowid("").is_err());
}

#[test]
fn row_ids_keep_within_the_signed_range() {
    assert_eq!(vector_rowid("ffffffffffffffff", ""), Ok(i64::MAX));
    assert_eq!(vector_rowid("0000000000000000", ""), Ok(1));
    assert_eq!(vector_rowid("8000000000000000", ""), Ok(1));
    assert_eq!(vector_rowid("8000000000000001", ""), Ok(1));
    assert_eq!(vector_rowid("0000000000000002", ""), Ok(2));
}

#[test]
fn row_ids_take_the_digest_where_the_id_has_too_few_digits() {
    assert_eq!(vector_rowid("xyz", "00000000000000ff00"), Ok(255));
    assert_eq!(vector_rowid("00000000000000fe", "00000000000000ff"), Ok(254));
    assert_eq!(
        vector_rowid("xyz", "not a digest"),
        Err(StoreError::InvalidPointId("xyz".to_owned()))
    );
    assert_eq!(
        vector_rowid("xyz", ""),
        Err(StoreError::InvalidPointId("xyz".to_owned()))
    );
    assert_eq!(
        vector_rowid("\u{2003}\t", "00000000000000ff"),
        Err(StoreError::InvalidPointId("\u{2003}\t".to_owned()))
    );
    assert_eq!(vector_rowid_parts("xyz"), ["vector-rowid".to_owned(), "xyz".to_owned()]);
}

#[test]
fn white_space_is_what_trimming_removes() {
    for code in 0..=0x10_ffff {
        if let Some(character) = char::from_u32(code) {
            assert_eq!(white_space(character), character.is_whitespace(), "{code:#x}");
        }
    }
    assert!(blank(" \u{a0}\n"));
    assert!(!blank(" x "));
    assert!(blank(""));
}

#[test]
fn slugs_are_lower_case_with_single_underscores() {
    assert_eq!(slug_component("Repo/Name--v2"), "repo_name_v2");
    assert_eq!(slug_component(""), "unknown");
    assert_eq!(slug_component("--"), "_");
    assert_eq!(slug_component("\u{e9}t\u{e9}"), "_t_");
    assert_eq!(slug_component("a_/b"), "a_b");
}

#[test]
fn slugs_of_slugs_are_unchanged() {
    for input in ["Repo/Name--v2", "", "--", "A b\u{3b2}c", "already_a_slug"] {
        let slug = slug_component(input);
        assert_eq!(slug_component(&slug), slug);
        assert!(!slug.contains("__"));
        assert!(!slug.is_empty());
        let plain = |c: char| c.is_ascii_lowercase() || c.is_ascii_digit() || c == '_';
        assert!(slug.chars().all(plain));
    }
}

#[test]
fn table_names_that_are_made_are_valid() {
    let name = vector_table_name("Repo One", "nomic-embed:v1.5");
    assert_eq!(name, "symdex_repo_one_nomic_embed_v1_5");
    for (repository, model) in [("", ""), ("x'; --", "\u{1f980}"), ("a", "B")] {
        let name = vector_table_name(repository, model);
        assert_eq!(validate_vector_table_name(&name), Ok(()));
        assert!(!name.chars().any(|c| c.is_ascii_uppercase()));
    }
}

#[test]
fn table_names_with_other_characters_are_refused() {
    for name in ["", "a-b", "a b", "a;", "t\u{e4}ble"] {
        assert_eq!(
            validate_vector_table_name(name),
            Err(StoreError::InvalidVectorTableName(name.to_owned()))
        );
    }
    assert_eq!(validate_vector_table_name("A_1"), Ok(()));
}

#[test]
fn point_ids_group_the_digits_of_a_hash() {
    let hash = "0123456789ABCDEFfedcba9876543210";
    let id = vector_point_id(hash).expect("point id should build");
    assert_eq!(id, "01234567-89ab-cdef-fedc-ba9876543210");
    assert_eq!(vector_point_id(&id), Ok(id.clone()));
    assert_eq!(vector_point_id(&hash.to_lowercase()), Ok(id));
    assert_eq!(
        vector_point_id("0123"),
        Err(StoreError::InvalidPointId("0123".to_owned()))
    );
    let long = format!("{hash}0");
    assert_eq!(vector_point_id(&long), Err(StoreError::InvalidPointId(long.clone())));
}

#[test]
fn collection_name_is_deterministic_and_safe() {
    assert_eq!(
        vector_table_name("Repo-ID_123", "nomic-embed-text:latest"),
        "symdex_repo_id_123_nomic_embed_text_latest"
    );
}

#[test]
fn validates_collection_names() {
    assert!(validate_vector_table_name("symdex_repo_model").is_ok());
    assert!(validate_vector_table_name("").is_err());
    assert!(validate_vector_table_name("../bad").is_err());
}

#[test]
fn vector_point_id_formats_stable_hash_as_uuid() {
    assert_eq!(
        vector_point_id("0123456789abcdeffedcba9876543210").expect("point id should format"),
        "01234567-89ab-cdef-fedc-ba9876543210"
    );
    assert!(vector_point_id("not-hex").is_err());
}

#[test]
fn rows_do_not_depend_on_the_case_of_the_id() {
    let lower = "fedcba98-7654-3210-0000-000000000000";
    let upper = lower.to_uppercase();
    assert_eq!(vector_rowid(lower, "0"), Ok(0x7edc_ba98_7654_3210));
    assert_eq!(vector_rowid(&upper, "1"), Ok(0x7edc_ba98_7654_3210));
}
