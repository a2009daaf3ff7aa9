//! Requests to a Qdrant server, and its replies.

use symdex_store::error::StoreError;
use symdex_store::qdrant::{
    collection_created, collection_found, operation_done, page_scrolled, points_queried,
    qdrant_collection_name, qdrant_point_id, validate_collection_name, CollectionBody, DeleteBody,
    FieldMatch, HttpCall, HttpMethod, HttpRequest, QdrantClient, QueryBody, ScrollBody, UpsertBody,
};
use symdex_store::vector::{PointPayload, VectorPoint};

fn request(method: HttpMethod, url: &str) -> HttpRequest {
    HttpRequest { method, url: url.to_owned() }
}

fn point(vector: Vec<u32>) -> VectorPoint {
    VectorPoint {
        id: "point-1".to_owned(),
        vector,
        payload: PointPayload {
            repository_id: "repo-1".to_owned(),
            file_id: "file-1".to_owned(),
            chunk_id: "chunk-1".to_owned(),
            symbol_id: None,
            symbol_name: None,
            path: "src/lib.rs".to_owned(),
            language: "rust".to_owned(),
            chunk_kind: "function".to_owned(),
            start_line: 1,
            end_line: 2,
            text_hash: "hash".to_owned(),
            parser_version: None,
            content_hash: None,
            index_run_id: None,
            embedding_model: None,
            embedding_dimension: None,
            indexed_at: None,
        },
    }
}

#[test]
fn addresses_have_one_slash() {
    for url in ["http://localhost:6333", "http://localhost:6333/", "http://localhost:6333///"] {
        let client = QdrantClient::new(url);
        assert_eq!(client.base_url, "http://localhost:6333");
        assert_eq!(
            client.health_check(),
            request(HttpMethod::Get, "http://localhost:6333/collections")
        );
    }
    assert_eq!(QdrantClient::new("///").health_check().url, "/collections");
}

#[test]
fn operations_have_their_addresses() {
    let client = QdrantClient::new("http://q");
    assert_eq!(
        client.collection_exists("c-1"),
        Ok(request(HttpMethod::Get, "http://q/collections/c-1"))
    );
    assert_eq!(
        client.ensure_collection("c-1", 3),
        Ok(request(HttpMethod::Get, "http://q/collections/c-1"))
    );
    assert_eq!(
        client.create_collection("c-1", 3, false),
        Some(HttpCall {
            request: request(HttpMethod::Put, "http://q/collections/c-1"),
            body: CollectionBody { size: 3, distance: "Cosine" },
        })
    );
    assert_eq!(client.create_collection("c-1", 3, true), None);
    let points = vec![point(vec![0])];
    assert_eq!(
        client.upsert_points("c-1", &points),
        Ok(Some(HttpCall {
            request: request(HttpMethod::Put, "http://q/collections/c-1/points?wait=true"),
            body: UpsertBody { points: &points },
        }))
    );
    let ids = vec!["p".to_owned()];
    assert_eq!(
        client.delete_points("c-1", &ids),
        Ok(Some(HttpCall {
            request: request(HttpMethod::Post, "http://q/collections/c-1/points/delete?wait=true"),
            body: DeleteBody { points: &ids },
        }))
    );
    assert_eq!(
        client.query_points("c-1", &vec![7, 0], 5),
        Ok(HttpCall {
            request: request(HttpMethod::Post, "http://q/collections/c-1/points/query"),
            body: QueryBody {
                query: vec![7, 0],
                limit: 5,
                with_payload: true,
                with_vector: false,
            },
        })
    );
}

#[test]
fn requests_are_checked() {
    let client = QdrantClient::new("http://q");
    let name = || StoreError::InvalidCollectionName("a b".to_owned());
    assert_eq!(client.collection_exists("a b"), Err(name()));
    assert_eq!(client.ensure_collection("a b", 0), Err(name()));
    assert_eq!(client.ensure_collection("c", 0), Err(StoreError::InvalidVectorSize(0)));
    assert_eq!(client.upsert_points("a b", &Vec::new()), Err(name()));
    assert_eq!(client.upsert_points("c", &Vec::new()), Ok(None));
    assert_eq!(
        client.upsert_points("c", &vec![point(Vec::new())]),
        Err(StoreError::InvalidVectorSize(0))
    );
    assert_eq!(
        client.upsert_points("c", &vec![point(vec![0]), point(vec![0, 0])]),
        Err(StoreError::InconsistentVectorDimensions)
    );
    assert_eq!(client.delete_points("a b", &Vec::new()), Err(name()));
    assert_eq!(client.delete_points("c", &Vec::new()), Ok(None));
    assert_eq!(client.scroll_points_for_repository::<u8>("a b", "repo-1", None), Err(name()));
    assert_eq!(client.query_points("a b", &Vec::new(), 0), Err(name()));
    assert_eq!(
        client.query_points("c", &Vec::new(), 0),
        Err(StoreError::InvalidVectorSize(0))
    );
    assert_eq!(client.query_points("c", &vec![0], 0), Err(StoreError::InvalidLimit(0)));
}

#[test]
fn replies_other_than_ok_are_failures() {
    let unexpected = |text: &str| StoreError::UnexpectedResponse(text.to_owned());
    assert_eq!(collection_found(404), Some(false));
    assert_eq!(collection_created(None), Ok(false));
    assert_eq!(collection_created(Some(("ok", true))), Ok(true));
    assert_eq!(
        collection_created(Some(("ok", false))),
        Err(unexpected("status=ok result=false"))
    );
    assert_eq!(
        collection_created(Some(("error", true))),
        Err(unexpected("status=error result=true"))
    );
    assert_eq!(operation_done("ok", "acknowledged"), Ok(()));
    assert_eq!(
        operation_done("error", "failed"),
        Err(unexpected("status=error operation_status=failed"))
    );
    assert_eq!(page_scrolled("ok", 256, Some("next")), Ok(Some("next")));
    assert_eq!(page_scrolled::<u8>("ok", 3, None), Ok(None));
    assert_eq!(
        page_scrolled("error", 10, Some("next")),
        Err(unexpected("status=error points=10"))
    );
    assert_eq!(points_queried("ok"), Ok(()));
    assert_eq!(points_queried("error"), Err(unexpected("status=error")));
}

#[test]
fn collection_names_that_are_made_are_valid() {
    assert_eq!(qdrant_collection_name("Repo 1", "m:latest"), "symdex_repo_1_m_latest");
    for (repository, model) in [("", ""), ("\u{1f980}", "a/b")] {
        assert_eq!(
            validate_collection_name(&qdrant_collection_name(repository, model)),
            Ok(())
        );
    }
    assert!(validate_collection_name("").is_err());
    assert!(validate_collection_name("a.b").is_err());
    assert_eq!(validate_collection_name("a-b_C"), Ok(()));
}

#[test]
fn point_ids_are_those_of_the_vector_store() {
    assert_eq!(
        qdrant_point_id("0123456789ABCDEFfedcba9876543210"),
        Ok("01234567-89ab-cdef-fedc-ba9876543210".to_owned())
    );
    assert_eq!(
        qdrant_point_id("not-hex"),
        Err(StoreError::InvalidPointId("not-hex".to_owned()))
    );
}

#[test]
fn scrolls_are_limited_to_a_repository() {
    let client = QdrantClient::new("http://q");
    for offset in [None, Some("page-2".to_owned())] {
        let call = client
            .scroll_points_for_repository("c-1", "repo-1", offset.clone())
            .expect("the name is valid");
        assert_eq!(
            call.request,
            request(HttpMethod::Post, "http://q/collections/c-1/points/scroll")
        );
        assert_eq!(
            call.body,
            ScrollBody {
                must: vec![FieldMatch { key: "repository_id", value: "repo-1".to_owned() }],
                limit: 256,
                with_payload: true,
                with_vector: false,
                offset,
            }
        );
    }
}
