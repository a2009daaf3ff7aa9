//! The requests to a Qdrant server and what its replies mean.

use vstd::prelude::*;
use crate::error::{is_fault, Fault, StoreError};
use crate::naming::{
    ascii_alphanumeric, is_alphanumeric, is_point_id, table_name_of, vector_point_id,
    vector_table_name,
};
use crate::text::{chars_of, concat, decimal, decimal_digits, same};
use crate::vector::VectorPoint;

verus! {

/// The number of points that one page of a scroll holds at most.
pub const SCROLL_LIMIT: usize = 256;

/// The distance between vectors that a collection is made with.
pub const COLLECTION_DISTANCE: &'static str = "Cosine";

/// How a request is made.
#[derive(Debug, Clone, Copy, PartialEq, Eq, Structural)]
pub enum HttpMethod {
    Get,
    Put,
    Post,
}

/// Where a request goes and how it is made.
#[derive(Debug, Clone, PartialEq, Eq)]
pub struct HttpRequest {
    pub method: HttpMethod,
    pub url: String,
}

/// `request` is made in the given way to the given address.
pub open spec fn is_request(request: HttpRequest, method: HttpMethod, url: Seq<char>) -> bool {
    request.method == method && request.url@ == url
}

/// A request with its body.
#[derive(Debug, Clone, PartialEq, Eq)]
pub struct HttpCall<Body> {
    pub request: HttpRequest,
    pub body: Body,
}

/// The body that makes a collection: the size of its vectors and the distance between them.
#[derive(Debug, Clone, PartialEq, Eq)]
pub struct CollectionBody {
    pub size: usize,
    pub distance: &'static str,
}

/// The body that stores points.
#[derive(Debug, Clone, PartialEq, Eq)]
pub struct UpsertBody<'a> {
    pub points: &'a Vec<VectorPoint>,
}

/// The body that deletes points.
#[derive(Debug, Clone, PartialEq, Eq)]
pub struct DeleteBody<'a> {
    pub points: &'a Vec<String>,
}

/// A condition on the payload of a point: the field `key` is `value`.
#[derive(Debug, Clone, PartialEq, Eq)]
pub struct FieldMatch {
    pub key: &'static str,
    pub value: String,
}

/// The body that asks for a page of a scroll. All conditions of `must` have to hold. The page
/// starts at `offset`, which the server gave with the page before; the first page has none.
#[derive(Debug, Clone, PartialEq, Eq)]
pub struct ScrollBody<Offset> {
    pub must: Vec<FieldMatch>,
    pub limit: usize,
    pub with_payload: bool,
    pub with_vector: bool,
    pub offset: Option<Offset>,
}

/// The body that asks for the points nearest to a vector, whose components are held by their bits.
#[derive(Debug, Clone, PartialEq, Eq)]
pub struct QueryBody {
    pub query: Vec<u32>,
    pub limit: usize,
    pub with_payload: bool,
    pub with_vector: bool,
}

/// `body` makes a collection for vectors of the given size, compared by their cosine.
pub open spec fn is_collection_body(body: CollectionBody, vector_size: usize) -> bool {
    body.size == vector_size && body.distance@ == "Cosine"@
}

/// `body` asks for the page at `offset` of the points of a repository, with their payloads and
/// without their vectors.
pub open spec fn is_scroll_body<Offset>(
    body: ScrollBody<Offset>,
    repository_id: Seq<char>,
    offset: Option<Offset>,
) -> bool {
    &&& body.must@.len() == 1
    &&& body.must@[0].key@ == "repository_id"@
    &&& body.must@[0].value@ == repository_id
    &&& body.limit == 256
    &&& body.with_payload
    &&& !body.with_vector
    &&& body.offset == offset
}

/// `body` asks for the points nearest to a vector, with their payloads and without their vectors.
pub open spec fn is_query_body(body: QueryBody, vector: Seq<u32>, limit: usize) -> bool {
    &&& body.query@ == vector
    &&& body.limit == limit
    &&& body.with_payload
    &&& !body.with_vector
}

/// A string without the slashes at its end.
pub open spec fn without_trailing_slashes(s: Seq<char>) -> Seq<char>
    decreases s.len(),
{
    if s.len() > 0 && s.last() == '/' {
        without_trailing_slashes(s.drop_last())
    } else {
        s
    }
}

/// A string without the slashes at its start.
pub open spec fn without_leading_slashes(s: Seq<char>) -> Seq<char>
    decreases s.len(),
{
    if s.len() > 0 && s[0] == '/' {
        without_leading_slashes(s.skip(1))
    } else {
        s
    }
}

fn text_of(chars: &Vec<char>, from: usize, to: usize) -> (r: String)
    requires
        from <= to <= chars@.len(),
    ensures
        r@ == chars@.subrange(from as int, to as int),
{
    let mut out = String::new();
    for i in from..to
        invariant
            from <= to <= chars@.len(),
            out@ == chars@.subrange(from as int, i as int),
    {
        out.push(chars[i]);
        proof {
            assert(out@ =~= chars@.subrange(from as int, i + 1));
        }
    }
    out
}

fn trim_trailing_slashes(s: &str) -> (r: String)
    ensures
        r@ == without_trailing_slashes(s@),
{
    let chars = chars_of(s);
    let mut end: usize = chars.len();
    proof {
        assert(chars@.take(end as int) =~= s@);
    }
    while end > 0 && chars[end - 1] == '/'
        invariant
            end <= chars@.len(),
            without_trailing_slashes(s@) == without_trailing_slashes(chars@.take(end as int)),
        decreases end,
    {
        proof {
            assert(chars@.take(end as int).drop_last() =~= chars@.take(end - 1));
        }
        end = end - 1;
    }
    proof {
        assert(chars@.take(end as int) =~= chars@.subrange(0, end as int));
    }
    text_of(&chars, 0, end)
}

fn trim_leading_slashes(s: &str) -> (r: String)
    ensures
        r@ == without_leading_slashes(s@),
{
    let chars = chars_of(s);
    let mut start: usize = 0;
    proof {
        assert(chars@.skip(0) =~= s@);
    }
    while start < chars.len() && chars[start] == '/'
        invariant
            start <= chars@.len(),
            without_leading_slashes(s@) == without_leading_slashes(chars@.skip(start as int)),
        decreases chars@.len() - start,
    {
        proof {
            assert(chars@.skip(start as int).skip(1) =~= chars@.skip(start + 1));
        }
        start = start + 1;
    }
    proof {
        assert(chars@.skip(start as int) =~= chars@.subrange(start as int, chars@.len() as int));
    }
    let end = chars.len();
    text_of(&chars, start, end)
}

/// The address of a path on a server.
pub open spec fn endpoint_of(base: Seq<char>, path: Seq<char>) -> Seq<char> {
    base + "/"@ + without_leading_slashes(path)
}

/// A character that may stand in the name of a collection.
pub open spec fn is_collection_character(c: char) -> bool {
    is_alphanumeric(c) || c == '_' || c == '-'
}

/// A name that a collection can have.
pub open spec fn is_collection_name(name: Seq<char>) -> bool {
    name.len() > 0 && forall|i: int|
        0 <= i < name.len() ==> is_collection_character(#[trigger] name[i])
}

pub fn validate_collection_name(collection_name: &str) -> (r: Result<(), StoreError>)
    ensures
        is_collection_name(collection_name@) <==> r is Ok,
        r matches Err(e) ==> is_refusal(e, Refusal::Name, collection_name@),
{
    let chars = chars_of(collection_name);
    if chars.len() == 0 {
        return Err(StoreError::InvalidCollectionName(collection_name.to_owned()));
    }
    for i in 0..chars.len()
        invariant
            chars@ == collection_name@,
            forall|j: int| 0 <= j < i ==> is_collection_character(#[trigger] collection_name@[j]),
    {
        if !(ascii_alphanumeric(chars[i]) || chars[i] == '_' || chars[i] == '-') {
            proof {
                assert(!is_collection_character(collection_name@[i as int]));
            }
            return Err(StoreError::InvalidCollectionName(collection_name.to_owned()));
        }
    }
    Ok(())
}

/// Why a request is not made.
pub enum Refusal {
    Name,
    VectorSize,
    Dimensions,
    Limit,
}

/// `error` tells why a request is not made.
pub open spec fn is_refusal(error: StoreError, refusal: Refusal, name: Seq<char>) -> bool {
    match refusal {
        Refusal::Name => error matches StoreError::InvalidCollectionName(told) && told@ == name,
        Refusal::VectorSize => error == StoreError::InvalidVectorSize(0),
        Refusal::Dimensions => error == StoreError::InconsistentVectorDimensions,
        Refusal::Limit => error == StoreError::InvalidLimit(0),
    }
}

/// What a request is refused for: the first reason.
pub open spec fn collection_refusal(name: Seq<char>) -> Option<Refusal> {
    if !is_collection_name(name) {
        Some(Refusal::Name)
    } else {
        None
    }
}

pub open spec fn size_refusal(name: Seq<char>, vector_size: usize) -> Option<Refusal> {
    if !is_collection_name(name) {
        Some(Refusal::Name)
    } else if vector_size == 0 {
        Some(Refusal::VectorSize)
    } else {
        None
    }
}

pub open spec fn points_refusal(name: Seq<char>, points: Seq<VectorPoint>) -> Option<Refusal> {
    if !is_collection_name(name) {
        Some(Refusal::Name)
    } else if points.len() == 0 {
        None
    } else if points[0].vector@.len() == 0 {
        Some(Refusal::VectorSize)
    } else if exists|i: int|
        0 <= i < points.len() && (#[trigger] points[i]).vector@.len() != points[0].vector@.len() {
        Some(Refusal::Dimensions)
    } else {
        None
    }
}

pub open spec fn query_refusal(name: Seq<char>, vector: Seq<u32>, limit: usize) -> Option<Refusal> {
    if !is_collection_name(name) {
        Some(Refusal::Name)
    } else if vector.len() == 0 {
        Some(Refusal::VectorSize)
    } else if limit == 0 {
        Some(Refusal::Limit)
    } else {
        None
    }
}

/// The name of the collection of a repository and an embedding model.
pub fn qdrant_collection_name(repository_id: &str, embedding_model: &str) -> (r: String)
    ensures
        r@ == table_name_of(repository_id@, embedding_model@),
{
    vector_table_name(repository_id, embedding_model)
}

/// The id of the point with a stable hash.
pub fn qdrant_point_id(stable_hash: &str) -> (r: Result<String, StoreError>)
    ensures
        is_point_id(r, stable_hash@),
{
    vector_point_id(stable_hash)
}

/// Every collection name that is made passes validation.
pub proof fn law_collection_names_are_valid(repository_id: Seq<char>, embedding_model: Seq<char>)
    ensures
        is_collection_name(table_name_of(repository_id, embedding_model)),
{
    crate::naming::law_table_names_are_valid(repository_id, embedding_model);
    let name = table_name_of(repository_id, embedding_model);
    assert forall|i: int| 0 <= i < name.len() implies is_collection_character(
        #[trigger] name[i],
    ) by {
        assert(crate::naming::is_name_character(name[i]));
    }
}

/// The path of a collection, followed by `rest`.
pub open spec fn collection_path(name: Seq<char>, rest: Seq<char>) -> Seq<char> {
    "/collections/"@ + name + rest
}

/// A client of a Qdrant server.
#[derive(Debug, Clone, PartialEq, Eq)]
pub struct QdrantClient {
    pub base_url: String,
}

impl QdrantClient {
    pub fn new(qdrant_url: &str) -> (r: QdrantClient)
        ensures
            r.base_url@ == without_trailing_slashes(qdrant_url@),
    {
        QdrantClient { base_url: trim_trailing_slashes(qdrant_url) }
    }

    fn endpoint(&self, path: &str) -> (r: String)
        ensures
            r@ == endpoint_of(self.base_url@, path@),
    {
        let mut url = self.base_url.as_str().to_owned();
        url.append("/");
        url.append(trim_leading_slashes(path).as_str());
        url
    }

    fn collection_request(&self, method: HttpMethod, name: &str, rest: &str) -> (r: HttpRequest)
        ensures
            is_request(r, method, endpoint_of(self.base_url@, collection_path(name@, rest@))),
    {
        let mut path = concat("/collections/", name);
        path.append(rest);
        HttpRequest { method, url: self.endpoint(path.as_str()) }
    }

    /// Asks for the collections. The server is healthy where the reply is no failure.
    pub fn health_check(&self) -> (r: HttpRequest)
        ensures
            is_request(r, HttpMethod::Get, endpoint_of(self.base_url@, "/collections"@)),
    {
        HttpRequest { method: HttpMethod::Get, url: self.endpoint("/collections") }
    }

    /// Asks for a collection. The status of the reply goes to `collection_found`.
    pub fn collection_exists(&self, collection_name: &str) -> (r: Result<HttpRequest, StoreError>)
        ensures
            match collection_refusal(collection_name@) {
                Some(refusal) => r matches Err(e) && is_refusal(e, refusal, collection_name@),
                None => r matches Ok(request) && is_request(
                    request,
                    HttpMethod::Get,
                    endpoint_of(self.base_url@, collection_path(collection_name@, ""@)),
                ),
            },
    {
        match validate_collection_name(collection_name) {
            Ok(_) => Ok(self.collection_request(HttpMethod::Get, collection_name, "")),
            Err(error) => Err(error),
        }
    }

    /// The first step of making a collection: asking for it.
    pub fn ensure_collection(&self, collection_name: &str, vector_size: usize) -> (r: Result<
        HttpRequest,
        StoreError,
    >)
        ensures
            match size_refusal(collection_name@, vector_size) {
                Some(refusal) => r matches Err(e) && is_refusal(e, refusal, collection_name@),
                None => r matches Ok(request) && is_request(
                    request,
                    HttpMethod::Get,
                    endpoint_of(self.base_url@, collection_path(collection_name@, ""@)),
                ),
            },
    {
        match validate_collection_name(collection_name) {
            Ok(_) => {},
            Err(error) => {
                return Err(error);
            },
        }
        if vector_size == 0 {
            return Err(StoreError::InvalidVectorSize(vector_size));
        }
        self.collection_exists(collection_name)
    }

    /// Makes a collection, unless it is there. The reply goes to `collection_created`.
    pub fn create_collection(
        &self,
        collection_name: &str,
        vector_size: usize,
        present: bool,
    ) -> (r: Option<HttpCall<CollectionBody>>)
        requires
            size_refusal(collection_name@, vector_size) is None,
        ensures
            if present {
                r is None
            } else {
                r matches Some(call) && is_request(
                    call.request,
                    HttpMethod::Put,
                    endpoint_of(self.base_url@, collection_path(collection_name@, ""@)),
                ) && is_collection_body(call.body, vector_size)
            },
    {
        if present {
            None
        } else {
            Some(
                HttpCall {
                    request: self.collection_request(HttpMethod::Put, collection_name, ""),
                    body: CollectionBody { size: vector_size, distance: COLLECTION_DISTANCE },
                },
            )
        }
    }

    /// Stores points: nothing is to be done without any. The reply goes to `operation_done`.
    pub fn upsert_points<'a>(&self, collection_name: &str, points: &'a Vec<VectorPoint>) -> (r:
        Result<Option<HttpCall<UpsertBody<'a>>>, StoreError>)
        ensures
            match points_refusal(collection_name@, points@) {
                Some(refusal) => r matches Err(e) && is_refusal(e, refusal, collection_name@),
                None => if points@.len() == 0 {
                    r matches Ok(None)
                } else {
                    r matches Ok(Some(call)) && is_request(
                        call.request,
                        HttpMethod::Put,
                        endpoint_of(
                            self.base_url@,
                            collection_path(collection_name@, "/points?wait=true"@),
                        ),
                    ) && call.body.points == points
                },
            },
    {
        match validate_collection_name(collection_name) {
            Ok(_) => {},
            Err(error) => {
                return Err(error);
            },
        }
        if points.len() == 0 {
            return Ok(None);
        }
        let dimension: usize = points[0].vector.len();
        if dimension == 0 {
            return Err(StoreError::InvalidVectorSize(dimension));
        }
        for i in 0..points.len()
            invariant
                is_collection_name(collection_name@),
                points@.len() > 0,
                dimension == points@[0].vector@.len(),
                dimension > 0,
                forall|j: int| 0 <= j < i ==> (#[trigger] points@[j]).vector@.len() == dimension,
        {
            if points[i].vector.len() != dimension {
                proof {
                    assert(points@[i as int].vector@.len() != points@[0].vector@.len());
                }
                return Err(StoreError::InconsistentVectorDimensions);
            }
        }
        Ok(
            Some(
                HttpCall {
                    request: self.collection_request(
                        HttpMethod::Put,
                        collection_name,
                        "/points?wait=true",
                    ),
                    body: UpsertBody { points },
                },
            ),
        )
    }

    /// Deletes points: nothing is to be done without any. The reply goes to `operation_done`.
    pub fn delete_points<'a>(&self, collection_name: &str, point_ids: &'a Vec<String>) -> (r:
        Result<Option<HttpCall<DeleteBody<'a>>>, StoreError>)
        ensures
            match collection_refusal(collection_name@) {
                Some(refusal) => r matches Err(e) && is_refusal(e, refusal, collection_name@),
                None => if point_ids@.len() == 0 {
                    r matches Ok(None)
                } else {
                    r matches Ok(Some(call)) && is_request(
                        call.request,
                        HttpMethod::Post,
                        endpoint_of(
                            self.base_url@,
                            collection_path(collection_name@, "/points/delete?wait=true"@),
                        ),
                    ) && call.body.points == point_ids
                },
            },
    {
        match validate_collection_name(collection_name) {
            Ok(_) => {},
            Err(error) => {
                return Err(error);
            },
        }
        if point_ids.len() == 0 {
            return Ok(None);
        }
        Ok(
            Some(
                HttpCall {
                    request: self.collection_request(
                        HttpMethod::Post,
                        collection_name,
                        "/points/delete?wait=true",
                    ),
                    body: DeleteBody { points: point_ids },
                },
            ),
        )
    }

    /// Asks for a page of the points of a repository: the first one without `offset`, each other
    /// one with what `page_scrolled` gave for the page before. The reply goes to `page_scrolled`.
    pub fn scroll_points_for_repository<Offset>(
        &self,
        collection_name: &str,
        repository_id: &str,
        offset: Option<Offset>,
    ) -> (r: Result<HttpCall<ScrollBody<Offset>>, StoreError>)
        ensures
            match collection_refusal(collection_name@) {
                Some(refusal) => r matches Err(e) && is_refusal(e, refusal, collection_name@),
                None => r matches Ok(call) && is_request(
                    call.request,
                    HttpMethod::Post,
                    endpoint_of(
                        self.base_url@,
                        collection_path(collection_name@, "/points/scroll"@),
                    ),
                ) && is_scroll_body(call.body, repository_id@, offset),
            },
    {
        match validate_collection_name(collection_name) {
            Ok(_) => {},
            Err(error) => {
                return Err(error);
            },
        }
        let condition = FieldMatch { key: "repository_id", value: repository_id.to_owned() };
        Ok(
            HttpCall {
                request: self.collection_request(
                    HttpMethod::Post,
                    collection_name,
                    "/points/scroll",
                ),
                body: ScrollBody {
                    must: vec![condition],
                    limit: SCROLL_LIMIT,
                    with_payload: true,
                    with_vector: false,
                    offset,
                },
            },
        )
    }

    /// Asks for the points nearest to a vector. The reply goes to `points_queried`.
    pub fn query_points(&self, collection_name: &str, vector: &Vec<u32>, limit: usize) -> (r:
        Result<HttpCall<QueryBody>, StoreError>)
        ensures
            match query_refusal(collection_name@, vector@, limit) {
                Some(refusal) => r matches Err(e) && is_refusal(e, refusal, collection_name@),
                None => r matches Ok(call) && is_request(
                    call.request,
                    HttpMethod::Post,
                    endpoint_of(
                        self.base_url@,
                        collection_path(collection_name@, "/points/query"@),
                    ),
                ) && is_query_body(call.body, vector@, limit),
            },
    {
        match validate_collection_name(collection_name) {
            Ok(_) => {},
            Err(error) => {
                return Err(error);
            },
        }
        if vector.len() == 0 {
            return Err(StoreError::InvalidVectorSize(0));
        }
        if limit == 0 {
            return Err(StoreError::InvalidLimit(limit));
        }
        let query = vector.clone();
        proof {
            assert(query@ =~= vector@);
        }
        Ok(
            HttpCall {
                request: self.collection_request(
                    HttpMethod::Post,
                    collection_name,
                    "/points/query",
                ),
                body: QueryBody { query, limit, with_payload: true, with_vector: false },
            },
        )
    }
}

/// Whether the reply to a question for a collection says that it is there; nothing where the
/// status is a failure.
pub fn collection_found(status: u16) -> (r: Option<bool>)
    ensures
        r == (if status == 404 {
            Some(false)
        } else if 400 <= status < 600 {
            None
        } else {
            Some(true)
        }),
{
    if status == 404 {
        Some(false)
    } else if 400 <= status && status < 600 {
        None
    } else {
        Some(true)
    }
}

/// A truth value as it is printed.
pub open spec fn truth(value: bool) -> Seq<char> {
    if value {
        "true"@
    } else {
        "false"@
    }
}

fn status_message(status: &str) -> (r: String)
    ensures
        r@ == "status="@ + status@,
{
    concat("status=", status)
}

/// Whether a collection was made, from the status and the result of the reply to its creation;
/// it was not where there was nothing to make.
pub fn collection_created(reply: Option<(&str, bool)>) -> (r: Result<bool, StoreError>)
    ensures
        match reply {
            None => r == Ok::<bool, StoreError>(false),
            Some((status, result)) => if status@ == "ok"@ && result {
                r == Ok::<bool, StoreError>(true)
            } else {
                r matches Err(e) && is_fault(
                    e,
                    Fault::Unexpected("status="@ + status@ + " result="@ + truth(result)),
                )
            },
        },
{
    match reply {
        None => Ok(false),
        Some((status, result)) => {
            if !same(status, "ok") || !result {
                let mut message = status_message(status);
                message.append(" result=");
                message.append(if result { "true" } else { "false" });
                return Err(StoreError::UnexpectedResponse(message));
            }
            Ok(true)
        },
    }
}

/// What the reply to storing or deleting points means.
pub fn operation_done(status: &str, operation_status: &str) -> (r: Result<(), StoreError>)
    ensures
        if status@ == "ok"@ {
            r is Ok
        } else {
            r matches Err(e) && is_fault(
                e,
                Fault::Unexpected(
                    "status="@ + status@ + " operation_status="@ + operation_status@,
                ),
            )
        },
{
    if !same(status, "ok") {
        let mut message = status_message(status);
        message.append(" operation_status=");
        message.append(operation_status);
        return Err(StoreError::UnexpectedResponse(message));
    }
    Ok(())
}

/// What a page of a scroll means: where the next one starts, none where it was the last.
pub fn page_scrolled<Offset>(
    status: &str,
    points: usize,
    next_page_offset: Option<Offset>,
) -> (r: Result<Option<Offset>, StoreError>)
    ensures
        if status@ == "ok"@ {
            r == Ok::<Option<Offset>, StoreError>(next_page_offset)
        } else {
            r matches Err(e) && is_fault(
                e,
                Fault::Unexpected(
                    "status="@ + status@ + " points="@ + decimal_digits(points as nat),
                ),
            )
        },
{
    if !same(status, "ok") {
        let mut message = status_message(status);
        message.append(" points=");
        message.append(decimal(points as u128).as_str());
        return Err(StoreError::UnexpectedResponse(message));
    }
    Ok(next_page_offset)
}

/// What the reply to a query means.
pub fn points_queried(status: &str) -> (r: Result<(), StoreError>)
    ensures
        if status@ == "ok"@ {
            r is Ok
        } else {
            r matches Err(e) && is_fault(e, Fault::Unexpected("status="@ + status@))
        },
{
    if !same(status, "ok") {
        return Err(StoreError::UnexpectedResponse(status_message(status)));
    }
    Ok(())
}

/// There is exactly one slash between the server and a path, however they are written.
pub proof fn law_addresses_have_one_slash(url: Seq<char>, path: Seq<char>)
    ensures
        ({
            let base = without_trailing_slashes(url);
            let rest = without_leading_slashes(path);
            &&& endpoint_of(base, path) == base + "/"@ + rest
            &&& base.len() == 0 || base.last() != '/'
            &&& rest.len() == 0 || rest[0] != '/'
        }),
{
    lemma_no_trailing_slash(url);
    lemma_no_leading_slash(path);
}

proof fn lemma_no_trailing_slash(s: Seq<char>)
    ensures
        without_trailing_slashes(s).len() == 0 || without_trailing_slashes(s).last() != '/',
    decreases s.len(),
{
    if s.len() > 0 && s.last() == '/' {
        lemma_no_trailing_slash(s.drop_last());
    }
}

proof fn lemma_no_leading_slash(s: Seq<char>)
    ensures
        without_leading_slashes(s).len() == 0 || without_leading_slashes(s)[0] != '/',
    decreases s.len(),
{
    if s.len() > 0 && s[0] == '/' {
        lemma_no_leading_slash(s.skip(1));
    }
}

} // verus!
