//! Findings about the health of the two stores.

use vstd::prelude::*;
use crate::records::{
    EmbeddingIndexMetadata, SemanticNeighborhoodRow, SqliteStorageSummary, StorageHealthRow,
    StorageHealthStatus, VectorStorageProjection,
};
use crate::rows::ChunkProjectionCounts;
use crate::text::{concat, decimal, decimal_digits, same};

verus! {

/// The mathematical reading of a finding.
#[verifier::ext_equal]
pub struct Finding {
    pub status: StorageHealthStatus,
    pub label: Seq<char>,
    pub detail: Seq<char>,
}

impl View for StorageHealthRow {
    type V = Finding;

    open spec fn view(&self) -> Finding {
        Finding { status: self.status, label: self.label@, detail: self.detail@ }
    }
}

/// The readings of a list of findings.
pub open spec fn findings(rows: Seq<StorageHealthRow>) -> Seq<Finding> {
    Seq::new(rows.len(), |i: int| rows[i]@)
}

/// A finding that is made where a condition holds.
pub open spec fn found(
    condition: bool,
    status: StorageHealthStatus,
    label: Seq<char>,
    detail: Seq<char>,
) -> Seq<Finding> {
    if condition {
        seq![Finding { status, label, detail }]
    } else {
        Seq::empty()
    }
}

/// The findings, or where there are none that all is well.
pub open spec fn settled(found: Seq<Finding>, label: Seq<char>, detail: Seq<char>) -> Seq<Finding> {
    if found.len() == 0 {
        seq![Finding { status: StorageHealthStatus::Healthy, label, detail }]
    } else {
        found
    }
}

fn report(
    rows: &mut Vec<StorageHealthRow>,
    condition: bool,
    status: StorageHealthStatus,
    label: &str,
    detail: &str,
)
    ensures
        findings(final(rows)@) == findings(old(rows)@) + found(condition, status, label@, detail@),
{
    let ghost before = findings(rows@);
    if condition {
        rows.push(StorageHealthRow { status, label: label.to_owned(), detail: detail.to_owned() });
        proof {
            assert(findings(rows@) =~= before.push(
                Finding { status, label: label@, detail: detail@ },
            ));
            assert(findings(rows@) =~= before + found(condition, status, label@, detail@));
        }
    } else {
        proof {
            assert(before + found(condition, status, label@, detail@) =~= before);
        }
    }
}

/// The findings, or where there are none a row that says that all is well.
pub fn settle(rows: Vec<StorageHealthRow>, label: &str, detail: &str) -> (r: Vec<StorageHealthRow>)
    ensures
        findings(r@) == settled(findings(rows@), label@, detail@),
{
    if rows.len() == 0 {
        let healthy = vec![
            StorageHealthRow {
                status: StorageHealthStatus::Healthy,
                label: label.to_owned(),
                detail: detail.to_owned(),
            },
        ];
        proof {
            assert(findings(healthy@) =~= settled(findings(rows@), label@, detail@));
        }
        healthy
    } else {
        rows
    }
}

/// A count followed by what it counts.
pub open spec fn counting(n: usize, what: Seq<char>) -> Seq<char> {
    decimal_digits(n as nat) + what
}

fn count_text(n: usize, what: &str) -> (r: String)
    ensures
        r@ == counting(n, what@),
{
    concat(decimal(n as u128).as_str(), what)
}

/// What is to be said about the rows of a repository in both stores.
pub open spec fn storage_findings(
    sqlite: SqliteStorageSummary,
    vector: VectorStorageProjection,
) -> Seq<Finding> {
    settled(
        found(
            sqlite.repositories == 0,
            StorageHealthStatus::Error,
            "repository_missing"@,
            "SQLite has no repository row for the selected root."@,
        ) + found(
            sqlite.index_runs == 0,
            StorageHealthStatus::Warning,
            "no_index_runs"@,
            "No index run metadata has been recorded yet."@,
        ) + found(
            vector.missing_vector_chunks > 0,
            StorageHealthStatus::Warning,
            "missing_vectors"@,
            counting(
                vector.missing_vector_chunks,
                " embeddable chunks do not have vector point IDs."@,
            ),
        ) + found(
            vector.excluded_chunks > 0,
            StorageHealthStatus::Warning,
            "excluded_chunks"@,
            counting(vector.excluded_chunks, " chunks are intentionally metadata-only."@),
        ),
        "coverage_ok"@,
        "SQLite metadata and vector-backed chunk counts are aligned."@,
    )
}

pub fn storage_warnings(sqlite: &SqliteStorageSummary, vector: &VectorStorageProjection) -> (r: Vec<
    StorageHealthRow,
>)
    ensures
        findings(r@) == storage_findings(*sqlite, *vector),
{
    let mut rows: Vec<StorageHealthRow> = Vec::new();
    proof {
        assert(findings(rows@) =~= Seq::empty());
    }
    report(
        &mut rows,
        sqlite.repositories == 0,
        StorageHealthStatus::Error,
        "repository_missing",
        "SQLite has no repository row for the selected root.",
    );
    report(
        &mut rows,
        sqlite.index_runs == 0,
        StorageHealthStatus::Warning,
        "no_index_runs",
        "No index run metadata has been recorded yet.",
    );
    report(
        &mut rows,
        vector.missing_vector_chunks > 0,
        StorageHealthStatus::Warning,
        "missing_vectors",
        count_text(
            vector.missing_vector_chunks,
            " embeddable chunks do not have vector point IDs.",
        ).as_str(),
    );
    report(
        &mut rows,
        vector.excluded_chunks > 0,
        StorageHealthStatus::Warning,
        "excluded_chunks",
        count_text(
            vector.excluded_chunks,
            " chunks are intentionally metadata-only.",
        ).as_str(),
    );
    proof {
        let first = found(
            sqlite.repositories == 0,
            StorageHealthStatus::Error,
            "repository_missing"@,
            "SQLite has no repository row for the selected root."@,
        );
        assert(Seq::<Finding>::empty() + first =~= first);
    }
    settle(
        rows,
        "coverage_ok",
        "SQLite metadata and vector-backed chunk counts are aligned.",
    )
}

/// The message that the configured model is not the one that was indexed with.
pub open spec fn model_drift(configured: Seq<char>, indexed: Seq<char>) -> Seq<char> {
    "Configured model "@ + configured + " differs from latest indexed model "@ + indexed + "."@
}

fn model_drift_text(configured: &str, indexed: &str) -> (r: String)
    ensures
        r@ == model_drift(configured@, indexed@),
{
    let mut out = "Configured model ".to_owned();
    out.append(configured);
    out.append(" differs from latest indexed model ");
    out.append(indexed);
    out.append(".");
    out
}

/// The message that the latest run embedded another number of chunks than are recorded.
pub open spec fn run_mismatch(embedded: usize, recorded: usize) -> Seq<char> {
    "Latest run embedded "@ + decimal_digits(embedded as nat) + " chunks, while SQLite records "@
        + decimal_digits(recorded as nat) + " vector-backed chunks."@
}

fn run_mismatch_text(embedded: usize, recorded: usize) -> (r: String)
    ensures
        r@ == run_mismatch(embedded, recorded),
{
    let mut out = "Latest run embedded ".to_owned();
    out.append(decimal(embedded as u128).as_str());
    out.append(" chunks, while SQLite records ");
    out.append(decimal(recorded as u128).as_str());
    out.append(" vector-backed chunks.");
    out
}

/// What is to be said about the latest embedding run.
pub open spec fn run_findings(
    vector_backed: usize,
    latest: Option<EmbeddingIndexMetadata>,
    configured: Seq<char>,
) -> Seq<Finding> {
    match latest {
        Some(run) => found(
            run.embedding_model@ != configured,
            StorageHealthStatus::Error,
            "model_drift"@,
            model_drift(configured, run.embedding_model@),
        ) + found(
            run.embedding_dimension is None,
            StorageHealthStatus::Error,
            "dimension_missing"@,
            "Latest successful semantic run did not record a vector dimension."@,
        ) + found(
            run.chunks_embedded != vector_backed,
            StorageHealthStatus::Warning,
            "run_count_mismatch"@,
            run_mismatch(run.chunks_embedded, vector_backed),
        ),
        None => Seq::empty(),
    }
}

/// What is to be said about the embeddings of a repository.
pub open spec fn coverage_findings(
    chunks_indexed: usize,
    projection: ChunkProjectionCounts,
    latest: Option<EmbeddingIndexMetadata>,
    configured: Seq<char>,
) -> Seq<Finding> {
    found(
        projection.missing_vector_chunks > 0,
        StorageHealthStatus::Warning,
        "missing_vectors"@,
        counting(
            projection.missing_vector_chunks,
            " embeddable chunks have no recorded vector point ID."@,
        ),
    ) + found(
        projection.excluded_chunks > 0,
        StorageHealthStatus::Warning,
        "excluded_chunks"@,
        counting(
            projection.excluded_chunks,
            " chunks are intentionally excluded from embeddings."@,
        ),
    ) + found(
        projection.embeddable_chunks > 0 && latest is None,
        StorageHealthStatus::Warning,
        "no_embedding_run"@,
        "No successful semantic index run has recorded model/dimension metadata."@,
    ) + run_findings(projection.vector_backed_chunks, latest, configured) + found(
        chunks_indexed == 0,
        StorageHealthStatus::Warning,
        "no_chunks"@,
        "No SQLite chunks are indexed for this repository."@,
    )
}

/// What a summary says about the embeddings of a repository: the findings, or that all is well.
pub open spec fn coverage_health(
    chunks_indexed: usize,
    projection: ChunkProjectionCounts,
    latest: Option<EmbeddingIndexMetadata>,
    configured: Seq<char>,
) -> Seq<Finding> {
    settled(
        coverage_findings(chunks_indexed, projection, latest, configured),
        "embedding_coverage_ok"@,
        "All embeddable SQLite chunks have recorded vector point metadata."@,
    )
}

pub fn embedding_coverage_health(
    chunks_indexed: usize,
    projection: &ChunkProjectionCounts,
    latest_embedding: &Option<EmbeddingIndexMetadata>,
    configured_embedding_model: &str,
) -> (r: Vec<StorageHealthRow>)
    ensures
        findings(r@) == coverage_findings(
            chunks_indexed,
            *projection,
            *latest_embedding,
            configured_embedding_model@,
        ),
{
    let mut rows: Vec<StorageHealthRow> = Vec::new();
    proof {
        assert(findings(rows@) =~= Seq::empty());
    }
    report(
        &mut rows,
        projection.missing_vector_chunks > 0,
        StorageHealthStatus::Warning,
        "missing_vectors",
        count_text(
            projection.missing_vector_chunks,
            " embeddable chunks have no recorded vector point ID.",
        ).as_str(),
    );
    report(
        &mut rows,
        projection.excluded_chunks > 0,
        StorageHealthStatus::Warning,
        "excluded_chunks",
        count_text(
            projection.excluded_chunks,
            " chunks are intentionally excluded from embeddings.",
        ).as_str(),
    );
    report(
        &mut rows,
        projection.embeddable_chunks > 0 && latest_embedding.is_none(),
        StorageHealthStatus::Warning,
        "no_embedding_run",
        "No successful semantic index run has recorded model/dimension metadata.",
    );
    let ghost head = findings(rows@);
    if let Some(latest) = latest_embedding {
        report(
            &mut rows,
            !same(latest.embedding_model.as_str(), configured_embedding_model),
            StorageHealthStatus::Error,
            "model_drift",
            model_drift_text(
                configured_embedding_model,
                latest.embedding_model.as_str(),
            ).as_str(),
        );
        report(
            &mut rows,
            latest.embedding_dimension.is_none(),
            StorageHealthStatus::Error,
            "dimension_missing",
            "Latest successful semantic run did not record a vector dimension.",
        );
        report(
            &mut rows,
            latest.chunks_embedded != projection.vector_backed_chunks,
            StorageHealthStatus::Warning,
            "run_count_mismatch",
            run_mismatch_text(latest.chunks_embedded, projection.vector_backed_chunks).as_str(),
        );
    }
    proof {
        let run = run_findings(
            projection.vector_backed_chunks,
            *latest_embedding,
            configured_embedding_model@,
        );
        assert(findings(rows@) =~= head + run);
    }
    report(
        &mut rows,
        chunks_indexed == 0,
        StorageHealthStatus::Warning,
        "no_chunks",
        "No SQLite chunks are indexed for this repository.",
    );
    proof {
        let first = found(
            projection.missing_vector_chunks > 0,
            StorageHealthStatus::Warning,
            "missing_vectors"@,
            counting(
                projection.missing_vector_chunks,
                " embeddable chunks have no recorded vector point ID."@,
            ),
        );
        assert(Seq::<Finding>::empty() + first =~= first);
    }
    rows
}

/// What is to be said about the chunks that have a vector.
pub open spec fn neighborhood_findings(rows: nat) -> Seq<Finding> {
    if rows == 0 {
        found(
            true,
            StorageHealthStatus::Warning,
            "no_vector_payloads"@,
            "No vector-backed chunk metadata is recorded for semantic inspection."@,
        )
    } else {
        found(
            true,
            StorageHealthStatus::Healthy,
            "metadata_only"@,
            decimal_digits(rows)
                + " vector metadata metadata rows are available without source text."@,
        )
    }
}

pub fn semantic_neighborhood_health(rows: &Vec<SemanticNeighborhoodRow>) -> (r: Vec<
    StorageHealthRow,
>)
    ensures
        findings(r@) == neighborhood_findings(rows@.len()),
{
    let mut out: Vec<StorageHealthRow> = Vec::new();
    proof {
        assert(findings(out@) =~= Seq::empty());
    }
    if rows.len() == 0 {
        report(
            &mut out,
            true,
            StorageHealthStatus::Warning,
            "no_vector_payloads",
            "No vector-backed chunk metadata is recorded for semantic inspection.",
        );
    } else {
        report(
            &mut out,
            true,
            StorageHealthStatus::Healthy,
            "metadata_only",
            count_text(
                rows.len(),
                " vector metadata metadata rows are available without source text.",
            ).as_str(),
        );
    }
    proof {
        let expected = neighborhood_findings(rows@.len());
        assert(Seq::<Finding>::empty() + expected =~= expected);
    }
    out
}

/// Numbers in decimal notation, with commas between them.
pub open spec fn listed(numbers: Seq<usize>) -> Seq<char>
    decreases numbers.len(),
{
    if numbers.len() == 0 {
        Seq::empty()
    } else if numbers.len() == 1 {
        decimal_digits(numbers[0] as nat)
    } else {
        listed(numbers.drop_last()) + ", "@ + decimal_digits(numbers.last() as nat)
    }
}

fn list_text(numbers: &Vec<usize>) -> (r: String)
    ensures
        r@ == listed(numbers@),
{
    let mut out = String::new();
    proof {
        assert(out@ =~= listed(numbers@.take(0)));
    }
    for i in 0..numbers.len()
        invariant
            out@ == listed(numbers@.take(i as int)),
    {
        proof {
            let front = numbers@.take(i + 1);
            assert(front.drop_last() =~= numbers@.take(i as int));
            assert(front.last() == numbers@[i as int]);
            if i == 0 {
                assert(out@ + decimal_digits(front[0] as nat) =~= decimal_digits(front[0] as nat));
            }
        }
        if i > 0 {
            out.append(", ");
        }
        out.append(decimal(numbers[i] as u128).as_str());
    }
    proof {
        assert(numbers@.take(numbers@.len() as int) =~= numbers@);
    }
    out
}

/// The message that a model was recorded with more than one dimension.
pub open spec fn dimension_drift(model: Seq<char>, dimensions: Seq<usize>) -> Seq<char> {
    "Successful runs for model "@ + model + " recorded multiple dimensions: "@ + listed(dimensions)
        + "."@
}

fn dimension_drift_text(model: &str, dimensions: &Vec<usize>) -> (r: String)
    ensures
        r@ == dimension_drift(model@, dimensions@),
{
    let mut out = "Successful runs for model ".to_owned();
    out.append(model);
    out.append(" recorded multiple dimensions: ");
    out.append(list_text(dimensions).as_str());
    out.append(".");
    out
}

/// What is to be said about the collection of a repository.
pub open spec fn collection_findings(
    projection: ChunkProjectionCounts,
    latest: Option<EmbeddingIndexMetadata>,
) -> Seq<Finding> {
    if latest is None {
        found(
            projection.embeddable_chunks > 0,
            StorageHealthStatus::Error,
            "missing_collection"@,
            "Embeddable chunks exist, but no successful semantic index run has recorded collection metadata."@,
        )
    } else {
        found(
            projection.embeddable_chunks > 0 && projection.vector_backed_chunks == 0,
            StorageHealthStatus::Error,
            "missing_collection"@,
            "Embeddable chunks exist, but no chunks have recorded vector point IDs."@,
        )
    }
}

/// What is to be said about a model that is not the configured one.
pub open spec fn drift_findings(
    latest: Option<EmbeddingIndexMetadata>,
    configured: Seq<char>,
) -> Seq<Finding> {
    match latest {
        Some(run) => found(
            run.embedding_model@ != configured,
            StorageHealthStatus::Error,
            "model_drift"@,
            model_drift(configured, run.embedding_model@),
        ),
        None => Seq::empty(),
    }
}

/// What is to be said about whether the two stores agree.
pub open spec fn cross_store_findings(
    projection: ChunkProjectionCounts,
    latest: Option<EmbeddingIndexMetadata>,
    configured: Seq<char>,
    projected: Seq<char>,
    dimensions: Seq<usize>,
) -> Seq<Finding> {
    settled(
        collection_findings(projection, latest) + found(
            projection.missing_vector_chunks > 0,
            StorageHealthStatus::Warning,
            "missing_vectors"@,
            counting(
                projection.missing_vector_chunks,
                " embeddable chunks are missing recorded vector point IDs."@,
            ),
        ) + found(
            projection.excluded_chunks > 0,
            StorageHealthStatus::Warning,
            "excluded_chunks"@,
            counting(
                projection.excluded_chunks,
                " chunks are intentionally excluded from semantic embedding."@,
            ),
        ) + drift_findings(latest, configured) + found(
            dimensions.len() > 1,
            StorageHealthStatus::Error,
            "dimension_drift"@,
            dimension_drift(projected, dimensions),
        ),
        "cross_store_ok"@,
        "SQLite chunk metadata and recorded vector projection metadata are aligned."@,
    )
}

pub fn cross_store_health(
    projection: &ChunkProjectionCounts,
    latest_embedding: &Option<EmbeddingIndexMetadata>,
    configured_embedding_model: &str,
    projected_model: &str,
    dimensions: &Vec<usize>,
) -> (r: Vec<StorageHealthRow>)
    ensures
        findings(r@) == cross_store_findings(
            *projection,
            *latest_embedding,
            configured_embedding_model@,
            projected_model@,
            dimensions@,
        ),
{
    let mut rows: Vec<StorageHealthRow> = Vec::new();
    proof {
        assert(findings(rows@) =~= Seq::empty());
    }
    if latest_embedding.is_none() {
        report(
            &mut rows,
            projection.embeddable_chunks > 0,
            StorageHealthStatus::Error,
            "missing_collection",
            "Embeddable chunks exist, but no successful semantic index run has recorded collection metadata.",
        );
    } else {
        report(
            &mut rows,
            projection.embeddable_chunks > 0 && projection.vector_backed_chunks == 0,
            StorageHealthStatus::Error,
            "missing_collection",
            "Embeddable chunks exist, but no chunks have recorded vector point IDs.",
        );
    }
    proof {
        let first = collection_findings(*projection, *latest_embedding);
        assert(Seq::<Finding>::empty() + first =~= first);
    }
    report(
        &mut rows,
        projection.missing_vector_chunks > 0,
        StorageHealthStatus::Warning,
        "missing_vectors",
        count_text(
            projection.missing_vector_chunks,
            " embeddable chunks are missing recorded vector point IDs.",
        ).as_str(),
    );
    report(
        &mut rows,
        projection.excluded_chunks > 0,
        StorageHealthStatus::Warning,
        "excluded_chunks",
        count_text(
            projection.excluded_chunks,
            " chunks are intentionally excluded from semantic embedding.",
        ).as_str(),
    );
    let ghost head = findings(rows@);
    if let Some(latest) = latest_embedding {
        report(
            &mut rows,
            !same(latest.embedding_model.as_str(), configured_embedding_model),
            StorageHealthStatus::Error,
            "model_drift",
            model_drift_text(
                configured_embedding_model,
                latest.embedding_model.as_str(),
            ).as_str(),
        );
    }
    proof {
        let drift = drift_findings(*latest_embedding, configured_embedding_model@);
        assert(findings(rows@) =~= head + drift);
    }
    report(
        &mut rows,
        dimensions.len() > 1,
        StorageHealthStatus::Error,
        "dimension_drift",
        dimension_drift_text(projected_model, dimensions).as_str(),
    );
    settle(
        rows,
        "cross_store_ok",
        "SQLite chunk metadata and recorded vector projection metadata are aligned.",
    )
}

/// There is always something to say, and that all is well is only said alone.
pub open spec fn is_consistent(list: Seq<Finding>) -> bool {
    &&& list.len() > 0
    &&& forall|i: int|
        0 <= i < list.len() && (#[trigger] list[i]).status == StorageHealthStatus::Healthy
            ==> list.len() == 1
}

/// That the stores are healthy is reported exactly where there is nothing else to report.
pub proof fn law_storage_health_is_consistent(
    sqlite: SqliteStorageSummary,
    vector: VectorStorageProjection,
)
    ensures
        is_consistent(storage_findings(sqlite, vector)),
        storage_findings(sqlite, vector)[0].status == StorageHealthStatus::Healthy
            <==> sqlite.repositories > 0 && sqlite.index_runs > 0 && vector.missing_vector_chunks
            == 0 && vector.excluded_chunks == 0,
{
}

/// There is something to say about the embeddings exactly where they do not cover everything, and
/// it is never that all is well; a summary says that instead where there is nothing to say.
pub proof fn law_coverage_health_is_consistent(
    chunks_indexed: usize,
    projection: ChunkProjectionCounts,
    latest: Option<EmbeddingIndexMetadata>,
    configured: Seq<char>,
)
    ensures
        ({
            let list = coverage_findings(chunks_indexed, projection, latest, configured);
            let health = coverage_health(chunks_indexed, projection, latest, configured);
            let covered = chunks_indexed > 0 && projection.missing_vector_chunks == 0
                && projection.excluded_chunks == 0 && (match latest {
                Some(run) => run.embedding_model@ == configured && run.embedding_dimension is Some
                    && run.chunks_embedded == projection.vector_backed_chunks,
                None => projection.embeddable_chunks == 0,
            });
            &&& list.len() == 0 <==> covered
            &&& forall|i: int|
                0 <= i < list.len() ==> (#[trigger] list[i]).status != StorageHealthStatus::Healthy
            &&& is_consistent(health)
            &&& health[0].status == StorageHealthStatus::Healthy <==> covered
        }),
{
}

/// That the two stores agree is reported exactly where there is nothing else to report.
pub proof fn law_cross_store_health_is_consistent(
    projection: ChunkProjectionCounts,
    latest: Option<EmbeddingIndexMetadata>,
    configured: Seq<char>,
    projected: Seq<char>,
    dimensions: Seq<usize>,
)
    ensures
        is_consistent(
            cross_store_findings(projection, latest, configured, projected, dimensions),
        ),
        cross_store_findings(projection, latest, configured, projected, dimensions)[0].status
            == StorageHealthStatus::Healthy <==> projection.missing_vector_chunks == 0
            && projection.excluded_chunks == 0 && dimensions.len() <= 1 && (match latest {
            Some(run) => run.embedding_model@ == configured && (projection.embeddable_chunks == 0
                || projection.vector_backed_chunks > 0),
            None => projection.embeddable_chunks == 0,
        }),
{
}

} // verus!
