//! The queries that a summary is taken from, and how their answers become its facts.

use vstd::prelude::*;
use crate::error::{is_fault, StoreError};
use crate::generations::{semantic_layer_manifest_aggregate_spec, RoutingFacts};
use crate::layers::SemanticLayer;
use crate::quality::{
    progress_queries, QualityActivationFacts, QualityGenerationFacts,
};
use crate::records::{EmbeddingIndexMetadata, SemanticGenerationRecord};
use crate::rows::FileCoverageBaseRow;
use crate::runs::{latest_embedding_run_spec, successful_embedding_dimensions_spec};
use crate::search::{
    callees_for_ref_spec, callees_spec, callers_for_ref_spec, callers_spec,
    find_symbols_for_ref_spec, find_symbols_spec,
};
use crate::sql::{
    first_fault, first_row, queries, script, Command, CommandView, FromRow, Row, Statement,
};
use crate::store::SqliteStore;
use crate::summaries::{
    chunk_projection_spec, count_index_runs_spec, count_repositories_spec,
    embedding_exclusion_reasons_spec, file_call_details_spec, file_chunk_details_spec,
    file_symbol_details_spec, first_in, index_coverage_spec, projected, projected_model,
    semantic_neighborhood_spec, status_queries, CrossStoreFacts, EmbeddingFacts, FileDetailFacts,
    RepositoryFacts, StorageFacts,
};

verus! {

/// The id of a generation, where there is one.
pub open spec fn generation_id(generation: Option<SemanticGenerationRecord>) -> Option<Seq<char>> {
    match generation {
        Some(generation) => Some(generation.id@),
        None => None,
    }
}

fn id_in(generation: &Option<SemanticGenerationRecord>) -> (r: Option<&str>)
    ensures
        crate::text::optional_str(r) == generation_id(*generation),
{
    match generation {
        Some(generation) => Some(generation.id.as_str()),
        None => None,
    }
}

/// Takes the last answer.
fn last_answer(answers: &mut Vec<Vec<Row>>) -> (r: Vec<Row>)
    requires
        old(answers)@.len() > 0,
    ensures
        r == old(answers)@.last(),
        final(answers)@ == old(answers)@.drop_last(),
{
    match answers.pop() {
        Some(answer) => answer,
        None => Vec::new(),
    }
}

/// `facts` are the first seven of `answers`: those to the queries of `repository_status`.
pub open spec fn status_answered(facts: RepositoryFacts, answers: Seq<Vec<Row>>) -> bool {
    &&& facts.files == answers[0]
    &&& facts.chunks == answers[1]
    &&& facts.last_indexed_at == answers[2]
    &&& facts.embedding == answers[3]
    &&& facts.current_ref == answers[4]
    &&& facts.symbols == answers[5]
    &&& facts.calls == answers[6]
}

impl RepositoryFacts {
    /// The facts in the answers to the queries of `repository_status`.
    pub fn from_answers(answers: Vec<Vec<Row>>) -> (r: RepositoryFacts)
        requires
            answers@.len() == 7,
        ensures
            status_answered(r, answers@),
    {
        let mut answers = answers;
        let calls = last_answer(&mut answers);
        let symbols = last_answer(&mut answers);
        let current_ref = last_answer(&mut answers);
        let embedding = last_answer(&mut answers);
        let last_indexed_at = last_answer(&mut answers);
        let chunks = last_answer(&mut answers);
        let files = last_answer(&mut answers);
        RepositoryFacts { files, chunks, last_indexed_at, embedding, current_ref, symbols, calls }
    }
}

/// The queries for the rows that both stores hold of a repository.
pub open spec fn storage_queries(
    repository_id: Seq<char>,
    generation: Option<SemanticGenerationRecord>,
) -> Seq<CommandView> {
    status_queries(repository_id) + queries(
        seq![
            count_repositories_spec(repository_id),
            count_index_runs_spec(repository_id),
            chunk_projection_spec(repository_id, generation_id(generation)),
        ],
    )
}

impl StorageFacts {
    /// The facts in the answers to the queries of `storage_explorer_queries`.
    pub fn from_answers(answers: Vec<Vec<Row>>) -> (r: StorageFacts)
        requires
            answers@.len() == 10,
        ensures
            status_answered(r.status, answers@),
            r.repositories == answers@[7],
            r.index_runs == answers@[8],
            r.projection == answers@[9],
    {
        let mut answers = answers;
        let projection = last_answer(&mut answers);
        let index_runs = last_answer(&mut answers);
        let repositories = last_answer(&mut answers);
        let status = RepositoryFacts::from_answers(answers);
        StorageFacts { status, repositories, index_runs, projection }
    }
}

/// The queries for the embeddings of a repository.
pub open spec fn embedding_queries(
    repository_id: Seq<char>,
    generation: Option<SemanticGenerationRecord>,
) -> Seq<CommandView> {
    status_queries(repository_id) + queries(
        seq![
            chunk_projection_spec(repository_id, generation_id(generation)),
            embedding_exclusion_reasons_spec(repository_id),
        ],
    )
}

impl EmbeddingFacts {
    /// The facts in the answers to the queries of `embedding_coverage_queries`.
    pub fn from_answers(answers: Vec<Vec<Row>>) -> (r: EmbeddingFacts)
        requires
            answers@.len() == 9,
        ensures
            status_answered(r.status, answers@),
            r.projection == answers@[7],
            r.exclusions == answers@[8],
    {
        let mut answers = answers;
        let exclusions = last_answer(&mut answers);
        let projection = last_answer(&mut answers);
        let status = RepositoryFacts::from_answers(answers);
        EmbeddingFacts { status, projection, exclusions }
    }
}

impl CrossStoreFacts {
    /// The facts in the answers to the queries of `cross_store_queries`, followed by the answer to
    /// the query of `cross_store_dimensions`.
    pub fn from_answers(answers: Vec<Vec<Row>>) -> (r: CrossStoreFacts)
        requires
            answers@.len() == 3,
        ensures
            r.projection == answers@[0],
            r.embedding == answers@[1],
            r.dimensions == answers@[2],
    {
        let mut answers = answers;
        let dimensions = last_answer(&mut answers);
        let embedding = last_answer(&mut answers);
        let projection = last_answer(&mut answers);
        CrossStoreFacts { projection, embedding, dimensions }
    }
}

impl QualityGenerationFacts {
    /// The facts in the answers to the queries of `quality_generation_progress`.
    pub fn from_answers(answers: Vec<Vec<Row>>) -> (r: QualityGenerationFacts)
        requires
            answers@.len() == 3,
        ensures
            r.embeddable == answers@[0],
            r.embedded == answers@[1],
            r.jobs == answers@[2],
    {
        let mut answers = answers;
        let jobs = last_answer(&mut answers);
        let embedded = last_answer(&mut answers);
        let embeddable = last_answer(&mut answers);
        QualityGenerationFacts { embeddable, embedded, jobs }
    }
}

impl QualityActivationFacts {
    /// The facts in the answers to the queries of `refresh_quality_activation`.
    pub fn from_answers(answers: Vec<Vec<Row>>) -> (r: QualityActivationFacts)
        requires
            answers@.len() == 4,
        ensures
            r.generation == answers@[0],
            r.latest == answers@[1],
            r.embedded == answers@[2],
            r.jobs == answers@[3],
    {
        let mut answers = answers;
        let jobs = last_answer(&mut answers);
        let embedded = last_answer(&mut answers);
        let latest = last_answer(&mut answers);
        let generation = last_answer(&mut answers);
        QualityActivationFacts { generation, latest, embedded, jobs }
    }
}

/// The queries for the layers of a generation.
pub open spec fn layer_queries(generation: SemanticGenerationRecord) -> Seq<CommandView> {
    let repository_id = generation.repository_id@;
    queries(
        seq![
            semantic_layer_manifest_aggregate_spec(
                repository_id,
                generation.id@,
                SemanticLayer::Fast,
            ),
        ],
    ) + progress_queries(repository_id, generation.id@) + queries(
        seq![
            semantic_layer_manifest_aggregate_spec(
                repository_id,
                generation.id@,
                SemanticLayer::Quality,
            ),
        ],
    )
}

impl RoutingFacts {
    /// The facts in the answers to the queries of `semantic_routing_queries`.
    pub fn from_answers(answers: Vec<Vec<Row>>) -> (r: RoutingFacts)
        requires
            answers@.len() == 5,
        ensures
            r.fast == answers@[0],
            r.progress.embeddable == answers@[1],
            r.progress.embedded == answers@[2],
            r.progress.jobs == answers@[3],
            r.quality == answers@[4],
    {
        let mut answers = answers;
        let quality = last_answer(&mut answers);
        let jobs = last_answer(&mut answers);
        let embedded = last_answer(&mut answers);
        let embeddable = last_answer(&mut answers);
        let fast = last_answer(&mut answers);
        RoutingFacts {
            fast,
            progress: QualityGenerationFacts { embeddable, embedded, jobs },
            quality,
        }
    }
}

/// The queries for the details of files, three for each file.
pub open spec fn detail_queries(
    bases: Seq<FileCoverageBaseRow>,
    generation: Option<SemanticGenerationRecord>,
) -> Seq<CommandView>
    decreases bases.len(),
{
    if bases.len() == 0 {
        Seq::empty()
    } else {
        detail_queries(bases.drop_last(), generation) + queries(
            seq![
                file_chunk_details_spec(bases.last().file_id@, generation_id(generation)),
                file_symbol_details_spec(bases.last().file_id@),
                file_call_details_spec(bases.last().file_id@),
            ],
        )
    }
}

impl FileDetailFacts {
    /// The facts of files in the answers to the queries of `file_detail_queries`.
    pub fn from_answers(answers: Vec<Vec<Row>>) -> (r: Vec<FileDetailFacts>)
        requires
            answers@.len() % 3 == 0,
        ensures
            r@.len() == answers@.len() / 3,
            forall|i: int|
                #![trigger r@[i]]
                0 <= i < r@.len() ==> r@[i].chunks == answers@[3 * i] && r@[i].symbols
                    == answers@[3 * i + 1] && r@[i].calls == answers@[3 * i + 2],
    {
        let mut facts: Vec<FileDetailFacts> = Vec::new();
        let mut chunks: Option<Vec<Row>> = None;
        let mut symbols: Option<Vec<Row>> = None;
        for answer in it: answers
            invariant
                it.seq() == answers@,
                facts@.len() == it.index() / 3,
                chunks is Some <==> it.index() % 3 >= 1,
                chunks matches Some(rows) ==> rows == answers@[3 * (it.index() / 3)],
                symbols is Some <==> it.index() % 3 == 2,
                symbols matches Some(rows) ==> rows == answers@[3 * (it.index() / 3) + 1],
                forall|i: int|
                    #![trigger facts@[i]]
                    0 <= i < facts@.len() ==> facts@[i].chunks == answers@[3 * i]
                        && facts@[i].symbols == answers@[3 * i + 1] && facts@[i].calls
                        == answers@[3 * i + 2],
        {
            match chunks {
                None => {
                    chunks = Some(answer);
                },
                Some(first) => match symbols {
                    None => {
                        chunks = Some(first);
                        symbols = Some(answer);
                    },
                    Some(second) => {
                        facts.push(
                            FileDetailFacts { chunks: first, symbols: second, calls: answer },
                        );
                        chunks = None;
                        symbols = None;
                    },
                },
            }
        }
        facts
    }
}

impl SqliteStore {
    /// The queries for `storage_explorer_summary`. `generation` is the latest one.
    pub fn storage_explorer_queries(
        repository_id: &str,
        generation: &Option<SemanticGenerationRecord>,
    ) -> (r: Vec<Command>)
        ensures
            script(r@) == storage_queries(repository_id@, *generation),
    {
        let mut commands = SqliteStore::repository_status(repository_id);
        commands.push(Command::Query(SqliteStore::count_repositories(repository_id)));
        commands.push(Command::Query(SqliteStore::count_index_runs(repository_id)));
        commands.push(
            Command::Query(SqliteStore::chunk_projection(repository_id, id_in(generation))),
        );
        proof {
            assert(script(commands@) =~= storage_queries(repository_id@, *generation));
        }
        commands
    }

    /// The queries for `embedding_coverage_summary`. `generation` is the latest one.
    pub fn embedding_coverage_queries(
        repository_id: &str,
        generation: &Option<SemanticGenerationRecord>,
    ) -> (r: Vec<Command>)
        ensures
            script(r@) == embedding_queries(repository_id@, *generation),
    {
        let mut commands = SqliteStore::repository_status(repository_id);
        commands.push(
            Command::Query(SqliteStore::chunk_projection(repository_id, id_in(generation))),
        );
        commands.push(Command::Query(SqliteStore::embedding_exclusion_reasons(repository_id)));
        proof {
            assert(script(commands@) =~= embedding_queries(repository_id@, *generation));
        }
        commands
    }

    /// The first queries for `cross_store_health_summary`. `generation` is the latest one. The
    /// second answer goes to `cross_store_dimensions`.
    pub fn cross_store_queries(
        repository_id: &str,
        generation: &Option<SemanticGenerationRecord>,
    ) -> (r: Vec<Command>)
        ensures
            script(r@) == queries(
                seq![
                    chunk_projection_spec(repository_id@, generation_id(*generation)),
                    latest_embedding_run_spec(repository_id@),
                ],
            ),
    {
        let commands = vec![
            Command::Query(SqliteStore::chunk_projection(repository_id, id_in(generation))),
            Command::Query(SqliteStore::latest_embedding_run(repository_id)),
        ];
        proof {
            assert(script(commands@) =~= queries(
                seq![
                    chunk_projection_spec(repository_id@, generation_id(*generation)),
                    latest_embedding_run_spec(repository_id@),
                ],
            ));
        }
        commands
    }

    /// The last query for `cross_store_health_summary`: the dimensions that runs with the
    /// projected model recorded.
    pub fn cross_store_dimensions(
        repository_id: &str,
        configured_embedding_model: &str,
        embedding: &Vec<Row>,
    ) -> (r: Result<Statement, StoreError>)
        ensures
            match first_fault::<EmbeddingIndexMetadata>(embedding@) {
                Some(fault) => r matches Err(e) && is_fault(e, fault),
                None => r matches Ok(s) && s@ == successful_embedding_dimensions_spec(
                    repository_id@,
                    projected(
                        first_in::<EmbeddingIndexMetadata>(embedding@),
                        configured_embedding_model@,
                    ),
                ),
            },
    {
        let latest: Option<EmbeddingIndexMetadata> = match first_row(embedding) {
            Ok(latest) => latest,
            Err(error) => {
                return Err(error);
            },
        };
        let model = projected_model(&latest, configured_embedding_model);
        Ok(SqliteStore::successful_embedding_dimensions(repository_id, model.as_str()))
    }

    /// The query for the rows of `semantic_neighborhood_summary`; none without a generation.
    pub fn semantic_neighborhood_query(
        repository_id: &str,
        generation: &Option<SemanticGenerationRecord>,
    ) -> (r: Option<Statement>)
        ensures
            match *generation {
                Some(generation) => r matches Some(s) && s@ == semantic_neighborhood_spec(
                    repository_id@,
                    generation.id@,
                ),
                None => r is None,
            },
    {
        match generation {
            Some(generation) => Some(
                SqliteStore::semantic_neighborhood(repository_id, generation.id.as_str()),
            ),
            None => None,
        }
    }

    /// The query for the files of `index_coverage_summary`, read as `FileCoverageBaseRow`s.
    /// `generation` is the latest one.
    pub fn index_coverage_query(
        repository_id: &str,
        generation: &Option<SemanticGenerationRecord>,
    ) -> (r: Statement)
        ensures
            r@ == index_coverage_spec(repository_id@, generation_id(*generation)),
    {
        SqliteStore::index_coverage(repository_id, id_in(generation))
    }

    /// The queries for the details of files.
    pub fn file_detail_queries(
        bases: &Vec<FileCoverageBaseRow>,
        generation: &Option<SemanticGenerationRecord>,
    ) -> (r: Vec<Command>)
        ensures
            script(r@) == detail_queries(bases@, *generation),
    {
        let mut commands: Vec<Command> = Vec::new();
        proof {
            assert(script(commands@) =~= detail_queries(bases@.take(0), *generation));
        }
        for i in 0..bases.len()
            invariant
                script(commands@) == detail_queries(bases@.take(i as int), *generation),
        {
            let ghost before = script(commands@);
            let file_id = bases[i].file_id.as_str();
            commands.push(
                Command::Query(SqliteStore::file_chunk_details(file_id, id_in(generation))),
            );
            commands.push(Command::Query(SqliteStore::file_symbol_details(file_id)));
            commands.push(Command::Query(SqliteStore::file_call_details(file_id)));
            proof {
                let now = bases@.take(i + 1);
                assert(now.drop_last() =~= bases@.take(i as int));
                assert(script(commands@) =~= before + queries(
                    seq![
                        file_chunk_details_spec(now.last().file_id@, generation_id(*generation)),
                        file_symbol_details_spec(now.last().file_id@),
                        file_call_details_spec(now.last().file_id@),
                    ],
                ));
            }
        }
        proof {
            assert(bases@.take(bases@.len() as int) =~= bases@);
        }
        commands
    }

    /// The queries for the layers of a generation, for `semantic_routing_summary_for_generation`.
    pub fn semantic_routing_queries(generation: &SemanticGenerationRecord) -> (r: Vec<Command>)
        ensures
            script(r@) == layer_queries(*generation),
    {
        let repository_id = generation.repository_id.as_str();
        let generation_id = generation.id.as_str();
        let mut commands = vec![
            Command::Query(
                SqliteStore::semantic_layer_manifest_aggregate(
                    repository_id,
                    generation_id,
                    SemanticLayer::Fast,
                ),
            ),
        ];
        let mut progress = SqliteStore::quality_generation_progress(repository_id, generation_id);
        commands.append(&mut progress);
        commands.push(
            Command::Query(
                SqliteStore::semantic_layer_manifest_aggregate(
                    repository_id,
                    generation_id,
                    SemanticLayer::Quality,
                ),
            ),
        );
        proof {
            assert(script(commands@) =~= layer_queries(*generation));
        }
        commands
    }

    /// The queries for the symbols, callers and callees of a context pack. They are read as
    /// `SymbolSearchRow`s and `CallSearchRow`s and go to `context_pack`.
    pub fn context_pack_queries(repository_id: &str, symbol_query: &str) -> (r: Vec<Command>)
        ensures
            script(r@) == queries(
                seq![
                    find_symbols_spec(repository_id@, symbol_query@),
                    callers_spec(repository_id@, symbol_query@),
                    callees_spec(repository_id@, symbol_query@),
                ],
            ),
    {
        let commands = vec![
            Command::Query(SqliteStore::find_symbols(repository_id, symbol_query)),
            Command::Query(SqliteStore::callers(repository_id, symbol_query)),
            Command::Query(SqliteStore::callees(repository_id, symbol_query)),
        ];
        proof {
            assert(script(commands@) =~= queries(
                seq![
                    find_symbols_spec(repository_id@, symbol_query@),
                    callers_spec(repository_id@, symbol_query@),
                    callees_spec(repository_id@, symbol_query@),
                ],
            ));
        }
        commands
    }

    /// The queries for a context pack as a ref holds it. The answers go to
    /// `context_pack_for_ref`.
    pub fn context_pack_for_ref_queries(
        repository_id: &str,
        repository_ref_id: &str,
        symbol_query: &str,
    ) -> (r: Vec<Command>)
        ensures
            script(r@) == queries(
                seq![
                    find_symbols_for_ref_spec(repository_id@, repository_ref_id@, symbol_query@),
                    callers_for_ref_spec(repository_id@, repository_ref_id@, symbol_query@),
                    callees_for_ref_spec(repository_id@, repository_ref_id@, symbol_query@),
                ],
            ),
    {
        let commands = vec![
            Command::Query(
                SqliteStore::find_symbols_for_ref(repository_id, repository_ref_id, symbol_query),
            ),
            Command::Query(
                SqliteStore::callers_for_ref(repository_id, repository_ref_id, symbol_query),
            ),
            Command::Query(
                SqliteStore::callees_for_ref(repository_id, repository_ref_id, symbol_query),
            ),
        ];
        proof {
            assert(script(commands@) =~= queries(
                seq![
                    find_symbols_for_ref_spec(repository_id@, repository_ref_id@, symbol_query@),
                    callers_for_ref_spec(repository_id@, repository_ref_id@, symbol_query@),
                    callees_for_ref_spec(repository_id@, repository_ref_id@, symbol_query@),
                ],
            ));
        }
        commands
    }
}

} // verus!
