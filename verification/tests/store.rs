//! The store on a real database: every operation runs on SQLite in memory.

use std::time::{SystemTime, UNIX_EPOCH};

use rusqlite::types::Value;
use rusqlite::{params_from_iter, Connection};
use symdex_store::call_paths::{paths_between, paths_beyond, transitive_paths_to};
use symdex_store::error::StoreError;
use symdex_store::facts::{FileReplacement, missing_paths};
use symdex_store::generations::{
    RoutingFacts, fast_manifest, fast_semantic_generation_id, point_ids,
};
use symdex_store::layers::{
    RepositoryRefKind, RepositoryRefSnapshot, SemanticLayer, SemanticLayerStatus,
};
use symdex_store::naming::vector_rowid_parts;
use symdex_store::quality::{QualityActivationFacts, QualityGenerationFacts, quality_progress};
use symdex_store::records::{
    CallPath, CallPathEdge, CallRecord, CallResolutionSummary, CallSearchRow, ChunkEmbeddingRecord,
    ChunkRecord, ChunkVectorStatus, ConfidenceBucket, ContextPack, CrossStoreHealthSummary,
    EmbeddingCoverageSummary, EmbeddingIndexMetadata, EvidenceProvenance, ExpectedVectorPoint,
    FastEmbeddingManifestRecord, FastSemanticGenerationInput, FileCoverageStatus,
    FileFreshnessSnapshot, FileIndexEventRecord, FileRecord, FileStateRecord, IndexCoverageSummary,
    IndexRunRecord, IndexRunsTimelineSummary, QualityActivationReason, QualityActivationSummary,
    QualityCarryForwardSummary, QualityEmbeddingJobRecord, QualityGenerationProgress,
    QualityJobCompletion, QualityJobSourceRow, QualityQueueSummary, RepositoryRecord,
    RepositoryRefRecord, RepositoryRefSyncSummary, RepositoryStatus, SemanticGenerationRecord,
    SemanticNeighborhoodSummary, SemanticRoutingSummary, StorageExplorerSummary,
    StorageHealthStatus, SymbolOutlineSummary, SymbolRecord, SymbolReferenceRecord,
    SymbolSearchRow, TestRecord, TestSearchRow, WatcherClientRecord, WatcherStatusRecord,
};
use symdex_store::repository::latest_file_states;
use symdex_store::rows::{CarriedRow, FileCoverageBaseRow, UnembeddedRow};
use symdex_store::schema::{UniquePath, compatibility_columns};
use symdex_store::sql::{
    Command, FromRow, Real, Row, SqlValue, Statement, collect_all_rows, collect_first_rows,
    collect_only_rows, collect_rows, first_row, positive_row, true_row,
};
use symdex_store::summaries::{
    CrossStoreFacts, EmbeddingFacts, FileDetailFacts, RepositoryFacts, StorageFacts,
};
use symdex_store::config::current_timestamp;
use symdex_store::store::SqliteStore as Statements;

type StableId = fn(&[&str]) -> String;

type Result<T> = std::result::Result<T, Error>;

/// A failure of the store, or of the database under it.
#[derive(Debug)]
enum Error {
    Store(StoreError),
    Sqlite(rusqlite::Error),
}

impl From<StoreError> for Error {
    fn from(error: StoreError) -> Self {
        Error::Store(error)
    }
}

impl From<rusqlite::Error> for Error {
    fn from(error: rusqlite::Error) -> Self {
        Error::Sqlite(error)
    }
}

/// The store on a database in memory.
struct SqliteStore {
    connection: Connection,
    stable_id: StableId,
}

impl SqliteStore {
    fn open() -> SqliteStore {
        let connection = Connection::open_in_memory().expect("a database in memory should open");
        run(&connection, &Statements::opening(true)).expect("the connection should be set up");
        SqliteStore { connection, stable_id }
    }
}

/// A hash of the parts, the same for the same parts: 32 hexadecimal digits.
fn stable_id(parts: &[&str]) -> String {
    let mut low: u64 = 0xcbf2_9ce4_8422_2325;
    let mut high: u64 = 0x6c62_272e_07bb_0142;
    for part in parts {
        for byte in part.bytes().chain([0]) {
            low = (low ^ u64::from(byte)).wrapping_mul(0x0000_0100_0000_01b3);
            high = (high ^ low).wrapping_mul(0x0000_0100_0000_01b3).rotate_left(17);
        }
    }
    format!("{low:016x}{high:016x}")
}

fn timestamp() -> String {
    let seconds = SystemTime::now().duration_since(UNIX_EPOCH).map(|elapsed| elapsed.as_secs());
    current_timestamp(seconds.ok())
}

fn number(value: f64) -> Real {
    Real { bits: value.to_bits() }
}

fn quality_embedding_job_id(repository_id: &str, generation_id: &str, chunk_id: &str) -> String {
    joined(
        &Statements::quality_embedding_job_id(repository_id, generation_id, chunk_id),
        stable_id,
    )
}

/// What the steps of an operation brought: the rows of each query, and the number of rows that
/// each statement changed.
#[derive(Debug, Default)]
struct Outcome {
    answers: Vec<Vec<Row>>,
    changed: Vec<usize>,
}

impl Outcome {
    fn answer(&mut self, index: usize) -> Vec<Row> {
        std::mem::take(&mut self.answers[index])
    }
}

fn bound(value: &SqlValue) -> Value {
    match value {
        SqlValue::Null => Value::Null,
        SqlValue::Integer(number) => Value::Integer(*number),
        SqlValue::Real(number) => Value::Real(f64::from_bits(number.bits)),
        SqlValue::Text(text) => Value::Text(text.clone()),
        SqlValue::Blob(bytes) => Value::Blob(bytes.clone()),
    }
}

fn found(value: Value) -> SqlValue {
    match value {
        Value::Null => SqlValue::Null,
        Value::Integer(number) => SqlValue::Integer(number),
        Value::Real(number) => SqlValue::Real(Real { bits: number.to_bits() }),
        Value::Text(text) => SqlValue::Text(text),
        Value::Blob(bytes) => SqlValue::Blob(bytes),
    }
}

fn query(connection: &Connection, statement: &Statement) -> Result<Vec<Row>> {
    let mut prepared = connection.prepare(&statement.sql)?;
    let columns = prepared.column_count();
    let mut cursor = prepared.query(params_from_iter(statement.params.iter().map(bound)))?;
    let mut rows = Vec::new();
    while let Some(row) = cursor.next()? {
        let mut values = Vec::with_capacity(columns);
        for index in 0..columns {
            values.push(found(row.get(index)?));
        }
        rows.push(values);
    }
    Ok(rows)
}

fn execute(connection: &Connection, statement: &Statement) -> Result<usize> {
    Ok(connection.execute(&statement.sql, params_from_iter(statement.params.iter().map(bound)))?)
}

fn run(connection: &Connection, commands: &[Command]) -> Result<Outcome> {
    let mut outcome = Outcome::default();
    for command in commands {
        match command {
            Command::Begin => connection.execute_batch("BEGIN")?,
            Command::Execute(statement) => outcome.changed.push(execute(connection, statement)?),
            Command::Query(statement) => outcome.answers.push(query(connection, statement)?),
            Command::Batch(sql) => connection.execute_batch(sql)?,
            Command::Commit => connection.execute_batch("COMMIT")?,
        }
    }
    Ok(outcome)
}

/// Runs an operation that may leave a transaction open where it fails.
fn whole<T>(
    connection: &Connection,
    operation: impl FnOnce(&Connection) -> Result<T>,
) -> Result<T> {
    let result = operation(connection);
    if result.is_err() && !connection.is_autocommit() {
        connection.execute_batch("ROLLBACK")?;
    }
    result
}

fn joined(parts: &[String], stable_id: StableId) -> String {
    let parts: Vec<&str> = parts.iter().map(String::as_str).collect();
    stable_id(&parts)
}

impl SqliteStore {
    fn id_of(&self, parts: Vec<String>) -> String {
        joined(&parts, self.stable_id)
    }

    fn rowid_digest(&self, point_id: &str) -> String {
        self.id_of(vector_rowid_parts(point_id))
    }

    fn rows<T: FromRow>(&self, statement: Statement) -> Result<Vec<T>> {
        Ok(collect_rows(&query(&self.connection, &statement)?)?)
    }

    fn row<T: FromRow>(&self, statement: Statement) -> Result<Option<T>> {
        Ok(first_row(&query(&self.connection, &statement)?)?)
    }

    fn change(&self, statement: Statement) -> Result<usize> {
        execute(&self.connection, &statement)
    }

    pub fn migrate(&self) -> Result<()> {
        run(&self.connection, &Statements::migrate())?;
        for column in compatibility_columns() {
            let rows = query(&self.connection, &Statements::column_exists(column.table)?)?;
            if let Some(addition) = Statements::ensure_column(&column, &rows)? {
                self.change(addition)?;
            }
        }
        let indexes = query(&self.connection, &Statements::file_indexes())?;
        let mut columns = Vec::new();
        let unique_path = loop {
            match Statements::files_has_unique_repository_path_constraint(&indexes, &columns)? {
                UniquePath::Known(unique) => break unique,
                UniquePath::Ask(question) => columns.push(query(&self.connection, &question)?),
            }
        };
        run(&self.connection, &Statements::ensure_content_addressed_files(unique_path))?;
        Ok(())
    }

    fn column_exists(&self, table: &str, column: &str) -> Result<bool> {
        let rows = query(&self.connection, &Statements::column_exists(table)?)?;
        Ok(Statements::has_column(&rows, column)?)
    }

    pub fn upsert_repository(&self, repository: &RepositoryRecord) -> Result<()> {
        self.change(Statements::upsert_repository(repository, &timestamp()))?;
        Ok(())
    }

    pub fn sync_repository_ref(
        &self,
        snapshot: &RepositoryRefSnapshot,
    ) -> Result<RepositoryRefSyncSummary> {
        let now = timestamp();
        let branch_ids: Vec<String> = snapshot
            .local_branches
            .iter()
            .map(|branch| {
                self.id_of(RepositoryRefRecord::local_branch_id_parts(
                    &snapshot.repository_id,
                    branch,
                ))
            })
            .collect();
        whole(&self.connection, |connection| {
            let steps = Statements::sync_repository_ref(snapshot, &branch_ids, &now);
            let mut known = run(connection, &steps)?;
            let rows = known.answers.pop().unwrap_or_default();
            let steps = Statements::finish_repository_ref_sync(snapshot, &rows, &now)?;
            let deleted: usize = run(connection, &steps)?.changed.iter().sum();
            Ok(Statements::repository_ref_sync_summary(snapshot, deleted, &now))
        })
    }

    pub fn current_repository_ref(
        &self,
        repository_id: &str,
    ) -> Result<Option<RepositoryRefRecord>> {
        self.row(Statements::current_repository_ref(repository_id))
    }

    pub fn latest_file_state_for_path(
        &self,
        repository_id: &str,
        path: &str,
    ) -> Result<Option<FileStateRecord>> {
        self.row(Statements::latest_file_state_for_path(repository_id, path))
    }

    pub fn file_unchanged(
        &self,
        repository_id: &str,
        file_id: &str,
        path: &str,
        content_hash: &str,
        parser_version: &str,
    ) -> Result<bool> {
        let statement = Statements::file_unchanged(
            repository_id,
            file_id,
            path,
            content_hash,
            parser_version,
        );
        Ok(true_row(&query(&self.connection, &statement)?)?)
    }

    pub fn file_index_states(&self, repository_id: &str) -> Result<Vec<FileStateRecord>> {
        let states = self.rows(Statements::file_index_states(repository_id))?;
        Ok(latest_file_states(states))
    }

    pub fn ref_file_index_states(&self, repository_ref_id: &str) -> Result<Vec<FileStateRecord>> {
        self.rows(Statements::ref_file_index_states(repository_ref_id))
    }

    pub fn record_file_index_events(&mut self, events: &[FileIndexEventRecord]) -> Result<()> {
        whole(&self.connection, |connection| {
            let steps = Statements::record_file_index_events(&events.to_vec(), &timestamp());
            run(connection, &steps)?;
            Ok(())
        })
    }

    pub fn link_file_to_ref(&mut self, repository_ref_id: &str, file: &FileRecord) -> Result<()> {
        self.change(Statements::link_file_to_ref(repository_ref_id, file, &timestamp()))?;
        Ok(())
    }

    pub fn replace_file_facts(
        &mut self,
        file: &FileRecord,
        symbols: &[SymbolRecord],
        chunks: &[ChunkRecord],
        calls: &[CallRecord],
    ) -> Result<()> {
        self.replace_file_facts_inner(&Statements::replace_file_facts(
            file,
            &symbols.to_vec(),
            &chunks.to_vec(),
            &calls.to_vec(),
        ))
    }

    pub fn replace_file_facts_with_tests(
        &mut self,
        file: &FileRecord,
        symbols: &[SymbolRecord],
        chunks: &[ChunkRecord],
        calls: &[CallRecord],
        tests: &[TestRecord],
    ) -> Result<()> {
        self.replace_file_facts_inner(&Statements::replace_file_facts_with_tests(
            file,
            &symbols.to_vec(),
            &chunks.to_vec(),
            &calls.to_vec(),
            &tests.to_vec(),
        ))
    }

    pub fn replace_file_facts_with_references_and_tests(
        &mut self,
        file: &FileRecord,
        symbols: &[SymbolRecord],
        chunks: &[ChunkRecord],
        calls: &[CallRecord],
        symbol_references: &[SymbolReferenceRecord],
        tests: &[TestRecord],
    ) -> Result<()> {
        self.replace_file_facts_inner(&Statements::replace_file_facts_with_references_and_tests(
            file,
            &symbols.to_vec(),
            &chunks.to_vec(),
            &calls.to_vec(),
            &symbol_references.to_vec(),
            &tests.to_vec(),
        ))
    }

    pub fn replace_file_facts_for_ref_with_tests(
        &mut self,
        repository_ref_id: &str,
        file: &FileRecord,
        symbols: &[SymbolRecord],
        chunks: &[ChunkRecord],
        calls: &[CallRecord],
        tests: &[TestRecord],
    ) -> Result<()> {
        self.replace_file_facts_inner(&Statements::replace_file_facts_for_ref_with_tests(
            repository_ref_id,
            file,
            &symbols.to_vec(),
            &chunks.to_vec(),
            &calls.to_vec(),
            &tests.to_vec(),
        ))
    }

    pub fn replace_file_facts_for_ref_with_references_and_tests(
        &mut self,
        repository_ref_id: &str,
        file: &FileRecord,
        symbols: &[SymbolRecord],
        chunks: &[ChunkRecord],
        calls: &[CallRecord],
        symbol_references: &[SymbolReferenceRecord],
        tests: &[TestRecord],
    ) -> Result<()> {
        self.replace_file_facts_inner(
            &Statements::replace_file_facts_for_ref_with_references_and_tests(
                repository_ref_id,
                file,
                &symbols.to_vec(),
                &chunks.to_vec(),
                &calls.to_vec(),
                &symbol_references.to_vec(),
                &tests.to_vec(),
            ),
        )
    }

    fn replace_file_facts_inner(&mut self, replacement: &FileReplacement<'_>) -> Result<()> {
        whole(&self.connection, |connection| {
            let mut outcome = run(connection, &replacement.start(&timestamp()))?;
            let others: Vec<String> = collect_rows(&outcome.answer(0))?;
            let outcome = run(connection, &replacement.count_refs(&others))?;
            let ref_counts: Vec<i64> = collect_only_rows(&outcome.answers)?;
            run(connection, &replacement.finish(&others, &ref_counts, &timestamp()))?;
            Ok(())
        })
    }

    pub fn ref_file_paths(&self, repository_ref_id: &str) -> Result<Vec<String>> {
        self.rows(Statements::ref_file_paths(repository_ref_id))
    }

    fn file_paths(&self, repository_id: &str) -> Result<Vec<String>> {
        self.rows(Statements::file_paths(repository_id))
    }

    pub fn remove_missing_ref_files(
        &mut self,
        repository_ref_id: &str,
        active_paths: &[String],
    ) -> Result<usize> {
        let existing = self.ref_file_paths(repository_ref_id)?;
        let missing = missing_paths(&existing, &active_paths.to_vec());
        let (steps, removed) = Statements::remove_missing_ref_files(repository_ref_id, &missing);
        whole(&self.connection, |connection| {
            run(connection, &steps)?;
            Ok(removed)
        })
    }

    /// The files at the missing paths of a repository, found in a transaction that stays open.
    fn files_at_missing_paths(
        connection: &Connection,
        repository_id: &str,
        missing: &Vec<String>,
    ) -> Result<Vec<String>> {
        let outcome = run(connection, &Statements::files_at_missing_paths(repository_id, missing))?;
        Ok(collect_all_rows(&outcome.answers)?)
    }

    pub fn remove_unreferenced_missing_files(
        &mut self,
        repository_id: &str,
        active_paths: &[String],
    ) -> Result<usize> {
        let missing = missing_paths(&self.file_paths(repository_id)?, &active_paths.to_vec());
        whole(&self.connection, |connection| {
            let file_ids = Self::files_at_missing_paths(connection, repository_id, &missing)?;
            let counts = reference_counts(connection, &file_ids)?;
            let (steps, removed) =
                Statements::remove_unreferenced_missing_files(&missing, &file_ids, &counts);
            run(connection, &steps)?;
            Ok(removed)
        })
    }

    pub fn remove_missing_files(
        &mut self,
        repository_id: &str,
        active_paths: &[String],
    ) -> Result<usize> {
        let missing = missing_paths(&self.file_paths(repository_id)?, &active_paths.to_vec());
        whole(&self.connection, |connection| {
            let file_ids = Self::files_at_missing_paths(connection, repository_id, &missing)?;
            let (steps, removed) = Statements::remove_missing_files(&missing, &file_ids);
            run(connection, &steps)?;
            Ok(removed)
        })
    }

    fn point_ids_of(&self, statements: &[Statement]) -> Result<Vec<String>> {
        let mut rows = Vec::new();
        for statement in statements {
            rows.append(&mut query(&self.connection, statement)?);
        }
        Ok(point_ids(&rows)?)
    }

    pub fn vector_point_ids_for_latest_generation_layer_paths(
        &self,
        repository_id: &str,
        semantic_layer: SemanticLayer,
        paths: &[String],
    ) -> Result<Vec<String>> {
        let generation = self.latest_semantic_generation(repository_id)?;
        self.point_ids_of(&Statements::vector_point_ids_for_latest_generation_layer_paths(
            repository_id,
            &generation,
            semantic_layer,
            &paths.to_vec(),
        ))
    }

    pub fn vector_point_ids_for_latest_generation_layer_missing_files(
        &self,
        repository_id: &str,
        semantic_layer: SemanticLayer,
        active_paths: &[String],
    ) -> Result<Vec<String>> {
        let existing = self.file_paths(repository_id)?;
        let generation = self.latest_semantic_generation(repository_id)?;
        self.point_ids_of(
            &Statements::vector_point_ids_for_latest_generation_layer_missing_files(
                repository_id,
                &generation,
                semantic_layer,
                &existing,
                &active_paths.to_vec(),
            ),
        )
    }

    pub fn vector_point_ids_referenced_by_ref_files(
        &self,
        repository_id: &str,
        vector_table: &str,
    ) -> Result<Vec<String>> {
        self.point_ids_of(&[Statements::vector_point_ids_referenced_by_ref_files(
            repository_id,
            vector_table,
        )])
    }

    pub fn expected_vector_points_for_generation_layer(
        &self,
        repository_id: &str,
        generation_id: &str,
        semantic_layer: SemanticLayer,
    ) -> Result<Vec<ExpectedVectorPoint>> {
        self.rows(Statements::expected_vector_points_for_generation_layer(
            repository_id,
            generation_id,
            semantic_layer,
        ))
    }

    pub fn repository_status(&self, repository_id: &str) -> Result<RepositoryStatus> {
        let outcome = run(&self.connection, &Statements::repository_status(repository_id))?;
        let facts = RepositoryFacts::from_answers(outcome.answers);
        Ok(Statements::repository_status_of(repository_id, &facts)?)
    }

    pub fn watcher_status(&self, repository_id: &str) -> Result<Option<WatcherStatusRecord>> {
        self.row(Statements::watcher_status(repository_id))
    }

    pub fn upsert_watcher_status(&self, status: &WatcherStatusRecord) -> Result<()> {
        self.change(Statements::upsert_watcher_status(status, &timestamp()))?;
        Ok(())
    }

    pub fn mark_watcher_stopped(&self, repository_id: &str) -> Result<()> {
        self.change(Statements::mark_watcher_stopped(repository_id, &timestamp()))?;
        Ok(())
    }

    pub fn mark_watcher_failed(&self, repository_id: &str, error: &str) -> Result<()> {
        self.change(Statements::mark_watcher_failed(repository_id, error, &timestamp()))?;
        Ok(())
    }

    pub fn upsert_watcher_client(&self, client: &WatcherClientRecord) -> Result<()> {
        self.change(Statements::upsert_watcher_client(client, &timestamp()))?;
        Ok(())
    }

    pub fn heartbeat_watcher_client(&self, repository_id: &str, client_id: &str) -> Result<usize> {
        self.change(Statements::heartbeat_watcher_client(repository_id, client_id, &timestamp()))
    }

    pub fn remove_watcher_client(&self, repository_id: &str, client_id: &str) -> Result<()> {
        self.change(Statements::remove_watcher_client(repository_id, client_id))?;
        Ok(())
    }

    pub fn watcher_clients(&self, repository_id: &str) -> Result<Vec<WatcherClientRecord>> {
        self.rows(Statements::watcher_clients(repository_id))
    }

    pub fn prune_stale_watcher_clients(
        &self,
        repository_id: &str,
        stale_before_timestamp: &str,
    ) -> Result<usize> {
        self.change(Statements::prune_stale_watcher_clients(repository_id, stale_before_timestamp))
    }

    fn latest_embedding_run(&self, repository_id: &str) -> Result<Option<EmbeddingIndexMetadata>> {
        self.row(Statements::latest_embedding_run(repository_id))
    }

    pub fn ensure_embedding_compatible(
        &self,
        repository_id: &str,
        embedding_model: &str,
        embedding_dimension: usize,
    ) -> Result<()> {
        let previous = self.row(Statements::latest_embedding_run_for_model(
            repository_id,
            embedding_model,
        ))?;
        Ok(Statements::ensure_embedding_compatible(
            repository_id,
            embedding_model,
            embedding_dimension,
            &previous,
        )?)
    }

    pub fn start_index_run(&self, run: &IndexRunRecord) -> Result<()> {
        self.change(Statements::start_index_run(run, &timestamp()))?;
        Ok(())
    }

    pub fn finish_index_run(&self, run: &IndexRunRecord) -> Result<()> {
        self.change(Statements::finish_index_run(run, &timestamp()))?;
        Ok(())
    }

    pub fn record_index_run(&self, run: &IndexRunRecord) -> Result<()> {
        self.change(Statements::record_index_run(run, &timestamp()))?;
        Ok(())
    }

    pub fn record_fast_semantic_generation(
        &mut self,
        input: FastSemanticGenerationInput<'_>,
    ) -> Result<SemanticGenerationRecord> {
        whole(&self.connection, |connection| {
            let mut known = run(connection, &Statements::record_fast_semantic_generation(&input))?;
            let manifest = fast_manifest(&known.answer(0), input.upserted_embeddings)?;
            let generation_id = self.id_of(fast_semantic_generation_id(
                input.repository_id,
                input.fast_model,
                input.fast_dimension,
                &manifest,
            ));
            let ids: Vec<String> = manifest
                .iter()
                .map(|entry| {
                    self.id_of(Statements::chunk_embedding_id(
                        input.repository_id,
                        &generation_id,
                        &entry.chunk_id,
                        SemanticLayer::Fast.as_str(),
                        input.fast_model,
                        input.fast_dimension,
                    ))
                })
                .collect();
            let digests: Vec<String> = manifest
                .iter()
                .map(|entry| self.rowid_digest(&entry.vector_point_id))
                .collect();
            let steps = Statements::store_fast_generation(
                &input,
                &generation_id,
                &manifest,
                &ids,
                &digests,
            )?;
            let mut stored = run(connection, &steps)?;
            Ok(Statements::recorded_generation(&generation_id, &stored.answer(0))?)
        })
    }

    pub fn upsert_semantic_generation(&self, generation: &SemanticGenerationRecord) -> Result<()> {
        self.change(Statements::upsert_semantic_generation(generation))?;
        Ok(())
    }

    pub fn latest_semantic_generation(
        &self,
        repository_id: &str,
    ) -> Result<Option<SemanticGenerationRecord>> {
        self.row(Statements::latest_semantic_generation(repository_id))
    }

    pub fn link_semantic_generation_to_ref(
        &mut self,
        repository_id: &str,
        repository_ref_id: &str,
        generation_id: &str,
        linked_at: &str,
    ) -> Result<()> {
        self.change(Statements::link_semantic_generation_to_ref(
            repository_id,
            repository_ref_id,
            generation_id,
            linked_at,
        ))?;
        Ok(())
    }

    pub fn latest_semantic_generation_for_ref(
        &self,
        repository_id: &str,
        repository_ref_id: &str,
    ) -> Result<Option<SemanticGenerationRecord>> {
        self.row(Statements::latest_semantic_generation_for_ref(repository_id, repository_ref_id))
    }

    pub fn semantic_routing_summary_for_ref(
        &self,
        repository_id: &str,
        repository_ref_id: &str,
    ) -> Result<Option<SemanticRoutingSummary>> {
        let generation = self.row(Statements::semantic_routing_summary_for_ref(
            repository_id,
            repository_ref_id,
        ))?;
        self.routing_summary(generation)
    }

    pub fn semantic_routing_summary(
        &self,
        repository_id: &str,
    ) -> Result<Option<SemanticRoutingSummary>> {
        let generation = self.row(Statements::semantic_routing_summary(repository_id))?;
        self.routing_summary(generation)
    }

    fn routing_summary(
        &self,
        generation: Option<SemanticGenerationRecord>,
    ) -> Result<Option<SemanticRoutingSummary>> {
        let Some(generation) = generation else {
            return Ok(None);
        };
        let steps = Statements::semantic_routing_queries(&generation);
        let facts = RoutingFacts::from_answers(run(&self.connection, &steps)?.answers);
        Ok(Some(Statements::semantic_routing_summary_for_generation(&generation, &facts)?))
    }

    pub fn upsert_chunk_embedding(&self, embedding: &ChunkEmbeddingRecord) -> Result<()> {
        let digest = self.rowid_digest(&embedding.vector_point_id);
        self.change(Statements::upsert_chunk_embedding(embedding, &digest)?)?;
        Ok(())
    }

    pub fn chunk_embeddings_for_generation(
        &self,
        repository_id: &str,
        generation_id: &str,
        semantic_layer: &str,
    ) -> Result<Vec<ChunkEmbeddingRecord>> {
        self.rows(Statements::chunk_embeddings_for_generation(
            repository_id,
            generation_id,
            semantic_layer,
        ))
    }

    pub fn upsert_quality_embedding_job(&self, job: &QualityEmbeddingJobRecord) -> Result<()> {
        self.change(Statements::upsert_quality_embedding_job(job))?;
        Ok(())
    }

    pub fn mark_superseded_quality_jobs_stale(
        &self,
        repository_id: &str,
        current_generation_id: &str,
        updated_at: &str,
    ) -> Result<usize> {
        self.change(Statements::mark_superseded_quality_jobs_stale(
            repository_id,
            current_generation_id,
            updated_at,
        ))
    }

    pub fn queue_quality_embedding_jobs(
        &mut self,
        generation: &SemanticGenerationRecord,
        quality_model: &str,
        jobs: &[QualityEmbeddingJobRecord],
        queued_at: &str,
    ) -> Result<QualityQueueSummary> {
        let jobs = jobs.to_vec();
        let steps = Statements::queue_quality_embedding_jobs(
            generation,
            quality_model,
            &jobs,
            queued_at,
        )?;
        whole(&self.connection, |connection| {
            let outcome = run(connection, &steps)?;
            Ok(Statements::queued_jobs_summary(
                generation,
                quality_model,
                &jobs,
                outcome.changed[0],
            ))
        })
    }

    pub fn carry_forward_quality_embeddings_for_fast_generation(
        &mut self,
        repository_id: &str,
        generation_id: &str,
        quality_model: &str,
    ) -> Result<QualityCarryForwardSummary> {
        whole(&self.connection, |connection| {
            let steps = Statements::carry_forward_quality_embeddings_for_fast_generation(
                repository_id,
                generation_id,
                quality_model,
            );
            let rows: Vec<CarriedRow> = collect_rows(&run(connection, &steps)?.answer(0))?;
            let ids: Vec<String> = rows
                .iter()
                .map(|row| {
                    self.id_of(Statements::chunk_embedding_id(
                        repository_id,
                        generation_id,
                        &row.chunk_id,
                        SemanticLayer::Quality.as_str(),
                        quality_model,
                        row.embedding_dimension,
                    ))
                })
                .collect();
            let digests: Vec<String> =
                rows.iter().map(|row| self.rowid_digest(&row.vector_point_id)).collect();
            let (steps, summary) = Statements::carry_embeddings(
                repository_id,
                generation_id,
                quality_model,
                &rows,
                &ids,
                &digests,
            )?;
            run(connection, &steps)?;
            Ok(summary)
        })
    }

    pub fn quality_embedding_jobs_for_fast_generation(
        &self,
        repository_id: &str,
        generation_id: &str,
        quality_model: &str,
        queued_at: &str,
    ) -> Result<Vec<QualityEmbeddingJobRecord>> {
        let rows: Vec<UnembeddedRow> = self.rows(
            Statements::quality_embedding_jobs_for_fast_generation(
                repository_id,
                generation_id,
                quality_model,
            ),
        )?;
        let ids: Vec<String> = rows
            .iter()
            .map(|row| {
                self.id_of(Statements::quality_embedding_job_id(
                    repository_id,
                    generation_id,
                    &row.chunk_id,
                ))
            })
            .collect();
        Ok(Statements::new_quality_jobs(repository_id, generation_id, &rows, &ids, queued_at))
    }

    pub fn mark_quality_generation_blocked(
        &mut self,
        generation: &SemanticGenerationRecord,
        quality_model: &str,
        blocked_at: &str,
    ) -> Result<QualityQueueSummary> {
        let steps =
            Statements::mark_quality_generation_blocked(generation, quality_model, blocked_at);
        whole(&self.connection, |connection| {
            let outcome = run(connection, &steps)?;
            Ok(Statements::blocked_generation_summary(
                generation,
                quality_model,
                outcome.changed[0],
            ))
        })
    }

    pub fn quality_jobs_by_status(
        &self,
        repository_id: &str,
        generation_id: &str,
        status: &str,
    ) -> Result<Vec<QualityEmbeddingJobRecord>> {
        self.rows(Statements::quality_jobs_by_status(repository_id, generation_id, status))
    }

    pub fn claim_quality_embedding_jobs(
        &mut self,
        repository_id: &str,
        generation_id: &str,
        limit: usize,
        claimed_at: &str,
    ) -> Result<Vec<QualityEmbeddingJobRecord>> {
        let steps = Statements::claim_quality_embedding_jobs(repository_id, generation_id, limit)?;
        whole(&self.connection, |connection| {
            let ids: Vec<String> = collect_rows(&run(connection, &steps)?.answer(0))?;
            let claimed = run(connection, &Statements::claim_jobs(&ids, claimed_at))?;
            let (jobs, steps) = Statements::claimed_jobs(&claimed.answers)?;
            run(connection, &steps)?;
            Ok(jobs)
        })
    }

    pub fn requeue_current_terminal_quality_embedding_jobs(
        &self,
        repository_id: &str,
        generation_id: &str,
        requeued_at: &str,
    ) -> Result<usize> {
        self.change(Statements::requeue_current_terminal_quality_embedding_jobs(
            repository_id,
            generation_id,
            requeued_at,
        ))
    }

    pub fn quality_job_source_rows(&self, job_ids: &[String]) -> Result<Vec<QualityJobSourceRow>> {
        let mut answers = Vec::new();
        for statement in Statements::quality_job_source_rows(&job_ids.to_vec()) {
            answers.push(query(&self.connection, &statement)?);
        }
        Ok(collect_first_rows(&answers)?)
    }

    pub fn complete_quality_embedding_job(
        &mut self,
        job_id: &str,
        completion: QualityJobCompletion,
        completed_at: &str,
    ) -> Result<()> {
        let digest = match &completion {
            QualityJobCompletion::Succeeded { embedding } => {
                self.rowid_digest(&embedding.vector_point_id)
            }
            _ => String::new(),
        };
        let steps = Statements::complete_quality_embedding_job(
            job_id,
            &completion,
            completed_at,
            &digest,
        )?;
        whole(&self.connection, |connection| {
            run(connection, &steps)?;
            Ok(())
        })
    }

    pub fn quality_generation_progress(
        &self,
        repository_id: &str,
        generation_id: &str,
    ) -> Result<QualityGenerationProgress> {
        let steps = Statements::quality_generation_progress(repository_id, generation_id);
        let outcome = run(&self.connection, &steps)?;
        let facts = QualityGenerationFacts::from_answers(outcome.answers);
        Ok(quality_progress(repository_id, generation_id, &facts)?)
    }

    pub fn latest_quality_generation_error(
        &self,
        repository_id: &str,
        generation_id: &str,
    ) -> Result<Option<String>> {
        self.row(Statements::latest_quality_generation_error(repository_id, generation_id))
    }

    pub fn refresh_quality_generation_progress(
        &mut self,
        repository_id: &str,
        generation_id: &str,
        quality_dimension: Option<usize>,
        updated_at: &str,
    ) -> Result<QualityGenerationProgress> {
        whole(&self.connection, |connection| {
            let steps =
                Statements::refresh_quality_generation_progress(repository_id, generation_id);
            let known = run(connection, &steps)?;
            let steps = Statements::store_quality_progress(
                repository_id,
                generation_id,
                quality_dimension,
                updated_at,
                &known.answers[0],
                &known.answers[1],
                &known.answers[2],
            )?;
            let outcome = run(connection, &steps)?;
            let facts = QualityGenerationFacts::from_answers(outcome.answers);
            Ok(quality_progress(repository_id, generation_id, &facts)?)
        })
    }

    pub fn refresh_quality_activation(
        &mut self,
        repository_id: &str,
        generation_id: &str,
        quality_dimension: Option<usize>,
        updated_at: &str,
    ) -> Result<QualityActivationSummary> {
        whole(&self.connection, |connection| {
            let steps = Statements::refresh_quality_activation(repository_id, generation_id);
            let outcome = run(connection, &steps)?;
            let facts = QualityActivationFacts::from_answers(outcome.answers);
            let (summary, steps) = Statements::decide_quality_activation(
                repository_id,
                generation_id,
                quality_dimension,
                updated_at,
                &facts,
            )?;
            run(connection, &steps)?;
            Ok(summary)
        })
    }

    pub fn find_symbols(&self, repository_id: &str, query: &str) -> Result<Vec<SymbolSearchRow>> {
        self.rows(Statements::find_symbols(repository_id, query))
    }

    pub fn find_symbols_for_ref(
        &self,
        repository_id: &str,
        repository_ref_id: &str,
        query: &str,
    ) -> Result<Vec<SymbolSearchRow>> {
        self.rows(Statements::find_symbols_for_ref(repository_id, repository_ref_id, query))
    }

    pub fn repository_has_ref_file_manifests(&self, repository_id: &str) -> Result<bool> {
        let statement = Statements::repository_has_ref_file_manifests(repository_id);
        Ok(positive_row(&query(&self.connection, &statement)?)?)
    }

    pub fn file_provenance(
        &self,
        repository_id: &str,
        path: &str,
    ) -> Result<Option<EvidenceProvenance>> {
        self.row(Statements::file_provenance(repository_id, path))
    }

    pub fn symbols_at_location(
        &self,
        repository_id: &str,
        path: &str,
        line: usize,
    ) -> Result<Vec<SymbolSearchRow>> {
        self.rows(Statements::symbols_at_location(repository_id, path, line))
    }

    pub fn calls_at_location(
        &self,
        repository_id: &str,
        path: &str,
        line: usize,
    ) -> Result<Vec<CallPathEdge>> {
        self.rows(Statements::calls_at_location(repository_id, path, line))
    }

    pub fn callers(&self, repository_id: &str, symbol_query: &str) -> Result<Vec<CallSearchRow>> {
        self.rows(Statements::callers(repository_id, symbol_query))
    }

    pub fn callers_for_ref(
        &self,
        repository_id: &str,
        repository_ref_id: &str,
        symbol_query: &str,
    ) -> Result<Vec<CallSearchRow>> {
        self.rows(Statements::callers_for_ref(repository_id, repository_ref_id, symbol_query))
    }

    pub fn tests_matching_name(
        &self,
        repository_id: &str,
        test_name: &str,
    ) -> Result<Vec<TestSearchRow>> {
        self.rows(Statements::tests_matching_name(repository_id, test_name))
    }

    pub fn likely_tests_for_symbol(
        &self,
        repository_id: &str,
        symbol_query: &str,
    ) -> Result<Vec<TestSearchRow>> {
        self.rows(Statements::likely_tests_for_symbol(repository_id, symbol_query))
    }

    pub fn callees(&self, repository_id: &str, symbol_query: &str) -> Result<Vec<CallSearchRow>> {
        self.rows(Statements::callees(repository_id, symbol_query))
    }

    pub fn callees_for_ref(
        &self,
        repository_id: &str,
        repository_ref_id: &str,
        symbol_query: &str,
    ) -> Result<Vec<CallSearchRow>> {
        self.rows(Statements::callees_for_ref(repository_id, repository_ref_id, symbol_query))
    }

    pub fn call_paths(
        &self,
        repository_id: &str,
        source_query: &str,
        target_query: &str,
        max_depth: usize,
    ) -> Result<Vec<CallPath>> {
        let steps = Statements::call_paths(repository_id, source_query, target_query);
        self.paths_between(&steps, target_query, max_depth)
    }

    pub fn call_paths_for_ref(
        &self,
        repository_id: &str,
        repository_ref_id: &str,
        source_query: &str,
        target_query: &str,
        max_depth: usize,
    ) -> Result<Vec<CallPath>> {
        let steps = Statements::call_paths_for_ref(
            repository_id,
            repository_ref_id,
            source_query,
            target_query,
        );
        self.paths_between(&steps, target_query, max_depth)
    }

    fn paths_between(
        &self,
        steps: &[Command],
        target_query: &str,
        max_depth: usize,
    ) -> Result<Vec<CallPath>> {
        let outcome = run(&self.connection, steps)?;
        let sources = collect_rows(&outcome.answers[0])?;
        let targets = collect_rows(&outcome.answers[1])?;
        let edges = collect_rows(&outcome.answers[2])?;
        Ok(paths_between(&sources, &targets, edges, target_query, max_depth))
    }

    pub fn transitive_call_paths_to(
        &self,
        repository_id: &str,
        target_query: &str,
        max_depth: usize,
    ) -> Result<Vec<CallPath>> {
        let steps = Statements::transitive_call_paths_to(repository_id, target_query);
        self.transitive_paths_to(&steps, target_query, max_depth)
    }

    pub fn transitive_call_paths_to_for_ref(
        &self,
        repository_id: &str,
        repository_ref_id: &str,
        target_query: &str,
        max_depth: usize,
    ) -> Result<Vec<CallPath>> {
        let steps = Statements::transitive_call_paths_to_for_ref(
            repository_id,
            repository_ref_id,
            target_query,
        );
        self.transitive_paths_to(&steps, target_query, max_depth)
    }

    fn transitive_paths_to(
        &self,
        steps: &[Command],
        target_query: &str,
        max_depth: usize,
    ) -> Result<Vec<CallPath>> {
        let outcome = run(&self.connection, steps)?;
        let targets = collect_rows(&outcome.answers[0])?;
        let sources = collect_rows(&outcome.answers[1])?;
        let edges = collect_rows(&outcome.answers[2])?;
        Ok(transitive_paths_to(&sources, &targets, edges, target_query, max_depth))
    }

    pub fn transitive_call_paths_from(
        &self,
        repository_id: &str,
        source_query: &str,
        max_depth: usize,
    ) -> Result<Vec<CallPath>> {
        let steps = Statements::transitive_call_paths_from(repository_id, source_query);
        self.paths_beyond(&steps, max_depth)
    }

    pub fn transitive_call_paths_from_for_ref(
        &self,
        repository_id: &str,
        repository_ref_id: &str,
        source_query: &str,
        max_depth: usize,
    ) -> Result<Vec<CallPath>> {
        let steps = Statements::transitive_call_paths_from_for_ref(
            repository_id,
            repository_ref_id,
            source_query,
        );
        self.paths_beyond(&steps, max_depth)
    }

    fn paths_beyond(&self, steps: &[Command], max_depth: usize) -> Result<Vec<CallPath>> {
        let outcome = run(&self.connection, steps)?;
        let sources = collect_rows(&outcome.answers[0])?;
        let edges = collect_rows(&outcome.answers[1])?;
        Ok(paths_beyond(&sources, edges, max_depth))
    }

    pub fn context_pack(
        &self,
        repository_id: &str,
        symbol_query: &str,
        limit: usize,
    ) -> Result<ContextPack> {
        let steps = Statements::context_pack_queries(repository_id, symbol_query);
        let outcome = run(&self.connection, &steps)?;
        Ok(Statements::context_pack(
            repository_id,
            symbol_query,
            limit,
            collect_rows(&outcome.answers[0])?,
            collect_rows(&outcome.answers[1])?,
            collect_rows(&outcome.answers[2])?,
        ))
    }

    pub fn context_pack_for_ref(
        &self,
        repository_id: &str,
        repository_ref_id: &str,
        symbol_query: &str,
        limit: usize,
    ) -> Result<ContextPack> {
        let steps = Statements::context_pack_for_ref_queries(
            repository_id,
            repository_ref_id,
            symbol_query,
        );
        let outcome = run(&self.connection, &steps)?;
        Ok(Statements::context_pack_for_ref(
            repository_id,
            symbol_query,
            limit,
            collect_rows(&outcome.answers[0])?,
            collect_rows(&outcome.answers[1])?,
            collect_rows(&outcome.answers[2])?,
        ))
    }

    pub fn storage_explorer_summary(
        &self,
        repository_id: &str,
        embedding_model: &str,
    ) -> Result<StorageExplorerSummary> {
        let generation = self.latest_semantic_generation(repository_id)?;
        let steps = Statements::storage_explorer_queries(repository_id, &generation);
        let facts = StorageFacts::from_answers(run(&self.connection, &steps)?.answers);
        Ok(Statements::storage_explorer_summary(repository_id, embedding_model, &facts)?)
    }

    pub fn index_coverage_summary(&self, repository_id: &str) -> Result<IndexCoverageSummary> {
        let generation = self.latest_semantic_generation(repository_id)?;
        let bases: Vec<FileCoverageBaseRow> =
            self.rows(Statements::index_coverage_query(repository_id, &generation))?;
        let steps = Statements::file_detail_queries(&bases, &generation);
        let details = FileDetailFacts::from_answers(run(&self.connection, &steps)?.answers);
        Ok(Statements::index_coverage_summary(repository_id, &bases, &details)?)
    }

    pub fn symbol_outline_summary(&self, repository_id: &str) -> Result<SymbolOutlineSummary> {
        let rows = query(&self.connection, &Statements::symbol_outline(repository_id))?;
        Ok(Statements::symbol_outline_summary(repository_id, &rows)?)
    }

    pub fn call_resolution_summary(&self, repository_id: &str) -> Result<CallResolutionSummary> {
        let rows = query(&self.connection, &Statements::call_resolution(repository_id))?;
        Ok(Statements::call_resolution_summary(repository_id, &rows)?)
    }

    pub fn embedding_coverage_summary(
        &self,
        repository_id: &str,
        configured_embedding_model: &str,
    ) -> Result<EmbeddingCoverageSummary> {
        let generation = self.latest_semantic_generation(repository_id)?;
        let steps = Statements::embedding_coverage_queries(repository_id, &generation);
        let facts = EmbeddingFacts::from_answers(run(&self.connection, &steps)?.answers);
        Ok(Statements::embedding_coverage_summary(
            repository_id,
            configured_embedding_model,
            &facts,
        )?)
    }

    pub fn index_runs_timeline_summary(
        &self,
        repository_id: &str,
    ) -> Result<IndexRunsTimelineSummary> {
        let rows = query(&self.connection, &Statements::index_runs_timeline(repository_id))?;
        Ok(Statements::index_runs_timeline_summary(repository_id, &rows)?)
    }

    pub fn semantic_neighborhood_summary(
        &self,
        repository_id: &str,
        configured_embedding_model: &str,
    ) -> Result<SemanticNeighborhoodSummary> {
        let generation = self.latest_semantic_generation(repository_id)?;
        let latest = self.latest_embedding_run(repository_id)?;
        let rows = match Statements::semantic_neighborhood_query(repository_id, &generation) {
            Some(statement) => query(&self.connection, &statement)?,
            None => Vec::new(),
        };
        Ok(Statements::semantic_neighborhood_summary(
            repository_id,
            configured_embedding_model,
            &generation,
            &latest,
            &rows,
        )?)
    }

    pub fn cross_store_health_summary(
        &self,
        repository_id: &str,
        configured_embedding_model: &str,
    ) -> Result<CrossStoreHealthSummary> {
        let generation = self.latest_semantic_generation(repository_id)?;
        let steps = Statements::cross_store_queries(repository_id, &generation);
        let mut answers = run(&self.connection, &steps)?.answers;
        let dimensions = Statements::cross_store_dimensions(
            repository_id,
            configured_embedding_model,
            &answers[1],
        )?;
        answers.push(query(&self.connection, &dimensions)?);
        Ok(Statements::cross_store_health_summary(
            repository_id,
            configured_embedding_model,
            &CrossStoreFacts::from_answers(answers),
        )?)
    }

    pub fn indexed_file_freshness_snapshots(
        &self,
        repository_id: &str,
    ) -> Result<Vec<FileFreshnessSnapshot>> {
        self.rows(Statements::indexed_file_freshness_snapshots(repository_id))
    }

    pub fn indexed_file_freshness_snapshots_for_ref(
        &self,
        repository_id: &str,
        repository_ref_id: &str,
    ) -> Result<Vec<FileFreshnessSnapshot>> {
        self.rows(Statements::indexed_file_freshness_snapshots_for_ref(
            repository_id,
            repository_ref_id,
        ))
    }

    pub fn rust_symbols_for_repository(&self, repository_id: &str) -> Result<Vec<SymbolRecord>> {
        self.rows(Statements::rust_symbols_for_repository(repository_id))
    }
}

/// The number of refs that hold each file.
fn reference_counts(connection: &Connection, file_ids: &Vec<String>) -> Result<Vec<i64>> {
    let outcome = run(connection, &Statements::count_refs_to_files(file_ids))?;
    Ok(collect_only_rows(&outcome.answers)?)
}

fn sample_file(content_hash: &str) -> FileRecord {
    sample_file_at("file", "src/lib.rs", content_hash)
}

fn sample_file_at(id: &str, path: &str, content_hash: &str) -> FileRecord {
    FileRecord {
        id: id.to_owned(),
        repository_id: "repo".to_owned(),
        path: path.to_owned(),
        language: "rust".to_owned(),
        content_hash: content_hash.to_owned(),
        index_run_id: "run".to_owned(),
        parser_version: "parser".to_owned(),
    }
}

fn sample_chunk(id: &str) -> ChunkRecord {
    ChunkRecord {
        id: id.to_owned(),
        file_id: "file".to_owned(),
        symbol_id: Some("symbol".to_owned()),
        kind: "function".to_owned(),
        text_hash: format!("text-{id}"),
        start_line: 1,
        end_line: 3,
        start_byte: 0,
        end_byte: 32,
        vector_point_id: Some("01234567-89ab-cdef-fedc-ba9876543210".to_owned()),
        excluded_reason: None,
        index_run_id: "run".to_owned(),
        parser_version: "parser".to_owned(),
        embedding_model: None,
        embedding_dimension: None,
        embedded_at: None,
    }
}

fn missing_vector_chunk(id: &str) -> ChunkRecord {
    let mut chunk = sample_chunk(id);
    chunk.vector_point_id = None;
    chunk
}

fn excluded_chunk(id: &str, file_id: &str) -> ChunkRecord {
    ChunkRecord {
        id: id.to_owned(),
        file_id: file_id.to_owned(),
        symbol_id: None,
        kind: "function".to_owned(),
        text_hash: format!("text-{id}"),
        start_line: 1,
        end_line: 3,
        start_byte: 0,
        end_byte: 32,
        vector_point_id: None,
        excluded_reason: Some("secret_detected".to_owned()),
        index_run_id: "run".to_owned(),
        parser_version: "parser".to_owned(),
        embedding_model: None,
        embedding_dimension: None,
        embedded_at: None,
    }
}

fn sample_symbol(id: &str, name: &str, qualified_name: &str) -> SymbolRecord {
    sample_symbol_in_file(id, "file", name, qualified_name)
}

fn sample_symbol_in_file(
    id: &str,
    file_id: &str,
    name: &str,
    qualified_name: &str,
) -> SymbolRecord {
    SymbolRecord {
        id: id.to_owned(),
        file_id: file_id.to_owned(),
        parent_symbol_id: None,
        name: name.to_owned(),
        qualified_name: qualified_name.to_owned(),
        kind: "function".to_owned(),
        signature: Some(format!("fn {name}()")),
        start_line: 1,
        end_line: 3,
        start_byte: 0,
        end_byte: 32,
        index_run_id: "run".to_owned(),
        parser_version: "parser".to_owned(),
    }
}

fn sample_call(
    id: &str,
    caller_symbol_id: &str,
    callee_text: &str,
    callee_symbol_id: Option<&str>,
    call_line: usize,
) -> CallRecord {
    CallRecord {
        id: id.to_owned(),
        caller_symbol_id: caller_symbol_id.to_owned(),
        callee_text: callee_text.to_owned(),
        callee_symbol_id: callee_symbol_id.map(str::to_owned),
        call_line,
        confidence: number(1.0),
        resolution_status: "resolved_exact".to_owned(),
        index_run_id: "run".to_owned(),
        parser_version: "parser".to_owned(),
    }
}

fn sample_test(id: &str, symbol_id: &str, qualified_name: &str) -> TestRecord {
    TestRecord {
        id: id.to_owned(),
        repository_id: "repo".to_owned(),
        file_id: "file".to_owned(),
        symbol_id: Some(symbol_id.to_owned()),
        name: qualified_name
            .rsplit("::")
            .next()
            .unwrap_or(qualified_name)
            .to_owned(),
        qualified_name: qualified_name.to_owned(),
        framework: "rust_test".to_owned(),
        language: "rust".to_owned(),
        path: "src/lib.rs".to_owned(),
        start_line: 6,
        end_line: 10,
        start_byte: 64,
        end_byte: 128,
        index_run_id: "run".to_owned(),
        parser_version: "parser".to_owned(),
    }
}

fn sample_metadata_test(id: &str, name: &str, qualified_name: &str) -> TestRecord {
    TestRecord {
        id: id.to_owned(),
        repository_id: "repo".to_owned(),
        file_id: "file".to_owned(),
        symbol_id: None,
        name: name.to_owned(),
        qualified_name: qualified_name.to_owned(),
        framework: "jest".to_owned(),
        language: "javascript".to_owned(),
        path: "src/math.test.js".to_owned(),
        start_line: 10,
        end_line: 10,
        start_byte: 128,
        end_byte: 192,
        index_run_id: "run".to_owned(),
        parser_version: "parser".to_owned(),
    }
}

fn unresolved_call(
    id: &str,
    caller_symbol_id: &str,
    callee_text: &str,
    call_line: usize,
) -> CallRecord {
    let mut call = sample_call(id, caller_symbol_id, callee_text, None, call_line);
    call.confidence = number(0.25);
    call.resolution_status = "unresolved".to_owned();
    call
}

fn sample_index_run(model: &str, dimension: usize) -> IndexRunRecord {
    IndexRunRecord {
        id: format!("run-{model}-{dimension}"),
        repository_id: "repo".to_owned(),
        repository_ref_id: None,
        status: "success".to_owned(),
        embedding_model: model.to_owned(),
        embedding_dimension: Some(dimension),
        files_seen: 1,
        files_indexed: 1,
        chunks_embedded: 1,
        error_summary: None,
        parser_version: "parser".to_owned(),
        indexer_version: "indexer".to_owned(),
        run_kind: "semantic".to_owned(),
    }
}

fn sample_semantic_generation() -> SemanticGenerationRecord {
    SemanticGenerationRecord {
        id: "generation-1".to_owned(),
        repository_id: "repo".to_owned(),
        fast_model: "nomic-embed-text".to_owned(),
        fast_dimension: 768,
        fast_completed_at: "100".to_owned(),
        quality_model: Some("mxbai-embed-large".to_owned()),
        quality_dimension: Some(768),
        quality_status: "quality_pending".to_owned(),
        quality_started_at: None,
        quality_completed_at: None,
        active_layer: "fast".to_owned(),
        files_seen: 1,
        embeddable_chunks: 1,
        fast_embedded_chunks: 1,
        quality_embedded_chunks: 0,
        created_at: "100".to_owned(),
        updated_at: "100".to_owned(),
    }
}

fn persist_repo_with_chunks(store: &mut SqliteStore, chunks: &[ChunkRecord]) {
    store
        .upsert_repository(&RepositoryRecord {
            id: "repo".to_owned(),
            root_path: "/tmp/repo".to_owned(),
        })
        .expect("repository should persist");
    store
        .replace_file_facts(&sample_file("content-hash"), &[], chunks, &[])
        .expect("file facts should persist");
}

fn sample_chunk_embedding() -> ChunkEmbeddingRecord {
    ChunkEmbeddingRecord {
        id: "embedding-1".to_owned(),
        repository_id: "repo".to_owned(),
        file_id: "file".to_owned(),
        chunk_id: "chunk-1".to_owned(),
        semantic_layer: "fast".to_owned(),
        embedding_model: "nomic-embed-text".to_owned(),
        embedding_dimension: 768,
        content_hash: "content-hash".to_owned(),
        text_hash: "text-chunk-1".to_owned(),
        vector_table: "symdex_repo_nomic_embed_text".to_owned(),
        vector_point_id: "01234567-89ab-cdef-fedc-ba9876543210".to_owned(),
        generation_id: "generation-1".to_owned(),
        embedded_at: "101".to_owned(),
        status: "current".to_owned(),
    }
}

fn sample_fast_manifest(
    chunk_ids: &[&str],
    content_hash: &str,
) -> Vec<FastEmbeddingManifestRecord> {
    chunk_ids
        .iter()
        .map(|chunk_id| FastEmbeddingManifestRecord {
            file_id: "file".to_owned(),
            chunk_id: (*chunk_id).to_owned(),
            content_hash: content_hash.to_owned(),
            text_hash: format!("text-{chunk_id}"),
            vector_point_id: format!("point-{chunk_id}"),
        })
        .collect()
}

fn upsert_fast_embedding_for_chunk(
    store: &SqliteStore,
    chunk_id: &str,
    content_hash: &str,
    text_hash: &str,
) {
    store
        .upsert_semantic_generation(&sample_semantic_generation())
        .expect("generation should persist");
    store
        .upsert_chunk_embedding(&ChunkEmbeddingRecord {
            id: format!("embedding-{chunk_id}"),
            chunk_id: chunk_id.to_owned(),
            content_hash: content_hash.to_owned(),
            text_hash: text_hash.to_owned(),
            ..sample_chunk_embedding()
        })
        .expect("fast embedding should persist");
}

fn sample_quality_chunk_embedding(status: &str) -> ChunkEmbeddingRecord {
    ChunkEmbeddingRecord {
        id: format!("quality-embedding-{status}"),
        semantic_layer: "quality".to_owned(),
        embedding_model: "mxbai-embed-large".to_owned(),
        vector_table: "symdex_repo_nomic_embed_text_v2_moe".to_owned(),
        vector_point_id: "01234567-89ab-cdef-fedc-ba9876543211".to_owned(),
        status: status.to_owned(),
        ..sample_chunk_embedding()
    }
}

fn sample_quality_embedding_job() -> QualityEmbeddingJobRecord {
    QualityEmbeddingJobRecord {
        id: "quality-job-1".to_owned(),
        repository_id: "repo".to_owned(),
        generation_id: "generation-1".to_owned(),
        chunk_id: "chunk-1".to_owned(),
        file_id: "file".to_owned(),
        path: "src/lib.rs".to_owned(),
        content_hash: "content-hash".to_owned(),
        text_hash: "text-chunk-1".to_owned(),
        status: "pending".to_owned(),
        attempts: 0,
        error_summary: None,
        created_at: "102".to_owned(),
        updated_at: "102".to_owned(),
    }
}

fn sample_quality_embedding_job_for(
    generation_id: &str,
    chunk_id: &str,
    status: &str,
) -> QualityEmbeddingJobRecord {
    QualityEmbeddingJobRecord {
        id: quality_embedding_job_id("repo", generation_id, chunk_id),
        generation_id: generation_id.to_owned(),
        chunk_id: chunk_id.to_owned(),
        text_hash: format!("text-{chunk_id}"),
        status: status.to_owned(),
        ..sample_quality_embedding_job()
    }
}

struct IndexRunFixture {
    id: &'static str,
    started_at: &'static str,
    finished_at: Option<&'static str>,
    status: &'static str,
    model: &'static str,
    dimension: Option<usize>,
    files_seen: usize,
    files_indexed: usize,
    chunks_embedded: usize,
    error_summary: Option<&'static str>,
    run_kind: &'static str,
}

fn insert_index_run_fixture(store: &SqliteStore, fixture: IndexRunFixture) {
    store
        .connection
        .execute(
            "INSERT INTO index_runs (
               id, repository_id, started_at, finished_at, status, embedding_model,
               embedding_dimension, files_seen, files_indexed, chunks_embedded,
                                 error_summary, run_kind
             )
                             VALUES (?1, 'repo', ?2, ?3, ?4, ?5, ?6, ?7, ?8, ?9, ?10, ?11)",
            (
                fixture.id,
                fixture.started_at,
                fixture.finished_at,
                fixture.status,
                fixture.model,
                fixture.dimension.map(|dimension| dimension as i64),
                fixture.files_seen as i64,
                fixture.files_indexed as i64,
                fixture.chunks_embedded as i64,
                fixture.error_summary,
                fixture.run_kind,
            ),
        )
        .expect("index run fixture should insert");
}

fn sqlite_index_names(store: &SqliteStore) -> Vec<String> {
    let mut statement = store
        .connection
        .prepare(
            "SELECT name FROM sqlite_master
             WHERE type = 'index'
               AND name NOT LIKE 'sqlite_autoindex%'
             ORDER BY name",
        )
        .expect("index query should prepare");
    let rows = statement
        .query_map([], |row| row.get::<_, String>(0))
        .expect("index query should run");
    rows.map(|row| row.expect("index row should decode"))
        .collect()
}

fn sqlite_table_names(store: &SqliteStore) -> Vec<String> {
    let mut statement = store
        .connection
        .prepare(
            "SELECT name FROM sqlite_master
             WHERE type = 'table'
               AND name NOT LIKE 'sqlite_%'
             ORDER BY name",
        )
        .expect("table query should prepare");
    let rows = statement
        .query_map([], |row| row.get::<_, String>(0))
        .expect("table query should run");
    rows.map(|row| row.expect("table row should decode"))
        .collect()
}

#[test]
fn sync_repository_ref_tracks_current_branch_and_deleted_branches() {
    let store = SqliteStore::open();
    store.migrate().expect("migration should run");
    store
        .upsert_repository(&RepositoryRecord {
            id: "repo".to_owned(),
            root_path: "/tmp/repo".to_owned(),
        })
        .expect("repository should be stored");

    let first = RepositoryRefSnapshot {
        id: "ref-main".to_owned(),
        repository_id: "repo".to_owned(),
        kind: RepositoryRefKind::Branch,
        name: Some("main".to_owned()),
        head_oid: Some("0123456789abcdef0123456789abcdef01234567".to_owned()),
        local_branches: vec!["main".to_owned(), "feature".to_owned()],
    };
    let summary = store.sync_repository_ref(&first).expect("refs should sync");
    assert_eq!(summary.current.ref_name.as_deref(), Some("main"));
    assert_eq!(summary.deleted_refs, 0);

    let second = RepositoryRefSnapshot {
        id: "ref-main".to_owned(),
        repository_id: "repo".to_owned(),
        kind: RepositoryRefKind::Branch,
        name: Some("main".to_owned()),
        head_oid: Some("fedcba9876543210fedcba9876543210fedcba98".to_owned()),
        local_branches: vec!["main".to_owned()],
    };
    let summary = store
        .sync_repository_ref(&second)
        .expect("refs should sync after branch deletion");
    let current = store
        .current_repository_ref("repo")
        .expect("current ref should load")
        .expect("current ref should exist");

    assert_eq!(summary.deleted_refs, 1);
    assert_eq!(current.ref_name.as_deref(), Some("main"));
    assert_eq!(
        current.head_oid.as_deref(),
        Some("fedcba9876543210fedcba9876543210fedcba98")
    );
}

#[test]
fn ref_files_track_paths_per_repository_ref() {
    let mut store = SqliteStore::open();
    store.migrate().expect("migration should run");
    store
        .upsert_repository(&RepositoryRecord {
            id: "repo".to_owned(),
            root_path: "/tmp/repo".to_owned(),
        })
        .expect("repository should be stored");
    let main = RepositoryRefSnapshot {
        id: stable_id(&["repository-ref", "repo", "branch", "main"]),
        repository_id: "repo".to_owned(),
        kind: RepositoryRefKind::Branch,
        name: Some("main".to_owned()),
        head_oid: Some("0123456789abcdef0123456789abcdef01234567".to_owned()),
        local_branches: vec!["main".to_owned(), "feature".to_owned()],
    };
    let feature = RepositoryRefSnapshot {
        id: stable_id(&["repository-ref", "repo", "branch", "feature"]),
        repository_id: "repo".to_owned(),
        kind: RepositoryRefKind::Branch,
        name: Some("feature".to_owned()),
        head_oid: Some("fedcba9876543210fedcba9876543210fedcba98".to_owned()),
        local_branches: vec!["main".to_owned(), "feature".to_owned()],
    };

    store.sync_repository_ref(&main).expect("main should sync");
    store
        .replace_file_facts_for_ref_with_tests(
            &main.id,
            &sample_file_at("main-file", "src/lib.rs", "hash-main"),
            &[],
            &[],
            &[],
            &[],
        )
        .expect("main file should persist");
    store
        .sync_repository_ref(&feature)
        .expect("feature should sync");
    store
        .replace_file_facts_for_ref_with_tests(
            &feature.id,
            &sample_file_at("feature-file", "src/feature.rs", "hash-feature"),
            &[],
            &[],
            &[],
            &[],
        )
        .expect("feature file should persist");

    assert_eq!(
        store
            .ref_file_paths(&main.id)
            .expect("main paths should load"),
        vec!["src/lib.rs".to_owned()]
    );
    assert_eq!(
        store
            .ref_file_paths(&feature.id)
            .expect("feature paths should load"),
        vec!["src/feature.rs".to_owned()]
    );

    let removed = store
        .remove_missing_ref_files(&feature.id, &[])
        .expect("feature manifest cleanup should run");
    assert_eq!(removed, 1);
    assert_eq!(
        store
            .ref_file_paths(&main.id)
            .expect("main paths should remain"),
        vec!["src/lib.rs".to_owned()]
    );
    assert!(
        store
            .ref_file_paths(&feature.id)
            .expect("feature paths should be empty")
            .is_empty()
    );

    let removed_files = store
        .remove_unreferenced_missing_files("repo", &[])
        .expect("unreferenced file cleanup should run");
    assert_eq!(removed_files, 1);
    let status = store.repository_status("repo").expect("status should load");
    assert_eq!(status.files_indexed, 1);
    assert_eq!(
        store
            .ref_file_paths(&main.id)
            .expect("main paths should still remain"),
        vec!["src/lib.rs".to_owned()]
    );
}

#[test]
fn freshness_snapshots_can_be_scoped_to_repository_ref() {
    let mut store = SqliteStore::open();
    store.migrate().expect("migration should run");
    store
        .upsert_repository(&RepositoryRecord {
            id: "repo".to_owned(),
            root_path: "/tmp/repo".to_owned(),
        })
        .expect("repository should be stored");
    let main = RepositoryRefSnapshot {
        id: stable_id(&["repository-ref", "repo", "branch", "main"]),
        repository_id: "repo".to_owned(),
        kind: RepositoryRefKind::Branch,
        name: Some("main".to_owned()),
        head_oid: Some("0123456789abcdef0123456789abcdef01234567".to_owned()),
        local_branches: vec!["main".to_owned(), "feature".to_owned()],
    };
    let feature = RepositoryRefSnapshot {
        id: stable_id(&["repository-ref", "repo", "branch", "feature"]),
        repository_id: "repo".to_owned(),
        kind: RepositoryRefKind::Branch,
        name: Some("feature".to_owned()),
        head_oid: Some("fedcba9876543210fedcba9876543210fedcba98".to_owned()),
        local_branches: vec!["main".to_owned(), "feature".to_owned()],
    };
    let old = sample_file_at("old-file", "src/lib.rs", "hash-old");
    let current = sample_file_at("current-file", "src/lib.rs", "hash-current");
    store
        .sync_repository_ref(&feature)
        .expect("feature should sync");
    store
        .replace_file_facts_for_ref_with_tests(&feature.id, &old, &[], &[], &[], &[])
        .expect("old ref snapshot should persist");
    store.sync_repository_ref(&main).expect("main should sync");
    store
        .replace_file_facts_for_ref_with_tests(&main.id, &current, &[], &[], &[], &[])
        .expect("current ref snapshot should persist");

    let mut repository_hashes = store
        .indexed_file_freshness_snapshots("repo")
        .expect("repo snapshots should load")
        .into_iter()
        .map(|row| row.content_hash)
        .collect::<Vec<_>>();
    repository_hashes.sort();
    assert_eq!(
        repository_hashes,
        vec!["hash-current".to_owned(), "hash-old".to_owned()]
    );
    assert_eq!(
        store
            .indexed_file_freshness_snapshots_for_ref("repo", &main.id)
            .expect("ref snapshots should load")
            .into_iter()
            .map(|row| row.content_hash)
            .collect::<Vec<_>>(),
        vec!["hash-current".to_owned()]
    );
}

#[test]
fn scoped_queries_filter_through_ref_files() {
    let mut store = SqliteStore::open();
    store.migrate().expect("migration should run");
    store
        .upsert_repository(&RepositoryRecord {
            id: "repo".to_owned(),
            root_path: "/tmp/repo".to_owned(),
        })
        .expect("repository should be stored");
    let main = RepositoryRefSnapshot {
        id: stable_id(&["repository-ref", "repo", "branch", "main"]),
        repository_id: "repo".to_owned(),
        kind: RepositoryRefKind::Branch,
        name: Some("main".to_owned()),
        head_oid: Some("0123456789abcdef0123456789abcdef01234567".to_owned()),
        local_branches: vec!["main".to_owned(), "feature".to_owned()],
    };
    let feature = RepositoryRefSnapshot {
        id: stable_id(&["repository-ref", "repo", "branch", "feature"]),
        repository_id: "repo".to_owned(),
        kind: RepositoryRefKind::Branch,
        name: Some("feature".to_owned()),
        head_oid: Some("fedcba9876543210fedcba9876543210fedcba98".to_owned()),
        local_branches: vec!["main".to_owned(), "feature".to_owned()],
    };

    store.sync_repository_ref(&main).expect("refs should sync");
    let main_symbols = vec![
        sample_symbol_in_file("main-caller", "main-file", "caller", "main::caller"),
        sample_symbol_in_file("main-helper", "main-file", "helper", "main::helper"),
    ];
    let main_calls = vec![sample_call(
        "main-call",
        "main-caller",
        "helper",
        Some("main-helper"),
        4,
    )];
    store
        .replace_file_facts_for_ref_with_tests(
            &main.id,
            &sample_file_at("main-file", "src/main.rs", "hash-main"),
            &main_symbols,
            &[],
            &main_calls,
            &[],
        )
        .expect("main facts should persist");

    store
        .sync_repository_ref(&feature)
        .expect("feature ref should sync");
    let feature_symbols = vec![
        sample_symbol_in_file(
            "feature-caller",
            "feature-file",
            "caller",
            "feature::caller",
        ),
        sample_symbol_in_file(
            "feature-helper",
            "feature-file",
            "helper",
            "feature::helper",
        ),
    ];
    let feature_calls = vec![sample_call(
        "feature-call",
        "feature-caller",
        "helper",
        Some("feature-helper"),
        8,
    )];
    store
        .replace_file_facts_for_ref_with_tests(
            &feature.id,
            &sample_file_at("feature-file", "src/feature.rs", "hash-feature"),
            &feature_symbols,
            &[],
            &feature_calls,
            &[],
        )
        .expect("feature facts should persist");

    assert!(
        store
            .repository_has_ref_file_manifests("repo")
            .expect("manifest check should run")
    );
    let main_symbols = store
        .find_symbols_for_ref("repo", &main.id, "helper")
        .expect("main symbol search should run");
    assert_eq!(main_symbols.len(), 1);
    assert_eq!(main_symbols[0].qualified_name, "main::helper");
    let feature_symbols = store
        .find_symbols_for_ref("repo", &feature.id, "helper")
        .expect("feature symbol search should run");
    assert_eq!(feature_symbols.len(), 1);
    assert_eq!(feature_symbols[0].qualified_name, "feature::helper");

    let main_callers = store
        .callers_for_ref("repo", &main.id, "main::helper")
        .expect("main callers should run");
    assert_eq!(main_callers.len(), 1);
    assert_eq!(
        main_callers[0].symbol_qualified_name.as_deref(),
        Some("main::caller")
    );
    let feature_callers = store
        .callers_for_ref("repo", &feature.id, "feature::helper")
        .expect("feature callers should run");
    assert_eq!(feature_callers.len(), 1);
    assert_eq!(
        feature_callers[0].symbol_qualified_name.as_deref(),
        Some("feature::caller")
    );
    assert!(
        store
            .callers_for_ref("repo", &main.id, "feature::helper")
            .expect("cross-ref callers should run")
            .is_empty()
    );

    let pack = store
        .context_pack_for_ref("repo", &main.id, "helper", 5)
        .expect("scoped context pack should build");
    assert_eq!(pack.focus_symbols[0].qualified_name, "main::helper");
    assert_eq!(pack.direct_callers.len(), 1);
    assert_eq!(pack.files, vec!["src/main.rs".to_owned()]);
    assert!(pack.notes.contains(&"repository_ref_scoped".to_owned()));
}

#[test]
fn ref_scoped_queries_preserve_same_path_different_content_snapshots() {
    let mut store = SqliteStore::open();
    store.migrate().expect("migration should run");
    store
        .upsert_repository(&RepositoryRecord {
            id: "repo".to_owned(),
            root_path: "/tmp/repo".to_owned(),
        })
        .expect("repository should be stored");
    let main = RepositoryRefSnapshot {
        id: stable_id(&["repository-ref", "repo", "branch", "main"]),
        repository_id: "repo".to_owned(),
        kind: RepositoryRefKind::Branch,
        name: Some("main".to_owned()),
        head_oid: Some("0123456789abcdef0123456789abcdef01234567".to_owned()),
        local_branches: vec!["main".to_owned(), "feature".to_owned()],
    };
    let feature = RepositoryRefSnapshot {
        id: stable_id(&["repository-ref", "repo", "branch", "feature"]),
        repository_id: "repo".to_owned(),
        kind: RepositoryRefKind::Branch,
        name: Some("feature".to_owned()),
        head_oid: Some("fedcba9876543210fedcba9876543210fedcba98".to_owned()),
        local_branches: vec!["main".to_owned(), "feature".to_owned()],
    };

    store
        .sync_repository_ref(&main)
        .expect("main ref should sync");
    let main_symbols = vec![
        sample_symbol_in_file("main-caller", "main-file-hash", "caller", "main::caller"),
        sample_symbol_in_file("main-helper", "main-file-hash", "helper", "main::helper"),
    ];
    store
        .replace_file_facts_for_ref_with_tests(
            &main.id,
            &sample_file_at("main-file-hash", "src/lib.rs", "hash-main"),
            &main_symbols,
            &[],
            &[sample_call(
                "main-call",
                "main-caller",
                "helper",
                Some("main-helper"),
                3,
            )],
            &[],
        )
        .expect("main snapshot should persist");

    store
        .sync_repository_ref(&feature)
        .expect("feature ref should sync");
    let feature_symbols = vec![
        sample_symbol_in_file(
            "feature-caller",
            "feature-file-hash",
            "caller",
            "feature::caller",
        ),
        sample_symbol_in_file(
            "feature-helper",
            "feature-file-hash",
            "helper",
            "feature::helper",
        ),
    ];
    store
        .replace_file_facts_for_ref_with_tests(
            &feature.id,
            &sample_file_at("feature-file-hash", "src/lib.rs", "hash-feature"),
            &feature_symbols,
            &[],
            &[sample_call(
                "feature-call",
                "feature-caller",
                "helper",
                Some("feature-helper"),
                7,
            )],
            &[],
        )
        .expect("feature snapshot should persist");

    let status = store.repository_status("repo").expect("status should load");
    assert_eq!(status.files_indexed, 2);

    let main_symbols = store
        .find_symbols_for_ref("repo", &main.id, "helper")
        .expect("main symbols should load");
    assert_eq!(main_symbols.len(), 1);
    assert_eq!(main_symbols[0].qualified_name, "main::helper");
    assert_eq!(
        main_symbols[0].provenance.content_hash,
        Some("hash-main".to_owned())
    );

    let feature_symbols = store
        .find_symbols_for_ref("repo", &feature.id, "helper")
        .expect("feature symbols should load");
    assert_eq!(feature_symbols.len(), 1);
    assert_eq!(feature_symbols[0].qualified_name, "feature::helper");
    assert_eq!(
        feature_symbols[0].provenance.content_hash,
        Some("hash-feature".to_owned())
    );

    assert!(
        store
            .callers_for_ref("repo", &main.id, "feature::helper")
            .expect("main should not see feature callers")
            .is_empty()
    );

    store
        .remove_missing_ref_files(&main.id, &[])
        .expect("main manifest should clear");
    let removed = store
        .remove_unreferenced_missing_files("repo", &[])
        .expect("unreferenced main snapshot should be removed");
    assert_eq!(removed, 1);
    let status = store
        .repository_status("repo")
        .expect("status should reload");
    assert_eq!(status.files_indexed, 1);
    assert_eq!(
        store
            .find_symbols_for_ref("repo", &feature.id, "helper")
            .expect("feature snapshot should remain")[0]
            .qualified_name,
        "feature::helper"
    );
}

#[test]
fn sqlite_migrates_and_persists_file_chunks() {
    let mut store = SqliteStore::open();
    store.migrate().expect("migration should run");
    store
        .upsert_repository(&RepositoryRecord {
            id: "repo".to_owned(),
            root_path: "/tmp/repo".to_owned(),
        })
        .expect("repository should persist");

    store
        .replace_file_facts(&sample_file("hash-1"), &[], &[sample_chunk("chunk-1")], &[])
        .expect("file chunks should persist");

    assert!(
        store
            .file_unchanged("repo", "file", "src/lib.rs", "hash-1", "parser")
            .expect("unchanged check should run")
    );
    assert!(
        !store
            .file_unchanged("repo", "file", "src/lib.rs", "hash-1", "next-parser")
            .expect("parser-version check should run")
    );
    let status = store.repository_status("repo").expect("status should load");
    assert_eq!(status.files_indexed, 1);
    assert_eq!(status.chunks_indexed, 1);
    assert!(status.last_indexed_at.is_some());
}

#[test]
fn sqlite_migration_creates_query_indexes() {
    let store = SqliteStore::open();
    store.migrate().expect("migration should run");

    let indexes = sqlite_index_names(&store);

    for expected in [
        "idx_files_repository_path",
        "idx_files_repository_path_hash",
        "idx_chunks_file_id",
        "idx_symbols_file_id",
        "idx_symbols_name",
        "idx_symbols_qualified_name",
        "idx_calls_caller_symbol_id",
        "idx_calls_callee_symbol_id",
        "idx_symbol_references_file_kind",
        "idx_symbol_references_source_kind",
        "idx_symbol_references_target_kind",
        "idx_symbol_references_kind_status",
        "idx_tests_repository_name",
        "idx_tests_repository_qualified_name",
        "idx_tests_file_id",
        "idx_tests_symbol_id",
        "idx_index_runs_repository_status",
        "idx_index_runs_repository_model_status",
        "idx_file_index_events_run_path",
        "idx_file_index_events_repository_path_time",
        "idx_file_index_events_repository_action_status",
        "idx_semantic_generations_repository_fast_completed",
        "idx_semantic_generation_refs_generation",
        "idx_chunk_embeddings_repository_layer_model",
        "idx_chunk_embeddings_generation_chunk",
        "idx_chunk_embeddings_repository_generation_layer_status",
        "idx_quality_embedding_jobs_repository_generation_status",
    ] {
        assert!(
            indexes.iter().any(|index| index == expected),
            "missing SQLite index {expected}; found {indexes:?}"
        );
    }
}

#[test]
fn sqlite_migration_removes_legacy_file_path_uniqueness() {
    let store = SqliteStore::open();
    store
        .connection
        .execute_batch(
            "CREATE TABLE repositories (
               id TEXT PRIMARY KEY,
               root_path TEXT NOT NULL UNIQUE,
               created_at TEXT NOT NULL,
               updated_at TEXT NOT NULL
             );
             CREATE TABLE files (
               id TEXT PRIMARY KEY,
               repository_id TEXT NOT NULL,
               path TEXT NOT NULL,
               language TEXT NOT NULL,
               content_hash TEXT NOT NULL,
               indexed_at TEXT NOT NULL,
               index_run_id TEXT,
               parser_version TEXT,
               UNIQUE(repository_id, path),
               FOREIGN KEY(repository_id) REFERENCES repositories(id) ON DELETE CASCADE
             );
             INSERT INTO repositories (id, root_path, created_at, updated_at)
             VALUES ('repo', '/tmp/repo', '1', '1');
             INSERT INTO files (
               id, repository_id, path, language, content_hash, indexed_at,
               index_run_id, parser_version
             )
             VALUES ('old-file', 'repo', 'src/lib.rs', 'rust', 'hash-old', '1', 'run', 'parser');",
        )
        .expect("legacy schema should be installed");

    store.migrate().expect("migration should run");

    store
        .connection
        .execute(
            "INSERT INTO files (
               id, repository_id, path, language, content_hash, indexed_at,
               index_run_id, parser_version
             )
             VALUES ('new-file', 'repo', 'src/lib.rs', 'rust', 'hash-new', '2', 'run', 'parser')",
            [],
        )
        .expect("same path with different content should insert");
    let count: i64 = store
        .connection
        .query_row(
            "SELECT COUNT(*) FROM files WHERE repository_id = 'repo' AND path = 'src/lib.rs'",
            [],
            |row| row.get(0),
        )
        .expect("file count should load");
    assert_eq!(count, 2);
}

#[test]
fn sqlite_migration_creates_layered_semantic_tables_idempotently() {
    let store = SqliteStore::open();
    store.migrate().expect("first migration should run");
    store.migrate().expect("second migration should run");

    let tables = sqlite_table_names(&store);

    for expected in [
        "file_index_events",
        "symbol_references",
        "semantic_generations",
        "semantic_generation_refs",
        "chunk_embeddings",
        "quality_embedding_jobs",
    ] {
        assert!(
            tables.iter().any(|table| table == expected),
            "missing SQLite table {expected}; found {tables:?}"
        );
    }
}

#[test]
fn semantic_generation_refs_route_generations_per_ref() {
    let mut store = SqliteStore::open();
    store.migrate().expect("migration should run");
    store
        .upsert_repository(&RepositoryRecord {
            id: "repo".to_owned(),
            root_path: "/tmp/repo".to_owned(),
        })
        .expect("repository should persist");
    let main = RepositoryRefSnapshot {
        id: stable_id(&["repository-ref", "repo", "branch", "main"]),
        repository_id: "repo".to_owned(),
        kind: RepositoryRefKind::Branch,
        name: Some("main".to_owned()),
        head_oid: Some("0123456789abcdef0123456789abcdef01234567".to_owned()),
        local_branches: vec!["main".to_owned(), "feature".to_owned()],
    };
    let feature = RepositoryRefSnapshot {
        id: stable_id(&["repository-ref", "repo", "branch", "feature"]),
        repository_id: "repo".to_owned(),
        kind: RepositoryRefKind::Branch,
        name: Some("feature".to_owned()),
        head_oid: Some("fedcba9876543210fedcba9876543210fedcba98".to_owned()),
        local_branches: vec!["main".to_owned(), "feature".to_owned()],
    };
    store.sync_repository_ref(&main).expect("main should sync");
    store
        .sync_repository_ref(&feature)
        .expect("feature should sync");

    let mut main_generation = sample_semantic_generation();
    main_generation.id = "generation-main".to_owned();
    main_generation.fast_completed_at = "100".to_owned();
    main_generation.created_at = "100".to_owned();
    main_generation.updated_at = "100".to_owned();
    store
        .upsert_semantic_generation(&main_generation)
        .expect("main generation should persist");
    let mut feature_generation = sample_semantic_generation();
    feature_generation.id = "generation-feature".to_owned();
    feature_generation.fast_completed_at = "200".to_owned();
    feature_generation.created_at = "200".to_owned();
    feature_generation.updated_at = "200".to_owned();
    feature_generation.quality_status = "quality_ready".to_owned();
    feature_generation.active_layer = "quality".to_owned();
    store
        .upsert_semantic_generation(&feature_generation)
        .expect("feature generation should persist");

    store
        .link_semantic_generation_to_ref("repo", &main.id, &main_generation.id, "101")
        .expect("main generation should link");
    store
        .link_semantic_generation_to_ref("repo", &feature.id, &feature_generation.id, "201")
        .expect("feature generation should link");

    let repo_latest = store
        .latest_semantic_generation("repo")
        .expect("latest repo generation should load")
        .expect("latest repo generation should exist");
    assert_eq!(repo_latest.id, "generation-feature");
    let main_latest = store
        .latest_semantic_generation_for_ref("repo", &main.id)
        .expect("main ref generation should load")
        .expect("main ref generation should exist");
    assert_eq!(main_latest.id, "generation-main");
    let feature_latest = store
        .latest_semantic_generation_for_ref("repo", &feature.id)
        .expect("feature ref generation should load")
        .expect("feature ref generation should exist");
    assert_eq!(feature_latest.id, "generation-feature");

    let main_routing = store
        .semantic_routing_summary_for_ref("repo", &main.id)
        .expect("main routing should load")
        .expect("main routing should exist");
    assert_eq!(main_routing.generation_id, "generation-main");
    assert_eq!(main_routing.active_layer, SemanticLayer::Fast);
    let feature_routing = store
        .semantic_routing_summary_for_ref("repo", &feature.id)
        .expect("feature routing should load")
        .expect("feature routing should exist");
    assert_eq!(feature_routing.generation_id, "generation-feature");
    assert_eq!(feature_routing.active_layer, SemanticLayer::Quality);
}

#[test]
fn layered_semantic_records_round_trip() {
    let mut store = SqliteStore::open();
    store.migrate().expect("migration should run");
    store
        .upsert_repository(&RepositoryRecord {
            id: "repo".to_owned(),
            root_path: "/tmp/repo".to_owned(),
        })
        .expect("repository should persist");
    store
        .replace_file_facts(
            &sample_file("content-hash"),
            &[],
            &[sample_chunk("chunk-1")],
            &[],
        )
        .expect("file facts should persist");

    let generation = sample_semantic_generation();
    store
        .upsert_semantic_generation(&generation)
        .expect("generation should persist");
    assert_eq!(
        store
            .latest_semantic_generation("repo")
            .expect("latest generation should load"),
        Some(generation.clone())
    );

    let embedding = sample_chunk_embedding();
    store
        .upsert_chunk_embedding(&embedding)
        .expect("chunk embedding should persist");
    assert_eq!(
        store
            .chunk_embeddings_for_generation("repo", "generation-1", "fast")
            .expect("chunk embeddings should load"),
        vec![embedding]
    );

    let job = sample_quality_embedding_job();
    store
        .upsert_quality_embedding_job(&job)
        .expect("quality job should persist");
    assert_eq!(
        store
            .quality_jobs_by_status("repo", "generation-1", "pending")
            .expect("quality jobs should load"),
        vec![job]
    );

    let status = store.repository_status("repo").expect("status should load");
    assert_eq!(status.files_indexed, 1);
    assert_eq!(status.chunks_indexed, 1);
}

#[test]
fn quality_queue_upserts_jobs_and_marks_generation_pending() {
    let mut store = SqliteStore::open();
    store.migrate().expect("migration should run");
    store
        .upsert_repository(&RepositoryRecord {
            id: "repo".to_owned(),
            root_path: "/tmp/repo".to_owned(),
        })
        .expect("repository should persist");
    store
        .replace_file_facts(
            &sample_file("content-hash"),
            &[],
            &[sample_chunk("chunk-1")],
            &[],
        )
        .expect("file facts should persist");
    let generation = sample_semantic_generation();
    store
        .upsert_semantic_generation(&generation)
        .expect("generation should persist");
    let mut job = sample_quality_embedding_job();
    job.id = quality_embedding_job_id("repo", "generation-1", "chunk-1");

    let first = store
        .queue_quality_embedding_jobs(&generation, "mxbai-embed-large", &[job.clone()], "200")
        .expect("quality jobs should queue");
    job.updated_at = "201".to_owned();
    let second = store
        .queue_quality_embedding_jobs(&generation, "mxbai-embed-large", &[job], "201")
        .expect("quality jobs should upsert idempotently");

    assert_eq!(first.queued_jobs, 1);
    assert_eq!(second.queued_jobs, 1);
    assert_eq!(second.skipped_stale_jobs, 0);
    let jobs = store
        .quality_jobs_by_status("repo", "generation-1", "pending")
        .expect("pending jobs should load");
    assert_eq!(jobs.len(), 1);
    assert_eq!(jobs[0].updated_at, "201");
    let generation = store
        .latest_semantic_generation("repo")
        .expect("generation should load")
        .expect("generation should exist");
    assert_eq!(generation.quality_status, "quality_pending");
    assert_eq!(
        generation.quality_model.as_deref(),
        Some("mxbai-embed-large")
    );
    assert_eq!(generation.quality_dimension, None);
    assert_eq!(generation.active_layer, "fast");
}

#[test]
fn quality_queue_marks_only_superseded_pending_and_running_jobs_stale() {
    let mut store = SqliteStore::open();
    store.migrate().expect("migration should run");
    store
        .upsert_repository(&RepositoryRecord {
            id: "repo".to_owned(),
            root_path: "/tmp/repo".to_owned(),
        })
        .expect("repository should persist");
    store
        .replace_file_facts(
            &sample_file("content-hash"),
            &[],
            &[
                sample_chunk("chunk-1"),
                sample_chunk("chunk-2"),
                sample_chunk("chunk-3"),
                sample_chunk("chunk-4"),
                sample_chunk("chunk-5"),
            ],
            &[],
        )
        .expect("file facts should persist");
    let current_generation = sample_semantic_generation();
    let old_generation = SemanticGenerationRecord {
        id: "generation-old".to_owned(),
        fast_completed_at: "050".to_owned(),
        created_at: "050".to_owned(),
        updated_at: "050".to_owned(),
        ..sample_semantic_generation()
    };
    store
        .upsert_semantic_generation(&old_generation)
        .expect("old generation should persist");
    store
        .upsert_semantic_generation(&current_generation)
        .expect("current generation should persist");
    for (chunk_id, status) in [
        ("chunk-1", "pending"),
        ("chunk-2", "running"),
        ("chunk-3", "succeeded"),
        ("chunk-4", "failed"),
        ("chunk-5", "skipped_excluded"),
    ] {
        store
            .upsert_quality_embedding_job(&sample_quality_embedding_job_for(
                "generation-old",
                chunk_id,
                status,
            ))
            .expect("old job should persist");
    }

    let skipped = store
        .mark_superseded_quality_jobs_stale("repo", "generation-1", "300")
        .expect("superseded jobs should be marked stale");

    assert_eq!(skipped, 2);
    assert_eq!(
        store
            .quality_jobs_by_status("repo", "generation-old", "skipped_stale")
            .expect("stale jobs should load")
            .len(),
        2
    );
    assert_eq!(
        store
            .quality_jobs_by_status("repo", "generation-old", "succeeded")
            .expect("succeeded jobs should remain")
            .len(),
        1
    );
    assert_eq!(
        store
            .quality_jobs_by_status("repo", "generation-old", "failed")
            .expect("failed jobs should remain")
            .len(),
        1
    );
    assert_eq!(
        store
            .quality_jobs_by_status("repo", "generation-old", "skipped_excluded")
            .expect("excluded jobs should remain")
            .len(),
        1
    );
}

#[test]
fn blocked_quality_generation_records_status_without_pending_jobs() {
    let mut store = SqliteStore::open();
    store.migrate().expect("migration should run");
    store
        .upsert_repository(&RepositoryRecord {
            id: "repo".to_owned(),
            root_path: "/tmp/repo".to_owned(),
        })
        .expect("repository should persist");
    store
        .replace_file_facts(
            &sample_file("content-hash"),
            &[],
            &[sample_chunk("chunk-1")],
            &[],
        )
        .expect("file facts should persist");
    let generation = sample_semantic_generation();
    store
        .upsert_semantic_generation(&generation)
        .expect("generation should persist");

    let summary = store
        .mark_quality_generation_blocked(&generation, "mxbai-embed-large", "400")
        .expect("generation should be marked blocked");

    assert_eq!(summary.quality_status, SemanticLayerStatus::QualityBlocked);
    assert_eq!(summary.queued_jobs, 0);
    assert_eq!(
        store
            .quality_jobs_by_status("repo", "generation-1", "pending")
            .expect("pending jobs should load")
            .len(),
        0
    );
    let generation = store
        .latest_semantic_generation("repo")
        .expect("generation should load")
        .expect("generation should exist");
    assert_eq!(generation.quality_status, "quality_blocked");
    assert_eq!(
        generation.quality_model.as_deref(),
        Some("mxbai-embed-large")
    );
    assert_eq!(generation.quality_dimension, None);
    assert_eq!(generation.active_layer, "fast");
}

#[test]
fn quality_worker_claims_bounded_jobs_and_loads_sources() {
    let mut store = SqliteStore::open();
    store.migrate().expect("migration should run");
    store
        .upsert_repository(&RepositoryRecord {
            id: "repo".to_owned(),
            root_path: "/tmp/repo".to_owned(),
        })
        .expect("repository should persist");
    store
        .replace_file_facts(
            &sample_file("content-hash"),
            &[sample_symbol("symbol", "hello", "hello")],
            &[sample_chunk("chunk-1"), sample_chunk("chunk-2")],
            &[],
        )
        .expect("file facts should persist");
    let generation = sample_semantic_generation();
    store
        .upsert_semantic_generation(&generation)
        .expect("generation should persist");
    for chunk_id in ["chunk-1", "chunk-2"] {
        store
            .upsert_quality_embedding_job(&sample_quality_embedding_job_for(
                "generation-1",
                chunk_id,
                "pending",
            ))
            .expect("job should persist");
    }

    let claimed = store
        .claim_quality_embedding_jobs("repo", "generation-1", 1, "500")
        .expect("job should claim");

    assert_eq!(claimed.len(), 1);
    assert_eq!(claimed[0].status, "running");
    assert_eq!(claimed[0].attempts, 1);
    let source_rows = store
        .quality_job_source_rows(&[claimed[0].id.clone()])
        .expect("source row should load");
    assert_eq!(source_rows.len(), 1);
    assert_eq!(source_rows[0].current_file_id.as_deref(), Some("file"));
    assert_eq!(
        source_rows[0].current_text_hash.as_deref(),
        Some("text-chunk-1")
    );
    assert_eq!(source_rows[0].start_byte, Some(0));
    assert_eq!(source_rows[0].end_byte, Some(32));
    assert_eq!(source_rows[0].symbol_name.as_deref(), Some("hello"));
    assert_eq!(
        store
            .quality_jobs_by_status("repo", "generation-1", "pending")
            .expect("pending jobs should load")
            .len(),
        1
    );
}

#[test]
fn quality_worker_completion_updates_embedding_and_failed_generation_progress() {
    let mut store = SqliteStore::open();
    store.migrate().expect("migration should run");
    store
        .upsert_repository(&RepositoryRecord {
            id: "repo".to_owned(),
            root_path: "/tmp/repo".to_owned(),
        })
        .expect("repository should persist");
    store
        .replace_file_facts(
            &sample_file("content-hash"),
            &[],
            &[sample_chunk("chunk-1"), sample_chunk("chunk-2")],
            &[],
        )
        .expect("file facts should persist");
    let mut generation = sample_semantic_generation();
    generation.embeddable_chunks = 2;
    store
        .upsert_semantic_generation(&generation)
        .expect("generation should persist");
    let mut success_job =
        sample_quality_embedding_job_for("generation-1", "chunk-1", "running");
    success_job.attempts = 1;
    let mut failed_job = sample_quality_embedding_job_for("generation-1", "chunk-2", "running");
    failed_job.attempts = 1;
    store
        .upsert_quality_embedding_job(&success_job)
        .expect("success job should persist");
    store
        .upsert_quality_embedding_job(&failed_job)
        .expect("failed job should persist");
    store
        .upsert_chunk_embedding(&sample_chunk_embedding())
        .expect("fast embedding should persist");
    store
        .upsert_chunk_embedding(&ChunkEmbeddingRecord {
            id: "embedding-2".to_owned(),
            chunk_id: "chunk-2".to_owned(),
            text_hash: "text-chunk-2".to_owned(),
            ..sample_chunk_embedding()
        })
        .expect("second fast embedding should persist");

    store
        .complete_quality_embedding_job(
            &success_job.id,
            QualityJobCompletion::Succeeded {
                embedding: Box::new(sample_quality_chunk_embedding("current")),
            },
            "600",
        )
        .expect("success should complete");
    store
        .complete_quality_embedding_job(
            &failed_job.id,
            QualityJobCompletion::Failed {
                error_summary: "service unavailable".to_owned(),
            },
            "601",
        )
        .expect("failure should complete");
    let progress = store
        .refresh_quality_generation_progress("repo", "generation-1", Some(768), "602")
        .expect("progress should refresh");

    assert_eq!(progress.quality_embedded_chunks, 1);
    assert_eq!(progress.succeeded_jobs, 1);
    assert_eq!(progress.failed_jobs, 1);
    assert_eq!(progress.pending_jobs, 0);
    assert_eq!(progress.running_jobs, 0);
    assert_eq!(
        store
            .chunk_embeddings_for_generation("repo", "generation-1", "quality")
            .expect("quality embeddings should load")
            .len(),
        1
    );
    let generation = store
        .latest_semantic_generation("repo")
        .expect("generation should load")
        .expect("generation should exist");
    assert_eq!(generation.quality_status, "quality_failed");
    assert_eq!(generation.quality_dimension, Some(768));
    assert_eq!(generation.quality_embedded_chunks, 1);
    assert_eq!(generation.active_layer, "fast");
}

#[test]
fn quality_generation_progress_counts_current_quality_manifest_rows() {
    let mut store = SqliteStore::open();
    store.migrate().expect("migration should run");
    persist_repo_with_chunks(&mut store, &[sample_chunk("chunk-1")]);
    let mut generation = sample_semantic_generation();
    generation.quality_embedded_chunks = 1;
    store
        .upsert_semantic_generation(&generation)
        .expect("generation should persist");
    store
        .upsert_quality_embedding_job(&sample_quality_embedding_job_for(
            "generation-1",
            "chunk-1",
            "pending",
        ))
        .expect("pending job should persist");
    store
        .upsert_chunk_embedding(&sample_chunk_embedding())
        .expect("fast embedding should persist");

    let progress = store
        .quality_generation_progress("repo", "generation-1")
        .expect("progress should load");

    assert_eq!(progress.quality_embedded_chunks, 0);
    assert_eq!(progress.pending_jobs, 1);
}

#[test]
fn quality_jobs_for_fast_generation_cover_full_fast_manifest() {
    let mut store = SqliteStore::open();
    store.migrate().expect("migration should run");
    persist_repo_with_chunks(
        &mut store,
        &[sample_chunk("chunk-1"), sample_chunk("chunk-2")],
    );
    let mut generation = sample_semantic_generation();
    generation.embeddable_chunks = 2;
    generation.fast_embedded_chunks = 2;
    store
        .upsert_semantic_generation(&generation)
        .expect("generation should persist");
    store
        .upsert_chunk_embedding(&ChunkEmbeddingRecord {
            id: "fast-embedding-1".to_owned(),
            ..sample_chunk_embedding()
        })
        .expect("first fast embedding should persist");
    store
        .upsert_chunk_embedding(&ChunkEmbeddingRecord {
            id: "fast-embedding-2".to_owned(),
            chunk_id: "chunk-2".to_owned(),
            text_hash: "text-chunk-2".to_owned(),
            vector_point_id: "01234567-89ab-cdef-fedc-ba9876543212".to_owned(),
            ..sample_chunk_embedding()
        })
        .expect("second fast embedding should persist");

    let jobs = store
        .quality_embedding_jobs_for_fast_generation(
            "repo",
            "generation-1",
            "mxbai-embed-large",
            "500",
        )
        .expect("quality jobs should load");

    assert_eq!(jobs.len(), 2);
    assert_eq!(jobs[0].chunk_id, "chunk-1");
    assert_eq!(jobs[1].chunk_id, "chunk-2");
    assert!(jobs.iter().all(|job| job.status == "pending"));
    assert!(jobs.iter().all(|job| job.created_at == "500"));
}

#[test]
fn quality_jobs_for_fast_generation_skip_carried_forward_quality_embeddings() {
    let mut store = SqliteStore::open();
    store.migrate().expect("migration should run");
    persist_repo_with_chunks(
        &mut store,
        &[sample_chunk("chunk-1"), sample_chunk("chunk-2")],
    );
    store
        .upsert_semantic_generation(&sample_semantic_generation())
        .expect("old generation should persist");
    store
        .upsert_chunk_embedding(&sample_quality_chunk_embedding("current"))
        .expect("old quality embedding should persist");
    let mut generation = sample_semantic_generation();
    generation.id = "generation-2".to_owned();
    generation.fast_completed_at = "200".to_owned();
    generation.created_at = "200".to_owned();
    generation.updated_at = "200".to_owned();
    generation.embeddable_chunks = 2;
    generation.fast_embedded_chunks = 2;
    store
        .upsert_semantic_generation(&generation)
        .expect("new generation should persist");
    store
        .upsert_chunk_embedding(&ChunkEmbeddingRecord {
            id: "fast-generation-2-chunk-1".to_owned(),
            generation_id: "generation-2".to_owned(),
            ..sample_chunk_embedding()
        })
        .expect("first fast embedding should persist");
    store
        .upsert_chunk_embedding(&ChunkEmbeddingRecord {
            id: "fast-generation-2-chunk-2".to_owned(),
            generation_id: "generation-2".to_owned(),
            chunk_id: "chunk-2".to_owned(),
            text_hash: "text-chunk-2".to_owned(),
            vector_point_id: "01234567-89ab-cdef-fedc-ba9876543212".to_owned(),
            ..sample_chunk_embedding()
        })
        .expect("second fast embedding should persist");

    let carried = store
        .carry_forward_quality_embeddings_for_fast_generation(
            "repo",
            "generation-2",
            "mxbai-embed-large",
        )
        .expect("quality embeddings should carry forward");
    let jobs = store
        .quality_embedding_jobs_for_fast_generation(
            "repo",
            "generation-2",
            "mxbai-embed-large",
            "500",
        )
        .expect("quality jobs should load");
    let progress = store
        .quality_generation_progress("repo", "generation-2")
        .expect("progress should load");

    assert_eq!(carried.carried_embeddings, 1);
    assert_eq!(carried.quality_dimension, Some(768));
    assert_eq!(jobs.len(), 1);
    assert_eq!(jobs[0].chunk_id, "chunk-2");
    assert_eq!(progress.embeddable_chunks, 2);
    assert_eq!(progress.quality_embedded_chunks, 1);
    assert_eq!(
        store
            .chunk_embeddings_for_generation("repo", "generation-2", "quality")
            .expect("carried quality rows should load")
            .len(),
        1
    );
}

#[test]
fn quality_activation_marks_complete_generation_ready_and_active() {
    let mut store = SqliteStore::open();
    store.migrate().expect("migration should run");
    persist_repo_with_chunks(&mut store, &[sample_chunk("chunk-1")]);
    store
        .upsert_semantic_generation(&sample_semantic_generation())
        .expect("generation should persist");
    store
        .upsert_chunk_embedding(&sample_quality_chunk_embedding("current"))
        .expect("quality embedding should persist");
    store
        .upsert_chunk_embedding(&sample_chunk_embedding())
        .expect("fast embedding should persist");

    let summary = store
        .refresh_quality_activation("repo", "generation-1", Some(768), "700")
        .expect("activation should refresh");

    assert_eq!(summary.quality_status, SemanticLayerStatus::QualityReady);
    assert_eq!(summary.active_layer, SemanticLayer::Quality);
    assert_eq!(summary.reason, QualityActivationReason::QualityComplete);
    assert_eq!(summary.progress.quality_embedded_chunks, 1);
    let generation = store
        .latest_semantic_generation("repo")
        .expect("generation should load")
        .expect("generation should exist");
    assert_eq!(generation.quality_status, "quality_ready");
    assert_eq!(generation.active_layer, "quality");
    assert_eq!(generation.quality_completed_at, Some("700".to_owned()));
}

#[test]
fn quality_activation_keeps_pending_jobs_on_fast_layer() {
    let mut store = SqliteStore::open();
    store.migrate().expect("migration should run");
    persist_repo_with_chunks(&mut store, &[sample_chunk("chunk-1")]);
    store
        .upsert_semantic_generation(&sample_semantic_generation())
        .expect("generation should persist");
    store
        .upsert_quality_embedding_job(&sample_quality_embedding_job_for(
            "generation-1",
            "chunk-1",
            "pending",
        ))
        .expect("job should persist");
    store
        .upsert_chunk_embedding(&sample_chunk_embedding())
        .expect("fast embedding should persist");

    let summary = store
        .refresh_quality_activation("repo", "generation-1", Some(768), "700")
        .expect("activation should refresh");

    assert_eq!(summary.quality_status, SemanticLayerStatus::QualityPending);
    assert_eq!(summary.active_layer, SemanticLayer::Fast);
    assert_eq!(summary.reason, QualityActivationReason::QualityJobsPending);
    assert_eq!(summary.progress.pending_jobs, 1);
    let generation = store
        .latest_semantic_generation("repo")
        .expect("generation should load")
        .expect("generation should exist");
    assert_eq!(generation.quality_status, "quality_pending");
    assert_eq!(generation.active_layer, "fast");
    assert_eq!(generation.quality_completed_at, None);
}

#[test]
fn quality_activation_keeps_incomplete_coverage_on_fast_layer() {
    let mut store = SqliteStore::open();
    store.migrate().expect("migration should run");
    persist_repo_with_chunks(
        &mut store,
        &[sample_chunk("chunk-1"), sample_chunk("chunk-2")],
    );
    let mut generation = sample_semantic_generation();
    generation.embeddable_chunks = 2;
    store
        .upsert_semantic_generation(&generation)
        .expect("generation should persist");
    store
        .upsert_chunk_embedding(&sample_quality_chunk_embedding("current"))
        .expect("quality embedding should persist");
    store
        .upsert_chunk_embedding(&sample_chunk_embedding())
        .expect("fast embedding should persist");

    let summary = store
        .refresh_quality_activation("repo", "generation-1", Some(768), "700")
        .expect("activation should refresh");

    assert_eq!(summary.quality_status, SemanticLayerStatus::QualityPending);
    assert_eq!(summary.active_layer, SemanticLayer::Fast);
    assert_eq!(
        summary.reason,
        QualityActivationReason::QualityCoverageIncomplete
    );
    assert_eq!(summary.progress.quality_embedded_chunks, 1);
}

#[test]
fn quality_activation_treats_skipped_excluded_jobs_as_complete_coverage() {
    let mut store = SqliteStore::open();
    store.migrate().expect("migration should run");
    persist_repo_with_chunks(
        &mut store,
        &[sample_chunk("chunk-1"), sample_chunk("chunk-2")],
    );
    let mut generation = sample_semantic_generation();
    generation.embeddable_chunks = 2;
    store
        .upsert_semantic_generation(&generation)
        .expect("generation should persist");
    store
        .upsert_chunk_embedding(&sample_quality_chunk_embedding("current"))
        .expect("quality embedding should persist");
    store
        .upsert_chunk_embedding(&sample_chunk_embedding())
        .expect("fast embedding should persist");
    store
        .upsert_chunk_embedding(&ChunkEmbeddingRecord {
            id: "embedding-2".to_owned(),
            chunk_id: "chunk-2".to_owned(),
            text_hash: "text-chunk-2".to_owned(),
            ..sample_chunk_embedding()
        })
        .expect("second fast embedding should persist");
    store
        .upsert_quality_embedding_job(&sample_quality_embedding_job_for(
            "generation-1",
            "chunk-2",
            "skipped_excluded",
        ))
        .expect("excluded job should persist");

    let summary = store
        .refresh_quality_activation("repo", "generation-1", Some(768), "700")
        .expect("activation should refresh");

    assert_eq!(summary.quality_status, SemanticLayerStatus::QualityReady);
    assert_eq!(summary.active_layer, SemanticLayer::Quality);
    assert_eq!(summary.reason, QualityActivationReason::QualityComplete);
    assert_eq!(summary.progress.embeddable_chunks, 2);
    assert_eq!(summary.progress.quality_eligible_chunks, 1);
    assert_eq!(summary.progress.quality_ineligible_chunks, 1);
    assert_eq!(summary.progress.quality_embedded_chunks, 1);

    let routing = store
        .semantic_routing_summary("repo")
        .expect("routing summary should load")
        .expect("routing summary should exist");
    let quality = routing.quality.expect("quality manifest should exist");
    assert_eq!(quality.expected_chunks, 1);
    assert_eq!(quality.current_chunks, 1);
    assert!(quality.is_complete);
}

#[test]
fn quality_activation_marks_failed_jobs_failed_and_uses_fast_layer() {
    let mut store = SqliteStore::open();
    store.migrate().expect("migration should run");
    persist_repo_with_chunks(&mut store, &[sample_chunk("chunk-1")]);
    store
        .upsert_semantic_generation(&sample_semantic_generation())
        .expect("generation should persist");
    store
        .upsert_quality_embedding_job(&sample_quality_embedding_job_for(
            "generation-1",
            "chunk-1",
            "failed",
        ))
        .expect("job should persist");
    store
        .upsert_chunk_embedding(&sample_chunk_embedding())
        .expect("fast embedding should persist");

    let summary = store
        .refresh_quality_activation("repo", "generation-1", Some(768), "700")
        .expect("activation should refresh");

    assert_eq!(summary.quality_status, SemanticLayerStatus::QualityFailed);
    assert_eq!(summary.active_layer, SemanticLayer::Fast);
    assert_eq!(summary.reason, QualityActivationReason::QualityJobsFailed);
    assert_eq!(summary.progress.failed_jobs, 1);
}

#[test]
fn quality_activation_keeps_skipped_stale_jobs_pending_and_fast() {
    let mut store = SqliteStore::open();
    store.migrate().expect("migration should run");
    persist_repo_with_chunks(&mut store, &[sample_chunk("chunk-1")]);
    store
        .upsert_semantic_generation(&sample_semantic_generation())
        .expect("generation should persist");
    store
        .upsert_chunk_embedding(&sample_quality_chunk_embedding("current"))
        .expect("quality embedding should persist");
    store
        .upsert_chunk_embedding(&sample_chunk_embedding())
        .expect("fast embedding should persist");
    store
        .upsert_quality_embedding_job(&sample_quality_embedding_job_for(
            "generation-1",
            "chunk-1",
            "skipped_stale",
        ))
        .expect("job should persist");

    let summary = store
        .refresh_quality_activation("repo", "generation-1", Some(768), "700")
        .expect("activation should refresh");

    assert_eq!(summary.quality_status, SemanticLayerStatus::QualityPending);
    assert_eq!(summary.active_layer, SemanticLayer::Fast);
    assert_eq!(summary.reason, QualityActivationReason::QualityJobsStale);
    assert_eq!(summary.progress.skipped_stale_jobs, 1);
    let generation = store
        .latest_semantic_generation("repo")
        .expect("generation should load")
        .expect("generation should exist");
    assert_eq!(generation.quality_status, "quality_pending");
    assert_eq!(generation.active_layer, "fast");
}

#[test]
fn quality_activation_preserves_blocked_status_until_complete() {
    let mut store = SqliteStore::open();
    store.migrate().expect("migration should run");
    persist_repo_with_chunks(&mut store, &[sample_chunk("chunk-1")]);
    let mut generation = sample_semantic_generation();
    generation.quality_status = "quality_blocked".to_owned();
    store
        .upsert_semantic_generation(&generation)
        .expect("generation should persist");

    let summary = store
        .refresh_quality_activation("repo", "generation-1", Some(768), "700")
        .expect("activation should refresh");

    assert_eq!(summary.quality_status, SemanticLayerStatus::QualityBlocked);
    assert_eq!(summary.active_layer, SemanticLayer::Fast);
    assert_eq!(summary.reason, QualityActivationReason::QualityBlocked);
}

#[test]
fn quality_activation_does_not_activate_superseded_generation() {
    let mut store = SqliteStore::open();
    store.migrate().expect("migration should run");
    persist_repo_with_chunks(&mut store, &[sample_chunk("chunk-1")]);
    store
        .upsert_semantic_generation(&sample_semantic_generation())
        .expect("generation should persist");
    let mut latest_generation = sample_semantic_generation();
    latest_generation.id = "generation-2".to_owned();
    latest_generation.created_at = "200".to_owned();
    latest_generation.updated_at = "200".to_owned();
    store
        .upsert_semantic_generation(&latest_generation)
        .expect("latest generation should persist");
    store
        .upsert_chunk_embedding(&sample_quality_chunk_embedding("current"))
        .expect("quality embedding should persist");

    let summary = store
        .refresh_quality_activation("repo", "generation-1", Some(768), "700")
        .expect("activation should refresh");

    assert_eq!(summary.quality_status, SemanticLayerStatus::QualityPending);
    assert_eq!(summary.active_layer, SemanticLayer::Fast);
    assert_eq!(summary.reason, QualityActivationReason::GenerationNotLatest);
}

#[test]
fn unchanged_fast_generation_preserves_ready_quality_activation() {
    let mut store = SqliteStore::open();
    store.migrate().expect("migration should run");
    persist_repo_with_chunks(&mut store, &[sample_chunk("chunk-1")]);
    let fast_manifest = sample_fast_manifest(&["chunk-1"], "content-hash");
    let generation = store
        .record_fast_semantic_generation(FastSemanticGenerationInput {
            repository_id: "repo",
            repository_ref_id: None,
            fast_model: "nomic-embed-text",
            fast_dimension: 768,
            vector_table: "mxbai-embed-large",
            upserted_embeddings: &fast_manifest,
            files_seen: 1,
            completed_at: "100",
        })
        .expect("generation should be recorded");
    let mut quality_generation = generation.clone();
    quality_generation.quality_model = Some("mxbai-embed-large".to_owned());
    quality_generation.quality_dimension = Some(768);
    quality_generation.quality_status = "quality_pending".to_owned();
    store
        .upsert_semantic_generation(&quality_generation)
        .expect("quality generation should persist");
    store
        .upsert_chunk_embedding(&ChunkEmbeddingRecord {
            generation_id: generation.id.clone(),
            ..sample_quality_chunk_embedding("current")
        })
        .expect("quality embedding should persist");
    store
        .refresh_quality_activation("repo", &generation.id, Some(768), "700")
        .expect("quality should activate");

    let unchanged = store
        .record_fast_semantic_generation(FastSemanticGenerationInput {
            repository_id: "repo",
            repository_ref_id: None,
            fast_model: "nomic-embed-text",
            fast_dimension: 768,
            vector_table: "mxbai-embed-large",
            upserted_embeddings: &fast_manifest,
            files_seen: 1,
            completed_at: "800",
        })
        .expect("unchanged generation should be preserved");

    assert_eq!(unchanged.id, generation.id);
    assert_eq!(unchanged.quality_status, "quality_ready");
    assert_eq!(unchanged.active_layer, "quality");
    assert_eq!(unchanged.quality_completed_at, Some("700".to_owned()));
    assert_eq!(unchanged.quality_embedded_chunks, 1);
}

#[test]
fn semantic_routing_summary_is_empty_without_generation() {
    let store = SqliteStore::open();
    store.migrate().expect("migration should run");

    assert_eq!(
        store
            .semantic_routing_summary("repo")
            .expect("routing summary should load"),
        None
    );
}

#[test]
fn semantic_routing_summary_reports_fast_ready_manifest() {
    let mut store = SqliteStore::open();
    store.migrate().expect("migration should run");
    store
        .upsert_repository(&RepositoryRecord {
            id: "repo".to_owned(),
            root_path: "/tmp/repo".to_owned(),
        })
        .expect("repository should persist");
    store
        .replace_file_facts(
            &sample_file("content-hash"),
            &[],
            &[sample_chunk("chunk-1")],
            &[],
        )
        .expect("file facts should persist");
    let mut generation = sample_semantic_generation();
    generation.quality_model = None;
    generation.quality_dimension = None;
    generation.quality_status = "fast_ready".to_owned();
    store
        .upsert_semantic_generation(&generation)
        .expect("generation should persist");
    store
        .upsert_chunk_embedding(&sample_chunk_embedding())
        .expect("fast embedding should persist");

    let summary = store
        .semantic_routing_summary("repo")
        .expect("routing summary should load")
        .expect("routing summary should exist");

    assert_eq!(summary.active_layer, SemanticLayer::Fast);
    assert_eq!(summary.quality_status, SemanticLayerStatus::FastReady);
    assert_eq!(summary.fast.embedding_model, "nomic-embed-text");
    assert_eq!(summary.fast.current_chunks, 1);
    assert_eq!(summary.fast.expected_chunks, 1);
    assert!(summary.fast.is_complete);
    assert_eq!(summary.quality, None);
}

#[test]
fn semantic_routing_summary_reports_ready_quality_manifest() {
    let mut store = SqliteStore::open();
    store.migrate().expect("migration should run");
    store
        .upsert_repository(&RepositoryRecord {
            id: "repo".to_owned(),
            root_path: "/tmp/repo".to_owned(),
        })
        .expect("repository should persist");
    store
        .replace_file_facts(
            &sample_file("content-hash"),
            &[],
            &[sample_chunk("chunk-1")],
            &[],
        )
        .expect("file facts should persist");
    let mut generation = sample_semantic_generation();
    generation.quality_status = "quality_ready".to_owned();
    generation.active_layer = "quality".to_owned();
    generation.quality_embedded_chunks = 1;
    store
        .upsert_semantic_generation(&generation)
        .expect("generation should persist");
    store
        .upsert_chunk_embedding(&sample_chunk_embedding())
        .expect("fast embedding should persist");
    store
        .upsert_chunk_embedding(&sample_quality_chunk_embedding("current"))
        .expect("quality embedding should persist");

    let summary = store
        .semantic_routing_summary("repo")
        .expect("routing summary should load")
        .expect("routing summary should exist");

    let quality = summary.quality.expect("quality summary should exist");
    assert_eq!(summary.active_layer, SemanticLayer::Quality);
    assert_eq!(summary.quality_status, SemanticLayerStatus::QualityReady);
    assert_eq!(quality.embedding_model, "mxbai-embed-large");
    assert_eq!(quality.vector_table, "symdex_repo_nomic_embed_text_v2_moe");
    assert_eq!(quality.current_chunks, 1);
    assert!(quality.is_complete);
}

#[test]
fn semantic_routing_summary_reports_incomplete_quality_manifest() {
    let mut store = SqliteStore::open();
    store.migrate().expect("migration should run");
    store
        .upsert_repository(&RepositoryRecord {
            id: "repo".to_owned(),
            root_path: "/tmp/repo".to_owned(),
        })
        .expect("repository should persist");
    store
        .replace_file_facts(
            &sample_file("content-hash"),
            &[],
            &[sample_chunk("chunk-1")],
            &[],
        )
        .expect("file facts should persist");
    let mut generation = sample_semantic_generation();
    generation.quality_status = "quality_stale".to_owned();
    generation.quality_embedded_chunks = 1;
    store
        .upsert_semantic_generation(&generation)
        .expect("generation should persist");
    store
        .upsert_chunk_embedding(&sample_chunk_embedding())
        .expect("fast embedding should persist");
    store
        .upsert_chunk_embedding(&sample_quality_chunk_embedding("stale"))
        .expect("quality embedding should persist");

    let summary = store
        .semantic_routing_summary("repo")
        .expect("routing summary should load")
        .expect("routing summary should exist");

    let quality = summary.quality.expect("quality summary should exist");
    assert_eq!(summary.quality_status, SemanticLayerStatus::QualityStale);
    assert_eq!(quality.current_chunks, 0);
    assert_eq!(quality.stale_chunks, 1);
    assert!(!quality.is_complete);
}

#[test]
fn sqlite_records_fast_semantic_generation_from_layered_manifest() {
    let mut store = SqliteStore::open();
    store.migrate().expect("migration should run");
    store
        .upsert_repository(&RepositoryRecord {
            id: "repo".to_owned(),
            root_path: "/tmp/repo".to_owned(),
        })
        .expect("repository should persist");
    store
        .replace_file_facts(
            &sample_file("content-hash"),
            &[],
            &[sample_chunk("chunk-1"), sample_chunk("chunk-2")],
            &[],
        )
        .expect("file facts should persist");
    let fast_manifest = sample_fast_manifest(&["chunk-1", "chunk-2"], "content-hash");

    let generation = store
        .record_fast_semantic_generation(FastSemanticGenerationInput {
            repository_id: "repo",
            repository_ref_id: None,
            fast_model: "nomic-embed-text",
            fast_dimension: 768,
            vector_table: "symdex_repo_nomic_embed_text",
            upserted_embeddings: &fast_manifest,
            files_seen: 1,
            completed_at: "200",
        })
        .expect("fast generation should persist");

    assert_eq!(generation.quality_status, "fast_ready");
    assert_eq!(generation.active_layer, "fast");
    assert_eq!(generation.fast_model, "nomic-embed-text");
    assert_eq!(generation.fast_dimension, 768);
    assert_eq!(generation.embeddable_chunks, 2);
    assert_eq!(generation.fast_embedded_chunks, 2);
    assert_eq!(generation.quality_embedded_chunks, 0);
    assert_eq!(
        store
            .latest_semantic_generation("repo")
            .expect("latest generation should load")
            .map(|generation| generation.id),
        Some(generation.id.clone())
    );

    let embeddings = store
        .chunk_embeddings_for_generation("repo", &generation.id, "fast")
        .expect("fast manifest should load");
    assert_eq!(embeddings.len(), 2);
    assert!(
        embeddings
            .iter()
            .all(|embedding| embedding.generation_id == generation.id)
    );
    assert!(embeddings.iter().all(|embedding| {
        embedding.semantic_layer == "fast"
            && embedding.embedding_model == "nomic-embed-text"
            && embedding.embedding_dimension == 768
            && embedding.content_hash == "content-hash"
            && embedding.status == "current"
            && !embedding.vector_point_id.is_empty()
    }));
}

#[test]
fn fast_semantic_generation_scopes_carried_embeddings_to_repository_ref() {
    let mut store = SqliteStore::open();
    store.migrate().expect("migration should run");
    store
        .upsert_repository(&RepositoryRecord {
            id: "repo".to_owned(),
            root_path: "/tmp/repo".to_owned(),
        })
        .expect("repository should persist");
    let repository_ref = RepositoryRefSnapshot {
        id: stable_id(&["repository-ref", "repo", "branch", "main"]),
        repository_id: "repo".to_owned(),
        kind: RepositoryRefKind::Branch,
        name: Some("main".to_owned()),
        head_oid: Some("0123456789abcdef0123456789abcdef01234567".to_owned()),
        local_branches: vec!["main".to_owned()],
    };
    store
        .sync_repository_ref(&repository_ref)
        .expect("repository ref should sync");
    store
        .upsert_semantic_generation(&sample_semantic_generation())
        .expect("seed generation should persist");

    let old_file = sample_file_at("old-file", "src/lib.rs", "old-content-hash");
    let mut old_chunk = sample_chunk("old-chunk");
    old_chunk.file_id = old_file.id.clone();
    old_chunk.text_hash = "old-text-hash".to_owned();
    store
        .replace_file_facts_for_ref_with_tests(
            &repository_ref.id,
            &old_file,
            &[],
            &[old_chunk.clone()],
            &[],
            &[],
        )
        .expect("old ref file facts should persist");
    store
        .upsert_chunk_embedding(&ChunkEmbeddingRecord {
            id: "old-fast-embedding".to_owned(),
            file_id: old_file.id.clone(),
            chunk_id: old_chunk.id.clone(),
            content_hash: old_file.content_hash.clone(),
            text_hash: old_chunk.text_hash.clone(),
            vector_point_id: "old-point".to_owned(),
            ..sample_chunk_embedding()
        })
        .expect("old fast embedding should persist");

    let current_file = sample_file_at("current-file", "src/lib.rs", "current-content-hash");
    let mut current_chunk = sample_chunk("current-chunk");
    current_chunk.file_id = current_file.id.clone();
    current_chunk.text_hash = "current-text-hash".to_owned();
    store
        .replace_file_facts_for_ref_with_tests(
            &repository_ref.id,
            &current_file,
            &[],
            &[current_chunk.clone()],
            &[],
            &[],
        )
        .expect("current ref file facts should persist");
    store
        .upsert_chunk_embedding(&ChunkEmbeddingRecord {
            id: "current-fast-embedding".to_owned(),
            file_id: current_file.id.clone(),
            chunk_id: current_chunk.id.clone(),
            content_hash: current_file.content_hash.clone(),
            text_hash: current_chunk.text_hash.clone(),
            vector_point_id: "current-point".to_owned(),
            ..sample_chunk_embedding()
        })
        .expect("current fast embedding should persist");

    let generation = store
        .record_fast_semantic_generation(FastSemanticGenerationInput {
            repository_id: "repo",
            repository_ref_id: Some(&repository_ref.id),
            fast_model: "nomic-embed-text",
            fast_dimension: 768,
            vector_table: "symdex_repo_nomic_embed_text",
            upserted_embeddings: &vec![],
            files_seen: 1,
            completed_at: "200",
        })
        .expect("ref-scoped generation should persist");

    let embeddings = store
        .chunk_embeddings_for_generation("repo", &generation.id, "fast")
        .expect("fast manifest should load");
    assert_eq!(embeddings.len(), 1);
    assert_eq!(embeddings[0].file_id, current_file.id);
    assert_eq!(embeddings[0].chunk_id, current_chunk.id);
    assert_eq!(generation.embeddable_chunks, 1);
}

#[test]
fn sqlite_fast_semantic_generation_ids_are_manifest_stable() {
    let mut store = SqliteStore::open();
    store.migrate().expect("migration should run");
    store
        .upsert_repository(&RepositoryRecord {
            id: "repo".to_owned(),
            root_path: "/tmp/repo".to_owned(),
        })
        .expect("repository should persist");
    store
        .replace_file_facts(
            &sample_file("content-hash"),
            &[],
            &[sample_chunk("chunk-1")],
            &[],
        )
        .expect("file facts should persist");
    let first_manifest = sample_fast_manifest(&["chunk-1"], "content-hash");

    let first = store
        .record_fast_semantic_generation(FastSemanticGenerationInput {
            repository_id: "repo",
            repository_ref_id: None,
            fast_model: "nomic-embed-text",
            fast_dimension: 768,
            vector_table: "symdex_repo_nomic_embed_text",
            upserted_embeddings: &first_manifest,
            files_seen: 1,
            completed_at: "200",
        })
        .expect("first generation should persist");
    let second = store
        .record_fast_semantic_generation(FastSemanticGenerationInput {
            repository_id: "repo",
            repository_ref_id: None,
            fast_model: "nomic-embed-text",
            fast_dimension: 768,
            vector_table: "symdex_repo_nomic_embed_text",
            upserted_embeddings: &first_manifest,
            files_seen: 1,
            completed_at: "201",
        })
        .expect("same generation should persist idempotently");
    assert_eq!(first.id, second.id);
    assert_eq!(
        store
            .chunk_embeddings_for_generation("repo", &first.id, "fast")
            .expect("fast manifest should load")
            .len(),
        1
    );

    store
        .replace_file_facts(
            &sample_file("content-hash-2"),
            &[],
            &[sample_chunk("chunk-1")],
            &[],
        )
        .expect("changed file facts should persist");
    let changed_manifest = sample_fast_manifest(&["chunk-1"], "content-hash-2");
    let changed = store
        .record_fast_semantic_generation(FastSemanticGenerationInput {
            repository_id: "repo",
            repository_ref_id: None,
            fast_model: "nomic-embed-text",
            fast_dimension: 768,
            vector_table: "symdex_repo_nomic_embed_text",
            upserted_embeddings: &changed_manifest,
            files_seen: 1,
            completed_at: "202",
        })
        .expect("changed generation should persist");

    assert_ne!(first.id, changed.id);
    assert_eq!(
        store
            .latest_semantic_generation("repo")
            .expect("latest generation should load")
            .map(|generation| generation.id),
        Some(changed.id)
    );
}

#[test]
fn sqlite_migration_creates_provenance_columns() {
    let store = SqliteStore::open();
    store.migrate().expect("migration should run");

    for (table, column) in [
        ("index_runs", "parser_version"),
        ("index_runs", "indexer_version"),
        ("index_runs", "run_kind"),
        ("files", "index_run_id"),
        ("files", "parser_version"),
        ("symbols", "index_run_id"),
        ("symbols", "parser_version"),
        ("chunks", "index_run_id"),
        ("chunks", "parser_version"),
        ("chunks", "embedding_model"),
        ("chunks", "embedding_dimension"),
        ("chunks", "embedded_at"),
        ("calls", "index_run_id"),
        ("calls", "parser_version"),
        ("tests", "repository_id"),
        ("tests", "symbol_id"),
        ("tests", "qualified_name"),
        ("tests", "framework"),
        ("tests", "parser_version"),
    ] {
        assert!(
            store
                .column_exists(table, column)
                .expect("column check should run"),
            "missing {table}.{column}"
        );
    }
}

#[test]
fn sqlite_replaces_chunks_and_removes_deleted_files() {
    let mut store = SqliteStore::open();
    store.migrate().expect("migration should run");
    store
        .upsert_repository(&RepositoryRecord {
            id: "repo".to_owned(),
            root_path: "/tmp/repo".to_owned(),
        })
        .expect("repository should persist");
    store
        .replace_file_facts(&sample_file("hash-1"), &[], &[sample_chunk("chunk-1")], &[])
        .expect("initial chunks should persist");
    store
        .replace_file_facts(
            &sample_file("hash-2"),
            &[],
            &[sample_chunk("chunk-2"), sample_chunk("chunk-3")],
            &[],
        )
        .expect("replacement chunks should persist");

    let status = store.repository_status("repo").expect("status should load");
    assert_eq!(status.files_indexed, 1);
    assert_eq!(status.chunks_indexed, 2);
    assert!(
        !store
            .file_unchanged("repo", "file", "src/lib.rs", "hash-1", "parser")
            .expect("unchanged check should run")
    );

    let removed = store
        .remove_missing_files("repo", &[])
        .expect("cleanup should run");
    assert_eq!(removed, 1);
    let status = store.repository_status("repo").expect("status should load");
    assert_eq!(status.files_indexed, 0);
    assert_eq!(status.chunks_indexed, 0);
}

#[test]
fn sqlite_persists_replaces_and_queries_tests() {
    let mut store = SqliteStore::open();
    store.migrate().expect("migration should run");
    store
        .upsert_repository(&RepositoryRecord {
            id: "repo".to_owned(),
            root_path: "/tmp/repo".to_owned(),
        })
        .expect("repository should persist");
    let symbols = vec![
        sample_symbol("target-symbol", "target", "target"),
        sample_symbol("test-symbol", "covers_target", "tests::covers_target"),
    ];
    let calls = vec![sample_call(
        "call-test-target",
        "test-symbol",
        "target",
        Some("target-symbol"),
        8,
    )];
    let tests = vec![sample_test("test-1", "test-symbol", "tests::covers_target")];
    store
        .replace_file_facts_with_tests(&sample_file("hash-1"), &symbols, &[], &calls, &tests)
        .expect("test facts should persist");

    let matched = store
        .tests_matching_name("repo", "tests::covers_target")
        .expect("test lookup should run");
    assert_eq!(matched.len(), 1);
    assert_eq!(matched[0].framework, "rust_test");
    let likely = store
        .likely_tests_for_symbol("repo", "target")
        .expect("likely tests should load");
    assert_eq!(likely.len(), 1);
    assert_eq!(likely[0].qualified_name, "tests::covers_target");

    store
        .replace_file_facts_with_tests(&sample_file("hash-2"), &symbols[..1], &[], &[], &[])
        .expect("replacement should remove tests");
    assert!(
        store
            .likely_tests_for_symbol("repo", "target")
            .expect("likely tests should load")
            .is_empty()
    );
}

#[test]
fn sqlite_persists_metadata_only_non_rust_tests_without_likely_claims() {
    let mut store = SqliteStore::open();
    store.migrate().expect("migration should run");
    store
        .upsert_repository(&RepositoryRecord {
            id: "repo".to_owned(),
            root_path: "/tmp/repo".to_owned(),
        })
        .expect("repository should persist");
    let symbols = vec![sample_symbol("target-symbol", "target", "target")];
    let tests = vec![sample_metadata_test(
        "test-js-inline",
        "inline works",
        "src::math.test::math::inline works",
    )];
    store
        .replace_file_facts_with_tests(&sample_file("hash-1"), &symbols, &[], &[], &tests)
        .expect("metadata-only test facts should persist");

    let matched = store
        .tests_matching_name("repo", "inline works")
        .expect("test lookup should run");
    assert_eq!(matched.len(), 1);
    assert_eq!(matched[0].framework, "jest");
    assert_eq!(matched[0].language, "javascript");
    assert!(
        store
            .likely_tests_for_symbol("repo", "target")
            .expect("likely tests should load")
            .is_empty()
    );
}

#[test]
fn sqlite_collects_layered_vector_point_ids_before_replacement_and_deletion() {
    let mut store = SqliteStore::open();
    store.migrate().expect("migration should run");
    store
        .upsert_repository(&RepositoryRecord {
            id: "repo".to_owned(),
            root_path: "/tmp/repo".to_owned(),
        })
        .expect("repository should persist");

    let mut other_file = sample_file("hash-other");
    other_file.id = "other-file".to_owned();
    other_file.path = "src/other.rs".to_owned();
    let mut other_chunk = sample_chunk("other-chunk");
    other_chunk.file_id = "other-file".to_owned();
    other_chunk.vector_point_id = Some("11111111-1111-1111-1111-111111111111".to_owned());

    store
        .replace_file_facts(&sample_file("hash-1"), &[], &[sample_chunk("chunk-1")], &[])
        .expect("file chunks should persist");
    store
        .replace_file_facts(&other_file, &[], &[other_chunk], &[])
        .expect("other file chunks should persist");
    store
        .upsert_semantic_generation(&sample_semantic_generation())
        .expect("generation should persist");
    store
        .upsert_chunk_embedding(&sample_chunk_embedding())
        .expect("lib embedding should persist");
    store
        .upsert_chunk_embedding(&ChunkEmbeddingRecord {
            id: "embedding-other".to_owned(),
            file_id: "other-file".to_owned(),
            chunk_id: "other-chunk".to_owned(),
            content_hash: "hash-other".to_owned(),
            text_hash: "text-other-chunk".to_owned(),
            vector_point_id: "11111111-1111-1111-1111-111111111111".to_owned(),
            ..sample_chunk_embedding()
        })
        .expect("other embedding should persist");

    let replaced = store
        .vector_point_ids_for_latest_generation_layer_paths(
            "repo",
            SemanticLayer::Fast,
            &["src/lib.rs".to_owned()],
        )
        .expect("point ids should load");
    assert_eq!(replaced, vec!["01234567-89ab-cdef-fedc-ba9876543210"]);

    let missing = store
        .vector_point_ids_for_latest_generation_layer_missing_files(
            "repo",
            SemanticLayer::Fast,
            &["src/lib.rs".to_owned()],
        )
        .expect("missing point ids should load");
    assert_eq!(missing, vec!["11111111-1111-1111-1111-111111111111"]);
}

#[test]
fn sqlite_builds_layered_expected_vector_point_manifest() {
    let mut store = SqliteStore::open();
    store.migrate().expect("migration should run");
    store
        .upsert_repository(&RepositoryRecord {
            id: "repo".to_owned(),
            root_path: "/tmp/repo".to_owned(),
        })
        .expect("repository should persist");
    store
        .replace_file_facts(
            &sample_file("content-hash"),
            &[],
            &[sample_chunk("chunk-1")],
            &[],
        )
        .expect("facts should persist");
    store
        .upsert_semantic_generation(&sample_semantic_generation())
        .expect("generation should persist");
    store
        .upsert_chunk_embedding(&sample_chunk_embedding())
        .expect("fast embedding should persist");
    store
        .upsert_chunk_embedding(&sample_quality_chunk_embedding("current"))
        .expect("quality embedding should persist");

    let fast = store
        .expected_vector_points_for_generation_layer(
            "repo",
            "generation-1",
            SemanticLayer::Fast,
        )
        .expect("fast manifest should load");
    let quality = store
        .expected_vector_points_for_generation_layer(
            "repo",
            "generation-1",
            SemanticLayer::Quality,
        )
        .expect("quality manifest should load");

    assert_eq!(fast.len(), 1);
    assert_eq!(fast[0].embedding_model.as_deref(), Some("nomic-embed-text"));
    assert_eq!(quality.len(), 1);
    assert_eq!(
        quality[0].embedding_model.as_deref(),
        Some("mxbai-embed-large")
    );
    assert_eq!(
        quality[0].vector_point_id,
        "01234567-89ab-cdef-fedc-ba9876543211"
    );
}

#[test]
fn sqlite_layered_vector_manifest_uses_current_embeddings_only() {
    let mut store = SqliteStore::open();
    store.migrate().expect("migration should run");
    store
        .upsert_repository(&RepositoryRecord {
            id: "repo".to_owned(),
            root_path: "/tmp/repo".to_owned(),
        })
        .expect("repository should persist");
    store
        .replace_file_facts(
            &sample_file("content-hash"),
            &[],
            &[sample_chunk("chunk-1")],
            &[],
        )
        .expect("facts should persist");
    store
        .upsert_semantic_generation(&sample_semantic_generation())
        .expect("generation should persist");
    store
        .upsert_chunk_embedding(&sample_quality_chunk_embedding("stale"))
        .expect("stale quality embedding should persist");

    let quality = store
        .expected_vector_points_for_generation_layer(
            "repo",
            "generation-1",
            SemanticLayer::Quality,
        )
        .expect("quality manifest should load");

    assert!(quality.is_empty());
}

#[test]
fn sqlite_persists_index_provenance_metadata() {
    let mut store = SqliteStore::open();
    store.migrate().expect("migration should run");
    store
        .upsert_repository(&RepositoryRecord {
            id: "repo".to_owned(),
            root_path: "/tmp/repo".to_owned(),
        })
        .expect("repository should persist");

    let symbols = vec![sample_symbol("symbol", "caller", "caller")];
    let calls = vec![CallRecord {
        id: "call-1".to_owned(),
        caller_symbol_id: "symbol".to_owned(),
        callee_text: "helper".to_owned(),
        callee_symbol_id: None,
        call_line: 4,
        confidence: number(0.25),
        resolution_status: "unresolved".to_owned(),
        index_run_id: "run".to_owned(),
        parser_version: "parser".to_owned(),
    }];
    store
        .replace_file_facts(
            &sample_file("hash-1"),
            &symbols,
            &[sample_chunk("chunk-1")],
            &calls,
        )
        .expect("facts should persist");
    store
        .record_index_run(&sample_index_run("nomic-embed-text", 768))
        .expect("index run should persist");

    let file_provenance: (String, String) = store
        .connection
        .query_row(
            "SELECT index_run_id, parser_version FROM files WHERE id = 'file'",
            [],
            |row| Ok((row.get(0)?, row.get(1)?)),
        )
        .expect("file provenance should load");
    assert_eq!(file_provenance, ("run".to_owned(), "parser".to_owned()));

    let chunk_provenance: (String, String, Option<String>, Option<i64>, Option<String>) = store
        .connection
        .query_row(
            "SELECT index_run_id, parser_version, embedding_model,
                    embedding_dimension, embedded_at
             FROM chunks
             WHERE id = 'chunk-1'",
            [],
            |row| {
                Ok((
                    row.get(0)?,
                    row.get(1)?,
                    row.get(2)?,
                    row.get(3)?,
                    row.get(4)?,
                ))
            },
        )
        .expect("chunk provenance should load");
    assert_eq!(chunk_provenance.0, "run");
    assert_eq!(chunk_provenance.1, "parser");
    assert_eq!(chunk_provenance.2, None);
    assert_eq!(chunk_provenance.3, None);
    assert_eq!(chunk_provenance.4, None);

    let symbol_provenance: (String, String) = store
        .connection
        .query_row(
            "SELECT index_run_id, parser_version FROM symbols WHERE id = 'symbol'",
            [],
            |row| Ok((row.get(0)?, row.get(1)?)),
        )
        .expect("symbol provenance should load");
    assert_eq!(symbol_provenance, ("run".to_owned(), "parser".to_owned()));

    let call_provenance: (String, String) = store
        .connection
        .query_row(
            "SELECT index_run_id, parser_version FROM calls WHERE id = 'call-1'",
            [],
            |row| Ok((row.get(0)?, row.get(1)?)),
        )
        .expect("call provenance should load");
    assert_eq!(call_provenance, ("run".to_owned(), "parser".to_owned()));

    let run_provenance: (String, String, String) = store
        .connection
        .query_row(
            "SELECT parser_version, indexer_version, run_kind FROM index_runs LIMIT 1",
            [],
            |row| Ok((row.get(0)?, row.get(1)?, row.get(2)?)),
        )
        .expect("run provenance should load");
    assert_eq!(
        run_provenance,
        (
            "parser".to_owned(),
            "indexer".to_owned(),
            "semantic".to_owned()
        )
    );
}

#[test]
fn sqlite_persists_symbols_and_calls_for_queries() {
    let mut store = SqliteStore::open();
    store.migrate().expect("migration should run");
    store
        .upsert_repository(&RepositoryRecord {
            id: "repo".to_owned(),
            root_path: "/tmp/repo".to_owned(),
        })
        .expect("repository should persist");

    let symbols = vec![
        sample_symbol("caller-symbol", "caller", "caller"),
        sample_symbol("callee-symbol", "helper", "helper"),
    ];
    let calls = vec![CallRecord {
        id: "call-1".to_owned(),
        caller_symbol_id: "caller-symbol".to_owned(),
        callee_text: "helper".to_owned(),
        callee_symbol_id: Some("callee-symbol".to_owned()),
        call_line: 4,
        confidence: number(1.0),
        resolution_status: "resolved_exact".to_owned(),
        index_run_id: "run".to_owned(),
        parser_version: "parser".to_owned(),
    }];
    store
        .replace_file_facts(
            &sample_file("hash-1"),
            &symbols,
            &[sample_chunk("chunk-1")],
            &calls,
        )
        .expect("facts should persist");

    let status = store.repository_status("repo").expect("status should load");
    assert_eq!(status.symbols_indexed, 2);
    assert_eq!(status.calls_indexed, 1);

    let found = store.find_symbols("repo", "helper").expect("symbol search");
    assert_eq!(found.len(), 1);
    assert_eq!(found[0].qualified_name, "helper");
    assert_eq!(found[0].provenance.content_hash.as_deref(), Some("hash-1"));
    assert_eq!(found[0].provenance.index_run_id.as_deref(), Some("run"));

    let callers = store.callers("repo", "helper").expect("callers query");
    assert_eq!(callers.len(), 1);
    assert_eq!(callers[0].symbol_qualified_name.as_deref(), Some("caller"));
    assert_eq!(
        callers[0].provenance.parser_version.as_deref(),
        Some("parser")
    );

    let callees = store.callees("repo", "caller").expect("callees query");
    assert_eq!(callees.len(), 1);
    assert_eq!(callees[0].symbol_qualified_name.as_deref(), Some("helper"));
}

#[test]
fn sqlite_persists_symbol_references() {
    let mut store = SqliteStore::open();
    store.migrate().expect("migration should run");
    store
        .upsert_repository(&RepositoryRecord {
            id: "repo".to_owned(),
            root_path: "/tmp/repo".to_owned(),
        })
        .expect("repository should persist");

    let symbols = vec![sample_symbol("source-symbol", "run", "run")];
    let references = vec![SymbolReferenceRecord {
        id: "reference-1".to_owned(),
        file_id: "file".to_owned(),
        source_symbol_id: Some("source-symbol".to_owned()),
        target_symbol_id: None,
        reference_text: "use crate::worker::Task;".to_owned(),
        reference_kind: "import".to_owned(),
        line: 2,
        confidence: number(0.4),
        resolution_status: "unresolved".to_owned(),
        index_run_id: "run".to_owned(),
        parser_version: "parser".to_owned(),
    }];

    store
        .replace_file_facts_with_references_and_tests(
            &sample_file("hash-1"),
            &symbols,
            &[],
            &[],
            &references,
            &[],
        )
        .expect("symbol references should persist");

    let row: (String, String, i64, f64, String) = store
        .connection
        .query_row(
            "SELECT source_symbol_id, reference_kind, line, confidence, resolution_status
               FROM symbol_references
              WHERE id = 'reference-1'",
            [],
            |row| {
                Ok((
                    row.get(0)?,
                    row.get(1)?,
                    row.get(2)?,
                    row.get(3)?,
                    row.get(4)?,
                ))
            },
        )
        .expect("symbol reference should load");
    assert_eq!(row.0, "source-symbol");
    assert_eq!(row.1, "import");
    assert_eq!(row.2, 2);
    assert_eq!(row.4, "unresolved");
}

#[test]
fn sqlite_traces_bounded_call_paths_deterministically() {
    let mut store = SqliteStore::open();
    store.migrate().expect("migration should run");
    store
        .upsert_repository(&RepositoryRecord {
            id: "repo".to_owned(),
            root_path: "/tmp/repo".to_owned(),
        })
        .expect("repository should persist");

    let symbols = vec![
        sample_symbol("a-symbol", "a", "crate::a"),
        sample_symbol("b-symbol", "b", "crate::b"),
        sample_symbol("c-symbol", "c", "crate::c"),
    ];
    let calls = vec![
        sample_call("call-a-b", "a-symbol", "b", Some("b-symbol"), 10),
        sample_call("call-b-c", "b-symbol", "c", Some("c-symbol"), 20),
        sample_call("call-a-c", "a-symbol", "c", Some("c-symbol"), 30),
        sample_call("call-c-a", "c-symbol", "a", Some("a-symbol"), 40),
        unresolved_call("call-a-missing", "a-symbol", "missing", 50),
    ];
    store
        .replace_file_facts(&sample_file("hash-1"), &symbols, &[], &calls)
        .expect("calls should persist");

    let shallow = store
        .call_paths("repo", "crate::a", "crate::c", 1)
        .expect("shallow paths should trace");
    assert_eq!(shallow.len(), 1);
    assert_eq!(shallow[0].hops, 1);
    assert_eq!(shallow[0].edges[0].call_id, "call-a-c");

    let paths = store
        .call_paths("repo", "crate::a", "crate::c", 2)
        .expect("paths should trace");
    assert_eq!(paths.len(), 2);
    assert_eq!(paths[0].hops, 2);
    assert_eq!(paths[0].edges[0].call_id, "call-a-b");
    assert_eq!(paths[0].edges[1].call_id, "call-b-c");
    assert_eq!(paths[1].hops, 1);
    assert_eq!(paths[1].edges[0].call_id, "call-a-c");

    let cyclic = store
        .call_paths("repo", "crate::a", "crate::c", 8)
        .expect("cycle-safe paths should trace");
    assert_eq!(cyclic.len(), 2);
}

#[test]
fn sqlite_traces_unresolved_terminal_call_path_by_callee_text() {
    let mut store = SqliteStore::open();
    store.migrate().expect("migration should run");
    store
        .upsert_repository(&RepositoryRecord {
            id: "repo".to_owned(),
            root_path: "/tmp/repo".to_owned(),
        })
        .expect("repository should persist");

    let symbols = vec![sample_symbol("a-symbol", "a", "crate::a")];
    let calls = vec![unresolved_call("call-a-missing", "a-symbol", "missing", 10)];
    store
        .replace_file_facts(&sample_file("hash-1"), &symbols, &[], &calls)
        .expect("calls should persist");

    let paths = store
        .call_paths("repo", "crate::a", "missing", 2)
        .expect("unresolved terminal path should trace");

    assert_eq!(paths.len(), 1);
    assert_eq!(paths[0].hops, 1);
    assert_eq!(paths[0].terminal_resolution_status, "unresolved");
    assert_eq!(paths[0].edges[0].callee_symbol_id, None);
    assert_eq!(paths[0].edges[0].callee_text, "missing");
}

#[test]
fn sqlite_traces_ambiguous_terminal_call_path_by_callee_text() {
    let mut store = SqliteStore::open();
    store.migrate().expect("migration should run");
    store
        .upsert_repository(&RepositoryRecord {
            id: "repo".to_owned(),
            root_path: "/tmp/repo".to_owned(),
        })
        .expect("repository should persist");

    let symbols = vec![sample_symbol("a-symbol", "a", "crate::a")];
    let mut ambiguous = unresolved_call("call-a-helper", "a-symbol", "helper", 10);
    ambiguous.resolution_status = "ambiguous".to_owned();
    ambiguous.confidence = number(0.5);
    store
        .replace_file_facts(&sample_file("hash-1"), &symbols, &[], &[ambiguous])
        .expect("calls should persist");

    let paths = store
        .call_paths("repo", "crate::a", "helper", 2)
        .expect("ambiguous terminal path should trace");

    assert_eq!(paths.len(), 1);
    assert_eq!(paths[0].hops, 1);
    assert_eq!(paths[0].terminal_resolution_status, "ambiguous");
    assert_eq!(paths[0].edges[0].callee_symbol_id, None);
    assert_eq!(paths[0].edges[0].callee_text, "helper");
}

#[test]
fn sqlite_reports_transitive_impact_paths_deterministically() {
    let mut store = SqliteStore::open();
    store.migrate().expect("migration should run");
    store
        .upsert_repository(&RepositoryRecord {
            id: "repo".to_owned(),
            root_path: "/tmp/repo".to_owned(),
        })
        .expect("repository should persist");

    let symbols = vec![
        sample_symbol("a-symbol", "a", "crate::a"),
        sample_symbol("b-symbol", "b", "crate::b"),
        sample_symbol("c-symbol", "c", "crate::c"),
        sample_symbol("d-symbol", "d", "crate::d"),
    ];
    let calls = vec![
        sample_call("call-a-b", "a-symbol", "b", Some("b-symbol"), 10),
        sample_call("call-b-c", "b-symbol", "c", Some("c-symbol"), 20),
        sample_call("call-c-d", "c-symbol", "d", Some("d-symbol"), 30),
    ];
    store
        .replace_file_facts(&sample_file("hash-1"), &symbols, &[], &calls)
        .expect("calls should persist");

    let callers = store
        .transitive_call_paths_to("repo", "crate::c", 3)
        .expect("transitive callers should trace");
    assert_eq!(callers.len(), 1);
    assert_eq!(callers[0].hops, 2);
    assert_eq!(callers[0].edges[0].call_id, "call-a-b");
    assert_eq!(callers[0].edges[1].call_id, "call-b-c");

    let callees = store
        .transitive_call_paths_from("repo", "crate::a", 3)
        .expect("transitive callees should trace");
    assert_eq!(callees.len(), 2);
    assert_eq!(callees[0].hops, 2);
    assert_eq!(callees[0].edges[1].call_id, "call-b-c");
    assert_eq!(callees[1].hops, 3);
    assert_eq!(callees[1].edges[2].call_id, "call-c-d");
}

#[test]
fn sqlite_builds_compact_context_pack() {
    let mut store = SqliteStore::open();
    store.migrate().expect("migration should run");
    store
        .upsert_repository(&RepositoryRecord {
            id: "repo".to_owned(),
            root_path: "/tmp/repo".to_owned(),
        })
        .expect("repository should persist");

    let symbols = vec![
        sample_symbol("caller-symbol", "caller", "caller"),
        sample_symbol("callee-symbol", "helper", "helper"),
    ];
    let calls = vec![CallRecord {
        id: "call-1".to_owned(),
        caller_symbol_id: "caller-symbol".to_owned(),
        callee_text: "helper".to_owned(),
        callee_symbol_id: Some("callee-symbol".to_owned()),
        call_line: 4,
        confidence: number(1.0),
        resolution_status: "resolved_exact".to_owned(),
        index_run_id: "run".to_owned(),
        parser_version: "parser".to_owned(),
    }];
    store
        .replace_file_facts(
            &sample_file("hash-1"),
            &symbols,
            &[sample_chunk("chunk-1")],
            &calls,
        )
        .expect("facts should persist");

    let pack = store
        .context_pack("repo", "helper", 5)
        .expect("context pack should build");

    assert_eq!(pack.format, "symdex.context_pack.v1");
    assert_eq!(pack.focus_symbols.len(), 1);
    assert_eq!(pack.direct_callers.len(), 1);
    assert!(pack.direct_callees.is_empty());
    assert_eq!(pack.files, vec!["src/lib.rs"]);
    assert_eq!(pack.notes[0], "metadata_only_no_source_text");
    assert!(!format!("{pack:?}").contains("source_text:"));
}

#[test]
fn sqlite_replaces_calls_without_unique_conflict() {
    let mut store = SqliteStore::open();
    store.migrate().expect("migration should run");
    store
        .upsert_repository(&RepositoryRecord {
            id: "repo".to_owned(),
            root_path: "/tmp/repo".to_owned(),
        })
        .expect("repository should persist");

    let symbols = vec![
        sample_symbol("caller-symbol", "caller", "caller"),
        sample_symbol("callee-symbol", "helper", "helper"),
    ];
    store
        .replace_file_facts(
            &sample_file("hash-1"),
            &symbols,
            &[sample_chunk("chunk-1")],
            &[CallRecord {
                id: "call-1".to_owned(),
                caller_symbol_id: "caller-symbol".to_owned(),
                callee_text: "helper".to_owned(),
                callee_symbol_id: Some("callee-symbol".to_owned()),
                call_line: 4,
                confidence: number(1.0),
                resolution_status: "resolved_exact".to_owned(),
                index_run_id: "run".to_owned(),
                parser_version: "parser".to_owned(),
            }],
        )
        .expect("initial calls should persist");

    store
        .replace_file_facts(
            &sample_file("hash-2"),
            &symbols,
            &[sample_chunk("chunk-2")],
            &[CallRecord {
                id: "call-1".to_owned(),
                caller_symbol_id: "caller-symbol".to_owned(),
                callee_text: "helper_updated".to_owned(),
                callee_symbol_id: Some("callee-symbol".to_owned()),
                call_line: 5,
                confidence: number(0.9),
                resolution_status: "resolved_local_candidate".to_owned(),
                index_run_id: "run".to_owned(),
                parser_version: "parser".to_owned(),
            }],
        )
        .expect("replacement calls should persist");

    let status = store.repository_status("repo").expect("status should load");
    assert_eq!(status.calls_indexed, 1);

    let callees = store.callees("repo", "caller").expect("callees query");
    assert_eq!(callees.len(), 1);
    assert_eq!(callees[0].callee_text, "helper_updated");
    assert_eq!(callees[0].call_line, 5);
}

#[test]
fn sqlite_records_embedding_runs_and_rejects_dimension_changes() {
    let store = SqliteStore::open();
    store.migrate().expect("migration should run");
    store
        .upsert_repository(&RepositoryRecord {
            id: "repo".to_owned(),
            root_path: "/tmp/repo".to_owned(),
        })
        .expect("repository should persist");

    store
        .record_index_run(&sample_index_run("nomic-embed-text", 768))
        .expect("index run should persist");

    let status = store.repository_status("repo").expect("status should load");
    assert_eq!(status.embedding_model.as_deref(), Some("nomic-embed-text"));
    assert_eq!(status.embedding_dimension, Some(768));
    store
        .ensure_embedding_compatible("repo", "nomic-embed-text", 768)
        .expect("same dimension should be compatible");
    let error = store
        .ensure_embedding_compatible("repo", "nomic-embed-text", 1024)
        .expect_err("changed dimension should be rejected");
    assert!(matches!(
        error,
        Error::Store(StoreError::EmbeddingDimensionChanged {
            previous_dimension: 768,
            current_dimension: 1024,
            ..
        })
    ));
    store
        .ensure_embedding_compatible("repo", "different-model", 1024)
        .expect("different model writes to a different collection");
}

#[test]
fn sqlite_builds_storage_explorer_summary_without_source_text() {
    let mut store = SqliteStore::open();
    store.migrate().expect("migration should run");
    store
        .upsert_repository(&RepositoryRecord {
            id: "repo".to_owned(),
            root_path: "/tmp/repo".to_owned(),
        })
        .expect("repository should persist");

    let mut missing_vector = sample_chunk("chunk-missing-vector");
    missing_vector.vector_point_id = None;
    let mut excluded = sample_chunk("chunk-excluded");
    excluded.vector_point_id = None;
    excluded.excluded_reason = Some("secret_detected".to_owned());
    store
        .replace_file_facts(
            &sample_file("hash-1"),
            &[sample_symbol("symbol", "add", "crate::add")],
            &[sample_chunk("chunk-vector"), missing_vector, excluded],
            &[],
        )
        .expect("facts should persist");
    upsert_fast_embedding_for_chunk(&store, "chunk-vector", "hash-1", "text-chunk-vector");
    store
        .record_index_run(&sample_index_run("nomic-embed-text", 768))
        .expect("index run should persist");

    let summary = store
        .storage_explorer_summary("repo", "nomic-embed-text")
        .expect("storage summary should build");

    assert_eq!(summary.sqlite.repositories, 1);
    assert_eq!(summary.sqlite.files, 1);
    assert_eq!(summary.sqlite.chunks, 3);
    assert_eq!(summary.sqlite.symbols, 1);
    assert_eq!(summary.sqlite.index_runs, 1);
    assert_eq!(summary.vector.embedding_model, "nomic-embed-text");
    assert_eq!(summary.vector.embedding_dimension, Some(768));
    assert_eq!(summary.vector.embeddable_chunks, 2);
    assert_eq!(summary.vector.vector_backed_chunks, 1);
    assert_eq!(summary.vector.excluded_chunks, 1);
    assert_eq!(summary.vector.missing_vector_chunks, 1);
    assert!(summary.vector.collection_name.starts_with("symdex_repo_"));
    assert!(summary.warnings.iter().any(
        |row| row.status == StorageHealthStatus::Warning && row.label == "missing_vectors"
    ));
    let debug = format!("{summary:?}");
    assert!(!debug.contains("source_text"));
}

#[test]
fn sqlite_builds_embedding_coverage_summary() {
    let mut store = SqliteStore::open();
    store.migrate().expect("migration should run");
    store
        .upsert_repository(&RepositoryRecord {
            id: "repo".to_owned(),
            root_path: "/tmp/repo".to_owned(),
        })
        .expect("repository should persist");

    store
        .replace_file_facts(
            &sample_file("hash-1"),
            &[sample_symbol("symbol", "add", "crate::add")],
            &[
                sample_chunk("chunk-vector"),
                missing_vector_chunk("chunk-missing"),
                excluded_chunk("chunk-secret", "file"),
            ],
            &[],
        )
        .expect("facts should persist");
    upsert_fast_embedding_for_chunk(&store, "chunk-vector", "hash-1", "text-chunk-vector");
    store
        .record_index_run(&sample_index_run("nomic-embed-text", 768))
        .expect("index run should persist");

    let summary = store
        .embedding_coverage_summary("repo", "nomic-embed-text")
        .expect("embedding coverage should load");

    assert_eq!(summary.repository_id, "repo");
    assert_eq!(summary.configured_embedding_model, "nomic-embed-text");
    assert_eq!(summary.embedding_model, "nomic-embed-text");
    assert_eq!(summary.embedding_dimension, Some(768));
    assert_eq!(summary.total_chunks, 3);
    assert_eq!(summary.embeddable_chunks, 2);
    assert_eq!(summary.vector_backed_chunks, 1);
    assert_eq!(summary.missing_vector_chunks, 1);
    assert_eq!(summary.excluded_chunks, 1);
    assert_eq!(summary.latest_chunks_embedded, Some(1));
    assert_eq!(summary.exclusion_reasons.len(), 1);
    assert_eq!(summary.exclusion_reasons[0].reason, "secret_detected");
    assert_eq!(summary.exclusion_reasons[0].chunks, 1);
    assert!(summary.collection_name.starts_with("symdex_repo_"));
    assert!(summary.health.iter().any(
        |row| row.status == StorageHealthStatus::Warning && row.label == "missing_vectors"
    ));
    let debug = format!("{summary:?}");
    assert!(!debug.contains("source_text"));
}

#[test]
fn sqlite_builds_index_runs_timeline_summary() {
    let store = SqliteStore::open();
    store.migrate().expect("migration should run");
    store
        .upsert_repository(&RepositoryRecord {
            id: "repo".to_owned(),
            root_path: "/tmp/repo".to_owned(),
        })
        .expect("repository should persist");
    insert_index_run_fixture(
        &store,
        IndexRunFixture {
            id: "run-old",
            started_at: "2026-01-01T00:00:00Z",
            finished_at: Some("2026-01-01T00:00:10Z"),
            status: "success",
            model: "nomic-embed-text",
            dimension: Some(768),
            files_seen: 4,
            files_indexed: 3,
            chunks_embedded: 7,
            error_summary: None,
            run_kind: "semantic",
        },
    );
    insert_index_run_fixture(
        &store,
        IndexRunFixture {
            id: "run-new",
            started_at: "2026-01-02T00:00:00Z",
            finished_at: Some("2026-01-02T00:00:04Z"),
            status: "failed",
            model: "nomic-embed-text",
            dimension: Some(768),
            files_seen: 5,
            files_indexed: 2,
            chunks_embedded: 1,
            error_summary: Some("vector store unavailable"),
            run_kind: "watch",
        },
    );

    let summary = store
        .index_runs_timeline_summary("repo")
        .expect("timeline summary should load");

    assert_eq!(summary.repository_id, "repo");
    assert_eq!(summary.runs.len(), 2);
    assert_eq!(summary.runs[0].id, "run-new");
    assert_eq!(summary.runs[0].status, "failed");
    assert_eq!(summary.runs[0].files_seen, 5);
    assert_eq!(summary.runs[0].files_indexed, 2);
    assert_eq!(summary.runs[0].chunks_embedded, 1);
    assert_eq!(summary.runs[0].run_kind, "watch");
    assert_eq!(
        summary.runs[0].error_summary.as_deref(),
        Some("vector store unavailable")
    );
    assert_eq!(summary.runs[1].id, "run-old");
    assert_eq!(summary.runs[1].run_kind, "semantic");
    let debug = format!("{summary:?}");
    assert!(!debug.contains("source_text"));
}

#[test]
fn sqlite_tracks_started_and_finished_index_runs() {
    let store = SqliteStore::open();
    store.migrate().expect("migration should run");
    store
        .upsert_repository(&RepositoryRecord {
            id: "repo".to_owned(),
            root_path: "/tmp/repo".to_owned(),
        })
        .expect("repository should persist");

    let mut run = sample_index_run("nomic-embed-text", 768);
    run.id = "run-lifecycle".to_owned();
    run.status = "running".to_owned();
    run.files_seen = 0;
    run.files_indexed = 0;
    run.chunks_embedded = 0;
    store
        .start_index_run(&run)
        .expect("started run should persist");

    let started: (String, Option<String>, i64, i64) = store
        .connection
        .query_row(
            "SELECT status, finished_at, files_seen, chunks_embedded
             FROM index_runs
             WHERE id = 'run-lifecycle'",
            [],
            |row| Ok((row.get(0)?, row.get(1)?, row.get(2)?, row.get(3)?)),
        )
        .expect("started run should load");
    assert_eq!(started, ("running".to_owned(), None, 0, 0));

    run.status = "partial".to_owned();
    run.files_seen = 4;
    run.files_indexed = 3;
    run.error_summary = Some("vector store unavailable".to_owned());
    store
        .finish_index_run(&run)
        .expect("finished run should persist");

    let finished: (String, Option<String>, i64, i64, Option<String>) = store
        .connection
        .query_row(
            "SELECT status, finished_at, files_seen, files_indexed, error_summary
             FROM index_runs
             WHERE id = 'run-lifecycle'",
            [],
            |row| {
                Ok((
                    row.get(0)?,
                    row.get(1)?,
                    row.get(2)?,
                    row.get(3)?,
                    row.get(4)?,
                ))
            },
        )
        .expect("finished run should load");
    assert_eq!(finished.0, "partial");
    assert!(finished.1.is_some());
    assert_eq!(finished.2, 4);
    assert_eq!(finished.3, 3);
    assert_eq!(finished.4.as_deref(), Some("vector store unavailable"));
}

#[test]
fn sqlite_records_per_file_index_events() {
    let mut store = SqliteStore::open();
    store.migrate().expect("migration should run");
    store
        .upsert_repository(&RepositoryRecord {
            id: "repo".to_owned(),
            root_path: "/tmp/repo".to_owned(),
        })
        .expect("repository should persist");
    let mut run = sample_index_run("offline", 0);
    run.id = "run-events".to_owned();
    store
        .start_index_run(&run)
        .expect("index run should persist");

    store
        .record_file_index_events(&[
            FileIndexEventRecord {
                id: "event-created".to_owned(),
                index_run_id: "run-events".to_owned(),
                repository_id: "repo".to_owned(),
                repository_ref_id: None,
                path: "src/lib.rs".to_owned(),
                old_content_hash: None,
                new_content_hash: Some("hash-new".to_owned()),
                action: "created".to_owned(),
                reason: "new_file".to_owned(),
                status: "success".to_owned(),
                error_summary: None,
            },
            FileIndexEventRecord {
                id: "event-skipped".to_owned(),
                index_run_id: "run-events".to_owned(),
                repository_id: "repo".to_owned(),
                repository_ref_id: None,
                path: "src/unchanged.rs".to_owned(),
                old_content_hash: Some("hash-same".to_owned()),
                new_content_hash: Some("hash-same".to_owned()),
                action: "skipped".to_owned(),
                reason: "unchanged_content_hash".to_owned(),
                status: "skipped".to_owned(),
                error_summary: None,
            },
        ])
        .expect("file events should persist");

    let rows: Vec<(
        String,
        Option<String>,
        Option<String>,
        String,
        String,
        String,
    )> = store
        .connection
        .prepare(
            "SELECT path, old_content_hash, new_content_hash, action, reason, status
               FROM file_index_events
              WHERE index_run_id = 'run-events'
              ORDER BY path",
        )
        .expect("query should prepare")
        .query_map([], |row| {
            Ok((
                row.get(0)?,
                row.get(1)?,
                row.get(2)?,
                row.get(3)?,
                row.get(4)?,
                row.get(5)?,
            ))
        })
        .expect("query should run")
        .collect::<rusqlite::Result<Vec<_>>>()
        .expect("rows should load");

    assert_eq!(rows.len(), 2);
    assert_eq!(
        rows[0],
        (
            "src/lib.rs".to_owned(),
            None,
            Some("hash-new".to_owned()),
            "created".to_owned(),
            "new_file".to_owned(),
            "success".to_owned(),
        )
    );
    assert_eq!(rows[1].3, "skipped");
    assert_eq!(rows[1].5, "skipped");
}

#[test]
fn sqlite_persists_watcher_status() {
    let store = SqliteStore::open();
    store.migrate().expect("migration should run");
    store
        .upsert_repository(&RepositoryRecord {
            id: "repo".to_owned(),
            root_path: "/tmp/repo".to_owned(),
        })
        .expect("repository should persist");
    store
        .upsert_watcher_status(&WatcherStatusRecord {
            repository_id: "repo".to_owned(),
            root_path: "/tmp/repo".to_owned(),
            mode: "semantic".to_owned(),
            owner_kind: "daemon".to_owned(),
            owner_pid: Some(123),
            socket_path: Some("/tmp/repo/.symdex/watch.sock".to_owned()),
            state: "running".to_owned(),
            started_at: Some("1".to_owned()),
            updated_at: Some("1".to_owned()),
            heartbeat_at: Some("1".to_owned()),
            files_seen: 3,
            queued_events: 2,
            last_indexed_path: Some("src/lib.rs".to_owned()),
            last_error: None,
            active_layer: Some("fast".to_owned()),
            quality_status: Some("quality_pending".to_owned()),
            quality_pending_jobs: 1,
            quality_running_jobs: 0,
            quality_failed_jobs: 0,
            quality_stale_jobs: 0,
        })
        .expect("watcher should persist");

    let status = store
        .watcher_status("repo")
        .expect("watcher status should load")
        .expect("watcher should exist");

    assert_eq!(status.state, "running");
    assert_eq!(status.files_seen, 3);
    assert_eq!(status.queued_events, 2);
    assert_eq!(status.last_indexed_path.as_deref(), Some("src/lib.rs"));
}

#[test]
fn sqlite_persists_and_prunes_watcher_clients() {
    let store = SqliteStore::open();
    store.migrate().expect("migration should run");
    store
        .upsert_repository(&RepositoryRecord {
            id: "repo".to_owned(),
            root_path: "/tmp/repo".to_owned(),
        })
        .expect("repository should persist");
    store
        .upsert_watcher_client(&WatcherClientRecord {
            repository_id: "repo".to_owned(),
            client_id: "mcp-1".to_owned(),
            client_kind: "mcp".to_owned(),
            pid: Some(123),
            started_at: Some("1".to_owned()),
            heartbeat_at: Some("1".to_owned()),
            last_seen_at: None,
        })
        .expect("client should persist");

    let clients = store.watcher_clients("repo").expect("clients should load");
    assert_eq!(clients.len(), 1);
    assert_eq!(clients[0].client_kind, "mcp");

    store
        .heartbeat_watcher_client("repo", "mcp-1")
        .expect("heartbeat should update");
    let clients = store.watcher_clients("repo").expect("clients should load");
    assert_ne!(clients[0].heartbeat_at.as_deref(), Some("1"));

    let updated = store
        .heartbeat_watcher_client("repo", "missing")
        .expect("missing heartbeat should not fail");
    assert_eq!(updated, 0);

    let removed = store
        .prune_stale_watcher_clients("repo", "999999999999")
        .expect("stale clients should prune");
    assert_eq!(removed, 1);
    assert!(
        store
            .watcher_clients("repo")
            .expect("clients should load")
            .is_empty()
    );
}

#[test]
fn quality_worker_requeues_current_stale_jobs() {
    let mut store = SqliteStore::open();
    store.migrate().expect("migration should run");
    store
        .upsert_repository(&RepositoryRecord {
            id: "repo".to_owned(),
            root_path: "/tmp/repo".to_owned(),
        })
        .expect("repository should persist");
    store
        .replace_file_facts(
            &sample_file("content-hash"),
            &[sample_symbol("symbol", "hello", "hello")],
            &[sample_chunk("chunk-1")],
            &[],
        )
        .expect("file facts should persist");
    store
        .upsert_semantic_generation(&sample_semantic_generation())
        .expect("generation should persist");
    store
        .upsert_quality_embedding_job(&sample_quality_embedding_job_for(
            "generation-1",
            "chunk-1",
            "skipped_stale",
        ))
        .expect("stale job should persist");
    store
        .upsert_chunk_embedding(&sample_chunk_embedding())
        .expect("fast embedding should persist");

    let requeued = store
        .requeue_current_terminal_quality_embedding_jobs("repo", "generation-1", "600")
        .expect("current stale jobs should requeue");

    assert_eq!(requeued, 1);
    let jobs = store
        .quality_jobs_by_status("repo", "generation-1", "pending")
        .expect("pending jobs should load");
    assert_eq!(jobs.len(), 1);
    assert_eq!(jobs[0].error_summary, None);
    assert_eq!(jobs[0].updated_at, "600");
}

#[test]
fn quality_worker_does_not_requeue_mismatched_stale_jobs() {
    let mut store = SqliteStore::open();
    store.migrate().expect("migration should run");
    store
        .upsert_repository(&RepositoryRecord {
            id: "repo".to_owned(),
            root_path: "/tmp/repo".to_owned(),
        })
        .expect("repository should persist");
    store
        .replace_file_facts(
            &sample_file("new-content-hash"),
            &[sample_symbol("symbol", "hello", "hello")],
            &[sample_chunk("chunk-1")],
            &[],
        )
        .expect("file facts should persist");
    store
        .upsert_semantic_generation(&sample_semantic_generation())
        .expect("generation should persist");
    store
        .upsert_quality_embedding_job(&sample_quality_embedding_job_for(
            "generation-1",
            "chunk-1",
            "skipped_stale",
        ))
        .expect("stale job should persist");

    let requeued = store
        .requeue_current_terminal_quality_embedding_jobs("repo", "generation-1", "600")
        .expect("mismatched stale jobs should be ignored");

    assert_eq!(requeued, 0);
    assert_eq!(
        store
            .quality_jobs_by_status("repo", "generation-1", "skipped_stale")
            .expect("stale jobs should load")
            .len(),
        1
    );
}

#[test]
fn quality_worker_requeues_current_transient_failed_jobs() {
    let mut store = SqliteStore::open();
    store.migrate().expect("migration should run");
    store
        .upsert_repository(&RepositoryRecord {
            id: "repo".to_owned(),
            root_path: "/tmp/repo".to_owned(),
        })
        .expect("repository should persist");
    store
        .replace_file_facts(
            &sample_file("content-hash"),
            &[sample_symbol("symbol", "hello", "hello")],
            &[sample_chunk("chunk-1")],
            &[],
        )
        .expect("file facts should persist");
    store
        .upsert_semantic_generation(&sample_semantic_generation())
        .expect("generation should persist");
    let mut job = sample_quality_embedding_job_for("generation-1", "chunk-1", "failed");
    job.error_summary = Some("SQLite error: database is locked".to_owned());
    store
        .upsert_quality_embedding_job(&job)
        .expect("failed job should persist");
    store
        .upsert_chunk_embedding(&sample_chunk_embedding())
        .expect("fast embedding should persist");

    let requeued = store
        .requeue_current_terminal_quality_embedding_jobs("repo", "generation-1", "600")
        .expect("transient failed jobs should requeue");

    assert_eq!(requeued, 1);
    let jobs = store
        .quality_jobs_by_status("repo", "generation-1", "pending")
        .expect("pending jobs should load");
    assert_eq!(jobs.len(), 1);
    assert_eq!(jobs[0].error_summary, None);
}

#[test]
fn quality_worker_keeps_non_transient_failed_jobs() {
    let mut store = SqliteStore::open();
    store.migrate().expect("migration should run");
    store
        .upsert_repository(&RepositoryRecord {
            id: "repo".to_owned(),
            root_path: "/tmp/repo".to_owned(),
        })
        .expect("repository should persist");
    store
        .replace_file_facts(
            &sample_file("content-hash"),
            &[sample_symbol("symbol", "hello", "hello")],
            &[sample_chunk("chunk-1")],
            &[],
        )
        .expect("file facts should persist");
    store
        .upsert_semantic_generation(&sample_semantic_generation())
        .expect("generation should persist");
    let mut job = sample_quality_embedding_job_for("generation-1", "chunk-1", "failed");
    job.error_summary = Some("embedding model returned an invalid vector".to_owned());
    store
        .upsert_quality_embedding_job(&job)
        .expect("failed job should persist");

    let requeued = store
        .requeue_current_terminal_quality_embedding_jobs("repo", "generation-1", "600")
        .expect("non-transient failed jobs should be ignored");

    assert_eq!(requeued, 0);
    assert_eq!(
        store
            .quality_jobs_by_status("repo", "generation-1", "failed")
            .expect("failed jobs should load")
            .len(),
        1
    );
}

#[test]
fn sqlite_builds_semantic_neighborhood_summary_without_source_text() {
    let mut store = SqliteStore::open();
    store.migrate().expect("migration should run");
    store
        .upsert_repository(&RepositoryRecord {
            id: "repo".to_owned(),
            root_path: "/tmp/repo".to_owned(),
        })
        .expect("repository should persist");

    let mut vector = sample_chunk("chunk-vector");
    vector.text_hash = "hash-vector".to_owned();
    let mut missing = missing_vector_chunk("chunk-missing");
    missing.text_hash = "hash-missing".to_owned();
    store
        .replace_file_facts(
            &sample_file("hash-1"),
            &[sample_symbol("symbol", "add", "crate::add")],
            &[vector, missing],
            &[],
        )
        .expect("facts should persist");
    upsert_fast_embedding_for_chunk(&store, "chunk-vector", "hash-1", "hash-vector");
    store
        .record_index_run(&sample_index_run("nomic-embed-text", 768))
        .expect("index run should persist");

    let summary = store
        .semantic_neighborhood_summary("repo", "nomic-embed-text")
        .expect("semantic neighborhood should load");

    assert_eq!(summary.repository_id, "repo");
    assert_eq!(summary.embedding_model, "nomic-embed-text");
    assert_eq!(summary.rows.len(), 1);
    assert_eq!(summary.rows[0].path, "src/lib.rs");
    assert_eq!(summary.rows[0].symbol_name.as_deref(), Some("crate::add"));
    assert_eq!(summary.rows[0].chunk_kind, "function");
    assert_eq!(summary.rows[0].language, "rust");
    assert_eq!(summary.rows[0].score, None);
    assert_eq!(summary.rows[0].text_hash, "hash-vector");
    assert!(
        summary
            .health
            .iter()
            .any(|row| row.status == StorageHealthStatus::Healthy && row.label == "metadata_only")
    );
    let debug = format!("{summary:?}");
    assert!(!debug.contains("source_text"));
}

#[test]
fn sqlite_builds_cross_store_health_warnings() {
    let mut store = SqliteStore::open();
    store.migrate().expect("migration should run");
    store
        .upsert_repository(&RepositoryRecord {
            id: "repo".to_owned(),
            root_path: "/tmp/repo".to_owned(),
        })
        .expect("repository should persist");

    store
        .replace_file_facts(
            &sample_file("hash-1"),
            &[sample_symbol("symbol", "add", "crate::add")],
            &[
                sample_chunk("chunk-vector"),
                missing_vector_chunk("chunk-missing"),
                excluded_chunk("chunk-secret", "file"),
            ],
            &[],
        )
        .expect("facts should persist");
    insert_index_run_fixture(
        &store,
        IndexRunFixture {
            id: "run-drift-768",
            started_at: "2026-01-01T00:00:00Z",
            finished_at: Some("2026-01-01T00:00:10Z"),
            status: "success",
            model: "different-model",
            dimension: Some(768),
            files_seen: 1,
            files_indexed: 1,
            chunks_embedded: 1,
            error_summary: None,
            run_kind: "semantic",
        },
    );
    insert_index_run_fixture(
        &store,
        IndexRunFixture {
            id: "run-drift-1024",
            started_at: "2026-01-02T00:00:00Z",
            finished_at: Some("2026-01-02T00:00:10Z"),
            status: "success",
            model: "different-model",
            dimension: Some(1024),
            files_seen: 1,
            files_indexed: 1,
            chunks_embedded: 1,
            error_summary: None,
            run_kind: "semantic",
        },
    );

    let summary = store
        .cross_store_health_summary("repo", "nomic-embed-text")
        .expect("health summary should load");

    assert_eq!(summary.repository_id, "repo");
    assert!(summary.rows.iter().any(
        |row| row.status == StorageHealthStatus::Warning && row.label == "missing_vectors"
    ));
    assert!(summary.rows.iter().any(
        |row| row.status == StorageHealthStatus::Warning && row.label == "excluded_chunks"
    ));
    assert!(
        summary
            .rows
            .iter()
            .any(|row| row.status == StorageHealthStatus::Error && row.label == "model_drift")
    );
    assert!(
        summary
            .rows
            .iter()
            .any(|row| row.status == StorageHealthStatus::Error
                && row.label == "dimension_drift")
    );
    let debug = format!("{summary:?}");
    assert!(!debug.contains("source_text"));
}

#[test]
fn sqlite_flags_missing_collection_health() {
    let mut store = SqliteStore::open();
    store.migrate().expect("migration should run");
    store
        .upsert_repository(&RepositoryRecord {
            id: "repo".to_owned(),
            root_path: "/tmp/repo".to_owned(),
        })
        .expect("repository should persist");
    store
        .replace_file_facts(
            &sample_file("hash-1"),
            &[],
            &[missing_vector_chunk("chunk-missing")],
            &[],
        )
        .expect("facts should persist");

    let summary = store
        .cross_store_health_summary("repo", "nomic-embed-text")
        .expect("health summary should load");

    assert!(summary.rows.iter().any(
        |row| row.status == StorageHealthStatus::Error && row.label == "missing_collection"
    ));
}

#[test]
fn sqlite_builds_file_index_coverage_summary() {
    let mut store = SqliteStore::open();
    store.migrate().expect("migration should run");
    store
        .upsert_repository(&RepositoryRecord {
            id: "repo".to_owned(),
            root_path: "/tmp/repo".to_owned(),
        })
        .expect("repository should persist");

    let symbols = vec![
        sample_symbol("caller-symbol", "caller", "crate::caller"),
        sample_symbol("callee-symbol", "helper", "crate::helper"),
    ];
    store
        .replace_file_facts(
            &sample_file("hash-1"),
            &symbols,
            &[
                sample_chunk("chunk-vector"),
                missing_vector_chunk("chunk-missing"),
            ],
            &[CallRecord {
                id: "call-1".to_owned(),
                caller_symbol_id: "caller-symbol".to_owned(),
                callee_text: "helper".to_owned(),
                callee_symbol_id: Some("callee-symbol".to_owned()),
                call_line: 4,
                confidence: number(1.0),
                resolution_status: "resolved_exact".to_owned(),
                index_run_id: "run".to_owned(),
                parser_version: "parser".to_owned(),
            }],
        )
        .expect("first file facts should persist");
    upsert_fast_embedding_for_chunk(&store, "chunk-vector", "hash-1", "text-chunk-vector");

    let second_file = FileRecord {
        id: "file-secret".to_owned(),
        repository_id: "repo".to_owned(),
        path: "src/secret.rs".to_owned(),
        language: "rust".to_owned(),
        content_hash: "hash-secret".to_owned(),
        index_run_id: "run".to_owned(),
        parser_version: "parser".to_owned(),
    };
    store
        .replace_file_facts(
            &second_file,
            &[],
            &[excluded_chunk("secret-chunk", "file-secret")],
            &[],
        )
        .expect("second file facts should persist");

    let coverage = store
        .index_coverage_summary("repo")
        .expect("coverage should load");

    assert_eq!(coverage.repository_id, "repo");
    assert_eq!(coverage.files.len(), 2);
    let lib = coverage
        .files
        .iter()
        .find(|file| file.path == "src/lib.rs")
        .expect("lib coverage row");
    assert_eq!(lib.language, "rust");
    assert_eq!(lib.chunks, 2);
    assert_eq!(lib.symbols, 2);
    assert_eq!(lib.calls, 1);
    assert_eq!(lib.embeddable_chunks, 2);
    assert_eq!(lib.vector_backed_chunks, 1);
    assert_eq!(lib.excluded_chunks, 0);
    assert_eq!(lib.status, FileCoverageStatus::MissingVector);
    assert_eq!(lib.detail.chunks.len(), 2);
    assert!(
        lib.detail
            .chunks
            .iter()
            .any(|chunk| chunk.vector_status == ChunkVectorStatus::MissingVector)
    );
    assert_eq!(lib.detail.symbols.len(), 2);
    assert_eq!(lib.detail.calls.len(), 1);
    assert_eq!(lib.detail.calls[0].callee_text, "helper");
    assert_eq!(lib.detail.calls[0].resolution_status, "resolved_exact");

    let secret = coverage
        .files
        .iter()
        .find(|file| file.path == "src/secret.rs")
        .expect("secret coverage row");
    assert_eq!(secret.chunks, 1);
    assert_eq!(secret.embeddable_chunks, 0);
    assert_eq!(secret.excluded_chunks, 1);
    assert_eq!(secret.status, FileCoverageStatus::Excluded);
    assert_eq!(
        secret.detail.chunks[0].vector_status,
        ChunkVectorStatus::Excluded
    );
    assert_eq!(
        secret.detail.chunks[0].excluded_reason.as_deref(),
        Some("secret_detected")
    );
}

#[test]
fn sqlite_builds_symbol_outline_with_parent_depths() {
    let mut store = SqliteStore::open();
    store.migrate().expect("migration should run");
    store
        .upsert_repository(&RepositoryRecord {
            id: "repo".to_owned(),
            root_path: "/tmp/repo".to_owned(),
        })
        .expect("repository should persist");

    let mut parent = sample_symbol("parent-symbol", "Service", "crate::Service");
    parent.kind = "struct".to_owned();
    let mut child = sample_symbol("child-symbol", "run", "crate::Service::run");
    child.parent_symbol_id = Some("parent-symbol".to_owned());
    child.start_line = 5;
    child.end_line = 8;
    let mut grandchild = sample_symbol("grandchild-symbol", "inner", "crate::Service::inner");
    grandchild.parent_symbol_id = Some("child-symbol".to_owned());
    grandchild.start_line = 6;
    grandchild.end_line = 7;

    store
        .replace_file_facts(
            &sample_file("hash-1"),
            &[parent, child, grandchild],
            &[],
            &[],
        )
        .expect("symbols should persist");

    let outline = store
        .symbol_outline_summary("repo")
        .expect("outline should load");

    assert_eq!(outline.repository_id, "repo");
    assert_eq!(outline.symbols.len(), 3);
    let parent = outline
        .symbols
        .iter()
        .find(|symbol| symbol.id == "parent-symbol")
        .expect("parent symbol row");
    assert_eq!(parent.depth, 0);
    assert_eq!(parent.child_count, 1);
    assert_eq!(parent.kind, "struct");

    let child = outline
        .symbols
        .iter()
        .find(|symbol| symbol.id == "child-symbol")
        .expect("child symbol row");
    assert_eq!(child.parent_symbol_id.as_deref(), Some("parent-symbol"));
    assert_eq!(child.depth, 1);
    assert_eq!(child.child_count, 1);

    let grandchild = outline
        .symbols
        .iter()
        .find(|symbol| symbol.id == "grandchild-symbol")
        .expect("grandchild symbol row");
    assert_eq!(grandchild.depth, 2);
}

#[test]
fn sqlite_builds_call_resolution_summary_by_status_and_confidence() {
    let mut store = SqliteStore::open();
    store.migrate().expect("migration should run");
    store
        .upsert_repository(&RepositoryRecord {
            id: "repo".to_owned(),
            root_path: "/tmp/repo".to_owned(),
        })
        .expect("repository should persist");

    let symbols = vec![
        sample_symbol("caller-symbol", "caller", "crate::caller"),
        sample_symbol("callee-symbol", "helper", "crate::helper"),
    ];
    let calls = vec![
        CallRecord {
            id: "call-high".to_owned(),
            caller_symbol_id: "caller-symbol".to_owned(),
            callee_text: "helper".to_owned(),
            callee_symbol_id: Some("callee-symbol".to_owned()),
            call_line: 4,
            confidence: number(1.0),
            resolution_status: "resolved_exact".to_owned(),
            index_run_id: "run".to_owned(),
            parser_version: "parser".to_owned(),
        },
        CallRecord {
            id: "call-low".to_owned(),
            caller_symbol_id: "caller-symbol".to_owned(),
            callee_text: "missing".to_owned(),
            callee_symbol_id: None,
            call_line: 7,
            confidence: number(0.25),
            resolution_status: "unresolved".to_owned(),
            index_run_id: "run".to_owned(),
            parser_version: "parser".to_owned(),
        },
    ];
    store
        .replace_file_facts(&sample_file("hash-1"), &symbols, &[], &calls)
        .expect("calls should persist");

    let summary = store
        .call_resolution_summary("repo")
        .expect("call resolution summary should load");

    assert_eq!(summary.repository_id, "repo");
    assert_eq!(summary.buckets.len(), 2);
    let resolved = summary
        .buckets
        .iter()
        .find(|bucket| bucket.resolution_status == "resolved_exact")
        .expect("resolved bucket");
    assert_eq!(resolved.confidence_bucket, ConfidenceBucket::High);
    assert_eq!(resolved.call_count, 1);
    assert_eq!(resolved.rows[0].caller_symbol, "crate::caller");
    assert_eq!(resolved.rows[0].callee_text, "helper");

    let unresolved = summary
        .buckets
        .iter()
        .find(|bucket| bucket.resolution_status == "unresolved")
        .expect("unresolved bucket");
    assert_eq!(unresolved.confidence_bucket, ConfidenceBucket::Low);
    assert_eq!(unresolved.call_count, 1);
    assert_eq!(unresolved.rows[0].call_line, 7);
}
