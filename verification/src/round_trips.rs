//! What a read gives back of a write: rows that hold what a statement stored are read as the
//! records that were stored.

use vstd::prelude::*;
use crate::facts::{
    insert_call_spec, insert_chunk_spec, insert_file_spec, insert_symbol_spec, insert_test_spec,
};
use crate::generations::upsert_embedding_spec;
use crate::records::{
    CallPathEdge, CallRecord, ChunkEmbeddingRecord, ChunkRecord, EmbeddingIndexMetadata,
    EvidenceProvenance, ExpectedVectorPoint, FileFreshnessSnapshot, FileRecord, FileStateRecord,
    IndexRunRecord, IndexRunTimelineRow, RepositoryRefRecord, SymbolRecord, SymbolSearchRow,
    TestRecord, TestSearchRow, WatcherClientRecord, WatcherStatusRecord,
};
use crate::repository::upsert_repository_ref_spec;
use crate::rows::SymbolOutlineBaseRow;
use crate::runs::{finish_index_run_spec, start_index_run_spec};
use crate::sql::{
    count, lemma_mismatch, mismatch, optional_count, optional_size_in, size_in, unfit,
    values, FromRow, SqlValue, Value,
};
use crate::text::optional_text;
use crate::vector::{upsert_point_payload_spec, RetrievedPoint, VectorPoint};
use crate::watchers::{known_or_spec, upsert_watcher_client_spec, upsert_watcher_status_spec};

verus! {

/// The stored values that a query picks, by their places among those that were stored.
pub open spec fn picked(stored: Seq<Value>, places: Seq<int>) -> Seq<Value> {
    Seq::new(places.len(), |i: int| stored[places[i]])
}

proof fn lemma_picked(row: Seq<SqlValue>, stored: Seq<Value>, places: Seq<int>)
    requires
        values(row) == picked(stored, places),
    ensures
        row.len() == places.len(),
        forall|i: int| 0 <= i < places.len() ==> (#[trigger] row[i])@ == stored[places[i]],
{
    assert(values(row).len() == places.len());
    assert forall|i: int| 0 <= i < places.len() implies (#[trigger] row[i])@
        == stored[places[i]] by {
        assert(values(row)[i] == row[i]@);
    }
}

proof fn lemma_read_back(n: usize)
    ensures
        forall|value: SqlValue| #[trigger] value@ == count(n) ==> size_in(value) == n,
        forall|value: SqlValue|
            #[trigger] value@ == count(n) ==> optional_size_in(value) == Some(n),
{
    assert((n as i64) as usize == n) by (bit_vector);
}

proof fn lemma_optional_read_back(n: Option<usize>)
    ensures
        forall|value: SqlValue|
            #[trigger] value@ == optional_count(n) ==> optional_size_in(value) == n,
{
    if let Some(m) = n {
        lemma_read_back(m);
    }
}

/// A ref that is stored anew is read back as it was stored.
pub proof fn law_refs_are_read_back(record: RepositoryRefRecord, row: Seq<SqlValue>)
    requires
        values(row) == picked(upsert_repository_ref_spec(record).params, Seq::new(11, |i: int| i)),
    ensures
        mismatch(row, RepositoryRefRecord::fields()) is None,
        ({
            let read = RepositoryRefRecord::of(row);
            &&& read.id@ == record.id@
            &&& read.repository_id@ == record.repository_id@
            &&& read.ref_kind@ == record.ref_kind@
            &&& optional_text(read.ref_name) == optional_text(record.ref_name)
            &&& read.ref_identity@ == record.ref_identity@
            &&& optional_text(read.head_oid) == optional_text(record.head_oid)
            &&& read.is_current == record.is_current
            &&& optional_text(read.last_seen_at) == optional_text(record.last_seen_at)
            &&& optional_text(read.deleted_at) == optional_text(record.deleted_at)
            &&& optional_text(read.created_at) == optional_text(record.created_at)
            &&& optional_text(read.updated_at) == optional_text(record.updated_at)
        }),
{
    let stored = upsert_repository_ref_spec(record).params;
    let fields = RepositoryRefRecord::fields();
    lemma_picked(row, stored, Seq::new(11, |i: int| i));
    lemma_mismatch(row, fields, 0);
    assert forall|i: int| 0 <= i < fields.len() implies !unfit(row, #[trigger] fields[i]) by {
        assert(fields[i].at == i);
    }
}

/// The status of a watcher is read back as it was stored. A start or a heartbeat that is not given
/// is the time of the update.
pub proof fn law_watchers_are_read_back(
    status: WatcherStatusRecord,
    now: Seq<char>,
    row: Seq<SqlValue>,
)
    requires
        values(row) == picked(
            upsert_watcher_status_spec(status, now).params,
            Seq::new(20, |i: int| i),
        ),
    ensures
        mismatch(row, WatcherStatusRecord::fields()) is None,
        ({
            let read = WatcherStatusRecord::of(row);
            &&& read.repository_id@ == status.repository_id@
            &&& read.root_path@ == status.root_path@
            &&& read.mode@ == status.mode@
            &&& read.owner_kind@ == status.owner_kind@
            &&& read.owner_pid == status.owner_pid
            &&& optional_text(read.socket_path) == optional_text(status.socket_path)
            &&& read.state@ == status.state@
            &&& optional_text(read.started_at) == Some(known_or_spec(status.started_at, now))
            &&& optional_text(read.updated_at) == Some(now)
            &&& optional_text(read.heartbeat_at) == Some(known_or_spec(status.heartbeat_at, now))
            &&& read.files_seen == status.files_seen
            &&& read.queued_events == status.queued_events
            &&& optional_text(read.last_indexed_path) == optional_text(status.last_indexed_path)
            &&& optional_text(read.last_error) == optional_text(status.last_error)
            &&& optional_text(read.active_layer) == optional_text(status.active_layer)
            &&& optional_text(read.quality_status) == optional_text(status.quality_status)
            &&& read.quality_pending_jobs == status.quality_pending_jobs
            &&& read.quality_running_jobs == status.quality_running_jobs
            &&& read.quality_failed_jobs == status.quality_failed_jobs
            &&& read.quality_stale_jobs == status.quality_stale_jobs
        }),
{
    let stored = upsert_watcher_status_spec(status, now).params;
    let fields = WatcherStatusRecord::fields();
    lemma_picked(row, stored, Seq::new(20, |i: int| i));
    lemma_read_back(status.files_seen);
    lemma_read_back(status.queued_events);
    lemma_read_back(status.quality_pending_jobs);
    lemma_read_back(status.quality_running_jobs);
    lemma_read_back(status.quality_failed_jobs);
    lemma_read_back(status.quality_stale_jobs);
    lemma_mismatch(row, fields, 0);
    assert forall|i: int| 0 <= i < fields.len() implies !unfit(row, #[trigger] fields[i]) by {
        assert(fields[i].at == i);
    }
}

/// A client of a watcher that is stored anew is read back as it was stored, last seen at its
/// heartbeat.
pub proof fn law_watcher_clients_are_read_back(
    client: WatcherClientRecord,
    now: Seq<char>,
    row: Seq<SqlValue>,
)
    requires
        values(row) == picked(
            upsert_watcher_client_spec(client, now).params,
            seq![0int, 1, 2, 3, 4, 5, 5],
        ),
    ensures
        mismatch(row, WatcherClientRecord::fields()) is None,
        ({
            let read = WatcherClientRecord::of(row);
            &&& read.repository_id@ == client.repository_id@
            &&& read.client_id@ == client.client_id@
            &&& read.client_kind@ == client.client_kind@
            &&& read.pid == client.pid
            &&& optional_text(read.started_at) == Some(known_or_spec(client.started_at, now))
            &&& optional_text(read.heartbeat_at) == Some(known_or_spec(client.heartbeat_at, now))
            &&& optional_text(read.last_seen_at) == Some(known_or_spec(client.heartbeat_at, now))
        }),
{
    let stored = upsert_watcher_client_spec(client, now).params;
    let fields = WatcherClientRecord::fields();
    lemma_picked(row, stored, seq![0int, 1, 2, 3, 4, 5, 5]);
    lemma_mismatch(row, fields, 0);
    assert forall|i: int| 0 <= i < fields.len() implies !unfit(row, #[trigger] fields[i]) by {
        assert(fields[i].at == i);
    }
}

/// A symbol is read back as it was stored.
pub proof fn law_symbols_are_read_back(symbol: SymbolRecord, row: Seq<SqlValue>)
    requires
        values(row) == picked(insert_symbol_spec(symbol).params, Seq::new(13, |i: int| i)),
    ensures
        mismatch(row, SymbolRecord::fields()) is None,
        ({
            let read = SymbolRecord::of(row);
            &&& read.id@ == symbol.id@
            &&& read.file_id@ == symbol.file_id@
            &&& optional_text(read.parent_symbol_id) == optional_text(symbol.parent_symbol_id)
            &&& read.name@ == symbol.name@
            &&& read.qualified_name@ == symbol.qualified_name@
            &&& read.kind@ == symbol.kind@
            &&& optional_text(read.signature) == optional_text(symbol.signature)
            &&& read.start_line == symbol.start_line
            &&& read.end_line == symbol.end_line
            &&& read.start_byte == symbol.start_byte
            &&& read.end_byte == symbol.end_byte
            &&& read.index_run_id@ == symbol.index_run_id@
            &&& read.parser_version@ == symbol.parser_version@
        }),
{
    let stored = insert_symbol_spec(symbol).params;
    let fields = SymbolRecord::fields();
    lemma_picked(row, stored, Seq::new(13, |i: int| i));
    lemma_read_back(symbol.start_line);
    lemma_read_back(symbol.end_line);
    lemma_read_back(symbol.start_byte);
    lemma_read_back(symbol.end_byte);
    lemma_mismatch(row, fields, 0);
    assert forall|i: int| 0 <= i < fields.len() implies !unfit(row, #[trigger] fields[i]) by {
        assert(fields[i].at == i);
    }
}

/// A symbol is found with what was stored of it and of its file.
pub proof fn law_symbols_are_found_as_stored(
    symbol: SymbolRecord,
    file: FileRecord,
    indexed_at: Seq<char>,
    row: Seq<SqlValue>,
)
    requires
        values(row) == picked(
            insert_symbol_spec(symbol).params
                + insert_file_spec(file, indexed_at).params,
            seq![0int, 3, 4, 5, 15, 7, 8, 17, 11, 12, 18],
        ),
    ensures
        mismatch(row, SymbolSearchRow::fields()) is None,
        ({
            let read = SymbolSearchRow::of(row);
            &&& read.id@ == symbol.id@
            &&& read.name@ == symbol.name@
            &&& read.qualified_name@ == symbol.qualified_name@
            &&& read.kind@ == symbol.kind@
            &&& read.path@ == file.path@
            &&& read.start_line == symbol.start_line
            &&& read.end_line == symbol.end_line
            &&& optional_text(read.provenance.content_hash) == Some(file.content_hash@)
            &&& optional_text(read.provenance.index_run_id) == Some(symbol.index_run_id@)
            &&& optional_text(read.provenance.parser_version) == Some(symbol.parser_version@)
            &&& optional_text(read.provenance.indexed_at) == Some(indexed_at)
            &&& read.provenance.embedding_model is None
            &&& read.provenance.embedding_dimension is None
            &&& read.provenance.embedded_at is None
        }),
{
    let stored = insert_symbol_spec(symbol).params + insert_file_spec(file, indexed_at).params;
    let fields = SymbolSearchRow::fields();
    lemma_picked(row, stored, seq![0int, 3, 4, 5, 15, 7, 8, 17, 11, 12, 18]);
    lemma_read_back(symbol.start_line);
    lemma_read_back(symbol.end_line);
    lemma_mismatch(row, fields, 0);
    assert forall|i: int| 0 <= i < fields.len() implies !unfit(row, #[trigger] fields[i]) by {
        assert(fields[i].at == i);
    }
}

/// A symbol stands in the outline with what was stored of it and with the path of its file.
pub proof fn law_outlines_hold_stored_symbols(
    symbol: SymbolRecord,
    file: FileRecord,
    indexed_at: Seq<char>,
    row: Seq<SqlValue>,
)
    requires
        values(row) == picked(
            insert_symbol_spec(symbol).params
                + insert_file_spec(file, indexed_at).params,
            seq![0int, 2, 5, 4, 3, 7, 8, 15],
        ),
    ensures
        mismatch(row, SymbolOutlineBaseRow::fields()) is None,
        ({
            let read = SymbolOutlineBaseRow::of(row);
            &&& read.id@ == symbol.id@
            &&& optional_text(read.parent_symbol_id) == optional_text(symbol.parent_symbol_id)
            &&& read.kind@ == symbol.kind@
            &&& read.qualified_name@ == symbol.qualified_name@
            &&& read.name@ == symbol.name@
            &&& read.start_line == symbol.start_line
            &&& read.end_line == symbol.end_line
            &&& read.path@ == file.path@
        }),
{
    let stored = insert_symbol_spec(symbol).params + insert_file_spec(file, indexed_at).params;
    let fields = SymbolOutlineBaseRow::fields();
    lemma_picked(row, stored, seq![0int, 2, 5, 4, 3, 7, 8, 15]);
    lemma_read_back(symbol.start_line);
    lemma_read_back(symbol.end_line);
    lemma_mismatch(row, fields, 0);
    assert forall|i: int| 0 <= i < fields.len() implies !unfit(row, #[trigger] fields[i]) by {
        assert(fields[i].at == i);
    }
}

/// A test is found with what was stored of it and with the hash of its file.
pub proof fn law_tests_are_found_as_stored(
    test: TestRecord,
    file: FileRecord,
    indexed_at: Seq<char>,
    row: Seq<SqlValue>,
)
    requires
        values(row) == picked(
            insert_test_spec(test, indexed_at).params
                + insert_file_spec(file, indexed_at).params,
            seq![0int, 4, 5, 6, 7, 8, 9, 10, 20, 13, 14, 15],
        ),
    ensures
        mismatch(row, TestSearchRow::fields()) is None,
        ({
            let read = TestSearchRow::of(row);
            &&& read.id@ == test.id@
            &&& read.name@ == test.name@
            &&& read.qualified_name@ == test.qualified_name@
            &&& read.framework@ == test.framework@
            &&& read.language@ == test.language@
            &&& read.path@ == test.path@
            &&& read.start_line == test.start_line
            &&& read.end_line == test.end_line
            &&& optional_text(read.provenance.content_hash) == Some(file.content_hash@)
            &&& optional_text(read.provenance.index_run_id) == Some(test.index_run_id@)
            &&& optional_text(read.provenance.parser_version) == Some(test.parser_version@)
            &&& optional_text(read.provenance.indexed_at) == Some(indexed_at)
            &&& read.provenance.embedding_model is None
            &&& read.provenance.embedding_dimension is None
            &&& read.provenance.embedded_at is None
        }),
{
    let stored = insert_test_spec(test, indexed_at).params
        + insert_file_spec(file, indexed_at).params;
    let fields = TestSearchRow::fields();
    lemma_picked(row, stored, seq![0int, 4, 5, 6, 7, 8, 9, 10, 20, 13, 14, 15]);
    lemma_read_back(test.start_line);
    lemma_read_back(test.end_line);
    lemma_mismatch(row, fields, 0);
    assert forall|i: int| 0 <= i < fields.len() implies !unfit(row, #[trigger] fields[i]) by {
        assert(fields[i].at == i);
    }
}

/// A resolved call is found with what was stored of it and of the two symbols it connects, and with
/// the evidence that it was indexed with.
pub proof fn law_calls_are_found_as_stored(
    call: CallRecord,
    caller: SymbolRecord,
    caller_file: FileRecord,
    callee: SymbolRecord,
    callee_file: FileRecord,
    indexed_at: Seq<char>,
    row: Seq<SqlValue>,
)
    requires
        values(row) == picked(
            insert_call_spec(call).params
                + insert_symbol_spec(caller).params
                + insert_file_spec(caller_file, indexed_at).params
                + insert_symbol_spec(callee).params
                + insert_file_spec(callee_file, indexed_at).params,
            seq![
                0int,
                2,
                4,
                5,
                6,
                9,
                12,
                13,
                14,
                24,
                16,
                17,
                30,
                33,
                34,
                35,
                45,
                37,
                38,
                26,
                7,
                8,
                27,
            ],
        ),
    ensures
        mismatch(row, CallPathEdge::fields()) is None,
        ({
            let read = CallPathEdge::of(row);
            &&& read.call_id@ == call.id@
            &&& read.caller_symbol_id@ == caller.id@
            &&& read.caller_symbol_name@ == caller.name@
            &&& read.caller_symbol_qualified_name@ == caller.qualified_name@
            &&& read.caller_symbol_kind@ == caller.kind@
            &&& read.caller_path@ == caller_file.path@
            &&& read.caller_start_line == caller.start_line
            &&& read.caller_end_line == caller.end_line
            &&& read.callee_text@ == call.callee_text@
            &&& optional_text(read.callee_symbol_id) == Some(callee.id@)
            &&& optional_text(read.callee_symbol_name) == Some(callee.name@)
            &&& optional_text(read.callee_symbol_qualified_name) == Some(callee.qualified_name@)
            &&& optional_text(read.callee_symbol_kind) == Some(callee.kind@)
            &&& optional_text(read.callee_path) == Some(callee_file.path@)
            &&& read.callee_start_line == Some(callee.start_line)
            &&& read.callee_end_line == Some(callee.end_line)
            &&& read.call_line == call.call_line
            &&& read.confidence == call.confidence
            &&& read.resolution_status@ == call.resolution_status@
            &&& optional_text(read.provenance.content_hash) == Some(caller_file.content_hash@)
            &&& optional_text(read.provenance.index_run_id) == Some(call.index_run_id@)
            &&& optional_text(read.provenance.parser_version) == Some(call.parser_version@)
            &&& optional_text(read.provenance.indexed_at) == Some(indexed_at)
            &&& read.provenance.embedding_model is None
            &&& read.provenance.embedding_dimension is None
            &&& read.provenance.embedded_at is None
        }),
{
    let stored = insert_call_spec(call).params
        + insert_symbol_spec(caller).params
        + insert_file_spec(caller_file, indexed_at).params
        + insert_symbol_spec(callee).params
        + insert_file_spec(callee_file, indexed_at).params;
    let fields = CallPathEdge::fields();
    lemma_picked(
        row,
        stored,
        seq![
            0int,
            2,
            4,
            5,
            6,
            9,
            12,
            13,
            14,
            24,
            16,
            17,
            30,
            33,
            34,
            35,
            45,
            37,
            38,
            26,
            7,
            8,
            27,
        ],
    );
    lemma_read_back(caller.start_line);
    lemma_read_back(caller.end_line);
    lemma_read_back(callee.start_line);
    lemma_read_back(callee.end_line);
    lemma_read_back(call.call_line);
    lemma_mismatch(row, fields, 0);
    assert forall|i: int| 0 <= i < fields.len() implies !unfit(row, #[trigger] fields[i]) by {
        assert(fields[i].at == i);
    }
}

/// The state of a file is read back as it was stored.
pub proof fn law_file_states_are_read_back(
    file: FileRecord,
    indexed_at: Seq<char>,
    row: Seq<SqlValue>,
)
    requires
        values(row) == picked(insert_file_spec(file, indexed_at).params, seq![2int, 4]),
    ensures
        mismatch(row, FileStateRecord::fields()) is None,
        ({
            let read = FileStateRecord::of(row);
            &&& read.path@ == file.path@
            &&& read.content_hash@ == file.content_hash@
        }),
{
    let stored = insert_file_spec(file, indexed_at).params;
    let fields = FileStateRecord::fields();
    lemma_picked(row, stored, seq![2int, 4]);
    lemma_mismatch(row, fields, 0);
    assert forall|i: int| 0 <= i < fields.len() implies !unfit(row, #[trigger] fields[i]) by {
        assert(fields[i].at == i);
    }
}

/// The evidence of a file is read back as it was stored.
pub proof fn law_provenance_is_read_back(
    file: FileRecord,
    indexed_at: Seq<char>,
    row: Seq<SqlValue>,
)
    requires
        values(row) == picked(insert_file_spec(file, indexed_at).params, seq![4int, 6, 7, 5]),
    ensures
        mismatch(row, EvidenceProvenance::fields()) is None,
        ({
            let read = EvidenceProvenance::of(row);
            &&& optional_text(read.content_hash) == Some(file.content_hash@)
            &&& optional_text(read.index_run_id) == Some(file.index_run_id@)
            &&& optional_text(read.parser_version) == Some(file.parser_version@)
            &&& optional_text(read.indexed_at) == Some(indexed_at)
            &&& read.embedding_model is None
            &&& read.embedding_dimension is None
            &&& read.embedded_at is None
        }),
{
    let stored = insert_file_spec(file, indexed_at).params;
    let fields = EvidenceProvenance::fields();
    lemma_picked(row, stored, seq![4int, 6, 7, 5]);
    lemma_mismatch(row, fields, 0);
    assert forall|i: int| 0 <= i < fields.len() implies !unfit(row, #[trigger] fields[i]) by {
        assert(fields[i].at == i);
    }
}

/// What a file was indexed with is read back as it was stored.
pub proof fn law_freshness_snapshots_are_read_back(
    file: FileRecord,
    indexed_at: Seq<char>,
    row: Seq<SqlValue>,
)
    requires
        values(row) == picked(insert_file_spec(file, indexed_at).params, seq![2int, 4, 5, 6, 7]),
    ensures
        mismatch(row, FileFreshnessSnapshot::fields()) is None,
        ({
            let read = FileFreshnessSnapshot::of(row);
            &&& read.path@ == file.path@
            &&& read.content_hash@ == file.content_hash@
            &&& read.indexed_at@ == indexed_at
            &&& optional_text(read.index_run_id) == Some(file.index_run_id@)
            &&& optional_text(read.parser_version) == Some(file.parser_version@)
        }),
{
    let stored = insert_file_spec(file, indexed_at).params;
    let fields = FileFreshnessSnapshot::fields();
    lemma_picked(row, stored, seq![2int, 4, 5, 6, 7]);
    lemma_mismatch(row, fields, 0);
    assert forall|i: int| 0 <= i < fields.len() implies !unfit(row, #[trigger] fields[i]) by {
        assert(fields[i].at == i);
    }
}

/// A run that was started is read back as it was stored, without an end.
pub proof fn law_started_runs_are_read_back(run: IndexRunRecord, now: Seq<char>, row: Seq<SqlValue>)
    requires
        values(row) == picked(
            start_index_run_spec(run, now).params.push(Value::Null),
            seq![0int, 3, 14, 4, 5, 6, 7, 8, 9, 10, 13],
        ),
    ensures
        mismatch(row, IndexRunTimelineRow::fields()) is None,
        ({
            let read = IndexRunTimelineRow::of(row);
            &&& read.id@ == run.id@
            &&& read.started_at@ == now
            &&& read.finished_at is None
            &&& read.status@ == run.status@
            &&& read.embedding_model@ == run.embedding_model@
            &&& read.embedding_dimension == run.embedding_dimension
            &&& read.files_seen == run.files_seen
            &&& read.files_indexed == run.files_indexed
            &&& read.chunks_embedded == run.chunks_embedded
            &&& optional_text(read.error_summary) == optional_text(run.error_summary)
            &&& read.run_kind@ == run.run_kind@
        }),
{
    let stored = start_index_run_spec(run, now).params.push(Value::Null);
    let fields = IndexRunTimelineRow::fields();
    lemma_picked(row, stored, seq![0int, 3, 14, 4, 5, 6, 7, 8, 9, 10, 13]);
    lemma_optional_read_back(run.embedding_dimension);
    lemma_read_back(run.files_seen);
    lemma_read_back(run.files_indexed);
    lemma_read_back(run.chunks_embedded);
    lemma_mismatch(row, fields, 0);
    assert forall|i: int| 0 <= i < fields.len() implies !unfit(row, #[trigger] fields[i]) by {
        assert(fields[i].at == i);
    }
}

/// A run that was finished without having been started is read back as it was stored, started and
/// finished at once.
pub proof fn law_finished_runs_are_read_back(
    run: IndexRunRecord,
    now: Seq<char>,
    row: Seq<SqlValue>,
)
    requires
        values(row) == picked(
            finish_index_run_spec(run, now).params,
            seq![0int, 3, 3, 4, 5, 6, 7, 8, 9, 10, 13],
        ),
    ensures
        mismatch(row, IndexRunTimelineRow::fields()) is None,
        ({
            let read = IndexRunTimelineRow::of(row);
            &&& read.id@ == run.id@
            &&& read.started_at@ == now
            &&& optional_text(read.finished_at) == Some(now)
            &&& read.status@ == run.status@
            &&& read.embedding_model@ == run.embedding_model@
            &&& read.embedding_dimension == run.embedding_dimension
            &&& read.files_seen == run.files_seen
            &&& read.files_indexed == run.files_indexed
            &&& read.chunks_embedded == run.chunks_embedded
            &&& optional_text(read.error_summary) == optional_text(run.error_summary)
            &&& read.run_kind@ == run.run_kind@
        }),
{
    let stored = finish_index_run_spec(run, now).params;
    let fields = IndexRunTimelineRow::fields();
    lemma_picked(row, stored, seq![0int, 3, 3, 4, 5, 6, 7, 8, 9, 10, 13]);
    lemma_optional_read_back(run.embedding_dimension);
    lemma_read_back(run.files_seen);
    lemma_read_back(run.files_indexed);
    lemma_read_back(run.chunks_embedded);
    lemma_mismatch(row, fields, 0);
    assert forall|i: int| 0 <= i < fields.len() implies !unfit(row, #[trigger] fields[i]) by {
        assert(fields[i].at == i);
    }
}

/// The model, the dimension and the number of chunks of a finished run are read back as they were
/// stored.
pub proof fn law_embedding_runs_are_read_back(
    run: IndexRunRecord,
    now: Seq<char>,
    row: Seq<SqlValue>,
)
    requires
        values(row) == picked(finish_index_run_spec(run, now).params, seq![5int, 6, 9]),
    ensures
        mismatch(row, EmbeddingIndexMetadata::fields()) is None,
        ({
            let read = EmbeddingIndexMetadata::of(row);
            &&& read.embedding_model@ == run.embedding_model@
            &&& read.embedding_dimension == run.embedding_dimension
            &&& read.chunks_embedded == run.chunks_embedded
        }),
{
    let stored = finish_index_run_spec(run, now).params;
    let fields = EmbeddingIndexMetadata::fields();
    lemma_picked(row, stored, seq![5int, 6, 9]);
    lemma_optional_read_back(run.embedding_dimension);
    lemma_read_back(run.chunks_embedded);
    lemma_mismatch(row, fields, 0);
    assert forall|i: int| 0 <= i < fields.len() implies !unfit(row, #[trigger] fields[i]) by {
        assert(fields[i].at == i);
    }
}

/// What is known of a vector point is read back as it was stored.
pub proof fn law_points_are_read_back(
    table_name: Seq<char>,
    rowid: i64,
    point: VectorPoint,
    row: Seq<SqlValue>,
)
    requires
        values(row) == picked(
            upsert_point_payload_spec(table_name, rowid, point).params,
            Seq::new(18, |i: int| i + 2),
        ),
    ensures
        mismatch(row, RetrievedPoint::fields()) is None,
        ({
            let read = RetrievedPoint::of(row);
            &&& read.id@ == point.id@
            &&& read.payload.repository_id@ == point.payload.repository_id@
            &&& read.payload.file_id@ == point.payload.file_id@
            &&& read.payload.chunk_id@ == point.payload.chunk_id@
            &&& optional_text(read.payload.symbol_id) == optional_text(point.payload.symbol_id)
            &&& optional_text(read.payload.symbol_name) == optional_text(point.payload.symbol_name)
            &&& read.payload.path@ == point.payload.path@
            &&& read.payload.language@ == point.payload.language@
            &&& read.payload.chunk_kind@ == point.payload.chunk_kind@
            &&& read.payload.start_line == point.payload.start_line
            &&& read.payload.end_line == point.payload.end_line
            &&& read.payload.text_hash@ == point.payload.text_hash@
            &&& optional_text(read.payload.parser_version) == optional_text(
                point.payload.parser_version,
            )
            &&& optional_text(read.payload.content_hash) == optional_text(
                point.payload.content_hash,
            )
            &&& optional_text(read.payload.index_run_id) == optional_text(
                point.payload.index_run_id,
            )
            &&& optional_text(read.payload.embedding_model) == optional_text(
                point.payload.embedding_model,
            )
            &&& read.payload.embedding_dimension == point.payload.embedding_dimension
            &&& optional_text(read.payload.indexed_at) == optional_text(point.payload.indexed_at)
        }),
{
    let stored = upsert_point_payload_spec(table_name, rowid, point).params;
    let fields = RetrievedPoint::fields();
    lemma_picked(row, stored, Seq::new(18, |i: int| i + 2));
    lemma_read_back(point.payload.start_line);
    lemma_read_back(point.payload.end_line);
    lemma_optional_read_back(point.payload.embedding_dimension);
    lemma_mismatch(row, fields, 0);
    assert forall|i: int| 0 <= i < fields.len() implies !unfit(row, #[trigger] fields[i]) by {
        assert(fields[i].at == i);
    }
}

/// A vector point is expected with what was stored of its embedding, its chunk and its file.
pub proof fn law_expected_points_are_those_stored(
    embedding: ChunkEmbeddingRecord,
    rowid: i64,
    chunk: ChunkRecord,
    file: FileRecord,
    indexed_at: Seq<char>,
    row: Seq<SqlValue>,
)
    requires
        values(row) == picked(
            upsert_embedding_spec(embedding, rowid).params
                + insert_chunk_spec(chunk).params
                + insert_file_spec(file, indexed_at).params,
            seq![10int, 15, 33, 20, 21, 8, 5, 6],
        ),
    ensures
        mismatch(row, ExpectedVectorPoint::fields()) is None,
        ({
            let read = ExpectedVectorPoint::of(row);
            &&& read.vector_point_id@ == embedding.vector_point_id@
            &&& read.chunk_id@ == chunk.id@
            &&& read.path@ == file.path@
            &&& read.start_line == chunk.start_line
            &&& read.end_line == chunk.end_line
            &&& read.text_hash@ == embedding.text_hash@
            &&& optional_text(read.embedding_model) == Some(embedding.embedding_model@)
            &&& read.embedding_dimension == Some(embedding.embedding_dimension)
        }),
{
    let stored = upsert_embedding_spec(embedding, rowid).params
        + insert_chunk_spec(chunk).params
        + insert_file_spec(file, indexed_at).params;
    let fields = ExpectedVectorPoint::fields();
    lemma_picked(row, stored, seq![10int, 15, 33, 20, 21, 8, 5, 6]);
    lemma_read_back(chunk.start_line);
    lemma_read_back(chunk.end_line);
    lemma_read_back(embedding.embedding_dimension);
    lemma_mismatch(row, fields, 0);
    assert forall|i: int| 0 <= i < fields.len() implies !unfit(row, #[trigger] fields[i]) by {
        assert(fields[i].at == i);
    }
}

} // verus!
