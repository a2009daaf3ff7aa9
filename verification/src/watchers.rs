//! The watcher of a repository and its clients.

use vstd::prelude::*;
use crate::records::{WatcherClientRecord, WatcherStatusRecord};
use crate::sql::{
    count, count_value, optional, optional_owned_value, optional_small, optional_small_value,
    owned_value, statement, statement_of, text, text_value, values, Statement, StatementView,
};
use crate::store::SqliteStore;
use crate::text::optional_text;

verus! {

pub const WATCHER_STATUS: &'static str =
    "SELECT repository_id, root_path, mode, owner_kind, owner_pid, socket_path,
          state, started_at, updated_at, heartbeat_at, files_seen, queued_events,
          last_indexed_path, last_error, active_layer, quality_status,
          quality_pending_jobs, quality_running_jobs, quality_failed_jobs,
          quality_stale_jobs
     FROM watchers
    WHERE repository_id = ?1";

pub const UPSERT_WATCHER_STATUS: &'static str = "INSERT INTO watchers (
      repository_id, root_path, mode, owner_kind, owner_pid, socket_path,
      state, started_at, updated_at, heartbeat_at, files_seen, queued_events,
      last_indexed_path, last_error, active_layer, quality_status,
      quality_pending_jobs, quality_running_jobs, quality_failed_jobs,
      quality_stale_jobs
    )
    VALUES (?1, ?2, ?3, ?4, ?5, ?6, ?7, ?8, ?9, ?10, ?11, ?12, ?13, ?14, ?15, ?16, ?17, ?18, ?19, ?20)
    ON CONFLICT(repository_id) DO UPDATE SET
      root_path = excluded.root_path,
      mode = excluded.mode,
      owner_kind = excluded.owner_kind,
      owner_pid = excluded.owner_pid,
      socket_path = excluded.socket_path,
      state = excluded.state,
      started_at = excluded.started_at,
      updated_at = excluded.updated_at,
      heartbeat_at = excluded.heartbeat_at,
      files_seen = excluded.files_seen,
      queued_events = excluded.queued_events,
      last_indexed_path = excluded.last_indexed_path,
      last_error = excluded.last_error,
      active_layer = excluded.active_layer,
      quality_status = excluded.quality_status,
      quality_pending_jobs = excluded.quality_pending_jobs,
      quality_running_jobs = excluded.quality_running_jobs,
      quality_failed_jobs = excluded.quality_failed_jobs,
      quality_stale_jobs = excluded.quality_stale_jobs";

pub const MARK_WATCHER_STOPPED: &'static str = "UPDATE watchers
      SET state = 'stopped',
          updated_at = ?2,
          heartbeat_at = ?2,
          owner_pid = NULL,
          socket_path = NULL,
          queued_events = 0
    WHERE repository_id = ?1";

pub const MARK_WATCHER_FAILED: &'static str = "UPDATE watchers
      SET state = 'failed',
          updated_at = ?2,
          heartbeat_at = ?2,
          last_error = ?3,
          owner_pid = NULL,
          socket_path = NULL
    WHERE repository_id = ?1";

pub const UPSERT_WATCHER_CLIENT: &'static str = "INSERT INTO watcher_clients (
      repository_id, client_id, client_kind, pid, started_at,
      heartbeat_at, last_seen_at
    )
    VALUES (?1, ?2, ?3, ?4, ?5, ?6, ?6)
    ON CONFLICT(repository_id, client_id) DO UPDATE SET
      client_kind = excluded.client_kind,
      pid = excluded.pid,
      heartbeat_at = excluded.heartbeat_at,
      last_seen_at = excluded.last_seen_at";

pub const HEARTBEAT_WATCHER_CLIENT: &'static str = "UPDATE watcher_clients
      SET heartbeat_at = ?3,
          last_seen_at = ?3
    WHERE repository_id = ?1 AND client_id = ?2";

pub const REMOVE_WATCHER_CLIENT: &'static str = "DELETE FROM watcher_clients
    WHERE repository_id = ?1 AND client_id = ?2";

pub const WATCHER_CLIENTS: &'static str =
    "SELECT repository_id, client_id, client_kind, pid, started_at,
          heartbeat_at, last_seen_at
     FROM watcher_clients
    WHERE repository_id = ?1
    ORDER BY client_kind, started_at, client_id";

pub const PRUNE_STALE_WATCHER_CLIENTS: &'static str = "DELETE FROM watcher_clients
    WHERE repository_id = ?1 AND heartbeat_at < ?2";

/// The reading of `watcher_status`.
pub open spec fn watcher_status_spec(repository_id: Seq<char>) -> StatementView {
    statement_of(WATCHER_STATUS, seq![text(repository_id)])
}

/// The reading of `upsert_watcher_status`.
pub open spec fn upsert_watcher_status_spec(
    status: WatcherStatusRecord,
    now: Seq<char>,
) -> StatementView {
    statement_of(
        UPSERT_WATCHER_STATUS,
        seq![
            text(status.repository_id@),
            text(status.root_path@),
            text(status.mode@),
            text(status.owner_kind@),
            optional_small(status.owner_pid),
            optional(optional_text(status.socket_path)),
            text(status.state@),
            text(known_or_spec(status.started_at, now)),
            text(now),
            text(known_or_spec(status.heartbeat_at, now)),
            count(status.files_seen),
            count(status.queued_events),
            optional(optional_text(status.last_indexed_path)),
            optional(optional_text(status.last_error)),
            optional(optional_text(status.active_layer)),
            optional(optional_text(status.quality_status)),
            count(status.quality_pending_jobs),
            count(status.quality_running_jobs),
            count(status.quality_failed_jobs),
            count(status.quality_stale_jobs),
        ],
    )
}

/// The reading of `mark_watcher_stopped`.
pub open spec fn mark_watcher_stopped_spec(
    repository_id: Seq<char>,
    now: Seq<char>,
) -> StatementView {
    statement_of(MARK_WATCHER_STOPPED, seq![text(repository_id), text(now)])
}

/// The reading of `mark_watcher_failed`.
pub open spec fn mark_watcher_failed_spec(
    repository_id: Seq<char>,
    error: Seq<char>,
    now: Seq<char>,
) -> StatementView {
    statement_of(MARK_WATCHER_FAILED, seq![text(repository_id), text(now), text(error)])
}

/// The reading of `upsert_watcher_client`.
pub open spec fn upsert_watcher_client_spec(
    client: WatcherClientRecord,
    now: Seq<char>,
) -> StatementView {
    statement_of(
        UPSERT_WATCHER_CLIENT,
        seq![
            text(client.repository_id@),
            text(client.client_id@),
            text(client.client_kind@),
            optional_small(client.pid),
            text(known_or_spec(client.started_at, now)),
            text(known_or_spec(client.heartbeat_at, now)),
        ],
    )
}

/// The reading of `heartbeat_watcher_client`.
pub open spec fn heartbeat_watcher_client_spec(
    repository_id: Seq<char>,
    client_id: Seq<char>,
    now: Seq<char>,
) -> StatementView {
    statement_of(HEARTBEAT_WATCHER_CLIENT, seq![text(repository_id), text(client_id), text(now)])
}

/// The reading of `remove_watcher_client`.
pub open spec fn remove_watcher_client_spec(
    repository_id: Seq<char>,
    client_id: Seq<char>,
) -> StatementView {
    statement_of(REMOVE_WATCHER_CLIENT, seq![text(repository_id), text(client_id)])
}

/// The reading of `watcher_clients`.
pub open spec fn watcher_clients_spec(repository_id: Seq<char>) -> StatementView {
    statement_of(WATCHER_CLIENTS, seq![text(repository_id)])
}

/// The reading of `prune_stale_watcher_clients`.
pub open spec fn prune_stale_watcher_clients_spec(
    repository_id: Seq<char>,
    stale_before_timestamp: Seq<char>,
) -> StatementView {
    statement_of(
        PRUNE_STALE_WATCHER_CLIENTS,
        seq![
            text(repository_id),
            text(stale_before_timestamp),
        ],
    )
}

impl SqliteStore {
    /// The state of the watcher. Read as a `WatcherStatusRecord`.
    pub fn watcher_status(repository_id: &str) -> (r: Statement)
        ensures
            r@ == watcher_status_spec(repository_id@),
    {
        let params = vec![text_value(repository_id)];
        proof {
            assert(values(params@) =~= watcher_status_spec(repository_id@).params);
        }
        statement(WATCHER_STATUS, params)
    }

    /// Stores the state of the watcher. It is updated `now`, and so are its start and its heartbeat
    /// where they are not known.
    pub fn upsert_watcher_status(status: &WatcherStatusRecord, now: &str) -> (r: Statement)
        ensures
            r@ == upsert_watcher_status_spec(*status, now@),
    {
        let params = vec![
            owned_value(&status.repository_id),
            owned_value(&status.root_path),
            owned_value(&status.mode),
            owned_value(&status.owner_kind),
            optional_small_value(status.owner_pid),
            optional_owned_value(&status.socket_path),
            owned_value(&status.state),
            text_value(known_or(&status.started_at, now)),
            text_value(now),
            text_value(known_or(&status.heartbeat_at, now)),
            count_value(status.files_seen),
            count_value(status.queued_events),
            optional_owned_value(&status.last_indexed_path),
            optional_owned_value(&status.last_error),
            optional_owned_value(&status.active_layer),
            optional_owned_value(&status.quality_status),
            count_value(status.quality_pending_jobs),
            count_value(status.quality_running_jobs),
            count_value(status.quality_failed_jobs),
            count_value(status.quality_stale_jobs),
        ];
        proof {
            assert(values(params@) =~= upsert_watcher_status_spec(*status, now@).params);
        }
        statement(UPSERT_WATCHER_STATUS, params)
    }

    /// Marks the watcher as stopped.
    pub fn mark_watcher_stopped(repository_id: &str, now: &str) -> (r: Statement)
        ensures
            r@ == mark_watcher_stopped_spec(repository_id@, now@),
    {
        let params = vec![text_value(repository_id), text_value(now)];
        proof {
            assert(values(params@) =~= mark_watcher_stopped_spec(repository_id@, now@).params);
        }
        statement(MARK_WATCHER_STOPPED, params)
    }

    /// Marks the watcher as failed.
    pub fn mark_watcher_failed(repository_id: &str, error: &str, now: &str) -> (r: Statement)
        ensures
            r@ == mark_watcher_failed_spec(repository_id@, error@, now@),
    {
        let params = vec![text_value(repository_id), text_value(now), text_value(error)];
        proof {
            assert(values(params@) =~= mark_watcher_failed_spec(
                repository_id@,
                error@,
                now@,
            ).params);
        }
        statement(MARK_WATCHER_FAILED, params)
    }

    /// Stores a client of the watcher. Its start and its heartbeat are `now` where they are not
    /// known.
    pub fn upsert_watcher_client(client: &WatcherClientRecord, now: &str) -> (r: Statement)
        ensures
            r@ == upsert_watcher_client_spec(*client, now@),
    {
        let params = vec![
            owned_value(&client.repository_id),
            owned_value(&client.client_id),
            owned_value(&client.client_kind),
            optional_small_value(client.pid),
            text_value(known_or(&client.started_at, now)),
            text_value(known_or(&client.heartbeat_at, now)),
        ];
        proof {
            assert(values(params@) =~= upsert_watcher_client_spec(*client, now@).params);
        }
        statement(UPSERT_WATCHER_CLIENT, params)
    }

    /// Records that a client is alive.
    pub fn heartbeat_watcher_client(
        repository_id: &str,
        client_id: &str,
        now: &str,
    ) -> (r: Statement)
        ensures
            r@ == heartbeat_watcher_client_spec(repository_id@, client_id@, now@),
    {
        let params = vec![text_value(repository_id), text_value(client_id), text_value(now)];
        proof {
            assert(values(params@) =~= heartbeat_watcher_client_spec(
                repository_id@,
                client_id@,
                now@,
            ).params);
        }
        statement(HEARTBEAT_WATCHER_CLIENT, params)
    }

    /// Removes a client.
    pub fn remove_watcher_client(repository_id: &str, client_id: &str) -> (r: Statement)
        ensures
            r@ == remove_watcher_client_spec(repository_id@, client_id@),
    {
        let params = vec![text_value(repository_id), text_value(client_id)];
        proof {
            assert(values(params@) =~= remove_watcher_client_spec(
                repository_id@,
                client_id@,
            ).params);
        }
        statement(REMOVE_WATCHER_CLIENT, params)
    }

    /// The clients of the watcher. Read as `WatcherClientRecord`s.
    pub fn watcher_clients(repository_id: &str) -> (r: Statement)
        ensures
            r@ == watcher_clients_spec(repository_id@),
    {
        let params = vec![text_value(repository_id)];
        proof {
            assert(values(params@) =~= watcher_clients_spec(repository_id@).params);
        }
        statement(WATCHER_CLIENTS, params)
    }

    /// Removes the clients whose last heartbeat is older than a timestamp.
    pub fn prune_stale_watcher_clients(
        repository_id: &str,
        stale_before_timestamp: &str,
    ) -> (r: Statement)
        ensures
            r@ == prune_stale_watcher_clients_spec(repository_id@, stale_before_timestamp@),
    {
        let params = vec![text_value(repository_id), text_value(stale_before_timestamp)];
        proof {
            assert(values(params@) =~= prune_stale_watcher_clients_spec(
                repository_id@,
                stale_before_timestamp@,
            ).params);
        }
        statement(PRUNE_STALE_WATCHER_CLIENTS, params)
    }
}

/// A known timestamp, or else `now`.
pub open spec fn known_or_spec(timestamp: Option<String>, now: Seq<char>) -> Seq<char> {
    match timestamp {
        Some(timestamp) => timestamp@,
        None => now,
    }
}

fn known_or<'a>(timestamp: &'a Option<String>, now: &'a str) -> (r: &'a str)
    ensures
        r@ == known_or_spec(*timestamp, now@),
{
    match timestamp {
        Some(timestamp) => timestamp.as_str(),
        None => now,
    }
}

} // verus!
