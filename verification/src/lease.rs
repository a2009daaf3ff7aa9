//! The writer lease: one writer per database, and what it tells about its owner.

use vstd::prelude::*;
use crate::naming::{blank, is_blank};
use crate::text::{copy_optional, decimal, decimal_digits};

verus! {

/// What a writer does with the database.
#[derive(Debug, Clone, Copy, PartialEq, Eq, Structural)]
pub enum WriterLeaseKind {
    Init,
    ManualIndex,
    WatcherDaemon,
    WatcherForeground,
    WatcherLauncher,
    QualityIndex,
    VectorRepair,
    Maintenance,
}

impl WriterLeaseKind {
    pub open spec fn text(self) -> Seq<char> {
        match self {
            WriterLeaseKind::Init => "init"@,
            WriterLeaseKind::ManualIndex => "manual_index"@,
            WriterLeaseKind::WatcherDaemon => "watcher_daemon"@,
            WriterLeaseKind::WatcherForeground => "watcher_foreground"@,
            WriterLeaseKind::WatcherLauncher => "watcher_launcher"@,
            WriterLeaseKind::QualityIndex => "quality_index"@,
            WriterLeaseKind::VectorRepair => "vector_repair"@,
            WriterLeaseKind::Maintenance => "maintenance"@,
        }
    }

    pub fn as_str(self) -> (r: &'static str)
        ensures
            r@ == self.text(),
    {
        match self {
            WriterLeaseKind::Init => "init",
            WriterLeaseKind::ManualIndex => "manual_index",
            WriterLeaseKind::WatcherDaemon => "watcher_daemon",
            WriterLeaseKind::WatcherForeground => "watcher_foreground",
            WriterLeaseKind::WatcherLauncher => "watcher_launcher",
            WriterLeaseKind::QualityIndex => "quality_index",
            WriterLeaseKind::VectorRepair => "vector_repair",
            WriterLeaseKind::Maintenance => "maintenance",
        }
    }
}

/// A request for the lease.
#[derive(Debug, Clone, PartialEq, Eq)]
pub struct WriterLeaseRequest {
    pub kind: WriterLeaseKind,
    pub operation: String,
    pub repository_id: Option<String>,
    pub repo_root: Option<String>,
}

impl WriterLeaseRequest {
    pub fn new(kind: WriterLeaseKind, operation: &str) -> (r: Self)
        ensures
            r.kind == kind,
            r.operation@ == operation@,
            r.repository_id is None,
            r.repo_root is None,
    {
        WriterLeaseRequest {
            kind,
            operation: operation.to_owned(),
            repository_id: None,
            repo_root: None,
        }
    }

    pub fn for_repo(self, repository_id: &str, repo_root: &str) -> (r: Self)
        ensures
            r.kind == self.kind,
            r.operation == self.operation,
            r.repository_id matches Some(id) && id@ == repository_id@,
            r.repo_root matches Some(root) && root@ == repo_root@,
    {
        WriterLeaseRequest {
            kind: self.kind,
            operation: self.operation,
            repository_id: Some(repository_id.to_owned()),
            repo_root: Some(repo_root.to_owned()),
        }
    }
}

/// What the holder of the lease tells about itself.
#[derive(Debug, Clone, PartialEq, Eq)]
pub struct WriterLeaseInfo {
    pub owner_kind: String,
    pub pid: u32,
    pub operation: String,
    pub repository_id: Option<String>,
    pub repo_root: Option<String>,
    pub started_at: String,
}

impl WriterLeaseInfo {
    /// The information of the process `pid` that got the lease at `started_at`.
    pub fn from_request(request: &WriterLeaseRequest, pid: u32, started_at: &str) -> (r: Self)
        ensures
            r.owner_kind@ == request.kind.text(),
            r.pid == pid,
            r.operation == request.operation,
            r.repository_id == request.repository_id,
            r.repo_root == request.repo_root,
            r.started_at@ == started_at@,
    {
        WriterLeaseInfo {
            owner_kind: request.kind.as_str().to_owned(),
            pid,
            operation: request.operation.clone(),
            repository_id: copy_optional(&request.repository_id),
            repo_root: copy_optional(&request.repo_root),
            started_at: started_at.to_owned(),
        }
    }
}

/// Whether a lock file tells who holds the lease: it is there, and more than white space.
pub open spec fn tells_owner(contents: Option<&str>) -> bool {
    match contents {
        Some(contents) => !is_blank(contents@),
        None => false,
    }
}

/// Whether the contents of the lock file, if there is one, are to be read as lease information.
pub fn read_writer_lease_info(contents: Option<&str>) -> (r: bool)
    ensures
        r == tells_owner(contents),
{
    match contents {
        Some(contents) => !blank(contents),
        None => false,
    }
}

/// The file that the lease is taken on.
#[derive(Debug, Clone, PartialEq, Eq)]
pub struct WriterLockPath {
    pub directory: Option<String>,
    pub file_name: String,
}

/// The lock file of a database: next to it, under its name with `.writer.lock` behind.
///
/// `directory` and `file_name` are those of the database, as far as its path has them.
pub fn writer_lock_path(directory: Option<&str>, file_name: Option<&str>) -> (r: WriterLockPath)
    ensures
        crate::text::optional_text(r.directory) == crate::text::optional_str(directory),
        r.file_name@ == match file_name {
            Some(name) => name@ + ".writer.lock"@,
            None => "symdex.sqlite.writer.lock"@,
        },
{
    let file_name = match file_name {
        Some(name) => crate::text::concat(name, ".writer.lock"),
        None => "symdex.sqlite.writer.lock".to_owned(),
    };
    let directory = match directory {
        Some(directory) => Some(directory.to_owned()),
        None => None,
    };
    WriterLockPath { directory, file_name }
}

/// The message for a request that found the lease taken.
pub open spec fn busy_message(owner: Option<WriterLeaseInfo>) -> Seq<char> {
    match owner {
        None =>
            "database writer busy: owner=<unknown>; stop the active writer or wait for it to finish"@,
        Some(owner) => "database writer busy: owner="@ + owner.owner_kind@ + " pid="@
            + decimal_digits(owner.pid as nat) + " repo="@ + (match owner.repo_root {
            Some(root) => root@,
            None => "<none>"@,
        }) + " operation="@ + owner.operation@
            + "; stop the active writer or wait for it to finish"@,
    }
}

pub fn writer_busy_message(owner: Option<&WriterLeaseInfo>) -> (r: String)
    ensures
        r@ == busy_message(match owner {
            Some(info) => Some(*info),
            None => None,
        }),
{
    match owner {
        None =>
            "database writer busy: owner=<unknown>; stop the active writer or wait for it to finish".to_owned(),
        Some(owner) => {
            let mut out = "database writer busy: owner=".to_owned();
            out.append(owner.owner_kind.as_str());
            out.append(" pid=");
            out.append(decimal(owner.pid as u128).as_str());
            out.append(" repo=");
            match &owner.repo_root {
                Some(root) => out.append(root.as_str()),
                None => out.append("<none>"),
            }
            out.append(" operation=");
            out.append(owner.operation.as_str());
            out.append("; stop the active writer or wait for it to finish");
            out
        },
    }
}

} // verus!
