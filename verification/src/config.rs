//! Where the store is, and how time is written.

use vstd::prelude::*;
use crate::text::{decimal, decimal_digits};

verus! {

/// Where the database is.
#[derive(Debug, Clone, PartialEq, Eq)]
pub struct StoreConfig {
    pub sqlite_path: String,
}

impl StoreConfig {
    /// The configuration that two environment variables give: `SYMDEX_DB_PATH` first, then
    /// `symdex_DB_PATH`, else the default path.
    pub fn from_env(upper: Option<&str>, legacy: Option<&str>) -> (r: StoreConfig)
        ensures
            r.sqlite_path@ == match (upper, legacy) {
                (Some(path), _) => path@,
                (None, Some(path)) => path@,
                (None, None) => ".symdex/symdex.sqlite"@,
            },
    {
        let sqlite_path = match (upper, legacy) {
            (Some(path), _) => path.to_owned(),
            (None, Some(path)) => path.to_owned(),
            (None, None) => ".symdex/symdex.sqlite".to_owned(),
        };
        StoreConfig { sqlite_path }
    }
}

/// A timestamp: the seconds since the epoch in decimal notation, 0 for a clock before it.
pub fn current_timestamp(seconds_since_epoch: Option<u64>) -> (r: String)
    ensures
        r@ == decimal_digits(match seconds_since_epoch {
            Some(seconds) => seconds as nat,
            None => 0,
        }),
{
    match seconds_since_epoch {
        Some(seconds) => decimal(seconds as u128),
        None => decimal(0),
    }
}

/// The id of a new index run: the repository, the kind of run and the nanoseconds since the epoch.
pub fn new_index_run_id(repository_id: &str, run_kind: &str, nanoseconds_since_epoch: u128) -> (r:
    String)
    ensures
        r@ == repository_id@ + "-"@ + run_kind@ + "-"@ + decimal_digits(
            nanoseconds_since_epoch as nat,
        ),
{
    let mut id = repository_id.to_owned();
    id.append("-");
    id.append(run_kind);
    id.append("-");
    id.append(decimal(nanoseconds_since_epoch).as_str());
    id
}

} // verus!
