use vstd::prelude::*;
use vstd::string::*;

use crate::error::SyncError;

verus! {

/// Seconds between cycles when no interval is configured.
pub const DEFAULT_INTERVAL: u64 = 120;

/// The daemon's settings, fixed for the life of the process.
#[derive(Debug)]
pub struct AppConfig {
    pub interval: u64,
    pub zone_id: String,
    pub record_id: String,
    pub token: String,
}

impl AppConfig {
    pub open spec fn wf(&self) -> bool {
        self.interval > 0
    }

    /// Settings from what the environment supplied. The interval defaults
    /// to `DEFAULT_INTERVAL`; a missing zone, record or token, or a zero
    /// interval, is `ConfigMissing`.
    pub fn from_settings(
        interval: Option<u64>,
        zone_id: Option<String>,
        record_id: Option<String>,
        token: Option<String>,
    ) -> (r: Result<AppConfig, SyncError>)
        ensures
            r is Ok <==> zone_id is Some && record_id is Some && token is Some && interval
                != Some(0u64),
            r is Err ==> r->Err_0 == SyncError::ConfigMissing,
            r is Ok ==> {
                let c = r->Ok_0;
                &&& c.wf()
                &&& c.interval == (if interval is Some {
                    interval->0
                } else {
                    DEFAULT_INTERVAL
                })
                &&& c.zone_id == zone_id->0
                &&& c.record_id == record_id->0
                &&& c.token == token->0
            },
    {
        let secs = match interval {
            Some(n) => n,
            None => DEFAULT_INTERVAL,
        };
        if secs == 0 {
            return Err(SyncError::ConfigMissing);
        }
        match (zone_id, record_id, token) {
            (Some(zone_id), Some(record_id), Some(token)) => Ok(
                AppConfig { interval: secs, zone_id, record_id, token },
            ),
            _ => Err(SyncError::ConfigMissing),
        }
    }
}

/// A mask for a secret: one `*` for each of its characters.
pub fn redact(token: &str) -> (r: String)
    ensures
        r@.len() == token@.len(),
        forall|i: int| 0 <= i < r@.len() ==> r@[i] == '*',
{
    let n = token.unicode_len();
    let mut mask = String::new();
    let mut i: usize = 0;
    while i < n
        invariant
            n == token@.len(),
            i <= n,
            mask@.len() == i,
            forall|j: int| 0 <= j < mask@.len() ==> mask@[j] == '*',
        decreases n - i,
    {
        proof {
            reveal_strlit("*");
        }
        mask.append("*");
        i = i + 1;
    }
    mask
}

} // verus!
