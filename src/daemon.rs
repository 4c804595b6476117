use vstd::prelude::*;

use crate::error::SyncError;
use crate::reconcile::{cycle, detect_step, next_cache, read_step, AfterDetect, RecordCall, UpdateResult};
use crate::record::{with_address, DnsRecord};

verus! {

/// The daemon's memory between cycles: the address it believes the remote
/// record holds. Empty until the first successful cycle.
#[derive(Debug)]
pub struct Daemon {
    cached_ip: String,
}

impl Daemon {
    /// A daemon that has not yet observed any address.
    pub fn new() -> (d: Daemon)
        ensures
            d.cached() == Seq::<char>::empty(),
    {
        Daemon { cached_ip: String::new() }
    }

    pub closed spec fn cached(&self) -> Seq<char> {
        self.cached_ip@
    }

    /// The address the daemon believes the remote record holds.
    pub fn cached_ip(&self) -> (r: &String)
        ensures
            r@ == self.cached(),
    {
        &self.cached_ip
    }

    /// Starts a cycle from the cached address and the detection outcome.
    pub fn on_detected(&self, detected: Result<String, SyncError>) -> (r: AfterDetect)
        ensures
            r == detect_step(self.cached(), detected),
    {
        crate::reconcile::after_detect(&self.cached_ip, detected)
    }

    /// Takes note of a finished cycle: any success moves the cache to the
    /// detected address, written or not; a failure leaves it untouched.
    pub fn record_outcome(&mut self, outcome: &Result<UpdateResult, SyncError>)
        ensures
            final(self).cached() == next_cache(old(self).cached(), *outcome),
    {
        match outcome {
            Ok(u) => {
                self.cached_ip = u.ip.clone();
            },
            Err(_) => {},
        }
    }
}

/// When the detected address equals the cached one, the cycle makes no
/// record call, reports no change, and leaves the cache as it was.
pub proof fn fast_path_makes_no_call(
    cached: Seq<char>,
    ip: String,
    fetched: Result<DnsRecord, SyncError>,
    written: Result<(), SyncError>,
)
    requires
        ip@ == cached,
    ensures
        cycle(cached, Ok(ip), fetched, written).0 == Seq::<RecordCall>::empty(),
        cycle(cached, Ok(ip), fetched, written).1 == Ok::<UpdateResult, SyncError>(
            UpdateResult { ip, changed: false },
        ),
        next_cache(cached, cycle(cached, Ok(ip), fetched, written).1) == cached,
{
}

/// When the detected address differs from both the cached one and the
/// remote record's, the cycle reads once and writes once, the write carrying
/// the record read with only its address replaced.
pub proof fn changed_address_writes_once(
    cached: Seq<char>,
    ip: String,
    rec: DnsRecord,
    written: Result<(), SyncError>,
)
    requires
        ip@ != cached,
        rec.content@ != ip@,
    ensures
        cycle(cached, Ok(ip), Ok(rec), written).0 == seq![
            RecordCall::Read,
            RecordCall::Write(with_address(rec, ip)),
        ],
        written is Ok ==> cycle(cached, Ok(ip), Ok(rec), written).1 == Ok::<UpdateResult, SyncError>(
            UpdateResult { ip, changed: true },
        ),
{
}

/// The record written by a cycle equals the record read in every field but
/// the address, which becomes the detected one.
pub proof fn write_keeps_other_fields(
    cached: Seq<char>,
    ip: String,
    rec: DnsRecord,
    written: Result<(), SyncError>,
)
    requires
        ip@ != cached,
        rec.content@ != ip@,
    ensures
        cycle(cached, Ok(ip), Ok(rec), written).0.len() == 2,
        ({
            let w = cycle(cached, Ok(ip), Ok(rec), written).0[1]->Write_0;
            &&& cycle(cached, Ok(ip), Ok(rec), written).0[1] is Write
            &&& w.comment == rec.comment
            &&& w.name == rec.name
            &&& w.proxied == rec.proxied
            &&& w.settings == rec.settings
            &&& w.tags == rec.tags
            &&& w.ttl == rec.ttl
            &&& w.record_type == rec.record_type
            &&& w.content@ == ip@
        }),
{
}

/// When the remote record already holds the detected address, the cycle
/// reads it, writes nothing, and the cache moves to the detected address.
pub proof fn matching_record_needs_no_write(
    cached: Seq<char>,
    ip: String,
    rec: DnsRecord,
    written: Result<(), SyncError>,
)
    requires
        ip@ != cached,
        rec.content@ == ip@,
    ensures
        cycle(cached, Ok(ip), Ok(rec), written).0 == seq![RecordCall::Read],
        cycle(cached, Ok(ip), Ok(rec), written).1 == Ok::<UpdateResult, SyncError>(
            UpdateResult { ip, changed: false },
        ),
        next_cache(cached, cycle(cached, Ok(ip), Ok(rec), written).1) == ip@,
{
}

/// A failure at detection, at the record read, or at the record write ends
/// the cycle in that error and leaves the cache at its value before the
/// cycle.
pub proof fn failure_keeps_cache(
    cached: Seq<char>,
    detected: Result<String, SyncError>,
    fetched: Result<DnsRecord, SyncError>,
    written: Result<(), SyncError>,
)
    ensures
        detected is Err ==> cycle(cached, detected, fetched, written).1 == Err::<
            UpdateResult,
            SyncError,
        >(detected->Err_0),
        detected is Ok && detected->Ok_0@ != cached && fetched is Err ==> cycle(
            cached,
            detected,
            fetched,
            written,
        ).1 == Err::<UpdateResult, SyncError>(fetched->Err_0),
        detected is Ok && detected->Ok_0@ != cached && fetched is Ok && fetched->Ok_0.content@
            != detected->Ok_0@ && written is Err ==> cycle(cached, detected, fetched, written).1
            == Err::<UpdateResult, SyncError>(written->Err_0),
        cycle(cached, detected, fetched, written).1 is Err ==> next_cache(
            cached,
            cycle(cached, detected, fetched, written).1,
        ) == cached,
{
}

} // verus!
