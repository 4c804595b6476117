use vstd::prelude::*;

use crate::error::SyncError;
use crate::record::{with_address, DnsRecord};

verus! {

/// The outcome of a successful cycle: the detected address, and whether the
/// remote record was written.
#[derive(Debug)]
pub struct UpdateResult {
    pub ip: String,
    pub changed: bool,
}

/// What a cycle needs once the public address has been detected.
#[derive(Debug)]
pub enum AfterDetect {
    /// The cycle is over, with this outcome.
    Finished(Result<UpdateResult, SyncError>),
    /// Read the remote record, then hand the reply to `after_read`.
    ReadRecord { ip: String },
}

/// What a cycle needs once the remote record has been read.
#[derive(Debug)]
pub enum AfterRead {
    /// The cycle is over, with this outcome.
    Finished(Result<UpdateResult, SyncError>),
    /// Write `record` back, then hand the reply to `after_write`.
    WriteRecord { ip: String, record: DnsRecord },
}

/// A call on the provider's record API made during a cycle.
pub enum RecordCall {
    Read,
    Write(DnsRecord),
}

/// The decision taken once detection has reported.
pub open spec fn detect_step(cached: Seq<char>, detected: Result<String, SyncError>) -> AfterDetect {
    match detected {
        Err(e) => AfterDetect::Finished(Err(e)),
        Ok(ip) => if ip@ == cached {
            AfterDetect::Finished(Ok(UpdateResult { ip, changed: false }))
        } else {
            AfterDetect::ReadRecord { ip }
        },
    }
}

/// The decision taken once the record read has reported.
pub open spec fn read_step(ip: String, fetched: Result<DnsRecord, SyncError>) -> AfterRead {
    match fetched {
        Err(e) => AfterRead::Finished(Err(e)),
        Ok(rec) => if rec.content@ == ip@ {
            AfterRead::Finished(Ok(UpdateResult { ip, changed: false }))
        } else {
            AfterRead::WriteRecord { ip, record: with_address(rec, ip) }
        },
    }
}

/// The outcome once the record write has reported.
pub open spec fn write_step(ip: String, written: Result<(), SyncError>) -> Result<
    UpdateResult,
    SyncError,
> {
    match written {
        Err(e) => Err(e),
        Ok(_) => Ok(UpdateResult { ip, changed: true }),
    }
}

/// One whole cycle, given what detection, the record read and the record
/// write would report: the record calls made, in order, and the outcome.
pub open spec fn cycle(
    cached: Seq<char>,
    detected: Result<String, SyncError>,
    fetched: Result<DnsRecord, SyncError>,
    written: Result<(), SyncError>,
) -> (Seq<RecordCall>, Result<UpdateResult, SyncError>) {
    match detect_step(cached, detected) {
        AfterDetect::Finished(out) => (Seq::empty(), out),
        AfterDetect::ReadRecord { ip } => match read_step(ip, fetched) {
            AfterRead::Finished(out) => (seq![RecordCall::Read], out),
            AfterRead::WriteRecord { ip, record } => (
                seq![RecordCall::Read, RecordCall::Write(record)],
                write_step(ip, written),
            ),
        },
    }
}

/// The cached address after a cycle with this outcome: the detected address
/// on any success, the old value on failure.
pub open spec fn next_cache(cached: Seq<char>, outcome: Result<UpdateResult, SyncError>) -> Seq<
    char,
> {
    match outcome {
        Ok(u) => u.ip@,
        Err(_) => cached,
    }
}

/// First decision of a cycle. A detection failure ends it; an address equal
/// to the cached one ends it with no record call; any other address asks
/// for the remote record.
pub fn after_detect(cached_ip: &String, detected: Result<String, SyncError>) -> (r: AfterDetect)
    ensures
        r == detect_step(cached_ip@, detected),
{
    match detected {
        Err(e) => AfterDetect::Finished(Err(e)),
        Ok(ip) => if ip == *cached_ip {
            AfterDetect::Finished(Ok(UpdateResult { ip, changed: false }))
        } else {
            AfterDetect::ReadRecord { ip }
        },
    }
}

/// Second decision of a cycle. A read failure ends it; a record that
/// already holds `ip` ends it without a write; otherwise the record, with
/// only its address changed to `ip`, is to be written back.
pub fn after_read(ip: String, fetched: Result<DnsRecord, SyncError>) -> (r: AfterRead)
    ensures
        r == read_step(ip, fetched),
{
    match fetched {
        Err(e) => AfterRead::Finished(Err(e)),
        Ok(rec) => if rec.content == ip {
            AfterRead::Finished(Ok(UpdateResult { ip, changed: false }))
        } else {
            let addr = ip.clone();
            AfterRead::WriteRecord { ip, record: rec.set_address(addr) }
        },
    }
}

/// Last decision of a cycle: a confirmed write means the record changed.
pub fn after_write(ip: String, written: Result<(), SyncError>) -> (r: Result<UpdateResult, SyncError>)
    ensures
        r == write_step(ip, written),
{
    match written {
        Err(e) => Err(e),
        Ok(_) => Ok(UpdateResult { ip, changed: true }),
    }
}

} // verus!
