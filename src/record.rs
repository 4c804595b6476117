use vstd::prelude::*;
use vstd::string::*;

use crate::error::SyncError;

verus! {

/// Declares serde_json::Value so that records can carry the provider's
/// settings, errors and messages through untouched; nothing here looks
/// inside such a value.
#[verifier::external_type_specification]
#[verifier::external_body]
pub struct ExValue(serde_json::Value);

/// Base of the provider's record-management API.
pub const API_BASE: &'static str = "https://api.cloudflare.com/client/v4";

/// A DNS address record as the provider returns and accepts it.
#[derive(Debug)]
pub struct DnsRecord {
    pub comment: Option<String>,
    pub name: String,
    pub proxied: bool,
    /// Provider-specific settings, passed through uninterpreted.
    pub settings: serde_json::Value,
    pub tags: Vec<String>,
    pub ttl: u32,
    /// The address the record points at.
    pub content: String,
    pub record_type: String,
}

/// The provider's reply envelope for a record read.
#[derive(Debug)]
pub struct DnsResponse {
    pub errors: serde_json::Value,
    pub messages: serde_json::Value,
    pub success: bool,
    pub result: DnsRecord,
}

/// `rec` with its address set to `ip` and every other field as it was.
pub open spec fn with_address(rec: DnsRecord, ip: String) -> DnsRecord {
    DnsRecord {
        comment: rec.comment,
        name: rec.name,
        proxied: rec.proxied,
        settings: rec.settings,
        tags: rec.tags,
        ttl: rec.ttl,
        content: ip,
        record_type: rec.record_type,
    }
}

impl DnsRecord {
    /// Replaces the address, keeping every other field.
    pub fn set_address(self, ip: String) -> (r: DnsRecord)
        ensures
            r == with_address(self, ip),
    {
        let mut rec = self;
        rec.content = ip;
        rec
    }
}

/// The address of one record in the provider's API.
pub open spec fn record_url_spec(zone_id: Seq<char>, record_id: Seq<char>) -> Seq<char> {
    API_BASE@ + "/zones/"@ + zone_id + "/dns_records/"@ + record_id
}

/// Builds the URL under which the record `record_id` of zone `zone_id` is
/// read and written.
pub fn record_url(zone_id: &str, record_id: &str) -> (r: String)
    ensures
        r@ == record_url_spec(zone_id@, record_id@),
{
    let mut url = String::from_str(API_BASE);
    url.append("/zones/");
    url.append(zone_id);
    url.append("/dns_records/");
    url.append(record_id);
    url
}

/// What a reply with this status and success flag means; `success` is
/// `None` where the body did not parse as an envelope.
pub open spec fn reply_verdict(status: u16, success: Option<bool>) -> Result<(), SyncError> {
    if status != 200 {
        Err(SyncError::UnexpectedStatus(status))
    } else if success is None {
        Err(SyncError::Malformed)
    } else if !success->0 {
        Err(SyncError::ApiFailure)
    } else {
        Ok(())
    }
}

/// Judges a reply: the status first, then the shape of the body, then the
/// provider's own success flag.
pub fn check_reply(status: u16, success: Option<bool>) -> (r: Result<(), SyncError>)
    ensures
        r == reply_verdict(status, success),
{
    if status != 200 {
        Err(SyncError::UnexpectedStatus(status))
    } else {
        match success {
            None => Err(SyncError::Malformed),
            Some(false) => Err(SyncError::ApiFailure),
            Some(true) => Ok(()),
        }
    }
}

/// Judges the reply to a record read; `reply` is `None` where the body did
/// not parse as an envelope. On success the record is handed on unchanged.
pub fn read_outcome(status: u16, reply: Option<DnsResponse>) -> (r: Result<DnsRecord, SyncError>)
    ensures
        match reply_verdict(status, if reply is Some { Some(reply->0.success) } else { None }) {
            Err(e) => r == Err::<DnsRecord, SyncError>(e),
            Ok(_) => r == Ok::<DnsRecord, SyncError>(reply->0.result),
        },
{
    match reply {
        None => match check_reply(status, None) {
            Err(e) => Err(e),
            Ok(_) => Err(SyncError::Malformed),
        },
        Some(env) => match check_reply(status, Some(env.success)) {
            Err(e) => Err(e),
            Ok(_) => Ok(env.result),
        },
    }
}

/// Judges the reply to a record write; `success` is the envelope's success
/// flag, or `None` where the body did not parse as an envelope.
pub fn write_outcome(status: u16, success: Option<bool>) -> (r: Result<(), SyncError>)
    ensures
        r == reply_verdict(status, success),
{
    check_reply(status, success)
}

} // verus!
