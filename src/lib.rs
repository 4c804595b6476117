//! Reconciliation of one DNS address record with the machine's public IP.
//!
//! The library holds the decisions of a dynamic-DNS daemon: reading the
//! detected address out of a trace body, judging provider replies, the steps
//! of one reconciliation cycle, and the daemon's cached address. Network
//! access and timing are left to the caller, which performs each requested
//! call and hands its outcome back.
mod daemon;
mod error;
mod reconcile;
mod record;
mod settings;
mod trace;

pub use error::SyncError;
pub use trace::{ip_line, lacks, parse_trace_ip, TRACE_URL};
pub use record::{
    check_reply, read_outcome, record_url, record_url_spec, reply_verdict, with_address,
    write_outcome, DnsRecord, DnsResponse, API_BASE,
};
pub use reconcile::{
    after_detect, after_read, after_write, cycle, detect_step, next_cache, read_step, write_step,
    AfterDetect, AfterRead, RecordCall, UpdateResult,
};
pub use daemon::{
    changed_address_writes_once, failure_keeps_cache, fast_path_makes_no_call,
    matching_record_needs_no_write, write_keeps_other_fields, Daemon,
};
pub use settings::{redact, AppConfig, DEFAULT_INTERVAL};
