//! Configuration parameters for the fog ingest client.

use crate::decimal::{u64_denoted, u64_from_str, u64_from_str_error};
use crate::time::Duration;
use std::num::ParseIntError;
use vstd::prelude::*;

verus! {

#[derive(Clone)]
pub struct IngestConfig {
    /// URI for ingest server
    pub uri: String,
    /// How long to retry if unavailable, this is useful for tests
    pub retry_seconds: Duration,
    pub cmd: IngestConfigCommand,
}

#[derive(Clone)]
pub enum IngestConfigCommand {
    /// Get a summary of the state of the ingest server.
    GetStatus,
    /// Wipe out all keys and oram state in the enclave, replacing them with
    /// new random keys.
    NewKeys,
    /// Set the list of peers of this ingest server.
    SetPeers { peer_uris: Vec<String> },
    /// Set the pubkey_expiry_window of the ingest server.
    SetPubkeyExpiryWindow {
        /// This value is a number of blocks that is added to the current block
        /// index to compute the "pubkey_expiry" value of fog reports.
        pubkey_expiry_window: u64,
    },
    /// Attempt to put an idle server in the active mode.
    Activate,
    /// Attempt to put an active server in the retiring mode, after which it
    /// will eventually become idle.
    Retire,
    /// Attempt to take a retired server out of retirement.
    Unretire,
    /// Report a range of missed blocks [start, end).
    ReportMissedBlockRange {
        /// The block index of the first missed block.
        start: u64,
        /// The block index of the last missed block + 1.
        end: u64,
    },
    /// Gets the list of reported missed block ranges.
    GetMissedBlockRanges,
}

/// The span of as many seconds as were read, or the error of the reading.
pub fn duration_from_parsed_seconds(parsed: Result<u64, ParseIntError>) -> (res: Result<
    Duration,
    ParseIntError,
>)
    ensures
        res == (match parsed {
            Ok(secs) => Ok::<Duration, ParseIntError>(Duration::of_secs(secs as nat)),
            Err(error) => Err(error),
        }),
        parsed matches Ok(secs) ==> res matches Ok(d) && d@ == secs * 1_000_000_000,
{
    match parsed {
        Ok(secs) => Ok(Duration::from_secs(secs)),
        Err(error) => Err(error),
    }
}

/// Reads a whole number of seconds.
pub fn parse_duration_in_seconds(src: &str) -> (res: Result<Duration, ParseIntError>)
    ensures
        res == (match u64_denoted(src@) {
            Some(secs) => Ok::<Duration, ParseIntError>(Duration::of_secs(secs as nat)),
            None => Err(u64_from_str_error(src@)),
        }),
        u64_denoted(src@) matches Some(secs) ==> res matches Ok(d) && d@ == secs * 1_000_000_000,
{
    duration_from_parsed_seconds(u64_from_str(src))
}

} // verus!
