//! Fixed settings of the dashboard service.

use vstd::prelude::*;

verus! {

/// The chain endpoint used when nothing else is configured.
pub const DEFAULT_RPC_URL: &'static str = "wss://rpc.beta.verisense.network";

/// The SS58 address prefix of the Verisense network.
pub const VERISENSE_PREFIX: u16 = 137;


/// Seconds a request may take before the client gives up, unless configured otherwise.
pub const DEFAULT_TIMEOUT_SECS: u64 = 30;

/// The largest request and response body, in bytes, unless configured otherwise (10 MiB).
pub const DEFAULT_MAX_BODY_SIZE: u32 = 10 * 1024 * 1024;

/// The number of accounts at which the account count stops.
pub const ACCOUNT_COUNT_CAP: u64 = 10000;

} // verus!
