//! Settings of the S3 client.

use vstd::prelude::*;

verus! {

/// The limit, in seconds, on an operation, on each attempt of it, and on
/// connecting: five minutes.
pub const CLIENT_TIMEOUT_SECS: u64 = 300;

/// The number of attempts of the standard retry strategy.
pub const CLIENT_MAX_ATTEMPTS: u32 = 10;

} // verus!
