//! Settings of a local test deployment.

use vstd::prelude::*;

verus! {

pub const APP_ADDRESS: &'static str = "127.0.0.1:8080";

} // verus!
