//! Settings of the production deployment.

use vstd::prelude::*;

verus! {

pub const APP_ADDRESS: &'static str = "0.0.0.0:80";

} // verus!
