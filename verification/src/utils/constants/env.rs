//! Names of the environment variables that hold the deployment's secrets.

use vstd::prelude::*;

verus! {

pub const BUCKET_SELECT_ENV_VAR: &'static str = "BUCKET_SELECT_SECRET";

pub const PREFIX_SELECT_ENV_VAR: &'static str = "PREFIX_SELECT_SECRET";

pub const BUCKET_DOWNLOAD_ENV_VAR: &'static str = "BUCKET_DOWNLOAD_SECRET";

} // verus!
