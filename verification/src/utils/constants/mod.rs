//! Deployment constants, and the rule that every secret of the deployment
//! must be set and non-empty.

pub mod env;
pub mod prod;
pub mod test;

use vstd::prelude::*;

use crate::utils::text::opt_string_view;

verus! {

/// The AWS region of the buckets.
pub const REGION: &'static str = "eu-central-1";

/// The name under which the parquet table is registered in the engine.
pub const TABLE_NAME: &'static str = "t";

/// The secrets the service reads from its environment.
#[derive(Clone, Copy, Debug, PartialEq, Eq, Structural)]
pub enum Secret {
    /// The bucket that holds the table.
    BucketSelect,
    /// The key prefix of the table in that bucket.
    PrefixSelect,
    /// The bucket that holds the files listed by the table.
    BucketDownload,
}

/// Why a secret could not be had.
#[derive(Clone, Copy, Debug, PartialEq, Eq, Structural)]
pub enum SecretError {
    /// The variable is absent (or not valid unicode).
    NotSet,
    /// The variable is present and empty.
    Empty,
}

impl Secret {
    /// The environment variable that holds the secret.
    pub open spec fn spec_env_var(self) -> Seq<char> {
        match self {
            Secret::BucketSelect => env::BUCKET_SELECT_ENV_VAR@,
            Secret::PrefixSelect => env::PREFIX_SELECT_ENV_VAR@,
            Secret::BucketDownload => env::BUCKET_DOWNLOAD_ENV_VAR@,
        }
    }

    /// The message given up with when the variable cannot be read; the
    /// program follows it with `: ` and the debug form of the reading error
    /// (such as `NotPresent`).
    pub open spec fn spec_not_set_message(self) -> Seq<char> {
        match self {
            Secret::BucketSelect => "BUCKET_SELECT must be set."@,
            Secret::PrefixSelect => "PREFIX_SELECT_ENV_VAR must be set."@,
            Secret::BucketDownload => "BUCKET_DOWNLOAD_ENV_VAR must be set."@,
        }
    }

    /// The message given up with when the variable is empty.
    pub open spec fn spec_empty_message(self) -> Seq<char> {
        match self {
            Secret::BucketSelect => "BUCKET_SELECT must not be empty."@,
            Secret::PrefixSelect => "PREFIX_SELECT_ENV_VAR must not be empty."@,
            Secret::BucketDownload => "BUCKET_DOWNLOAD_ENV_VAR must not be empty."@,
        }
    }

    /// The environment variable that holds the secret.
    pub fn env_var(self) -> (name: &'static str)
        ensures
            name@ == self.spec_env_var(),
    {
        match self {
            Secret::BucketSelect => env::BUCKET_SELECT_ENV_VAR,
            Secret::PrefixSelect => env::PREFIX_SELECT_ENV_VAR,
            Secret::BucketDownload => env::BUCKET_DOWNLOAD_ENV_VAR,
        }
    }

    /// The message for a failure to read this secret (for `NotSet`, the text
    /// that precedes `: ` and the debug form of the reading error).
    pub fn failure_message(self, error: SecretError) -> (msg: &'static str)
        ensures
            msg@ == (match error {
                SecretError::NotSet => self.spec_not_set_message(),
                SecretError::Empty => self.spec_empty_message(),
            }),
    {
        match error {
            SecretError::NotSet => match self {
                Secret::BucketSelect => "BUCKET_SELECT must be set.",
                Secret::PrefixSelect => "PREFIX_SELECT_ENV_VAR must be set.",
                Secret::BucketDownload => "BUCKET_DOWNLOAD_ENV_VAR must be set.",
            },
            SecretError::Empty => match self {
                Secret::BucketSelect => "BUCKET_SELECT must not be empty.",
                Secret::PrefixSelect => "PREFIX_SELECT_ENV_VAR must not be empty.",
                Secret::BucketDownload => "BUCKET_DOWNLOAD_ENV_VAR must not be empty.",
            },
        }
    }
}

/// The outcome of reading a secret whose variable held `value` (`None` when
/// it is absent).
pub open spec fn secret_outcome(value: Option<Seq<char>>) -> Result<Seq<char>, SecretError> {
    match value {
        None => Err(SecretError::NotSet),
        Some(v) => if v.len() == 0 {
            Err(SecretError::Empty)
        } else {
            Ok(v)
        },
    }
}

/// The model of what reading a secret gave.
pub open spec fn secret_result_view(r: Result<String, SecretError>) -> Result<Seq<char>, SecretError> {
    match r {
        Ok(s) => Ok(s@),
        Err(e) => Err(e),
    }
}

/// Accepts the value of a secret's variable: it must be set and non-empty.
pub fn check_secret(value: Option<String>) -> (res: Result<String, SecretError>)
    ensures
        secret_result_view(res) == secret_outcome(opt_string_view(value)),
{
    match value {
        None => Err(SecretError::NotSet),
        Some(v) => {
            if v.as_str().is_empty() {
                Err(SecretError::Empty)
            } else {
                Ok(v)
            }
        },
    }
}

} // verus!
