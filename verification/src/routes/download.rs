//! The `/download` route: its request, and how the outcome of a download
//! becomes either the files to pack or the failure to answer.

use vstd::prelude::*;

use crate::data_store::error::{DataStoreError, StoreFailure};
use crate::data_store::flow::{buffers_view, next, ActionView, EventView, StageView};
use crate::error::{api_failure_of, ApiError};

verus! {

/// The body of a download request: an optional SQL condition.
pub struct QueryDownloadRequest {
    pub query: Option<String>,
}

/// The status of a successful download answer.
pub const DOWNLOAD_STATUS: u16 = 200;

/// The outcome of a download as the route answers it: status 200 and the
/// file contents to pack into the archive, or the store failure turned into
/// an API failure of the same kind (answered with that failure's status).
pub fn post_download(outcome: Result<Vec<Vec<u8>>, DataStoreError>) -> (r: Result<
    (u16, Vec<Vec<u8>>),
    ApiError,
>)
    ensures
        match (r, outcome) {
            (Ok((status, files)), Ok(data)) => status == 200 && buffers_view(files@) == buffers_view(
                data@,
            ),
            (Err(a), Err(e)) => a@ == api_failure_of(e@),
            _ => false,
        },
{
    match outcome {
        Ok(data) => Ok((DOWNLOAD_STATUS, data)),
        Err(e) => Err(ApiError::from_data_store(e)),
    }
}

/// A download whose query selects no row is refused with status 404 and the
/// body text "Not found".
pub proof fn lemma_empty_download_answered_not_found()
    ensures
        ({
            let s = next(StageView::AwaitingProbe { download: true }, EventView::Probed(Ok(true)));
            &&& s.1 == ActionView::Fail(StoreFailure::QueryResultIsEmpty)
            &&& api_failure_of(StoreFailure::QueryResultIsEmpty).status() == 404
            &&& api_failure_of(StoreFailure::QueryResultIsEmpty).client_message() == "Not found"@
        }),
{
}

/// Whatever an unexpected failure says, the client is answered status 500
/// and the same body text: the detail stays on the server.
pub proof fn lemma_unexpected_detail_hidden(d1: Seq<char>, d2: Seq<char>)
    ensures
        api_failure_of(StoreFailure::Unexpected(d1)).status() == 500,
        api_failure_of(StoreFailure::Unexpected(d1)).client_message() == api_failure_of(
            StoreFailure::Unexpected(d2),
        ).client_message(),
{
}

} // verus!
