//! The `/select` route: its request, its answer, and how the outcome of a
//! selection becomes the answer.

use vstd::prelude::*;

use crate::data_store::aws::{rows_view, Table, TableRow};
use crate::data_store::error::DataStoreError;
use crate::utils::text::{debug_option_str, opt_str_view, option_str_debug, plain_ascii};

verus! {

/// The body of a select request: an optional SQL condition.
pub struct SelectRequest {
    pub query: Option<String>,
}

/// The body of a select answer.
pub struct SelectResponse {
    pub message: String,
    pub content: Option<Vec<Table>>,
}

/// The model of a select answer.
pub struct SelectReply {
    pub message: Seq<char>,
    pub content: Option<Seq<TableRow>>,
}

impl View for SelectResponse {
    type V = SelectReply;

    open spec fn view(&self) -> SelectReply {
        SelectReply {
            message: self.message@,
            content: match self.content {
                Some(rows) => Some(rows_view(rows@)),
                None => None,
            },
        }
    }
}

/// The message of a failed selection: it shows the condition as `{:?}`
/// shows an `Option<&str>`.
pub open spec fn select_failure_message(query: Option<Seq<char>>) -> Seq<char> {
    "Failed selecting table with query: "@ + option_str_debug(query)
}

/// The message of a successful selection.
pub open spec fn select_success_message() -> Seq<char> {
    "Table selected"@
}

impl SelectRequest {
    /// The condition of the request, borrowed.
    pub fn condition(&self) -> (q: Option<&str>)
        ensures
            opt_str_view(q) == match self.query {
                Some(s) => Some(s@),
                None => None,
            },
    {
        match &self.query {
            Some(s) => Some(s.as_str()),
            None => None,
        }
    }
}

/// The status of every answer of the select route, success or failure.
pub const SELECT_STATUS: u16 = 200;

/// The answer to a selection for `query` that ended with `outcome`: the rows
/// under "Table selected", or no content under a message that shows the
/// query. Both are answered with status 200.
pub fn post_select(query: Option<&str>, outcome: Result<Vec<Table>, DataStoreError>) -> (answer: (
    u16,
    Result<SelectResponse, SelectResponse>,
))
    ensures
        answer.0 == 200,
        match (answer.1, outcome) {
            (Ok(r), Ok(rows)) => r@ == SelectReply {
                message: select_success_message(),
                content: Some(rows_view(rows@)),
            },
            (Err(r), Err(_)) => r@ == SelectReply {
                message: select_failure_message(opt_str_view(query)),
                content: None,
            },
            _ => false,
        },
        match (answer.1, query) {
            (Err(r), Some(q)) => plain_ascii(q@) ==> r.message@ == "Failed selecting table with query: "@
                + "Some("@ + seq!['"'] + q@ + seq!['"'] + ")"@,
            _ => true,
        },
{
    match outcome {
        Ok(rows) => (
            SELECT_STATUS,
            Ok(SelectResponse { message: String::from_str("Table selected"), content: Some(rows) }),
        ),
        Err(_) => {
            let mut message = String::from_str("Failed selecting table with query: ");
            let shown = debug_option_str(query);
            let ghost prefix = message@;
            message.append(shown.as_str());
            proof {
                match query {
                    Some(q) => {
                        if plain_ascii(q@) {
                            assert(message@ =~= prefix + ("Some("@ + seq!['"'] + q@ + seq!['"'] + ")"@));
                        }
                    },
                    None => {},
                }
            }
            (SELECT_STATUS, Err(SelectResponse { message, content: None }))
        },
    }
}

} // verus!
