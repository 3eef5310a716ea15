//! What the read side answers, as plain values.

use vstd::prelude::*;
use crate::model::TxdataModel;

verus! {

/// The words of a health answer.
pub open spec fn healthy_message() -> Seq<char> {
    "Service is healthy."@
}

/// The words of an answer when storage failed.
pub open spec fn list_failure_message() -> Seq<char> {
    "Error occurred while fetching all tx entries."@
}

/// The answer to a health check.
#[derive(Debug, Clone)]
pub struct HealthReply {
    pub code: u16,
    pub success: bool,
    pub message: String,
}

/// The answer to a request for a page of transfers.
#[derive(Debug, Clone)]
pub enum ListReply {
    /// The rows of the page, and how many they are.
    Success { results: usize, transfers: Vec<TxdataModel> },
    /// Storage failed; the message says no more than that.
    Fail { message: String },
}

/// The answer to a health check: code 200, success, and the healthy message.
pub fn health_reply() -> (reply: HealthReply)
    ensures
        reply.code == 200,
        reply.success,
        reply.message@ == healthy_message(),
{
    HealthReply { code: 200, success: true, message: "Service is healthy.".to_owned() }
}

/// The answer to a request for a page, given what storage returned: the rows
/// with their count, which is the count of the rows returned and not of all
/// rows; or, where storage failed, the failure message.
pub fn list_reply(rows: Option<Vec<TxdataModel>>) -> (reply: ListReply)
    ensures
        match rows {
            Some(found) => reply matches ListReply::Success { results, transfers } && results
                == found@.len() && transfers == found,
            None => reply matches ListReply::Fail { message } && message@
                == list_failure_message(),
        },
{
    match rows {
        Some(found) => ListReply::Success { results: found.len(), transfers: found },
        None => ListReply::Fail {
            message: "Error occurred while fetching all tx entries.".to_owned(),
        },
    }
}

} // verus!
