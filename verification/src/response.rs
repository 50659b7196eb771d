use vstd::prelude::*;
use vstd::string::StringExecFns;
use crate::dispatch::DispatchOutcome;
use crate::models::email_request;
use crate::numeral::decimal_of;
use crate::numeral::u64_to_string;

verus! {

/// The single response payload a batch request ends in: a status code, a
/// human-readable message, and, when anything failed, the failed items
/// exactly as originally supplied, for targeted retry by the caller.
#[derive(Debug, Clone, PartialEq, Eq)]
pub struct ApiResponse {
    pub status: u16,
    pub message: String,
    pub data: Option<Vec<email_request>>,
}

/// The message reported when every item was sent.
pub open spec fn all_sent_message() -> Seq<char> {
    "Successfully sent emails!"@
}

/// The message reported when `n` items failed.
pub open spec fn failure_message(n: nat) -> Seq<char> {
    "Had "@ + decimal_of(n) + " errors"@
}

/// Aggregate a dispatch outcome into the response payload: all sent means
/// status 200 and no data; any failure means status 500, the failure count in
/// the message, and the failed items echoed back. Partial failure is never
/// upgraded to success, nor success to failure.
pub fn aggregate(outcome: DispatchOutcome) -> (r: ApiResponse)
    ensures
        outcome.failed@.len() == 0 ==> {
            &&& r.status == 200
            &&& r.message@ == all_sent_message()
            &&& r.data is None
        },
        outcome.failed@.len() > 0 ==> {
            &&& r.status == 500
            &&& r.message@ == failure_message(outcome.failed@.len())
            &&& r.data == Some(outcome.failed)
        },
{
    if outcome.failed.len() == 0 {
        ApiResponse { status: 200, message: "Successfully sent emails!".to_owned(), data: None }
    } else {
        let n = outcome.failed.len();
        let count = u64_to_string(n as u64);
        let mut message = "Had ".to_owned();
        message.append(count.as_str());
        message.append(" errors");
        proof {
            assert(message@ =~= failure_message(outcome.failed@.len()));
        }
        ApiResponse { status: 500, message, data: Some(outcome.failed) }
    }
}

/// The response when the Auth Gate refuses a request: status 401 and no
/// dispatch data, whatever the batch held.
pub fn unauthorized_response() -> (r: ApiResponse)
    ensures
        r.status == 401,
        r.message@ == "Unauthorized"@,
        r.data is None,
{
    ApiResponse { status: 401, message: "Unauthorized".to_owned(), data: None }
}

} // verus!
