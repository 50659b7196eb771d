use vstd::prelude::*;
use crate::auth::check_request_token;
use crate::dispatch::BatchDispatcher;
use crate::models::email_request;
use crate::response::unauthorized_response;
use crate::response::ApiResponse;

verus! {

/// Evaluate the Auth Gate for one incoming batch request. Only when the
/// supplied token matches the configured secret does the caller obtain a
/// dispatcher over the batch — the sole way a transport call can arise — and
/// that dispatcher has issued no call and recorded nothing yet. Any mismatch
/// or absence yields the 401 response instead, whatever the batch holds.
pub fn gate_batch(supplied_token: Option<String>, secret: &String, batch: Vec<email_request>) -> (r:
    Result<BatchDispatcher, ApiResponse>)
    ensures
        r is Ok <==> (supplied_token matches Some(t) && t@ == secret@),
        r matches Ok(d) ==> {
            &&& d.wf()
            &&& d.batch() == batch@
            &&& d.outcomes() == Seq::<bool>::empty()
            &&& !d.awaiting_outcome()
        },
        r matches Err(resp) ==> {
            &&& resp.status == 401
            &&& resp.message@ == "Unauthorized"@
            &&& resp.data is None
        },
{
    match check_request_token(supplied_token, secret) {
        Ok(_) => Ok(BatchDispatcher::new(batch)),
        Err(_) => Err(unauthorized_response()),
    }
}

} // verus!
