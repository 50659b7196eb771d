use vstd::prelude::*;

verus! {

/// One validated unit of work for the batch dispatcher: a single recipient,
/// optional carbon copies, a subject line and an opaque HTML body.
///
/// A request is immutable once accepted into a batch, and the dispatcher
/// echoes failed requests back to the caller exactly as they were supplied.
#[allow(non_camel_case_types)]
#[derive(Debug, Clone, PartialEq, Eq)]
pub struct email_request {
    pub to_email: String,
    pub cc_emails: Option<Vec<String>>,
    pub bcc_emails: Option<Vec<String>>,
    pub subject: String,
    pub body: String,
}

} // verus!
