use vstd::prelude::*;

verus! {

/// A bearer token supplied with a batch request.
#[derive(Debug, Clone, PartialEq)]
pub struct Token(pub String);

/// Why the Auth Gate refused a request token. A missing token and a wrong
/// token are one failure kind to the caller: both yield `Invalid`.
#[derive(Debug, Clone, PartialEq, Eq)]
pub enum ApiTokenError {
    /// No token was supplied with the request.
    Missing,
    /// The request carries no token matching the configured secret.
    Invalid,
}

/// The Auth Gate comparison: a supplied token is accepted exactly when it
/// equals the process-wide configured secret.
pub fn validate_token(token_val: String, secret: &String) -> (r: bool)
    ensures
        r == (token_val@ == secret@),
{
    token_val == *secret
}

/// Evaluate the Auth Gate once for an incoming request: accept exactly when a
/// token was supplied and matches the configured secret. Absence and mismatch
/// are one and the same failure to the caller: both yield `Invalid`, and the
/// two cannot be told apart.
pub fn check_request_token(supplied: Option<String>, secret: &String) -> (r: Result<
    Token,
    ApiTokenError,
>)
    ensures
        r is Ok <==> (supplied matches Some(t) && t@ == secret@),
        r matches Ok(tok) ==> (supplied matches Some(t) && tok.0 == t),
        r is Err ==> r == Err::<Token, ApiTokenError>(ApiTokenError::Invalid),
{
    match supplied {
        None => Err(ApiTokenError::Invalid),
        Some(s) => {
            if validate_token(s.clone(), secret) {
                Ok(Token(s))
            } else {
                Err(ApiTokenError::Invalid)
            }
        },
    }
}

} // verus!
