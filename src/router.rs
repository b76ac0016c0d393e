//! What the token route answers for a decoded query.

use crate::grant::{grants_join, issue, IssuanceError, SignerCredentials};
use crate::query::{pairs_view, requested, JoinRequest};
use vstd::prelude::*;

verus! {

/// The one error text a client sees when issuance fails; the cause stays in
/// the server's log.
pub open spec fn failed_text() -> Seq<char> {
    "Failed to create token"@
}

/// The error text a client sees when its query lacks a room or an identity.
pub open spec fn rejected_text() -> Seq<char> {
    "Invalid query string"@
}

/// The answer of the token route.
#[derive(Debug, Clone, PartialEq, Eq)]
pub enum TokenReply {
    /// A token was issued.
    Issued { token: String },
    /// The signer refused; `cause` is for the server's log only.
    Failed { error: String, cause: IssuanceError },
    /// The query did not decode into a join request; the signer was not asked.
    Rejected { error: String },
}

impl TokenReply {
    /// The HTTP status that goes with the reply.
    pub fn status(&self) -> (r: u16)
        ensures
            self is Issued ==> r == 200,
            self is Failed ==> r == 500,
            self is Rejected ==> r == 400,
    {
        match self {
            TokenReply::Issued { .. } => 200,
            TokenReply::Failed { .. } => 500,
            TokenReply::Rejected { .. } => 400,
        }
    }
}

/// Turns the outcome of an issue into the reply: the token where there is one,
/// else the uniform error text with the cause kept aside.
pub fn reply_for(result: Result<String, IssuanceError>) -> (r: TokenReply)
    ensures
        match result {
            Ok(t) => r matches TokenReply::Issued { token } && token@ == t@,
            Err(e) => r matches TokenReply::Failed { error, cause } && error@ == failed_text() && cause == e,
        },
{
    match result {
        Ok(token) => TokenReply::Issued { token },
        Err(cause) => TokenReply::Failed { error: "Failed to create token".to_owned(), cause },
    }
}

/// Answers a request for a token: decodes the join request from the query's
/// pairs and, only where that succeeds, asks the issuer for a token.
pub fn handle_create_token(pairs: &Vec<(String, String)>, credentials: &SignerCredentials) -> (r: TokenReply)
    ensures
        match requested(pairs_view(pairs@)) {
            None => r matches TokenReply::Rejected { error } && error@ == rejected_text(),
            Some((room, identity)) => match r {
                TokenReply::Issued { token } => token@.len() > 0 && grants_join(token@, credentials.api_key@, room, identity),
                TokenReply::Failed { error, cause } => error@ == failed_text()
                    && (!credentials.is_complete() ==> cause == IssuanceError::InvalidKeys),
                TokenReply::Rejected { .. } => false,
            },
        },
        !credentials.is_complete() ==> !(r is Issued),
        requested(pairs_view(pairs@)) is Some && credentials.is_complete() ==> r is Issued,
{
    match JoinRequest::from_query(pairs) {
        None => TokenReply::Rejected { error: "Invalid query string".to_owned() },
        Some(request) => reply_for(issue(credentials, request.room_name.as_str(), request.identity.as_str())),
    }
}

} // verus!
