//! The refusals that the node answers its callers with.

use crate::json::{self, JsonModel};
use serde_json::Value;
use vstd::prelude::*;

verus! {

/// A refusal: the HTTP status and the text that its body holds under `error`.
#[derive(Debug)]
pub struct ApiError {
    pub status: u16,
    pub message: String,
}

/// A refusal as a mathematical value.
pub struct Refusal {
    pub status: int,
    pub message: Seq<char>,
}

/// What a request that can be refused comes to.
pub type Answer<T> = Result<T, Refusal>;

impl View for ApiError {
    type V = Refusal;

    open spec fn view(&self) -> Refusal {
        Refusal { status: self.status as int, message: self.message@ }
    }
}

/// The refusal of a request that is malformed or breaks a rule.
pub open spec fn bad_request(message: Seq<char>) -> Refusal {
    Refusal { status: 400, message }
}

/// The refusal of a request whose signer could not be established.
pub open spec fn unauthorized(message: Seq<char>) -> Refusal {
    Refusal { status: 401, message }
}

/// The refusal of a request that its signer may not make.
pub open spec fn forbidden(message: Seq<char>) -> Refusal {
    Refusal { status: 403, message }
}

/// The refusal of a request for what is not there.
pub open spec fn not_found(message: Seq<char>) -> Refusal {
    Refusal { status: 404, message }
}

/// The refusal of a request on which the node itself failed.
pub open spec fn internal(message: Seq<char>) -> Refusal {
    Refusal { status: 500, message }
}

/// What a refusable result comes to when it carries nothing else.
pub open spec fn verdict(result: Result<(), ApiError>) -> Answer<()> {
    match result {
        Ok(()) => Ok(()),
        Err(error) => Err(error@),
    }
}

/// What a check that complains in words comes to.
pub open spec fn complaint(result: Result<(), String>) -> Result<(), Seq<char>> {
    match result {
        Ok(()) => Ok(()),
        Err(message) => Err(message@),
    }
}

impl ApiError {
    /// The body that the refusal is sent with.
    pub fn body(&self) -> (body: Value)
        ensures
            json::contents(body) == JsonModel::Object(
                Map::empty().insert("error"@, JsonModel::Text(self@.message)),
            ),
    {
        let mut body = json::object();
        json::set(&mut body, "error", json::text(self.message.as_str()));
        body
    }

    pub fn bad_request(message: &str) -> (error: ApiError)
        ensures
            error@ == bad_request(message@),
    {
        ApiError { status: 400, message: message.to_owned() }
    }

    pub fn unauthorized(message: &str) -> (error: ApiError)
        ensures
            error@ == unauthorized(message@),
    {
        ApiError { status: 401, message: message.to_owned() }
    }

    pub fn forbidden(message: &str) -> (error: ApiError)
        ensures
            error@ == forbidden(message@),
    {
        ApiError { status: 403, message: message.to_owned() }
    }

    pub fn not_found(message: &str) -> (error: ApiError)
        ensures
            error@ == not_found(message@),
    {
        ApiError { status: 404, message: message.to_owned() }
    }

    pub fn internal(message: &str) -> (error: ApiError)
        ensures
            error@ == internal(message@),
    {
        ApiError { status: 500, message: message.to_owned() }
    }
}

/// Each kind of refusal has its own status, and says what it was given to say.
pub proof fn law_refusals_have_their_status(message: Seq<char>)
    ensures
        bad_request(message).status == 400 && bad_request(message).message == message,
        unauthorized(message).status == 401 && unauthorized(message).message == message,
        forbidden(message).status == 403 && forbidden(message).message == message,
        not_found(message).status == 404 && not_found(message).message == message,
        internal(message).status == 500 && internal(message).message == message,
{
}


/// A refusal is seen with its own status and words, and a result as what it is.
pub proof fn law_results_are_seen_as_they_are(
    result: Result<(), ApiError>,
    checked: Result<(), String>,
    error: ApiError,
)
    ensures
        error@.status == error.status,
        error@.message == error.message@,
        verdict(result) is Ok <==> result is Ok,
        result is Err ==> verdict(result)->Err_0 == result->Err_0@,
        complaint(checked) is Ok <==> checked is Ok,
        checked is Err ==> complaint(checked)->Err_0 == checked->Err_0@,
{
}

} // verus!
