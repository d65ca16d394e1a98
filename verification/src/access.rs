//! Who may read the credential of a registration.
//!
//! A record holds the credential that its registration was given. It is released to the
//! controller of the resource alone, against a signed query that is bound to the resource,
//! to this node and to a short span of time, and that is used once.

use crate::crypto::{self, CryptoSuite};
use crate::documents;
use crate::error::{self, ApiError};
use crate::json::{self, JsonModel};
use crate::nonces;
use crate::query_path::{self, registration_credential_query_path};
use crate::text;
use crate::time::{self, Instant};
use serde_json::Value;
use vstd::prelude::*;

verus! {

/// How far the clocks of the node and of a controller may be apart, in seconds.
pub const REGISTRATION_CREDENTIAL_QUERY_MAX_CLOCK_SKEW_SECONDS: u32 = 300;

/// How long the nonce of a query is remembered, in seconds.
pub const REGISTRATION_CREDENTIAL_QUERY_NONCE_TTL_SECONDS: i64 = 600;

/// A query for a credential: the challenge that the controller signed, which says what is
/// asked for, the controller's document and the signature.
#[derive(Debug)]
pub struct RegistrationCredentialQueryRequest {
    pub challenge: Value,
    pub controller_did_document: Value,
    pub proof: Value,
}

/// The node that queries are made to: its DID, the suite that it hashes with, and the
/// purpose and the protocol version that a query has to name.
#[derive(Debug)]
pub struct QueryTerms {
    pub node_did: String,
    pub suite: CryptoSuite,
    pub purpose: String,
    pub protocol_version: String,
}

/// The query is one for this resource, at this node, under this protocol.
pub open spec fn is_bound(
    terms: QueryTerms,
    resource_did: Seq<char>,
    challenge: JsonModel,
) -> bool {
    &&& json::text_field(challenge, "method"@) == Some("POST"@)
    &&& json::text_field(challenge, "path"@) == Some(query_path::query_path(resource_did))
    &&& json::text_field(challenge, "resourceDid"@) == Some(resource_did)
    &&& json::text_field(challenge, "purpose"@) == Some(terms.purpose@)
    &&& json::text_field(challenge, "aud"@) == Some(terms.node_did@)
    &&& json::text_field(challenge, "protocolVersion"@) == Some(terms.protocol_version@)
    &&& !text::blank(query_nonce(challenge))
}

/// The nonce of a query.
pub open spec fn query_nonce(challenge: JsonModel) -> Seq<char> {
    match json::text_field(challenge, "requestNonce"@) {
        Some(nonce) => nonce,
        None => Seq::empty(),
    }
}

/// When a query was signed, if it says so.
pub open spec fn signed_at(challenge: JsonModel) -> Option<time::Moment> {
    match json::text_field(challenge, "requestTimestamp"@) {
        Some(written) => time::written_moment(written),
        None => None,
    }
}

/// Two points in time are at most the allowed skew apart.
pub open spec fn within_skew(left: time::Moment, right: time::Moment) -> bool {
    let skew = REGISTRATION_CREDENTIAL_QUERY_MAX_CLOCK_SKEW_SECONDS as int;
    &&& !time::later(left, time::plus(right, skew))
    &&& !time::later(right, time::plus(left, skew))
}

/// The query was signed at most the allowed skew before or after now.
pub open spec fn is_timely(challenge: JsonModel, now: time::Moment) -> bool {
    signed_at(challenge) is Some && within_skew(signed_at(challenge)->0, now)
}

/// The conditions for reading the credential that a record holds, where it holds any.
pub open spec fn access_marker(record: JsonModel) -> JsonModel {
    json::member_or_null(record, "registrationCredentialAccess"@)
}

/// The record lets the controller read the credential, with the method of the query.
pub open spec fn marker_admits(marker: JsonModel, challenge: JsonModel) -> bool {
    &&& json::field(marker, "enabled"@) == Some(JsonModel::Bool(true))
    &&& json::text_field(challenge, "controllerDid"@) is Some
    &&& json::text_field(marker, "controllerDid"@) == json::text_field(challenge, "controllerDid"@)
    &&& json::text_field(challenge, "verificationMethod"@) is Some
    &&& json::text_field(marker, "verifiedVerificationMethod"@) == json::text_field(
        challenge,
        "verificationMethod"@,
    )
}

/// The verification method of the controller that a query names.
pub open spec fn query_method(request: RegistrationCredentialQueryRequest) -> Option<JsonModel> {
    match json::text_field(json::contents(request.challenge), "verificationMethod"@) {
        Some(id) => documents::acting_method(json::contents(request.controller_did_document), id),
        None => None,
    }
}

/// What the node says of a query by its words, the record and the clock: whether it is in
/// order as far as can be seen without keys and hashes.
pub open spec fn words_verdict(
    terms: QueryTerms,
    resource_did: Seq<char>,
    record: JsonModel,
    request: RegistrationCredentialQueryRequest,
    now: time::Moment,
) -> error::Answer<()> {
    let challenge = json::contents(request.challenge);
    let document = json::contents(request.controller_did_document);
    if !is_bound(terms, resource_did, challenge) {
        Err(error::bad_request("invalid_registration_credential_query"@))
    } else if !is_timely(challenge, now) {
        Err(error::bad_request("registration_credential_query_expired"@))
    } else if !marker_admits(access_marker(record), challenge) {
        Err(error::forbidden("registration_credential_access_denied"@))
    } else if json::text_field(document, "id"@) != json::text_field(challenge, "controllerDid"@) {
        Err(error::unauthorized("invalid_controller_signature"@))
    } else if query_method(request) is None {
        Err(error::unauthorized("invalid_controller_signature"@))
    } else {
        Ok(())
    }
}

/// What the node says of a query by its verification method: whether the method holds a key,
/// what its hash is, and whether the signature is one by that key.
pub open spec fn method_verdict(
    marker: JsonModel,
    holds_key: bool,
    method_hash: Seq<char>,
    signature_holds: bool,
) -> error::Answer<()> {
    if !holds_key {
        Err(error::unauthorized("invalid_controller_signature"@))
    } else if json::text_field(marker, "verifiedControllerMethodHash"@) != Some(method_hash) {
        Err(error::forbidden("registration_credential_access_denied"@))
    } else if !signature_holds {
        Err(error::unauthorized("invalid_controller_signature"@))
    } else {
        Ok(())
    }
}

/// What the node says of a query, before it looks at the nonce.
pub open spec fn query_verdict(
    terms: QueryTerms,
    resource_did: Seq<char>,
    record: JsonModel,
    request: RegistrationCredentialQueryRequest,
    now: time::Moment,
) -> error::Answer<()> {
    match words_verdict(terms, resource_did, record, request, now) {
        Err(refusal) => Err(refusal),
        Ok(()) => {
            let method = query_method(request)->0;
            method_verdict(
                access_marker(record),
                crypto::holds_key(method),
                crypto::json_hash(terms.suite, method),
                crypto::signature_holds(
                    json::contents(request.challenge),
                    json::contents(request.proof),
                    method,
                ),
            )
        },
    }
}

/// What the node says of a query whose nonce could not be stored, by the complaint.
pub open spec fn nonce_refusal(complaint: Seq<char>) -> error::Refusal {
    if text::occurs_in("nonce_replayed"@, complaint) {
        error::forbidden("registration_credential_query_replay"@)
    } else {
        error::bad_request("invalid_registration_credential_query"@)
    }
}

/// Whether a value has the given text under a key.
fn has_text(value: &Value, key: &str, wanted: &str) -> (found: bool)
    ensures
        found == (json::text_field(json::contents(*value), key@) == Some(wanted@)),
{
    match json::get_text(value, key) {
        Some(held) => text::same_text(held.as_str(), wanted),
        None => false,
    }
}

fn check_binding(terms: &QueryTerms, resource_did: &str, challenge: &Value) -> (ok: bool)
    ensures
        ok == is_bound(*terms, resource_did@, json::contents(*challenge)),
{
    has_text(challenge, "method", "POST") && has_text(
        challenge,
        "path",
        registration_credential_query_path(resource_did).as_str(),
    ) && has_text(challenge, "resourceDid", resource_did) && has_text(
        challenge,
        "purpose",
        terms.purpose.as_str(),
    ) && has_text(challenge, "aud", terms.node_did.as_str()) && has_text(
        challenge,
        "protocolVersion",
        terms.protocol_version.as_str(),
    ) && !text::is_blank(read_nonce(challenge).as_str())
}

/// The nonce of a query.
fn read_nonce(challenge: &Value) -> (nonce: String)
    ensures
        nonce@ == query_nonce(json::contents(*challenge)),
{
    match json::get_text(challenge, "requestNonce") {
        Some(nonce) => nonce,
        None => String::new(),
    }
}

/// When a query was signed, if it says so.
fn read_time(challenge: &Value) -> (found: Option<Instant>)
    ensures
        time::opt_moment(found) == signed_at(json::contents(*challenge)),
{
    match json::get_text(challenge, "requestTimestamp") {
        Some(written) => Instant::parse(written.as_str()),
        None => None,
    }
}

/// Whether two points in time are at most the allowed skew apart.
pub fn check_skew(signed_at: &Instant, now: &Instant) -> (ok: bool)
    requires
        now@.seconds + 2 * REGISTRATION_CREDENTIAL_QUERY_MAX_CLOCK_SKEW_SECONDS
            <= time::LAST_SECOND,
    ensures
        ok == within_skew(signed_at@, now@),
{
    if signed_at.is_after(&now.plus_seconds(REGISTRATION_CREDENTIAL_QUERY_MAX_CLOCK_SKEW_SECONDS)) {
        return false;
    }
    !now.is_after(&signed_at.plus_seconds(REGISTRATION_CREDENTIAL_QUERY_MAX_CLOCK_SKEW_SECONDS))
}

fn check_marker(marker: &Value, challenge: &Value) -> (ok: bool)
    ensures
        ok == marker_admits(json::contents(*marker), json::contents(*challenge)),
{
    let enabled = match json::get(marker, "enabled") {
        Some(held) => match held.as_bool() {
            Some(truth) => truth,
            None => false,
        },
        None => false,
    };
    let controller = match json::get_text(challenge, "controllerDid") {
        Some(controller) => controller,
        None => {
            return false;
        },
    };
    let method = match json::get_text(challenge, "verificationMethod") {
        Some(method) => method,
        None => {
            return false;
        },
    };
    enabled && has_text(marker, "controllerDid", controller.as_str()) && has_text(
        marker,
        "verifiedVerificationMethod",
        method.as_str(),
    )
}

/// The verification method of the controller that a query names.
fn find_query_method(request: &RegistrationCredentialQueryRequest) -> (found: Option<&Value>)
    ensures
        documents::opt_contents(found) == query_method(*request),
{
    match json::get_text(&request.challenge, "verificationMethod") {
        Some(id) => documents::find_acting_method(&request.controller_did_document, id.as_str()),
        None => None,
    }
}

/// Checks the words of a query for the credential in a record. The node's clock has to be far
/// enough from the end of time for the skew to be added to it twice.
pub fn check_query_words(
    terms: &QueryTerms,
    resource_did: &str,
    record: &Value,
    request: &RegistrationCredentialQueryRequest,
    now: &Instant,
) -> (result: Result<(), ApiError>)
    requires
        now@.seconds + 2 * REGISTRATION_CREDENTIAL_QUERY_MAX_CLOCK_SKEW_SECONDS
            <= time::LAST_SECOND,
    ensures
        error::verdict(result) == words_verdict(
            *terms,
            resource_did@,
            json::contents(*record),
            *request,
            now@,
        ),
{
    let challenge = &request.challenge;
    if !check_binding(terms, resource_did, challenge) {
        return Err(ApiError::bad_request("invalid_registration_credential_query"));
    }
    match read_time(challenge) {
        Some(signed_at) => if !check_skew(&signed_at, now) {
            return Err(ApiError::bad_request("registration_credential_query_expired"));
        },
        None => {
            return Err(ApiError::bad_request("registration_credential_query_expired"));
        },
    }
    let marker = json::member(record, "registrationCredentialAccess");
    if !check_marker(&marker, challenge) {
        return Err(ApiError::forbidden("registration_credential_access_denied"));
    }
    let controller = match json::get_text(challenge, "controllerDid") {
        Some(controller) => controller,
        None => {
            return Err(ApiError::forbidden("registration_credential_access_denied"));
        },
    };
    if !has_text(&request.controller_did_document, "id", controller.as_str()) {
        return Err(ApiError::unauthorized("invalid_controller_signature"));
    }
    match find_query_method(request) {
        Some(_) => Ok(()),
        None => Err(ApiError::unauthorized("invalid_controller_signature")),
    }
}

/// Checks what is known of the verification method of a query against the conditions that
/// the record was marked with.
pub fn check_query_method(
    marker: &Value,
    holds_key: bool,
    method_hash: &str,
    signature_holds: bool,
) -> (result: Result<(), ApiError>)
    ensures
        error::verdict(result) == method_verdict(
            json::contents(*marker),
            holds_key,
            method_hash@,
            signature_holds,
        ),
{
    if !holds_key {
        return Err(ApiError::unauthorized("invalid_controller_signature"));
    }
    if !has_text(marker, "verifiedControllerMethodHash", method_hash) {
        return Err(ApiError::forbidden("registration_credential_access_denied"));
    }
    if !signature_holds {
        return Err(ApiError::unauthorized("invalid_controller_signature"));
    }
    Ok(())
}

/// Verifies a query for the credential in a record, all but its nonce. The node's clock has
/// to be far enough from the end of time for the skew to be added to it twice.
pub fn verify_registration_credential_query(
    terms: &QueryTerms,
    resource_did: &str,
    record: &Value,
    request: &RegistrationCredentialQueryRequest,
    now: &Instant,
) -> (result: Result<(), ApiError>)
    requires
        now@.seconds + 2 * REGISTRATION_CREDENTIAL_QUERY_MAX_CLOCK_SKEW_SECONDS
            <= time::LAST_SECOND,
    ensures
        error::verdict(result) == query_verdict(
            *terms,
            resource_did@,
            json::contents(*record),
            *request,
            now@,
        ),
{
    match check_query_words(terms, resource_did, record, request, now) {
        Ok(()) => {},
        Err(error) => {
            return Err(error);
        },
    }
    let method = match find_query_method(request) {
        Some(method) => method,
        None => {
            return Err(ApiError::unauthorized("invalid_controller_signature"));
        },
    };
    let marker = json::member(record, "registrationCredentialAccess");
    let holds_key = crypto::method_holds_key(method);
    let method_hash = match crypto::hash_json_with_suite(terms.suite, method) {
        Ok(hash) => hash,
        Err(_) => {
            return Err(ApiError::unauthorized("invalid_controller_signature"));
        },
    };
    let signature_holds = crypto::verify_payload_with_proof(
        &request.challenge,
        &request.proof,
        method,
    );
    check_query_method(&marker, holds_key, method_hash.as_str(), signature_holds)
}

/// What an attempt to store the nonce of a query comes to. The attempt complains in words.
pub fn registration_credential_nonce_outcome(stored: Result<(), String>) -> (result: Result<
    (),
    ApiError,
>)
    ensures
        error::verdict(result) == (match stored {
            Ok(()) => Ok(()),
            Err(complaint) => Err(nonce_refusal(complaint@)),
        }),
{
    match stored {
        Ok(()) => Ok(()),
        Err(complaint) => if text::occurs("nonce_replayed", complaint.as_str()) {
            Err(ApiError::forbidden("registration_credential_query_replay"))
        } else {
            Err(ApiError::bad_request("invalid_registration_credential_query"))
        },
    }
}

/// The answer that hands a credential over.
pub open spec fn credential_body(
    resource_did: Seq<char>,
    controller_did: JsonModel,
    credential: JsonModel,
) -> JsonModel {
    JsonModel::Object(
        Map::empty().insert("resourceDid"@, JsonModel::Text(resource_did)).insert(
            "controllerDid"@,
            controller_did,
        ).insert("registrationCredential"@, credential),
    )
}

/// What the node would answer a query with, once its nonce is stored.
pub open spec fn grant_verdict(
    terms: QueryTerms,
    resource_did: Seq<char>,
    record: Option<JsonModel>,
    request: RegistrationCredentialQueryRequest,
    now: time::Moment,
) -> error::Answer<JsonModel> {
    match record {
        None => Err(error::not_found("resource_not_found"@)),
        Some(held) => match json::field(held, "registrationCredential"@) {
            None => Err(error::forbidden("registration_credential_access_denied"@)),
            Some(credential) => match query_verdict(terms, resource_did, held, request, now) {
                Err(refusal) => Err(refusal),
                Ok(()) => Ok(
                    credential_body(
                        resource_did,
                        json::member_or_null(json::contents(request.challenge), "controllerDid"@),
                        credential,
                    ),
                ),
            },
        },
    }
}

/// What a query is answered with, where storing its nonce comes to the outcome.
pub open spec fn query_answer(
    terms: QueryTerms,
    resource_did: Seq<char>,
    record: Option<JsonModel>,
    request: RegistrationCredentialQueryRequest,
    now: time::Moment,
    outcome: Result<(), Seq<char>>,
) -> error::Answer<JsonModel> {
    match grant_verdict(terms, resource_did, record, request, now) {
        Err(refusal) => Err(refusal),
        Ok(body) => match outcome {
            Ok(()) => Ok(body),
            Err(complaint) => Err(nonce_refusal(complaint)),
        },
    }
}

/// A credential that may be handed over as soon as the nonce of the query is stored.
pub struct CredentialGrant {
    nonce: String,
    seen_at: Instant,
    body: Value,
}

impl CredentialGrant {
    /// The nonce that has to be stored first.
    pub closed spec fn nonce(self) -> Seq<char> {
        self.nonce@
    }

    /// When the nonce was used.
    pub closed spec fn seen_at(self) -> time::Moment {
        self.seen_at@
    }

    /// What is handed over then.
    pub closed spec fn body(self) -> JsonModel {
        json::contents(self.body)
    }

    /// The grant that a query for the credential in a record leads to, if it is in order.
    pub fn open(
        terms: &QueryTerms,
        resource_did: &str,
        record: Option<&Value>,
        request: &RegistrationCredentialQueryRequest,
        now: &Instant,
    ) -> (result: Result<CredentialGrant, ApiError>)
        requires
            now@.seconds + 2 * REGISTRATION_CREDENTIAL_QUERY_MAX_CLOCK_SKEW_SECONDS
                <= time::LAST_SECOND,
        ensures
            match grant_verdict(
                *terms,
                resource_did@,
                documents::opt_contents(record),
                *request,
                now@,
            ) {
                Ok(body) => {
                    &&& result is Ok
                    &&& result->Ok_0.body() == body
                    &&& result->Ok_0.nonce() == query_nonce(json::contents(request.challenge))
                    &&& Some(result->Ok_0.seen_at()) == signed_at(
                        json::contents(request.challenge),
                    )
                },
                Err(refusal) => result is Err && result->Err_0@ == refusal,
            },
    {
        let held = match record {
            Some(held) => held,
            None => {
                return Err(ApiError::not_found("resource_not_found"));
            },
        };
        let credential = match json::get(held, "registrationCredential") {
            Some(credential) => credential.clone(),
            None => {
                return Err(ApiError::forbidden("registration_credential_access_denied"));
            },
        };
        match verify_registration_credential_query(terms, resource_did, held, request, now) {
            Ok(()) => {},
            Err(error) => {
                return Err(error);
            },
        }
        let seen_at = match read_time(&request.challenge) {
            Some(seen_at) => seen_at,
            None => {
                return Err(ApiError::bad_request("registration_credential_query_expired"));
            },
        };
        let mut body = json::object();
        json::set(&mut body, "resourceDid", json::text(resource_did));
        json::set(&mut body, "controllerDid", json::member(&request.challenge, "controllerDid"));
        json::set(&mut body, "registrationCredential", credential);
        Ok(CredentialGrant { nonce: read_nonce(&request.challenge), seen_at, body })
    }

    /// The nonce that has to be stored before the credential is handed over.
    pub fn nonce_to_store(&self) -> (nonce: String)
        ensures
            nonce@ == self.nonce(),
    {
        self.nonce.clone()
    }

    /// When the nonce was used.
    pub fn nonce_seen_at(&self) -> (at: Instant)
        ensures
            at@ == self.seen_at(),
    {
        self.seen_at
    }

    /// The answer, once it is known what storing the nonce came to.
    pub fn release(self, stored: Result<(), String>) -> (result: Result<Value, ApiError>)
        ensures
            match stored {
                Ok(()) => result is Ok && json::contents(result->Ok_0) == self.body(),
                Err(complaint) => result is Err && result->Err_0@ == nonce_refusal(complaint@),
            },
    {
        match registration_credential_nonce_outcome(stored) {
            Ok(()) => Ok(self.body),
            Err(error) => Err(error),
        }
    }
}

/// What the controller's authority over a registration rests on.
pub open spec fn authority_binding(
    resource_did: Seq<char>,
    controller_did: Seq<char>,
    verification_method: Seq<char>,
    did_document_hash: Seq<char>,
    metadata_hash: Seq<char>,
    registrar_did: Seq<char>,
    purpose: Seq<char>,
) -> JsonModel {
    JsonModel::Object(
        Map::empty().insert("resourceDid"@, JsonModel::Text(resource_did)).insert(
            "controllerDid"@,
            JsonModel::Text(controller_did),
        ).insert("verificationMethod"@, JsonModel::Text(verification_method)).insert(
            "didDocumentHash"@,
            JsonModel::Text(did_document_hash),
        ).insert("metadataHash"@, JsonModel::Text(metadata_hash)).insert(
            "registrarDid"@,
            JsonModel::Text(registrar_did),
        ).insert("purpose"@, JsonModel::Text(purpose)),
    )
}

/// The conditions under which a controller may read the credential of a registration.
pub open spec fn new_marker(
    controller_did: Seq<char>,
    verification_method: Seq<char>,
    method_hash: Seq<char>,
    binding_hash: Seq<char>,
    verified_at: Seq<char>,
) -> JsonModel {
    JsonModel::Object(
        Map::empty().insert("enabled"@, JsonModel::Bool(true)).insert(
            "controllerDid"@,
            JsonModel::Text(controller_did),
        ).insert("verifiedVerificationMethod"@, JsonModel::Text(verification_method)).insert(
            "verifiedControllerMethodHash"@,
            JsonModel::Text(method_hash),
        ).insert("verifiedAuthorityBindingHash"@, JsonModel::Text(binding_hash)).insert(
            "verifiedAt"@,
            JsonModel::Text(verified_at),
        ).insert("policyVersion"@, JsonModel::Text("registration-credential-access-v1"@)),
    )
}

/// Builds the conditions under which a controller may read the credential of a registration.
pub fn build_access_marker(
    controller_did: &str,
    verification_method: &str,
    method_hash: &str,
    binding_hash: &str,
    verified_at: &str,
) -> (marker: Value)
    ensures
        json::contents(marker) == new_marker(
            controller_did@,
            verification_method@,
            method_hash@,
            binding_hash@,
            verified_at@,
        ),
{
    let mut marker = json::object();
    json::set(&mut marker, "enabled", json::boolean(true));
    json::set(&mut marker, "controllerDid", json::text(controller_did));
    json::set(&mut marker, "verifiedVerificationMethod", json::text(verification_method));
    json::set(&mut marker, "verifiedControllerMethodHash", json::text(method_hash));
    json::set(&mut marker, "verifiedAuthorityBindingHash", json::text(binding_hash));
    json::set(&mut marker, "verifiedAt", json::text(verified_at));
    json::set(&mut marker, "policyVersion", json::text("registration-credential-access-v1"));
    marker
}

/// What can be read back from the conditions that a registration was given.
pub proof fn law_markers_say_who_was_verified(
    controller_did: Seq<char>,
    verification_method: Seq<char>,
    method_hash: Seq<char>,
    binding_hash: Seq<char>,
    verified_at: Seq<char>,
)
    ensures
        ({
            let marker = new_marker(
                controller_did,
                verification_method,
                method_hash,
                binding_hash,
                verified_at,
            );
            &&& json::field(marker, "enabled"@) == Some(JsonModel::Bool(true))
            &&& json::text_field(marker, "controllerDid"@) == Some(controller_did)
            &&& json::text_field(marker, "verifiedVerificationMethod"@) == Some(verification_method)
            &&& json::text_field(marker, "verifiedControllerMethodHash"@) == Some(method_hash)
            &&& json::text_field(marker, "verifiedAuthorityBindingHash"@) == Some(binding_hash)
        }),
{
    reveal_strlit("enabled");
    reveal_strlit("controllerDid");
    reveal_strlit("verifiedVerificationMethod");
    reveal_strlit("verifiedControllerMethodHash");
    reveal_strlit("verifiedAuthorityBindingHash");
    reveal_strlit("verifiedAt");
    reveal_strlit("policyVersion");
    assert("enabled"@.len() == 7 && "verifiedAt"@.len() == 10);
    assert("controllerDid"@.len() == 13 && "controllerDid"@[0] == 'c');
    assert("policyVersion"@.len() == 13 && "policyVersion"@[0] == 'p');
    assert("verifiedVerificationMethod"@.len() == 26);
    assert("verifiedControllerMethodHash"@.len() == 28);
    assert("verifiedControllerMethodHash"@[8] == 'C');
    assert("verifiedAuthorityBindingHash"@.len() == 28);
    assert("verifiedAuthorityBindingHash"@[8] == 'A');
}

/// The controller that was verified at registration gets the credential: a bound and timely
/// query passes that is signed with the very method whose hash the record holds.
pub proof fn law_verified_controllers_are_answered(
    terms: QueryTerms,
    resource_did: Seq<char>,
    record: JsonModel,
    request: RegistrationCredentialQueryRequest,
    now: time::Moment,
    controller_did: Seq<char>,
    verification_method: Seq<char>,
    method: JsonModel,
    binding_hash: Seq<char>,
    verified_at: Seq<char>,
)
    requires
        access_marker(record) == new_marker(
            controller_did,
            verification_method,
            crypto::json_hash(terms.suite, method),
            binding_hash,
            verified_at,
        ),
        is_bound(terms, resource_did, json::contents(request.challenge)),
        is_timely(json::contents(request.challenge), now),
        json::text_field(json::contents(request.challenge), "controllerDid"@) == Some(
            controller_did,
        ),
        json::text_field(json::contents(request.challenge), "verificationMethod"@) == Some(
            verification_method,
        ),
        json::text_field(json::contents(request.controller_did_document), "id"@) == Some(
            controller_did,
        ),
        documents::acting_method(
            json::contents(request.controller_did_document),
            verification_method,
        ) == Some(method),
        crypto::holds_key(method),
        crypto::signature_holds(
            json::contents(request.challenge),
            json::contents(request.proof),
            method,
        ),
    ensures
        query_verdict(terms, resource_did, record, request, now) is Ok,
{
    law_markers_say_who_was_verified(
        controller_did,
        verification_method,
        crypto::json_hash(terms.suite, method),
        binding_hash,
        verified_at,
    );
}

/// Nobody else gets it: a query that passes names the controller and the method that the
/// record was marked with, is bound and timely, and the challenge that says so is signed with
/// a method of the marked hash from a document of that controller.
pub proof fn law_only_verified_controllers_are_answered(
    terms: QueryTerms,
    resource_did: Seq<char>,
    record: JsonModel,
    request: RegistrationCredentialQueryRequest,
    now: time::Moment,
)
    requires
        query_verdict(terms, resource_did, record, request, now) is Ok,
    ensures
        is_bound(terms, resource_did, json::contents(request.challenge)),
        is_timely(json::contents(request.challenge), now),
        marker_admits(access_marker(record), json::contents(request.challenge)),
        json::text_field(json::contents(request.controller_did_document), "id"@) == json::text_field(
            access_marker(record),
            "controllerDid"@,
        ),
        query_method(request) is Some,
        json::text_field(access_marker(record), "verifiedControllerMethodHash"@) == Some(
            crypto::json_hash(terms.suite, query_method(request)->0),
        ),
        crypto::signature_holds(
            json::contents(request.challenge),
            json::contents(request.proof),
            query_method(request)->0,
        ),
{
}

/// A record that was not marked at registration releases its credential to no query at all.
pub proof fn law_unmarked_records_answer_nobody(
    terms: QueryTerms,
    resource_did: Seq<char>,
    record: JsonModel,
    request: RegistrationCredentialQueryRequest,
    now: time::Moment,
)
    requires
        json::field(record, "registrationCredentialAccess"@) is None,
    ensures
        query_verdict(terms, resource_did, record, request, now) is Err,
{
}

/// A query that is in order for one resource is in order for no other.
pub proof fn law_queries_are_for_one_resource(
    terms: QueryTerms,
    first: Seq<char>,
    second: Seq<char>,
    challenge: JsonModel,
)
    requires
        is_bound(terms, first, challenge),
        is_bound(terms, second, challenge),
    ensures
        first == second,
{
}

/// The time for which the nonce of a query is to be remembered, counted from when the query was
/// signed, is not over as long as the query is timely.
pub proof fn law_nonces_outlast_their_queries(challenge: JsonModel, now: time::Moment)
    requires
        is_timely(challenge, now),
    ensures
        !time::later(
            now,
            time::plus(
                signed_at(challenge)->0,
                REGISTRATION_CREDENTIAL_QUERY_NONCE_TTL_SECONDS as int,
            ),
        ),
{
}

/// A query is answered once: sent again while it is timely, with the record unchanged, it is
/// refused as a replay. It rests on a store of nonces that held what it took when the query was
/// answered, dropped nothing before its time, and complains of what it remembers.
pub proof fn law_queries_are_answered_once(
    terms: QueryTerms,
    resource_did: Seq<char>,
    record: JsonModel,
    request: RegistrationCredentialQueryRequest,
    first: time::Moment,
    outcome: Result<(), Seq<char>>,
    stored: Map<Seq<char>, time::Moment>,
    second: time::Moment,
    again: Result<(), Seq<char>>,
    held: Map<Seq<char>, time::Moment>,
)
    requires
        query_answer(terms, resource_did, Some(record), request, first, outcome) is Ok,
        nonces::holds_what_it_took(
            stored,
            query_nonce(json::contents(request.challenge)),
            signed_at(json::contents(request.challenge))->0,
            outcome,
        ),
        is_timely(json::contents(request.challenge), second),
        nonces::keeps_what_it_holds(
            stored,
            held,
            second,
            REGISTRATION_CREDENTIAL_QUERY_NONCE_TTL_SECONDS as int,
        ),
        nonces::refuses_what_it_remembers(
            held,
            query_nonce(json::contents(request.challenge)),
            second,
            REGISTRATION_CREDENTIAL_QUERY_NONCE_TTL_SECONDS as int,
            again,
        ),
    ensures
        query_answer(terms, resource_did, Some(record), request, second, again) == Err::<
            JsonModel,
            error::Refusal,
        >(error::forbidden("registration_credential_query_replay"@)),
{
    let challenge = json::contents(request.challenge);
    let ttl = REGISTRATION_CREDENTIAL_QUERY_NONCE_TTL_SECONDS as int;
    law_nonces_outlast_their_queries(challenge, second);
    assert(nonces::remembers(stored, query_nonce(challenge), second, ttl));
    assert(nonces::remembers(held, query_nonce(challenge), second, ttl));
    reveal_strlit("nonce_replayed");
    reveal_strlit("trusted_upstream_nonce_replayed");
    let complaint = "trusted_upstream_nonce_replayed"@;
    assert(complaint.subrange(17int, 17int + "nonce_replayed"@.len()) == "nonce_replayed"@);
    assert(text::occurs_in("nonce_replayed"@, complaint));
}

/// The keys of an answer are all different.
proof fn answer_keys_differ()
    ensures
        "resourceDid"@.len() == 11,
        "controllerDid"@.len() == 13,
        "registrationCredential"@.len() == 22,
{
    reveal_strlit("resourceDid");
    reveal_strlit("controllerDid");
    reveal_strlit("registrationCredential");
}

/// The keys of what an authority rests on are all different.
proof fn binding_keys_differ()
    ensures
        "resourceDid"@.len() == 11,
        "controllerDid"@.len() == 13,
        "verificationMethod"@.len() == 18,
        "didDocumentHash"@.len() == 15,
        "metadataHash"@.len() == 12 && "metadataHash"@[0] == 'm',
        "registrarDid"@.len() == 12 && "registrarDid"@[0] == 'r',
        "purpose"@.len() == 7,
{
    reveal_strlit("resourceDid");
    reveal_strlit("controllerDid");
    reveal_strlit("verificationMethod");
    reveal_strlit("didDocumentHash");
    reveal_strlit("metadataHash");
    reveal_strlit("registrarDid");
    reveal_strlit("purpose");
}

/// The keys of a mark are all different.
proof fn marker_keys_differ()
    ensures
        "enabled"@.len() == 7,
        "controllerDid"@.len() == 13 && "controllerDid"@[0] == 'c',
        "verifiedVerificationMethod"@.len() == 26,
        "verifiedControllerMethodHash"@.len() == 28 && "verifiedControllerMethodHash"@[8] == 'C',
        "verifiedAuthorityBindingHash"@.len() == 28 && "verifiedAuthorityBindingHash"@[8] == 'A',
        "verifiedAt"@.len() == 10,
        "policyVersion"@.len() == 13 && "policyVersion"@[0] == 'p',
{
    reveal_strlit("enabled");
    reveal_strlit("controllerDid");
    reveal_strlit("verifiedVerificationMethod");
    reveal_strlit("verifiedControllerMethodHash");
    reveal_strlit("verifiedAuthorityBindingHash");
    reveal_strlit("verifiedAt");
    reveal_strlit("policyVersion");
}

/// An answered query is handed the credential as the record holds it, under the DID that was
/// asked for and the controller that asked, and nothing else.
pub proof fn law_answers_hand_the_credential_over(
    terms: QueryTerms,
    resource_did: Seq<char>,
    record: Option<JsonModel>,
    request: RegistrationCredentialQueryRequest,
    now: time::Moment,
    outcome: Result<(), Seq<char>>,
)
    requires
        query_answer(terms, resource_did, record, request, now, outcome) is Ok,
    ensures
        ({
            let body = query_answer(terms, resource_did, record, request, now, outcome)->Ok_0;
            &&& outcome is Ok
            &&& record is Some
            &&& json::field(record->0, "registrationCredential"@) is Some
            &&& json::field(body, "registrationCredential"@) == json::field(
                record->0,
                "registrationCredential"@,
            )
            &&& json::text_field(body, "resourceDid"@) == Some(resource_did)
            &&& json::text_field(body, "controllerDid"@) is Some
            &&& json::field(body, "controllerDid"@) == json::field(
                json::contents(request.challenge),
                "controllerDid"@,
            )
            &&& forall|key: Seq<char>| #[trigger]
                json::field(body, key) is Some ==> key == "resourceDid"@ || key
                    == "controllerDid"@ || key == "registrationCredential"@
        }),
{
    answer_keys_differ();
}

/// What a query has to say to be answered, word for word: the challenge names the method, the
/// path and the DID of the resource, the node, the purpose and the protocol, and a nonce.
pub proof fn law_answered_queries_name_all_that_they_are_for(
    terms: QueryTerms,
    resource_did: Seq<char>,
    record: JsonModel,
    request: RegistrationCredentialQueryRequest,
    now: time::Moment,
)
    requires
        query_verdict(terms, resource_did, record, request, now) is Ok,
    ensures
        ({
            let challenge = json::contents(request.challenge);
            &&& json::field(challenge, "method"@) == Some(JsonModel::Text("POST"@))
            &&& json::field(challenge, "path"@) == Some(
                JsonModel::Text(
                    "/resources/"@ + query_path::encoded_segment(resource_did)
                        + "/registration-credential"@,
                ),
            )
            &&& json::field(challenge, "resourceDid"@) == Some(JsonModel::Text(resource_did))
            &&& json::field(challenge, "purpose"@) == Some(JsonModel::Text(terms.purpose@))
            &&& json::field(challenge, "aud"@) == Some(JsonModel::Text(terms.node_did@))
            &&& json::field(challenge, "protocolVersion"@) == Some(
                JsonModel::Text(terms.protocol_version@),
            )
            &&& json::text_field(challenge, "requestNonce"@) is Some
            &&& !text::blank(json::text_field(challenge, "requestNonce"@)->0)
        }),
{
}

/// Who is answered: the record is marked for the controller and the method that the challenge
/// names, the document is that controller's and lists the method as one to act with, the method
/// has the hash that the mark holds and a key, and the challenge is signed with it.
pub proof fn law_answered_queries_come_from_the_marked_controller(
    terms: QueryTerms,
    resource_did: Seq<char>,
    record: JsonModel,
    request: RegistrationCredentialQueryRequest,
    now: time::Moment,
)
    requires
        query_verdict(terms, resource_did, record, request, now) is Ok,
    ensures
        ({
            let challenge = json::contents(request.challenge);
            let document = json::contents(request.controller_did_document);
            let marker = json::field(record, "registrationCredentialAccess"@)->0;
            let controller = json::text_field(challenge, "controllerDid"@);
            let id = json::text_field(challenge, "verificationMethod"@);
            let method = documents::method_of(document, id->0)->0;
            &&& json::field(record, "registrationCredentialAccess"@) is Some
            &&& controller is Some && id is Some
            &&& json::field(marker, "enabled"@) == Some(JsonModel::Bool(true))
            &&& json::text_field(marker, "controllerDid"@) == controller
            &&& json::text_field(marker, "verifiedVerificationMethod"@) == id
            &&& json::text_field(document, "id"@) == controller
            &&& documents::method_of(document, id->0) is Some
            &&& documents::listed_texts(document, "capabilityInvocation"@).contains(id->0)
                || documents::listed_texts(document, "authentication"@).contains(id->0)
                || documents::listed_texts(document, "assertionMethod"@).contains(id->0)
            &&& json::text_field(marker, "verifiedControllerMethodHash"@) == Some(
                crypto::json_hash(terms.suite, method),
            )
            &&& crypto::holds_key(method)
            &&& crypto::signature_holds(challenge, json::contents(request.proof), method)
        }),
{
}

/// The nanoseconds since 1970.
pub open spec fn nanoseconds(moment: time::Moment) -> int {
    moment.seconds * 1000000000 + moment.nanos
}

/// The clocks may be five minutes apart, and not a nanosecond more. It is stated of points in
/// time that are no leap seconds.
pub proof fn law_clocks_may_be_five_minutes_apart(left: time::Moment, right: time::Moment)
    requires
        0 <= left.nanos < 1000000000,
        0 <= right.nanos < 1000000000,
    ensures
        within_skew(left, right) <==> -300000000000 <= nanoseconds(left) - nanoseconds(right)
            <= 300000000000,
{
}

/// An answered query says when it was signed, in a text that can be read, and that was at most
/// the skew ago, or ahead.
pub proof fn law_answered_queries_are_timely(
    terms: QueryTerms,
    resource_did: Seq<char>,
    record: JsonModel,
    request: RegistrationCredentialQueryRequest,
    now: time::Moment,
)
    requires
        query_verdict(terms, resource_did, record, request, now) is Ok,
    ensures
        ({
            let written = json::text_field(json::contents(request.challenge), "requestTimestamp"@);
            &&& written is Some
            &&& time::written_moment(written->0) is Some
            &&& within_skew(time::written_moment(written->0)->0, now)
        }),
{
}

/// A nonce of a query is remembered for ten minutes, which is twice the skew: as long as a query
/// can be timely that was signed ahead of the node's clock.
pub proof fn law_nonces_are_remembered_for_twice_the_skew()
    ensures
        REGISTRATION_CREDENTIAL_QUERY_MAX_CLOCK_SKEW_SECONDS == 300,
        REGISTRATION_CREDENTIAL_QUERY_NONCE_TTL_SECONDS == 600,
{
}

/// A query that lacks one of its words, or says another, is malformed, whatever else it says.
pub proof fn law_queries_with_other_words_are_malformed(
    terms: QueryTerms,
    resource_did: Seq<char>,
    record: JsonModel,
    request: RegistrationCredentialQueryRequest,
    now: time::Moment,
)
    requires
        ({
            let challenge = json::contents(request.challenge);
            ||| json::field(challenge, "method"@) != Some(JsonModel::Text("POST"@))
            ||| json::field(challenge, "path"@) != Some(
                JsonModel::Text(
                    "/resources/"@ + query_path::encoded_segment(resource_did)
                        + "/registration-credential"@,
                ),
            )
            ||| json::field(challenge, "resourceDid"@) != Some(JsonModel::Text(resource_did))
            ||| json::field(challenge, "purpose"@) != Some(JsonModel::Text(terms.purpose@))
            ||| json::field(challenge, "aud"@) != Some(JsonModel::Text(terms.node_did@))
            ||| json::field(challenge, "protocolVersion"@) != Some(
                JsonModel::Text(terms.protocol_version@),
            )
            ||| match json::text_field(challenge, "requestNonce"@) {
                Some(nonce) => text::blank(nonce),
                None => true,
            }
        }),
    ensures
        query_verdict(terms, resource_did, record, request, now) == Err::<(), error::Refusal>(
            error::Refusal { status: 400, message: "invalid_registration_credential_query"@ },
        ),
{
}

/// Each reason for refusing a query whose words are right has its own status and words, and one
/// reason goes before another.
pub proof fn law_refused_queries_are_told_why(
    terms: QueryTerms,
    resource_did: Seq<char>,
    record: JsonModel,
    request: RegistrationCredentialQueryRequest,
    now: time::Moment,
)
    requires
        is_bound(terms, resource_did, json::contents(request.challenge)),
    ensures
        ({
            let challenge = json::contents(request.challenge);
            let document = json::contents(request.controller_did_document);
            let marker = json::member_or_null(record, "registrationCredentialAccess"@);
            let controller = json::text_field(challenge, "controllerDid"@);
            let id = json::text_field(challenge, "verificationMethod"@);
            let marked = json::field(marker, "enabled"@) == Some(JsonModel::Bool(true))
                && controller is Some && json::text_field(marker, "controllerDid"@) == controller
                && id is Some && json::text_field(marker, "verifiedVerificationMethod"@) == id;
            let method = documents::acting_method(document, id->0);
            let known = json::text_field(document, "id"@) == controller && method is Some
                && crypto::holds_key(method->0);
            let same_hash = json::text_field(marker, "verifiedControllerMethodHash"@) == Some(
                crypto::json_hash(terms.suite, method->0),
            );
            let signed = crypto::signature_holds(
                challenge,
                json::contents(request.proof),
                method->0,
            );
            let denied = error::Refusal {
                status: 403,
                message: "registration_credential_access_denied"@,
            };
            let unsigned = error::Refusal {
                status: 401,
                message: "invalid_controller_signature"@,
            };
            let expired = error::Refusal {
                status: 400,
                message: "registration_credential_query_expired"@,
            };
            let verdict = query_verdict(terms, resource_did, record, request, now);
            &&& !is_timely(challenge, now) ==> verdict == Err::<(), error::Refusal>(expired)
            &&& is_timely(challenge, now) ==> {
                &&& !marked ==> verdict == Err::<(), error::Refusal>(denied)
                &&& marked && !known ==> verdict == Err::<(), error::Refusal>(unsigned)
                &&& marked && known && !same_hash ==> verdict == Err::<(), error::Refusal>(denied)
                &&& marked && known && same_hash && !signed ==> verdict == Err::<
                    (),
                    error::Refusal,
                >(unsigned)
                &&& marked && known && same_hash && signed ==> verdict is Ok
            }
        }),
{
}

/// A resource that is not on record is not found, and a record without a credential is closed to
/// everyone, before anything of the query is looked at.
pub proof fn law_queries_need_a_record_with_a_credential(
    terms: QueryTerms,
    resource_did: Seq<char>,
    record: JsonModel,
    request: RegistrationCredentialQueryRequest,
    now: time::Moment,
)
    ensures
        grant_verdict(terms, resource_did, None, request, now) == Err::<JsonModel, error::Refusal>(
            error::Refusal { status: 404, message: "resource_not_found"@ },
        ),
        json::field(record, "registrationCredential"@) is None ==> grant_verdict(
            terms,
            resource_did,
            Some(record),
            request,
            now,
        ) == Err::<JsonModel, error::Refusal>(
            error::Refusal { status: 403, message: "registration_credential_access_denied"@ },
        ),
        json::field(record, "registrationCredential"@) is Some ==> (grant_verdict(
            terms,
            resource_did,
            Some(record),
            request,
            now,
        ) is Ok <==> query_verdict(terms, resource_did, record, request, now) is Ok),
{
}

/// A complaint about a nonce is a replay where it says so anywhere, and malformed otherwise.
pub proof fn law_replays_are_told_from_other_complaints(
    front: Seq<char>,
    rest: Seq<char>,
    other: Seq<char>,
)
    requires
        !text::occurs_in("nonce_replayed"@, other),
    ensures
        nonce_refusal(front + "nonce_replayed"@ + rest) == (error::Refusal {
            status: 403,
            message: "registration_credential_query_replay"@,
        }),
        nonce_refusal(other) == (error::Refusal {
            status: 400,
            message: "invalid_registration_credential_query"@,
        }),
{
    text::law_parts_have_surroundings("nonce_replayed"@, front + "nonce_replayed"@ + rest);
}

/// What a controller's authority rests on says each thing under its own name, and nothing else.
pub proof fn law_bindings_say_what_they_bind(
    resource_did: Seq<char>,
    controller_did: Seq<char>,
    verification_method: Seq<char>,
    did_document_hash: Seq<char>,
    metadata_hash: Seq<char>,
    registrar_did: Seq<char>,
    purpose: Seq<char>,
)
    ensures
        ({
            let binding = authority_binding(
                resource_did,
                controller_did,
                verification_method,
                did_document_hash,
                metadata_hash,
                registrar_did,
                purpose,
            );
            &&& json::text_field(binding, "resourceDid"@) == Some(resource_did)
            &&& json::text_field(binding, "controllerDid"@) == Some(controller_did)
            &&& json::text_field(binding, "verificationMethod"@) == Some(verification_method)
            &&& json::text_field(binding, "didDocumentHash"@) == Some(did_document_hash)
            &&& json::text_field(binding, "metadataHash"@) == Some(metadata_hash)
            &&& json::text_field(binding, "registrarDid"@) == Some(registrar_did)
            &&& json::text_field(binding, "purpose"@) == Some(purpose)
            &&& binding->Object_0.dom() =~= set![
                "resourceDid"@, "controllerDid"@, "verificationMethod"@, "didDocumentHash"@,
                "metadataHash"@, "registrarDid"@, "purpose"@,
            ]
        }),
{
    binding_keys_differ();
}

/// A mark says when the controller was verified and under which policy, and holds nothing but
/// its seven members.
pub proof fn law_markers_say_when_and_under_which_policy(
    controller_did: Seq<char>,
    verification_method: Seq<char>,
    method_hash: Seq<char>,
    binding_hash: Seq<char>,
    verified_at: Seq<char>,
)
    ensures
        ({
            let marker = new_marker(
                controller_did,
                verification_method,
                method_hash,
                binding_hash,
                verified_at,
            );
            &&& json::text_field(marker, "verifiedAt"@) == Some(verified_at)
            &&& json::text_field(marker, "policyVersion"@) == Some(
                "registration-credential-access-v1"@,
            )
            &&& marker->Object_0.dom() =~= set![
                "enabled"@, "controllerDid"@, "verifiedVerificationMethod"@,
                "verifiedControllerMethodHash"@, "verifiedAuthorityBindingHash"@, "verifiedAt"@,
                "policyVersion"@,
            ]
        }),
{
    marker_keys_differ();
}

/// A query is bound if it says all of its words, and needs to say no others.
pub proof fn law_queries_need_to_say_nothing_else(
    terms: QueryTerms,
    resource_did: Seq<char>,
    challenge: JsonModel,
    nonce: Seq<char>,
)
    requires
        json::field(challenge, "requestNonce"@) == Some(JsonModel::Text(nonce)),
    ensures
        query_nonce(challenge) == nonce,
        is_bound(terms, resource_did, challenge) <==> {
            &&& json::field(challenge, "method"@) == Some(JsonModel::Text("POST"@))
            &&& json::field(challenge, "path"@) == Some(
                JsonModel::Text(
                    "/resources/"@ + query_path::encoded_segment(resource_did)
                        + "/registration-credential"@,
                ),
            )
            &&& json::field(challenge, "resourceDid"@) == Some(JsonModel::Text(resource_did))
            &&& json::field(challenge, "purpose"@) == Some(JsonModel::Text(terms.purpose@))
            &&& json::field(challenge, "aud"@) == Some(JsonModel::Text(terms.node_did@))
            &&& json::field(challenge, "protocolVersion"@) == Some(
                JsonModel::Text(terms.protocol_version@),
            )
            &&& !text::blank(nonce)
        },
{
}

/// A query is timely if the time that it was signed at can be read and is close enough to now, and
/// for no other reason is it late.
pub proof fn law_queries_are_late_for_their_time_alone(
    challenge: JsonModel,
    now: time::Moment,
    written: Seq<char>,
    moment: time::Moment,
)
    requires
        json::field(challenge, "requestTimestamp"@) == Some(JsonModel::Text(written)),
        time::written_moment(written) == Some(moment),
        0 <= moment.nanos < 1000000000,
        0 <= now.nanos < 1000000000,
    ensures
        is_timely(challenge, now) <==> -300000000000 <= nanoseconds(moment) - nanoseconds(now)
            <= 300000000000,
{
    law_clocks_may_be_five_minutes_apart(moment, now);
}

/// Where a leap second is involved, each of the two points in time is at most three hundred
/// seconds after the other, counted from the second that the other goes on behind.
pub proof fn law_leap_seconds_make_no_difference(left: time::Moment, right: time::Moment)
    requires
        0 <= left.nanos < 2000000000,
        0 <= right.nanos < 2000000000,
    ensures
        within_skew(left, right) <==> left.seconds * 2000000000 + left.nanos <= (right.seconds
            + 300) * 2000000000 + right.nanos % 1000000000 && right.seconds * 2000000000
            + right.nanos <= (left.seconds + 300) * 2000000000 + left.nanos % 1000000000,
{
}

/// A query that does not say when it was signed, or not in a text that can be read, is late.
pub proof fn law_queries_without_a_time_are_late(challenge: JsonModel, now: time::Moment)
    ensures
        json::text_field(challenge, "requestTimestamp"@) is None ==> !is_timely(challenge, now),
        json::text_field(challenge, "requestTimestamp"@) is Some && time::written_moment(
            json::text_field(challenge, "requestTimestamp"@)->0,
        ) is None ==> !is_timely(challenge, now),
{
}

/// A query is answered if it is in order and its nonce was stored. Whatever is wrong with it is
/// what it is refused for; only if nothing is, the nonce decides.
pub proof fn law_nonces_decide_last(
    terms: QueryTerms,
    resource_did: Seq<char>,
    record: JsonModel,
    request: RegistrationCredentialQueryRequest,
    now: time::Moment,
    outcome: Result<(), Seq<char>>,
)
    requires
        json::field(record, "registrationCredential"@) is Some,
    ensures
        ({
            let verdict = query_verdict(terms, resource_did, record, request, now);
            let answer = query_answer(terms, resource_did, Some(record), request, now, outcome);
            &&& answer is Ok <==> verdict is Ok && outcome is Ok
            &&& verdict is Err ==> answer == Err::<JsonModel, error::Refusal>(verdict->Err_0)
            &&& verdict is Ok && outcome is Err ==> answer == Err::<JsonModel, error::Refusal>(
                nonce_refusal(outcome->Err_0),
            )
        }),
        query_answer(terms, resource_did, None, request, now, outcome) == Err::<
            JsonModel,
            error::Refusal,
        >(error::Refusal { status: 404, message: "resource_not_found"@ }),
{
}

} // verus!
