//! Registering a resource.
//!
//! A registration goes through states. Each is a type whose values come from the state before
//! alone, and each says what has to be done outside before the next one is reached:
//!
//! - `ControllerCheck`: have the proof of an external controller verified;
//! - `NonceCheck`: have the nonce of that proof stored;
//! - `ClearedSubmission`: read the registrar's own document;
//! - `AdmittedSubmission`: send the submission to Root;
//! - `PublishedSubmission`: have the credential signed;
//! - `RegistrationRecord`: have the record written.
//!
//! Whatever comes back is handed to the state, which gives the next one or a refusal.

use crate::access::{self, build_access_marker};
use crate::credential::{self, issue_resource_registration_credential};
use crate::crypto::{self, hash_json_with_suite, CryptoSuite};
use crate::documents::{self, controller_method_hash};
use crate::domains::{self, validate_resource_authorized_domains};
use crate::error::{self, ApiError};
use crate::governance::{self, check_governance, GovernanceView};
use crate::json::{self, JsonModel};
use crate::nonces;
use crate::stats;
use crate::submission::{self, ResourceRegistrationSubmission};
use crate::text;
use crate::time::{self, Instant};
use crate::upstream::{self, NodeIdentity};
use serde_json::Value;
use vstd::prelude::*;

verus! {

/// How far the clocks of the node and of a controller may be apart, in seconds.
pub const CONTROLLER_AUTHORIZATION_MAX_CLOCK_SKEW_SECONDS: i64 = 60;

/// How long the nonce of a controller's proof is remembered, in seconds.
pub const CONTROLLER_AUTHORIZATION_NONCE_TTL_SECONDS: i64 = 300;

/// What a controller has to have authorized.
#[derive(Debug)]
pub struct ControllerExpectation {
    pub resource_did: String,
    pub controller_did: String,
    pub publisher_did: Option<String>,
    pub did_document_hash: String,
    pub metadata_hash: String,
    pub registrar_did: String,
    pub purpose: String,
    pub max_clock_skew_seconds: i64,
}

/// What became of sending a submission to Root.
#[derive(Debug)]
pub enum RootReply {
    /// Root did not answer, for this reason.
    Unreachable(String),
    /// Root answered with this status. The body is there if it was JSON.
    Answered(u16, Option<Value>),
}

/// Whether a submission has to wait for the proof of its controller. One whose controller is
/// another than the resource has to bring that proof along.
pub open spec fn controller_verdict(submission: ResourceRegistrationSubmission) -> error::Answer<
    bool,
> {
    match submission::external_controller(submission) {
        None => Ok(false),
        Some(_) => match submission.controller_authorization_proof {
            None => Err(error::bad_request("controller_authorization_proof_required"@)),
            Some(_) => Ok(true),
        },
    }
}

/// Whether a submission has to wait for the proof of its controller, unless it is refused at
/// once. A node that is not active refuses every one.
pub open spec fn intake_verdict(
    view: GovernanceView,
    submission: ResourceRegistrationSubmission,
) -> error::Answer<bool> {
    match governance::governance_verdict(view) {
        Err(refusal) => Err(refusal),
        Ok(()) => match submission::shape_verdict(submission::root_submission(submission)) {
            Err(complaint) => Err(error::bad_request(complaint)),
            Ok(()) => controller_verdict(submission),
        },
    }
}

/// What is said of a controller's proof whose nonce could not be stored, by the complaint.
pub open spec fn controller_nonce_refusal(complaint: Seq<char>) -> error::Refusal {
    if complaint == "trusted_upstream_nonce_replayed"@ {
        error::bad_request("controller_authorization_nonce_replayed"@)
    } else {
        error::bad_request(complaint)
    }
}

/// What taking a submission in comes to, where verifying the proof of its controller and storing
/// the nonce of the proof come to the outcomes: the verification method of the controller, if
/// there was one to verify, or a refusal. A submission that is refused reaches no further state.
pub open spec fn clearing_verdict(
    view: GovernanceView,
    submission: ResourceRegistrationSubmission,
    verified: Result<Seq<char>, Seq<char>>,
    stored: Result<(), Seq<char>>,
) -> error::Answer<Option<Seq<char>>> {
    match intake_verdict(view, submission) {
        Err(refusal) => Err(refusal),
        Ok(false) => Ok(None),
        Ok(true) => match verified {
            Err(complaint) => Err(error::bad_request(complaint)),
            Ok(method) => match stored {
                Err(complaint) => Err(controller_nonce_refusal(complaint)),
                Ok(()) => Ok(Some(method)),
            },
        },
    }
}

/// The domains that a resource is registered with by a registrar of the given document, or
/// the refusal that they lead to. Where the metadata lists domains too, the lists have to be
/// the same.
pub open spec fn admission_verdict(
    registrar_document: JsonModel,
    submission: ResourceRegistrationSubmission,
) -> error::Answer<Seq<Seq<char>>> {
    let claimed = documents::authorized_domains(json::contents(submission.did_document));
    let granted = documents::authorized_domains(registrar_document);
    let listed = json::array_field(json::contents(submission.metadata), "authorizedDomains"@);
    if listed is Some && !json::all_texts(listed->0) {
        Err(error::bad_request("invalid_authorized_domains"@))
    } else if listed is Some && json::texts_among(listed->0) != claimed {
        Err(error::bad_request("authorized_domains_mismatch"@))
    } else {
        match domains::domain_verdict(claimed, granted) {
            Ok(()) => Ok(claimed),
            Err(complaint) => Err(error::bad_request(complaint)),
        }
    }
}

/// What Root answered a submission with, or the refusal that is passed on.
pub open spec fn root_verdict(reply: RootReply) -> error::Answer<JsonModel> {
    match reply {
        RootReply::Unreachable(reason) => Err(error::internal(reason@)),
        RootReply::Answered(status, body) => {
            let held = match body {
                Some(value) => json::contents(value),
                None => JsonModel::Object(Map::empty()),
            };
            if 200 <= status <= 299 {
                Ok(held)
            } else {
                Err(
                    error::Refusal {
                        status: status as int,
                        message: match json::text_field(held, "error"@) {
                            Some(message) => message,
                            None => "root_resource_registration_failed"@,
                        },
                    },
                )
            }
        },
    }
}

/// The record of a registration, before it is marked for its controller.
pub open spec fn base_record(
    submission: ResourceRegistrationSubmission,
    did_document_hash: Seq<char>,
    credential: JsonModel,
    root_response: JsonModel,
    submitted_at: Seq<char>,
) -> Map<Seq<char>, JsonModel> {
    Map::empty().insert("resourceDid"@, JsonModel::Text(submission.resource_did@)).insert(
        "resourceType"@,
        JsonModel::Text(submission.resource_type@),
    ).insert("packageVersion"@, JsonModel::Text(submission.package_version@)).insert(
        "didDocumentHash"@,
        JsonModel::Text(did_document_hash),
    ).insert("metadataHash"@, JsonModel::Text(submission.metadata_hash@)).insert(
        "packageHash"@,
        JsonModel::Text(submission.package_hash@),
    ).insert(
        "authorizedDomains"@,
        json::text_array(documents::authorized_domains(json::contents(submission.did_document))),
    ).insert("registrationCredential"@, credential).insert("rootResponse"@, root_response).insert(
        "submittedAt"@,
        JsonModel::Text(submitted_at),
    )
}

/// The hash of what the controller's authority over a registration rests on.
pub open spec fn binding_hash(
    suite: CryptoSuite,
    registrar_did: Seq<char>,
    purpose: Seq<char>,
    submission: ResourceRegistrationSubmission,
    controller_did: Seq<char>,
    method: Seq<char>,
) -> Seq<char> {
    crypto::json_hash(
        suite,
        access::authority_binding(
            submission.resource_did@,
            controller_did,
            method,
            submission.did_document_hash@,
            submission.metadata_hash@,
            registrar_did,
            purpose,
        ),
    )
}

/// The verification method with which the controller's proof was made, in the controller's
/// document.
pub open spec fn controller_method(
    submission: ResourceRegistrationSubmission,
    method: Seq<char>,
) -> Option<JsonModel> {
    match submission.controller_authorization_proof {
        Some(proof) => documents::method_of(
            submission::proof_document(json::contents(proof)),
            method,
        ),
        None => None,
    }
}

/// The record of a registration. If an external controller was verified, the record says
/// so, with the hash of the controller's verification method.
pub open spec fn marked_record(
    node: NodeIdentity,
    purpose: Seq<char>,
    submission: ResourceRegistrationSubmission,
    verified_method: Option<Seq<char>>,
    base: Map<Seq<char>, JsonModel>,
    verified_at: Seq<char>,
) -> error::Answer<JsonModel> {
    match verified_method {
        None => Ok(JsonModel::Object(base)),
        Some(method) => {
            let controller = submission::external_controller(submission)->0;
            match controller_method(submission, method) {
                None => Err(error::bad_request("controller_authorization_method_missing"@)),
                Some(held) => Ok(
                    JsonModel::Object(
                        base.insert(
                            "registrationCredentialAccess"@,
                            access::new_marker(
                                controller,
                                method,
                                crypto::json_hash(node.signer.suite(), held),
                                binding_hash(
                                    node.signer.suite(),
                                    node.did@,
                                    purpose,
                                    submission,
                                    controller,
                                    method,
                                ),
                                verified_at,
                            ),
                        ),
                    ),
                ),
            }
        },
    }
}

/// The answer to a submission that was registered.
pub open spec fn submitted_body(record: JsonModel) -> JsonModel {
    JsonModel::Object(
        Map::empty().insert("status"@, JsonModel::Text("submitted"@)).insert(
            "resourceDid"@,
            json::member_or_null(record, "resourceDid"@),
        ).insert("resourceType"@, json::member_or_null(record, "resourceType"@)).insert(
            "registrationCredential"@,
            json::member_or_null(record, "registrationCredential"@),
        ).insert("rootResponse"@, json::member_or_null(record, "rootResponse"@)),
    )
}

/// A submission whose controller is another than the resource, and whose proof has to be
/// verified.
pub struct ControllerCheck {
    submission: ResourceRegistrationSubmission,
    controller_did: String,
}

/// A submission whose controller's proof was verified, and whose nonce has to be stored.
pub struct NonceCheck {
    submission: ResourceRegistrationSubmission,
    method: String,
}

/// A submission that is in form, and whose controller, if another than the resource, agreed.
pub struct ClearedSubmission {
    submission: ResourceRegistrationSubmission,
    verified_method: Option<String>,
}

/// A submission whose domains the registrar was granted.
pub struct AdmittedSubmission {
    submission: ResourceRegistrationSubmission,
    verified_method: Option<String>,
    granted: Ghost<Seq<Seq<char>>>,
}

/// What a submission comes to at first.
pub enum Intake {
    Cleared(ClearedSubmission),
    NeedsController(ControllerCheck),
}

/// A submission that is in form.
pub open spec fn in_form(submission: ResourceRegistrationSubmission) -> bool {
    submission::shape_verdict(submission::root_submission(submission)) is Ok
}

/// A submission whose controller is another than the resource, and which holds a proof.
pub open spec fn has_controller_proof(submission: ResourceRegistrationSubmission) -> bool {
    submission::external_controller(submission) is Some
        && submission.controller_authorization_proof is Some
}

impl ControllerCheck {
    #[verifier::type_invariant]
    spec fn well_formed(self) -> bool {
        &&& in_form(self.submission)
        &&& has_controller_proof(self.submission)
        &&& submission::external_controller(self.submission) == Some(self.controller_did@)
    }

    /// What was submitted.
    pub closed spec fn submission(self) -> ResourceRegistrationSubmission {
        self.submission
    }

    /// What was submitted.
    pub fn submitted(&self) -> (submission: &ResourceRegistrationSubmission)
        ensures
            *submission == self.submission(),
    {
        &self.submission
    }

    /// What the controller has to have authorized, for a registrar and a purpose.
    pub fn expectation(&self, registrar_did: &str, purpose: &str) -> (expected:
        ControllerExpectation)
        ensures
            expected.resource_did@ == self.submission().resource_did@,
            Some(expected.controller_did@) == submission::external_controller(self.submission()),
            text::opt_text(expected.publisher_did) == documents::publisher_did(
                json::contents(self.submission().did_document),
            ),
            expected.did_document_hash@ == self.submission().did_document_hash@,
            expected.metadata_hash@ == self.submission().metadata_hash@,
            expected.registrar_did@ == registrar_did@,
            expected.purpose@ == purpose@,
            expected.max_clock_skew_seconds == CONTROLLER_AUTHORIZATION_MAX_CLOCK_SKEW_SECONDS,
    {
        proof {
            use_type_invariant(self);
        }
        ControllerExpectation {
            resource_did: self.submission.resource_did.clone(),
            controller_did: self.controller_did.clone(),
            publisher_did: documents::document_publisher(&self.submission.did_document),
            did_document_hash: self.submission.did_document_hash.clone(),
            metadata_hash: self.submission.metadata_hash.clone(),
            registrar_did: registrar_did.to_owned(),
            purpose: purpose.to_owned(),
            max_clock_skew_seconds: CONTROLLER_AUTHORIZATION_MAX_CLOCK_SKEW_SECONDS,
        }
    }

    /// The next state, once it is known what verifying the proof came to: the id of the
    /// verification method with which it was made, or a complaint.
    pub fn verified(self, outcome: Result<String, String>) -> (result: Result<
        NonceCheck,
        ApiError,
    >)
        ensures
            match outcome {
                Ok(method) => {
                    &&& result is Ok
                    &&& result->Ok_0.submission() == self.submission()
                    &&& result->Ok_0.method() == method@
                },
                Err(complaint) => result is Err && result->Err_0@ == error::bad_request(complaint@),
            },
    {
        proof {
            use_type_invariant(&self);
        }
        match outcome {
            Ok(method) => Ok(NonceCheck { submission: self.submission, method }),
            Err(complaint) => Err(ApiError::bad_request(complaint.as_str())),
        }
    }
}

impl NonceCheck {
    #[verifier::type_invariant]
    spec fn well_formed(self) -> bool {
        &&& in_form(self.submission)
        &&& has_controller_proof(self.submission)
    }

    /// What was submitted.
    pub closed spec fn submission(self) -> ResourceRegistrationSubmission {
        self.submission
    }

    /// The verification method with which the proof was made.
    pub closed spec fn method(self) -> Seq<char> {
        self.method@
    }

    /// The nonce that has to be stored.
    pub fn nonce_to_store(&self) -> (nonce: String)
        ensures
            self.submission().controller_authorization_proof is Some,
            nonce@ == submission::proof_nonce(
                json::contents(self.submission().controller_authorization_proof->0),
            ),
    {
        proof {
            use_type_invariant(self);
        }
        match &self.submission.controller_authorization_proof {
            Some(proof) => submission::read_proof_nonce(proof),
            None => String::new(),
        }
    }

    /// The next state, once it is known what storing the nonce came to.
    pub fn stored(self, outcome: Result<(), String>) -> (result: Result<
        ClearedSubmission,
        ApiError,
    >)
        ensures
            match outcome {
                Ok(()) => {
                    &&& result is Ok
                    &&& result->Ok_0.submission() == self.submission()
                    &&& result->Ok_0.verified_method() == Some(self.method())
                },
                Err(complaint) => result is Err && result->Err_0@ == controller_nonce_refusal(
                    complaint@,
                ),
            },
    {
        proof {
            use_type_invariant(&self);
        }
        match outcome {
            Ok(()) => Ok(
                ClearedSubmission {
                    submission: self.submission,
                    verified_method: Some(self.method),
                },
            ),
            Err(complaint) => if text::same_text(
                complaint.as_str(),
                "trusted_upstream_nonce_replayed",
            ) {
                Err(ApiError::bad_request("controller_authorization_nonce_replayed"))
            } else {
                Err(ApiError::bad_request(complaint.as_str()))
            },
        }
    }
}

/// Whether a submission has to wait for the proof of its controller.
pub fn needs_controller_check(submission: &ResourceRegistrationSubmission) -> (result: Result<
    bool,
    ApiError,
>)
    ensures
        match controller_verdict(*submission) {
            Ok(needed) => result is Ok && result->Ok_0 == needed,
            Err(refusal) => result is Err && result->Err_0@ == refusal,
        },
{
    match submission.controller() {
        None => Ok(false),
        Some(_) => if submission.controller_authorization_proof.is_some() {
            Ok(true)
        } else {
            Err(ApiError::bad_request("controller_authorization_proof_required"))
        },
    }
}

/// Takes a submission in. A node that is not active takes none: there is no other way to the
/// states in which Root is asked, a credential is issued and a record is written. A submission
/// that is out of form, or that lacks the proof of its controller, is refused.
pub fn receive_submission(
    view: &GovernanceView,
    submission: ResourceRegistrationSubmission,
) -> (result: Result<Intake, ApiError>)
    ensures
        result is Ok ==> *view is Active,
        match intake_verdict(*view, submission) {
            Err(refusal) => result is Err && result->Err_0@ == refusal,
            Ok(needs_controller) => match result {
                Err(_) => false,
                Ok(Intake::Cleared(cleared)) => {
                    &&& !needs_controller
                    &&& cleared.submission() == submission
                    &&& cleared.verified_method() is None
                },
                Ok(Intake::NeedsController(check)) => {
                    &&& needs_controller
                    &&& check.submission() == submission
                },
            },
        },
{
    match check_governance(view) {
        Ok(()) => {},
        Err(error) => {
            return Err(error);
        },
    }
    match submission.check_shape() {
        Ok(()) => {},
        Err(complaint) => {
            return Err(ApiError::bad_request(complaint.as_str()));
        },
    }
    match needs_controller_check(&submission) {
        Ok(_) => {},
        Err(error) => {
            return Err(error);
        },
    }
    match submission.controller() {
        None => Ok(Intake::Cleared(ClearedSubmission { submission, verified_method: None })),
        Some(controller_did) => Ok(
            Intake::NeedsController(ControllerCheck { submission, controller_did }),
        ),
    }
}

/// The texts of a list, if it holds nothing else.
fn texts_only(items: &Vec<Value>) -> (found: Option<Vec<String>>)
    ensures
        found is Some <==> json::all_texts(json::contents_of(items@)),
        found is Some ==> text::texts(found->0@) == json::texts_among(json::contents_of(items@)),
{
    let mut i: usize = 0;
    while i < items.len()
        invariant
            i <= items@.len(),
            forall|j: int|
                0 <= j < i ==> (#[trigger] json::contents_of(items@)[j]) is Text,
        decreases items@.len() - i,
    {
        if items[i].as_str().is_none() {
            assert(!(json::contents_of(items@)[i as int] is Text));
            return None;
        }
        i = i + 1;
    }
    Some(json::texts_in(items))
}

/// Whether two lists hold the same texts in the same order.
fn same_texts(left: &Vec<String>, right: &Vec<String>) -> (same: bool)
    ensures
        same == (text::texts(left@) == text::texts(right@)),
{
    if left.len() != right.len() {
        assert(text::texts(left@).len() != text::texts(right@).len());
        return false;
    }
    let mut i: usize = 0;
    while i < left.len()
        invariant
            i <= left@.len(),
            left@.len() == right@.len(),
            forall|j: int| 0 <= j < i ==> (#[trigger] left@[j])@ == right@[j]@,
        decreases left@.len() - i,
    {
        if !text::same_text(left[i].as_str(), right[i].as_str()) {
            assert(text::texts(left@)[i as int] != text::texts(right@)[i as int]);
            return false;
        }
        i = i + 1;
    }
    assert(text::texts(left@) =~= text::texts(right@));
    true
}

/// Checks the domains of a submission against those of the registrar's document.
pub fn validate_resource_authorized_domains_for_registrar(
    registrar_document: &Value,
    submission: &ResourceRegistrationSubmission,
) -> (result: Result<Vec<String>, ApiError>)
    ensures
        match admission_verdict(json::contents(*registrar_document), *submission) {
            Ok(names) => result is Ok && text::texts(result->Ok_0@) == names,
            Err(refusal) => result is Err && result->Err_0@ == refusal,
        },
{
    let granted = documents::document_domains(registrar_document);
    let claimed = documents::document_domains(&submission.did_document);
    if let Some(list) = json::get(&submission.metadata, "authorizedDomains") {
        if let Some(items) = list.as_array() {
            match texts_only(items) {
                None => {
                    return Err(ApiError::bad_request("invalid_authorized_domains"));
                },
                Some(listed) => if !same_texts(&listed, &claimed) {
                    return Err(ApiError::bad_request("authorized_domains_mismatch"));
                },
            }
        }
    }
    match validate_resource_authorized_domains(claimed.as_slice(), granted.as_slice()) {
        Ok(()) => Ok(claimed),
        Err(complaint) => Err(ApiError::bad_request(complaint.as_str())),
    }
}

impl ClearedSubmission {
    #[verifier::type_invariant]
    spec fn well_formed(self) -> bool {
        &&& in_form(self.submission)
        &&& submission::external_controller(self.submission) is Some
            <==> self.verified_method is Some
        &&& self.verified_method is Some ==> has_controller_proof(self.submission)
    }

    /// What was submitted.
    pub closed spec fn submission(self) -> ResourceRegistrationSubmission {
        self.submission
    }

    /// The verification method with which an external controller agreed.
    pub closed spec fn verified_method(self) -> Option<Seq<char>> {
        text::opt_text(self.verified_method)
    }

    /// The next state, once the registrar's own document was read, or a refusal: the
    /// registrar registers resources in its own domains alone.
    pub fn accept(self, registrar_document: Result<Value, String>) -> (result: Result<
        AdmittedSubmission,
        ApiError,
    >)
        ensures
            match registrar_document {
                Err(complaint) => result is Err && result->Err_0@ == error::internal(complaint@),
                Ok(document) => match admission_verdict(
                    json::contents(document),
                    self.submission(),
                ) {
                    Err(refusal) => result is Err && result->Err_0@ == refusal,
                    Ok(_) => {
                        &&& result is Ok
                        &&& result->Ok_0.submission() == self.submission()
                        &&& result->Ok_0.verified_method() == self.verified_method()
                        &&& result->Ok_0.granted() == documents::authorized_domains(
                            json::contents(document),
                        )
                    },
                },
            },
    {
        proof {
            use_type_invariant(&self);
        }
        let document = match registrar_document {
            Ok(document) => document,
            Err(complaint) => {
                return Err(ApiError::internal(complaint.as_str()));
            },
        };
        match validate_resource_authorized_domains_for_registrar(&document, &self.submission) {
            Err(error) => Err(error),
            Ok(_) => Ok(
                AdmittedSubmission {
                    submission: self.submission,
                    verified_method: self.verified_method,
                    granted: Ghost(documents::authorized_domains(json::contents(document))),
                },
            ),
        }
    }
}

impl AdmittedSubmission {
    #[verifier::type_invariant]
    spec fn well_formed(self) -> bool {
        &&& in_form(self.submission)
        &&& submission::external_controller(self.submission) is Some
            <==> self.verified_method is Some
        &&& self.verified_method is Some ==> has_controller_proof(self.submission)
        &&& domains::domain_verdict(
            documents::authorized_domains(json::contents(self.submission.did_document)),
            self.granted@,
        ) is Ok
    }

    /// What was submitted.
    pub closed spec fn submission(self) -> ResourceRegistrationSubmission {
        self.submission
    }

    /// The verification method with which an external controller agreed.
    pub closed spec fn verified_method(self) -> Option<Seq<char>> {
        text::opt_text(self.verified_method)
    }

    /// The domains that the registrar was granted.
    pub closed spec fn granted(self) -> Seq<Seq<char>> {
        self.granted@
    }

    /// The request that has to be sent to Root. It exists for submissions alone whose domains
    /// the registrar was granted, and whose controller, if another than the resource, agreed.
    pub fn request(&self, node: &NodeIdentity) -> (result: Result<Value, ApiError>)
        requires
            node.signer.signs(),
        ensures
            result is Ok,
            exists|id: Seq<char>, nonce: Seq<char>|
                {
                    &&& #[trigger] upstream::is_publish_request(
                        json::contents(result->Ok_0),
                        *node,
                        self.submission(),
                        id,
                        nonce,
                    )
                    &&& upstream::is_request_id(id, "resource-verify-and-publish"@)
                    &&& upstream::is_request_nonce(nonce, "resource-verify-and-publish"@)
                },
            in_form(self.submission()),
            domains::domain_verdict(
                documents::authorized_domains(json::contents(self.submission().did_document)),
                self.granted(),
            ) is Ok,
            submission::external_controller(self.submission()) is Some
                ==> self.verified_method() is Some,
    {
        proof {
            use_type_invariant(self);
        }
        upstream::build_resource_verify_and_publish_request(node, &self.submission)
    }

    /// The next state, once Root has answered, or the refusal that is passed on.
    pub fn answered(self, node: &NodeIdentity, reply: RootReply, now: &Instant) -> (result: Result<
        PublishedSubmission,
        ApiError,
    >)
        ensures
            match root_verdict(reply) {
                Err(refusal) => result is Err && result->Err_0@ == refusal,
                Ok(response) => {
                    &&& result is Ok
                    &&& result->Ok_0.submission() == self.submission()
                    &&& result->Ok_0.verified_method() == self.verified_method()
                    &&& result->Ok_0.root_response() == response
                    &&& result->Ok_0.did_document_hash() == crypto::json_hash(
                        node.signer.suite(),
                        json::contents(self.submission().did_document),
                    )
                    &&& result->Ok_0.credential() == credential::unsigned_credential(
                        node.did@,
                        self.submission(),
                        result->Ok_0.did_document_hash(),
                        time::timestamp_text(now@.seconds, now@.nanos),
                    )
                },
            },
    {
        proof {
            use_type_invariant(&self);
        }
        let (status, body) = match reply {
            RootReply::Unreachable(reason) => {
                return Err(ApiError::internal(reason.as_str()));
            },
            RootReply::Answered(status, body) => (status, body),
        };
        let root_response = match body {
            Some(held) => held,
            None => json::object(),
        };
        if status < 200 || status > 299 {
            let message = match json::get_text(&root_response, "error") {
                Some(message) => message,
                None => "root_resource_registration_failed".to_owned(),
            };
            return Err(ApiError { status, message });
        }
        let did_document_hash = match hash_json_with_suite(
            node.signer.crypto_suite(),
            &self.submission.did_document,
        ) {
            Ok(hash) => hash,
            Err(complaint) => {
                return Err(ApiError::internal(complaint.as_str()));
            },
        };
        let credential = issue_resource_registration_credential(
            node.did.as_str(),
            &self.submission,
            did_document_hash.as_str(),
            now.timestamp().as_str(),
        );
        Ok(
            PublishedSubmission {
                submission: self.submission,
                verified_method: self.verified_method,
                did_document_hash,
                root_response,
                credential,
            },
        )
    }
}

/// A submission that Root has published, with the credential for it, which has to be signed.
pub struct PublishedSubmission {
    submission: ResourceRegistrationSubmission,
    verified_method: Option<String>,
    did_document_hash: String,
    root_response: Value,
    credential: Value,
}

impl PublishedSubmission {
    #[verifier::type_invariant]
    spec fn well_formed(self) -> bool {
        &&& submission::external_controller(self.submission) is Some
            <==> self.verified_method is Some
        &&& json::contents(self.credential) is Object
    }

    /// What was submitted.
    pub closed spec fn submission(self) -> ResourceRegistrationSubmission {
        self.submission
    }

    /// The verification method with which an external controller agreed.
    pub closed spec fn verified_method(self) -> Option<Seq<char>> {
        text::opt_text(self.verified_method)
    }

    /// The hash of the resource's document.
    pub closed spec fn did_document_hash(self) -> Seq<char> {
        self.did_document_hash@
    }

    /// What Root answered.
    pub closed spec fn root_response(self) -> JsonModel {
        json::contents(self.root_response)
    }

    /// The members of the credential, which is not signed yet.
    pub closed spec fn credential(self) -> Map<Seq<char>, JsonModel> {
        json::contents(self.credential)->Object_0
    }

    /// The credential that has to be signed.
    pub fn credential_to_sign(&self) -> (credential: &Value)
        ensures
            json::contents(*credential) == JsonModel::Object(self.credential()),
    {
        proof {
            use_type_invariant(self);
        }
        &self.credential
    }

    /// The next state, once it is known what signing the credential came to: the proof, as
    /// JSON, or a complaint.
    pub fn signed(
        self,
        node: &NodeIdentity,
        purpose: &str,
        outcome: Result<Value, String>,
        now: &Instant,
    ) -> (result: Result<RegistrationRecord, ApiError>)
        ensures
            match outcome {
                Err(complaint) => result is Err && result->Err_0@ == error::internal(complaint@),
                Ok(proof) => {
                    let written = time::timestamp_text(now@.seconds, now@.nanos);
                    let base = base_record(
                        self.submission(),
                        self.did_document_hash(),
                        JsonModel::Object(
                            self.credential().insert("proof"@, json::contents(proof)),
                        ),
                        self.root_response(),
                        written,
                    );
                    match marked_record(
                        *node,
                        purpose@,
                        self.submission(),
                        self.verified_method(),
                        base,
                        written,
                    ) {
                        Err(refusal) => result is Err && result->Err_0@ == refusal,
                        Ok(record) => result is Ok && result->Ok_0.record() == record,
                    }
                },
            },
            result is Ok ==> {
                let credential = json::member_or_null(
                    result->Ok_0.record(),
                    "registrationCredential"@,
                );
                &&& outcome is Ok
                &&& json::field(credential, "proof"@) == Some(json::contents(outcome->Ok_0))
                &&& forall|key: Seq<char>|
                    key != "proof"@ ==> #[trigger] json::field(credential, key) == json::field(
                        JsonModel::Object(self.credential()),
                        key,
                    )
            },
            result is Ok && 0 <= now@.seconds <= time::LAST_FOUR_DIGIT_SECOND
                ==> time::submitted_day(time::timestamp_text(now@.seconds, now@.nanos)) == Some(
                time::day_of(now@),
            ),
    {
        proof {
            use_type_invariant(&self);
        }
        let proof = match outcome {
            Ok(proof) => proof,
            Err(complaint) => {
                return Err(ApiError::internal(complaint.as_str()));
            },
        };
        let submission = &self.submission;
        let written = now.timestamp();
        let mut credential = self.credential;
        json::set(&mut credential, "proof", proof);
        let mut record = registration_record(
            submission,
            self.did_document_hash.as_str(),
            credential,
            self.root_response,
            written.as_str(),
        );
        if let Some(method) = &self.verified_method {
            match controller_marker(node, purpose, submission, method.as_str(), written.as_str()) {
                Ok(marker) => {
                    json::set(&mut record, "registrationCredentialAccess", marker);
                },
                Err(error) => {
                    return Err(error);
                },
            }
        }
        proof {
            record_keys_differ();
        }
        Ok(RegistrationRecord { record })
    }
}

/// The record of a registration, before it is marked for its controller.
pub fn registration_record(
    submission: &ResourceRegistrationSubmission,
    did_document_hash: &str,
    credential: Value,
    root_response: Value,
    submitted_at: &str,
) -> (record: Value)
    ensures
        json::contents(record) == JsonModel::Object(
            base_record(
                *submission,
                did_document_hash@,
                json::contents(credential),
                json::contents(root_response),
                submitted_at@,
            ),
        ),
{
    let domains = documents::document_domains(&submission.did_document);
    let mut record = json::object();
    json::set(&mut record, "resourceDid", json::text(submission.resource_did.as_str()));
    json::set(&mut record, "resourceType", json::text(submission.resource_type.as_str()));
    json::set(&mut record, "packageVersion", json::text(submission.package_version.as_str()));
    json::set(&mut record, "didDocumentHash", json::text(did_document_hash));
    json::set(&mut record, "metadataHash", json::text(submission.metadata_hash.as_str()));
    json::set(&mut record, "packageHash", json::text(submission.package_hash.as_str()));
    json::set(&mut record, "authorizedDomains", json::array_of_texts(&domains));
    json::set(&mut record, "registrationCredential", credential);
    json::set(&mut record, "rootResponse", root_response);
    json::set(&mut record, "submittedAt", json::text(submitted_at));
    record
}

/// What a record says of the external controller that was verified.
fn controller_marker(
    node: &NodeIdentity,
    purpose: &str,
    submission: &ResourceRegistrationSubmission,
    method: &str,
    verified_at: &str,
) -> (result: Result<Value, ApiError>)
    requires
        submission::external_controller(*submission) is Some,
    ensures
        match controller_method(*submission, method@) {
            None => result is Err && result->Err_0@ == error::bad_request(
                "controller_authorization_method_missing"@,
            ),
            Some(held) => {
                let controller = submission::external_controller(*submission)->0;
                &&& result is Ok
                &&& json::contents(result->Ok_0) == access::new_marker(
                    controller,
                    method@,
                    crypto::json_hash(node.signer.suite(), held),
                    binding_hash(
                        node.signer.suite(),
                        node.did@,
                        purpose@,
                        *submission,
                        controller,
                        method@,
                    ),
                    verified_at@,
                )
            },
        },
{
    let suite = node.signer.crypto_suite();
    let controller = match submission.controller() {
        Some(controller) => controller,
        None => String::new(),
    };
    let document = match &submission.controller_authorization_proof {
        Some(proof) => json::member(proof, "controllerDidDocument"),
        None => {
            return Err(ApiError::bad_request("controller_authorization_method_missing"));
        },
    };
    let method_hash = match controller_method_hash(suite, &document, method) {
        Ok(hash) => hash,
        Err(_) => {
            return Err(ApiError::bad_request("controller_authorization_method_missing"));
        },
    };
    let mut binding = json::object();
    json::set(&mut binding, "resourceDid", json::text(submission.resource_did.as_str()));
    json::set(&mut binding, "controllerDid", json::text(controller.as_str()));
    json::set(&mut binding, "verificationMethod", json::text(method));
    json::set(&mut binding, "didDocumentHash", json::text(submission.did_document_hash.as_str()));
    json::set(&mut binding, "metadataHash", json::text(submission.metadata_hash.as_str()));
    json::set(&mut binding, "registrarDid", json::text(node.did.as_str()));
    json::set(&mut binding, "purpose", json::text(purpose));
    match hash_json_with_suite(suite, &binding) {
        Err(complaint) => Err(ApiError::internal(complaint.as_str())),
        Ok(binding_hash) => Ok(
            build_access_marker(
                controller.as_str(),
                method,
                method_hash.as_str(),
                binding_hash.as_str(),
                verified_at,
            ),
        ),
    }
}

/// The record of a registration, which has to be written.
pub struct RegistrationRecord {
    record: Value,
}

impl RegistrationRecord {
    /// What has to be written.
    pub closed spec fn record(self) -> JsonModel {
        json::contents(self.record)
    }

    /// What has to be written.
    pub fn record_to_write(&self) -> (record: &Value)
        ensures
            json::contents(*record) == self.record(),
    {
        &self.record
    }

    /// The answer to the submission, once it is known what writing the record came to.
    pub fn written(self, outcome: Result<(), ApiError>) -> (result: Result<Value, ApiError>)
        ensures
            match outcome {
                Ok(()) => result is Ok && json::contents(result->Ok_0) == submitted_body(
                    self.record(),
                ),
                Err(error) => result is Err && result->Err_0@ == error@,
            },
    {
        match outcome {
            Err(error) => Err(error),
            Ok(()) => {
                let record = &self.record;
                let mut body = json::object();
                json::set(&mut body, "status", json::text("submitted"));
                json::set(&mut body, "resourceDid", json::member(record, "resourceDid"));
                json::set(&mut body, "resourceType", json::member(record, "resourceType"));
                json::set(
                    &mut body,
                    "registrationCredential",
                    json::member(record, "registrationCredential"),
                );
                json::set(&mut body, "rootResponse", json::member(record, "rootResponse"));
                Ok(body)
            },
        }
    }
}

/// A node whose view says that it is inactive or revoked, or is stale, takes no submission in,
/// whatever it holds. An active node looks at the submission alone.
pub proof fn law_only_active_registrars_register(
    view: GovernanceView,
    submission: ResourceRegistrationSubmission,
)
    ensures
        !(view is Active) ==> intake_verdict(view, submission) is Err,
        view is Active && in_form(submission) ==> intake_verdict(view, submission)
            == controller_verdict(submission),
{
}

/// The proof of a controller clears one submission: submitted again while its nonce is
/// remembered, it is refused as a replay, though it is verified once more. It rests on a store
/// of nonces that held what it took when the submission was cleared, dropped nothing before its
/// time, and complains of what it remembers.
pub proof fn law_controller_proofs_are_used_once(
    view: GovernanceView,
    submission: ResourceRegistrationSubmission,
    method: Seq<char>,
    first: time::Moment,
    outcome: Result<(), Seq<char>>,
    stored: Map<Seq<char>, time::Moment>,
    second: time::Moment,
    again: Result<(), Seq<char>>,
    held: Map<Seq<char>, time::Moment>,
)
    requires
        has_controller_proof(submission),
        clearing_verdict(view, submission, Ok(method), outcome) is Ok,
        nonces::holds_what_it_took(
            stored,
            submission::proof_nonce(
                json::contents(submission.controller_authorization_proof->0),
            ),
            first,
            outcome,
        ),
        !time::later(
            second,
            time::plus(first, CONTROLLER_AUTHORIZATION_NONCE_TTL_SECONDS as int),
        ),
        nonces::keeps_what_it_holds(
            stored,
            held,
            second,
            CONTROLLER_AUTHORIZATION_NONCE_TTL_SECONDS as int,
        ),
        nonces::refuses_what_it_remembers(
            held,
            submission::proof_nonce(
                json::contents(submission.controller_authorization_proof->0),
            ),
            second,
            CONTROLLER_AUTHORIZATION_NONCE_TTL_SECONDS as int,
            again,
        ),
    ensures
        clearing_verdict(view, submission, Ok(method), again) == Err::<
            Option<Seq<char>>,
            error::Refusal,
        >(error::bad_request("controller_authorization_nonce_replayed"@)),
{
    let nonce = submission::proof_nonce(
        json::contents(submission.controller_authorization_proof->0),
    );
    let ttl = CONTROLLER_AUTHORIZATION_NONCE_TTL_SECONDS as int;
    assert(nonces::remembers(stored, nonce, second, ttl));
    assert(nonces::remembers(held, nonce, second, ttl));
}

/// The keys of a record are all different.
proof fn record_keys_differ()
    ensures
        "resourceDid"@.len() == 11 && "resourceDid"@[0] == 'r',
        "resourceType"@.len() == 12 && "resourceType"@[0] == 'r' && "resourceType"@[1] == 'e',
        "packageVersion"@.len() == 14,
        "didDocumentHash"@.len() == 15,
        "metadataHash"@.len() == 12 && "metadataHash"@[0] == 'm',
        "packageHash"@.len() == 11 && "packageHash"@[0] == 'p',
        "authorizedDomains"@.len() == 17,
        "registrationCredential"@.len() == 22,
        "rootResponse"@.len() == 12 && "rootResponse"@[0] == 'r' && "rootResponse"@[1] == 'o',
        "submittedAt"@.len() == 11 && "submittedAt"@[0] == 's',
        "registrationCredentialAccess"@.len() == 28,
        "status"@.len() == 6,
{
    reveal_strlit("resourceDid");
    reveal_strlit("resourceType");
    reveal_strlit("packageVersion");
    reveal_strlit("didDocumentHash");
    reveal_strlit("metadataHash");
    reveal_strlit("packageHash");
    reveal_strlit("authorizedDomains");
    reveal_strlit("registrationCredential");
    reveal_strlit("rootResponse");
    reveal_strlit("submittedAt");
    reveal_strlit("registrationCredentialAccess");
    reveal_strlit("status");
}

/// A record says what was registered, with which credential and answer of Root, and when.
pub proof fn law_records_say_what_was_registered(
    node: NodeIdentity,
    purpose: Seq<char>,
    submission: ResourceRegistrationSubmission,
    verified_method: Option<Seq<char>>,
    did_document_hash: Seq<char>,
    credential: JsonModel,
    root_response: JsonModel,
    submitted_at: Seq<char>,
)
    ensures
        ({
            let base = base_record(
                submission,
                did_document_hash,
                credential,
                root_response,
                submitted_at,
            );
            let answer = marked_record(
                node,
                purpose,
                submission,
                verified_method,
                base,
                submitted_at,
            );
            answer is Ok ==> {
                let record = answer->Ok_0;
                &&& json::text_field(record, "resourceDid"@) == Some(submission.resource_did@)
                &&& json::text_field(record, "resourceType"@) == Some(submission.resource_type@)
                &&& json::text_field(record, "packageVersion"@) == Some(
                    submission.package_version@,
                )
                &&& json::text_field(record, "didDocumentHash"@) == Some(did_document_hash)
                &&& json::text_field(record, "metadataHash"@) == Some(submission.metadata_hash@)
                &&& json::text_field(record, "packageHash"@) == Some(submission.package_hash@)
                &&& json::field(record, "authorizedDomains"@) == Some(
                    json::text_array(
                        documents::authorized_domains(json::contents(submission.did_document)),
                    ),
                )
                &&& json::field(record, "registrationCredential"@) == Some(credential)
                &&& json::field(record, "rootResponse"@) == Some(root_response)
                &&& json::text_field(record, "submittedAt"@) == Some(submitted_at)
            }
        }),
{
    record_keys_differ();
}

/// The answer to a registration repeats what the record says.
pub proof fn law_answers_repeat_the_record(record: JsonModel)
    requires
        json::field(record, "resourceDid"@) is Some,
        json::field(record, "resourceType"@) is Some,
        json::field(record, "registrationCredential"@) is Some,
        json::field(record, "rootResponse"@) is Some,
    ensures
        json::text_field(submitted_body(record), "status"@) == Some("submitted"@),
        json::field(submitted_body(record), "resourceDid"@) == json::field(record, "resourceDid"@),
        json::field(submitted_body(record), "resourceType"@) == json::field(
            record,
            "resourceType"@,
        ),
        json::field(submitted_body(record), "registrationCredential"@) == json::field(
            record,
            "registrationCredential"@,
        ),
        json::field(submitted_body(record), "rootResponse"@) == json::field(
            record,
            "rootResponse"@,
        ),
{
    record_keys_differ();
}

/// What a registration writes, a query of the controller that agreed to it reads: bound,
/// timely and signed with the verification method of the proof, it is in order.
pub proof fn law_controllers_of_registrations_are_answered(
    node: NodeIdentity,
    purpose: Seq<char>,
    submission: ResourceRegistrationSubmission,
    method: Seq<char>,
    base: Map<Seq<char>, JsonModel>,
    verified_at: Seq<char>,
    terms: access::QueryTerms,
    request: access::RegistrationCredentialQueryRequest,
    now: time::Moment,
)
    requires
        submission::external_controller(submission) is Some,
        controller_method(submission, method) is Some,
        terms.suite == node.signer.suite(),
        json::text_field(json::contents(request.challenge), "controllerDid"@)
            == submission::external_controller(submission),
        json::text_field(json::contents(request.challenge), "verificationMethod"@) == Some(method),
        access::is_bound(terms, submission.resource_did@, json::contents(request.challenge)),
        access::is_timely(json::contents(request.challenge), now),
        json::text_field(json::contents(request.controller_did_document), "id"@)
            == submission::external_controller(submission),
        documents::acting_method(json::contents(request.controller_did_document), method)
            == controller_method(submission, method),
        crypto::holds_key(controller_method(submission, method)->0),
        crypto::signature_holds(
            json::contents(request.challenge),
            json::contents(request.proof),
            controller_method(submission, method)->0,
        ),
    ensures
        ({
            let answer = marked_record(
                node,
                purpose,
                submission,
                Some(method),
                base,
                verified_at,
            );
            &&& answer is Ok
            &&& access::query_verdict(
                terms,
                submission.resource_did@,
                answer->Ok_0,
                request,
                now,
            ) is Ok
        }),
{
    let controller = submission::external_controller(submission)->0;
    let held = controller_method(submission, method)->0;
    let record = marked_record(
        node,
        purpose,
        submission,
        Some(method),
        base,
        verified_at,
    )->Ok_0;
    access::law_verified_controllers_are_answered(
        terms,
        submission.resource_did@,
        record,
        request,
        now,
        controller,
        method,
        held,
        binding_hash(node.signer.suite(), node.did@, purpose, submission, controller, method),
        verified_at,
    );
}

/// Nobody reads the credential of a registration whose resource is its own controller, or has
/// none.
pub proof fn law_registrations_without_controller_answer_nobody(
    node: NodeIdentity,
    purpose: Seq<char>,
    submission: ResourceRegistrationSubmission,
    did_document_hash: Seq<char>,
    credential: JsonModel,
    root_response: JsonModel,
    submitted_at: Seq<char>,
    terms: access::QueryTerms,
    resource_did: Seq<char>,
    request: access::RegistrationCredentialQueryRequest,
    now: time::Moment,
)
    ensures
        ({
            let base = base_record(
                submission,
                did_document_hash,
                credential,
                root_response,
                submitted_at,
            );
            let answer = marked_record(node, purpose, submission, None, base, submitted_at);
            &&& answer is Ok
            &&& access::query_verdict(terms, resource_did, answer->Ok_0, request, now) is Err
        }),
{
    record_keys_differ();
    let base = base_record(submission, did_document_hash, credential, root_response, submitted_at);
    access::law_unmarked_records_answer_nobody(
        terms,
        resource_did,
        JsonModel::Object(base),
        request,
        now,
    );
}

/// A registration of today is counted today: the record says when it was submitted, in the
/// form that the counts read.
pub proof fn law_registrations_are_counted_on_their_day(
    node: NodeIdentity,
    purpose: Seq<char>,
    submission: ResourceRegistrationSubmission,
    verified_method: Option<Seq<char>>,
    did_document_hash: Seq<char>,
    credential: JsonModel,
    root_response: JsonModel,
    submitted_at: Seq<char>,
    day: int,
)
    requires
        time::submitted_day(submitted_at) == Some(day),
    ensures
        ({
            let base = base_record(
                submission,
                did_document_hash,
                credential,
                root_response,
                submitted_at,
            );
            let answer = marked_record(
                node,
                purpose,
                submission,
                verified_method,
                base,
                submitted_at,
            );
            answer is Ok ==> stats::submitted_on(answer->Ok_0, day) && stats::is_type(
                answer->Ok_0,
                submission.resource_type@,
            )
        }),
{
    record_keys_differ();
}

/// The keys of an answer to a registration are all different.
proof fn answer_keys_differ()
    ensures
        "status"@.len() == 6,
        "resourceDid"@.len() == 11,
        "resourceType"@.len() == 12 && "resourceType"@[1] == 'e',
        "registrationCredential"@.len() == 22,
        "rootResponse"@.len() == 12 && "rootResponse"@[1] == 'o',
{
    reveal_strlit("status");
    reveal_strlit("resourceDid");
    reveal_strlit("resourceType");
    reveal_strlit("registrationCredential");
    reveal_strlit("rootResponse");
}

/// A resource that is its own controller, or has none, waits for nobody. One with another
/// controller waits for the controller's proof, and is refused if it brought none.
pub proof fn law_controllers_have_to_agree(submission: ResourceRegistrationSubmission)
    ensures
        submission::external_controller(submission) is None ==> controller_verdict(submission)
            == Ok::<bool, error::Refusal>(false),
        submission::external_controller(submission) is Some
            && submission.controller_authorization_proof is Some ==> controller_verdict(submission)
            == Ok::<bool, error::Refusal>(true),
        submission::external_controller(submission) is Some
            && submission.controller_authorization_proof is None ==> controller_verdict(submission)
            == Err::<bool, error::Refusal>(
            error::Refusal { status: 400, message: "controller_authorization_proof_required"@ },
        ),
{
}

/// A submission that an active node refuses at once is told what is wrong with its form before
/// anything else. An idle node looks at no form.
pub proof fn law_forms_are_checked_first(
    view: GovernanceView,
    submission: ResourceRegistrationSubmission,
    complaint: Seq<char>,
)
    ensures
        view is Active && submission::shape_verdict(submission::root_submission(submission))
            == Err::<(), Seq<char>>(complaint) ==> intake_verdict(view, submission) == Err::<
            bool,
            error::Refusal,
        >(error::Refusal { status: 400, message: complaint }),
        intake_verdict(view, submission) is Ok ==> view is Active && submission::shape_verdict(
            submission::root_submission(submission),
        ) is Ok,
        view is Inactive ==> intake_verdict(view, submission) == Err::<bool, error::Refusal>(
            error::Refusal { status: 403, message: "registrar_inactive"@ },
        ),
        view is Revoked ==> intake_verdict(view, submission) == Err::<bool, error::Refusal>(
            error::Refusal { status: 403, message: "registrar_revoked"@ },
        ),
        view is Stale ==> intake_verdict(view, submission) == Err::<bool, error::Refusal>(
            error::Refusal { status: 403, message: "registrar_governance_view_stale"@ },
        ),
{
}

/// A submission with another controller is cleared if and only if it was taken in, the proof was
/// verified and its nonce was stored, and then with the method that the proof was made with.
pub proof fn law_cleared_controllers_were_verified(
    view: GovernanceView,
    submission: ResourceRegistrationSubmission,
    verified: Result<Seq<char>, Seq<char>>,
    stored: Result<(), Seq<char>>,
)
    requires
        submission::external_controller(submission) is Some,
    ensures
        clearing_verdict(view, submission, verified, stored) is Ok <==> (intake_verdict(
            view,
            submission,
        ) is Ok && verified is Ok && stored is Ok),
        clearing_verdict(view, submission, verified, stored) is Ok ==> clearing_verdict(
            view,
            submission,
            verified,
            stored,
        )->Ok_0 == Some(verified->Ok_0),
        intake_verdict(view, submission) is Ok && verified is Err ==> clearing_verdict(
            view,
            submission,
            verified,
            stored,
        ) == Err::<Option<Seq<char>>, error::Refusal>(
            error::Refusal { status: 400, message: verified->Err_0 },
        ),
{
}

/// A submission without another controller is cleared as soon as it was taken in, with no method.
pub proof fn law_others_are_cleared_at_once(
    view: GovernanceView,
    submission: ResourceRegistrationSubmission,
    verified: Result<Seq<char>, Seq<char>>,
    stored: Result<(), Seq<char>>,
)
    requires
        submission::external_controller(submission) is None,
        intake_verdict(view, submission) is Ok,
    ensures
        clearing_verdict(view, submission, verified, stored) == Ok::<
            Option<Seq<char>>,
            error::Refusal,
        >(None),
{
}

/// A nonce that was used before is called replayed; any other complaint is passed on. Either way
/// the request was a bad one.
pub proof fn law_replayed_proofs_are_told_from_other_complaints(complaint: Seq<char>)
    ensures
        controller_nonce_refusal("trusted_upstream_nonce_replayed"@) == (error::Refusal {
            status: 400,
            message: "controller_authorization_nonce_replayed"@,
        }),
        complaint != "trusted_upstream_nonce_replayed"@ ==> controller_nonce_refusal(complaint) == (
        error::Refusal { status: 400, message: complaint }),
{
}

/// The clock of a controller may be off by a minute, and its nonces are remembered for five.
pub proof fn law_controllers_have_a_minute()
    ensures
        CONTROLLER_AUTHORIZATION_MAX_CLOCK_SKEW_SECONDS == 60,
        CONTROLLER_AUTHORIZATION_NONCE_TTL_SECONDS == 300,
{
}

/// A resource is registered with the domains of its own document. Each of them goes on from one
/// that the registrar's document grants, unless that grants all, and where the metadata lists
/// domains, they are the same, in the same order.
pub proof fn law_admitted_domains_are_granted(
    registrar_document: JsonModel,
    submission: ResourceRegistrationSubmission,
)
    requires
        admission_verdict(registrar_document, submission) is Ok,
    ensures
        ({
            let names = admission_verdict(registrar_document, submission)->Ok_0;
            let granted = documents::authorized_domains(registrar_document);
            let listed = json::array_field(
                json::contents(submission.metadata),
                "authorizedDomains"@,
            );
            &&& names == documents::authorized_domains(json::contents(submission.did_document))
            &&& names.len() > 0
            &&& granted.contains("*"@) || forall|i: int|
                0 <= i < names.len() ==> domains::goes_on_from_some(#[trigger] names[i], granted)
            &&& listed is Some ==> listed->0.len() == names.len() && forall|i: int|
                0 <= i < names.len() ==> #[trigger] listed->0[i] == JsonModel::Text(names[i])
        }),
{
    let names = admission_verdict(registrar_document, submission)->Ok_0;
    let granted = documents::authorized_domains(registrar_document);
    if !granted.contains("*"@) {
        domains::law_lists_cover_name_by_name(granted, names);
    }
    let listed = json::array_field(json::contents(submission.metadata), "authorizedDomains"@);
    if listed is Some {
        json::law_texts_are_read_in_order(listed->0);
    }
}

/// A submission whose metadata lists other domains than its document, or anything but texts, is
/// refused, whatever the registrar was granted.
pub proof fn law_metadata_and_document_agree(
    registrar_document: JsonModel,
    submission: ResourceRegistrationSubmission,
    items: Seq<JsonModel>,
    i: int,
)
    requires
        json::field(json::contents(submission.metadata), "authorizedDomains"@) == Some(
            JsonModel::Array(items),
        ),
    ensures
        0 <= i < items.len() && !(items[i] is Text) ==> admission_verdict(
            registrar_document,
            submission,
        ) == Err::<Seq<Seq<char>>, error::Refusal>(
            error::Refusal { status: 400, message: "invalid_authorized_domains"@ },
        ),
        json::all_texts(items) && json::texts_among(items) != documents::authorized_domains(
            json::contents(submission.did_document),
        ) ==> admission_verdict(registrar_document, submission) == Err::<
            Seq<Seq<char>>,
            error::Refusal,
        >(error::Refusal { status: 400, message: "authorized_domains_mismatch"@ }),
{
}

/// A submission whose metadata lists no domains is admitted or refused by the domains of its
/// document alone.
pub proof fn law_other_metadata_does_not_matter(
    registrar_document: JsonModel,
    submission: ResourceRegistrationSubmission,
)
    requires
        !(json::member_or_null(
            json::contents(submission.metadata),
            "authorizedDomains"@,
        ) is Array),
    ensures
        ({
            let names = documents::authorized_domains(json::contents(submission.did_document));
            match domains::domain_verdict(
                names,
                documents::authorized_domains(registrar_document),
            ) {
                Ok(()) => admission_verdict(registrar_document, submission) == Ok::<
                    Seq<Seq<char>>,
                    error::Refusal,
                >(names),
                Err(complaint) => admission_verdict(registrar_document, submission) == Err::<
                    Seq<Seq<char>>,
                    error::Refusal,
                >(error::Refusal { status: 400, message: complaint }),
            }
        }),
{
}

/// Root's success is passed on as it came, and nothing else counts as success.
pub proof fn law_only_roots_success_is_success(reply: RootReply, status: u16, body: Value)
    ensures
        reply == RootReply::Answered(status, Some(body)) && 200 <= status <= 299 ==> root_verdict(
            reply,
        ) == Ok::<JsonModel, error::Refusal>(json::contents(body)),
        reply == RootReply::Answered(status, None) && 200 <= status <= 299 ==> root_verdict(reply)
            == Ok::<JsonModel, error::Refusal>(JsonModel::Object(Map::empty())),
        reply == RootReply::Answered(status, Some(body)) && (status < 200 || status > 299)
            ==> root_verdict(reply) is Err,
        reply is Unreachable ==> root_verdict(reply) is Err,
{
}

/// What Root refuses is refused with Root's own status, and in Root's own words where it says
/// any. That Root cannot be reached is the node's own fault.
pub proof fn law_roots_refusals_are_passed_on(
    status: u16,
    body: Value,
    message: Seq<char>,
    reason: String,
)
    requires
        status < 200 || status > 299,
    ensures
        json::field(json::contents(body), "error"@) == Some(JsonModel::Text(message))
            ==> root_verdict(RootReply::Answered(status, Some(body))) == Err::<
            JsonModel,
            error::Refusal,
        >(error::Refusal { status: status as int, message }),
        json::text_field(json::contents(body), "error"@) is None ==> root_verdict(
            RootReply::Answered(status, Some(body)),
        ) == Err::<JsonModel, error::Refusal>(
            error::Refusal {
                status: status as int,
                message: "root_resource_registration_failed"@,
            },
        ),
        root_verdict(RootReply::Answered(status, None)) == Err::<JsonModel, error::Refusal>(
            error::Refusal {
                status: status as int,
                message: "root_resource_registration_failed"@,
            },
        ),
        root_verdict(RootReply::Unreachable(reason)) == Err::<JsonModel, error::Refusal>(
            error::Refusal { status: 500, message: reason@ },
        ),
{
}

/// A record holds these members and no others, and is marked if and only if a controller was
/// verified.
pub proof fn law_records_hold_nothing_else(
    node: NodeIdentity,
    purpose: Seq<char>,
    submission: ResourceRegistrationSubmission,
    verified_method: Option<Seq<char>>,
    did_document_hash: Seq<char>,
    credential: JsonModel,
    root_response: JsonModel,
    submitted_at: Seq<char>,
)
    ensures
        ({
            let base = base_record(
                submission,
                did_document_hash,
                credential,
                root_response,
                submitted_at,
            );
            let answer = marked_record(
                node,
                purpose,
                submission,
                verified_method,
                base,
                submitted_at,
            );
            let members = set![
                "resourceDid"@, "resourceType"@, "packageVersion"@, "didDocumentHash"@,
                "metadataHash"@, "packageHash"@, "authorizedDomains"@, "registrationCredential"@,
                "rootResponse"@, "submittedAt"@,
            ];
            answer is Ok ==> answer->Ok_0->Object_0.dom() =~= (if verified_method is Some {
                members.insert("registrationCredentialAccess"@)
            } else {
                members
            })
        }),
{
    record_keys_differ();
}

/// Where a controller was verified, the record says which, with which method and with what hash
/// of it as it stands in the document that came with the proof, and by what binding.
pub proof fn law_records_say_who_was_verified(
    node: NodeIdentity,
    purpose: Seq<char>,
    submission: ResourceRegistrationSubmission,
    proof: Value,
    method: Seq<char>,
    held: JsonModel,
    base: Map<Seq<char>, JsonModel>,
    verified_at: Seq<char>,
    controller: Seq<char>,
)
    requires
        submission::external_controller(submission) == Some(controller),
        submission.controller_authorization_proof == Some(proof),
        documents::method_of(
            json::member_or_null(json::contents(proof), "controllerDidDocument"@),
            method,
        ) == Some(held),
    ensures
        ({
            let answer = marked_record(
                node,
                purpose,
                submission,
                Some(method),
                base,
                verified_at,
            );
            &&& answer is Ok
            &&& json::field(answer->Ok_0, "registrationCredentialAccess"@) == Some(
                access::new_marker(
                    controller,
                    method,
                    crypto::json_hash(node.signer.suite(), held),
                    crypto::json_hash(
                        node.signer.suite(),
                        access::authority_binding(
                            submission.resource_did@,
                            controller,
                            method,
                            submission.did_document_hash@,
                            submission.metadata_hash@,
                            node.did@,
                            purpose,
                        ),
                    ),
                    verified_at,
                ),
            )
            &&& forall|key: Seq<char>|
                key != "registrationCredentialAccess"@ ==> #[trigger] json::field(answer->Ok_0, key)
                    == json::field(JsonModel::Object(base), key)
        }),
{
}

/// A verified method that is not in the document which came with the proof leads to no record.
pub proof fn law_records_need_the_verified_method(
    node: NodeIdentity,
    purpose: Seq<char>,
    submission: ResourceRegistrationSubmission,
    proof: Value,
    method: Seq<char>,
    base: Map<Seq<char>, JsonModel>,
    verified_at: Seq<char>,
)
    requires
        submission.controller_authorization_proof == Some(proof),
        documents::method_of(
            json::member_or_null(json::contents(proof), "controllerDidDocument"@),
            method,
        ) is None,
    ensures
        marked_record(node, purpose, submission, Some(method), base, verified_at) == Err::<
            JsonModel,
            error::Refusal,
        >(error::Refusal { status: 400, message: "controller_authorization_method_missing"@ }),
        marked_record(node, purpose, submission, None, base, verified_at) == Ok::<
            JsonModel,
            error::Refusal,
        >(JsonModel::Object(base)),
{
}

/// The answer to a registration says five things and no more. What the record lacks is null.
pub proof fn law_answers_say_nothing_else(record: JsonModel)
    ensures
        submitted_body(record)->Object_0.dom() =~= set![
            "status"@, "resourceDid"@, "resourceType"@, "registrationCredential"@, "rootResponse"@,
        ],
        json::text_field(submitted_body(record), "status"@) == Some("submitted"@),
        json::member_or_null(submitted_body(record), "resourceDid"@) == json::member_or_null(
            record,
            "resourceDid"@,
        ),
        json::member_or_null(submitted_body(record), "resourceType"@) == json::member_or_null(
            record,
            "resourceType"@,
        ),
        json::member_or_null(submitted_body(record), "registrationCredential"@)
            == json::member_or_null(record, "registrationCredential"@),
        json::member_or_null(submitted_body(record), "rootResponse"@) == json::member_or_null(
            record,
            "rootResponse"@,
        ),
{
    answer_keys_differ();
}

/// Whatever a submission is refused for first is what it is told: what is wrong with it as it was
/// taken in, then with the proof, then with the nonce.
pub proof fn law_the_first_refusal_is_told(
    view: GovernanceView,
    submission: ResourceRegistrationSubmission,
    verified: Result<Seq<char>, Seq<char>>,
    stored: Result<(), Seq<char>>,
)
    ensures
        intake_verdict(view, submission) is Err ==> clearing_verdict(
            view,
            submission,
            verified,
            stored,
        ) == Err::<Option<Seq<char>>, error::Refusal>(intake_verdict(view, submission)->Err_0),
        intake_verdict(view, submission) is Ok && submission::external_controller(submission) is Some
            && verified is Ok && stored is Err ==> clearing_verdict(
            view,
            submission,
            verified,
            stored,
        ) == Err::<Option<Seq<char>>, error::Refusal>(controller_nonce_refusal(stored->Err_0)),
{
}

/// A submission whose metadata lists the very domains of its document is admitted or refused by
/// these alone.
pub proof fn law_metadata_may_repeat_the_document(
    registrar_document: JsonModel,
    submission: ResourceRegistrationSubmission,
)
    requires
        json::field(json::contents(submission.metadata), "authorizedDomains"@) == Some(
            json::text_array(
                documents::authorized_domains(json::contents(submission.did_document)),
            ),
        ),
    ensures
        ({
            let names = documents::authorized_domains(json::contents(submission.did_document));
            match domains::domain_verdict(
                names,
                documents::authorized_domains(registrar_document),
            ) {
                Ok(()) => admission_verdict(registrar_document, submission) == Ok::<
                    Seq<Seq<char>>,
                    error::Refusal,
                >(names),
                Err(complaint) => admission_verdict(registrar_document, submission) == Err::<
                    Seq<Seq<char>>,
                    error::Refusal,
                >(error::Refusal { status: 400, message: complaint }),
            }
        }),
{
    let names = documents::authorized_domains(json::contents(submission.did_document));
    json::law_text_arrays_hold_their_texts(names);
    let items = json::text_array(names)->Array_0;
    assert(json::all_texts(items));
}

} // verus!
