//! What is submitted to register a resource.

use crate::documents;
use crate::error;
use crate::json::{self, JsonModel};
use crate::text;
use serde_json::Value;
use vstd::prelude::*;

verus! {

/// A resource to be registered.
#[derive(Debug)]
pub struct ResourceRegistrationSubmission {
    pub resource_did: String,
    pub resource_type: String,
    pub did_document: Value,
    pub did_document_hash: String,
    pub metadata: Value,
    pub package_version: String,
    pub package_hash: String,
    pub metadata_hash: String,
    pub hash_algorithm: String,
    pub registration_credential: Value,
    pub subject_control_proof: Value,
    /// The proof that the controller of the resource agrees to the registration: the challenge
    /// that the controller signed, the controller's document and the signature.
    pub controller_authorization_proof: Option<Value>,
}

/// A submission as it is passed on to Root: all of it but the credential that it came with.
pub open spec fn root_submission(submission: ResourceRegistrationSubmission) -> JsonModel {
    let fields = Map::empty().insert("resourceDid"@, JsonModel::Text(submission.resource_did@)).insert(
        "resourceType"@,
        JsonModel::Text(submission.resource_type@),
    ).insert("didDocument"@, json::contents(submission.did_document)).insert(
        "didDocumentHash"@,
        JsonModel::Text(submission.did_document_hash@),
    ).insert("metadata"@, json::contents(submission.metadata)).insert(
        "packageVersion"@,
        JsonModel::Text(submission.package_version@),
    ).insert("packageHash"@, JsonModel::Text(submission.package_hash@)).insert(
        "metadataHash"@,
        JsonModel::Text(submission.metadata_hash@),
    ).insert("hashAlgorithm"@, JsonModel::Text(submission.hash_algorithm@)).insert(
        "subjectControlProof"@,
        json::contents(submission.subject_control_proof),
    );
    JsonModel::Object(
        match submission.controller_authorization_proof {
            Some(proof) => fields.insert(
                "controllerAuthorizationProof"@,
                json::contents(proof),
            ),
            None => fields,
        },
    )
}

/// Whether a submission, as JSON, is in the form that the protocol asks for; if it is not,
/// what is wrong with it.
pub uninterp spec fn shape_verdict(submission: JsonModel) -> Result<(), Seq<char>>;

/// `ResourceRegistrationSubmission::validate_shape` of `oan_protocol`, named by `shape_verdict`.
/// A value that is no submission is refused with the complaint of the parser.
#[verifier::external_body]
fn validate_shape(submission: &Value) -> (result: Result<(), String>)
    ensures
        error::complaint(result) == shape_verdict(json::contents(*submission)),
{
    serde_json::from_value(submission.clone()).map_err(|error| error.to_string()).and_then(
        |submission: oan_protocol::ResourceRegistrationSubmission| submission.validate_shape(),
    )
}

/// The DID of the controller of the resource, if that is not the resource itself.
pub open spec fn external_controller(submission: ResourceRegistrationSubmission) -> Option<
    Seq<char>,
> {
    match documents::controller_did(json::contents(submission.did_document)) {
        Some(did) => if did == submission.resource_did@ {
            None
        } else {
            Some(did)
        },
        None => None,
    }
}

/// The nonce of the challenge that a controller's proof signs.
pub open spec fn proof_nonce(proof: JsonModel) -> Seq<char> {
    match json::text_field(json::member_or_null(proof, "challenge"@), "nonce"@) {
        Some(nonce) => nonce,
        None => Seq::empty(),
    }
}

/// The document of the controller in a controller's proof.
pub open spec fn proof_document(proof: JsonModel) -> JsonModel {
    json::member_or_null(proof, "controllerDidDocument"@)
}

/// The nonce of the challenge that a controller's proof signs.
pub fn read_proof_nonce(proof: &Value) -> (nonce: String)
    ensures
        nonce@ == proof_nonce(json::contents(*proof)),
{
    match json::get_text(&json::member(proof, "challenge"), "nonce") {
        Some(nonce) => nonce,
        None => String::new(),
    }
}

/// The state of the resource's life that its metadata names.
pub open spec fn lifecycle_state(submission: ResourceRegistrationSubmission) -> Seq<char> {
    match json::text_field(json::contents(submission.metadata), "lifecycleState"@) {
        Some(state) => state,
        None => "active"@,
    }
}

impl ResourceRegistrationSubmission {
    /// The submission as it is passed on to Root.
    pub fn for_root(&self) -> (value: Value)
        ensures
            json::contents(value) == root_submission(*self),
    {
        let mut value = json::object();
        json::set(&mut value, "resourceDid", json::text(self.resource_did.as_str()));
        json::set(&mut value, "resourceType", json::text(self.resource_type.as_str()));
        json::set(&mut value, "didDocument", self.did_document.clone());
        json::set(&mut value, "didDocumentHash", json::text(self.did_document_hash.as_str()));
        json::set(&mut value, "metadata", self.metadata.clone());
        json::set(&mut value, "packageVersion", json::text(self.package_version.as_str()));
        json::set(&mut value, "packageHash", json::text(self.package_hash.as_str()));
        json::set(&mut value, "metadataHash", json::text(self.metadata_hash.as_str()));
        json::set(&mut value, "hashAlgorithm", json::text(self.hash_algorithm.as_str()));
        json::set(&mut value, "subjectControlProof", self.subject_control_proof.clone());
        if let Some(proof) = &self.controller_authorization_proof {
            json::set(&mut value, "controllerAuthorizationProof", proof.clone());
        }
        value
    }

    /// Checks that the submission is in the form that the protocol asks for.
    pub fn check_shape(&self) -> (result: Result<(), String>)
        ensures
            error::complaint(result) == shape_verdict(root_submission(*self)),
    {
        validate_shape(&self.for_root())
    }

    /// The DID of the controller, if that is not the resource itself.
    pub fn controller(&self) -> (found: Option<String>)
        ensures
            text::opt_text(found) == external_controller(*self),
    {
        match documents::document_controller(&self.did_document) {
            Some(did) => if text::same_text(did.as_str(), self.resource_did.as_str()) {
                None
            } else {
                Some(did)
            },
            None => None,
        }
    }

    /// The state of the resource's life that its metadata names.
    pub fn lifecycle(&self) -> (state: String)
        ensures
            state@ == lifecycle_state(*self),
    {
        match json::get_text(&self.metadata, "lifecycleState") {
            Some(state) => state,
            None => "active".to_owned(),
        }
    }
}

/// Root is never sent the credential that a submission came with.
pub proof fn law_root_gets_no_credential(submission: ResourceRegistrationSubmission)
    ensures
        json::field(root_submission(submission), "registrationCredential"@) is None,
{
    reveal_strlit("registrationCredential");
    reveal_strlit("resourceDid");
    reveal_strlit("resourceType");
    reveal_strlit("didDocument");
    reveal_strlit("didDocumentHash");
    reveal_strlit("metadata");
    reveal_strlit("packageVersion");
    reveal_strlit("packageHash");
    reveal_strlit("metadataHash");
    reveal_strlit("hashAlgorithm");
    reveal_strlit("subjectControlProof");
    reveal_strlit("controllerAuthorizationProof");
    assert("registrationCredential"@.len() == 22);
    assert("subjectControlProof"@.len() == 19 && "controllerAuthorizationProof"@.len() == 28);
    assert("resourceDid"@.len() == 11 && "resourceType"@.len() == 12);
    assert("didDocument"@.len() == 11 && "didDocumentHash"@.len() == 15);
    assert("metadata"@.len() == 8 && "packageVersion"@.len() == 14);
    assert("packageHash"@.len() == 11 && "metadataHash"@.len() == 12);
    assert("hashAlgorithm"@.len() == 13);
}

/// What Root is sent does not depend on the credential that a submission came with.
pub proof fn law_root_cannot_tell_credentials_apart(
    left: ResourceRegistrationSubmission,
    right: ResourceRegistrationSubmission,
)
    requires
        left == (ResourceRegistrationSubmission {
            registration_credential: left.registration_credential,
            ..right
        }),
    ensures
        root_submission(left) == root_submission(right),
{
}

/// The keys of a submission are all different.
proof fn submission_keys_differ()
    ensures
        "resourceDid"@.len() == 11 && "resourceDid"@[0] == 'r',
        "resourceType"@.len() == 12 && "resourceType"@[0] == 'r',
        "didDocument"@.len() == 11 && "didDocument"@[0] == 'd',
        "didDocumentHash"@.len() == 15,
        "metadata"@.len() == 8,
        "packageVersion"@.len() == 14,
        "packageHash"@.len() == 11 && "packageHash"@[0] == 'p',
        "metadataHash"@.len() == 12 && "metadataHash"@[0] == 'm',
        "hashAlgorithm"@.len() == 13,
        "subjectControlProof"@.len() == 19,
        "controllerAuthorizationProof"@.len() == 28,
{
    reveal_strlit("resourceDid");
    reveal_strlit("resourceType");
    reveal_strlit("didDocument");
    reveal_strlit("didDocumentHash");
    reveal_strlit("metadata");
    reveal_strlit("packageVersion");
    reveal_strlit("packageHash");
    reveal_strlit("metadataHash");
    reveal_strlit("hashAlgorithm");
    reveal_strlit("subjectControlProof");
    reveal_strlit("controllerAuthorizationProof");
}

/// Root is sent the submission as it came: each member that is sent is the field of that name,
/// and there are no others.
pub proof fn law_root_is_sent_the_submission(submission: ResourceRegistrationSubmission)
    ensures
        ({
            let sent = root_submission(submission);
            &&& json::text_field(sent, "resourceDid"@) == Some(submission.resource_did@)
            &&& json::text_field(sent, "resourceType"@) == Some(submission.resource_type@)
            &&& json::field(sent, "didDocument"@) == Some(json::contents(submission.did_document))
            &&& json::text_field(sent, "didDocumentHash"@) == Some(submission.did_document_hash@)
            &&& json::field(sent, "metadata"@) == Some(json::contents(submission.metadata))
            &&& json::text_field(sent, "packageVersion"@) == Some(submission.package_version@)
            &&& json::text_field(sent, "packageHash"@) == Some(submission.package_hash@)
            &&& json::text_field(sent, "metadataHash"@) == Some(submission.metadata_hash@)
            &&& json::text_field(sent, "hashAlgorithm"@) == Some(submission.hash_algorithm@)
            &&& json::field(sent, "subjectControlProof"@) == Some(
                json::contents(submission.subject_control_proof),
            )
            &&& json::field(sent, "controllerAuthorizationProof"@) == (
            match submission.controller_authorization_proof {
                Some(proof) => Some(json::contents(proof)),
                None => None,
            })
        }),
        forall|key: Seq<char>| #[trigger]
            json::field(root_submission(submission), key) is Some ==> key == "resourceDid"@ || key
                == "resourceType"@ || key == "didDocument"@ || key == "didDocumentHash"@ || key
                == "metadata"@ || key == "packageVersion"@ || key == "packageHash"@ || key
                == "metadataHash"@ || key == "hashAlgorithm"@ || key == "subjectControlProof"@
                || key == "controllerAuthorizationProof"@,
{
    submission_keys_differ();
}

/// Two submissions that are sent alike are alike in all but the credential they came with.
pub proof fn law_root_can_tell_all_else_apart(
    left: ResourceRegistrationSubmission,
    right: ResourceRegistrationSubmission,
)
    requires
        root_submission(left) == root_submission(right),
    ensures
        left.resource_did@ == right.resource_did@,
        left.resource_type@ == right.resource_type@,
        json::contents(left.did_document) == json::contents(right.did_document),
        left.did_document_hash@ == right.did_document_hash@,
        json::contents(left.metadata) == json::contents(right.metadata),
        left.package_version@ == right.package_version@,
        left.package_hash@ == right.package_hash@,
        left.metadata_hash@ == right.metadata_hash@,
        left.hash_algorithm@ == right.hash_algorithm@,
        json::contents(left.subject_control_proof) == json::contents(right.subject_control_proof),
        left.controller_authorization_proof is Some
            <==> right.controller_authorization_proof is Some,
{
    law_root_is_sent_the_submission(left);
    law_root_is_sent_the_submission(right);
}

/// A controller is an external one exactly where the document's metadata names it and it is not
/// the resource itself.
pub proof fn law_external_controllers_are_not_the_resource(
    submission: ResourceRegistrationSubmission,
    metadata: JsonModel,
    did: Seq<char>,
)
    requires
        json::field(json::contents(submission.did_document), "oanMetadata"@) == Some(metadata),
        json::field(metadata, "controllerDid"@) == Some(JsonModel::Text(did)),
    ensures
        did == submission.resource_did@ ==> external_controller(submission) is None,
        did != submission.resource_did@ ==> external_controller(submission) == Some(did),
{
}

/// Where the document's metadata names no controller, or there is none, there is no external one.
pub proof fn law_unnamed_controllers_are_none(submission: ResourceRegistrationSubmission)
    requires
        match json::field(json::contents(submission.did_document), "oanMetadata"@) {
            Some(metadata) => !(json::member_or_null(metadata, "controllerDid"@) is Text),
            None => true,
        },
    ensures
        external_controller(submission) is None,
{
}

/// A resource is in the state that its metadata names, and active where they name none.
pub proof fn law_resources_are_active_unless_they_say_otherwise(
    submission: ResourceRegistrationSubmission,
    state: Seq<char>,
)
    ensures
        json::field(json::contents(submission.metadata), "lifecycleState"@) == Some(
            JsonModel::Text(state),
        ) ==> lifecycle_state(submission) == state,
        !(json::member_or_null(json::contents(submission.metadata), "lifecycleState"@) is Text)
            ==> lifecycle_state(submission) == "active"@,
{
}

/// The nonce of a controller's proof stands in its challenge, the controller's document beside it.
pub proof fn law_proofs_hold_nonce_and_document(
    proof: JsonModel,
    challenge: JsonModel,
    document: JsonModel,
    nonce: Seq<char>,
)
    requires
        json::field(proof, "challenge"@) == Some(challenge),
        json::field(challenge, "nonce"@) == Some(JsonModel::Text(nonce)),
        json::field(proof, "controllerDidDocument"@) == Some(document),
    ensures
        proof_nonce(proof) == nonce,
        proof_document(proof) == document,
{
}

/// A proof without a nonce has an empty one, and one without a document has null for it.
pub proof fn law_incomplete_proofs_hold_nothing(proof: JsonModel)
    ensures
        !(json::member_or_null(json::member_or_null(proof, "challenge"@), "nonce"@) is Text)
            ==> proof_nonce(proof) == Seq::<char>::empty(),
        json::field(proof, "controllerDidDocument"@) is None ==> proof_document(proof)
            == JsonModel::Null,
{
}

} // verus!
