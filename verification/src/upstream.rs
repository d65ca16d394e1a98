//! Signed requests to Root.

use crate::credential::{self, signing_key_id};
use crate::crypto::{self, CryptoSuite, Signer};
use crate::error::{self, ApiError};
use crate::json::{self, JsonModel};
use crate::submission::{self, ResourceRegistrationSubmission};
use crate::text;
use crate::time;
use serde_json::Value;
use vstd::prelude::*;

verus! {

/// The node as Root knows it.
pub struct NodeIdentity {
    pub did: String,
    pub root_did: String,
    pub signer: Signer,
    /// The credential by which Root has authorized the node, if the node holds one.
    pub authorization: Option<Value>,
}

/// What an envelope says beside what it holds the hash of.
#[derive(Debug)]
pub struct EnvelopeParts {
    pub request_id: String,
    pub protocol_version: String,
    pub purpose: String,
    pub method: String,
    pub path: String,
    pub aud: String,
    pub creator: String,
    pub verification_method: String,
    pub nonce: String,
}

/// The proof in an envelope is a signature by the key of all else that the envelope holds.
pub open spec fn signed_by(key: oan_crypto::SigningKey, envelope: JsonModel) -> bool {
    &&& envelope is Object
    &&& crypto::signed_with(
        key,
        JsonModel::Object(envelope->Object_0.remove("proof"@)),
        json::member_or_null(envelope, "proof"@),
    )
}

/// A JSON value is the envelope of a request with the given parts and payload, signed with the
/// key. It also holds the time at which it was made.
pub open spec fn is_envelope(
    envelope: JsonModel,
    parts: EnvelopeParts,
    suite: CryptoSuite,
    key: oan_crypto::SigningKey,
    payload: JsonModel,
) -> bool {
    &&& json::text_field(envelope, "requestId"@) == Some(parts.request_id@)
    &&& json::text_field(envelope, "protocolVersion"@) == Some(parts.protocol_version@)
    &&& json::text_field(envelope, "purpose"@) == Some(parts.purpose@)
    &&& json::text_field(envelope, "method"@) == Some(parts.method@)
    &&& json::text_field(envelope, "path"@) == Some(parts.path@)
    &&& json::text_field(envelope, "aud"@) == Some(parts.aud@)
    &&& json::text_field(envelope, "requestNonce"@) == Some(parts.nonce@)
    &&& json::text_field(envelope, "bodyHash"@) == Some(crypto::json_hash(suite, payload))
    &&& json::field(envelope, "proof"@) is Some
    &&& json::text_field(json::field(envelope, "proof"@)->0, "creator"@) == Some(parts.creator@)
    &&& json::text_field(json::field(envelope, "proof"@)->0, "verificationMethod"@) == Some(
        parts.verification_method@,
    )
    &&& json::text_field(envelope, "requestTimestamp"@) is Some
    &&& time::is_timestamp(json::text_field(envelope, "requestTimestamp"@)->0)
    &&& signed_by(key, envelope)
}

/// Nothing but decimal digits, at least one.
pub open spec fn is_decimal(text: Seq<char>) -> bool {
    text.len() > 0 && forall|i: int| 0 <= i < text.len() ==> '0' <= #[trigger] text[i] <= '9'
}

/// So many hexadecimal digits, in lower case.
pub open spec fn is_hexadecimal(text: Seq<char>, width: int) -> bool {
    text.len() == width && forall|i: int|
        0 <= i < text.len() ==> '0' <= #[trigger] text[i] <= '9' || 'a' <= text[i] <= 'f'
}

/// The text is the id of a request: the prefix, a time and a count.
pub open spec fn is_request_id(text: Seq<char>, prefix: Seq<char>) -> bool {
    exists|at: Seq<char>, counter: Seq<char>|
        {
            &&& #[trigger] is_decimal(at)
            &&& #[trigger] is_hexadecimal(counter, 16)
            &&& text == prefix + "-"@ + at + "-"@ + counter
        }
}

/// The text is the nonce of a request: what an id is made of, and a random number.
pub open spec fn is_request_nonce(text: Seq<char>, prefix: Seq<char>) -> bool {
    exists|head: Seq<char>, random: Seq<char>|
        {
            &&& #[trigger] is_request_id(head, prefix)
            &&& #[trigger] is_hexadecimal(random, 8)
            &&& text == head + "-"@ + random
        }
}

/// `oan_service_security::create_signed_request_envelope` with a JSON payload, the envelope as
/// JSON: it takes the parts over, holds the hash of the payload and the time of the clock, and
/// is signed with the key, so that the proof verifies for the rest of it. Which time it holds,
/// and which of the possible signatures, is not stated. Signing with SM2 panics where there is
/// no signature: with the largest secret key, which is left out, and with any other by a chance
/// of about one in two to the power of 256.
#[verifier::external_body]
fn create_signed_request_envelope(
    parts: EnvelopeParts,
    payload: &Value,
    signer: &Signer,
) -> (result: Result<Value, String>)
    requires
        signer.signs(),
    ensures
        result is Ok,
        is_envelope(
            json::contents(result->Ok_0),
            parts,
            signer.suite(),
            signer.key(),
            json::contents(*payload),
        ),
{
    let input = oan_service_security::SignedRequestEnvelopeInput {
        request_id: parts.request_id,
        protocol_version: parts.protocol_version,
        purpose: parts.purpose,
        method: parts.method,
        path: parts.path,
        aud: parts.aud,
        payload,
        creator: parts.creator,
        verification_method: parts.verification_method,
        signing_key: &signer.key,
        nonce: parts.nonce,
    };
    let envelope = oan_service_security::create_signed_request_envelope(input);
    serde_json::to_value(envelope.map_err(|error| error.to_string())?).map_err(|error| error.to_string())
}

/// `oan_service_security::request_id`: the prefix, a time in nanoseconds and a counter. Which
/// time and count they are is not stated.
#[verifier::external_body]
fn request_id(prefix: &str) -> (id: String)
    ensures
        is_request_id(id@, prefix@),
{
    oan_service_security::request_id(prefix)
}

/// `oan_service_security::request_nonce`: the prefix, a time in nanoseconds, a counter and a
/// random number. Which ones they are is not stated.
#[verifier::external_body]
fn request_nonce(prefix: &str) -> (nonce: String)
    ensures
        is_request_nonce(nonce@, prefix@),
{
    oan_service_security::request_nonce(prefix)
}

/// The request with which a node passes a submission on to Root, in the given envelope. A node
/// that holds the credential by which Root has authorized it presents it, beside what the
/// envelope signs; a node that holds none presents none.
pub open spec fn root_request(
    node: NodeIdentity,
    submission: ResourceRegistrationSubmission,
    envelope: JsonModel,
) -> JsonModel {
    let fields = Map::empty().insert("registrarDid"@, JsonModel::Text(node.did@)).insert(
        "submission"@,
        submission::root_submission(submission),
    ).insert("upstreamAuth"@, envelope);
    JsonModel::Object(
        match node.authorization {
            Some(credential) => fields.insert(
                "authorizationCredential"@,
                json::contents(credential),
            ),
            None => fields,
        },
    )
}

/// The parts of the envelope of a request with which a submission is passed on to Root.
pub open spec fn is_publish_envelope(
    envelope: JsonModel,
    node: NodeIdentity,
    submission: ResourceRegistrationSubmission,
    request_id: Seq<char>,
    nonce: Seq<char>,
) -> bool {
    exists|parts: EnvelopeParts|
        {
            &&& #[trigger] is_envelope(
                envelope,
                parts,
                node.signer.suite(),
                node.signer.key(),
                submission::root_submission(submission),
            )
            &&& parts.request_id@ == request_id
            &&& parts.protocol_version@ == "oan-resource-2026"@
            &&& parts.purpose@ == "verify-and-publish"@
            &&& parts.method@ == "POST"@
            &&& parts.path@ == "/root/resources/verify-and-publish"@
            &&& parts.aud@ == node.root_did@
            &&& parts.creator@ == node.did@
            &&& parts.verification_method@ == credential::key_id(node.did@)
            &&& parts.nonce@ == nonce
        }
}

/// A JSON value is a request with which the node passes a submission on to Root.
pub open spec fn is_publish_request(
    request: JsonModel,
    node: NodeIdentity,
    submission: ResourceRegistrationSubmission,
    request_id: Seq<char>,
    nonce: Seq<char>,
) -> bool {
    exists|envelope: JsonModel|
        {
            &&& request == #[trigger] root_request(node, submission, envelope)
            &&& is_publish_envelope(envelope, node, submission, request_id, nonce)
        }
}

/// Where a submission is passed on to Root.
pub fn publish_url(root_endpoint: &str) -> (url: String)
    ensures
        url@ == root_endpoint@ + "/root/resources/verify-and-publish"@,
{
    text::joined(root_endpoint, "/root/resources/verify-and-publish")
}

/// The request with which the node passes a submission on to Root, under the given id and
/// nonce.
pub fn sign_publish_request(
    node: &NodeIdentity,
    submission: &ResourceRegistrationSubmission,
    request_id: String,
    nonce: String,
) -> (result: Result<Value, ApiError>)
    requires
        node.signer.signs(),
    ensures
        result is Ok,
        is_publish_request(
            json::contents(result->Ok_0),
            *node,
            *submission,
            request_id@,
            nonce@,
        ),
{
    let payload = submission.for_root();
    let parts = EnvelopeParts {
        request_id,
        protocol_version: "oan-resource-2026".to_owned(),
        purpose: "verify-and-publish".to_owned(),
        method: "POST".to_owned(),
        path: "/root/resources/verify-and-publish".to_owned(),
        aud: node.root_did.clone(),
        creator: node.did.clone(),
        verification_method: signing_key_id(node.did.as_str()),
        nonce,
    };
    let ghost said = parts;
    match create_signed_request_envelope(parts, &payload, &node.signer) {
        Err(complaint) => Err(ApiError::internal(complaint.as_str())),
        Ok(envelope) => {
            let ghost held = json::contents(envelope);
            assert(is_envelope(
                held,
                said,
                node.signer.suite(),
                node.signer.key(),
                submission::root_submission(*submission),
            ));
            let mut request = json::object();
            json::set(&mut request, "registrarDid", json::text(node.did.as_str()));
            json::set(&mut request, "submission", payload);
            json::set(&mut request, "upstreamAuth", envelope);
            if let Some(credential) = &node.authorization {
                json::set(&mut request, "authorizationCredential", credential.clone());
            }
            assert(json::contents(request) == root_request(*node, *submission, held));
            Ok(request)
        },
    }
}

/// The request with which the node passes a submission on to Root.
pub fn build_resource_verify_and_publish_request(
    node: &NodeIdentity,
    submission: &ResourceRegistrationSubmission,
) -> (result: Result<Value, ApiError>)
    requires
        node.signer.signs(),
    ensures
        result is Ok,
        exists|id: Seq<char>, nonce: Seq<char>|
            {
                &&& #[trigger] is_publish_request(
                    json::contents(result->Ok_0),
                    *node,
                    *submission,
                    id,
                    nonce,
                )
                &&& is_request_id(id, "resource-verify-and-publish"@)
                &&& is_request_nonce(nonce, "resource-verify-and-publish"@)
            },
{
    let id = request_id("resource-verify-and-publish");
    let nonce = request_nonce("resource-verify-and-publish");
    sign_publish_request(node, submission, id, nonce)
}

/// Whether a request to Root is signed with the key of the node.
pub fn is_signed_by_node(node: &NodeIdentity, request: &Value) -> (found: bool)
    ensures
        found == signed_by(
            node.signer.key(),
            json::member_or_null(json::contents(*request), "upstreamAuth"@),
        ),
{
    let mut rest = json::member(request, "upstreamAuth");
    if !rest.is_object() {
        return false;
    }
    let proof = json::member(&rest, "proof");
    json::remove(&mut rest, "proof");
    crypto::proof_is_by(node.signer.signing_key(), &rest, &proof)
}

/// Every request with which the node passes a submission on to Root is signed with the node's
/// key, and what is signed holds the hash of the submission.
pub proof fn law_requests_to_root_are_signed_by_the_node(
    request: JsonModel,
    node: NodeIdentity,
    submission: ResourceRegistrationSubmission,
    request_id: Seq<char>,
    nonce: Seq<char>,
)
    requires
        is_publish_request(request, node, submission, request_id, nonce),
    ensures
        ({
            let envelope = json::member_or_null(request, "upstreamAuth"@);
            &&& signed_by(node.signer.key(), envelope)
            &&& json::text_field(
                JsonModel::Object(envelope->Object_0.remove("proof"@)),
                "bodyHash"@,
            ) == Some(
                crypto::json_hash(node.signer.suite(), submission::root_submission(submission)),
            )
        }),
{
    reveal_strlit("proof");
    reveal_strlit("bodyHash");
    assert("proof"@.len() == 5 && "bodyHash"@.len() == 8);
    request_keys_differ();
}

/// The keys of a request are all different.
proof fn request_keys_differ()
    ensures
        "registrarDid"@.len() == 12 && "registrarDid"@[0] == 'r',
        "submission"@.len() == 10,
        "upstreamAuth"@.len() == 12 && "upstreamAuth"@[0] == 'u',
        "authorizationCredential"@.len() == 23,
{
    reveal_strlit("registrarDid");
    reveal_strlit("submission");
    reveal_strlit("upstreamAuth");
    reveal_strlit("authorizationCredential");
}

/// A node that holds the credential by which Root has authorized it presents it with every
/// request with which it passes a submission on, and nothing else changes in the request.
pub proof fn law_requests_to_root_present_the_authorization(
    request: JsonModel,
    node: NodeIdentity,
    submission: ResourceRegistrationSubmission,
    request_id: Seq<char>,
    nonce: Seq<char>,
)
    requires
        is_publish_request(request, node, submission, request_id, nonce),
    ensures
        json::field(request, "authorizationCredential"@) == (match node.authorization {
            Some(credential) => Some(json::contents(credential)),
            None => None,
        }),
        json::text_field(request, "registrarDid"@) == Some(node.did@),
        json::field(request, "submission"@) == Some(submission::root_submission(submission)),
{
    request_keys_differ();
}

/// What a request to Root says: the envelope is for Root, from the node and signed under its key,
/// posted to be verified and published, and holds the hash of the submission that comes with it.
pub proof fn law_requests_to_root_say_what_they_are(
    request: JsonModel,
    node: NodeIdentity,
    submission: ResourceRegistrationSubmission,
    request_id: Seq<char>,
    nonce: Seq<char>,
)
    requires
        is_publish_request(request, node, submission, request_id, nonce),
    ensures
        ({
            let envelope = json::member_or_null(request, "upstreamAuth"@);
            let proof = json::member_or_null(envelope, "proof"@);
            &&& json::text_field(request, "registrarDid"@) == Some(node.did@)
            &&& json::text_field(envelope, "requestId"@) == Some(request_id)
            &&& json::text_field(envelope, "requestNonce"@) == Some(nonce)
            &&& json::text_field(envelope, "protocolVersion"@) == Some("oan-resource-2026"@)
            &&& json::text_field(envelope, "purpose"@) == Some("verify-and-publish"@)
            &&& json::text_field(envelope, "method"@) == Some("POST"@)
            &&& json::text_field(envelope, "path"@) == Some("/root/resources/verify-and-publish"@)
            &&& json::text_field(envelope, "aud"@) == Some(node.root_did@)
            &&& json::text_field(proof, "creator"@) == Some(node.did@)
            &&& json::text_field(proof, "verificationMethod"@) == Some(node.did@ + "#key-1"@)
            &&& json::text_field(envelope, "bodyHash"@) == Some(
                crypto::json_hash(
                    node.signer.suite(),
                    json::member_or_null(request, "submission"@),
                ),
            )
        }),
        request->Object_0.dom() =~= (if node.authorization is Some {
            set!["registrarDid"@, "submission"@, "upstreamAuth"@, "authorizationCredential"@]
        } else {
            set!["registrarDid"@, "submission"@, "upstreamAuth"@]
        }),
{
    request_keys_differ();
}

/// Root is sent what was submitted, under the names that it was submitted under.
pub proof fn law_requests_to_root_hold_the_submission(
    request: JsonModel,
    node: NodeIdentity,
    submission: ResourceRegistrationSubmission,
    request_id: Seq<char>,
    nonce: Seq<char>,
)
    requires
        is_publish_request(request, node, submission, request_id, nonce),
    ensures
        ({
            let sent = json::member_or_null(request, "submission"@);
            &&& json::text_field(sent, "resourceDid"@) == Some(submission.resource_did@)
            &&& json::text_field(sent, "resourceType"@) == Some(submission.resource_type@)
            &&& json::field(sent, "didDocument"@) == Some(json::contents(submission.did_document))
            &&& json::text_field(sent, "didDocumentHash"@) == Some(submission.did_document_hash@)
            &&& json::field(sent, "metadata"@) == Some(json::contents(submission.metadata))
            &&& json::text_field(sent, "packageVersion"@) == Some(submission.package_version@)
            &&& json::text_field(sent, "packageHash"@) == Some(submission.package_hash@)
            &&& json::text_field(sent, "metadataHash"@) == Some(submission.metadata_hash@)
            &&& json::text_field(sent, "hashAlgorithm"@) == Some(submission.hash_algorithm@)
            &&& json::field(sent, "subjectControlProof"@) == Some(
                json::contents(submission.subject_control_proof),
            )
            &&& submission.controller_authorization_proof is Some ==> json::field(
                sent,
                "controllerAuthorizationProof"@,
            ) == Some(json::contents(submission.controller_authorization_proof->0))
            &&& json::field(sent, "registrationCredential"@) is None
        }),
{
    request_keys_differ();
    submission::law_root_is_sent_the_submission(submission);
    submission::law_root_gets_no_credential(submission);
}

/// An envelope is signed by a key if its proof is a signature by it of all else that it holds.
/// What is no object is signed by nobody.
pub proof fn law_proofs_sign_all_else(
    key: oan_crypto::SigningKey,
    members: Map<Seq<char>, JsonModel>,
    proof: JsonModel,
    other: JsonModel,
)
    requires
        !members.contains_key("proof"@),
        !(other is Object),
    ensures
        signed_by(key, JsonModel::Object(members.insert("proof"@, proof))) <==> crypto::signed_with(
            key,
            JsonModel::Object(members),
            proof,
        ),
        !signed_by(key, other),
{
    assert(members.insert("proof"@, proof).remove("proof"@) == members);
}

/// A request to Root says when it was made, in the form of a timestamp.
pub proof fn law_requests_to_root_say_when_they_were_made(
    request: JsonModel,
    node: NodeIdentity,
    submission: ResourceRegistrationSubmission,
    request_id: Seq<char>,
    nonce: Seq<char>,
)
    requires
        is_publish_request(request, node, submission, request_id, nonce),
    ensures
        ({
            let written = json::text_field(
                json::member_or_null(request, "upstreamAuth"@),
                "requestTimestamp"@,
            );
            written is Some && time::is_timestamp(written->0)
        }),
{
    request_keys_differ();
}

/// The id of a request is its prefix, a decimal number and sixteen hexadecimal digits, with
/// dashes between. Its nonce goes on with eight more.
pub proof fn law_ids_and_nonces_have_this_form(
    prefix: Seq<char>,
    at: Seq<char>,
    counter: Seq<char>,
    random: Seq<char>,
)
    requires
        at.len() > 0,
        forall|i: int| 0 <= i < at.len() ==> '0' <= #[trigger] at[i] <= '9',
        counter.len() == 16,
        forall|i: int|
            0 <= i < 16 ==> '0' <= #[trigger] counter[i] <= '9' || 'a' <= counter[i] <= 'f',
        random.len() == 8,
        forall|i: int|
            0 <= i < 8 ==> '0' <= #[trigger] random[i] <= '9' || 'a' <= random[i] <= 'f',
    ensures
        is_request_id(prefix + "-"@ + at + "-"@ + counter, prefix),
        is_request_nonce(prefix + "-"@ + at + "-"@ + counter + "-"@ + random, prefix),
{
    assert(is_decimal(at) && is_hexadecimal(counter, 16) && is_hexadecimal(random, 8));
    assert(is_request_id(prefix + "-"@ + at + "-"@ + counter, prefix));
}

/// An id or a nonce begins with its prefix and a dash, and ends in hexadecimal digits behind a
/// dash.
pub proof fn law_ids_and_nonces_begin_with_their_prefix(id: Seq<char>, prefix: Seq<char>)
    ensures
        is_request_id(id, prefix) || is_request_nonce(id, prefix) ==> text::begins_with(
            id,
            prefix + "-"@,
        ),
        is_request_id(id, prefix) ==> id.len() >= prefix.len() + 19 && id[id.len() - 17] == '-'
            && is_hexadecimal(id.skip(id.len() - 16), 16),
        is_request_nonce(id, prefix) ==> id.len() >= prefix.len() + 28 && id[id.len() - 9] == '-'
            && is_hexadecimal(id.skip(id.len() - 8), 8) && is_request_id(
            id.take(id.len() - 9),
            prefix,
        ),
{
    reveal_strlit("-");
    let head = prefix + "-"@;
    if is_request_id(id, prefix) {
        ids_begin_with_their_prefix(id, prefix);
    }
    if is_request_nonce(id, prefix) {
        let (first, random) = choose|first: Seq<char>, random: Seq<char>|
            {
                &&& #[trigger] is_request_id(first, prefix)
                &&& #[trigger] is_hexadecimal(random, 8)
                &&& id == first + "-"@ + random
            };
        ids_begin_with_their_prefix(first, prefix);
        assert(id.take(head.len() as int) == first.take(head.len() as int));
        assert(id.skip(id.len() - 8) == random);
        assert(id.take(id.len() - 9) == first);
    }
}

/// An id begins with its prefix and ends in its count.
proof fn ids_begin_with_their_prefix(id: Seq<char>, prefix: Seq<char>)
    requires
        is_request_id(id, prefix),
    ensures
        text::begins_with(id, prefix + "-"@),
        id.len() >= prefix.len() + 19,
        id[id.len() - 17] == '-',
        is_hexadecimal(id.skip(id.len() - 16), 16),
{
    reveal_strlit("-");
    let (at, counter) = choose|at: Seq<char>, counter: Seq<char>|
        {
            &&& #[trigger] is_decimal(at)
            &&& #[trigger] is_hexadecimal(counter, 16)
            &&& id == prefix + "-"@ + at + "-"@ + counter
        };
    let head = prefix + "-"@;
    assert(id.take(head.len() as int) == head);
    assert(id.skip(id.len() - 16) == counter);
}

} // verus!
