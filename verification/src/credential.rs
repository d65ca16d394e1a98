//! The credential that a registration is given.

use crate::documents;
use crate::json::{self, JsonModel};
use crate::storage;
use crate::submission::{self, ResourceRegistrationSubmission};
use crate::text;
use serde_json::Value;
use vstd::prelude::*;

verus! {

/// The name of the key that a node signs with.
pub open spec fn key_id(did: Seq<char>) -> Seq<char> {
    did + "#key-1"@
}

/// The name of the key that a node signs with.
pub fn signing_key_id(did: &str) -> (id: String)
    ensures
        id@ == key_id(did@),
{
    text::joined(did, "#key-1")
}

/// The id of the credential for a resource.
pub open spec fn credential_id(resource_did: Seq<char>) -> Seq<char> {
    "urn:oan:credential:resource-registration:"@ + text::without_suffixes(
        storage::file_name(resource_did),
        ".json"@,
    )
}

/// What a credential says of the resource.
pub open spec fn credential_subject(
    submission: ResourceRegistrationSubmission,
    did_document_hash: Seq<char>,
) -> JsonModel {
    JsonModel::Object(
        Map::empty().insert("id"@, JsonModel::Text(submission.resource_did@)).insert(
            "resourceDid"@,
            JsonModel::Text(submission.resource_did@),
        ).insert("resourceType"@, JsonModel::Text(submission.resource_type@)).insert(
            "didDocumentHash"@,
            JsonModel::Text(did_document_hash),
        ).insert("metadataHash"@, JsonModel::Text(submission.metadata_hash@)).insert(
            "packageHash"@,
            JsonModel::Text(submission.package_hash@),
        ).insert("packageVersion"@, JsonModel::Text(submission.package_version@)).insert(
            "hashAlgorithm"@,
            JsonModel::Text(submission.hash_algorithm@),
        ).insert(
            "authorizedDomains"@,
            json::text_array(
                documents::authorized_domains(json::contents(submission.did_document)),
            ),
        ).insert(
            "lifecycleState"@,
            JsonModel::Text(submission::lifecycle_state(submission)),
        ),
    )
}

/// The credential before it is signed.
pub open spec fn unsigned_credential(
    issuer: Seq<char>,
    submission: ResourceRegistrationSubmission,
    did_document_hash: Seq<char>,
    issued_at: Seq<char>,
) -> Map<Seq<char>, JsonModel> {
    Map::empty().insert(
        "@context"@,
        json::text_array(
            seq![
                "https://www.w3.org/2018/credentials/v1"@,
                "https://openagenet.org/credentials/v1"@,
            ],
        ),
    ).insert("id"@, JsonModel::Text(credential_id(submission.resource_did@))).insert(
        "type"@,
        json::text_array(seq!["VerifiableCredential"@, "OANResourceRegistrationCredential"@]),
    ).insert("issuer"@, JsonModel::Text(issuer)).insert(
        "issuanceDate"@,
        JsonModel::Text(issued_at),
    ).insert("credentialSubject"@, credential_subject(submission, did_document_hash)).insert(
        "credentialStatus"@,
        JsonModel::Object(
            Map::empty().insert(
                "type"@,
                JsonModel::Text("OANResourceRegistrationStatus"@),
            ).insert("status"@, JsonModel::Text("active"@)),
        ),
    )
}

fn two_texts(first: &str, second: &str) -> (value: Value)
    ensures
        json::contents(value) == json::text_array(seq![first@, second@]),
{
    let mut items: Vec<String> = Vec::new();
    items.push(first.to_owned());
    items.push(second.to_owned());
    assert(text::texts(items@) == seq![first@, second@]);
    json::array_of_texts(&items)
}

/// The credential for a submission, before it is signed. The time of its issue is given as
/// text.
pub fn issue_resource_registration_credential(
    issuer: &str,
    submission: &ResourceRegistrationSubmission,
    did_document_hash: &str,
    issued_at: &str,
) -> (credential: Value)
    ensures
        json::contents(credential) == JsonModel::Object(
            unsigned_credential(issuer@, *submission, did_document_hash@, issued_at@),
        ),
{
    let did = submission.resource_did.as_str();
    let file = storage::did_to_file_name(did);
    let id = text::joined(
        "urn:oan:credential:resource-registration:",
        text::trim_suffixes(file.as_str(), ".json").as_str(),
    );
    let domains = documents::document_domains(&submission.did_document);
    let mut subject = json::object();
    json::set(&mut subject, "id", json::text(did));
    json::set(&mut subject, "resourceDid", json::text(did));
    json::set(&mut subject, "resourceType", json::text(submission.resource_type.as_str()));
    json::set(&mut subject, "didDocumentHash", json::text(did_document_hash));
    json::set(&mut subject, "metadataHash", json::text(submission.metadata_hash.as_str()));
    json::set(&mut subject, "packageHash", json::text(submission.package_hash.as_str()));
    json::set(&mut subject, "packageVersion", json::text(submission.package_version.as_str()));
    json::set(&mut subject, "hashAlgorithm", json::text(submission.hash_algorithm.as_str()));
    json::set(&mut subject, "authorizedDomains", json::array_of_texts(&domains));
    json::set(&mut subject, "lifecycleState", json::text(submission.lifecycle().as_str()));
    let mut status = json::object();
    json::set(&mut status, "type", json::text("OANResourceRegistrationStatus"));
    json::set(&mut status, "status", json::text("active"));
    let mut credential = json::object();
    json::set(
        &mut credential,
        "@context",
        two_texts(
            "https://www.w3.org/2018/credentials/v1",
            "https://openagenet.org/credentials/v1",
        ),
    );
    json::set(&mut credential, "id", json::text(id.as_str()));
    json::set(
        &mut credential,
        "type",
        two_texts("VerifiableCredential", "OANResourceRegistrationCredential"),
    );
    json::set(&mut credential, "issuer", json::text(issuer));
    json::set(&mut credential, "issuanceDate", json::text(issued_at));
    json::set(&mut credential, "credentialSubject", subject);
    json::set(&mut credential, "credentialStatus", status);
    credential
}

/// The keys of a credential are all different.
proof fn credential_keys_differ()
    ensures
        "@context"@.len() == 8,
        "id"@.len() == 2,
        "type"@.len() == 4,
        "issuer"@.len() == 6 && "issuer"@[0] == 'i',
        "issuanceDate"@.len() == 12,
        "credentialSubject"@.len() == 17,
        "credentialStatus"@.len() == 16,
        "proof"@.len() == 5,
        "status"@.len() == 6 && "status"@[0] == 's',
{
    reveal_strlit("@context");
    reveal_strlit("id");
    reveal_strlit("type");
    reveal_strlit("issuer");
    reveal_strlit("issuanceDate");
    reveal_strlit("credentialSubject");
    reveal_strlit("credentialStatus");
    reveal_strlit("proof");
    reveal_strlit("status");
}

/// The keys of what a credential says are all different.
proof fn subject_keys_differ()
    ensures
        "id"@.len() == 2,
        "resourceDid"@.len() == 11 && "resourceDid"@[0] == 'r',
        "resourceType"@.len() == 12 && "resourceType"@[0] == 'r',
        "didDocumentHash"@.len() == 15,
        "metadataHash"@.len() == 12 && "metadataHash"@[0] == 'm',
        "packageHash"@.len() == 11 && "packageHash"@[0] == 'p',
        "packageVersion"@.len() == 14 && "packageVersion"@[0] == 'p',
        "hashAlgorithm"@.len() == 13,
        "authorizedDomains"@.len() == 17,
        "lifecycleState"@.len() == 14 && "lifecycleState"@[0] == 'l',
{
    reveal_strlit("id");
    reveal_strlit("resourceDid");
    reveal_strlit("resourceType");
    reveal_strlit("didDocumentHash");
    reveal_strlit("metadataHash");
    reveal_strlit("packageHash");
    reveal_strlit("packageVersion");
    reveal_strlit("hashAlgorithm");
    reveal_strlit("authorizedDomains");
    reveal_strlit("lifecycleState");
}

/// A credential says of the resource what was submitted, each thing under its own name, with the
/// hash of its document and the state that it is in.
pub proof fn law_credentials_say_what_was_registered(
    submission: ResourceRegistrationSubmission,
    did_document_hash: Seq<char>,
)
    ensures
        ({
            let subject = credential_subject(submission, did_document_hash);
            &&& json::text_field(subject, "id"@) == Some(submission.resource_did@)
            &&& json::text_field(subject, "resourceDid"@) == Some(submission.resource_did@)
            &&& json::text_field(subject, "resourceType"@) == Some(submission.resource_type@)
            &&& json::text_field(subject, "didDocumentHash"@) == Some(did_document_hash)
            &&& json::text_field(subject, "metadataHash"@) == Some(submission.metadata_hash@)
            &&& json::text_field(subject, "packageHash"@) == Some(submission.package_hash@)
            &&& json::text_field(subject, "packageVersion"@) == Some(submission.package_version@)
            &&& json::text_field(subject, "hashAlgorithm"@) == Some(submission.hash_algorithm@)
            &&& json::array_field(subject, "authorizedDomains"@) is Some
            &&& json::texts_among(json::array_field(subject, "authorizedDomains"@)->0)
                == documents::authorized_domains(json::contents(submission.did_document))
            &&& json::text_field(subject, "lifecycleState"@) == Some(
                submission::lifecycle_state(submission),
            )
            &&& subject->Object_0.dom() =~= set![
                "id"@, "resourceDid"@, "resourceType"@, "didDocumentHash"@, "metadataHash"@,
                "packageHash"@, "packageVersion"@, "hashAlgorithm"@, "authorizedDomains"@,
                "lifecycleState"@,
            ]
        }),
{
    subject_keys_differ();
    json::law_text_arrays_hold_their_texts(
        documents::authorized_domains(json::contents(submission.did_document)),
    );
}

/// A credential is the issuer's, of its time, active, and of the two types and contexts that
/// registration credentials have. It is not signed yet.
pub proof fn law_credentials_are_the_issuers(
    issuer: Seq<char>,
    submission: ResourceRegistrationSubmission,
    did_document_hash: Seq<char>,
    issued_at: Seq<char>,
)
    ensures
        ({
            let credential = JsonModel::Object(
                unsigned_credential(issuer, submission, did_document_hash, issued_at),
            );
            let status = json::member_or_null(credential, "credentialStatus"@);
            let contexts = json::array_field(credential, "@context"@);
            let types = json::array_field(credential, "type"@);
            &&& json::text_field(credential, "issuer"@) == Some(issuer)
            &&& json::text_field(credential, "issuanceDate"@) == Some(issued_at)
            &&& json::text_field(credential, "id"@) == Some(
                credential_id(submission.resource_did@),
            )
            &&& json::field(credential, "credentialSubject"@) == Some(
                credential_subject(submission, did_document_hash),
            )
            &&& json::text_field(status, "type"@) == Some("OANResourceRegistrationStatus"@)
            &&& json::text_field(status, "status"@) == Some("active"@)
            &&& contexts is Some && json::texts_among(contexts->0) == seq![
                "https://www.w3.org/2018/credentials/v1"@,
                "https://openagenet.org/credentials/v1"@,
            ]
            &&& types is Some && json::texts_among(types->0) == seq![
                "VerifiableCredential"@,
                "OANResourceRegistrationCredential"@,
            ]
            &&& json::field(credential, "proof"@) is None
        }),
{
    credential_keys_differ();
    json::law_text_arrays_hold_their_texts(
        seq![
            "https://www.w3.org/2018/credentials/v1"@,
            "https://openagenet.org/credentials/v1"@,
        ],
    );
    json::law_text_arrays_hold_their_texts(
        seq!["VerifiableCredential"@, "OANResourceRegistrationCredential"@],
    );
}

/// The id of a credential is made of the DID, with underscores for its colons, unless the DID
/// itself ends like a file.
pub proof fn law_credential_ids_hold_the_did(did: Seq<char>)
    requires
        !text::ends_in(
            did.map_values(
                |c: char|
                    if c == ':' {
                        '_'
                    } else {
                        c
                    },
            ),
            ".json"@,
        ),
    ensures
        ({
            let prefix = "urn:oan:credential:resource-registration:"@;
            let id = credential_id(did);
            &&& id.len() == prefix.len() + did.len()
            &&& id.take(prefix.len() as int) == prefix
            &&& forall|i: int|
                0 <= i < did.len() ==> #[trigger] id[prefix.len() + i] == (if did[i] == ':' {
                    '_'
                } else {
                    did[i]
                })
        }),
{
    let name = did.map_values(
        |c: char|
            if c == ':' {
                '_'
            } else {
                c
            },
    );
    reveal_strlit(".json");
    let file = storage::file_name(did);
    assert(file == name + ".json"@);
    assert(file.skip(file.len() - ".json"@.len()) == ".json"@);
    assert(file.take(file.len() - ".json"@.len()) == name);
    assert(text::without_suffixes(name, ".json"@) == name);
    assert(text::without_suffixes(file, ".json"@) == name);
    let prefix = "urn:oan:credential:resource-registration:"@;
    assert(credential_id(did) == prefix + name);
    assert((prefix + name).take(prefix.len() as int) == prefix);
}

/// The key of a node is named by its DID: different nodes have different keys.
pub proof fn law_keys_belong_to_their_node(left: Seq<char>, right: Seq<char>)
    ensures
        key_id(left) == left + "#key-1"@,
        key_id(left) == key_id(right) ==> left == right,
{
    assert(key_id(left).take(key_id(left).len() - "#key-1"@.len()) == left);
    assert(key_id(right).take(key_id(right).len() - "#key-1"@.len()) == right);
}

/// The id of a credential is made of the name of the resource's file, without the extensions at
/// its end, however many there are.
pub proof fn law_credential_ids_hold_no_extension(did: Seq<char>)
    ensures
        exists|stem: Seq<char>, times: nat|
            {
                &&& credential_id(did) == "urn:oan:credential:resource-registration:"@ + stem
                &&& !(#[trigger] text::ends_in(stem, ".json"@))
                &&& storage::file_name(did) == stem + #[trigger] text::copies(".json"@, times)
            },
{
    reveal_strlit(".json");
    let name = storage::file_name(did);
    text::law_nothing_but_suffixes_is_trimmed(name, ".json"@);
    let stem = text::without_suffixes(name, ".json"@);
    let times = choose|times: nat| name == stem + #[trigger] text::copies(".json"@, times);
    assert(credential_id(did) == "urn:oan:credential:resource-registration:"@ + stem);
}

} // verus!
