use oan_core::{
    CryptoSuite, DataIntegrityProof, DidDocument, OanMetadata, ProtocolBinding, ResourceDescription,
    ResourceType, ServiceEndpoint, VerificationMethod,
};
use oan_crypto::{
    build_data_integrity_proof, generate_ed25519_keypair, hash_json_with_suite,
    public_key_multibase, SigningKey, VerifyingKey,
};
use oan_protocol::{
    DidControlChallenge, SubjectControlProofBundle, PATH_ROOT_RESOURCES_VERIFY_AND_PUBLISH,
    PURPOSE_VERIFY_AND_PUBLISH,
};
use registrar_node::access::{
    CredentialGrant, QueryTerms, RegistrationCredentialQueryRequest,
    REGISTRATION_CREDENTIAL_QUERY_MAX_CLOCK_SKEW_SECONDS,
};
use registrar_node::catalog::api_normalize_tags;
use registrar_node::config::StatsReportConfig;
use registrar_node::credential::signing_key_id;
use registrar_node::crypto::{CryptoSuite as Suite, Signer};
use registrar_node::error::ApiError;
use registrar_node::governance::{check_governance, GovernanceView};
use registrar_node::listing::{api_resources, ResourceListQuery, ResourcePage, REGISTRAR_MAX_PAGE_SIZE};
use registrar_node::query_path::registration_credential_query_path;
use registrar_node::records::{
    api_resource_detail, public_resource_record_projection, REGISTRAR_MAX_RECORD_BYTES,
};
use registrar_node::registration::{
    needs_controller_check, receive_submission, registration_record, Intake, RootReply,
};
use registrar_node::stats::{registrar_stats_body, stats_report};
use registrar_node::storage::{record_slot, write_slot};
use registrar_node::submission::ResourceRegistrationSubmission;
use registrar_node::time::Instant;
use registrar_node::upstream::{
    build_resource_verify_and_publish_request, is_signed_by_node, NodeIdentity,
};
use serde_json::Value;
use std::collections::{BTreeMap, BTreeSet};

const REGISTRAR: &str = "did:oan:AGRG:6HkPq7Vm3RdT9Ya2WcX8Ns4Bf6GjLeZu";
const AUTHORIZATION_PURPOSE: &str = "controller-authorization-registration";
const QUERY_PURPOSE: &str = "registration-credential-query";
const QUERY_PROTOCOL: &str = "registration-credential-query-v1";

fn json(text: &str) -> Value {
    serde_json::from_str(text).unwrap()
}

fn now() -> Instant {
    Instant::now()
}

/// A node that keeps its records and nonces in memory.
struct Node {
    identity: NodeIdentity,
    domains: Vec<String>,
    view: GovernanceView,
    records: BTreeMap<String, Value>,
    nonces: BTreeSet<String>,
}

fn node() -> Node {
    Node {
        identity: NodeIdentity {
            did: REGISTRAR.to_owned(),
            root_did: "did:oan:AGRT:5HkPq7Vm3RdT9Ya2WcX8Ns4Bf6GjLeZu".to_owned(),
            signer: Signer::load("Ed25519", "AQIDBAUGBwgJCgsMDQ4PEBESExQVFhcYGRobHB0eHyA").unwrap(),
            authorization: None,
        },
        domains: vec!["legal".to_owned()],
        view: GovernanceView::Active,
        records: BTreeMap::new(),
        nonces: BTreeSet::new(),
    }
}

impl Node {
    fn write(&mut self, record: &Value) -> Result<(), ApiError> {
        let slot = write_slot(record)?;
        self.records.insert(slot.key, record.clone());
        Ok(())
    }

    fn read(&self, did: &str) -> Option<&Value> {
        self.records.get(&record_slot(did).key)
    }

    fn kept(&self) -> Vec<Value> {
        self.records.values().cloned().collect()
    }

    fn store_nonce(&mut self, nonce: String) -> Result<(), String> {
        if self.nonces.insert(nonce) {
            Ok(())
        } else {
            Err("trusted_upstream_nonce_replayed".to_owned())
        }
    }

    fn document(&self) -> Value {
        let mut document = sample_document(&self.identity.did);
        document.oan_metadata.as_mut().unwrap().authorized_domains = self.domains.clone();
        serde_json::to_value(document).unwrap()
    }

    fn query(
        &mut self,
        did: &str,
        request: &RegistrationCredentialQueryRequest,
    ) -> Result<Value, ApiError> {
        let grant = CredentialGrant::open(&terms(), did, self.read(did), request, &now())?;
        assert_eq!(
            request.challenge["requestTimestamp"],
            grant.nonce_seen_at().timestamp()
        );
        let stored = self.store_nonce(grant.nonce_to_store());
        grant.release(stored)
    }

    /// Registers a resource with a Root that answers as given and a controller check that
    /// comes to the given outcome.
    fn register(
        &mut self,
        submission: ResourceRegistrationSubmission,
        controller: Result<String, String>,
        root: &dyn Fn(&Value) -> RootReply,
    ) -> Result<Value, ApiError> {
        let cleared = match receive_submission(&self.view, submission)? {
            Intake::Cleared(cleared) => cleared,
            Intake::NeedsController(check) => {
                let expected = check.expectation(&self.identity.did, AUTHORIZATION_PURPOSE);
                assert_eq!(expected.registrar_did, REGISTRAR);
                let check = check.verified(controller)?;
                let stored = self.store_nonce(check.nonce_to_store());
                check.stored(stored)?
            }
        };
        let admitted = cleared.accept(Ok(self.document()))?;
        let request = admitted.request(&self.identity)?;
        let published = admitted.answered(&self.identity, root(&request), &now())?;
        let key = signing_key_id(&self.identity.did);
        let proof = build_data_integrity_proof(
            published.credential_to_sign(),
            key.clone(),
            key,
            self.identity.signer.signing_key(),
        )
        .unwrap();
        let record = published.signed(
            &self.identity,
            AUTHORIZATION_PURPOSE,
            Ok(serde_json::to_value(proof).unwrap()),
            &now(),
        )?;
        let outcome = self.write(record.record_to_write());
        record.written(outcome)
    }
}

fn root_is_not_called(_request: &Value) -> RootReply {
    panic!("Root must not be called")
}

fn queued(request: &Value) -> RootReply {
    let mut body = json("{\"status\": \"resource-verified-and-queued\"}");
    body["resourceDid"] = request["submission"]["resourceDid"].clone();
    RootReply::Answered(200, Some(body))
}

fn terms() -> QueryTerms {
    QueryTerms {
        node_did: REGISTRAR.to_owned(),
        suite: Suite::Ed25519Sha256,
        purpose: QUERY_PURPOSE.to_owned(),
        protocol_version: QUERY_PROTOCOL.to_owned(),
    }
}

fn sample_document(did: &str) -> DidDocument {
    let key = generate_ed25519_keypair();
    let verifying_key = VerifyingKey::Ed25519 {
        suite: CryptoSuite::Ed25519Sha256,
        key: key.verifying_key(),
    };
    DidDocument {
        context: vec!["https://www.w3.org/ns/did/v1".to_owned()],
        id: did.to_owned(),
        verification_method: vec![VerificationMethod {
            id: format!("{did}#key-1"),
            method_type: "Ed25519VerificationKey2020".to_owned(),
            controller: did.to_owned(),
            crypto_suite: Some(CryptoSuite::Ed25519Sha256),
            public_key_format: Some("multibase".to_owned()),
            public_key_multibase: Some(public_key_multibase(&verifying_key)),
            public_key_jwk: None,
        }],
        authentication: vec![format!("{did}#key-1")],
        assertion_method: vec![format!("{did}#key-1")],
        service: vec![ServiceEndpoint {
            id: format!("{did}#download"),
            service_type: "SkillPackageDownload".to_owned(),
            service_endpoint: "https://example.org/skill.json".to_owned(),
            version: Some("1".to_owned()),
            protocol: Some("https".to_owned()),
            server_type: None,
            port: None,
        }],
        oan_metadata: Some(OanMetadata {
            subject_type: ResourceType::Skill,
            resource_type: ResourceType::Skill,
            node_role: None,
            identity_type: None,
            controller_did: None,
            publisher_did: None,
            issuer_did: None,
            ttl: None,
            resource_description: Some(ResourceDescription {
                name: Some("Contract Skill".to_owned()),
                description: Some("Review contracts".to_owned()),
                capability_tags: vec!["legal.contract.review".to_owned()],
                ..Default::default()
            }),
            agent_description: None,
            capability_tags: vec!["legal.contract.review".to_owned()],
            authorized_domains: vec!["legal".to_owned()],
            protocol_bindings: vec![ProtocolBinding {
                id: format!("{did}#binding-https"),
                protocol: "https".to_owned(),
                version: None,
                transport: Some("http".to_owned()),
                service_ref: Some(format!("{did}#download")),
                schema_ref: None,
                extra: Default::default(),
            }],
            implementation_links: vec![],
            credential_requirements: vec![],
            package_info: None,
            service_policy: None,
            network_scope: None,
            lifecycle_state: Some("active".to_owned()),
            extra: Default::default(),
        }),
    }
}

fn sample_submission() -> ResourceRegistrationSubmission {
    let did = "did:oan:SKLG:7HkPq7Vm3RdT9Ya2WcX8Ns4Bf6GjLeZu";
    let document = sample_document(did);
    let hash = hash_json_with_suite(CryptoSuite::Ed25519Sha256, &document).unwrap();
    let control = SubjectControlProofBundle {
        challenge: DidControlChallenge {
            challenge_id: "challenge-1".to_owned(),
            draft_id: "resource-draft-1".to_owned(),
            subject_did: did.to_owned(),
            did_document_hash: format!("sha256:{hash}"),
            registrar_did: REGISTRAR.to_owned(),
            purpose: "resource-registration".to_owned(),
            verification_method: format!("{did}#key-1"),
            nonce: "nonce-1".to_owned(),
            issued_at: chrono::Utc::now(),
            expires_at: chrono::Utc::now() + chrono::Duration::seconds(300),
        },
        proof: DataIntegrityProof {
            proof_type: "DataIntegrityProof".to_owned(),
            creator: format!("{did}#key-1"),
            created: chrono::Utc::now(),
            proof_purpose: "assertionMethod".to_owned(),
            proof_value: "proof".to_owned(),
            crypto_suite: Some(CryptoSuite::Ed25519Sha256),
            hash_algorithm: Some("sha256".to_owned()),
            verification_method: Some(format!("{did}#key-1")),
        },
        verified_at: Some(chrono::Utc::now()),
        verified_verification_method: Some(format!("{did}#key-1")),
        proof_hash: Some("proof-hash".to_owned()),
    };
    ResourceRegistrationSubmission {
        resource_did: did.to_owned(),
        resource_type: "skill".to_owned(),
        did_document: serde_json::to_value(&document).unwrap(),
        did_document_hash: format!("sha256:{hash}"),
        metadata: json("{\"name\": \"Contract Skill\", \"description\": \"Review contracts\"}"),
        package_version: "1".to_owned(),
        package_hash: "sha256:placeholder-package".to_owned(),
        metadata_hash: "sha256:placeholder-metadata".to_owned(),
        hash_algorithm: "sha256".to_owned(),
        registration_credential: json("{\"status\": \"active\"}"),
        subject_control_proof: serde_json::to_value(control).unwrap(),
        controller_authorization_proof: None,
    }
}

fn set_submission_domains(submission: &mut ResourceRegistrationSubmission, domains: &[&str]) {
    submission.did_document["oanMetadata"]["authorizedDomains"] =
        Value::Array(domains.iter().map(|name| Value::from(*name)).collect());
}

/// A controller's key and document.
fn controller(did: &str) -> (SigningKey, Value) {
    let key = generate_ed25519_keypair();
    let verifying_key = VerifyingKey::Ed25519 {
        suite: CryptoSuite::Ed25519Sha256,
        key: key.verifying_key(),
    };
    let method = VerificationMethod {
        id: format!("{did}#key-1"),
        method_type: "Ed25519VerificationKey2020".to_owned(),
        controller: did.to_owned(),
        crypto_suite: Some(CryptoSuite::Ed25519Sha256),
        public_key_format: Some("multibase".to_owned()),
        public_key_multibase: Some(public_key_multibase(&verifying_key)),
        public_key_jwk: None,
    };
    let mut document = json("{\"@context\": [\"https://www.w3.org/ns/did/v1\"], \"service\": []}");
    document["id"] = Value::from(did);
    document["verificationMethod"] = Value::Array(vec![serde_json::to_value(method).unwrap()]);
    for relationship in ["authentication", "assertionMethod", "capabilityInvocation"] {
        document[relationship] = Value::Array(vec![Value::from(format!("{did}#key-1"))]);
    }
    let key = SigningKey::Ed25519 {
        suite: CryptoSuite::Ed25519Sha256,
        key,
    };
    (key, document)
}

/// Lets an external controller agree to a submission.
fn attach_external_controller_proof(
    submission: &mut ResourceRegistrationSubmission,
    controller_did: &str,
) {
    let (key, document) = controller(controller_did);
    submission.did_document["oanMetadata"]["controllerDid"] = Value::from(controller_did);
    submission.did_document["oanMetadata"]["publisherDid"] = Value::from(controller_did);
    let hash =
        hash_json_with_suite(CryptoSuite::Ed25519Sha256, &submission.did_document).unwrap();
    submission.did_document_hash = format!("sha256:{hash}");
    submission.subject_control_proof["challenge"]["didDocumentHash"] =
        Value::from(submission.did_document_hash.clone());
    let mut challenge = json("{\"nonce\": \"controller-auth-nonce\"}");
    challenge["controllerDid"] = Value::from(controller_did);
    let proof = build_data_integrity_proof(
        &challenge,
        controller_did.to_owned(),
        format!("{controller_did}#key-1"),
        &key,
    )
    .unwrap();
    let mut bundle = json("{}");
    bundle["challenge"] = challenge;
    bundle["controllerDidDocument"] = document;
    bundle["proof"] = serde_json::to_value(proof).unwrap();
    submission.controller_authorization_proof = Some(bundle);
}

fn copy_of(submission: &ResourceRegistrationSubmission) -> ResourceRegistrationSubmission {
    ResourceRegistrationSubmission {
        resource_did: submission.resource_did.clone(),
        resource_type: submission.resource_type.clone(),
        did_document: submission.did_document.clone(),
        did_document_hash: submission.did_document_hash.clone(),
        metadata: submission.metadata.clone(),
        package_version: submission.package_version.clone(),
        package_hash: submission.package_hash.clone(),
        metadata_hash: submission.metadata_hash.clone(),
        hash_algorithm: submission.hash_algorithm.clone(),
        registration_credential: submission.registration_credential.clone(),
        subject_control_proof: submission.subject_control_proof.clone(),
        controller_authorization_proof: submission.controller_authorization_proof.clone(),
    }
}

fn controller_query_request(
    resource_did: &str,
    controller_did: &str,
    nonce: &str,
) -> RegistrationCredentialQueryRequest {
    let (key, document) = controller(controller_did);
    let mut challenge = json("{\"method\": \"POST\"}");
    challenge["path"] = Value::from(registration_credential_query_path(resource_did));
    challenge["resourceDid"] = Value::from(resource_did);
    challenge["controllerDid"] = Value::from(controller_did);
    challenge["verificationMethod"] = Value::from(format!("{controller_did}#key-1"));
    challenge["purpose"] = Value::from(QUERY_PURPOSE);
    challenge["requestTimestamp"] = Value::from(now().timestamp());
    challenge["requestNonce"] = Value::from(nonce);
    challenge["aud"] = Value::from(REGISTRAR);
    challenge["protocolVersion"] = Value::from(QUERY_PROTOCOL);
    let proof = build_data_integrity_proof(
        &challenge,
        controller_did.to_owned(),
        format!("{controller_did}#key-1"),
        &key,
    )
    .unwrap();
    RegistrationCredentialQueryRequest {
        challenge,
        controller_did_document: document,
        proof: serde_json::to_value(proof).unwrap(),
    }
}

fn credential_access_marker(request: &RegistrationCredentialQueryRequest) -> Value {
    let method = &request.controller_did_document["verificationMethod"][0];
    let hash = hash_json_with_suite(CryptoSuite::Ed25519Sha256, method).unwrap();
    let mut marker = json("{\"enabled\": true, \"policyVersion\": \"registration-credential-access-v1\"}");
    marker["controllerDid"] = request.challenge["controllerDid"].clone();
    marker["verifiedVerificationMethod"] = request.challenge["verificationMethod"].clone();
    marker["verifiedControllerMethodHash"] = Value::from(hash);
    marker["verifiedAt"] = Value::from(now().rfc3339());
    marker
}

fn record_with_credential(resource_did: &str, marker: Option<Value>) -> Value {
    let mut record = json(
        "{\"resourceType\": \"skill\", \"registrationCredential\": \
         {\"id\": \"urn:credential:registration\", \"proof\": {\"proofValue\": \"secret-proof\"}}}",
    );
    record["resourceDid"] = Value::from(resource_did);
    if let Some(marker) = marker {
        record["registrationCredentialAccess"] = marker;
    }
    record
}

fn list_query(after_did: Option<&str>, limit: Option<u32>) -> ResourceListQuery {
    ResourceListQuery {
        after_did: after_did.map(str::to_owned),
        limit,
    }
}

fn listed_record(did: &str) -> Value {
    let mut record = json(
        "{\"resourceType\": \"skill\", \"packageVersion\": \"1\", \
         \"didDocumentHash\": \"sha256:did\", \"metadataHash\": \"sha256:metadata\", \
         \"packageHash\": \"sha256:package\", \"authorizedDomains\": [\"technology\"], \
         \"submittedAt\": \"2026-09-18T00:00:00Z\"}",
    );
    record["resourceDid"] = Value::from(did);
    record
}

#[test]
fn build_resource_verify_request_uses_resource_contract() {
    let node = node();
    let submission = sample_submission();
    let request = build_resource_verify_and_publish_request(&node.identity, &submission).unwrap();
    assert_eq!(
        request["upstreamAuth"]["path"],
        PATH_ROOT_RESOURCES_VERIFY_AND_PUBLISH
    );
    assert_eq!(request["upstreamAuth"]["purpose"], PURPOSE_VERIFY_AND_PUBLISH);
    assert!(request["submission"]["resourceDid"]
        .as_str()
        .unwrap()
        .starts_with("did:oan:"));
}

#[test]
fn normalize_tags_accepts_sdk_and_legacy_payload_shapes() {
    let sdk = api_normalize_tags(&json(
        "{\"tags\": [\" Protocol MCP \", \"security audit\", \"protocol-mcp\"]}",
    ));
    assert_eq!(sdk["tags"], json("[\"protocol-mcp\", \"security-audit\"]"));
    assert_eq!(
        sdk["capabilityTags"],
        json("[\"protocol-mcp\", \"security-audit\"]")
    );

    let legacy = api_normalize_tags(&json(
        "{\"capabilityTags\": [\" Contract Review \", \"contract-review\"]}",
    ));
    assert_eq!(legacy["tags"], json("[\"contract-review\"]"));
    assert_eq!(legacy["capabilityTags"], json("[\"contract-review\"]"));
}

#[test]
fn registrar_stats_report_payload_matches_stats_counts() {
    let mut node = node();
    let config = StatsReportConfig {
        enabled: true,
        node_id: Some("registrar-test".to_owned()),
        endpoint: Some("http://127.0.0.1/api/internal/node-stats/report".to_owned()),
        token: Some("test-token".to_owned()),
        interval_seconds: 60,
    };
    let mut today = json("{\"resourceDid\": \"did:oan:SKLG:today\", \"resourceType\": \"skill\"}");
    today["submittedAt"] = Value::from(now().rfc3339());
    node.write(&today).unwrap();
    let mut old =
        json("{\"resourceDid\": \"did:oan:MCPS:old\", \"resourceType\": \"mcp_server\"}");
    old["submittedAt"] =
        Value::from((chrono::Utc::now() - chrono::Duration::days(40)).to_rfc3339());
    node.write(&old).unwrap();

    let stats = registrar_stats_body(REGISTRAR, &now(), &node.kept());
    let report = stats_report(&config, &stats).unwrap();
    let request = report.payload;
    assert_eq!(report.token, "test-token");
    assert_eq!(request["nodeId"], "registrar-test");
    assert_eq!(request["role"], "registrar");
    assert_eq!(request["status"], "online");
    assert_eq!(request["resourceTotals"]["registeredResources"], 2);
    assert_eq!(request["resourcesByType"]["skill"], 1);
    assert_eq!(request["resourcesByType"]["mcpServer"], 1);
    assert_eq!(request["registrationWindows"]["today"], 1);
}

#[test]
fn public_resource_record_projection_redacts_sensitive_fields() {
    let record = json(
        "{\"resourceDid\": \"did:oan:SKLG:redaction\", \"resourceType\": \"skill\", \
          \"packageVersion\": \"1\", \"didDocumentHash\": \"sha256:did\", \
          \"metadataHash\": \"sha256:metadata\", \"packageHash\": \"sha256:package\", \
          \"authorizedDomains\": [\"legal\"], \"submittedAt\": \"2026-09-18T00:00:00Z\", \
          \"registrationCredential\": {\"proof\": {\"proofValue\": \"secret-proof\"}}, \
          \"rootResponse\": {\"status\": \"resource-verified-and-queued\", \
            \"package\": {\"internal\": true}}, \
          \"registrationCredentialAccess\": {\"enabled\": true, \
            \"controllerDid\": \"did:oan:AGUS:controller\", \
            \"verifiedAuthorityBindingHash\": \"sha256:binding\"}, \
          \"databasePath\": \"/internal/registrar.db\"}",
    );

    let projection = public_resource_record_projection(&record);

    assert_eq!(projection["resourceDid"], "did:oan:SKLG:redaction");
    assert_eq!(projection["resourceType"], "skill");
    assert_eq!(projection["rootStatus"], "resource-verified-and-queued");
    assert!(projection.get("registrationCredential").is_none());
    assert!(projection.get("rootResponse").is_none());
    assert!(projection.get("registrationCredentialAccess").is_none());
    assert!(projection.get("verifiedAuthorityBindingHash").is_none());
    assert!(projection.get("databasePath").is_none());
}

#[test]
fn resource_get_handlers_return_redacted_public_projection() {
    let mut node = node();
    let resource_did = "did:oan:SKLG:redacted-handler";
    let mut record = json(
        "{\"resourceType\": \"skill\", \"packageVersion\": \"1\", \
          \"didDocumentHash\": \"sha256:did\", \"metadataHash\": \"sha256:metadata\", \
          \"packageHash\": \"sha256:package\", \"authorizedDomains\": [\"legal\"], \
          \"submittedAt\": \"2026-09-18T00:00:00Z\", \
          \"registrationCredential\": { \
            \"type\": [\"VerifiableCredential\", \"OANResourceRegistrationCredential\"], \
            \"proof\": {\"proofValue\": \"secret-proof\"}}, \
          \"rootResponse\": {\"status\": \"resource-verified-and-queued\", \
            \"privateRootDetail\": \"internal\"}, \
          \"registrationCredentialAccess\": {\"enabled\": true, \
            \"controllerDid\": \"did:oan:AGUS:controller\", \
            \"verifiedAuthorityBindingHash\": \"sha256:binding\"}}",
    );
    record["resourceDid"] = Value::from(resource_did);
    node.write(&record).unwrap();

    let detail = api_resource_detail(resource_did, node.read(resource_did)).unwrap();
    assert_eq!(detail["resourceDid"], resource_did);
    assert_eq!(detail["record"]["resourceDid"], resource_did);
    assert_eq!(detail["record"]["rootStatus"], "resource-verified-and-queued");
    assert!(detail["record"].get("registrationCredential").is_none());
    assert!(detail["record"].get("rootResponse").is_none());
    assert!(detail["record"].get("registrationCredentialAccess").is_none());

    let list = api_resources(&node.kept(), &list_query(None, None)).unwrap();
    assert_eq!(list["count"], 1);
    assert_eq!(list["items"][0]["resourceDid"], resource_did);
    assert!(list["items"][0].get("registrationCredential").is_none());
    assert!(list["items"][0].get("rootResponse").is_none());
    assert!(list["items"][0].get("registrationCredentialAccess").is_none());

    let stored = node.read(resource_did).unwrap();
    assert_eq!(
        stored["registrationCredential"]["proof"]["proofValue"],
        "secret-proof"
    );
}

#[test]
fn resource_list_uses_after_did_pagination() {
    let kept: Vec<Value> = [
        "did:oan:SKLG:pagination-c",
        "did:oan:SKLG:pagination-a",
        "did:oan:SKLG:pagination-b",
    ]
    .iter()
    .map(|did| listed_record(did))
    .collect();

    let first = api_resources(&kept, &list_query(None, Some(2))).unwrap();
    assert_eq!(first["count"], 2);
    assert_eq!(first["items"][0]["resourceDid"], "did:oan:SKLG:pagination-a");
    assert_eq!(first["items"][1]["resourceDid"], "did:oan:SKLG:pagination-b");
    assert_eq!(first["nextDid"], "did:oan:SKLG:pagination-b");
    assert_eq!(first["hasMore"], true);

    let second =
        api_resources(&kept, &list_query(Some("did:oan:SKLG:pagination-b"), Some(2))).unwrap();
    assert_eq!(second["count"], 1);
    assert_eq!(second["items"][0]["resourceDid"], "did:oan:SKLG:pagination-c");
    assert_eq!(second["hasMore"], false);
    assert!(second["nextDid"].is_null());
}

#[test]
fn sqlite_resource_list_stops_before_an_oversized_extra_row() {
    let mut oversized = json("{\"resourceDid\": \"did:oan:SKLG:stream-c\", \"resourceType\": \"skill\"}");
    oversized["diagnosticPayload"] = Value::from("x".repeat(REGISTRAR_MAX_RECORD_BYTES));
    let rows = [
        ("did:oan:SKLG:stream-a", listed_record("did:oan:SKLG:stream-a")),
        ("did:oan:SKLG:stream-b", listed_record("did:oan:SKLG:stream-b")),
        ("did:oan:SKLG:stream-c", oversized),
    ];

    let mut page = ResourcePage::new(&list_query(None, Some(2))).unwrap();
    let limit = page.size() as usize;
    for (did, record) in rows.iter().take(limit) {
        page = page.with(did.to_string(), &record.to_string()).unwrap();
    }
    let probe = page.last_seen();
    let has_more = rows.iter().any(|(did, _)| *did > probe.as_str());
    let page = page.finish(has_more);

    assert_eq!(page["count"], 2);
    assert_eq!(page["hasMore"], true);
    assert_eq!(page["nextDid"], "did:oan:SKLG:stream-b");
}

#[test]
fn resource_list_rejects_invalid_page_limits() {
    for limit in [Some(0), Some(REGISTRAR_MAX_PAGE_SIZE + 1)] {
        let err = api_resources(&vec![], &list_query(None, limit)).unwrap_err();

        assert_eq!(err.status, 400);
        assert_eq!(err.message, "invalid_resource_page_limit");
    }
}

#[test]
fn resource_list_rejects_oversized_records_before_projection() {
    let mut record = listed_record("did:oan:SKLG:oversized-record");
    record["diagnosticPayload"] = Value::from("x".repeat(REGISTRAR_MAX_RECORD_BYTES));

    let err = api_resources(&vec![record], &list_query(None, None)).unwrap_err();

    assert_eq!(err.status, 400);
    assert_eq!(err.message, "resource_record_too_large");
}

#[test]
fn resource_detail_returns_not_found_for_missing_record() {
    let node = node();
    let did = "did:oan:SKLG:missing-resource";

    let err = api_resource_detail(did, node.read(did)).unwrap_err();

    assert_eq!(err.status, 404);
    assert_eq!(err.message, "resource_not_found");
}

#[test]
fn registration_credential_query_returns_vc_for_authorized_new_record() {
    let mut node = node();
    let resource_did = "did:oan:SKLG:credential-query";
    let controller_did = "did:oan:AGUS:CredentialQueryController";
    let request = controller_query_request(resource_did, controller_did, "query-nonce-1");
    let marker = credential_access_marker(&request);
    node.write(&record_with_credential(resource_did, Some(marker))).unwrap();

    let body = node.query(resource_did, &request).unwrap();

    assert_eq!(body["resourceDid"], resource_did);
    assert_eq!(body["controllerDid"], controller_did);
    assert_eq!(body["registrationCredential"]["id"], "urn:credential:registration");
}

#[test]
fn registration_credential_query_rejects_record_without_access_marker() {
    let mut node = node();
    let resource_did = "did:oan:SKLG:no-access-marker-query";
    let controller_did = "did:oan:AGUS:NoAccessMarkerController";
    node.write(&record_with_credential(resource_did, None)).unwrap();
    let request = controller_query_request(resource_did, controller_did, "query-nonce-no-marker");

    let err = node.query(resource_did, &request).unwrap_err();

    assert_eq!(err.status, 403);
    assert_eq!(err.message, "registration_credential_access_denied");
}

#[test]
fn registration_credential_query_rejects_controller_mismatch_and_replay() {
    let mut node = node();
    let resource_did = "did:oan:SKLG:query-replay";
    let controller_did = "did:oan:AGUS:ExpectedController";
    let request = controller_query_request(resource_did, controller_did, "query-nonce-replay");
    let marker = credential_access_marker(&request);
    node.write(&record_with_credential(resource_did, Some(marker))).unwrap();

    let wrong = controller_query_request(
        resource_did,
        "did:oan:AGUS:WrongController",
        "query-nonce-wrong-controller",
    );
    let err = node.query(resource_did, &wrong).unwrap_err();
    assert_eq!(err.status, 403);

    node.query(resource_did, &request).unwrap();
    let err = node.query(resource_did, &request).unwrap_err();
    assert_eq!(err.status, 403);
    assert_eq!(err.message, "registration_credential_query_replay");
}

#[test]
fn registration_credential_query_rejects_tampered_challenge_binding() {
    let mut node = node();
    let resource_did = "did:oan:SKLG:query-tamper";
    let controller_did = "did:oan:AGUS:TamperController";
    let mut request = controller_query_request(resource_did, controller_did, "query-nonce-tamper");
    let marker = credential_access_marker(&request);
    node.write(&record_with_credential(resource_did, Some(marker))).unwrap();
    request.challenge["path"] = Value::from("/resources/wrong/registration-credential");

    let err = node.query(resource_did, &request).unwrap_err();

    assert_eq!(err.status, 400);
    assert_eq!(err.message, "invalid_registration_credential_query");
}

#[test]
fn registration_credential_query_rejects_expired_challenge() {
    let mut node = node();
    let resource_did = "did:oan:SKLG:query-expired";
    let controller_did = "did:oan:AGUS:ExpiredController";
    let mut request = controller_query_request(resource_did, controller_did, "query-nonce-expired");
    let marker = credential_access_marker(&request);
    node.write(&record_with_credential(resource_did, Some(marker))).unwrap();
    let skew = i64::from(REGISTRATION_CREDENTIAL_QUERY_MAX_CLOCK_SKEW_SECONDS);
    let past = chrono::Utc::now() - chrono::Duration::seconds(skew + 1);
    request.challenge["requestTimestamp"] = serde_json::to_value(past).unwrap();

    let err = node.query(resource_did, &request).unwrap_err();

    assert_eq!(err.status, 400);
    assert_eq!(err.message, "registration_credential_query_expired");
}

#[test]
fn registration_credential_query_rejects_controller_method_hash_mismatch() {
    let mut node = node();
    let resource_did = "did:oan:SKLG:query-method-hash-mismatch";
    let controller_did = "did:oan:AGUS:MethodHashMismatchController";
    let request = controller_query_request(
        resource_did,
        controller_did,
        "query-nonce-method-hash-mismatch",
    );
    let mut marker = credential_access_marker(&request);
    marker["verifiedControllerMethodHash"] = Value::from("sha256:mismatch");
    node.write(&record_with_credential(resource_did, Some(marker))).unwrap();

    let err = node.query(resource_did, &request).unwrap_err();

    assert_eq!(err.status, 403);
    assert_eq!(err.message, "registration_credential_access_denied");
}

#[test]
fn register_resource_posts_to_root_and_records_resource() {
    let mut node = node();
    let submission = sample_submission();
    let did = submission.resource_did.clone();
    let root = |request: &Value| {
        assert!(request["submission"].get("registrationCredential").is_none());
        queued(request)
    };
    let response = node
        .register(submission, Err("not asked".to_owned()), &root)
        .unwrap();
    assert_eq!(response["status"], "submitted");
    assert_eq!(response["resourceDid"], did.as_str());
    assert_eq!(response["registrationCredential"]["issuer"], REGISTRAR);
    assert_eq!(
        response["registrationCredential"]["credentialSubject"]["resourceDid"],
        did.as_str()
    );
    assert_eq!(
        response["registrationCredential"]["credentialSubject"]["authorizedDomains"],
        json("[\"legal\"]")
    );
    assert!(response["registrationCredential"]["proof"]["proofValue"].is_string());
    let stored = node.read(&did).unwrap();
    assert_eq!(stored["resourceDid"], did.as_str());
    assert_eq!(stored["authorizedDomains"], json("[\"legal\"]"));
    assert!(stored["registrationCredential"]["proof"]["proofValue"].is_string());
    assert!(stored.get("registrationCredentialAccess").is_none());
}

#[test]
fn register_resource_rejects_external_controller_without_proof() {
    let mut node = node();
    let mut submission = sample_submission();
    submission.did_document["oanMetadata"]["controllerDid"] =
        Value::from("did:oan:AGUS:ControllerMissingProof");

    let err = node
        .register(submission, Err("not asked".to_owned()), &root_is_not_called)
        .unwrap_err();

    assert_eq!(err.status, 400);
    assert_eq!(err.message, "controller_authorization_proof_required");
}

#[test]
fn register_resource_accepts_external_controller_proof_and_forwards_it() {
    let mut node = node();
    let controller_did = "did:oan:AGUS:9ControllerProofAccepted";
    let mut submission = sample_submission();
    attach_external_controller_proof(&mut submission, controller_did);
    let did = submission.resource_did.clone();
    let root = |request: &Value| {
        assert!(request["submission"]["controllerAuthorizationProof"].is_object());
        queued(request)
    };

    let response = node
        .register(submission, Ok(format!("{controller_did}#key-1")), &root)
        .unwrap();

    assert_eq!(response["status"], "submitted");
    let stored = node.read(&did).unwrap();
    let access = &stored["registrationCredentialAccess"];
    assert_eq!(access["enabled"], true);
    assert_eq!(access["controllerDid"], "did:oan:AGUS:9ControllerProofAccepted");
    assert!(access["verifiedVerificationMethod"].is_string());
    assert!(access["verifiedControllerMethodHash"].is_string());
    assert!(access["verifiedAuthorityBindingHash"].is_string());
    let detail = api_resource_detail(&did, node.read(&did)).unwrap();
    assert!(detail["record"].get("registrationCredentialAccess").is_none());
}

#[test]
fn register_resource_rejects_replayed_external_controller_proof() {
    let mut node = node();
    let controller_did = "did:oan:AGUS:9ControllerReplay";
    let method = format!("{controller_did}#key-1");
    let mut submission = sample_submission();
    attach_external_controller_proof(&mut submission, controller_did);
    let again = copy_of(&submission);
    node.register(submission, Ok(method.clone()), &queued).unwrap();

    let err = node.register(again, Ok(method), &queued).unwrap_err();

    assert_eq!(err.status, 400);
    assert_eq!(err.message, "controller_authorization_nonce_replayed");
}

#[test]
fn register_resource_rejects_tampered_external_controller_proof() {
    let mut node = node();
    let mut submission = sample_submission();
    attach_external_controller_proof(&mut submission, "did:oan:AGUS:9ControllerProofTampered");
    submission.controller_authorization_proof.as_mut().unwrap()["proof"]["proofValue"] =
        Value::from("tampered");

    let err = node
        .register(
            submission,
            Err("controller_authorization_proof_invalid".to_owned()),
            &root_is_not_called,
        )
        .unwrap_err();

    assert_eq!(err.status, 400);
    assert_eq!(err.message, "controller_authorization_proof_invalid");
}

#[test]
fn register_resource_rejects_domains_outside_registrar_grant_before_root_call() {
    let mut node = node();
    let mut submission = sample_submission();
    set_submission_domains(&mut submission, &["finance"]);

    let err = node
        .register(submission, Err("not asked".to_owned()), &root_is_not_called)
        .unwrap_err();

    assert_eq!(err.status, 400);
    assert_eq!(err.message, "unauthorized_domains");
}

#[test]
fn register_resource_rejects_missing_resource_domains_before_root_call() {
    let mut node = node();
    node.domains = vec!["*".to_owned()];
    let mut submission = sample_submission();
    set_submission_domains(&mut submission, &[]);

    let err = node
        .register(submission, Err("not asked".to_owned()), &root_is_not_called)
        .unwrap_err();

    assert_eq!(err.status, 400);
    assert_eq!(err.message, "resource_domains_required");
}

#[test]
fn register_resource_rejects_metadata_authorized_domains_mismatch() {
    let mut node = node();
    node.domains = vec!["*".to_owned()];
    let mut submission = sample_submission();
    submission.metadata = json(
        "{\"name\": \"Contract Skill\", \"description\": \"Review contracts\", \
          \"authorizedDomains\": [\"finance\"]}",
    );

    let err = node
        .register(submission, Err("not asked".to_owned()), &root_is_not_called)
        .unwrap_err();

    assert_eq!(err.status, 400);
    assert_eq!(err.message, "authorized_domains_mismatch");
}

#[test]
fn wildcard_registrar_accepts_concrete_resource_domains() {
    let mut node = node();
    node.domains = vec!["*".to_owned()];
    let mut submission = sample_submission();
    set_submission_domains(&mut submission, &["finance.payments"]);

    let response = node
        .register(submission, Err("not asked".to_owned()), &queued)
        .unwrap();

    assert_eq!(
        response["registrationCredential"]["credentialSubject"]["authorizedDomains"],
        json("[\"finance.payments\"]")
    );
}

#[test]
fn register_resource_rejects_did_ans_resource() {
    let mut node = node();
    let mut submission = sample_submission();
    submission.resource_did = "did:ans:SKLG:7HkPq7Vm3RdT9Ya2WcX8Ns4Bf6GjLeZu".to_owned();
    submission.did_document["id"] = Value::from(submission.resource_did.as_str());
    let err = node
        .register(submission, Err("not asked".to_owned()), &root_is_not_called)
        .unwrap_err();
    assert_eq!(err.status, 400);
}

#[test]
fn registered_controllers_read_their_credential() {
    let mut node = node();
    let controller_did = "did:oan:AGUS:9ControllerReadsBack";
    let mut submission = sample_submission();
    attach_external_controller_proof(&mut submission, controller_did);
    let did = submission.resource_did.clone();
    let (key, document) = controller(controller_did);
    submission.controller_authorization_proof.as_mut().unwrap()["controllerDidDocument"] =
        document.clone();
    let method = format!("{controller_did}#key-1");
    node.register(submission, Ok(method.clone()), &queued).unwrap();

    let mut request = controller_query_request(&did, controller_did, "read-back");
    let stranger = node.query(&did, &request).unwrap_err();
    assert_eq!(stranger.message, "registration_credential_access_denied");

    request.controller_did_document = document;
    let unsigned = node.query(&did, &request).unwrap_err();
    assert_eq!(unsigned.status, 401);
    assert_eq!(unsigned.message, "invalid_controller_signature");

    let proof = build_data_integrity_proof(
        &request.challenge,
        controller_did.to_owned(),
        method,
        &key,
    )
    .unwrap();
    request.proof = serde_json::to_value(proof).unwrap();
    let body = node.query(&did, &request).unwrap();
    assert_eq!(body["registrationCredential"]["issuer"], REGISTRAR);
}

#[test]
fn root_refusals_are_passed_on() {
    let mut node = node();
    let refused = |_: &Value| {
        RootReply::Answered(409, Some(json("{\"error\": \"resource_already_registered\"}")))
    };
    let err = node
        .register(sample_submission(), Err("not asked".to_owned()), &refused)
        .unwrap_err();
    assert_eq!((err.status, err.message.as_str()), (409, "resource_already_registered"));

    let silent = |_: &Value| RootReply::Answered(502, None);
    let err = node
        .register(sample_submission(), Err("not asked".to_owned()), &silent)
        .unwrap_err();
    assert_eq!((err.status, err.message.as_str()), (502, "root_resource_registration_failed"));

    let away = |_: &Value| RootReply::Unreachable("connection refused".to_owned());
    let err = node
        .register(sample_submission(), Err("not asked".to_owned()), &away)
        .unwrap_err();
    assert_eq!((err.status, err.message.as_str()), (500, "connection refused"));
    assert!(node.records.is_empty());
}

/// The refusal of a query after a change to the request or to the record.
fn refused_query(
    change: &dyn Fn(&mut RegistrationCredentialQueryRequest, &mut Value),
) -> (u16, String) {
    let mut node = node();
    let did = "did:oan:SKLG:refused";
    let mut request = controller_query_request(did, "did:oan:AGUS:Refused", "nonce");
    let marker = credential_access_marker(&request);
    let mut record = record_with_credential(did, Some(marker));
    change(&mut request, &mut record);
    node.write(&record).unwrap();
    let error = node.query(did, &request).unwrap_err();
    assert!(node.nonces.is_empty(), "a refused query must not use up a nonce");
    (error.status, error.message)
}

#[test]
fn queries_have_to_be_bound_to_the_resource_and_the_node() {
    let expected = (400, "invalid_registration_credential_query".to_owned());
    for key in ["method", "path", "resourceDid", "purpose", "aud", "protocolVersion"] {
        assert_eq!(
            refused_query(&|request, _| request.challenge[key] = Value::from("other")),
            expected
        );
        assert_eq!(refused_query(&|request, _| request.challenge[key] = Value::Null), expected);
    }
    for nonce in [Value::from(" \t"), Value::Null] {
        assert_eq!(
            refused_query(&|request, _| request.challenge["requestNonce"] = nonce.clone()),
            expected
        );
    }
}

#[test]
fn queries_from_the_future_are_refused() {
    let expected = (400, "registration_credential_query_expired".to_owned());
    let skew = REGISTRATION_CREDENTIAL_QUERY_MAX_CLOCK_SKEW_SECONDS;
    for written in [
        Value::from(now().plus_seconds(skew + 10).timestamp()),
        Value::from(Instant::new(8210266876799, 0).unwrap().timestamp()),
        Value::from("yesterday"),
        Value::Null,
    ] {
        assert_eq!(
            refused_query(&|request, _| request.challenge["requestTimestamp"] = written.clone()),
            expected
        );
    }
}

#[test]
fn markers_decide_who_may_read() {
    let expected = (403, "registration_credential_access_denied".to_owned());
    let marked = |key: &'static str, value: Value| {
        refused_query(&move |_, record| {
            record["registrationCredentialAccess"][key] = value.clone()
        })
    };
    assert_eq!(marked("enabled", Value::Bool(false)), expected);
    assert_eq!(marked("enabled", Value::from("true")), expected);
    assert_eq!(marked("controllerDid", Value::from("did:oan:AGUS:Other")), expected);
    assert_eq!(marked("controllerDid", Value::Null), expected);
    assert_eq!(marked("verifiedVerificationMethod", Value::from("did:other#1")), expected);
    assert_eq!(marked("verifiedControllerMethodHash", Value::Null), expected);
    assert_eq!(
        refused_query(&|_, record| record["registrationCredentialAccess"] = Value::from("open")),
        expected
    );
    assert_eq!(
        refused_query(&|_, record| {
            record.as_object_mut().unwrap().remove("registrationCredential");
        }),
        expected
    );
}

#[test]
fn controllers_have_to_prove_themselves() {
    let expected = (401, "invalid_controller_signature".to_owned());
    assert_eq!(
        refused_query(&|request, _| {
            request.controller_did_document["id"] = Value::from("did:oan:AGUS:Other")
        }),
        expected
    );
    assert_eq!(
        refused_query(&|request, _| {
            for key in ["capabilityInvocation", "authentication", "assertionMethod"] {
                request.controller_did_document[key] = json("[]");
            }
        }),
        expected
    );
    assert_eq!(
        refused_query(&|request, _| {
            request.controller_did_document["verificationMethod"][0]["publicKeyMultibase"] =
                Value::from("not a key")
        }),
        expected
    );
    assert_eq!(
        refused_query(&|request, _| request.proof["proofValue"] = Value::from("tampered")),
        expected
    );
    assert_eq!(
        refused_query(&|request, _| {
            request.challenge["requestNonce"] = Value::from("another")
        }),
        expected
    );
}

#[test]
fn any_relationship_lets_a_controller_act() {
    for kept in ["capabilityInvocation", "authentication", "assertionMethod"] {
        let mut node = node();
        let did = "did:oan:SKLG:relationships";
        let mut request = controller_query_request(did, "did:oan:AGUS:Any", kept);
        for key in ["capabilityInvocation", "authentication", "assertionMethod"] {
            if key != kept {
                request.controller_did_document[key] = json("[]");
            }
        }
        let marker = credential_access_marker(&request);
        node.write(&record_with_credential(did, Some(marker))).unwrap();
        assert!(node.query(did, &request).is_ok());
    }
}

#[test]
fn queries_for_missing_records_find_nothing() {
    let mut node = node();
    let request = controller_query_request("did:oan:SKLG:none", "did:oan:AGUS:None", "nonce");
    let error = node.query("did:oan:SKLG:none", &request).unwrap_err();
    assert_eq!((error.status, error.message.as_str()), (404, "resource_not_found"));
}

#[test]
fn registrations_stop_where_the_outside_fails() {
    let node = node();
    let active = GovernanceView::Active;
    let cleared = |submission: ResourceRegistrationSubmission| match receive_submission(&active, submission) {
        Ok(Intake::Cleared(cleared)) => cleared,
        _ => panic!("the submission needs no controller"),
    };
    let error = cleared(sample_submission()).accept(Err("no document".to_owned())).err().unwrap();
    assert_eq!((error.status, error.message.as_str()), (500, "no document"));

    let admitted = cleared(sample_submission()).accept(Ok(node.document())).ok().unwrap();
    let reply = RootReply::Answered(200, None);
    let published = admitted.answered(&node.identity, reply, &now()).ok().unwrap();
    let outcome = Err("no signature".to_owned());
    let error = published
        .signed(&node.identity, AUTHORIZATION_PURPOSE, outcome, &now())
        .err()
        .unwrap();
    assert_eq!((error.status, error.message.as_str()), (500, "no signature"));

    let admitted = cleared(sample_submission()).accept(Ok(node.document())).ok().unwrap();
    let reply = RootReply::Answered(200, None);
    let published = admitted.answered(&node.identity, reply, &now()).ok().unwrap();
    let record = published
        .signed(&node.identity, AUTHORIZATION_PURPOSE, Ok(json("{\"p\": 1}")), &now())
        .ok()
        .unwrap();
    assert_eq!(record.record_to_write()["rootResponse"], json("{}"));
    assert_eq!(record.record_to_write()["registrationCredential"]["proof"], json("{\"p\": 1}"));
    let error = record.written(Err(ApiError::internal("disk full"))).unwrap_err();
    assert_eq!((error.status, error.message.as_str()), (500, "disk full"));
}

#[test]
fn controllers_without_the_named_method_are_refused() {
    let mut node = node();
    let controller_did = "did:oan:AGUS:9ControllerOtherMethod";
    let mut submission = sample_submission();
    attach_external_controller_proof(&mut submission, controller_did);
    let method = Ok(format!("{controller_did}#key-2"));
    let error = node.register(submission, method, &queued).unwrap_err();
    assert_eq!(
        (error.status, error.message.as_str()),
        (400, "controller_authorization_method_missing")
    );
    assert!(node.records.is_empty());
}

#[test]
fn controller_nonces_that_cannot_be_stored_are_reported() {
    let mut submission = sample_submission();
    attach_external_controller_proof(&mut submission, "did:oan:AGUS:9ControllerNonce");
    let resource_did = submission.resource_did.clone();
    let check = match receive_submission(&GovernanceView::Active, submission) {
        Ok(Intake::NeedsController(check)) => check,
        _ => panic!("the controller has to be checked"),
    };
    let expected = check.expectation(REGISTRAR, AUTHORIZATION_PURPOSE);
    assert_eq!(expected.resource_did, resource_did);
    assert_eq!(expected.controller_did, "did:oan:AGUS:9ControllerNonce");
    assert_eq!(expected.publisher_did.as_deref(), Some("did:oan:AGUS:9ControllerNonce"));
    assert_eq!(expected.did_document_hash, check.submitted().did_document_hash);
    assert_eq!(expected.metadata_hash, "sha256:placeholder-metadata");
    assert_eq!(expected.purpose, AUTHORIZATION_PURPOSE);
    assert_eq!(expected.max_clock_skew_seconds, 60);
    let check = check.verified(Ok("m".to_owned())).ok().unwrap();
    assert_eq!(check.nonce_to_store(), "controller-auth-nonce");
    let error = check.stored(Err("invalid_nonce_store".to_owned())).err().unwrap();
    assert_eq!((error.status, error.message.as_str()), (400, "invalid_nonce_store"));
}

#[test]
fn metadata_may_repeat_the_domains_but_nothing_else() {
    let mut node = node();
    let mut submission = sample_submission();
    submission.metadata = json("{\"authorizedDomains\": [\"legal\"]}");
    assert!(node.register(submission, Err("not asked".to_owned()), &queued).is_ok());
    let mut submission = sample_submission();
    submission.metadata = json("{\"authorizedDomains\": [\"legal\", 4]}");
    let error = node
        .register(submission, Err("not asked".to_owned()), &root_is_not_called)
        .unwrap_err();
    assert_eq!((error.status, error.message.as_str()), (400, "invalid_authorized_domains"));
    let mut submission = sample_submission();
    submission.metadata = json("{\"authorizedDomains\": \"legal\"}");
    assert!(node.register(submission, Err("not asked".to_owned()), &queued).is_ok());
}

#[test]
fn requests_to_root_are_signed_by_the_node() {
    let node = node();
    let mut submission = sample_submission();
    attach_external_controller_proof(&mut submission, "did:oan:AGUS:9ControllerSigned");
    let request = build_resource_verify_and_publish_request(&node.identity, &submission).unwrap();
    let auth = &request["upstreamAuth"];
    assert_eq!(request["registrarDid"], REGISTRAR);
    assert_eq!(auth["protocolVersion"], oan_protocol::OAN_RESOURCE_PROTOCOL_VERSION);
    assert_eq!(auth["method"], "POST");
    assert_eq!(auth["aud"], node.identity.root_did.as_str());
    assert_eq!(auth["proof"]["creator"], REGISTRAR);
    assert_eq!(auth["proof"]["verificationMethod"], format!("{REGISTRAR}#key-1"));
    assert!(auth["requestId"].as_str().unwrap().starts_with("resource-verify-and-publish-"));
    assert!(auth["requestNonce"].as_str().unwrap().starts_with("resource-verify-and-publish-"));
    let hash = hash_json_with_suite(CryptoSuite::Ed25519Sha256, &request["submission"]).unwrap();
    assert_eq!(auth["bodyHash"], hash);
    let typed: oan_protocol::ResourceVerifyAndPublishRequest =
        serde_json::from_value(request.clone()).unwrap();
    assert!(typed.submission.registration_credential.is_null());
    assert_eq!(typed.submission.resource_did, submission.resource_did);
    assert_eq!(typed.submission.metadata_hash, submission.metadata_hash);
    let key = node.identity.signer.signing_key().verifying_key();
    let mut payload = auth.clone();
    let proof = payload.as_object_mut().unwrap().remove("proof").unwrap();
    let proof: DataIntegrityProof = serde_json::from_value(proof).unwrap();
    assert!(oan_crypto::verify_payload_with_proof(&payload, &proof, &key).is_ok());
}

#[test]
fn signatures_of_requests_are_told_apart() {
    let key = "AQIDBAUGBwgJCgsMDQ4PEBESExQVFhcYGRobHB0eHyA";
    let other = "AgIDBAUGBwgJCgsMDQ4PEBESExQVFhcYGRobHB0eHyA";
    for algorithm in ["Ed25519", "SM2"] {
        let identity = |secret: &str| NodeIdentity {
            did: REGISTRAR.to_owned(),
            root_did: "did:oan:AGRT:root".to_owned(),
            signer: Signer::load(algorithm, secret).unwrap(),
            authorization: None,
        };
        let (node, stranger) = (identity(key), identity(other));
        let request = build_resource_verify_and_publish_request(&node, &sample_submission()).unwrap();
        assert!(is_signed_by_node(&node, &request));
        assert!(!is_signed_by_node(&stranger, &request));
        for key in ["purpose", "aud", "bodyHash", "requestNonce", "requestTimestamp"] {
            let mut changed = request.clone();
            changed["upstreamAuth"][key] = Value::from("changed");
            assert!(!is_signed_by_node(&node, &changed));
        }
        let mut unsigned = request.clone();
        unsigned["upstreamAuth"]["proof"] = Value::Null;
        assert!(!is_signed_by_node(&node, &unsigned));
        unsigned["upstreamAuth"] = Value::from("none");
        assert!(!is_signed_by_node(&node, &unsigned));
        assert!(!is_signed_by_node(&node, &json("{}")));
    }
}

#[test]
fn nodes_present_the_credential_that_authorizes_them() {
    let mut node = node();
    let request =
        build_resource_verify_and_publish_request(&node.identity, &sample_submission()).unwrap();
    assert!(request.get("authorizationCredential").is_none());
    assert_eq!(request.as_object().unwrap().len(), 3);
    let held = json("{\"issuer\": \"did:oan:INRT:root\", \"proof\": {\"proofValue\": \"x\"}}");
    node.identity.authorization = Some(held.clone());
    let root = |request: &Value| {
        assert_eq!(request["authorizationCredential"], held);
        assert_eq!(request["registrarDid"], REGISTRAR);
        queued(request)
    };
    node.register(sample_submission(), Err("not asked".to_owned()), &root).unwrap();
    let request =
        build_resource_verify_and_publish_request(&node.identity, &sample_submission()).unwrap();
    assert!(is_signed_by_node(&node.identity, &request));
    let typed: oan_protocol::ResourceVerifyAndPublishRequest =
        serde_json::from_value(request).unwrap();
    assert_eq!(typed.registrar_did, REGISTRAR);
}

#[test]
fn requests_say_when_they_were_made() {
    let node = node();
    let request =
        build_resource_verify_and_publish_request(&node.identity, &sample_submission()).unwrap();
    let auth = &request["upstreamAuth"];
    let made = chrono::DateTime::parse_from_rfc3339(auth["requestTimestamp"].as_str().unwrap());
    assert!(chrono::Utc::now().timestamp() - made.unwrap().timestamp() < 60);
    let parts = |key: &str| -> Vec<String> {
        let rest = auth[key].as_str().unwrap();
        let rest = rest.strip_prefix("resource-verify-and-publish-").unwrap();
        rest.split('-').map(str::to_owned).collect()
    };
    let lower_hex = |part: &str| part.chars().all(|c| matches!(c, '0'..='9' | 'a'..='f'));
    let (id, nonce) = (parts("requestId"), parts("requestNonce"));
    assert_eq!((id.len(), nonce.len()), (2, 3));
    assert!(id[0].chars().all(|c| c.is_ascii_digit()) && nonce[0].chars().all(|c| c.is_ascii_digit()));
    assert!(id[1].len() == 16 && nonce[1].len() == 16 && nonce[2].len() == 8);
    assert!(lower_hex(&id[1]) && lower_hex(&nonce[1]) && lower_hex(&nonce[2]));
}

#[test]
fn nodes_that_are_not_active_fail_closed() {
    assert!(check_governance(&GovernanceView::Active).is_ok());
    for (view, message) in [
        (GovernanceView::Inactive, "registrar_inactive"),
        (GovernanceView::Revoked, "registrar_revoked"),
        (GovernanceView::Stale, "registrar_governance_view_stale"),
    ] {
        let error = check_governance(&view).unwrap_err();
        assert_eq!((error.status, error.message.as_str()), (403, message));
        let mut node = node();
        node.view = view;
        let error = node
            .register(sample_submission(), Err("not asked".to_owned()), &root_is_not_called)
            .unwrap_err();
        assert_eq!((error.status, error.message.as_str()), (403, message));
        assert!(node.kept().is_empty() && node.nonces.is_empty());
    }
}

#[test]
fn submissions_out_of_form_are_refused() {
    let refused = |change: &dyn Fn(&mut ResourceRegistrationSubmission)| {
        let mut submission = sample_submission();
        change(&mut submission);
        let error = receive_submission(&GovernanceView::Active, submission).err().unwrap();
        assert_eq!(error.status, 400);
        error.message
    };
    assert_eq!(
        refused(&|submission| submission.package_version = " ".to_owned()),
        "empty_package_version"
    );
    assert_eq!(
        refused(&|submission| submission.did_document["id"] = Value::from("did:oan:SKLG:other")),
        "did_document_id_mismatch"
    );
    assert!(refused(&|submission| submission.resource_type = "planet".to_owned())
        .starts_with("unknown variant"));
}

#[test]
fn external_controllers_have_to_agree() {
    let mut submission = sample_submission();
    assert!(!needs_controller_check(&submission).unwrap());
    submission.did_document["oanMetadata"]["controllerDid"] =
        Value::from(submission.resource_did.as_str());
    assert!(!needs_controller_check(&submission).unwrap());
    submission.did_document["oanMetadata"]["controllerDid"] = Value::from("did:oan:AGUS:Other");
    let error = needs_controller_check(&submission).unwrap_err();
    assert_eq!(error.message, "controller_authorization_proof_required");
    attach_external_controller_proof(&mut submission, "did:oan:AGUS:Other");
    assert!(needs_controller_check(&submission).unwrap());
}

#[test]
fn records_hold_what_was_registered() {
    let submission = sample_submission();
    let record = registration_record(
        &submission,
        "hash",
        json("{\"c\": 1}"),
        json("{\"status\": \"queued\"}"),
        "2026-09-18T00:00:00Z",
    );
    assert_eq!(
        record,
        json(
            "{\"resourceDid\": \"did:oan:SKLG:7HkPq7Vm3RdT9Ya2WcX8Ns4Bf6GjLeZu\", \
              \"resourceType\": \"skill\", \"packageVersion\": \"1\", \
              \"didDocumentHash\": \"hash\", \"metadataHash\": \"sha256:placeholder-metadata\", \
              \"packageHash\": \"sha256:placeholder-package\", \
              \"authorizedDomains\": [\"legal\"], \"registrationCredential\": {\"c\": 1}, \
              \"rootResponse\": {\"status\": \"queued\"}, \
              \"submittedAt\": \"2026-09-18T00:00:00Z\"}"
        )
    );
}
