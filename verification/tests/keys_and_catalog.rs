use oan_semantic_recommender::SemanticRecommender;
use registrar_node::access::{
    build_access_marker, check_query_method, registration_credential_nonce_outcome,
};
use registrar_node::catalog::{
    api_normalize_tags, api_registration_domain_catalog, api_registration_suggestions,
    api_suggest_tags, catalog_of_covered, describe_for_tags, domain_catalog, domain_covered_by_scope, read_tags,
    suggested_tags_answer, CatalogDomain, Taxonomy,
};
use registrar_node::credential::{issue_resource_registration_credential, signing_key_id};
use registrar_node::crypto::{crypto_suite_from_algorithm, CryptoSuite, Signer};
use registrar_node::documents::{
    controller_method_hash, document_controller, document_domains, document_publisher,
    find_acting_method, find_relationship_method, VerificationRelationship,
};
use registrar_node::submission::ResourceRegistrationSubmission;
use registrar_node::time::Instant;
use serde_json::Value;

fn json(text: &str) -> Value {
    serde_json::from_str(text).unwrap()
}

fn list(names: &[&str]) -> Vec<String> {
    names.iter().map(|name| name.to_string()).collect()
}

#[test]
fn algorithms_name_their_suite() {
    assert_eq!(crypto_suite_from_algorithm("Ed25519"), Ok(CryptoSuite::Ed25519Sha256));
    assert_eq!(crypto_suite_from_algorithm("SM2"), Ok(CryptoSuite::Sm2Sm3));
    assert_eq!(
        crypto_suite_from_algorithm("RSA"),
        Err("unsupported_algorithm: RSA".to_string())
    );
}

#[test]
fn key_files_are_read_or_refused() {
    let complaint = |algorithm: &str, secret: &str| match Signer::load(algorithm, secret) {
        Ok(_) => panic!("{algorithm} {secret} was read"),
        Err(message) => message,
    };
    let secret = "AQIDBAUGBwgJCgsMDQ4PEBESExQVFhcYGRobHB0eHyA";
    let signer = Signer::load("Ed25519", secret).unwrap();
    assert_eq!(signer.crypto_suite(), CryptoSuite::Ed25519Sha256);
    assert!(signer.can_sign());
    assert_eq!(
        signer.signing_key().crypto_suite(),
        oan_core::CryptoSuite::Ed25519Sha256
    );
    let signer = Signer::load("SM2", secret).unwrap();
    assert_eq!(signer.crypto_suite(), CryptoSuite::Sm2Sm3);
    assert!(signer.can_sign());
    assert_eq!(complaint("RSA", secret), "unsupported_algorithm: RSA");
    assert_eq!(complaint("Ed25519", "AQID"), "invalid signing key");
    assert_eq!(complaint("SM2", &"A".repeat(43)), "invalid signing key");
    assert!(complaint("Ed25519", "a b").starts_with("Invalid symbol"));
    let last = Signer::load("SM2", "_____v_______________3ID32shxgUrU7v0CTnVQSI").unwrap();
    assert!(!last.can_sign());
}

#[test]
fn nonce_complaints_become_refusals() {
    assert!(registration_credential_nonce_outcome(Ok(())).is_ok());
    let replayed = registration_credential_nonce_outcome(Err(
        "trusted_upstream_nonce_replayed".to_string()
    ))
    .unwrap_err();
    assert_eq!(
        (replayed.status, replayed.message.as_str()),
        (403, "registration_credential_query_replay")
    );
    let broken = registration_credential_nonce_outcome(Err("invalid_nonce_store".to_string()))
        .unwrap_err();
    assert_eq!(
        (broken.status, broken.message.as_str()),
        (400, "invalid_registration_credential_query")
    );
}

fn document() -> Value {
    json(
        "{\"id\": \"did:c\", \"verificationMethod\": [ \
            {\"id\": \"did:c#1\", \"x\": 1}, {\"id\": \"did:c#2\"}, {\"id\": \"did:c#1\", \"x\": 2}], \
          \"capabilityInvocation\": [\"did:c#2\"], \"authentication\": [\"did:c#1\"], \
          \"assertionMethod\": [\"did:c#1\", \"did:c#3\"], \
          \"oanMetadata\": {\"controllerDid\": \"did:k\", \"publisherDid\": \"did:p\", \
            \"authorizedDomains\": [\"finance\", \"legal\"]}}",
    )
}

#[test]
fn documents_are_read() {
    let document = document();
    assert_eq!(document_domains(&document), list(&["finance", "legal"]));
    assert_eq!(document_controller(&document).as_deref(), Some("did:k"));
    assert_eq!(document_publisher(&document).as_deref(), Some("did:p"));
    let bare = json("{}");
    assert!(document_domains(&bare).is_empty());
    assert!(document_controller(&bare).is_none() && document_publisher(&bare).is_none());

    let related = |relationship: VerificationRelationship, id: &str| {
        find_relationship_method(&document, relationship, id).cloned()
    };
    let invocation = VerificationRelationship::CapabilityInvocation;
    assert_eq!(related(invocation, "did:c#2"), Some(json("{\"id\": \"did:c#2\"}")));
    assert_eq!(related(invocation, "did:c#1"), None);
    assert_eq!(
        related(VerificationRelationship::Authentication, "did:c#1"),
        Some(json("{\"id\": \"did:c#1\", \"x\": 1}"))
    );
    assert_eq!(related(VerificationRelationship::AssertionMethod, "did:c#3"), None);
    assert_eq!(find_acting_method(&document, "did:c#1").unwrap()["x"], 1);
    assert!(find_acting_method(&document, "did:c#2").is_some());
    assert!(find_acting_method(&document, "did:c#3").is_none());
}

#[test]
fn methods_are_hashed_in_canonical_form() {
    let document = json("{\"verificationMethod\": [{\"b\": \"x\", \"id\": \"m\", \"a\": 1}]}");
    let hash = controller_method_hash(CryptoSuite::Ed25519Sha256, &document, "m").unwrap();
    let method = &document["verificationMethod"][0];
    let suite = oan_core::CryptoSuite::Ed25519Sha256;
    assert_eq!(hash, oan_crypto::hash_json_with_suite(suite, method).unwrap());
    assert_eq!(hash, oan_crypto::sha256_hex("{\"a\":1,\"b\":\"x\",\"id\":\"m\"}"));
    let sm3 = controller_method_hash(CryptoSuite::Sm2Sm3, &document, "m").unwrap();
    assert_eq!(sm3, oan_crypto::sm3_hex("{\"a\":1,\"b\":\"x\",\"id\":\"m\"}"));
    let err = controller_method_hash(CryptoSuite::Sm2Sm3, &document, "n").unwrap_err();
    assert_eq!(
        (err.status, err.message.as_str()),
        (400, "controller_authorization_method_missing")
    );
}

#[test]
fn credentials_say_what_was_submitted() {
    let submission = ResourceRegistrationSubmission {
        resource_did: "did:oan:SKLG:x".to_string(),
        resource_type: "skill".to_string(),
        did_document: document(),
        did_document_hash: "sha256:d".to_string(),
        metadata: json("{\"lifecycleState\": \"draft\"}"),
        package_version: "1".to_string(),
        package_hash: "sha256:p".to_string(),
        metadata_hash: "sha256:m".to_string(),
        hash_algorithm: "sha256".to_string(),
        registration_credential: Value::Null,
        subject_control_proof: Value::Null,
        controller_authorization_proof: None,
    };
    let issued = Instant::new(1789726830, 0).unwrap().timestamp();
    let credential = issue_resource_registration_credential("did:r", &submission, "hash", &issued);
    assert_eq!(
        credential,
        json(
            "{\"@context\": [\"https://www.w3.org/2018/credentials/v1\", \
                \"https://openagenet.org/credentials/v1\"], \
              \"id\": \"urn:oan:credential:resource-registration:did_oan_SKLG_x\", \
              \"type\": [\"VerifiableCredential\", \"OANResourceRegistrationCredential\"], \
              \"issuer\": \"did:r\", \"issuanceDate\": \"2026-09-18T10:20:30Z\", \
              \"credentialSubject\": {\"id\": \"did:oan:SKLG:x\", \
                \"resourceDid\": \"did:oan:SKLG:x\", \"resourceType\": \"skill\", \
                \"didDocumentHash\": \"hash\", \"metadataHash\": \"sha256:m\", \
                \"packageHash\": \"sha256:p\", \"packageVersion\": \"1\", \
                \"hashAlgorithm\": \"sha256\", \"authorizedDomains\": [\"finance\", \"legal\"], \
                \"lifecycleState\": \"draft\"}, \
              \"credentialStatus\": {\"type\": \"OANResourceRegistrationStatus\", \
                \"status\": \"active\"}}"
        )
    );
    assert_eq!(signing_key_id("did:r"), "did:r#key-1");
}

#[test]
fn tags_are_normalized_once_and_in_order() {
    let payload = json("{\"tags\": [\"B\", \" a \", 3, \"b\"], \"capabilityTags\": [\"c\"]}");
    assert_eq!(read_tags(&payload), list(&["B", " a ", "b"]));
    let body = api_normalize_tags(&payload);
    assert_eq!(body, json("{\"tags\": [\"a\", \"b\"], \"capabilityTags\": [\"a\", \"b\"]}"));
    let fallback = json("{\"tags\": \"no list\", \"capabilityTags\": [\"c\"]}");
    assert_eq!(api_normalize_tags(&fallback)["tags"], json("[\"c\"]"));
    assert_eq!(api_normalize_tags(&json("7"))["tags"], json("[]"));
}

#[test]
fn tag_requests_are_described() {
    assert_eq!(
        describe_for_tags(&json("{\"query\": \"q\", \"name\": \"n\", \"locale\": \"en\", \"endpoint\": 4}")),
        json("{\"resourceType\": null, \"name\": \"n\", \"description\": \"q\", \"locale\": \"en\"}")
    );
    assert_eq!(
        describe_for_tags(&json(
            "{\"description\": \"d\", \"query\": \"q\", \"endpoint\": \"e\", \
              \"manifestText\": \"m\", \"schemaText\": \"s\"}"
        )),
        json(
            "{\"resourceType\": null, \"name\": \"\", \"description\": \"d\", \"endpoint\": \"e\", \
              \"manifestText\": \"m\", \"schemaText\": \"s\"}"
        )
    );
}

#[test]
fn suggestions_come_from_the_recommender() {
    let recommender = SemanticRecommender::new().unwrap();
    let scope = list(&["*"]);
    let payload = json("{\"name\": \"Contract Skill\", \"description\": \"Review legal contracts\"}");
    let found = api_registration_suggestions(&recommender, "did:r", &scope, &payload).unwrap();
    let context = oan_semantic_recommender::RegistrationSuggestionContext {
        registrar_did: "did:r".to_string(),
        allowed_domains: scope.clone(),
        max_authorized_domain_candidates: 8,
        max_capability_tag_candidates: 12,
    };
    let input = serde_json::from_value(payload.clone()).unwrap();
    let expected = recommender.suggest_registration_metadata(input, context).unwrap();
    assert_eq!(found, serde_json::to_value(&expected).unwrap());

    let tags = api_suggest_tags(&recommender, "did:r", &scope, &payload).unwrap();
    assert_eq!(tags["capabilityTags"], found["capabilityTags"]);
    let values: Vec<Value> = expected
        .capability_tags
        .iter()
        .map(|tag| Value::from(tag.value.as_str()))
        .collect();
    assert!(!values.is_empty());
    assert_eq!(tags["suggestions"], Value::Array(values));

    let err = api_suggest_tags(&recommender, "did:r", &scope, &json("{}")).unwrap_err();
    assert_eq!(err.status, 400);
    assert_eq!(err.message, "invalid request: name or description is required");
}

#[test]
fn suggested_tags_are_listed_by_value() {
    let found = json("{\"capabilityTags\": [{\"value\": \"a\", \"score\": 0.5}, {\"value\": \"b\"}]}");
    assert_eq!(
        suggested_tags_answer(&found),
        json(
            "{\"suggestions\": [\"a\", \"b\"], \
              \"capabilityTags\": [{\"value\": \"a\", \"score\": 0.5}, {\"value\": \"b\"}]}"
        )
    );
    assert_eq!(
        suggested_tags_answer(&json("{}")),
        json("{\"suggestions\": [], \"capabilityTags\": []}")
    );
}

#[test]
fn the_catalog_holds_the_domains_in_scope() {
    let recommender = SemanticRecommender::new().unwrap();
    let held = recommender.taxonomy();
    let everything = api_registration_domain_catalog(&recommender, "did:r", &list(&["*"]));
    assert_eq!(everything["registrarDid"], "did:r");
    assert_eq!(everything["authorizedDomains"], json("[\"*\"]"));
    assert_eq!(everything["catalogVersion"], held.version);
    assert_eq!(
        everything["snapshotHash"],
        serde_json::to_value(&held.snapshot_hash).unwrap()
    );
    let entries = everything["domains"].as_array().unwrap();
    assert_eq!(entries.len(), held.domains.len());
    for (entry, domain) in entries.iter().zip(held.domains.iter()) {
        assert_eq!(entry["id"], domain.id.as_str());
        assert_eq!(entry["label"], domain.label.as_str());
        assert_eq!(entry["aliases"], serde_json::to_value(&domain.aliases).unwrap());
        assert_eq!(entry["selectable"], true);
    }
    let scope = list(&[held.domains[0].id.as_str()]);
    let some = api_registration_domain_catalog(&recommender, "did:r", &scope);
    for domain in &held.domains {
        let covered = held.covers_authorized_domains(&[domain.id.clone()], &scope);
        assert_eq!(domain_covered_by_scope(&recommender, &domain.id, &scope), covered);
        let listed = some["domains"]
            .as_array()
            .unwrap()
            .iter()
            .any(|entry| entry["id"] == domain.id.as_str());
        assert_eq!(listed, covered);
    }
    assert!(some["domains"].as_array().unwrap().len() < entries.len());
    let nothing = api_registration_domain_catalog(&recommender, "did:r", &list(&[]));
    assert_eq!(nothing["domains"], json("[]"));
}

#[test]
fn scopes_cover_what_lies_below_them() {
    let recommender = SemanticRecommender::new().unwrap();
    let held = recommender.taxonomy();
    let parent = |id: &str| {
        let domain = held.domains.iter().rev().find(|domain| domain.id == id);
        domain.and_then(|domain| domain.parent.clone())
    };
    let below: Vec<String> = held
        .domains
        .iter()
        .filter(|domain| domain.parent.is_some())
        .take(20)
        .map(|domain| domain.id.clone())
        .collect();
    assert!(!below.is_empty());
    for id in &below {
        let mut above = vec![id.clone()];
        while let Some(next) = parent(above.last().unwrap()) {
            above.push(next);
        }
        for granted in held.domains.iter().take(60).map(|domain| &domain.id).chain(above.iter()) {
            let covered = domain_covered_by_scope(&recommender, id, &vec![granted.clone()]);
            assert_eq!(covered, above.contains(granted));
        }
        assert!(!domain_covered_by_scope(&recommender, &above[1], &vec![id.clone()]));
        assert!(domain_covered_by_scope(&recommender, id, &list(&["nowhere", &above[1]])));
    }
    assert!(!domain_covered_by_scope(&recommender, "nowhere", &list(&["nowhere"])));
    assert!(domain_covered_by_scope(&recommender, "nowhere", &list(&["*"])));
}

#[test]
fn catalogs_of_other_taxonomies_have_the_same_form() {
    let recommender = SemanticRecommender::new().unwrap();
    let taxonomy = Taxonomy {
        version: 7,
        snapshot_hash: None,
        domains: vec![CatalogDomain {
            id: "unheard-of".to_string(),
            label: "L".to_string(),
            parent: None,
            aliases: list(&["a"]),
        }],
    };
    assert_eq!(
        domain_catalog(&recommender, "did:r", &list(&["*"]), &taxonomy),
        json(
            "{\"registrarDid\": \"did:r\", \"authorizedDomains\": [\"*\"], \"catalogVersion\": 7, \
              \"snapshotHash\": null, \"domains\": [{\"id\": \"unheard-of\", \"label\": \"L\", \
              \"aliases\": [\"a\"], \"selectable\": true}]}"
        )
    );
    let none = domain_catalog(&recommender, "did:r", &list(&["legal"]), &taxonomy);
    assert_eq!(none["domains"], json("[]"));
    let covered = catalog_of_covered("did:r", &list(&["legal"]), &taxonomy, &vec![true]);
    assert_eq!(covered["domains"][0]["id"], "unheard-of");
    let uncovered = catalog_of_covered("did:r", &list(&["*"]), &taxonomy, &vec![false]);
    assert_eq!(uncovered["domains"], json("[]"));
}

#[test]
fn methods_are_judged_by_key_hash_and_signature() {
    let marker = build_access_marker("did:c", "did:c#1", "hash", "binding", "2026-09-18T00:00:00Z");
    assert_eq!(
        marker,
        json(
            "{\"enabled\": true, \"controllerDid\": \"did:c\", \
              \"verifiedVerificationMethod\": \"did:c#1\", \
              \"verifiedControllerMethodHash\": \"hash\", \
              \"verifiedAuthorityBindingHash\": \"binding\", \
              \"verifiedAt\": \"2026-09-18T00:00:00Z\", \
              \"policyVersion\": \"registration-credential-access-v1\"}"
        )
    );
    assert!(check_query_method(&marker, true, "hash", true).is_ok());
    let refused = |holds_key: bool, hash: &str, signature: bool| {
        let error = check_query_method(&marker, holds_key, hash, signature).unwrap_err();
        (error.status, error.message)
    };
    let unsigned = (401, "invalid_controller_signature".to_string());
    let denied = (403, "registration_credential_access_denied".to_string());
    assert_eq!(refused(false, "hash", true), unsigned);
    assert_eq!(refused(false, "other", false), unsigned);
    assert_eq!(refused(true, "other", true), denied);
    assert_eq!(refused(true, "other", false), denied);
    assert_eq!(refused(true, "hash", false), unsigned);
    assert!(check_query_method(&json("{}"), true, "hash", true).is_err());
}
