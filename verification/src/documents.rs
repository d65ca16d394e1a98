//! DID documents, as JSON: what the node reads in them.

use crate::crypto::{self, CryptoSuite};
use crate::error::{self, ApiError};
use crate::json::{self, JsonModel};
use crate::text;
use serde_json::Value;
use vstd::prelude::*;

verus! {

/// The relationships under which a document lists verification methods.
#[derive(Clone, Copy, Debug, PartialEq, Eq, Structural)]
pub enum VerificationRelationship {
    CapabilityInvocation,
    Authentication,
    AssertionMethod,
}

/// The key of a document under which a relationship is listed.
pub open spec fn relationship_key(relationship: VerificationRelationship) -> Seq<char> {
    match relationship {
        VerificationRelationship::CapabilityInvocation => "capabilityInvocation"@,
        VerificationRelationship::Authentication => "authentication"@,
        VerificationRelationship::AssertionMethod => "assertionMethod"@,
    }
}

/// The texts in a list under a key, none where there is no list.
pub open spec fn listed_texts(value: JsonModel, key: Seq<char>) -> Seq<Seq<char>> {
    match json::array_field(value, key) {
        Some(items) => json::texts_among(items),
        None => Seq::empty(),
    }
}

/// The values in a list under a key, none where there is no list.
pub open spec fn listed_values(value: JsonModel, key: Seq<char>) -> Seq<JsonModel> {
    match json::array_field(value, key) {
        Some(items) => items,
        None => Seq::empty(),
    }
}

/// The domains that a document claims or grants.
pub open spec fn authorized_domains(document: JsonModel) -> Seq<Seq<char>> {
    match json::field(document, "oanMetadata"@) {
        Some(metadata) => listed_texts(metadata, "authorizedDomains"@),
        None => Seq::empty(),
    }
}

/// The DID of the one who controls the resource of a document.
pub open spec fn controller_did(document: JsonModel) -> Option<Seq<char>> {
    match json::field(document, "oanMetadata"@) {
        Some(metadata) => json::text_field(metadata, "controllerDid"@),
        None => None,
    }
}

/// The DID of the one who publishes the resource of a document.
pub open spec fn publisher_did(document: JsonModel) -> Option<Seq<char>> {
    match json::field(document, "oanMetadata"@) {
        Some(metadata) => json::text_field(metadata, "publisherDid"@),
        None => None,
    }
}

/// The first of the methods that has the given id.
pub open spec fn first_method(methods: Seq<JsonModel>, id: Seq<char>) -> Option<JsonModel>
    decreases methods.len(),
{
    if methods.len() == 0 {
        None
    } else if json::text_field(methods.first(), "id"@) == Some(id) {
        Some(methods.first())
    } else {
        first_method(methods.drop_first(), id)
    }
}

/// The verification method of a document that has the given id.
pub open spec fn method_of(document: JsonModel, id: Seq<char>) -> Option<JsonModel> {
    first_method(listed_values(document, "verificationMethod"@), id)
}

/// The verification method with the given id, where the document lists it under the
/// relationship.
pub open spec fn related_method(
    document: JsonModel,
    relationship: VerificationRelationship,
    id: Seq<char>,
) -> Option<JsonModel> {
    if listed_texts(document, relationship_key(relationship)).contains(id) {
        method_of(document, id)
    } else {
        None
    }
}

/// The verification method with which the subject of a document may act: one to invoke
/// capabilities with, else to authenticate with, else to make assertions with.
pub open spec fn acting_method(document: JsonModel, id: Seq<char>) -> Option<JsonModel> {
    match related_method(document, VerificationRelationship::CapabilityInvocation, id) {
        Some(method) => Some(method),
        None => match related_method(document, VerificationRelationship::Authentication, id) {
            Some(method) => Some(method),
            None => related_method(document, VerificationRelationship::AssertionMethod, id),
        },
    }
}

/// An optional JSON value as a mathematical value.
pub open spec fn opt_contents(value: Option<&Value>) -> Option<JsonModel> {
    match value {
        Some(held) => Some(json::contents(*held)),
        None => None,
    }
}

/// The texts in a list under a key.
fn texts_under(value: &Value, key: &str) -> (found: Vec<String>)
    ensures
        text::texts(found@) == listed_texts(json::contents(*value), key@),
{
    if let Some(list) = json::get(value, key) {
        if let Some(items) = list.as_array() {
            return json::texts_in(items);
        }
    }
    let found: Vec<String> = Vec::new();
    assert(text::texts(found@) == Seq::<Seq<char>>::empty());
    found
}

/// The domains that a document claims or grants.
pub fn document_domains(document: &Value) -> (found: Vec<String>)
    ensures
        text::texts(found@) == authorized_domains(json::contents(*document)),
{
    match json::get(document, "oanMetadata") {
        Some(metadata) => texts_under(metadata, "authorizedDomains"),
        None => {
            let found: Vec<String> = Vec::new();
            assert(text::texts(found@) == Seq::<Seq<char>>::empty());
            found
        },
    }
}

/// The DID of the one who controls the resource of a document.
pub fn document_controller(document: &Value) -> (found: Option<String>)
    ensures
        text::opt_text(found) == controller_did(json::contents(*document)),
{
    match json::get(document, "oanMetadata") {
        Some(metadata) => json::get_text(metadata, "controllerDid"),
        None => None,
    }
}

/// The DID of the one who publishes the resource of a document.
pub fn document_publisher(document: &Value) -> (found: Option<String>)
    ensures
        text::opt_text(found) == publisher_did(json::contents(*document)),
{
    match json::get(document, "oanMetadata") {
        Some(metadata) => json::get_text(metadata, "publisherDid"),
        None => None,
    }
}

/// The verification method of a document that has the given id.
pub fn find_method<'a>(document: &'a Value, id: &str) -> (found: Option<&'a Value>)
    ensures
        opt_contents(found) == method_of(json::contents(*document), id@),
{
    let methods = match json::get(document, "verificationMethod") {
        Some(list) => match list.as_array() {
            Some(methods) => methods,
            None => {
                return None;
            },
        },
        None => {
            return None;
        },
    };
    let ghost models = json::contents_of(methods@);
    let mut i: usize = 0;
    assert(models.skip(0) == models);
    while i < methods.len()
        invariant
            i <= methods@.len(),
            models == json::contents_of(methods@),
            method_of(json::contents(*document), id@) == first_method(models.skip(i as int), id@),
        decreases methods@.len() - i,
    {
        proof {
            assert(models.skip(i as int).first() == json::contents(methods@[i as int]));
            assert(models.skip(i as int).drop_first() == models.skip(i + 1));
        }
        if let Some(held) = json::get_text(&methods[i], "id") {
            if text::same_text(held.as_str(), id) {
                return Some(&methods[i]);
            }
        }
        i = i + 1;
    }
    None
}

/// Whether a text stands in a list.
fn stands_among(items: &Vec<String>, wanted: &str) -> (found: bool)
    ensures
        found == text::texts(items@).contains(wanted@),
{
    let mut i: usize = 0;
    while i < items.len()
        invariant
            i <= items@.len(),
            forall|j: int| 0 <= j < i ==> (#[trigger] items@[j])@ != wanted@,
        decreases items@.len() - i,
    {
        if text::same_text(items[i].as_str(), wanted) {
            assert(text::texts(items@)[i as int] == wanted@);
            return true;
        }
        i = i + 1;
    }
    assert forall|j: int| 0 <= j < items@.len() implies text::texts(items@)[j] != wanted@ by {
        assert(text::texts(items@)[j] == items@[j]@);
    }
    false
}

/// The verification method with the given id, where the document lists it under the
/// relationship.
pub fn find_relationship_method<'a>(
    document: &'a Value,
    relationship: VerificationRelationship,
    expected: &str,
) -> (found: Option<&'a Value>)
    ensures
        opt_contents(found) == related_method(json::contents(*document), relationship, expected@),
{
    let key = match relationship {
        VerificationRelationship::CapabilityInvocation => "capabilityInvocation",
        VerificationRelationship::Authentication => "authentication",
        VerificationRelationship::AssertionMethod => "assertionMethod",
    };
    if stands_among(&texts_under(document, key), expected) {
        find_method(document, expected)
    } else {
        None
    }
}

/// The verification method with which the subject of a document may act.
pub fn find_acting_method<'a>(document: &'a Value, expected: &str) -> (found: Option<&'a Value>)
    ensures
        opt_contents(found) == acting_method(json::contents(*document), expected@),
{
    let first = find_relationship_method(
        document,
        VerificationRelationship::CapabilityInvocation,
        expected,
    );
    if first.is_some() {
        return first;
    }
    let second = find_relationship_method(
        document,
        VerificationRelationship::Authentication,
        expected,
    );
    if second.is_some() {
        return second;
    }
    find_relationship_method(document, VerificationRelationship::AssertionMethod, expected)
}

/// What the hash of a verification method of a document comes to.
pub open spec fn method_hash(
    suite: CryptoSuite,
    document: JsonModel,
    id: Seq<char>,
) -> error::Answer<Seq<char>> {
    match method_of(document, id) {
        Some(method) => Ok(crypto::json_hash(suite, method)),
        None => Err(error::bad_request("controller_authorization_method_missing"@)),
    }
}

/// The hash of a verification method of the controller's document.
pub fn controller_method_hash(suite: CryptoSuite, document: &Value, id: &str) -> (result: Result<
    String,
    ApiError,
>)
    ensures
        match method_hash(suite, json::contents(*document), id@) {
            Ok(hash) => result is Ok && result->Ok_0@ == hash,
            Err(refusal) => result is Err && result->Err_0@ == refusal,
        },
{
    let method = match find_method(document, id) {
        Some(method) => method,
        None => {
            return Err(ApiError::bad_request("controller_authorization_method_missing"));
        },
    };
    match crypto::hash_json_with_suite(suite, method) {
        Ok(hash) => Ok(hash),
        Err(complaint) => Err(ApiError::internal(complaint.as_str())),
    }
}

/// The method that a subject acts with is the one of that id in its document, whatever the
/// relationship that lists it.
pub proof fn law_acting_method_is_the_method_of_its_id(document: JsonModel, id: Seq<char>)
    ensures
        acting_method(document, id) is Some ==> acting_method(document, id) == method_of(
            document,
            id,
        ),
{
}

/// A found method has the id that was asked for.
pub proof fn law_found_methods_have_the_id(methods: Seq<JsonModel>, id: Seq<char>)
    ensures
        first_method(methods, id) is Some ==> json::text_field(
            first_method(methods, id)->0,
            "id"@,
        ) == Some(id),
    decreases methods.len(),
{
    if methods.len() > 0 {
        law_found_methods_have_the_id(methods.drop_first(), id);
    }
}

/// What a document says of its resource stands in its metadata: the domains in their list, text
/// by text, the controller and the publisher each under their own name.
pub proof fn law_documents_say_it_in_their_metadata(
    document: JsonModel,
    metadata: JsonModel,
    items: Seq<JsonModel>,
)
    requires
        json::field(document, "oanMetadata"@) == Some(metadata),
    ensures
        json::field(metadata, "authorizedDomains"@) == Some(JsonModel::Array(items))
            ==> authorized_domains(document) == json::texts_among(items),
        !(json::member_or_null(metadata, "authorizedDomains"@) is Array) ==> authorized_domains(
            document,
        ) == Seq::<Seq<char>>::empty(),
        controller_did(document) == json::text_field(metadata, "controllerDid"@),
        publisher_did(document) == json::text_field(metadata, "publisherDid"@),
{
}

/// A document without metadata says nothing of its resource.
pub proof fn law_documents_without_metadata_say_nothing(document: JsonModel)
    requires
        json::field(document, "oanMetadata"@) is None,
    ensures
        authorized_domains(document) == Seq::<Seq<char>>::empty(),
        controller_did(document) is None,
        publisher_did(document) is None,
{
}

/// Of the methods with an id the first is found: one of them is found wherever there is one, and
/// none before it has the id.
pub proof fn law_the_first_method_is_found(methods: Seq<JsonModel>, id: Seq<char>, i: int)
    requires
        0 <= i < methods.len(),
        json::text_field(methods[i], "id"@) == Some(id),
        forall|j: int| 0 <= j < i ==> json::text_field(#[trigger] methods[j], "id"@) != Some(id),
    ensures
        first_method(methods, id) == Some(methods[i]),
    decreases i,
{
    if i > 0 {
        let rest = methods.drop_first();
        assert forall|j: int| 0 <= j < i - 1 implies json::text_field(
            #[trigger] rest[j],
            "id"@,
        ) != Some(id) by {
            assert(rest[j] == methods[j + 1]);
        }
        law_the_first_method_is_found(rest, id, i - 1);
    }
}

/// Where no method has the id, none is found.
pub proof fn law_no_other_method_is_found(methods: Seq<JsonModel>, id: Seq<char>)
    requires
        forall|j: int|
            0 <= j < methods.len() ==> json::text_field(#[trigger] methods[j], "id"@) != Some(id),
    ensures
        first_method(methods, id) is None,
    decreases methods.len(),
{
    if methods.len() > 0 {
        let rest = methods.drop_first();
        assert forall|j: int| 0 <= j < rest.len() implies json::text_field(
            #[trigger] rest[j],
            "id"@,
        ) != Some(id) by {
            assert(rest[j] == methods[j + 1]);
        }
        law_no_other_method_is_found(rest, id);
    }
}

/// The methods of a document stand in their list, and nowhere else.
pub proof fn law_methods_stand_in_their_list(
    document: JsonModel,
    id: Seq<char>,
    methods: Seq<JsonModel>,
)
    ensures
        json::field(document, "verificationMethod"@) == Some(JsonModel::Array(methods))
            ==> method_of(document, id) == first_method(methods, id),
        !(json::member_or_null(document, "verificationMethod"@) is Array) ==> method_of(
            document,
            id,
        ) is None,
{
}

/// A subject may act with a method if and only if its document has it and lists its id under one
/// of the three relationships.
pub proof fn law_methods_have_to_be_listed(document: JsonModel, id: Seq<char>)
    ensures
        related_method(document, VerificationRelationship::CapabilityInvocation, id) is Some <==> (
        method_of(document, id) is Some && listed_texts(
            document,
            "capabilityInvocation"@,
        ).contains(id)),
        related_method(document, VerificationRelationship::Authentication, id) is Some <==> (
        method_of(document, id) is Some && listed_texts(document, "authentication"@).contains(id)),
        related_method(document, VerificationRelationship::AssertionMethod, id) is Some <==> (
        method_of(document, id) is Some && listed_texts(document, "assertionMethod"@).contains(id)),
        acting_method(document, id) is Some <==> (method_of(document, id) is Some && (listed_texts(
            document,
            "capabilityInvocation"@,
        ).contains(id) || listed_texts(document, "authentication"@).contains(id) || listed_texts(
            document,
            "assertionMethod"@,
        ).contains(id))),
{
}

/// Lists are read from the list under their key, and are empty where there is no list.
pub proof fn law_lists_stand_under_their_key(
    value: JsonModel,
    key: Seq<char>,
    items: Seq<JsonModel>,
)
    ensures
        json::field(value, key) == Some(JsonModel::Array(items)) ==> listed_texts(value, key)
            == json::texts_among(items) && listed_values(value, key) == items,
        !(json::member_or_null(value, key) is Array) ==> listed_texts(value, key) == Seq::<
            Seq<char>,
        >::empty() && listed_values(value, key) == Seq::<JsonModel>::empty(),
{
}

/// The hash of a method is that of the whole method which the document has under the id. Where
/// it has none, that is what the refusal says.
pub proof fn law_hashes_are_of_the_documents_method(
    suite: CryptoSuite,
    document: JsonModel,
    id: Seq<char>,
    method: JsonModel,
)
    ensures
        method_of(document, id) == Some(method) ==> method_hash(suite, document, id) == Ok::<
            Seq<char>,
            error::Refusal,
        >(crypto::json_hash(suite, method)),
        method_of(document, id) is None ==> method_hash(suite, document, id) == Err::<
            Seq<char>,
            error::Refusal,
        >(error::Refusal { status: 400, message: "controller_authorization_method_missing"@ }),
{
}

/// A value that may be missing is seen as what it is.
pub proof fn law_values_are_seen_as_they_are(value: Option<&Value>)
    ensures
        opt_contents(value) is Some <==> value is Some,
        value is Some ==> opt_contents(value)->0 == json::contents(*value->0),
{
}

} // verus!
