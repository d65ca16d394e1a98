//! Resource records: what of a record is public.

use crate::error::{self, ApiError};
use crate::json::{self, JsonModel};
use serde_json::Value;
use vstd::prelude::*;

verus! {

/// The largest record, in bytes of its text, that a listing shows.
pub const REGISTRAR_MAX_RECORD_BYTES: usize = 1048576;

/// The most bytes of record text that one page of a listing is made of.
pub const REGISTRAR_MAX_PAGE_BYTES: usize = 8388608;

/// The members of a record that anyone may read.
pub open spec fn public_fields() -> Seq<Seq<char>> {
    seq![
        "resourceDid"@,
        "resourceType"@,
        "packageVersion"@,
        "didDocumentHash"@,
        "metadataHash"@,
        "packageHash"@,
        "authorizedDomains"@,
        "submittedAt"@,
    ]
}

/// The status that Root answered the registration with, if the record holds it.
pub open spec fn root_status(record: JsonModel) -> Option<Seq<char>> {
    match json::field(record, "rootResponse"@) {
        Some(response) => json::text_field(response, "status"@),
        None => None,
    }
}

/// What the public sees of a record: its public members as they are, and Root's status.
pub open spec fn public_members(record: JsonModel) -> Map<Seq<char>, JsonModel> {
    Map::new(
        |key: Seq<char>|
            if key == "rootStatus"@ {
                root_status(record) is Some
            } else {
                public_fields().contains(key) && json::field(record, key) is Some
            },
        |key: Seq<char>|
            if key == "rootStatus"@ {
                JsonModel::Text(root_status(record)->0)
            } else {
                json::field(record, key)->0
            },
    )
}

/// The public form of a record.
pub open spec fn public_record(record: JsonModel) -> JsonModel {
    JsonModel::Object(public_members(record))
}

/// The length of a text in UTF-8 bytes.
pub open spec fn byte_length(text: Seq<char>) -> nat {
    vstd::utf8::encode_utf8(text).len()
}

/// What a page shows of a record's text, where the page holds `page_bytes` bytes already.
pub open spec fn listed_item(text: Seq<char>, page_bytes: int) -> error::Answer<JsonModel> {
    if byte_length(text) > REGISTRAR_MAX_RECORD_BYTES {
        Err(error::bad_request("resource_record_too_large"@))
    } else if page_bytes + byte_length(text) > REGISTRAR_MAX_PAGE_BYTES {
        Err(error::bad_request("resource_page_too_large"@))
    } else {
        match json::parsed(text) {
            Ok(record) => Ok(public_record(record)),
            Err(complaint) => Err(error::internal(complaint)),
        }
    }
}

/// The public names are all different from the name of Root's status.
proof fn root_status_is_no_public_field()
    ensures
        !public_fields().contains("rootStatus"@),
{
    reveal_strlit("rootStatus");
    reveal_strlit("resourceDid");
    reveal_strlit("resourceType");
    reveal_strlit("packageVersion");
    reveal_strlit("didDocumentHash");
    reveal_strlit("metadataHash");
    reveal_strlit("packageHash");
    reveal_strlit("authorizedDomains");
    reveal_strlit("submittedAt");
    assert("rootStatus"@[0] == 'r' && "rootStatus"@.len() == 10);
}

/// Copies a member of the record, if the record has it.
fn copy_member(projection: &mut Value, record: &Value, key: &str)
    requires
        json::contents(*old(projection)) is Object,
    ensures
        json::contents(*final(projection)) == JsonModel::Object(
            match json::field(json::contents(*record), key@) {
                Some(member) => json::contents(*old(projection))->Object_0.insert(key@, member),
                None => json::contents(*old(projection))->Object_0,
            },
        ),
{
    if let Some(member) = json::get(record, key) {
        json::set(projection, key, member.clone());
    }
}

/// What the public sees of a record.
pub fn public_resource_record_projection(record: &Value) -> (projection: Value)
    ensures
        json::contents(projection) == public_record(json::contents(*record)),
{
    let mut projection = json::object();
    copy_member(&mut projection, record, "resourceDid");
    copy_member(&mut projection, record, "resourceType");
    copy_member(&mut projection, record, "packageVersion");
    copy_member(&mut projection, record, "didDocumentHash");
    copy_member(&mut projection, record, "metadataHash");
    copy_member(&mut projection, record, "packageHash");
    copy_member(&mut projection, record, "authorizedDomains");
    copy_member(&mut projection, record, "submittedAt");
    let ghost source = json::contents(*record);
    let ghost copied = json::contents(projection)->Object_0;
    proof {
        root_status_is_no_public_field();
        assert forall|key: Seq<char>| public_fields().contains(key) implies key == "resourceDid"@
            || key == "resourceType"@ || key == "packageVersion"@ || key == "didDocumentHash"@
            || key == "metadataHash"@ || key == "packageHash"@ || key == "authorizedDomains"@
            || key == "submittedAt"@ by {}
        let names = public_fields();
        assert(names[0] == "resourceDid"@ && names[1] == "resourceType"@ && names[2]
            == "packageVersion"@ && names[3] == "didDocumentHash"@ && names[4] == "metadataHash"@
            && names[5] == "packageHash"@ && names[6] == "authorizedDomains"@ && names[7]
            == "submittedAt"@);
        assert forall|key: Seq<char>| copied.contains_key(key) <==> (public_fields().contains(key)
            && json::field(source, key) is Some) by {}
        assert forall|key: Seq<char>| copied.contains_key(key) implies copied[key] == json::field(
            source,
            key,
        )->0 by {}
    }
    if let Some(response) = json::get(record, "rootResponse") {
        if let Some(status) = json::get_text(response, "status") {
            json::set(&mut projection, "rootStatus", json::text(status.as_str()));
        }
    }
    assert(json::contents(projection)->Object_0 =~= public_members(source));
    projection
}

/// What a page shows of a record's text. Counts the text towards the page.
pub fn public_resource_record_projection_from_json(value_json: &str, page_bytes: &mut usize) -> (result:
    Result<Value, ApiError>)
    ensures
        match listed_item(value_json@, *old(page_bytes) as int) {
            Ok(item) => result is Ok && json::contents(result->Ok_0) == item,
            Err(refusal) => result is Err && result->Err_0@ == refusal,
        },
        *final(page_bytes) == (if byte_length(value_json@) > REGISTRAR_MAX_RECORD_BYTES {
            *old(page_bytes) as int
        } else if *old(page_bytes) + byte_length(value_json@) > usize::MAX {
            usize::MAX as int
        } else {
            *old(page_bytes) + byte_length(value_json@)
        }),
{
    let record_bytes: usize = value_json.as_bytes().len();
    if record_bytes > REGISTRAR_MAX_RECORD_BYTES {
        return Err(ApiError::bad_request("resource_record_too_large"));
    }
    *page_bytes = page_bytes.saturating_add(record_bytes);
    if *page_bytes > REGISTRAR_MAX_PAGE_BYTES {
        return Err(ApiError::bad_request("resource_page_too_large"));
    }
    match json::parse(value_json) {
        Ok(record) => Ok(public_resource_record_projection(&record)),
        Err(complaint) => Err(ApiError::internal(complaint.as_str())),
    }
}

/// What the public is told of one resource.
pub open spec fn detail_answer(did: Seq<char>, record: Option<JsonModel>) -> error::Answer<
    JsonModel,
> {
    match record {
        Some(held) => Ok(
            JsonModel::Object(
                Map::empty().insert("resourceDid"@, JsonModel::Text(did)).insert(
                    "record"@,
                    public_record(held),
                ),
            ),
        ),
        None => Err(error::not_found("resource_not_found"@)),
    }
}

/// Tells the public of one resource, whose record is given if it was found.
pub fn api_resource_detail(did: &str, record: Option<&Value>) -> (result: Result<Value, ApiError>)
    ensures
        match detail_answer(
            did@,
            match record {
                Some(held) => Some(json::contents(*held)),
                None => None,
            },
        ) {
            Ok(body) => result is Ok && json::contents(result->Ok_0) == body,
            Err(refusal) => result is Err && result->Err_0@ == refusal,
        },
{
    match record {
        Some(held) => {
            let mut body = json::object();
            json::set(&mut body, "resourceDid", json::text(did));
            json::set(&mut body, "record", public_resource_record_projection(held));
            Ok(body)
        },
        None => Err(ApiError::not_found("resource_not_found")),
    }
}

/// What a record shows depends on its public members and Root's status alone: whatever else
/// two records hold, if they agree on these, the public cannot tell them apart.
pub proof fn law_projection_hides_all_else(left: JsonModel, right: JsonModel)
    requires
        forall|key: Seq<char>|
            public_fields().contains(key) ==> #[trigger] json::field(left, key) == json::field(
                right,
                key,
            ),
        root_status(left) == root_status(right),
    ensures
        public_record(left) == public_record(right),
{
    assert(public_members(left) =~= public_members(right));
}

/// Neither the credential of a registration, nor the conditions for handing it out, nor
/// Root's answer is ever a public member.
pub proof fn law_projection_never_shows_credentials(record: JsonModel)
    ensures
        json::field(public_record(record), "registrationCredential"@) is None,
        json::field(public_record(record), "registrationCredentialAccess"@) is None,
        json::field(public_record(record), "rootResponse"@) is None,
{
    reveal_strlit("rootStatus");
    reveal_strlit("resourceDid");
    reveal_strlit("resourceType");
    reveal_strlit("packageVersion");
    reveal_strlit("didDocumentHash");
    reveal_strlit("metadataHash");
    reveal_strlit("packageHash");
    reveal_strlit("authorizedDomains");
    reveal_strlit("submittedAt");
    reveal_strlit("registrationCredential");
    reveal_strlit("registrationCredentialAccess");
    reveal_strlit("rootResponse");
    assert("registrationCredential"@.len() == 22);
    assert("registrationCredentialAccess"@.len() == 28);
    assert("rootResponse"@.len() == 12 && "rootResponse"@[1] == 'o');
    assert("resourceType"@[1] == 'e');
}

/// The public members of a record are shown as the record has them.
pub proof fn law_projection_keeps_public_members(record: JsonModel, key: Seq<char>)
    requires
        public_fields().contains(key),
    ensures
        json::field(public_record(record), key) == json::field(record, key),
{
    root_status_is_no_public_field();
}


/// The public sees these nine members of a record and no others: eight as the record has them,
/// and the status in Root's answer.
pub proof fn law_the_public_sees_these_members(record: JsonModel)
    ensures
        ({
            let shown = public_record(record);
            let same = |key: Seq<char>| json::field(shown, key) == json::field(record, key);
            &&& same("resourceDid"@)
            &&& same("resourceType"@)
            &&& same("packageVersion"@)
            &&& same("didDocumentHash"@)
            &&& same("metadataHash"@)
            &&& same("packageHash"@)
            &&& same("authorizedDomains"@)
            &&& same("submittedAt"@)
            &&& json::text_field(shown, "rootStatus"@) == json::text_field(
                json::member_or_null(record, "rootResponse"@),
                "status"@,
            )
            &&& forall|key: Seq<char>| #[trigger]
                json::field(shown, key) is Some ==> key == "resourceDid"@ || key
                    == "resourceType"@ || key == "packageVersion"@ || key == "didDocumentHash"@
                    || key == "metadataHash"@ || key == "packageHash"@ || key
                    == "authorizedDomains"@ || key == "submittedAt"@ || key == "rootStatus"@
        }),
{
    root_status_is_no_public_field();
    let names = public_fields();
    assert(names[0] == "resourceDid"@ && names[1] == "resourceType"@ && names[2]
        == "packageVersion"@ && names[3] == "didDocumentHash"@ && names[4] == "metadataHash"@
        && names[5] == "packageHash"@ && names[6] == "authorizedDomains"@ && names[7]
        == "submittedAt"@);
    assert(names.contains("resourceDid"@));
    assert(names.contains("resourceType"@));
    assert(names.contains("packageVersion"@));
    assert(names.contains("didDocumentHash"@));
    assert(names.contains("metadataHash"@));
    assert(names.contains("packageHash"@));
    assert(names.contains("authorizedDomains"@));
    assert(names.contains("submittedAt"@));
}

/// A page shows what the text of a record holds, up to a mebibyte for one record and eight for
/// the page. What is larger is refused, a large record before a large page, and what is no JSON
/// is the node's own fault.
pub proof fn law_pages_have_a_size(text: Seq<char>, page_bytes: int)
    ensures
        byte_length(text) > 1048576 ==> listed_item(text, page_bytes) == Err::<
            JsonModel,
            error::Refusal,
        >(error::Refusal { status: 400, message: "resource_record_too_large"@ }),
        byte_length(text) <= 1048576 && page_bytes + byte_length(text) > 8388608 ==> listed_item(
            text,
            page_bytes,
        ) == Err::<JsonModel, error::Refusal>(
            error::Refusal { status: 400, message: "resource_page_too_large"@ },
        ),
        byte_length(text) <= 1048576 && page_bytes + byte_length(text) <= 8388608 ==> match json::parsed(
            text,
        ) {
            Ok(record) => listed_item(text, page_bytes) == Ok::<JsonModel, error::Refusal>(
                public_record(record),
            ),
            Err(complaint) => listed_item(text, page_bytes) == Err::<JsonModel, error::Refusal>(
                error::Refusal { status: 500, message: complaint },
            ),
        },
{
}

/// A text that fits on a page fits on any that holds less already, and is shown the same.
pub proof fn law_items_do_not_depend_on_the_page(text: Seq<char>, before: int, less: int)
    requires
        less <= before,
        listed_item(text, before) is Ok,
    ensures
        listed_item(text, less) == listed_item(text, before),
{
}

/// Whoever asks for one resource is told which it is and what the public sees of it, or that
/// there is none.
pub proof fn law_details_are_what_the_public_sees(did: Seq<char>, record: JsonModel)
    ensures
        detail_answer(did, Some(record)) is Ok,
        json::text_field(detail_answer(did, Some(record))->Ok_0, "resourceDid"@) == Some(did),
        json::field(detail_answer(did, Some(record))->Ok_0, "record"@) == Some(
            public_record(record),
        ),
        detail_answer(did, Some(record))->Ok_0->Object_0.dom() =~= set![
            "resourceDid"@, "record"@,
        ],
        detail_answer(did, None) == Err::<JsonModel, error::Refusal>(
            error::Refusal { status: 404, message: "resource_not_found"@ },
        ),
{
    reveal_strlit("resourceDid");
    reveal_strlit("record");
    assert("resourceDid"@.len() == 11 && "record"@.len() == 6);
}

} // verus!
