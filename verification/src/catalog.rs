//! Help with registering: capability tags, and the domains that a registrar may grant.

use crate::error::{self, ApiError};
use crate::json::{self, JsonModel};
use crate::text;
use oan_semantic_recommender::SemanticRecommender;
use serde_json::Value;
use vstd::prelude::*;

verus! {

/// The most domains that are suggested for a registration.
pub const MAX_DOMAIN_SUGGESTIONS: usize = 8;

/// The most tags that are suggested for a registration.
pub const MAX_TAG_SUGGESTIONS: usize = 12;

/// `oan_semantic_recommender::SemanticRecommender`. Its data is built in, so that all values
/// of the type are alike.
#[verifier::external_type_specification]
#[verifier::external_body]
pub struct ExSemanticRecommender(SemanticRecommender);

/// A domain of the taxonomy.
#[derive(Debug)]
pub struct CatalogDomain {
    pub id: String,
    pub label: String,
    /// The domain that this one lies below.
    pub parent: Option<String>,
    pub aliases: Vec<String>,
}

/// The taxonomy of domains.
#[derive(Debug)]
pub struct Taxonomy {
    pub version: u64,
    pub snapshot_hash: Option<String>,
    pub domains: Vec<CatalogDomain>,
}

/// A domain of the taxonomy as a mathematical value.
pub struct DomainModel {
    pub id: Seq<char>,
    pub label: Seq<char>,
    pub parent: Option<Seq<char>>,
    pub aliases: Seq<Seq<char>>,
}

/// The taxonomy as a mathematical value.
pub struct TaxonomyModel {
    pub version: int,
    pub snapshot_hash: Option<Seq<char>>,
    pub domains: Seq<DomainModel>,
}

impl View for CatalogDomain {
    type V = DomainModel;

    open spec fn view(&self) -> DomainModel {
        DomainModel {
            id: self.id@,
            label: self.label@,
            parent: text::opt_text(self.parent),
            aliases: text::texts(self.aliases@),
        }
    }
}

impl View for Taxonomy {
    type V = TaxonomyModel;

    open spec fn view(&self) -> TaxonomyModel {
        TaxonomyModel {
            version: self.version as int,
            snapshot_hash: text::opt_text(self.snapshot_hash),
            domains: self.domains@.map_values(|domain: CatalogDomain| domain@),
        }
    }
}

/// The taxonomy that a recommender holds.
pub uninterp spec fn held_taxonomy(recommender: SemanticRecommender) -> TaxonomyModel;

/// The tags in their normal form.
pub uninterp spec fn normal_tags(tags: Seq<Seq<char>>) -> Seq<Seq<char>>;

/// The id of the first domain that has the given id or alias.
pub open spec fn known_id(domains: Seq<DomainModel>, name: Seq<char>) -> Option<Seq<char>>
    decreases domains.len(),
{
    if domains.len() == 0 {
        None
    } else {
        match known_id(domains.drop_last(), name) {
            Some(id) => Some(id),
            None => if domains.last().id == name || domains.last().aliases.contains(name) {
                Some(domains.last().id)
            } else {
                None
            },
        }
    }
}

/// The parent of a domain, by the last entry that has its id.
pub open spec fn parent_of(domains: Seq<DomainModel>, id: Seq<char>) -> Option<Seq<char>>
    decreases domains.len(),
{
    if domains.len() == 0 {
        None
    } else if domains.last().id == id {
        domains.last().parent
    } else {
        parent_of(domains.drop_last(), id)
    }
}

/// The domain that lies so many steps above a domain.
pub open spec fn ancestor(domains: Seq<DomainModel>, id: Seq<char>, steps: nat) -> Option<Seq<char>>
    decreases steps,
{
    if steps == 0 {
        Some(id)
    } else {
        match ancestor(domains, id, (steps - 1) as nat) {
            Some(below) => parent_of(domains, below),
            None => None,
        }
    }
}

/// Whether a domain is the other one or lies below it.
pub open spec fn lies_below(domains: Seq<DomainModel>, id: Seq<char>, granted: Seq<char>) -> bool {
    exists|steps: nat| #[trigger] ancestor(domains, id, steps) == Some(granted)
}

/// Whether the taxonomy knows the domain, and knows one of the scope at or above it. The
/// wildcard covers every domain.
pub open spec fn taxonomy_covers(
    domains: Seq<DomainModel>,
    domain: Seq<char>,
    scope: Seq<Seq<char>>,
) -> bool {
    scope.contains("*"@) || exists|i: int|
        {
            &&& 0 <= i < scope.len()
            &&& known_id(domains, domain) is Some
            &&& known_id(domains, #[trigger] scope[i]) is Some
            &&& known_id(domains, scope[i])->0 == "*"@ || lies_below(
                domains,
                known_id(domains, domain)->0,
                known_id(domains, scope[i])->0,
            )
        }
}

/// What is suggested for a registration that is described as JSON, by a registrar with the
/// given DID and domains, within the given numbers of domains and tags; or why nothing is.
pub uninterp spec fn suggested(
    description: JsonModel,
    registrar_did: Seq<char>,
    allowed_domains: Seq<Seq<char>>,
    max_domains: int,
    max_tags: int,
) -> Result<JsonModel, Seq<char>>;

/// `oan_semantic_recommender::normalize_capability_tags`, named by `normal_tags`. It returns
/// the normal forms in order, each once.
#[verifier::external_body]
fn normalize_capability_tags(tags: &Vec<String>) -> (normal: Vec<String>)
    ensures
        text::texts(normal@) == normal_tags(text::texts(tags@)),
        strictly_ascending(text::texts(normal@)),
{
    oan_semantic_recommender::normalize_capability_tags(tags)
}

/// `AuthorizedDomainTaxonomy::covers_authorized_domains` of the recommender's taxonomy for one
/// domain: with the wildcard in the scope, or where one of the scope is the domain or lies above
/// it by the links to parents. Both are looked up by id or alias first.
#[verifier::external_body]
fn covers_authorized_domains(
    recommender: &SemanticRecommender,
    domain: &str,
    scope: &Vec<String>,
) -> (found: bool)
    ensures
        found == taxonomy_covers(
            held_taxonomy(*recommender).domains,
            domain@,
            text::texts(scope@),
        ),
{
    recommender.taxonomy().covers_authorized_domains(&[domain.to_owned()], scope)
}

/// `SemanticRecommender::taxonomy`: its version, the hash of its snapshot and its domains with
/// their parents and aliases, taken over field by field. `held_taxonomy` names them.
#[verifier::external_body]
fn read_taxonomy(recommender: &SemanticRecommender) -> (taxonomy: Taxonomy)
    ensures
        taxonomy@ == held_taxonomy(*recommender),
{
    let held = recommender.taxonomy();
    Taxonomy {
        version: held.version,
        snapshot_hash: held.snapshot_hash.clone(),
        domains: held.domains.iter().map(
            |domain| CatalogDomain {
                id: domain.id.clone(),
                label: domain.label.clone(),
                parent: domain.parent.clone(),
                aliases: domain.aliases.clone(),
            },
        ).collect(),
    }
}

/// `SemanticRecommender::suggest_registration_metadata`, its input and its result as JSON, named
/// by `suggested`. The error is given by its text; what is no description is one too.
#[verifier::external_body]
fn suggest_registration_metadata(
    recommender: &SemanticRecommender,
    description: &Value,
    registrar_did: &str,
    allowed_domains: &Vec<String>,
    limits: (usize, usize),
) -> (result: Result<Value, String>)
    ensures
        match suggested(
            json::contents(*description),
            registrar_did@,
            text::texts(allowed_domains@),
            limits.0 as int,
            limits.1 as int,
        ) {
            Ok(found) => result is Ok && json::contents(result->Ok_0) == found,
            Err(complaint) => result is Err && result->Err_0@ == complaint,
        },
{
    let context = oan_semantic_recommender::RegistrationSuggestionContext {
        registrar_did: registrar_did.to_owned(),
        allowed_domains: allowed_domains.clone(),
        max_authorized_domain_candidates: limits.0,
        max_capability_tag_candidates: limits.1,
    };
    let input = serde_json::from_value(description.clone()).map_err(|error| error.to_string())?;
    let found = recommender.suggest_registration_metadata(input, context);
    serde_json::to_value(found.map_err(|error| error.to_string())?).map_err(|error| error.to_string())
}

/// The tags that a request for normal forms holds: under `tags`, else under
/// `capabilityTags`.
pub open spec fn tags_in(payload: JsonModel) -> Seq<Seq<char>> {
    match json::array_field(payload, "tags"@) {
        Some(items) => json::texts_among(items),
        None => match json::array_field(payload, "capabilityTags"@) {
            Some(items) => json::texts_among(items),
            None => Seq::empty(),
        },
    }
}

/// The answer to a request for normal forms.
pub open spec fn tags_body(tags: Seq<Seq<char>>) -> JsonModel {
    JsonModel::Object(
        Map::empty().insert("tags"@, json::text_array(tags)).insert(
            "capabilityTags"@,
            json::text_array(tags),
        ),
    )
}

/// Each text comes before the next ones, so that none stands twice.
pub open spec fn strictly_ascending(names: Seq<Seq<char>>) -> bool {
    forall|i: int, j: int|
        0 <= i < j < names.len() ==> text::text_before(#[trigger] names[i], #[trigger] names[j])
}

/// The text under a key, the empty text where there is none.
pub open spec fn text_or_empty(value: JsonModel, key: Seq<char>) -> Seq<char> {
    match json::text_field(value, key) {
        Some(held) => held,
        None => Seq::empty(),
    }
}

/// `fields` with a text under the key, where the payload has one.
pub open spec fn with_text(
    fields: Map<Seq<char>, JsonModel>,
    payload: JsonModel,
    key: Seq<char>,
) -> Map<Seq<char>, JsonModel> {
    match json::text_field(payload, key) {
        Some(held) => fields.insert(key, JsonModel::Text(held)),
        None => fields,
    }
}

/// The description of a registration that a request for tags holds. The resource is described
/// under `description`, else under `query`.
pub open spec fn tag_description(payload: JsonModel) -> JsonModel {
    let description = match json::text_field(payload, "description"@) {
        Some(held) => held,
        None => text_or_empty(payload, "query"@),
    };
    let fields = Map::empty().insert("resourceType"@, JsonModel::Null).insert(
        "name"@,
        JsonModel::Text(text_or_empty(payload, "name"@)),
    ).insert("description"@, JsonModel::Text(description));
    JsonModel::Object(
        with_text(
            with_text(
                with_text(with_text(fields, payload, "endpoint"@), payload, "manifestText"@),
                payload,
                "schemaText"@,
            ),
            payload,
            "locale"@,
        ),
    )
}

/// The values of the suggested tags, in order.
pub open spec fn tag_values(tags: Seq<JsonModel>) -> Seq<Seq<char>> {
    tags.map_values(|tag: JsonModel| text_or_empty(tag, "value"@))
}

/// The suggested tags among all that is suggested.
pub open spec fn suggested_tags(found: JsonModel) -> Seq<JsonModel> {
    match json::array_field(found, "capabilityTags"@) {
        Some(tags) => tags,
        None => Seq::empty(),
    }
}

/// The answer to a request for tags.
pub open spec fn suggested_tags_body(found: JsonModel) -> JsonModel {
    JsonModel::Object(
        Map::empty().insert(
            "suggestions"@,
            json::text_array(tag_values(suggested_tags(found))),
        ).insert("capabilityTags"@, JsonModel::Array(suggested_tags(found))),
    )
}

/// Answers a request for the normal forms of tags.
pub fn api_normalize_tags(payload: &Value) -> (body: Value)
    ensures
        json::contents(body) == tags_body(normal_tags(tags_in(json::contents(*payload)))),
        strictly_ascending(normal_tags(tags_in(json::contents(*payload)))),
{
    let tags = read_tags(payload);
    let normal = normalize_capability_tags(&tags);
    normalized_tags_body(&normal)
}

/// The answer with the given normal forms.
pub fn normalized_tags_body(normal: &Vec<String>) -> (body: Value)
    ensures
        json::contents(body) == tags_body(text::texts(normal@)),
{
    let mut body = json::object();
    json::set(&mut body, "tags", json::array_of_texts(normal));
    json::set(&mut body, "capabilityTags", json::array_of_texts(normal));
    body
}

/// The tags that a request for normal forms holds.
pub fn read_tags(payload: &Value) -> (tags: Vec<String>)
    ensures
        text::texts(tags@) == tags_in(json::contents(*payload)),
{
    if let Some(list) = json::get(payload, "tags") {
        if let Some(items) = list.as_array() {
            return json::texts_in(items);
        }
    }
    if let Some(list) = json::get(payload, "capabilityTags") {
        if let Some(items) = list.as_array() {
            return json::texts_in(items);
        }
    }
    let tags: Vec<String> = Vec::new();
    assert(text::texts(tags@) == Seq::<Seq<char>>::empty());
    tags
}

fn copy_text(fields: &mut Value, payload: &Value, key: &str)
    requires
        json::contents(*old(fields)) is Object,
    ensures
        json::contents(*final(fields)) == JsonModel::Object(
            with_text(json::contents(*old(fields))->Object_0, json::contents(*payload), key@),
        ),
{
    if let Some(held) = json::get_text(payload, key) {
        json::set(fields, key, json::text(held.as_str()));
    }
}

fn read_text(payload: &Value, key: &str) -> (found: String)
    ensures
        found@ == text_or_empty(json::contents(*payload), key@),
{
    match json::get_text(payload, key) {
        Some(held) => held,
        None => String::new(),
    }
}

/// The description of a registration that a request for tags holds.
pub fn describe_for_tags(payload: &Value) -> (description: Value)
    ensures
        json::contents(description) == tag_description(json::contents(*payload)),
{
    let held = match json::get_text(payload, "description") {
        Some(held) => held,
        None => read_text(payload, "query"),
    };
    let mut description = json::object();
    json::set(&mut description, "resourceType", json::null());
    json::set(&mut description, "name", json::text(read_text(payload, "name").as_str()));
    json::set(&mut description, "description", json::text(held.as_str()));
    copy_text(&mut description, payload, "endpoint");
    copy_text(&mut description, payload, "manifestText");
    copy_text(&mut description, payload, "schemaText");
    copy_text(&mut description, payload, "locale");
    description
}

/// The answer to a request for tags, by what was suggested.
pub fn suggested_tags_answer(found: &Value) -> (body: Value)
    ensures
        json::contents(body) == suggested_tags_body(json::contents(*found)),
{
    let mut values: Vec<String> = Vec::new();
    let mut tags: Vec<Value> = Vec::new();
    let ghost models = suggested_tags(json::contents(*found));
    if let Some(list) = json::get(found, "capabilityTags") {
        if let Some(items) = list.as_array() {
            let mut i: usize = 0;
            while i < items.len()
                invariant
                    i <= items@.len(),
                    models == json::contents_of(items@),
                    values@.len() == i,
                    tags@.len() == i,
                    forall|j: int|
                        0 <= j < i ==> (#[trigger] values@[j])@ == text_or_empty(
                            models[j],
                            "value"@,
                        ),
                    forall|j: int| 0 <= j < i ==> json::contents(#[trigger] tags@[j]) == models[j],
                decreases items@.len() - i,
            {
                values.push(read_text(&items[i], "value"));
                tags.push(items[i].clone());
                i = i + 1;
            }
        }
    }
    assert(text::texts(values@) == tag_values(models));
    assert(json::contents_of(tags@) == models);
    let mut body = json::object();
    json::set(&mut body, "suggestions", json::array_of_texts(&values));
    json::set(&mut body, "capabilityTags", json::array(tags));
    body
}

/// What the recommender suggests to a registrar, or the refusal that its complaint leads to.
pub open spec fn suggestion_answer(
    description: JsonModel,
    registrar_did: Seq<char>,
    allowed_domains: Seq<Seq<char>>,
) -> error::Answer<JsonModel> {
    match suggested(
        description,
        registrar_did,
        allowed_domains,
        MAX_DOMAIN_SUGGESTIONS as int,
        MAX_TAG_SUGGESTIONS as int,
    ) {
        Ok(found) => Ok(found),
        Err(complaint) => Err(error::bad_request(complaint)),
    }
}

/// What the answer of the recommender comes to: its complaints are refusals.
pub fn suggestion_outcome(outcome: Result<Value, String>) -> (result: Result<Value, ApiError>)
    ensures
        match outcome {
            Ok(found) => result is Ok && json::contents(result->Ok_0) == json::contents(found),
            Err(complaint) => result is Err && result->Err_0@ == error::bad_request(complaint@),
        },
{
    match outcome {
        Ok(found) => Ok(found),
        Err(complaint) => Err(ApiError::bad_request(complaint.as_str())),
    }
}

/// Answers a request for suggestions. The registration is described as JSON.
pub fn api_registration_suggestions(
    recommender: &SemanticRecommender,
    registrar_did: &str,
    allowed_domains: &Vec<String>,
    description: &Value,
) -> (result: Result<Value, ApiError>)
    ensures
        match suggestion_answer(
            json::contents(*description),
            registrar_did@,
            text::texts(allowed_domains@),
        ) {
            Ok(found) => result is Ok && json::contents(result->Ok_0) == found,
            Err(refusal) => result is Err && result->Err_0@ == refusal,
        },
        match suggested(
            json::contents(*description),
            registrar_did@,
            text::texts(allowed_domains@),
            8,
            12,
        ) {
            Ok(found) => result is Ok && json::contents(result->Ok_0) == found,
            Err(complaint) => result is Err && result->Err_0.status == 400
                && result->Err_0.message@ == complaint,
        },
{
    suggestion_outcome(
        suggest_registration_metadata(
            recommender,
            description,
            registrar_did,
            allowed_domains,
            (MAX_DOMAIN_SUGGESTIONS, MAX_TAG_SUGGESTIONS),
        ),
    )
}

/// Answers a request for tags.
pub fn api_suggest_tags(
    recommender: &SemanticRecommender,
    registrar_did: &str,
    allowed_domains: &Vec<String>,
    payload: &Value,
) -> (result: Result<Value, ApiError>)
    ensures
        match suggestion_answer(
            tag_description(json::contents(*payload)),
            registrar_did@,
            text::texts(allowed_domains@),
        ) {
            Ok(found) => result is Ok && json::contents(result->Ok_0) == suggested_tags_body(found),
            Err(refusal) => result is Err && result->Err_0@ == refusal,
        },
        match suggested(
            tag_description(json::contents(*payload)),
            registrar_did@,
            text::texts(allowed_domains@),
            8,
            12,
        ) {
            Ok(found) => result is Ok && json::contents(result->Ok_0) == suggested_tags_body(found),
            Err(complaint) => result is Err && result->Err_0.status == 400
                && result->Err_0.message@ == complaint,
        },
{
    let description = describe_for_tags(payload);
    match api_registration_suggestions(recommender, registrar_did, allowed_domains, &description) {
        Ok(found) => Ok(suggested_tags_answer(&found)),
        Err(error) => Err(error),
    }
}

/// Whether a registrar's scope covers a domain.
pub fn domain_covered_by_scope(
    recommender: &SemanticRecommender,
    domain: &str,
    scope: &Vec<String>,
) -> (found: bool)
    ensures
        found == taxonomy_covers(
            held_taxonomy(*recommender).domains,
            domain@,
            text::texts(scope@),
        ),
{
    let mut i: usize = 0;
    while i < scope.len()
        invariant
            i <= scope@.len(),
            forall|j: int| 0 <= j < i ==> (#[trigger] scope@[j])@ != "*"@,
        decreases scope@.len() - i,
    {
        if text::same_text(scope[i].as_str(), "*") {
            assert(text::texts(scope@)[i as int] == "*"@);
            return true;
        }
        i = i + 1;
    }
    assert forall|j: int| 0 <= j < scope@.len() implies text::texts(scope@)[j] != "*"@ by {
        assert(text::texts(scope@)[j] == scope@[j]@);
    }
    covers_authorized_domains(recommender, domain, scope)
}

/// A domain as it stands in the catalog.
pub open spec fn catalog_entry(domain: DomainModel) -> JsonModel {
    JsonModel::Object(
        Map::empty().insert("id"@, JsonModel::Text(domain.id)).insert(
            "label"@,
            JsonModel::Text(domain.label),
        ).insert("aliases"@, json::text_array(domain.aliases)).insert(
            "selectable"@,
            JsonModel::Bool(true),
        ),
    )
}

/// The entries of the domains that are covered, in the order of the taxonomy.
pub open spec fn catalog_entries(domains: Seq<DomainModel>, covered: Seq<bool>) -> Seq<JsonModel>
    decreases domains.len(),
{
    if domains.len() == 0 {
        Seq::empty()
    } else if covered.last() {
        catalog_entries(domains.drop_last(), covered.drop_last()).push(
            catalog_entry(domains.last()),
        )
    } else {
        catalog_entries(domains.drop_last(), covered.drop_last())
    }
}

/// The catalog of the domains that a registrar may grant: those that are covered.
pub open spec fn catalog_body(
    registrar_did: Seq<char>,
    scope: Seq<Seq<char>>,
    taxonomy: TaxonomyModel,
    covered: Seq<bool>,
) -> JsonModel {
    JsonModel::Object(
        Map::empty().insert("registrarDid"@, JsonModel::Text(registrar_did)).insert(
            "authorizedDomains"@,
            json::text_array(scope),
        ).insert("catalogVersion"@, JsonModel::Integer(taxonomy.version)).insert(
            "snapshotHash"@,
            match taxonomy.snapshot_hash {
                Some(hash) => JsonModel::Text(hash),
                None => JsonModel::Null,
            },
        ).insert("domains"@, JsonModel::Array(catalog_entries(taxonomy.domains, covered))),
    )
}

/// Which of the domains a scope covers by a taxonomy.
pub open spec fn coverage(
    taxonomy: Seq<DomainModel>,
    domains: Seq<DomainModel>,
    scope: Seq<Seq<char>>,
) -> Seq<bool> {
    domains.map_values(|domain: DomainModel| taxonomy_covers(taxonomy, domain.id, scope))
}

/// The catalog of the domains of a taxonomy that a registrar may grant, where it is known
/// which of them its scope covers.
pub fn catalog_of_covered(
    registrar_did: &str,
    scope: &Vec<String>,
    taxonomy: &Taxonomy,
    covered: &Vec<bool>,
) -> (body: Value)
    requires
        covered@.len() == taxonomy.domains@.len(),
    ensures
        json::contents(body) == catalog_body(
            registrar_did@,
            text::texts(scope@),
            taxonomy@,
            covered@,
        ),
{
    let mut entries: Vec<Value> = Vec::new();
    let ghost domains = taxonomy@.domains;
    let mut i: usize = 0;
    assert(json::contents_of(entries@) == catalog_entries(domains.take(0), covered@.take(0)));
    while i < taxonomy.domains.len()
        invariant
            i <= taxonomy.domains@.len(),
            covered@.len() == taxonomy.domains@.len(),
            domains == taxonomy@.domains,
            json::contents_of(entries@) == catalog_entries(
                domains.take(i as int),
                covered@.take(i as int),
            ),
        decreases taxonomy.domains@.len() - i,
    {
        proof {
            assert(domains.take(i + 1).drop_last() == domains.take(i as int));
            assert(covered@.take(i + 1).drop_last() == covered@.take(i as int));
            assert(domains.take(i + 1).last() == taxonomy.domains@[i as int]@);
        }
        let domain = &taxonomy.domains[i];
        let ghost before = entries@;
        if covered[i] {
            let mut entry = json::object();
            json::set(&mut entry, "id", json::text(domain.id.as_str()));
            json::set(&mut entry, "label", json::text(domain.label.as_str()));
            json::set(&mut entry, "aliases", json::array_of_texts(&domain.aliases));
            json::set(&mut entry, "selectable", json::boolean(true));
            entries.push(entry);
            assert(json::contents_of(entries@) == json::contents_of(before).push(
                json::contents(entry),
            ));
        }
        i = i + 1;
    }
    assert(domains.take(domains.len() as int) == domains);
    assert(covered@.take(covered@.len() as int) == covered@);
    let hash = match &taxonomy.snapshot_hash {
        Some(hash) => json::text(hash.as_str()),
        None => json::null(),
    };
    let mut body = json::object();
    json::set(&mut body, "registrarDid", json::text(registrar_did));
    json::set(&mut body, "authorizedDomains", json::array_of_texts(scope));
    json::set(&mut body, "catalogVersion", json::unsigned(taxonomy.version));
    json::set(&mut body, "snapshotHash", hash);
    json::set(&mut body, "domains", json::array(entries));
    body
}

/// The catalog of the domains of a taxonomy that a registrar may grant.
pub fn domain_catalog(
    recommender: &SemanticRecommender,
    registrar_did: &str,
    scope: &Vec<String>,
    taxonomy: &Taxonomy,
) -> (body: Value)
    ensures
        json::contents(body) == catalog_body(
            registrar_did@,
            text::texts(scope@),
            taxonomy@,
            coverage(held_taxonomy(*recommender).domains, taxonomy@.domains, text::texts(scope@)),
        ),
{
    let mut covered: Vec<bool> = Vec::new();
    let mut i: usize = 0;
    while i < taxonomy.domains.len()
        invariant
            i <= taxonomy.domains@.len(),
            covered@.len() == i,
            forall|j: int|
                0 <= j < i ==> #[trigger] covered@[j] == taxonomy_covers(
                    held_taxonomy(*recommender).domains,
                    taxonomy.domains@[j].id@,
                    text::texts(scope@),
                ),
        decreases taxonomy.domains@.len() - i,
    {
        covered.push(
            domain_covered_by_scope(recommender, taxonomy.domains[i].id.as_str(), scope),
        );
        i = i + 1;
    }
    assert(covered@ == coverage(
        held_taxonomy(*recommender).domains,
        taxonomy@.domains,
        text::texts(scope@),
    ));
    catalog_of_covered(registrar_did, scope, taxonomy, &covered)
}

/// Answers a request for the catalog of the domains that a registrar may grant.
pub fn api_registration_domain_catalog(
    recommender: &SemanticRecommender,
    registrar_did: &str,
    scope: &Vec<String>,
) -> (body: Value)
    ensures
        json::contents(body) == catalog_body(
            registrar_did@,
            text::texts(scope@),
            held_taxonomy(*recommender),
            coverage(
                held_taxonomy(*recommender).domains,
                held_taxonomy(*recommender).domains,
                text::texts(scope@),
            ),
        ),
{
    let taxonomy = read_taxonomy(recommender);
    domain_catalog(recommender, registrar_did, scope, &taxonomy)
}

/// Every domain of the catalog is in the registrar's scope, and every domain of the taxonomy
/// that is in the scope is in the catalog.
pub proof fn law_catalog_is_the_scope(
    taxonomy: Seq<DomainModel>,
    domains: Seq<DomainModel>,
    scope: Seq<Seq<char>>,
    entry: JsonModel,
)
    ensures
        catalog_entries(domains, coverage(taxonomy, domains, scope)).contains(entry) <==> exists|i: int|
            0 <= i < domains.len() && taxonomy_covers(taxonomy, (#[trigger] domains[i]).id, scope)
                && catalog_entry(domains[i]) == entry,
    decreases domains.len(),
{
    if domains.len() > 0 {
        let fewer = domains.drop_last();
        law_catalog_is_the_scope(taxonomy, fewer, scope, entry);
        assert(coverage(taxonomy, domains, scope).drop_last() == coverage(taxonomy, fewer, scope));
        let before = catalog_entries(fewer, coverage(taxonomy, fewer, scope));
        let all = catalog_entries(domains, coverage(taxonomy, domains, scope));
        if all.contains(entry) {
            let k = choose|k: int| 0 <= k < all.len() && all[k] == entry;
            if taxonomy_covers(taxonomy, domains.last().id, scope) && k == all.len() - 1 {
                assert(domains[domains.len() - 1] == domains.last());
            } else {
                assert(before[k] == entry);
                assert(before.contains(entry));
                let i = choose|i: int|
                    0 <= i < fewer.len() && taxonomy_covers(taxonomy, (#[trigger] fewer[i]).id, scope)
                        && catalog_entry(fewer[i]) == entry;
                assert(domains[i] == fewer[i]);
            }
        }
        if exists|i: int|
            0 <= i < domains.len() && taxonomy_covers(taxonomy, (#[trigger] domains[i]).id, scope)
                && catalog_entry(domains[i]) == entry {
            let i = choose|i: int|
                0 <= i < domains.len() && taxonomy_covers(taxonomy, (#[trigger] domains[i]).id, scope)
                    && catalog_entry(domains[i]) == entry;
            if i < domains.len() - 1 {
                assert(fewer[i] == domains[i]);
                assert(before.contains(entry));
                let k = choose|k: int| 0 <= k < before.len() && before[k] == entry;
                assert(all[k] == entry);
            } else {
                assert(all[all.len() - 1] == entry);
            }
        }
    }
}

/// A scope covers the domains that it names, as far as the taxonomy knows them.
pub proof fn law_scopes_cover_what_they_name(
    taxonomy: Seq<DomainModel>,
    domain: Seq<char>,
    scope: Seq<Seq<char>>,
)
    requires
        known_id(taxonomy, domain) is Some,
        scope.contains(domain),
    ensures
        taxonomy_covers(taxonomy, domain, scope),
{
    let i = choose|i: int| 0 <= i < scope.len() && scope[i] == domain;
    let id = known_id(taxonomy, domain)->0;
    assert(ancestor(taxonomy, id, 0) == Some(id));
    assert(known_id(taxonomy, scope[i]) is Some);
}

/// The keys around tags are all different.
proof fn tag_keys_differ()
    ensures
        "tags"@.len() == 4,
        "capabilityTags"@.len() == 14,
        "suggestions"@.len() == 11,
        "value"@.len() == 5,
{
    reveal_strlit("tags");
    reveal_strlit("capabilityTags");
    reveal_strlit("suggestions");
    reveal_strlit("value");
}

/// The keys of a description are all different.
proof fn description_keys_differ()
    ensures
        "resourceType"@.len() == 12 && "resourceType"@[0] == 'r',
        "name"@.len() == 4,
        "description"@.len() == 11,
        "endpoint"@.len() == 8,
        "manifestText"@.len() == 12 && "manifestText"@[0] == 'm',
        "schemaText"@.len() == 10,
        "locale"@.len() == 6,
        "query"@.len() == 5,
{
    reveal_strlit("resourceType");
    reveal_strlit("name");
    reveal_strlit("description");
    reveal_strlit("endpoint");
    reveal_strlit("manifestText");
    reveal_strlit("schemaText");
    reveal_strlit("locale");
    reveal_strlit("query");
}

/// The keys of an entry of the catalog are all different.
proof fn entry_keys_differ()
    ensures
        "id"@.len() == 2,
        "label"@.len() == 5,
        "aliases"@.len() == 7,
        "selectable"@.len() == 10,
{
    reveal_strlit("id");
    reveal_strlit("label");
    reveal_strlit("aliases");
    reveal_strlit("selectable");
}

/// The keys of a catalog are all different.
proof fn catalog_keys_differ()
    ensures
        "registrarDid"@.len() == 12 && "registrarDid"@[0] == 'r',
        "authorizedDomains"@.len() == 17,
        "catalogVersion"@.len() == 14,
        "snapshotHash"@.len() == 12 && "snapshotHash"@[0] == 's',
        "domains"@.len() == 7,
{
    reveal_strlit("registrarDid");
    reveal_strlit("authorizedDomains");
    reveal_strlit("catalogVersion");
    reveal_strlit("snapshotHash");
    reveal_strlit("domains");
}

/// What is suggested is what the recommender suggests for the very description, to the very
/// registrar and within its own domains, eight domains and twelve tags at most; what it complains
/// of is a request that was malformed.
pub proof fn law_suggestions_are_for_the_caller(
    description: JsonModel,
    registrar_did: Seq<char>,
    allowed_domains: Seq<Seq<char>>,
)
    ensures
        match suggested(description, registrar_did, allowed_domains, 8, 12) {
            Ok(found) => suggestion_answer(description, registrar_did, allowed_domains) == Ok::<
                JsonModel,
                error::Refusal,
            >(found),
            Err(complaint) => suggestion_answer(description, registrar_did, allowed_domains)
                == Err::<JsonModel, error::Refusal>(
                error::Refusal { status: 400, message: complaint },
            ),
        },
{
}

/// Registrars that are suggested the same are suggested what the recommender finds the same for:
/// where it finds something else for other domains, so does the node.
pub proof fn law_other_domains_lead_to_other_suggestions(
    description: JsonModel,
    registrar_did: Seq<char>,
    left: Seq<Seq<char>>,
    right: Seq<Seq<char>>,
)
    requires
        suggested(description, registrar_did, left, 8, 12) is Ok,
        suggested(description, registrar_did, right, 8, 12) != suggested(
            description,
            registrar_did,
            left,
            8,
            12,
        ),
    ensures
        suggestion_answer(description, registrar_did, left) != suggestion_answer(
            description,
            registrar_did,
            right,
        ),
{
}

/// Tags are read from the list of that name, and from the other list only where there is none.
pub proof fn law_tags_are_read_from_their_list(payload: JsonModel, items: Seq<JsonModel>)
    ensures
        json::field(payload, "tags"@) == Some(JsonModel::Array(items)) ==> tags_in(payload)
            == json::texts_among(items),
        !(json::member_or_null(payload, "tags"@) is Array) && json::field(
            payload,
            "capabilityTags"@,
        ) == Some(JsonModel::Array(items)) ==> tags_in(payload) == json::texts_among(items),
        !(json::member_or_null(payload, "tags"@) is Array) && !(json::member_or_null(
            payload,
            "capabilityTags"@,
        ) is Array) ==> tags_in(payload) == Seq::<Seq<char>>::empty(),
{
}

/// The normal forms are answered under both names, as they are and in order.
pub proof fn law_tags_are_answered_twice(tags: Seq<Seq<char>>)
    ensures
        json::array_field(tags_body(tags), "tags"@) is Some,
        json::array_field(tags_body(tags), "tags"@)->0.len() == tags.len(),
        forall|i: int|
            0 <= i < tags.len() ==> #[trigger] json::array_field(tags_body(tags), "tags"@)->0[i]
                == JsonModel::Text(tags[i]),
        json::field(tags_body(tags), "capabilityTags"@) == json::field(tags_body(tags), "tags"@),
        tags_body(tags)->Object_0.dom() =~= set!["tags"@, "capabilityTags"@],
{
    tag_keys_differ();
}

/// A description for tags repeats what the request says: the name, the description or else the
/// query, and four more texts where there are any. Of the type nothing is said.
pub proof fn law_descriptions_repeat_the_request(payload: JsonModel)
    ensures
        ({
            let description = tag_description(payload);
            let said = |key: Seq<char>| json::text_field(payload, key);
            &&& json::field(description, "resourceType"@) == Some(JsonModel::Null)
            &&& said("name"@) is Some ==> json::text_field(description, "name"@) == said("name"@)
            &&& said("name"@) is None ==> json::text_field(description, "name"@) == Some(
                Seq::<char>::empty(),
            )
            &&& said("description"@) is Some ==> json::text_field(description, "description"@)
                == said("description"@)
            &&& said("description"@) is None && said("query"@) is Some ==> json::text_field(
                description,
                "description"@,
            ) == said("query"@)
            &&& said("description"@) is None && said("query"@) is None ==> json::text_field(
                description,
                "description"@,
            ) == Some(Seq::<char>::empty())
            &&& json::text_field(description, "endpoint"@) == said("endpoint"@)
            &&& json::text_field(description, "manifestText"@) == said("manifestText"@)
            &&& json::text_field(description, "schemaText"@) == said("schemaText"@)
            &&& json::text_field(description, "locale"@) == said("locale"@)
            &&& forall|key: Seq<char>| #[trigger]
                json::field(description, key) is Some ==> key == "resourceType"@ || key == "name"@
                    || key == "description"@ || key == "endpoint"@ || key == "manifestText"@ || key
                    == "schemaText"@ || key == "locale"@
        }),
{
    description_keys_differ();
}

/// Suggested tags are answered as they were found, and beside them their values, in order.
pub proof fn law_suggested_tags_are_answered_with_their_values(
    found: JsonModel,
    tags: Seq<JsonModel>,
    i: int,
    value: Seq<char>,
)
    requires
        json::field(found, "capabilityTags"@) == Some(JsonModel::Array(tags)),
        0 <= i < tags.len(),
        json::field(tags[i], "value"@) == Some(JsonModel::Text(value)),
    ensures
        json::field(suggested_tags_body(found), "capabilityTags"@) == Some(JsonModel::Array(tags)),
        json::array_field(suggested_tags_body(found), "suggestions"@) is Some,
        json::array_field(suggested_tags_body(found), "suggestions"@)->0.len() == tags.len(),
        json::array_field(suggested_tags_body(found), "suggestions"@)->0[i] == JsonModel::Text(
            value,
        ),
        suggested_tags_body(found)->Object_0.dom() =~= set!["suggestions"@, "capabilityTags"@],
{
    tag_keys_differ();
}

/// An entry of the catalog says the id, the label and the aliases of its domain, and that it can
/// be chosen.
pub proof fn law_entries_describe_their_domain(domain: DomainModel)
    ensures
        json::text_field(catalog_entry(domain), "id"@) == Some(domain.id),
        json::text_field(catalog_entry(domain), "label"@) == Some(domain.label),
        json::array_field(catalog_entry(domain), "aliases"@) is Some,
        json::texts_among(json::array_field(catalog_entry(domain), "aliases"@)->0)
            == domain.aliases,
        json::field(catalog_entry(domain), "selectable"@) == Some(JsonModel::Bool(true)),
        catalog_entry(domain)->Object_0.dom() =~= set!["id"@, "label"@, "aliases"@, "selectable"@],
{
    entry_keys_differ();
    json::law_text_arrays_hold_their_texts(domain.aliases);
}

/// A catalog says whose it is and what its scope is, and which taxonomy it was made from.
pub proof fn law_catalogs_say_whose_they_are(
    registrar_did: Seq<char>,
    scope: Seq<Seq<char>>,
    taxonomy: TaxonomyModel,
    covered: Seq<bool>,
)
    ensures
        ({
            let body = catalog_body(registrar_did, scope, taxonomy, covered);
            &&& json::text_field(body, "registrarDid"@) == Some(registrar_did)
            &&& json::array_field(body, "authorizedDomains"@) is Some
            &&& json::texts_among(json::array_field(body, "authorizedDomains"@)->0) == scope
            &&& json::field(body, "catalogVersion"@) == Some(JsonModel::Integer(taxonomy.version))
            &&& json::text_field(body, "snapshotHash"@) == taxonomy.snapshot_hash
            &&& taxonomy.snapshot_hash is None ==> json::field(body, "snapshotHash"@) == Some(
                JsonModel::Null,
            )
            &&& json::field(body, "domains"@) == Some(
                JsonModel::Array(catalog_entries(taxonomy.domains, covered)),
            )
            &&& body->Object_0.dom() =~= set![
                "registrarDid"@, "authorizedDomains"@, "catalogVersion"@, "snapshotHash"@,
                "domains"@,
            ]
        }),
{
    catalog_keys_differ();
    json::law_text_arrays_hold_their_texts(scope);
}

/// The catalog goes through the taxonomy in order: one more domain is one more entry behind the
/// others if it is covered, and none otherwise.
pub proof fn law_catalogs_keep_the_order(
    domains: Seq<DomainModel>,
    covered: Seq<bool>,
    domain: DomainModel,
    is_covered: bool,
)
    requires
        domains.len() == covered.len(),
    ensures
        catalog_entries(domains.push(domain), covered.push(is_covered)) == (if is_covered {
            catalog_entries(domains, covered).push(catalog_entry(domain))
        } else {
            catalog_entries(domains, covered)
        }),
        catalog_entries(Seq::empty(), Seq::empty()) == Seq::<JsonModel>::empty(),
{
    assert(domains.push(domain).drop_last() == domains);
    assert(covered.push(is_covered).drop_last() == covered);
}

/// What lies above the parent lies above the domain.
proof fn ancestors_go_on_from_the_parent(domains: Seq<DomainModel>, id: Seq<char>, steps: nat)
    ensures
        parent_of(domains, id) is Some ==> ancestor(domains, id, steps + 1) == ancestor(
            domains,
            parent_of(domains, id)->0,
            steps,
        ),
        parent_of(domains, id) is None ==> ancestor(domains, id, steps + 1) is None,
    decreases steps,
{
    reveal_with_fuel(ancestor, 2);
    if steps > 0 {
        ancestors_go_on_from_the_parent(domains, id, (steps - 1) as nat);
    }
}

/// A domain lies below itself, and below what its parent lies below, and below nothing else.
pub proof fn law_domains_lie_below_their_parents(
    domains: Seq<DomainModel>,
    id: Seq<char>,
    granted: Seq<char>,
)
    ensures
        lies_below(domains, id, granted) <==> id == granted || (parent_of(domains, id) is Some
            && lies_below(domains, parent_of(domains, id)->0, granted)),
{
    if lies_below(domains, id, granted) {
        let steps = choose|steps: nat| #[trigger] ancestor(domains, id, steps) == Some(granted);
        if steps > 0 {
            ancestors_go_on_from_the_parent(domains, id, (steps - 1) as nat);
            if parent_of(domains, id) is Some {
                assert(ancestor(domains, parent_of(domains, id)->0, (steps - 1) as nat) == Some(
                    granted,
                ));
            }
        }
    }
    if id == granted {
        assert(ancestor(domains, id, 0) == Some(granted));
    }
    if parent_of(domains, id) is Some && lies_below(domains, parent_of(domains, id)->0, granted) {
        let parent = parent_of(domains, id)->0;
        let steps = choose|steps: nat| #[trigger] ancestor(domains, parent, steps) == Some(granted);
        ancestors_go_on_from_the_parent(domains, id, steps);
        assert(ancestor(domains, id, steps + 1) == Some(granted));
    }
}

/// A domain is known by its id and by its aliases. The first that goes by a name is meant.
pub proof fn law_domains_are_known_by_their_names(
    domains: Seq<DomainModel>,
    domain: DomainModel,
    name: Seq<char>,
)
    ensures
        known_id(Seq::empty(), name) is None,
        known_id(domains, name) is Some ==> known_id(domains.push(domain), name) == known_id(
            domains,
            name,
        ),
        known_id(domains, name) is None && (domain.id == name || domain.aliases.contains(name))
            ==> known_id(domains.push(domain), name) == Some(domain.id),
        known_id(domains, name) is None && domain.id != name && !domain.aliases.contains(name)
            ==> known_id(domains.push(domain), name) is None,
{
    assert(domains.push(domain).drop_last() == domains);
}

/// The parent of a domain is the one that the last entry with its id names.
pub proof fn law_the_last_entry_names_the_parent(
    domains: Seq<DomainModel>,
    domain: DomainModel,
    id: Seq<char>,
)
    ensures
        parent_of(Seq::empty(), id) is None,
        domain.id == id ==> parent_of(domains.push(domain), id) == domain.parent,
        domain.id != id ==> parent_of(domains.push(domain), id) == parent_of(domains, id),
{
    assert(domains.push(domain).drop_last() == domains);
}

/// A scope covers what one of its names covers. An empty one covers nothing, and the wildcard
/// covers all.
pub proof fn law_scopes_cover_name_by_name(
    taxonomy: Seq<DomainModel>,
    domain: Seq<char>,
    left: Seq<Seq<char>>,
    right: Seq<Seq<char>>,
)
    ensures
        !taxonomy_covers(taxonomy, domain, Seq::empty()),
        left.contains("*"@) ==> taxonomy_covers(taxonomy, domain, left),
        taxonomy_covers(taxonomy, domain, left + right) <==> taxonomy_covers(taxonomy, domain, left)
            || taxonomy_covers(taxonomy, domain, right),
{
    let both = left + right;
    if left.contains("*"@) {
        let i = choose|i: int| 0 <= i < left.len() && left[i] == "*"@;
        assert(both[i] == "*"@);
    } else if right.contains("*"@) {
        let i = choose|i: int| 0 <= i < right.len() && right[i] == "*"@;
        assert(both[left.len() + i] == "*"@);
    } else {
        if both.contains("*"@) {
            let i = choose|i: int| 0 <= i < both.len() && both[i] == "*"@;
            if i < left.len() {
                assert(left[i] == "*"@);
            } else {
                assert(right[i - left.len()] == "*"@);
            }
        }
        if taxonomy_covers(taxonomy, domain, both) {
            let i = choose|i: int|
                {
                    &&& 0 <= i < both.len()
                    &&& known_id(taxonomy, domain) is Some
                    &&& known_id(taxonomy, #[trigger] both[i]) is Some
                    &&& known_id(taxonomy, both[i])->0 == "*"@ || lies_below(
                        taxonomy,
                        known_id(taxonomy, domain)->0,
                        known_id(taxonomy, both[i])->0,
                    )
                };
            if i < left.len() {
                assert(left[i] == both[i]);
            } else {
                assert(right[i - left.len()] == both[i]);
            }
        }
        if taxonomy_covers(taxonomy, domain, left) {
            let i = choose|i: int|
                {
                    &&& 0 <= i < left.len()
                    &&& known_id(taxonomy, domain) is Some
                    &&& known_id(taxonomy, #[trigger] left[i]) is Some
                    &&& known_id(taxonomy, left[i])->0 == "*"@ || lies_below(
                        taxonomy,
                        known_id(taxonomy, domain)->0,
                        known_id(taxonomy, left[i])->0,
                    )
                };
            assert(both[i] == left[i]);
        }
        if taxonomy_covers(taxonomy, domain, right) {
            let i = choose|i: int|
                {
                    &&& 0 <= i < right.len()
                    &&& known_id(taxonomy, domain) is Some
                    &&& known_id(taxonomy, #[trigger] right[i]) is Some
                    &&& known_id(taxonomy, right[i])->0 == "*"@ || lies_below(
                        taxonomy,
                        known_id(taxonomy, domain)->0,
                        known_id(taxonomy, right[i])->0,
                    )
                };
            assert(both[left.len() + i] == right[i]);
        }
    }
}

/// A name covers a domain if the taxonomy knows both, and the domain lies below what the name
/// stands for.
pub proof fn law_names_cover_what_lies_below(
    taxonomy: Seq<DomainModel>,
    domain: Seq<char>,
    name: Seq<char>,
    id: Seq<char>,
    granted: Seq<char>,
)
    requires
        name != "*"@,
    ensures
        known_id(taxonomy, domain) is None || known_id(taxonomy, name) is None
            ==> !taxonomy_covers(taxonomy, domain, seq![name]),
        known_id(taxonomy, domain) == Some(id) && known_id(taxonomy, name) == Some(granted)
            && granted != "*"@ ==> (taxonomy_covers(taxonomy, domain, seq![name]) <==> lies_below(
            taxonomy,
            id,
            granted,
        )),
{
    let scope = seq![name];
    assert(scope[0] == name && scope.len() == 1);
    assert(!scope.contains("*"@));
}

/// Where no tags were found, none are answered. A tag without a value is answered as an empty
/// one.
pub proof fn law_missing_tags_are_empty(found: JsonModel, tags: Seq<JsonModel>, i: int)
    ensures
        !(json::member_or_null(found, "capabilityTags"@) is Array) ==> json::field(
            suggested_tags_body(found),
            "capabilityTags"@,
        ) == Some(JsonModel::Array(Seq::empty())) && json::field(
            suggested_tags_body(found),
            "suggestions"@,
        ) == Some(JsonModel::Array(Seq::empty())),
        json::field(found, "capabilityTags"@) == Some(JsonModel::Array(tags)) && 0 <= i < tags.len()
            && json::text_field(tags[i], "value"@) is None ==> json::array_field(
            suggested_tags_body(found),
            "suggestions"@,
        )->0[i] == JsonModel::Text(Seq::empty()),
{
    tag_keys_differ();
    if !(json::member_or_null(found, "capabilityTags"@) is Array) {
        assert(json::text_array(tag_values(suggested_tags(found)))->Array_0 == Seq::<
            JsonModel,
        >::empty());
    }
}

} // verus!
