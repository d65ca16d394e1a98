//! What the node says of itself.

use crate::json::{self, JsonModel};
use crate::text;
use serde_json::Value;
use vstd::prelude::*;

verus! {

/// What became of asking Root about the registrar.
#[derive(Debug)]
pub enum RootProbe {
    /// Root answered with success. The body is there if it was JSON.
    Answered(Option<Value>),
    /// Root answered with another status.
    Rejected(u16),
    /// Root did not answer, for this reason.
    Unreachable(String),
}

/// The answer that the node is up.
pub open spec fn health_body(did: Seq<char>) -> JsonModel {
    JsonModel::Object(
        Map::empty().insert("status"@, JsonModel::Text("ok"@)).insert(
            "nodeType"@,
            JsonModel::Text("registrar"@),
        ).insert("did"@, JsonModel::Text(did)),
    )
}

/// The state of the node.
pub open spec fn status_body(did: Seq<char>, root_endpoint: Seq<char>, count: int) -> JsonModel {
    JsonModel::Object(
        Map::empty().insert("registrarDid"@, JsonModel::Text(did)).insert(
            "rootEndpoint"@,
            JsonModel::Text(root_endpoint),
        ).insert("resourceRecordCount"@, JsonModel::Integer(count)).insert(
            "protocolVersion"@,
            JsonModel::Text("oan-resource-2026"@),
        ),
    )
}

/// Where Root is asked about a registrar.
pub open spec fn root_registrar_url(root_endpoint: Seq<char>, did: Seq<char>) -> Seq<char> {
    text::without_suffixes(root_endpoint, "/"@) + "/root/registrars/"@ + did
}

/// What Root says of the registrar.
pub open spec fn root_authorization_body(
    did: Seq<char>,
    root_endpoint: Seq<char>,
    probe: RootProbe,
) -> JsonModel {
    let head = Map::empty().insert("registrarDid"@, JsonModel::Text(did)).insert(
        "rootEndpoint"@,
        JsonModel::Text(root_endpoint),
    );
    JsonModel::Object(
        match probe {
            RootProbe::Answered(body) => head.insert("rootReachable"@, JsonModel::Bool(true)).insert(
                "authorization"@,
                match body {
                    Some(held) => json::contents(held),
                    None => JsonModel::Object(Map::empty()),
                },
            ),
            RootProbe::Rejected(status) => head.insert(
                "rootReachable"@,
                JsonModel::Bool(true),
            ).insert("status"@, JsonModel::Text("unknown"@)).insert(
                "rootStatusCode"@,
                JsonModel::Integer(status as int),
            ),
            RootProbe::Unreachable(reason) => head.insert(
                "rootReachable"@,
                JsonModel::Bool(false),
            ).insert("error"@, JsonModel::Text(reason@)),
        },
    )
}

/// Answers that the node is up.
pub fn health(did: &str) -> (body: Value)
    ensures
        json::contents(body) == health_body(did@),
{
    let mut body = json::object();
    json::set(&mut body, "status", json::text("ok"));
    json::set(&mut body, "nodeType", json::text("registrar"));
    json::set(&mut body, "did", json::text(did));
    body
}

/// Answers with the state of the node.
pub fn api_status(did: &str, root_endpoint: &str, count: usize) -> (body: Value)
    ensures
        json::contents(body) == status_body(did@, root_endpoint@, count as int),
{
    let mut body = json::object();
    json::set(&mut body, "registrarDid", json::text(did));
    json::set(&mut body, "rootEndpoint", json::text(root_endpoint));
    json::set(&mut body, "resourceRecordCount", json::unsigned(count as u64));
    json::set(&mut body, "protocolVersion", json::text("oan-resource-2026"));
    body
}

/// Where Root is asked about a registrar.
pub fn root_authorization_url(root_endpoint: &str, did: &str) -> (url: String)
    ensures
        url@ == root_registrar_url(root_endpoint@, did@),
{
    let mut url = text::trim_suffixes(root_endpoint, "/");
    url.append("/root/registrars/");
    url.append(did);
    url
}

/// Answers with what Root says of the registrar.
pub fn api_root_authorization(did: &str, root_endpoint: &str, probe: RootProbe) -> (body: Value)
    ensures
        json::contents(body) == root_authorization_body(did@, root_endpoint@, probe),
{
    let mut body = json::object();
    json::set(&mut body, "registrarDid", json::text(did));
    json::set(&mut body, "rootEndpoint", json::text(root_endpoint));
    match probe {
        RootProbe::Answered(held) => {
            let authorization = match held {
                Some(held) => held,
                None => json::object(),
            };
            json::set(&mut body, "rootReachable", json::boolean(true));
            json::set(&mut body, "authorization", authorization);
        },
        RootProbe::Rejected(status) => {
            json::set(&mut body, "rootReachable", json::boolean(true));
            json::set(&mut body, "status", json::text("unknown"));
            json::set(&mut body, "rootStatusCode", json::unsigned(status as u64));
        },
        RootProbe::Unreachable(reason) => {
            json::set(&mut body, "rootReachable", json::boolean(false));
            json::set(&mut body, "error", json::text(reason.as_str()));
        },
    }
    body
}


/// The keys of what the node says of itself are all different.
proof fn node_keys_differ()
    ensures
        "status"@.len() == 6,
        "nodeType"@.len() == 8,
        "did"@.len() == 3,
        "registrarDid"@.len() == 12 && "registrarDid"@[1] == 'e',
        "rootEndpoint"@.len() == 12 && "rootEndpoint"@[1] == 'o',
        "resourceRecordCount"@.len() == 19,
        "protocolVersion"@.len() == 15,
        "rootReachable"@.len() == 13 && "rootReachable"@[0] == 'r',
        "authorization"@.len() == 13 && "authorization"@[0] == 'a',
        "rootStatusCode"@.len() == 14,
        "error"@.len() == 5,
{
    reveal_strlit("status");
    reveal_strlit("nodeType");
    reveal_strlit("did");
    reveal_strlit("registrarDid");
    reveal_strlit("rootEndpoint");
    reveal_strlit("resourceRecordCount");
    reveal_strlit("protocolVersion");
    reveal_strlit("rootReachable");
    reveal_strlit("authorization");
    reveal_strlit("rootStatusCode");
    reveal_strlit("error");
}

/// Whoever asks whether the node is up learns that it is, that it is a registrar, and which one.
pub proof fn law_a_node_that_is_up_says_who_it_is(did: Seq<char>)
    ensures
        json::text_field(health_body(did), "status"@) == Some("ok"@),
        json::text_field(health_body(did), "nodeType"@) == Some("registrar"@),
        json::text_field(health_body(did), "did"@) == Some(did),
        health_body(did)->Object_0.dom() =~= set!["status"@, "nodeType"@, "did"@],
{
    node_keys_differ();
}

/// The state of the node: who it is, which Root it works with, how many records it holds, and
/// the protocol.
pub proof fn law_the_state_says_all_four_things(
    did: Seq<char>,
    root_endpoint: Seq<char>,
    count: int,
)
    ensures
        ({
            let body = status_body(did, root_endpoint, count);
            &&& json::text_field(body, "registrarDid"@) == Some(did)
            &&& json::text_field(body, "rootEndpoint"@) == Some(root_endpoint)
            &&& json::field(body, "resourceRecordCount"@) == Some(JsonModel::Integer(count))
            &&& json::text_field(body, "protocolVersion"@) == Some("oan-resource-2026"@)
            &&& body->Object_0.dom() =~= set![
                "registrarDid"@, "rootEndpoint"@, "resourceRecordCount"@, "protocolVersion"@,
            ]
        }),
{
    node_keys_differ();
}

/// Root is asked below its endpoint, about the very registrar: a slash at the end of the endpoint
/// makes no difference.
pub proof fn law_root_is_asked_about_the_registrar(root_endpoint: Seq<char>, did: Seq<char>)
    ensures
        root_registrar_url(root_endpoint + "/"@, did) == root_registrar_url(root_endpoint, did),
        !text::ends_in(root_endpoint, "/"@) ==> root_registrar_url(root_endpoint, did)
            == root_endpoint + "/root/registrars/"@ + did,
{
    reveal_strlit("/");
    let longer = root_endpoint + "/"@;
    assert(longer.skip(longer.len() - 1) == "/"@);
    assert(longer.take(longer.len() - 1) == root_endpoint);
}

/// What Root says of the registrar is told with the registrar and the Root that was asked. Root
/// counts as reachable if it answered, with whatever status.
pub proof fn law_root_is_reachable_if_it_answers(
    did: Seq<char>,
    root_endpoint: Seq<char>,
    probe: RootProbe,
)
    ensures
        ({
            let body = root_authorization_body(did, root_endpoint, probe);
            &&& json::text_field(body, "registrarDid"@) == Some(did)
            &&& json::text_field(body, "rootEndpoint"@) == Some(root_endpoint)
            &&& json::field(body, "rootReachable"@) == Some(
                JsonModel::Bool(!(probe is Unreachable)),
            )
            &&& json::field(body, "authorization"@) is Some <==> probe is Answered
            &&& json::field(body, "rootStatusCode"@) is Some <==> probe is Rejected
            &&& json::field(body, "status"@) is Some <==> probe is Rejected
            &&& json::field(body, "error"@) is Some <==> probe is Unreachable
            &&& forall|key: Seq<char>| #[trigger]
                json::field(body, key) is Some ==> key == "registrarDid"@ || key
                    == "rootEndpoint"@ || key == "rootReachable"@ || key == "authorization"@ || key
                    == "rootStatusCode"@ || key == "status"@ || key == "error"@
        }),
{
    node_keys_differ();
}

/// What came of asking Root is told as it came: its answer, its status, or the reason why there
/// is none. A success without a body is told as an answer that says nothing.
pub proof fn law_what_root_says_is_told(
    did: Seq<char>,
    root_endpoint: Seq<char>,
    answer: Value,
    status: u16,
    reason: String,
)
    ensures
        json::field(
            root_authorization_body(did, root_endpoint, RootProbe::Answered(Some(answer))),
            "authorization"@,
        ) == Some(json::contents(answer)),
        json::field(
            root_authorization_body(did, root_endpoint, RootProbe::Answered(None)),
            "authorization"@,
        ) == Some(JsonModel::Object(Map::empty())),
        json::field(
            root_authorization_body(did, root_endpoint, RootProbe::Rejected(status)),
            "rootStatusCode"@,
        ) == Some(JsonModel::Integer(status as int)),
        json::text_field(
            root_authorization_body(did, root_endpoint, RootProbe::Rejected(status)),
            "status"@,
        ) == Some("unknown"@),
        json::text_field(
            root_authorization_body(did, root_endpoint, RootProbe::Unreachable(reason)),
            "error"@,
        ) == Some(reason@),
{
    node_keys_differ();
}

} // verus!
