use registrar_node::listing::{api_resources, ResourceListQuery, ResourcePage};
use registrar_node::records::{
    public_resource_record_projection, public_resource_record_projection_from_json,
    REGISTRAR_MAX_PAGE_BYTES, REGISTRAR_MAX_RECORD_BYTES,
};
use serde_json::Value;

fn json(text: &str) -> Value {
    serde_json::from_str(text).unwrap()
}

fn record(did: &str) -> Value {
    json(&format!("{{\"resourceDid\": \"{did}\", \"resourceType\": \"skill\"}}"))
}

fn query(after_did: Option<&str>, limit: Option<u32>) -> ResourceListQuery {
    ResourceListQuery {
        after_did: after_did.map(str::to_owned),
        limit,
    }
}

fn dids(page: &Value) -> Vec<String> {
    page["items"]
        .as_array()
        .unwrap()
        .iter()
        .map(|item| item["resourceDid"].as_str().unwrap().to_string())
        .collect()
}

#[test]
fn following_the_pages_shows_every_record_once() {
    let mut kept: Vec<Value> = (0..23).map(|i| record(&format!("did:oan:{:03}", (i * 7) % 23))).collect();
    kept.push(json("{\"resourceType\": \"skill\"}"));
    kept.push(json("{\"resourceDid\": 5}"));
    for limit in [1, 2, 5, 23, 100] {
        let mut seen = Vec::new();
        let mut after: Option<String> = None;
        let mut calls = 0;
        loop {
            calls += 1;
            let page = api_resources(&kept, &query(after.as_deref(), Some(limit))).unwrap();
            assert_eq!(page["count"], page["items"].as_array().unwrap().len());
            assert!(page["count"].as_u64().unwrap() <= u64::from(limit));
            match &after {
                Some(did) => assert_eq!(page["afterDid"], did.as_str()),
                None => assert!(page["afterDid"].is_null()),
            }
            seen.extend(dids(&page));
            assert_eq!(page["hasMore"], page["nextDid"].is_string());
            match page["nextDid"].as_str() {
                Some(did) => after = Some(did.to_string()),
                None => break,
            }
        }
        let expected: Vec<String> = (0..23).map(|i| format!("did:oan:{i:03}")).collect();
        assert_eq!(seen, expected);
        assert_eq!(calls, (23 + limit - 1) / limit);
    }
    let none = api_resources(&vec![], &query(None, Some(3))).unwrap();
    assert_eq!((none["count"].as_u64(), none["hasMore"].as_bool()), (Some(0), Some(false)));
}

#[test]
fn records_with_one_did_stay_in_order() {
    let mut first = record("did:oan:x");
    first["packageVersion"] = Value::from("1");
    let mut second = record("did:oan:x");
    second["packageVersion"] = Value::from("2");
    let page = api_resources(&vec![record("did:oan:y"), first, second], &query(None, None)).unwrap();
    assert_eq!(dids(&page), ["did:oan:x", "did:oan:x", "did:oan:y"]);
    assert_eq!(page["items"][0]["packageVersion"], "1");
    assert_eq!(page["items"][1]["packageVersion"], "2");
}

#[test]
fn records_are_listed_alike_in_any_order() {
    let mut kept: Vec<Value> = ["did:b", "did:d", "did:a", "did:c"].iter().map(|did| record(did)).collect();
    let page = api_resources(&kept, &query(Some("did:a"), Some(2))).unwrap();
    assert_eq!(dids(&page), ["did:b", "did:c"]);
    kept.reverse();
    assert_eq!(api_resources(&kept, &query(Some("did:a"), Some(2))).unwrap(), page);
    kept.rotate_left(1);
    assert_eq!(api_resources(&kept, &query(Some("did:a"), Some(2))).unwrap(), page);
}

#[test]
fn the_default_page_holds_a_hundred_records() {
    let kept: Vec<Value> = (0..101).map(|i| record(&format!("did:oan:{i:03}"))).collect();
    let page = api_resources(&kept, &query(None, None)).unwrap();
    assert_eq!(page["count"], 100);
    assert_eq!(page["hasMore"], true);
    assert_eq!(page["nextDid"], "did:oan:099");
    let page = api_resources(&kept, &query(None, Some(500))).unwrap();
    assert_eq!(page["count"], 101);
}

#[test]
fn pages_do_not_grow_beyond_their_bytes() {
    let mut kept = Vec::new();
    for i in 0..9 {
        let mut large = record(&format!("did:oan:{i}"));
        large["payload"] = Value::from("x".repeat(REGISTRAR_MAX_RECORD_BYTES - 1000));
        kept.push(large);
    }
    let err = api_resources(&kept, &query(None, None)).unwrap_err();
    assert_eq!((err.status, err.message.as_str()), (400, "resource_page_too_large"));
    let page = api_resources(&kept, &query(None, Some(8))).unwrap();
    assert_eq!(page["count"], 8);
}

#[test]
fn listed_records_are_the_kept_ones() {
    let nested = |depth: usize| json(&format!("{}{}", "[".repeat(depth), "]".repeat(depth)));
    let mut held = record("did:oan:x");
    held["packageVersion"] = Value::from("\u{0}\"\\\u{e9}\u{1f600}");
    held["authorizedDomains"] = json("[-9223372036854775808, 18446744073709551615, null, true]");
    held["packageHash"] = nested(126);
    let page = api_resources(&vec![held.clone()], &query(None, None)).unwrap();
    assert_eq!(page["items"][0], public_resource_record_projection(&held));
    let inner = nested(126);
    held["packageHash"] = Value::Array(vec![inner]);
    let err = api_resources(&vec![held], &query(None, None)).unwrap_err();
    assert_eq!(err.status, 500);
    assert!(err.message.starts_with("recursion limit exceeded"));
}

#[test]
fn record_texts_are_counted_and_parsed() {
    let mut bytes = 5;
    let text = "{\"resourceDid\": \"did:oan:\u{e9}\"}";
    let shown = public_resource_record_projection_from_json(text, &mut bytes).unwrap();
    assert_eq!(shown, json("{\"resourceDid\": \"did:oan:\u{e9}\"}"));
    assert_eq!(bytes, 5 + text.len());

    let mut bytes = 0;
    let err = public_resource_record_projection_from_json("{", &mut bytes).unwrap_err();
    assert_eq!(err.status, 500);
    let expected = serde_json::from_str::<Value>("{").unwrap_err().to_string();
    assert_eq!(err.message, expected);
    assert_eq!(bytes, 1);

    let mut bytes = REGISTRAR_MAX_PAGE_BYTES;
    let err = public_resource_record_projection_from_json("{}", &mut bytes).unwrap_err();
    assert_eq!(err.message, "resource_page_too_large");
    assert_eq!(bytes, REGISTRAR_MAX_PAGE_BYTES + 2);

    let mut bytes = 7;
    let large = " ".repeat(REGISTRAR_MAX_RECORD_BYTES + 1);
    let err = public_resource_record_projection_from_json(&large, &mut bytes).unwrap_err();
    assert_eq!(err.message, "resource_record_too_large");
    assert_eq!(bytes, 7);

    let mut bytes = usize::MAX;
    let err = public_resource_record_projection_from_json("{}", &mut bytes).unwrap_err();
    assert_eq!(err.message, "resource_page_too_large");
    assert_eq!(bytes, usize::MAX);
}

#[test]
fn streamed_pages_refuse_rows_like_listings() {
    let page = ResourcePage::new(&query(Some("did:oan:a"), Some(3))).unwrap();
    assert_eq!(page.size(), 3);
    assert_eq!(page.last_seen(), "did:oan:a");
    let page = page.with("did:oan:b".to_string(), "{\"resourceDid\": \"did:oan:b\"}").unwrap();
    assert_eq!(page.last_seen(), "did:oan:b");
    let err = match page.with("did:oan:c".to_string(), "no json") {
        Ok(_) => panic!("a row that is no JSON was taken"),
        Err(err) => err,
    };
    assert_eq!(err.status, 500);
    let empty = ResourcePage::new(&query(Some("did:oan:a"), None)).unwrap().finish(false);
    assert_eq!(
        empty,
        json("{\"items\": [], \"count\": 0, \"afterDid\": \"did:oan:a\", \"nextDid\": null, \"hasMore\": false}")
    );
    let err = ResourcePage::new(&query(None, Some(501))).err().unwrap();
    assert_eq!(err.message, "invalid_resource_page_limit");
}

#[test]
fn projections_depend_on_public_members_alone() {
    let mut left = record("did:oan:x");
    left["rootResponse"] = json("{\"status\": \"queued\", \"detail\": 1}");
    left["registrationCredential"] = json("{\"secret\": 1}");
    let mut right = record("did:oan:x");
    right["rootResponse"] = json("{\"status\": \"queued\", \"detail\": 2}");
    right["rootStatus"] = Value::from("forged");
    assert_eq!(
        public_resource_record_projection(&left),
        public_resource_record_projection(&right)
    );
    assert_eq!(
        public_resource_record_projection(&left),
        json("{\"resourceDid\": \"did:oan:x\", \"resourceType\": \"skill\", \"rootStatus\": \"queued\"}")
    );
    assert_eq!(public_resource_record_projection(&json("[1]")), json("{}"));
}
