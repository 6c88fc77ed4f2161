use fred_rs::category::{Category, Response};
use fred_rs::client::{conclude, receive, Call, Decoded, FredClient, Reply, FRED_BASE_URL, MISSING_API_KEY};
use fred_rs::endpoint::{describe, Endpoint, RequiredParamSpec, RequiredValue, ResponseShape};
use fred_rs::error::ClientError;
use fred_rs::query::QueryBuilder;
use serde_json::Value;

fn client() -> FredClient {
    FredClient::with_base_url("K".to_string(), "https://host/fred/".to_string())
}

fn decode_categories(body: &str) -> Decoded<Response> {
    let value: Value = match serde_json::from_str(body) {
        Ok(value) => value,
        Err(e) => return Decoded::Mismatch { details: e.to_string() },
    };
    if let Some(code) = value.get("error_code").and_then(Value::as_u64) {
        return Decoded::ErrorObject { code: code as u16 };
    }
    let items = match value.get("categories").and_then(Value::as_array) {
        Some(items) => items,
        None => return Decoded::Mismatch { details: "missing field `categories`".to_string() },
    };
    let mut categories = Vec::new();
    for item in items {
        let id = item.get("id").and_then(Value::as_u64);
        let name = item.get("name").and_then(Value::as_str);
        let parent_id = item.get("parent_id").and_then(Value::as_u64);
        match (id, name, parent_id) {
            (Some(id), Some(name), Some(parent_id)) => categories.push(Category {
                id: id as usize,
                name: name.to_string(),
                parent_id: parent_id as usize,
                notes: item.get("notes").and_then(Value::as_str).map(str::to_string),
            }),
            _ => return Decoded::Mismatch { details: "not a category".to_string() },
        }
    }
    Decoded::Value(Response { categories })
}

/// Runs one call against a prepared reply and counts the decode attempts.
fn run(reply: Reply, attempts: &mut usize) -> Result<Response, ClientError> {
    let body = receive(reply)?;
    *attempts += 1;
    conclude(decode_categories(&body), body)
}

#[test]
fn category_call_composes_the_address_and_decodes_the_reply() {
    let call = client().category(125);
    assert!(call.url.ends_with("/category?api_key=K&file_type=json&category_id=125"));
    assert_eq!(call.url, "https://host/fred/category?api_key=K&file_type=json&category_id=125");
    assert_eq!(call.shape, ResponseShape::Categories);

    let mut attempts = 0;
    let reply = Reply::Received {
        status: 200,
        body: "{\"categories\":[{\"id\":125,\"name\":\"Trade Balance\",\"parent_id\":13}]}".to_string(),
    };
    let response = run(reply, &mut attempts).expect("a decoded value");
    assert_eq!(attempts, 1);
    assert_eq!(response.categories[0].id, 125);
    assert_eq!(response.categories[0].name, "Trade Balance");
    assert_eq!(response.categories[0].parent_id, 13);
}

#[test]
fn failure_status_is_an_api_error_without_a_decode_attempt() {
    let body = "{\"error_code\":400,\"error_message\":\"Bad Request\"}";
    let mut attempts = 0;
    let outcome = run(Reply::Received { status: 400, body: body.to_string() }, &mut attempts);
    assert_eq!(attempts, 0);
    match outcome {
        Err(ClientError::Api { status, body: kept }) => {
            assert_eq!(status, 400);
            assert_eq!(kept, body);
            assert!(kept.contains("error_message"));
            assert!(kept.contains("Bad Request"));
        }
        other => panic!("not an API error: {:?}", other),
    }
}

#[test]
fn body_of_another_shape_is_a_decode_error() {
    let mut attempts = 0;
    let outcome = run(
        Reply::Received { status: 200, body: "{\"unexpected\":1}".to_string() },
        &mut attempts,
    );
    assert_eq!(attempts, 1);
    match outcome {
        Err(ClientError::Decode { details, body }) => {
            assert_eq!(details, "missing field `categories`");
            assert_eq!(body, "{\"unexpected\":1}");
        }
        other => panic!("not a decode error: {:?}", other),
    }
}

#[test]
fn malformed_body_is_a_decode_error() {
    let mut attempts = 0;
    let outcome = run(Reply::Received { status: 200, body: "{\"categories\":".to_string() }, &mut attempts);
    assert!(matches!(outcome, Err(ClientError::Decode { ref body, .. }) if body == "{\"categories\":"));

    let outcome = run(
        Reply::Received { status: 200, body: "{\"categories\":[{\"id\":1}]}".to_string() },
        &mut attempts,
    );
    assert_eq!(
        outcome.err(),
        Some(ClientError::Decode {
            details: "not a category".to_string(),
            body: "{\"categories\":[{\"id\":1}]}".to_string(),
        })
    );
}

#[test]
fn transport_failure_is_a_transport_error() {
    let outcome = receive(Reply::Failed { details: "connection refused".to_string() });
    assert_eq!(outcome, Err(ClientError::Transport { details: "connection refused".to_string() }));
}

#[test]
fn only_the_2xx_statuses_lead_to_decoding() {
    for status in [0u16, 100, 199, 300, 301, 400, 404, 429, 500, 503, u16::MAX] {
        let outcome = receive(Reply::Received { status, body: "b".to_string() });
        assert_eq!(outcome, Err(ClientError::Api { status, body: "b".to_string() }));
    }
    for status in [200u16, 201, 204, 250, 299] {
        let outcome = receive(Reply::Received { status, body: "b".to_string() });
        assert_eq!(outcome, Ok("b".to_string()));
    }
}

#[test]
fn conclude_routes_each_decode_outcome() {
    let value: Result<u8, ClientError> = conclude(Decoded::Value(7u8), "seven".to_string());
    assert_eq!(value, Ok(7));

    let object: Result<u8, ClientError> =
        conclude(Decoded::ErrorObject { code: 400 }, "{\"error_code\":400}".to_string());
    assert_eq!(
        object,
        Err(ClientError::Api { status: 400, body: "{\"error_code\":400}".to_string() })
    );

    let mismatch: Result<u8, ClientError> =
        conclude(Decoded::Mismatch { details: "expected a number".to_string() }, "x".to_string());
    assert_eq!(
        mismatch,
        Err(ClientError::Decode { details: "expected a number".to_string(), body: "x".to_string() })
    );
}

#[test]
fn error_object_with_success_status_is_an_api_error() {
    let mut attempts = 0;
    let body = "{\"error_code\":429,\"error_message\":\"Too Many Requests\"}";
    let outcome = run(Reply::Received { status: 200, body: body.to_string() }, &mut attempts);
    assert_eq!(attempts, 1);
    assert_eq!(outcome.err(), Some(ClientError::Api { status: 429, body: body.to_string() }));
}

#[test]
fn client_needs_an_api_key() {
    match FredClient::new(None) {
        Err(ClientError::Configuration { details }) => assert_eq!(details, MISSING_API_KEY),
        other => panic!("a client without a key: {:?}", other),
    }
    let client = FredClient::new(Some("abcdef".to_string())).expect("a client");
    let call = client.releases(None);
    assert_eq!(FRED_BASE_URL, "https://api.stlouisfed.org/fred/");
    assert_eq!(call.url, "https://api.stlouisfed.org/fred/releases?api_key=abcdef&file_type=json");
}

#[test]
fn every_endpoint_is_callable_without_options() {
    let c = client();
    assert_eq!(c.category(0).url, "https://host/fred/category?api_key=K&file_type=json&category_id=0");
    assert_eq!(c.releases(None).url, "https://host/fred/releases?api_key=K&file_type=json");
    assert_eq!(
        c.release_sources(51, None).url,
        "https://host/fred/release/sources?api_key=K&file_type=json&release_id=51"
    );
    assert_eq!(
        c.release_related_tags(86, fred_rs::release::related_tags::Builder::new()).url,
        "https://host/fred/release/related_tags?api_key=K&file_type=json&release_id=86"
    );
    assert_eq!(
        c.series_release("UNRATE", None).url,
        "https://host/fred/series/release?api_key=K&file_type=json&series_id=UNRATE"
    );
    assert_eq!(
        c.releases(Some(fred_rs::releases::Builder::new())).url,
        c.releases(None).url
    );
}

#[test]
fn generic_call_finalizes_the_builder() {
    let c = client();
    let mut builder = QueryBuilder::new();
    builder.set_date_param("realtime_start", "2000-01-01").set_free_text("search_text", "a b");
    let call: Call = c.call(Endpoint::ReleaseSources, &RequiredValue::Id(9), Some(builder));
    assert_eq!(
        call.url,
        "https://host/fred/release/sources?api_key=K&file_type=json&release_id=9&realtime_start=2000-01-01&search_text=a%20b"
    );
    assert_eq!(call.shape, ResponseShape::Sources);

    let call = c.call(Endpoint::SeriesRelease, &RequiredValue::Code("GNPCA".to_string()), None);
    assert_eq!(call.url, "https://host/fred/series/release?api_key=K&file_type=json&series_id=GNPCA");

    let call = c.request(Endpoint::Category, &RequiredValue::Id(18446744073709551615usize), "&x=y");
    assert_eq!(
        call.url,
        "https://host/fred/category?api_key=K&file_type=json&category_id=18446744073709551615&x=y"
    );
}

#[test]
fn required_value_is_sent_under_the_declared_key_only() {
    let c = client();
    let call = c.request(Endpoint::Releases, &RequiredValue::Id(5), "");
    assert_eq!(call.url, "https://host/fred/releases?api_key=K&file_type=json");
    let call = c.request(Endpoint::Category, &RequiredValue::Absent, "&limit=1");
    assert_eq!(call.url, "https://host/fred/category?api_key=K&file_type=json&limit=1");
    let call = c.request(Endpoint::Category, &RequiredValue::Code("abc".to_string()), "");
    assert_eq!(call.url, "https://host/fred/category?api_key=K&file_type=json&category_id=abc");
}

#[test]
fn registry_describes_every_endpoint() {
    let d = describe(Endpoint::Category);
    assert_eq!(d.path, "category");
    assert_eq!(d.required, RequiredParamSpec::NumericId { key: "category_id" });
    assert_eq!(d.shape, ResponseShape::Categories);

    let d = describe(Endpoint::Releases);
    assert_eq!(d.path, "releases");
    assert_eq!(d.required, RequiredParamSpec::Nothing);
    assert_eq!(d.required.key(), None);
    assert_eq!(d.shape, ResponseShape::Releases);

    let d = describe(Endpoint::ReleaseSources);
    assert_eq!(d.path, "release/sources");
    assert_eq!(d.required.key(), Some("release_id"));
    assert_eq!(d.shape, ResponseShape::Sources);

    let d = describe(Endpoint::ReleaseRelatedTags);
    assert_eq!(d.path, "release/related_tags");
    assert_eq!(d.required, RequiredParamSpec::NumericId { key: "release_id" });
    assert_eq!(d.shape, ResponseShape::Tags);

    let d = describe(Endpoint::SeriesRelease);
    assert_eq!(d.path, "series/release");
    assert_eq!(d.required, RequiredParamSpec::StringCode { key: "series_id" });
    assert_eq!(d.shape, ResponseShape::Releases);

    assert_eq!(ResponseShape::Categories.list_field(), "categories");
    assert_eq!(ResponseShape::Releases.list_field(), "releases");
    assert_eq!(ResponseShape::Sources.list_field(), "sources");
    assert_eq!(ResponseShape::Tags.list_field(), "tags");
}
