use atproto_service::handlers::{
    create_record, create_record_endpoint, get_record, get_record_endpoint, health,
    parse_get_record_query,
};
use atproto_service::messages::{CreateRecordRequest, GetRecordQuery};
use atproto_service::router::{route_for, Route};

#[test]
fn test_health_endpoint() {
    assert_eq!(route_for("GET", "/health"), Some(Route::Health));

    let health = health();
    assert_eq!(health.status, "healthy");
    assert_eq!(health.version, "0.1.0");
    assert_eq!(health.service, "simple-atproto-service");
    assert!(!health.service.is_empty());
}

#[test]
fn test_create_record() {
    let request = CreateRecordRequest {
        repo: "did:plc:example123".to_string(),
        collection: "app.bsky.feed.post".to_string(),
        record: "{\"text\":\"Hello World!\"}".to_string(),
    };

    let result = create_record_endpoint(Some(request));
    assert!(result.is_ok());
    let response = result.unwrap();
    assert!(response
        .uri
        .starts_with("at://did:plc:example123/app.bsky.feed.post/"));
}

#[test]
fn test_get_record() {
    let parsed = parse_get_record_query(
        Some("did:plc:example123".to_string()),
        Some("app.bsky.feed.post".to_string()),
        Some("example123".to_string()),
    );
    let result = get_record_endpoint(parsed);
    assert!(result.is_ok());
    let response = result.unwrap();
    assert_eq!(
        response.uri,
        "at://did:plc:example123/app.bsky.feed.post/example123"
    );
}

#[test]
fn test_atproto_endpoint() {
    assert_eq!(
        route_for("POST", "/xrpc/com.atproto.repo.createRecord"),
        Some(Route::CreateRecord)
    );

    let request = CreateRecordRequest {
        repo: "did:plc:example123".to_string(),
        collection: "app.bsky.feed.post".to_string(),
        record: "{\"text\":\"Hello World!\"}".to_string(),
    };

    let result = create_record_endpoint(Some(request));
    assert!(result.is_ok());
    let response = result.unwrap();
    assert_eq!(
        response.uri,
        "at://did:plc:example123/app.bsky.feed.post/example123"
    );
}

#[test]
fn test_create_record_uri_and_cid() {
    let request = CreateRecordRequest {
        repo: "did:plc:abcd1234".to_string(),
        collection: "app.bsky.feed.like".to_string(),
        record: "{}".to_string(),
    };
    let response = create_record(&request);
    assert_eq!(
        response.uri,
        "at://did:plc:abcd1234/app.bsky.feed.like/example123"
    );
    assert_eq!(
        response.cid,
        "bafyreigbtj4x7ip5legnfznufuopl4sg4knzc2cof6duas4b3q2fy6swua"
    );
}

#[test]
fn test_create_record_empty_fields() {
    let request = CreateRecordRequest {
        repo: String::new(),
        collection: String::new(),
        record: String::new(),
    };
    let response = create_record(&request);
    assert_eq!(response.uri, "at:////example123");
}

#[test]
fn test_get_record_uri_roundtrip() {
    let query = GetRecordQuery {
        repo: "did:plc:example123".to_string(),
        collection: "app.bsky.feed.post".to_string(),
        rkey: "3k2akqmme5z2a".to_string(),
    };
    let response = get_record(&query);
    assert_eq!(
        response.uri,
        "at://did:plc:example123/app.bsky.feed.post/3k2akqmme5z2a"
    );
}

#[test]
fn test_get_record_constants() {
    let query = GetRecordQuery {
        repo: "did:plc:example123".to_string(),
        collection: "app.bsky.feed.post".to_string(),
        rkey: "self".to_string(),
    };
    let response = get_record(&query);
    assert_eq!(
        response.cid,
        "bafyreigbtj4x7ip5legnfznufuopl4sg4knzc2cof6duas4b3q2fy6swua"
    );
    assert_eq!(
        response.value,
        "{\"text\":\"Hello ATProto!\",\"createdAt\":\"2024-01-01T00:00:00Z\"}"
    );
}

#[test]
fn test_create_record_malformed_body() {
    let result = create_record_endpoint(None);
    assert!(result.is_err());
    let status = result.unwrap_err();
    assert_eq!(status, 400);
    assert!((400..500).contains(&status));
}

#[test]
fn test_get_record_missing_param() {
    let parsed = parse_get_record_query(
        Some("did:plc:example123".to_string()),
        Some("app.bsky.feed.post".to_string()),
        None,
    );
    assert!(parsed.is_none());

    let result = get_record_endpoint(parsed);
    assert!(result.is_err());
    let status = result.unwrap_err();
    assert_eq!(status, 400);
    assert!((400..500).contains(&status));
}

#[test]
fn test_parse_query_complete() {
    let parsed = parse_get_record_query(
        Some("did:plc:example123".to_string()),
        Some("app.bsky.feed.post".to_string()),
        Some("3k2akqmme5z2a".to_string()),
    );
    assert!(parsed.is_some());
    let query = parsed.unwrap();
    assert_eq!(query.repo, "did:plc:example123");
    assert_eq!(query.collection, "app.bsky.feed.post");
    assert_eq!(query.rkey, "3k2akqmme5z2a");
}

#[test]
fn test_responses_pure() {
    let first = health();
    let second = health();
    assert_eq!(first.status, second.status);
    assert_eq!(first.version, second.version);
    assert_eq!(first.service, second.service);

    let make_request = || CreateRecordRequest {
        repo: "did:plc:example123".to_string(),
        collection: "app.bsky.feed.post".to_string(),
        record: "{}".to_string(),
    };
    let r1 = create_record(&make_request());
    let r2 = create_record(&make_request());
    assert_eq!(r1.uri, r2.uri);
    assert_eq!(r1.cid, r2.cid);

    let make_query = || GetRecordQuery {
        repo: "did:plc:example123".to_string(),
        collection: "app.bsky.feed.post".to_string(),
        rkey: "self".to_string(),
    };
    let g1 = get_record(&make_query());
    let g2 = get_record(&make_query());
    assert_eq!(g1.uri, g2.uri);
    assert_eq!(g1.cid, g2.cid);
    assert_eq!(g1.value, g2.value);
}
