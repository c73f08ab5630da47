use atproto_service::router::{route_for, route_path, str_eq, Route};

#[test]
fn test_route_health() {
    assert_eq!(route_for("GET", "/health"), Some(Route::Health));
}

#[test]
fn test_route_create_record() {
    assert_eq!(
        route_for("POST", "/xrpc/com.atproto.repo.createRecord"),
        Some(Route::CreateRecord)
    );
}

#[test]
fn test_route_get_record() {
    assert_eq!(
        route_for("GET", "/xrpc/com.atproto.repo.getRecord"),
        Some(Route::GetRecord)
    );
}

#[test]
fn test_route_unknown_path() {
    assert_eq!(route_for("GET", "/xrpc/com.atproto.repo.deleteRecord"), None);
    assert_eq!(route_for("GET", ""), None);
}

#[test]
fn test_route_wrong_method() {
    assert_eq!(route_for("POST", "/health"), None);
    assert_eq!(route_for("GET", "/xrpc/com.atproto.repo.createRecord"), None);
    assert_eq!(route_for("PUT", "/health"), None);
}

#[test]
fn test_route_paths() {
    assert_eq!(route_path(Route::Health), "/health");
    assert_eq!(
        route_path(Route::CreateRecord),
        "/xrpc/com.atproto.repo.createRecord"
    );
    assert_eq!(
        route_path(Route::GetRecord),
        "/xrpc/com.atproto.repo.getRecord"
    );
}

#[test]
fn test_str_eq() {
    assert!(str_eq("", ""));
    assert!(str_eq("GET", "GET"));
    assert!(!str_eq("GET", "PUT"));
    assert!(!str_eq("GET", "GETX"));
    assert!(!str_eq("a", ""));
}
