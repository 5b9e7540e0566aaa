use r2d2_influxdb::ext::{Method, Query, SyncClient};
use r2d2_influxdb::{
    AuthInfo, Error, InfluxDBConnectionInfo, InfluxDBConnectionManager, SimpleInfo,
};

fn simple_client() -> SyncClient {
    let info = SimpleInfo { url: "http://localhost:8086".into(), database: "weather".into() };
    let manager = InfluxDBConnectionManager::new(info);
    manager.connect().unwrap()
}

fn auth_client() -> SyncClient {
    let info = AuthInfo {
        url: "http://localhost:8086".into(),
        database: "weather".into(),
        username: "admin".into(),
        password: "pass".into(),
    };
    let manager = InfluxDBConnectionManager::new(info);
    manager.connect().unwrap()
}

#[test]
fn connect_keeps_descriptor() {
    let client = simple_client();
    assert_eq!(client.info.url, "http://localhost:8086");
    assert_eq!(client.info.database, "weather");
    assert!(client.info.credentials.is_none());

    let client = auth_client();
    let creds = client.info.credentials.as_ref().unwrap();
    assert_eq!(creds.username, "admin");
    assert_eq!(creds.password, "pass");
}

#[test]
fn ping_url_appends_ping() {
    let client = simple_client();
    assert_eq!(client.ping_url(), "http://localhost:8086/ping");
}

#[test]
fn ping_with_both_headers_yields_pair() {
    let r = SyncClient::ping_result(Some("OSS".to_string()), Some("1.8.0".to_string()));
    assert_eq!(r, Ok(("OSS".to_string(), "1.8.0".to_string())));
}

#[test]
fn ping_is_idempotent_for_unchanged_headers() {
    let r1 = SyncClient::ping_result(Some("OSS".to_string()), Some("1.8.0".to_string()));
    let r2 = SyncClient::ping_result(Some("OSS".to_string()), Some("1.8.0".to_string()));
    assert_eq!(r1, r2);
}

#[test]
fn ping_with_missing_header_is_protocol_error() {
    let r = SyncClient::ping_result(None, Some("1.8.0".to_string()));
    assert!(matches!(r, Err(Error::ProtocolError { .. })));
    let r = SyncClient::ping_result(Some("OSS".to_string()), None);
    assert!(matches!(r, Err(Error::ProtocolError { .. })));
}

#[test]
fn read_query_builds_get_with_encoded_text() {
    let client = simple_client();
    let q = Query::Read { text: "SELECT * FROM weather".to_string() };
    let req = client.prepare_query(&q).unwrap();
    assert_eq!(req.method, Method::Get);
    assert_eq!(req.url, "http://localhost:8086/query?db=weather&q=SELECT+*+FROM+weather");
    assert!(req.body.is_none());
}

#[test]
fn write_query_builds_post_with_precision_and_body() {
    let client = simple_client();
    let q = Query::Write {
        body: "weather,host=a temperature=21 0".to_string(),
        precision: "ns".to_string(),
    };
    let req = client.prepare_query(&q).unwrap();
    assert_eq!(req.method, Method::Post);
    assert_eq!(req.url, "http://localhost:8086/write?db=weather&precision=ns");
    assert_eq!(req.body, Some("weather,host=a temperature=21 0".to_string()));
}

#[test]
fn read_method_follows_keyword_heuristic() {
    let client = simple_client();
    let show = Query::Read { text: "SHOW DATABASES".to_string() };
    assert_eq!(client.prepare_query(&show).unwrap().method, Method::Get);
    let drop_stmt = Query::Read { text: "DROP MEASUREMENT weather".to_string() };
    assert_eq!(client.prepare_query(&drop_stmt).unwrap().method, Method::Post);
    let embedded = Query::Read { text: "explain SELECT 1".to_string() };
    assert_eq!(client.prepare_query(&embedded).unwrap().method, Method::Get);
}

#[test]
fn credentials_are_attached_exactly_when_configured() {
    let q = Query::Read { text: "SELECT * FROM weather".to_string() };
    let plain = simple_client().prepare_query(&q).unwrap();
    assert!(!plain.url.contains("u=") && !plain.url.contains("p="));
    let authed = auth_client().prepare_query(&q).unwrap();
    assert_eq!(
        authed.url,
        "http://localhost:8086/query?db=weather&u=admin&p=pass&q=SELECT+*+FROM+weather"
    );
}

#[test]
fn malformed_base_url_is_url_construction_error() {
    let info = SimpleInfo { url: "not a url".into(), database: "weather".into() };
    let client = InfluxDBConnectionManager::new(info).connect().unwrap();
    let q = Query::Read { text: "SELECT 1".to_string() };
    assert!(matches!(client.prepare_query(&q), Err(Error::UrlConstructionError { .. })));
}

#[test]
fn status_401_is_authorization_error() {
    let r = SyncClient::classify_response(401, Some("body".to_string()));
    assert_eq!(r, Err(Error::AuthorizationError));
}

#[test]
fn status_403_is_authentication_error() {
    let r = SyncClient::classify_response(403, Some("body".to_string()));
    assert_eq!(r, Err(Error::AuthenticationError));
}

#[test]
fn undecodable_body_is_deserialization_error() {
    let r = SyncClient::classify_response(200, None);
    assert_eq!(
        r,
        Err(Error::DeserializationError {
            error: "response could not be converted to UTF-8".to_string()
        })
    );
}

#[test]
fn error_marker_in_body_is_database_error() {
    let body = "{\"error\":\"database not found\"}";
    let r = SyncClient::classify_response(200, Some(body.to_string()));
    assert_eq!(
        r,
        Err(Error::DatabaseError {
            error: format!("influxdb error: \"{}\"", body)
        })
    );
}

#[test]
fn plain_body_is_returned_uninterpreted() {
    let body = "{\"results\":[{\"statement_id\":0}]}";
    let r = SyncClient::classify_response(204, Some(body.to_string()));
    assert_eq!(r, Ok(body.to_string()));
}

#[test]
fn contains_substring_matches_naively() {
    assert!(r2d2_influxdb::ext::contains_substring("SELECT * FROM x", "SELECT"));
    assert!(r2d2_influxdb::ext::contains_substring("anything", ""));
    assert!(!r2d2_influxdb::ext::contains_substring("select * from x", "SELECT"));
    assert!(!r2d2_influxdb::ext::contains_substring("SELEC", "SELECT"));
    assert!(r2d2_influxdb::ext::contains_substring("xxSHOWxx", "SHOW"));
}

#[test]
fn descriptions_name_each_error_kind() {
    assert_eq!(Error::InvalidQueryError { error: String::new() }.description(), "query is invalid");
    assert_eq!(
        Error::UrlConstructionError { error: String::new() }.description(),
        "failed to build URL"
    );
    assert_eq!(Error::ProtocolError { error: String::new() }.description(), "http protocol error");
    assert_eq!(
        Error::DeserializationError { error: String::new() }.description(),
        "http protocol error"
    );
    assert_eq!(Error::DatabaseError { error: String::new() }.description(), "database error");
    assert_eq!(Error::AuthenticationError.description(), "authentication error");
    assert_eq!(Error::AuthorizationError.description(), "authorization error");
    assert_eq!(Error::ConnectionError { error: String::new() }.description(), "connection error");
}

#[test]
fn validity_follows_ping_outcome() {
    let ok = InfluxDBConnectionManager::is_valid(Ok(("OSS".to_string(), "1.8.0".to_string())));
    assert_eq!(ok, Ok(()));
    assert!(!InfluxDBConnectionManager::has_broken(&ok));

    let err = InfluxDBConnectionManager::is_valid(Err(Error::ConnectionError {
        error: "connection refused".to_string(),
    }));
    assert_eq!(err, Err(Error::ConnectionError { error: "connection refused".to_string() }));
    assert!(InfluxDBConnectionManager::has_broken(&err));
}

#[test]
fn from_simple_and_auth_info() {
    let info: InfluxDBConnectionInfo =
        SimpleInfo { url: "u".into(), database: "d".into() }.into();
    assert_eq!(info.url, "u");
    assert_eq!(info.database, "d");
    assert!(info.credentials.is_none());

    let info: InfluxDBConnectionInfo = AuthInfo {
        url: "u".into(),
        database: "d".into(),
        username: "n".into(),
        password: "pass".into(),
    }
    .into();
    let creds = info.credentials.unwrap();
    assert_eq!(creds.username, "n");
    assert_eq!(creds.password, "pass");
}
