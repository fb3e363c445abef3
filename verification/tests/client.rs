//! Tests of request assembly and response handling.
use api_client::{format_request, handle_response, Authorization, Error, FormattedRequest, Method, RequestData};

fn assemble(
    base_url: &str,
    endpoint: &str,
    auth: Option<Authorization>,
    data: RequestData,
) -> FormattedRequest {
    format_request(
        base_url.as_bytes().to_vec(),
        Method::Get,
        endpoint.as_bytes().to_vec(),
        Vec::new(),
        Vec::new(),
        auth,
        data,
    )
    .unwrap()
}

fn pair(name: &str, value: &str) -> (Vec<u8>, Vec<u8>) {
    (name.as_bytes().to_vec(), value.as_bytes().to_vec())
}

#[test]
fn joins_base_and_trimmed_endpoint() {
    let f = assemble("http://example.test", "/hello", None, RequestData::Empty);
    assert_eq!(f.url, b"http://example.test/hello".to_vec());
    assert_eq!(f.method, Method::Get);
    assert!(f.headers.is_empty());
    assert!(f.body.is_empty());

    let f = assemble("http://example.test", "///nested/page//", None, RequestData::Empty);
    assert_eq!(f.url, b"http://example.test/nested/page".to_vec());

    let f = assemble("http://example.test", "////", None, RequestData::Empty);
    assert_eq!(f.url, b"http://example.test/".to_vec());

    let f = assemble("http://example.test", "", None, RequestData::Empty);
    assert_eq!(f.url, b"http://example.test/".to_vec());
}

#[test]
fn query_data_joins_the_url() {
    let f = assemble(
        "http://example.test",
        "/hello",
        None,
        RequestData::Query(b"name=world".to_vec()),
    );
    assert_eq!(f.url, b"http://example.test/hello?name=world".to_vec());
    assert!(f.body.is_empty());
    assert!(f.headers.is_empty());
}

#[test]
fn form_data_sets_content_type_and_body() {
    let f = assemble(
        "http://example.test",
        "/hello",
        None,
        RequestData::Form(b"name=world".to_vec()),
    );
    assert_eq!(f.url, b"http://example.test/hello".to_vec());
    assert_eq!(
        f.headers,
        vec![pair("content-type", "application/x-www-form-urlencoded")]
    );
    assert_eq!(f.body, b"name=world".to_vec());
}

#[test]
fn json_data_sets_content_type_and_body() {
    let body = br#"{"name":"world"}"#.to_vec();
    let f = assemble(
        "http://example.test",
        "/hello",
        None,
        RequestData::Json(body.clone()),
    );
    assert_eq!(f.url, b"http://example.test/hello".to_vec());
    assert_eq!(f.headers, vec![pair("content-type", "application/json")]);
    assert_eq!(f.body, body);
}

#[test]
fn bearer_auth_adds_the_authorization_header() {
    let f = assemble(
        "http://example.test",
        "/hello",
        Some(Authorization::Bearer(b"PASSWORD".to_vec())),
        RequestData::Empty,
    );
    assert_eq!(f.headers, vec![pair("authorization", "Bearer PASSWORD")]);
    assert_eq!(f.url, b"http://example.test/hello".to_vec());
}

#[test]
fn basic_auth_encodes_the_credentials() {
    let f = assemble(
        "http://example.test",
        "/hello",
        Some(Authorization::Basic(b"user".to_vec(), Some(b"pass".to_vec()))),
        RequestData::Empty,
    );
    // base64 of "user:pass".
    assert_eq!(f.headers, vec![pair("authorization", "Basic dXNlcjpwYXNz")]);

    let f = assemble(
        "http://example.test",
        "/hello",
        Some(Authorization::Basic(b"user".to_vec(), None)),
        RequestData::Empty,
    );
    // base64 of "user:".
    assert_eq!(f.headers, vec![pair("authorization", "Basic dXNlcjo=")]);
}

#[test]
fn query_auth_joins_the_url() {
    let f = assemble(
        "http://example.test",
        "/hello",
        Some(Authorization::Query(vec![("key".to_string(), "secret".to_string())])),
        RequestData::Empty,
    );
    assert_eq!(f.url, b"http://example.test/hello?key=secret".to_vec());
    assert!(f.headers.is_empty());

    // Values pass through the form encoder.
    let f = assemble(
        "http://example.test",
        "/hello",
        Some(Authorization::Query(vec![("key".to_string(), "a b&c".to_string())])),
        RequestData::Empty,
    );
    assert_eq!(f.url, b"http://example.test/hello?key=a+b%26c".to_vec());
}

#[test]
fn header_auth_appends_the_pairs() {
    let f = assemble(
        "http://example.test",
        "/hello",
        Some(Authorization::Header(vec![pair("key", "secret"), pair("other", "value")])),
        RequestData::Empty,
    );
    assert_eq!(f.headers, vec![pair("key", "secret"), pair("other", "value")]);
}

#[test]
fn headers_keep_application_order() {
    let f = format_request(
        b"http://example.test".to_vec(),
        Method::Post,
        b"/hello".to_vec(),
        vec![pair("user-agent", "api-client")],
        vec![pair("accept", "application/json")],
        Some(Authorization::Bearer(b"tok".to_vec())),
        RequestData::Form(b"name=world".to_vec()),
    )
    .unwrap();
    assert_eq!(
        f.headers,
        vec![
            pair("user-agent", "api-client"),
            pair("accept", "application/json"),
            pair("authorization", "Bearer tok"),
            pair("content-type", "application/x-www-form-urlencoded"),
        ]
    );
    assert_eq!(f.method, Method::Post);
}

#[test]
fn payload_query_wins_over_query_auth() {
    // A request that carries a payload resets the URL: query authorization
    // reaches the URL only when the payload is empty.
    let f = assemble(
        "http://example.test",
        "/page",
        Some(Authorization::Query(vec![("key".to_string(), "secret".to_string())])),
        RequestData::Query(b"page=1".to_vec()),
    );
    assert_eq!(f.url, b"http://example.test/page?page=1".to_vec());
}

#[test]
fn second_query_appends_with_ampersand() {
    let f = assemble(
        "http://example.test?tenant=a",
        "/page",
        None,
        RequestData::Query(b"page=1".to_vec()),
    );
    assert_eq!(f.url, b"http://example.test?tenant=a/page&page=1".to_vec());
}

#[test]
fn success_status_hands_back_the_body() {
    assert_eq!(
        handle_response(200, b"Hello, world!".to_vec()),
        Ok(b"Hello, world!".to_vec())
    );
    assert_eq!(handle_response(200, Vec::new()), Ok(Vec::new()));
    assert_eq!(handle_response(299, b"x".to_vec()), Ok(b"x".to_vec()));
}

#[test]
fn client_error_status_is_rejected_with_the_body() {
    assert_eq!(
        handle_response(404, b"missing".to_vec()),
        Err(Error::ClientError(404, b"missing".to_vec()))
    );
    assert_eq!(
        handle_response(400, Vec::new()),
        Err(Error::ClientError(400, Vec::new()))
    );
    assert_eq!(
        handle_response(499, Vec::new()),
        Err(Error::ClientError(499, Vec::new()))
    );
}

#[test]
fn other_statuses_are_server_errors() {
    assert_eq!(
        handle_response(500, b"boom".to_vec()),
        Err(Error::ServerError(500, b"boom".to_vec()))
    );
    assert_eq!(
        handle_response(302, Vec::new()),
        Err(Error::ServerError(302, Vec::new()))
    );
    assert_eq!(
        handle_response(199, Vec::new()),
        Err(Error::ServerError(199, Vec::new()))
    );
    assert_eq!(
        handle_response(300, Vec::new()),
        Err(Error::ServerError(300, Vec::new()))
    );
}
