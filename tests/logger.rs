use actix_web_middleware_slogger::{
    kv_pairs, CaptureSession, Completion, ConfigError, Field, Fields, FieldsBuilder, HttpVersion,
    RequestId, RequestInfo, ResponseInfo, SLogger, Stage,
};
use time::format_description::well_known::Rfc3339;
use time::OffsetDateTime;

fn header(name: &str, value: &str) -> (String, Vec<u8>) {
    (name.to_string(), value.as_bytes().to_vec())
}

fn request(uri_path: &str, query: &str, headers: Vec<(String, Vec<u8>)>) -> RequestInfo {
    RequestInfo {
        method: "GET".to_string(),
        path: uri_path.to_string(),
        query: query.to_string(),
        version: HttpVersion::Http11,
        host: "localhost:8080".to_string(),
        peer_addr: None,
        real_ip: None,
        headers,
        tracing_request_id: None,
    }
}

fn test_request() -> RequestInfo {
    request(
        "/test",
        "param=value",
        vec![
            header("user-agent", "test-agent"),
            header("referer", "https://example.com"),
            header("x-request-id", "test-id"),
        ],
    )
}

fn completion(seconds: &str, millis: &str, env: Vec<(&str, Option<&str>)>) -> Completion {
    Completion {
        seconds: seconds.to_string(),
        millis: millis.to_string(),
        env: env
            .into_iter()
            .map(|(k, v)| (k.to_string(), v.map(|s| s.to_string())))
            .collect(),
    }
}

fn kv(field: Field) -> (String, Option<String>) {
    match field {
        Field::KV(k, v) => (k, v),
        _ => panic!("Field should be KV"),
    }
}

fn render_req(field: Field, now: i128, req: &RequestInfo) -> (String, Option<String>) {
    let mut field = field;
    field.render_request(now, req);
    kv(field)
}

#[test]
fn test_slogger_builder() {
    let logger = SLogger::default();
    assert_eq!(logger.target(), "actix_web_middleware_slogger::logger");
    assert!(logger.exclude_paths().is_empty());
    assert!(logger.patterns().is_empty());

    let logger = SLogger::default()
        .exclude("/health")
        .exclude_regex("^/api/v1/.*")
        .unwrap()
        .log_target("custom_target");

    assert_eq!(logger.target(), "custom_target");
    assert!(logger.excludes_path("/health"));
    assert_eq!(logger.patterns().len(), 1);
    assert!(logger.patterns()[0].is_match("/api/v1/users"));
    assert!(!logger.patterns()[0].is_match("/api/v2/users"));
}

#[test]
fn test_fields_builder() {
    let fields = Fields::default();
    assert!(fields.contains(&Field::Method));
    assert!(fields.contains(&Field::Status));
    assert!(fields.contains(&Field::Path));
    assert!(fields.contains(&Field::RemoteAddr));
    assert!(fields.contains(&Field::Duration));

    let custom_fields = Fields::builder()
        .with_method()
        .with_status()
        .with_request_header("content-type")
        .unwrap()
        .with_response_header("x-request-id")
        .unwrap()
        .with_environment("APP_ENV")
        .build();

    assert!(custom_fields.contains(&Field::Method));
    assert!(custom_fields.contains(&Field::Status));
    assert!(custom_fields.contains(&Field::RequestHeader("content-type".to_string())));
    assert!(custom_fields.contains(&Field::ResponseHeader("x-request-id".to_string())));
    assert!(custom_fields.contains(&Field::Environment("APP_ENV".to_string())));
    assert!(!custom_fields.contains(&Field::Path));
}

#[test]
fn test_field_render_request() {
    let req = test_request();
    let now = OffsetDateTime::now_utc();
    let nanos = now.unix_timestamp_nanos();

    assert_eq!(render_req(Field::Method, nanos, &req), ("method".to_string(), Some("GET".to_string())));
    assert_eq!(render_req(Field::Path, nanos, &req), ("path".to_string(), Some("/test".to_string())));
    assert_eq!(
        render_req(Field::Params, nanos, &req),
        ("params".to_string(), Some("param=value".to_string()))
    );
    assert_eq!(
        render_req(Field::UserAgent, nanos, &req),
        ("user_agent".to_string(), Some("test-agent".to_string()))
    );
    assert_eq!(
        render_req(Field::Referer, nanos, &req),
        ("referer".to_string(), Some("https://example.com".to_string()))
    );
    assert_eq!(
        render_req(Field::RequestHeader("x-request-id".to_string()), nanos, &req),
        ("x-request-id".to_string(), Some("test-id".to_string()))
    );
    assert_eq!(
        render_req(Field::RequestTime, nanos, &req),
        ("datetime".to_string(), Some(now.format(&Rfc3339).unwrap()))
    );
}

#[test]
fn test_field_render_response() {
    let res = ResponseInfo {
        status: 200,
        headers: vec![
            header("content-type", "application/json"),
            header("x-custom-header", "test-value"),
        ],
    };

    let mut field = Field::Status;
    field.render_response(&res);
    assert_eq!(kv(field), ("status".to_string(), Some("200 OK".to_string())));

    let mut field = Field::ResponseHeader("content-type".to_string());
    field.render_response(&res);
    assert_eq!(kv(field), ("content-type".to_string(), Some("application/json".to_string())));

    let mut field = Field::ResponseHeader("x-custom-header".to_string());
    field.render_response(&res);
    assert_eq!(kv(field), ("x-custom-header".to_string(), Some("test-value".to_string())));

    let mut field = Field::ResponseHeader("x-missing-header".to_string());
    field.render_response(&res);
    assert_eq!(kv(field), ("x-missing-header".to_string(), None));
}

#[test]
fn test_field_render() {
    let entry_time = OffsetDateTime::now_utc() - time::Duration::seconds(2);
    let elapsed = OffsetDateTime::now_utc() - entry_time;
    let seconds = elapsed.as_seconds_f64().to_string();
    let millis = ((elapsed.whole_nanoseconds() as f64) / 1_000_000.0).to_string();
    let c = completion(
        &seconds,
        &millis,
        vec![("TEST_ENV_VAR", Some("test_value")), ("MISSING_ENV_VAR", None)],
    );

    let mut field = Field::Size;
    field.render(1024, &c);
    assert_eq!(kv(field), ("size".to_string(), Some("1024".to_string())));

    let mut field = Field::Duration;
    field.render(0, &c);
    let (key, value) = kv(field);
    assert_eq!(key, "duration");
    let duration: f64 = value.unwrap().parse().unwrap();
    assert!(duration >= 1.9 && duration <= 3.0);

    let mut field = Field::DurationMillis;
    field.render(0, &c);
    let (key, value) = kv(field);
    assert_eq!(key, "duration");
    let duration: f64 = value.unwrap().parse().unwrap();
    assert!(duration >= 1900.0 && duration <= 3000.0);

    let mut field = Field::Environment("TEST_ENV_VAR".to_string());
    field.render(0, &c);
    assert_eq!(kv(field), ("TEST_ENV_VAR".to_string(), Some("test_value".to_string())));

    let mut field = Field::Environment("MISSING_ENV_VAR".to_string());
    field.render(0, &c);
    assert_eq!(kv(field), ("MISSING_ENV_VAR".to_string(), None));
}

#[test]
fn test_request_id_generation() {
    let id1 = RequestId::new();
    let id2 = RequestId::new();
    assert_ne!(id1.0, id2.0);
}
