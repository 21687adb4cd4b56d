use actix_web_middleware_slogger::{
    kv_pairs, CaptureSession, Completion, ConfigError, ExcludePattern, Field, Fields,
    FieldsBuilder, HttpVersion, RequestId, RequestInfo, ResponseInfo, SLogger, Stage,
};

fn hdr(name: &str, value: &[u8]) -> (String, Vec<u8>) {
    (name.to_string(), value.to_vec())
}

fn req_at(path: &str, headers: Vec<(String, Vec<u8>)>) -> RequestInfo {
    RequestInfo {
        method: "GET".to_string(),
        path: path.to_string(),
        query: "param=value".to_string(),
        version: HttpVersion::Http2,
        host: "example.org".to_string(),
        peer_addr: Some("10.0.0.1:4000".to_string()),
        real_ip: Some("192.168.0.1".to_string()),
        headers,
        tracing_request_id: None,
    }
}

fn done(env: Vec<(&str, Option<&str>)>) -> Completion {
    Completion {
        seconds: "0.5".to_string(),
        millis: "500".to_string(),
        env: env
            .into_iter()
            .map(|(k, v)| (k.to_string(), v.map(|s| s.to_string())))
            .collect(),
    }
}

fn pair(k: &str, v: Option<&str>) -> (String, Option<String>) {
    (k.to_string(), v.map(|s| s.to_string()))
}

fn scenario_fields() -> Fields {
    Fields::builder()
        .with_method()
        .with_path()
        .with_params()
        .with_user_agent()
        .with_referer()
        .with_request_id("x-request-id")
        .unwrap()
        .build()
}

#[test]
fn excluded_paths_get_no_session() {
    let logger = SLogger::default()
        .exclude("/health")
        .exclude_regex("^/api/v1/.*")
        .unwrap();
    assert!(CaptureSession::begin(&logger, &req_at("/health", vec![]), 0).is_none());
    assert!(CaptureSession::begin(&logger, &req_at("/api/v1/users", vec![]), 0).is_none());
    assert!(CaptureSession::begin(&logger, &req_at("/api/v2/users", vec![]), 0).is_some());
    assert!(CaptureSession::begin(&logger, &req_at("/healthz", vec![]), 0).is_some());
    assert!(logger.should_exclude("/health"));
    assert!(!logger.should_exclude("/"));
}

#[test]
fn invalid_pattern_is_refused() {
    assert_eq!(SLogger::default().exclude_regex("(unclosed").err(), Some(ConfigError::InvalidPattern));
    assert!(ExcludePattern::compile("[").is_err());
    assert_eq!(ExcludePattern::compile("^/a$").unwrap().as_str(), "^/a$");
}

#[test]
fn invalid_header_name_is_refused() {
    assert_eq!(
        Fields::builder().with_request_header("bad header").err(),
        Some(ConfigError::InvalidHeaderName)
    );
    assert_eq!(Fields::builder().with_response_header("").err(), Some(ConfigError::InvalidHeaderName));
    assert_eq!(Fields::builder().with_request_id("a\nb").err(), Some(ConfigError::InvalidHeaderName));
}

#[test]
fn header_names_are_lower_cased() {
    let fields = Fields::builder().with_request_header("X-Custom").unwrap().build();
    assert!(fields.contains(&Field::RequestHeader("x-custom".to_string())));
    assert!(!fields.contains(&Field::RequestHeader("X-Custom".to_string())));
}

#[test]
fn builder_keeps_fields_once() {
    let fields = Fields::builder().with_method().with_method().with_status().build();
    assert_eq!(fields.len(), 2);
    let fields = Fields::new(vec![Field::Size, Field::Host, Field::Size]).unwrap();
    assert_eq!(fields.len(), 2);
    assert_eq!(fields.to_vec(), vec![Field::Size, Field::Host]);
    assert_eq!(Fields::default().len(), 13);
    assert_eq!(FieldsBuilder::default().build().len(), 13);
}

#[test]
fn scenario_request_fields() {
    let logger = SLogger::new(scenario_fields());
    let req = req_at(
        "/test",
        vec![
            hdr("user-agent", b"test-agent"),
            hdr("referer", b"https://example.com"),
            hdr("x-request-id", b"test-id"),
        ],
    );
    let mut s = CaptureSession::begin(&logger, &req, 0).unwrap();
    assert_eq!(s.stage(), Stage::RequestRendered);
    assert!(s.request_id().is_none());
    let record = s.complete(&done(vec![])).unwrap();
    assert_eq!(
        record,
        vec![
            pair("method", Some("GET")),
            pair("path", Some("/test")),
            pair("params", Some("param=value")),
            pair("user_agent", Some("test-agent")),
            pair("referer", Some("https://example.com")),
            pair("x-request-id", Some("test-id")),
        ]
    );
}

#[test]
fn missing_request_id_is_generated() {
    let logger = SLogger::new(scenario_fields());
    let req = req_at("/test", vec![]);
    let mut s1 = CaptureSession::begin(&logger, &req, 0).unwrap();
    let mut s2 = CaptureSession::begin(&logger, &req, 0).unwrap();
    let id1 = s1.request_id().unwrap();
    let id2 = s2.request_id().unwrap();
    assert_ne!(id1, id2);
    let r1 = s1.complete(&done(vec![])).unwrap();
    let r2 = s2.complete(&done(vec![])).unwrap();
    let v1 = r1[5].1.clone().unwrap();
    let v2 = r2[5].1.clone().unwrap();
    assert_eq!(r1[5].0, "x-request-id");
    assert_eq!(v1.len(), 36);
    assert_eq!(v1.matches('-').count(), 4);
    assert_eq!(v1, id1.to_hyphenated());
    assert_ne!(v1, v2);
}

#[test]
fn hyphenated_form_of_known_id() {
    let id = RequestId(0x7b77f3f18e154b6a9b3f7f4b6f4b6f4b);
    assert_eq!(id.to_hyphenated(), "7b77f3f1-8e15-4b6a-9b3f-7f4b6f4b6f4b");
}

#[test]
fn response_header_present_and_missing() {
    let res = ResponseInfo { status: 404, headers: vec![hdr("content-type", b"application/json")] };
    let mut a = Field::ResponseHeader("content-type".to_string());
    a.render_response(&res);
    assert_eq!(a, Field::KV("content-type".to_string(), Some("application/json".to_string())));
    let mut b = Field::ResponseHeader("x-missing".to_string());
    b.render_response(&res);
    assert_eq!(b, Field::KV("x-missing".to_string(), None));
    let mut c = Field::Status;
    c.render_response(&res);
    assert_eq!(c, Field::KV("status".to_string(), Some("404 Not Found".to_string())));
}

#[test]
fn environment_values() {
    let mut set = Field::Environment("TEST_ENV_VAR".to_string());
    set.render(0, &done(vec![("TEST_ENV_VAR", Some("test_value"))]));
    assert_eq!(set, Field::KV("TEST_ENV_VAR".to_string(), Some("test_value".to_string())));
    let mut unset = Field::Environment("OTHER".to_string());
    unset.render(0, &done(vec![("TEST_ENV_VAR", Some("test_value"))]));
    assert_eq!(unset, Field::KV("OTHER".to_string(), None));
}

#[test]
fn session_emits_once_with_streamed_bytes() {
    let fields = Fields::builder().with_status().with_size().with_duration().build();
    let logger = SLogger::new(fields);
    let mut s = CaptureSession::begin(&logger, &req_at("/", vec![]), 5).unwrap();
    s.respond(&ResponseInfo { status: 200, headers: vec![] });
    assert_eq!(s.stage(), Stage::ResponseRendered);
    s.add_chunk(10);
    s.add_chunk(22);
    assert_eq!(s.size(), 32);
    let record = s.complete(&done(vec![])).unwrap();
    assert_eq!(
        record,
        vec![pair("status", Some("200 OK")), pair("size", Some("32")), pair("duration", Some("0.5"))]
    );
    assert_eq!(s.stage(), Stage::Completed);
    assert!(s.complete(&done(vec![])).is_none());
    assert_eq!(s.arrival(), 5);
}

#[test]
fn early_drop_still_emits_what_is_known() {
    let fields = Fields::builder().with_status().with_size().with_method().build();
    let logger = SLogger::new(fields).log_target("access");
    let mut s = CaptureSession::begin(&logger, &req_at("/", vec![]), 0).unwrap();
    s.add_chunk(7);
    let record = s.complete(&done(vec![])).unwrap();
    assert_eq!(record, vec![pair("status", None), pair("size", Some("7")), pair("method", Some("GET"))]);
    assert_eq!(s.log_target(), "access");
}

#[test]
fn respond_happens_once() {
    let logger = SLogger::new(Fields::builder().with_status().build());
    let mut s = CaptureSession::begin(&logger, &req_at("/", vec![]), 0).unwrap();
    s.respond(&ResponseInfo { status: 200, headers: vec![] });
    s.respond(&ResponseInfo { status: 500, headers: vec![] });
    let record = s.complete(&done(vec![])).unwrap();
    assert_eq!(record, vec![pair("status", Some("200 OK"))]);
}

#[test]
fn byte_count_saturates() {
    let logger = SLogger::new(Fields::builder().with_size().build());
    let mut s = CaptureSession::begin(&logger, &req_at("/", vec![]), 0).unwrap();
    s.add_chunk(usize::MAX - 1);
    s.add_chunk(5);
    assert_eq!(s.size(), usize::MAX);
}

#[test]
fn non_text_header_value_reads_empty() {
    let req = req_at("/", vec![hdr("user-agent", b"caf\xc3\xa9"), hdr("referer", b"a\tb")]);
    let mut ua = Field::UserAgent;
    ua.render_request(0, &req);
    assert_eq!(ua, Field::KV("user_agent".to_string(), Some(String::new())));
    let mut re = Field::Referer;
    re.render_request(0, &req);
    assert_eq!(re, Field::KV("referer".to_string(), Some("a\tb".to_string())));
}

#[test]
fn first_header_value_wins() {
    let req = req_at("/", vec![hdr("x-a", b"one"), hdr("x-a", b"two")]);
    let mut f = Field::RequestHeader("x-a".to_string());
    f.render_request(0, &req);
    assert_eq!(f, Field::KV("x-a".to_string(), Some("one".to_string())));
}

#[test]
fn connection_fields() {
    let req = req_at("/", vec![]);
    let cases = vec![
        (Field::Version, pair("version", Some("HTTP/2.0"))),
        (Field::Host, pair("host", Some("example.org"))),
        (Field::RemoteAddr, pair("remote_addr", Some("10.0.0.1:4000"))),
        (Field::RealIp, pair("real_ip", Some("192.168.0.1"))),
        (Field::TracingRequestId, pair("tracing_request_id", None)),
        (Field::RequestTime, pair("datetime", Some("1970-01-01T00:00:00Z"))),
    ];
    for (f, expected) in cases {
        let mut f = f;
        f.render_request(0, &req);
        assert_eq!(f, Field::KV(expected.0, expected.1));
    }
    let mut other = req_at("/", vec![]);
    other.version = HttpVersion::Other;
    let mut v = Field::Version;
    v.render_request(0, &other);
    assert_eq!(v, Field::KV("version".to_string(), Some("unknown".to_string())));
}

#[test]
fn passes_leave_other_fields_alone() {
    let req = req_at("/", vec![]);
    let mut f = Field::Size;
    assert!(f.render_request(0, &req).is_none());
    assert_eq!(f, Field::Size);
    let mut g = Field::Method;
    g.render_response(&ResponseInfo { status: 200, headers: vec![] });
    assert_eq!(g, Field::Method);
    let mut h = Field::Status;
    h.render(3, &done(vec![]));
    assert_eq!(h, Field::Status);
    let mut k = Field::KV("k".to_string(), None);
    k.render_absent();
    assert_eq!(k, Field::KV("k".to_string(), None));
}

#[test]
fn pairs_skip_unrendered_fields() {
    let fields = vec![Field::KV("a".to_string(), Some("1".to_string())), Field::Method, Field::KV("b".to_string(), None)];
    assert_eq!(kv_pairs(&fields), vec![pair("a", Some("1")), pair("b", None)]);
}

#[test]
fn env_names_listed() {
    let fields = Fields::builder().with_environment("APP_ENV").with_method().build();
    let logger = SLogger::new(fields);
    let s = CaptureSession::begin(&logger, &req_at("/", vec![]), 0).unwrap();
    assert_eq!(s.env_names(), vec!["APP_ENV".to_string()]);
}

#[test]
fn fields_new_refuses_names_not_in_normal_form() {
    assert_eq!(
        Fields::new(vec![Field::RequestHeader("X-Custom".to_string())]).err(),
        Some(ConfigError::InvalidHeaderName)
    );
    assert_eq!(
        Fields::new(vec![Field::ResponseHeader("bad name".to_string())]).err(),
        Some(ConfigError::InvalidHeaderName)
    );
    let ok = Fields::new(vec![Field::RequestId("x-request-id".to_string())]).unwrap();
    assert!(ok.contains(&Field::RequestId("x-request-id".to_string())));
}

#[test]
fn generated_ids_are_version_four() {
    for _ in 0..8 {
        let id = RequestId::new();
        assert_eq!((id.0 >> 76) & 0xf, 4);
        assert_eq!((id.0 >> 62) & 0x3, 2);
        let text = id.to_hyphenated();
        assert_eq!(text.len(), 36);
        assert_eq!(text.chars().nth(14), Some('4'));
    }
}

#[test]
fn env_names_in_field_order() {
    let fields = Fields::builder()
        .with_environment("B_VAR")
        .with_size()
        .with_environment("A_VAR")
        .build();
    let logger = SLogger::new(fields);
    let s = CaptureSession::begin(&logger, &req_at("/", vec![]), 0).unwrap();
    assert_eq!(s.env_names(), vec!["B_VAR".to_string(), "A_VAR".to_string()]);
}
