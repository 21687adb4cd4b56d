//! Access-log fields: what can be asked for, the snapshots they are rendered from, and the
//! three rendering passes (request, response, completion).
use vstd::prelude::*;
use vstd::string::*;

use crate::outside::{
    ascii_text, format_rfc3339, hyphenated, hyphenated_of, is_v4, random_id, rfc3339_of, status_text,
    status_text_of, usize_text,
};

verus! {

/// One field of an access-log record: either a request for a value (every variant but `KV`)
/// or the rendered key and value (`KV`). A value of `None` means that the field applied but
/// had nothing to show (a header that was not sent, an unset variable).
#[derive(Debug, PartialEq, Eq, Hash)]
pub enum Field {
    KV(String, Option<String>),
    Method,
    Status,
    Path,
    Params,
    Version,
    Host,
    RemoteAddr,
    RealIp,
    /// The value of the named request header, or a freshly generated identifier.
    RequestId(String),
    /// The request identifier that a tracing layer stored with the request.
    TracingRequestId,
    RequestHeader(String),
    ResponseHeader(String),
    Size,
    Duration,
    DurationMillis,
    RequestTime,
    UserAgent,
    Referer,
    Environment(String),
}

/// The stage of a request at which a field can be rendered.
#[derive(Debug, Clone, Copy, PartialEq, Eq, Structural)]
pub enum Pass {
    Request,
    Response,
    Completion,
}

/// The HTTP protocol version of a request.
#[derive(Debug, Clone, Copy, PartialEq, Eq, Structural)]
pub enum HttpVersion {
    Http09,
    Http10,
    Http11,
    Http2,
    Http3,
    Other,
}

/// A 128-bit identifier generated for a request that brought none.
#[derive(Debug, Clone, Copy, PartialEq, Eq, Structural)]
pub struct RequestId(pub u128);

/// What the request-time pass reads of a request. Header names are lower case, as an HTTP
/// header map keeps them; header values are the raw bytes.
pub struct RequestInfo {
    pub method: String,
    pub path: String,
    pub query: String,
    pub version: HttpVersion,
    pub host: String,
    pub peer_addr: Option<String>,
    pub real_ip: Option<String>,
    pub headers: Vec<(String, Vec<u8>)>,
    pub tracing_request_id: Option<String>,
}

/// What the response-time pass reads of a response.
pub struct ResponseInfo {
    pub status: u16,
    pub headers: Vec<(String, Vec<u8>)>,
}

impl ResponseInfo {
    /// A status code is a three-digit number.
    pub open spec fn wf(&self) -> bool {
        100 <= self.status <= 999
    }
}

/// What the completion pass reads besides the byte count: the time elapsed since arrival as
/// decimal text, in seconds and in milliseconds, and the values of the environment variables
/// that fields ask for (`None` for one that is unset).
pub struct Completion {
    pub seconds: String,
    pub millis: String,
    pub env: Vec<(String, Option<String>)>,
}

pub open spec fn opt_view(o: Option<String>) -> Option<Seq<char>> {
    match o {
        Some(s) => Some(s@),
        None => None,
    }
}

pub open spec fn digit_char(d: nat) -> char {
    if d == 0 { '0' } else if d == 1 { '1' } else if d == 2 { '2' } else if d == 3 { '3' }
    else if d == 4 { '4' } else if d == 5 { '5' } else if d == 6 { '6' } else if d == 7 { '7' }
    else if d == 8 { '8' } else { '9' }
}

/// The decimal digits of `n`.
pub open spec fn decimal(n: nat) -> Seq<char>
    decreases n,
{
    if n < 10 {
        seq![digit_char(n)]
    } else {
        decimal(n / 10).push(digit_char(n % 10))
    }
}

/// Bytes read as ASCII characters, one each.
pub open spec fn ascii_chars(b: Seq<u8>) -> Seq<char> {
    Seq::new(b.len(), |i: int| b[i] as char)
}

/// A header value byte that reads as text: visible ASCII or a tab.
pub open spec fn visible_byte(b: u8) -> bool {
    (32 <= b && b < 127) || b == 9
}

/// The text of a header value; a value that is not visible ASCII reads as the empty text.
pub open spec fn header_text(b: Seq<u8>) -> Seq<char> {
    if forall|i: int| 0 <= i < b.len() ==> visible_byte(#[trigger] b[i]) {
        ascii_chars(b)
    } else {
        Seq::empty()
    }
}

/// The first value under `name` in `hs` from position `i` on.
pub open spec fn header_from(hs: Seq<(String, Vec<u8>)>, name: Seq<char>, i: int) -> Option<Seq<u8>>
    decreases hs.len() - i,
{
    if i < 0 || i >= hs.len() {
        None
    } else if hs[i].0@ == name {
        Some(hs[i].1@)
    } else {
        header_from(hs, name, i + 1)
    }
}

/// The text of the first value under `name` in `hs`, if there is one.
pub open spec fn header_value(hs: Seq<(String, Vec<u8>)>, name: Seq<char>) -> Option<Seq<char>> {
    match header_from(hs, name, 0) {
        Some(b) => Some(header_text(b)),
        None => None,
    }
}

/// The first value recorded for `name` in `env`, or `None` where it has none.
pub open spec fn env_from(env: Seq<(String, Option<String>)>, name: Seq<char>, i: int) -> Option<Seq<char>>
    decreases env.len() - i,
{
    if i < 0 || i >= env.len() {
        None
    } else if env[i].0@ == name {
        opt_view(env[i].1)
    } else {
        env_from(env, name, i + 1)
    }
}

pub open spec fn version_label(v: HttpVersion) -> Seq<char> {
    match v {
        HttpVersion::Http09 => "HTTP/0.9"@,
        HttpVersion::Http10 => "HTTP/1.0"@,
        HttpVersion::Http11 => "HTTP/1.1"@,
        HttpVersion::Http2 => "HTTP/2.0"@,
        HttpVersion::Http3 => "HTTP/3.0"@,
        HttpVersion::Other => "unknown"@,
    }
}

/// The pass that renders a field; a rendered field has none.
pub open spec fn pass_of(f: Field) -> Option<Pass> {
    match f {
        Field::KV(_, _) => None,
        Field::Status | Field::ResponseHeader(_) => Some(Pass::Response),
        Field::Size | Field::Duration | Field::DurationMillis | Field::Environment(_) => Some(
            Pass::Completion,
        ),
        _ => Some(Pass::Request),
    }
}

/// The key under which a field is logged.
pub open spec fn key_of(f: Field) -> Seq<char> {
    match f {
        Field::KV(k, _) => k@,
        Field::Method => "method"@,
        Field::Status => "status"@,
        Field::Path => "path"@,
        Field::Params => "params"@,
        Field::Version => "version"@,
        Field::Host => "host"@,
        Field::RemoteAddr => "remote_addr"@,
        Field::RealIp => "real_ip"@,
        Field::RequestId(h) => h@,
        Field::TracingRequestId => "tracing_request_id"@,
        Field::RequestHeader(h) => h@,
        Field::ResponseHeader(h) => h@,
        Field::Size => "size"@,
        Field::Duration => "duration"@,
        Field::DurationMillis => "duration"@,
        Field::RequestTime => "datetime"@,
        Field::UserAgent => "user_agent"@,
        Field::Referer => "referer"@,
        Field::Environment(n) => n@,
    }
}

/// The key and value of a rendered field.
pub open spec fn kv_of(f: Field) -> Option<(Seq<char>, Option<Seq<char>>)> {
    match f {
        Field::KV(k, v) => Some((k@, opt_view(v))),
        _ => None,
    }
}

/// A field whose payload names something: header and variable names are not empty.
pub open spec fn field_wf(f: Field) -> bool {
    match f {
        Field::RequestId(h) => h@.len() > 0,
        Field::RequestHeader(h) => h@.len() > 0,
        Field::ResponseHeader(h) => h@.len() > 0,
        Field::Environment(n) => n@.len() > 0,
        _ => true,
    }
}

/// The value that the request-time pass gives a request-time field, for every field but a
/// `RequestId` whose header is missing.
pub open spec fn request_value(f: Field, now: i128, req: RequestInfo) -> Option<Seq<char>> {
    match f {
        Field::Method => Some(req.method@),
        Field::Path => Some(req.path@),
        Field::Params => Some(req.query@),
        Field::Version => Some(version_label(req.version)),
        Field::Host => Some(req.host@),
        Field::RemoteAddr => opt_view(req.peer_addr),
        Field::RealIp => opt_view(req.real_ip),
        Field::RequestId(h) => header_value(req.headers@, h@),
        Field::TracingRequestId => opt_view(req.tracing_request_id),
        Field::RequestHeader(h) => header_value(req.headers@, h@),
        Field::RequestTime => rfc3339_of(now),
        Field::UserAgent => header_value(req.headers@, "user-agent"@),
        Field::Referer => header_value(req.headers@, "referer"@),
        _ => None,
    }
}

/// Whether `f` is a `RequestId` field whose header the request lacks.
pub open spec fn needs_fresh_id(f: Field, req: RequestInfo) -> bool {
    match f {
        Field::RequestId(h) => header_from(req.headers@, h@, 0) is None,
        _ => false,
    }
}

/// How the request-time pass takes `old` to `new`; `id` is the identifier it generated, if any.
pub open spec fn request_step(old: Field, new: Field, now: i128, req: RequestInfo, id: Option<RequestId>) -> bool {
    if pass_of(old) == Some(Pass::Request) {
        if needs_fresh_id(old, req) {
            id is Some && kv_of(new) == Some((key_of(old), Some(hyphenated_of(id.unwrap().0))))
        } else {
            id is None && kv_of(new) == Some((key_of(old), request_value(old, now, req)))
        }
    } else {
        id is None && new == old
    }
}

/// The value that the response-time pass gives a response-time field.
pub open spec fn response_value(f: Field, res: ResponseInfo) -> Option<Seq<char>> {
    match f {
        Field::Status => Some(status_text_of(res.status)),
        Field::ResponseHeader(h) => header_value(res.headers@, h@),
        _ => None,
    }
}

/// How the response-time pass takes `old` to `new`.
pub open spec fn response_step(old: Field, new: Field, res: ResponseInfo) -> bool {
    if pass_of(old) == Some(Pass::Response) {
        kv_of(new) == Some((key_of(old), response_value(old, res)))
    } else {
        new == old
    }
}

/// The value that the completion pass gives a completion-time field.
pub open spec fn completion_value(f: Field, size: usize, c: Completion) -> Option<Seq<char>> {
    match f {
        Field::Size => Some(decimal(size as nat)),
        Field::Duration => Some(c.seconds@),
        Field::DurationMillis => Some(c.millis@),
        Field::Environment(n) => env_from(c.env@, n@, 0),
        _ => None,
    }
}

/// How the completion pass takes `old` to `new`.
pub open spec fn completion_step(old: Field, new: Field, size: usize, c: Completion) -> bool {
    if pass_of(old) == Some(Pass::Completion) {
        kv_of(new) == Some((key_of(old), completion_value(old, size, c)))
    } else {
        new == old
    }
}

pub fn clone_opt(o: &Option<String>) -> (r: Option<String>)
    ensures
        r == *o,
{
    match o {
        Some(s) => Some(s.clone()),
        None => None,
    }
}

/// The text of a header value: visible ASCII as it stands, anything else as the empty text.
pub fn decode_header_value(b: &Vec<u8>) -> (r: String)
    ensures
        r@ == header_text(b@),
{
    let mut i: usize = 0;
    while i < b.len()
        invariant
            i <= b@.len(),
            forall|j: int| 0 <= j < i ==> visible_byte(#[trigger] b@[j]),
        decreases b@.len() - i,
    {
        let c = b[i];
        if !((32 <= c && c < 127) || c == 9) {
            return String::new();
        }
        i = i + 1;
    }
    ascii_text(b)
}

/// The text of the first value under `name` among `headers`.
pub fn find_header(headers: &Vec<(String, Vec<u8>)>, name: &String) -> (r: Option<String>)
    ensures
        opt_view(r) == header_value(headers@, name@),
{
    let mut i: usize = 0;
    while i < headers.len()
        invariant
            i <= headers@.len(),
            header_from(headers@, name@, 0) == header_from(headers@, name@, i as int),
        decreases headers@.len() - i,
    {
        if headers[i].0 == *name {
            return Some(decode_header_value(&headers[i].1));
        }
        i = i + 1;
    }
    None
}


/// Whether two fields ask for the same thing (or hold the same key and value).
pub open spec fn same_field(a: Field, b: Field) -> bool {
    match (a, b) {
        (Field::KV(k1, v1), Field::KV(k2, v2)) => k1@ == k2@ && opt_view(v1) == opt_view(v2),
        (Field::RequestId(x), Field::RequestId(y)) => x@ == y@,
        (Field::RequestHeader(x), Field::RequestHeader(y)) => x@ == y@,
        (Field::ResponseHeader(x), Field::ResponseHeader(y)) => x@ == y@,
        (Field::Environment(x), Field::Environment(y)) => x@ == y@,
        (Field::KV(_, _), _) | (Field::RequestId(_), _) | (Field::RequestHeader(_), _)
        | (Field::ResponseHeader(_), _) | (Field::Environment(_), _) => false,
        _ => a == b,
    }
}

/// The text of a field's key.
fn key_text(f: &Field) -> (r: String)
    ensures
        r@ == key_of(*f),
{
    match f {
        Field::KV(k, _) => k.clone(),
        Field::Method => String::from_str("method"),
        Field::Status => String::from_str("status"),
        Field::Path => String::from_str("path"),
        Field::Params => String::from_str("params"),
        Field::Version => String::from_str("version"),
        Field::Host => String::from_str("host"),
        Field::RemoteAddr => String::from_str("remote_addr"),
        Field::RealIp => String::from_str("real_ip"),
        Field::RequestId(h) => h.clone(),
        Field::TracingRequestId => String::from_str("tracing_request_id"),
        Field::RequestHeader(h) => h.clone(),
        Field::ResponseHeader(h) => h.clone(),
        Field::Size => String::from_str("size"),
        Field::Duration => String::from_str("duration"),
        Field::DurationMillis => String::from_str("duration"),
        Field::RequestTime => String::from_str("datetime"),
        Field::UserAgent => String::from_str("user_agent"),
        Field::Referer => String::from_str("referer"),
        Field::Environment(n) => n.clone(),
    }
}

/// The first value recorded for `name` in `env`.
fn find_env(env: &Vec<(String, Option<String>)>, name: &String) -> (r: Option<String>)
    ensures
        opt_view(r) == env_from(env@, name@, 0),
{
    let mut i: usize = 0;
    while i < env.len()
        invariant
            i <= env@.len(),
            env_from(env@, name@, 0) == env_from(env@, name@, i as int),
        decreases env@.len() - i,
    {
        if env[i].0 == *name {
            return clone_opt(&env[i].1);
        }
        i = i + 1;
    }
    None
}

fn version_text(v: HttpVersion) -> (r: String)
    ensures
        r@ == version_label(v),
{
    match v {
        HttpVersion::Http09 => String::from_str("HTTP/0.9"),
        HttpVersion::Http10 => String::from_str("HTTP/1.0"),
        HttpVersion::Http11 => String::from_str("HTTP/1.1"),
        HttpVersion::Http2 => String::from_str("HTTP/2.0"),
        HttpVersion::Http3 => String::from_str("HTTP/3.0"),
        HttpVersion::Other => String::from_str("unknown"),
    }
}

impl RequestId {
    /// A new random identifier: a version-4 UUID.
    pub fn new() -> (r: RequestId)
        ensures
            is_v4(r.0),
    {
        RequestId(random_id())
    }

    /// The canonical hyphenated text of the identifier: 36 characters.
    pub fn to_hyphenated(&self) -> (r: String)
        ensures
            r@ == hyphenated_of(self.0),
            r@.len() == 36,
    {
        hyphenated(self.0)
    }
}

impl Field {
    /// A copy of the field.
    pub fn duplicate(&self) -> (r: Field)
        ensures
            r == *self,
    {
        match self {
            Field::KV(k, v) => Field::KV(k.clone(), clone_opt(v)),
            Field::Method => Field::Method,
            Field::Status => Field::Status,
            Field::Path => Field::Path,
            Field::Params => Field::Params,
            Field::Version => Field::Version,
            Field::Host => Field::Host,
            Field::RemoteAddr => Field::RemoteAddr,
            Field::RealIp => Field::RealIp,
            Field::RequestId(h) => Field::RequestId(h.clone()),
            Field::TracingRequestId => Field::TracingRequestId,
            Field::RequestHeader(h) => Field::RequestHeader(h.clone()),
            Field::ResponseHeader(h) => Field::ResponseHeader(h.clone()),
            Field::Size => Field::Size,
            Field::Duration => Field::Duration,
            Field::DurationMillis => Field::DurationMillis,
            Field::RequestTime => Field::RequestTime,
            Field::UserAgent => Field::UserAgent,
            Field::Referer => Field::Referer,
            Field::Environment(n) => Field::Environment(n.clone()),
        }
    }

    /// Whether two fields ask for the same thing (or hold the same key and value).
    pub fn same(&self, other: &Field) -> (r: bool)
        ensures
            r == same_field(*self, *other),
    {
        match (self, other) {
            (Field::KV(k1, v1), Field::KV(k2, v2)) => {
                *k1 == *k2 && match (v1, v2) {
                    (Some(a), Some(b)) => *a == *b,
                    (None, None) => true,
                    _ => false,
                }
            },
            (Field::Method, Field::Method) => true,
            (Field::Status, Field::Status) => true,
            (Field::Path, Field::Path) => true,
            (Field::Params, Field::Params) => true,
            (Field::Version, Field::Version) => true,
            (Field::Host, Field::Host) => true,
            (Field::RemoteAddr, Field::RemoteAddr) => true,
            (Field::RealIp, Field::RealIp) => true,
            (Field::RequestId(a), Field::RequestId(b)) => *a == *b,
            (Field::TracingRequestId, Field::TracingRequestId) => true,
            (Field::RequestHeader(a), Field::RequestHeader(b)) => *a == *b,
            (Field::ResponseHeader(a), Field::ResponseHeader(b)) => *a == *b,
            (Field::Size, Field::Size) => true,
            (Field::Duration, Field::Duration) => true,
            (Field::DurationMillis, Field::DurationMillis) => true,
            (Field::RequestTime, Field::RequestTime) => true,
            (Field::UserAgent, Field::UserAgent) => true,
            (Field::Referer, Field::Referer) => true,
            (Field::Environment(a), Field::Environment(b)) => *a == *b,
            _ => false,
        }
    }

    /// Whether the field has been rendered to a key and value.
    pub fn is_rendered(&self) -> (r: bool)
        ensures
            r == (kv_of(*self) is Some),
    {
        match self {
            Field::KV(_, _) => true,
            _ => false,
        }
    }

    /// Renders a request-time field from the request and its arrival instant (nanoseconds
    /// since the Unix epoch); any other field is left as it is. A `RequestId` field whose header
    /// the request lacks gets a fresh identifier, which is returned so that it can be kept with
    /// the request.
    pub fn render_request(&mut self, now: i128, req: &RequestInfo) -> (r: Option<RequestId>)
        ensures
            request_step(*old(self), *final(self), now, *req, r),
            r matches Some(id) ==> is_v4(id.0) && hyphenated_of(id.0).len() == 36,
    {
        let value: Option<String> = match self {
            Field::Method => Some(req.method.clone()),
            Field::Path => Some(req.path.clone()),
            Field::Params => Some(req.query.clone()),
            Field::Version => Some(version_text(req.version)),
            Field::Host => Some(req.host.clone()),
            Field::RemoteAddr => clone_opt(&req.peer_addr),
            Field::RealIp => clone_opt(&req.real_ip),
            Field::TracingRequestId => clone_opt(&req.tracing_request_id),
            Field::RequestHeader(h) => find_header(&req.headers, h),
            Field::RequestTime => format_rfc3339(now),
            Field::UserAgent => find_header(&req.headers, &String::from_str("user-agent")),
            Field::Referer => find_header(&req.headers, &String::from_str("referer")),
            Field::RequestId(h) => {
                match find_header(&req.headers, h) {
                    Some(v) => Some(v),
                    None => {
                        let id = RequestId::new();
                        *self = Field::KV(h.clone(), Some(id.to_hyphenated()));
                        return Some(id);
                    },
                }
            },
            _ => {
                return None;
            },
        };
        *self = Field::KV(key_text(self), value);
        None
    }

    /// Renders a response-time field from the response; any other field is left as it is.
    pub fn render_response(&mut self, res: &ResponseInfo)
        requires
            res.wf(),
        ensures
            response_step(*old(self), *final(self), *res),
    {
        let value: Option<String> = match self {
            Field::Status => Some(status_text(res.status)),
            Field::ResponseHeader(h) => find_header(&res.headers, h),
            _ => {
                return;
            },
        };
        *self = Field::KV(key_text(self), value);
    }

    /// Renders a completion-time field from the number of body bytes sent and what was read
    /// at completion; any other field is left as it is.
    pub fn render(&mut self, size: usize, c: &Completion)
        ensures
            completion_step(*old(self), *final(self), size, *c),
    {
        let value: Option<String> = match self {
            Field::Size => Some(usize_text(size)),
            Field::Duration => Some(c.seconds.clone()),
            Field::DurationMillis => Some(c.millis.clone()),
            Field::Environment(n) => find_env(&c.env, n),
            _ => {
                return;
            },
        };
        *self = Field::KV(key_text(self), value);
    }

    /// Renders a field that no pass rendered as its key with no value; a rendered field is
    /// left as it is.
    pub fn render_absent(&mut self)
        ensures
            kv_of(*old(self)) is Some ==> *final(self) == *old(self),
            kv_of(*old(self)) is None ==> kv_of(*final(self)) == Some(
                (key_of(*old(self)), None::<Seq<char>>),
            ),
    {
        if !self.is_rendered() {
            *self = Field::KV(key_text(self), None);
        }
    }
}

} // verus!
