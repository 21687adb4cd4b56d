//! Configuration: the set of fields to capture, the paths to leave out, and the log target.
use vstd::prelude::*;
use vstd::string::*;

use crate::field::{same_field, Field};
use crate::outside::{header_name_of, parse_header_name};

verus! {

/// A configuration value that was refused.
#[derive(Debug, Clone, Copy, PartialEq, Eq, Structural)]
pub enum ConfigError {
    /// An exclusion pattern that is not a valid regular expression.
    InvalidPattern,
    /// A header name that is not a valid HTTP header name.
    InvalidHeaderName,
}

/// No two fields of `s` ask for the same thing.
pub open spec fn distinct(s: Seq<Field>) -> bool {
    forall|i: int, j: int| 0 <= i < j < s.len() ==> !same_field(#[trigger] s[i], #[trigger] s[j])
}

pub open spec fn has_field(s: Seq<Field>, f: Field) -> bool {
    exists|i: int| 0 <= i < s.len() && same_field(#[trigger] s[i], f)
}

/// `s` with `f` added at the end, unless it already holds it.
pub open spec fn with_field(s: Seq<Field>, f: Field) -> Seq<Field> {
    if has_field(s, f) {
        s
    } else {
        s.push(f)
    }
}

proof fn lemma_same_field_transitive(a: Field, b: Field, c: Field)
    requires
        same_field(a, b),
        same_field(b, c),
    ensures
        same_field(a, c),
{
}

proof fn lemma_has_field_push(s: Seq<Field>, g: Field, f: Field)
    ensures
        has_field(s.push(g), f) <==> (has_field(s, f) || same_field(g, f)),
{
    if has_field(s.push(g), f) {
        let k = choose|k: int| 0 <= k < s.len() + 1 && same_field(#[trigger] s.push(g)[k], f);
        if k < s.len() {
            assert(same_field(s[k], f));
        }
    }
    if has_field(s, f) {
        let k = choose|k: int| 0 <= k < s.len() && same_field(#[trigger] s[k], f);
        assert(same_field(s.push(g)[k], f));
    }
    if same_field(g, f) {
        assert(same_field(s.push(g)[s.len() as int], f));
    }
}

/// The fields of `s`, each kept at its first place, later equal ones dropped.
pub open spec fn dedup(s: Seq<Field>) -> Seq<Field>
    decreases s.len(),
{
    if s.len() == 0 {
        s
    } else {
        with_field(dedup(s.drop_last()), s.last())
    }
}

/// A field whose header name, if it has one, is in normal form (valid and lower case).
pub open spec fn name_normal(f: Field) -> bool {
    match f {
        Field::RequestId(h) => header_name_of(h@) == Some(h@),
        Field::RequestHeader(h) => header_name_of(h@) == Some(h@),
        Field::ResponseHeader(h) => header_name_of(h@) == Some(h@),
        _ => true,
    }
}

pub open spec fn all_normal(s: Seq<Field>) -> bool {
    forall|i: int| 0 <= i < s.len() ==> name_normal(#[trigger] s[i])
}

/// Whether `h` is a header name in normal form.
fn is_normal_name(h: &String) -> (r: bool)
    ensures
        r == (header_name_of(h@) == Some(h@)),
{
    match parse_header_name(h.as_str()) {
        Some(n) => n == *h,
        None => false,
    }
}

/// Whether the header name of `f`, if it has one, is in normal form.
fn is_normal_field(f: &Field) -> (r: bool)
    ensures
        r == name_normal(*f),
{
    match f {
        Field::RequestId(h) => is_normal_name(h),
        Field::RequestHeader(h) => is_normal_name(h),
        Field::ResponseHeader(h) => is_normal_name(h),
        _ => true,
    }
}

/// Adds `f` to `v` unless an equal field is there; keeps the fields distinct.
fn insert_field(v: &mut Vec<Field>, f: Field)
    requires
        distinct(old(v)@),
        all_normal(old(v)@),
        name_normal(f),
    ensures
        final(v)@ == with_field(old(v)@, f),
        distinct(final(v)@),
        all_normal(final(v)@),
{
    let mut i: usize = 0;
    while i < v.len()
        invariant
            i <= v@.len(),
            v@ == old(v)@,
            distinct(v@),
            all_normal(v@),
            forall|j: int| 0 <= j < i ==> !same_field(#[trigger] v@[j], f),
        decreases v@.len() - i,
    {
        if v[i].same(&f) {
            return;
        }
        i = i + 1;
    }
    proof {
        assert forall|a: int, b: int| 0 <= a < b < v@.len() + 1 implies !same_field(
            #[trigger] v@.push(f)[a],
            #[trigger] v@.push(f)[b],
        ) by {
            if b == v@.len() as int {
                assert(!same_field(v@[a], f));
            }
        }
        assert forall|a: int| 0 <= a < v@.len() + 1 implies name_normal(#[trigger] v@.push(f)[a]) by {
            if a < v@.len() {
                assert(name_normal(v@[a]));
            }
        }
    }
    v.push(f);
}

/// A set of fields to capture, in the order in which they were added.
pub struct Fields {
    fields: Vec<Field>,
}

impl View for Fields {
    type V = Seq<Field>;

    closed spec fn view(&self) -> Seq<Field> {
        self.fields@
    }
}

impl Fields {
    pub closed spec fn wf(&self) -> bool {
        distinct(self.fields@) && all_normal(self.fields@)
    }

    /// The builder of an empty set.
    pub fn builder() -> (r: FieldsBuilder)
        ensures
            r@ == Seq::<Field>::empty(),
            r.wf(),
    {
        FieldsBuilder::new()
    }

    /// The set of the given fields: each kept once, at its first place. Refused when a header
    /// name among them is not in normal form (a valid name in lower case).
    pub fn new(fields: Vec<Field>) -> (r: Result<Fields, ConfigError>)
        ensures
            r is Err <==> !all_normal(fields@),
            r matches Err(e) ==> e == ConfigError::InvalidHeaderName,
            r matches Ok(s) ==> s.wf() && s@ == dedup(fields@),
            r matches Ok(s) ==> forall|f: Field| has_field(s@, f) <==> has_field(fields@, f),
    {
        let mut k: usize = 0;
        while k < fields.len()
            invariant
                k <= fields@.len(),
                forall|j: int| 0 <= j < k ==> name_normal(#[trigger] fields@[j]),
            decreases fields@.len() - k,
        {
            if !is_normal_field(&fields[k]) {
                return Err(ConfigError::InvalidHeaderName);
            }
            k = k + 1;
        }
        let mut out: Vec<Field> = Vec::new();
        let mut i: usize = 0;
        while i < fields.len()
            invariant
                i <= fields@.len(),
                all_normal(fields@),
                all_normal(out@),
                distinct(out@),
                out@ == dedup(fields@.subrange(0, i as int)),
                forall|f: Field| has_field(out@, f) <==> has_field(fields@.subrange(0, i as int), f),
            decreases fields@.len() - i,
        {
            let g = fields[i].duplicate();
            let ghost before = out@;
            insert_field(&mut out, g);
            proof {
                let pre = fields@.subrange(0, i as int);
                let post = fields@.subrange(0, i + 1);
                assert(post == pre.push(g));
                assert(post.drop_last() == pre);
                assert forall|f: Field| has_field(out@, f) <==> has_field(post, f) by {
                    lemma_has_field_push(before, g, f);
                    lemma_has_field_push(pre, g, f);
                    if has_field(before, g) && same_field(g, f) {
                        let k = choose|k: int| 0 <= k < before.len() && same_field(#[trigger] before[k], g);
                        lemma_same_field_transitive(before[k], g, f);
                    }
                }
            }
            i = i + 1;
        }
        assert(fields@.subrange(0, fields@.len() as int) == fields@);
        Ok(Fields { fields: out })
    }

    /// Whether the set holds a field equal to `f`.
    pub fn contains(&self, f: &Field) -> (r: bool)
        ensures
            r == has_field(self@, *f),
    {
        let mut i: usize = 0;
        while i < self.fields.len()
            invariant
                i <= self.fields@.len(),
                forall|j: int| 0 <= j < i ==> !same_field(#[trigger] self.fields@[j], *f),
            decreases self.fields@.len() - i,
        {
            if self.fields[i].same(f) {
                return true;
            }
            i = i + 1;
        }
        false
    }

    /// The number of fields.
    pub fn len(&self) -> (r: usize)
        ensures
            r == self@.len(),
    {
        self.fields.len()
    }

    /// The fields, in order.
    pub fn to_vec(&self) -> (r: Vec<Field>)
        ensures
            r@ == self@,
    {
        let mut out: Vec<Field> = Vec::new();
        let mut i: usize = 0;
        while i < self.fields.len()
            invariant
                i <= self.fields@.len(),
                out@ == self.fields@.subrange(0, i as int),
            decreases self.fields@.len() - i,
        {
            out.push(self.fields[i].duplicate());
            i = i + 1;
            assert(out@ == self.fields@.subrange(0, i as int));
        }
        assert(out@ == self.fields@);
        out
    }
}


/// Builds a set of fields one at a time.
pub struct FieldsBuilder {
    fields: Vec<Field>,
}

impl View for FieldsBuilder {
    type V = Seq<Field>;

    closed spec fn view(&self) -> Seq<Field> {
        self.fields@
    }
}

/// The fields captured unless others are asked for.
pub open spec fn default_fields() -> Seq<Field> {
    seq![
        Field::Method,
        Field::Status,
        Field::Path,
        Field::Params,
        Field::Version,
        Field::Host,
        Field::RemoteAddr,
        Field::RealIp,
        Field::Size,
        Field::Duration,
        Field::RequestTime,
        Field::UserAgent,
        Field::Referer,
    ]
}

impl FieldsBuilder {
    pub closed spec fn wf(&self) -> bool {
        distinct(self.fields@) && all_normal(self.fields@)
    }

    /// A builder of the empty set.
    pub fn new() -> (r: FieldsBuilder)
        ensures
            r@ == Seq::<Field>::empty(),
            r.wf(),
    {
        FieldsBuilder { fields: Vec::new() }
    }

    /// The set built so far.
    pub fn build(self) -> (r: Fields)
        requires
            self.wf(),
        ensures
            r@ == self@,
            r.wf(),
    {
        Fields { fields: self.fields }
    }

    fn with(self, f: Field) -> (r: FieldsBuilder)
        requires
            self.wf(),
            name_normal(f),
        ensures
            r.wf(),
            r@ == with_field(self@, f),
    {
        let mut fields = self.fields;
        insert_field(&mut fields, f);
        FieldsBuilder { fields }
    }

    /// Adds the request method.
    pub fn with_method(self) -> (r: FieldsBuilder)
        requires
            self.wf(),
        ensures
            r.wf(),
            r@ == with_field(self@, Field::Method),
    {
        self.with(Field::Method)
    }

    /// Adds the response status.
    pub fn with_status(self) -> (r: FieldsBuilder)
        requires
            self.wf(),
        ensures
            r.wf(),
            r@ == with_field(self@, Field::Status),
    {
        self.with(Field::Status)
    }

    /// Adds the request path.
    pub fn with_path(self) -> (r: FieldsBuilder)
        requires
            self.wf(),
        ensures
            r.wf(),
            r@ == with_field(self@, Field::Path),
    {
        self.with(Field::Path)
    }

    /// Adds the query string.
    pub fn with_params(self) -> (r: FieldsBuilder)
        requires
            self.wf(),
        ensures
            r.wf(),
            r@ == with_field(self@, Field::Params),
    {
        self.with(Field::Params)
    }

    /// Adds the protocol version.
    pub fn with_version(self) -> (r: FieldsBuilder)
        requires
            self.wf(),
        ensures
            r.wf(),
            r@ == with_field(self@, Field::Version),
    {
        self.with(Field::Version)
    }

    /// Adds the host.
    pub fn with_host(self) -> (r: FieldsBuilder)
        requires
            self.wf(),
        ensures
            r.wf(),
            r@ == with_field(self@, Field::Host),
    {
        self.with(Field::Host)
    }

    /// Adds the peer address.
    pub fn with_remote_addr(self) -> (r: FieldsBuilder)
        requires
            self.wf(),
        ensures
            r.wf(),
            r@ == with_field(self@, Field::RemoteAddr),
    {
        self.with(Field::RemoteAddr)
    }

    /// Adds the real client address.
    pub fn with_real_ip(self) -> (r: FieldsBuilder)
        requires
            self.wf(),
        ensures
            r.wf(),
            r@ == with_field(self@, Field::RealIp),
    {
        self.with(Field::RealIp)
    }

    /// Adds the tracing layer's request identifier.
    pub fn with_tracing_request_id(self) -> (r: FieldsBuilder)
        requires
            self.wf(),
        ensures
            r.wf(),
            r@ == with_field(self@, Field::TracingRequestId),
    {
        self.with(Field::TracingRequestId)
    }

    /// Adds the number of body bytes sent.
    pub fn with_size(self) -> (r: FieldsBuilder)
        requires
            self.wf(),
        ensures
            r.wf(),
            r@ == with_field(self@, Field::Size),
    {
        self.with(Field::Size)
    }

    /// Adds the duration in seconds.
    pub fn with_duration(self) -> (r: FieldsBuilder)
        requires
            self.wf(),
        ensures
            r.wf(),
            r@ == with_field(self@, Field::Duration),
    {
        self.with(Field::Duration)
    }

    /// Adds the duration in milliseconds.
    pub fn with_duration_millis(self) -> (r: FieldsBuilder)
        requires
            self.wf(),
        ensures
            r.wf(),
            r@ == with_field(self@, Field::DurationMillis),
    {
        self.with(Field::DurationMillis)
    }

    /// Adds the arrival time.
    pub fn with_date_time(self) -> (r: FieldsBuilder)
        requires
            self.wf(),
        ensures
            r.wf(),
            r@ == with_field(self@, Field::RequestTime),
    {
        self.with(Field::RequestTime)
    }

    /// Adds the user agent.
    pub fn with_user_agent(self) -> (r: FieldsBuilder)
        requires
            self.wf(),
        ensures
            r.wf(),
            r@ == with_field(self@, Field::UserAgent),
    {
        self.with(Field::UserAgent)
    }

    /// Adds the referer.
    pub fn with_referer(self) -> (r: FieldsBuilder)
        requires
            self.wf(),
        ensures
            r.wf(),
            r@ == with_field(self@, Field::Referer),
    {
        self.with(Field::Referer)
    }

    /// Adds the request identifier read from the header `header`; refused when `header` is no
    /// valid header name.
    pub fn with_request_id(self, header: &str) -> (r: Result<FieldsBuilder, ConfigError>)
        requires
            self.wf(),
        ensures
            r is Err <==> header_name_of(header@) is None,
            r matches Err(e) ==> e == ConfigError::InvalidHeaderName,
            r matches Ok(b) ==> b.wf() && exists|h: String|
                header_name_of(header@) == Some(h@) && b@ == with_field(self@, Field::RequestId(h)),
    {
        match parse_header_name(header) {
            Some(h) => Ok(self.with(Field::RequestId(h))),
            None => Err(ConfigError::InvalidHeaderName),
        }
    }

    /// Adds the request header `header`; refused when `header` is no valid header name.
    pub fn with_request_header(self, header: &str) -> (r: Result<FieldsBuilder, ConfigError>)
        requires
            self.wf(),
        ensures
            r is Err <==> header_name_of(header@) is None,
            r matches Err(e) ==> e == ConfigError::InvalidHeaderName,
            r matches Ok(b) ==> b.wf() && exists|h: String|
                header_name_of(header@) == Some(h@) && b@ == with_field(self@, Field::RequestHeader(h)),
    {
        match parse_header_name(header) {
            Some(h) => Ok(self.with(Field::RequestHeader(h))),
            None => Err(ConfigError::InvalidHeaderName),
        }
    }

    /// Adds the response header `header`; refused when `header` is no valid header name.
    pub fn with_response_header(self, header: &str) -> (r: Result<FieldsBuilder, ConfigError>)
        requires
            self.wf(),
        ensures
            r is Err <==> header_name_of(header@) is None,
            r matches Err(e) ==> e == ConfigError::InvalidHeaderName,
            r matches Ok(b) ==> b.wf() && exists|h: String|
                header_name_of(header@) == Some(h@) && b@ == with_field(self@, Field::ResponseHeader(h)),
    {
        match parse_header_name(header) {
            Some(h) => Ok(self.with(Field::ResponseHeader(h))),
            None => Err(ConfigError::InvalidHeaderName),
        }
    }

    /// Adds the environment variable `var`.
    pub fn with_environment(self, var: &str) -> (r: FieldsBuilder)
        requires
            self.wf(),
        ensures
            r.wf(),
            exists|n: String| n@ == var@ && r@ == with_field(self@, Field::Environment(n)),
    {
        self.with(Field::Environment(String::from_str(var)))
    }
}

impl Default for FieldsBuilder {
    /// A builder holding the default fields.
    fn default() -> (r: FieldsBuilder)
        ensures
            r@ == default_fields(),
            r.wf(),
    {
        let fields = vec![
            Field::Method,
            Field::Status,
            Field::Path,
            Field::Params,
            Field::Version,
            Field::Host,
            Field::RemoteAddr,
            Field::RealIp,
            Field::Size,
            Field::Duration,
            Field::RequestTime,
            Field::UserAgent,
            Field::Referer,
        ];
        assert(fields@ == default_fields());
        FieldsBuilder { fields }
    }
}

impl Default for Fields {
    /// The default fields.
    fn default() -> (r: Fields)
        ensures
            r@ == default_fields(),
            r.wf(),
    {
        FieldsBuilder::default().build()
    }
}

} // verus!
