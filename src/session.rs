//! The per-request capture session: renders the configured fields at arrival, at the response,
//! and at completion of the body, and hands out the finished record exactly once.
use vstd::prelude::*;

use crate::field::{
    clone_opt, completion_step, key_of, kv_of, needs_fresh_id, opt_view, pass_of, request_step,
    response_step, Completion, Field, Pass, RequestId, RequestInfo, ResponseInfo,
};
use crate::logger::{excluded, SLogger};
use crate::outside::hyphenated_of;

verus! {

/// Where a session stands in the life of its request.
#[derive(Debug, Clone, Copy, PartialEq, Eq, Structural)]
pub enum Stage {
    Created,
    RequestRendered,
    ResponseRendered,
    Completed,
}

/// A key with its value, as a record holds it.
pub type Pair = (String, Option<String>);

pub open spec fn pair_view(p: Pair) -> (Seq<char>, Option<Seq<char>>) {
    (p.0@, opt_view(p.1))
}

/// The keys and values of the rendered fields of `s`, in order; fields not rendered are skipped.
pub open spec fn kv_list(s: Seq<Field>) -> Seq<(Seq<char>, Option<Seq<char>>)>
    decreases s.len(),
{
    if s.len() == 0 {
        Seq::empty()
    } else {
        let rest = kv_list(s.drop_last());
        match kv_of(s.last()) {
            Some(p) => rest.push(p),
            None => rest,
        }
    }
}

/// The keys and values of the rendered fields among `fields`, in order.
pub fn kv_pairs(fields: &Vec<Field>) -> (r: Vec<Pair>)
    ensures
        r@.map_values(|p: Pair| pair_view(p)) == kv_list(fields@),
{
    let mut out: Vec<Pair> = Vec::new();
    let mut i: usize = 0;
    while i < fields.len()
        invariant
            i <= fields@.len(),
            out@.map_values(|p: Pair| pair_view(p)) == kv_list(fields@.subrange(0, i as int)),
        decreases fields@.len() - i,
    {
        let ghost before = out@;
        assert(fields@.subrange(0, i + 1).drop_last() == fields@.subrange(0, i as int));
        match &fields[i] {
            Field::KV(k, v) => {
                out.push((k.clone(), clone_opt(v)));
                assert(out@.map_values(|p: Pair| pair_view(p)) =~= before.map_values(
                    |p: Pair| pair_view(p),
                ).push(pair_view(out@.last())));
            },
            _ => {},
        }
        i = i + 1;
    }
    assert(fields@.subrange(0, fields@.len() as int) == fields@);
    out
}

/// What a session holds.
pub struct SessionView {
    pub fields: Seq<Field>,
    pub arrival: i128,
    pub size: usize,
    pub stage: Stage,
    pub request_id: Option<RequestId>,
    pub log_target: Seq<char>,
}

/// Whether the request-time pass took `old` to `new`, with whatever identifier it generated.
pub open spec fn request_rendered(old: Field, new: Field, now: i128, req: RequestInfo) -> bool {
    exists|id: Option<RequestId>| request_step(old, new, now, req, id)
}

/// How completion takes a field: the completion pass renders its fields, and a field that no
/// pass rendered gets its key with no value.
pub open spec fn finish_step(old: Field, new: Field, size: usize, c: Completion) -> bool {
    if pass_of(old) == Some(Pass::Completion) {
        completion_step(old, new, size, c)
    } else if kv_of(old) is Some {
        new == old
    } else {
        kv_of(new) == Some((key_of(old), None::<Seq<char>>))
    }
}

/// What one call of `complete` does: a session not yet completed renders its remaining fields,
/// becomes completed and hands out its record; a completed one hands out nothing and stays.
pub open spec fn complete_post(
    old: SessionView,
    new: SessionView,
    c: Completion,
    record: Option<Seq<(Seq<char>, Option<Seq<char>>)>>,
) -> bool {
    if old.stage == Stage::Completed {
        record is None && new == old
    } else {
        &&& new.stage == Stage::Completed
        &&& new.arrival == old.arrival
        &&& new.size == old.size
        &&& new.request_id == old.request_id
        &&& new.log_target == old.log_target
        &&& new.fields.len() == old.fields.len()
        &&& forall|i: int|
            0 <= i < old.fields.len() ==> finish_step(
                #[trigger] old.fields[i],
                new.fields[i],
                old.size,
                c,
            )
        &&& record == Some(kv_list(new.fields))
    }
}

/// The byte count after a chunk of `len` bytes: the sum, held at the largest `usize`.
pub open spec fn counted(size: usize, len: usize) -> usize {
    if size + len <= usize::MAX {
        (size + len) as usize
    } else {
        usize::MAX
    }
}

/// The state of one participating request, from its arrival to the emission of its record.
pub struct CaptureSession {
    fields: Vec<Field>,
    arrival: i128,
    size: usize,
    stage: Stage,
    request_id: Option<RequestId>,
    log_target: String,
}

impl View for CaptureSession {
    type V = SessionView;

    closed spec fn view(&self) -> SessionView {
        SessionView {
            fields: self.fields@,
            arrival: self.arrival,
            size: self.size,
            stage: self.stage,
            request_id: self.request_id,
            log_target: self.log_target@,
        }
    }
}

pub open spec fn record_view(r: Option<Vec<Pair>>) -> Option<Seq<(Seq<char>, Option<Seq<char>>)>> {
    match r {
        Some(v) => Some(v@.map_values(|p: Pair| pair_view(p))),
        None => None,
    }
}

impl CaptureSession {
    /// Starts the session of a request that arrived at `now` (nanoseconds since the Unix
    /// epoch), rendering the request-time fields. A request whose path the logger excludes gets
    /// no session. The last identifier generated for a missing request-id header is kept, so
    /// that it can be stored with the request.
    pub fn begin(config: &SLogger, req: &RequestInfo, now: i128) -> (r: Option<CaptureSession>)
        ensures
            r is None <==> excluded(config@, req.path@),
            r matches Some(s) ==> {
                &&& s@.stage == Stage::RequestRendered
                &&& s@.arrival == now
                &&& s@.size == 0
                &&& s@.log_target == config@.log_target
                &&& s@.fields.len() == config@.fields.len()
                &&& forall|i: int|
                    0 <= i < config@.fields.len() ==> request_rendered(
                        #[trigger] config@.fields[i],
                        s@.fields[i],
                        now,
                        *req,
                    )
                &&& s@.request_id is Some <==> exists|i: int|
                    0 <= i < config@.fields.len() && needs_fresh_id(
                        #[trigger] config@.fields[i],
                        *req,
                    )
                &&& s@.request_id matches Some(id) ==> exists|i: int|
                    0 <= i < config@.fields.len() && needs_fresh_id(
                        #[trigger] config@.fields[i],
                        *req,
                    ) && kv_of(s@.fields[i]) == Some(
                        (key_of(config@.fields[i]), Some(hyphenated_of(id.0))),
                    )
            },
    {
        if config.should_exclude(req.path.as_str()) {
            return None;
        }
        let cfg = config.fields().to_vec();
        let mut fields: Vec<Field> = Vec::new();
        let mut request_id: Option<RequestId> = None;
        let mut i: usize = 0;
        while i < cfg.len()
            invariant
                i <= cfg@.len(),
                cfg@ == config@.fields,
                fields@.len() == i,
                forall|j: int|
                    0 <= j < i ==> request_rendered(#[trigger] cfg@[j], fields@[j], now, *req),
                request_id is Some <==> exists|j: int|
                    0 <= j < i && needs_fresh_id(#[trigger] cfg@[j], *req),
                request_id matches Some(id) ==> exists|j: int|
                    0 <= j < i && needs_fresh_id(#[trigger] cfg@[j], *req) && kv_of(fields@[j])
                        == Some((key_of(cfg@[j]), Some(hyphenated_of(id.0)))),
            decreases cfg@.len() - i,
        {
            let mut f = cfg[i].duplicate();
            let fresh = f.render_request(now, req);
            proof {
                assert(request_rendered(cfg@[i as int], f, now, *req));
            }
            let ghost prev = fields@;
            fields.push(f);
            assert(forall|j: int| 0 <= j < i ==> fields@[j] == prev[j]);
            match fresh {
                Some(id) => {
                    request_id = Some(id);
                    assert(needs_fresh_id(cfg@[i as int], *req));
                },
                None => {},
            }
            i = i + 1;
        }
        Some(
            CaptureSession {
                fields,
                arrival: now,
                size: 0,
                stage: Stage::RequestRendered,
                request_id,
                log_target: String::from_str(config.target()),
            },
        )
    }

    /// Renders the response-time fields from the response, once: a session past its request
    /// stage is left as it is.
    pub fn respond(&mut self, res: &ResponseInfo)
        requires
            res.wf(),
        ensures
            old(self)@.stage != Stage::RequestRendered ==> final(self)@ == old(self)@,
            old(self)@.stage == Stage::RequestRendered ==> {
                &&& final(self)@.stage == Stage::ResponseRendered
                &&& final(self)@.arrival == old(self)@.arrival
                &&& final(self)@.size == old(self)@.size
                &&& final(self)@.request_id == old(self)@.request_id
                &&& final(self)@.log_target == old(self)@.log_target
                &&& final(self)@.fields.len() == old(self)@.fields.len()
                &&& forall|i: int|
                    0 <= i < old(self)@.fields.len() ==> response_step(
                        #[trigger] old(self)@.fields[i],
                        final(self)@.fields[i],
                        *res,
                    )
            },
    {
        if self.stage != Stage::RequestRendered {
            return;
        }
        let mut i: usize = 0;
        while i < self.fields.len()
            invariant
                i <= self.fields@.len(),
                self.fields@.len() == old(self).fields@.len(),
                self.stage == old(self).stage,
                self.arrival == old(self).arrival,
                self.size == old(self).size,
                self.request_id == old(self).request_id,
                self.log_target == old(self).log_target,
                res.wf(),
                forall|j: int|
                    0 <= j < i ==> response_step(
                        #[trigger] old(self).fields@[j],
                        self.fields@[j],
                        *res,
                    ),
                forall|j: int| i <= j < self.fields@.len() ==> self.fields@[j] == old(self).fields@[j],
            decreases self.fields@.len() - i,
        {
            let mut f = self.fields[i].duplicate();
            f.render_response(res);
            self.fields.set(i, f);
            i = i + 1;
        }
        self.stage = Stage::ResponseRendered;
    }

    /// Counts a chunk of `len` body bytes sent to the client.
    pub fn add_chunk(&mut self, len: usize)
        ensures
            final(self)@.size == counted(old(self)@.size, len),
            final(self)@.fields == old(self)@.fields,
            final(self)@.stage == old(self)@.stage,
            final(self)@.arrival == old(self)@.arrival,
            final(self)@.request_id == old(self)@.request_id,
            final(self)@.log_target == old(self)@.log_target,
    {
        if len <= usize::MAX - self.size {
            self.size = self.size + len;
        } else {
            self.size = usize::MAX;
        }
    }

    /// Completes the session: renders the completion-time fields from the bytes counted and
    /// `c`, gives every field still unrendered its key with no value, and returns the record.
    /// A session completes once; a later call returns `None`.
    pub fn complete(&mut self, c: &Completion) -> (r: Option<Vec<Pair>>)
        ensures
            complete_post(old(self)@, final(self)@, *c, record_view(r)),
    {
        if self.stage == Stage::Completed {
            return None;
        }
        let mut i: usize = 0;
        while i < self.fields.len()
            invariant
                i <= self.fields@.len(),
                self.fields@.len() == old(self).fields@.len(),
                self.stage == old(self).stage,
                self.arrival == old(self).arrival,
                self.size == old(self).size,
                self.request_id == old(self).request_id,
                self.log_target == old(self).log_target,
                forall|j: int|
                    0 <= j < i ==> finish_step(
                        #[trigger] old(self).fields@[j],
                        self.fields@[j],
                        self.size,
                        *c,
                    ),
                forall|j: int| i <= j < self.fields@.len() ==> self.fields@[j] == old(self).fields@[j],
            decreases self.fields@.len() - i,
        {
            let mut f = self.fields[i].duplicate();
            f.render(self.size, c);
            f.render_absent();
            self.fields.set(i, f);
            i = i + 1;
        }
        self.stage = Stage::Completed;
        Some(kv_pairs(&self.fields))
    }

    /// Where the session stands.
    pub fn stage(&self) -> (r: Stage)
        ensures
            r == self@.stage,
    {
        self.stage
    }

    /// The number of body bytes counted.
    pub fn size(&self) -> (r: usize)
        ensures
            r == self@.size,
    {
        self.size
    }

    /// The arrival instant, in nanoseconds since the Unix epoch.
    pub fn arrival(&self) -> (r: i128)
        ensures
            r == self@.arrival,
    {
        self.arrival
    }

    /// The identifier generated for the request, if one was.
    pub fn request_id(&self) -> (r: Option<RequestId>)
        ensures
            r == self@.request_id,
    {
        self.request_id
    }

    /// The target under which the record is logged.
    pub fn log_target(&self) -> (r: &str)
        ensures
            r@ == self@.log_target,
    {
        self.log_target.as_str()
    }

    /// The names of the environment variables that the completion pass reads, in the order of
    /// the fields that ask for them.
    pub fn env_names(&self) -> (r: Vec<String>)
        ensures
            r@.map_values(|n: String| n@) == env_list(self@.fields),
    {
        let mut out: Vec<String> = Vec::new();
        let mut i: usize = 0;
        while i < self.fields.len()
            invariant
                i <= self.fields@.len(),
                out@.map_values(|n: String| n@) == env_list(self.fields@.subrange(0, i as int)),
            decreases self.fields@.len() - i,
        {
            let ghost before = out@;
            assert(self.fields@.subrange(0, i + 1).drop_last() == self.fields@.subrange(0, i as int));
            match &self.fields[i] {
                Field::Environment(n) => {
                    out.push(n.clone());
                    assert(out@.map_values(|n: String| n@) =~= before.map_values(|n: String| n@).push(
                        out@.last()@,
                    ));
                },
                _ => {},
            }
            i = i + 1;
        }
        assert(self.fields@.subrange(0, self.fields@.len() as int) == self.fields@);
        out
    }
}

/// The names of the environment variables that the fields of `s` ask for, in order.
pub open spec fn env_list(s: Seq<Field>) -> Seq<Seq<char>>
    decreases s.len(),
{
    if s.len() == 0 {
        Seq::empty()
    } else {
        let rest = env_list(s.drop_last());
        match s.last() {
            Field::Environment(n) => rest.push(n@),
            _ => rest,
        }
    }
}

} // verus!
