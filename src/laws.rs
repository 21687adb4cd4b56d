//! Properties that hold of the rendering passes and of every capture session.
use vstd::prelude::*;

use crate::field::{
    completion_step, decimal, field_wf, key_of, kv_of, pass_of, request_step, response_step,
    Completion, Field, Pass, RequestId, RequestInfo, ResponseInfo,
};
use crate::session::{complete_post, counted, finish_step, SessionView, Stage};

verus! {

/// Every field that asks for something has a non-empty key.
pub proof fn lemma_key_nonempty(f: Field)
    requires
        field_wf(f),
        pass_of(f) is Some,
    ensures
        key_of(f).len() > 0,
{
    reveal_strlit("method");
    reveal_strlit("status");
    reveal_strlit("path");
    reveal_strlit("params");
    reveal_strlit("version");
    reveal_strlit("host");
    reveal_strlit("remote_addr");
    reveal_strlit("real_ip");
    reveal_strlit("tracing_request_id");
    reveal_strlit("size");
    reveal_strlit("duration");
    reveal_strlit("datetime");
    reveal_strlit("user_agent");
    reveal_strlit("referer");
}

/// Rendering a field at its own pass yields a key and value with a non-empty key; rendering it
/// at any other pass leaves it as it was.
pub proof fn lemma_pass_round_trip(
    f: Field,
    now: i128,
    req: RequestInfo,
    id: Option<RequestId>,
    g_req: Field,
    res: ResponseInfo,
    g_res: Field,
    size: usize,
    c: Completion,
    g_done: Field,
)
    requires
        field_wf(f),
        request_step(f, g_req, now, req, id),
        response_step(f, g_res, res),
        completion_step(f, g_done, size, c),
    ensures
        pass_of(f) == Some(Pass::Request) ==> (kv_of(g_req) matches Some(kv) && kv.0.len() > 0),
        pass_of(f) != Some(Pass::Request) ==> g_req == f,
        pass_of(f) == Some(Pass::Response) ==> (kv_of(g_res) matches Some(kv) && kv.0.len() > 0),
        pass_of(f) != Some(Pass::Response) ==> g_res == f,
        pass_of(f) == Some(Pass::Completion) ==> (kv_of(g_done) matches Some(kv) && kv.0.len()
            > 0),
        pass_of(f) != Some(Pass::Completion) ==> g_done == f,
{
    if pass_of(f) is Some {
        lemma_key_nonempty(f);
    }
}

/// A session hands out one record: the first completion of a session not yet completed returns
/// the record, and any completion after it returns nothing and changes nothing.
pub proof fn lemma_single_emission(
    s0: SessionView,
    s1: SessionView,
    s2: SessionView,
    c1: Completion,
    c2: Completion,
    r1: Option<Seq<(Seq<char>, Option<Seq<char>>)>>,
    r2: Option<Seq<(Seq<char>, Option<Seq<char>>)>>,
)
    requires
        s0.stage != Stage::Completed,
        complete_post(s0, s1, c1, r1),
        complete_post(s1, s2, c2, r2),
    ensures
        r1 is Some,
        r2 is None,
        s2 == s1,
{
}

/// At completion every field of the record is rendered, and the byte count that a `Size` field
/// shows is the count of the bytes sent before completion.
pub proof fn lemma_complete_renders_all(
    s0: SessionView,
    s1: SessionView,
    c: Completion,
    r: Option<Seq<(Seq<char>, Option<Seq<char>>)>>,
    i: int,
)
    requires
        s0.stage != Stage::Completed,
        complete_post(s0, s1, c, r),
        0 <= i < s0.fields.len(),
    ensures
        kv_of(s1.fields[i]) is Some,
        s0.fields[i] == Field::Size ==> kv_of(s1.fields[i]) == Some(
            (key_of(Field::Size), Some(decimal(s0.size as nat))),
        ),
{
    assert(finish_step(s0.fields[i], s1.fields[i], s0.size, c));
}

/// The total length of a sequence of chunks.
pub open spec fn chunk_sum(chunks: Seq<usize>) -> int
    decreases chunks.len(),
{
    if chunks.len() == 0 {
        0
    } else {
        chunk_sum(chunks.drop_last()) + chunks.last()
    }
}

/// A byte count that starts at zero and counts each chunk with `add_chunk` ends at the total
/// length of the chunks, as long as that total fits in a `usize`. `sizes[i]` is the count
/// before chunk `i`, and `sizes[chunks.len()]` the count after the last.
pub proof fn lemma_size_is_sum(sizes: Seq<usize>, chunks: Seq<usize>)
    requires
        sizes.len() == chunks.len() + 1,
        sizes[0] == 0,
        forall|i: int| 0 <= i < chunks.len() ==> sizes[i + 1] == counted(#[trigger] sizes[i], chunks[i]),
        chunk_sum(chunks) <= usize::MAX,
    ensures
        sizes.last() == chunk_sum(chunks),
    decreases chunks.len(),
{
    if chunks.len() > 0 {
        let n = chunks.len() - 1;
        let prev = sizes.drop_last();
        let front = chunks.drop_last();
        assert forall|i: int| 0 <= i < front.len() implies prev[i + 1] == counted(
            #[trigger] prev[i],
            front[i],
        ) by {
            assert(sizes[i + 1] == counted(sizes[i], chunks[i]));
        }
        lemma_size_is_sum(prev, front);
        assert(sizes[n + 1] == counted(sizes[n], chunks[n]));
    }
}

} // verus!
