//! Streaming upload coordinator: the decision side of the
//! producer/consumer pipeline.
//!
//! The producer below fixes, step by step, exactly which message goes
//! onto the stream next: the header first, then the data chunks in
//! strictly increasing index order. The caller drives it against a
//! bounded FIFO queue (pushing one message per step and suspending
//! while the queue is full, which is what bounds memory under a slow
//! consumer), and folds the stream's terminal event into the caller's
//! result with `complete_upload`.

use vstd::prelude::*;
use vstd::string::StringExecFns;
use crate::decimal::dec_digits;
use crate::error::CasperError;
use crate::models::UploadMatrixResult;
use crate::planner::{spec_chunk_values, spec_max_vectors_per_chunk, StreamMessage, UploadPlan};

verus! {

/// Whether `m` is the message the plan puts at stream position `pos`:
/// the header at position 0, chunk `pos - 1` after it.
pub open spec fn message_matches(plan: UploadPlan, pos: int, m: StreamMessage) -> bool {
    if pos == 0 {
        m matches StreamMessage::Header(h)
            && h.name@ == plan.name@
            && h.dimension == plan.dimension
            && h.total_chunks == plan.total_chunks
            && h.max_vectors_per_chunk == spec_max_vectors_per_chunk(
            plan.dimension as int,
            plan.chunk_floats as int,
        )
    } else {
        m matches StreamMessage::Data(c)
            && c.chunk_index == pos - 1
            && c.values@ == spec_chunk_values(plan.vectors@, plan.chunk_floats as int, pos - 1)
    }
}

/// Produces the stream's messages one at a time, in order. One
/// producer serves one upload; it never repeats or skips a position.
pub struct ChunkProducer {
    plan: UploadPlan,
    pos: u64,
}

impl ChunkProducer {
    /// The plan this producer walks.
    pub closed spec fn spec_plan(self) -> UploadPlan {
        self.plan
    }

    /// Stream positions already emitted.
    pub closed spec fn spec_pos(self) -> int {
        self.pos as int
    }

    /// Total number of messages the stream carries: one header plus
    /// one message per chunk.
    pub open spec fn message_count(self) -> int {
        1 + self.spec_plan().total_chunks
    }

    /// Internal consistency.
    pub closed spec fn wf(self) -> bool {
        self.plan.wf() && self.pos <= 1 + self.plan.total_chunks as u64
    }

    /// A fresh producer, positioned before the header.
    pub fn new(plan: UploadPlan) -> (r: ChunkProducer)
        requires
            plan.wf(),
        ensures
            r.wf(),
            r.spec_plan() == plan,
            r.spec_pos() == 0,
    {
        ChunkProducer { plan, pos: 0 }
    }

    /// The next message to send, or `None` once the stream is
    /// complete. Emits the header first, then each data chunk in
    /// strictly increasing `chunk_index` order, with no gaps or
    /// repeats.
    pub fn next_message(&mut self) -> (r: Option<StreamMessage>)
        requires
            old(self).wf(),
        ensures
            final(self).wf(),
            final(self).spec_plan() == old(self).spec_plan(),
            old(self).spec_pos() < old(self).message_count() ==> {
                &&& final(self).spec_pos() == old(self).spec_pos() + 1
                &&& r matches Some(m) && message_matches(
                    final(self).spec_plan(),
                    old(self).spec_pos(),
                    m,
                )
            },
            old(self).spec_pos() >= old(self).message_count() ==> r is None
                && final(self).spec_pos() == old(self).spec_pos(),
    {
        if self.pos == 0 {
            self.pos = 1;
            Some(StreamMessage::Header(self.plan.header()))
        } else if self.pos <= self.plan.total_chunks as u64 {
            let idx = (self.pos - 1) as u32;
            self.pos = self.pos + 1;
            Some(StreamMessage::Data(self.plan.chunk(idx)))
        } else {
            None
        }
    }
}

/// The summary text of a successful upload.
pub open spec fn upload_success_message(total_vectors: nat, total_chunks: nat) -> Seq<char> {
    "Successfully uploaded "@ + dec_digits(total_vectors) + " vectors in "@ + dec_digits(
        total_chunks,
    ) + " chunks"@
}

/// Build the success outcome from the endpoint's aggregate
/// acknowledgment.
pub fn upload_outcome(total_vectors: u32, total_chunks: u32) -> (r: UploadMatrixResult)
    ensures
        r.success,
        r.total_vectors == total_vectors,
        r.total_chunks == total_chunks,
        r.message@ == upload_success_message(total_vectors as nat, total_chunks as nat),
{
    let mut m = String::from_str("Successfully uploaded ");
    let v_str = crate::decimal::u32_to_string(total_vectors);
    m.append(v_str.as_str());
    m.append(" vectors in ");
    let c_str = crate::decimal::u32_to_string(total_chunks);
    m.append(c_str.as_str());
    m.append(" chunks");
    proof {
        reveal_strlit("Successfully uploaded ");
        reveal_strlit(" vectors in ");
        reveal_strlit(" chunks");
        assert(m@ =~= upload_success_message(total_vectors as nat, total_chunks as nat));
    }
    UploadMatrixResult { success: true, message: m, total_vectors, total_chunks }
}

/// Map a transport-level streaming failure into the taxonomy.
pub fn streaming_failure(detail: String) -> (r: CasperError)
    ensures
        r matches CasperError::Grpc(d) && d@ == detail@,
{
    CasperError::Grpc(detail)
}

/// Fold the stream's terminal event into the caller's result: the
/// aggregate acknowledgment `(total_vectors, total_chunks)` becomes
/// the success outcome, a transport failure detail becomes a streaming
/// error. No partial outcome exists.
pub fn complete_upload(response: Result<(u32, u32), String>) -> (r: Result<
    UploadMatrixResult,
    CasperError,
>)
    ensures
        r is Ok <==> response is Ok,
        response matches Ok(ack) ==> (r matches Ok(o) && o.success && o.total_vectors == ack.0
            && o.total_chunks == ack.1 && o.message@ == upload_success_message(
            ack.0 as nat,
            ack.1 as nat,
        )),
        response matches Err(d) ==> (r matches Err(e) && e matches CasperError::Grpc(dd) && dd@
            == d@),
{
    match response {
        Ok((total_vectors, total_chunks)) => Ok(upload_outcome(total_vectors, total_chunks)),
        Err(detail) => Err(streaming_failure(detail)),
    }
}

} // verus!
