//! The streaming body adapter: bridges a poll-based sequence of encode
//! results to the chunked-body interface of an HTTP transport. A stateless
//! pass-through: each poll answer of the underlying sequence becomes exactly
//! one poll answer of the body.

use vstd::prelude::*;
use crate::chunk::bytes_view;
use crate::record::Event;

verus! {

/// A realtime NDJSON response: wraps the one underlying sequence of encode
/// results that feeds the response body. The adapter owns the sequence
/// exclusively for its whole lifetime; dropping the response drops the
/// sequence, which releases whatever timers or subscriptions it held.
#[derive(Debug, Clone)]
pub struct Realtime<S> {
    stream: S,
}

impl<S> Realtime<S> {
    /// The underlying sequence of encode results.
    pub closed spec fn inner(self) -> S {
        self.stream
    }

    /// Creates a new realtime response that will answer with a stream of
    /// newline-delimited JSON events.
    pub fn new(stream: S) -> (r: Self)
        ensures
            r.inner() == stream,
    {
        Realtime { stream }
    }

    /// Hands the underlying sequence, unchanged, to the transport glue that
    /// drives the body.
    pub fn into_inner(self) -> (r: S)
        ensures
            r == self.inner(),
    {
        self.stream
    }
}

/// One poll answer of the underlying sequence of encode results, as the
/// transport glue observed it: not ready yet, the next encoded record, the
/// sequence's own error, or the end of the sequence.
pub enum SourcePoll<E> {
    Pending,
    Item(Event),
    Fault(E),
    Done,
}

/// The body's answer to one poll for its next chunk: wait for a wake-up, one
/// frozen chunk of bytes, the terminal body error, or the end of the body.
pub enum ChunkPoll<E> {
    Pending,
    Chunk(bytes::Bytes),
    Fail(E),
    Done,
}

/// How one poll answer of the body relates to the poll answer of the
/// underlying sequence it was derived from: a ready record is frozen into its
/// wire bytes and nothing else changes — pending stays pending, an error
/// passes through verbatim, and the end of the sequence ends the body.
pub open spec fn step_rel<E>(p: SourcePoll<E>, r: ChunkPoll<E>) -> bool {
    match p {
        SourcePoll::Pending => r is Pending,
        SourcePoll::Item(e) => r matches ChunkPoll::Chunk(b) && bytes_view(b) == e@,
        SourcePoll::Fault(err) => r matches ChunkPoll::Fail(f) && f == err,
        SourcePoll::Done => r is Done,
    }
}

/// One step of the streaming body adapter: turns the latest poll answer of
/// the underlying sequence into the body's poll answer. The only work done is
/// the one freeze of a ready record into its immutable chunk.
pub fn poll_step<E>(p: SourcePoll<E>) -> (r: ChunkPoll<E>)
    ensures
        step_rel(p, r),
{
    match p {
        SourcePoll::Pending => ChunkPoll::Pending,
        SourcePoll::Item(e) => ChunkPoll::Chunk(e.commit()),
        SourcePoll::Fault(err) => ChunkPoll::Fail(err),
        SourcePoll::Done => ChunkPoll::Done,
    }
}

/// The body's answer to one poll for trailing metadata. This wire format has
/// no representation for trailers at all, so the only conceivable answers
/// are to wait, to fail, or to finish with none.
pub enum TrailersPoll<E> {
    Pending,
    NoTrailers,
    Fail(E),
}

/// The trailers side of the adapter: every poll for trailing metadata is
/// answered immediately with "none" — no suspension, no error, no trailers.
pub fn poll_trailers_step<E>() -> (r: TrailersPoll<E>)
    ensures
        r is NoTrailers,
{
    TrailersPoll::NoTrailers
}

/// The media type of a realtime response body; the one header value the core
/// supplies to the response assembly.
pub fn ndjson_content_type() -> (r: &'static str)
    ensures
        r@ == "application/ndjson"@,
{
    "application/ndjson"
}

/// Order preservation and single emission: over a transcript in which the
/// i-th body answer is derived from the i-th poll answer of the sequence, if
/// every poll answer carried a record then the body emits exactly one chunk
/// per record, carrying that record's bytes, in the order the sequence
/// produced them — nothing reordered, dropped, duplicated, batched or split.
pub proof fn lemma_order_preserved<E>(src: Seq<SourcePoll<E>>, out: Seq<ChunkPoll<E>>)
    requires
        src.len() == out.len(),
        forall|i: int| 0 <= i < src.len() ==> step_rel(src[i], out[i]),
        forall|i: int| 0 <= i < src.len() ==> src[i] is Item,
    ensures
        forall|i: int| 0 <= i < out.len() ==> out[i] is Chunk,
        forall|i: int| 0 <= i < out.len() ==> bytes_view(out[i]->Chunk_0) == src[i]->Item_0@,
{
}

/// Error short-circuit: if the sequence yields records for its first k poll
/// answers and then an error, the body's transcript is exactly the k chunks
/// of those records, in order, followed by that error verbatim as the body's
/// terminal answer; the transcript ends there, since the transport must not
/// poll a body again after a terminal answer.
pub proof fn lemma_error_short_circuit<E>(src: Seq<SourcePoll<E>>, out: Seq<ChunkPoll<E>>, k: int)
    requires
        src.len() == out.len(),
        src.len() == k + 1,
        0 <= k,
        forall|i: int| 0 <= i < src.len() ==> step_rel(src[i], out[i]),
        forall|i: int| 0 <= i < k ==> src[i] is Item,
        src[k] is Fault,
    ensures
        forall|i: int| 0 <= i < k ==> out[i] is Chunk,
        forall|i: int| 0 <= i < k ==> bytes_view(out[i]->Chunk_0) == src[i]->Item_0@,
        out[k] is Fail,
        out[k]->Fail_0 == src[k]->Fault_0,
{
}

/// Suspension correctness: while the sequence is not ready the body only
/// answers "pending" — no record is consumed or discarded — and on the first
/// poll after the sequence becomes ready the body emits that record's bytes
/// as its next chunk.
pub proof fn lemma_suspension<E>(src: Seq<SourcePoll<E>>, out: Seq<ChunkPoll<E>>, m: int)
    requires
        src.len() == out.len(),
        src.len() == m + 1,
        0 <= m,
        forall|i: int| 0 <= i < src.len() ==> step_rel(src[i], out[i]),
        forall|i: int| 0 <= i < m ==> src[i] is Pending,
        src[m] is Item,
    ensures
        forall|i: int| 0 <= i < m ==> out[i] is Pending,
        out[m] is Chunk,
        bytes_view(out[m]->Chunk_0) == src[m]->Item_0@,
{
}

} // verus!
