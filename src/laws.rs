//! Properties of feeding and guessing that hold of every stream.

use vstd::prelude::*;

use crate::detector::{feed_step, non_ascii_seen, DetectorState};

verus! {

/// The state after feeding `chunks` one by one to a detector in state `s`,
/// only the final chunk carrying the terminal flag `last`.
pub open spec fn feed_chunks(s: DetectorState, chunks: Seq<Seq<u8>>, last: bool) -> DetectorState
    decreases chunks.len(),
{
    if chunks.len() == 0 {
        s
    } else {
        feed_chunks(
            feed_step(s, chunks[0], last && chunks.len() == 1),
            chunks.drop_first(),
            last,
        )
    }
}

proof fn lemma_feed_chunks_stream(s: DetectorState, chunks: Seq<Seq<u8>>, last: bool)
    requires
        chunks.len() > 0,
    ensures
        feed_chunks(s, chunks, last).stream == s.stream + chunks.flatten(),
        feed_chunks(s, chunks, last).closed == last,
    decreases chunks.len(),
{
    let next = feed_step(s, chunks[0], last && chunks.len() == 1);
    assert(feed_chunks(s, chunks, last) == feed_chunks(next, chunks.drop_first(), last));
    if chunks.len() == 1 {
        assert(chunks.drop_first().flatten() =~= Seq::<u8>::empty());
        assert(chunks.flatten() =~= chunks[0]);
        assert(next.stream =~= s.stream + chunks.flatten());
    } else {
        lemma_feed_chunks_stream(next, chunks.drop_first(), last);
        assert(chunks.flatten() == chunks.first() + chunks.drop_first().flatten());
        assert(next.stream + chunks.drop_first().flatten() =~= s.stream + chunks.flatten());
    }
}

/// Chunk boundaries carry no meaning for the bytes seen: feeding a sequence
/// in any chunking, in order and with the terminal flag on the final chunk
/// only, leaves the same stream, the same terminal state and the same
/// non-ASCII result as feeding the whole sequence in one call.
pub proof fn lemma_chunk_invariance(s: DetectorState, chunks: Seq<Seq<u8>>, last: bool)
    requires
        chunks.len() > 0,
    ensures
        feed_chunks(s, chunks, last).stream == feed_step(s, chunks.flatten(), last).stream,
        feed_chunks(s, chunks, last).closed == feed_step(s, chunks.flatten(), last).closed,
        non_ascii_seen(feed_chunks(s, chunks, last)) == non_ascii_seen(
            feed_step(s, chunks.flatten(), last),
        ),
{
    lemma_feed_chunks_stream(s, chunks, last);
}

/// Feeding an empty buffer, terminal or not, leaves the bytes seen and the
/// non-ASCII result as they were; an empty terminal chunk after a chunk `x`
/// leaves the same bytes as feeding `x` as the terminal chunk.
pub proof fn lemma_empty_feed(s: DetectorState, x: Seq<u8>, last: bool)
    ensures
        feed_step(s, Seq::empty(), last).stream == s.stream,
        non_ascii_seen(feed_step(s, Seq::empty(), last)) == non_ascii_seen(s),
        feed_step(feed_step(s, x, false), Seq::empty(), true).stream == feed_step(s, x, true).stream,
        feed_step(feed_step(s, x, false), Seq::empty(), true).closed == feed_step(s, x, true).closed,
        non_ascii_seen(feed_step(feed_step(s, x, false), Seq::empty(), true)) == non_ascii_seen(
            feed_step(s, x, true),
        ),
{
    assert(s.stream + Seq::empty() =~= s.stream);
    assert(s.stream + x + Seq::empty() =~= s.stream + x);
}

/// Once a stream has held a non-ASCII byte, it does so after every further
/// chunk.
pub proof fn lemma_non_ascii_sticky(s: DetectorState, chunk: Seq<u8>, last: bool)
    requires
        non_ascii_seen(s),
    ensures
        non_ascii_seen(feed_step(s, chunk, last)),
{
    let i = choose|i: int| 0 <= i < s.stream.len() && #[trigger] s.stream[i] >= 0x80;
    assert((s.stream + chunk)[i] >= 0x80);
}

} // verus!
