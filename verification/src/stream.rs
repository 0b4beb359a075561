//! The byte-level model of the unified send/receive contract.
//!
//! `send` hands the transport the whole byte sequence, in order; `recv`
//! takes at most one read buffer's worth of what the transport holds and
//! hands back exactly the bytes read. The three transports share this one
//! contract, so the model speaks of bytes alone. Callers needing message
//! framing call `recv` repeatedly; the round-trip law below says that
//! draining chunk by chunk loses, changes, and reorders nothing.

use vstd::prelude::*;

verus! {

/// The default read-buffer size of `recv`: 8 KiB.
pub const DEFAULT_BUFFER_SIZE: usize = 8 * 1024;

/// The smaller of two lengths.
pub open spec fn min_len(a: int, b: int) -> int {
    if a <= b {
        a
    } else {
        b
    }
}

/// The successive byte chunks that repeated `recv` calls with a read
/// buffer of `chunk` bytes hand back while draining `data`: each call
/// takes a full buffer, or all that is left.
pub open spec fn spec_chunks(data: Seq<u8>, chunk: int) -> Seq<Seq<u8>>
    decreases data.len(),
{
    if data.len() == 0 || chunk < 1 {
        Seq::empty()
    } else {
        seq![data.take(min_len(chunk, data.len() as int))] + spec_chunks(
            data.skip(min_len(chunk, data.len() as int)),
            chunk,
        )
    }
}

/// The concatenation of a sequence of byte chunks.
pub open spec fn spec_concat(chunks: Seq<Seq<u8>>) -> Seq<u8>
    decreases chunks.len(),
{
    if chunks.len() == 0 {
        Seq::empty()
    } else {
        chunks[0] + spec_concat(chunks.skip(1))
    }
}

/// Law (round trip): the chunks that repeated `recv` calls drain from a
/// transport carrying `data` concatenate back to `data` — same length,
/// same bytes, same order — whatever the read-buffer size, and so for
/// payloads both smaller and larger than one buffer.
pub proof fn lemma_chunks_round_trip(data: Seq<u8>, chunk: int)
    requires
        chunk >= 1,
    ensures
        spec_concat(spec_chunks(data, chunk)) == data,
    decreases data.len(),
{
    if data.len() == 0 {
        assert(spec_concat(spec_chunks(data, chunk)) =~= data);
    } else {
        let m = min_len(chunk, data.len() as int);
        lemma_chunks_round_trip(data.skip(m), chunk);
        assert(spec_chunks(data, chunk).skip(1) =~= spec_chunks(data.skip(m), chunk));
        assert(data.take(m) + data.skip(m) =~= data);
    }
}

/// Law (chunk sizes): no `recv` result exceeds the read buffer, none is
/// empty while the transport still holds bytes, and every chunk before the
/// last is a full buffer.
pub proof fn lemma_chunk_sizes(data: Seq<u8>, chunk: int)
    requires
        chunk >= 1,
    ensures
        forall|i: int|
            0 <= i < spec_chunks(data, chunk).len() ==> 1 <= #[trigger] spec_chunks(data, chunk)[i].len()
                <= chunk,
        forall|i: int|
            0 <= i < spec_chunks(data, chunk).len() - 1 ==> #[trigger] spec_chunks(data, chunk)[i].len()
                == chunk,
    decreases data.len(),
{
    if data.len() == 0 {
    } else {
        let m = min_len(chunk, data.len() as int);
        lemma_chunk_sizes(data.skip(m), chunk);
        assert(spec_chunks(data, chunk).skip(1) =~= spec_chunks(data.skip(m), chunk));
        assert forall|i: int| 0 <= i < spec_chunks(data, chunk).len() implies 1 <= #[trigger] spec_chunks(
            data,
            chunk,
        )[i].len() <= chunk by {
            if i > 0 {
                assert(spec_chunks(data, chunk)[i] == spec_chunks(data.skip(m), chunk)[i - 1]);
            }
        }
        assert forall|i: int| 0 <= i < spec_chunks(data, chunk).len() - 1 implies #[trigger] spec_chunks(
            data,
            chunk,
        )[i].len() == chunk by {
            if i > 0 {
                assert(spec_chunks(data, chunk)[i] == spec_chunks(data.skip(m), chunk)[i - 1]);
            } else {
                assert(spec_chunks(data.skip(m), chunk).len() >= 1);
            }
        }
    }
}

/// The bytes `recv` hands back once the transport has filled the first
/// `size` bytes of `buffer`: exactly the filled prefix, nothing more.
pub fn received_bytes(buffer: &[u8], size: usize) -> (r: Vec<u8>)
    requires
        size <= buffer@.len(),
    ensures
        r@ == buffer@.subrange(0, size as int),
{
    let mut out: Vec<u8> = Vec::new();
    let mut i: usize = 0;
    while i < size
        invariant
            i <= size <= buffer@.len(),
            out@ == buffer@.subrange(0, i as int),
        decreases size - i,
    {
        out.push(buffer[i]);
        proof {
            assert(out@ =~= buffer@.subrange(0, i + 1 as int));
        }
        i += 1;
    }
    out
}

/// One `recv` against a transport holding `pending` bytes, with a read
/// buffer of `chunk` bytes: hands back the bytes read and what the
/// transport still holds.
pub fn recv_split(pending: &Vec<u8>, chunk: usize) -> (r: (Vec<u8>, Vec<u8>))
    requires
        chunk >= 1,
    ensures
        r.0@ == pending@.take(min_len(chunk as int, pending@.len() as int)),
        r.1@ == pending@.skip(min_len(chunk as int, pending@.len() as int)),
        r.0@ + r.1@ == pending@,
{
    let m: usize = if chunk <= pending.len() {
        chunk
    } else {
        pending.len()
    };
    let head = received_bytes(pending.as_slice(), m);
    let mut tail: Vec<u8> = Vec::new();
    let mut i: usize = m;
    while i < pending.len()
        invariant
            m <= i <= pending@.len(),
            tail@ == pending@.subrange(m as int, i as int),
        decreases pending@.len() - i,
    {
        tail.push(pending[i]);
        proof {
            assert(tail@ =~= pending@.subrange(m as int, i + 1 as int));
        }
        i += 1;
    }
    proof {
        assert(head@ =~= pending@.take(min_len(chunk as int, pending@.len() as int)));
        assert(tail@ =~= pending@.skip(min_len(chunk as int, pending@.len() as int)));
        assert(head@ + tail@ =~= pending@);
    }
    (head, tail)
}

/// Drains a transport carrying `data` the way a framing caller does:
/// repeated `recv` calls with a read buffer of `chunk` bytes, collected in
/// order until the transport is empty.
pub fn drain_chunks(data: &Vec<u8>, chunk: usize) -> (r: Vec<Vec<u8>>)
    requires
        chunk >= 1,
    ensures
        r.deep_view() == spec_chunks(data@, chunk as int),
{
    let mut rest: Vec<u8> = data.clone();
    let mut out: Vec<Vec<u8>> = Vec::new();
    proof {
        assert(out.deep_view() + spec_chunks(rest@, chunk as int) =~= spec_chunks(
            data@,
            chunk as int,
        ));
    }
    while rest.len() > 0
        invariant
            chunk >= 1,
            out.deep_view() + spec_chunks(rest@, chunk as int) == spec_chunks(
                data@,
                chunk as int,
            ),
        decreases rest@.len(),
    {
        let ghost prev = rest@;
        let ghost prev_out = out.deep_view();
        let (head, tail) = recv_split(&rest, chunk);
        out.push(head);
        rest = tail;
        proof {
            assert(head.deep_view() =~= head@);
            assert(out.deep_view() =~= prev_out.push(prev.take(
                min_len(chunk as int, prev.len() as int),
            )));
            assert(spec_chunks(prev, chunk as int) == seq![prev.take(
                min_len(chunk as int, prev.len() as int),
            )] + spec_chunks(rest@, chunk as int));
            assert(out.deep_view() + spec_chunks(rest@, chunk as int) =~= prev_out + spec_chunks(
                prev,
                chunk as int,
            ));
        }
    }
    proof {
        assert(out.deep_view() + spec_chunks(rest@, chunk as int) =~= out.deep_view());
    }
    out
}

} // verus!
