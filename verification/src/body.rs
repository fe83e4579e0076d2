//! Capture of the raw request body: what the transport delivered, drained
//! into one contiguous buffer of opaque bytes.

use bytes::BytesMut;
use vstd::prelude::*;

verus! {

/// One item of the inbound body stream, as the transport handed it over.
#[derive(Clone, Debug, PartialEq, Eq)]
pub enum PayloadChunk {
    /// A run of body bytes.
    Data(Vec<u8>),
    /// The transport failed at this point of the stream.
    ReadError,
}

impl PayloadChunk {
    /// The body bytes that the item carries; a read error carries none.
    pub open spec fn bytes(self) -> Seq<u8> {
        match self {
            PayloadChunk::Data(data) => data@,
            PayloadChunk::ReadError => Seq::empty(),
        }
    }
}

/// The body that a stream amounts to: the bytes of its items, in order, with
/// nothing between them. Items that failed to read add nothing and end
/// nothing.
pub open spec fn captured_bytes(payload: Seq<PayloadChunk>) -> Seq<u8>
    decreases payload.len(),
{
    if payload.len() == 0 {
        Seq::empty()
    } else {
        captured_bytes(payload.drop_last()) + payload.last().bytes()
    }
}

/// The growable byte buffer of the `bytes` crate, in which a body is
/// gathered.
#[verifier::external_type_specification]
#[verifier::external_body]
pub struct ExBytesMut(BytesMut);

/// The bytes that a `bytes::BytesMut` holds, first to last.
pub uninterp spec fn buffered(buffer: BytesMut) -> Seq<u8>;

/// Trusted: `BytesMut::new` gives a buffer that holds no bytes.
pub assume_specification[ BytesMut::new ]() -> (buffer: BytesMut)
    ensures
        buffered(buffer) == Seq::<u8>::empty(),
;

/// Trusted: `BytesMut::extend_from_slice` keeps what the buffer held and puts
/// the slice's bytes after it. It fails only where the two lengths together
/// pass `usize`, which no buffer and slice in memory do.
pub assume_specification[ BytesMut::extend_from_slice ](buffer: &mut BytesMut, extend: &[u8])
    ensures
        buffered(*final(buffer)) == buffered(*old(buffer)) + extend@,
;

/// Calls the `From<BytesMut>` conversion of `Vec<u8>`. Trusted: the vector
/// holds the buffer's bytes, unchanged and in order.
#[verifier::external_body]
pub(crate) fn into_vec(buffer: BytesMut) -> (bytes: Vec<u8>)
    ensures
        bytes@ == buffered(buffer),
{
    Vec::from(buffer)
}

/// Drains a body stream into one owned buffer, whatever its chunking. The
/// bytes are not interpreted. An item that failed to read is passed over and
/// what was read around it is kept.
pub fn capture_body(payload: &Vec<PayloadChunk>) -> (body: Vec<u8>)
    ensures
        body@ == captured_bytes(payload@),
{
    let mut buffer = BytesMut::new();
    let mut i: usize = 0;
    while i < payload.len()
        invariant
            i <= payload.len(),
            buffered(buffer) == captured_bytes(payload@.take(i as int)),
        decreases payload.len() - i,
    {
        proof {
            let next = payload@.take(i + 1);
            assert(next.drop_last() =~= payload@.take(i as int));
            assert(next.last() == payload@[i as int]);
        }
        match &payload[i] {
            PayloadChunk::Data(data) => {
                buffer.extend_from_slice(data.as_slice());
            },
            PayloadChunk::ReadError => {
                assert(buffered(buffer) + Seq::<u8>::empty() =~= buffered(buffer));
            },
        }
        i += 1;
    }
    assert(payload@.take(i as int) =~= payload@);
    into_vec(buffer)
}

/// A body comes out of capture as it went onto the wire: splitting it into
/// chunks at any point changes nothing, and neither does a failed read
/// between the chunks.
pub proof fn lemma_chunking_is_invisible(front: Seq<PayloadChunk>, back: Seq<PayloadChunk>)
    ensures
        captured_bytes(front + back) == captured_bytes(front) + captured_bytes(back),
    decreases back.len(),
{
    if back.len() == 0 {
        assert(front + back =~= front);
        assert(captured_bytes(front) + Seq::<u8>::empty() =~= captured_bytes(front));
    } else {
        let whole = front + back;
        assert(whole.drop_last() =~= front + back.drop_last());
        assert(whole.last() == back.last());
        lemma_chunking_is_invisible(front, back.drop_last());
        assert(captured_bytes(front) + captured_bytes(back.drop_last()) + back.last().bytes()
            =~= captured_bytes(front) + (captured_bytes(back.drop_last()) + back.last().bytes()));
    }
}

} // verus!
