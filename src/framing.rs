use vstd::prelude::*;

use crate::errors::IrisError;
use crate::json::push_all;

verus! {

/// The four big-endian bytes of `n`.
pub open spec fn be_bytes(n: u32) -> Seq<u8> {
    seq![(n >> 24u32) as u8, (n >> 16u32) as u8, (n >> 8u32) as u8, n as u8]
}

/// The number that four big-endian bytes spell.
pub open spec fn be_value(b: Seq<u8>) -> u32
    recommends
        b.len() == 4,
{
    ((b[0] as u32) << 24u32) | ((b[1] as u32) << 16u32) | ((b[2] as u32) << 8u32) | (b[3] as u32)
}

/// A frame on the wire: the payload's length in four big-endian bytes, then the payload.
pub open spec fn frame(payload: Seq<u8>) -> Seq<u8>
    recommends
        payload.len() <= u32::MAX,
{
    be_bytes(payload.len() as u32) + payload
}

/// Reading a length prefix gives back the length that was written.
pub proof fn length_prefix_round_trip(n: u32)
    ensures
        be_value(be_bytes(n)) == n,
{
    let b0 = (n >> 24u32) as u8;
    let b1 = (n >> 16u32) as u8;
    let b2 = (n >> 8u32) as u8;
    let b3 = n as u8;
    assert((((b0 as u32) << 24u32) | ((b1 as u32) << 16u32) | ((b2 as u32) << 8u32) | (b3 as u32))
        == n) by (bit_vector)
        requires
            b0 == (n >> 24u32) as u8,
            b1 == (n >> 16u32) as u8,
            b2 == (n >> 8u32) as u8,
            b3 == n as u8,
    ;
}

/// What one peer writes as a frame is what the other reads back: the prefix of the frame of
/// `payload` announces its length, and the payload follows unchanged.
pub proof fn frame_round_trip(payload: Seq<u8>)
    requires
        payload.len() <= u32::MAX,
    ensures
        be_value(frame(payload).subrange(0, 4)) == payload.len(),
        frame(payload).subrange(4, frame(payload).len() as int) == payload,
{
    length_prefix_round_trip(payload.len() as u32);
    assert(frame(payload).subrange(0, 4) =~= be_bytes(payload.len() as u32));
    assert(frame(payload).subrange(4, frame(payload).len() as int) =~= payload);
}

/// Builds the frame that carries `payload`; a payload longer than a four-byte length can
/// express is refused.
pub fn encode_frame(payload: &[u8]) -> (r: Result<Vec<u8>, IrisError>)
    ensures
        payload@.len() <= u32::MAX ==> (r matches Ok(f) && f@ == frame(payload@)),
        payload@.len() > u32::MAX ==> r == Err::<Vec<u8>, IrisError>(
            IrisError::U32TypecastError,
        ),
{
    if payload.len() > u32::MAX as usize {
        return Err(IrisError::U32TypecastError);
    }
    let n = payload.len() as u32;
    let mut out: Vec<u8> = Vec::new();
    out.push((n >> 24u32) as u8);
    out.push((n >> 16u32) as u8);
    out.push((n >> 8u32) as u8);
    out.push(n as u8);
    push_all(&mut out, payload);
    assert(out@ =~= frame(payload@));
    Ok(out)
}

/// The payload length announced by a four-byte prefix.
pub fn frame_length(prefix: &[u8]) -> (r: u32)
    requires
        prefix@.len() == 4,
    ensures
        r == be_value(prefix@),
{
    ((prefix[0] as u32) << 24u32) | ((prefix[1] as u32) << 16u32) | ((prefix[2] as u32) << 8u32)
        | (prefix[3] as u32)
}

/// Reads a buffer that holds exactly one frame: `Some(p)` exactly when `bytes` is the frame of
/// `p`.
pub fn decode_frame(bytes: &[u8]) -> (r: Option<Vec<u8>>)
    ensures
        r matches Some(p) ==> bytes@ == frame(p@) && p@.len() <= u32::MAX,
        forall|p: Seq<u8>| p.len() <= u32::MAX && bytes@ == frame(p) ==> (r matches Some(q) && q@ == p),
{
    if bytes.len() < 4 {
        return None;
    }
    let n = frame_length(&bytes[0..4]);
    proof {
        assert(bytes@.subrange(0, 4) =~= seq![bytes@[0], bytes@[1], bytes@[2], bytes@[3]]);
        assert forall|p: Seq<u8>| p.len() <= u32::MAX && bytes@ == frame(p) implies n == p.len() by {
            length_prefix_round_trip(p.len() as u32);
            assert(bytes@.subrange(0, 4) =~= be_bytes(p.len() as u32));
        }
    }
    if bytes.len() - 4 != n as usize {
        return None;
    }
    let mut payload: Vec<u8> = Vec::new();
    push_all(&mut payload, &bytes[4..bytes.len()]);
    proof {
        assert(be_bytes(n) =~= bytes@.subrange(0, 4)) by {
            let b = bytes@;
            let b0 = b[0];
            let b1 = b[1];
            let b2 = b[2];
            let b3 = b[3];
            assert(((n >> 24u32) as u8) == b0 && ((n >> 16u32) as u8) == b1 && ((n >> 8u32) as u8)
                == b2 && (n as u8) == b3) by (bit_vector)
                requires
                    n == ((b0 as u32) << 24u32) | ((b1 as u32) << 16u32) | ((b2 as u32) << 8u32)
                        | (b3 as u32),
            ;
        }
        assert(bytes@ =~= frame(payload@));
        assert forall|p: Seq<u8>| p.len() <= u32::MAX && bytes@ == frame(p) implies payload@ == p by {
            assert(p =~= bytes@.subrange(4, bytes@.len() as int));
        }
    }
    Some(payload)
}

} // verus!
