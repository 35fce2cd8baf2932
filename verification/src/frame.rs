//! Length-prefixed framing of response messages.
//!
//! A structured response is sent as a four-byte big-endian length followed
//! by the payload, so a client can read one complete message without
//! relying on the connection closing.

use vstd::prelude::*;

verus! {

/// The four big-endian bytes of a 32-bit length.
pub open spec fn u32_be_bytes(n: u32) -> Seq<u8> {
    seq![
        (n / 0x1000000) as u8,
        ((n / 0x10000) % 256) as u8,
        ((n / 256) % 256) as u8,
        (n % 256) as u8,
    ]
}

/// The value the four bytes of a big-endian length stand for.
pub open spec fn be_u32_value(s: Seq<u8>) -> int {
    s[0] * 0x1000000 + s[1] * 0x10000 + s[2] * 256 + s[3]
}

/// The big-endian length encoding loses nothing: the four bytes of `n`
/// stand for `n` itself.
pub proof fn lemma_be_round_trip(n: u32)
    ensures
        be_u32_value(u32_be_bytes(n)) == n,
{
    assert((n / 0x1000000) * 0x1000000 + ((n / 0x10000) % 256) * 0x10000 + ((n / 256) % 256)
        * 256 + n % 256 == n) by (nonlinear_arith);
}

/// A complete frame: the payload's length as four big-endian bytes,
/// then the payload itself.
pub fn frame_message(payload: &[u8]) -> (r: Vec<u8>)
    requires
        payload@.len() <= u32::MAX,
    ensures
        r@ == u32_be_bytes(payload@.len() as u32) + payload@,
{
    let len: u32 = payload.len() as u32;
    let mut r: Vec<u8> = Vec::new();
    r.push((len / 0x1000000) as u8);
    r.push(((len / 0x10000) % 256) as u8);
    r.push(((len / 256) % 256) as u8);
    r.push((len % 256) as u8);
    assert(r@ =~= u32_be_bytes(len));
    let mut i: usize = 0;
    while i < payload.len()
        invariant
            i <= payload@.len(),
            payload@.len() <= u32::MAX,
            len == payload@.len() as u32,
            r@ == u32_be_bytes(len) + payload@.subrange(0, i as int),
        decreases payload@.len() - i,
    {
        r.push(payload[i]);
        i = i + 1;
        assert(u32_be_bytes(len) + payload@.subrange(0, i - 1) + seq![payload@[i - 1]] =~= u32_be_bytes(
            len,
        ) + payload@.subrange(0, i as int));
    }
    assert(payload@.subrange(0, payload@.len() as int) =~= payload@);
    r
}

} // verus!
