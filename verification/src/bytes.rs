//! Fixed-width integers and fixed-size fields in byte buffers.

use vstd::prelude::*;
use vstd::utf8::*;

verus! {

/// The two low bytes of `n`, most significant first.
pub open spec fn be16(n: nat) -> Seq<u8> {
    seq![(n / 256 % 256) as u8, (n % 256) as u8]
}

/// The four low bytes of `n`, most significant first.
pub open spec fn be32(n: nat) -> Seq<u8> {
    seq![
        (n / 16777216 % 256) as u8,
        (n / 65536 % 256) as u8,
        (n / 256 % 256) as u8,
        (n % 256) as u8,
    ]
}

/// The number that the first two bytes of a buffer spell, most significant first.
pub open spec fn read_be16(bytes: Seq<u8>) -> int {
    bytes[0] * 256 + bytes[1]
}

/// The number that the first four bytes of a buffer spell, most significant first.
pub open spec fn read_be32(bytes: Seq<u8>) -> int {
    bytes[0] * 16777216 + bytes[1] * 65536 + bytes[2] * 256 + bytes[3]
}

/// A number below `2^16` is read back from its two bytes.
pub proof fn be16_round_trip(n: nat)
    requires
        n < 65536,
    ensures
        read_be16(be16(n)) == n,
{
}

/// A number below `2^32` is read back from its four bytes.
pub proof fn be32_round_trip(n: nat)
    requires
        n < 4294967296,
    ensures
        read_be32(be32(n)) == n,
{
}

/// Two bytes are the encoding of the number that they spell.
pub proof fn be16_is_canonical(bytes: Seq<u8>)
    requires
        bytes.len() >= 2,
    ensures
        be16(read_be16(bytes) as nat) == bytes.take(2),
{
    assert(be16(read_be16(bytes) as nat) =~= bytes.take(2));
}

/// Four bytes are the encoding of the number that they spell.
pub proof fn be32_is_canonical(bytes: Seq<u8>)
    requires
        bytes.len() >= 4,
    ensures
        be32(read_be32(bytes) as nat) == bytes.take(4),
{
    let n = read_be32(bytes) as nat;
    assert(n / 16777216 == bytes[0]);
    assert(n / 65536 == bytes[0] * 256 + bytes[1]);
    assert(n / 256 == bytes[0] * 65536 + bytes[1] * 256 + bytes[2]);
    assert(be32(n) =~= bytes.take(4));
}

/// Append the two low bytes of a length, most significant first.
pub(crate) fn push_be16(out: &mut Vec<u8>, n: usize)
    ensures
        final(out)@ == old(out)@ + be16(n as nat),
{
    out.push((n / 256 % 256) as u8);
    out.push((n % 256) as u8);
    assert(out@ =~= old(out)@ + be16(n as nat));
}

/// Append the four low bytes of a length, most significant first.
pub(crate) fn push_be32(out: &mut Vec<u8>, n: usize)
    ensures
        final(out)@ == old(out)@ + be32(n as nat),
{
    out.push((n / 16777216 % 256) as u8);
    out.push((n / 65536 % 256) as u8);
    out.push((n / 256 % 256) as u8);
    out.push((n % 256) as u8);
    assert(out@ =~= old(out)@ + be32(n as nat));
}

/// Append a slice.
pub(crate) fn push_all(out: &mut Vec<u8>, bytes: &[u8])
    ensures
        final(out)@ == old(out)@ + bytes@,
{
    let mut i: usize = 0;
    while i < bytes.len()
        invariant
            i <= bytes@.len(),
            out@ == old(out)@ + bytes@.take(i as int),
        decreases bytes@.len() - i,
    {
        out.push(bytes[i]);
        assert(bytes@.take(i + 1) =~= bytes@.take(i as int).push(bytes@[i as int]));
        i = i + 1;
    }
    assert(bytes@.take(i as int) =~= bytes@);
}

/// Copy the 32 bytes of a field out of a buffer.
pub(crate) fn field32(bytes: &[u8], start: usize) -> (res: [u8; 32])
    requires
        start + 32 <= bytes@.len(),
    ensures
        res@ == bytes@.subrange(start as int, start + 32),
{
    let len: usize = bytes.len();
    let mut out: [u8; 32] = [0u8; 32];
    let mut i: usize = 0;
    while i < 32
        invariant
            i <= 32,
            start + 32 <= len == bytes@.len(),
            forall|j: int| 0 <= j < i ==> out@[j] == bytes@[start + j],
        decreases 32 - i,
    {
        out[i] = bytes[start + i];
        i = i + 1;
    }
    assert(out@ =~= bytes@.subrange(start as int, start + 32));
    out
}

/// Calls `core::str::from_utf8`.
///
/// Trusted: the bytes are accepted exactly if they are valid UTF-8, and the text is the one that
/// they encode.
#[verifier::external_body]
pub(crate) fn utf8_text(bytes: &[u8]) -> (res: Option<&str>)
    ensures
        match res {
            Some(text) => valid_utf8(bytes@) && text@ == decode_utf8(bytes@),
            None => !valid_utf8(bytes@),
        },
{
    core::str::from_utf8(bytes).ok()
}

} // verus!
