//! The boundary to the byte-level crates: checksum, byte stuffing and
//! big-endian integers, each with the contract the rest of the library
//! relies on.

use vstd::prelude::*;
use byteorder::ByteOrder;

verus! {

/// The CRC-16/XMODEM checksum of `data`.
pub uninterp spec fn crc16_xmodem(data: Seq<u8>) -> u16;

/// The byte-stuffed, zero-terminated frame that carries `data`.
pub uninterp spec fn cobs_encoded(data: Seq<u8>) -> Seq<u8>;

/// What de-stuffing `frame` yields, or `None` where the frame ends before
/// its terminator.
pub uninterp spec fn cobs_decoded(frame: Seq<u8>) -> Option<Seq<u8>>;

/// The 16-bit value whose big-endian bytes are `hi`, `lo`.
pub open spec fn be16(hi: u8, lo: u8) -> u16 {
    (hi as int * 256 + lo as int) as u16
}

/// The 32-bit value whose big-endian bytes are `b0` to `b3`.
pub open spec fn be32(b0: u8, b1: u8, b2: u8, b3: u8) -> u32 {
    (b0 as int * 16777216 + b1 as int * 65536 + b2 as int * 256 + b3 as int) as u32
}

/// The two big-endian bytes of `n`.
pub open spec fn be16_bytes(n: u16) -> Seq<u8> {
    seq![(n / 256) as u8, (n % 256) as u8]
}

/// The four big-endian bytes of `n`.
pub open spec fn be32_bytes(n: u32) -> Seq<u8> {
    seq![
        (n / 16777216) as u8,
        ((n / 65536) % 256) as u8,
        ((n / 256) % 256) as u8,
        (n % 256) as u8,
    ]
}

/// `frame` is the stuffed form of `data`: one byte of overhead and one
/// terminator, no zero before the terminator, and de-stuffing gives `data`
/// back.
pub open spec fn is_frame_of(frame: Seq<u8>, data: Seq<u8>) -> bool {
    &&& frame == cobs_encoded(data)
    &&& frame.len() == data.len() + 2
    &&& frame[frame.len() - 1] == 0
    &&& forall|i: int| 0 <= i < frame.len() - 1 ==> frame[i] != 0
    &&& cobs_decoded(frame) == Some(data)
}

/// `crc::Crc::<u16>::checksum` with the CRC-16/XMODEM parameters. The
/// checksum is a function of the bytes alone; the contract names it and
/// states nothing else.
#[verifier::external_body]
pub(crate) fn checksum(data: &[u8]) -> (sum: u16)
    ensures
        sum == crc16_xmodem(data@),
{
    crc::Crc::<u16>::new(&crc::CRC_16_XMODEM).checksum(data)
}

/// `corncobs::encode_buf`. For a message of 1 to 253 bytes the encoder
/// writes one run-length byte per zero-free run, the runs themselves and a
/// closing zero, `data.len() + 2` bytes in all, at the start of `out`, and
/// leaves the rest of `out` as it was; it returns the count written. What
/// it writes holds no zero before the closing one and decodes to `data`.
/// The encoder panics on a buffer that is too short, which `requires`
/// rules out.
#[verifier::external_body]
pub(crate) fn cobs_encode_into(data: &[u8], out: &mut [u8]) -> (n: usize)
    requires
        0 < data@.len() < 254,
        old(out)@.len() >= data@.len() + 2,
    ensures
        n == data@.len() + 2,
        final(out)@.len() == old(out)@.len(),
        final(out)@.subrange(0, n as int) == cobs_encoded(data@),
        is_frame_of(final(out)@.subrange(0, n as int), data@),
        final(out)@.subrange(n as int, old(out)@.len() as int)
            == old(out)@.subrange(n as int, old(out)@.len() as int),
{
    corncobs::encode_buf(data, out)
}

/// `corncobs::decode_buf`, into a buffer as long as the frame (the decoded
/// bytes are never more than the encoded ones). `Some` holds the decoded
/// bytes; `None` stands for the decoder's error.
#[verifier::external_body]
pub(crate) fn cobs_decode(frame: &[u8]) -> (data: Option<Vec<u8>>)
    ensures
        data is Some <==> cobs_decoded(frame@) is Some,
        data matches Some(v) ==> v@ == cobs_decoded(frame@)->0,
{
    let mut out = vec![0u8; frame.len()];
    match corncobs::decode_buf(frame, &mut out) {
        Ok(n) => {
            out.truncate(n);
            Some(out)
        },
        Err(_) => None,
    }
}

/// `byteorder::BigEndian::read_u16` on the bytes from `at` on: the first
/// two, most significant first. It panics on fewer than two bytes.
#[verifier::external_body]
pub(crate) fn read_be16(buf: &[u8], at: usize) -> (n: u16)
    requires
        at + 2 <= buf@.len(),
    ensures
        n == be16(buf@[at as int], buf@[at + 1]),
{
    byteorder::NetworkEndian::read_u16(&buf[at..])
}

/// `byteorder::BigEndian::read_u32` on the bytes from `at` on: the first
/// four, most significant first. It panics on fewer than four bytes.
#[verifier::external_body]
pub(crate) fn read_be32(buf: &[u8], at: usize) -> (n: u32)
    requires
        at + 4 <= buf@.len(),
    ensures
        n == be32(buf@[at as int], buf@[at + 1], buf@[at + 2], buf@[at + 3]),
{
    byteorder::NetworkEndian::read_u32(&buf[at..])
}

/// `byteorder::BigEndian::write_u16` on the bytes from `at` on: it
/// overwrites the first two with `n`, most significant first, and touches
/// no other. It panics on fewer than two bytes.
#[verifier::external_body]
pub(crate) fn write_be16(buf: &mut [u8], at: usize, n: u16)
    requires
        at + 2 <= old(buf)@.len(),
    ensures
        final(buf)@ == old(buf)@.update(at as int, be16_bytes(n)[0]).update(
            at + 1,
            be16_bytes(n)[1],
        ),
{
    byteorder::NetworkEndian::write_u16(&mut buf[at..], n)
}

/// `byteorder::BigEndian::write_u32` on the bytes from `at` on: it
/// overwrites the first four with `n`, most significant first, and touches
/// no other. It panics on fewer than four bytes.
#[verifier::external_body]
pub(crate) fn write_be32(buf: &mut [u8], at: usize, n: u32)
    requires
        at + 4 <= old(buf)@.len(),
    ensures
        final(buf)@ == old(buf)@.update(at as int, be32_bytes(n)[0]).update(
            at + 1,
            be32_bytes(n)[1],
        ).update(at + 2, be32_bytes(n)[2]).update(at + 3, be32_bytes(n)[3]),
{
    byteorder::NetworkEndian::write_u32(&mut buf[at..], n)
}

/// Reading back what was written gives the value written.
pub proof fn lemma_be16_roundtrip(n: u16)
    ensures
        be16(be16_bytes(n)[0], be16_bytes(n)[1]) == n,
{
}

/// Reading back what was written gives the value written.
pub proof fn lemma_be32_roundtrip(n: u32)
    ensures
        be32(be32_bytes(n)[0], be32_bytes(n)[1], be32_bytes(n)[2], be32_bytes(n)[3]) == n,
{
}

} // verus!
