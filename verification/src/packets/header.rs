//! The six bytes that open every packet.

use vstd::prelude::*;
use crate::wire::{crc16_xmodem, be16, be16_bytes, checksum, read_be16, write_be16};
use crate::packets::{PacketType, ErrCode, with_zero_crc};

verus! {

/// Length, identity, kind and checksum of a packet.
#[derive(Clone, Copy, Debug, PartialEq, Eq, Structural)]
pub struct Header {
    /// Bytes in the packet, this header included, before framing.
    pub len: u8,
    /// Chosen by the sender to tell packets apart.
    pub packet_id: u16,
    pub packet_type: PacketType,
    /// Checksum of the whole packet, computed with this field as zero.
    pub crc: u16,
}

impl Header {
    /// The six bytes of this header on the wire.
    pub open spec fn bytes(self) -> Seq<u8> {
        seq![
            self.len,
            be16_bytes(self.packet_id)[0],
            be16_bytes(self.packet_id)[1],
            self.packet_type.tag(),
            be16_bytes(self.crc)[0],
            be16_bytes(self.crc)[1],
        ]
    }

    /// The header that the first six bytes of `raw` spell, if the type byte
    /// is a known one.
    pub open spec fn parse(raw: Seq<u8>) -> Option<Header>
        recommends
            raw.len() >= 6,
    {
        match PacketType::from_tag(raw[3]) {
            None => None,
            Some(kind) => Some(
                Header {
                    len: raw[0],
                    packet_id: be16(raw[1], raw[2]),
                    packet_type: kind,
                    crc: be16(raw[4], raw[5]),
                },
            ),
        }
    }

    /// This header with a checksum of zero.
    pub open spec fn unsealed(self) -> Header {
        Header { crc: 0, ..self }
    }

    /// A header for a packet of `pcket_length` bytes, its checksum not yet
    /// computed.
    pub fn new(pcket_length: u8, packet_id: u16, packet_type: PacketType) -> (h: Header)
        ensures
            h == (Header { len: pcket_length, packet_id, packet_type, crc: 0 }),
    {
        Header { len: pcket_length, packet_id, packet_type, crc: 0 }
    }

    /// Writes the six bytes of this header to the start of `out`, the
    /// checksum as it stands, and returns 6.
    pub fn serialize(&self, out: &mut [u8]) -> (n: usize)
        requires
            old(out)@.len() >= 6,
        ensures
            n == 6,
            final(out)@.len() == old(out)@.len(),
            final(out)@.subrange(0, 6) == self.bytes(),
            final(out)@.subrange(6, old(out)@.len() as int) == old(out)@.subrange(
                6,
                old(out)@.len() as int,
            ),
    {
        out[0] = self.len;
        write_be16(out, 1, self.packet_id);
        out[3] = self.packet_type.to_byte();
        write_be16(out, 4, self.crc);
        assert(out@.subrange(0, 6) =~= self.bytes());
        assert(out@.subrange(6, old(out)@.len() as int) =~= old(out)@.subrange(
            6,
            old(out)@.len() as int,
        ));
        6
    }

    /// Reads a header from the first six bytes of `input`. Where the type
    /// byte is not a known one the result is `BROKEN` and this header is
    /// left as it was.
    pub fn deserialize(&mut self, input: &[u8]) -> (r: Result<(), ErrCode>)
        requires
            input@.len() >= 6,
        ensures
            match Header::parse(input@) {
                Some(h) => r is Ok && *final(self) == h,
                None => r == Err::<(), ErrCode>(ErrCode::BROKEN) && *final(self) == *old(self),
            },
    {
        let len = input[0];
        let packet_id = read_be16(input, 1);
        let crc = read_be16(input, 4);
        match PacketType::from_byte(input[3]) {
            None => Err(ErrCode::BROKEN),
            Some(packet_type) => {
                self.len = len;
                self.packet_id = packet_id;
                self.packet_type = packet_type;
                self.crc = crc;
                Ok(())
            },
        }
    }

    /// Zeroes the checksum bytes of `buf` and tells whether this header's
    /// checksum is that of the first `len` bytes of the result.
    pub fn validate_crc(&self, buf: &mut [u8]) -> (valid: bool)
        requires
            old(buf)@.len() >= 6,
            self.len as nat <= old(buf)@.len(),
        ensures
            final(buf)@ == with_zero_crc(old(buf)@),
            valid == (self.crc == crc16_xmodem(final(buf)@.subrange(0, self.len as int))),
    {
        buf[4] = 0;
        buf[5] = 0;
        let covered = vstd::slice::slice_subrange(buf, 0, self.len as usize);
        self.crc == checksum(covered)
    }

    /// Forgets the checksum.
    pub fn zero_crc(&mut self)
        ensures
            *final(self) == old(self).unsealed(),
    {
        self.crc = 0;
    }

    /// Bytes in a header.
    pub fn size_of() -> (n: usize)
        ensures
            n == 6,
    {
        6
    }

    /// What `serialize` writes, `parse` reads back.
    pub proof fn lemma_parse_bytes(self)
        ensures
            Header::parse(self.bytes()) == Some(self),
    {
        crate::wire::lemma_be16_roundtrip(self.packet_id);
        crate::wire::lemma_be16_roundtrip(self.crc);
    }
}

} // verus!
