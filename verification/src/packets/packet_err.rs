//! The negative acknowledgement.

use vstd::prelude::*;
use crate::wire::{cobs_encode_into, be16, be16_bytes, read_be16, write_be16, lemma_be16_roundtrip};
use crate::packets::header::Header;
use crate::packets::{ErrCode, Packet, PacketType};
use crate::packets::{checked, check_header, lemma_written_is_checked, packet_checksum, packet_sum};
use crate::packets::{unstuff, unstuffed};

verus! {

/// The packet numbered `packet_id` was rejected for the reason `error`.
#[derive(Clone, Copy, Debug, PartialEq, Eq, Structural)]
pub struct ErrPacket {
    pub header: Header,
    pub error: ErrCode,
    /// The id of the packet that is answered.
    pub packet_id: u16,
}

impl ErrPacket {
    /// The three bytes after the header.
    pub open spec fn payload(&self) -> Seq<u8> {
        seq![self.error.tag(), be16_bytes(self.packet_id)[0], be16_bytes(self.packet_id)[1]]
    }

    /// This packet with `sum` for its checksum.
    pub open spec fn with_crc(&self, sum: u16) -> ErrPacket {
        ErrPacket { header: Header { crc: sum, ..self.header }, ..*self }
    }

    /// Header and payload, with `sum` in the checksum bytes.
    pub open spec fn unframed_with(&self, sum: u16) -> Seq<u8> {
        self.with_crc(sum).header.bytes() + self.payload()
    }

    /// The packet that the unframed bytes `raw` spell, where `sum` is the
    /// checksum that `raw` ought to carry: they pass the packet check and
    /// the error byte is a known one.
    pub open spec fn parse_with(raw: Seq<u8>, sum: u16) -> Option<ErrPacket> {
        match checked(raw, 9, sum) {
            None => None,
            Some(header) => match ErrCode::from_tag(raw[6]) {
                None => None,
                Some(error) => Some(ErrPacket { header, error, packet_id: be16(raw[7], raw[8]) }),
            },
        }
    }

    pub fn new(packet_id: u16, err_code: ErrCode, responding_to_id: u16) -> (p: ErrPacket)
        ensures
            p == (ErrPacket {
                header: Header { len: 9, packet_id, packet_type: PacketType::Error, crc: 0 },
                error: err_code,
                packet_id: responding_to_id,
            }),
            p.wf(),
    {
        let header = Header::new(9, packet_id, PacketType::Error);
        ErrPacket { header, error: err_code, packet_id: responding_to_id }
    }

    /// Bytes of header and payload together.
    pub fn size_of() -> (n: usize)
        ensures
            n == 9,
    {
        Header::size_of() + 3
    }

    /// Header and payload in a buffer of their own, with `sum` in the
    /// checksum bytes whatever the header holds.
    pub fn to_unframed(&self, sum: u16) -> (raw: Vec<u8>)
        ensures
            raw@ == self.unframed_with(sum),
    {
        let mut raw: Vec<u8> = vec![0xff; ErrPacket::size_of()];
        let mut header = Header::new(self.header.len, self.header.packet_id, self.header.packet_type);
        header.crc = sum;
        let header_len = header.serialize(raw.as_mut_slice());
        raw[header_len] = self.error.to_byte();
        write_be16(raw.as_mut_slice(), header_len + 1, self.packet_id);
        assert(raw@ =~= self.unframed_with(sum));
        raw
    }

    /// Reads a packet from the unframed bytes `raw`, where `sum` is the
    /// checksum that the caller has computed for them. Returns the
    /// packet's length, or 0 where `raw` is no sound packet of this kind,
    /// and then leaves `out` alone.
    pub fn read_unframed(raw: &[u8], sum: u16, out: &mut ErrPacket) -> (n: usize)
        ensures
            match ErrPacket::parse_with(raw@, sum) {
                Some(p) => n == 9 && *final(out) == p,
                None => n == 0 && *final(out) == *old(out),
            },
    {
        match check_header(raw, ErrPacket::size_of(), sum) {
            None => 0,
            Some(header) => {
                let error = match ErrCode::from_byte(raw[6]) {
                    None => { return 0; },
                    Some(error) => error,
                };
                out.header = header;
                out.error = error;
                out.packet_id = read_be16(raw, 7);
                ErrPacket::size_of()
            },
        }
    }

    /// Reading the bytes of a well-formed packet gives the packet back,
    /// with the checksum that the bytes carry in its header.
    pub proof fn lemma_parse_unframed(self, sum: u16)
        requires
            self.wf(),
        ensures
            ErrPacket::parse_with(self.unframed_with(sum), sum) == Some(self.with_crc(sum)),
            packet_sum(self.unframed_with(sum)) == packet_sum(self.unframed_with(0)),
    {
        lemma_written_is_checked(self.with_crc(sum).header, self.payload());
        lemma_written_is_checked(self.with_crc(0).header, self.payload());
        let tail = self.unframed_with(sum).subrange(6, 9);
        lemma_be16_roundtrip(self.packet_id);
        assert(tail[0] == self.error.tag() && be16(tail[1], tail[2]) == self.packet_id);
    }
}

impl Packet for ErrPacket {
    open spec fn wire_size() -> nat {
        9
    }

    open spec fn wf(&self) -> bool {
        self.header.len == 9
    }

    open spec fn unframed(&self) -> Seq<u8> {
        self.unframed_with(packet_sum(self.unframed_with(0)))
    }

    open spec fn received(&self) -> ErrPacket {
        self.with_crc(packet_sum(self.unframed_with(0)))
    }

    open spec fn decoded(frame: Seq<u8>) -> Option<ErrPacket> {
        match unstuffed(frame, 9) {
            None => None,
            Some(raw) => ErrPacket::parse_with(raw, packet_sum(raw)),
        }
    }

    fn frame_len() -> (n: usize) {
        ErrPacket::size_of() + 2
    }

    fn serialize(&self, out: &mut [u8]) -> (n: usize) {
        if out.len() < ErrPacket::frame_len() {
            return 0;
        }
        let sum = packet_checksum(self.to_unframed(0).as_slice());
        let raw = self.to_unframed(sum);
        proof {
            if self.wf() {
                self.lemma_parse_unframed(sum);
            }
        }
        cobs_encode_into(raw.as_slice(), out)
    }

    fn deserialize(input: &[u8], out: &mut ErrPacket) -> (n: usize) {
        match unstuff(input, ErrPacket::size_of()) {
            None => 0,
            Some(raw) => {
                let sum = packet_checksum(raw.as_slice());
                ErrPacket::read_unframed(raw.as_slice(), sum, out)
            },
        }
    }
}

} // verus!
