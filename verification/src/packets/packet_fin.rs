//! The notice that a scan is complete.

use vstd::prelude::*;
use crate::wire::{cobs_encode_into, be16, be16_bytes, read_be16, write_be16, lemma_be16_roundtrip};
use crate::packets::header::Header;
use crate::packets::{Packet, PacketType};
use crate::packets::{checked, check_header, lemma_written_is_checked, packet_checksum, packet_sum};
use crate::packets::{unstuff, unstuffed};

verus! {

/// The scan is over; the device took `number_of_points` samples.
#[derive(Clone, Copy, Debug, PartialEq, Eq, Structural)]
pub struct FinPacket {
    pub header: Header,
    pub number_of_points: u16,
}

impl FinPacket {
    /// The two bytes after the header.
    pub open spec fn payload(&self) -> Seq<u8> {
        be16_bytes(self.number_of_points)
    }

    /// This packet with `sum` for its checksum.
    pub open spec fn with_crc(&self, sum: u16) -> FinPacket {
        FinPacket { header: Header { crc: sum, ..self.header }, ..*self }
    }

    /// Header and payload, with `sum` in the checksum bytes.
    pub open spec fn unframed_with(&self, sum: u16) -> Seq<u8> {
        self.with_crc(sum).header.bytes() + self.payload()
    }

    /// The packet that the unframed bytes `raw` spell, where `sum` is the
    /// checksum that `raw` ought to carry: they pass the packet check.
    pub open spec fn parse_with(raw: Seq<u8>, sum: u16) -> Option<FinPacket> {
        match checked(raw, 8, sum) {
            None => None,
            Some(header) => Some(FinPacket { header, number_of_points: be16(raw[6], raw[7]) }),
        }
    }

    pub fn new(packet_id: u16, number_of_points: u16) -> (p: FinPacket)
        ensures
            p == (FinPacket {
                header: Header { len: 8, packet_id, packet_type: PacketType::Fin, crc: 0 },
                number_of_points,
            }),
            p.wf(),
    {
        let header = Header::new(8, packet_id, PacketType::Fin);
        FinPacket { header, number_of_points }
    }

    /// Bytes of header and payload together.
    pub fn size_of() -> (n: usize)
        ensures
            n == 8,
    {
        Header::size_of() + 2
    }

    /// Header and payload in a buffer of their own, with `sum` in the
    /// checksum bytes whatever the header holds.
    pub fn to_unframed(&self, sum: u16) -> (raw: Vec<u8>)
        ensures
            raw@ == self.unframed_with(sum),
    {
        let mut raw: Vec<u8> = vec![0xff; FinPacket::size_of()];
        let mut header = Header::new(self.header.len, self.header.packet_id, self.header.packet_type);
        header.crc = sum;
        let header_len = header.serialize(raw.as_mut_slice());
        write_be16(raw.as_mut_slice(), header_len, self.number_of_points);
        assert(raw@ =~= self.unframed_with(sum));
        raw
    }

    /// Reads a packet from the unframed bytes `raw`, where `sum` is the
    /// checksum that the caller has computed for them. Returns the
    /// packet's length, or 0 where `raw` is no sound packet of this kind,
    /// and then leaves `out` alone.
    pub fn read_unframed(raw: &[u8], sum: u16, out: &mut FinPacket) -> (n: usize)
        ensures
            match FinPacket::parse_with(raw@, sum) {
                Some(p) => n == 8 && *final(out) == p,
                None => n == 0 && *final(out) == *old(out),
            },
    {
        match check_header(raw, FinPacket::size_of(), sum) {
            None => 0,
            Some(header) => {
                out.header = header;
                out.number_of_points = read_be16(raw, 6);
                FinPacket::size_of()
            },
        }
    }

    /// Reading the bytes of a well-formed packet gives the packet back,
    /// with the checksum that the bytes carry in its header.
    pub proof fn lemma_parse_unframed(self, sum: u16)
        requires
            self.wf(),
        ensures
            FinPacket::parse_with(self.unframed_with(sum), sum) == Some(self.with_crc(sum)),
            packet_sum(self.unframed_with(sum)) == packet_sum(self.unframed_with(0)),
    {
        lemma_written_is_checked(self.with_crc(sum).header, self.payload());
        lemma_written_is_checked(self.with_crc(0).header, self.payload());
        let tail = self.unframed_with(sum).subrange(6, 8);
        lemma_be16_roundtrip(self.number_of_points);
        assert(be16(tail[0], tail[1]) == self.number_of_points);
    }
}

impl Packet for FinPacket {
    open spec fn wire_size() -> nat {
        8
    }

    open spec fn wf(&self) -> bool {
        self.header.len == 8
    }

    open spec fn unframed(&self) -> Seq<u8> {
        self.unframed_with(packet_sum(self.unframed_with(0)))
    }

    open spec fn received(&self) -> FinPacket {
        self.with_crc(packet_sum(self.unframed_with(0)))
    }

    open spec fn decoded(frame: Seq<u8>) -> Option<FinPacket> {
        match unstuffed(frame, 8) {
            None => None,
            Some(raw) => FinPacket::parse_with(raw, packet_sum(raw)),
        }
    }

    fn frame_len() -> (n: usize) {
        FinPacket::size_of() + 2
    }

    fn serialize(&self, out: &mut [u8]) -> (n: usize) {
        if out.len() < FinPacket::frame_len() {
            return 0;
        }
        let sum = packet_checksum(self.to_unframed(0).as_slice());
        let raw = self.to_unframed(sum);
        proof {
            if self.wf() {
                self.lemma_parse_unframed(sum);
            }
        }
        cobs_encode_into(raw.as_slice(), out)
    }

    fn deserialize(input: &[u8], out: &mut FinPacket) -> (n: usize) {
        match unstuff(input, FinPacket::size_of()) {
            None => 0,
            Some(raw) => {
                let sum = packet_checksum(raw.as_slice());
                FinPacket::read_unframed(raw.as_slice(), sum, out)
            },
        }
    }
}

} // verus!
