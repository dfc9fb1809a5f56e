//! One sample of a scan.

use vstd::prelude::*;
use crate::wire::{cobs_encode_into, be32, be32_bytes, read_be32, write_be32, lemma_be32_roundtrip};
use crate::packets::header::Header;
use crate::packets::{Packet, PacketType};
use crate::packets::{checked, check_header, lemma_written_is_checked, packet_checksum, packet_sum};
use crate::packets::{unstuff, unstuffed};

verus! {

/// The value measured at the current point.
#[derive(Clone, Copy, Debug, PartialEq, Eq, Structural)]
pub struct MesPacket {
    pub header: Header,
    pub mes: u32,
}

impl MesPacket {
    /// The four bytes after the header.
    pub open spec fn payload(&self) -> Seq<u8> {
        be32_bytes(self.mes)
    }

    /// This packet with `sum` for its checksum.
    pub open spec fn with_crc(&self, sum: u16) -> MesPacket {
        MesPacket { header: Header { crc: sum, ..self.header }, ..*self }
    }

    /// Header and payload, with `sum` in the checksum bytes.
    pub open spec fn unframed_with(&self, sum: u16) -> Seq<u8> {
        self.with_crc(sum).header.bytes() + self.payload()
    }

    /// The packet that the unframed bytes `raw` spell, where `sum` is the
    /// checksum that `raw` ought to carry: they pass the packet check.
    pub open spec fn parse_with(raw: Seq<u8>, sum: u16) -> Option<MesPacket> {
        match checked(raw, 10, sum) {
            None => None,
            Some(header) => Some(MesPacket { header, mes: be32(raw[6], raw[7], raw[8], raw[9]) }),
        }
    }

    pub fn new(packet_id: u16, mes: u32) -> (p: MesPacket)
        ensures
            p == (MesPacket {
                header: Header { len: 10, packet_id, packet_type: PacketType::Mes, crc: 0 },
                mes,
            }),
            p.wf(),
    {
        let header = Header::new(10, packet_id, PacketType::Mes);
        MesPacket { header, mes }
    }

    /// Bytes of header and payload together.
    pub fn size_of() -> (n: usize)
        ensures
            n == 10,
    {
        Header::size_of() + 4
    }

    /// Header and payload in a buffer of their own, with `sum` in the
    /// checksum bytes whatever the header holds.
    pub fn to_unframed(&self, sum: u16) -> (raw: Vec<u8>)
        ensures
            raw@ == self.unframed_with(sum),
    {
        let mut raw: Vec<u8> = vec![0xff; MesPacket::size_of()];
        let mut header = Header::new(self.header.len, self.header.packet_id, self.header.packet_type);
        header.crc = sum;
        let header_len = header.serialize(raw.as_mut_slice());
        write_be32(raw.as_mut_slice(), header_len, self.mes);
        assert(raw@ =~= self.unframed_with(sum));
        raw
    }

    /// Reads a packet from the unframed bytes `raw`, where `sum` is the
    /// checksum that the caller has computed for them. Returns the
    /// packet's length, or 0 where `raw` is no sound packet of this kind,
    /// and then leaves `out` alone.
    pub fn read_unframed(raw: &[u8], sum: u16, out: &mut MesPacket) -> (n: usize)
        ensures
            match MesPacket::parse_with(raw@, sum) {
                Some(p) => n == 10 && *final(out) == p,
                None => n == 0 && *final(out) == *old(out),
            },
    {
        match check_header(raw, MesPacket::size_of(), sum) {
            None => 0,
            Some(header) => {
                out.header = header;
                out.mes = read_be32(raw, 6);
                MesPacket::size_of()
            },
        }
    }

    /// Reading the bytes of a well-formed packet gives the packet back,
    /// with the checksum that the bytes carry in its header.
    pub proof fn lemma_parse_unframed(self, sum: u16)
        requires
            self.wf(),
        ensures
            MesPacket::parse_with(self.unframed_with(sum), sum) == Some(self.with_crc(sum)),
            packet_sum(self.unframed_with(sum)) == packet_sum(self.unframed_with(0)),
    {
        lemma_written_is_checked(self.with_crc(sum).header, self.payload());
        lemma_written_is_checked(self.with_crc(0).header, self.payload());
        let tail = self.unframed_with(sum).subrange(6, 10);
        lemma_be32_roundtrip(self.mes);
        assert(be32(tail[0], tail[1], tail[2], tail[3]) == self.mes);
    }
}

impl Packet for MesPacket {
    open spec fn wire_size() -> nat {
        10
    }

    open spec fn wf(&self) -> bool {
        self.header.len == 10
    }

    open spec fn unframed(&self) -> Seq<u8> {
        self.unframed_with(packet_sum(self.unframed_with(0)))
    }

    open spec fn received(&self) -> MesPacket {
        self.with_crc(packet_sum(self.unframed_with(0)))
    }

    open spec fn decoded(frame: Seq<u8>) -> Option<MesPacket> {
        match unstuffed(frame, 10) {
            None => None,
            Some(raw) => MesPacket::parse_with(raw, packet_sum(raw)),
        }
    }

    fn frame_len() -> (n: usize) {
        MesPacket::size_of() + 2
    }

    fn serialize(&self, out: &mut [u8]) -> (n: usize) {
        if out.len() < MesPacket::frame_len() {
            return 0;
        }
        let sum = packet_checksum(self.to_unframed(0).as_slice());
        let raw = self.to_unframed(sum);
        proof {
            if self.wf() {
                self.lemma_parse_unframed(sum);
            }
        }
        cobs_encode_into(raw.as_slice(), out)
    }

    fn deserialize(input: &[u8], out: &mut MesPacket) -> (n: usize) {
        match unstuff(input, MesPacket::size_of()) {
            None => 0,
            Some(raw) => {
                let sum = packet_checksum(raw.as_slice());
                MesPacket::read_unframed(raw.as_slice(), sum, out)
            },
        }
    }
}

} // verus!
