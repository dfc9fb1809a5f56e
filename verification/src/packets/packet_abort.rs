//! The command that cancels a scan.

use vstd::prelude::*;
use crate::wire::cobs_encode_into;
use crate::packets::header::Header;
use crate::packets::{Packet, PacketType};
use crate::packets::{checked, check_header, lemma_written_is_checked, packet_checksum, packet_sum};
use crate::packets::{unstuff, unstuffed};

verus! {

/// Cancel the scan in progress.
#[derive(Clone, Copy, Debug, PartialEq, Eq, Structural)]
pub struct AbortPacket {
    pub header: Header,
    pub sentinel: u8,
}

impl AbortPacket {
    /// The one byte after the header.
    pub open spec fn payload(&self) -> Seq<u8> {
        seq![self.sentinel]
    }

    /// This packet with `sum` for its checksum.
    pub open spec fn with_crc(&self, sum: u16) -> AbortPacket {
        AbortPacket { header: Header { crc: sum, ..self.header }, ..*self }
    }

    /// Header and payload, with `sum` in the checksum bytes.
    pub open spec fn unframed_with(&self, sum: u16) -> Seq<u8> {
        self.with_crc(sum).header.bytes() + self.payload()
    }

    /// The packet that the unframed bytes `raw` spell, where `sum` is the
    /// checksum that `raw` ought to carry: they pass the packet check.
    pub open spec fn parse_with(raw: Seq<u8>, sum: u16) -> Option<AbortPacket> {
        match checked(raw, 7, sum) {
            None => None,
            Some(header) => Some(AbortPacket { header, sentinel: raw[6] }),
        }
    }

    /// An abort with the customary sentinel, `0x0a`.
    pub fn new(packet_id: u16) -> (p: AbortPacket)
        ensures
            p == (AbortPacket {
                header: Header { len: 7, packet_id, packet_type: PacketType::Abord, crc: 0 },
                sentinel: 0x0a,
            }),
            p.wf(),
    {
        let header = Header::new(7, packet_id, PacketType::Abord);
        AbortPacket { header, sentinel: 0x0a }
    }

    /// Bytes of header and payload together.
    pub fn size_of() -> (n: usize)
        ensures
            n == 7,
    {
        Header::size_of() + 1
    }

    /// Header and payload in a buffer of their own, with `sum` in the
    /// checksum bytes whatever the header holds.
    pub fn to_unframed(&self, sum: u16) -> (raw: Vec<u8>)
        ensures
            raw@ == self.unframed_with(sum),
    {
        let mut raw: Vec<u8> = vec![0xff; AbortPacket::size_of()];
        let mut header = Header::new(self.header.len, self.header.packet_id, self.header.packet_type);
        header.crc = sum;
        let header_len = header.serialize(raw.as_mut_slice());
        raw[header_len] = self.sentinel;
        assert(raw@ =~= self.unframed_with(sum));
        raw
    }

    /// Reads a packet from the unframed bytes `raw`, where `sum` is the
    /// checksum that the caller has computed for them. Returns the
    /// packet's length, or 0 where `raw` is no sound packet of this kind,
    /// and then leaves `out` alone.
    pub fn read_unframed(raw: &[u8], sum: u16, out: &mut AbortPacket) -> (n: usize)
        ensures
            match AbortPacket::parse_with(raw@, sum) {
                Some(p) => n == 7 && *final(out) == p,
                None => n == 0 && *final(out) == *old(out),
            },
    {
        match check_header(raw, AbortPacket::size_of(), sum) {
            None => 0,
            Some(header) => {
                out.header = header;
                out.sentinel = raw[6];
                AbortPacket::size_of()
            },
        }
    }

    /// Reading the bytes of a well-formed packet gives the packet back,
    /// with the checksum that the bytes carry in its header.
    pub proof fn lemma_parse_unframed(self, sum: u16)
        requires
            self.wf(),
        ensures
            AbortPacket::parse_with(self.unframed_with(sum), sum) == Some(self.with_crc(sum)),
            packet_sum(self.unframed_with(sum)) == packet_sum(self.unframed_with(0)),
    {
        lemma_written_is_checked(self.with_crc(sum).header, self.payload());
        lemma_written_is_checked(self.with_crc(0).header, self.payload());
        let tail = self.unframed_with(sum).subrange(6, 7);
        assert(tail[0] == self.sentinel);
    }
}

impl Packet for AbortPacket {
    open spec fn wire_size() -> nat {
        7
    }

    open spec fn wf(&self) -> bool {
        self.header.len == 7
    }

    open spec fn unframed(&self) -> Seq<u8> {
        self.unframed_with(packet_sum(self.unframed_with(0)))
    }

    open spec fn received(&self) -> AbortPacket {
        self.with_crc(packet_sum(self.unframed_with(0)))
    }

    open spec fn decoded(frame: Seq<u8>) -> Option<AbortPacket> {
        match unstuffed(frame, 7) {
            None => None,
            Some(raw) => AbortPacket::parse_with(raw, packet_sum(raw)),
        }
    }

    fn frame_len() -> (n: usize) {
        AbortPacket::size_of() + 2
    }

    fn serialize(&self, out: &mut [u8]) -> (n: usize) {
        if out.len() < AbortPacket::frame_len() {
            return 0;
        }
        let sum = packet_checksum(self.to_unframed(0).as_slice());
        let raw = self.to_unframed(sum);
        proof {
            if self.wf() {
                self.lemma_parse_unframed(sum);
            }
        }
        cobs_encode_into(raw.as_slice(), out)
    }

    fn deserialize(input: &[u8], out: &mut AbortPacket) -> (n: usize) {
        match unstuff(input, AbortPacket::size_of()) {
            None => 0,
            Some(raw) => {
                let sum = packet_checksum(raw.as_slice());
                AbortPacket::read_unframed(raw.as_slice(), sum, out)
            },
        }
    }
}

} // verus!
