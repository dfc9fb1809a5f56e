//! The command that turns a motor.

use vstd::prelude::*;
use crate::wire::cobs_encode_into;
use crate::packets::header::Header;
use crate::packets::{Axis, Packet, PacketType, RotSide};
use crate::packets::{checked, check_header, lemma_written_is_checked, packet_checksum, packet_sum};
use crate::packets::{unstuff, unstuffed};

verus! {

/// Turn the motor of `axis` by `steps` steps towards `side`.
#[derive(Clone, Copy, Debug, PartialEq, Eq, Structural)]
pub struct MovPacket {
    pub header: Header,
    pub axis: Axis,
    pub side: RotSide,
    pub steps: u8,
}

impl MovPacket {
    /// The three bytes after the header.
    pub open spec fn payload(&self) -> Seq<u8> {
        seq![self.axis.tag(), self.side.tag(), self.steps]
    }

    /// This packet with `sum` for its checksum.
    pub open spec fn with_crc(&self, sum: u16) -> MovPacket {
        MovPacket { header: Header { crc: sum, ..self.header }, ..*self }
    }

    /// Header and payload, with `sum` in the checksum bytes.
    pub open spec fn unframed_with(&self, sum: u16) -> Seq<u8> {
        self.with_crc(sum).header.bytes() + self.payload()
    }

    /// The packet that the unframed bytes `raw` spell, where `sum` is the
    /// checksum that `raw` ought to carry: they pass the packet check and
    /// the bytes for axis and side are known ones.
    pub open spec fn parse_with(raw: Seq<u8>, sum: u16) -> Option<MovPacket> {
        match checked(raw, 9, sum) {
            None => None,
            Some(header) => match (Axis::from_tag(raw[6]), RotSide::from_tag(raw[7])) {
                (Some(axis), Some(side)) => Some(MovPacket { header, axis, side, steps: raw[8] }),
                _ => None,
            },
        }
    }

    pub fn new(packet_id: u16, axis: Axis, side: RotSide, steps: u8) -> (p: MovPacket)
        ensures
            p == (MovPacket {
                header: Header { len: 9, packet_id, packet_type: PacketType::Mov, crc: 0 },
                axis,
                side,
                steps,
            }),
            p.wf(),
    {
        let header = Header::new(9, packet_id, PacketType::Mov);
        MovPacket { header, axis, side, steps }
    }

    /// Bytes of header and payload together.
    pub fn size_of() -> (n: usize)
        ensures
            n == 9,
    {
        Header::size_of() + 3
    }

    /// Header and payload in a buffer of their own, with `sum` in the
    /// checksum bytes whatever the header holds.
    pub fn to_unframed(&self, sum: u16) -> (raw: Vec<u8>)
        ensures
            raw@ == self.unframed_with(sum),
    {
        let mut raw: Vec<u8> = vec![0xff; MovPacket::size_of()];
        let mut header = Header::new(self.header.len, self.header.packet_id, self.header.packet_type);
        header.crc = sum;
        let header_len = header.serialize(raw.as_mut_slice());
        raw[header_len] = self.axis.to_byte();
        raw[header_len + 1] = self.side.to_byte();
        raw[header_len + 2] = self.steps;
        assert(raw@ =~= self.unframed_with(sum));
        raw
    }

    /// Reads a packet from the unframed bytes `raw`, where `sum` is the
    /// checksum that the caller has computed for them. Returns the
    /// packet's length, or 0 where `raw` is no sound packet of this kind,
    /// and then leaves `out` alone.
    pub fn read_unframed(raw: &[u8], sum: u16, out: &mut MovPacket) -> (n: usize)
        ensures
            match MovPacket::parse_with(raw@, sum) {
                Some(p) => n == 9 && *final(out) == p,
                None => n == 0 && *final(out) == *old(out),
            },
    {
        match check_header(raw, MovPacket::size_of(), sum) {
            None => 0,
            Some(header) => {
                let axis = match Axis::from_byte(raw[6]) {
                    None => { return 0; },
                    Some(axis) => axis,
                };
                let side = match RotSide::from_byte(raw[7]) {
                    None => { return 0; },
                    Some(side) => side,
                };
                out.header = header;
                out.axis = axis;
                out.side = side;
                out.steps = raw[8];
                MovPacket::size_of()
            },
        }
    }

    /// Reading the bytes of a well-formed packet gives the packet back,
    /// with the checksum that the bytes carry in its header.
    pub proof fn lemma_parse_unframed(self, sum: u16)
        requires
            self.wf(),
        ensures
            MovPacket::parse_with(self.unframed_with(sum), sum) == Some(self.with_crc(sum)),
            packet_sum(self.unframed_with(sum)) == packet_sum(self.unframed_with(0)),
    {
        lemma_written_is_checked(self.with_crc(sum).header, self.payload());
        lemma_written_is_checked(self.with_crc(0).header, self.payload());
        let tail = self.unframed_with(sum).subrange(6, 9);
        assert(tail[0] == self.axis.tag() && tail[1] == self.side.tag() && tail[2] == self.steps);
    }
}

impl Packet for MovPacket {
    open spec fn wire_size() -> nat {
        9
    }

    open spec fn wf(&self) -> bool {
        self.header.len == 9
    }

    open spec fn unframed(&self) -> Seq<u8> {
        self.unframed_with(packet_sum(self.unframed_with(0)))
    }

    open spec fn received(&self) -> MovPacket {
        self.with_crc(packet_sum(self.unframed_with(0)))
    }

    open spec fn decoded(frame: Seq<u8>) -> Option<MovPacket> {
        match unstuffed(frame, 9) {
            None => None,
            Some(raw) => MovPacket::parse_with(raw, packet_sum(raw)),
        }
    }

    fn frame_len() -> (n: usize) {
        MovPacket::size_of() + 2
    }

    fn serialize(&self, out: &mut [u8]) -> (n: usize) {
        if out.len() < MovPacket::frame_len() {
            return 0;
        }
        let sum = packet_checksum(self.to_unframed(0).as_slice());
        let raw = self.to_unframed(sum);
        proof {
            if self.wf() {
                self.lemma_parse_unframed(sum);
            }
        }
        cobs_encode_into(raw.as_slice(), out)
    }

    fn deserialize(input: &[u8], out: &mut MovPacket) -> (n: usize) {
        match unstuff(input, MovPacket::size_of()) {
            None => 0,
            Some(raw) => {
                let sum = packet_checksum(raw.as_slice());
                MovPacket::read_unframed(raw.as_slice(), sum, out)
            },
        }
    }
}

} // verus!
