//! From received bytes to packets: the buffer that collects a frame, and
//! the dispatch on the type byte of the packet that the frame carries.

use vstd::prelude::*;
use crate::wire::{cobs_decoded, cobs_decode};
use crate::packets::{Axis, ErrCode, Packet, PacketType, RotSide, packet_checksum, packet_sum};
use crate::packets::header::Header;
use crate::packets::packet_ok::OkPacket;
use crate::packets::packet_err::ErrPacket;
use crate::packets::packet_mov::MovPacket;
use crate::packets::packet_mes::MesPacket;
use crate::packets::packet_abort::AbortPacket;
use crate::packets::packet_prog::ProgPacket;
use crate::packets::packet_fin::FinPacket;

verus! {

/// The byte that closes every frame.
pub const FRAME_END_TOKEN: u8 = 0x00;

/// A decoded packet of any kind.
#[derive(Clone, Copy, Debug, PartialEq, Eq, Structural)]
pub enum PackType {
    Okay(OkPacket),
    Error(ErrPacket),
    Mov(MovPacket),
    Mes(MesPacket),
    Abort(AbortPacket),
    Prog(ProgPacket),
    Fin(FinPacket),
}

/// Why a frame was thrown away.
#[derive(Clone, Copy, Debug, PartialEq, Eq, Structural)]
pub enum DecodeError {
    /// The frame cannot be de-stuffed, is longer than what it carries
    /// accounts for, carries too few bytes for a header, or does not carry
    /// a sound packet of the kind that its type byte names.
    Mangled,
    /// The type byte names no known kind.
    Unknown,
}

impl PackType {
    /// The header of the packet, whatever its kind.
    pub open spec fn header(self) -> Header {
        match self {
            PackType::Okay(p) => p.header,
            PackType::Error(p) => p.header,
            PackType::Mov(p) => p.header,
            PackType::Mes(p) => p.header,
            PackType::Abort(p) => p.header,
            PackType::Prog(p) => p.header,
            PackType::Fin(p) => p.header,
        }
    }

    /// The kind of the packet.
    pub open spec fn kind(self) -> PacketType {
        match self {
            PackType::Okay(_) => PacketType::Okay,
            PackType::Error(_) => PacketType::Error,
            PackType::Mov(_) => PacketType::Mov,
            PackType::Mes(_) => PacketType::Mes,
            PackType::Abort(_) => PacketType::Abord,
            PackType::Prog(_) => PacketType::Prog,
            PackType::Fin(_) => PacketType::Fin,
        }
    }
}

/// The packet that the unframed bytes `raw` spell, where `sum` is the
/// checksum that `raw` ought to carry. The type byte of the header chooses
/// the kind, and the bytes must then be a sound packet of that kind.
pub open spec fn decode_unframed_spec(raw: Seq<u8>, sum: u16) -> Result<PackType, DecodeError> {
    if raw.len() < 6 {
        Err(DecodeError::Mangled)
    } else {
        match PacketType::from_tag(raw[3]) {
            None => Err(DecodeError::Unknown),
            Some(PacketType::Okay) => match OkPacket::parse_with(raw, sum) {
                Some(p) => Ok(PackType::Okay(p)),
                None => Err(DecodeError::Mangled),
            },
            Some(PacketType::Error) => match ErrPacket::parse_with(raw, sum) {
                Some(p) => Ok(PackType::Error(p)),
                None => Err(DecodeError::Mangled),
            },
            Some(PacketType::Mov) => match MovPacket::parse_with(raw, sum) {
                Some(p) => Ok(PackType::Mov(p)),
                None => Err(DecodeError::Mangled),
            },
            Some(PacketType::Mes) => match MesPacket::parse_with(raw, sum) {
                Some(p) => Ok(PackType::Mes(p)),
                None => Err(DecodeError::Mangled),
            },
            Some(PacketType::Abord) => match AbortPacket::parse_with(raw, sum) {
                Some(p) => Ok(PackType::Abort(p)),
                None => Err(DecodeError::Mangled),
            },
            Some(PacketType::Prog) => match ProgPacket::parse_with(raw, sum) {
                Some(p) => Ok(PackType::Prog(p)),
                None => Err(DecodeError::Mangled),
            },
            Some(PacketType::Fin) => match FinPacket::parse_with(raw, sum) {
                Some(p) => Ok(PackType::Fin(p)),
                None => Err(DecodeError::Mangled),
            },
        }
    }
}

/// What a frame decodes to: it is de-stuffed, it must be exactly two bytes
/// longer than what came out, and what came out is decoded against its
/// own checksum.
pub open spec fn decode_spec(frame: Seq<u8>) -> Result<PackType, DecodeError> {
    match cobs_decoded(frame) {
        None => Err(DecodeError::Mangled),
        Some(raw) => if frame.len() != raw.len() + 2 {
            Err(DecodeError::Mangled)
        } else {
            decode_unframed_spec(raw, packet_sum(raw))
        },
    }
}

/// Decodes the unframed packet `raw`, where `sum` is the checksum that the
/// caller has computed for it.
pub fn decode_unframed(raw: &[u8], sum: u16) -> (r: Result<PackType, DecodeError>)
    ensures
        r == decode_unframed_spec(raw@, sum),
{
    if raw.len() < 6 {
        return Err(DecodeError::Mangled);
    }
    match PacketType::from_byte(raw[3]) {
        None => Err(DecodeError::Unknown),
        Some(PacketType::Okay) => {
            let mut out = OkPacket::new(0, 0, 0);
            match OkPacket::read_unframed(raw, sum, &mut out) {
                0 => Err(DecodeError::Mangled),
                _ => Ok(PackType::Okay(out)),
            }
        },
        Some(PacketType::Error) => {
            let mut out = ErrPacket::new(0, ErrCode::UNKNOWN, 0);
            match ErrPacket::read_unframed(raw, sum, &mut out) {
                0 => Err(DecodeError::Mangled),
                _ => Ok(PackType::Error(out)),
            }
        },
        Some(PacketType::Mov) => {
            let mut out = MovPacket::new(0, Axis::Horizon, RotSide::Clockwise, 0);
            match MovPacket::read_unframed(raw, sum, &mut out) {
                0 => Err(DecodeError::Mangled),
                _ => Ok(PackType::Mov(out)),
            }
        },
        Some(PacketType::Mes) => {
            let mut out = MesPacket::new(0, 0);
            match MesPacket::read_unframed(raw, sum, &mut out) {
                0 => Err(DecodeError::Mangled),
                _ => Ok(PackType::Mes(out)),
            }
        },
        Some(PacketType::Abord) => {
            let mut out = AbortPacket::new(0);
            match AbortPacket::read_unframed(raw, sum, &mut out) {
                0 => Err(DecodeError::Mangled),
                _ => Ok(PackType::Abort(out)),
            }
        },
        Some(PacketType::Prog) => {
            let mut out = ProgPacket::new(0, 0, 0);
            match ProgPacket::read_unframed(raw, sum, &mut out) {
                0 => Err(DecodeError::Mangled),
                _ => Ok(PackType::Prog(out)),
            }
        },
        Some(PacketType::Fin) => {
            let mut out = FinPacket::new(0, 0);
            match FinPacket::read_unframed(raw, sum, &mut out) {
                0 => Err(DecodeError::Mangled),
                _ => Ok(PackType::Fin(out)),
            }
        },
    }
}

/// Decodes one complete frame, terminator included.
pub fn decode_packet(pack: &[u8]) -> (r: Result<PackType, DecodeError>)
    ensures
        r == decode_spec(pack@),
{
    match cobs_decode(pack) {
        None => Err(DecodeError::Mangled),
        Some(raw) => {
            if pack.len() < 2 || pack.len() - 2 != raw.len() {
                return Err(DecodeError::Mangled);
            }
            let sum = packet_checksum(raw.as_slice());
            decode_unframed(raw.as_slice(), sum)
        },
    }
}

/// A packet that comes out of a frame says in its header what kind it is
/// and how long that kind is.
pub proof fn lemma_decoded_header_fits(frame: Seq<u8>)
    requires
        decode_spec(frame) is Ok,
    ensures
        decode_spec(frame)->Ok_0.header().packet_type == decode_spec(frame)->Ok_0.kind(),
        decode_spec(frame)->Ok_0.header().len == decode_spec(frame)->Ok_0.kind().packet_size(),
        frame.len() == decode_spec(frame)->Ok_0.kind().packet_size() + 2,
{
}

/// The decoder of the packet's own kind reads `packet` from `frame`.
pub open spec fn own_decoder_gives(frame: Seq<u8>, packet: PackType) -> bool {
    match packet {
        PackType::Okay(p) => OkPacket::decoded(frame) == Some(p),
        PackType::Error(p) => ErrPacket::decoded(frame) == Some(p),
        PackType::Mov(p) => MovPacket::decoded(frame) == Some(p),
        PackType::Mes(p) => MesPacket::decoded(frame) == Some(p),
        PackType::Abort(p) => AbortPacket::decoded(frame) == Some(p),
        PackType::Prog(p) => ProgPacket::decoded(frame) == Some(p),
        PackType::Fin(p) => FinPacket::decoded(frame) == Some(p),
    }
}

/// A frame decodes to a packet of some kind exactly when the decoder of
/// that kind reads that packet from it and the packet's header names that
/// kind.
pub proof fn lemma_decode_agrees_with_kinds(frame: Seq<u8>, packet: PackType)
    ensures
        decode_spec(frame) == Ok::<PackType, DecodeError>(packet) <==> {
            &&& own_decoder_gives(frame, packet)
            &&& packet.header().packet_type == packet.kind()
        },
{
}

/// What feeding one byte to the frame buffer led to.
#[derive(Clone, Copy, Debug, PartialEq, Eq, Structural)]
pub enum Feed {
    /// The byte was kept; the frame is not complete.
    Pending,
    /// The byte closed a frame that carried this packet.
    Frame(PackType),
    /// The byte closed a frame that carried no packet; it was thrown away.
    Discarded(DecodeError),
}

/// What the closing byte of the frame `frame` leads to.
pub open spec fn feed_spec(frame: Seq<u8>) -> Feed {
    match decode_spec(frame) {
        Ok(p) => Feed::Frame(p),
        Err(e) => Feed::Discarded(e),
    }
}

/// Collects received bytes until a frame is complete.
pub struct FrameBuffer {
    pub buf: Vec<u8>,
}

impl FrameBuffer {
    pub fn new() -> (b: FrameBuffer)
        ensures
            b.buf@ == Seq::<u8>::empty(),
    {
        FrameBuffer { buf: Vec::new() }
    }

    /// Takes one received byte. Any byte but the terminator is added to
    /// the buffer. The terminator completes the frame: the frame is
    /// decoded, and whether that succeeds or not, the buffer starts empty
    /// for the next one.
    pub fn push(&mut self, byte: u8) -> (fed: Feed)
        ensures
            byte != FRAME_END_TOKEN ==> {
                &&& fed == Feed::Pending
                &&& final(self).buf@ == old(self).buf@.push(byte)
            },
            byte == FRAME_END_TOKEN ==> {
                &&& fed == feed_spec(old(self).buf@.push(byte))
                &&& final(self).buf@ == Seq::<u8>::empty()
            },
    {
        self.buf.push(byte);
        if byte != FRAME_END_TOKEN {
            return Feed::Pending;
        }
        let decoded = decode_packet(self.buf.as_slice());
        self.buf = Vec::new();
        match decoded {
            Ok(p) => Feed::Frame(p),
            Err(e) => Feed::Discarded(e),
        }
    }
}

} // verus!
