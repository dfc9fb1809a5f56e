//! The seven packet kinds, their shared header and the framing they all go
//! through.
//!
//! On the wire a packet is `[length][id: 2][type][crc: 2][payload..]`, all
//! integers big-endian. The checksum covers header and payload with its own
//! two bytes taken as zero. The whole is byte-stuffed and closed by a single
//! zero byte.

use vstd::prelude::*;
use crate::wire::{crc16_xmodem, cobs_decoded, be16, is_frame_of};
use crate::wire::{checksum, cobs_decode};
use crate::packets::header::Header;

pub mod header;
pub mod packet_ok;
pub mod packet_err;
pub mod packet_mov;
pub mod packet_mes;
pub mod packet_abort;
pub mod packet_prog;
pub mod packet_fin;

verus! {

/// What a packet is for.
#[derive(Clone, Copy, Debug, PartialEq, Eq, Structural)]
pub enum PacketType {
    /// The last command or sample arrived intact.
    Okay,
    /// The last packet was rejected.
    Error,
    /// Turn a motor.
    Mov,
    /// One sample of a scan.
    Mes,
    /// Cancel the scan in progress.
    Abord,
    /// Parameters of a scan.
    Prog,
    /// The scan is complete.
    Fin,
}

/// The motor that a move addresses.
#[derive(Clone, Copy, Debug, PartialEq, Eq, Structural)]
pub enum Axis {
    Horizon,
    Azimuth,
}

/// The sense of a rotation.
#[derive(Clone, Copy, Debug, PartialEq, Eq, Structural)]
pub enum RotSide {
    Clockwise,
    CounterClockwise,
}

/// Why the device rejected a packet.
#[derive(Clone, Copy, Debug, PartialEq, Eq, Structural)]
#[allow(non_camel_case_types)]
pub enum ErrCode {
    /// The device cannot say what went wrong.
    UNKNOWN,
    /// The device is occupied; the command has to wait.
    BUSY,
    /// The packet arrived damaged and should be sent again.
    BROKEN,
}

impl PacketType {
    /// The byte that stands for this kind on the wire.
    pub open spec fn tag(self) -> u8 {
        match self {
            PacketType::Okay => 1,
            PacketType::Error => 2,
            PacketType::Mov => 3,
            PacketType::Mes => 4,
            PacketType::Abord => 5,
            PacketType::Prog => 6,
            PacketType::Fin => 7,
        }
    }

    /// The kind that `b` stands for; zero and everything above seven stand
    /// for none.
    pub open spec fn from_tag(b: u8) -> Option<PacketType> {
        if b == 1 {
            Some(PacketType::Okay)
        } else if b == 2 {
            Some(PacketType::Error)
        } else if b == 3 {
            Some(PacketType::Mov)
        } else if b == 4 {
            Some(PacketType::Mes)
        } else if b == 5 {
            Some(PacketType::Abord)
        } else if b == 6 {
            Some(PacketType::Prog)
        } else if b == 7 {
            Some(PacketType::Fin)
        } else {
            None
        }
    }

    /// Bytes of header and payload together in a packet of this kind.
    pub open spec fn packet_size(self) -> nat {
        match self {
            PacketType::Okay => 8,
            PacketType::Error => 9,
            PacketType::Mov => 9,
            PacketType::Mes => 10,
            PacketType::Abord => 7,
            PacketType::Prog => 8,
            PacketType::Fin => 8,
        }
    }

    pub fn to_byte(self) -> (b: u8)
        ensures
            b == self.tag(),
            PacketType::from_tag(b) == Some(self),
    {
        match self {
            PacketType::Okay => 1,
            PacketType::Error => 2,
            PacketType::Mov => 3,
            PacketType::Mes => 4,
            PacketType::Abord => 5,
            PacketType::Prog => 6,
            PacketType::Fin => 7,
        }
    }

    pub fn from_byte(b: u8) -> (kind: Option<PacketType>)
        ensures
            kind == PacketType::from_tag(b),
    {
        match b {
            1 => Some(PacketType::Okay),
            2 => Some(PacketType::Error),
            3 => Some(PacketType::Mov),
            4 => Some(PacketType::Mes),
            5 => Some(PacketType::Abord),
            6 => Some(PacketType::Prog),
            7 => Some(PacketType::Fin),
            _ => None,
        }
    }
}

impl Axis {
    pub open spec fn tag(self) -> u8 {
        match self {
            Axis::Horizon => 0,
            Axis::Azimuth => 1,
        }
    }

    pub open spec fn from_tag(b: u8) -> Option<Axis> {
        if b == 0 {
            Some(Axis::Horizon)
        } else if b == 1 {
            Some(Axis::Azimuth)
        } else {
            None
        }
    }

    pub fn to_byte(self) -> (b: u8)
        ensures
            b == self.tag(),
            Axis::from_tag(b) == Some(self),
    {
        match self {
            Axis::Horizon => 0,
            Axis::Azimuth => 1,
        }
    }

    pub fn from_byte(b: u8) -> (axis: Option<Axis>)
        ensures
            axis == Axis::from_tag(b),
    {
        match b {
            0 => Some(Axis::Horizon),
            1 => Some(Axis::Azimuth),
            _ => None,
        }
    }
}

impl RotSide {
    pub open spec fn tag(self) -> u8 {
        match self {
            RotSide::Clockwise => 0,
            RotSide::CounterClockwise => 1,
        }
    }

    pub open spec fn from_tag(b: u8) -> Option<RotSide> {
        if b == 0 {
            Some(RotSide::Clockwise)
        } else if b == 1 {
            Some(RotSide::CounterClockwise)
        } else {
            None
        }
    }

    pub fn to_byte(self) -> (b: u8)
        ensures
            b == self.tag(),
            RotSide::from_tag(b) == Some(self),
    {
        match self {
            RotSide::Clockwise => 0,
            RotSide::CounterClockwise => 1,
        }
    }

    pub fn from_byte(b: u8) -> (side: Option<RotSide>)
        ensures
            side == RotSide::from_tag(b),
    {
        match b {
            0 => Some(RotSide::Clockwise),
            1 => Some(RotSide::CounterClockwise),
            _ => None,
        }
    }
}

impl ErrCode {
    pub open spec fn tag(self) -> u8 {
        match self {
            ErrCode::UNKNOWN => 0,
            ErrCode::BUSY => 1,
            ErrCode::BROKEN => 2,
        }
    }

    pub open spec fn from_tag(b: u8) -> Option<ErrCode> {
        if b == 0 {
            Some(ErrCode::UNKNOWN)
        } else if b == 1 {
            Some(ErrCode::BUSY)
        } else if b == 2 {
            Some(ErrCode::BROKEN)
        } else {
            None
        }
    }

    pub fn to_byte(self) -> (b: u8)
        ensures
            b == self.tag(),
            ErrCode::from_tag(b) == Some(self),
    {
        match self {
            ErrCode::UNKNOWN => 0,
            ErrCode::BUSY => 1,
            ErrCode::BROKEN => 2,
        }
    }

    pub fn from_byte(b: u8) -> (code: Option<ErrCode>)
        ensures
            code == ErrCode::from_tag(b),
    {
        match b {
            0 => Some(ErrCode::UNKNOWN),
            1 => Some(ErrCode::BUSY),
            2 => Some(ErrCode::BROKEN),
            _ => None,
        }
    }
}

/// `raw` with its two checksum bytes set to zero. Bytes that are too few
/// to hold a header are left as they are.
pub open spec fn with_zero_crc(raw: Seq<u8>) -> Seq<u8> {
    if raw.len() >= 6 {
        raw.update(4, 0).update(5, 0)
    } else {
        raw
    }
}

/// The checksum that the unframed packet `raw` ought to carry: that of its
/// bytes with the checksum bytes taken as zero.
pub open spec fn packet_sum(raw: Seq<u8>) -> u16 {
    crc16_xmodem(with_zero_crc(raw))
}

/// The header of the unframed packet `raw`, where `raw` is a sound packet
/// of `size` bytes whose checksum ought to be `sum`: it has that many
/// bytes, a known type, a length byte that says `size`, and it carries
/// `sum`.
pub open spec fn checked(raw: Seq<u8>, size: nat, sum: u16) -> Option<Header> {
    if raw.len() != size || size < 6 {
        None
    } else {
        match Header::parse(raw) {
            None => None,
            Some(h) => if h.len as nat == size && h.crc == sum {
                Some(h)
            } else {
                None
            },
        }
    }
}

/// The unframed packet that `frame` carries, where `frame` is as long as a
/// framed packet of `size` bytes and can be de-stuffed.
pub open spec fn unstuffed(frame: Seq<u8>, size: nat) -> Option<Seq<u8>> {
    if frame.len() != size + 2 {
        None
    } else {
        cobs_decoded(frame)
    }
}

/// Encoding and decoding of one packet kind.
pub trait Packet: Sized {
    /// Bytes of header and payload together.
    spec fn wire_size() -> nat;

    /// The length byte says what this kind's size is.
    spec fn wf(&self) -> bool;

    /// Header and payload as sent, the checksum in place.
    spec fn unframed(&self) -> Seq<u8>;

    /// This packet as the receiver sees it: the header carries the checksum
    /// that was sent.
    spec fn received(&self) -> Self;

    /// The packet that a frame carries, if it carries one of this kind.
    spec fn decoded(frame: Seq<u8>) -> Option<Self>;

    /// Bytes in a frame of this kind: the packet, one byte of stuffing
    /// overhead and the terminator.
    fn frame_len() -> (n: usize)
        ensures
            n == Self::wire_size() + 2,
    ;

    /// Writes the frame of this packet to the start of `out` and returns
    /// its length, or returns 0 and writes nothing where `out` is shorter
    /// than the frame. The frame holds no zero but its last byte, and
    /// decodes to this packet.
    fn serialize(&self, out: &mut [u8]) -> (n: usize)
        ensures
            final(out)@.len() == old(out)@.len(),
            old(out)@.len() < Self::wire_size() + 2 ==> n == 0 && final(out)@ == old(out)@,
            old(out)@.len() >= Self::wire_size() + 2 ==> {
                &&& n == Self::wire_size() + 2
                &&& is_frame_of(final(out)@.subrange(0, n as int), self.unframed())
                &&& final(out)@.subrange(n as int, old(out)@.len() as int) == old(out)@.subrange(
                    n as int,
                    old(out)@.len() as int,
                )
                &&& self.wf() ==> Self::decoded(final(out)@.subrange(0, n as int)) == Some(
                    self.received(),
                )
            },
    ;

    /// Decodes the frame `input` into `out` and returns the packet's
    /// unframed length, or returns 0 and leaves `out` alone where `input`
    /// carries no packet of this kind.
    fn deserialize(input: &[u8], out: &mut Self) -> (n: usize)
        ensures
            match Self::decoded(input@) {
                Some(p) => n == Self::wire_size() && *final(out) == p,
                None => n == 0 && *final(out) == *old(out),
            },
    ;
}

/// Nothing passes the packet check but bytes of the expected count that
/// announce that count in their length byte, name a known type and carry
/// the expected checksum.
pub proof fn lemma_checked_is_sound(raw: Seq<u8>, size: nat, sum: u16)
    requires
        checked(raw, size, sum) is Some,
    ensures
        raw.len() == size,
        raw[0] == size,
        PacketType::from_tag(raw[3]) is Some,
        be16(raw[4], raw[5]) == sum,
        Header::parse(raw) == checked(raw, size, sum),
{
}

/// A header that was written with the checksum `sum`, in front of a
/// payload of the length it announces, passes the check against `sum`.
pub proof fn lemma_written_is_checked(h: Header, payload: Seq<u8>)
    requires
        h.len as nat == 6 + payload.len(),
    ensures
        checked(h.bytes() + payload, 6 + payload.len(), h.crc) == Some(h),
        (h.bytes() + payload).subrange(6, 6 + payload.len() as int) == payload,
        with_zero_crc(h.bytes() + payload) == h.unsealed().bytes() + payload,
{
    let raw = h.bytes() + payload;
    h.lemma_parse_bytes();
    assert(Header::parse(raw) == Header::parse(h.bytes()));
    assert(raw.subrange(6, 6 + payload.len() as int) =~= payload);
    assert(with_zero_crc(raw) =~= h.unsealed().bytes() + payload);
}

/// Reads the header of the unframed packet `raw` and holds it against the
/// size of the kind that is expected and against `sum`, the checksum that
/// the caller has computed for `raw`.
pub fn check_header(raw: &[u8], size: usize, sum: u16) -> (r: Option<Header>)
    ensures
        r == checked(raw@, size as nat, sum),
{
    if raw.len() != size || size < 6 {
        return None;
    }
    let mut header = Header::new(0, 0, PacketType::Okay);
    match header.deserialize(raw) {
        Err(_) => None,
        Ok(_) => {
            if header.len as usize == size && header.crc == sum {
                Some(header)
            } else {
                None
            }
        },
    }
}

/// The checksum that the unframed packet `raw` ought to carry.
pub(crate) fn packet_checksum(raw: &[u8]) -> (sum: u16)
    ensures
        sum == packet_sum(raw@),
{
    let mut copy = vstd::slice::slice_to_vec(raw);
    if copy.len() >= 6 {
        copy[4] = 0;
        copy[5] = 0;
    }
    checksum(copy.as_slice())
}

/// De-stuffs a frame that is as long as a framed packet of `size` bytes.
pub(crate) fn unstuff(input: &[u8], size: usize) -> (r: Option<Vec<u8>>)
    requires
        size < 254,
    ensures
        r is Some <==> unstuffed(input@, size as nat) is Some,
        r matches Some(raw) ==> raw@ == unstuffed(input@, size as nat)->0,
{
    if input.len() != size + 2 {
        return None;
    }
    cobs_decode(input)
}

/// The frame of `p` in a buffer of its own.
pub fn to_frame<P: Packet>(p: &P) -> (frame: Vec<u8>)
    ensures
        frame@.len() == P::wire_size() + 2,
        is_frame_of(frame@, p.unframed()),
        p.wf() ==> P::decoded(frame@) == Some(p.received()),
{
    let mut frame: Vec<u8> = vec![0u8; P::frame_len()];
    let n = p.serialize(frame.as_mut_slice());
    assert(frame@.subrange(0, n as int) =~= frame@);
    frame
}

} // verus!
