//! What the controller does on each packet from the device and on each
//! command of the operator: the next state of the session, and what has to
//! be sent, written down or reported. Sending and writing are left to the
//! caller.

use vstd::prelude::*;
use crate::wire::{be32_bytes, is_frame_of, write_be32};
use crate::packets::{Axis, ErrCode, Packet, PacketType, RotSide, to_frame};
use crate::packets::header::Header;
use crate::packets::packet_ok::OkPacket;
use crate::packets::packet_err::ErrPacket;
use crate::packets::packet_mov::MovPacket;
use crate::packets::packet_mes::MesPacket;
use crate::packets::packet_abort::AbortPacket;
use crate::packets::packet_prog::ProgPacket;
use crate::packets::packet_fin::FinPacket;
use crate::state::{AckState, ClientState, GeneralState, Session, MAX_CONSECUTIVE_ERRORS};

verus! {

/// The id that the controller gives to every packet it sends.
pub const CONTROLLER_PACKET_ID: u16 = 123;

/// The largest number of steps that one move may ask for.
pub const MAX_MOVE_STEPS: i16 = 200;

/// What an acknowledgement led to.
#[derive(Clone, Copy, Debug, PartialEq, Eq, Structural)]
pub enum OkEffect {
    /// No reply was outstanding; nothing changed.
    Unexpected,
    /// The outstanding reply has arrived.
    Acknowledged,
    /// The device accepted the scan parameters and starts to measure. The
    /// two markers are to be written to the output, in this order.
    ScanStarted { start_line: u8, start_point: u8 },
}

/// What an error reply led to.
#[derive(Debug, PartialEq, Eq)]
pub enum ErrEffect {
    /// The frame that was sent last has to be sent again as it is.
    Retransmit(Vec<u8>),
    /// Too many `BROKEN` replies in a row: nothing is sent again.
    GiveUp,
    /// The device is busy; the command has to be issued again later.
    Busy,
    /// The device cannot say what went wrong.
    Unknown,
}

/// What a sample led to.
#[derive(Debug, PartialEq, Eq)]
pub enum MesEffect {
    /// No scan is running; the sample was dropped.
    Ignored,
    /// The sample was counted. `sample` is to be appended to the output,
    /// `reply` is to be sent, and progress is `current_step` of
    /// `total_steps`.
    Recorded { sample: Vec<u8>, current_step: u16, total_steps: u16, reply: Vec<u8> },
}

/// What the end of a scan led to.
#[derive(Clone, Copy, Debug, PartialEq, Eq, Structural)]
pub enum FinEffect {
    /// The device took as many samples as were received.
    Complete,
    /// The device took `reported` samples and `received` arrived.
    PointsLost { received: u16, reported: u16 },
}

/// What starting a scan asks of the caller.
#[derive(Debug, PartialEq, Eq)]
pub struct ProgCommand {
    /// The frame to send.
    pub frame: Vec<u8>,
    /// The bytes that open the output: two ones, lines, points per line.
    pub record: Vec<u8>,
}

impl Session {
    /// The session after an acknowledgement.
    pub open spec fn after_ok(self) -> Session {
        match self.ack {
            AckState::Normal => self,
            AckState::Awaiting => Session {
                general: if self.general == GeneralState::Programming {
                    GeneralState::Measure
                } else {
                    self.general
                },
                ack: AckState::Normal,
                consec_error_counter: 0,
                ..self
            },
        }
    }

    /// What an acknowledgement with these two payload bytes leads to.
    pub open spec fn ok_effect(self, sentinel: u8, sentinel2: u8) -> OkEffect {
        match self.ack {
            AckState::Normal => OkEffect::Unexpected,
            AckState::Awaiting => if self.general == GeneralState::Programming {
                OkEffect::ScanStarted { start_line: sentinel, start_point: sentinel2 }
            } else {
                OkEffect::Acknowledged
            },
        }
    }

    /// The session after an error reply: `BROKEN` is counted, the others
    /// change nothing.
    pub open spec fn after_err(self, error: ErrCode) -> Session {
        match error {
            ErrCode::BROKEN => Session {
                consec_error_counter: (self.consec_error_counter + 1) as u8,
                ..self
            },
            _ => self,
        }
    }

    /// Whether an error reply makes the controller send its last frame
    /// again: on `BROKEN`, as long as the count with this reply stays under
    /// the limit.
    pub open spec fn retransmits(self, error: ErrCode) -> bool {
        error == ErrCode::BROKEN && self.consec_error_counter + 1 < MAX_CONSECUTIVE_ERRORS
    }

    /// The session after a sample: during a scan it is counted and an
    /// acknowledgement goes out, otherwise nothing changes.
    pub open spec fn after_mes(self) -> Session {
        if self.general == GeneralState::Measure {
            Session {
                ack: AckState::Awaiting,
                current_step: (self.current_step + 1) as u16,
                ..self
            }
        } else {
            self
        }
    }

    /// The session after the device has reported the end of the scan.
    pub open spec fn after_fin(self) -> Session {
        Session { general: GeneralState::Idle, ..self }
    }

    /// The session after the scan parameters have been sent.
    pub open spec fn after_prog(self) -> Session {
        Session { general: GeneralState::Programming, ack: AckState::Awaiting, ..self }
    }

    /// The session after `k` `BROKEN` replies in a row.
    pub open spec fn after_broken(self, k: nat) -> Session
        decreases k,
    {
        if k == 0 {
            self
        } else {
            self.after_broken((k - 1) as nat).after_err(ErrCode::BROKEN)
        }
    }

    /// The session after `k` samples in a row.
    pub open spec fn after_samples(self, k: nat) -> Session
        decreases k,
    {
        if k == 0 {
            self
        } else {
            self.after_samples((k - 1) as nat).after_mes()
        }
    }
}

/// The acknowledgement that answers every sample.
pub open spec fn sample_reply() -> OkPacket {
    OkPacket {
        header: Header {
            len: 8,
            packet_id: CONTROLLER_PACKET_ID,
            packet_type: PacketType::Okay,
            crc: 0,
        },
        sentinel: 0xa0,
        sentinel2: 0x0a,
    }
}

/// The scan parameters as the controller sends them.
pub open spec fn prog_packet(steps: u8, lines: u8) -> ProgPacket {
    ProgPacket {
        header: Header {
            len: 8,
            packet_id: CONTROLLER_PACKET_ID,
            packet_type: PacketType::Prog,
            crc: 0,
        },
        number_of_points: steps,
        number_of_lines: lines,
    }
}

/// The abort as the controller sends it.
pub open spec fn abort_packet() -> AbortPacket {
    AbortPacket {
        header: Header {
            len: 7,
            packet_id: CONTROLLER_PACKET_ID,
            packet_type: PacketType::Abord,
            crc: 0,
        },
        sentinel: 0x0a,
    }
}

/// The move that a signed step count stands for: clockwise for 0 to 200,
/// counter-clockwise by the magnitude for -200 to -1, none outside.
pub open spec fn mov_packet(axis: Axis, steps: i16) -> Option<MovPacket> {
    if 0 <= steps <= MAX_MOVE_STEPS {
        Some(
            MovPacket {
                header: Header {
                    len: 9,
                    packet_id: CONTROLLER_PACKET_ID,
                    packet_type: PacketType::Mov,
                    crc: 0,
                },
                axis,
                side: RotSide::Clockwise,
                steps: steps as u8,
            },
        )
    } else if -MAX_MOVE_STEPS <= steps < 0 {
        Some(
            MovPacket {
                header: Header {
                    len: 9,
                    packet_id: CONTROLLER_PACKET_ID,
                    packet_type: PacketType::Mov,
                    crc: 0,
                },
                axis,
                side: RotSide::CounterClockwise,
                steps: (-steps) as u8,
            },
        )
    } else {
        None
    }
}

/// An acknowledgement has arrived. While a reply is outstanding it
/// settles it and clears the error count, and an acknowledgement of scan
/// parameters starts the scan. Otherwise nothing changes.
pub fn ok_pack(state: &mut ClientState, pack: OkPacket) -> (effect: OkEffect)
    ensures
        final(state)@ == old(state)@.after_ok(),
        effect == old(state)@.ok_effect(pack.sentinel, pack.sentinel2),
{
    match state.ack {
        AckState::Normal => OkEffect::Unexpected,
        AckState::Awaiting => {
            let effect = match state.general {
                GeneralState::Programming => {
                    state.general = GeneralState::Measure;
                    OkEffect::ScanStarted {
                        start_line: pack.sentinel,
                        start_point: pack.sentinel2,
                    }
                },
                _ => OkEffect::Acknowledged,
            };
            state.ack = AckState::Normal;
            state.consec_error_counter = 0;
            effect
        },
    }
}

/// An error reply has arrived. `BROKEN` is counted; under the limit the
/// last frame is handed back to be sent again, byte for byte, and from the
/// limit on nothing is. The other errors change nothing.
pub fn err_handle(state: &mut ClientState, pack: ErrPacket) -> (effect: ErrEffect)
    requires
        pack.error == ErrCode::BROKEN ==> old(state)@.consec_error_counter < u8::MAX,
    ensures
        final(state)@ == old(state)@.after_err(pack.error),
        match effect {
            ErrEffect::Retransmit(frame) => {
                &&& old(state)@.retransmits(pack.error)
                &&& frame@ == old(state)@.last_pack
            },
            ErrEffect::GiveUp => {
                &&& pack.error == ErrCode::BROKEN
                &&& !old(state)@.retransmits(pack.error)
                &&& final(state)@.is_fatal()
            },
            ErrEffect::Busy => pack.error == ErrCode::BUSY,
            ErrEffect::Unknown => pack.error == ErrCode::UNKNOWN,
        },
{
    match pack.error {
        ErrCode::BROKEN => {
            state.consec_error_counter = state.consec_error_counter + 1;
            if state.consec_error_counter >= MAX_CONSECUTIVE_ERRORS {
                return ErrEffect::GiveUp;
            }
            let frame = state.last_pack.clone();
            assert(frame@ =~= state.last_pack@);
            ErrEffect::Retransmit(frame)
        },
        ErrCode::UNKNOWN => ErrEffect::Unknown,
        ErrCode::BUSY => ErrEffect::Busy,
    }
}

/// A sample has arrived. During a scan it is counted, its four bytes are
/// handed back for the output, most significant first, with the progress
/// and the frame of the acknowledgement, and a reply is outstanding from
/// then on. Outside a scan nothing changes.
pub fn mes_handle(state: &mut ClientState, pack: MesPacket) -> (effect: MesEffect)
    requires
        old(state)@.general == GeneralState::Measure ==> old(state)@.current_step < u16::MAX,
    ensures
        final(state)@ == old(state)@.after_mes(),
        match effect {
            MesEffect::Ignored => old(state)@.general != GeneralState::Measure,
            MesEffect::Recorded { sample, current_step, total_steps, reply } => {
                &&& old(state)@.general == GeneralState::Measure
                &&& sample@ == be32_bytes(pack.mes)
                &&& current_step == old(state)@.current_step + 1
                &&& total_steps == old(state)@.total_steps
                &&& is_frame_of(reply@, sample_reply().unframed())
                &&& OkPacket::decoded(reply@) == Some(sample_reply().received())
            },
        },
{
    match state.general {
        GeneralState::Measure => {
            let mut sample: Vec<u8> = vec![0u8; 4];
            write_be32(sample.as_mut_slice(), 0, pack.mes);
            assert(sample@ =~= be32_bytes(pack.mes));
            let current_step = state.make_step();
            let total_steps = state.get_total_steps();
            let resp = OkPacket::new(CONTROLLER_PACKET_ID, 0xa0, 0x0a);
            let reply = to_frame(&resp);
            state.ack = AckState::Awaiting;
            MesEffect::Recorded { sample, current_step, total_steps, reply }
        },
        _ => MesEffect::Ignored,
    }
}

/// The device has reported the end of the scan. The session is idle from
/// then on, whether the device's count of samples agrees with the
/// controller's or not.
pub fn fin_handle(state: &mut ClientState, pack: FinPacket) -> (effect: FinEffect)
    ensures
        final(state)@ == old(state)@.after_fin(),
        effect == if old(state)@.current_step == pack.number_of_points {
            FinEffect::Complete
        } else {
            FinEffect::PointsLost {
                received: old(state)@.current_step,
                reported: pack.number_of_points,
            }
        },
{
    let received = state.get_step_cnt();
    state.general = GeneralState::Idle;
    if received != pack.number_of_points {
        FinEffect::PointsLost { received, reported: pack.number_of_points }
    } else {
        FinEffect::Complete
    }
}

/// The operator starts a scan with the geometry that the session holds.
/// The session is programming from then on and a reply is outstanding.
pub fn prog_command(state: &mut ClientState) -> (command: ProgCommand)
    ensures
        final(state)@ == old(state)@.after_prog(),
        command.record@ == seq![1u8, 1u8, old(state)@.lines, old(state)@.steps],
        is_frame_of(
            command.frame@,
            prog_packet(old(state)@.steps, old(state)@.lines).unframed(),
        ),
        ProgPacket::decoded(command.frame@) == Some(
            prog_packet(old(state)@.steps, old(state)@.lines).received(),
        ),
{
    let steps = state.get_steps();
    let lines = state.get_lines();
    let prog = ProgPacket::new(CONTROLLER_PACKET_ID, steps, lines);
    let frame = to_frame(&prog);
    state.ack = AckState::Awaiting;
    state.general = GeneralState::Programming;
    let record: Vec<u8> = vec![0x01, 0x01, lines, steps];
    ProgCommand { frame, record }
}

/// The frame that cancels the scan in progress. The session is left as it
/// is: what the device answers decides how it goes on.
pub fn abort_command() -> (frame: Vec<u8>)
    ensures
        is_frame_of(frame@, abort_packet().unframed()),
        AbortPacket::decoded(frame@) == Some(abort_packet().received()),
{
    let abort = AbortPacket::new(CONTROLLER_PACKET_ID);
    to_frame(&abort)
}

/// The frame that turns the motor of `axis` by `steps`, or `None` where
/// `steps` is outside -200 to 200.
pub fn mov_command(axis: Axis, steps: i16) -> (frame: Option<Vec<u8>>)
    ensures
        match (mov_packet(axis, steps), frame) {
            (Some(p), Some(f)) => {
                &&& is_frame_of(f@, p.unframed())
                &&& MovPacket::decoded(f@) == Some(p.received())
            },
            (None, None) => true,
            _ => false,
        },
{
    let mov = if 0 <= steps && steps <= MAX_MOVE_STEPS {
        MovPacket::new(CONTROLLER_PACKET_ID, axis, RotSide::Clockwise, steps as u8)
    } else if -MAX_MOVE_STEPS <= steps && steps < 0 {
        MovPacket::new(CONTROLLER_PACKET_ID, axis, RotSide::CounterClockwise, (-steps) as u8)
    } else {
        return None;
    };
    Some(to_frame(&mov))
}

/// A frame is about to go out. It becomes the frame to send again, unless
/// it is an error reply of the controller's own (type byte 2).
pub fn note_sent(state: &mut ClientState, frame: &[u8])
    requires
        frame@.len() > 4,
    ensures
        final(state)@ == (Session {
            last_pack: if frame@[4] == 2 {
                old(state)@.last_pack
            } else {
                frame@
            },
            ..old(state)@
        }),
{
    if frame[4] != 2 {
        state.last_pack = vstd::slice::slice_to_vec(frame);
    }
}

/// No packet from the device lowers the count of samples, and none
/// changes the geometry of the scan.
pub proof fn lemma_count_never_falls(s: Session, error: ErrCode)
    requires
        s.current_step < u16::MAX,
    ensures
        s.after_ok().current_step == s.current_step,
        s.after_err(error).current_step == s.current_step,
        s.after_mes().current_step >= s.current_step,
        s.after_fin().current_step == s.current_step,
        s.after_ok().total_steps == s.total_steps,
        s.after_err(error).total_steps == s.total_steps,
        s.after_mes().total_steps == s.total_steps,
        s.after_fin().total_steps == s.total_steps,
{
}

/// The count of samples advances only during a scan, and by one.
pub proof fn lemma_count_advances_in_scan(s: Session)
    requires
        s.current_step < u16::MAX,
    ensures
        s.general == GeneralState::Measure ==> s.after_mes().current_step == s.current_step + 1,
        s.general != GeneralState::Measure ==> s.after_mes() == s,
{
}

/// A sample that arrives while samples are still missing leaves the count
/// within the total.
pub proof fn lemma_count_within_total(s: Session)
    requires
        s.current_step < s.total_steps,
    ensures
        s.after_mes().current_step <= s.after_mes().total_steps,
{
}

/// During a scan, `k` samples that the total still has room for raise the
/// count by `k` and change nothing else but the outstanding reply.
pub proof fn lemma_samples_counted(s: Session, k: nat)
    requires
        s.general == GeneralState::Measure,
        s.current_step + k <= s.total_steps,
    ensures
        s.after_samples(k).current_step == s.current_step + k,
        s.after_samples(k).current_step <= s.total_steps,
        s.after_samples(k).general == GeneralState::Measure,
        s.after_samples(k).total_steps == s.total_steps,
    decreases k,
{
    if k > 0 {
        lemma_samples_counted(s, (k - 1) as nat);
    }
}

/// Of `BROKEN` replies that follow one another from a clear count, each
/// of the first five has the last frame sent again and the sixth has not;
/// with the sixth the session is fatal. The frame to send again stays the
/// same throughout.
pub proof fn lemma_retry_bound(s: Session, k: nat)
    requires
        s.consec_error_counter == 0,
        k <= MAX_CONSECUTIVE_ERRORS,
    ensures
        s.after_broken(k) == (Session { consec_error_counter: k as u8, ..s }),
        s.after_broken(k).is_fatal() <==> k == MAX_CONSECUTIVE_ERRORS,
        k >= 1 ==> (s.after_broken((k - 1) as nat).retransmits(ErrCode::BROKEN) <==> k
            < MAX_CONSECUTIVE_ERRORS),
    decreases k,
{
    if k > 0 {
        lemma_retry_bound(s, (k - 1) as nat);
    }
}

/// An acknowledgement that follows five or fewer `BROKEN` replies clears
/// the count.
pub proof fn lemma_ok_clears_errors(s: Session, k: nat)
    requires
        s.consec_error_counter == 0,
        s.ack == AckState::Awaiting,
        k < MAX_CONSECUTIVE_ERRORS,
    ensures
        s.after_broken(k).after_ok().consec_error_counter == 0,
        !s.after_broken(k).after_ok().is_fatal(),
        s.after_broken(k).after_ok().ack == AckState::Normal,
{
    lemma_retry_bound(s, k);
}

} // verus!
