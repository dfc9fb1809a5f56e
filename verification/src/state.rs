//! What the controller remembers of the device between packets.

use vstd::prelude::*;

verus! {

/// What the device is doing.
#[derive(Clone, Copy, Debug, PartialEq, Eq, Structural)]
pub enum GeneralState {
    Idle,
    /// Scan parameters were sent and not yet acknowledged.
    Programming,
    /// A scan is running and samples are expected.
    Measure,
}

/// Whether a reply is outstanding.
#[derive(Clone, Copy, Debug, PartialEq, Eq, Structural)]
pub enum AckState {
    Normal,
    Awaiting,
}

/// Consecutive `BROKEN` replies at which the controller stops sending the
/// last frame again.
pub const MAX_CONSECUTIVE_ERRORS: u8 = 6;

/// Geometry and progress of a scan. The total is always the product of
/// points per line and lines.
#[derive(Clone, Copy, Debug)]
pub struct MState {
    steps: u8,
    lines: u8,
    total_steps: u16,
    current_step: u16,
}

impl MState {
    #[verifier::type_invariant]
    spec fn product_holds(self) -> bool {
        self.total_steps == self.steps * self.lines
    }

    /// Points per line.
    pub closed spec fn steps(self) -> u8 {
        self.steps
    }

    /// Lines per scan.
    pub closed spec fn lines(self) -> u8 {
        self.lines
    }

    /// Samples in a whole scan.
    pub closed spec fn total_steps(self) -> u16 {
        self.total_steps
    }

    /// Samples received so far.
    pub closed spec fn current_step(self) -> u16 {
        self.current_step
    }

    fn new() -> (m: MState)
        ensures
            m.steps() == 0,
            m.lines() == 0,
            m.total_steps() == 0,
            m.current_step() == 0,
    {
        MState { steps: 0, lines: 0, total_steps: 0, current_step: 0 }
    }

    fn with_geometry(&self, steps: u8, lines: u8) -> (m: MState)
        ensures
            m.steps() == steps,
            m.lines() == lines,
            m.total_steps() == steps * lines,
            m.current_step() == self.current_step(),
    {
        assert(steps * lines <= 255 * 255) by (nonlinear_arith)
            requires
                steps <= 255,
                lines <= 255,
        ;
        let total: u16 = (steps as u16) * (lines as u16);
        MState { steps, lines, total_steps: total, current_step: self.current_step }
    }

    fn with_step(&self, current_step: u16) -> (m: MState)
        ensures
            m.steps() == self.steps(),
            m.lines() == self.lines(),
            m.total_steps() == self.total_steps(),
            m.current_step() == current_step,
    {
        proof {
            use_type_invariant(self);
        }
        MState {
            steps: self.steps,
            lines: self.lines,
            total_steps: self.total_steps,
            current_step,
        }
    }
}

/// The session as a plain value: what the contracts of this library speak
/// about.
pub struct Session {
    pub general: GeneralState,
    pub ack: AckState,
    pub last_pack: Seq<u8>,
    pub consec_error_counter: u8,
    pub steps: u8,
    pub lines: u8,
    pub total_steps: u16,
    pub current_step: u16,
}

impl Session {
    /// The state of a fresh session.
    pub open spec fn initial() -> Session {
        Session {
            general: GeneralState::Idle,
            ack: AckState::Normal,
            last_pack: Seq::empty(),
            consec_error_counter: 0,
            steps: 0,
            lines: 0,
            total_steps: 0,
            current_step: 0,
        }
    }

    /// The device has answered `BROKEN` so often in a row that the
    /// controller no longer sends the last frame again.
    pub open spec fn is_fatal(self) -> bool {
        self.consec_error_counter >= MAX_CONSECUTIVE_ERRORS
    }
}

/// The controller's side of a session with the device.
pub struct ClientState {
    pub general: GeneralState,
    pub ack: AckState,
    /// The frame that was sent last, kept to be sent again.
    pub last_pack: Vec<u8>,
    /// `BROKEN` replies since the last acknowledgement.
    pub consec_error_counter: u8,
    pub mes_state: MState,
}

impl View for ClientState {
    type V = Session;

    open spec fn view(&self) -> Session {
        Session {
            general: self.general,
            ack: self.ack,
            last_pack: self.last_pack@,
            consec_error_counter: self.consec_error_counter,
            steps: self.mes_state.steps(),
            lines: self.mes_state.lines(),
            total_steps: self.mes_state.total_steps(),
            current_step: self.mes_state.current_step(),
        }
    }
}

impl ClientState {
    /// A session that has neither sent nor received anything.
    pub fn new() -> (s: ClientState)
        ensures
            s@ == Session::initial(),
    {
        ClientState {
            general: GeneralState::Idle,
            ack: AckState::Normal,
            last_pack: Vec::new(),
            consec_error_counter: 0,
            mes_state: MState::new(),
        }
    }

    /// Sets the points per line; the total follows.
    pub fn set_steps(&mut self, steps: u8)
        ensures
            final(self)@ == (Session {
                steps,
                total_steps: final(self)@.total_steps,
                ..old(self)@
            }),
            final(self)@.total_steps == steps * old(self)@.lines,
    {
        proof {
            use_type_invariant(&self.mes_state);
        }
        let lines = self.get_lines();
        self.mes_state = self.mes_state.with_geometry(steps, lines);
    }

    pub fn get_steps(&self) -> (steps: u8)
        ensures
            steps == self@.steps,
    {
        self.mes_state.steps
    }

    /// Sets the lines per scan; the total follows.
    pub fn set_lines(&mut self, lines: u8)
        ensures
            final(self)@ == (Session {
                lines,
                total_steps: final(self)@.total_steps,
                ..old(self)@
            }),
            final(self)@.total_steps == old(self)@.steps * lines,
    {
        proof {
            use_type_invariant(&self.mes_state);
        }
        let steps = self.get_steps();
        self.mes_state = self.mes_state.with_geometry(steps, lines);
    }

    pub fn get_lines(&self) -> (lines: u8)
        ensures
            lines == self@.lines,
    {
        self.mes_state.lines
    }

    /// Samples in a whole scan: points per line times lines.
    pub fn get_total_steps(&self) -> (total: u16)
        ensures
            total == self@.total_steps,
            total == self@.steps * self@.lines,
    {
        proof {
            use_type_invariant(&self.mes_state);
        }
        self.mes_state.total_steps
    }

    /// Counts one sample and returns the new count.
    pub fn make_step(&mut self) -> (count: u16)
        requires
            old(self)@.current_step < u16::MAX,
        ensures
            count == old(self)@.current_step + 1,
            final(self)@ == (Session { current_step: count, ..old(self)@ }),
    {
        let count: u16 = self.mes_state.current_step + 1;
        self.mes_state = self.mes_state.with_step(count);
        count
    }

    /// Starts counting samples from zero again.
    pub fn reset_step_cnt(&mut self)
        ensures
            final(self)@ == (Session { current_step: 0, ..old(self)@ }),
    {
        self.mes_state = self.mes_state.with_step(0);
    }

    pub fn get_step_cnt(&self) -> (count: u16)
        ensures
            count == self@.current_step,
    {
        self.mes_state.current_step
    }

    /// Whether the run of `BROKEN` replies has reached the limit.
    pub fn is_fatal(&self) -> (fatal: bool)
        ensures
            fatal == self@.is_fatal(),
    {
        self.consec_error_counter >= MAX_CONSECUTIVE_ERRORS
    }
}

} // verus!
