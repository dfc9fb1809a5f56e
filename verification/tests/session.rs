use scanner_comms::handlers::{
    abort_command, err_handle, fin_handle, mes_handle, mov_command, note_sent, ok_pack,
    prog_command, ErrEffect, FinEffect, MesEffect, OkEffect,
};
use scanner_comms::packets::packet_err::ErrPacket;
use scanner_comms::packets::packet_fin::FinPacket;
use scanner_comms::packets::packet_mes::MesPacket;
use scanner_comms::packets::packet_ok::OkPacket;
use scanner_comms::packets::{Axis, ErrCode};
use scanner_comms::state::{AckState, ClientState, GeneralState, MAX_CONSECUTIVE_ERRORS};

const OK_REPLY: [u8; 10] = [0x02, 0x08, 0x07, 0x7b, 0x01, 0x8e, 0x81, 0xa0, 0x0a, 0x00];
const PROG_60_30: [u8; 10] = [0x02, 0x08, 0x07, 0x7b, 0x06, 0xe6, 0x66, 0x3c, 0x1e, 0x00];

fn programmed(steps: u8, lines: u8) -> ClientState {
    let mut state = ClientState::new();
    state.set_steps(steps);
    state.set_lines(lines);
    let command = prog_command(&mut state);
    note_sent(&mut state, &command.frame);
    state
}

#[test]
fn new_state_is_idle_and_empty() {
    let state = ClientState::new();
    assert_eq!(state.general, GeneralState::Idle);
    assert_eq!(state.ack, AckState::Normal);
    assert!(state.last_pack.is_empty());
    assert_eq!(state.consec_error_counter, 0);
    assert_eq!(
        (state.get_steps(), state.get_lines(), state.get_total_steps(), state.get_step_cnt()),
        (0, 0, 0, 0)
    );
    assert!(!state.is_fatal());
    assert_eq!(MAX_CONSECUTIVE_ERRORS, 6);
}

#[test]
fn total_steps_is_the_product() {
    let mut state = ClientState::new();
    state.set_steps(60);
    assert_eq!(state.get_total_steps(), 0);
    state.set_lines(30);
    assert_eq!((state.get_steps(), state.get_lines(), state.get_total_steps()), (60, 30, 1800));
    state.set_steps(255);
    state.set_lines(255);
    assert_eq!(state.get_total_steps(), 65025);
    state.set_lines(0);
    assert_eq!(state.get_total_steps(), 0);
    for steps in [0u8, 1, 7, 200, 255] {
        for lines in [0u8, 1, 3, 199, 255] {
            state.set_lines(lines);
            state.set_steps(steps);
            assert_eq!(state.get_total_steps(), u16::from(steps) * u16::from(lines));
        }
    }
}

#[test]
fn make_step_counts_and_reset_clears() {
    let mut state = ClientState::new();
    state.set_steps(2);
    state.set_lines(2);
    assert_eq!(state.make_step(), 1);
    assert_eq!(state.make_step(), 2);
    assert_eq!(state.get_step_cnt(), 2);
    assert_eq!(state.get_total_steps(), 4);
    state.reset_step_cnt();
    assert_eq!(state.get_step_cnt(), 0);
    assert_eq!((state.get_steps(), state.get_lines(), state.get_total_steps()), (2, 2, 4));
}

#[test]
fn prog_command_sends_the_geometry_and_awaits_the_reply() {
    let mut state = ClientState::new();
    state.set_steps(60);
    state.set_lines(30);
    let command = prog_command(&mut state);
    assert_eq!(command.frame, PROG_60_30);
    assert_eq!(command.record, vec![1, 1, 30, 60]);
    assert_eq!(state.general, GeneralState::Programming);
    assert_eq!(state.ack, AckState::Awaiting);
    assert_eq!(state.get_step_cnt(), 0);
}

#[test]
fn full_scan_of_sixty_by_thirty() {
    let mut state = programmed(60, 30);
    assert_eq!(state.general, GeneralState::Programming);
    assert_eq!(state.last_pack, PROG_60_30);

    let effect = ok_pack(&mut state, OkPacket::new(7, 3, 4));
    assert_eq!(effect, OkEffect::ScanStarted { start_line: 3, start_point: 4 });
    assert_eq!(state.general, GeneralState::Measure);
    assert_eq!(state.ack, AckState::Normal);

    let mut last = 0;
    for i in 1..=1800u16 {
        let effect = mes_handle(&mut state, MesPacket::new(i, 1000 + u32::from(i)));
        match effect {
            MesEffect::Recorded { sample, current_step, total_steps, reply } => {
                assert_eq!(sample, (1000 + u32::from(i)).to_be_bytes());
                assert_eq!(current_step, i);
                assert_eq!(total_steps, 1800);
                assert_eq!(reply, OK_REPLY);
                assert!(current_step >= last && current_step <= total_steps);
                last = current_step;
            }
            MesEffect::Ignored => panic!("sample {} ignored", i),
        }
        assert_eq!(state.ack, AckState::Awaiting);
        assert_eq!(state.general, GeneralState::Measure);
    }
    assert_eq!(state.get_step_cnt(), 1800);
    assert_eq!(state.get_total_steps(), 1800);

    assert_eq!(fin_handle(&mut state, FinPacket::new(9, 1800)), FinEffect::Complete);
    assert_eq!(state.general, GeneralState::Idle);
    assert_eq!(state.get_step_cnt(), 1800);
}

#[test]
fn fin_with_another_count_reports_the_loss_and_goes_idle() {
    let mut state = programmed(60, 30);
    ok_pack(&mut state, OkPacket::new(7, 0, 0));
    for i in 0..1800u32 {
        mes_handle(&mut state, MesPacket::new(1, i));
    }
    assert_eq!(state.get_step_cnt(), 1800);
    assert_eq!(
        fin_handle(&mut state, FinPacket::new(9, 1799)),
        FinEffect::PointsLost { received: 1800, reported: 1799 }
    );
    assert_eq!(state.general, GeneralState::Idle);
}

#[test]
fn fin_goes_idle_from_every_phase() {
    for general in [GeneralState::Idle, GeneralState::Programming, GeneralState::Measure] {
        let mut state = ClientState::new();
        state.general = general;
        state.ack = AckState::Awaiting;
        assert_eq!(fin_handle(&mut state, FinPacket::new(1, 0)), FinEffect::Complete);
        assert_eq!(state.general, GeneralState::Idle);
        assert_eq!(state.ack, AckState::Awaiting);
    }
}

#[test]
fn ok_without_outstanding_reply_changes_nothing() {
    let mut state = ClientState::new();
    state.general = GeneralState::Programming;
    state.consec_error_counter = 3;
    assert_eq!(ok_pack(&mut state, OkPacket::new(1, 2, 3)), OkEffect::Unexpected);
    assert_eq!(state.general, GeneralState::Programming);
    assert_eq!(state.ack, AckState::Normal);
    assert_eq!(state.consec_error_counter, 3);
}

#[test]
fn ok_outside_programming_only_settles_the_reply() {
    for general in [GeneralState::Idle, GeneralState::Measure] {
        let mut state = ClientState::new();
        state.general = general;
        state.ack = AckState::Awaiting;
        state.consec_error_counter = 2;
        assert_eq!(ok_pack(&mut state, OkPacket::new(1, 2, 3)), OkEffect::Acknowledged);
        assert_eq!(state.general, general);
        assert_eq!(state.ack, AckState::Normal);
        assert_eq!(state.consec_error_counter, 0);
    }
}

#[test]
fn mes_outside_a_scan_is_ignored() {
    for general in [GeneralState::Idle, GeneralState::Programming] {
        let mut state = ClientState::new();
        state.set_steps(2);
        state.set_lines(2);
        state.general = general;
        assert_eq!(mes_handle(&mut state, MesPacket::new(1, 5)), MesEffect::Ignored);
        assert_eq!(state.general, general);
        assert_eq!(state.ack, AckState::Normal);
        assert_eq!(state.get_step_cnt(), 0);
    }
}

#[test]
fn mes_sample_is_big_endian() {
    let mut state = ClientState::new();
    state.general = GeneralState::Measure;
    match mes_handle(&mut state, MesPacket::new(1, 0x0102_0304)) {
        MesEffect::Recorded { sample, current_step, .. } => {
            assert_eq!(sample, vec![1, 2, 3, 4]);
            assert_eq!(current_step, 1);
        }
        MesEffect::Ignored => panic!("ignored"),
    }
}

#[test]
fn six_broken_replies_end_the_retries() {
    let mut state = programmed(60, 30);
    for i in 1..=5u8 {
        let effect = err_handle(&mut state, ErrPacket::new(1, ErrCode::BROKEN, 123));
        assert_eq!(effect, ErrEffect::Retransmit(PROG_60_30.to_vec()));
        assert_eq!(state.consec_error_counter, i);
        assert!(!state.is_fatal());
        assert_eq!(state.ack, AckState::Awaiting);
        // The frame goes out again and stays the frame to repeat.
        if let ErrEffect::Retransmit(frame) = effect {
            note_sent(&mut state, &frame);
        }
        assert_eq!(state.last_pack, PROG_60_30);
    }
    let effect = err_handle(&mut state, ErrPacket::new(1, ErrCode::BROKEN, 123));
    assert_eq!(effect, ErrEffect::GiveUp);
    assert_eq!(state.consec_error_counter, 6);
    assert!(state.is_fatal());
    // The session stays where it was.
    assert_eq!(state.general, GeneralState::Programming);
    assert_eq!(state.ack, AckState::Awaiting);
    // Nothing is sent again after that either.
    assert_eq!(err_handle(&mut state, ErrPacket::new(1, ErrCode::BROKEN, 123)), ErrEffect::GiveUp);
    assert_eq!(state.consec_error_counter, 7);
}

#[test]
fn ok_after_up_to_five_broken_replies_clears_the_count() {
    for broken in 0..=5u8 {
        let mut state = programmed(4, 4);
        for _ in 0..broken {
            assert!(matches!(
                err_handle(&mut state, ErrPacket::new(1, ErrCode::BROKEN, 123)),
                ErrEffect::Retransmit(_)
            ));
        }
        assert_eq!(state.consec_error_counter, broken);
        ok_pack(&mut state, OkPacket::new(1, 0, 0));
        assert_eq!(state.consec_error_counter, 0);
        assert!(!state.is_fatal());
        assert_eq!(state.general, GeneralState::Measure);
    }
}

#[test]
fn busy_and_unknown_send_nothing_and_count_nothing() {
    let mut state = programmed(4, 4);
    assert_eq!(err_handle(&mut state, ErrPacket::new(1, ErrCode::BUSY, 123)), ErrEffect::Busy);
    assert_eq!(err_handle(&mut state, ErrPacket::new(1, ErrCode::UNKNOWN, 123)), ErrEffect::Unknown);
    assert_eq!(state.consec_error_counter, 0);
    assert_eq!(state.ack, AckState::Awaiting);
    assert_eq!(state.general, GeneralState::Programming);
}

#[test]
fn note_sent_keeps_every_frame_but_error_replies() {
    let mut state = ClientState::new();
    note_sent(&mut state, &OK_REPLY);
    assert_eq!(state.last_pack, OK_REPLY);
    let err = [0x02, 0x09, 0x06, 0x7b, 0x02, 0x6d, 0x9a, 0x02, 0x02, 0x2a, 0x00];
    note_sent(&mut state, &err);
    assert_eq!(state.last_pack, OK_REPLY);
    note_sent(&mut state, &PROG_60_30);
    assert_eq!(state.last_pack, PROG_60_30);
}

#[test]
fn abort_command_is_the_abort_frame() {
    assert_eq!(abort_command(), vec![0x02, 0x07, 0x06, 0x7b, 0x05, 0xf5, 0x32, 0x0a, 0x00]);
}

#[test]
fn mov_command_maps_the_sign_to_the_side() {
    assert_eq!(
        mov_command(Axis::Azimuth, 32),
        Some(vec![0x02, 0x09, 0x06, 0x7b, 0x03, 0xd0, 0x20, 0x01, 0x02, 0x20, 0x00])
    );
    assert_eq!(
        mov_command(Axis::Horizon, -200),
        Some(vec![0x02, 0x09, 0x05, 0x7b, 0x03, 0xa8, 0x07, 0x03, 0x01, 0xc8, 0x00])
    );
    assert!(mov_command(Axis::Horizon, 0).is_some());
    assert!(mov_command(Axis::Horizon, 200).is_some());
    assert!(mov_command(Axis::Horizon, -1).is_some());
    assert_eq!(mov_command(Axis::Horizon, 201), None);
    assert_eq!(mov_command(Axis::Horizon, -201), None);
    assert_eq!(mov_command(Axis::Azimuth, i16::MAX), None);
    assert_eq!(mov_command(Axis::Azimuth, i16::MIN), None);
}
