use scanner_comms::packets::packet_abort::AbortPacket;
use scanner_comms::packets::packet_err::ErrPacket;
use scanner_comms::packets::packet_fin::FinPacket;
use scanner_comms::packets::packet_mes::MesPacket;
use scanner_comms::packets::packet_mov::MovPacket;
use scanner_comms::packets::packet_ok::OkPacket;
use scanner_comms::packets::packet_prog::ProgPacket;
use scanner_comms::packets::{Axis, ErrCode, Packet, RotSide};

#[test]
fn ok_serial_deserial() {
    let mut buf: [u8; 20] = [0; 20];

    let test_ok = OkPacket::new(123, 0xa0, 0x0a);

    let len = test_ok.serialize(&mut buf);

    let mut rx_packet = OkPacket::new(0, 0, 0);

    let _len = OkPacket::deserialize(&buf[..len], &mut rx_packet);
    rx_packet.header.zero_crc();

    assert_eq!(test_ok, rx_packet);
}

#[test]
fn abort_serial_deserial() {
    let mut buf: [u8; 20] = [0; 20];

    let test_ok = AbortPacket::new(123);

    let len = test_ok.serialize(&mut buf);

    let mut rx_packet = AbortPacket::new(0);

    let _len = AbortPacket::deserialize(&buf[..len], &mut rx_packet);
    rx_packet.header.zero_crc();

    assert_eq!(test_ok, rx_packet);
}

#[test]
fn err_serial_deserial() {
    let mut buf: [u8; 20] = [0; 20];

    let test_ok = ErrPacket::new(123, ErrCode::BROKEN, 42);

    let len = test_ok.serialize(&mut buf);

    let mut rx_packet = ErrPacket::new(0, ErrCode::UNKNOWN, 0);

    let _len = ErrPacket::deserialize(&buf[..len], &mut rx_packet);
    rx_packet.header.zero_crc();

    assert_eq!(test_ok, rx_packet);
}

#[test]
fn fin_serial_deserial() {
    let mut buf: [u8; 20] = [0; 20];

    let test_ok = FinPacket::new(123, 15123);

    let len = test_ok.serialize(&mut buf);

    let mut rx_packet = FinPacket::new(0, 0);

    let _len = FinPacket::deserialize(&buf[..len], &mut rx_packet);
    rx_packet.header.zero_crc();

    assert_eq!(test_ok, rx_packet);
}

#[test]
fn prog_serial_deserial() {
    let mut buf: [u8; 20] = [0; 20];

    let test_ok = ProgPacket::new(123, 42, 11);

    let len = test_ok.serialize(&mut buf);

    let mut rx_packet = ProgPacket::new(0, 0, 0);

    let _len = ProgPacket::deserialize(&buf[..len], &mut rx_packet);
    rx_packet.header.zero_crc();

    assert_eq!(test_ok, rx_packet);
}

#[test]
fn mes_serial_deserial() {
    let mut buf: [u8; 20] = [0; 20];

    let test_ok = MesPacket::new(123, 67890);

    let len = test_ok.serialize(&mut buf);

    let mut rx_packet = MesPacket::new(0, 0);

    let _len = MesPacket::deserialize(&buf[..len], &mut rx_packet);
    rx_packet.header.zero_crc();

    assert_eq!(test_ok, rx_packet);
}

#[test]
fn mov_serial_deserial() {
    let mut buf: [u8; 20] = [0; 20];

    let test_ok = MovPacket::new(123, Axis::Azimuth, RotSide::Clockwise, 32);

    let len = test_ok.serialize(&mut buf);

    let mut rx_packet = MovPacket::new(0, Axis::Horizon, RotSide::CounterClockwise, 0);

    let _len = MovPacket::deserialize(&buf[..len], &mut rx_packet);
    rx_packet.header.zero_crc();

    assert_eq!(test_ok, rx_packet);
}
