use scanner_comms::coder::{
    decode_packet, decode_unframed, DecodeError, Feed, FrameBuffer, PackType, FRAME_END_TOKEN,
};
use scanner_comms::mock::gen_data_points;
use scanner_comms::packets::packet_abort::AbortPacket;
use scanner_comms::packets::packet_err::ErrPacket;
use scanner_comms::packets::packet_fin::FinPacket;
use scanner_comms::packets::packet_mes::MesPacket;
use scanner_comms::packets::packet_mov::MovPacket;
use scanner_comms::packets::packet_ok::OkPacket;
use scanner_comms::packets::packet_prog::ProgPacket;
use scanner_comms::packets::{to_frame, Axis, ErrCode, PacketType, RotSide};

/// Checksum, stuffing and terminator for an unframed packet whose checksum
/// bytes are still zero, made with the byte-level crates directly.
fn frame_by_hand(mut raw: Vec<u8>) -> Vec<u8> {
    let sum = crc::Crc::<u16>::new(&crc::CRC_16_XMODEM).checksum(&raw);
    raw[4] = (sum >> 8) as u8;
    raw[5] = (sum & 0xff) as u8;
    let mut out = vec![0u8; corncobs::max_encoded_len(raw.len())];
    let n = corncobs::encode_buf(&raw, &mut out);
    out.truncate(n);
    out
}

fn feed_all(buffer: &mut FrameBuffer, bytes: &[u8]) -> Vec<Feed> {
    bytes.iter().map(|b| buffer.push(*b)).collect()
}

#[test]
fn decode_packet_dispatches_on_the_type_byte() {
    let mut ok = OkPacket::new(123, 0xa0, 0x0a);
    ok.header.crc = 0x8e81;
    assert_eq!(decode_packet(&to_frame(&OkPacket::new(123, 0xa0, 0x0a))), Ok(PackType::Okay(ok)));

    let mut err = ErrPacket::new(123, ErrCode::BROKEN, 42);
    err.header.crc = 0x6d9a;
    assert_eq!(
        decode_packet(&to_frame(&ErrPacket::new(123, ErrCode::BROKEN, 42))),
        Ok(PackType::Error(err))
    );

    let mut mov = MovPacket::new(123, Axis::Azimuth, RotSide::Clockwise, 32);
    mov.header.crc = 0xd020;
    assert_eq!(
        decode_packet(&to_frame(&MovPacket::new(123, Axis::Azimuth, RotSide::Clockwise, 32))),
        Ok(PackType::Mov(mov))
    );

    let mut mes = MesPacket::new(123, 67890);
    mes.header.crc = 0xa81d;
    assert_eq!(decode_packet(&to_frame(&MesPacket::new(123, 67890))), Ok(PackType::Mes(mes)));

    let mut abort = AbortPacket::new(123);
    abort.header.crc = 0xf532;
    assert_eq!(decode_packet(&to_frame(&AbortPacket::new(123))), Ok(PackType::Abort(abort)));

    let mut prog = ProgPacket::new(123, 42, 11);
    prog.header.crc = 0x0d27;
    assert_eq!(decode_packet(&to_frame(&ProgPacket::new(123, 42, 11))), Ok(PackType::Prog(prog)));

    let mut fin = FinPacket::new(123, 15123);
    fin.header.crc = 0x040d;
    assert_eq!(decode_packet(&to_frame(&FinPacket::new(123, 15123))), Ok(PackType::Fin(fin)));
}

#[test]
fn decode_packet_reports_unknown_and_mangled() {
    assert_eq!(decode_packet(&[]), Err(DecodeError::Mangled));
    assert_eq!(decode_packet(&[0]), Err(DecodeError::Mangled));
    assert_eq!(decode_packet(&[2, 8, 7, 0]), Err(DecodeError::Mangled));
    // Too few bytes for a header.
    assert_eq!(decode_packet(&[6, 8, 7, 0x7b, 1, 9, 0]), Err(DecodeError::Mangled));
    // A run that claims more bytes than follow.
    assert_eq!(decode_packet(&[2, 8, 7, 0x7b, 0]), Err(DecodeError::Mangled));
    // Bytes behind the terminator.
    let mut long = to_frame(&FinPacket::new(123, 15123));
    long.push(0);
    assert_eq!(decode_packet(&long), Err(DecodeError::Mangled));
    // Sound in every respect but the type byte.
    for tag in [0u8, 8, 9, 0x80, 0xff] {
        let frame = frame_by_hand(vec![8, 1, 123, tag, 0, 0, 1, 2]);
        assert_eq!(decode_packet(&frame), Err(DecodeError::Unknown), "tag {}", tag);
    }
    assert_eq!(decode_packet(&[2, 8, 7, 0x7b, 8, 1, 1, 1, 1, 0]), Err(DecodeError::Unknown));
    // A known type, a wrong checksum.
    assert_eq!(
        decode_packet(&[0x02, 0x08, 0x07, 0x7b, 0x07, 0x04, 0x0e, 0x3b, 0x13, 0x00]),
        Err(DecodeError::Mangled)
    );
    // No frame of one kind decodes with the type byte of another.
    let fin = to_frame(&FinPacket::new(123, 15123));
    for tag in 1..=7u8 {
        if tag != 7 {
            let mut f = fin.clone();
            f[4] = tag;
            assert_eq!(decode_packet(&f), Err(DecodeError::Mangled), "tag {}", tag);
        }
    }
    // Not even where the checksum fits the new type byte: the length byte
    // of an acknowledgement is not that of a sample.
    let frame = frame_by_hand(vec![8, 1, 123, 4, 0, 0, 1, 2]);
    assert_eq!(decode_packet(&frame), Err(DecodeError::Mangled));
}

#[test]
fn decoded_packet_names_its_own_kind() {
    // Acknowledgement, scan parameters and end of scan share a size; the
    // type byte alone tells them apart.
    let ok = decode_packet(&frame_by_hand(vec![8, 1, 123, 1, 0, 0, 60, 30]));
    let prog = decode_packet(&frame_by_hand(vec![8, 1, 123, 6, 0, 0, 60, 30]));
    let fin = decode_packet(&frame_by_hand(vec![8, 1, 123, 7, 0, 0, 60, 30]));
    match (ok, prog, fin) {
        (Ok(PackType::Okay(a)), Ok(PackType::Prog(b)), Ok(PackType::Fin(c))) => {
            assert_eq!(a.header.packet_type, PacketType::Okay);
            assert_eq!(b.header.packet_type, PacketType::Prog);
            assert_eq!(c.header.packet_type, PacketType::Fin);
            assert_eq!((a.sentinel, a.sentinel2), (60, 30));
            assert_eq!((b.number_of_points, b.number_of_lines), (60, 30));
            assert_eq!(c.number_of_points, 60 * 256 + 30);
        }
        other => panic!("decoded {:?}", other),
    }
}

#[test]
fn decode_unframed_takes_the_checksum_from_the_caller() {
    let raw = [9u8, 0, 123, 3, 0xd0, 0x20, 1, 0, 32];
    let mut mov = MovPacket::new(123, Axis::Azimuth, RotSide::Clockwise, 32);
    mov.header.crc = 0xd020;
    assert_eq!(decode_unframed(&raw, 0xd020), Ok(PackType::Mov(mov)));
    assert_eq!(decode_unframed(&raw, 0xd021), Err(DecodeError::Mangled));
    assert_eq!(decode_unframed(&raw[..8], 0xd020), Err(DecodeError::Mangled));
    assert_eq!(decode_unframed(&raw[..5], 0xd020), Err(DecodeError::Mangled));
    assert_eq!(decode_unframed(&[9, 0, 123, 0, 0xd0, 0x20, 1, 0, 32], 0xd020), Err(DecodeError::Unknown));
    assert_eq!(decode_unframed(&[9, 0, 123, 8, 0xd0, 0x20, 1, 0, 32], 0xd020), Err(DecodeError::Unknown));
    assert_eq!(decode_unframed(&[9, 0, 123, 3, 0xd0, 0x20, 2, 0, 32], 0xd020), Err(DecodeError::Mangled));
    assert_eq!(decode_unframed(&[8, 0, 123, 3, 0xd0, 0x20, 1, 0, 32], 0xd020), Err(DecodeError::Mangled));
}

#[test]
fn frame_buffer_collects_until_the_terminator() {
    assert_eq!(FRAME_END_TOKEN, 0);
    let mut buffer = FrameBuffer::new();
    assert!(buffer.buf.is_empty());
    let frame = to_frame(&MesPacket::new(123, 67890));
    let fed = feed_all(&mut buffer, &frame[..11]);
    assert!(fed.iter().all(|f| *f == Feed::Pending));
    assert_eq!(buffer.buf, &frame[..11]);
    let mut mes = MesPacket::new(123, 67890);
    mes.header.crc = 0xa81d;
    assert_eq!(buffer.push(0), Feed::Frame(PackType::Mes(mes)));
    assert!(buffer.buf.is_empty());
}

#[test]
fn frame_buffer_discards_and_goes_on() {
    let mut buffer = FrameBuffer::new();
    assert_eq!(buffer.push(0), Feed::Discarded(DecodeError::Mangled));
    assert!(buffer.buf.is_empty());
    let mut unknown = frame_by_hand(vec![8, 1, 123, 9, 0, 0, 1, 2]);
    assert_eq!(feed_all(&mut buffer, &unknown).last(), Some(&Feed::Discarded(DecodeError::Unknown)));
    assert!(buffer.buf.is_empty());
    unknown[9] = 7;
    unknown.push(0);
    assert_eq!(feed_all(&mut buffer, &unknown).last(), Some(&Feed::Discarded(DecodeError::Mangled)));
    assert!(buffer.buf.is_empty());
    let frame = to_frame(&AbortPacket::new(123));
    let mut abort = AbortPacket::new(123);
    abort.header.crc = 0xf532;
    assert_eq!(feed_all(&mut buffer, &frame).last(), Some(&Feed::Frame(PackType::Abort(abort))));
}

#[test]
fn corrupted_terminator_is_not_taken_for_a_shorter_frame() {
    // The terminator of the first frame arrives as a non-zero byte, so the
    // bytes of the next frame run on behind it.
    let first = to_frame(&MovPacket::new(123, Axis::Azimuth, RotSide::Clockwise, 32));
    let second = to_frame(&OkPacket::new(123, 0xa0, 0x0a));
    let mut stream = first.clone();
    stream[10] = 0x55;
    stream.extend_from_slice(&second);
    let mut buffer = FrameBuffer::new();
    let fed = feed_all(&mut buffer, &stream);
    assert!(fed[..20].iter().all(|f| *f == Feed::Pending));
    assert_eq!(fed[20], Feed::Discarded(DecodeError::Mangled));
    assert!(buffer.buf.is_empty());
    // The frame after that is received as usual.
    let mut ok = OkPacket::new(123, 0xa0, 0x0a);
    ok.header.crc = 0x8e81;
    assert_eq!(feed_all(&mut buffer, &second).last(), Some(&Feed::Frame(PackType::Okay(ok))));
}

#[test]
fn stray_zero_in_a_frame_does_not_yield_a_packet() {
    // A byte in the middle arrives as zero: what was collected up to it is
    // thrown away, and so is the rest, which is no frame either.
    let frame = to_frame(&MesPacket::new(123, 67890));
    for at in 0..11 {
        let mut stream = frame.clone();
        stream[at] = 0;
        let mut buffer = FrameBuffer::new();
        let fed = feed_all(&mut buffer, &stream);
        assert!(
            fed.iter().all(|f| matches!(f, Feed::Pending | Feed::Discarded(_))),
            "zero at {}",
            at
        );
        assert!(matches!(fed[at], Feed::Discarded(_)));
        assert!(matches!(fed[11], Feed::Discarded(_)));
        assert!(buffer.buf.is_empty());
    }
}

#[test]
fn gen_data_points_counts_from_one_past_the_product() {
    assert_eq!(gen_data_points(2, 3), vec![1, 2, 3, 4, 5, 6, 7]);
    assert_eq!(gen_data_points(0, 9), vec![1]);
    assert_eq!(gen_data_points(30, 60).len(), 1801);
    assert_eq!(gen_data_points(30, 60)[1800], 1801);
    assert_eq!(gen_data_points(255, 255).len(), 65026);
}
