use rustyscope::codec::{Command, ConfigAction, ConfigErr, Reply, SampleKind};
use rustyscope::communications::{burst_wire_bytes, data_frame_bytes};
use rustyscope::host::{bytes_to_samples, parse_burst_stream};

#[test]
fn not_to_short() {
    let commands = vec![
        Command::Stop,
        Command::Continues(SampleKind::Analog),
        Command::Burst(SampleKind::Digital),
        Command::Config(ConfigAction::AnalogPins(0u8)),
        Command::Config(ConfigAction::AnalogRate(0u32)),
    ];
    for cmd in &commands {
        let _ = cmd.serialize();
    }
}

#[test]
fn serialize_deserialize() {
    let commands = vec![
        Command::Stop,
        Command::Continues(SampleKind::Analog),
        Command::Burst(SampleKind::Digital),
        Command::Config(ConfigAction::AnalogPins(0u8)),
        Command::Config(ConfigAction::AnalogRate(0u32)),
    ];
    for cmd in &commands {
        let buf = cmd.serialize();
        let deserialized = Command::try_from(&buf).unwrap();
        assert_eq!(&deserialized, cmd);
    }
}

#[test]
fn serialize() {
    let replies = vec![
        Reply::Accepted,
        Reply::Fault(ConfigErr::InvalidRate(u32::MAX)),
        Reply::Data(u32::MAX),
    ];
    for rply in &replies {
        let _ = rply.serialize();
    }
}

#[test]
fn lib_serialize_deserialize() {
    let replies = vec![
        Reply::Accepted,
        Reply::Fault(ConfigErr::InvalidRate(u32::MAX)),
        Reply::Data(u32::MAX),
    ];
    for rply in &replies {
        let buf = rply.serialize();
        let deserialized = Reply::try_from(&buf).unwrap();
        assert_eq!(&deserialized, rply);
    }
}

#[test]
fn command_round_trip_boundaries() {
    let commands = vec![
        Command::Stop,
        Command::Continues(SampleKind::Digital),
        Command::Continues(SampleKind::Analog),
        Command::Burst(SampleKind::Digital),
        Command::Burst(SampleKind::Analog),
        Command::Config(ConfigAction::ResetPins),
        Command::Config(ConfigAction::DigitalPins(0)),
        Command::Config(ConfigAction::DigitalPins(255)),
        Command::Config(ConfigAction::AnalogPins(0)),
        Command::Config(ConfigAction::AnalogPins(255)),
        Command::Config(ConfigAction::AnalogRate(0)),
        Command::Config(ConfigAction::AnalogRate(u32::MAX)),
    ];
    for cmd in &commands {
        let buf = cmd.serialize();
        assert_eq!(&Command::try_from(&buf).unwrap(), cmd);
    }
}

#[test]
fn reply_round_trip_boundaries() {
    let replies = vec![
        Reply::Accepted,
        Reply::Done(0),
        Reply::Done(u32::MAX),
        Reply::Data(0),
        Reply::Data(u32::MAX),
        Reply::Fault(ConfigErr::UnavailibleSampler(0)),
        Reply::Fault(ConfigErr::UnavailibleSampler(255)),
        Reply::Fault(ConfigErr::PinTaken(0)),
        Reply::Fault(ConfigErr::PinTaken(255)),
        Reply::Fault(ConfigErr::InvalidPin(0)),
        Reply::Fault(ConfigErr::InvalidPin(255)),
        Reply::Fault(ConfigErr::InvalidRate(0)),
        Reply::Fault(ConfigErr::InvalidRate(u32::MAX)),
        Reply::Fault(ConfigErr::Unimplemented),
        Reply::Fault(ConfigErr::CommunicationProblem),
    ];
    for rply in &replies {
        let buf = rply.serialize();
        assert_eq!(&Reply::try_from(&buf).unwrap(), rply);
    }
}

#[test]
fn frame_size_all_variants() {
    let commands = vec![
        Command::Stop,
        Command::Continues(SampleKind::Digital),
        Command::Burst(SampleKind::Analog),
        Command::Config(ConfigAction::ResetPins),
        Command::Config(ConfigAction::DigitalPins(255)),
        Command::Config(ConfigAction::AnalogPins(31)),
        Command::Config(ConfigAction::AnalogRate(u32::MAX)),
    ];
    for cmd in &commands {
        assert_eq!(cmd.serialize().len(), 6);
    }
    let replies = vec![
        Reply::Accepted,
        Reply::Done(u32::MAX),
        Reply::Data(u32::MAX),
        Reply::Fault(ConfigErr::UnavailibleSampler(255)),
        Reply::Fault(ConfigErr::PinTaken(255)),
        Reply::Fault(ConfigErr::InvalidPin(255)),
        Reply::Fault(ConfigErr::InvalidRate(u32::MAX)),
        Reply::Fault(ConfigErr::Unimplemented),
        Reply::Fault(ConfigErr::CommunicationProblem),
    ];
    for rply in &replies {
        assert_eq!(rply.serialize().len(), 6);
    }
}

#[test]
fn decode_rejects_unknown_tag() {
    let buf = vec![9u8, 0, 0, 0, 0, 0];
    assert_eq!(Command::try_from(&buf), Err(ConfigErr::CommunicationProblem));
    assert_eq!(Reply::try_from(&buf), Err(ConfigErr::CommunicationProblem));
}

#[test]
fn decode_rejects_bad_length() {
    let buf = vec![0u8, 0, 0];
    assert_eq!(Command::try_from(&buf), Err(ConfigErr::CommunicationProblem));
    assert_eq!(Reply::try_from(&buf), Err(ConfigErr::CommunicationProblem));
    let buf = vec![0u8; 7];
    assert_eq!(Command::try_from(&buf), Err(ConfigErr::CommunicationProblem));
}

#[test]
fn decode_rejects_nonzero_padding() {
    // Stop frame with a stray byte in the payload area
    let buf = vec![0u8, 0, 0, 1, 0, 0];
    assert_eq!(Command::try_from(&buf), Err(ConfigErr::CommunicationProblem));
    // kind byte out of range for Continues
    let buf = vec![1u8, 2, 0, 0, 0, 0];
    assert_eq!(Command::try_from(&buf), Err(ConfigErr::CommunicationProblem));
}

#[test]
fn data_frame_announces_byte_length() {
    let batch: Vec<i16> = vec![1, 2, 3, 4, 5, 6, 7, 8];
    let wire = data_frame_bytes(&batch);
    // a Data frame announcing 16 payload bytes, then the 16 bytes
    assert_eq!(wire.len(), 6 + 16);
    let header: Vec<u8> = wire[0..6].to_vec();
    assert_eq!(Reply::try_from(&header).unwrap(), Reply::Data(16));
    assert_eq!(&wire[6..8], &[1u8, 0]);
}

#[test]
fn burst_wire_single_chunk_layout() {
    let data: Vec<i16> = vec![10, 20, 30, 40];
    let wire = burst_wire_bytes(&data, 1234);
    // one Data frame of 8 bytes, the 8 bytes, one Done frame
    assert_eq!(wire.len(), 6 + 8 + 6);
    let header: Vec<u8> = wire[0..6].to_vec();
    assert_eq!(Reply::try_from(&header).unwrap(), Reply::Data(8));
    let done: Vec<u8> = wire[14..20].to_vec();
    assert_eq!(Reply::try_from(&done).unwrap(), Reply::Done(1234));
}

#[test]
fn burst_wire_chunking_and_parse() {
    // 200 samples are 400 bytes: one full 255-byte chunk plus a 145-byte one
    let mut data: Vec<i16> = Vec::new();
    for i in 0..200 {
        data.push(i as i16 - 100);
    }
    let wire = burst_wire_bytes(&data, 987654);
    assert_eq!(wire.len(), 6 + 255 + 6 + 145 + 6);
    let header: Vec<u8> = wire[0..6].to_vec();
    assert_eq!(Reply::try_from(&header).unwrap(), Reply::Data(255));
    let (payload, duration) = parse_burst_stream(&wire).unwrap();
    assert_eq!(duration, 987654);
    assert_eq!(payload.len(), 400);
    let samples = bytes_to_samples(&payload);
    assert_eq!(samples.len(), 200);
    for i in 0..200 {
        assert_eq!(samples[i], (i as i16 - 100) as u16);
    }
}

#[test]
fn parse_stream_fault_aborts() {
    let mut wire = Reply::Accepted.serialize();
    wire.extend(Reply::Fault(ConfigErr::PinTaken(31)).serialize());
    wire.extend(Reply::Done(1).serialize());
    assert_eq!(parse_burst_stream(&wire), Err(ConfigErr::PinTaken(31)));
}

#[test]
fn parse_stream_skips_acks() {
    let mut wire = Reply::Accepted.serialize();
    wire.extend(Reply::Accepted.serialize());
    wire.extend(Reply::Done(77).serialize());
    let (payload, duration) = parse_burst_stream(&wire).unwrap();
    assert_eq!(payload.len(), 0);
    assert_eq!(duration, 77);
}

#[test]
fn parse_stream_truncated() {
    // a Data frame announcing more bytes than follow
    let mut wire = Reply::Data(10).serialize();
    wire.extend(vec![1u8, 2, 3]);
    assert_eq!(parse_burst_stream(&wire), Err(ConfigErr::CommunicationProblem));
    // an empty stream never sees Done
    let empty: Vec<u8> = Vec::new();
    assert_eq!(parse_burst_stream(&empty), Err(ConfigErr::CommunicationProblem));
}

#[test]
fn bytes_to_samples_le() {
    let bytes = vec![0x34u8, 0x12, 0xff, 0xff, 0x00, 0x80];
    let samples = bytes_to_samples(&bytes);
    assert_eq!(samples, vec![0x1234u16, 0xffff, 0x8000]);
}

#[test]
fn negative_samples_round_trip() {
    let data: Vec<i16> = vec![-1, i16::MIN, i16::MAX, 0];
    let wire = burst_wire_bytes(&data, 5);
    let (payload, _) = parse_burst_stream(&wire).unwrap();
    let samples = bytes_to_samples(&payload);
    assert_eq!(samples, vec![(-1i16) as u16, i16::MIN as u16, i16::MAX as u16, 0u16]);
}

#[test]
fn done_duration_truncates() {
    let data: Vec<i16> = vec![7];
    let wire = burst_wire_bytes(&data, u64::from(u32::MAX) + 3);
    let (_, duration) = parse_burst_stream(&wire).unwrap();
    assert_eq!(duration, 2);
}
