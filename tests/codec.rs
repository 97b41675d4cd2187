use lxp_bridge::codec::DeviceFunction;
use lxp_bridge::codec::Heartbeat;
use lxp_bridge::codec::Packet;
use lxp_bridge::codec::Parser;
use lxp_bridge::codec::ReadParam;
use lxp_bridge::codec::TcpFrameFactory;
use lxp_bridge::codec::TcpFunction;
use lxp_bridge::codec::TranslatedData;
use lxp_bridge::codec::WireError;
use lxp_bridge::codec::WriteParam;
use lxp_bridge::serial::Serial;

fn datalog() -> Serial {
    Serial::new(b"2222222222").unwrap()
}

fn inverter() -> Serial {
    Serial::new(b"5555555555").unwrap()
}

fn modbus_crc(data: &[u8]) -> u16 {
    let mut crc: u16 = 0xFFFF;
    for b in data {
        crc ^= *b as u16;
        for _ in 0..8 {
            if crc & 1 == 1 {
                crc = (crc >> 1) ^ 0xA001;
            } else {
                crc >>= 1;
            }
        }
    }
    crc
}

fn read_hold_21() -> Packet {
    Packet::TranslatedData(TranslatedData {
        datalog: datalog(),
        device_function: DeviceFunction::ReadHold,
        inverter: inverter(),
        register: 21,
        values: vec![0x0C, 0x22],
    })
}

#[test]
fn heartbeat_round_trip() {
    let p = Packet::Heartbeat(Heartbeat { datalog: datalog() });
    let frame = TcpFrameFactory::build(&p);
    let mut expected = vec![0xA1, 0x1A, 0x02, 0x00, 13, 0x00, 0x01, 0xC1];
    expected.extend_from_slice(b"2222222222");
    expected.push(0);
    assert_eq!(frame, expected);
    assert_eq!(Parser::parse(&frame), Ok(p));
}

#[test]
fn translated_data_round_trip() {
    for df in [DeviceFunction::ReadHold, DeviceFunction::ReadInput, DeviceFunction::WriteSingle] {
        let p = Packet::TranslatedData(TranslatedData {
            datalog: datalog(),
            device_function: df,
            inverter: inverter(),
            register: 0x1234,
            values: vec![0xAB, 0xCD],
        });
        let frame = TcpFrameFactory::build(&p);
        assert_eq!(frame.len(), 38);
        assert_eq!(Parser::parse(&frame), Ok(p));
    }
}

#[test]
fn translated_data_layout_and_checksum() {
    let frame = TcpFrameFactory::build(&read_hold_21());
    assert_eq!(&frame[0..8], &[0xA1, 0x1A, 0x01, 0x00, 0x20, 0x00, 0x01, 0xC2]);
    assert_eq!(&frame[18..20], &[18, 0]);
    assert_eq!(frame[20], 0);
    assert_eq!(frame[21], 3);
    assert_eq!(&frame[22..32], b"5555555555");
    assert_eq!(&frame[32..34], &[21, 0]);
    assert_eq!(&frame[34..36], &[0x0C, 0x22]);
    let crc = modbus_crc(&frame[20..36]);
    assert_eq!(&frame[36..38], &crc.to_le_bytes());
    assert_eq!(modbus_crc(b"123456789"), 0x4B37);
}

#[test]
fn write_multi_body_carries_count_and_length() {
    let p = Packet::TranslatedData(TranslatedData {
        datalog: datalog(),
        device_function: DeviceFunction::WriteMulti,
        inverter: inverter(),
        register: 12,
        values: vec![1, 2, 3, 4],
    });
    let frame = TcpFrameFactory::build(&p);
    assert_eq!(&frame[2..4], &[2, 0]);
    assert_eq!(&frame[34..36], &[2, 0]);
    assert_eq!(frame[36], 4);
    assert_eq!(&frame[37..41], &[1, 2, 3, 4]);
    assert_eq!(frame.len(), 43);
}

#[test]
fn altered_body_fails_checksum() {
    let frame = TcpFrameFactory::build(&read_hold_21());
    for i in 20..frame.len() {
        let mut f = frame.clone();
        f[i] ^= 0x01;
        assert_eq!(Parser::parse(&f), Err(WireError::ChecksumError), "byte {}", i);
    }
}

#[test]
fn frame_length_invariant() {
    let packets = vec![
        Packet::Heartbeat(Heartbeat { datalog: datalog() }),
        read_hold_21(),
        Packet::ReadParam(ReadParam { datalog: datalog(), register: 7, values: vec![] }),
        Packet::WriteParam(WriteParam { datalog: datalog(), register: 7, values: vec![1, 2] }),
    ];
    for p in packets {
        let frame = TcpFrameFactory::build(&p);
        assert_eq!(frame[4] as usize + 6, frame.len());
        assert_eq!(u16::from_le_bytes([frame[4], frame[5]]) as usize + 6, frame.len());
    }
}

#[test]
fn parse_errors() {
    let good = TcpFrameFactory::build(&Packet::Heartbeat(Heartbeat { datalog: datalog() }));
    assert_eq!(Parser::parse(&good[..17]), Err(WireError::TooShort));
    let mut f = good.clone();
    f[0] = 0xA2;
    assert_eq!(Parser::parse(&f), Err(WireError::MagicMismatch));
    let mut f = good.clone();
    f[7] = 0xC9;
    assert_eq!(Parser::parse(&f), Err(WireError::UnknownFunction));
    let mut f = good.clone();
    f[4] = 100;
    assert_eq!(Parser::parse(&f), Err(WireError::LengthMismatch));
    let mut f = good.clone();
    f[18] = 1;
    assert_eq!(Parser::parse(&f), Err(WireError::MalformedHeartbeat));
    let mut f = good.clone();
    f[9] = 0x01;
    assert_eq!(Parser::parse(&f), Err(WireError::InvalidSerial));
    assert_eq!(Parser::parse(&good[..18]), Err(WireError::TooShort));
}

#[test]
fn translated_data_length_mismatch() {
    let mut frame = TcpFrameFactory::build(&read_hold_21());
    frame.insert(36, 0x00);
    let len = frame.len();
    let crc = modbus_crc(&frame[20..len - 2]);
    frame[len - 2..].copy_from_slice(&crc.to_le_bytes());
    assert_eq!(Parser::parse(&frame), Err(WireError::LengthMismatch));
}

#[test]
fn read_param_parses_with_length_word() {
    let mut frame = vec![0xA1, 0x1A, 0x02, 0x00, 0x12, 0x00, 0x01, 0xC3];
    frame.extend_from_slice(b"2222222222");
    frame.extend_from_slice(&[5, 0, 2, 0, 9, 1]);
    assert_eq!(
        Parser::parse(&frame),
        Ok(Packet::ReadParam(ReadParam { datalog: datalog(), register: 5, values: vec![9, 1] }))
    );
}

#[test]
fn serial_rejects_bad_bytes() {
    assert!(Serial::new(b"222222222").is_none());
    assert!(Serial::new(b"22222222\x0022").is_none());
    assert_eq!(datalog().to_text(), "2222222222");
    assert_eq!(TcpFunction::from_code(0xC2), Some(TcpFunction::TranslatedData));
    assert_eq!(DeviceFunction::from_code(16), Some(DeviceFunction::WriteMulti));
    assert_eq!(DeviceFunction::from_code(5), None);
}

#[test]
fn packet_accessors() {
    let mut p = read_hold_21();
    assert_eq!(p.register(), 21);
    assert_eq!(p.value(), 0x220C);
    assert_eq!(p.inverter(), Some(inverter()));
    assert_eq!(p.protocol(), 1);
    assert_eq!(p.tcp_function(), TcpFunction::TranslatedData);
    let other = Serial::new(b"ABCDEFGHIJ").unwrap();
    p.set_inverter(other);
    p.set_datalog(other);
    assert_eq!(p.inverter(), Some(other));
    assert_eq!(p.datalog(), other);
    let h = Packet::Heartbeat(Heartbeat { datalog: datalog() });
    assert_eq!(h.inverter(), None);
    assert_eq!(h.protocol(), 2);
}

#[test]
fn large_translated_data_frame() {
    let p = Packet::TranslatedData(TranslatedData {
        datalog: datalog(),
        device_function: DeviceFunction::ReadInput,
        inverter: inverter(),
        register: 0,
        values: vec![7; 1000],
    });
    let frame = TcpFrameFactory::build(&p);
    assert_eq!(frame.len(), 1036);
    assert_eq!(u16::from_le_bytes([frame[4], frame[5]]) as usize + 6, frame.len());
    assert_eq!(u16::from_le_bytes([frame[18], frame[19]]) as usize, frame.len() - 20);
}

#[test]
fn write_single_frame_layout() {
    let v: u16 = 0x220C | 0x0080;
    let p = Packet::TranslatedData(TranslatedData {
        datalog: datalog(),
        device_function: DeviceFunction::WriteSingle,
        inverter: inverter(),
        register: 21,
        values: v.to_le_bytes().to_vec(),
    });
    let frame = TcpFrameFactory::build(&p);
    assert_eq!(frame.len(), 38);
    assert_eq!(&frame[2..4], &[1, 0]);
    assert_eq!(frame[7], 0xC2);
    assert_eq!(&frame[18..20], &[18, 0]);
    assert_eq!(frame[21], 6);
    assert_eq!(&frame[32..34], &[21, 0]);
    assert_eq!(u16::from_le_bytes([frame[34], frame[35]]), v);
    assert_eq!(&frame[36..38], &modbus_crc(&frame[20..36]).to_le_bytes());
}
