use lxp_bridge::assembler::InputAssembler;
use lxp_bridge::bridge::handle_packet;
use lxp_bridge::codec::DeviceFunction;
use lxp_bridge::codec::Heartbeat;
use lxp_bridge::codec::Packet;
use lxp_bridge::codec::Parser;
use lxp_bridge::codec::TcpFrameFactory;
use lxp_bridge::codec::TranslatedData;
use lxp_bridge::message::Message;
use lxp_bridge::serial::Serial;

fn packet(function: DeviceFunction, register: u16, values: Vec<u8>) -> Packet {
    Packet::TranslatedData(TranslatedData {
        datalog: Serial::new(b"2222222222").unwrap(),
        device_function: function,
        inverter: Serial::new(b"5555555555").unwrap(),
        register,
        values,
    })
}

fn has(ms: &[Message], topic: &str, payload: &str) -> bool {
    ms.iter().any(|m| m.topic == topic && m.payload == payload && !m.retain)
}

#[test]
fn three_windows_publish_snapshots_and_the_full_set() {
    let mut a = InputAssembler::new();
    let m1 = handle_packet(&mut a, &packet(DeviceFunction::ReadInput, 0, vec![0; 80]), 9);
    let m2 = handle_packet(&mut a, &packet(DeviceFunction::ReadInput, 40, vec![0; 80]), 9);
    let m3 = handle_packet(&mut a, &packet(DeviceFunction::ReadInput, 80, vec![0; 80]), 9);
    let snapshots = |ms: &[Message]| ms.iter().filter(|m| m.topic.contains("/inputs/")).count();
    assert_eq!(snapshots(&m1), 1);
    assert_eq!(snapshots(&m2), 1);
    assert_eq!(snapshots(&m3), 1);
    assert!(m1.iter().any(|m| m.topic == "2222222222/inputs/1" && !m.retain));
    assert!(m2.iter().any(|m| m.topic == "2222222222/inputs/2" && !m.retain));
    assert!(m3.iter().any(|m| m.topic == "2222222222/inputs/3" && !m.retain));
    assert!(!has(&m2, "2222222222/input/p_pv/parsed", "0"));
    assert!(has(&m3, "2222222222/input/p_pv/parsed", "0"));
    assert!(has(&m3, "2222222222/input/p_grid/parsed", "0"));
    assert!(has(&m3, "2222222222/input/p_battery/parsed", "0"));
    assert!(has(&m3, "2222222222/input/status/parsed", "\"Standby\""));
}

#[test]
fn frames_route_by_kind() {
    let mut a = InputAssembler::new();
    let frame = TcpFrameFactory::build(&packet(DeviceFunction::ReadHold, 177, vec![171, 0]));
    let p = Parser::parse(&frame).unwrap();
    let ms = handle_packet(&mut a, &p, 0);
    assert_eq!(ms, vec![Message { topic: "2222222222/hold/177".to_owned(), retain: true, payload: "17.1".to_owned() }]);
    let hb = Packet::Heartbeat(Heartbeat { datalog: Serial::new(b"2222222222").unwrap() });
    assert!(handle_packet(&mut a, &hb, 0).is_empty());
    assert!(handle_packet(&mut a, &packet(DeviceFunction::ReadHold, 1, vec![1, 2, 3]), 0).is_empty());
    assert!(handle_packet(&mut a, &packet(DeviceFunction::WriteMulti, 1, vec![1, 2]), 0).is_empty());
    let single = handle_packet(&mut a, &packet(DeviceFunction::ReadInput, 60, vec![1, 0, 0, 0]), 0);
    assert!(has(&single, "2222222222/input/fault_code/parsed", "\"E000: Internal communication fault 1\""));
    assert_eq!(a.datalogs.len(), 0);
}
