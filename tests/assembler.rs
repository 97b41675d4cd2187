use lxp_bridge::assembler::DecodeError;
use lxp_bridge::assembler::InputAssembler;
use lxp_bridge::assembler::ReadInput;
use lxp_bridge::assembler::ReadInputs;
use lxp_bridge::codec::DeviceFunction;
use lxp_bridge::codec::TranslatedData;
use lxp_bridge::message::Message;
use lxp_bridge::serial::Serial;

fn input(register: u16, values: Vec<u8>) -> TranslatedData {
    TranslatedData {
        datalog: Serial::new(b"2222222222").unwrap(),
        device_function: DeviceFunction::ReadInput,
        inverter: Serial::new(b"5555555555").unwrap(),
        register,
        values,
    }
}

#[test]
fn full_snapshot_from_three_windows() {
    let mut inputs = ReadInputs::new();
    let mut published = Vec::new();
    let mut assembled = None;
    for register in [0u16, 40, 80] {
        let w = input(register, vec![0; 80]).read_input(100).unwrap();
        published.extend(Message::for_input_window(&w));
        assembled = inputs.accept(w, 200);
    }
    let snapshots: Vec<&Message> = published.iter().filter(|m| m.topic.contains("/inputs/")).collect();
    let topics: Vec<&str> = snapshots.iter().map(|m| m.topic.as_str()).collect();
    assert_eq!(topics, vec!["2222222222/inputs/1", "2222222222/inputs/2", "2222222222/inputs/3"]);
    assert!(snapshots.iter().all(|m| !m.retain));
    let all = assembled.expect("all three windows arrived");
    assert_eq!(all.time, 200);
    assert_eq!(all.p_pv, 0);
    assert_eq!(all.p_grid, 0);
    assert_eq!(all.p_battery, 0);
    let msgs = Message::for_input_all(&all);
    assert!(msgs.contains(&Message { topic: "2222222222/input/p_pv/parsed".to_owned(), retain: false, payload: "0".to_owned() }));
    assert!(msgs.contains(&Message { topic: "2222222222/input/p_grid/parsed".to_owned(), retain: false, payload: "0".to_owned() }));
    assert!(msgs.contains(&Message { topic: "2222222222/input/p_battery/parsed".to_owned(), retain: false, payload: "0".to_owned() }));
}

#[test]
fn snapshot_waits_for_all_windows() {
    let mut inputs = ReadInputs::new();
    assert!(inputs.accept(input(0, vec![0; 80]).read_input(1).unwrap(), 50).is_none());
    assert!(inputs.accept(input(80, vec![0; 80]).read_input(1).unwrap(), 50).is_none());
    assert!(inputs.to_input_all(1).is_none());
    assert!(inputs.accept(input(40, vec![0; 80]).read_input(1).unwrap(), 50).is_some());
}

#[test]
fn derived_fields_of_window_one() {
    let mut v = vec![0u8; 80];
    v[14] = 10; // p_pv_1
    v[16] = 20; // p_pv_2
    v[18] = 30; // p_pv_3
    v[20] = 5; // p_charge
    v[22] = 9; // p_discharge
    v[52] = 3; // p_to_grid
    v[54] = 1; // p_to_user
    v[56] = 11; // e_pv_day_1
    v[58] = 22; // e_pv_day_2
    v[60] = 33; // e_pv_day_3
    match input(0, v).read_input(7).unwrap() {
        ReadInput::ReadInput1(r) => {
            assert_eq!(r.p_pv, 60);
            assert_eq!(r.p_battery, -4);
            assert_eq!(r.p_grid, -2);
            assert_eq!(r.e_pv_day, 66);
            assert_eq!(r.time, 7);
            let json = r.json();
            assert!(json.contains("\"p_battery\":-4"));
            assert!(json.contains("\"e_pv_day\":6.6"));
            assert!(json.contains("\"e_pv_day_1\":1.1"));
        }
        _ => panic!("window 1 expected"),
    }
}

#[test]
fn unhandled_window() {
    assert!(matches!(input(40, vec![0; 4]).read_input(0), Err(DecodeError::UnhandledInputWindow)));
    assert!(matches!(input(120, vec![0; 80]).read_input(0), Err(DecodeError::UnhandledInputWindow)));
}

#[test]
fn signed_fields_keep_their_sign() {
    let mut v = vec![0u8; 80];
    v[48] = 0xFF; // t_inner = -1
    v[49] = 0xFF;
    match input(40, v).read_input(0).unwrap() {
        ReadInput::ReadInput2(r) => {
            assert_eq!(r.t_inner, -1);
            assert!(r.json().contains("\"t_inner\":-1"));
        }
        _ => panic!("window 2 expected"),
    }
}

#[test]
fn windows_are_kept_apart_by_datalog() {
    let other = |register: u16| TranslatedData {
        datalog: Serial::new(b"3333333333").unwrap(),
        device_function: DeviceFunction::ReadInput,
        inverter: Serial::new(b"5555555555").unwrap(),
        register,
        values: vec![1; 80],
    };
    let mut a = InputAssembler::new();
    assert!(a.accept(input(0, vec![0; 80]).read_input(1).unwrap(), 60).is_none());
    assert!(a.accept(other(40).read_input(1).unwrap(), 60).is_none());
    assert!(a.accept(other(0).read_input(1).unwrap(), 60).is_none());
    assert!(a.accept(input(40, vec![0; 80]).read_input(1).unwrap(), 60).is_none());
    let all = a.accept(input(80, vec![0; 80]).read_input(1).unwrap(), 60).unwrap();
    assert_eq!(all.datalog, Serial::new(b"2222222222").unwrap());
    assert_eq!(a.datalogs.len(), 2);
    let all2 = a.accept(other(80).read_input(2).unwrap(), 60).unwrap();
    assert_eq!(all2.datalog, Serial::new(b"3333333333").unwrap());
    assert_eq!(all2.p_pv, 3 * 257);
}
