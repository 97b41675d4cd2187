use lxp_bridge::codec::DeviceFunction;
use lxp_bridge::codec::Packet;
use lxp_bridge::codec::TranslatedData;
use lxp_bridge::command::parse_command;
use lxp_bridge::command::rmw_value;
use lxp_bridge::command::Command;
use lxp_bridge::command::CommandError;
use lxp_bridge::serial::Serial;

fn datalog() -> Serial {
    Serial::new(b"2222222222").unwrap()
}

#[test]
fn ac_charge_on_reads_then_sets_bit_7() {
    let c = parse_command("lxp", &datalog(), "lxp/cmd/2222222222/set/ac_charge", "on");
    assert_eq!(c, Ok(Command::ReadModifyWrite { register: 21, mask: 0x0080, set: true }));
    let inverter = Serial::new(b"5555555555").unwrap();
    let read = TranslatedData::read_hold(datalog(), inverter, 21, 1);
    match read {
        Packet::TranslatedData(t) => {
            assert_eq!(t.device_function, DeviceFunction::ReadHold);
            assert_eq!(t.register, 21);
        }
        _ => panic!("read expected"),
    }
    let v = 0x220C;
    let write = TranslatedData::write_single(datalog(), inverter, 21, rmw_value(v, 0x0080, true));
    match write {
        Packet::TranslatedData(t) => {
            assert_eq!(t.device_function, DeviceFunction::WriteSingle);
            assert_eq!(t.register, 21);
            assert_eq!(t.values, vec![0x8C, 0x22]);
        }
        _ => panic!("write expected"),
    }
}

#[test]
fn switch_commands() {
    let d = datalog();
    assert_eq!(
        parse_command("lxp", &d, "lxp/cmd/2222222222/set/charge_priority", "off"),
        Ok(Command::ReadModifyWrite { register: 21, mask: 0x0800, set: false })
    );
    assert_eq!(
        parse_command("lxp", &d, "lxp/cmd/2222222222/set/forced_discharge", "on"),
        Ok(Command::ReadModifyWrite { register: 21, mask: 0x0400, set: true })
    );
    assert_eq!(
        parse_command("lxp", &d, "lxp/cmd/2222222222/set/ac_charge", "maybe"),
        Err(CommandError::BadPayload)
    );
    assert_eq!(rmw_value(0x0FFF, 0x0800, false), 0x07FF);
}

#[test]
fn hold_commands() {
    let d = datalog();
    assert_eq!(
        parse_command("lxp", &d, "lxp/cmd/2222222222/set/hold/66", "80"),
        Ok(Command::WriteSingle { register: 66, value: 80 })
    );
    assert_eq!(
        parse_command("lxp", &d, "lxp/cmd/2222222222/set/hold/66", "70000"),
        Err(CommandError::BadPayload)
    );
    assert_eq!(
        parse_command("lxp", &d, "lxp/cmd/2222222222/set/hold/x", "1"),
        Err(CommandError::UnknownCommand)
    );
    assert_eq!(
        parse_command("lxp", &d, "lxp/cmd/1111111111/set/ac_charge", "on"),
        Err(CommandError::UnknownCommand)
    );
    assert_eq!(
        parse_command("lxp", &d, "lxp/cmd/2222222222/set/unknown", "on"),
        Err(CommandError::UnknownCommand)
    );
}

#[test]
fn time_slot_commands() {
    let d = datalog();
    assert_eq!(
        parse_command("lxp", &d, "lxp/cmd/2222222222/set/ac_charge/1", "01:30-05:00"),
        Ok(Command::TimeSlot { register: 68, start: 1 + 256 * 30, end: 5 })
    );
    assert_eq!(
        parse_command("lxp", &d, "lxp/cmd/2222222222/set/forced_discharge/3", "9:05-23:59"),
        Ok(Command::TimeSlot { register: 88, start: 9 + 256 * 5, end: 23 + 256 * 59 })
    );
    assert_eq!(
        parse_command("lxp", &d, "lxp/cmd/2222222222/set/ac_first/2", "00:00-00:00"),
        Ok(Command::TimeSlot { register: 154, start: 0, end: 0 })
    );
    assert_eq!(
        parse_command("lxp", &d, "lxp/cmd/2222222222/set/charge_priority/1", "24:00-01:00"),
        Err(CommandError::BadPayload)
    );
    assert_eq!(
        parse_command("lxp", &d, "lxp/cmd/2222222222/set/ac_charge/4", "01:00-02:00"),
        Err(CommandError::UnknownCommand)
    );
}
