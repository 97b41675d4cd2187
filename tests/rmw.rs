use lxp_bridge::command::parse_command;
use lxp_bridge::command::Command;
use lxp_bridge::rmw::RmwError;
use lxp_bridge::rmw::RmwOutcome;
use lxp_bridge::rmw::RmwTracker;
use lxp_bridge::serial::Serial;

#[test]
fn ac_charge_on_read_modify_write() {
    let d = Serial::new(b"2222222222").unwrap();
    let c = parse_command("lxp", &d, "lxp/cmd/2222222222/set/ac_charge", "on").unwrap();
    let mut t = RmwTracker::new();
    match c {
        Command::ReadModifyWrite { register, mask, set } => {
            assert_eq!(t.start(register, mask, set, 100), Ok(()));
            assert_eq!(t.start(register, mask, set, 101), Err(RmwError::Busy));
            assert_eq!(t.on_reply(21, 0x220C, 103), RmwOutcome::Write { register: 21, value: 0x228C });
            assert_eq!(t.on_reply(21, 0x220C, 103), RmwOutcome::NotPending);
        }
        _ => panic!("read-modify-write expected"),
    }
}

#[test]
fn late_replies_are_abandoned() {
    let mut t = RmwTracker::new();
    t.start(21, 0x0400, false, 10).unwrap();
    t.start(110, 0x0001, true, 12).unwrap();
    assert_eq!(t.on_reply(21, 0xFFFF, 16), RmwOutcome::Expired { register: 21 });
    assert_eq!(t.expire(17), Vec::<u16>::new());
    assert_eq!(t.expire(18), vec![110]);
    assert!(t.pending.is_empty());
    t.start(21, 0x0400, false, 20).unwrap();
    assert_eq!(t.expire(25), Vec::<u16>::new());
    assert_eq!(t.on_reply(21, 0xFFFF, 25), RmwOutcome::Write { register: 21, value: 0xFBFF });
}
