use lxp_bridge::bits::Input113Bits;
use lxp_bridge::bits::Input71Bits;
use lxp_bridge::bits::Register179Bits;
use lxp_bridge::bits::Register21Bits;
use lxp_bridge::bits::Register224Bits;
use lxp_bridge::labels::FaultCodeString;
use lxp_bridge::labels::GridTypeString;
use lxp_bridge::labels::StatusString;
use lxp_bridge::labels::WarningCodeString;
use lxp_bridge::register::find_register_config;
use lxp_bridge::register::Register;

#[test]
fn register_21_bits() {
    let b = Register21Bits::new(0x220C);
    assert_eq!(b.drms_en, "ON");
    assert_eq!(b.lvrt_en, "ON");
    assert_eq!(b.set_to_standby, "ON");
    assert_eq!(b.gfci_en, "ON");
    assert_eq!(b.dci_en, "OFF");
    assert_eq!(b.eps_en, "OFF");
}

#[test]
fn packed_fields() {
    let p = Input113Bits::new(0x0516);
    assert_eq!(p.master_or_slave, "Slave");
    assert_eq!(p.single_or_three_phase, "R");
    assert_eq!(p.phases_sequence, "Negative Order");
    assert_eq!(p.parallel_num, 5);
    let t = Input71Bits::new(0x0351);
    assert_eq!(t.auto_test_start, "Started");
    assert_eq!(t.ub_auto_test_status, "Test Pass");
    assert_eq!(t.ub_auto_test_step, "F1L Test");
    let r = Register179Bits::new(0x4000);
    assert_eq!(r.ub_rsd_disable, "OFF");
    assert_eq!(r.ac_ct_direction, "Normal");
    let l = Register224Bits::new(0x1303);
    assert_eq!(l.lcd_version, 3);
    assert_eq!(l.lcd_screen_type, "Screen of S size");
    assert_eq!(l.lcd_odm, "Customized");
    assert_eq!(l.lcd_machine_model_code, "Tri-Phase 20k");
    assert_eq!(Input113Bits::json(0x0100), "{\"master_or_slave\":\"Unknown\",\"single_or_three_phase\":\"Unknown\",\"phases_sequence\":\"Positive Order\",\"parallel_num\":1}");
}

#[test]
fn status_and_code_messages() {
    assert_eq!(StatusString::from_value(0), "Standby");
    assert_eq!(StatusString::from_value(0x0C), "PV Charge & On-grid");
    assert_eq!(StatusString::from_value(0x03), "Unknown");
    assert_eq!(GridTypeString::from_value(4), "Split 200V/100V");
    assert_eq!(FaultCodeString::from_value(0), "OK");
    assert_eq!(FaultCodeString::from_value(1), "E000: Internal communication fault 1");
    assert_eq!(FaultCodeString::from_value(0x8000_0000), "E031: Internal communication fault 4");
    assert_eq!(WarningCodeString::from_value(0x0000_0300), "W008: FW version mismatch");
    assert_eq!(WarningCodeString::from_bit(31), "W031: DCV high");
}

#[test]
fn register_configs() {
    let c = find_register_config(177).unwrap();
    assert_eq!(c.register, Register::GenRatePower);
    assert_eq!(c.divisor, 10);
    assert_eq!(c.unit_of_measurement, "kW");
    assert!(find_register_config(21).is_none());
    assert_eq!(Register::AcChargePowerCmd.value(), 66);
    assert_eq!(Register::FunctionEnable1.name(), "FunctionEnable1");
}
