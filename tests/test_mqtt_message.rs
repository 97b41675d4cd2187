use lxp_bridge::codec::DeviceFunction;
use lxp_bridge::codec::ReadParam;
use lxp_bridge::codec::TranslatedData;
use lxp_bridge::message::Message;
use lxp_bridge::serial::Serial;

const TIME: i64 = 1646370367;

fn datalog() -> Serial {
    Serial::new(b"2222222222").unwrap()
}

fn inverter() -> Serial {
    Serial::new(b"5555555555").unwrap()
}

fn msg(topic: &str, retain: bool, payload: &str) -> Message {
    Message { topic: topic.to_owned(), retain, payload: payload.to_owned() }
}

fn hold(register: u16, values: Vec<u8>) -> TranslatedData {
    TranslatedData {
        datalog: datalog(),
        device_function: DeviceFunction::ReadHold,
        inverter: inverter(),
        register,
        values,
    }
}

fn input(register: u16, values: Vec<u8>) -> TranslatedData {
    TranslatedData {
        datalog: datalog(),
        device_function: DeviceFunction::ReadInput,
        inverter: inverter(),
        register,
        values,
    }
}

#[test]
fn for_param() {
    let packet = ReadParam { datalog: datalog(), register: 0, values: vec![1, 0] };
    assert_eq!(Message::for_param(&packet), vec![msg("2222222222/param/0", true, "1")]);
}

#[test]
fn for_hold_single() {
    assert_eq!(Message::for_hold(&hold(0, vec![1, 0])), vec![msg("2222222222/hold/0", true, "1.0")]);
}

#[test]
fn for_hold_177() {
    assert_eq!(
        Message::for_hold(&hold(177, vec![171, 0])),
        vec![msg("2222222222/hold/177", true, "17.1")]
    );
}

#[test]
fn for_hold_21() {
    assert_eq!(
        Message::for_hold(&hold(21, vec![12, 34])),
        vec![
            msg("2222222222/hold/21", true, "8716.0"),
            msg("2222222222/hold/21/bits", true, "{\"eps_en\":\"OFF\",\"ovf_load_derate_en\":\"OFF\",\"drms_en\":\"ON\",\"lvrt_en\":\"ON\",\"anti_island_en\":\"OFF\",\"neutral_detect_en\":\"OFF\",\"grid_on_power_ss_en\":\"OFF\",\"ac_charge_en\":\"OFF\",\"sw_seamless_en\":\"OFF\",\"set_to_standby\":\"ON\",\"forced_discharge_en\":\"OFF\",\"charge_priority_en\":\"OFF\",\"iso_en\":\"OFF\",\"gfci_en\":\"ON\",\"dci_en\":\"OFF\",\"feed_in_grid_en\":\"OFF\"}"),
        ]
    );
    assert_eq!(
        Message::for_hold(&hold(21, vec![0, 8])),
        vec![
            msg("2222222222/hold/21", true, "2048.0"),
            msg("2222222222/hold/21/bits", true, "{\"eps_en\":\"OFF\",\"ovf_load_derate_en\":\"OFF\",\"drms_en\":\"OFF\",\"lvrt_en\":\"OFF\",\"anti_island_en\":\"OFF\",\"neutral_detect_en\":\"OFF\",\"grid_on_power_ss_en\":\"OFF\",\"ac_charge_en\":\"OFF\",\"sw_seamless_en\":\"OFF\",\"set_to_standby\":\"OFF\",\"forced_discharge_en\":\"OFF\",\"charge_priority_en\":\"ON\",\"iso_en\":\"OFF\",\"gfci_en\":\"OFF\",\"dci_en\":\"OFF\",\"feed_in_grid_en\":\"OFF\"}"),
        ]
    );
}

#[test]
fn for_hold_110() {
    assert_eq!(
        Message::for_hold(&hold(110, vec![9, 4])),
        vec![
            msg("2222222222/hold/110", true, "1033.0"),
            msg("2222222222/hold/110/bits", true, "{\"ub_pv_grid_off_en\":\"ON\",\"ub_run_without_grid\":\"OFF\",\"ub_micro_grid_en\":\"OFF\",\"ub_bat_shared_en\":\"ON\",\"ub_charge_last_en\":\"OFF\",\"ct_sample_ratio\":\"Unknown\",\"buzzer_en\":\"OFF\",\"pv_ct_sample_type\":\"Unknown\",\"take_load_together\":\"ON\",\"on_grid_working_mode\":\"Unknown\",\"pv_ct_sample_ratio\":\"Unknown\",\"green_mode_en\":\"OFF\",\"eco_mode_en\":\"OFF\"}"),
        ]
    );
}

#[test]
fn for_hold_multi() {
    assert_eq!(
        Message::for_hold(&hold(12, vec![22, 6, 7, 8, 9, 0])),
        vec![
            msg("2222222222/hold/12", true, "1558.0"),
            msg("2222222222/hold/13", true, "2055.0"),
            msg("2222222222/hold/14", true, "9.0"),
        ]
    );
}

#[test]
fn for_input() {
    assert_eq!(
        Message::for_input(&input(0, [0; 80].to_vec()), TIME),
        vec![
            msg(&format!("{}/input/status/parsed", "2222222222"), false, "\"Standby\""),
            msg("2222222222/inputs/1", false, "{\"status\":0,\"v_pv_1\":0.0,\"v_pv_2\":0.0,\"v_pv_3\":0.0,\"v_bat\":0.0,\"soc\":0,\"soh\":0,\"internal_fault\":0,\"p_pv\":0,\"p_pv_1\":0,\"p_pv_2\":0,\"p_pv_3\":0,\"p_battery\":0,\"p_charge\":0,\"p_discharge\":0,\"v_ac_r\":0.0,\"v_ac_s\":0.0,\"v_ac_t\":0.0,\"f_ac\":0.0,\"p_inv\":0,\"p_rec\":0,\"pf\":0.0,\"v_eps_r\":0.0,\"v_eps_s\":0.0,\"v_eps_t\":0.0,\"f_eps\":0.0,\"p_eps\":0,\"s_eps\":0,\"p_grid\":0,\"p_to_grid\":0,\"p_to_user\":0,\"e_pv_day\":0.0,\"e_pv_day_1\":0.0,\"e_pv_day_2\":0.0,\"e_pv_day_3\":0.0,\"e_inv_day\":0.0,\"e_rec_day\":0.0,\"e_chg_day\":0.0,\"e_dischg_day\":0.0,\"e_eps_day\":0.0,\"e_to_grid_day\":0.0,\"e_to_user_day\":0.0,\"v_bus_1\":0.0,\"v_bus_2\":0.0,\"time\":1646370367,\"datalog\":\"2222222222\"}"),
        ]
    );

    assert_eq!(
        Message::for_input(&input(0, [0; 4].to_vec()), TIME),
        vec![msg("2222222222/input/status/parsed", false, "\"Standby\"")]
    );

    assert_eq!(
        Message::for_input(&input(80, [255; 80].to_vec()), TIME),
        vec![
            msg("2222222222/input/register_113/parsed", false, "{\"master_or_slave\":\"Unknown\",\"single_or_three_phase\":\"T\",\"phases_sequence\":\"Unknown\",\"parallel_num\":255}"),
            msg("2222222222/inputs/3", false, r#"{"max_chg_curr":6553.5,"max_dischg_curr":6553.5,"charge_volt_ref":6553.5,"dischg_cut_volt":6553.5,"bat_status_0":65535,"bat_status_1":65535,"bat_status_2":65535,"bat_status_3":65535,"bat_status_4":65535,"bat_status_5":65535,"bat_status_6":65535,"bat_status_7":65535,"bat_status_8":65535,"bat_status_9":65535,"bat_status_inv":65535,"bat_count":65535,"bat_capacity":65535,"bat_current":655.35,"bms_event_1":65535,"bms_event_2":65535,"max_cell_voltage":65.535,"min_cell_voltage":65.535,"max_cell_temp":6553.5,"min_cell_temp":6553.5,"bms_fw_update_state":65535,"cycle_count":65535,"vbat_inv":6553.5,"t1_temp":6553.5,"register_113":65535,"p_on_grid_load":65535,"time":1646370367,"datalog":"2222222222"}"#),
        ]
    );
}

#[test]
fn for_input_warning_codes() {
    assert_eq!(
        Message::for_input(&input(62, [0, 0, 0, 0].to_vec()), TIME),
        vec![msg("2222222222/input/warning_code/parsed", false, "\"OK\"")]
    );
    assert_eq!(
        Message::for_input(&input(62, [0, 0, 0, 128].to_vec()), TIME),
        vec![msg("2222222222/input/warning_code/parsed", false, "\"W031: DCV high\"")]
    );
}

#[test]
fn for_input_fault_codes() {
    assert_eq!(
        Message::for_input(&input(60, [0, 0, 0, 0].to_vec()), TIME),
        vec![msg("2222222222/input/fault_code/parsed", false, "\"OK\"")]
    );
    assert_eq!(
        Message::for_input(&input(60, [1, 0, 0, 0].to_vec()), TIME),
        vec![msg("2222222222/input/fault_code/parsed", false, "\"E000: Internal communication fault 1\"")]
    );
}

#[test]
fn long_form_127_publishes_each_field() {
    let mut got = Message::for_input(&input(127, [0; 254].to_vec()), TIME);
    let mut expected = vec![
        msg("2222222222/input/register_144/parsed", false, "{\"afci_flag_arc_alarm_ch1\":\"OFF\",\"afci_flag_arc_alarm_ch2\":\"OFF\",\"afci_flag_arc_alarm_ch3\":\"OFF\",\"afci_flag_arc_alarm_ch4\":\"OFF\",\"afci_flag_self_test_fail_ch1\":\"OFF\",\"afci_flag_self_test_fail_ch2\":\"OFF\",\"afci_flag_self_test_fail_ch3\":\"OFF\",\"afci_flag_self_test_fail_ch4\":\"OFF\"}"),
        msg("2222222222/input/afci_arc_ch1/parsed", false, "0"),
        msg("2222222222/input/afci_arc_ch2/parsed", false, "0"),
        msg("2222222222/input/afci_arc_ch3/parsed", false, "0"),
        msg("2222222222/input/afci_arc_ch4/parsed", false, "0"),
        msg("2222222222/input/afci_ch1_current/parsed", false, "0"),
        msg("2222222222/input/afci_ch2_current/parsed", false, "0"),
        msg("2222222222/input/afci_ch3_current/parsed", false, "0"),
        msg("2222222222/input/afci_ch4_current/parsed", false, "0"),
        msg("2222222222/input/afci_max_arc_ch1/parsed", false, "0"),
        msg("2222222222/input/afci_max_arc_ch2/parsed", false, "0"),
        msg("2222222222/input/afci_max_arc_ch3/parsed", false, "0"),
        msg("2222222222/input/afci_max_arc_ch4/parsed", false, "0"),
        msg("2222222222/input/datalog/parsed", false, "\"2222222222\""),
        msg("2222222222/input/e_eps_l1_all/parsed", false, "0.0"),
        msg("2222222222/input/e_eps_l1_day/parsed", false, "0.0"),
        msg("2222222222/input/e_eps_l2_all/parsed", false, "0.0"),
        msg("2222222222/input/e_eps_l2_day/parsed", false, "0.0"),
        msg("2222222222/input/e_load_all/parsed", false, "0.0"),
        msg("2222222222/input/e_load_day/parsed", false, "0.0"),
        msg("2222222222/input/eps_overload_ctrl_time/parsed", false, "0"),
        msg("2222222222/input/inv_rms_curr_s/parsed", false, "0.0"),
        msg("2222222222/input/inv_rms_curr_t/parsed", false, "0.0"),
        msg("2222222222/input/p_ac_couple/parsed", false, "0"),
        msg("2222222222/input/p_eps_l1/parsed", false, "0"),
        msg("2222222222/input/p_eps_l2/parsed", false, "0"),
        msg("2222222222/input/p_gen_s/parsed", false, "0"),
        msg("2222222222/input/p_gen_t/parsed", false, "0"),
        msg("2222222222/input/p_inv_l1/parsed", false, "0"),
        msg("2222222222/input/p_inv_l2/parsed", false, "0"),
        msg("2222222222/input/p_inv_s/parsed", false, "0"),
        msg("2222222222/input/p_inv_t/parsed", false, "0"),
        msg("2222222222/input/p_load/parsed", false, "0"),
        msg("2222222222/input/p_rec_l1/parsed", false, "0"),
        msg("2222222222/input/p_rec_l2/parsed", false, "0"),
        msg("2222222222/input/p_rec_s/parsed", false, "0"),
        msg("2222222222/input/p_rec_t/parsed", false, "0"),
        msg("2222222222/input/p_to_grid_l1/parsed", false, "0"),
        msg("2222222222/input/p_to_grid_l2/parsed", false, "0"),
        msg("2222222222/input/p_to_grid_s/parsed", false, "0"),
        msg("2222222222/input/p_to_grid_t/parsed", false, "0"),
        msg("2222222222/input/p_to_user_l1/parsed", false, "0"),
        msg("2222222222/input/p_to_user_l2/parsed", false, "0"),
        msg("2222222222/input/p_to_user_s/parsed", false, "0"),
        msg("2222222222/input/p_to_user_t/parsed", false, "0"),
        msg("2222222222/input/pf_s/parsed", false, "0.0"),
        msg("2222222222/input/pf_t/parsed", false, "0.0"),
        msg("2222222222/input/s_eps_l1/parsed", false, "0"),
        msg("2222222222/input/s_eps_l2/parsed", false, "0"),
        msg("2222222222/input/time/parsed", false, "1646370367"),
        msg("2222222222/input/v_eps_l1/parsed", false, "0.0"),
        msg("2222222222/input/v_eps_l2/parsed", false, "0.0"),
        msg("2222222222/input/v_gen_l1/parsed", false, "0.0"),
        msg("2222222222/input/v_gen_l2/parsed", false, "0.0"),
        msg("2222222222/input/v_grid_l1/parsed", false, "0.0"),
        msg("2222222222/input/v_grid_l2/parsed", false, "0.0"),
    ];
    got.sort_by(|a, b| a.topic.cmp(&b.topic));
    expected.sort_by(|a, b| a.topic.cmp(&b.topic));
    assert_eq!(got, expected);
}

#[test]
fn fault_code_lowest_bit_wins() {
    assert_eq!(
        Message::for_input(&input(60, [0x06, 0, 0, 0x80].to_vec()), TIME),
        vec![msg("2222222222/input/fault_code/parsed", false, "\"E001: Model fault\"")]
    );
}

#[test]
fn hold_configured_scales() {
    assert_eq!(
        Message::for_hold(&hold(237, vec![25, 0])),
        vec![msg("2222222222/hold/237", true, "2.5")]
    );
    assert_eq!(
        Message::for_hold(&hold(198, vec![7, 0])),
        vec![msg("2222222222/hold/198", true, "7.0")]
    );
}

#[test]
fn hold_messages_are_retained_inputs_are_not() {
    assert!(Message::for_hold(&hold(21, vec![1, 2, 3, 4])).iter().all(|m| m.retain));
    assert!(Message::for_input(&input(40, [0; 80].to_vec()), TIME).iter().all(|m| !m.retain));
}

#[test]
fn publishing_twice_is_identical() {
    let a = Message::for_input(&input(0, [7; 254].to_vec()), TIME);
    let b = Message::for_input(&input(0, [7; 254].to_vec()), TIME);
    assert_eq!(a, b);
}

#[test]
fn datalog_text_is_escaped_in_json() {
    let d = Serial::new(b"22\"22\\2222").unwrap();
    let td = TranslatedData {
        datalog: d,
        device_function: DeviceFunction::ReadInput,
        inverter: inverter(),
        register: 127,
        values: vec![0; 254],
    };
    let r = Message::for_input(&td, TIME);
    let last = r.last().unwrap();
    assert_eq!(last.topic, "22\"22\\2222/input/datalog/parsed");
    assert_eq!(last.payload, "\"22\\\"22\\\\2222\"");
}
