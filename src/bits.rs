use vstd::prelude::*;
use vstd::string::StringExecFns;

use crate::text::json_member;
use crate::text::json_quoted;
use crate::text::decimal_text;
use crate::text::json_string;
use crate::text::nat_to_text;
use crate::text::push_member;
use crate::text::push_char;

verus! {

pub open spec fn auto_test_start_label(v: u16) -> Seq<char> {
    if v == 0 {
        "Not Started"@
    } else if v == 1 {
        "Started"@
    } else {
        "Unknown"@
    }
}

fn auto_test_start_string(v: u16) -> (r: String)
    ensures
        r@ == auto_test_start_label(v),
{
    if v == 0 {
        String::from_str("Not Started")
    } else if v == 1 {
        String::from_str("Started")
    } else {
        String::from_str("Unknown")
    }
}

pub open spec fn auto_test_status_label(v: u16) -> Seq<char> {
    if v == 0 {
        "Waiting"@
    } else if v == 1 {
        "Testing"@
    } else if v == 2 {
        "Test Fail"@
    } else if v == 3 {
        "V Test OK"@
    } else if v == 4 {
        "F Test OK"@
    } else if v == 5 {
        "Test Pass"@
    } else {
        "Unknown"@
    }
}

fn auto_test_status_string(v: u16) -> (r: String)
    ensures
        r@ == auto_test_status_label(v),
{
    if v == 0 {
        String::from_str("Waiting")
    } else if v == 1 {
        String::from_str("Testing")
    } else if v == 2 {
        String::from_str("Test Fail")
    } else if v == 3 {
        String::from_str("V Test OK")
    } else if v == 4 {
        String::from_str("F Test OK")
    } else if v == 5 {
        String::from_str("Test Pass")
    } else {
        String::from_str("Unknown")
    }
}

pub open spec fn auto_test_step_label(v: u16) -> Seq<char> {
    if v == 1 {
        "V1L Test"@
    } else if v == 2 {
        "V1H Test"@
    } else if v == 3 {
        "F1L Test"@
    } else if v == 4 {
        "F1H Test"@
    } else if v == 5 {
        "V2L Test"@
    } else if v == 6 {
        "V2H Test"@
    } else if v == 7 {
        "F2L Test"@
    } else if v == 8 {
        "F2H Test"@
    } else {
        "Unknown"@
    }
}

fn auto_test_step_string(v: u16) -> (r: String)
    ensures
        r@ == auto_test_step_label(v),
{
    if v == 1 {
        String::from_str("V1L Test")
    } else if v == 2 {
        String::from_str("V1H Test")
    } else if v == 3 {
        String::from_str("F1L Test")
    } else if v == 4 {
        String::from_str("F1H Test")
    } else if v == 5 {
        String::from_str("V2L Test")
    } else if v == 6 {
        String::from_str("V2H Test")
    } else if v == 7 {
        String::from_str("F2L Test")
    } else if v == 8 {
        String::from_str("F2H Test")
    } else {
        String::from_str("Unknown")
    }
}

pub open spec fn ac_input_type_label(v: u16) -> Seq<char> {
    if v == 0 {
        "Grid"@
    } else if v == 1 {
        "Generator"@
    } else {
        "Unknown"@
    }
}

fn ac_input_type_string(v: u16) -> (r: String)
    ensures
        r@ == ac_input_type_label(v),
{
    if v == 0 {
        String::from_str("Grid")
    } else if v == 1 {
        String::from_str("Generator")
    } else {
        String::from_str("Unknown")
    }
}

pub open spec fn master_or_slave_label(v: u16) -> Seq<char> {
    if v == 1 {
        "Master"@
    } else if v == 2 {
        "Slave"@
    } else {
        "Unknown"@
    }
}

fn master_or_slave_string(v: u16) -> (r: String)
    ensures
        r@ == master_or_slave_label(v),
{
    if v == 1 {
        String::from_str("Master")
    } else if v == 2 {
        String::from_str("Slave")
    } else {
        String::from_str("Unknown")
    }
}

pub open spec fn single_or_three_phase_label(v: u16) -> Seq<char> {
    if v == 1 {
        "R"@
    } else if v == 2 {
        "S"@
    } else if v == 3 {
        "T"@
    } else {
        "Unknown"@
    }
}

fn single_or_three_phase_string(v: u16) -> (r: String)
    ensures
        r@ == single_or_three_phase_label(v),
{
    if v == 1 {
        String::from_str("R")
    } else if v == 2 {
        String::from_str("S")
    } else if v == 3 {
        String::from_str("T")
    } else {
        String::from_str("Unknown")
    }
}

pub open spec fn phases_sequence_label(v: u16) -> Seq<char> {
    if v == 0 {
        "Positive Order"@
    } else if v == 1 {
        "Negative Order"@
    } else {
        "Unknown"@
    }
}

fn phases_sequence_string(v: u16) -> (r: String)
    ensures
        r@ == phases_sequence_label(v),
{
    if v == 0 {
        String::from_str("Positive Order")
    } else if v == 1 {
        String::from_str("Negative Order")
    } else {
        String::from_str("Unknown")
    }
}

pub open spec fn ac_charge_type_12k_hybrid_label(v: u16) -> Seq<char> {
    if v == 0 {
        "According to time"@
    } else if v == 1 {
        "According to state of charge and voltage"@
    } else {
        "Unknown"@
    }
}

fn ac_charge_type_12k_hybrid_string(v: u16) -> (r: String)
    ensures
        r@ == ac_charge_type_12k_hybrid_label(v),
{
    if v == 0 {
        String::from_str("According to time")
    } else if v == 1 {
        String::from_str("According to state of charge and voltage")
    } else {
        String::from_str("Unknown")
    }
}

pub open spec fn discharge_ctrl_type_label(v: u16) -> Seq<char> {
    if v == 0 {
        "According to voltage"@
    } else if v == 1 {
        "According to state of charge"@
    } else if v == 2 {
        "According to state of charge and voltage"@
    } else {
        "Unknown"@
    }
}

fn discharge_ctrl_type_string(v: u16) -> (r: String)
    ensures
        r@ == discharge_ctrl_type_label(v),
{
    if v == 0 {
        String::from_str("According to voltage")
    } else if v == 1 {
        String::from_str("According to state of charge")
    } else if v == 2 {
        String::from_str("According to state of charge and voltage")
    } else {
        String::from_str("Unknown")
    }
}

pub open spec fn on_grid_eod_type_label(v: u16) -> Seq<char> {
    if v == 0 {
        "According to voltage"@
    } else if v == 1 {
        "According to state of charge"@
    } else {
        "Unknown"@
    }
}

fn on_grid_eod_type_string(v: u16) -> (r: String)
    ensures
        r@ == on_grid_eod_type_label(v),
{
    if v == 0 {
        String::from_str("According to voltage")
    } else if v == 1 {
        String::from_str("According to state of charge")
    } else {
        String::from_str("Unknown")
    }
}

pub open spec fn gen_charge_type_label(v: u16) -> Seq<char> {
    if v == 0 {
        "According to voltage"@
    } else if v == 1 {
        "According to state of charge"@
    } else {
        "Unknown"@
    }
}

fn gen_charge_type_string(v: u16) -> (r: String)
    ensures
        r@ == gen_charge_type_label(v),
{
    if v == 0 {
        String::from_str("According to voltage")
    } else if v == 1 {
        String::from_str("According to state of charge")
    } else {
        String::from_str("Unknown")
    }
}

pub open spec fn lcd_screen_type_label(v: u16) -> Seq<char> {
    if v == 0 {
        "Screen of B size"@
    } else if v == 1 {
        "Screen of S size"@
    } else {
        "Unknown"@
    }
}

fn lcd_screen_type_string(v: u16) -> (r: String)
    ensures
        r@ == lcd_screen_type_label(v),
{
    if v == 0 {
        String::from_str("Screen of B size")
    } else if v == 1 {
        String::from_str("Screen of S size")
    } else {
        String::from_str("Unknown")
    }
}

pub open spec fn lcd_odm_label(v: u16) -> Seq<char> {
    if v == 0 {
        "Luxpower"@
    } else if v == 1 {
        "Customized"@
    } else {
        "Unknown"@
    }
}

fn lcd_odm_string(v: u16) -> (r: String)
    ensures
        r@ == lcd_odm_label(v),
{
    if v == 0 {
        String::from_str("Luxpower")
    } else if v == 1 {
        String::from_str("Customized")
    } else {
        String::from_str("Unknown")
    }
}

pub open spec fn lcd_machine_model_code_label(v: u16) -> Seq<char> {
    if v == 0 {
        "LXP 12K"@
    } else if v == 1 {
        "All-in-one"@
    } else if v == 2 {
        "Tri-Phase 20k"@
    } else {
        "Unknown"@
    }
}

fn lcd_machine_model_code_string(v: u16) -> (r: String)
    ensures
        r@ == lcd_machine_model_code_label(v),
{
    if v == 0 {
        String::from_str("LXP 12K")
    } else if v == 1 {
        String::from_str("All-in-one")
    } else if v == 2 {
        String::from_str("Tri-Phase 20k")
    } else {
        String::from_str("Unknown")
    }
}

pub open spec fn meter_measure_type_label(v: u16) -> Seq<char> {
    if v == 0 {
        "Meter 1 measure AC, Meter 2 measure PV"@
    } else if v == 1 {
        "Meter 1 measure PV, Meter 2 measure AC"@
    } else {
        "Unknown"@
    }
}

fn meter_measure_type_string(v: u16) -> (r: String)
    ensures
        r@ == meter_measure_type_label(v),
{
    if v == 0 {
        String::from_str("Meter 1 measure AC, Meter 2 measure PV")
    } else if v == 1 {
        String::from_str("Meter 1 measure PV, Meter 2 measure AC")
    } else {
        String::from_str("Unknown")
    }
}

pub open spec fn install_phase_label(v: u16) -> Seq<char> {
    if v == 0 {
        "R phase"@
    } else if v == 1 {
        "S phase"@
    } else if v == 2 {
        "T phase"@
    } else {
        "Unknown"@
    }
}

fn install_phase_string(v: u16) -> (r: String)
    ensures
        r@ == install_phase_label(v),
{
    if v == 0 {
        String::from_str("R phase")
    } else if v == 1 {
        String::from_str("S phase")
    } else if v == 2 {
        String::from_str("T phase")
    } else {
        String::from_str("Unknown")
    }
}

/// `on` when the flag is set, else `off`.
fn flag_string(set: bool, on: &str, off: &str) -> (r: String)
    ensures
        r@ == (if set { on@ } else { off@ }),
{
    if set {
        String::from_str(on)
    } else {
        String::from_str(off)
    }
}

/// The decoding of the auto-test state in input register 71.
#[derive(Clone, Debug)]
pub struct Input71Bits {
    pub auto_test_start: String,
    pub ub_auto_test_status: String,
    pub ub_auto_test_step: String,
}

impl Input71Bits {
    /// The JSON object of the decoding of `data`, with its keys in declaration order.
    pub open spec fn spec_json(data: u16) -> Seq<char> {
        (seq!['{'] + json_member(true, "auto_test_start"@, json_quoted(auto_test_start_label((data / 1) % 16)))
            + json_member(false, "ub_auto_test_status"@, json_quoted(auto_test_status_label((data / 16) % 16)))
            + json_member(false, "ub_auto_test_step"@, json_quoted(auto_test_step_label((data / 256) % 16)))).push('}')
    }

    /// Decodes the register value `data`.
    pub fn new(data: u16) -> (r: Self)
        ensures
            r.auto_test_start@ == auto_test_start_label((data / 1) % 16),
            r.ub_auto_test_status@ == auto_test_status_label((data / 16) % 16),
            r.ub_auto_test_step@ == auto_test_step_label((data / 256) % 16),
    {
        Input71Bits {
            auto_test_start: auto_test_start_string((data / 1) % 16),
            ub_auto_test_status: auto_test_status_string((data / 16) % 16),
            ub_auto_test_step: auto_test_step_string((data / 256) % 16),
        }
    }

    /// The decoding of `data` as a JSON object.
    pub fn json(data: u16) -> (r: String)
        ensures
            r@ == Self::spec_json(data),
    {
        let d = Self::new(data);
        let mut s = String::new();
        push_char(&mut s, '{');
        let v = json_string(d.auto_test_start.as_str());
        push_member(&mut s, true, "auto_test_start", v.as_str());
        let v = json_string(d.ub_auto_test_status.as_str());
        push_member(&mut s, false, "ub_auto_test_status", v.as_str());
        let v = json_string(d.ub_auto_test_step.as_str());
        push_member(&mut s, false, "ub_auto_test_step", v.as_str());
        push_char(&mut s, '}');
        assert(s@ == Self::spec_json(data));
        s
    }
}

/// The decoding of the AC-couple state in input register 77.
#[derive(Clone, Debug)]
pub struct Input77Bits {
    pub ac_input_type: String,
    pub ac_couple_inverter_flow: String,
    pub ac_couple_enable: String,
}

impl Input77Bits {
    /// The JSON object of the decoding of `data`, with its keys in declaration order.
    pub open spec fn spec_json(data: u16) -> Seq<char> {
        (seq!['{'] + json_member(true, "ac_input_type"@, json_quoted(ac_input_type_label((data / 1) % 2)))
            + json_member(false, "ac_couple_inverter_flow"@, json_quoted((if (data / 2) % 2 == 1 { "ON"@ } else { "OFF"@ })))
            + json_member(false, "ac_couple_enable"@, json_quoted((if (data / 4) % 2 == 1 { "ON"@ } else { "OFF"@ })))).push('}')
    }

    /// Decodes the register value `data`.
    pub fn new(data: u16) -> (r: Self)
        ensures
            r.ac_input_type@ == ac_input_type_label((data / 1) % 2),
            r.ac_couple_inverter_flow@ == (if (data / 2) % 2 == 1 { "ON"@ } else { "OFF"@ }),
            r.ac_couple_enable@ == (if (data / 4) % 2 == 1 { "ON"@ } else { "OFF"@ }),
    {
        Input77Bits {
            ac_input_type: ac_input_type_string((data / 1) % 2),
            ac_couple_inverter_flow: flag_string((data / 2) % 2 == 1, "ON", "OFF"),
            ac_couple_enable: flag_string((data / 4) % 2 == 1, "ON", "OFF"),
        }
    }

    /// The decoding of `data` as a JSON object.
    pub fn json(data: u16) -> (r: String)
        ensures
            r@ == Self::spec_json(data),
    {
        let d = Self::new(data);
        let mut s = String::new();
        push_char(&mut s, '{');
        let v = json_string(d.ac_input_type.as_str());
        push_member(&mut s, true, "ac_input_type", v.as_str());
        let v = json_string(d.ac_couple_inverter_flow.as_str());
        push_member(&mut s, false, "ac_couple_inverter_flow", v.as_str());
        let v = json_string(d.ac_couple_enable.as_str());
        push_member(&mut s, false, "ac_couple_enable", v.as_str());
        push_char(&mut s, '}');
        assert(s@ == Self::spec_json(data));
        s
    }
}

/// The decoding of the parallel-system configuration in input register 113.
#[derive(Clone, Debug)]
pub struct Input113Bits {
    pub master_or_slave: String,
    pub single_or_three_phase: String,
    pub phases_sequence: String,
    pub parallel_num: u8,
}

impl Input113Bits {
    /// The JSON object of the decoding of `data`, with its keys in declaration order.
    pub open spec fn spec_json(data: u16) -> Seq<char> {
        (seq!['{'] + json_member(true, "master_or_slave"@, json_quoted(master_or_slave_label((data / 1) % 4)))
            + json_member(false, "single_or_three_phase"@, json_quoted(single_or_three_phase_label((data / 4) % 4)))
            + json_member(false, "phases_sequence"@, json_quoted(phases_sequence_label((data / 16) % 4)))
            + json_member(false, "parallel_num"@, decimal_text((((data / 256) % 256) as u8) as nat))).push('}')
    }

    /// Decodes the register value `data`.
    pub fn new(data: u16) -> (r: Self)
        ensures
            r.master_or_slave@ == master_or_slave_label((data / 1) % 4),
            r.single_or_three_phase@ == single_or_three_phase_label((data / 4) % 4),
            r.phases_sequence@ == phases_sequence_label((data / 16) % 4),
            r.parallel_num == (((data / 256) % 256) as u8),
    {
        Input113Bits {
            master_or_slave: master_or_slave_string((data / 1) % 4),
            single_or_three_phase: single_or_three_phase_string((data / 4) % 4),
            phases_sequence: phases_sequence_string((data / 16) % 4),
            parallel_num: ((data / 256) % 256) as u8,
        }
    }

    /// The decoding of `data` as a JSON object.
    pub fn json(data: u16) -> (r: String)
        ensures
            r@ == Self::spec_json(data),
    {
        let d = Self::new(data);
        let mut s = String::new();
        push_char(&mut s, '{');
        let v = json_string(d.master_or_slave.as_str());
        push_member(&mut s, true, "master_or_slave", v.as_str());
        let v = json_string(d.single_or_three_phase.as_str());
        push_member(&mut s, false, "single_or_three_phase", v.as_str());
        let v = json_string(d.phases_sequence.as_str());
        push_member(&mut s, false, "phases_sequence", v.as_str());
        let v = nat_to_text(d.parallel_num as u64);
        push_member(&mut s, false, "parallel_num", v.as_str());
        push_char(&mut s, '}');
        assert(s@ == Self::spec_json(data));
        s
    }
}

/// The decoding of the AFCI flags in input register 144.
#[derive(Clone, Debug)]
pub struct Input144Bits {
    pub afci_flag_arc_alarm_ch1: String,
    pub afci_flag_arc_alarm_ch2: String,
    pub afci_flag_arc_alarm_ch3: String,
    pub afci_flag_arc_alarm_ch4: String,
    pub afci_flag_self_test_fail_ch1: String,
    pub afci_flag_self_test_fail_ch2: String,
    pub afci_flag_self_test_fail_ch3: String,
    pub afci_flag_self_test_fail_ch4: String,
}

impl Input144Bits {
    /// The JSON object of the decoding of `data`, with its keys in declaration order.
    pub open spec fn spec_json(data: u16) -> Seq<char> {
        (seq!['{'] + json_member(true, "afci_flag_arc_alarm_ch1"@, json_quoted((if (data / 1) % 2 == 1 { "ON"@ } else { "OFF"@ })))
            + json_member(false, "afci_flag_arc_alarm_ch2"@, json_quoted((if (data / 2) % 2 == 1 { "ON"@ } else { "OFF"@ })))
            + json_member(false, "afci_flag_arc_alarm_ch3"@, json_quoted((if (data / 4) % 2 == 1 { "ON"@ } else { "OFF"@ })))
            + json_member(false, "afci_flag_arc_alarm_ch4"@, json_quoted((if (data / 8) % 2 == 1 { "ON"@ } else { "OFF"@ })))
            + json_member(false, "afci_flag_self_test_fail_ch1"@, json_quoted((if (data / 16) % 2 == 1 { "ON"@ } else { "OFF"@ })))
            + json_member(false, "afci_flag_self_test_fail_ch2"@, json_quoted((if (data / 32) % 2 == 1 { "ON"@ } else { "OFF"@ })))
            + json_member(false, "afci_flag_self_test_fail_ch3"@, json_quoted((if (data / 64) % 2 == 1 { "ON"@ } else { "OFF"@ })))
            + json_member(false, "afci_flag_self_test_fail_ch4"@, json_quoted((if (data / 128) % 2 == 1 { "ON"@ } else { "OFF"@ })))).push('}')
    }

    /// Decodes the register value `data`.
    pub fn new(data: u16) -> (r: Self)
        ensures
            r.afci_flag_arc_alarm_ch1@ == (if (data / 1) % 2 == 1 { "ON"@ } else { "OFF"@ }),
            r.afci_flag_arc_alarm_ch2@ == (if (data / 2) % 2 == 1 { "ON"@ } else { "OFF"@ }),
            r.afci_flag_arc_alarm_ch3@ == (if (data / 4) % 2 == 1 { "ON"@ } else { "OFF"@ }),
            r.afci_flag_arc_alarm_ch4@ == (if (data / 8) % 2 == 1 { "ON"@ } else { "OFF"@ }),
            r.afci_flag_self_test_fail_ch1@ == (if (data / 16) % 2 == 1 { "ON"@ } else { "OFF"@ }),
            r.afci_flag_self_test_fail_ch2@ == (if (data / 32) % 2 == 1 { "ON"@ } else { "OFF"@ }),
            r.afci_flag_self_test_fail_ch3@ == (if (data / 64) % 2 == 1 { "ON"@ } else { "OFF"@ }),
            r.afci_flag_self_test_fail_ch4@ == (if (data / 128) % 2 == 1 { "ON"@ } else { "OFF"@ }),
    {
        Input144Bits {
            afci_flag_arc_alarm_ch1: flag_string((data / 1) % 2 == 1, "ON", "OFF"),
            afci_flag_arc_alarm_ch2: flag_string((data / 2) % 2 == 1, "ON", "OFF"),
            afci_flag_arc_alarm_ch3: flag_string((data / 4) % 2 == 1, "ON", "OFF"),
            afci_flag_arc_alarm_ch4: flag_string((data / 8) % 2 == 1, "ON", "OFF"),
            afci_flag_self_test_fail_ch1: flag_string((data / 16) % 2 == 1, "ON", "OFF"),
            afci_flag_self_test_fail_ch2: flag_string((data / 32) % 2 == 1, "ON", "OFF"),
            afci_flag_self_test_fail_ch3: flag_string((data / 64) % 2 == 1, "ON", "OFF"),
            afci_flag_self_test_fail_ch4: flag_string((data / 128) % 2 == 1, "ON", "OFF"),
        }
    }

    /// The decoding of `data` as a JSON object.
    pub fn json(data: u16) -> (r: String)
        ensures
            r@ == Self::spec_json(data),
    {
        let d = Self::new(data);
        let mut s = String::new();
        push_char(&mut s, '{');
        let v = json_string(d.afci_flag_arc_alarm_ch1.as_str());
        push_member(&mut s, true, "afci_flag_arc_alarm_ch1", v.as_str());
        let v = json_string(d.afci_flag_arc_alarm_ch2.as_str());
        push_member(&mut s, false, "afci_flag_arc_alarm_ch2", v.as_str());
        let v = json_string(d.afci_flag_arc_alarm_ch3.as_str());
        push_member(&mut s, false, "afci_flag_arc_alarm_ch3", v.as_str());
        let v = json_string(d.afci_flag_arc_alarm_ch4.as_str());
        push_member(&mut s, false, "afci_flag_arc_alarm_ch4", v.as_str());
        let v = json_string(d.afci_flag_self_test_fail_ch1.as_str());
        push_member(&mut s, false, "afci_flag_self_test_fail_ch1", v.as_str());
        let v = json_string(d.afci_flag_self_test_fail_ch2.as_str());
        push_member(&mut s, false, "afci_flag_self_test_fail_ch2", v.as_str());
        let v = json_string(d.afci_flag_self_test_fail_ch3.as_str());
        push_member(&mut s, false, "afci_flag_self_test_fail_ch3", v.as_str());
        let v = json_string(d.afci_flag_self_test_fail_ch4.as_str());
        push_member(&mut s, false, "afci_flag_self_test_fail_ch4", v.as_str());
        push_char(&mut s, '}');
        assert(s@ == Self::spec_json(data));
        s
    }
}

/// The decoding of the function-enable bits of holding register 21.
#[derive(Clone, Debug)]
pub struct Register21Bits {
    pub eps_en: String,
    pub ovf_load_derate_en: String,
    pub drms_en: String,
    pub lvrt_en: String,
    pub anti_island_en: String,
    pub neutral_detect_en: String,
    pub grid_on_power_ss_en: String,
    pub ac_charge_en: String,
    pub sw_seamless_en: String,
    pub set_to_standby: String,
    pub forced_discharge_en: String,
    pub charge_priority_en: String,
    pub iso_en: String,
    pub gfci_en: String,
    pub dci_en: String,
    pub feed_in_grid_en: String,
}

impl Register21Bits {
    /// The JSON object of the decoding of `data`, with its keys in declaration order.
    pub open spec fn spec_json(data: u16) -> Seq<char> {
        (seq!['{'] + json_member(true, "eps_en"@, json_quoted((if (data / 1) % 2 == 1 { "ON"@ } else { "OFF"@ })))
            + json_member(false, "ovf_load_derate_en"@, json_quoted((if (data / 2) % 2 == 1 { "ON"@ } else { "OFF"@ })))
            + json_member(false, "drms_en"@, json_quoted((if (data / 4) % 2 == 1 { "ON"@ } else { "OFF"@ })))
            + json_member(false, "lvrt_en"@, json_quoted((if (data / 8) % 2 == 1 { "ON"@ } else { "OFF"@ })))
            + json_member(false, "anti_island_en"@, json_quoted((if (data / 16) % 2 == 1 { "ON"@ } else { "OFF"@ })))
            + json_member(false, "neutral_detect_en"@, json_quoted((if (data / 32) % 2 == 1 { "ON"@ } else { "OFF"@ })))
            + json_member(false, "grid_on_power_ss_en"@, json_quoted((if (data / 64) % 2 == 1 { "ON"@ } else { "OFF"@ })))
            + json_member(false, "ac_charge_en"@, json_quoted((if (data / 128) % 2 == 1 { "ON"@ } else { "OFF"@ })))
            + json_member(false, "sw_seamless_en"@, json_quoted((if (data / 256) % 2 == 1 { "ON"@ } else { "OFF"@ })))
            + json_member(false, "set_to_standby"@, json_quoted((if (data / 512) % 2 == 1 { "ON"@ } else { "OFF"@ })))
            + json_member(false, "forced_discharge_en"@, json_quoted((if (data / 1024) % 2 == 1 { "ON"@ } else { "OFF"@ })))
            + json_member(false, "charge_priority_en"@, json_quoted((if (data / 2048) % 2 == 1 { "ON"@ } else { "OFF"@ })))
            + json_member(false, "iso_en"@, json_quoted((if (data / 4096) % 2 == 1 { "ON"@ } else { "OFF"@ })))
            + json_member(false, "gfci_en"@, json_quoted((if (data / 8192) % 2 == 1 { "ON"@ } else { "OFF"@ })))
            + json_member(false, "dci_en"@, json_quoted((if (data / 16384) % 2 == 1 { "ON"@ } else { "OFF"@ })))
            + json_member(false, "feed_in_grid_en"@, json_quoted((if (data / 32768) % 2 == 1 { "ON"@ } else { "OFF"@ })))).push('}')
    }

    /// Decodes the register value `data`.
    pub fn new(data: u16) -> (r: Self)
        ensures
            r.eps_en@ == (if (data / 1) % 2 == 1 { "ON"@ } else { "OFF"@ }),
            r.ovf_load_derate_en@ == (if (data / 2) % 2 == 1 { "ON"@ } else { "OFF"@ }),
            r.drms_en@ == (if (data / 4) % 2 == 1 { "ON"@ } else { "OFF"@ }),
            r.lvrt_en@ == (if (data / 8) % 2 == 1 { "ON"@ } else { "OFF"@ }),
            r.anti_island_en@ == (if (data / 16) % 2 == 1 { "ON"@ } else { "OFF"@ }),
            r.neutral_detect_en@ == (if (data / 32) % 2 == 1 { "ON"@ } else { "OFF"@ }),
            r.grid_on_power_ss_en@ == (if (data / 64) % 2 == 1 { "ON"@ } else { "OFF"@ }),
            r.ac_charge_en@ == (if (data / 128) % 2 == 1 { "ON"@ } else { "OFF"@ }),
            r.sw_seamless_en@ == (if (data / 256) % 2 == 1 { "ON"@ } else { "OFF"@ }),
            r.set_to_standby@ == (if (data / 512) % 2 == 1 { "ON"@ } else { "OFF"@ }),
            r.forced_discharge_en@ == (if (data / 1024) % 2 == 1 { "ON"@ } else { "OFF"@ }),
            r.charge_priority_en@ == (if (data / 2048) % 2 == 1 { "ON"@ } else { "OFF"@ }),
            r.iso_en@ == (if (data / 4096) % 2 == 1 { "ON"@ } else { "OFF"@ }),
            r.gfci_en@ == (if (data / 8192) % 2 == 1 { "ON"@ } else { "OFF"@ }),
            r.dci_en@ == (if (data / 16384) % 2 == 1 { "ON"@ } else { "OFF"@ }),
            r.feed_in_grid_en@ == (if (data / 32768) % 2 == 1 { "ON"@ } else { "OFF"@ }),
    {
        Register21Bits {
            eps_en: flag_string((data / 1) % 2 == 1, "ON", "OFF"),
            ovf_load_derate_en: flag_string((data / 2) % 2 == 1, "ON", "OFF"),
            drms_en: flag_string((data / 4) % 2 == 1, "ON", "OFF"),
            lvrt_en: flag_string((data / 8) % 2 == 1, "ON", "OFF"),
            anti_island_en: flag_string((data / 16) % 2 == 1, "ON", "OFF"),
            neutral_detect_en: flag_string((data / 32) % 2 == 1, "ON", "OFF"),
            grid_on_power_ss_en: flag_string((data / 64) % 2 == 1, "ON", "OFF"),
            ac_charge_en: flag_string((data / 128) % 2 == 1, "ON", "OFF"),
            sw_seamless_en: flag_string((data / 256) % 2 == 1, "ON", "OFF"),
            set_to_standby: flag_string((data / 512) % 2 == 1, "ON", "OFF"),
            forced_discharge_en: flag_string((data / 1024) % 2 == 1, "ON", "OFF"),
            charge_priority_en: flag_string((data / 2048) % 2 == 1, "ON", "OFF"),
            iso_en: flag_string((data / 4096) % 2 == 1, "ON", "OFF"),
            gfci_en: flag_string((data / 8192) % 2 == 1, "ON", "OFF"),
            dci_en: flag_string((data / 16384) % 2 == 1, "ON", "OFF"),
            feed_in_grid_en: flag_string((data / 32768) % 2 == 1, "ON", "OFF"),
        }
    }

    /// The decoding of `data` as a JSON object.
    pub fn json(data: u16) -> (r: String)
        ensures
            r@ == Self::spec_json(data),
    {
        let d = Self::new(data);
        let mut s = String::new();
        push_char(&mut s, '{');
        let v = json_string(d.eps_en.as_str());
        push_member(&mut s, true, "eps_en", v.as_str());
        let v = json_string(d.ovf_load_derate_en.as_str());
        push_member(&mut s, false, "ovf_load_derate_en", v.as_str());
        let v = json_string(d.drms_en.as_str());
        push_member(&mut s, false, "drms_en", v.as_str());
        let v = json_string(d.lvrt_en.as_str());
        push_member(&mut s, false, "lvrt_en", v.as_str());
        let v = json_string(d.anti_island_en.as_str());
        push_member(&mut s, false, "anti_island_en", v.as_str());
        let v = json_string(d.neutral_detect_en.as_str());
        push_member(&mut s, false, "neutral_detect_en", v.as_str());
        let v = json_string(d.grid_on_power_ss_en.as_str());
        push_member(&mut s, false, "grid_on_power_ss_en", v.as_str());
        let v = json_string(d.ac_charge_en.as_str());
        push_member(&mut s, false, "ac_charge_en", v.as_str());
        let v = json_string(d.sw_seamless_en.as_str());
        push_member(&mut s, false, "sw_seamless_en", v.as_str());
        let v = json_string(d.set_to_standby.as_str());
        push_member(&mut s, false, "set_to_standby", v.as_str());
        let v = json_string(d.forced_discharge_en.as_str());
        push_member(&mut s, false, "forced_discharge_en", v.as_str());
        let v = json_string(d.charge_priority_en.as_str());
        push_member(&mut s, false, "charge_priority_en", v.as_str());
        let v = json_string(d.iso_en.as_str());
        push_member(&mut s, false, "iso_en", v.as_str());
        let v = json_string(d.gfci_en.as_str());
        push_member(&mut s, false, "gfci_en", v.as_str());
        let v = json_string(d.dci_en.as_str());
        push_member(&mut s, false, "dci_en", v.as_str());
        let v = json_string(d.feed_in_grid_en.as_str());
        push_member(&mut s, false, "feed_in_grid_en", v.as_str());
        push_char(&mut s, '}');
        assert(s@ == Self::spec_json(data));
        s
    }
}

/// The decoding of the function-enable bits of holding register 110.
#[derive(Clone, Debug)]
pub struct Register110Bits {
    pub ub_pv_grid_off_en: String,
    pub ub_run_without_grid: String,
    pub ub_micro_grid_en: String,
    pub ub_bat_shared_en: String,
    pub ub_charge_last_en: String,
    pub ct_sample_ratio: String,
    pub buzzer_en: String,
    pub pv_ct_sample_type: String,
    pub take_load_together: String,
    pub on_grid_working_mode: String,
    pub pv_ct_sample_ratio: String,
    pub green_mode_en: String,
    pub eco_mode_en: String,
}

impl Register110Bits {
    /// The JSON object of the decoding of `data`, with its keys in declaration order.
    pub open spec fn spec_json(data: u16) -> Seq<char> {
        (seq!['{'] + json_member(true, "ub_pv_grid_off_en"@, json_quoted((if (data / 1) % 2 == 1 { "ON"@ } else { "OFF"@ })))
            + json_member(false, "ub_run_without_grid"@, json_quoted((if (data / 2) % 2 == 1 { "ON"@ } else { "OFF"@ })))
            + json_member(false, "ub_micro_grid_en"@, json_quoted((if (data / 4) % 2 == 1 { "ON"@ } else { "OFF"@ })))
            + json_member(false, "ub_bat_shared_en"@, json_quoted((if (data / 8) % 2 == 1 { "ON"@ } else { "OFF"@ })))
            + json_member(false, "ub_charge_last_en"@, json_quoted((if (data / 16) % 2 == 1 { "ON"@ } else { "OFF"@ })))
            + json_member(false, "ct_sample_ratio"@, json_quoted("Unknown"@))
            + json_member(false, "buzzer_en"@, json_quoted((if (data / 128) % 2 == 1 { "ON"@ } else { "OFF"@ })))
            + json_member(false, "pv_ct_sample_type"@, json_quoted("Unknown"@))
            + json_member(false, "take_load_together"@, json_quoted((if (data / 1024) % 2 == 1 { "ON"@ } else { "OFF"@ })))
            + json_member(false, "on_grid_working_mode"@, json_quoted("Unknown"@))
            + json_member(false, "pv_ct_sample_ratio"@, json_quoted("Unknown"@))
            + json_member(false, "green_mode_en"@, json_quoted((if (data / 16384) % 2 == 1 { "ON"@ } else { "OFF"@ })))
            + json_member(false, "eco_mode_en"@, json_quoted((if (data / 32768) % 2 == 1 { "ON"@ } else { "OFF"@ })))).push('}')
    }

    /// Decodes the register value `data`.
    pub fn new(data: u16) -> (r: Self)
        ensures
            r.ub_pv_grid_off_en@ == (if (data / 1) % 2 == 1 { "ON"@ } else { "OFF"@ }),
            r.ub_run_without_grid@ == (if (data / 2) % 2 == 1 { "ON"@ } else { "OFF"@ }),
            r.ub_micro_grid_en@ == (if (data / 4) % 2 == 1 { "ON"@ } else { "OFF"@ }),
            r.ub_bat_shared_en@ == (if (data / 8) % 2 == 1 { "ON"@ } else { "OFF"@ }),
            r.ub_charge_last_en@ == (if (data / 16) % 2 == 1 { "ON"@ } else { "OFF"@ }),
            r.ct_sample_ratio@ == "Unknown"@,
            r.buzzer_en@ == (if (data / 128) % 2 == 1 { "ON"@ } else { "OFF"@ }),
            r.pv_ct_sample_type@ == "Unknown"@,
            r.take_load_together@ == (if (data / 1024) % 2 == 1 { "ON"@ } else { "OFF"@ }),
            r.on_grid_working_mode@ == "Unknown"@,
            r.pv_ct_sample_ratio@ == "Unknown"@,
            r.green_mode_en@ == (if (data / 16384) % 2 == 1 { "ON"@ } else { "OFF"@ }),
            r.eco_mode_en@ == (if (data / 32768) % 2 == 1 { "ON"@ } else { "OFF"@ }),
    {
        Register110Bits {
            ub_pv_grid_off_en: flag_string((data / 1) % 2 == 1, "ON", "OFF"),
            ub_run_without_grid: flag_string((data / 2) % 2 == 1, "ON", "OFF"),
            ub_micro_grid_en: flag_string((data / 4) % 2 == 1, "ON", "OFF"),
            ub_bat_shared_en: flag_string((data / 8) % 2 == 1, "ON", "OFF"),
            ub_charge_last_en: flag_string((data / 16) % 2 == 1, "ON", "OFF"),
            ct_sample_ratio: String::from_str("Unknown"),
            buzzer_en: flag_string((data / 128) % 2 == 1, "ON", "OFF"),
            pv_ct_sample_type: String::from_str("Unknown"),
            take_load_together: flag_string((data / 1024) % 2 == 1, "ON", "OFF"),
            on_grid_working_mode: String::from_str("Unknown"),
            pv_ct_sample_ratio: String::from_str("Unknown"),
            green_mode_en: flag_string((data / 16384) % 2 == 1, "ON", "OFF"),
            eco_mode_en: flag_string((data / 32768) % 2 == 1, "ON", "OFF"),
        }
    }

    /// The decoding of `data` as a JSON object.
    pub fn json(data: u16) -> (r: String)
        ensures
            r@ == Self::spec_json(data),
    {
        let d = Self::new(data);
        let mut s = String::new();
        push_char(&mut s, '{');
        let v = json_string(d.ub_pv_grid_off_en.as_str());
        push_member(&mut s, true, "ub_pv_grid_off_en", v.as_str());
        let v = json_string(d.ub_run_without_grid.as_str());
        push_member(&mut s, false, "ub_run_without_grid", v.as_str());
        let v = json_string(d.ub_micro_grid_en.as_str());
        push_member(&mut s, false, "ub_micro_grid_en", v.as_str());
        let v = json_string(d.ub_bat_shared_en.as_str());
        push_member(&mut s, false, "ub_bat_shared_en", v.as_str());
        let v = json_string(d.ub_charge_last_en.as_str());
        push_member(&mut s, false, "ub_charge_last_en", v.as_str());
        let v = json_string(d.ct_sample_ratio.as_str());
        push_member(&mut s, false, "ct_sample_ratio", v.as_str());
        let v = json_string(d.buzzer_en.as_str());
        push_member(&mut s, false, "buzzer_en", v.as_str());
        let v = json_string(d.pv_ct_sample_type.as_str());
        push_member(&mut s, false, "pv_ct_sample_type", v.as_str());
        let v = json_string(d.take_load_together.as_str());
        push_member(&mut s, false, "take_load_together", v.as_str());
        let v = json_string(d.on_grid_working_mode.as_str());
        push_member(&mut s, false, "on_grid_working_mode", v.as_str());
        let v = json_string(d.pv_ct_sample_ratio.as_str());
        push_member(&mut s, false, "pv_ct_sample_ratio", v.as_str());
        let v = json_string(d.green_mode_en.as_str());
        push_member(&mut s, false, "green_mode_en", v.as_str());
        let v = json_string(d.eco_mode_en.as_str());
        push_member(&mut s, false, "eco_mode_en", v.as_str());
        push_char(&mut s, '}');
        assert(s@ == Self::spec_json(data));
        s
    }
}

/// The decoding of the system-enable bits of holding register 120.
#[derive(Clone, Debug)]
pub struct Register120Bits {
    pub half_hour_ac_charge_start_en: String,
    pub ac_charge_type: String,
    pub discharge_ctrl_type: String,
    pub on_grid_eod_type: String,
    pub gen_charge_type: String,
}

impl Register120Bits {
    /// The JSON object of the decoding of `data`, with its keys in declaration order.
    pub open spec fn spec_json(data: u16) -> Seq<char> {
        (seq!['{'] + json_member(true, "half_hour_ac_charge_start_en"@, json_quoted((if (data / 1) % 2 == 1 { "ON"@ } else { "OFF"@ })))
            + json_member(false, "ac_charge_type"@, json_quoted(ac_charge_type_12k_hybrid_label((data / 2) % 8)))
            + json_member(false, "discharge_ctrl_type"@, json_quoted(discharge_ctrl_type_label((data / 16) % 4)))
            + json_member(false, "on_grid_eod_type"@, json_quoted(on_grid_eod_type_label((data / 64) % 2)))
            + json_member(false, "gen_charge_type"@, json_quoted(gen_charge_type_label((data / 128) % 2)))).push('}')
    }

    /// Decodes the register value `data`.
    pub fn new(data: u16) -> (r: Self)
        ensures
            r.half_hour_ac_charge_start_en@ == (if (data / 1) % 2 == 1 { "ON"@ } else { "OFF"@ }),
            r.ac_charge_type@ == ac_charge_type_12k_hybrid_label((data / 2) % 8),
            r.discharge_ctrl_type@ == discharge_ctrl_type_label((data / 16) % 4),
            r.on_grid_eod_type@ == on_grid_eod_type_label((data / 64) % 2),
            r.gen_charge_type@ == gen_charge_type_label((data / 128) % 2),
    {
        Register120Bits {
            half_hour_ac_charge_start_en: flag_string((data / 1) % 2 == 1, "ON", "OFF"),
            ac_charge_type: ac_charge_type_12k_hybrid_string((data / 2) % 8),
            discharge_ctrl_type: discharge_ctrl_type_string((data / 16) % 4),
            on_grid_eod_type: on_grid_eod_type_string((data / 64) % 2),
            gen_charge_type: gen_charge_type_string((data / 128) % 2),
        }
    }

    /// The decoding of `data` as a JSON object.
    pub fn json(data: u16) -> (r: String)
        ensures
            r@ == Self::spec_json(data),
    {
        let d = Self::new(data);
        let mut s = String::new();
        push_char(&mut s, '{');
        let v = json_string(d.half_hour_ac_charge_start_en.as_str());
        push_member(&mut s, true, "half_hour_ac_charge_start_en", v.as_str());
        let v = json_string(d.ac_charge_type.as_str());
        push_member(&mut s, false, "ac_charge_type", v.as_str());
        let v = json_string(d.discharge_ctrl_type.as_str());
        push_member(&mut s, false, "discharge_ctrl_type", v.as_str());
        let v = json_string(d.on_grid_eod_type.as_str());
        push_member(&mut s, false, "on_grid_eod_type", v.as_str());
        let v = json_string(d.gen_charge_type.as_str());
        push_member(&mut s, false, "gen_charge_type", v.as_str());
        push_char(&mut s, '}');
        assert(s@ == Self::spec_json(data));
        s
    }
}

/// The decoding of the function-enable bits of holding register 179.
#[derive(Clone, Debug)]
pub struct Register179Bits {
    pub ac_ct_direction: String,
    pub pv_ct_direction: String,
    pub afci_alarm_clear: String,
    pub pv_sell_first: String,
    pub volt_watt_en: String,
    pub triptime_unit: String,
    pub act_power_cmd_en: String,
    pub ub_grid_peak_shaving: String,
    pub ub_gen_peak_shaving: String,
    pub ub_bat_charge_control: String,
    pub ub_bat_dischg_control: String,
    pub ub_ac_coupling: String,
    pub ub_pv_arc_en: String,
    pub ub_smart_load_en: String,
    pub ub_rsd_disable: String,
    pub on_grid_always_on: String,
}

impl Register179Bits {
    /// The JSON object of the decoding of `data`, with its keys in declaration order.
    pub open spec fn spec_json(data: u16) -> Seq<char> {
        (seq!['{'] + json_member(true, "ac_ct_direction"@, json_quoted((if (data / 1) % 2 == 1 { "Reversed"@ } else { "Normal"@ })))
            + json_member(false, "pv_ct_direction"@, json_quoted((if (data / 2) % 2 == 1 { "Reversed"@ } else { "Normal"@ })))
            + json_member(false, "afci_alarm_clear"@, json_quoted("Unknown"@))
            + json_member(false, "pv_sell_first"@, json_quoted((if (data / 8) % 2 == 1 { "ON"@ } else { "OFF"@ })))
            + json_member(false, "volt_watt_en"@, json_quoted((if (data / 16) % 2 == 1 { "ON"@ } else { "OFF"@ })))
            + json_member(false, "triptime_unit"@, json_quoted((if (data / 32) % 2 == 1 { "ON"@ } else { "OFF"@ })))
            + json_member(false, "act_power_cmd_en"@, json_quoted((if (data / 64) % 2 == 1 { "ON"@ } else { "OFF"@ })))
            + json_member(false, "ub_grid_peak_shaving"@, json_quoted((if (data / 128) % 2 == 1 { "ON"@ } else { "OFF"@ })))
            + json_member(false, "ub_gen_peak_shaving"@, json_quoted((if (data / 256) % 2 == 1 { "ON"@ } else { "OFF"@ })))
            + json_member(false, "ub_bat_charge_control"@, json_quoted((if (data / 512) % 2 == 1 { "Volt"@ } else { "State of Charge"@ })))
            + json_member(false, "ub_bat_dischg_control"@, json_quoted((if (data / 1024) % 2 == 1 { "Volt"@ } else { "State of Charge"@ })))
            + json_member(false, "ub_ac_coupling"@, json_quoted((if (data / 2048) % 2 == 1 { "ON"@ } else { "OFF"@ })))
            + json_member(false, "ub_pv_arc_en"@, json_quoted((if (data / 4096) % 2 == 1 { "ON"@ } else { "OFF"@ })))
            + json_member(false, "ub_smart_load_en"@, json_quoted((if (data / 8192) % 2 == 1 { "Smart Load"@ } else { "Generator"@ })))
            + json_member(false, "ub_rsd_disable"@, json_quoted((if (data / 16384) % 2 == 1 { "OFF"@ } else { "ON"@ })))
            + json_member(false, "on_grid_always_on"@, json_quoted((if (data / 32768) % 2 == 1 { "ON"@ } else { "OFF"@ })))).push('}')
    }

    /// Decodes the register value `data`.
    pub fn new(data: u16) -> (r: Self)
        ensures
            r.ac_ct_direction@ == (if (data / 1) % 2 == 1 { "Reversed"@ } else { "Normal"@ }),
            r.pv_ct_direction@ == (if (data / 2) % 2 == 1 { "Reversed"@ } else { "Normal"@ }),
            r.afci_alarm_clear@ == "Unknown"@,
            r.pv_sell_first@ == (if (data / 8) % 2 == 1 { "ON"@ } else { "OFF"@ }),
            r.volt_watt_en@ == (if (data / 16) % 2 == 1 { "ON"@ } else { "OFF"@ }),
            r.triptime_unit@ == (if (data / 32) % 2 == 1 { "ON"@ } else { "OFF"@ }),
            r.act_power_cmd_en@ == (if (data / 64) % 2 == 1 { "ON"@ } else { "OFF"@ }),
            r.ub_grid_peak_shaving@ == (if (data / 128) % 2 == 1 { "ON"@ } else { "OFF"@ }),
            r.ub_gen_peak_shaving@ == (if (data / 256) % 2 == 1 { "ON"@ } else { "OFF"@ }),
            r.ub_bat_charge_control@ == (if (data / 512) % 2 == 1 { "Volt"@ } else { "State of Charge"@ }),
            r.ub_bat_dischg_control@ == (if (data / 1024) % 2 == 1 { "Volt"@ } else { "State of Charge"@ }),
            r.ub_ac_coupling@ == (if (data / 2048) % 2 == 1 { "ON"@ } else { "OFF"@ }),
            r.ub_pv_arc_en@ == (if (data / 4096) % 2 == 1 { "ON"@ } else { "OFF"@ }),
            r.ub_smart_load_en@ == (if (data / 8192) % 2 == 1 { "Smart Load"@ } else { "Generator"@ }),
            r.ub_rsd_disable@ == (if (data / 16384) % 2 == 1 { "OFF"@ } else { "ON"@ }),
            r.on_grid_always_on@ == (if (data / 32768) % 2 == 1 { "ON"@ } else { "OFF"@ }),
    {
        Register179Bits {
            ac_ct_direction: flag_string((data / 1) % 2 == 1, "Reversed", "Normal"),
            pv_ct_direction: flag_string((data / 2) % 2 == 1, "Reversed", "Normal"),
            afci_alarm_clear: String::from_str("Unknown"),
            pv_sell_first: flag_string((data / 8) % 2 == 1, "ON", "OFF"),
            volt_watt_en: flag_string((data / 16) % 2 == 1, "ON", "OFF"),
            triptime_unit: flag_string((data / 32) % 2 == 1, "ON", "OFF"),
            act_power_cmd_en: flag_string((data / 64) % 2 == 1, "ON", "OFF"),
            ub_grid_peak_shaving: flag_string((data / 128) % 2 == 1, "ON", "OFF"),
            ub_gen_peak_shaving: flag_string((data / 256) % 2 == 1, "ON", "OFF"),
            ub_bat_charge_control: flag_string((data / 512) % 2 == 1, "Volt", "State of Charge"),
            ub_bat_dischg_control: flag_string((data / 1024) % 2 == 1, "Volt", "State of Charge"),
            ub_ac_coupling: flag_string((data / 2048) % 2 == 1, "ON", "OFF"),
            ub_pv_arc_en: flag_string((data / 4096) % 2 == 1, "ON", "OFF"),
            ub_smart_load_en: flag_string((data / 8192) % 2 == 1, "Smart Load", "Generator"),
            ub_rsd_disable: flag_string((data / 16384) % 2 == 1, "OFF", "ON"),
            on_grid_always_on: flag_string((data / 32768) % 2 == 1, "ON", "OFF"),
        }
    }

    /// The decoding of `data` as a JSON object.
    pub fn json(data: u16) -> (r: String)
        ensures
            r@ == Self::spec_json(data),
    {
        let d = Self::new(data);
        let mut s = String::new();
        push_char(&mut s, '{');
        let v = json_string(d.ac_ct_direction.as_str());
        push_member(&mut s, true, "ac_ct_direction", v.as_str());
        let v = json_string(d.pv_ct_direction.as_str());
        push_member(&mut s, false, "pv_ct_direction", v.as_str());
        let v = json_string(d.afci_alarm_clear.as_str());
        push_member(&mut s, false, "afci_alarm_clear", v.as_str());
        let v = json_string(d.pv_sell_first.as_str());
        push_member(&mut s, false, "pv_sell_first", v.as_str());
        let v = json_string(d.volt_watt_en.as_str());
        push_member(&mut s, false, "volt_watt_en", v.as_str());
        let v = json_string(d.triptime_unit.as_str());
        push_member(&mut s, false, "triptime_unit", v.as_str());
        let v = json_string(d.act_power_cmd_en.as_str());
        push_member(&mut s, false, "act_power_cmd_en", v.as_str());
        let v = json_string(d.ub_grid_peak_shaving.as_str());
        push_member(&mut s, false, "ub_grid_peak_shaving", v.as_str());
        let v = json_string(d.ub_gen_peak_shaving.as_str());
        push_member(&mut s, false, "ub_gen_peak_shaving", v.as_str());
        let v = json_string(d.ub_bat_charge_control.as_str());
        push_member(&mut s, false, "ub_bat_charge_control", v.as_str());
        let v = json_string(d.ub_bat_dischg_control.as_str());
        push_member(&mut s, false, "ub_bat_dischg_control", v.as_str());
        let v = json_string(d.ub_ac_coupling.as_str());
        push_member(&mut s, false, "ub_ac_coupling", v.as_str());
        let v = json_string(d.ub_pv_arc_en.as_str());
        push_member(&mut s, false, "ub_pv_arc_en", v.as_str());
        let v = json_string(d.ub_smart_load_en.as_str());
        push_member(&mut s, false, "ub_smart_load_en", v.as_str());
        let v = json_string(d.ub_rsd_disable.as_str());
        push_member(&mut s, false, "ub_rsd_disable", v.as_str());
        let v = json_string(d.on_grid_always_on.as_str());
        push_member(&mut s, false, "on_grid_always_on", v.as_str());
        push_char(&mut s, '}');
        assert(s@ == Self::spec_json(data));
        s
    }
}

/// The decoding of the LCD configuration in holding register 224.
#[derive(Clone, Debug)]
pub struct Register224Bits {
    pub lcd_version: u8,
    pub lcd_screen_type: String,
    pub lcd_odm: String,
    pub lcd_machine_model_code: String,
}

impl Register224Bits {
    /// The JSON object of the decoding of `data`, with its keys in declaration order.
    pub open spec fn spec_json(data: u16) -> Seq<char> {
        (seq!['{'] + json_member(true, "lcd_version"@, decimal_text((((data / 1) % 256) as u8) as nat))
            + json_member(false, "lcd_screen_type"@, json_quoted(lcd_screen_type_label((data / 256) % 2)))
            + json_member(false, "lcd_odm"@, json_quoted(lcd_odm_label((data / 512) % 4)))
            + json_member(false, "lcd_machine_model_code"@, json_quoted(lcd_machine_model_code_label((data / 2048) % 32)))).push('}')
    }

    /// Decodes the register value `data`.
    pub fn new(data: u16) -> (r: Self)
        ensures
            r.lcd_version == (((data / 1) % 256) as u8),
            r.lcd_screen_type@ == lcd_screen_type_label((data / 256) % 2),
            r.lcd_odm@ == lcd_odm_label((data / 512) % 4),
            r.lcd_machine_model_code@ == lcd_machine_model_code_label((data / 2048) % 32),
    {
        Register224Bits {
            lcd_version: ((data / 1) % 256) as u8,
            lcd_screen_type: lcd_screen_type_string((data / 256) % 2),
            lcd_odm: lcd_odm_string((data / 512) % 4),
            lcd_machine_model_code: lcd_machine_model_code_string((data / 2048) % 32),
        }
    }

    /// The decoding of `data` as a JSON object.
    pub fn json(data: u16) -> (r: String)
        ensures
            r@ == Self::spec_json(data),
    {
        let d = Self::new(data);
        let mut s = String::new();
        push_char(&mut s, '{');
        let v = nat_to_text(d.lcd_version as u64);
        push_member(&mut s, true, "lcd_version", v.as_str());
        let v = json_string(d.lcd_screen_type.as_str());
        push_member(&mut s, false, "lcd_screen_type", v.as_str());
        let v = json_string(d.lcd_odm.as_str());
        push_member(&mut s, false, "lcd_odm", v.as_str());
        let v = json_string(d.lcd_machine_model_code.as_str());
        push_member(&mut s, false, "lcd_machine_model_code", v.as_str());
        push_char(&mut s, '}');
        assert(s@ == Self::spec_json(data));
        s
    }
}

/// The decoding of the meter configuration in holding register 230.
#[derive(Clone, Debug)]
pub struct Register230Bits {
    pub meters_num: u8,
    pub meter_measure_type: String,
    pub install_phase: String,
}

impl Register230Bits {
    /// The JSON object of the decoding of `data`, with its keys in declaration order.
    pub open spec fn spec_json(data: u16) -> Seq<char> {
        (seq!['{'] + json_member(true, "meters_num"@, decimal_text((((data / 1) % 16) as u8) as nat))
            + json_member(false, "meter_measure_type"@, json_quoted(meter_measure_type_label((data / 256) % 2)))
            + json_member(false, "install_phase"@, json_quoted(install_phase_label((data / 512) % 4)))).push('}')
    }

    /// Decodes the register value `data`.
    pub fn new(data: u16) -> (r: Self)
        ensures
            r.meters_num == (((data / 1) % 16) as u8),
            r.meter_measure_type@ == meter_measure_type_label((data / 256) % 2),
            r.install_phase@ == install_phase_label((data / 512) % 4),
    {
        Register230Bits {
            meters_num: ((data / 1) % 16) as u8,
            meter_measure_type: meter_measure_type_string((data / 256) % 2),
            install_phase: install_phase_string((data / 512) % 4),
        }
    }

    /// The decoding of `data` as a JSON object.
    pub fn json(data: u16) -> (r: String)
        ensures
            r@ == Self::spec_json(data),
    {
        let d = Self::new(data);
        let mut s = String::new();
        push_char(&mut s, '{');
        let v = nat_to_text(d.meters_num as u64);
        push_member(&mut s, true, "meters_num", v.as_str());
        let v = json_string(d.meter_measure_type.as_str());
        push_member(&mut s, false, "meter_measure_type", v.as_str());
        let v = json_string(d.install_phase.as_str());
        push_member(&mut s, false, "install_phase", v.as_str());
        push_char(&mut s, '}');
        assert(s@ == Self::spec_json(data));
        s
    }
}

/// The decoding of the function-enable bits of holding register 233.
#[derive(Clone, Debug)]
pub struct Register233Bits {
    pub ub_quick_charge_start_en: String,
    pub ub_batt_backup_en: String,
    pub ub_maintenance_en: String,
    pub ub_working_mode: String,
}

impl Register233Bits {
    /// The JSON object of the decoding of `data`, with its keys in declaration order.
    pub open spec fn spec_json(data: u16) -> Seq<char> {
        (seq!['{'] + json_member(true, "ub_quick_charge_start_en"@, json_quoted((if (data / 1) % 2 == 1 { "ON"@ } else { "OFF"@ })))
            + json_member(false, "ub_batt_backup_en"@, json_quoted((if (data / 2) % 2 == 1 { "ON"@ } else { "OFF"@ })))
            + json_member(false, "ub_maintenance_en"@, json_quoted((if (data / 4) % 2 == 1 { "ON"@ } else { "OFF"@ })))
            + json_member(false, "ub_working_mode"@, json_quoted((if (data / 8) % 2 == 1 { "Work mode 2"@ } else { "Work mode 1"@ })))).push('}')
    }

    /// Decodes the register value `data`.
    pub fn new(data: u16) -> (r: Self)
        ensures
            r.ub_quick_charge_start_en@ == (if (data / 1) % 2 == 1 { "ON"@ } else { "OFF"@ }),
            r.ub_batt_backup_en@ == (if (data / 2) % 2 == 1 { "ON"@ } else { "OFF"@ }),
            r.ub_maintenance_en@ == (if (data / 4) % 2 == 1 { "ON"@ } else { "OFF"@ }),
            r.ub_working_mode@ == (if (data / 8) % 2 == 1 { "Work mode 2"@ } else { "Work mode 1"@ }),
    {
        Register233Bits {
            ub_quick_charge_start_en: flag_string((data / 1) % 2 == 1, "ON", "OFF"),
            ub_batt_backup_en: flag_string((data / 2) % 2 == 1, "ON", "OFF"),
            ub_maintenance_en: flag_string((data / 4) % 2 == 1, "ON", "OFF"),
            ub_working_mode: flag_string((data / 8) % 2 == 1, "Work mode 2", "Work mode 1"),
        }
    }

    /// The decoding of `data` as a JSON object.
    pub fn json(data: u16) -> (r: String)
        ensures
            r@ == Self::spec_json(data),
    {
        let d = Self::new(data);
        let mut s = String::new();
        push_char(&mut s, '{');
        let v = json_string(d.ub_quick_charge_start_en.as_str());
        push_member(&mut s, true, "ub_quick_charge_start_en", v.as_str());
        let v = json_string(d.ub_batt_backup_en.as_str());
        push_member(&mut s, false, "ub_batt_backup_en", v.as_str());
        let v = json_string(d.ub_maintenance_en.as_str());
        push_member(&mut s, false, "ub_maintenance_en", v.as_str());
        let v = json_string(d.ub_working_mode.as_str());
        push_member(&mut s, false, "ub_working_mode", v.as_str());
        push_char(&mut s, '}');
        assert(s@ == Self::spec_json(data));
        s
    }
}

/// The decoding of the full-charge counters of holding register 235.
#[derive(Clone, Debug)]
pub struct Register235Bits {
    pub no_full_charge_days: u8,
    pub no_full_charge_days_num_set: u8,
}

impl Register235Bits {
    /// The JSON object of the decoding of `data`, with its keys in declaration order.
    pub open spec fn spec_json(data: u16) -> Seq<char> {
        (seq!['{'] + json_member(true, "no_full_charge_days"@, decimal_text((((data / 1) % 256) as u8) as nat))
            + json_member(false, "no_full_charge_days_num_set"@, decimal_text((((data % 256) / 256) as u8) as nat))).push('}')
    }

    /// Decodes the register value `data`.
    pub fn new(data: u16) -> (r: Self)
        ensures
            r.no_full_charge_days == (((data / 1) % 256) as u8),
            r.no_full_charge_days_num_set == (((data % 256) / 256) as u8),
    {
        Register235Bits {
            no_full_charge_days: ((data / 1) % 256) as u8,
            no_full_charge_days_num_set: ((data % 256) / 256) as u8,
        }
    }

    /// The decoding of `data` as a JSON object.
    pub fn json(data: u16) -> (r: String)
        ensures
            r@ == Self::spec_json(data),
    {
        let d = Self::new(data);
        let mut s = String::new();
        push_char(&mut s, '{');
        let v = nat_to_text(d.no_full_charge_days as u64);
        push_member(&mut s, true, "no_full_charge_days", v.as_str());
        let v = nat_to_text(d.no_full_charge_days_num_set as u64);
        push_member(&mut s, false, "no_full_charge_days_num_set", v.as_str());
        push_char(&mut s, '}');
        assert(s@ == Self::spec_json(data));
        s
    }
}

} // verus!
