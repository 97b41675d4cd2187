use vstd::prelude::*;

verus! {

/// The label of each value of the Language setting.
pub open spec fn language_label(v: u16) -> Seq<char> {
    if v == 0 {
        "English"@
    } else if v == 1 {
        "German"@
    } else {
        "Unknown"@
    }
}

pub struct LanguageString;

impl LanguageString {
    /// The label of `v`.
    pub fn from_value(v: u16) -> (r: &'static str)
        ensures
            r@ == language_label(v),
    {
        if v == 0 {
            "English"
        } else if v == 1 {
            "German"
        } else {
            "Unknown"
        }
    }
}

/// The label of each value of the DtcDeviceType setting.
pub open spec fn dtc_device_type_label(v: u16) -> Seq<char> {
    if v == 0 {
        "Default"@
    } else if v == 3 {
        "XOLTA"@
    } else {
        "Unknown"@
    }
}

pub struct DtcDeviceTypeString;

impl DtcDeviceTypeString {
    /// The label of `v`.
    pub fn from_value(v: u16) -> (r: &'static str)
        ensures
            r@ == dtc_device_type_label(v),
    {
        if v == 0 {
            "Default"
        } else if v == 3 {
            "XOLTA"
        } else {
            "Unknown"
        }
    }
}

/// The label of each value of the PVInputModelStandard setting.
pub open spec fn pv_input_model_standard_label(v: u16) -> Seq<char> {
    if v == 0 {
        "No PV plug in"@
    } else if v == 1 {
        "PV1 plug in"@
    } else if v == 2 {
        "PV2 plug in"@
    } else if v == 3 {
        "Two PVs in parallel"@
    } else if v == 4 {
        "Two separate PVs"@
    } else {
        "Unknown"@
    }
}

pub struct PVInputModelStandardString;

impl PVInputModelStandardString {
    /// The label of `v`.
    pub fn from_value(v: u16) -> (r: &'static str)
        ensures
            r@ == pv_input_model_standard_label(v),
    {
        if v == 0 {
            "No PV plug in"
        } else if v == 1 {
            "PV1 plug in"
        } else if v == 2 {
            "PV2 plug in"
        } else if v == 3 {
            "Two PVs in parallel"
        } else if v == 4 {
            "Two separate PVs"
        } else {
            "Unknown"
        }
    }
}

/// The label of each value of the PVInputModel12KHybrid setting.
pub open spec fn pv_input_model12_k_hybrid_label(v: u16) -> Seq<char> {
    if v == 0 {
        "No PV plug in"@
    } else if v == 1 {
        "PV1 plug in"@
    } else if v == 2 {
        "PV2 plug in"@
    } else if v == 3 {
        "PV3 plug in"@
    } else if v == 4 {
        "PV1&2 in"@
    } else if v == 5 {
        "PV1&3 in"@
    } else if v == 6 {
        "PV2&3 in"@
    } else if v == 7 {
        "PV1&2&3 in"@
    } else {
        "Unknown"@
    }
}

pub struct PVInputModel12KHybridString;

impl PVInputModel12KHybridString {
    /// The label of `v`.
    pub fn from_value(v: u16) -> (r: &'static str)
        ensures
            r@ == pv_input_model12_k_hybrid_label(v),
    {
        if v == 0 {
            "No PV plug in"
        } else if v == 1 {
            "PV1 plug in"
        } else if v == 2 {
            "PV2 plug in"
        } else if v == 3 {
            "PV3 plug in"
        } else if v == 4 {
            "PV1&2 in"
        } else if v == 5 {
            "PV1&3 in"
        } else if v == 6 {
            "PV2&3 in"
        } else if v == 7 {
            "PV1&2&3 in"
        } else {
            "Unknown"
        }
    }
}

/// The label of each value of the PVInputModelTriPhase6To20K setting.
pub open spec fn pv_input_model_tri_phase6_to20_k_label(v: u16) -> Seq<char> {
    if v == 0 {
        "All MPPTs with individual PV strings"@
    } else if v == 1 {
        "PV1&2 in parallel"@
    } else if v == 2 {
        "PV1&3 in parallel"@
    } else if v == 3 {
        "PV2&3 in parallel"@
    } else if v == 4 {
        "PV1&2&3 in parallel"@
    } else {
        "Unknown"@
    }
}

pub struct PVInputModelTriPhase6To20KString;

impl PVInputModelTriPhase6To20KString {
    /// The label of `v`.
    pub fn from_value(v: u16) -> (r: &'static str)
        ensures
            r@ == pv_input_model_tri_phase6_to20_k_label(v),
    {
        if v == 0 {
            "All MPPTs with individual PV strings"
        } else if v == 1 {
            "PV1&2 in parallel"
        } else if v == 2 {
            "PV1&3 in parallel"
        } else if v == 3 {
            "PV2&3 in parallel"
        } else if v == 4 {
            "PV1&2&3 in parallel"
        } else {
            "Unknown"
        }
    }
}

/// The label of each value of the ReactivePowerCmdType setting.
pub open spec fn reactive_power_cmd_type_label(v: u16) -> Seq<char> {
    if v == 0 {
        "Unit power factor"@
    } else if v == 1 {
        "Fixed power factor"@
    } else if v == 2 {
        "Default PF curve (American machine: Q(P))"@
    } else if v == 3 {
        "Custom PF curve"@
    } else if v == 4 {
        "Capacitive reactive power percentage"@
    } else if v == 5 {
        "Inductive reactive power percentage"@
    } else if v == 6 {
        "QV curve"@
    } else if v == 7 {
        "QV dynamic"@
    } else {
        "Unknown"@
    }
}

pub struct ReactivePowerCmdTypeString;

impl ReactivePowerCmdTypeString {
    /// The label of `v`.
    pub fn from_value(v: u16) -> (r: &'static str)
        ensures
            r@ == reactive_power_cmd_type_label(v),
    {
        if v == 0 {
            "Unit power factor"
        } else if v == 1 {
            "Fixed power factor"
        } else if v == 2 {
            "Default PF curve (American machine: Q(P))"
        } else if v == 3 {
            "Custom PF curve"
        } else if v == 4 {
            "Capacitive reactive power percentage"
        } else if v == 5 {
            "Inductive reactive power percentage"
        } else if v == 6 {
            "QV curve"
        } else if v == 7 {
            "QV dynamic"
        } else {
            "Unknown"
        }
    }
}

/// The label of each value of the SetSystemType setting.
pub open spec fn set_system_type_label(v: u16) -> Seq<char> {
    if v == 0 {
        "Single Unit"@
    } else if v == 1 {
        "Single-phase parallel (Primary)"@
    } else if v == 2 {
        "Single-phase parallel (Secondary)"@
    } else if v == 3 {
        "Three phase parallel (Master)"@
    } else if v == 4 {
        "2*208 (Master)"@
    } else if v == 5 {
        "Inductive reactive power percentage"@
    } else if v == 6 {
        "QV curve"@
    } else if v == 7 {
        "QV dynamic"@
    } else {
        "Unknown"@
    }
}

pub struct SetSystemTypeString;

impl SetSystemTypeString {
    /// The label of `v`.
    pub fn from_value(v: u16) -> (r: &'static str)
        ensures
            r@ == set_system_type_label(v),
    {
        if v == 0 {
            "Single Unit"
        } else if v == 1 {
            "Single-phase parallel (Primary)"
        } else if v == 2 {
            "Single-phase parallel (Secondary)"
        } else if v == 3 {
            "Three phase parallel (Master)"
        } else if v == 4 {
            "2*208 (Master)"
        } else if v == 5 {
            "Inductive reactive power percentage"
        } else if v == 6 {
            "QV curve"
        } else if v == 7 {
            "QV dynamic"
        } else {
            "Unknown"
        }
    }
}

/// The label of each value of the OutputPrioConfig setting.
pub open spec fn output_prio_config_label(v: u16) -> Seq<char> {
    if v == 0 {
        "Battery first"@
    } else if v == 1 {
        "PV first"@
    } else if v == 2 {
        "AC first"@
    } else {
        "Unknown"@
    }
}

pub struct OutputPrioConfigString;

impl OutputPrioConfigString {
    /// The label of `v`.
    pub fn from_value(v: u16) -> (r: &'static str)
        ensures
            r@ == output_prio_config_label(v),
    {
        if v == 0 {
            "Battery first"
        } else if v == 1 {
            "PV first"
        } else if v == 2 {
            "AC first"
        } else {
            "Unknown"
        }
    }
}

/// The label of each value of the LineMode setting.
pub open spec fn line_mode_label(v: u16) -> Seq<char> {
    if v == 0 {
        "APL (90-280V 20ms)"@
    } else if v == 1 {
        "UPS (170-280V 10ms)"@
    } else if v == 2 {
        "GEN (90-280V 20ms)"@
    } else {
        "Unknown"@
    }
}

pub struct LineModeString;

impl LineModeString {
    /// The label of `v`.
    pub fn from_value(v: u16) -> (r: &'static str)
        ensures
            r@ == line_mode_label(v),
    {
        if v == 0 {
            "APL (90-280V 20ms)"
        } else if v == 1 {
            "UPS (170-280V 10ms)"
        } else if v == 2 {
            "GEN (90-280V 20ms)"
        } else {
            "Unknown"
        }
    }
}

/// The label of each value of the GridType setting.
pub open spec fn grid_type_label(v: u16) -> Seq<char> {
    if v == 0 {
        "Split 240V/120V"@
    } else if v == 1 {
        "Tri-phase 208V/120V"@
    } else if v == 2 {
        "Single 240V"@
    } else if v == 3 {
        "Single 230V"@
    } else if v == 4 {
        "Split 200V/100V"@
    } else {
        "Unknown"@
    }
}

pub struct GridTypeString;

impl GridTypeString {
    /// The label of `v`.
    pub fn from_value(v: u16) -> (r: &'static str)
        ensures
            r@ == grid_type_label(v),
    {
        if v == 0 {
            "Split 240V/120V"
        } else if v == 1 {
            "Tri-phase 208V/120V"
        } else if v == 2 {
            "Single 240V"
        } else if v == 3 {
            "Single 230V"
        } else if v == 4 {
            "Split 200V/100V"
        } else {
            "Unknown"
        }
    }
}

/// The label of each value of the Status setting.
pub open spec fn status_label(v: u16) -> Seq<char> {
    if v == 0x00 {
        "Standby"@
    } else if v == 0x01 {
        "Fault"@
    } else if v == 0x02 {
        "FW Updating"@
    } else if v == 0x04 {
        "PV On-grid"@
    } else if v == 0x08 {
        "PV Charge"@
    } else if v == 0x0C {
        "PV Charge & On-grid"@
    } else if v == 0x10 {
        "Battery On-grid"@
    } else if v == 0x11 {
        "Bypass"@
    } else if v == 0x14 {
        "PV & Battery On-grid"@
    } else if v == 0x19 {
        "PV Charge + Bypass"@
    } else if v == 0x20 {
        "AC Charge"@
    } else if v == 0x28 {
        "PV & AC Charge"@
    } else if v == 0x40 {
        "Battery Off-grid"@
    } else if v == 0x60 {
        "Off-grid & AC-coupled battery charging"@
    } else if v == 0x80 {
        "PV Off-grid"@
    } else if v == 0xC0 {
        "PV & Battery Off-grid"@
    } else if v == 0x88 {
        "PV Charge Off-grid"@
    } else {
        "Unknown"@
    }
}

pub struct StatusString;

impl StatusString {
    /// The label of `v`.
    pub fn from_value(v: u16) -> (r: &'static str)
        ensures
            r@ == status_label(v),
    {
        if v == 0x00 {
            "Standby"
        } else if v == 0x01 {
            "Fault"
        } else if v == 0x02 {
            "FW Updating"
        } else if v == 0x04 {
            "PV On-grid"
        } else if v == 0x08 {
            "PV Charge"
        } else if v == 0x0C {
            "PV Charge & On-grid"
        } else if v == 0x10 {
            "Battery On-grid"
        } else if v == 0x11 {
            "Bypass"
        } else if v == 0x14 {
            "PV & Battery On-grid"
        } else if v == 0x19 {
            "PV Charge + Bypass"
        } else if v == 0x20 {
            "AC Charge"
        } else if v == 0x28 {
            "PV & AC Charge"
        } else if v == 0x40 {
            "Battery Off-grid"
        } else if v == 0x60 {
            "Off-grid & AC-coupled battery charging"
        } else if v == 0x80 {
            "PV Off-grid"
        } else if v == 0xC0 {
            "PV & Battery Off-grid"
        } else if v == 0x88 {
            "PV Charge Off-grid"
        } else {
            "Unknown"
        }
    }
}

/// The warning message of each bit.
pub open spec fn warning_bit_label(v: u32) -> Seq<char> {
    if v == 0 {
        "W000: Battery communication failure"@
    } else if v == 1 {
        "W001: AFCI communication failure"@
    } else if v == 2 {
        "W002: AFCI high"@
    } else if v == 3 {
        "W003: Meter communication failure"@
    } else if v == 4 {
        "W004: Both charge and discharge forbidden by battery"@
    } else if v == 5 {
        "W005: Auto test failed"@
    } else if v == 6 {
        "W006: Reserved"@
    } else if v == 7 {
        "W007: LCD communication failure"@
    } else if v == 8 {
        "W008: FW version mismatch"@
    } else if v == 9 {
        "W009: Fan stuck"@
    } else if v == 10 {
        "W010: Reserved"@
    } else if v == 11 {
        "W011: Parallel number out of range"@
    } else if v == 12 {
        "W012: Bat On Mos"@
    } else if v == 13 {
        "W013: Overtemperature (NTC reading is too high)"@
    } else if v == 14 {
        "W014: Reserved"@
    } else if v == 15 {
        "W015: Battery reverse connection"@
    } else if v == 16 {
        "W016: Grid power outage"@
    } else if v == 17 {
        "W017: Grid voltage out of range"@
    } else if v == 18 {
        "W018: Grid frequency out of range"@
    } else if v == 19 {
        "W019: Reserved"@
    } else if v == 20 {
        "W020: PV insulation low"@
    } else if v == 21 {
        "W021: Leakage current high"@
    } else if v == 22 {
        "W022: DCI high"@
    } else if v == 23 {
        "W023: PV short"@
    } else if v == 24 {
        "W024: Reserved"@
    } else if v == 25 {
        "W025: Battery voltage high"@
    } else if v == 26 {
        "W026: Battery voltage low"@
    } else if v == 27 {
        "W027: Battery open circuit"@
    } else if v == 28 {
        "W028: EPS overload"@
    } else if v == 29 {
        "W029: EPS voltage high"@
    } else if v == 30 {
        "W030: Meter reverse connection"@
    } else if v == 31 {
        "W031: DCV high"@
    } else {
        "Unknown"@
    }
}

/// The fault message of each bit.
pub open spec fn fault_bit_label(v: u32) -> Seq<char> {
    if v == 0 {
        "E000: Internal communication fault 1"@
    } else if v == 1 {
        "E001: Model fault"@
    } else if v == 2 {
        "E002: BatOnMosFail"@
    } else if v == 3 {
        "E003: CT Fail"@
    } else if v == 4 {
        "E004: Reserved"@
    } else if v == 5 {
        "E005: Reserved"@
    } else if v == 6 {
        "E006: Reserved"@
    } else if v == 7 {
        "E007: Reserved"@
    } else if v == 8 {
        "E008: CAN communication error in parallel system"@
    } else if v == 9 {
        "E009: master lost in parallel system"@
    } else if v == 10 {
        "E010: multiple master units in parallel system"@
    } else if v == 11 {
        "E011: AC input inconsistent in parallel system"@
    } else if v == 12 {
        "E012: UPS short"@
    } else if v == 13 {
        "E013: Reverse current on UPS output"@
    } else if v == 14 {
        "E014: Bus short"@
    } else if v == 15 {
        "E015: Phase error in three phase system"@
    } else if v == 16 {
        "E016: Relay check fault"@
    } else if v == 17 {
        "E017: Internal communication fault 2"@
    } else if v == 18 {
        "E018: Internal communication fault 3"@
    } else if v == 19 {
        "E019: Bus voltage high"@
    } else if v == 20 {
        "E020: EPS connection fault"@
    } else if v == 21 {
        "E021: PV voltage high"@
    } else if v == 22 {
        "E022: Over current protection"@
    } else if v == 23 {
        "E023: Neutral fault"@
    } else if v == 24 {
        "E024: PV short"@
    } else if v == 25 {
        "E025: Radiator temperature over range"@
    } else if v == 26 {
        "E026: Internal fault"@
    } else if v == 27 {
        "E027: Sample inconsistent between Main CPU and redundant CPU"@
    } else if v == 28 {
        "E028: Reserved"@
    } else if v == 29 {
        "E029: Reserved"@
    } else if v == 30 {
        "E030: Reserved"@
    } else if v == 31 {
        "E031: Internal communication fault 4"@
    } else {
        "Unknown"@
    }
}
/// How many times 2 divides `v`: the position of its lowest set bit.
pub open spec fn lowest_set_bit(v: u32) -> nat
    decreases v,
{
    if v == 0 || v % 2 == 1 {
        0
    } else {
        1 + lowest_set_bit((v / 2) as u32)
    }
}

/// Two to the power `k`.
pub open spec fn two_to(k: nat) -> nat
    decreases k,
{
    if k == 0 {
        1
    } else {
        2 * two_to((k - 1) as nat)
    }
}

proof fn lemma_lowest_set_bit_bound(v: u32, k: nat)
    requires
        v != 0,
        v < two_to(k),
    ensures
        lowest_set_bit(v) < k,
    decreases k,
{
    if v % 2 == 0 {
        lemma_lowest_set_bit_bound((v / 2) as u32, (k - 1) as nat);
    }
}

/// A nonzero 32-bit code has its lowest set bit below 32.
pub proof fn lemma_lowest_set_bit_below_32(v: u32)
    requires
        v != 0,
    ensures
        lowest_set_bit(v) < 32,
{
    reveal_with_fuel(two_to, 33);
    lemma_lowest_set_bit_bound(v, 32);
}

/// The warning message of a 32-bit warning code: that of its lowest set bit, or `OK`.
pub open spec fn warning_message(v: u32) -> Seq<char> {
    if v == 0 {
        "OK"@
    } else {
        warning_bit_label(lowest_set_bit(v) as u32)
    }
}

/// The fault message of a 32-bit fault code: that of its lowest set bit, or `OK`.
pub open spec fn fault_message(v: u32) -> Seq<char> {
    if v == 0 {
        "OK"@
    } else {
        fault_bit_label(lowest_set_bit(v) as u32)
    }
}

/// The lowest set bit of a nonzero code.
fn find_lowest_set_bit(value: u32) -> (r: u32)
    requires
        value != 0,
    ensures
        r == lowest_set_bit(value),
        r < 32,
{
    proof {
        lemma_lowest_set_bit_below_32(value);
    }
    let mut rest = value;
    let mut bit: u32 = 0;
    while rest % 2 == 0
        invariant
            rest != 0,
            bit + lowest_set_bit(rest) == lowest_set_bit(value),
            lowest_set_bit(value) < 32,
        decreases rest,
    {
        rest = rest / 2;
        bit = bit + 1;
    }
    bit
}

pub struct WarningCodeString;

impl WarningCodeString {
    /// The message of a warning code: that of its lowest set bit, or `OK` when no bit is set.
    pub fn from_value(value: u32) -> (r: &'static str)
        ensures
            r@ == warning_message(value),
    {
        if value == 0 {
            return "OK";
        }
        Self::from_bit(find_lowest_set_bit(value))
    }

    /// The message of one warning bit.
    pub fn from_bit(bit: u32) -> (r: &'static str)
        requires
            bit < 32,
        ensures
            r@ == warning_bit_label(bit),
    {
        if bit == 0 {
            "W000: Battery communication failure"
        } else if bit == 1 {
            "W001: AFCI communication failure"
        } else if bit == 2 {
            "W002: AFCI high"
        } else if bit == 3 {
            "W003: Meter communication failure"
        } else if bit == 4 {
            "W004: Both charge and discharge forbidden by battery"
        } else if bit == 5 {
            "W005: Auto test failed"
        } else if bit == 6 {
            "W006: Reserved"
        } else if bit == 7 {
            "W007: LCD communication failure"
        } else if bit == 8 {
            "W008: FW version mismatch"
        } else if bit == 9 {
            "W009: Fan stuck"
        } else if bit == 10 {
            "W010: Reserved"
        } else if bit == 11 {
            "W011: Parallel number out of range"
        } else if bit == 12 {
            "W012: Bat On Mos"
        } else if bit == 13 {
            "W013: Overtemperature (NTC reading is too high)"
        } else if bit == 14 {
            "W014: Reserved"
        } else if bit == 15 {
            "W015: Battery reverse connection"
        } else if bit == 16 {
            "W016: Grid power outage"
        } else if bit == 17 {
            "W017: Grid voltage out of range"
        } else if bit == 18 {
            "W018: Grid frequency out of range"
        } else if bit == 19 {
            "W019: Reserved"
        } else if bit == 20 {
            "W020: PV insulation low"
        } else if bit == 21 {
            "W021: Leakage current high"
        } else if bit == 22 {
            "W022: DCI high"
        } else if bit == 23 {
            "W023: PV short"
        } else if bit == 24 {
            "W024: Reserved"
        } else if bit == 25 {
            "W025: Battery voltage high"
        } else if bit == 26 {
            "W026: Battery voltage low"
        } else if bit == 27 {
            "W027: Battery open circuit"
        } else if bit == 28 {
            "W028: EPS overload"
        } else if bit == 29 {
            "W029: EPS voltage high"
        } else if bit == 30 {
            "W030: Meter reverse connection"
        } else if bit == 31 {
            "W031: DCV high"
        } else {
            "Unknown"
        }
    }
}

pub struct FaultCodeString;

impl FaultCodeString {
    /// The message of a fault code: that of its lowest set bit, or `OK` when no bit is set.
    pub fn from_value(value: u32) -> (r: &'static str)
        ensures
            r@ == fault_message(value),
    {
        if value == 0 {
            return "OK";
        }
        Self::from_bit(find_lowest_set_bit(value))
    }

    /// The message of one fault bit.
    pub fn from_bit(bit: u32) -> (r: &'static str)
        requires
            bit < 32,
        ensures
            r@ == fault_bit_label(bit),
    {
        if bit == 0 {
            "E000: Internal communication fault 1"
        } else if bit == 1 {
            "E001: Model fault"
        } else if bit == 2 {
            "E002: BatOnMosFail"
        } else if bit == 3 {
            "E003: CT Fail"
        } else if bit == 4 {
            "E004: Reserved"
        } else if bit == 5 {
            "E005: Reserved"
        } else if bit == 6 {
            "E006: Reserved"
        } else if bit == 7 {
            "E007: Reserved"
        } else if bit == 8 {
            "E008: CAN communication error in parallel system"
        } else if bit == 9 {
            "E009: master lost in parallel system"
        } else if bit == 10 {
            "E010: multiple master units in parallel system"
        } else if bit == 11 {
            "E011: AC input inconsistent in parallel system"
        } else if bit == 12 {
            "E012: UPS short"
        } else if bit == 13 {
            "E013: Reverse current on UPS output"
        } else if bit == 14 {
            "E014: Bus short"
        } else if bit == 15 {
            "E015: Phase error in three phase system"
        } else if bit == 16 {
            "E016: Relay check fault"
        } else if bit == 17 {
            "E017: Internal communication fault 2"
        } else if bit == 18 {
            "E018: Internal communication fault 3"
        } else if bit == 19 {
            "E019: Bus voltage high"
        } else if bit == 20 {
            "E020: EPS connection fault"
        } else if bit == 21 {
            "E021: PV voltage high"
        } else if bit == 22 {
            "E022: Over current protection"
        } else if bit == 23 {
            "E023: Neutral fault"
        } else if bit == 24 {
            "E024: PV short"
        } else if bit == 25 {
            "E025: Radiator temperature over range"
        } else if bit == 26 {
            "E026: Internal fault"
        } else if bit == 27 {
            "E027: Sample inconsistent between Main CPU and redundant CPU"
        } else if bit == 28 {
            "E028: Reserved"
        } else if bit == 29 {
            "E029: Reserved"
        } else if bit == 30 {
            "E030: Reserved"
        } else if bit == 31 {
            "E031: Internal communication fault 4"
        } else {
            "Unknown"
        }
    }
}

} // verus!
