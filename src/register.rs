use vstd::prelude::*;

verus! {

/// The holding registers that the inverter documents, by address.
#[derive(Clone, Copy, Debug, PartialEq, Eq, Structural)]
pub enum Register {
    FwCodeLo,
    FwCodeHi,
    Version1,
    Version2,
    ResetSetting,
    InverterTime1,
    InverterTime2,
    InverterTime3,
    ComAddress,
    Language,
    DeviceType,
    PvInputModel,
    Register21,
    StartPvVolt,
    ConnectTime,
    ReconnectTime,
    GridVoltConnLow,
    GridVoltConnHigh,
    GridFreqConnLow,
    GridFreqConnHigh,
    GridVoltLimit1Low,
    GridVoltLimit1High,
    GridVoltLimit1LowTime,
    GridVoltLimit1HighTime,
    GridVoltLimit2Low,
    GridVoltLimit2High,
    GridVoltLimit2LowTime,
    GridVoltLimit2HighTime,
    GridVoltLimit3Low,
    GridVoltLimit3High,
    GridVoltLimit3LowTime,
    GridVoltLimit3HighTime,
    GridVoltMovAvgHigh,
    GridFreqLimit1Low,
    GridFreqLimit1High,
    GridFreqLimit1LowTime,
    GridFreqLimit1HighTime,
    GridFreqLimit2Low,
    GridFreqLimit2High,
    GridFreqLimit2LowTime,
    GridFreqLimit2HighTime,
    GridFreqLimit3Low,
    GridFreqLimit3High,
    GridFreqLimit3LowTime,
    GridFreqLimit3HighTime,
    MaxQPercentForQV,
    V1L,
    V2L,
    V1H,
    V2H,
    ReactivePowerCmdType,
    ActivePowerPercentCmd,
    ReactivePowerPercentCmd,
    PfCmd,
    PowerSoftStartSlope,
    ChargePowerPercentCmd,
    DischgPowerPercentCmd,
    AcChargePowerCmd,
    AcChargeSocLimit,
    ChargePriorityPowerCmd,
    ChargePrioritySocLimit,
    ForcedDischgPowerCmd,
    ForcedDischgSocLimit,
    EpsVoltageSet,
    EpsFrequencySet,
    LockInGridVForPFCurve,
    LockOutGridVForPFCurve,
    LockInPowerForQVCurve,
    LockOutPowerForQVCurve,
    DelayTimeForQVCurve,
    DelayTimeForOverFCurve,
    ChargeVoltRef,
    CutVoltForDischg,
    ChargeCurr,
    DischgCurr,
    MaxBackFlow,
    DischgCutOffSocEod,
    TemprLowerLimitDischg,
    TemprUpperLimitDischg,
    TemprLowerLimitChg,
    TemprUpperLimitChg,
    FunctionEnable1,
    SetSystemType,
    SetComposedPhase,
    ClearFunction,
    OVFDerateStartPoint,
    PtoUserStartDischg,
    PtoUserStartCharge,
    VbatStartDerating,
    WCTPowerOffset,
    StSysEnable,
    OVFDerateEndPoint,
    EpsDischgCutoffSocEod,
    OptimalChgDischg1,
    OptimalChgDischg2,
    OptimalChgDischg3,
    OptimalChgDischg4,
    OptimalChgDischg5,
    OptimalChgDischg6,
    BatCellVoltageLimit,
    BatCellConfig,
    UVFDerateStartPoint,
    UVFDerateEndPoint,
    OVFDerateRatio,
    SpecLoadCompensate,
    ChargePowerPercentCmd2,
    DischgPowerPercentCmd2,
    AcChargePowerCmd2,
    ChargePriorityPowerCmd2,
    ForcedDischgPowerCmd2,
    ActivePowerPercentCmd2,
    FloatChargeVolt,
    OutputPrioConfig,
    LineMode,
    BatteryCapacity,
    BatteryNominalVolt,
    EqualizationVolt,
    EqualizationInterval,
    EqualizationTime,
    AcChargeStartVolt,
    AcChargeEndVolt,
    AcChargeStartSocLimit,
    AcChargeEndSocLimit,
    BatLowVoltage,
    BatLowBackVoltage,
    BatLowSoc,
    BatLowBackSoc,
    BatLowToUtilityVoltage,
    BatLowtoUtilitySoc,
    AcChargeBatCurrent,
    OnGridEndDischrgVoltage,
    SocCurveBatVolt1,
    SocCurveBatVolt2,
    SocCurveSoc1,
    SocCurveSoc2,
    SocCurveInnerResistance,
    MaxGridInputPower,
    GenRatePower,
    FunctionEnable2,
    AFCIArcThreshold,
    VoltWattV1,
    VoltWattV2,
    VoltWattDelayTime,
    VoltWattP2,
    VrefQV,
    VrefFilterTime,
    Q3Qv,
    Q4Qv,
    P1Qp,
    P2Qp,
    P3Qp,
    P4Qp,
    UVFIncreaseRatio,
    GenChargeStartVolt,
    GenChargeEndVolt,
    GenChargeStartSoc,
    GenChargeEndSoc,
    MaxGenChargeBatCurr,
    OverTempDeratePoint,
    ChargePriorityEndVolt,
    ForceDichgEndVolt,
    GridRegulation,
    LeadCapacity,
    GridType,
    GridPeakShavingPower,
    GridPeakShavingSoc,
    GridPeakShavingVolt,
    SmartLoadOnVolt,
    SmartLoadOffVolt,
    SmartLoadOnSoc,
    SmartLoadOffSoc,
    StartPVpower,
    GridPeakShavingSoc1,
    GridPeakShavingVolt1,
    ACCoupleStartSoc,
    ACCoupleEndSoc,
    ACCoupleStartVolt,
    ACCoupleEndVolt,
    LCDConfig,
    LCDPassword,
    BatStopChargeSoc,
    BatStopChargeVolt,
    MeterConfig,
    ResetRecord,
    GridPeakShavingPower1,
    FunctionEnable4,
    QuickChargeTime,
    NoFullChargeDay,
    FloatChargeThreshold,
    GenCoolDownTime,
    AllowService,
}

impl Register {
    pub open spec fn spec_value(self) -> u16 {
        match self {
            Register::FwCodeLo => 7,
            Register::FwCodeHi => 8,
            Register::Version1 => 9,
            Register::Version2 => 10,
            Register::ResetSetting => 11,
            Register::InverterTime1 => 12,
            Register::InverterTime2 => 13,
            Register::InverterTime3 => 14,
            Register::ComAddress => 15,
            Register::Language => 16,
            Register::DeviceType => 19,
            Register::PvInputModel => 20,
            Register::Register21 => 21,
            Register::StartPvVolt => 22,
            Register::ConnectTime => 23,
            Register::ReconnectTime => 24,
            Register::GridVoltConnLow => 25,
            Register::GridVoltConnHigh => 26,
            Register::GridFreqConnLow => 27,
            Register::GridFreqConnHigh => 28,
            Register::GridVoltLimit1Low => 29,
            Register::GridVoltLimit1High => 30,
            Register::GridVoltLimit1LowTime => 31,
            Register::GridVoltLimit1HighTime => 32,
            Register::GridVoltLimit2Low => 33,
            Register::GridVoltLimit2High => 34,
            Register::GridVoltLimit2LowTime => 35,
            Register::GridVoltLimit2HighTime => 36,
            Register::GridVoltLimit3Low => 37,
            Register::GridVoltLimit3High => 38,
            Register::GridVoltLimit3LowTime => 39,
            Register::GridVoltLimit3HighTime => 40,
            Register::GridVoltMovAvgHigh => 41,
            Register::GridFreqLimit1Low => 42,
            Register::GridFreqLimit1High => 43,
            Register::GridFreqLimit1LowTime => 44,
            Register::GridFreqLimit1HighTime => 45,
            Register::GridFreqLimit2Low => 46,
            Register::GridFreqLimit2High => 47,
            Register::GridFreqLimit2LowTime => 48,
            Register::GridFreqLimit2HighTime => 49,
            Register::GridFreqLimit3Low => 50,
            Register::GridFreqLimit3High => 51,
            Register::GridFreqLimit3LowTime => 52,
            Register::GridFreqLimit3HighTime => 53,
            Register::MaxQPercentForQV => 54,
            Register::V1L => 55,
            Register::V2L => 56,
            Register::V1H => 57,
            Register::V2H => 58,
            Register::ReactivePowerCmdType => 59,
            Register::ActivePowerPercentCmd => 60,
            Register::ReactivePowerPercentCmd => 61,
            Register::PfCmd => 62,
            Register::PowerSoftStartSlope => 63,
            Register::ChargePowerPercentCmd => 64,
            Register::DischgPowerPercentCmd => 65,
            Register::AcChargePowerCmd => 66,
            Register::AcChargeSocLimit => 67,
            Register::ChargePriorityPowerCmd => 74,
            Register::ChargePrioritySocLimit => 75,
            Register::ForcedDischgPowerCmd => 82,
            Register::ForcedDischgSocLimit => 83,
            Register::EpsVoltageSet => 90,
            Register::EpsFrequencySet => 91,
            Register::LockInGridVForPFCurve => 92,
            Register::LockOutGridVForPFCurve => 93,
            Register::LockInPowerForQVCurve => 94,
            Register::LockOutPowerForQVCurve => 95,
            Register::DelayTimeForQVCurve => 96,
            Register::DelayTimeForOverFCurve => 97,
            Register::ChargeVoltRef => 99,
            Register::CutVoltForDischg => 100,
            Register::ChargeCurr => 101,
            Register::DischgCurr => 102,
            Register::MaxBackFlow => 103,
            Register::DischgCutOffSocEod => 105,
            Register::TemprLowerLimitDischg => 106,
            Register::TemprUpperLimitDischg => 107,
            Register::TemprLowerLimitChg => 108,
            Register::TemprUpperLimitChg => 109,
            Register::FunctionEnable1 => 110,
            Register::SetSystemType => 112,
            Register::SetComposedPhase => 113,
            Register::ClearFunction => 114,
            Register::OVFDerateStartPoint => 115,
            Register::PtoUserStartDischg => 116,
            Register::PtoUserStartCharge => 117,
            Register::VbatStartDerating => 118,
            Register::WCTPowerOffset => 119,
            Register::StSysEnable => 120,
            Register::OVFDerateEndPoint => 124,
            Register::EpsDischgCutoffSocEod => 125,
            Register::OptimalChgDischg1 => 126,
            Register::OptimalChgDischg2 => 127,
            Register::OptimalChgDischg3 => 128,
            Register::OptimalChgDischg4 => 129,
            Register::OptimalChgDischg5 => 130,
            Register::OptimalChgDischg6 => 131,
            Register::BatCellVoltageLimit => 132,
            Register::BatCellConfig => 133,
            Register::UVFDerateStartPoint => 134,
            Register::UVFDerateEndPoint => 135,
            Register::OVFDerateRatio => 136,
            Register::SpecLoadCompensate => 137,
            Register::ChargePowerPercentCmd2 => 138,
            Register::DischgPowerPercentCmd2 => 139,
            Register::AcChargePowerCmd2 => 140,
            Register::ChargePriorityPowerCmd2 => 141,
            Register::ForcedDischgPowerCmd2 => 142,
            Register::ActivePowerPercentCmd2 => 143,
            Register::FloatChargeVolt => 144,
            Register::OutputPrioConfig => 145,
            Register::LineMode => 146,
            Register::BatteryCapacity => 147,
            Register::BatteryNominalVolt => 148,
            Register::EqualizationVolt => 149,
            Register::EqualizationInterval => 150,
            Register::EqualizationTime => 151,
            Register::AcChargeStartVolt => 158,
            Register::AcChargeEndVolt => 159,
            Register::AcChargeStartSocLimit => 160,
            Register::AcChargeEndSocLimit => 161,
            Register::BatLowVoltage => 162,
            Register::BatLowBackVoltage => 163,
            Register::BatLowSoc => 164,
            Register::BatLowBackSoc => 165,
            Register::BatLowToUtilityVoltage => 166,
            Register::BatLowtoUtilitySoc => 167,
            Register::AcChargeBatCurrent => 168,
            Register::OnGridEndDischrgVoltage => 169,
            Register::SocCurveBatVolt1 => 171,
            Register::SocCurveBatVolt2 => 172,
            Register::SocCurveSoc1 => 173,
            Register::SocCurveSoc2 => 174,
            Register::SocCurveInnerResistance => 175,
            Register::MaxGridInputPower => 176,
            Register::GenRatePower => 177,
            Register::FunctionEnable2 => 179,
            Register::AFCIArcThreshold => 180,
            Register::VoltWattV1 => 181,
            Register::VoltWattV2 => 182,
            Register::VoltWattDelayTime => 183,
            Register::VoltWattP2 => 184,
            Register::VrefQV => 185,
            Register::VrefFilterTime => 186,
            Register::Q3Qv => 187,
            Register::Q4Qv => 188,
            Register::P1Qp => 189,
            Register::P2Qp => 190,
            Register::P3Qp => 191,
            Register::P4Qp => 192,
            Register::UVFIncreaseRatio => 193,
            Register::GenChargeStartVolt => 194,
            Register::GenChargeEndVolt => 195,
            Register::GenChargeStartSoc => 196,
            Register::GenChargeEndSoc => 197,
            Register::MaxGenChargeBatCurr => 198,
            Register::OverTempDeratePoint => 199,
            Register::ChargePriorityEndVolt => 201,
            Register::ForceDichgEndVolt => 202,
            Register::GridRegulation => 203,
            Register::LeadCapacity => 204,
            Register::GridType => 205,
            Register::GridPeakShavingPower => 206,
            Register::GridPeakShavingSoc => 207,
            Register::GridPeakShavingVolt => 208,
            Register::SmartLoadOnVolt => 213,
            Register::SmartLoadOffVolt => 214,
            Register::SmartLoadOnSoc => 215,
            Register::SmartLoadOffSoc => 216,
            Register::StartPVpower => 217,
            Register::GridPeakShavingSoc1 => 218,
            Register::GridPeakShavingVolt1 => 219,
            Register::ACCoupleStartSoc => 220,
            Register::ACCoupleEndSoc => 221,
            Register::ACCoupleStartVolt => 222,
            Register::ACCoupleEndVolt => 223,
            Register::LCDConfig => 224,
            Register::LCDPassword => 225,
            Register::BatStopChargeSoc => 227,
            Register::BatStopChargeVolt => 228,
            Register::MeterConfig => 230,
            Register::ResetRecord => 231,
            Register::GridPeakShavingPower1 => 232,
            Register::FunctionEnable4 => 233,
            Register::QuickChargeTime => 234,
            Register::NoFullChargeDay => 235,
            Register::FloatChargeThreshold => 236,
            Register::GenCoolDownTime => 237,
            Register::AllowService => 241,
        }
    }

    /// The register's address.
    #[verifier::when_used_as_spec(spec_value)]
    pub fn value(self) -> (r: u16)
        ensures
            r == self.spec_value(),
    {
        match self {
            Register::FwCodeLo => 7,
            Register::FwCodeHi => 8,
            Register::Version1 => 9,
            Register::Version2 => 10,
            Register::ResetSetting => 11,
            Register::InverterTime1 => 12,
            Register::InverterTime2 => 13,
            Register::InverterTime3 => 14,
            Register::ComAddress => 15,
            Register::Language => 16,
            Register::DeviceType => 19,
            Register::PvInputModel => 20,
            Register::Register21 => 21,
            Register::StartPvVolt => 22,
            Register::ConnectTime => 23,
            Register::ReconnectTime => 24,
            Register::GridVoltConnLow => 25,
            Register::GridVoltConnHigh => 26,
            Register::GridFreqConnLow => 27,
            Register::GridFreqConnHigh => 28,
            Register::GridVoltLimit1Low => 29,
            Register::GridVoltLimit1High => 30,
            Register::GridVoltLimit1LowTime => 31,
            Register::GridVoltLimit1HighTime => 32,
            Register::GridVoltLimit2Low => 33,
            Register::GridVoltLimit2High => 34,
            Register::GridVoltLimit2LowTime => 35,
            Register::GridVoltLimit2HighTime => 36,
            Register::GridVoltLimit3Low => 37,
            Register::GridVoltLimit3High => 38,
            Register::GridVoltLimit3LowTime => 39,
            Register::GridVoltLimit3HighTime => 40,
            Register::GridVoltMovAvgHigh => 41,
            Register::GridFreqLimit1Low => 42,
            Register::GridFreqLimit1High => 43,
            Register::GridFreqLimit1LowTime => 44,
            Register::GridFreqLimit1HighTime => 45,
            Register::GridFreqLimit2Low => 46,
            Register::GridFreqLimit2High => 47,
            Register::GridFreqLimit2LowTime => 48,
            Register::GridFreqLimit2HighTime => 49,
            Register::GridFreqLimit3Low => 50,
            Register::GridFreqLimit3High => 51,
            Register::GridFreqLimit3LowTime => 52,
            Register::GridFreqLimit3HighTime => 53,
            Register::MaxQPercentForQV => 54,
            Register::V1L => 55,
            Register::V2L => 56,
            Register::V1H => 57,
            Register::V2H => 58,
            Register::ReactivePowerCmdType => 59,
            Register::ActivePowerPercentCmd => 60,
            Register::ReactivePowerPercentCmd => 61,
            Register::PfCmd => 62,
            Register::PowerSoftStartSlope => 63,
            Register::ChargePowerPercentCmd => 64,
            Register::DischgPowerPercentCmd => 65,
            Register::AcChargePowerCmd => 66,
            Register::AcChargeSocLimit => 67,
            Register::ChargePriorityPowerCmd => 74,
            Register::ChargePrioritySocLimit => 75,
            Register::ForcedDischgPowerCmd => 82,
            Register::ForcedDischgSocLimit => 83,
            Register::EpsVoltageSet => 90,
            Register::EpsFrequencySet => 91,
            Register::LockInGridVForPFCurve => 92,
            Register::LockOutGridVForPFCurve => 93,
            Register::LockInPowerForQVCurve => 94,
            Register::LockOutPowerForQVCurve => 95,
            Register::DelayTimeForQVCurve => 96,
            Register::DelayTimeForOverFCurve => 97,
            Register::ChargeVoltRef => 99,
            Register::CutVoltForDischg => 100,
            Register::ChargeCurr => 101,
            Register::DischgCurr => 102,
            Register::MaxBackFlow => 103,
            Register::DischgCutOffSocEod => 105,
            Register::TemprLowerLimitDischg => 106,
            Register::TemprUpperLimitDischg => 107,
            Register::TemprLowerLimitChg => 108,
            Register::TemprUpperLimitChg => 109,
            Register::FunctionEnable1 => 110,
            Register::SetSystemType => 112,
            Register::SetComposedPhase => 113,
            Register::ClearFunction => 114,
            Register::OVFDerateStartPoint => 115,
            Register::PtoUserStartDischg => 116,
            Register::PtoUserStartCharge => 117,
            Register::VbatStartDerating => 118,
            Register::WCTPowerOffset => 119,
            Register::StSysEnable => 120,
            Register::OVFDerateEndPoint => 124,
            Register::EpsDischgCutoffSocEod => 125,
            Register::OptimalChgDischg1 => 126,
            Register::OptimalChgDischg2 => 127,
            Register::OptimalChgDischg3 => 128,
            Register::OptimalChgDischg4 => 129,
            Register::OptimalChgDischg5 => 130,
            Register::OptimalChgDischg6 => 131,
            Register::BatCellVoltageLimit => 132,
            Register::BatCellConfig => 133,
            Register::UVFDerateStartPoint => 134,
            Register::UVFDerateEndPoint => 135,
            Register::OVFDerateRatio => 136,
            Register::SpecLoadCompensate => 137,
            Register::ChargePowerPercentCmd2 => 138,
            Register::DischgPowerPercentCmd2 => 139,
            Register::AcChargePowerCmd2 => 140,
            Register::ChargePriorityPowerCmd2 => 141,
            Register::ForcedDischgPowerCmd2 => 142,
            Register::ActivePowerPercentCmd2 => 143,
            Register::FloatChargeVolt => 144,
            Register::OutputPrioConfig => 145,
            Register::LineMode => 146,
            Register::BatteryCapacity => 147,
            Register::BatteryNominalVolt => 148,
            Register::EqualizationVolt => 149,
            Register::EqualizationInterval => 150,
            Register::EqualizationTime => 151,
            Register::AcChargeStartVolt => 158,
            Register::AcChargeEndVolt => 159,
            Register::AcChargeStartSocLimit => 160,
            Register::AcChargeEndSocLimit => 161,
            Register::BatLowVoltage => 162,
            Register::BatLowBackVoltage => 163,
            Register::BatLowSoc => 164,
            Register::BatLowBackSoc => 165,
            Register::BatLowToUtilityVoltage => 166,
            Register::BatLowtoUtilitySoc => 167,
            Register::AcChargeBatCurrent => 168,
            Register::OnGridEndDischrgVoltage => 169,
            Register::SocCurveBatVolt1 => 171,
            Register::SocCurveBatVolt2 => 172,
            Register::SocCurveSoc1 => 173,
            Register::SocCurveSoc2 => 174,
            Register::SocCurveInnerResistance => 175,
            Register::MaxGridInputPower => 176,
            Register::GenRatePower => 177,
            Register::FunctionEnable2 => 179,
            Register::AFCIArcThreshold => 180,
            Register::VoltWattV1 => 181,
            Register::VoltWattV2 => 182,
            Register::VoltWattDelayTime => 183,
            Register::VoltWattP2 => 184,
            Register::VrefQV => 185,
            Register::VrefFilterTime => 186,
            Register::Q3Qv => 187,
            Register::Q4Qv => 188,
            Register::P1Qp => 189,
            Register::P2Qp => 190,
            Register::P3Qp => 191,
            Register::P4Qp => 192,
            Register::UVFIncreaseRatio => 193,
            Register::GenChargeStartVolt => 194,
            Register::GenChargeEndVolt => 195,
            Register::GenChargeStartSoc => 196,
            Register::GenChargeEndSoc => 197,
            Register::MaxGenChargeBatCurr => 198,
            Register::OverTempDeratePoint => 199,
            Register::ChargePriorityEndVolt => 201,
            Register::ForceDichgEndVolt => 202,
            Register::GridRegulation => 203,
            Register::LeadCapacity => 204,
            Register::GridType => 205,
            Register::GridPeakShavingPower => 206,
            Register::GridPeakShavingSoc => 207,
            Register::GridPeakShavingVolt => 208,
            Register::SmartLoadOnVolt => 213,
            Register::SmartLoadOffVolt => 214,
            Register::SmartLoadOnSoc => 215,
            Register::SmartLoadOffSoc => 216,
            Register::StartPVpower => 217,
            Register::GridPeakShavingSoc1 => 218,
            Register::GridPeakShavingVolt1 => 219,
            Register::ACCoupleStartSoc => 220,
            Register::ACCoupleEndSoc => 221,
            Register::ACCoupleStartVolt => 222,
            Register::ACCoupleEndVolt => 223,
            Register::LCDConfig => 224,
            Register::LCDPassword => 225,
            Register::BatStopChargeSoc => 227,
            Register::BatStopChargeVolt => 228,
            Register::MeterConfig => 230,
            Register::ResetRecord => 231,
            Register::GridPeakShavingPower1 => 232,
            Register::FunctionEnable4 => 233,
            Register::QuickChargeTime => 234,
            Register::NoFullChargeDay => 235,
            Register::FloatChargeThreshold => 236,
            Register::GenCoolDownTime => 237,
            Register::AllowService => 241,
        }
    }

    /// The register's name, as it appears in discovery identifiers.
    pub fn name(self) -> (r: &'static str)
        ensures
            r@ == register_name(self),
    {
        match self {
            Register::FwCodeLo => "FwCodeLo",
            Register::FwCodeHi => "FwCodeHi",
            Register::Version1 => "Version1",
            Register::Version2 => "Version2",
            Register::ResetSetting => "ResetSetting",
            Register::InverterTime1 => "InverterTime1",
            Register::InverterTime2 => "InverterTime2",
            Register::InverterTime3 => "InverterTime3",
            Register::ComAddress => "ComAddress",
            Register::Language => "Language",
            Register::DeviceType => "DeviceType",
            Register::PvInputModel => "PvInputModel",
            Register::Register21 => "Register21",
            Register::StartPvVolt => "StartPvVolt",
            Register::ConnectTime => "ConnectTime",
            Register::ReconnectTime => "ReconnectTime",
            Register::GridVoltConnLow => "GridVoltConnLow",
            Register::GridVoltConnHigh => "GridVoltConnHigh",
            Register::GridFreqConnLow => "GridFreqConnLow",
            Register::GridFreqConnHigh => "GridFreqConnHigh",
            Register::GridVoltLimit1Low => "GridVoltLimit1Low",
            Register::GridVoltLimit1High => "GridVoltLimit1High",
            Register::GridVoltLimit1LowTime => "GridVoltLimit1LowTime",
            Register::GridVoltLimit1HighTime => "GridVoltLimit1HighTime",
            Register::GridVoltLimit2Low => "GridVoltLimit2Low",
            Register::GridVoltLimit2High => "GridVoltLimit2High",
            Register::GridVoltLimit2LowTime => "GridVoltLimit2LowTime",
            Register::GridVoltLimit2HighTime => "GridVoltLimit2HighTime",
            Register::GridVoltLimit3Low => "GridVoltLimit3Low",
            Register::GridVoltLimit3High => "GridVoltLimit3High",
            Register::GridVoltLimit3LowTime => "GridVoltLimit3LowTime",
            Register::GridVoltLimit3HighTime => "GridVoltLimit3HighTime",
            Register::GridVoltMovAvgHigh => "GridVoltMovAvgHigh",
            Register::GridFreqLimit1Low => "GridFreqLimit1Low",
            Register::GridFreqLimit1High => "GridFreqLimit1High",
            Register::GridFreqLimit1LowTime => "GridFreqLimit1LowTime",
            Register::GridFreqLimit1HighTime => "GridFreqLimit1HighTime",
            Register::GridFreqLimit2Low => "GridFreqLimit2Low",
            Register::GridFreqLimit2High => "GridFreqLimit2High",
            Register::GridFreqLimit2LowTime => "GridFreqLimit2LowTime",
            Register::GridFreqLimit2HighTime => "GridFreqLimit2HighTime",
            Register::GridFreqLimit3Low => "GridFreqLimit3Low",
            Register::GridFreqLimit3High => "GridFreqLimit3High",
            Register::GridFreqLimit3LowTime => "GridFreqLimit3LowTime",
            Register::GridFreqLimit3HighTime => "GridFreqLimit3HighTime",
            Register::MaxQPercentForQV => "MaxQPercentForQV",
            Register::V1L => "V1L",
            Register::V2L => "V2L",
            Register::V1H => "V1H",
            Register::V2H => "V2H",
            Register::ReactivePowerCmdType => "ReactivePowerCmdType",
            Register::ActivePowerPercentCmd => "ActivePowerPercentCmd",
            Register::ReactivePowerPercentCmd => "ReactivePowerPercentCmd",
            Register::PfCmd => "PfCmd",
            Register::PowerSoftStartSlope => "PowerSoftStartSlope",
            Register::ChargePowerPercentCmd => "ChargePowerPercentCmd",
            Register::DischgPowerPercentCmd => "DischgPowerPercentCmd",
            Register::AcChargePowerCmd => "AcChargePowerCmd",
            Register::AcChargeSocLimit => "AcChargeSocLimit",
            Register::ChargePriorityPowerCmd => "ChargePriorityPowerCmd",
            Register::ChargePrioritySocLimit => "ChargePrioritySocLimit",
            Register::ForcedDischgPowerCmd => "ForcedDischgPowerCmd",
            Register::ForcedDischgSocLimit => "ForcedDischgSocLimit",
            Register::EpsVoltageSet => "EpsVoltageSet",
            Register::EpsFrequencySet => "EpsFrequencySet",
            Register::LockInGridVForPFCurve => "LockInGridVForPFCurve",
            Register::LockOutGridVForPFCurve => "LockOutGridVForPFCurve",
            Register::LockInPowerForQVCurve => "LockInPowerForQVCurve",
            Register::LockOutPowerForQVCurve => "LockOutPowerForQVCurve",
            Register::DelayTimeForQVCurve => "DelayTimeForQVCurve",
            Register::DelayTimeForOverFCurve => "DelayTimeForOverFCurve",
            Register::ChargeVoltRef => "ChargeVoltRef",
            Register::CutVoltForDischg => "CutVoltForDischg",
            Register::ChargeCurr => "ChargeCurr",
            Register::DischgCurr => "DischgCurr",
            Register::MaxBackFlow => "MaxBackFlow",
            Register::DischgCutOffSocEod => "DischgCutOffSocEod",
            Register::TemprLowerLimitDischg => "TemprLowerLimitDischg",
            Register::TemprUpperLimitDischg => "TemprUpperLimitDischg",
            Register::TemprLowerLimitChg => "TemprLowerLimitChg",
            Register::TemprUpperLimitChg => "TemprUpperLimitChg",
            Register::FunctionEnable1 => "FunctionEnable1",
            Register::SetSystemType => "SetSystemType",
            Register::SetComposedPhase => "SetComposedPhase",
            Register::ClearFunction => "ClearFunction",
            Register::OVFDerateStartPoint => "OVFDerateStartPoint",
            Register::PtoUserStartDischg => "PtoUserStartDischg",
            Register::PtoUserStartCharge => "PtoUserStartCharge",
            Register::VbatStartDerating => "VbatStartDerating",
            Register::WCTPowerOffset => "WCTPowerOffset",
            Register::StSysEnable => "StSysEnable",
            Register::OVFDerateEndPoint => "OVFDerateEndPoint",
            Register::EpsDischgCutoffSocEod => "EpsDischgCutoffSocEod",
            Register::OptimalChgDischg1 => "OptimalChgDischg1",
            Register::OptimalChgDischg2 => "OptimalChgDischg2",
            Register::OptimalChgDischg3 => "OptimalChgDischg3",
            Register::OptimalChgDischg4 => "OptimalChgDischg4",
            Register::OptimalChgDischg5 => "OptimalChgDischg5",
            Register::OptimalChgDischg6 => "OptimalChgDischg6",
            Register::BatCellVoltageLimit => "BatCellVoltageLimit",
            Register::BatCellConfig => "BatCellConfig",
            Register::UVFDerateStartPoint => "UVFDerateStartPoint",
            Register::UVFDerateEndPoint => "UVFDerateEndPoint",
            Register::OVFDerateRatio => "OVFDerateRatio",
            Register::SpecLoadCompensate => "SpecLoadCompensate",
            Register::ChargePowerPercentCmd2 => "ChargePowerPercentCmd2",
            Register::DischgPowerPercentCmd2 => "DischgPowerPercentCmd2",
            Register::AcChargePowerCmd2 => "AcChargePowerCmd2",
            Register::ChargePriorityPowerCmd2 => "ChargePriorityPowerCmd2",
            Register::ForcedDischgPowerCmd2 => "ForcedDischgPowerCmd2",
            Register::ActivePowerPercentCmd2 => "ActivePowerPercentCmd2",
            Register::FloatChargeVolt => "FloatChargeVolt",
            Register::OutputPrioConfig => "OutputPrioConfig",
            Register::LineMode => "LineMode",
            Register::BatteryCapacity => "BatteryCapacity",
            Register::BatteryNominalVolt => "BatteryNominalVolt",
            Register::EqualizationVolt => "EqualizationVolt",
            Register::EqualizationInterval => "EqualizationInterval",
            Register::EqualizationTime => "EqualizationTime",
            Register::AcChargeStartVolt => "AcChargeStartVolt",
            Register::AcChargeEndVolt => "AcChargeEndVolt",
            Register::AcChargeStartSocLimit => "AcChargeStartSocLimit",
            Register::AcChargeEndSocLimit => "AcChargeEndSocLimit",
            Register::BatLowVoltage => "BatLowVoltage",
            Register::BatLowBackVoltage => "BatLowBackVoltage",
            Register::BatLowSoc => "BatLowSoc",
            Register::BatLowBackSoc => "BatLowBackSoc",
            Register::BatLowToUtilityVoltage => "BatLowToUtilityVoltage",
            Register::BatLowtoUtilitySoc => "BatLowtoUtilitySoc",
            Register::AcChargeBatCurrent => "AcChargeBatCurrent",
            Register::OnGridEndDischrgVoltage => "OnGridEndDischrgVoltage",
            Register::SocCurveBatVolt1 => "SocCurveBatVolt1",
            Register::SocCurveBatVolt2 => "SocCurveBatVolt2",
            Register::SocCurveSoc1 => "SocCurveSoc1",
            Register::SocCurveSoc2 => "SocCurveSoc2",
            Register::SocCurveInnerResistance => "SocCurveInnerResistance",
            Register::MaxGridInputPower => "MaxGridInputPower",
            Register::GenRatePower => "GenRatePower",
            Register::FunctionEnable2 => "FunctionEnable2",
            Register::AFCIArcThreshold => "AFCIArcThreshold",
            Register::VoltWattV1 => "VoltWattV1",
            Register::VoltWattV2 => "VoltWattV2",
            Register::VoltWattDelayTime => "VoltWattDelayTime",
            Register::VoltWattP2 => "VoltWattP2",
            Register::VrefQV => "VrefQV",
            Register::VrefFilterTime => "VrefFilterTime",
            Register::Q3Qv => "Q3Qv",
            Register::Q4Qv => "Q4Qv",
            Register::P1Qp => "P1Qp",
            Register::P2Qp => "P2Qp",
            Register::P3Qp => "P3Qp",
            Register::P4Qp => "P4Qp",
            Register::UVFIncreaseRatio => "UVFIncreaseRatio",
            Register::GenChargeStartVolt => "GenChargeStartVolt",
            Register::GenChargeEndVolt => "GenChargeEndVolt",
            Register::GenChargeStartSoc => "GenChargeStartSoc",
            Register::GenChargeEndSoc => "GenChargeEndSoc",
            Register::MaxGenChargeBatCurr => "MaxGenChargeBatCurr",
            Register::OverTempDeratePoint => "OverTempDeratePoint",
            Register::ChargePriorityEndVolt => "ChargePriorityEndVolt",
            Register::ForceDichgEndVolt => "ForceDichgEndVolt",
            Register::GridRegulation => "GridRegulation",
            Register::LeadCapacity => "LeadCapacity",
            Register::GridType => "GridType",
            Register::GridPeakShavingPower => "GridPeakShavingPower",
            Register::GridPeakShavingSoc => "GridPeakShavingSoc",
            Register::GridPeakShavingVolt => "GridPeakShavingVolt",
            Register::SmartLoadOnVolt => "SmartLoadOnVolt",
            Register::SmartLoadOffVolt => "SmartLoadOffVolt",
            Register::SmartLoadOnSoc => "SmartLoadOnSoc",
            Register::SmartLoadOffSoc => "SmartLoadOffSoc",
            Register::StartPVpower => "StartPVpower",
            Register::GridPeakShavingSoc1 => "GridPeakShavingSoc1",
            Register::GridPeakShavingVolt1 => "GridPeakShavingVolt1",
            Register::ACCoupleStartSoc => "ACCoupleStartSoc",
            Register::ACCoupleEndSoc => "ACCoupleEndSoc",
            Register::ACCoupleStartVolt => "ACCoupleStartVolt",
            Register::ACCoupleEndVolt => "ACCoupleEndVolt",
            Register::LCDConfig => "LCDConfig",
            Register::LCDPassword => "LCDPassword",
            Register::BatStopChargeSoc => "BatStopChargeSoc",
            Register::BatStopChargeVolt => "BatStopChargeVolt",
            Register::MeterConfig => "MeterConfig",
            Register::ResetRecord => "ResetRecord",
            Register::GridPeakShavingPower1 => "GridPeakShavingPower1",
            Register::FunctionEnable4 => "FunctionEnable4",
            Register::QuickChargeTime => "QuickChargeTime",
            Register::NoFullChargeDay => "NoFullChargeDay",
            Register::FloatChargeThreshold => "FloatChargeThreshold",
            Register::GenCoolDownTime => "GenCoolDownTime",
            Register::AllowService => "AllowService",
        }
    }
}

/// The register's name, as written in the enumeration.
pub open spec fn register_name(r: Register) -> Seq<char> {
    match r {
        Register::FwCodeLo => "FwCodeLo"@,
        Register::FwCodeHi => "FwCodeHi"@,
        Register::Version1 => "Version1"@,
        Register::Version2 => "Version2"@,
        Register::ResetSetting => "ResetSetting"@,
        Register::InverterTime1 => "InverterTime1"@,
        Register::InverterTime2 => "InverterTime2"@,
        Register::InverterTime3 => "InverterTime3"@,
        Register::ComAddress => "ComAddress"@,
        Register::Language => "Language"@,
        Register::DeviceType => "DeviceType"@,
        Register::PvInputModel => "PvInputModel"@,
        Register::Register21 => "Register21"@,
        Register::StartPvVolt => "StartPvVolt"@,
        Register::ConnectTime => "ConnectTime"@,
        Register::ReconnectTime => "ReconnectTime"@,
        Register::GridVoltConnLow => "GridVoltConnLow"@,
        Register::GridVoltConnHigh => "GridVoltConnHigh"@,
        Register::GridFreqConnLow => "GridFreqConnLow"@,
        Register::GridFreqConnHigh => "GridFreqConnHigh"@,
        Register::GridVoltLimit1Low => "GridVoltLimit1Low"@,
        Register::GridVoltLimit1High => "GridVoltLimit1High"@,
        Register::GridVoltLimit1LowTime => "GridVoltLimit1LowTime"@,
        Register::GridVoltLimit1HighTime => "GridVoltLimit1HighTime"@,
        Register::GridVoltLimit2Low => "GridVoltLimit2Low"@,
        Register::GridVoltLimit2High => "GridVoltLimit2High"@,
        Register::GridVoltLimit2LowTime => "GridVoltLimit2LowTime"@,
        Register::GridVoltLimit2HighTime => "GridVoltLimit2HighTime"@,
        Register::GridVoltLimit3Low => "GridVoltLimit3Low"@,
        Register::GridVoltLimit3High => "GridVoltLimit3High"@,
        Register::GridVoltLimit3LowTime => "GridVoltLimit3LowTime"@,
        Register::GridVoltLimit3HighTime => "GridVoltLimit3HighTime"@,
        Register::GridVoltMovAvgHigh => "GridVoltMovAvgHigh"@,
        Register::GridFreqLimit1Low => "GridFreqLimit1Low"@,
        Register::GridFreqLimit1High => "GridFreqLimit1High"@,
        Register::GridFreqLimit1LowTime => "GridFreqLimit1LowTime"@,
        Register::GridFreqLimit1HighTime => "GridFreqLimit1HighTime"@,
        Register::GridFreqLimit2Low => "GridFreqLimit2Low"@,
        Register::GridFreqLimit2High => "GridFreqLimit2High"@,
        Register::GridFreqLimit2LowTime => "GridFreqLimit2LowTime"@,
        Register::GridFreqLimit2HighTime => "GridFreqLimit2HighTime"@,
        Register::GridFreqLimit3Low => "GridFreqLimit3Low"@,
        Register::GridFreqLimit3High => "GridFreqLimit3High"@,
        Register::GridFreqLimit3LowTime => "GridFreqLimit3LowTime"@,
        Register::GridFreqLimit3HighTime => "GridFreqLimit3HighTime"@,
        Register::MaxQPercentForQV => "MaxQPercentForQV"@,
        Register::V1L => "V1L"@,
        Register::V2L => "V2L"@,
        Register::V1H => "V1H"@,
        Register::V2H => "V2H"@,
        Register::ReactivePowerCmdType => "ReactivePowerCmdType"@,
        Register::ActivePowerPercentCmd => "ActivePowerPercentCmd"@,
        Register::ReactivePowerPercentCmd => "ReactivePowerPercentCmd"@,
        Register::PfCmd => "PfCmd"@,
        Register::PowerSoftStartSlope => "PowerSoftStartSlope"@,
        Register::ChargePowerPercentCmd => "ChargePowerPercentCmd"@,
        Register::DischgPowerPercentCmd => "DischgPowerPercentCmd"@,
        Register::AcChargePowerCmd => "AcChargePowerCmd"@,
        Register::AcChargeSocLimit => "AcChargeSocLimit"@,
        Register::ChargePriorityPowerCmd => "ChargePriorityPowerCmd"@,
        Register::ChargePrioritySocLimit => "ChargePrioritySocLimit"@,
        Register::ForcedDischgPowerCmd => "ForcedDischgPowerCmd"@,
        Register::ForcedDischgSocLimit => "ForcedDischgSocLimit"@,
        Register::EpsVoltageSet => "EpsVoltageSet"@,
        Register::EpsFrequencySet => "EpsFrequencySet"@,
        Register::LockInGridVForPFCurve => "LockInGridVForPFCurve"@,
        Register::LockOutGridVForPFCurve => "LockOutGridVForPFCurve"@,
        Register::LockInPowerForQVCurve => "LockInPowerForQVCurve"@,
        Register::LockOutPowerForQVCurve => "LockOutPowerForQVCurve"@,
        Register::DelayTimeForQVCurve => "DelayTimeForQVCurve"@,
        Register::DelayTimeForOverFCurve => "DelayTimeForOverFCurve"@,
        Register::ChargeVoltRef => "ChargeVoltRef"@,
        Register::CutVoltForDischg => "CutVoltForDischg"@,
        Register::ChargeCurr => "ChargeCurr"@,
        Register::DischgCurr => "DischgCurr"@,
        Register::MaxBackFlow => "MaxBackFlow"@,
        Register::DischgCutOffSocEod => "DischgCutOffSocEod"@,
        Register::TemprLowerLimitDischg => "TemprLowerLimitDischg"@,
        Register::TemprUpperLimitDischg => "TemprUpperLimitDischg"@,
        Register::TemprLowerLimitChg => "TemprLowerLimitChg"@,
        Register::TemprUpperLimitChg => "TemprUpperLimitChg"@,
        Register::FunctionEnable1 => "FunctionEnable1"@,
        Register::SetSystemType => "SetSystemType"@,
        Register::SetComposedPhase => "SetComposedPhase"@,
        Register::ClearFunction => "ClearFunction"@,
        Register::OVFDerateStartPoint => "OVFDerateStartPoint"@,
        Register::PtoUserStartDischg => "PtoUserStartDischg"@,
        Register::PtoUserStartCharge => "PtoUserStartCharge"@,
        Register::VbatStartDerating => "VbatStartDerating"@,
        Register::WCTPowerOffset => "WCTPowerOffset"@,
        Register::StSysEnable => "StSysEnable"@,
        Register::OVFDerateEndPoint => "OVFDerateEndPoint"@,
        Register::EpsDischgCutoffSocEod => "EpsDischgCutoffSocEod"@,
        Register::OptimalChgDischg1 => "OptimalChgDischg1"@,
        Register::OptimalChgDischg2 => "OptimalChgDischg2"@,
        Register::OptimalChgDischg3 => "OptimalChgDischg3"@,
        Register::OptimalChgDischg4 => "OptimalChgDischg4"@,
        Register::OptimalChgDischg5 => "OptimalChgDischg5"@,
        Register::OptimalChgDischg6 => "OptimalChgDischg6"@,
        Register::BatCellVoltageLimit => "BatCellVoltageLimit"@,
        Register::BatCellConfig => "BatCellConfig"@,
        Register::UVFDerateStartPoint => "UVFDerateStartPoint"@,
        Register::UVFDerateEndPoint => "UVFDerateEndPoint"@,
        Register::OVFDerateRatio => "OVFDerateRatio"@,
        Register::SpecLoadCompensate => "SpecLoadCompensate"@,
        Register::ChargePowerPercentCmd2 => "ChargePowerPercentCmd2"@,
        Register::DischgPowerPercentCmd2 => "DischgPowerPercentCmd2"@,
        Register::AcChargePowerCmd2 => "AcChargePowerCmd2"@,
        Register::ChargePriorityPowerCmd2 => "ChargePriorityPowerCmd2"@,
        Register::ForcedDischgPowerCmd2 => "ForcedDischgPowerCmd2"@,
        Register::ActivePowerPercentCmd2 => "ActivePowerPercentCmd2"@,
        Register::FloatChargeVolt => "FloatChargeVolt"@,
        Register::OutputPrioConfig => "OutputPrioConfig"@,
        Register::LineMode => "LineMode"@,
        Register::BatteryCapacity => "BatteryCapacity"@,
        Register::BatteryNominalVolt => "BatteryNominalVolt"@,
        Register::EqualizationVolt => "EqualizationVolt"@,
        Register::EqualizationInterval => "EqualizationInterval"@,
        Register::EqualizationTime => "EqualizationTime"@,
        Register::AcChargeStartVolt => "AcChargeStartVolt"@,
        Register::AcChargeEndVolt => "AcChargeEndVolt"@,
        Register::AcChargeStartSocLimit => "AcChargeStartSocLimit"@,
        Register::AcChargeEndSocLimit => "AcChargeEndSocLimit"@,
        Register::BatLowVoltage => "BatLowVoltage"@,
        Register::BatLowBackVoltage => "BatLowBackVoltage"@,
        Register::BatLowSoc => "BatLowSoc"@,
        Register::BatLowBackSoc => "BatLowBackSoc"@,
        Register::BatLowToUtilityVoltage => "BatLowToUtilityVoltage"@,
        Register::BatLowtoUtilitySoc => "BatLowtoUtilitySoc"@,
        Register::AcChargeBatCurrent => "AcChargeBatCurrent"@,
        Register::OnGridEndDischrgVoltage => "OnGridEndDischrgVoltage"@,
        Register::SocCurveBatVolt1 => "SocCurveBatVolt1"@,
        Register::SocCurveBatVolt2 => "SocCurveBatVolt2"@,
        Register::SocCurveSoc1 => "SocCurveSoc1"@,
        Register::SocCurveSoc2 => "SocCurveSoc2"@,
        Register::SocCurveInnerResistance => "SocCurveInnerResistance"@,
        Register::MaxGridInputPower => "MaxGridInputPower"@,
        Register::GenRatePower => "GenRatePower"@,
        Register::FunctionEnable2 => "FunctionEnable2"@,
        Register::AFCIArcThreshold => "AFCIArcThreshold"@,
        Register::VoltWattV1 => "VoltWattV1"@,
        Register::VoltWattV2 => "VoltWattV2"@,
        Register::VoltWattDelayTime => "VoltWattDelayTime"@,
        Register::VoltWattP2 => "VoltWattP2"@,
        Register::VrefQV => "VrefQV"@,
        Register::VrefFilterTime => "VrefFilterTime"@,
        Register::Q3Qv => "Q3Qv"@,
        Register::Q4Qv => "Q4Qv"@,
        Register::P1Qp => "P1Qp"@,
        Register::P2Qp => "P2Qp"@,
        Register::P3Qp => "P3Qp"@,
        Register::P4Qp => "P4Qp"@,
        Register::UVFIncreaseRatio => "UVFIncreaseRatio"@,
        Register::GenChargeStartVolt => "GenChargeStartVolt"@,
        Register::GenChargeEndVolt => "GenChargeEndVolt"@,
        Register::GenChargeStartSoc => "GenChargeStartSoc"@,
        Register::GenChargeEndSoc => "GenChargeEndSoc"@,
        Register::MaxGenChargeBatCurr => "MaxGenChargeBatCurr"@,
        Register::OverTempDeratePoint => "OverTempDeratePoint"@,
        Register::ChargePriorityEndVolt => "ChargePriorityEndVolt"@,
        Register::ForceDichgEndVolt => "ForceDichgEndVolt"@,
        Register::GridRegulation => "GridRegulation"@,
        Register::LeadCapacity => "LeadCapacity"@,
        Register::GridType => "GridType"@,
        Register::GridPeakShavingPower => "GridPeakShavingPower"@,
        Register::GridPeakShavingSoc => "GridPeakShavingSoc"@,
        Register::GridPeakShavingVolt => "GridPeakShavingVolt"@,
        Register::SmartLoadOnVolt => "SmartLoadOnVolt"@,
        Register::SmartLoadOffVolt => "SmartLoadOffVolt"@,
        Register::SmartLoadOnSoc => "SmartLoadOnSoc"@,
        Register::SmartLoadOffSoc => "SmartLoadOffSoc"@,
        Register::StartPVpower => "StartPVpower"@,
        Register::GridPeakShavingSoc1 => "GridPeakShavingSoc1"@,
        Register::GridPeakShavingVolt1 => "GridPeakShavingVolt1"@,
        Register::ACCoupleStartSoc => "ACCoupleStartSoc"@,
        Register::ACCoupleEndSoc => "ACCoupleEndSoc"@,
        Register::ACCoupleStartVolt => "ACCoupleStartVolt"@,
        Register::ACCoupleEndVolt => "ACCoupleEndVolt"@,
        Register::LCDConfig => "LCDConfig"@,
        Register::LCDPassword => "LCDPassword"@,
        Register::BatStopChargeSoc => "BatStopChargeSoc"@,
        Register::BatStopChargeVolt => "BatStopChargeVolt"@,
        Register::MeterConfig => "MeterConfig"@,
        Register::ResetRecord => "ResetRecord"@,
        Register::GridPeakShavingPower1 => "GridPeakShavingPower1"@,
        Register::FunctionEnable4 => "FunctionEnable4"@,
        Register::QuickChargeTime => "QuickChargeTime"@,
        Register::NoFullChargeDay => "NoFullChargeDay"@,
        Register::FloatChargeThreshold => "FloatChargeThreshold"@,
        Register::GenCoolDownTime => "GenCoolDownTime"@,
        Register::AllowService => "AllowService"@,
    }
}
/// How a register's raw value turns into an engineering value: it is divided by
/// `divisor` (1 or 10), and measured in `unit`.
#[derive(Clone, Copy, Debug, PartialEq, Eq)]
pub struct RegisterConfig {
    pub register: Register,
    pub divisor: u16,
    pub unit_of_measurement: &'static str,
}

/// The registers that carry a scale or a unit; every other one has divisor 1 and no unit.
pub open spec fn spec_register_config(register: u16) -> Option<(Register, u16, Seq<char>)> {
    if register == 177 {
        Some((Register::GenRatePower, 10u16, "kW"@))
    } else if register == 198 {
        Some((Register::MaxGenChargeBatCurr, 1u16, "A"@))
    } else if register == 237 {
        Some((Register::GenCoolDownTime, 10u16, "min"@))
    } else {
        None
    }
}

/// The configuration of `register`, if it has one.
pub fn find_register_config(register: u16) -> (r: Option<RegisterConfig>)
    ensures
        match spec_register_config(register) {
            Some((reg, div, unit)) => r matches Some(c) && c.register == reg && c.divisor == div
                && c.unit_of_measurement@ == unit,
            None => r is None,
        },
{
    let configs: [RegisterConfig; 3] = [
        RegisterConfig { register: Register::GenRatePower, divisor: 10, unit_of_measurement: "kW" },
        RegisterConfig {
            register: Register::MaxGenChargeBatCurr,
            divisor: 1,
            unit_of_measurement: "A",
        },
        RegisterConfig {
            register: Register::GenCoolDownTime,
            divisor: 10,
            unit_of_measurement: "min",
        },
    ];
    let mut i: usize = 0;
    while i < 3
        invariant
            0 <= i <= 3,
            configs@ == seq![configs@[0], configs@[1], configs@[2]],
            configs@[0].register == Register::GenRatePower && configs@[0].divisor == 10
                && configs@[0].unit_of_measurement@ == "kW"@,
            configs@[1].register == Register::MaxGenChargeBatCurr && configs@[1].divisor == 1
                && configs@[1].unit_of_measurement@ == "A"@,
            configs@[2].register == Register::GenCoolDownTime && configs@[2].divisor == 10
                && configs@[2].unit_of_measurement@ == "min"@,
            forall|j: int| 0 <= j < i ==> configs@[j].register.spec_value() != register,
        decreases 3 - i,
    {
        let config = configs[i];
        if config.register.value() == register {
            return Some(config);
        }
        i = i + 1;
    }
    None
}

/// The divisor of `register`: its configured one, else 1.
pub open spec fn spec_divisor(register: u16) -> u16 {
    match spec_register_config(register) {
        Some((_, div, _)) => div,
        None => 1,
    }
}

} // verus!

verus! {

/// The named bits of holding register 21, by mask.
#[derive(Clone, Copy, Debug, PartialEq, Eq, Structural)]
pub enum Register21Bit {
    OffGridModeEnable,
    OverfrequencyLoadDerateEnable,
    DRMSEnable,
    LVTREnable,
    AntiIslandEnable,
    NeutralDetectEnable,
    GridOnPowerSoftStartEnable,
    AcChargeEnable,
    OffGridSeamlessSwitchingEnable,
    SetToStandby,
    ForcedDischargeEnable,
    ChargePriorityEnable,
    ISOEnable,
    GFCIEnable,
    DCIEnable,
    FeedInGridEnable,
}

impl Register21Bit {
    pub open spec fn spec_mask(self) -> u16 {
        match self {
            Register21Bit::OffGridModeEnable => 1,
            Register21Bit::OverfrequencyLoadDerateEnable => 2,
            Register21Bit::DRMSEnable => 4,
            Register21Bit::LVTREnable => 8,
            Register21Bit::AntiIslandEnable => 16,
            Register21Bit::NeutralDetectEnable => 32,
            Register21Bit::GridOnPowerSoftStartEnable => 64,
            Register21Bit::AcChargeEnable => 128,
            Register21Bit::OffGridSeamlessSwitchingEnable => 256,
            Register21Bit::SetToStandby => 512,
            Register21Bit::ForcedDischargeEnable => 1024,
            Register21Bit::ChargePriorityEnable => 2048,
            Register21Bit::ISOEnable => 4096,
            Register21Bit::GFCIEnable => 8192,
            Register21Bit::DCIEnable => 16384,
            Register21Bit::FeedInGridEnable => 32768,
        }
    }

    /// The bits this name stands for.
    #[verifier::when_used_as_spec(spec_mask)]
    pub fn mask(self) -> (r: u16)
        ensures
            r == self.spec_mask(),
    {
        match self {
            Register21Bit::OffGridModeEnable => 1,
            Register21Bit::OverfrequencyLoadDerateEnable => 2,
            Register21Bit::DRMSEnable => 4,
            Register21Bit::LVTREnable => 8,
            Register21Bit::AntiIslandEnable => 16,
            Register21Bit::NeutralDetectEnable => 32,
            Register21Bit::GridOnPowerSoftStartEnable => 64,
            Register21Bit::AcChargeEnable => 128,
            Register21Bit::OffGridSeamlessSwitchingEnable => 256,
            Register21Bit::SetToStandby => 512,
            Register21Bit::ForcedDischargeEnable => 1024,
            Register21Bit::ChargePriorityEnable => 2048,
            Register21Bit::ISOEnable => 4096,
            Register21Bit::GFCIEnable => 8192,
            Register21Bit::DCIEnable => 16384,
            Register21Bit::FeedInGridEnable => 32768,
        }
    }
}

/// The named bits of holding register 110, by mask.
#[derive(Clone, Copy, Debug, PartialEq, Eq, Structural)]
pub enum Register110Bit {
    PVGridOffEnable,
    FastZeroExportEnable,
    MicroGridEnable,
    BatShared,
    ChargeLastEnable,
    BuzzerEnable,
    TakeLoadTogether,
    OnGridWorkingMode,
    GreenModeEnable,
    EcoModeEnable,
}

impl Register110Bit {
    pub open spec fn spec_mask(self) -> u16 {
        match self {
            Register110Bit::PVGridOffEnable => 1,
            Register110Bit::FastZeroExportEnable => 2,
            Register110Bit::MicroGridEnable => 4,
            Register110Bit::BatShared => 8,
            Register110Bit::ChargeLastEnable => 16,
            Register110Bit::BuzzerEnable => 128,
            Register110Bit::TakeLoadTogether => 1024,
            Register110Bit::OnGridWorkingMode => 2048,
            Register110Bit::GreenModeEnable => 16384,
            Register110Bit::EcoModeEnable => 32768,
        }
    }

    /// The bits this name stands for.
    #[verifier::when_used_as_spec(spec_mask)]
    pub fn mask(self) -> (r: u16)
        ensures
            r == self.spec_mask(),
    {
        match self {
            Register110Bit::PVGridOffEnable => 1,
            Register110Bit::FastZeroExportEnable => 2,
            Register110Bit::MicroGridEnable => 4,
            Register110Bit::BatShared => 8,
            Register110Bit::ChargeLastEnable => 16,
            Register110Bit::BuzzerEnable => 128,
            Register110Bit::TakeLoadTogether => 1024,
            Register110Bit::OnGridWorkingMode => 2048,
            Register110Bit::GreenModeEnable => 16384,
            Register110Bit::EcoModeEnable => 32768,
        }
    }
}

/// The named bits of holding register 113, by mask.
#[derive(Clone, Copy, Debug, PartialEq, Eq, Structural)]
pub enum Register113Bit {
    ClearDetectedPhases,
    SetComposedPhaseR,
    SetComposedPhaseS,
    SetComposedPhaseT,
}

impl Register113Bit {
    pub open spec fn spec_mask(self) -> u16 {
        match self {
            Register113Bit::ClearDetectedPhases => 1,
            Register113Bit::SetComposedPhaseR => 2,
            Register113Bit::SetComposedPhaseS => 4,
            Register113Bit::SetComposedPhaseT => 6,
        }
    }

    /// The bits this name stands for.
    #[verifier::when_used_as_spec(spec_mask)]
    pub fn mask(self) -> (r: u16)
        ensures
            r == self.spec_mask(),
    {
        match self {
            Register113Bit::ClearDetectedPhases => 1,
            Register113Bit::SetComposedPhaseR => 2,
            Register113Bit::SetComposedPhaseS => 4,
            Register113Bit::SetComposedPhaseT => 6,
        }
    }
}

/// The named bits of holding register 120, by mask.
#[derive(Clone, Copy, Debug, PartialEq, Eq, Structural)]
pub enum Register120Bit {
    HalfHourAcChargeStartEnable,
    OnGridEodType,
    GenChargeType,
}

impl Register120Bit {
    pub open spec fn spec_mask(self) -> u16 {
        match self {
            Register120Bit::HalfHourAcChargeStartEnable => 1,
            Register120Bit::OnGridEodType => 64,
            Register120Bit::GenChargeType => 128,
        }
    }

    /// The bits this name stands for.
    #[verifier::when_used_as_spec(spec_mask)]
    pub fn mask(self) -> (r: u16)
        ensures
            r == self.spec_mask(),
    {
        match self {
            Register120Bit::HalfHourAcChargeStartEnable => 1,
            Register120Bit::OnGridEodType => 64,
            Register120Bit::GenChargeType => 128,
        }
    }
}

/// The named bits of holding register 179, by mask.
#[derive(Clone, Copy, Debug, PartialEq, Eq, Structural)]
pub enum Register179Bit {
    AcCTDirection,
    PvCTDirection,
    AFCIAlarmClear,
    PvSellFirst,
    VoltWattEnable,
    TriptimeUnit,
    ActPowerCmdEnable,
    GridPeakShaving,
    GenPeakShaving,
    BatChargeControl,
    BatDischargeControl,
    AcCoupling,
    PvArcEnable,
    SmartLoadEnable,
    RsdDisable,
    OnGridAlwaysOn,
}

impl Register179Bit {
    pub open spec fn spec_mask(self) -> u16 {
        match self {
            Register179Bit::AcCTDirection => 1,
            Register179Bit::PvCTDirection => 2,
            Register179Bit::AFCIAlarmClear => 4,
            Register179Bit::PvSellFirst => 8,
            Register179Bit::VoltWattEnable => 16,
            Register179Bit::TriptimeUnit => 32,
            Register179Bit::ActPowerCmdEnable => 64,
            Register179Bit::GridPeakShaving => 128,
            Register179Bit::GenPeakShaving => 256,
            Register179Bit::BatChargeControl => 512,
            Register179Bit::BatDischargeControl => 1024,
            Register179Bit::AcCoupling => 2048,
            Register179Bit::PvArcEnable => 4096,
            Register179Bit::SmartLoadEnable => 8192,
            Register179Bit::RsdDisable => 16384,
            Register179Bit::OnGridAlwaysOn => 32768,
        }
    }

    /// The bits this name stands for.
    #[verifier::when_used_as_spec(spec_mask)]
    pub fn mask(self) -> (r: u16)
        ensures
            r == self.spec_mask(),
    {
        match self {
            Register179Bit::AcCTDirection => 1,
            Register179Bit::PvCTDirection => 2,
            Register179Bit::AFCIAlarmClear => 4,
            Register179Bit::PvSellFirst => 8,
            Register179Bit::VoltWattEnable => 16,
            Register179Bit::TriptimeUnit => 32,
            Register179Bit::ActPowerCmdEnable => 64,
            Register179Bit::GridPeakShaving => 128,
            Register179Bit::GenPeakShaving => 256,
            Register179Bit::BatChargeControl => 512,
            Register179Bit::BatDischargeControl => 1024,
            Register179Bit::AcCoupling => 2048,
            Register179Bit::PvArcEnable => 4096,
            Register179Bit::SmartLoadEnable => 8192,
            Register179Bit::RsdDisable => 16384,
            Register179Bit::OnGridAlwaysOn => 32768,
        }
    }
}

/// The named bits of holding register 233, by mask.
#[derive(Clone, Copy, Debug, PartialEq, Eq, Structural)]
pub enum Register233Bit {
    QuickChargeStartEnable,
    BattBackupEnable,
    MaintenanceEnable,
    WorkingMode,
}

impl Register233Bit {
    pub open spec fn spec_mask(self) -> u16 {
        match self {
            Register233Bit::QuickChargeStartEnable => 1,
            Register233Bit::BattBackupEnable => 2,
            Register233Bit::MaintenanceEnable => 4,
            Register233Bit::WorkingMode => 8,
        }
    }

    /// The bits this name stands for.
    #[verifier::when_used_as_spec(spec_mask)]
    pub fn mask(self) -> (r: u16)
        ensures
            r == self.spec_mask(),
    {
        match self {
            Register233Bit::QuickChargeStartEnable => 1,
            Register233Bit::BattBackupEnable => 2,
            Register233Bit::MaintenanceEnable => 4,
            Register233Bit::WorkingMode => 8,
        }
    }
}

} // verus!
