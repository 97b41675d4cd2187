use vstd::prelude::*;

use crate::codec::TranslatedData;
use crate::inputs::ReadInput1;
use crate::inputs::ReadInput2;
use crate::inputs::ReadInput3;
use crate::inputs::ReadInputAll;
use crate::inputs::ReadInputAll2;
use crate::serial::Serial;

verus! {

/// A decoded input-register block, by the window it covers.
#[derive(Clone, Debug)]
pub enum ReadInput {
    ReadInputAll(Box<ReadInputAll>),
    ReadInputAll2(Box<ReadInputAll2>),
    ReadInput1(ReadInput1),
    ReadInput2(ReadInput2),
    ReadInput3(ReadInput3),
}

/// Why a block of registers could not be decoded.
#[derive(Clone, Copy, Debug, PartialEq, Eq, Structural)]
pub enum DecodeError {
    UnhandledInputWindow,
    UnknownRegister,
}

impl TranslatedData {
    /// Whether the block is one of the input windows: 0 or 127 with 254 bytes, or 0, 40
    /// or 80 with 80 bytes.
    pub open spec fn known_window(&self) -> bool {
        let n = self.values@.len();
        (n == 254 && (self.register == 0 || self.register == 127)) || (n == 80 && (
        self.register == 0 || self.register == 40 || self.register == 80))
    }

    /// Whether `w` is the decoding of this block, stamped with `time`.
    pub open spec fn reads_window(&self, time: i64, w: ReadInput) -> bool {
        let n = self.values@.len();
        let v = self.values@;
        let d = self.datalog;
        match w {
            ReadInput::ReadInputAll(a) => self.register == 0 && n == 254
                && ReadInputAll::decodes(v, d, time, *a),
            ReadInput::ReadInputAll2(a) => self.register == 127 && n == 254
                && ReadInputAll2::decodes(v, d, time, *a),
            ReadInput::ReadInput1(a) => self.register == 0 && n == 80 && ReadInput1::decodes(
                v,
                d,
                time,
                a,
            ),
            ReadInput::ReadInput2(a) => self.register == 40 && n == 80 && ReadInput2::decodes(
                v,
                d,
                time,
                a,
            ),
            ReadInput::ReadInput3(a) => self.register == 80 && n == 80 && ReadInput3::decodes(
                v,
                d,
                time,
                a,
            ),
        }
    }

    /// Decodes an input-register block by its starting register and byte length; a
    /// block that is no known window is refused.
    pub fn read_input(&self, time: i64) -> (r: Result<ReadInput, DecodeError>)
        ensures
            self.known_window() ==> (r matches Ok(w) && self.reads_window(time, w)),
            !self.known_window() ==> r == Err::<ReadInput, DecodeError>(
                DecodeError::UnhandledInputWindow,
            ),
    {
        let v = self.values.as_slice();
        let len = self.values.len();
        if self.register == 0 && len == 254 {
            Ok(ReadInput::ReadInputAll(Box::new(ReadInputAll::decode(v, self.datalog, time))))
        } else if self.register == 127 && len == 254 {
            Ok(ReadInput::ReadInputAll2(Box::new(ReadInputAll2::decode(v, self.datalog, time))))
        } else if self.register == 0 && len == 80 {
            Ok(ReadInput::ReadInput1(ReadInput1::decode(v, self.datalog, time)))
        } else if self.register == 40 && len == 80 {
            Ok(ReadInput::ReadInput2(ReadInput2::decode(v, self.datalog, time)))
        } else if self.register == 80 && len == 80 {
            Ok(ReadInput::ReadInput3(ReadInput3::decode(v, self.datalog, time)))
        } else {
            Err(DecodeError::UnhandledInputWindow)
        }
    }
}

/// The latest decoding of each of the three input windows of one datalogger.
#[derive(Clone, Copy, Debug)]
pub struct ReadInputs {
    pub read_input_1: Option<ReadInput1>,
    pub read_input_2: Option<ReadInput2>,
    pub read_input_3: Option<ReadInput3>,
}

impl ReadInputs {
    /// No window has arrived yet.
    pub fn new() -> (r: ReadInputs)
        ensures
            r.read_input_1 is None,
            r.read_input_2 is None,
            r.read_input_3 is None,
    {
        ReadInputs { read_input_1: None, read_input_2: None, read_input_3: None }
    }

    /// Stores the latest first window 1.
    pub fn set_read_input_1(&mut self, i: ReadInput1)
        ensures
            final(self).read_input_1 == Some(i),
            final(self).read_input_2 == old(self).read_input_2,
            final(self).read_input_3 == old(self).read_input_3,
    {
        self.read_input_1 = Some(i);
    }

    /// Stores the latest first window 2.
    pub fn set_read_input_2(&mut self, i: ReadInput2)
        ensures
            final(self).read_input_2 == Some(i),
            final(self).read_input_1 == old(self).read_input_1,
            final(self).read_input_3 == old(self).read_input_3,
    {
        self.read_input_2 = Some(i);
    }

    /// Stores the latest first window 3.
    pub fn set_read_input_3(&mut self, i: ReadInput3)
        ensures
            final(self).read_input_3 == Some(i),
            final(self).read_input_1 == old(self).read_input_1,
            final(self).read_input_2 == old(self).read_input_2,
    {
        self.read_input_3 = Some(i);
    }

    /// The full snapshot, once all three windows have arrived: each field copied from
    /// the window that holds it, the generator fields zero, the datalog that of window 1,
    /// stamped with `time`, the moment of assembly.
    pub fn to_input_all(&self, time: i64) -> (r: Option<ReadInputAll>)
        ensures
            r is Some <==> (self.read_input_1 is Some && self.read_input_2 is Some
                && self.read_input_3 is Some),
            r matches Some(a) ==> a == assemble(
                self.read_input_1->0,
                self.read_input_2->0,
                self.read_input_3->0,
                time,
            ),
            r matches Some(a) ==> self.assembles(a, time),
            r matches Some(a) ==> (self.read_input_1->0.derived_ok() && self.read_input_2->0.derived_ok()
                ==> a.derived_ok()),
    {
        match (&self.read_input_1, &self.read_input_2, &self.read_input_3) {
            (Some(ri1), Some(ri2), Some(ri3)) => Some(
                ReadInputAll {
                    status: ri1.status,
                    v_pv_1: ri1.v_pv_1,
                    v_pv_2: ri1.v_pv_2,
                    v_pv_3: ri1.v_pv_3,
                    v_bat: ri1.v_bat,
                    soc: ri1.soc,
                    soh: ri1.soh,
                    internal_fault: ri1.internal_fault,
                    p_pv: ri1.p_pv,
                    p_pv_1: ri1.p_pv_1,
                    p_pv_2: ri1.p_pv_2,
                    p_pv_3: ri1.p_pv_3,
                    p_battery: ri1.p_battery,
                    p_charge: ri1.p_charge,
                    p_discharge: ri1.p_discharge,
                    v_ac_r: ri1.v_ac_r,
                    v_ac_s: ri1.v_ac_s,
                    v_ac_t: ri1.v_ac_t,
                    f_ac: ri1.f_ac,
                    p_inv: ri1.p_inv,
                    p_rec: ri1.p_rec,
                    pf: ri1.pf,
                    v_eps_r: ri1.v_eps_r,
                    v_eps_s: ri1.v_eps_s,
                    v_eps_t: ri1.v_eps_t,
                    f_eps: ri1.f_eps,
                    p_eps: ri1.p_eps,
                    s_eps: ri1.s_eps,
                    p_grid: ri1.p_grid,
                    p_to_grid: ri1.p_to_grid,
                    p_to_user: ri1.p_to_user,
                    e_pv_day: ri1.e_pv_day,
                    e_pv_day_1: ri1.e_pv_day_1,
                    e_pv_day_2: ri1.e_pv_day_2,
                    e_pv_day_3: ri1.e_pv_day_3,
                    e_inv_day: ri1.e_inv_day,
                    e_rec_day: ri1.e_rec_day,
                    e_chg_day: ri1.e_chg_day,
                    e_dischg_day: ri1.e_dischg_day,
                    e_eps_day: ri1.e_eps_day,
                    e_to_grid_day: ri1.e_to_grid_day,
                    e_to_user_day: ri1.e_to_user_day,
                    v_bus_1: ri1.v_bus_1,
                    v_bus_2: ri1.v_bus_2,
                    e_pv_all: ri2.e_pv_all,
                    e_pv_all_1: ri2.e_pv_all_1,
                    e_pv_all_2: ri2.e_pv_all_2,
                    e_pv_all_3: ri2.e_pv_all_3,
                    e_inv_all: ri2.e_inv_all,
                    e_rec_all: ri2.e_rec_all,
                    e_chg_all: ri2.e_chg_all,
                    e_dischg_all: ri2.e_dischg_all,
                    e_eps_all: ri2.e_eps_all,
                    e_to_grid_all: ri2.e_to_grid_all,
                    e_to_user_all: ri2.e_to_user_all,
                    fault_code: ri2.fault_code,
                    warning_code: ri2.warning_code,
                    t_inner: ri2.t_inner,
                    t_rad_1: ri2.t_rad_1,
                    t_rad_2: ri2.t_rad_2,
                    t_bat: ri2.t_bat,
                    runtime: ri2.runtime,
                    register_71: ri2.register_71,
                    register_77: ri2.register_77,
                    max_chg_curr: ri3.max_chg_curr,
                    max_dischg_curr: ri3.max_dischg_curr,
                    charge_volt_ref: ri3.charge_volt_ref,
                    dischg_cut_volt: ri3.dischg_cut_volt,
                    bat_status_0: ri3.bat_status_0,
                    bat_status_1: ri3.bat_status_1,
                    bat_status_2: ri3.bat_status_2,
                    bat_status_3: ri3.bat_status_3,
                    bat_status_4: ri3.bat_status_4,
                    bat_status_5: ri3.bat_status_5,
                    bat_status_6: ri3.bat_status_6,
                    bat_status_7: ri3.bat_status_7,
                    bat_status_8: ri3.bat_status_8,
                    bat_status_9: ri3.bat_status_9,
                    bat_status_inv: ri3.bat_status_inv,
                    bat_count: ri3.bat_count,
                    bat_capacity: ri3.bat_capacity,
                    bat_current: ri3.bat_current,
                    bms_event_1: ri3.bms_event_1,
                    bms_event_2: ri3.bms_event_2,
                    max_cell_voltage: ri3.max_cell_voltage,
                    min_cell_voltage: ri3.min_cell_voltage,
                    max_cell_temp: ri3.max_cell_temp,
                    min_cell_temp: ri3.min_cell_temp,
                    bms_fw_update_state: ri3.bms_fw_update_state,
                    cycle_count: ri3.cycle_count,
                    vbat_inv: ri3.vbat_inv,
                    t1_temp: ri3.t1_temp,
                    register_113: ri3.register_113,
                    p_on_grid_load: ri3.p_on_grid_load,
                    v_half_bus: 0,
                    v_gen: 0,
                    f_gen: 0,
                    p_gen: 0,
                    e_gen_day: 0,
                    e_gen_all: 0,
                    datalog: ri1.datalog,
                    time,
                },
            ),
            _ => None,
        }
    }

    /// Whether `a` is the snapshot assembled from the three stored windows.
    pub open spec fn assembles(&self, a: ReadInputAll, time: i64) -> bool {
        &&& a.status == self.read_input_1->0.status
        &&& a.v_pv_1 == self.read_input_1->0.v_pv_1
        &&& a.v_pv_2 == self.read_input_1->0.v_pv_2
        &&& a.v_pv_3 == self.read_input_1->0.v_pv_3
        &&& a.v_bat == self.read_input_1->0.v_bat
        &&& a.soc == self.read_input_1->0.soc
        &&& a.soh == self.read_input_1->0.soh
        &&& a.internal_fault == self.read_input_1->0.internal_fault
        &&& a.p_pv == self.read_input_1->0.p_pv
        &&& a.p_pv_1 == self.read_input_1->0.p_pv_1
        &&& a.p_pv_2 == self.read_input_1->0.p_pv_2
        &&& a.p_pv_3 == self.read_input_1->0.p_pv_3
        &&& a.p_battery == self.read_input_1->0.p_battery
        &&& a.p_charge == self.read_input_1->0.p_charge
        &&& a.p_discharge == self.read_input_1->0.p_discharge
        &&& a.v_ac_r == self.read_input_1->0.v_ac_r
        &&& a.v_ac_s == self.read_input_1->0.v_ac_s
        &&& a.v_ac_t == self.read_input_1->0.v_ac_t
        &&& a.f_ac == self.read_input_1->0.f_ac
        &&& a.p_inv == self.read_input_1->0.p_inv
        &&& a.p_rec == self.read_input_1->0.p_rec
        &&& a.pf == self.read_input_1->0.pf
        &&& a.v_eps_r == self.read_input_1->0.v_eps_r
        &&& a.v_eps_s == self.read_input_1->0.v_eps_s
        &&& a.v_eps_t == self.read_input_1->0.v_eps_t
        &&& a.f_eps == self.read_input_1->0.f_eps
        &&& a.p_eps == self.read_input_1->0.p_eps
        &&& a.s_eps == self.read_input_1->0.s_eps
        &&& a.p_grid == self.read_input_1->0.p_grid
        &&& a.p_to_grid == self.read_input_1->0.p_to_grid
        &&& a.p_to_user == self.read_input_1->0.p_to_user
        &&& a.e_pv_day == self.read_input_1->0.e_pv_day
        &&& a.e_pv_day_1 == self.read_input_1->0.e_pv_day_1
        &&& a.e_pv_day_2 == self.read_input_1->0.e_pv_day_2
        &&& a.e_pv_day_3 == self.read_input_1->0.e_pv_day_3
        &&& a.e_inv_day == self.read_input_1->0.e_inv_day
        &&& a.e_rec_day == self.read_input_1->0.e_rec_day
        &&& a.e_chg_day == self.read_input_1->0.e_chg_day
        &&& a.e_dischg_day == self.read_input_1->0.e_dischg_day
        &&& a.e_eps_day == self.read_input_1->0.e_eps_day
        &&& a.e_to_grid_day == self.read_input_1->0.e_to_grid_day
        &&& a.e_to_user_day == self.read_input_1->0.e_to_user_day
        &&& a.v_bus_1 == self.read_input_1->0.v_bus_1
        &&& a.v_bus_2 == self.read_input_1->0.v_bus_2
        &&& a.e_pv_all == self.read_input_2->0.e_pv_all
        &&& a.e_pv_all_1 == self.read_input_2->0.e_pv_all_1
        &&& a.e_pv_all_2 == self.read_input_2->0.e_pv_all_2
        &&& a.e_pv_all_3 == self.read_input_2->0.e_pv_all_3
        &&& a.e_inv_all == self.read_input_2->0.e_inv_all
        &&& a.e_rec_all == self.read_input_2->0.e_rec_all
        &&& a.e_chg_all == self.read_input_2->0.e_chg_all
        &&& a.e_dischg_all == self.read_input_2->0.e_dischg_all
        &&& a.e_eps_all == self.read_input_2->0.e_eps_all
        &&& a.e_to_grid_all == self.read_input_2->0.e_to_grid_all
        &&& a.e_to_user_all == self.read_input_2->0.e_to_user_all
        &&& a.fault_code == self.read_input_2->0.fault_code
        &&& a.warning_code == self.read_input_2->0.warning_code
        &&& a.t_inner == self.read_input_2->0.t_inner
        &&& a.t_rad_1 == self.read_input_2->0.t_rad_1
        &&& a.t_rad_2 == self.read_input_2->0.t_rad_2
        &&& a.t_bat == self.read_input_2->0.t_bat
        &&& a.runtime == self.read_input_2->0.runtime
        &&& a.register_71 == self.read_input_2->0.register_71
        &&& a.register_77 == self.read_input_2->0.register_77
        &&& a.max_chg_curr == self.read_input_3->0.max_chg_curr
        &&& a.max_dischg_curr == self.read_input_3->0.max_dischg_curr
        &&& a.charge_volt_ref == self.read_input_3->0.charge_volt_ref
        &&& a.dischg_cut_volt == self.read_input_3->0.dischg_cut_volt
        &&& a.bat_status_0 == self.read_input_3->0.bat_status_0
        &&& a.bat_status_1 == self.read_input_3->0.bat_status_1
        &&& a.bat_status_2 == self.read_input_3->0.bat_status_2
        &&& a.bat_status_3 == self.read_input_3->0.bat_status_3
        &&& a.bat_status_4 == self.read_input_3->0.bat_status_4
        &&& a.bat_status_5 == self.read_input_3->0.bat_status_5
        &&& a.bat_status_6 == self.read_input_3->0.bat_status_6
        &&& a.bat_status_7 == self.read_input_3->0.bat_status_7
        &&& a.bat_status_8 == self.read_input_3->0.bat_status_8
        &&& a.bat_status_9 == self.read_input_3->0.bat_status_9
        &&& a.bat_status_inv == self.read_input_3->0.bat_status_inv
        &&& a.bat_count == self.read_input_3->0.bat_count
        &&& a.bat_capacity == self.read_input_3->0.bat_capacity
        &&& a.bat_current == self.read_input_3->0.bat_current
        &&& a.bms_event_1 == self.read_input_3->0.bms_event_1
        &&& a.bms_event_2 == self.read_input_3->0.bms_event_2
        &&& a.max_cell_voltage == self.read_input_3->0.max_cell_voltage
        &&& a.min_cell_voltage == self.read_input_3->0.min_cell_voltage
        &&& a.max_cell_temp == self.read_input_3->0.max_cell_temp
        &&& a.min_cell_temp == self.read_input_3->0.min_cell_temp
        &&& a.bms_fw_update_state == self.read_input_3->0.bms_fw_update_state
        &&& a.cycle_count == self.read_input_3->0.cycle_count
        &&& a.vbat_inv == self.read_input_3->0.vbat_inv
        &&& a.t1_temp == self.read_input_3->0.t1_temp
        &&& a.register_113 == self.read_input_3->0.register_113
        &&& a.p_on_grid_load == self.read_input_3->0.p_on_grid_load
        &&& a.v_half_bus == 0
        &&& a.v_gen == 0
        &&& a.f_gen == 0
        &&& a.p_gen == 0
        &&& a.e_gen_day == 0
        &&& a.e_gen_all == 0
        &&& a.datalog == self.read_input_1->0.datalog
        &&& a.time == time
    }
}

/// The full snapshot assembled from the three windows.
pub open spec fn assemble(ri1: ReadInput1, ri2: ReadInput2, ri3: ReadInput3, time: i64) -> ReadInputAll {
    ReadInputAll {
        status: ri1.status,
        v_pv_1: ri1.v_pv_1,
        v_pv_2: ri1.v_pv_2,
        v_pv_3: ri1.v_pv_3,
        v_bat: ri1.v_bat,
        soc: ri1.soc,
        soh: ri1.soh,
        internal_fault: ri1.internal_fault,
        p_pv: ri1.p_pv,
        p_pv_1: ri1.p_pv_1,
        p_pv_2: ri1.p_pv_2,
        p_pv_3: ri1.p_pv_3,
        p_battery: ri1.p_battery,
        p_charge: ri1.p_charge,
        p_discharge: ri1.p_discharge,
        v_ac_r: ri1.v_ac_r,
        v_ac_s: ri1.v_ac_s,
        v_ac_t: ri1.v_ac_t,
        f_ac: ri1.f_ac,
        p_inv: ri1.p_inv,
        p_rec: ri1.p_rec,
        pf: ri1.pf,
        v_eps_r: ri1.v_eps_r,
        v_eps_s: ri1.v_eps_s,
        v_eps_t: ri1.v_eps_t,
        f_eps: ri1.f_eps,
        p_eps: ri1.p_eps,
        s_eps: ri1.s_eps,
        p_grid: ri1.p_grid,
        p_to_grid: ri1.p_to_grid,
        p_to_user: ri1.p_to_user,
        e_pv_day: ri1.e_pv_day,
        e_pv_day_1: ri1.e_pv_day_1,
        e_pv_day_2: ri1.e_pv_day_2,
        e_pv_day_3: ri1.e_pv_day_3,
        e_inv_day: ri1.e_inv_day,
        e_rec_day: ri1.e_rec_day,
        e_chg_day: ri1.e_chg_day,
        e_dischg_day: ri1.e_dischg_day,
        e_eps_day: ri1.e_eps_day,
        e_to_grid_day: ri1.e_to_grid_day,
        e_to_user_day: ri1.e_to_user_day,
        v_bus_1: ri1.v_bus_1,
        v_bus_2: ri1.v_bus_2,
        e_pv_all: ri2.e_pv_all,
        e_pv_all_1: ri2.e_pv_all_1,
        e_pv_all_2: ri2.e_pv_all_2,
        e_pv_all_3: ri2.e_pv_all_3,
        e_inv_all: ri2.e_inv_all,
        e_rec_all: ri2.e_rec_all,
        e_chg_all: ri2.e_chg_all,
        e_dischg_all: ri2.e_dischg_all,
        e_eps_all: ri2.e_eps_all,
        e_to_grid_all: ri2.e_to_grid_all,
        e_to_user_all: ri2.e_to_user_all,
        fault_code: ri2.fault_code,
        warning_code: ri2.warning_code,
        t_inner: ri2.t_inner,
        t_rad_1: ri2.t_rad_1,
        t_rad_2: ri2.t_rad_2,
        t_bat: ri2.t_bat,
        runtime: ri2.runtime,
        register_71: ri2.register_71,
        register_77: ri2.register_77,
        max_chg_curr: ri3.max_chg_curr,
        max_dischg_curr: ri3.max_dischg_curr,
        charge_volt_ref: ri3.charge_volt_ref,
        dischg_cut_volt: ri3.dischg_cut_volt,
        bat_status_0: ri3.bat_status_0,
        bat_status_1: ri3.bat_status_1,
        bat_status_2: ri3.bat_status_2,
        bat_status_3: ri3.bat_status_3,
        bat_status_4: ri3.bat_status_4,
        bat_status_5: ri3.bat_status_5,
        bat_status_6: ri3.bat_status_6,
        bat_status_7: ri3.bat_status_7,
        bat_status_8: ri3.bat_status_8,
        bat_status_9: ri3.bat_status_9,
        bat_status_inv: ri3.bat_status_inv,
        bat_count: ri3.bat_count,
        bat_capacity: ri3.bat_capacity,
        bat_current: ri3.bat_current,
        bms_event_1: ri3.bms_event_1,
        bms_event_2: ri3.bms_event_2,
        max_cell_voltage: ri3.max_cell_voltage,
        min_cell_voltage: ri3.min_cell_voltage,
        max_cell_temp: ri3.max_cell_temp,
        min_cell_temp: ri3.min_cell_temp,
        bms_fw_update_state: ri3.bms_fw_update_state,
        cycle_count: ri3.cycle_count,
        vbat_inv: ri3.vbat_inv,
        t1_temp: ri3.t1_temp,
        register_113: ri3.register_113,
        p_on_grid_load: ri3.p_on_grid_load,
        v_half_bus: 0,
        v_gen: 0,
        f_gen: 0,
        p_gen: 0,
        e_gen_day: 0,
        e_gen_all: 0,
        datalog: ri1.datalog,
        time,
    }
}

} // verus!

verus! {

/// In an assembled snapshot the derived fields hold their definitions, whenever they
/// held in the windows it was assembled from.
pub proof fn lemma_assembled_derived(inputs: ReadInputs, a: ReadInputAll, time: i64)
    requires
        inputs.read_input_1 matches Some(r1) && r1.derived_ok(),
        inputs.read_input_2 matches Some(r2) && r2.derived_ok(),
        inputs.read_input_3 is Some,
        inputs.assembles(a, time),
    ensures
        a.derived_ok(),
        a.p_pv == a.p_pv_1 as u32 + a.p_pv_2 as u32 + a.p_pv_3 as u32,
        a.p_grid == a.p_to_user as i32 - a.p_to_grid as i32,
        a.p_battery == a.p_charge as i32 - a.p_discharge as i32,
{
}

impl ReadInput {
    pub open spec fn spec_datalog(&self) -> Serial {
        match self {
            ReadInput::ReadInputAll(a) => a.datalog,
            ReadInput::ReadInputAll2(a) => a.datalog,
            ReadInput::ReadInput1(a) => a.datalog,
            ReadInput::ReadInput2(a) => a.datalog,
            ReadInput::ReadInput3(a) => a.datalog,
        }
    }

    /// The datalogger the block came from.
    #[verifier::when_used_as_spec(spec_datalog)]
    pub fn datalog(&self) -> (r: Serial)
        ensures
            r == self.spec_datalog(),
    {
        match self {
            ReadInput::ReadInputAll(a) => a.datalog,
            ReadInput::ReadInputAll2(a) => a.datalog,
            ReadInput::ReadInput1(a) => a.datalog,
            ReadInput::ReadInput2(a) => a.datalog,
            ReadInput::ReadInput3(a) => a.datalog,
        }
    }
}

impl ReadInputs {
    /// No window stored.
    pub open spec fn spec_new() -> ReadInputs {
        ReadInputs { read_input_1: None, read_input_2: None, read_input_3: None }
    }

    /// The slots after storing `w`: a window replaces its own slot; a long form changes nothing.
    pub open spec fn spec_store(self, w: ReadInput) -> ReadInputs {
        match w {
            ReadInput::ReadInput1(x) => ReadInputs {
                read_input_1: Some(x),
                read_input_2: self.read_input_2,
                read_input_3: self.read_input_3,
            },
            ReadInput::ReadInput2(x) => ReadInputs {
                read_input_1: self.read_input_1,
                read_input_2: Some(x),
                read_input_3: self.read_input_3,
            },
            ReadInput::ReadInput3(x) => ReadInputs {
                read_input_1: self.read_input_1,
                read_input_2: self.read_input_2,
                read_input_3: Some(x),
            },
            _ => self,
        }
    }

    /// The assembled snapshot, once all three windows are stored.
    pub open spec fn spec_snapshot(self, time: i64) -> Option<ReadInputAll> {
        match (self.read_input_1, self.read_input_2, self.read_input_3) {
            (Some(r1), Some(r2), Some(r3)) => Some(assemble(r1, r2, r3, time)),
            _ => None,
        }
    }

    /// Stores a decoded block at `time`: a window goes to its slot, and once all three
    /// windows are stored the snapshot assembled at `time` is returned; a long form of
    /// all registers is returned as it is.
    pub fn accept(&mut self, w: ReadInput, time: i64) -> (r: Option<ReadInputAll>)
        ensures
            *final(self) == old(self).spec_store(w),
            r == accepted(*old(self), w, time),
    {
        match w {
            ReadInput::ReadInputAll(a) => Some(*a),
            ReadInput::ReadInputAll2(_) => None,
            ReadInput::ReadInput1(x) => {
                self.set_read_input_1(x);
                self.to_input_all(time)
            },
            ReadInput::ReadInput2(x) => {
                self.set_read_input_2(x);
                self.to_input_all(time)
            },
            ReadInput::ReadInput3(x) => {
                self.set_read_input_3(x);
                self.to_input_all(time)
            },
        }
    }
}

/// What accepting `w` yields: a long form of all registers as it is, the second long
/// form nothing, a window the snapshot once all three are stored.
pub open spec fn accepted(inputs: ReadInputs, w: ReadInput, time: i64) -> Option<ReadInputAll> {
    match w {
        ReadInput::ReadInputAll(a) => Some(*a),
        ReadInput::ReadInputAll2(_) => None,
        _ => inputs.spec_store(w).spec_snapshot(time),
    }
}

/// The first position at or after `k` of the datalog `d`, or -1.
pub open spec fn index_of(ds: Seq<Serial>, d: Seq<u8>, k: int) -> int
    decreases ds.len() - k,
{
    if k < 0 || k >= ds.len() {
        -1
    } else if ds[k]@ == d {
        k
    } else {
        index_of(ds, d, k + 1)
    }
}

/// The datalogs, their windows and the snapshot after accepting `w`: the windows of
/// its datalogger take it in, and a datalogger seen for the first time gets empty
/// windows first.
pub open spec fn accept_views(ds: Seq<Serial>, ws: Seq<ReadInputs>, w: ReadInput, time: i64) -> (
    Seq<Serial>,
    Seq<ReadInputs>,
    Option<ReadInputAll>,
) {
    let i = index_of(ds, w.spec_datalog()@, 0);
    if i >= 0 {
        (ds, ws.update(i, ws[i].spec_store(w)), accepted(ws[i], w, time))
    } else {
        (
            ds.push(w.spec_datalog()),
            ws.push(ReadInputs::spec_new().spec_store(w)),
            accepted(ReadInputs::spec_new(), w, time),
        )
    }
}

/// The input windows of every datalogger, kept apart by datalog: `windows[i]` belongs
/// to `datalogs[i]`.
#[derive(Clone, Debug)]
pub struct InputAssembler {
    pub datalogs: Vec<Serial>,
    pub windows: Vec<ReadInputs>,
}

impl InputAssembler {
    pub open spec fn wf(&self) -> bool {
        self.datalogs@.len() == self.windows@.len()
    }

    pub fn new() -> (r: InputAssembler)
        ensures
            r.wf(),
            r.datalogs@.len() == 0,
    {
        InputAssembler { datalogs: Vec::new(), windows: Vec::new() }
    }

    /// Accepts a decoded block into the windows of its datalogger, which are created
    /// empty on its first block; see `ReadInputs::accept`.
    pub fn accept(&mut self, w: ReadInput, time: i64) -> (r: Option<ReadInputAll>)
        requires
            old(self).wf(),
        ensures
            final(self).wf(),
            (final(self).datalogs@, final(self).windows@, r) == accept_views(
                old(self).datalogs@,
                old(self).windows@,
                w,
                time,
            ),
    {
        let d = w.datalog();
        let n = self.datalogs.len();
        let mut i: usize = 0;
        while i < n
            invariant
                n == self.datalogs@.len(),
                0 <= i <= n,
                index_of(self.datalogs@, d@, 0) == index_of(self.datalogs@, d@, i as int),
            ensures
                0 <= i <= n,
                index_of(self.datalogs@, d@, 0) == index_of(self.datalogs@, d@, i as int),
                i < n ==> self.datalogs@[i as int]@ == d@,
            decreases n - i,
        {
            if self.datalogs[i].same(&d) {
                break;
            }
            i = i + 1;
        }
        if i < n {
            let mut slot = self.windows.remove(i);
            let r = slot.accept(w, time);
            self.windows.insert(i, slot);
            proof {
                assert(self.windows@ =~= old(self).windows@.update(
                    i as int,
                    old(self).windows@[i as int].spec_store(w),
                ));
            }
            r
        } else {
            let mut slot = ReadInputs::new();
            let r = slot.accept(w, time);
            self.datalogs.push(d);
            self.windows.push(slot);
            r
        }
    }
}

} // verus!
