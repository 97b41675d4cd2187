use vstd::prelude::*;

use crate::codec::le16_at;
use crate::codec::read_u16_le;
use crate::serial::Serial;
use crate::text::push_char;
use crate::text::fixed_text;
use crate::text::fixed_to_text;
use crate::text::int_text;
use crate::text::int_to_text;
use crate::text::json_member;
use crate::text::json_quoted;
use crate::text::push_member;

verus! {

/// The little-endian 32-bit word at `i`.
pub open spec fn le32_at(s: Seq<u8>, i: int) -> u32 {
    (le16_at(s, i) as int + 65536 * (le16_at(s, i + 2) as int)) as u32
}

/// A 16-bit word read as two's complement.
pub open spec fn i16_of(w: u16) -> i16 {
    if w < 0x8000 {
        w as i16
    } else {
        (w as int - 0x10000) as i16
    }
}

/// A byte read as two's complement.
pub open spec fn i8_of(b: u8) -> i8 {
    if b < 0x80 {
        b as i8
    } else {
        (b as int - 0x100) as i8
    }
}

fn read_u32_le(s: &[u8], i: usize) -> (r: u32)
    requires
        i + 3 < s@.len(),
        i < 0x10000,
    ensures
        r == le32_at(s@, i as int),
{
    let lo = read_u16_le(s, i);
    let hi = read_u16_le(s, i + 2);
    assert(hi as int * 65536 <= 65535 * 65536) by (nonlinear_arith)
        requires
            hi <= 65535,
    ;
    (lo as u32) + (hi as u32) * 65536
}

fn read_i16_le(s: &[u8], i: usize) -> (r: i16)
    requires
        i + 1 < s@.len(),
    ensures
        r == i16_of(le16_at(s@, i as int)),
{
    let w = read_u16_le(s, i);
    if w < 0x8000 {
        w as i16
    } else {
        (w as i32 - 0x10000) as i16
    }
}

fn read_i8(s: &[u8], i: usize) -> (r: i8)
    requires
        i < s@.len(),
    ensures
        r == i8_of(s@[i as int]),
{
    let b = s[i];
    if b < 0x80 {
        b as i8
    } else {
        (b as i16 - 0x100) as i8
    }
}

/// A field's value: an integer, or a raw integer to be divided by 10, 100 or 1000.
#[derive(Clone, Copy, Debug, PartialEq, Eq, Structural)]
pub enum FieldValue {
    Int(i64),
    Tenths(i64),
    Hundredths(i64),
    Thousandths(i64),
}

/// How a field is published on its own: as its number, or through a label table or a
/// bit decoder.
#[derive(Clone, Copy, Debug, PartialEq, Eq, Structural)]
pub enum FieldKind {
    Plain,
    Status(u16),
    FaultCode(u32),
    WarningCode(u32),
    Bits71(u16),
    Bits77(u16),
    Bits113(u16),
    Bits144(u16),
}

/// One named field of a decoded snapshot.
#[derive(Clone, Copy, Debug)]
pub struct Field {
    pub name: &'static str,
    pub value: FieldValue,
    pub kind: FieldKind,
}

/// The JSON number of a field value.
pub open spec fn field_json(v: FieldValue) -> Seq<char> {
    match v {
        FieldValue::Int(i) => int_text(i as int),
        FieldValue::Tenths(i) => fixed_text(i as int, 1),
        FieldValue::Hundredths(i) => fixed_text(i as int, 2),
        FieldValue::Thousandths(i) => fixed_text(i as int, 3),
    }
}

/// The JSON number of a field value.
pub fn field_text(v: FieldValue) -> (r: String)
    ensures
        r@ == field_json(v),
{
    match v {
        FieldValue::Int(i) => int_to_text(i),
        FieldValue::Tenths(i) => fixed_to_text(i, 1),
        FieldValue::Hundredths(i) => fixed_to_text(i, 2),
        FieldValue::Thousandths(i) => fixed_to_text(i, 3),
    }
}

/// The members of a JSON object holding the fields in order.
pub open spec fn members(fs: Seq<Field>) -> Seq<char>
    decreases fs.len(),
{
    if fs.len() == 0 {
        Seq::empty()
    } else {
        members(fs.drop_last()) + json_member(
            fs.len() == 1,
            fs.last().name@,
            field_json(fs.last().value),
        )
    }
}

/// A snapshot as one flat JSON object: its fields in order, then its datalog.
pub open spec fn snapshot_json(fs: Seq<Field>, datalog: Seq<u8>) -> Seq<char> {
    (seq!['{'] + members(fs) + json_member(
        fs.len() == 0,
        "datalog"@,
        json_quoted(Serial::text_of(datalog)),
    )).push('}')
}

/// The flat JSON object of a snapshot's fields and datalog.
pub fn fields_json(fs: &Vec<Field>, datalog: &Serial) -> (r: String)
    ensures
        r@ == snapshot_json(fs@, datalog@),
{
    let mut s = String::new();
    push_char(&mut s, '{');
    let mut i: usize = 0;
    while i < fs.len()
        invariant
            0 <= i <= fs@.len(),
            s@ == seq!['{'] + members(fs@.subrange(0, i as int)),
        decreases fs@.len() - i,
    {
        let f = fs[i];
        let v = field_text(f.value);
        push_member(&mut s, i == 0, f.name, v.as_str());
        i = i + 1;
        assert(fs@.subrange(0, i as int).drop_last() =~= fs@.subrange(0, i - 1));
    }
    assert(fs@.subrange(0, fs@.len() as int) =~= fs@);
    let d = crate::text::json_string(datalog.to_text().as_str());
    push_member(&mut s, fs.len() == 0, "datalog", d.as_str());
    push_char(&mut s, '}');
    s
}

/// The decoding of all input registers 0 to 126, read at once or assembled from the three windows.
#[derive(Clone, Copy, Debug, PartialEq, Eq)]
pub struct ReadInputAll {
    pub status: u16,
    pub v_pv_1: u16,
    pub v_pv_2: u16,
    pub v_pv_3: u16,
    pub v_bat: u16,
    pub soc: i8,
    pub soh: i8,
    pub internal_fault: u16,
    pub p_pv: u32,
    pub p_pv_1: u16,
    pub p_pv_2: u16,
    pub p_pv_3: u16,
    pub p_battery: i32,
    pub p_charge: u16,
    pub p_discharge: u16,
    pub v_ac_r: u16,
    pub v_ac_s: u16,
    pub v_ac_t: u16,
    pub f_ac: u16,
    pub p_inv: u16,
    pub p_rec: u16,
    pub pf: u16,
    pub v_eps_r: u16,
    pub v_eps_s: u16,
    pub v_eps_t: u16,
    pub f_eps: u16,
    pub p_eps: u16,
    pub s_eps: u16,
    pub p_grid: i32,
    pub p_to_grid: u16,
    pub p_to_user: u16,
    pub e_pv_day: u32,
    pub e_pv_day_1: u16,
    pub e_pv_day_2: u16,
    pub e_pv_day_3: u16,
    pub e_inv_day: u16,
    pub e_rec_day: u16,
    pub e_chg_day: u16,
    pub e_dischg_day: u16,
    pub e_eps_day: u16,
    pub e_to_grid_day: u16,
    pub e_to_user_day: u16,
    pub v_bus_1: u16,
    pub v_bus_2: u16,
    pub e_pv_all: u64,
    pub e_pv_all_1: u32,
    pub e_pv_all_2: u32,
    pub e_pv_all_3: u32,
    pub e_inv_all: u32,
    pub e_rec_all: u32,
    pub e_chg_all: u32,
    pub e_dischg_all: u32,
    pub e_eps_all: u32,
    pub e_to_grid_all: u32,
    pub e_to_user_all: u32,
    pub fault_code: u32,
    pub warning_code: u32,
    pub t_inner: i16,
    pub t_rad_1: i16,
    pub t_rad_2: i16,
    pub t_bat: i16,
    pub runtime: u32,
    pub register_71: u16,
    pub register_77: u16,
    pub max_chg_curr: u16,
    pub max_dischg_curr: u16,
    pub charge_volt_ref: u16,
    pub dischg_cut_volt: u16,
    pub bat_status_0: u16,
    pub bat_status_1: u16,
    pub bat_status_2: u16,
    pub bat_status_3: u16,
    pub bat_status_4: u16,
    pub bat_status_5: u16,
    pub bat_status_6: u16,
    pub bat_status_7: u16,
    pub bat_status_8: u16,
    pub bat_status_9: u16,
    pub bat_status_inv: u16,
    pub bat_count: u16,
    pub bat_capacity: u16,
    pub bat_current: u16,
    pub bms_event_1: u16,
    pub bms_event_2: u16,
    pub max_cell_voltage: u16,
    pub min_cell_voltage: u16,
    pub max_cell_temp: u16,
    pub min_cell_temp: u16,
    pub bms_fw_update_state: u16,
    pub cycle_count: u16,
    pub vbat_inv: u16,
    pub t1_temp: u16,
    pub register_113: u16,
    pub p_on_grid_load: u16,
    pub v_half_bus: u16,
    pub v_gen: u16,
    pub f_gen: u16,
    pub p_gen: u16,
    pub e_gen_day: u16,
    pub e_gen_all: u32,
    pub time: i64,
    pub datalog: Serial,
}

impl ReadInputAll {
    /// How many value bytes a decoding reads.
    pub const SIZE: usize = 254;

    /// Whether `r` is the decoding of `values`, stamped with `datalog` and `time`.
    pub open spec fn decodes(values: Seq<u8>, datalog: Serial, time: i64, r: ReadInputAll) -> bool {
        &&& r.status == le16_at(values, 0)
        &&& r.v_pv_1 == le16_at(values, 2)
        &&& r.v_pv_2 == le16_at(values, 4)
        &&& r.v_pv_3 == le16_at(values, 6)
        &&& r.v_bat == le16_at(values, 8)
        &&& r.soc == i8_of(values[10])
        &&& r.soh == i8_of(values[11])
        &&& r.internal_fault == le16_at(values, 12)
        &&& r.p_pv_1 == le16_at(values, 14)
        &&& r.p_pv_2 == le16_at(values, 16)
        &&& r.p_pv_3 == le16_at(values, 18)
        &&& r.p_charge == le16_at(values, 20)
        &&& r.p_discharge == le16_at(values, 22)
        &&& r.v_ac_r == le16_at(values, 24)
        &&& r.v_ac_s == le16_at(values, 26)
        &&& r.v_ac_t == le16_at(values, 28)
        &&& r.f_ac == le16_at(values, 30)
        &&& r.p_inv == le16_at(values, 32)
        &&& r.p_rec == le16_at(values, 34)
        &&& r.pf == le16_at(values, 38)
        &&& r.v_eps_r == le16_at(values, 40)
        &&& r.v_eps_s == le16_at(values, 42)
        &&& r.v_eps_t == le16_at(values, 44)
        &&& r.f_eps == le16_at(values, 46)
        &&& r.p_eps == le16_at(values, 48)
        &&& r.s_eps == le16_at(values, 50)
        &&& r.p_to_grid == le16_at(values, 52)
        &&& r.p_to_user == le16_at(values, 54)
        &&& r.e_pv_day_1 == le16_at(values, 56)
        &&& r.e_pv_day_2 == le16_at(values, 58)
        &&& r.e_pv_day_3 == le16_at(values, 60)
        &&& r.e_inv_day == le16_at(values, 62)
        &&& r.e_rec_day == le16_at(values, 64)
        &&& r.e_chg_day == le16_at(values, 66)
        &&& r.e_dischg_day == le16_at(values, 68)
        &&& r.e_eps_day == le16_at(values, 70)
        &&& r.e_to_grid_day == le16_at(values, 72)
        &&& r.e_to_user_day == le16_at(values, 74)
        &&& r.v_bus_1 == le16_at(values, 76)
        &&& r.v_bus_2 == le16_at(values, 78)
        &&& r.e_pv_all_1 == le32_at(values, 80)
        &&& r.e_pv_all_2 == le32_at(values, 84)
        &&& r.e_pv_all_3 == le32_at(values, 88)
        &&& r.e_inv_all == le32_at(values, 92)
        &&& r.e_rec_all == le32_at(values, 96)
        &&& r.e_chg_all == le32_at(values, 100)
        &&& r.e_dischg_all == le32_at(values, 104)
        &&& r.e_eps_all == le32_at(values, 108)
        &&& r.e_to_grid_all == le32_at(values, 112)
        &&& r.e_to_user_all == le32_at(values, 116)
        &&& r.fault_code == le32_at(values, 120)
        &&& r.warning_code == le32_at(values, 124)
        &&& r.t_inner == i16_of(le16_at(values, 128))
        &&& r.t_rad_1 == i16_of(le16_at(values, 130))
        &&& r.t_rad_2 == i16_of(le16_at(values, 132))
        &&& r.t_bat == i16_of(le16_at(values, 134))
        &&& r.runtime == le32_at(values, 138)
        &&& r.register_71 == le16_at(values, 142)
        &&& r.register_77 == le16_at(values, 154)
        &&& r.max_chg_curr == le16_at(values, 162)
        &&& r.max_dischg_curr == le16_at(values, 164)
        &&& r.charge_volt_ref == le16_at(values, 166)
        &&& r.dischg_cut_volt == le16_at(values, 168)
        &&& r.bat_status_0 == le16_at(values, 170)
        &&& r.bat_status_1 == le16_at(values, 172)
        &&& r.bat_status_2 == le16_at(values, 174)
        &&& r.bat_status_3 == le16_at(values, 176)
        &&& r.bat_status_4 == le16_at(values, 178)
        &&& r.bat_status_5 == le16_at(values, 180)
        &&& r.bat_status_6 == le16_at(values, 182)
        &&& r.bat_status_7 == le16_at(values, 184)
        &&& r.bat_status_8 == le16_at(values, 186)
        &&& r.bat_status_9 == le16_at(values, 188)
        &&& r.bat_status_inv == le16_at(values, 190)
        &&& r.bat_count == le16_at(values, 192)
        &&& r.bat_capacity == le16_at(values, 194)
        &&& r.bat_current == le16_at(values, 196)
        &&& r.bms_event_1 == le16_at(values, 198)
        &&& r.bms_event_2 == le16_at(values, 200)
        &&& r.max_cell_voltage == le16_at(values, 202)
        &&& r.min_cell_voltage == le16_at(values, 204)
        &&& r.max_cell_temp == le16_at(values, 206)
        &&& r.min_cell_temp == le16_at(values, 208)
        &&& r.bms_fw_update_state == le16_at(values, 210)
        &&& r.cycle_count == le16_at(values, 212)
        &&& r.vbat_inv == le16_at(values, 214)
        &&& r.t1_temp == le16_at(values, 216)
        &&& r.register_113 == le16_at(values, 226)
        &&& r.p_on_grid_load == le16_at(values, 228)
        &&& r.v_half_bus == le16_at(values, 240)
        &&& r.v_gen == le16_at(values, 242)
        &&& r.f_gen == le16_at(values, 244)
        &&& r.p_gen == le16_at(values, 246)
        &&& r.e_gen_day == le16_at(values, 248)
        &&& r.e_gen_all == le32_at(values, 250)
        &&& r.derived_ok()
        &&& r.time == time
        &&& r.datalog == datalog
    }

    /// The fields computed at decoding hold their definitions.
    pub open spec fn derived_ok(&self) -> bool {
        &&& self.p_pv == self.p_pv_1 as u32 + self.p_pv_2 as u32 + self.p_pv_3 as u32
        &&& self.p_grid == self.p_to_user as i32 - self.p_to_grid as i32
        &&& self.p_battery == self.p_charge as i32 - self.p_discharge as i32
        &&& self.e_pv_day == self.e_pv_day_1 as u32 + self.e_pv_day_2 as u32 + self.e_pv_day_3 as u32
        &&& self.e_pv_all == self.e_pv_all_1 as u64 + self.e_pv_all_2 as u64 + self.e_pv_all_3 as u64
    }

    /// Decodes the little-endian register values; `time` stamps the decoding.
    pub fn decode(values: &[u8], datalog: Serial, time: i64) -> (r: ReadInputAll)
        requires
            values@.len() >= 254,
        ensures
            ReadInputAll::decodes(values@, datalog, time, r),
    {
        let status = read_u16_le(values, 0);
        let v_pv_1 = read_u16_le(values, 2);
        let v_pv_2 = read_u16_le(values, 4);
        let v_pv_3 = read_u16_le(values, 6);
        let v_bat = read_u16_le(values, 8);
        let soc = read_i8(values, 10);
        let soh = read_i8(values, 11);
        let internal_fault = read_u16_le(values, 12);
        let p_pv_1 = read_u16_le(values, 14);
        let p_pv_2 = read_u16_le(values, 16);
        let p_pv_3 = read_u16_le(values, 18);
        let p_charge = read_u16_le(values, 20);
        let p_discharge = read_u16_le(values, 22);
        let v_ac_r = read_u16_le(values, 24);
        let v_ac_s = read_u16_le(values, 26);
        let v_ac_t = read_u16_le(values, 28);
        let f_ac = read_u16_le(values, 30);
        let p_inv = read_u16_le(values, 32);
        let p_rec = read_u16_le(values, 34);
        let pf = read_u16_le(values, 38);
        let v_eps_r = read_u16_le(values, 40);
        let v_eps_s = read_u16_le(values, 42);
        let v_eps_t = read_u16_le(values, 44);
        let f_eps = read_u16_le(values, 46);
        let p_eps = read_u16_le(values, 48);
        let s_eps = read_u16_le(values, 50);
        let p_to_grid = read_u16_le(values, 52);
        let p_to_user = read_u16_le(values, 54);
        let e_pv_day_1 = read_u16_le(values, 56);
        let e_pv_day_2 = read_u16_le(values, 58);
        let e_pv_day_3 = read_u16_le(values, 60);
        let e_inv_day = read_u16_le(values, 62);
        let e_rec_day = read_u16_le(values, 64);
        let e_chg_day = read_u16_le(values, 66);
        let e_dischg_day = read_u16_le(values, 68);
        let e_eps_day = read_u16_le(values, 70);
        let e_to_grid_day = read_u16_le(values, 72);
        let e_to_user_day = read_u16_le(values, 74);
        let v_bus_1 = read_u16_le(values, 76);
        let v_bus_2 = read_u16_le(values, 78);
        let e_pv_all_1 = read_u32_le(values, 80);
        let e_pv_all_2 = read_u32_le(values, 84);
        let e_pv_all_3 = read_u32_le(values, 88);
        let e_inv_all = read_u32_le(values, 92);
        let e_rec_all = read_u32_le(values, 96);
        let e_chg_all = read_u32_le(values, 100);
        let e_dischg_all = read_u32_le(values, 104);
        let e_eps_all = read_u32_le(values, 108);
        let e_to_grid_all = read_u32_le(values, 112);
        let e_to_user_all = read_u32_le(values, 116);
        let fault_code = read_u32_le(values, 120);
        let warning_code = read_u32_le(values, 124);
        let t_inner = read_i16_le(values, 128);
        let t_rad_1 = read_i16_le(values, 130);
        let t_rad_2 = read_i16_le(values, 132);
        let t_bat = read_i16_le(values, 134);
        let runtime = read_u32_le(values, 138);
        let register_71 = read_u16_le(values, 142);
        let register_77 = read_u16_le(values, 154);
        let max_chg_curr = read_u16_le(values, 162);
        let max_dischg_curr = read_u16_le(values, 164);
        let charge_volt_ref = read_u16_le(values, 166);
        let dischg_cut_volt = read_u16_le(values, 168);
        let bat_status_0 = read_u16_le(values, 170);
        let bat_status_1 = read_u16_le(values, 172);
        let bat_status_2 = read_u16_le(values, 174);
        let bat_status_3 = read_u16_le(values, 176);
        let bat_status_4 = read_u16_le(values, 178);
        let bat_status_5 = read_u16_le(values, 180);
        let bat_status_6 = read_u16_le(values, 182);
        let bat_status_7 = read_u16_le(values, 184);
        let bat_status_8 = read_u16_le(values, 186);
        let bat_status_9 = read_u16_le(values, 188);
        let bat_status_inv = read_u16_le(values, 190);
        let bat_count = read_u16_le(values, 192);
        let bat_capacity = read_u16_le(values, 194);
        let bat_current = read_u16_le(values, 196);
        let bms_event_1 = read_u16_le(values, 198);
        let bms_event_2 = read_u16_le(values, 200);
        let max_cell_voltage = read_u16_le(values, 202);
        let min_cell_voltage = read_u16_le(values, 204);
        let max_cell_temp = read_u16_le(values, 206);
        let min_cell_temp = read_u16_le(values, 208);
        let bms_fw_update_state = read_u16_le(values, 210);
        let cycle_count = read_u16_le(values, 212);
        let vbat_inv = read_u16_le(values, 214);
        let t1_temp = read_u16_le(values, 216);
        let register_113 = read_u16_le(values, 226);
        let p_on_grid_load = read_u16_le(values, 228);
        let v_half_bus = read_u16_le(values, 240);
        let v_gen = read_u16_le(values, 242);
        let f_gen = read_u16_le(values, 244);
        let p_gen = read_u16_le(values, 246);
        let e_gen_day = read_u16_le(values, 248);
        let e_gen_all = read_u32_le(values, 250);
        let p_pv = p_pv_1 as u32 + p_pv_2 as u32 + p_pv_3 as u32;
        let p_grid = p_to_user as i32 - p_to_grid as i32;
        let p_battery = p_charge as i32 - p_discharge as i32;
        let e_pv_day = e_pv_day_1 as u32 + e_pv_day_2 as u32 + e_pv_day_3 as u32;
        let e_pv_all = e_pv_all_1 as u64 + e_pv_all_2 as u64 + e_pv_all_3 as u64;
        ReadInputAll {
            status,
            v_pv_1,
            v_pv_2,
            v_pv_3,
            v_bat,
            soc,
            soh,
            internal_fault,
            p_pv,
            p_pv_1,
            p_pv_2,
            p_pv_3,
            p_battery,
            p_charge,
            p_discharge,
            v_ac_r,
            v_ac_s,
            v_ac_t,
            f_ac,
            p_inv,
            p_rec,
            pf,
            v_eps_r,
            v_eps_s,
            v_eps_t,
            f_eps,
            p_eps,
            s_eps,
            p_grid,
            p_to_grid,
            p_to_user,
            e_pv_day,
            e_pv_day_1,
            e_pv_day_2,
            e_pv_day_3,
            e_inv_day,
            e_rec_day,
            e_chg_day,
            e_dischg_day,
            e_eps_day,
            e_to_grid_day,
            e_to_user_day,
            v_bus_1,
            v_bus_2,
            e_pv_all,
            e_pv_all_1,
            e_pv_all_2,
            e_pv_all_3,
            e_inv_all,
            e_rec_all,
            e_chg_all,
            e_dischg_all,
            e_eps_all,
            e_to_grid_all,
            e_to_user_all,
            fault_code,
            warning_code,
            t_inner,
            t_rad_1,
            t_rad_2,
            t_bat,
            runtime,
            register_71,
            register_77,
            max_chg_curr,
            max_dischg_curr,
            charge_volt_ref,
            dischg_cut_volt,
            bat_status_0,
            bat_status_1,
            bat_status_2,
            bat_status_3,
            bat_status_4,
            bat_status_5,
            bat_status_6,
            bat_status_7,
            bat_status_8,
            bat_status_9,
            bat_status_inv,
            bat_count,
            bat_capacity,
            bat_current,
            bms_event_1,
            bms_event_2,
            max_cell_voltage,
            min_cell_voltage,
            max_cell_temp,
            min_cell_temp,
            bms_fw_update_state,
            cycle_count,
            vbat_inv,
            t1_temp,
            register_113,
            p_on_grid_load,
            v_half_bus,
            v_gen,
            f_gen,
            p_gen,
            e_gen_day,
            e_gen_all,
            time,
            datalog,
        }
    }

    pub open spec fn spec_fields_0(&self) -> Seq<Field> {
        seq![
            Field { name: "status", value: FieldValue::Int(self.status as i64), kind: FieldKind::Status(self.status) },
            Field { name: "v_pv_1", value: FieldValue::Tenths(self.v_pv_1 as i64), kind: FieldKind::Plain },
            Field { name: "v_pv_2", value: FieldValue::Tenths(self.v_pv_2 as i64), kind: FieldKind::Plain },
            Field { name: "v_pv_3", value: FieldValue::Tenths(self.v_pv_3 as i64), kind: FieldKind::Plain },
            Field { name: "v_bat", value: FieldValue::Tenths(self.v_bat as i64), kind: FieldKind::Plain },
            Field { name: "soc", value: FieldValue::Int(self.soc as i64), kind: FieldKind::Plain },
            Field { name: "soh", value: FieldValue::Int(self.soh as i64), kind: FieldKind::Plain },
            Field { name: "internal_fault", value: FieldValue::Int(self.internal_fault as i64), kind: FieldKind::Plain },
        ]
    }

    fn fields_0(&self) -> (r: Vec<Field>)
        ensures
            r@ == self.spec_fields_0(),
    {
        let mut r: Vec<Field> = Vec::new();
        r.push(Field { name: "status", value: FieldValue::Int(self.status as i64), kind: FieldKind::Status(self.status) });
        r.push(Field { name: "v_pv_1", value: FieldValue::Tenths(self.v_pv_1 as i64), kind: FieldKind::Plain });
        r.push(Field { name: "v_pv_2", value: FieldValue::Tenths(self.v_pv_2 as i64), kind: FieldKind::Plain });
        r.push(Field { name: "v_pv_3", value: FieldValue::Tenths(self.v_pv_3 as i64), kind: FieldKind::Plain });
        r.push(Field { name: "v_bat", value: FieldValue::Tenths(self.v_bat as i64), kind: FieldKind::Plain });
        r.push(Field { name: "soc", value: FieldValue::Int(self.soc as i64), kind: FieldKind::Plain });
        r.push(Field { name: "soh", value: FieldValue::Int(self.soh as i64), kind: FieldKind::Plain });
        r.push(Field { name: "internal_fault", value: FieldValue::Int(self.internal_fault as i64), kind: FieldKind::Plain });
        assert(r@ =~= self.spec_fields_0());
        r
    }

    pub open spec fn spec_fields_1(&self) -> Seq<Field> {
        seq![
            Field { name: "p_pv", value: FieldValue::Int(self.p_pv as i64), kind: FieldKind::Plain },
            Field { name: "p_pv_1", value: FieldValue::Int(self.p_pv_1 as i64), kind: FieldKind::Plain },
            Field { name: "p_pv_2", value: FieldValue::Int(self.p_pv_2 as i64), kind: FieldKind::Plain },
            Field { name: "p_pv_3", value: FieldValue::Int(self.p_pv_3 as i64), kind: FieldKind::Plain },
            Field { name: "p_battery", value: FieldValue::Int(self.p_battery as i64), kind: FieldKind::Plain },
            Field { name: "p_charge", value: FieldValue::Int(self.p_charge as i64), kind: FieldKind::Plain },
            Field { name: "p_discharge", value: FieldValue::Int(self.p_discharge as i64), kind: FieldKind::Plain },
            Field { name: "v_ac_r", value: FieldValue::Tenths(self.v_ac_r as i64), kind: FieldKind::Plain },
        ]
    }

    fn fields_1(&self) -> (r: Vec<Field>)
        ensures
            r@ == self.spec_fields_1(),
    {
        let mut r: Vec<Field> = Vec::new();
        r.push(Field { name: "p_pv", value: FieldValue::Int(self.p_pv as i64), kind: FieldKind::Plain });
        r.push(Field { name: "p_pv_1", value: FieldValue::Int(self.p_pv_1 as i64), kind: FieldKind::Plain });
        r.push(Field { name: "p_pv_2", value: FieldValue::Int(self.p_pv_2 as i64), kind: FieldKind::Plain });
        r.push(Field { name: "p_pv_3", value: FieldValue::Int(self.p_pv_3 as i64), kind: FieldKind::Plain });
        r.push(Field { name: "p_battery", value: FieldValue::Int(self.p_battery as i64), kind: FieldKind::Plain });
        r.push(Field { name: "p_charge", value: FieldValue::Int(self.p_charge as i64), kind: FieldKind::Plain });
        r.push(Field { name: "p_discharge", value: FieldValue::Int(self.p_discharge as i64), kind: FieldKind::Plain });
        r.push(Field { name: "v_ac_r", value: FieldValue::Tenths(self.v_ac_r as i64), kind: FieldKind::Plain });
        assert(r@ =~= self.spec_fields_1());
        r
    }

    pub open spec fn spec_fields_2(&self) -> Seq<Field> {
        seq![
            Field { name: "v_ac_s", value: FieldValue::Tenths(self.v_ac_s as i64), kind: FieldKind::Plain },
            Field { name: "v_ac_t", value: FieldValue::Tenths(self.v_ac_t as i64), kind: FieldKind::Plain },
            Field { name: "f_ac", value: FieldValue::Hundredths(self.f_ac as i64), kind: FieldKind::Plain },
            Field { name: "p_inv", value: FieldValue::Int(self.p_inv as i64), kind: FieldKind::Plain },
            Field { name: "p_rec", value: FieldValue::Int(self.p_rec as i64), kind: FieldKind::Plain },
            Field { name: "pf", value: FieldValue::Thousandths(self.pf as i64), kind: FieldKind::Plain },
            Field { name: "v_eps_r", value: FieldValue::Tenths(self.v_eps_r as i64), kind: FieldKind::Plain },
            Field { name: "v_eps_s", value: FieldValue::Tenths(self.v_eps_s as i64), kind: FieldKind::Plain },
        ]
    }

    fn fields_2(&self) -> (r: Vec<Field>)
        ensures
            r@ == self.spec_fields_2(),
    {
        let mut r: Vec<Field> = Vec::new();
        r.push(Field { name: "v_ac_s", value: FieldValue::Tenths(self.v_ac_s as i64), kind: FieldKind::Plain });
        r.push(Field { name: "v_ac_t", value: FieldValue::Tenths(self.v_ac_t as i64), kind: FieldKind::Plain });
        r.push(Field { name: "f_ac", value: FieldValue::Hundredths(self.f_ac as i64), kind: FieldKind::Plain });
        r.push(Field { name: "p_inv", value: FieldValue::Int(self.p_inv as i64), kind: FieldKind::Plain });
        r.push(Field { name: "p_rec", value: FieldValue::Int(self.p_rec as i64), kind: FieldKind::Plain });
        r.push(Field { name: "pf", value: FieldValue::Thousandths(self.pf as i64), kind: FieldKind::Plain });
        r.push(Field { name: "v_eps_r", value: FieldValue::Tenths(self.v_eps_r as i64), kind: FieldKind::Plain });
        r.push(Field { name: "v_eps_s", value: FieldValue::Tenths(self.v_eps_s as i64), kind: FieldKind::Plain });
        assert(r@ =~= self.spec_fields_2());
        r
    }

    pub open spec fn spec_fields_3(&self) -> Seq<Field> {
        seq![
            Field { name: "v_eps_t", value: FieldValue::Tenths(self.v_eps_t as i64), kind: FieldKind::Plain },
            Field { name: "f_eps", value: FieldValue::Hundredths(self.f_eps as i64), kind: FieldKind::Plain },
            Field { name: "p_eps", value: FieldValue::Int(self.p_eps as i64), kind: FieldKind::Plain },
            Field { name: "s_eps", value: FieldValue::Int(self.s_eps as i64), kind: FieldKind::Plain },
            Field { name: "p_grid", value: FieldValue::Int(self.p_grid as i64), kind: FieldKind::Plain },
            Field { name: "p_to_grid", value: FieldValue::Int(self.p_to_grid as i64), kind: FieldKind::Plain },
            Field { name: "p_to_user", value: FieldValue::Int(self.p_to_user as i64), kind: FieldKind::Plain },
            Field { name: "e_pv_day", value: FieldValue::Tenths(self.e_pv_day as i64), kind: FieldKind::Plain },
        ]
    }

    fn fields_3(&self) -> (r: Vec<Field>)
        ensures
            r@ == self.spec_fields_3(),
    {
        let mut r: Vec<Field> = Vec::new();
        r.push(Field { name: "v_eps_t", value: FieldValue::Tenths(self.v_eps_t as i64), kind: FieldKind::Plain });
        r.push(Field { name: "f_eps", value: FieldValue::Hundredths(self.f_eps as i64), kind: FieldKind::Plain });
        r.push(Field { name: "p_eps", value: FieldValue::Int(self.p_eps as i64), kind: FieldKind::Plain });
        r.push(Field { name: "s_eps", value: FieldValue::Int(self.s_eps as i64), kind: FieldKind::Plain });
        r.push(Field { name: "p_grid", value: FieldValue::Int(self.p_grid as i64), kind: FieldKind::Plain });
        r.push(Field { name: "p_to_grid", value: FieldValue::Int(self.p_to_grid as i64), kind: FieldKind::Plain });
        r.push(Field { name: "p_to_user", value: FieldValue::Int(self.p_to_user as i64), kind: FieldKind::Plain });
        r.push(Field { name: "e_pv_day", value: FieldValue::Tenths(self.e_pv_day as i64), kind: FieldKind::Plain });
        assert(r@ =~= self.spec_fields_3());
        r
    }

    pub open spec fn spec_fields_4(&self) -> Seq<Field> {
        seq![
            Field { name: "e_pv_day_1", value: FieldValue::Tenths(self.e_pv_day_1 as i64), kind: FieldKind::Plain },
            Field { name: "e_pv_day_2", value: FieldValue::Tenths(self.e_pv_day_2 as i64), kind: FieldKind::Plain },
            Field { name: "e_pv_day_3", value: FieldValue::Tenths(self.e_pv_day_3 as i64), kind: FieldKind::Plain },
            Field { name: "e_inv_day", value: FieldValue::Tenths(self.e_inv_day as i64), kind: FieldKind::Plain },
            Field { name: "e_rec_day", value: FieldValue::Tenths(self.e_rec_day as i64), kind: FieldKind::Plain },
            Field { name: "e_chg_day", value: FieldValue::Tenths(self.e_chg_day as i64), kind: FieldKind::Plain },
            Field { name: "e_dischg_day", value: FieldValue::Tenths(self.e_dischg_day as i64), kind: FieldKind::Plain },
            Field { name: "e_eps_day", value: FieldValue::Tenths(self.e_eps_day as i64), kind: FieldKind::Plain },
        ]
    }

    fn fields_4(&self) -> (r: Vec<Field>)
        ensures
            r@ == self.spec_fields_4(),
    {
        let mut r: Vec<Field> = Vec::new();
        r.push(Field { name: "e_pv_day_1", value: FieldValue::Tenths(self.e_pv_day_1 as i64), kind: FieldKind::Plain });
        r.push(Field { name: "e_pv_day_2", value: FieldValue::Tenths(self.e_pv_day_2 as i64), kind: FieldKind::Plain });
        r.push(Field { name: "e_pv_day_3", value: FieldValue::Tenths(self.e_pv_day_3 as i64), kind: FieldKind::Plain });
        r.push(Field { name: "e_inv_day", value: FieldValue::Tenths(self.e_inv_day as i64), kind: FieldKind::Plain });
        r.push(Field { name: "e_rec_day", value: FieldValue::Tenths(self.e_rec_day as i64), kind: FieldKind::Plain });
        r.push(Field { name: "e_chg_day", value: FieldValue::Tenths(self.e_chg_day as i64), kind: FieldKind::Plain });
        r.push(Field { name: "e_dischg_day", value: FieldValue::Tenths(self.e_dischg_day as i64), kind: FieldKind::Plain });
        r.push(Field { name: "e_eps_day", value: FieldValue::Tenths(self.e_eps_day as i64), kind: FieldKind::Plain });
        assert(r@ =~= self.spec_fields_4());
        r
    }

    pub open spec fn spec_fields_5(&self) -> Seq<Field> {
        seq![
            Field { name: "e_to_grid_day", value: FieldValue::Tenths(self.e_to_grid_day as i64), kind: FieldKind::Plain },
            Field { name: "e_to_user_day", value: FieldValue::Tenths(self.e_to_user_day as i64), kind: FieldKind::Plain },
            Field { name: "v_bus_1", value: FieldValue::Tenths(self.v_bus_1 as i64), kind: FieldKind::Plain },
            Field { name: "v_bus_2", value: FieldValue::Tenths(self.v_bus_2 as i64), kind: FieldKind::Plain },
            Field { name: "e_pv_all", value: FieldValue::Tenths(self.e_pv_all as i64), kind: FieldKind::Plain },
            Field { name: "e_pv_all_1", value: FieldValue::Tenths(self.e_pv_all_1 as i64), kind: FieldKind::Plain },
            Field { name: "e_pv_all_2", value: FieldValue::Tenths(self.e_pv_all_2 as i64), kind: FieldKind::Plain },
            Field { name: "e_pv_all_3", value: FieldValue::Tenths(self.e_pv_all_3 as i64), kind: FieldKind::Plain },
        ]
    }

    fn fields_5(&self) -> (r: Vec<Field>)
        ensures
            r@ == self.spec_fields_5(),
    {
        let mut r: Vec<Field> = Vec::new();
        r.push(Field { name: "e_to_grid_day", value: FieldValue::Tenths(self.e_to_grid_day as i64), kind: FieldKind::Plain });
        r.push(Field { name: "e_to_user_day", value: FieldValue::Tenths(self.e_to_user_day as i64), kind: FieldKind::Plain });
        r.push(Field { name: "v_bus_1", value: FieldValue::Tenths(self.v_bus_1 as i64), kind: FieldKind::Plain });
        r.push(Field { name: "v_bus_2", value: FieldValue::Tenths(self.v_bus_2 as i64), kind: FieldKind::Plain });
        r.push(Field { name: "e_pv_all", value: FieldValue::Tenths(self.e_pv_all as i64), kind: FieldKind::Plain });
        r.push(Field { name: "e_pv_all_1", value: FieldValue::Tenths(self.e_pv_all_1 as i64), kind: FieldKind::Plain });
        r.push(Field { name: "e_pv_all_2", value: FieldValue::Tenths(self.e_pv_all_2 as i64), kind: FieldKind::Plain });
        r.push(Field { name: "e_pv_all_3", value: FieldValue::Tenths(self.e_pv_all_3 as i64), kind: FieldKind::Plain });
        assert(r@ =~= self.spec_fields_5());
        r
    }

    pub open spec fn spec_fields_6(&self) -> Seq<Field> {
        seq![
            Field { name: "e_inv_all", value: FieldValue::Tenths(self.e_inv_all as i64), kind: FieldKind::Plain },
            Field { name: "e_rec_all", value: FieldValue::Tenths(self.e_rec_all as i64), kind: FieldKind::Plain },
            Field { name: "e_chg_all", value: FieldValue::Tenths(self.e_chg_all as i64), kind: FieldKind::Plain },
            Field { name: "e_dischg_all", value: FieldValue::Tenths(self.e_dischg_all as i64), kind: FieldKind::Plain },
            Field { name: "e_eps_all", value: FieldValue::Tenths(self.e_eps_all as i64), kind: FieldKind::Plain },
            Field { name: "e_to_grid_all", value: FieldValue::Tenths(self.e_to_grid_all as i64), kind: FieldKind::Plain },
            Field { name: "e_to_user_all", value: FieldValue::Tenths(self.e_to_user_all as i64), kind: FieldKind::Plain },
            Field { name: "fault_code", value: FieldValue::Int(self.fault_code as i64), kind: FieldKind::FaultCode(self.fault_code) },
        ]
    }

    fn fields_6(&self) -> (r: Vec<Field>)
        ensures
            r@ == self.spec_fields_6(),
    {
        let mut r: Vec<Field> = Vec::new();
        r.push(Field { name: "e_inv_all", value: FieldValue::Tenths(self.e_inv_all as i64), kind: FieldKind::Plain });
        r.push(Field { name: "e_rec_all", value: FieldValue::Tenths(self.e_rec_all as i64), kind: FieldKind::Plain });
        r.push(Field { name: "e_chg_all", value: FieldValue::Tenths(self.e_chg_all as i64), kind: FieldKind::Plain });
        r.push(Field { name: "e_dischg_all", value: FieldValue::Tenths(self.e_dischg_all as i64), kind: FieldKind::Plain });
        r.push(Field { name: "e_eps_all", value: FieldValue::Tenths(self.e_eps_all as i64), kind: FieldKind::Plain });
        r.push(Field { name: "e_to_grid_all", value: FieldValue::Tenths(self.e_to_grid_all as i64), kind: FieldKind::Plain });
        r.push(Field { name: "e_to_user_all", value: FieldValue::Tenths(self.e_to_user_all as i64), kind: FieldKind::Plain });
        r.push(Field { name: "fault_code", value: FieldValue::Int(self.fault_code as i64), kind: FieldKind::FaultCode(self.fault_code) });
        assert(r@ =~= self.spec_fields_6());
        r
    }

    pub open spec fn spec_fields_7(&self) -> Seq<Field> {
        seq![
            Field { name: "warning_code", value: FieldValue::Int(self.warning_code as i64), kind: FieldKind::WarningCode(self.warning_code) },
            Field { name: "t_inner", value: FieldValue::Int(self.t_inner as i64), kind: FieldKind::Plain },
            Field { name: "t_rad_1", value: FieldValue::Int(self.t_rad_1 as i64), kind: FieldKind::Plain },
            Field { name: "t_rad_2", value: FieldValue::Int(self.t_rad_2 as i64), kind: FieldKind::Plain },
            Field { name: "t_bat", value: FieldValue::Int(self.t_bat as i64), kind: FieldKind::Plain },
            Field { name: "runtime", value: FieldValue::Int(self.runtime as i64), kind: FieldKind::Plain },
            Field { name: "register_71", value: FieldValue::Int(self.register_71 as i64), kind: FieldKind::Bits71(self.register_71) },
            Field { name: "register_77", value: FieldValue::Int(self.register_77 as i64), kind: FieldKind::Bits77(self.register_77) },
        ]
    }

    fn fields_7(&self) -> (r: Vec<Field>)
        ensures
            r@ == self.spec_fields_7(),
    {
        let mut r: Vec<Field> = Vec::new();
        r.push(Field { name: "warning_code", value: FieldValue::Int(self.warning_code as i64), kind: FieldKind::WarningCode(self.warning_code) });
        r.push(Field { name: "t_inner", value: FieldValue::Int(self.t_inner as i64), kind: FieldKind::Plain });
        r.push(Field { name: "t_rad_1", value: FieldValue::Int(self.t_rad_1 as i64), kind: FieldKind::Plain });
        r.push(Field { name: "t_rad_2", value: FieldValue::Int(self.t_rad_2 as i64), kind: FieldKind::Plain });
        r.push(Field { name: "t_bat", value: FieldValue::Int(self.t_bat as i64), kind: FieldKind::Plain });
        r.push(Field { name: "runtime", value: FieldValue::Int(self.runtime as i64), kind: FieldKind::Plain });
        r.push(Field { name: "register_71", value: FieldValue::Int(self.register_71 as i64), kind: FieldKind::Bits71(self.register_71) });
        r.push(Field { name: "register_77", value: FieldValue::Int(self.register_77 as i64), kind: FieldKind::Bits77(self.register_77) });
        assert(r@ =~= self.spec_fields_7());
        r
    }

    pub open spec fn spec_fields_8(&self) -> Seq<Field> {
        seq![
            Field { name: "max_chg_curr", value: FieldValue::Tenths(self.max_chg_curr as i64), kind: FieldKind::Plain },
            Field { name: "max_dischg_curr", value: FieldValue::Tenths(self.max_dischg_curr as i64), kind: FieldKind::Plain },
            Field { name: "charge_volt_ref", value: FieldValue::Tenths(self.charge_volt_ref as i64), kind: FieldKind::Plain },
            Field { name: "dischg_cut_volt", value: FieldValue::Tenths(self.dischg_cut_volt as i64), kind: FieldKind::Plain },
            Field { name: "bat_status_0", value: FieldValue::Int(self.bat_status_0 as i64), kind: FieldKind::Plain },
            Field { name: "bat_status_1", value: FieldValue::Int(self.bat_status_1 as i64), kind: FieldKind::Plain },
            Field { name: "bat_status_2", value: FieldValue::Int(self.bat_status_2 as i64), kind: FieldKind::Plain },
            Field { name: "bat_status_3", value: FieldValue::Int(self.bat_status_3 as i64), kind: FieldKind::Plain },
        ]
    }

    fn fields_8(&self) -> (r: Vec<Field>)
        ensures
            r@ == self.spec_fields_8(),
    {
        let mut r: Vec<Field> = Vec::new();
        r.push(Field { name: "max_chg_curr", value: FieldValue::Tenths(self.max_chg_curr as i64), kind: FieldKind::Plain });
        r.push(Field { name: "max_dischg_curr", value: FieldValue::Tenths(self.max_dischg_curr as i64), kind: FieldKind::Plain });
        r.push(Field { name: "charge_volt_ref", value: FieldValue::Tenths(self.charge_volt_ref as i64), kind: FieldKind::Plain });
        r.push(Field { name: "dischg_cut_volt", value: FieldValue::Tenths(self.dischg_cut_volt as i64), kind: FieldKind::Plain });
        r.push(Field { name: "bat_status_0", value: FieldValue::Int(self.bat_status_0 as i64), kind: FieldKind::Plain });
        r.push(Field { name: "bat_status_1", value: FieldValue::Int(self.bat_status_1 as i64), kind: FieldKind::Plain });
        r.push(Field { name: "bat_status_2", value: FieldValue::Int(self.bat_status_2 as i64), kind: FieldKind::Plain });
        r.push(Field { name: "bat_status_3", value: FieldValue::Int(self.bat_status_3 as i64), kind: FieldKind::Plain });
        assert(r@ =~= self.spec_fields_8());
        r
    }

    pub open spec fn spec_fields_9(&self) -> Seq<Field> {
        seq![
            Field { name: "bat_status_4", value: FieldValue::Int(self.bat_status_4 as i64), kind: FieldKind::Plain },
            Field { name: "bat_status_5", value: FieldValue::Int(self.bat_status_5 as i64), kind: FieldKind::Plain },
            Field { name: "bat_status_6", value: FieldValue::Int(self.bat_status_6 as i64), kind: FieldKind::Plain },
            Field { name: "bat_status_7", value: FieldValue::Int(self.bat_status_7 as i64), kind: FieldKind::Plain },
            Field { name: "bat_status_8", value: FieldValue::Int(self.bat_status_8 as i64), kind: FieldKind::Plain },
            Field { name: "bat_status_9", value: FieldValue::Int(self.bat_status_9 as i64), kind: FieldKind::Plain },
            Field { name: "bat_status_inv", value: FieldValue::Int(self.bat_status_inv as i64), kind: FieldKind::Plain },
            Field { name: "bat_count", value: FieldValue::Int(self.bat_count as i64), kind: FieldKind::Plain },
        ]
    }

    fn fields_9(&self) -> (r: Vec<Field>)
        ensures
            r@ == self.spec_fields_9(),
    {
        let mut r: Vec<Field> = Vec::new();
        r.push(Field { name: "bat_status_4", value: FieldValue::Int(self.bat_status_4 as i64), kind: FieldKind::Plain });
        r.push(Field { name: "bat_status_5", value: FieldValue::Int(self.bat_status_5 as i64), kind: FieldKind::Plain });
        r.push(Field { name: "bat_status_6", value: FieldValue::Int(self.bat_status_6 as i64), kind: FieldKind::Plain });
        r.push(Field { name: "bat_status_7", value: FieldValue::Int(self.bat_status_7 as i64), kind: FieldKind::Plain });
        r.push(Field { name: "bat_status_8", value: FieldValue::Int(self.bat_status_8 as i64), kind: FieldKind::Plain });
        r.push(Field { name: "bat_status_9", value: FieldValue::Int(self.bat_status_9 as i64), kind: FieldKind::Plain });
        r.push(Field { name: "bat_status_inv", value: FieldValue::Int(self.bat_status_inv as i64), kind: FieldKind::Plain });
        r.push(Field { name: "bat_count", value: FieldValue::Int(self.bat_count as i64), kind: FieldKind::Plain });
        assert(r@ =~= self.spec_fields_9());
        r
    }

    pub open spec fn spec_fields_10(&self) -> Seq<Field> {
        seq![
            Field { name: "bat_capacity", value: FieldValue::Int(self.bat_capacity as i64), kind: FieldKind::Plain },
            Field { name: "bat_current", value: FieldValue::Hundredths(self.bat_current as i64), kind: FieldKind::Plain },
            Field { name: "bms_event_1", value: FieldValue::Int(self.bms_event_1 as i64), kind: FieldKind::Plain },
            Field { name: "bms_event_2", value: FieldValue::Int(self.bms_event_2 as i64), kind: FieldKind::Plain },
            Field { name: "max_cell_voltage", value: FieldValue::Thousandths(self.max_cell_voltage as i64), kind: FieldKind::Plain },
            Field { name: "min_cell_voltage", value: FieldValue::Thousandths(self.min_cell_voltage as i64), kind: FieldKind::Plain },
            Field { name: "max_cell_temp", value: FieldValue::Tenths(self.max_cell_temp as i64), kind: FieldKind::Plain },
            Field { name: "min_cell_temp", value: FieldValue::Tenths(self.min_cell_temp as i64), kind: FieldKind::Plain },
        ]
    }

    fn fields_10(&self) -> (r: Vec<Field>)
        ensures
            r@ == self.spec_fields_10(),
    {
        let mut r: Vec<Field> = Vec::new();
        r.push(Field { name: "bat_capacity", value: FieldValue::Int(self.bat_capacity as i64), kind: FieldKind::Plain });
        r.push(Field { name: "bat_current", value: FieldValue::Hundredths(self.bat_current as i64), kind: FieldKind::Plain });
        r.push(Field { name: "bms_event_1", value: FieldValue::Int(self.bms_event_1 as i64), kind: FieldKind::Plain });
        r.push(Field { name: "bms_event_2", value: FieldValue::Int(self.bms_event_2 as i64), kind: FieldKind::Plain });
        r.push(Field { name: "max_cell_voltage", value: FieldValue::Thousandths(self.max_cell_voltage as i64), kind: FieldKind::Plain });
        r.push(Field { name: "min_cell_voltage", value: FieldValue::Thousandths(self.min_cell_voltage as i64), kind: FieldKind::Plain });
        r.push(Field { name: "max_cell_temp", value: FieldValue::Tenths(self.max_cell_temp as i64), kind: FieldKind::Plain });
        r.push(Field { name: "min_cell_temp", value: FieldValue::Tenths(self.min_cell_temp as i64), kind: FieldKind::Plain });
        assert(r@ =~= self.spec_fields_10());
        r
    }

    pub open spec fn spec_fields_11(&self) -> Seq<Field> {
        seq![
            Field { name: "bms_fw_update_state", value: FieldValue::Int(self.bms_fw_update_state as i64), kind: FieldKind::Plain },
            Field { name: "cycle_count", value: FieldValue::Int(self.cycle_count as i64), kind: FieldKind::Plain },
            Field { name: "vbat_inv", value: FieldValue::Tenths(self.vbat_inv as i64), kind: FieldKind::Plain },
            Field { name: "t1_temp", value: FieldValue::Tenths(self.t1_temp as i64), kind: FieldKind::Plain },
            Field { name: "register_113", value: FieldValue::Int(self.register_113 as i64), kind: FieldKind::Bits113(self.register_113) },
            Field { name: "p_on_grid_load", value: FieldValue::Int(self.p_on_grid_load as i64), kind: FieldKind::Plain },
            Field { name: "v_half_bus", value: FieldValue::Tenths(self.v_half_bus as i64), kind: FieldKind::Plain },
            Field { name: "v_gen", value: FieldValue::Tenths(self.v_gen as i64), kind: FieldKind::Plain },
        ]
    }

    fn fields_11(&self) -> (r: Vec<Field>)
        ensures
            r@ == self.spec_fields_11(),
    {
        let mut r: Vec<Field> = Vec::new();
        r.push(Field { name: "bms_fw_update_state", value: FieldValue::Int(self.bms_fw_update_state as i64), kind: FieldKind::Plain });
        r.push(Field { name: "cycle_count", value: FieldValue::Int(self.cycle_count as i64), kind: FieldKind::Plain });
        r.push(Field { name: "vbat_inv", value: FieldValue::Tenths(self.vbat_inv as i64), kind: FieldKind::Plain });
        r.push(Field { name: "t1_temp", value: FieldValue::Tenths(self.t1_temp as i64), kind: FieldKind::Plain });
        r.push(Field { name: "register_113", value: FieldValue::Int(self.register_113 as i64), kind: FieldKind::Bits113(self.register_113) });
        r.push(Field { name: "p_on_grid_load", value: FieldValue::Int(self.p_on_grid_load as i64), kind: FieldKind::Plain });
        r.push(Field { name: "v_half_bus", value: FieldValue::Tenths(self.v_half_bus as i64), kind: FieldKind::Plain });
        r.push(Field { name: "v_gen", value: FieldValue::Tenths(self.v_gen as i64), kind: FieldKind::Plain });
        assert(r@ =~= self.spec_fields_11());
        r
    }

    pub open spec fn spec_fields_12(&self) -> Seq<Field> {
        seq![
            Field { name: "f_gen", value: FieldValue::Hundredths(self.f_gen as i64), kind: FieldKind::Plain },
            Field { name: "p_gen", value: FieldValue::Int(self.p_gen as i64), kind: FieldKind::Plain },
            Field { name: "e_gen_day", value: FieldValue::Tenths(self.e_gen_day as i64), kind: FieldKind::Plain },
            Field { name: "e_gen_all", value: FieldValue::Tenths(self.e_gen_all as i64), kind: FieldKind::Plain },
            Field { name: "time", value: FieldValue::Int(self.time as i64), kind: FieldKind::Plain },
        ]
    }

    fn fields_12(&self) -> (r: Vec<Field>)
        ensures
            r@ == self.spec_fields_12(),
    {
        let mut r: Vec<Field> = Vec::new();
        r.push(Field { name: "f_gen", value: FieldValue::Hundredths(self.f_gen as i64), kind: FieldKind::Plain });
        r.push(Field { name: "p_gen", value: FieldValue::Int(self.p_gen as i64), kind: FieldKind::Plain });
        r.push(Field { name: "e_gen_day", value: FieldValue::Tenths(self.e_gen_day as i64), kind: FieldKind::Plain });
        r.push(Field { name: "e_gen_all", value: FieldValue::Tenths(self.e_gen_all as i64), kind: FieldKind::Plain });
        r.push(Field { name: "time", value: FieldValue::Int(self.time as i64), kind: FieldKind::Plain });
        assert(r@ =~= self.spec_fields_12());
        r
    }

    /// The fields in declaration order, the datalog aside.
    pub open spec fn spec_fields(&self) -> Seq<Field> {
        self.spec_fields_0()
            + self.spec_fields_1()
            + self.spec_fields_2()
            + self.spec_fields_3()
            + self.spec_fields_4()
            + self.spec_fields_5()
            + self.spec_fields_6()
            + self.spec_fields_7()
            + self.spec_fields_8()
            + self.spec_fields_9()
            + self.spec_fields_10()
            + self.spec_fields_11()
            + self.spec_fields_12()
    }

    pub fn fields(&self) -> (r: Vec<Field>)
        ensures
            r@ == self.spec_fields(),
    {
        let mut r = self.fields_0();
        let mut c = self.fields_1();
        r.append(&mut c);
        let mut c = self.fields_2();
        r.append(&mut c);
        let mut c = self.fields_3();
        r.append(&mut c);
        let mut c = self.fields_4();
        r.append(&mut c);
        let mut c = self.fields_5();
        r.append(&mut c);
        let mut c = self.fields_6();
        r.append(&mut c);
        let mut c = self.fields_7();
        r.append(&mut c);
        let mut c = self.fields_8();
        r.append(&mut c);
        let mut c = self.fields_9();
        r.append(&mut c);
        let mut c = self.fields_10();
        r.append(&mut c);
        let mut c = self.fields_11();
        r.append(&mut c);
        let mut c = self.fields_12();
        r.append(&mut c);
        r
    }

    /// The snapshot as one flat JSON object.
    pub fn json(&self) -> (r: String)
        ensures
            r@ == snapshot_json(self.spec_fields(), self.datalog@),
    {
        fields_json(&self.fields(), &self.datalog)
    }
}

/// The decoding of input registers 127 to 253, read at once.
#[derive(Clone, Copy, Debug, PartialEq, Eq)]
pub struct ReadInputAll2 {
    pub v_eps_l1: u16,
    pub v_eps_l2: u16,
    pub p_eps_l1: u16,
    pub p_eps_l2: u16,
    pub s_eps_l1: u16,
    pub s_eps_l2: u16,
    pub e_eps_l1_day: u16,
    pub e_eps_l2_day: u16,
    pub e_eps_l1_all: u32,
    pub e_eps_l2_all: u32,
    pub afci_ch1_current: u16,
    pub afci_ch2_current: u16,
    pub afci_ch3_current: u16,
    pub afci_ch4_current: u16,
    pub register_144: u16,
    pub afci_arc_ch1: u16,
    pub afci_arc_ch2: u16,
    pub afci_arc_ch3: u16,
    pub afci_arc_ch4: u16,
    pub afci_max_arc_ch1: u16,
    pub afci_max_arc_ch2: u16,
    pub afci_max_arc_ch3: u16,
    pub afci_max_arc_ch4: u16,
    pub p_ac_couple: u16,
    pub p_load: u16,
    pub e_load_day: u16,
    pub e_load_all: u32,
    pub eps_overload_ctrl_time: u16,
    pub p_inv_s: u16,
    pub p_inv_t: u16,
    pub p_rec_s: u16,
    pub p_rec_t: u16,
    pub p_to_grid_s: u16,
    pub p_to_grid_t: u16,
    pub p_to_user_s: u16,
    pub p_to_user_t: u16,
    pub p_gen_s: u16,
    pub p_gen_t: u16,
    pub inv_rms_curr_s: u16,
    pub inv_rms_curr_t: u16,
    pub pf_s: i16,
    pub v_grid_l1: i16,
    pub v_grid_l2: i16,
    pub v_gen_l1: i16,
    pub v_gen_l2: i16,
    pub p_inv_l1: i16,
    pub p_inv_l2: i16,
    pub p_rec_l1: i16,
    pub p_rec_l2: i16,
    pub p_to_grid_l1: u16,
    pub p_to_grid_l2: u16,
    pub p_to_user_l1: u16,
    pub p_to_user_l2: u16,
    pub pf_t: i16,
    pub time: i64,
    pub datalog: Serial,
}

impl ReadInputAll2 {
    /// How many value bytes a decoding reads.
    pub const SIZE: usize = 158;

    /// Whether `r` is the decoding of `values`, stamped with `datalog` and `time`.
    pub open spec fn decodes(values: Seq<u8>, datalog: Serial, time: i64, r: ReadInputAll2) -> bool {
        &&& r.v_eps_l1 == le16_at(values, 0)
        &&& r.v_eps_l2 == le16_at(values, 2)
        &&& r.p_eps_l1 == le16_at(values, 4)
        &&& r.p_eps_l2 == le16_at(values, 6)
        &&& r.s_eps_l1 == le16_at(values, 8)
        &&& r.s_eps_l2 == le16_at(values, 10)
        &&& r.e_eps_l1_day == le16_at(values, 12)
        &&& r.e_eps_l2_day == le16_at(values, 14)
        &&& r.e_eps_l1_all == le32_at(values, 16)
        &&& r.e_eps_l2_all == le32_at(values, 20)
        &&& r.afci_ch1_current == le16_at(values, 26)
        &&& r.afci_ch2_current == le16_at(values, 28)
        &&& r.afci_ch3_current == le16_at(values, 30)
        &&& r.afci_ch4_current == le16_at(values, 32)
        &&& r.register_144 == le16_at(values, 34)
        &&& r.afci_arc_ch1 == le16_at(values, 36)
        &&& r.afci_arc_ch2 == le16_at(values, 38)
        &&& r.afci_arc_ch3 == le16_at(values, 40)
        &&& r.afci_arc_ch4 == le16_at(values, 42)
        &&& r.afci_max_arc_ch1 == le16_at(values, 44)
        &&& r.afci_max_arc_ch2 == le16_at(values, 46)
        &&& r.afci_max_arc_ch3 == le16_at(values, 48)
        &&& r.afci_max_arc_ch4 == le16_at(values, 50)
        &&& r.p_ac_couple == le16_at(values, 52)
        &&& r.p_load == le16_at(values, 86)
        &&& r.e_load_day == le16_at(values, 88)
        &&& r.e_load_all == le32_at(values, 90)
        &&& r.eps_overload_ctrl_time == le16_at(values, 96)
        &&& r.p_inv_s == le16_at(values, 106)
        &&& r.p_inv_t == le16_at(values, 108)
        &&& r.p_rec_s == le16_at(values, 110)
        &&& r.p_rec_t == le16_at(values, 112)
        &&& r.p_to_grid_s == le16_at(values, 114)
        &&& r.p_to_grid_t == le16_at(values, 116)
        &&& r.p_to_user_s == le16_at(values, 118)
        &&& r.p_to_user_t == le16_at(values, 120)
        &&& r.p_gen_s == le16_at(values, 122)
        &&& r.p_gen_t == le16_at(values, 124)
        &&& r.inv_rms_curr_s == le16_at(values, 126)
        &&& r.inv_rms_curr_t == le16_at(values, 128)
        &&& r.pf_s == i16_of(le16_at(values, 130))
        &&& r.v_grid_l1 == i16_of(le16_at(values, 132))
        &&& r.v_grid_l2 == i16_of(le16_at(values, 134))
        &&& r.v_gen_l1 == i16_of(le16_at(values, 136))
        &&& r.v_gen_l2 == i16_of(le16_at(values, 138))
        &&& r.p_inv_l1 == i16_of(le16_at(values, 140))
        &&& r.p_inv_l2 == i16_of(le16_at(values, 142))
        &&& r.p_rec_l1 == i16_of(le16_at(values, 144))
        &&& r.p_rec_l2 == i16_of(le16_at(values, 146))
        &&& r.p_to_grid_l1 == le16_at(values, 148)
        &&& r.p_to_grid_l2 == le16_at(values, 150)
        &&& r.p_to_user_l1 == le16_at(values, 152)
        &&& r.p_to_user_l2 == le16_at(values, 154)
        &&& r.pf_t == i16_of(le16_at(values, 156))
        &&& r.derived_ok()
        &&& r.time == time
        &&& r.datalog == datalog
    }

    /// The fields computed at decoding hold their definitions.
    pub open spec fn derived_ok(&self) -> bool {
        &&& true
    }

    /// Decodes the little-endian register values; `time` stamps the decoding.
    pub fn decode(values: &[u8], datalog: Serial, time: i64) -> (r: ReadInputAll2)
        requires
            values@.len() >= 158,
        ensures
            ReadInputAll2::decodes(values@, datalog, time, r),
    {
        let v_eps_l1 = read_u16_le(values, 0);
        let v_eps_l2 = read_u16_le(values, 2);
        let p_eps_l1 = read_u16_le(values, 4);
        let p_eps_l2 = read_u16_le(values, 6);
        let s_eps_l1 = read_u16_le(values, 8);
        let s_eps_l2 = read_u16_le(values, 10);
        let e_eps_l1_day = read_u16_le(values, 12);
        let e_eps_l2_day = read_u16_le(values, 14);
        let e_eps_l1_all = read_u32_le(values, 16);
        let e_eps_l2_all = read_u32_le(values, 20);
        let afci_ch1_current = read_u16_le(values, 26);
        let afci_ch2_current = read_u16_le(values, 28);
        let afci_ch3_current = read_u16_le(values, 30);
        let afci_ch4_current = read_u16_le(values, 32);
        let register_144 = read_u16_le(values, 34);
        let afci_arc_ch1 = read_u16_le(values, 36);
        let afci_arc_ch2 = read_u16_le(values, 38);
        let afci_arc_ch3 = read_u16_le(values, 40);
        let afci_arc_ch4 = read_u16_le(values, 42);
        let afci_max_arc_ch1 = read_u16_le(values, 44);
        let afci_max_arc_ch2 = read_u16_le(values, 46);
        let afci_max_arc_ch3 = read_u16_le(values, 48);
        let afci_max_arc_ch4 = read_u16_le(values, 50);
        let p_ac_couple = read_u16_le(values, 52);
        let p_load = read_u16_le(values, 86);
        let e_load_day = read_u16_le(values, 88);
        let e_load_all = read_u32_le(values, 90);
        let eps_overload_ctrl_time = read_u16_le(values, 96);
        let p_inv_s = read_u16_le(values, 106);
        let p_inv_t = read_u16_le(values, 108);
        let p_rec_s = read_u16_le(values, 110);
        let p_rec_t = read_u16_le(values, 112);
        let p_to_grid_s = read_u16_le(values, 114);
        let p_to_grid_t = read_u16_le(values, 116);
        let p_to_user_s = read_u16_le(values, 118);
        let p_to_user_t = read_u16_le(values, 120);
        let p_gen_s = read_u16_le(values, 122);
        let p_gen_t = read_u16_le(values, 124);
        let inv_rms_curr_s = read_u16_le(values, 126);
        let inv_rms_curr_t = read_u16_le(values, 128);
        let pf_s = read_i16_le(values, 130);
        let v_grid_l1 = read_i16_le(values, 132);
        let v_grid_l2 = read_i16_le(values, 134);
        let v_gen_l1 = read_i16_le(values, 136);
        let v_gen_l2 = read_i16_le(values, 138);
        let p_inv_l1 = read_i16_le(values, 140);
        let p_inv_l2 = read_i16_le(values, 142);
        let p_rec_l1 = read_i16_le(values, 144);
        let p_rec_l2 = read_i16_le(values, 146);
        let p_to_grid_l1 = read_u16_le(values, 148);
        let p_to_grid_l2 = read_u16_le(values, 150);
        let p_to_user_l1 = read_u16_le(values, 152);
        let p_to_user_l2 = read_u16_le(values, 154);
        let pf_t = read_i16_le(values, 156);
        ReadInputAll2 {
            v_eps_l1,
            v_eps_l2,
            p_eps_l1,
            p_eps_l2,
            s_eps_l1,
            s_eps_l2,
            e_eps_l1_day,
            e_eps_l2_day,
            e_eps_l1_all,
            e_eps_l2_all,
            afci_ch1_current,
            afci_ch2_current,
            afci_ch3_current,
            afci_ch4_current,
            register_144,
            afci_arc_ch1,
            afci_arc_ch2,
            afci_arc_ch3,
            afci_arc_ch4,
            afci_max_arc_ch1,
            afci_max_arc_ch2,
            afci_max_arc_ch3,
            afci_max_arc_ch4,
            p_ac_couple,
            p_load,
            e_load_day,
            e_load_all,
            eps_overload_ctrl_time,
            p_inv_s,
            p_inv_t,
            p_rec_s,
            p_rec_t,
            p_to_grid_s,
            p_to_grid_t,
            p_to_user_s,
            p_to_user_t,
            p_gen_s,
            p_gen_t,
            inv_rms_curr_s,
            inv_rms_curr_t,
            pf_s,
            v_grid_l1,
            v_grid_l2,
            v_gen_l1,
            v_gen_l2,
            p_inv_l1,
            p_inv_l2,
            p_rec_l1,
            p_rec_l2,
            p_to_grid_l1,
            p_to_grid_l2,
            p_to_user_l1,
            p_to_user_l2,
            pf_t,
            time,
            datalog,
        }
    }

    pub open spec fn spec_fields_0(&self) -> Seq<Field> {
        seq![
            Field { name: "v_eps_l1", value: FieldValue::Tenths(self.v_eps_l1 as i64), kind: FieldKind::Plain },
            Field { name: "v_eps_l2", value: FieldValue::Tenths(self.v_eps_l2 as i64), kind: FieldKind::Plain },
            Field { name: "p_eps_l1", value: FieldValue::Int(self.p_eps_l1 as i64), kind: FieldKind::Plain },
            Field { name: "p_eps_l2", value: FieldValue::Int(self.p_eps_l2 as i64), kind: FieldKind::Plain },
            Field { name: "s_eps_l1", value: FieldValue::Int(self.s_eps_l1 as i64), kind: FieldKind::Plain },
            Field { name: "s_eps_l2", value: FieldValue::Int(self.s_eps_l2 as i64), kind: FieldKind::Plain },
            Field { name: "e_eps_l1_day", value: FieldValue::Tenths(self.e_eps_l1_day as i64), kind: FieldKind::Plain },
            Field { name: "e_eps_l2_day", value: FieldValue::Tenths(self.e_eps_l2_day as i64), kind: FieldKind::Plain },
        ]
    }

    fn fields_0(&self) -> (r: Vec<Field>)
        ensures
            r@ == self.spec_fields_0(),
    {
        let mut r: Vec<Field> = Vec::new();
        r.push(Field { name: "v_eps_l1", value: FieldValue::Tenths(self.v_eps_l1 as i64), kind: FieldKind::Plain });
        r.push(Field { name: "v_eps_l2", value: FieldValue::Tenths(self.v_eps_l2 as i64), kind: FieldKind::Plain });
        r.push(Field { name: "p_eps_l1", value: FieldValue::Int(self.p_eps_l1 as i64), kind: FieldKind::Plain });
        r.push(Field { name: "p_eps_l2", value: FieldValue::Int(self.p_eps_l2 as i64), kind: FieldKind::Plain });
        r.push(Field { name: "s_eps_l1", value: FieldValue::Int(self.s_eps_l1 as i64), kind: FieldKind::Plain });
        r.push(Field { name: "s_eps_l2", value: FieldValue::Int(self.s_eps_l2 as i64), kind: FieldKind::Plain });
        r.push(Field { name: "e_eps_l1_day", value: FieldValue::Tenths(self.e_eps_l1_day as i64), kind: FieldKind::Plain });
        r.push(Field { name: "e_eps_l2_day", value: FieldValue::Tenths(self.e_eps_l2_day as i64), kind: FieldKind::Plain });
        assert(r@ =~= self.spec_fields_0());
        r
    }

    pub open spec fn spec_fields_1(&self) -> Seq<Field> {
        seq![
            Field { name: "e_eps_l1_all", value: FieldValue::Tenths(self.e_eps_l1_all as i64), kind: FieldKind::Plain },
            Field { name: "e_eps_l2_all", value: FieldValue::Tenths(self.e_eps_l2_all as i64), kind: FieldKind::Plain },
            Field { name: "afci_ch1_current", value: FieldValue::Int(self.afci_ch1_current as i64), kind: FieldKind::Plain },
            Field { name: "afci_ch2_current", value: FieldValue::Int(self.afci_ch2_current as i64), kind: FieldKind::Plain },
            Field { name: "afci_ch3_current", value: FieldValue::Int(self.afci_ch3_current as i64), kind: FieldKind::Plain },
            Field { name: "afci_ch4_current", value: FieldValue::Int(self.afci_ch4_current as i64), kind: FieldKind::Plain },
            Field { name: "register_144", value: FieldValue::Int(self.register_144 as i64), kind: FieldKind::Bits144(self.register_144) },
            Field { name: "afci_arc_ch1", value: FieldValue::Int(self.afci_arc_ch1 as i64), kind: FieldKind::Plain },
        ]
    }

    fn fields_1(&self) -> (r: Vec<Field>)
        ensures
            r@ == self.spec_fields_1(),
    {
        let mut r: Vec<Field> = Vec::new();
        r.push(Field { name: "e_eps_l1_all", value: FieldValue::Tenths(self.e_eps_l1_all as i64), kind: FieldKind::Plain });
        r.push(Field { name: "e_eps_l2_all", value: FieldValue::Tenths(self.e_eps_l2_all as i64), kind: FieldKind::Plain });
        r.push(Field { name: "afci_ch1_current", value: FieldValue::Int(self.afci_ch1_current as i64), kind: FieldKind::Plain });
        r.push(Field { name: "afci_ch2_current", value: FieldValue::Int(self.afci_ch2_current as i64), kind: FieldKind::Plain });
        r.push(Field { name: "afci_ch3_current", value: FieldValue::Int(self.afci_ch3_current as i64), kind: FieldKind::Plain });
        r.push(Field { name: "afci_ch4_current", value: FieldValue::Int(self.afci_ch4_current as i64), kind: FieldKind::Plain });
        r.push(Field { name: "register_144", value: FieldValue::Int(self.register_144 as i64), kind: FieldKind::Bits144(self.register_144) });
        r.push(Field { name: "afci_arc_ch1", value: FieldValue::Int(self.afci_arc_ch1 as i64), kind: FieldKind::Plain });
        assert(r@ =~= self.spec_fields_1());
        r
    }

    pub open spec fn spec_fields_2(&self) -> Seq<Field> {
        seq![
            Field { name: "afci_arc_ch2", value: FieldValue::Int(self.afci_arc_ch2 as i64), kind: FieldKind::Plain },
            Field { name: "afci_arc_ch3", value: FieldValue::Int(self.afci_arc_ch3 as i64), kind: FieldKind::Plain },
            Field { name: "afci_arc_ch4", value: FieldValue::Int(self.afci_arc_ch4 as i64), kind: FieldKind::Plain },
            Field { name: "afci_max_arc_ch1", value: FieldValue::Int(self.afci_max_arc_ch1 as i64), kind: FieldKind::Plain },
            Field { name: "afci_max_arc_ch2", value: FieldValue::Int(self.afci_max_arc_ch2 as i64), kind: FieldKind::Plain },
            Field { name: "afci_max_arc_ch3", value: FieldValue::Int(self.afci_max_arc_ch3 as i64), kind: FieldKind::Plain },
            Field { name: "afci_max_arc_ch4", value: FieldValue::Int(self.afci_max_arc_ch4 as i64), kind: FieldKind::Plain },
            Field { name: "p_ac_couple", value: FieldValue::Int(self.p_ac_couple as i64), kind: FieldKind::Plain },
        ]
    }

    fn fields_2(&self) -> (r: Vec<Field>)
        ensures
            r@ == self.spec_fields_2(),
    {
        let mut r: Vec<Field> = Vec::new();
        r.push(Field { name: "afci_arc_ch2", value: FieldValue::Int(self.afci_arc_ch2 as i64), kind: FieldKind::Plain });
        r.push(Field { name: "afci_arc_ch3", value: FieldValue::Int(self.afci_arc_ch3 as i64), kind: FieldKind::Plain });
        r.push(Field { name: "afci_arc_ch4", value: FieldValue::Int(self.afci_arc_ch4 as i64), kind: FieldKind::Plain });
        r.push(Field { name: "afci_max_arc_ch1", value: FieldValue::Int(self.afci_max_arc_ch1 as i64), kind: FieldKind::Plain });
        r.push(Field { name: "afci_max_arc_ch2", value: FieldValue::Int(self.afci_max_arc_ch2 as i64), kind: FieldKind::Plain });
        r.push(Field { name: "afci_max_arc_ch3", value: FieldValue::Int(self.afci_max_arc_ch3 as i64), kind: FieldKind::Plain });
        r.push(Field { name: "afci_max_arc_ch4", value: FieldValue::Int(self.afci_max_arc_ch4 as i64), kind: FieldKind::Plain });
        r.push(Field { name: "p_ac_couple", value: FieldValue::Int(self.p_ac_couple as i64), kind: FieldKind::Plain });
        assert(r@ =~= self.spec_fields_2());
        r
    }

    pub open spec fn spec_fields_3(&self) -> Seq<Field> {
        seq![
            Field { name: "p_load", value: FieldValue::Int(self.p_load as i64), kind: FieldKind::Plain },
            Field { name: "e_load_day", value: FieldValue::Tenths(self.e_load_day as i64), kind: FieldKind::Plain },
            Field { name: "e_load_all", value: FieldValue::Tenths(self.e_load_all as i64), kind: FieldKind::Plain },
            Field { name: "eps_overload_ctrl_time", value: FieldValue::Int(self.eps_overload_ctrl_time as i64), kind: FieldKind::Plain },
            Field { name: "p_inv_s", value: FieldValue::Int(self.p_inv_s as i64), kind: FieldKind::Plain },
            Field { name: "p_inv_t", value: FieldValue::Int(self.p_inv_t as i64), kind: FieldKind::Plain },
            Field { name: "p_rec_s", value: FieldValue::Int(self.p_rec_s as i64), kind: FieldKind::Plain },
            Field { name: "p_rec_t", value: FieldValue::Int(self.p_rec_t as i64), kind: FieldKind::Plain },
        ]
    }

    fn fields_3(&self) -> (r: Vec<Field>)
        ensures
            r@ == self.spec_fields_3(),
    {
        let mut r: Vec<Field> = Vec::new();
        r.push(Field { name: "p_load", value: FieldValue::Int(self.p_load as i64), kind: FieldKind::Plain });
        r.push(Field { name: "e_load_day", value: FieldValue::Tenths(self.e_load_day as i64), kind: FieldKind::Plain });
        r.push(Field { name: "e_load_all", value: FieldValue::Tenths(self.e_load_all as i64), kind: FieldKind::Plain });
        r.push(Field { name: "eps_overload_ctrl_time", value: FieldValue::Int(self.eps_overload_ctrl_time as i64), kind: FieldKind::Plain });
        r.push(Field { name: "p_inv_s", value: FieldValue::Int(self.p_inv_s as i64), kind: FieldKind::Plain });
        r.push(Field { name: "p_inv_t", value: FieldValue::Int(self.p_inv_t as i64), kind: FieldKind::Plain });
        r.push(Field { name: "p_rec_s", value: FieldValue::Int(self.p_rec_s as i64), kind: FieldKind::Plain });
        r.push(Field { name: "p_rec_t", value: FieldValue::Int(self.p_rec_t as i64), kind: FieldKind::Plain });
        assert(r@ =~= self.spec_fields_3());
        r
    }

    pub open spec fn spec_fields_4(&self) -> Seq<Field> {
        seq![
            Field { name: "p_to_grid_s", value: FieldValue::Int(self.p_to_grid_s as i64), kind: FieldKind::Plain },
            Field { name: "p_to_grid_t", value: FieldValue::Int(self.p_to_grid_t as i64), kind: FieldKind::Plain },
            Field { name: "p_to_user_s", value: FieldValue::Int(self.p_to_user_s as i64), kind: FieldKind::Plain },
            Field { name: "p_to_user_t", value: FieldValue::Int(self.p_to_user_t as i64), kind: FieldKind::Plain },
            Field { name: "p_gen_s", value: FieldValue::Int(self.p_gen_s as i64), kind: FieldKind::Plain },
            Field { name: "p_gen_t", value: FieldValue::Int(self.p_gen_t as i64), kind: FieldKind::Plain },
            Field { name: "inv_rms_curr_s", value: FieldValue::Hundredths(self.inv_rms_curr_s as i64), kind: FieldKind::Plain },
            Field { name: "inv_rms_curr_t", value: FieldValue::Hundredths(self.inv_rms_curr_t as i64), kind: FieldKind::Plain },
        ]
    }

    fn fields_4(&self) -> (r: Vec<Field>)
        ensures
            r@ == self.spec_fields_4(),
    {
        let mut r: Vec<Field> = Vec::new();
        r.push(Field { name: "p_to_grid_s", value: FieldValue::Int(self.p_to_grid_s as i64), kind: FieldKind::Plain });
        r.push(Field { name: "p_to_grid_t", value: FieldValue::Int(self.p_to_grid_t as i64), kind: FieldKind::Plain });
        r.push(Field { name: "p_to_user_s", value: FieldValue::Int(self.p_to_user_s as i64), kind: FieldKind::Plain });
        r.push(Field { name: "p_to_user_t", value: FieldValue::Int(self.p_to_user_t as i64), kind: FieldKind::Plain });
        r.push(Field { name: "p_gen_s", value: FieldValue::Int(self.p_gen_s as i64), kind: FieldKind::Plain });
        r.push(Field { name: "p_gen_t", value: FieldValue::Int(self.p_gen_t as i64), kind: FieldKind::Plain });
        r.push(Field { name: "inv_rms_curr_s", value: FieldValue::Hundredths(self.inv_rms_curr_s as i64), kind: FieldKind::Plain });
        r.push(Field { name: "inv_rms_curr_t", value: FieldValue::Hundredths(self.inv_rms_curr_t as i64), kind: FieldKind::Plain });
        assert(r@ =~= self.spec_fields_4());
        r
    }

    pub open spec fn spec_fields_5(&self) -> Seq<Field> {
        seq![
            Field { name: "pf_s", value: FieldValue::Thousandths(self.pf_s as i64), kind: FieldKind::Plain },
            Field { name: "v_grid_l1", value: FieldValue::Tenths(self.v_grid_l1 as i64), kind: FieldKind::Plain },
            Field { name: "v_grid_l2", value: FieldValue::Tenths(self.v_grid_l2 as i64), kind: FieldKind::Plain },
            Field { name: "v_gen_l1", value: FieldValue::Tenths(self.v_gen_l1 as i64), kind: FieldKind::Plain },
            Field { name: "v_gen_l2", value: FieldValue::Tenths(self.v_gen_l2 as i64), kind: FieldKind::Plain },
            Field { name: "p_inv_l1", value: FieldValue::Int(self.p_inv_l1 as i64), kind: FieldKind::Plain },
            Field { name: "p_inv_l2", value: FieldValue::Int(self.p_inv_l2 as i64), kind: FieldKind::Plain },
            Field { name: "p_rec_l1", value: FieldValue::Int(self.p_rec_l1 as i64), kind: FieldKind::Plain },
        ]
    }

    fn fields_5(&self) -> (r: Vec<Field>)
        ensures
            r@ == self.spec_fields_5(),
    {
        let mut r: Vec<Field> = Vec::new();
        r.push(Field { name: "pf_s", value: FieldValue::Thousandths(self.pf_s as i64), kind: FieldKind::Plain });
        r.push(Field { name: "v_grid_l1", value: FieldValue::Tenths(self.v_grid_l1 as i64), kind: FieldKind::Plain });
        r.push(Field { name: "v_grid_l2", value: FieldValue::Tenths(self.v_grid_l2 as i64), kind: FieldKind::Plain });
        r.push(Field { name: "v_gen_l1", value: FieldValue::Tenths(self.v_gen_l1 as i64), kind: FieldKind::Plain });
        r.push(Field { name: "v_gen_l2", value: FieldValue::Tenths(self.v_gen_l2 as i64), kind: FieldKind::Plain });
        r.push(Field { name: "p_inv_l1", value: FieldValue::Int(self.p_inv_l1 as i64), kind: FieldKind::Plain });
        r.push(Field { name: "p_inv_l2", value: FieldValue::Int(self.p_inv_l2 as i64), kind: FieldKind::Plain });
        r.push(Field { name: "p_rec_l1", value: FieldValue::Int(self.p_rec_l1 as i64), kind: FieldKind::Plain });
        assert(r@ =~= self.spec_fields_5());
        r
    }

    pub open spec fn spec_fields_6(&self) -> Seq<Field> {
        seq![
            Field { name: "p_rec_l2", value: FieldValue::Int(self.p_rec_l2 as i64), kind: FieldKind::Plain },
            Field { name: "p_to_grid_l1", value: FieldValue::Int(self.p_to_grid_l1 as i64), kind: FieldKind::Plain },
            Field { name: "p_to_grid_l2", value: FieldValue::Int(self.p_to_grid_l2 as i64), kind: FieldKind::Plain },
            Field { name: "p_to_user_l1", value: FieldValue::Int(self.p_to_user_l1 as i64), kind: FieldKind::Plain },
            Field { name: "p_to_user_l2", value: FieldValue::Int(self.p_to_user_l2 as i64), kind: FieldKind::Plain },
            Field { name: "pf_t", value: FieldValue::Thousandths(self.pf_t as i64), kind: FieldKind::Plain },
            Field { name: "time", value: FieldValue::Int(self.time as i64), kind: FieldKind::Plain },
        ]
    }

    fn fields_6(&self) -> (r: Vec<Field>)
        ensures
            r@ == self.spec_fields_6(),
    {
        let mut r: Vec<Field> = Vec::new();
        r.push(Field { name: "p_rec_l2", value: FieldValue::Int(self.p_rec_l2 as i64), kind: FieldKind::Plain });
        r.push(Field { name: "p_to_grid_l1", value: FieldValue::Int(self.p_to_grid_l1 as i64), kind: FieldKind::Plain });
        r.push(Field { name: "p_to_grid_l2", value: FieldValue::Int(self.p_to_grid_l2 as i64), kind: FieldKind::Plain });
        r.push(Field { name: "p_to_user_l1", value: FieldValue::Int(self.p_to_user_l1 as i64), kind: FieldKind::Plain });
        r.push(Field { name: "p_to_user_l2", value: FieldValue::Int(self.p_to_user_l2 as i64), kind: FieldKind::Plain });
        r.push(Field { name: "pf_t", value: FieldValue::Thousandths(self.pf_t as i64), kind: FieldKind::Plain });
        r.push(Field { name: "time", value: FieldValue::Int(self.time as i64), kind: FieldKind::Plain });
        assert(r@ =~= self.spec_fields_6());
        r
    }

    /// The fields in declaration order, the datalog aside.
    pub open spec fn spec_fields(&self) -> Seq<Field> {
        self.spec_fields_0()
            + self.spec_fields_1()
            + self.spec_fields_2()
            + self.spec_fields_3()
            + self.spec_fields_4()
            + self.spec_fields_5()
            + self.spec_fields_6()
    }

    pub fn fields(&self) -> (r: Vec<Field>)
        ensures
            r@ == self.spec_fields(),
    {
        let mut r = self.fields_0();
        let mut c = self.fields_1();
        r.append(&mut c);
        let mut c = self.fields_2();
        r.append(&mut c);
        let mut c = self.fields_3();
        r.append(&mut c);
        let mut c = self.fields_4();
        r.append(&mut c);
        let mut c = self.fields_5();
        r.append(&mut c);
        let mut c = self.fields_6();
        r.append(&mut c);
        r
    }

    /// The snapshot as one flat JSON object.
    pub fn json(&self) -> (r: String)
        ensures
            r@ == snapshot_json(self.spec_fields(), self.datalog@),
    {
        fields_json(&self.fields(), &self.datalog)
    }
}

/// The decoding of input registers 0 to 39.
#[derive(Clone, Copy, Debug, PartialEq, Eq)]
pub struct ReadInput1 {
    pub status: u16,
    pub v_pv_1: u16,
    pub v_pv_2: u16,
    pub v_pv_3: u16,
    pub v_bat: u16,
    pub soc: i8,
    pub soh: i8,
    pub internal_fault: u16,
    pub p_pv: u32,
    pub p_pv_1: u16,
    pub p_pv_2: u16,
    pub p_pv_3: u16,
    pub p_battery: i32,
    pub p_charge: u16,
    pub p_discharge: u16,
    pub v_ac_r: u16,
    pub v_ac_s: u16,
    pub v_ac_t: u16,
    pub f_ac: u16,
    pub p_inv: u16,
    pub p_rec: u16,
    pub pf: u16,
    pub v_eps_r: u16,
    pub v_eps_s: u16,
    pub v_eps_t: u16,
    pub f_eps: u16,
    pub p_eps: u16,
    pub s_eps: u16,
    pub p_grid: i32,
    pub p_to_grid: u16,
    pub p_to_user: u16,
    pub e_pv_day: u32,
    pub e_pv_day_1: u16,
    pub e_pv_day_2: u16,
    pub e_pv_day_3: u16,
    pub e_inv_day: u16,
    pub e_rec_day: u16,
    pub e_chg_day: u16,
    pub e_dischg_day: u16,
    pub e_eps_day: u16,
    pub e_to_grid_day: u16,
    pub e_to_user_day: u16,
    pub v_bus_1: u16,
    pub v_bus_2: u16,
    pub time: i64,
    pub datalog: Serial,
}

impl ReadInput1 {
    /// How many value bytes a decoding reads.
    pub const SIZE: usize = 80;

    /// Whether `r` is the decoding of `values`, stamped with `datalog` and `time`.
    pub open spec fn decodes(values: Seq<u8>, datalog: Serial, time: i64, r: ReadInput1) -> bool {
        &&& r.status == le16_at(values, 0)
        &&& r.v_pv_1 == le16_at(values, 2)
        &&& r.v_pv_2 == le16_at(values, 4)
        &&& r.v_pv_3 == le16_at(values, 6)
        &&& r.v_bat == le16_at(values, 8)
        &&& r.soc == i8_of(values[10])
        &&& r.soh == i8_of(values[11])
        &&& r.internal_fault == le16_at(values, 12)
        &&& r.p_pv_1 == le16_at(values, 14)
        &&& r.p_pv_2 == le16_at(values, 16)
        &&& r.p_pv_3 == le16_at(values, 18)
        &&& r.p_charge == le16_at(values, 20)
        &&& r.p_discharge == le16_at(values, 22)
        &&& r.v_ac_r == le16_at(values, 24)
        &&& r.v_ac_s == le16_at(values, 26)
        &&& r.v_ac_t == le16_at(values, 28)
        &&& r.f_ac == le16_at(values, 30)
        &&& r.p_inv == le16_at(values, 32)
        &&& r.p_rec == le16_at(values, 34)
        &&& r.pf == le16_at(values, 38)
        &&& r.v_eps_r == le16_at(values, 40)
        &&& r.v_eps_s == le16_at(values, 42)
        &&& r.v_eps_t == le16_at(values, 44)
        &&& r.f_eps == le16_at(values, 46)
        &&& r.p_eps == le16_at(values, 48)
        &&& r.s_eps == le16_at(values, 50)
        &&& r.p_to_grid == le16_at(values, 52)
        &&& r.p_to_user == le16_at(values, 54)
        &&& r.e_pv_day_1 == le16_at(values, 56)
        &&& r.e_pv_day_2 == le16_at(values, 58)
        &&& r.e_pv_day_3 == le16_at(values, 60)
        &&& r.e_inv_day == le16_at(values, 62)
        &&& r.e_rec_day == le16_at(values, 64)
        &&& r.e_chg_day == le16_at(values, 66)
        &&& r.e_dischg_day == le16_at(values, 68)
        &&& r.e_eps_day == le16_at(values, 70)
        &&& r.e_to_grid_day == le16_at(values, 72)
        &&& r.e_to_user_day == le16_at(values, 74)
        &&& r.v_bus_1 == le16_at(values, 76)
        &&& r.v_bus_2 == le16_at(values, 78)
        &&& r.derived_ok()
        &&& r.time == time
        &&& r.datalog == datalog
    }

    /// The fields computed at decoding hold their definitions.
    pub open spec fn derived_ok(&self) -> bool {
        &&& self.p_pv == self.p_pv_1 as u32 + self.p_pv_2 as u32 + self.p_pv_3 as u32
        &&& self.p_grid == self.p_to_user as i32 - self.p_to_grid as i32
        &&& self.p_battery == self.p_charge as i32 - self.p_discharge as i32
        &&& self.e_pv_day == self.e_pv_day_1 as u32 + self.e_pv_day_2 as u32 + self.e_pv_day_3 as u32
    }

    /// Decodes the little-endian register values; `time` stamps the decoding.
    pub fn decode(values: &[u8], datalog: Serial, time: i64) -> (r: ReadInput1)
        requires
            values@.len() >= 80,
        ensures
            ReadInput1::decodes(values@, datalog, time, r),
    {
        let status = read_u16_le(values, 0);
        let v_pv_1 = read_u16_le(values, 2);
        let v_pv_2 = read_u16_le(values, 4);
        let v_pv_3 = read_u16_le(values, 6);
        let v_bat = read_u16_le(values, 8);
        let soc = read_i8(values, 10);
        let soh = read_i8(values, 11);
        let internal_fault = read_u16_le(values, 12);
        let p_pv_1 = read_u16_le(values, 14);
        let p_pv_2 = read_u16_le(values, 16);
        let p_pv_3 = read_u16_le(values, 18);
        let p_charge = read_u16_le(values, 20);
        let p_discharge = read_u16_le(values, 22);
        let v_ac_r = read_u16_le(values, 24);
        let v_ac_s = read_u16_le(values, 26);
        let v_ac_t = read_u16_le(values, 28);
        let f_ac = read_u16_le(values, 30);
        let p_inv = read_u16_le(values, 32);
        let p_rec = read_u16_le(values, 34);
        let pf = read_u16_le(values, 38);
        let v_eps_r = read_u16_le(values, 40);
        let v_eps_s = read_u16_le(values, 42);
        let v_eps_t = read_u16_le(values, 44);
        let f_eps = read_u16_le(values, 46);
        let p_eps = read_u16_le(values, 48);
        let s_eps = read_u16_le(values, 50);
        let p_to_grid = read_u16_le(values, 52);
        let p_to_user = read_u16_le(values, 54);
        let e_pv_day_1 = read_u16_le(values, 56);
        let e_pv_day_2 = read_u16_le(values, 58);
        let e_pv_day_3 = read_u16_le(values, 60);
        let e_inv_day = read_u16_le(values, 62);
        let e_rec_day = read_u16_le(values, 64);
        let e_chg_day = read_u16_le(values, 66);
        let e_dischg_day = read_u16_le(values, 68);
        let e_eps_day = read_u16_le(values, 70);
        let e_to_grid_day = read_u16_le(values, 72);
        let e_to_user_day = read_u16_le(values, 74);
        let v_bus_1 = read_u16_le(values, 76);
        let v_bus_2 = read_u16_le(values, 78);
        let p_pv = p_pv_1 as u32 + p_pv_2 as u32 + p_pv_3 as u32;
        let p_grid = p_to_user as i32 - p_to_grid as i32;
        let p_battery = p_charge as i32 - p_discharge as i32;
        let e_pv_day = e_pv_day_1 as u32 + e_pv_day_2 as u32 + e_pv_day_3 as u32;
        ReadInput1 {
            status,
            v_pv_1,
            v_pv_2,
            v_pv_3,
            v_bat,
            soc,
            soh,
            internal_fault,
            p_pv,
            p_pv_1,
            p_pv_2,
            p_pv_3,
            p_battery,
            p_charge,
            p_discharge,
            v_ac_r,
            v_ac_s,
            v_ac_t,
            f_ac,
            p_inv,
            p_rec,
            pf,
            v_eps_r,
            v_eps_s,
            v_eps_t,
            f_eps,
            p_eps,
            s_eps,
            p_grid,
            p_to_grid,
            p_to_user,
            e_pv_day,
            e_pv_day_1,
            e_pv_day_2,
            e_pv_day_3,
            e_inv_day,
            e_rec_day,
            e_chg_day,
            e_dischg_day,
            e_eps_day,
            e_to_grid_day,
            e_to_user_day,
            v_bus_1,
            v_bus_2,
            time,
            datalog,
        }
    }

    pub open spec fn spec_fields_0(&self) -> Seq<Field> {
        seq![
            Field { name: "status", value: FieldValue::Int(self.status as i64), kind: FieldKind::Status(self.status) },
            Field { name: "v_pv_1", value: FieldValue::Tenths(self.v_pv_1 as i64), kind: FieldKind::Plain },
            Field { name: "v_pv_2", value: FieldValue::Tenths(self.v_pv_2 as i64), kind: FieldKind::Plain },
            Field { name: "v_pv_3", value: FieldValue::Tenths(self.v_pv_3 as i64), kind: FieldKind::Plain },
            Field { name: "v_bat", value: FieldValue::Tenths(self.v_bat as i64), kind: FieldKind::Plain },
            Field { name: "soc", value: FieldValue::Int(self.soc as i64), kind: FieldKind::Plain },
            Field { name: "soh", value: FieldValue::Int(self.soh as i64), kind: FieldKind::Plain },
            Field { name: "internal_fault", value: FieldValue::Int(self.internal_fault as i64), kind: FieldKind::Plain },
        ]
    }

    fn fields_0(&self) -> (r: Vec<Field>)
        ensures
            r@ == self.spec_fields_0(),
    {
        let mut r: Vec<Field> = Vec::new();
        r.push(Field { name: "status", value: FieldValue::Int(self.status as i64), kind: FieldKind::Status(self.status) });
        r.push(Field { name: "v_pv_1", value: FieldValue::Tenths(self.v_pv_1 as i64), kind: FieldKind::Plain });
        r.push(Field { name: "v_pv_2", value: FieldValue::Tenths(self.v_pv_2 as i64), kind: FieldKind::Plain });
        r.push(Field { name: "v_pv_3", value: FieldValue::Tenths(self.v_pv_3 as i64), kind: FieldKind::Plain });
        r.push(Field { name: "v_bat", value: FieldValue::Tenths(self.v_bat as i64), kind: FieldKind::Plain });
        r.push(Field { name: "soc", value: FieldValue::Int(self.soc as i64), kind: FieldKind::Plain });
        r.push(Field { name: "soh", value: FieldValue::Int(self.soh as i64), kind: FieldKind::Plain });
        r.push(Field { name: "internal_fault", value: FieldValue::Int(self.internal_fault as i64), kind: FieldKind::Plain });
        assert(r@ =~= self.spec_fields_0());
        r
    }

    pub open spec fn spec_fields_1(&self) -> Seq<Field> {
        seq![
            Field { name: "p_pv", value: FieldValue::Int(self.p_pv as i64), kind: FieldKind::Plain },
            Field { name: "p_pv_1", value: FieldValue::Int(self.p_pv_1 as i64), kind: FieldKind::Plain },
            Field { name: "p_pv_2", value: FieldValue::Int(self.p_pv_2 as i64), kind: FieldKind::Plain },
            Field { name: "p_pv_3", value: FieldValue::Int(self.p_pv_3 as i64), kind: FieldKind::Plain },
            Field { name: "p_battery", value: FieldValue::Int(self.p_battery as i64), kind: FieldKind::Plain },
            Field { name: "p_charge", value: FieldValue::Int(self.p_charge as i64), kind: FieldKind::Plain },
            Field { name: "p_discharge", value: FieldValue::Int(self.p_discharge as i64), kind: FieldKind::Plain },
            Field { name: "v_ac_r", value: FieldValue::Tenths(self.v_ac_r as i64), kind: FieldKind::Plain },
        ]
    }

    fn fields_1(&self) -> (r: Vec<Field>)
        ensures
            r@ == self.spec_fields_1(),
    {
        let mut r: Vec<Field> = Vec::new();
        r.push(Field { name: "p_pv", value: FieldValue::Int(self.p_pv as i64), kind: FieldKind::Plain });
        r.push(Field { name: "p_pv_1", value: FieldValue::Int(self.p_pv_1 as i64), kind: FieldKind::Plain });
        r.push(Field { name: "p_pv_2", value: FieldValue::Int(self.p_pv_2 as i64), kind: FieldKind::Plain });
        r.push(Field { name: "p_pv_3", value: FieldValue::Int(self.p_pv_3 as i64), kind: FieldKind::Plain });
        r.push(Field { name: "p_battery", value: FieldValue::Int(self.p_battery as i64), kind: FieldKind::Plain });
        r.push(Field { name: "p_charge", value: FieldValue::Int(self.p_charge as i64), kind: FieldKind::Plain });
        r.push(Field { name: "p_discharge", value: FieldValue::Int(self.p_discharge as i64), kind: FieldKind::Plain });
        r.push(Field { name: "v_ac_r", value: FieldValue::Tenths(self.v_ac_r as i64), kind: FieldKind::Plain });
        assert(r@ =~= self.spec_fields_1());
        r
    }

    pub open spec fn spec_fields_2(&self) -> Seq<Field> {
        seq![
            Field { name: "v_ac_s", value: FieldValue::Tenths(self.v_ac_s as i64), kind: FieldKind::Plain },
            Field { name: "v_ac_t", value: FieldValue::Tenths(self.v_ac_t as i64), kind: FieldKind::Plain },
            Field { name: "f_ac", value: FieldValue::Hundredths(self.f_ac as i64), kind: FieldKind::Plain },
            Field { name: "p_inv", value: FieldValue::Int(self.p_inv as i64), kind: FieldKind::Plain },
            Field { name: "p_rec", value: FieldValue::Int(self.p_rec as i64), kind: FieldKind::Plain },
            Field { name: "pf", value: FieldValue::Thousandths(self.pf as i64), kind: FieldKind::Plain },
            Field { name: "v_eps_r", value: FieldValue::Tenths(self.v_eps_r as i64), kind: FieldKind::Plain },
            Field { name: "v_eps_s", value: FieldValue::Tenths(self.v_eps_s as i64), kind: FieldKind::Plain },
        ]
    }

    fn fields_2(&self) -> (r: Vec<Field>)
        ensures
            r@ == self.spec_fields_2(),
    {
        let mut r: Vec<Field> = Vec::new();
        r.push(Field { name: "v_ac_s", value: FieldValue::Tenths(self.v_ac_s as i64), kind: FieldKind::Plain });
        r.push(Field { name: "v_ac_t", value: FieldValue::Tenths(self.v_ac_t as i64), kind: FieldKind::Plain });
        r.push(Field { name: "f_ac", value: FieldValue::Hundredths(self.f_ac as i64), kind: FieldKind::Plain });
        r.push(Field { name: "p_inv", value: FieldValue::Int(self.p_inv as i64), kind: FieldKind::Plain });
        r.push(Field { name: "p_rec", value: FieldValue::Int(self.p_rec as i64), kind: FieldKind::Plain });
        r.push(Field { name: "pf", value: FieldValue::Thousandths(self.pf as i64), kind: FieldKind::Plain });
        r.push(Field { name: "v_eps_r", value: FieldValue::Tenths(self.v_eps_r as i64), kind: FieldKind::Plain });
        r.push(Field { name: "v_eps_s", value: FieldValue::Tenths(self.v_eps_s as i64), kind: FieldKind::Plain });
        assert(r@ =~= self.spec_fields_2());
        r
    }

    pub open spec fn spec_fields_3(&self) -> Seq<Field> {
        seq![
            Field { name: "v_eps_t", value: FieldValue::Tenths(self.v_eps_t as i64), kind: FieldKind::Plain },
            Field { name: "f_eps", value: FieldValue::Hundredths(self.f_eps as i64), kind: FieldKind::Plain },
            Field { name: "p_eps", value: FieldValue::Int(self.p_eps as i64), kind: FieldKind::Plain },
            Field { name: "s_eps", value: FieldValue::Int(self.s_eps as i64), kind: FieldKind::Plain },
            Field { name: "p_grid", value: FieldValue::Int(self.p_grid as i64), kind: FieldKind::Plain },
            Field { name: "p_to_grid", value: FieldValue::Int(self.p_to_grid as i64), kind: FieldKind::Plain },
            Field { name: "p_to_user", value: FieldValue::Int(self.p_to_user as i64), kind: FieldKind::Plain },
            Field { name: "e_pv_day", value: FieldValue::Tenths(self.e_pv_day as i64), kind: FieldKind::Plain },
        ]
    }

    fn fields_3(&self) -> (r: Vec<Field>)
        ensures
            r@ == self.spec_fields_3(),
    {
        let mut r: Vec<Field> = Vec::new();
        r.push(Field { name: "v_eps_t", value: FieldValue::Tenths(self.v_eps_t as i64), kind: FieldKind::Plain });
        r.push(Field { name: "f_eps", value: FieldValue::Hundredths(self.f_eps as i64), kind: FieldKind::Plain });
        r.push(Field { name: "p_eps", value: FieldValue::Int(self.p_eps as i64), kind: FieldKind::Plain });
        r.push(Field { name: "s_eps", value: FieldValue::Int(self.s_eps as i64), kind: FieldKind::Plain });
        r.push(Field { name: "p_grid", value: FieldValue::Int(self.p_grid as i64), kind: FieldKind::Plain });
        r.push(Field { name: "p_to_grid", value: FieldValue::Int(self.p_to_grid as i64), kind: FieldKind::Plain });
        r.push(Field { name: "p_to_user", value: FieldValue::Int(self.p_to_user as i64), kind: FieldKind::Plain });
        r.push(Field { name: "e_pv_day", value: FieldValue::Tenths(self.e_pv_day as i64), kind: FieldKind::Plain });
        assert(r@ =~= self.spec_fields_3());
        r
    }

    pub open spec fn spec_fields_4(&self) -> Seq<Field> {
        seq![
            Field { name: "e_pv_day_1", value: FieldValue::Tenths(self.e_pv_day_1 as i64), kind: FieldKind::Plain },
            Field { name: "e_pv_day_2", value: FieldValue::Tenths(self.e_pv_day_2 as i64), kind: FieldKind::Plain },
            Field { name: "e_pv_day_3", value: FieldValue::Tenths(self.e_pv_day_3 as i64), kind: FieldKind::Plain },
            Field { name: "e_inv_day", value: FieldValue::Tenths(self.e_inv_day as i64), kind: FieldKind::Plain },
            Field { name: "e_rec_day", value: FieldValue::Tenths(self.e_rec_day as i64), kind: FieldKind::Plain },
            Field { name: "e_chg_day", value: FieldValue::Tenths(self.e_chg_day as i64), kind: FieldKind::Plain },
            Field { name: "e_dischg_day", value: FieldValue::Tenths(self.e_dischg_day as i64), kind: FieldKind::Plain },
            Field { name: "e_eps_day", value: FieldValue::Tenths(self.e_eps_day as i64), kind: FieldKind::Plain },
        ]
    }

    fn fields_4(&self) -> (r: Vec<Field>)
        ensures
            r@ == self.spec_fields_4(),
    {
        let mut r: Vec<Field> = Vec::new();
        r.push(Field { name: "e_pv_day_1", value: FieldValue::Tenths(self.e_pv_day_1 as i64), kind: FieldKind::Plain });
        r.push(Field { name: "e_pv_day_2", value: FieldValue::Tenths(self.e_pv_day_2 as i64), kind: FieldKind::Plain });
        r.push(Field { name: "e_pv_day_3", value: FieldValue::Tenths(self.e_pv_day_3 as i64), kind: FieldKind::Plain });
        r.push(Field { name: "e_inv_day", value: FieldValue::Tenths(self.e_inv_day as i64), kind: FieldKind::Plain });
        r.push(Field { name: "e_rec_day", value: FieldValue::Tenths(self.e_rec_day as i64), kind: FieldKind::Plain });
        r.push(Field { name: "e_chg_day", value: FieldValue::Tenths(self.e_chg_day as i64), kind: FieldKind::Plain });
        r.push(Field { name: "e_dischg_day", value: FieldValue::Tenths(self.e_dischg_day as i64), kind: FieldKind::Plain });
        r.push(Field { name: "e_eps_day", value: FieldValue::Tenths(self.e_eps_day as i64), kind: FieldKind::Plain });
        assert(r@ =~= self.spec_fields_4());
        r
    }

    pub open spec fn spec_fields_5(&self) -> Seq<Field> {
        seq![
            Field { name: "e_to_grid_day", value: FieldValue::Tenths(self.e_to_grid_day as i64), kind: FieldKind::Plain },
            Field { name: "e_to_user_day", value: FieldValue::Tenths(self.e_to_user_day as i64), kind: FieldKind::Plain },
            Field { name: "v_bus_1", value: FieldValue::Tenths(self.v_bus_1 as i64), kind: FieldKind::Plain },
            Field { name: "v_bus_2", value: FieldValue::Tenths(self.v_bus_2 as i64), kind: FieldKind::Plain },
            Field { name: "time", value: FieldValue::Int(self.time as i64), kind: FieldKind::Plain },
        ]
    }

    fn fields_5(&self) -> (r: Vec<Field>)
        ensures
            r@ == self.spec_fields_5(),
    {
        let mut r: Vec<Field> = Vec::new();
        r.push(Field { name: "e_to_grid_day", value: FieldValue::Tenths(self.e_to_grid_day as i64), kind: FieldKind::Plain });
        r.push(Field { name: "e_to_user_day", value: FieldValue::Tenths(self.e_to_user_day as i64), kind: FieldKind::Plain });
        r.push(Field { name: "v_bus_1", value: FieldValue::Tenths(self.v_bus_1 as i64), kind: FieldKind::Plain });
        r.push(Field { name: "v_bus_2", value: FieldValue::Tenths(self.v_bus_2 as i64), kind: FieldKind::Plain });
        r.push(Field { name: "time", value: FieldValue::Int(self.time as i64), kind: FieldKind::Plain });
        assert(r@ =~= self.spec_fields_5());
        r
    }

    /// The fields in declaration order, the datalog aside.
    pub open spec fn spec_fields(&self) -> Seq<Field> {
        self.spec_fields_0()
            + self.spec_fields_1()
            + self.spec_fields_2()
            + self.spec_fields_3()
            + self.spec_fields_4()
            + self.spec_fields_5()
    }

    pub fn fields(&self) -> (r: Vec<Field>)
        ensures
            r@ == self.spec_fields(),
    {
        let mut r = self.fields_0();
        let mut c = self.fields_1();
        r.append(&mut c);
        let mut c = self.fields_2();
        r.append(&mut c);
        let mut c = self.fields_3();
        r.append(&mut c);
        let mut c = self.fields_4();
        r.append(&mut c);
        let mut c = self.fields_5();
        r.append(&mut c);
        r
    }

    /// The snapshot as one flat JSON object.
    pub fn json(&self) -> (r: String)
        ensures
            r@ == snapshot_json(self.spec_fields(), self.datalog@),
    {
        fields_json(&self.fields(), &self.datalog)
    }
}

/// The decoding of input registers 40 to 79.
#[derive(Clone, Copy, Debug, PartialEq, Eq)]
pub struct ReadInput2 {
    pub e_pv_all: u64,
    pub e_pv_all_1: u32,
    pub e_pv_all_2: u32,
    pub e_pv_all_3: u32,
    pub e_inv_all: u32,
    pub e_rec_all: u32,
    pub e_chg_all: u32,
    pub e_dischg_all: u32,
    pub e_eps_all: u32,
    pub e_to_grid_all: u32,
    pub e_to_user_all: u32,
    pub fault_code: u32,
    pub warning_code: u32,
    pub t_inner: i16,
    pub t_rad_1: i16,
    pub t_rad_2: i16,
    pub t_bat: i16,
    pub runtime: u32,
    pub register_71: u16,
    pub register_77: u16,
    pub time: i64,
    pub datalog: Serial,
}

impl ReadInput2 {
    /// How many value bytes a decoding reads.
    pub const SIZE: usize = 74;

    /// Whether `r` is the decoding of `values`, stamped with `datalog` and `time`.
    pub open spec fn decodes(values: Seq<u8>, datalog: Serial, time: i64, r: ReadInput2) -> bool {
        &&& r.e_pv_all_1 == le32_at(values, 0)
        &&& r.e_pv_all_2 == le32_at(values, 4)
        &&& r.e_pv_all_3 == le32_at(values, 8)
        &&& r.e_inv_all == le32_at(values, 12)
        &&& r.e_rec_all == le32_at(values, 16)
        &&& r.e_chg_all == le32_at(values, 20)
        &&& r.e_dischg_all == le32_at(values, 24)
        &&& r.e_eps_all == le32_at(values, 28)
        &&& r.e_to_grid_all == le32_at(values, 32)
        &&& r.e_to_user_all == le32_at(values, 36)
        &&& r.fault_code == le32_at(values, 40)
        &&& r.warning_code == le32_at(values, 44)
        &&& r.t_inner == i16_of(le16_at(values, 48))
        &&& r.t_rad_1 == i16_of(le16_at(values, 50))
        &&& r.t_rad_2 == i16_of(le16_at(values, 52))
        &&& r.t_bat == i16_of(le16_at(values, 54))
        &&& r.runtime == le32_at(values, 58)
        &&& r.register_71 == le16_at(values, 62)
        &&& r.register_77 == le16_at(values, 72)
        &&& r.derived_ok()
        &&& r.time == time
        &&& r.datalog == datalog
    }

    /// The fields computed at decoding hold their definitions.
    pub open spec fn derived_ok(&self) -> bool {
        &&& self.e_pv_all == self.e_pv_all_1 as u64 + self.e_pv_all_2 as u64 + self.e_pv_all_3 as u64
    }

    /// Decodes the little-endian register values; `time` stamps the decoding.
    pub fn decode(values: &[u8], datalog: Serial, time: i64) -> (r: ReadInput2)
        requires
            values@.len() >= 74,
        ensures
            ReadInput2::decodes(values@, datalog, time, r),
    {
        let e_pv_all_1 = read_u32_le(values, 0);
        let e_pv_all_2 = read_u32_le(values, 4);
        let e_pv_all_3 = read_u32_le(values, 8);
        let e_inv_all = read_u32_le(values, 12);
        let e_rec_all = read_u32_le(values, 16);
        let e_chg_all = read_u32_le(values, 20);
        let e_dischg_all = read_u32_le(values, 24);
        let e_eps_all = read_u32_le(values, 28);
        let e_to_grid_all = read_u32_le(values, 32);
        let e_to_user_all = read_u32_le(values, 36);
        let fault_code = read_u32_le(values, 40);
        let warning_code = read_u32_le(values, 44);
        let t_inner = read_i16_le(values, 48);
        let t_rad_1 = read_i16_le(values, 50);
        let t_rad_2 = read_i16_le(values, 52);
        let t_bat = read_i16_le(values, 54);
        let runtime = read_u32_le(values, 58);
        let register_71 = read_u16_le(values, 62);
        let register_77 = read_u16_le(values, 72);
        let e_pv_all = e_pv_all_1 as u64 + e_pv_all_2 as u64 + e_pv_all_3 as u64;
        ReadInput2 {
            e_pv_all,
            e_pv_all_1,
            e_pv_all_2,
            e_pv_all_3,
            e_inv_all,
            e_rec_all,
            e_chg_all,
            e_dischg_all,
            e_eps_all,
            e_to_grid_all,
            e_to_user_all,
            fault_code,
            warning_code,
            t_inner,
            t_rad_1,
            t_rad_2,
            t_bat,
            runtime,
            register_71,
            register_77,
            time,
            datalog,
        }
    }

    pub open spec fn spec_fields_0(&self) -> Seq<Field> {
        seq![
            Field { name: "e_pv_all", value: FieldValue::Tenths(self.e_pv_all as i64), kind: FieldKind::Plain },
            Field { name: "e_pv_all_1", value: FieldValue::Tenths(self.e_pv_all_1 as i64), kind: FieldKind::Plain },
            Field { name: "e_pv_all_2", value: FieldValue::Tenths(self.e_pv_all_2 as i64), kind: FieldKind::Plain },
            Field { name: "e_pv_all_3", value: FieldValue::Tenths(self.e_pv_all_3 as i64), kind: FieldKind::Plain },
            Field { name: "e_inv_all", value: FieldValue::Tenths(self.e_inv_all as i64), kind: FieldKind::Plain },
            Field { name: "e_rec_all", value: FieldValue::Tenths(self.e_rec_all as i64), kind: FieldKind::Plain },
            Field { name: "e_chg_all", value: FieldValue::Tenths(self.e_chg_all as i64), kind: FieldKind::Plain },
            Field { name: "e_dischg_all", value: FieldValue::Tenths(self.e_dischg_all as i64), kind: FieldKind::Plain },
        ]
    }

    fn fields_0(&self) -> (r: Vec<Field>)
        ensures
            r@ == self.spec_fields_0(),
    {
        let mut r: Vec<Field> = Vec::new();
        r.push(Field { name: "e_pv_all", value: FieldValue::Tenths(self.e_pv_all as i64), kind: FieldKind::Plain });
        r.push(Field { name: "e_pv_all_1", value: FieldValue::Tenths(self.e_pv_all_1 as i64), kind: FieldKind::Plain });
        r.push(Field { name: "e_pv_all_2", value: FieldValue::Tenths(self.e_pv_all_2 as i64), kind: FieldKind::Plain });
        r.push(Field { name: "e_pv_all_3", value: FieldValue::Tenths(self.e_pv_all_3 as i64), kind: FieldKind::Plain });
        r.push(Field { name: "e_inv_all", value: FieldValue::Tenths(self.e_inv_all as i64), kind: FieldKind::Plain });
        r.push(Field { name: "e_rec_all", value: FieldValue::Tenths(self.e_rec_all as i64), kind: FieldKind::Plain });
        r.push(Field { name: "e_chg_all", value: FieldValue::Tenths(self.e_chg_all as i64), kind: FieldKind::Plain });
        r.push(Field { name: "e_dischg_all", value: FieldValue::Tenths(self.e_dischg_all as i64), kind: FieldKind::Plain });
        assert(r@ =~= self.spec_fields_0());
        r
    }

    pub open spec fn spec_fields_1(&self) -> Seq<Field> {
        seq![
            Field { name: "e_eps_all", value: FieldValue::Tenths(self.e_eps_all as i64), kind: FieldKind::Plain },
            Field { name: "e_to_grid_all", value: FieldValue::Tenths(self.e_to_grid_all as i64), kind: FieldKind::Plain },
            Field { name: "e_to_user_all", value: FieldValue::Tenths(self.e_to_user_all as i64), kind: FieldKind::Plain },
            Field { name: "fault_code", value: FieldValue::Int(self.fault_code as i64), kind: FieldKind::FaultCode(self.fault_code) },
            Field { name: "warning_code", value: FieldValue::Int(self.warning_code as i64), kind: FieldKind::WarningCode(self.warning_code) },
            Field { name: "t_inner", value: FieldValue::Int(self.t_inner as i64), kind: FieldKind::Plain },
            Field { name: "t_rad_1", value: FieldValue::Int(self.t_rad_1 as i64), kind: FieldKind::Plain },
            Field { name: "t_rad_2", value: FieldValue::Int(self.t_rad_2 as i64), kind: FieldKind::Plain },
        ]
    }

    fn fields_1(&self) -> (r: Vec<Field>)
        ensures
            r@ == self.spec_fields_1(),
    {
        let mut r: Vec<Field> = Vec::new();
        r.push(Field { name: "e_eps_all", value: FieldValue::Tenths(self.e_eps_all as i64), kind: FieldKind::Plain });
        r.push(Field { name: "e_to_grid_all", value: FieldValue::Tenths(self.e_to_grid_all as i64), kind: FieldKind::Plain });
        r.push(Field { name: "e_to_user_all", value: FieldValue::Tenths(self.e_to_user_all as i64), kind: FieldKind::Plain });
        r.push(Field { name: "fault_code", value: FieldValue::Int(self.fault_code as i64), kind: FieldKind::FaultCode(self.fault_code) });
        r.push(Field { name: "warning_code", value: FieldValue::Int(self.warning_code as i64), kind: FieldKind::WarningCode(self.warning_code) });
        r.push(Field { name: "t_inner", value: FieldValue::Int(self.t_inner as i64), kind: FieldKind::Plain });
        r.push(Field { name: "t_rad_1", value: FieldValue::Int(self.t_rad_1 as i64), kind: FieldKind::Plain });
        r.push(Field { name: "t_rad_2", value: FieldValue::Int(self.t_rad_2 as i64), kind: FieldKind::Plain });
        assert(r@ =~= self.spec_fields_1());
        r
    }

    pub open spec fn spec_fields_2(&self) -> Seq<Field> {
        seq![
            Field { name: "t_bat", value: FieldValue::Int(self.t_bat as i64), kind: FieldKind::Plain },
            Field { name: "runtime", value: FieldValue::Int(self.runtime as i64), kind: FieldKind::Plain },
            Field { name: "register_71", value: FieldValue::Int(self.register_71 as i64), kind: FieldKind::Bits71(self.register_71) },
            Field { name: "register_77", value: FieldValue::Int(self.register_77 as i64), kind: FieldKind::Bits77(self.register_77) },
            Field { name: "time", value: FieldValue::Int(self.time as i64), kind: FieldKind::Plain },
        ]
    }

    fn fields_2(&self) -> (r: Vec<Field>)
        ensures
            r@ == self.spec_fields_2(),
    {
        let mut r: Vec<Field> = Vec::new();
        r.push(Field { name: "t_bat", value: FieldValue::Int(self.t_bat as i64), kind: FieldKind::Plain });
        r.push(Field { name: "runtime", value: FieldValue::Int(self.runtime as i64), kind: FieldKind::Plain });
        r.push(Field { name: "register_71", value: FieldValue::Int(self.register_71 as i64), kind: FieldKind::Bits71(self.register_71) });
        r.push(Field { name: "register_77", value: FieldValue::Int(self.register_77 as i64), kind: FieldKind::Bits77(self.register_77) });
        r.push(Field { name: "time", value: FieldValue::Int(self.time as i64), kind: FieldKind::Plain });
        assert(r@ =~= self.spec_fields_2());
        r
    }

    /// The fields in declaration order, the datalog aside.
    pub open spec fn spec_fields(&self) -> Seq<Field> {
        self.spec_fields_0()
            + self.spec_fields_1()
            + self.spec_fields_2()
    }

    pub fn fields(&self) -> (r: Vec<Field>)
        ensures
            r@ == self.spec_fields(),
    {
        let mut r = self.fields_0();
        let mut c = self.fields_1();
        r.append(&mut c);
        let mut c = self.fields_2();
        r.append(&mut c);
        r
    }

    /// The snapshot as one flat JSON object.
    pub fn json(&self) -> (r: String)
        ensures
            r@ == snapshot_json(self.spec_fields(), self.datalog@),
    {
        fields_json(&self.fields(), &self.datalog)
    }
}

/// The decoding of input registers 80 to 119.
#[derive(Clone, Copy, Debug, PartialEq, Eq)]
pub struct ReadInput3 {
    pub max_chg_curr: u16,
    pub max_dischg_curr: u16,
    pub charge_volt_ref: u16,
    pub dischg_cut_volt: u16,
    pub bat_status_0: u16,
    pub bat_status_1: u16,
    pub bat_status_2: u16,
    pub bat_status_3: u16,
    pub bat_status_4: u16,
    pub bat_status_5: u16,
    pub bat_status_6: u16,
    pub bat_status_7: u16,
    pub bat_status_8: u16,
    pub bat_status_9: u16,
    pub bat_status_inv: u16,
    pub bat_count: u16,
    pub bat_capacity: u16,
    pub bat_current: u16,
    pub bms_event_1: u16,
    pub bms_event_2: u16,
    pub max_cell_voltage: u16,
    pub min_cell_voltage: u16,
    pub max_cell_temp: u16,
    pub min_cell_temp: u16,
    pub bms_fw_update_state: u16,
    pub cycle_count: u16,
    pub vbat_inv: u16,
    pub t1_temp: u16,
    pub register_113: u16,
    pub p_on_grid_load: u16,
    pub time: i64,
    pub datalog: Serial,
}

impl ReadInput3 {
    /// How many value bytes a decoding reads.
    pub const SIZE: usize = 70;

    /// Whether `r` is the decoding of `values`, stamped with `datalog` and `time`.
    pub open spec fn decodes(values: Seq<u8>, datalog: Serial, time: i64, r: ReadInput3) -> bool {
        &&& r.max_chg_curr == le16_at(values, 2)
        &&& r.max_dischg_curr == le16_at(values, 4)
        &&& r.charge_volt_ref == le16_at(values, 6)
        &&& r.dischg_cut_volt == le16_at(values, 8)
        &&& r.bat_status_0 == le16_at(values, 10)
        &&& r.bat_status_1 == le16_at(values, 12)
        &&& r.bat_status_2 == le16_at(values, 14)
        &&& r.bat_status_3 == le16_at(values, 16)
        &&& r.bat_status_4 == le16_at(values, 18)
        &&& r.bat_status_5 == le16_at(values, 20)
        &&& r.bat_status_6 == le16_at(values, 22)
        &&& r.bat_status_7 == le16_at(values, 24)
        &&& r.bat_status_8 == le16_at(values, 26)
        &&& r.bat_status_9 == le16_at(values, 28)
        &&& r.bat_status_inv == le16_at(values, 30)
        &&& r.bat_count == le16_at(values, 32)
        &&& r.bat_capacity == le16_at(values, 34)
        &&& r.bat_current == le16_at(values, 36)
        &&& r.bms_event_1 == le16_at(values, 38)
        &&& r.bms_event_2 == le16_at(values, 40)
        &&& r.max_cell_voltage == le16_at(values, 42)
        &&& r.min_cell_voltage == le16_at(values, 44)
        &&& r.max_cell_temp == le16_at(values, 46)
        &&& r.min_cell_temp == le16_at(values, 48)
        &&& r.bms_fw_update_state == le16_at(values, 50)
        &&& r.cycle_count == le16_at(values, 52)
        &&& r.vbat_inv == le16_at(values, 54)
        &&& r.t1_temp == le16_at(values, 56)
        &&& r.register_113 == le16_at(values, 66)
        &&& r.p_on_grid_load == le16_at(values, 68)
        &&& r.derived_ok()
        &&& r.time == time
        &&& r.datalog == datalog
    }

    /// The fields computed at decoding hold their definitions.
    pub open spec fn derived_ok(&self) -> bool {
        &&& true
    }

    /// Decodes the little-endian register values; `time` stamps the decoding.
    pub fn decode(values: &[u8], datalog: Serial, time: i64) -> (r: ReadInput3)
        requires
            values@.len() >= 70,
        ensures
            ReadInput3::decodes(values@, datalog, time, r),
    {
        let max_chg_curr = read_u16_le(values, 2);
        let max_dischg_curr = read_u16_le(values, 4);
        let charge_volt_ref = read_u16_le(values, 6);
        let dischg_cut_volt = read_u16_le(values, 8);
        let bat_status_0 = read_u16_le(values, 10);
        let bat_status_1 = read_u16_le(values, 12);
        let bat_status_2 = read_u16_le(values, 14);
        let bat_status_3 = read_u16_le(values, 16);
        let bat_status_4 = read_u16_le(values, 18);
        let bat_status_5 = read_u16_le(values, 20);
        let bat_status_6 = read_u16_le(values, 22);
        let bat_status_7 = read_u16_le(values, 24);
        let bat_status_8 = read_u16_le(values, 26);
        let bat_status_9 = read_u16_le(values, 28);
        let bat_status_inv = read_u16_le(values, 30);
        let bat_count = read_u16_le(values, 32);
        let bat_capacity = read_u16_le(values, 34);
        let bat_current = read_u16_le(values, 36);
        let bms_event_1 = read_u16_le(values, 38);
        let bms_event_2 = read_u16_le(values, 40);
        let max_cell_voltage = read_u16_le(values, 42);
        let min_cell_voltage = read_u16_le(values, 44);
        let max_cell_temp = read_u16_le(values, 46);
        let min_cell_temp = read_u16_le(values, 48);
        let bms_fw_update_state = read_u16_le(values, 50);
        let cycle_count = read_u16_le(values, 52);
        let vbat_inv = read_u16_le(values, 54);
        let t1_temp = read_u16_le(values, 56);
        let register_113 = read_u16_le(values, 66);
        let p_on_grid_load = read_u16_le(values, 68);
        ReadInput3 {
            max_chg_curr,
            max_dischg_curr,
            charge_volt_ref,
            dischg_cut_volt,
            bat_status_0,
            bat_status_1,
            bat_status_2,
            bat_status_3,
            bat_status_4,
            bat_status_5,
            bat_status_6,
            bat_status_7,
            bat_status_8,
            bat_status_9,
            bat_status_inv,
            bat_count,
            bat_capacity,
            bat_current,
            bms_event_1,
            bms_event_2,
            max_cell_voltage,
            min_cell_voltage,
            max_cell_temp,
            min_cell_temp,
            bms_fw_update_state,
            cycle_count,
            vbat_inv,
            t1_temp,
            register_113,
            p_on_grid_load,
            time,
            datalog,
        }
    }

    pub open spec fn spec_fields_0(&self) -> Seq<Field> {
        seq![
            Field { name: "max_chg_curr", value: FieldValue::Tenths(self.max_chg_curr as i64), kind: FieldKind::Plain },
            Field { name: "max_dischg_curr", value: FieldValue::Tenths(self.max_dischg_curr as i64), kind: FieldKind::Plain },
            Field { name: "charge_volt_ref", value: FieldValue::Tenths(self.charge_volt_ref as i64), kind: FieldKind::Plain },
            Field { name: "dischg_cut_volt", value: FieldValue::Tenths(self.dischg_cut_volt as i64), kind: FieldKind::Plain },
            Field { name: "bat_status_0", value: FieldValue::Int(self.bat_status_0 as i64), kind: FieldKind::Plain },
            Field { name: "bat_status_1", value: FieldValue::Int(self.bat_status_1 as i64), kind: FieldKind::Plain },
            Field { name: "bat_status_2", value: FieldValue::Int(self.bat_status_2 as i64), kind: FieldKind::Plain },
            Field { name: "bat_status_3", value: FieldValue::Int(self.bat_status_3 as i64), kind: FieldKind::Plain },
        ]
    }

    fn fields_0(&self) -> (r: Vec<Field>)
        ensures
            r@ == self.spec_fields_0(),
    {
        let mut r: Vec<Field> = Vec::new();
        r.push(Field { name: "max_chg_curr", value: FieldValue::Tenths(self.max_chg_curr as i64), kind: FieldKind::Plain });
        r.push(Field { name: "max_dischg_curr", value: FieldValue::Tenths(self.max_dischg_curr as i64), kind: FieldKind::Plain });
        r.push(Field { name: "charge_volt_ref", value: FieldValue::Tenths(self.charge_volt_ref as i64), kind: FieldKind::Plain });
        r.push(Field { name: "dischg_cut_volt", value: FieldValue::Tenths(self.dischg_cut_volt as i64), kind: FieldKind::Plain });
        r.push(Field { name: "bat_status_0", value: FieldValue::Int(self.bat_status_0 as i64), kind: FieldKind::Plain });
        r.push(Field { name: "bat_status_1", value: FieldValue::Int(self.bat_status_1 as i64), kind: FieldKind::Plain });
        r.push(Field { name: "bat_status_2", value: FieldValue::Int(self.bat_status_2 as i64), kind: FieldKind::Plain });
        r.push(Field { name: "bat_status_3", value: FieldValue::Int(self.bat_status_3 as i64), kind: FieldKind::Plain });
        assert(r@ =~= self.spec_fields_0());
        r
    }

    pub open spec fn spec_fields_1(&self) -> Seq<Field> {
        seq![
            Field { name: "bat_status_4", value: FieldValue::Int(self.bat_status_4 as i64), kind: FieldKind::Plain },
            Field { name: "bat_status_5", value: FieldValue::Int(self.bat_status_5 as i64), kind: FieldKind::Plain },
            Field { name: "bat_status_6", value: FieldValue::Int(self.bat_status_6 as i64), kind: FieldKind::Plain },
            Field { name: "bat_status_7", value: FieldValue::Int(self.bat_status_7 as i64), kind: FieldKind::Plain },
            Field { name: "bat_status_8", value: FieldValue::Int(self.bat_status_8 as i64), kind: FieldKind::Plain },
            Field { name: "bat_status_9", value: FieldValue::Int(self.bat_status_9 as i64), kind: FieldKind::Plain },
            Field { name: "bat_status_inv", value: FieldValue::Int(self.bat_status_inv as i64), kind: FieldKind::Plain },
            Field { name: "bat_count", value: FieldValue::Int(self.bat_count as i64), kind: FieldKind::Plain },
        ]
    }

    fn fields_1(&self) -> (r: Vec<Field>)
        ensures
            r@ == self.spec_fields_1(),
    {
        let mut r: Vec<Field> = Vec::new();
        r.push(Field { name: "bat_status_4", value: FieldValue::Int(self.bat_status_4 as i64), kind: FieldKind::Plain });
        r.push(Field { name: "bat_status_5", value: FieldValue::Int(self.bat_status_5 as i64), kind: FieldKind::Plain });
        r.push(Field { name: "bat_status_6", value: FieldValue::Int(self.bat_status_6 as i64), kind: FieldKind::Plain });
        r.push(Field { name: "bat_status_7", value: FieldValue::Int(self.bat_status_7 as i64), kind: FieldKind::Plain });
        r.push(Field { name: "bat_status_8", value: FieldValue::Int(self.bat_status_8 as i64), kind: FieldKind::Plain });
        r.push(Field { name: "bat_status_9", value: FieldValue::Int(self.bat_status_9 as i64), kind: FieldKind::Plain });
        r.push(Field { name: "bat_status_inv", value: FieldValue::Int(self.bat_status_inv as i64), kind: FieldKind::Plain });
        r.push(Field { name: "bat_count", value: FieldValue::Int(self.bat_count as i64), kind: FieldKind::Plain });
        assert(r@ =~= self.spec_fields_1());
        r
    }

    pub open spec fn spec_fields_2(&self) -> Seq<Field> {
        seq![
            Field { name: "bat_capacity", value: FieldValue::Int(self.bat_capacity as i64), kind: FieldKind::Plain },
            Field { name: "bat_current", value: FieldValue::Hundredths(self.bat_current as i64), kind: FieldKind::Plain },
            Field { name: "bms_event_1", value: FieldValue::Int(self.bms_event_1 as i64), kind: FieldKind::Plain },
            Field { name: "bms_event_2", value: FieldValue::Int(self.bms_event_2 as i64), kind: FieldKind::Plain },
            Field { name: "max_cell_voltage", value: FieldValue::Thousandths(self.max_cell_voltage as i64), kind: FieldKind::Plain },
            Field { name: "min_cell_voltage", value: FieldValue::Thousandths(self.min_cell_voltage as i64), kind: FieldKind::Plain },
            Field { name: "max_cell_temp", value: FieldValue::Tenths(self.max_cell_temp as i64), kind: FieldKind::Plain },
            Field { name: "min_cell_temp", value: FieldValue::Tenths(self.min_cell_temp as i64), kind: FieldKind::Plain },
        ]
    }

    fn fields_2(&self) -> (r: Vec<Field>)
        ensures
            r@ == self.spec_fields_2(),
    {
        let mut r: Vec<Field> = Vec::new();
        r.push(Field { name: "bat_capacity", value: FieldValue::Int(self.bat_capacity as i64), kind: FieldKind::Plain });
        r.push(Field { name: "bat_current", value: FieldValue::Hundredths(self.bat_current as i64), kind: FieldKind::Plain });
        r.push(Field { name: "bms_event_1", value: FieldValue::Int(self.bms_event_1 as i64), kind: FieldKind::Plain });
        r.push(Field { name: "bms_event_2", value: FieldValue::Int(self.bms_event_2 as i64), kind: FieldKind::Plain });
        r.push(Field { name: "max_cell_voltage", value: FieldValue::Thousandths(self.max_cell_voltage as i64), kind: FieldKind::Plain });
        r.push(Field { name: "min_cell_voltage", value: FieldValue::Thousandths(self.min_cell_voltage as i64), kind: FieldKind::Plain });
        r.push(Field { name: "max_cell_temp", value: FieldValue::Tenths(self.max_cell_temp as i64), kind: FieldKind::Plain });
        r.push(Field { name: "min_cell_temp", value: FieldValue::Tenths(self.min_cell_temp as i64), kind: FieldKind::Plain });
        assert(r@ =~= self.spec_fields_2());
        r
    }

    pub open spec fn spec_fields_3(&self) -> Seq<Field> {
        seq![
            Field { name: "bms_fw_update_state", value: FieldValue::Int(self.bms_fw_update_state as i64), kind: FieldKind::Plain },
            Field { name: "cycle_count", value: FieldValue::Int(self.cycle_count as i64), kind: FieldKind::Plain },
            Field { name: "vbat_inv", value: FieldValue::Tenths(self.vbat_inv as i64), kind: FieldKind::Plain },
            Field { name: "t1_temp", value: FieldValue::Tenths(self.t1_temp as i64), kind: FieldKind::Plain },
            Field { name: "register_113", value: FieldValue::Int(self.register_113 as i64), kind: FieldKind::Bits113(self.register_113) },
            Field { name: "p_on_grid_load", value: FieldValue::Int(self.p_on_grid_load as i64), kind: FieldKind::Plain },
            Field { name: "time", value: FieldValue::Int(self.time as i64), kind: FieldKind::Plain },
        ]
    }

    fn fields_3(&self) -> (r: Vec<Field>)
        ensures
            r@ == self.spec_fields_3(),
    {
        let mut r: Vec<Field> = Vec::new();
        r.push(Field { name: "bms_fw_update_state", value: FieldValue::Int(self.bms_fw_update_state as i64), kind: FieldKind::Plain });
        r.push(Field { name: "cycle_count", value: FieldValue::Int(self.cycle_count as i64), kind: FieldKind::Plain });
        r.push(Field { name: "vbat_inv", value: FieldValue::Tenths(self.vbat_inv as i64), kind: FieldKind::Plain });
        r.push(Field { name: "t1_temp", value: FieldValue::Tenths(self.t1_temp as i64), kind: FieldKind::Plain });
        r.push(Field { name: "register_113", value: FieldValue::Int(self.register_113 as i64), kind: FieldKind::Bits113(self.register_113) });
        r.push(Field { name: "p_on_grid_load", value: FieldValue::Int(self.p_on_grid_load as i64), kind: FieldKind::Plain });
        r.push(Field { name: "time", value: FieldValue::Int(self.time as i64), kind: FieldKind::Plain });
        assert(r@ =~= self.spec_fields_3());
        r
    }

    /// The fields in declaration order, the datalog aside.
    pub open spec fn spec_fields(&self) -> Seq<Field> {
        self.spec_fields_0()
            + self.spec_fields_1()
            + self.spec_fields_2()
            + self.spec_fields_3()
    }

    pub fn fields(&self) -> (r: Vec<Field>)
        ensures
            r@ == self.spec_fields(),
    {
        let mut r = self.fields_0();
        let mut c = self.fields_1();
        r.append(&mut c);
        let mut c = self.fields_2();
        r.append(&mut c);
        let mut c = self.fields_3();
        r.append(&mut c);
        r
    }

    /// The snapshot as one flat JSON object.
    pub fn json(&self) -> (r: String)
        ensures
            r@ == snapshot_json(self.spec_fields(), self.datalog@),
    {
        fields_json(&self.fields(), &self.datalog)
    }
}

} // verus!
