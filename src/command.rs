use vstd::prelude::*;
use vstd::string::StrSliceExecFns;
use vstd::string::StringExecFns;

use crate::codec::u16_le;
use crate::codec::DeviceFunction;
use crate::codec::Packet;
use crate::codec::TranslatedData;
use crate::codec::push_u16_le;
use crate::register::Register21Bit;
use crate::serial::Serial;

verus! {

/// What an inbound command asks of the inverter.
#[derive(Clone, Copy, Debug, PartialEq, Eq, Structural)]
pub enum Command {
    /// Read `register`, then write it back with the bits of `mask` set or cleared.
    ReadModifyWrite { register: u16, mask: u16, set: bool },
    /// Write `value` to `register`.
    WriteSingle { register: u16, value: u16 },
    /// Write the start of a time slot to `register` and its end to the next register.
    TimeSlot { register: u16, start: u16, end: u16 },
}

/// Why an inbound command was refused.
#[derive(Clone, Copy, Debug, PartialEq, Eq, Structural)]
pub enum CommandError {
    UnknownCommand,
    BadPayload,
}

/// The value of a decimal numeral, if `s` is one.
pub open spec fn decimal_value(s: Seq<char>) -> Option<nat>
    decreases s.len(),
{
    if s.len() == 0 {
        None
    } else {
        let c = s.last();
        let d = (c as u32 - '0' as u32) as nat;
        if !('0' <= c && c <= '9') {
            None
        } else if s.len() == 1 {
            Some(d)
        } else {
            match decimal_value(s.drop_last()) {
                Some(v) => Some(10 * v + d),
                None => None,
            }
        }
    }
}

/// The 16-bit value of a decimal numeral, if `s` is one below 65536.
pub open spec fn u16_value(s: Seq<char>) -> Option<u16> {
    match decimal_value(s) {
        Some(v) => if v < 0x10000 {
            Some(v as u16)
        } else {
            None
        },
        None => None,
    }
}

/// Parses a decimal numeral below 65536.
pub fn parse_u16(s: &[char]) -> (r: Option<u16>)
    ensures
        r == u16_value(s@),
{
    if s.len() == 0 {
        return None;
    }
    let mut v: u32 = 0;
    let mut i: usize = 0;
    while i < s.len()
        invariant
            s@.len() > 0,
            0 <= i <= s@.len(),
            i > 0 ==> decimal_value(s@.subrange(0, i as int)) == Some(v as nat),
            i == 0 ==> v == 0,
            v < 0x10000,
        decreases s@.len() - i,
    {
        let c = s[i];
        assert(s@.subrange(0, i + 1).drop_last() =~= s@.subrange(0, i as int));
        if !('0' <= c && c <= '9') {
            assert(decimal_value(s@.subrange(0, i + 1)) is None);
            proof {
                lemma_prefix_none(s@, i as int + 1);
            }
            return None;
        }
        let d = (c as u32) - ('0' as u32);
        let next = 10 * v + d;
        assert(s@.subrange(0, i + 1).last() == c);
        assert(decimal_value(s@.subrange(0, i + 1)) == Some(next as nat));
        if next >= 0x10000 {
            proof {
                lemma_prefix_large(s@, i as int + 1, next as nat);
            }
            return None;
        }
        v = next;
        i = i + 1;
    }
    assert(s@.subrange(0, s@.len() as int) =~= s@);
    Some(v as u16)
}

/// A numeral with a non-digit in its first `n` characters has no value.
proof fn lemma_prefix_none(s: Seq<char>, n: int)
    requires
        0 < n <= s.len(),
        decimal_value(s.subrange(0, n)) is None,
    ensures
        decimal_value(s) is None,
    decreases s.len() - n,
{
    if n < s.len() {
        assert(s.subrange(0, n + 1).drop_last() =~= s.subrange(0, n));
        lemma_prefix_none(s, n + 1);
    } else {
        assert(s.subrange(0, n) =~= s);
    }
}

/// A numeral whose first `n` characters are worth at least 65536 is worth at least that.
proof fn lemma_prefix_large(s: Seq<char>, n: int, v: nat)
    requires
        0 < n <= s.len(),
        decimal_value(s.subrange(0, n)) == Some(v),
        v >= 0x10000,
    ensures
        u16_value(s) is None,
    decreases s.len() - n,
{
    if n < s.len() {
        assert(s.subrange(0, n + 1).drop_last() =~= s.subrange(0, n));
        match decimal_value(s.subrange(0, n + 1)) {
            Some(w) => lemma_prefix_large(s, n + 1, w),
            None => lemma_prefix_none(s, n + 1),
        }
    } else {
        assert(s.subrange(0, n) =~= s);
    }
}

/// The characters of a string.
pub fn chars_of(s: &str) -> (r: Vec<char>)
    ensures
        r@ == s@,
{
    let n = s.unicode_len();
    let mut r: Vec<char> = Vec::new();
    let mut i: usize = 0;
    while i < n
        invariant
            n == s@.len(),
            0 <= i <= n,
            r@ =~= s@.subrange(0, i as int),
        decreases n - i,
    {
        r.push(s.get_char(i));
        i = i + 1;
    }
    r
}

/// Whether the characters of `s` from `start` on are exactly `lit`.
fn rest_is(s: &Vec<char>, start: usize, lit: &str) -> (r: bool)
    requires
        start <= s@.len(),
    ensures
        r == (s@.subrange(start as int, s@.len() as int) == lit@),
{
    let l = chars_of(lit);
    let sl = s.len();
    if sl - start != l.len() {
        assert(s@.subrange(start as int, s@.len() as int).len() != lit@.len());
        return false;
    }
    let mut i: usize = 0;
    while i < l.len()
        invariant
            l@ == lit@,
            sl == s@.len(),
            start <= s@.len(),
            s@.len() - start == l@.len(),
            0 <= i <= l@.len(),
            forall|j: int| 0 <= j < i ==> s@[start + j] == l@[j],
        decreases l@.len() - i,
    {
        if s[start + i] != l[i] {
            assert(s@.subrange(start as int, s@.len() as int)[i as int] != lit@[i as int]);
            return false;
        }
        i = i + 1;
    }
    assert(s@.subrange(start as int, s@.len() as int) =~= lit@);
    true
}

/// `on` sets the bits, `off` clears them; anything else is refused.
pub open spec fn switch_command(register: u16, mask: u16, payload: Seq<char>) -> Result<
    Command,
    CommandError,
> {
    if payload == "on"@ {
        Ok(Command::ReadModifyWrite { register, mask, set: true })
    } else if payload == "off"@ {
        Ok(Command::ReadModifyWrite { register, mask, set: false })
    } else {
        Err(CommandError::BadPayload)
    }
}

fn make_switch_command(register: u16, mask: u16, payload: &str) -> (r: Result<Command, CommandError>)
    ensures
        r == switch_command(register, mask, payload@),
{
    let p = chars_of(payload);
    if rest_is(&p, 0, "on") {
        assert(p@.subrange(0, p@.len() as int) =~= p@);
        Ok(Command::ReadModifyWrite { register, mask, set: true })
    } else if rest_is(&p, 0, "off") {
        assert(p@.subrange(0, p@.len() as int) =~= p@);
        Ok(Command::ReadModifyWrite { register, mask, set: false })
    } else {
        assert(p@.subrange(0, p@.len() as int) =~= p@);
        Err(CommandError::BadPayload)
    }
}

/// The first register of time slot `n` (1 to 3) of each schedule: AC charge from 68,
/// AC first from 152, charge priority from 76, forced discharge from 84; a slot holds
/// its start and, in the next register, its end.
pub open spec fn slot_register(name: Seq<char>) -> Option<u16> {
    if name == "ac_charge/1"@ {
        Some(68u16)
    } else if name == "ac_charge/2"@ {
        Some(70u16)
    } else if name == "ac_charge/3"@ {
        Some(72u16)
    } else if name == "ac_first/1"@ {
        Some(152u16)
    } else if name == "ac_first/2"@ {
        Some(154u16)
    } else if name == "ac_first/3"@ {
        Some(156u16)
    } else if name == "charge_priority/1"@ {
        Some(76u16)
    } else if name == "charge_priority/2"@ {
        Some(78u16)
    } else if name == "charge_priority/3"@ {
        Some(80u16)
    } else if name == "forced_discharge/1"@ {
        Some(84u16)
    } else if name == "forced_discharge/2"@ {
        Some(86u16)
    } else if name == "forced_discharge/3"@ {
        Some(88u16)
    } else {
        None
    }
}

fn find_slot_register(t: &Vec<char>, start: usize) -> (r: Option<u16>)
    requires
        start <= t@.len(),
    ensures
        r == slot_register(t@.subrange(start as int, t@.len() as int)),
{
    if rest_is(t, start, "ac_charge/1") {
        Some(68)
    } else if rest_is(t, start, "ac_charge/2") {
        Some(70)
    } else if rest_is(t, start, "ac_charge/3") {
        Some(72)
    } else if rest_is(t, start, "ac_first/1") {
        Some(152)
    } else if rest_is(t, start, "ac_first/2") {
        Some(154)
    } else if rest_is(t, start, "ac_first/3") {
        Some(156)
    } else if rest_is(t, start, "charge_priority/1") {
        Some(76)
    } else if rest_is(t, start, "charge_priority/2") {
        Some(78)
    } else if rest_is(t, start, "charge_priority/3") {
        Some(80)
    } else if rest_is(t, start, "forced_discharge/1") {
        Some(84)
    } else if rest_is(t, start, "forced_discharge/2") {
        Some(86)
    } else if rest_is(t, start, "forced_discharge/3") {
        Some(88)
    } else {
        None
    }
}

/// A time `H:MM` or `HH:MM` as a register value: the hour in the low byte, the minute
/// in the high byte.
pub open spec fn time_value(s: Seq<char>) -> Option<u16> {
    let colon: int = if s.len() == 5 { 2 } else { 1 };
    if (s.len() == 5 || s.len() == 4) && s[colon] == ':' && s.len() - colon == 3 {
        match (u16_value(s.subrange(0, colon)), u16_value(s.subrange(colon + 1, s.len() as int))) {
            (Some(h), Some(m)) => if h < 24 && m < 60 {
                Some((h + 256 * m) as u16)
            } else {
                None
            },
            _ => None,
        }
    } else {
        None
    }
}

/// A time slot `start-end`, each a time as `time_value` reads it.
pub open spec fn slot_value(s: Seq<char>) -> Option<(u16, u16)> {
    let dash: int = if s.len() > 4 && s[4] == '-' { 4 } else { 5 };
    if s.len() > dash && s[dash] == '-' {
        match (time_value(s.subrange(0, dash)), time_value(s.subrange(dash + 1, s.len() as int))) {
            (Some(a), Some(b)) => Some((a, b)),
            _ => None,
        }
    } else {
        None
    }
}

fn parse_time(s: &[char]) -> (r: Option<u16>)
    ensures
        r == time_value(s@),
{
    let n = s.len();
    let colon: usize = if n == 5 { 2 } else { 1 };
    if (n == 5 || n == 4) && s[colon] == ':' && n - colon == 3 {
        let h = parse_u16(vstd::slice::slice_subrange(s, 0, colon));
        let m = parse_u16(vstd::slice::slice_subrange(s, colon + 1, n));
        match (h, m) {
            (Some(h), Some(m)) => if h < 24 && m < 60 {
                Some(h + 256 * m)
            } else {
                None
            },
            _ => None,
        }
    } else {
        None
    }
}

fn parse_slot(s: &[char]) -> (r: Option<(u16, u16)>)
    ensures
        r == slot_value(s@),
{
    let n = s.len();
    let dash: usize = if n > 4 && s[4] == '-' { 4 } else { 5 };
    if n > dash && s[dash] == '-' {
        let a = parse_time(vstd::slice::slice_subrange(s, 0, dash));
        let b = parse_time(vstd::slice::slice_subrange(s, dash + 1, n));
        match (a, b) {
            (Some(a), Some(b)) => Some((a, b)),
            _ => None,
        }
    } else {
        None
    }
}

/// `{namespace}/cmd/{datalog}/set/`, the prefix of every command topic.
pub open spec fn command_prefix(namespace: Seq<char>, datalog: Seq<u8>) -> Seq<char> {
    namespace + "/cmd/"@ + Serial::text_of(datalog) + "/set/"@
}

/// What a command topic under the prefix asks: `ac_charge`, `charge_priority` and
/// `forced_discharge` switch bits 7, 11 and 10 of holding register 21; `hold/{register}`
/// writes the payload's number to that register; a slot such as `ac_charge/1` writes
/// the payload's time range to the slot's two registers.
pub open spec fn command_of(name: Seq<char>, payload: Seq<char>) -> Result<Command, CommandError> {
    if name == "ac_charge"@ {
        switch_command(21, Register21Bit::AcChargeEnable.spec_mask(), payload)
    } else if name == "charge_priority"@ {
        switch_command(21, Register21Bit::ChargePriorityEnable.spec_mask(), payload)
    } else if name == "forced_discharge"@ {
        switch_command(21, Register21Bit::ForcedDischargeEnable.spec_mask(), payload)
    } else if name.len() > 5 && name.subrange(0, 5) == "hold/"@ && u16_value(
        name.subrange(5, name.len() as int),
    ) is Some {
        match u16_value(payload) {
            Some(v) => Ok(
                Command::WriteSingle {
                    register: u16_value(name.subrange(5, name.len() as int))->0,
                    value: v,
                },
            ),
            None => Err(CommandError::BadPayload),
        }
    } else if slot_register(name) is Some {
        match slot_value(payload) {
            Some((start, end)) => Ok(
                Command::TimeSlot { register: slot_register(name)->0, start, end },
            ),
            None => Err(CommandError::BadPayload),
        }
    } else {
        Err(CommandError::UnknownCommand)
    }
}

/// The command that a topic and payload ask for.
pub open spec fn spec_parse_command(
    namespace: Seq<char>,
    datalog: Seq<u8>,
    topic: Seq<char>,
    payload: Seq<char>,
) -> Result<Command, CommandError> {
    let prefix = command_prefix(namespace, datalog);
    if topic.len() >= prefix.len() && topic.subrange(0, prefix.len() as int) == prefix {
        command_of(topic.subrange(prefix.len() as int, topic.len() as int), payload)
    } else {
        Err(CommandError::UnknownCommand)
    }
}

/// Routes an inbound command topic and payload to a command.
pub fn parse_command(namespace: &str, datalog: &Serial, topic: &str, payload: &str) -> (r: Result<
    Command,
    CommandError,
>)
    ensures
        r == spec_parse_command(namespace@, datalog@, topic@, payload@),
{
    let mut prefix = String::from_str(namespace);
    prefix.append("/cmd/");
    prefix.append(datalog.to_text().as_str());
    prefix.append("/set/");
    let p = chars_of(prefix.as_str());
    assert(p@ == command_prefix(namespace@, datalog@));
    let t = chars_of(topic);
    if t.len() < p.len() {
        return Err(CommandError::UnknownCommand);
    }
    let mut i: usize = 0;
    while i < p.len()
        invariant
            p@ == command_prefix(namespace@, datalog@),
            t@ == topic@,
            t@.len() >= p@.len(),
            0 <= i <= p@.len(),
            forall|j: int| 0 <= j < i ==> t@[j] == p@[j],
        decreases p@.len() - i,
    {
        if t[i] != p[i] {
            assert(t@.subrange(0, p@.len() as int)[i as int] != p@[i as int]);
            return Err(CommandError::UnknownCommand);
        }
        i = i + 1;
    }
    assert(t@.subrange(0, p@.len() as int) =~= p@);
    let start = p.len();
    let ghost name = t@.subrange(start as int, t@.len() as int);
    if rest_is(&t, start, "ac_charge") {
        make_switch_command(21, Register21Bit::AcChargeEnable.mask(), payload)
    } else if rest_is(&t, start, "charge_priority") {
        make_switch_command(21, Register21Bit::ChargePriorityEnable.mask(), payload)
    } else if rest_is(&t, start, "forced_discharge") {
        make_switch_command(21, Register21Bit::ForcedDischargeEnable.mask(), payload)
    } else {
        let tl = t.len();
        let n = tl - start;
        if n > 5 {
            let mut head: Vec<char> = Vec::new();
            let mut k: usize = 0;
            while k < 5
                invariant
                    tl == t@.len(),
                    start <= t@.len(),
                    n == t@.len() - start,
                    n > 5,
                    0 <= k <= 5,
                    head@ =~= t@.subrange(start as int, start + k),
                decreases 5 - k,
            {
                head.push(t[start + k]);
                k = k + 1;
            }
            let mut tail: Vec<char> = Vec::new();
            let mut k: usize = start + 5;
            while k < t.len()
                invariant
                    start + 5 <= k <= t@.len(),
                    tail@ =~= t@.subrange(start + 5, k as int),
                decreases t@.len() - k,
            {
                tail.push(t[k]);
                k = k + 1;
            }
            assert(name.subrange(0, 5) =~= head@);
            assert(name.subrange(5, name.len() as int) =~= tail@);
            if rest_is(&head, 0, "hold/") {
                assert(head@.subrange(0, 5) =~= head@);
                match parse_u16(tail.as_slice()) {
                    Some(register) => {
                        let pc = chars_of(payload);
                        return match parse_u16(pc.as_slice()) {
                            Some(value) => Ok(Command::WriteSingle { register, value }),
                            None => Err(CommandError::BadPayload),
                        };
                    },
                    None => {},
                }
            } else {
                assert(head@.subrange(0, 5) =~= head@);
            }
        }
        match find_slot_register(&t, start) {
            Some(register) => {
                let pc = chars_of(payload);
                match parse_slot(pc.as_slice()) {
                    Some((a, b)) => Ok(Command::TimeSlot { register, start: a, end: b }),
                    None => Err(CommandError::BadPayload),
                }
            },
            None => Err(CommandError::UnknownCommand),
        }
    }
}

/// The value written back by a read-modify-write: the bits of `mask` set or cleared.
pub open spec fn spec_rmw_value(current: u16, mask: u16, set: bool) -> u16 {
    if set {
        current | mask
    } else {
        current & !mask
    }
}

pub fn rmw_value(current: u16, mask: u16, set: bool) -> (r: u16)
    ensures
        r == spec_rmw_value(current, mask, set),
{
    if set {
        current | mask
    } else {
        current & !mask
    }
}

impl TranslatedData {
    /// A read of `count` holding registers from `register`.
    pub fn read_hold(datalog: Serial, inverter: Serial, register: u16, count: u16) -> (r: Packet)
        ensures
            r matches Packet::TranslatedData(t) && t.datalog == datalog && t.inverter == inverter
                && t.device_function == DeviceFunction::ReadHold && t.register == register
                && t.values@ == u16_le(count),
    {
        let mut values: Vec<u8> = Vec::new();
        push_u16_le(&mut values, count);
        proof {
            assert(values@ =~= u16_le(count));
        }
        Packet::TranslatedData(
            TranslatedData {
                datalog,
                device_function: DeviceFunction::ReadHold,
                inverter,
                register,
                values,
            },
        )
    }

    /// A write of `value` to holding register `register`.
    pub fn write_single(datalog: Serial, inverter: Serial, register: u16, value: u16) -> (r: Packet)
        ensures
            r matches Packet::TranslatedData(t) && t.datalog == datalog && t.inverter == inverter
                && t.device_function == DeviceFunction::WriteSingle && t.register == register
                && t.values@ == u16_le(value),
    {
        let mut values: Vec<u8> = Vec::new();
        push_u16_le(&mut values, value);
        proof {
            assert(values@ =~= u16_le(value));
        }
        Packet::TranslatedData(
            TranslatedData {
                datalog,
                device_function: DeviceFunction::WriteSingle,
                inverter,
                register,
                values,
            },
        )
    }
}

} // verus!
