use vstd::prelude::*;
use vstd::slice::slice_subrange;
use vstd::slice::slice_to_vec;

use crate::serial::Serial;

verus! {

/// Two bytes, low byte first.
pub open spec fn u16_le(v: u16) -> Seq<u8> {
    seq![(v % 256) as u8, (v / 256) as u8]
}

/// The little-endian 16-bit word at `i`.
pub open spec fn le16_at(s: Seq<u8>, i: int) -> u16 {
    (s[i] as int + 256 * (s[i + 1] as int)) as u16
}

/// Reads the little-endian 16-bit word at `i`.
pub fn read_u16_le(s: &[u8], i: usize) -> (r: u16)
    requires
        i + 1 < s@.len(),
    ensures
        r == le16_at(s@, i as int),
{
    (s[i] as u16) + (s[i + 1] as u16) * 256
}

/// Appends a 16-bit word, low byte first.
pub fn push_u16_le(out: &mut Vec<u8>, v: u16)
    ensures
        final(out)@ == old(out)@ + u16_le(v),
{
    let ghost start = out@;
    out.push((v % 256) as u8);
    out.push((v / 256) as u8);
    assert(out@ =~= start + u16_le(v));
}

/// Appends every byte of `s`.
pub fn push_all(out: &mut Vec<u8>, s: &[u8])
    ensures
        final(out)@ == old(out)@ + s@,
{
    let ghost start = out@;
    let mut i: usize = 0;
    while i < s.len()
        invariant
            0 <= i <= s@.len(),
            out@ == start + s@.subrange(0, i as int),
        decreases s@.len() - i,
    {
        out.push(s[i]);
        i = i + 1;
        assert(s@.subrange(0, i as int) =~= s@.subrange(0, i - 1).push(s@[i - 1]));
    }
    assert(s@.subrange(0, s@.len() as int) =~= s@);
}

/// The CRC-16/MODBUS checksum of a byte sequence.
pub uninterp spec fn modbus_crc(data: Seq<u8>) -> u16;

/// Relies on `crc16::State::<crc16::MODBUS>::calculate`: the CRC-16/MODBUS of the bytes.
#[verifier::external_body]
fn checksum(data: &[u8]) -> (r: u16)
    ensures
        r == modbus_crc(data@),
{
    crc16::State::<crc16::MODBUS>::calculate(data)
}

/// The kind of a frame, from its byte at offset 7.
#[derive(Clone, Copy, Debug, PartialEq, Eq, Structural)]
pub enum TcpFunction {
    Heartbeat,
    TranslatedData,
    ReadParam,
    WriteParam,
}

impl TcpFunction {
    pub open spec fn spec_code(self) -> u8 {
        match self {
            TcpFunction::Heartbeat => 0xC1,
            TcpFunction::TranslatedData => 0xC2,
            TcpFunction::ReadParam => 0xC3,
            TcpFunction::WriteParam => 0xC4,
        }
    }

    pub open spec fn spec_from_code(c: u8) -> Option<TcpFunction> {
        if c == 0xC1 {
            Some(TcpFunction::Heartbeat)
        } else if c == 0xC2 {
            Some(TcpFunction::TranslatedData)
        } else if c == 0xC3 {
            Some(TcpFunction::ReadParam)
        } else if c == 0xC4 {
            Some(TcpFunction::WriteParam)
        } else {
            None
        }
    }

    #[verifier::when_used_as_spec(spec_code)]
    pub fn code(self) -> (r: u8)
        ensures
            r == self.spec_code(),
    {
        match self {
            TcpFunction::Heartbeat => 0xC1,
            TcpFunction::TranslatedData => 0xC2,
            TcpFunction::ReadParam => 0xC3,
            TcpFunction::WriteParam => 0xC4,
        }
    }

    #[verifier::when_used_as_spec(spec_from_code)]
    pub fn from_code(c: u8) -> (r: Option<TcpFunction>)
        ensures
            r == TcpFunction::spec_from_code(c),
    {
        if c == 0xC1 {
            Some(TcpFunction::Heartbeat)
        } else if c == 0xC2 {
            Some(TcpFunction::TranslatedData)
        } else if c == 0xC3 {
            Some(TcpFunction::ReadParam)
        } else if c == 0xC4 {
            Some(TcpFunction::WriteParam)
        } else {
            None
        }
    }
}

/// The Modbus-style function carried inside a TranslatedData frame.
#[derive(Clone, Copy, Debug, PartialEq, Eq, Structural)]
pub enum DeviceFunction {
    ReadHold,
    ReadInput,
    WriteSingle,
    WriteMulti,
}

impl DeviceFunction {
    pub open spec fn spec_code(self) -> u8 {
        match self {
            DeviceFunction::ReadHold => 3,
            DeviceFunction::ReadInput => 4,
            DeviceFunction::WriteSingle => 6,
            DeviceFunction::WriteMulti => 16,
        }
    }

    pub open spec fn spec_from_code(c: u8) -> Option<DeviceFunction> {
        if c == 3 {
            Some(DeviceFunction::ReadHold)
        } else if c == 4 {
            Some(DeviceFunction::ReadInput)
        } else if c == 6 {
            Some(DeviceFunction::WriteSingle)
        } else if c == 16 {
            Some(DeviceFunction::WriteMulti)
        } else {
            None
        }
    }

    #[verifier::when_used_as_spec(spec_code)]
    pub fn code(self) -> (r: u8)
        ensures
            r == self.spec_code(),
    {
        match self {
            DeviceFunction::ReadHold => 3,
            DeviceFunction::ReadInput => 4,
            DeviceFunction::WriteSingle => 6,
            DeviceFunction::WriteMulti => 16,
        }
    }

    #[verifier::when_used_as_spec(spec_from_code)]
    pub fn from_code(c: u8) -> (r: Option<DeviceFunction>)
        ensures
            r == DeviceFunction::spec_from_code(c),
    {
        if c == 3 {
            Some(DeviceFunction::ReadHold)
        } else if c == 4 {
            Some(DeviceFunction::ReadInput)
        } else if c == 6 {
            Some(DeviceFunction::WriteSingle)
        } else if c == 16 {
            Some(DeviceFunction::WriteMulti)
        } else {
            None
        }
    }
}

/// Which side wrote a TranslatedData body.
#[derive(Clone, Copy, Debug, PartialEq, Eq, Structural)]
pub enum PacketSource {
    Inverter,
    Client,
}

/// Whether a TranslatedData body holds a length byte before its values.
pub open spec fn spec_has_value_length_byte(
    source: PacketSource,
    protocol: u16,
    device_function: DeviceFunction,
) -> bool {
    let p1 = protocol == 1;
    let psi = source == PacketSource::Inverter;
    match device_function {
        DeviceFunction::ReadHold | DeviceFunction::ReadInput => !p1 && psi,
        DeviceFunction::WriteSingle => false,
        DeviceFunction::WriteMulti => !p1 && !psi,
    }
}

#[verifier::when_used_as_spec(spec_has_value_length_byte)]
pub fn has_value_length_byte(
    source: PacketSource,
    protocol: u16,
    device_function: DeviceFunction,
) -> (r: bool)
    ensures
        r == spec_has_value_length_byte(source, protocol, device_function),
{
    let p1 = protocol == 1;
    let psi = source == PacketSource::Inverter;
    match device_function {
        DeviceFunction::ReadHold | DeviceFunction::ReadInput => !p1 && psi,
        DeviceFunction::WriteSingle => false,
        DeviceFunction::WriteMulti => !p1 && !psi,
    }
}

/// Why a frame was refused.
#[derive(Clone, Copy, Debug, PartialEq, Eq, Structural)]
pub enum WireError {
    TooShort,
    MagicMismatch,
    UnknownFunction,
    LengthMismatch,
    ChecksumError,
    MalformedHeartbeat,
    InvalidSerial,
}

/// A keep-alive from the datalogger.
#[derive(Clone, Copy, Debug, PartialEq, Eq)]
pub struct Heartbeat {
    pub datalog: Serial,
}

/// A Modbus-style request or reply addressed to an inverter.
#[derive(Clone, Debug, PartialEq, Eq)]
pub struct TranslatedData {
    pub datalog: Serial,
    pub device_function: DeviceFunction,
    pub inverter: Serial,
    pub register: u16,
    pub values: Vec<u8>,
}

/// A read of a datalogger parameter.
#[derive(Clone, Debug, PartialEq, Eq)]
pub struct ReadParam {
    pub datalog: Serial,
    pub register: u16,
    pub values: Vec<u8>,
}

/// A write of a datalogger parameter.
#[derive(Clone, Debug, PartialEq, Eq)]
pub struct WriteParam {
    pub datalog: Serial,
    pub register: u16,
    pub values: Vec<u8>,
}

/// One frame of the inverter protocol.
#[derive(Clone, Debug, PartialEq, Eq)]
pub enum Packet {
    Heartbeat(Heartbeat),
    TranslatedData(TranslatedData),
    ReadParam(ReadParam),
    WriteParam(WriteParam),
}

/// The number of two-byte registers that `n` value bytes cover (a last odd byte counts as one).
pub open spec fn pair_count(n: nat) -> nat {
    (n + 1) / 2
}

impl TranslatedData {
    pub open spec fn spec_protocol(&self) -> u16 {
        if self.device_function == DeviceFunction::WriteMulti {
            2
        } else {
            1
        }
    }

    /// The body between the length prefix and the checksum.
    pub open spec fn inner(&self) -> Seq<u8> {
        seq![0u8, self.device_function.spec_code()] + self.inverter@ + u16_le(self.register) + (
        if self.device_function == DeviceFunction::WriteMulti {
            u16_le(pair_count(self.values@.len()) as u16)
        } else {
            Seq::empty()
        }) + (if spec_has_value_length_byte(
            PacketSource::Client,
            self.spec_protocol(),
            self.device_function,
        ) {
            seq![self.values@.len() as u8]
        } else {
            Seq::empty()
        }) + self.values@
    }

    /// A body whose lengths fit the fields that announce them: the whole frame in the
    /// 16-bit frame length, and for WriteMulti the values in their one-byte length.
    pub open spec fn buildable(&self) -> bool {
        &&& self.values@.len() + 40 <= 0xFFFF
        &&& self.device_function == DeviceFunction::WriteMulti ==> self.values@.len() <= 255
    }

    /// The body: the length of what follows the prefix, the Modbus body, then its CRC.
    pub open spec fn spec_bytes(&self) -> Seq<u8> {
        u16_le((self.inner().len() + 2) as u16) + self.inner() + u16_le(modbus_crc(self.inner()))
    }

    #[verifier::when_used_as_spec(spec_protocol)]
    pub fn protocol(&self) -> (r: u16)
        ensures
            r == self.spec_protocol(),
    {
        if self.device_function == DeviceFunction::WriteMulti {
            2
        } else {
            1
        }
    }

    /// The body: length prefix, Modbus body, then its CRC.
    pub fn bytes(&self) -> (r: Vec<u8>)
        requires
            self.buildable(),
        ensures
            r@ == self.spec_bytes(),
    {
        let mut data: Vec<u8> = Vec::new();
        data.push(0u8);
        data.push(self.device_function.code());
        self.inverter.append_to(&mut data);
        push_u16_le(&mut data, self.register);
        if self.device_function == DeviceFunction::WriteMulti {
            let count = ((self.values.len() + 1) / 2) as u16;
            push_u16_le(&mut data, count);
        }
        if has_value_length_byte(PacketSource::Client, self.protocol(), self.device_function) {
            data.push(self.values.len() as u8);
        }
        push_all(&mut data, self.values.as_slice());
        proof {
            self.inverter.lemma_len();
        }
        assert(data@ =~= self.inner());
        let crc = checksum(data.as_slice());
        let mut r: Vec<u8> = Vec::new();
        push_u16_le(&mut r, (data.len() + 2) as u16);
        push_all(&mut r, data.as_slice());
        push_u16_le(&mut r, crc);
        r
    }
}

impl ReadParam {
    pub open spec fn spec_bytes(&self) -> Seq<u8> {
        seq![(self.register % 256) as u8, 0u8]
    }
}

impl WriteParam {
    pub open spec fn spec_bytes(&self) -> Seq<u8> {
        u16_le(self.register) + u16_le(self.values@.len() as u16) + self.values@
    }
}

impl Packet {
    pub open spec fn spec_protocol(&self) -> u16 {
        match self {
            Packet::TranslatedData(t) => t.spec_protocol(),
            _ => 2,
        }
    }

    pub open spec fn spec_tcp_function(&self) -> TcpFunction {
        match self {
            Packet::Heartbeat(_) => TcpFunction::Heartbeat,
            Packet::TranslatedData(_) => TcpFunction::TranslatedData,
            Packet::ReadParam(_) => TcpFunction::ReadParam,
            Packet::WriteParam(_) => TcpFunction::WriteParam,
        }
    }

    pub open spec fn spec_datalog(&self) -> Serial {
        match self {
            Packet::Heartbeat(h) => h.datalog,
            Packet::TranslatedData(t) => t.datalog,
            Packet::ReadParam(p) => p.datalog,
            Packet::WriteParam(p) => p.datalog,
        }
    }

    /// What follows the 18-byte header.
    pub open spec fn spec_bytes(&self) -> Seq<u8> {
        match self {
            Packet::Heartbeat(_) => seq![0u8],
            Packet::TranslatedData(t) => t.spec_bytes(),
            Packet::ReadParam(p) => p.spec_bytes(),
            Packet::WriteParam(p) => p.spec_bytes(),
        }
    }

    /// A packet whose body length fits the fields that announce it.
    pub open spec fn buildable(&self) -> bool {
        match self {
            Packet::TranslatedData(t) => t.buildable(),
            Packet::WriteParam(p) => p.values@.len() + 16 <= 0xFFFF,
            _ => true,
        }
    }

    /// The whole frame: magic, protocol, length, reserved byte, kind, datalog, body.
    pub open spec fn spec_frame(&self) -> Seq<u8> {
        let body = self.spec_bytes();
        seq![0xA1u8, 0x1Au8] + u16_le(self.spec_protocol()) + u16_le((body.len() + 12) as u16)
            + seq![1u8, self.spec_tcp_function().spec_code()] + self.spec_datalog()@ + body
    }

    #[verifier::when_used_as_spec(spec_protocol)]
    pub fn protocol(&self) -> (r: u16)
        ensures
            r == self.spec_protocol(),
    {
        match self {
            Packet::TranslatedData(t) => t.protocol(),
            _ => 2,
        }
    }

    #[verifier::when_used_as_spec(spec_tcp_function)]
    pub fn tcp_function(&self) -> (r: TcpFunction)
        ensures
            r == self.spec_tcp_function(),
    {
        match self {
            Packet::Heartbeat(_) => TcpFunction::Heartbeat,
            Packet::TranslatedData(_) => TcpFunction::TranslatedData,
            Packet::ReadParam(_) => TcpFunction::ReadParam,
            Packet::WriteParam(_) => TcpFunction::WriteParam,
        }
    }

    #[verifier::when_used_as_spec(spec_datalog)]
    pub fn datalog(&self) -> (r: Serial)
        ensures
            r == self.spec_datalog(),
    {
        match self {
            Packet::Heartbeat(h) => h.datalog,
            Packet::TranslatedData(t) => t.datalog,
            Packet::ReadParam(p) => p.datalog,
            Packet::WriteParam(p) => p.datalog,
        }
    }

    /// The inverter a packet addresses; only TranslatedData names one.
    pub fn inverter(&self) -> (r: Option<Serial>)
        ensures
            r == (match self {
                Packet::TranslatedData(t) => Some(t.inverter),
                _ => None::<Serial>,
            }),
    {
        match self {
            Packet::TranslatedData(t) => Some(t.inverter),
            _ => None,
        }
    }

    pub fn set_datalog(&mut self, datalog: Serial)
        ensures
            final(self).spec_datalog() == datalog,
            final(self).spec_tcp_function() == old(self).spec_tcp_function(),
    {
        match self {
            Packet::Heartbeat(h) => h.datalog = datalog,
            Packet::TranslatedData(t) => t.datalog = datalog,
            Packet::ReadParam(p) => p.datalog = datalog,
            Packet::WriteParam(p) => p.datalog = datalog,
        }
    }

    /// Sets the inverter of a TranslatedData; other packets name none and are unchanged.
    pub fn set_inverter(&mut self, serial: Serial)
        ensures
            match *old(self) {
                Packet::TranslatedData(t) => *final(self) matches Packet::TranslatedData(u)
                    && u.inverter == serial && u.datalog == t.datalog && u.register == t.register
                    && u.device_function == t.device_function && u.values@ == t.values@,
                _ => *final(self) == *old(self),
            },
    {
        match self {
            Packet::TranslatedData(t) => t.inverter = serial,
            _ => {},
        }
    }

    /// The first register a packet addresses; a heartbeat addresses none.
    pub fn register(&self) -> (r: u16)
        requires
            !(self is Heartbeat),
        ensures
            r == (match self {
                Packet::TranslatedData(t) => t.register,
                Packet::ReadParam(p) => p.register,
                Packet::WriteParam(p) => p.register,
                _ => 0,
            }),
    {
        match self {
            Packet::TranslatedData(t) => t.register,
            Packet::ReadParam(p) => p.register,
            Packet::WriteParam(p) => p.register,
            Packet::Heartbeat(_) => 0,
        }
    }

    /// The first register value a packet carries.
    pub fn value(&self) -> (r: u16)
        requires
            !(self is Heartbeat),
            self.spec_values().len() >= 2,
        ensures
            r == le16_at(self.spec_values(), 0),
    {
        match self {
            Packet::TranslatedData(t) => read_u16_le(t.values.as_slice(), 0),
            Packet::ReadParam(p) => read_u16_le(p.values.as_slice(), 0),
            Packet::WriteParam(p) => read_u16_le(p.values.as_slice(), 0),
            Packet::Heartbeat(_) => 0,
        }
    }

    /// The raw values a packet carries; a heartbeat carries none.
    pub open spec fn spec_values(&self) -> Seq<u8> {
        match self {
            Packet::TranslatedData(t) => t.values@,
            Packet::ReadParam(p) => p.values@,
            Packet::WriteParam(p) => p.values@,
            Packet::Heartbeat(_) => Seq::empty(),
        }
    }

    /// The body that follows the header.
    pub fn bytes(&self) -> (r: Vec<u8>)
        requires
            self.buildable(),
        ensures
            r@ == self.spec_bytes(),
    {
        match self {
            Packet::Heartbeat(_) => {
                let mut r: Vec<u8> = Vec::new();
                r.push(0u8);
                assert(r@ =~= seq![0u8]);
                r
            },
            Packet::TranslatedData(t) => t.bytes(),
            Packet::ReadParam(p) => {
                let mut r: Vec<u8> = Vec::new();
                r.push((p.register % 256) as u8);
                r.push(0u8);
                assert(r@ =~= p.spec_bytes());
                r
            },
            Packet::WriteParam(p) => {
                let mut r: Vec<u8> = Vec::new();
                push_u16_le(&mut r, p.register);
                push_u16_le(&mut r, p.values.len() as u16);
                push_all(&mut r, p.values.as_slice());
                assert(r@ =~= p.spec_bytes());
                r
            },
        }
    }
}

/// Builds frames from packets.
pub struct TcpFrameFactory;

impl TcpFrameFactory {
    /// The frame that carries `data`.
    pub fn build(data: &Packet) -> (r: Vec<u8>)
        requires
            data.buildable(),
        ensures
            r@ == data.spec_frame(),
    {
        let body = data.bytes();
        assert(body@.len() + 12 <= 0xFFFF) by {
            if let Packet::TranslatedData(t) = data {
                t.inverter.lemma_len();
            }
        }
        let mut r: Vec<u8> = Vec::new();
        r.push(0xA1u8);
        r.push(0x1Au8);
        push_u16_le(&mut r, data.protocol());
        push_u16_le(&mut r, (body.len() + 12) as u16);
        r.push(1u8);
        r.push(data.tcp_function().code());
        data.datalog().append_to(&mut r);
        push_all(&mut r, body.as_slice());
        assert(r@ =~= data.spec_frame());
        r
    }
}


/// The Modbus body of a TranslatedData frame: after the length prefix, before the checksum.
pub open spec fn translated_inner(b: Seq<u8>) -> Seq<u8> {
    b.subrange(20, b.len() - 2)
}

/// Whether a received TranslatedData frame holds a value-length byte.
pub open spec fn translated_has_len(b: Seq<u8>) -> bool {
    match DeviceFunction::spec_from_code(translated_inner(b)[1]) {
        Some(df) => spec_has_value_length_byte(PacketSource::Inverter, le16_at(b, 2), df),
        None => false,
    }
}

/// Where the values start in the Modbus body.
pub open spec fn translated_value_offset(b: Seq<u8>) -> int {
    if translated_has_len(b) {
        15
    } else {
        14
    }
}

/// How many value bytes the frame announces.
pub open spec fn translated_value_len(b: Seq<u8>) -> int {
    if translated_has_len(b) {
        translated_inner(b)[14] as int
    } else {
        2
    }
}

pub open spec fn translated_values(b: Seq<u8>) -> Seq<u8> {
    let inner = translated_inner(b);
    inner.subrange(translated_value_offset(b), inner.len() as int)
}

pub open spec fn heartbeat_error(b: Seq<u8>) -> Option<WireError> {
    if b.len() < 19 {
        Some(WireError::TooShort)
    } else if b[18] != 0 {
        Some(WireError::MalformedHeartbeat)
    } else if !Serial::valid_bytes(b.subrange(8, 18)) {
        Some(WireError::InvalidSerial)
    } else {
        None
    }
}

pub open spec fn translated_error(b: Seq<u8>) -> Option<WireError> {
    if b.len() < 38 {
        Some(WireError::TooShort)
    } else if !Serial::valid_bytes(b.subrange(8, 18)) {
        Some(WireError::InvalidSerial)
    } else if le16_at(b, b.len() - 2) != modbus_crc(translated_inner(b)) {
        Some(WireError::ChecksumError)
    } else if DeviceFunction::spec_from_code(translated_inner(b)[1]) is None {
        Some(WireError::UnknownFunction)
    } else if !Serial::valid_bytes(translated_inner(b).subrange(2, 12)) {
        Some(WireError::InvalidSerial)
    } else if translated_values(b).len() != translated_value_len(b) {
        Some(WireError::LengthMismatch)
    } else {
        None
    }
}

/// A ReadParam frame carries a two-byte value length when its protocol is 2.
pub open spec fn read_param_has_len(b: Seq<u8>) -> bool {
    le16_at(b, 2) == 2
}

pub open spec fn read_param_values(b: Seq<u8>) -> Seq<u8> {
    b.subrange(if read_param_has_len(b) { 22 } else { 20 }, b.len() as int)
}

pub open spec fn read_param_value_len(b: Seq<u8>) -> int {
    if read_param_has_len(b) {
        le16_at(b, 20) as int
    } else {
        2
    }
}

pub open spec fn read_param_error(b: Seq<u8>) -> Option<WireError> {
    if b.len() < 24 {
        Some(WireError::TooShort)
    } else if !Serial::valid_bytes(b.subrange(8, 18)) {
        Some(WireError::InvalidSerial)
    } else if read_param_values(b).len() != read_param_value_len(b) {
        Some(WireError::LengthMismatch)
    } else {
        None
    }
}

pub open spec fn write_param_error(b: Seq<u8>) -> Option<WireError> {
    if b.len() < 21 {
        Some(WireError::TooShort)
    } else if !Serial::valid_bytes(b.subrange(8, 18)) {
        Some(WireError::InvalidSerial)
    } else if b.len() - 19 != 2 {
        Some(WireError::LengthMismatch)
    } else {
        None
    }
}

/// Why a frame is refused, or `None` when it parses.
pub open spec fn frame_error(b: Seq<u8>) -> Option<WireError> {
    if b.len() < 18 {
        Some(WireError::TooShort)
    } else if b[0] != 0xA1 || b[1] != 0x1A {
        Some(WireError::MagicMismatch)
    } else if b[4] >= 6 && b[4] - 6 > b.len() {
        Some(WireError::LengthMismatch)
    } else {
        match TcpFunction::spec_from_code(b[7]) {
            None => Some(WireError::UnknownFunction),
            Some(TcpFunction::Heartbeat) => heartbeat_error(b),
            Some(TcpFunction::TranslatedData) => translated_error(b),
            Some(TcpFunction::ReadParam) => read_param_error(b),
            Some(TcpFunction::WriteParam) => write_param_error(b),
        }
    }
}

/// The packet that a frame carries, field by field.
pub open spec fn parses_to(b: Seq<u8>, p: Packet) -> bool {
    &&& TcpFunction::spec_from_code(b[7]) == Some(p.spec_tcp_function())
    &&& p.spec_datalog()@ == b.subrange(8, 18)
    &&& match p {
        Packet::Heartbeat(_) => true,
        Packet::TranslatedData(t) => {
            let inner = translated_inner(b);
            &&& DeviceFunction::spec_from_code(inner[1]) == Some(t.device_function)
            &&& t.inverter@ == inner.subrange(2, 12)
            &&& t.register == le16_at(inner, 12)
            &&& t.values@ == translated_values(b)
        },
        Packet::ReadParam(r) => r.register == le16_at(b, 18) && r.values@ == read_param_values(b),
        Packet::WriteParam(w) => w.register == b[18] as u16 && w.values@ == b.subrange(
            19,
            b.len() as int,
        ),
    }
}

fn datalog_of(input: &[u8]) -> (r: Result<Serial, WireError>)
    requires
        input@.len() >= 18,
    ensures
        r is Ok <==> Serial::valid_bytes(input@.subrange(8, 18)),
        r matches Ok(s) ==> s@ == input@.subrange(8, 18),
        r matches Err(e) ==> e == WireError::InvalidSerial,
{
    match Serial::new(slice_subrange(input, 8, 18)) {
        Some(s) => Ok(s),
        None => Err(WireError::InvalidSerial),
    }
}

impl Heartbeat {
    fn decode(input: &[u8]) -> (r: Result<Heartbeat, WireError>)
        requires
            input@.len() >= 18,
        ensures
            match r {
                Ok(h) => heartbeat_error(input@) is None && h.datalog@ == input@.subrange(8, 18),
                Err(e) => heartbeat_error(input@) == Some(e),
            },
    {
        if input.len() < 19 {
            return Err(WireError::TooShort);
        }
        if input[18] != 0 {
            return Err(WireError::MalformedHeartbeat);
        }
        let datalog = datalog_of(input)?;
        Ok(Heartbeat { datalog })
    }
}

impl TranslatedData {
    fn decode(input: &[u8]) -> (r: Result<TranslatedData, WireError>)
        requires
            input@.len() >= 18,
        ensures
            r matches Err(e) ==> translated_error(input@) == Some(e),
            r matches Ok(t) ==> translated_error(input@) is None && {
                let inner = translated_inner(input@);
                &&& t.datalog@ == input@.subrange(8, 18)
                &&& DeviceFunction::spec_from_code(inner[1]) == Some(t.device_function)
                &&& t.inverter@ == inner.subrange(2, 12)
                &&& t.register == le16_at(inner, 12)
                &&& t.values@ == translated_values(input@)
            },
    {
        let len = input.len();
        if len < 38 {
            return Err(WireError::TooShort);
        }
        let protocol = read_u16_le(input, 2);
        let datalog = datalog_of(input)?;
        let data = slice_subrange(input, 20, len - 2);
        let stored = read_u16_le(input, len - 2);
        if checksum(data) != stored {
            return Err(WireError::ChecksumError);
        }
        let device_function = match DeviceFunction::from_code(data[1]) {
            Some(f) => f,
            None => return Err(WireError::UnknownFunction),
        };
        let inverter = match Serial::new(slice_subrange(data, 2, 12)) {
            Some(s) => s,
            None => return Err(WireError::InvalidSerial),
        };
        let register = read_u16_le(data, 12);
        let mut value_len: usize = 2;
        let mut value_offset: usize = 14;
        if has_value_length_byte(PacketSource::Inverter, protocol, device_function) {
            value_len = data[14] as usize;
            value_offset = 15;
        }
        let values = slice_to_vec(slice_subrange(data, value_offset, data.len()));
        if values.len() != value_len {
            return Err(WireError::LengthMismatch);
        }
        Ok(TranslatedData { datalog, device_function, inverter, register, values })
    }
}

impl ReadParam {
    fn decode(input: &[u8]) -> (r: Result<ReadParam, WireError>)
        requires
            input@.len() >= 18,
        ensures
            match r {
                Ok(p) => read_param_error(input@) is None && p.datalog@ == input@.subrange(8, 18)
                    && p.register == le16_at(input@, 18) && p.values@ == read_param_values(input@),
                Err(e) => read_param_error(input@) == Some(e),
            },
    {
        let len = input.len();
        if len < 24 {
            return Err(WireError::TooShort);
        }
        let protocol = read_u16_le(input, 2);
        let datalog = datalog_of(input)?;
        let register = read_u16_le(input, 18);
        let mut value_len: usize = 2;
        let mut value_offset: usize = 20;
        if protocol == 2 {
            value_len = read_u16_le(input, 20) as usize;
            value_offset = 22;
        }
        let values = slice_to_vec(slice_subrange(input, value_offset, len));
        if values.len() != value_len {
            return Err(WireError::LengthMismatch);
        }
        Ok(ReadParam { datalog, register, values })
    }
}

impl WriteParam {
    fn decode(input: &[u8]) -> (r: Result<WriteParam, WireError>)
        requires
            input@.len() >= 18,
        ensures
            match r {
                Ok(p) => write_param_error(input@) is None && p.datalog@ == input@.subrange(8, 18)
                    && p.register == input@[18] as u16 && p.values@ == input@.subrange(
                    19,
                    input@.len() as int,
                ),
                Err(e) => write_param_error(input@) == Some(e),
            },
    {
        let len = input.len();
        if len < 21 {
            return Err(WireError::TooShort);
        }
        let datalog = datalog_of(input)?;
        let register = input[18] as u16;
        let values = slice_to_vec(slice_subrange(input, 19, len));
        if values.len() != 2 {
            return Err(WireError::LengthMismatch);
        }
        Ok(WriteParam { datalog, register, values })
    }
}

/// Parses frames into packets.
pub struct Parser;

impl Parser {
    /// The packet that `input` carries, or why it is refused.
    pub fn parse(input: &[u8]) -> (r: Result<Packet, WireError>)
        ensures
            match r {
                Ok(p) => frame_error(input@) is None && parses_to(input@, p),
                Err(e) => frame_error(input@) == Some(e),
            },
    {
        let len = input.len();
        if len < 18 {
            return Err(WireError::TooShort);
        }
        if input[0] != 0xA1 || input[1] != 0x1A {
            return Err(WireError::MagicMismatch);
        }
        if input[4] >= 6 && (input[4] - 6) as usize > len {
            return Err(WireError::LengthMismatch);
        }
        match TcpFunction::from_code(input[7]) {
            None => Err(WireError::UnknownFunction),
            Some(TcpFunction::Heartbeat) => Ok(Packet::Heartbeat(Heartbeat::decode(input)?)),
            Some(TcpFunction::TranslatedData) => Ok(
                Packet::TranslatedData(TranslatedData::decode(input)?),
            ),
            Some(TcpFunction::ReadParam) => Ok(Packet::ReadParam(ReadParam::decode(input)?)),
            Some(TcpFunction::WriteParam) => Ok(Packet::WriteParam(WriteParam::decode(input)?)),
        }
    }
}


/// A word written low byte first reads back as the same word.
pub proof fn lemma_u16_le(a: Seq<u8>, v: u16, c: Seq<u8>)
    ensures
        le16_at(a + u16_le(v) + c, a.len() as int) == v,
{
    let s = a + u16_le(v) + c;
    assert(s[a.len() as int] == (v % 256) as u8);
    assert(s[a.len() as int + 1] == (v / 256) as u8);
}

/// The packets whose built frame parses back to themselves: a heartbeat, and a
/// TranslatedData other than WriteMulti that carries one register value.
pub open spec fn round_trips(p: Packet) -> bool {
    match p {
        Packet::Heartbeat(_) => true,
        Packet::TranslatedData(t) => t.device_function != DeviceFunction::WriteMulti
            && t.values@.len() == 2,
        _ => false,
    }
}

/// Every built frame announces its length: the word at offset 4, plus six, is the
/// frame's length, and so is the byte at offset 4 plus six while the frame is shorter
/// than 262 bytes.
pub proof fn lemma_frame_length(p: Packet)
    requires
        p.buildable(),
    ensures
        le16_at(p.spec_frame(), 4) as int + 6 == p.spec_frame().len(),
        p.spec_frame().len() < 262 ==> p.spec_frame()[4] as int + 6 == p.spec_frame().len(),
{
    let body = p.spec_bytes();
    p.spec_datalog().lemma_len();
    if let Packet::TranslatedData(t) = p {
        t.inverter.lemma_len();
    }
    assert(body.len() + 12 <= 0xFFFF);
    let f = p.spec_frame();
    let a = seq![0xA1u8, 0x1Au8] + u16_le(p.spec_protocol());
    let c = seq![1u8, p.spec_tcp_function().spec_code()] + p.spec_datalog()@ + body;
    assert(f =~= a + u16_le((body.len() + 12) as u16) + c);
    lemma_u16_le(a, (body.len() + 12) as u16, c);
}

/// The length prefix of a TranslatedData body counts every byte that follows it: the
/// Modbus body and its checksum.
pub proof fn lemma_length_prefix(t: TranslatedData)
    requires
        t.buildable(),
    ensures
        le16_at(t.spec_bytes(), 0) as int + 2 == t.spec_bytes().len(),
{
    t.inverter.lemma_len();
    let b = t.spec_bytes();
    let c = t.inner() + u16_le(modbus_crc(t.inner()));
    assert(b =~= Seq::<u8>::empty() + u16_le((t.inner().len() + 2) as u16) + c);
    lemma_u16_le(Seq::<u8>::empty(), (t.inner().len() + 2) as u16, c);
}

/// Parsing the frame built from a heartbeat, or from a TranslatedData other than
/// WriteMulti with one register value, succeeds and gives back the same packet,
/// field by field.
pub proof fn lemma_round_trip(p: Packet)
    requires
        round_trips(p),
        Serial::valid_bytes(p.spec_datalog()@),
        p matches Packet::TranslatedData(t) ==> Serial::valid_bytes(t.inverter@),
    ensures
        frame_error(p.spec_frame()) is None,
        parses_to(p.spec_frame(), p),
{
    let f = p.spec_frame();
    let body = p.spec_bytes();
    p.spec_datalog().lemma_len();
    assert(f.subrange(8, 18) =~= p.spec_datalog()@);
    assert(f[7] == p.spec_tcp_function().spec_code());
    lemma_frame_length(p);
    assert(f[4] as int + 6 <= f.len()) by {
        let a = seq![0xA1u8, 0x1Au8] + u16_le(p.spec_protocol());
        assert(f[4] == ((body.len() + 12) as u16 % 256) as u8);
    }
    match p {
        Packet::Heartbeat(h) => {
            assert(f[18] == 0);
        },
        Packet::TranslatedData(t) => {
            t.inverter.lemma_len();
            let inner = t.inner();
            assert(inner.len() == 16);
            assert(translated_inner(f) =~= inner);
            let pre = f.subrange(0, f.len() - 2);
            assert(f =~= pre + u16_le(modbus_crc(inner)) + Seq::<u8>::empty());
            lemma_u16_le(pre, modbus_crc(inner), Seq::<u8>::empty());
            assert(f =~= seq![0xA1u8, 0x1Au8] + u16_le(1u16) + f.subrange(4, f.len() as int));
            lemma_u16_le(seq![0xA1u8, 0x1Au8], 1u16, f.subrange(4, f.len() as int));
            assert(inner[1] == t.device_function.spec_code());
            assert(inner.subrange(2, 12) =~= t.inverter@);
            let ia = seq![0u8, t.device_function.spec_code()] + t.inverter@;
            assert(inner =~= ia + u16_le(t.register) + t.values@);
            lemma_u16_le(ia, t.register, t.values@);
            assert(!translated_has_len(f));
            assert(translated_values(f) =~= t.values@);
        },
        _ => {},
    }
}

/// Changing one byte of a built TranslatedData frame's Modbus body or checksum makes
/// the frame fail with `ChecksumError`: always for a checksum byte, and for a body
/// byte whenever the changed body has another CRC than the unchanged one.
pub proof fn lemma_altered_frame_fails(p: Packet, i: int, x: u8)
    requires
        p is TranslatedData,
        p.buildable(),
        Serial::valid_bytes(p.spec_datalog()@),
        p.spec_frame().len() >= 38,
        20 <= i < p.spec_frame().len(),
        x != p.spec_frame()[i],
        i < p.spec_frame().len() - 2 ==> modbus_crc(translated_inner(p.spec_frame().update(i, x)))
            != modbus_crc(translated_inner(p.spec_frame())),
    ensures
        frame_error(p.spec_frame().update(i, x)) == Some(WireError::ChecksumError),
{
    let f = p.spec_frame();
    let g = f.update(i, x);
    let t = p->TranslatedData_0;
    let body = p.spec_bytes();
    let inner = t.inner();
    p.spec_datalog().lemma_len();
    t.inverter.lemma_len();
    lemma_frame_length(p);
    assert(g.subrange(8, 18) =~= f.subrange(8, 18));
    assert(f.subrange(8, 18) =~= p.spec_datalog()@);
    assert(f[7] == p.spec_tcp_function().spec_code());
    assert(f[4] as int + 6 <= f.len()) by {
        assert(f[4] == ((body.len() + 12) as u16 % 256) as u8);
    }
    assert(translated_inner(f) =~= inner);
    let pre = f.subrange(0, f.len() - 2);
    assert(f =~= pre + u16_le(modbus_crc(inner)) + Seq::<u8>::empty());
    lemma_u16_le(pre, modbus_crc(inner), Seq::<u8>::empty());
    if i < f.len() - 2 {
        assert(g.subrange(g.len() - 2, g.len() as int) =~= f.subrange(f.len() - 2, f.len() as int));
        assert(le16_at(g, g.len() - 2) == le16_at(f, f.len() - 2));
    } else {
        assert(translated_inner(g) =~= translated_inner(f));
        assert(le16_at(g, g.len() - 2) != le16_at(f, f.len() - 2));
    }
}

} // verus!
