use vstd::prelude::*;
use vstd::string::StringExecFns;

use crate::assembler::DecodeError;
use crate::assembler::ReadInput;
use crate::bits::Input113Bits;
use crate::bits::Input144Bits;
use crate::bits::Input71Bits;
use crate::bits::Input77Bits;
use crate::bits::Register110Bits;
use crate::bits::Register120Bits;
use crate::bits::Register179Bits;
use crate::bits::Register21Bits;
use crate::bits::Register224Bits;
use crate::bits::Register230Bits;
use crate::bits::Register233Bits;
use crate::bits::Register235Bits;
use crate::codec::le16_at;
use crate::codec::read_u16_le;
use crate::codec::ReadParam;
use crate::codec::TranslatedData;
use crate::codec::WriteParam;
use crate::inputs::field_json;
use crate::inputs::field_text;
use crate::inputs::snapshot_json;
use crate::inputs::Field;
use crate::inputs::FieldKind;
use crate::inputs::ReadInput1;
use crate::inputs::ReadInput2;
use crate::inputs::ReadInput3;
use crate::inputs::ReadInputAll;
use crate::inputs::ReadInputAll2;
use crate::labels::fault_message;
use crate::labels::status_label;
use crate::labels::warning_message;
use crate::labels::FaultCodeString;
use crate::labels::StatusString;
use crate::labels::WarningCodeString;
use crate::register::spec_divisor;
use crate::register::find_register_config;
use crate::serial::Serial;
use crate::text::decimal_text;
use crate::text::fixed_text;
use crate::text::fixed_to_text;
use crate::text::json_quoted;
use crate::text::json_string;
use crate::text::nat_to_text;

verus! {

/// One publication: a topic under the namespace, whether the broker keeps it, and its text.
#[derive(Clone, Debug, PartialEq, Eq)]
pub struct Message {
    pub topic: String,
    pub retain: bool,
    pub payload: String,
}

/// A message as plain values: topic, retain flag, payload.
pub type MessageView = (Seq<char>, bool, Seq<char>);

impl View for Message {
    type V = MessageView;

    open spec fn view(&self) -> MessageView {
        (self.topic@, self.retain, self.payload@)
    }
}

/// The plain values of a list of messages.
pub open spec fn views(ms: Seq<Message>) -> Seq<MessageView> {
    ms.map_values(|m: Message| m@)
}

proof fn lemma_views_push(ms: Seq<Message>, m: Message)
    ensures
        views(ms.push(m)) == views(ms).push(m@),
{
    assert(views(ms.push(m)) =~= views(ms).push(m@));
}

/// The (register, value) pairs of a block of little-endian register values.
pub open spec fn spec_pairs(register: u16, values: Seq<u8>) -> Seq<(u16, u16)> {
    Seq::new(
        (values.len() / 2) as nat,
        |i: int| ((register + i) as u16, le16_at(values, 2 * i)),
    )
}

/// A block of values that splits into whole registers, none past the last address.
pub open spec fn pairs_fit(register: u16, values: Seq<u8>) -> bool {
    values.len() % 2 == 0 && register + values.len() / 2 <= 0x10000
}

/// The (register, value) pairs of a block of register values.
pub fn pairs_of(register: u16, values: &Vec<u8>) -> (r: Vec<(u16, u16)>)
    requires
        pairs_fit(register, values@),
    ensures
        r@ == spec_pairs(register, values@),
{
    let n = values.len() / 2;
    let mut r: Vec<(u16, u16)> = Vec::new();
    let mut i: usize = 0;
    while i < n
        invariant
            n == values@.len() / 2,
            pairs_fit(register, values@),
            0 <= i <= n,
            r@ =~= spec_pairs(register, values@).subrange(0, i as int),
        decreases n - i,
    {
        let v = read_u16_le(values.as_slice(), 2 * i);
        r.push(((register as usize + i) as u16, v));
        i = i + 1;
    }
    r
}

impl TranslatedData {
    /// The (register, value) pairs that the values carry.
    pub fn pairs(&self) -> (r: Vec<(u16, u16)>)
        requires
            pairs_fit(self.register, self.values@),
        ensures
            r@ == spec_pairs(self.register, self.values@),
    {
        pairs_of(self.register, &self.values)
    }
}

impl ReadParam {
    /// The (register, value) pairs that the values carry.
    pub fn pairs(&self) -> (r: Vec<(u16, u16)>)
        requires
            pairs_fit(self.register, self.values@),
        ensures
            r@ == spec_pairs(self.register, self.values@),
    {
        pairs_of(self.register, &self.values)
    }
}

impl WriteParam {
    /// The (register, value) pairs that the values carry.
    pub fn pairs(&self) -> (r: Vec<(u16, u16)>)
        requires
            pairs_fit(self.register, self.values@),
        ensures
            r@ == spec_pairs(self.register, self.values@),
    {
        pairs_of(self.register, &self.values)
    }
}

/// `{datalog}{middle}{register}`.
pub open spec fn register_topic(d: Seq<u8>, middle: Seq<char>, register: u16) -> Seq<char> {
    Serial::text_of(d) + middle + decimal_text(register as nat)
}

fn make_register_topic(d: &Serial, middle: &str, register: u16) -> (r: String)
    ensures
        r@ == register_topic(d@, middle@, register),
{
    let mut s = d.to_text();
    s.append(middle);
    s.append(nat_to_text(register as u64).as_str());
    s
}

/// The bit decoding of a holding register, for the registers that have one.
pub open spec fn hold_bits_json(register: u16, v: u16) -> Option<Seq<char>> {
    if register == 21 {
        Some(Register21Bits::spec_json(v))
    } else if register == 110 {
        Some(Register110Bits::spec_json(v))
    } else if register == 120 {
        Some(Register120Bits::spec_json(v))
    } else if register == 179 {
        Some(Register179Bits::spec_json(v))
    } else if register == 224 {
        Some(Register224Bits::spec_json(v))
    } else if register == 230 {
        Some(Register230Bits::spec_json(v))
    } else if register == 233 {
        Some(Register233Bits::spec_json(v))
    } else if register == 235 {
        Some(Register235Bits::spec_json(v))
    } else {
        None
    }
}

fn hold_bits(register: u16, v: u16) -> (r: Option<String>)
    ensures
        match hold_bits_json(register, v) {
            Some(j) => r matches Some(s) && s@ == j,
            None => r is None,
        },
{
    if register == 21 {
        Some(Register21Bits::json(v))
    } else if register == 110 {
        Some(Register110Bits::json(v))
    } else if register == 120 {
        Some(Register120Bits::json(v))
    } else if register == 179 {
        Some(Register179Bits::json(v))
    } else if register == 224 {
        Some(Register224Bits::json(v))
    } else if register == 230 {
        Some(Register230Bits::json(v))
    } else if register == 233 {
        Some(Register233Bits::json(v))
    } else if register == 235 {
        Some(Register235Bits::json(v))
    } else {
        None
    }
}

/// The number of fraction places of a register's scaled value.
pub open spec fn hold_places(register: u16) -> nat {
    if spec_divisor(register) == 10 {
        1
    } else {
        0
    }
}

/// The payload of a holding register: its raw value times its scale, with one decimal.
pub open spec fn hold_value_text(register: u16, v: u16) -> Seq<char> {
    fixed_text(v as int, hold_places(register))
}

/// What one holding register publishes: its scaled value, then its bits if it has a decoder.
pub open spec fn hold_pair_messages(d: Seq<u8>, register: u16, v: u16) -> Seq<MessageView> {
    let m = (register_topic(d, "/hold/"@, register), true, hold_value_text(register, v));
    match hold_bits_json(register, v) {
        Some(j) => seq![m, (register_topic(d, "/hold/"@, register) + "/bits"@, true, j)],
        None => seq![m],
    }
}

pub open spec fn hold_messages(d: Seq<u8>, ps: Seq<(u16, u16)>) -> Seq<MessageView>
    decreases ps.len(),
{
    if ps.len() == 0 {
        Seq::empty()
    } else {
        hold_messages(d, ps.drop_last()) + hold_pair_messages(d, ps.last().0, ps.last().1)
    }
}

/// The payload of a parameter: its raw value.
pub open spec fn param_messages(d: Seq<u8>, ps: Seq<(u16, u16)>) -> Seq<MessageView> {
    ps.map_values(
        |p: (u16, u16)| (register_topic(d, "/param/"@, p.0), true, decimal_text(p.1 as nat)),
    )
}

impl Message {
    /// The retained publications of a holding-register read: for each register its
    /// scaled value under `{datalog}/hold/{register}`, then, for a register with a bit
    /// decoder, its bits under `{datalog}/hold/{register}/bits`.
    pub fn for_hold(td: &TranslatedData) -> (r: Vec<Message>)
        requires
            pairs_fit(td.register, td.values@),
        ensures
            views(r@) == hold_messages(td.datalog@, spec_pairs(td.register, td.values@)),
    {
        let ps = td.pairs();
        let mut out: Vec<Message> = Vec::new();
        let mut i: usize = 0;
        while i < ps.len()
            invariant
                0 <= i <= ps@.len(),
                views(out@) == hold_messages(td.datalog@, ps@.subrange(0, i as int)),
            decreases ps@.len() - i,
        {
            let (register, v) = ps[i];
            let places: u8 = match find_register_config(register) {
                Some(c) => if c.divisor == 10 {
                    1
                } else {
                    0
                },
                None => 0,
            };
            let ghost before = out@;
            let topic = make_register_topic(&td.datalog, "/hold/", register);
            let m = Message {
                topic: topic.clone(),
                retain: true,
                payload: fixed_to_text(v as i64, places),
            };
            proof {
                lemma_views_push(out@, m);
            }
            out.push(m);
            match hold_bits(register, v) {
                Some(j) => {
                    let mut bits_topic = topic;
                    bits_topic.append("/bits");
                    let b = Message { topic: bits_topic, retain: true, payload: j };
                    proof {
                        lemma_views_push(out@, b);
                    }
                    out.push(b);
                },
                None => {},
            }
            i = i + 1;
            assert(ps@.subrange(0, i as int).drop_last() =~= ps@.subrange(0, i - 1));
            assert(views(out@) =~= views(before) + hold_pair_messages(td.datalog@, register, v));
        }
        assert(ps@.subrange(0, ps@.len() as int) =~= ps@);
        out
    }

    /// The retained publications of a parameter read: each raw value under
    /// `{datalog}/param/{register}`.
    pub fn for_param(rp: &ReadParam) -> (r: Vec<Message>)
        requires
            pairs_fit(rp.register, rp.values@),
        ensures
            views(r@) == param_messages(rp.datalog@, spec_pairs(rp.register, rp.values@)),
    {
        let ps = rp.pairs();
        let mut out: Vec<Message> = Vec::new();
        let mut i: usize = 0;
        while i < ps.len()
            invariant
                0 <= i <= ps@.len(),
                views(out@) =~= param_messages(rp.datalog@, ps@.subrange(0, i as int)),
            decreases ps@.len() - i,
        {
            let (register, v) = ps[i];
            let m = Message {
                topic: make_register_topic(&rp.datalog, "/param/", register),
                retain: true,
                payload: nat_to_text(v as u64),
            };
            proof {
                lemma_views_push(out@, m);
            }
            out.push(m);
            i = i + 1;
        }
        assert(ps@.subrange(0, ps@.len() as int) =~= ps@);
        out
    }
}

} // verus!

verus! {

/// `{datalog}/input/{name}/parsed`.
pub open spec fn input_topic(d: Seq<u8>, name: Seq<char>) -> Seq<char> {
    Serial::text_of(d) + "/input/"@ + name + "/parsed"@
}

fn make_input_topic(d: &Serial, name: &str) -> (r: String)
    ensures
        r@ == input_topic(d@, name@),
{
    let mut s = d.to_text();
    s.append("/input/");
    s.append(name);
    s.append("/parsed");
    s
}

/// What a field publishes on its own: a number, a quoted label, or a bit decoding.
pub open spec fn parsed_payload(f: Field) -> Seq<char> {
    match f.kind {
        FieldKind::Plain => field_json(f.value),
        FieldKind::Status(v) => json_quoted(status_label(v)),
        FieldKind::FaultCode(v) => json_quoted(fault_message(v)),
        FieldKind::WarningCode(v) => json_quoted(warning_message(v)),
        FieldKind::Bits71(v) => Input71Bits::spec_json(v),
        FieldKind::Bits77(v) => Input77Bits::spec_json(v),
        FieldKind::Bits113(v) => Input113Bits::spec_json(v),
        FieldKind::Bits144(v) => Input144Bits::spec_json(v),
    }
}

fn parsed_text(f: Field) -> (r: String)
    ensures
        r@ == parsed_payload(f),
{
    match f.kind {
        FieldKind::Plain => field_text(f.value),
        FieldKind::Status(v) => json_string(StatusString::from_value(v)),
        FieldKind::FaultCode(v) => json_string(FaultCodeString::from_value(v)),
        FieldKind::WarningCode(v) => json_string(WarningCodeString::from_value(v)),
        FieldKind::Bits71(v) => Input71Bits::json(v),
        FieldKind::Bits77(v) => Input77Bits::json(v),
        FieldKind::Bits113(v) => Input113Bits::json(v),
        FieldKind::Bits144(v) => Input144Bits::json(v),
    }
}

/// Each field on its own topic, in order; these are streaming data and not retained.
pub open spec fn parsed_messages(d: Seq<u8>, fs: Seq<Field>) -> Seq<MessageView> {
    fs.map_values(|f: Field| (input_topic(d, f.name@), false, parsed_payload(f)))
}

/// The datalog on its own topic.
pub open spec fn datalog_message(d: Seq<u8>) -> MessageView {
    (input_topic(d, "datalog"@), false, json_quoted(Serial::text_of(d)))
}

/// A window's snapshot under `{datalog}/inputs/{n}`.
pub open spec fn snapshot_message(d: Seq<u8>, n: Seq<char>, fs: Seq<Field>) -> MessageView {
    (Serial::text_of(d) + "/inputs/"@ + n, false, snapshot_json(fs, d))
}

/// What a decoded input block publishes: every field of a long form on its own, then
/// the datalog; for window 1 its status then its snapshot; for window 2 its snapshot;
/// for window 3 its parallel configuration then its snapshot.
pub open spec fn window_messages(w: ReadInput) -> Seq<MessageView> {
    match w {
        ReadInput::ReadInputAll(a) => parsed_messages(a.datalog@, a.spec_fields()).push(
            datalog_message(a.datalog@),
        ),
        ReadInput::ReadInputAll2(a) => parsed_messages(a.datalog@, a.spec_fields()).push(
            datalog_message(a.datalog@),
        ),
        ReadInput::ReadInput1(a) => seq![
            (input_topic(a.datalog@, "status"@), false, json_quoted(status_label(a.status))),
            snapshot_message(a.datalog@, "1"@, a.spec_fields()),
        ],
        ReadInput::ReadInput2(a) => seq![snapshot_message(a.datalog@, "2"@, a.spec_fields())],
        ReadInput::ReadInput3(a) => seq![
            (input_topic(a.datalog@, "register_113"@), false, Input113Bits::spec_json(
                a.register_113,
            )),
            snapshot_message(a.datalog@, "3"@, a.spec_fields()),
        ],
    }
}

/// A 32-bit code from its low and high registers.
pub open spec fn code32(lo: u16, hi: u16) -> u32 {
    (lo as int + 65536 * (hi as int)) as u32
}

/// What the pair at `i` publishes when registers arrive one by one: register 0 its
/// status, registers 60 and 61 the fault code, 62 and 63 the warning code.
pub open spec fn single_at(d: Seq<u8>, ps: Seq<(u16, u16)>, i: int) -> Seq<MessageView> {
    if ps[i].0 == 0 {
        seq![(input_topic(d, "status"@), false, json_quoted(status_label(ps[i].1)))]
    } else if ps[i].0 == 60 && i + 1 < ps.len() {
        seq![
            (input_topic(d, "fault_code"@), false, json_quoted(
                fault_message(code32(ps[i].1, ps[i + 1].1)),
            )),
        ]
    } else if ps[i].0 == 62 && i + 1 < ps.len() {
        seq![
            (input_topic(d, "warning_code"@), false, json_quoted(
                warning_message(code32(ps[i].1, ps[i + 1].1)),
            )),
        ]
    } else {
        Seq::empty()
    }
}

pub open spec fn single_messages(d: Seq<u8>, ps: Seq<(u16, u16)>, n: int) -> Seq<MessageView>
    decreases n,
{
    if n <= 0 {
        Seq::empty()
    } else {
        single_messages(d, ps, n - 1) + single_at(d, ps, n - 1)
    }
}

fn push_message(out: &mut Vec<Message>, topic: String, payload: String)
    ensures
        views(final(out)@) == views(old(out)@).push((topic@, false, payload@)),
{
    let m = Message { topic, retain: false, payload };
    proof {
        lemma_views_push(out@, m);
    }
    out.push(m);
}

fn push_parsed(out: &mut Vec<Message>, d: &Serial, fs: &Vec<Field>)
    ensures
        views(final(out)@) == views(old(out)@) + parsed_messages(d@, fs@),
{
    let ghost start = views(out@);
    let mut i: usize = 0;
    while i < fs.len()
        invariant
            0 <= i <= fs@.len(),
            views(out@) =~= start + parsed_messages(d@, fs@.subrange(0, i as int)),
        decreases fs@.len() - i,
    {
        let f = fs[i];
        push_message(out, make_input_topic(d, f.name), parsed_text(f));
        i = i + 1;
    }
    assert(fs@.subrange(0, fs@.len() as int) =~= fs@);
}

fn push_snapshot(out: &mut Vec<Message>, d: &Serial, n: &str, fs: &Vec<Field>)
    ensures
        views(final(out)@) == views(old(out)@).push(snapshot_message(d@, n@, fs@)),
{
    let mut topic = d.to_text();
    topic.append("/inputs/");
    topic.append(n);
    push_message(out, topic, crate::inputs::fields_json(fs, d));
}

impl Message {
    /// The publications of a decoded input block; see `window_messages`.
    pub fn for_input_window(w: &ReadInput) -> (r: Vec<Message>)
        ensures
            views(r@) == window_messages(*w),
    {
        let mut out: Vec<Message> = Vec::new();
        match w {
            ReadInput::ReadInputAll(a) => {
                push_parsed(&mut out, &a.datalog, &a.fields());
                let d = json_string(a.datalog.to_text().as_str());
                push_message(&mut out, make_input_topic(&a.datalog, "datalog"), d);
            },
            ReadInput::ReadInputAll2(a) => {
                push_parsed(&mut out, &a.datalog, &a.fields());
                let d = json_string(a.datalog.to_text().as_str());
                push_message(&mut out, make_input_topic(&a.datalog, "datalog"), d);
            },
            ReadInput::ReadInput1(a) => {
                let s = json_string(StatusString::from_value(a.status));
                push_message(&mut out, make_input_topic(&a.datalog, "status"), s);
                push_snapshot(&mut out, &a.datalog, "1", &a.fields());
            },
            ReadInput::ReadInput2(a) => {
                push_snapshot(&mut out, &a.datalog, "2", &a.fields());
            },
            ReadInput::ReadInput3(a) => {
                let b = Input113Bits::json(a.register_113);
                push_message(&mut out, make_input_topic(&a.datalog, "register_113"), b);
                push_snapshot(&mut out, &a.datalog, "3", &a.fields());
            },
        }
        assert(views(out@) =~= window_messages(*w));
        out
    }

    /// The publications of an assembled snapshot: every field on its own, then the datalog.
    pub fn for_input_all(a: &ReadInputAll) -> (r: Vec<Message>)
        ensures
            views(r@) == window_messages(ReadInput::ReadInputAll(Box::new(*a))),
    {
        let mut out: Vec<Message> = Vec::new();
        push_parsed(&mut out, &a.datalog, &a.fields());
        let d = json_string(a.datalog.to_text().as_str());
        push_message(&mut out, make_input_topic(&a.datalog, "datalog"), d);
        assert(views(out@) =~= window_messages(ReadInput::ReadInputAll(Box::new(*a))));
        out
    }

    /// The publications of an input-register read: those of its window when it is one
    /// (`window_messages`), else those of its registers one by one (`single_messages`).
    pub fn for_input(td: &TranslatedData, time: i64) -> (r: Vec<Message>)
        requires
            pairs_fit(td.register, td.values@),
        ensures
            td.known_window() ==> exists|w: ReadInput|
                td.reads_window(time, w) && views(r@) == window_messages(w),
            !td.known_window() ==> views(r@) == single_messages(
                td.datalog@,
                spec_pairs(td.register, td.values@),
                spec_pairs(td.register, td.values@).len() as int,
            ),
    {
        match td.read_input(time) {
            Ok(w) => Self::for_input_window(&w),
            Err(_) => {
                let ps = td.pairs();
                let ghost d = td.datalog@;
                let mut out: Vec<Message> = Vec::new();
                let mut i: usize = 0;
                while i < ps.len()
                    invariant
                        0 <= i <= ps@.len(),
                        views(out@) == single_messages(d, ps@, i as int),
                        d == td.datalog@,
                    decreases ps@.len() - i,
                {
                    let (register, v) = ps[i];
                    let ghost before = views(out@);
                    if register == 0 {
                        let s = json_string(StatusString::from_value(v));
                        push_message(&mut out, make_input_topic(&td.datalog, "status"), s);
                    } else if register == 60 && i + 1 < ps.len() {
                        let code = (v as u32) + (ps[i + 1].1 as u32) * 65536;
                        let s = json_string(FaultCodeString::from_value(code));
                        push_message(&mut out, make_input_topic(&td.datalog, "fault_code"), s);
                    } else if register == 62 && i + 1 < ps.len() {
                        let code = (v as u32) + (ps[i + 1].1 as u32) * 65536;
                        let s = json_string(WarningCodeString::from_value(code));
                        push_message(&mut out, make_input_topic(&td.datalog, "warning_code"), s);
                    }
                    assert(views(out@) =~= before + single_at(d, ps@, i as int));
                    i = i + 1;
                }
                out
            },
        }
    }
}

} // verus!

verus! {

/// A holding register's payload is its raw value divided by the register's divisor,
/// written out exactly: the quotient, a point, then the remainder as the tenth digit.
pub proof fn lemma_hold_payload_scaled(register: u16, v: u16)
    ensures
        hold_value_text(register, v) == decimal_text((v / spec_divisor(register)) as nat)
            + seq!['.'] + seq![crate::text::digit_char((v % spec_divisor(register)) as nat)],
{
    let a = v as nat;
    if spec_divisor(register) == 10 {
        assert(hold_value_text(register, v) =~= decimal_text(a / 10) + seq!['.'] + seq![
            crate::text::digit_char(a % 10),
        ]);
    } else {
        assert(spec_divisor(register) == 1);
        assert(hold_value_text(register, v) =~= decimal_text(a) + seq!['.'] + seq![
            crate::text::digit_char(0),
        ]);
    }
}

/// Holding-register publications are retained.
pub proof fn lemma_hold_retained(d: Seq<u8>, ps: Seq<(u16, u16)>, i: int)
    requires
        0 <= i < hold_messages(d, ps).len(),
    ensures
        hold_messages(d, ps)[i].1,
    decreases ps.len(),
{
    if ps.len() > 0 {
        let init = hold_messages(d, ps.drop_last());
        if i < init.len() {
            lemma_hold_retained(d, ps.drop_last(), i);
        }
    }
}

/// Input-register publications are not retained.
pub proof fn lemma_inputs_not_retained(w: ReadInput, i: int)
    requires
        0 <= i < window_messages(w).len(),
    ensures
        !window_messages(w)[i].1,
{
}

/// Publishing the same snapshot twice gives the same topics, payloads and retain flags,
/// in the same order.
pub proof fn lemma_publish_idempotent(a: ReadInputAll, b: ReadInputAll, ra: Seq<Message>, rb: Seq<Message>)
    requires
        a == b,
        views(ra) == window_messages(ReadInput::ReadInputAll(Box::new(a))),
        views(rb) == window_messages(ReadInput::ReadInputAll(Box::new(b))),
    ensures
        views(ra) == views(rb),
{
}

} // verus!
