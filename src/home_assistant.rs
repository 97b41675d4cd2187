use vstd::prelude::*;
use vstd::string::StrSliceExecFns;
use vstd::string::StringExecFns;

use crate::register::find_register_config;
use crate::register::register_name;
use crate::register::spec_register_config;
use crate::register::Register;
use crate::text::push_char;
use crate::serial::Serial;
use crate::text::decimal_text;
use crate::text::nat_to_text;

verus! {

/// How a discovery descriptor tells the platform to read its state topic.
#[derive(Clone, Debug, PartialEq)]
pub enum ValueTemplate {
    Omitted,
    Default,
    FromKey,
    String(String),
}

impl ValueTemplate {
    /// The template that reads the whole payload.
    pub fn from_default() -> (r: Self)
        ensures
            r matches ValueTemplate::String(s) && s@ == "{{ value_json }}"@,
    {
        ValueTemplate::String(String::from_str("{{ value_json }}"))
    }

    /// The template that reads member `key` of a JSON payload.
    pub fn from_key(key: &str) -> (r: Self)
        ensures
            r matches ValueTemplate::String(s) && s@ == key_template(key@),
    {
        let mut s = String::from_str("{{ value_json.");
        s.append(key);
        s.append(" }}");
        ValueTemplate::String(s)
    }

    pub fn is_none(&self) -> (r: bool)
        ensures
            r == (self matches ValueTemplate::Omitted),
    {
        match self {
            ValueTemplate::Omitted => true,
            _ => false,
        }
    }

    pub fn is_default(&self) -> (r: bool)
        ensures
            r == (self matches ValueTemplate::Default),
    {
        match self {
            ValueTemplate::Default => true,
            _ => false,
        }
    }

    pub fn is_from_key(&self) -> (r: bool)
        ensures
            r == (self matches ValueTemplate::FromKey),
    {
        match self {
            ValueTemplate::FromKey => true,
            _ => false,
        }
    }
}

/// `{{ value_json.<key> }}`.
pub open spec fn key_template(key: Seq<char>) -> Seq<char> {
    "{{ value_json."@ + key + " }}"@
}

/// Where a discovery descriptor's state is published.
#[derive(Clone, Debug, PartialEq)]
pub enum StateTopic {
    Default,
    String(String),
}

/// `{namespace}/{datalog}/input/{key}/parsed`.
pub open spec fn input_state_topic(namespace: Seq<char>, datalog: Seq<u8>, key: Seq<char>) -> Seq<
    char,
> {
    namespace + "/"@ + Serial::text_of(datalog) + "/input/"@ + key + "/parsed"@
}

impl StateTopic {
    /// The topic on which the bridge publishes input field `key`.
    pub fn from_default(namespace: &str, datalog: Serial, key: &str) -> (r: Self)
        ensures
            r matches StateTopic::String(s) && s@ == input_state_topic(namespace@, datalog@, key@),
    {
        let mut s = String::from_str(namespace);
        s.append("/");
        s.append(datalog.to_text().as_str());
        s.append("/input/");
        s.append(key);
        s.append("/parsed");
        StateTopic::String(s)
    }

    pub fn is_default(&self) -> (r: bool)
        ensures
            r == (self matches StateTopic::Default),
    {
        match self {
            StateTopic::Default => true,
            _ => false,
        }
    }
}

/// The topic that tells whether the bridge is online.
#[derive(Clone, Debug)]
pub struct Availability {
    pub topic: String,
}

/// The device that the entities of one inverter belong to.
#[derive(Clone, Debug)]
pub struct Device {
    pub manufacturer: String,
    pub name: String,
    pub identifiers: [String; 1],
}

/// A sensor or binary sensor descriptor.
#[derive(Clone, Debug)]
pub struct Entity {
    pub key: &'static str,
    pub is_binary_sensor: bool,
    pub unique_id: String,
    pub name: &'static str,
    pub state_topic: StateTopic,
    pub entity_category: Option<&'static str>,
    pub state_class: Option<&'static str>,
    pub device_class: Option<&'static str>,
    pub value_template: ValueTemplate,
    pub unit_of_measurement: Option<&'static str>,
    pub icon: Option<&'static str>,
    pub device: Device,
    pub availability: Availability,
}

/// A switch descriptor.
#[derive(Clone, Debug)]
pub struct Switch {
    pub name: String,
    pub state_topic: String,
    pub command_topic: String,
    pub value_template: String,
    pub unique_id: String,
    pub device: Device,
    pub availability: Availability,
}

/// A number descriptor; its step is one divided by `step_divisor`.
#[derive(Clone, Debug)]
pub struct Number {
    pub name: String,
    pub state_topic: String,
    pub command_topic: String,
    pub value_template: String,
    pub unique_id: String,
    pub device: Device,
    pub availability: Availability,
    pub min: u32,
    pub max: u32,
    pub step_divisor: u16,
    pub unit_of_measurement: String,
    pub mode: String,
}

/// A text descriptor, used for time ranges such as `00:00-23:59`.
#[derive(Clone, Debug)]
pub struct Text {
    pub name: String,
    pub state_topic: String,
    pub command_topic: String,
    pub command_template: String,
    pub value_template: String,
    pub unique_id: String,
    pub device: Device,
    pub availability: Availability,
    pub pattern: String,
}

/// One fixed sensor of the discovery table.
#[derive(Clone, Copy, Debug)]
pub struct SensorSpec {
    pub key: &'static str,
    pub name: &'static str,
    pub is_binary_sensor: bool,
    pub entity_category: Option<&'static str>,
    pub state_class: Option<&'static str>,
    pub device_class: Option<&'static str>,
    pub unit_of_measurement: Option<&'static str>,
    pub icon: Option<&'static str>,
    /// The composite topic that carries the value, for a member of a bit decoding.
    pub register_topic: Option<&'static str>,
    /// Whether the value is the member `key` of the topic's JSON object.
    pub from_key: bool,
}

/// One control of the discovery table.
#[derive(Clone, Copy, Debug)]
pub enum Control {
    Switch(&'static str, &'static str),
    NumberPercent(Register, &'static str),
    Number(Register, &'static str),
    TimeRange(&'static str, &'static str),
}

/// A descriptor and the retained topic it is published on.
#[derive(Clone, Debug)]
pub enum Discovery {
    Switch(String, Switch),
    Number(String, Number),
    Text(String, Text),
    Sensor(String, Entity),
}

/// Replaces every `/` by `_`.
pub open spec fn topic_safe(s: Seq<char>) -> Seq<char> {
    s.map_values(|c: char| if c == '/' { '_' } else { c })
}

/// Replaces every `/` by `_`: a slash separates topic levels.
pub fn make_topic_safe(s: &str) -> (r: String)
    ensures
        r@ == topic_safe(s@),
{
    let n = s.unicode_len();
    let mut r = String::new();
    let mut i: usize = 0;
    while i < n
        invariant
            n == s@.len(),
            0 <= i <= n,
            r@ =~= topic_safe(s@.subrange(0, i as int)),
        decreases n - i,
    {
        let c = s.get_char(i);
        push_char(&mut r, if c == '/' { '_' } else { c });
        i = i + 1;
    }
    assert(s@.subrange(0, n as int) =~= s@);
    r
}

/// The plain values that configure discovery for one inverter.
#[derive(Clone, Debug)]
pub struct Config {
    pub datalog: Serial,
    pub namespace: String,
    pub ha_prefix: String,
}

/// `lxp_{datalog}`.
pub open spec fn device_id(d: Seq<u8>) -> Seq<char> {
    "lxp_"@ + Serial::text_of(d)
}

impl Config {
    pub fn new(datalog: Serial, namespace: &str, ha_prefix: &str) -> (r: Config)
        ensures
            r.datalog == datalog,
            r.namespace@ == namespace@,
            r.ha_prefix@ == ha_prefix@,
    {
        Config {
            datalog,
            namespace: String::from_str(namespace),
            ha_prefix: String::from_str(ha_prefix),
        }
    }

    /// `{prefix}/{kind}/lxp_{datalog}/{name, with / as _}/config`.
    pub open spec fn discovery_topic(&self, kind: Seq<char>, name: Seq<char>) -> Seq<char> {
        self.ha_prefix@ + "/"@ + kind + "/"@ + device_id(self.datalog@) + "/"@ + topic_safe(name)
            + "/config"@
    }

    pub fn ha_discovery_topic(&self, kind: &str, name: &str) -> (r: String)
        ensures
            r@ == self.discovery_topic(kind@, name@),
    {
        let mut s = self.ha_prefix.clone();
        s.append("/");
        s.append(kind);
        s.append("/lxp_");
        s.append(self.datalog.to_text().as_str());
        s.append("/");
        s.append(make_topic_safe(name).as_str());
        s.append("/config");
        proof {
            assert("/"@ + "lxp_"@ =~= "/lxp_"@) by {
                reveal_strlit("/");
                reveal_strlit("lxp_");
                reveal_strlit("/lxp_");
            }
            assert(s@ =~= self.discovery_topic(kind@, name@));
        }
        s
    }

    /// `lxp_{datalog}_{name}`.
    pub open spec fn spec_unique_id(&self, name: Seq<char>) -> Seq<char> {
        device_id(self.datalog@) + "_"@ + name
    }

    pub fn unique_id(&self, name: &str) -> (r: String)
        ensures
            r@ == self.spec_unique_id(name@),
    {
        let mut s = String::from_str("lxp_");
        s.append(self.datalog.to_text().as_str());
        s.append("_");
        s.append(name);
        s
    }

    pub open spec fn device_ok(&self, d: Device) -> bool {
        &&& d.identifiers@[0]@ == device_id(self.datalog@)
        &&& d.manufacturer@ == "LuxPower"@
        &&& d.name@ == device_id(self.datalog@)
    }

    pub fn device(&self) -> (r: Device)
        ensures
            self.device_ok(r),
    {
        let mut id = String::from_str("lxp_");
        id.append(self.datalog.to_text().as_str());
        let name = id.clone();
        Device { identifiers: [id], manufacturer: String::from_str("LuxPower"), name }
    }

    /// `{namespace}/LWT`.
    pub open spec fn availability_ok(&self, a: Availability) -> bool {
        a.topic@ == self.namespace@ + "/LWT"@
    }

    pub fn availability(&self) -> (r: Availability)
        ensures
            self.availability_ok(r),
    {
        let mut topic = self.namespace.clone();
        topic.append("/LWT");
        Availability { topic }
    }

    /// `{namespace}/{datalog}/` and `{namespace}/cmd/{datalog}/set/`, the state and command prefixes.
    pub open spec fn state_prefix(&self) -> Seq<char> {
        self.namespace@ + "/"@ + Serial::text_of(self.datalog@) + "/"@
    }

    pub open spec fn command_prefix(&self) -> Seq<char> {
        self.namespace@ + "/cmd/"@ + Serial::text_of(self.datalog@) + "/set/"@
    }

    fn make_state_prefix(&self) -> (r: String)
        ensures
            r@ == self.state_prefix(),
    {
        let mut s = self.namespace.clone();
        s.append("/");
        s.append(self.datalog.to_text().as_str());
        s.append("/");
        s
    }

    fn make_command_prefix(&self) -> (r: String)
        ensures
            r@ == self.command_prefix(),
    {
        let mut s = self.namespace.clone();
        s.append("/cmd/");
        s.append(self.datalog.to_text().as_str());
        s.append("/set/");
        s
    }

    /// The descriptor of the switch `name` over a bit of holding register 21.
    pub open spec fn switch_ok(&self, name: Seq<char>, label: Seq<char>, topic: Seq<char>, s: Switch) -> bool {
        &&& topic == self.discovery_topic("switch"@, name)
        &&& s.value_template@ == "{{ value_json."@ + name + "_en }}"@
        &&& s.state_topic@ == self.state_prefix() + "hold/21/bits"@
        &&& s.command_topic@ == self.command_prefix() + name
        &&& s.unique_id@ == self.spec_unique_id(name)
        &&& s.name@ == label
        &&& self.device_ok(s.device)
        &&& self.availability_ok(s.availability)
    }

    pub fn switch(&self, name: &str, label: &str) -> (r: (String, Switch))
        ensures
            self.switch_ok(name@, label@, r.0@, r.1),
    {
        let mut value_template = String::from_str("{{ value_json.");
        value_template.append(name);
        value_template.append("_en }}");
        let mut state_topic = self.make_state_prefix();
        state_topic.append("hold/21/bits");
        let mut command_topic = self.make_command_prefix();
        command_topic.append(name);
        let config = Switch {
            name: String::from_str(label),
            state_topic,
            command_topic,
            value_template,
            unique_id: self.unique_id(name),
            device: self.device(),
            availability: self.availability(),
        };
        (self.ha_discovery_topic("switch", name), config)
    }

    /// The descriptor of a number over holding register `register`.
    pub open spec fn number_ok(
        &self,
        register: Register,
        label: Seq<char>,
        percent: bool,
        topic: Seq<char>,
        n: Number,
    ) -> bool {
        let reg = register.spec_value();
        let config = spec_register_config(reg);
        &&& topic == self.discovery_topic("number"@, register_name(register))
        &&& n.name@ == label
        &&& n.state_topic@ == self.state_prefix() + "hold/"@ + decimal_text(reg as nat)
        &&& n.command_topic@ == self.command_prefix() + "hold/"@ + decimal_text(reg as nat)
        &&& n.value_template@ == "{{ float(value) }}"@
        &&& n.unique_id@ == device_id(self.datalog@) + "_number_"@ + register_name(register)
        &&& self.device_ok(n.device)
        &&& self.availability_ok(n.availability)
        &&& n.min == 0
        &&& n.max == (if percent { 200u32 } else { 65535u32 })
        &&& n.step_divisor == (match config {
            Some((_, div, _)) => div,
            None => 1u16,
        })
        &&& n.unit_of_measurement@ == (if percent {
            "%"@
        } else {
            match config {
                Some((_, _, unit)) => unit,
                None => Seq::<char>::empty(),
            }
        })
        &&& n.mode@ == (if percent { "slider"@ } else { "box"@ })
    }

    fn number_of(&self, register: Register, label: &str, percent: bool) -> (r: (String, Number))
        ensures
            self.number_ok(register, label@, percent, r.0@, r.1),
    {
        let reg = register.value();
        let config = find_register_config(reg);
        let step_divisor: u16 = match config {
            Some(c) => c.divisor,
            None => 1,
        };
        let unit: &str = if percent {
            "%"
        } else {
            match config {
                Some(c) => c.unit_of_measurement,
                None => "",
            }
        };
        proof {
            reveal_strlit("");
            assert(""@ =~= Seq::<char>::empty());
        }
        let reg_text = nat_to_text(reg as u64);
        let mut state_topic = self.make_state_prefix();
        state_topic.append("hold/");
        state_topic.append(reg_text.as_str());
        let mut command_topic = self.make_command_prefix();
        command_topic.append("hold/");
        command_topic.append(reg_text.as_str());
        let mut unique_id = String::from_str("lxp_");
        unique_id.append(self.datalog.to_text().as_str());
        unique_id.append("_number_");
        unique_id.append(register.name());
        proof {
            assert(unique_id@ =~= device_id(self.datalog@) + "_number_"@ + register_name(register));
        }
        let config = Number {
            name: String::from_str(label),
            state_topic,
            command_topic,
            value_template: String::from_str("{{ float(value) }}"),
            unique_id,
            device: self.device(),
            availability: self.availability(),
            min: 0,
            max: if percent { 200 } else { 65535 },
            step_divisor,
            unit_of_measurement: String::from_str(unit),
            mode: String::from_str(if percent { "slider" } else { "box" }),
        };
        (self.ha_discovery_topic("number", register.name()), config)
    }

    /// A percentage slider from 0 to 200 over a holding register.
    pub fn number_percent(&self, register: Register, label: &str) -> (r: (String, Number))
        ensures
            self.number_ok(register, label@, true, r.0@, r.1),
    {
        self.number_of(register, label, true)
    }

    /// A number box from 0 to 65535 over a holding register, in the register's unit.
    pub fn number(&self, register: Register, label: &str) -> (r: (String, Number))
        ensures
            self.number_ok(register, label@, false, r.0@, r.1),
    {
        self.number_of(register, label, false)
    }

    /// The descriptor of the time range `name`, such as `ac_charge/1`.
    pub open spec fn time_range_ok(&self, name: Seq<char>, label: Seq<char>, topic: Seq<char>, t: Text) -> bool {
        &&& topic == self.discovery_topic("text"@, name)
        &&& t.name@ == label
        &&& t.state_topic@ == self.state_prefix() + name
        &&& t.command_topic@ == self.command_prefix() + name
        &&& t.command_template@ == "{% set parts = value.split(\"-\") %}{\"start\":\"{{ parts[0] }}\", \"end\":\"{{ parts[1] }}\"}"@
        &&& t.value_template@ == "{{ value_json[\"start\"] }}-{{ value_json[\"end\"] }}"@
        &&& t.unique_id@ == device_id(self.datalog@) + "_text_"@ + name
        &&& self.device_ok(t.device)
        &&& self.availability_ok(t.availability)
        &&& t.pattern@ == "([01]?[0-9]|2[0-3]):[0-5][0-9]-([01]?[0-9]|2[0-3]):[0-5][0-9]"@
    }

    pub fn time_range(&self, name: &str, label: &str) -> (r: (String, Text))
        ensures
            self.time_range_ok(name@, label@, r.0@, r.1),
    {
        let mut state_topic = self.make_state_prefix();
        state_topic.append(name);
        let mut command_topic = self.make_command_prefix();
        command_topic.append(name);
        let mut unique_id = String::from_str("lxp_");
        unique_id.append(self.datalog.to_text().as_str());
        unique_id.append("_text_");
        unique_id.append(name);
        let config = Text {
            name: String::from_str(label),
            state_topic,
            command_topic,
            command_template: String::from_str(
                "{% set parts = value.split(\"-\") %}{\"start\":\"{{ parts[0] }}\", \"end\":\"{{ parts[1] }}\"}",
            ),
            value_template: String::from_str(
                "{{ value_json[\"start\"] }}-{{ value_json[\"end\"] }}",
            ),
            unique_id,
            device: self.device(),
            availability: self.availability(),
            pattern: String::from_str(
                "([01]?[0-9]|2[0-3]):[0-5][0-9]-([01]?[0-9]|2[0-3]):[0-5][0-9]",
            ),
        };
        (self.ha_discovery_topic("text", name), config)
    }
}

} // verus!

verus! {

pub open spec fn sensor_table_spec_0() -> Seq<SensorSpec> {
    seq![
        SensorSpec { key: "status", name: "Status", is_binary_sensor: false, entity_category: None, state_class: None, device_class: Some("enum"), unit_of_measurement: None, icon: None, register_topic: None, from_key: false },
        SensorSpec { key: "soc", name: "State of Charge", is_binary_sensor: false, entity_category: None, state_class: Some("measurement"), device_class: Some("battery"), unit_of_measurement: Some("%"), icon: None, register_topic: None, from_key: false },
        SensorSpec { key: "fault_code", name: "Fault Code", is_binary_sensor: false, entity_category: Some("diagnostic"), state_class: None, device_class: Some("enum"), unit_of_measurement: None, icon: Some("mdi:alert"), register_topic: None, from_key: false },
        SensorSpec { key: "warning_code", name: "Warning Code", is_binary_sensor: false, entity_category: Some("diagnostic"), state_class: None, device_class: Some("enum"), unit_of_measurement: None, icon: Some("mdi:alert-outline"), register_topic: None, from_key: false },
        SensorSpec { key: "ac_input_type", name: "AC Input Type", is_binary_sensor: false, entity_category: Some("diagnostic"), state_class: None, device_class: Some("enum"), unit_of_measurement: None, icon: None, register_topic: Some("register_77"), from_key: true },
        SensorSpec { key: "ac_couple_inverter_flow", name: "AC Couple Inverter Flow", is_binary_sensor: true, entity_category: Some("diagnostic"), state_class: None, device_class: None, unit_of_measurement: None, icon: None, register_topic: Some("register_77"), from_key: true },
        SensorSpec { key: "ac_couple_enable", name: "AC Couple Enable", is_binary_sensor: true, entity_category: Some("diagnostic"), state_class: None, device_class: None, unit_of_measurement: None, icon: None, register_topic: Some("register_77"), from_key: true },
        SensorSpec { key: "master_or_slave", name: "Parallel Inverter Role", is_binary_sensor: false, entity_category: Some("diagnostic"), state_class: None, device_class: None, unit_of_measurement: None, icon: None, register_topic: Some("register_113"), from_key: true },
    ]
}

fn sensor_table_0() -> (r: Vec<SensorSpec>)
    ensures
        r@ == sensor_table_spec_0(),
{
    let mut r: Vec<SensorSpec> = Vec::new();
    r.push(SensorSpec { key: "status", name: "Status", is_binary_sensor: false, entity_category: None, state_class: None, device_class: Some("enum"), unit_of_measurement: None, icon: None, register_topic: None, from_key: false });
    r.push(SensorSpec { key: "soc", name: "State of Charge", is_binary_sensor: false, entity_category: None, state_class: Some("measurement"), device_class: Some("battery"), unit_of_measurement: Some("%"), icon: None, register_topic: None, from_key: false });
    r.push(SensorSpec { key: "fault_code", name: "Fault Code", is_binary_sensor: false, entity_category: Some("diagnostic"), state_class: None, device_class: Some("enum"), unit_of_measurement: None, icon: Some("mdi:alert"), register_topic: None, from_key: false });
    r.push(SensorSpec { key: "warning_code", name: "Warning Code", is_binary_sensor: false, entity_category: Some("diagnostic"), state_class: None, device_class: Some("enum"), unit_of_measurement: None, icon: Some("mdi:alert-outline"), register_topic: None, from_key: false });
    r.push(SensorSpec { key: "ac_input_type", name: "AC Input Type", is_binary_sensor: false, entity_category: Some("diagnostic"), state_class: None, device_class: Some("enum"), unit_of_measurement: None, icon: None, register_topic: Some("register_77"), from_key: true });
    r.push(SensorSpec { key: "ac_couple_inverter_flow", name: "AC Couple Inverter Flow", is_binary_sensor: true, entity_category: Some("diagnostic"), state_class: None, device_class: None, unit_of_measurement: None, icon: None, register_topic: Some("register_77"), from_key: true });
    r.push(SensorSpec { key: "ac_couple_enable", name: "AC Couple Enable", is_binary_sensor: true, entity_category: Some("diagnostic"), state_class: None, device_class: None, unit_of_measurement: None, icon: None, register_topic: Some("register_77"), from_key: true });
    r.push(SensorSpec { key: "master_or_slave", name: "Parallel Inverter Role", is_binary_sensor: false, entity_category: Some("diagnostic"), state_class: None, device_class: None, unit_of_measurement: None, icon: None, register_topic: Some("register_113"), from_key: true });
    assert(r@ =~= sensor_table_spec_0());
    r
}

pub open spec fn sensor_table_spec_1() -> Seq<SensorSpec> {
    seq![
        SensorSpec { key: "single_or_three_phase", name: "Parallel Inverter Phase", is_binary_sensor: false, entity_category: Some("diagnostic"), state_class: None, device_class: None, unit_of_measurement: None, icon: None, register_topic: Some("register_113"), from_key: true },
        SensorSpec { key: "phases_sequence", name: "Parallel Inverter Phases Sequence", is_binary_sensor: false, entity_category: Some("diagnostic"), state_class: None, device_class: None, unit_of_measurement: None, icon: None, register_topic: Some("register_113"), from_key: true },
        SensorSpec { key: "parallel_num", name: "Parallel Inverter Count", is_binary_sensor: false, entity_category: Some("diagnostic"), state_class: None, device_class: None, unit_of_measurement: None, icon: None, register_topic: Some("register_113"), from_key: true },
        SensorSpec { key: "afci_ch1_current", name: "AFCI Channel 1 Current", is_binary_sensor: false, entity_category: Some("diagnostic"), state_class: Some("measurement"), device_class: Some("current"), unit_of_measurement: Some("mA"), icon: None, register_topic: None, from_key: false },
        SensorSpec { key: "afci_ch2_current", name: "AFCI Channel 2 Current", is_binary_sensor: false, entity_category: Some("diagnostic"), state_class: Some("measurement"), device_class: Some("current"), unit_of_measurement: Some("mA"), icon: None, register_topic: None, from_key: false },
        SensorSpec { key: "afci_ch3_current", name: "AFCI Channel 3 Current", is_binary_sensor: false, entity_category: Some("diagnostic"), state_class: Some("measurement"), device_class: Some("current"), unit_of_measurement: Some("mA"), icon: None, register_topic: None, from_key: false },
        SensorSpec { key: "afci_ch4_current", name: "AFCI Channel 4 Current", is_binary_sensor: false, entity_category: Some("diagnostic"), state_class: Some("measurement"), device_class: Some("current"), unit_of_measurement: Some("mA"), icon: None, register_topic: None, from_key: false },
        SensorSpec { key: "afci_flag_arc_alarm_ch1", name: "AFCI ARC Alarm Channel 1", is_binary_sensor: true, entity_category: Some("diagnostic"), state_class: None, device_class: None, unit_of_measurement: None, icon: None, register_topic: Some("register_144"), from_key: true },
    ]
}

fn sensor_table_1() -> (r: Vec<SensorSpec>)
    ensures
        r@ == sensor_table_spec_1(),
{
    let mut r: Vec<SensorSpec> = Vec::new();
    r.push(SensorSpec { key: "single_or_three_phase", name: "Parallel Inverter Phase", is_binary_sensor: false, entity_category: Some("diagnostic"), state_class: None, device_class: None, unit_of_measurement: None, icon: None, register_topic: Some("register_113"), from_key: true });
    r.push(SensorSpec { key: "phases_sequence", name: "Parallel Inverter Phases Sequence", is_binary_sensor: false, entity_category: Some("diagnostic"), state_class: None, device_class: None, unit_of_measurement: None, icon: None, register_topic: Some("register_113"), from_key: true });
    r.push(SensorSpec { key: "parallel_num", name: "Parallel Inverter Count", is_binary_sensor: false, entity_category: Some("diagnostic"), state_class: None, device_class: None, unit_of_measurement: None, icon: None, register_topic: Some("register_113"), from_key: true });
    r.push(SensorSpec { key: "afci_ch1_current", name: "AFCI Channel 1 Current", is_binary_sensor: false, entity_category: Some("diagnostic"), state_class: Some("measurement"), device_class: Some("current"), unit_of_measurement: Some("mA"), icon: None, register_topic: None, from_key: false });
    r.push(SensorSpec { key: "afci_ch2_current", name: "AFCI Channel 2 Current", is_binary_sensor: false, entity_category: Some("diagnostic"), state_class: Some("measurement"), device_class: Some("current"), unit_of_measurement: Some("mA"), icon: None, register_topic: None, from_key: false });
    r.push(SensorSpec { key: "afci_ch3_current", name: "AFCI Channel 3 Current", is_binary_sensor: false, entity_category: Some("diagnostic"), state_class: Some("measurement"), device_class: Some("current"), unit_of_measurement: Some("mA"), icon: None, register_topic: None, from_key: false });
    r.push(SensorSpec { key: "afci_ch4_current", name: "AFCI Channel 4 Current", is_binary_sensor: false, entity_category: Some("diagnostic"), state_class: Some("measurement"), device_class: Some("current"), unit_of_measurement: Some("mA"), icon: None, register_topic: None, from_key: false });
    r.push(SensorSpec { key: "afci_flag_arc_alarm_ch1", name: "AFCI ARC Alarm Channel 1", is_binary_sensor: true, entity_category: Some("diagnostic"), state_class: None, device_class: None, unit_of_measurement: None, icon: None, register_topic: Some("register_144"), from_key: true });
    assert(r@ =~= sensor_table_spec_1());
    r
}

pub open spec fn sensor_table_spec_2() -> Seq<SensorSpec> {
    seq![
        SensorSpec { key: "afci_flag_arc_alarm_ch2", name: "AFCI ARC Alarm Channel 2", is_binary_sensor: true, entity_category: Some("diagnostic"), state_class: None, device_class: None, unit_of_measurement: None, icon: None, register_topic: Some("register_144"), from_key: true },
        SensorSpec { key: "afci_flag_arc_alarm_ch3", name: "AFCI ARC Alarm Channel 3", is_binary_sensor: true, entity_category: Some("diagnostic"), state_class: None, device_class: None, unit_of_measurement: None, icon: None, register_topic: Some("register_144"), from_key: true },
        SensorSpec { key: "afci_flag_arc_alarm_ch4", name: "AFCI ARC Alarm Channel 4", is_binary_sensor: true, entity_category: Some("diagnostic"), state_class: None, device_class: None, unit_of_measurement: None, icon: None, register_topic: Some("register_144"), from_key: true },
        SensorSpec { key: "afci_flag_self_test_fail_ch1", name: "AFCI Self Test Fail Channel 1", is_binary_sensor: false, entity_category: Some("diagnostic"), state_class: None, device_class: None, unit_of_measurement: None, icon: None, register_topic: Some("register_144"), from_key: true },
        SensorSpec { key: "afci_flag_self_test_fail_ch2", name: "AFCI Self Test Fail Channel 2", is_binary_sensor: true, entity_category: Some("diagnostic"), state_class: None, device_class: None, unit_of_measurement: None, icon: None, register_topic: Some("register_144"), from_key: true },
        SensorSpec { key: "afci_flag_self_test_fail_ch3", name: "AFCI Self Test Fail Channel 3", is_binary_sensor: true, entity_category: Some("diagnostic"), state_class: None, device_class: None, unit_of_measurement: None, icon: None, register_topic: Some("register_144"), from_key: true },
        SensorSpec { key: "afci_flag_self_test_fail_ch4", name: "AFCI Self Test Fail Channel 4", is_binary_sensor: true, entity_category: Some("diagnostic"), state_class: None, device_class: None, unit_of_measurement: None, icon: None, register_topic: Some("register_144"), from_key: true },
        SensorSpec { key: "afci_arc_ch1", name: "Real Time Arc of Channel 1", is_binary_sensor: false, entity_category: Some("diagnostic"), state_class: None, device_class: None, unit_of_measurement: None, icon: None, register_topic: None, from_key: false },
    ]
}

fn sensor_table_2() -> (r: Vec<SensorSpec>)
    ensures
        r@ == sensor_table_spec_2(),
{
    let mut r: Vec<SensorSpec> = Vec::new();
    r.push(SensorSpec { key: "afci_flag_arc_alarm_ch2", name: "AFCI ARC Alarm Channel 2", is_binary_sensor: true, entity_category: Some("diagnostic"), state_class: None, device_class: None, unit_of_measurement: None, icon: None, register_topic: Some("register_144"), from_key: true });
    r.push(SensorSpec { key: "afci_flag_arc_alarm_ch3", name: "AFCI ARC Alarm Channel 3", is_binary_sensor: true, entity_category: Some("diagnostic"), state_class: None, device_class: None, unit_of_measurement: None, icon: None, register_topic: Some("register_144"), from_key: true });
    r.push(SensorSpec { key: "afci_flag_arc_alarm_ch4", name: "AFCI ARC Alarm Channel 4", is_binary_sensor: true, entity_category: Some("diagnostic"), state_class: None, device_class: None, unit_of_measurement: None, icon: None, register_topic: Some("register_144"), from_key: true });
    r.push(SensorSpec { key: "afci_flag_self_test_fail_ch1", name: "AFCI Self Test Fail Channel 1", is_binary_sensor: false, entity_category: Some("diagnostic"), state_class: None, device_class: None, unit_of_measurement: None, icon: None, register_topic: Some("register_144"), from_key: true });
    r.push(SensorSpec { key: "afci_flag_self_test_fail_ch2", name: "AFCI Self Test Fail Channel 2", is_binary_sensor: true, entity_category: Some("diagnostic"), state_class: None, device_class: None, unit_of_measurement: None, icon: None, register_topic: Some("register_144"), from_key: true });
    r.push(SensorSpec { key: "afci_flag_self_test_fail_ch3", name: "AFCI Self Test Fail Channel 3", is_binary_sensor: true, entity_category: Some("diagnostic"), state_class: None, device_class: None, unit_of_measurement: None, icon: None, register_topic: Some("register_144"), from_key: true });
    r.push(SensorSpec { key: "afci_flag_self_test_fail_ch4", name: "AFCI Self Test Fail Channel 4", is_binary_sensor: true, entity_category: Some("diagnostic"), state_class: None, device_class: None, unit_of_measurement: None, icon: None, register_topic: Some("register_144"), from_key: true });
    r.push(SensorSpec { key: "afci_arc_ch1", name: "Real Time Arc of Channel 1", is_binary_sensor: false, entity_category: Some("diagnostic"), state_class: None, device_class: None, unit_of_measurement: None, icon: None, register_topic: None, from_key: false });
    assert(r@ =~= sensor_table_spec_2());
    r
}

pub open spec fn sensor_table_spec_3() -> Seq<SensorSpec> {
    seq![
        SensorSpec { key: "afci_arc_ch2", name: "Real Time Arc of Channel 2", is_binary_sensor: false, entity_category: Some("diagnostic"), state_class: None, device_class: None, unit_of_measurement: None, icon: None, register_topic: None, from_key: false },
        SensorSpec { key: "afci_arc_ch3", name: "Real Time Arc of Channel 3", is_binary_sensor: false, entity_category: Some("diagnostic"), state_class: None, device_class: None, unit_of_measurement: None, icon: None, register_topic: None, from_key: false },
        SensorSpec { key: "afci_arc_ch4", name: "Real Time Arc of Channel 4", is_binary_sensor: false, entity_category: Some("diagnostic"), state_class: None, device_class: None, unit_of_measurement: None, icon: None, register_topic: None, from_key: false },
        SensorSpec { key: "afci_max_arc_ch1", name: "Max Arc of Channel 1", is_binary_sensor: false, entity_category: Some("diagnostic"), state_class: None, device_class: None, unit_of_measurement: None, icon: None, register_topic: None, from_key: false },
        SensorSpec { key: "afci_max_arc_ch2", name: "Max Arc of Channel 2", is_binary_sensor: false, entity_category: Some("diagnostic"), state_class: None, device_class: None, unit_of_measurement: None, icon: None, register_topic: None, from_key: false },
        SensorSpec { key: "afci_max_arc_ch3", name: "Max Arc of Channel 3", is_binary_sensor: false, entity_category: Some("diagnostic"), state_class: None, device_class: None, unit_of_measurement: None, icon: None, register_topic: None, from_key: false },
        SensorSpec { key: "afci_max_arc_ch4", name: "Max Arc of Channel 4", is_binary_sensor: false, entity_category: Some("diagnostic"), state_class: None, device_class: None, unit_of_measurement: None, icon: None, register_topic: None, from_key: false },
        SensorSpec { key: "v_bat", name: "Battery Voltage", is_binary_sensor: false, entity_category: None, state_class: Some("measurement"), device_class: Some("voltage"), unit_of_measurement: Some("V"), icon: None, register_topic: None, from_key: false },
    ]
}

fn sensor_table_3() -> (r: Vec<SensorSpec>)
    ensures
        r@ == sensor_table_spec_3(),
{
    let mut r: Vec<SensorSpec> = Vec::new();
    r.push(SensorSpec { key: "afci_arc_ch2", name: "Real Time Arc of Channel 2", is_binary_sensor: false, entity_category: Some("diagnostic"), state_class: None, device_class: None, unit_of_measurement: None, icon: None, register_topic: None, from_key: false });
    r.push(SensorSpec { key: "afci_arc_ch3", name: "Real Time Arc of Channel 3", is_binary_sensor: false, entity_category: Some("diagnostic"), state_class: None, device_class: None, unit_of_measurement: None, icon: None, register_topic: None, from_key: false });
    r.push(SensorSpec { key: "afci_arc_ch4", name: "Real Time Arc of Channel 4", is_binary_sensor: false, entity_category: Some("diagnostic"), state_class: None, device_class: None, unit_of_measurement: None, icon: None, register_topic: None, from_key: false });
    r.push(SensorSpec { key: "afci_max_arc_ch1", name: "Max Arc of Channel 1", is_binary_sensor: false, entity_category: Some("diagnostic"), state_class: None, device_class: None, unit_of_measurement: None, icon: None, register_topic: None, from_key: false });
    r.push(SensorSpec { key: "afci_max_arc_ch2", name: "Max Arc of Channel 2", is_binary_sensor: false, entity_category: Some("diagnostic"), state_class: None, device_class: None, unit_of_measurement: None, icon: None, register_topic: None, from_key: false });
    r.push(SensorSpec { key: "afci_max_arc_ch3", name: "Max Arc of Channel 3", is_binary_sensor: false, entity_category: Some("diagnostic"), state_class: None, device_class: None, unit_of_measurement: None, icon: None, register_topic: None, from_key: false });
    r.push(SensorSpec { key: "afci_max_arc_ch4", name: "Max Arc of Channel 4", is_binary_sensor: false, entity_category: Some("diagnostic"), state_class: None, device_class: None, unit_of_measurement: None, icon: None, register_topic: None, from_key: false });
    r.push(SensorSpec { key: "v_bat", name: "Battery Voltage", is_binary_sensor: false, entity_category: None, state_class: Some("measurement"), device_class: Some("voltage"), unit_of_measurement: Some("V"), icon: None, register_topic: None, from_key: false });
    assert(r@ =~= sensor_table_spec_3());
    r
}

pub open spec fn sensor_table_spec_4() -> Seq<SensorSpec> {
    seq![
        SensorSpec { key: "v_ac_r", name: "Grid Voltage", is_binary_sensor: false, entity_category: None, state_class: Some("measurement"), device_class: Some("voltage"), unit_of_measurement: Some("V"), icon: None, register_topic: None, from_key: false },
        SensorSpec { key: "v_pv_1", name: "PV Voltage (String 1)", is_binary_sensor: false, entity_category: None, state_class: Some("measurement"), device_class: Some("voltage"), unit_of_measurement: Some("V"), icon: None, register_topic: None, from_key: false },
        SensorSpec { key: "v_pv_2", name: "PV Voltage (String 2)", is_binary_sensor: false, entity_category: None, state_class: Some("measurement"), device_class: Some("voltage"), unit_of_measurement: Some("V"), icon: None, register_topic: None, from_key: false },
        SensorSpec { key: "v_pv_3", name: "PV Voltage (String 3)", is_binary_sensor: false, entity_category: None, state_class: Some("measurement"), device_class: Some("voltage"), unit_of_measurement: Some("V"), icon: None, register_topic: None, from_key: false },
        SensorSpec { key: "v_eps_r", name: "EPS Voltage", is_binary_sensor: false, entity_category: None, state_class: Some("measurement"), device_class: Some("voltage"), unit_of_measurement: Some("V"), icon: None, register_topic: None, from_key: false },
        SensorSpec { key: "v_bus_1", name: "Bus 1 Voltage", is_binary_sensor: false, entity_category: None, state_class: Some("measurement"), device_class: Some("voltage"), unit_of_measurement: Some("V"), icon: None, register_topic: None, from_key: false },
        SensorSpec { key: "v_bus_2", name: "Bus 2 Voltage", is_binary_sensor: false, entity_category: None, state_class: Some("measurement"), device_class: Some("voltage"), unit_of_measurement: Some("V"), icon: None, register_topic: None, from_key: false },
        SensorSpec { key: "v_half_bus", name: "Half Bus Voltage", is_binary_sensor: false, entity_category: None, state_class: Some("measurement"), device_class: Some("voltage"), unit_of_measurement: Some("V"), icon: None, register_topic: None, from_key: false },
    ]
}

fn sensor_table_4() -> (r: Vec<SensorSpec>)
    ensures
        r@ == sensor_table_spec_4(),
{
    let mut r: Vec<SensorSpec> = Vec::new();
    r.push(SensorSpec { key: "v_ac_r", name: "Grid Voltage", is_binary_sensor: false, entity_category: None, state_class: Some("measurement"), device_class: Some("voltage"), unit_of_measurement: Some("V"), icon: None, register_topic: None, from_key: false });
    r.push(SensorSpec { key: "v_pv_1", name: "PV Voltage (String 1)", is_binary_sensor: false, entity_category: None, state_class: Some("measurement"), device_class: Some("voltage"), unit_of_measurement: Some("V"), icon: None, register_topic: None, from_key: false });
    r.push(SensorSpec { key: "v_pv_2", name: "PV Voltage (String 2)", is_binary_sensor: false, entity_category: None, state_class: Some("measurement"), device_class: Some("voltage"), unit_of_measurement: Some("V"), icon: None, register_topic: None, from_key: false });
    r.push(SensorSpec { key: "v_pv_3", name: "PV Voltage (String 3)", is_binary_sensor: false, entity_category: None, state_class: Some("measurement"), device_class: Some("voltage"), unit_of_measurement: Some("V"), icon: None, register_topic: None, from_key: false });
    r.push(SensorSpec { key: "v_eps_r", name: "EPS Voltage", is_binary_sensor: false, entity_category: None, state_class: Some("measurement"), device_class: Some("voltage"), unit_of_measurement: Some("V"), icon: None, register_topic: None, from_key: false });
    r.push(SensorSpec { key: "v_bus_1", name: "Bus 1 Voltage", is_binary_sensor: false, entity_category: None, state_class: Some("measurement"), device_class: Some("voltage"), unit_of_measurement: Some("V"), icon: None, register_topic: None, from_key: false });
    r.push(SensorSpec { key: "v_bus_2", name: "Bus 2 Voltage", is_binary_sensor: false, entity_category: None, state_class: Some("measurement"), device_class: Some("voltage"), unit_of_measurement: Some("V"), icon: None, register_topic: None, from_key: false });
    r.push(SensorSpec { key: "v_half_bus", name: "Half Bus Voltage", is_binary_sensor: false, entity_category: None, state_class: Some("measurement"), device_class: Some("voltage"), unit_of_measurement: Some("V"), icon: None, register_topic: None, from_key: false });
    assert(r@ =~= sensor_table_spec_4());
    r
}

pub open spec fn sensor_table_spec_5() -> Seq<SensorSpec> {
    seq![
        SensorSpec { key: "v_eps_l1", name: "EPS Voltage L1", is_binary_sensor: false, entity_category: None, state_class: Some("measurement"), device_class: Some("voltage"), unit_of_measurement: Some("V"), icon: None, register_topic: None, from_key: false },
        SensorSpec { key: "v_eps_l2", name: "EPS Voltage L2", is_binary_sensor: false, entity_category: None, state_class: Some("measurement"), device_class: Some("voltage"), unit_of_measurement: Some("V"), icon: None, register_topic: None, from_key: false },
        SensorSpec { key: "f_ac", name: "Grid Frequency", is_binary_sensor: false, entity_category: None, state_class: Some("measurement"), device_class: Some("frequency"), unit_of_measurement: Some("Hz"), icon: None, register_topic: None, from_key: false },
        SensorSpec { key: "f_eps", name: "EPS Frequency", is_binary_sensor: false, entity_category: None, state_class: Some("measurement"), device_class: Some("frequency"), unit_of_measurement: Some("Hz"), icon: None, register_topic: None, from_key: false },
        SensorSpec { key: "s_eps", name: "Apparent EPS Power", is_binary_sensor: false, entity_category: None, state_class: Some("measurement"), device_class: Some("apparent_power"), unit_of_measurement: Some("VA"), icon: None, register_topic: None, from_key: false },
        SensorSpec { key: "s_eps_l1", name: "Apparent EPS Power L1", is_binary_sensor: false, entity_category: None, state_class: Some("measurement"), device_class: Some("apparent_power"), unit_of_measurement: Some("VA"), icon: None, register_topic: None, from_key: false },
        SensorSpec { key: "s_eps_l2", name: "Apparent EPS Power L2", is_binary_sensor: false, entity_category: None, state_class: Some("measurement"), device_class: Some("apparent_power"), unit_of_measurement: Some("VA"), icon: None, register_topic: None, from_key: false },
        SensorSpec { key: "p_pv", name: "PV Power (Array)", is_binary_sensor: false, entity_category: None, state_class: Some("measurement"), device_class: Some("power"), unit_of_measurement: Some("W"), icon: None, register_topic: None, from_key: false },
    ]
}

fn sensor_table_5() -> (r: Vec<SensorSpec>)
    ensures
        r@ == sensor_table_spec_5(),
{
    let mut r: Vec<SensorSpec> = Vec::new();
    r.push(SensorSpec { key: "v_eps_l1", name: "EPS Voltage L1", is_binary_sensor: false, entity_category: None, state_class: Some("measurement"), device_class: Some("voltage"), unit_of_measurement: Some("V"), icon: None, register_topic: None, from_key: false });
    r.push(SensorSpec { key: "v_eps_l2", name: "EPS Voltage L2", is_binary_sensor: false, entity_category: None, state_class: Some("measurement"), device_class: Some("voltage"), unit_of_measurement: Some("V"), icon: None, register_topic: None, from_key: false });
    r.push(SensorSpec { key: "f_ac", name: "Grid Frequency", is_binary_sensor: false, entity_category: None, state_class: Some("measurement"), device_class: Some("frequency"), unit_of_measurement: Some("Hz"), icon: None, register_topic: None, from_key: false });
    r.push(SensorSpec { key: "f_eps", name: "EPS Frequency", is_binary_sensor: false, entity_category: None, state_class: Some("measurement"), device_class: Some("frequency"), unit_of_measurement: Some("Hz"), icon: None, register_topic: None, from_key: false });
    r.push(SensorSpec { key: "s_eps", name: "Apparent EPS Power", is_binary_sensor: false, entity_category: None, state_class: Some("measurement"), device_class: Some("apparent_power"), unit_of_measurement: Some("VA"), icon: None, register_topic: None, from_key: false });
    r.push(SensorSpec { key: "s_eps_l1", name: "Apparent EPS Power L1", is_binary_sensor: false, entity_category: None, state_class: Some("measurement"), device_class: Some("apparent_power"), unit_of_measurement: Some("VA"), icon: None, register_topic: None, from_key: false });
    r.push(SensorSpec { key: "s_eps_l2", name: "Apparent EPS Power L2", is_binary_sensor: false, entity_category: None, state_class: Some("measurement"), device_class: Some("apparent_power"), unit_of_measurement: Some("VA"), icon: None, register_topic: None, from_key: false });
    r.push(SensorSpec { key: "p_pv", name: "PV Power (Array)", is_binary_sensor: false, entity_category: None, state_class: Some("measurement"), device_class: Some("power"), unit_of_measurement: Some("W"), icon: None, register_topic: None, from_key: false });
    assert(r@ =~= sensor_table_spec_5());
    r
}

pub open spec fn sensor_table_spec_6() -> Seq<SensorSpec> {
    seq![
        SensorSpec { key: "p_pv_1", name: "PV Power (String 1)", is_binary_sensor: false, entity_category: None, state_class: Some("measurement"), device_class: Some("power"), unit_of_measurement: Some("W"), icon: None, register_topic: None, from_key: false },
        SensorSpec { key: "p_pv_2", name: "PV Power (String 2)", is_binary_sensor: false, entity_category: None, state_class: Some("measurement"), device_class: Some("power"), unit_of_measurement: Some("W"), icon: None, register_topic: None, from_key: false },
        SensorSpec { key: "p_pv_3", name: "PV Power (String 3)", is_binary_sensor: false, entity_category: None, state_class: Some("measurement"), device_class: Some("power"), unit_of_measurement: Some("W"), icon: None, register_topic: None, from_key: false },
        SensorSpec { key: "p_battery", name: "Battery Power (discharge is negative)", is_binary_sensor: false, entity_category: None, state_class: Some("measurement"), device_class: Some("power"), unit_of_measurement: Some("W"), icon: None, register_topic: None, from_key: false },
        SensorSpec { key: "p_charge", name: "Battery Charge", is_binary_sensor: false, entity_category: None, state_class: Some("measurement"), device_class: Some("power"), unit_of_measurement: Some("W"), icon: None, register_topic: None, from_key: false },
        SensorSpec { key: "p_discharge", name: "Battery Discharge", is_binary_sensor: false, entity_category: None, state_class: Some("measurement"), device_class: Some("power"), unit_of_measurement: Some("W"), icon: None, register_topic: None, from_key: false },
        SensorSpec { key: "p_grid", name: "Grid Power (export is negative)", is_binary_sensor: false, entity_category: None, state_class: Some("measurement"), device_class: Some("power"), unit_of_measurement: Some("W"), icon: None, register_topic: None, from_key: false },
        SensorSpec { key: "p_to_user", name: "Power from Grid", is_binary_sensor: false, entity_category: None, state_class: Some("measurement"), device_class: Some("power"), unit_of_measurement: Some("W"), icon: None, register_topic: None, from_key: false },
    ]
}

fn sensor_table_6() -> (r: Vec<SensorSpec>)
    ensures
        r@ == sensor_table_spec_6(),
{
    let mut r: Vec<SensorSpec> = Vec::new();
    r.push(SensorSpec { key: "p_pv_1", name: "PV Power (String 1)", is_binary_sensor: false, entity_category: None, state_class: Some("measurement"), device_class: Some("power"), unit_of_measurement: Some("W"), icon: None, register_topic: None, from_key: false });
    r.push(SensorSpec { key: "p_pv_2", name: "PV Power (String 2)", is_binary_sensor: false, entity_category: None, state_class: Some("measurement"), device_class: Some("power"), unit_of_measurement: Some("W"), icon: None, register_topic: None, from_key: false });
    r.push(SensorSpec { key: "p_pv_3", name: "PV Power (String 3)", is_binary_sensor: false, entity_category: None, state_class: Some("measurement"), device_class: Some("power"), unit_of_measurement: Some("W"), icon: None, register_topic: None, from_key: false });
    r.push(SensorSpec { key: "p_battery", name: "Battery Power (discharge is negative)", is_binary_sensor: false, entity_category: None, state_class: Some("measurement"), device_class: Some("power"), unit_of_measurement: Some("W"), icon: None, register_topic: None, from_key: false });
    r.push(SensorSpec { key: "p_charge", name: "Battery Charge", is_binary_sensor: false, entity_category: None, state_class: Some("measurement"), device_class: Some("power"), unit_of_measurement: Some("W"), icon: None, register_topic: None, from_key: false });
    r.push(SensorSpec { key: "p_discharge", name: "Battery Discharge", is_binary_sensor: false, entity_category: None, state_class: Some("measurement"), device_class: Some("power"), unit_of_measurement: Some("W"), icon: None, register_topic: None, from_key: false });
    r.push(SensorSpec { key: "p_grid", name: "Grid Power (export is negative)", is_binary_sensor: false, entity_category: None, state_class: Some("measurement"), device_class: Some("power"), unit_of_measurement: Some("W"), icon: None, register_topic: None, from_key: false });
    r.push(SensorSpec { key: "p_to_user", name: "Power from Grid", is_binary_sensor: false, entity_category: None, state_class: Some("measurement"), device_class: Some("power"), unit_of_measurement: Some("W"), icon: None, register_topic: None, from_key: false });
    assert(r@ =~= sensor_table_spec_6());
    r
}

pub open spec fn sensor_table_spec_7() -> Seq<SensorSpec> {
    seq![
        SensorSpec { key: "p_to_grid", name: "Power to Grid", is_binary_sensor: false, entity_category: None, state_class: Some("measurement"), device_class: Some("power"), unit_of_measurement: Some("W"), icon: None, register_topic: None, from_key: false },
        SensorSpec { key: "p_eps", name: "Active EPS Power", is_binary_sensor: false, entity_category: None, state_class: Some("measurement"), device_class: Some("power"), unit_of_measurement: Some("W"), icon: None, register_topic: None, from_key: false },
        SensorSpec { key: "p_inv", name: "Inverter Power", is_binary_sensor: false, entity_category: None, state_class: Some("measurement"), device_class: Some("power"), unit_of_measurement: Some("W"), icon: None, register_topic: None, from_key: false },
        SensorSpec { key: "p_rec", name: "AC Charge Power", is_binary_sensor: false, entity_category: None, state_class: Some("measurement"), device_class: Some("power"), unit_of_measurement: Some("W"), icon: None, register_topic: None, from_key: false },
        SensorSpec { key: "p_eps_l1", name: "EPS Power L1", is_binary_sensor: false, entity_category: None, state_class: Some("measurement"), device_class: Some("power"), unit_of_measurement: Some("W"), icon: None, register_topic: None, from_key: false },
        SensorSpec { key: "p_eps_l2", name: "EPS Power L2", is_binary_sensor: false, entity_category: None, state_class: Some("measurement"), device_class: Some("power"), unit_of_measurement: Some("W"), icon: None, register_topic: None, from_key: false },
        SensorSpec { key: "e_pv_all", name: "PV Generation (All time)", is_binary_sensor: false, entity_category: None, state_class: Some("total_increasing"), device_class: Some("energy"), unit_of_measurement: Some("kWh"), icon: None, register_topic: None, from_key: false },
        SensorSpec { key: "e_pv_all_1", name: "PV Generation (All time) (String 1)", is_binary_sensor: false, entity_category: None, state_class: Some("total_increasing"), device_class: Some("energy"), unit_of_measurement: Some("kWh"), icon: None, register_topic: None, from_key: false },
    ]
}

fn sensor_table_7() -> (r: Vec<SensorSpec>)
    ensures
        r@ == sensor_table_spec_7(),
{
    let mut r: Vec<SensorSpec> = Vec::new();
    r.push(SensorSpec { key: "p_to_grid", name: "Power to Grid", is_binary_sensor: false, entity_category: None, state_class: Some("measurement"), device_class: Some("power"), unit_of_measurement: Some("W"), icon: None, register_topic: None, from_key: false });
    r.push(SensorSpec { key: "p_eps", name: "Active EPS Power", is_binary_sensor: false, entity_category: None, state_class: Some("measurement"), device_class: Some("power"), unit_of_measurement: Some("W"), icon: None, register_topic: None, from_key: false });
    r.push(SensorSpec { key: "p_inv", name: "Inverter Power", is_binary_sensor: false, entity_category: None, state_class: Some("measurement"), device_class: Some("power"), unit_of_measurement: Some("W"), icon: None, register_topic: None, from_key: false });
    r.push(SensorSpec { key: "p_rec", name: "AC Charge Power", is_binary_sensor: false, entity_category: None, state_class: Some("measurement"), device_class: Some("power"), unit_of_measurement: Some("W"), icon: None, register_topic: None, from_key: false });
    r.push(SensorSpec { key: "p_eps_l1", name: "EPS Power L1", is_binary_sensor: false, entity_category: None, state_class: Some("measurement"), device_class: Some("power"), unit_of_measurement: Some("W"), icon: None, register_topic: None, from_key: false });
    r.push(SensorSpec { key: "p_eps_l2", name: "EPS Power L2", is_binary_sensor: false, entity_category: None, state_class: Some("measurement"), device_class: Some("power"), unit_of_measurement: Some("W"), icon: None, register_topic: None, from_key: false });
    r.push(SensorSpec { key: "e_pv_all", name: "PV Generation (All time)", is_binary_sensor: false, entity_category: None, state_class: Some("total_increasing"), device_class: Some("energy"), unit_of_measurement: Some("kWh"), icon: None, register_topic: None, from_key: false });
    r.push(SensorSpec { key: "e_pv_all_1", name: "PV Generation (All time) (String 1)", is_binary_sensor: false, entity_category: None, state_class: Some("total_increasing"), device_class: Some("energy"), unit_of_measurement: Some("kWh"), icon: None, register_topic: None, from_key: false });
    assert(r@ =~= sensor_table_spec_7());
    r
}

pub open spec fn sensor_table_spec_8() -> Seq<SensorSpec> {
    seq![
        SensorSpec { key: "e_pv_all_2", name: "PV Generation (All time) (String 2)", is_binary_sensor: false, entity_category: None, state_class: Some("total_increasing"), device_class: Some("energy"), unit_of_measurement: Some("kWh"), icon: None, register_topic: None, from_key: false },
        SensorSpec { key: "e_pv_all_3", name: "PV Generation (All time) (String 3)", is_binary_sensor: false, entity_category: None, state_class: Some("total_increasing"), device_class: Some("energy"), unit_of_measurement: Some("kWh"), icon: None, register_topic: None, from_key: false },
        SensorSpec { key: "e_pv_day", name: "PV Generation (Today)", is_binary_sensor: false, entity_category: None, state_class: Some("total_increasing"), device_class: Some("energy"), unit_of_measurement: Some("kWh"), icon: None, register_topic: None, from_key: false },
        SensorSpec { key: "e_pv_day_1", name: "PV Generation (Today) (String 1)", is_binary_sensor: false, entity_category: None, state_class: Some("total_increasing"), device_class: Some("energy"), unit_of_measurement: Some("kWh"), icon: None, register_topic: None, from_key: false },
        SensorSpec { key: "e_pv_day_2", name: "PV Generation (Today) (String 2)", is_binary_sensor: false, entity_category: None, state_class: Some("total_increasing"), device_class: Some("energy"), unit_of_measurement: Some("kWh"), icon: None, register_topic: None, from_key: false },
        SensorSpec { key: "e_pv_day_3", name: "PV Generation (Today) (String 3)", is_binary_sensor: false, entity_category: None, state_class: Some("total_increasing"), device_class: Some("energy"), unit_of_measurement: Some("kWh"), icon: None, register_topic: None, from_key: false },
        SensorSpec { key: "e_chg_all", name: "Battery Charge (All time)", is_binary_sensor: false, entity_category: None, state_class: Some("total_increasing"), device_class: Some("energy"), unit_of_measurement: Some("kWh"), icon: None, register_topic: None, from_key: false },
        SensorSpec { key: "e_chg_day", name: "Battery Charge (Today)", is_binary_sensor: false, entity_category: None, state_class: Some("total_increasing"), device_class: Some("energy"), unit_of_measurement: Some("kWh"), icon: None, register_topic: None, from_key: false },
    ]
}

fn sensor_table_8() -> (r: Vec<SensorSpec>)
    ensures
        r@ == sensor_table_spec_8(),
{
    let mut r: Vec<SensorSpec> = Vec::new();
    r.push(SensorSpec { key: "e_pv_all_2", name: "PV Generation (All time) (String 2)", is_binary_sensor: false, entity_category: None, state_class: Some("total_increasing"), device_class: Some("energy"), unit_of_measurement: Some("kWh"), icon: None, register_topic: None, from_key: false });
    r.push(SensorSpec { key: "e_pv_all_3", name: "PV Generation (All time) (String 3)", is_binary_sensor: false, entity_category: None, state_class: Some("total_increasing"), device_class: Some("energy"), unit_of_measurement: Some("kWh"), icon: None, register_topic: None, from_key: false });
    r.push(SensorSpec { key: "e_pv_day", name: "PV Generation (Today)", is_binary_sensor: false, entity_category: None, state_class: Some("total_increasing"), device_class: Some("energy"), unit_of_measurement: Some("kWh"), icon: None, register_topic: None, from_key: false });
    r.push(SensorSpec { key: "e_pv_day_1", name: "PV Generation (Today) (String 1)", is_binary_sensor: false, entity_category: None, state_class: Some("total_increasing"), device_class: Some("energy"), unit_of_measurement: Some("kWh"), icon: None, register_topic: None, from_key: false });
    r.push(SensorSpec { key: "e_pv_day_2", name: "PV Generation (Today) (String 2)", is_binary_sensor: false, entity_category: None, state_class: Some("total_increasing"), device_class: Some("energy"), unit_of_measurement: Some("kWh"), icon: None, register_topic: None, from_key: false });
    r.push(SensorSpec { key: "e_pv_day_3", name: "PV Generation (Today) (String 3)", is_binary_sensor: false, entity_category: None, state_class: Some("total_increasing"), device_class: Some("energy"), unit_of_measurement: Some("kWh"), icon: None, register_topic: None, from_key: false });
    r.push(SensorSpec { key: "e_chg_all", name: "Battery Charge (All time)", is_binary_sensor: false, entity_category: None, state_class: Some("total_increasing"), device_class: Some("energy"), unit_of_measurement: Some("kWh"), icon: None, register_topic: None, from_key: false });
    r.push(SensorSpec { key: "e_chg_day", name: "Battery Charge (Today)", is_binary_sensor: false, entity_category: None, state_class: Some("total_increasing"), device_class: Some("energy"), unit_of_measurement: Some("kWh"), icon: None, register_topic: None, from_key: false });
    assert(r@ =~= sensor_table_spec_8());
    r
}

pub open spec fn sensor_table_spec_9() -> Seq<SensorSpec> {
    seq![
        SensorSpec { key: "e_dischg_all", name: "Battery Discharge (All time)", is_binary_sensor: false, entity_category: None, state_class: Some("total_increasing"), device_class: Some("energy"), unit_of_measurement: Some("kWh"), icon: None, register_topic: None, from_key: false },
        SensorSpec { key: "e_dischg_day", name: "Battery Discharge (Today)", is_binary_sensor: false, entity_category: None, state_class: Some("total_increasing"), device_class: Some("energy"), unit_of_measurement: Some("kWh"), icon: None, register_topic: None, from_key: false },
        SensorSpec { key: "e_to_user_all", name: "Energy from Grid (All time)", is_binary_sensor: false, entity_category: None, state_class: Some("total_increasing"), device_class: Some("energy"), unit_of_measurement: Some("kWh"), icon: None, register_topic: None, from_key: false },
        SensorSpec { key: "e_to_user_day", name: "Energy from Grid (Today)", is_binary_sensor: false, entity_category: None, state_class: Some("total_increasing"), device_class: Some("energy"), unit_of_measurement: Some("kWh"), icon: None, register_topic: None, from_key: false },
        SensorSpec { key: "e_to_grid_all", name: "Energy to Grid (All time)", is_binary_sensor: false, entity_category: None, state_class: Some("total_increasing"), device_class: Some("energy"), unit_of_measurement: Some("kWh"), icon: None, register_topic: None, from_key: false },
        SensorSpec { key: "e_to_grid_day", name: "Energy to Grid (Today)", is_binary_sensor: false, entity_category: None, state_class: Some("total_increasing"), device_class: Some("energy"), unit_of_measurement: Some("kWh"), icon: None, register_topic: None, from_key: false },
        SensorSpec { key: "e_eps_all", name: "Energy from EPS (All time)", is_binary_sensor: false, entity_category: None, state_class: Some("total_increasing"), device_class: Some("energy"), unit_of_measurement: Some("kWh"), icon: None, register_topic: None, from_key: false },
        SensorSpec { key: "e_eps_day", name: "Energy from EPS (Today)", is_binary_sensor: false, entity_category: None, state_class: Some("total_increasing"), device_class: Some("energy"), unit_of_measurement: Some("kWh"), icon: None, register_topic: None, from_key: false },
    ]
}

fn sensor_table_9() -> (r: Vec<SensorSpec>)
    ensures
        r@ == sensor_table_spec_9(),
{
    let mut r: Vec<SensorSpec> = Vec::new();
    r.push(SensorSpec { key: "e_dischg_all", name: "Battery Discharge (All time)", is_binary_sensor: false, entity_category: None, state_class: Some("total_increasing"), device_class: Some("energy"), unit_of_measurement: Some("kWh"), icon: None, register_topic: None, from_key: false });
    r.push(SensorSpec { key: "e_dischg_day", name: "Battery Discharge (Today)", is_binary_sensor: false, entity_category: None, state_class: Some("total_increasing"), device_class: Some("energy"), unit_of_measurement: Some("kWh"), icon: None, register_topic: None, from_key: false });
    r.push(SensorSpec { key: "e_to_user_all", name: "Energy from Grid (All time)", is_binary_sensor: false, entity_category: None, state_class: Some("total_increasing"), device_class: Some("energy"), unit_of_measurement: Some("kWh"), icon: None, register_topic: None, from_key: false });
    r.push(SensorSpec { key: "e_to_user_day", name: "Energy from Grid (Today)", is_binary_sensor: false, entity_category: None, state_class: Some("total_increasing"), device_class: Some("energy"), unit_of_measurement: Some("kWh"), icon: None, register_topic: None, from_key: false });
    r.push(SensorSpec { key: "e_to_grid_all", name: "Energy to Grid (All time)", is_binary_sensor: false, entity_category: None, state_class: Some("total_increasing"), device_class: Some("energy"), unit_of_measurement: Some("kWh"), icon: None, register_topic: None, from_key: false });
    r.push(SensorSpec { key: "e_to_grid_day", name: "Energy to Grid (Today)", is_binary_sensor: false, entity_category: None, state_class: Some("total_increasing"), device_class: Some("energy"), unit_of_measurement: Some("kWh"), icon: None, register_topic: None, from_key: false });
    r.push(SensorSpec { key: "e_eps_all", name: "Energy from EPS (All time)", is_binary_sensor: false, entity_category: None, state_class: Some("total_increasing"), device_class: Some("energy"), unit_of_measurement: Some("kWh"), icon: None, register_topic: None, from_key: false });
    r.push(SensorSpec { key: "e_eps_day", name: "Energy from EPS (Today)", is_binary_sensor: false, entity_category: None, state_class: Some("total_increasing"), device_class: Some("energy"), unit_of_measurement: Some("kWh"), icon: None, register_topic: None, from_key: false });
    assert(r@ =~= sensor_table_spec_9());
    r
}

pub open spec fn sensor_table_spec_10() -> Seq<SensorSpec> {
    seq![
        SensorSpec { key: "e_rec_all", name: "Energy of AC Charging (All time)", is_binary_sensor: false, entity_category: None, state_class: Some("total_increasing"), device_class: Some("energy"), unit_of_measurement: Some("kWh"), icon: None, register_topic: None, from_key: false },
        SensorSpec { key: "e_rec_day", name: "Energy of AC Charging (Today)", is_binary_sensor: false, entity_category: None, state_class: Some("total_increasing"), device_class: Some("energy"), unit_of_measurement: Some("kWh"), icon: None, register_topic: None, from_key: false },
        SensorSpec { key: "e_inv_all", name: "Energy of Inverter (All time)", is_binary_sensor: false, entity_category: None, state_class: Some("total_increasing"), device_class: Some("energy"), unit_of_measurement: Some("kWh"), icon: None, register_topic: None, from_key: false },
        SensorSpec { key: "e_inv_day", name: "Energy of Inverter (Today)", is_binary_sensor: false, entity_category: None, state_class: Some("total_increasing"), device_class: Some("energy"), unit_of_measurement: Some("kWh"), icon: None, register_topic: None, from_key: false },
        SensorSpec { key: "e_eps_l1_all", name: "Energy of EPS L1 (All time)", is_binary_sensor: false, entity_category: None, state_class: Some("total_increasing"), device_class: Some("energy"), unit_of_measurement: Some("kWh"), icon: None, register_topic: None, from_key: false },
        SensorSpec { key: "e_eps_l1_day", name: "Energy of EPS L1  (Today)", is_binary_sensor: false, entity_category: None, state_class: Some("total_increasing"), device_class: Some("energy"), unit_of_measurement: Some("kWh"), icon: None, register_topic: None, from_key: false },
        SensorSpec { key: "e_eps_l2_all", name: "Energy of EPS L2 (All time)", is_binary_sensor: false, entity_category: None, state_class: Some("total_increasing"), device_class: Some("energy"), unit_of_measurement: Some("kWh"), icon: None, register_topic: None, from_key: false },
        SensorSpec { key: "e_eps_l2_day", name: "Energy of EPS L2  (Today)", is_binary_sensor: false, entity_category: None, state_class: Some("total_increasing"), device_class: Some("energy"), unit_of_measurement: Some("kWh"), icon: None, register_topic: None, from_key: false },
    ]
}

fn sensor_table_10() -> (r: Vec<SensorSpec>)
    ensures
        r@ == sensor_table_spec_10(),
{
    let mut r: Vec<SensorSpec> = Vec::new();
    r.push(SensorSpec { key: "e_rec_all", name: "Energy of AC Charging (All time)", is_binary_sensor: false, entity_category: None, state_class: Some("total_increasing"), device_class: Some("energy"), unit_of_measurement: Some("kWh"), icon: None, register_topic: None, from_key: false });
    r.push(SensorSpec { key: "e_rec_day", name: "Energy of AC Charging (Today)", is_binary_sensor: false, entity_category: None, state_class: Some("total_increasing"), device_class: Some("energy"), unit_of_measurement: Some("kWh"), icon: None, register_topic: None, from_key: false });
    r.push(SensorSpec { key: "e_inv_all", name: "Energy of Inverter (All time)", is_binary_sensor: false, entity_category: None, state_class: Some("total_increasing"), device_class: Some("energy"), unit_of_measurement: Some("kWh"), icon: None, register_topic: None, from_key: false });
    r.push(SensorSpec { key: "e_inv_day", name: "Energy of Inverter (Today)", is_binary_sensor: false, entity_category: None, state_class: Some("total_increasing"), device_class: Some("energy"), unit_of_measurement: Some("kWh"), icon: None, register_topic: None, from_key: false });
    r.push(SensorSpec { key: "e_eps_l1_all", name: "Energy of EPS L1 (All time)", is_binary_sensor: false, entity_category: None, state_class: Some("total_increasing"), device_class: Some("energy"), unit_of_measurement: Some("kWh"), icon: None, register_topic: None, from_key: false });
    r.push(SensorSpec { key: "e_eps_l1_day", name: "Energy of EPS L1  (Today)", is_binary_sensor: false, entity_category: None, state_class: Some("total_increasing"), device_class: Some("energy"), unit_of_measurement: Some("kWh"), icon: None, register_topic: None, from_key: false });
    r.push(SensorSpec { key: "e_eps_l2_all", name: "Energy of EPS L2 (All time)", is_binary_sensor: false, entity_category: None, state_class: Some("total_increasing"), device_class: Some("energy"), unit_of_measurement: Some("kWh"), icon: None, register_topic: None, from_key: false });
    r.push(SensorSpec { key: "e_eps_l2_day", name: "Energy of EPS L2  (Today)", is_binary_sensor: false, entity_category: None, state_class: Some("total_increasing"), device_class: Some("energy"), unit_of_measurement: Some("kWh"), icon: None, register_topic: None, from_key: false });
    assert(r@ =~= sensor_table_spec_10());
    r
}

pub open spec fn sensor_table_spec_11() -> Seq<SensorSpec> {
    seq![
        SensorSpec { key: "e_gen_day", name: "Energy of Generator (Today)", is_binary_sensor: false, entity_category: None, state_class: Some("total_increasing"), device_class: Some("energy"), unit_of_measurement: Some("kWh"), icon: None, register_topic: None, from_key: false },
        SensorSpec { key: "e_gen_all", name: "Energy of Generator (All Time)", is_binary_sensor: false, entity_category: None, state_class: Some("total_increasing"), device_class: Some("energy"), unit_of_measurement: Some("kWh"), icon: None, register_topic: None, from_key: false },
        SensorSpec { key: "e_load_day", name: "Energy of Load (Today)", is_binary_sensor: false, entity_category: None, state_class: Some("total_increasing"), device_class: Some("energy"), unit_of_measurement: Some("kWh"), icon: None, register_topic: None, from_key: false },
        SensorSpec { key: "e_load_all", name: "Energy of Load (All Time)", is_binary_sensor: false, entity_category: None, state_class: Some("total_increasing"), device_class: Some("energy"), unit_of_measurement: Some("kWh"), icon: None, register_topic: None, from_key: false },
        SensorSpec { key: "eps_overload_ctrl_time", name: "EPS Overload Connect Time", is_binary_sensor: false, entity_category: Some("diagnostic"), state_class: None, device_class: Some("duration"), unit_of_measurement: Some("s"), icon: None, register_topic: None, from_key: false },
        SensorSpec { key: "t_inner", name: "Inverter Temperature", is_binary_sensor: false, entity_category: None, state_class: Some("measurement"), device_class: Some("temperature"), unit_of_measurement: Some("°C"), icon: None, register_topic: None, from_key: false },
        SensorSpec { key: "t_rad_1", name: "Radiator 1 Temperature", is_binary_sensor: false, entity_category: None, state_class: Some("measurement"), device_class: Some("temperature"), unit_of_measurement: Some("°C"), icon: None, register_topic: None, from_key: false },
        SensorSpec { key: "t_rad_2", name: "Radiator 2 Temperature", is_binary_sensor: false, entity_category: None, state_class: Some("measurement"), device_class: Some("temperature"), unit_of_measurement: Some("°C"), icon: None, register_topic: None, from_key: false },
    ]
}

fn sensor_table_11() -> (r: Vec<SensorSpec>)
    ensures
        r@ == sensor_table_spec_11(),
{
    let mut r: Vec<SensorSpec> = Vec::new();
    r.push(SensorSpec { key: "e_gen_day", name: "Energy of Generator (Today)", is_binary_sensor: false, entity_category: None, state_class: Some("total_increasing"), device_class: Some("energy"), unit_of_measurement: Some("kWh"), icon: None, register_topic: None, from_key: false });
    r.push(SensorSpec { key: "e_gen_all", name: "Energy of Generator (All Time)", is_binary_sensor: false, entity_category: None, state_class: Some("total_increasing"), device_class: Some("energy"), unit_of_measurement: Some("kWh"), icon: None, register_topic: None, from_key: false });
    r.push(SensorSpec { key: "e_load_day", name: "Energy of Load (Today)", is_binary_sensor: false, entity_category: None, state_class: Some("total_increasing"), device_class: Some("energy"), unit_of_measurement: Some("kWh"), icon: None, register_topic: None, from_key: false });
    r.push(SensorSpec { key: "e_load_all", name: "Energy of Load (All Time)", is_binary_sensor: false, entity_category: None, state_class: Some("total_increasing"), device_class: Some("energy"), unit_of_measurement: Some("kWh"), icon: None, register_topic: None, from_key: false });
    r.push(SensorSpec { key: "eps_overload_ctrl_time", name: "EPS Overload Connect Time", is_binary_sensor: false, entity_category: Some("diagnostic"), state_class: None, device_class: Some("duration"), unit_of_measurement: Some("s"), icon: None, register_topic: None, from_key: false });
    r.push(SensorSpec { key: "t_inner", name: "Inverter Temperature", is_binary_sensor: false, entity_category: None, state_class: Some("measurement"), device_class: Some("temperature"), unit_of_measurement: Some("°C"), icon: None, register_topic: None, from_key: false });
    r.push(SensorSpec { key: "t_rad_1", name: "Radiator 1 Temperature", is_binary_sensor: false, entity_category: None, state_class: Some("measurement"), device_class: Some("temperature"), unit_of_measurement: Some("°C"), icon: None, register_topic: None, from_key: false });
    r.push(SensorSpec { key: "t_rad_2", name: "Radiator 2 Temperature", is_binary_sensor: false, entity_category: None, state_class: Some("measurement"), device_class: Some("temperature"), unit_of_measurement: Some("°C"), icon: None, register_topic: None, from_key: false });
    assert(r@ =~= sensor_table_spec_11());
    r
}

pub open spec fn sensor_table_spec_12() -> Seq<SensorSpec> {
    seq![
        SensorSpec { key: "t_bat", name: "Battery Temperature", is_binary_sensor: false, entity_category: None, state_class: Some("measurement"), device_class: Some("temperature"), unit_of_measurement: Some("°C"), icon: None, register_topic: None, from_key: false },
        SensorSpec { key: "t1_temp", name: "12K BT Temperature", is_binary_sensor: false, entity_category: None, state_class: Some("measurement"), device_class: Some("temperature"), unit_of_measurement: Some("°C"), icon: None, register_topic: None, from_key: false },
        SensorSpec { key: "max_chg_curr", name: "Max Charge Current", is_binary_sensor: false, entity_category: None, state_class: Some("measurement"), device_class: Some("current"), unit_of_measurement: Some("A"), icon: None, register_topic: None, from_key: false },
        SensorSpec { key: "max_dischg_curr", name: "Max Discharge Current", is_binary_sensor: false, entity_category: None, state_class: Some("measurement"), device_class: Some("current"), unit_of_measurement: Some("A"), icon: None, register_topic: None, from_key: false },
        SensorSpec { key: "min_cell_voltage", name: "Min Cell Voltage (BMS)", is_binary_sensor: false, entity_category: None, state_class: Some("measurement"), device_class: Some("voltage"), unit_of_measurement: Some("V"), icon: None, register_topic: None, from_key: false },
        SensorSpec { key: "charge_volt_ref", name: "Recommended Charge Voltage (BMS)", is_binary_sensor: false, entity_category: None, state_class: Some("measurement"), device_class: Some("voltage"), unit_of_measurement: Some("V"), icon: None, register_topic: None, from_key: false },
        SensorSpec { key: "dischg_cut_volt", name: "Recommended Discharge Cut-Off Voltage (BMS)", is_binary_sensor: false, entity_category: None, state_class: Some("measurement"), device_class: Some("voltage"), unit_of_measurement: Some("V"), icon: None, register_topic: None, from_key: false },
        SensorSpec { key: "bat_count", name: "Battery Count", is_binary_sensor: false, entity_category: None, state_class: Some("measurement"), device_class: None, unit_of_measurement: None, icon: None, register_topic: None, from_key: false },
    ]
}

fn sensor_table_12() -> (r: Vec<SensorSpec>)
    ensures
        r@ == sensor_table_spec_12(),
{
    let mut r: Vec<SensorSpec> = Vec::new();
    r.push(SensorSpec { key: "t_bat", name: "Battery Temperature", is_binary_sensor: false, entity_category: None, state_class: Some("measurement"), device_class: Some("temperature"), unit_of_measurement: Some("°C"), icon: None, register_topic: None, from_key: false });
    r.push(SensorSpec { key: "t1_temp", name: "12K BT Temperature", is_binary_sensor: false, entity_category: None, state_class: Some("measurement"), device_class: Some("temperature"), unit_of_measurement: Some("°C"), icon: None, register_topic: None, from_key: false });
    r.push(SensorSpec { key: "max_chg_curr", name: "Max Charge Current", is_binary_sensor: false, entity_category: None, state_class: Some("measurement"), device_class: Some("current"), unit_of_measurement: Some("A"), icon: None, register_topic: None, from_key: false });
    r.push(SensorSpec { key: "max_dischg_curr", name: "Max Discharge Current", is_binary_sensor: false, entity_category: None, state_class: Some("measurement"), device_class: Some("current"), unit_of_measurement: Some("A"), icon: None, register_topic: None, from_key: false });
    r.push(SensorSpec { key: "min_cell_voltage", name: "Min Cell Voltage (BMS)", is_binary_sensor: false, entity_category: None, state_class: Some("measurement"), device_class: Some("voltage"), unit_of_measurement: Some("V"), icon: None, register_topic: None, from_key: false });
    r.push(SensorSpec { key: "charge_volt_ref", name: "Recommended Charge Voltage (BMS)", is_binary_sensor: false, entity_category: None, state_class: Some("measurement"), device_class: Some("voltage"), unit_of_measurement: Some("V"), icon: None, register_topic: None, from_key: false });
    r.push(SensorSpec { key: "dischg_cut_volt", name: "Recommended Discharge Cut-Off Voltage (BMS)", is_binary_sensor: false, entity_category: None, state_class: Some("measurement"), device_class: Some("voltage"), unit_of_measurement: Some("V"), icon: None, register_topic: None, from_key: false });
    r.push(SensorSpec { key: "bat_count", name: "Battery Count", is_binary_sensor: false, entity_category: None, state_class: Some("measurement"), device_class: None, unit_of_measurement: None, icon: None, register_topic: None, from_key: false });
    assert(r@ =~= sensor_table_spec_12());
    r
}

pub open spec fn sensor_table_spec_13() -> Seq<SensorSpec> {
    seq![
        SensorSpec { key: "bat_capacity", name: "Battery Capacity", is_binary_sensor: false, entity_category: None, state_class: Some("measurement"), device_class: None, unit_of_measurement: Some("Ah"), icon: None, register_topic: None, from_key: false },
        SensorSpec { key: "bat_current", name: "Battery Current", is_binary_sensor: false, entity_category: None, state_class: Some("measurement"), device_class: Some("current"), unit_of_measurement: Some("A"), icon: None, register_topic: None, from_key: false },
        SensorSpec { key: "max_cell_voltage", name: "Max Cell Voltage (BMS)", is_binary_sensor: false, entity_category: None, state_class: Some("measurement"), device_class: Some("voltage"), unit_of_measurement: Some("V"), icon: None, register_topic: None, from_key: false },
        SensorSpec { key: "min_cell_temp", name: "Min Cell Temperature (BMS)", is_binary_sensor: false, entity_category: None, state_class: Some("measurement"), device_class: Some("temperature"), unit_of_measurement: Some("°C"), icon: None, register_topic: None, from_key: false },
        SensorSpec { key: "max_cell_temp", name: "Max Cell Temperature (BMS)", is_binary_sensor: false, entity_category: None, state_class: Some("measurement"), device_class: Some("temperature"), unit_of_measurement: Some("°C"), icon: None, register_topic: None, from_key: false },
        SensorSpec { key: "cycle_count", name: "Battery Charge Discharge Cycles", is_binary_sensor: false, entity_category: None, state_class: Some("measurement"), device_class: None, unit_of_measurement: None, icon: None, register_topic: None, from_key: false },
        SensorSpec { key: "vbat_inv", name: "Inverter Battery Voltage Sampling", is_binary_sensor: false, entity_category: None, state_class: Some("measurement"), device_class: Some("voltage"), unit_of_measurement: Some("V"), icon: None, register_topic: None, from_key: false },
        SensorSpec { key: "v_gen", name: "Generator Voltage", is_binary_sensor: false, entity_category: None, state_class: Some("measurement"), device_class: Some("voltage"), unit_of_measurement: Some("V"), icon: None, register_topic: None, from_key: false },
    ]
}

fn sensor_table_13() -> (r: Vec<SensorSpec>)
    ensures
        r@ == sensor_table_spec_13(),
{
    let mut r: Vec<SensorSpec> = Vec::new();
    r.push(SensorSpec { key: "bat_capacity", name: "Battery Capacity", is_binary_sensor: false, entity_category: None, state_class: Some("measurement"), device_class: None, unit_of_measurement: Some("Ah"), icon: None, register_topic: None, from_key: false });
    r.push(SensorSpec { key: "bat_current", name: "Battery Current", is_binary_sensor: false, entity_category: None, state_class: Some("measurement"), device_class: Some("current"), unit_of_measurement: Some("A"), icon: None, register_topic: None, from_key: false });
    r.push(SensorSpec { key: "max_cell_voltage", name: "Max Cell Voltage (BMS)", is_binary_sensor: false, entity_category: None, state_class: Some("measurement"), device_class: Some("voltage"), unit_of_measurement: Some("V"), icon: None, register_topic: None, from_key: false });
    r.push(SensorSpec { key: "min_cell_temp", name: "Min Cell Temperature (BMS)", is_binary_sensor: false, entity_category: None, state_class: Some("measurement"), device_class: Some("temperature"), unit_of_measurement: Some("°C"), icon: None, register_topic: None, from_key: false });
    r.push(SensorSpec { key: "max_cell_temp", name: "Max Cell Temperature (BMS)", is_binary_sensor: false, entity_category: None, state_class: Some("measurement"), device_class: Some("temperature"), unit_of_measurement: Some("°C"), icon: None, register_topic: None, from_key: false });
    r.push(SensorSpec { key: "cycle_count", name: "Battery Charge Discharge Cycles", is_binary_sensor: false, entity_category: None, state_class: Some("measurement"), device_class: None, unit_of_measurement: None, icon: None, register_topic: None, from_key: false });
    r.push(SensorSpec { key: "vbat_inv", name: "Inverter Battery Voltage Sampling", is_binary_sensor: false, entity_category: None, state_class: Some("measurement"), device_class: Some("voltage"), unit_of_measurement: Some("V"), icon: None, register_topic: None, from_key: false });
    r.push(SensorSpec { key: "v_gen", name: "Generator Voltage", is_binary_sensor: false, entity_category: None, state_class: Some("measurement"), device_class: Some("voltage"), unit_of_measurement: Some("V"), icon: None, register_topic: None, from_key: false });
    assert(r@ =~= sensor_table_spec_13());
    r
}

pub open spec fn sensor_table_spec_14() -> Seq<SensorSpec> {
    seq![
        SensorSpec { key: "f_gen", name: "Generator Frequency", is_binary_sensor: false, entity_category: None, state_class: Some("measurement"), device_class: Some("frequency"), unit_of_measurement: Some("Hz"), icon: None, register_topic: None, from_key: false },
        SensorSpec { key: "p_gen", name: "Generator Power", is_binary_sensor: false, entity_category: None, state_class: Some("measurement"), device_class: Some("power"), unit_of_measurement: Some("W"), icon: None, register_topic: None, from_key: false },
        SensorSpec { key: "p_on_grid_load", name: "On-grid Load Power", is_binary_sensor: false, entity_category: None, state_class: Some("measurement"), device_class: Some("power"), unit_of_measurement: Some("W"), icon: None, register_topic: None, from_key: false },
        SensorSpec { key: "p_ac_couple", name: "AC Coupled Inverter Power", is_binary_sensor: false, entity_category: None, state_class: Some("measurement"), device_class: Some("power"), unit_of_measurement: Some("W"), icon: None, register_topic: None, from_key: false },
        SensorSpec { key: "p_load", name: "Load Power", is_binary_sensor: false, entity_category: None, state_class: Some("measurement"), device_class: Some("power"), unit_of_measurement: Some("W"), icon: None, register_topic: None, from_key: false },
        SensorSpec { key: "p_inv_s", name: "On-grid Inverter Power of Three-Phase: S-phase", is_binary_sensor: false, entity_category: None, state_class: Some("measurement"), device_class: Some("power"), unit_of_measurement: Some("W"), icon: None, register_topic: None, from_key: false },
        SensorSpec { key: "p_inv_t", name: "On-grid Inverter Power of Three-Phase: T-phase", is_binary_sensor: false, entity_category: None, state_class: Some("measurement"), device_class: Some("power"), unit_of_measurement: Some("W"), icon: None, register_topic: None, from_key: false },
        SensorSpec { key: "p_rec_s", name: "Charging Rectification Power of Three-Phase: S-phase", is_binary_sensor: false, entity_category: None, state_class: Some("measurement"), device_class: Some("power"), unit_of_measurement: Some("W"), icon: None, register_topic: None, from_key: false },
    ]
}

fn sensor_table_14() -> (r: Vec<SensorSpec>)
    ensures
        r@ == sensor_table_spec_14(),
{
    let mut r: Vec<SensorSpec> = Vec::new();
    r.push(SensorSpec { key: "f_gen", name: "Generator Frequency", is_binary_sensor: false, entity_category: None, state_class: Some("measurement"), device_class: Some("frequency"), unit_of_measurement: Some("Hz"), icon: None, register_topic: None, from_key: false });
    r.push(SensorSpec { key: "p_gen", name: "Generator Power", is_binary_sensor: false, entity_category: None, state_class: Some("measurement"), device_class: Some("power"), unit_of_measurement: Some("W"), icon: None, register_topic: None, from_key: false });
    r.push(SensorSpec { key: "p_on_grid_load", name: "On-grid Load Power", is_binary_sensor: false, entity_category: None, state_class: Some("measurement"), device_class: Some("power"), unit_of_measurement: Some("W"), icon: None, register_topic: None, from_key: false });
    r.push(SensorSpec { key: "p_ac_couple", name: "AC Coupled Inverter Power", is_binary_sensor: false, entity_category: None, state_class: Some("measurement"), device_class: Some("power"), unit_of_measurement: Some("W"), icon: None, register_topic: None, from_key: false });
    r.push(SensorSpec { key: "p_load", name: "Load Power", is_binary_sensor: false, entity_category: None, state_class: Some("measurement"), device_class: Some("power"), unit_of_measurement: Some("W"), icon: None, register_topic: None, from_key: false });
    r.push(SensorSpec { key: "p_inv_s", name: "On-grid Inverter Power of Three-Phase: S-phase", is_binary_sensor: false, entity_category: None, state_class: Some("measurement"), device_class: Some("power"), unit_of_measurement: Some("W"), icon: None, register_topic: None, from_key: false });
    r.push(SensorSpec { key: "p_inv_t", name: "On-grid Inverter Power of Three-Phase: T-phase", is_binary_sensor: false, entity_category: None, state_class: Some("measurement"), device_class: Some("power"), unit_of_measurement: Some("W"), icon: None, register_topic: None, from_key: false });
    r.push(SensorSpec { key: "p_rec_s", name: "Charging Rectification Power of Three-Phase: S-phase", is_binary_sensor: false, entity_category: None, state_class: Some("measurement"), device_class: Some("power"), unit_of_measurement: Some("W"), icon: None, register_topic: None, from_key: false });
    assert(r@ =~= sensor_table_spec_14());
    r
}

pub open spec fn sensor_table_spec_15() -> Seq<SensorSpec> {
    seq![
        SensorSpec { key: "p_rec_t", name: "Charging Rectification Power of Three-Phase: T-phase", is_binary_sensor: false, entity_category: None, state_class: Some("measurement"), device_class: Some("power"), unit_of_measurement: Some("W"), icon: None, register_topic: None, from_key: false },
        SensorSpec { key: "p_to_grid_s", name: "Grid Export Power of Three-Phase: S-phase", is_binary_sensor: false, entity_category: None, state_class: Some("measurement"), device_class: Some("power"), unit_of_measurement: Some("W"), icon: None, register_topic: None, from_key: false },
        SensorSpec { key: "p_to_grid_t", name: "Grid Export Power of Three-Phase: T-phase", is_binary_sensor: false, entity_category: None, state_class: Some("measurement"), device_class: Some("power"), unit_of_measurement: Some("W"), icon: None, register_topic: None, from_key: false },
        SensorSpec { key: "p_to_user_s", name: "Grid Import Power of Three-Phase: S-phase", is_binary_sensor: false, entity_category: None, state_class: Some("measurement"), device_class: Some("power"), unit_of_measurement: Some("W"), icon: None, register_topic: None, from_key: false },
        SensorSpec { key: "p_to_user_t", name: "Grid Import Power of Three-Phase: T-phase", is_binary_sensor: false, entity_category: None, state_class: Some("measurement"), device_class: Some("power"), unit_of_measurement: Some("W"), icon: None, register_topic: None, from_key: false },
        SensorSpec { key: "p_gen_s", name: "Generator Power of Three-Phase: S-phase", is_binary_sensor: false, entity_category: None, state_class: Some("measurement"), device_class: Some("power"), unit_of_measurement: Some("W"), icon: None, register_topic: None, from_key: false },
        SensorSpec { key: "p_gen_t", name: "Generator Power of Three-Phase: T-phase", is_binary_sensor: false, entity_category: None, state_class: Some("measurement"), device_class: Some("power"), unit_of_measurement: Some("W"), icon: None, register_topic: None, from_key: false },
        SensorSpec { key: "inv_rms_curr_s", name: "Effective value of Three-Phase Inverter Current: S-phase", is_binary_sensor: false, entity_category: None, state_class: Some("measurement"), device_class: Some("current"), unit_of_measurement: Some("A"), icon: None, register_topic: None, from_key: false },
    ]
}

fn sensor_table_15() -> (r: Vec<SensorSpec>)
    ensures
        r@ == sensor_table_spec_15(),
{
    let mut r: Vec<SensorSpec> = Vec::new();
    r.push(SensorSpec { key: "p_rec_t", name: "Charging Rectification Power of Three-Phase: T-phase", is_binary_sensor: false, entity_category: None, state_class: Some("measurement"), device_class: Some("power"), unit_of_measurement: Some("W"), icon: None, register_topic: None, from_key: false });
    r.push(SensorSpec { key: "p_to_grid_s", name: "Grid Export Power of Three-Phase: S-phase", is_binary_sensor: false, entity_category: None, state_class: Some("measurement"), device_class: Some("power"), unit_of_measurement: Some("W"), icon: None, register_topic: None, from_key: false });
    r.push(SensorSpec { key: "p_to_grid_t", name: "Grid Export Power of Three-Phase: T-phase", is_binary_sensor: false, entity_category: None, state_class: Some("measurement"), device_class: Some("power"), unit_of_measurement: Some("W"), icon: None, register_topic: None, from_key: false });
    r.push(SensorSpec { key: "p_to_user_s", name: "Grid Import Power of Three-Phase: S-phase", is_binary_sensor: false, entity_category: None, state_class: Some("measurement"), device_class: Some("power"), unit_of_measurement: Some("W"), icon: None, register_topic: None, from_key: false });
    r.push(SensorSpec { key: "p_to_user_t", name: "Grid Import Power of Three-Phase: T-phase", is_binary_sensor: false, entity_category: None, state_class: Some("measurement"), device_class: Some("power"), unit_of_measurement: Some("W"), icon: None, register_topic: None, from_key: false });
    r.push(SensorSpec { key: "p_gen_s", name: "Generator Power of Three-Phase: S-phase", is_binary_sensor: false, entity_category: None, state_class: Some("measurement"), device_class: Some("power"), unit_of_measurement: Some("W"), icon: None, register_topic: None, from_key: false });
    r.push(SensorSpec { key: "p_gen_t", name: "Generator Power of Three-Phase: T-phase", is_binary_sensor: false, entity_category: None, state_class: Some("measurement"), device_class: Some("power"), unit_of_measurement: Some("W"), icon: None, register_topic: None, from_key: false });
    r.push(SensorSpec { key: "inv_rms_curr_s", name: "Effective value of Three-Phase Inverter Current: S-phase", is_binary_sensor: false, entity_category: None, state_class: Some("measurement"), device_class: Some("current"), unit_of_measurement: Some("A"), icon: None, register_topic: None, from_key: false });
    assert(r@ =~= sensor_table_spec_15());
    r
}

pub open spec fn sensor_table_spec_16() -> Seq<SensorSpec> {
    seq![
        SensorSpec { key: "inv_rms_curr_t", name: "Effective value of Three-Phase Inverter Current: T-phase", is_binary_sensor: false, entity_category: None, state_class: Some("measurement"), device_class: Some("current"), unit_of_measurement: Some("A"), icon: None, register_topic: None, from_key: false },
        SensorSpec { key: "v_grid_l1", name: "Grid Voltage L1", is_binary_sensor: false, entity_category: None, state_class: Some("measurement"), device_class: Some("voltage"), unit_of_measurement: Some("V"), icon: None, register_topic: None, from_key: false },
        SensorSpec { key: "v_grid_l2", name: "Grid Voltage L2", is_binary_sensor: false, entity_category: None, state_class: Some("measurement"), device_class: Some("voltage"), unit_of_measurement: Some("V"), icon: None, register_topic: None, from_key: false },
        SensorSpec { key: "v_gen_l1", name: "Generator Voltage L1", is_binary_sensor: false, entity_category: None, state_class: Some("measurement"), device_class: Some("voltage"), unit_of_measurement: Some("V"), icon: None, register_topic: None, from_key: false },
        SensorSpec { key: "v_gen_l2", name: "Generator Voltage L2", is_binary_sensor: false, entity_category: None, state_class: Some("measurement"), device_class: Some("voltage"), unit_of_measurement: Some("V"), icon: None, register_topic: None, from_key: false },
        SensorSpec { key: "p_inv_l1", name: "Inverting Power L1", is_binary_sensor: false, entity_category: None, state_class: Some("measurement"), device_class: Some("power"), unit_of_measurement: Some("W"), icon: None, register_topic: None, from_key: false },
        SensorSpec { key: "p_inv_l2", name: "Inverting Power L2", is_binary_sensor: false, entity_category: None, state_class: Some("measurement"), device_class: Some("power"), unit_of_measurement: Some("W"), icon: None, register_topic: None, from_key: false },
        SensorSpec { key: "p_rec_l1", name: "Rectifying Power L1", is_binary_sensor: false, entity_category: None, state_class: Some("measurement"), device_class: Some("power"), unit_of_measurement: Some("W"), icon: None, register_topic: None, from_key: false },
    ]
}

fn sensor_table_16() -> (r: Vec<SensorSpec>)
    ensures
        r@ == sensor_table_spec_16(),
{
    let mut r: Vec<SensorSpec> = Vec::new();
    r.push(SensorSpec { key: "inv_rms_curr_t", name: "Effective value of Three-Phase Inverter Current: T-phase", is_binary_sensor: false, entity_category: None, state_class: Some("measurement"), device_class: Some("current"), unit_of_measurement: Some("A"), icon: None, register_topic: None, from_key: false });
    r.push(SensorSpec { key: "v_grid_l1", name: "Grid Voltage L1", is_binary_sensor: false, entity_category: None, state_class: Some("measurement"), device_class: Some("voltage"), unit_of_measurement: Some("V"), icon: None, register_topic: None, from_key: false });
    r.push(SensorSpec { key: "v_grid_l2", name: "Grid Voltage L2", is_binary_sensor: false, entity_category: None, state_class: Some("measurement"), device_class: Some("voltage"), unit_of_measurement: Some("V"), icon: None, register_topic: None, from_key: false });
    r.push(SensorSpec { key: "v_gen_l1", name: "Generator Voltage L1", is_binary_sensor: false, entity_category: None, state_class: Some("measurement"), device_class: Some("voltage"), unit_of_measurement: Some("V"), icon: None, register_topic: None, from_key: false });
    r.push(SensorSpec { key: "v_gen_l2", name: "Generator Voltage L2", is_binary_sensor: false, entity_category: None, state_class: Some("measurement"), device_class: Some("voltage"), unit_of_measurement: Some("V"), icon: None, register_topic: None, from_key: false });
    r.push(SensorSpec { key: "p_inv_l1", name: "Inverting Power L1", is_binary_sensor: false, entity_category: None, state_class: Some("measurement"), device_class: Some("power"), unit_of_measurement: Some("W"), icon: None, register_topic: None, from_key: false });
    r.push(SensorSpec { key: "p_inv_l2", name: "Inverting Power L2", is_binary_sensor: false, entity_category: None, state_class: Some("measurement"), device_class: Some("power"), unit_of_measurement: Some("W"), icon: None, register_topic: None, from_key: false });
    r.push(SensorSpec { key: "p_rec_l1", name: "Rectifying Power L1", is_binary_sensor: false, entity_category: None, state_class: Some("measurement"), device_class: Some("power"), unit_of_measurement: Some("W"), icon: None, register_topic: None, from_key: false });
    assert(r@ =~= sensor_table_spec_16());
    r
}

pub open spec fn sensor_table_spec_17() -> Seq<SensorSpec> {
    seq![
        SensorSpec { key: "p_rec_l2", name: "Rectifying Power L2", is_binary_sensor: false, entity_category: None, state_class: Some("measurement"), device_class: Some("power"), unit_of_measurement: Some("W"), icon: None, register_topic: None, from_key: false },
        SensorSpec { key: "p_to_grid_l1", name: "Grid Export Power L1", is_binary_sensor: false, entity_category: None, state_class: Some("measurement"), device_class: Some("power"), unit_of_measurement: Some("W"), icon: None, register_topic: None, from_key: false },
        SensorSpec { key: "p_to_grid_l2", name: "Grid Export Power L2", is_binary_sensor: false, entity_category: None, state_class: Some("measurement"), device_class: Some("power"), unit_of_measurement: Some("W"), icon: None, register_topic: None, from_key: false },
        SensorSpec { key: "p_to_user_l1", name: "Grid Import Power L1", is_binary_sensor: false, entity_category: None, state_class: Some("measurement"), device_class: Some("power"), unit_of_measurement: Some("W"), icon: None, register_topic: None, from_key: false },
        SensorSpec { key: "p_to_user_l2", name: "Grid Import Power L2", is_binary_sensor: false, entity_category: None, state_class: Some("measurement"), device_class: Some("power"), unit_of_measurement: Some("W"), icon: None, register_topic: None, from_key: false },
        SensorSpec { key: "auto_test_start", name: "Auto Test Started", is_binary_sensor: false, entity_category: Some("diagnostic"), state_class: None, device_class: Some("enum"), unit_of_measurement: None, icon: None, register_topic: Some("register_71"), from_key: true },
        SensorSpec { key: "ub_auto_test_status", name: "Auto Test Status", is_binary_sensor: false, entity_category: Some("diagnostic"), state_class: None, device_class: Some("enum"), unit_of_measurement: None, icon: None, register_topic: Some("register_71"), from_key: true },
        SensorSpec { key: "ub_auto_test_step", name: "Auto Test Step", is_binary_sensor: false, entity_category: Some("diagnostic"), state_class: None, device_class: Some("enum"), unit_of_measurement: None, icon: None, register_topic: Some("register_71"), from_key: true },
    ]
}

fn sensor_table_17() -> (r: Vec<SensorSpec>)
    ensures
        r@ == sensor_table_spec_17(),
{
    let mut r: Vec<SensorSpec> = Vec::new();
    r.push(SensorSpec { key: "p_rec_l2", name: "Rectifying Power L2", is_binary_sensor: false, entity_category: None, state_class: Some("measurement"), device_class: Some("power"), unit_of_measurement: Some("W"), icon: None, register_topic: None, from_key: false });
    r.push(SensorSpec { key: "p_to_grid_l1", name: "Grid Export Power L1", is_binary_sensor: false, entity_category: None, state_class: Some("measurement"), device_class: Some("power"), unit_of_measurement: Some("W"), icon: None, register_topic: None, from_key: false });
    r.push(SensorSpec { key: "p_to_grid_l2", name: "Grid Export Power L2", is_binary_sensor: false, entity_category: None, state_class: Some("measurement"), device_class: Some("power"), unit_of_measurement: Some("W"), icon: None, register_topic: None, from_key: false });
    r.push(SensorSpec { key: "p_to_user_l1", name: "Grid Import Power L1", is_binary_sensor: false, entity_category: None, state_class: Some("measurement"), device_class: Some("power"), unit_of_measurement: Some("W"), icon: None, register_topic: None, from_key: false });
    r.push(SensorSpec { key: "p_to_user_l2", name: "Grid Import Power L2", is_binary_sensor: false, entity_category: None, state_class: Some("measurement"), device_class: Some("power"), unit_of_measurement: Some("W"), icon: None, register_topic: None, from_key: false });
    r.push(SensorSpec { key: "auto_test_start", name: "Auto Test Started", is_binary_sensor: false, entity_category: Some("diagnostic"), state_class: None, device_class: Some("enum"), unit_of_measurement: None, icon: None, register_topic: Some("register_71"), from_key: true });
    r.push(SensorSpec { key: "ub_auto_test_status", name: "Auto Test Status", is_binary_sensor: false, entity_category: Some("diagnostic"), state_class: None, device_class: Some("enum"), unit_of_measurement: None, icon: None, register_topic: Some("register_71"), from_key: true });
    r.push(SensorSpec { key: "ub_auto_test_step", name: "Auto Test Step", is_binary_sensor: false, entity_category: Some("diagnostic"), state_class: None, device_class: Some("enum"), unit_of_measurement: None, icon: None, register_topic: Some("register_71"), from_key: true });
    assert(r@ =~= sensor_table_spec_17());
    r
}

pub open spec fn sensor_table_spec_18() -> Seq<SensorSpec> {
    seq![
        SensorSpec { key: "runtime", name: "Total Runtime", is_binary_sensor: false, entity_category: Some("diagnostic"), state_class: Some("total_increasing"), device_class: Some("duration"), unit_of_measurement: Some("s"), icon: None, register_topic: None, from_key: false },
    ]
}

fn sensor_table_18() -> (r: Vec<SensorSpec>)
    ensures
        r@ == sensor_table_spec_18(),
{
    let mut r: Vec<SensorSpec> = Vec::new();
    r.push(SensorSpec { key: "runtime", name: "Total Runtime", is_binary_sensor: false, entity_category: Some("diagnostic"), state_class: Some("total_increasing"), device_class: Some("duration"), unit_of_measurement: Some("s"), icon: None, register_topic: None, from_key: false });
    assert(r@ =~= sensor_table_spec_18());
    r
}

/// The sensors that discovery announces, in order.
pub open spec fn sensor_table_spec() -> Seq<SensorSpec> {
    sensor_table_spec_0()
        + sensor_table_spec_1()
        + sensor_table_spec_2()
        + sensor_table_spec_3()
        + sensor_table_spec_4()
        + sensor_table_spec_5()
        + sensor_table_spec_6()
        + sensor_table_spec_7()
        + sensor_table_spec_8()
        + sensor_table_spec_9()
        + sensor_table_spec_10()
        + sensor_table_spec_11()
        + sensor_table_spec_12()
        + sensor_table_spec_13()
        + sensor_table_spec_14()
        + sensor_table_spec_15()
        + sensor_table_spec_16()
        + sensor_table_spec_17()
        + sensor_table_spec_18()
}

pub fn sensor_table() -> (r: Vec<SensorSpec>)
    ensures
        r@ == sensor_table_spec(),
{
    let mut r = sensor_table_0();
    let mut c = sensor_table_1();
    r.append(&mut c);
    let mut c = sensor_table_2();
    r.append(&mut c);
    let mut c = sensor_table_3();
    r.append(&mut c);
    let mut c = sensor_table_4();
    r.append(&mut c);
    let mut c = sensor_table_5();
    r.append(&mut c);
    let mut c = sensor_table_6();
    r.append(&mut c);
    let mut c = sensor_table_7();
    r.append(&mut c);
    let mut c = sensor_table_8();
    r.append(&mut c);
    let mut c = sensor_table_9();
    r.append(&mut c);
    let mut c = sensor_table_10();
    r.append(&mut c);
    let mut c = sensor_table_11();
    r.append(&mut c);
    let mut c = sensor_table_12();
    r.append(&mut c);
    let mut c = sensor_table_13();
    r.append(&mut c);
    let mut c = sensor_table_14();
    r.append(&mut c);
    let mut c = sensor_table_15();
    r.append(&mut c);
    let mut c = sensor_table_16();
    r.append(&mut c);
    let mut c = sensor_table_17();
    r.append(&mut c);
    let mut c = sensor_table_18();
    r.append(&mut c);
    r
}

pub open spec fn control_table_spec_0() -> Seq<Control> {
    seq![
        Control::Switch("ac_charge", "AC Charge"),
        Control::Switch("charge_priority", "Charge Priority"),
        Control::Switch("forced_discharge", "Forced Discharge"),
        Control::NumberPercent(Register::ChargePowerPercentCmd, "System Charge Rate (%)"),
        Control::NumberPercent(Register::DischgPowerPercentCmd, "System Discharge Rate (%)"),
        Control::NumberPercent(Register::AcChargePowerCmd, "AC Charge Rate (%)"),
        Control::NumberPercent(Register::AcChargeSocLimit, "AC Charge Limit %"),
        Control::NumberPercent(Register::ChargePriorityPowerCmd, "Charge Priority Rate (%)"),
    ]
}

fn control_table_0() -> (r: Vec<Control>)
    ensures
        r@ == control_table_spec_0(),
{
    let mut r: Vec<Control> = Vec::new();
    r.push(Control::Switch("ac_charge", "AC Charge"));
    r.push(Control::Switch("charge_priority", "Charge Priority"));
    r.push(Control::Switch("forced_discharge", "Forced Discharge"));
    r.push(Control::NumberPercent(Register::ChargePowerPercentCmd, "System Charge Rate (%)"));
    r.push(Control::NumberPercent(Register::DischgPowerPercentCmd, "System Discharge Rate (%)"));
    r.push(Control::NumberPercent(Register::AcChargePowerCmd, "AC Charge Rate (%)"));
    r.push(Control::NumberPercent(Register::AcChargeSocLimit, "AC Charge Limit %"));
    r.push(Control::NumberPercent(Register::ChargePriorityPowerCmd, "Charge Priority Rate (%)"));
    assert(r@ =~= control_table_spec_0());
    r
}

pub open spec fn control_table_spec_1() -> Seq<Control> {
    seq![
        Control::NumberPercent(Register::ChargePrioritySocLimit, "Charge Priority Limit %"),
        Control::NumberPercent(Register::ForcedDischgSocLimit, "Forced Discharge Limit %"),
        Control::NumberPercent(Register::DischgCutOffSocEod, "Discharge Cutoff %"),
        Control::NumberPercent(Register::EpsDischgCutoffSocEod, "Discharge Cutoff for EPS %"),
        Control::NumberPercent(Register::AcChargeStartSocLimit, "Charge From AC Lower Limit %"),
        Control::NumberPercent(Register::AcChargeEndSocLimit, "Charge From AC Upper Limit %"),
        Control::TimeRange("ac_charge/1", "AC Charge Timeslot 1"),
        Control::TimeRange("ac_charge/2", "AC Charge Timeslot 2"),
    ]
}

fn control_table_1() -> (r: Vec<Control>)
    ensures
        r@ == control_table_spec_1(),
{
    let mut r: Vec<Control> = Vec::new();
    r.push(Control::NumberPercent(Register::ChargePrioritySocLimit, "Charge Priority Limit %"));
    r.push(Control::NumberPercent(Register::ForcedDischgSocLimit, "Forced Discharge Limit %"));
    r.push(Control::NumberPercent(Register::DischgCutOffSocEod, "Discharge Cutoff %"));
    r.push(Control::NumberPercent(Register::EpsDischgCutoffSocEod, "Discharge Cutoff for EPS %"));
    r.push(Control::NumberPercent(Register::AcChargeStartSocLimit, "Charge From AC Lower Limit %"));
    r.push(Control::NumberPercent(Register::AcChargeEndSocLimit, "Charge From AC Upper Limit %"));
    r.push(Control::TimeRange("ac_charge/1", "AC Charge Timeslot 1"));
    r.push(Control::TimeRange("ac_charge/2", "AC Charge Timeslot 2"));
    assert(r@ =~= control_table_spec_1());
    r
}

pub open spec fn control_table_spec_2() -> Seq<Control> {
    seq![
        Control::TimeRange("ac_charge/3", "AC Charge Timeslot 3"),
        Control::TimeRange("ac_first/1", "AC First Timeslot 1"),
        Control::TimeRange("ac_first/2", "AC First Timeslot 2"),
        Control::TimeRange("ac_first/3", "AC First Timeslot 3"),
        Control::TimeRange("charge_priority/1", "Charge Priority Timeslot 1"),
        Control::TimeRange("charge_priority/2", "Charge Priority Timeslot 2"),
        Control::TimeRange("charge_priority/3", "Charge Priority Timeslot 3"),
        Control::TimeRange("forced_discharge/1", "Forced Discharge Timeslot 1"),
    ]
}

fn control_table_2() -> (r: Vec<Control>)
    ensures
        r@ == control_table_spec_2(),
{
    let mut r: Vec<Control> = Vec::new();
    r.push(Control::TimeRange("ac_charge/3", "AC Charge Timeslot 3"));
    r.push(Control::TimeRange("ac_first/1", "AC First Timeslot 1"));
    r.push(Control::TimeRange("ac_first/2", "AC First Timeslot 2"));
    r.push(Control::TimeRange("ac_first/3", "AC First Timeslot 3"));
    r.push(Control::TimeRange("charge_priority/1", "Charge Priority Timeslot 1"));
    r.push(Control::TimeRange("charge_priority/2", "Charge Priority Timeslot 2"));
    r.push(Control::TimeRange("charge_priority/3", "Charge Priority Timeslot 3"));
    r.push(Control::TimeRange("forced_discharge/1", "Forced Discharge Timeslot 1"));
    assert(r@ =~= control_table_spec_2());
    r
}

pub open spec fn control_table_spec_3() -> Seq<Control> {
    seq![
        Control::TimeRange("forced_discharge/2", "Forced Discharge Timeslot 2"),
        Control::TimeRange("forced_discharge/3", "Forced Discharge Timeslot 3"),
        Control::Number(Register::GenRatePower, "Generator Rated Power (kW)"),
        Control::NumberPercent(Register::GenChargeStartSoc, "Generator Start SOC (%)"),
        Control::NumberPercent(Register::GenChargeEndSoc, "Generator End SOC (%)"),
        Control::Number(Register::MaxGenChargeBatCurr, "Generator Max Charge Current (A)"),
        Control::Number(Register::GenCoolDownTime, "Generator Cool Down Time (min)"),
    ]
}

fn control_table_3() -> (r: Vec<Control>)
    ensures
        r@ == control_table_spec_3(),
{
    let mut r: Vec<Control> = Vec::new();
    r.push(Control::TimeRange("forced_discharge/2", "Forced Discharge Timeslot 2"));
    r.push(Control::TimeRange("forced_discharge/3", "Forced Discharge Timeslot 3"));
    r.push(Control::Number(Register::GenRatePower, "Generator Rated Power (kW)"));
    r.push(Control::NumberPercent(Register::GenChargeStartSoc, "Generator Start SOC (%)"));
    r.push(Control::NumberPercent(Register::GenChargeEndSoc, "Generator End SOC (%)"));
    r.push(Control::Number(Register::MaxGenChargeBatCurr, "Generator Max Charge Current (A)"));
    r.push(Control::Number(Register::GenCoolDownTime, "Generator Cool Down Time (min)"));
    assert(r@ =~= control_table_spec_3());
    r
}

/// The controls that discovery announces before the sensors, in order.
pub open spec fn control_table_spec() -> Seq<Control> {
    control_table_spec_0()
        + control_table_spec_1()
        + control_table_spec_2()
        + control_table_spec_3()
}

pub fn control_table() -> (r: Vec<Control>)
    ensures
        r@ == control_table_spec(),
{
    let mut r = control_table_0();
    let mut c = control_table_1();
    r.append(&mut c);
    let mut c = control_table_2();
    r.append(&mut c);
    let mut c = control_table_3();
    r.append(&mut c);
    r
}

} // verus!

verus! {

/// The state topic key of a sensor: its composite topic, or its own key.
pub open spec fn sensor_topic_key(s: SensorSpec) -> Seq<char> {
    match s.register_topic {
        Some(t) => t@,
        None => s.key@,
    }
}

impl Config {
    /// The descriptor of a sensor of the table, and its topic.
    pub open spec fn sensor_ok(&self, s: SensorSpec, topic: Seq<char>, e: Entity) -> bool {
        &&& topic == self.discovery_topic(
            if s.is_binary_sensor { "binary_sensor"@ } else { "sensor"@ },
            s.key@,
        )
        &&& e.key == s.key
        &&& e.name == s.name
        &&& e.is_binary_sensor == s.is_binary_sensor
        &&& e.entity_category == s.entity_category
        &&& e.state_class == s.state_class
        &&& e.device_class == s.device_class
        &&& e.unit_of_measurement == s.unit_of_measurement
        &&& e.icon == s.icon
        &&& e.unique_id@ == self.spec_unique_id(s.key@)
        &&& e.value_template matches ValueTemplate::String(t) && t@ == (if s.from_key {
            key_template(s.key@)
        } else {
            "{{ value_json }}"@
        })
        &&& e.state_topic matches StateTopic::String(t) && t@ == input_state_topic(
            self.namespace@,
            self.datalog@,
            sensor_topic_key(s),
        )
        &&& self.device_ok(e.device)
        &&& self.availability_ok(e.availability)
    }

    /// The descriptor of one sensor of the table.
    pub fn sensor(&self, s: SensorSpec) -> (r: (String, Entity))
        ensures
            self.sensor_ok(s, r.0@, r.1),
    {
        let value_template = if s.from_key {
            ValueTemplate::from_key(s.key)
        } else {
            ValueTemplate::from_default()
        };
        let topic_key = match s.register_topic {
            Some(t) => t,
            None => s.key,
        };
        let state_topic = StateTopic::from_default(self.namespace.as_str(), self.datalog, topic_key);
        let entity = Entity {
            key: s.key,
            is_binary_sensor: s.is_binary_sensor,
            unique_id: self.unique_id(s.key),
            name: s.name,
            state_topic,
            entity_category: s.entity_category,
            state_class: s.state_class,
            device_class: s.device_class,
            value_template,
            unit_of_measurement: s.unit_of_measurement,
            icon: s.icon,
            device: self.device(),
            availability: self.availability(),
        };
        let kind = if s.is_binary_sensor { "binary_sensor" } else { "sensor" };
        (self.ha_discovery_topic(kind, s.key), entity)
    }

    /// The descriptors of every sensor of the table, in order.
    pub fn sensors(&self) -> (r: Vec<(String, Entity)>)
        ensures
            r@.len() == sensor_table_spec().len(),
            forall|i: int|
                0 <= i < r@.len() ==> self.sensor_ok(sensor_table_spec()[i], r@[i].0@, r@[i].1),
    {
        let table = sensor_table();
        let mut r: Vec<(String, Entity)> = Vec::new();
        let mut i: usize = 0;
        while i < table.len()
            invariant
                table@ == sensor_table_spec(),
                0 <= i <= table@.len(),
                r@.len() == i,
                forall|j: int| 0 <= j < i ==> self.sensor_ok(table@[j], r@[j].0@, r@[j].1),
            decreases table@.len() - i,
        {
            r.push(self.sensor(table[i]));
            i = i + 1;
        }
        r
    }

    /// The descriptor of a control, and its topic.
    pub open spec fn control_ok(&self, c: Control, d: Discovery) -> bool {
        match c {
            Control::Switch(n, l) => d matches Discovery::Switch(t, s) && self.switch_ok(
                n@,
                l@,
                t@,
                s,
            ),
            Control::NumberPercent(reg, l) => d matches Discovery::Number(t, n) && self.number_ok(
                reg,
                l@,
                true,
                t@,
                n,
            ),
            Control::Number(reg, l) => d matches Discovery::Number(t, n) && self.number_ok(
                reg,
                l@,
                false,
                t@,
                n,
            ),
            Control::TimeRange(n, l) => d matches Discovery::Text(t, x) && self.time_range_ok(
                n@,
                l@,
                t@,
                x,
            ),
        }
    }

    fn control(&self, c: Control) -> (r: Discovery)
        ensures
            self.control_ok(c, r),
    {
        match c {
            Control::Switch(n, l) => {
                let (t, s) = self.switch(n, l);
                Discovery::Switch(t, s)
            },
            Control::NumberPercent(reg, l) => {
                let (t, n) = self.number_percent(reg, l);
                Discovery::Number(t, n)
            },
            Control::Number(reg, l) => {
                let (t, n) = self.number(reg, l);
                Discovery::Number(t, n)
            },
            Control::TimeRange(n, l) => {
                let (t, x) = self.time_range(n, l);
                Discovery::Text(t, x)
            },
        }
    }

    /// Every descriptor: the controls of the table, then the sensors of the table.
    pub fn all(&self) -> (r: Vec<Discovery>)
        ensures
            r@.len() == control_table_spec().len() + sensor_table_spec().len(),
            forall|i: int|
                0 <= i < control_table_spec().len() ==> self.control_ok(
                    control_table_spec()[i],
                    r@[i],
                ),
            forall|i: int|
                0 <= i < sensor_table_spec().len() ==> (#[trigger] r@[control_table_spec().len()
                    + i] matches Discovery::Sensor(t, e) && self.sensor_ok(
                    sensor_table_spec()[i],
                    t@,
                    e,
                )),
    {
        let controls = control_table();
        let mut r: Vec<Discovery> = Vec::new();
        let mut i: usize = 0;
        while i < controls.len()
            invariant
                controls@ == control_table_spec(),
                0 <= i <= controls@.len(),
                r@.len() == i,
                forall|j: int| 0 <= j < i ==> self.control_ok(controls@[j], r@[j]),
            decreases controls@.len() - i,
        {
            r.push(self.control(controls[i]));
            i = i + 1;
        }
        let table = sensor_table();
        let n = r.len();
        let mut k: usize = 0;
        while k < table.len()
            invariant
                controls@ == control_table_spec(),
                table@ == sensor_table_spec(),
                n == controls@.len(),
                0 <= k <= table@.len(),
                r@.len() == n + k,
                forall|j: int| 0 <= j < n ==> self.control_ok(controls@[j], r@[j]),
                forall|j: int|
                    0 <= j < k ==> (#[trigger] r@[n + j] matches Discovery::Sensor(t, e) && self.sensor_ok(
                        table@[j],
                        t@,
                        e,
                    )),
            decreases table@.len() - k,
        {
            let (t, e) = self.sensor(table[k]);
            r.push(Discovery::Sensor(t, e));
            k = k + 1;
        }
        r
    }
}

} // verus!

verus! {

/// Discovery is stable: two configurations with the same namespace, prefix and datalog
/// give every sensor of the table the same topic, identifier, state topic and template.
pub proof fn lemma_discovery_stable(
    c1: Config,
    c2: Config,
    s: SensorSpec,
    t1: Seq<char>,
    e1: Entity,
    t2: Seq<char>,
    e2: Entity,
)
    requires
        c1.namespace@ == c2.namespace@,
        c1.ha_prefix@ == c2.ha_prefix@,
        c1.datalog@ == c2.datalog@,
        c1.sensor_ok(s, t1, e1),
        c2.sensor_ok(s, t2, e2),
    ensures
        t1 == t2,
        e1.unique_id@ == e2.unique_id@,
        e1.state_topic->String_0@ == e2.state_topic->String_0@,
        e1.value_template->String_0@ == e2.value_template->String_0@,
        e1.device.name@ == e2.device.name@,
        e1.availability.topic@ == e2.availability.topic@,
{
}

} // verus!
