use lxp_bridge::home_assistant::Config;
use lxp_bridge::home_assistant::Discovery;
use lxp_bridge::home_assistant::StateTopic;
use lxp_bridge::home_assistant::ValueTemplate;
use lxp_bridge::register::Register;
use lxp_bridge::serial::Serial;

fn config() -> Config {
    Config::new(Serial::new(b"2222222222").unwrap(), "lxp", "homeassistant")
}

#[test]
fn value_templates() {
    assert_eq!(ValueTemplate::from_default(), ValueTemplate::String("{{ value_json }}".to_owned()));
    assert_eq!(ValueTemplate::from_key("soc"), ValueTemplate::String("{{ value_json.soc }}".to_owned()));
    assert!(ValueTemplate::Omitted.is_none());
    assert!(ValueTemplate::Default.is_default());
    assert!(ValueTemplate::FromKey.is_from_key());
    assert!(!ValueTemplate::Default.is_from_key());
}

#[test]
fn state_topics() {
    let d = Serial::new(b"2222222222").unwrap();
    assert_eq!(
        StateTopic::from_default("lxp", d, "soc"),
        StateTopic::String("lxp/2222222222/input/soc/parsed".to_owned())
    );
    assert!(StateTopic::Default.is_default());
}

#[test]
fn discovery_topic_replaces_slashes() {
    assert_eq!(
        config().ha_discovery_topic("text", "ac_charge/1"),
        "homeassistant/text/lxp_2222222222/ac_charge_1/config"
    );
}

#[test]
fn switch_descriptor() {
    let (topic, s) = config().switch("ac_charge", "AC Charge");
    assert_eq!(topic, "homeassistant/switch/lxp_2222222222/ac_charge/config");
    assert_eq!(s.value_template, "{{ value_json.ac_charge_en }}");
    assert_eq!(s.state_topic, "lxp/2222222222/hold/21/bits");
    assert_eq!(s.command_topic, "lxp/cmd/2222222222/set/ac_charge");
    assert_eq!(s.unique_id, "lxp_2222222222_ac_charge");
    assert_eq!(s.device.identifiers[0], "lxp_2222222222");
    assert_eq!(s.device.manufacturer, "LuxPower");
    assert_eq!(s.availability.topic, "lxp/LWT");
}

#[test]
fn number_descriptors() {
    let (topic, n) = config().number(Register::GenRatePower, "Generator Rated Power (kW)");
    assert_eq!(topic, "homeassistant/number/lxp_2222222222/GenRatePower/config");
    assert_eq!(n.state_topic, "lxp/2222222222/hold/177");
    assert_eq!(n.command_topic, "lxp/cmd/2222222222/set/hold/177");
    assert_eq!(n.unique_id, "lxp_2222222222_number_GenRatePower");
    assert_eq!(n.step_divisor, 10);
    assert_eq!(n.unit_of_measurement, "kW");
    assert_eq!(n.max, 65535);
    assert_eq!(n.mode, "box");
    let (_, p) = config().number_percent(Register::AcChargeSocLimit, "AC Charge Limit %");
    assert_eq!(p.state_topic, "lxp/2222222222/hold/67");
    assert_eq!(p.step_divisor, 1);
    assert_eq!(p.unit_of_measurement, "%");
    assert_eq!(p.max, 200);
    assert_eq!(p.mode, "slider");
}

#[test]
fn time_range_descriptor() {
    let (topic, t) = config().time_range("ac_charge/1", "AC Charge Timeslot 1");
    assert_eq!(topic, "homeassistant/text/lxp_2222222222/ac_charge_1/config");
    assert_eq!(t.state_topic, "lxp/2222222222/ac_charge/1");
    assert_eq!(t.command_topic, "lxp/cmd/2222222222/set/ac_charge/1");
    assert_eq!(t.unique_id, "lxp_2222222222_text_ac_charge/1");
}

#[test]
fn all_descriptors() {
    let all = config().all();
    assert_eq!(all.len(), 31 + 145);
    match &all[31] {
        Discovery::Sensor(topic, e) => {
            assert_eq!(topic, "homeassistant/sensor/lxp_2222222222/status/config");
            assert_eq!(e.unique_id, "lxp_2222222222_status");
            assert_eq!(e.state_topic, StateTopic::String("lxp/2222222222/input/status/parsed".to_owned()));
            assert_eq!(e.value_template, ValueTemplate::String("{{ value_json }}".to_owned()));
        }
        _ => panic!("sensor expected"),
    }
    let bin = all.iter().find_map(|d| match d {
        Discovery::Sensor(t, e) if e.key == "ac_couple_enable" => Some((t.clone(), e.clone())),
        _ => None,
    });
    let (t, e) = bin.unwrap();
    assert_eq!(t, "homeassistant/binary_sensor/lxp_2222222222/ac_couple_enable/config");
    assert_eq!(e.state_topic, StateTopic::String("lxp/2222222222/input/register_77/parsed".to_owned()));
    assert_eq!(e.value_template, ValueTemplate::String("{{ value_json.ac_couple_enable }}".to_owned()));
}

#[test]
fn discovery_is_stable() {
    let a = config().all();
    let b = config().all();
    let topics = |v: &Vec<Discovery>| -> Vec<String> {
        v.iter()
            .map(|d| match d {
                Discovery::Switch(t, _) | Discovery::Number(t, _) | Discovery::Text(t, _) | Discovery::Sensor(t, _) => t.clone(),
            })
            .collect()
    };
    assert_eq!(topics(&a), topics(&b));
}
