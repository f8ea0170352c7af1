use gvm_lights::gvm_node_mqtt::MqttGvmNode800D;
use gvm_lights::gvm_server_mqtt::{packet_action, route_publish, IncomingPacket, MqttRoute, PacketAction};
use gvm_lights::gvm_server_mqtt_light_entity::{
    request_to_commands, ColorMode, Effect, GvmHassTopic, HsValue, MqttLight, State, StateRequest,
};
use gvm_lights::node_command::{GvmNodeCommand, LightCmd, ModeCmd, SceneCmd};

fn entity(node_id: Option<&str>, uid: usize) -> MqttGvmNode800D {
    MqttGvmNode800D {
        node_uid: uid,
        mqtt_light: MqttLight::new(node_id.map(|s| s.to_string())),
    }
}

#[test]
fn topic_names() {
    assert_eq!(GvmHassTopic::brightness.topic(), "brightness");
    assert_eq!(GvmHassTopic::color_mode.topic(), "color_mode");
    assert_eq!(GvmHassTopic::color_temp.topic(), "color_temp");
    assert_eq!(GvmHassTopic::color.topic(), "color");
    assert_eq!(GvmHassTopic::effect.topic(), "effect");
    assert_eq!(GvmHassTopic::state.topic(), "power");
    assert_eq!(GvmHassTopic::availability.topic(), "availability");
    assert_eq!(GvmHassTopic::node_state.topic(), "state");
}

#[test]
fn new_light_has_no_broker() {
    let light = MqttLight::new(Some("office".to_string()));
    assert!(light.broker.is_none());
    assert_eq!(light.node_id, Some("office".to_string()));
}

#[test]
fn unique_id_is_gvm_and_number() {
    assert_eq!(entity(Some("office"), 1).unique_id(), "gvm_1");
    assert_eq!(entity(None, 0).unique_id(), "gvm_0");
    assert_eq!(entity(None, 1234).unique_id(), "gvm_1234");
}

#[test]
fn state_and_command_topics() {
    let e = entity(Some("office"), 2);
    assert_eq!(
        e.create_state_topic(&GvmHassTopic::node_state, false).unwrap(),
        "homeassistant/light/office/gvm_2/state"
    );
    assert_eq!(e.create_state_topic(&GvmHassTopic::node_state, true).unwrap(), "~/state");
    assert_eq!(
        e.create_command_topic(&GvmHassTopic::state, false).unwrap(),
        "homeassistant/light/office/gvm_2/power/set"
    );
    assert_eq!(
        e.create_command_topic(&GvmHassTopic::brightness, true).unwrap(),
        "~/brightness/set"
    );
}

#[test]
fn availability_topics() {
    assert_eq!(
        entity(Some("office"), 1).create_availability_topic().unwrap(),
        "homeassistant/light/office/status"
    );
    assert_eq!(
        entity(None, 1).create_availability_topic().unwrap(),
        "homeassistant/light/status"
    );
}

#[test]
fn abbreviated_topic_expands_to_full_topic() {
    let e = entity(Some("office"), 5);
    let short = e.create_command_topic(&GvmHassTopic::effect, true).unwrap();
    let full = e.create_command_topic(&GvmHassTopic::effect, false).unwrap();
    let expanded = format!("homeassistant/light/office/gvm_5{}", &short[1..]);
    assert_eq!(expanded, full);
}

#[test]
fn route_home_assistant_status() {
    let ids = vec!["gvm_1".to_string(), "gvm_2".to_string()];
    assert_eq!(route_publish("homeassistant/status", b"online", &ids), MqttRoute::Discovery);
    assert_eq!(route_publish("homeassistant/status", b"offline", &ids), MqttRoute::Ignore);
    assert_eq!(route_publish("homeassistant/status", &[0xFF, 0xFE], &ids), MqttRoute::Invalid);
}

#[test]
fn route_light_commands() {
    let ids = vec!["gvm_1".to_string(), "gvm_2".to_string()];
    assert_eq!(
        route_publish("homeassistant/light/office/gvm_2/power/set", b"{}", &ids),
        MqttRoute::LightCommand(1)
    );
    assert_eq!(
        route_publish("homeassistant/light/office/gvm_1/power/set", b"{}", &ids),
        MqttRoute::LightCommand(0)
    );
    assert_eq!(route_publish("some/other/topic", b"{}", &ids), MqttRoute::Invalid);
    let overlapping = vec!["gvm_1".to_string(), "gvm_12".to_string()];
    assert_eq!(
        route_publish("homeassistant/light/office/gvm_12/power/set", b"{}", &overlapping),
        MqttRoute::LightCommand(0)
    );
}

#[test]
fn request_commands_in_order() {
    let r = StateRequest {
        brightness: Some(80),
        color_mode: Some(ColorMode::hs),
        temperature: Some(4000),
        hue_saturation: Some(HsValue { h: 120, s: 50 }),
        effect: Some(Effect::disco),
        state: Some(State::ON),
    };
    assert_eq!(
        request_to_commands(&r),
        vec![
            GvmNodeCommand::Brightness(80),
            GvmNodeCommand::Mode(ModeCmd::HueSat),
            GvmNodeCommand::Temperature(4000),
            GvmNodeCommand::Hue(120),
            GvmNodeCommand::Saturation(50),
            GvmNodeCommand::Scene(SceneCmd::Disco),
            GvmNodeCommand::Light(LightCmd::On),
        ]
    );
}

#[test]
fn request_with_only_some_fields() {
    let r = StateRequest {
        brightness: None,
        color_mode: Some(ColorMode::color_temp),
        temperature: None,
        hue_saturation: None,
        effect: None,
        state: Some(State::OFF),
    };
    assert_eq!(
        request_to_commands(&r),
        vec![GvmNodeCommand::Mode(ModeCmd::ColourTemp), GvmNodeCommand::Light(LightCmd::Off)]
    );
    let empty = StateRequest {
        brightness: None,
        color_mode: None,
        temperature: None,
        hue_saturation: None,
        effect: None,
        state: None,
    };
    assert!(request_to_commands(&empty).is_empty());
}

#[test]
fn conversions_between_vocabularies() {
    assert_eq!(State::from(true), State::ON);
    assert_eq!(State::from(false), State::OFF);
    assert_eq!(LightCmd::from(State::ON), LightCmd::On);
    assert_eq!(LightCmd::from(State::OFF), LightCmd::Off);
    assert_eq!(SceneCmd::from(Effect::flicker_lightning), SceneCmd::Lightning);
    assert_eq!(SceneCmd::from(Effect::police_strobe), SceneCmd::CopCar);
    assert_eq!(SceneCmd::from(Effect::flicker_warm), SceneCmd::Candle);
    assert_eq!(SceneCmd::from(Effect::flicker_cool), SceneCmd::TV);
    assert_eq!(SceneCmd::from(Effect::flicker_loose_bulb), SceneCmd::BadBulb);
    assert_eq!(SceneCmd::from(Effect::cycle_colors), SceneCmd::Party);
    assert_eq!(SceneCmd::from(Effect::disco), SceneCmd::Disco);
    assert_eq!(SceneCmd::from(Effect::flicker_photoshoot), SceneCmd::Paparazzi);
}

#[test]
fn discovery_config_names_topics() {
    let e = entity(Some("office"), 3);
    let c = e.discovery_config();
    assert_eq!(c.config_topic, "homeassistant/light/office/gvm_3/config");
    assert_eq!(c.base, "homeassistant/light/office/gvm_3");
    assert_eq!(c.state_topic, "~/state");
    assert_eq!(c.availability_topic, "homeassistant/light/office/status");
    assert_eq!(c.command_topic, "~/power/set");
    assert_eq!(c.brightness_command_topic, "~/brightness/set");
    assert_eq!(c.color_temp_command_topic, "~/color_temp/set");
    assert_eq!(c.effect_command_topic, "~/effect/set");
    assert_eq!(c.hs_command_topic, "~/color_mode/set");
    assert_eq!(c.unique_id, "gvm_3");
    assert_eq!(c.device_name, "gvm_node_gvm_3");
    assert_eq!(c.effect_list.len(), 8);
    assert_eq!(c.effect_list[0], Effect::flicker_lightning);
    assert_eq!(c.effect_list[7], Effect::flicker_photoshoot);
}

#[test]
fn broker_packets_and_their_actions() {
    assert_eq!(packet_action(IncomingPacket::Publish), PacketAction::Decode);
    assert_eq!(packet_action(IncomingPacket::PingResp), PacketAction::PublishAvailable);
    assert_eq!(packet_action(IncomingPacket::ConnAck), PacketAction::PublishAvailable);
    assert_eq!(packet_action(IncomingPacket::Other), PacketAction::Ignore);
}
