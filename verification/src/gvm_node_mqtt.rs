//! The topics under which a light is known to Home Assistant.
//!
//! A light's topics live under `homeassistant/light/<server id>/gvm_<light id>`;
//! in a discovery payload that base is abbreviated to `~`.
use vstd::prelude::*;
use crate::errors::MqttError;
use crate::gvm_server_mqtt_light_entity::{Effect, GvmHassTopic, MqttLight, effect_scene, topic_name};
use crate::node_command::scene_index;
use crate::text::{decimal, push_decimal};

verus! {

/// A light as an MQTT entity: its id among the server's lights and its
/// connection to the broker.
pub struct MqttGvmNode800D {
    pub node_uid: usize,
    pub mqtt_light: MqttLight,
}

/// The entity id of the light with id `uid`.
pub open spec fn unique_id_text(uid: usize) -> Seq<char> {
    "gvm_"@ + decimal(uid as nat)
}

/// The base of a light's topics, or `~` where it is abbreviated.
pub open spec fn topic_base_text(node_id: Option<String>, uid: usize, shorten: bool) -> Seq<char> {
    if shorten {
        "~"@
    } else {
        "homeassistant/light/"@ + node_id.unwrap()@ + "/"@ + unique_id_text(uid)
    }
}

/// The topic on which a light publishes its state of the given kind.
pub open spec fn state_topic_text(
    node_id: Option<String>,
    uid: usize,
    kind: GvmHassTopic,
    shorten: bool,
) -> Seq<char> {
    topic_base_text(node_id, uid, shorten) + "/"@ + topic_name(kind)
}

/// The topic on which a light takes commands of the given kind.
pub open spec fn command_topic_text(
    node_id: Option<String>,
    uid: usize,
    kind: GvmHassTopic,
    shorten: bool,
) -> Seq<char> {
    topic_base_text(node_id, uid, shorten) + "/"@ + topic_name(kind) + "/set"@
}

/// The availability topic shared by all lights of a server.
pub open spec fn availability_topic_text(node_id: Option<String>) -> Seq<char> {
    match node_id {
        Some(id) => "homeassistant/light/"@ + id@ + "/status"@,
        None => "homeassistant/light/status"@,
    }
}

/// Whether a light's topics can be written out: the full base needs the
/// server id.
pub open spec fn has_topic_base(node_id: Option<String>, shorten: bool) -> bool {
    shorten || node_id is Some
}

impl MqttGvmNode800D {
    /// `gvm_` followed by the light's id.
    pub fn unique_id(&self) -> (res: String)
        ensures
            res@ == unique_id_text(self.node_uid),
    {
        let mut id = String::from_str("gvm_");
        push_decimal(&mut id, self.node_uid);
        id
    }

    /// The base of the light's topics.
    fn topic_base_for(&self, shorten: bool) -> (res: String)
        requires
            has_topic_base(self.mqtt_light.node_id, shorten),
        ensures
            res@ == topic_base_text(self.mqtt_light.node_id, self.node_uid, shorten),
    {
        if shorten {
            String::from_str("~")
        } else {
            let node_id = self.mqtt_light.node_id.as_ref().unwrap();
            let mut base = String::from_str("homeassistant/light/");
            base.append(node_id.as_str());
            base.append("/");
            let uid = self.unique_id();
            base.append(uid.as_str());
            base
        }
    }

    /// The topic on which the light publishes its state of the given kind.
    pub fn create_state_topic(&self, state_type: &GvmHassTopic, shorten: bool) -> (res: Result<
        String,
        MqttError,
    >)
        requires
            has_topic_base(self.mqtt_light.node_id, shorten),
            !(*state_type is transition),
        ensures
            res matches Ok(topic) && topic@ == state_topic_text(
                self.mqtt_light.node_id,
                self.node_uid,
                *state_type,
                shorten,
            ),
    {
        let mut topic = self.topic_base_for(shorten);
        topic.append("/");
        let topic_type = state_type.topic();
        topic.append(topic_type.as_str());
        Ok(topic)
    }

    /// The topic on which the light takes commands of the given kind.
    pub fn create_command_topic(&self, command_type: &GvmHassTopic, shorten: bool) -> (res: Result<
        String,
        MqttError,
    >)
        requires
            has_topic_base(self.mqtt_light.node_id, shorten),
            !(*command_type is transition),
        ensures
            res matches Ok(topic) && topic@ == command_topic_text(
                self.mqtt_light.node_id,
                self.node_uid,
                *command_type,
                shorten,
            ),
    {
        let mut topic = self.topic_base_for(shorten);
        topic.append("/");
        let topic_type = command_type.topic();
        topic.append(topic_type.as_str());
        topic.append("/set");
        Ok(topic)
    }

    /// The availability topic shared by all lights of the server.
    pub fn create_availability_topic(&self) -> (res: Result<String, MqttError>)
        ensures
            res matches Ok(topic) && topic@ == availability_topic_text(self.mqtt_light.node_id),
    {
        match &self.mqtt_light.node_id {
            Some(node_id) => {
                let mut topic = String::from_str("homeassistant/light/");
                topic.append(node_id.as_str());
                topic.append("/status");
                Ok(topic)
            },
            None => Ok(String::from_str("homeassistant/light/status")),
        }
    }
}

/// The effects a light offers, in the order of its scenes.
pub open spec fn offered_effects() -> Seq<Effect> {
    seq![
        Effect::flicker_lightning,
        Effect::police_strobe,
        Effect::flicker_warm,
        Effect::flicker_cool,
        Effect::flicker_loose_bulb,
        Effect::cycle_colors,
        Effect::disco,
        Effect::flicker_photoshoot,
    ]
}

/// The parts of a light's discovery message that name it and its topics.
/// The topics a light is addressed on are abbreviated with `~`.
pub struct DiscoveryConfig {
    /// Where the discovery message is published: the base and `/config`.
    pub config_topic: String,
    /// The base of the light's topics, which `~` stands for.
    pub base: String,
    pub state_topic: String,
    pub availability_topic: String,
    pub command_topic: String,
    pub brightness_command_topic: String,
    pub color_temp_command_topic: String,
    pub effect_command_topic: String,
    pub hs_command_topic: String,
    pub effect_list: Vec<Effect>,
    pub unique_id: String,
    /// `gvm_node_` and the entity id.
    pub device_name: String,
}

impl MqttGvmNode800D {
    /// The names and topics that a discovery message announces for this
    /// light: its state on the `state` topic, its power commands on the
    /// `power` topic, and brightness, colour temperature, effect and hue and
    /// saturation commands on their own topics.
    pub fn discovery_config(&self) -> (res: DiscoveryConfig)
        requires
            self.mqtt_light.node_id is Some,
        ensures
            res.config_topic@ == topic_base_text(self.mqtt_light.node_id, self.node_uid, false) + "/config"@,
            res.base@ == topic_base_text(self.mqtt_light.node_id, self.node_uid, false),
            res.state_topic@ == state_topic_text(self.mqtt_light.node_id, self.node_uid, GvmHassTopic::node_state, true),
            res.availability_topic@ == availability_topic_text(self.mqtt_light.node_id),
            res.command_topic@ == command_topic_text(self.mqtt_light.node_id, self.node_uid, GvmHassTopic::state, true),
            res.brightness_command_topic@ == command_topic_text(
                self.mqtt_light.node_id,
                self.node_uid,
                GvmHassTopic::brightness,
                true,
            ),
            res.color_temp_command_topic@ == command_topic_text(
                self.mqtt_light.node_id,
                self.node_uid,
                GvmHassTopic::color_temp,
                true,
            ),
            res.effect_command_topic@ == command_topic_text(self.mqtt_light.node_id, self.node_uid, GvmHassTopic::effect, true),
            res.hs_command_topic@ == command_topic_text(
                self.mqtt_light.node_id,
                self.node_uid,
                GvmHassTopic::color_mode,
                true,
            ),
            res.effect_list@ == offered_effects(),
            res.unique_id@ == unique_id_text(self.node_uid),
            res.device_name@ == "gvm_node_"@ + unique_id_text(self.node_uid),
    {
        let base = self.topic_base_for(false);
        let mut config_topic = self.topic_base_for(false);
        config_topic.append("/config");
        let state_topic = self.create_state_topic(&GvmHassTopic::node_state, true).unwrap();
        let availability_topic = self.create_availability_topic().unwrap();
        let command_topic = self.create_command_topic(&GvmHassTopic::state, true).unwrap();
        let brightness_command_topic = self.create_command_topic(&GvmHassTopic::brightness, true).unwrap();
        let color_temp_command_topic = self.create_command_topic(&GvmHassTopic::color_temp, true).unwrap();
        let effect_command_topic = self.create_command_topic(&GvmHassTopic::effect, true).unwrap();
        let hs_command_topic = self.create_command_topic(&GvmHassTopic::color_mode, true).unwrap();
        let effect_list = vec![
            Effect::flicker_lightning,
            Effect::police_strobe,
            Effect::flicker_warm,
            Effect::flicker_cool,
            Effect::flicker_loose_bulb,
            Effect::cycle_colors,
            Effect::disco,
            Effect::flicker_photoshoot,
        ];
        assert(effect_list@ =~= offered_effects());
        let unique_id = self.unique_id();
        let mut device_name = String::from_str("gvm_node_");
        device_name.append(unique_id.as_str());
        DiscoveryConfig {
            config_topic,
            base,
            state_topic,
            availability_topic,
            command_topic,
            brightness_command_topic,
            color_temp_command_topic,
            effect_command_topic,
            hs_command_topic,
            effect_list,
            unique_id,
            device_name,
        }
    }
}

/// In a discovery payload `~` stands for the base of the light's topics:
/// putting the base in place of the leading `~` of an abbreviated topic gives
/// the full topic.
pub proof fn lemma_abbreviated_topic_expands(node_id: Option<String>, uid: usize, kind: GvmHassTopic)
    requires
        node_id is Some,
    ensures
        topic_base_text(node_id, uid, false) + state_topic_text(node_id, uid, kind, true).drop_first()
            == state_topic_text(node_id, uid, kind, false),
        topic_base_text(node_id, uid, false) + command_topic_text(node_id, uid, kind, true).drop_first()
            == command_topic_text(node_id, uid, kind, false),
{
    reveal_strlit("~");
    let base = topic_base_text(node_id, uid, false);
    assert(state_topic_text(node_id, uid, kind, true).drop_first() =~= "/"@ + topic_name(kind));
    assert(base + ("/"@ + topic_name(kind)) =~= state_topic_text(node_id, uid, kind, false));
    assert(command_topic_text(node_id, uid, kind, true).drop_first() =~= "/"@ + topic_name(kind) + "/set"@);
    assert(base + ("/"@ + topic_name(kind) + "/set"@) =~= command_topic_text(node_id, uid, kind, false));
}

/// The effects offered to Home Assistant name every scene of the light once,
/// in the order of the GVM app's list.
pub proof fn lemma_offered_effects_cover_scenes()
    ensures
        offered_effects().len() == 8,
        forall|i: int| 0 <= i < 8 ==> scene_index(effect_scene(#[trigger] offered_effects()[i])) == i,
        forall|i: int, j: int| 0 <= i < j < 8 ==> offered_effects()[i] != offered_effects()[j],
{
    assert forall|i: int| 0 <= i < 8 implies scene_index(effect_scene(#[trigger] offered_effects()[i])) == i by {
        if i == 0 {} else if i == 1 {} else if i == 2 {} else if i == 3 {} else if i == 4 {}
        else if i == 5 {} else if i == 6 {} else {}
    }
    assert forall|i: int, j: int| 0 <= i < j < 8 implies offered_effects()[i] != offered_effects()[j] by {
        assert(scene_index(effect_scene(offered_effects()[i])) == i);
        assert(scene_index(effect_scene(offered_effects()[j])) == j);
    }
}

} // verus!
