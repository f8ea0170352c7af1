//! How the MQTT bridge dispatches a message that the broker delivers.
use vstd::prelude::*;
use vstd::utf8::{decode_utf8, valid_utf8};
use crate::text::{contains_text, str_contains, str_equal};

verus! {

/// What to do with a message from the broker.
#[derive(PartialEq, Eq, Structural, Clone, Copy, Debug)]
pub enum MqttRoute {
    /// Home Assistant came online: publish discovery, state and availability.
    Discovery,
    /// A status message that needs no answer.
    Ignore,
    /// A state request for the light at this index.
    LightCommand(usize),
    /// A message that cannot be handled; it is answered with `InvalidPayload`.
    Invalid,
}

/// `String::from_utf8`: the text that `bytes` encode, where they are valid
/// UTF-8.
#[verifier::external_body]
fn utf8_text(bytes: &[u8]) -> (res: Option<String>)
    ensures
        res is Some <==> valid_utf8(bytes@),
        res matches Some(s) ==> s@ == decode_utf8(bytes@),
{
    String::from_utf8(bytes.to_vec()).ok()
}

/// The first light whose entity id occurs in `topic`, if any.
pub open spec fn addressed_light(topic: Seq<char>, ids: Seq<String>, i: int) -> bool {
    &&& 0 <= i < ids.len()
    &&& contains_text(topic, ids[i]@)
    &&& forall|j: int| 0 <= j < i ==> !contains_text(topic, #[trigger] ids[j]@)
}

/// Where a message goes: Home Assistant's status topic is read as text, and
/// `online` starts discovery; any other topic goes to the first light whose
/// entity id it contains.
pub open spec fn route_of(topic: Seq<char>, payload: Seq<u8>, ids: Seq<String>) -> MqttRoute {
    if topic == "homeassistant/status"@ {
        if !valid_utf8(payload) {
            MqttRoute::Invalid
        } else if decode_utf8(payload) == "online"@ {
            MqttRoute::Discovery
        } else {
            MqttRoute::Ignore
        }
    } else if exists|i: int| addressed_light(topic, ids, i) {
        MqttRoute::LightCommand((choose|i: int| addressed_light(topic, ids, i)) as usize)
    } else {
        MqttRoute::Invalid
    }
}

/// Decides where a message published on `topic` with `payload` goes, given
/// the entity ids of the lights.
pub fn route_publish(topic: &str, payload: &[u8], unique_ids: &Vec<String>) -> (res: MqttRoute)
    ensures
        res == route_of(topic@, payload@, unique_ids@),
{
    if str_equal(topic, "homeassistant/status") {
        match utf8_text(payload) {
            Some(decoded) => {
                if str_equal(decoded.as_str(), "online") {
                    MqttRoute::Discovery
                } else {
                    MqttRoute::Ignore
                }
            },
            None => MqttRoute::Invalid,
        }
    } else {
        let n = unique_ids.len();
        let mut i: usize = 0;
        while i < n
            invariant
                n == unique_ids@.len(),
                i <= n,
                topic@ != "homeassistant/status"@,
                forall|j: int| 0 <= j < i ==> !contains_text(topic@, #[trigger] unique_ids@[j]@),
            decreases n - i,
        {
            if str_contains(topic, unique_ids[i].as_str()) {
                proof {
                    assert(addressed_light(topic@, unique_ids@, i as int));
                    assert forall|k: int| addressed_light(topic@, unique_ids@, k) implies k == i by {
                        if k < i {
                            assert(!contains_text(topic@, unique_ids@[k]@));
                        } else if k > i {
                            assert(!contains_text(topic@, unique_ids@[i as int]@));
                        }
                    }
                }
                return MqttRoute::LightCommand(i);
            }
            i += 1;
        }
        MqttRoute::Invalid
    }
}

/// The kinds of packet from the broker that the bridge tells apart.
#[derive(PartialEq, Eq, Structural, Clone, Copy, Debug)]
pub enum IncomingPacket {
    Publish,
    PingResp,
    ConnAck,
    Other,
}

/// What the bridge does on a packet from the broker.
#[derive(PartialEq, Eq, Structural, Clone, Copy, Debug)]
pub enum PacketAction {
    /// Route the published message (`route_publish`).
    Decode,
    /// Publish that the lights are available.
    PublishAvailable,
    /// Nothing.
    Ignore,
}

/// The action for each kind of packet: a published message is routed, a
/// ping response or a connection acknowledgement renews the availability,
/// every other packet is passed over.
pub open spec fn action_on(p: IncomingPacket) -> PacketAction {
    match p {
        IncomingPacket::Publish => PacketAction::Decode,
        IncomingPacket::PingResp => PacketAction::PublishAvailable,
        IncomingPacket::ConnAck => PacketAction::PublishAvailable,
        IncomingPacket::Other => PacketAction::Ignore,
    }
}

/// Decides what the bridge does on a packet from the broker.
pub fn packet_action(p: IncomingPacket) -> (res: PacketAction)
    ensures
        res == action_on(p),
{
    match p {
        IncomingPacket::Publish => PacketAction::Decode,
        IncomingPacket::PingResp | IncomingPacket::ConnAck => PacketAction::PublishAvailable,
        IncomingPacket::Other => PacketAction::Ignore,
    }
}

} // verus!
