//! What the Bluetooth client of the lights reads from a light's
//! notifications.
use vstd::prelude::*;
use crate::codec::{ControlMessage, LightCmd};

verus! {

/// A notification that the client can read: its third byte says whether it
/// carries the light's state (`0x0E`, then at least twelve bytes long) or
/// nothing (`0x0A`).
pub open spec fn notification_readable(value: Seq<u8>) -> bool {
    &&& value.len() >= 3
    &&& (value[2] == 0x0E || value[2] == 0x0A)
    &&& value[2] == 0x0E ==> value.len() >= 12
}

/// The messages that describe the state a notification reports: power
/// (byte 6 is 1 when on), RGB (byte 7), brightness (byte 8), temperature
/// (byte 9, in hundreds of Kelvin), hue (byte 10, in steps of 5 degrees) and
/// saturation (byte 11).  A notification without state gives none.
pub open spec fn notified_messages(value: Seq<u8>) -> Seq<ControlMessage> {
    if value[2] == 0x0E {
        seq![
            ControlMessage::Light(if value[6] == 1 { LightCmd::On } else { LightCmd::Off }),
            ControlMessage::RGB(value[7]),
            ControlMessage::Brightness(value[8]),
            ControlMessage::Temperature((value[9] * 100) as u16),
            ControlMessage::Hue((value[10] * 5) as u16),
            ControlMessage::Saturation(value[11]),
        ]
    } else {
        Seq::empty()
    }
}

/// Reads the state messages out of one notification of a light.
pub fn notification_messages(value: &[u8]) -> (res: Vec<ControlMessage>)
    requires
        notification_readable(value@),
    ensures
        res@ == notified_messages(value@),
{
    let mut states: Vec<ControlMessage> = Vec::new();
    if value[2] == 0x0E {
        let light = if value[6] == 0x01 { LightCmd::On } else { LightCmd::Off };
        states.push(ControlMessage::Light(light));
        states.push(ControlMessage::RGB(value[7]));
        states.push(ControlMessage::Brightness(value[8]));
        states.push(ControlMessage::Temperature(value[9] as u16 * 100));
        states.push(ControlMessage::Hue(value[10] as u16 * 5));
        states.push(ControlMessage::Saturation(value[11]));
    }
    assert(states@ =~= notified_messages(value@));
    states
}

} // verus!
