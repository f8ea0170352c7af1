//! The control messages of the GVM lights client and their frames.
//!
//! A message is written as hex text: its command code, `01` and one
//! parameter byte.  A frame wraps that text in the fixed header, the
//! CRC-16/XMODEM of the frame's bytes and `FF`.
use vstd::prelude::*;
use crate::gvm_node::{
    command_frame_text, command_payload, crc16_xmodem, crc16_xmodem_be, frame_header, frame_with_checksum,
    framed_text, header_text, lemma_upper_hex_decodes,
};
use crate::node_command::{command_code, command_text, command_value, GvmNodeCommand, SceneCmd};
use crate::hex_text::{hex_decode, hex_encode_upper, upper_hex, upper_hex_bytes, upper_hex_chars, lemma_upper_hex_concat};

verus! {

/// Switch the light on or off.
#[derive(PartialEq, Eq, Structural, Clone, Copy, Debug)]
pub enum LightCmd {
    On,
    Off,
}

/// Colour mode of the light.
#[derive(PartialEq, Eq, Structural, Clone, Copy, Debug)]
pub enum ModeCmd {
    ColourTemp,
    HueSat,
    Scenes,
}

/// A message to a light, or the request to read its state.
#[derive(PartialEq, Eq, Structural, Clone, Copy, Debug)]
pub enum ControlMessage {
    Light(LightCmd),
    Brightness(u8),
    Temperature(u16),
    Hue(u16),
    Saturation(u8),
    RGB(u8),
    Scene(u8),
    Mode(ModeCmd),
    ReadState(),
}

/// Whether a message has a text form: every message but `ReadState`.
pub open spec fn has_text(msg: ControlMessage) -> bool {
    !(msg is ReadState)
}

/// The command code of a message.
pub open spec fn message_code(msg: ControlMessage) -> u8 {
    match msg {
        ControlMessage::Light(_) => 0,
        ControlMessage::RGB(_) => 1,
        ControlMessage::Brightness(_) => 2,
        ControlMessage::Temperature(_) => 3,
        ControlMessage::Hue(_) => 4,
        ControlMessage::Saturation(_) => 5,
        ControlMessage::Mode(_) => 6,
        ControlMessage::Scene(_) => 7,
        ControlMessage::ReadState() => 0,
    }
}

/// The parameter byte of a message: brightness and saturation are capped at
/// 100, the temperature is clamped to 3200..=5600 Kelvin and sent in
/// hundreds, the hue is capped at 360 degrees and sent in steps of 5, and a
/// scene number above 8 becomes 0.
pub open spec fn message_value(msg: ControlMessage) -> u8 {
    match msg {
        ControlMessage::Light(LightCmd::On) => 1,
        ControlMessage::Light(LightCmd::Off) => 0,
        ControlMessage::RGB(v) => v,
        ControlMessage::Brightness(b) => if b > 100 { 100 } else { b },
        ControlMessage::Temperature(t) => {
            let k: int = if t < 3200 { 3200 } else if t > 5600 { 5600 } else { t as int };
            (k / 100) as u8
        },
        ControlMessage::Hue(h) => {
            let d: int = if h > 360 { 360 } else { h as int };
            (d / 5) as u8
        },
        ControlMessage::Saturation(s) => if s > 100 { 100 } else { s },
        ControlMessage::Mode(ModeCmd::ColourTemp) => 1,
        ControlMessage::Mode(ModeCmd::HueSat) => 2,
        ControlMessage::Mode(ModeCmd::Scenes) => 3,
        ControlMessage::Scene(s) => if s > 8 { 0 } else { s },
        ControlMessage::ReadState() => 0,
    }
}

/// The three bytes a message stands for: code, 1 and parameter.
pub open spec fn message_bytes(msg: ControlMessage) -> Seq<u8> {
    seq![message_code(msg), 1u8, message_value(msg)]
}

/// The bytes of a message's frame before the checksum.
pub open spec fn message_payload(msg: ControlMessage) -> Seq<u8> {
    frame_header() + message_bytes(msg)
}

/// The frame text of a message.
pub open spec fn message_frame_text(msg: ControlMessage) -> Seq<u8> {
    framed_text(upper_hex(message_payload(msg)), crc16_xmodem(message_payload(msg)))
}

/// The code and the clamped parameter of a message that has a text form.
fn code_and_value(msg: ControlMessage) -> (res: [u8; 3])
    requires
        has_text(msg),
    ensures
        res@ == message_bytes(msg),
{
    let (code, value): (u8, u8) = match msg {
        ControlMessage::Light(p) => match p {
            LightCmd::On => (0, 1),
            LightCmd::Off => (0, 0),
        },
        ControlMessage::RGB(rgb) => (1, if rgb >= 255 { 255 } else { rgb }),
        ControlMessage::Brightness(br) => (2, if br > 100 { 100 } else { br }),
        ControlMessage::Temperature(t) => {
            let t: u16 = if t < 3200 { 3200 } else if t > 5600 { 5600 } else { t };
            (3, (t / 100) as u8)
        },
        ControlMessage::Hue(hue) => {
            let hue: u16 = if hue > 360 { 360 } else { hue };
            (4, (hue / 5) as u8)
        },
        ControlMessage::Saturation(sat) => (5, if sat > 100 { 100 } else { sat }),
        ControlMessage::Mode(mode) => match mode {
            ModeCmd::ColourTemp => (6, 1),
            ModeCmd::HueSat => (6, 2),
            ModeCmd::Scenes => (6, 3),
        },
        ControlMessage::Scene(scene) => (7, if scene > 8 { 0 } else { scene }),
        ControlMessage::ReadState() => (0, 0),
    };
    let res = [code, 1u8, value];
    assert(res@ =~= message_bytes(msg));
    res
}

/// The text of a message: the code, `01` and the parameter as upper-case
/// hex. `ReadState` has none.
pub fn message_text(msg: ControlMessage) -> (res: String)
    requires
        has_text(msg),
    ensures
        res@ == upper_hex_chars(message_bytes(msg)),
        as_node_command(msg) matches Some(c) ==> res@ == command_text(c).map_values(|b: u8| b as char),
        msg matches ControlMessage::Scene(n) ==> res@ == upper_hex_chars(
            seq![7u8, 1u8, if n > 8 { 0u8 } else { n }],
        ),
{
    let bytes = code_and_value(msg);
    proof {
        lemma_message_text_is_command_text(msg);
    }
    hex_encode_upper(&bytes)
}

/// The frame that carries a message, as hex text: header, message text,
/// checksum, `FF`.  The frame text is always valid hex, so the decoding
/// step never fails.
pub fn encode(msg: &ControlMessage) -> (res: Result<Vec<u8>, hex::FromHexError>)
    requires
        has_text(*msg),
    ensures
        res is Ok,
        res matches Ok(frame) ==> frame@ == message_frame_text(*msg),
        crc16_xmodem(message_payload(*msg)).len() == 2,
        res matches Ok(frame) ==> frame@.len() == 26,
{
    let mut buf = header_text();
    let bytes = code_and_value(*msg);
    let mut text = upper_hex_bytes(&bytes);
    buf.append(&mut text);
    proof {
        lemma_upper_hex_concat(frame_header(), message_bytes(*msg));
        assert(buf@ == upper_hex(message_payload(*msg)));
        lemma_upper_hex_decodes(message_payload(*msg));
    }
    let buf_decoded = match hex_decode(buf.as_slice()) {
        Ok(decoded) => decoded,
        Err(e) => {
            return Err(e);
        },
    };
    let crc = crc16_xmodem_be(buf_decoded.as_slice());
    Ok(frame_with_checksum(buf.as_slice(), crc.as_slice()))
}

/// The parameter of a message stays in the range the protocol gives for its
/// command, whatever value was asked for.
pub proof fn lemma_message_value_in_range(msg: ControlMessage)
    ensures
        msg is Brightness ==> message_value(msg) <= 100,
        msg is Saturation ==> message_value(msg) <= 100,
        msg is Temperature ==> 32 <= message_value(msg) <= 56,
        msg is Hue ==> message_value(msg) <= 72,
        msg is Scene ==> message_value(msg) <= 8,
        msg is Light ==> message_value(msg) <= 1,
        msg is Mode ==> 1 <= message_value(msg) <= 3,
{
}

/// The server's command that asks a light for the same thing as a message,
/// where there is one: a scene is numbered from 1 in a message and from 0 in
/// the server's list, and scene 0 has no counterpart.
pub open spec fn as_node_command(msg: ControlMessage) -> Option<GvmNodeCommand> {
    match msg {
        ControlMessage::Light(LightCmd::On) => Some(GvmNodeCommand::Light(crate::node_command::LightCmd::On)),
        ControlMessage::Light(LightCmd::Off) => Some(GvmNodeCommand::Light(crate::node_command::LightCmd::Off)),
        ControlMessage::Brightness(b) => Some(GvmNodeCommand::Brightness(b)),
        ControlMessage::Temperature(t) => Some(GvmNodeCommand::Temperature(t)),
        ControlMessage::Hue(h) => Some(GvmNodeCommand::Hue(h)),
        ControlMessage::Saturation(s) => Some(GvmNodeCommand::Saturation(s)),
        ControlMessage::RGB(r) => Some(GvmNodeCommand::RGB(r)),
        ControlMessage::Mode(ModeCmd::ColourTemp) => Some(GvmNodeCommand::Mode(crate::node_command::ModeCmd::ColourTemp)),
        ControlMessage::Mode(ModeCmd::HueSat) => Some(GvmNodeCommand::Mode(crate::node_command::ModeCmd::HueSat)),
        ControlMessage::Mode(ModeCmd::Scenes) => Some(GvmNodeCommand::Mode(crate::node_command::ModeCmd::Scenes)),
        ControlMessage::Scene(n) => if n == 1 {
            Some(GvmNodeCommand::Scene(SceneCmd::Lightning))
        } else if n == 2 {
            Some(GvmNodeCommand::Scene(SceneCmd::CopCar))
        } else if n == 3 {
            Some(GvmNodeCommand::Scene(SceneCmd::Candle))
        } else if n == 4 {
            Some(GvmNodeCommand::Scene(SceneCmd::TV))
        } else if n == 5 {
            Some(GvmNodeCommand::Scene(SceneCmd::BadBulb))
        } else if n == 6 {
            Some(GvmNodeCommand::Scene(SceneCmd::Party))
        } else if n == 7 {
            Some(GvmNodeCommand::Scene(SceneCmd::Disco))
        } else if n == 8 {
            Some(GvmNodeCommand::Scene(SceneCmd::Paparazzi))
        } else {
            None
        },
        ControlMessage::ReadState() => None,
    }
}

/// The client and the server speak one protocol: a message and the server's
/// command that asks for the same thing go to the light as the same frame.
pub proof fn lemma_message_frame_is_command_frame(msg: ControlMessage)
    requires
        as_node_command(msg) is Some,
    ensures
        message_frame_text(msg) == command_frame_text(as_node_command(msg).unwrap()),
{
    let c = as_node_command(msg).unwrap();
    assert(message_code(msg) == command_code(c));
    assert(message_value(msg) == command_value(c));
    assert(message_payload(msg) =~= command_payload(c));
}

/// A message's text is the text of the server's command that asks for the
/// same thing, byte for byte; a scene's text is `0701` and the hex of its
/// number, which becomes 0 above 8.
pub proof fn lemma_message_text_is_command_text(msg: ControlMessage)
    requires
        has_text(msg),
    ensures
        as_node_command(msg) is Some ==> upper_hex(message_bytes(msg)) == command_text(as_node_command(msg).unwrap()),
        msg matches ControlMessage::Scene(n) ==> upper_hex(message_bytes(msg)) == upper_hex(
            seq![7u8, 1u8, if n > 8 { 0u8 } else { n }],
        ),
{
    if as_node_command(msg) is Some {
        let c = as_node_command(msg).unwrap();
        assert(message_bytes(msg) =~= seq![command_code(c), 1u8, command_value(c)]);
    }
    if let ControlMessage::Scene(n) = msg {
        assert(message_bytes(msg) =~= seq![7u8, 1u8, if n > 8 { 0u8 } else { n }]);
    }
}

} // verus!
