//! Commands understood by a GVM 800D light, and their text encoding.
//!
//! A command goes to the light as hex text: the command code, the byte `01`
//! and one parameter byte.  Numeric parameters are clamped to what the light
//! accepts before they are encoded.
use vstd::prelude::*;
use crate::hex_text::{upper_hex, upper_hex_bytes, lemma_upper_hex_concat, lemma_upper_hex_nibble};

verus! {

/// Switch the light on or off.
#[derive(PartialEq, Eq, Structural, Clone, Copy, Debug)]
pub enum LightCmd {
    On,
    Off,
}

/// Colour mode of the light.
#[derive(PartialEq, Eq, Structural, Clone, Copy, Debug)]
pub enum ModeCmd {
    ColourTemp,
    HueSat,
    Scenes,
}

/// Built-in scenes; the names match those of the GVM app.
#[derive(PartialEq, Eq, Structural, Clone, Copy, Debug)]
pub enum SceneCmd {
    Lightning,
    CopCar,
    Candle,
    TV,
    BadBulb,
    Party,
    Disco,
    Paparazzi,
}

/// A command for one GVM light.
#[derive(PartialEq, Eq, Structural, Clone, Copy, Debug)]
pub enum GvmNodeCommand {
    Light(LightCmd),
    Mode(ModeCmd),
    Brightness(u8),
    Temperature(u16),
    Hue(u16),
    Saturation(u8),
    RGB(u8),
    Scene(SceneCmd),
}

/// Position of a scene in the GVM app's list, from 0.
pub open spec fn scene_index(s: SceneCmd) -> u8 {
    match s {
        SceneCmd::Lightning => 0,
        SceneCmd::CopCar => 1,
        SceneCmd::Candle => 2,
        SceneCmd::TV => 3,
        SceneCmd::BadBulb => 4,
        SceneCmd::Party => 5,
        SceneCmd::Disco => 6,
        SceneCmd::Paparazzi => 7,
    }
}

/// The command code byte.
pub open spec fn command_code(c: GvmNodeCommand) -> u8 {
    match c {
        GvmNodeCommand::Light(_) => 0,
        GvmNodeCommand::RGB(_) => 1,
        GvmNodeCommand::Brightness(_) => 2,
        GvmNodeCommand::Temperature(_) => 3,
        GvmNodeCommand::Hue(_) => 4,
        GvmNodeCommand::Saturation(_) => 5,
        GvmNodeCommand::Mode(_) => 6,
        GvmNodeCommand::Scene(_) => 7,
    }
}

/// The parameter byte: brightness and saturation are percentages capped at
/// 100, the temperature is clamped to 3200..=5600 Kelvin and sent in hundreds,
/// the hue is capped at 360 degrees and sent in steps of 5, scenes count from 1.
pub open spec fn command_value(c: GvmNodeCommand) -> u8 {
    match c {
        GvmNodeCommand::Light(LightCmd::On) => 1,
        GvmNodeCommand::Light(LightCmd::Off) => 0,
        GvmNodeCommand::RGB(v) => v,
        GvmNodeCommand::Brightness(b) => if b > 100 { 100 } else { b },
        GvmNodeCommand::Temperature(t) => {
            let k: int = if t < 3200 { 3200 } else if t > 5600 { 5600 } else { t as int };
            (k / 100) as u8
        },
        GvmNodeCommand::Hue(h) => {
            let d: int = if h > 360 { 360 } else { h as int };
            (d / 5) as u8
        },
        GvmNodeCommand::Saturation(s) => if s > 100 { 100 } else { s },
        GvmNodeCommand::Mode(ModeCmd::ColourTemp) => 1,
        GvmNodeCommand::Mode(ModeCmd::HueSat) => 2,
        GvmNodeCommand::Mode(ModeCmd::Scenes) => 3,
        GvmNodeCommand::Scene(s) => (scene_index(s) + 1) as u8,
    }
}

/// The text of a command: hex of the code, the byte 1 and the parameter.
pub open spec fn command_text(c: GvmNodeCommand) -> Seq<u8> {
    upper_hex(seq![command_code(c), 1u8, command_value(c)])
}

/// Two ASCII characters, as bytes.
pub(crate) fn ascii_pair(a: u8, b: u8) -> (res: Vec<u8>)
    ensures
        res@ == seq![a, b],
{
    let mut v: Vec<u8> = Vec::new();
    v.push(a);
    v.push(b);
    assert(v@ =~= seq![a, b]);
    v
}

/// The hex text of one byte.
pub(crate) fn hex_of_byte(b: u8) -> (res: Vec<u8>)
    ensures
        res@ == upper_hex(seq![b]),
{
    let one = [b];
    let res = upper_hex_bytes(&one);
    assert(one@ =~= seq![b]);
    res
}

/// Text encoding of a command for a light.
pub trait NodeCommandEncoder {
    fn encode(&self) -> Vec<u8>;
}

impl NodeCommandEncoder for GvmNodeCommand {
    /// The command code, `01` and the clamped parameter, as upper-case hex text.
    fn encode(&self) -> (res: Vec<u8>)
        ensures
            res@ == command_text(*self),
    {
        let (code, mut param): (u8, Vec<u8>) = match self {
            GvmNodeCommand::Light(p) => match p {
                LightCmd::On => (0, ascii_pair(0x30, 0x31)),
                LightCmd::Off => (0, ascii_pair(0x30, 0x30)),
            },
            GvmNodeCommand::RGB(rgb) => {
                let rgb = if *rgb >= 255 { 255 } else { *rgb };
                (1, hex_of_byte(rgb))
            },
            GvmNodeCommand::Brightness(br) => {
                let br = if *br > 100 { 100 } else { *br };
                (2, hex_of_byte(br))
            },
            GvmNodeCommand::Temperature(t) => {
                let t: u16 = if *t < 3200 { 3200 } else { if *t > 5600 { 5600 } else { *t } };
                (3, hex_of_byte((t / 100) as u8))
            },
            GvmNodeCommand::Hue(hue) => {
                let hue: u16 = if *hue > 360 { 360 } else { *hue };
                (4, hex_of_byte((hue / 5) as u8))
            },
            GvmNodeCommand::Saturation(sat) => {
                let sat = if *sat > 100 { 100 } else { *sat };
                (5, hex_of_byte(sat))
            },
            GvmNodeCommand::Mode(mode) => match mode {
                ModeCmd::ColourTemp => (6, ascii_pair(0x30, 0x31)),
                ModeCmd::HueSat => (6, ascii_pair(0x30, 0x32)),
                ModeCmd::Scenes => (6, ascii_pair(0x30, 0x33)),
            },
            GvmNodeCommand::Scene(scene) => match scene {
                SceneCmd::Lightning => (7, ascii_pair(0x30, 0x31)),
                SceneCmd::CopCar => (7, ascii_pair(0x30, 0x32)),
                SceneCmd::Candle => (7, ascii_pair(0x30, 0x33)),
                SceneCmd::TV => (7, ascii_pair(0x30, 0x34)),
                SceneCmd::BadBulb => (7, ascii_pair(0x30, 0x35)),
                SceneCmd::Party => (7, ascii_pair(0x30, 0x36)),
                SceneCmd::Disco => (7, ascii_pair(0x30, 0x37)),
                SceneCmd::Paparazzi => (7, ascii_pair(0x30, 0x38)),
            },
        };
        proof {
            let v = command_value(*self);
            assert(code == command_code(*self));
            if v < 16 {
                lemma_upper_hex_nibble(v);
            }
            assert(param@ == upper_hex(seq![v]));
        }
        let mut c = ascii_pair(0x30, 0x30 + code);
        c.push(0x30);
        c.push(0x31);
        c.append(&mut param);
        proof {
            let v = command_value(*self);
            lemma_upper_hex_nibble(code);
            lemma_upper_hex_nibble(1u8);
            lemma_upper_hex_concat(seq![code], seq![1u8]);
            lemma_upper_hex_concat(seq![code] + seq![1u8], seq![v]);
            assert(seq![code] + seq![1u8] + seq![v] =~= seq![code, 1u8, v]);
            assert(c@ =~= upper_hex(seq![code]) + upper_hex(seq![1u8]) + upper_hex(seq![v]));
        }
        c
    }
}

/// The parameter sent to a light stays in the range the protocol gives for
/// its command, whatever value was asked for: brightness and saturation are
/// percentages, the temperature is 3200 to 5600 Kelvin in hundreds, the hue
/// 0 to 360 degrees in steps of 5, a scene one of the eight.
pub proof fn lemma_command_value_in_range(c: GvmNodeCommand)
    ensures
        c is Brightness ==> command_value(c) <= 100,
        c is Saturation ==> command_value(c) <= 100,
        c is Temperature ==> 32 <= command_value(c) <= 56,
        c is Hue ==> command_value(c) <= 72,
        c is Scene ==> 1 <= command_value(c) <= 8,
        c is Light ==> command_value(c) <= 1,
        c is Mode ==> 1 <= command_value(c) <= 3,
{
}

/// A value already in range is sent as it is: brightness and saturation up
/// to 100, and temperatures and hues that are whole steps within range.
pub proof fn lemma_command_value_in_range_kept(c: GvmNodeCommand)
    ensures
        c matches GvmNodeCommand::Brightness(b) ==> (b <= 100 ==> command_value(c) == b),
        c matches GvmNodeCommand::Saturation(s) ==> (s <= 100 ==> command_value(c) == s),
        c matches GvmNodeCommand::Temperature(t) ==> (3200 <= t <= 5600 ==> command_value(c) * 100 <= t < command_value(c) * 100 + 100),
        c matches GvmNodeCommand::Hue(h) ==> (h <= 360 ==> command_value(c) * 5 <= h < command_value(c) * 5 + 5),
{
}

} // verus!
