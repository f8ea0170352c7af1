//! Values in the wire format of `bincode` (fixed-width integers, little
//! endian), as the server protocol carries light statuses and commands.
//!
//! `bincode` writes a struct as its fields in order and an enum as its
//! variant's index (a `u32`) followed by the variant's fields; statuses and
//! commands are written and read here field by field with `bincode`'s own
//! integer and boolean encodings.
use vstd::prelude::*;
use vstd::slice::slice_subrange;
use crate::node_command::{GvmNodeCommand, LightCmd, ModeCmd, SceneCmd, scene_index};
use crate::node_status::{GvmNodeStatus, PowerState, Brightness, Temperature, Hue, Saturation, RGB};

verus! {

/// `bincode::ErrorKind`, the error of `bincode`'s functions.
#[verifier::external_type_specification]
#[verifier::external_body]
pub struct ExBincodeErrorKind(bincode::ErrorKind);

/// The error that `bincode`'s functions return.
pub type BincodeError = Box<bincode::ErrorKind>;

/// Two bytes of `v`, least significant first.
pub open spec fn le16(v: u16) -> Seq<u8> {
    seq![(v % 256) as u8, (v / 256) as u8]
}

/// Four bytes of `v`, least significant first.
pub open spec fn le32(v: u32) -> Seq<u8> {
    seq![(v % 256) as u8, ((v / 256) % 256) as u8, ((v / 65536) % 256) as u8, (v / 16777216) as u8]
}

/// The `u16` whose least significant byte comes first in `b`.
pub open spec fn le16_value(b: Seq<u8>) -> u16 {
    (b[0] + 256 * b[1]) as u16
}

/// The `u32` whose least significant byte comes first in `b`.
pub open spec fn le32_value(b: Seq<u8>) -> u32 {
    (b[0] + 256 * b[1] + 65536 * b[2] + 16777216 * b[3]) as u32
}

/// Whether `bytes` starts with a byte that encodes a `bool`.
pub open spec fn holds_bool(bytes: Seq<u8>) -> bool {
    bytes.len() >= 1 && bytes[0] <= 1
}

/// `bincode::serialize` of a `bool`: one byte, 1 for true and 0 for false.
#[verifier::external_body]
fn bincode_serialize_bool(v: bool) -> (res: Result<Vec<u8>, BincodeError>)
    ensures
        res is Ok,
        res matches Ok(b) ==> b@ == seq![if v { 1u8 } else { 0u8 }],
{
    bincode::serialize(&v)
}

/// `bincode::serialize` of a `u8`: the byte itself.
#[verifier::external_body]
fn bincode_serialize_u8(v: u8) -> (res: Result<Vec<u8>, BincodeError>)
    ensures
        res is Ok,
        res matches Ok(b) ==> b@ == seq![v],
{
    bincode::serialize(&v)
}

/// `bincode::serialize` of a `u16`: two bytes, little endian.
#[verifier::external_body]
fn bincode_serialize_u16(v: u16) -> (res: Result<Vec<u8>, BincodeError>)
    ensures
        res is Ok,
        res matches Ok(b) ==> b@ == le16(v),
{
    bincode::serialize(&v)
}

/// `bincode::serialize` of a `u32`: four bytes, little endian.
#[verifier::external_body]
fn bincode_serialize_u32(v: u32) -> (res: Result<Vec<u8>, BincodeError>)
    ensures
        res is Ok,
        res matches Ok(b) ==> b@ == le32(v),
{
    bincode::serialize(&v)
}

/// `bincode::deserialize` of a `bool` from the front of `bytes`: needs a first
/// byte of 0 (false) or 1 (true); trailing bytes are allowed.
#[verifier::external_body]
fn bincode_deserialize_bool(bytes: &[u8]) -> (res: Result<bool, BincodeError>)
    ensures
        res is Ok <==> holds_bool(bytes@),
        res matches Ok(v) ==> v == (bytes@[0] == 1),
{
    bincode::deserialize(bytes)
}

/// `bincode::deserialize` of a `u8` from the front of `bytes`.
#[verifier::external_body]
fn bincode_deserialize_u8(bytes: &[u8]) -> (res: Result<u8, BincodeError>)
    ensures
        res is Ok <==> bytes@.len() >= 1,
        res matches Ok(v) ==> v == bytes@[0],
{
    bincode::deserialize(bytes)
}

/// `bincode::deserialize` of a `u16` from the front of `bytes`, little endian.
#[verifier::external_body]
fn bincode_deserialize_u16(bytes: &[u8]) -> (res: Result<u16, BincodeError>)
    ensures
        res is Ok <==> bytes@.len() >= 2,
        res matches Ok(v) ==> v == le16_value(bytes@),
{
    bincode::deserialize(bytes)
}

/// `bincode::deserialize` of a `u32` from the front of `bytes`, little endian.
#[verifier::external_body]
fn bincode_deserialize_u32(bytes: &[u8]) -> (res: Result<u32, BincodeError>)
    ensures
        res is Ok <==> bytes@.len() >= 4,
        res matches Ok(v) ==> v == le32_value(bytes@),
{
    bincode::deserialize(bytes)
}

/// Reports a `bincode` error as an I/O error.
#[verifier::external_body]
pub fn bincode_to_io_error(_err: BincodeError) -> std::io::Error {
    std::io::Error::new(std::io::ErrorKind::Other, "Failed to serialize command")
}

/// The wire bytes of a status: power, brightness, temperature, hue,
/// saturation, RGB.
pub open spec fn status_bytes(s: GvmNodeStatus) -> Seq<u8> {
    seq![if s.power_state.value { 1u8 } else { 0u8 }, s.brightness.value] + le16(s.temperature.value)
        + le16(s.hue.value) + seq![s.saturation.value, s.rgb.value]
}

/// The index of a variant of `LightCmd`.
pub open spec fn light_index(l: LightCmd) -> u32 {
    match l {
        LightCmd::On => 0,
        LightCmd::Off => 1,
    }
}

/// The index of a variant of `ModeCmd`.
pub open spec fn mode_index(m: ModeCmd) -> u32 {
    match m {
        ModeCmd::ColourTemp => 0,
        ModeCmd::HueSat => 1,
        ModeCmd::Scenes => 2,
    }
}

/// The index of a variant of `GvmNodeCommand`.
pub open spec fn command_index(c: GvmNodeCommand) -> u32 {
    match c {
        GvmNodeCommand::Light(_) => 0,
        GvmNodeCommand::Mode(_) => 1,
        GvmNodeCommand::Brightness(_) => 2,
        GvmNodeCommand::Temperature(_) => 3,
        GvmNodeCommand::Hue(_) => 4,
        GvmNodeCommand::Saturation(_) => 5,
        GvmNodeCommand::RGB(_) => 6,
        GvmNodeCommand::Scene(_) => 7,
    }
}

/// The wire bytes of a command: its variant index, then its field.
pub open spec fn command_bytes(c: GvmNodeCommand) -> Seq<u8> {
    le32(command_index(c)) + match c {
        GvmNodeCommand::Light(l) => le32(light_index(l)),
        GvmNodeCommand::Mode(m) => le32(mode_index(m)),
        GvmNodeCommand::Brightness(b) => seq![b],
        GvmNodeCommand::Temperature(t) => le16(t),
        GvmNodeCommand::Hue(h) => le16(h),
        GvmNodeCommand::Saturation(s) => seq![s],
        GvmNodeCommand::RGB(r) => seq![r],
        GvmNodeCommand::Scene(s) => le32(scene_index(s) as u32),
    }
}

/// The status at the front of `b`, if the bytes hold one.
pub open spec fn status_from_bytes(b: Seq<u8>) -> Option<GvmNodeStatus> {
    if b.len() >= 8 && b[0] <= 1 {
        Some(
            GvmNodeStatus {
                power_state: PowerState { value: b[0] == 1 },
                brightness: Brightness { value: b[1] },
                temperature: Temperature { value: le16_value(b.subrange(2, 4)) },
                hue: Hue { value: le16_value(b.subrange(4, 6)) },
                saturation: Saturation { value: b[6] },
                rgb: RGB { value: b[7] },
            },
        )
    } else {
        None
    }
}

/// The `LightCmd` with a given index.
pub open spec fn light_from_index(v: u32) -> Option<LightCmd> {
    if v == 0 {
        Some(LightCmd::On)
    } else if v == 1 {
        Some(LightCmd::Off)
    } else {
        None
    }
}

/// The `ModeCmd` with a given index.
pub open spec fn mode_from_index(v: u32) -> Option<ModeCmd> {
    if v == 0 {
        Some(ModeCmd::ColourTemp)
    } else if v == 1 {
        Some(ModeCmd::HueSat)
    } else if v == 2 {
        Some(ModeCmd::Scenes)
    } else {
        None
    }
}

/// The `SceneCmd` with a given index.
pub open spec fn scene_from_index(v: u32) -> Option<SceneCmd> {
    if v == 0 {
        Some(SceneCmd::Lightning)
    } else if v == 1 {
        Some(SceneCmd::CopCar)
    } else if v == 2 {
        Some(SceneCmd::Candle)
    } else if v == 3 {
        Some(SceneCmd::TV)
    } else if v == 4 {
        Some(SceneCmd::BadBulb)
    } else if v == 5 {
        Some(SceneCmd::Party)
    } else if v == 6 {
        Some(SceneCmd::Disco)
    } else if v == 7 {
        Some(SceneCmd::Paparazzi)
    } else {
        None
    }
}

/// The command at the front of `b` and how many bytes it takes, if the bytes
/// hold one.
pub open spec fn command_from_bytes(b: Seq<u8>) -> Option<(GvmNodeCommand, int)> {
    if b.len() < 4 {
        None
    } else {
        let tag = le32_value(b);
        let rest = b.subrange(4, b.len() as int);
        if tag == 0 || tag == 1 || tag == 7 {
            if rest.len() < 4 {
                None
            } else {
                let v = le32_value(rest);
                if tag == 0 {
                    match light_from_index(v) {
                        Some(l) => Some((GvmNodeCommand::Light(l), 8)),
                        None => None,
                    }
                } else if tag == 1 {
                    match mode_from_index(v) {
                        Some(m) => Some((GvmNodeCommand::Mode(m), 8)),
                        None => None,
                    }
                } else {
                    match scene_from_index(v) {
                        Some(s) => Some((GvmNodeCommand::Scene(s), 8)),
                        None => None,
                    }
                }
            }
        } else if tag == 3 || tag == 4 {
            if rest.len() < 2 {
                None
            } else if tag == 3 {
                Some((GvmNodeCommand::Temperature(le16_value(rest)), 6))
            } else {
                Some((GvmNodeCommand::Hue(le16_value(rest)), 6))
            }
        } else if tag == 2 || tag == 5 || tag == 6 {
            if rest.len() < 1 {
                None
            } else if tag == 2 {
                Some((GvmNodeCommand::Brightness(rest[0]), 5))
            } else if tag == 5 {
                Some((GvmNodeCommand::Saturation(rest[0]), 5))
            } else {
                Some((GvmNodeCommand::RGB(rest[0]), 5))
            }
        } else {
            None
        }
    }
}

/// Appends `extra` to `buf`.
fn append_bytes(buf: &mut Vec<u8>, extra: Vec<u8>)
    ensures
        final(buf)@ == old(buf)@ + extra@,
{
    let mut extra = extra;
    buf.append(&mut extra);
}

/// The wire bytes of a status.
pub fn status_to_wire(s: &GvmNodeStatus) -> (res: Result<Vec<u8>, BincodeError>)
    ensures
        res is Ok,
        res matches Ok(b) ==> b@ == status_bytes(*s),
{
    let mut buf: Vec<u8> = Vec::new();
    append_bytes(&mut buf, bincode_serialize_bool(s.power_state.value)?);
    append_bytes(&mut buf, bincode_serialize_u8(s.brightness.value)?);
    append_bytes(&mut buf, bincode_serialize_u16(s.temperature.value)?);
    append_bytes(&mut buf, bincode_serialize_u16(s.hue.value)?);
    append_bytes(&mut buf, bincode_serialize_u8(s.saturation.value)?);
    append_bytes(&mut buf, bincode_serialize_u8(s.rgb.value)?);
    assert(buf@ =~= status_bytes(*s));
    Ok(buf)
}

/// The wire bytes of a command.
pub fn command_to_wire(c: &GvmNodeCommand) -> (res: Result<Vec<u8>, BincodeError>)
    ensures
        res is Ok,
        res matches Ok(b) ==> b@ == command_bytes(*c),
{
    let (index, field): (u32, Vec<u8>) = match c {
        GvmNodeCommand::Light(l) => (0, bincode_serialize_u32(match l {
            LightCmd::On => 0,
            LightCmd::Off => 1,
        })?),
        GvmNodeCommand::Mode(m) => (1, bincode_serialize_u32(match m {
            ModeCmd::ColourTemp => 0,
            ModeCmd::HueSat => 1,
            ModeCmd::Scenes => 2,
        })?),
        GvmNodeCommand::Brightness(b) => (2, bincode_serialize_u8(*b)?),
        GvmNodeCommand::Temperature(t) => (3, bincode_serialize_u16(*t)?),
        GvmNodeCommand::Hue(h) => (4, bincode_serialize_u16(*h)?),
        GvmNodeCommand::Saturation(s) => (5, bincode_serialize_u8(*s)?),
        GvmNodeCommand::RGB(r) => (6, bincode_serialize_u8(*r)?),
        GvmNodeCommand::Scene(s) => (7, bincode_serialize_u32(match s {
            SceneCmd::Lightning => 0,
            SceneCmd::CopCar => 1,
            SceneCmd::Candle => 2,
            SceneCmd::TV => 3,
            SceneCmd::BadBulb => 4,
            SceneCmd::Party => 5,
            SceneCmd::Disco => 6,
            SceneCmd::Paparazzi => 7,
        })?),
    };
    let mut buf = bincode_serialize_u32(index)?;
    append_bytes(&mut buf, field);
    assert(buf@ =~= command_bytes(*c));
    Ok(buf)
}

/// Reads a status from the front of `b`: the status and the number of bytes
/// it takes, or `None` where the bytes hold none.
pub fn status_from_wire(b: &[u8]) -> (res: Option<(GvmNodeStatus, usize)>)
    ensures
        match status_from_bytes(b@) {
            Some(s) => res == Some((s, 8usize)),
            None => res is None,
        },
{
    let power = match bincode_deserialize_bool(b) {
        Ok(v) => v,
        Err(_) => return None,
    };
    if b.len() < 8 {
        return None;
    }
    let brightness = match bincode_deserialize_u8(slice_subrange(b, 1, b.len())) {
        Ok(v) => v,
        Err(_) => return None,
    };
    let temperature = match bincode_deserialize_u16(slice_subrange(b, 2, b.len())) {
        Ok(v) => v,
        Err(_) => return None,
    };
    let hue = match bincode_deserialize_u16(slice_subrange(b, 4, b.len())) {
        Ok(v) => v,
        Err(_) => return None,
    };
    let saturation = match bincode_deserialize_u8(slice_subrange(b, 6, b.len())) {
        Ok(v) => v,
        Err(_) => return None,
    };
    let rgb = match bincode_deserialize_u8(slice_subrange(b, 7, b.len())) {
        Ok(v) => v,
        Err(_) => return None,
    };
    let s = GvmNodeStatus {
        power_state: PowerState { value: power },
        brightness: Brightness { value: brightness },
        temperature: Temperature { value: temperature },
        hue: Hue { value: hue },
        saturation: Saturation { value: saturation },
        rgb: RGB { value: rgb },
    };
    proof {
        let t = b@.subrange(2, b@.len() as int);
        assert(t[0] == b@[2] && t[1] == b@[3]);
        let h = b@.subrange(4, b@.len() as int);
        assert(h[0] == b@[4] && h[1] == b@[5]);
        let st = status_from_bytes(b@).unwrap();
        assert(b@.subrange(2, 4)[0] == b@[2] && b@.subrange(2, 4)[1] == b@[3]);
        assert(b@.subrange(4, 6)[0] == b@[4] && b@.subrange(4, 6)[1] == b@[5]);
        assert(s == st);
    }
    Some((s, 8))
}

/// Reads a command from the front of `b`: the command and the number of bytes
/// it takes, or `None` where the bytes hold none.
pub fn command_from_wire(b: &[u8]) -> (res: Option<(GvmNodeCommand, usize)>)
    ensures
        match command_from_bytes(b@) {
            Some((c, n)) => res == Some((c, n as usize)),
            None => res is None,
        },
{
    let tag = match bincode_deserialize_u32(b) {
        Ok(v) => v,
        Err(_) => return None,
    };
    let rest = slice_subrange(b, 4, b.len());
    proof {
        assert(rest@ == b@.subrange(4, b@.len() as int));
    }
    if tag == 0 || tag == 1 || tag == 7 {
        let v = match bincode_deserialize_u32(rest) {
            Ok(v) => v,
            Err(_) => return None,
        };
        if tag == 0 {
            if v == 0 {
                Some((GvmNodeCommand::Light(LightCmd::On), 8))
            } else if v == 1 {
                Some((GvmNodeCommand::Light(LightCmd::Off), 8))
            } else {
                None
            }
        } else if tag == 1 {
            if v == 0 {
                Some((GvmNodeCommand::Mode(ModeCmd::ColourTemp), 8))
            } else if v == 1 {
                Some((GvmNodeCommand::Mode(ModeCmd::HueSat), 8))
            } else if v == 2 {
                Some((GvmNodeCommand::Mode(ModeCmd::Scenes), 8))
            } else {
                None
            }
        } else {
            if v == 0 {
                Some((GvmNodeCommand::Scene(SceneCmd::Lightning), 8))
            } else if v == 1 {
                Some((GvmNodeCommand::Scene(SceneCmd::CopCar), 8))
            } else if v == 2 {
                Some((GvmNodeCommand::Scene(SceneCmd::Candle), 8))
            } else if v == 3 {
                Some((GvmNodeCommand::Scene(SceneCmd::TV), 8))
            } else if v == 4 {
                Some((GvmNodeCommand::Scene(SceneCmd::BadBulb), 8))
            } else if v == 5 {
                Some((GvmNodeCommand::Scene(SceneCmd::Party), 8))
            } else if v == 6 {
                Some((GvmNodeCommand::Scene(SceneCmd::Disco), 8))
            } else if v == 7 {
                Some((GvmNodeCommand::Scene(SceneCmd::Paparazzi), 8))
            } else {
                None
            }
        }
    } else if tag == 3 || tag == 4 {
        let v = match bincode_deserialize_u16(rest) {
            Ok(v) => v,
            Err(_) => return None,
        };
        if tag == 3 {
            Some((GvmNodeCommand::Temperature(v), 6))
        } else {
            Some((GvmNodeCommand::Hue(v), 6))
        }
    } else if tag == 2 || tag == 5 || tag == 6 {
        let v = match bincode_deserialize_u8(rest) {
            Ok(v) => v,
            Err(_) => return None,
        };
        if tag == 2 {
            Some((GvmNodeCommand::Brightness(v), 5))
        } else if tag == 5 {
            Some((GvmNodeCommand::Saturation(v), 5))
        } else {
            Some((GvmNodeCommand::RGB(v), 5))
        }
    } else {
        None
    }
}

/// Reading back the little-endian bytes of a `u16` gives the `u16`.
pub proof fn lemma_le16_roundtrip(v: u16, rest: Seq<u8>)
    ensures
        le16_value(le16(v) + rest) == v,
{
    assert((le16(v) + rest)[0] == (v % 256) as u8);
    assert((le16(v) + rest)[1] == (v / 256) as u8);
}

/// Reading back the little-endian bytes of a `u32` gives the `u32`.
pub proof fn lemma_le32_roundtrip(v: u32, rest: Seq<u8>)
    ensures
        le32_value(le32(v) + rest) == v,
{
    let b = le32(v) + rest;
    assert(b[0] == (v % 256) as u8);
    assert(b[1] == ((v / 256) % 256) as u8);
    assert(b[2] == ((v / 65536) % 256) as u8);
    assert(b[3] == (v / 16777216) as u8);
}

/// A status read back from its wire bytes, whatever follows them, is the
/// status that was written.
pub proof fn lemma_status_roundtrip(s: GvmNodeStatus, rest: Seq<u8>)
    ensures
        status_bytes(s).len() == 8,
        status_from_bytes(status_bytes(s) + rest) == Some(s),
{
    let b = status_bytes(s) + rest;
    lemma_le16_roundtrip(s.temperature.value, b.subrange(4, b.len() as int));
    lemma_le16_roundtrip(s.hue.value, b.subrange(6, b.len() as int));
    assert(b.subrange(2, 4) =~= le16(s.temperature.value) + b.subrange(4, b.len() as int).subrange(0, 0));
    assert(b.subrange(2, 4) =~= le16(s.temperature.value));
    assert(b.subrange(4, 6) =~= le16(s.hue.value));
    assert(le16_value(le16(s.temperature.value)) == s.temperature.value) by {
        lemma_le16_roundtrip(s.temperature.value, Seq::empty());
        assert(le16(s.temperature.value) + Seq::<u8>::empty() =~= le16(s.temperature.value));
    }
    assert(le16_value(le16(s.hue.value)) == s.hue.value) by {
        lemma_le16_roundtrip(s.hue.value, Seq::empty());
        assert(le16(s.hue.value) + Seq::<u8>::empty() =~= le16(s.hue.value));
    }
}

/// A command read back from its wire bytes, whatever follows them, is the
/// command that was written, and it takes exactly those bytes.
pub proof fn lemma_command_roundtrip(c: GvmNodeCommand, rest: Seq<u8>)
    ensures
        command_from_bytes(command_bytes(c) + rest) == Some((c, command_bytes(c).len() as int)),
{
    let b = command_bytes(c) + rest;
    let tail = b.subrange(4, b.len() as int);
    lemma_le32_roundtrip(command_index(c), b.subrange(4, b.len() as int));
    assert(b =~= le32(command_index(c)) + tail);
    match c {
        GvmNodeCommand::Light(l) => {
            assert(tail =~= le32(light_index(l)) + rest);
            lemma_le32_roundtrip(light_index(l), rest);
        },
        GvmNodeCommand::Mode(m) => {
            assert(tail =~= le32(mode_index(m)) + rest);
            lemma_le32_roundtrip(mode_index(m), rest);
        },
        GvmNodeCommand::Scene(sc) => {
            assert(tail =~= le32(scene_index(sc) as u32) + rest);
            lemma_le32_roundtrip(scene_index(sc) as u32, rest);
        },
        GvmNodeCommand::Temperature(t) => {
            assert(tail =~= le16(t) + rest);
            lemma_le16_roundtrip(t, rest);
        },
        GvmNodeCommand::Hue(h) => {
            assert(tail =~= le16(h) + rest);
            lemma_le16_roundtrip(h, rest);
        },
        _ => {
            assert(tail[0] == b[4]);
        },
    }
}

/// Writing back a `u16` read from two bytes gives those bytes.
pub proof fn lemma_le16_of_value(b: Seq<u8>)
    requires
        b.len() >= 2,
    ensures
        le16(le16_value(b)) == b.subrange(0, 2),
{
    let v = le16_value(b);
    let b0 = b[0] as int;
    let b1 = b[1] as int;
    assert(v == b0 + 256 * b1);
    assert((b0 + 256 * b1) % 256 == b0 && (b0 + 256 * b1) / 256 == b1) by (nonlinear_arith)
        requires
            0 <= b0 < 256,
            0 <= b1 < 256,
    ;
    assert(le16(v) =~= b.subrange(0, 2));
}

/// Writing back a `u32` read from four bytes gives those bytes.
pub proof fn lemma_le32_of_value(b: Seq<u8>)
    requires
        b.len() >= 4,
    ensures
        le32(le32_value(b)) == b.subrange(0, 4),
{
    let v = le32_value(b);
    let b0 = b[0] as int;
    let b1 = b[1] as int;
    let b2 = b[2] as int;
    let b3 = b[3] as int;
    let x = b0 + 256 * b1 + 65536 * b2 + 16777216 * b3;
    assert(0 <= x < 0x1_0000_0000) by (nonlinear_arith)
        requires
            0 <= b0 < 256,
            0 <= b1 < 256,
            0 <= b2 < 256,
            0 <= b3 < 256,
            x == b0 + 256 * b1 + 65536 * b2 + 16777216 * b3,
    ;
    assert(v == x);
    assert(x % 256 == b0 && (x / 256) % 256 == b1 && (x / 65536) % 256 == b2 && x / 16777216 == b3)
        by (nonlinear_arith)
        requires
            0 <= b0 < 256,
            0 <= b1 < 256,
            0 <= b2 < 256,
            0 <= b3 < 256,
            x == b0 + 256 * b1 + 65536 * b2 + 16777216 * b3,
    ;
    assert(le32(v) =~= b.subrange(0, 4));
}

/// A status read from bytes is written back as the same bytes.
pub proof fn lemma_status_of_bytes(b: Seq<u8>)
    requires
        status_from_bytes(b) is Some,
    ensures
        status_bytes(status_from_bytes(b).unwrap()) == b.subrange(0, 8),
{
    lemma_le16_of_value(b.subrange(2, 4));
    lemma_le16_of_value(b.subrange(4, 6));
    assert(b.subrange(2, 4).subrange(0, 2) =~= b.subrange(2, 4));
    assert(b.subrange(4, 6).subrange(0, 2) =~= b.subrange(4, 6));
    assert(status_bytes(status_from_bytes(b).unwrap()) =~= b.subrange(0, 8));
}

/// A command read from bytes is written back as the bytes it was read from.
pub proof fn lemma_command_of_bytes(b: Seq<u8>)
    requires
        command_from_bytes(b) is Some,
    ensures
        command_from_bytes(b).unwrap().1 <= b.len(),
        command_bytes(command_from_bytes(b).unwrap().0) == b.subrange(0, command_from_bytes(b).unwrap().1),
{
    let (c, n) = command_from_bytes(b).unwrap();
    let rest = b.subrange(4, b.len() as int);
    lemma_le32_of_value(b);
    assert(le32_value(b) == command_index(c));
    if n == 8 {
        lemma_le32_of_value(rest);
        assert(rest.subrange(0, 4) =~= b.subrange(4, 8));
        match c {
            GvmNodeCommand::Light(l) => assert(light_index(l) == le32_value(rest)),
            GvmNodeCommand::Mode(m) => assert(mode_index(m) == le32_value(rest)),
            GvmNodeCommand::Scene(sc) => assert(scene_index(sc) as u32 == le32_value(rest)),
            _ => {},
        }
    } else if n == 6 {
        lemma_le16_of_value(rest);
        assert(rest.subrange(0, 2) =~= b.subrange(4, 6));
    }
    assert(command_bytes(c) =~= b.subrange(0, n));
}

/// How `bincode` lays out a command: the position of its variant in
/// `GvmNodeCommand` as declared (Light 0, Mode 1, Brightness 2,
/// Temperature 3, Hue 4, Saturation 5, RGB 6, Scene 7) as a little-endian
/// `u32`, then its field: a `u8` as itself, a `u16` in two little-endian
/// bytes, and a field enum as the little-endian `u32` of its own variant's
/// position. Reading those bytes, whatever follows them, gives the command
/// back.
pub proof fn lemma_command_wire_layout(c: GvmNodeCommand, rest: Seq<u8>)
    ensures
        c matches GvmNodeCommand::Light(l) ==> command_bytes(c) == seq![0u8, 0u8, 0u8, 0u8,
            if l is On { 0u8 } else { 1u8 }, 0u8, 0u8, 0u8],
        c matches GvmNodeCommand::Mode(m) ==> command_bytes(c) == seq![1u8, 0u8, 0u8, 0u8,
            if m is ColourTemp { 0u8 } else if m is HueSat { 1u8 } else { 2u8 }, 0u8, 0u8, 0u8],
        c matches GvmNodeCommand::Brightness(b) ==> command_bytes(c) == seq![2u8, 0u8, 0u8, 0u8, b],
        c matches GvmNodeCommand::Temperature(t) ==> command_bytes(c) == seq![3u8, 0u8, 0u8, 0u8,
            (t % 256) as u8, (t / 256) as u8],
        c matches GvmNodeCommand::Hue(h) ==> command_bytes(c) == seq![4u8, 0u8, 0u8, 0u8,
            (h % 256) as u8, (h / 256) as u8],
        c matches GvmNodeCommand::Saturation(s) ==> command_bytes(c) == seq![5u8, 0u8, 0u8, 0u8, s],
        c matches GvmNodeCommand::RGB(r) ==> command_bytes(c) == seq![6u8, 0u8, 0u8, 0u8, r],
        c matches GvmNodeCommand::Scene(s) ==> command_bytes(c) == seq![7u8, 0u8, 0u8, 0u8,
            scene_index(s), 0u8, 0u8, 0u8],
        command_from_bytes(command_bytes(c) + rest) == Some((c, command_bytes(c).len() as int)),
{
    lemma_command_roundtrip(c, rest);
    match c {
        GvmNodeCommand::Light(l) => assert(command_bytes(c) =~= seq![0u8, 0u8, 0u8, 0u8,
            if l is On { 0u8 } else { 1u8 }, 0u8, 0u8, 0u8]),
        GvmNodeCommand::Mode(m) => assert(command_bytes(c) =~= seq![1u8, 0u8, 0u8, 0u8,
            if m is ColourTemp { 0u8 } else if m is HueSat { 1u8 } else { 2u8 }, 0u8, 0u8, 0u8]),
        GvmNodeCommand::Brightness(b) => assert(command_bytes(c) =~= seq![2u8, 0u8, 0u8, 0u8, b]),
        GvmNodeCommand::Temperature(t) => assert(command_bytes(c) =~= seq![3u8, 0u8, 0u8, 0u8,
            (t % 256) as u8, (t / 256) as u8]),
        GvmNodeCommand::Hue(h) => assert(command_bytes(c) =~= seq![4u8, 0u8, 0u8, 0u8,
            (h % 256) as u8, (h / 256) as u8]),
        GvmNodeCommand::Saturation(s) => assert(command_bytes(c) =~= seq![5u8, 0u8, 0u8, 0u8, s]),
        GvmNodeCommand::RGB(r) => assert(command_bytes(c) =~= seq![6u8, 0u8, 0u8, 0u8, r]),
        GvmNodeCommand::Scene(s) => assert(command_bytes(c) =~= seq![7u8, 0u8, 0u8, 0u8,
            scene_index(s), 0u8, 0u8, 0u8]),
    }
}

} // verus!
