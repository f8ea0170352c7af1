//! The command-line client: which command its arguments ask for, and which
//! lights it talks to.
use vstd::prelude::*;
use crate::node_command::{GvmNodeCommand, LightCmd, ModeCmd, SceneCmd, scene_index};
use crate::text::str_equal;

verus! {

/// The command options given on the command line, each if present.
pub struct CommandArgs {
    /// `on` or `off`.
    pub light: Option<String>,
    /// `CT`, `HS` or `Sc`.
    pub mode: Option<String>,
    pub brightness: Option<u8>,
    pub temperature: Option<u16>,
    pub hue: Option<u16>,
    pub saturation: Option<u8>,
    /// The scene's number in the GVM app's list, from 0.
    pub scene: Option<u8>,
    pub rgb: Option<u8>,
}

/// The scene with the given number in the GVM app's list, from 0.
pub open spec fn scene_of(n: u8) -> Option<SceneCmd> {
    if n == 0 {
        Some(SceneCmd::Lightning)
    } else if n == 1 {
        Some(SceneCmd::CopCar)
    } else if n == 2 {
        Some(SceneCmd::Candle)
    } else if n == 3 {
        Some(SceneCmd::TV)
    } else if n == 4 {
        Some(SceneCmd::BadBulb)
    } else if n == 5 {
        Some(SceneCmd::Party)
    } else if n == 6 {
        Some(SceneCmd::Disco)
    } else if n == 7 {
        Some(SceneCmd::Paparazzi)
    } else {
        None
    }
}

/// Whether the option that decides the command holds a value the client
/// knows. Options are looked at in this order: light, mode, brightness,
/// temperature, hue, saturation, scene, rgb; the first one present decides.
pub open spec fn args_valid(a: CommandArgs) -> bool {
    match a.light {
        Some(s) => s@ == "on"@ || s@ == "off"@,
        None => match a.mode {
            Some(s) => s@ == "CT"@ || s@ == "HS"@ || s@ == "Sc"@,
            None => {
                a.brightness is None && a.temperature is None && a.hue is None
                    && a.saturation is None ==> (a.scene matches Some(n) ==> n < 8)
            },
        },
    }
}

/// The command the arguments ask for, if any.
pub open spec fn chosen_command(a: CommandArgs) -> Option<GvmNodeCommand> {
    if a.light is Some {
        Some(
            GvmNodeCommand::Light(
                if a.light.unwrap()@ == "on"@ {
                    LightCmd::On
                } else {
                    LightCmd::Off
                },
            ),
        )
    } else if a.mode is Some {
        let m = a.mode.unwrap()@;
        Some(
            GvmNodeCommand::Mode(
                if m == "CT"@ {
                    ModeCmd::ColourTemp
                } else if m == "HS"@ {
                    ModeCmd::HueSat
                } else {
                    ModeCmd::Scenes
                },
            ),
        )
    } else if a.brightness is Some {
        Some(GvmNodeCommand::Brightness(a.brightness.unwrap()))
    } else if a.temperature is Some {
        Some(GvmNodeCommand::Temperature(a.temperature.unwrap()))
    } else if a.hue is Some {
        Some(GvmNodeCommand::Hue(a.hue.unwrap()))
    } else if a.saturation is Some {
        Some(GvmNodeCommand::Saturation(a.saturation.unwrap()))
    } else if a.scene is Some {
        Some(GvmNodeCommand::Scene(scene_of(a.scene.unwrap()).unwrap()))
    } else if a.rgb is Some {
        Some(GvmNodeCommand::RGB(a.rgb.unwrap()))
    } else {
        None
    }
}

/// The scene with the given number.
fn scene_from_number(n: u8) -> (res: SceneCmd)
    requires
        n < 8,
    ensures
        scene_of(n) == Some(res),
{
    if n == 0 {
        SceneCmd::Lightning
    } else if n == 1 {
        SceneCmd::CopCar
    } else if n == 2 {
        SceneCmd::Candle
    } else if n == 3 {
        SceneCmd::TV
    } else if n == 4 {
        SceneCmd::BadBulb
    } else if n == 5 {
        SceneCmd::Party
    } else if n == 6 {
        SceneCmd::Disco
    } else {
        SceneCmd::Paparazzi
    }
}

/// The command that the command-line options ask for; `None` when no
/// command option is given.
pub fn find_command(matches: &CommandArgs) -> (res: Option<GvmNodeCommand>)
    requires
        args_valid(*matches),
    ensures
        res == chosen_command(*matches),
{
    if let Some(s) = &matches.light {
        if str_equal(s.as_str(), "on") {
            Some(GvmNodeCommand::Light(LightCmd::On))
        } else {
            Some(GvmNodeCommand::Light(LightCmd::Off))
        }
    } else if let Some(s) = &matches.mode {
        if str_equal(s.as_str(), "CT") {
            Some(GvmNodeCommand::Mode(ModeCmd::ColourTemp))
        } else if str_equal(s.as_str(), "HS") {
            Some(GvmNodeCommand::Mode(ModeCmd::HueSat))
        } else {
            Some(GvmNodeCommand::Mode(ModeCmd::Scenes))
        }
    } else if let Some(br) = matches.brightness {
        Some(GvmNodeCommand::Brightness(br))
    } else if let Some(t) = matches.temperature {
        Some(GvmNodeCommand::Temperature(t))
    } else if let Some(h) = matches.hue {
        Some(GvmNodeCommand::Hue(h))
    } else if let Some(sat) = matches.saturation {
        Some(GvmNodeCommand::Saturation(sat))
    } else if let Some(sc) = matches.scene {
        Some(GvmNodeCommand::Scene(scene_from_number(sc)))
    } else if let Some(r) = matches.rgb {
        Some(GvmNodeCommand::RGB(r))
    } else {
        None
    }
}

/// The client id that stands for every light of the server.
pub const ALL_CLIENTS: u8 = 255;

/// The ids of the lights the client talks to: the one it was asked for, or,
/// for `ALL_CLIENTS`, each light the server reported, from 1 to `count`.
/// Where the server's answer was not a count, there are none.
pub open spec fn target_uids(uid: u8, count: Option<u8>) -> Seq<u8> {
    if uid == ALL_CLIENTS {
        match count {
            Some(n) => Seq::new(n as nat, |i: int| (i + 1) as u8),
            None => Seq::empty(),
        }
    } else {
        seq![uid]
    }
}

/// The ids of the lights to talk to, given the id asked for and, where it
/// was `ALL_CLIENTS`, the node count that the server answered with.
pub fn client_uids(uid: u8, count: Option<u8>) -> (res: Vec<u8>)
    ensures
        res@ == target_uids(uid, count),
{
    let mut uids: Vec<u8> = Vec::new();
    if uid == ALL_CLIENTS {
        if let Some(n) = count {
            let mut i: u8 = 0;
            while i < n
                invariant
                    i <= n,
                    uids@ =~= Seq::new(i as nat, |k: int| (k + 1) as u8),
                decreases n - i,
            {
                uids.push(i + 1);
                i += 1;
            }
        }
    } else {
        uids.push(uid);
    }
    assert(uids@ =~= target_uids(uid, count));
    uids
}

/// The command an option asks for, when that option decides: `on` and
/// `off` switch the light, `CT`, `HS` and `Sc` pick the colour mode, the
/// numeric options carry their value unchanged, and a scene number `n`
/// names the scene at position `n` of the GVM app's list.
pub proof fn lemma_chosen_command_meaning(a: CommandArgs)
    requires
        args_valid(a),
    ensures
        a.light matches Some(s) ==> chosen_command(a) == Some(GvmNodeCommand::Light(
            if s@ == "on"@ { LightCmd::On } else { LightCmd::Off },
        )),
        a.light is None && a.mode is None && a.brightness is None && a.temperature is None && a.hue is None
            && a.saturation is None ==> (a.scene matches Some(n) ==> (chosen_command(a) matches Some(
            GvmNodeCommand::Scene(s)) && scene_index(s) == n)),
        a.light is None && a.mode is None ==> (a.brightness matches Some(b) ==> chosen_command(a)
            == Some(GvmNodeCommand::Brightness(b))),
        a.light is None && a.mode is None && a.brightness is None ==> (a.temperature matches Some(t)
            ==> chosen_command(a) == Some(GvmNodeCommand::Temperature(t))),
        a.light is None && a.mode is None && a.brightness is None && a.temperature is None
            ==> (a.hue matches Some(h) ==> chosen_command(a) == Some(GvmNodeCommand::Hue(h))),
        a.light is None && a.mode is None && a.brightness is None && a.temperature is None && a.hue is None
            ==> (a.saturation matches Some(x) ==> chosen_command(a) == Some(GvmNodeCommand::Saturation(x))),
        a.light is None && a.mode is None && a.brightness is None && a.temperature is None && a.hue is None
            && a.saturation is None && a.scene is None ==> (a.rgb matches Some(x) ==> chosen_command(a)
            == Some(GvmNodeCommand::RGB(x))),
        a.light is None && a.mode is None && a.brightness is None && a.temperature is None && a.hue is None
            && a.saturation is None && a.scene is None && a.rgb is None ==> chosen_command(a) is None,
{
}

} // verus!
