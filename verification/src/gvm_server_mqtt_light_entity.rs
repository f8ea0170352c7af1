//! The Home Assistant side of a light: its JSON schema vocabulary, its topics
//! and the commands that a state request asks for.
use vstd::prelude::*;
use crate::node_command::{GvmNodeCommand, LightCmd, ModeCmd, SceneCmd};

verus! {

/// `rumqttc::AsyncClient`, the handle used to talk to the MQTT broker.
#[verifier::external_type_specification]
#[verifier::external_body]
pub struct ExAsyncClient(rumqttc::AsyncClient);

/// A light's connection to the broker and the id of the server in Home
/// Assistant.
pub struct MqttLight {
    pub broker: Option<rumqttc::AsyncClient>,
    pub node_id: Option<String>,
}

impl MqttLight {
    /// A light not yet connected to a broker.
    pub fn new(node_id: Option<String>) -> (res: Self)
        ensures
            res.broker is None,
            res.node_id == node_id,
    {
        Self { broker: None, node_id }
    }
}

/// Home Assistant's colour modes.
#[allow(non_camel_case_types)]
#[derive(PartialEq, Eq, Structural, Clone, Copy, Debug)]
pub enum ColorMode {
    onoff,
    brightness,
    color_temp,
    hs,
    xy,
    rgb,
    rgbw,
    rgbww,
    white,
}

/// Power state in Home Assistant's JSON schema.
#[derive(PartialEq, Eq, Structural, Clone, Copy, Debug)]
pub enum State {
    ON,
    OFF,
}

/// The effects offered to Home Assistant, one per scene of the light.
#[allow(non_camel_case_types)]
#[derive(PartialEq, Eq, Structural, Clone, Copy, Debug)]
pub enum Effect {
    flicker_lightning,
    police_strobe,
    flicker_warm,
    flicker_cool,
    flicker_loose_bulb,
    cycle_colors,
    disco,
    flicker_photoshoot,
}

/// Kinds of topics of a light.
#[allow(non_camel_case_types)]
#[derive(PartialEq, Eq, Structural, Clone, Copy, Debug)]
pub enum GvmHassTopic {
    brightness,
    color_mode,
    color_temp,
    color,
    effect,
    state,
    transition,
    availability,
    node_state,
}

/// The last part of the topic of each kind; `transition` has none.
pub open spec fn topic_name(t: GvmHassTopic) -> Seq<char> {
    match t {
        GvmHassTopic::brightness => "brightness"@,
        GvmHassTopic::color_mode => "color_mode"@,
        GvmHassTopic::color_temp => "color_temp"@,
        GvmHassTopic::effect => "effect"@,
        GvmHassTopic::color => "color"@,
        GvmHassTopic::state => "power"@,
        GvmHassTopic::availability => "availability"@,
        GvmHassTopic::node_state => "state"@,
        GvmHassTopic::transition => Seq::empty(),
    }
}

impl GvmHassTopic {
    /// The last part of the topic of this kind.
    pub fn topic(&self) -> (res: String)
        requires
            !(*self is transition),
        ensures
            res@ == topic_name(*self),
    {
        match self {
            GvmHassTopic::brightness => String::from_str("brightness"),
            GvmHassTopic::color_mode => String::from_str("color_mode"),
            GvmHassTopic::color_temp => String::from_str("color_temp"),
            GvmHassTopic::effect => String::from_str("effect"),
            GvmHassTopic::color => String::from_str("color"),
            GvmHassTopic::state => String::from_str("power"),
            GvmHassTopic::availability => String::from_str("availability"),
            GvmHassTopic::node_state => String::from_str("state"),
            GvmHassTopic::transition => String::new(),
        }
    }
}

impl From<bool> for State {
    fn from(value: bool) -> (res: State) {
        if value {
            State::ON
        } else {
            State::OFF
        }
    }
}

impl vstd::std_specs::convert::FromSpecImpl<bool> for State {
    open spec fn obeys_from_spec() -> bool {
        true
    }

    open spec fn from_spec(value: bool) -> State {
        if value {
            State::ON
        } else {
            State::OFF
        }
    }
}

impl From<State> for LightCmd {
    fn from(value: State) -> (res: LightCmd) {
        match value {
            State::ON => LightCmd::On,
            State::OFF => LightCmd::Off,
        }
    }
}

impl vstd::std_specs::convert::FromSpecImpl<State> for LightCmd {
    open spec fn obeys_from_spec() -> bool {
        true
    }

    open spec fn from_spec(value: State) -> LightCmd {
        match value {
            State::ON => LightCmd::On,
            State::OFF => LightCmd::Off,
        }
    }
}

/// The scene each effect stands for.
pub open spec fn effect_scene(value: Effect) -> SceneCmd {
    match value {
        Effect::flicker_lightning => SceneCmd::Lightning,
        Effect::police_strobe => SceneCmd::CopCar,
        Effect::flicker_warm => SceneCmd::Candle,
        Effect::flicker_cool => SceneCmd::TV,
        Effect::flicker_loose_bulb => SceneCmd::BadBulb,
        Effect::cycle_colors => SceneCmd::Party,
        Effect::disco => SceneCmd::Disco,
        Effect::flicker_photoshoot => SceneCmd::Paparazzi,
    }
}

impl From<Effect> for SceneCmd {
    fn from(value: Effect) -> (res: SceneCmd) {
        match value {
            Effect::flicker_lightning => SceneCmd::Lightning,
            Effect::police_strobe => SceneCmd::CopCar,
            Effect::flicker_warm => SceneCmd::Candle,
            Effect::flicker_cool => SceneCmd::TV,
            Effect::flicker_loose_bulb => SceneCmd::BadBulb,
            Effect::cycle_colors => SceneCmd::Party,
            Effect::disco => SceneCmd::Disco,
            Effect::flicker_photoshoot => SceneCmd::Paparazzi,
        }
    }
}

impl vstd::std_specs::convert::FromSpecImpl<Effect> for SceneCmd {
    open spec fn obeys_from_spec() -> bool {
        true
    }

    open spec fn from_spec(value: Effect) -> SceneCmd {
        effect_scene(value)
    }
}

/// Hue (degrees) and saturation (percent) as whole numbers.
#[derive(PartialEq, Eq, Structural, Clone, Copy, Debug)]
pub struct HsValue {
    pub h: u16,
    pub s: u8,
}

/// What a state payload from Home Assistant asks of a light, with the
/// temperature already in Kelvin and the hue and saturation already whole
/// numbers.
#[derive(PartialEq, Eq, Structural, Clone, Copy, Debug)]
pub struct StateRequest {
    pub brightness: Option<u8>,
    pub color_mode: Option<ColorMode>,
    pub temperature: Option<u16>,
    pub hue_saturation: Option<HsValue>,
    pub effect: Option<Effect>,
    pub state: Option<State>,
}

/// Whether the light can take a request: the only colour modes it has are
/// `hs` and `color_temp`.
pub open spec fn request_supported(r: StateRequest) -> bool {
    r.color_mode matches Some(m) ==> (m is hs || m is color_temp)
}

/// The command of a colour mode the light has.
pub open spec fn mode_command(m: ColorMode) -> GvmNodeCommand {
    if m is hs {
        GvmNodeCommand::Mode(ModeCmd::HueSat)
    } else {
        GvmNodeCommand::Mode(ModeCmd::ColourTemp)
    }
}

/// A command if it is there, as a sequence of none or one.
pub open spec fn optional(c: Option<GvmNodeCommand>) -> Seq<GvmNodeCommand> {
    match c {
        Some(c) => seq![c],
        None => Seq::empty(),
    }
}

/// The brightness command a request asks for, if any.
pub open spec fn brightness_part(r: StateRequest) -> Option<GvmNodeCommand> {
    match r.brightness {
        Some(b) => Some(GvmNodeCommand::Brightness(b)),
        None => None,
    }
}

/// The colour mode command a request asks for, if any.
pub open spec fn mode_part(r: StateRequest) -> Option<GvmNodeCommand> {
    match r.color_mode {
        Some(m) => Some(mode_command(m)),
        None => None,
    }
}

/// The temperature command a request asks for, if any.
pub open spec fn temperature_part(r: StateRequest) -> Option<GvmNodeCommand> {
    match r.temperature {
        Some(t) => Some(GvmNodeCommand::Temperature(t)),
        None => None,
    }
}

/// The hue and saturation commands a request asks for.
pub open spec fn hs_part(r: StateRequest) -> Seq<GvmNodeCommand> {
    match r.hue_saturation {
        Some(hs) => seq![GvmNodeCommand::Hue(hs.h), GvmNodeCommand::Saturation(hs.s)],
        None => Seq::empty(),
    }
}

/// The scene command a request asks for, if any.
pub open spec fn effect_part(r: StateRequest) -> Option<GvmNodeCommand> {
    match r.effect {
        Some(e) => Some(GvmNodeCommand::Scene(effect_scene(e))),
        None => None,
    }
}

/// The power command a request asks for, if any.
pub open spec fn state_part(r: StateRequest) -> Option<GvmNodeCommand> {
    match r.state {
        Some(State::ON) => Some(GvmNodeCommand::Light(LightCmd::On)),
        Some(State::OFF) => Some(GvmNodeCommand::Light(LightCmd::Off)),
        None => None,
    }
}

/// The commands a request asks for, in the order they are sent: brightness,
/// colour mode, temperature, hue and saturation, scene, power.
pub open spec fn request_commands(r: StateRequest) -> Seq<GvmNodeCommand> {
    optional(brightness_part(r)) + optional(mode_part(r)) + optional(temperature_part(r)) + hs_part(r)
        + optional(effect_part(r)) + optional(state_part(r))
}

/// Pushes a command if it is there.
fn push_optional(commands: &mut Vec<GvmNodeCommand>, c: Option<GvmNodeCommand>)
    ensures
        final(commands)@ == old(commands)@ + optional(c),
{
    if let Some(c) = c {
        commands.push(c);
    }
    assert(commands@ =~= old(commands)@ + optional(c));
}

/// The commands that carry out a state request, in the order they are sent.
pub fn request_to_commands(r: &StateRequest) -> (res: Vec<GvmNodeCommand>)
    requires
        request_supported(*r),
    ensures
        res@ == request_commands(*r),
{
    let mut commands: Vec<GvmNodeCommand> = Vec::new();
    let b = match r.brightness {
        Some(v) => Some(GvmNodeCommand::Brightness(v)),
        None => None,
    };
    assert(b == brightness_part(*r));
    push_optional(&mut commands, b);
    let m = match r.color_mode {
        Some(v) => Some(match v {
            ColorMode::hs => GvmNodeCommand::Mode(ModeCmd::HueSat),
            _ => GvmNodeCommand::Mode(ModeCmd::ColourTemp),
        }),
        None => None,
    };
    assert(m == mode_part(*r));
    push_optional(&mut commands, m);
    let t = match r.temperature {
        Some(v) => Some(GvmNodeCommand::Temperature(v)),
        None => None,
    };
    assert(t == temperature_part(*r));
    push_optional(&mut commands, t);
    let ghost before_hs = commands@;
    if let Some(hs) = r.hue_saturation {
        commands.push(GvmNodeCommand::Hue(hs.h));
        commands.push(GvmNodeCommand::Saturation(hs.s));
    }
    assert(commands@ =~= before_hs + hs_part(*r));
    let e = match r.effect {
        Some(v) => Some(GvmNodeCommand::Scene(SceneCmd::from(v))),
        None => None,
    };
    assert(e == effect_part(*r));
    push_optional(&mut commands, e);
    let p = match r.state {
        Some(v) => Some(GvmNodeCommand::Light(LightCmd::from(v))),
        None => None,
    };
    assert(p == state_part(*r));
    push_optional(&mut commands, p);
    commands
}

/// Each effect stands for the scene of the GVM app that it is named after:
/// lightning, police strobe (cop car), warm flicker (candle), cool flicker
/// (TV), loose bulb, colour cycle (party), disco, photo shoot (paparazzi).
pub proof fn lemma_effect_scenes()
    ensures
        effect_scene(Effect::flicker_lightning) == SceneCmd::Lightning,
        effect_scene(Effect::police_strobe) == SceneCmd::CopCar,
        effect_scene(Effect::flicker_warm) == SceneCmd::Candle,
        effect_scene(Effect::flicker_cool) == SceneCmd::TV,
        effect_scene(Effect::flicker_loose_bulb) == SceneCmd::BadBulb,
        effect_scene(Effect::cycle_colors) == SceneCmd::Party,
        effect_scene(Effect::disco) == SceneCmd::Disco,
        effect_scene(Effect::flicker_photoshoot) == SceneCmd::Paparazzi,
{
}

/// A request asks for a scene exactly when it names an effect, and then for
/// the scene that the effect converts to; its last command is the power
/// command where it names a state.
pub proof fn lemma_request_scene(r: StateRequest)
    ensures
        r.effect matches Some(e) ==> request_commands(r).contains(GvmNodeCommand::Scene(effect_scene(e))),
        r.effect matches Some(e) ==> forall|i: int| 0 <= i < request_commands(r).len()
            && (#[trigger] request_commands(r)[i]) is Scene ==> request_commands(r)[i]
            == GvmNodeCommand::Scene(effect_scene(e)),
        r.effect is None ==> forall|i: int| 0 <= i < request_commands(r).len() ==> !(
            #[trigger] request_commands(r)[i] is Scene),
        r.state matches Some(st) ==> request_commands(r).last() == GvmNodeCommand::Light(
            if st is ON { LightCmd::On } else { LightCmd::Off },
        ),
{
    let head = optional(brightness_part(r)) + optional(mode_part(r)) + optional(temperature_part(r))
        + hs_part(r);
    let cmds = request_commands(r);
    assert(cmds =~= head + optional(effect_part(r)) + optional(state_part(r)));
    assert forall|i: int| 0 <= i < head.len() implies !(#[trigger] head[i] is Scene) by {
        let b = optional(brightness_part(r));
        let m = optional(mode_part(r));
        let t = optional(temperature_part(r));
        let hs = hs_part(r);
        assert(head =~= b + m + t + hs);
        if i < b.len() {
            assert(head[i] == b[i]);
        } else if i < b.len() + m.len() {
            assert(head[i] == m[i - b.len()]);
        } else if i < b.len() + m.len() + t.len() {
            assert(head[i] == t[i - b.len() - m.len()]);
        } else {
            assert(head[i] == hs[i - b.len() - m.len() - t.len()]);
        }
    }
    let e_part = optional(effect_part(r));
    let s_part = optional(state_part(r));
    assert forall|i: int| 0 <= i < cmds.len() && (#[trigger] cmds[i]) is Scene implies
        i >= head.len() && i < head.len() + e_part.len() && cmds[i] == e_part[i - head.len()] by {
        if i < head.len() {
            assert(cmds[i] == head[i]);
        } else if i >= head.len() + e_part.len() {
            assert(cmds[i] == s_part[i - head.len() - e_part.len()]);
        }
    }
    if let Some(e) = r.effect {
        assert(cmds[head.len() as int] == GvmNodeCommand::Scene(effect_scene(e)));
    }
}

} // verus!
