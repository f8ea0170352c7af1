//! The state that a GVM light reports about itself.
use vstd::prelude::*;

verus! {

/// Whether the light is on.
#[derive(PartialEq, Eq, Structural, Clone, Copy, Debug)]
pub struct PowerState {
    pub value: bool,
}

/// Brightness in percent.
#[derive(PartialEq, Eq, Structural, Clone, Copy, Debug)]
pub struct Brightness {
    pub value: u8,
}

/// Colour temperature in Kelvin.
#[derive(PartialEq, Eq, Structural, Clone, Copy, Debug)]
pub struct Temperature {
    pub value: u16,
}

/// Hue in degrees.
#[derive(PartialEq, Eq, Structural, Clone, Copy, Debug)]
pub struct Hue {
    pub value: u16,
}

/// Saturation in percent.
#[derive(PartialEq, Eq, Structural, Clone, Copy, Debug)]
pub struct Saturation {
    pub value: u8,
}

/// The light's RGB setting.
#[derive(PartialEq, Eq, Structural, Clone, Copy, Debug)]
pub struct RGB {
    pub value: u8,
}

/// Everything a light reports in one state notification.
#[derive(PartialEq, Eq, Structural, Clone, Copy, Debug)]
pub struct GvmNodeStatus {
    pub power_state: PowerState,
    pub brightness: Brightness,
    pub temperature: Temperature,
    pub hue: Hue,
    pub saturation: Saturation,
    pub rgb: RGB,
}

/// The status of a light that is off with every setting at zero.
pub open spec fn zero_status() -> GvmNodeStatus {
    GvmNodeStatus {
        power_state: PowerState { value: false },
        brightness: Brightness { value: 0 },
        temperature: Temperature { value: 0 },
        hue: Hue { value: 0 },
        saturation: Saturation { value: 0 },
        rgb: RGB { value: 0 },
    }
}

impl GvmNodeStatus {
    /// A status with the light off and every setting at zero.
    pub fn new() -> (res: GvmNodeStatus)
        ensures
            res == zero_status(),
    {
        GvmNodeStatus {
            power_state: PowerState { value: false },
            brightness: Brightness { value: 0 },
            temperature: Temperature { value: 0 },
            hue: Hue { value: 0 },
            saturation: Saturation { value: 0 },
            rgb: RGB { value: 0 },
        }
    }
}

} // verus!
