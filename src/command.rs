//! Sparse light-state commands: every field is optional, and an absent field is left out of
//! the payload sent to the bridge.
//!
//! Brightness is a whole number in the unit of the command it came from; colour
//! coordinates are in millionths (`x == 312_700` stands for 0.3127).
use vstd::prelude::*;

verus! {

#[derive(Debug, Clone, Copy, PartialEq, Eq, Structural)]
pub struct On {
    pub on: bool,
}

#[derive(Debug, Clone, Copy, PartialEq, Eq, Structural)]
pub struct CommandLightDimming {
    pub brightness: u32,
}

#[derive(Debug, Clone, Copy, PartialEq, Eq, Structural)]
pub struct CommandLightColorTemperature {
    pub mirek: u16,
}

/// A CIE chromaticity coordinate pair, in millionths.
#[derive(Debug, Clone, Copy, PartialEq, Eq, Structural)]
pub struct XY {
    pub x: u32,
    pub y: u32,
}

#[derive(Debug, Clone, Copy, PartialEq, Eq, Structural)]
pub struct CommandLightColor {
    pub xy: XY,
}

#[derive(Debug, Clone, Copy, PartialEq, Eq, Structural)]
pub struct CommandLightDynamics {
    /// Transition time.
    pub duration: Option<u32>,
}

/// A partial update of a light's state.
#[derive(Debug, Clone, Copy, PartialEq, Eq, Structural)]
pub struct CommandLight {
    pub on: Option<On>,
    pub dimming: Option<CommandLightDimming>,
    pub color_temperature: Option<CommandLightColorTemperature>,
    pub color: Option<CommandLightColor>,
    pub dynamics: Option<CommandLightDynamics>,
    pub hue: Option<u16>,
    pub sat: Option<u8>,
}

impl CommandLight {
    /// The command that changes nothing.
    pub open spec fn empty() -> CommandLight {
        CommandLight {
            on: None,
            dimming: None,
            color_temperature: None,
            color: None,
            dynamics: None,
            hue: None,
            sat: None,
        }
    }

    pub fn new() -> (r: CommandLight)
        ensures
            r == CommandLight::empty(),
    {
        CommandLight {
            on: None,
            dimming: None,
            color_temperature: None,
            color: None,
            dynamics: None,
            hue: None,
            sat: None,
        }
    }

    pub fn on(self) -> (r: Self)
        ensures
            r == (CommandLight { on: Some(On { on: true }), ..self }),
    {
        Self { on: Some(On { on: true }), ..self }
    }

    pub fn off(self) -> (r: Self)
        ensures
            r == (CommandLight { on: Some(On { on: false }), ..self }),
    {
        Self { on: Some(On { on: false }), ..self }
    }

    pub fn with_brightness(self, brightness: u32) -> (r: Self)
        ensures
            r == (CommandLight { dimming: Some(CommandLightDimming { brightness }), ..self }),
    {
        Self { dimming: Some(CommandLightDimming { brightness }), ..self }
    }

    pub fn with_mirek(self, mirek: u16) -> (r: Self)
        ensures
            r == (CommandLight {
                color_temperature: Some(CommandLightColorTemperature { mirek }),
                ..self
            }),
    {
        Self { color_temperature: Some(CommandLightColorTemperature { mirek }), ..self }
    }

    /// Sets the colour to the coordinates `(x, y)`, given in millionths.
    pub fn with_xy(self, x: u32, y: u32) -> (r: Self)
        ensures
            r == (CommandLight { color: Some(CommandLightColor { xy: XY { x, y } }), ..self }),
    {
        Self { color: Some(CommandLightColor { xy: XY { x, y } }), ..self }
    }

    pub fn with_transition_time(self, ms: u32) -> (r: Self)
        ensures
            r == (CommandLight {
                dynamics: Some(CommandLightDynamics { duration: Some(ms) }),
                ..self
            }),
    {
        Self { dynamics: Some(CommandLightDynamics { duration: Some(ms) }), ..self }
    }

    pub fn with_hue(self, hue: u16) -> (r: Self)
        ensures
            r == (CommandLight { hue: Some(hue), ..self }),
    {
        Self { hue: Some(hue), ..self }
    }

    pub fn with_sat(self, sat: u8) -> (r: Self)
        ensures
            r == (CommandLight { sat: Some(sat), ..self }),
    {
        Self { sat: Some(sat), ..self }
    }
}

impl Default for CommandLight {
    fn default() -> (r: CommandLight)
        ensures
            r == CommandLight::empty(),
    {
        CommandLight::new()
    }
}

} // verus!
