//! The resources and commands of the bridge's legacy API.
use vstd::prelude::*;
use crate::bridge::UnauthBridge;
use crate::disco::AddressText;
use crate::error::HueError;

verus! {

/// The state of the light with similar structure to `LightCommand`
#[derive(Debug, Copy, Clone, PartialEq, Eq, Structural)]
pub struct LightState {
    /// Whether the light is on
    pub on: bool,
    /// Brightness of the light, from the minimum capable brightness, 1, to the maximum, 254.
    pub bri: u8,
    /// Hue of the light. Both 0 and 65535 are red, 25500 is green and 46920 is blue.
    pub hue: u16,
    /// Saturation of the light. 254 is the most saturated (colored) and 0 is the least.
    pub sat: u8,
    /// The mired colour temperature of the light.
    pub ct: Option<u16>,
}

/// Details about a specific light
#[derive(Debug, Clone)]
pub struct Light {
    /// The unique name given to the light
    pub name: String,
    /// The hardware model of the light
    pub modelid: String,
    /// The version of the software running on the light
    pub swversion: String,
    /// Unique ID of the device
    pub uniqueid: String,
    /// The state of the light
    pub state: LightState,
}

/// A light together with its number on the bridge
#[derive(Debug, Clone)]
pub struct IdentifiedLight {
    /// The ID number of this light
    pub id: usize,
    /// The light object
    pub light: Light,
}

/// A command that tells the bridge what to do with a light; absent fields stay as they are.
#[derive(Debug, Default, Clone, Copy, PartialEq, Eq, Structural)]
pub struct LightCommand {
    /// Whether to turn the light off or on
    pub on: Option<bool>,
    /// Brightness of the colour of the light
    pub bri: Option<u8>,
    /// The hue of the colour of the light
    pub hue: Option<u16>,
    /// The saturation of the colour of the light
    pub sat: Option<u8>,
    /// The mired colour temperature of the light.
    pub ct: Option<u16>,
}

impl LightCommand {
    /// Returns a `LightCommand` that turns a light on
    pub fn on(self) -> (r: Self)
        ensures
            r == (LightCommand { on: Some(true), ..self }),
    {
        LightCommand { on: Some(true), ..self }
    }

    /// Returns a `LightCommand` that turns a light off
    pub fn off(self) -> (r: Self)
        ensures
            r == (LightCommand { on: Some(false), ..self }),
    {
        LightCommand { on: Some(false), ..self }
    }

    /// Sets the brightness to set the light to
    pub fn with_bri(self, b: u8) -> (r: Self)
        ensures
            r == (LightCommand { bri: Some(b), ..self }),
    {
        LightCommand { bri: Some(b), ..self }
    }

    /// Sets the hue to set the light to
    pub fn with_hue(self, h: u16) -> (r: Self)
        ensures
            r == (LightCommand { hue: Some(h), ..self }),
    {
        LightCommand { hue: Some(h), ..self }
    }

    /// Sets the saturation to set the light to
    pub fn with_sat(self, s: u8) -> (r: Self)
        ensures
            r == (LightCommand { sat: Some(s), ..self }),
    {
        LightCommand { sat: Some(s), ..self }
    }

    /// Sets the temperature to set the light to
    pub fn with_ct(self, c: u16) -> (r: Self)
        ensures
            r == (LightCommand { ct: Some(c), ..self }),
    {
        LightCommand { ct: Some(c), ..self }
    }
}

/// An answer of the legacy discovery service
#[derive(Debug, Clone)]
pub struct Discovery {
    pub id: String,
    pub internalipaddress: AddressText,
}

impl Discovery {
    /// A bridge at the discovered address, or an error when that is not a valid address
    pub fn build_bridge(self) -> (r: Result<UnauthBridge, HueError>)
        ensures
            match self.internalipaddress.address {
                Some(a) => r == Ok::<UnauthBridge, HueError>(UnauthBridge { ip: a }),
                None => r matches Err(HueError::AddrParse { .. }),
            },
    {
        match self.internalipaddress.address {
            Some(a) => Ok(UnauthBridge { ip: a }),
            None => Err(HueError::AddrParse { msg: String::from_str("invalid IP address syntax") }),
        }
    }

    /// The ip of this discovered bridge
    pub fn ip(&self) -> (r: &str)
        ensures
            r@ == self.internalipaddress.text@,
    {
        self.internalipaddress.text.as_str()
    }

    /// The id of this discovered bridge
    pub fn id(&self) -> (r: &str)
        ensures
            r@ == self.id@,
    {
        self.id.as_str()
    }
}

/// A response that either is an error or a success
#[derive(Debug)]
pub struct HueResponse<T> {
    /// The result from the bridge if it didn't fail
    pub success: Option<T>,
    /// The error that was returned from the bridge
    pub error: Option<Error>,
}

/// A user object returned from the API
#[derive(Debug, Clone)]
pub struct User {
    /// The username of the user
    pub username: String,
}

/// An error object returned from the API
#[derive(Debug, Clone)]
pub struct Error {
    /// The URI the error happened on
    pub address: String,
    /// A short description of the error
    pub description: String,
    /// Its error code
    pub code: u16,
}

impl From<Error> for HueError {
    fn from(e: Error) -> (r: HueError) {
        HueError::BridgeError { code: e.code as usize, msg: e.description }
    }
}

impl vstd::std_specs::convert::FromSpecImpl<Error> for HueError {
    open spec fn obeys_from_spec() -> bool {
        true
    }

    open spec fn from_spec(e: Error) -> HueError {
        HueError::BridgeError { code: e.code as usize, msg: e.description }
    }
}

} // verus!
