//! Discovery of and communication with a Philips Hue bridge: the light command grammar,
//! the bridge's response envelopes, the resolution of rooms and zones into lights, and the
//! policy by which a bridge is found on the local network.
//!
//! The network work (HTTP, multicast DNS, the event stream) and JSON decoding are left to
//! the caller; this library decides and computes around them.
pub mod bridge;
pub mod color;
pub mod command;
pub mod command_parser;
pub mod disco;
pub mod envelope;
pub mod error;
pub mod events;
pub mod hue;
pub mod payload;
pub mod resources;
pub mod sorting;
pub mod text;

pub use bridge::{next_registration_step, Bridge, RegistrationStep, RetryPolicy, UnauthBridge};
pub use color::rgb_to_hsv;
pub use command::{
    CommandLight, CommandLightColor, CommandLightColorTemperature, CommandLightDimming,
    CommandLightDynamics, On, XY,
};
pub use command_parser::{parse_command, parse_light_command, parse_u32};
pub use disco::{
    address_from_cloud, address_from_records, discovery_step, AddressField, AddressText,
    BridgeAddress, CloudEntry, DiscoveryAction, DiscoveryEvent, DiscoveryState, MdnsRecord,
};
pub use envelope::{
    BridgeErrorInner, BridgeErrorV2, BridgeResponse, BridgeResponseV2, ErrorEnvelope,
    SuccessResponse, Username,
};
pub use error::{BridgeError, HueError};
pub use events::{message_event, Event, EventColorTemperature, EventEnvelope, HueEvent};
pub use resources::{
    resolve_children, resolve_rooms, resolve_zones, Color, ColorTemperature, CommandScene, Device,
    Dimming, Gamut, Light, LightMetadata, Metadata, MirekSchema, ResolvedRoom, ResolvedZone,
    ResourceIdentifier, Room, Scene, SceneMetadata, SceneRecall, Zone,
};
pub use sorting::{sort_by_id, sort_by_number, Identified};
