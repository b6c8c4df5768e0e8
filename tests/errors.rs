use hueclient::error::BridgeError::{
    InternalError, LinkButtonNotPressed, MethodNotAvailableForResource, Other,
    SceneCouldNotBeRemoved,
};
use hueclient::{BridgeError, HueError};

#[test]
fn bridge_errors() {
    assert_eq!(BridgeError::from(101), LinkButtonNotPressed);
    assert_eq!(BridgeError::from(0), Other);
    assert_eq!(BridgeError::from(51234), Other);
    assert_eq!(BridgeError::from(4), MethodNotAvailableForResource);
    assert_eq!(SceneCouldNotBeRemoved.code(), Some(403));
    assert_eq!(InternalError.code(), Some(901));
}

#[test]
fn other_has_no_code() {
    assert_eq!(Other.code(), None);
}

#[test]
fn every_listed_code_maps_back() {
    for n in 0u16..1000 {
        let e = BridgeError::from(n);
        if e != Other {
            assert_eq!(e.code(), Some(n));
        }
    }
}

#[test]
fn link_button_error_is_recognised() {
    let e = HueError::BridgeError { code: 101, msg: "link button not pressed".to_string() };
    assert!(e.is_link_button_not_pressed());
    assert_eq!(e.bridge_error(), Some(LinkButtonNotPressed));
    let other = HueError::BridgeError { code: 1, msg: "unauthorized user".to_string() };
    assert!(!other.is_link_button_not_pressed());
    assert_eq!(other.bridge_error(), Some(BridgeError::UnauthorizedUser));
    let big = HueError::BridgeError { code: 70000, msg: String::new() };
    assert_eq!(big.bridge_error(), Some(Other));
    let v2 = HueError::BridgeErrorV2 { description: "x".to_string() };
    assert!(!v2.is_link_button_not_pressed());
    assert_eq!(v2.bridge_error(), None);
}

#[test]
fn error_constructors_carry_their_message() {
    assert_eq!(
        HueError::protocol_err("expected non-empty array"),
        HueError::ProtocolError { msg: "expected non-empty array".to_string() }
    );
    assert_eq!(
        HueError::discovery_err("No response from bridge"),
        HueError::DiscoveryError { msg: "No response from bridge".to_string() }
    );
}

#[test]
fn legacy_error_object_becomes_a_bridge_error() {
    let e = hueclient::hue::Error {
        address: "/lights/1/state".to_string(),
        description: "parameter, bri, not available".to_string(),
        code: 6,
    };
    assert_eq!(
        HueError::from(e),
        HueError::BridgeError { code: 6, msg: "parameter, bri, not available".to_string() }
    );
}

#[test]
fn every_error_has_its_message() {
    assert_eq!(HueError::BridgeError { code: 7, msg: "invalid value".to_string() }.message(), "invalid value");
    assert_eq!(HueError::BridgeErrorV2 { description: "gone".to_string() }.message(), "gone");
    assert_eq!(HueError::Reqwest { msg: "timed out".to_string() }.message(), "timed out");
}
