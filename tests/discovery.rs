use hueclient::hue::Discovery;
use hueclient::{
    address_from_cloud, address_from_records, discovery_step, AddressField, AddressText,
    BridgeAddress, CloudEntry, DiscoveryAction, DiscoveryEvent, DiscoveryState, HueError,
    MdnsRecord, UnauthBridge,
};
/// The address that `IpAddr::from_str` reads from each text used here.
fn address_of(text: &str) -> Option<BridgeAddress> {
    match text {
        "192.168.1.143" => Some(BridgeAddress::V4(192, 168, 1, 143)),
        "192.168.1.149" => Some(BridgeAddress::V4(192, 168, 1, 149)),
        "192.168.0.4" => Some(BridgeAddress::V4(192, 168, 0, 4)),
        "10.0.0.7" => Some(BridgeAddress::V4(10, 0, 0, 7)),
        "10.0.0.8" => Some(BridgeAddress::V4(10, 0, 0, 8)),
        "1.2.3.4" => Some(BridgeAddress::V4(1, 2, 3, 4)),
        "::1" => Some(BridgeAddress::V6(1)),
        "::2" => Some(BridgeAddress::V6(2)),
        "fe80::1" => Some(BridgeAddress::V6(0xfe80_0000_0000_0000_0000_0000_0000_0001)),
        "fd00::17" => Some(BridgeAddress::V6(0xfd00_0000_0000_0000_0000_0000_0000_0017)),
        _ => None,
    }
}

fn address_text(text: &str) -> AddressText {
    AddressText { text: text.to_string(), address: address_of(text) }
}

fn entry(ip: &str) -> CloudEntry {
    CloudEntry { internalipaddress: AddressField::Text(address_text(ip)) }
}

fn discovery_error(msg: &str) -> HueError {
    HueError::DiscoveryError { msg: msg.to_string() }
}

#[test]
fn local_failure_falls_back_to_the_cloud() {
    let (s, a) = discovery_step(DiscoveryState::NotStarted, DiscoveryEvent::Start);
    assert_eq!((s.clone(), a), (DiscoveryState::TryingLocal, DiscoveryAction::QueryLocal));
    let timeout = Err(discovery_error("No response from bridge"));
    let (s, a) = discovery_step(s, DiscoveryEvent::LocalAnswer(timeout));
    assert_eq!((s.clone(), a), (DiscoveryState::TryingCloud, DiscoveryAction::QueryCloud));
    let (s, a) = discovery_step(s, DiscoveryEvent::CloudAnswer(vec![entry("192.168.1.143")]));
    assert_eq!(s, DiscoveryState::Found(BridgeAddress::V4(192, 168, 1, 143)));
    assert_eq!(a, DiscoveryAction::Done);
}

#[test]
fn empty_cloud_answer_is_a_discovery_error() {
    let (s, a) = discovery_step(DiscoveryState::TryingCloud, DiscoveryEvent::CloudAnswer(vec![]));
    assert_eq!(s, DiscoveryState::Failed(discovery_error("expected non-empty array")));
    assert_eq!(a, DiscoveryAction::Done);
}

#[test]
fn unreachable_cloud_is_a_discovery_error() {
    let e = HueError::Reqwest { msg: "connection refused".to_string() };
    let (s, a) = discovery_step(DiscoveryState::TryingCloud, DiscoveryEvent::CloudFailed(e));
    assert_eq!(
        s,
        DiscoveryState::Failed(discovery_error("Could not discover bridge: cloud discovery failed: connection refused"))
    );
    assert_eq!(a, DiscoveryAction::Done);
}

#[test]
fn local_answer_ends_the_run() {
    let ip = BridgeAddress::V6(0xfe80_0000_0000_0000_0000_0000_0000_0001);
    let (s, a) = discovery_step(DiscoveryState::TryingLocal, DiscoveryEvent::LocalAnswer(Ok(ip)));
    assert_eq!((s.clone(), a), (DiscoveryState::Found(ip), DiscoveryAction::Done));
    let (s2, a2) = discovery_step(s.clone(), DiscoveryEvent::Start);
    assert_eq!((s2, a2), (s, DiscoveryAction::Done));
}

#[test]
fn out_of_order_events_change_nothing() {
    let (s, a) = discovery_step(DiscoveryState::TryingLocal, DiscoveryEvent::CloudAnswer(vec![entry("1.2.3.4")]));
    assert_eq!((s, a), (DiscoveryState::TryingLocal, DiscoveryAction::QueryLocal));
    let (s, a) = discovery_step(DiscoveryState::NotStarted, DiscoveryEvent::LocalAnswer(Ok(BridgeAddress::V4(1, 2, 3, 4))));
    assert_eq!((s, a), (DiscoveryState::NotStarted, DiscoveryAction::Done));
}

#[test]
fn cloud_entries_are_read_from_the_first() {
    assert_eq!(address_from_cloud(&vec![entry("10.0.0.7"), entry("10.0.0.8")]), Ok(BridgeAddress::V4(10, 0, 0, 7)));
    assert_eq!(address_from_cloud(&vec![]), Err(discovery_error("expected non-empty array")));
    let missing = CloudEntry { internalipaddress: AddressField::Missing };
    assert_eq!(address_from_cloud(&vec![missing]), Err(discovery_error("Expected internalipaddress")));
    let number = CloudEntry { internalipaddress: AddressField::NotText };
    assert_eq!(address_from_cloud(&vec![number]), Err(discovery_error("expect a string in internalipaddress")));
    assert_eq!(address_from_cloud(&vec![entry("bridge.local")]), Err(discovery_error("invalid address in internalipaddress")));
}

#[test]
fn cloud_addresses_of_both_families() {
    assert_eq!(address_from_cloud(&vec![entry("192.168.1.149")]), Ok(BridgeAddress::V4(192, 168, 1, 149)));
    assert_eq!(address_from_cloud(&vec![entry("::1")]), Ok(BridgeAddress::V6(1)));
    assert_eq!(
        address_from_cloud(&vec![entry("fe80::1")]),
        Ok(BridgeAddress::V6(0xfe80_0000_0000_0000_0000_0000_0000_0001))
    );
    assert_eq!(address_from_cloud(&vec![entry("256.1.1.1")]), Err(discovery_error("invalid address in internalipaddress")));
    assert_eq!(address_from_cloud(&vec![entry("01.2.3.4")]), Err(discovery_error("invalid address in internalipaddress")));
}

#[test]
fn cloud_fallback_with_an_ipv6_answer() {
    let (s, a) = discovery_step(DiscoveryState::TryingCloud, DiscoveryEvent::CloudAnswer(vec![entry("fd00::17")]));
    assert_eq!(s, DiscoveryState::Found(BridgeAddress::V6(0xfd00_0000_0000_0000_0000_0000_0000_0017)));
    assert_eq!(a, DiscoveryAction::Done);
}

#[test]
fn first_address_record_wins() {
    let records = vec![MdnsRecord::Other, MdnsRecord::AAAA(1), MdnsRecord::A(10, 0, 0, 1)];
    assert_eq!(address_from_records(&records), Ok(BridgeAddress::V6(1)));
    assert_eq!(address_from_records(&vec![MdnsRecord::A(10, 0, 0, 1)]), Ok(BridgeAddress::V4(10, 0, 0, 1)));
    assert_eq!(address_from_records(&vec![MdnsRecord::Other]), Err(discovery_error("No IP address found in response")));
    assert_eq!(hueclient::disco::to_ip_addr(&MdnsRecord::Other), None);
}

#[test]
fn legacy_discovery_answer() {
    let d = Discovery { id: "001788fffe000000".to_string(), internalipaddress: address_text("192.168.0.4") };
    assert_eq!(d.ip(), "192.168.0.4");
    assert_eq!(d.id(), "001788fffe000000");
    assert_eq!(d.build_bridge(), Ok(UnauthBridge { ip: BridgeAddress::V4(192, 168, 0, 4) }));
    let bad = Discovery { id: "x".to_string(), internalipaddress: address_text("not an address") };
    assert!(matches!(bad.build_bridge(), Err(HueError::AddrParse { .. })));
    let v6 = Discovery { id: "y".to_string(), internalipaddress: address_text("::2") };
    assert_eq!(v6.build_bridge(), Ok(UnauthBridge { ip: BridgeAddress::V6(2) }));
}
