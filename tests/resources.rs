use hueclient::{
    resolve_children, resolve_rooms, resolve_zones, sort_by_id, CommandScene, Device, Light,
    LightMetadata, Metadata, On, ResourceIdentifier, Room, Scene, SceneMetadata, Zone,
};

fn rid(id: &str, rtype: &str) -> ResourceIdentifier {
    ResourceIdentifier { rid: id.to_string(), rtype: rtype.to_string() }
}

fn light(id: &str, name: &str, on: bool) -> Light {
    Light {
        id: id.to_string(),
        id_v1: Some(format!("/lights/{}", name)),
        metadata: LightMetadata {
            name: name.to_string(),
            archetype: "sultan_bulb".to_string(),
            fixed_mired: None,
            function: "functional".to_string(),
        },
        service_id: 0,
        on: On { on },
        dimming: None,
        color_temperature: None,
        color: None,
    }
}

fn device(id: &str, services: Vec<ResourceIdentifier>) -> Device {
    Device { id: id.to_string(), id_v1: None, services }
}

fn room(id: &str, children: Vec<ResourceIdentifier>) -> Room {
    Room {
        id: id.to_string(),
        id_v1: None,
        metadata: Metadata { name: "Living room".to_string(), archetype: "living_room".to_string() },
        children,
        services: vec![rid("g-1", "grouped_light")],
    }
}

#[test]
fn device_light_services() {
    let d = device("d-1", vec![rid("l-1", "light"), rid("z-1", "zigbee_connectivity"), rid("l-2", "light")]);
    assert_eq!(d.get_lights(), vec!["l-1".to_string(), "l-2".to_string()]);
    assert!(device("d-2", vec![rid("b-1", "button")]).get_lights().is_empty());
}

#[test]
fn missing_light_is_dropped() {
    let devices = vec![device("d-1", vec![rid("l-1", "light"), rid("l-2", "light")])];
    let lights = vec![light("l-1", "Lamp", true)];
    let rooms = resolve_rooms(vec![room("r-1", vec![rid("d-1", "device")])], &devices, &lights);
    assert_eq!(rooms.len(), 1);
    assert_eq!(rooms[0].id, "r-1");
    assert_eq!(rooms[0].children.len(), 1);
    assert_eq!(rooms[0].children[0].id, "l-1");
    assert_eq!(rooms[0].children[0].metadata.name, "Lamp");
    assert_eq!(rooms[0].services[0].rid, "g-1");
    assert_eq!(rooms[0].metadata.name, "Living room");
}

#[test]
fn missing_device_is_dropped() {
    let devices = vec![device("d-1", vec![rid("l-1", "light")])];
    let lights = vec![light("l-1", "Lamp", true), light("l-2", "Desk", false)];
    let children = vec![rid("d-9", "device"), rid("d-1", "device")];
    let resolved = resolve_children(&children, &devices, &lights);
    assert_eq!(resolved.len(), 1);
    assert_eq!(resolved[0].id, "l-1");
}

#[test]
fn children_keep_their_order_and_repeat() {
    let devices = vec![
        device("d-1", vec![rid("l-2", "light")]),
        device("d-2", vec![rid("l-1", "light"), rid("l-3", "light")]),
    ];
    let lights = vec![light("l-1", "A", true), light("l-2", "B", false), light("l-3", "C", true)];
    let children = vec![rid("d-2", "device"), rid("d-1", "device"), rid("d-2", "device")];
    let ids: Vec<String> = resolve_children(&children, &devices, &lights).into_iter().map(|l| l.id).collect();
    assert_eq!(ids, vec!["l-1", "l-3", "l-2", "l-1", "l-3"]);
}

#[test]
fn last_light_with_an_id_wins() {
    let devices = vec![device("d-1", vec![rid("l-1", "light")])];
    let lights = vec![light("l-1", "Old", false), light("l-1", "New", true)];
    let resolved = resolve_children(&vec![rid("d-1", "device")], &devices, &lights);
    assert_eq!(resolved.len(), 1);
    assert_eq!(resolved[0].metadata.name, "New");
    assert!(resolved[0].on.on);
}

#[test]
fn zones_resolve_through_devices() {
    let devices = vec![device("d-1", vec![rid("l-1", "light")])];
    let lights = vec![light("l-1", "Lamp", true)];
    let zone = Zone {
        id: "z-1".to_string(),
        id_v1: Some("/groups/3".to_string()),
        metadata: Metadata { name: "Upstairs".to_string(), archetype: "home".to_string() },
        children: vec![rid("d-1", "device"), rid("l-1", "light")],
        services: vec![],
    };
    let zones = resolve_zones(vec![zone], &devices, &lights);
    assert_eq!(zones.len(), 1);
    assert_eq!(zones[0].id_v1, Some("/groups/3".to_string()));
    assert_eq!(zones[0].children.len(), 1);
    assert_eq!(zones[0].children[0].id, "l-1");
}

#[test]
fn empty_inputs_resolve_to_nothing() {
    assert!(resolve_rooms(vec![], &vec![], &vec![]).is_empty());
    let rooms = resolve_rooms(vec![room("r-1", vec![])], &vec![], &vec![]);
    assert!(rooms[0].children.is_empty());
}

#[test]
fn lists_are_sorted_by_id() {
    let scenes: Vec<Scene> = ["b", "a", "c", "a"]
        .iter()
        .map(|id| Scene { id: id.to_string(), id_v1: None, metadata: SceneMetadata { name: format!("scene {}", id) } })
        .collect();
    let sorted: Vec<String> = sort_by_id(scenes).into_iter().map(|s| s.id).collect();
    assert_eq!(sorted, vec!["a", "a", "b", "c"]);
    let lights = vec![light("9", "nine", true), light("10", "ten", true), light("1", "one", true)];
    let sorted: Vec<String> = sort_by_id(lights).into_iter().map(|l| l.id).collect();
    assert_eq!(sorted, vec!["1", "10", "9"]);
    let devices = vec![device("b", vec![]), device("ab", vec![]), device("a", vec![])];
    let sorted: Vec<String> = sort_by_id(devices).into_iter().map(|d| d.id).collect();
    assert_eq!(sorted, vec!["a", "ab", "b"]);
}

#[test]
fn text_order() {
    assert!(hueclient::sorting::text_le("a", "b"));
    assert!(hueclient::sorting::text_le("a", "a"));
    assert!(hueclient::sorting::text_le("", "a"));
    assert!(!hueclient::sorting::text_le("b", "a"));
    assert!(!hueclient::sorting::text_le("ab", "a"));
}

#[test]
fn scene_activation_body() {
    assert_eq!(CommandScene::activate().recall.action, "active");
}

#[test]
fn clones_are_equal_copies() {
    let l = light("l-1", "Lamp", true);
    let c = l.clone();
    assert_eq!(c.id, l.id);
    assert_eq!(c.id_v1, l.id_v1);
    assert_eq!(c.metadata.name, l.metadata.name);
}

#[test]
fn equal_ids_keep_their_order() {
    let scenes: Vec<Scene> = [("b", "first b"), ("a", "first a"), ("b", "second b"), ("a", "second a")]
        .iter()
        .map(|(id, name)| Scene { id: id.to_string(), id_v1: None, metadata: SceneMetadata { name: name.to_string() } })
        .collect();
    let names: Vec<String> = sort_by_id(scenes).into_iter().map(|s| s.metadata.name).collect();
    assert_eq!(names, vec!["first a", "second a", "first b", "second b"]);
}
