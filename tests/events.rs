use hueclient::{message_event, Dimming, Event, EventEnvelope, HueEvent, On};

fn change(id: &str, on: bool) -> Event {
    Event {
        id: id.to_string(),
        id_v1: None,
        on: Some(On { on }),
        dimming: Some(Dimming { brightness: 5012, min_dim_level: None }),
        color_temperature: None,
        color: None,
    }
}

#[test]
fn all_envelopes_are_flattened_in_order() {
    let envelopes = vec![
        EventEnvelope { data: vec![change("a", true)] },
        EventEnvelope { data: vec![change("b", false), change("c", true)] },
    ];
    assert_eq!(
        message_event(envelopes),
        HueEvent::Event { data: vec![change("a", true), change("b", false), change("c", true)] }
    );
}

#[test]
fn empty_message_has_no_changes() {
    assert_eq!(message_event(vec![]), HueEvent::Event { data: vec![] });
    assert_eq!(message_event(vec![EventEnvelope { data: vec![] }]), HueEvent::Event { data: vec![] });
}
