use hueclient::hue::{LightCommand, LightState};

#[test]
fn legacy_builders_set_one_field_each() {
    let cmd = LightCommand::default().on().with_bri(200).with_hue(46920).with_sat(254).with_ct(153);
    assert_eq!(
        cmd,
        LightCommand { on: Some(true), bri: Some(200), hue: Some(46920), sat: Some(254), ct: Some(153) }
    );
    let off = cmd.off();
    assert_eq!(off.on, Some(false));
    assert_eq!(off.bri, Some(200));
}

#[test]
fn legacy_state_is_plain_data() {
    let s = LightState { on: true, bri: 254, hue: 0, sat: 0, ct: None };
    assert_eq!(s, s.clone());
}

fn identified(id: usize, name: &str) -> hueclient::hue::IdentifiedLight {
    hueclient::hue::IdentifiedLight {
        id,
        light: hueclient::hue::Light {
            name: name.to_string(),
            modelid: "LCT001".to_string(),
            swversion: "66009461".to_string(),
            uniqueid: format!("00:17:88:01:00:00:00:{:02}-0b", id),
            state: LightState { on: false, bri: 1, hue: 0, sat: 0, ct: Some(153) },
        },
    }
}

#[test]
fn legacy_lights_sort_by_number() {
    let lights = vec![identified(10, "ten"), identified(9, "nine"), identified(1, "one"), identified(9, "other nine")];
    let sorted = hueclient::sort_by_number(lights);
    let ids: Vec<usize> = sorted.iter().map(|l| l.id).collect();
    assert_eq!(ids, vec![1, 9, 9, 10]);
    assert_eq!(sorted[3].light.name, "ten");
    assert_eq!(sorted[1].light.name, "nine");
    assert_eq!(sorted[2].light.name, "other nine");
}
