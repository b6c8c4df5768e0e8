use hueclient::{
    parse_command, parse_light_command, parse_u32, CommandLight, CommandLightColor,
    CommandLightColorTemperature, CommandLightDimming, CommandLightDynamics, HueError, On, XY,
};

fn on() -> CommandLight {
    CommandLight::new().on()
}

fn args(command: &str) -> Vec<String> {
    vec!["hue_set_light_state".to_string(), "user".to_string(), "1".to_string(), command.to_string()]
}

#[test]
fn on_and_off() {
    assert_eq!(parse_light_command("on"), Ok(on()));
    assert_eq!(parse_light_command("off"), Ok(CommandLight::new().off()));
    assert_eq!(parse_light_command("on").unwrap().on, Some(On { on: true }));
}

#[test]
fn triplet_wins_over_hex() {
    let expected = on().with_brightness(120).with_hue(300).with_sat(10);
    assert_eq!(parse_light_command("120:300:10"), Ok(expected));
}

#[test]
fn triplet_of_hex_looking_digits() {
    assert_eq!(parse_light_command("12:34:56"), Ok(on().with_brightness(12).with_hue(34).with_sat(56)));
}

#[test]
fn colon_text_never_reaches_hex() {
    assert!(matches!(parse_light_command("ABCDEF:1"), Err(HueError::CommandError { .. })));
    assert!(matches!(parse_light_command("12:ABCD"), Err(HueError::CommandError { .. })));
}

#[test]
fn triplet_groups_that_do_not_fit_stay_unset() {
    assert_eq!(parse_light_command("999:70000:300"), Ok(on()));
    assert_eq!(parse_light_command("::"), Ok(on()));
    assert_eq!(parse_light_command("255:65535:255"), Ok(on().with_brightness(255).with_hue(65535).with_sat(255)));
    assert_eq!(parse_light_command(":7:"), Ok(on().with_hue(7)));
}

#[test]
fn kelvin_is_converted_to_mirek() {
    let cmd = parse_light_command("2700K:200").unwrap();
    assert_eq!(cmd.color_temperature, Some(CommandLightColorTemperature { mirek: 370 }));
    assert_eq!(cmd.dimming, Some(CommandLightDimming { brightness: 200 }));
    assert_eq!(cmd.sat, Some(254));
    assert_eq!(cmd.on, Some(On { on: true }));
    assert_eq!(cmd, on().with_mirek(370).with_brightness(200).with_sat(254));
}

#[test]
fn zero_mired_leaves_temperature_unset() {
    let cmd = parse_light_command("0MK:100").unwrap();
    assert_eq!(cmd.color_temperature, None);
    assert_eq!(cmd, on().with_brightness(100).with_sat(254));
}

#[test]
fn zero_kelvin_does_not_divide() {
    assert!(matches!(parse_light_command("0K:100"), Err(HueError::CommandError { .. })));
    let cmd = parse_light_command("0000K:100").unwrap();
    assert_eq!(cmd.color_temperature, None);
    assert_eq!(cmd, on().with_brightness(100).with_sat(254));
}

#[test]
fn kelvin_whose_mirek_does_not_fit_is_unset() {
    // 1_000_000 / 10 = 100_000 does not fit 16 bits
    assert_eq!(parse_light_command("0010K:"), Ok(on().with_sat(254)));
    assert_eq!(parse_light_command("0001K:50"), Ok(on().with_brightness(50).with_sat(254)));
    // 1_000_000 / 16 = 62_500 fits
    assert_eq!(parse_light_command("0016K:").unwrap().color_temperature, Some(CommandLightColorTemperature { mirek: 62500 }));
}

#[test]
fn mired_directly() {
    assert_eq!(parse_light_command("153MK:50"), Ok(on().with_mirek(153).with_brightness(50).with_sat(254)));
    assert_eq!(parse_light_command("MK:"), Ok(on().with_sat(254)));
    assert_eq!(parse_light_command("500MK:99999"), Ok(on().with_mirek(500).with_brightness(99999).with_sat(254)));
}

#[test]
fn hex_colours() {
    assert_eq!(parse_light_command("FF0000"), Ok(on().with_hue(0).with_sat(255).with_brightness(255)));
    assert_eq!(parse_light_command("00ff00"), Ok(on().with_hue(21845).with_sat(255).with_brightness(255)));
    assert_eq!(parse_light_command("FFFFFF"), Ok(on().with_hue(0).with_sat(0).with_brightness(255)));
    assert_eq!(parse_light_command("0000FF"), Ok(on().with_hue(43690).with_sat(255).with_brightness(255)));
}

#[test]
fn chromaticity() {
    assert_eq!(parse_light_command("0.3127,0.329"), Ok(on().with_xy(312700, 329000)));
    assert_eq!(parse_light_command("0.3127,0.329:80"), Ok(on().with_xy(312700, 329000).with_brightness(80)));
    assert_eq!(parse_light_command("0.1234567,0.5"), Ok(on().with_xy(123456, 500000)));
    let cmd = parse_light_command("0.5,0.4:").unwrap();
    assert_eq!(cmd.color, Some(CommandLightColor { xy: XY { x: 500000, y: 400000 } }));
    assert_eq!(cmd.dimming, None);
}

#[test]
fn unknown_text_is_an_error() {
    assert_eq!(
        parse_light_command("purple"),
        Err(HueError::CommandError { msg: "can not understand command purple".to_string() })
    );
    assert!(parse_light_command("").is_err());
    assert!(parse_light_command("1234:1:2:3").is_err());
    assert!(parse_light_command("0.5,0.4:123456").is_err());
    assert!(parse_light_command("12345MK:1").is_err());
}

#[test]
fn transition_time_from_fifth_argument() {
    let mut a = args("on");
    a.push("500".to_string());
    assert_eq!(
        parse_command(a),
        Ok(on().with_transition_time(500))
    );
    let mut b = args("off");
    b.push("+7".to_string());
    assert_eq!(
        parse_command(b).unwrap().dynamics,
        Some(CommandLightDynamics { duration: Some(7) })
    );
}

#[test]
fn unreadable_or_extra_arguments_add_no_transition() {
    let mut a = args("on");
    a.push("soon".to_string());
    assert_eq!(parse_command(a), Ok(on()));
    let mut b = args("on");
    b.push("5".to_string());
    b.push("6".to_string());
    assert_eq!(parse_command(b), Ok(on()));
    assert_eq!(parse_command(args("2700K:200")), Ok(on().with_mirek(370).with_brightness(200).with_sat(254)));
}

#[test]
fn missing_command_is_an_error() {
    let a = vec!["prog".to_string(), "user".to_string(), "1".to_string()];
    assert!(matches!(parse_command(a), Err(HueError::CommandError { .. })));
    assert!(matches!(parse_command(args("sparkle")), Err(HueError::CommandError { .. })));
}

#[test]
fn u32_reading_follows_from_str() {
    assert_eq!(parse_u32("0"), Some(0));
    assert_eq!(parse_u32("+42"), Some(42));
    assert_eq!(parse_u32("4294967295"), Some(4294967295));
    assert_eq!(parse_u32("4294967296"), None);
    assert_eq!(parse_u32("99999999999999999999"), None);
    assert_eq!(parse_u32(""), None);
    assert_eq!(parse_u32("+"), None);
    assert_eq!(parse_u32("-1"), None);
    assert_eq!(parse_u32("1a"), None);
}
