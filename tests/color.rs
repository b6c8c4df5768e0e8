use hueclient::rgb_to_hsv;

#[test]
fn white_has_no_hue_or_saturation() {
    assert_eq!(rgb_to_hsv(255, 255, 255), (0, 0, 255));
}

#[test]
fn pure_red() {
    assert_eq!(rgb_to_hsv(255, 0, 0), (0, 255, 255));
}

#[test]
fn pure_green_is_a_third_of_the_circle() {
    assert_eq!(rgb_to_hsv(0, 255, 0), (21845, 255, 255));
}

#[test]
fn pure_blue_is_two_thirds_of_the_circle() {
    assert_eq!(rgb_to_hsv(0, 0, 255), (43690, 255, 255));
}

#[test]
fn dark_orange_rounds_to_nearest() {
    // hue fraction 64 / 768 of the circle: 5461.25 rounds to 5461
    assert_eq!(rgb_to_hsv(128, 64, 0), (5461, 255, 128));
}

#[test]
fn grey_and_black() {
    assert_eq!(rgb_to_hsv(0, 0, 0), (0, 0, 0));
    assert_eq!(rgb_to_hsv(17, 17, 17), (0, 0, 17));
}

#[test]
fn red_below_blue_wraps_around() {
    // red is the maximum and green < blue: hue ((g - b) / d + 6) / 6 = (-1/2 + 6) / 6
    assert_eq!(rgb_to_hsv(200, 0, 100), (60074, 255, 200));
}

fn float_hsv(r: u8, g: u8, b: u8) -> (f64, f64, f64) {
    let r = r as f64 / 255f64;
    let g = g as f64 / 255f64;
    let b = b as f64 / 255f64;
    let max = r.max(g.max(b));
    let min = r.min(g.min(b));
    if max == min {
        (0f64, 0f64, max)
    } else {
        let d = max - min;
        let s = d / max;
        let h = if max == r {
            (g - b) / d + (if g < b { 6f64 } else { 0f64 })
        } else if max == g {
            (b - r) / d + 2f64
        } else {
            (r - g) / d + 4f64
        };
        (h / 6f64, s, max)
    }
}

#[test]
fn scaled_values_round_trip_within_quantisation() {
    for r in (0..=255u16).step_by(15) {
        for g in (0..=255u16).step_by(17) {
            for b in (0..=255u16).step_by(51) {
                let (h, s, v) = float_hsv(r as u8, g as u8, b as u8);
                let (hue, sat, bri) = rgb_to_hsv(r as u8, g as u8, b as u8);
                assert!((hue as f64 / 65535f64 - h).abs() <= 0.5 / 65535f64 + 1e-9);
                assert!((sat as f64 / 255f64 - s).abs() <= 1f64 / 255f64);
                assert!((bri as f64 / 255f64 - v).abs() <= 1f64 / 255f64);
            }
        }
    }
}

#[test]
fn brightness_and_lowest_channel_convert_back() {
    for r in (0..=255u16).step_by(5) {
        for g in (0..=255u16).step_by(7) {
            for b in (0..=255u16).step_by(11) {
                let (_, sat, bri) = rgb_to_hsv(r as u8, g as u8, b as u8);
                let max = r.max(g).max(b) as f64;
                let min = r.min(g).min(b) as f64;
                assert_eq!(bri as f64, max);
                let lowest = bri as f64 * (255.0 - sat as f64) / 255.0;
                assert!((lowest - min).abs() <= 0.5 + 1e-9);
            }
        }
    }
}
