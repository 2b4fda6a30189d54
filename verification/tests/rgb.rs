use pico_labs::rgb::{Color, ColorCycle, RgbPwm, MAX_INTENSITY};

#[test]
fn colors_are_inverted_for_the_common_anode() {
    let p = Color((255, 0, 128)).to_led_pwm();
    assert_eq!(p, RgbPwm { top: 255, compare_a: 0, compare_b: 255, blue_num: 127, blue_denom: 255 });
    let dark = Color((0, 0, 0)).to_led_pwm();
    assert_eq!((dark.compare_a, dark.compare_b, dark.blue_num), (255, 255, 255));
}

#[test]
fn named_colors() {
    assert_eq!(Color::red().0, (255, 0, 0));
    assert_eq!(Color::yellow().0, (255, 255, 0));
    assert_eq!(Color::blue().0, (0, 0, 255));
}

#[test]
fn cycle_goes_red_yellow_blue() {
    let mut c = ColorCycle::new();
    let seen: Vec<(u8, u8, u8)> = (0..7).map(|_| c.next_color().0).collect();
    assert_eq!(
        seen,
        vec![
            (255, 0, 0),
            (255, 255, 0),
            (0, 0, 255),
            (255, 0, 0),
            (255, 255, 0),
            (0, 0, 255),
            (255, 0, 0)
        ]
    );
}

#[test]
fn light_level_endpoints() {
    assert_eq!(MAX_INTENSITY, 4095);
    assert_eq!(Color::from_light_level(0).0, (255, 0, 0));
    assert_eq!(Color::from_light_level(2047).0, (0, 255, 0));
    assert_eq!(Color::from_light_level(2048).0, (0, 255, 0));
    assert_eq!(Color::from_light_level(4095).0, (0, 0, 255));
}

#[test]
fn light_level_interpolates() {
    assert_eq!(Color::from_light_level(1000).0, (130, 124, 0));
    assert_eq!(Color::from_light_level(3000).0, (0, 136, 118));
}

#[test]
fn light_level_matches_formula() {
    let mid = 4095usize / 2;
    for value in 0u16..=4095 {
        let v = value as usize;
        let expected = if v <= mid {
            (255 * (mid - v) / mid, 255 * v / mid, 0)
        } else {
            let w = v - (mid + 1);
            (0, 255 * (mid - w) / mid, 255 * w / mid)
        };
        let c = Color::from_light_level(value).0;
        assert_eq!((c.0 as usize, c.1 as usize, c.2 as usize), expected);
    }
}

#[test]
fn light_channels_share_and_move_monotonically() {
    let mut prev = Color::from_light_level(0).0;
    for value in 0u16..=4095 {
        let (r, g, b) = Color::from_light_level(value).0;
        if value <= 2047 {
            assert_eq!(b, 0);
            assert!(254 <= r as u32 + g as u32 && r as u32 + g as u32 <= 255);
            assert!(r <= prev.0 && g >= prev.1);
        } else {
            assert_eq!(r, 0);
            assert!(254 <= g as u32 + b as u32 && g as u32 + b as u32 <= 255);
            if value > 2048 {
                assert!(g <= prev.1 && b >= prev.2);
            }
        }
        prev = (r, g, b);
    }
}
