use rainbow_led::color::{brightness_scale, convert, gamma_correct, Hsv, Rgb};

fn hsv(hue: u8, saturation: u8, value: u8) -> Hsv {
    Hsv { hue, saturation, value }
}

fn rgb(red: u8, green: u8, blue: u8) -> Rgb {
    Rgb { red, green, blue }
}

#[test]
fn red_hue_is_pure_red() {
    assert_eq!(convert(hsv(0, 255, 255)), rgb(255, 0, 0));
}

#[test]
fn green_sector_has_full_green() {
    let c = convert(hsv(85, 255, 255));
    assert_eq!(c.green, 255);
    assert!(c.red <= 1 && c.blue <= 1);
    assert_eq!(c, rgb(0, 255, 0));
}

#[test]
fn blue_sector_has_full_blue() {
    assert_eq!(convert(hsv(170, 255, 255)), rgb(0, 0, 255));
}

#[test]
fn grey_keeps_value() {
    assert_eq!(convert(hsv(0, 0, 128)), rgb(128, 128, 128));
}

#[test]
fn zero_saturation_is_grey_for_every_hue() {
    for h in 0..=255u8 {
        for v in [0u8, 1, 77, 128, 255] {
            let c = convert(hsv(h, 0, v));
            assert_eq!(c, rgb(v, v, v));
        }
    }
}

#[test]
fn saturated_hues_have_exactly_one_full_channel() {
    for h in 0..=255u8 {
        let c = convert(hsv(h, 255, 255));
        let full = [c.red, c.green, c.blue].iter().filter(|x| **x == 255).count();
        assert_eq!(full, 1, "hue {}", h);
    }
}

#[test]
fn odd_sectors_use_the_falling_ramp() {
    assert_eq!(convert(hsv(43, 255, 255)), rgb(252, 255, 0));
    assert_eq!(convert(hsv(213, 255, 255)), rgb(255, 0, 252));
}

#[test]
fn top_hue_wraps_to_red() {
    assert_eq!(convert(hsv(255, 255, 255)), rgb(255, 0, 0));
}

#[test]
fn channels_are_truncated() {
    assert_eq!(convert(hsv(128, 255, 128)), rgb(0, 126, 128));
    assert_eq!(convert(hsv(20, 128, 200)), rgb(200, 146, 99));
    assert_eq!(convert(hsv(200, 100, 50)), rgb(44, 30, 50));
}

#[test]
fn repeated_conversion_is_identical() {
    let a = convert(hsv(123, 45, 67));
    let b = convert(hsv(123, 45, 67));
    assert_eq!(a, b);
}

#[test]
fn gamma_curve_values() {
    assert_eq!(gamma_correct(rgb(0, 128, 255)), rgb(0, 64, 255));
    assert_eq!(gamma_correct(rgb(200, 16, 1)), rgb(156, 1, 0));
}

#[test]
fn brightness_scaling_values() {
    assert_eq!(brightness_scale(rgb(255, 128, 1), 128), rgb(128, 64, 0));
    assert_eq!(brightness_scale(rgb(255, 128, 1), 255), rgb(255, 128, 1));
    assert_eq!(brightness_scale(rgb(255, 128, 1), 0), rgb(0, 0, 0));
}
