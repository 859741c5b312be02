use ws2812_anim::color::{apply_brightness, color_wheel};

#[test]
fn color_wheel_primaries() {
    assert_eq!(color_wheel(0), (255, 0, 0));
    assert_eq!(color_wheel(85), (0, 255, 0));
    assert_eq!(color_wheel(170), (0, 0, 255));
    assert_eq!(color_wheel(255), (255, 0, 0));
}

#[test]
fn color_wheel_band_edges() {
    assert_eq!(color_wheel(1), (252, 3, 0));
    assert_eq!(color_wheel(84), (3, 252, 0));
    assert_eq!(color_wheel(86), (0, 252, 3));
    assert_eq!(color_wheel(169), (0, 3, 252));
    assert_eq!(color_wheel(171), (3, 0, 252));
    assert_eq!(color_wheel(254), (252, 0, 3));
}

#[test]
fn color_wheel_exact_colors() {
    assert_eq!(color_wheel(24), (183, 72, 0));
    assert_eq!(color_wheel(88), (0, 246, 9));
    assert_eq!(color_wheel(112), (0, 174, 81));
    assert_eq!(color_wheel(184), (42, 0, 213));
    assert_eq!(color_wheel(232), (186, 0, 69));
}

#[test]
fn color_wheel_keeps_one_channel_dark_and_the_sum_full() {
    for pos in 0..=u8::MAX {
        let (r, g, b) = color_wheel(pos);
        assert!(r == 0 || g == 0 || b == 0);
        assert_eq!(r as u16 + g as u16 + b as u16, 255);
    }
}

#[test]
fn color_wheel_has_no_jump() {
    for pos in 0..=u8::MAX {
        let here = color_wheel(pos);
        let next = color_wheel(pos.wrapping_add(1));
        assert!((here.0 as i16 - next.0 as i16).abs() <= 3);
        assert!((here.1 as i16 - next.1 as i16).abs() <= 3);
        assert!((here.2 as i16 - next.2 as i16).abs() <= 3);
    }
}

#[test]
fn color_wheel_runs_red_green_blue() {
    for pos in 1..85u8 {
        let (r, g, b) = color_wheel(pos);
        assert!(r > 0 && g > 0 && b == 0);
    }
    for pos in 86..170u8 {
        let (r, g, b) = color_wheel(pos);
        assert!(r == 0 && g > 0 && b > 0);
    }
    for pos in 171..255u8 {
        let (r, g, b) = color_wheel(pos);
        assert!(r > 0 && g == 0 && b > 0);
    }
}

#[test]
fn apply_brightness_zero_turns_every_color_off() {
    for pos in 0..=u8::MAX {
        assert_eq!(apply_brightness(color_wheel(pos), 0), (0, 0, 0));
    }
    assert_eq!(apply_brightness((255, 255, 255), 0), (0, 0, 0));
    assert_eq!(apply_brightness((1, 128, 254), 0), (0, 0, 0));
}

#[test]
fn apply_brightness_full_keeps_every_color() {
    for pos in 0..=u8::MAX {
        let color = color_wheel(pos);
        assert_eq!(apply_brightness(color, 255), color);
    }
    for channel in 0..=u8::MAX {
        let color = (channel, 255 - channel, channel / 2);
        assert_eq!(apply_brightness(color, 255), color);
    }
}

#[test]
fn apply_brightness_exact_colors() {
    assert_eq!(apply_brightness((183, 72, 0), 45), (32, 12, 0));
    assert_eq!(apply_brightness((0, 174, 81), 204), (0, 139, 64));
    assert_eq!(apply_brightness((255, 255, 255), 128), (128, 128, 128));
    assert_eq!(apply_brightness((255, 255, 255), 254), (254, 254, 254));
    assert_eq!(apply_brightness((1, 2, 254), 254), (0, 1, 253));
    assert_eq!(apply_brightness((0, 9, 246), 236), (0, 8, 227));
}

#[test]
fn apply_brightness_never_brightens() {
    for brightness in 0..=u8::MAX {
        for channel in 0..=u8::MAX {
            let color = (channel, 255 - channel, 255);
            let scaled = apply_brightness(color, brightness);
            assert!(scaled.0 <= color.0 && scaled.1 <= color.1 && scaled.2 <= color.2);
            assert!(scaled.2 == brightness);
        }
    }
}
