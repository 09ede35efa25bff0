use piet_cairo::color::{premul, unpack_rgba, Rgba8};

fn reference(x: u8, a: u8) -> u8 {
    let y = (x as u32) * (a as u32);
    ((y + (y >> 8) + 0x80) >> 8) as u8
}

#[test]
fn premul_of_full_channel_and_full_alpha_is_full() {
    assert_eq!(premul(255, 255), 255);
}

#[test]
fn premul_of_full_channel_and_half_alpha_is_128() {
    assert_eq!(premul(255, 128), 128);
}

#[test]
fn premul_of_half_and_half_is_64() {
    assert_eq!(premul(128, 128), 64);
}

#[test]
fn premul_of_zero_channel_is_zero() {
    for a in 0..=255u8 {
        assert_eq!(premul(0, a), 0);
    }
}

#[test]
fn premul_by_zero_alpha_is_zero() {
    for x in 0..=255u8 {
        assert_eq!(premul(x, 0), 0);
    }
}

#[test]
fn premul_by_full_alpha_keeps_the_channel() {
    for x in 0..=255u8 {
        assert_eq!(premul(x, 255), x);
        assert_eq!(premul(255, x), x);
    }
}

#[test]
fn premul_follows_the_fixed_point_formula_everywhere() {
    for x in 0..=255u8 {
        for a in 0..=255u8 {
            assert_eq!(premul(x, a), reference(x, a));
        }
    }
}

#[test]
fn premul_rounds_down_where_the_formula_does() {
    // 152 * 229 / 255 is 136.502; to the nearest it would be 137.
    assert_eq!(premul(152, 229), 136);
}

#[test]
fn premul_never_exceeds_channel_or_alpha() {
    for x in 0..=255u8 {
        for a in 0..=255u8 {
            let r = premul(x, a);
            assert!(r <= x && r <= a);
        }
    }
}

#[test]
fn unpack_rgba_takes_red_from_the_top_byte() {
    assert_eq!(unpack_rgba(0x11223344), Rgba8 { r: 0x11, g: 0x22, b: 0x33, a: 0x44 });
}

#[test]
fn unpack_rgba_of_extremes() {
    assert_eq!(unpack_rgba(0), Rgba8 { r: 0, g: 0, b: 0, a: 0 });
    assert_eq!(unpack_rgba(0xffff_ffff), Rgba8 { r: 255, g: 255, b: 255, a: 255 });
    assert_eq!(unpack_rgba(0xff00_0080), Rgba8 { r: 255, g: 0, b: 0, a: 128 });
}
