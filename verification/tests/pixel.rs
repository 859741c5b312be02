use ws2812_anim::pixel::pack_grb;

#[test]
fn pack_grb_byte_layout() {
    let word = pack_grb(0x12, 0x34, 0x56);
    assert_eq!(word, 0x3412_5600);
    assert_eq!(word >> 24, 0x34);
    assert_eq!((word >> 16) & 0xff, 0x12);
    assert_eq!((word >> 8) & 0xff, 0x56);
    assert_eq!(word & 0xff, 0);
}

#[test]
fn pack_grb_single_channels() {
    assert_eq!(pack_grb(0, 0, 0), 0);
    assert_eq!(pack_grb(255, 0, 0), 0x00ff_0000);
    assert_eq!(pack_grb(0, 255, 0), 0xff00_0000);
    assert_eq!(pack_grb(0, 0, 255), 0x0000_ff00);
    assert_eq!(pack_grb(255, 255, 255), 0xffff_ff00);
    assert_eq!(pack_grb(1, 1, 1), 0x0101_0100);
}

#[test]
fn pack_grb_gives_every_channel_back() {
    for value in 0..=u8::MAX {
        let (r, g, b) = (value, value.wrapping_mul(7), 255 - value);
        let word = pack_grb(r, g, b);
        assert_eq!((word >> 24) as u8, g);
        assert_eq!((word >> 16) as u8, r);
        assert_eq!((word >> 8) as u8, b);
        assert_eq!(word as u8, 0);
    }
}
