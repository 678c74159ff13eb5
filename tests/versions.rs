use ft60x_rs::version::Version;

fn pack(a: u8, b: u8, c: u8, d: u8) -> u32 {
    (a as u32) << 24 | (b as u32) << 16 | (c as u32) << 8 | d as u32
}

#[test]
fn version_decodes_bytes() {
    let v = Version::new(0x0102_0304);
    assert_eq!(v.major(), 1);
    assert_eq!(v.minor(), 2);
    assert_eq!(v.svn(), 3);
    assert_eq!(v.build(), 4);
}

#[test]
fn version_round_trip_boundaries() {
    let cases = [
        (0x00, 0x00, 0x00, 0x00),
        (0xFF, 0xFF, 0xFF, 0xFF),
        (0xFF, 0x00, 0xFF, 0x00),
        (0x00, 0xFF, 0x00, 0xFF),
        (0x01, 0x80, 0x7F, 0xFE),
    ];
    for (a, b, c, d) in cases {
        let v = Version::new(pack(a, b, c, d));
        assert_eq!((v.major(), v.minor(), v.svn(), v.build()), (a, b, c, d));
    }
}

#[test]
fn version_round_trip_each_byte() {
    for x in 0..=255u8 {
        let v = Version::new(pack(x, 255 - x, x, 255 - x));
        assert_eq!(v, Version { major: x, minor: 255 - x, svn: x, build: 255 - x });
    }
}

#[test]
fn version_ordering() {
    assert!(Version::new(0x0102_0000) < Version::new(0x0103_0000));
    assert!(Version::new(0x0200_0000) > Version::new(0x01FF_FFFF));
}
