use pico_lights::remap::remap;

#[test]
fn test_remap() {
    let value = 5;
    let from_min = 0;
    let from_max = 10;
    let to_min = 0;
    let to_max = 100;
    let result = remap(value, from_min, from_max, to_min, to_max);
    assert_eq!(50, result);
}

#[test]
fn remap_low_end_is_exact() {
    assert_eq!(remap(0, 0, 4095, 0, 65535), 0);
    assert_eq!(remap(10, 10, 20, 300, 400), 300);
}

#[test]
fn remap_high_end_reaches_target() {
    assert_eq!(remap(4095, 0, 4095, 0, 65535), 65535);
    assert_eq!(remap(255, 0, 255, 0, 65532), 65532);
}

#[test]
fn remap_truncates_toward_zero() {
    assert_eq!(remap(2047, 0, 4095, 0, 65535), 32759);
    assert_eq!(remap(1, 0, 4095, 0, 65535), 16);
    assert_eq!(remap(128, 0, 255, 0, 65532), 32894);
}

#[test]
fn remap_with_offset_source_interval() {
    assert_eq!(remap(15, 10, 20, 0, 100), 50);
    assert_eq!(remap(20, 10, 20, 1000, 2000), 2000);
}

#[test]
fn remap_stays_in_range_and_is_monotonic() {
    let mut last = 0u16;
    for v in 0..=4095u16 {
        let r = remap(v, 0, 4095, 100, 60000);
        assert!(r >= 100 && r <= 60000);
        assert!(r >= last);
        last = r;
    }
}
