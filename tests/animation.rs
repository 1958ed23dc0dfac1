use pico_lights::breathing::{breathing_duty, breathing_period, BREATH_HIGH, BREATH_LOW};
use pico_lights::meteor::{
    chase_led, meteor_curve, meteor_frame, trail_frame, TRAIL_CHANNELS, TRAIL_FRAMES,
};

#[test]
fn meteor_curve_has_its_samples() {
    let c = meteor_curve();
    assert_eq!(c.len(), 29);
    assert_eq!(&c[9..19], &[0, 4095, 2047, 1023, 512, 256, 64, 32, 16, 8]);
}

#[test]
fn meteor_forward_frames() {
    assert_eq!(meteor_frame(0), vec![0u16; 10]);
    let f1 = meteor_frame(1);
    assert_eq!(f1.len(), TRAIL_CHANNELS);
    assert_eq!(f1[9], 65535);
    assert_eq!(&f1[0..9], &[0u16; 9]);
    let f10 = meteor_frame(10);
    assert_eq!(f10[0], 65535);
    assert_eq!(f10[1], 32759);
    assert_eq!(f10[9], 0);
}

#[test]
fn meteor_reverse_pass_mirrors_forward_pass() {
    for i in 0..TRAIL_FRAMES {
        let mut forward = meteor_frame(i);
        forward.reverse();
        assert_eq!(meteor_frame(TRAIL_FRAMES + i), forward);
    }
    assert_eq!(meteor_frame(TRAIL_FRAMES + 1)[0], 65535);
}

#[test]
fn trail_frame_on_a_short_curve() {
    let curve = vec![0u16, 4095, 0, 4095];
    assert_eq!(trail_frame(&curve, 0, 3, false), vec![0, 65535, 0]);
    assert_eq!(trail_frame(&curve, 1, 3, false), vec![65535, 0, 65535]);
    assert_eq!(trail_frame(&curve, 0, 2, true), vec![65535, 0]);
}

#[test]
fn breathing_cycle_endpoints() {
    assert_eq!(breathing_period(BREATH_LOW, BREATH_HIGH), 131070);
    assert_eq!(breathing_duty(0, BREATH_LOW, BREATH_HIGH), 0);
    assert_eq!(breathing_duty(65534, BREATH_LOW, BREATH_HIGH), 65534);
    assert_eq!(breathing_duty(65535, BREATH_LOW, BREATH_HIGH), 65535);
    assert_eq!(breathing_duty(65536, BREATH_LOW, BREATH_HIGH), 65534);
    assert_eq!(breathing_duty(131069, BREATH_LOW, BREATH_HIGH), 1);
}

#[test]
fn breathing_cycle_is_a_triangle() {
    let period = breathing_period(10, 14);
    let seq: Vec<u16> = (0..period).map(|k| breathing_duty(k, 10, 14)).collect();
    assert_eq!(seq, vec![10, 11, 12, 13, 14, 13, 12, 11]);
    let full: Vec<u16> = (0..breathing_period(BREATH_LOW, BREATH_HIGH))
        .map(|k| breathing_duty(k, BREATH_LOW, BREATH_HIGH))
        .collect();
    assert_eq!(full.iter().filter(|&&d| d == BREATH_LOW).count(), 1);
    assert_eq!(full.iter().filter(|&&d| d == BREATH_HIGH).count(), 1);
}

#[test]
fn chase_runs_down_then_up() {
    let order: Vec<usize> = (0..20).map(|s| chase_led(s, 10)).collect();
    assert_eq!(
        order,
        vec![9, 8, 7, 6, 5, 4, 3, 2, 1, 0, 0, 1, 2, 3, 4, 5, 6, 7, 8, 9]
    );
}
