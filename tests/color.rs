use pico_lights::color::{
    gradient_duties, get_colors, remap_colors, wheel, Colors, COLOR_HIGH, GRADIENT_STEPS,
};
use pico_lights::random_color::{colors_from_draws, RandomColors, DRAW_BOUND};

fn channels(c: u32) -> (u32, u32, u32) {
    ((c >> 16) & 0xff, (c >> 8) & 0xff, c & 0xff)
}

#[test]
fn test_wheel() {
    let mut colors = Colors {
        red: 0,
        green: 0,
        blue: 0,
    };
    for i in 0..256 {
        get_colors(i, &mut colors);
    }
}

#[test]
fn wheel_at_arc_starts() {
    assert_eq!(wheel(0), (255 - 0) << 16 | 0 << 8);
    assert_eq!(wheel(0), 0xff0000);
    assert_eq!(wheel(85), 0x00ff00);
    assert_eq!(wheel(170), 0x0000ff);
    assert_eq!(wheel(42), (255 - 126) << 16 | 126 << 8);
    assert_eq!(wheel(100), (255 - 45) << 8 | 45);
    assert_eq!(wheel(200), 90 << 16 | (255 - 90));
}

#[test]
fn wheel_wraps_modulo_255() {
    assert_eq!(wheel(255), wheel(0));
    assert_eq!(wheel(300), wheel(45));
    assert_eq!(wheel(65535), wheel(0));
}

#[test]
fn wheel_is_continuous_and_never_black() {
    for p in 0..=255u16 {
        let (r, g, b) = channels(wheel(p));
        assert_eq!(r + g + b, 255);
        let (r2, g2, b2) = channels(wheel(p + 1));
        assert!(r.abs_diff(r2) <= 3 && g.abs_diff(g2) <= 3 && b.abs_diff(b2) <= 3);
    }
    let (r0, g0, b0) = channels(wheel(0));
    let (r1, g1, b1) = channels(wheel(255));
    assert!(r0.abs_diff(r1) <= 3 && g0.abs_diff(g1) <= 3 && b0.abs_diff(b1) <= 3);
}

#[test]
fn remap_colors_scales_bytes() {
    assert_eq!(remap_colors(0), 0);
    assert_eq!(remap_colors(255), 65532);
    assert_eq!(remap_colors(3), 770);
}

#[test]
fn get_colors_fills_all_channels() {
    let mut colors = Colors { red: 1, green: 1, blue: 1 };
    get_colors(0, &mut colors);
    assert_eq!(colors, Colors { red: 65532, green: 0, blue: 0 });
    get_colors(1, &mut colors);
    assert_eq!(colors, Colors { red: remap_colors(252), green: 770, blue: 0 });
    get_colors(170, &mut colors);
    assert_eq!(colors, Colors { red: 0, green: 0, blue: 65532 });
}

#[test]
fn gradient_duties_are_inverted() {
    assert_eq!(gradient_duties(0), Colors { red: 0, green: 65532, blue: 65532 });
    assert_eq!(gradient_duties(85), Colors { red: 65532, green: 0, blue: 65532 });
    for i in 0..GRADIENT_STEPS {
        let mut c = Colors { red: 0, green: 0, blue: 0 };
        get_colors(i, &mut c);
        let d = gradient_duties(i);
        assert_eq!(d.red, COLOR_HIGH - c.red);
        assert_eq!(d.green, COLOR_HIGH - c.green);
        assert_eq!(d.blue, COLOR_HIGH - c.blue);
    }
}

#[test]
fn colors_from_draws_inverts_each_draw() {
    assert_eq!(DRAW_BOUND, 16383);
    let c = colors_from_draws(0, 100, 16382);
    assert_eq!(c, Colors { red: 65532, green: 65432, blue: 49150 });
}

#[test]
fn random_colors_stay_bright() {
    let mut light = RandomColors::new(100);
    let mut all_top = true;
    for _ in 0..200 {
        let c = light.next_colors();
        for d in [c.red, c.green, c.blue] {
            assert!(d > COLOR_HIGH - DRAW_BOUND && d <= COLOR_HIGH);
            if d != COLOR_HIGH {
                all_top = false;
            }
        }
    }
    assert!(!all_top);
}

#[test]
fn random_colors_repeat_for_the_same_seed() {
    let mut a = RandomColors::new(100);
    let mut b = RandomColors::new(100);
    for _ in 0..50 {
        assert_eq!(a.next_colors(), b.next_colors());
    }
}
