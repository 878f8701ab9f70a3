use garland::garland::{dark_frame, max, max2, no_pastel, shift_in, Color, ColorFrame, LED_NUMBER};
use garland::generator::{ColorGenerator, COLOR_AMPLITUDE, RNG_SEED};

fn rgb(r: u8, g: u8, b: u8) -> Color {
    Color { r, g, b }
}

fn numbered(n: usize) -> Color {
    rgb((n % 256) as u8, (n / 256) as u8, 7)
}

#[test]
fn no_pastel_red_dominant() {
    assert_eq!(no_pastel(rgb(200, 50, 50)), rgb(200, 16, 16));
}

#[test]
fn no_pastel_green_dominant() {
    assert_eq!(no_pastel(rgb(50, 200, 50)), rgb(16, 200, 16));
}

#[test]
fn no_pastel_blue_dominant_divides_by_four() {
    assert_eq!(no_pastel(rgb(50, 50, 200)), rgb(12, 12, 200));
}

#[test]
fn no_pastel_tie_goes_to_red() {
    assert_eq!(no_pastel(rgb(100, 100, 100)), rgb(100, 33, 33));
    assert_eq!(no_pastel(rgb(90, 90, 30)), rgb(90, 30, 10));
}

#[test]
fn no_pastel_green_blue_tie_goes_to_green() {
    assert_eq!(no_pastel(rgb(30, 90, 90)), rgb(10, 90, 30));
}

#[test]
fn no_pastel_dark_stays_dark() {
    assert_eq!(no_pastel(rgb(0, 0, 0)), rgb(0, 0, 0));
}

#[test]
fn max_picks_largest() {
    assert_eq!(max(3, 9, 5), 9);
    assert_eq!(max(255, 0, 0), 255);
    assert_eq!(max(1, 2, 3), 3);
    assert_eq!(max2(4, 4), 4);
    assert_eq!(max2(0, 1), 1);
}

#[test]
fn default_color_is_dark() {
    assert_eq!(Color::default(), rgb(0, 0, 0));
    assert!(dark_frame().iter().all(|c| *c == Color::default()));
}

#[test]
fn shift_moves_every_color_back_one_place() {
    let mut frame: ColorFrame = dark_frame();
    for i in 0..LED_NUMBER {
        frame[i] = numbered(i);
    }
    let before = frame;
    let fresh = rgb(1, 2, 3);
    shift_in(&mut frame, fresh);
    assert_eq!(frame[0], fresh);
    for i in 1..LED_NUMBER {
        assert_eq!(frame[i], before[i - 1]);
    }
}

#[test]
fn frame_copy_is_independent() {
    let mut frame = dark_frame();
    let sent = frame;
    shift_in(&mut frame, rgb(9, 9, 9));
    assert_eq!(sent[0], rgb(0, 0, 0));
    assert_eq!(frame[0], rgb(9, 9, 9));
}

#[test]
fn full_refill_reverses_arrival_order() {
    let mut frame = dark_frame();
    shift_in(&mut frame, rgb(250, 250, 250));
    for n in 0..LED_NUMBER {
        shift_in(&mut frame, numbered(n));
    }
    for i in 0..LED_NUMBER {
        assert_eq!(frame[i], numbered(LED_NUMBER - 1 - i));
    }
}

#[test]
fn one_color_then_a_full_strip_from_dark() {
    let mut frame = dark_frame();
    let first = rgb(5, 6, 7);
    shift_in(&mut frame, first);
    assert_eq!(frame[0], first);
    assert!(frame[1..].iter().all(|c| *c == Color::default()));
    for n in 1..LED_NUMBER {
        shift_in(&mut frame, numbered(n));
    }
    assert_eq!(frame[LED_NUMBER - 1], first);
    assert_eq!(frame[0], numbered(LED_NUMBER - 1));
}

#[test]
fn seeded_raw_colors_are_pinned() {
    let mut generator = ColorGenerator::new(RNG_SEED, COLOR_AMPLITUDE);
    let expected = [
        rgb(7, 8, 2),
        rgb(1, 5, 7),
        rgb(6, 5, 3),
        rgb(7, 6, 7),
        rgb(3, 1, 4),
        rgb(7, 6, 5),
    ];
    for e in expected.iter() {
        assert_eq!(generator.next_raw(), *e);
    }
}

#[test]
fn seeded_sequence_is_reproducible() {
    let mut one = ColorGenerator::new(RNG_SEED, COLOR_AMPLITUDE);
    let mut two = ColorGenerator::new(RNG_SEED, COLOR_AMPLITUDE);
    for _ in 0..100 {
        assert_eq!(one.next_raw(), two.next_raw());
    }
}

#[test]
fn next_color_is_dampened_draw() {
    let mut raw = ColorGenerator::new(RNG_SEED, COLOR_AMPLITUDE);
    let mut cooked = ColorGenerator::new(RNG_SEED, COLOR_AMPLITUDE);
    assert_eq!(cooked.next_color(), rgb(2, 8, 0));
    raw.next_raw();
    for _ in 0..100 {
        assert_eq!(cooked.next_color(), no_pastel(raw.next_raw()));
    }
}

#[test]
fn draws_stay_below_amplitude() {
    let mut generator = ColorGenerator::new(7, 3);
    let mut seen = [false; 3];
    for _ in 0..200 {
        let c = generator.next_raw();
        assert!(c.r < 3 && c.g < 3 && c.b < 3);
        seen[c.r as usize] = true;
    }
    assert!(seen.iter().all(|s| *s));
    let mut wide = ColorGenerator::new(1, 256);
    for _ in 0..200 {
        wide.next_raw();
    }
}

#[test]
fn different_seeds_give_different_sequences() {
    let mut one = ColorGenerator::new(RNG_SEED, COLOR_AMPLITUDE);
    let mut two = ColorGenerator::new(RNG_SEED + 1, COLOR_AMPLITUDE);
    let mut differ = false;
    for _ in 0..20 {
        if one.next_raw() != two.next_raw() {
            differ = true;
        }
    }
    assert!(differ);
}
