use limbo::animation::{Eased, Easing, Lerpable, ANIMATION_TICKRATE, UNIT};

/// A colour of three whole channels, blended channel by channel.
#[derive(Clone, Copy, Debug, PartialEq)]
struct Rgb {
    r: i32,
    g: i32,
    b: i32,
}

impl Lerpable for Rgb {
    fn lerp(start: &Self, end: &Self, factor: u32) -> Self {
        Rgb {
            r: <i32 as Lerpable>::lerp(&start.r, &end.r, factor),
            g: <i32 as Lerpable>::lerp(&start.g, &end.g, factor),
            b: <i32 as Lerpable>::lerp(&start.b, &end.b, factor),
        }
    }
}

#[test]
fn tick_interval_is_a_sixtieth_of_a_second_in_whole_milliseconds() {
    assert_eq!(ANIMATION_TICKRATE, 16);
    assert_eq!(UNIT, 1_000_000);
}

#[test]
fn new_value_rests_on_its_initial_target() {
    let eased = Eased::new(1, Easing::Linear, 100, &[5_000, 11_000]);
    assert_eq!(eased.get(), 11_000);
    assert!(!eased.is_running());
    assert_eq!(eased.target_idx(), 1);

    let eased = Eased::new(0, Easing::Smoothstep, 100, &[5_000, 11_000]);
    assert_eq!(eased.get(), 5_000);
    assert!(!eased.is_running());
}

#[test]
fn new_value_of_a_colour_rests_on_its_initial_target() {
    let grey = Rgb { r: 88, g: 91, b: 112 };
    let blue = Rgb { r: 137, g: 180, b: 250 };
    let eased = Eased::new(2, Easing::Smoothstep, 100, &[grey, grey, blue]);
    assert_eq!(eased.get(), blue);
    assert!(!eased.is_running());
}

#[test]
fn update_changes_nothing_once_settled() {
    let mut eased = Eased::new(1, Easing::Linear, 100, &[5_000, 11_000]);
    for _ in 0..10 {
        eased.update();
        assert_eq!(eased.get(), 11_000);
        assert!(!eased.is_running());
    }
}

#[test]
fn aiming_at_the_target_it_rests_on_starts_nothing() {
    let mut eased = Eased::new(1, Easing::Linear, 100, &[5_000, 11_000]);
    eased.set_target_idx(1);
    assert!(!eased.is_running());
    assert_eq!(eased.get(), 11_000);
    let eased = eased.with_target_idx(1);
    assert!(!eased.is_running());
    assert_eq!(eased.get(), 11_000);
}

#[test]
fn a_new_target_starts_a_transition_from_the_value_on_display() {
    let mut eased = Eased::new(0, Easing::Linear, 100, &[5_000, 11_000]);
    eased.set_target_idx(1);
    assert!(eased.is_running());
    assert_eq!(eased.target_idx(), 1);
    assert_eq!(eased.get(), 5_000);
}

#[test]
fn linear_transition_of_a_tenth_of_a_second_takes_seven_ticks() {
    let mut eased = Eased::new(0, Easing::Linear, 100, &[5_000, 11_000]);
    eased.set_target_idx(1);
    // Each tick adds 16/100 of the way: 960 of 6000 thousandths.
    let expected = [5_960, 6_920, 7_880, 8_840, 9_800, 10_760];
    for value in expected {
        eased.update();
        assert!(eased.is_running());
        assert_eq!(eased.get(), value);
    }
    eased.update();
    assert!(!eased.is_running());
    assert_eq!(eased.get(), 11_000);
}

#[test]
fn redirection_in_mid_transition_does_not_jump() {
    let mut eased = Eased::new(0, Easing::Linear, 100, &[0, 1_000, 4_000]);
    eased.set_target_idx(1);
    eased.update();
    eased.update();
    let shown = eased.get();
    assert_eq!(shown, 320);
    eased.set_target_idx(2);
    assert!(eased.is_running());
    assert_eq!(eased.get(), shown);
    eased.update();
    // 16/100 of the way from 320 to 4000, rounded towards the start.
    assert_eq!(eased.get(), 320 + 588);
    for _ in 0..6 {
        eased.update();
    }
    assert!(!eased.is_running());
    assert_eq!(eased.get(), 4_000);
}

#[test]
fn aiming_again_at_the_same_target_in_mid_transition_restarts_from_the_value_on_display() {
    let mut eased = Eased::new(0, Easing::Linear, 100, &[0, 1_000]);
    eased.set_target_idx(1);
    eased.update();
    assert_eq!(eased.get(), 160);
    eased.set_target_idx(1);
    assert!(eased.is_running());
    assert_eq!(eased.get(), 160);
    eased.update();
    assert_eq!(eased.get(), 160 + 134);
}

#[test]
fn transition_towards_a_smaller_value_rounds_towards_its_start() {
    let mut eased = Eased::new(1, Easing::Linear, 100, &[5_000, 11_000]);
    eased.set_target_idx(0);
    eased.update();
    assert_eq!(eased.get(), 10_040);
    for _ in 0..6 {
        eased.update();
    }
    assert_eq!(eased.get(), 5_000);
    assert!(!eased.is_running());
}

#[test]
fn zero_duration_settles_in_one_tick() {
    let mut eased = Eased::new(0, Easing::Linear, 0, &[0, 1_000]);
    eased.set_target_idx(1);
    assert!(eased.is_running());
    eased.update();
    assert!(!eased.is_running());
    assert_eq!(eased.get(), 1_000);
}

#[test]
fn short_duration_settles_in_one_tick() {
    let mut eased = Eased::new(0, Easing::Linear, 10, &[0, 1_000]);
    eased.set_target_idx(1);
    eased.update();
    assert!(!eased.is_running());
}

#[test]
fn very_long_transition_still_advances() {
    let mut eased = Eased::new(0, Easing::Linear, u32::MAX, &[0, 2_000_000]);
    eased.set_target_idx(1);
    eased.update();
    eased.update();
    assert!(eased.is_running());
    // The slowest speed is one millionth per tick.
    assert_eq!(eased.get(), 4);
}

#[test]
fn ease_is_exact_at_both_ends() {
    for easing in [Easing::Linear, Easing::Smoothstep] {
        assert_eq!(easing.ease(0), 0);
        assert_eq!(easing.ease(UNIT), UNIT);
    }
}

#[test]
fn linear_ease_is_the_identity() {
    assert_eq!(Easing::Linear.ease(1), 1);
    assert_eq!(Easing::Linear.ease(250_000), 250_000);
    assert_eq!(Easing::Linear.ease(999_999), 999_999);
}

#[test]
fn smoothstep_values() {
    // x²(3 − 2x) at a quarter, a half and three quarters.
    assert_eq!(Easing::Smoothstep.ease(250_000), 156_250);
    assert_eq!(Easing::Smoothstep.ease(500_000), 500_000);
    assert_eq!(Easing::Smoothstep.ease(750_000), 843_750);
    assert_eq!(Easing::Smoothstep.ease(160_000), 68_608);
    assert_eq!(Easing::Smoothstep.ease(1), 0);
    assert_eq!(Easing::Smoothstep.ease(999_999), 999_999);
}

#[test]
fn smoothstep_never_falls() {
    let mut last = 0;
    let mut x = 0;
    while x <= UNIT {
        let y = Easing::Smoothstep.ease(x);
        assert!(y >= last);
        assert!(y <= UNIT);
        last = y;
        x += 997;
    }
}

#[test]
fn scalar_blend_is_exact_at_both_ends() {
    assert_eq!(<i32 as Lerpable>::lerp(&5_000, &11_000, 0), 5_000);
    assert_eq!(<i32 as Lerpable>::lerp(&5_000, &11_000, UNIT), 11_000);
    assert_eq!(<i32 as Lerpable>::lerp(&11_000, &5_000, 0), 11_000);
    assert_eq!(<i32 as Lerpable>::lerp(&11_000, &5_000, UNIT), 5_000);
    assert_eq!(<i32 as Lerpable>::lerp(&i32::MIN, &i32::MAX, UNIT), i32::MAX);
    assert_eq!(<i32 as Lerpable>::lerp(&i32::MAX, &i32::MIN, UNIT), i32::MIN);
    assert_eq!(<i32 as Lerpable>::lerp(&i32::MIN, &i32::MAX, 0), i32::MIN);
}

#[test]
fn scalar_blend_values() {
    assert_eq!(<i32 as Lerpable>::lerp(&5_000, &11_000, UNIT / 2), 8_000);
    assert_eq!(<i32 as Lerpable>::lerp(&0, &10, 250_000), 2);
    assert_eq!(<i32 as Lerpable>::lerp(&10, &0, 250_000), 8);
    assert_eq!(<i32 as Lerpable>::lerp(&-10, &10, 500_000), 0);
    assert_eq!(<i32 as Lerpable>::lerp(&7, &7, 123_456), 7);
    assert_eq!(<i32 as Lerpable>::lerp(&i32::MIN, &i32::MAX, 500_000), -1);
}

#[test]
fn colour_transition_follows_smoothstep() {
    let black = Rgb { r: 0, g: 0, b: 0 };
    let white = Rgb { r: 1_000_000, g: 1_000_000, b: 1_000_000 };
    let mut eased = Eased::new(0, Easing::Smoothstep, 100, &[black, white]);
    eased.set_target_idx(1);
    eased.update();
    assert_eq!(eased.get(), Rgb { r: 68_608, g: 68_608, b: 68_608 });
}

#[test]
fn clone_keeps_the_state_of_a_transition() {
    let mut eased = Eased::new(0, Easing::Linear, 100, &[0, 1_000]);
    eased.set_target_idx(1);
    eased.update();
    let mut copy = eased.clone();
    assert_eq!(copy.get(), eased.get());
    assert_eq!(copy.is_running(), eased.is_running());
    copy.update();
    eased.update();
    assert_eq!(copy.get(), eased.get());
}
