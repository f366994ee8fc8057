use pixelframe::animation::AnimationState;
use pixelframe::animation::Direction;
use pixelframe::animation::INTENSITY_MAX;

#[test]
fn initial_state_is_dark_and_rising() {
    let s = AnimationState::init();
    assert_eq!(s.intensity, 0);
    assert_eq!(s.direction, Direction::Rising);
}

#[test]
fn intensity_stays_in_bounds_over_many_ticks() {
    let mut s = AnimationState::init();
    for _ in 0..1500 {
        let m = s.tick();
        assert!(m <= INTENSITY_MAX);
        assert!(s.intensity <= INTENSITY_MAX);
    }
}

#[test]
fn peak_at_tick_200_and_dark_again_at_tick_400() {
    let mut s = AnimationState::init();
    let mut at_200 = 0u32;
    for _ in 0..200 {
        at_200 = s.tick();
    }
    assert_eq!(at_200, INTENSITY_MAX);
    let mut at_400 = u32::MAX;
    for _ in 0..200 {
        at_400 = s.tick();
    }
    assert_eq!(at_400, 0);
    assert_eq!(s.direction, Direction::Rising);
}

#[test]
fn direction_flips_on_the_clamping_tick() {
    let mut s = AnimationState { intensity: 999, direction: Direction::Rising };
    let m = s.tick();
    assert_eq!(m, 1000);
    assert_eq!(s.intensity, 1000);
    assert_eq!(s.direction, Direction::Falling);
}

#[test]
fn direction_flips_at_the_bottom_too() {
    let mut s = AnimationState { intensity: 3, direction: Direction::Falling };
    let m = s.tick();
    assert_eq!(m, 0);
    assert_eq!(s.direction, Direction::Rising);
}

#[test]
fn plain_steps_keep_the_direction() {
    let mut s = AnimationState { intensity: 500, direction: Direction::Rising };
    assert_eq!(s.tick(), 505);
    assert_eq!(s.direction, Direction::Rising);
    let mut t = AnimationState { intensity: 500, direction: Direction::Falling };
    assert_eq!(t.tick(), 495);
    assert_eq!(t.direction, Direction::Falling);
}
