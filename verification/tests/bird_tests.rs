use flappy::bird::{
    bird_animation, bird_flap, bird_gravity, bird_movement, flap_frame, setup, Bird, Tilt, Wing,
    DIVE_SPEED, FLAP, GRAVITY,
};
use flappy::units::{Position, SUBPIXELS};

#[test]
fn wing_beat_cycles_through_frames() {
    let mut ix: usize = 0;
    let mut sprite: usize = 7;
    let mut shown = Vec::new();
    for _ in 0..8 {
        bird_animation(true, &mut ix, &mut sprite);
        shown.push(sprite);
    }
    assert_eq!(shown, vec![2, 1, 2, 0, 2, 1, 2, 0]);
    assert_eq!(ix, 0);
}

#[test]
fn wing_beat_waits_for_timer() {
    let mut ix: usize = 3;
    let mut sprite: usize = 1;
    bird_animation(false, &mut ix, &mut sprite);
    assert_eq!((ix, sprite), (3, 1));
    bird_animation(true, &mut ix, &mut sprite);
    assert_eq!((ix, sprite), (0, 0));
}

#[test]
fn flap_frames_are_in_the_sheet() {
    assert_eq!([flap_frame(0), flap_frame(1), flap_frame(2), flap_frame(3)], [2, 1, 2, 0]);
}

#[test]
fn gravity_and_flap() {
    let mut b = Bird::default();
    assert_eq!(b.speed, 0);
    bird_gravity(&mut b);
    assert_eq!(b.speed, -GRAVITY);
    bird_flap(&mut b, false);
    assert_eq!(b.speed, -10);
    bird_flap(&mut b, true);
    assert_eq!(b.speed, FLAP);
    bird_gravity(&mut b);
    assert_eq!(b.speed, 290);
}

#[test]
fn gravity_repeated_from_a_flap() {
    let mut b = Bird { speed: FLAP };
    for n in 1..=1000i64 {
        let before = b.speed;
        bird_gravity(&mut b);
        assert_eq!(b.speed, 300 - 10 * n);
        assert!(b.speed < before);
    }
}

#[test]
fn gravity_stops_at_the_bottom_of_i64() {
    let mut b = Bird { speed: i64::MIN + 3 };
    bird_gravity(&mut b);
    assert_eq!(b.speed, i64::MIN);
    let mut b = Bird { speed: i64::MIN + 10 };
    bird_gravity(&mut b);
    assert_eq!(b.speed, i64::MIN);
}

#[test]
fn movement_is_speed_times_time() {
    // 300 px/s for a sixtieth of a second (16_666_667 ns) is 5 px and a bit.
    let b = Bird { speed: 300 };
    let mut y: i64 = 0;
    let t = bird_movement(&b, &mut y, 16_666_667);
    assert_eq!(y, 300 * 16_666_667);
    assert_eq!(t, Tilt::Climb);
    // falling one second at -400 px/s
    let b = Bird { speed: -400 };
    let mut y: i64 = 100 * SUBPIXELS;
    let t = bird_movement(&b, &mut y, 1_000_000_000);
    assert_eq!(y, -300 * SUBPIXELS);
    assert_eq!(t, Tilt::Dive);
}

#[test]
fn dive_threshold_is_exclusive() {
    let mut y: i64 = 0;
    assert_eq!(bird_movement(&Bird { speed: DIVE_SPEED }, &mut y, 0), Tilt::Dive);
    assert_eq!(bird_movement(&Bird { speed: DIVE_SPEED + 1 }, &mut y, 0), Tilt::Climb);
    assert_eq!(y, 0);
}

#[test]
fn bird_setup_layout() {
    let s = setup();
    assert_eq!(s.frames, vec![Wing::Up, Wing::Mid, Wing::Down]);
    assert_eq!(s.at, Position { x: 0, y: 0, z: 1 });
    assert_eq!(s.bird, Bird { speed: 0 });
    assert_eq!(Wing::Up.path(), "sprites/bluebird-upflap.png");
    assert_eq!(Wing::Mid.path(), "sprites/bluebird-midflap.png");
    assert_eq!(Wing::Down.path(), "sprites/bluebird-downflap.png");
}
