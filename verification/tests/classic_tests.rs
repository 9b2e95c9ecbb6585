use flappy::bird::{Tilt, Wing};
use flappy::classic::{
    bird_movement, pipe_movement, setup, spawn_pipes, ClassicBird, CLASSIC_FLAP, CLASSIC_GRAVITY,
    CLASSIC_PIPE_Y_ADJUST, CLASSIC_PIPE_Y_RANGE,
};
use flappy::state::AppState;
use flappy::units::{Position, SUBPIXELS};
use flappy::world::{Role, Texture, PIPE_GAP};

#[test]
fn classic_flight() {
    let mut b = ClassicBird { speed: 0 };
    let mut y: i64 = 0;
    let t = bird_movement(&mut b, &mut y, true);
    assert_eq!(y, CLASSIC_FLAP);
    assert_eq!(t, Tilt::Climb);
    assert_eq!(b.speed, 2_770_000_000);
    let t = bird_movement(&mut b, &mut y, false);
    assert_eq!(y, 2_900_000_000 + 2_770_000_000);
    assert_eq!(t, Tilt::Climb);
    assert_eq!(b.speed, 2_770_000_000 - CLASSIC_GRAVITY);
}

#[test]
fn classic_dive() {
    let mut b = ClassicBird { speed: -SUBPIXELS };
    let mut y: i64 = 0;
    assert_eq!(bird_movement(&mut b, &mut y, false), Tilt::Dive);
    assert_eq!(y, -SUBPIXELS);
    assert_eq!(b.speed, -1_130_000_000);
    let mut b = ClassicBird { speed: -SUBPIXELS + 1 };
    assert_eq!(bird_movement(&mut b, &mut y, false), Tilt::Climb);
    let mut b = ClassicBird { speed: i64::MIN + 1 };
    let mut y: i64 = 0;
    bird_movement(&mut b, &mut y, false);
    assert_eq!(b.speed, i64::MIN);
}

#[test]
fn classic_pipes_slide_and_go() {
    let mut xs = vec![0, -501 * SUBPIXELS, -500 * SUBPIXELS, 200 * SUBPIXELS, -500 * SUBPIXELS - 1];
    let gone = pipe_movement(&mut xs);
    assert_eq!(gone, vec![1, 4]);
    assert_eq!(xs, vec![-2 * SUBPIXELS, -501 * SUBPIXELS, -502 * SUBPIXELS, 198 * SUBPIXELS, -500 * SUBPIXELS - 1]);
}

#[test]
fn spawned_pipe_slides_then_goes() {
    let mut xs = vec![200 * SUBPIXELS];
    for n in 1..=351i64 {
        assert!(pipe_movement(&mut xs).is_empty());
        assert_eq!(xs[0], (200 - 2 * n) * SUBPIXELS);
    }
    assert_eq!(pipe_movement(&mut xs), vec![0]);
}

#[test]
fn classic_spawn_range() {
    assert!(spawn_pipes(false).is_none());
    for _ in 0..100 {
        let (bottom, top) = spawn_pipes(true).unwrap();
        let y = bottom.at.y;
        assert!(CLASSIC_PIPE_Y_ADJUST * SUBPIXELS <= y && y < (CLASSIC_PIPE_Y_ADJUST + CLASSIC_PIPE_Y_RANGE) * SUBPIXELS);
        assert_eq!(top.at.y, y + PIPE_GAP * SUBPIXELS);
        assert_eq!(bottom.at.z, 0);
        assert!(top.flip_y);
        assert_eq!((bottom.role, top.role), (Role::SlidingPipe, Role::SlidingPipe));
    }
}

#[test]
fn classic_setup_layout() {
    let s = setup();
    assert_eq!(s.frames, vec![Wing::Up, Wing::Mid, Wing::Down]);
    assert_eq!(s.bird_at, Position { x: 0, y: 0, z: 1 });
    assert_eq!(s.bird, ClassicBird { speed: 0 });
    assert_eq!(s.background.texture, Texture::Background);
    assert_eq!(s.background.role, Role::Background);
    assert_eq!(s.next, AppState::Playing);
}
