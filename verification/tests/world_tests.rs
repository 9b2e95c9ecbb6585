use flappy::units::{Position, SUBPIXELS};
use flappy::world::{
    base_leapfrog, despawn_pipes, pipe_pair, setup, spawn_pipes, world_movement, Role, SpriteSpawn,
    Texture, BASE_OFFSCREEN_X, BASE_WIDTH, FOREGROUND_Z, PIPE_GAP, PIPE_OFFSCREEN_X, PIPE_Y_ADJUST,
    PIPE_Y_RANGE,
};

#[test]
fn world_setup_layout() {
    let s = setup();
    assert_eq!(s.len(), 3);
    assert_eq!(
        s[0],
        SpriteSpawn { texture: Texture::Background, at: Position { x: 0, y: 0, z: 0 }, flip_y: false, role: Role::Background }
    );
    assert_eq!(s[1].at, Position { x: 0, y: -260 * SUBPIXELS, z: 10 });
    assert_eq!(s[2].at, Position { x: 336 * SUBPIXELS, y: -260 * SUBPIXELS, z: 10 });
    assert_eq!(s[1].role, Role::Base);
    assert_eq!(s[2].texture, Texture::Base);
    assert_eq!(Texture::Base.path(), "sprites/base.png");
    assert_eq!(Texture::Background.path(), "sprites/background-day.png");
    assert_eq!(Texture::PipeGreen.path(), "sprites/pipe-green.png");
}

#[test]
fn thresholds() {
    assert_eq!(BASE_OFFSCREEN_X, -312);
    assert_eq!(PIPE_OFFSCREEN_X, -170);
}

fn at(x: i64, y: i64, z: i64) -> Position {
    Position { x, y, z }
}

#[test]
fn world_scrolls_left() {
    let mut parts = vec![at(0, 1, 10), at(336 * SUBPIXELS, -260 * SUBPIXELS, 10), at(-5, 7, 3)];
    // half a second at -125 px/s is 62.5 px
    world_movement(&mut parts, 500_000_000);
    assert_eq!(
        parts,
        vec![at(-62_500_000_000, 1, 10), at(273_500_000_000, -260 * SUBPIXELS, 10), at(-62_500_000_005, 7, 3)]
    );
    let mut empty: Vec<Position> = vec![];
    world_movement(&mut empty, 1);
    assert!(empty.is_empty());
}

#[test]
fn bases_leapfrog() {
    let y = -260 * SUBPIXELS;
    let mut parts = vec![
        at(-313 * SUBPIXELS, y, 10),
        at(-312 * SUBPIXELS, y, 10),
        at(-312 * SUBPIXELS - 1, 5, 2),
        at(24 * SUBPIXELS, y, 10),
    ];
    base_leapfrog(&mut parts);
    assert_eq!(
        parts,
        vec![
            at(BASE_WIDTH * SUBPIXELS, y, 10),
            at(-312 * SUBPIXELS, y, 10),
            at(BASE_WIDTH * SUBPIXELS, 5, 2),
            at(24 * SUBPIXELS, y, 10),
        ]
    );
    let again = parts.clone();
    base_leapfrog(&mut parts);
    assert_eq!(parts, again);
}

#[test]
fn bases_stay_on_the_ground() {
    let mut bases: Vec<Position> = setup().iter().filter(|s| s.role == Role::Base).map(|s| s.at).collect();
    assert_eq!(bases.len(), 2);
    for frame in 0..2000u64 {
        world_movement(&mut bases, 16_000_000 + frame);
        base_leapfrog(&mut bases);
        for b in &bases {
            assert_eq!((b.y, b.z), (-260 * SUBPIXELS, 10));
            assert!(b.x >= BASE_OFFSCREEN_X * SUBPIXELS);
        }
    }
}

#[test]
fn offscreen_pipes_despawn() {
    let xs = vec![-171 * SUBPIXELS, 0, -170 * SUBPIXELS, -170 * SUBPIXELS - 1, 200 * SUBPIXELS, -900 * SUBPIXELS];
    assert_eq!(despawn_pipes(&xs), vec![0, 3, 5]);
    assert_eq!(despawn_pipes(&vec![]), Vec::<usize>::new());
}

#[test]
fn pipe_pair_layout() {
    let (bottom, top) = pipe_pair(-300 * SUBPIXELS, FOREGROUND_Z, Role::Pipe);
    assert_eq!(bottom.at, Position { x: 200 * SUBPIXELS, y: -300 * SUBPIXELS, z: 10 });
    assert_eq!(top.at, Position { x: 200 * SUBPIXELS, y: 150 * SUBPIXELS, z: 10 });
    assert!(!bottom.flip_y && top.flip_y);
    assert_eq!(bottom.texture, Texture::PipeGreen);
    assert_eq!(top.role, Role::Pipe);
}

#[test]
fn spawned_pipes_lie_in_range() {
    assert!(spawn_pipes(false).is_none());
    let mut seen = std::collections::HashSet::new();
    for _ in 0..200 {
        let (bottom, top) = spawn_pipes(true).unwrap();
        let y = bottom.at.y;
        assert!(PIPE_Y_ADJUST * SUBPIXELS <= y && y < (PIPE_Y_ADJUST + PIPE_Y_RANGE) * SUBPIXELS);
        assert_eq!(top.at.y - y, PIPE_GAP * SUBPIXELS);
        assert_eq!(bottom.at.x, 200 * SUBPIXELS);
        assert_eq!((bottom.role, top.role), (Role::Pipe, Role::Pipe));
        seen.insert(y);
    }
    // the height is drawn, not fixed
    assert!(seen.len() > 1);
}
