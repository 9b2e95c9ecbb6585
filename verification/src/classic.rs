//! A simpler variant of the game, in which the bird's flight is counted in
//! frames rather than seconds, and pipes slide by a fixed step per frame.
use vstd::prelude::*;
use crate::units::{Position, SUBPIXELS};
use crate::bird::{Tilt, Wing};
use crate::state::AppState;
use crate::world::{SpriteSpawn, Texture, Role, picks_exactly, spec_pipe_pair, pipe_pair, PIPE_SPAWN_X};
use crate::rng::random_in;

verus! {

/// Speed lost to gravity on every frame: 0.13 pixels per frame, in subpixels.
pub const CLASSIC_GRAVITY: i64 = 130_000_000;

/// Upward speed that a flap gives: 2.9 pixels per frame, in subpixels.
pub const CLASSIC_FLAP: i64 = 2_900_000_000;

/// Down to this speed (exclusive) the bird keeps its nose up: -1 pixel per
/// frame, in subpixels.
pub const CLASSIC_DIVE_SPEED: i64 = -1_000_000_000;

/// Period of the wing-beat timer, in milliseconds.
pub const CLASSIC_FLAP_PERIOD_MILLIS: u64 = 100;

/// Period of the pipe timer, in milliseconds.
pub const CLASSIC_PIPE_SPAWN_MILLIS: u64 = 1250;

/// Lowest height of the lower pipe of a pair, in pixels.
pub const CLASSIC_PIPE_Y_ADJUST: i64 = -340;

/// Span of heights that the lower pipe is drawn from, in pixels.
pub const CLASSIC_PIPE_Y_RANGE: i64 = 256;

/// Drawing layer of the pipes.
pub const CLASSIC_PIPE_Z: i64 = 0;

/// A pipe left of this, in pixels, is removed.
pub const CLASSIC_PIPE_DESPAWN_X: i64 = -500;

/// How far the pipes slide on each frame, in pixels.
pub const CLASSIC_PIPE_STEP: i64 = 2;

/// The bird: its vertical speed in subpixels per frame, upward positive.
#[derive(Clone, Copy, Debug, PartialEq, Eq, Structural)]
pub struct ClassicBird {
    pub speed: i64,
}

/// The speed after the frame's gravity. It cannot go below what an `i64`
/// holds; there it stays.
pub open spec fn classic_after_gravity(speed: i64) -> i64 {
    if speed - CLASSIC_GRAVITY >= i64::MIN { (speed - CLASSIC_GRAVITY) as i64 } else { i64::MIN }
}

/// The speed with which the bird moves in a frame: `CLASSIC_FLAP` while space
/// is held, else the speed it had.
pub open spec fn classic_flight_speed(speed: i64, space_pressed: bool) -> i64 {
    if space_pressed { CLASSIC_FLAP } else { speed }
}

/// One frame of flight: space sets the speed to `CLASSIC_FLAP`; the bird moves
/// by its speed; it is drawn nose up unless it falls faster than
/// `CLASSIC_DIVE_SPEED`; then gravity takes `CLASSIC_GRAVITY` off its speed.
pub fn bird_movement(bird: &mut ClassicBird, y: &mut i64, space_pressed: bool) -> (tilt: Tilt)
    requires
        i64::MIN <= *old(y) + classic_flight_speed(old(bird).speed, space_pressed) <= i64::MAX,
    ensures
        *final(y) == *old(y) + classic_flight_speed(old(bird).speed, space_pressed),
        tilt == (if classic_flight_speed(old(bird).speed, space_pressed) > CLASSIC_DIVE_SPEED {
            Tilt::Climb
        } else {
            Tilt::Dive
        }),
        final(bird).speed == classic_after_gravity(classic_flight_speed(old(bird).speed, space_pressed)),
{
    if space_pressed {
        bird.speed = CLASSIC_FLAP;
    }
    *y = *y + bird.speed;
    let tilt = if bird.speed > CLASSIC_DIVE_SPEED { Tilt::Climb } else { Tilt::Dive };
    if bird.speed >= i64::MIN + CLASSIC_GRAVITY {
        bird.speed = bird.speed - CLASSIC_GRAVITY;
    } else {
        bird.speed = i64::MIN;
    }
    tilt
}

/// Whether a pipe at `x` subpixels is removed.
pub open spec fn classic_pipe_gone(x: i64) -> bool {
    x < CLASSIC_PIPE_DESPAWN_X * SUBPIXELS
}

/// Where a pipe at `x` subpixels is after the frame: it slides left by
/// `CLASSIC_PIPE_STEP`, unless it is removed.
pub open spec fn classic_pipe_moved(x: i64) -> i64 {
    if classic_pipe_gone(x) { x } else { (x - CLASSIC_PIPE_STEP * SUBPIXELS) as i64 }
}

/// Pipe movement: pipes far left of the screen are removed (their indices are
/// returned, in order); every other pipe slides left by `CLASSIC_PIPE_STEP`.
pub fn pipe_movement(xs: &mut Vec<i64>) -> (doomed: Vec<usize>)
    ensures
        final(xs)@.len() == old(xs)@.len(),
        forall|i: int| 0 <= i < old(xs)@.len() ==> #[trigger] final(xs)@[i] == classic_pipe_moved(old(xs)@[i]),
        picks_exactly(old(xs)@, doomed@, |x: i64| classic_pipe_gone(x)),
        forall|i: int|
            0 <= i < old(xs)@.len() && old(xs)@[i] < -500 * SUBPIXELS ==> doomed@.contains(i as usize)
                && final(xs)@[i] == old(xs)@[i],
        forall|i: int|
            0 <= i < old(xs)@.len() && old(xs)@[i] >= -500 * SUBPIXELS ==> final(xs)@[i] == old(xs)@[i] - 2
                * SUBPIXELS,
        forall|k: int|
            0 <= k < doomed@.len() ==> (#[trigger] doomed@[k]) < old(xs)@.len() && old(xs)@[doomed@[k] as int]
                < -500 * SUBPIXELS,
        forall|k1: int, k2: int| 0 <= k1 < k2 < doomed@.len() ==> doomed@[k1] < doomed@[k2],
{
    let ghost start = xs@;
    let mut doomed: Vec<usize> = Vec::new();
    let mut i: usize = 0;
    while i < xs.len()
        invariant
            xs@.len() == start.len(),
            i <= start.len(),
            forall|j: int| 0 <= j < i ==> #[trigger] xs@[j] == classic_pipe_moved(start[j]),
            forall|j: int| i <= j < start.len() ==> #[trigger] xs@[j] == start[j],
            forall|k: int|
                0 <= k < doomed@.len() ==> (#[trigger] doomed@[k]) < i && classic_pipe_gone(start[doomed@[k] as int]),
            forall|k1: int, k2: int| 0 <= k1 < k2 < doomed@.len() ==> doomed@[k1] < doomed@[k2],
            forall|j: int| 0 <= j < i && classic_pipe_gone(#[trigger] start[j]) ==> doomed@.contains(j as usize),
        decreases start.len() - i,
    {
        let x = xs[i];
        let ghost before = doomed@;
        if x < CLASSIC_PIPE_DESPAWN_X * SUBPIXELS {
            doomed.push(i);
            assert forall|j: int| 0 <= j <= i && classic_pipe_gone(#[trigger] start[j]) implies doomed@.contains(
                j as usize,
            ) by {
                if j < i {
                    let k = choose|k: int| 0 <= k < before.len() && before[k] == j as usize;
                    assert(doomed@[k] == j as usize);
                } else {
                    assert(doomed@[doomed@.len() - 1] == j as usize);
                }
            }
        } else {
            xs.set(i, x - CLASSIC_PIPE_STEP * SUBPIXELS);
        }
        i = i + 1;
    }
    doomed
}

/// Spawning: each time the pipe timer fires (`finished`), a pair of sliding
/// pipes (not part of the `World`) appears right of the screen on layer
/// `CLASSIC_PIPE_Z`, its lower pipe at a
/// random height drawn from `CLASSIC_PIPE_Y_ADJUST` up to
/// `CLASSIC_PIPE_Y_ADJUST + CLASSIC_PIPE_Y_RANGE` pixels (exclusive).
pub fn spawn_pipes(finished: bool) -> (pair: Option<(SpriteSpawn, SpriteSpawn)>)
    ensures
        pair is Some <==> finished,
        pair matches Some(p) ==> {
            &&& CLASSIC_PIPE_Y_ADJUST * SUBPIXELS <= p.0.at.y < (CLASSIC_PIPE_Y_ADJUST
                + CLASSIC_PIPE_Y_RANGE) * SUBPIXELS
            &&& p == spec_pipe_pair(p.0.at.y as int, CLASSIC_PIPE_Z, Role::SlidingPipe)
        },
{
    if !finished {
        return None;
    }
    let y = random_in(
        CLASSIC_PIPE_Y_ADJUST * SUBPIXELS,
        (CLASSIC_PIPE_Y_ADJUST + CLASSIC_PIPE_Y_RANGE) * SUBPIXELS,
    );
    Some(pipe_pair(y, CLASSIC_PIPE_Z, Role::SlidingPipe))
}

/// What `setup` puts on screen, and the screen it moves to.
pub struct ClassicSetup {
    /// The bird's wing positions, in the order in which they go into the
    /// sprite sheet.
    pub frames: Vec<Wing>,
    /// Where the bird starts.
    pub bird_at: Position,
    /// The bird itself.
    pub bird: ClassicBird,
    /// The background.
    pub background: SpriteSpawn,
    /// The screen that follows.
    pub next: AppState,
}

/// The start of the game: the bird's sprite sheet of three wing positions (up,
/// mid, down) at the centre of the screen on layer 1, at rest; the background
/// at the origin; and straight on to play.
pub fn setup() -> (s: ClassicSetup)
    ensures
        s.frames@ == seq![Wing::Up, Wing::Mid, Wing::Down],
        s.bird_at == (Position { x: 0, y: 0, z: 1 }),
        s.bird.speed == 0,
        s.background == (SpriteSpawn {
            texture: Texture::Background,
            at: Position { x: 0, y: 0, z: 0 },
            flip_y: false,
            role: Role::Background,
        }),
        s.next == AppState::Playing,
{
    let mut frames: Vec<Wing> = Vec::new();
    frames.push(Wing::Up);
    frames.push(Wing::Mid);
    frames.push(Wing::Down);
    ClassicSetup {
        frames,
        bird_at: Position { x: 0, y: 0, z: 1 },
        bird: ClassicBird { speed: 0 },
        background: SpriteSpawn {
            texture: Texture::Background,
            at: Position { x: 0, y: 0, z: 0 },
            flip_y: false,
            role: Role::Background,
        },
        next: AppState::Playing,
    }
}

/// A pipe that stays slides exactly one step left; one that goes keeps its
/// place; and no pipe is removed while still at or right of
/// `CLASSIC_PIPE_DESPAWN_X`.
pub proof fn lemma_pipe_slides_or_goes(x: i64)
    ensures
        !classic_pipe_gone(x) ==> classic_pipe_moved(x) == x - CLASSIC_PIPE_STEP * SUBPIXELS,
        classic_pipe_gone(x) ==> classic_pipe_moved(x) == x,
        classic_pipe_moved(x) <= x,
{
}

/// Where a pipe at `x` subpixels is after `n` frames of pipe movement.
pub open spec fn classic_pipe_after(x: i64, n: nat) -> i64
    decreases n,
{
    if n == 0 { x } else { classic_pipe_moved(classic_pipe_after(x, (n - 1) as nat)) }
}

/// A pipe spawned at `PIPE_SPAWN_X` slides `CLASSIC_PIPE_STEP` left on each
/// frame; it stays for 351 frames, after which it stands at -502 pixels and is
/// removed on the next frame.
pub proof fn lemma_spawned_pipe_life(n: nat)
    requires
        n <= 351,
    ensures
        classic_pipe_after((PIPE_SPAWN_X * SUBPIXELS) as i64, n) == (PIPE_SPAWN_X - CLASSIC_PIPE_STEP * n)
            * SUBPIXELS,
        n <= 350 ==> !classic_pipe_gone(classic_pipe_after((PIPE_SPAWN_X * SUBPIXELS) as i64, n)),
        n == 351 ==> classic_pipe_gone(classic_pipe_after((PIPE_SPAWN_X * SUBPIXELS) as i64, n)),
    decreases n,
{
    if n > 0 {
        lemma_spawned_pipe_life((n - 1) as nat);
    }
}

/// While space is held the bird flies at `CLASSIC_FLAP`, else at the speed it
/// had; gravity then takes exactly `CLASSIC_GRAVITY` off, down to the lowest
/// `i64`.
pub proof fn lemma_classic_speeds(speed: i64)
    ensures
        classic_flight_speed(speed, true) == 2_900_000_000,
        classic_flight_speed(speed, false) == speed,
        speed >= i64::MIN + CLASSIC_GRAVITY ==> classic_after_gravity(speed) == speed - 130_000_000,
        speed < i64::MIN + CLASSIC_GRAVITY ==> classic_after_gravity(speed) == i64::MIN,
        classic_pipe_gone(speed) <==> speed < -500 * SUBPIXELS,
{
}

/// A flap lifts the bird by `CLASSIC_FLAP` in that frame, with its nose up, and
/// leaves it rising at `CLASSIC_FLAP - CLASSIC_GRAVITY`.
pub proof fn lemma_classic_flap(speed: i64)
    ensures
        classic_flight_speed(speed, true) == CLASSIC_FLAP,
        CLASSIC_FLAP > CLASSIC_DIVE_SPEED,
        classic_after_gravity(classic_flight_speed(speed, true)) == CLASSIC_FLAP - CLASSIC_GRAVITY,
{
}

} // verus!
