use vstd::prelude::*;
use crate::units::{Position, SUBPIXELS};

verus! {

/// Speed lost to gravity on every frame, in pixels per second.
pub const GRAVITY: i64 = 10;

/// Upward speed that a flap gives, in pixels per second.
pub const FLAP: i64 = 300;

/// Down to this speed (pixels per second, exclusive) the bird keeps its nose up.
pub const DIVE_SPEED: i64 = -300;

/// Period of the wing-beat timer, in milliseconds.
pub const FLAP_PERIOD_MILLIS: u64 = 1000;

/// The number of steps in one wing beat.
pub const FLAP_STEPS: usize = 4;

/// The bird: its vertical speed in pixels per second, upward positive.
#[derive(Clone, Copy, Debug, PartialEq, Eq, Structural)]
pub struct Bird {
    pub speed: i64,
}

impl Default for Bird {
    /// A bird at rest.
    fn default() -> (bird: Self)
        ensures
            bird.speed == 0,
    {
        Bird { speed: 0 }
    }
}

/// One of the three wing positions of the bird's sprite sheet, in the order in
/// which they are put into it: frame `0` is `Up`, `1` is `Mid`, `2` is `Down`.
#[derive(Clone, Copy, Debug, PartialEq, Eq, Structural)]
pub enum Wing {
    Up,
    Mid,
    Down,
}

/// The sprite file of a wing position.
pub open spec fn wing_path(w: Wing) -> Seq<char> {
    match w {
        Wing::Up => "sprites/bluebird-upflap.png"@,
        Wing::Mid => "sprites/bluebird-midflap.png"@,
        Wing::Down => "sprites/bluebird-downflap.png"@,
    }
}

impl Wing {
    /// The sprite file of this wing position.
    pub fn path(&self) -> (p: &'static str)
        ensures
            p@ == wing_path(*self),
    {
        match self {
            Wing::Up => "sprites/bluebird-upflap.png",
            Wing::Mid => "sprites/bluebird-midflap.png",
            Wing::Down => "sprites/bluebird-downflap.png",
        }
    }
}

/// The sprite-sheet frames shown in one wing beat, step by step.
pub open spec fn flap_frames() -> Seq<usize> {
    seq![2usize, 1usize, 2usize, 0usize]
}

/// The sprite-sheet frame shown at step `ix` of a wing beat.
pub fn flap_frame(ix: usize) -> (frame: usize)
    requires
        ix < FLAP_STEPS,
    ensures
        frame == flap_frames()[ix as int],
{
    match ix {
        0 => 2,
        1 => 1,
        2 => 2,
        _ => 0,
    }
}

/// The step of the wing beat that follows step `ix`.
pub open spec fn next_flap_step(ix: int) -> int {
    (ix + 1) % (FLAP_STEPS as int)
}

/// Wing animation: each time the wing-beat timer fires (`finished`), show the
/// frame of the current step and go on to the next step, back to the first
/// after the last. Between firings nothing changes.
pub fn bird_animation(finished: bool, flap_ix_ix: &mut usize, sprite_index: &mut usize)
    requires
        *old(flap_ix_ix) < FLAP_STEPS,
    ensures
        *final(flap_ix_ix) < FLAP_STEPS,
        finished ==> *final(sprite_index) == flap_frames()[*old(flap_ix_ix) as int],
        finished ==> *final(flap_ix_ix) == next_flap_step(*old(flap_ix_ix) as int),
        !finished ==> *final(sprite_index) == *old(sprite_index),
        !finished ==> *final(flap_ix_ix) == *old(flap_ix_ix),
{
    if finished {
        *sprite_index = flap_frame(*flap_ix_ix);
        *flap_ix_ix = (*flap_ix_ix + 1) % FLAP_STEPS;
    }
}

/// The speed after one frame of gravity. The speed cannot go below what an
/// `i64` holds; there it stays.
pub open spec fn after_gravity(speed: i64) -> i64 {
    if speed - GRAVITY >= i64::MIN { (speed - GRAVITY) as i64 } else { i64::MIN }
}

/// Gravity: every frame the bird loses `GRAVITY` of upward speed.
pub fn bird_gravity(bird: &mut Bird)
    ensures
        final(bird).speed == after_gravity(old(bird).speed),
        old(bird).speed >= i64::MIN + GRAVITY ==> final(bird).speed == old(bird).speed - GRAVITY,
        old(bird).speed < i64::MIN + GRAVITY ==> final(bird).speed == i64::MIN,
{
    if bird.speed >= i64::MIN + GRAVITY {
        bird.speed = bird.speed - GRAVITY;
    } else {
        bird.speed = i64::MIN;
    }
}

/// The speed after a frame of the flap check.
pub open spec fn after_flap(speed: i64, space_pressed: bool) -> i64 {
    if space_pressed { FLAP } else { speed }
}

/// Flapping: while space is held the bird's speed is set to `FLAP`.
pub fn bird_flap(bird: &mut Bird, space_pressed: bool)
    ensures
        final(bird).speed == after_flap(old(bird).speed, space_pressed),
        space_pressed ==> final(bird).speed == FLAP,
        !space_pressed ==> final(bird).speed == old(bird).speed,
{
    if space_pressed {
        bird.speed = FLAP;
    }
}

/// How the bird is drawn: nose up at a fixed angle, or diving at an angle that
/// follows its speed.
#[derive(Clone, Copy, Debug, PartialEq, Eq, Structural)]
pub enum Tilt {
    Climb,
    Dive,
}

/// The height after moving at `speed` pixels per second for `delta_nanos`
/// nanoseconds, in subpixels.
pub open spec fn moved(y: int, speed: int, delta_nanos: int) -> int {
    y + speed * delta_nanos
}

/// Movement: the bird rises or falls by its speed times the frame's duration,
/// and is drawn nose up unless it falls faster than `DIVE_SPEED`.
pub fn bird_movement(bird: &Bird, y: &mut i64, delta_nanos: u64) -> (tilt: Tilt)
    requires
        i64::MIN <= moved(*old(y) as int, bird.speed as int, delta_nanos as int) <= i64::MAX,
    ensures
        *final(y) == moved(*old(y) as int, bird.speed as int, delta_nanos as int),
        *final(y) == *old(y) + bird.speed * delta_nanos,
        tilt == (if bird.speed > DIVE_SPEED { Tilt::Climb } else { Tilt::Dive }),
{
    let tilt = if bird.speed > DIVE_SPEED { Tilt::Climb } else { Tilt::Dive };
    let dy: i128 = bird.speed as i128 * delta_nanos as i128;
    let ny: i128 = *y as i128 + dy;
    *y = ny as i64;
    tilt
}

/// What `setup` puts on screen for the bird.
pub struct BirdSpawn {
    /// The wing positions, in the order in which they go into the sprite sheet.
    pub frames: Vec<Wing>,
    /// Where the bird starts.
    pub at: Position,
    /// The bird itself.
    pub bird: Bird,
}

/// The bird at the start: a sprite sheet of the three wing positions (up, mid,
/// down) at the centre of the screen on layer 1, at rest.
pub fn setup() -> (spawn: BirdSpawn)
    ensures
        spawn.frames@ == seq![Wing::Up, Wing::Mid, Wing::Down],
        spawn.at == (Position { x: 0, y: 0, z: 1 }),
        spawn.bird.speed == 0,
{
    let mut frames: Vec<Wing> = Vec::new();
    frames.push(Wing::Up);
    frames.push(Wing::Mid);
    frames.push(Wing::Down);
    BirdSpawn { frames, at: Position { x: 0, y: 0, z: 1 }, bird: Bird::default() }
}

/// The bird moves by exactly its speed times the frame's duration, whatever
/// its height and whichever way it flies; a still frame or a bird at rest does
/// not move.
pub proof fn lemma_movement_is_speed_times_time(y: int, speed: int, delta_nanos: int)
    ensures
        moved(y, speed, delta_nanos) == y + speed * delta_nanos,
        moved(y, speed, 0) == y,
        moved(y, 0, delta_nanos) == y,
        delta_nanos > 0 && speed < 0 ==> moved(y, speed, delta_nanos) < y,
        delta_nanos > 0 && speed > 0 ==> moved(y, speed, delta_nanos) > y,
{
    if delta_nanos > 0 && speed < 0 {
        assert(speed * delta_nanos < 0) by (nonlinear_arith)
            requires
                delta_nanos > 0,
                speed < 0,
        ;
    }
    if delta_nanos > 0 && speed > 0 {
        assert(speed * delta_nanos > 0) by (nonlinear_arith)
            requires
                delta_nanos > 0,
                speed > 0,
        ;
    }
}

/// The flap check sets the speed to `FLAP` while space is held and leaves it
/// exactly as it was otherwise, whatever it was.
pub proof fn lemma_flap_only_with_space(speed: i64)
    ensures
        after_flap(speed, true) == FLAP,
        after_flap(speed, false) == speed,
{
}

/// The wing beat steps one at a time: from each of the first three steps to
/// the next, and from the last back to the first.
pub proof fn lemma_flap_step_advances(ix: int)
    requires
        0 <= ix < FLAP_STEPS,
    ensures
        ix < 3 ==> next_flap_step(ix) == ix + 1,
        ix == 3 ==> next_flap_step(ix) == 0,
{
}

/// Every frame that the animation shows is one of the three of the sprite sheet.
pub proof fn lemma_flap_frame_in_sheet(ix: int)
    requires
        0 <= ix < FLAP_STEPS,
    ensures
        flap_frames()[ix] < 3,
{
}

/// The wing beat has period four: four firings bring the step back to where it
/// was, and the frames shown are 2, 1, 2, 0 from the first step.
pub proof fn lemma_flap_cycle(ix: int)
    requires
        0 <= ix < FLAP_STEPS,
    ensures
        next_flap_step(next_flap_step(next_flap_step(next_flap_step(ix)))) == ix,
        0 <= next_flap_step(ix) < FLAP_STEPS,
        flap_frames()[0] == 2,
        flap_frames()[1] == 1,
        flap_frames()[2] == 2,
        flap_frames()[3] == 0,
{
}

/// A flap followed by a frame of gravity leaves the bird rising at
/// `FLAP - GRAVITY`, whatever its speed was.
pub proof fn lemma_flap_then_gravity(speed: i64)
    ensures
        after_gravity(after_flap(speed, true)) == FLAP - GRAVITY,
{
}

/// The speed after `n` frames of gravity.
pub open spec fn after_gravity_times(speed: i64, n: nat) -> i64
    decreases n,
{
    if n == 0 { speed } else { after_gravity(after_gravity_times(speed, (n - 1) as nat)) }
}

/// `n` frames of gravity take `n` times `GRAVITY` off the speed, which falls
/// strictly with each frame, as long as the speed stays within an `i64`.
pub proof fn lemma_gravity_repeated(speed: i64, n: nat)
    requires
        speed - GRAVITY * n >= i64::MIN,
    ensures
        after_gravity_times(speed, n) == speed - GRAVITY * n,
        n > 0 ==> after_gravity_times(speed, n) < after_gravity_times(speed, (n - 1) as nat),
    decreases n,
{
    if n > 0 {
        lemma_gravity_repeated(speed, (n - 1) as nat);
    }
}

/// Gravity never speeds the bird up.
pub proof fn lemma_gravity_slows(speed: i64)
    ensures
        after_gravity(speed) <= speed,
        speed >= i64::MIN + GRAVITY ==> after_gravity(speed) == speed - GRAVITY,
{
}

} // verus!
