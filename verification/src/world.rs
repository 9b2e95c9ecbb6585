use vstd::prelude::*;
use crate::units::{Position, SUBPIXELS, WORLD_WIDTH};
use crate::rng::random_in;

verus! {

/// Speed at which the world scrolls, in pixels per second (leftward).
pub const WORLD_SPEED: i64 = -125;

/// Width of a base (ground) sprite, in pixels.
pub const BASE_WIDTH: i64 = 336;

/// Height of the bases, in pixels.
pub const BASE_Y: i64 = -260;

/// Drawing layer of bases and pipes.
pub const FOREGROUND_Z: i64 = 10;

/// A base whose centre is left of this, in pixels, has left the screen:
/// `-(BASE_WIDTH - (BASE_WIDTH - WORLD_WIDTH) / 2)`.
pub const BASE_OFFSCREEN_X: i64 = -312;

/// Width of a pipe sprite, in pixels.
pub const PIPE_WIDTH: i64 = 52;

/// A pipe whose centre is left of this, in pixels, has left the screen:
/// `-(PIPE_WIDTH + WORLD_WIDTH) / 2`.
pub const PIPE_OFFSCREEN_X: i64 = -170;

/// The two thresholds are those that the widths give.
pub proof fn lemma_offscreen_thresholds()
    ensures
        BASE_OFFSCREEN_X == -(BASE_WIDTH - (BASE_WIDTH - WORLD_WIDTH) / 2),
        PIPE_OFFSCREEN_X == -(PIPE_WIDTH + WORLD_WIDTH) / 2,
{
}

/// Vertical distance between the centres of the two pipes of a pair, in pixels.
pub const PIPE_GAP: i64 = 450;

/// Lowest height of the lower pipe of a pair, in pixels.
pub const PIPE_Y_ADJUST: i64 = -350;

/// Span of heights that the lower pipe is drawn from, in pixels.
pub const PIPE_Y_RANGE: i64 = 256;

/// Where new pipes appear, in pixels.
pub const PIPE_SPAWN_X: i64 = 200;

/// Period of the pipe timer, in milliseconds.
pub const PIPE_SPAWN_MILLIS: u64 = 1500;

/// The images of the world.
#[derive(Clone, Copy, Debug, PartialEq, Eq, Structural)]
pub enum Texture {
    Background,
    Base,
    PipeGreen,
}

/// The file of an image.
pub open spec fn texture_path(t: Texture) -> Seq<char> {
    match t {
        Texture::Background => "sprites/background-day.png"@,
        Texture::Base => "sprites/base.png"@,
        Texture::PipeGreen => "sprites/pipe-green.png"@,
    }
}

impl Texture {
    /// The file of this image.
    pub fn path(&self) -> (p: &'static str)
        ensures
            p@ == texture_path(*self),
    {
        match self {
            Texture::Background => "sprites/background-day.png",
            Texture::Base => "sprites/base.png",
            Texture::PipeGreen => "sprites/pipe-green.png",
        }
    }
}

/// Marks what scrolls with the world: bases and pipes.
#[derive(Clone, Copy, Debug, PartialEq, Eq, Structural)]
pub struct World;

/// Marks a pipe.
#[derive(Clone, Copy, Debug, PartialEq, Eq, Structural)]
pub struct Pipe;

/// Marks a base (the ground).
#[derive(Clone, Copy, Debug, PartialEq, Eq, Structural)]
pub struct Base;

/// The part a sprite plays: the background stays put; bases and pipes are
/// part of the scrolling `World`; a sliding pipe is a `Pipe` that moves by
/// itself and is not part of the `World`.
#[derive(Clone, Copy, Debug, PartialEq, Eq, Structural)]
pub enum Role {
    Background,
    Base,
    Pipe,
    SlidingPipe,
}

/// A sprite to put on screen.
#[derive(Clone, Copy, Debug, PartialEq, Eq, Structural)]
pub struct SpriteSpawn {
    pub texture: Texture,
    pub at: Position,
    /// Drawn upside down.
    pub flip_y: bool,
    pub role: Role,
}

/// A base at `x` pixels.
pub open spec fn base_at(x: int) -> SpriteSpawn {
    SpriteSpawn {
        texture: Texture::Base,
        at: Position { x: (x * SUBPIXELS) as i64, y: (BASE_Y * SUBPIXELS) as i64, z: FOREGROUND_Z },
        flip_y: false,
        role: Role::Base,
    }
}

/// The background, at the origin.
pub open spec fn background() -> SpriteSpawn {
    SpriteSpawn {
        texture: Texture::Background,
        at: Position { x: 0, y: 0, z: 0 },
        flip_y: false,
        role: Role::Background,
    }
}

/// The world at the start: the background, and two bases side by side, the
/// first centred on the screen and the second just right of it.
pub fn setup() -> (sprites: Vec<SpriteSpawn>)
    ensures
        sprites@ == seq![background(), base_at(0), base_at(BASE_WIDTH as int)],
        sprites@.len() == 3,
        sprites@[0].texture == Texture::Background && sprites@[0].role == Role::Background,
        sprites@[0].at.x == 0 && sprites@[0].at.y == 0 && sprites@[0].at.z == 0,
        sprites@[1].texture == Texture::Base && sprites@[1].role == Role::Base,
        sprites@[2].texture == Texture::Base && sprites@[2].role == Role::Base,
        sprites@[1].at.x == 0 && sprites@[2].at.x == 336 * SUBPIXELS,
        sprites@[1].at.y == -260 * SUBPIXELS && sprites@[2].at.y == -260 * SUBPIXELS,
        sprites@[1].at.z == 10 && sprites@[2].at.z == 10,
{
    let mut sprites: Vec<SpriteSpawn> = Vec::new();
    sprites.push(SpriteSpawn {
        texture: Texture::Background,
        at: Position { x: 0, y: 0, z: 0 },
        flip_y: false,
        role: Role::Background,
    });
    sprites.push(SpriteSpawn {
        texture: Texture::Base,
        at: Position { x: 0, y: BASE_Y * SUBPIXELS, z: FOREGROUND_Z },
        flip_y: false,
        role: Role::Base,
    });
    sprites.push(SpriteSpawn {
        texture: Texture::Base,
        at: Position { x: BASE_WIDTH * SUBPIXELS, y: BASE_Y * SUBPIXELS, z: FOREGROUND_Z },
        flip_y: false,
        role: Role::Base,
    });
    sprites
}

/// How far the world scrolls in `delta_nanos` nanoseconds, in subpixels.
pub open spec fn world_shift(delta_nanos: int) -> int {
    WORLD_SPEED * delta_nanos
}

/// `after` is `before` with every position moved horizontally by `shift`
/// subpixels; heights and layers stay.
pub open spec fn shifted_by(before: Seq<Position>, after: Seq<Position>, shift: int) -> bool {
    &&& after.len() == before.len()
    &&& forall|i: int|
        0 <= i < before.len() ==> {
            &&& (#[trigger] after[i]).x == before[i].x + shift
            &&& after[i].y == before[i].y
            &&& after[i].z == before[i].z
        }
}

/// `after` holds as many positions as `before`, each at the same height and
/// on the same layer.
pub open spec fn keeps_heights_and_layers(before: Seq<Position>, after: Seq<Position>) -> bool {
    &&& after.len() == before.len()
    &&& forall|i: int|
        0 <= i < before.len() ==> (#[trigger] after[i]).y == before[i].y && after[i].z == before[i].z
}

/// Scrolling: every part of the world moves left by `WORLD_SPEED` times the
/// frame's duration; only the horizontal position changes. `parts` holds their
/// positions.
pub fn world_movement(parts: &mut Vec<Position>, delta_nanos: u64)
    requires
        forall|i: int|
            0 <= i < old(parts)@.len() ==> i64::MIN <= (#[trigger] old(parts)@[i]).x + world_shift(
                delta_nanos as int,
            ) <= i64::MAX,
    ensures
        shifted_by(old(parts)@, final(parts)@, world_shift(delta_nanos as int)),
        keeps_heights_and_layers(old(parts)@, final(parts)@),
{
    let d: i128 = delta_nanos as i128;
    assert(-125 * (u64::MAX as int) <= WORLD_SPEED * d <= 0) by (nonlinear_arith)
        requires
            WORLD_SPEED == -125,
            0 <= d <= u64::MAX,
    ;
    let shift: i128 = WORLD_SPEED as i128 * d;
    let ghost start = parts@;
    let mut i: usize = 0;
    while i < parts.len()
        invariant
            parts@.len() == start.len(),
            i <= start.len(),
            shift == world_shift(delta_nanos as int),
            forall|j: int|
                0 <= j < start.len() ==> i64::MIN <= (#[trigger] start[j]).x + world_shift(
                    delta_nanos as int,
                ) <= i64::MAX,
            forall|j: int|
                0 <= j < i ==> {
                    &&& (#[trigger] parts@[j]).x == start[j].x + world_shift(delta_nanos as int)
                    &&& parts@[j].y == start[j].y
                    &&& parts@[j].z == start[j].z
                },
            forall|j: int| i <= j < start.len() ==> #[trigger] parts@[j] == start[j],
        decreases start.len() - i,
    {
        let p = parts[i];
        let moved: i128 = p.x as i128 + shift;
        parts.set(i, Position { x: moved as i64, y: p.y, z: p.z });
        i = i + 1;
    }
}

/// Scrolling keeps the world rigid: the distance between any two of its parts
/// is the same after a frame as before.
pub proof fn lemma_scrolling_keeps_spacing(
    before: Seq<Position>,
    after: Seq<Position>,
    delta_nanos: u64,
    i: int,
    j: int,
)
    requires
        shifted_by(before, after, world_shift(delta_nanos as int)),
        0 <= i < before.len(),
        0 <= j < before.len(),
    ensures
        after[i].x - after[j].x == before[i].x - before[j].x,
{
}

/// Two frames of scrolling move the world as far as one frame as long as both.
pub proof fn lemma_scrolling_adds_up(
    first: Seq<Position>,
    second: Seq<Position>,
    third: Seq<Position>,
    delta1: u64,
    delta2: u64,
)
    requires
        shifted_by(first, second, world_shift(delta1 as int)),
        shifted_by(second, third, world_shift(delta2 as int)),
    ensures
        shifted_by(first, third, world_shift(delta1 + delta2)),
{
    assert forall|i: int| 0 <= i < first.len() implies {
        &&& (#[trigger] third[i]).x == first[i].x + world_shift(delta1 + delta2)
        &&& third[i].y == first[i].y
        &&& third[i].z == first[i].z
    } by {
        assert(second[i].x == first[i].x + world_shift(delta1 as int));
    }
}

/// Scrolling moves the world left, never right.
pub proof fn lemma_scrolling_goes_left(delta_nanos: u64)
    ensures
        world_shift(delta_nanos as int) <= 0,
        delta_nanos > 0 ==> world_shift(delta_nanos as int) < 0,
{
}

/// Where a base is after the leapfrog check.
pub open spec fn leapfrogged(x: i64) -> i64 {
    if x < BASE_OFFSCREEN_X * SUBPIXELS { (BASE_WIDTH * SUBPIXELS) as i64 } else { x }
}

/// Leapfrog: a base that has left the screen on the left is put back just
/// right of the screen, so that the two bases tile the ground forever; only
/// the horizontal position changes.
pub fn base_leapfrog(parts: &mut Vec<Position>)
    ensures
        final(parts)@.len() == old(parts)@.len(),
        forall|i: int|
            0 <= i < old(parts)@.len() ==> #[trigger] final(parts)@[i] == (Position {
                x: leapfrogged(old(parts)@[i].x),
                ..old(parts)@[i]
            }),
        forall|i: int|
            0 <= i < old(parts)@.len() && old(parts)@[i].x < BASE_OFFSCREEN_X * SUBPIXELS
                ==> (#[trigger] final(parts)@[i]).x == BASE_WIDTH * SUBPIXELS,
        forall|i: int|
            0 <= i < old(parts)@.len() && old(parts)@[i].x >= BASE_OFFSCREEN_X * SUBPIXELS
                ==> (#[trigger] final(parts)@[i]).x == old(parts)@[i].x,
        keeps_heights_and_layers(old(parts)@, final(parts)@),
{
    let ghost start = parts@;
    let mut i: usize = 0;
    while i < parts.len()
        invariant
            parts@.len() == start.len(),
            i <= start.len(),
            forall|j: int|
                0 <= j < i ==> #[trigger] parts@[j] == (Position { x: leapfrogged(start[j].x), ..start[j] }),
            forall|j: int| i <= j < start.len() ==> #[trigger] parts@[j] == start[j],
        decreases start.len() - i,
    {
        let p = parts[i];
        if p.x < BASE_OFFSCREEN_X * SUBPIXELS {
            parts.set(i, Position { x: BASE_WIDTH * SUBPIXELS, y: p.y, z: p.z });
        }
        i = i + 1;
    }
}

/// Parts that all stand at the bases' height on the foreground layer.
pub open spec fn all_on_the_ground(parts: Seq<Position>) -> bool {
    forall|i: int| 0 <= i < parts.len() ==> (#[trigger] parts[i]).y == BASE_Y * SUBPIXELS && parts[i].z == FOREGROUND_Z
}

/// The positions of the bases among some sprites, in order.
pub open spec fn base_positions(sprites: Seq<SpriteSpawn>) -> Seq<Position> {
    sprites.filter(|s: SpriteSpawn| s.role == Role::Base).map_values(|s: SpriteSpawn| s.at)
}

/// The world at the start has exactly two bases, both on the ground, and its
/// background at the origin.
pub proof fn lemma_setup_bases_on_the_ground()
    ensures
        base_positions(seq![background(), base_at(0), base_at(BASE_WIDTH as int)]).len() == 2,
        all_on_the_ground(base_positions(seq![background(), base_at(0), base_at(BASE_WIDTH as int)])),
        background().at == (Position { x: 0, y: 0, z: 0 }),
{
    let s = seq![background(), base_at(0), base_at(BASE_WIDTH as int)];
    let f = |sp: SpriteSpawn| sp.role == Role::Base;
    reveal_with_fuel(Seq::filter, 4);
    assert(s.drop_last().drop_last().drop_last() =~= Seq::<SpriteSpawn>::empty());
    assert(s.drop_last().drop_last() =~= seq![background()]);
    assert(s.drop_last() =~= seq![background(), base_at(0)]);
    assert(s.filter(f) =~= seq![base_at(0), base_at(BASE_WIDTH as int)]);
}

/// Bases stay on the ground: scrolling and leapfrogging only move them
/// sideways, so any run of them keeps every base at the bases' height on the
/// foreground layer.
pub proof fn lemma_bases_stay_on_the_ground(before: Seq<Position>, after: Seq<Position>)
    requires
        all_on_the_ground(before),
        keeps_heights_and_layers(before, after),
    ensures
        all_on_the_ground(after),
{
    assert forall|i: int| 0 <= i < after.len() implies (#[trigger] after[i]).y == BASE_Y * SUBPIXELS
        && after[i].z == FOREGROUND_Z by {
        assert(before[i].y == BASE_Y * SUBPIXELS);
    }
}

/// Every base left of the screen goes back to `BASE_WIDTH`, right of it,
/// however far left it was; every other base stays where it is.
pub proof fn lemma_leapfrog_sends_back_to_base_width(x: i64)
    ensures
        x < BASE_OFFSCREEN_X * SUBPIXELS ==> leapfrogged(x) == BASE_WIDTH * SUBPIXELS,
        x >= BASE_OFFSCREEN_X * SUBPIXELS ==> leapfrogged(x) == x,
{
}

/// A frame of scrolling moves the world by exactly `WORLD_SPEED` pixels per
/// second times its duration.
pub proof fn lemma_world_shift_is_speed_times_time(delta_nanos: int)
    ensures
        world_shift(delta_nanos) == -125 * delta_nanos,
{
}

/// A pipe counts as gone exactly when it is left of `PIPE_OFFSCREEN_X`.
pub proof fn lemma_pipe_offscreen_threshold(x: i64)
    ensures
        pipe_offscreen(x) <==> x < -170 * SUBPIXELS,
{
}

/// After the leapfrog check no base is left of the screen, and a second check
/// changes nothing.
pub proof fn lemma_leapfrog_settles(x: i64)
    ensures
        leapfrogged(x) >= BASE_OFFSCREEN_X * SUBPIXELS,
        leapfrogged(leapfrogged(x)) == leapfrogged(x),
        x >= BASE_OFFSCREEN_X * SUBPIXELS ==> leapfrogged(x) == x,
{
}

/// Whether a pipe at `x` subpixels has left the screen.
pub open spec fn pipe_offscreen(x: i64) -> bool {
    x < PIPE_OFFSCREEN_X * SUBPIXELS
}

/// `picked` lists, in increasing order and each once, exactly the indices `i`
/// of `xs` for which `keep(xs[i])` holds.
pub open spec fn picks_exactly(xs: Seq<i64>, picked: Seq<usize>, keep: spec_fn(i64) -> bool) -> bool {
    &&& forall|k: int| 0 <= k < picked.len() ==> (#[trigger] picked[k]) < xs.len() && keep(xs[picked[k] as int])
    &&& forall|k1: int, k2: int| 0 <= k1 < k2 < picked.len() ==> picked[k1] < picked[k2]
    &&& forall|i: int| 0 <= i < xs.len() && keep(#[trigger] xs[i]) ==> picked.contains(i as usize)
}

/// Despawning: the pipes to remove are those that have left the screen on the
/// left. Returns their indices in `xs`, in order.
pub fn despawn_pipes(xs: &Vec<i64>) -> (doomed: Vec<usize>)
    ensures
        picks_exactly(xs@, doomed@, |x: i64| pipe_offscreen(x)),
        forall|i: int| 0 <= i < xs@.len() && xs@[i] < -170 * SUBPIXELS ==> doomed@.contains(i as usize),
        forall|k: int|
            0 <= k < doomed@.len() ==> (#[trigger] doomed@[k]) < xs@.len() && xs@[doomed@[k] as int] < -170
                * SUBPIXELS,
        forall|k1: int, k2: int| 0 <= k1 < k2 < doomed@.len() ==> doomed@[k1] < doomed@[k2],
{
    let mut doomed: Vec<usize> = Vec::new();
    let mut i: usize = 0;
    while i < xs.len()
        invariant
            i <= xs@.len(),
            forall|k: int| 0 <= k < doomed@.len() ==> (#[trigger] doomed@[k]) < i && pipe_offscreen(xs@[doomed@[k] as int]),
            forall|k1: int, k2: int| 0 <= k1 < k2 < doomed@.len() ==> doomed@[k1] < doomed@[k2],
            forall|j: int| 0 <= j < i && pipe_offscreen(#[trigger] xs@[j]) ==> doomed@.contains(j as usize),
        decreases xs@.len() - i,
    {
        let ghost before = doomed@;
        if xs[i] < PIPE_OFFSCREEN_X * SUBPIXELS {
            doomed.push(i);
            assert forall|j: int| 0 <= j <= i && pipe_offscreen(#[trigger] xs@[j]) implies doomed@.contains(
                j as usize,
            ) by {
                if j < i {
                    let k = choose|k: int| 0 <= k < before.len() && before[k] == j as usize;
                    assert(doomed@[k] == j as usize);
                } else {
                    assert(doomed@[doomed@.len() - 1] == j as usize);
                }
            }
        }
        i = i + 1;
    }
    doomed
}

/// The pair of pipes with role `role` on layer `z` whose lower pipe is centred
/// at height `bottom_y` (subpixels): the upper one is `PIPE_GAP` higher and
/// drawn upside down.
pub open spec fn spec_pipe_pair(bottom_y: int, z: i64, role: Role) -> (SpriteSpawn, SpriteSpawn) {
    (
        SpriteSpawn {
            texture: Texture::PipeGreen,
            at: Position { x: (PIPE_SPAWN_X * SUBPIXELS) as i64, y: bottom_y as i64, z },
            flip_y: false,
            role,
        },
        SpriteSpawn {
            texture: Texture::PipeGreen,
            at: Position {
                x: (PIPE_SPAWN_X * SUBPIXELS) as i64,
                y: (bottom_y + PIPE_GAP * SUBPIXELS) as i64,
                z,
            },
            flip_y: true,
            role,
        },
    )
}

/// Lays out a pair of pipes with role `role` on layer `z` around a lower pipe
/// at `bottom_y` subpixels.
pub fn pipe_pair(bottom_y: i64, z: i64, role: Role) -> (pair: (SpriteSpawn, SpriteSpawn))
    requires
        bottom_y + PIPE_GAP * SUBPIXELS <= i64::MAX,
    ensures
        pair == spec_pipe_pair(bottom_y as int, z, role),
        pair.0.texture == Texture::PipeGreen && pair.1.texture == Texture::PipeGreen,
        pair.0.at.x == PIPE_SPAWN_X * SUBPIXELS && pair.0.at.y == bottom_y && pair.0.at.z == z,
        pair.1.at.x == PIPE_SPAWN_X * SUBPIXELS && pair.1.at.y == bottom_y + PIPE_GAP * SUBPIXELS
            && pair.1.at.z == z,
        !pair.0.flip_y && pair.1.flip_y,
        pair.0.role == role && pair.1.role == role,
{
    let bottom = SpriteSpawn {
        texture: Texture::PipeGreen,
        at: Position { x: PIPE_SPAWN_X * SUBPIXELS, y: bottom_y, z },
        flip_y: false,
        role,
    };
    let top = SpriteSpawn {
        texture: Texture::PipeGreen,
        at: Position { x: PIPE_SPAWN_X * SUBPIXELS, y: bottom_y + PIPE_GAP * SUBPIXELS, z },
        flip_y: true,
        role,
    };
    (bottom, top)
}

/// Spawning: each time the pipe timer fires (`finished`), a pair of pipes
/// appears right of the screen, its lower pipe at a random height drawn from
/// `PIPE_Y_ADJUST` up to `PIPE_Y_ADJUST + PIPE_Y_RANGE` pixels (exclusive).
pub fn spawn_pipes(finished: bool) -> (pair: Option<(SpriteSpawn, SpriteSpawn)>)
    ensures
        pair is Some <==> finished,
        pair matches Some(p) ==> {
            &&& PIPE_Y_ADJUST * SUBPIXELS <= p.0.at.y < (PIPE_Y_ADJUST + PIPE_Y_RANGE) * SUBPIXELS
            &&& p == spec_pipe_pair(p.0.at.y as int, FOREGROUND_Z, Role::Pipe)
        },
{
    if !finished {
        return None;
    }
    let y = random_in(PIPE_Y_ADJUST * SUBPIXELS, (PIPE_Y_ADJUST + PIPE_Y_RANGE) * SUBPIXELS);
    Some(pipe_pair(y, FOREGROUND_Z, Role::Pipe))
}

/// Both pipes of a pair are drawn with the green pipe image, at
/// `PIPE_SPAWN_X`, with the pair's role; the lower at the given height, the
/// upper `PIPE_GAP` above it.
pub proof fn lemma_pipe_pair_layout(bottom_y: i64, z: i64, role: Role)
    requires
        bottom_y + PIPE_GAP * SUBPIXELS <= i64::MAX,
    ensures
        spec_pipe_pair(bottom_y as int, z, role).0.texture == Texture::PipeGreen,
        spec_pipe_pair(bottom_y as int, z, role).1.texture == Texture::PipeGreen,
        spec_pipe_pair(bottom_y as int, z, role).0.at.x == 200 * SUBPIXELS,
        spec_pipe_pair(bottom_y as int, z, role).0.at.y == bottom_y,
        spec_pipe_pair(bottom_y as int, z, role).0.at.z == z,
        spec_pipe_pair(bottom_y as int, z, role).1.at.z == z,
        spec_pipe_pair(bottom_y as int, z, role).1.at.x == 200 * SUBPIXELS,
        spec_pipe_pair(bottom_y as int, z, role).1.at.y == bottom_y + 450 * SUBPIXELS,
        spec_pipe_pair(bottom_y as int, z, role).0.role == role,
        spec_pipe_pair(bottom_y as int, z, role).1.role == role,
{
}

/// The two pipes of a pair stand one above the other, `PIPE_GAP` apart, on the
/// same layer; only the upper one is drawn upside down.
pub proof fn lemma_pipe_pair_gap(bottom_y: i64, z: i64, role: Role)
    requires
        bottom_y + PIPE_GAP * SUBPIXELS <= i64::MAX,
    ensures
        spec_pipe_pair(bottom_y as int, z, role).1.at.y - spec_pipe_pair(bottom_y as int, z, role).0.at.y == PIPE_GAP * SUBPIXELS,
        spec_pipe_pair(bottom_y as int, z, role).1.at.x == spec_pipe_pair(bottom_y as int, z, role).0.at.x,
        spec_pipe_pair(bottom_y as int, z, role).1.at.z == spec_pipe_pair(bottom_y as int, z, role).0.at.z,
        spec_pipe_pair(bottom_y as int, z, role).1.flip_y && !spec_pipe_pair(bottom_y as int, z, role).0.flip_y,
{
}

} // verus!
