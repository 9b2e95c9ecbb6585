use vstd::prelude::*;

verus! {

/// The screens of the game.
#[derive(Clone, Copy, Debug, PartialEq, Eq, Structural, Hash)]
pub enum AppState {
    /// Sprites are being loaded.
    Setup,
    /// The sprites are in; the bird hovers until the player presses space.
    Waiting,
    /// The game runs.
    Playing,
    /// The bird hit the world.
    GameOver,
}

/// How far the loading of a group of assets has come.
#[derive(Clone, Copy, Debug, PartialEq, Eq, Structural, Hash)]
pub enum LoadState {
    NotLoaded,
    Loading,
    Loaded,
    Failed,
}

/// The order in which the screens follow each other.
pub open spec fn rank(s: AppState) -> int {
    match s {
        AppState::Setup => 0,
        AppState::Waiting => 1,
        AppState::Playing => 2,
        AppState::GameOver => 3,
    }
}

/// While loading: once every sprite is loaded, go on to the waiting screen.
pub fn check_loading(load: LoadState) -> (next: Option<AppState>)
    ensures
        next == (if load == LoadState::Loaded { Some(AppState::Waiting) } else { None::<AppState> }),
{
    match load {
        LoadState::Loaded => Some(AppState::Waiting),
        _ => None,
    }
}

/// While waiting: space starts the game.
pub fn check_waiting(space_pressed: bool) -> (next: Option<AppState>)
    ensures
        next == (if space_pressed { Some(AppState::Playing) } else { None::<AppState> }),
{
    if !space_pressed {
        return None;
    }
    Some(AppState::Playing)
}

/// While playing: the game is over as soon as the bird touches any part of the
/// world; `hits[i]` says whether it touches the `i`-th collider.
pub fn bird_collision(hits: &Vec<bool>) -> (next: Option<AppState>)
    ensures
        next == (if exists|i: int| 0 <= i < hits@.len() && hits@[i] {
            Some(AppState::GameOver)
        } else {
            None::<AppState>
        }),
{
    let mut i: usize = 0;
    while i < hits.len()
        invariant
            i <= hits@.len(),
            forall|j: int| 0 <= j < i ==> !hits@[j],
        decreases hits@.len() - i,
    {
        if hits[i] {
            return Some(AppState::GameOver);
        }
        i = i + 1;
    }
    None
}

/// The screen after one frame of the schedule: loading is watched on the setup
/// screen, the space key on the waiting screen; the other screens stay.
pub open spec fn spec_step(state: AppState, load: LoadState, space_pressed: bool) -> AppState {
    match state {
        AppState::Setup => if load == LoadState::Loaded { AppState::Waiting } else { state },
        AppState::Waiting => if space_pressed { AppState::Playing } else { state },
        _ => state,
    }
}

/// One frame of the schedule: runs the check that belongs to the current screen.
pub fn step(state: AppState, load: LoadState, space_pressed: bool) -> (next: AppState)
    ensures
        next == spec_step(state, load, space_pressed),
        state == AppState::Setup ==> (next == AppState::Waiting <==> load == LoadState::Loaded),
        state == AppState::Setup && load != LoadState::Loaded ==> next == AppState::Setup,
        state == AppState::Waiting ==> (next == AppState::Playing <==> space_pressed),
        state == AppState::Waiting && !space_pressed ==> next == AppState::Waiting,
        state == AppState::Playing ==> next == AppState::Playing,
        state == AppState::GameOver ==> next == AppState::GameOver,
{
    let change = match state {
        AppState::Setup => check_loading(load),
        AppState::Waiting => check_waiting(space_pressed),
        _ => None,
    };
    match change {
        Some(s) => s,
        None => state,
    }
}

/// The screens only move forward, one at a time: a frame either keeps the
/// screen or moves to the next one.
pub proof fn lemma_step_moves_forward_by_one(state: AppState, load: LoadState, space_pressed: bool)
    ensures
        rank(spec_step(state, load, space_pressed)) == rank(state)
            || rank(spec_step(state, load, space_pressed)) == rank(state) + 1,
{
}

/// The loading screen is left for the waiting screen exactly on a frame on
/// which the sprites are loaded; on any other frame (not loaded, loading,
/// failed) it stays, whatever the keyboard.
pub proof fn lemma_loading_screen_waits_for_sprites(load: LoadState, space_pressed: bool)
    ensures
        spec_step(AppState::Setup, load, space_pressed) == AppState::Waiting <==> load == LoadState::Loaded,
        load != LoadState::Loaded ==> spec_step(AppState::Setup, load, space_pressed) == AppState::Setup,
{
}

/// The waiting screen is left for play exactly on a frame with space pressed;
/// the load state plays no part there.
pub proof fn lemma_waiting_screen_waits_for_space(load: LoadState, space_pressed: bool)
    ensures
        spec_step(AppState::Waiting, load, space_pressed) == AppState::Playing <==> space_pressed,
        !space_pressed ==> spec_step(AppState::Waiting, load, space_pressed) == AppState::Waiting,
{
}

/// The game can only start from the waiting screen, and only on a frame with
/// space pressed.
pub proof fn lemma_playing_only_from_waiting(state: AppState, load: LoadState, space_pressed: bool)
    requires
        state != AppState::Playing,
        spec_step(state, load, space_pressed) == AppState::Playing,
    ensures
        state == AppState::Waiting,
        space_pressed,
{
}

/// Once running, the schedule keeps the game running (and a finished game
/// finished) whatever the input.
pub proof fn lemma_playing_and_game_over_stay(state: AppState, load: LoadState, space_pressed: bool)
    requires
        state == AppState::Playing || state == AppState::GameOver,
    ensures
        spec_step(state, load, space_pressed) == state,
{
}

} // verus!
