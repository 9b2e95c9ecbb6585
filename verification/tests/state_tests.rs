use flappy::state::{bird_collision, check_loading, check_waiting, step, AppState, LoadState};

#[test]
fn loading_moves_on_only_when_loaded() {
    assert_eq!(check_loading(LoadState::Loaded), Some(AppState::Waiting));
    assert_eq!(check_loading(LoadState::Loading), None);
    assert_eq!(check_loading(LoadState::NotLoaded), None);
    assert_eq!(check_loading(LoadState::Failed), None);
}

#[test]
fn space_starts_the_game() {
    assert_eq!(check_waiting(true), Some(AppState::Playing));
    assert_eq!(check_waiting(false), None);
}

#[test]
fn any_hit_ends_the_game() {
    assert_eq!(bird_collision(&vec![]), None);
    assert_eq!(bird_collision(&vec![false, false, false]), None);
    assert_eq!(bird_collision(&vec![false, true, false]), Some(AppState::GameOver));
    assert_eq!(bird_collision(&vec![true]), Some(AppState::GameOver));
}

#[test]
fn schedule_walks_through_the_screens() {
    let mut s = AppState::Setup;
    s = step(s, LoadState::Loading, true);
    assert_eq!(s, AppState::Setup);
    s = step(s, LoadState::Loaded, false);
    assert_eq!(s, AppState::Waiting);
    s = step(s, LoadState::Loaded, false);
    assert_eq!(s, AppState::Waiting);
    s = step(s, LoadState::Loaded, true);
    assert_eq!(s, AppState::Playing);
    s = step(s, LoadState::NotLoaded, true);
    assert_eq!(s, AppState::Playing);
    assert_eq!(step(AppState::GameOver, LoadState::Loaded, true), AppState::GameOver);
}

#[test]
fn schedule_never_skips_a_screen() {
    // From setup, even with space held, a loaded frame only reaches the waiting screen.
    assert_eq!(step(AppState::Setup, LoadState::Loaded, true), AppState::Waiting);
}
