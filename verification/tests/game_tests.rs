use game::game::Game;

#[test]
fn new_game_has_construction_defaults() {
    let g = Game::new("classic".to_string());
    assert_eq!(g.mode, "classic");
    assert!(!g.is_paused);
    assert!(!g.is_started);
    assert!(!g.is_over);
    assert_eq!(g.winner, None);
    assert_eq!(g.rows, 8);
    assert_eq!(g.cols, 8);
    assert_eq!(g.time_elapsed, 0);
    assert_eq!(g.countdown_timer.duration, 5000);
    assert_eq!(g.countdown_timer.time_left, 5000);
}

#[test]
fn countdown_starts_game_exactly_when_it_ends() {
    // Feed ticks totalling the 5000 ms countdown: the game becomes started
    // exactly on the tick where the cumulative time first reaches 5000 ms,
    // not before.
    let mut g = Game::new("classic".to_string());
    let layout = g.start_game();
    assert!(layout.is_some(), "layout generation exhausted its retry cap");
    let mut fed = 0u64;
    for _ in 0..50 {
        assert!(!g.is_started, "started early, after only {} ms", fed);
        g.update(fed, 100);
        fed += 100;
    }
    assert_eq!(fed, 5000);
    assert!(g.is_started);
    // The transition tick itself already counts toward gameplay time.
    assert_eq!(g.time_elapsed, 100);
}

#[test]
fn elapsed_time_accumulates_while_started() {
    let mut g = Game::new("classic".to_string());
    g.start_game();
    g.update(0, 5000);
    assert!(g.is_started);
    let base = g.time_elapsed;
    for i in 0..100 {
        g.update(5000 + i * 16, 16);
    }
    assert_eq!(g.time_elapsed, base + 1600);
}

#[test]
fn pause_freezes_countdown_and_clock() {
    let mut g = Game::new("classic".to_string());
    g.start_game();
    g.update(0, 1000);
    let time_left_before = g.countdown_timer.time_left;
    let elapsed_before = g.time_elapsed;

    g.set_pause(true);
    for i in 0..10 {
        g.update(1000 + i * 100, 100);
    }
    g.set_pause(false);

    assert_eq!(g.countdown_timer.time_left, time_left_before);
    assert_eq!(g.time_elapsed, elapsed_before);
    assert!(!g.is_started);

    // Unpaused ticks take effect again.
    g.update(2000, 100);
    assert_eq!(g.countdown_timer.time_left, time_left_before - 100);
}

#[test]
fn set_pause_never_touches_started_or_over() {
    let mut g = Game::new("classic".to_string());
    g.start_game();
    g.update(0, 5000);
    g.game_over("p1".to_string());
    g.set_pause(true);
    assert!(g.is_started);
    assert!(g.is_over);
    g.set_pause(false);
    assert!(g.is_started);
    assert!(g.is_over);
}

#[test]
fn reset_restores_construction_time_defaults() {
    let mut g = Game::new("classic".to_string());
    g.start_game();
    g.update(0, 5000);
    g.update(5000, 700);
    g.game_over("p2".to_string());
    g.set_pause(true);

    g.reset();

    assert!(!g.is_over);
    assert_eq!(g.winner, None);
    assert!(!g.is_started);
    assert!(!g.is_paused);
    assert_eq!(g.time_elapsed, 0);
    assert_eq!(g.countdown_timer.time_left, 5000);
    assert!(!g.countdown_timer.is_going);
    assert!(!g.countdown_timer.is_ended);
    assert_eq!(g.mode, "classic");
}

#[test]
fn game_over_is_idempotent() {
    let mut g = Game::new("classic".to_string());
    g.start_game();
    g.game_over("p1".to_string());
    assert!(g.is_over);
    assert_eq!(g.winner, Some("p1".to_string()));
    // A second call does not overwrite the winner, nor panic.
    g.game_over("p1".to_string());
    assert_eq!(g.winner, Some("p1".to_string()));
    g.game_over("p2".to_string());
    assert_eq!(g.winner, Some("p1".to_string()));
}

#[test]
fn ticks_after_game_over_keep_the_winner() {
    let mut g = Game::new("classic".to_string());
    g.start_game();
    g.update(0, 5000);
    g.game_over("p2".to_string());
    g.update(5000, 100);
    assert!(g.is_over);
    assert_eq!(g.winner, Some("p2".to_string()));
}

#[test]
fn start_game_resets_previous_match() {
    let mut g = Game::new("classic".to_string());
    g.start_game();
    g.update(0, 5000);
    g.game_over("p1".to_string());

    let layout = g.start_game();
    assert!(layout.is_some());
    assert!(!g.is_over);
    assert_eq!(g.winner, None);
    assert!(!g.is_started);
    assert_eq!(g.time_elapsed, 0);
    assert!(g.countdown_timer.is_going);
    assert_eq!(g.countdown_timer.time_left, 5000);
}

#[test]
fn start_game_layout_fits_the_board() {
    let mut g = Game::new("classic".to_string());
    let layout = g.start_game().expect("layout generation exhausted its retry cap");
    assert_eq!(layout.len(), 8 * 8);
}

#[test]
fn set_game_mode_renames_only_the_mode() {
    let mut g = Game::new("classic".to_string());
    g.start_game();
    g.set_game_mode("blitz".to_string());
    assert_eq!(g.mode, "blitz");
    assert!(g.countdown_timer.is_going);
    assert!(!g.is_started);
}
