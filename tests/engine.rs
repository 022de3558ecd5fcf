use color_puzzle::color::Color;
use color_puzzle::engine::{GameOver, PuzzleRoundEngine};
use color_puzzle::history::HistoryError;
use color_puzzle::layout::Point;
use color_puzzle::round::{GameMode, NewGameEvent};
use color_puzzle::timer::TimerState;

fn five_tile_round(engine: &mut PuzzleRoundEngine, correct: usize) {
    let colors = vec![
        Color::rgb(10, 20, 30),
        Color::rgb(11, 21, 31),
        Color::rgb(12, 22, 32),
        Color::rgb(13, 23, 33),
        Color::rgb(14, 24, 34),
    ];
    let positions = vec![
        Point { x: 0, y: 0 },
        Point { x: 300, y: 0 },
        Point { x: 600, y: 0 },
        Point { x: 900, y: 0 },
        Point { x: 1200, y: 0 },
    ];
    engine.puzzle.set_round(colors, positions, correct);
}

#[test]
fn click_on_correct_tile_scores_and_records() {
    let mut engine = PuzzleRoundEngine::new(7);
    engine.configure(GameMode::Infinite, 0, 0);
    five_tile_round(&mut engine, 2);
    assert_eq!(engine.current_round().len(), 5);
    let scored = engine.on_click(610, 10);
    assert!(scored);
    assert_eq!(engine.score(), 1);
    assert_eq!(engine.history.levels_played, 1);
    assert_eq!(engine.history.levels.len(), 1);
    let entry = engine.history_entry(0).unwrap();
    assert!(entry.scored);
    assert_eq!(entry.correct_color_index, 2);
    assert_eq!(entry.clicked_position, Point { x: 610, y: 10 });
    assert_eq!(entry.colors.len(), 5);
    assert!(entry.colors[2].is_correct_color);
    assert!(!entry.colors[0].is_correct_color);
    assert_eq!(entry.colors[3].x, 900);
}

#[test]
fn click_elsewhere_misses() {
    let mut engine = PuzzleRoundEngine::new(7);
    engine.configure(GameMode::TimeTrial, 30_000, 3_000);
    five_tile_round(&mut engine, 2);
    assert!(!engine.on_click(10, 10));
    assert_eq!(engine.score(), 0);
    assert_eq!(engine.timer.duration, 30_000);
    assert_eq!(engine.history.levels_played, 1);
    assert!(!engine.history_entry(0).unwrap().scored);
    assert_eq!(engine.history.current_streak, 0);
}

#[test]
fn click_box_touching_tile_edge_counts() {
    let mut engine = PuzzleRoundEngine::new(7);
    engine.configure(GameMode::Infinite, 0, 0);
    five_tile_round(&mut engine, 1);
    // The click square reaches 30 to the right and up of the click.
    assert!(engine.on_click(270, -30));
    five_tile_round(&mut engine, 1);
    assert!(!engine.on_click(269, -31));
}

#[test]
fn time_trial_success_extends_duration() {
    let mut engine = PuzzleRoundEngine::new(3);
    engine.configure(GameMode::TimeTrial, 30_000, 3_000);
    assert_eq!(engine.tick(4_000), None);
    five_tile_round(&mut engine, 0);
    assert!(engine.on_click(5, 5));
    assert_eq!(engine.timer.duration, 33_000);
    assert_eq!(engine.timer.elapsed, 4_000);
    assert_eq!(engine.remaining_millis(), 29_000);
}

#[test]
fn time_trial_fresh_success_gives_thirty_three_seconds() {
    let mut engine = PuzzleRoundEngine::new(3);
    engine.configure(GameMode::TimeTrial, 30_000, 3_000);
    five_tile_round(&mut engine, 4);
    assert!(engine.on_click(1210, 100));
    assert_eq!(engine.timer.duration, 33_000);
    assert_eq!(engine.timer.elapsed, 0);
}

#[test]
fn against_the_clock_success_keeps_duration() {
    let mut engine = PuzzleRoundEngine::new(3);
    engine.configure(GameMode::AgainstTheClock, 60_000, 3_000);
    five_tile_round(&mut engine, 0);
    assert!(engine.on_click(5, 5));
    assert_eq!(engine.timer.duration, 60_000);
}

#[test]
fn tick_past_end_finishes_with_game_over() {
    let mut engine = PuzzleRoundEngine::new(1);
    engine.configure(GameMode::AgainstTheClock, 30_000, 0);
    five_tile_round(&mut engine, 0);
    engine.on_click(5, 5);
    assert_eq!(engine.tick(31_000), Some(GameOver { score: 1 }));
    assert_eq!(engine.timer.state, TimerState::Finished);
    assert_eq!(engine.remaining_millis(), 0);
    assert_eq!(engine.tick(1_000), None);
}

#[test]
fn infinite_mode_never_ticks() {
    let mut engine = PuzzleRoundEngine::new(1);
    engine.configure(GameMode::Infinite, 0, 0);
    assert_eq!(engine.tick(10_000), None);
    assert_eq!(engine.timer.elapsed, 0);
}

#[test]
fn pause_holds_the_clock() {
    let mut engine = PuzzleRoundEngine::new(1);
    engine.configure(GameMode::AgainstTheClock, 60_000, 0);
    engine.tick(1_000);
    engine.pause();
    assert_eq!(engine.tick(50_000), None);
    engine.unpause();
    assert_eq!(engine.timer.elapsed, 1_000);
    assert_eq!(engine.remaining_millis(), 59_000);
}

#[test]
fn start_round_draws_five_tiles_at_score_zero() {
    let mut engine = PuzzleRoundEngine::new(42);
    engine.configure(GameMode::TimeTrial, 30_000, 3_000);
    let tiles = engine.start_round();
    assert_eq!(tiles.len(), 5);
    let correct = engine.puzzle.get_correct_color_index();
    assert!(correct < 5);
    for (i, t) in tiles.iter().enumerate() {
        assert_eq!(t.index, i);
    }
    assert!(tiles[correct].is_correct_color);
    let tile = tiles[correct];
    assert!(engine.on_click(tile.x, tile.y));
    assert_eq!(engine.score(), 1);
}

#[test]
fn start_round_grows_with_score() {
    let mut engine = PuzzleRoundEngine::new(5);
    engine.configure(GameMode::Infinite, 0, 0);
    engine.puzzle.score = 6;
    assert_eq!(engine.start_round().len(), 7);
    engine.puzzle.score = 61;
    assert_eq!(engine.start_round().len(), 15);
}

#[test]
fn same_seed_same_round() {
    let mut a = PuzzleRoundEngine::new(11);
    let mut b = PuzzleRoundEngine::new(11);
    assert_eq!(a.start_round(), b.start_round());
}

#[test]
fn different_seeds_draw_different_colors() {
    let mut reds = Vec::new();
    for seed in 0..20u64 {
        let mut engine = PuzzleRoundEngine::new(seed);
        engine.start_round();
        reds.push(engine.puzzle.current_colors[0].r);
    }
    assert!(reds.iter().any(|r| *r != reds[0]));
    assert!(reds.iter().any(|r| *r != 0));
}

#[test]
fn history_page_past_twelve_levels() {
    let mut engine = PuzzleRoundEngine::new(9);
    engine.configure(GameMode::Infinite, 0, 0);
    for _ in 0..12 {
        five_tile_round(&mut engine, 0);
        engine.on_click(5, 5);
    }
    assert_eq!(engine.history.levels_played, 12);
    let page = engine.history_page(10, 5);
    assert_eq!(page.len(), 2);
    assert_eq!(page[0].0, 10);
    assert_eq!(page[1].0, 11);
    assert!(engine.history_page(12, 5).is_empty());
    assert_eq!(engine.history_entry(12).unwrap_err(), HistoryError::IndexOutOfRange);
}

#[test]
fn new_game_event_applies_presets() {
    let mut engine = PuzzleRoundEngine::new(9);
    five_tile_round(&mut engine, 0);
    engine.configure(GameMode::Infinite, 0, 0);
    engine.on_click(5, 5);
    engine.handle_new_game_event(&NewGameEvent { game_mode: GameMode::AgainstTheClock });
    assert_eq!(engine.score(), 0);
    assert_eq!(engine.timer.duration, 60_000);
    assert_eq!(engine.timer.state, TimerState::Running);
    assert_eq!(engine.history.levels_played, 0);
    assert_eq!(engine.history.game_mode, GameMode::AgainstTheClock);
    engine.handle_new_game_event(&NewGameEvent { game_mode: GameMode::TimeTrial });
    assert_eq!(engine.timer.duration, 30_000);
    assert_eq!(engine.puzzle.millis_added_per_success, 3_000);
}

#[test]
fn window_size_sets_tile_side() {
    let mut engine = PuzzleRoundEngine::new(9);
    engine.set_window_size(800, 600);
    assert_eq!(engine.puzzle.shape_size, 140);
    engine.set_window_size(400, 600);
    assert_eq!(engine.puzzle.shape_size, 100);
}

#[test]
fn entering_the_game_restores_the_countdown() {
    let mut engine = PuzzleRoundEngine::new(2);
    let tiles = engine.start_puzzle_level(800, 600);
    assert_eq!(tiles.len(), 5);
    assert_eq!(engine.timer.duration, 30_000);
    assert_eq!(engine.timer.state, TimerState::Running);
    assert_eq!(engine.puzzle.shape_size, 140);
    engine.tick(5_000);
    engine.pause();
    engine.start_puzzle_level(400, 600);
    assert_eq!(engine.timer.elapsed, 5_000);
    assert_eq!(engine.timer.state, TimerState::Running);
    assert_eq!(engine.puzzle.shape_size, 100);
    assert_eq!(engine.tick(40_000), Some(GameOver { score: 0 }));
    engine.start_puzzle_level(400, 600);
    assert_eq!(engine.timer.elapsed, 0);
    assert_eq!(engine.timer.state, TimerState::Running);
}
