use color_puzzle::color::{generate_palette, palette_from_draws, Color, CHANNEL_MAX};
use color_puzzle::difficulty::{decoy_count, score_to_increase_difficulty_formula};
use color_puzzle::history::{GameHistory, HistoryError, LevelColor, LevelHistory};
use color_puzzle::layout::{boxes_intersect, place, Point, Rect};
use color_puzzle::menu::{
    AppState, ContinueButton, GameOverMenu, LevelHistoryOption, MainMenuButton, Pagination,
    PaginationOption, RenderLevelHistoryEvent,
};
use color_puzzle::round::{ColorPuzzle, GameMode, PuzzleColor};
use color_puzzle::timer::{GameTimer, TimerMode, TimerState};
use rand::rngs::StdRng;
use rand::SeedableRng;

fn level(scored: bool) -> LevelHistory {
    LevelHistory::new(Point { x: 1, y: 2 }, 0, vec![], scored)
}

#[test]
fn palette_length_is_count_plus_one() {
    let mut rng = StdRng::seed_from_u64(1);
    for count in [0usize, 1, 4, 14, 100] {
        assert_eq!(generate_palette(&mut rng, count, 100_000).len(), count + 1);
    }
}

#[test]
fn decoys_share_one_jitter_on_all_channels() {
    let mut rng = StdRng::seed_from_u64(2);
    let p = generate_palette(&mut rng, 50, 100_000);
    let c = p[0];
    assert!(c.r <= CHANNEL_MAX && c.g <= CHANNEL_MAX && c.b <= CHANNEL_MAX);
    assert_eq!(c.a, CHANNEL_MAX);
    let mut jitters = Vec::new();
    for d in &p[1..] {
        let j = d.r - c.r;
        assert_eq!(d.g - c.g, j);
        assert_eq!(d.b - c.b, j);
        assert_eq!(d.a, c.a);
        assert!(j < 100_000);
        jitters.push(j);
    }
    assert!(jitters.iter().any(|j| *j != jitters[0]));
}

#[test]
fn palette_from_draws_in_order() {
    let c = Color::rgb(100, 200, 300);
    let p = palette_from_draws(c, &vec![5, 0, 7]);
    assert_eq!(p, vec![c, Color::rgb(105, 205, 305), Color::rgb(100, 200, 300), Color::rgb(107, 207, 307)]);
    assert!(p[2].same_as(&c));
    assert!(!p[1].same_as(&c));
}

#[test]
fn difficulty_table_boundaries() {
    let expected = [(0, 2), (5, 2), (6, 3), (10, 3), (11, 4), (30, 4), (31, 5), (50, 5), (51, 6), (60, 6), (61, 7), (1000, 7)];
    for (score, m) in expected {
        assert_eq!(score_to_increase_difficulty_formula(score), m);
    }
    assert_eq!(decoy_count(0, 1, 2), 4);
    assert_eq!(decoy_count(12, 3, 2), 24);
    assert_eq!(decoy_count(70, 1, 0), 0);
}

#[test]
fn decoy_count_never_falls_as_score_grows() {
    for difficulty in 0..4usize {
        let mut last = 0;
        for score in 0..100usize {
            let n = decoy_count(score, difficulty, 2);
            assert!(n >= last);
            last = n;
        }
    }
}

#[test]
fn placed_tiles_do_not_overlap() {
    let mut rng = StdRng::seed_from_u64(3);
    let bounds = Rect { min_x: -1000, min_y: -1000, max_x: 1000, max_y: 1000 };
    let existing = vec![Rect { min_x: -50, min_y: -50, max_x: 50, max_y: 50 }];
    let ps = place(&mut rng, 10, 100, &bounds, &existing);
    assert_eq!(ps.len(), 10);
    let boxed = |p: Point| Rect { min_x: p.x, min_y: p.y, max_x: p.x + 100, max_y: p.y + 100 };
    for (i, p) in ps.iter().enumerate() {
        assert!(p.at.x >= -1000 && p.at.x <= 900 && p.at.y >= -1000 && p.at.y <= 900);
        if !p.exhausted {
            assert!(!boxes_intersect(&boxed(p.at), &existing[0]));
            for q in &ps[..i] {
                assert!(!boxes_intersect(&boxed(p.at), &boxed(q.at)));
            }
        }
    }
}

#[test]
fn crowded_board_marks_exhausted_tiles() {
    let mut rng = StdRng::seed_from_u64(4);
    let bounds = Rect { min_x: 0, min_y: 0, max_x: 150, max_y: 150 };
    let ps = place(&mut rng, 3, 100, &bounds, &vec![]);
    assert_eq!(ps.len(), 3);
    assert!(!ps[0].exhausted);
    assert!(ps[1].exhausted && ps[2].exhausted);
    let tiny = Rect { min_x: 5, min_y: 7, max_x: 10, max_y: 10 };
    let ps = place(&mut rng, 1, 100, &tiny, &vec![]);
    assert_eq!(ps[0].at, Point { x: 5, y: 7 });
}

#[test]
fn touching_boxes_intersect() {
    let a = Rect { min_x: 0, min_y: 0, max_x: 10, max_y: 10 };
    let b = Rect { min_x: 10, min_y: 10, max_x: 20, max_y: 20 };
    let c = Rect { min_x: 11, min_y: 0, max_x: 20, max_y: 10 };
    assert!(boxes_intersect(&a, &b));
    assert!(!boxes_intersect(&a, &c));
}

#[test]
fn timer_full_run_finishes_once() {
    let mut t = GameTimer::new();
    assert_eq!(t.state, TimerState::Paused);
    assert!(!t.advance(10));
    t.reset(30_000);
    assert!(t.advance(30_000));
    assert!(t.finished());
    assert_eq!(t.remaining_millis(), 0);
    assert!(!t.advance(30_000));
    assert!(t.finished());
}

#[test]
fn timer_overshoot_clamps() {
    let mut t = GameTimer::from_millis(30_000, TimerMode::Once);
    assert!(t.advance(31_000));
    assert_eq!(t.elapsed, 30_000);
    assert_eq!(t.remaining_millis(), 0);
}

#[test]
fn repeating_timer_wraps() {
    let mut t = GameTimer::from_millis(1_000, TimerMode::Repeating);
    assert!(!t.advance(600));
    assert!(t.advance(600));
    assert_eq!(t.elapsed, 0);
    assert_eq!(t.state, TimerState::Running);
}

#[test]
fn timer_extend_keeps_elapsed() {
    let mut t = GameTimer::from_millis(10_000, TimerMode::Once);
    t.advance(4_000);
    t.extend(3_000);
    assert_eq!(t.duration, 13_000);
    assert_eq!(t.elapsed, 4_000);
    t.advance(20_000);
    t.extend(3_000);
    assert_eq!(t.duration, 13_000);
    assert_eq!(t.elapsed, 13_000);
}

#[test]
fn timer_paused_interval_not_counted() {
    let mut t = GameTimer::from_millis(10_000, TimerMode::Once);
    t.advance(2_000);
    t.pause();
    assert!(t.paused());
    assert!(!t.advance(9_000));
    t.unpause();
    assert_eq!(t.elapsed, 2_000);
    assert_eq!(t.state, TimerState::Running);
    t.reset_paused(5_000);
    assert!(t.paused());
    assert_eq!(t.elapsed, 0);
}

#[test]
fn ledger_counts_and_streaks() {
    let mut h = GameHistory::new();
    let pattern = [true, true, false, true, true, true, false];
    for s in pattern {
        h.add_level(level(s));
    }
    assert_eq!(h.levels_played, 7);
    assert_eq!(h.levels.len(), 7);
    assert_eq!(h.total_score, 5);
    assert_eq!(h.current_streak, 0);
    // The best streak is compared before each scoring round extends it.
    assert_eq!(h.max_streak, 2);
    h.add_level(level(true));
    assert_eq!(h.current_streak, 1);
    assert_eq!(h.max_streak, 2);
}

#[test]
fn ledger_reset_empties_everything() {
    let mut h = GameHistory::new();
    h.set_game_mode(GameMode::TimeTrial);
    for _ in 0..4 {
        h.add_level(level(true));
    }
    h.set_total_time(9_000);
    h.reset();
    assert_eq!(h.levels_played, 0);
    assert_eq!(h.total_score, 0);
    assert_eq!(h.max_streak, 0);
    assert_eq!(h.current_streak, 0);
    assert_eq!(h.total_time, 0);
    assert!(h.levels.is_empty());
    assert!(h.for_each_level(0, 5).is_empty());
    assert_eq!(h.get_level_history(0).unwrap_err(), HistoryError::IndexOutOfRange);
    assert_eq!(h.game_mode, GameMode::TimeTrial);
}

#[test]
fn ledger_page_of_twelve() {
    let mut h = GameHistory::new();
    for i in 0..12 {
        h.add_level(level(i % 2 == 0));
    }
    let page = h.for_each_level(10, 5);
    assert_eq!(page.len(), 2);
    assert_eq!(page[0].0, 10);
    assert_eq!(page[1].0, 11);
    assert!(page[0].1.scored);
    assert!(!page[1].1.scored);
    assert_eq!(h.for_each_level(0, 5).len(), 5);
    assert!(h.for_each_level(20, 5).is_empty());
    assert!(h.for_each_level(3, 0).is_empty());
    assert!(h.get_level_history(11).is_ok());
}

#[test]
fn formatted_time() {
    let mut h = GameHistory::new();
    assert_eq!(h.get_formatted_time(), "00:00");
    h.set_total_time(125_000);
    assert_eq!(h.get_formatted_time(), "02:05");
    h.set_total_time(6_000_999);
    assert_eq!(h.get_formatted_time(), "100:00");
}

#[test]
fn level_history_correct_color() {
    let c = Color::rgb(1, 2, 3);
    let d = Color::rgb(4, 5, 6);
    let colors = vec![
        LevelColor { color: d, x: 0, y: 0, is_correct_color: false },
        LevelColor { color: c, x: 5, y: 5, is_correct_color: true },
    ];
    let h = LevelHistory::new(Point { x: 0, y: 0 }, 1, colors.clone(), true);
    assert_eq!(h.get_correct_color(), c);
    assert_eq!(h.for_each_color(), colors);
}

#[test]
fn puzzle_defaults_and_setup() {
    let mut p = ColorPuzzle::new();
    assert_eq!(p.get_score(), 0);
    assert_eq!(p.game_mode, GameMode::TimeTrial);
    assert_eq!(p.start_millis, 30_000);
    assert_eq!(p.get_millis_added_per_success(), 3_000);
    assert_eq!(p.get_score_color_count(), 4);
    assert_eq!(p.get_width(), 750);
    assert_eq!(p.get_height(), 550);
    p.setup(&GameMode::AgainstTheClock);
    assert_eq!(p.start_millis, 60_000);
    assert_eq!(p.setup_timer().duration, 60_000);
    p.setup(&GameMode::Infinite);
    assert_eq!(p.start_millis, 0);
    assert_eq!(GameMode::iter(), vec![GameMode::Infinite, GameMode::AgainstTheClock, GameMode::TimeTrial]);
    assert_eq!(GameMode::TimeTrial.as_str(), "Soma de Tempo");
    assert_eq!(GameMode::Infinite.as_str(), "Infinto");
}

#[test]
fn puzzle_correct_color_and_tiles() {
    let mut p = ColorPuzzle::new();
    let a = Color::rgb(1, 1, 1);
    let b = Color::rgb(2, 2, 2);
    p.set_round(vec![a, b, a], vec![Point { x: 0, y: 0 }, Point { x: 1, y: 1 }, Point { x: 2, y: 2 }], 2);
    assert_eq!(p.get_color(), a);
    assert!(p.is_correct_color(0));
    assert!(!p.is_correct_color(1));
    let tiles = p.for_each_color();
    assert_eq!(tiles[1], PuzzleColor { index: 1, is_correct_color: false, color: b, x: 1, y: 1 });
    assert_eq!(tiles[1].as_level_color(), LevelColor { color: b, x: 1, y: 1, is_correct_color: false });
    let mut timer = GameTimer::from_millis(1_000, TimerMode::Once);
    p.increase_score(&mut timer);
    assert_eq!(p.get_score(), 1);
    assert_eq!(timer.duration, 4_000);
    p.reset();
    assert_eq!(p.get_score(), 0);
}

#[test]
fn pagination_pages() {
    let mut p = Pagination::default();
    for (count, pages) in [(0usize, 1usize), (3, 1), (5, 1), (6, 2), (10, 2), (12, 3)] {
        p.set_max_page(count);
        assert_eq!(p.max_page, pages);
    }
    p.set_max_page(12);
    p.next_page();
    assert_eq!(p.get_page(), 1);
    assert_eq!(p.get_start_index(), 5);
    assert_eq!(p.get_end_index(), 10);
    p.next_page();
    p.next_page();
    assert_eq!(p.get_page(), 0);
    p.previous_page();
    assert_eq!(p.get_page(), 2);
    assert_eq!(p.next_option(), PaginationOption { index: 2 });
    assert_eq!(p.previous_option(), PaginationOption { index: 1 });
    p.set_page(0);
    assert_eq!(p.previous_option(), PaginationOption { index: 0 });
    assert_eq!(p.next_option(), PaginationOption { index: 1 });
    let q = Pagination::new(4);
    assert_eq!(q.max_page, 4);
    assert_eq!(q.get_items_per_page(), 5);
    p.reset();
    assert_eq!((p.current_page, p.max_page, p.items_per_page), (0, 0, 5));
}

#[test]
fn history_menu_options() {
    let mut h = GameHistory::new();
    for _ in 0..12 {
        h.add_level(level(true));
    }
    let mut p = Pagination::default();
    p.set_max_page(h.levels_played);
    PaginationOption { index: 2 }.press(&mut p);
    let options = p.level_options(&h);
    assert_eq!(options, vec![LevelHistoryOption { index: 10 }, LevelHistoryOption { index: 11 }]);
    assert_eq!(options[1].press(), (AppState::LevelHistory, RenderLevelHistoryEvent { index: 11 }));
    p.set_page(0);
    assert_eq!(p.level_options(&h).len(), 5);
}

#[test]
fn menu_buttons_lead_to_screens() {
    let mut t = GameTimer::from_millis(1_000, TimerMode::Once);
    assert_eq!(ContinueButton.press(&t), AppState::Game);
    assert_eq!(ContinueButton.label(&t), "Continue");
    t.advance(1_000);
    assert_eq!(ContinueButton.press(&t), AppState::GameOver);
    assert_eq!(ContinueButton.label(&t), "Menu");
    assert_eq!(MainMenuButton {}.press(), AppState::MainMenu);
    assert_eq!(GameOverMenu {}.press(), AppState::GameOverResume);
}
