//! The puzzle round engine: one owner for the game state, the countdown and
//! the history, driven by clicks and clock ticks.

use vstd::prelude::*;
use crate::history::{GameHistory, HistoryError, LastInteractionEvent, LevelColor, LevelHistory, page_len};
use crate::color::{is_jittered_palette, DEFAULT_JITTER_MAX};
use crate::layout::Point;
use crate::random::seeded_rng;
use crate::round::{
    click_hits, preset_millis_per_success, preset_start_millis, ColorPuzzle, GameMode, NewGameEvent,
    PuzzleColor,
};
use crate::timer::{GameTimer, TimerMode, TimerState};

verus! {

/// Sent when the countdown runs out: the game is over, with this score.
#[derive(Clone, Copy, Debug, PartialEq, Eq, Structural)]
pub struct GameOver {
    pub score: usize,
}

/// The tiles of the round of `p` as the history keeps them.
pub open spec fn level_colors_of(p: ColorPuzzle) -> Seq<LevelColor> {
    p.tiles().map_values(
        |t: PuzzleColor|
            LevelColor { color: t.color, x: t.x, y: t.y, is_correct_color: t.is_correct_color },
    )
}

pub struct PuzzleRoundEngine {
    pub puzzle: ColorPuzzle,
    pub timer: GameTimer,
    pub history: GameHistory,
    pub rng: rand::rngs::StdRng,
}

impl PuzzleRoundEngine {
    pub open spec fn wf(&self) -> bool {
        &&& self.puzzle.wf()
        &&& self.timer.wf()
        &&& self.history.wf()
    }

    /// An engine whose random draws all follow from `seed`, in time-trial
    /// mode with a paused, empty countdown and no history.
    pub fn new(seed: u64) -> (e: PuzzleRoundEngine)
        ensures
            e.wf(),
            !e.puzzle.has_round(),
            e.puzzle.score == 0,
            e.puzzle.game_mode == GameMode::TimeTrial,
            e.timer.state == TimerState::Paused,
            e.timer.duration == 0,
            e.history.is_empty(),
    {
        PuzzleRoundEngine {
            puzzle: ColorPuzzle::new(),
            timer: GameTimer::new(),
            history: GameHistory::new(),
            rng: seeded_rng(seed),
        }
    }

    /// Starts a new game: the mode, its starting time and the time each
    /// correct answer adds. The score and the history are cleared and the
    /// countdown restarts, running, from the starting time.
    pub fn configure(&mut self, game_mode: GameMode, start_millis: u64, millis_per_success: u64)
        requires
            old(self).wf(),
        ensures
            final(self).wf(),
            final(self).puzzle.score == 0,
            final(self).puzzle.game_mode == game_mode,
            final(self).puzzle.start_millis == start_millis,
            final(self).puzzle.millis_added_per_success == millis_per_success,
            final(self).puzzle.current_colors@ == old(self).puzzle.current_colors@,
            final(self).puzzle.positions@ == old(self).puzzle.positions@,
            final(self).puzzle.correct_color_index == old(self).puzzle.correct_color_index,
            final(self).puzzle.shape_size == old(self).puzzle.shape_size,
            final(self).puzzle.difficulty == old(self).puzzle.difficulty,
            final(self).puzzle.objects_per_difficulty == old(self).puzzle.objects_per_difficulty,
            final(self).timer == (GameTimer {
                duration: start_millis,
                elapsed: 0,
                state: TimerState::Running,
                mode: TimerMode::Once,
            }),
            final(self).history.is_empty(),
            final(self).history.game_mode == game_mode,
    {
        self.puzzle.setup(&game_mode);
        self.puzzle.start_millis = start_millis;
        self.puzzle.millis_added_per_success = millis_per_success;
        self.timer.set_mode(TimerMode::Once);
        self.timer.reset(start_millis);
        self.history.reset();
        self.history.set_game_mode(game_mode);
    }

    /// Starts a new game with the preset times of the event's mode.
    pub fn handle_new_game_event(&mut self, event: &NewGameEvent)
        requires
            old(self).wf(),
        ensures
            final(self).wf(),
            final(self).puzzle.score == 0,
            final(self).puzzle.game_mode == event.game_mode,
            final(self).puzzle.start_millis == preset_start_millis(event.game_mode),
            final(self).puzzle.millis_added_per_success == preset_millis_per_success(
                event.game_mode,
                old(self).puzzle.millis_added_per_success,
            ),
            final(self).timer == (GameTimer {
                duration: preset_start_millis(event.game_mode),
                elapsed: 0,
                state: TimerState::Running,
                mode: TimerMode::Once,
            }),
            final(self).history.is_empty(),
            final(self).history.game_mode == event.game_mode,
    {
        self.puzzle.setup(&event.game_mode);
        let start = self.puzzle.start_millis;
        let per_success = self.puzzle.millis_added_per_success;
        self.configure(event.game_mode, start, per_success);
    }

    /// Takes the window size, which sets the board and the tile side.
    pub fn set_window_size(&mut self, width: u32, height: u32)
        requires
            old(self).wf(),
        ensures
            final(self).wf(),
            final(self).puzzle.width == width,
            final(self).puzzle.height == height,
            final(self).puzzle.shape_size == if width / 4 > crate::round::MAX_SHAPE_SIZE {
                crate::round::MAX_SHAPE_SIZE
            } else {
                width / 4
            },
            final(self).puzzle.score == old(self).puzzle.score,
            final(self).timer == old(self).timer,
            final(self).history == old(self).history,
    {
        self.puzzle.set_window_size(width, height);
    }

    /// Draws the next round and returns its tiles.
    pub fn start_round(&mut self) -> (tiles: Vec<PuzzleColor>)
        requires
            old(self).wf(),
        ensures
            final(self).wf(),
            final(self).puzzle.has_round(),
            tiles@ == final(self).puzzle.tiles(),
            tiles@.len() == old(self).puzzle.decoys() + 1,
            is_jittered_palette(final(self).puzzle.current_colors@, DEFAULT_JITTER_MAX as int),
            final(self).puzzle == (ColorPuzzle {
                current_colors: final(self).puzzle.current_colors,
                positions: final(self).puzzle.positions,
                correct_color_index: final(self).puzzle.correct_color_index,
                ..old(self).puzzle
            }),
            final(self).timer == old(self).timer,
            final(self).history == old(self).history,
    {
        self.puzzle.generate_colors(&mut self.rng);
        self.puzzle.for_each_color()
    }

    /// Enters the game screen on a window of the given size: a countdown
    /// that has run out, or that was set for another starting time, starts
    /// over from the mode's starting time; a paused one runs again. Then the
    /// next round is drawn and its tiles returned.
    pub fn start_puzzle_level(&mut self, width: u32, height: u32) -> (tiles: Vec<PuzzleColor>)
        requires
            old(self).wf(),
        ensures
            final(self).wf(),
            final(self).puzzle.has_round(),
            tiles@ == final(self).puzzle.tiles(),
            final(self).puzzle.width == width,
            final(self).puzzle.height == height,
            final(self).puzzle.score == old(self).puzzle.score,
            final(self).timer == if old(self).timer.duration != old(self).puzzle.start_millis
                || old(self).timer.state == TimerState::Finished {
                GameTimer::from_millis_spec(old(self).puzzle.start_millis, TimerMode::Once)
            } else {
                old(self).timer.unpaused_spec()
            },
            final(self).history == old(self).history,
    {
        self.puzzle.set_window_size(width, height);
        if self.timer.duration != self.puzzle.start_millis || self.timer.finished() {
            self.timer = self.puzzle.setup_timer();
        }
        self.timer.unpause();
        self.start_round()
    }

    /// The tiles of the round on the board.
    pub fn current_round(&self) -> (tiles: Vec<PuzzleColor>)
        requires
            self.wf(),
        ensures
            tiles@ == self.puzzle.tiles(),
    {
        self.puzzle.for_each_color()
    }

    /// Takes a click at world position (`x`, `y`) on the current round:
    /// judges it, counts a score (extending the countdown in time-trial
    /// mode), and records the round in the history. Returns whether it
    /// scored.
    pub fn on_click(&mut self, x: i64, y: i64) -> (scored: bool)
        requires
            old(self).wf(),
            old(self).puzzle.has_round(),
            old(self).puzzle.score < usize::MAX,
            old(self).history.levels@.len() < usize::MAX,
            old(self).timer.duration + old(self).puzzle.millis_added_per_success <= u64::MAX,
        ensures
            final(self).wf(),
            scored == click_hits(
                old(self).puzzle.positions@[old(self).puzzle.correct_color_index as int],
                old(self).puzzle.shape_size as int,
                Point { x, y },
            ),
            final(self).puzzle == (ColorPuzzle {
                score: if scored {
                    (old(self).puzzle.score + 1) as usize
                } else {
                    old(self).puzzle.score
                },
                ..old(self).puzzle
            }),
            final(self).timer == if scored && old(self).puzzle.game_mode == GameMode::TimeTrial {
                old(self).timer.extended(old(self).puzzle.millis_added_per_success)
            } else {
                old(self).timer
            },
            GameHistory::recorded(
                old(self).history,
                final(self).history,
                final(self).history.levels@.last(),
            ),
            final(self).history.levels@.last().clicked_position == (Point { x, y }),
            final(self).history.levels@.last().correct_color_index == old(self).puzzle.correct_color_index,
            final(self).history.levels@.last().colors@ == level_colors_of(old(self).puzzle),
            final(self).history.levels@.last().scored == scored,
    {
        let tiles = self.puzzle.for_each_color();
        let mut colors: Vec<LevelColor> = Vec::new();
        let mut i: usize = 0;
        while i < tiles.len()
            invariant
                i <= tiles@.len(),
                colors@.len() == i,
                forall|k: int|
                    0 <= k < i ==> #[trigger] colors@[k] == (LevelColor {
                        color: tiles@[k].color,
                        x: tiles@[k].x,
                        y: tiles@[k].y,
                        is_correct_color: tiles@[k].is_correct_color,
                    }),
            decreases tiles@.len() - i,
        {
            colors.push(tiles[i].as_level_color());
            i += 1;
        }
        let click = Point { x, y };
        let correct = self.puzzle.get_correct_color_index();
        let scored = self.puzzle.evaluate_click(click, &mut self.timer);
        let event = LastInteractionEvent::new(click, correct, colors, scored);
        let level = event.level_history();
        assert(level.colors@ =~= level_colors_of(old(self).puzzle));
        self.history.add_level(level);
        scored
    }

    /// Lets `delta` milliseconds of play pass. Without a clock (the infinite
    /// mode) nothing changes. Returns the end of the game when the countdown
    /// runs out during this tick.
    pub fn tick(&mut self, delta: u64) -> (over: Option<GameOver>)
        requires
            old(self).wf(),
        ensures
            final(self).wf(),
            final(self).puzzle == old(self).puzzle,
            final(self).history == old(self).history,
            final(self).timer == if old(self).puzzle.game_mode == GameMode::Infinite {
                old(self).timer
            } else {
                old(self).timer.advanced(delta)
            },
            over == if old(self).puzzle.game_mode != GameMode::Infinite && old(self).timer.runs_out(
                delta,
            ) {
                Some(GameOver { score: old(self).puzzle.score })
            } else {
                None
            },
    {
        if self.puzzle.game_mode == GameMode::Infinite {
            return None;
        }
        if self.timer.advance(delta) {
            Some(GameOver { score: self.puzzle.score })
        } else {
            None
        }
    }

    /// Stops the countdown, as during a transition between rounds.
    pub fn pause(&mut self)
        requires
            old(self).wf(),
        ensures
            final(self).wf(),
            final(self).timer == old(self).timer.paused_spec(),
            final(self).puzzle == old(self).puzzle,
            final(self).history == old(self).history,
    {
        self.timer.pause();
    }

    pub fn unpause(&mut self)
        requires
            old(self).wf(),
        ensures
            final(self).wf(),
            final(self).timer == old(self).timer.unpaused_spec(),
            final(self).puzzle == old(self).puzzle,
            final(self).history == old(self).history,
    {
        self.timer.unpause();
    }

    /// The time left on the countdown, in milliseconds.
    pub fn remaining_millis(&self) -> (r: u64)
        requires
            self.wf(),
        ensures
            r == self.timer.duration - self.timer.elapsed,
    {
        self.timer.remaining_millis()
    }

    pub fn score(&self) -> (s: usize)
        ensures
            s == self.puzzle.score,
    {
        self.puzzle.score
    }

    /// The recorded rounds from `start` on, at most `n` of them, each with
    /// its index.
    pub fn history_page(&self, start: usize, n: usize) -> (page: Vec<(usize, &LevelHistory)>)
        ensures
            page@.len() == page_len(self.history.levels@.len() as int, start as int, n as int),
            forall|k: int|
                0 <= k < page@.len() ==> {
                    &&& (#[trigger] page@[k]).0 == start + k
                    &&& *page@[k].1 == self.history.levels@[start + k]
                },
    {
        self.history.for_each_level(start, n)
    }

    /// The round recorded at `index`.
    pub fn history_entry(&self, index: usize) -> (r: Result<&LevelHistory, HistoryError>)
        ensures
            match r {
                Ok(level) => index < self.history.levels@.len() && *level == self.history.levels@[index as int],
                Err(e) => index >= self.history.levels@.len() && e == HistoryError::IndexOutOfRange,
            },
    {
        self.history.get_level_history(index)
    }
}

} // verus!
