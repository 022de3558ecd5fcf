//! The state of a game: the score, the current round's palette and layout,
//! which tile is correct, and the settings of the game mode.

use vstd::prelude::*;
use crate::color::{Color, generate_palette, DEFAULT_JITTER_MAX};
use crate::difficulty::{decoy_count, decoys_for};
use crate::history::LevelColor;
use crate::layout::{place, corner_in, layout_fits, Placement, Point, Rect};
use crate::random::draw_between;
use crate::timer::{GameTimer, TimerMode, TimerState};

verus! {

/// The side of the square that a click covers, its lower-left corner at the
/// click.
pub const CLICK_SIZE: i64 = 30;

/// The largest tile side that a window size leads to.
pub const MAX_SHAPE_SIZE: u32 = 140;

/// How a game is timed.
#[derive(Clone, Copy, Debug, PartialEq, Eq, Structural)]
pub enum GameMode {
    /// No clock.
    Infinite,
    /// A fixed time for the whole game.
    AgainstTheClock,
    /// A starting time that each correct answer extends.
    TimeTrial,
}

impl GameMode {
    /// The three modes, in menu order.
    pub fn iter() -> (r: Vec<GameMode>)
        ensures
            r@ == seq![GameMode::Infinite, GameMode::AgainstTheClock, GameMode::TimeTrial],
    {
        vec![GameMode::Infinite, GameMode::AgainstTheClock, GameMode::TimeTrial]
    }

    /// The mode's name on the menu.
    pub fn as_str(&self) -> (r: &'static str)
        ensures
            *self == GameMode::Infinite ==> r@ == "Infinto"@,
            *self == GameMode::AgainstTheClock ==> r@ == "Contra o Tempo"@,
            *self == GameMode::TimeTrial ==> r@ == "Soma de Tempo"@,
    {
        match self {
            GameMode::Infinite => "Infinto",
            GameMode::AgainstTheClock => "Contra o Tempo",
            GameMode::TimeTrial => "Soma de Tempo",
        }
    }
}

/// Asks for a new game in this mode.
#[derive(Clone, Copy, Debug, PartialEq, Eq, Structural)]
pub struct NewGameEvent {
    pub game_mode: GameMode,
}

/// The starting time of a mode's preset: none without a clock, a minute
/// against the clock, half a minute in time trial.
pub open spec fn preset_start_millis(mode: GameMode) -> u64 {
    match mode {
        GameMode::Infinite => 0u64,
        GameMode::AgainstTheClock => 60_000u64,
        GameMode::TimeTrial => 30_000u64,
    }
}

/// The time a correct answer adds in a mode's preset: three seconds in time
/// trial; other modes keep what was set.
pub open spec fn preset_millis_per_success(mode: GameMode, before: u64) -> u64 {
    if mode == GameMode::TimeTrial {
        3000u64
    } else {
        before
    }
}

/// A tile of the current round, ready to draw.
#[derive(Clone, Copy, Debug, PartialEq, Eq, Structural)]
pub struct PuzzleColor {
    pub index: usize,
    pub is_correct_color: bool,
    pub color: Color,
    pub x: i64,
    pub y: i64,
}

impl PuzzleColor {
    /// The tile as the history keeps it.
    pub fn as_level_color(&self) -> (c: LevelColor)
        ensures
            c == (LevelColor {
                color: self.color,
                x: self.x,
                y: self.y,
                is_correct_color: self.is_correct_color,
            }),
    {
        LevelColor { color: self.color, x: self.x, y: self.y, is_correct_color: self.is_correct_color }
    }
}

/// A click at `click` touches the tile of side `size` at `tile`: the click's
/// square and the tile's overlap, edges included.
pub open spec fn click_hits(tile: Point, size: int, click: Point) -> bool {
    !(tile.x > click.x + CLICK_SIZE || click.x > tile.x + size || tile.y > click.y + CLICK_SIZE
        || click.y > tile.y + size)
}

/// The half-span of lower-left corners on one axis of a board of `extent`
/// for tiles of side `size`; none where the tile is larger.
pub open spec fn half_span(extent: int, size: int) -> int {
    if extent >= size {
        (extent - size) / 2
    } else {
        0
    }
}

/// The board's box: corners range over `-half..=half` on each axis, so that
/// tiles stay within the padded window.
pub open spec fn board_of(width: int, height: int, size: int) -> Rect {
    Rect {
        min_x: -half_span(width, size) as i64,
        min_y: -half_span(height, size) as i64,
        max_x: (half_span(width, size) + size) as i64,
        max_y: (half_span(height, size) + size) as i64,
    }
}

/// The tile shown at `i`.
pub open spec fn tile_spec(colors: Seq<Color>, positions: Seq<Point>, correct: int, i: int) -> PuzzleColor {
    PuzzleColor {
        index: i as usize,
        is_correct_color: colors[i] == colors[correct],
        color: colors[i],
        x: positions[i].x,
        y: positions[i].y,
    }
}

/// The game state and the settings of its mode.
pub struct ColorPuzzle {
    pub score: usize,
    pub current_colors: Vec<Color>,
    pub positions: Vec<Point>,
    pub correct_color_index: usize,
    pub game_mode: GameMode,
    pub difficulty: usize,
    pub millis_added_per_success: u64,
    pub objects_per_difficulty: usize,
    pub shape_size: u32,
    pub start_millis: u64,
    pub transition_millis: u64,
    pub width: u32,
    pub height: u32,
    pub screen_padding: u32,
}

impl ColorPuzzle {
    /// A round has as many positions as colours, and a correct index inside
    /// the palette once a round is drawn; the largest decoy count is a
    /// machine integer.
    pub open spec fn wf(&self) -> bool {
        &&& self.positions@.len() == self.current_colors@.len()
        &&& self.current_colors@.len() > 0 ==> self.correct_color_index < self.current_colors@.len()
        &&& decoys_for(61, self.difficulty as int, self.objects_per_difficulty as int) < usize::MAX
    }

    /// A round is on the board.
    pub open spec fn has_round(&self) -> bool {
        self.current_colors@.len() > 0
    }

    /// The decoys of the next round, for the current score.
    pub open spec fn decoys(&self) -> int {
        decoys_for(self.score as int, self.difficulty as int, self.objects_per_difficulty as int)
    }

    /// The tiles of the current round.
    pub open spec fn tiles(&self) -> Seq<PuzzleColor> {
        Seq::new(
            self.current_colors@.len(),
            |i: int|
                tile_spec(
                    self.current_colors@,
                    self.positions@,
                    self.correct_color_index as int,
                    i,
                ),
        )
    }

    pub open spec fn board(&self) -> Rect {
        board_of(
            self.width - self.screen_padding,
            self.height - self.screen_padding,
            self.shape_size as int,
        )
    }

    /// The settings of a mode's preset.
    pub open spec fn set_up_for(before: ColorPuzzle, after: ColorPuzzle, mode: GameMode) -> bool {
        &&& after.score == 0
        &&& after.game_mode == mode
        &&& after.transition_millis == 1000
        &&& after.start_millis == preset_start_millis(mode)
        &&& after.millis_added_per_success == preset_millis_per_success(
            mode,
            before.millis_added_per_success,
        )
        &&& after.current_colors@ == before.current_colors@
        &&& after.positions@ == before.positions@
        &&& after.correct_color_index == before.correct_color_index
        &&& after.difficulty == before.difficulty
        &&& after.objects_per_difficulty == before.objects_per_difficulty
        &&& after.shape_size == before.shape_size
        &&& after.width == before.width
        &&& after.height == before.height
        &&& after.screen_padding == before.screen_padding
    }

    /// A game in time-trial mode on an 800 by 600 window, before its first
    /// round.
    pub fn new() -> (p: ColorPuzzle)
        ensures
            p.wf(),
            !p.has_round(),
            p.score == 0,
            p.game_mode == GameMode::TimeTrial,
            p.difficulty == 1,
            p.objects_per_difficulty == 2,
            p.millis_added_per_success == 3000,
            p.shape_size == 200,
            p.start_millis == 30_000,
            p.transition_millis == 1000,
            p.width == 800,
            p.height == 600,
            p.screen_padding == 50,
    {
        let mut puzzle = ColorPuzzle {
            score: 0,
            current_colors: Vec::new(),
            positions: Vec::new(),
            correct_color_index: 0,
            game_mode: GameMode::TimeTrial,
            difficulty: 1,
            objects_per_difficulty: 2,
            millis_added_per_success: 3000,
            shape_size: 200,
            start_millis: 60_000,
            transition_millis: 1000,
            width: 800,
            height: 600,
            screen_padding: 50,
        };
        puzzle.setup(&GameMode::TimeTrial);
        puzzle
    }

    /// Starts a game in `game_mode`: the score goes back to zero and the
    /// mode's preset times apply.
    pub fn setup(&mut self, game_mode: &GameMode)
        requires
            old(self).wf(),
        ensures
            final(self).wf(),
            ColorPuzzle::set_up_for(*old(self), *final(self), *game_mode),
    {
        self.reset();
        match game_mode {
            GameMode::Infinite => {
                self.start_millis = 0;
                self.transition_millis = 1000;
                self.game_mode = GameMode::Infinite;
            },
            GameMode::AgainstTheClock => {
                self.start_millis = 60_000;
                self.transition_millis = 1000;
                self.game_mode = GameMode::AgainstTheClock;
            },
            GameMode::TimeTrial => {
                self.start_millis = 30_000;
                self.transition_millis = 1000;
                self.millis_added_per_success = 3000;
                self.game_mode = GameMode::TimeTrial;
            },
        }
    }

    /// Takes the window size; the tile side becomes a quarter of the width,
    /// at most `MAX_SHAPE_SIZE`.
    pub fn set_window_size(&mut self, width: u32, height: u32)
        requires
            old(self).wf(),
        ensures
            final(self).wf(),
            *final(self) == (ColorPuzzle {
                width,
                height,
                shape_size: if width / 4 > MAX_SHAPE_SIZE {
                    MAX_SHAPE_SIZE
                } else {
                    width / 4
                },
                ..*old(self)
            }),
    {
        self.width = width;
        self.height = height;
        self.shape_size = if width / 4 > MAX_SHAPE_SIZE {
            MAX_SHAPE_SIZE
        } else {
            width / 4
        };
    }

    /// The playable width: the window's, less the padding.
    pub fn get_width(&self) -> (w: i64)
        ensures
            w == self.width - self.screen_padding,
    {
        self.width as i64 - self.screen_padding as i64
    }

    /// The playable height: the window's, less the padding.
    pub fn get_height(&self) -> (h: i64)
        ensures
            h == self.height - self.screen_padding,
    {
        self.height as i64 - self.screen_padding as i64
    }

    pub fn get_correct_color_index(&self) -> (i: usize)
        ensures
            i == self.correct_color_index,
    {
        self.correct_color_index
    }

    /// The number of decoys for the current score.
    pub fn get_score_color_count(&self) -> (n: usize)
        requires
            self.wf(),
        ensures
            n == self.decoys(),
    {
        proof {
            if self.score <= 61 {
                crate::difficulty::decoy_count_is_monotonic(
                    self.score as int,
                    61,
                    self.difficulty as nat,
                    self.objects_per_difficulty as nat,
                );
            }
        }
        decoy_count(self.score, self.difficulty, self.objects_per_difficulty)
    }

    /// The correct colour of the current round.
    pub fn get_color(&self) -> (c: Color)
        requires
            self.wf(),
            self.has_round(),
        ensures
            c == self.current_colors@[self.correct_color_index as int],
    {
        self.current_colors[self.correct_color_index]
    }

    pub fn get_score(&self) -> (s: usize)
        ensures
            s == self.score,
    {
        self.score
    }

    pub fn get_millis_added_per_success(&self) -> (t: u64)
        ensures
            t == self.millis_added_per_success,
    {
        self.millis_added_per_success
    }

    /// Whether the tile at `index` holds the correct colour, all four
    /// channels equal.
    pub fn is_correct_color(&self, index: usize) -> (r: bool)
        requires
            self.wf(),
            index < self.current_colors@.len(),
        ensures
            r == (self.current_colors@[index as int] == self.current_colors@[self.correct_color_index as int]),
    {
        self.current_colors[index].same_as(&self.current_colors[self.correct_color_index])
    }

    /// A running countdown of the mode's starting time.
    pub fn setup_timer(&self) -> (t: GameTimer)
        ensures
            t.wf(),
            t.duration == self.start_millis,
            t.elapsed == 0,
            t.state == TimerState::Running,
            t.mode == TimerMode::Once,
    {
        GameTimer::from_millis(self.start_millis, TimerMode::Once)
    }

    /// Sets the score back to zero.
    pub fn reset(&mut self)
        requires
            old(self).wf(),
        ensures
            final(self).wf(),
            *final(self) == (ColorPuzzle { score: 0, ..*old(self) }),
    {
        self.score = 0;
    }

    /// Counts a correct answer; in time-trial mode it also extends the
    /// countdown by the time added per success.
    pub fn increase_score(&mut self, game_timer: &mut GameTimer)
        requires
            old(self).wf(),
            old(game_timer).wf(),
            old(self).score < usize::MAX,
            old(game_timer).duration + old(self).millis_added_per_success <= u64::MAX,
        ensures
            final(self).wf(),
            final(game_timer).wf(),
            *final(self) == (ColorPuzzle { score: (old(self).score + 1) as usize, ..*old(self) }),
            *final(game_timer) == if old(self).game_mode == GameMode::TimeTrial {
                old(game_timer).extended(old(self).millis_added_per_success)
            } else {
                *old(game_timer)
            },
    {
        self.score = self.score + 1;
        match self.game_mode {
            GameMode::TimeTrial => {
                game_timer.extend(self.millis_added_per_success);
            },
            _ => {},
        }
    }

    /// The tiles of the current round in drawing order, each with its
    /// index, colour, corner and whether it holds the correct colour.
    pub fn for_each_color(&self) -> (r: Vec<PuzzleColor>)
        requires
            self.wf(),
        ensures
            r@ == self.tiles(),
    {
        let mut r: Vec<PuzzleColor> = Vec::new();
        let mut i: usize = 0;
        while i < self.current_colors.len()
            invariant
                self.wf(),
                i <= self.current_colors@.len(),
                r@.len() == i,
                forall|k: int| 0 <= k < i ==> #[trigger] r@[k] == self.tiles()[k],
            decreases self.current_colors@.len() - i,
        {
            let correct = self.is_correct_color(i);
            let at = self.positions[i];
            r.push(PuzzleColor { index: i, is_correct_color: correct, color: self.current_colors[i], x: at.x, y: at.y });
            i += 1;
        }
        assert(r@ =~= self.tiles());
        r
    }

    /// Puts a drawn round on the board: its palette, the tiles' corners in
    /// the same order, and the index of the correct tile.
    pub fn set_round(&mut self, colors: Vec<Color>, positions: Vec<Point>, correct_index: usize)
        requires
            old(self).wf(),
            colors@.len() == positions@.len(),
            correct_index < colors@.len(),
        ensures
            final(self).wf(),
            final(self).has_round(),
            *final(self) == (ColorPuzzle {
                current_colors: final(self).current_colors,
                positions: final(self).positions,
                correct_color_index: correct_index,
                ..*old(self)
            }),
            final(self).current_colors@ == colors@,
            final(self).positions@ == positions@,
    {
        self.current_colors = colors;
        self.positions = positions;
        self.correct_color_index = correct_index;
    }

    /// The box inside which tiles are placed, centred on the origin.
    pub fn board_box(&self) -> (r: Rect)
        ensures
            r == self.board(),
            layout_fits(r, self.shape_size as int),
    {
        let s = self.shape_size as i64;
        let w = self.get_width();
        let h = self.get_height();
        let half_w: i64 = if w >= s {
            (w - s) / 2
        } else {
            0
        };
        let half_h: i64 = if h >= s {
            (h - s) / 2
        } else {
            0
        };
        Rect { min_x: -half_w, min_y: -half_h, max_x: half_w + s, max_y: half_h + s }
    }

    /// Draws a new round: a palette of the current number of decoys around a
    /// random colour, a corner for each tile on the board, and a correct
    /// index drawn over the whole palette.
    pub fn generate_colors(&mut self, rng: &mut rand::rngs::StdRng)
        requires
            old(self).wf(),
        ensures
            final(self).wf(),
            final(self).has_round(),
            final(self).current_colors@.len() == old(self).decoys() + 1,
            crate::color::is_jittered_palette(final(self).current_colors@, DEFAULT_JITTER_MAX as int),
            forall|i: int|
                0 <= i < final(self).positions@.len() ==> corner_in(
                    #[trigger] final(self).positions@[i],
                    old(self).board(),
                    old(self).shape_size as int,
                ),
            *final(self) == (ColorPuzzle {
                current_colors: final(self).current_colors,
                positions: final(self).positions,
                correct_color_index: final(self).correct_color_index,
                ..*old(self)
            }),
    {
        let count = self.get_score_color_count();
        let colors = generate_palette(rng, count, DEFAULT_JITTER_MAX);
        let board = self.board_box();
        let empty: Vec<Rect> = Vec::new();
        let placements = place(rng, colors.len(), self.shape_size as i64, &board, &empty);
        let positions = corners_of(&placements);
        let correct = draw_between(rng, 0, count as u64) as usize;
        self.set_round(colors, positions, correct);
    }

    /// Whether a click at `click` touches the correct tile.
    pub fn hits_correct_tile(&self, click: Point) -> (r: bool)
        requires
            self.wf(),
            self.has_round(),
        ensures
            r == click_hits(
                self.positions@[self.correct_color_index as int],
                self.shape_size as int,
                click,
            ),
    {
        let tile = self.positions[self.correct_color_index];
        let s = self.shape_size as i128;
        let c = CLICK_SIZE as i128;
        !(tile.x as i128 > click.x as i128 + c || click.x as i128 > tile.x as i128 + s
            || tile.y as i128 > click.y as i128 + c || click.y as i128 > tile.y as i128 + s)
    }

    /// Judges a click on the current round: it scores when it touches the
    /// correct tile, and a score counts as `increase_score` says.
    pub fn evaluate_click(&mut self, click: Point, game_timer: &mut GameTimer) -> (scored: bool)
        requires
            old(self).wf(),
            old(self).has_round(),
            old(game_timer).wf(),
            old(self).score < usize::MAX,
            old(game_timer).duration + old(self).millis_added_per_success <= u64::MAX,
        ensures
            final(self).wf(),
            final(game_timer).wf(),
            scored == click_hits(
                old(self).positions@[old(self).correct_color_index as int],
                old(self).shape_size as int,
                click,
            ),
            *final(self) == (ColorPuzzle {
                score: if scored {
                    (old(self).score + 1) as usize
                } else {
                    old(self).score
                },
                ..*old(self)
            }),
            *final(game_timer) == if scored && old(self).game_mode == GameMode::TimeTrial {
                old(game_timer).extended(old(self).millis_added_per_success)
            } else {
                *old(game_timer)
            },
    {
        let scored = self.hits_correct_tile(click);
        if scored {
            self.increase_score(game_timer);
        }
        scored
    }
}

impl Default for ColorPuzzle {
    fn default() -> (p: ColorPuzzle)
        ensures
            p.wf(),
            !p.has_round(),
            p.score == 0,
            p.game_mode == GameMode::TimeTrial,
            p.difficulty == 1,
            p.objects_per_difficulty == 2,
            p.millis_added_per_success == 3000,
            p.start_millis == 30_000,
    {
        ColorPuzzle::new()
    }
}

/// The corners of the placements, in order.
fn corners_of(ps: &Vec<Placement>) -> (r: Vec<Point>)
    ensures
        r@ == ps@.map_values(|p: Placement| p.at),
{
    let mut r: Vec<Point> = Vec::new();
    let mut i: usize = 0;
    while i < ps.len()
        invariant
            i <= ps@.len(),
            r@ == ps@.take(i as int).map_values(|p: Placement| p.at),
        decreases ps@.len() - i,
    {
        r.push(ps[i].at);
        i += 1;
        assert(ps@.take(i as int).map_values(|p: Placement| p.at) =~= ps@.take(i - 1).map_values(
            |p: Placement| p.at,
        ).push(ps@[i - 1].at));
    }
    assert(ps@.take(i as int) =~= ps@);
    r
}

} // verus!
