//! The record of finished rounds: what each looked like, whether it scored,
//! and the totals and streaks over a game.

use vstd::prelude::*;
use vstd::string::*;
use crate::color::Color;
use crate::layout::Point;
use crate::round::GameMode;

verus! {

/// A tile as it was shown in a finished round.
#[derive(Clone, Copy, Debug, PartialEq, Eq, Structural)]
pub struct LevelColor {
    pub color: Color,
    pub x: i64,
    pub y: i64,
    pub is_correct_color: bool,
}

/// One finished round, kept so that it can be drawn again.
#[derive(Clone, Debug)]
pub struct LevelHistory {
    pub clicked_position: Point,
    pub correct_color_index: usize,
    pub colors: Vec<LevelColor>,
    pub scored: bool,
}

/// The round a click has just finished, before it is recorded.
pub struct LastInteractionEvent {
    clicked_position: Point,
    correct_color_index: usize,
    colors: Vec<LevelColor>,
    scored: bool,
}

#[derive(Clone, Copy, Debug, PartialEq, Eq, Structural)]
pub enum HistoryError {
    /// No round has been recorded at the index asked for.
    IndexOutOfRange,
}

/// A copy of the tiles, in order.
pub fn copy_colors(colors: &Vec<LevelColor>) -> (r: Vec<LevelColor>)
    ensures
        r@ == colors@,
{
    let mut r: Vec<LevelColor> = Vec::new();
    let mut i: usize = 0;
    while i < colors.len()
        invariant
            i <= colors@.len(),
            r@ == colors@.take(i as int),
        decreases colors@.len() - i,
    {
        r.push(colors[i]);
        i += 1;
        assert(colors@.take(i as int) =~= colors@.take(i - 1).push(colors@[i - 1]));
    }
    assert(colors@.take(i as int) =~= colors@);
    r
}

impl LevelHistory {
    pub fn new(
        clicked_position: Point,
        correct_color_index: usize,
        colors: Vec<LevelColor>,
        scored: bool,
    ) -> (h: LevelHistory)
        ensures
            h.clicked_position == clicked_position,
            h.correct_color_index == correct_color_index,
            h.colors@ == colors@,
            h.scored == scored,
    {
        LevelHistory { clicked_position, correct_color_index, colors, scored }
    }

    /// The tiles of the round, in the order they were drawn.
    pub fn for_each_color(&self) -> (r: Vec<LevelColor>)
        ensures
            r@ == self.colors@,
    {
        copy_colors(&self.colors)
    }

    /// The colour of the tile that was correct.
    pub fn get_correct_color(&self) -> (c: Color)
        requires
            self.correct_color_index < self.colors@.len(),
        ensures
            c == self.colors@[self.correct_color_index as int].color,
    {
        self.colors[self.correct_color_index].color
    }
}

impl LastInteractionEvent {
    pub fn new(
        clicked_position: Point,
        correct_color_index: usize,
        colors: Vec<LevelColor>,
        scored: bool,
    ) -> (e: LastInteractionEvent)
        ensures
            e.clicked_position() == clicked_position,
            e.correct_color_index() == correct_color_index,
            e.colors() == colors@,
            e.scored() == scored,
    {
        LastInteractionEvent { clicked_position, correct_color_index, colors, scored }
    }

    pub closed spec fn clicked_position(&self) -> Point {
        self.clicked_position
    }

    pub closed spec fn correct_color_index(&self) -> usize {
        self.correct_color_index
    }

    pub closed spec fn colors(&self) -> Seq<LevelColor> {
        self.colors@
    }

    pub closed spec fn scored(&self) -> bool {
        self.scored
    }

    /// The record of this round.
    pub fn level_history(&self) -> (h: LevelHistory)
        ensures
            h.clicked_position == self.clicked_position(),
            h.correct_color_index == self.correct_color_index(),
            h.colors@ == self.colors(),
            h.scored == self.scored(),
    {
        LevelHistory::new(
            self.clicked_position,
            self.correct_color_index,
            copy_colors(&self.colors),
            self.scored,
        )
    }
}

/// How many of the rounds scored.
pub open spec fn scored_count(s: Seq<LevelHistory>) -> nat
    decreases s.len(),
{
    if s.len() == 0 {
        0
    } else {
        scored_count(s.drop_last()) + if s.last().scored {
            1nat
        } else {
            0nat
        }
    }
}

/// How many rounds at the end of `s` scored in a row.
pub open spec fn streak_of(s: Seq<LevelHistory>) -> nat
    decreases s.len(),
{
    if s.len() == 0 {
        0
    } else if s.last().scored {
        streak_of(s.drop_last()) + 1
    } else {
        0
    }
}

/// The best streak as the ledger keeps it: each scoring round first compares
/// the streak it extends with the best so far, then extends it.
pub open spec fn best_streak_of(s: Seq<LevelHistory>) -> nat
    decreases s.len(),
{
    if s.len() == 0 {
        0
    } else if s.last().scored {
        let before = best_streak_of(s.drop_last());
        let run = streak_of(s.drop_last());
        if before >= run {
            before
        } else {
            run
        }
    } else {
        best_streak_of(s.drop_last())
    }
}

/// The number of entries of a page that starts at `start` and holds at most
/// `n`, over `len` entries.
pub open spec fn page_len(len: int, start: int, n: int) -> int {
    if start >= len {
        0
    } else if n <= len - start {
        n
    } else {
        len - start
    }
}

proof fn lemma_counts_bounded(s: Seq<LevelHistory>)
    ensures
        scored_count(s) <= s.len(),
        streak_of(s) <= s.len(),
        best_streak_of(s) <= s.len(),
    decreases s.len(),
{
    if s.len() > 0 {
        lemma_counts_bounded(s.drop_last());
    }
}

/// The character of the decimal digit `d`.
pub open spec fn digit_char(d: int) -> char {
    if d == 0 {
        '0'
    } else if d == 1 {
        '1'
    } else if d == 2 {
        '2'
    } else if d == 3 {
        '3'
    } else if d == 4 {
        '4'
    } else if d == 5 {
        '5'
    } else if d == 6 {
        '6'
    } else if d == 7 {
        '7'
    } else if d == 8 {
        '8'
    } else {
        '9'
    }
}

/// `n` in decimal, without leading zeros.
pub open spec fn decimal(n: nat) -> Seq<char>
    decreases n,
{
    if n < 10 {
        seq![digit_char(n as int)]
    } else {
        decimal(n / 10).push(digit_char((n % 10) as int))
    }
}

/// `n` in decimal, with a leading zero below ten.
pub open spec fn two_digits(n: nat) -> Seq<char> {
    if n < 10 {
        seq!['0', digit_char(n as int)]
    } else {
        decimal(n)
    }
}

/// Whole minutes and seconds of `millis`, as `MM:SS`.
pub open spec fn clock_text(millis: nat) -> Seq<char> {
    two_digits(millis / 1000 / 60) + seq![':'] + two_digits(millis / 1000 % 60)
}

fn digit_str(d: u64) -> (s: &'static str)
    requires
        d < 10,
    ensures
        s@ == seq![digit_char(d as int)],
{
    proof {
        reveal_strlit("0");
        reveal_strlit("1");
        reveal_strlit("2");
        reveal_strlit("3");
        reveal_strlit("4");
        reveal_strlit("5");
        reveal_strlit("6");
        reveal_strlit("7");
        reveal_strlit("8");
        reveal_strlit("9");
    }
    if d == 0 {
        "0"
    } else if d == 1 {
        "1"
    } else if d == 2 {
        "2"
    } else if d == 3 {
        "3"
    } else if d == 4 {
        "4"
    } else if d == 5 {
        "5"
    } else if d == 6 {
        "6"
    } else if d == 7 {
        "7"
    } else if d == 8 {
        "8"
    } else {
        "9"
    }
}

fn push_decimal(out: &mut String, n: u64)
    ensures
        final(out)@ == old(out)@ + decimal(n as nat),
    decreases n,
{
    if n >= 10 {
        push_decimal(out, n / 10);
    }
    out.append(digit_str(n % 10));
}

fn push_two_digits(out: &mut String, n: u64)
    ensures
        final(out)@ == old(out)@ + two_digits(n as nat),
{
    if n < 10 {
        out.append(digit_str(0));
    }
    push_decimal(out, n);
    assert(final(out)@ =~= old(out)@ + two_digits(n as nat));
}

/// The ledger of a game.
pub struct GameHistory {
    pub levels_played: usize,
    pub total_score: usize,
    pub max_streak: usize,
    /// Time played, in milliseconds.
    pub total_time: u64,
    pub game_mode: GameMode,
    pub current_streak: usize,
    pub levels: Vec<LevelHistory>,
}

impl GameHistory {
    /// The counters agree with the recorded rounds.
    pub open spec fn wf(&self) -> bool {
        &&& self.levels_played == self.levels@.len()
        &&& self.total_score == scored_count(self.levels@)
        &&& self.current_streak == streak_of(self.levels@)
        &&& self.max_streak == best_streak_of(self.levels@)
    }

    /// `after` is `before` with `level` recorded.
    pub open spec fn recorded(before: GameHistory, after: GameHistory, level: LevelHistory) -> bool {
        &&& after.levels@ == before.levels@.push(level)
        &&& after.levels_played == before.levels_played + 1
        &&& after.total_time == before.total_time
        &&& after.game_mode == before.game_mode
        &&& if level.scored {
            &&& after.max_streak == if before.max_streak >= before.current_streak {
                before.max_streak
            } else {
                before.current_streak
            }
            &&& after.current_streak == before.current_streak + 1
            &&& after.total_score == before.total_score + 1
        } else {
            &&& after.max_streak == before.max_streak
            &&& after.current_streak == 0
            &&& after.total_score == before.total_score
        }
    }

    /// No round recorded, and every counter at zero.
    pub open spec fn is_empty(&self) -> bool {
        &&& self.levels@.len() == 0
        &&& self.levels_played == 0
        &&& self.total_score == 0
        &&& self.current_streak == 0
        &&& self.max_streak == 0
        &&& self.total_time == 0
    }

    /// An empty ledger for the infinite mode.
    pub fn new() -> (h: GameHistory)
        ensures
            h.wf(),
            h.is_empty(),
            h.game_mode == GameMode::Infinite,
    {
        GameHistory {
            levels_played: 0,
            total_score: 0,
            current_streak: 0,
            max_streak: 0,
            game_mode: GameMode::Infinite,
            total_time: 0,
            levels: Vec::new(),
        }
    }

    pub fn set_game_mode(&mut self, game_mode: GameMode)
        requires
            old(self).wf(),
        ensures
            final(self).wf(),
            *final(self) == (GameHistory { game_mode, ..*old(self) }),
    {
        self.game_mode = game_mode;
    }

    /// Sets the time played, in milliseconds.
    pub fn set_total_time(&mut self, total_time: u64)
        requires
            old(self).wf(),
        ensures
            final(self).wf(),
            *final(self) == (GameHistory { total_time, ..*old(self) }),
    {
        self.total_time = total_time;
    }

    /// Appends a finished round and updates the totals and streaks.
    pub fn add_level(&mut self, level: LevelHistory)
        requires
            old(self).wf(),
            old(self).levels@.len() < usize::MAX,
        ensures
            final(self).wf(),
            GameHistory::recorded(*old(self), *final(self), level),
    {
        proof {
            lemma_counts_bounded(self.levels@);
        }
        self.levels_played = self.levels_played + 1;
        if level.scored {
            if self.current_streak > self.max_streak {
                self.max_streak = self.current_streak;
            }
            self.current_streak = self.current_streak + 1;
            self.total_score = self.total_score + 1;
        } else {
            self.current_streak = 0;
        }
        let ghost before = self.levels@;
        self.levels.push(level);
        assert(self.levels@.drop_last() =~= before);
    }

    /// The round recorded at `index`.
    pub fn get_level_history(&self, index: usize) -> (r: Result<&LevelHistory, HistoryError>)
        ensures
            match r {
                Ok(level) => index < self.levels@.len() && *level == self.levels@[index as int],
                Err(e) => index >= self.levels@.len() && e == HistoryError::IndexOutOfRange,
            },
    {
        if index < self.levels.len() {
            Ok(&self.levels[index])
        } else {
            Err(HistoryError::IndexOutOfRange)
        }
    }

    /// The rounds from `start` on, at most `n` of them, each with its index.
    /// Past the end the page is shorter, or empty.
    pub fn for_each_level(&self, start: usize, n: usize) -> (page: Vec<(usize, &LevelHistory)>)
        ensures
            page@.len() == page_len(self.levels@.len() as int, start as int, n as int),
            forall|k: int|
                0 <= k < page@.len() ==> {
                    &&& (#[trigger] page@[k]).0 == start + k
                    &&& *page@[k].1 == self.levels@[start + k]
                },
    {
        let mut page: Vec<(usize, &LevelHistory)> = Vec::new();
        let len = self.levels.len();
        if start >= len {
            return page;
        }
        let count: usize = if n <= len - start {
            n
        } else {
            len - start
        };
        let mut k: usize = 0;
        while k < count
            invariant
                start < len == self.levels@.len(),
                count <= len - start,
                k <= count,
                page@.len() == k,
                forall|m: int|
                    0 <= m < k ==> {
                        &&& (#[trigger] page@[m]).0 == start + m
                        &&& *page@[m].1 == self.levels@[start + m]
                    },
            decreases count - k,
        {
            page.push((start + k, &self.levels[start + k]));
            k += 1;
        }
        page
    }

    /// The time played as whole minutes and seconds, `MM:SS`.
    pub fn get_formatted_time(&self) -> (s: String)
        ensures
            s@ == clock_text(self.total_time as nat),
    {
        let seconds = self.total_time / 1000;
        let mut s = String::new();
        push_two_digits(&mut s, seconds / 60);
        proof {
            reveal_strlit(":");
        }
        s.append(":");
        push_two_digits(&mut s, seconds % 60);
        s
    }

    /// Clears every round and counter; the game mode stays.
    pub fn reset(&mut self)
        requires
            old(self).wf(),
        ensures
            final(self).wf(),
            final(self).is_empty(),
            final(self).game_mode == old(self).game_mode,
    {
        self.levels_played = 0;
        self.total_score = 0;
        self.current_streak = 0;
        self.max_streak = 0;
        self.total_time = 0;
        self.levels = Vec::new();
    }
}

impl Default for GameHistory {
    fn default() -> (h: GameHistory)
        ensures
            h.wf(),
            h.is_empty(),
            h.game_mode == GameMode::Infinite,
    {
        GameHistory::new()
    }
}

/// Recording is append-only: starting from an empty ledger, after any number
/// of recorded rounds the ledger holds exactly those rounds in order, and the
/// number of levels played is the number of calls.
pub proof fn recording_appends(hs: Seq<GameHistory>, entries: Seq<LevelHistory>)
    requires
        hs.len() == entries.len() + 1,
        hs[0].is_empty(),
        forall|k: int|
            0 <= k < entries.len() ==> GameHistory::recorded(hs[k], hs[k + 1], #[trigger] entries[k]),
    ensures
        hs.last().levels_played == entries.len(),
        hs.last().levels@ == entries,
{
    assert forall|n: int| 0 <= n <= entries.len() implies {
        &&& (#[trigger] hs[n]).levels_played == n
        &&& hs[n].levels@ == entries.take(n)
    } by {
        lemma_recorded_prefix(hs, entries, n);
    }
    assert(entries.take(entries.len() as int) =~= entries);
}

proof fn lemma_recorded_prefix(hs: Seq<GameHistory>, entries: Seq<LevelHistory>, n: int)
    requires
        hs.len() == entries.len() + 1,
        hs[0].is_empty(),
        forall|k: int|
            0 <= k < entries.len() ==> GameHistory::recorded(hs[k], hs[k + 1], #[trigger] entries[k]),
        0 <= n <= entries.len(),
    ensures
        hs[n].levels_played == n,
        hs[n].levels@ == entries.take(n),
    decreases n,
{
    if n == 0 {
        assert(entries.take(0) =~= Seq::<LevelHistory>::empty());
    } else {
        lemma_recorded_prefix(hs, entries, n - 1);
        assert(GameHistory::recorded(hs[n - 1], hs[n], entries[n - 1]));
        assert(entries.take(n) =~= entries.take(n - 1).push(entries[n - 1]));
    }
}

/// After a reset every query finds nothing: no index holds a round, every
/// page is empty, and all counters are zero.
pub proof fn reset_leaves_nothing(h: GameHistory, index: int, start: int, n: int)
    requires
        h.wf(),
        h.is_empty(),
        0 <= start,
    ensures
        index >= h.levels@.len() || index < 0,
        page_len(h.levels@.len() as int, start, n) == 0,
        h.levels_played == 0 && h.total_score == 0 && h.max_streak == 0 && h.current_streak == 0,
{
}

} // verus!
