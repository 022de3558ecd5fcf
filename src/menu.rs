//! The history review and game-over screens: pages of recorded rounds, and
//! what each button leads to.

use vstd::prelude::*;
use crate::history::{GameHistory, page_len};
use crate::timer::{GameTimer, TimerState};

verus! {

/// The rounds listed on one page of the history.
pub const ITEMS_PER_PAGE: usize = 5;

/// The screens of the game.
#[derive(Clone, Copy, Debug, PartialEq, Eq, Structural)]
pub enum AppState {
    MainMenu,
    Game,
    Paused,
    LevelHistory,
    History,
    GameOverResume,
    GameOver,
}

/// Asks for the recorded round at `index` to be drawn again.
#[derive(Clone, Copy, Debug, PartialEq, Eq, Structural)]
pub struct RenderLevelHistoryEvent {
    pub index: usize,
}

/// The entry of a recorded round on a history page.
#[derive(Clone, Copy, Debug, PartialEq, Eq, Structural)]
pub struct LevelHistoryOption {
    pub index: usize,
}

/// A button that turns to page `index`.
#[derive(Clone, Copy, Debug, PartialEq, Eq, Structural)]
pub struct PaginationOption {
    pub index: usize,
}

/// Leaves the history: back to the game, or to the game-over screen once
/// the countdown has run out.
#[derive(Clone, Copy, Debug, PartialEq, Eq, Structural)]
pub struct ContinueButton;

/// Leaves the game-over screen for the main menu.
#[derive(Clone, Copy, Debug, PartialEq, Eq, Structural)]
pub struct MainMenuButton {}

/// The game-over panel; pressing it opens the summary of the game.
#[derive(Clone, Copy, Debug, PartialEq, Eq, Structural)]
pub struct GameOverMenu {}

/// The pages of the history.
pub struct Pagination {
    pub current_page: usize,
    pub max_page: usize,
    pub items_per_page: usize,
}

/// The number of pages for `count` items: at least one.
pub open spec fn pages_for(count: int, per_page: int) -> int {
    if count % per_page != 0 {
        count / per_page + 1
    } else if count <= per_page {
        1
    } else {
        count / per_page
    }
}

impl Default for Pagination {
    fn default() -> (p: Pagination)
        ensures
            p.wf(),
            p.current_page == 0,
            p.max_page == 0,
            p.items_per_page == ITEMS_PER_PAGE,
    {
        Pagination { current_page: 0, max_page: 0, items_per_page: ITEMS_PER_PAGE }
    }
}

impl Pagination {
    pub open spec fn wf(&self) -> bool {
        self.items_per_page > 0
    }

    /// The first page of `max_page`.
    pub fn new(max_page: usize) -> (p: Pagination)
        ensures
            p.wf(),
            p.current_page == 0,
            p.max_page == max_page,
            p.items_per_page == ITEMS_PER_PAGE,
    {
        Pagination { current_page: 0, max_page, items_per_page: ITEMS_PER_PAGE }
    }

    /// Sets the number of pages from the number of items.
    pub fn set_max_page(&mut self, count: usize)
        requires
            old(self).wf(),
        ensures
            final(self).wf(),
            final(self).max_page == pages_for(count as int, old(self).items_per_page as int),
            final(self).current_page == old(self).current_page,
            final(self).items_per_page == old(self).items_per_page,
    {
        if count % self.items_per_page != 0 {
            assert(count / self.items_per_page < usize::MAX) by (nonlinear_arith)
                requires
                    self.items_per_page >= 2 || count % self.items_per_page == 0,
                    count % self.items_per_page != 0,
                    self.items_per_page > 0,
            ;
            self.max_page = count / self.items_per_page + 1;
        } else if count <= self.items_per_page {
            self.max_page = 1;
        } else {
            self.max_page = count / self.items_per_page;
        }
    }

    /// Turns to the next page, from the last back to the first.
    pub fn next_page(&mut self)
        requires
            old(self).wf(),
            old(self).max_page > 0,
            old(self).current_page < usize::MAX,
        ensures
            final(self).wf(),
            final(self).current_page == (old(self).current_page + 1) % (old(self).max_page as int),
            final(self).max_page == old(self).max_page,
            final(self).items_per_page == old(self).items_per_page,
    {
        self.current_page = (self.current_page + 1) % self.max_page;
    }

    /// Turns to the previous page, from the first round to the last.
    pub fn previous_page(&mut self)
        requires
            old(self).wf(),
            old(self).max_page > 0,
            old(self).current_page + old(self).max_page <= usize::MAX,
        ensures
            final(self).wf(),
            final(self).current_page == (old(self).current_page + old(self).max_page - 1) % (
            old(self).max_page as int),
            final(self).max_page == old(self).max_page,
            final(self).items_per_page == old(self).items_per_page,
    {
        self.current_page = (self.current_page + self.max_page - 1) % self.max_page;
    }

    pub fn set_page(&mut self, page: usize)
        requires
            old(self).wf(),
        ensures
            final(self).wf(),
            final(self).current_page == page,
            final(self).max_page == old(self).max_page,
            final(self).items_per_page == old(self).items_per_page,
    {
        self.current_page = page;
    }

    pub fn get_page(&self) -> (p: usize)
        ensures
            p == self.current_page,
    {
        self.current_page
    }

    /// The index of the first item of the current page.
    pub fn get_start_index(&self) -> (i: usize)
        requires
            self.current_page * self.items_per_page <= usize::MAX,
        ensures
            i == self.current_page * self.items_per_page,
    {
        self.current_page * self.items_per_page
    }

    /// The index just past the last item of the current page.
    pub fn get_end_index(&self) -> (i: usize)
        requires
            self.current_page < usize::MAX,
            (self.current_page + 1) * self.items_per_page <= usize::MAX,
        ensures
            i == (self.current_page + 1) * self.items_per_page,
    {
        (self.current_page + 1) * self.items_per_page
    }

    pub fn get_items_per_page(&self) -> (n: usize)
        ensures
            n == self.items_per_page,
    {
        self.items_per_page
    }

    /// Back to the first page, with no pages and the usual page size.
    pub fn reset(&mut self)
        ensures
            final(self).wf(),
            final(self).current_page == 0,
            final(self).max_page == 0,
            final(self).items_per_page == ITEMS_PER_PAGE,
    {
        self.current_page = 0;
        self.max_page = 0;
        self.items_per_page = ITEMS_PER_PAGE;
    }

    /// The button to the page before, or to the first page when on it.
    pub fn previous_option(&self) -> (o: PaginationOption)
        ensures
            o.index == if self.current_page > 0 {
                self.current_page - 1
            } else {
                0
            },
    {
        PaginationOption {
            index: if self.current_page > 0 {
                self.current_page - 1
            } else {
                0
            },
        }
    }

    /// The button to the page after, or to the current one when it is the
    /// last.
    pub fn next_option(&self) -> (o: PaginationOption)
        ensures
            o.index == if self.current_page + 1 < self.max_page {
                self.current_page + 1
            } else {
                self.current_page as int
            },
    {
        PaginationOption {
            index: if self.max_page > 0 && self.current_page < self.max_page - 1 {
                self.current_page + 1
            } else {
                self.current_page
            },
        }
    }

    /// The entries of the current page of `history`: its rounds from the
    /// page's first index on, at most a page of them.
    pub fn level_options(&self, history: &GameHistory) -> (options: Vec<LevelHistoryOption>)
        requires
            self.current_page * self.items_per_page <= usize::MAX,
        ensures
            options@.len() == page_len(
                history.levels@.len() as int,
                self.current_page * self.items_per_page,
                self.items_per_page as int,
            ),
            forall|k: int|
                0 <= k < options@.len() ==> (#[trigger] options@[k]).index == self.current_page
                    * self.items_per_page + k,
    {
        let start = self.get_start_index();
        let page = history.for_each_level(start, self.items_per_page);
        let mut options: Vec<LevelHistoryOption> = Vec::new();
        let mut k: usize = 0;
        while k < page.len()
            invariant
                k <= page@.len(),
                options@.len() == k,
                forall|m: int| 0 <= m < page@.len() ==> (#[trigger] page@[m]).0 == start + m,
                forall|m: int| 0 <= m < k ==> (#[trigger] options@[m]).index == start + m,
            decreases page@.len() - k,
        {
            options.push(LevelHistoryOption { index: page[k].0 });
            k += 1;
        }
        options
    }
}

impl LevelHistoryOption {
    /// Opens the recorded round: the screen to show and the round to draw.
    pub fn press(&self) -> (r: (AppState, RenderLevelHistoryEvent))
        ensures
            r == (AppState::LevelHistory, RenderLevelHistoryEvent { index: self.index }),
    {
        (AppState::LevelHistory, RenderLevelHistoryEvent { index: self.index })
    }
}

impl PaginationOption {
    /// Turns the history to this button's page.
    pub fn press(&self, pagination: &mut Pagination)
        requires
            old(pagination).wf(),
        ensures
            final(pagination).wf(),
            final(pagination).current_page == self.index,
            final(pagination).max_page == old(pagination).max_page,
            final(pagination).items_per_page == old(pagination).items_per_page,
    {
        pagination.set_page(self.index);
    }
}

impl ContinueButton {
    /// The button's text: back to the menu once the countdown has run out,
    /// otherwise on with the game.
    pub fn label(&self, timer: &GameTimer) -> (s: &'static str)
        ensures
            timer.state == TimerState::Finished ==> s@ == "Menu"@,
            timer.state != TimerState::Finished ==> s@ == "Continue"@,
    {
        if timer.finished() {
            "Menu"
        } else {
            "Continue"
        }
    }

    /// The screen the button leads to.
    pub fn press(&self, timer: &GameTimer) -> (s: AppState)
        ensures
            s == if timer.state == TimerState::Finished {
                AppState::GameOver
            } else {
                AppState::Game
            },
    {
        if timer.finished() {
            AppState::GameOver
        } else {
            AppState::Game
        }
    }
}

impl MainMenuButton {
    pub fn press(&self) -> (s: AppState)
        ensures
            s == AppState::MainMenu,
    {
        AppState::MainMenu
    }
}

impl GameOverMenu {
    pub fn press(&self) -> (s: AppState)
        ensures
            s == AppState::GameOverResume,
    {
        AppState::GameOverResume
    }
}

} // verus!
