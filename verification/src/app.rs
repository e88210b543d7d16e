//! Application state for the menu-driven shell around the game.
//!
//! Only the state and its transitions live here: which menu entry is
//! selected, the stack of open screens, the demo counter, and the running
//! flag. Reading keys and drawing screens are outside collaborators that call
//! into these transitions.

use vstd::prelude::*;

use crate::game::Game;

verus! {

/// The screens the shell can show. The active screen is the top of
/// [`App::state`].
#[derive(Debug, PartialEq, Eq, Structural)]
pub enum AppState {
    MainMenu,
    Game,
    Help,
    Credits,
}

/// A cursor over a fixed list of menu entries.
#[derive(Default, Debug, Clone)]
pub struct MenuSelector {
    pub selected_index: usize,
    pub num_items: usize,
    pub items: Vec<String>,
}

impl MenuSelector {
    /// The advertised item count matches the stored entries.
    pub open spec fn wf(&self) -> bool {
        self.num_items == self.items@.len()
    }

    /// The main menu's exact shape: three named entries, cursor on the first.
    pub open spec fn is_main_menu(&self) -> bool {
        &&& self.wf()
        &&& self.selected_index == 0
        &&& self.num_items == 3
        &&& self.items@.len() == 3
        &&& self.items@[0]@ == "Normal game"@
        &&& self.items@[1]@ == "Help section"@
        &&& self.items@[2]@ == "Credits"@
    }

    /// The main menu: three entries, cursor on the first.
    pub fn new() -> (s: MenuSelector)
        ensures
            s.is_main_menu(),
    {
        let mut items: Vec<String> = Vec::new();
        items.push("Normal game".to_string());
        items.push("Help section".to_string());
        items.push("Credits".to_string());
        MenuSelector { selected_index: 0, num_items: 3, items }
    }

    /// Moves the cursor down one entry, stopping at the last.
    pub fn next(&mut self)
        requires
            old(self).num_items >= 1,
        ensures
            final(self).num_items == old(self).num_items,
            final(self).items == old(self).items,
            old(self).selected_index < old(self).num_items - 1 ==> final(self).selected_index
                == old(self).selected_index + 1,
            old(self).selected_index >= old(self).num_items - 1 ==> final(self).selected_index
                == old(self).selected_index,
    {
        if self.selected_index < self.num_items - 1 {
            self.selected_index += 1;
        }
    }

    /// Moves the cursor up one entry, stopping at the first.
    pub fn previous(&mut self)
        ensures
            final(self).num_items == old(self).num_items,
            final(self).items == old(self).items,
            old(self).selected_index > 0 ==> final(self).selected_index == old(
                self,
            ).selected_index - 1,
            old(self).selected_index == 0 ==> final(self).selected_index == 0,
    {
        if self.selected_index > 0 {
            self.selected_index -= 1;
        }
    }

    /// Moves the cursor to `index` when it is in range; otherwise leaves it.
    pub fn select(&mut self, index: usize)
        ensures
            final(self).num_items == old(self).num_items,
            final(self).items == old(self).items,
            index < old(self).num_items ==> final(self).selected_index == index,
            index >= old(self).num_items ==> final(self).selected_index == old(
                self,
            ).selected_index,
    {
        if index < self.num_items {
            self.selected_index = index;
        }
    }

    /// The entry under the cursor, or `None` when the cursor is out of range.
    pub fn get(&self) -> (r: Option<&String>)
        requires
            self.wf(),
        ensures
            (match r {
                Some(s) => self.selected_index < self.num_items && s@ == self.items@[
                    self.selected_index as int
                ]@,
                None => self.selected_index >= self.num_items,
            }),
    {
        if self.selected_index < self.num_items {
            Some(&self.items[self.selected_index])
        } else {
            None
        }
    }
}

/// The shell's whole state: the running flag, a demo counter, the menu
/// cursor, the stack of open screens, and the game once one is started.
#[derive(Debug)]
pub struct App {
    pub running: bool,
    pub counter: u8,
    pub menu_selector: MenuSelector,
    pub state: Vec<AppState>,
    pub game: Option<Game>,
}

impl Default for App {
    /// A running shell showing the main menu, counter at zero, no game yet.
    fn default() -> (app: App)
        ensures
            app.running,
            app.counter == 0,
            app.menu_selector.is_main_menu(),
            app.state@ == seq![AppState::MainMenu],
            app.game is None,
    {
        let mut state: Vec<AppState> = Vec::new();
        state.push(AppState::MainMenu);
        proof {
            assert(state@ =~= seq![AppState::MainMenu]);
        }
        App {
            running: true,
            counter: 0,
            menu_selector: MenuSelector::new(),
            state,
            game: None,  // A game is created only when the game screen opens.
        }
    }
}

impl App {
    /// A running shell showing the main menu, counter at zero, no game yet.
    pub fn new() -> (app: App)
        ensures
            app.running,
            app.counter == 0,
            app.menu_selector.is_main_menu(),
            app.state@ == seq![AppState::MainMenu],
            app.game is None,
    {
        App::default()
    }

    /// Opens the screen the menu cursor points at; entries past the menu do
    /// nothing.
    pub fn select_app_state(&mut self)
        ensures
            final(self).running == old(self).running,
            final(self).counter == old(self).counter,
            final(self).menu_selector == old(self).menu_selector,
            final(self).game == old(self).game,
            old(self).menu_selector.selected_index == 0 ==> final(self).state@ == old(
                self,
            ).state@.push(AppState::Game),
            old(self).menu_selector.selected_index == 1 ==> final(self).state@ == old(
                self,
            ).state@.push(AppState::Help),
            old(self).menu_selector.selected_index == 2 ==> final(self).state@ == old(
                self,
            ).state@.push(AppState::Credits),
            old(self).menu_selector.selected_index >= 3 ==> final(self).state@ == old(
                self,
            ).state@,
    {
        match self.menu_selector.selected_index {
            0 => self.state.push(AppState::Game),
            1 => self.state.push(AppState::Help),
            2 => self.state.push(AppState::Credits),
            _ => {},
        }
    }

    /// A fixed-rate hook for animations and polling; the core has nothing to
    /// update.
    pub fn tick(&self) {
    }

    /// Closes the top screen; closing the last screen stops the shell.
    pub fn quit(&mut self)
        ensures
            final(self).counter == old(self).counter,
            final(self).menu_selector == old(self).menu_selector,
            final(self).game == old(self).game,
            old(self).state@.len() > 1 ==> final(self).state@ == old(self).state@.drop_last()
                && final(self).running == old(self).running,
            old(self).state@.len() <= 1 ==> final(self).state@ == Seq::<AppState>::empty()
                && !final(self).running,
    {
        if self.state.len() > 1 {
            self.state.pop();
        } else {
            self.state.clear();
        }
        if self.state.is_empty() {
            self.running = false;
        }
    }

    /// Raises the demo counter, saturating at its maximum.
    pub fn increment_counter(&mut self)
        ensures
            final(self).running == old(self).running,
            final(self).menu_selector == old(self).menu_selector,
            final(self).state == old(self).state,
            final(self).game == old(self).game,
            old(self).counter < 255 ==> final(self).counter == old(self).counter + 1,
            old(self).counter == 255 ==> final(self).counter == 255,
    {
        self.counter = self.counter.saturating_add(1);
    }

    /// Lowers the demo counter, saturating at zero.
    pub fn decrement_counter(&mut self)
        ensures
            final(self).running == old(self).running,
            final(self).menu_selector == old(self).menu_selector,
            final(self).state == old(self).state,
            final(self).game == old(self).game,
            old(self).counter > 0 ==> final(self).counter == old(self).counter - 1,
            old(self).counter == 0 ==> final(self).counter == 0,
    {
        self.counter = self.counter.saturating_sub(1);
    }
}

} // verus!
