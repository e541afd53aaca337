//! Pointer input: where a click lands among the panels, and what clicks
//! and scroll steps do to the navigation.

use crate::catalog::has_program;
use crate::laws::lemma_pointer_keeps_wf;
use crate::menu::{kept_or_first, moved_down, moved_up, ActionView, AppState, AppView, InputAction, MenuState};
use vstd::prelude::*;

verus! {

/// A rectangle of terminal cells.
#[derive(Clone, Copy, Debug, PartialEq, Eq, Structural)]
pub struct Rect {
    pub x: u16,
    pub y: u16,
    pub width: u16,
    pub height: u16,
}

/// What the pointer did, in terms of the lists on the screen. Rows are
/// counted from the first item of a list.
#[derive(Clone, Copy, Debug, PartialEq, Eq, Structural)]
pub enum MouseInput {
    /// A click on a row of the categories panel.
    ClickCategory(usize),
    /// A click on a row of the programs panel, which also lists the search
    /// results; the flag says whether the primary button was used.
    ClickProgram(usize, bool),
    ScrollUp,
    ScrollDown,
}

/// Whether the cell in column `x` and row `y` lies inside `rect`.
pub open spec fn within(x: u16, y: u16, rect: Rect) -> bool {
    &&& rect.x <= x < rect.x + rect.width
    &&& rect.y <= y < rect.y + rect.height
}

/// The list row shown in terminal row `y` of a bordered panel: the first
/// item stands one row below the panel's top edge. The edge itself, and
/// what lies above it, shows no item.
pub open spec fn list_row(y: u16, panel: Rect) -> Option<nat> {
    if y > panel.y {
        Some((y - panel.y - 1) as nat)
    } else {
        None
    }
}

/// What a button press at column `x`, row `y` means, given where the two
/// panels are: a click on a row of the categories panel, else a click on a
/// row of the programs panel, else nothing.
pub open spec fn click_target(
    x: u16,
    y: u16,
    primary: bool,
    categories_panel: Rect,
    programs_panel: Rect,
) -> Option<MouseInput> {
    if within(x, y, categories_panel) {
        match list_row(y, categories_panel) {
            Some(row) => Some(MouseInput::ClickCategory(row as usize)),
            None => None,
        }
    } else if within(x, y, programs_panel) {
        match list_row(y, programs_panel) {
            Some(row) => Some(MouseInput::ClickProgram(row as usize, primary)),
            None => None,
        }
    } else {
        None
    }
}

/// Whether the cell in column `x` and row `y` lies inside `rect`.
pub fn is_within_rect(x: u16, y: u16, rect: Rect) -> (r: bool)
    ensures
        r == within(x, y, rect),
{
    let right: u32 = rect.x as u32 + rect.width as u32;
    let bottom: u32 = rect.y as u32 + rect.height as u32;
    x >= rect.x && (x as u32) < right && y >= rect.y && (y as u32) < bottom
}

/// Maps a button press at a terminal cell to a click on a list row.
pub fn locate_click(
    x: u16,
    y: u16,
    primary: bool,
    categories_panel: Rect,
    programs_panel: Rect,
) -> (r: Option<MouseInput>)
    ensures
        r == click_target(x, y, primary, categories_panel, programs_panel),
{
    if is_within_rect(x, y, categories_panel) {
        if y > categories_panel.y {
            Some(MouseInput::ClickCategory((y - categories_panel.y - 1) as usize))
        } else {
            None
        }
    } else if is_within_rect(x, y, programs_panel) {
        if y > programs_panel.y {
            Some(MouseInput::ClickProgram((y - programs_panel.y - 1) as usize, primary))
        } else {
            None
        }
    } else {
        None
    }
}

impl AppView {
    /// The number of items in the list that the selection of programs
    /// points into: the search results on the search screen, else the
    /// programs of the selected category.
    pub open spec fn listed_count(self) -> nat {
        if self.menu_state == MenuState::Search {
            self.filtered_programs.len()
        } else {
            self.program_count()
        }
    }

    /// Whether the screen that is shown has lists to point at.
    pub open spec fn shows_lists(self) -> bool {
        self.menu_state == MenuState::Categories || self.menu_state == MenuState::Programs
            || self.menu_state == MenuState::Search
    }

    /// The state after a pointer input.
    ///
    /// A click on a category selects it, and on the categories screen also
    /// opens its programs. A click on a program or a search result selects
    /// it. A scroll step moves the selection of the active list by one, as
    /// the arrow keys do. Clicks on rows that hold nothing, clicks on
    /// programs while the categories screen is shown, and all pointer input
    /// on the overlays change nothing.
    pub open spec fn after_pointer(self, input: MouseInput) -> AppView {
        if !self.shows_lists() {
            self
        } else {
            match input {
                MouseInput::ClickCategory(row) => if row < self.catalog.len() {
                    match self.menu_state {
                        MenuState::Categories => AppView {
                            menu_state: MenuState::Programs,
                            selected_category: row as nat,
                            selected_program: 0,
                            ..self
                        },
                        MenuState::Programs => AppView {
                            selected_category: row as nat,
                            selected_program: kept_or_first(
                                self.selected_program,
                                self.catalog[row as int].programs.len(),
                            ),
                            ..self
                        },
                        _ => AppView { selected_category: row as nat, ..self },
                    }
                } else {
                    self
                },
                MouseInput::ClickProgram(row, _) => if self.menu_state != MenuState::Categories
                    && row < self.listed_count() {
                    AppView { selected_program: row as nat, ..self }
                } else {
                    self
                },
                MouseInput::ScrollUp => if self.menu_state == MenuState::Categories {
                    AppView { selected_category: moved_up(self.selected_category), ..self }
                } else {
                    AppView { selected_program: moved_up(self.selected_program), ..self }
                },
                MouseInput::ScrollDown => if self.menu_state == MenuState::Categories {
                    AppView {
                        selected_category: moved_down(self.selected_category, self.catalog.len()),
                        ..self
                    }
                } else {
                    AppView {
                        selected_program: moved_down(self.selected_program, self.listed_count()),
                        ..self
                    }
                },
            }
        }
    }

    /// What the caller is asked to do after a pointer input: a click with
    /// the primary button on a program or a search result asks for that
    /// script to be run; everything else asks for nothing.
    pub open spec fn pointer_action(self, input: MouseInput) -> ActionView {
        match input {
            MouseInput::ClickProgram(row, true) => match self.after_pointer(
                input,
            ).selected_script() {
                Some(script) => if row < self.listed_count() {
                    ActionView::RunScript(script)
                } else {
                    ActionView::Continue
                },
                None => ActionView::Continue,
            },
            _ => ActionView::Continue,
        }
    }
}

impl AppState {
    fn listed_count(&self) -> (n: usize)
        ensures
            n == self@.listed_count(),
    {
        if self.menu_state == MenuState::Search {
            self.filtered_programs.len()
        } else {
            self.catalog.program_count(self.selected_category)
        }
    }

    /// Handles one pointer input: changes the state as `after_pointer`
    /// says and returns what the caller has to do. A state whose selections
    /// were inside their lists stays so.
    pub fn handle_mouse(&mut self, input: MouseInput) -> (r: InputAction)
        ensures
            final(self)@ == old(self)@.after_pointer(input),
            r@ == old(self)@.pointer_action(input),
            old(self)@.wf() ==> final(self)@.wf(),
    {
        proof {
            if old(self)@.wf() {
                lemma_pointer_keeps_wf(old(self)@, input);
            }
        }
        let on_categories = self.menu_state == MenuState::Categories;
        if !(on_categories || self.menu_state == MenuState::Programs || self.menu_state
            == MenuState::Search) {
            return InputAction::Continue;
        }
        match input {
            MouseInput::ClickCategory(row) => {
                let count = self.catalog.len();
                if row < count {
                    self.selected_category = row;
                    if on_categories {
                        self.menu_state = MenuState::Programs;
                        self.selected_program = 0;
                    } else if self.menu_state == MenuState::Programs {
                        let programs = self.catalog.program_count(row);
                        if self.selected_program >= programs {
                            self.selected_program = 0;
                        }
                    }
                }
                InputAction::Continue
            },
            MouseInput::ClickProgram(row, primary) => {
                let count = self.listed_count();
                if !on_categories && row < count {
                    self.selected_program = row;
                    if primary {
                        match self.selected_script() {
                            Some(script) => InputAction::RunScript(script),
                            None => InputAction::Continue,
                        }
                    } else {
                        InputAction::Continue
                    }
                } else {
                    InputAction::Continue
                }
            },
            MouseInput::ScrollUp => {
                if on_categories {
                    if self.selected_category > 0 {
                        self.selected_category -= 1;
                    }
                } else if self.selected_program > 0 {
                    self.selected_program -= 1;
                }
                InputAction::Continue
            },
            MouseInput::ScrollDown => {
                if on_categories {
                    let count = self.catalog.len();
                    if self.selected_category < usize::MAX && self.selected_category + 1 < count {
                        self.selected_category += 1;
                    }
                } else {
                    let count = self.listed_count();
                    if self.selected_program < usize::MAX && self.selected_program + 1 < count {
                        self.selected_program += 1;
                    }
                }
                InputAction::Continue
            },
        }
    }
}

} // verus!
