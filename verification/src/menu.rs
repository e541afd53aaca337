//! The navigation between the screens: which screen is shown, what is
//! selected, what the search holds, and what each key press does to them.

use crate::catalog::{has_program, with_favorite_toggled, Catalog, CategoryView};
use crate::laws::lemma_key_keeps_wf;
use crate::runner::ExecutionOutcome;
use crate::search::{search, update_filtered_programs, MatchView};
use crate::theme::ColorScheme;
use vstd::prelude::*;

verus! {

/// The screen that is shown. Exactly one is active at a time.
#[derive(Clone, Copy, Debug, PartialEq, Eq, Structural)]
pub enum MenuState {
    Categories,
    Programs,
    Search,
    Help,
    SystemInfo,
}

/// A key press, as far as the launcher tells keys apart.
#[derive(Clone, Copy, Debug, PartialEq, Eq, Structural)]
pub enum Key {
    Tab,
    Enter,
    Esc,
    Backspace,
    Up,
    Down,
    Home,
    Char(char),
    Other,
}

/// What the caller has to do after an input was handled.
#[derive(Clone, Debug, PartialEq, Eq)]
pub enum InputAction {
    /// Leave the program.
    Quit,
    /// Launch the script at this path.
    RunScript(String),
    /// Nothing but to go on.
    Continue,
    /// A confirmation to quit is now awaited.
    ConfirmQuit,
    /// Store this theme as the preferred one.
    SaveColorScheme(ColorScheme),
}

/// An `InputAction` as plain values.
pub enum ActionView {
    Quit,
    RunScript(Seq<char>),
    Continue,
    ConfirmQuit,
    SaveColorScheme(ColorScheme),
}

impl View for InputAction {
    type V = ActionView;

    open spec fn view(&self) -> ActionView {
        match self {
            InputAction::Quit => ActionView::Quit,
            InputAction::RunScript(script) => ActionView::RunScript(script@),
            InputAction::Continue => ActionView::Continue,
            InputAction::ConfirmQuit => ActionView::ConfirmQuit,
            InputAction::SaveColorScheme(theme) => ActionView::SaveColorScheme(*theme),
        }
    }
}

/// The whole state of a session.
#[derive(Clone, Debug, PartialEq, Eq)]
pub struct AppState {
    pub catalog: Catalog,
    pub menu_state: MenuState,
    pub selected_category: usize,
    pub selected_program: usize,
    pub search_query: String,
    /// The search results: category name, program name, script.
    pub filtered_programs: Vec<(String, String, String)>,
    pub color_scheme: ColorScheme,
    pub status_message: Option<String>,
    /// Whether `q` was pressed and the answer is still awaited.
    pub pending_quit: bool,
    pub system_info: String,
    pub current_quote: String,
}

/// The state of a session as plain values.
pub struct AppView {
    pub catalog: Seq<CategoryView>,
    pub menu_state: MenuState,
    pub selected_category: nat,
    pub selected_program: nat,
    pub search_query: Seq<char>,
    pub filtered_programs: Seq<MatchView>,
    pub color_scheme: ColorScheme,
    pub status_message: Option<Seq<char>>,
    pub pending_quit: bool,
    pub system_info: Seq<char>,
    pub current_quote: Seq<char>,
}

impl View for AppState {
    type V = AppView;

    open spec fn view(&self) -> AppView {
        AppView {
            catalog: self.catalog@,
            menu_state: self.menu_state,
            selected_category: self.selected_category as nat,
            selected_program: self.selected_program as nat,
            search_query: self.search_query@,
            filtered_programs: self.filtered_programs.deep_view(),
            color_scheme: self.color_scheme,
            status_message: match self.status_message {
                Some(text) => Some(text@),
                None => None,
            },
            pending_quit: self.pending_quit,
            system_info: self.system_info@,
            current_quote: self.current_quote@,
        }
    }
}

/// The message shown while a confirmation to quit is awaited.
pub open spec fn quit_prompt() -> Seq<char> {
    "Press 'y' to confirm quit, any other key to cancel"@
}

/// The message shown when the confirmation was not given.
pub open spec fn quit_cancelled() -> Seq<char> {
    "Quit cancelled"@
}

/// The message shown after the favourite flag of the program `name` was set
/// to `now_favorite`.
pub open spec fn favorite_message(now_favorite: bool, name: Seq<char>) -> Seq<char> {
    (if now_favorite {
        "Added to "@
    } else {
        "Removed from "@
    }) + name + " favorites"@
}

/// The place in a list that a digit key stands for: `1` to `9` stand for the
/// first to the ninth place, every other character for none.
pub open spec fn digit_place(c: char) -> Option<nat> {
    if '1' <= c <= '9' {
        Some((c as nat - '1' as nat) as nat)
    } else {
        None
    }
}

/// One place up in a list; the first place stays.
pub open spec fn moved_up(index: nat) -> nat {
    if index > 0 {
        (index - 1) as nat
    } else {
        index
    }
}

/// One place down in a list of `len` items; the last place stays, and so
/// does a place that the list does not have.
pub open spec fn moved_down(index: nat, len: nat) -> nat {
    if index + 1 < len {
        index + 1
    } else {
        index
    }
}

/// A selection that is kept where the list has that place, and goes to the
/// first place where it has not.
pub open spec fn kept_or_first(index: nat, len: nat) -> nat {
    if index < len {
        index
    } else {
        0
    }
}

impl AppView {
    /// The number of programs in the selected category; none where the
    /// catalog has no such category.
    pub open spec fn program_count(self) -> nat {
        if self.selected_category < self.catalog.len() {
            self.catalog[self.selected_category as int].programs.len()
        } else {
            0
        }
    }

    /// What the state must always satisfy: each selection stays inside the
    /// list it points into, and the search results that are shown belong to
    /// the query (or nothing was typed yet and nothing is listed).
    pub open spec fn wf(self) -> bool {
        &&& self.catalog.len() > 0 ==> self.selected_category < self.catalog.len()
        &&& self.menu_state == MenuState::Programs && self.program_count() > 0
            ==> self.selected_program < self.program_count()
        &&& self.menu_state == MenuState::Search && self.filtered_programs.len() > 0
            ==> self.selected_program < self.filtered_programs.len()
        &&& self.menu_state == MenuState::Search ==> {
            ||| self.filtered_programs == search(self.catalog, self.search_query)
            ||| self.search_query.len() == 0 && self.filtered_programs.len() == 0
        }
    }

    /// The script that a run request carries in this state: that of the
    /// selected program on the programs screen, that of the selected result
    /// on the search screen. Elsewhere, and where the selection points at
    /// nothing, there is none.
    pub open spec fn selected_script(self) -> Option<Seq<char>> {
        match self.menu_state {
            MenuState::Programs => if has_program(
                self.catalog,
                self.selected_category as int,
                self.selected_program as int,
            ) {
                Some(
                    self.catalog[self.selected_category as int].programs[self.selected_program as int].script,
                )
            } else {
                None
            },
            MenuState::Search => if self.selected_program < self.filtered_programs.len() {
                Some(self.filtered_programs[self.selected_program as int].2)
            } else {
                None
            },
            _ => None,
        }
    }

    /// The state with a changed search text: the results are those of the
    /// new text, and the selection goes to the first result where it would
    /// point past the last.
    pub open spec fn with_query(self, query: Seq<char>) -> AppView {
        let found = search(self.catalog, query);
        AppView {
            search_query: query,
            filtered_programs: found,
            selected_program: kept_or_first(self.selected_program, found.len()),
            ..self
        }
    }

    /// The state after the search screen was opened: nothing typed, nothing
    /// listed.
    pub open spec fn search_opened(self) -> AppView {
        AppView {
            menu_state: MenuState::Search,
            search_query: Seq::empty(),
            filtered_programs: Seq::empty(),
            ..self
        }
    }

    /// The state after `h` or `i`: the overlay `screen` is shown, or left
    /// for the categories where it was shown already.
    pub open spec fn overlay_toggled(self, screen: MenuState) -> AppView {
        AppView {
            menu_state: if self.menu_state == screen {
                MenuState::Categories
            } else {
                screen
            },
            ..self
        }
    }

    /// The state after `f` on the programs screen.
    pub open spec fn favorite_toggled(self) -> AppView {
        let c = self.selected_category as int;
        let p = self.selected_program as int;
        if has_program(self.catalog, c, p) {
            let program = self.catalog[c].programs[p];
            AppView {
                catalog: with_favorite_toggled(self.catalog, c, p),
                status_message: Some(favorite_message(!program.is_favorite, program.name)),
                ..self
            }
        } else {
            self
        }
    }

    /// The state after a key on the categories screen that is not one of the
    /// keys that work on every screen.
    pub open spec fn after_categories_key(self, key: Key) -> AppView {
        match key {
            Key::Char('/') => self.search_opened(),
            Key::Up => AppView { selected_category: moved_up(self.selected_category), ..self },
            Key::Down => AppView {
                selected_category: moved_down(self.selected_category, self.catalog.len()),
                ..self
            },
            Key::Enter => AppView { menu_state: MenuState::Programs, selected_program: 0, ..self },
            Key::Home => AppView { selected_category: 0, ..self },
            Key::Char(c) => match digit_place(c) {
                Some(place) => if place < self.catalog.len() {
                    AppView { selected_category: place, ..self }
                } else {
                    self
                },
                None => self,
            },
            _ => self,
        }
    }

    /// The state after a key on the programs screen that is not one of the
    /// keys that work on every screen.
    pub open spec fn after_programs_key(self, key: Key) -> AppView {
        match key {
            Key::Char('/') => self.search_opened(),
            Key::Up => AppView { selected_program: moved_up(self.selected_program), ..self },
            Key::Down => AppView {
                selected_program: moved_down(self.selected_program, self.program_count()),
                ..self
            },
            Key::Esc | Key::Backspace => AppView {
                menu_state: MenuState::Categories,
                selected_program: 0,
                ..self
            },
            Key::Home => AppView { selected_program: 0, ..self },
            _ => self,
        }
    }

    /// The state after a key on the search screen that is not one of the
    /// keys that work on every screen.
    pub open spec fn after_search_key(self, key: Key) -> AppView {
        match key {
            Key::Esc => AppView {
                menu_state: MenuState::Categories,
                search_query: Seq::empty(),
                ..self
            },
            Key::Char(c) => self.with_query(self.search_query.push(c)),
            Key::Backspace => self.with_query(
                if self.search_query.len() > 0 {
                    self.search_query.drop_last()
                } else {
                    self.search_query
                },
            ),
            _ => self,
        }
    }

    /// The state after a key press.
    ///
    /// `q` asks for a confirmation. While one is awaited, `y` changes
    /// nothing more (the caller quits) and every other key only withdraws
    /// the question. Otherwise Tab moves to the next theme, `h` and `i`
    /// switch their overlay on or off, `f` on the programs screen turns the
    /// favourite flag of the selected program over, and every other key is
    /// handled by the screen that is shown.
    pub open spec fn after_key(self, key: Key) -> AppView {
        if key == Key::Char('q') {
            AppView { pending_quit: true, status_message: Some(quit_prompt()), ..self }
        } else if self.pending_quit {
            if key == Key::Char('y') {
                self
            } else {
                AppView { pending_quit: false, status_message: Some(quit_cancelled()), ..self }
            }
        } else if key == Key::Tab {
            AppView { color_scheme: self.color_scheme.successor(), ..self }
        } else if key == Key::Char('h') {
            self.overlay_toggled(MenuState::Help)
        } else if key == Key::Char('f') && self.menu_state == MenuState::Programs {
            self.favorite_toggled()
        } else if key == Key::Char('i') {
            self.overlay_toggled(MenuState::SystemInfo)
        } else {
            match self.menu_state {
                MenuState::Categories => self.after_categories_key(key),
                MenuState::Programs => self.after_programs_key(key),
                MenuState::Search => self.after_search_key(key),
                MenuState::Help | MenuState::SystemInfo => if key == Key::Esc {
                    AppView { menu_state: MenuState::Categories, ..self }
                } else {
                    self
                },
            }
        }
    }

    /// What the caller is asked to do after a key press.
    ///
    /// A run request is made by Enter on the programs and the search
    /// screen, and only where the selection points at a program; it carries
    /// that program's script.
    pub open spec fn action_for(self, key: Key) -> ActionView {
        if key == Key::Char('q') {
            ActionView::ConfirmQuit
        } else if self.pending_quit {
            if key == Key::Char('y') {
                ActionView::Quit
            } else {
                ActionView::Continue
            }
        } else if key == Key::Tab {
            ActionView::SaveColorScheme(self.color_scheme.successor())
        } else if key == Key::Enter {
            match self.selected_script() {
                Some(script) => ActionView::RunScript(script),
                None => ActionView::Continue,
            }
        } else {
            ActionView::Continue
        }
    }

    /// Whether a key press switches an overlay on or off.
    pub open spec fn toggles_overlay(self, key: Key) -> bool {
        !self.pending_quit && (key == Key::Char('h') || key == Key::Char('i'))
    }
}

/// Whether `key` is the character key `c`.
fn is_char(key: Key, c: char) -> (r: bool)
    ensures
        r == (key == Key::Char(c)),
{
    match key {
        Key::Char(typed) => typed == c,
        _ => false,
    }
}

/// The place that a digit key stands for.
fn digit_index(c: char) -> (r: Option<usize>)
    ensures
        match r {
            Some(place) => digit_place(c) == Some(place as nat),
            None => digit_place(c).is_none(),
        },
{
    if '1' <= c && c <= '9' {
        Some((c as u32 - '1' as u32) as usize)
    } else {
        None
    }
}

impl AppState {
    /// The state at the start of a session: the categories screen with the
    /// first category selected, no search, no message.
    pub fn new(
        catalog: Catalog,
        color_scheme: ColorScheme,
        system_info: String,
        current_quote: String,
    ) -> (r: AppState)
        ensures
            r@ == (AppView {
                catalog: catalog@,
                menu_state: MenuState::Categories,
                selected_category: 0,
                selected_program: 0,
                search_query: Seq::empty(),
                filtered_programs: Seq::empty(),
                color_scheme: color_scheme,
                status_message: None,
                pending_quit: false,
                system_info: system_info@,
                current_quote: current_quote@,
            }),
            r@.wf(),
    {
        let r = AppState {
            catalog,
            menu_state: MenuState::Categories,
            selected_category: 0,
            selected_program: 0,
            search_query: String::new(),
            filtered_programs: Vec::new(),
            color_scheme,
            status_message: None,
            pending_quit: false,
            system_info,
            current_quote,
        };
        assert(r.filtered_programs.deep_view() =~= Seq::empty());
        r
    }

    /// The script that a run request carries in this state, if the
    /// selection points at a program.
    pub fn selected_script(&self) -> (r: Option<String>)
        ensures
            match r {
                Some(script) => self@.selected_script() == Some(script@),
                None => self@.selected_script().is_none(),
            },
    {
        match self.menu_state {
            MenuState::Programs => self.catalog.script_at(
                self.selected_category,
                self.selected_program,
            ),
            MenuState::Search => {
                if self.selected_program < self.filtered_programs.len() {
                    Some(self.filtered_programs[self.selected_program].2.clone())
                } else {
                    None
                }
            },
            _ => None,
        }
    }

    /// Shows the status line of a run that is over.
    pub fn finish_run(&mut self, outcome: &ExecutionOutcome)
        ensures
            final(self)@ == (AppView {
                status_message: Some(outcome@.status_text()),
                ..old(self)@
            }),
    {
        self.status_message = Some(outcome.status_text());
    }

    /// Replaces the quote that is shown.
    pub fn set_quote(&mut self, quote: String)
        ensures
            final(self)@ == (AppView { current_quote: quote@, ..old(self)@ }),
    {
        self.current_quote = quote;
    }

    fn program_count(&self) -> (n: usize)
        ensures
            n == self@.program_count(),
    {
        self.catalog.program_count(self.selected_category)
    }

    fn open_search(&mut self)
        ensures
            final(self)@ == old(self)@.search_opened(),
    {
        self.menu_state = MenuState::Search;
        self.search_query.clear();
        self.filtered_programs.clear();
        assert(self.filtered_programs.deep_view() =~= Seq::empty());
    }

    fn search_again(&mut self)
        ensures
            final(self)@ == old(self)@.with_query(old(self)@.search_query),
    {
        update_filtered_programs(
            self.catalog.categories.as_slice(),
            self.search_query.as_str(),
            &mut self.filtered_programs,
        );
        if self.selected_program >= self.filtered_programs.len() {
            self.selected_program = 0;
        }
        proof {
            assert(crate::search::categories_view(self.catalog.categories@) =~= self.catalog@);
            assert(self@ =~= old(self)@.with_query(old(self)@.search_query));
        }
    }

    fn toggle_overlay(&mut self, screen: MenuState)
        ensures
            final(self)@ == old(self)@.overlay_toggled(screen),
    {
        if self.menu_state == screen {
            self.menu_state = MenuState::Categories;
        } else {
            self.menu_state = screen;
        }
    }

    fn toggle_selected_favorite(&mut self)
        ensures
            final(self)@ == old(self)@.favorite_toggled(),
    {
        let c = self.selected_category;
        let p = self.selected_program;
        match self.catalog.toggle_favorite(c, p) {
            Some(now_favorite) => {
                proof {
                    let before = old(self)@.catalog;
                    assert(has_program(before, c as int, p as int));
                    assert(self.catalog@.len() == self.catalog.categories@.len());
                    assert(self.catalog@[c as int].programs.len()
                        == self.catalog.categories@[c as int].programs@.len());
                    assert(self.catalog@[c as int].programs[p as int].name
                        == before[c as int].programs[p as int].name);
                }
                let mut message = if now_favorite {
                    String::from_str("Added to ")
                } else {
                    String::from_str("Removed from ")
                };
                message.append(self.catalog.categories[c].programs[p].name.as_str());
                message.append(" favorites");
                self.status_message = Some(message);
                assert(self@ =~= old(self)@.favorite_toggled());
            },
            None => {},
        }
    }

    fn categories_key(&mut self, key: Key)
        ensures
            final(self)@ == old(self)@.after_categories_key(key),
    {
        match key {
            Key::Up => {
                if self.selected_category > 0 {
                    self.selected_category -= 1;
                }
            },
            Key::Down => {
                let count = self.catalog.len();
                if self.selected_category < usize::MAX && self.selected_category + 1 < count {
                    self.selected_category += 1;
                }
            },
            Key::Enter => {
                self.menu_state = MenuState::Programs;
                self.selected_program = 0;
            },
            Key::Home => {
                self.selected_category = 0;
            },
            Key::Char(c) => {
                if c == '/' {
                    self.open_search();
                } else {
                    match digit_index(c) {
                        Some(place) => {
                            let count = self.catalog.len();
                            if place < count {
                                self.selected_category = place;
                            }
                        },
                        None => {},
                    }
                }
            },
            _ => {},
        }
    }

    fn programs_key(&mut self, key: Key)
        ensures
            final(self)@ == old(self)@.after_programs_key(key),
    {
        match key {
            Key::Up => {
                if self.selected_program > 0 {
                    self.selected_program -= 1;
                }
            },
            Key::Down => {
                let count = self.program_count();
                if self.selected_program < usize::MAX && self.selected_program + 1 < count {
                    self.selected_program += 1;
                }
            },
            Key::Esc | Key::Backspace => {
                self.menu_state = MenuState::Categories;
                self.selected_program = 0;
            },
            Key::Home => {
                self.selected_program = 0;
            },
            Key::Char(c) => {
                if c == '/' {
                    self.open_search();
                }
            },
            _ => {},
        }
    }

    fn search_key(&mut self, key: Key)
        ensures
            final(self)@ == old(self)@.after_search_key(key),
    {
        match key {
            Key::Esc => {
                self.menu_state = MenuState::Categories;
                self.search_query.clear();
            },
            Key::Char(c) => {
                self.search_query.push(c);
                self.search_again();
            },
            Key::Backspace => {
                let _ = self.search_query.pop();
                self.search_again();
            },
            _ => {},
        }
    }

    /// Handles one key press: changes the state as `after_key` says and
    /// returns what the caller has to do, together with whether an overlay
    /// was switched on or off. A state whose selections were inside their
    /// lists stays so.
    pub fn handle_input(&mut self, key: Key) -> (r: (InputAction, bool))
        ensures
            final(self)@ == old(self)@.after_key(key),
            r.0@ == old(self)@.action_for(key),
            r.1 == old(self)@.toggles_overlay(key),
            old(self)@.wf() ==> final(self)@.wf(),
    {
        proof {
            if old(self)@.wf() {
                lemma_key_keeps_wf(old(self)@, key);
            }
        }
        if is_char(key, 'q') {
            self.pending_quit = true;
            self.status_message = Some(
                String::from_str("Press 'y' to confirm quit, any other key to cancel"),
            );
            (InputAction::ConfirmQuit, false)
        } else if self.pending_quit {
            if is_char(key, 'y') {
                (InputAction::Quit, false)
            } else {
                self.pending_quit = false;
                self.status_message = Some(String::from_str("Quit cancelled"));
                (InputAction::Continue, false)
            }
        } else if key == Key::Tab {
            self.color_scheme = self.color_scheme.next();
            (InputAction::SaveColorScheme(self.color_scheme), false)
        } else if is_char(key, 'h') {
            self.toggle_overlay(MenuState::Help);
            (InputAction::Continue, true)
        } else if is_char(key, 'f') && self.menu_state == MenuState::Programs {
            self.toggle_selected_favorite();
            (InputAction::Continue, false)
        } else if is_char(key, 'i') {
            self.toggle_overlay(MenuState::SystemInfo);
            (InputAction::Continue, true)
        } else {
            let action = if key == Key::Enter {
                match self.selected_script() {
                    Some(script) => InputAction::RunScript(script),
                    None => InputAction::Continue,
                }
            } else {
                InputAction::Continue
            };
            match self.menu_state {
                MenuState::Categories => self.categories_key(key),
                MenuState::Programs => self.programs_key(key),
                MenuState::Search => self.search_key(key),
                MenuState::Help | MenuState::SystemInfo => {
                    if key == Key::Esc {
                        self.menu_state = MenuState::Categories;
                    }
                },
            }
            (action, false)
        }
    }
}

} // verus!
