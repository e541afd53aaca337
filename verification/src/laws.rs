//! What holds of the navigation whatever the user does.

use crate::catalog::{lemma_toggle_twice, with_favorite_toggled, CategoryView};
use crate::menu::{ActionView, AppView, Key, MenuState};
use crate::pointer::MouseInput;
use crate::search::{all_entries, lemma_search_empty_query, lemma_search_finds, search};
use vstd::prelude::*;

verus! {

/// One input of the user.
pub enum Input {
    Key(Key),
    Mouse(MouseInput),
}

impl AppView {
    /// The state after one input.
    pub open spec fn after_input(self, input: Input) -> AppView {
        match input {
            Input::Key(key) => self.after_key(key),
            Input::Mouse(mouse) => self.after_pointer(mouse),
        }
    }

    /// The state after a sequence of inputs, the first of them first.
    pub open spec fn after_inputs(self, inputs: Seq<Input>) -> AppView
        decreases inputs.len(),
    {
        if inputs.len() == 0 {
            self
        } else {
            self.after_inputs(inputs.drop_last()).after_input(inputs.last())
        }
    }

    /// The state after a sequence of key presses, the first of them first.
    pub open spec fn after_keys(self, keys: Seq<Key>) -> AppView
        decreases keys.len(),
    {
        if keys.len() == 0 {
            self
        } else {
            self.after_keys(keys.drop_last()).after_key(keys.last())
        }
    }
}

/// Whether two catalogs hold the same categories and programs, favourite
/// flags aside.
pub open spec fn same_shape(a: Seq<CategoryView>, b: Seq<CategoryView>) -> bool {
    &&& a.len() == b.len()
    &&& forall|c: int|
        0 <= c < a.len() ==> {
            &&& (#[trigger] a[c]).name == b[c].name
            &&& a[c].programs.len() == b[c].programs.len()
        }
    &&& forall|c: int, p: int|
        0 <= c < a.len() && 0 <= p < a[c].programs.len() ==> {
            &&& (#[trigger] a[c].programs[p]).name == b[c].programs[p].name
            &&& a[c].programs[p].script == b[c].programs[p].script
        }
}

/// A key press keeps every selection inside its list, and keeps the search
/// results in step with the query.
pub proof fn lemma_key_keeps_wf(s: AppView, key: Key)
    requires
        s.wf(),
    ensures
        s.after_key(key).wf(),
{
}

/// A pointer input keeps every selection inside its list.
pub proof fn lemma_pointer_keeps_wf(s: AppView, input: MouseInput)
    requires
        s.wf(),
    ensures
        s.after_pointer(input).wf(),
{
}

/// After any sequence of inputs, arrow keys and scroll steps included, the
/// selected category is one of the catalog's (if it has any), the selected
/// program on the programs screen is one of that category's (if it has
/// any), and the selected result on the search screen is one of the
/// results (if there are any): no selection is ever moved past the last
/// item of its list.
pub proof fn lemma_selection_stays_in_bounds(s: AppView, inputs: Seq<Input>)
    requires
        s.wf(),
    ensures
        s.after_inputs(inputs).wf(),
        ({
            let t = s.after_inputs(inputs);
            &&& t.catalog.len() > 0 ==> t.selected_category < t.catalog.len()
            &&& t.menu_state == MenuState::Programs && t.program_count() > 0
                ==> t.selected_program < t.program_count()
            &&& t.menu_state == MenuState::Search && t.filtered_programs.len() > 0
                ==> t.selected_program < t.filtered_programs.len()
        }),
    decreases inputs.len(),
{
    if inputs.len() > 0 {
        lemma_selection_stays_in_bounds(s, inputs.drop_last());
        let before = s.after_inputs(inputs.drop_last());
        match inputs.last() {
            Input::Key(key) => lemma_key_keeps_wf(before, key),
            Input::Mouse(mouse) => lemma_pointer_keeps_wf(before, mouse),
        }
    }
}

/// Whenever an input leads from the categories screen to the programs
/// screen, the first program is selected, whatever was selected before.
pub proof fn lemma_programs_open_at_first(s: AppView, input: Input)
    requires
        s.menu_state == MenuState::Categories,
        s.after_input(input).menu_state == MenuState::Programs,
    ensures
        s.after_input(input).selected_program == 0,
{
}

/// Enter on the categories screen opens the programs of the selected
/// category, unless a confirmation to quit is awaited.
pub proof fn lemma_enter_opens_programs(s: AppView)
    requires
        s.menu_state == MenuState::Categories,
        !s.pending_quit,
    ensures
        s.after_key(Key::Enter).menu_state == MenuState::Programs,
        s.after_key(Key::Enter).selected_category == s.selected_category,
        s.after_key(Key::Enter).selected_program == 0,
{
}

/// A key that edits the query on the search screen leaves exactly the
/// results of the new query.
pub proof fn lemma_edit_refreshes_results(s: AppView, key: Key)
    requires
        s.menu_state == MenuState::Search,
        !s.pending_quit,
        key == Key::Backspace || (key matches Key::Char(c) && c != 'q' && c != 'h' && c != 'i'),
    ensures
        s.after_key(key).menu_state == MenuState::Search,
        s.after_key(key).filtered_programs == search(
            s.catalog,
            s.after_key(key).search_query,
        ),
        key matches Key::Char(c) ==> s.after_key(key).search_query == s.search_query.push(c),
        key == Key::Backspace && s.search_query.len() > 0 ==> s.after_key(key).search_query
            == s.search_query.drop_last(),
{
}

/// `n` presses of Backspace.
pub open spec fn erasing(n: nat) -> Seq<Key> {
    Seq::new(n, |i: int| Key::Backspace)
}

/// Whether every key of the sequence types a character into the search:
/// each is a character key, and none is a command that works on every
/// screen.
pub open spec fn types_text(keys: Seq<Key>) -> bool {
    forall|i: int|
        0 <= i < keys.len() ==> ((#[trigger] keys[i]) matches Key::Char(c) && c != 'q' && c != 'h'
            && c != 'i')
}

proof fn lemma_after_typing(s: AppView, keys: Seq<Key>)
    requires
        s.menu_state == MenuState::Search,
        !s.pending_quit,
        types_text(keys),
    ensures
        s.after_keys(keys).menu_state == MenuState::Search,
        !s.after_keys(keys).pending_quit,
        s.after_keys(keys).catalog == s.catalog,
        s.after_keys(keys).search_query.len() == s.search_query.len() + keys.len(),
        keys.len() > 0 ==> s.after_keys(keys).filtered_programs == search(
            s.catalog,
            s.after_keys(keys).search_query,
        ),
    decreases keys.len(),
{
    if keys.len() > 0 {
        let head = keys.drop_last();
        assert(types_text(head)) by {
            assert forall|i: int| 0 <= i < head.len() implies ((#[trigger] head[i]) matches Key::Char(
                c,
            ) && c != 'q' && c != 'h' && c != 'i') by {
                assert(head[i] == keys[i]);
            }
        }
        lemma_after_typing(s, head);
        assert(keys.last() == keys[keys.len() - 1]);
    }
}

proof fn lemma_after_erasing(s: AppView, n: nat)
    requires
        s.menu_state == MenuState::Search,
        !s.pending_quit,
        0 < n <= s.search_query.len(),
    ensures
        s.after_keys(erasing(n)).menu_state == MenuState::Search,
        !s.after_keys(erasing(n)).pending_quit,
        s.after_keys(erasing(n)).catalog == s.catalog,
        s.after_keys(erasing(n)).search_query == s.search_query.take(s.search_query.len() - n),
        s.after_keys(erasing(n)).filtered_programs == search(
            s.catalog,
            s.search_query.take(s.search_query.len() - n),
        ),
    decreases n,
{
    let len = s.search_query.len() as int;
    assert(erasing(n).drop_last() =~= erasing((n - 1) as nat));
    assert(erasing(n).last() == Key::Backspace);
    if n == 1 {
        assert(s.after_keys(erasing(0)) == s);
        assert(s.search_query.drop_last() =~= s.search_query.take(len - 1));
    } else {
        lemma_after_erasing(s, (n - 1) as nat);
        assert(s.search_query.take(len - (n - 1)).drop_last() =~= s.search_query.take(len - n));
    }
}

proof fn lemma_after_keys_concat(s: AppView, first: Seq<Key>, second: Seq<Key>)
    ensures
        s.after_keys(first + second) == s.after_keys(first).after_keys(second),
    decreases second.len(),
{
    if second.len() == 0 {
        assert(first + second =~= first);
    } else {
        lemma_after_keys_concat(s, first, second.drop_last());
        assert((first + second).drop_last() =~= first + second.drop_last());
        assert((first + second).last() == second.last());
    }
}

/// Typing any text into the freshly opened search and then erasing all of
/// it, one Backspace for each character, leaves the empty query with every
/// program of the catalog as a result, in catalog order.
pub proof fn lemma_type_then_erase(s: AppView, keys: Seq<Key>)
    requires
        s.menu_state == MenuState::Search,
        !s.pending_quit,
        s.search_query.len() == 0,
        keys.len() > 0,
        types_text(keys),
    ensures
        s.after_keys(keys + erasing(keys.len())).search_query.len() == 0,
        s.after_keys(keys + erasing(keys.len())).filtered_programs == all_entries(s.catalog),
{
    let typed = s.after_keys(keys);
    lemma_after_typing(s, keys);
    lemma_after_erasing(typed, keys.len());
    lemma_after_keys_concat(s, keys, erasing(keys.len()));
    assert(typed.search_query.take(0) =~= Seq::<char>::empty());
    lemma_search_empty_query(s.catalog);
}

/// `f` pressed twice on the programs screen gives every favourite flag its
/// old value, and the first press changes the flag of the selected program
/// only.
pub proof fn lemma_favorite_key_twice(s: AppView)
    requires
        s.menu_state == MenuState::Programs,
        !s.pending_quit,
    ensures
        s.after_key(Key::Char('f')).after_key(Key::Char('f')).catalog == s.catalog,
        s.after_key(Key::Char('f')).catalog == with_favorite_toggled(
            s.catalog,
            s.selected_category as int,
            s.selected_program as int,
        ),
        s.after_key(Key::Char('f')).menu_state == s.menu_state,
        s.after_key(Key::Char('f')).selected_category == s.selected_category,
        s.after_key(Key::Char('f')).selected_program == s.selected_program,
{
    lemma_toggle_twice(s.catalog, s.selected_category as int, s.selected_program as int);
}

/// `q` followed by any key but `y` leaves the screen and both selections
/// as they were before `q`, and does not quit.
pub proof fn lemma_quit_needs_confirmation(s: AppView, key: Key)
    requires
        key != Key::Char('y'),
    ensures
        ({
            let asked = s.after_key(Key::Char('q'));
            let t = asked.after_key(key);
            &&& asked.pending_quit
            &&& asked.action_for(key) != ActionView::Quit
            &&& t.menu_state == s.menu_state
            &&& t.selected_category == s.selected_category
            &&& t.selected_program == s.selected_program
            &&& t.catalog == s.catalog
            &&& t.color_scheme == s.color_scheme
        }),
{
}

/// The caller is asked to quit exactly when `y` answers a pending
/// confirmation, and `q` then `y` always does.
pub proof fn lemma_quit_only_when_confirmed(s: AppView, key: Key)
    ensures
        s.action_for(key) == ActionView::Quit <==> s.pending_quit && key == Key::Char('y'),
        s.after_key(Key::Char('q')).action_for(Key::Char('y')) == ActionView::Quit,
{
}

/// On the categories and on the programs screen a scroll step does what
/// the arrow key of its direction does.
pub proof fn lemma_scroll_is_arrow_key(s: AppView)
    requires
        s.menu_state == MenuState::Categories || s.menu_state == MenuState::Programs,
        !s.pending_quit,
    ensures
        s.after_pointer(MouseInput::ScrollUp) == s.after_key(Key::Up),
        s.after_pointer(MouseInput::ScrollDown) == s.after_key(Key::Down),
{
}

/// Tab moves to the next theme and asks for it to be stored; the screen
/// and the selections stay.
pub proof fn lemma_tab_cycles_theme(s: AppView)
    requires
        !s.pending_quit,
    ensures
        s.after_key(Key::Tab).color_scheme == s.color_scheme.successor(),
        s.action_for(Key::Tab) == ActionView::SaveColorScheme(s.color_scheme.successor()),
        s.after_key(Key::Tab).menu_state == s.menu_state,
        s.after_key(Key::Tab).selected_category == s.selected_category,
        s.after_key(Key::Tab).selected_program == s.selected_program,
{
}

/// No input adds, removes, renames or reorders anything in the catalog:
/// only favourite flags change.
pub proof fn lemma_catalog_keeps_shape(s: AppView, input: Input)
    ensures
        same_shape(s.after_input(input).catalog, s.catalog),
{
}

/// A run request after a key press carries the script of a program of the
/// catalog; on the search screen Enter makes one exactly if there are
/// results.
pub proof fn lemma_run_request_is_resolved(s: AppView, key: Key)
    requires
        s.wf(),
    ensures
        s.action_for(key) matches ActionView::RunScript(script) ==> exists|i: int|
            0 <= i < all_entries(s.catalog).len() && (#[trigger] all_entries(s.catalog)[i]).2
                == script,
        s.menu_state == MenuState::Search && !s.pending_quit ==> (s.action_for(Key::Enter)
            is RunScript <==> s.filtered_programs.len() > 0),
{
    if let ActionView::RunScript(script) = s.action_for(key) {
        if s.menu_state == MenuState::Search {
            let entry = s.filtered_programs[s.selected_program as int];
            assert(search(s.catalog, s.search_query).contains(entry));
            lemma_search_finds(s.catalog, s.search_query, entry);
        } else {
            crate::search::lemma_entry_of_program(
                s.catalog,
                s.selected_category as int,
                s.selected_program as int,
            );
        }
    }
}

} // verus!
