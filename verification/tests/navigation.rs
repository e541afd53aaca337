use linux_toolbox::catalog::{Catalog, Category, Program};
use linux_toolbox::menu::{AppState, InputAction, Key, MenuState};
use linux_toolbox::theme::ColorScheme;

fn program(name: &str, script: &str) -> Program {
    Program::new(name.to_string(), script.to_string())
}

fn sample_catalog() -> Catalog {
    Catalog::new(vec![
        Category::new("Network".to_string(), vec![program("ping", "ping.sh")]),
        Category::new(
            "Disk".to_string(),
            vec![program("cleanup", "cleanup.sh"), program("check", "check_disk.sh")],
        ),
    ])
}

fn sample_app() -> AppState {
    AppState::new(
        sample_catalog(),
        ColorScheme::Default,
        "OS: Test".to_string(),
        "a quote".to_string(),
    )
}

fn type_text(app: &mut AppState, text: &str) {
    for c in text.chars() {
        app.handle_input(Key::Char(c));
    }
}

#[test]
fn starts_on_categories_with_first_selected() {
    let app = sample_app();
    assert_eq!(app.menu_state, MenuState::Categories);
    assert_eq!(app.selected_category, 0);
    assert_eq!(app.selected_program, 0);
    assert_eq!(app.search_query, "");
    assert!(app.filtered_programs.is_empty());
    assert_eq!(app.status_message, None);
    assert!(!app.pending_quit);
    assert_eq!(app.color_scheme, ColorScheme::Default);
}

#[test]
fn walk_through_categories_and_programs() {
    let mut app = sample_app();
    assert_eq!(app.handle_input(Key::Down), (InputAction::Continue, false));
    assert_eq!(app.selected_category, 1);
    assert_eq!(app.catalog.categories[app.selected_category].name, "Disk");

    app.handle_input(Key::Enter);
    assert_eq!(app.menu_state, MenuState::Programs);
    assert_eq!(app.selected_program, 0);
    assert_eq!(app.catalog.categories[1].programs[app.selected_program].name, "cleanup");

    app.handle_input(Key::Down);
    assert_eq!(app.selected_program, 1);
    assert_eq!(app.catalog.categories[1].programs[app.selected_program].name, "check");

    app.handle_input(Key::Esc);
    assert_eq!(app.menu_state, MenuState::Categories);
    assert_eq!(app.selected_category, 1);
    assert_eq!(app.selected_program, 0);
}

#[test]
fn up_and_down_stop_at_both_ends() {
    let mut app = sample_app();
    for _ in 0..5 {
        app.handle_input(Key::Up);
        assert_eq!(app.selected_category, 0);
    }
    for _ in 0..5 {
        app.handle_input(Key::Down);
        assert!(app.selected_category < 2);
    }
    assert_eq!(app.selected_category, 1);
    app.handle_input(Key::Enter);
    for _ in 0..5 {
        app.handle_input(Key::Down);
        assert!(app.selected_program < 2);
    }
    assert_eq!(app.selected_program, 1);
    for _ in 0..5 {
        app.handle_input(Key::Up);
    }
    assert_eq!(app.selected_program, 0);
}

#[test]
fn enter_resets_program_selection() {
    let mut app = sample_app();
    app.selected_program = 7;
    app.handle_input(Key::Enter);
    assert_eq!(app.menu_state, MenuState::Programs);
    assert_eq!(app.selected_program, 0);
}

#[test]
fn backspace_leaves_programs_like_escape() {
    let mut app = sample_app();
    app.handle_input(Key::Down);
    app.handle_input(Key::Enter);
    app.handle_input(Key::Down);
    app.handle_input(Key::Backspace);
    assert_eq!(app.menu_state, MenuState::Categories);
    assert_eq!(app.selected_category, 1);
    assert_eq!(app.selected_program, 0);
}

#[test]
fn home_goes_to_first_item() {
    let mut app = sample_app();
    app.handle_input(Key::Down);
    app.handle_input(Key::Home);
    assert_eq!(app.selected_category, 0);
    app.handle_input(Key::Down);
    app.handle_input(Key::Enter);
    app.handle_input(Key::Down);
    app.handle_input(Key::Home);
    assert_eq!(app.selected_program, 0);
    assert_eq!(app.selected_category, 1);
}

#[test]
fn digits_jump_to_existing_categories_only() {
    let mut app = sample_app();
    app.handle_input(Key::Char('2'));
    assert_eq!(app.selected_category, 1);
    app.handle_input(Key::Char('3'));
    assert_eq!(app.selected_category, 1);
    app.handle_input(Key::Char('9'));
    assert_eq!(app.selected_category, 1);
    app.handle_input(Key::Char('0'));
    assert_eq!(app.selected_category, 1);
    app.handle_input(Key::Char('1'));
    assert_eq!(app.selected_category, 0);
    app.handle_input(Key::Enter);
    app.handle_input(Key::Char('2'));
    assert_eq!(app.selected_category, 0);
    assert_eq!(app.menu_state, MenuState::Programs);
}

#[test]
fn enter_on_programs_requests_the_selected_script() {
    let mut app = sample_app();
    app.handle_input(Key::Down);
    app.handle_input(Key::Enter);
    app.handle_input(Key::Down);
    let before = app.clone();
    assert_eq!(
        app.handle_input(Key::Enter),
        (InputAction::RunScript("check_disk.sh".to_string()), false)
    );
    assert_eq!(app, before);
    assert_eq!(app.selected_script(), Some("check_disk.sh".to_string()));
}

#[test]
fn enter_on_an_empty_category_requests_nothing() {
    let catalog = Catalog::new(vec![Category::new("Empty".to_string(), vec![])]);
    let mut app = AppState::new(catalog, ColorScheme::Default, String::new(), String::new());
    app.handle_input(Key::Enter);
    assert_eq!(app.menu_state, MenuState::Programs);
    let before = app.clone();
    assert_eq!(app.handle_input(Key::Enter), (InputAction::Continue, false));
    assert_eq!(app.handle_input(Key::Char('f')), (InputAction::Continue, false));
    assert_eq!(app.handle_input(Key::Down), (InputAction::Continue, false));
    assert_eq!(app, before);
    assert_eq!(app.selected_script(), None);
}

#[test]
fn empty_catalog_is_guarded() {
    let mut app = AppState::new(
        Catalog::new(vec![]),
        ColorScheme::Default,
        String::new(),
        String::new(),
    );
    app.handle_input(Key::Down);
    assert_eq!(app.selected_category, 0);
    app.handle_input(Key::Char('1'));
    assert_eq!(app.selected_category, 0);
    app.handle_input(Key::Enter);
    assert_eq!(app.handle_input(Key::Enter), (InputAction::Continue, false));
    app.handle_input(Key::Char('/'));
    app.handle_input(Key::Char('a'));
    assert!(app.filtered_programs.is_empty());
    assert_eq!(app.handle_input(Key::Enter), (InputAction::Continue, false));
}

#[test]
fn favorite_toggle_sets_flag_and_message() {
    let mut app = sample_app();
    app.handle_input(Key::Down);
    app.handle_input(Key::Enter);
    app.handle_input(Key::Down);
    let before = sample_catalog();
    assert_eq!(app.handle_input(Key::Char('f')), (InputAction::Continue, false));
    assert!(app.catalog.categories[1].programs[1].is_favorite);
    assert!(!app.catalog.categories[1].programs[0].is_favorite);
    assert!(!app.catalog.categories[0].programs[0].is_favorite);
    assert_eq!(app.status_message, Some("Added to check favorites".to_string()));

    app.handle_input(Key::Char('f'));
    assert_eq!(app.catalog, before);
    assert_eq!(app.status_message, Some("Removed from check favorites".to_string()));
    assert_eq!(app.menu_state, MenuState::Programs);
    assert_eq!(app.selected_program, 1);
}

#[test]
fn f_outside_programs_toggles_nothing() {
    let mut app = sample_app();
    app.handle_input(Key::Char('f'));
    assert_eq!(app.catalog, sample_catalog());
    assert_eq!(app.status_message, None);
}

#[test]
fn help_and_info_toggle_and_return_to_categories() {
    let mut app = sample_app();
    app.handle_input(Key::Down);
    app.handle_input(Key::Enter);
    assert_eq!(app.handle_input(Key::Char('h')), (InputAction::Continue, true));
    assert_eq!(app.menu_state, MenuState::Help);
    assert_eq!(app.handle_input(Key::Char('h')), (InputAction::Continue, true));
    assert_eq!(app.menu_state, MenuState::Categories);
    assert_eq!(app.selected_category, 1);

    app.handle_input(Key::Char('i'));
    assert_eq!(app.menu_state, MenuState::SystemInfo);
    app.handle_input(Key::Esc);
    assert_eq!(app.menu_state, MenuState::Categories);

    app.handle_input(Key::Char('i'));
    app.handle_input(Key::Char('h'));
    assert_eq!(app.menu_state, MenuState::Help);
    app.handle_input(Key::Char('i'));
    assert_eq!(app.menu_state, MenuState::SystemInfo);
    app.handle_input(Key::Char('i'));
    assert_eq!(app.menu_state, MenuState::Categories);

    app.handle_input(Key::Char('h'));
    app.handle_input(Key::Down);
    app.handle_input(Key::Enter);
    assert_eq!(app.menu_state, MenuState::Help);
    assert_eq!(app.handle_input(Key::Esc), (InputAction::Continue, false));
    assert_eq!(app.menu_state, MenuState::Categories);
}

#[test]
fn tab_cycles_theme_and_keeps_screen() {
    let mut app = sample_app();
    app.handle_input(Key::Down);
    app.handle_input(Key::Enter);
    assert_eq!(
        app.handle_input(Key::Tab),
        (InputAction::SaveColorScheme(ColorScheme::Dark), false)
    );
    assert_eq!(app.color_scheme, ColorScheme::Dark);
    assert_eq!(app.menu_state, MenuState::Programs);
    assert_eq!(app.selected_category, 1);
    for _ in 0..29 {
        app.handle_input(Key::Tab);
    }
    assert_eq!(app.color_scheme, ColorScheme::Default);
    app.handle_input(Key::Char('/'));
    assert_eq!(
        app.handle_input(Key::Tab),
        (InputAction::SaveColorScheme(ColorScheme::Dark), false)
    );
    assert_eq!(app.menu_state, MenuState::Search);
    assert_eq!(app.search_query, "");
}

#[test]
fn quit_needs_confirmation() {
    let mut app = sample_app();
    assert_eq!(app.handle_input(Key::Char('q')), (InputAction::ConfirmQuit, false));
    assert!(app.pending_quit);
    assert_eq!(
        app.status_message,
        Some("Press 'y' to confirm quit, any other key to cancel".to_string())
    );
    assert_eq!(app.handle_input(Key::Char('y')), (InputAction::Quit, false));
}

#[test]
fn any_other_key_cancels_quit_and_moves_nothing() {
    let keys = [
        Key::Down,
        Key::Enter,
        Key::Tab,
        Key::Esc,
        Key::Char('h'),
        Key::Char('i'),
        Key::Char('/'),
        Key::Char('2'),
        Key::Char('n'),
        Key::Char('Y'),
        Key::Home,
        Key::Backspace,
        Key::Other,
    ];
    for key in keys {
        let mut app = sample_app();
        app.handle_input(Key::Down);
        app.handle_input(Key::Enter);
        let before = app.clone();
        app.handle_input(Key::Char('q'));
        assert_eq!(app.handle_input(key), (InputAction::Continue, false));
        assert!(!app.pending_quit);
        assert_eq!(app.status_message, Some("Quit cancelled".to_string()));
        assert_eq!(app.menu_state, before.menu_state);
        assert_eq!(app.selected_category, before.selected_category);
        assert_eq!(app.selected_program, before.selected_program);
        assert_eq!(app.color_scheme, before.color_scheme);
        assert_eq!(app.catalog, before.catalog);
    }
}

#[test]
fn q_twice_still_waits_for_the_answer() {
    let mut app = sample_app();
    app.handle_input(Key::Char('q'));
    assert_eq!(app.handle_input(Key::Char('q')), (InputAction::ConfirmQuit, false));
    assert!(app.pending_quit);
    assert_eq!(app.handle_input(Key::Char('y')), (InputAction::Quit, false));
}

#[test]
fn y_without_question_does_not_quit() {
    let mut app = sample_app();
    assert_eq!(app.handle_input(Key::Char('y')), (InputAction::Continue, false));
    app.handle_input(Key::Char('q'));
    app.handle_input(Key::Char('n'));
    assert_eq!(app.handle_input(Key::Char('y')), (InputAction::Continue, false));
    app.handle_input(Key::Char('/'));
    app.handle_input(Key::Char('y'));
    assert_eq!(app.search_query, "y");
}

#[test]
fn slash_opens_empty_search_from_both_lists() {
    let mut app = sample_app();
    app.handle_input(Key::Char('/'));
    type_text(&mut app, "ng");
    assert_eq!(app.filtered_programs.len(), 1);
    app.handle_input(Key::Esc);
    assert_eq!(app.menu_state, MenuState::Categories);
    assert_eq!(app.search_query, "");

    app.handle_input(Key::Enter);
    app.handle_input(Key::Char('/'));
    assert_eq!(app.menu_state, MenuState::Search);
    assert_eq!(app.search_query, "");
    assert!(app.filtered_programs.is_empty());
    assert_eq!(app.handle_input(Key::Enter), (InputAction::Continue, false));
}

#[test]
fn typing_filters_and_backspace_widens() {
    let mut app = sample_app();
    app.handle_input(Key::Char('/'));
    type_text(&mut app, "c");
    assert_eq!(app.search_query, "c");
    assert_eq!(
        app.filtered_programs,
        vec![
            ("Disk".to_string(), "cleanup".to_string(), "cleanup.sh".to_string()),
            ("Disk".to_string(), "check".to_string(), "check_disk.sh".to_string()),
        ]
    );
    type_text(&mut app, "le");
    assert_eq!(
        app.filtered_programs,
        vec![("Disk".to_string(), "cleanup".to_string(), "cleanup.sh".to_string())]
    );
    app.handle_input(Key::Backspace);
    app.handle_input(Key::Backspace);
    assert_eq!(app.search_query, "c");
    assert_eq!(app.filtered_programs.len(), 2);
    app.handle_input(Key::Backspace);
    assert_eq!(app.search_query, "");
    assert_eq!(
        app.filtered_programs,
        vec![
            ("Network".to_string(), "ping".to_string(), "ping.sh".to_string()),
            ("Disk".to_string(), "cleanup".to_string(), "cleanup.sh".to_string()),
            ("Disk".to_string(), "check".to_string(), "check_disk.sh".to_string()),
        ]
    );
    app.handle_input(Key::Backspace);
    assert_eq!(app.search_query, "");
    assert_eq!(app.filtered_programs.len(), 3);
    assert_eq!(app.menu_state, MenuState::Search);
}

#[test]
fn enter_on_search_runs_selected_match_or_nothing() {
    let mut app = sample_app();
    app.handle_input(Key::Char('/'));
    type_text(&mut app, "zzz");
    assert!(app.filtered_programs.is_empty());
    let before = app.clone();
    assert_eq!(app.handle_input(Key::Enter), (InputAction::Continue, false));
    assert_eq!(app, before);

    for _ in 0..3 {
        app.handle_input(Key::Backspace);
    }
    type_text(&mut app, "CLEAN");
    assert_eq!(
        app.handle_input(Key::Enter),
        (InputAction::RunScript("cleanup.sh".to_string()), false)
    );
    assert_eq!(app.menu_state, MenuState::Search);
}

#[test]
fn selection_is_pulled_back_when_matches_shrink() {
    let mut app = sample_app();
    app.handle_input(Key::Down);
    app.handle_input(Key::Enter);
    app.handle_input(Key::Down);
    assert_eq!(app.selected_program, 1);
    app.handle_input(Key::Char('/'));
    type_text(&mut app, "c");
    assert_eq!(app.selected_program, 1);
    assert_eq!(
        app.handle_input(Key::Enter),
        (InputAction::RunScript("check_disk.sh".to_string()), false)
    );
    type_text(&mut app, "l");
    assert_eq!(app.filtered_programs.len(), 1);
    assert_eq!(app.selected_program, 0);
    assert_eq!(
        app.handle_input(Key::Enter),
        (InputAction::RunScript("cleanup.sh".to_string()), false)
    );
}

#[test]
fn command_letters_are_not_typed_into_search() {
    let mut app = sample_app();
    app.handle_input(Key::Char('/'));
    app.handle_input(Key::Char('f'));
    app.handle_input(Key::Char('/'));
    assert_eq!(app.search_query, "f/");
    app.handle_input(Key::Char('h'));
    assert_eq!(app.menu_state, MenuState::Help);
    assert_eq!(app.search_query, "f/");
}

#[test]
fn unknown_keys_change_nothing() {
    let mut app = sample_app();
    let before = app.clone();
    assert_eq!(app.handle_input(Key::Other), (InputAction::Continue, false));
    assert_eq!(app.handle_input(Key::Esc), (InputAction::Continue, false));
    assert_eq!(app.handle_input(Key::Backspace), (InputAction::Continue, false));
    assert_eq!(app.handle_input(Key::Char('x')), (InputAction::Continue, false));
    assert_eq!(app, before);
}

#[test]
fn quote_can_be_replaced() {
    let mut app = sample_app();
    app.set_quote("another".to_string());
    assert_eq!(app.current_quote, "another");
    assert_eq!(app.system_info, "OS: Test");
}
