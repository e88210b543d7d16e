use chess_core::app::{App, AppState, MenuSelector};

#[test]
fn menu_starts_on_the_first_of_three_entries() {
    let menu = MenuSelector::new();
    assert_eq!(menu.selected_index, 0);
    assert_eq!(menu.num_items, 3);
    assert_eq!(
        menu.items,
        vec![
            "Normal game".to_string(),
            "Help section".to_string(),
            "Credits".to_string(),
        ]
    );
}

#[test]
fn menu_next_stops_at_the_last_entry() {
    let mut menu = MenuSelector::new();
    menu.next();
    assert_eq!(menu.selected_index, 1);
    menu.next();
    assert_eq!(menu.selected_index, 2);
    menu.next();
    assert_eq!(menu.selected_index, 2);
}

#[test]
fn menu_previous_stops_at_the_first_entry() {
    let mut menu = MenuSelector::new();
    menu.previous();
    assert_eq!(menu.selected_index, 0);
    menu.next();
    menu.previous();
    assert_eq!(menu.selected_index, 0);
}

#[test]
fn menu_select_ignores_an_out_of_range_index() {
    let mut menu = MenuSelector::new();
    menu.select(2);
    assert_eq!(menu.selected_index, 2);
    menu.select(3);
    assert_eq!(menu.selected_index, 2);
    menu.select(0);
    assert_eq!(menu.selected_index, 0);
}

#[test]
fn menu_get_returns_the_entry_under_the_cursor() {
    let mut menu = MenuSelector::new();
    assert_eq!(menu.get(), Some(&"Normal game".to_string()));
    menu.next();
    assert_eq!(menu.get(), Some(&"Help section".to_string()));
    menu.next();
    assert_eq!(menu.get(), Some(&"Credits".to_string()));
}

#[test]
fn fresh_app_shows_the_main_menu() {
    let app = App::new();
    assert!(app.running);
    assert_eq!(app.counter, 0);
    assert_eq!(app.state, vec![AppState::MainMenu]);
    assert!(app.game.is_none());
    assert_eq!(app.menu_selector.selected_index, 0);
}

#[test]
fn select_app_state_opens_the_chosen_screen() {
    let mut app = App::new();
    app.select_app_state();
    assert_eq!(app.state, vec![AppState::MainMenu, AppState::Game]);

    let mut app = App::new();
    app.menu_selector.select(1);
    app.select_app_state();
    assert_eq!(app.state, vec![AppState::MainMenu, AppState::Help]);

    let mut app = App::new();
    app.menu_selector.select(2);
    app.select_app_state();
    assert_eq!(app.state, vec![AppState::MainMenu, AppState::Credits]);
}

#[test]
fn quit_closes_the_top_screen_then_stops() {
    let mut app = App::new();
    app.select_app_state();
    assert_eq!(app.state.len(), 2);

    app.quit();
    assert_eq!(app.state, vec![AppState::MainMenu]);
    assert!(app.running);

    app.quit();
    assert!(app.state.is_empty());
    assert!(!app.running);
}

#[test]
fn counter_saturates_at_both_ends() {
    let mut app = App::new();
    app.decrement_counter();
    assert_eq!(app.counter, 0);
    app.increment_counter();
    app.increment_counter();
    assert_eq!(app.counter, 2);
    app.decrement_counter();
    assert_eq!(app.counter, 1);
    app.counter = 255;
    app.increment_counter();
    assert_eq!(app.counter, 255);
}

#[test]
fn tick_changes_nothing_observable() {
    let app = App::new();
    app.tick();
    assert!(app.running);
    assert_eq!(app.counter, 0);
}
