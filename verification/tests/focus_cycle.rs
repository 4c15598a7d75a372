//! Tests of the older linear focus model: the focus cycle, library scroll
//! mode, and its key mapper.

use music_shell::cycle::{handle_key_events, App, Focus};
use music_shell::events::Key;

fn with_focus(f: Focus) -> App {
    App {
        focus: f,
        library_scroll: 0,
        library_scroll_mode: false,
        should_exit: false,
        show_popup: false,
    }
}

#[test]
fn cycle_initial_state() {
    let app = App::new();
    assert_eq!(app.focus, Focus::Main);
    assert_eq!(app.library_scroll, 0);
    assert!(!app.library_scroll_mode);
    assert!(!app.should_exit);
    assert!(!app.show_popup);
}

#[test]
fn next_focus_walks_the_cycle() {
    let mut app = with_focus(Focus::Search);
    app.next_focus();
    assert_eq!(app.focus, Focus::Library);
    app.next_focus();
    assert_eq!(app.focus, Focus::Playlist);
    app.next_focus();
    assert_eq!(app.focus, Focus::Playing);
    app.next_focus();
    assert_eq!(app.focus, Focus::Playing);

    let mut from_main = with_focus(Focus::Main);
    from_main.next_focus();
    assert_eq!(from_main.focus, Focus::Playing);
}

#[test]
fn previous_focus_walks_the_cycle_back() {
    let mut app = with_focus(Focus::Playing);
    app.previous_focus();
    assert_eq!(app.focus, Focus::Playlist);
    app.previous_focus();
    assert_eq!(app.focus, Focus::Library);
    app.previous_focus();
    assert_eq!(app.focus, Focus::Search);
    app.previous_focus();
    assert_eq!(app.focus, Focus::Search);

    let mut from_main = with_focus(Focus::Main);
    from_main.previous_focus();
    assert_eq!(from_main.focus, Focus::Search);
}

#[test]
fn focus_moves_leave_other_fields_alone() {
    let mut app = with_focus(Focus::Library);
    app.library_scroll = 7;
    app.show_popup = true;
    app.next_focus();
    assert_eq!(app.focus, Focus::Playlist);
    assert_eq!(app.library_scroll, 7);
    assert!(app.show_popup);
    app.previous_focus();
    assert_eq!(app.focus, Focus::Library);
    assert_eq!(app.library_scroll, 7);
    assert!(app.show_popup);
}

#[test]
fn up_down_walk_focus_outside_scroll_mode() {
    let mut app = with_focus(Focus::Library);
    handle_key_events(&mut app, Key::Down);
    assert_eq!(app.focus, Focus::Playlist);
    handle_key_events(&mut app, Key::Up);
    assert_eq!(app.focus, Focus::Library);
}

#[test]
fn up_down_scroll_in_scroll_mode() {
    let mut app = with_focus(Focus::Library);
    app.library_scroll_mode = true;
    handle_key_events(&mut app, Key::Down);
    handle_key_events(&mut app, Key::Down);
    assert_eq!(app.library_scroll, 2);
    assert_eq!(app.focus, Focus::Library);
    handle_key_events(&mut app, Key::Up);
    assert_eq!(app.library_scroll, 1);
    handle_key_events(&mut app, Key::Up);
    handle_key_events(&mut app, Key::Up);
    assert_eq!(app.library_scroll, 0);
    assert_eq!(app.focus, Focus::Library);
}

#[test]
fn enter_toggles_scroll_mode_only_on_library() {
    let mut app = with_focus(Focus::Library);
    handle_key_events(&mut app, Key::Enter);
    assert!(app.library_scroll_mode);
    handle_key_events(&mut app, Key::Enter);
    assert!(!app.library_scroll_mode);

    let mut elsewhere = with_focus(Focus::Main);
    handle_key_events(&mut elsewhere, Key::Enter);
    assert!(!elsewhere.library_scroll_mode);
}

#[test]
fn left_and_right_hop_between_columns() {
    let mut app = with_focus(Focus::Main);
    handle_key_events(&mut app, Key::Left);
    assert_eq!(app.focus, Focus::Library);
    handle_key_events(&mut app, Key::Right);
    assert_eq!(app.focus, Focus::Main);

    let mut from_playlist = with_focus(Focus::Playlist);
    handle_key_events(&mut from_playlist, Key::Right);
    assert_eq!(from_playlist.focus, Focus::Main);

    let mut from_search = with_focus(Focus::Search);
    handle_key_events(&mut from_search, Key::Left);
    assert_eq!(from_search.focus, Focus::Search);
    handle_key_events(&mut from_search, Key::Right);
    assert_eq!(from_search.focus, Focus::Search);
}

#[test]
fn cycle_quit_and_help() {
    let mut app = App::new();
    handle_key_events(&mut app, Key::Char('h'));
    assert!(app.show_popup);
    handle_key_events(&mut app, Key::Char('q'));
    assert!(app.should_exit);
    handle_key_events(&mut app, Key::Char('h'));
    assert!(!app.show_popup);
    assert!(app.should_exit);
}
