//! The older, linear focus model of the shell: focus is one of five named
//! panels and Up/Down walk a fixed cycle through them, with a separate
//! scroll mode for the library list. Superseded by the two-axis grid model
//! in `app` and `events`, but still part of the public surface.

use vstd::prelude::*;

use crate::events::Key;

verus! {

/// The five panels of the linear model.
#[derive(PartialEq, Eq, Structural, Debug, Clone, Copy)]
pub enum Focus {
    Search,
    Library,
    Playlist,
    Main,
    Playing,
}

/// State of the linear model: the focused panel, the library scroll
/// position and mode, and the two toggle flags.
#[derive(PartialEq, Eq, Structural, Debug, Clone, Copy)]
pub struct App {
    pub focus: Focus,
    pub library_scroll: usize,
    pub library_scroll_mode: bool,
    pub should_exit: bool,
    pub show_popup: bool,
}

/// The panel one step back in the cycle; Search is its own predecessor,
/// and Main steps back to Search.
pub open spec fn previous_of(f: Focus) -> Focus {
    match f {
        Focus::Playing => Focus::Playlist,
        Focus::Playlist => Focus::Library,
        Focus::Library => Focus::Search,
        Focus::Main => Focus::Search,
        Focus::Search => Focus::Search,
    }
}

/// The panel one step forward in the cycle; Playing is its own successor,
/// and Main steps forward to Playing.
pub open spec fn next_of(f: Focus) -> Focus {
    match f {
        Focus::Search => Focus::Library,
        Focus::Library => Focus::Playlist,
        Focus::Playlist => Focus::Playing,
        Focus::Main => Focus::Playing,
        Focus::Playing => Focus::Playing,
    }
}

impl App {
    /// The state a fresh shell starts in under the linear model.
    pub open spec fn init() -> App {
        App {
            focus: Focus::Main,
            library_scroll: 0,
            library_scroll_mode: false,
            should_exit: false,
            show_popup: false,
        }
    }

    pub fn new() -> (app: App)
        ensures
            app == App::init(),
    {
        App {
            focus: Focus::Main,
            library_scroll: 0,
            library_scroll_mode: false,
            should_exit: false,
            show_popup: false,
        }
    }

    /// Move focus one step back in the cycle; everything else is kept.
    pub fn previous_focus(&mut self)
        ensures
            *final(self) == (App { focus: previous_of(old(self).focus), ..*old(self) }),
    {
        self.focus = match self.focus {
            Focus::Playing => Focus::Playlist,
            Focus::Playlist => Focus::Library,
            Focus::Library => Focus::Search,
            Focus::Main => Focus::Search,
            Focus::Search => Focus::Search,
        };
    }

    /// Move focus one step forward in the cycle; everything else is kept.
    pub fn next_focus(&mut self)
        ensures
            *final(self) == (App { focus: next_of(old(self).focus), ..*old(self) }),
    {
        self.focus = match self.focus {
            Focus::Search => Focus::Library,
            Focus::Library => Focus::Playlist,
            Focus::Playlist => Focus::Playing,
            Focus::Main => Focus::Playing,
            Focus::Playing => Focus::Playing,
        };
    }
}

/// The transition relation of the linear model: the state after pressing
/// `k` in state `s`. In scroll mode Up and Down move the library scroll
/// position (Down wraps at the top of `usize`, which the executable mapper
/// rules out); otherwise they walk the focus cycle.
pub open spec fn step(s: App, k: Key) -> App {
    match k {
        Key::Char(c) => {
            if c == 'q' {
                App { should_exit: true, ..s }
            } else if c == 'h' {
                App { show_popup: !s.show_popup, ..s }
            } else {
                s
            }
        },
        Key::Up => {
            if s.library_scroll_mode {
                if s.library_scroll > 0 {
                    App { library_scroll: (s.library_scroll - 1) as usize, ..s }
                } else {
                    s
                }
            } else {
                App { focus: previous_of(s.focus), ..s }
            }
        },
        Key::Down => {
            if s.library_scroll_mode {
                App { library_scroll: (s.library_scroll + 1) as usize, ..s }
            } else {
                App { focus: next_of(s.focus), ..s }
            }
        },
        Key::Left => {
            if s.focus == Focus::Main {
                App { focus: Focus::Library, ..s }
            } else {
                s
            }
        },
        Key::Right => {
            if s.focus == Focus::Library || s.focus == Focus::Playlist {
                App { focus: Focus::Main, ..s }
            } else {
                s
            }
        },
        Key::Enter => {
            if s.focus == Focus::Library {
                App { library_scroll_mode: !s.library_scroll_mode, ..s }
            } else {
                s
            }
        },
        Key::Other => s,
    }
}

/// Apply one key press to the linear-model state.
///
/// `q` requests exit, `h` toggles the help overlay, Enter on the library
/// toggles scroll mode, Up/Down either scroll the library or walk the
/// focus cycle, and Left/Right hop between the library column and Main.
pub fn handle_key_events(app: &mut App, key: Key)
    requires
        old(app).library_scroll_mode && key == Key::Down ==> old(app).library_scroll < usize::MAX,
    ensures
        *final(app) == step(*old(app), key),
{
    match key {
        Key::Char(c) => {
            if c == 'q' {
                app.should_exit = true;
            } else if c == 'h' {
                app.show_popup = !app.show_popup;
            }
        },
        Key::Up => {
            if app.library_scroll_mode {
                if app.library_scroll > 0 {
                    app.library_scroll = app.library_scroll - 1;
                }
            } else {
                app.previous_focus();
            }
        },
        Key::Down => {
            if app.library_scroll_mode {
                app.library_scroll = app.library_scroll + 1;
            } else {
                app.next_focus();
            }
        },
        Key::Left => {
            if app.focus == Focus::Main {
                app.focus = Focus::Library;
            }
        },
        Key::Right => {
            if app.focus == Focus::Library || app.focus == Focus::Playlist {
                app.focus = Focus::Main;
            }
        },
        Key::Enter => {
            if app.focus == Focus::Library {
                app.library_scroll_mode = !app.library_scroll_mode;
            }
        },
        Key::Other => {},
    }
}

} // verus!
