//! Application state for the shell: which panel the cursor sits on, whether
//! the help overlay is shown, and whether the user asked to quit.
//!
//! The panels form a non-rectangular grid of four rows and at most two
//! columns: row 0 (Search) and row 3 (Player) span both columns, while rows
//! 1 and 2 have a left cell (Library, Playlist) and share the Main panel on
//! the right.

use vstd::prelude::*;

verus! {

/// The five panels a cursor position can land on.
#[derive(PartialEq, Eq, Structural, Debug, Clone, Copy)]
pub enum Focus {
    Search,
    Library,
    Playlist,
    Main,
    Playing,
}

/// The whole mutable state of the shell. Only the key-event mapper writes
/// it; rendering reads it.
#[derive(PartialEq, Eq, Structural, Debug, Clone, Copy)]
pub struct App {
    pub focus: Focus,
    pub library_scroll: usize,
    pub library_scroll_mode: bool,
    pub should_exit: bool,
    pub show_popup: bool,
    pub cursor_x: usize,
    pub cursor_y: usize,
}

impl App {
    /// The cursor stays on the grid: two columns, four rows.
    pub open spec fn wf(self) -> bool {
        self.cursor_x <= 1 && self.cursor_y <= 3
    }

    /// The state a fresh shell starts in: cursor on the top-left cell,
    /// no overlay, not exiting.
    pub open spec fn init() -> App {
        App {
            focus: Focus::Main,
            library_scroll: 0,
            library_scroll_mode: false,
            should_exit: false,
            show_popup: false,
            cursor_x: 0,
            cursor_y: 0,
        }
    }

    pub fn new() -> (app: App)
        ensures
            app == App::init(),
            app.wf(),
    {
        App {
            focus: Focus::Main,
            library_scroll: 0,
            library_scroll_mode: false,
            should_exit: false,
            show_popup: false,
            cursor_x: 0,
            cursor_y: 0,
        }
    }
}

/// Which panel the cell `(x, y)` belongs to. Rows 0 and 3 span both
/// columns; the right cells of rows 1 and 2 are both the Main panel.
pub open spec fn panel_at(x: int, y: int) -> Focus {
    if y == 0 {
        Focus::Search
    } else if y >= 3 {
        Focus::Playing
    } else if x == 0 {
        if y == 1 {
            Focus::Library
        } else {
            Focus::Playlist
        }
    } else {
        Focus::Main
    }
}

/// The panel the cursor currently highlights; rendering derives every
/// per-panel highlight from this.
pub fn focused_panel(app: &App) -> (f: Focus)
    ensures
        f == panel_at(app.cursor_x as int, app.cursor_y as int),
{
    if app.cursor_y == 0 {
        Focus::Search
    } else if app.cursor_y >= 3 {
        Focus::Playing
    } else if app.cursor_x == 0 {
        if app.cursor_y == 1 {
            Focus::Library
        } else {
            Focus::Playlist
        }
    } else {
        Focus::Main
    }
}

} // verus!
