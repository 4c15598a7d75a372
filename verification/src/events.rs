//! The key-event mapper: one discrete key press becomes at most one
//! transition of the navigation state.
//!
//! The grid is non-rectangular (row 2 has no right-hand cell of its own),
//! so two transitions skip a row and one re-targets the row while moving
//! right; everything else is a single clamped step.

use vstd::prelude::*;

use crate::app::App;

verus! {

/// One discrete key press, as the mapper sees it: a named key, a plain
/// character, or anything else (which is always a no-op).
#[derive(PartialEq, Eq, Structural, Debug, Clone, Copy)]
pub enum Key {
    Up,
    Down,
    Left,
    Right,
    Enter,
    Char(char),
    Other,
}

/// The transition relation of the navigation state machine: the state after
/// pressing `k` in state `s`. Total over all states; on well-formed states
/// it never leaves the grid.
pub open spec fn step(s: App, k: Key) -> App {
    match k {
        Key::Char(c) => {
            if c == 'q' {
                App { should_exit: true, ..s }
            } else if c == 'h' {
                App { show_popup: !s.show_popup, ..s }
            } else {
                s
            }
        },
        Key::Up => {
            if s.cursor_y > 0 {
                if s.cursor_x == 1 && s.cursor_y == 3 {
                    App { cursor_y: (s.cursor_y - 2) as usize, ..s }
                } else {
                    App { cursor_y: (s.cursor_y - 1) as usize, ..s }
                }
            } else {
                s
            }
        },
        Key::Down => {
            if s.cursor_y < 3 {
                if s.cursor_x == 1 && s.cursor_y == 1 {
                    App { cursor_y: (s.cursor_y + 2) as usize, ..s }
                } else {
                    App { cursor_y: (s.cursor_y + 1) as usize, ..s }
                }
            } else {
                s
            }
        },
        Key::Left => {
            if s.cursor_x > 0 {
                App { cursor_x: (s.cursor_x - 1) as usize, ..s }
            } else {
                s
            }
        },
        Key::Right => {
            if s.cursor_x < 1 {
                if s.cursor_y == 2 {
                    App { cursor_x: (s.cursor_x + 1) as usize, cursor_y: (s.cursor_y - 1) as usize, ..s }
                } else {
                    App { cursor_x: (s.cursor_x + 1) as usize, ..s }
                }
            } else {
                s
            }
        },
        _ => s,
    }
}

/// The state after pressing a whole sequence of keys, first key first.
pub open spec fn run(s: App, keys: Seq<Key>) -> App
    decreases keys.len(),
{
    if keys.len() == 0 {
        s
    } else {
        run(step(s, keys[0]), keys.subrange(1, keys.len() as int))
    }
}

/// Apply one key press to the state.
///
/// `q` requests exit, `h` toggles the help overlay, the arrow keys move the
/// cursor within the grid, and every other key leaves the state unchanged.
pub fn handle_key_events(app: &mut App, key: Key)
    ensures
        *final(app) == step(*old(app), key),
        old(app).wf() ==> final(app).wf(),
{
    match key {
        Key::Char(c) => {
            if c == 'q' {
                app.should_exit = true;
            } else if c == 'h' {
                app.show_popup = !app.show_popup;
            }
        },
        Key::Up => {
            if app.cursor_y > 0 {
                if app.cursor_x == 1 && app.cursor_y == 3 {
                    app.cursor_y = app.cursor_y - 2;
                } else {
                    app.cursor_y = app.cursor_y - 1;
                }
            }
        },
        Key::Down => {
            if app.cursor_y < 3 {
                if app.cursor_x == 1 && app.cursor_y == 1 {
                    app.cursor_y = app.cursor_y + 2;
                } else {
                    app.cursor_y = app.cursor_y + 1;
                }
            }
        },
        Key::Left => {
            if app.cursor_x > 0 {
                app.cursor_x = app.cursor_x - 1;
            }
        },
        Key::Right => {
            if app.cursor_x < 1 {
                if app.cursor_y == 2 {
                    app.cursor_y = app.cursor_y - 1;
                }
                app.cursor_x = app.cursor_x + 1;
            }
        },
        _ => {},
    }
}

/// One step never leaves the grid: a well-formed state stays well-formed
/// under every key.
pub proof fn lemma_step_preserves_wf(s: App, k: Key)
    ensures
        s.wf() ==> step(s, k).wf(),
{
}

/// Bounds invariant: starting from any well-formed state, the cursor is
/// still on the grid after any finite key sequence.
pub proof fn lemma_run_preserves_wf(s: App, keys: Seq<Key>)
    ensures
        s.wf() ==> run(s, keys).wf(),
    decreases keys.len(),
{
    if keys.len() > 0 {
        lemma_step_preserves_wf(s, keys[0]);
        lemma_run_preserves_wf(step(s, keys[0]), keys.subrange(1, keys.len() as int));
    }
}

/// Bounds invariant from the initial state: after every prefix of any key
/// sequence, `cursor_x` is 0 or 1 and `cursor_y` is between 0 and 3.
pub proof fn lemma_bounds_invariant(keys: Seq<Key>, i: int)
    requires
        0 <= i <= keys.len(),
    ensures
        run(App::init(), keys.subrange(0, i)).wf(),
{
    lemma_run_preserves_wf(App::init(), keys.subrange(0, i));
}

/// Edge presses are no-ops: Up on the top row, Down on the bottom row,
/// Left in the left column and Right in the right column leave the state
/// exactly as it was.
pub proof fn lemma_noop_edges(s: App)
    ensures
        s.cursor_y == 0 ==> step(s, Key::Up) == s,
        s.cursor_y >= 3 ==> step(s, Key::Down) == s,
        s.cursor_x == 0 ==> step(s, Key::Left) == s,
        s.cursor_x >= 1 ==> step(s, Key::Right) == s,
{
}

/// Row-skip correctness: in the right column, Up from the Player row lands
/// on the Main row (skipping row 2), and Down from the Main row lands on
/// the Player row; nothing else changes.
pub proof fn lemma_row_skip(s: App)
    ensures
        s.cursor_x == 1 && s.cursor_y == 3 ==> step(s, Key::Up) == (App { cursor_y: 1, ..s }),
        s.cursor_x == 1 && s.cursor_y == 1 ==> step(s, Key::Down) == (App { cursor_y: 3, ..s }),
{
}

/// Right-edge re-target: Right from the Playlist cell moves to the Main
/// cell of row 1, since row 2 has no right-hand cell of its own.
pub proof fn lemma_right_edge_retarget(s: App)
    ensures
        s.cursor_x == 0 && s.cursor_y == 2 ==> step(s, Key::Right) == (App { cursor_x: 1, cursor_y: 1, ..s }),
{
}

/// Toggle independence: `h` flips the help overlay and touches nothing
/// else, whatever the cursor position.
pub proof fn lemma_help_toggle(s: App)
    ensures
        step(s, Key::Char('h')) == (App { show_popup: !s.show_popup, ..s }),
{
}

/// Exit is sticky, and only `q` sets it: after any key, the exit flag is
/// the old flag or-ed with whether the key was `q`.
pub proof fn lemma_exit_sticky_step(s: App, k: Key)
    ensures
        step(s, k).should_exit == (s.should_exit || k == Key::Char('q')),
{
}

/// Exit is sticky over whole sequences: once requested, no later key
/// clears it.
pub proof fn lemma_exit_sticky(s: App, keys: Seq<Key>)
    ensures
        s.should_exit ==> run(s, keys).should_exit,
    decreases keys.len(),
{
    if keys.len() > 0 {
        lemma_exit_sticky_step(s, keys[0]);
        lemma_exit_sticky(step(s, keys[0]), keys.subrange(1, keys.len() as int));
    }
}

} // verus!
