//! What each key does on each screen.

use crate::state::{activated, focus_moved, items_stepped, Action, App, Screen};
use vstd::prelude::*;

verus! {

/// A key press, as far as the front-end tells keys apart.
#[derive(Debug, Clone, Copy, PartialEq, Eq, Structural)]
pub enum Key {
    Char(char),
    Esc,
    Tab,
    BackTab,
    Up,
    Down,
    Enter,
    Other,
}

/// The key leaves the main screen's program: `q` or Esc.
pub open spec fn is_quit_key(k: Key) -> bool {
    k == Key::Char('q') || k == Key::Esc
}

/// What a key on the main screen does, from state `a` to state `b`, with
/// `r` asked of the surrounding program. `q` and Esc ask to quit; Tab and
/// Shift+Tab move the focus; Up and Down move the focused list's cursor;
/// Enter activates the focused widget; any other key does nothing.
pub open spec fn main_screen_step(a: App, b: App, key: Key, r: Action) -> bool {
    if is_quit_key(key) {
        r is Quit && b == a
    } else if key == Key::Tab {
        r is Continue && focus_moved(a, b, true)
    } else if key == Key::BackTab {
        r is Continue && focus_moved(a, b, false)
    } else if key == Key::Down {
        r is Continue && items_stepped(a, b, true)
    } else if key == Key::Up {
        r is Continue && items_stepped(a, b, false)
    } else if key == Key::Enter {
        activated(a, b, r)
    } else {
        r is Continue && b == a
    }
}

/// Handles a key on the main screen. `q` and Esc ask to quit; Tab and
/// Shift+Tab move the focus; Up and Down move the focused list's cursor;
/// Enter activates the focused widget; any other key does nothing.
pub fn handle_main_screen_input(app: &mut App, key: Key) -> (r: Action)
    requires
        old(app).wf(),
    ensures
        final(app).wf(),
        main_screen_step(*old(app), *final(app), key, r),
{
    match key {
        Key::Char('q') | Key::Esc => Action::Quit,
        Key::Tab => {
            app.next_widget();
            Action::Continue
        },
        Key::BackTab => {
            app.previous_widget();
            Action::Continue
        },
        Key::Up => {
            app.previous_item();
            Action::Continue
        },
        Key::Down => {
            app.next_item();
            Action::Continue
        },
        Key::Enter => app.activate(),
        _ => Action::Continue,
    }
}

/// Whether a key leaves the result screen: Enter, `q` or Esc.
pub fn handle_result_screen_input(key: Key) -> (r: bool)
    ensures
        r == (is_quit_key(key) || key == Key::Enter),
{
    match key {
        Key::Char('q') | Key::Esc | Key::Enter => true,
        _ => false,
    }
}

/// Handles a key on whichever screen is on show. The result screen only
/// ever leads out of the program.
pub fn handle_key(app: &mut App, key: Key) -> (r: Action)
    requires
        old(app).wf(),
    ensures
        final(app).wf(),
        old(app).screen == Screen::Main ==> main_screen_step(*old(app), *final(app), key, r),
        old(app).screen == Screen::Result ==> *final(app) == *old(app) && (if is_quit_key(key)
            || key == Key::Enter {
            r is Quit
        } else {
            r is Continue
        }),
{
    match app.screen {
        Screen::Main => handle_main_screen_input(app, key),
        Screen::Result => {
            if handle_result_screen_input(key) {
                Action::Quit
            } else {
                Action::Continue
            }
        },
    }
}

} // verus!
