//! Maps each key the user presses to one step of the session.

use crate::app::{deleted_back, moved_down, moved_up, quitted, typed, App};
use vstd::prelude::*;

verus! {

/// The keys the session reacts to; every other key is `Other`.
#[derive(Clone, Copy, Debug, PartialEq, Eq, Structural)]
pub enum Key {
    Esc,
    Up,
    BackTab,
    Down,
    Tab,
    Enter,
    Backspace,
    Char(char),
    Other,
}

/// Applies one key to the session: Esc leaves with nothing chosen, Enter
/// leaves with the selection, Up/BackTab and Down/Tab move the selection,
/// Backspace deletes back, a character is typed; other keys do nothing.
pub fn handle_key_events(key_event: Key, app: &mut App)
    requires
        old(app).wf(),
    ensures
        final(app).top() >= old(app).top(),
        match key_event {
            Key::Esc => quitted(*old(app), *final(app), true),
            Key::Enter => quitted(*old(app), *final(app), false),
            Key::Up | Key::BackTab => moved_up(*old(app), *final(app)),
            Key::Down | Key::Tab => moved_down(*old(app), *final(app)),
            Key::Backspace => deleted_back(*old(app), *final(app)),
            Key::Char(c) => typed(*old(app), *final(app), c),
            Key::Other => *final(app) == *old(app),
        },
{
    match key_event {
        Key::Esc => app.quit(true),
        Key::Up | Key::BackTab => app.decrement_counter(),
        Key::Down | Key::Tab => app.increment_counter(),
        Key::Enter => app.quit(false),
        Key::Backspace => app.delete(),
        Key::Char(c) => app.update_query(c),
        Key::Other => {},
    }
}

} // verus!
