//! The main screen: the list of stacks.
use vstd::prelude::*;
use crate::buffer::bounded_prefix;
use crate::command::{Command, CommandView, Key};
use crate::cursor::{cursor_backward, cursor_forward};
use crate::entity::MAX_STACK_NAME;
use crate::state::{selected_stack_name, App, AppView, Selected};

verus! {

pub open spec fn main_step(v: AppView, k: Key) -> (AppView, CommandView) {
    match k {
        Key::Up | Key::Char('k') => (
            AppView { stack_cursor: cursor_backward(v.stack_cursor, v.items.len()), ..v },
            CommandView::Nothing,
        ),
        Key::Down | Key::Char('j') => (
            AppView { stack_cursor: cursor_forward(v.stack_cursor, v.items.len()), ..v },
            CommandView::Nothing,
        ),
        Key::Tab => (AppView { selected_window: Selected::Side, ..v }, CommandView::Nothing),
        Key::Char('a') => (
            AppView { stack_cursor: None, selected_window: Selected::StackNameInput, ..v },
            CommandView::Nothing,
        ),
        Key::Char('d') => (
            AppView { selected_window: Selected::DeleteStackPopup, ..v },
            CommandView::Nothing,
        ),
        Key::Enter => if v.stack_cursor is Some {
            (AppView { selected_window: Selected::Side, ..v }, CommandView::Nothing)
        } else {
            (v, CommandView::Nothing)
        },
        Key::Char('e') => (
            AppView {
                stack_name_input: bounded_prefix(selected_stack_name(v), MAX_STACK_NAME as nat),
                selected_window: Selected::EditStackPopup,
                ..v
            },
            CommandView::Nothing,
        ),
        Key::Char('c') => (v, CommandView::OpenConfig),
        Key::Char('q') => (v, CommandView::Quit),
        _ => (v, CommandView::Nothing),
    }
}

/// Handles a key on the main screen.
pub fn handle_events(key: Key, app: &mut App) -> (r: Command)
    requires
        old(app).wf(),
        old(app).selected_window == Selected::Main,
    ensures
        final(app).wf(),
        (final(app)@, r@) == main_step(old(app)@, key),
{
    match key {
        Key::Up | Key::Char('k') => {
            app.next();
            Command::Nothing
        },
        Key::Down | Key::Char('j') => {
            app.back();
            Command::Nothing
        },
        Key::Tab => {
            app.selected_window = Selected::Side;
            Command::Nothing
        },
        Key::Char('a') => {
            app.stack_cursor = None;
            app.selected_window = Selected::StackNameInput;
            Command::Nothing
        },
        Key::Char('d') => {
            app.selected_window = Selected::DeleteStackPopup;
            Command::Nothing
        },
        Key::Enter => {
            if app.stack_cursor.is_some() {
                app.selected_window = Selected::Side;
            }
            Command::Nothing
        },
        Key::Char('e') => {
            app.stack_name_input = app.get_selected_name();
            app.selected_window = Selected::EditStackPopup;
            Command::Nothing
        },
        Key::Char('c') => Command::OpenConfig,
        Key::Char('q') => Command::Quit,
        _ => Command::Nothing,
    }
}

} // verus!
