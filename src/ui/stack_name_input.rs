//! The popup that names a new stack.
use vstd::prelude::*;
use crate::buffer::{backspace, bounded_push, push_bounded, without_last};
use crate::command::{Command, CommandView, Key};
use crate::entity::MAX_STACK_NAME;
use crate::state::{App, AppView, Selected};

verus! {

/// Typing, Backspace and Esc in a popup that edits a stack name: the two
/// stack name popups treat them alike.
pub open spec fn name_entry_step(v: AppView, k: Key) -> AppView {
    match k {
        Key::Char(c) => AppView {
            stack_name_input: bounded_push(v.stack_name_input, c, MAX_STACK_NAME as nat),
            ..v
        },
        Key::Backspace => AppView { stack_name_input: without_last(v.stack_name_input), ..v },
        Key::Esc => AppView {
            stack_name_input: Seq::empty(),
            selected_window: Selected::Main,
            ..v
        },
        _ => v,
    }
}

/// The state after a stack name was committed: the buffer is cleared and
/// the main screen returns.
pub open spec fn name_committed(v: AppView) -> AppView {
    AppView { stack_name_input: Seq::empty(), selected_window: Selected::Main, ..v }
}

pub open spec fn stack_name_input_step(v: AppView, k: Key) -> (AppView, CommandView) {
    match k {
        Key::Enter => if v.stack_name_input.len() > 0 {
            (name_committed(v), CommandView::CreateStack { name: v.stack_name_input })
        } else {
            (v, CommandView::Nothing)
        },
        _ => (name_entry_step(v, k), CommandView::Nothing),
    }
}

/// Handles typing, Backspace and Esc in either stack name popup.
pub fn edit_name(key: Key, app: &mut App)
    requires
        old(app).wf(),
        old(app).selected_window == Selected::StackNameInput
            || old(app).selected_window == Selected::EditStackPopup,
    ensures
        final(app).wf(),
        final(app)@ == name_entry_step(old(app)@, key),
{
    match key {
        Key::Char(c) => push_bounded(&mut app.stack_name_input, c, MAX_STACK_NAME),
        Key::Backspace => backspace(&mut app.stack_name_input),
        Key::Esc => {
            app.stack_name_input = String::new();
            app.selected_window = Selected::Main;
        },
        _ => {},
    }
}

/// Handles a key in the popup that names a new stack.
pub fn handle_events(key: Key, app: &mut App) -> (r: Command)
    requires
        old(app).wf(),
        old(app).selected_window == Selected::StackNameInput,
    ensures
        final(app).wf(),
        (final(app)@, r@) == stack_name_input_step(old(app)@, key),
{
    match key {
        Key::Enter => {
            if app.stack_name_input.as_str().is_empty() {
                Command::Nothing
            } else {
                let r = app.add_stack(app.stack_name_input.clone());
                app.stack_name_input = String::new();
                app.selected_window = Selected::Main;
                r
            }
        },
        _ => {
            edit_name(key, app);
            Command::Nothing
        },
    }
}

} // verus!
