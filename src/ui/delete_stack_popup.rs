//! The popup that confirms deleting the selected stack.
use vstd::prelude::*;
use crate::command::{Command, CommandView, Key};
use crate::state::{selected_stack_id, App, AppView, Selected};

verus! {

pub open spec fn delete_stack_popup_step(v: AppView, k: Key) -> (AppView, CommandView) {
    match k {
        Key::Enter => (
            AppView { stack_cursor: None, selected_window: Selected::Main, ..v },
            CommandView::DeleteStack { id: selected_stack_id(v) },
        ),
        Key::Esc => (AppView { selected_window: Selected::Main, ..v }, CommandView::Nothing),
        _ => (v, CommandView::Nothing),
    }
}

/// Handles a key in the popup that confirms deleting the selected stack.
pub fn handle_events(key: Key, app: &mut App) -> (r: Command)
    requires
        old(app).wf(),
        old(app).selected_window == Selected::DeleteStackPopup,
    ensures
        final(app).wf(),
        (final(app)@, r@) == delete_stack_popup_step(old(app)@, key),
{
    match key {
        Key::Enter => {
            let id = app.get_selected_id();
            app.stack_cursor = None;
            app.selected_window = Selected::Main;
            app.delete_stack(id)
        },
        Key::Esc => {
            app.selected_window = Selected::Main;
            Command::Nothing
        },
        _ => Command::Nothing,
    }
}

} // verus!
