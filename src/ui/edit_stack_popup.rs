//! The popup that renames the selected stack.
use vstd::prelude::*;
use crate::command::{Command, CommandView, Key};
use crate::state::{selected_stack_id, App, AppView, Selected};
use crate::ui::stack_name_input::{edit_name, name_committed, name_entry_step};

verus! {

pub open spec fn edit_stack_popup_step(v: AppView, k: Key) -> (AppView, CommandView) {
    match k {
        Key::Enter => if v.stack_name_input.len() > 0 {
            (
                name_committed(v),
                CommandView::RenameStack { id: selected_stack_id(v), name: v.stack_name_input },
            )
        } else {
            (v, CommandView::Nothing)
        },
        _ => (name_entry_step(v, k), CommandView::Nothing),
    }
}

/// Handles a key in the popup that renames the selected stack.
pub fn handle_events(key: Key, app: &mut App) -> (r: Command)
    requires
        old(app).wf(),
        old(app).selected_window == Selected::EditStackPopup,
    ensures
        final(app).wf(),
        (final(app)@, r@) == edit_stack_popup_step(old(app)@, key),
{
    match key {
        Key::Enter => {
            if app.stack_name_input.as_str().is_empty() {
                Command::Nothing
            } else {
                let r = app.edit_stack();
                app.stack_name_input = String::new();
                app.selected_window = Selected::Main;
                r
            }
        },
        _ => {
            edit_name(key, app);
            Command::Nothing
        },
    }
}

} // verus!
