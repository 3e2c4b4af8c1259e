//! The popup that confirms deleting the selected card.
use vstd::prelude::*;
use crate::command::{Command, CommandView, Key};
use crate::state::{selected_card_id, selected_stack_id, App, AppView, Selected};

verus! {

pub open spec fn delete_card_step(v: AppView, k: Key) -> (AppView, CommandView) {
    match k {
        Key::Enter => (
            AppView { selected_window: Selected::CardList, ..v },
            CommandView::DeleteCard { id: selected_card_id(v), stack_id: selected_stack_id(v) },
        ),
        Key::Esc => (AppView { selected_window: Selected::CardList, ..v }, CommandView::Nothing),
        _ => (v, CommandView::Nothing),
    }
}

/// Handles a key in the popup that confirms deleting the selected card.
pub fn handle_events(key: Key, app: &mut App) -> (r: Command)
    requires
        old(app).wf(),
        old(app).selected_window == Selected::DeleteCard,
    ensures
        final(app).wf(),
        (final(app)@, r@) == delete_card_step(old(app)@, key),
{
    match key {
        Key::Enter => {
            let r = app.delete_card();
            app.selected_window = Selected::CardList;
            r
        },
        Key::Esc => {
            app.selected_window = Selected::CardList;
            Command::Nothing
        },
        _ => Command::Nothing,
    }
}

} // verus!
