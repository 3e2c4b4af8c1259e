//! The side screen: the selected stack and what can be done with it.
use vstd::prelude::*;
use crate::command::{Command, CommandView, Key};
use crate::state::{selected_stack_id, App, AppView, Selected};

verus! {

pub open spec fn side_step(v: AppView, k: Key) -> (AppView, CommandView) {
    match k {
        Key::Tab => (AppView { selected_window: Selected::Main, ..v }, CommandView::Nothing),
        Key::Char('a') => (AppView { selected_window: Selected::AddCard, ..v }, CommandView::Nothing),
        Key::Char('l') => (v, CommandView::ShowCards { stack_id: selected_stack_id(v) }),
        Key::Char('s') => (v, CommandView::StartRevision { stack_id: selected_stack_id(v) }),
        Key::Esc => (AppView { selected_window: Selected::Main, ..v }, CommandView::Nothing),
        Key::Char('q') => (v, CommandView::Quit),
        _ => (v, CommandView::Nothing),
    }
}

/// Handles a key on the side screen.
pub fn handle_events(key: Key, app: &mut App) -> (r: Command)
    requires
        old(app).wf(),
        old(app).selected_window == Selected::Side,
    ensures
        final(app).wf(),
        (final(app)@, r@) == side_step(old(app)@, key),
{
    match key {
        Key::Tab => {
            app.selected_window = Selected::Main;
            Command::Nothing
        },
        Key::Char('a') => {
            app.selected_window = Selected::AddCard;
            Command::Nothing
        },
        Key::Char('l') => Command::ShowCards { stack_id: app.get_selected_id() },
        Key::Char('s') => Command::StartRevision { stack_id: app.get_selected_id() },
        Key::Esc => {
            app.selected_window = Selected::Main;
            Command::Nothing
        },
        Key::Char('q') => Command::Quit,
        _ => Command::Nothing,
    }
}

} // verus!
