//! A revision showing the title of the current card.
use vstd::prelude::*;
use crate::command::{Command, CommandView, Key};
use crate::state::{App, AppView, Selected};

verus! {

pub open spec fn revision_title_step(v: AppView, k: Key) -> (AppView, CommandView) {
    match k {
        Key::Enter => (AppView { selected_window: Selected::RevisionText, ..v }, CommandView::Nothing),
        Key::Esc => (
            AppView { selected_window: Selected::Side, revision_index: 0, ..v },
            CommandView::Nothing,
        ),
        _ => (v, CommandView::Nothing),
    }
}

/// Handles a key while a card's title is shown.
pub fn handle_events(key: Key, app: &mut App) -> (r: Command)
    requires
        old(app).wf(),
        old(app).selected_window == Selected::RevisionTitle,
    ensures
        final(app).wf(),
        (final(app)@, r@) == revision_title_step(old(app)@, key),
{
    match key {
        Key::Enter => {
            app.selected_window = Selected::RevisionText;
        },
        Key::Esc => {
            app.selected_window = Selected::Side;
            app.revision_index = 0;
        },
        _ => {},
    }
    Command::Nothing
}

} // verus!
