//! A revision showing the text of the current card.
use vstd::prelude::*;
use crate::command::{Command, CommandView, Key};
use crate::state::{App, AppView, Selected};

verus! {

/// Whether the revision shows the last card.
pub open spec fn at_last_card(v: AppView) -> bool {
    v.revision_index == v.cards.len() - 1
}

pub open spec fn revision_text_step(v: AppView, k: Key) -> (AppView, CommandView) {
    match k {
        Key::Enter => if at_last_card(v) {
            (AppView { selected_window: Selected::Side, revision_index: 0, ..v }, CommandView::Nothing)
        } else {
            (
                AppView {
                    selected_window: Selected::RevisionTitle,
                    revision_index: (v.revision_index + 1) as usize,
                    ..v
                },
                CommandView::Nothing,
            )
        },
        Key::Esc => if at_last_card(v) {
            (AppView { selected_window: Selected::Side, revision_index: 0, ..v }, CommandView::Nothing)
        } else {
            (AppView { selected_window: Selected::RevisionTitle, ..v }, CommandView::Nothing)
        },
        _ => (v, CommandView::Nothing),
    }
}

/// Handles a key while a card's text is shown.
pub fn handle_events(key: Key, app: &mut App) -> (r: Command)
    requires
        old(app).wf(),
        old(app).selected_window == Selected::RevisionText,
    ensures
        final(app).wf(),
        (final(app)@, r@) == revision_text_step(old(app)@, key),
{
    let last = app.revision_index == app.cards.len() - 1;
    match key {
        Key::Enter => {
            if last {
                app.selected_window = Selected::Side;
                app.revision_index = 0;
            } else {
                app.revision_index = app.revision_index + 1;
                app.selected_window = Selected::RevisionTitle;
            }
        },
        Key::Esc => {
            if last {
                app.selected_window = Selected::Side;
                app.revision_index = 0;
            } else {
                app.selected_window = Selected::RevisionTitle;
            }
        },
        _ => {},
    }
    Command::Nothing
}

} // verus!
